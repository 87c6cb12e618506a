//! Edits of YAML documents.

use vstd::prelude::*;

verus! {

/// A result with its texts as character sequences.
pub open spec fn edited(r: Result<String, String>) -> Result<Seq<char>, Seq<char>> {
    match r {
        Ok(s) => Ok(s@),
        Err(e) => Err(e@),
    }
}

/// A probe with its error as a character sequence.
pub open spec fn probed(r: Result<Option<bool>, String>) -> Result<Option<bool>, Seq<char>> {
    match r {
        Ok(b) => Ok(b),
        Err(e) => Err(e@),
    }
}

/// Whether the document is a mapping, and then whether it has the key; or the
/// text of the parse error.
pub uninterp spec fn has_key(document: Seq<char>, key: Seq<char>) -> Result<Option<bool>, Seq<char>>;

/// `serde_yaml::from_str`, `Value::as_mapping` and `Mapping::contains_key`: the
/// result is a function of the document and the key alone.
#[verifier::external_body]
pub(crate) fn probe_key(document: &str, key: &str) -> (r: Result<Option<bool>, String>)
    ensures
        probed(r) == has_key(document@, key@),
{
    match serde_yaml::from_str::<serde_yaml::Value>(document) {
        Ok(v) => Ok(v.as_mapping().map(|m| m.contains_key(key))),
        Err(e) => Err(e.to_string()),
    }
}

/// Whether a mapping stands under the key; or the text of the parse error.
pub uninterp spec fn has_section(document: Seq<char>, key: Seq<char>) -> Result<bool, Seq<char>>;

/// A probe for a section with its error as a character sequence.
pub open spec fn found(r: Result<bool, String>) -> Result<bool, Seq<char>> {
    match r {
        Ok(b) => Ok(b),
        Err(e) => Err(e@),
    }
}

/// `serde_yaml::from_str` and `Value::get`, of which the variant is told: the
/// result is a function of the document and the key alone.
#[verifier::external_body]
pub(crate) fn probe_section(document: &str, key: &str) -> (r: Result<bool, String>)
    ensures
        found(r) == has_section(document@, key@),
{
    match serde_yaml::from_str::<serde_yaml::Value>(document) {
        Ok(v) => Ok(matches!(v.get(key), Some(serde_yaml::Value::Mapping(_)))),
        Err(e) => Err(e.to_string()),
    }
}

/// The document as serde_yaml writes it, or the text of the error.
pub uninterp spec fn written(document: Seq<char>) -> Result<Seq<char>, Seq<char>>;

/// `serde_yaml::from_str` and `serde_yaml::to_string`: the result is a function
/// of the document alone.
#[verifier::external_body]
pub(crate) fn rewrite(document: &str) -> (r: Result<String, String>)
    ensures
        edited(r) == written(document@),
{
    let v: serde_yaml::Value = serde_yaml::from_str(document).map_err(|e| e.to_string())?;
    serde_yaml::to_string(&v).map_err(|e| e.to_string())
}

/// The document with the key set in its mapping, as serde_yaml writes it; or
/// the text of the error.
pub uninterp spec fn with_key(document: Seq<char>, key: Seq<char>, value: Seq<char>) -> Result<
    Seq<char>,
    Seq<char>,
>;

/// `serde_yaml::from_str`, `Mapping::insert` of a text under a text in the
/// outermost mapping, and `serde_yaml::to_string`: the result is a function of
/// the three texts alone.
#[verifier::external_body]
pub(crate) fn set_key(document: &str, key: &str, value: &str) -> (r: Result<String, String>)
    ensures
        edited(r) == with_key(document@, key@, value@),
{
    let mut v: serde_yaml::Value = serde_yaml::from_str(document).map_err(|e| e.to_string())?;
    v.as_mapping_mut().map(|m| m.insert(key.into(), value.into()));
    serde_yaml::to_string(&v).map_err(|e| e.to_string())
}

/// The document with the key set in the mapping under `section`, as serde_yaml
/// writes it; or the text of the error.
pub uninterp spec fn with_section_key(
    document: Seq<char>,
    section: Seq<char>,
    key: Seq<char>,
    value: Seq<char>,
) -> Result<Seq<char>, Seq<char>>;

/// `serde_yaml::from_str`, `Value::get_mut`, `Mapping::insert` of a text under a
/// text in the mapping that it gives, and `serde_yaml::to_string`: the result is
/// a function of the four texts alone.
#[verifier::external_body]
pub(crate) fn set_section_key(document: &str, section: &str, key: &str, value: &str) -> (r: Result<
    String,
    String,
>)
    ensures
        edited(r) == with_section_key(document@, section@, key@, value@),
{
    let mut v: serde_yaml::Value = serde_yaml::from_str(document).map_err(|e| e.to_string())?;
    if let Some(serde_yaml::Value::Mapping(m)) = v.get_mut(section) {
        m.insert(key.into(), value.into());
    }
    serde_yaml::to_string(&v).map_err(|e| e.to_string())
}

} // verus!
