//! Reading the JSON device lists that the platform tools print: for each listed
//! object, what a member holds as a string and as a boolean.

use vstd::prelude::*;

verus! {

/// One member of a listed object: its value as a string and as a boolean
/// (`None` where the member is missing or of another kind).
pub type Cell = (Option<String>, Option<bool>);

/// What a member says: the string and the boolean it holds, if any.
pub type CellView = (Option<Seq<char>>, Option<bool>);

/// What `serde_json` makes of `text` read as an array of values: for each element,
/// for each key, the member's string and boolean value; or the text of the parse error.
pub uninterp spec fn parsed_json_table(text: Seq<char>, keys: Seq<Seq<char>>) -> Result<Seq<Seq<CellView>>, Seq<char>>;

/// What `serde_json` makes of `text` read as one value (null where it does not parse):
/// for each key, the member's string and boolean value.
pub uninterp spec fn parsed_json_row(text: Seq<char>, keys: Seq<Seq<char>>) -> Seq<CellView>;

/// What a parsed table says, or the text of the parse error.
pub open spec fn table_view(r: Result<Vec<Vec<Cell>>, String>) -> Result<Seq<Seq<CellView>>, Seq<char>> {
    match r {
        Ok(t) => Ok(t.deep_view()),
        Err(m) => Err(m@),
    }
}

/// Calls `serde_json::from_str::<Vec<serde_json::Value>>` on `text`; for each element
/// and each key it reads `element[key].as_str()` and `element[key].as_bool()`. The
/// contract claims that the result is the named `parsed_json_table` of the text and
/// keys, with one cell per key in every row, and that a failure carries the error's text.
#[verifier::external_body]
pub fn json_table(text: &str, keys: &Vec<String>) -> (r: Result<Vec<Vec<Cell>>, String>)
    ensures
        table_view(r) == parsed_json_table(text@, keys.deep_view()),
        r matches Ok(t) ==> forall|i: int| 0 <= i < t@.len() ==> (#[trigger] t@[i])@.len() == keys@.len(),
{
    match serde_json::from_str::<Vec<serde_json::Value>>(text) {
        Ok(list) => Ok(list.iter().map(|e| keys.iter().map(|k| (
            e[k.as_str()].as_str().map(|s| s.to_string()),
            e[k.as_str()].as_bool(),
        )).collect()).collect()),
        Err(e) => Err(e.to_string()),
    }
}

/// Calls `serde_json::from_str::<serde_json::Value>` on `text`, taking null where it
/// fails (`unwrap_or_default`); for each key it reads `value[key].as_str()` and
/// `value[key].as_bool()`. The contract claims that the result is the named
/// `parsed_json_row` of the text and keys, with one cell per key.
#[verifier::external_body]
pub fn json_row(text: &str, keys: &Vec<String>) -> (r: Vec<Cell>)
    ensures
        r.deep_view() == parsed_json_row(text@, keys.deep_view()),
        r@.len() == keys@.len(),
{
    let value: serde_json::Value = serde_json::from_str(text).unwrap_or_default();
    keys.iter().map(|k| (value[k.as_str()].as_str().map(|s| s.to_string()), value[k.as_str()].as_bool())).collect()
}

} // verus!
