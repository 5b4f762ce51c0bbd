//! Lists of texts as JSON, in and out of text columns.
use vstd::prelude::*;

verus! {

/// What `serde_json::to_string` gives for a list of texts: the JSON text, or
/// the message of its error.
pub uninterp spec fn json_text(items: Seq<Seq<char>>) -> Result<Seq<char>, Seq<char>>;

/// What `serde_json::from_str` reads as a list of texts: the list, or the message of
/// its error where the text is not the JSON of one.
pub uninterp spec fn json_list(text: Seq<char>) -> Result<Seq<Seq<char>>, Seq<char>>;

/// What a JSON text, or the message of an error, holds.
pub open spec fn json_result(result: Result<String, String>) -> Result<Seq<char>, Seq<char>> {
    match result {
        Ok(text) => Ok(text@),
        Err(message) => Err(message@),
    }
}

/// What a list, or the message of an error, holds.
pub open spec fn list_result(result: Result<Vec<String>, String>) -> Result<
    Seq<Seq<char>>,
    Seq<char>,
> {
    match result {
        Ok(items) => Ok(items.deep_view()),
        Err(message) => Err(message@),
    }
}

/// `serde_json::to_string` on a list of texts. Its result depends on the list
/// alone. It succeeds: it fails only where a value refuses to be serialized or a
/// map has keys that are no texts, and a list of texts is neither. The text that
/// it gives is read back by `serde_json::from_str` as that list: what the writer
/// escapes in a text, the reader turns back.
#[verifier::external_body]
pub(crate) fn encode_list(items: &Vec<String>) -> (result: Result<String, String>)
    ensures
        json_result(result) == json_text(items.deep_view()),
        result is Ok,
        result matches Ok(text) ==> (json_list(text@) matches Ok(read) && read
            == items.deep_view()),
{
    match serde_json::to_string(items) {
        Ok(text) => Ok(text),
        Err(error) => Err(error.to_string()),
    }
}

/// `serde_json::from_str` for a list of texts. Its result, be it a list or the
/// message of an error, depends on the text alone.
#[verifier::external_body]
pub(crate) fn decode_list(text: &str) -> (result: Result<Vec<String>, String>)
    ensures
        list_result(result) == json_list(text@),
{
    match serde_json::from_str::<Vec<String>>(text) {
        Ok(items) => Ok(items),
        Err(error) => Err(error.to_string()),
    }
}

/// What is written or read is taken as it is, and so is the message of an error.
pub proof fn outcomes_are_taken_as_they_are(
    written: Result<String, String>,
    read: Result<Vec<String>, String>,
)
    ensures
        written matches Ok(text) ==> json_result(written) == Ok::<Seq<char>, Seq<char>>(text@),
        written matches Err(message) ==> json_result(written) == Err::<Seq<char>, Seq<char>>(
            message@,
        ),
        read matches Ok(items) ==> list_result(read) == Ok::<Seq<Seq<char>>, Seq<char>>(
            items.deep_view(),
        ),
        read matches Err(message) ==> list_result(read) == Err::<Seq<Seq<char>>, Seq<char>>(
            message@,
        ),
{
}

} // verus!
