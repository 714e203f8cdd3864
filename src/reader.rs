use vstd::prelude::*;
use vstd::string::StringExecFns;

verus! {

/// serde_json's number, handed on as the offset without being inspected.
#[verifier::external_type_specification]
#[verifier::external_body]
pub struct ExJsonNumber(serde_json::Number);

/// serde_json's parse error, only ever turned into its description.
#[verifier::external_type_specification]
#[verifier::external_body]
pub struct ExJsonError(serde_json::Error);

/// Whether serde_json accepts `text` as a JSON document: well-formed JSON,
/// nested no deeper than serde_json's recursion limit.
pub uninterp spec fn json_parses(text: Seq<char>) -> bool;

/// Whether the JSON document `text` is an object whose member `key` is a
/// number.
pub uninterp spec fn json_number_member(text: Seq<char>, key: Seq<char>) -> bool;

/// Relies on serde_json::from_str, read into a generic document, and on
/// serde_json::Value::get and Value::as_number on that document: the parse
/// succeeds exactly on the texts that serde_json accepts, and then yields the
/// member `key` of the top-level object when that member is a number.
#[verifier::external_body]
fn parse_number_member(text: &str, key: &str) -> (r: Result<
    Option<serde_json::Number>,
    serde_json::Error,
>)
    ensures
        r is Ok == json_parses(text@),
        r matches Ok(m) ==> (m is Some == json_number_member(text@, key@)),
{
    serde_json::from_str::<serde_json::Value>(text).map(
        |doc| doc.get(key).and_then(serde_json::Value::as_number).cloned(),
    )
}

/// Relies on serde_json::Error's Display impl, for the text that describes
/// a parse failure.
#[verifier::external_body]
fn json_error_text(e: &serde_json::Error) -> String {
    e.to_string()
}

/// The name of the settings field that holds the offset.
pub const OFFSET_FIELD: &'static str = "rhythmTrackerPositionOffset";

/// The description of a document without a numeric offset field.
pub const FIELD_MISSING_MESSAGE: &'static str =
    "Failed to get offset from settings file: field rhythmTrackerPositionOffset is absent or not a number";

/// Whether the settings text holds the offset: serde_json accepts it and its
/// top-level object has a numeric offset field.
pub open spec fn offset_found(text: Seq<char>) -> bool {
    json_parses(text) && json_number_member(text, OFFSET_FIELD@)
}

/// What the caller found at the settings path: no file, a file that could
/// not be read (with the reason), or the file's text.
#[derive(Debug)]
pub enum FileRead {
    Missing,
    Unreadable { detail: String },
    Contents { text: String },
}

/// Why the offset could not be read from the settings file.
#[derive(Debug)]
pub enum ReadError {
    /// No file at the settings path.
    NotFound { path: String },
    /// The file exists but reading it failed.
    Io { detail: String },
    /// The file's text is not well-formed JSON.
    Parse { detail: String },
    /// The document has no numeric offset field.
    FieldMissing,
}

/// The text shown to the user for each failure.
pub open spec fn message_spec(e: ReadError) -> Seq<char> {
    match e {
        ReadError::NotFound { path } => "Could not find settings file at "@ + path@,
        ReadError::Io { detail } => "Failed to read settings file: "@ + detail@,
        ReadError::Parse { detail } => "Failed to parse settings file: "@ + detail@,
        ReadError::FieldMissing => FIELD_MISSING_MESSAGE@,
    }
}

impl ReadError {
    /// The human-readable description of this failure.
    pub fn message(&self) -> (r: String)
        ensures
            r@ == message_spec(*self),
    {
        match self {
            ReadError::NotFound { path } => {
                let mut r = String::from_str("Could not find settings file at ");
                r.append(path.as_str());
                r
            },
            ReadError::Io { detail } => {
                let mut r = String::from_str("Failed to read settings file: ");
                r.append(detail.as_str());
                r
            },
            ReadError::Parse { detail } => {
                let mut r = String::from_str("Failed to parse settings file: ");
                r.append(detail.as_str());
                r
            },
            ReadError::FieldMissing => String::from_str(FIELD_MISSING_MESSAGE),
        }
    }
}

/// Parses the settings text and extracts the offset field: the number when
/// the text is a document with a numeric offset field, a parse failure when
/// serde_json refuses the text, and a missing field failure when the
/// document has no such field or holds something else than a number there.
pub fn offset_from_text(text: &str) -> (r: Result<serde_json::Number, ReadError>)
    ensures
        r is Ok <==> offset_found(text@),
        r matches Err(ReadError::Parse { .. }) <==> !json_parses(text@),
        r matches Err(ReadError::FieldMissing) <==> (json_parses(text@) && !json_number_member(
            text@,
            OFFSET_FIELD@,
        )),
{
    match parse_number_member(text, OFFSET_FIELD) {
        Ok(Some(n)) => Ok(n),
        Ok(None) => Err(ReadError::FieldMissing),
        Err(e) => Err(ReadError::Parse { detail: json_error_text(&e) }),
    }
}

/// Reads the offset out of what was found at the settings path `path`: a
/// missing file and an unreadable one give their own failures, carrying the
/// path or the reason; a file's text is parsed as `offset_from_text` says.
pub fn get_offset_from_game_settings(path: &str, file: FileRead) -> (r: Result<
    serde_json::Number,
    ReadError,
>)
    ensures
        file is Missing ==> (r matches Err(ReadError::NotFound { path: p }) && p@ == path@),
        file matches FileRead::Unreadable { detail } ==> (r matches Err(ReadError::Io { detail: d })
            && d == detail),
        r is Ok <==> (file matches FileRead::Contents { text } && offset_found(text@)),
        file matches FileRead::Contents { text } ==> (r matches Err(ReadError::Parse { .. })
            <==> !json_parses(text@)),
        file matches FileRead::Contents { text } ==> (r matches Err(ReadError::FieldMissing) <==> (
        json_parses(text@) && !json_number_member(text@, OFFSET_FIELD@))),
{
    match file {
        FileRead::Missing => Err(ReadError::NotFound { path: String::from_str(path) }),
        FileRead::Unreadable { detail } => Err(ReadError::Io { detail }),
        FileRead::Contents { text } => offset_from_text(text.as_str()),
    }
}

} // verus!
