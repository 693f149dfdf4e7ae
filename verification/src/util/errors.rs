//! The failures a call can end in.

use vstd::prelude::*;

verus! {

/// One structured error item as the service reports it.
#[derive(Debug)]
pub struct ApiError {
    pub code: i32,
    pub message: String,
    pub user_facing_message: Option<String>,
}

/// How a call failed.
#[derive(Debug)]
pub enum OxidError {
    /// The service rejected the request; these are the errors it listed.
    Api(Vec<ApiError>),
    /// The transport failed, or a reply could not be read; this is its account
    /// of what went wrong.
    Http(String),
    /// The session credential is missing or not accepted.
    Unauthorized,
    /// Data fetched from the service did not have the expected shape.
    Validation(String),
}

pub type RobloxResult<T> = Result<T, OxidError>;

/// What matters of an error item to its rendering: code, message and
/// user-facing message.
pub open spec fn error_fields(error: ApiError) -> (i32, Seq<char>, Option<Seq<char>>) {
    (
        error.code,
        error.message@,
        match error.user_facing_message {
            Some(text) => Some(text@),
            None => None,
        },
    )
}

/// The fields of each item of an error list, in order.
pub open spec fn error_list_fields(errors: Seq<ApiError>) -> Seq<
    (i32, Seq<char>, Option<Seq<char>>),
> {
    errors.map_values(|error: ApiError| error_fields(error))
}

/// The text that `Debug` formatting gives for a list of error items with the
/// given fields.
pub uninterp spec fn debug_rendering(fields: Seq<(i32, Seq<char>, Option<Seq<char>>)>) -> Seq<char>;

/// `Debug` formatting of a list of error items, as `format!("{:?}", ..)`
/// writes it: the result depends on the fields of the items alone.
#[verifier::external_body]
fn debug_text(errors: &Vec<ApiError>) -> (out: String)
    ensures
        out@ == debug_rendering(error_list_fields(errors@)),
{
    format!("{:?}", errors)
}

/// Tells whether a list holds an item with code zero, the code by which the
/// service says that the anti-forgery token did not validate.
pub open spec fn has_zero_code(errors: Seq<ApiError>) -> bool {
    exists|i: int| 0 <= i < errors.len() && (#[trigger] errors[i]).code == 0
}

/// Tells whether a list holds an item with code zero.
pub fn reports_token_failure(errors: &Vec<ApiError>) -> (found: bool)
    ensures
        found == has_zero_code(errors@),
{
    let mut i: usize = 0;
    while i < errors.len()
        invariant
            i <= errors.len(),
            forall|j: int| 0 <= j < i ==> (#[trigger] errors@[j]).code != 0,
        decreases errors.len() - i,
    {
        if errors[i].code == 0 {
            return true;
        }
        i += 1;
    }
    false
}

/// Writes the message of an `Api` failure around the listing of its errors.
pub fn api_description(listing: &str) -> (out: String)
    ensures
        out@ == "OxidRoblox API Error: "@ + listing@,
{
    String::from_str("OxidRoblox API Error: ").concat(listing)
}

impl OxidError {
    /// What the message that describes this failure says.
    pub open spec fn description(self) -> Seq<char> {
        match self {
            OxidError::Api(errors) => "OxidRoblox API Error: "@ + debug_rendering(
                error_list_fields(errors@),
            ),
            OxidError::Http(failure) => "OxidRoblox HTTP Error: "@ + failure@,
            OxidError::Unauthorized =>
                "OxidRoblox Error: Invalid or unauthorized cookie when using an authenticated request"@,
            OxidError::Validation(message) => "OxidRoblox Rrror: "@ + message@,
        }
    }

    /// The message that describes this failure.
    pub fn describe(&self) -> (out: String)
        ensures
            out@ == self.description(),
    {
        match self {
            OxidError::Api(errors) => api_description(debug_text(errors).as_str()),
            OxidError::Http(failure) => {
                String::from_str("OxidRoblox HTTP Error: ").concat(failure.as_str())
            },
            OxidError::Unauthorized => String::from_str(
                "OxidRoblox Error: Invalid or unauthorized cookie when using an authenticated request",
            ),
            OxidError::Validation(message) => {
                String::from_str("OxidRoblox Rrror: ").concat(message.as_str())
            },
        }
    }
}

} // verus!
