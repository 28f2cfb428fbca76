//! What a client needs to know to reach the service: where it is, and the key
//! pair to present.

use url::ParseError;
use url::Url;
use vstd::prelude::*;
use vstd::utf8::decode_utf8;
use vstd::utf8::valid_utf8;
use crate::std_specs::string_from_utf8;

verus! {

/// The environment variable that names the service's base URL.
pub const ENV_API_URL: &'static str = "APCA_API_BASE_URL";

/// The environment variable that holds the key ID.
pub const ENV_KEY_ID: &'static str = "APCA_API_KEY_ID";

/// The environment variable that holds the secret key.
pub const ENV_SECRET: &'static str = "APCA_API_SECRET_KEY";

/// The base URL that is used where none is configured.
pub const API_BASE_URL: &'static str = "https://api.alpaca.markets";

/// `url::Url`: a parsed URL.
#[verifier::external_type_specification]
#[verifier::external_body]
pub struct ExUrl(Url);

/// `url::ParseError`: why a string is not an absolute URL.
#[verifier::external_type_specification]
#[verifier::external_body]
pub struct ExParseError(ParseError);

/// `Url::clone` gives a URL equal to the one it is called on.
pub assume_specification[ <url::Url as Clone>::clone ](source: &url::Url) -> (copy: url::Url)
    ensures
        copy == *source,
;

/// What `Url::parse` makes of `text`.
pub uninterp spec fn parsed_url(text: Seq<char>) -> Result<Url, ParseError>;

/// `Url::parse` reads an absolute URL from a string, or says why the string
/// is none. What it returns depends on the string alone.
#[verifier::external_body]
fn parse_url(text: &str) -> (r: Result<Url, ParseError>)
    ensures
        r == parsed_url(text@),
{
    Url::parse(text)
}

/// Why no `ApiInfo` could be made.
#[derive(Debug)]
pub enum ApiInfoError {
    /// A setting is missing or is no text; the string says which.
    Str(String),
    /// The base URL is no absolute URL.
    Url(ParseError),
}

/// The service's base URL and the key pair that authenticates a client.
#[derive(Clone, Debug, PartialEq)]
pub struct ApiInfo {
    /// The base URL of the service.
    pub base_url: Url,
    /// The key ID.
    pub key_id: Vec<u8>,
    /// The secret that belongs to the key ID.
    pub secret: Vec<u8>,
}

/// The text of the base URL: what `setting` holds where it is set and is
/// text, the default where it is not set. `None` where it is set to bytes
/// that are no text.
pub open spec fn base_url_text(setting: Option<Seq<u8>>) -> Option<Seq<char>> {
    match setting {
        Some(bytes) => if valid_utf8(bytes) {
            Some(decode_utf8(bytes))
        } else {
            None
        },
        None => Some(API_BASE_URL@),
    }
}

/// The message that says that the setting `name` is no text.
pub open spec fn not_a_string(name: Seq<char>) -> Seq<char> {
    name + " environment variable is not a valid string"@
}

/// The message that says that the setting `name` is missing.
pub open spec fn not_found(name: Seq<char>) -> Seq<char> {
    name + " environment variable not found"@
}

impl ApiInfo {
    /// Makes an `ApiInfo` from the three settings as they were found, each
    /// the bytes of its value or `None` where it is not set.
    ///
    /// The base URL is the default where it is not set, and must be text and
    /// an absolute URL. The key ID and the secret must be set, and are taken
    /// as they are. What is wrong first, in this order, is the error.
    pub fn from_parts(
        base_url: Option<Vec<u8>>,
        key_id: Option<Vec<u8>>,
        secret: Option<Vec<u8>>,
    ) -> (r: Result<ApiInfo, ApiInfoError>)
        ensures
            match base_url_text(
                match base_url {
                    Some(bytes) => Some(bytes@),
                    None => None,
                },
            ) {
                None => r matches Err(ApiInfoError::Str(message)) && message@ == not_a_string(
                    ENV_API_URL@,
                ),
                Some(text) => match (parsed_url(text), key_id, secret) {
                    (Err(e), _, _) => r == Err::<ApiInfo, ApiInfoError>(ApiInfoError::Url(e)),
                    (Ok(_), None, _) => r matches Err(ApiInfoError::Str(message)) && message@
                        == not_found(ENV_KEY_ID@),
                    (Ok(_), Some(_), None) => r matches Err(ApiInfoError::Str(message))
                        && message@ == not_found(ENV_SECRET@),
                    (Ok(url), Some(key_id), Some(secret)) => r == Ok::<ApiInfo, ApiInfoError>(
                        ApiInfo { base_url: url, key_id, secret },
                    ),
                },
            },
    {
        let text = match base_url {
            Some(bytes) => match string_from_utf8(bytes) {
                Some(text) => text,
                None => {
                    let message = ENV_API_URL.to_owned().concat(
                        " environment variable is not a valid string",
                    );
                    return Err(ApiInfoError::Str(message));
                },
            },
            None => API_BASE_URL.to_owned(),
        };
        let base_url = match parse_url(text.as_str()) {
            Ok(url) => url,
            Err(e) => return Err(ApiInfoError::Url(e)),
        };
        let key_id = match key_id {
            Some(key_id) => key_id,
            None => {
                let message = ENV_KEY_ID.to_owned().concat(" environment variable not found");
                return Err(ApiInfoError::Str(message));
            },
        };
        let secret = match secret {
            Some(secret) => secret,
            None => {
                let message = ENV_SECRET.to_owned().concat(" environment variable not found");
                return Err(ApiInfoError::Str(message));
            },
        };
        Ok(ApiInfo { base_url, key_id, secret })
    }
}

} // verus!
