//! The contract between an endpoint's definition and the transport that
//! performs the call: how errors are told apart, and how a response's status
//! code and body become a typed result.

use vstd::prelude::*;
use vstd::slice::slice_to_vec;
use crate::decimal::decimal;
use crate::decimal::decimal_spec;

verus! {

/// `serde_json::Error`: why a body was not the JSON that was expected.
#[verifier::external_type_specification]
#[verifier::external_body]
pub struct ExJsonError(serde_json::Error);

/// `serde_urlencoded::ser::Error`: why data could not be URL-encoded.
#[verifier::external_type_specification]
#[verifier::external_body]
pub struct ExUrlEncodeError(serde_urlencoded::ser::Error);

/// A failure to encode a request or to decode a response. It arises locally
/// and says nothing of the network.
#[derive(Debug)]
pub enum ConversionError {
    /// A conversion from or to JSON failed.
    Json(serde_json::Error),
    /// Data could not be URL-encoded.
    UrlEncode(serde_urlencoded::ser::Error),
}

impl From<serde_json::Error> for ConversionError {
    fn from(e: serde_json::Error) -> (r: Self) {
        ConversionError::Json(e)
    }
}

impl vstd::std_specs::convert::FromSpecImpl<serde_json::Error> for ConversionError {
    open spec fn obeys_from_spec() -> bool {
        true
    }

    open spec fn from_spec(e: serde_json::Error) -> Self {
        ConversionError::Json(e)
    }
}

impl From<serde_urlencoded::ser::Error> for ConversionError {
    fn from(e: serde_urlencoded::ser::Error) -> (r: Self) {
        ConversionError::UrlEncode(e)
    }
}

impl vstd::std_specs::convert::FromSpecImpl<serde_urlencoded::ser::Error> for ConversionError {
    open spec fn obeys_from_spec() -> bool {
        true
    }

    open spec fn from_spec(e: serde_urlencoded::ser::Error) -> Self {
        ConversionError::UrlEncode(e)
    }
}

impl ConversionError {
    /// A short description of the failure.
    pub fn to_string(&self) -> (text: String)
        ensures
            text@ == match self {
                ConversionError::Json(_) => "failed to convert from/to JSON"@,
                ConversionError::UrlEncode(_) => "failed to URL-encode data"@,
            },
    {
        match self {
            ConversionError::Json(_) => "failed to convert from/to JSON".to_owned(),
            ConversionError::UrlEncode(_) => "failed to URL-encode data".to_owned(),
        }
    }
}

/// What `format_code` writes for `code`.
pub open spec fn format_code_spec(code: Option<u64>) -> Seq<char> {
    match code {
        Some(c) => seq![' ', '('] + decimal_spec(c as nat) + seq![')'],
        None => Seq::empty(),
    }
}

/// The code of an error as it is shown behind the message: in parentheses
/// after a space, or nothing where there is no code.
pub fn format_code(code: &Option<u64>) -> (text: String)
    ensures
        text@ == format_code_spec(*code),
{
    if let Some(code) = code {
        let mut text = String::new();
        text.push(' ');
        text.push('(');
        let digits = decimal(*code);
        text.append(digits.as_str());
        text.push(')');
        text
    } else {
        String::new()
    }
}

/// What an `ApiError` holds.
pub struct ApiErrorView {
    pub code: Option<u64>,
    pub message: Seq<char>,
}

/// An error as the service reports it in a response body.
#[derive(Clone, Debug, Eq)]
pub struct ApiError {
    /// The service's code for the error, where it sent one.
    pub code: Option<u64>,
    /// The service's message.
    pub message: String,
}

impl View for ApiError {
    type V = ApiErrorView;

    open spec fn view(&self) -> ApiErrorView {
        ApiErrorView { code: self.code, message: self.message@ }
    }
}

impl PartialEq for ApiError {
    /// Two errors are equal when they hold the same code and the same
    /// message.
    fn eq(&self, other: &Self) -> (same: bool) {
        self.code == other.code && self.message == other.message
    }
}

impl vstd::std_specs::cmp::PartialEqSpecImpl for ApiError {
    open spec fn obeys_eq_spec() -> bool {
        true
    }

    open spec fn eq_spec(&self, other: &Self) -> bool {
        self@ == other@
    }
}

impl ApiError {
    /// The message, followed by the code in parentheses where there is one.
    pub fn to_string(&self) -> (text: String)
        ensures
            text@ == self@.message + format_code_spec(self@.code),
    {
        let mut text = self.message.clone();
        let code = format_code(&self.code);
        text.append(code.as_str());
        text
    }
}

/// What came with a failed call: the service's error where the body held
/// one, else the body as it was received.
pub type Payload = Result<ApiError, Vec<u8>>;

/// The default way to read a successful response, given what decoding the
/// body as JSON gave: the output, or the failure as a `ConversionError`.
pub fn parse<O>(decoded: Result<O, serde_json::Error>) -> (r: Result<O, ConversionError>)
    ensures
        r == match decoded {
            Ok(output) => Ok::<O, ConversionError>(output),
            Err(e) => Err(ConversionError::Json(e)),
        },
{
    match decoded {
        Ok(output) => Ok(output),
        Err(e) => Err(ConversionError::from(e)),
    }
}

/// The default way to read a failed response, given what decoding the body
/// as the service's error gave: that error, or, where the body held none, the
/// body itself, byte for byte.
pub fn parse_err(decoded: Result<ApiError, serde_json::Error>, body: &[u8]) -> (r: Payload)
    ensures
        match decoded {
            Ok(error) => r == Ok::<ApiError, Vec<u8>>(error),
            Err(_) => r matches Err(raw) && raw@ == body@,
        },
{
    match decoded {
        Ok(error) => Ok(error),
        Err(_) => Err(slice_to_vec(body)),
    }
}

/// The status code that says that authentication failed.
pub const UNAUTHORIZED: u16 = 401;

/// The status code that says that the rate limit was exceeded.
pub const TOO_MANY_REQUESTS: u16 = 429;

/// The named error that a status code stands for. Two names belong to every
/// endpoint; an endpoint adds its own as values of `V`.
#[derive(Clone, Copy, Debug, PartialEq, Eq)]
pub enum ErrorKind<V> {
    /// Authentication failed for the request.
    AuthenticationFailed,
    /// The rate limit was exceeded and the request was denied.
    RateLimitExceeded,
    /// An error that the endpoint has declared.
    Endpoint(V),
}

/// What a status code means to an endpoint.
#[derive(Clone, Copy, Debug, PartialEq, Eq)]
pub enum Disposition<V> {
    /// The call succeeded; the body holds the output.
    Success,
    /// The call failed with an error that has a name.
    Failure(ErrorKind<V>),
    /// The endpoint's definition does not know the status code.
    Unexpected,
}

/// The value that the first entry for `status` in `entries` maps it to.
pub open spec fn declared<V>(entries: Seq<(u16, V)>, status: u16) -> Option<V>
    decreases entries.len(),
{
    if entries.len() == 0 {
        None
    } else if entries[0].0 == status {
        Some(entries[0].1)
    } else {
        declared(entries.skip(1), status)
    }
}

/// The error table of an endpoint, merged: the two entries that every
/// endpoint has come first, so an entry that the endpoint declares for one of
/// their codes is never reached.
pub open spec fn error_kind<V>(entries: Seq<(u16, V)>, status: u16) -> Option<ErrorKind<V>> {
    if status == UNAUTHORIZED {
        Some(ErrorKind::AuthenticationFailed)
    } else if status == TOO_MANY_REQUESTS {
        Some(ErrorKind::RateLimitExceeded)
    } else {
        match declared(entries, status) {
            Some(v) => Some(ErrorKind::Endpoint(v)),
            None => None,
        }
    }
}

/// The two tables of an endpoint as plain sequences.
pub struct StatusTableView<V> {
    /// The status codes that mean success.
    pub success: Seq<u16>,
    /// The status codes that the endpoint maps to errors of its own.
    pub errors: Seq<(u16, V)>,
}

impl<V> StatusTableView<V> {
    /// Whether `status` means success.
    pub open spec fn is_success(self, status: u16) -> bool {
        self.success.contains(status)
    }

    /// The named error that `status` stands for, if any.
    pub open spec fn error_kind(self, status: u16) -> Option<ErrorKind<V>> {
        error_kind(self.errors, status)
    }

    /// No status code means both success and an error.
    pub open spec fn disjoint(self) -> bool {
        forall|status: u16| !(self.is_success(status) && self.error_kind(status) is Some)
    }

    /// What `status` means: the success table is asked first, then the merged
    /// error table.
    pub open spec fn classify(self, status: u16) -> Disposition<V> {
        if self.is_success(status) {
            Disposition::Success
        } else {
            match self.error_kind(status) {
                Some(kind) => Disposition::Failure(kind),
                None => Disposition::Unexpected,
            }
        }
    }
}

/// The two entries that every endpoint has cannot be replaced: whatever an
/// endpoint declares, also for these two codes, 401 means that
/// authentication failed and 429 that the rate limit was exceeded.
pub proof fn lemma_universal_errors_win<V>(table: StatusTableView<V>)
    requires
        table.disjoint(),
    ensures
        table.classify(UNAUTHORIZED) == Disposition::Failure(ErrorKind::<V>::AuthenticationFailed),
        table.classify(TOO_MANY_REQUESTS) == Disposition::Failure(
            ErrorKind::<V>::RateLimitExceeded,
        ),
{
}

/// Why two tables do not define an endpoint.
#[derive(Clone, Copy, Debug, PartialEq, Eq)]
pub enum TableError {
    /// The status code stands in the success table and in the merged error
    /// table.
    Overlap(u16),
}

/// The status tables of one endpoint: which codes mean success and which
/// mean which error. No code means both.
pub struct StatusTable<V> {
    success: Vec<u16>,
    errors: Vec<(u16, V)>,
}

impl<V> View for StatusTable<V> {
    type V = StatusTableView<V>;

    closed spec fn view(&self) -> StatusTableView<V> {
        StatusTableView { success: self.success@, errors: self.errors@ }
    }
}

fn find_declared<V: Copy>(entries: &Vec<(u16, V)>, status: u16) -> (found: Option<V>)
    ensures
        found == declared(entries@, status),
{
    let mut i: usize = 0;
    assert(entries@.skip(0) =~= entries@);
    while i < entries.len()
        invariant
            i <= entries.len(),
            declared(entries@, status) == declared(entries@.skip(i as int), status),
        decreases entries.len() - i,
    {
        let entry = entries[i];
        assert(entries@.skip(i as int).skip(1) =~= entries@.skip(i + 1));
        if entry.0 == status {
            return Some(entry.1);
        }
        i += 1;
    }
    None
}

fn find_error_kind<V: Copy>(entries: &Vec<(u16, V)>, status: u16) -> (found: Option<ErrorKind<V>>)
    ensures
        found == error_kind(entries@, status),
{
    if status == UNAUTHORIZED {
        Some(ErrorKind::AuthenticationFailed)
    } else if status == TOO_MANY_REQUESTS {
        Some(ErrorKind::RateLimitExceeded)
    } else {
        match find_declared(entries, status) {
            Some(v) => Some(ErrorKind::Endpoint(v)),
            None => None,
        }
    }
}

fn contains_status(codes: &Vec<u16>, status: u16) -> (found: bool)
    ensures
        found == codes@.contains(status),
{
    let mut i: usize = 0;
    while i < codes.len()
        invariant
            i <= codes.len(),
            forall|j: int| 0 <= j < i ==> codes@[j] != status,
        decreases codes.len() - i,
    {
        if codes[i] == status {
            return true;
        }
        i += 1;
    }
    false
}

impl<V> StatusTable<V> {
    #[verifier::type_invariant]
    spec fn well_formed(self) -> bool {
        self@.disjoint()
    }
}

impl<V: Copy> StatusTable<V> {
    /// Defines an endpoint's tables from the codes that mean success and the
    /// codes that the endpoint maps to errors of its own, the first entry for
    /// a code counting. The codes 401 and 429 need no entry, and an entry for
    /// one of them has no effect. No code may mean both success and an error:
    /// that is a mistake in the endpoint's definition, and is to be shown
    /// absent where the definition is written.
    pub fn new(success: Vec<u16>, errors: Vec<(u16, V)>) -> (table: Self)
        requires
            (StatusTableView { success: success@, errors: errors@ }).disjoint(),
        ensures
            table@.success == success@,
            table@.errors == errors@,
    {
        StatusTable { success, errors }
    }

    /// Defines an endpoint's tables as `new` does, from tables that are only
    /// known when the program runs. Tables in which a code means both success
    /// and an error are refused, with the first such code of the success
    /// table.
    pub fn try_new(success: Vec<u16>, errors: Vec<(u16, V)>) -> (r: Result<Self, TableError>)
        ensures
            match r {
                Ok(table) => {
                    &&& table@.success == success@
                    &&& table@.errors == errors@
                    &&& table@.disjoint()
                },
                Err(TableError::Overlap(code)) => exists|i: int|
                    {
                        &&& 0 <= i < success@.len()
                        &&& #[trigger] success@[i] == code
                        &&& error_kind(errors@, code) is Some
                        &&& forall|j: int|
                            0 <= j < i ==> error_kind(errors@, #[trigger] success@[j]) is None
                    },
            },
    {
        let mut i: usize = 0;
        while i < success.len()
            invariant
                i <= success.len(),
                forall|j: int| 0 <= j < i ==> error_kind(errors@, #[trigger] success@[j]) is None,
            decreases success.len() - i,
        {
            let code = success[i];
            if find_error_kind(&errors, code).is_some() {
                return Err(TableError::Overlap(code));
            }
            i += 1;
        }
        Ok(StatusTable { success, errors })
    }

    /// What `status` means to the endpoint. The success table is asked
    /// first; the two entries that every endpoint has come before those that
    /// the endpoint declares.
    pub fn classify(&self, status: u16) -> (meaning: Disposition<V>)
        ensures
            self@.disjoint(),
            meaning == self@.classify(status),
            status == UNAUTHORIZED ==> meaning == Disposition::Failure(
                ErrorKind::<V>::AuthenticationFailed,
            ),
            status == TOO_MANY_REQUESTS ==> meaning == Disposition::Failure(
                ErrorKind::<V>::RateLimitExceeded,
            ),
    {
        proof {
            use_type_invariant(self);
            lemma_universal_errors_win(self@);
        }
        if contains_status(&self.success, status) {
            Disposition::Success
        } else {
            match find_error_kind(&self.errors, status) {
                Some(kind) => Disposition::Failure(kind),
                None => Disposition::Unexpected,
            }
        }
    }
}

/// What the transport needs to make a call: the path, and the query and the
/// body where the endpoint has them.
#[derive(Clone, Debug, PartialEq, Eq)]
pub struct Request {
    /// The path of the URL.
    pub path: String,
    /// The query of the URL, whole, where there is one.
    pub query: Option<String>,
    /// The body, where there is one.
    pub body: Option<Vec<u8>>,
}

impl Request {
    /// Puts a request together from what an endpoint's builders gave. A
    /// failure of the query's builder, and after it one of the body's, is
    /// the result: no request is made of an input that could not be encoded.
    pub fn assemble(
        path: String,
        query: Result<Option<String>, ConversionError>,
        body: Result<Option<Vec<u8>>, ConversionError>,
    ) -> (r: Result<Request, ConversionError>)
        ensures
            r == match (query, body) {
                (Err(e), _) => Err::<Request, ConversionError>(e),
                (Ok(_), Err(e)) => Err(e),
                (Ok(query), Ok(body)) => Ok(Request { path, query, body }),
            },
    {
        let query = match query {
            Ok(query) => query,
            Err(e) => return Err(e),
        };
        let body = match body {
            Ok(body) => body,
            Err(e) => return Err(e),
        };
        Ok(Request { path, query, body })
    }
}

/// Why a call to an endpoint gave no output. `V` names the errors that the
/// endpoint has declared.
#[derive(Debug)]
pub enum EndpointError<V> {
    /// Authentication failed for the request.
    AuthenticationFailed(Payload),
    /// The rate limit was exceeded and the request was denied.
    RateLimitExceeded(Payload),
    /// The service answered with an error that the endpoint has declared.
    Endpoint(V, Payload),
    /// The service answered with a status code that the endpoint's
    /// definition does not know; the code and the body are kept as they came.
    UnexpectedStatus(u16, Vec<u8>),
    /// The request could not be encoded, or the response not decoded.
    Conversion(ConversionError),
}

impl<V> EndpointError<V> {
    /// The named error that this is, where it is one.
    pub open spec fn kind(self) -> Option<ErrorKind<V>> {
        match self {
            EndpointError::AuthenticationFailed(_) => Some(ErrorKind::AuthenticationFailed),
            EndpointError::RateLimitExceeded(_) => Some(ErrorKind::RateLimitExceeded),
            EndpointError::Endpoint(v, _) => Some(ErrorKind::Endpoint(v)),
            _ => None,
        }
    }

    /// What came with the named error, where this is one.
    pub open spec fn payload(self) -> Option<Payload> {
        match self {
            EndpointError::AuthenticationFailed(p) => Some(p),
            EndpointError::RateLimitExceeded(p) => Some(p),
            EndpointError::Endpoint(_, p) => Some(p),
            _ => None,
        }
    }
}

impl<V: Copy> StatusTable<V> {
    /// Turns a response into the call's result.
    ///
    /// A status code of the success table has `parse` read the body: its
    /// output is the result, its failure a `Conversion` error. A status code
    /// of the merged error table has `parse_err` read the body: the result is
    /// the error that the code stands for, carrying what `parse_err` gave.
    /// Any other status code gives `UnexpectedStatus` with the code and the
    /// body. Of `parse` and `parse_err` at most one is called.
    pub fn evaluate<O, P, Q>(&self, status: u16, body: &[u8], parse: P, parse_err: Q) -> (r: Result<
        O,
        EndpointError<V>,
    >) where P: FnOnce(&[u8]) -> Result<O, ConversionError>, Q: FnOnce(&[u8]) -> Payload
        requires
            call_requires(parse, (body,)),
            call_requires(parse_err, (body,)),
        ensures
            status == UNAUTHORIZED ==> r matches Err(EndpointError::AuthenticationFailed(_)),
            status == TOO_MANY_REQUESTS ==> r matches Err(EndpointError::RateLimitExceeded(_)),
            match self@.classify(status) {
                Disposition::Success => match r {
                    Ok(output) => call_ensures(parse, (body,), Ok(output)),
                    Err(EndpointError::Conversion(e)) => call_ensures(parse, (body,), Err(e)),
                    Err(_) => false,
                },
                Disposition::Failure(kind) => {
                    &&& r matches Err(error)
                    &&& error.kind() == Some(kind)
                    &&& error.payload() matches Some(payload)
                    &&& call_ensures(parse_err, (body,), payload)
                },
                Disposition::Unexpected => {
                    &&& r matches Err(EndpointError::UnexpectedStatus(code, raw))
                    &&& code == status
                    &&& raw@ == body@
                },
            },
    {
        match self.classify(status) {
            Disposition::Success => match parse(body) {
                Ok(output) => Ok(output),
                Err(e) => Err(EndpointError::Conversion(e)),
            },
            Disposition::Failure(kind) => {
                let payload = parse_err(body);
                Err(
                    match kind {
                        ErrorKind::AuthenticationFailed => EndpointError::AuthenticationFailed(
                            payload,
                        ),
                        ErrorKind::RateLimitExceeded => EndpointError::RateLimitExceeded(payload),
                        ErrorKind::Endpoint(v) => EndpointError::Endpoint(v, payload),
                    },
                )
            },
            Disposition::Unexpected => Err(
                EndpointError::UnexpectedStatus(status, slice_to_vec(body)),
            ),
        }
    }
}

} // verus!
