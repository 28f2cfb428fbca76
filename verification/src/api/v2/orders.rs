//! Listing orders: a GET request to `/v2/orders`, filtered by its query.

use core::convert::Infallible;
use vstd::prelude::*;
use crate::decimal::decimal;
use crate::decimal::decimal_spec;
use crate::decimal::lemma_parse_of_decimal;
use crate::decimal::parse_decimal;
use crate::decimal::parse_spec;
use crate::endpoint::ConversionError;
use crate::endpoint::EndpointError;
use crate::endpoint::Payload;
use crate::endpoint::Request;
use crate::endpoint::StatusTable;
use crate::endpoint::TOO_MANY_REQUESTS;
use crate::endpoint::UNAUTHORIZED;
use crate::util::all_comma_free;
use crate::util::comma_join;
use crate::util::comma_split;
use crate::util::join_spec;
use crate::util::lemma_split_of_join;
use crate::util::split_spec;
use crate::util::text_eq;

verus! {

/// The status of orders to list.
#[derive(Clone, Copy, Debug, PartialEq, Eq, Structural)]
pub enum Status {
    /// List open orders only.
    Open,
    /// List closed orders only.
    Closed,
    /// List all orders.
    All,
}

/// The name of a status on the wire.
pub open spec fn status_name(status: Status) -> Seq<char> {
    match status {
        Status::Open => "open"@,
        Status::Closed => "closed"@,
        Status::All => "all"@,
    }
}

/// The status that a name on the wire stands for.
pub open spec fn status_of_name(name: Seq<char>) -> Option<Status> {
    if name == "open"@ {
        Some(Status::Open)
    } else if name == "closed"@ {
        Some(Status::Closed)
    } else if name == "all"@ {
        Some(Status::All)
    } else {
        None
    }
}

impl Status {
    /// The status's name on the wire, in lower case.
    pub fn as_str(&self) -> (name: &'static str)
        ensures
            name@ == status_name(*self),
    {
        match self {
            Status::Open => "open",
            Status::Closed => "closed",
            Status::All => "all",
        }
    }

    /// The status that `name` stands for. Names are matched letter for
    /// letter.
    pub fn from_name(name: &str) -> (status: Option<Status>)
        ensures
            status == status_of_name(name@),
    {
        if text_eq(name, "open") {
            Some(Status::Open)
        } else if text_eq(name, "closed") {
            Some(Status::Closed)
        } else if text_eq(name, "all") {
            Some(Status::All)
        } else {
            None
        }
    }
}

/// Every status is the one that its name stands for.
pub proof fn lemma_status_of_name(status: Status)
    ensures
        status_of_name(status_name(status)) == Some(status),
{
    reveal_strlit("open");
    reveal_strlit("closed");
    reveal_strlit("all");
    assert("open"@.len() == 4 && "closed"@.len() == 6 && "all"@.len() == 3);
}

/// What a `ListReq` holds.
pub struct ListReqView {
    pub symbols: Seq<Seq<char>>,
    pub status: Status,
    pub limit: Option<usize>,
    pub nested: bool,
}

/// A request for the list of orders.
#[non_exhaustive]
#[derive(Clone, Debug, Eq)]
pub struct ListReq {
    /// The symbols to list orders of, in the order given. None means that
    /// orders are not filtered by symbol.
    pub symbols: Vec<String>,
    /// The status of orders to list.
    pub status: Status,
    /// The largest number of orders to return. The service returns up to 50
    /// where none is given, and never more than 500.
    pub limit: Option<usize>,
    /// Whether the orders of a multi-leg order are rolled up under the
    /// `legs` of their parent rather than listed on their own.
    pub nested: bool,
}

impl View for ListReq {
    type V = ListReqView;

    open spec fn view(&self) -> ListReqView {
        ListReqView {
            symbols: self.symbols.deep_view(),
            status: self.status,
            limit: self.limit,
            nested: self.nested,
        }
    }
}

/// Whether two sequences hold the same strings in the same order.
fn same_strings(a: &Vec<String>, b: &Vec<String>) -> (same: bool)
    ensures
        same == (a.deep_view() == b.deep_view()),
{
    if a.len() != b.len() {
        assert(a.deep_view().len() != b.deep_view().len());
        return false;
    }
    let mut i: usize = 0;
    while i < a.len()
        invariant
            i <= a.len(),
            a.len() == b.len(),
            forall|j: int| 0 <= j < i ==> a.deep_view()[j] == b.deep_view()[j],
        decreases a.len() - i,
    {
        if !text_eq(a[i].as_str(), b[i].as_str()) {
            assert(a.deep_view()[i as int] != b.deep_view()[i as int]);
            return false;
        }
        i += 1;
    }
    assert(a.deep_view() =~= b.deep_view());
    true
}

impl PartialEq for ListReq {
    /// Two requests are equal when they hold the same symbols in the same
    /// order, the same status, the same limit and the same choice of nesting.
    fn eq(&self, other: &Self) -> (same: bool) {
        same_strings(&self.symbols, &other.symbols) && self.status == other.status && self.limit
            == other.limit && self.nested == other.nested
    }
}

impl vstd::std_specs::cmp::PartialEqSpecImpl for ListReq {
    open spec fn obeys_eq_spec() -> bool {
        true
    }

    open spec fn eq_spec(&self, other: &Self) -> bool {
        self@ == other@
    }
}

impl Default for ListReq {
    /// A request for the open orders of all symbols, nested, with the
    /// service's own limit.
    fn default() -> (request: Self)
        ensures
            request.symbols@.len() == 0,
            request@ == (ListReqView {
                symbols: Seq::empty(),
                status: Status::Open,
                limit: None,
                nested: true,
            }),
    {
        let request = ListReq {
            symbols: Vec::new(),
            status: Status::Open,
            limit: None,
            // Nested orders merely appear as legs of the orders returned,
            // so including them disturbs nobody.
            nested: true,
        };
        assert(request.symbols.deep_view() =~= Seq::<Seq<char>>::empty());
        request
    }
}

/// How a boolean is written in a query.
pub open spec fn bool_name(value: bool) -> Seq<char> {
    if value {
        "true"@
    } else {
        "false"@
    }
}

/// The boolean that a word in a query stands for.
pub open spec fn bool_of_name(name: Seq<char>) -> Option<bool> {
    if name == "true"@ {
        Some(true)
    } else if name == "false"@ {
        Some(false)
    } else {
        None
    }
}

/// The parameters of a query, in order, each a key and a value.
pub type Pairs = Seq<(Seq<char>, Seq<char>)>;

/// The query parameters that stand for a request: `symbols`, joined by
/// commas and empty where there is no filter; `status`, by its name; `limit`
/// in decimal, left out where there is none; `nested`, as `true` or `false`.
pub open spec fn query_pairs_spec(request: ListReqView) -> Pairs {
    let head = seq![
        ("symbols"@, join_spec(request.symbols)),
        ("status"@, status_name(request.status)),
    ];
    let limit = match request.limit {
        Some(n) => head.push(("limit"@, decimal_spec(n as nat))),
        None => head,
    };
    limit.push(("nested"@, bool_name(request.nested)))
}

/// The values that `pairs` gives for `key`, in order.
pub open spec fn values_of(pairs: Pairs, key: Seq<char>) -> Seq<Seq<char>>
    decreases pairs.len(),
{
    if pairs.len() == 0 {
        Seq::empty()
    } else {
        let before = values_of(pairs.drop_last(), key);
        if pairs.last().0 == key {
            before.push(pairs.last().1)
        } else {
            before
        }
    }
}

/// The limit that the values given for `limit` stand for: none where the
/// parameter is absent, else the number that the value is in decimal. The
/// outer `None` says that the value is no number that a `usize` holds.
pub open spec fn limit_of(values: Seq<Seq<char>>) -> Option<Option<usize>> {
    if values.len() == 0 {
        Some(None)
    } else {
        match parse_spec(values[0]) {
            Some(n) => if n <= usize::MAX {
                Some(Some(n as usize))
            } else {
                None
            },
            None => None,
        }
    }
}

/// The request that query parameters stand for, if they stand for one.
///
/// Keys are matched letter for letter and other keys are passed over. None of
/// the four keys may occur twice. `status` and `nested` must occur, `symbols`
/// stands for no filter where it is absent, `limit` for no limit.
pub open spec fn request_of_pairs(pairs: Pairs) -> Option<ListReqView> {
    let symbols = values_of(pairs, "symbols"@);
    let status = values_of(pairs, "status"@);
    let limit = values_of(pairs, "limit"@);
    let nested = values_of(pairs, "nested"@);
    if symbols.len() > 1 || status.len() != 1 || limit.len() > 1 || nested.len() != 1 {
        None
    } else {
        match (status_of_name(status[0]), limit_of(limit), bool_of_name(nested[0])) {
            (Some(status), Some(limit), Some(nested)) => Some(
                ListReqView {
                    symbols: if symbols.len() == 0 {
                        Seq::empty()
                    } else {
                        split_spec(symbols[0])
                    },
                    status,
                    limit,
                    nested,
                },
            ),
            _ => None,
        }
    }
}

/// No value that a longer sequence of parameters gives for a key is lost.
proof fn lemma_values_grow(pairs: Pairs, key: Seq<char>, k: int)
    requires
        0 <= k <= pairs.len(),
    ensures
        values_of(pairs.take(k), key).len() <= values_of(pairs, key).len(),
    decreases pairs.len() - k,
{
    if k == pairs.len() {
        assert(pairs.take(k) =~= pairs);
    } else {
        lemma_values_grow(pairs, key, k + 1);
        assert(pairs.take(k + 1).drop_last() =~= pairs.take(k));
    }
}

/// A parameter put behind the others is the last value of its key, and
/// changes nothing for the other keys.
proof fn lemma_values_push(pairs: Pairs, entry: (Seq<char>, Seq<char>), key: Seq<char>)
    ensures
        values_of(pairs.push(entry), key) == if entry.0 == key {
            values_of(pairs, key).push(entry.1)
        } else {
            values_of(pairs, key)
        },
        entry.0 == key && values_of(pairs, key).len() == 0 ==> values_of(pairs.push(entry), key)
            == seq![entry.1],
{
    assert(pairs.push(entry).drop_last() =~= pairs);
}

/// The four keys of the query are four different strings.
proof fn lemma_keys_differ()
    ensures
        "symbols"@ != "status"@,
        "symbols"@ != "limit"@,
        "symbols"@ != "nested"@,
        "status"@ != "limit"@,
        "status"@ != "nested"@,
        "limit"@ != "nested"@,
{
    reveal_strlit("symbols");
    reveal_strlit("status");
    reveal_strlit("limit");
    reveal_strlit("nested");
    assert("symbols"@.len() == 7 && "status"@.len() == 6 && "limit"@.len() == 5);
    assert("status"@[0] == 's' && "nested"@[0] == 'n');
}

/// What has been seen of one key while the parameters are read.
spec fn seen(slot: Option<&String>, pairs: Pairs, key: Seq<char>) -> bool {
    match slot {
        Some(value) => values_of(pairs, key) == seq![value@],
        None => values_of(pairs, key).len() == 0,
    }
}

fn read_bool(name: &str) -> (value: Option<bool>)
    ensures
        value == bool_of_name(name@),
{
    if text_eq(name, "true") {
        Some(true)
    } else if text_eq(name, "false") {
        Some(false)
    } else {
        None
    }
}

fn read_limit(text: &str) -> (limit: Option<usize>)
    ensures
        limit_of(seq![text@]) == match limit {
            Some(n) => Some(Some(n)),
            None => None::<Option<usize>>,
        },
{
    match parse_decimal(text) {
        Some(n) => if n <= usize::MAX as u64 {
            Some(n as usize)
        } else {
            None
        },
        None => None,
    }
}

fn pair(key: &str, value: String) -> (entry: (String, String))
    ensures
        entry.deep_view() == (key@, value@),
{
    (key.to_owned(), value)
}

impl ListReq {
    /// The request as query parameters.
    pub fn query_pairs(&self) -> (pairs: Vec<(String, String)>)
        ensures
            pairs.deep_view() == query_pairs_spec(self@),
    {
        let mut pairs: Vec<(String, String)> = Vec::new();
        pairs.push(pair("symbols", comma_join(self.symbols.as_slice())));
        pairs.push(pair("status", self.status.as_str().to_owned()));
        if let Some(limit) = self.limit {
            pairs.push(pair("limit", decimal(limit as u64)));
        }
        pairs.push(pair("nested", (if self.nested { "true" } else { "false" }).to_owned()));
        pairs
    }

    /// The request that query parameters stand for, or `None` where they
    /// stand for none.
    pub fn from_query_pairs(pairs: &Vec<(String, String)>) -> (request: Option<ListReq>)
        ensures
            match request {
                Some(r) => request_of_pairs(pairs.deep_view()) == Some(r@),
                None => request_of_pairs(pairs.deep_view()) is None,
            },
    {
        let ghost all = pairs.deep_view();
        let mut symbols: Option<&String> = None;
        let mut status: Option<&String> = None;
        let mut limit: Option<&String> = None;
        let mut nested: Option<&String> = None;
        let mut i: usize = 0;
        while i < pairs.len()
            invariant
                i <= pairs.len(),
                all == pairs.deep_view(),
                seen(symbols, all.take(i as int), "symbols"@),
                seen(status, all.take(i as int), "status"@),
                seen(limit, all.take(i as int), "limit"@),
                seen(nested, all.take(i as int), "nested"@),
            decreases pairs.len() - i,
        {
            let key = pairs[i].0.as_str();
            let value = &pairs[i].1;
            proof {
                let before = all.take(i as int);
                let entry = (key@, value@);
                assert(all.take(i + 1) =~= before.push(entry));
                lemma_keys_differ();
                lemma_values_push(before, entry, "symbols"@);
                lemma_values_push(before, entry, "status"@);
                lemma_values_push(before, entry, "limit"@);
                lemma_values_push(before, entry, "nested"@);
                lemma_values_grow(all, "symbols"@, i + 1);
                lemma_values_grow(all, "status"@, i + 1);
                lemma_values_grow(all, "limit"@, i + 1);
                lemma_values_grow(all, "nested"@, i + 1);
            }
            if text_eq(key, "symbols") {
                if symbols.is_some() {
                    return None;
                }
                symbols = Some(value);
            } else if text_eq(key, "status") {
                if status.is_some() {
                    return None;
                }
                status = Some(value);
            } else if text_eq(key, "limit") {
                if limit.is_some() {
                    return None;
                }
                limit = Some(value);
            } else if text_eq(key, "nested") {
                if nested.is_some() {
                    return None;
                }
                nested = Some(value);
            }
            i += 1;
        }
        assert(all.take(i as int) =~= all);
        let status = match status {
            Some(name) => match Status::from_name(name.as_str()) {
                Some(status) => status,
                None => return None,
            },
            None => return None,
        };
        let nested = match nested {
            Some(name) => match read_bool(name.as_str()) {
                Some(nested) => nested,
                None => return None,
            },
            None => return None,
        };
        let limit = match limit {
            Some(text) => match read_limit(text.as_str()) {
                Some(n) => Some(n),
                None => return None,
            },
            None => None,
        };
        let symbols = match symbols {
            Some(text) => comma_split(text.as_str()),
            None => Vec::new(),
        };
        let request = ListReq { symbols, status, limit, nested };
        assert(request@.symbols =~= request_of_pairs(all)->0.symbols);
        Some(request)
    }
}

/// The values that the parameters written for a request give for `key`.
proof fn lemma_values_of_query(request: ListReqView, key: Seq<char>)
    ensures
        values_of(query_pairs_spec(request), key) == {
            let symbols = if key == "symbols"@ {
                seq![join_spec(request.symbols)]
            } else {
                Seq::empty()
            };
            let status = if key == "status"@ {
                symbols.push(status_name(request.status))
            } else {
                symbols
            };
            let limit = if key == "limit"@ && request.limit is Some {
                status.push(decimal_spec(request.limit->0 as nat))
            } else {
                status
            };
            if key == "nested"@ {
                limit.push(bool_name(request.nested))
            } else {
                limit
            }
        },
{
    let none: Pairs = Seq::empty();
    let first = ("symbols"@, join_spec(request.symbols));
    let second = ("status"@, status_name(request.status));
    let last = ("nested"@, bool_name(request.nested));
    let head = seq![first, second];
    assert(head =~= none.push(first).push(second));
    lemma_values_push(none, first, key);
    lemma_values_push(none.push(first), second, key);
    match request.limit {
        Some(n) => {
            let third = ("limit"@, decimal_spec(n as nat));
            lemma_values_push(head, third, key);
            lemma_values_push(head.push(third), last, key);
        },
        None => {
            lemma_values_push(head, last, key);
        },
    }
}

/// Reading undoes writing: the query parameters written for a request are
/// read back as that request, if no symbol of the request holds a comma. The
/// one request left out beside is the one whose only symbol is the empty
/// string: its `symbols` parameter is empty, which stands for no filter.
pub proof fn lemma_request_of_query_pairs(request: ListReqView)
    requires
        all_comma_free(request.symbols),
        !(request.symbols.len() == 1 && request.symbols[0].len() == 0),
    ensures
        request_of_pairs(query_pairs_spec(request)) == Some(request),
{
    let pairs = query_pairs_spec(request);
    lemma_keys_differ();
    lemma_values_of_query(request, "symbols"@);
    lemma_values_of_query(request, "status"@);
    lemma_values_of_query(request, "limit"@);
    lemma_values_of_query(request, "nested"@);
    lemma_status_of_name(request.status);
    lemma_split_of_join(request.symbols);
    assert(bool_of_name(bool_name(request.nested)) == Some(request.nested)) by {
        reveal_strlit("true");
        reveal_strlit("false");
        assert("true"@.len() == 4 && "false"@.len() == 5);
    }
    assert(limit_of(values_of(pairs, "limit"@)) == Some(request.limit)) by {
        match request.limit {
            Some(n) => {
                lemma_parse_of_decimal(n as nat);
            },
            None => {},
        }
    }
}

/// `serde_urlencoded::de::Error`: why a query could not be read.
#[verifier::external_type_specification]
#[verifier::external_body]
pub struct ExUrlDecodeError(serde_urlencoded::de::Error);

/// What `serde_urlencoded::to_string` makes of a sequence of pairs of
/// strings: the query that holds them.
pub uninterp spec fn form_urlencoded(pairs: Seq<(Seq<char>, Seq<char>)>) -> Result<
    Seq<char>,
    serde_urlencoded::ser::Error,
>;

/// What `serde_urlencoded::from_str` makes of a query when asked for a
/// sequence of pairs of strings: the pairs that the query holds.
pub uninterp spec fn form_urldecoded(query: Seq<char>) -> Result<
    Seq<(Seq<char>, Seq<char>)>,
    serde_urlencoded::de::Error,
>;

/// `serde_urlencoded::to_string` writes pairs of strings as an
/// `application/x-www-form-urlencoded` query. What it returns depends on the
/// pairs alone.
#[verifier::external_body]
fn urlencode(pairs: &Vec<(String, String)>) -> (r: Result<String, serde_urlencoded::ser::Error>)
    ensures
        match r {
            Ok(query) => form_urlencoded(pairs.deep_view()) == Ok::<
                Seq<char>,
                serde_urlencoded::ser::Error,
            >(query@),
            Err(e) => form_urlencoded(pairs.deep_view()) == Err::<
                Seq<char>,
                serde_urlencoded::ser::Error,
            >(e),
        },
{
    serde_urlencoded::to_string(pairs)
}

/// `serde_urlencoded::from_str` reads the pairs of strings that an
/// `application/x-www-form-urlencoded` query holds. What it returns depends
/// on the query alone.
#[verifier::external_body]
fn urldecode(query: &str) -> (r: Result<Vec<(String, String)>, serde_urlencoded::de::Error>)
    ensures
        match r {
            Ok(pairs) => form_urldecoded(query@) == Ok::<
                Seq<(Seq<char>, Seq<char>)>,
                serde_urlencoded::de::Error,
            >(pairs.deep_view()),
            Err(e) => form_urldecoded(query@) == Err::<
                Seq<(Seq<char>, Seq<char>)>,
                serde_urlencoded::de::Error,
            >(e),
        },
{
    serde_urlencoded::from_str::<Vec<(String, String)>>(query)
}

impl ListReq {
    /// The request that a query stands for, or `None` where it stands for
    /// none.
    pub fn from_query(query: &str) -> (request: Option<ListReq>)
        ensures
            match form_urldecoded(query@) {
                Ok(pairs) => match request {
                    Some(r) => request_of_pairs(pairs) == Some(r@),
                    None => request_of_pairs(pairs) is None,
                },
                Err(_) => request is None,
            },
    {
        match urldecode(query) {
            Ok(pairs) => ListReq::from_query_pairs(&pairs),
            Err(_) => None,
        }
    }
}

/// Why a call to list orders gave no output. The endpoint declares no error
/// of its own.
pub type ListError = EndpointError<Infallible>;

/// The status code of a response that holds the list of orders.
pub const OK: u16 = 200;

/// The endpoint that lists orders: a GET request to `/v2/orders`.
#[derive(Clone, Copy, Debug)]
pub struct List;

impl List {
    /// The path of the endpoint, whatever the request.
    pub fn path(_input: &ListReq) -> (path: String)
        ensures
            path@ == "/v2/orders"@,
    {
        "/v2/orders".to_owned()
    }

    /// The query that stands for `input`.
    pub fn query(input: &ListReq) -> (r: Result<Option<String>, ConversionError>)
        ensures
            match form_urlencoded(query_pairs_spec(input@)) {
                Ok(text) => r matches Ok(Some(query)) && query@ == text,
                Err(e) => r == Err::<Option<String>, ConversionError>(ConversionError::UrlEncode(e)),
            },
    {
        let pairs = input.query_pairs();
        match urlencode(&pairs) {
            Ok(query) => Ok(Some(query)),
            Err(e) => Err(ConversionError::from(e)),
        }
    }

    /// The body of the request: there is none.
    pub fn body(_input: &ListReq) -> (r: Result<Option<Vec<u8>>, ConversionError>)
        ensures
            r == Ok::<Option<Vec<u8>>, ConversionError>(None),
    {
        Ok(None)
    }

    /// The endpoint's status tables: 200 means success, and no error is
    /// declared beside the two that every endpoint has.
    pub fn table() -> (table: StatusTable<Infallible>)
        ensures
            table@.success == seq![OK],
            table@.errors == Seq::<(u16, Infallible)>::empty(),
    {
        let mut success: Vec<u16> = Vec::new();
        success.push(OK);
        let errors: Vec<(u16, Infallible)> = Vec::new();
        StatusTable::new(success, errors)
    }

    /// What the transport needs to make the call for `input`.
    pub fn request(input: &ListReq) -> (r: Result<Request, ConversionError>)
        ensures
            match form_urlencoded(query_pairs_spec(input@)) {
                Ok(text) => {
                    &&& r matches Ok(request)
                    &&& request.path@ == "/v2/orders"@
                    &&& request.query matches Some(query)
                    &&& query@ == text
                    &&& request.body is None
                },
                Err(e) => r == Err::<Request, ConversionError>(ConversionError::UrlEncode(e)),
            },
    {
        Request::assemble(List::path(input), List::query(input), List::body(input))
    }

    /// Turns a response into the call's result. The status code 200 has
    /// `parse` read the body: its output is the result, its failure a
    /// `Conversion` error. The codes 401 and 429 have `parse_err` read the
    /// body and give `AuthenticationFailed` and `RateLimitExceeded` with what
    /// it gave. Any other code gives `UnexpectedStatus` with the code and
    /// the body.
    pub fn evaluate<O, P, Q>(status: u16, body: &[u8], parse: P, parse_err: Q) -> (r: Result<
        O,
        ListError,
    >) where P: FnOnce(&[u8]) -> Result<O, ConversionError>, Q: FnOnce(&[u8]) -> Payload
        requires
            call_requires(parse, (body,)),
            call_requires(parse_err, (body,)),
        ensures
            status == OK ==> match r {
                Ok(output) => call_ensures(parse, (body,), Ok(output)),
                Err(EndpointError::Conversion(e)) => call_ensures(parse, (body,), Err(e)),
                Err(_) => false,
            },
            status == UNAUTHORIZED ==> {
                &&& r matches Err(EndpointError::AuthenticationFailed(payload))
                &&& call_ensures(parse_err, (body,), payload)
            },
            status == TOO_MANY_REQUESTS ==> {
                &&& r matches Err(EndpointError::RateLimitExceeded(payload))
                &&& call_ensures(parse_err, (body,), payload)
            },
            status != OK && status != UNAUTHORIZED && status != TOO_MANY_REQUESTS ==> {
                &&& r matches Err(EndpointError::UnexpectedStatus(code, raw))
                &&& code == status
                &&& raw@ == body@
            },
    {
        let table = List::table();
        assert(table@.is_success(status) <==> status == OK) by {
            assert(table@.success[0] == OK);
        }
        table.evaluate(status, body, parse, parse_err)
    }
}

} // verus!
