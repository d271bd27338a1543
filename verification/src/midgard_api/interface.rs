//! One call of the upstream API: its URL, and the outcome of its reply.

use crate::text::{decimal, decimal_string};
use vstd::prelude::*;
use vstd::string::*;
use vstd::utf8::encode_utf8;

verus! {

/// Where the history resources of the upstream API stand.
pub const BASE_URL: &'static str = "https://midgard.ninerealms.com/v2/history";

/// The field of a reply under which its records stand.
pub const PAYLOAD_FIELD: &'static str = "intervals";

/// The most bytes that a URL may hold: the `url` crate addresses the parts of
/// a URL by 32-bit offsets.
pub const MAX_URL_BYTES: u64 = 0xffff_ffff;

/// Why a fetch gave no records.
#[derive(Clone, Copy, Debug, PartialEq, Eq, Structural)]
pub enum InterfaceError {
    /// The URL of the call could not be built.
    UrlConstruction,
    /// The call was not answered, or not with JSON.
    NetworkRequest,
    /// The records of the reply do not have the shape asked for.
    Deserialization,
    /// The reply lacks the field that holds its records.
    InvalidResponse,
}

impl InterfaceError {
    /// What the error says.
    pub open spec fn message_text(self) -> Seq<char> {
        match self {
            InterfaceError::UrlConstruction => "Failed to build URL"@,
            InterfaceError::NetworkRequest => "Network request failed"@,
            InterfaceError::Deserialization => "Failed to deserialize data"@,
            InterfaceError::InvalidResponse => "Missing or invalid data in response"@,
        }
    }

    /// What the error says.
    pub fn message(&self) -> (text: &'static str)
        ensures
            text@ == self.message_text(),
    {
        match self {
            InterfaceError::UrlConstruction => "Failed to build URL",
            InterfaceError::NetworkRequest => "Network request failed",
            InterfaceError::Deserialization => "Failed to deserialize data",
            InterfaceError::InvalidResponse => "Missing or invalid data in response",
        }
    }
}

/// The window of a fetch: the granularity of its records, the instant from
/// which they are wanted, and the most records that may come back.
#[derive(Clone, Debug, PartialEq, Eq)]
pub struct Params {
    pub interval: String,
    pub from: i64,
    pub count: u16,
}

/// What the window of a fetch is.
pub struct ParamsView {
    pub interval: Seq<char>,
    pub from: i64,
    pub count: u16,
}

impl View for Params {
    type V = ParamsView;

    open spec fn view(&self) -> ParamsView {
        ParamsView { interval: self.interval@, from: self.from, count: self.count }
    }
}

/// One call of the upstream API: a resource and the window asked of it.
#[derive(Clone, Debug, PartialEq, Eq)]
pub struct Interface {
    pub resource: String,
    pub params: Params,
}

/// What a call is.
pub struct InterfaceView {
    pub resource: Seq<char>,
    pub params: ParamsView,
}

impl View for Interface {
    type V = InterfaceView;

    open spec fn view(&self) -> InterfaceView {
        InterfaceView { resource: self.resource@, params: self.params@ }
    }
}

/// The text of the URL that the `url` crate makes of `input`, or `None` where
/// it rejects `input`.
pub uninterp spec fn parsed_url(input: Seq<char>) -> Option<Seq<char>>;

/// The text of the URL that the `url` crate makes of `input` and the query
/// pairs `pairs`, or `None` where it rejects `input`.
pub uninterp spec fn url_with_params(input: Seq<char>, pairs: Seq<(Seq<char>, Seq<char>)>) -> Option<
    Seq<char>,
>;

/// The texts of query pairs.
pub open spec fn pair_texts(pairs: Seq<(String, String)>) -> Seq<(Seq<char>, Seq<char>)> {
    Seq::new(pairs.len(), |i: int| (pairs[i].0@, pairs[i].1@))
}

/// The number of bytes that hold a text.
pub open spec fn text_bytes(text: Seq<char>) -> nat {
    encode_utf8(text).len()
}

/// The most bytes that query pairs add to a URL: each byte of a key or a
/// value becomes three at most when it is escaped, and each pair brings a
/// separator and an equals sign.
pub open spec fn query_room(pairs: Seq<(Seq<char>, Seq<char>)>) -> nat
    decreases pairs.len(),
{
    if pairs.len() == 0 {
        0
    } else {
        query_room(pairs.drop_last()) + 3 * text_bytes(pairs.last().0) + 3 * text_bytes(
            pairs.last().1,
        ) + 2
    }
}

/// Whether a URL of the text `parsed` has room for the query pairs `pairs`
/// and the question mark before them.
pub open spec fn has_room(parsed: Seq<char>, pairs: Seq<(Seq<char>, Seq<char>)>) -> bool {
    text_bytes(parsed) + 1 + query_room(pairs) <= MAX_URL_BYTES
}

/// The room that the first pairs of a query need is no more than what all
/// of them need.
pub proof fn lemma_query_room_grows(pairs: Seq<(Seq<char>, Seq<char>)>, count: int)
    requires
        0 <= count <= pairs.len(),
    ensures
        query_room(pairs.take(count)) <= query_room(pairs),
    decreases pairs.len(),
{
    if count == pairs.len() {
        assert(pairs.take(count) =~= pairs);
    } else {
        lemma_query_room_grows(pairs.drop_last(), count);
        assert(pairs.drop_last().take(count) =~= pairs.take(count));
    }
}

/// `url::Url::parse`, the URL handed back as its text.
///
/// The contract claims only that the outcome is a function of the input,
/// which it names `parsed_url`; what the crate accepts is not stated.
#[verifier::external_body]
fn parse_url(input: &str) -> (url: Option<String>)
    ensures
        match url {
            Some(text) => parsed_url(input@) == Some(text@),
            None => parsed_url(input@) is None,
        },
{
    match url::Url::parse(input) {
        Ok(url) => Some(url.into()),
        Err(_) => None,
    }
}

/// `url::Url::parse_with_params`, the URL handed back as its text.
///
/// The crate parses `input` as `url::Url::parse` does and appends each pair
/// to the query of the URL, escaped as a form field. The contract claims
/// only that the outcome is a function of the input and the pairs, which it
/// names `url_with_params`. The crate addresses the parts of a URL by 32-bit
/// offsets and panics where the query would start or end beyond them, so
/// the URL that the input parses to must have room for the pairs.
#[verifier::external_body]
fn parse_with_params(input: &str, pairs: &Vec<(String, String)>) -> (url: Option<String>)
    requires
        parsed_url(input@) matches Some(parsed) ==> has_room(parsed, pair_texts(pairs@)),
    ensures
        match url {
            Some(text) => url_with_params(input@, pair_texts(pairs@)) == Some(text@),
            None => url_with_params(input@, pair_texts(pairs@)) is None,
        },
{
    match url::Url::parse_with_params(input, pairs) {
        Ok(url) => Some(url.into()),
        Err(_) => None,
    }
}

/// The number of bytes that hold `text`.
fn byte_len(text: &str) -> (len: usize)
    ensures
        len == text_bytes(text@),
{
    broadcast use vstd::slice::group_slice_axioms;

    text.as_bytes().len()
}

/// Whether a URL of the text `parsed` has room for the query pairs `pairs`.
pub fn url_has_room(parsed: &str, pairs: &Vec<(String, String)>) -> (room: bool)
    ensures
        room == has_room(parsed@, pair_texts(pairs@)),
{
    let limit: u128 = MAX_URL_BYTES as u128;
    let mut need: u128 = byte_len(parsed) as u128 + 1;
    if need > limit {
        return false;
    }
    let mut at: usize = 0;
    let ghost texts = pair_texts(pairs@);
    assert(texts.take(0) =~= Seq::empty());
    while at < pairs.len()
        invariant
            at <= pairs.len(),
            texts == pair_texts(pairs@),
            limit == MAX_URL_BYTES,
            need == text_bytes(parsed@) + 1 + query_room(texts.take(at as int)),
            need <= limit,
        decreases pairs.len() - at,
    {
        let key: u128 = byte_len(pairs[at].0.as_str()) as u128;
        let value: u128 = byte_len(pairs[at].1.as_str()) as u128;
        proof {
            assert(texts.take(at + 1).drop_last() =~= texts.take(at as int));
            assert(texts.take(at + 1).last() == texts[at as int]);
        }
        need = need + 3 * key + 3 * value + 2;
        at = at + 1;
        if need > limit {
            proof {
                lemma_query_room_grows(texts, at as int);
            }
            return false;
        }
    }
    assert(texts.take(at as int) =~= texts);
    true
}

impl InterfaceView {
    /// The address of the resource, before the query.
    pub open spec fn endpoint(self) -> Seq<char> {
        BASE_URL@ + "/"@ + self.resource
    }

    /// The query of the call: the granularity, the start of the window in
    /// seconds since the epoch, and the cap on the records.
    pub open spec fn query_pairs(self) -> Seq<(Seq<char>, Seq<char>)> {
        seq![
            ("interval"@, self.params.interval),
            ("from"@, decimal(self.params.from as int)),
            ("count"@, decimal(self.params.count as int)),
        ]
    }

    /// The URL of the call, if one can be built: the address with the query
    /// appended, where the address is accepted and the URL has room for the
    /// query.
    pub open spec fn url(self) -> Option<Seq<char>> {
        match parsed_url(self.endpoint()) {
            Some(parsed) => if has_room(parsed, self.query_pairs()) {
                url_with_params(self.endpoint(), self.query_pairs())
            } else {
                None
            },
            None => None,
        }
    }
}

/// What came back from a call, as far as it got.
#[derive(Clone, Debug, PartialEq, Eq)]
pub enum Reply<T> {
    /// The call was not answered.
    Unanswered,
    /// The answer was not JSON.
    NotJson,
    /// The answer was JSON without the payload field.
    NoPayload,
    /// The payload did not have the shape of the records asked for.
    Mismatch,
    /// The records of the payload.
    Records(Vec<T>),
}

impl Interface {
    /// A call of `resource` with the window `params`.
    pub fn new(resource: String, params: Params) -> (interface: Interface)
        ensures
            interface.resource == resource,
            interface.params == params,
    {
        Interface { resource, params }
    }

    /// The address of the resource, before the query.
    pub fn endpoint(&self) -> (endpoint: String)
        ensures
            endpoint@ == self@.endpoint(),
    {
        let mut endpoint = String::from_str(BASE_URL);
        endpoint.append("/");
        endpoint.append(self.resource.as_str());
        assert(endpoint@ =~= self@.endpoint());
        endpoint
    }

    /// The query of the call, pair by pair.
    pub fn query_pairs(&self) -> (pairs: Vec<(String, String)>)
        ensures
            pair_texts(pairs@) == self@.query_pairs(),
    {
        let mut pairs: Vec<(String, String)> = Vec::new();
        pairs.push((String::from_str("interval"), self.params.interval.clone()));
        pairs.push((String::from_str("from"), decimal_string(self.params.from as i128)));
        pairs.push((String::from_str("count"), decimal_string(self.params.count as i128)));
        assert(pair_texts(pairs@) =~= self@.query_pairs());
        pairs
    }

    /// What building a URL comes to: the URL where one was built, else the
    /// failure to build one.
    pub fn built(url: Option<String>) -> (result: Result<String, InterfaceError>)
        ensures
            match result {
                Ok(text) => url == Some(text),
                Err(error) => error == InterfaceError::UrlConstruction && url is None,
            },
    {
        match url {
            Some(text) => Ok(text),
            None => Err(InterfaceError::UrlConstruction),
        }
    }

    /// The URL of the call: the resource under the base address, with the
    /// window as its query.
    ///
    /// Fails with `UrlConstruction` exactly when no URL can be built: when
    /// the address is rejected, or the URL would outgrow what a URL may hold.
    pub fn build_url(&self) -> (result: Result<String, InterfaceError>)
        ensures
            match result {
                Ok(url) => self@.url() == Some(url@),
                Err(error) => error == InterfaceError::UrlConstruction && self@.url() is None,
            },
    {
        let endpoint = self.endpoint();
        let pairs = self.query_pairs();
        match parse_url(endpoint.as_str()) {
            None => Interface::built(None),
            Some(parsed) => {
                if url_has_room(parsed.as_str(), &pairs) {
                    Interface::built(parse_with_params(endpoint.as_str(), &pairs))
                } else {
                    Interface::built(None)
                }
            },
        }
    }
}

impl InterfaceView {
    /// What a fetch of the call comes to, given the reply to its request: a
    /// call without a URL fails as such, whatever the reply; any other is
    /// settled by its reply.
    pub open spec fn fetched<T>(self, reply: Reply<T>) -> Result<Vec<T>, InterfaceError> {
        if self.url() is None {
            Err(InterfaceError::UrlConstruction)
        } else {
            settled(reply)
        }
    }
}

impl Interface {
    /// The outcome of fetching the call, given the reply to its request.
    pub fn fetch_data<T>(&self, reply: Reply<T>) -> (outcome: Result<Vec<T>, InterfaceError>)
        ensures
            outcome == self@.fetched(reply),
    {
        match self.build_url() {
            Err(error) => Err(error),
            Ok(_) => settle(reply),
        }
    }
}

/// What a reply amounts to: its records, or the failure that it stands for.
pub open spec fn settled<T>(reply: Reply<T>) -> Result<Vec<T>, InterfaceError> {
    match reply {
        Reply::Unanswered => Err(InterfaceError::NetworkRequest),
        Reply::NotJson => Err(InterfaceError::NetworkRequest),
        Reply::NoPayload => Err(InterfaceError::InvalidResponse),
        Reply::Mismatch => Err(InterfaceError::Deserialization),
        Reply::Records(records) => Ok(records),
    }
}

/// Settles a reply: the records where it holds them, else the failure of
/// its kind. No reply is tried again.
pub fn settle<T>(reply: Reply<T>) -> (outcome: Result<Vec<T>, InterfaceError>)
    ensures
        outcome == settled(reply),
{
    match reply {
        Reply::Unanswered => Err(InterfaceError::NetworkRequest),
        Reply::NotJson => Err(InterfaceError::NetworkRequest),
        Reply::NoPayload => Err(InterfaceError::InvalidResponse),
        Reply::Mismatch => Err(InterfaceError::Deserialization),
        Reply::Records(records) => Ok(records),
    }
}

} // verus!
