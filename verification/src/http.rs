//! The builder API over HTTP, without the wire: this module forms the request
//! of each call and reads the answer that came back. Sending is left to the
//! caller, who hands a `Request` to the client held here and brings back a
//! `Response`.

use crate::auction::{
    lemma_auction_response_round_trip, AuctionRequest, AuctionRequestView, AuctionResponse,
    AuctionResponseView,
};
use crate::bid::{
    byte_views, lemma_bid_response_round_trip, BidRequest, BidRequestView, BidResponse,
    BidResponseView, Kind,
};
use crate::error::{
    lemma_auction_error_round_trip, AuctionError, AuctionErrorView, Error, ErrorView,
};
use crate::json::{json_document, Json, JsonValue};
use vstd::prelude::*;
use vstd::string::*;

verus! {

/// The `User-Agent` of the client that `Http::new` builds: name and version
/// of this library.
pub const USER_AGENT: &'static str = "mekatek-searcher-rs/1.0.0";

/// The `Content-Type` of every request body.
pub const CONTENT_TYPE: &'static str = "application/json";

/// Where bids go, relative to the base address.
pub const BID_PATH: &'static str = "v0/bid";

/// Where auction queries go, relative to the base address.
pub const AUCTION_PATH: &'static str = "v0/auction";

/// What a call reports when the body of an answer is not the JSON that its
/// status calls for.
pub const DECODE_FAILURE: &'static str = "error decoding response body";

/// The serialization of a URL: what `url::Url::as_str` returns.
pub uninterp spec fn url_text(url: url::Url) -> Seq<char>;

/// What `url::Url::parse` makes of a text: the serialization of the URL, or
/// the message of the `url::ParseError`.
pub uninterp spec fn url_parsed(text: Seq<char>) -> Result<Seq<char>, Seq<char>>;

/// What `url::Url::join` makes of a reference against a base: the
/// serialization of the result, or the message of the `url::ParseError`.
pub uninterp spec fn url_joined(base: url::Url, reference: Seq<char>) -> Result<
    Seq<char>,
    Seq<char>,
>;

/// The `User-Agent` among the headers that a `reqwest::Client` sends with
/// every request, as `reqwest::ClientBuilder::user_agent` set it.
pub uninterp spec fn client_agent(client: reqwest::Client) -> Seq<char>;

#[verifier::external_type_specification]
#[verifier::external_body]
pub struct ExUrl(url::Url);

#[verifier::external_type_specification]
#[verifier::external_body]
pub struct ExClient(reqwest::Client);

/// `url::Url` derives `Clone`: a clone has the fields of what it was made of.
pub assume_specification[ <url::Url as Clone>::clone ](url: &url::Url) -> (cloned: url::Url)
    ensures
        cloned == *url,
;

/// `reqwest::Client` keeps its connection pool behind a shared pointer: a
/// clone is another handle on the same client.
pub assume_specification[ <reqwest::Client as Clone>::clone ](client: &reqwest::Client) -> (cloned:
    reqwest::Client)
    ensures
        cloned == *client,
;

/// The texts of a result that holds a string either way.
pub open spec fn texts_of(result: Result<String, String>) -> Result<Seq<char>, Seq<char>> {
    match result {
        Ok(t) => Ok(t@),
        Err(t) => Err(t@),
    }
}

/// The values of a result.
pub open spec fn outcome_view<T: View, E: View>(result: Result<T, E>) -> Result<T::V, E::V> {
    match result {
        Ok(t) => Ok(t@),
        Err(e) => Err(e@),
    }
}

/// The value of a document that may be missing.
pub open spec fn document_view(doc: Option<Json>) -> Option<JsonValue> {
    match doc {
        Some(j) => Some(j@),
        None => None,
    }
}

/// `url::Url::parse`: the URL, or the error's message.
#[verifier::external_body]
fn parse_url(text: &str) -> (parsed: Result<url::Url, String>)
    ensures
        url_parsed(text@) == match parsed {
            Ok(url) => Ok::<Seq<char>, Seq<char>>(url_text(url)),
            Err(reason) => Err(reason@),
        },
{
    match url::Url::parse(text) {
        Ok(u) => Ok(u),
        Err(e) => Err(e.to_string()),
    }
}

/// `url::Url::as_str`: the serialization of a URL.
#[verifier::external_body]
fn url_str(url: &url::Url) -> (text: &str)
    ensures
        text@ == url_text(*url),
{
    url.as_str()
}

/// `url::Url::join`: the serialization of the result, or the error's message.
#[verifier::external_body]
fn join_url(base: &url::Url, reference: &str) -> (joined: Result<String, String>)
    ensures
        texts_of(joined) == url_joined(*base, reference@),
{
    match base.join(reference) {
        Ok(u) => Ok(String::from(u)),
        Err(e) => Err(e.to_string()),
    }
}

/// `reqwest::ClientBuilder::build` on a builder that is new but for
/// `reqwest::ClientBuilder::user_agent` with `agent`. Whether it succeeds
/// depends on the machine and on `agent` being fit for a header, so success
/// is not promised; a client that comes back has `agent` as its user agent,
/// and a failure comes back as its message.
#[verifier::external_body]
fn default_client(agent: &str) -> (built: Result<reqwest::Client, String>)
    ensures
        built matches Ok(client) ==> client_agent(client) == agent@,
{
    match reqwest::ClientBuilder::new().user_agent(agent).build() {
        Ok(c) => Ok(c),
        Err(e) => Err(e.to_string()),
    }
}

/// The method of a request.
#[derive(Debug, Clone, Copy, PartialEq, Eq, Structural)]
pub enum Method {
    Get,
    Post,
}

/// A request, ready to be sent: the body goes out as it stands, with
/// `CONTENT_TYPE` as its content type.
#[derive(Debug, Clone, PartialEq, Eq)]
pub struct Request {
    pub method: Method,
    pub url: String,
    pub body: String,
}

/// The mathematical value of a `Request`.
pub struct RequestView {
    pub method: Method,
    pub url: Seq<char>,
    pub body: Seq<char>,
}

impl View for Request {
    type V = RequestView;

    open spec fn view(&self) -> RequestView {
        RequestView { method: self.method, url: self.url@, body: self.body@ }
    }
}

/// The request of a call, given what joining its path to the base address
/// gave: the document as the body of a request to that address, or a `Parse`
/// error with the message of the join's failure.
pub open spec fn request_at(
    joined: Result<Seq<char>, Seq<char>>,
    method: Method,
    json: JsonValue,
) -> Result<RequestView, ErrorView> {
    match joined {
        Ok(url) => Ok(RequestView { method, url, body: json.rendered() }),
        Err(reason) => Err(ErrorView::Parse(reason)),
    }
}

impl Request {
    /// The request of a call, given what joining its path to the base address
    /// gave.
    pub fn at(joined: Result<String, String>, method: Method, json: &Json) -> (made: Result<
        Request,
        Error,
    >)
        ensures
            outcome_view(made) == request_at(texts_of(joined), method, json@),
    {
        match joined {
            Ok(url) => Ok(Request { method, url, body: json.render() }),
            Err(reason) => Err(Error::Parse(reason)),
        }
    }
}

/// What came back for a request: the status and the whole body.
#[derive(Debug, Clone, PartialEq, Eq)]
pub struct Response {
    pub status: u16,
    pub body: Vec<u8>,
}

impl Response {
    /// Whether the status is within 200 to 299.
    pub open spec fn succeeded(self) -> bool {
        is_success(self.status)
    }

    /// Whether the status is within 200 to 299.
    pub fn is_success(&self) -> (yes: bool)
        ensures
            yes == is_success(self.status),
    {
        200 <= self.status && self.status < 300
    }
}

/// Whether a status is within 200 to 299.
pub open spec fn is_success(status: u16) -> bool {
    200 <= status < 300
}

/// The error of a call that the service refused: the error body where the
/// document is one, a transport error where it is not.
pub open spec fn refusal(doc: Option<JsonValue>) -> ErrorView {
    match doc {
        Some(j) => match AuctionErrorView::of_json(j) {
            Some(e) => ErrorView::Auction(e),
            None => ErrorView::Transport(DECODE_FAILURE@),
        },
        None => ErrorView::Transport(DECODE_FAILURE@),
    }
}

/// What a bid returns for an answer with this status and this document as its
/// body (`None`: the body is not JSON).
pub open spec fn bid_result(status: u16, doc: Option<JsonValue>) -> Result<
    BidResponseView,
    ErrorView,
> {
    if is_success(status) {
        match doc {
            Some(j) => match BidResponseView::of_json(j) {
                Some(r) => Ok(r),
                None => Err(ErrorView::Transport(DECODE_FAILURE@)),
            },
            None => Err(ErrorView::Transport(DECODE_FAILURE@)),
        }
    } else {
        Err(refusal(doc))
    }
}

/// What an auction query returns for an answer with this status and this
/// document as its body (`None`: the body is not JSON).
pub open spec fn auction_result(status: u16, doc: Option<JsonValue>) -> Result<
    AuctionResponseView,
    ErrorView,
> {
    if is_success(status) {
        match doc {
            Some(j) => match AuctionResponseView::of_json(j) {
                Some(r) => Ok(r),
                None => Err(ErrorView::Transport(DECODE_FAILURE@)),
            },
            None => Err(ErrorView::Transport(DECODE_FAILURE@)),
        }
    } else {
        Err(refusal(doc))
    }
}

/// An answer with a status within 200 to 299 and the JSON of a response as
/// its body yields that response, field for field.
pub proof fn lemma_accepted(status: u16, bid: BidResponseView, auction: AuctionResponseView)
    requires
        is_success(status),
    ensures
        bid_result(status, Some(bid.to_json())) == Ok::<BidResponseView, ErrorView>(bid),
        auction_result(status, Some(auction.to_json())) == Ok::<AuctionResponseView, ErrorView>(
            auction,
        ),
{
    lemma_bid_response_round_trip(bid);
    lemma_auction_response_round_trip(auction);
}

/// An answer with a status outside 200 to 299 and the JSON of an error as its
/// body yields an `Auction` error that carries that error, status code
/// included.
pub proof fn lemma_refused(status: u16, error: AuctionErrorView)
    requires
        !is_success(status),
    ensures
        bid_result(status, Some(error.to_json())) == Err::<BidResponseView, ErrorView>(
            ErrorView::Auction(error),
        ),
        auction_result(status, Some(error.to_json())) == Err::<AuctionResponseView, ErrorView>(
            ErrorView::Auction(error),
        ),
{
    lemma_auction_error_round_trip(error);
}

/// Reading an answer yields a response, an `Auction` error or a `Transport`
/// error, and an `Auction` error only under a status outside 200 to 299: a
/// body that cannot be read is never taken for a refusal by the service.
pub proof fn lemma_error_kinds(status: u16, doc: Option<JsonValue>)
    ensures
        bid_result(status, doc) matches Err(e) ==> e is Auction || e == ErrorView::Transport(
            DECODE_FAILURE@,
        ),
        auction_result(status, doc) matches Err(e) ==> e is Auction || e == ErrorView::Transport(
            DECODE_FAILURE@,
        ),
        bid_result(status, doc) matches Err(ErrorView::Auction(_)) ==> !is_success(status),
        auction_result(status, doc) matches Err(ErrorView::Auction(_)) ==> !is_success(status),
        bid_result(status, doc) is Ok ==> is_success(status),
        auction_result(status, doc) is Ok ==> is_success(status),
{
}

fn decode_failure() -> (error: Error)
    ensures
        error@ == ErrorView::Transport(DECODE_FAILURE@),
{
    Error::Transport(String::from_str(DECODE_FAILURE))
}

/// The error of a call that the service refused, from the document in the
/// body of its answer.
pub fn refusal_of(doc: Option<Json>) -> (error: Error)
    ensures
        error@ == refusal(document_view(doc)),
{
    match doc {
        Some(j) => match AuctionError::from_json(&j) {
            Some(e) => Error::Auction(e),
            None => decode_failure(),
        },
        None => decode_failure(),
    }
}

/// What a bid returns for an answer with this status and this document as its
/// body.
pub fn bid_outcome(status: u16, doc: Option<Json>) -> (outcome: Result<BidResponse, Error>)
    ensures
        outcome_view(outcome) == bid_result(status, document_view(doc)),
{
    if 200 <= status && status < 300 {
        match doc {
            Some(j) => match BidResponse::from_json(&j) {
                Some(r) => Ok(r),
                None => Err(decode_failure()),
            },
            None => Err(decode_failure()),
        }
    } else {
        Err(refusal_of(doc))
    }
}

/// What an auction query returns for an answer with this status and this
/// document as its body.
pub fn auction_outcome(status: u16, doc: Option<Json>) -> (outcome: Result<
    AuctionResponse,
    Error,
>)
    ensures
        outcome_view(outcome) == auction_result(status, document_view(doc)),
{
    if 200 <= status && status < 300 {
        match doc {
            Some(j) => match AuctionResponse::from_json(&j) {
                Some(r) => Ok(r),
                None => Err(decode_failure()),
            },
            None => Err(decode_failure()),
        }
    } else {
        Err(refusal_of(doc))
    }
}

/// What a bid returns, given what the transport brought back: the answer of
/// the service, or the message of the transport's failure.
pub fn bid_response(reply: Result<Response, String>) -> (outcome: Result<BidResponse, Error>)
    ensures
        outcome_view(outcome) == match reply {
            Ok(answer) => bid_result(answer.status, json_document(answer.body@)),
            Err(reason) => Err(ErrorView::Transport(reason@)),
        },
{
    match reply {
        Ok(answer) => bid_outcome(answer.status, Json::parse(answer.body.as_slice())),
        Err(reason) => Err(Error::Transport(reason)),
    }
}

/// What an auction query returns, given what the transport brought back: the
/// answer of the service, or the message of the transport's failure.
pub fn auction_response(reply: Result<Response, String>) -> (outcome: Result<
    AuctionResponse,
    Error,
>)
    ensures
        outcome_view(outcome) == match reply {
            Ok(answer) => auction_result(answer.status, json_document(answer.body@)),
            Err(reason) => Err(ErrorView::Transport(reason@)),
        },
{
    match reply {
        Ok(answer) => auction_outcome(answer.status, Json::parse(answer.body.as_slice())),
        Err(reason) => Err(Error::Transport(reason)),
    }
}

/// The builder API exposed via HTTP: the base address of the service and the
/// client that carries the calls. Neither changes once the value is made, and
/// no call needs more than a shared reference.
pub struct Http {
    base_url: url::Url,
    client: reqwest::Client,
}

impl Clone for Http {
    fn clone(&self) -> (cloned: Http)
        ensures
            cloned.address() == self.address(),
            cloned.transport() == self.transport(),
    {
        Http { base_url: self.base_url.clone(), client: self.client.clone() }
    }
}

impl Http {
    /// The base address.
    pub closed spec fn address(&self) -> url::Url {
        self.base_url
    }

    /// The base address as text.
    pub open spec fn base(&self) -> Seq<char> {
        url_text(self.address())
    }

    /// The client that carries the calls.
    pub closed spec fn transport(&self) -> reqwest::Client {
        self.client
    }

    /// Puts together what `new` and `new_client` have gathered: the base
    /// address as parsed and the client as built. A failure of either is an
    /// `Init` error with its message, that of the address first.
    pub fn from_parts(parsed: Result<url::Url, String>, built: Result<reqwest::Client, String>) -> (made:
        Result<Http, Error>)
        ensures
            match (parsed, built) {
                (Ok(url), Ok(client)) => made matches Ok(http) && http.address() == url
                    && http.transport() == client,
                (Ok(_), Err(reason)) => made matches Err(e) && e@ == ErrorView::Init(reason@),
                (Err(reason), _) => made matches Err(e) && e@ == ErrorView::Init(reason@),
            },
    {
        match parsed {
            Ok(base_url) => match built {
                Ok(client) => Ok(Http { base_url, client }),
                Err(reason) => Err(Error::Init(reason)),
            },
            Err(reason) => Err(Error::Init(reason)),
        }
    }

    /// Instantiate a new HTTP client for the given URL, e.g.
    /// `https://api.mekatek.xyz`, with a client of its own that names this
    /// library as its user agent.
    ///
    /// This fails with an `Init` error when the URL does not parse or the
    /// client cannot be built.
    pub fn new(url: String) -> (made: Result<Http, Error>)
        ensures
            match url_parsed(url@) {
                Ok(base) => match made {
                    Ok(http) => http.base() == base && client_agent(http.transport())
                        == USER_AGENT@,
                    Err(e) => e@ is Init,
                },
                Err(reason) => made matches Err(e) && e@ == ErrorView::Init(reason),
            },
    {
        match parse_url(url.as_str()) {
            Ok(base) => Http::from_parts(Ok(base), default_client(USER_AGENT)),
            Err(reason) => Err(Error::Init(reason)),
        }
    }

    /// Instantiate a new HTTP client for the given URL, e.g.
    /// `https://api.mekatek.xyz`, which uses the client supplied.
    ///
    /// This fails with an `Init` error when the URL does not parse.
    pub fn new_client(url: String, client: reqwest::Client) -> (made: Result<Http, Error>)
        ensures
            match url_parsed(url@) {
                Ok(base) => made matches Ok(http) && http.base() == base && http.transport()
                    == client,
                Err(reason) => made matches Err(e) && e@ == ErrorView::Init(reason),
            },
    {
        Http::from_parts(parse_url(url.as_str()), Ok(client))
    }

    /// The base address.
    pub fn base_url(&self) -> (url: &str)
        ensures
            url@ == self.base(),
    {
        url_str(&self.base_url)
    }

    /// The client that carries the calls.
    pub fn client(&self) -> (client: &reqwest::Client)
        ensures
            *client == self.transport(),
    {
        &self.client
    }

    /// The request that bids on an auction of `kind` at `height` on
    /// `chain_id` with the given list of raw `txs`: a POST to `v0/bid` under
    /// the base address, with the bid as its JSON body. It is made of the
    /// base address and of these values, and of nothing else.
    ///
    /// This fails with a `Parse` error when the address cannot be formed.
    pub fn bid_request(&self, chain_id: String, height: u64, kind: Kind, txs: Vec<Vec<u8>>) -> (made:
        Result<Request, Error>)
        ensures
            outcome_view(made) == request_at(
                url_joined(self.address(), BID_PATH@),
                Method::Post,
                (BidRequestView { chain_id: chain_id@, height, kind, txs: byte_views(txs@) }).to_json(),
            ),
    {
        let bid = BidRequest { chain_id, height, kind, txs };
        Request::at(join_url(&self.base_url, BID_PATH), Method::Post, &bid.to_json())
    }

    /// The request that asks for the auction at `height` on `chain_id`: a GET
    /// to `v0/auction` under the base address, with the query as its JSON
    /// body. It is made of the base address and of these values, and of
    /// nothing else.
    ///
    /// This fails with a `Parse` error when the address cannot be formed.
    pub fn auction_request(&self, chain_id: String, height: u64) -> (made: Result<Request, Error>)
        ensures
            outcome_view(made) == request_at(
                url_joined(self.address(), AUCTION_PATH@),
                Method::Get,
                (AuctionRequestView { chain_id: chain_id@, height }).to_json(),
            ),
    {
        let query = AuctionRequest { chain_id, height };
        Request::at(join_url(&self.base_url, AUCTION_PATH), Method::Get, &query.to_json())
    }
}

} // verus!
