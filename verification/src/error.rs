//! The errors that the library reports, and the error body of the service.

use crate::decimal::{decimal, lemma_decimal_round_trip, push_decimal, to_decimal};
use crate::json::{lemma_find_first, lemma_object_view, member_views, Json, JsonValue, Member};
use vstd::prelude::*;
use vstd::string::*;

verus! {

/// AuctionError is the body with which the service answers a request that it
/// refuses: its message, and the HTTP status as number and as text.
#[derive(Debug, Clone, PartialEq, Eq)]
pub struct AuctionError {
    pub error: String,
    pub status_code: u64,
    pub status_text: String,
}

/// The mathematical value of an `AuctionError`.
pub struct AuctionErrorView {
    pub error: Seq<char>,
    pub status_code: u64,
    pub status_text: Seq<char>,
}

impl View for AuctionError {
    type V = AuctionErrorView;

    open spec fn view(&self) -> AuctionErrorView {
        AuctionErrorView {
            error: self.error@,
            status_code: self.status_code,
            status_text: self.status_text@,
        }
    }
}

impl AuctionErrorView {
    /// The error as the service writes it: an object with the members
    /// `error`, `status_code` and `status_text`, in this order.
    pub open spec fn to_json(self) -> JsonValue {
        JsonValue::Object(
            seq![
                Member { key: "error"@, value: JsonValue::Text(self.error) },
                Member {
                    key: "status_code"@,
                    value: JsonValue::Number(decimal(self.status_code as nat)),
                },
                Member { key: "status_text"@, value: JsonValue::Text(self.status_text) },
            ],
        )
    }

    /// The error that a JSON document holds: it must be an object in which
    /// `error` and `status_text` are strings and `status_code` is the notation
    /// of a `u64`. Other members are passed over.
    pub open spec fn of_json(json: JsonValue) -> Option<AuctionErrorView> {
        match (
            json.text_at("error"@),
            json.unsigned_at("status_code"@),
            json.text_at("status_text"@),
        ) {
            (Some(error), Some(status_code), Some(status_text)) => Some(
                AuctionErrorView { error, status_code, status_text },
            ),
            _ => None,
        }
    }

    /// The error in one line: `error: E, code: N, text: T`.
    pub open spec fn message(self) -> Seq<char> {
        "error: "@ + self.error + ", code: "@ + decimal(self.status_code as nat) + ", text: "@
            + self.status_text
    }
}

impl AuctionError {
    /// This error as a JSON document.
    pub fn to_json(&self) -> (json: Json)
        ensures
            json@ == self@.to_json(),
    {
        let mut members: Vec<(String, Json)> = Vec::new();
        members.push((String::from_str("error"), Json::Text(self.error.clone())));
        members.push((String::from_str("status_code"), Json::Number(to_decimal(self.status_code))));
        members.push((String::from_str("status_text"), Json::Text(self.status_text.clone())));
        proof {
            lemma_object_view(members);
            assert(member_views(members@) =~= self@.to_json()->Object_0);
        }
        Json::Object(members)
    }

    /// Reads an error from a JSON document.
    pub fn from_json(json: &Json) -> (error: Option<AuctionError>)
        ensures
            AuctionErrorView::of_json(json@) == match error {
                Some(e) => Some(e@),
                None => None,
            },
    {
        let error = match json.text_at("error") {
            Some(t) => t,
            None => {
                return None;
            },
        };
        let status_code = match json.unsigned_at("status_code") {
            Some(n) => n,
            None => {
                return None;
            },
        };
        let status_text = match json.text_at("status_text") {
            Some(t) => t,
            None => {
                return None;
            },
        };
        Some(AuctionError { error, status_code, status_text })
    }

    /// The error in one line, for a person to read.
    pub fn to_string(&self) -> (line: String)
        ensures
            line@ == self@.message(),
    {
        let mut line = String::from_str("error: ");
        line.append(self.error.as_str());
        line.append(", code: ");
        push_decimal(&mut line, self.status_code);
        line.append(", text: ");
        line.append(self.status_text.as_str());
        assert(line@ =~= self@.message());
        line
    }
}

/// Reading back the JSON of an error body gives that error.
pub proof fn lemma_auction_error_round_trip(error: AuctionErrorView)
    ensures
        AuctionErrorView::of_json(error.to_json()) == Some(error),
{
    reveal_strlit("error");
    reveal_strlit("status_code");
    reveal_strlit("status_text");
    let members = error.to_json()->Object_0;
    assert(members[0].key.len() == 5 && members[1].key.len() == 11 && members[2].key.len() == 11);
    assert(members[1].key[7] == 'c' && members[2].key[7] == 't');
    lemma_find_first(members, "error"@, 0);
    lemma_find_first(members, "status_code"@, 1);
    lemma_find_first(members, "status_text"@, 2);
    lemma_decimal_round_trip(error.status_code as nat);
}

/// Collection of all errors returned by the library.
#[derive(Debug, Clone, PartialEq, Eq)]
pub enum Error {
    /// The service answered with a status outside 200 to 299 and a
    /// well-formed error body, which is carried here.
    Auction(AuctionError),
    /// The call did not yield an answer that can be used: the transport failed
    /// or the body was not the JSON that the status calls for.
    Transport(String),
    /// The address of an endpoint could not be formed from the base address.
    Parse(String),
    /// The client could not be set up.
    Init(String),
}

/// The mathematical value of an `Error`.
pub enum ErrorView {
    Auction(AuctionErrorView),
    Transport(Seq<char>),
    Parse(Seq<char>),
    Init(Seq<char>),
}

impl View for Error {
    type V = ErrorView;

    open spec fn view(&self) -> ErrorView {
        match self {
            Error::Auction(e) => ErrorView::Auction(e@),
            Error::Transport(m) => ErrorView::Transport(m@),
            Error::Parse(m) => ErrorView::Parse(m@),
            Error::Init(m) => ErrorView::Init(m@),
        }
    }
}

} // verus!
