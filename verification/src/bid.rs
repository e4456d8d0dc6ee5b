//! Bids: what a searcher submits for a block, and what the service answers.

use crate::base64::{encode, encoded, lemma_encoded_shape};
use crate::decimal::{decimal, lemma_decimal_round_trip, to_decimal};
use crate::json::{
    in_quotes, is_plain, item_views, lemma_array_view, lemma_find_first, lemma_object_view,
    lemma_rendered_empty, lemma_texts_round_trip, member_views, quoted, rendered_members,
    text_views, Json, JsonValue, Member,
};
use vstd::prelude::*;
use vstd::string::*;

verus! {

/// Bidding is allowed to target either the top of the block or any position in
/// the block.
#[derive(Debug, Clone, Copy, PartialEq, Eq, Structural)]
pub enum Kind {
    Top,
    Block,
}

impl Kind {
    /// The name under which the kind travels: lower case.
    pub open spec fn wire_name(self) -> Seq<char> {
        match self {
            Kind::Top => "top"@,
            Kind::Block => "block"@,
        }
    }

    /// The kind that travels under `name`, if any does.
    pub open spec fn named(name: Seq<char>) -> Option<Kind> {
        if name == "top"@ {
            Some(Kind::Top)
        } else if name == "block"@ {
            Some(Kind::Block)
        } else {
            None
        }
    }

    /// The kind that a JSON value denotes: the string of its name.
    pub open spec fn of_json(json: JsonValue) -> Option<Kind> {
        match json {
            JsonValue::Text(name) => Kind::named(name),
            _ => None,
        }
    }

    /// The name under which this kind travels.
    pub fn name(&self) -> (name: &'static str)
        ensures
            name@ == self.wire_name(),
    {
        match self {
            Kind::Top => "top",
            Kind::Block => "block",
        }
    }

    /// The kind that travels under `name`.
    pub fn from_name(name: &str) -> (kind: Option<Kind>)
        ensures
            kind == Kind::named(name@),
    {
        let given = String::from_str(name);
        if given == String::from_str("top") {
            Some(Kind::Top)
        } else if given == String::from_str("block") {
            Some(Kind::Block)
        } else {
            None
        }
    }

    /// This kind as a JSON value.
    pub fn to_json(&self) -> (json: Json)
        ensures
            json@ == JsonValue::Text(self.wire_name()),
    {
        Json::Text(String::from_str(self.name()))
    }

    /// Reads a kind from a JSON value.
    pub fn from_json(json: &Json) -> (kind: Option<Kind>)
        ensures
            kind == Kind::of_json(json@),
    {
        match json.as_text() {
            Some(name) => Kind::from_name(name.as_str()),
            None => None,
        }
    }
}

/// The two names are `top` and `block`, each is written between double
/// quotes as it is, and each kind is read back from its own name: from the
/// name as text, and from the name as a JSON string.
pub proof fn lemma_kind_round_trip(kind: Kind)
    ensures
        Kind::Top.wire_name() == seq!['t', 'o', 'p'],
        Kind::Block.wire_name() == seq!['b', 'l', 'o', 'c', 'k'],
        JsonValue::Text(Kind::Top.wire_name()).rendered() == seq!['"', 't', 'o', 'p', '"'],
        JsonValue::Text(Kind::Block.wire_name()).rendered() == seq![
            '"',
            'b',
            'l',
            'o',
            'c',
            'k',
            '"',
        ],
        is_plain(kind.wire_name()),
        Kind::named(kind.wire_name()) == Some(kind),
        Kind::of_json(JsonValue::Text(kind.wire_name())) == Some(kind),
{
    reveal_strlit("top");
    reveal_strlit("block");
    assert("top"@ =~= seq!['t', 'o', 'p']);
    assert("block"@ =~= seq!['b', 'l', 'o', 'c', 'k']);
    assert("top"@.len() != "block"@.len());
    assert(is_plain("top"@));
    assert(is_plain("block"@));
    assert(in_quotes("top"@) =~= seq!['"', 't', 'o', 'p', '"']);
    assert(in_quotes("block"@) =~= seq!['"', 'b', 'l', 'o', 'c', 'k', '"']);
}

/// The byte strings of a list of buffers.
pub open spec fn byte_views(buffers: Seq<Vec<u8>>) -> Seq<Seq<u8>> {
    Seq::new(buffers.len(), |i: int| buffers[i]@)
}

/// The JSON array that carries raw transactions: one string for each, its
/// Base64 text, in the order given.
pub open spec fn txs_json(txs: Seq<Seq<u8>>) -> JsonValue {
    JsonValue::Array(Seq::new(txs.len(), |i: int| JsonValue::Text(encoded(txs[i]))))
}

/// The BidRequest signals intent to bid on the `kind` at `height` for the given
/// `chain_id`. The bid is implicit in the payment transactions included in the
/// `txs` list, which holds them raw and in the order in which they are to be
/// placed.
#[derive(Debug, Clone, PartialEq, Eq)]
pub struct BidRequest {
    pub chain_id: String,
    pub height: u64,
    pub kind: Kind,
    pub txs: Vec<Vec<u8>>,
}

/// The mathematical value of a `BidRequest`.
pub struct BidRequestView {
    pub chain_id: Seq<char>,
    pub height: u64,
    pub kind: Kind,
    pub txs: Seq<Seq<u8>>,
}

impl View for BidRequest {
    type V = BidRequestView;

    open spec fn view(&self) -> BidRequestView {
        BidRequestView {
            chain_id: self.chain_id@,
            height: self.height,
            kind: self.kind,
            txs: byte_views(self.txs@),
        }
    }
}

impl BidRequestView {
    /// The request as the service expects it: an object with the members
    /// `chain_id`, `height`, `kind` and `txs`, in this order.
    pub open spec fn to_json(self) -> JsonValue {
        JsonValue::Object(
            seq![
                Member { key: "chain_id"@, value: JsonValue::Text(self.chain_id) },
                Member { key: "height"@, value: JsonValue::Number(decimal(self.height as nat)) },
                Member { key: "kind"@, value: JsonValue::Text(self.kind.wire_name()) },
                Member { key: "txs"@, value: txs_json(self.txs) },
            ],
        )
    }
}

impl BidRequest {
    /// This request as a JSON document.
    pub fn to_json(&self) -> (json: Json)
        ensures
            json@ == self@.to_json(),
    {
        let mut items: Vec<Json> = Vec::new();
        let mut i: usize = 0;
        while i < self.txs.len()
            invariant
                0 <= i <= self.txs.len(),
                items@.len() == i,
                forall|j: int|
                    0 <= j < i ==> (#[trigger] items@[j])@ == JsonValue::Text(
                        encoded(self.txs@[j]@),
                    ),
            decreases self.txs.len() - i,
        {
            items.push(Json::Text(encode(self.txs[i].as_slice())));
            i += 1;
        }
        proof {
            lemma_array_view(items);
            assert(item_views(items@) =~= txs_json(byte_views(self.txs@))->Array_0);
        }
        let mut members: Vec<(String, Json)> = Vec::new();
        members.push((String::from_str("chain_id"), Json::Text(self.chain_id.clone())));
        members.push((String::from_str("height"), Json::Number(to_decimal(self.height))));
        members.push((String::from_str("kind"), self.kind.to_json()));
        members.push((String::from_str("txs"), Json::Array(items)));
        proof {
            lemma_object_view(members);
            assert(member_views(members@) =~= self@.to_json()->Object_0);
        }
        Json::Object(members)
    }
}

/// A BidResponse is the indication that the request was well formed and
/// considered for the given `chain_id` and `height`; it does not imply
/// guaranteed inclusion.
#[derive(Debug, Clone, PartialEq, Eq)]
pub struct BidResponse {
    pub chain_id: String,
    pub height: u64,
    pub kind: Kind,
    pub tx_hashes: Vec<String>,
}

/// The mathematical value of a `BidResponse`.
pub struct BidResponseView {
    pub chain_id: Seq<char>,
    pub height: u64,
    pub kind: Kind,
    pub tx_hashes: Seq<Seq<char>>,
}

impl View for BidResponse {
    type V = BidResponseView;

    open spec fn view(&self) -> BidResponseView {
        BidResponseView {
            chain_id: self.chain_id@,
            height: self.height,
            kind: self.kind,
            tx_hashes: text_views(self.tx_hashes@),
        }
    }
}

impl BidResponseView {
    /// The response as the service writes it: an object with the members
    /// `chain_id`, `height`, `kind` and `tx_hashes`, in this order.
    pub open spec fn to_json(self) -> JsonValue {
        JsonValue::Object(
            seq![
                Member { key: "chain_id"@, value: JsonValue::Text(self.chain_id) },
                Member { key: "height"@, value: JsonValue::Number(decimal(self.height as nat)) },
                Member { key: "kind"@, value: JsonValue::Text(self.kind.wire_name()) },
                Member { key: "tx_hashes"@, value: JsonValue::of_texts(self.tx_hashes) },
            ],
        )
    }

    /// The response that a JSON document holds: it must be an object in which
    /// `chain_id` is a string, `height` the notation of a `u64`, `kind` the
    /// name of a kind and `tx_hashes` an array of strings. Other members are
    /// passed over.
    pub open spec fn of_json(json: JsonValue) -> Option<BidResponseView> {
        match (
            json.text_at("chain_id"@),
            json.unsigned_at("height"@),
            json.member("kind"@),
            json.member("tx_hashes"@),
        ) {
            (Some(chain_id), Some(height), Some(kind), Some(hashes)) => match (
                Kind::of_json(kind),
                hashes.as_texts(),
            ) {
                (Some(kind), Some(tx_hashes)) => Some(
                    BidResponseView { chain_id, height, kind, tx_hashes },
                ),
                _ => None,
            },
            _ => None,
        }
    }
}

impl BidResponse {
    /// This response as a JSON document.
    pub fn to_json(&self) -> (json: Json)
        ensures
            json@ == self@.to_json(),
    {
        let mut members: Vec<(String, Json)> = Vec::new();
        members.push((String::from_str("chain_id"), Json::Text(self.chain_id.clone())));
        members.push((String::from_str("height"), Json::Number(to_decimal(self.height))));
        members.push((String::from_str("kind"), self.kind.to_json()));
        members.push((String::from_str("tx_hashes"), Json::of_texts(&self.tx_hashes)));
        proof {
            lemma_object_view(members);
            assert(member_views(members@) =~= self@.to_json()->Object_0);
        }
        Json::Object(members)
    }

    /// Reads a response from a JSON document.
    pub fn from_json(json: &Json) -> (response: Option<BidResponse>)
        ensures
            BidResponseView::of_json(json@) == match response {
                Some(r) => Some(r@),
                None => None,
            },
    {
        let chain_id = match json.text_at("chain_id") {
            Some(t) => t,
            None => {
                return None;
            },
        };
        let height = match json.unsigned_at("height") {
            Some(h) => h,
            None => {
                return None;
            },
        };
        let kind = match json.member("kind") {
            Some(k) => match Kind::from_json(k) {
                Some(kind) => kind,
                None => {
                    return None;
                },
            },
            None => {
                return None;
            },
        };
        let tx_hashes = match json.member("tx_hashes") {
            Some(h) => match h.as_texts() {
                Some(texts) => texts,
                None => {
                    return None;
                },
            },
            None => {
                return None;
            },
        };
        Some(BidResponse { chain_id, height, kind, tx_hashes })
    }
}

/// Reading back the JSON of a response gives that response: every field as
/// it was written, the transaction hashes all there and in their order.
pub proof fn lemma_bid_response_round_trip(response: BidResponseView)
    ensures
        BidResponseView::of_json(response.to_json()) == Some(response),
{
    reveal_strlit("chain_id");
    reveal_strlit("height");
    reveal_strlit("kind");
    reveal_strlit("tx_hashes");
    let members = response.to_json()->Object_0;
    assert(members[0].key.len() == 8 && members[1].key.len() == 6 && members[2].key.len() == 4
        && members[3].key.len() == 9);
    lemma_find_first(members, "chain_id"@, 0);
    lemma_find_first(members, "height"@, 1);
    lemma_find_first(members, "kind"@, 2);
    lemma_find_first(members, "tx_hashes"@, 3);
    lemma_decimal_round_trip(response.height as nat);
    lemma_kind_round_trip(response.kind);
    lemma_texts_round_trip(response.tx_hashes);
}

/// A raw transaction is written as its Base64 text between double quotes:
/// nothing in that text needs an escape.
pub proof fn lemma_tx_text(tx: Seq<u8>)
    ensures
        is_plain(encoded(tx)),
        JsonValue::Text(encoded(tx)).rendered() == in_quotes(encoded(tx)),
{
    lemma_encoded_shape(tx);
}

/// A bid request carries what it was made of: the chain, the height and the
/// kind are read back from it as they went in, and its `txs` member holds one
/// string for each transaction, in the order given.
pub proof fn lemma_bid_request_carries(request: BidRequestView)
    ensures
        request.to_json().text_at("chain_id"@) == Some(request.chain_id),
        request.to_json().unsigned_at("height"@) == Some(request.height),
        request.to_json().member("kind"@) matches Some(k) && Kind::of_json(k) == Some(
            request.kind,
        ),
        request.to_json().member("txs"@) matches Some(JsonValue::Array(items)) && items.len()
            == request.txs.len() && forall|i: int|
            0 <= i < items.len() ==> #[trigger] items[i] == JsonValue::Text(encoded(request.txs[i])),
{
    reveal_strlit("chain_id");
    reveal_strlit("height");
    reveal_strlit("kind");
    reveal_strlit("txs");
    let members = request.to_json()->Object_0;
    assert(members[0].key.len() == 8 && members[1].key.len() == 6 && members[2].key.len() == 4
        && members[3].key.len() == 3);
    lemma_find_first(members, "chain_id"@, 0);
    lemma_find_first(members, "height"@, 1);
    lemma_find_first(members, "kind"@, 2);
    lemma_find_first(members, "txs"@, 3);
    lemma_decimal_round_trip(request.height as nat);
    lemma_kind_round_trip(request.kind);
}

/// The text of a bid request: the four members in their order, each a key
/// between double quotes, a colon and the value, with commas between and
/// braces around. A chain id that is plain stands between double quotes as it
/// is.
pub proof fn lemma_bid_request_text(request: BidRequestView)
    ensures
        request.to_json().rendered() == "{"@ + in_quotes("chain_id"@) + ":"@ + quoted(
            request.chain_id,
        ) + ","@ + in_quotes("height"@) + ":"@ + decimal(request.height as nat) + ","@
            + in_quotes("kind"@) + ":"@ + in_quotes(request.kind.wire_name()) + ","@ + in_quotes(
            "txs"@,
        ) + ":"@ + txs_json(request.txs).rendered() + "}"@,
        is_plain(request.chain_id) ==> quoted(request.chain_id) == in_quotes(request.chain_id),
{
    reveal_with_fuel(rendered_members, 5);
    reveal_strlit("chain_id");
    reveal_strlit("height");
    reveal_strlit("kind");
    reveal_strlit("txs");
    assert(is_plain("chain_id"@));
    assert(is_plain("height"@));
    assert(is_plain("kind"@));
    assert(is_plain("txs"@));
    lemma_kind_round_trip(request.kind);
    let members = request.to_json()->Object_0;
    assert(request.to_json().rendered() == "{"@ + rendered_members(members, 4) + "}"@);
    assert(request.to_json().rendered() =~= "{"@ + in_quotes("chain_id"@) + ":"@ + quoted(
        request.chain_id,
    ) + ","@ + in_quotes("height"@) + ":"@ + decimal(request.height as nat) + ","@ + in_quotes(
        "kind"@,
    ) + ":"@ + in_quotes(request.kind.wire_name()) + ","@ + in_quotes("txs"@) + ":"@ + txs_json(
        request.txs,
    ).rendered() + "}"@);
}

/// A bid without transactions still has its `txs` member, and the member is
/// the empty array, written `[]`.
pub proof fn lemma_empty_txs(request: BidRequestView)
    requires
        request.txs.len() == 0,
    ensures
        request.to_json().member("txs"@) == Some(txs_json(request.txs)),
        txs_json(request.txs) == JsonValue::Array(Seq::empty()),
        txs_json(request.txs).rendered() == seq!['[', ']'],
{
    reveal_strlit("chain_id");
    reveal_strlit("height");
    reveal_strlit("kind");
    reveal_strlit("txs");
    let members = request.to_json()->Object_0;
    assert(members[0].key.len() == 8 && members[1].key.len() == 6 && members[2].key.len() == 4
        && members[3].key.len() == 3);
    lemma_find_first(members, "txs"@, 3);
    assert(txs_json(request.txs)->Array_0 =~= Seq::<JsonValue>::empty());
    lemma_rendered_empty();
}

} // verus!
