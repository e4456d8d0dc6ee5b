//! Auction queries: what a searcher asks about a block, and the payments that
//! the service asks for in return.

use crate::decimal::{decimal, lemma_decimal_round_trip, to_decimal};
use crate::json::{
    in_quotes, is_plain, item_views, lemma_array_view, lemma_find_first, lemma_object_view,
    member_views, quoted, rendered_members, Json, JsonValue, Member,
};
use vstd::prelude::*;
use vstd::string::*;

verus! {

/// AuctionRequest is used to ask the service whether an auction is available
/// for the supplied `chain_id` and `height`.
#[derive(Debug, Clone, PartialEq, Eq)]
pub struct AuctionRequest {
    pub chain_id: String,
    pub height: u64,
}

/// The mathematical value of an `AuctionRequest`.
pub struct AuctionRequestView {
    pub chain_id: Seq<char>,
    pub height: u64,
}

impl View for AuctionRequest {
    type V = AuctionRequestView;

    open spec fn view(&self) -> AuctionRequestView {
        AuctionRequestView { chain_id: self.chain_id@, height: self.height }
    }
}

impl AuctionRequestView {
    /// The query as the service expects it: an object with the members
    /// `chain_id` and `height`, in this order.
    pub open spec fn to_json(self) -> JsonValue {
        JsonValue::Object(
            seq![
                Member { key: "chain_id"@, value: JsonValue::Text(self.chain_id) },
                Member { key: "height"@, value: JsonValue::Number(decimal(self.height as nat)) },
            ],
        )
    }
}

impl AuctionRequest {
    /// This query as a JSON document.
    pub fn to_json(&self) -> (json: Json)
        ensures
            json@ == self@.to_json(),
    {
        let mut members: Vec<(String, Json)> = Vec::new();
        members.push((String::from_str("chain_id"), Json::Text(self.chain_id.clone())));
        members.push((String::from_str("height"), Json::Number(to_decimal(self.height))));
        proof {
            lemma_object_view(members);
            assert(member_views(members@) =~= self@.to_json()->Object_0);
        }
        Json::Object(members)
    }
}

/// Payment detail for an auction. The `address` is bech32 encoded and the
/// `denom` is a coin denomination. The `allocation` is the share of the bid
/// that goes to the address, greater than 0 and at most 1: it is held as the
/// text that `serde_json` displays for the number it read, so `5e-1` is held
/// as `0.5`.
#[derive(Debug, Clone, PartialEq, Eq)]
pub struct Payment {
    pub address: String,
    pub allocation: String,
    pub denom: String,
}

/// The mathematical value of a `Payment`.
pub struct PaymentView {
    pub address: Seq<char>,
    pub allocation: Seq<char>,
    pub denom: Seq<char>,
}

impl View for Payment {
    type V = PaymentView;

    open spec fn view(&self) -> PaymentView {
        PaymentView { address: self.address@, allocation: self.allocation@, denom: self.denom@ }
    }
}

impl PaymentView {
    /// The payment as the service writes it: an object with the members
    /// `address`, `allocation` and `denom`, in this order.
    pub open spec fn to_json(self) -> JsonValue {
        JsonValue::Object(
            seq![
                Member { key: "address"@, value: JsonValue::Text(self.address) },
                Member { key: "allocation"@, value: JsonValue::Number(self.allocation) },
                Member { key: "denom"@, value: JsonValue::Text(self.denom) },
            ],
        )
    }

    /// The payment that a JSON document holds: it must be an object in which
    /// `address` and `denom` are strings and `allocation` is a number. Other
    /// members are passed over.
    pub open spec fn of_json(json: JsonValue) -> Option<PaymentView> {
        match (json.text_at("address"@), json.number_at("allocation"@), json.text_at("denom"@)) {
            (Some(address), Some(allocation), Some(denom)) => Some(
                PaymentView { address, allocation, denom },
            ),
            _ => None,
        }
    }
}

impl Payment {
    /// This payment as a JSON document.
    pub fn to_json(&self) -> (json: Json)
        ensures
            json@ == self@.to_json(),
    {
        let mut members: Vec<(String, Json)> = Vec::new();
        members.push((String::from_str("address"), Json::Text(self.address.clone())));
        members.push((String::from_str("allocation"), Json::Number(self.allocation.clone())));
        members.push((String::from_str("denom"), Json::Text(self.denom.clone())));
        proof {
            lemma_object_view(members);
            assert(member_views(members@) =~= self@.to_json()->Object_0);
        }
        Json::Object(members)
    }

    /// Reads a payment from a JSON document.
    pub fn from_json(json: &Json) -> (payment: Option<Payment>)
        ensures
            PaymentView::of_json(json@) == match payment {
                Some(p) => Some(p@),
                None => None,
            },
    {
        let address = match json.text_at("address") {
            Some(t) => t,
            None => {
                return None;
            },
        };
        let allocation = match json.number_at("allocation") {
            Some(n) => n,
            None => {
                return None;
            },
        };
        let denom = match json.text_at("denom") {
            Some(t) => t,
            None => {
                return None;
            },
        };
        Some(Payment { address, allocation, denom })
    }
}

/// The values of a list of payments.
pub open spec fn payment_views(payments: Seq<Payment>) -> Seq<PaymentView> {
    Seq::new(payments.len(), |i: int| payments[i]@)
}

/// The JSON array of a list of payments: one object for each, in their order.
pub open spec fn payments_json(payments: Seq<PaymentView>) -> JsonValue {
    JsonValue::Array(Seq::new(payments.len(), |i: int| payments[i].to_json()))
}

/// The payments that a JSON value holds: it must be an array, and each of its
/// items a payment.
pub open spec fn payments_of(json: JsonValue) -> Option<Seq<PaymentView>> {
    match json {
        JsonValue::Array(items) => if forall|i: int|
            0 <= i < items.len() ==> PaymentView::of_json(#[trigger] items[i]) is Some {
            Some(Seq::new(items.len(), |i: int| PaymentView::of_json(items[i])->Some_0))
        } else {
            None
        },
        _ => None,
    }
}

/// AuctionResponse contains the payment details of an auction for the supplied
/// `chain_id` and `height`. It is returned only if an auction was found. Each
/// bid submitted must include payments to the addresses in the `payments`
/// list with the respective allocations and denominations.
#[derive(Debug, Clone, PartialEq, Eq)]
pub struct AuctionResponse {
    pub chain_id: String,
    pub height: u64,
    pub payments: Vec<Payment>,
}

/// The mathematical value of an `AuctionResponse`.
pub struct AuctionResponseView {
    pub chain_id: Seq<char>,
    pub height: u64,
    pub payments: Seq<PaymentView>,
}

impl View for AuctionResponse {
    type V = AuctionResponseView;

    open spec fn view(&self) -> AuctionResponseView {
        AuctionResponseView {
            chain_id: self.chain_id@,
            height: self.height,
            payments: payment_views(self.payments@),
        }
    }
}

impl AuctionResponseView {
    /// The response as the service writes it: an object with the members
    /// `chain_id`, `height` and `payments`, in this order.
    pub open spec fn to_json(self) -> JsonValue {
        JsonValue::Object(
            seq![
                Member { key: "chain_id"@, value: JsonValue::Text(self.chain_id) },
                Member { key: "height"@, value: JsonValue::Number(decimal(self.height as nat)) },
                Member { key: "payments"@, value: payments_json(self.payments) },
            ],
        )
    }

    /// The response that a JSON document holds: it must be an object in which
    /// `chain_id` is a string, `height` the notation of a `u64` and `payments`
    /// an array of payments. Other members are passed over.
    pub open spec fn of_json(json: JsonValue) -> Option<AuctionResponseView> {
        match (json.text_at("chain_id"@), json.unsigned_at("height"@), json.member("payments"@)) {
            (Some(chain_id), Some(height), Some(list)) => match payments_of(list) {
                Some(payments) => Some(AuctionResponseView { chain_id, height, payments }),
                None => None,
            },
            _ => None,
        }
    }
}

fn payments_to_json(payments: &Vec<Payment>) -> (json: Json)
    ensures
        json@ == payments_json(payment_views(payments@)),
{
    let mut items: Vec<Json> = Vec::new();
    let mut i: usize = 0;
    while i < payments.len()
        invariant
            0 <= i <= payments.len(),
            items@.len() == i,
            forall|j: int| 0 <= j < i ==> (#[trigger] items@[j])@ == payments@[j]@.to_json(),
        decreases payments.len() - i,
    {
        items.push(payments[i].to_json());
        i += 1;
    }
    proof {
        lemma_array_view(items);
        assert(item_views(items@) =~= payments_json(payment_views(payments@))->Array_0);
    }
    Json::Array(items)
}

fn payments_from_json(json: &Json) -> (payments: Option<Vec<Payment>>)
    ensures
        payments_of(json@) == match payments {
            Some(v) => Some(payment_views(v@)),
            None => None,
        },
{
    match json.as_items() {
        Some(items) => {
            let ghost all = item_views(items@);
            let mut payments: Vec<Payment> = Vec::new();
            let mut i: usize = 0;
            while i < items.len()
                invariant
                    0 <= i <= items.len(),
                    all == item_views(items@),
                    json@ == JsonValue::Array(all),
                    payments@.len() == i,
                    forall|j: int| 0 <= j < i ==> PaymentView::of_json(#[trigger] all[j]) is Some,
                    forall|j: int|
                        0 <= j < i ==> (#[trigger] payments@[j])@ == PaymentView::of_json(
                            all[j],
                        )->Some_0,
                decreases items.len() - i,
            {
                assert(all[i as int] == items@[i as int]@);
                match Payment::from_json(&items[i]) {
                    Some(p) => {
                        payments.push(p);
                    },
                    None => {
                        return None;
                    },
                }
                i += 1;
            }
            assert(payment_views(payments@) =~= Seq::new(
                all.len(),
                |i: int| PaymentView::of_json(all[i])->Some_0,
            ));
            Some(payments)
        },
        None => None,
    }
}

impl AuctionResponse {
    /// This response as a JSON document.
    pub fn to_json(&self) -> (json: Json)
        ensures
            json@ == self@.to_json(),
    {
        let mut members: Vec<(String, Json)> = Vec::new();
        members.push((String::from_str("chain_id"), Json::Text(self.chain_id.clone())));
        members.push((String::from_str("height"), Json::Number(to_decimal(self.height))));
        members.push((String::from_str("payments"), payments_to_json(&self.payments)));
        proof {
            lemma_object_view(members);
            assert(member_views(members@) =~= self@.to_json()->Object_0);
        }
        Json::Object(members)
    }

    /// Reads a response from a JSON document.
    pub fn from_json(json: &Json) -> (response: Option<AuctionResponse>)
        ensures
            AuctionResponseView::of_json(json@) == match response {
                Some(r) => Some(r@),
                None => None,
            },
    {
        let chain_id = match json.text_at("chain_id") {
            Some(t) => t,
            None => {
                return None;
            },
        };
        let height = match json.unsigned_at("height") {
            Some(h) => h,
            None => {
                return None;
            },
        };
        let payments = match json.member("payments") {
            Some(list) => match payments_from_json(list) {
                Some(payments) => payments,
                None => {
                    return None;
                },
            },
            None => {
                return None;
            },
        };
        Some(AuctionResponse { chain_id, height, payments })
    }
}

/// An auction query carries the chain and the height that it was made of, and
/// they are read back from it as they went in.
pub proof fn lemma_auction_request_carries(request: AuctionRequestView)
    ensures
        request.to_json().text_at("chain_id"@) == Some(request.chain_id),
        request.to_json().unsigned_at("height"@) == Some(request.height),
{
    reveal_strlit("chain_id");
    reveal_strlit("height");
    let members = request.to_json()->Object_0;
    assert(members[0].key.len() == 8 && members[1].key.len() == 6);
    lemma_find_first(members, "chain_id"@, 0);
    lemma_find_first(members, "height"@, 1);
    lemma_decimal_round_trip(request.height as nat);
}

/// The text of an auction query: the two members in their order, each a key
/// between double quotes, a colon and the value, with a comma between and
/// braces around. A chain id that is plain stands between double quotes as it
/// is.
pub proof fn lemma_auction_request_text(request: AuctionRequestView)
    ensures
        request.to_json().rendered() == "{"@ + in_quotes("chain_id"@) + ":"@ + quoted(
            request.chain_id,
        ) + ","@ + in_quotes("height"@) + ":"@ + decimal(request.height as nat) + "}"@,
        is_plain(request.chain_id) ==> quoted(request.chain_id) == in_quotes(request.chain_id),
{
    reveal_with_fuel(rendered_members, 3);
    reveal_strlit("chain_id");
    reveal_strlit("height");
    assert(is_plain("chain_id"@));
    assert(is_plain("height"@));
    let members = request.to_json()->Object_0;
    assert(request.to_json().rendered() == "{"@ + rendered_members(members, 2) + "}"@);
    assert(request.to_json().rendered() =~= "{"@ + in_quotes("chain_id"@) + ":"@ + quoted(
        request.chain_id,
    ) + ","@ + in_quotes("height"@) + ":"@ + decimal(request.height as nat) + "}"@);
}

/// Reading back the JSON of a payment gives that payment.
pub proof fn lemma_payment_round_trip(payment: PaymentView)
    ensures
        PaymentView::of_json(payment.to_json()) == Some(payment),
{
    reveal_strlit("address");
    reveal_strlit("allocation");
    reveal_strlit("denom");
    let members = payment.to_json()->Object_0;
    assert(members[0].key.len() == 7 && members[1].key.len() == 10 && members[2].key.len() == 5);
    lemma_find_first(members, "address"@, 0);
    lemma_find_first(members, "allocation"@, 1);
    lemma_find_first(members, "denom"@, 2);
}

/// Reading back the JSON of an auction response gives that response: the
/// chain, the height, and the payments all there and in their order.
pub proof fn lemma_auction_response_round_trip(response: AuctionResponseView)
    ensures
        AuctionResponseView::of_json(response.to_json()) == Some(response),
{
    reveal_strlit("chain_id");
    reveal_strlit("height");
    reveal_strlit("payments");
    let members = response.to_json()->Object_0;
    assert(members[0].key.len() == 8 && members[1].key.len() == 6 && members[2].key.len() == 8);
    assert(members[0].key[0] == 'c' && members[2].key[0] == 'p');
    lemma_find_first(members, "chain_id"@, 0);
    lemma_find_first(members, "height"@, 1);
    lemma_find_first(members, "payments"@, 2);
    lemma_decimal_round_trip(response.height as nat);
    let items = payments_json(response.payments)->Array_0;
    assert forall|i: int| 0 <= i < items.len() implies PaymentView::of_json(
        #[trigger] items[i],
    ) == Some(response.payments[i]) by {
        lemma_payment_round_trip(response.payments[i]);
    }
    assert(Seq::new(items.len(), |i: int| PaymentView::of_json(items[i])->Some_0)
        =~= response.payments);
}

} // verus!
