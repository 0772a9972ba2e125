use vstd::prelude::*;
use crate::json::{JsonV, JsonValue, field_of, model_items};

verus! {

/// Model of one ladder rung: price and size as decimal text.
pub struct LevelV {
    pub px: Seq<char>,
    pub sz: Seq<char>,
}

/// Model of one market's top-of-book state.
pub struct SnapV {
    pub coin: Seq<char>,
    pub asks: Seq<LevelV>,
    pub bids: Seq<LevelV>,
}

/// One rung of an order-book ladder: price and size, both kept as the
/// decimal text in which the feed transmits them.
pub struct PriceLevel {
    pub px: String,
    pub sz: String,
}

impl PriceLevel {
    pub open spec fn model(self) -> LevelV {
        LevelV { px: self.px@, sz: self.sz@ }
    }
}

/// One market's current book: ask levels ascending by price (best first),
/// bid levels descending by price (best first), as the feed documents them.
/// Each inbound frame carries a full replacement, never a delta.
pub struct OrderBookSnapshot {
    pub instrument: String,
    pub asks: Vec<PriceLevel>,
    pub bids: Vec<PriceLevel>,
}

impl OrderBookSnapshot {
    pub open spec fn model(self) -> SnapV {
        SnapV {
            coin: self.instrument@,
            asks: self.asks@.map_values(|l: PriceLevel| l.model()),
            bids: self.bids@.map_values(|l: PriceLevel| l.model()),
        }
    }
}

/// The ladder rung a tree denotes: an object whose "px" and "sz" fields
/// are strings. Extra fields are ignored.
pub open spec fn level_of(v: JsonV) -> Option<LevelV> {
    match (field_of(v, "px"@), field_of(v, "sz"@)) {
        (Some(JsonV::Str(px)), Some(JsonV::Str(sz))) => Some(LevelV { px, sz }),
        _ => None,
    }
}

/// The ladder a sequence of trees denotes; `None` as soon as one element
/// is not a well-shaped rung.
pub open spec fn levels_of(items: Seq<JsonV>) -> Option<Seq<LevelV>>
    decreases items.len(),
{
    if items.len() == 0 {
        Some(Seq::empty())
    } else {
        match (level_of(items[0]), levels_of(items.skip(1))) {
            (Some(l), Some(rest)) => Some(seq![l] + rest),
            _ => None,
        }
    }
}

/// The snapshot a payload tree denotes: an object whose "coin" field is a
/// string and whose "asks" and "bids" fields are arrays of rungs. Extra
/// fields (sequence numbers, timestamps) are ignored.
pub open spec fn snapshot_of(v: JsonV) -> Option<SnapV> {
    match (field_of(v, "coin"@), field_of(v, "asks"@), field_of(v, "bids"@)) {
        (Some(JsonV::Str(coin)), Some(JsonV::Arr(asks)), Some(JsonV::Arr(bids))) => match (
            levels_of(asks),
            levels_of(bids),
        ) {
            (Some(a), Some(b)) => Some(SnapV { coin, asks: a, bids: b }),
            _ => None,
        },
        _ => None,
    }
}

proof fn lemma_levels_of_all(items: Seq<JsonV>, ls: Seq<LevelV>)
    requires
        ls.len() == items.len(),
        forall|j: int| 0 <= j < items.len() ==> level_of(items[j]) == Some(ls[j]),
    ensures
        levels_of(items) == Some(ls),
    decreases items.len(),
{
    if items.len() > 0 {
        lemma_levels_of_all(items.skip(1), ls.skip(1));
        assert(seq![ls[0]] + ls.skip(1) =~= ls);
    } else {
        assert(ls =~= Seq::<LevelV>::empty());
    }
}

proof fn lemma_levels_of_bad(items: Seq<JsonV>, k: int)
    requires
        0 <= k < items.len(),
        level_of(items[k]) is None,
    ensures
        levels_of(items) is None,
    decreases items.len(),
{
    if k > 0 {
        lemma_levels_of_bad(items.skip(1), k - 1);
    }
}

/// Decodes one rung; `None` exactly where the tree is not a rung.
pub fn decode_level(v: &JsonValue) -> (r: Option<PriceLevel>)
    ensures
        match r {
            Some(l) => level_of(v.model()) == Some(l.model()),
            None => level_of(v.model()) is None,
        },
{
    let pxv = v.get_field("px");
    let szv = v.get_field("sz");
    match (pxv, szv) {
        (Some(JsonValue::Str(px)), Some(JsonValue::Str(sz))) => Some(
            PriceLevel { px: px.clone(), sz: sz.clone() },
        ),
        _ => None,
    }
}

/// Decodes a ladder; `None` exactly where some element is not a rung.
pub fn decode_levels(items: &Vec<JsonValue>) -> (r: Option<Vec<PriceLevel>>)
    ensures
        match r {
            Some(ls) => levels_of(model_items(items@)) == Some(
                ls@.map_values(|l: PriceLevel| l.model()),
            ),
            None => levels_of(model_items(items@)) is None,
        },
{
    proof {
        crate::json::lemma_model_items(items@);
    }
    let ghost mis = model_items(items@);
    let mut out: Vec<PriceLevel> = Vec::new();
    let mut i: usize = 0;
    while i < items.len()
        invariant
            mis == model_items(items@),
            mis.len() == items@.len(),
            forall|j: int| 0 <= j < items@.len() ==> mis[j] == items@[j].model(),
            0 <= i <= items@.len(),
            out@.len() == i,
            forall|j: int| 0 <= j < i ==> level_of(mis[j]) == Some(out@[j].model()),
        decreases items@.len() - i,
    {
        match decode_level(&items[i]) {
            Some(l) => {
                out.push(l);
            },
            None => {
                proof {
                    lemma_levels_of_bad(mis, i as int);
                }
                return None;
            },
        }
        i = i + 1;
    }
    proof {
        let lvs = out@.map_values(|l: PriceLevel| l.model());
        lemma_levels_of_all(mis, lvs);
    }
    Some(out)
}

/// Decodes the candidate payload into a snapshot; `None` exactly where
/// its shape does not match.
pub fn decode_snapshot(v: &JsonValue) -> (r: Option<OrderBookSnapshot>)
    ensures
        match r {
            Some(s) => snapshot_of(v.model()) == Some(s.model()),
            None => snapshot_of(v.model()) is None,
        },
{
    let coinv = v.get_field("coin");
    let asksv = v.get_field("asks");
    let bidsv = v.get_field("bids");
    match (coinv, asksv, bidsv) {
        (
            Some(JsonValue::Str(coin)),
            Some(JsonValue::Arr(asks)),
            Some(JsonValue::Arr(bids)),
        ) => {
            let asks_l = decode_levels(asks);
            let bids_l = decode_levels(bids);
            match (asks_l, bids_l) {
                (Some(a), Some(b)) => Some(
                    OrderBookSnapshot { instrument: coin.clone(), asks: a, bids: b },
                ),
                _ => None,
            }
        },
        _ => None,
    }
}

} // verus!
