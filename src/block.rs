//! Decoding and rendering of whole blocks.
use vstd::prelude::*;

use pallas::ledger::traverse::MultiEraBlock;

use crate::hex_text::{bytes_of_hex, decode_hex, hex_of, is_hex_text};
use crate::ledger::{
    block_era_name, block_hash, block_header_slot, block_txs, decode_block, decodes_as_block,
    tx_bytes, tx_hash,
};
use crate::params::{decimal_of, decimal_u64};
use crate::render::has_topic;
use crate::section::{attr_is, section_topics, text_of, Section};
use crate::validate::error_text;

verus! {

/// Where a block's header places it in time: an absolute slot for
/// Shelley-or-later headers, an epoch and the slot within it for Byron
/// headers, and the epoch an epoch-boundary header opens.
pub enum HeaderSlot {
    Absolute(u64),
    InEpoch(u64, u64),
    EpochStart(u64),
}

/// The slots of a Byron epoch on the chain whose genesis the codec assumes.
pub const BYRON_EPOCH_SLOTS: u64 = 21600;

/// The epoch at which Shelley began on that chain.
pub const SHELLEY_START_EPOCH: u64 = 208;

/// The slots of a Shelley epoch on that chain.
pub const SHELLEY_EPOCH_SLOTS: u64 = 432000;

/// The absolute slot of an epoch and a slot within it: Byron epochs hold
/// 21600 slots, and from epoch 208 on, Shelley epochs hold 432000.
pub open spec fn absolute_slot(epoch: int, slot: int) -> int {
    if epoch < SHELLEY_START_EPOCH {
        epoch * BYRON_EPOCH_SLOTS + slot
    } else {
        SHELLEY_START_EPOCH * BYRON_EPOCH_SLOTS + (epoch - SHELLEY_START_EPOCH) * SHELLEY_EPOCH_SLOTS
            + slot
    }
}

/// The absolute slot a header gives, where it fits in a `u64`.
pub open spec fn header_slot(h: HeaderSlot) -> Option<u64> {
    let v = match h {
        HeaderSlot::Absolute(s) => s as int,
        HeaderSlot::InEpoch(e, s) => absolute_slot(e as int, s as int),
        HeaderSlot::EpochStart(e) => absolute_slot(e as int, 0),
    };
    if v <= u64::MAX {
        Some(v as u64)
    } else {
        None
    }
}

/// The absolute slot of a header, where it fits in a `u64`.
pub fn slot_of_header(h: &HeaderSlot) -> (r: Option<u64>)
    ensures
        r == header_slot(*h),
{
    let (epoch, slot): (u64, u64) = match h {
        HeaderSlot::Absolute(s) => {
            return Some(*s);
        },
        HeaderSlot::InEpoch(e, s) => (*e, *s),
        HeaderSlot::EpochStart(e) => (*e, 0),
    };
    let e = epoch as u128;
    let v: u128 = if epoch < SHELLEY_START_EPOCH {
        e * (BYRON_EPOCH_SLOTS as u128) + slot as u128
    } else {
        proof {
            assert((e - SHELLEY_START_EPOCH) * (SHELLEY_EPOCH_SLOTS as int) <= (u64::MAX as int) * 432000)
                by (nonlinear_arith)
                requires
                    e <= u64::MAX,
                    e >= SHELLEY_START_EPOCH,
            ;
        }
        (SHELLEY_START_EPOCH as u128) * (BYRON_EPOCH_SLOTS as u128) + (e - SHELLEY_START_EPOCH as u128)
            * (SHELLEY_EPOCH_SLOTS as u128) + slot as u128
    };
    if v <= u64::MAX as u128 {
        Some(v as u64)
    } else {
        None
    }
}

/// What the renderer shows of a block: its era, its place in time, its hash,
/// and each transaction's hash and bytes, in order.
pub struct BlockView {
    pub era: String,
    pub slot: HeaderSlot,
    pub hash: String,
    pub txs: Vec<(String, Vec<u8>)>,
}

/// The section of one transaction of a block: its bytes and its hash.
pub open spec fn is_block_tx_section(r: Section, hash: Seq<char>, bytes: Seq<u8>) -> bool {
    &&& has_topic(r, "block_tx"@)
    &&& r.error is None
    &&& text_of(r.bytes) == Some(hex_of(bytes))
    &&& r.attributes@.len() == 1
    &&& attr_is(r.attributes@[0], "tx_hash"@, Some(hash))
    &&& r.children@.len() == 0
}

/// The section of one transaction of a block, from its hash and bytes.
pub fn block_tx_section(hash: String, bytes: &Vec<u8>) -> (r: Section)
    ensures
        is_block_tx_section(r, hash@, bytes@),
{
    let r = Section::new().with_topic("block_tx").with_bytes(bytes.as_slice()).with_attr("tx_hash", hash);
    proof {
        assert(r.attributes@[0] == r.attributes@.last());
    }
    r
}

/// The topics of a rendered block's sections.
pub open spec fn block_child_topics() -> Seq<Option<Seq<char>>> {
    seq![Some("block_header"@), Some("block_body"@)]
}

/// The section of a block's view: a header with era, absolute slot (absent
/// when it does not fit a `u64`) and hash, and a body with one section per
/// transaction, in order.
pub open spec fn is_block_section(r: Section, v: BlockView) -> bool {
    let header = r.children@[0];
    let body = r.children@[1];
    &&& has_topic(r, "block"@)
    &&& r.error is None
    &&& section_topics(r.children@) == block_child_topics()
    &&& header.attributes@.len() == 3
    &&& attr_is(header.attributes@[0], "era"@, Some(v.era@))
    &&& attr_is(
        header.attributes@[1],
        "slot"@,
        match header_slot(v.slot) {
            Some(n) => Some(decimal_of(n as nat)),
            None => None,
        },
    )
    &&& attr_is(header.attributes@[2], "hash"@, Some(v.hash@))
    &&& body.children@.len() == v.txs@.len()
    &&& forall|i: int|
        0 <= i < v.txs@.len() ==> is_block_tx_section(
            #[trigger] body.children@[i],
            v.txs@[i].0@,
            v.txs@[i].1@,
        )
}

/// Renders a block's view.
pub fn block_section(v: &BlockView) -> (r: Section)
    ensures
        is_block_section(r, *v),
{
    let slot = match slot_of_header(&v.slot) {
        Some(n) => Some(decimal_u64(n)),
        None => None,
    };
    let header = Section::new().with_topic("block_header").with_attr("era", v.era.clone())
        .with_maybe_attr("slot", slot).with_attr("hash", v.hash.clone());
    let mut sections: Vec<Section> = Vec::new();
    let mut i: usize = 0;
    while i < v.txs.len()
        invariant
            i <= v.txs@.len(),
            sections@.len() == i,
            forall|j: int|
                0 <= j < i ==> is_block_tx_section(#[trigger] sections@[j], v.txs@[j].0@, v.txs@[j].1@),
        decreases v.txs@.len() - i,
    {
        sections.push(block_tx_section(v.txs[i].0.clone(), &v.txs[i].1));
        i = i + 1;
    }
    let body = Section::new().with_topic("block_body").collect_children(sections);
    let r = Section::new().with_topic("block").build_child(header).build_child(body);
    proof {
        assert(section_topics(r.children@) =~= block_child_topics());
        assert(r.children@[0] == header);
        assert(r.children@[1] == body);
        assert(header.attributes@.take(2).take(1)[0] == header.attributes@[0]);
        assert(header.attributes@.take(2)[1] == header.attributes@[1]);
    }
    r
}

/// Reads what the renderer shows of a decoded block.
pub fn block_view(b: &MultiEraBlock) -> (r: BlockView) {
    let txs = block_txs(b);
    let mut out: Vec<(String, Vec<u8>)> = Vec::new();
    let mut i: usize = 0;
    while i < txs.len()
        invariant
            i <= txs@.len(),
        decreases txs@.len() - i,
    {
        out.push((tx_hash(&txs[i]), tx_bytes(&txs[i])));
        i = i + 1;
    }
    BlockView { era: block_era_name(b), slot: block_header_slot(b), hash: block_hash(b), txs: out }
}

/// Decodes a block given as hexadecimal text and renders its header (era,
/// slot, hash) and one section per transaction. A failure to decode sets
/// the root's error and leaves it without children; the result is never
/// an `Err`.
pub fn parse(raw: String) -> (r: Result<Section, Section>)
    ensures
        r matches Ok(s) && block_tree(s, raw@),
{
    Ok(render_block(raw))
}

/// Decodes and renders a block; see [`parse`].
pub fn safe_parse_block(raw: String) -> (r: Section)
    ensures
        block_tree(r, raw@),
{
    match parse(raw) {
        Ok(x) => x,
        Err(x) => x,
    }
}

/// What the tree of a block given as `raw` holds: an error root with
/// nothing else when the text is not hexadecimal or the codec rejects the
/// bytes, and otherwise a root holding the section of the block's view.
pub open spec fn block_tree(r: Section, raw: Seq<char>) -> bool {
    &&& has_topic(r, "cbor_parse"@)
    &&& (r.error is Some ==> r.children@.len() == 0 && r.attributes@.len() == 0
        && r.error.unwrap()@.len() > 0)
    &&& (r.error is None <==> is_hex_text(raw) && decodes_as_block(bytes_of_hex(raw)))
    &&& (r.error is None ==> r.children@.len() == 1 && exists|v: BlockView|
        is_block_section(r.children@[0], v))
}

fn render_block(raw: String) -> (r: Section)
    ensures
        block_tree(r, raw@),
{
    let root = Section::new().with_topic("cbor_parse");
    match decode_hex(raw.as_str()) {
        Err(e) => root.try_build_child(Err(error_text(e))),
        Ok(cbor) => match decode_block(cbor.as_slice()) {
            Err(e) => root.try_build_child(Err(error_text(e))),
            Ok(block) => {
                let v = block_view(&block);
                let child = block_section(&v);
                let r = root.try_build_child(Ok(child));
                proof {
                    assert(r.children@[0] == child);
                    assert(is_block_section(r.children@[0], v));
                }
                r
            },
        },
    }
}

} // verus!
