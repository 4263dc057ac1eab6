//! The structure renderer: a diagnostic tree for a decoded transaction.
//!
//! What the renderer shows of a transaction is first read into plain views
//! ([`TxView`], [`OutputView`], ...); the trees are then built from the views,
//! and their contracts say exactly what each tree holds of its view.
use vstd::prelude::*;

use pallas::codec::utils::KeepRaw;
use pallas::ledger::primitives::alonzo::PlutusData;
use pallas::ledger::traverse::{MultiEraOutput, MultiEraPolicyAssets, MultiEraTx};

use crate::hex_text::{encode_hex, hex_of};
use crate::ledger::{
    address_text, asset_ascii_name, asset_mint_coin, asset_name, asset_output_coin, blake2b_224, blake2b_224_of,
    datum_bytes, datum_hash, datum_json, metadatum_view, output_address, output_assets,
    output_bytes, output_datum_hash, output_inline_datum, output_lovelace, policy_assets,
    policy_id, tx_collateral, tx_collateral_return, tx_era_name, tx_fee, tx_hash, tx_inputs,
    tx_metadata, tx_mints, tx_outputs, tx_plutus_data, tx_plutus_v1_scripts,
    tx_plutus_v2_scripts, tx_plutus_v3_scripts, tx_reference_inputs, tx_total_collateral,
    tx_ttl, tx_validity_start, tx_vkey_witnesses,
};
use crate::params::{decimal_i64, decimal_of, decimal_u64, signed_decimal_of};
use crate::section::{attr_is, attr_topics, section_topics, text_of, Attribute, Section};

verus! {

/// A metadata value as the renderer shows it: scalars as they are, composite
/// values by kind only.
pub enum MetadatumView {
    Int(String),
    Bytes(Vec<u8>),
    Text(String),
    Array,
    KeyValueMap,
}

/// One asset under a policy: its name's bytes, the name as text when it is
/// valid UTF-8, the minted (or, negative, burned) quantity of a minted
/// asset and the quantity an output holds of a held one.
pub struct AssetView {
    pub name: Vec<u8>,
    pub ascii: Option<String>,
    pub minted: Option<i64>,
    pub held: Option<u64>,
}

/// The quantity an asset section shows.
pub open spec fn asset_quantity_text(a: AssetView) -> Option<Seq<char>> {
    match a.minted {
        Some(c) => Some(signed_decimal_of(c as int)),
        None => match a.held {
            Some(h) => Some(decimal_of(h as nat)),
            None => None,
        },
    }
}

/// The assets of one policy, in order.
pub struct PolicyView {
    pub policy: String,
    pub assets: Vec<AssetView>,
}

/// A datum: its bytes, computed hash and JSON projection.
pub struct DatumView {
    pub bytes: Vec<u8>,
    pub hash: String,
    pub json: String,
}

/// The datum of an output: by hash, or inline.
pub enum OutputDatum {
    Hash(String),
    Inline(DatumView),
}

/// What the renderer shows of an output: its bytes, its address (or why it
/// could not be read), its base-currency amount, its datum and its assets.
pub struct OutputView {
    pub bytes: Vec<u8>,
    pub address: Result<String, String>,
    pub lovelace: u64,
    pub datum: Option<OutputDatum>,
    pub assets: Vec<PolicyView>,
}

/// What the renderer shows of a transaction.
pub struct TxView {
    pub era: String,
    pub hash: String,
    pub fee: Option<u64>,
    pub start: Option<u64>,
    pub ttl: Option<u64>,
    pub inputs: Vec<Option<(String, u64)>>,
    pub collateral: Vec<(String, u64)>,
    pub total_collateral: Option<u64>,
    pub collateral_return: Option<OutputView>,
    pub outputs: Vec<OutputView>,
    pub reference_inputs: Vec<(String, u64)>,
    pub mints: Vec<PolicyView>,
    pub metadata: Vec<(u64, MetadatumView)>,
    pub vkey_witnesses: Vec<(Vec<u8>, Vec<u8>)>,
    pub datums: Vec<DatumView>,
    pub v1_scripts: Vec<Vec<u8>>,
    pub v2_scripts: Vec<Vec<u8>>,
    pub v3_scripts: Vec<Vec<u8>>,
}

/// The names of the sections of one grouping of assets.
pub struct AssetTopics {
    pub policy: &'static str,
    pub policy_attr: &'static str,
    pub assets: &'static str,
    pub asset: &'static str,
}

/// Section `s` has topic `t`.
pub open spec fn has_topic(s: Section, t: Seq<char>) -> bool {
    text_of(s.topic) == Some(t)
}

/// Section `s` has topic `t`, no identity, error or bytes, attributes `a`
/// and no children.
pub open spec fn is_leaf(s: Section, t: Seq<char>) -> bool {
    &&& has_topic(s, t)
    &&& s.identity is None
    &&& s.error is None
    &&& s.bytes is None
    &&& s.children@.len() == 0
}

/// Optional decimal text of an optional `u64`.
pub open spec fn opt_decimal(v: Option<u64>) -> Option<Seq<char>> {
    match v {
        Some(n) => Some(decimal_of(n as nat)),
        None => None,
    }
}

/// How a metadata value is shown: an integer in decimal, bytes in
/// hexadecimal, text as it is, and a placeholder for composite values.
pub open spec fn metadatum_text(m: MetadatumView) -> Seq<char> {
    match m {
        MetadatumView::Int(s) => s@,
        MetadatumView::Bytes(b) => hex_of(b@),
        MetadatumView::Text(t) => t@,
        MetadatumView::Array => "[Array]"@,
        MetadatumView::KeyValueMap => "[Map]"@,
    }
}

/// The section of one input reference.
pub open spec fn is_input_section(s: Section, topic: Seq<char>, r: (String, u64)) -> bool {
    &&& is_leaf(s, topic)
    &&& s.attributes@.len() == 2
    &&& attr_is(s.attributes@[0], "tx_input_hash"@, Some(r.0@))
    &&& attr_is(s.attributes@[1], "tx_input_index"@, Some(decimal_of(r.1 as nat)))
}

/// The section of an input: its reference, or for an input of a
/// non-standard kind, which carries none, the topic and an error alone.
pub open spec fn is_input_entry_section(s: Section, topic: Seq<char>, r: Option<(String, u64)>) -> bool {
    match r {
        Some(p) => is_input_section(s, topic, p),
        None => has_topic(s, topic) && text_of(s.error) == Some(nonstandard_input_text())
            && s.bytes is None && s.identity is None && s.attributes@.len() == 0
            && s.children@.len() == 0,
    }
}

/// The error of an input of a non-standard kind.
pub open spec fn nonstandard_input_text() -> Seq<char> {
    "input of a non-standard kind: no reference to show"@
}

/// One input section per input, in order.
pub open spec fn are_input_entry_sections(s: Seq<Section>, topic: Seq<char>, refs: Seq<Option<(String, u64)>>) -> bool {
    s.len() == refs.len() && forall|i: int|
        0 <= i < s.len() ==> is_input_entry_section(#[trigger] s[i], topic, refs[i])
}

/// One input section per reference, in order.
pub open spec fn are_input_sections(s: Seq<Section>, topic: Seq<char>, refs: Seq<(String, u64)>) -> bool {
    s.len() == refs.len() && forall|i: int|
        0 <= i < s.len() ==> is_input_section(#[trigger] s[i], topic, refs[i])
}

/// The section of one asset.
pub open spec fn is_asset_section(s: Section, topic: Seq<char>, a: AssetView) -> bool {
    &&& is_leaf(s, topic)
    &&& s.attributes@.len() == 3
    &&& attr_is(s.attributes@[0], "tx_mint_policy_asset_name"@, Some(hex_of(a.name@)))
    &&& attr_is(s.attributes@[1], "tx_mint_policy_asset_name_ascii"@, text_of(a.ascii))
    &&& attr_is(s.attributes@[2], "tx_mint_policy_asset_coint"@, asset_quantity_text(a))
}

/// The section of one policy: its id, then one section holding one section
/// per asset, in order.
pub open spec fn is_policy_section(s: Section, t: AssetTopics, p: PolicyView) -> bool {
    &&& has_topic(s, t.policy@)
    &&& s.error is None
    &&& s.bytes is None
    &&& s.attributes@.len() == 1
    &&& attr_is(s.attributes@[0], t.policy_attr@, Some(p.policy@))
    &&& s.children@.len() == 1
    &&& has_topic(s.children@[0], t.assets@)
    &&& s.children@[0].attributes@.len() == 0
    &&& s.children@[0].children@.len() == p.assets@.len()
    &&& forall|j: int|
        0 <= j < p.assets@.len() ==> is_asset_section(
            #[trigger] s.children@[0].children@[j],
            t.asset@,
            p.assets@[j],
        )
}

/// One policy section per policy, in order.
pub open spec fn are_policy_sections(s: Seq<Section>, t: AssetTopics, p: Seq<PolicyView>) -> bool {
    s.len() == p.len() && forall|i: int|
        0 <= i < s.len() ==> is_policy_section(#[trigger] s[i], t, p[i])
}

/// The topics of the sections of an output's assets.
pub open spec fn output_asset_topics() -> AssetTopics {
    AssetTopics {
        policy: "tx_output_asset_policy",
        policy_attr: "tx_output_asset_policy_id",
        assets: "tx_output_asset_policy_assets",
        asset: "tx_output_asset_policy_asset",
    }
}

/// The topics of the sections of minted assets.
pub open spec fn mint_topics() -> AssetTopics {
    AssetTopics {
        policy: "tx_mint_policy",
        policy_attr: "tx_mint_policy_id",
        assets: "tx_mint_policy_assets",
        asset: "tx_mint_policy_asset",
    }
}

/// The section of a datum held inline.
pub open spec fn is_datum_section(s: Section, d: DatumView) -> bool {
    &&& has_topic(s, "tx_datum"@)
    &&& s.error is None
    &&& text_of(s.bytes) == Some(hex_of(d.bytes@))
    &&& s.attributes@.len() == 2
    &&& attr_is(s.attributes@[0], "tx_datum_hash"@, Some(d.hash@))
    &&& attr_is(s.attributes@[1], "tx_datum_json"@, Some(d.json@))
    &&& s.children@.len() == 0
}

/// The section of an output's datum.
pub open spec fn is_output_datum_section(s: Section, d: OutputDatum) -> bool {
    match d {
        OutputDatum::Hash(h) => is_leaf(s, "tx_output_datum"@) && s.attributes@.len() == 1
            && attr_is(s.attributes@[0], "tx_output_datum_hash"@, Some(h@)),
        OutputDatum::Inline(v) => is_datum_section(s, v),
    }
}

/// The section of an output: its bytes, its address, its amount in
/// decimal, its datum if any, and its assets by policy. An output whose
/// address cannot be read shows as its topic and that error alone.
pub open spec fn is_output_section(s: Section, v: OutputView) -> bool {
    match v.address {
        Err(e) => has_topic(s, "output"@) && text_of(s.error) == Some(e@) && s.bytes is None
            && s.identity is None && s.attributes@.len() == 0 && s.children@.len() == 0,
        Ok(a) => {
            &&& has_topic(s, "output"@)
            &&& s.error is None
            &&& text_of(s.bytes) == Some(hex_of(v.bytes@))
            &&& s.attributes@.len() == 2
            &&& attr_is(s.attributes@[0], "tx_output_address"@, Some(a@))
            &&& attr_is(s.attributes@[1], "tx_output_lovelace"@, Some(decimal_of(v.lovelace as nat)))
            &&& s.children@.len() == if v.datum is Some {
                2int
            } else {
                1
            }
            &&& (v.datum matches Some(d) ==> is_output_datum_section(s.children@[0], d))
            &&& has_topic(s.children@.last(), "tx_output_assets"@)
            &&& are_policy_sections(s.children@.last().children@, output_asset_topics(), v.assets@)
        },
    }
}

/// The topic of a script section of a given language version.
pub open spec fn script_topic(version: Seq<char>) -> Seq<char> {
    "plutus_"@ + version + "_script"@
}

/// The section of a key witness.
pub open spec fn is_vkey_section(s: Section, w: (Vec<u8>, Vec<u8>)) -> bool {
    &&& is_leaf(s, "vkey_witness"@)
    &&& s.attributes@.len() == 3
    &&& attr_is(s.attributes@[0], "vkey_witness_key"@, Some(hex_of(w.0@)))
    &&& attr_is(s.attributes@[1], "vkey_witness_key_hash"@, Some(hex_of(blake2b_224_of(w.0@))))
    &&& attr_is(s.attributes@[2], "vkey_witness_signature"@, Some(hex_of(w.1@)))
}

/// The section of a script of a given version.
pub open spec fn is_script_section(s: Section, version: Seq<char>, b: Vec<u8>) -> bool {
    &&& has_topic(s, script_topic(version))
    &&& text_of(s.bytes) == Some(hex_of(b@))
    &&& s.error is None
    &&& s.attributes@.len() == 0
    &&& s.children@.len() == 0
}

/// The witness sections: key witnesses, datums, then scripts of versions
/// one, two and three, each group in order.
pub open spec fn are_witness_sections(s: Seq<Section>, v: TxView) -> bool {
    let nk = v.vkey_witnesses@.len();
    let nd = v.datums@.len();
    let n1 = v.v1_scripts@.len();
    let n2 = v.v2_scripts@.len();
    let n3 = v.v3_scripts@.len();
    &&& s.len() == nk + nd + n1 + n2 + n3
    &&& forall|i: int| 0 <= i < nk ==> is_vkey_section(#[trigger] s[i], v.vkey_witnesses@[i])
    &&& forall|i: int| 0 <= i < nd ==> is_datum_section(#[trigger] s[nk + i], v.datums@[i])
    &&& forall|i: int|
        0 <= i < n1 ==> is_script_section(#[trigger] s[nk + nd + i], "v1"@, v.v1_scripts@[i])
    &&& forall|i: int|
        0 <= i < n2 ==> is_script_section(#[trigger] s[nk + nd + n1 + i], "v2"@, v.v2_scripts@[i])
    &&& forall|i: int|
        0 <= i < n3 ==> is_script_section(
            #[trigger] s[nk + nd + n1 + n2 + i],
            "v3"@,
            v.v3_scripts@[i],
        )
}

/// The section of one metadata entry.
pub open spec fn is_metadatum_section(s: Section, e: (u64, MetadatumView)) -> bool {
    &&& is_leaf(s, "tx_metadatum"@)
    &&& s.attributes@.len() == 2
    &&& attr_is(s.attributes@[0], "tx_metadata_label"@, Some(decimal_of(e.0 as nat)))
    &&& attr_is(s.attributes@[1], "tx_metadatum_value"@, Some(metadatum_text(e.1)))
}

/// The section of a transaction: era, hash, fee and validity bounds, then
/// its inputs, collateral, outputs, reference inputs, mints, metadata and
/// witnesses.
pub open spec fn is_tx_section(s: Section, v: TxView) -> bool {
    let c = s.children@;
    &&& has_topic(s, "tx"@)
    &&& s.error is None
    &&& s.attributes@.len() == 5
    &&& attr_is(s.attributes@[0], "era"@, Some(v.era@))
    &&& attr_is(s.attributes@[1], "tx_hash"@, Some(v.hash@))
    &&& attr_is(s.attributes@[2], "fee"@, opt_decimal(v.fee))
    &&& attr_is(s.attributes@[3], "start"@, opt_decimal(v.start))
    &&& attr_is(s.attributes@[4], "ttl"@, opt_decimal(v.ttl))
    &&& section_topics(c) == tx_child_topics()
    &&& are_input_entry_sections(c[0].children@, "input"@, v.inputs@)
    &&& c[1].attributes@.len() == 1
    &&& attr_is(c[1].attributes@[0], "tx_total_collateral"@, opt_decimal(v.total_collateral))
    &&& are_input_sections(c[1].children@.take(v.collateral@.len() as int), "collateral"@, v.collateral@)
    &&& c[1].children@.len() == v.collateral@.len() + if v.collateral_return is Some {
        1int
    } else {
        0
    }
    &&& (v.collateral_return matches Some(o) ==> is_output_section(c[1].children@.last(), o))
    &&& c[2].children@.len() == v.outputs@.len()
    &&& forall|i: int|
        0 <= i < v.outputs@.len() ==> is_output_section(#[trigger] c[2].children@[i], v.outputs@[i])
    &&& are_input_sections(c[3].children@, "tx_reference_input"@, v.reference_inputs@)
    &&& are_policy_sections(c[4].children@, mint_topics(), v.mints@)
    &&& c[5].children@.len() == v.metadata@.len()
    &&& forall|i: int|
        0 <= i < v.metadata@.len() ==> is_metadatum_section(#[trigger] c[5].children@[i], v.metadata@[i])
    &&& are_witness_sections(c[6].children@, v)
}

/// The topics of a rendered transaction's attributes, in order.
pub open spec fn tx_attr_topics() -> Seq<Option<Seq<char>>> {
    seq![Some("era"@), Some("tx_hash"@), Some("fee"@), Some("start"@), Some("ttl"@)]
}

/// The topics of a rendered transaction's sections, in order.
pub open spec fn tx_child_topics() -> Seq<Option<Seq<char>>> {
    seq![
        Some("tx_inputs"@),
        Some("tx_collateral"@),
        Some("tx_outputs"@),
        Some("tx_reference_inputs"@),
        Some("tx_mints"@),
        Some("tx_metadata"@),
        Some("tx_witnesses"@),
    ]
}

/// An attribute.
fn attr(topic: &str, value: Option<String>) -> (a: Attribute)
    ensures
        attr_is(a, topic@, text_of(value)),
{
    Attribute { topic: Some(topic.to_string()), value }
}

/// A section with a topic, optional bytes, attributes and children, and no
/// identity or error.
fn section(topic: &str, bytes: Option<String>, attributes: Vec<Attribute>, children: Vec<Section>) -> (s: Section)
    ensures
        has_topic(s, topic@),
        s.identity is None,
        s.error is None,
        s.bytes == bytes,
        s.attributes@ == attributes@,
        s.children@ == children@,
{
    Section { topic: Some(topic.to_string()), identity: None, error: None, attributes, bytes, children }
}

/// Optional decimal text of an optional `u64`.
fn opt_text(v: Option<u64>) -> (r: Option<String>)
    ensures
        text_of(r) == opt_decimal(v),
{
    match v {
        Some(x) => Some(decimal_u64(x)),
        None => None,
    }
}

/// Shows a metadata value.
pub fn print_metadatum(m: &MetadatumView) -> (r: String)
    ensures
        r@ == metadatum_text(*m),
{
    match m {
        MetadatumView::Int(s) => s.clone(),
        MetadatumView::Bytes(b) => encode_hex(b.as_slice()),
        MetadatumView::Text(t) => t.clone(),
        MetadatumView::Array => String::from_str("[Array]"),
        MetadatumView::KeyValueMap => String::from_str("[Map]"),
    }
}

/// A section for one input reference.
pub fn generic_tx_input_section(topic: &str, hash: String, index: u64) -> (r: Section)
    ensures
        is_input_section(r, topic@, (hash, index)),
{
    let mut attributes: Vec<Attribute> = Vec::new();
    attributes.push(attr("tx_input_hash", Some(hash)));
    attributes.push(attr("tx_input_index", Some(decimal_u64(index))));
    section(topic, None, attributes, Vec::new())
}

/// One section per input reference, in order.
fn input_sections(topic: &str, refs: &Vec<(String, u64)>) -> (r: Vec<Section>)
    ensures
        are_input_sections(r@, topic@, refs@),
{
    let mut out: Vec<Section> = Vec::new();
    let mut i: usize = 0;
    while i < refs.len()
        invariant
            i <= refs@.len(),
            out@.len() == i,
            forall|j: int| 0 <= j < i ==> is_input_section(#[trigger] out@[j], topic@, refs@[j]),
        decreases refs@.len() - i,
    {
        let hash = refs[i].0.clone();
        out.push(generic_tx_input_section(topic, hash, refs[i].1));
        i = i + 1;
    }
    out
}

/// The transaction's inputs; an input of a non-standard kind shows as an
/// error section.
pub fn tx_inputs_section(v: &TxView) -> (r: Section)
    ensures
        has_topic(r, "tx_inputs"@),
        are_input_entry_sections(r.children@, "input"@, v.inputs@),
{
    let mut out: Vec<Section> = Vec::new();
    let mut i: usize = 0;
    while i < v.inputs.len()
        invariant
            i <= v.inputs@.len(),
            out@.len() == i,
            forall|j: int| 0 <= j < i ==> is_input_entry_section(#[trigger] out@[j], "input"@, v.inputs@[j]),
        decreases v.inputs@.len() - i,
    {
        match &v.inputs[i] {
            Some(p) => out.push(generic_tx_input_section("input", p.0.clone(), p.1)),
            None => {
                let mut s = section("input", None, Vec::new(), Vec::new());
                s.error = Some(String::from_str("input of a non-standard kind: no reference to show"));
                out.push(s);
            },
        }
        i = i + 1;
    }
    section("tx_inputs", None, Vec::new(), out)
}

/// The transaction's reference inputs.
pub fn tx_reference_inputs_section(v: &TxView) -> (r: Section)
    ensures
        has_topic(r, "tx_reference_inputs"@),
        are_input_sections(r.children@, "tx_reference_input"@, v.reference_inputs@),
{
    section("tx_reference_inputs", None, Vec::new(), input_sections("tx_reference_input", &v.reference_inputs))
}

/// One asset under a policy.
fn asset_section(topic: &str, a: &AssetView) -> (r: Section)
    ensures
        is_asset_section(r, topic@, *a),
{
    let coin = match a.minted {
        Some(c) => Some(decimal_i64(c)),
        None => match a.held {
            Some(h) => Some(decimal_u64(h)),
            None => None,
        },
    };
    let mut attributes: Vec<Attribute> = Vec::new();
    attributes.push(attr("tx_mint_policy_asset_name", Some(encode_hex(a.name.as_slice()))));
    attributes.push(attr("tx_mint_policy_asset_name_ascii", a.ascii.clone()));
    attributes.push(attr("tx_mint_policy_asset_coint", coin));
    section(topic, None, attributes, Vec::new())
}

/// One section per policy, each holding one section per asset.
fn policy_sections(groups: &Vec<PolicyView>, t: &AssetTopics) -> (r: Vec<Section>)
    ensures
        are_policy_sections(r@, *t, groups@),
{
    let mut out: Vec<Section> = Vec::new();
    let mut i: usize = 0;
    while i < groups.len()
        invariant
            i <= groups@.len(),
            out@.len() == i,
            forall|j: int| 0 <= j < i ==> is_policy_section(#[trigger] out@[j], *t, groups@[j]),
        decreases groups@.len() - i,
    {
        let p = &groups[i];
        let mut children: Vec<Section> = Vec::new();
        let mut k: usize = 0;
        while k < p.assets.len()
            invariant
                k <= p.assets@.len(),
                children@.len() == k,
                forall|j: int|
                    0 <= j < k ==> is_asset_section(#[trigger] children@[j], t.asset@, p.assets@[j]),
            decreases p.assets@.len() - k,
        {
            children.push(asset_section(t.asset, &p.assets[k]));
            k = k + 1;
        }
        let inner = section(t.assets, None, Vec::new(), children);
        let mut attributes: Vec<Attribute> = Vec::new();
        attributes.push(attr(t.policy_attr, Some(p.policy.clone())));
        let mut one: Vec<Section> = Vec::new();
        one.push(inner);
        out.push(section(t.policy, None, attributes, one));
        i = i + 1;
    }
    out
}

/// A datum held inline: its bytes, computed hash and JSON projection.
pub fn tx_plutus_datum_section(d: &DatumView) -> (r: Section)
    ensures
        is_datum_section(r, *d),
{
    let mut attributes: Vec<Attribute> = Vec::new();
    attributes.push(attr("tx_datum_hash", Some(d.hash.clone())));
    attributes.push(attr("tx_datum_json", Some(d.json.clone())));
    section("tx_datum", Some(encode_hex(d.bytes.as_slice())), attributes, Vec::new())
}

/// One output: bytes, address, base-currency amount, optional datum and its
/// assets by policy.
pub fn tx_output_section(v: &OutputView) -> (r: Section)
    ensures
        is_output_section(r, *v),
{
    let address = match &v.address {
        Ok(a) => a.clone(),
        Err(e) => {
            let mut failed = section("output", None, Vec::new(), Vec::new());
            failed.error = Some(e.clone());
            return failed;
        },
    };
    let mut attributes: Vec<Attribute> = Vec::new();
    attributes.push(attr("tx_output_address", Some(address)));
    attributes.push(attr("tx_output_lovelace", Some(decimal_u64(v.lovelace))));
    let mut children: Vec<Section> = Vec::new();
    match &v.datum {
        Some(OutputDatum::Hash(h)) => {
            let mut hash_attr: Vec<Attribute> = Vec::new();
            hash_attr.push(attr("tx_output_datum_hash", Some(h.clone())));
            children.push(section("tx_output_datum", None, hash_attr, Vec::new()));
        },
        Some(OutputDatum::Inline(d)) => {
            children.push(tx_plutus_datum_section(d));
        },
        None => {},
    }
    let topics = AssetTopics {
        policy: "tx_output_asset_policy",
        policy_attr: "tx_output_asset_policy_id",
        assets: "tx_output_asset_policy_assets",
        asset: "tx_output_asset_policy_asset",
    };
    children.push(section("tx_output_assets", None, Vec::new(), policy_sections(&v.assets, &topics)));
    section("output", Some(encode_hex(v.bytes.as_slice())), attributes, children)
}

/// The collateral: total collateral, the collateral inputs, then the
/// collateral-return output if there is one.
pub fn tx_collateral_section(v: &TxView) -> (r: Section)
    ensures
        has_topic(r, "tx_collateral"@),
        r.attributes@.len() == 1,
        attr_is(r.attributes@[0], "tx_total_collateral"@, opt_decimal(v.total_collateral)),
        are_input_sections(r.children@.take(v.collateral@.len() as int), "collateral"@, v.collateral@),
        r.children@.len() == v.collateral@.len() + if v.collateral_return is Some {
            1int
        } else {
            0
        },
        v.collateral_return matches Some(o) ==> is_output_section(r.children@.last(), o),
{
    let mut children = input_sections("collateral", &v.collateral);
    let ghost inputs = children@;
    if let Some(o) = &v.collateral_return {
        children.push(tx_output_section(o));
    }
    proof {
        assert(children@.take(v.collateral@.len() as int) =~= inputs);
    }
    let mut attributes: Vec<Attribute> = Vec::new();
    attributes.push(attr("tx_total_collateral", opt_text(v.total_collateral)));
    section("tx_collateral", None, attributes, children)
}

/// The transaction's outputs, in order.
pub fn tx_outputs_section(v: &TxView) -> (r: Section)
    ensures
        has_topic(r, "tx_outputs"@),
        r.children@.len() == v.outputs@.len(),
        forall|i: int|
            0 <= i < v.outputs@.len() ==> is_output_section(#[trigger] r.children@[i], v.outputs@[i]),
{
    let mut children: Vec<Section> = Vec::new();
    let mut i: usize = 0;
    while i < v.outputs.len()
        invariant
            i <= v.outputs@.len(),
            children@.len() == i,
            forall|j: int| 0 <= j < i ==> is_output_section(#[trigger] children@[j], v.outputs@[j]),
        decreases v.outputs@.len() - i,
    {
        children.push(tx_output_section(&v.outputs[i]));
        i = i + 1;
    }
    section("tx_outputs", None, Vec::new(), children)
}

/// The minted and burned assets, grouped by policy.
pub fn tx_mints_section(v: &TxView) -> (r: Section)
    ensures
        has_topic(r, "tx_mints"@),
        are_policy_sections(r.children@, mint_topics(), v.mints@),
{
    let topics = AssetTopics {
        policy: "tx_mint_policy",
        policy_attr: "tx_mint_policy_id",
        assets: "tx_mint_policy_assets",
        asset: "tx_mint_policy_asset",
    };
    section("tx_mints", None, Vec::new(), policy_sections(&v.mints, &topics))
}

/// One metadata entry: its label and its shown value.
pub fn tx_metadatum_section(label: u64, m: &MetadatumView) -> (r: Section)
    ensures
        is_metadatum_section(r, (label, *m)),
{
    let mut attributes: Vec<Attribute> = Vec::new();
    attributes.push(attr("tx_metadata_label", Some(decimal_u64(label))));
    attributes.push(attr("tx_metadatum_value", Some(print_metadatum(m))));
    section("tx_metadatum", None, attributes, Vec::new())
}

/// The transaction's metadata, one section per label, in order.
pub fn tx_metadata_section(v: &TxView) -> (r: Section)
    ensures
        has_topic(r, "tx_metadata"@),
        r.children@.len() == v.metadata@.len(),
        forall|i: int|
            0 <= i < v.metadata@.len() ==> is_metadatum_section(#[trigger] r.children@[i], v.metadata@[i]),
{
    let mut children: Vec<Section> = Vec::new();
    let mut i: usize = 0;
    while i < v.metadata.len()
        invariant
            i <= v.metadata@.len(),
            children@.len() == i,
            forall|j: int| 0 <= j < i ==> is_metadatum_section(#[trigger] children@[j], v.metadata@[j]),
        decreases v.metadata@.len() - i,
    {
        children.push(tx_metadatum_section(v.metadata[i].0, &v.metadata[i].1));
        i = i + 1;
    }
    section("tx_metadata", None, Vec::new(), children)
}

/// A script as raw bytes, tagged by its language version.
pub fn tx_plutus_script_section(version: &str, script: &[u8]) -> (r: Section)
    ensures
        has_topic(r, script_topic(version@)),
        text_of(r.bytes) == Some(hex_of(script@)),
        r.error is None,
        r.attributes@.len() == 0,
        r.children@.len() == 0,
{
    let topic = String::from_str("plutus_").concat(version).concat("_script");
    section(topic.as_str(), Some(encode_hex(script)), Vec::new(), Vec::new())
}

/// A key witness: the key, the hash of the key and the signature, each in
/// hexadecimal.
pub fn tx_vkey_witnesses_section(vkey: &Vec<u8>, signature: &Vec<u8>) -> (r: Section)
    ensures
        is_vkey_section(r, (*vkey, *signature)),
{
    let key_hash = blake2b_224(vkey.as_slice());
    let mut attributes: Vec<Attribute> = Vec::new();
    attributes.push(attr("vkey_witness_key", Some(encode_hex(vkey.as_slice()))));
    attributes.push(attr("vkey_witness_key_hash", Some(encode_hex(key_hash.as_slice()))));
    attributes.push(attr("vkey_witness_signature", Some(encode_hex(signature.as_slice()))));
    section("vkey_witness", None, attributes, Vec::new())
}

/// Appends one script section per script of a version.
fn push_scripts(out: &mut Vec<Section>, version: &str, scripts: &Vec<Vec<u8>>)
    ensures
        final(out)@.len() == old(out)@.len() + scripts@.len(),
        final(out)@.take(old(out)@.len() as int) == old(out)@,
        forall|i: int|
            0 <= i < scripts@.len() ==> is_script_section(
                #[trigger] final(out)@[old(out)@.len() + i],
                version@,
                scripts@[i],
            ),
{
    let ghost start = out@;
    let mut i: usize = 0;
    while i < scripts.len()
        invariant
            i <= scripts@.len(),
            out@.len() == start.len() + i,
            out@.take(start.len() as int) == start,
            forall|j: int|
                0 <= j < i ==> is_script_section(#[trigger] out@[start.len() + j], version@, scripts@[j]),
        decreases scripts@.len() - i,
    {
        let ghost before = out@;
        out.push(tx_plutus_script_section(version, scripts[i].as_slice()));
        proof {
            assert(out@.take(start.len() as int) =~= before.take(start.len() as int));
        }
        i = i + 1;
    }
}

/// The witness set: key witnesses, datums, then scripts by version.
pub fn tx_witnesses_section(v: &TxView) -> (r: Section)
    ensures
        has_topic(r, "tx_witnesses"@),
        r.attributes@.len() == 0,
        are_witness_sections(r.children@, *v),
{
    let mut out: Vec<Section> = Vec::new();
    let mut i: usize = 0;
    while i < v.vkey_witnesses.len()
        invariant
            i <= v.vkey_witnesses@.len(),
            out@.len() == i,
            forall|j: int| 0 <= j < i ==> is_vkey_section(#[trigger] out@[j], v.vkey_witnesses@[j]),
        decreases v.vkey_witnesses@.len() - i,
    {
        out.push(tx_vkey_witnesses_section(&v.vkey_witnesses[i].0, &v.vkey_witnesses[i].1));
        i = i + 1;
    }
    let nk = out.len();
    let mut k: usize = 0;
    while k < v.datums.len()
        invariant
            k <= v.datums@.len(),
            nk == v.vkey_witnesses@.len(),
            out@.len() == nk + k,
            forall|j: int| 0 <= j < nk ==> is_vkey_section(#[trigger] out@[j], v.vkey_witnesses@[j]),
            forall|j: int| 0 <= j < k ==> is_datum_section(#[trigger] out@[nk + j], v.datums@[j]),
        decreases v.datums@.len() - k,
    {
        out.push(tx_plutus_datum_section(&v.datums[k]));
        k = k + 1;
    }
    let ghost s0 = out@;
    push_scripts(&mut out, "v1", &v.v1_scripts);
    let ghost s1 = out@;
    push_scripts(&mut out, "v2", &v.v2_scripts);
    let ghost s2 = out@;
    push_scripts(&mut out, "v3", &v.v3_scripts);
    proof {
        let nd = v.datums@.len();
        let n1 = v.v1_scripts@.len();
        let n2 = v.v2_scripts@.len();
        assert forall|j: int| 0 <= j < nk implies is_vkey_section(#[trigger] out@[j], v.vkey_witnesses@[j]) by {
            assert(out@[j] == s2[j]);
            assert(s2[j] == s1[j]);
            assert(s1[j] == s0[j]);
        }
        assert forall|j: int| 0 <= j < nd implies is_datum_section(#[trigger] out@[nk + j], v.datums@[j]) by {
            assert(out@[nk + j] == s2[nk + j]);
            assert(s2[nk + j] == s1[nk + j]);
            assert(s1[nk + j] == s0[nk + j]);
        }
        assert forall|j: int| 0 <= j < n1 implies is_script_section(#[trigger] out@[nk + nd + j], "v1"@, v.v1_scripts@[j]) by {
            assert(out@[nk + nd + j] == s2[nk + nd + j]);
            assert(s2[nk + nd + j] == s1[nk + nd + j]);
        }
        assert forall|j: int| 0 <= j < n2 implies is_script_section(#[trigger] out@[nk + nd + n1 + j], "v2"@, v.v2_scripts@[j]) by {
            assert(out@[nk + nd + n1 + j] == s2[nk + nd + n1 + j]);
        }
    }
    section("tx_witnesses", None, Vec::new(), out)
}

/// The tree of a transaction's view: a `tx` section with era, hash, fee and
/// validity bounds and, in order, its inputs, collateral, outputs, reference
/// inputs, mints, metadata and witnesses.
pub fn tx_section(v: &TxView) -> (r: Section)
    ensures
        is_tx_section(r, *v),
{
    let mut attributes: Vec<Attribute> = Vec::new();
    attributes.push(attr("era", Some(v.era.clone())));
    attributes.push(attr("tx_hash", Some(v.hash.clone())));
    attributes.push(attr("fee", opt_text(v.fee)));
    attributes.push(attr("start", opt_text(v.start)));
    attributes.push(attr("ttl", opt_text(v.ttl)));
    let mut children: Vec<Section> = Vec::new();
    children.push(tx_inputs_section(v));
    children.push(tx_collateral_section(v));
    children.push(tx_outputs_section(v));
    children.push(tx_reference_inputs_section(v));
    children.push(tx_mints_section(v));
    children.push(tx_metadata_section(v));
    children.push(tx_witnesses_section(v));
    let r = section("tx", None, attributes, children);
    proof {
        assert(section_topics(r.children@) =~= tx_child_topics());
    }
    r
}

/// Reads a datum.
fn datum_view(d: &KeepRaw<PlutusData>) -> (r: DatumView) {
    DatumView { bytes: datum_bytes(d), hash: datum_hash(d), json: datum_json(d) }
}

/// Reads assets grouped by policy: minted quantities of minted assets, held
/// quantities of assets an output holds.
fn policy_views(groups: &Vec<MultiEraPolicyAssets>) -> (r: Vec<PolicyView>) {
    let mut out: Vec<PolicyView> = Vec::new();
    let mut i: usize = 0;
    while i < groups.len()
        invariant
            i <= groups@.len(),
        decreases groups@.len() - i,
    {
        let assets = policy_assets(&groups[i]);
        let mut views: Vec<AssetView> = Vec::new();
        let mut k: usize = 0;
        while k < assets.len()
            invariant
                k <= assets@.len(),
            decreases assets@.len() - k,
        {
            let a = &assets[k];
            views.push(
                AssetView {
                    name: asset_name(a),
                    ascii: asset_ascii_name(a),
                    minted: asset_mint_coin(a),
                    held: asset_output_coin(a),
                },
            );
            k = k + 1;
        }
        out.push(PolicyView { policy: policy_id(&groups[i]), assets: views });
        i = i + 1;
    }
    out
}

/// Reads an output.
pub fn output_view(o: &MultiEraOutput) -> (r: OutputView) {
    let address = match output_address(o) {
        Ok(a) => Ok(address_text(&a)),
        Err(e) => Err(e),
    };
    let datum = match output_datum_hash(o) {
        Some(h) => Some(OutputDatum::Hash(h)),
        None => match output_inline_datum(o) {
            Some(d) => Some(OutputDatum::Inline(datum_view(&d))),
            None => None,
        },
    };
    let groups = output_assets(o);
    OutputView {
        bytes: output_bytes(o),
        address,
        lovelace: output_lovelace(o),
        datum,
        assets: policy_views(&groups),
    }
}

/// Reads what the renderer shows of a transaction.
pub fn tx_view(tx: &MultiEraTx) -> (r: TxView) {
    let outputs = tx_outputs(tx);
    let mut output_views: Vec<OutputView> = Vec::new();
    let mut i: usize = 0;
    while i < outputs.len()
        invariant
            i <= outputs@.len(),
        decreases outputs@.len() - i,
    {
        output_views.push(output_view(&outputs[i]));
        i = i + 1;
    }
    let entries = tx_metadata(tx);
    let mut metadata: Vec<(u64, MetadatumView)> = Vec::new();
    let mut k: usize = 0;
    while k < entries.len()
        invariant
            k <= entries@.len(),
        decreases entries@.len() - k,
    {
        metadata.push((entries[k].0, metadatum_view(&entries[k].1)));
        k = k + 1;
    }
    let raw_datums = tx_plutus_data(tx);
    let mut datums: Vec<DatumView> = Vec::new();
    let mut j: usize = 0;
    while j < raw_datums.len()
        invariant
            j <= raw_datums@.len(),
        decreases raw_datums@.len() - j,
    {
        datums.push(datum_view(&raw_datums[j]));
        j = j + 1;
    }
    let collateral_return = match tx_collateral_return(tx) {
        Some(o) => Some(output_view(&o)),
        None => None,
    };
    let mints = tx_mints(tx);
    TxView {
        era: tx_era_name(tx),
        hash: tx_hash(tx),
        fee: tx_fee(tx),
        start: tx_validity_start(tx),
        ttl: tx_ttl(tx),
        inputs: tx_inputs(tx),
        collateral: tx_collateral(tx),
        total_collateral: tx_total_collateral(tx),
        collateral_return,
        outputs: output_views,
        reference_inputs: tx_reference_inputs(tx),
        mints: policy_views(&mints),
        metadata,
        vkey_witnesses: tx_vkey_witnesses(tx),
        datums,
        v1_scripts: tx_plutus_v1_scripts(tx),
        v2_scripts: tx_plutus_v2_scripts(tx),
        v3_scripts: tx_plutus_v3_scripts(tx),
    }
}

/// The tree of a view: a `cbor_parse` root holding the transaction's
/// section and nothing else.
pub open spec fn is_cbor_structure(r: Section, v: TxView) -> bool {
    &&& has_topic(r, "cbor_parse"@)
    &&& r.error is None
    &&& r.attributes@.len() == 0
    &&& r.children@.len() == 1
    &&& is_tx_section(r.children@[0], v)
}

/// The tree of a transaction's view: a `cbor_parse` root holding the
/// transaction's section.
pub fn create_cbor_structure(v: &TxView) -> (r: Section)
    ensures
        is_cbor_structure(r, *v),
{
    let mut children: Vec<Section> = Vec::new();
    children.push(tx_section(v));
    section("cbor_parse", None, Vec::new(), children)
}

} // verus!
