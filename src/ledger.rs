//! The calls into the ledger codec and its traversal layer.
use vstd::prelude::*;

use pallas::crypto::hash::Hasher;
use pallas::ledger::addresses::Address;
use pallas::ledger::primitives::alonzo::{Metadatum, PlutusData};
use pallas::ledger::primitives::ToCanonicalJson;
use pallas::ledger::primitives::byron::TxIn;
use pallas::ledger::traverse::{
    ComputeHash, Era, MultiEraAsset, MultiEraBlock, MultiEraHeader, MultiEraInput, MultiEraOutput,
    MultiEraPolicyAssets, MultiEraTx,
};
use pallas::codec::utils::KeepRaw;
use pallas::codec::minicbor;
use pallas::applying::utils::{
    aux_data_from_alonzo_minted_tx, aux_data_from_babbage_minted_tx, get_alonzo_comp_tx_size,
    get_babbage_tx_size,
};

use crate::block::HeaderSlot;
use crate::engine::LedgerEra;
use crate::render::MetadatumView;

verus! {

#[verifier::external_type_specification]
#[verifier::external_body]
pub struct ExMultiEraTx<'b>(MultiEraTx<'b>);

#[verifier::external_type_specification]
#[verifier::external_body]
pub struct ExMultiEraBlock<'b>(MultiEraBlock<'b>);

#[verifier::external_type_specification]
#[verifier::external_body]
pub struct ExMultiEraOutput<'b>(MultiEraOutput<'b>);

#[verifier::external_type_specification]
#[verifier::external_body]
pub struct ExMultiEraPolicyAssets<'b>(MultiEraPolicyAssets<'b>);

#[verifier::external_type_specification]
#[verifier::external_body]
pub struct ExMultiEraAsset<'b>(MultiEraAsset<'b>);

#[verifier::external_type_specification]
#[verifier::external_body]
pub struct ExAddress(Address);

#[verifier::external_type_specification]
#[verifier::external_body]
pub struct ExPlutusData(PlutusData);

#[verifier::external_type_specification]
#[verifier::external_body]
pub struct ExMetadatum(Metadatum);

#[verifier::external_type_specification]
#[verifier::external_body]
#[verifier::reject_recursive_types(T)]
pub struct ExKeepRaw<'b, T>(KeepRaw<'b, T>);

/// The 28-byte BLAKE2b digest of some bytes.
pub uninterp spec fn blake2b_224_of(bytes: Seq<u8>) -> Seq<u8>;

/// The 32-byte BLAKE2b digest of some bytes.
pub uninterp spec fn blake2b_256_of(bytes: Seq<u8>) -> Seq<u8>;

/// Whether the codec of an era accepts some bytes as a transaction.
pub uninterp spec fn decodes_as_tx(era: LedgerEra, cbor: Seq<u8>) -> bool;

/// Whether the codec of some era accepts some bytes as a transaction.
pub uninterp spec fn decodes_as_any_tx(cbor: Seq<u8>) -> bool;

/// Whether the block codec accepts some bytes as a block.
pub uninterp spec fn decodes_as_block(cbor: Seq<u8>) -> bool;

/// Relies on `MultiEraTx::decode_for_era`: decodes a transaction with the
/// codec of the given era, or gives the codec's error message; which of the
/// two depends on the era and the bytes alone.
#[verifier::external_body]
pub(crate) fn decode_tx<'b>(era: LedgerEra, cbor: &'b [u8]) -> (r: Result<MultiEraTx<'b>, String>)
    ensures
        r is Ok <==> decodes_as_tx(era, cbor@),
{
    let era = match era {
        LedgerEra::Byron => Era::Byron,
        LedgerEra::Shelley => Era::Shelley,
        LedgerEra::Alonzo => Era::Alonzo,
        LedgerEra::Babbage => Era::Babbage,
        LedgerEra::Conway => Era::Conway,
    };
    MultiEraTx::decode_for_era(era, cbor).map_err(|e| e.to_string())
}

/// Relies on `MultiEraTx::decode`: decodes a transaction with the codec of
/// the first era that accepts it, or gives the codec's error message; which
/// of the two depends on the bytes alone.
#[verifier::external_body]
pub(crate) fn decode_tx_any<'b>(cbor: &'b [u8]) -> (r: Result<MultiEraTx<'b>, String>)
    ensures
        r is Ok <==> decodes_as_any_tx(cbor@),
{
    MultiEraTx::decode(cbor).map_err(|e| e.to_string())
}

/// Relies on `MultiEraBlock::decode`: decodes a block of any era, or gives
/// the codec's error message; which of the two depends on the bytes alone.
#[verifier::external_body]
pub(crate) fn decode_block<'b>(cbor: &'b [u8]) -> (r: Result<MultiEraBlock<'b>, String>)
    ensures
        r is Ok <==> decodes_as_block(cbor@),
{
    MultiEraBlock::decode(cbor).map_err(|e| e.to_string())
}

/// Relies on `MultiEraTx::era` and its display name.
#[verifier::external_body]
pub(crate) fn tx_era_name(tx: &MultiEraTx) -> (r: String) {
    tx.era().to_string()
}

/// Relies on `MultiEraTx::hash`, displayed as hexadecimal.
#[verifier::external_body]
pub(crate) fn tx_hash(tx: &MultiEraTx) -> (r: String) {
    tx.hash().to_string()
}

/// Relies on `MultiEraTx::encode`: the transaction's bytes.
#[verifier::external_body]
pub(crate) fn tx_bytes(tx: &MultiEraTx) -> (r: Vec<u8>) {
    tx.encode()
}

/// Relies on `MultiEraTx::fee`: the declared fee, absent before Shelley.
#[verifier::external_body]
pub(crate) fn tx_fee(tx: &MultiEraTx) -> (r: Option<u64>) {
    tx.fee()
}

/// Relies on `MultiEraTx::validity_start`: the lower validity bound.
#[verifier::external_body]
pub(crate) fn tx_validity_start(tx: &MultiEraTx) -> (r: Option<u64>) {
    tx.validity_start()
}

/// Relies on `MultiEraTx::ttl`: the upper validity bound.
#[verifier::external_body]
pub(crate) fn tx_ttl(tx: &MultiEraTx) -> (r: Option<u64>) {
    tx.ttl()
}

/// Relies on `MultiEraTx::inputs` and the variants of its inputs: each
/// input's transaction hash (as hexadecimal) and output index, in order;
/// `None` for a Byron input of a non-standard kind, which carries neither.
#[verifier::external_body]
pub(crate) fn tx_inputs(tx: &MultiEraTx) -> (r: Vec<Option<(String, u64)>>) {
    tx.inputs().iter().map(|i| match i {
        MultiEraInput::Byron(x) => match x.as_ref().as_ref() {
            TxIn::Variant0(w) => Some(((w.0).0.to_string(), (w.0).1 as u64)),
            TxIn::Other(_, _) => None,
        },
        MultiEraInput::AlonzoCompatible(x) => Some((x.transaction_id.to_string(), x.index)),
        _ => None,
    }).collect()
}

/// Relies on `MultiEraTx::collateral`: each collateral input's transaction
/// hash and output index, in order.
#[verifier::external_body]
pub(crate) fn tx_collateral(tx: &MultiEraTx) -> (r: Vec<(String, u64)>) {
    tx.collateral().iter().map(|i| (i.hash().to_string(), i.index())).collect()
}

/// Relies on `MultiEraTx::reference_inputs`: each reference input's
/// transaction hash and output index, in order.
#[verifier::external_body]
pub(crate) fn tx_reference_inputs(tx: &MultiEraTx) -> (r: Vec<(String, u64)>) {
    tx.reference_inputs().iter().map(|i| (i.hash().to_string(), i.index())).collect()
}

/// Relies on `MultiEraTx::total_collateral`.
#[verifier::external_body]
pub(crate) fn tx_total_collateral(tx: &MultiEraTx) -> (r: Option<u64>) {
    tx.total_collateral()
}

/// Relies on `MultiEraTx::collateral_return`.
#[verifier::external_body]
pub(crate) fn tx_collateral_return<'a>(tx: &'a MultiEraTx) -> (r: Option<MultiEraOutput<'a>>) {
    tx.collateral_return()
}

/// Relies on `MultiEraTx::outputs`: the outputs in order.
#[verifier::external_body]
pub(crate) fn tx_outputs<'a>(tx: &'a MultiEraTx) -> (r: Vec<MultiEraOutput<'a>>) {
    tx.outputs()
}

/// Relies on `MultiEraTx::mints`: the minted and burned assets by policy.
#[verifier::external_body]
pub(crate) fn tx_mints<'a>(tx: &'a MultiEraTx) -> (r: Vec<MultiEraPolicyAssets<'a>>) {
    tx.mints()
}

/// Relies on `MultiEraTx::metadata`: each label with its value, in order.
#[verifier::external_body]
pub(crate) fn tx_metadata(tx: &MultiEraTx) -> (r: Vec<(u64, Metadatum)>) {
    let meta = tx.metadata();
    let pairs: Vec<(u64, &Metadatum)> = meta.collect();
    pairs.into_iter().map(|(label, datum)| (label, datum.clone())).collect()
}

/// Relies on the variants of `Metadatum`: its kind, an integer as decimal
/// text, bytes and text as they are.
#[verifier::external_body]
pub(crate) fn metadatum_view(m: &Metadatum) -> (r: MetadatumView) {
    match m {
        Metadatum::Int(x) => MetadatumView::Int(x.to_string()),
        Metadatum::Bytes(x) => MetadatumView::Bytes(x.to_vec()),
        Metadatum::Text(x) => MetadatumView::Text(x.clone()),
        Metadatum::Array(_) => MetadatumView::Array,
        Metadatum::Map(_) => MetadatumView::KeyValueMap,
    }
}

/// Relies on `MultiEraTx::vkey_witnesses`: each witness's key and signature
/// bytes, in order.
#[verifier::external_body]
pub(crate) fn tx_vkey_witnesses(tx: &MultiEraTx) -> (r: Vec<(Vec<u8>, Vec<u8>)>) {
    tx.vkey_witnesses().iter().map(|w| (w.vkey.to_vec(), w.signature.to_vec())).collect()
}

/// Relies on `MultiEraTx::plutus_data`: the datums of the witness set.
#[verifier::external_body]
pub(crate) fn tx_plutus_data<'a>(tx: &'a MultiEraTx) -> (r: Vec<KeepRaw<'a, PlutusData>>) {
    tx.plutus_data().iter().cloned().collect()
}

/// Relies on `MultiEraTx::plutus_v1_scripts`: each script's bytes.
#[verifier::external_body]
pub(crate) fn tx_plutus_v1_scripts(tx: &MultiEraTx) -> (r: Vec<Vec<u8>>) {
    tx.plutus_v1_scripts().iter().map(|s| s.as_ref().to_vec()).collect()
}

/// Relies on `MultiEraTx::plutus_v2_scripts`: each script's bytes.
#[verifier::external_body]
pub(crate) fn tx_plutus_v2_scripts(tx: &MultiEraTx) -> (r: Vec<Vec<u8>>) {
    tx.plutus_v2_scripts().iter().map(|s| s.as_ref().to_vec()).collect()
}

/// Relies on `MultiEraTx::plutus_v3_scripts`: each script's bytes.
#[verifier::external_body]
pub(crate) fn tx_plutus_v3_scripts(tx: &MultiEraTx) -> (r: Vec<Vec<u8>>) {
    tx.plutus_v3_scripts().iter().map(|s| s.as_ref().to_vec()).collect()
}

/// Relies on `minicbor::to_vec` for a Byron transaction: its encoding;
/// absent for other eras or when encoding fails.
#[verifier::external_body]
pub(crate) fn byron_tx_bytes(tx: &MultiEraTx) -> (r: Option<Vec<u8>>) {
    match tx {
        MultiEraTx::Byron(m) => minicbor::to_vec(&m.transaction).ok(),
        _ => None,
    }
}

/// Relies on `get_alonzo_comp_tx_size`: the size of a Shelley-to-Alonzo
/// transaction; absent for other eras.
#[verifier::external_body]
pub(crate) fn alonzo_tx_size(tx: &MultiEraTx) -> (r: Option<u64>) {
    match tx {
        MultiEraTx::AlonzoCompatible(m, _) => Some(get_alonzo_comp_tx_size(m) as u64),
        _ => None,
    }
}

/// Relies on `get_babbage_tx_size`: the size of a Babbage transaction;
/// absent for other eras or when encoding fails.
#[verifier::external_body]
pub(crate) fn babbage_tx_size(tx: &MultiEraTx) -> (r: Option<u64>) {
    match tx {
        MultiEraTx::Babbage(m) => get_babbage_tx_size(m).map(|n| n as u64),
        _ => None,
    }
}

/// Relies on `MultiEraOutput::encode`: the output's bytes.
#[verifier::external_body]
pub(crate) fn output_bytes(o: &MultiEraOutput) -> (r: Vec<u8>) {
    o.encode()
}

/// Relies on `MultiEraOutput::lovelace_amount`.
#[verifier::external_body]
pub(crate) fn output_lovelace(o: &MultiEraOutput) -> (r: u64) {
    o.lovelace_amount()
}

/// Relies on `MultiEraOutput::address`: the decoded address, or the
/// decoder's error message.
#[verifier::external_body]
pub(crate) fn output_address(o: &MultiEraOutput) -> (r: Result<Address, String>) {
    o.address().map_err(|e| e.to_string())
}

/// Relies on the display form of `Address`: bech32 for Shelley addresses,
/// base58 for Byron ones.
#[verifier::external_body]
pub(crate) fn address_text(a: &Address) -> (r: String) {
    a.to_string()
}

/// Relies on `Address::network`: the network id an address carries; absent
/// for Byron addresses.
#[verifier::external_body]
pub(crate) fn address_network_id(a: &Address) -> (r: Option<u8>) {
    a.network().map(|n| n.value())
}

/// Relies on `MultiEraOutput::datum`: the datum hash, as hexadecimal, when
/// the output refers to its datum by hash.
#[verifier::external_body]
pub(crate) fn output_datum_hash(o: &MultiEraOutput) -> (r: Option<String>) {
    match o.datum() {
        Some(pallas::ledger::primitives::babbage::PseudoDatumOption::Hash(h)) => Some(h.to_string()),
        _ => None,
    }
}

/// Relies on `MultiEraOutput::datum`: the datum, when the output holds it
/// inline.
#[verifier::external_body]
pub(crate) fn output_inline_datum<'a>(o: &'a MultiEraOutput<'_>) -> (r: Option<KeepRaw<'a, PlutusData>>) {
    match o.datum() {
        Some(pallas::ledger::primitives::babbage::PseudoDatumOption::Data(d)) => Some(d.0),
        _ => None,
    }
}

/// Relies on `MultiEraOutput::non_ada_assets`: the output's assets by policy.
#[verifier::external_body]
pub(crate) fn output_assets<'a>(o: &'a MultiEraOutput<'_>) -> (r: Vec<MultiEraPolicyAssets<'a>>) {
    o.non_ada_assets()
}

/// Relies on `MultiEraPolicyAssets::policy`, displayed as hexadecimal.
#[verifier::external_body]
pub(crate) fn policy_id(p: &MultiEraPolicyAssets) -> (r: String) {
    p.policy().to_string()
}

/// Relies on `MultiEraPolicyAssets::assets`: the assets under the policy.
#[verifier::external_body]
pub(crate) fn policy_assets<'a>(p: &'a MultiEraPolicyAssets<'_>) -> (r: Vec<MultiEraAsset<'a>>) {
    p.assets()
}

/// Relies on `MultiEraAsset::name`: the asset name's bytes.
#[verifier::external_body]
pub(crate) fn asset_name(a: &MultiEraAsset) -> (r: Vec<u8>) {
    a.name().to_vec()
}

/// Relies on `MultiEraAsset::to_ascii_name`: the name as text, when its bytes
/// are valid UTF-8.
#[verifier::external_body]
pub(crate) fn asset_ascii_name(a: &MultiEraAsset) -> (r: Option<String>) {
    a.to_ascii_name()
}

/// Relies on `MultiEraAsset::mint_coin`: the minted (or, negative, burned)
/// quantity; absent for an asset held by an output.
#[verifier::external_body]
pub(crate) fn asset_mint_coin(a: &MultiEraAsset) -> (r: Option<i64>) {
    a.mint_coin()
}

/// Relies on `MultiEraAsset::output_coin`: the quantity an output holds;
/// absent for a minted asset.
#[verifier::external_body]
pub(crate) fn asset_output_coin(a: &MultiEraAsset) -> (r: Option<u64>) {
    a.output_coin()
}

/// Relies on `KeepRaw::raw_cbor`: the datum's bytes as they were decoded.
#[verifier::external_body]
pub(crate) fn datum_bytes(d: &KeepRaw<PlutusData>) -> (r: Vec<u8>) {
    d.raw_cbor().to_vec()
}

/// Relies on `ComputeHash::compute_hash` of a datum, as hexadecimal.
#[verifier::external_body]
pub(crate) fn datum_hash(d: &KeepRaw<PlutusData>) -> (r: String) {
    d.compute_hash().to_string()
}

/// Relies on `ToCanonicalJson::to_json` of a datum, as compact JSON text.
#[verifier::external_body]
pub(crate) fn datum_json(d: &KeepRaw<PlutusData>) -> (r: String) {
    d.to_json().to_string()
}

/// Relies on `Hasher::<224>::hash`: the 28-byte BLAKE2b digest of `bytes`.
#[verifier::external_body]
pub(crate) fn blake2b_224(bytes: &[u8]) -> (r: Vec<u8>)
    ensures
        r@ == blake2b_224_of(bytes@),
        r@.len() == 28,
{
    Hasher::<224>::hash(bytes).to_vec()
}

/// Relies on `Hasher::<256>::hash`: the 32-byte BLAKE2b digest of `bytes`.
#[verifier::external_body]
pub(crate) fn blake2b_256(bytes: &[u8]) -> (r: Vec<u8>)
    ensures
        r@ == blake2b_256_of(bytes@),
        r@.len() == 32,
{
    Hasher::<256>::hash(bytes).to_vec()
}

/// Relies on the `auxiliary_data_hash` field of a Shelley-to-Babbage
/// transaction body: the declared hash of the auxiliary data.
#[verifier::external_body]
pub(crate) fn tx_aux_data_hash(tx: &MultiEraTx) -> (r: Option<Vec<u8>>) {
    match tx {
        MultiEraTx::AlonzoCompatible(m, _) => m.transaction_body.auxiliary_data_hash.as_ref().map(|h| h.to_vec()),
        MultiEraTx::Babbage(m) => m.transaction_body.auxiliary_data_hash.as_ref().map(|h| h.to_vec()),
        _ => None,
    }
}

/// Relies on `aux_data_from_alonzo_minted_tx`: the bytes of the auxiliary
/// data of a Shelley-to-Alonzo transaction, as they were decoded.
#[verifier::external_body]
pub(crate) fn alonzo_aux_data(tx: &MultiEraTx) -> (r: Option<Vec<u8>>) {
    match tx {
        MultiEraTx::AlonzoCompatible(m, _) => aux_data_from_alonzo_minted_tx(m).map(|d| d.to_vec()),
        _ => None,
    }
}

/// Relies on `aux_data_from_babbage_minted_tx`: the bytes of the auxiliary
/// data of a Babbage transaction, as they were decoded.
#[verifier::external_body]
pub(crate) fn babbage_aux_data(tx: &MultiEraTx) -> (r: Option<Vec<u8>>) {
    match tx {
        MultiEraTx::Babbage(m) => aux_data_from_babbage_minted_tx(m).map(|d| d.to_vec()),
        _ => None,
    }
}

/// Relies on `MultiEraBlock::era` and its display name.
#[verifier::external_body]
pub(crate) fn block_era_name(b: &MultiEraBlock) -> (r: String) {
    b.era().to_string()
}

/// Relies on `MultiEraBlock::header` and the variants of the header: the
/// slot of a Shelley-or-later header; the epoch and the slot within it of a
/// Byron header; the epoch of an epoch-boundary header.
#[verifier::external_body]
pub(crate) fn block_header_slot(b: &MultiEraBlock) -> (r: HeaderSlot) {
    match b.header() {
        MultiEraHeader::ShelleyCompatible(x) => HeaderSlot::Absolute(x.header_body.slot),
        MultiEraHeader::BabbageCompatible(x) => HeaderSlot::Absolute(x.header_body.slot),
        MultiEraHeader::Byron(x) => HeaderSlot::InEpoch(x.consensus_data.0.epoch, x.consensus_data.0.slot),
        MultiEraHeader::EpochBoundary(x) => HeaderSlot::EpochStart(x.consensus_data.epoch_id),
    }
}

/// Relies on `MultiEraBlock::hash`, displayed as hexadecimal.
#[verifier::external_body]
pub(crate) fn block_hash(b: &MultiEraBlock) -> (r: String) {
    b.hash().to_string()
}

/// Relies on `MultiEraBlock::txs`: the block's transactions in order.
#[verifier::external_body]
pub(crate) fn block_txs<'a>(b: &'a MultiEraBlock) -> (r: Vec<MultiEraTx<'a>>) {
    b.txs()
}

} // verus!
