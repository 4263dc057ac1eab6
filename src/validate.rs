//! The validation orchestrator and the public entry points.
use vstd::prelude::*;

use pallas::ledger::traverse::{MultiEraOutput, MultiEraTx};

use crate::balance::{AssetAmount, MintAmount};
use crate::engine::{
    battery_names, era_tag, is_battery_report, run_battery, BatteryInput, EraKind, LedgerEra,
};
use crate::facts::{InputRef, OutputFacts, Resolution, TxFacts};
use crate::hex_text::{bytes_of_hex, decode_hex, encode_hex, is_hex_text};
use crate::ledger::{
    address_network_id, alonzo_aux_data, decodes_as_any_tx, decodes_as_tx, alonzo_tx_size, babbage_aux_data, tx_aux_data_hash, asset_mint_coin, asset_name, asset_output_coin,
    babbage_tx_size, byron_tx_bytes, decode_tx, decode_tx_any, output_address, output_assets,
    output_lovelace, policy_assets, policy_id, tx_collateral, tx_fee, tx_inputs, tx_mints,
    tx_outputs, tx_reference_inputs, tx_ttl, tx_validity_start,
};
use crate::params::{
    alonzo_params, alonzo_params_of, network_id_of, network_or_default, select_network,
    shelley_params, shelley_params_of, ValidationContext,
};
use crate::render::{create_cbor_structure, has_topic, is_cbor_structure, tx_view, TxView};
use crate::section::{is_error_only, Section};
use crate::validation::{names_of, SectionValidation, Validations};

verus! {

/// The codec era a context's era name selects; an unknown name selects
/// Babbage.
pub open spec fn era_named(name: Seq<char>) -> LedgerEra {
    if name == "Alonzo"@ {
        LedgerEra::Alonzo
    } else if name == "Babbage"@ {
        LedgerEra::Babbage
    } else if name == "Byron"@ {
        LedgerEra::Byron
    } else if name == "Conway"@ {
        LedgerEra::Conway
    } else if name == "Shelley MA"@ {
        LedgerEra::Shelley
    } else {
        LedgerEra::Babbage
    }
}

/// The battery that transactions decoded for an era are validated with.
pub open spec fn kind_of(era: LedgerEra) -> EraKind {
    match era {
        LedgerEra::Byron => EraKind::Byron,
        LedgerEra::Shelley => EraKind::ShelleyMa,
        LedgerEra::Alonzo => EraKind::Alonzo,
        LedgerEra::Babbage => EraKind::Babbage,
        LedgerEra::Conway => EraKind::Conway,
    }
}

/// `v` is the report of the battery of the era a context names, over some
/// transaction's facts and the given resolved outputs, context and verdict.
pub open spec fn battery_of_some_facts(
    v: Validations,
    context: ValidationContext,
    resolution: Resolution,
    verdict: Result<(), String>,
) -> bool {
    exists|f: TxFacts|
        #[trigger] is_battery_report(
            v,
            kind_of(era_named(context.era@)),
            battery_input_of(f, resolution, context, verdict),
            context.era@,
        )
}

/// Text `raw` is hexadecimal and spells bytes that the codec of the era
/// named `era_name` accepts as a transaction.
pub open spec fn tx_decodes(era_name: Seq<char>, raw: Seq<char>) -> bool {
    is_hex_text(raw) && decodes_as_tx(era_named(era_name), bytes_of_hex(raw))
}

/// Selects the codec era named by a context.
pub fn decode_era_for(name: &String) -> (r: LedgerEra)
    ensures
        r == era_named(name@),
{
    if *name == String::from_str("Alonzo") {
        LedgerEra::Alonzo
    } else if *name == String::from_str("Babbage") {
        LedgerEra::Babbage
    } else if *name == String::from_str("Byron") {
        LedgerEra::Byron
    } else if *name == String::from_str("Conway") {
        LedgerEra::Conway
    } else if *name == String::from_str("Shelley MA") {
        LedgerEra::Shelley
    } else {
        LedgerEra::Babbage
    }
}

/// The battery for an era.
pub fn battery_kind(era: LedgerEra) -> (r: EraKind)
    ensures
        r == kind_of(era),
{
    match era {
        LedgerEra::Byron => EraKind::Byron,
        LedgerEra::Shelley => EraKind::ShelleyMa,
        LedgerEra::Alonzo => EraKind::Alonzo,
        LedgerEra::Babbage => EraKind::Babbage,
        LedgerEra::Conway => EraKind::Conway,
    }
}

/// What a battery reads, assembled from the transaction's facts, the
/// resolved outputs, the context and the ledger's verdict.
pub open spec fn battery_input_of(
    facts: TxFacts,
    resolution: Resolution,
    context: ValidationContext,
    verdict: Result<(), String>,
) -> BatteryInput {
    BatteryInput {
        facts,
        resolution,
        network_id: network_id_of(network_or_default(context.network@)),
        block_slot: context.block_slot,
        shelley: shelley_params_of(context.protocol_params),
        alonzo: alonzo_params_of(context.protocol_params),
        verdict,
    }
}

/// Runs an era's battery over a transaction's facts. The checks that need
/// signatures, scripts or witness-set hashes report the ledger's verdict,
/// which the caller obtains from the ledger's own rules.
pub fn validate(
    era: EraKind,
    facts: TxFacts,
    resolution: Resolution,
    context: &ValidationContext,
    verdict: Result<(), String>,
) -> (r: Validations)
    ensures
        is_battery_report(
            r,
            era,
            battery_input_of(facts, resolution, *context, verdict),
            context.era@,
        ),
        names_of(r.validations@) == battery_names(era),
{
    let network = select_network(&context.network);
    let input = BatteryInput {
        facts,
        resolution,
        network_id: network.network_id(),
        block_slot: context.block_slot,
        shelley: shelley_params(&context.protocol_params),
        alonzo: alonzo_params(&context.protocol_params),
        verdict,
    };
    run_battery(era, &input, &context.era)
}

/// Input references as the facts hold them.
/// Input references as the facts hold them; `None` stays for an input of a
/// non-standard kind.
fn to_opt_refs(v: Vec<Option<(String, u64)>>) -> (r: Vec<Option<InputRef>>)
    ensures
        r@.len() == v@.len(),
{
    let mut out: Vec<Option<InputRef>> = Vec::new();
    let mut i: usize = 0;
    while i < v.len()
        invariant
            i <= v@.len(),
            out@.len() == i,
        decreases v@.len() - i,
    {
        out.push(match &v[i] {
            Some(p) => Some(InputRef { tx_hash: p.0.clone(), index: p.1 }),
            None => None,
        });
        i = i + 1;
    }
    out
}

fn to_refs(v: Vec<(String, u64)>) -> (r: Vec<InputRef>)
    ensures
        r@.len() == v@.len(),
{
    let mut out: Vec<InputRef> = Vec::new();
    let mut i: usize = 0;
    while i < v.len()
        invariant
            i <= v@.len(),
            out@.len() == i,
        decreases v@.len() - i,
    {
        out.push(InputRef { tx_hash: v[i].0.clone(), index: v[i].1 });
        i = i + 1;
    }
    out
}

/// The unit of an asset: its policy id followed by its name, in hexadecimal.
fn asset_unit(policy: &String, name: &Vec<u8>) -> (r: String) {
    policy.clone().concat(encode_hex(name.as_slice()).as_str())
}

/// Appends the assets an output holds.
fn push_output_assets(out: &mut Vec<AssetAmount>, o: &MultiEraOutput) {
    let groups = output_assets(o);
    let mut j: usize = 0;
    while j < groups.len()
        invariant
            j <= groups@.len(),
        decreases groups@.len() - j,
    {
        let policy = policy_id(&groups[j]);
        let assets = policy_assets(&groups[j]);
        let mut k: usize = 0;
        while k < assets.len()
            invariant
                k <= assets@.len(),
            decreases assets@.len() - k,
        {
            if let Some(amount) = asset_output_coin(&assets[k]) {
                out.push(AssetAmount { unit: asset_unit(&policy, &asset_name(&assets[k])), amount });
            }
            k = k + 1;
        }
        j = j + 1;
    }
}

/// What a transaction mints and burns.
fn mint_amounts(tx: &MultiEraTx) -> (r: Vec<MintAmount>) {
    let groups = tx_mints(tx);
    let mut out: Vec<MintAmount> = Vec::new();
    let mut j: usize = 0;
    while j < groups.len()
        invariant
            j <= groups@.len(),
        decreases groups@.len() - j,
    {
        let policy = policy_id(&groups[j]);
        let assets = policy_assets(&groups[j]);
        let mut k: usize = 0;
        while k < assets.len()
            invariant
                k <= assets@.len(),
            decreases assets@.len() - k,
        {
            if let Some(quantity) = asset_mint_coin(&assets[k]) {
                out.push(MintAmount { unit: asset_unit(&policy, &asset_name(&assets[k])), quantity });
            }
            k = k + 1;
        }
        j = j + 1;
    }
    out
}

/// What the checks read of a decoded transaction.
pub fn transaction_facts(tx: &MultiEraTx, era: LedgerEra) -> (r: TxFacts) {
    let outputs = tx_outputs(tx);
    let mut facts: Vec<OutputFacts> = Vec::new();
    let mut held: Vec<AssetAmount> = Vec::new();
    let mut i: usize = 0;
    while i < outputs.len()
        invariant
            i <= outputs@.len(),
        decreases outputs@.len() - i,
    {
        let o = &outputs[i];
        let network_id = match output_address(o) {
            Ok(a) => address_network_id(&a),
            Err(_) => None,
        };
        facts.push(OutputFacts { lovelace: output_lovelace(o), network_id });
        push_output_assets(&mut held, o);
        i = i + 1;
    }
    let (size, aux_data) = match era {
        LedgerEra::Byron => (
            match byron_tx_bytes(tx) {
                Some(b) => Some(b.len() as u64),
                None => None,
            },
            None,
        ),
        LedgerEra::Shelley | LedgerEra::Alonzo => (alonzo_tx_size(tx), alonzo_aux_data(tx)),
        LedgerEra::Babbage => (babbage_tx_size(tx), babbage_aux_data(tx)),
        LedgerEra::Conway => (None, None),
    };
    TxFacts {
        inputs: to_opt_refs(tx_inputs(tx)),
        collateral: to_refs(tx_collateral(tx)),
        reference_inputs: to_refs(tx_reference_inputs(tx)),
        outputs: facts,
        output_assets: held,
        mint: mint_amounts(tx),
        fee: tx_fee(tx),
        validity_start: tx_validity_start(tx),
        ttl: tx_ttl(tx),
        size,
        aux_data_hash: tx_aux_data_hash(tx),
        aux_data,
    }
}

/// An error message that is never empty.
pub(crate) fn error_text(e: String) -> (r: String)
    ensures
        r@.len() > 0,
        e@.len() > 0 ==> r@ == e@,
{
    if e.as_str().unicode_len() == 0 {
        proof {
            reveal_strlit("undecodable ledger data");
        }
        String::from_str("undecodable ledger data")
    } else {
        e
    }
}

/// Decodes a transaction given as hexadecimal text, with the codec of the
/// first era that accepts it, and renders it. Bad hexadecimal text or bytes
/// that no codec accepts give a tree holding only a non-empty error.
pub fn decode_and_render_transaction(raw_hex: &str) -> (r: Section)
    ensures
        (is_error_only(r) && r.error.unwrap()@.len() > 0) || (r.error is None && has_topic(
            r,
            "cbor_parse"@,
        ) && r.children@.len() == 1 && r.children@[0].error is None),
        r.error is None <==> is_hex_text(raw_hex@) && decodes_as_any_tx(bytes_of_hex(raw_hex@)),
        r.error is None ==> exists|v: TxView| is_cbor_structure(r, v),
{
    match decode_hex(raw_hex) {
        Err(e) => Section::from_error(error_text(e)),
        Ok(cbor) => match decode_tx_any(cbor.as_slice()) {
            Err(e) => Section::from_error(error_text(e)),
            Ok(tx) => {
                let v = tx_view(&tx);
                let r = create_cbor_structure(&v);
                proof {
                    assert(is_cbor_structure(r, v));
                }
                r
            },
        },
    }
}

/// What the checks read of a transaction given as hexadecimal text, decoded
/// with the codec of the era a context names; the error message otherwise.
/// A caller resolves the outputs these facts refer to before validating.
pub fn decode_facts(raw_hex: &str, era_name: &String) -> (r: Result<TxFacts, String>)
    ensures
        r is Ok <==> tx_decodes(era_name@, raw_hex@),
{
    let era = decode_era_for(era_name);
    match decode_hex(raw_hex) {
        Err(e) => Err(e),
        Ok(cbor) => match decode_tx(era, cbor.as_slice()) {
            Err(e) => Err(e),
            Ok(tx) => Ok(transaction_facts(&tx, era)),
        },
    }
}

/// Decodes a transaction given as hexadecimal text with the codec of the
/// era its context names, renders it and runs that era's battery. A
/// transaction that cannot be decoded gives a tree holding only a non-empty
/// error.
pub fn parse(
    raw: String,
    context: ValidationContext,
    resolution: Resolution,
    verdict: Result<(), String>,
) -> (r: Result<(Section, Validations), Section>)
    ensures
        r is Ok <==> tx_decodes(context.era@, raw@),
        r matches Ok(p) ==> p.0.children@.len() == 1 && p.0.children@[0].error is None,
        r matches Ok(p) ==> battery_of_some_facts(p.1, context, resolution, verdict),
        r matches Ok(p) ==> has_topic(p.0, "cbor_parse"@) && p.0.error is None && names_of(
            p.1.validations@,
        ) == battery_names(kind_of(era_named(context.era@))) && p.1.era@ == era_tag(
            kind_of(era_named(context.era@)),
            context.era@,
        ),
        r matches Err(s) ==> is_error_only(s) && s.error.unwrap()@.len() > 0,
        !is_hex_text(raw@) ==> r is Err,
{
    let era = decode_era_for(&context.era);
    match decode_hex(raw.as_str()) {
        Err(e) => Err(Section::from_error(error_text(e))),
        Ok(cbor) => match decode_tx(era, cbor.as_slice()) {
            Err(e) => Err(Section::from_error(error_text(e))),
            Ok(tx) => {
                let section = create_cbor_structure(&tx_view(&tx));
                let facts = transaction_facts(&tx, era);
                let ghost f = facts;
                let validations = validate(battery_kind(era), facts, resolution, &context, verdict);
                proof {
                    assert(is_battery_report(
                        validations,
                        kind_of(era_named(context.era@)),
                        battery_input_of(f, resolution, context, verdict),
                        context.era@,
                    ));
                    assert(battery_of_some_facts(validations, context, resolution, verdict));
                }
                Ok((section, validations))
            },
        },
    }
}

/// Decodes, renders and validates a transaction; a transaction that cannot
/// be decoded gives a tree holding only a non-empty error, and an empty
/// report.
pub fn safe_parse_tx(
    raw: String,
    context: ValidationContext,
    resolution: Resolution,
    verdict: Result<(), String>,
) -> (r: SectionValidation)
    ensures
        r.section.error is Some ==> is_error_only(r.section) && r.section.error.unwrap()@.len() > 0
            && r.validations.validations@.len() == 0,
        r.section.error is None <==> tx_decodes(context.era@, raw@),
        r.section.error is None ==> r.section.children@.len() == 1
            && r.section.children@[0].error is None,
        r.section.error is None ==> battery_of_some_facts(r.validations, context, resolution, verdict),
        r.section.error is None ==> has_topic(r.section, "cbor_parse"@) && names_of(
            r.validations.validations@,
        ) == battery_names(kind_of(era_named(context.era@))) && r.validations.era@ == era_tag(
            kind_of(era_named(context.era@)),
            context.era@,
        ),
        !is_hex_text(raw@) ==> r.section.error is Some,
{
    match parse(raw, context, resolution, verdict) {
        Ok((section, validations)) => SectionValidation { section, validations },
        Err(section) => SectionValidation { section, validations: Validations::new() },
    }
}

/// Runs the Byron battery.
pub fn validate_byron(
    facts: TxFacts,
    resolution: Resolution,
    context: &ValidationContext,
    verdict: Result<(), String>,
) -> (r: Validations)
    ensures
        is_battery_report(
            r,
            EraKind::Byron,
            battery_input_of(facts, resolution, *context, verdict),
            context.era@,
        ),
{
    validate(EraKind::Byron, facts, resolution, context, verdict)
}

/// Runs the battery shared by the Shelley, Allegra and Mary eras.
pub fn validate_shelley_ma(
    facts: TxFacts,
    resolution: Resolution,
    context: &ValidationContext,
    verdict: Result<(), String>,
) -> (r: Validations)
    ensures
        is_battery_report(
            r,
            EraKind::ShelleyMa,
            battery_input_of(facts, resolution, *context, verdict),
            context.era@,
        ),
{
    validate(EraKind::ShelleyMa, facts, resolution, context, verdict)
}

/// Runs the Alonzo battery.
pub fn validate_alonzo(
    facts: TxFacts,
    resolution: Resolution,
    context: &ValidationContext,
    verdict: Result<(), String>,
) -> (r: Validations)
    ensures
        is_battery_report(
            r,
            EraKind::Alonzo,
            battery_input_of(facts, resolution, *context, verdict),
            context.era@,
        ),
{
    validate(EraKind::Alonzo, facts, resolution, context, verdict)
}

/// Runs the Babbage battery.
pub fn validate_babbage(
    facts: TxFacts,
    resolution: Resolution,
    context: &ValidationContext,
    verdict: Result<(), String>,
) -> (r: Validations)
    ensures
        is_battery_report(
            r,
            EraKind::Babbage,
            battery_input_of(facts, resolution, *context, verdict),
            context.era@,
        ),
{
    validate(EraKind::Babbage, facts, resolution, context, verdict)
}

} // verus!
