use pallas_inspect::balance::{AssetAmount, MintAmount};
use pallas_inspect::engine::EraKind;
use pallas_inspect::facts::{InputRef, OutputFacts, Resolution, TxFacts};
use pallas_inspect::params::{ProtocolParams, ValidationContext};
use pallas_inspect::utxo::{AssetQuantity, PolicyAssets, UtxoEntry, UtxoValue};
use pallas_inspect::validate::{
    validate, validate_alonzo, validate_babbage, validate_byron, validate_shelley_ma,
};
use pallas_inspect::validation::{Validation, Validations};

fn context(era: &str) -> ValidationContext {
    let mut p = ProtocolParams::new();
    p.max_tx_size = 16384;
    p.min_fee_a = 44;
    p.min_fee_b = 155381;
    ValidationContext {
        protocol_params: p,
        network: "Mainnet".to_string(),
        era: era.to_string(),
        block_slot: 100,
    }
}

fn entry(lovelace: u64) -> UtxoEntry {
    UtxoEntry {
        address: "addr".to_string(),
        value: UtxoValue { lovelace, assets: vec![] },
        datum_hash: None,
        inline_datum: None,
        script_ref: None,
    }
}

fn facts(n_inputs: usize, outputs: &[u64], fee: u64) -> TxFacts {
    TxFacts {
        inputs: (0..n_inputs)
            .map(|i| Some(InputRef { tx_hash: "ab".repeat(32), index: i as u64 }))
            .collect(),
        collateral: vec![],
        reference_inputs: vec![],
        outputs: outputs
            .iter()
            .map(|&l| OutputFacts { lovelace: l, network_id: Some(1) })
            .collect(),
        output_assets: vec![],
        mint: vec![],
        fee: Some(fee),
        validity_start: None,
        ttl: Some(500),
        size: Some(300),
        aux_data_hash: None,
        aux_data: None,
    }
}

fn resolved(values: &[Option<u64>]) -> Resolution {
    Resolution {
        inputs: values.iter().map(|v| v.map(entry)).collect(),
        collateral: vec![],
        reference_inputs: vec![],
    }
}

fn find<'a>(v: &'a Validations, name: &str) -> &'a Validation {
    v.validations.iter().find(|x| x.name == name).expect("check is in the battery")
}

fn names(v: &Validations) -> Vec<String> {
    v.validations.iter().map(|x| x.name.clone()).collect()
}

#[test]
fn preservation_passes_when_balanced_and_fails_off_by_one() {
    for era in [EraKind::ShelleyMa, EraKind::Alonzo, EraKind::Babbage] {
        let ok = validate(
            era,
            facts(1, &[1_800_000], 200_000),
            resolved(&[Some(2_000_000)]),
            &context("Babbage"),
            Ok(()),
        );
        let check = find(&ok, "Preservation of value");
        assert!(check.value);
        assert_eq!(check.description, "The preservation of value property holds.");
        let off = validate(
            era,
            facts(1, &[1_800_001], 200_000),
            resolved(&[Some(2_000_000)]),
            &context("Babbage"),
            Ok(()),
        );
        let check = find(&off, "Preservation of value");
        assert!(!check.value);
        assert!(check.description.starts_with("Error: "));
    }
}

#[test]
fn battery_order_is_fixed_across_calls() {
    let run = || {
        validate(
            EraKind::Alonzo,
            facts(1, &[1_000_000], 200_000),
            resolved(&[None]),
            &context("Alonzo"),
            Err("ledger says no".to_string()),
        )
    };
    let first = run();
    let second = run();
    assert_eq!(names(&first), names(&second));
    assert_eq!(first.validations.len(), 15);
    assert_eq!(first.era, "Alonzo");
    assert_eq!(names(&first)[0], "Transaction size");
    assert_eq!(names(&first)[14], "Fee");
}

#[test]
fn battery_sizes_and_tags_per_era() {
    let run = |era| {
        validate(era, facts(1, &[1], 1), resolved(&[Some(2)]), &context("Babbage"), Ok(()))
    };
    let byron = run(EraKind::Byron);
    assert_eq!(byron.era, "Byron");
    assert_eq!(byron.validations.len(), 7);
    let shelley = run(EraKind::ShelleyMa);
    assert_eq!(shelley.era, "Shelley Mary Allegra");
    assert_eq!(shelley.validations.len(), 11);
    let babbage = run(EraKind::Babbage);
    assert_eq!(babbage.era, "Babbage");
    assert_eq!(babbage.validations.len(), 16);
    assert_eq!(names(&babbage)[0], "Non empty inputs");
}

#[test]
fn conway_battery_is_empty() {
    let v = validate(
        EraKind::Conway,
        facts(1, &[1], 1),
        resolved(&[Some(2)]),
        &context("Conway"),
        Ok(()),
    );
    assert_eq!(v.era, "Conway");
    assert!(v.validations.is_empty());
}

#[test]
fn zero_inputs_fail_non_empty_inputs_in_every_era() {
    for era in [EraKind::Byron, EraKind::ShelleyMa, EraKind::Alonzo, EraKind::Babbage] {
        let v = validate(era, facts(0, &[1_000_000], 200_000), resolved(&[]), &context("Babbage"), Ok(()));
        let check = find(&v, "Non empty inputs");
        assert!(!check.value);
        assert_eq!(check.description, "Error: The set of transaction inputs is empty.");
    }
}

#[test]
fn unresolved_input_fails_existence_checks() {
    let cases = [
        (EraKind::Byron, "Inputs in UTXOs"),
        (EraKind::ShelleyMa, "Inputs in UTxOs"),
        (EraKind::Alonzo, "Inputs and collateral in UTxOs"),
        (EraKind::Babbage, "All inputs in UTxOs"),
    ];
    for (era, name) in cases {
        let v = validate(
            era,
            facts(2, &[1_000_000], 200_000),
            resolved(&[Some(3_000_000), None]),
            &context("Babbage"),
            Ok(()),
        );
        let check = find(&v, name);
        assert!(!check.value);
        assert!(check.description.starts_with("Error: Unresolved input"));
    }
}

#[test]
fn ledger_error_lands_on_its_own_check() {
    let rejected = validate(
        EraKind::ShelleyMa,
        facts(1, &[1_800_000], 200_000),
        resolved(&[Some(2_000_000)]),
        &context("Shelley MA"),
        Err("ShelleyMA(MissingVKWitness)".to_string()),
    );
    let w = find(&rejected, "Witnesses");
    assert!(!w.value);
    assert_eq!(w.description, "Error: ShelleyMA(MissingVKWitness)");
    // run before the witnesses by the ledger validator, so it held
    assert!(find(&rejected, "Minimum lovelace").value);
    // run after it, so never reached
    let m = find(&rejected, "Minting");
    assert!(!m.value);
    assert!(m.description.starts_with("Error: Not evaluated"));
    assert!(find(&rejected, "Non empty inputs").value);
    let accepted = validate(
        EraKind::ShelleyMa,
        facts(1, &[1_800_000], 200_000),
        resolved(&[Some(2_000_000)]),
        &context("Shelley MA"),
        Ok(()),
    );
    let w = find(&accepted, "Witnesses");
    assert!(w.value);
    assert_eq!(w.description, "The owner of each transaction input signed the transaction.");
}

#[test]
fn min_lovelace_error_leaves_later_checks_unevaluated() {
    let v = validate(
        EraKind::Babbage,
        facts(1, &[1_800_000], 200_000),
        resolved(&[Some(2_000_000)]),
        &context("Babbage"),
        Err("Babbage(MinLovelaceUnreached)".to_string()),
    );
    let m = find(&v, "Minimum lovelace");
    assert!(!m.value);
    assert_eq!(m.description, "Error: Babbage(MinLovelaceUnreached)");
    assert!(find(&v, "Fee").value);
    assert!(!find(&v, "Witness set").value);
    assert!(find(&v, "Witness set").description.starts_with("Error: Not evaluated"));
}

#[test]
fn unplaced_ledger_error_leaves_checks_unevaluated() {
    let v = validate(
        EraKind::Alonzo,
        facts(1, &[1_800_000], 200_000),
        resolved(&[Some(2_000_000)]),
        &context("Alonzo"),
        Err("TxAndProtParamsDiffer".to_string()),
    );
    assert!(!find(&v, "Witness set").value);
    assert!(find(&v, "Witness set").description.starts_with("Error: Not evaluated"));
}

#[test]
fn script_era_fee_needs_the_size() {
    let mut f = facts(1, &[1_800_000], 200_000);
    f.size = None;
    let v = validate(EraKind::Alonzo, f, resolved(&[Some(2_000_000)]), &context("Alonzo"), Ok(()));
    let fee = find(&v, "Fee");
    assert!(!fee.value);
    assert_eq!(fee.description, "The size could not be obtained.");
    let mut f = facts(1, &[1_800_000], 200_000);
    f.size = None;
    let v = validate(EraKind::Babbage, f, resolved(&[Some(2_000_000)]), &context("Babbage"), Ok(()));
    assert_eq!(find(&v, "Fee").description, "The transaction size could not be obtained.");
}

#[test]
fn size_limit_and_unknown_size() {
    let mut f = facts(1, &[1_800_000], 200_000);
    f.size = Some(16385);
    let v = validate(EraKind::Alonzo, f, resolved(&[Some(2_000_000)]), &context("Alonzo"), Ok(()));
    assert!(!find(&v, "Transaction size").value);
    let mut f = facts(1, &[1_800_000], 200_000);
    f.size = None;
    let v = validate(EraKind::ShelleyMa, f, resolved(&[Some(2_000_000)]), &context("Shelley MA"), Ok(()));
    let size = find(&v, "Transaction size");
    assert!(!size.value);
    assert_eq!(size.description, "The transaction size could not be obtained.");
    assert_eq!(find(&v, "Fees").description, "The transaction size could not be obtained.");
}

#[test]
fn shelley_fee_is_linear_in_size() {
    // 44 * 300 + 155381 = 168581
    let v = validate(EraKind::ShelleyMa, facts(1, &[1], 168_581), resolved(&[Some(168_582)]), &context("Shelley MA"), Ok(()));
    assert!(find(&v, "Fees").value);
    let v = validate(EraKind::ShelleyMa, facts(1, &[1], 168_580), resolved(&[Some(168_581)]), &context("Shelley MA"), Ok(()));
    assert!(!find(&v, "Fees").value);
}

#[test]
fn byron_fee_uses_fixed_constants() {
    // 155381 + 44 * 300 = 168581; the fee is the surplus of inputs over outputs.
    let v = validate(EraKind::Byron, facts(1, &[1_000_000], 0), resolved(&[Some(1_168_581)]), &context("Byron"), Ok(()));
    assert!(find(&v, "Fees").value);
    let v = validate(EraKind::Byron, facts(1, &[1_000_000], 0), resolved(&[Some(1_168_580)]), &context("Byron"), Ok(()));
    assert!(!find(&v, "Fees").value);
}

#[test]
fn ttl_validity_interval_and_network() {
    let mut f = facts(1, &[1_800_000], 200_000);
    f.ttl = Some(99);
    let v = validate(EraKind::ShelleyMa, f, resolved(&[Some(2_000_000)]), &context("Shelley MA"), Ok(()));
    assert!(!find(&v, "TTL").value);
    let mut f = facts(1, &[1_800_000], 200_000);
    f.validity_start = Some(101);
    let v = validate(EraKind::Babbage, f, resolved(&[Some(2_000_000)]), &context("Babbage"), Ok(()));
    assert!(!find(&v, "Validity interval").value);
    let mut f = facts(1, &[1_800_000], 200_000);
    f.outputs[0].network_id = Some(0);
    let v = validate(EraKind::Alonzo, f, resolved(&[Some(2_000_000)]), &context("Alonzo"), Ok(()));
    assert!(!find(&v, "Network ID").value);
}

#[test]
fn byron_outputs_need_lovelace() {
    let v = validate(EraKind::Byron, facts(1, &[0], 0), resolved(&[Some(500_000)]), &context("Byron"), Ok(()));
    assert!(!find(&v, "Outputs have lovelace").value);
    let v = validate(EraKind::Byron, facts(1, &[], 0), resolved(&[Some(500_000)]), &context("Byron"), Ok(()));
    assert!(!find(&v, "Non empty outputs").value);
}

const POLICY: &str = "cccccccccccccccccccccccccccccccccccccccccccccccccccccccc";

fn entry_with_asset(lovelace: u64, name: &str, quantity: u64) -> UtxoEntry {
    let mut e = entry(lovelace);
    e.value.assets = vec![PolicyAssets {
        policy: POLICY.to_string(),
        assets: vec![AssetQuantity { name: name.to_string(), quantity }],
    }];
    e
}

fn unit(name: &str) -> String {
    format!("{POLICY}{name}")
}

#[test]
fn preservation_counts_mint_and_burn() {
    // inputs hold 10 of "01"; 5 are burned and 3 of "02" minted; outputs hold 5 and 3.
    let mut f = facts(1, &[1_800_000], 200_000);
    f.mint = vec![
        MintAmount { unit: unit("01"), quantity: -5 },
        MintAmount { unit: unit("02"), quantity: 3 },
    ];
    f.output_assets = vec![
        AssetAmount { unit: unit("01"), amount: 5 },
        AssetAmount { unit: unit("02"), amount: 3 },
    ];
    let res = Resolution {
        inputs: vec![Some(entry_with_asset(2_000_000, "01", 10))],
        collateral: vec![],
        reference_inputs: vec![],
    };
    let v = validate(EraKind::Babbage, f, res, &context("Babbage"), Ok(()));
    assert!(find(&v, "Preservation of value").value);
}

#[test]
fn preservation_fails_when_an_asset_is_off_by_one() {
    let mut f = facts(1, &[1_800_000], 200_000);
    f.output_assets = vec![AssetAmount { unit: unit("01"), amount: 11 }];
    let res = Resolution {
        inputs: vec![Some(entry_with_asset(2_000_000, "01", 10))],
        collateral: vec![],
        reference_inputs: vec![],
    };
    let v = validate(EraKind::Alonzo, f, res, &context("Alonzo"), Ok(()));
    assert!(!find(&v, "Preservation of value").value);
}

#[test]
fn per_era_entry_points_match_dispatch() {
    let ctx = context("Babbage (custom)");
    let b = validate_byron(facts(1, &[1], 1), resolved(&[Some(2)]), &ctx, Ok(()));
    assert_eq!(b.validations.len(), 7);
    let s = validate_shelley_ma(facts(1, &[1], 1), resolved(&[Some(2)]), &ctx, Ok(()));
    assert_eq!(s.validations.len(), 11);
    let a = validate_alonzo(facts(1, &[1], 1), resolved(&[Some(2)]), &ctx, Ok(()));
    assert_eq!(a.validations.len(), 15);
    let bb = validate_babbage(facts(1, &[1], 1), resolved(&[Some(2)]), &ctx, Ok(()));
    assert_eq!(bb.era, "Babbage (custom)");
    assert_eq!(bb.validations.len(), 16);
}

#[test]
fn auxiliary_data_without_declared_hash_fails() {
    let mut f = facts(1, &[1_800_000], 200_000);
    f.aux_data = Some(vec![0xa0]);
    let v = validate(EraKind::ShelleyMa, f, resolved(&[Some(2_000_000)]), &context("Shelley MA"), Ok(()));
    let m = find(&v, "Metadata");
    assert!(!m.value);
    assert_eq!(m.description, "Error: The auxiliary data does not match the hash declared in the transaction body.");
    let v = validate(EraKind::ShelleyMa, facts(1, &[1_800_000], 200_000), resolved(&[Some(2_000_000)]), &context("Shelley MA"), Err("x".to_string()));
    assert!(find(&v, "Metadata").value);
}

#[test]
fn nonstandard_input_counts_but_stays_unresolved() {
    let mut f = facts(1, &[1_000_000], 200_000);
    f.inputs.push(None);
    let v = validate(EraKind::Byron, f, resolved(&[Some(2_000_000), None]), &context("Byron"), Ok(()));
    assert!(find(&v, "Non empty inputs").value);
    assert!(!find(&v, "Inputs in UTXOs").value);
}
