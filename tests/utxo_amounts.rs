use pallas_inspect::utxo::{from_amounts, from_record, Amount, UtxoRecord};

fn amount(unit: &str, quantity: &str) -> Amount {
    Amount { unit: unit.to_string(), quantity: quantity.to_string() }
}

const POLICY_A: &str = "aaaaaaaaaaaaaaaaaaaaaaaaaaaaaaaaaaaaaaaaaaaaaaaaaaaaaaaa";
const POLICY_B: &str = "bbbbbbbbbbbbbbbbbbbbbbbbbbbbbbbbbbbbbbbbbbbbbbbbbbbbbbbb";

#[test]
fn amounts_group_assets_by_policy() {
    let amounts = vec![
        amount("lovelace", "1500000"),
        amount(&format!("{POLICY_A}746f6b656e"), "5"),
        amount(&format!("{POLICY_B}01"), "7"),
        amount(&format!("{POLICY_A}02"), "9"),
        amount("lovelace", "500000"),
    ];
    let v = from_amounts(&amounts);
    assert_eq!(v.lovelace, 2_000_000);
    assert_eq!(v.assets.len(), 2);
    assert_eq!(v.assets[0].policy, POLICY_A);
    assert_eq!(v.assets[0].assets.len(), 2);
    assert_eq!(v.assets[0].assets[0].name, "746f6b656e");
    assert_eq!(v.assets[0].assets[0].quantity, 5);
    assert_eq!(v.assets[0].assets[1].name, "02");
    assert_eq!(v.assets[0].assets[1].quantity, 9);
    assert_eq!(v.assets[1].policy, POLICY_B);
    assert_eq!(v.assets[1].assets[0].quantity, 7);
}

#[test]
fn unparsable_and_short_amounts_are_skipped() {
    let amounts = vec![
        amount("lovelace", "not a number"),
        amount("lovelace", "10"),
        amount("abcdef", "3"),
        amount(&format!("{POLICY_A}00"), "-4"),
    ];
    let v = from_amounts(&amounts);
    assert_eq!(v.lovelace, 10);
    assert!(v.assets.is_empty());
}

#[test]
fn huge_base_currency_totals_are_capped() {
    let amounts = vec![
        amount("lovelace", "18446744073709551615"),
        amount("lovelace", "1"),
    ];
    assert_eq!(from_amounts(&amounts).lovelace, u64::MAX);
}

#[test]
fn record_keeps_address_and_datum_fields() {
    let record = UtxoRecord {
        address: "addr1example".to_string(),
        amounts: vec![amount("lovelace", "42")],
        data_hash: Some("00ff".to_string()),
        inline_datum: None,
        reference_script_hash: Some("cafe".to_string()),
    };
    let e = from_record(&record);
    assert_eq!(e.address, "addr1example");
    assert_eq!(e.value.lovelace, 42);
    assert_eq!(e.datum_hash.as_deref(), Some("00ff"));
    assert!(e.inline_datum.is_none());
    assert_eq!(e.script_ref.as_deref(), Some("cafe"));
}
