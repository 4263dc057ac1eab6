use pallas_inspect::params::{
    alonzo_params, lookup_network, parse_option_i32_to_u32, parse_option_string_to_i64,
    parse_option_string_to_u32, parse_string_to_i64, select_network, shelley_params, Network,
    ProtocolParams,
};

#[test]
fn rational_fields_round_trip_exactly() {
    let mut p = ProtocolParams::new();
    p.a0_numerator = 3;
    p.a0_denominator = 8;
    p.rho_numerator = 6;
    p.rho_denominator = 16;
    p.price_mem_numerator = 577;
    p.price_mem_denominator = 10000;
    let s = shelley_params(&p);
    assert_eq!(s.pool_pledge_influence.numerator, 3);
    assert_eq!(s.pool_pledge_influence.denominator, 8);
    assert_eq!(s.expansion_rate.numerator, 6);
    assert_eq!(s.expansion_rate.denominator, 16);
    let a = alonzo_params(&p);
    assert_eq!(a.pool_pledge_influence.numerator, 3);
    assert_eq!(a.pool_pledge_influence.denominator, 8);
    assert_eq!(a.mem_price.numerator, 577);
    assert_eq!(a.mem_price.denominator, 10000);
}

#[test]
fn negative_fields_become_zero() {
    let mut p = ProtocolParams::new();
    p.key_deposit = -5;
    p.min_utxo = 1_000_000;
    p.protocol_major_ver = 8;
    p.protocol_minor_ver = -1;
    let s = shelley_params(&p);
    assert_eq!(s.key_deposit, 0);
    assert_eq!(s.min_utxo_value, 1_000_000);
    assert_eq!(s.protocol_major, 8);
    assert_eq!(s.protocol_minor, 0);
}

#[test]
fn new_params_are_all_zero() {
    let p = ProtocolParams::new();
    assert_eq!(p.epoch, 0);
    assert_eq!(p.max_tx_size, 0);
    assert_eq!(p.coins_per_utxo_word, 0);
}

#[test]
fn numeric_text_parsing_defaults_to_zero() {
    assert_eq!(parse_string_to_i64("2000000".to_string()), 2_000_000);
    assert_eq!(parse_string_to_i64("-17".to_string()), -17);
    assert_eq!(parse_string_to_i64("12a".to_string()), 0);
    assert_eq!(parse_string_to_i64("".to_string()), 0);
    assert_eq!(parse_option_string_to_i64(Some("42".to_string())), 42);
    assert_eq!(parse_option_string_to_i64(None), 0);
    assert_eq!(parse_option_string_to_u32(Some("16384".to_string())), 16384);
    assert_eq!(parse_option_string_to_u32(Some("4294967296".to_string())), 0);
    assert_eq!(parse_option_string_to_u32(Some("-1".to_string())), 0);
    assert_eq!(parse_option_i32_to_u32(Some(150)), 150);
    assert_eq!(parse_option_i32_to_u32(Some(-3)), 0);
    assert_eq!(parse_option_i32_to_u32(None), 0);
}

#[test]
fn network_table_and_default() {
    assert_eq!(lookup_network(&"Preprod".to_string()), Some(Network::Preprod));
    assert_eq!(lookup_network(&"Atlantis".to_string()), None);
    let main = select_network(&"Mainnet".to_string());
    assert_eq!(main.magic(), 764824073);
    assert_eq!(main.network_id(), 1);
    let preview = select_network(&"Preview".to_string());
    assert_eq!(preview.magic(), 2);
    assert_eq!(preview.network_id(), 0);
    assert_eq!(select_network(&"Preprod".to_string()).magic(), 1);
    assert_eq!(select_network(&"Atlantis".to_string()), Network::Mainnet);
}
