use pallas_inspect::facts::Resolution;
use pallas_inspect::params::{ProtocolParams, ValidationContext};
use pallas_inspect::render::{print_metadatum, tx_plutus_script_section, MetadatumView};
use pallas_inspect::utxo::{UtxoEntry, UtxoValue};
use pallas_inspect::block::{self, safe_parse_block, BlockView, HeaderSlot};
use pallas_inspect::validate::{decode_and_render_transaction, decode_facts, parse, safe_parse_tx};
use pallas_inspect::validation::{set_description, Validation, Validations};

const SHELLEY_BALANCED: &str = "84a40081825820000102030405060708090a0b0c0d0e0f101112131415161718191a1b1c1d1e1f00018182581d61070707070707070707070707070707070707070707070707070707071a001b7740021a00030d4003191388a0f5f6";
const SHELLEY_OFF_BY_ONE: &str = "84a40081825820000102030405060708090a0b0c0d0e0f101112131415161718191a1b1c1d1e1f00018182581d61070707070707070707070707070707070707070707070707070707071a001b7741021a00030d4003191388a0f5f6";
const SHELLEY_NO_INPUTS: &str = "84a40080018182581d61070707070707070707070707070707070707070707070707070707071a001b7740021a00030d4003191388a0f5f6";
const SHELLEY_WITH_METADATA: &str = "84a50081825820000102030405060708090a0b0c0d0e0f101112131415161718191a1b1c1d1e1f00018182581d61070707070707070707070707070707070707070707070707070707071a001b7740021a00030d4003191388075820d7ba91517436868e215bf424f0db9369f1efe988166ad4e82554409154341ec0a0f5a101626869";
const SHELLEY_WRONG_METADATA_HASH: &str = "84a50081825820000102030405060708090a0b0c0d0e0f101112131415161718191a1b1c1d1e1f00018182581d61070707070707070707070707070707070707070707070707070707071a001b7740021a00030d40031913880758200000000000000000000000000000000000000000000000000000000000000000a0f5a101626869";
const BYRON_NONSTANDARD_INPUT: &str = "82838182014100818282d818582183581c09090909090909090909090909090909090909090909090909090909a0001930391a000f4240a080";
const BYRON_ONE_IN_ONE_OUT: &str = "8283818200d8185824825820000102030405060708090a0b0c0d0e0f101112131415161718191a1b1c1d1e1f00818282d818582183581c09090909090909090909090909090909090909090909090909090909a0001930391a000f4240a080";

fn context(era: &str) -> ValidationContext {
    let mut p = ProtocolParams::new();
    p.max_tx_size = 16384;
    ValidationContext {
        protocol_params: p,
        network: "Mainnet".to_string(),
        era: era.to_string(),
        block_slot: 100,
    }
}

fn one_input(lovelace: Option<u64>) -> Resolution {
    Resolution {
        inputs: vec![lovelace.map(|l| UtxoEntry {
            address: "addr".to_string(),
            value: UtxoValue { lovelace: l, assets: vec![] },
            datum_hash: None,
            inline_datum: None,
            script_ref: None,
        })],
        collateral: vec![],
        reference_inputs: vec![],
    }
}

fn find<'a>(v: &'a Validations, name: &str) -> &'a Validation {
    v.validations.iter().find(|x| x.name == name).expect("check is in the battery")
}

#[test]
fn malformed_hex_gives_error_only_tree() {
    for raw in ["zz", "abc", "0g", "not hex at all"] {
        let s = decode_and_render_transaction(raw);
        assert!(s.error.as_ref().map_or(false, |e| !e.is_empty()));
        assert!(s.children.is_empty() && s.attributes.is_empty() && s.topic.is_none());
    }
}

#[test]
fn undecodable_bytes_give_error_only_tree() {
    let s = decode_and_render_transaction("00ff");
    assert!(s.error.as_ref().map_or(false, |e| !e.is_empty()));
    assert!(s.children.is_empty());
}

#[test]
fn valid_transaction_renders_without_error() {
    let s = decode_and_render_transaction(SHELLEY_BALANCED);
    assert!(s.error.is_none());
    assert_eq!(s.topic.as_deref(), Some("cbor_parse"));
    assert_eq!(s.children.len(), 1);
    let tx = &s.children[0];
    assert_eq!(tx.topic.as_deref(), Some("tx"));
    let child_topics: Vec<_> = tx.children.iter().map(|c| c.topic.clone().unwrap()).collect();
    assert_eq!(
        child_topics,
        vec!["tx_inputs", "tx_collateral", "tx_outputs", "tx_reference_inputs", "tx_mints", "tx_metadata", "tx_witnesses"]
    );
    assert_eq!(tx.attributes[2].value.as_deref(), Some("200000"));
    let outputs = &tx.children[2];
    assert_eq!(outputs.children.len(), 1);
    assert_eq!(outputs.children[0].attributes[1].value.as_deref(), Some("1800000"));
}

#[test]
fn fixture_preservation_of_value() {
    let ok = safe_parse_tx(SHELLEY_BALANCED.to_string(), context("Shelley MA"), one_input(Some(2_000_000)), Ok(()));
    assert!(ok.section.error.is_none());
    assert_eq!(ok.validations.era, "Shelley Mary Allegra");
    assert!(find(&ok.validations, "Preservation of value").value);
    assert!(find(&ok.validations, "Inputs in UTxOs").value);
    let off = safe_parse_tx(SHELLEY_OFF_BY_ONE.to_string(), context("Shelley MA"), one_input(Some(2_000_000)), Ok(()));
    assert!(!find(&off.validations, "Preservation of value").value);
}

#[test]
fn fixture_without_inputs_fails_non_empty_inputs() {
    let v = safe_parse_tx(SHELLEY_NO_INPUTS.to_string(), context("Shelley MA"), Resolution { inputs: vec![], collateral: vec![], reference_inputs: vec![] }, Ok(()));
    assert!(v.section.error.is_none());
    assert!(!find(&v.validations, "Non empty inputs").value);
}

#[test]
fn fixture_unresolved_input_is_reported() {
    let v = safe_parse_tx(SHELLEY_BALANCED.to_string(), context("Shelley MA"), one_input(None), Ok(()));
    let check = find(&v.validations, "Inputs in UTxOs");
    assert!(!check.value);
    assert!(check.description.starts_with("Error: Unresolved input"));
}

#[test]
fn byron_fixture_passes_size_inputs_and_lovelace() {
    let v = safe_parse_tx(BYRON_ONE_IN_ONE_OUT.to_string(), context("Byron"), one_input(Some(2_000_000)), Ok(()));
    assert!(v.section.error.is_none());
    assert_eq!(v.validations.era, "Byron");
    assert!(find(&v.validations, "Transaction size").value);
    assert!(find(&v.validations, "Non empty inputs").value);
    assert!(find(&v.validations, "Outputs have lovelace").value);
}

#[test]
fn facts_of_fixture() {
    let f = decode_facts(SHELLEY_BALANCED, &"Shelley MA".to_string()).expect("decodes");
    assert_eq!(f.inputs.len(), 1);
    assert_eq!(f.inputs[0].as_ref().unwrap().index, 0);
    assert_eq!(f.inputs[0].as_ref().unwrap().tx_hash, "000102030405060708090a0b0c0d0e0f101112131415161718191a1b1c1d1e1f");
    assert_eq!(f.outputs.len(), 1);
    assert_eq!(f.outputs[0].lovelace, 1_800_000);
    assert_eq!(f.outputs[0].network_id, Some(1));
    assert_eq!(f.fee, Some(200_000));
    assert_eq!(f.ttl, Some(5000));
    assert!(f.size.is_some());
    assert!(decode_facts("xyz", &"Shelley MA".to_string()).is_err());
}

#[test]
fn malformed_transaction_gives_empty_report() {
    let v = safe_parse_tx("zz".to_string(), context("Babbage"), one_input(None), Ok(()));
    assert!(v.section.error.is_some());
    assert!(v.validations.validations.is_empty());
}

#[test]
fn malformed_block_sets_root_error() {
    let s = safe_parse_block("nothex".to_string());
    assert_eq!(s.topic.as_deref(), Some("cbor_parse"));
    assert!(s.error.is_some());
    assert!(s.children.is_empty());
}

#[test]
fn set_description_prefixes_errors() {
    assert_eq!(set_description(&Ok(()), "fine".to_string()), "fine");
    assert_eq!(set_description(&Err("Bad".to_string()), "fine".to_string()), "Error: Bad");
}

#[test]
fn validation_builders_set_fields() {
    let v = Validation::new().with_name("Fees".to_string()).with_value(true).with_description("ok".to_string());
    assert_eq!(v.name, "Fees");
    assert!(v.value);
    assert_eq!(v.description, "ok");
    let all = Validations::new().with_era("Alonzo".to_string()).add_new_validation(v);
    assert_eq!(all.era, "Alonzo");
    assert_eq!(all.validations.len(), 1);
}

#[test]
fn script_section_topic_and_bytes() {
    let s = tx_plutus_script_section("v2", &[0x4e, 0x4d]);
    assert_eq!(s.topic.as_deref(), Some("plutus_v2_script"));
    assert_eq!(s.bytes.as_deref(), Some("4e4d"));
}

#[test]
fn metadatum_rendering() {
    assert_eq!(print_metadatum(&MetadatumView::Int("-5".to_string())), "-5");
    assert_eq!(print_metadatum(&MetadatumView::Bytes(vec![0xde, 0xad])), "dead");
    assert_eq!(print_metadatum(&MetadatumView::Text("hi".to_string())), "hi");
    assert_eq!(print_metadatum(&MetadatumView::Array), "[Array]");
    assert_eq!(print_metadatum(&MetadatumView::KeyValueMap), "[Map]");
}

#[test]
fn parse_separates_success_and_failure() {
    let ok = parse(BYRON_ONE_IN_ONE_OUT.to_string(), context("Byron"), one_input(Some(2_000_000)), Ok(()));
    let (section, validations) = ok.expect("decodes");
    assert!(section.error.is_none());
    assert_eq!(validations.validations.len(), 7);
    let bad = parse("0".to_string(), context("Byron"), one_input(None), Ok(()));
    let err = bad.err().expect("odd-length text is rejected");
    assert!(err.error.as_ref().map_or(false, |e| !e.is_empty()));
}

#[test]
fn block_parse_never_fails_outright() {
    let s = block::parse("00".to_string()).expect("errors are absorbed into the tree");
    assert!(s.error.is_some());
    assert!(s.children.is_empty());
}

#[test]
fn metadata_hash_is_checked_against_the_auxiliary_data() {
    let good = safe_parse_tx(SHELLEY_WITH_METADATA.to_string(), context("Shelley MA"), one_input(Some(2_000_000)), Ok(()));
    assert!(good.section.error.is_none());
    assert!(find(&good.validations, "Metadata").value);
    let bad = safe_parse_tx(SHELLEY_WRONG_METADATA_HASH.to_string(), context("Shelley MA"), one_input(Some(2_000_000)), Ok(()));
    assert!(!find(&bad.validations, "Metadata").value);
}

#[test]
fn metadata_is_rendered_by_label() {
    let s = decode_and_render_transaction(SHELLEY_WITH_METADATA);
    let tx = &s.children[0];
    let metadata = &tx.children[5];
    assert_eq!(metadata.topic.as_deref(), Some("tx_metadata"));
    assert_eq!(metadata.children.len(), 1);
    let entry = &metadata.children[0];
    assert_eq!(entry.attributes[0].value.as_deref(), Some("1"));
    assert_eq!(entry.attributes[1].value.as_deref(), Some("hi"));
}

#[test]
fn witnesses_section_is_present_and_empty_for_fixture() {
    let s = decode_and_render_transaction(SHELLEY_BALANCED);
    let tx = &s.children[0];
    assert_eq!(tx.children[6].topic.as_deref(), Some("tx_witnesses"));
    assert!(tx.children[6].children.is_empty());
    let inputs = &tx.children[0];
    assert_eq!(inputs.children.len(), 1);
    assert_eq!(inputs.children[0].attributes[0].value.as_deref(), Some("000102030405060708090a0b0c0d0e0f101112131415161718191a1b1c1d1e1f"));
    assert_eq!(inputs.children[0].attributes[1].value.as_deref(), Some("0"));
}

#[test]
fn block_slot_is_absolute_and_checked() {
    use_slot_cases();
}

fn use_slot_cases() {
    assert_eq!(block::slot_of_header(&HeaderSlot::Absolute(42)), Some(42));
    assert_eq!(block::slot_of_header(&HeaderSlot::InEpoch(1, 5)), Some(21605));
    assert_eq!(block::slot_of_header(&HeaderSlot::EpochStart(208)), Some(4_492_800));
    assert_eq!(block::slot_of_header(&HeaderSlot::InEpoch(209, 7)), Some(4_924_807));
    assert_eq!(block::slot_of_header(&HeaderSlot::InEpoch(u64::MAX, 0)), None);
}

#[test]
fn block_view_renders_header_and_transactions() {
    let v = BlockView {
        era: "Byron".to_string(),
        slot: HeaderSlot::InEpoch(2, 3),
        hash: "ab".to_string(),
        txs: vec![("cd".to_string(), vec![0x01, 0xff])],
    };
    let s = block::block_section(&v);
    let header = &s.children[0];
    assert_eq!(header.attributes[1].value.as_deref(), Some("43203"));
    let body = &s.children[1];
    assert_eq!(body.children.len(), 1);
    assert_eq!(body.children[0].bytes.as_deref(), Some("01ff"));
    assert_eq!(body.children[0].attributes[0].value.as_deref(), Some("cd"));
}

#[test]
fn nonstandard_byron_input_does_not_panic() {
    let v = safe_parse_tx(BYRON_NONSTANDARD_INPUT.to_string(), context("Byron"), one_input(None), Ok(()));
    assert!(v.section.error.is_none());
    let inputs = &v.section.children[0].children[0];
    assert_eq!(inputs.children.len(), 1);
    assert!(inputs.children[0].error.is_some());
    assert!(inputs.children[0].attributes.is_empty());
    assert!(find(&v.validations, "Non empty inputs").value);
    assert!(!find(&v.validations, "Inputs in UTXOs").value);
}
