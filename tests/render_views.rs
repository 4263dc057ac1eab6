use pallas_inspect::render::{
    tx_output_section, AssetView, DatumView, OutputDatum, OutputView, PolicyView,
};

fn asset_output() -> OutputView {
    OutputView {
        bytes: vec![0x82],
        address: Ok("addr1xyz".to_string()),
        lovelace: 1_500_000,
        datum: Some(OutputDatum::Inline(DatumView {
            bytes: vec![0x01],
            hash: "aa".to_string(),
            json: "{\"int\":1}".to_string(),
        })),
        assets: vec![PolicyView {
            policy: "cc".to_string(),
            assets: vec![AssetView {
                name: b"tok".to_vec(),
                ascii: Some("tok".to_string()),
                minted: None,
                held: Some(7),
            }],
        }],
    }
}

#[test]
fn output_section_shows_the_view() {
    let s = tx_output_section(&asset_output());
    assert!(s.error.is_none());
    assert_eq!(s.bytes.as_deref(), Some("82"));
    assert_eq!(s.attributes[0].value.as_deref(), Some("addr1xyz"));
    assert_eq!(s.attributes[1].value.as_deref(), Some("1500000"));
    assert_eq!(s.children.len(), 2);
    assert_eq!(s.children[0].topic.as_deref(), Some("tx_datum"));
    let assets = &s.children[1];
    assert_eq!(assets.children.len(), 1);
    let asset = &assets.children[0].children[0].children[0];
    assert_eq!(asset.attributes[0].value.as_deref(), Some("746f6b"));
    assert_eq!(asset.attributes[2].value.as_deref(), Some("7"));
}

#[test]
fn unreadable_address_gives_error_only_output() {
    let mut v = asset_output();
    v.address = Err("bad address".to_string());
    let s = tx_output_section(&v);
    assert_eq!(s.error.as_deref(), Some("bad address"));
    assert!(s.attributes.is_empty() && s.children.is_empty() && s.bytes.is_none());
}
