use contract_diagram::output_format::OutputFormat;
use contract_diagram::sample::{
    Contract, ExampleStruct, NearEvent, Nep171EventKind, NftBurnData, NftMintData, SomeStruct,
    SomeTrait,
};

#[test]
fn counter_contract_adds() {
    let mut c = Contract::new(5);
    c.add(3);
    assert_eq!(c.count, 8);
    c.add(2);
    assert_eq!(c.count, 12);
    c.multiply(3);
    assert_eq!(c.count, 36);
    c.call_trait_fn();
    assert_eq!(c.view_trait_fn(), 370);
    assert_eq!(c.show_amount(), 37);
    assert_eq!(SomeStruct::add_two(40), 42);
    assert_eq!(ExampleStruct::foo(vec![1, 2, 3]), 3);
}

#[test]
fn events_are_version_one() {
    let event = NearEvent::log_nft_mint("alice".to_string(), vec!["t1".to_string()], None);
    match event {
        NearEvent::Nep171(ev) => {
            assert_eq!(ev.version, "1.0.0");
            match ev.event_kind {
                Nep171EventKind::NftMint(v) => {
                    assert_eq!(v.len(), 1);
                    assert_eq!(v[0].owner_id, "alice");
                    assert_eq!(v[0].token_ids, vec!["t1".to_string()]);
                }
                _ => panic!("expected a mint"),
            }
        }
    }
    let burn = NearEvent::log_nft_burn("bob".to_string(), vec![], Some("m".to_string()), None);
    let NearEvent::Nep171(ev) = burn;
    assert!(matches!(ev.event_kind, Nep171EventKind::NftBurn(ref v) if v[0].memo.as_deref() == Some("m")));
    let transfer = NearEvent::log_nft_transfer(
        "a".to_string(),
        "b".to_string(),
        vec!["t".to_string()],
        None,
        Some("c".to_string()),
    );
    let NearEvent::Nep171(ev) = transfer;
    assert!(matches!(ev.event_kind, Nep171EventKind::NftTransfer(ref v)
        if v[0].old_owner_id == "a" && v[0].new_owner_id == "b" && v[0].authorized_id.as_deref() == Some("c")));
    let custom = NearEvent::new_171("2.0.0".to_string(), Nep171EventKind::NftBurn(vec![NftBurnData {
        authorized_id: None,
        owner_id: "o".to_string(),
        token_ids: vec![],
        memo: None,
    }]));
    let NearEvent::Nep171(ev) = custom;
    assert_eq!(ev.version, "2.0.0");
    let mints = NearEvent::log_nft_mints(vec![
        NftMintData { owner_id: "x".to_string(), token_ids: vec![], memo: None },
        NftMintData { owner_id: "y".to_string(), token_ids: vec![], memo: None },
    ]);
    let NearEvent::Nep171(ev) = mints;
    assert!(matches!(ev.event_kind, Nep171EventKind::NftMint(ref v) if v.len() == 2));
}

#[test]
fn output_format_by_name() {
    assert_eq!(OutputFormat::from_name("Jpg"), OutputFormat::Jpg);
    assert_eq!(OutputFormat::from_name("Pdf"), OutputFormat::Pdf);
    assert_eq!(OutputFormat::from_name("Png"), OutputFormat::Png);
    assert_eq!(OutputFormat::from_name("Svg"), OutputFormat::Svg);
    assert_eq!(OutputFormat::from_name("png"), OutputFormat::Svg);
    assert_eq!("Pdf".parse::<OutputFormat>(), Ok(OutputFormat::Pdf));
    assert_eq!("".parse::<OutputFormat>(), Ok(OutputFormat::Svg));
}
