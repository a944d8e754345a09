use databend_query::spiller::{Spiller, SpillerConfig};

#[test]
fn spiller_config_keeps_its_prefix() {
    let c = SpillerConfig::create("_spill/".to_string());
    assert_eq!(format!("{:?}", c), "SpillerConfig { location_prefix: \"_spill/\" }");
    let op = opendal::Operator::new(opendal::services::Memory::default()).unwrap();
    let _spiller = Spiller::create(op, c);
}

#[test]
fn spiller_is_created_over_an_operator() {
    let op = opendal::Operator::new(opendal::services::Memory::default()).unwrap();
    let _spiller = Spiller::create(op, SpillerConfig::create("p".to_string()));
}
