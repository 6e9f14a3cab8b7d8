use lunalib::luna_lib::{create_miner, LunaLib};

#[test]
fn test_version() {
    assert_eq!(LunaLib::get_version(), "1.0.0");
}

#[test]
fn test_available_classes() {
    let classes = LunaLib::get_available_classes();
    assert!(classes.iter().any(|(name, _)| *name == "Wallet"));
    assert!(classes.iter().any(|(name, _)| *name == "Miner"));
    assert!(classes.iter().any(|(name, _)| *name == "GTX"));
    assert!(classes.iter().any(|(name, _)| *name == "Transaction"));
    assert!(classes.iter().any(|(name, _)| *name == "Blockchain"));
    assert!(classes.iter().any(|(name, _)| *name == "Mempool"));
}

#[test]
fn test_create_miner() {
    let _miner = create_miner();
}

#[test]
fn crate_version_is_reported() {
    assert_eq!(lunalib::LunaLib::version(), "0.1.0");
    assert_eq!(LunaLib::get_available_classes().len(), 6);
    assert_eq!(LunaLib::get_available_classes()[1], ("Miner", "GenesisMiner - Mining operations"));
}
