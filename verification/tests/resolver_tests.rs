use dojima_bot::{resolve, prefix_from_lookup, BotError, ConfigStore, Origin};

#[test]
fn direct_origin_gets_default_regardless_of_store() {
    let mut store = ConfigStore::new();
    assert_eq!(resolve(&store, Origin::Direct), "td!");
    assert_eq!(store.set_prefix(42, String::from("??")), Ok(()));
    assert_eq!(resolve(&store, Origin::Direct), "td!");
}

#[test]
fn guild_with_record_gets_custom_prefix() {
    let mut store = ConfigStore::new();
    assert_eq!(store.set_prefix(42, String::from("??")), Ok(()));
    assert_eq!(resolve(&store, Origin::Guild(42)), "??");
}

#[test]
fn guild_without_record_gets_default() {
    let store = ConfigStore::new();
    assert_eq!(resolve(&store, Origin::Guild(42)), "td!");
}

#[test]
fn lookup_outcomes_fall_back_to_default() {
    assert_eq!(prefix_from_lookup(Ok(Some(String::from("zz")))), "zz");
    assert_eq!(prefix_from_lookup(Ok(None)), "td!");
    assert_eq!(prefix_from_lookup(Err(BotError::Storage)), "td!");
}
