use share_consumer::client::ClientConfig;

#[test]
fn get_after_set_returns_value() {
    let mut config = ClientConfig::new();
    config.set("bootstrap.servers", "localhost:9092");
    assert_eq!(config.get("bootstrap.servers"), Some("localhost:9092"));
    assert_eq!(config.get("missing"), None);
}

#[test]
fn set_replaces_earlier_value() {
    let mut config = ClientConfig::new();
    config.set("a", "1").set("b", "2").set("a", "3");
    assert_eq!(config.get("a"), Some("3"));
    assert_eq!(config.get("b"), Some("2"));
    let map = config.config_map();
    assert_eq!(map.get("a").copied(), Some("3"));
    assert_eq!(map.get("c").copied(), None);
}

#[test]
fn clone_keeps_properties() {
    let mut config = ClientConfig::new();
    config.set("k", "v");
    let copy = config.clone();
    config.set("k", "w");
    assert_eq!(copy.get("k"), Some("v"));
    assert_eq!(config.get("k"), Some("w"));
}
