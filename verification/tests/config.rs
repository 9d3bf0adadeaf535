use r55::config::R55Config;

#[test]
fn test_default_config() {
    let config = R55Config::default();
    assert_eq!(config.src, vec!["src", "contracts"]);
    assert_eq!(config.out, "out");
    assert_eq!(config.libs, vec!["lib"]);
}

#[test]
fn test_parse_remappings() {
    let mut config = R55Config::default();
    config.remappings = vec![
        "@openzeppelin/=lib/openzeppelin-contracts/".to_string(),
        "@chainlink/=lib/chainlink/".to_string(),
    ];

    let mappings = config.get_remappings();
    assert_eq!(
        mappings.get("@openzeppelin/"),
        Some(&"lib/openzeppelin-contracts/".to_string())
    );
    assert_eq!(
        mappings.get("@chainlink/"),
        Some(&"lib/chainlink/".to_string())
    );
}
