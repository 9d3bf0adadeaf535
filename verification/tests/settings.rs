use r55::compile::{
    group_contracts, name_contract, name_contract_with_deps, Contract, ContractName,
    ContractWithDeps,
};
use r55::config::{list_entry, lookup, text_entry, texts_of, ConfigError, R55Config};
use r55::frames::FrameStack;
use r55::primitives::Address;

#[test]
fn a_configuration_file_overrides_the_defaults() {
    let content = r#"
src = ["contracts", "examples"]
out = "build"
remappings = ["@std/=lib/std/"]
exclude = ["target/*"]
unknown = 5

[profile]
optimizer = true
"#;
    let config = R55Config::from_toml(content).unwrap();
    assert_eq!(config.src, vec!["contracts", "examples"]);
    assert_eq!(config.out, "build");
    assert_eq!(config.libs, vec!["lib"]);
    assert_eq!(config.test, vec!["test"]);
    assert_eq!(config.script, vec!["script"]);
    assert_eq!(config.remappings, vec!["@std/=lib/std/"]);
    assert_eq!(config.exclude, vec!["target/*"]);
    assert_eq!(config.get_remappings().get("@std/"), Some(&"lib/std/".to_string()));
}

#[test]
fn an_empty_file_is_the_default_configuration() {
    let config = R55Config::from_toml("").unwrap();
    let default = R55Config::default();
    assert_eq!(config.src, default.src);
    assert_eq!(config.out, default.out);
    assert_eq!(config.libs, default.libs);
    assert_eq!(config.test, default.test);
    assert_eq!(config.script, default.script);
    assert!(config.remappings.is_empty());
    assert!(config.exclude.is_empty());
    let empty_lists = R55Config::from_toml("src = []\nlibs = []").unwrap();
    assert!(empty_lists.src.is_empty());
    assert!(empty_lists.libs.is_empty());
}

#[test]
fn a_file_with_the_wrong_types_is_refused() {
    assert_eq!(R55Config::from_toml("src = [").err(), Some(ConfigError::NotToml));
    assert_eq!(
        R55Config::from_toml("src = \"src\"").err(),
        Some(ConfigError::WrongType("src".to_string()))
    );
    assert_eq!(
        R55Config::from_toml("out = [\"out\"]").err(),
        Some(ConfigError::WrongType("out".to_string()))
    );
    assert_eq!(
        R55Config::from_toml("libs = [\"lib\", 3]").err(),
        Some(ConfigError::WrongType("libs".to_string()))
    );
    assert_eq!(
        R55Config::from_toml("exclude = 1\nscript = 2").err(),
        Some(ConfigError::WrongType("script".to_string()))
    );
    assert_eq!(
        R55Config::from_toml("[remappings]\na = 1").err(),
        Some(ConfigError::WrongType("remappings".to_string()))
    );
}

#[test]
fn entries_and_their_fallbacks() {
    let file = "list = [\"a\", \"b\"]\nempty = []\nmixed = [\"a\", 1]\ntext = \"t\"\nflag = true"
        .parse::<toml::Value>()
        .unwrap();
    let fallback = vec!["f".to_string()];
    assert_eq!(list_entry(&file, "absent", fallback.clone()), Ok(fallback.clone()));
    assert_eq!(
        list_entry(&file, "list", fallback.clone()),
        Ok(vec!["a".to_string(), "b".to_string()])
    );
    assert_eq!(list_entry(&file, "empty", fallback.clone()), Ok(vec![]));
    assert_eq!(
        list_entry(&file, "mixed", fallback.clone()),
        Err(ConfigError::WrongType("mixed".to_string()))
    );
    assert_eq!(
        list_entry(&file, "text", fallback),
        Err(ConfigError::WrongType("text".to_string()))
    );
    assert_eq!(text_entry(&file, "absent", "f".to_string()), Ok("f".to_string()));
    assert_eq!(text_entry(&file, "text", "f".to_string()), Ok("t".to_string()));
    assert_eq!(
        text_entry(&file, "flag", "f".to_string()),
        Err(ConfigError::WrongType("flag".to_string()))
    );
    assert_eq!(
        text_entry(&file, "list", "f".to_string()),
        Err(ConfigError::WrongType("list".to_string()))
    );
    let items = file.get("mixed").unwrap().as_array().unwrap();
    assert_eq!(texts_of(items), None);
    let items = file.get("list").unwrap().as_array().unwrap();
    assert_eq!(texts_of(items), Some(vec!["a".to_string(), "b".to_string()]));
}

fn contract(package: &str) -> Contract {
    Contract {
        path: format!("/c/{}", package),
        name: ContractName { package: package.to_string(), ident: String::new() },
    }
}

fn with_deps(package: &str, deps: &[&str]) -> ContractWithDeps {
    let c = contract(package);
    ContractWithDeps { path: c.path, name: c.name, deps: deps.iter().map(|d| contract(d)).collect() }
}

#[test]
fn contracts_get_their_names_by_path() {
    let idents = vec![
        ("/c/erc20".to_string(), "Old".to_string()),
        ("/c/erc20x".to_string(), "ERC20x".to_string()),
        ("/c/erc20".to_string(), "ERC20".to_string()),
    ];
    assert_eq!(lookup(&idents, "/c/erc20"), Some(&"ERC20".to_string()));
    assert_eq!(lookup(&idents, "/c/erc721"), None);
    assert_eq!(name_contract(contract("erc20"), &idents).name.ident, "ERC20");
    let mut unnamed = contract("erc721");
    unnamed.name.ident = "Kept".to_string();
    assert_eq!(name_contract(unnamed, &idents).name.ident, "Kept");
    let named = name_contract_with_deps(with_deps("erc20x", &["erc20", "erc721"]), &idents);
    assert_eq!(named.name.ident, "ERC20x");
    assert_eq!(named.name.package, "erc20x");
    assert_eq!(named.path, "/c/erc20x");
    assert_eq!(named.deps[0].name.ident, "ERC20");
    assert_eq!(named.deps[0].path, "/c/erc20");
    assert_eq!(named.deps[1].name.ident, "");
    assert_eq!(named.deps.len(), 2);
}

#[test]
fn contracts_are_grouped_by_whether_they_have_dependencies() {
    let map = group_contracts(vec![
        with_deps("a", &[]),
        with_deps("b", &["a"]),
        with_deps("c", &[]),
        with_deps("d", &["b", "c"]),
    ]);
    let packages = |key: bool| -> Vec<String> {
        map[&key].iter().map(|c| c.name.package.clone()).collect()
    };
    assert_eq!(packages(true), vec!["a", "c"]);
    assert_eq!(packages(false), vec!["b", "d"]);
    let plain = group_contracts(vec![with_deps("a", &[])]);
    assert!(plain.contains_key(&true));
    assert!(!plain.contains_key(&false));
    assert!(group_contracts(vec![]).is_empty());
}

#[test]
fn a_created_contract_is_noted_in_the_newest_frame_only() {
    let mut stack = FrameStack::new();
    let created = Address::from_bytes(&[3u8; 20]).unwrap();
    stack.note_created(created);
    assert_eq!(stack.depth(), 0);
    stack.push(None);
    stack.note_created(created);
    assert_eq!(stack.depth(), 1);
    assert!(stack.slots[0].is_none());
}
