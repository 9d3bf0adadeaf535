use r55::compile::{
    find_contract_ident, has_contract_attribute, Contract, ContractError, ContractName,
    ContractWithDeps, ImplBlock,
};
use r55::config::R55Config;
use r55::deployable::deployable_source;
use r55::manifest::{
    check_bins, check_features, check_interface_only, check_requires_deploy,
    contract_from_manifest, package_name,
};

const MANIFEST: &str = r#"
[package]
name = "erc20x"
version = "0.1.0"

[features]
default = []
deploy = []
interface-only = []

[dependencies]
contract-derive = { path = "../../contract-derive" }
eth-riscv-runtime = { path = "../../eth-riscv-runtime" }
erc20 = { path = "../erc20", features = ["interface-only"] }
alloy-core = { version = "0.7.4", default-features = false }
zeta = { version = "1", features = ["interface-only"] }
beta = { path = "/abs/beta", features = ["std", "interface-only"] }

[[bin]]
name = "runtime"
path = "src/lib.rs"

[[bin]]
name = "deploy"
path = "src/lib.rs"
required-features = ["deploy"]
"#;

fn dep(package: &str, path: &str) -> Contract {
    Contract {
        path: path.to_string(),
        name: ContractName { package: package.to_string(), ident: String::new() },
    }
}

#[test]
fn a_manifest_with_all_parts_is_a_contract() {
    let contract = contract_from_manifest("/project/examples/erc20x", MANIFEST).unwrap();
    assert_eq!(contract.path, "/project/examples/erc20x");
    assert_eq!(contract.name.package, "erc20x");
    assert_eq!(contract.name.ident, "");
    assert_eq!(
        contract.deps,
        vec![
            dep("beta", "/abs/beta"),
            dep("erc20", "/project/examples/erc20x/../erc20"),
        ]
    );
}

#[test]
fn what_is_no_manifest_is_not_toml() {
    for content in ["", "this is = = no toml", "[package]\nversion = \"1\"", "[package]\nname = 5"] {
        assert!(matches!(contract_from_manifest("/p", content), Err(ContractError::NotToml)));
    }
}

#[test]
fn the_parts_are_checked_in_order() {
    let no_features = MANIFEST.replace("interface-only = []\n", "");
    assert!(matches!(
        contract_from_manifest("/p", &no_features),
        Err(ContractError::MissingFeatures)
    ));
    let features_no_table = "[package]\nname = \"x\"\nfeatures = 3\n";
    assert!(matches!(
        contract_from_manifest("/p", features_no_table),
        Err(ContractError::MissingFeatures)
    ));
    let no_deploy = MANIFEST.replace("required-features = [\"deploy\"]", "");
    assert!(matches!(
        contract_from_manifest("/p", &no_deploy),
        Err(ContractError::MissingBinaries)
    ));
    let other_path = MANIFEST.replace("name = \"runtime\"\npath = \"src/lib.rs\"", "name = \"runtime\"\npath = \"src/main.rs\"");
    assert!(matches!(
        contract_from_manifest("/p", &other_path),
        Err(ContractError::MissingBinaries)
    ));
    let no_runtime_dep = MANIFEST.replace("eth-riscv-runtime = { path = \"../../eth-riscv-runtime\" }\n", "");
    assert!(matches!(
        contract_from_manifest("/p", &no_runtime_dep),
        Err(ContractError::MissingDependencies)
    ));
    let both_missing = no_features.replace("required-features = [\"deploy\"]", "");
    assert!(matches!(
        contract_from_manifest("/p", &both_missing),
        Err(ContractError::MissingFeatures)
    ));
}

#[test]
fn required_features_may_be_a_text() {
    let as_text = MANIFEST.replace("required-features = [\"deploy\"]", "required-features = \"deploy\"");
    assert!(contract_from_manifest("/p", &as_text).is_ok());
    let other_text = MANIFEST.replace("required-features = [\"deploy\"]", "required-features = \"other\"");
    assert!(matches!(
        contract_from_manifest("/p", &other_text),
        Err(ContractError::MissingBinaries)
    ));
    let a_number = MANIFEST.replace("required-features = [\"deploy\"]", "required-features = 1");
    assert!(matches!(
        contract_from_manifest("/p", &a_number),
        Err(ContractError::MissingBinaries)
    ));
}

#[test]
fn a_manifest_without_dependencies_has_none() {
    let start = MANIFEST.find("[dependencies]").unwrap();
    let end = MANIFEST.find("[[bin]]").unwrap();
    let without = format!("{}{}", &MANIFEST[..start], &MANIFEST[end..]);
    let contract = contract_from_manifest("/p", &without).unwrap();
    assert!(contract.deps.is_empty());
}

fn value(text: &str) -> toml::Value {
    text.parse::<toml::Value>().unwrap()
}

#[test]
fn the_rules_on_the_parts() {
    assert_eq!(package_name(&value("[package]\nname = \"erc20\"")), Some("erc20"));
    assert_eq!(package_name(&value("[package]\nname = 1")), None);
    assert_eq!(package_name(&value("package = \"erc20\"")), None);
    assert_eq!(package_name(&value("name = \"erc20\"")), None);

    assert!(check_features(&value(
        "[features]\n\"interface-only\" = []\ndefault = []\nstd = []\ndeploy = []"
    )));
    assert!(!check_features(&value("[features]\ndefault = []\ndeploy = []")));
    assert!(!check_features(&value("[features]")));
    assert!(!check_features(&value("features = [\"default\", \"deploy\", \"interface-only\"]")));
    assert!(!check_features(&value("")));

    let runtime = "[[bin]]\nname = \"runtime\"\npath = \"src/lib.rs\"\n";
    let deploy =
        "[[bin]]\nname = \"deploy\"\npath = \"src/lib.rs\"\nrequired-features = [1, \"deploy\"]\n";
    assert!(check_bins(&value(&format!("{}{}", deploy, runtime))));
    assert!(!check_bins(&value(runtime)));
    assert!(!check_bins(&value(deploy)));
    assert!(!check_bins(&value("bin = []")));
    assert!(!check_bins(&value("[bin]\nname = \"runtime\"")));
    assert!(!check_bins(&value("")));
    let unnamed = "[[bin]]\npath = \"src/lib.rs\"\n";
    assert!(!check_bins(&value(&format!("{}{}", unnamed, deploy))));
    let runtime_that_deploys =
        "[[bin]]\nname = \"runtime\"\npath = \"src/lib.rs\"\nrequired-features = \"deploy\"\n";
    assert!(!check_bins(&value(runtime_that_deploys)));
    assert!(check_bins(&value(&format!("{}{}", runtime_that_deploys, deploy))));

    assert!(check_requires_deploy(&value("required-features = \"deploy\"")));
    assert!(check_requires_deploy(&value("required-features = [\"std\", \"deploy\"]")));
    assert!(!check_requires_deploy(&value("required-features = [\"std\"]")));
    assert!(!check_requires_deploy(&value("required-features = \"std\"")));
    assert!(!check_requires_deploy(&value("required-features = true")));
    assert!(!check_requires_deploy(&value("")));

    assert!(check_interface_only(&value("features = [\"interface-only\"]")));
    assert!(!check_interface_only(&value("features = \"interface-only\"")));
    assert!(!check_interface_only(&value("features = []")));
    assert!(!check_interface_only(&value("path = \"interface-only\"")));
}

#[test]
fn only_dependencies_with_the_interface_and_a_path_are_contracts() {
    let manifest = MANIFEST.replace(
        "zeta = { version = \"1\", features = [\"interface-only\"] }",
        "zeta = { path = 5, features = [\"interface-only\"] }\ntext = \"1.0\"",
    );
    let contract = contract_from_manifest("/c", &manifest).unwrap();
    assert_eq!(contract.deps, vec![dep("beta", "/abs/beta"), dep("erc20", "/c/../erc20")]);
    let as_text = "[package]\nname = \"x\"\n[features]\ndefault = []\ndeploy = []\n\"interface-only\" = []\n\
[[bin]]\nname = \"runtime\"\npath = \"src/lib.rs\"\n[[bin]]\nname = \"deploy\"\npath = \"src/lib.rs\"\nrequired-features = \"deploy\"\n";
    let no_table = format!("dependencies = \"none\"\n{}", as_text);
    assert!(contract_from_manifest("/c", &no_table).unwrap().deps.is_empty());
}

#[test]
fn excluded_paths_match_a_pattern() {
    let mut config = R55Config::default();
    assert!(!config.should_exclude("src/lib.rs"));
    config.exclude = vec!["[".to_string(), "target/*".to_string(), "*.bin".to_string()];
    assert!(config.should_exclude("target/debug"));
    assert!(config.should_exclude("out/erc20.bin"));
    assert!(!config.should_exclude("src/lib.rs"));
    assert!(!config.should_exclude("["));
}

fn block(attributes: &[&[&str]], self_type: Option<&str>) -> ImplBlock {
    ImplBlock {
        attributes: attributes
            .iter()
            .map(|path| path.iter().map(|s| s.to_string()).collect())
            .collect(),
        self_type: self_type.map(|s| s.to_string()),
    }
}

#[test]
fn the_contract_is_the_first_marked_impl_block() {
    let blocks = vec![
        block(&[], Some("Helper")),
        block(&[&["derive"], &["contract", "extra"]], Some("NotThis")),
        block(&[&["contract"]], None),
        block(&[&["allow"], &["contract"]], Some("ERC20")),
        block(&[&["contract"]], Some("Later")),
    ];
    assert_eq!(find_contract_ident(&blocks), Some("ERC20".to_string()));
    assert_eq!(find_contract_ident(&blocks[..3]), None);
    assert_eq!(find_contract_ident(&[]), None);
    assert!(has_contract_attribute(&blocks[2]));
    assert!(!has_contract_attribute(&blocks[1]));
    assert!(!has_contract_attribute(&blocks[0]));
}

#[test]
fn the_source_for_the_dependencies() {
    let contract = ContractWithDeps {
        path: "/p/erc20x".to_string(),
        name: ContractName { package: "erc20x".to_string(), ident: "ERC20x".to_string() },
        deps: vec![Contract {
            path: "/p/erc20".to_string(),
            name: ContractName { package: "erc20".to_string(), ident: "Erc20".to_string() },
        }],
    };
    let expected = "//! Deployable implementations for the contract dependencies of this package\n\n\
use alloy_core::primitives::{Address, Bytes};\n\
use eth_riscv_runtime::{create::Deployable, InitInterface, ReadOnly};\n\
use core::include_bytes;\n\n\
use erc20::IErc20;\n\
\n\
const ERC20_BYTECODE: &'static [u8] = include_bytes!(\"../../../r55-output-bytecode/erc20.bin\");\n\
\n\
pub struct Erc20;\n\n\
impl Deployable for Erc20 {\n    type Interface = IErc20<ReadOnly>;\n\n    fn __runtime() -> &'static [u8] {\n        ERC20_BYTECODE\n    }\n}\n\n";
    assert_eq!(deployable_source(&contract), expected);
    let none = ContractWithDeps { deps: vec![], ..contract };
    assert!(deployable_source(&none).ends_with("use core::include_bytes;\n\n\n\n"));
}
