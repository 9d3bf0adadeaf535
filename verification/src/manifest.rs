//! The manifest of a package, and what makes the package a contract: its
//! features, its two binaries and its dependencies.
//!
//! The manifest is read by the `toml` crate. The rules that decide whether the
//! package is a contract, and which of its dependencies are contracts, are
//! the library's own.

use vstd::prelude::*;
use vstd::string::*;
use crate::compile::{
    contract_views, Contract, ContractError, ContractName, ContractView, ContractWithDeps,
};
use crate::config::{resolve_path, resolved};
use crate::toml_tree::{
    contains_key, contains_text, has_key, holds_text, text_at, text_under, text_under_is,
    toml_array_of, toml_as_array, toml_as_str, toml_entries, toml_entries_of, toml_get,
    toml_get_of, toml_of, toml_parse, toml_str_of,
};

verus! {

/// The name of the package of a manifest: the text under `package.name`.
pub open spec fn package_name_of(manifest: toml::Value) -> Option<Seq<char>> {
    match toml_get_of(manifest, "package"@) {
        Some(package) => text_at(package, "name"@),
        None => None,
    }
}

/// Whether a manifest has the three features of a contract.
pub open spec fn features_ok(manifest: toml::Value) -> bool {
    &&& toml_get_of(manifest, "features"@) matches Some(features)
    &&& has_key(features, "default"@)
    &&& has_key(features, "deploy"@)
    &&& has_key(features, "interface-only"@)
}

/// Whether a binary requires the feature `deploy`: its required features are
/// that one text, or a list that holds it.
pub open spec fn requires_deploy(bin: toml::Value) -> bool {
    match toml_get_of(bin, "required-features"@) {
        Some(required) => toml_str_of(required) == Some("deploy"@) || (toml_array_of(
            required,
        ) matches Some(items) && holds_text(items, "deploy"@)),
        None => false,
    }
}

/// Whether a binary is built from the library of the package.
pub open spec fn from_lib(bin: toml::Value) -> bool {
    text_at(bin, "path"@) == Some("src/lib.rs"@)
}

/// Whether a binary is the runtime of a contract: it is named `runtime` and
/// built from `src/lib.rs`.
pub open spec fn is_runtime_bin(bin: toml::Value) -> bool {
    text_at(bin, "name"@) == Some("runtime"@) && from_lib(bin)
}

/// Whether a binary is the deployment of a contract: it is named `deploy`,
/// built from `src/lib.rs`, and requires the feature `deploy`.
pub open spec fn is_deploy_bin(bin: toml::Value) -> bool {
    text_at(bin, "name"@) == Some("deploy"@) && from_lib(bin) && requires_deploy(bin)
}

/// Whether one of the binaries is the runtime of a contract.
pub open spec fn has_runtime_bin(bins: Seq<toml::Value>) -> bool {
    exists|i: int| 0 <= i < bins.len() && is_runtime_bin(#[trigger] bins[i])
}

/// Whether one of the binaries is the deployment of a contract.
pub open spec fn has_deploy_bin(bins: Seq<toml::Value>) -> bool {
    exists|i: int| 0 <= i < bins.len() && is_deploy_bin(#[trigger] bins[i])
}

/// Whether a manifest has the two binaries of a contract.
pub open spec fn bins_ok(manifest: toml::Value) -> bool {
    &&& toml_get_of(manifest, "bin"@) matches Some(bin)
    &&& toml_array_of(bin) matches Some(bins)
    &&& has_runtime_bin(bins)
    &&& has_deploy_bin(bins)
}

/// The dependencies of a manifest: the entries of the table under
/// `dependencies`, where there is one.
pub open spec fn dependencies_of(manifest: toml::Value) -> Option<Seq<(Seq<char>, toml::Value)>> {
    match toml_get_of(manifest, "dependencies"@) {
        Some(deps) => toml_entries_of(deps),
        None => None,
    }
}

/// Whether a manifest that has dependencies has the two that every contract
/// needs.
pub open spec fn dependencies_ok(manifest: toml::Value) -> bool {
    dependencies_of(manifest).is_some() ==> has_key(
        toml_get_of(manifest, "dependencies"@)->0,
        "contract-derive"@,
    ) && has_key(toml_get_of(manifest, "dependencies"@)->0, "eth-riscv-runtime"@)
}

/// Whether a dependency is used with the feature `interface-only`.
pub open spec fn with_interface_only(dep: toml::Value) -> bool {
    &&& toml_get_of(dep, "features"@) matches Some(features)
    &&& toml_array_of(features) matches Some(items)
    &&& holds_text(items, "interface-only"@)
}

/// Whether a dependency is a contract: it is used with the feature
/// `interface-only` and lies at a path.
pub open spec fn is_contract_dep(dep: toml::Value) -> bool {
    with_interface_only(dep) && text_at(dep, "path"@).is_some()
}

/// The contract that a dependency stands for: its package is the name of the
/// dependency, its type is not known yet, and its path is the dependency's
/// path as seen from the directory of the manifest.
pub open spec fn dep_contract(parent_dir: Seq<char>, name: Seq<char>, dep: toml::Value) -> ContractView {
    ContractView {
        path: resolved(parent_dir, text_at(dep, "path"@)->0),
        package: name,
        ident: Seq::empty(),
    }
}

/// The contracts among the dependencies, in their order.
pub open spec fn contract_deps(
    parent_dir: Seq<char>,
    deps: Seq<(Seq<char>, toml::Value)>,
) -> Seq<ContractView>
    decreases deps.len(),
{
    if deps.len() == 0 {
        Seq::empty()
    } else if is_contract_dep(deps.last().1) {
        contract_deps(parent_dir, deps.drop_last()).push(
            dep_contract(parent_dir, deps.last().0, deps.last().1),
        )
    } else {
        contract_deps(parent_dir, deps.drop_last())
    }
}

/// What a manifest comes to: the name of the package and the contracts
/// among its dependencies, or the reason why the package is no contract.
///
/// A text that is no TOML, or has no package name, is no manifest; then the
/// features are looked at, then the binaries, then the dependencies.
pub open spec fn manifest_outcome(parent_dir: Seq<char>, content: Seq<char>) -> Result<
    (Seq<char>, Seq<ContractView>),
    ContractError,
> {
    match toml_of(content) {
        None => Err(ContractError::NotToml),
        Some(manifest) => if package_name_of(manifest).is_none() {
            Err(ContractError::NotToml)
        } else if !features_ok(manifest) {
            Err(ContractError::MissingFeatures)
        } else if !bins_ok(manifest) {
            Err(ContractError::MissingBinaries)
        } else if !dependencies_ok(manifest) {
            Err(ContractError::MissingDependencies)
        } else {
            Ok(
                (
                    package_name_of(manifest)->0,
                    match dependencies_of(manifest) {
                        Some(deps) => contract_deps(parent_dir, deps),
                        None => Seq::empty(),
                    },
                ),
            )
        },
    }
}

/// The name of the package of a manifest.
pub fn package_name<'a>(manifest: &'a toml::Value) -> (r: Option<&'a str>)
    ensures
        match r {
            Some(name) => package_name_of(*manifest) == Some(name@),
            None => package_name_of(*manifest).is_none(),
        },
{
    match toml_get(manifest, "package") {
        Some(package) => text_under(package, "name"),
        None => None,
    }
}

/// Whether a manifest has the three features of a contract.
pub fn check_features(manifest: &toml::Value) -> (r: bool)
    ensures
        r == features_ok(*manifest),
{
    match toml_get(manifest, "features") {
        Some(features) => contains_key(features, "default") && contains_key(features, "deploy")
            && contains_key(features, "interface-only"),
        None => false,
    }
}

/// Whether a binary requires the feature `deploy`.
pub fn check_requires_deploy(bin: &toml::Value) -> (r: bool)
    ensures
        r == requires_deploy(*bin),
{
    match toml_get(bin, "required-features") {
        Some(required) => {
            let as_text = match toml_as_str(required) {
                Some(text) => crate::gas::same_text(text, "deploy"),
                None => false,
            };
            as_text || match toml_as_array(required) {
                Some(items) => contains_text(items, "deploy"),
                None => false,
            }
        },
        None => false,
    }
}

/// Whether a manifest has the two binaries of a contract.
pub fn check_bins(manifest: &toml::Value) -> (r: bool)
    ensures
        r == bins_ok(*manifest),
{
    let bins = match toml_get(manifest, "bin") {
        Some(bin) => match toml_as_array(bin) {
            Some(bins) => bins,
            None => {
                return false;
            },
        },
        None => {
            return false;
        },
    };
    let mut has_runtime = false;
    let mut has_deploy = false;
    let mut i: usize = 0;
    while i < bins.len()
        invariant
            i <= bins@.len(),
            has_runtime == has_runtime_bin(bins@.subrange(0, i as int)),
            has_deploy == has_deploy_bin(bins@.subrange(0, i as int)),
        decreases bins@.len() - i,
    {
        let bin = &bins[i];
        let built_from_lib = text_under_is(bin, "path", "src/lib.rs");
        let ghost seen_runtime = has_runtime;
        let ghost seen_deploy = has_deploy;
        if text_under_is(bin, "name", "runtime") && built_from_lib {
            has_runtime = true;
        } else if text_under_is(bin, "name", "deploy") && built_from_lib && check_requires_deploy(
            bin,
        ) {
            has_deploy = true;
        }
        proof {
            reveal_strlit("runtime");
            reveal_strlit("deploy");
            assert("runtime"@.len() == 7 && "deploy"@.len() == 6);
            assert(has_runtime == (seen_runtime || is_runtime_bin(bins@[i as int])));
            assert(has_deploy == (seen_deploy || is_deploy_bin(bins@[i as int])));
            let before = bins@.subrange(0, i as int);
            let next = bins@.subrange(0, i + 1);
            assert(next[i as int] == bins@[i as int]);
            assert forall|j: int| 0 <= j < before.len() implies before[j] == next[j] by {}
            if has_runtime_bin(before) {
                let j = choose|j: int| 0 <= j < before.len() && is_runtime_bin(before[j]);
                assert(is_runtime_bin(next[j]));
            }
            if has_deploy_bin(before) {
                let j = choose|j: int| 0 <= j < before.len() && is_deploy_bin(before[j]);
                assert(is_deploy_bin(next[j]));
            }
            if has_runtime_bin(next) {
                let j = choose|j: int| 0 <= j < next.len() && is_runtime_bin(next[j]);
                if j < i {
                    assert(is_runtime_bin(before[j]));
                }
            }
            if has_deploy_bin(next) {
                let j = choose|j: int| 0 <= j < next.len() && is_deploy_bin(next[j]);
                if j < i {
                    assert(is_deploy_bin(before[j]));
                }
            }
        }
        i += 1;
    }
    assert(bins@.subrange(0, bins@.len() as int) =~= bins@);
    has_runtime && has_deploy
}

/// Whether a dependency is used with the feature `interface-only`.
pub fn check_interface_only(dep: &toml::Value) -> (r: bool)
    ensures
        r == with_interface_only(*dep),
{
    match toml_get(dep, "features") {
        Some(features) => match toml_as_array(features) {
            Some(items) => contains_text(items, "interface-only"),
            None => false,
        },
        None => false,
    }
}

/// The entries of a table without the references: the keys as texts, each
/// with its value.
pub open spec fn entry_values(found: Seq<(String, &toml::Value)>) -> Seq<(Seq<char>, toml::Value)> {
    Seq::new(found.len(), |i: int| (found[i].0@, *found[i].1))
}

/// The contracts among the dependencies, in their order, with their paths
/// as seen from `parent_dir`.
pub fn collect_contract_deps(parent_dir: &str, deps: &Vec<(String, &toml::Value)>) -> (r: Vec<
    Contract,
>)
    ensures
        contract_views(r@) == contract_deps(parent_dir@, entry_values(deps@)),
{
    let mut r: Vec<Contract> = Vec::new();
    let mut i: usize = 0;
    proof {
        assert(contract_views(r@) =~= Seq::<ContractView>::empty());
        assert(entry_values(deps@).subrange(0, 0) =~= Seq::<(Seq<char>, toml::Value)>::empty());
    }
    while i < deps.len()
        invariant
            i <= deps@.len(),
            contract_views(r@) == contract_deps(
                parent_dir@,
                entry_values(deps@).subrange(0, i as int),
            ),
        decreases deps@.len() - i,
    {
        let dep = deps[i].1;
        proof {
            let next = entry_values(deps@).subrange(0, i + 1);
            assert(next.drop_last() =~= entry_values(deps@).subrange(0, i as int));
            assert(next.last() == (deps@[i as int].0@, *deps@[i as int].1));
        }
        if check_interface_only(dep) {
            match text_under(dep, "path") {
                Some(rel_path) => {
                    let ghost before = contract_views(r@);
                    let c = Contract {
                        path: resolve_path(parent_dir, rel_path),
                        name: ContractName { package: deps[i].0.clone(), ident: String::new() },
                    };
                    r.push(c);
                    assert(contract_views(r@) =~= before.push(
                        dep_contract(parent_dir@, deps@[i as int].0@, *dep),
                    ));
                },
                None => {},
            }
        }
        i += 1;
    }
    assert(entry_values(deps@).subrange(0, deps@.len() as int) =~= entry_values(deps@));
    r
}

/// The contract of a package, from the text of its manifest and the
/// directory in which the manifest lies. The paths of the dependencies are
/// as seen from that directory.
pub fn contract_from_manifest(parent_dir: &str, content: &str) -> (r: Result<
    ContractWithDeps,
    ContractError,
>)
    ensures
        match r {
            Ok(c) => {
                &&& manifest_outcome(parent_dir@, content@) matches Ok((package, deps))
                &&& c.path@ == parent_dir@
                &&& c.name.package@ == package
                &&& c.name.ident@.len() == 0
                &&& contract_views(c.deps@) == deps
            },
            Err(ContractError::NotToml) => manifest_outcome(parent_dir@, content@) matches Err(
                ContractError::NotToml,
            ),
            Err(ContractError::MissingFeatures) => manifest_outcome(
                parent_dir@,
                content@,
            ) matches Err(ContractError::MissingFeatures),
            Err(ContractError::MissingBinaries) => manifest_outcome(
                parent_dir@,
                content@,
            ) matches Err(ContractError::MissingBinaries),
            Err(ContractError::MissingDependencies) => manifest_outcome(
                parent_dir@,
                content@,
            ) matches Err(ContractError::MissingDependencies),
            Err(_) => false,
        },
{
    let manifest = match toml_parse(content) {
        Some(manifest) => manifest,
        None => {
            return Err(ContractError::NotToml);
        },
    };
    let package = match package_name(&manifest) {
        Some(name) => String::from_str(name),
        None => {
            return Err(ContractError::NotToml);
        },
    };
    if !check_features(&manifest) {
        return Err(ContractError::MissingFeatures);
    }
    if !check_bins(&manifest) {
        return Err(ContractError::MissingBinaries);
    }
    let entries = match toml_get(&manifest, "dependencies") {
        Some(deps) => {
            let entries = toml_entries(deps);
            if entries.is_some() && !(contains_key(deps, "contract-derive") && contains_key(
                deps,
                "eth-riscv-runtime",
            )) {
                return Err(ContractError::MissingDependencies);
            }
            entries
        },
        None => None,
    };
    let deps = match entries {
        Some(found) => {
            proof {
                assert(entry_values(found@) =~= dependencies_of(manifest)->0);
            }
            collect_contract_deps(parent_dir, &found)
        },
        None => {
            let none: Vec<Contract> = Vec::new();
            assert(contract_views(none@) =~= Seq::<ContractView>::empty());
            none
        },
    };
    Ok(
        ContractWithDeps {
            path: String::from_str(parent_dir),
            name: ContractName { package, ident: String::new() },
            deps,
        },
    )
}

} // verus!
