//! The source file that lets a contract deploy the contracts that it depends
//! on: for each of them an import of its interface, a constant with its
//! bytecode, and an implementation of `Deployable`.

use vstd::prelude::*;
use vstd::string::*;
use crate::compile::{Contract, ContractWithDeps};

verus! {

/// The upper-case form of a text, as `str::to_uppercase` gives it.
pub uninterp spec fn uppercase_of(text: Seq<char>) -> Seq<char>;

/// Calls `str::to_uppercase`; the contract only gives its result a name.
#[verifier::external_body]
fn text_to_uppercase(text: &str) -> (r: String)
    ensures
        r@ == uppercase_of(text@),
{
    text.to_uppercase()
}

/// The lines with which the file begins.
pub open spec fn header() -> Seq<char> {
    "//! Deployable implementations for the contract dependencies of this package\n\n"@
        + "use alloy_core::primitives::{Address, Bytes};\n"@
        + "use eth_riscv_runtime::{create::Deployable, InitInterface, ReadOnly};\n"@
        + "use core::include_bytes;\n\n"@
}

/// The import of the interface of a dependency.
pub open spec fn import_line(package: Seq<char>, ident: Seq<char>) -> Seq<char> {
    "use "@ + package + "::I"@ + ident + ";\n"@
}

/// The constant with the bytecode of a dependency.
pub open spec fn bytecode_line(package: Seq<char>, ident: Seq<char>) -> Seq<char> {
    "const "@ + uppercase_of(ident)
        + "_BYTECODE: &'static [u8] = include_bytes!(\"../../../r55-output-bytecode/"@ + package
        + ".bin\");\n"@
}

/// The type of a dependency and its implementation of `Deployable`.
pub open spec fn impl_block(ident: Seq<char>) -> Seq<char> {
    "pub struct "@ + ident + ";\n\n"@ + "impl Deployable for "@ + ident + " {\n"@
        + "    type Interface = I"@ + ident + "<ReadOnly>;\n\n"@
        + "    fn __runtime() -> &'static [u8] {\n"@ + "        "@ + uppercase_of(ident)
        + "_BYTECODE\n"@ + "    }\n"@ + "}\n\n"@
}

/// The imports of the first `n` dependencies.
pub open spec fn imports(deps: Seq<Contract>, n: int) -> Seq<char>
    decreases n,
{
    if n <= 0 {
        Seq::empty()
    } else {
        imports(deps, n - 1) + import_line(deps[n - 1].name.package@, deps[n - 1].name.ident@)
    }
}

/// The constants of the first `n` dependencies.
pub open spec fn bytecodes(deps: Seq<Contract>, n: int) -> Seq<char>
    decreases n,
{
    if n <= 0 {
        Seq::empty()
    } else {
        bytecodes(deps, n - 1) + bytecode_line(deps[n - 1].name.package@, deps[n - 1].name.ident@)
    }
}

/// The types and implementations of the first `n` dependencies.
pub open spec fn impl_blocks(deps: Seq<Contract>, n: int) -> Seq<char>
    decreases n,
{
    if n <= 0 {
        Seq::empty()
    } else {
        impl_blocks(deps, n - 1) + impl_block(deps[n - 1].name.ident@)
    }
}

/// The whole file: the header, the imports, an empty line, the constants,
/// an empty line, and the types with their implementations.
pub open spec fn deployable_source_of(deps: Seq<Contract>) -> Seq<char> {
    header() + imports(deps, deps.len() as int) + "\n"@ + bytecodes(deps, deps.len() as int)
        + "\n"@ + impl_blocks(deps, deps.len() as int)
}

/// The source file for the dependencies of a contract.
pub fn deployable_source(contract: &ContractWithDeps) -> (content: String)
    ensures
        content@ == deployable_source_of(contract.deps@),
{
    let deps = &contract.deps;
    let mut content = String::from_str(
        "//! Deployable implementations for the contract dependencies of this package\n\n",
    );
    content.append("use alloy_core::primitives::{Address, Bytes};\n");
    content.append("use eth_riscv_runtime::{create::Deployable, InitInterface, ReadOnly};\n");
    content.append("use core::include_bytes;\n\n");
    assert(content@ =~= header());
    let mut i: usize = 0;
    while i < deps.len()
        invariant
            i <= deps@.len(),
            content@ == header() + imports(deps@, i as int),
        decreases deps@.len() - i,
    {
        let ghost before = content@;
        content.append("use ");
        content.append(deps[i].name.package.as_str());
        content.append("::I");
        content.append(deps[i].name.ident.as_str());
        content.append(";\n");
        i += 1;
        assert(content@ =~= before + import_line(
            deps@[i - 1].name.package@,
            deps@[i - 1].name.ident@,
        ));
        assert(content@ =~= header() + imports(deps@, i as int));
    }
    content.append("\n");
    let ghost top = content@;
    let mut i: usize = 0;
    assert(content@ =~= top + bytecodes(deps@, 0));
    while i < deps.len()
        invariant
            i <= deps@.len(),
            content@ == top + bytecodes(deps@, i as int),
        decreases deps@.len() - i,
    {
        let ghost before = content@;
        let const_name = text_to_uppercase(deps[i].name.ident.as_str());
        content.append("const ");
        content.append(const_name.as_str());
        content.append("_BYTECODE: &'static [u8] = include_bytes!(\"../../../r55-output-bytecode/");
        content.append(deps[i].name.package.as_str());
        content.append(".bin\");\n");
        i += 1;
        assert(content@ =~= before + bytecode_line(
            deps@[i - 1].name.package@,
            deps@[i - 1].name.ident@,
        ));
        assert(content@ =~= top + bytecodes(deps@, i as int));
    }
    content.append("\n");
    let ghost middle = content@;
    let mut i: usize = 0;
    assert(content@ =~= middle + impl_blocks(deps@, 0));
    while i < deps.len()
        invariant
            i <= deps@.len(),
            content@ == middle + impl_blocks(deps@, i as int),
        decreases deps@.len() - i,
    {
        let ghost before = content@;
        let ident = deps[i].name.ident.as_str();
        let const_name = text_to_uppercase(ident);
        content.append("pub struct ");
        content.append(ident);
        content.append(";\n\n");
        content.append("impl Deployable for ");
        content.append(ident);
        content.append(" {\n");
        content.append("    type Interface = I");
        content.append(ident);
        content.append("<ReadOnly>;\n\n");
        content.append("    fn __runtime() -> &'static [u8] {\n");
        content.append("        ");
        content.append(const_name.as_str());
        content.append("_BYTECODE\n");
        content.append("    }\n");
        content.append("}\n\n");
        i += 1;
        assert(content@ =~= before + impl_block(deps@[i - 1].name.ident@));
        assert(content@ =~= middle + impl_blocks(deps@, i as int));
    }
    assert(content@ =~= deployable_source_of(deps@));
    content
}

} // verus!
