//! What a transaction came to, and how a failed one is recognised by the
//! bytes that the contract reverted with.

use vstd::prelude::*;
use vstd::string::*;
use crate::bridge::LogRecord;
use crate::hash::{keccak256, keccak256_of};
use crate::primitives::Address;

verus! {

/// What the host reports of a transaction.
#[derive(Clone, Debug)]
pub enum ExecutionOutcome {
    /// A call that succeeded.
    Call { output: Vec<u8>, gas_used: u64, logs: Vec<LogRecord> },
    /// A creation that succeeded, with the address of the new contract if the
    /// host gave one.
    Create { output: Vec<u8>, address: Option<Address>, gas_used: u64, logs: Vec<LogRecord> },
    /// A transaction that the contract reverted.
    Revert { gas_used: u64, output: Vec<u8> },
    /// A transaction that the host halted.
    Halt { gas_used: u64 },
}

/// The result of a transaction that succeeded.
#[derive(Clone, Debug)]
pub struct TxResult {
    /// What the contract returned.
    pub output: Vec<u8>,
    /// The log entries of the transaction.
    pub logs: Vec<LogRecord>,
    /// The gas that the transaction used.
    pub gas_used: u64,
    /// Whether the transaction succeeded.
    pub status: bool,
}

/// Why a transaction gave no result.
#[derive(Clone, Debug)]
pub enum ExecError {
    /// The host failed; the text says how.
    EvmError(String),
    /// The transaction did not end as it was expected to.
    UnexpectedExecResult(ExecutionOutcome),
}

/// The address of a deployed contract: that of a creation that succeeded
/// and has an address. Any other outcome is unexpected and is handed back.
pub fn deployment_result(outcome: ExecutionOutcome) -> (r: Result<Address, ExecError>)
    ensures
        match r {
            Ok(addr) => outcome matches ExecutionOutcome::Create { address, .. } && address
                == Some(addr),
            Err(ExecError::UnexpectedExecResult(o)) => o == outcome && !(outcome matches ExecutionOutcome::Create {
                address,
                ..
            } && address.is_some()),
            Err(_) => false,
        },
{
    match outcome {
        ExecutionOutcome::Create { output, address: Some(addr), gas_used, logs } => Ok(addr),
        other => Err(ExecError::UnexpectedExecResult(other)),
    }
}

/// The result of a call: that of a call that succeeded. Any other outcome is
/// unexpected and is handed back.
pub fn tx_result(outcome: ExecutionOutcome) -> (r: Result<TxResult, ExecError>)
    ensures
        match r {
            Ok(tx) => {
                &&& outcome matches ExecutionOutcome::Call { output, gas_used, logs }
                &&& tx.output == output
                &&& tx.logs == logs
                &&& tx.gas_used == gas_used
                &&& tx.status
            },
            Err(ExecError::UnexpectedExecResult(o)) => o == outcome && !(outcome is Call),
            Err(_) => false,
        },
{
    match outcome {
        ExecutionOutcome::Call { output, gas_used, logs } => Ok(
            TxResult { output, logs, gas_used, status: true },
        ),
        other => Err(ExecError::UnexpectedExecResult(other)),
    }
}

/// The bytes that a failed transaction was reverted with, if it was
/// reverted.
pub open spec fn revert_output(e: ExecError) -> Option<Seq<u8>> {
    match e {
        ExecError::UnexpectedExecResult(ExecutionOutcome::Revert { gas_used, output }) => Some(
            output@,
        ),
        _ => None,
    }
}

/// The four bytes by which an error or a function is known: the first four
/// bytes of the hash of its signature.
pub open spec fn selector_of(signature: Seq<u8>) -> Seq<u8> {
    keccak256_of(signature).subrange(0, 4)
}

/// Whether two byte strings are the same.
pub fn same_bytes(a: &[u8], b: &[u8]) -> (r: bool)
    ensures
        r == (a@ == b@),
{
    if a.len() != b.len() {
        return false;
    }
    let mut i: usize = 0;
    while i < a.len()
        invariant
            i <= a@.len(),
            a@.len() == b@.len(),
            forall|j: int| 0 <= j < i ==> a@[j] == b@[j],
        decreases a@.len() - i,
    {
        if a[i] != b[i] {
            return false;
        }
        i += 1;
    }
    assert(a@ =~= b@);
    true
}

/// The selector of a signature.
pub fn selector(signature: &[u8]) -> (s: Vec<u8>)
    ensures
        s@ == selector_of(signature@),
        s@.len() == 4,
{
    let hash = keccak256(signature);
    crate::bytes::copy_range(hash.as_slice(), 0, 4)
}

impl ExecError {
    /// The bytes that the transaction was reverted with, if it was reverted.
    pub fn output(&self) -> (r: Option<&Vec<u8>>)
        ensures
            match revert_output(*self) {
                Some(bytes) => r matches Some(o) && o@ == bytes,
                None => r.is_none(),
            },
    {
        match self {
            ExecError::UnexpectedExecResult(ExecutionOutcome::Revert { gas_used, output }) => Some(
                output,
            ),
            _ => None,
        }
    }

    /// Whether the transaction was reverted with exactly the bytes of `err`.
    pub fn matches_string_error(&self, err: &str) -> (r: bool)
        ensures
            r == (revert_output(*self) == Some(err.spec_bytes())),
    {
        match self.output() {
            Some(output) => same_bytes(err.as_bytes(), output.as_slice()),
            None => false,
        }
    }

    /// Whether the transaction was reverted with the custom error of the
    /// signature `err`: whether the output begins with its selector.
    pub fn matches_custom_error(&self, err: &str) -> (r: bool)
        ensures
            r == (revert_output(*self) matches Some(output) && output.len() >= 4
                && output.subrange(0, 4) == selector_of(err.spec_bytes())),
    {
        match self.output() {
            Some(output) => {
                if output.len() < 4 {
                    return false;
                }
                let expected = selector(err.as_bytes());
                let found = crate::bytes::copy_range(output.as_slice(), 0, 4);
                same_bytes(expected.as_slice(), found.as_slice())
            },
            None => false,
        }
    }

    /// Whether the transaction was reverted with the custom error of the
    /// signature `err` and with the encoded arguments `args`. Empty `args`
    /// match any arguments.
    pub fn matches_custom_error_with_args(&self, err: &str, args: Vec<u8>) -> (r: bool)
        ensures
            r == (revert_output(*self) matches Some(output) && output.len() >= 4
                && output.subrange(0, 4) == selector_of(err.spec_bytes()) && (args@.len() == 0
                || output.subrange(4, output.len() as int) == args@)),
    {
        if !self.matches_custom_error(err) {
            return false;
        }
        match self.output() {
            Some(output) => {
                if args.len() == 0 {
                    return true;
                }
                let rest = crate::bytes::copy_range(output.as_slice(), 4, output.len());
                same_bytes(rest.as_slice(), args.as_slice())
            },
            None => false,
        }
    }
}

} // verus!
