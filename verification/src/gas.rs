//! The gas model: a ledger with a limit, the host-equivalent costs of
//! storage and call syscalls, and the cost of a burst of RISC-V instructions
//! by instruction class.

use vstd::prelude::*;
use vstd::string::*;

verus! {

/// Reading a storage slot for the first time in a transaction.
pub const SLOAD_COLD: u64 = 2100;

/// Reading a storage slot that was touched before.
pub const SLOAD_WARM: u64 = 100;

/// Writing a storage slot for the first time in a transaction.
pub const SSTORE_COLD: u64 = 2200;

/// Writing a storage slot that was touched before.
pub const SSTORE_WARM: u64 = 100;

/// Calling an account for the first time in a transaction.
pub const CALL_NEW_ACCOUNT: u64 = 2600;

/// Sending value along with a call.
pub const CALL_VALUE: u64 = 9000;

/// Calling an account that was touched before.
pub const CALL_BASE: u64 = 100;

/// What decoding empty call data costs in every call: taken off the cost of
/// a burst, so that the charge reflects the contract's own logic.
pub const ABI_DECODE_COST: u64 = 9_175_538;

/// The gas of one call frame: what it may spend and what is left of it.
#[derive(Clone, Copy, Debug, PartialEq, Eq, Structural)]
pub struct Gas {
    /// What the frame may spend in all.
    pub limit: u64,
    /// What is left of it.
    pub remaining: u64,
}

impl Gas {
    /// The limit that the ledger was opened with.
    pub open spec fn spec_limit(self) -> nat {
        self.limit as nat
    }

    /// What is left to spend.
    pub open spec fn spec_remaining(self) -> nat {
        self.remaining as nat
    }

    /// What was spent so far.
    pub open spec fn spec_spent(self) -> nat {
        (self.spec_limit() - self.spec_remaining()) as nat
    }

    /// A ledger never holds more than its limit.
    pub open spec fn wf(self) -> bool {
        self.spec_remaining() <= self.spec_limit()
    }

    /// A ledger with nothing spent.
    pub fn new(limit: u64) -> (g: Gas)
        ensures
            g.wf(),
            g.spec_limit() == limit,
            g.spec_remaining() == limit,
    {
        Gas { limit, remaining: limit }
    }

    /// The limit of the ledger.
    pub fn limit(&self) -> (l: u64)
        ensures
            l == self.spec_limit(),
    {
        self.limit
    }

    /// What is left to spend.
    pub fn remaining(&self) -> (r: u64)
        ensures
            r == self.spec_remaining(),
    {
        self.remaining
    }

    /// What was spent so far.
    pub fn spent(&self) -> (s: u64)
        requires
            self.wf(),
        ensures
            s == self.spec_spent(),
    {
        self.limit - self.remaining
    }

    /// Charges `cost`. A charge that exceeds what is left is refused and
    /// leaves the ledger as it was.
    pub fn record_cost(&mut self, cost: u64) -> (ok: bool)
        requires
            old(self).wf(),
        ensures
            final(self).wf(),
            final(self).spec_limit() == old(self).spec_limit(),
            ok == (cost <= old(self).spec_remaining()),
            ok ==> final(self).spec_remaining() == old(self).spec_remaining() - cost,
            !ok ==> *final(self) == *old(self),
    {
        if cost <= self.remaining {
            self.remaining = self.remaining - cost;
            true
        } else {
            false
        }
    }
}

/// The cost of reading a storage slot.
pub fn sload_cost(is_cold: bool) -> (c: u64)
    ensures
        c == if is_cold { SLOAD_COLD } else { SLOAD_WARM },
{
    if is_cold {
        SLOAD_COLD
    } else {
        SLOAD_WARM
    }
}

/// The cost of writing a storage slot.
pub fn sstore_cost(is_cold: bool) -> (c: u64)
    ensures
        c == if is_cold { SSTORE_COLD } else { SSTORE_WARM },
{
    if is_cold {
        SSTORE_COLD
    } else {
        SSTORE_WARM
    }
}

/// What the host knows of the account that a call goes to.
#[derive(Clone, Copy, Debug, PartialEq, Eq, Structural)]
pub enum AccountAccess {
    /// The host could not load the account.
    Missing,
    /// The account is touched for the first time in this transaction.
    Cold,
    /// The account was touched before.
    Warm,
}

/// The surcharge of a call to an account that the host has: for an account
/// that is touched for the first time or one that was touched before, and for
/// value sent along.
pub open spec fn call_cost_of(is_cold: bool, value: u64) -> nat {
    let account: nat = if is_cold {
        CALL_NEW_ACCOUNT as nat
    } else {
        CALL_BASE as nat
    };
    let transfer: nat = if value != 0 {
        CALL_VALUE as nat
    } else {
        0
    };
    account + transfer
}

/// The surcharge of a call to an account that the host has.
pub fn call_cost(is_cold: bool, value: u64) -> (c: u64)
    ensures
        c == call_cost_of(is_cold, value),
{
    let account: u64 = if is_cold {
        CALL_NEW_ACCOUNT
    } else {
        CALL_BASE
    };
    let transfer: u64 = if value != 0 {
        CALL_VALUE
    } else {
        0
    };
    account + transfer
}

/// Whether `name` is one of the load instructions.
pub open spec fn is_load(name: Seq<char>) -> bool {
    name == "lb"@ || name == "lh"@ || name == "lw"@ || name == "ld"@ || name == "lbu"@ || name
        == "lhu"@ || name == "lwu"@
}

/// Whether `name` is one of the store instructions.
pub open spec fn is_store(name: Seq<char>) -> bool {
    name == "sb"@ || name == "sh"@ || name == "sw"@ || name == "sd"@ || name == "sc.w"@ || name
        == "sc.d"@
}

/// Whether `name` is one of the branch and jump instructions.
pub open spec fn is_branch(name: Seq<char>) -> bool {
    name == "beq"@ || name == "bne"@ || name == "blt"@ || name == "bge"@ || name == "bltu"@
        || name == "bgeu"@ || name == "jal"@ || name == "jalr"@
}

/// The cost of one instruction by its mnemonic: 25 for division and
/// remainder, 5 for multiplication, 3 for loads, stores, branches and jumps,
/// 1 for everything else.
pub open spec fn multiplier_of(name: Seq<char>) -> nat {
    if "div"@.is_prefix_of(name) || "rem"@.is_prefix_of(name) {
        25
    } else if "mul"@.is_prefix_of(name) {
        5
    } else if is_load(name) || is_store(name) || is_branch(name) {
        3
    } else {
        1
    }
}

/// Whether `prefix` is how `s` begins.
pub fn has_prefix(s: &str, prefix: &str) -> (b: bool)
    ensures
        b == prefix@.is_prefix_of(s@),
{
    let n = prefix.unicode_len();
    if s.unicode_len() < n {
        return false;
    }
    let mut i: usize = 0;
    while i < n
        invariant
            i <= n,
            n == prefix@.len(),
            n <= s@.len(),
            forall|j: int| 0 <= j < i ==> s@[j] == prefix@[j],
        decreases n - i,
    {
        if s.get_char(i) != prefix.get_char(i) {
            return false;
        }
        i += 1;
    }
    assert(s@.subrange(0, n as int) =~= prefix@);
    true
}

/// Whether two texts are the same.
pub fn same_text(a: &str, b: &str) -> (r: bool)
    ensures
        r == (a@ == b@),
{
    if a.unicode_len() != b.unicode_len() {
        return false;
    }
    let r = has_prefix(a, b);
    proof {
        if r {
            assert(a@.subrange(0, b@.len() as int) =~= a@);
        }
    }
    r
}

/// The cost of one instruction by its mnemonic.
pub fn multiplier(name: &str) -> (m: u64)
    ensures
        m == multiplier_of(name@),
        1 <= m <= 25,
{
    if has_prefix(name, "div") || has_prefix(name, "rem") {
        25
    } else if has_prefix(name, "mul") {
        5
    } else if same_text(name, "lb") || same_text(name, "lh") || same_text(name, "lw") || same_text(
        name,
        "ld",
    ) || same_text(name, "lbu") || same_text(name, "lhu") || same_text(name, "lwu") {
        3
    } else if same_text(name, "sb") || same_text(name, "sh") || same_text(name, "sw") || same_text(
        name,
        "sd",
    ) || same_text(name, "sc.w") || same_text(name, "sc.d") {
        3
    } else if same_text(name, "beq") || same_text(name, "bne") || same_text(name, "blt")
        || same_text(name, "bge") || same_text(name, "bltu") || same_text(name, "bgeu")
        || same_text(name, "jal") || same_text(name, "jalr") {
        3
    } else {
        1
    }
}

/// The cost of a tally of executed instructions, before calibration: each
/// count times the cost of its mnemonic.
pub open spec fn total_cost(tally: Seq<(String, u64)>) -> nat
    decreases tally.len(),
{
    if tally.len() == 0 {
        0
    } else {
        total_cost(tally.drop_last()) + (tally.last().1 as nat) * multiplier_of(tally.last().0@)
    }
}

/// The gas that a burst is charged: its cost less the calibration constant,
/// and nothing where the cost is below it.
pub open spec fn gas_charged(tally: Seq<(String, u64)>) -> nat {
    if total_cost(tally) <= ABI_DECODE_COST {
        0
    } else {
        (total_cost(tally) - ABI_DECODE_COST) as nat
    }
}

/// The gas that a burst is charged, as far as 64 bits hold it.
pub open spec fn gas_charged_u64(tally: Seq<(String, u64)>) -> u64 {
    if gas_charged(tally) > u64::MAX {
        u64::MAX
    } else {
        gas_charged(tally) as u64
    }
}

/// The gas charged for the instructions in `inst_count`, which gives for
/// each mnemonic how often it was executed.
pub fn r55_gas_used(inst_count: &Vec<(String, u64)>) -> (gas: u64)
    ensures
        gas == gas_charged_u64(inst_count@),
{
    let cap: u128 = u64::MAX as u128 + ABI_DECODE_COST as u128;
    let mut acc: u128 = 0;
    let mut i: usize = 0;
    while i < inst_count.len()
        invariant
            i <= inst_count@.len(),
            cap == u64::MAX + ABI_DECODE_COST,
            acc <= cap,
            acc == if total_cost(inst_count@.subrange(0, i as int)) > cap {
                cap as nat
            } else {
                total_cost(inst_count@.subrange(0, i as int))
            },
        decreases inst_count@.len() - i,
    {
        let m: u64 = multiplier(inst_count[i].0.as_str());
        let count: u64 = inst_count[i].1;
        assert(count * m <= u64::MAX * 25) by (nonlinear_arith)
            requires
                count <= u64::MAX,
                1 <= m <= 25,
        ;
        let cost: u128 = (count as u128) * (m as u128);
        let sum: u128 = acc + cost;
        proof {
            let next = inst_count@.subrange(0, i + 1);
            assert(next.drop_last() =~= inst_count@.subrange(0, i as int));
            assert(next.last() == inst_count@[i as int]);
        }
        acc = if sum > cap {
            cap
        } else {
            sum
        };
        i += 1;
    }
    assert(inst_count@.subrange(0, inst_count@.len() as int) =~= inst_count@);
    if acc <= ABI_DECODE_COST as u128 {
        0
    } else {
        (acc - ABI_DECODE_COST as u128) as u64
    }
}

/// Executing more of the same instructions never lowers the charge: where
/// two tallies name the same mnemonics and no count of the second is below
/// that of the first, the second is charged at least as much.
pub proof fn lemma_gas_monotone(fewer: Seq<(String, u64)>, more: Seq<(String, u64)>)
    requires
        fewer.len() == more.len(),
        forall|i: int| 0 <= i < fewer.len() ==> fewer[i].0@ == more[i].0@ && fewer[i].1 <= more[i].1,
    ensures
        total_cost(fewer) <= total_cost(more),
        gas_charged(fewer) <= gas_charged(more),
        gas_charged_u64(fewer) <= gas_charged_u64(more),
    decreases fewer.len(),
{
    if fewer.len() > 0 {
        lemma_gas_monotone(fewer.drop_last(), more.drop_last());
        let m = multiplier_of(fewer.last().0@);
        let a = fewer.last().1 as nat;
        let b = more.last().1 as nat;
        assert(a * m <= b * m) by (nonlinear_arith)
            requires
                a <= b,
        ;
    }
}

/// The calibration constant comes off the cost of a burst once: a burst that
/// costs more than the constant is charged its cost less the constant.
pub proof fn lemma_calibration_once(tally: Seq<(String, u64)>)
    requires
        total_cost(tally) >= ABI_DECODE_COST,
    ensures
        gas_charged(tally) + ABI_DECODE_COST == total_cost(tally),
{
}

} // verus!
