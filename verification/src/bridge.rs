//! The dispatcher: what the bridge does when the machine of a frame stops.
//!
//! The host runs the machine until an instruction raises an exception, and
//! hands the trap to the dispatcher. An environment call is a syscall: its
//! number stands in the register `t0`, its arguments in the registers `a0` to
//! `a7`. The dispatcher serves it in place where the machine and the frame's
//! context hold all that it needs, and otherwise names, as an `Action`, what
//! the host has to do before the frame goes on. Running the machine is the
//! host's part because the emulator gives up on some instructions, which the
//! host can catch and hand over as the trap `Aborted`.

use vstd::prelude::*;
use rvemu::emulator::Emulator;
use crate::emulator::{
    dram_bytes, dram_of, dram_with, in_dram, same_but_dram, same_but_xregs, same_machine, tally_of,
    xregs_of, RVEmu, TrapKind,
};
use crate::gas::{
    call_cost, call_cost_of, gas_charged_u64, r55_gas_used, sload_cost, sstore_cost,
    AccountAccess, Gas, SLOAD_COLD, SLOAD_WARM, SSTORE_COLD, SSTORE_WARM,
};
use crate::primitives::{from_word_limbs, packed, Address, U256};
use crate::syscall::{syscall_of, Syscall};

verus! {

/// The register that holds the number of the syscall.
pub const T0: u64 = 5;

/// The environment of the transaction and the block.
#[derive(Clone, Copy, Debug, PartialEq, Eq, Structural)]
pub struct Env {
    /// The sender of the transaction.
    pub origin: Address,
    /// The gas price of the transaction.
    pub gas_price: U256,
    /// The base fee of the block.
    pub base_fee: U256,
    /// The gas limit of the block.
    pub gas_limit: U256,
    /// The number of the block.
    pub number: U256,
    /// The timestamp of the block.
    pub timestamp: U256,
    /// The id of the chain.
    pub chain_id: u64,
}

/// What the dispatcher reads of the frame that it serves.
#[derive(Clone, Debug)]
pub struct FrameContext {
    /// The address of the contract that runs in the frame.
    pub target_address: Address,
    /// The address that called it.
    pub caller: Address,
    /// The value that came with the call.
    pub call_value: U256,
    /// The output of the call that the frame made last.
    pub return_data: Vec<u8>,
    /// The environment.
    pub env: Env,
}

/// How a frame ended.
#[derive(Clone, Copy, Debug, PartialEq, Eq, Structural)]
pub enum InstructionResult {
    Return,
    Revert,
    OutOfGas,
}

/// A call that waits for the host to say what it knows of the target.
#[derive(Clone, Debug)]
pub struct CallRequest {
    /// The account that is called.
    pub target: Address,
    /// The value that is sent along.
    pub value: u64,
    /// The call data.
    pub input: Vec<u8>,
    /// Whether the call may change state.
    pub is_static: bool,
}

/// A call for the host to make.
#[derive(Clone, Debug)]
pub struct CallInputs {
    /// The call data.
    pub input: Vec<u8>,
    /// The gas that the call may spend.
    pub gas_limit: u64,
    /// The account that is called.
    pub target_address: Address,
    /// The account whose code runs.
    pub bytecode_address: Address,
    /// The contract that makes the call.
    pub caller: Address,
    /// The value that is sent along.
    pub value: U256,
    /// Whether the call may change state.
    pub is_static: bool,
}

/// A contract for the host to create.
#[derive(Clone, Debug)]
pub struct CreateInputs {
    /// The contract that creates it.
    pub caller: Address,
    /// The value that is sent along.
    pub value: U256,
    /// The deployment code.
    pub init_code: Vec<u8>,
    /// The gas that the creation may spend.
    pub gas_limit: u64,
}

/// A log entry for the host to record.
#[derive(Clone, Debug)]
pub struct LogRecord {
    /// The contract that emits it.
    pub address: Address,
    /// The topics, 32 bytes each, in the order in which the contract gave
    /// them.
    pub topics: Vec<Vec<u8>>,
    /// The data.
    pub data: Vec<u8>,
}

/// What is to happen after the machine stopped.
#[derive(Clone, Debug)]
pub enum Action {
    /// The frame goes on running.
    Continue,
    /// The host reads the storage slot `key` of `address`; the frame goes on
    /// with `resume_sload`.
    SLoad { address: Address, key: U256 },
    /// The host writes `value` to the storage slot `key` of `address`; the
    /// frame goes on with `resume_sstore`.
    SStore { address: Address, key: U256, value: U256 },
    /// The host loads the account that is called; the frame goes on with
    /// `resume_call`.
    LoadAccount(CallRequest),
    /// The host records the log entry; the frame goes on running.
    Log(LogRecord),
    /// The host makes the call; the frame waits for its result.
    Call(CallInputs),
    /// The host creates the contract; the frame waits for its result.
    Create(CreateInputs),
    /// The frame has ended.
    Return { result: InstructionResult, output: Vec<u8> },
}

/// The ledger after `cost` was charged, where it can be charged.
pub open spec fn gas_after(gas: Gas, cost: nat) -> Gas
    recommends
        cost <= gas.remaining,
{
    Gas { limit: gas.limit, remaining: (gas.remaining - cost) as u64 }
}

/// The ledger after a frame was reverted for a fault of its own: what it had
/// spent is charged once more, as far as the rest allows it.
pub open spec fn gas_after_revert(gas: Gas) -> Gas {
    if gas.spec_spent() <= gas.remaining {
        gas_after(gas, gas.spec_spent())
    } else {
        gas
    }
}

/// Whether `action` ends the frame as reverted, with no output.
pub open spec fn is_empty_revert(action: Action) -> bool {
    action matches Action::Return { result, output } && result == InstructionResult::Revert
        && output@.len() == 0
}

/// Whether `action` ends the frame as out of gas, with no output.
pub open spec fn is_out_of_gas(action: Action) -> bool {
    action matches Action::Return { result, output } && result == InstructionResult::OutOfGas
        && output@.len() == 0
}

/// The registers after a 256-bit word was written to `a0` to `a3`.
pub open spec fn xregs_with_word(xregs: Seq<u64>, w: U256) -> Seq<u64> {
    xregs.update(10, w.l0).update(11, w.l1).update(12, w.l2).update(13, w.l3)
}

/// The registers after an address was written to `a0` to `a2`.
pub open spec fn xregs_with_address(xregs: Seq<u64>, a: Address) -> Seq<u64> {
    xregs.update(10, packed(a).0).update(11, packed(a).1).update(12, packed(a).2)
}

/// The 256-bit word in four registers from `first` on.
pub open spec fn word_at(xregs: Seq<u64>, first: int) -> U256 {
    U256 { l0: xregs[first], l1: xregs[first + 1], l2: xregs[first + 2], l3: xregs[first + 3] }
}

/// The bytes that a syscall names by an address and a size: nothing for the
/// size zero, the bytes of the RAM for a range inside it, and `None` for any
/// other range.
pub open spec fn slice_of(emu: Emulator, addr: u64, size: u64) -> Option<Seq<u8>> {
    if size == 0 {
        Some(Seq::<u8>::empty())
    } else if in_dram(addr, size) {
        Some(dram_bytes(emu, addr, size))
    } else {
        None
    }
}

/// The bytes that a syscall names by an address and a size, and nothing
/// where the range does not lie inside the RAM.
pub open spec fn slice_or_empty(emu: Emulator, addr: u64, size: u64) -> Seq<u8> {
    match slice_of(emu, addr, size) {
        Some(bytes) => bytes,
        None => Seq::<u8>::empty(),
    }
}

/// Ends the frame as reverted, with no output.
pub fn revert_frame(gas: &mut Gas) -> (action: Action)
    requires
        old(gas).wf(),
    ensures
        final(gas).wf(),
        *final(gas) == gas_after_revert(*old(gas)),
        is_empty_revert(action),
{
    let spent = gas.spent();
    let _ = gas.record_cost(spent);
    Action::Return { result: InstructionResult::Revert, output: Vec::new() }
}

/// Ends the frame as out of gas, with no output.
pub fn out_of_gas() -> (action: Action)
    ensures
        is_out_of_gas(action),
{
    Action::Return { result: InstructionResult::OutOfGas, output: Vec::new() }
}

/// Writes a 256-bit word to the registers `a0` to `a3`.
pub fn write_word(rv: &mut RVEmu, w: U256)
    requires
        old(rv).wf(),
    ensures
        final(rv).wf(),
        final(rv).return_window == old(rv).return_window,
        final(rv).created_address == old(rv).created_address,
        xregs_of(final(rv).emu) == xregs_with_word(xregs_of(old(rv).emu), w),
        same_but_xregs(final(rv).emu, old(rv).emu),
{
    rv.write_reg(10, w.l0);
    rv.write_reg(11, w.l1);
    rv.write_reg(12, w.l2);
    rv.write_reg(13, w.l3);
}

/// Writes an address to the registers `a0` to `a2`.
pub fn write_address(rv: &mut RVEmu, a: Address)
    requires
        old(rv).wf(),
    ensures
        final(rv).wf(),
        final(rv).return_window == old(rv).return_window,
        final(rv).created_address == old(rv).created_address,
        xregs_of(final(rv).emu) == xregs_with_address(xregs_of(old(rv).emu), a),
        same_but_xregs(final(rv).emu, old(rv).emu),
{
    let (r0, r1, r2) = a.pack();
    rv.write_reg(10, r0);
    rv.write_reg(11, r1);
    rv.write_reg(12, r2);
}

/// Reads a 256-bit word from four registers, from `first` on.
pub fn read_word(rv: &RVEmu, first: u64) -> (w: U256)
    requires
        rv.wf(),
        first + 3 < 32,
    ensures
        w == word_at(xregs_of(rv.emu), first as int),
{
    U256 {
        l0: rv.read_reg(first),
        l1: rv.read_reg(first + 1),
        l2: rv.read_reg(first + 2),
        l3: rv.read_reg(first + 3),
    }
}

/// Reads the bytes that a syscall names by an address and a size.
pub fn read_slice(rv: &mut RVEmu, addr: u64, size: u64) -> (r: Option<Vec<u8>>)
    requires
        old(rv).wf(),
    ensures
        final(rv).wf(),
        final(rv).return_window == old(rv).return_window,
        final(rv).created_address == old(rv).created_address,
        same_machine(final(rv).emu, old(rv).emu),
        match slice_of(old(rv).emu, addr, size) {
            Some(bytes) => r matches Some(data) && data@ == bytes,
            None => r.is_none(),
        },
{
    if size == 0 {
        Some(Vec::new())
    } else {
        rv.read_memory(addr, size)
    }
}

/// Reads the bytes that a syscall names by an address and a size, and
/// nothing where the range does not lie inside the RAM.
pub fn read_slice_or_empty(rv: &mut RVEmu, addr: u64, size: u64) -> (data: Vec<u8>)
    requires
        old(rv).wf(),
    ensures
        final(rv).wf(),
        final(rv).return_window == old(rv).return_window,
        final(rv).created_address == old(rv).created_address,
        same_machine(final(rv).emu, old(rv).emu),
        data@ == slice_or_empty(old(rv).emu, addr, size),
{
    match read_slice(rv, addr, size) {
        Some(data) => data,
        None => Vec::new(),
    }
}

/// Whether the frame's own record of its window and of the contract that it
/// created stayed as it was.
pub open spec fn same_record(a: RVEmu, b: RVEmu) -> bool {
    a.return_window == b.return_window && a.created_address == b.created_address
}

/// What the `Return` syscall does: the frame is charged for the instructions
/// that the machine executed and ends with the bytes that `a0` and `a1` name.
pub open spec fn return_post(before: RVEmu, gas0: Gas, action: Action, gas1: Gas) -> bool {
    let cost = gas_charged_u64(tally_of(before.emu));
    let xregs = xregs_of(before.emu);
    if cost > gas0.remaining {
        is_out_of_gas(action) && gas1 == gas0
    } else {
        match slice_of(before.emu, xregs[10], xregs[11]) {
            Some(bytes) => {
                &&& gas1 == gas_after(gas0, cost as nat)
                &&& action matches Action::Return { result, output }
                &&& result == InstructionResult::Return
                &&& output@ == bytes
            },
            None => is_empty_revert(action) && gas1 == gas_after_revert(
                gas_after(gas0, cost as nat),
            ),
        }
    }
}

/// Serves the `Return` syscall.
pub fn sys_return(rv: &mut RVEmu, gas: &mut Gas) -> (action: Action)
    requires
        old(rv).wf(),
        old(gas).wf(),
    ensures
        final(rv).wf(),
        final(gas).wf(),
        same_record(*final(rv), *old(rv)),
        same_machine(final(rv).emu, old(rv).emu),
        return_post(*old(rv), *old(gas), action, *final(gas)),
{
    let offset = rv.read_reg(10);
    let size = rv.read_reg(11);
    let tally = rv.tally();
    let cost = r55_gas_used(&tally);
    if !gas.record_cost(cost) {
        return out_of_gas();
    }
    match read_slice(rv, offset, size) {
        Some(output) => Action::Return { result: InstructionResult::Return, output },
        None => revert_frame(gas),
    }
}

/// What the `Revert` syscall does: the frame ends as reverted with the bytes
/// that `a0` and `a1` name, at no further charge.
pub open spec fn revert_post(before: RVEmu, gas0: Gas, action: Action, gas1: Gas) -> bool {
    let xregs = xregs_of(before.emu);
    match slice_of(before.emu, xregs[10], xregs[11]) {
        Some(bytes) => {
            &&& gas1 == gas0
            &&& action matches Action::Return { result, output }
            &&& result == InstructionResult::Revert
            &&& output@ == bytes
        },
        None => is_empty_revert(action) && gas1 == gas_after_revert(gas0),
    }
}

/// Serves the `Revert` syscall.
pub fn sys_revert(rv: &mut RVEmu, gas: &mut Gas) -> (action: Action)
    requires
        old(rv).wf(),
        old(gas).wf(),
    ensures
        final(rv).wf(),
        final(gas).wf(),
        same_record(*final(rv), *old(rv)),
        same_machine(final(rv).emu, old(rv).emu),
        revert_post(*old(rv), *old(gas), action, *final(gas)),
{
    let offset = rv.read_reg(10);
    let size = rv.read_reg(11);
    match read_slice(rv, offset, size) {
        Some(output) => Action::Return { result: InstructionResult::Revert, output },
        None => revert_frame(gas),
    }
}

/// What the `Keccak256` syscall does: the hash of the bytes that `a0` and
/// `a1` name is written to `a0` to `a3`, and the frame goes on.
pub open spec fn keccak_post(
    before: RVEmu,
    gas0: Gas,
    action: Action,
    after: RVEmu,
    gas1: Gas,
) -> bool {
    let xregs = xregs_of(before.emu);
    match slice_of(before.emu, xregs[10], xregs[11]) {
        Some(bytes) => {
            &&& gas1 == gas0
            &&& action is Continue
            &&& xregs_of(after.emu) == xregs_with_word(
                xregs,
                U256::spec_from_be_bytes(crate::hash::keccak256_of(bytes)),
            )
        },
        None => is_empty_revert(action) && gas1 == gas_after_revert(gas0) && xregs_of(after.emu)
            == xregs,
    }
}

/// Serves the `Keccak256` syscall.
pub fn sys_keccak256(rv: &mut RVEmu, gas: &mut Gas) -> (action: Action)
    requires
        old(rv).wf(),
        old(gas).wf(),
    ensures
        final(rv).wf(),
        final(gas).wf(),
        same_record(*final(rv), *old(rv)),
        same_but_xregs(final(rv).emu, old(rv).emu),
        keccak_post(*old(rv), *old(gas), action, *final(rv), *final(gas)),
{
    let offset = rv.read_reg(10);
    let size = rv.read_reg(11);
    match read_slice(rv, offset, size) {
        Some(data) => {
            let hash = crate::hash::keccak256(data.as_slice());
            match U256::from_be_bytes(hash.as_slice()) {
                Some(word) => {
                    write_word(rv, word);
                    Action::Continue
                },
                None => Action::Continue,
            }
        },
        None => revert_frame(gas),
    }
}

/// What the `ReturnDataCopy` syscall does: `a2` bytes of the output of the
/// last call, from the offset `a1` on, are written to the RAM at the address
/// `a0`. Bytes that the output does not hold, or a place outside the RAM,
/// revert the frame.
pub open spec fn return_data_copy_post(
    before: RVEmu,
    gas0: Gas,
    ctx: FrameContext,
    action: Action,
    after: RVEmu,
    gas1: Gas,
) -> bool {
    let xregs = xregs_of(before.emu);
    let dest = xregs[10];
    let offset = xregs[11];
    let size = xregs[12];
    if offset + size <= ctx.return_data@.len() && (size == 0 || in_dram(dest, size)) {
        &&& gas1 == gas0
        &&& action is Continue
        &&& dram_of(after.emu) == if size == 0 {
            dram_of(before.emu)
        } else {
            dram_with(
                dram_of(before.emu),
                dest,
                ctx.return_data@.subrange(offset as int, offset + size),
            )
        }
    } else {
        is_empty_revert(action) && gas1 == gas_after_revert(gas0) && dram_of(after.emu) == dram_of(
            before.emu,
        )
    }
}

/// Serves the `ReturnDataCopy` syscall.
pub fn sys_return_data_copy(rv: &mut RVEmu, gas: &mut Gas, ctx: &FrameContext) -> (action: Action)
    requires
        old(rv).wf(),
        old(gas).wf(),
    ensures
        final(rv).wf(),
        final(gas).wf(),
        same_record(*final(rv), *old(rv)),
        same_but_dram(final(rv).emu, old(rv).emu),
        return_data_copy_post(*old(rv), *old(gas), *ctx, action, *final(rv), *final(gas)),
{
    let dest = rv.read_reg(10);
    let offset = rv.read_reg(11);
    let size = rv.read_reg(12);
    let len: usize = ctx.return_data.len();
    if offset > len as u64 || size > len as u64 - offset {
        return revert_frame(gas);
    }
    if size == 0 {
        return Action::Continue;
    }
    let data = crate::bytes::copy_range(
        ctx.return_data.as_slice(),
        offset as usize,
        (offset + size) as usize,
    );
    if rv.write_memory(dest, data.as_slice()) {
        Action::Continue
    } else {
        revert_frame(gas)
    }
}

/// What the `Call` and `StaticCall` syscalls do: the target in `a0` to `a2`,
/// the value in `a3` and the call data that `a4` and `a5` name go to the host,
/// which is to load the target's account. A window of `a7` bytes at the
/// address `a6`, if it is not empty, is kept for the output of the call.
pub open spec fn call_post(before: RVEmu, is_static: bool, action: Action, after: RVEmu) -> bool {
    let xregs = xregs_of(before.emu);
    &&& after.created_address == before.created_address
    &&& after.return_window == if xregs[17] != 0 {
        Some((xregs[16], xregs[17]))
    } else {
        None
    }
    &&& action matches Action::LoadAccount(request)
    &&& request.target == from_word_limbs(xregs[10], xregs[11], xregs[12])
    &&& request.value == xregs[13]
    &&& request.input@ == slice_or_empty(before.emu, xregs[14], xregs[15])
    &&& request.is_static == is_static
}

/// Serves the `Call` and `StaticCall` syscalls.
pub fn sys_call(rv: &mut RVEmu, is_static: bool) -> (action: Action)
    requires
        old(rv).wf(),
    ensures
        final(rv).wf(),
        same_machine(final(rv).emu, old(rv).emu),
        call_post(*old(rv), is_static, action, *final(rv)),
{
    let a0 = rv.read_reg(10);
    let a1 = rv.read_reg(11);
    let a2 = rv.read_reg(12);
    let value = rv.read_reg(13);
    let args_offset = rv.read_reg(14);
    let args_size = rv.read_reg(15);
    let ret_offset = rv.read_reg(16);
    let ret_size = rv.read_reg(17);
    let input = read_slice_or_empty(rv, args_offset, args_size);
    rv.return_window = if ret_size != 0 {
        Some((ret_offset, ret_size))
    } else {
        None
    };
    Action::LoadAccount(
        CallRequest { target: Address::from_word(a0, a1, a2), value, input, is_static },
    )
}

/// What happens to a call once the host has said what it knows of the
/// target. An account that the host could not load reverts the frame.
/// Otherwise the surcharge for the account and the value is charged, and all
/// the gas that is left goes to the call.
pub open spec fn resume_call_post(
    gas0: Gas,
    ctx: FrameContext,
    request: CallRequest,
    access: AccountAccess,
    action: Action,
    gas1: Gas,
) -> bool {
    let cost = call_cost_of(access is Cold, request.value);
    if access is Missing {
        is_empty_revert(action) && gas1 == gas_after_revert(gas0)
    } else if cost > gas0.remaining {
        is_out_of_gas(action) && gas1 == gas0
    } else {
        &&& gas1 == (Gas { limit: gas0.limit, remaining: 0 })
        &&& action matches Action::Call(inputs)
        &&& inputs.input@ == request.input@
        &&& inputs.gas_limit == gas0.remaining - cost
        &&& inputs.target_address == request.target
        &&& inputs.bytecode_address == request.target
        &&& inputs.caller == ctx.target_address
        &&& inputs.value == (U256 { l0: request.value, l1: 0, l2: 0, l3: 0 })
        &&& inputs.is_static == request.is_static
    }
}

/// Goes on with a call once the host has tried to load the target's
/// account.
pub fn resume_call(
    gas: &mut Gas,
    ctx: &FrameContext,
    request: CallRequest,
    access: AccountAccess,
) -> (action: Action)
    requires
        old(gas).wf(),
    ensures
        final(gas).wf(),
        resume_call_post(*old(gas), *ctx, request, access, action, *final(gas)),
{
    let is_cold = match access {
        AccountAccess::Missing => {
            return revert_frame(gas);
        },
        AccountAccess::Cold => true,
        AccountAccess::Warm => false,
    };
    let cost = call_cost(is_cold, request.value);
    if !gas.record_cost(cost) {
        return out_of_gas();
    }
    let call_gas_limit = gas.remaining();
    let _ = gas.record_cost(call_gas_limit);
    Action::Call(
        CallInputs {
            input: request.input,
            gas_limit: call_gas_limit,
            target_address: request.target,
            bytecode_address: request.target,
            caller: ctx.target_address,
            value: U256::from_u64(request.value),
            is_static: request.is_static,
        },
    )
}

/// What the `Create` syscall does: the value in `a0` and the deployment code
/// that `a1` and `a2` name go to the host, together with all the gas that is
/// left.
pub open spec fn create_post(
    before: RVEmu,
    gas0: Gas,
    ctx: FrameContext,
    action: Action,
    gas1: Gas,
) -> bool {
    let xregs = xregs_of(before.emu);
    &&& gas1 == (Gas { limit: gas0.limit, remaining: 0 })
    &&& action matches Action::Create(inputs)
    &&& inputs.caller == ctx.target_address
    &&& inputs.value == (U256 { l0: xregs[10], l1: 0, l2: 0, l3: 0 })
    &&& inputs.init_code@ == slice_or_empty(before.emu, xregs[11], xregs[12])
    &&& inputs.gas_limit == gas0.remaining
}

/// Serves the `Create` syscall.
pub fn sys_create(rv: &mut RVEmu, gas: &mut Gas, ctx: &FrameContext) -> (action: Action)
    requires
        old(rv).wf(),
        old(gas).wf(),
    ensures
        final(rv).wf(),
        final(gas).wf(),
        same_record(*final(rv), *old(rv)),
        same_machine(final(rv).emu, old(rv).emu),
        create_post(*old(rv), *old(gas), *ctx, action, *final(gas)),
{
    let value = rv.read_reg(10);
    let offset = rv.read_reg(11);
    let size = rv.read_reg(12);
    let init_code = read_slice_or_empty(rv, offset, size);
    let gas_limit = gas.remaining();
    let _ = gas.record_cost(gas_limit);
    Action::Create(
        CreateInputs {
            caller: ctx.target_address,
            value: U256::from_u64(value),
            init_code,
            gas_limit,
        },
    )
}

/// The address that the frame created last, or the zero address.
pub open spec fn created_or_zero(rv: RVEmu) -> Address {
    match rv.created_address {
        Some(a) => a,
        None => Address { hi: 0, mid: 0, lo: 0 },
    }
}

/// What the `ReturnCreateAddress` syscall does: the 20 bytes of the address
/// of the contract that the frame created last are written to the RAM at the
/// address in `a0`.
pub open spec fn return_create_address_post(
    before: RVEmu,
    gas0: Gas,
    action: Action,
    after: RVEmu,
    gas1: Gas,
) -> bool {
    let dest = xregs_of(before.emu)[10];
    if in_dram(dest, 20) {
        &&& gas1 == gas0
        &&& action is Continue
        &&& dram_of(after.emu) == dram_with(
            dram_of(before.emu),
            dest,
            created_or_zero(before).spec_bytes(),
        )
    } else {
        is_empty_revert(action) && gas1 == gas_after_revert(gas0) && dram_of(after.emu) == dram_of(
            before.emu,
        )
    }
}

/// Serves the `ReturnCreateAddress` syscall.
pub fn sys_return_create_address(rv: &mut RVEmu, gas: &mut Gas) -> (action: Action)
    requires
        old(rv).wf(),
        old(gas).wf(),
    ensures
        final(rv).wf(),
        final(gas).wf(),
        same_record(*final(rv), *old(rv)),
        same_but_dram(final(rv).emu, old(rv).emu),
        return_create_address_post(*old(rv), *old(gas), action, *final(rv), *final(gas)),
{
    let dest = rv.read_reg(10);
    let address = match rv.created_address {
        Some(a) => a,
        None => Address::zero(),
    };
    let bytes = address.to_bytes();
    if rv.write_memory(dest, bytes.as_slice()) {
        Action::Continue
    } else {
        revert_frame(gas)
    }
}

/// The topics that a `Log` syscall names by the address of the first and
/// their number: 32 bytes each, one after the other; none where they do not
/// all lie inside the RAM.
pub open spec fn topics_of(emu: Emulator, ptr: u64, count: u64) -> Seq<Seq<u8>> {
    if count * 32 <= u64::MAX && in_dram(ptr, (count * 32) as u64) {
        Seq::new(count as nat, |i: int| dram_bytes(emu, (ptr + 32 * i) as u64, 32))
    } else {
        Seq::<Seq<u8>>::empty()
    }
}

/// What the `Log` syscall does: the data that `a0` and `a1` name and the
/// topics that `a2` and `a3` name go to the host as one log entry of the
/// contract that runs in the frame.
pub open spec fn log_post(before: RVEmu, ctx: FrameContext, action: Action) -> bool {
    let xregs = xregs_of(before.emu);
    let topics = topics_of(before.emu, xregs[12], xregs[13]);
    &&& action matches Action::Log(record)
    &&& record.address == ctx.target_address
    &&& record.data@ == slice_or_empty(before.emu, xregs[10], xregs[11])
    &&& record.topics@.len() == topics.len()
    &&& forall|i: int| 0 <= i < topics.len() ==> (#[trigger] record.topics@[i])@ == topics[i]
}

/// Serves the `Log` syscall.
pub fn sys_log(rv: &mut RVEmu, ctx: &FrameContext) -> (action: Action)
    requires
        old(rv).wf(),
    ensures
        final(rv).wf(),
        same_record(*final(rv), *old(rv)),
        same_machine(final(rv).emu, old(rv).emu),
        log_post(*old(rv), *ctx, action),
{
    let data_ptr = rv.read_reg(10);
    let data_size = rv.read_reg(11);
    let topics_ptr = rv.read_reg(12);
    let count = rv.read_reg(13);
    let data = read_slice_or_empty(rv, data_ptr, data_size);
    let mut topics: Vec<Vec<u8>> = Vec::new();
    let fits = count <= crate::loader::DRAM_SIZE / 32 && topics_ptr >= crate::loader::DRAM_BASE
        && topics_ptr - crate::loader::DRAM_BASE <= crate::loader::DRAM_SIZE - count * 32;
    if fits {
        let mut i: u64 = 0;
        while i < count
            invariant
                i <= count,
                count * 32 <= u64::MAX,
                in_dram(topics_ptr, (count * 32) as u64),
                rv.wf(),
                same_record(*rv, *old(rv)),
                same_machine(rv.emu, old(rv).emu),
                topics@.len() == i,
                forall|j: int|
                    0 <= j < i ==> (#[trigger] topics@[j])@ == dram_bytes(
                        old(rv).emu,
                        (topics_ptr + 32 * j) as u64,
                        32,
                    ),
            decreases count - i,
        {
            let topic = match rv.read_memory(topics_ptr + 32 * i, 32) {
                Some(t) => t,
                None => Vec::new(),
            };
            topics.push(topic);
            i += 1;
        }
    }
    Action::Log(LogRecord { address: ctx.target_address, topics, data })
}

/// What happens once the host has read a storage slot: the value is written
/// to `a0` to `a3` and the read is charged, more for a slot that was not
/// touched before. A slot that the host cannot read reverts the frame.
pub open spec fn resume_sload_post(
    before: RVEmu,
    gas0: Gas,
    reply: Option<(U256, bool)>,
    action: Action,
    after: RVEmu,
    gas1: Gas,
) -> bool {
    match reply {
        None => is_empty_revert(action) && gas1 == gas_after_revert(gas0) && xregs_of(after.emu)
            == xregs_of(before.emu),
        Some((value, is_cold)) => {
            let cost = if is_cold {
                SLOAD_COLD
            } else {
                SLOAD_WARM
            };
            &&& xregs_of(after.emu) == xregs_with_word(xregs_of(before.emu), value)
            &&& if cost > gas0.remaining {
                is_out_of_gas(action) && gas1 == gas0
            } else {
                action is Continue && gas1 == gas_after(gas0, cost as nat)
            }
        },
    }
}

/// Goes on with an `SLoad` syscall once the host has read the slot: `reply`
/// holds the value and whether the slot was touched for the first time.
pub fn resume_sload(rv: &mut RVEmu, gas: &mut Gas, reply: Option<(U256, bool)>) -> (action: Action)
    requires
        old(rv).wf(),
        old(gas).wf(),
    ensures
        final(rv).wf(),
        final(gas).wf(),
        same_record(*final(rv), *old(rv)),
        same_but_xregs(final(rv).emu, old(rv).emu),
        resume_sload_post(*old(rv), *old(gas), reply, action, *final(rv), *final(gas)),
{
    match reply {
        Some((value, is_cold)) => {
            write_word(rv, value);
            if gas.record_cost(sload_cost(is_cold)) {
                Action::Continue
            } else {
                out_of_gas()
            }
        },
        None => revert_frame(gas),
    }
}

/// What happens once the host has written a storage slot: the write is
/// charged, more for a slot that was not touched before. A slot that the host
/// cannot write reverts the frame.
pub open spec fn resume_sstore_post(
    gas0: Gas,
    reply: Option<bool>,
    action: Action,
    gas1: Gas,
) -> bool {
    match reply {
        None => is_empty_revert(action) && gas1 == gas_after_revert(gas0),
        Some(is_cold) => {
            let cost = if is_cold {
                SSTORE_COLD
            } else {
                SSTORE_WARM
            };
            if cost > gas0.remaining {
                is_out_of_gas(action) && gas1 == gas0
            } else {
                action is Continue && gas1 == gas_after(gas0, cost as nat)
            }
        },
    }
}

/// Goes on with an `SStore` syscall once the host has written the slot:
/// `reply` says whether the slot was touched for the first time.
pub fn resume_sstore(gas: &mut Gas, reply: Option<bool>) -> (action: Action)
    requires
        old(gas).wf(),
    ensures
        final(gas).wf(),
        resume_sstore_post(*old(gas), reply, action, *final(gas)),
{
    match reply {
        Some(is_cold) => {
            if gas.record_cost(sstore_cost(is_cold)) {
                Action::Continue
            } else {
                out_of_gas()
            }
        },
        None => revert_frame(gas),
    }
}

/// The 256-bit word that a syscall without arguments answers with, if it
/// answers with one.
pub open spec fn word_answer(syscall: Syscall, ctx: FrameContext) -> Option<U256> {
    match syscall {
        Syscall::CallValue => Some(ctx.call_value),
        Syscall::BaseFee => Some(ctx.env.base_fee),
        Syscall::GasLimit => Some(ctx.env.gas_limit),
        Syscall::Number => Some(ctx.env.number),
        Syscall::Timestamp => Some(ctx.env.timestamp),
        Syscall::GasPrice => Some(ctx.env.gas_price),
        _ => None,
    }
}

/// What serving a syscall does to the machine, to the ledger and to the
/// frame's record, and what is to happen next.
pub open spec fn dispatch_post(
    before: RVEmu,
    gas0: Gas,
    ctx: FrameContext,
    syscall: Syscall,
    action: Action,
    after: RVEmu,
    gas1: Gas,
) -> bool {
    let xregs = xregs_of(before.emu);
    match syscall {
        Syscall::Return => same_record(after, before) && same_machine(after.emu, before.emu)
            && return_post(before, gas0, action, gas1),
        Syscall::Revert => same_record(after, before) && same_machine(after.emu, before.emu)
            && revert_post(before, gas0, action, gas1),
        Syscall::Keccak256 => same_record(after, before) && same_but_xregs(after.emu, before.emu)
            && keccak_post(before, gas0, action, after, gas1),
        Syscall::ReturnDataCopy => same_record(after, before) && same_but_dram(
            after.emu,
            before.emu,
        ) && return_data_copy_post(before, gas0, ctx, action, after, gas1),
        Syscall::Call => gas1 == gas0 && same_machine(after.emu, before.emu) && call_post(
            before,
            false,
            action,
            after,
        ),
        Syscall::StaticCall => gas1 == gas0 && same_machine(after.emu, before.emu) && call_post(
            before,
            true,
            action,
            after,
        ),
        Syscall::Create => same_record(after, before) && same_machine(after.emu, before.emu)
            && create_post(before, gas0, ctx, action, gas1),
        Syscall::ReturnCreateAddress => same_record(after, before) && same_but_dram(
            after.emu,
            before.emu,
        ) && return_create_address_post(before, gas0, action, after, gas1),
        Syscall::Log => gas1 == gas0 && same_record(after, before) && same_machine(
            after.emu,
            before.emu,
        ) && log_post(before, ctx, action),
        Syscall::SLoad => {
            &&& gas1 == gas0
            &&& same_record(after, before)
            &&& same_machine(after.emu, before.emu)
            &&& action matches Action::SLoad { address, key }
            &&& address == ctx.target_address
            &&& key == word_at(xregs, 10)
        },
        Syscall::SStore => {
            &&& gas1 == gas0
            &&& same_record(after, before)
            &&& same_machine(after.emu, before.emu)
            &&& action matches Action::SStore { address, key, value }
            &&& address == ctx.target_address
            &&& key == word_at(xregs, 10)
            &&& value == word_at(xregs, 14)
        },
        Syscall::Caller => {
            &&& gas1 == gas0
            &&& same_record(after, before)
            &&& same_but_xregs(after.emu, before.emu)
            &&& action is Continue
            &&& xregs_of(after.emu) == xregs_with_address(xregs, ctx.caller)
        },
        Syscall::Origin => {
            &&& gas1 == gas0
            &&& same_record(after, before)
            &&& same_but_xregs(after.emu, before.emu)
            &&& action is Continue
            &&& xregs_of(after.emu) == xregs_with_address(xregs, ctx.env.origin)
        },
        Syscall::ChainId => {
            &&& gas1 == gas0
            &&& same_record(after, before)
            &&& same_but_xregs(after.emu, before.emu)
            &&& action is Continue
            &&& xregs_of(after.emu) == xregs.update(10, ctx.env.chain_id)
        },
        Syscall::ReturnDataSize => {
            &&& gas1 == gas0
            &&& same_record(after, before)
            &&& same_but_xregs(after.emu, before.emu)
            &&& action is Continue
            &&& xregs_of(after.emu) == xregs.update(10, ctx.return_data@.len() as u64)
        },
        _ => {
            &&& gas1 == gas0
            &&& same_record(after, before)
            &&& same_but_xregs(after.emu, before.emu)
            &&& action is Continue
            &&& word_answer(syscall, ctx) matches Some(w)
            &&& xregs_of(after.emu) == xregs_with_word(xregs, w)
        },
    }
}

/// Serves one syscall of the frame.
pub fn dispatch(rv: &mut RVEmu, gas: &mut Gas, ctx: &FrameContext, syscall: Syscall) -> (action:
    Action)
    requires
        old(rv).wf(),
        old(gas).wf(),
    ensures
        final(rv).wf(),
        final(gas).wf(),
        dispatch_post(*old(rv), *old(gas), *ctx, syscall, action, *final(rv), *final(gas)),
{
    match syscall {
        Syscall::Return => sys_return(rv, gas),
        Syscall::Revert => sys_revert(rv, gas),
        Syscall::Keccak256 => sys_keccak256(rv, gas),
        Syscall::ReturnDataCopy => sys_return_data_copy(rv, gas, ctx),
        Syscall::Call => sys_call(rv, false),
        Syscall::StaticCall => sys_call(rv, true),
        Syscall::Create => sys_create(rv, gas, ctx),
        Syscall::ReturnCreateAddress => sys_return_create_address(rv, gas),
        Syscall::Log => sys_log(rv, ctx),
        Syscall::SLoad => Action::SLoad { address: ctx.target_address, key: read_word(rv, 10) },
        Syscall::SStore => Action::SStore {
            address: ctx.target_address,
            key: read_word(rv, 10),
            value: read_word(rv, 14),
        },
        Syscall::Caller => {
            write_address(rv, ctx.caller);
            Action::Continue
        },
        Syscall::Origin => {
            write_address(rv, ctx.env.origin);
            Action::Continue
        },
        Syscall::ChainId => {
            rv.write_reg(10, ctx.env.chain_id);
            Action::Continue
        },
        Syscall::ReturnDataSize => {
            rv.write_reg(10, ctx.return_data.len() as u64);
            Action::Continue
        },
        Syscall::CallValue => {
            write_word(rv, ctx.call_value);
            Action::Continue
        },
        Syscall::BaseFee => {
            write_word(rv, ctx.env.base_fee);
            Action::Continue
        },
        Syscall::GasLimit => {
            write_word(rv, ctx.env.gas_limit);
            Action::Continue
        },
        Syscall::Number => {
            write_word(rv, ctx.env.number);
            Action::Continue
        },
        Syscall::Timestamp => {
            write_word(rv, ctx.env.timestamp);
            Action::Continue
        },
        Syscall::GasPrice => {
            write_word(rv, ctx.env.gas_price);
            Action::Continue
        },
    }
}

/// What a fault of the machine does to the frame: the instructions that the
/// machine executed are charged, and the frame is reverted.
pub open spec fn fault_post(before: RVEmu, gas0: Gas, action: Action, gas1: Gas) -> bool {
    let cost = gas_charged_u64(tally_of(before.emu));
    if cost > gas0.remaining {
        is_out_of_gas(action) && gas1 == gas0
    } else {
        is_empty_revert(action) && gas1 == gas_after_revert(gas_after(gas0, cost as nat))
    }
}

/// The syscall that the number in `t0` asks for: the number is a code of
/// the catalog as it stands in the register, all 64 bits of it.
pub open spec fn requested_syscall(t0: u64) -> Option<Syscall> {
    if t0 <= 0xFF {
        syscall_of(t0 as u8)
    } else {
        None
    }
}

/// What is to happen after the machine stopped with `trap`, or without one,
/// which `None` stands for.
pub open spec fn trap_post(
    before: RVEmu,
    gas0: Gas,
    ctx: FrameContext,
    trap: Option<TrapKind>,
    action: Action,
    after: RVEmu,
    gas1: Gas,
) -> bool {
    match trap {
        None => action is Continue && gas1 == gas0 && same_record(after, before) && same_machine(
            after.emu,
            before.emu,
        ),
        Some(TrapKind::EnvironmentCallFromMMode) => match requested_syscall(
            xregs_of(before.emu)[5],
        ) {
            Some(syscall) => dispatch_post(before, gas0, ctx, syscall, action, after, gas1),
            None => is_empty_revert(action) && gas1 == gas_after_revert(gas0) && same_record(
                after,
                before,
            ) && same_machine(after.emu, before.emu),
        },
        Some(_) => fault_post(before, gas0, action, gas1) && same_record(after, before)
            && same_machine(after.emu, before.emu),
    }
}

/// Decides what is to happen after the machine stopped with `trap`, or
/// without one, which `None` stands for: then the frame goes on running.
///
/// An environment call is served as the syscall whose number `t0` holds; a
/// number that names no syscall reverts the frame. Any other trap is a
/// fault.
pub fn handle_trap(rv: &mut RVEmu, gas: &mut Gas, ctx: &FrameContext, trap: Option<TrapKind>) -> (action:
    Action)
    requires
        old(rv).wf(),
        old(gas).wf(),
    ensures
        final(rv).wf(),
        final(gas).wf(),
        trap_post(*old(rv), *old(gas), *ctx, trap, action, *final(rv), *final(gas)),
{
    match trap {
        None => Action::Continue,
        Some(TrapKind::EnvironmentCallFromMMode) => {
            let t0 = rv.read_reg(T0);
            if t0 > 0xFF {
                return revert_frame(gas);
            }
            match Syscall::from_opcode(t0 as u8) {
                Ok(syscall) => dispatch(rv, gas, ctx, syscall),
                Err(_) => revert_frame(gas),
            }
        },
        Some(_) => {
            let tally = rv.tally();
            if gas.record_cost(r55_gas_used(&tally)) {
                revert_frame(gas)
            } else {
                out_of_gas()
            }
        },
    }
}

/// Whatever the machine stopped with, the frame's ledger keeps its limit and
/// never gains gas, and the frame's record of the contract that it created
/// stays as it was.
pub proof fn lemma_trap_charge(
    before: RVEmu,
    gas0: Gas,
    ctx: FrameContext,
    trap: Option<TrapKind>,
    action: Action,
    after: RVEmu,
    gas1: Gas,
)
    requires
        gas0.wf(),
        trap_post(before, gas0, ctx, trap, action, after, gas1),
    ensures
        gas1.limit == gas0.limit,
        gas1.remaining <= gas0.remaining,
        after.created_address == before.created_address,
{
}

/// An environment call whose number names no syscall reverts the frame with
/// no output, and what it charges is never negative.
pub proof fn lemma_unknown_syscall_reverts(
    before: RVEmu,
    gas0: Gas,
    ctx: FrameContext,
    action: Action,
    after: RVEmu,
    gas1: Gas,
)
    requires
        gas0.wf(),
        requested_syscall(xregs_of(before.emu)[5]).is_none(),
        trap_post(
            before,
            gas0,
            ctx,
            Some(TrapKind::EnvironmentCallFromMMode),
            action,
            after,
            gas1,
        ),
    ensures
        action matches Action::Return { result, output } && result == InstructionResult::Revert
            && output@.len() == 0,
        gas1.wf(),
        gas1.limit == gas0.limit,
        gas1.spec_spent() >= gas0.spec_spent(),
{
}

} // verus!
