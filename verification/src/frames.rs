//! The frame stack: one slot for each call frame of the host, the newest
//! last. A slot holds the machine of a frame whose bytecode is a RISC-V
//! contract, and nothing for a frame that the host runs itself.

use vstd::prelude::*;
use crate::bridge::{
    handle_trap, lemma_trap_charge, resume_sload, resume_sload_post, same_record, trap_post,
    Action, FrameContext,
};
use crate::bytes::copy_range;
use crate::codec::{args_of, decode_init_code, is_framed, runtime_of, RISCV_MARKER};
use crate::emulator::{
    dram_of, dram_with, in_dram, loaded, loads, same_but_dram, same_but_xregs, same_machine,
    setup_from_elf, RVEmu, TrapKind,
};
use crate::gas::Gas;
use crate::primitives::{Address, U256};

verus! {

/// The ELF file and the call data of a call frame: the bytecode without its
/// marker, and the input of the call. Bytecode that does not begin with the
/// marker has none.
pub open spec fn call_image(bytecode: Seq<u8>, input: Seq<u8>) -> Option<(Seq<u8>, Seq<u8>)> {
    if bytecode.len() > 0 && bytecode[0] == RISCV_MARKER {
        Some((bytecode.subrange(1, bytecode.len() as int), input))
    } else {
        None
    }
}

/// The ELF file and the call data of a create frame: the runtime bytecode
/// inside the deployment code without its marker, and the constructor
/// arguments. Deployment code that is no frame, or whose runtime bytecode
/// does not begin with the marker, has none.
pub open spec fn create_image(init_code: Seq<u8>, trailing: nat) -> Option<(Seq<u8>, Seq<u8>)> {
    if is_framed(init_code, trailing) && runtime_of(init_code).len() > 0 && runtime_of(
        init_code,
    )[0] == RISCV_MARKER {
        Some(
            (
                runtime_of(init_code).subrange(1, runtime_of(init_code).len() as int),
                args_of(init_code, trailing),
            ),
        )
    } else {
        None
    }
}

/// The ELF file and the call data of a call frame.
pub fn call_frame_image(bytecode: &[u8], input: &[u8]) -> (r: Option<(Vec<u8>, Vec<u8>)>)
    ensures
        match call_image(bytecode@, input@) {
            Some((elf, data)) => r matches Some((e, d)) && e@ == elf && d@ == data,
            None => r.is_none(),
        },
{
    if bytecode.len() == 0 || bytecode[0] != RISCV_MARKER {
        return None;
    }
    let elf = copy_range(bytecode, 1, bytecode.len());
    let data = copy_range(input, 0, input.len());
    assert(input@.subrange(0, input@.len() as int) =~= input@);
    Some((elf, data))
}

/// The ELF file and the call data of a create frame, whose deployment code
/// ends with `trailing` bytes of the host.
pub fn create_frame_image(init_code: &[u8], trailing: usize) -> (r: Option<(Vec<u8>, Vec<u8>)>)
    ensures
        match create_image(init_code@, trailing as nat) {
            Some((elf, data)) => r matches Some((e, d)) && e@ == elf && d@ == data,
            None => r.is_none(),
        },
{
    match decode_init_code(init_code, trailing) {
        Some((runtime, args)) => {
            if runtime.len() == 0 || runtime[0] != RISCV_MARKER {
                return None;
            }
            let elf = copy_range(runtime.as_slice(), 1, runtime.len());
            Some((elf, args))
        },
        None => None,
    }
}

/// The ELF file and the call data of a new frame. For a create frame the
/// bytecode is the deployment code, with `trailing` bytes of the host at its
/// end.
pub open spec fn frame_image(bytecode: Seq<u8>, is_create: bool, input: Seq<u8>, trailing: nat) -> Option<
    (Seq<u8>, Seq<u8>),
> {
    if is_create {
        create_image(bytecode, trailing)
    } else {
        call_image(bytecode, input)
    }
}

/// Whether a new frame runs a RISC-V contract: its bytecode holds an ELF
/// file that can be loaded with the frame's call data.
pub open spec fn is_riscv_frame(bytecode: Seq<u8>, is_create: bool, input: Seq<u8>, trailing: nat) -> bool {
    frame_image(bytecode, is_create, input, trailing) matches Some((elf, data)) && loads(elf, data)
}

/// The machine for a new frame, if its bytecode is a RISC-V contract that
/// can be loaded. For a create frame the bytecode is the deployment code,
/// with `trailing` bytes of the host at its end, and `input` is not read.
pub fn riscv_context(bytecode: &[u8], is_create: bool, input: &[u8], trailing: usize) -> (r: Option<
    RVEmu,
>)
    ensures
        r.is_some() == is_riscv_frame(bytecode@, is_create, input@, trailing as nat),
        r matches Some(rv) ==> frame_image(bytecode@, is_create, input@, trailing as nat) matches Some(
            (elf, data),
        ) && loaded(rv, elf, data),
{
    let image = if is_create {
        create_frame_image(bytecode, trailing)
    } else {
        call_frame_image(bytecode, input)
    };
    match image {
        Some((elf, data)) => match setup_from_elf(elf.as_slice(), data.as_slice()) {
            Ok(rv) => Some(rv),
            Err(_) => None,
        },
        None => None,
    }
}

/// What became of the output of a frame that ended.
#[derive(Clone, Copy, Debug, PartialEq, Eq, Structural)]
pub enum Delivery {
    /// No frame waited for it with a window in its RAM.
    NotExpected,
    /// It was written to the window of the frame that waited for it.
    Written,
    /// The frame that waited for it had kept a window of another size, or
    /// one outside its RAM: nothing was written.
    Skipped,
}

/// The stack of frames.
pub struct FrameStack {
    /// The slots, the newest frame last.
    pub slots: Vec<Option<RVEmu>>,
}

impl FrameStack {
    /// Every machine on the stack is in order.
    pub open spec fn wf(&self) -> bool {
        forall|i: int|
            0 <= i < self.slots@.len() ==> (#[trigger] self.slots@[i] matches Some(rv) ==> rv.wf())
    }

    /// The number of frames.
    pub open spec fn spec_depth(&self) -> nat {
        self.slots@.len()
    }

    /// Whether the newest frame runs a RISC-V contract.
    pub open spec fn spec_top_is_riscv(&self) -> bool {
        self.slots@.len() > 0 && self.slots@.last().is_some()
    }

    /// An empty stack.
    pub fn new() -> (s: FrameStack)
        ensures
            s.wf(),
            s.spec_depth() == 0,
    {
        FrameStack { slots: Vec::new() }
    }

    /// The number of frames.
    pub fn depth(&self) -> (d: usize)
        ensures
            d == self.spec_depth(),
    {
        self.slots.len()
    }

    /// Whether the newest frame runs a RISC-V contract.
    pub fn top_is_riscv(&self) -> (b: bool)
        ensures
            b == self.spec_top_is_riscv(),
    {
        let n = self.slots.len();
        n > 0 && self.slots[n - 1].is_some()
    }

    /// Puts the slot of a new frame on the stack.
    pub fn push(&mut self, slot: Option<RVEmu>)
        requires
            old(self).wf(),
            slot matches Some(rv) ==> rv.wf(),
        ensures
            final(self).wf(),
            final(self).slots@ == old(self).slots@.push(slot),
    {
        self.slots.push(slot);
    }

    /// Puts the slot of a new call frame on the stack: a machine where the
    /// bytecode is a RISC-V contract that can be loaded with the input of the
    /// call, and nothing otherwise.
    pub fn push_call(&mut self, bytecode: &[u8], input: &[u8])
        requires
            old(self).wf(),
        ensures
            final(self).wf(),
            final(self).spec_depth() == old(self).spec_depth() + 1,
            final(self).slots@.subrange(0, old(self).slots@.len() as int) == old(self).slots@,
            final(self).spec_top_is_riscv() == is_riscv_frame(bytecode@, false, input@, 0),
            final(self).slots@.last() matches Some(rv) ==> call_image(bytecode@, input@) matches Some(
                (elf, data),
            ) && loaded(rv, elf, data),
    {
        let slot = riscv_context(bytecode, false, input, 0);
        self.push(slot);
        assert(self.slots@.subrange(0, old(self).slots@.len() as int) =~= old(self).slots@);
    }

    /// Puts the slot of a new create frame on the stack: a machine where the
    /// deployment code frames a RISC-V contract that can be loaded with the
    /// constructor arguments, and nothing otherwise.
    pub fn push_create(&mut self, init_code: &[u8], trailing: usize)
        requires
            old(self).wf(),
        ensures
            final(self).wf(),
            final(self).spec_depth() == old(self).spec_depth() + 1,
            final(self).slots@.subrange(0, old(self).slots@.len() as int) == old(self).slots@,
            final(self).spec_top_is_riscv() == is_riscv_frame(
                init_code@,
                true,
                Seq::<u8>::empty(),
                trailing as nat,
            ),
            final(self).slots@.last() matches Some(rv) ==> create_image(
                init_code@,
                trailing as nat,
            ) matches Some((elf, data)) && loaded(rv, elf, data),
    {
        let empty: Vec<u8> = Vec::new();
        let slot = riscv_context(init_code, true, empty.as_slice(), trailing);
        self.push(slot);
        assert(self.slots@.subrange(0, old(self).slots@.len() as int) =~= old(self).slots@);
    }

    /// Says what is to happen after the machine of the newest frame stopped
    /// with `trap`, or without one, which `None` stands for: what `handle_trap`
    /// decides for that machine. A result of `None` says that the newest frame
    /// runs no RISC-V contract, so that the host is to run it itself; nothing
    /// has changed then.
    pub fn step(&mut self, gas: &mut Gas, ctx: &FrameContext, trap: Option<TrapKind>) -> (r: Option<
        Action,
    >)
        requires
            old(self).wf(),
            old(gas).wf(),
        ensures
            final(self).wf(),
            final(gas).wf(),
            final(self).spec_depth() == old(self).spec_depth(),
            r.is_some() == old(self).spec_top_is_riscv(),
            final(self).spec_top_is_riscv() == old(self).spec_top_is_riscv(),
            forall|i: int|
                0 <= i < old(self).slots@.len() - 1 ==> final(self).slots@[i] == old(
                    self,
                ).slots@[i],
            r.is_none() ==> final(self).slots@ == old(self).slots@ && *final(gas) == *old(gas),
            r matches Some(action) ==> {
                &&& old(self).slots@.last() matches Some(rv0)
                &&& final(self).slots@.last() matches Some(rv1)
                &&& trap_post(rv0, *old(gas), *ctx, trap, action, rv1, *final(gas))
            },
            final(gas).limit == old(gas).limit,
            final(gas).remaining <= old(gas).remaining,
    {
        let ghost before = self.slots@;
        match self.slots.pop() {
            Some(Some(rv)) => {
                let mut rv = rv;
                let ghost stopped = rv;
                let action = handle_trap(&mut rv, gas, ctx, trap);
                proof {
                    lemma_trap_charge(stopped, *old(gas), *ctx, trap, action, rv, *gas);
                }
                self.slots.push(Some(rv));
                Some(action)
            },
            Some(None) => {
                self.slots.push(None);
                assert(self.slots@ =~= before);
                None
            },
            None => None,
        }
    }

    /// Goes on with an `SLoad` syscall of the newest frame once the host has
    /// read the slot. `None` says that the newest frame runs no RISC-V
    /// contract; nothing has changed then.
    pub fn resume_sload(&mut self, gas: &mut Gas, reply: Option<(U256, bool)>) -> (r: Option<
        Action,
    >)
        requires
            old(self).wf(),
            old(gas).wf(),
        ensures
            final(self).wf(),
            final(gas).wf(),
            final(self).spec_depth() == old(self).spec_depth(),
            r.is_some() == old(self).spec_top_is_riscv(),
            forall|i: int|
                0 <= i < old(self).slots@.len() - 1 ==> final(self).slots@[i] == old(
                    self,
                ).slots@[i],
            r.is_none() ==> final(self).slots@ == old(self).slots@ && *final(gas) == *old(gas),
            r matches Some(action) ==> {
                &&& old(self).slots@.last() matches Some(rv0)
                &&& final(self).slots@.last() matches Some(rv1)
                &&& same_record(rv1, rv0)
                &&& same_but_xregs(rv1.emu, rv0.emu)
                &&& resume_sload_post(rv0, *old(gas), reply, action, rv1, *final(gas))
            },
    {
        let ghost before = self.slots@;
        match self.slots.pop() {
            Some(Some(rv)) => {
                let mut rv = rv;
                let action = resume_sload(&mut rv, gas, reply);
                self.slots.push(Some(rv));
                Some(action)
            },
            Some(None) => {
                self.slots.push(None);
                assert(self.slots@ =~= before);
                None
            },
            None => None,
        }
    }

    /// Takes note, in the newest frame, of the address of the contract that
    /// it created. Nothing changes where the newest frame runs no RISC-V
    /// contract.
    pub fn note_created(&mut self, address: Address)
        requires
            old(self).wf(),
        ensures
            final(self).wf(),
            final(self).spec_depth() == old(self).spec_depth(),
            forall|i: int|
                0 <= i < old(self).slots@.len() - 1 ==> final(self).slots@[i] == old(
                    self,
                ).slots@[i],
            match old(self).slots@.len() > 0 && old(self).slots@.last().is_some() {
                true => {
                    &&& final(self).slots@.last() matches Some(now)
                    &&& now.created_address == Some(address)
                    &&& now.return_window == old(self).slots@.last()->0.return_window
                    &&& same_machine(now.emu, old(self).slots@.last()->0.emu)
                },
                false => final(self).slots@ == old(self).slots@,
            },
    {
        let ghost before = self.slots@;
        match self.slots.pop() {
            Some(Some(rv)) => {
                let mut rv = rv;
                rv.created_address = Some(address);
                self.slots.push(Some(rv));
            },
            Some(None) => {
                self.slots.push(None);
                assert(self.slots@ =~= before);
            },
            None => {},
        }
    }

    /// Takes the slot of the frame that ended off the stack and hands its
    /// output to the frame below it.
    ///
    /// Where the frame below runs a RISC-V contract, it takes note of the
    /// address of a contract that was created, and its window, if it kept
    /// one, is given up. The output is written to the window only where the
    /// window has the size of the output and lies inside the RAM.
    pub fn finish_frame(&mut self, output: &[u8], created: Option<Address>) -> (d: Delivery)
        requires
            old(self).wf(),
            old(self).spec_depth() > 0,
        ensures
            final(self).wf(),
            final(self).spec_depth() == old(self).spec_depth() - 1,
            forall|i: int|
                0 <= i < old(self).slots@.len() - 2 ==> final(self).slots@[i] == old(
                    self,
                ).slots@[i],
            delivered(old(self).slots@, output@, created, d, final(self).slots@),
    {
        let ghost before = self.slots@;
        let _ = self.slots.pop();
        match self.slots.pop() {
            Some(Some(parent)) => {
                let mut parent = parent;
                let window = parent.return_window;
                parent.return_window = None;
                if created.is_some() {
                    parent.created_address = created;
                }
                let d = match window {
                    Some((addr, size)) => {
                        if size == output.len() as u64 && parent.write_memory(addr, output) {
                            Delivery::Written
                        } else {
                            Delivery::Skipped
                        }
                    },
                    None => Delivery::NotExpected,
                };
                self.slots.push(Some(parent));
                d
            },
            Some(None) => {
                self.slots.push(None);
                assert(self.slots@ =~= before.drop_last());
                Delivery::NotExpected
            },
            None => Delivery::NotExpected,
        }
    }
}

/// What handing the output of a frame that ended to the frame below it does
/// to the stack.
pub open spec fn delivered(
    before: Seq<Option<RVEmu>>,
    output: Seq<u8>,
    created: Option<Address>,
    d: Delivery,
    after: Seq<Option<RVEmu>>,
) -> bool {
    if before.len() >= 2 && before[before.len() - 2].is_some() {
        let parent = before[before.len() - 2]->0;
        &&& after.len() == before.len() - 1
        &&& after.last() matches Some(now)
        &&& now.return_window.is_none()
        &&& now.created_address == if created.is_some() {
            created
        } else {
            parent.created_address
        }
        &&& same_but_dram(now.emu, parent.emu)
        &&& match parent.return_window {
            None => d == Delivery::NotExpected && dram_of(now.emu) == dram_of(parent.emu),
            Some((addr, size)) => if size == output.len() && in_dram(addr, size) {
                d == Delivery::Written && dram_of(now.emu) == dram_with(
                    dram_of(parent.emu),
                    addr,
                    output,
                )
            } else {
                d == Delivery::Skipped && dram_of(now.emu) == dram_of(parent.emu)
            },
        }
    } else {
        d == Delivery::NotExpected && after == before.drop_last()
    }
}

} // verus!
