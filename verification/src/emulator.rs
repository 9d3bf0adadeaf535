//! The RISC-V machine: the emulator of the `rvemu` crate behind contracts
//! over its registers, its RAM, its program counter and its tally of
//! executed instructions.

use vstd::prelude::*;
use rvemu::emulator::Emulator;
use crate::primitives::Address;
use crate::loader::{build_image, image_of, read_elf, elf_parse_of, calldata_fits, segments_ok, LoadError, DRAM_BASE, DRAM_SIZE};

verus! {

#[verifier::external_type_specification]
#[verifier::external_body]
pub struct ExEmulator(Emulator);

/// The number of integer registers.
pub const REGISTERS: u64 = 32;

/// The integer registers of the machine, `x0` first.
pub uninterp spec fn xregs_of(emu: Emulator) -> Seq<u64>;

/// The RAM of the machine, from its base address on.
pub uninterp spec fn dram_of(emu: Emulator) -> Seq<u8>;

/// The program counter of the machine.
pub uninterp spec fn pc_of(emu: Emulator) -> u64;

/// How often the machine executed each instruction, by mnemonic, in the
/// order of the mnemonics.
pub uninterp spec fn tally_of(emu: Emulator) -> Seq<(String, u64)>;

/// A machine has 32 registers and a RAM of the fixed size.
pub open spec fn machine_wf(emu: Emulator) -> bool {
    xregs_of(emu).len() == REGISTERS && dram_of(emu).len() == DRAM_SIZE
}

/// Whether two machines agree in all that the contracts speak of but the
/// registers.
pub open spec fn same_but_xregs(a: Emulator, b: Emulator) -> bool {
    dram_of(a) == dram_of(b) && pc_of(a) == pc_of(b) && tally_of(a) == tally_of(b)
}

/// Whether two machines agree in all that the contracts speak of but the RAM.
pub open spec fn same_but_dram(a: Emulator, b: Emulator) -> bool {
    xregs_of(a) == xregs_of(b) && pc_of(a) == pc_of(b) && tally_of(a) == tally_of(b)
}

/// Whether two machines agree in all that the contracts speak of.
pub open spec fn same_machine(a: Emulator, b: Emulator) -> bool {
    xregs_of(a) == xregs_of(b) && same_but_xregs(a, b)
}

/// Why the machine stopped executing: one of the exceptions that an
/// instruction can raise, or that the emulator itself gave up on the
/// instruction.
#[derive(Clone, Copy, Debug, PartialEq, Eq, Structural)]
pub enum TrapKind {
    InstructionAddressMisaligned,
    InstructionAccessFault,
    IllegalInstruction,
    Breakpoint,
    LoadAddressMisaligned,
    LoadAccessFault,
    StoreAMOAddressMisaligned,
    StoreAMOAccessFault,
    EnvironmentCallFromUMode,
    EnvironmentCallFromSMode,
    EnvironmentCallFromMMode,
    InstructionPageFault,
    LoadPageFault,
    StoreAMOPageFault,
    /// The emulator gave up on the instruction.
    Aborted,
}

/// Calls `Emulator::new`. As `Cpu::new`, `XRegisters::new` and `Dram::new`
/// show, the new machine has 32 registers, of which `x0` is zero, a RAM of the
/// fixed size that holds zeros, the program counter 0 and an empty tally.
#[verifier::external_body]
fn emu_new() -> (emu: Emulator)
    ensures
        machine_wf(emu),
        xregs_of(emu)[0] == 0,
        forall|i: int| 0 <= i < dram_of(emu).len() ==> dram_of(emu)[i] == 0,
        pc_of(emu) == 0,
        tally_of(emu).len() == 0,
{
    Emulator::new()
}

/// Calls `Emulator::initialize_dram`, which puts `image` at the beginning of
/// the RAM in place of what stood there and leaves the rest. A longer
/// image than the RAM would make it panic.
#[verifier::external_body]
fn emu_initialize_dram(emu: &mut Emulator, image: Vec<u8>)
    requires
        image@.len() <= dram_of(*old(emu)).len(),
    ensures
        dram_of(*final(emu)) == image@ + dram_of(*old(emu)).subrange(
            image@.len() as int,
            dram_of(*old(emu)).len() as int,
        ),
        same_but_dram(*final(emu), *old(emu)),
{
    emu.initialize_dram(image);
}

/// Calls `Emulator::initialize_pc`, which sets the program counter.
#[verifier::external_body]
fn emu_initialize_pc(emu: &mut Emulator, pc: u64)
    ensures
        pc_of(*final(emu)) == pc,
        xregs_of(*final(emu)) == xregs_of(*old(emu)),
        dram_of(*final(emu)) == dram_of(*old(emu)),
        tally_of(*final(emu)) == tally_of(*old(emu)),
{
    emu.initialize_pc(pc);
}

/// Sets the field `is_count` of the machine's `Cpu`, after which the machine
/// tallies the instructions that it executes. Nothing that the contracts
/// speak of changes.
#[verifier::external_body]
fn emu_count_instructions(emu: &mut Emulator)
    ensures
        same_machine(*final(emu), *old(emu)),
{
    emu.cpu.is_count = true;
}

/// Calls `XRegisters::read`, which indexes the registers and would panic on
/// an index of 32 or more.
#[verifier::external_body]
fn emu_read_reg(emu: &Emulator, index: u64) -> (value: u64)
    requires
        index < xregs_of(*emu).len(),
    ensures
        value == xregs_of(*emu)[index as int],
{
    emu.cpu.xregs.read(index)
}

/// Calls `XRegisters::write`, which stores the value in the register, but
/// leaves `x0` as it is, and would panic on an index of 32 or more.
#[verifier::external_body]
fn emu_write_reg(emu: &mut Emulator, index: u64, value: u64)
    requires
        index < xregs_of(*old(emu)).len(),
    ensures
        xregs_of(*final(emu)) == if index == 0 {
            xregs_of(*old(emu))
        } else {
            xregs_of(*old(emu)).update(index as int, value)
        },
        same_but_xregs(*final(emu), *old(emu)),
{
    emu.cpu.xregs.write(index, value);
}

/// Calls `Bus::read` for one byte. For an address inside the RAM it reads
/// the RAM at the offset of the address from the base, without changing
/// anything; the RAM would panic on an address at or behind its end.
#[verifier::external_body]
fn emu_read_byte(emu: &mut Emulator, addr: u64) -> (value: Option<u8>)
    requires
        DRAM_BASE <= addr < DRAM_BASE + dram_of(*old(emu)).len(),
    ensures
        value == Some(dram_of(*old(emu))[addr - DRAM_BASE]),
        same_machine(*final(emu), *old(emu)),
{
    emu.cpu.bus.read(addr, rvemu::cpu::BYTE).ok().map(|v| v as u8)
}

/// Calls `Bus::write` for one byte. For an address inside the RAM it stores
/// the byte in the RAM at the offset of the address from the base; the RAM
/// would panic on an address at or behind its end.
#[verifier::external_body]
fn emu_write_byte(emu: &mut Emulator, addr: u64, value: u8) -> (done: bool)
    requires
        DRAM_BASE <= addr < DRAM_BASE + dram_of(*old(emu)).len(),
    ensures
        done,
        dram_of(*final(emu)) == dram_of(*old(emu)).update(addr - DRAM_BASE, value),
        same_but_dram(*final(emu), *old(emu)),
{
    emu.cpu.bus.write(addr, value as u64, rvemu::cpu::BYTE).is_ok()
}

/// Copies the tally of executed instructions out of the field
/// `inst_counter` of the machine's `Cpu`, a map that is walked in the order
/// of its keys.
#[verifier::external_body]
fn emu_tally(emu: &Emulator) -> (tally: Vec<(String, u64)>)
    ensures
        tally@ == tally_of(*emu),
{
    emu.cpu.inst_counter.iter().map(|(name, count)| (name.clone(), *count)).collect()
}

/// Whether `size` bytes from the address `addr` on lie inside the RAM.
pub open spec fn in_dram(addr: u64, size: u64) -> bool {
    DRAM_BASE <= addr && addr - DRAM_BASE + size <= DRAM_SIZE
}

/// The bytes of the RAM from the address `addr` on.
pub open spec fn dram_bytes(emu: Emulator, addr: u64, size: u64) -> Seq<u8>
    recommends
        in_dram(addr, size),
{
    dram_of(emu).subrange(addr - DRAM_BASE, addr - DRAM_BASE + size)
}

/// The RAM with `data` written from the address `addr` on.
pub open spec fn dram_with(dram: Seq<u8>, addr: u64, data: Seq<u8>) -> Seq<u8> {
    Seq::new(
        dram.len(),
        |p: int|
            if addr - DRAM_BASE <= p < addr - DRAM_BASE + data.len() {
                data[p - (addr - DRAM_BASE)]
            } else {
                dram[p]
            },
    )
}

/// Bytes that were written into the RAM are the bytes that are read from the
/// same place, and every byte outside that place is as it was.
pub proof fn lemma_written_bytes_read_back(dram: Seq<u8>, addr: u64, data: Seq<u8>)
    requires
        dram.len() == DRAM_SIZE,
        data.len() <= u64::MAX,
        in_dram(addr, data.len() as u64),
    ensures
        dram_with(dram, addr, data).len() == dram.len(),
        dram_with(dram, addr, data).subrange(addr - DRAM_BASE, addr - DRAM_BASE + data.len())
            == data,
        forall|p: int|
            0 <= p < dram.len() && !(addr - DRAM_BASE <= p < addr - DRAM_BASE + data.len())
                ==> dram_with(dram, addr, data)[p] == dram[p],
{
    assert(dram_with(dram, addr, data).subrange(
        addr - DRAM_BASE,
        addr - DRAM_BASE + data.len(),
    ) =~= data);
}

/// One RISC-V execution context: the machine of one call frame.
pub struct RVEmu {
    /// The machine.
    pub emu: Emulator,
    /// Where in the RAM the output of the call that the frame waits for is to
    /// be written: the address and the number of bytes.
    pub return_window: Option<(u64, u64)>,
    /// The address of the contract that the frame created last.
    pub created_address: Option<Address>,
}

impl RVEmu {
    /// The machine has its registers and its RAM.
    pub open spec fn wf(&self) -> bool {
        machine_wf(self.emu)
    }

    /// Reads the register `index`.
    pub fn read_reg(&self, index: u64) -> (value: u64)
        requires
            self.wf(),
            index < REGISTERS,
        ensures
            value == xregs_of(self.emu)[index as int],
    {
        emu_read_reg(&self.emu, index)
    }

    /// Writes the register `index`; `x0` stays as it is.
    pub fn write_reg(&mut self, index: u64, value: u64)
        requires
            old(self).wf(),
            index < REGISTERS,
        ensures
            final(self).wf(),
            final(self).return_window == old(self).return_window,
            final(self).created_address == old(self).created_address,
            xregs_of(final(self).emu) == if index == 0 {
                xregs_of(old(self).emu)
            } else {
                xregs_of(old(self).emu).update(index as int, value)
            },
            same_but_xregs(final(self).emu, old(self).emu),
    {
        emu_write_reg(&mut self.emu, index, value);
    }

    /// Reads `size` bytes of the RAM from the address `addr` on. A range that
    /// does not lie inside the RAM gives `None`.
    pub fn read_memory(&mut self, addr: u64, size: u64) -> (r: Option<Vec<u8>>)
        requires
            old(self).wf(),
        ensures
            final(self).wf(),
            final(self).return_window == old(self).return_window,
            final(self).created_address == old(self).created_address,
            same_machine(final(self).emu, old(self).emu),
            r.is_some() == in_dram(addr, size),
            r matches Some(data) ==> data@ == dram_bytes(old(self).emu, addr, size),
    {
        if addr < DRAM_BASE || addr - DRAM_BASE > DRAM_SIZE || size > DRAM_SIZE - (addr
            - DRAM_BASE) {
            return None;
        }
        let mut data: Vec<u8> = Vec::new();
        let mut k: u64 = 0;
        while k < size
            invariant
                k <= size,
                in_dram(addr, size),
                self.wf(),
                self.return_window == old(self).return_window,
                self.created_address == old(self).created_address,
                same_machine(self.emu, old(self).emu),
                data@ == dram_of(old(self).emu).subrange(
                    addr - DRAM_BASE,
                    addr - DRAM_BASE + k,
                ),
            decreases size - k,
        {
            let byte = match emu_read_byte(&mut self.emu, addr + k) {
                Some(b) => b,
                None => 0u8,
            };
            data.push(byte);
            k += 1;
            assert(data@ =~= dram_of(old(self).emu).subrange(
                addr - DRAM_BASE,
                addr - DRAM_BASE + k,
            ));
        }
        Some(data)
    }

    /// Writes `data` into the RAM from the address `addr` on. A range that
    /// does not lie inside the RAM is refused and nothing is written.
    pub fn write_memory(&mut self, addr: u64, data: &[u8]) -> (done: bool)
        requires
            old(self).wf(),
        ensures
            final(self).wf(),
            final(self).return_window == old(self).return_window,
            final(self).created_address == old(self).created_address,
            same_but_dram(final(self).emu, old(self).emu),
            done == (data@.len() <= u64::MAX && in_dram(addr, data@.len() as u64)),
            dram_of(final(self).emu) == if done {
                dram_with(dram_of(old(self).emu), addr, data@)
            } else {
                dram_of(old(self).emu)
            },
    {
        let len: usize = data.len();
        if addr < DRAM_BASE || addr - DRAM_BASE > DRAM_SIZE || len as u64 > DRAM_SIZE - (addr
            - DRAM_BASE) {
            return false;
        }
        let mut k: usize = 0;
        while k < len
            invariant
                k <= len,
                len == data@.len(),
                in_dram(addr, len as u64),
                self.wf(),
                self.return_window == old(self).return_window,
                self.created_address == old(self).created_address,
                same_but_dram(self.emu, old(self).emu),
                dram_of(self.emu) == dram_with(
                    dram_of(old(self).emu),
                    addr,
                    data@.subrange(0, k as int),
                ),
            decreases len - k,
        {
            let _ = emu_write_byte(&mut self.emu, addr + k as u64, data[k]);
            k += 1;
            assert(dram_of(self.emu) =~= dram_with(
                dram_of(old(self).emu),
                addr,
                data@.subrange(0, k as int),
            ));
        }
        assert(data@.subrange(0, len as int) =~= data@);
        true
    }

    /// The tally of the instructions that the machine executed.
    pub fn tally(&self) -> (tally: Vec<(String, u64)>)
        ensures
            tally@ == tally_of(self.emu),
    {
        emu_tally(&self.emu)
    }
}

/// Whether an ELF file can be loaded with the call data: the file is read,
/// the call data fits its region, and every segment can be loaded.
pub open spec fn loads(elf_data: Seq<u8>, call_data: Seq<u8>) -> bool {
    &&& elf_parse_of(elf_data) matches Some((entry, segments))
    &&& calldata_fits(call_data)
    &&& segments_ok(segments, elf_data.len())
}

/// Whether a machine is ready to run the contract of an ELF file with the
/// call data: its RAM begins with the image of the file and the call data and
/// holds zeros after it, its program counter is the entry point of the file,
/// it has executed nothing, and it keeps no window and no created contract.
pub open spec fn loaded(rv: RVEmu, elf_data: Seq<u8>, call_data: Seq<u8>) -> bool {
    &&& elf_parse_of(elf_data) matches Some((entry, segments))
    &&& rv.wf()
    &&& rv.return_window.is_none()
    &&& rv.created_address.is_none()
    &&& pc_of(rv.emu) == entry
    &&& image_of(segments, elf_data, call_data).len() <= DRAM_SIZE
    &&& dram_of(rv.emu).subrange(0, image_of(segments, elf_data, call_data).len() as int)
        == image_of(segments, elf_data, call_data)
    &&& forall|p: int|
        image_of(segments, elf_data, call_data).len() <= p < DRAM_SIZE ==> dram_of(rv.emu)[p] == 0
    &&& tally_of(rv.emu).len() == 0
}

/// A machine that is ready to run a contract: its RAM begins with the image
/// of the ELF file and the call data, its program counter is the entry point
/// of the file, and it tallies the instructions that it executes.
///
/// Bytes that are no ELF file are refused first, then call data that does
/// not fit its region, then a segment that cannot be loaded.
pub fn setup_from_elf(elf_data: &[u8], call_data: &[u8]) -> (r: Result<RVEmu, LoadError>)
    ensures
        r.is_ok() == loads(elf_data@, call_data@),
        match r {
            Ok(rv) => loaded(rv, elf_data@, call_data@),
            Err(LoadError::GoblinError) => elf_parse_of(elf_data@).is_none(),
            Err(LoadError::CalldataTooLarge) => elf_parse_of(elf_data@).is_some() && !calldata_fits(
                call_data@,
            ),
            Err(LoadError::MalformedImage) => {
                &&& elf_parse_of(elf_data@) matches Some((entry, segments))
                &&& calldata_fits(call_data@)
                &&& !segments_ok(segments, elf_data@.len())
            },
        },
{
    let elf = match read_elf(elf_data) {
        Ok(elf) => elf,
        Err(e) => {
            return Err(e);
        },
    };
    let image = match build_image(&elf.segments, elf_data, call_data) {
        Ok(image) => image,
        Err(e) => {
            return Err(e);
        },
    };
    let ghost img = image@;
    let mut emu = emu_new();
    emu_initialize_dram(&mut emu, image);
    emu_initialize_pc(&mut emu, elf.entry);
    emu_count_instructions(&mut emu);
    assert(dram_of(emu).subrange(0, img.len() as int) =~= img);
    Ok(RVEmu { emu, return_window: None, created_address: None })
}

} // verus!
