//! The loader: from an ELF file and the call data to the memory image that
//! the emulator starts on.
//!
//! The image begins at the base of the emulated RAM. Its first eight bytes
//! hold the length of the call data, little-endian, and the call data
//! follows. Each loadable segment of the file is copied to the offset of its
//! virtual address from the base of the RAM.

use vstd::prelude::*;
use crate::bytes::{le_u64, u64_to_le_bytes};

verus! {

/// The address at which the emulated RAM begins.
pub const DRAM_BASE: u64 = 0x8000_0000;

/// The size of the emulated RAM.
pub const DRAM_SIZE: u64 = 0x4000_0000;

/// The size of the region at the base of the RAM that is kept for the call
/// data and its length.
pub const CALLDATA_REGION: usize = 0x10_0000;

/// The type of a program header whose segment is loaded.
pub const PT_LOAD: u32 = 1;

/// What the loader reads of one program header of an ELF file.
#[derive(Clone, Copy, Debug, PartialEq, Eq, Structural)]
pub struct Segment {
    /// The type of the program header.
    pub p_type: u32,
    /// The virtual address at which the segment is to stand.
    pub p_vaddr: u64,
    /// The size of the segment in memory.
    pub p_memsz: u64,
    /// Where the segment's bytes begin in the file.
    pub p_offset: u64,
    /// How many bytes of the segment the file holds.
    pub p_filesz: u64,
}

/// What the loader reads of an ELF file.
#[derive(Clone, Debug)]
pub struct ElfImage {
    /// The address of the first instruction.
    pub entry: u64,
    /// The program headers, in the order of the file.
    pub segments: Vec<Segment>,
}

/// Why an image could not be built.
#[derive(Clone, Copy, Debug, PartialEq, Eq, Structural)]
pub enum LoadError {
    /// The bytes are no ELF file.
    GoblinError,
    /// The call data does not fit the region that is kept for it.
    CalldataTooLarge,
    /// A loadable segment lies outside the emulated RAM or outside the file.
    MalformedImage,
}

#[verifier::external_type_specification]
#[verifier::external_body]
pub struct ExGoblinError(goblin::error::Error);

/// What `goblin::elf::Elf::parse` reads from a file: the entry point and the
/// program headers, or nothing where it rejects the file.
pub uninterp spec fn elf_parse_of(elf_data: Seq<u8>) -> Option<(u64, Seq<Segment>)>;

/// Calls `goblin::elf::Elf::parse` and copies the entry point and, of every
/// program header in the file's order, the five fields of `Segment`. The
/// contract only gives this outcome its name; the parser's own error is
/// handed out as it is.
#[verifier::external_body]
fn parse_elf(elf_data: &[u8]) -> (r: Result<ElfImage, goblin::error::Error>)
    ensures
        match r {
            Ok(img) => elf_parse_of(elf_data@) == Some((img.entry, img.segments@)),
            Err(_) => elf_parse_of(elf_data@).is_none(),
        },
{
    let elf = goblin::elf::Elf::parse(elf_data)?;
    let mut segments: Vec<Segment> = Vec::new();
    for ph in &elf.program_headers {
        segments.push(Segment {
            p_type: ph.p_type,
            p_vaddr: ph.p_vaddr,
            p_memsz: ph.p_memsz,
            p_offset: ph.p_offset,
            p_filesz: ph.p_filesz,
        });
    }
    Ok(ElfImage { entry: elf.header.e_entry, segments })
}

/// Reads the entry point and the program headers of an ELF file.
pub fn read_elf(elf_data: &[u8]) -> (r: Result<ElfImage, LoadError>)
    ensures
        match r {
            Ok(img) => elf_parse_of(elf_data@) == Some((img.entry, img.segments@)),
            Err(e) => e == LoadError::GoblinError && elf_parse_of(elf_data@).is_none(),
        },
{
    match parse_elf(elf_data) {
        Ok(img) => Ok(img),
        Err(_) => Err(LoadError::GoblinError),
    }
}

/// Whether the segment is to be loaded.
pub open spec fn is_loadable(seg: Segment) -> bool {
    seg.p_type == PT_LOAD
}

/// The offset in the image at which the segment begins.
pub open spec fn start_of(seg: Segment) -> int {
    seg.p_vaddr - DRAM_BASE
}

/// Whether a segment can be loaded: it lies inside the emulated RAM, and the
/// bytes that the file is to hold of it are inside the file and no more than
/// its size in memory. A segment that is not loadable is always in order.
pub open spec fn segment_ok(seg: Segment, file_len: nat) -> bool {
    is_loadable(seg) ==> {
        &&& seg.p_vaddr >= DRAM_BASE
        &&& seg.p_memsz <= DRAM_SIZE
        &&& start_of(seg) + seg.p_memsz <= DRAM_SIZE
        &&& seg.p_filesz <= seg.p_memsz
        &&& seg.p_offset + seg.p_filesz <= file_len
    }
}

/// Whether every segment can be loaded.
pub open spec fn segments_ok(segments: Seq<Segment>, file_len: nat) -> bool {
    forall|i: int| 0 <= i < segments.len() ==> segment_ok(#[trigger] segments[i], file_len)
}

/// Whether the call data fits the region that is kept for it.
pub open spec fn calldata_fits(call_data: Seq<u8>) -> bool {
    call_data.len() < CALLDATA_REGION - 8
}

/// The byte at `p` of the region that holds the call data: the length, the
/// call data, and zero after it.
pub open spec fn calldata_byte(call_data: Seq<u8>, p: int) -> u8 {
    if 0 <= p < 8 {
        le_u64(call_data.len())[p]
    } else if 8 <= p < 8 + call_data.len() {
        call_data[p - 8]
    } else {
        0
    }
}

/// The image before any segment is loaded.
pub open spec fn base_image(call_data: Seq<u8>) -> Seq<u8> {
    Seq::new(CALLDATA_REGION as nat, |p: int| calldata_byte(call_data, p))
}

/// Whether the file holds the byte that a loadable segment puts at `p`.
pub open spec fn covers(seg: Segment, p: int) -> bool {
    is_loadable(seg) && start_of(seg) <= p < start_of(seg) + seg.p_filesz
}

/// The length of an image after a segment is loaded into it.
pub open spec fn grown_len(len: nat, seg: Segment) -> nat {
    if is_loadable(seg) && len < start_of(seg) + seg.p_memsz {
        (start_of(seg) + seg.p_memsz) as nat
    } else {
        len
    }
}

/// The image after one segment is loaded into it: grown with zeros as far as
/// the segment reaches, with the segment's bytes from the file in place.
pub open spec fn place(mem: Seq<u8>, seg: Segment, elf_data: Seq<u8>) -> Seq<u8> {
    Seq::new(
        grown_len(mem.len(), seg),
        |p: int|
            if covers(seg, p) {
                elf_data[seg.p_offset + (p - start_of(seg))]
            } else if p < mem.len() {
                mem[p]
            } else {
                0
            },
    )
}

/// The memory image for the segments of a file and the call data: the
/// segments are loaded in the order of the file.
pub open spec fn image_of(segments: Seq<Segment>, elf_data: Seq<u8>, call_data: Seq<u8>) -> Seq<u8>
    decreases segments.len(),
{
    if segments.len() == 0 {
        base_image(call_data)
    } else {
        place(image_of(segments.drop_last(), elf_data, call_data), segments.last(), elf_data)
    }
}

/// Checks one segment.
fn check_segment(seg: &Segment, file_len: usize) -> (ok: bool)
    ensures
        ok == segment_ok(*seg, file_len as nat),
{
    if seg.p_type != PT_LOAD {
        return true;
    }
    if seg.p_vaddr < DRAM_BASE || seg.p_memsz > DRAM_SIZE {
        return false;
    }
    let start: u64 = seg.p_vaddr - DRAM_BASE;
    if start > DRAM_SIZE - seg.p_memsz {
        return false;
    }
    if seg.p_filesz > seg.p_memsz {
        return false;
    }
    let len: u64 = file_len as u64;
    seg.p_filesz <= len && seg.p_offset <= len - seg.p_filesz
}

/// Loads one segment into the image.
fn load_segment(mem: &mut Vec<u8>, seg: &Segment, elf_data: &[u8])
    requires
        segment_ok(*seg, elf_data@.len()),
        old(mem)@.len() <= DRAM_SIZE,
    ensures
        final(mem)@ == place(old(mem)@, *seg, elf_data@),
        final(mem)@.len() <= DRAM_SIZE,
        final(mem)@.len() >= old(mem)@.len(),
{
    if seg.p_type != PT_LOAD {
        assert(mem@ =~= place(mem@, *seg, elf_data@));
        return ;
    }
    let file_len: usize = elf_data.len();
    let start: usize = (seg.p_vaddr - DRAM_BASE) as usize;
    let end: usize = start + seg.p_memsz as usize;
    if mem.len() < end {
        mem.resize(end, 0u8);
    }
    let ghost grown = mem@;
    let size: usize = seg.p_filesz as usize;
    let offset: usize = seg.p_offset as usize;
    let mut k: usize = 0;
    while k < size
        invariant
            k <= size,
            size == seg.p_filesz,
            offset == seg.p_offset,
            start == start_of(*seg),
            start + size <= mem@.len(),
            mem@.len() <= DRAM_SIZE,
            offset + size <= elf_data@.len(),
            elf_data@.len() == file_len,
            mem@.len() == grown.len(),
            forall|p: int|
                0 <= p < mem@.len() ==> mem@[p] == if start <= p < start + k {
                    elf_data@[offset + (p - start)]
                } else {
                    grown[p]
                },
        decreases size - k,
    {
        mem.set(start + k, elf_data[offset + k]);
        k += 1;
    }
    assert(mem@ =~= place(old(mem)@, *seg, elf_data@));
}

/// Builds the memory image for the segments of a file and the call data.
///
/// Call data that does not fit its region is refused first; then a segment
/// that cannot be loaded is refused.
pub fn build_image(segments: &Vec<Segment>, elf_data: &[u8], call_data: &[u8]) -> (r: Result<
    Vec<u8>,
    LoadError,
>)
    ensures
        match r {
            Ok(mem) => {
                &&& calldata_fits(call_data@)
                &&& segments_ok(segments@, elf_data@.len())
                &&& mem@ == image_of(segments@, elf_data@, call_data@)
                &&& CALLDATA_REGION <= mem@.len() <= DRAM_SIZE
            },
            Err(LoadError::CalldataTooLarge) => !calldata_fits(call_data@),
            Err(LoadError::MalformedImage) => calldata_fits(call_data@) && !segments_ok(
                segments@,
                elf_data@.len(),
            ),
            Err(LoadError::GoblinError) => false,
        },
{
    if call_data.len() >= CALLDATA_REGION - 8 {
        return Err(LoadError::CalldataTooLarge);
    }
    let mut i: usize = 0;
    while i < segments.len()
        invariant
            i <= segments@.len(),
            calldata_fits(call_data@),
            forall|j: int| 0 <= j < i ==> segment_ok(#[trigger] segments@[j], elf_data@.len()),
        decreases segments@.len() - i,
    {
        if !check_segment(&segments[i], elf_data.len()) {
            assert(!segment_ok(segments@[i as int], elf_data@.len()));
            return Err(LoadError::MalformedImage);
        }
        i += 1;
    }
    let mut mem: Vec<u8> = vec![0u8; CALLDATA_REGION];
    let size_bytes = u64_to_le_bytes(call_data.len() as u64);
    let mut k: usize = 0;
    while k < 8
        invariant
            k <= 8,
            mem@.len() == CALLDATA_REGION,
            size_bytes@ == le_u64(call_data@.len()),
            forall|p: int| 0 <= p < k ==> mem@[p] == size_bytes@[p],
            forall|p: int| k <= p < mem@.len() ==> mem@[p] == 0,
        decreases 8 - k,
    {
        mem.set(k, size_bytes[k]);
        k += 1;
    }
    let mut k: usize = 0;
    while k < call_data.len()
        invariant
            k <= call_data@.len(),
            call_data@.len() < CALLDATA_REGION - 8,
            mem@.len() == CALLDATA_REGION,
            forall|p: int| 0 <= p < 8 ==> mem@[p] == le_u64(call_data@.len())[p],
            forall|p: int| 8 <= p < 8 + k ==> mem@[p] == call_data@[p - 8],
            forall|p: int| 8 + k <= p < mem@.len() ==> mem@[p] == 0,
        decreases call_data@.len() - k,
    {
        mem.set(8 + k, call_data[k]);
        k += 1;
    }
    assert(mem@ =~= base_image(call_data@));
    let mut i: usize = 0;
    while i < segments.len()
        invariant
            i <= segments@.len(),
            segments_ok(segments@, elf_data@.len()),
            CALLDATA_REGION <= mem@.len() <= DRAM_SIZE,
            mem@ == image_of(segments@.subrange(0, i as int), elf_data@, call_data@),
        decreases segments@.len() - i,
    {
        load_segment(&mut mem, &segments[i], elf_data);
        proof {
            let next = segments@.subrange(0, i + 1);
            assert(next.drop_last() =~= segments@.subrange(0, i as int));
            assert(next.last() == segments@[i as int]);
        }
        i += 1;
    }
    assert(segments@.subrange(0, segments@.len() as int) =~= segments@);
    Ok(mem)
}

/// An image is never shorter than the region of the call data, and loading
/// more segments never shortens it.
pub proof fn lemma_image_len(segments: Seq<Segment>, elf_data: Seq<u8>, call_data: Seq<u8>, n: int)
    requires
        0 <= n <= segments.len(),
    ensures
        image_of(segments, elf_data, call_data).len() >= CALLDATA_REGION,
        image_of(segments, elf_data, call_data).len() >= image_of(
            segments.subrange(0, n),
            elf_data,
            call_data,
        ).len(),
    decreases segments.len(),
{
    if segments.len() == 0 {
        assert(segments.subrange(0, n) =~= segments);
    } else if n == segments.len() {
        assert(segments.subrange(0, n) =~= segments);
        lemma_image_len(segments.drop_last(), elf_data, call_data, 0);
    } else {
        lemma_image_len(segments.drop_last(), elf_data, call_data, n);
        assert(segments.drop_last().subrange(0, n) =~= segments.subrange(0, n));
    }
}

/// A byte that no segment brings from the file is as the region of the call
/// data has it: the length, the call data, and zero everywhere else.
pub proof fn lemma_untouched_byte(
    segments: Seq<Segment>,
    elf_data: Seq<u8>,
    call_data: Seq<u8>,
    p: int,
)
    requires
        calldata_fits(call_data),
        0 <= p < image_of(segments, elf_data, call_data).len(),
        forall|j: int| 0 <= j < segments.len() ==> !covers(#[trigger] segments[j], p),
    ensures
        image_of(segments, elf_data, call_data)[p] == calldata_byte(call_data, p),
    decreases segments.len(),
{
    if segments.len() > 0 {
        let before = segments.drop_last();
        assert(!covers(segments[segments.len() - 1], p));
        if p < image_of(before, elf_data, call_data).len() {
            assert forall|j: int| 0 <= j < before.len() implies !covers(#[trigger] before[j], p) by {
                assert(before[j] == segments[j]);
            }
            lemma_untouched_byte(before, elf_data, call_data, p);
        } else {
            lemma_image_len(before, elf_data, call_data, 0);
        }
    }
}

/// A byte of the image after the first `n` segments stays as it is where
/// none of the later segments brings a byte from the file to its place.
pub proof fn lemma_later_segments_keep(
    segments: Seq<Segment>,
    elf_data: Seq<u8>,
    call_data: Seq<u8>,
    n: int,
    p: int,
)
    requires
        0 <= n <= segments.len(),
        0 <= p < image_of(segments.subrange(0, n), elf_data, call_data).len(),
        forall|j: int| n <= j < segments.len() ==> !covers(#[trigger] segments[j], p),
    ensures
        p < image_of(segments, elf_data, call_data).len(),
        image_of(segments, elf_data, call_data)[p] == image_of(
            segments.subrange(0, n),
            elf_data,
            call_data,
        )[p],
    decreases segments.len(),
{
    if n == segments.len() {
        assert(segments.subrange(0, n) =~= segments);
    } else {
        let before = segments.drop_last();
        assert(before.subrange(0, n) =~= segments.subrange(0, n));
        assert forall|j: int| n <= j < before.len() implies !covers(#[trigger] before[j], p) by {
            assert(before[j] == segments[j]);
        }
        lemma_later_segments_keep(before, elf_data, call_data, n, p);
        assert(!covers(segments[segments.len() - 1], p));
    }
}

/// Reading a loaded segment back from the image, at the offset of its
/// virtual address from the base of the RAM, gives the bytes that the file
/// holds of it, wherever no later segment brought a byte of its own.
pub proof fn lemma_segment_round_trip(
    segments: Seq<Segment>,
    elf_data: Seq<u8>,
    call_data: Seq<u8>,
    i: int,
    k: int,
)
    requires
        0 <= i < segments.len(),
        is_loadable(segments[i]),
        segments[i].p_vaddr >= DRAM_BASE,
        0 <= k < segments[i].p_filesz <= segments[i].p_memsz,
        forall|j: int|
            i < j < segments.len() ==> !covers(#[trigger] segments[j], start_of(segments[i]) + k),
    ensures
        start_of(segments[i]) + k < image_of(segments, elf_data, call_data).len(),
        image_of(segments, elf_data, call_data)[start_of(segments[i]) + k]
            == elf_data[segments[i].p_offset + k],
{
    let upto = segments.subrange(0, i + 1);
    assert(upto.last() == segments[i]);
    assert(covers(segments[i], start_of(segments[i]) + k));
    lemma_later_segments_keep(segments, elf_data, call_data, i + 1, start_of(segments[i]) + k);
}

/// The part of a loaded segment that the file does not hold reads back as
/// zero, wherever no segment brought a byte from the file and the call data
/// and its length do not stand.
pub proof fn lemma_segment_tail_zero(
    segments: Seq<Segment>,
    elf_data: Seq<u8>,
    call_data: Seq<u8>,
    i: int,
    k: int,
)
    requires
        0 <= i < segments.len(),
        is_loadable(segments[i]),
        segments[i].p_vaddr >= DRAM_BASE,
        segments[i].p_filesz <= k < segments[i].p_memsz,
        calldata_fits(call_data),
        start_of(segments[i]) + k >= 8 + call_data.len(),
        forall|j: int|
            0 <= j < segments.len() ==> !covers(#[trigger] segments[j], start_of(segments[i]) + k),
    ensures
        start_of(segments[i]) + k < image_of(segments, elf_data, call_data).len(),
        image_of(segments, elf_data, call_data)[start_of(segments[i]) + k] == 0,
{
    let upto = segments.subrange(0, i + 1);
    assert(upto.last() == segments[i]);
    lemma_image_len(segments, elf_data, call_data, i + 1);
    lemma_untouched_byte(segments, elf_data, call_data, start_of(segments[i]) + k);
}

/// Reading the region of the call data back from the image gives the length
/// of the call data, as eight little-endian bytes, and then the call data,
/// where no segment brought a byte from the file into that region.
pub proof fn lemma_calldata_round_trip(
    segments: Seq<Segment>,
    elf_data: Seq<u8>,
    call_data: Seq<u8>,
)
    requires
        calldata_fits(call_data),
        forall|j: int, p: int|
            0 <= j < segments.len() && 0 <= p < 8 + call_data.len() ==> !#[trigger] covers(
                segments[j],
                p,
            ),
    ensures
        image_of(segments, elf_data, call_data).len() >= 8 + call_data.len(),
        image_of(segments, elf_data, call_data).subrange(0, 8) == le_u64(call_data.len()),
        image_of(segments, elf_data, call_data).subrange(8, 8 + call_data.len() as int) == call_data,
        crate::bytes::from_le_u64(image_of(segments, elf_data, call_data).subrange(0, 8))
            == call_data.len(),
{
    let image = image_of(segments, elf_data, call_data);
    lemma_image_len(segments, elf_data, call_data, 0);
    assert forall|p: int| 0 <= p < 8 + call_data.len() implies image[p] == calldata_byte(
        call_data,
        p,
    ) by {
        lemma_untouched_byte(segments, elf_data, call_data, p);
    }
    assert(image.subrange(0, 8) =~= le_u64(call_data.len()));
    assert(image.subrange(8, 8 + call_data.len() as int) =~= call_data);
    crate::bytes::lemma_le_u64_round_trip(call_data.len());
}

} // verus!
