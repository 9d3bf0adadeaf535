//! The framing of deployment code: a marker byte, the length of the runtime
//! bytecode as four big-endian bytes, the runtime bytecode, and the encoded
//! constructor arguments.

use vstd::prelude::*;
use crate::bytes::{append_bytes, be_u32, copy_range, from_be_u32, u32_from_be_bytes, u32_to_be_bytes};

verus! {

/// The first byte of every RISC-V contract, in deployment code and in
/// runtime bytecode alike.
pub const RISCV_MARKER: u8 = 0xFF;

/// The length of the frame's header: the marker and the four length bytes.
pub const HEADER_LEN: usize = 5;

/// The length of the empty word that the host appends to deployment code.
pub const HOST_TRAILING_WORD: usize = 32;

/// The deployment code for `runtime` and `args`.
pub open spec fn init_code_of(runtime: Seq<u8>, args: Seq<u8>) -> Seq<u8> {
    seq![RISCV_MARKER] + be_u32(runtime.len()) + runtime + args
}

/// The runtime length that a frame's header announces.
pub open spec fn announced_len(bytes: Seq<u8>) -> nat
    recommends
        bytes.len() >= 5,
{
    from_be_u32(bytes.subrange(1, 5))
}

/// Whether `bytes`, without the last `trailing` of them, is a frame: it begins
/// with the marker and is long enough for the runtime that it announces.
pub open spec fn is_framed(bytes: Seq<u8>, trailing: nat) -> bool {
    &&& bytes.len() >= 5
    &&& bytes[0] == RISCV_MARKER
    &&& 5 + announced_len(bytes) + trailing <= bytes.len()
}

/// The runtime bytecode inside a frame.
pub open spec fn runtime_of(bytes: Seq<u8>) -> Seq<u8>
    recommends
        is_framed(bytes, 0),
{
    bytes.subrange(5, 5 + announced_len(bytes) as int)
}

/// The constructor arguments inside a frame whose last `trailing` bytes are
/// the host's.
pub open spec fn args_of(bytes: Seq<u8>, trailing: nat) -> Seq<u8>
    recommends
        is_framed(bytes, trailing),
{
    bytes.subrange(5 + announced_len(bytes) as int, bytes.len() - trailing)
}

/// Whether bytecode carries the RISC-V marker.
pub fn is_riscv_initcode(bytes: &[u8]) -> (b: bool)
    ensures
        b == (bytes@.len() > 0 && bytes@[0] == RISCV_MARKER),
{
    bytes.len() > 0 && bytes[0] == RISCV_MARKER
}

/// Frames `runtime` and `args` as deployment code.
pub fn encode_init_code(runtime: &[u8], args: &[u8]) -> (out: Vec<u8>)
    requires
        runtime@.len() <= u32::MAX,
    ensures
        out@ == init_code_of(runtime@, args@),
        out@.len() == 5 + runtime@.len() + args@.len(),
{
    let mut out: Vec<u8> = Vec::new();
    out.push(RISCV_MARKER);
    let size = u32_to_be_bytes(runtime.len() as u32);
    append_bytes(&mut out, size.as_slice());
    append_bytes(&mut out, runtime);
    append_bytes(&mut out, args);
    out
}

/// The deployment code that a create transaction carries: bytecode that
/// begins with the marker is framed together with the arguments, any other
/// bytecode is left as it is.
pub fn craft_init_code(bytecode: Vec<u8>, encoded_args: Option<Vec<u8>>) -> (out: Vec<u8>)
    requires
        bytecode@.len() <= u32::MAX,
    ensures
        out@ == if bytecode@.len() > 0 && bytecode@[0] == RISCV_MARKER {
            init_code_of(
                bytecode@,
                match encoded_args {
                    Some(a) => a@,
                    None => Seq::<u8>::empty(),
                },
            )
        } else {
            bytecode@
        },
{
    if is_riscv_initcode(bytecode.as_slice()) {
        match encoded_args {
            Some(args) => encode_init_code(bytecode.as_slice(), args.as_slice()),
            None => {
                let none: Vec<u8> = Vec::new();
                encode_init_code(bytecode.as_slice(), none.as_slice())
            },
        }
    } else {
        bytecode
    }
}

/// Takes a frame apart into the runtime bytecode and the constructor
/// arguments, leaving out the last `trailing` bytes, which the host appended.
/// Bytes that are no frame give `None`.
pub fn decode_init_code(bytes: &[u8], trailing: usize) -> (r: Option<(Vec<u8>, Vec<u8>)>)
    ensures
        r.is_some() == is_framed(bytes@, trailing as nat),
        r matches Some((runtime, args)) ==> runtime@ == runtime_of(bytes@) && args@ == args_of(
            bytes@,
            trailing as nat,
        ),
{
    if bytes.len() < HEADER_LEN || bytes[0] != RISCV_MARKER {
        return None;
    }
    let size: usize = u32_from_be_bytes(bytes, 1) as usize;
    let rest: usize = bytes.len() - HEADER_LEN;
    if size > rest || trailing > rest - size {
        return None;
    }
    let runtime = copy_range(bytes, HEADER_LEN, HEADER_LEN + size);
    let args = copy_range(bytes, HEADER_LEN + size, bytes.len() - trailing);
    Some((runtime, args))
}

/// Framing and then taking apart gives back the runtime bytecode and the
/// arguments, whatever bytes of the announced number the host appended.
pub proof fn lemma_init_code_round_trip(runtime: Seq<u8>, args: Seq<u8>, tail: Seq<u8>)
    requires
        runtime.len() <= u32::MAX,
    ensures
        is_framed(init_code_of(runtime, args) + tail, tail.len()),
        runtime_of(init_code_of(runtime, args) + tail) == runtime,
        args_of(init_code_of(runtime, args) + tail, tail.len()) == args,
        init_code_of(runtime, args)[0] == RISCV_MARKER,
        announced_len(init_code_of(runtime, args) + tail) == runtime.len(),
{
    let framed = init_code_of(runtime, args) + tail;
    crate::bytes::lemma_be_u32_round_trip(runtime.len());
    assert(framed.subrange(1, 5) =~= be_u32(runtime.len()));
    assert(framed.subrange(5, 5 + runtime.len() as int) =~= runtime);
    assert(framed.subrange(5 + runtime.len() as int, framed.len() - tail.len()) =~= args);
}

} // verus!
