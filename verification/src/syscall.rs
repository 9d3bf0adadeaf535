//! The closed catalog of environment calls that a contract may issue.

use vstd::prelude::*;
use vstd::string::*;
use crate::gas::same_text;

verus! {

/// One operation that a contract can request from the host.
#[derive(Copy, Clone, Debug, PartialEq, Eq, Structural, Hash)]
pub enum Syscall {
    Keccak256,
    Origin,
    Caller,
    CallValue,
    GasPrice,
    ReturnDataSize,
    ReturnDataCopy,
    Timestamp,
    Number,
    GasLimit,
    ChainId,
    BaseFee,
    SLoad,
    SStore,
    Create,
    Call,
    StaticCall,
    Return,
    Revert,
    Log,
    ReturnCreateAddress,
}

/// Why a number or a name is no syscall.
#[derive(Clone, Debug)]
pub enum SyscallError {
    /// The number names no syscall.
    UnknownOpcode(u8),
    /// The text names no syscall.
    ParseError { input: String },
}

/// The number that stands for a syscall in the selector register.
pub open spec fn opcode_of(s: Syscall) -> u8 {
    match s {
        Syscall::Keccak256 => 0x20,
        Syscall::Origin => 0x32,
        Syscall::Caller => 0x33,
        Syscall::CallValue => 0x34,
        Syscall::GasPrice => 0x3A,
        Syscall::ReturnDataSize => 0x3D,
        Syscall::ReturnDataCopy => 0x3E,
        Syscall::Timestamp => 0x42,
        Syscall::Number => 0x43,
        Syscall::GasLimit => 0x45,
        Syscall::ChainId => 0x46,
        Syscall::BaseFee => 0x48,
        Syscall::SLoad => 0x54,
        Syscall::SStore => 0x55,
        Syscall::Create => 0xF0,
        Syscall::Call => 0xF1,
        Syscall::StaticCall => 0xFA,
        Syscall::Return => 0xF3,
        Syscall::Revert => 0xFD,
        Syscall::Log => 0xA0,
        Syscall::ReturnCreateAddress => 0x01,
    }
}

/// The syscall that a number stands for, if any.
pub open spec fn syscall_of(code: u8) -> Option<Syscall> {
    if code == 0x20 {
        Some(Syscall::Keccak256)
    } else if code == 0x32 {
        Some(Syscall::Origin)
    } else if code == 0x33 {
        Some(Syscall::Caller)
    } else if code == 0x34 {
        Some(Syscall::CallValue)
    } else if code == 0x3A {
        Some(Syscall::GasPrice)
    } else if code == 0x3D {
        Some(Syscall::ReturnDataSize)
    } else if code == 0x3E {
        Some(Syscall::ReturnDataCopy)
    } else if code == 0x42 {
        Some(Syscall::Timestamp)
    } else if code == 0x43 {
        Some(Syscall::Number)
    } else if code == 0x45 {
        Some(Syscall::GasLimit)
    } else if code == 0x46 {
        Some(Syscall::ChainId)
    } else if code == 0x48 {
        Some(Syscall::BaseFee)
    } else if code == 0x54 {
        Some(Syscall::SLoad)
    } else if code == 0x55 {
        Some(Syscall::SStore)
    } else if code == 0xF0 {
        Some(Syscall::Create)
    } else if code == 0xF1 {
        Some(Syscall::Call)
    } else if code == 0xFA {
        Some(Syscall::StaticCall)
    } else if code == 0xF3 {
        Some(Syscall::Return)
    } else if code == 0xFD {
        Some(Syscall::Revert)
    } else if code == 0xA0 {
        Some(Syscall::Log)
    } else if code == 0x01 {
        Some(Syscall::ReturnCreateAddress)
    } else {
        None
    }
}

/// The lower-case name of a syscall.
pub open spec fn name_of(s: Syscall) -> Seq<char> {
    match s {
        Syscall::Keccak256 => "keccak256"@,
        Syscall::Origin => "origin"@,
        Syscall::Caller => "caller"@,
        Syscall::CallValue => "callvalue"@,
        Syscall::GasPrice => "gasprice"@,
        Syscall::ReturnDataSize => "returndatasize"@,
        Syscall::ReturnDataCopy => "returndatacopy"@,
        Syscall::Timestamp => "timestamp"@,
        Syscall::Number => "number"@,
        Syscall::GasLimit => "gaslimit"@,
        Syscall::ChainId => "chainid"@,
        Syscall::BaseFee => "basefee"@,
        Syscall::SLoad => "sload"@,
        Syscall::SStore => "sstore"@,
        Syscall::Create => "create"@,
        Syscall::Call => "call"@,
        Syscall::StaticCall => "staticcall"@,
        Syscall::Return => "return"@,
        Syscall::Revert => "revert"@,
        Syscall::Log => "log"@,
        Syscall::ReturnCreateAddress => "returncreateaddress"@,
    }
}

/// Whether a result is what a text stands for as the name of a syscall: the
/// syscall of that name, or, where no syscall has that name, the error that
/// carries the text.
pub open spec fn is_syscall_named(input: Seq<char>, r: Result<Syscall, SyscallError>) -> bool {
    match r {
        Ok(s) => name_of(s) == input,
        Err(SyscallError::ParseError { input: text }) => text@ == input && forall|s: Syscall|
            name_of(s) != input,
        Err(SyscallError::UnknownOpcode(_)) => false,
    }
}

impl Syscall {
    /// The number of this syscall.
    pub fn opcode(self) -> (code: u8)
        ensures
            code == opcode_of(self),
            syscall_of(code) == Some(self),
    {
        match self {
            Syscall::Keccak256 => 0x20,
            Syscall::Origin => 0x32,
            Syscall::Caller => 0x33,
            Syscall::CallValue => 0x34,
            Syscall::GasPrice => 0x3A,
            Syscall::ReturnDataSize => 0x3D,
            Syscall::ReturnDataCopy => 0x3E,
            Syscall::Timestamp => 0x42,
            Syscall::Number => 0x43,
            Syscall::GasLimit => 0x45,
            Syscall::ChainId => 0x46,
            Syscall::BaseFee => 0x48,
            Syscall::SLoad => 0x54,
            Syscall::SStore => 0x55,
            Syscall::Create => 0xF0,
            Syscall::Call => 0xF1,
            Syscall::StaticCall => 0xFA,
            Syscall::Return => 0xF3,
            Syscall::Revert => 0xFD,
            Syscall::Log => 0xA0,
            Syscall::ReturnCreateAddress => 0x01,
        }
    }

    /// The syscall that `code` stands for; an unknown number is an error that
    /// carries the number.
    pub fn from_opcode(code: u8) -> (r: Result<Syscall, SyscallError>)
        ensures
            match r {
                Ok(s) => syscall_of(code) == Some(s) && opcode_of(s) == code,
                Err(SyscallError::UnknownOpcode(c)) => syscall_of(code).is_none() && c == code,
                Err(SyscallError::ParseError { .. }) => false,
            },
    {
        match code {
            0x20 => Ok(Syscall::Keccak256),
            0x32 => Ok(Syscall::Origin),
            0x33 => Ok(Syscall::Caller),
            0x34 => Ok(Syscall::CallValue),
            0x3A => Ok(Syscall::GasPrice),
            0x3D => Ok(Syscall::ReturnDataSize),
            0x3E => Ok(Syscall::ReturnDataCopy),
            0x42 => Ok(Syscall::Timestamp),
            0x43 => Ok(Syscall::Number),
            0x45 => Ok(Syscall::GasLimit),
            0x46 => Ok(Syscall::ChainId),
            0x48 => Ok(Syscall::BaseFee),
            0x54 => Ok(Syscall::SLoad),
            0x55 => Ok(Syscall::SStore),
            0xF0 => Ok(Syscall::Create),
            0xF1 => Ok(Syscall::Call),
            0xFA => Ok(Syscall::StaticCall),
            0xF3 => Ok(Syscall::Return),
            0xFD => Ok(Syscall::Revert),
            0xA0 => Ok(Syscall::Log),
            0x01 => Ok(Syscall::ReturnCreateAddress),
            num => Err(SyscallError::UnknownOpcode(num)),
        }
    }

    /// The syscall that the name `input` stands for; any other text is an
    /// error that carries the text.
    pub fn from_name(input: &str) -> (r: Result<Syscall, SyscallError>)
        ensures
            is_syscall_named(input@, r),
    {
        let all = Syscall::all();
        let mut i: usize = 0;
        while i < all.len()
            invariant
                i <= all@.len(),
                all@ == all_syscalls(),
                forall|j: int| 0 <= j < i ==> name_of(all@[j]) != input@,
            decreases all@.len() - i,
        {
            if same_text(all[i].name(), input) {
                return Ok(all[i]);
            }
            i += 1;
        }
        proof {
            assert forall|s: Syscall| name_of(s) != input@ by {
                lemma_all_syscalls(s);
            }
        }
        Err(SyscallError::ParseError { input: String::from_str(input) })
    }

    /// Every syscall, in the order of the catalog.
    pub fn all() -> (list: Vec<Syscall>)
        ensures
            list@ == all_syscalls(),
    {
        let mut list: Vec<Syscall> = Vec::new();
        list.push(Syscall::Keccak256);
        list.push(Syscall::Origin);
        list.push(Syscall::Caller);
        list.push(Syscall::CallValue);
        list.push(Syscall::GasPrice);
        list.push(Syscall::ReturnDataSize);
        list.push(Syscall::ReturnDataCopy);
        list.push(Syscall::Timestamp);
        list.push(Syscall::Number);
        list.push(Syscall::GasLimit);
        list.push(Syscall::ChainId);
        list.push(Syscall::BaseFee);
        list.push(Syscall::SLoad);
        list.push(Syscall::SStore);
        list.push(Syscall::Create);
        list.push(Syscall::Call);
        list.push(Syscall::StaticCall);
        list.push(Syscall::Return);
        list.push(Syscall::Revert);
        list.push(Syscall::Log);
        list.push(Syscall::ReturnCreateAddress);
        assert(list@ =~= all_syscalls());
        list
    }

    /// The name of this syscall.
    pub fn name(self) -> (n: &'static str)
        ensures
            n@ == name_of(self),
    {
        match self {
            Syscall::Keccak256 => "keccak256",
            Syscall::Origin => "origin",
            Syscall::Caller => "caller",
            Syscall::CallValue => "callvalue",
            Syscall::GasPrice => "gasprice",
            Syscall::ReturnDataSize => "returndatasize",
            Syscall::ReturnDataCopy => "returndatacopy",
            Syscall::Timestamp => "timestamp",
            Syscall::Number => "number",
            Syscall::GasLimit => "gaslimit",
            Syscall::ChainId => "chainid",
            Syscall::BaseFee => "basefee",
            Syscall::SLoad => "sload",
            Syscall::SStore => "sstore",
            Syscall::Create => "create",
            Syscall::Call => "call",
            Syscall::StaticCall => "staticcall",
            Syscall::Return => "return",
            Syscall::Revert => "revert",
            Syscall::Log => "log",
            Syscall::ReturnCreateAddress => "returncreateaddress",
        }
    }
}

/// Every syscall, in the order of the catalog.
pub open spec fn all_syscalls() -> Seq<Syscall> {
    seq![
        Syscall::Keccak256,
        Syscall::Origin,
        Syscall::Caller,
        Syscall::CallValue,
        Syscall::GasPrice,
        Syscall::ReturnDataSize,
        Syscall::ReturnDataCopy,
        Syscall::Timestamp,
        Syscall::Number,
        Syscall::GasLimit,
        Syscall::ChainId,
        Syscall::BaseFee,
        Syscall::SLoad,
        Syscall::SStore,
        Syscall::Create,
        Syscall::Call,
        Syscall::StaticCall,
        Syscall::Return,
        Syscall::Revert,
        Syscall::Log,
        Syscall::ReturnCreateAddress,
    ]
}

/// The catalog holds every syscall.
pub proof fn lemma_all_syscalls(s: Syscall)
    ensures
        all_syscalls().contains(s),
        exists|i: int| 0 <= i < all_syscalls().len() && all_syscalls()[i] == s,
{
    let i: int = match s {
        Syscall::Keccak256 => 0,
        Syscall::Origin => 1,
        Syscall::Caller => 2,
        Syscall::CallValue => 3,
        Syscall::GasPrice => 4,
        Syscall::ReturnDataSize => 5,
        Syscall::ReturnDataCopy => 6,
        Syscall::Timestamp => 7,
        Syscall::Number => 8,
        Syscall::GasLimit => 9,
        Syscall::ChainId => 10,
        Syscall::BaseFee => 11,
        Syscall::SLoad => 12,
        Syscall::SStore => 13,
        Syscall::Create => 14,
        Syscall::Call => 15,
        Syscall::StaticCall => 16,
        Syscall::Return => 17,
        Syscall::Revert => 18,
        Syscall::Log => 19,
        Syscall::ReturnCreateAddress => 20,
    };
    assert(all_syscalls()[i] == s);
}

/// Every syscall's number leads back to that syscall, and every number that
/// names a syscall is that syscall's number.
pub proof fn lemma_opcode_round_trip(s: Syscall, code: u8)
    ensures
        syscall_of(opcode_of(s)) == Some(s),
        syscall_of(code) == Some(s) ==> opcode_of(s) == code,
{
}

impl From<Syscall> for u8 {
    fn from(syscall: Syscall) -> (code: u8) {
        syscall.opcode()
    }
}

impl vstd::std_specs::convert::FromSpecImpl<Syscall> for u8 {
    open spec fn obeys_from_spec() -> bool {
        true
    }

    open spec fn from_spec(syscall: Syscall) -> u8 {
        opcode_of(syscall)
    }
}

impl std::str::FromStr for Syscall {
    type Err = SyscallError;

    /// The syscall that the name `input` stands for; any other text is an
    /// error that carries the text.
    fn from_str(input: &str) -> (r: Result<Syscall, SyscallError>)
        ensures
            is_syscall_named(input@, r),
    {
        Syscall::from_name(input)
    }
}

} // verus!
