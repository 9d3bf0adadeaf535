//! What a call into another contract may do, as types: a call made from a
//! context that only reads may itself only read. And what a contract, an
//! interface and an event offer to the code around them.

use vstd::prelude::*;

verus! {

/// The context of a call that only reads state.
#[derive(Clone, Copy, Debug, PartialEq, Eq, Structural)]
pub struct ReadOnly;

/// The context of a call that may change state.
#[derive(Clone, Copy, Debug, PartialEq, Eq, Structural)]
pub struct ReadWrite;

/// A context from which a contract can be called.
pub trait CallCtx {

}

/// A context from which state can be read.
pub trait StaticCtx: CallCtx {

}

/// A context from which state can be changed.
pub trait MutableCtx: StaticCtx {

}

impl CallCtx for ReadOnly {

}

impl CallCtx for ReadWrite {

}

impl StaticCtx for ReadOnly {

}

impl StaticCtx for ReadWrite {

}

impl MutableCtx for ReadWrite {

}

/// How a method takes its contract, and what calls made from it may do: a
/// method that takes the contract by a shared reference may only read, one
/// that takes it by a mutable reference may also write.
pub trait MethodCtx {
    /// The context of the calls that the method may make.
    type Allowed: CallCtx;
}

impl<'a, T> MethodCtx for &'a T {
    type Allowed = ReadOnly;
}

impl<'a, T> MethodCtx for &'a mut T {
    type Allowed = ReadWrite;
}

/// An interface that can be turned into the interface `T` of another
/// context.
pub trait IntoInterface<T> {
    /// The interface in the other context.
    fn into_interface(self) -> T;
}

/// A contract: what a transaction enters it by.
pub trait Contract {
    /// Serves the call whose data stands in the memory of the machine.
    fn call(&mut self);

    /// Serves the call with the given data.
    fn call_with_data(&mut self, calldata: &[u8]);
}

/// An event that a contract emits.
pub trait Event {
    /// The data of the log entry and its topics, 32 bytes each.
    fn encode_log(&self) -> (Vec<u8>, Vec<[u8; 32]>);
}

} // verus!
