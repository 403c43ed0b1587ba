//! A typed client layer over a Cryptoki module: the attribute codec, the classification of return
//! values, and the call sequences of each operation, as steps that a driver performs against the
//! module's function table.

pub mod constants;
pub mod functions;
pub mod gateway;
pub mod types;

use crate::gateway::FunctionList;
use crate::types::byte_order::ByteOrder;
use crate::types::function::RvError;
use vstd::prelude::*;

verus! {

/// Everything that an operation of this library can fail with.
#[derive(Debug, Clone, Copy, PartialEq, Eq, Structural)]
pub enum Error {
    /// The module could not be loaded, or it did not hand out its function table.
    LibraryLoading,
    /// The module returned a value other than success.
    Pkcs11(RvError),
    /// A value from the module lies outside the set that this library models.
    NotSupported,
    /// A length or count does not fit the integer type on the other side of the boundary.
    TryFromInt,
    /// A buffer does not have the length that its content calls for.
    TryFromSlice,
    /// A value is not one that its type can have.
    InvalidValue,
    /// A secret holds an interior nul byte.
    NulError,
    /// The buffer that the caller gave for an attribute is shorter than its value. The
    /// attribute is named by the number of its type, with the length that the module asks for
    /// and the one that was given.
    BufferTooSmall { attribute_type: u64, expected: u64, given: u64 },
    /// The buffer that the caller gave for an attribute is longer than its value, named as
    /// above.
    BufferTooBig { attribute_type: u64, expected: u64, given: u64 },
    /// The function table has no entry for the function that the operation needs next.
    NullFunctionPointer,
}

/// The client of one module: which entries of its function table are set, and the byte order
/// in which it reads and writes its numbers. It is made once, when the module was loaded, and
/// does not change; sessions and operations borrow it.
#[derive(Debug, Clone, Copy, PartialEq, Eq)]
pub struct Pkcs11 {
    function_list: FunctionList,
    byte_order: ByteOrder,
}

impl Pkcs11 {
    /// Which entries of the function table are set.
    pub closed spec fn functions(&self) -> FunctionList {
        self.function_list
    }

    /// The byte order of the module.
    pub closed spec fn order(&self) -> ByteOrder {
        self.byte_order
    }

    /// The client of a module whose function table has the given entries, on this machine.
    /// Its byte order is that of the machine, of which nothing is promised.
    pub fn new(function_list: FunctionList) -> (client: Self)
        ensures
            client.functions() == function_list,
    {
        Pkcs11::with_byte_order(function_list, ByteOrder::native())
    }

    /// The client of a module whose function table has the given entries and that reads and
    /// writes its numbers in the given byte order.
    pub fn with_byte_order(function_list: FunctionList, byte_order: ByteOrder) -> (client: Self)
        ensures
            client.functions() == function_list,
            client.order() == byte_order,
    {
        Pkcs11 { function_list, byte_order }
    }

    /// Which entries of the function table are set.
    pub fn function_list(&self) -> (function_list: FunctionList)
        ensures
            function_list == self.functions(),
    {
        self.function_list
    }

    /// The byte order of the module.
    pub fn byte_order(&self) -> (byte_order: ByteOrder)
        ensures
            byte_order == self.order(),
    {
        self.byte_order
    }
}

} // verus!
