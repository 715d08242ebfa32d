//! The register and address space model: what an operand of an instruction
//! can be.

use vstd::prelude::*;

verus! {

/// Registers and memory offsets are addressed with this many bits. An integer
/// operation at least this wide is treated as unbounded.
pub const BRILLIG_MEMORY_ADDRESSING_BIT_SIZE: u32 = 64;

/// An index into the flat register file of the virtual machine.
#[derive(Clone, Copy, Debug, PartialEq, Eq, Structural)]
pub struct RegisterIndex(pub usize);

impl RegisterIndex {
    /// The position of the register in the register file.
    pub fn to_usize(self) -> (index: usize)
        ensures
            index == self.0,
    {
        self.0
    }
}

impl From<usize> for RegisterIndex {
    fn from(value: usize) -> (r: RegisterIndex) {
        RegisterIndex(value)
    }
}

impl vstd::std_specs::convert::FromSpecImpl<usize> for RegisterIndex {
    open spec fn obeys_from_spec() -> bool {
        true
    }

    open spec fn from_spec(value: usize) -> RegisterIndex {
        RegisterIndex(value)
    }
}

/// The registers whose meaning is fixed for the whole virtual machine.
pub struct ReservedRegisters;

impl ReservedRegisters {
    /// The register that holds the stack pointer: the base of the dynamically
    /// sized memory of the current function.
    pub open spec fn spec_stack_pointer() -> RegisterIndex {
        RegisterIndex(0)
    }

    /// The register that holds the stack pointer.
    #[verifier::when_used_as_spec(spec_stack_pointer)]
    pub fn stack_pointer() -> (r: RegisterIndex)
        ensures
            r == Self::spec_stack_pointer(),
    {
        RegisterIndex(0)
    }
}

/// A block of memory of fixed length, starting at the address that the
/// pointer register holds.
#[derive(Clone, Copy, Debug, PartialEq, Eq, Structural)]
pub struct HeapArray {
    pub pointer: RegisterIndex,
    pub size: usize,
}

/// A block of memory starting at the address that the pointer register
/// holds, whose length is held in a second register.
#[derive(Clone, Copy, Debug, PartialEq, Eq, Structural)]
pub struct HeapVector {
    pub pointer: RegisterIndex,
    pub size: RegisterIndex,
}

/// An operand of a foreign call: a single register, or a block of memory.
#[derive(Clone, Copy, Debug, PartialEq, Eq, Structural)]
pub enum RegisterOrMemory {
    RegisterIndex(RegisterIndex),
    HeapArray(HeapArray),
    HeapVector(HeapVector),
}

impl RegisterOrMemory {
    /// Whether the operand names the register: as itself, as the pointer of
    /// a block, or as the length of one.
    pub open spec fn references(self, register: RegisterIndex) -> bool {
        match self {
            RegisterOrMemory::RegisterIndex(index) => index == register,
            RegisterOrMemory::HeapArray(array) => array.pointer == register,
            RegisterOrMemory::HeapVector(vector) => vector.pointer == register || vector.size
                == register,
        }
    }
}

/// An immediate value that an instruction loads into a register.
#[derive(Clone, Copy, Debug, PartialEq, Eq, Structural)]
pub struct Value {
    pub inner: usize,
}

impl Value {
    /// The value as a machine integer.
    pub fn to_usize(&self) -> (n: usize)
        ensures
            n == self.inner,
    {
        self.inner
    }
}

impl From<usize> for Value {
    fn from(value: usize) -> (v: Value) {
        Value { inner: value }
    }
}

impl vstd::std_specs::convert::FromSpecImpl<usize> for Value {
    open spec fn obeys_from_spec() -> bool {
        true
    }

    open spec fn from_spec(value: usize) -> Value {
        Value { inner: value }
    }
}

} // verus!
