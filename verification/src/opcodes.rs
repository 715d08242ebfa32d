//! The operations that instructions carry: field and integer arithmetic, and
//! the fixed catalogue of cryptographic primitives.

use vstd::prelude::*;
use crate::registers::{HeapArray, HeapVector, RegisterIndex, RegisterOrMemory, Value};

verus! {

/// Arithmetic on field elements: unbounded, with no notion of overflow.
#[derive(Clone, Copy, Debug, PartialEq, Eq, Structural)]
pub enum BinaryFieldOp {
    Add,
    Sub,
    Mul,
    Div,
    Equals,
}

/// Arithmetic on integers of a fixed width; every use comes with a bit width.
#[derive(Clone, Copy, Debug, PartialEq, Eq, Structural)]
pub enum BinaryIntOp {
    Add,
    Sub,
    Mul,
    SignedDiv,
    UnsignedDiv,
    Equals,
    LessThan,
    LessThanEquals,
    And,
    Or,
    Xor,
    Shl,
    Shr,
}

/// The operation of a binary instruction. A field operation carries no bit
/// width; an integer operation and a modulo always carry one.
#[allow(inconsistent_fields)]
#[derive(Clone, Copy, Debug, PartialEq, Eq, Structural)]
pub enum BrilligBinaryOp {
    Field { op: BinaryFieldOp },
    Integer { op: BinaryIntOp, bit_size: u32 },
    Modulo { is_signed_integer: bool, bit_size: u32 },
}

/// The cryptographic primitives that the virtual machine runs as single
/// steps. The set is closed.
#[allow(inconsistent_fields)]
#[derive(Clone, Copy, Debug, PartialEq, Eq, Structural)]
pub enum BlackBoxOp {
    /// The SHA-256 hash of the message.
    Sha256 { message: HeapVector, output: HeapArray },
    /// The Blake2s hash of the message.
    Blake2s { message: HeapVector, output: HeapArray },
    /// The Keccak-256 hash of the message.
    Keccak256 { message: HeapVector, output: HeapArray },
    /// The hash of the message reduced to a field element.
    HashToField128Security { message: HeapVector, output: RegisterIndex },
    /// The check of an ECDSA signature over the secp256k1 curve.
    EcdsaSecp256k1 {
        hashed_msg: HeapVector,
        public_key_x: HeapArray,
        public_key_y: HeapArray,
        signature: HeapArray,
        result: RegisterIndex,
    },
}

impl BlackBoxOp {
    /// Whether one of the operands names the register.
    pub open spec fn references(self, register: RegisterIndex) -> bool {
        match self {
            BlackBoxOp::Sha256 { message, output } => message.pointer == register || message.size
                == register || output.pointer == register,
            BlackBoxOp::Blake2s { message, output } => message.pointer == register || message.size
                == register || output.pointer == register,
            BlackBoxOp::Keccak256 { message, output } => message.pointer == register
                || message.size == register || output.pointer == register,
            BlackBoxOp::HashToField128Security { message, output } => message.pointer == register
                || message.size == register || output == register,
            BlackBoxOp::EcdsaSecp256k1 {
                hashed_msg,
                public_key_x,
                public_key_y,
                signature,
                result,
            } => hashed_msg.pointer == register || hashed_msg.size == register
                || public_key_x.pointer == register || public_key_y.pointer == register
                || signature.pointer == register || result == register,
        }
    }
}

/// One instruction of a program. The set is closed: whoever runs or renders
/// a program goes through every case.
#[allow(inconsistent_fields)]
#[derive(Clone, Debug, PartialEq, Eq)]
pub enum Instruction {
    /// Aborts the execution if the condition is zero.
    Constrain { condition: RegisterIndex },
    /// Ends the function; the registers are its outputs, in order.
    Return { return_registers: Vec<RegisterIndex> },
    /// Copies the source register into the destination register.
    Mov { destination: RegisterIndex, source: RegisterIndex },
    /// Computes `result = lhs operation rhs`.
    BinaryOp {
        lhs: RegisterIndex,
        rhs: RegisterIndex,
        result: RegisterIndex,
        operation: BrilligBinaryOp,
    },
    /// Loads an immediate value into a register.
    Const { result: RegisterIndex, constant: Value },
    /// The bitwise complement of the condition at the given width.
    Not { condition: RegisterIndex, bit_size: u32, result: RegisterIndex },
    /// Calls the named oracle of the host with the inputs and writes what it
    /// answers into the outputs.
    ForeignCall { func_name: String, inputs: Vec<RegisterOrMemory>, outputs: Vec<RegisterOrMemory> },
    /// Reads the memory cell that the source pointer addresses.
    Load { destination: RegisterIndex, source_pointer: RegisterIndex },
    /// Writes the source into the memory cell that the destination pointer
    /// addresses.
    Store { destination_pointer: RegisterIndex, source: RegisterIndex },
    /// Halts the current call frame.
    Stop,
    /// Reserves a block of memory of the given size and writes its address
    /// into the pointer register.
    AllocateArray { pointer_register: RegisterIndex, size_register: RegisterIndex },
    /// Reads the element of an array at an index.
    ArrayGet { array_ptr: RegisterIndex, index: RegisterIndex, result: RegisterIndex },
    /// Writes the element of an array at an index.
    ArraySet { array_ptr: RegisterIndex, index: RegisterIndex, value: RegisterIndex },
    /// Copies a number of elements, held in a register, from one array to
    /// another.
    CopyArray {
        source: RegisterIndex,
        destination: RegisterIndex,
        num_elements_register: RegisterIndex,
    },
    /// Marks the start of a function or of a block.
    EnterContext { label: String },
    /// Continues at the label.
    Jump { target_label: String },
    /// Continues at the label if the condition is not zero.
    JumpIf { condition: RegisterIndex, target_label: String },
    /// Truncates the source to the given width.
    Cast { destination: RegisterIndex, source: RegisterIndex, target_bit_size: u32 },
    /// Runs a cryptographic primitive.
    BlackBox { op: BlackBoxOp },
    /// Continues at the entry of another function, which hands control back
    /// when it returns.
    ExternalCall { func_label: String },
}

impl Instruction {
    /// Whether one of the operands of the instruction names the register.
    pub open spec fn references(self, register: RegisterIndex) -> bool {
        match self {
            Instruction::Constrain { condition } => condition == register,
            Instruction::Return { return_registers } => return_registers@.contains(register),
            Instruction::Mov { destination, source } => destination == register || source
                == register,
            Instruction::BinaryOp { lhs, rhs, result, .. } => lhs == register || rhs == register
                || result == register,
            Instruction::Const { result, .. } => result == register,
            Instruction::Not { condition, result, .. } => condition == register || result
                == register,
            Instruction::ForeignCall { inputs, outputs, .. } => {
                ||| exists|i: int|
                    0 <= i < inputs@.len() && (#[trigger] inputs@[i]).references(register)
                ||| exists|i: int|
                    0 <= i < outputs@.len() && (#[trigger] outputs@[i]).references(register)
            },
            Instruction::Load { destination, source_pointer } => destination == register
                || source_pointer == register,
            Instruction::Store { destination_pointer, source } => destination_pointer == register
                || source == register,
            Instruction::Stop => false,
            Instruction::AllocateArray { pointer_register, size_register } => pointer_register
                == register || size_register == register,
            Instruction::ArrayGet { array_ptr, index, result } => array_ptr == register || index
                == register || result == register,
            Instruction::ArraySet { array_ptr, index, value } => array_ptr == register || index
                == register || value == register,
            Instruction::CopyArray { source, destination, num_elements_register } => source
                == register || destination == register || num_elements_register == register,
            Instruction::EnterContext { .. } => false,
            Instruction::Jump { .. } => false,
            Instruction::JumpIf { condition, .. } => condition == register,
            Instruction::Cast { destination, source, .. } => destination == register || source
                == register,
            Instruction::BlackBox { op } => op.references(register),
            Instruction::ExternalCall { .. } => false,
        }
    }
}

} // verus!
