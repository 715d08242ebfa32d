//! What the disassembler shows, as mathematics: the line of every
//! instruction, and how the lines of a program follow from its instructions.

use vstd::prelude::*;
use crate::debug_show::{list_text, DebugToString};
use crate::opcodes::{BlackBoxOp, BrilligBinaryOp, Instruction};
use crate::registers::{HeapVector, RegisterIndex, RegisterOrMemory, Value};
use crate::text::decimal_text;

verus! {

/// The line of an instruction that traps when the condition is zero.
pub open spec fn constrain_text(condition: RegisterIndex) -> Seq<char> {
    "  ASSERT "@ + condition.debug_text() + " != 0"@
}

/// The line of a return with its output registers.
pub open spec fn return_text(return_registers: Seq<RegisterIndex>) -> Seq<char> {
    "  // return "@ + list_text(return_registers) + ";"@
}

/// The line of a copy from one register to another.
pub open spec fn mov_text(destination: RegisterIndex, source: RegisterIndex) -> Seq<char> {
    "  MOV "@ + destination.debug_text() + ", "@ + source.debug_text()
}

/// The line of a binary operation.
pub open spec fn binary_text(
    lhs: RegisterIndex,
    rhs: RegisterIndex,
    result: RegisterIndex,
    operation: BrilligBinaryOp,
) -> Seq<char> {
    "  "@ + result.debug_text() + " = "@ + lhs.debug_text() + " "@ + operation.debug_text() + " "@
        + rhs.debug_text()
}

/// The line of a load of an immediate value.
pub open spec fn const_text(result: RegisterIndex, constant: Value) -> Seq<char> {
    "  CONST "@ + result.debug_text() + " = "@ + constant.debug_text()
}

/// The line of a bitwise complement.
pub open spec fn not_text(condition: RegisterIndex, bit_size: u32, result: RegisterIndex) -> Seq<
    char,
> {
    "  i"@ + decimal_text(bit_size as nat) + "_NOT "@ + result.debug_text() + " = !"@
        + condition.debug_text()
}

/// The line of a call to an oracle of the host.
pub open spec fn foreign_call_text(
    func_name: Seq<char>,
    inputs: Seq<RegisterOrMemory>,
    outputs: Seq<RegisterOrMemory>,
) -> Seq<char> {
    "  FOREIGN_CALL "@ + func_name + " ("@ + list_text(inputs) + ") => "@ + list_text(outputs)
}

/// The line of a read from memory.
pub open spec fn load_text(destination: RegisterIndex, source_pointer: RegisterIndex) -> Seq<char> {
    "  LOAD "@ + destination.debug_text() + " = *"@ + source_pointer.debug_text()
}

/// The line of a write to memory.
pub open spec fn store_text(destination_pointer: RegisterIndex, source: RegisterIndex) -> Seq<
    char,
> {
    "  STORE *"@ + destination_pointer.debug_text() + " = "@ + source.debug_text()
}

/// The line of a halt.
pub open spec fn stop_text() -> Seq<char> {
    "  STOP"@
}

/// The line of an allocation.
pub open spec fn allocate_array_text(
    pointer_register: RegisterIndex,
    size_register: RegisterIndex,
) -> Seq<char> {
    "  ALLOCATE_ARRAY "@ + pointer_register.debug_text() + " SIZE "@ + size_register.debug_text()
}

/// The line of a read of an array element.
pub open spec fn array_get_text(
    array_ptr: RegisterIndex,
    index: RegisterIndex,
    result: RegisterIndex,
) -> Seq<char> {
    "  ARRAY_GET "@ + array_ptr.debug_text() + "["@ + index.debug_text() + "] -> "@
        + result.debug_text()
}

/// The line of a write of an array element.
pub open spec fn array_set_text(
    array_ptr: RegisterIndex,
    index: RegisterIndex,
    value: RegisterIndex,
) -> Seq<char> {
    "  ARRAY_SET "@ + array_ptr.debug_text() + "["@ + index.debug_text() + "] = "@
        + value.debug_text()
}

/// The line of a copy between arrays.
pub open spec fn copy_array_text(
    source: RegisterIndex,
    destination: RegisterIndex,
    num_elements_register: RegisterIndex,
) -> Seq<char> {
    "  COPY_ARRAY "@ + source.debug_text() + " -> "@ + destination.debug_text() + " ("@
        + num_elements_register.debug_text() + " ELEMENTS)"@
}

/// The header line of a function or of a block.
pub open spec fn header_text(label: Seq<char>) -> Seq<char> {
    label + ":"@
}

/// The line of a jump.
pub open spec fn jump_text(target_label: Seq<char>) -> Seq<char> {
    "  JUMP_TO "@ + target_label
}

/// The line of a conditional jump.
pub open spec fn jump_if_text(condition: RegisterIndex, target_label: Seq<char>) -> Seq<char> {
    "  JUMP_IF "@ + condition.debug_text() + " TO "@ + target_label
}

/// The line of a cast to another width.
pub open spec fn cast_text(
    destination: RegisterIndex,
    source: RegisterIndex,
    target_bit_size: u32,
) -> Seq<char> {
    "  CAST "@ + destination.debug_text() + " FROM "@ + source.debug_text() + " TO "@
        + decimal_text(target_bit_size as nat) + " BITS"@
}

/// The line of a hash: its name, the message and where the digest goes.
pub open spec fn hash_text(name: Seq<char>, message: HeapVector, output: Seq<char>) -> Seq<char> {
    "  "@ + name + " "@ + message.debug_text() + " -> "@ + output
}

/// The line of a cryptographic primitive. A signature check lists the hashed
/// message, the two coordinates of the public key and the signature, in this
/// order, and then the register of the verdict.
pub open spec fn black_box_op_text(op: BlackBoxOp) -> Seq<char> {
    match op {
        BlackBoxOp::Sha256 { message, output } => hash_text(
            "SHA256"@,
            message,
            output.debug_text(),
        ),
        BlackBoxOp::Keccak256 { message, output } => hash_text(
            "KECCAK256"@,
            message,
            output.debug_text(),
        ),
        BlackBoxOp::Blake2s { message, output } => hash_text(
            "BLAKE2S"@,
            message,
            output.debug_text(),
        ),
        BlackBoxOp::HashToField128Security { message, output } => hash_text(
            "HASH_TO_FIELD_128_SECURITY"@,
            message,
            output.debug_text(),
        ),
        BlackBoxOp::EcdsaSecp256k1 { hashed_msg, public_key_x, public_key_y, signature, result } => {
            "  ECDSA_SECP256K1 "@ + hashed_msg.debug_text() + " "@ + public_key_x.debug_text()
                + " "@ + public_key_y.debug_text() + " "@ + signature.debug_text() + " -> "@
                + result.debug_text()
        },
    }
}

/// The line of a call to another function.
pub open spec fn external_call_text(func_label: Seq<char>) -> Seq<char> {
    "  CALL "@ + func_label
}

/// The line that stands for an instruction. It depends on nothing but the
/// instruction and its operands.
pub open spec fn instruction_text(instruction: Instruction) -> Seq<char> {
    match instruction {
        Instruction::Constrain { condition } => constrain_text(condition),
        Instruction::Return { return_registers } => return_text(return_registers@),
        Instruction::Mov { destination, source } => mov_text(destination, source),
        Instruction::BinaryOp { lhs, rhs, result, operation } => binary_text(
            lhs,
            rhs,
            result,
            operation,
        ),
        Instruction::Const { result, constant } => const_text(result, constant),
        Instruction::Not { condition, bit_size, result } => not_text(condition, bit_size, result),
        Instruction::ForeignCall { func_name, inputs, outputs } => foreign_call_text(
            func_name@,
            inputs@,
            outputs@,
        ),
        Instruction::Load { destination, source_pointer } => load_text(destination, source_pointer),
        Instruction::Store { destination_pointer, source } => store_text(
            destination_pointer,
            source,
        ),
        Instruction::Stop => stop_text(),
        Instruction::AllocateArray { pointer_register, size_register } => allocate_array_text(
            pointer_register,
            size_register,
        ),
        Instruction::ArrayGet { array_ptr, index, result } => array_get_text(
            array_ptr,
            index,
            result,
        ),
        Instruction::ArraySet { array_ptr, index, value } => array_set_text(
            array_ptr,
            index,
            value,
        ),
        Instruction::CopyArray { source, destination, num_elements_register } => copy_array_text(
            source,
            destination,
            num_elements_register,
        ),
        Instruction::EnterContext { label } => header_text(label@),
        Instruction::Jump { target_label } => jump_text(target_label@),
        Instruction::JumpIf { condition, target_label } => jump_if_text(condition, target_label@),
        Instruction::Cast { destination, source, target_bit_size } => cast_text(
            destination,
            source,
            target_bit_size,
        ),
        Instruction::BlackBox { op } => black_box_op_text(op),
        Instruction::ExternalCall { func_label } => external_call_text(func_label@),
    }
}

/// What a disassembler remembers between two instructions.
pub struct TraceState {
    /// Whether the trace is switched on.
    pub enabled: bool,
    /// The label whose header is the last line that was shown, if the last
    /// line was a header.
    pub last_header: Option<Seq<char>>,
}

/// What a line is as text, if there is a line.
pub open spec fn shown(line: Option<String>) -> Option<Seq<char>> {
    match line {
        Some(s) => Some(s@),
        None => None,
    }
}

impl TraceState {
    /// The state with the switch set.
    pub open spec fn with_enabled(self, enabled: bool) -> TraceState {
        TraceState { enabled, last_header: self.last_header }
    }

    /// Whether the header of `label` would repeat the one just shown: the
    /// label names the first block, `-b0`, of the function whose header is the
    /// last line shown.
    pub open spec fn suppresses(self, label: Seq<char>) -> bool {
        self.last_header matches Some(function) && label == function + "-b0"@
    }

    /// What is shown for a line that is not a header.
    pub open spec fn line(self, text: Seq<char>) -> Option<Seq<char>> {
        if self.enabled {
            Some(text)
        } else {
            None
        }
    }

    /// The state after a line that is not a header.
    pub open spec fn after_line(self) -> TraceState {
        if self.enabled {
            TraceState { enabled: true, last_header: None }
        } else {
            self
        }
    }

    /// What is shown for the header of `label`.
    pub open spec fn header(self, label: Seq<char>) -> Option<Seq<char>> {
        if self.enabled && !self.suppresses(label) {
            Some(header_text(label))
        } else {
            None
        }
    }

    /// The state after the header of `label`.
    pub open spec fn after_header(self, label: Seq<char>) -> TraceState {
        if self.enabled && !self.suppresses(label) {
            TraceState { enabled: true, last_header: Some(label) }
        } else {
            self
        }
    }

    /// What is shown for an instruction.
    pub open spec fn emits(self, instruction: Instruction) -> Option<Seq<char>> {
        match instruction {
            Instruction::EnterContext { label } => self.header(label@),
            _ => self.line(instruction_text(instruction)),
        }
    }

    /// The state after an instruction.
    pub open spec fn next(self, instruction: Instruction) -> TraceState {
        match instruction {
            Instruction::EnterContext { label } => self.after_header(label@),
            _ => self.after_line(),
        }
    }

    /// The state after the instructions of a program, in order.
    pub open spec fn run(self, program: Seq<Instruction>) -> TraceState
        decreases program.len(),
    {
        if program.len() == 0 {
            self
        } else {
            self.run(program.drop_last()).next(program.last())
        }
    }

    /// The lines shown for the instructions of a program, in order.
    pub open spec fn trace(self, program: Seq<Instruction>) -> Seq<Seq<char>>
        decreases program.len(),
    {
        if program.len() == 0 {
            Seq::empty()
        } else {
            let before = self.trace(program.drop_last());
            match self.run(program.drop_last()).emits(program.last()) {
                Some(text) => before.push(text),
                None => before,
            }
        }
    }

    /// While the trace is off nothing is shown, whatever the program, and the
    /// disassembler stays as it was.
    pub proof fn lemma_disabled_shows_nothing(self, program: Seq<Instruction>)
        requires
            !self.enabled,
        ensures
            self.trace(program) == Seq::<Seq<char>>::empty(),
            self.run(program) == self,
        decreases program.len(),
    {
        if program.len() > 0 {
            self.lemma_disabled_shows_nothing(program.drop_last());
        }
    }
}

} // verus!
