//! The disassembler: a readable rendering of every operand, operation and
//! instruction.

use vstd::prelude::*;
use vstd::string::*;
use crate::opcodes::{BinaryFieldOp, BinaryIntOp, BlackBoxOp, BrilligBinaryOp, Instruction};
use crate::registers::{
    HeapArray, HeapVector, RegisterIndex, RegisterOrMemory, ReservedRegisters, Value,
    BRILLIG_MEMORY_ADDRESSING_BIT_SIZE,
};
use crate::text::{decimal_string, decimal_text, join_strings, join_texts};
use crate::trace::{
    allocate_array_text, array_get_text, array_set_text, binary_text, black_box_op_text,
    cast_text, const_text, constrain_text, copy_array_text, external_call_text, foreign_call_text,
    hash_text, instruction_text, jump_if_text, jump_text, load_text, mov_text, not_text,
    return_text, shown, stop_text, store_text, TraceState,
};

verus! {

/// A value that has a rendering for the trace.
pub trait DebugToString {
    /// The rendering of the value, character by character.
    spec fn debug_text(&self) -> Seq<char>;

    /// Renders the value.
    fn debug_to_string(&self) -> (s: String)
        ensures
            s@ == self.debug_text(),
    ;
}

impl DebugToString for str {
    open spec fn debug_text(&self) -> Seq<char> {
        self@
    }

    fn debug_to_string(&self) -> (s: String) {
        String::from_str(self)
    }
}

impl DebugToString for usize {
    open spec fn debug_text(&self) -> Seq<char> {
        decimal_text(*self as nat)
    }

    fn debug_to_string(&self) -> (s: String) {
        decimal_string(*self as u64)
    }
}

impl DebugToString for u32 {
    open spec fn debug_text(&self) -> Seq<char> {
        decimal_text(*self as nat)
    }

    fn debug_to_string(&self) -> (s: String) {
        decimal_string(*self as u64)
    }
}

impl DebugToString for RegisterIndex {
    open spec fn debug_text(&self) -> Seq<char> {
        if *self == ReservedRegisters::stack_pointer() {
            "Stack"@
        } else {
            "R"@ + decimal_text(self.0 as nat)
        }
    }

    fn debug_to_string(&self) -> (s: String) {
        if *self == ReservedRegisters::stack_pointer() {
            String::from_str("Stack")
        } else {
            let mut s = String::from_str("R");
            s.append(self.to_usize().debug_to_string().as_str());
            s
        }
    }
}

impl DebugToString for HeapArray {
    open spec fn debug_text(&self) -> Seq<char> {
        self.pointer.debug_text() + "[0.."@ + decimal_text(self.size as nat) + "]"@
    }

    fn debug_to_string(&self) -> (s: String) {
        let mut s = self.pointer.debug_to_string();
        s.append("[0..");
        s.append(self.size.debug_to_string().as_str());
        s.append("]");
        s
    }
}

impl DebugToString for HeapVector {
    open spec fn debug_text(&self) -> Seq<char> {
        self.pointer.debug_text() + "[0.."@ + self.size.debug_text() + "]"@
    }

    fn debug_to_string(&self) -> (s: String) {
        let mut s = self.pointer.debug_to_string();
        s.append("[0..");
        s.append(self.size.debug_to_string().as_str());
        s.append("]");
        s
    }
}

impl DebugToString for BinaryFieldOp {
    open spec fn debug_text(&self) -> Seq<char> {
        match self {
            BinaryFieldOp::Add => "f+"@,
            BinaryFieldOp::Sub => "f-"@,
            BinaryFieldOp::Mul => "f*"@,
            BinaryFieldOp::Div => "f/"@,
            BinaryFieldOp::Equals => "f=="@,
        }
    }

    fn debug_to_string(&self) -> (s: String) {
        match self {
            BinaryFieldOp::Add => String::from_str("f+"),
            BinaryFieldOp::Sub => String::from_str("f-"),
            BinaryFieldOp::Mul => String::from_str("f*"),
            BinaryFieldOp::Div => String::from_str("f/"),
            BinaryFieldOp::Equals => String::from_str("f=="),
        }
    }
}

impl DebugToString for BinaryIntOp {
    open spec fn debug_text(&self) -> Seq<char> {
        match self {
            BinaryIntOp::Add => "+"@,
            BinaryIntOp::Sub => "-"@,
            BinaryIntOp::Mul => "*"@,
            BinaryIntOp::Equals => "=="@,
            BinaryIntOp::SignedDiv => "/"@,
            BinaryIntOp::UnsignedDiv => "//"@,
            BinaryIntOp::LessThan => "<"@,
            BinaryIntOp::LessThanEquals => "<="@,
            BinaryIntOp::And => "&&"@,
            BinaryIntOp::Or => "||"@,
            BinaryIntOp::Xor => "^"@,
            BinaryIntOp::Shl => "<<"@,
            BinaryIntOp::Shr => ">>"@,
        }
    }

    fn debug_to_string(&self) -> (s: String) {
        match self {
            BinaryIntOp::Add => String::from_str("+"),
            BinaryIntOp::Sub => String::from_str("-"),
            BinaryIntOp::Mul => String::from_str("*"),
            BinaryIntOp::Equals => String::from_str("=="),
            BinaryIntOp::SignedDiv => String::from_str("/"),
            BinaryIntOp::UnsignedDiv => String::from_str("//"),
            BinaryIntOp::LessThan => String::from_str("<"),
            BinaryIntOp::LessThanEquals => String::from_str("<="),
            BinaryIntOp::And => String::from_str("&&"),
            BinaryIntOp::Or => String::from_str("||"),
            BinaryIntOp::Xor => String::from_str("^"),
            BinaryIntOp::Shl => String::from_str("<<"),
            BinaryIntOp::Shr => String::from_str(">>"),
        }
    }
}

/// The sign of a modulo: `%` when signed, `%%` when unsigned.
pub open spec fn modulo_text(is_signed_integer: bool) -> Seq<char> {
    if is_signed_integer {
        "%"@
    } else {
        "%%"@
    }
}

impl DebugToString for BrilligBinaryOp {
    open spec fn debug_text(&self) -> Seq<char> {
        match self {
            BrilligBinaryOp::Field { op } => op.debug_text(),
            BrilligBinaryOp::Integer { op, bit_size } => {
                if *bit_size >= BRILLIG_MEMORY_ADDRESSING_BIT_SIZE {
                    op.debug_text()
                } else {
                    "i"@ + decimal_text(*bit_size as nat) + "::"@ + op.debug_text()
                }
            },
            BrilligBinaryOp::Modulo { is_signed_integer, bit_size } => {
                if *bit_size >= BRILLIG_MEMORY_ADDRESSING_BIT_SIZE {
                    modulo_text(*is_signed_integer)
                } else {
                    modulo_text(*is_signed_integer) + ":"@ + decimal_text(*bit_size as nat)
                }
            },
        }
    }

    fn debug_to_string(&self) -> (s: String) {
        match self {
            BrilligBinaryOp::Field { op } => op.debug_to_string(),
            BrilligBinaryOp::Integer { op, bit_size } => {
                // A width that addresses cannot hold carries no weight here.
                if *bit_size >= BRILLIG_MEMORY_ADDRESSING_BIT_SIZE {
                    op.debug_to_string()
                } else {
                    let mut s = String::from_str("i");
                    s.append(bit_size.debug_to_string().as_str());
                    s.append("::");
                    s.append(op.debug_to_string().as_str());
                    s
                }
            },
            BrilligBinaryOp::Modulo { is_signed_integer, bit_size } => {
                let op = if *is_signed_integer {
                    "%"
                } else {
                    "%%"
                };
                if *bit_size >= BRILLIG_MEMORY_ADDRESSING_BIT_SIZE {
                    String::from_str(op)
                } else {
                    let mut s = String::from_str(op);
                    s.append(":");
                    s.append(bit_size.debug_to_string().as_str());
                    s
                }
            },
        }
    }
}

impl DebugToString for Value {
    open spec fn debug_text(&self) -> Seq<char> {
        decimal_text(self.inner as nat)
    }

    fn debug_to_string(&self) -> (s: String) {
        self.to_usize().debug_to_string()
    }
}

impl DebugToString for RegisterOrMemory {
    open spec fn debug_text(&self) -> Seq<char> {
        match self {
            RegisterOrMemory::RegisterIndex(index) => index.debug_text(),
            RegisterOrMemory::HeapArray(heap_array) => heap_array.debug_text(),
            RegisterOrMemory::HeapVector(vector) => vector.debug_text(),
        }
    }

    fn debug_to_string(&self) -> (s: String) {
        match self {
            RegisterOrMemory::RegisterIndex(index) => index.debug_to_string(),
            RegisterOrMemory::HeapArray(heap_array) => heap_array.debug_to_string(),
            RegisterOrMemory::HeapVector(vector) => vector.debug_to_string(),
        }
    }
}

/// The renderings of the items, separated by a comma and a space.
pub open spec fn list_text<T: DebugToString>(items: Seq<T>) -> Seq<char> {
    join_texts(items.map_values(|x: T| x.debug_text()), ", "@)
}

impl<T: DebugToString> DebugToString for [T] {
    open spec fn debug_text(&self) -> Seq<char> {
        list_text(self@)
    }

    fn debug_to_string(&self) -> (s: String) {
        let mut parts: Vec<String> = Vec::new();
        let mut i: usize = 0;
        while i < self.len()
            invariant
                i <= self.len(),
                parts.len() == i,
                forall|j: int| 0 <= j < i ==> (#[trigger] parts@[j])@ == self@[j].debug_text(),
            decreases self.len() - i,
        {
            parts.push(self[i].debug_to_string());
            i += 1;
        }
        assert(parts@.map_values(|p: String| p@) =~= self@.map_values(|x: T| x.debug_text()));
        join_strings(&parts, ", ")
    }
}

/// Splits the label of a first block, `<function>-b0`, into the function's
/// label; `None` for any other label.
pub fn first_block_function(label: &str) -> (function: Option<String>)
    ensures
        match function {
            Some(f) => label@ == f@ + "-b0"@,
            None => forall|f: Seq<char>| label@ != f + "-b0"@,
        },
{
    proof {
        reveal_strlit("-b0");
    }
    let n = label.unicode_len();
    if n < 3 {
        assert forall|f: Seq<char>| label@ != f + "-b0"@ by {
            assert((f + "-b0"@).len() >= 3);
        }
        return None;
    }
    let stem_len = n - 3;
    if label.get_char(stem_len) == '-' && label.get_char(stem_len + 1) == 'b' && label.get_char(
        stem_len + 2,
    ) == '0' {
        let function = String::from_str(label.substring_char(0, stem_len));
        assert(label@ =~= function@ + "-b0"@);
        Some(function)
    } else {
        assert forall|f: Seq<char>| label@ != f + "-b0"@ by {
            let t = f + "-b0"@;
            if label@ == t {
                assert(t[stem_len as int] == '-');
                assert(t[stem_len + 1] == 'b');
                assert(t[stem_len + 2] == '0');
            }
        }
        None
    }
}

/// The disassembler. It holds the switch of the trace and hands back, for
/// each instruction, the line to print.
pub struct DebugShow {
    enable_debug_trace: bool,
    last_header: Option<String>,
}

impl View for DebugShow {
    type V = TraceState;

    closed spec fn view(&self) -> TraceState {
        TraceState { enabled: self.enable_debug_trace, last_header: shown(self.last_header) }
    }
}

impl DebugShow {
    /// A disassembler that has shown nothing yet.
    pub fn new(enable_debug_trace: bool) -> (debug_show: DebugShow)
        ensures
            debug_show@ == (TraceState { enabled: enable_debug_trace, last_header: None }),
    {
        DebugShow { enable_debug_trace, last_header: None }
    }

    /// Whether the trace is switched on.
    pub fn is_enabled(&self) -> (enabled: bool)
        ensures
            enabled == self@.enabled,
    {
        self.enable_debug_trace
    }

    /// Switches the trace on or off. Nothing else changes.
    pub fn set_enabled(&mut self, enable_debug_trace: bool)
        ensures
            final(self)@ == old(self)@.with_enabled(enable_debug_trace),
    {
        self.enable_debug_trace = enable_debug_trace;
    }

    /// Hands out a line that is not a header.
    fn show_line(&mut self, line: String) -> (shown_line: Option<String>)
        requires
            old(self)@.enabled,
        ensures
            shown(shown_line) == Some(line@),
            final(self)@ == old(self)@.after_line(),
    {
        self.last_header = None;
        Some(line)
    }

    /// Whether the header of `label` would repeat the line just shown.
    fn repeats_last_header(&self, label: &str) -> (repeats: bool)
        ensures
            repeats == self@.suppresses(label@),
    {
        match &self.last_header {
            None => false,
            Some(last) => {
                match first_block_function(label) {
                    None => false,
                    Some(function) => {
                        let same = function == *last;
                        proof {
                            if !same && label@ == last@ + "-b0"@ {
                                assert(function@ =~= label@.subrange(0, function@.len() as int));
                                assert(last@ =~= label@.subrange(0, last@.len() as int));
                            }
                        }
                        same
                    },
                }
            },
        }
    }

    /// Shows an instruction that traps if `condition` is zero.
    pub fn constrain_instruction(&mut self, condition: RegisterIndex) -> (line: Option<String>)
        ensures
            shown(line) == old(self)@.line(constrain_text(condition)),
            final(self)@ == old(self)@.after_line(),
    {
        if !self.enable_debug_trace {
            return None;
        }
        let mut line = String::from_str("  ASSERT ");
        line.append(condition.debug_to_string().as_str());
        line.append(" != 0");
        self.show_line(line)
    }

    /// Shows a return with its output registers, in order.
    pub fn return_instruction(&mut self, return_registers: &[RegisterIndex]) -> (line: Option<
        String,
    >)
        ensures
            shown(line) == old(self)@.line(return_text(return_registers@)),
            final(self)@ == old(self)@.after_line(),
    {
        if !self.enable_debug_trace {
            return None;
        }
        let registers_string = return_registers.debug_to_string();
        let mut line = String::from_str("  // return ");
        line.append(registers_string.as_str());
        line.append(";");
        self.show_line(line)
    }

    /// Shows a `mov` instruction.
    pub fn mov_instruction(&mut self, destination: RegisterIndex, source: RegisterIndex) -> (line:
        Option<String>)
        ensures
            shown(line) == old(self)@.line(mov_text(destination, source)),
            final(self)@ == old(self)@.after_line(),
    {
        if !self.enable_debug_trace {
            return None;
        }
        let mut line = String::from_str("  MOV ");
        line.append(destination.debug_to_string().as_str());
        line.append(", ");
        line.append(source.debug_to_string().as_str());
        self.show_line(line)
    }

    /// Shows a binary instruction as an assignment: the result, the left
    /// operand, the operation and the right operand.
    pub fn binary_instruction(
        &mut self,
        lhs: RegisterIndex,
        rhs: RegisterIndex,
        result: RegisterIndex,
        operation: BrilligBinaryOp,
    ) -> (line: Option<String>)
        ensures
            shown(line) == old(self)@.line(binary_text(lhs, rhs, result, operation)),
            final(self)@ == old(self)@.after_line(),
    {
        if !self.enable_debug_trace {
            return None;
        }
        let mut line = String::from_str("  ");
        line.append(result.debug_to_string().as_str());
        line.append(" = ");
        line.append(lhs.debug_to_string().as_str());
        line.append(" ");
        line.append(operation.debug_to_string().as_str());
        line.append(" ");
        line.append(rhs.debug_to_string().as_str());
        self.show_line(line)
    }

    /// Shows the load of `constant` into the `result` register.
    pub fn const_instruction(&mut self, result: RegisterIndex, constant: Value) -> (line: Option<
        String,
    >)
        ensures
            shown(line) == old(self)@.line(const_text(result, constant)),
            final(self)@ == old(self)@.after_line(),
    {
        if !self.enable_debug_trace {
            return None;
        }
        let mut line = String::from_str("  CONST ");
        line.append(result.debug_to_string().as_str());
        line.append(" = ");
        line.append(constant.debug_to_string().as_str());
        self.show_line(line)
    }

    /// Shows a not instruction. Its mnemonic is set off with `_`, as this is a
    /// high-level instruction.
    pub fn not_instruction(
        &mut self,
        condition: RegisterIndex,
        bit_size: u32,
        result: RegisterIndex,
    ) -> (line: Option<String>)
        ensures
            shown(line) == old(self)@.line(not_text(condition, bit_size, result)),
            final(self)@ == old(self)@.after_line(),
    {
        if !self.enable_debug_trace {
            return None;
        }
        let mut line = String::from_str("  i");
        line.append(bit_size.debug_to_string().as_str());
        line.append("_NOT ");
        line.append(result.debug_to_string().as_str());
        line.append(" = !");
        line.append(condition.debug_to_string().as_str());
        self.show_line(line)
    }

    /// Shows a foreign call: the name of the oracle, its inputs, its outputs.
    pub fn foreign_call_instruction(
        &mut self,
        func_name: String,
        inputs: &[RegisterOrMemory],
        outputs: &[RegisterOrMemory],
    ) -> (line: Option<String>)
        ensures
            shown(line) == old(self)@.line(foreign_call_text(func_name@, inputs@, outputs@)),
            final(self)@ == old(self)@.after_line(),
    {
        if !self.enable_debug_trace {
            return None;
        }
        let mut line = String::from_str("  FOREIGN_CALL ");
        line.append(func_name.as_str());
        line.append(" (");
        line.append(inputs.debug_to_string().as_str());
        line.append(") => ");
        line.append(outputs.debug_to_string().as_str());
        self.show_line(line)
    }

    /// Shows a load instruction.
    pub fn load_instruction(&mut self, destination: RegisterIndex, source_pointer: RegisterIndex)
        -> (line: Option<String>)
        ensures
            shown(line) == old(self)@.line(load_text(destination, source_pointer)),
            final(self)@ == old(self)@.after_line(),
    {
        if !self.enable_debug_trace {
            return None;
        }
        let mut line = String::from_str("  LOAD ");
        line.append(destination.debug_to_string().as_str());
        line.append(" = *");
        line.append(source_pointer.debug_to_string().as_str());
        self.show_line(line)
    }

    /// Shows a store instruction.
    pub fn store_instruction(&mut self, destination_pointer: RegisterIndex, source: RegisterIndex)
        -> (line: Option<String>)
        ensures
            shown(line) == old(self)@.line(store_text(destination_pointer, source)),
            final(self)@ == old(self)@.after_line(),
    {
        if !self.enable_debug_trace {
            return None;
        }
        let mut line = String::from_str("  STORE *");
        line.append(destination_pointer.debug_to_string().as_str());
        line.append(" = ");
        line.append(source.debug_to_string().as_str());
        self.show_line(line)
    }

    /// Shows a stop instruction.
    pub fn stop_instruction(&mut self) -> (line: Option<String>)
        ensures
            shown(line) == old(self)@.line(stop_text()),
            final(self)@ == old(self)@.after_line(),
    {
        if !self.enable_debug_trace {
            return None;
        }
        self.show_line(String::from_str("  STOP"))
    }

    /// Shows the allocation of an array.
    pub fn allocate_array_instruction(
        &mut self,
        pointer_register: RegisterIndex,
        size_register: RegisterIndex,
    ) -> (line: Option<String>)
        ensures
            shown(line) == old(self)@.line(allocate_array_text(pointer_register, size_register)),
            final(self)@ == old(self)@.after_line(),
    {
        if !self.enable_debug_trace {
            return None;
        }
        let mut line = String::from_str("  ALLOCATE_ARRAY ");
        line.append(pointer_register.debug_to_string().as_str());
        line.append(" SIZE ");
        line.append(size_register.debug_to_string().as_str());
        self.show_line(line)
    }

    /// Shows the read of an array element.
    pub fn array_get(
        &mut self,
        array_ptr: RegisterIndex,
        index: RegisterIndex,
        result: RegisterIndex,
    ) -> (line: Option<String>)
        ensures
            shown(line) == old(self)@.line(array_get_text(array_ptr, index, result)),
            final(self)@ == old(self)@.after_line(),
    {
        if !self.enable_debug_trace {
            return None;
        }
        let mut line = String::from_str("  ARRAY_GET ");
        line.append(array_ptr.debug_to_string().as_str());
        line.append("[");
        line.append(index.debug_to_string().as_str());
        line.append("] -> ");
        line.append(result.debug_to_string().as_str());
        self.show_line(line)
    }

    /// Shows the write of an array element.
    pub fn array_set(
        &mut self,
        array_ptr: RegisterIndex,
        index: RegisterIndex,
        value: RegisterIndex,
    ) -> (line: Option<String>)
        ensures
            shown(line) == old(self)@.line(array_set_text(array_ptr, index, value)),
            final(self)@ == old(self)@.after_line(),
    {
        if !self.enable_debug_trace {
            return None;
        }
        let mut line = String::from_str("  ARRAY_SET ");
        line.append(array_ptr.debug_to_string().as_str());
        line.append("[");
        line.append(index.debug_to_string().as_str());
        line.append("] = ");
        line.append(value.debug_to_string().as_str());
        self.show_line(line)
    }

    /// Shows a copy between arrays.
    pub fn copy_array_instruction(
        &mut self,
        source: RegisterIndex,
        destination: RegisterIndex,
        num_elements_register: RegisterIndex,
    ) -> (line: Option<String>)
        ensures
            shown(line) == old(self)@.line(
                copy_array_text(source, destination, num_elements_register),
            ),
            final(self)@ == old(self)@.after_line(),
    {
        if !self.enable_debug_trace {
            return None;
        }
        let mut line = String::from_str("  COPY_ARRAY ");
        line.append(source.debug_to_string().as_str());
        line.append(" -> ");
        line.append(destination.debug_to_string().as_str());
        line.append(" (");
        line.append(num_elements_register.debug_to_string().as_str());
        line.append(" ELEMENTS)");
        self.show_line(line)
    }

    /// Shows the header of a function or of a block, unless the label is that
    /// of the first block of the function whose header was shown just before.
    pub fn enter_context(&mut self, label: String) -> (line: Option<String>)
        ensures
            shown(line) == old(self)@.header(label@),
            final(self)@ == old(self)@.after_header(label@),
    {
        if !self.enable_debug_trace {
            return None;
        }
        // A function's header followed by the label of its first block: they
        // mean the same thing, so the second is left out.
        if self.repeats_last_header(label.as_str()) {
            return None;
        }
        let mut line = label.clone();
        line.append(":");
        self.last_header = Some(label);
        Some(line)
    }

    /// Shows a jump.
    pub fn jump_instruction(&mut self, target_label: String) -> (line: Option<String>)
        ensures
            shown(line) == old(self)@.line(jump_text(target_label@)),
            final(self)@ == old(self)@.after_line(),
    {
        if !self.enable_debug_trace {
            return None;
        }
        let mut line = String::from_str("  JUMP_TO ");
        line.append(target_label.as_str());
        self.show_line(line)
    }

    /// Shows a conditional jump.
    pub fn jump_if_instruction(&mut self, condition: RegisterIndex, target_label: String) -> (line:
        Option<String>)
        ensures
            shown(line) == old(self)@.line(jump_if_text(condition, target_label@)),
            final(self)@ == old(self)@.after_line(),
    {
        if !self.enable_debug_trace {
            return None;
        }
        let mut line = String::from_str("  JUMP_IF ");
        line.append(condition.debug_to_string().as_str());
        line.append(" TO ");
        line.append(target_label.as_str());
        self.show_line(line)
    }

    /// Shows a cast to another width.
    pub fn cast_instruction(
        &mut self,
        destination: RegisterIndex,
        source: RegisterIndex,
        target_bit_size: u32,
    ) -> (line: Option<String>)
        ensures
            shown(line) == old(self)@.line(cast_text(destination, source, target_bit_size)),
            final(self)@ == old(self)@.after_line(),
    {
        if !self.enable_debug_trace {
            return None;
        }
        let mut line = String::from_str("  CAST ");
        line.append(destination.debug_to_string().as_str());
        line.append(" FROM ");
        line.append(source.debug_to_string().as_str());
        line.append(" TO ");
        line.append(target_bit_size.debug_to_string().as_str());
        line.append(" BITS");
        self.show_line(line)
    }

    /// Shows a cryptographic primitive with its operands.
    pub fn black_box_op_instruction(&mut self, op: BlackBoxOp) -> (line: Option<String>)
        ensures
            shown(line) == old(self)@.line(black_box_op_text(op)),
            final(self)@ == old(self)@.after_line(),
    {
        if !self.enable_debug_trace {
            return None;
        }
        let line = match op {
            BlackBoxOp::Sha256 { message, output } => {
                hash_line("SHA256", message, output.debug_to_string())
            },
            BlackBoxOp::Keccak256 { message, output } => {
                hash_line("KECCAK256", message, output.debug_to_string())
            },
            BlackBoxOp::Blake2s { message, output } => {
                hash_line("BLAKE2S", message, output.debug_to_string())
            },
            BlackBoxOp::HashToField128Security { message, output } => {
                hash_line("HASH_TO_FIELD_128_SECURITY", message, output.debug_to_string())
            },
            BlackBoxOp::EcdsaSecp256k1 {
                hashed_msg,
                public_key_x,
                public_key_y,
                signature,
                result,
            } => {
                let mut line = String::from_str("  ECDSA_SECP256K1 ");
                line.append(hashed_msg.debug_to_string().as_str());
                line.append(" ");
                line.append(public_key_x.debug_to_string().as_str());
                line.append(" ");
                line.append(public_key_y.debug_to_string().as_str());
                line.append(" ");
                line.append(signature.debug_to_string().as_str());
                line.append(" -> ");
                line.append(result.debug_to_string().as_str());
                line
            },
        };
        self.show_line(line)
    }

    /// Shows a call to another function.
    pub fn add_external_call_instruction(&mut self, func_label: String) -> (line: Option<String>)
        ensures
            shown(line) == old(self)@.line(external_call_text(func_label@)),
            final(self)@ == old(self)@.after_line(),
    {
        if !self.enable_debug_trace {
            return None;
        }
        let mut line = String::from_str("  CALL ");
        line.append(func_label.as_str());
        self.show_line(line)
    }

    /// Shows one instruction: hands back its line, or nothing where the
    /// trace is off or the line would repeat the header before it.
    pub fn show(&mut self, instruction: &Instruction) -> (line: Option<String>)
        ensures
            shown(line) == old(self)@.emits(*instruction),
            final(self)@ == old(self)@.next(*instruction),
    {
        match instruction {
            Instruction::Constrain { condition } => self.constrain_instruction(*condition),
            Instruction::Return { return_registers } => self.return_instruction(
                return_registers.as_slice(),
            ),
            Instruction::Mov { destination, source } => self.mov_instruction(*destination, *source),
            Instruction::BinaryOp { lhs, rhs, result, operation } => self.binary_instruction(
                *lhs,
                *rhs,
                *result,
                *operation,
            ),
            Instruction::Const { result, constant } => self.const_instruction(*result, *constant),
            Instruction::Not { condition, bit_size, result } => self.not_instruction(
                *condition,
                *bit_size,
                *result,
            ),
            Instruction::ForeignCall { func_name, inputs, outputs } => {
                self.foreign_call_instruction(
                    func_name.clone(),
                    inputs.as_slice(),
                    outputs.as_slice(),
                )
            },
            Instruction::Load { destination, source_pointer } => self.load_instruction(
                *destination,
                *source_pointer,
            ),
            Instruction::Store { destination_pointer, source } => self.store_instruction(
                *destination_pointer,
                *source,
            ),
            Instruction::Stop => self.stop_instruction(),
            Instruction::AllocateArray { pointer_register, size_register } => {
                self.allocate_array_instruction(*pointer_register, *size_register)
            },
            Instruction::ArrayGet { array_ptr, index, result } => self.array_get(
                *array_ptr,
                *index,
                *result,
            ),
            Instruction::ArraySet { array_ptr, index, value } => self.array_set(
                *array_ptr,
                *index,
                *value,
            ),
            Instruction::CopyArray { source, destination, num_elements_register } => {
                self.copy_array_instruction(*source, *destination, *num_elements_register)
            },
            Instruction::EnterContext { label } => self.enter_context(label.clone()),
            Instruction::Jump { target_label } => self.jump_instruction(target_label.clone()),
            Instruction::JumpIf { condition, target_label } => self.jump_if_instruction(
                *condition,
                target_label.clone(),
            ),
            Instruction::Cast { destination, source, target_bit_size } => self.cast_instruction(
                *destination,
                *source,
                *target_bit_size,
            ),
            Instruction::BlackBox { op } => self.black_box_op_instruction(*op),
            Instruction::ExternalCall { func_label } => self.add_external_call_instruction(
                func_label.clone(),
            ),
        }
    }

    /// Shows the instructions of a program in order and hands back the lines.
    /// With the trace off there are none, and nothing changes.
    pub fn disassemble(&mut self, program: &[Instruction]) -> (lines: Vec<String>)
        ensures
            lines@.map_values(|l: String| l@) == old(self)@.trace(program@),
            final(self)@ == old(self)@.run(program@),
            !old(self)@.enabled ==> lines@.len() == 0 && final(self)@ == old(self)@,
    {
        let ghost start = self@;
        let mut lines: Vec<String> = Vec::new();
        let mut i: usize = 0;
        assert(lines@.map_values(|l: String| l@) =~= start.trace(program@.subrange(0, 0)));
        while i < program.len()
            invariant
                i <= program.len(),
                self@ == start.run(program@.subrange(0, i as int)),
                lines@.map_values(|l: String| l@) == start.trace(program@.subrange(0, i as int)),
            decreases program.len() - i,
        {
            let ghost before = lines@.map_values(|l: String| l@);
            assert(program@.subrange(0, i + 1).drop_last() =~= program@.subrange(0, i as int));
            assert(program@.subrange(0, i + 1).last() == program@[i as int]);
            match self.show(&program[i]) {
                Some(line) => {
                    lines.push(line);
                    assert(lines@.map_values(|l: String| l@) =~= before.push(line@));
                },
                None => {},
            }
            i += 1;
        }
        assert(program@.subrange(0, i as int) =~= program@);
        proof {
            if !start.enabled {
                start.lemma_disabled_shows_nothing(program@);
            }
        }
        lines
    }
}

impl DebugToString for Instruction {
    open spec fn debug_text(&self) -> Seq<char> {
        instruction_text(*self)
    }

    /// The line of the instruction, as a disassembler that has shown nothing
    /// yet hands it back.
    fn debug_to_string(&self) -> (s: String) {
        let mut debug_show = DebugShow::new(true);
        match debug_show.show(self) {
            Some(line) => line,
            None => {
                proof {
                    assert(false);
                }
                String::new()
            },
        }
    }
}

/// Renders the line of a hash.
fn hash_line(name: &str, message: HeapVector, output: String) -> (line: String)
    ensures
        line@ == hash_text(name@, message, output@),
{
    let mut line = String::from_str("  ");
    line.append(name);
    line.append(" ");
    line.append(message.debug_to_string().as_str());
    line.append(" -> ");
    line.append(output.as_str());
    line
}

} // verus!
