//! What holds of every rendering and of every run of the disassembler.

use vstd::prelude::*;
use crate::debug_show::{list_text, modulo_text, DebugToString};
use crate::trace::{hash_text, header_text, instruction_text, TraceState};
use crate::opcodes::{BinaryIntOp, BlackBoxOp, BrilligBinaryOp, Instruction};
use crate::registers::{
    HeapArray, HeapVector, RegisterIndex, RegisterOrMemory, ReservedRegisters,
    BRILLIG_MEMORY_ADDRESSING_BIT_SIZE,
};
use crate::text::{
    decimal_text, is_digit, join_texts, lemma_decimal_text_digits, lemma_decimal_text_injective,
};

verus! {

/// Whether a text holds a decimal digit somewhere.
pub open spec fn has_digit(text: Seq<char>) -> bool {
    exists|i: int| 0 <= i < text.len() && is_digit(#[trigger] text[i])
}

/// Whether a text holds an opening square bracket somewhere.
pub open spec fn has_bracket(text: Seq<char>) -> bool {
    exists|i: int| 0 <= i < text.len() && #[trigger] text[i] == '['
}

/// Whether an instruction marks the first block of a function: a label that
/// ends in `-b0`.
pub open spec fn is_first_block_label(instruction: Instruction) -> bool {
    instruction matches Instruction::EnterContext { label } && exists|function: Seq<char>|
        label@ == function + "-b0"@
}

/// The stack pointer renders as `Stack`, and it is the only register that
/// does; every other register renders as `R` and its index.
pub proof fn lemma_stack_pointer_text(register: RegisterIndex)
    ensures
        register == ReservedRegisters::stack_pointer() <==> register.debug_text() == "Stack"@,
        register != ReservedRegisters::stack_pointer() <==> register.debug_text() == "R"@
            + decimal_text(register.0 as nat),
        register.debug_text().len() >= 2,
        register.debug_text()[0] == (if register == ReservedRegisters::stack_pointer() {
            'S'
        } else {
            'R'
        }),
{
    reveal_strlit("Stack");
    reveal_strlit("R");
    lemma_decimal_text_digits(register.0 as nat);
    let numbered = "R"@ + decimal_text(register.0 as nat);
    assert(numbered[0] == 'R');
    assert("Stack"@[0] == 'S');
}

/// The rendering of a register holds no square bracket.
pub proof fn lemma_register_text_has_no_bracket(register: RegisterIndex)
    ensures
        !has_bracket(register.debug_text()),
{
    reveal_strlit("Stack");
    reveal_strlit("R");
    lemma_decimal_text_digits(register.0 as nat);
    let digits = decimal_text(register.0 as nat);
    let text = register.debug_text();
    assert forall|i: int| 0 <= i < text.len() implies #[trigger] text[i] != '[' by {
        if register != ReservedRegisters::stack_pointer() && i >= 1 {
            assert(text[i] == digits[i - 1]);
            assert(is_digit(digits[i - 1]));
        }
    }
}

/// Two registers render alike only if they are the same register.
pub proof fn lemma_register_text_injective(a: RegisterIndex, b: RegisterIndex)
    requires
        a.debug_text() == b.debug_text(),
    ensures
        a == b,
{
    lemma_stack_pointer_text(a);
    lemma_stack_pointer_text(b);
    if a != ReservedRegisters::stack_pointer() && b != ReservedRegisters::stack_pointer() {
        reveal_strlit("R");
        let da = decimal_text(a.0 as nat);
        let db = decimal_text(b.0 as nat);
        assert(da =~= a.debug_text().subrange(1, a.debug_text().len() as int));
        assert(db =~= b.debug_text().subrange(1, b.debug_text().len() as int));
        lemma_decimal_text_injective(a.0 as nat, b.0 as nat);
    }
}

/// A block of memory renders as its pointer, then `[0..`, its length and `]`.
/// Where two such texts agree, with pointers that hold no bracket, the
/// pointers agree and the lengths agree.
proof fn lemma_block_text_splits(
    pointer_a: Seq<char>,
    length_a: Seq<char>,
    pointer_b: Seq<char>,
    length_b: Seq<char>,
)
    requires
        !has_bracket(pointer_a),
        !has_bracket(pointer_b),
        pointer_a + "[0.."@ + length_a + "]"@ == pointer_b + "[0.."@ + length_b + "]"@,
    ensures
        pointer_a == pointer_b,
        length_a == length_b,
{
    reveal_strlit("[0..");
    reveal_strlit("]");
    let ta = pointer_a + "[0.."@ + length_a + "]"@;
    let tb = pointer_b + "[0.."@ + length_b + "]"@;
    let na = pointer_a.len() as int;
    let nb = pointer_b.len() as int;
    assert(ta[na] == '[');
    assert(tb[nb] == '[');
    if na < nb {
        assert(tb[na] == pointer_b[na]);
    }
    if nb < na {
        assert(ta[nb] == pointer_a[nb]);
    }
    assert(pointer_a =~= ta.subrange(0, na));
    assert(pointer_b =~= tb.subrange(0, nb));
    assert(ta.len() == tb.len());
    assert(length_a =~= ta.subrange(na + 4, ta.len() - 1));
    assert(length_b =~= tb.subrange(nb + 4, tb.len() - 1));
}

/// Rendering an operand is a function of the operand, and no two operands
/// share a rendering.
pub proof fn lemma_operand_text_injective(a: RegisterOrMemory, b: RegisterOrMemory)
    ensures
        a == b <==> a.debug_text() == b.debug_text(),
{
    if a.debug_text() == b.debug_text() {
        reveal_strlit("[0..");
        reveal_strlit("]");
        match (a, b) {
            (RegisterOrMemory::RegisterIndex(ra), RegisterOrMemory::RegisterIndex(rb)) => {
                lemma_register_text_injective(ra, rb);
            },
            (RegisterOrMemory::HeapArray(xa), RegisterOrMemory::HeapArray(xb)) => {
                lemma_register_text_has_no_bracket(xa.pointer);
                lemma_register_text_has_no_bracket(xb.pointer);
                lemma_block_text_splits(
                    xa.pointer.debug_text(),
                    decimal_text(xa.size as nat),
                    xb.pointer.debug_text(),
                    decimal_text(xb.size as nat),
                );
                lemma_register_text_injective(xa.pointer, xb.pointer);
                lemma_decimal_text_injective(xa.size as nat, xb.size as nat);
            },
            (RegisterOrMemory::HeapVector(va), RegisterOrMemory::HeapVector(vb)) => {
                lemma_register_text_has_no_bracket(va.pointer);
                lemma_register_text_has_no_bracket(vb.pointer);
                lemma_block_text_splits(
                    va.pointer.debug_text(),
                    va.size.debug_text(),
                    vb.pointer.debug_text(),
                    vb.size.debug_text(),
                );
                lemma_register_text_injective(va.pointer, vb.pointer);
                lemma_register_text_injective(va.size, vb.size);
            },
            (RegisterOrMemory::HeapArray(x), RegisterOrMemory::HeapVector(v)) => {
                lemma_array_text_is_no_vector_text(x, v);
            },
            (RegisterOrMemory::HeapVector(v), RegisterOrMemory::HeapArray(x)) => {
                lemma_array_text_is_no_vector_text(x, v);
            },
            (RegisterOrMemory::RegisterIndex(r), RegisterOrMemory::HeapArray(x)) => {
                lemma_register_text_has_no_bracket(r);
                let t = x.debug_text();
                assert(t[x.pointer.debug_text().len() as int] == '[');
            },
            (RegisterOrMemory::HeapArray(x), RegisterOrMemory::RegisterIndex(r)) => {
                lemma_register_text_has_no_bracket(r);
                let t = x.debug_text();
                assert(t[x.pointer.debug_text().len() as int] == '[');
            },
            (RegisterOrMemory::RegisterIndex(r), RegisterOrMemory::HeapVector(v)) => {
                lemma_register_text_has_no_bracket(r);
                let t = v.debug_text();
                assert(t[v.pointer.debug_text().len() as int] == '[');
            },
            (RegisterOrMemory::HeapVector(v), RegisterOrMemory::RegisterIndex(r)) => {
                lemma_register_text_has_no_bracket(r);
                let t = v.debug_text();
                assert(t[v.pointer.debug_text().len() as int] == '[');
            },
        }
    }
}

/// A block of fixed length never renders as a block whose length is held in
/// a register: the one shows a number where the other names a register.
proof fn lemma_array_text_is_no_vector_text(array: HeapArray, vector: HeapVector)
    ensures
        array.debug_text() != vector.debug_text(),
{
    if array.debug_text() == vector.debug_text() {
        lemma_register_text_has_no_bracket(array.pointer);
        lemma_register_text_has_no_bracket(vector.pointer);
        lemma_block_text_splits(
            array.pointer.debug_text(),
            decimal_text(array.size as nat),
            vector.pointer.debug_text(),
            vector.size.debug_text(),
        );
        lemma_decimal_text_digits(array.size as nat);
        lemma_stack_pointer_text(vector.size);
        assert(is_digit(decimal_text(array.size as nat)[0]));
    }
}

/// The symbol of an integer operation holds no digit.
pub proof fn lemma_int_op_text_has_no_digit(op: BinaryIntOp)
    ensures
        !has_digit(op.debug_text()),
        op.debug_text().len() >= 1,
{
    reveal_strlit("+");
    reveal_strlit("-");
    reveal_strlit("*");
    reveal_strlit("==");
    reveal_strlit("/");
    reveal_strlit("//");
    reveal_strlit("<");
    reveal_strlit("<=");
    reveal_strlit("&&");
    reveal_strlit("||");
    reveal_strlit("^");
    reveal_strlit("<<");
    reveal_strlit(">>");
}

/// An integer operation or a modulo shows its bit width exactly when the
/// width is below the addressing bit size: below it, the text is the symbol
/// with the width as a numeral, `i<width>::` before an operation and
/// `:<width>` behind a modulo; from it on, the text is the bare symbol, which
/// holds no digit at all.
pub proof fn lemma_width_shown_below_addressing_size(
    op: BinaryIntOp,
    is_signed_integer: bool,
    bit_size: u32,
)
    ensures
        bit_size < BRILLIG_MEMORY_ADDRESSING_BIT_SIZE ==> {
            &&& (BrilligBinaryOp::Integer { op, bit_size }).debug_text() == "i"@ + decimal_text(
                bit_size as nat,
            ) + "::"@ + op.debug_text()
            &&& (BrilligBinaryOp::Modulo { is_signed_integer, bit_size }).debug_text()
                == modulo_text(is_signed_integer) + ":"@ + decimal_text(bit_size as nat)
        },
        bit_size >= BRILLIG_MEMORY_ADDRESSING_BIT_SIZE ==> {
            &&& (BrilligBinaryOp::Integer { op, bit_size }).debug_text() == op.debug_text()
            &&& (BrilligBinaryOp::Modulo { is_signed_integer, bit_size }).debug_text()
                == modulo_text(is_signed_integer)
        },
        has_digit((BrilligBinaryOp::Integer { op, bit_size }).debug_text()) <==> bit_size
            < BRILLIG_MEMORY_ADDRESSING_BIT_SIZE,
        has_digit((BrilligBinaryOp::Modulo { is_signed_integer, bit_size }).debug_text())
            <==> bit_size < BRILLIG_MEMORY_ADDRESSING_BIT_SIZE,
{
    reveal_strlit("i");
    reveal_strlit("::");
    reveal_strlit(":");
    reveal_strlit("%");
    reveal_strlit("%%");
    lemma_int_op_text_has_no_digit(op);
    lemma_decimal_text_digits(bit_size as nat);
    let width = decimal_text(bit_size as nat);
    if bit_size < BRILLIG_MEMORY_ADDRESSING_BIT_SIZE {
        let integer = (BrilligBinaryOp::Integer { op, bit_size }).debug_text();
        assert(integer[1] == width[0]);
        assert(is_digit(integer[1]));
        let modulo = (BrilligBinaryOp::Modulo { is_signed_integer, bit_size }).debug_text();
        let at = modulo_text(is_signed_integer).len() as int + 1;
        assert(modulo[at] == width[0]);
        assert(is_digit(modulo[at]));
    }
}

/// Switching the trace off, running a program, and switching it on again
/// leaves the disassembler where it was: the same program then shows what it
/// shows with the trace on throughout.
pub proof fn lemma_reenabled_shows_the_same(state: TraceState, program: Seq<Instruction>)
    requires
        state.enabled,
    ensures
        state.with_enabled(false).trace(program) == Seq::<Seq<char>>::empty(),
        state.with_enabled(false).run(program).with_enabled(true) == state,
        state.with_enabled(false).run(program).with_enabled(true).trace(program) == state.trace(
            program,
        ),
{
    state.with_enabled(false).lemma_disabled_shows_nothing(program);
}

/// The trace of a single instruction is what that instruction shows.
pub proof fn lemma_trace_of_one(state: TraceState, instruction: Instruction)
    ensures
        state.run(seq![instruction]) == state.next(instruction),
        state.trace(seq![instruction]) == (match state.emits(instruction) {
            Some(text) => seq![text],
            None => Seq::empty(),
        }),
{
    let program = seq![instruction];
    assert(program.drop_last() =~= Seq::<Instruction>::empty());
    assert(program.last() == instruction);
    assert(state.run(program.drop_last()) == state);
    assert(state.trace(program.drop_last()) =~= Seq::<Seq<char>>::empty());
    assert(Seq::<Seq<char>>::empty().push(instruction_text(instruction)) =~= seq![
        instruction_text(instruction),
    ]);
}

/// The trace of two instructions is what the first shows, then what the
/// second shows in the state that the first leaves.
pub proof fn lemma_trace_of_two(state: TraceState, first: Instruction, second: Instruction)
    ensures
        state.run(seq![first, second]) == state.next(first).next(second),
        state.trace(seq![first, second]) == state.trace(seq![first]) + state.next(first).trace(
            seq![second],
        ),
{
    let program = seq![first, second];
    assert(program.drop_last() =~= seq![first]);
    assert(program.last() == second);
    lemma_trace_of_one(state, first);
    lemma_trace_of_one(state.next(first), second);
    assert(state.trace(program) =~= state.trace(seq![first]) + state.next(first).trace(
        seq![second],
    ));
}

/// The header of a function followed at once by the label of its first
/// block, `<function>-b0`, shows exactly one line. Unless the function's own
/// header repeats the line before it, that line is the function's header.
pub proof fn lemma_first_block_after_header(state: TraceState, function: String, block: String)
    requires
        state.enabled,
        block@ == function@ + "-b0"@,
    ensures
        state.trace(
            seq![
                Instruction::EnterContext { label: function },
                Instruction::EnterContext { label: block },
            ],
        ).len() == 1,
        !state.suppresses(function@) ==> state.trace(
            seq![
                Instruction::EnterContext { label: function },
                Instruction::EnterContext { label: block },
            ],
        ) == seq![header_text(function@)],
{
    let first = Instruction::EnterContext { label: function };
    let second = Instruction::EnterContext { label: block };
    lemma_trace_of_two(state, first, second);
    lemma_trace_of_one(state, first);
    lemma_trace_of_one(state.next(first), second);
    reveal_strlit("-b0");
    if state.suppresses(function@) {
        let before = state.last_header->0;
        assert(function@.len() == before.len() + 3);
        assert(block@.len() == before.len() + 6);
        assert(!state.suppresses(block@));
    }
    assert(state.trace(seq![first, second]) =~= state.trace(seq![first]) + state.next(first).trace(
        seq![second],
    ));
}

/// The label of a first block that does not follow the header of its
/// function shows its own header.
pub proof fn lemma_first_block_alone(state: TraceState, function: Seq<char>, block: String)
    requires
        state.enabled,
        block@ == function + "-b0"@,
        state.last_header != Some(function),
    ensures
        state.trace(seq![Instruction::EnterContext { label: block }]) == seq![
            header_text(block@),
        ],
{
    lemma_trace_of_one(state, Instruction::EnterContext { label: block });
    if state.suppresses(block@) {
        let before = state.last_header->0;
        assert(before =~= block@.subrange(0, before.len() as int));
        assert(function =~= block@.subrange(0, function.len() as int));
    }
}

/// Showing the same instruction twice in a row shows the same both times.
pub proof fn lemma_shown_twice_is_the_same(state: TraceState, instruction: Instruction)
    ensures
        state.next(instruction).emits(instruction) == state.emits(instruction),
{
    reveal_strlit("-b0");
    match instruction {
        Instruction::EnterContext { label } => {
            if state.enabled && !state.suppresses(label@) {
                assert(label@.len() != (label@ + "-b0"@).len());
            }
        },
        _ => {},
    }
}

/// What is shown for an instruction is its line or nothing, and the line is
/// the same in every state. With the trace on, only the label of a first
/// block can be left out; every other instruction shows its line whatever
/// came before.
pub proof fn lemma_line_depends_on_instruction_alone(
    state: TraceState,
    other: TraceState,
    instruction: Instruction,
)
    ensures
        state.emits(instruction) == Some(instruction_text(instruction)) || state.emits(instruction)
            is None,
        state.enabled && other.enabled && !is_first_block_label(instruction) ==> state.emits(
            instruction,
        ) == other.emits(instruction) && state.emits(instruction) == Some(
            instruction_text(instruction),
        ),
{
    match instruction {
        Instruction::EnterContext { label } => {
            if state.suppresses(label@) {
                assert(label@ == state.last_header->0 + "-b0"@);
            }
            if other.suppresses(label@) {
                assert(label@ == other.last_header->0 + "-b0"@);
            }
        },
        _ => {},
    }
}

/// With the trace on, a program that holds no label of a first block is
/// shown line for line: one line for each instruction, in order, each the
/// line of its instruction.
pub proof fn lemma_trace_in_lock_step(state: TraceState, program: Seq<Instruction>)
    requires
        state.enabled,
        forall|i: int| 0 <= i < program.len() ==> !is_first_block_label(#[trigger] program[i]),
    ensures
        state.run(program).enabled,
        state.trace(program) == program.map_values(|i: Instruction| instruction_text(i)),
    decreases program.len(),
{
    let lines = program.map_values(|i: Instruction| instruction_text(i));
    if program.len() == 0 {
        assert(state.trace(program) =~= lines);
    } else {
        let front = program.drop_last();
        let last = program.last();
        assert forall|i: int| 0 <= i < front.len() implies !is_first_block_label(
            #[trigger] front[i],
        ) by {
            assert(front[i] == program[i]);
        }
        lemma_trace_in_lock_step(state, front);
        assert(!is_first_block_label(program[program.len() - 1]));
        lemma_line_depends_on_instruction_alone(state.run(front), state, last);
        assert(state.trace(program) =~= lines);
    }
}

/// Never more lines are shown than the program has instructions.
pub proof fn lemma_trace_is_no_longer_than_program(state: TraceState, program: Seq<Instruction>)
    ensures
        state.trace(program).len() <= program.len(),
    decreases program.len(),
{
    if program.len() > 0 {
        lemma_trace_is_no_longer_than_program(state, program.drop_last());
    }
}

/// Whether `part` stands somewhere in `whole`, character by character.
pub open spec fn contains_text(whole: Seq<char>, part: Seq<char>) -> bool {
    exists|at: int|
        0 <= at && at + part.len() <= whole.len() && #[trigger] whole.subrange(
            at,
            at + part.len(),
        ) == part
}

/// A text stands in whatever is written around it.
proof fn lemma_contains_between(whole: Seq<char>, before: Seq<char>, part: Seq<char>, after: Seq<char>)
    requires
        whole == before + part + after,
    ensures
        contains_text(whole, part),
{
    let at = before.len() as int;
    assert(whole.subrange(at, at + part.len()) =~= part);
}

/// What stands in a part of a text stands in the text.
proof fn lemma_contains_within(whole: Seq<char>, middle: Seq<char>, part: Seq<char>)
    requires
        contains_text(whole, middle),
        contains_text(middle, part),
    ensures
        contains_text(whole, part),
{
    let outer = choose|at: int|
        0 <= at && at + middle.len() <= whole.len() && #[trigger] whole.subrange(
            at,
            at + middle.len(),
        ) == middle;
    let inner = choose|at: int|
        0 <= at && at + part.len() <= middle.len() && #[trigger] middle.subrange(
            at,
            at + part.len(),
        ) == part;
    let at = outer + inner;
    assert(whole.subrange(at, at + part.len()) =~= middle.subrange(inner, inner + part.len()));
}

/// A part of a text that stands between two others stands in the text.
proof fn lemma_contains_part_between(
    whole: Seq<char>,
    before: Seq<char>,
    middle: Seq<char>,
    after: Seq<char>,
    part: Seq<char>,
)
    requires
        whole == before + middle + after,
        contains_text(middle, part),
    ensures
        contains_text(whole, part),
{
    lemma_contains_between(whole, before, middle, after);
    lemma_contains_within(whole, middle, part);
}

/// Every item of a joined list stands in the list.
proof fn lemma_join_contains(parts: Seq<Seq<char>>, sep: Seq<char>, i: int)
    requires
        0 <= i < parts.len(),
    ensures
        contains_text(join_texts(parts, sep), parts[i]),
    decreases parts.len(),
{
    let whole = join_texts(parts, sep);
    let nothing = Seq::<char>::empty();
    if parts.len() == 1 {
        assert(whole =~= nothing + parts[i] + nothing);
        lemma_contains_between(whole, nothing, parts[i], nothing);
    } else {
        let front = join_texts(parts.drop_last(), sep);
        if i == parts.len() - 1 {
            assert(whole =~= (front + sep) + parts[i] + nothing);
            lemma_contains_between(whole, front + sep, parts[i], nothing);
        } else {
            lemma_join_contains(parts.drop_last(), sep, i);
            assert(whole =~= nothing + front + (sep + parts.last()));
            lemma_contains_part_between(whole, nothing, front, sep + parts.last(), parts[i]);
        }
    }
}

/// The rendering of a block names its pointer and, where the length is held
/// in a register, that register.
proof fn lemma_block_text_contains(pointer: Seq<char>, length: Seq<char>)
    ensures
        contains_text(pointer + "[0.."@ + length + "]"@, pointer),
        contains_text(pointer + "[0.."@ + length + "]"@, length),
{
    let whole = pointer + "[0.."@ + length + "]"@;
    let nothing = Seq::<char>::empty();
    assert(whole =~= nothing + pointer + ("[0.."@ + length + "]"@));
    lemma_contains_between(whole, nothing, pointer, "[0.."@ + length + "]"@);
    lemma_contains_between(whole, pointer + "[0.."@, length, "]"@);
}

/// The rendering of an operand holds the rendering of every register that
/// the operand names.
pub proof fn lemma_operand_text_names_its_registers(
    operand: RegisterOrMemory,
    register: RegisterIndex,
)
    requires
        operand.references(register),
    ensures
        contains_text(operand.debug_text(), register.debug_text()),
{
    let nothing = Seq::<char>::empty();
    match operand {
        RegisterOrMemory::RegisterIndex(index) => {
            assert(index.debug_text() =~= nothing + index.debug_text() + nothing);
            lemma_contains_between(index.debug_text(), nothing, index.debug_text(), nothing);
        },
        RegisterOrMemory::HeapArray(array) => {
            lemma_block_text_contains(array.pointer.debug_text(), decimal_text(array.size as nat));
        },
        RegisterOrMemory::HeapVector(vector) => {
            lemma_block_text_contains(vector.pointer.debug_text(), vector.size.debug_text());
        },
    }
}

/// The rendering of a list of operands holds the rendering of every register
/// that one of them names.
proof fn lemma_operand_list_names_its_registers(
    operands: Seq<RegisterOrMemory>,
    i: int,
    register: RegisterIndex,
)
    requires
        0 <= i < operands.len(),
        operands[i].references(register),
    ensures
        contains_text(list_text(operands), register.debug_text()),
{
    let parts = operands.map_values(|x: RegisterOrMemory| x.debug_text());
    lemma_join_contains(parts, ", "@, i);
    lemma_operand_text_names_its_registers(operands[i], register);
    lemma_contains_within(list_text(operands), operands[i].debug_text(), register.debug_text());
}

/// The line of a hash holds the rendering of the message and of the place of
/// the digest.
proof fn lemma_hash_text_contains(name: Seq<char>, message: HeapVector, output: Seq<char>)
    ensures
        contains_text(hash_text(name, message, output), message.pointer.debug_text()),
        contains_text(hash_text(name, message, output), message.size.debug_text()),
        contains_text(hash_text(name, message, output), output),
{
    let whole = hash_text(name, message, output);
    let nothing = Seq::<char>::empty();
    lemma_block_text_contains(message.pointer.debug_text(), message.size.debug_text());
    assert(whole =~= ("  "@ + name + " "@) + message.debug_text() + (" -> "@ + output));
    lemma_contains_part_between(
        whole,
        "  "@ + name + " "@,
        message.debug_text(),
        " -> "@ + output,
        message.pointer.debug_text(),
    );
    lemma_contains_part_between(
        whole,
        "  "@ + name + " "@,
        message.debug_text(),
        " -> "@ + output,
        message.size.debug_text(),
    );
    assert(whole =~= ("  "@ + name + " "@ + message.debug_text() + " -> "@) + output + nothing);
    lemma_contains_between(
        whole,
        "  "@ + name + " "@ + message.debug_text() + " -> "@,
        output,
        nothing,
    );
}

/// The line of a hash whose digest goes to an array holds the rendering of
/// the array's pointer.
proof fn lemma_hash_text_contains_output_pointer(
    name: Seq<char>,
    message: HeapVector,
    output: HeapArray,
)
    ensures
        contains_text(
            hash_text(name, message, output.debug_text()),
            output.pointer.debug_text(),
        ),
{
    lemma_hash_text_contains(name, message, output.debug_text());
    lemma_block_text_contains(output.pointer.debug_text(), decimal_text(output.size as nat));
    lemma_contains_within(
        hash_text(name, message, output.debug_text()),
        output.debug_text(),
        output.pointer.debug_text(),
    );
}

/// A line made of five parts and what stands around them holds all five.
proof fn lemma_line_of_five(
    whole: Seq<char>,
    head: Seq<char>,
    a: Seq<char>,
    first: Seq<char>,
    b: Seq<char>,
    second: Seq<char>,
    c: Seq<char>,
    third: Seq<char>,
    d: Seq<char>,
    fourth: Seq<char>,
    e: Seq<char>,
)
    requires
        whole == head + a + first + b + second + c + third + d + fourth + e,
    ensures
        contains_text(whole, a),
        contains_text(whole, b),
        contains_text(whole, c),
        contains_text(whole, d),
        contains_text(whole, e),
{
    let nothing = Seq::<char>::empty();
    let rest_a = first + b + second + c + third + d + fourth + e;
    assert(whole =~= head + a + rest_a);
    lemma_contains_between(whole, head, a, rest_a);
    let rest_b = second + c + third + d + fourth + e;
    assert(whole =~= (head + a + first) + b + rest_b);
    lemma_contains_between(whole, head + a + first, b, rest_b);
    let rest_c = third + d + fourth + e;
    assert(whole =~= (head + a + first + b + second) + c + rest_c);
    lemma_contains_between(whole, head + a + first + b + second, c, rest_c);
    let rest_d = fourth + e;
    assert(whole =~= (head + a + first + b + second + c + third) + d + rest_d);
    lemma_contains_between(whole, head + a + first + b + second + c + third, d, rest_d);
    assert(whole =~= (head + a + first + b + second + c + third + d + fourth) + e + nothing);
    lemma_contains_between(
        whole,
        head + a + first + b + second + c + third + d + fourth,
        e,
        nothing,
    );
}

/// The line of a cryptographic primitive holds the rendering of every
/// register that its operands name.
proof fn lemma_black_box_text_names_its_registers(op: BlackBoxOp, register: RegisterIndex)
    requires
        op.references(register),
    ensures
        contains_text(instruction_text(Instruction::BlackBox { op }), register.debug_text()),
{
    let whole = instruction_text(Instruction::BlackBox { op });
    match op {
        BlackBoxOp::Sha256 { message, output } => {
            lemma_hash_text_contains("SHA256"@, message, output.debug_text());
            lemma_hash_text_contains_output_pointer("SHA256"@, message, output);
        },
        BlackBoxOp::Blake2s { message, output } => {
            lemma_hash_text_contains("BLAKE2S"@, message, output.debug_text());
            lemma_hash_text_contains_output_pointer("BLAKE2S"@, message, output);
        },
        BlackBoxOp::Keccak256 { message, output } => {
            lemma_hash_text_contains("KECCAK256"@, message, output.debug_text());
            lemma_hash_text_contains_output_pointer("KECCAK256"@, message, output);
        },
        BlackBoxOp::HashToField128Security { message, output } => {
            lemma_hash_text_contains("HASH_TO_FIELD_128_SECURITY"@, message, output.debug_text());
        },
        BlackBoxOp::EcdsaSecp256k1 { hashed_msg, public_key_x, public_key_y, signature, result } => {
            lemma_line_of_five(
                whole,
                "  ECDSA_SECP256K1 "@,
                hashed_msg.debug_text(),
                " "@,
                public_key_x.debug_text(),
                " "@,
                public_key_y.debug_text(),
                " "@,
                signature.debug_text(),
                " -> "@,
                result.debug_text(),
            );
            if hashed_msg.pointer == register || hashed_msg.size == register {
                lemma_block_text_contains(
                    hashed_msg.pointer.debug_text(),
                    hashed_msg.size.debug_text(),
                );
                lemma_contains_within(whole, hashed_msg.debug_text(), register.debug_text());
            } else if public_key_x.pointer == register {
                lemma_block_text_contains(
                    public_key_x.pointer.debug_text(),
                    decimal_text(public_key_x.size as nat),
                );
                lemma_contains_within(whole, public_key_x.debug_text(), register.debug_text());
            } else if public_key_y.pointer == register {
                lemma_block_text_contains(
                    public_key_y.pointer.debug_text(),
                    decimal_text(public_key_y.size as nat),
                );
                lemma_contains_within(whole, public_key_y.debug_text(), register.debug_text());
            } else if signature.pointer == register {
                lemma_block_text_contains(
                    signature.pointer.debug_text(),
                    decimal_text(signature.size as nat),
                );
                lemma_contains_within(whole, signature.debug_text(), register.debug_text());
            }
        },
    }
}

/// A line made of a head and one register holds the register's rendering.
proof fn lemma_line_of_one(whole: Seq<char>, head: Seq<char>, a: Seq<char>, tail: Seq<char>)
    requires
        whole == head + a + tail,
    ensures
        contains_text(whole, a),
{
    lemma_contains_between(whole, head, a, tail);
}

/// A line made of two registers and what stands around them holds the
/// rendering of both.
proof fn lemma_line_of_two(
    whole: Seq<char>,
    head: Seq<char>,
    a: Seq<char>,
    between: Seq<char>,
    b: Seq<char>,
    tail: Seq<char>,
)
    requires
        whole == head + a + between + b + tail,
    ensures
        contains_text(whole, a),
        contains_text(whole, b),
{
    assert(whole =~= head + a + (between + b + tail));
    lemma_contains_between(whole, head, a, between + b + tail);
    lemma_contains_between(whole, head + a + between, b, tail);
}

/// A line made of three registers and what stands around them holds the
/// rendering of all three.
proof fn lemma_line_of_three(
    whole: Seq<char>,
    head: Seq<char>,
    a: Seq<char>,
    first: Seq<char>,
    b: Seq<char>,
    second: Seq<char>,
    c: Seq<char>,
    tail: Seq<char>,
)
    requires
        whole == head + a + first + b + second + c + tail,
    ensures
        contains_text(whole, a),
        contains_text(whole, b),
        contains_text(whole, c),
{
    assert(whole =~= head + a + (first + b + second + c + tail));
    lemma_contains_between(whole, head, a, first + b + second + c + tail);
    assert(whole =~= (head + a + first) + b + (second + c + tail));
    lemma_contains_between(whole, head + a + first, b, second + c + tail);
    lemma_contains_between(whole, head + a + first + b + second, c, tail);
}

/// The line of an instruction holds the rendering of every register that the
/// instruction names.
pub proof fn lemma_line_names_referenced_registers(instruction: Instruction, register: RegisterIndex)
    requires
        instruction.references(register),
    ensures
        contains_text(instruction_text(instruction), register.debug_text()),
{
    let whole = instruction_text(instruction);
    let nothing = Seq::<char>::empty();
    match instruction {
        Instruction::Constrain { condition } => {
            lemma_line_of_one(whole, "  ASSERT "@, condition.debug_text(), " != 0"@);
        },
        Instruction::Return { return_registers } => {
            let i = choose|i: int|
                0 <= i < return_registers@.len() && return_registers@[i] == register;
            let parts = return_registers@.map_values(|x: RegisterIndex| x.debug_text());
            lemma_join_contains(parts, ", "@, i);
            lemma_contains_part_between(
                whole,
                "  // return "@,
                list_text(return_registers@),
                ";"@,
                register.debug_text(),
            );
        },
        Instruction::Mov { destination, source } => {
            assert(whole =~= "  MOV "@ + destination.debug_text() + ", "@ + source.debug_text()
                + nothing);
            lemma_line_of_two(
                whole,
                "  MOV "@,
                destination.debug_text(),
                ", "@,
                source.debug_text(),
                nothing,
            );
        },
        Instruction::BinaryOp { lhs, rhs, result, operation } => {
            assert(whole =~= "  "@ + result.debug_text() + " = "@ + lhs.debug_text() + (" "@
                + operation.debug_text() + " "@) + rhs.debug_text() + nothing);
            lemma_line_of_three(
                whole,
                "  "@,
                result.debug_text(),
                " = "@,
                lhs.debug_text(),
                " "@ + operation.debug_text() + " "@,
                rhs.debug_text(),
                nothing,
            );
        },
        Instruction::Const { result, constant } => {
            assert(whole =~= "  CONST "@ + result.debug_text() + (" = "@ + constant.debug_text()));
            lemma_line_of_one(
                whole,
                "  CONST "@,
                result.debug_text(),
                " = "@ + constant.debug_text(),
            );
        },
        Instruction::Not { condition, bit_size, result } => {
            assert(whole =~= ("  i"@ + decimal_text(bit_size as nat) + "_NOT "@)
                + result.debug_text() + " = !"@ + condition.debug_text() + nothing);
            lemma_line_of_two(
                whole,
                "  i"@ + decimal_text(bit_size as nat) + "_NOT "@,
                result.debug_text(),
                " = !"@,
                condition.debug_text(),
                nothing,
            );
        },
        Instruction::ForeignCall { func_name, inputs, outputs } => {
            let head = "  FOREIGN_CALL "@ + func_name@ + " ("@;
            if exists|i: int|
                0 <= i < inputs@.len() && (#[trigger] inputs@[i]).references(register) {
                let i = choose|i: int|
                    0 <= i < inputs@.len() && (#[trigger] inputs@[i]).references(register);
                lemma_operand_list_names_its_registers(inputs@, i, register);
                assert(whole =~= head + list_text(inputs@) + (") => "@ + list_text(outputs@)));
                lemma_contains_part_between(
                    whole,
                    head,
                    list_text(inputs@),
                    ") => "@ + list_text(outputs@),
                    register.debug_text(),
                );
            } else {
                let i = choose|i: int|
                    0 <= i < outputs@.len() && (#[trigger] outputs@[i]).references(register);
                lemma_operand_list_names_its_registers(outputs@, i, register);
                assert(whole =~= (head + list_text(inputs@) + ") => "@) + list_text(outputs@)
                    + nothing);
                lemma_contains_part_between(
                    whole,
                    head + list_text(inputs@) + ") => "@,
                    list_text(outputs@),
                    nothing,
                    register.debug_text(),
                );
            }
        },
        Instruction::Load { destination, source_pointer } => {
            assert(whole =~= "  LOAD "@ + destination.debug_text() + " = *"@
                + source_pointer.debug_text() + nothing);
            lemma_line_of_two(
                whole,
                "  LOAD "@,
                destination.debug_text(),
                " = *"@,
                source_pointer.debug_text(),
                nothing,
            );
        },
        Instruction::Store { destination_pointer, source } => {
            assert(whole =~= "  STORE *"@ + destination_pointer.debug_text() + " = "@
                + source.debug_text() + nothing);
            lemma_line_of_two(
                whole,
                "  STORE *"@,
                destination_pointer.debug_text(),
                " = "@,
                source.debug_text(),
                nothing,
            );
        },
        Instruction::Stop => {},
        Instruction::AllocateArray { pointer_register, size_register } => {
            assert(whole =~= "  ALLOCATE_ARRAY "@ + pointer_register.debug_text() + " SIZE "@
                + size_register.debug_text() + nothing);
            lemma_line_of_two(
                whole,
                "  ALLOCATE_ARRAY "@,
                pointer_register.debug_text(),
                " SIZE "@,
                size_register.debug_text(),
                nothing,
            );
        },
        Instruction::ArrayGet { array_ptr, index, result } => {
            assert(whole =~= "  ARRAY_GET "@ + array_ptr.debug_text() + "["@ + index.debug_text()
                + "] -> "@ + result.debug_text() + nothing);
            lemma_line_of_three(
                whole,
                "  ARRAY_GET "@,
                array_ptr.debug_text(),
                "["@,
                index.debug_text(),
                "] -> "@,
                result.debug_text(),
                nothing,
            );
        },
        Instruction::ArraySet { array_ptr, index, value } => {
            assert(whole =~= "  ARRAY_SET "@ + array_ptr.debug_text() + "["@ + index.debug_text()
                + "] = "@ + value.debug_text() + nothing);
            lemma_line_of_three(
                whole,
                "  ARRAY_SET "@,
                array_ptr.debug_text(),
                "["@,
                index.debug_text(),
                "] = "@,
                value.debug_text(),
                nothing,
            );
        },
        Instruction::CopyArray { source, destination, num_elements_register } => {
            lemma_line_of_three(
                whole,
                "  COPY_ARRAY "@,
                source.debug_text(),
                " -> "@,
                destination.debug_text(),
                " ("@,
                num_elements_register.debug_text(),
                " ELEMENTS)"@,
            );
        },
        Instruction::EnterContext { .. } => {},
        Instruction::Jump { .. } => {},
        Instruction::JumpIf { condition, target_label } => {
            assert(whole =~= "  JUMP_IF "@ + condition.debug_text() + (" TO "@ + target_label@));
            lemma_line_of_one(
                whole,
                "  JUMP_IF "@,
                condition.debug_text(),
                " TO "@ + target_label@,
            );
        },
        Instruction::Cast { destination, source, target_bit_size } => {
            let tail = " TO "@ + decimal_text(target_bit_size as nat) + " BITS"@;
            assert(whole =~= "  CAST "@ + destination.debug_text() + " FROM "@
                + source.debug_text() + tail);
            lemma_line_of_two(
                whole,
                "  CAST "@,
                destination.debug_text(),
                " FROM "@,
                source.debug_text(),
                tail,
            );
        },
        Instruction::BlackBox { op } => {
            lemma_black_box_text_names_its_registers(op, register);
        },
        Instruction::ExternalCall { .. } => {},
    }
}

/// Every instruction that names the stack pointer shows it as `Stack`.
pub proof fn lemma_stack_pointer_shows_as_stack(instruction: Instruction)
    requires
        instruction.references(ReservedRegisters::stack_pointer()),
    ensures
        contains_text(instruction_text(instruction), "Stack"@),
{
    lemma_line_names_referenced_registers(instruction, ReservedRegisters::stack_pointer());
}

} // verus!
