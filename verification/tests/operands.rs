use brillig_ir::debug_show::DebugToString;
use brillig_ir::registers::{
    HeapArray, HeapVector, RegisterIndex, RegisterOrMemory, ReservedRegisters, Value,
    BRILLIG_MEMORY_ADDRESSING_BIT_SIZE,
};
use brillig_ir::text::{decimal_string, join_strings};

#[test]
fn decimal_of_zero_is_one_digit() {
    assert_eq!(decimal_string(0), "0");
}

#[test]
fn decimal_has_no_leading_zeros() {
    assert_eq!(decimal_string(7), "7");
    assert_eq!(decimal_string(10), "10");
    assert_eq!(decimal_string(1009), "1009");
}

#[test]
fn decimal_of_the_largest_number() {
    assert_eq!(decimal_string(u64::MAX), "18446744073709551615");
    assert_eq!(decimal_string(u64::MAX), u64::MAX.to_string());
}

#[test]
fn decimal_agrees_with_std_on_many_numbers() {
    let mut n: u64 = 1;
    for _ in 0..64 {
        assert_eq!(decimal_string(n), n.to_string());
        assert_eq!(decimal_string(n - 1), (n - 1).to_string());
        n = n.wrapping_mul(3).wrapping_add(7);
    }
}

#[test]
fn join_of_nothing_is_empty() {
    assert_eq!(join_strings(&Vec::new(), ", "), "");
}

#[test]
fn join_of_one_has_no_separator() {
    assert_eq!(join_strings(&vec!["a".to_string()], ", "), "a");
}

#[test]
fn join_puts_separator_between_neighbours() {
    let parts = vec!["a".to_string(), "".to_string(), "c".to_string()];
    assert_eq!(join_strings(&parts, ", "), "a, , c");
    assert_eq!(join_strings(&parts, ""), "ac");
}

#[test]
fn integers_and_strings_render_as_themselves() {
    assert_eq!(42usize.debug_to_string(), "42");
    assert_eq!(8u32.debug_to_string(), "8");
    assert_eq!(u32::MAX.debug_to_string(), "4294967295");
    assert_eq!("label".debug_to_string(), "label");
}

#[test]
fn stack_pointer_is_register_zero() {
    assert_eq!(ReservedRegisters::stack_pointer(), RegisterIndex::from(0));
    assert_eq!(ReservedRegisters::stack_pointer().to_usize(), 0);
}

#[test]
fn addressing_bit_size_is_sixty_four() {
    assert_eq!(BRILLIG_MEMORY_ADDRESSING_BIT_SIZE, 64);
}

#[test]
fn stack_pointer_renders_as_stack() {
    assert_eq!(ReservedRegisters::stack_pointer().debug_to_string(), "Stack");
    assert_eq!(RegisterIndex::from(0).debug_to_string(), "Stack");
}

#[test]
fn other_registers_render_as_r_and_index() {
    assert_eq!(RegisterIndex::from(1).debug_to_string(), "R1");
    assert_eq!(RegisterIndex::from(10).debug_to_string(), "R10");
    assert_eq!(RegisterIndex::from(65535).debug_to_string(), "R65535");
    assert_eq!(
        RegisterIndex::from(usize::MAX).debug_to_string(),
        format!("R{}", usize::MAX)
    );
}

#[test]
fn register_index_round_trips() {
    assert_eq!(RegisterIndex::from(17).to_usize(), 17);
    assert_eq!(RegisterIndex(17), RegisterIndex::from(17));
}

#[test]
fn heap_array_renders_pointer_and_static_size() {
    let array = HeapArray { pointer: RegisterIndex::from(4), size: 32 };
    assert_eq!(array.debug_to_string(), "R4[0..32]");
    let empty = HeapArray { pointer: RegisterIndex::from(0), size: 0 };
    assert_eq!(empty.debug_to_string(), "Stack[0..0]");
}

#[test]
fn heap_vector_renders_pointer_and_size_register() {
    let vector = HeapVector { pointer: RegisterIndex::from(4), size: RegisterIndex::from(5) };
    assert_eq!(vector.debug_to_string(), "R4[0..R5]");
    let on_stack = HeapVector { pointer: RegisterIndex::from(0), size: RegisterIndex::from(0) };
    assert_eq!(on_stack.debug_to_string(), "Stack[0..Stack]");
}

#[test]
fn operand_renders_as_what_it_holds() {
    let register = RegisterOrMemory::RegisterIndex(RegisterIndex::from(2));
    let array =
        RegisterOrMemory::HeapArray(HeapArray { pointer: RegisterIndex::from(2), size: 3 });
    let vector = RegisterOrMemory::HeapVector(HeapVector {
        pointer: RegisterIndex::from(2),
        size: RegisterIndex::from(3),
    });
    assert_eq!(register.debug_to_string(), "R2");
    assert_eq!(array.debug_to_string(), "R2[0..3]");
    assert_eq!(vector.debug_to_string(), "R2[0..R3]");
}

#[test]
fn operand_rendering_is_deterministic() {
    let operands = [
        RegisterOrMemory::RegisterIndex(RegisterIndex::from(0)),
        RegisterOrMemory::RegisterIndex(RegisterIndex::from(12)),
        RegisterOrMemory::HeapArray(HeapArray { pointer: RegisterIndex::from(1), size: 12 }),
        RegisterOrMemory::HeapVector(HeapVector {
            pointer: RegisterIndex::from(1),
            size: RegisterIndex::from(12),
        }),
    ];
    for operand in operands.iter() {
        assert_eq!(operand.debug_to_string(), operand.debug_to_string());
    }
}

#[test]
fn different_operands_render_differently() {
    let mut operands = Vec::new();
    for pointer in [0usize, 1, 2, 10, 12] {
        operands.push(RegisterOrMemory::RegisterIndex(RegisterIndex::from(pointer)));
        for size in [0usize, 1, 2, 10, 12] {
            operands.push(RegisterOrMemory::HeapArray(HeapArray {
                pointer: RegisterIndex::from(pointer),
                size,
            }));
            operands.push(RegisterOrMemory::HeapVector(HeapVector {
                pointer: RegisterIndex::from(pointer),
                size: RegisterIndex::from(size),
            }));
        }
    }
    for (i, a) in operands.iter().enumerate() {
        for (j, b) in operands.iter().enumerate() {
            assert_eq!(i == j, a.debug_to_string() == b.debug_to_string());
        }
    }
}

#[test]
fn value_renders_as_its_number() {
    assert_eq!(Value::from(0).debug_to_string(), "0");
    assert_eq!(Value::from(1234).debug_to_string(), "1234");
    assert_eq!(Value::from(77).to_usize(), 77);
    assert_eq!(Value { inner: 5 }, Value::from(5));
}

#[test]
fn lists_render_with_comma_and_space() {
    let none: [RegisterIndex; 0] = [];
    assert_eq!(none[..].debug_to_string(), "");
    let one = [RegisterIndex::from(9)];
    assert_eq!(one[..].debug_to_string(), "R9");
    let three = [RegisterIndex::from(0), RegisterIndex::from(1), RegisterIndex::from(22)];
    assert_eq!(three[..].debug_to_string(), "Stack, R1, R22");
    let operands = [
        RegisterOrMemory::RegisterIndex(RegisterIndex::from(1)),
        RegisterOrMemory::HeapArray(HeapArray { pointer: RegisterIndex::from(2), size: 3 }),
    ];
    assert_eq!(operands[..].debug_to_string(), "R1, R2[0..3]");
}
