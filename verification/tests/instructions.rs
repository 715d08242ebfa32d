use brillig_ir::debug_show::{DebugShow, DebugToString};
use brillig_ir::opcodes::{BinaryFieldOp, BinaryIntOp, BlackBoxOp, BrilligBinaryOp, Instruction};
use brillig_ir::registers::{
    HeapArray, HeapVector, RegisterIndex, RegisterOrMemory, ReservedRegisters, Value,
};

fn r(index: usize) -> RegisterIndex {
    RegisterIndex::from(index)
}

fn line(text: &str) -> Option<String> {
    Some(text.to_string())
}

#[test]
fn constrain_line() {
    let mut debug_show = DebugShow::new(true);
    assert_eq!(debug_show.constrain_instruction(r(7)), line("  ASSERT R7 != 0"));
}

#[test]
fn return_line_lists_registers_in_order() {
    let mut debug_show = DebugShow::new(true);
    assert_eq!(debug_show.return_instruction(&[r(3), r(1), r(2)]), line("  // return R3, R1, R2;"));
    assert_eq!(debug_show.return_instruction(&[r(5)]), line("  // return R5;"));
    assert_eq!(debug_show.return_instruction(&[]), line("  // return ;"));
}

#[test]
fn mov_line_names_destination_then_source() {
    let mut debug_show = DebugShow::new(true);
    assert_eq!(debug_show.mov_instruction(r(3), r(4)), line("  MOV R3, R4"));
}

#[test]
fn binary_line_reads_as_an_assignment() {
    let mut debug_show = DebugShow::new(true);
    let add = BrilligBinaryOp::Field { op: BinaryFieldOp::Add };
    assert_eq!(debug_show.binary_instruction(r(1), r(2), r(3), add), line("  R3 = R1 f+ R2"));
    let less = BrilligBinaryOp::Integer { op: BinaryIntOp::LessThan, bit_size: 32 };
    assert_eq!(debug_show.binary_instruction(r(4), r(5), r(6), less), line("  R6 = R4 i32::< R5"));
    let wide = BrilligBinaryOp::Integer { op: BinaryIntOp::Mul, bit_size: 64 };
    assert_eq!(debug_show.binary_instruction(r(4), r(5), r(6), wide), line("  R6 = R4 * R5"));
    let modulo = BrilligBinaryOp::Modulo { is_signed_integer: false, bit_size: 8 };
    assert_eq!(debug_show.binary_instruction(r(1), r(2), r(1), modulo), line("  R1 = R1 %%:8 R2"));
}

#[test]
fn const_line() {
    let mut debug_show = DebugShow::new(true);
    assert_eq!(debug_show.const_instruction(r(2), Value::from(1000)), line("  CONST R2 = 1000"));
}

#[test]
fn not_line_shows_width_before_the_mnemonic() {
    let mut debug_show = DebugShow::new(true);
    assert_eq!(debug_show.not_instruction(r(1), 1, r(2)), line("  i1_NOT R2 = !R1"));
    assert_eq!(debug_show.not_instruction(r(1), 64, r(2)), line("  i64_NOT R2 = !R1"));
}

#[test]
fn foreign_call_line() {
    let mut debug_show = DebugShow::new(true);
    let inputs = [
        RegisterOrMemory::RegisterIndex(r(1)),
        RegisterOrMemory::HeapArray(HeapArray { pointer: r(2), size: 3 }),
    ];
    let outputs = [RegisterOrMemory::HeapVector(HeapVector { pointer: r(4), size: r(5) })];
    assert_eq!(
        debug_show.foreign_call_instruction("oracle".to_string(), &inputs, &outputs),
        line("  FOREIGN_CALL oracle (R1, R2[0..3]) => R4[0..R5]")
    );
    assert_eq!(
        debug_show.foreign_call_instruction("print".to_string(), &[], &[]),
        line("  FOREIGN_CALL print () => ")
    );
}

#[test]
fn load_and_store_lines() {
    let mut debug_show = DebugShow::new(true);
    assert_eq!(debug_show.load_instruction(r(1), r(2)), line("  LOAD R1 = *R2"));
    assert_eq!(debug_show.store_instruction(r(1), r(2)), line("  STORE *R1 = R2"));
}

#[test]
fn stop_line() {
    let mut debug_show = DebugShow::new(true);
    assert_eq!(debug_show.stop_instruction(), line("  STOP"));
}

#[test]
fn array_lines() {
    let mut debug_show = DebugShow::new(true);
    assert_eq!(
        debug_show.allocate_array_instruction(r(1), r(2)),
        line("  ALLOCATE_ARRAY R1 SIZE R2")
    );
    assert_eq!(debug_show.array_get(r(1), r(2), r(3)), line("  ARRAY_GET R1[R2] -> R3"));
    assert_eq!(debug_show.array_set(r(1), r(2), r(3)), line("  ARRAY_SET R1[R2] = R3"));
    assert_eq!(
        debug_show.copy_array_instruction(r(1), r(2), r(3)),
        line("  COPY_ARRAY R1 -> R2 (R3 ELEMENTS)")
    );
}

#[test]
fn jump_lines() {
    let mut debug_show = DebugShow::new(true);
    assert_eq!(debug_show.jump_instruction("f1-b2".to_string()), line("  JUMP_TO f1-b2"));
    assert_eq!(
        debug_show.jump_if_instruction(r(9), "f1-b3".to_string()),
        line("  JUMP_IF R9 TO f1-b3")
    );
    assert_eq!(debug_show.jump_instruction(String::new()), line("  JUMP_TO "));
}

#[test]
fn cast_line() {
    let mut debug_show = DebugShow::new(true);
    assert_eq!(debug_show.cast_instruction(r(1), r(2), 8), line("  CAST R1 FROM R2 TO 8 BITS"));
}

#[test]
fn external_call_line() {
    let mut debug_show = DebugShow::new(true);
    assert_eq!(debug_show.add_external_call_instruction("f2".to_string()), line("  CALL f2"));
}

#[test]
fn hash_lines() {
    let mut debug_show = DebugShow::new(true);
    let message = HeapVector { pointer: r(1), size: r(2) };
    let output = HeapArray { pointer: r(3), size: 32 };
    assert_eq!(
        debug_show.black_box_op_instruction(BlackBoxOp::Sha256 { message, output }),
        line("  SHA256 R1[0..R2] -> R3[0..32]")
    );
    assert_eq!(
        debug_show.black_box_op_instruction(BlackBoxOp::Keccak256 { message, output }),
        line("  KECCAK256 R1[0..R2] -> R3[0..32]")
    );
    assert_eq!(
        debug_show.black_box_op_instruction(BlackBoxOp::Blake2s { message, output }),
        line("  BLAKE2S R1[0..R2] -> R3[0..32]")
    );
    assert_eq!(
        debug_show
            .black_box_op_instruction(BlackBoxOp::HashToField128Security { message, output: r(4) }),
        line("  HASH_TO_FIELD_128_SECURITY R1[0..R2] -> R4")
    );
}

#[test]
fn ecdsa_line_lists_operands_in_fixed_order() {
    let mut debug_show = DebugShow::new(true);
    let op = BlackBoxOp::EcdsaSecp256k1 {
        hashed_msg: HeapVector { pointer: r(1), size: r(2) },
        public_key_x: HeapArray { pointer: r(3), size: 32 },
        public_key_y: HeapArray { pointer: r(4), size: 32 },
        signature: HeapArray { pointer: r(5), size: 64 },
        result: r(6),
    };
    assert_eq!(
        debug_show.black_box_op_instruction(op),
        line("  ECDSA_SECP256K1 R1[0..R2] R3[0..32] R4[0..32] R5[0..64] -> R6")
    );
}

#[test]
fn ecdsa_line_keeps_the_order_whatever_the_operands() {
    let mut debug_show = DebugShow::new(true);
    let op = BlackBoxOp::EcdsaSecp256k1 {
        hashed_msg: HeapVector { pointer: r(50), size: r(40) },
        public_key_x: HeapArray { pointer: r(30), size: 1 },
        public_key_y: HeapArray { pointer: r(20), size: 2 },
        signature: HeapArray { pointer: r(10), size: 3 },
        result: r(0),
    };
    assert_eq!(
        debug_show.black_box_op_instruction(op),
        line("  ECDSA_SECP256K1 R50[0..R40] R30[0..1] R20[0..2] R10[0..3] -> Stack")
    );
}

#[test]
fn stack_pointer_renders_as_stack_in_every_instruction() {
    let sp = ReservedRegisters::stack_pointer();
    let program = vec![
        Instruction::Constrain { condition: sp },
        Instruction::Return { return_registers: vec![sp, sp] },
        Instruction::Mov { destination: sp, source: sp },
        Instruction::BinaryOp {
            lhs: sp,
            rhs: sp,
            result: sp,
            operation: BrilligBinaryOp::Integer { op: BinaryIntOp::Add, bit_size: 64 },
        },
        Instruction::Const { result: sp, constant: Value::from(0) },
        Instruction::Not { condition: sp, bit_size: 1, result: sp },
        Instruction::ForeignCall {
            func_name: "f".to_string(),
            inputs: vec![
                RegisterOrMemory::RegisterIndex(sp),
                RegisterOrMemory::HeapArray(HeapArray { pointer: sp, size: 2 }),
            ],
            outputs: vec![RegisterOrMemory::HeapVector(HeapVector { pointer: sp, size: sp })],
        },
        Instruction::Load { destination: sp, source_pointer: sp },
        Instruction::Store { destination_pointer: sp, source: sp },
        Instruction::AllocateArray { pointer_register: sp, size_register: sp },
        Instruction::ArrayGet { array_ptr: sp, index: sp, result: sp },
        Instruction::ArraySet { array_ptr: sp, index: sp, value: sp },
        Instruction::CopyArray { source: sp, destination: sp, num_elements_register: sp },
        Instruction::JumpIf { condition: sp, target_label: "l".to_string() },
        Instruction::Cast { destination: sp, source: sp, target_bit_size: 8 },
        Instruction::BlackBox {
            op: BlackBoxOp::HashToField128Security {
                message: HeapVector { pointer: sp, size: sp },
                output: sp,
            },
        },
    ];
    let expected = vec![
        "  ASSERT Stack != 0",
        "  // return Stack, Stack;",
        "  MOV Stack, Stack",
        "  Stack = Stack + Stack",
        "  CONST Stack = 0",
        "  i1_NOT Stack = !Stack",
        "  FOREIGN_CALL f (Stack, Stack[0..2]) => Stack[0..Stack]",
        "  LOAD Stack = *Stack",
        "  STORE *Stack = Stack",
        "  ALLOCATE_ARRAY Stack SIZE Stack",
        "  ARRAY_GET Stack[Stack] -> Stack",
        "  ARRAY_SET Stack[Stack] = Stack",
        "  COPY_ARRAY Stack -> Stack (Stack ELEMENTS)",
        "  JUMP_IF Stack TO l",
        "  CAST Stack FROM Stack TO 8 BITS",
        "  HASH_TO_FIELD_128_SECURITY Stack[0..Stack] -> Stack",
    ];
    let lines = DebugShow::new(true).disassemble(&program);
    assert_eq!(lines, expected);
    for rendered in lines.iter() {
        assert!(!rendered.contains("R0"));
    }
}

#[test]
fn show_gives_the_line_of_each_instruction() {
    let mut debug_show = DebugShow::new(true);
    let mov = Instruction::Mov { destination: r(1), source: r(2) };
    assert_eq!(debug_show.show(&mov), line("  MOV R1, R2"));
    assert_eq!(debug_show.show(&Instruction::Stop), line("  STOP"));
    let jump = Instruction::Jump { target_label: "f1-b1".to_string() };
    assert_eq!(debug_show.show(&jump), line("  JUMP_TO f1-b1"));
    let call = Instruction::ExternalCall { func_label: "f2".to_string() };
    assert_eq!(debug_show.show(&call), line("  CALL f2"));
    let enter = Instruction::EnterContext { label: "f2".to_string() };
    assert_eq!(debug_show.show(&enter), line("f2:"));
}

#[test]
fn instruction_renders_alone_as_its_line() {
    let mov = Instruction::Mov { destination: r(1), source: r(2) };
    assert_eq!(mov.debug_to_string(), "  MOV R1, R2");
    let first_block = Instruction::EnterContext { label: "f1-b0".to_string() };
    assert_eq!(first_block.debug_to_string(), "f1-b0:");
}

#[test]
fn rendering_the_same_instruction_twice_gives_the_same_line() {
    let instructions = vec![
        Instruction::Mov { destination: r(1), source: r(2) },
        Instruction::Stop,
        Instruction::EnterContext { label: "f1".to_string() },
        Instruction::EnterContext { label: "f1-b0".to_string() },
        Instruction::Cast { destination: r(1), source: r(0), target_bit_size: 8 },
    ];
    for instruction in instructions.iter() {
        let mut debug_show = DebugShow::new(true);
        let first = debug_show.show(instruction);
        let second = debug_show.show(instruction);
        assert!(first.is_some());
        assert_eq!(first, second);
        assert_eq!(instruction.debug_to_string(), instruction.debug_to_string());
    }
}

#[test]
fn rendering_does_not_depend_on_what_came_before() {
    let mov = Instruction::Mov { destination: r(1), source: r(2) };
    let mut fresh = DebugShow::new(true);
    let mut used = DebugShow::new(true);
    used.show(&Instruction::EnterContext { label: "f1".to_string() });
    used.show(&Instruction::Stop);
    used.show(&Instruction::EnterContext { label: "  MOV R1, R2".to_string() });
    assert_eq!(fresh.show(&mov), used.show(&mov));
}
