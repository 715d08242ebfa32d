use brillig_ir::debug_show::DebugShow;
use brillig_ir::opcodes::{BinaryIntOp, BrilligBinaryOp, Instruction};
use brillig_ir::registers::{RegisterIndex, Value};

fn sample_program() -> Vec<Instruction> {
    vec![
        Instruction::EnterContext { label: "main".to_string() },
        Instruction::EnterContext { label: "main-b0".to_string() },
        Instruction::Const { result: RegisterIndex::from(1), constant: Value::from(5) },
        Instruction::BinaryOp {
            lhs: RegisterIndex::from(1),
            rhs: RegisterIndex::from(1),
            result: RegisterIndex::from(2),
            operation: BrilligBinaryOp::Integer { op: BinaryIntOp::Add, bit_size: 32 },
        },
        Instruction::JumpIf { condition: RegisterIndex::from(2), target_label: "main-b1".to_string() },
        Instruction::EnterContext { label: "main-b1".to_string() },
        Instruction::Return { return_registers: vec![RegisterIndex::from(2)] },
        Instruction::Stop,
        Instruction::EnterContext { label: "main".to_string() },
    ]
}

fn sample_lines() -> Vec<String> {
    vec![
        "main:".to_string(),
        "  CONST R1 = 5".to_string(),
        "  R2 = R1 i32::+ R1".to_string(),
        "  JUMP_IF R2 TO main-b1".to_string(),
        "main-b1:".to_string(),
        "  // return R2;".to_string(),
        "  STOP".to_string(),
        "main:".to_string(),
    ]
}

#[test]
fn switch_is_what_it_was_set_to() {
    assert!(DebugShow::new(true).is_enabled());
    assert!(!DebugShow::new(false).is_enabled());
    let mut debug_show = DebugShow::new(true);
    debug_show.set_enabled(false);
    assert!(!debug_show.is_enabled());
    debug_show.set_enabled(true);
    assert!(debug_show.is_enabled());
}

#[test]
fn enabled_trace_shows_every_line() {
    assert_eq!(DebugShow::new(true).disassemble(&sample_program()), sample_lines());
}

#[test]
fn empty_program_shows_nothing() {
    assert!(DebugShow::new(true).disassemble(&[]).is_empty());
}

#[test]
fn disabled_trace_shows_nothing() {
    let mut debug_show = DebugShow::new(false);
    assert!(debug_show.disassemble(&sample_program()).is_empty());
    for instruction in sample_program().iter() {
        assert_eq!(debug_show.show(instruction), None);
    }
}

#[test]
fn disabled_trace_is_silent_for_every_kind_of_call() {
    let mut debug_show = DebugShow::new(false);
    let r = RegisterIndex::from(1);
    assert_eq!(debug_show.constrain_instruction(r), None);
    assert_eq!(debug_show.return_instruction(&[r]), None);
    assert_eq!(debug_show.mov_instruction(r, r), None);
    assert_eq!(debug_show.const_instruction(r, Value::from(1)), None);
    assert_eq!(debug_show.not_instruction(r, 1, r), None);
    assert_eq!(debug_show.foreign_call_instruction("f".to_string(), &[], &[]), None);
    assert_eq!(debug_show.load_instruction(r, r), None);
    assert_eq!(debug_show.store_instruction(r, r), None);
    assert_eq!(debug_show.stop_instruction(), None);
    assert_eq!(debug_show.allocate_array_instruction(r, r), None);
    assert_eq!(debug_show.array_get(r, r, r), None);
    assert_eq!(debug_show.array_set(r, r, r), None);
    assert_eq!(debug_show.copy_array_instruction(r, r, r), None);
    assert_eq!(debug_show.enter_context("f".to_string()), None);
    assert_eq!(debug_show.jump_instruction("f".to_string()), None);
    assert_eq!(debug_show.jump_if_instruction(r, "f".to_string()), None);
    assert_eq!(debug_show.cast_instruction(r, r, 8), None);
    assert_eq!(debug_show.add_external_call_instruction("f".to_string()), None);
}

#[test]
fn reenabled_trace_shows_what_the_always_on_trace_shows() {
    let mut always_on = DebugShow::new(true);
    let mut toggled = DebugShow::new(true);
    toggled.set_enabled(false);
    assert!(toggled.disassemble(&sample_program()).is_empty());
    toggled.set_enabled(true);
    let resumed = toggled.disassemble(&sample_program());
    assert_eq!(resumed, always_on.disassemble(&sample_program()));
    assert_eq!(resumed, sample_lines());
}

#[test]
fn switching_off_and_on_keeps_the_last_header() {
    let mut debug_show = DebugShow::new(true);
    assert_eq!(debug_show.enter_context("f1".to_string()), Some("f1:".to_string()));
    debug_show.set_enabled(false);
    assert_eq!(debug_show.stop_instruction(), None);
    assert_eq!(debug_show.enter_context("f2".to_string()), None);
    debug_show.set_enabled(true);
    assert_eq!(debug_show.enter_context("f1-b0".to_string()), None);
    assert_eq!(debug_show.enter_context("f2-b0".to_string()), Some("f2-b0:".to_string()));
}

#[test]
fn second_run_starts_where_the_first_ended() {
    let mut debug_show = DebugShow::new(true);
    let program = vec![
        Instruction::EnterContext { label: "f-b0".to_string() },
        Instruction::EnterContext { label: "f".to_string() },
    ];
    let first = debug_show.disassemble(&program);
    assert_eq!(first, vec!["f-b0:".to_string(), "f:".to_string()]);
    let second = debug_show.disassemble(&program);
    assert_eq!(second, vec!["f:".to_string()]);
}
