use eon_core::assembly::{Instr, Line, remove_labels};
use eon_core::constants::ConstantsHolder;
use eon_core::vm::{DebugEntry, Program, RuntimeErrorKind, Value, Vm, VmInstr};

fn line(instr: Instr, lineno: usize) -> Line {
    Line::Instr { instr, lineno, file_id: 0, func_id: 0 }
}

fn link(items: Vec<Line>, constants: ConstantsHolder, host_arities: Vec<u16>) -> Program {
    let (instructions, _labels) = remove_labels(&items, &constants);
    let debug: Vec<DebugEntry> = items
        .iter()
        .filter_map(|l| match l {
            Line::Instr { lineno, file_id, func_id, .. } => {
                Some(DebugEntry { file_id: *file_id, lineno: *lineno, func_id: *func_id })
            }
            Line::Label(_) => None,
        })
        .collect();
    Program { instructions, entry_pc: 0, constants, debug, host_arities }
}

const PRINT_STRING: u16 = 0;

/// Drives the machine like an embedder would, collecting every string the
/// program prints, until it stops or latches an error.
fn drive(vm: &mut Vm) -> Vec<String> {
    let mut printed = Vec::new();
    loop {
        vm.run(10_000);
        vm.gc();
        if vm.is_done() || vm.get_error().is_some() {
            return printed;
        }
        match vm.get_pending_host_func() {
            Some(PRINT_STRING) => {
                let args = vm.get_pending_args().unwrap();
                assert_eq!(args.len(), 1);
                match &args[0] {
                    Value::Str(s) => printed.push(s.clone()),
                    other => panic!("print with a non-string argument: {:?}", other),
                }
                vm.fulfill(Value::Nil);
            }
            Some(other) => panic!("unknown host function id {}", other),
            None => return printed,
        }
    }
}

#[test]
fn hello_world_prints_once_and_stops() {
    let mut constants = ConstantsHolder::new();
    constants.string_constants.intern("hello\n");
    let items = vec![
        line(Instr::PushString(String::from("hello\n")), 1),
        line(Instr::HostFunc(PRINT_STRING), 1),
        line(Instr::Pop, 1),
        line(Instr::Stop, 1),
    ];
    let program = link(items, constants, vec![1]);
    let mut vm = Vm::new(program);
    let printed = drive(&mut vm);
    assert_eq!(printed, vec![String::from("hello\n")]);
    assert!(vm.is_done());
    assert!(vm.get_error().is_none());
}

#[test]
fn arithmetic_prints_fourteen() {
    // print(int_to_string(2 + 3 * 4))
    let mut constants = ConstantsHolder::new();
    constants.int_constants.intern(2);
    constants.int_constants.intern(3);
    constants.int_constants.intern(4);
    let items = vec![
        line(Instr::PushInt(2), 1),
        line(Instr::PushInt(3), 1),
        line(Instr::PushInt(4), 1),
        line(Instr::MultiplyInt, 1),
        line(Instr::AddInt, 1),
        line(Instr::IntToString, 1),
        line(Instr::HostFunc(PRINT_STRING), 1),
        line(Instr::Pop, 1),
        line(Instr::Stop, 1),
    ];
    let program = link(items, constants, vec![1]);
    let mut vm = Vm::new(program);
    let printed = drive(&mut vm);
    assert_eq!(printed, vec![String::from("14")]);
    assert!(vm.is_done());
}

#[test]
fn divide_by_zero_latches_with_location() {
    // print(int_to_string(1 / 0)) -- the division sits on line 7 of file 3.
    let mut constants = ConstantsHolder::new();
    constants.int_constants.intern(1);
    constants.int_constants.intern(0);
    let items = vec![
        Line::Instr { instr: Instr::PushInt(1), lineno: 7, file_id: 3, func_id: 0 },
        Line::Instr { instr: Instr::PushInt(0), lineno: 7, file_id: 3, func_id: 0 },
        Line::Instr { instr: Instr::DivideInt, lineno: 7, file_id: 3, func_id: 0 },
        Line::Instr { instr: Instr::IntToString, lineno: 7, file_id: 3, func_id: 0 },
        Line::Instr { instr: Instr::HostFunc(PRINT_STRING), lineno: 7, file_id: 3, func_id: 0 },
        Line::Instr { instr: Instr::Stop, lineno: 7, file_id: 3, func_id: 0 },
    ];
    let program = link(items, constants, vec![1]);
    let mut vm = Vm::new(program);
    let printed = drive(&mut vm);
    assert!(printed.is_empty());
    assert!(!vm.is_done());
    let err = vm.get_error().expect("a runtime error must latch");
    assert!(matches!(err.kind, RuntimeErrorKind::DivideByZero));
    assert_eq!(err.trace.len(), 1);
    assert_eq!(err.trace[0].file_id, 3);
    assert_eq!(err.trace[0].lineno, 7);
}

#[test]
fn modulo_by_zero_latches() {
    let mut constants = ConstantsHolder::new();
    constants.int_constants.intern(5);
    constants.int_constants.intern(0);
    let items = vec![
        line(Instr::PushInt(5), 1),
        line(Instr::PushInt(0), 1),
        line(Instr::Modulo, 1),
        line(Instr::Stop, 1),
    ];
    let program = link(items, constants, vec![]);
    let mut vm = Vm::new(program);
    drive(&mut vm);
    assert!(matches!(vm.get_error().unwrap().kind, RuntimeErrorKind::DivideByZero));
}

#[test]
fn closure_captures_by_value() {
    // let n = 3; let f = () -> n + 1; n = 4; print(int_to_string(f()))
    // Reassigning n after the closure is made must not change f()'s result.
    let mut constants = ConstantsHolder::new();
    constants.int_constants.intern(3);
    constants.int_constants.intern(4);
    constants.int_constants.intern(1);
    let items = vec![
        // main
        line(Instr::PushNil(1), 1),                            // local 0 = n
        line(Instr::PushInt(3), 1),
        line(Instr::StoreOffset(0), 1),                        // n = 3
        line(Instr::LoadOffset(0), 2),
        line(Instr::ConstructArray(1), 2),                     // env = [n]
        line(Instr::MakeClosure { func_addr: String::from("f") }, 2),
        line(Instr::PushInt(4), 3),
        line(Instr::StoreOffset(0), 3),                        // n = 4, after the capture
        line(Instr::CallFuncObj, 4),                           // call f(): closure is on top
        line(Instr::IntToString, 4),
        line(Instr::HostFunc(PRINT_STRING), 4),
        line(Instr::Pop, 4),
        line(Instr::Stop, 4),
        // f: captured n at offset -1 from the frame base
        Line::Label(String::from("f")),
        line(Instr::LoadOffset(-1), 2),
        line(Instr::PushInt(1), 2),
        line(Instr::AddInt, 2),
        line(Instr::Return(1), 2),
    ];
    let program = link(items, constants, vec![1]);
    let mut vm = Vm::new(program);
    let printed = drive(&mut vm);
    assert!(vm.get_error().is_none(), "error: {:?}", vm.get_error());
    assert_eq!(printed, vec![String::from("4")]);
    assert!(vm.is_done());
}

#[test]
fn interface_dispatch_selects_the_right_impl() {
    // An interface method with one impl per receiver type: each call site is
    // translated to a direct call on the label of the resolved impl, so the
    // two sites dispatch to different code.
    let mut constants = ConstantsHolder::new();
    constants.string_constants.intern("int!");
    constants.string_constants.intern("mystruct!");
    let items = vec![
        line(Instr::Call(0, String::from("to_str$int")), 1),
        line(Instr::HostFunc(PRINT_STRING), 1),
        line(Instr::Pop, 1),
        line(Instr::Call(0, String::from("to_str$mystruct")), 2),
        line(Instr::HostFunc(PRINT_STRING), 2),
        line(Instr::Pop, 2),
        line(Instr::Stop, 2),
        Line::Label(String::from("to_str$int")),
        line(Instr::PushString(String::from("int!")), 3),
        line(Instr::Return(0), 3),
        Line::Label(String::from("to_str$mystruct")),
        line(Instr::PushString(String::from("mystruct!")), 4),
        line(Instr::Return(0), 4),
    ];
    let program = link(items, constants, vec![1]);
    let mut vm = Vm::new(program);
    let printed = drive(&mut vm);
    assert!(vm.get_error().is_none(), "error: {:?}", vm.get_error());
    assert_eq!(printed, vec![String::from("int!"), String::from("mystruct!")]);
}

#[test]
fn struct_construct_deconstruct_round_trip() {
    let mut constants = ConstantsHolder::new();
    constants.int_constants.intern(10);
    constants.int_constants.intern(20);
    let items = vec![
        line(Instr::PushInt(10), 1),
        line(Instr::PushInt(20), 1),
        line(Instr::ConstructStruct(2), 1),
        line(Instr::DeconstructStruct, 1),
        line(Instr::Stop, 1),
    ];
    let program = link(items, constants, vec![]);
    let mut vm = Vm::new(program);
    drive(&mut vm);
    assert!(vm.get_error().is_none());
    assert_eq!(vm.stack.len(), 2);
    assert!(matches!(vm.stack[0], Value::Int(10)));
    assert!(matches!(vm.stack[1], Value::Int(20)));
}

#[test]
fn variant_round_trip_yields_tag_and_payload() {
    let mut constants = ConstantsHolder::new();
    constants.int_constants.intern(99);
    let items = vec![
        line(Instr::PushInt(99), 1),
        line(Instr::ConstructVariant { tag: 7 }, 1),
        line(Instr::DeconstructVariant, 1),
        line(Instr::Stop, 1),
    ];
    let program = link(items, constants, vec![]);
    let mut vm = Vm::new(program);
    drive(&mut vm);
    assert!(vm.get_error().is_none());
    assert_eq!(vm.stack.len(), 2);
    assert!(matches!(vm.stack[0], Value::Int(7)));
    assert!(matches!(vm.stack[1], Value::Int(99)));
}

#[test]
fn return_discipline_shrinks_the_stack() {
    // A call with two arguments and one local: Return(2) discards the local,
    // the return value slot and both arguments, then pushes the result.
    let mut constants = ConstantsHolder::new();
    constants.int_constants.intern(8);
    constants.int_constants.intern(9);
    let items = vec![
        line(Instr::PushInt(8), 1),
        line(Instr::PushInt(9), 1),
        line(Instr::Call(2, String::from("add")), 1),
        line(Instr::Stop, 1),
        Line::Label(String::from("add")),
        line(Instr::PushNil(1), 2),
        line(Instr::LoadOffset(-2), 2),
        line(Instr::LoadOffset(-1), 2),
        line(Instr::AddInt, 2),
        line(Instr::StoreOffset(0), 2),
        line(Instr::LoadOffset(0), 2),
        line(Instr::Return(2), 2),
    ];
    let program = link(items, constants, vec![]);
    let mut vm = Vm::new(program);
    drive(&mut vm);
    assert!(vm.get_error().is_none(), "error: {:?}", vm.get_error());
    assert!(vm.is_done());
    assert_eq!(vm.stack.len(), 1);
    assert!(matches!(vm.stack[0], Value::Int(17)));
    assert!(vm.frames.is_empty());
}

#[test]
fn get_idx_out_of_bounds_latches() {
    let mut constants = ConstantsHolder::new();
    constants.int_constants.intern(1);
    constants.int_constants.intern(5);
    let items = vec![
        line(Instr::PushInt(1), 1),
        line(Instr::ConstructArray(1), 1),
        line(Instr::PushInt(5), 1),
        line(Instr::GetIdx, 1),
        line(Instr::Stop, 1),
    ];
    let program = link(items, constants, vec![]);
    let mut vm = Vm::new(program);
    drive(&mut vm);
    assert!(matches!(vm.get_error().unwrap().kind, RuntimeErrorKind::IndexOutOfBounds));
}

#[test]
fn panic_latches_with_the_message() {
    let mut constants = ConstantsHolder::new();
    constants.string_constants.intern("boom");
    let items = vec![
        line(Instr::PushString(String::from("boom")), 1),
        line(Instr::Panic, 1),
        line(Instr::Stop, 1),
    ];
    let program = link(items, constants, vec![]);
    let mut vm = Vm::new(program);
    drive(&mut vm);
    match &vm.get_error().unwrap().kind {
        RuntimeErrorKind::Panic(m) => assert_eq!(m, "boom"),
        other => panic!("expected a panic, got {:?}", other),
    }
}

#[test]
fn foreign_calls_latch_a_link_error() {
    let constants = ConstantsHolder::new();
    let items = vec![line(Instr::CallExtern(0), 1), line(Instr::Stop, 1)];
    let program = link(items, constants, vec![]);
    let mut vm = Vm::new(program);
    drive(&mut vm);
    assert!(matches!(vm.get_error().unwrap().kind, RuntimeErrorKind::LinkError));
}

#[test]
fn negative_numbers_format_with_a_sign() {
    let mut constants = ConstantsHolder::new();
    constants.int_constants.intern(-56);
    let items = vec![
        line(Instr::PushInt(-56), 1),
        line(Instr::IntToString, 1),
        line(Instr::HostFunc(PRINT_STRING), 1),
        line(Instr::Pop, 1),
        line(Instr::Stop, 1),
    ];
    let program = link(items, constants, vec![1]);
    let mut vm = Vm::new(program);
    let printed = drive(&mut vm);
    assert_eq!(printed, vec![String::from("-56")]);
}

#[test]
fn string_ops_concat_and_compare() {
    let mut constants = ConstantsHolder::new();
    constants.string_constants.intern("ab");
    constants.string_constants.intern("cd");
    constants.string_constants.intern("abcd");
    let items = vec![
        line(Instr::PushString(String::from("ab")), 1),
        line(Instr::PushString(String::from("cd")), 1),
        line(Instr::ConcatStrings, 1),
        line(Instr::PushString(String::from("abcd")), 1),
        line(Instr::EqualString, 1),
        line(Instr::Stop, 1),
    ];
    let program = link(items, constants, vec![]);
    let mut vm = Vm::new(program);
    drive(&mut vm);
    assert!(vm.get_error().is_none());
    assert!(matches!(vm.stack[0], Value::Bool(true)));
}

#[test]
fn jump_targets_resolve_to_label_positions() {
    let constants = ConstantsHolder::new();
    let items = vec![
        line(Instr::Jump(String::from("end")), 1),
        line(Instr::Stop, 1),
        Line::Label(String::from("end")),
        line(Instr::Stop, 2),
    ];
    let (instructions, labels) = remove_labels(&items, &constants);
    assert_eq!(instructions.len(), 3);
    assert_eq!(labels.get("end"), Some(&2));
    assert!(matches!(instructions[0], VmInstr::Jump(2)));
}

#[test]
fn constant_pool_dedups_ids() {
    let mut constants = ConstantsHolder::new();
    let a = constants.int_constants.intern(42);
    let b = constants.int_constants.intern(7);
    let c = constants.int_constants.intern(42);
    assert_eq!(a, c);
    assert_ne!(a, b);
    let fa = constants.float_constants.intern("3.25");
    let fb = constants.float_constants.intern("3.25");
    assert_eq!(fa, fb);
    let sa = constants.string_constants.intern("x");
    let sb = constants.string_constants.intern("y");
    let sc = constants.string_constants.intern("x");
    assert_eq!(sa, sc);
    assert_ne!(sa, sb);
}

#[test]
fn power_and_comparisons() {
    let mut constants = ConstantsHolder::new();
    constants.int_constants.intern(2);
    constants.int_constants.intern(10);
    let items = vec![
        line(Instr::PushInt(2), 1),
        line(Instr::PushInt(10), 1),
        line(Instr::PowerInt, 1),
        line(Instr::IntToString, 1),
        line(Instr::HostFunc(PRINT_STRING), 1),
        line(Instr::Pop, 1),
        line(Instr::Stop, 1),
    ];
    let program = link(items, constants, vec![1]);
    let mut vm = Vm::new(program);
    let printed = drive(&mut vm);
    assert_eq!(printed, vec![String::from("1024")]);
}

#[test]
fn gc_frees_unreachable_objects_and_keeps_rooted_ones() {
    let mut constants = ConstantsHolder::new();
    constants.int_constants.intern(1);
    constants.int_constants.intern(2);
    let items = vec![
        // An array that becomes garbage once popped, then a struct that
        // stays rooted on the stack.
        line(Instr::PushInt(1), 1),
        line(Instr::ConstructArray(1), 1),
        line(Instr::Pop, 1),
        line(Instr::PushInt(2), 1),
        line(Instr::ConstructStruct(1), 1),
        line(Instr::Stop, 1),
    ];
    let program = link(items, constants, vec![]);
    let mut vm = Vm::new(program);
    vm.run(100);
    assert!(vm.is_done());
    assert_eq!(vm.heap.len(), 2);
    assert!(vm.heap[0].is_some());
    assert!(vm.heap[1].is_some());
    vm.gc();
    assert_eq!(vm.heap.len(), 2);
    assert!(vm.heap[0].is_none(), "the popped array must be collected");
    assert!(vm.heap[1].is_some(), "the rooted struct must survive");
    assert!(matches!(vm.stack[0], Value::Struct(1)));
}

#[test]
fn gc_follows_references_through_objects() {
    let mut constants = ConstantsHolder::new();
    constants.int_constants.intern(5);
    let items = vec![
        // A struct whose single field is an array: the array is reachable
        // only through the struct, and both must survive a collection.
        line(Instr::PushInt(5), 1),
        line(Instr::ConstructArray(1), 1),
        line(Instr::ConstructStruct(1), 1),
        line(Instr::Stop, 1),
    ];
    let program = link(items, constants, vec![]);
    let mut vm = Vm::new(program);
    vm.run(100);
    assert!(vm.is_done());
    vm.gc();
    assert!(vm.heap[0].is_some(), "the array is reachable through the struct");
    assert!(vm.heap[1].is_some());
}

#[test]
fn instructions_render_in_textual_form() {
    assert_eq!(Instr::Pop.to_text(), "pop");
    assert_eq!(Instr::LoadOffset(-3).to_text(), "load_offset -3");
    assert_eq!(Instr::PushInt(42).to_text(), "push_int 42");
    assert_eq!(Instr::PushFloat(String::from("4.56")).to_text(), "push_float 4.56");
    assert_eq!(
        Instr::PushString(String::from("a\"b\n")).to_text(),
        "push_string \"a\\\"b\\n\""
    );
    assert_eq!(Instr::PushBool(true).to_text(), "push_bool true");
    assert_eq!(Instr::Call(2, String::from("main")).to_text(), "call 2 main");
    assert_eq!(
        Instr::MakeClosure { func_addr: String::from("f") }.to_text(),
        "make_closure f"
    );
    assert_eq!(Instr::ConstructVariant { tag: 7 }.to_text(), "construct_variant 7");
    assert_eq!(Instr::GetIdx.to_text(), "get_index");
}
