use rick::obj::Obj;
use rick::op::Op;
use rick::vm::{Fault, InputKind, OutItem, VM};

#[test]
fn mod_can_create_new_instance() {
    let data = "Rick\0[]\0\0".as_bytes().to_vec();
    if let Err(_) = VM::new(&data) {
        panic!("expected Ok");
    }
}

#[test]
fn fails_on_unknown_instruction() {
    let data: Vec<u8> = "Rick\0[]\0~".as_bytes().to_vec();
    if let Ok(mut vm) = VM::new(&data) {
        vm.tick();
        assert!(vm.err);
        assert_eq!(Some(Fault::UnknownOpcode), vm.fault);
    } else {
        panic!("expected Ok");
    }
}

#[test]
fn mod_push() {
    let data: Vec<u8> = vec![
        b'R', b'i', b'c', b'k', 0,
        // mem: [42]
        b'[', b'4', b'2', b']', 0,
        Op::Push.op(), 0, 0, 0, 0,
        Op::Push.op(), 0, 0, 0, 1,
    ];
    let vm = VM::new(&data);
    if let Err(_) = vm {
        panic!("expected Ok");
    }

    let mut vm = vm.unwrap();
    vm.tick();
    assert_eq!(Some(Obj::Int(42)), vm.stack.pop());
    vm.tick();
    assert!(vm.err);
}

#[test]
fn mod_pop() {
    let data: Vec<u8> = vec![
        b'R', b'i', b'c', b'k', 0,
        // mem: [0]
        b'[', b'0', b']', 0,
        Op::Pop.op(), 0, 0, 0, 0,
        Op::Pop.op(), 0, 0, 0, 0,
    ];
    let vm = VM::new(&data);
    if let Err(_) = vm {
        panic!("expected Ok");
    }

    let mut vm = vm.unwrap();
    vm.stack.push(Obj::Int(42));
    vm.tick();
    assert_eq!(Obj::Int(42), vm.mem[0]);
    vm.tick();
    assert!(vm.err);
}

#[test]
fn mod_drop() {
    let data: Vec<u8> = vec![
        b'R', b'i', b'c', b'k', 0,
        // mem: []
        b'[', b']', 0,
        Op::Drop.op(),
        Op::Drop.op(),
    ];
    let vm = VM::new(&data);
    if let Err(_) = vm {
        panic!("expected Ok");
    }

    let mut vm = vm.unwrap();
    vm.stack.push(Obj::Int(42));
    vm.tick();
    assert!(vm.stack.empty());
    vm.tick();
    assert!(vm.err);
}

#[test]
fn mod_sti() {
    let data: Vec<u8> = vec![
        b'R', b'i', b'c', b'k', 0,
        // mem: []
        b'[', b']', 0,
        Op::Sti.op(),
        Op::Sti.op(),
    ];
    let vm = VM::new(&data);
    if let Err(_) = vm {
        panic!("expected Ok");
    }

    let mut vm = vm.unwrap();
    vm.stack.push(Obj::Str(String::from("42")));
    vm.tick();
    assert_eq!(Some(Obj::Int(42)), vm.stack.pop());
    vm.stack.push(Obj::Str(String::from("invalid")));
    vm.tick();
    assert!(vm.err);
}

#[test]
fn mod_bool() {
    let data: Vec<u8> = vec![
        b'R', b'i', b'c', b'k', 0,
        // mem: []
        b'[', b']', 0,
        Op::Bool.op(),
        Op::Bool.op(),
        Op::Bool.op(),
        Op::Bool.op(),
        Op::Bool.op(),
    ];
    let vm = VM::new(&data);
    if let Err(_) = vm {
        panic!("expected Ok");
    }

    let mut vm = vm.unwrap();

    vm.stack.push(Obj::Str(String::from("hello world")));
    vm.tick();
    assert_eq!(Some(Obj::Int(1)), vm.stack.pop());

    vm.stack.push(Obj::Str(String::from("")));
    vm.tick();
    assert_eq!(Some(Obj::Int(0)), vm.stack.pop());

    vm.stack.push(Obj::Int(42));
    vm.tick();
    assert_eq!(Some(Obj::Int(1)), vm.stack.pop());

    vm.stack.push(Obj::Int(0));
    vm.tick();
    assert_eq!(Some(Obj::Int(0)), vm.stack.pop());

    vm.tick();
    assert!(vm.err);
}

#[test]
fn add() {
    let data: Vec<u8> = vec![
        b'R', b'i', b'c', b'k', 0,
        // mem: []
        b'[', b']', 0,
        Op::Add.op(),
        Op::Add.op(),
        Op::Add.op(),
    ];
    let vm = VM::new(&data);
    if let Err(_) = vm {
        panic!("expected Ok");
    }

    let mut vm = vm.unwrap();

    vm.stack.push(Obj::Int(40));
    vm.stack.push(Obj::Int(2));
    vm.tick();
    assert_eq!(Some(Obj::Int(42)), vm.stack.pop());

    vm.stack.push(Obj::Int(40));
    vm.tick();
    assert!(vm.err);    // not enough elements for binary pop

    vm.err = false;
    vm.stack.push(Obj::Str(String::from("hello world")));
    vm.tick();
    assert!(vm.err);    // type mismatch
}

#[test]
fn sub() {
    let data: Vec<u8> = vec![
        b'R', b'i', b'c', b'k', 0,
        // mem: []
        b'[', b']', 0,
        Op::Sub.op(),
        Op::Sub.op(),
        Op::Sub.op(),
    ];
    let vm = VM::new(&data);
    if let Err(_) = vm {
        panic!("expected Ok");
    }

    let mut vm = vm.unwrap();

    vm.stack.push(Obj::Int(44));
    vm.stack.push(Obj::Int(2));
    vm.tick();
    assert_eq!(Some(Obj::Int(42)), vm.stack.pop());

    vm.stack.push(Obj::Int(40));
    vm.tick();
    assert!(vm.err);    // not enough elements for binary pop

    vm.err = false;
    vm.stack.push(Obj::Str(String::from("hello world")));
    vm.tick();
    assert!(vm.err);    // type mismatch
}

#[test]
fn mul() {
    let data: Vec<u8> = vec![
        b'R', b'i', b'c', b'k', 0,
        // mem: []
        b'[', b']', 0,
        Op::Mul.op(),
        Op::Mul.op(),
        Op::Mul.op(),
    ];
    let vm = VM::new(&data);
    if let Err(_) = vm {
        panic!("expected Ok");
    }

    let mut vm = vm.unwrap();

    vm.stack.push(Obj::Int(21));
    vm.stack.push(Obj::Int(2));
    vm.tick();
    assert_eq!(Some(Obj::Int(42)), vm.stack.pop());

    vm.stack.push(Obj::Int(40));
    vm.tick();
    assert!(vm.err);    // not enough elements for binary pop

    vm.err = false;
    vm.stack.push(Obj::Str(String::from("hello world")));
    vm.tick();
    assert!(vm.err);    // type mismatch
}

#[test]
fn div() {
    let data: Vec<u8> = vec![
        b'R', b'i', b'c', b'k', 0,
        // mem: []
        b'[', b']', 0,
        Op::Div.op(),
        Op::Div.op(),
        Op::Div.op(),
    ];
    let vm = VM::new(&data);
    if let Err(_) = vm {
        panic!("expected Ok");
    }

    let mut vm = vm.unwrap();

    vm.stack.push(Obj::Int(84));
    vm.stack.push(Obj::Int(2));
    vm.tick();
    assert_eq!(Some(Obj::Int(42)), vm.stack.pop());

    vm.stack.push(Obj::Int(40));
    vm.tick();
    assert!(vm.err);    // not enough elements for binary pop

    vm.err = false;
    vm.stack.push(Obj::Str(String::from("hello world")));
    vm.tick();
    assert!(vm.err);    // type mismatch
}

#[test]
fn modulo() {
    let data: Vec<u8> = vec![
        b'R', b'i', b'c', b'k', 0,
        // mem: []
        b'[', b']', 0,
        Op::Mod.op(),
        Op::Mod.op(),
        Op::Mod.op(),
    ];
    let vm = VM::new(&data);
    if let Err(_) = vm {
        panic!("expected Ok");
    }

    let mut vm = vm.unwrap();

    vm.stack.push(Obj::Int(84));
    vm.stack.push(Obj::Int(2));
    vm.tick();
    assert_eq!(Some(Obj::Int(0)), vm.stack.pop());

    vm.stack.push(Obj::Int(40));
    vm.tick();
    assert!(vm.err);    // not enough elements for binary pop

    vm.err = false;
    vm.stack.push(Obj::Str(String::from("hello world")));
    vm.tick();
    assert!(vm.err);    // type mismatch
}

#[test]
fn gth() {
    let data: Vec<u8> = vec![
        b'R', b'i', b'c', b'k', 0,
        // mem: []
        b'[', b']', 0,
        Op::Gth.op(),
        Op::Gth.op(),
        Op::Gth.op(),
        Op::Gth.op(),
    ];
    let vm = VM::new(&data);
    if let Err(_) = vm {
        panic!("expected Ok");
    }

    let mut vm = vm.unwrap();

    vm.stack.push(Obj::Int(84));
    vm.stack.push(Obj::Int(2));
    vm.tick();
    assert_eq!(Some(Obj::Int(1)), vm.stack.pop());

    vm.stack.push(Obj::Int(0));
    vm.stack.push(Obj::Int(2));
    vm.tick();
    assert_eq!(Some(Obj::Int(0)), vm.stack.pop());

    vm.stack.push(Obj::Int(40));
    vm.tick();
    assert!(vm.err);    // not enough elements for binary pop

    vm.err = false;
    vm.stack.push(Obj::Str(String::from("hello world")));
    vm.tick();
    assert!(vm.err);    // type mismatch
}

#[test]
fn lth() {
    let data: Vec<u8> = vec![
        b'R', b'i', b'c', b'k', 0,
        // mem: []
        b'[', b']', 0,
        Op::Lth.op(),
        Op::Lth.op(),
        Op::Lth.op(),
        Op::Lth.op(),
    ];
    let vm = VM::new(&data);
    if let Err(_) = vm {
        panic!("expected Ok");
    }

    let mut vm = vm.unwrap();

    vm.stack.push(Obj::Int(84));
    vm.stack.push(Obj::Int(2));
    vm.tick();
    assert_eq!(Some(Obj::Int(0)), vm.stack.pop());

    vm.stack.push(Obj::Int(0));
    vm.stack.push(Obj::Int(2));
    vm.tick();
    assert_eq!(Some(Obj::Int(1)), vm.stack.pop());

    vm.stack.push(Obj::Int(40));
    vm.tick();
    assert!(vm.err);    // not enough elements for binary pop

    vm.err = false;
    vm.stack.push(Obj::Str(String::from("hello world")));
    vm.tick();
    assert!(vm.err);    // type mismatch
}

#[test]
fn geq() {
    let data: Vec<u8> = vec![
        b'R', b'i', b'c', b'k', 0,
        // mem: []
        b'[', b']', 0,
        Op::Geq.op(),
        Op::Geq.op(),
        Op::Geq.op(),
        Op::Geq.op(),
        Op::Geq.op(),
    ];
    let vm = VM::new(&data);
    if let Err(_) = vm {
        panic!("expected Ok");
    }

    let mut vm = vm.unwrap();

    vm.stack.push(Obj::Int(84));
    vm.stack.push(Obj::Int(2));
    vm.tick();
    assert_eq!(Some(Obj::Int(1)), vm.stack.pop());

    vm.stack.push(Obj::Int(2));
    vm.stack.push(Obj::Int(2));
    vm.tick();
    assert_eq!(Some(Obj::Int(1)), vm.stack.pop());

    vm.stack.push(Obj::Int(0));
    vm.stack.push(Obj::Int(2));
    vm.tick();
    assert_eq!(Some(Obj::Int(0)), vm.stack.pop());

    vm.stack.push(Obj::Int(40));
    vm.tick();
    assert!(vm.err);    // not enough elements for binary pop

    vm.err = false;
    vm.stack.push(Obj::Str(String::from("hello world")));
    vm.tick();
    assert!(vm.err);    // type mismatch
}

#[test]
fn leq() {
    let data: Vec<u8> = vec![
        b'R', b'i', b'c', b'k', 0,
        // mem: []
        b'[', b']', 0,
        Op::Leq.op(),
        Op::Leq.op(),
        Op::Leq.op(),
        Op::Leq.op(),
        Op::Leq.op(),
    ];
    let vm = VM::new(&data);
    if let Err(_) = vm {
        panic!("expected Ok");
    }

    let mut vm = vm.unwrap();

    vm.stack.push(Obj::Int(84));
    vm.stack.push(Obj::Int(2));
    vm.tick();
    assert_eq!(Some(Obj::Int(0)), vm.stack.pop());

    vm.stack.push(Obj::Int(2));
    vm.stack.push(Obj::Int(2));
    vm.tick();
    assert_eq!(Some(Obj::Int(1)), vm.stack.pop());

    vm.stack.push(Obj::Int(0));
    vm.stack.push(Obj::Int(2));
    vm.tick();
    assert_eq!(Some(Obj::Int(1)), vm.stack.pop());

    vm.stack.push(Obj::Int(40));
    vm.tick();
    assert!(vm.err);    // not enough elements for binary pop

    vm.err = false;
    vm.stack.push(Obj::Str(String::from("hello world")));
    vm.tick();
    assert!(vm.err);    // type mismatch
}

#[test]
fn push_does_not_mutate_memory() {
    let data: Vec<u8> = vec![
        b'R', b'i', b'c', b'k', 0,
        b'[', b'4', b'2', b',', b'7', b']', 0,
        Op::Push.op(), 0, 0, 0, 1,
    ];
    let mut vm = VM::new(&data).unwrap();
    vm.tick();
    assert!(!vm.err);
    assert_eq!(Some(Obj::Int(7)), vm.stack.pop());
    assert_eq!(vec![Obj::Int(42), Obj::Int(7)], vm.mem);
}

#[test]
fn pop_out_of_bounds_faults() {
    let data: Vec<u8> = vec![
        b'R', b'i', b'c', b'k', 0,
        b'[', b']', 0,
        Op::Pop.op(), 0, 0, 0, 0,
    ];
    let mut vm = VM::new(&data).unwrap();
    vm.stack.push(Obj::Int(1));
    vm.tick();
    assert!(vm.err);
    assert_eq!(Some(Fault::MemoryPointerOutOfBounds), vm.fault);
}

#[test]
fn out_underflow_faults() {
    let data: Vec<u8> = vec![
        b'R', b'i', b'c', b'k', 0,
        b'[', b']', 0,
        Op::Out.op(),
    ];
    let mut vm = VM::new(&data).unwrap();
    vm.tick();
    assert!(vm.err);
    assert_eq!(Some(Fault::EmptyStackPop), vm.fault);
}

#[test]
fn out_prints_without_consuming() {
    let data: Vec<u8> = vec![
        b'R', b'i', b'c', b'k', 0,
        b'[', b']', 0,
        Op::Out.op(),
        Op::Nl.op(),
    ];
    let mut vm = VM::new(&data).unwrap();
    vm.stack.push(Obj::Int(42));
    vm.tick();
    assert!(!vm.err);
    assert_eq!(1, vm.stack.len());
    vm.tick();
    assert_eq!(
        vec![OutItem::Value(Obj::Int(42)), OutItem::Newline],
        vm.output,
    );
}

#[test]
fn bool_on_null_faults() {
    let data: Vec<u8> = vec![
        b'R', b'i', b'c', b'k', 0,
        b'[', b']', 0,
        Op::Bool.op(),
    ];
    let mut vm = VM::new(&data).unwrap();
    vm.stack.push(Obj::Null);
    vm.tick();
    assert!(vm.err);
    assert_eq!(Some(Fault::NullCoercion), vm.fault);
}

#[test]
fn div_by_zero_faults() {
    let data: Vec<u8> = vec![
        b'R', b'i', b'c', b'k', 0,
        b'[', b']', 0,
        Op::Div.op(),
    ];
    let mut vm = VM::new(&data).unwrap();
    vm.stack.push(Obj::Int(1));
    vm.stack.push(Obj::Int(0));
    vm.tick();
    assert!(vm.err);
    assert_eq!(Some(Fault::DivisionByZero), vm.fault);
}

#[test]
fn mod_by_zero_faults() {
    let data: Vec<u8> = vec![
        b'R', b'i', b'c', b'k', 0,
        b'[', b']', 0,
        Op::Mod.op(),
    ];
    let mut vm = VM::new(&data).unwrap();
    vm.stack.push(Obj::Int(1));
    vm.stack.push(Obj::Int(0));
    vm.tick();
    assert!(vm.err);
    assert_eq!(Some(Fault::DivisionByZero), vm.fault);
}

#[test]
fn min_divided_by_minus_one_wraps() {
    let data: Vec<u8> = vec![
        b'R', b'i', b'c', b'k', 0,
        b'[', b']', 0,
        Op::Div.op(),
    ];
    let mut vm = VM::new(&data).unwrap();
    vm.stack.push(Obj::Int(i64::MIN));
    vm.stack.push(Obj::Int(-1));
    vm.tick();
    assert!(!vm.err);
    assert_eq!(Some(Obj::Int(i64::MIN)), vm.stack.pop());
}

#[test]
fn type_mismatch_carries_both_operands() {
    let data: Vec<u8> = vec![
        b'R', b'i', b'c', b'k', 0,
        b'[', b']', 0,
        Op::Add.op(),
    ];
    let mut vm = VM::new(&data).unwrap();
    vm.stack.push(Obj::Int(1));
    vm.stack.push(Obj::Str(String::from("two")));
    vm.tick();
    assert!(vm.err);
    assert_eq!(
        Some(Fault::TypeMismatch(Obj::Int(1), Obj::Str(String::from("two")))),
        vm.fault,
    );
}

#[test]
fn truncated_operand_faults() {
    let data: Vec<u8> = vec![
        b'R', b'i', b'c', b'k', 0,
        b'[', b']', 0,
        Op::Push.op(), 0, 0,
    ];
    let mut vm = VM::new(&data).unwrap();
    vm.tick();
    assert!(vm.err);
    assert_eq!(Some(Fault::TruncatedOperand), vm.fault);
}

#[test]
fn running_off_the_end_faults() {
    let data: Vec<u8> = vec![
        b'R', b'i', b'c', b'k', 0,
        b'[', b']', 0,
        Op::Nl.op(),
    ];
    let mut vm = VM::new(&data).unwrap();
    vm.tick();
    assert!(!vm.err);
    vm.tick();
    assert!(vm.err);
    assert_eq!(Some(Fault::InstructionPointerOutOfBounds), vm.fault);
}

#[test]
fn ini_awaits_and_parses_input() {
    let data: Vec<u8> = vec![
        b'R', b'i', b'c', b'k', 0,
        b'[', b']', 0,
        Op::Ini.op(),
        Op::Ini.op(),
    ];
    let mut vm = VM::new(&data).unwrap();
    vm.tick();
    assert_eq!(Some(InputKind::Int), vm.awaiting);
    vm.feed(String::from("42"));
    assert_eq!(None, vm.awaiting);
    assert_eq!(Some(Obj::Int(42)), vm.stack.pop());

    vm.tick();
    vm.feed(String::from("not a number"));
    assert!(vm.err);
    assert_eq!(Some(Fault::ParseFailure), vm.fault);
}

#[test]
fn ins_awaits_and_pushes_line() {
    let data: Vec<u8> = vec![
        b'R', b'i', b'c', b'k', 0,
        b'[', b']', 0,
        Op::Ins.op(),
    ];
    let mut vm = VM::new(&data).unwrap();
    vm.tick();
    assert_eq!(Some(InputKind::Line), vm.awaiting);
    vm.feed(String::from("hello world"));
    assert_eq!(Some(Obj::Str(String::from("hello world"))), vm.stack.pop());
}

#[test]
fn feed_without_request_is_ignored() {
    let data = "Rick\0[]\0\0".as_bytes().to_vec();
    let mut vm = VM::new(&data).unwrap();
    vm.feed(String::from("42"));
    assert!(vm.stack.empty());
    assert!(!vm.err);
}

#[test]
fn boot_runs_to_end() {
    let data: Vec<u8> = vec![
        b'R', b'i', b'c', b'k', 0,
        b'[', b'4', b'2', b']', 0,
        Op::Push.op(), 0, 0, 0, 0,
        Op::Out.op(),
        Op::Nl.op(),
        Op::End.op(),
    ];
    let mut vm = VM::new(&data).unwrap();
    vm.boot();
    assert!(!vm.run);
    assert!(!vm.err);
    assert_eq!(
        vec![OutItem::Value(Obj::Int(42)), OutItem::Newline],
        vm.output,
    );
}

#[test]
fn boot_pauses_for_input_and_resumes() {
    let data: Vec<u8> = vec![
        b'R', b'i', b'c', b'k', 0,
        b'[', b']', 0,
        Op::Ini.op(),
        Op::Out.op(),
        Op::End.op(),
    ];
    let mut vm = VM::new(&data).unwrap();
    vm.boot();
    assert!(vm.run);
    assert!(!vm.err);
    assert_eq!(Some(InputKind::Int), vm.awaiting);
    vm.feed(String::from("-7"));
    vm.boot();
    assert!(!vm.run);
    assert_eq!(vec![OutItem::Value(Obj::Int(-7))], vm.output);
}

#[test]
fn end_to_end_out_of_bounds_push() {
    let data: Vec<u8> = vec![
        b'R', b'i', b'c', b'k', 0,
        b'[', b'4', b'2', b']', 0,
        Op::Push.op(), 0, 0, 0, 0,
        Op::Push.op(), 0, 0, 0, 1,
    ];
    let mut vm = VM::new(&data).unwrap();
    vm.tick();
    assert!(!vm.err);
    assert_eq!(Some(&Obj::Int(42)), vm.stack.peek());
    vm.tick();
    assert!(vm.err);
    assert_eq!(Some(Fault::MemoryPointerOutOfBounds), vm.fault);

    // The same image, booted from scratch, halts with the fault rather
    // than crashing, at the offset past the faulting instruction.
    let mut vm = VM::new(&data).unwrap();
    vm.boot();
    assert!(vm.err);
    assert_eq!(Some(Fault::MemoryPointerOutOfBounds), vm.fault);
    assert_eq!(10, vm.ip);
}
