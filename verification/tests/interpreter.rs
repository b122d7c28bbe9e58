use ironjdk::class::pool::ConstantPool;
use ironjdk::code::instruction::Instruction;
use ironjdk::runtime::class::RuntimeMethod;
use ironjdk::runtime::interpreter::{
    interpret, interpret_instruction, run, Heap, IntArray, InterpreterError, StackFrame,
    StackValue, Step,
};

fn method_of(max_stack: u16, max_locals: u16, code: Vec<Instruction>) -> RuntimeMethod {
    RuntimeMethod { max_stack, max_locals, code }
}

#[test]
fn new_frame_has_empty_locals_and_stack() {
    let frame = StackFrame::new_frame(2, 3);
    assert_eq!(frame.locals, vec![StackValue::Empty, StackValue::Empty, StackValue::Empty]);
    assert!(frame.stack.is_empty());
}

#[test]
fn push_two_three_add_leaves_five() {
    let method = method_of(2, 0, vec![Instruction::Iconst2, Instruction::Iconst3, Instruction::Iadd]);
    let end = interpret(&method, &ConstantPool::new()).unwrap();
    assert_eq!(end.frame.stack, vec![StackValue::Integer(5)]);
}

#[test]
fn push_two_three_add_on_a_larger_frame() {
    let mut frame = StackFrame::new_frame(8, 4);
    let mut heap = Heap::new();
    let code = vec![Instruction::Sipush(2), Instruction::Sipush(3), Instruction::Iadd];
    assert_eq!(run(&code, &mut frame, &mut heap), Ok(()));
    assert_eq!(frame.stack, vec![StackValue::Integer(5)]);
    assert_eq!(frame.locals, vec![StackValue::Empty; 4]);
    assert!(heap.arrays.is_empty());
}

#[test]
fn array_is_shared_between_copies_of_its_reference() {
    // int[] a = new int[3]; store 42 at index 0 through one copy of the
    // reference, load index 0 through the other
    let code = vec![
        Instruction::Iconst3,
        Instruction::Newarray { atype: 10 },
        Instruction::Dup,
        Instruction::Iconst0,
        Instruction::Sipush(42),
        Instruction::Iastore,
        Instruction::Iconst0,
        Instruction::Iaload,
    ];
    let end = interpret(&method_of(4, 0, code), &ConstantPool::new()).unwrap();
    assert_eq!(end.frame.stack, vec![StackValue::Integer(42)]);
    assert_eq!(end.heap.arrays, vec![vec![42, 0, 0]]);
}

#[test]
fn array_is_shared_between_a_local_and_the_stack() {
    let code = vec![
        Instruction::Iconst2,
        Instruction::Newarray { atype: 10 },
        Instruction::Dup,
        Instruction::Astore1,
        Instruction::Iconst1,
        Instruction::Iconst5,
        Instruction::Iastore,
        Instruction::Aload1,
        Instruction::Iconst1,
        Instruction::Iaload,
    ];
    let end = interpret(&method_of(4, 2, code), &ConstantPool::new()).unwrap();
    assert_eq!(end.frame.stack, vec![StackValue::Integer(5)]);
    assert_eq!(
        end.frame.locals,
        vec![StackValue::Empty, StackValue::IntegerArrayReference(IntArray { id: 0 })]
    );
    assert_eq!(end.heap.arrays, vec![vec![0, 5]]);
}

#[test]
fn new_array_is_zero_filled() {
    let mut heap = Heap::new();
    let first = IntArray::new(&mut heap, 4);
    let second = IntArray::new(&mut heap, 0);
    assert_eq!(first, IntArray { id: 0 });
    assert_eq!(second, IntArray { id: 1 });
    assert_eq!(heap.arrays, vec![vec![0, 0, 0, 0], vec![]]);
    assert_eq!(first.get(&heap, 3), Ok(0));
}

#[test]
fn array_access_out_of_range_is_a_storage_error() {
    let mut heap = Heap::new();
    let array = IntArray::new(&mut heap, 2);
    assert_eq!(array.set(&mut heap, 1, 9), Ok(()));
    assert_eq!(array.get(&heap, 1), Ok(9));
    assert_eq!(array.get(&heap, 2), Err(InterpreterError::ArrayIndexOutOfBounds));
    assert_eq!(array.set(&mut heap, 2, 1), Err(InterpreterError::ArrayIndexOutOfBounds));
    assert_eq!(heap.arrays, vec![vec![0, 9]]);
}

#[test]
fn array_load_out_of_range_stops_the_method() {
    let code = vec![
        Instruction::Iconst1,
        Instruction::Newarray { atype: 10 },
        Instruction::Iconst1,
        Instruction::Iaload,
    ];
    let result = interpret(&method_of(2, 0, code), &ConstantPool::new());
    assert!(matches!(result, Err(InterpreterError::ArrayIndexOutOfBounds)));
}

#[test]
fn array_store_at_negative_index_stops_the_method() {
    let code = vec![
        Instruction::Iconst1,
        Instruction::Newarray { atype: 10 },
        Instruction::Sipush(-1),
        Instruction::Iconst0,
        Instruction::Iastore,
    ];
    let result = interpret(&method_of(3, 0, code), &ConstantPool::new());
    assert!(matches!(result, Err(InterpreterError::ArrayIndexOutOfBounds)));
}

#[test]
fn only_integer_arrays_can_be_made() {
    // 4 is the element-type code of boolean
    let code = vec![Instruction::Iconst1, Instruction::Newarray { atype: 4 }];
    let result = interpret(&method_of(1, 0, code), &ConstantPool::new());
    assert!(matches!(result, Err(InterpreterError::InvalidArrayType)));
}

#[test]
fn negative_array_size_is_refused() {
    let code = vec![Instruction::Sipush(-3), Instruction::Newarray { atype: 10 }];
    let result = interpret(&method_of(1, 0, code), &ConstantPool::new());
    assert!(matches!(result, Err(InterpreterError::NegativeArraySize)));
}

#[test]
fn subtract_takes_the_top_as_second_operand() {
    let code = vec![Instruction::Iconst5, Instruction::Iconst2, Instruction::Isub];
    let end = interpret(&method_of(2, 0, code), &ConstantPool::new()).unwrap();
    assert_eq!(end.frame.stack, vec![StackValue::Integer(3)]);
}

#[test]
fn multiply() {
    let code = vec![Instruction::Iconst4, Instruction::Sipush(-6), Instruction::Imul];
    let end = interpret(&method_of(2, 0, code), &ConstantPool::new()).unwrap();
    assert_eq!(end.frame.stack, vec![StackValue::Integer(-24)]);
}

#[test]
fn arithmetic_wraps_around() {
    let mut frame = StackFrame::new_frame(2, 0);
    let mut heap = Heap::new();
    frame.push_int(i32::MAX);
    frame.push_int(1);
    assert_eq!(interpret_instruction(&Instruction::Iadd, &mut frame, &mut heap), Ok(Step::Next));
    assert_eq!(frame.stack, vec![StackValue::Integer(i32::MIN)]);

    frame.push_int(1);
    assert_eq!(interpret_instruction(&Instruction::Isub, &mut frame, &mut heap), Ok(Step::Next));
    assert_eq!(frame.stack, vec![StackValue::Integer(i32::MAX)]);

    frame.push_int(2);
    assert_eq!(interpret_instruction(&Instruction::Imul, &mut frame, &mut heap), Ok(Step::Next));
    assert_eq!(frame.stack, vec![StackValue::Integer(-2)]);
}

#[test]
fn constants_zero_to_five() {
    let code = vec![
        Instruction::Iconst0,
        Instruction::Iconst1,
        Instruction::Iconst2,
        Instruction::Iconst3,
        Instruction::Iconst4,
        Instruction::Iconst5,
        Instruction::Sipush(-32768),
    ];
    let end = interpret(&method_of(7, 0, code), &ConstantPool::new()).unwrap();
    let expected: Vec<StackValue> =
        [0, 1, 2, 3, 4, 5, -32768].iter().map(|i| StackValue::Integer(*i)).collect();
    assert_eq!(end.frame.stack, expected);
}

#[test]
fn store_and_load_locals() {
    let code = vec![
        Instruction::Iconst1,
        Instruction::Istore0,
        Instruction::Iconst2,
        Instruction::Istore1,
        Instruction::Iconst3,
        Instruction::Istore2,
        Instruction::Iconst4,
        Instruction::Istore3,
        Instruction::Iconst5,
        Instruction::Istore(4),
        Instruction::Iload { index: 4 },
        Instruction::Iload3,
        Instruction::Iload2,
        Instruction::Iload1,
        Instruction::Iload0,
    ];
    let end = interpret(&method_of(5, 5, code), &ConstantPool::new()).unwrap();
    let locals: Vec<StackValue> = (1..=5).map(StackValue::Integer).collect();
    let stack: Vec<StackValue> = (1..=5).rev().map(StackValue::Integer).collect();
    assert_eq!(end.frame.locals, locals);
    assert_eq!(end.frame.stack, stack);
}

#[test]
fn loading_an_unset_local_is_an_operand_error() {
    let result = interpret(&method_of(1, 1, vec![Instruction::Iload0]), &ConstantPool::new());
    assert!(matches!(result, Err(InterpreterError::UnexpectedOperand)));
    let result = interpret(&method_of(1, 2, vec![Instruction::Aload1]), &ConstantPool::new());
    assert!(matches!(result, Err(InterpreterError::UnexpectedOperand)));
}

#[test]
fn loading_a_mistyped_local_is_an_operand_error() {
    let code = vec![
        Instruction::Iconst1,
        Instruction::Newarray { atype: 10 },
        Instruction::Astore1,
        Instruction::Iload1,
    ];
    let result = interpret(&method_of(1, 2, code), &ConstantPool::new());
    assert!(matches!(result, Err(InterpreterError::UnexpectedOperand)));
    let code = vec![Instruction::Iconst1, Instruction::Istore1, Instruction::Aload1];
    let result = interpret(&method_of(1, 2, code), &ConstantPool::new());
    assert!(matches!(result, Err(InterpreterError::UnexpectedOperand)));
}

#[test]
fn a_local_outside_the_frame_is_refused() {
    let result = interpret(&method_of(1, 1, vec![Instruction::Iload1]), &ConstantPool::new());
    assert!(matches!(result, Err(InterpreterError::LocalIndexOutOfBounds)));
    let code = vec![Instruction::Iconst0, Instruction::Istore(9)];
    let result = interpret(&method_of(1, 1, code), &ConstantPool::new());
    assert!(matches!(result, Err(InterpreterError::LocalIndexOutOfBounds)));
}

#[test]
fn an_empty_stack_is_refused() {
    for instruction in [Instruction::Iadd, Instruction::Dup, Instruction::Istore0, Instruction::Astore1] {
        let result = interpret(&method_of(1, 2, vec![instruction]), &ConstantPool::new());
        assert!(matches!(result, Err(InterpreterError::StackUnderflow)));
    }
}

#[test]
fn adding_a_reference_is_an_operand_error() {
    let code = vec![
        Instruction::Iconst1,
        Instruction::Newarray { atype: 10 },
        Instruction::Iconst1,
        Instruction::Iadd,
    ];
    let result = interpret(&method_of(2, 0, code), &ConstantPool::new());
    assert!(matches!(result, Err(InterpreterError::UnexpectedOperand)));
}

#[test]
fn a_failed_instruction_keeps_what_it_had_not_taken() {
    let mut frame = StackFrame::new_frame(3, 0);
    let mut heap = Heap::new();
    frame.push_int(7);
    frame.push_stack(StackValue::Long(1));
    frame.push_int(8);
    // the top is an integer, the value below it is not
    assert_eq!(
        interpret_instruction(&Instruction::Iadd, &mut frame, &mut heap),
        Err(InterpreterError::UnexpectedOperand)
    );
    assert_eq!(frame.stack, vec![StackValue::Integer(7)]);
}

#[test]
fn return_ends_the_method_with_the_stack_as_it_is() {
    let code = vec![
        Instruction::Iconst1,
        Instruction::Iconst2,
        Instruction::Return,
        Instruction::Iadd,
    ];
    let end = interpret(&method_of(2, 0, code), &ConstantPool::new()).unwrap();
    assert_eq!(end.frame.stack, vec![StackValue::Integer(1), StackValue::Integer(2)]);
    let mut frame = StackFrame::new_frame(0, 0);
    let mut heap = Heap::new();
    assert_eq!(
        interpret_instruction(&Instruction::Return, &mut frame, &mut heap),
        Ok(Step::Return)
    );
}

#[test]
fn an_instruction_without_meaning_is_reported() {
    let code = vec![Instruction::Iconst1, Instruction::Goto { offset: -1 }];
    let result = interpret(&method_of(1, 0, code), &ConstantPool::new());
    assert_eq!(
        result.unwrap_err(),
        InterpreterError::UnhandledInstruction(Instruction::Goto { offset: -1 })
    );
    let result = interpret(&method_of(1, 0, vec![Instruction::Nop]), &ConstantPool::new());
    assert_eq!(result.unwrap_err(), InterpreterError::UnhandledInstruction(Instruction::Nop));
}

#[test]
fn the_first_error_stops_the_method() {
    let code = vec![Instruction::Iconst1, Instruction::Iadd, Instruction::Iconst2];
    let mut frame = StackFrame::new_frame(2, 0);
    let mut heap = Heap::new();
    assert_eq!(run(&code, &mut frame, &mut heap), Err(InterpreterError::StackUnderflow));
    assert!(frame.stack.is_empty());
}

#[test]
fn duplicate_pushes_two_copies() {
    let code = vec![Instruction::Iconst4, Instruction::Dup];
    let end = interpret(&method_of(2, 0, code), &ConstantPool::new()).unwrap();
    assert_eq!(end.frame.stack, vec![StackValue::Integer(4), StackValue::Integer(4)]);
}

#[test]
fn frame_accessors() {
    let mut frame = StackFrame::new_frame(2, 2);
    frame.set_int_local(0, 11);
    frame.set_local(1, StackValue::Short(3));
    assert_eq!(frame.get_int_local(0), Ok(11));
    assert_eq!(frame.get_int_local(1), Err(InterpreterError::UnexpectedOperand));
    assert_eq!(*frame.get_local(1), StackValue::Short(3));
    assert_eq!(frame.pop_stack(), None);
    assert_eq!(frame.pop_int(), Err(InterpreterError::StackUnderflow));
    frame.push_stack(StackValue::Character('x'));
    assert_eq!(frame.pop_int(), Err(InterpreterError::UnexpectedOperand));
    assert!(frame.stack.is_empty());
    frame.push_int(5);
    assert_eq!(frame.pop_int_array(), Err(InterpreterError::UnexpectedOperand));
    frame.push_stack(StackValue::IntegerArrayReference(IntArray { id: 3 }));
    assert_eq!(frame.pop_int_array(), Ok(IntArray { id: 3 }));
    assert_eq!(frame.pop_int_array(), Err(InterpreterError::StackUnderflow));
}
