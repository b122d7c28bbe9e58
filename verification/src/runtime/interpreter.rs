//! The stack-frame interpreter: one frame, a heap of integer arrays, and
//! the meaning of each instruction as a step from one state to the next.

use vstd::prelude::*;
use crate::class::pool::ConstantPool;
use crate::code::instruction::Instruction;
use crate::runtime::class::RuntimeMethod;

verus! {

/// Why a method stopped before its end.
#[derive(Clone, Copy, Debug, PartialEq, Eq, Structural)]
pub enum InterpreterError {
    /// The instruction has no meaning here yet; carries it.
    UnhandledInstruction(Instruction),
    /// An operand or a local is not of the kind that the instruction needs.
    UnexpectedOperand,
    /// An array of elements other than integers was asked for.
    InvalidArrayType,
    /// The instruction needs more operands than the stack holds.
    StackUnderflow,
    /// The instruction names a local that the frame does not have.
    LocalIndexOutOfBounds,
    /// An array was read or written outside its length.
    ArrayIndexOutOfBounds,
    /// An array of negative length was asked for.
    NegativeArraySize,
}

/// A reference to an integer array: the array's place on the heap. Copies
/// of a reference name the same array.
#[derive(Clone, Copy, Debug, PartialEq, Eq, Structural)]
pub struct IntArray {
    pub id: usize,
}

/// The integer arrays that a run has allocated, each at the place where
/// its references find it. Arrays are never freed or moved.
#[derive(Debug)]
pub struct Heap {
    pub arrays: Vec<Vec<i32>>,
}

impl View for Heap {
    type V = Seq<Seq<i32>>;

    open spec fn view(&self) -> Seq<Seq<i32>> {
        self.arrays@.map_values(|a: Vec<i32>| a@)
    }
}

impl Heap {
    /// A heap without arrays.
    pub fn new() -> (r: Heap)
        ensures
            r@ == Seq::<Seq<i32>>::empty(),
    {
        let r = Heap { arrays: Vec::new() };
        assert(r@ =~= Seq::<Seq<i32>>::empty());
        r
    }
}

impl IntArray {
    /// Whether the reference names an array of `heap`.
    pub open spec fn valid(self, heap: Seq<Seq<i32>>) -> bool {
        self.id < heap.len()
    }

    /// Allocates an array of `size` zeros at the end of the heap and gives
    /// the reference to it. The arrays that were there stay as they are.
    pub fn new(heap: &mut Heap, size: usize) -> (r: IntArray)
        ensures
            r.id == old(heap)@.len(),
            final(heap)@ == old(heap)@.push(Seq::new(size as nat, |i: int| 0i32)),
    {
        let array: Vec<i32> = vec![0; size];
        let id = heap.arrays.len();
        heap.arrays.push(array);
        assert(array@ =~= Seq::new(size as nat, |i: int| 0i32));
        assert(heap@ =~= old(heap)@.push(array@));
        IntArray { id }
    }

    /// The element at `index`, or the out-of-bounds error where the array
    /// is shorter.
    pub fn get(&self, heap: &Heap, index: usize) -> (r: Result<i32, InterpreterError>)
        requires
            self.valid(heap@),
        ensures
            r == spec_array_load(heap@, *self, index as int),
    {
        let array = &heap.arrays[self.id];
        if index < array.len() {
            Ok(array[index])
        } else {
            Err(InterpreterError::ArrayIndexOutOfBounds)
        }
    }

    /// Writes `value` at `index`, or fails with the out-of-bounds error and
    /// changes nothing where the array is shorter. Every reference to the
    /// array sees the write; other arrays are untouched.
    pub fn set(&self, heap: &mut Heap, index: usize, value: i32) -> (r: Result<
        (),
        InterpreterError,
    >)
        requires
            self.valid(old(heap)@),
        ensures
            (r, final(heap)@) == spec_array_store(old(heap)@, *self, index as int, value),
    {
        if index < heap.arrays[self.id].len() {
            heap.arrays[self.id][index] = value;
            assert(heap@ =~= old(heap)@.update(
                self.id as int,
                old(heap)@[self.id as int].update(index as int, value),
            ));
            Ok(())
        } else {
            Err(InterpreterError::ArrayIndexOutOfBounds)
        }
    }
}

/// What storing `value` at `index` of the array `array` gives: the heap
/// with that one element replaced, or the out-of-bounds error and the heap
/// as it was.
pub open spec fn spec_array_store(heap: Seq<Seq<i32>>, array: IntArray, index: int, value: i32) -> (
    Result<(), InterpreterError>,
    Seq<Seq<i32>>,
) {
    if 0 <= index < heap[array.id as int].len() {
        (Ok(()), heap.update(array.id as int, heap[array.id as int].update(index, value)))
    } else {
        (Err(InterpreterError::ArrayIndexOutOfBounds), heap)
    }
}

/// What loading the element at `index` of the array `array` gives.
pub open spec fn spec_array_load(heap: Seq<Seq<i32>>, array: IntArray, index: int) -> Result<
    i32,
    InterpreterError,
> {
    if 0 <= index < heap[array.id as int].len() {
        Ok(heap[array.id as int][index])
    } else {
        Err(InterpreterError::ArrayIndexOutOfBounds)
    }
}

/// A store that goes through is seen by every later load through any copy
/// of the reference: the array's other elements, and every other array,
/// are as they were.
pub proof fn lemma_store_is_shared(
    heap: Seq<Seq<i32>>,
    array: IntArray,
    index: int,
    value: i32,
    other: IntArray,
    at: int,
)
    requires
        array.valid(heap),
        other.valid(heap),
        spec_array_store(heap, array, index, value).0 is Ok,
    ensures
        spec_array_store(heap, array, index, value).1.len() == heap.len(),
        other.id == array.id ==> spec_array_load(
            spec_array_store(heap, array, index, value).1,
            other,
            index,
        ) == Ok::<i32, InterpreterError>(value),
        other.id != array.id || at != index ==> spec_array_load(
            spec_array_store(heap, array, index, value).1,
            other,
            at,
        ) == spec_array_load(heap, other, at),
{
}

/// A value of a local or of the operand stack. `Empty` marks a local that
/// nothing was stored in yet.
#[derive(Clone, Copy, Debug, PartialEq, Eq, Structural)]
pub enum StackValue {
    Long(i64),
    Integer(i32),
    Short(i16),
    Byte(i8),
    Character(char),
    IntegerArrayReference(IntArray),
    Empty,
}

/// One invocation's frame: its locals, as many as the method declares, and
/// its operand stack, whose top is the last element.
#[derive(Debug)]
pub struct StackFrame {
    pub locals: Vec<StackValue>,
    pub stack: Vec<StackValue>,
}

/// The mathematical value of a [`StackFrame`].
pub ghost struct StackFrameView {
    pub locals: Seq<StackValue>,
    pub stack: Seq<StackValue>,
}

impl View for StackFrame {
    type V = StackFrameView;

    open spec fn view(&self) -> StackFrameView {
        StackFrameView { locals: self.locals@, stack: self.stack@ }
    }
}

/// Taking the top of a stack: the value and the stack below it, or nothing
/// and the stack as it was, which is then empty.
pub open spec fn spec_pop(stack: Seq<StackValue>) -> (Option<StackValue>, Seq<StackValue>) {
    if stack.len() == 0 {
        (None, stack)
    } else {
        (Some(stack.last()), stack.drop_last())
    }
}

/// Taking an integer off a stack. An empty stack fails and stays as it is;
/// a top of another kind is taken and refused.
pub open spec fn spec_pop_int(stack: Seq<StackValue>) -> (
    Result<i32, InterpreterError>,
    Seq<StackValue>,
) {
    if stack.len() == 0 {
        (Err(InterpreterError::StackUnderflow), stack)
    } else {
        match stack.last() {
            StackValue::Integer(i) => (Ok(i), stack.drop_last()),
            _ => (Err(InterpreterError::UnexpectedOperand), stack.drop_last()),
        }
    }
}

/// Taking an array reference off a stack. An empty stack fails and stays
/// as it is; a top of another kind is taken and refused.
pub open spec fn spec_pop_int_array(stack: Seq<StackValue>) -> (
    Result<IntArray, InterpreterError>,
    Seq<StackValue>,
) {
    if stack.len() == 0 {
        (Err(InterpreterError::StackUnderflow), stack)
    } else {
        match stack.last() {
            StackValue::IntegerArrayReference(array) => (Ok(array), stack.drop_last()),
            _ => (Err(InterpreterError::UnexpectedOperand), stack.drop_last()),
        }
    }
}

/// The integer in a local, or the operand error where the local holds
/// anything else.
pub open spec fn spec_int_local(locals: Seq<StackValue>, index: int) -> Result<
    i32,
    InterpreterError,
>
    recommends
        0 <= index < locals.len(),
{
    match locals[index] {
        StackValue::Integer(i) => Ok(i),
        _ => Err(InterpreterError::UnexpectedOperand),
    }
}

impl StackFrame {
    /// Takes the top of the operand stack, if there is one.
    pub fn pop_stack(&mut self) -> (r: Option<StackValue>)
        ensures
            (r, final(self).stack@) == spec_pop(old(self).stack@),
            final(self).locals@ == old(self).locals@,
    {
        self.stack.pop()
    }

    /// Puts `operand` on top of the operand stack.
    pub fn push_stack(&mut self, operand: StackValue)
        ensures
            final(self).stack@ == old(self).stack@.push(operand),
            final(self).locals@ == old(self).locals@,
    {
        self.stack.push(operand)
    }

    /// The value of local `index`.
    pub fn get_local(&self, index: usize) -> (r: &StackValue)
        requires
            index < self.locals@.len(),
        ensures
            *r == self.locals@[index as int],
    {
        &self.locals[index]
    }

    /// Stores `var` in local `index`.
    pub fn set_local(&mut self, index: usize, var: StackValue)
        requires
            index < old(self).locals@.len(),
        ensures
            final(self).locals@ == old(self).locals@.update(index as int, var),
            final(self).stack@ == old(self).stack@,
    {
        self.locals[index] = var;
    }

    /// Puts an integer on top of the operand stack.
    pub fn push_int(&mut self, integer: i32)
        ensures
            final(self).stack@ == old(self).stack@.push(StackValue::Integer(integer)),
            final(self).locals@ == old(self).locals@,
    {
        self.push_stack(StackValue::Integer(integer))
    }

    /// Takes an integer off the operand stack.
    pub fn pop_int(&mut self) -> (r: Result<i32, InterpreterError>)
        ensures
            (r, final(self).stack@) == spec_pop_int(old(self).stack@),
            final(self).locals@ == old(self).locals@,
    {
        match self.pop_stack() {
            None => Err(InterpreterError::StackUnderflow),
            Some(StackValue::Integer(i)) => Ok(i),
            Some(_) => Err(InterpreterError::UnexpectedOperand),
        }
    }

    /// Takes an array reference off the operand stack.
    pub fn pop_int_array(&mut self) -> (r: Result<IntArray, InterpreterError>)
        ensures
            (r, final(self).stack@) == spec_pop_int_array(old(self).stack@),
            final(self).locals@ == old(self).locals@,
    {
        match self.pop_stack() {
            None => Err(InterpreterError::StackUnderflow),
            Some(StackValue::IntegerArrayReference(array)) => Ok(array),
            Some(_) => Err(InterpreterError::UnexpectedOperand),
        }
    }

    /// The integer in local `index`.
    pub fn get_int_local(&self, index: usize) -> (r: Result<i32, InterpreterError>)
        requires
            index < self.locals@.len(),
        ensures
            r == spec_int_local(self.locals@, index as int),
    {
        match self.get_local(index) {
            StackValue::Integer(i) => Ok(*i),
            _ => Err(InterpreterError::UnexpectedOperand),
        }
    }

    /// Stores an integer in local `index`.
    pub fn set_int_local(&mut self, index: usize, value: i32)
        requires
            index < old(self).locals@.len(),
        ensures
            final(self).locals@ == old(self).locals@.update(
                index as int,
                StackValue::Integer(value),
            ),
            final(self).stack@ == old(self).stack@,
    {
        self.set_local(index, StackValue::Integer(value))
    }

    /// A fresh frame: `max_locals` locals, none of them set, and an empty
    /// operand stack. The stack may grow past `max_stack`.
    pub fn new_frame(max_stack: u16, max_locals: u16) -> (r: StackFrame)
        ensures
            r@ == spec_new_frame(max_locals as nat),
    {
        let locals: Vec<StackValue> = vec![StackValue::Empty; max_locals as usize];
        let stack: Vec<StackValue> = Vec::new();
        let r = StackFrame { locals, stack };
        assert(r@.locals =~= spec_new_frame(max_locals as nat).locals);
        assert(r@.stack =~= spec_new_frame(max_locals as nat).stack);
        r
    }
}

/// The frame that a method with `max_locals` locals starts in.
pub open spec fn spec_new_frame(max_locals: nat) -> StackFrameView {
    StackFrameView {
        locals: Seq::new(max_locals, |i: int| StackValue::Empty),
        stack: Seq::empty(),
    }
}

/// Whether a run goes on after an instruction.
#[derive(Clone, Copy, Debug, PartialEq, Eq, Structural)]
pub enum Step {
    /// The next instruction in sequence is due.
    Next,
    /// The method has returned.
    Return,
}

/// The whole state of a run: the frame's locals and operand stack, and the
/// heap that its references point into.
pub ghost struct Machine {
    pub locals: Seq<StackValue>,
    pub stack: Seq<StackValue>,
    pub heap: Seq<Seq<i32>>,
}

/// The state that a frame and a heap make together.
pub open spec fn machine_of(frame: StackFrameView, heap: Seq<Seq<i32>>) -> Machine {
    Machine { locals: frame.locals, stack: frame.stack, heap }
}

/// Whether a value, where it is a reference, names an array of `heap`.
pub open spec fn value_valid(value: StackValue, heap: Seq<Seq<i32>>) -> bool {
    match value {
        StackValue::IntegerArrayReference(array) => array.valid(heap),
        _ => true,
    }
}

/// Whether every reference in the locals and on the stack names an array
/// of the heap. A fresh frame with any heap is well formed, and every
/// instruction keeps a well-formed state well formed.
pub open spec fn well_formed(m: Machine) -> bool {
    &&& forall|i: int| 0 <= i < m.locals.len() ==> value_valid(#[trigger] m.locals[i], m.heap)
    &&& forall|i: int| 0 <= i < m.stack.len() ==> value_valid(#[trigger] m.stack[i], m.heap)
}

/// What one instruction does: whether the run goes on or why it stops, and
/// the state it leaves. A failed instruction leaves the state as it was
/// when the failure showed, with the operands it had taken gone.
pub ghost struct Stepped {
    pub result: Result<Step, InterpreterError>,
    pub machine: Machine,
}

/// The instruction went through and the run goes on in state `m`.
pub open spec fn proceed(m: Machine) -> Stepped {
    Stepped { result: Ok(Step::Next), machine: m }
}

/// The instruction failed with `e` in state `m`.
pub open spec fn fail(e: InterpreterError, m: Machine) -> Stepped {
    Stepped { result: Err(e), machine: m }
}

/// Pushing a constant.
pub open spec fn step_push_int(m: Machine, value: i32) -> Stepped {
    proceed(Machine { stack: m.stack.push(StackValue::Integer(value)), ..m })
}

/// Loading an integer local: its value goes on the stack. A local that the
/// frame lacks, or that holds no integer, fails and changes nothing.
pub open spec fn step_load_int(m: Machine, index: int) -> Stepped {
    if index >= m.locals.len() {
        fail(InterpreterError::LocalIndexOutOfBounds, m)
    } else {
        match spec_int_local(m.locals, index) {
            Ok(value) => step_push_int(m, value),
            Err(e) => fail(e, m),
        }
    }
}

/// Storing an integer local: the integer on top of the stack goes into the
/// local.
pub open spec fn step_store_int(m: Machine, index: int) -> Stepped {
    let popped = spec_pop_int(m.stack);
    let after = Machine { stack: popped.1, ..m };
    match popped.0 {
        Err(e) => fail(e, after),
        Ok(value) => if index >= m.locals.len() {
            fail(InterpreterError::LocalIndexOutOfBounds, after)
        } else {
            proceed(Machine { locals: m.locals.update(index, StackValue::Integer(value)), ..after })
        },
    }
}

/// Loading a reference local: the reference goes on the stack. A local
/// that the frame lacks, or that holds no reference, fails and changes
/// nothing.
pub open spec fn step_load_reference(m: Machine, index: int) -> Stepped {
    if index >= m.locals.len() {
        fail(InterpreterError::LocalIndexOutOfBounds, m)
    } else {
        match m.locals[index] {
            StackValue::IntegerArrayReference(array) => proceed(
                Machine { stack: m.stack.push(m.locals[index]), ..m },
            ),
            _ => fail(InterpreterError::UnexpectedOperand, m),
        }
    }
}

/// Storing a reference local: the top of the stack, whatever it is, goes
/// into the local.
pub open spec fn step_store_top(m: Machine, index: int) -> Stepped {
    let popped = spec_pop(m.stack);
    let after = Machine { stack: popped.1, ..m };
    match popped.0 {
        None => fail(InterpreterError::StackUnderflow, after),
        Some(value) => if index >= m.locals.len() {
            fail(InterpreterError::LocalIndexOutOfBounds, after)
        } else {
            proceed(Machine { locals: m.locals.update(index, value), ..after })
        },
    }
}

/// Duplicating the top of the stack.
pub open spec fn step_dup(m: Machine) -> Stepped {
    if m.stack.len() == 0 {
        fail(InterpreterError::StackUnderflow, m)
    } else {
        proceed(Machine { stack: m.stack.push(m.stack.last()), ..m })
    }
}

/// The result of an arithmetic instruction on `value1` and `value2`, in
/// 32-bit two's complement: a result out of range wraps around.
pub open spec fn arithmetic(instruction: Instruction, value1: i32, value2: i32) -> i32 {
    match instruction {
        Instruction::Iadd => vstd::wrapping::i32_specs::wrapping_add(value1, value2),
        Instruction::Isub => vstd::wrapping::i32_specs::wrapping_sub(value1, value2),
        _ => vstd::wrapping::i32_specs::wrapping_mul(value1, value2),
    }
}

/// An arithmetic instruction: the top of the stack is the second operand,
/// the value below it the first; the result takes their place.
pub open spec fn step_arithmetic(m: Machine, instruction: Instruction) -> Stepped {
    let second = spec_pop_int(m.stack);
    match second.0 {
        Err(e) => fail(e, Machine { stack: second.1, ..m }),
        Ok(value2) => {
            let first = spec_pop_int(second.1);
            match first.0 {
                Err(e) => fail(e, Machine { stack: first.1, ..m }),
                Ok(value1) => step_push_int(
                    Machine { stack: first.1, ..m },
                    arithmetic(instruction, value1, value2),
                ),
            }
        },
    }
}

/// The element-type code of an integer array.
pub const ARRAY_TYPE_INT: u8 = 10;

/// Allocating an array: the count comes off the stack, and a reference to
/// a new array of that many zeros goes on. Only integer arrays can be
/// made, and a count below zero is refused.
pub open spec fn step_new_array(m: Machine, atype: u8) -> Stepped {
    let popped = spec_pop_int(m.stack);
    let after = Machine { stack: popped.1, ..m };
    match popped.0 {
        Err(e) => fail(e, after),
        Ok(count) => if atype != ARRAY_TYPE_INT {
            fail(InterpreterError::InvalidArrayType, after)
        } else if count < 0 {
            fail(InterpreterError::NegativeArraySize, after)
        } else {
            proceed(
                Machine {
                    stack: popped.1.push(
                        StackValue::IntegerArrayReference(IntArray { id: m.heap.len() as usize }),
                    ),
                    heap: m.heap.push(Seq::new(count as nat, |i: int| 0i32)),
                    ..m
                },
            )
        },
    }
}

/// Loading an array element: the index, then the reference come off the
/// stack, and the element goes on.
pub open spec fn step_array_load(m: Machine) -> Stepped {
    let index = spec_pop_int(m.stack);
    match index.0 {
        Err(e) => fail(e, Machine { stack: index.1, ..m }),
        Ok(at) => {
            let array = spec_pop_int_array(index.1);
            let after = Machine { stack: array.1, ..m };
            match array.0 {
                Err(e) => fail(e, after),
                Ok(reference) => match spec_array_load(m.heap, reference, at as int) {
                    Err(e) => fail(e, after),
                    Ok(value) => step_push_int(after, value),
                },
            }
        },
    }
}

/// Storing an array element: the value, the index and the reference come
/// off the stack, and the array's element is replaced.
pub open spec fn step_array_store(m: Machine) -> Stepped {
    let value = spec_pop_int(m.stack);
    match value.0 {
        Err(e) => fail(e, Machine { stack: value.1, ..m }),
        Ok(stored) => {
            let index = spec_pop_int(value.1);
            match index.0 {
                Err(e) => fail(e, Machine { stack: index.1, ..m }),
                Ok(at) => {
                    let array = spec_pop_int_array(index.1);
                    let after = Machine { stack: array.1, ..m };
                    match array.0 {
                        Err(e) => fail(e, after),
                        Ok(reference) => {
                            let written = spec_array_store(m.heap, reference, at as int, stored);
                            match written.0 {
                                Err(e) => fail(e, after),
                                Ok(_) => proceed(Machine { heap: written.1, ..after }),
                            }
                        },
                    }
                },
            }
        },
    }
}

/// The meaning of one instruction in state `m`.
pub open spec fn spec_step(instruction: Instruction, m: Machine) -> Stepped {
    match instruction {
        Instruction::Aload1 => step_load_reference(m, 1),
        Instruction::Astore1 => step_store_top(m, 1),
        Instruction::Dup => step_dup(m),
        Instruction::Iadd | Instruction::Isub | Instruction::Imul => step_arithmetic(
            m,
            instruction,
        ),
        Instruction::Iaload => step_array_load(m),
        Instruction::Iastore => step_array_store(m),
        Instruction::Iconst0 => step_push_int(m, 0),
        Instruction::Iconst1 => step_push_int(m, 1),
        Instruction::Iconst2 => step_push_int(m, 2),
        Instruction::Iconst3 => step_push_int(m, 3),
        Instruction::Iconst4 => step_push_int(m, 4),
        Instruction::Iconst5 => step_push_int(m, 5),
        Instruction::Iload { index } => step_load_int(m, index as int),
        Instruction::Iload0 => step_load_int(m, 0),
        Instruction::Iload1 => step_load_int(m, 1),
        Instruction::Iload2 => step_load_int(m, 2),
        Instruction::Iload3 => step_load_int(m, 3),
        Instruction::Istore(index) => step_store_int(m, index as int),
        Instruction::Istore0 => step_store_int(m, 0),
        Instruction::Istore1 => step_store_int(m, 1),
        Instruction::Istore2 => step_store_int(m, 2),
        Instruction::Istore3 => step_store_int(m, 3),
        Instruction::Newarray { atype } => step_new_array(m, atype),
        Instruction::Sipush(value) => step_push_int(m, value),
        Instruction::Return => Stepped { result: Ok(Step::Return), machine: m },
        _ => fail(InterpreterError::UnhandledInstruction(instruction), m),
    }
}

/// A step's result together with the state that a frame and a heap make.
pub open spec fn stepped(
    result: Result<Step, InterpreterError>,
    frame: StackFrameView,
    heap: Seq<Seq<i32>>,
) -> Stepped {
    Stepped { result, machine: machine_of(frame, heap) }
}

/// Every instruction leaves a well-formed state well formed, whether it
/// goes through or fails: no reference ever names an array that the heap
/// lacks. The frame keeps its number of locals, and the heap loses no
/// array.
pub proof fn lemma_step_keeps_well_formed(instruction: Instruction, m: Machine)
    requires
        well_formed(m),
    ensures
        well_formed(spec_step(instruction, m).machine),
        spec_step(instruction, m).machine.locals.len() == m.locals.len(),
        spec_step(instruction, m).machine.heap.len() >= m.heap.len(),
{
    let after = spec_step(instruction, m).machine;
    assert forall|i: int| 0 <= i < after.locals.len() implies value_valid(
        #[trigger] after.locals[i],
        after.heap,
    ) by {
        if i < m.locals.len() {
            assert(value_valid(m.locals[i], m.heap));
        }
        if m.stack.len() > 0 {
            assert(value_valid(m.stack[m.stack.len() - 1], m.heap));
        }
    }
    assert forall|i: int| 0 <= i < after.stack.len() implies value_valid(
        #[trigger] after.stack[i],
        after.heap,
    ) by {
        if i < m.stack.len() {
            assert(value_valid(m.stack[i], m.heap));
        }
        if m.stack.len() > 0 {
            assert(value_valid(m.stack[m.stack.len() - 1], m.heap));
        }
        if m.locals.len() > 1 {
            assert(value_valid(m.locals[1], m.heap));
        }
    }
}

/// Loads an integer local onto the stack.
fn load_int(frame: &mut StackFrame, index: usize) -> (r: Result<Step, InterpreterError>)
    ensures
        forall|heap: Seq<Seq<i32>>|
            stepped(r, final(frame)@, heap) == step_load_int(
                #[trigger] machine_of(old(frame)@, heap),
                index as int,
            ),
{
    if index >= frame.locals.len() {
        return Err(InterpreterError::LocalIndexOutOfBounds);
    }
    let value = frame.get_int_local(index)?;
    frame.push_int(value);
    Ok(Step::Next)
}

/// Stores the integer on top of the stack in a local.
fn store_int(frame: &mut StackFrame, index: usize) -> (r: Result<Step, InterpreterError>)
    ensures
        forall|heap: Seq<Seq<i32>>|
            stepped(r, final(frame)@, heap) == step_store_int(
                #[trigger] machine_of(old(frame)@, heap),
                index as int,
            ),
{
    let value = frame.pop_int()?;
    if index >= frame.locals.len() {
        return Err(InterpreterError::LocalIndexOutOfBounds);
    }
    frame.set_int_local(index, value);
    Ok(Step::Next)
}

/// Loads a reference local onto the stack.
fn load_reference(frame: &mut StackFrame, index: usize) -> (r: Result<Step, InterpreterError>)
    ensures
        forall|heap: Seq<Seq<i32>>|
            stepped(r, final(frame)@, heap) == step_load_reference(
                #[trigger] machine_of(old(frame)@, heap),
                index as int,
            ),
{
    if index >= frame.locals.len() {
        return Err(InterpreterError::LocalIndexOutOfBounds);
    }
    let operand = *frame.get_local(index);
    match operand {
        StackValue::IntegerArrayReference(_) => {
            frame.push_stack(operand);
            Ok(Step::Next)
        },
        _ => Err(InterpreterError::UnexpectedOperand),
    }
}

/// Stores the top of the stack in a local.
fn store_top(frame: &mut StackFrame, index: usize) -> (r: Result<Step, InterpreterError>)
    ensures
        forall|heap: Seq<Seq<i32>>|
            stepped(r, final(frame)@, heap) == step_store_top(
                #[trigger] machine_of(old(frame)@, heap),
                index as int,
            ),
{
    let operand = match frame.pop_stack() {
        Some(operand) => operand,
        None => {
            return Err(InterpreterError::StackUnderflow);
        },
    };
    if index >= frame.locals.len() {
        return Err(InterpreterError::LocalIndexOutOfBounds);
    }
    frame.set_local(index, operand);
    Ok(Step::Next)
}

/// Pops two integers and pushes what `instruction` makes of them.
fn arithmetic_step(frame: &mut StackFrame, instruction: &Instruction) -> (r: Result<
    Step,
    InterpreterError,
>)
    ensures
        forall|heap: Seq<Seq<i32>>|
            stepped(r, final(frame)@, heap) == step_arithmetic(
                #[trigger] machine_of(old(frame)@, heap),
                *instruction,
            ),
{
    let value2 = frame.pop_int()?;
    let value1 = frame.pop_int()?;
    let result = match instruction {
        Instruction::Iadd => value1.wrapping_add(value2),
        Instruction::Isub => value1.wrapping_sub(value2),
        _ => value1.wrapping_mul(value2),
    };
    frame.push_int(result);
    Ok(Step::Next)
}

/// Executes one instruction against the frame and the heap. The state must
/// be well formed and stays so. The result says whether the run goes on,
/// has returned, or why it stops.
pub fn interpret_instruction(
    instruction: &Instruction,
    stack_frame: &mut StackFrame,
    heap: &mut Heap,
) -> (r: Result<Step, InterpreterError>)
    requires
        well_formed(machine_of(old(stack_frame)@, old(heap)@)),
    ensures
        stepped(r, final(stack_frame)@, final(heap)@) == spec_step(
            *instruction,
            machine_of(old(stack_frame)@, old(heap)@),
        ),
        well_formed(machine_of(final(stack_frame)@, final(heap)@)),
        final(stack_frame).locals@.len() == old(stack_frame).locals@.len(),
{
    proof {
        lemma_step_keeps_well_formed(*instruction, machine_of(stack_frame@, heap@));
    }
    match instruction {
        Instruction::Aload1 => load_reference(stack_frame, 1),
        Instruction::Astore1 => store_top(stack_frame, 1),
        Instruction::Dup => {
            let operand = match stack_frame.pop_stack() {
                Some(operand) => operand,
                None => {
                    return Err(InterpreterError::StackUnderflow);
                },
            };
            stack_frame.push_stack(operand);
            stack_frame.push_stack(operand);
            assert(stack_frame.stack@ =~= old(stack_frame).stack@.push(
                old(stack_frame).stack@.last(),
            ));
            Ok(Step::Next)
        },
        Instruction::Iadd | Instruction::Isub | Instruction::Imul => arithmetic_step(
            stack_frame,
            instruction,
        ),
        Instruction::Iaload => {
            let index = stack_frame.pop_int()?;
            let array = stack_frame.pop_int_array()?;
            if index < 0 {
                return Err(InterpreterError::ArrayIndexOutOfBounds);
            }
            let value = array.get(heap, index as usize)?;
            stack_frame.push_int(value);
            Ok(Step::Next)
        },
        Instruction::Iastore => {
            let value = stack_frame.pop_int()?;
            let index = stack_frame.pop_int()?;
            let array = stack_frame.pop_int_array()?;
            if index < 0 {
                return Err(InterpreterError::ArrayIndexOutOfBounds);
            }
            array.set(heap, index as usize, value)?;
            Ok(Step::Next)
        },
        Instruction::Iconst0 => {
            stack_frame.push_int(0);
            Ok(Step::Next)
        },
        Instruction::Iconst1 => {
            stack_frame.push_int(1);
            Ok(Step::Next)
        },
        Instruction::Iconst2 => {
            stack_frame.push_int(2);
            Ok(Step::Next)
        },
        Instruction::Iconst3 => {
            stack_frame.push_int(3);
            Ok(Step::Next)
        },
        Instruction::Iconst4 => {
            stack_frame.push_int(4);
            Ok(Step::Next)
        },
        Instruction::Iconst5 => {
            stack_frame.push_int(5);
            Ok(Step::Next)
        },
        Instruction::Iload { index } => load_int(stack_frame, *index as usize),
        Instruction::Iload0 => load_int(stack_frame, 0),
        Instruction::Iload1 => load_int(stack_frame, 1),
        Instruction::Iload2 => load_int(stack_frame, 2),
        Instruction::Iload3 => load_int(stack_frame, 3),
        Instruction::Istore(index) => store_int(stack_frame, *index as usize),
        Instruction::Istore0 => store_int(stack_frame, 0),
        Instruction::Istore1 => store_int(stack_frame, 1),
        Instruction::Istore2 => store_int(stack_frame, 2),
        Instruction::Istore3 => store_int(stack_frame, 3),
        Instruction::Newarray { atype } => {
            let count = stack_frame.pop_int()?;
            if *atype != ARRAY_TYPE_INT {
                return Err(InterpreterError::InvalidArrayType);
            }
            if count < 0 {
                return Err(InterpreterError::NegativeArraySize);
            }
            let array = IntArray::new(heap, count as usize);
            stack_frame.push_stack(StackValue::IntegerArrayReference(array));
            Ok(Step::Next)
        },
        Instruction::Sipush(value) => {
            stack_frame.push_int(*value);
            Ok(Step::Next)
        },
        Instruction::Return => Ok(Step::Return),
        x => Err(InterpreterError::UnhandledInstruction(*x)),
    }
}

/// How a run ended: normally or with the error that stopped it, and the
/// state it was in then.
pub ghost struct Ran {
    pub result: Result<(), InterpreterError>,
    pub machine: Machine,
}

/// The run of `code` from instruction `at` in state `m`. Instructions run
/// in sequence order; the run ends normally at a return or after the last
/// instruction, and the first error ends it for good, in the state that
/// the failing instruction left.
pub open spec fn spec_run(code: Seq<Instruction>, at: int, m: Machine) -> Ran
    decreases code.len() - at,
{
    if at < 0 || at >= code.len() {
        Ran { result: Ok(()), machine: m }
    } else {
        let step = spec_step(code[at], m);
        match step.result {
            Err(e) => Ran { result: Err(e), machine: step.machine },
            Ok(Step::Return) => Ran { result: Ok(()), machine: step.machine },
            Ok(Step::Next) => spec_run(code, at + 1, step.machine),
        }
    }
}

/// The state in which a method with `max_locals` locals starts: no local
/// set, nothing on the stack, nothing on the heap.
pub open spec fn initial_machine(max_locals: nat) -> Machine {
    machine_of(spec_new_frame(max_locals), Seq::empty())
}

/// The state that a run has ended in.
#[derive(Debug)]
pub struct Execution {
    pub frame: StackFrame,
    pub heap: Heap,
}

impl View for Execution {
    type V = Machine;

    open spec fn view(&self) -> Machine {
        machine_of(self.frame@, self.heap@)
    }
}

/// Runs `code` from its first instruction against the frame and the heap,
/// which must be well formed and stay so. On success they hold the state
/// at the return, or after the last instruction where none returns. On
/// failure they are left as the failing instruction left them.
pub fn run(code: &Vec<Instruction>, stack_frame: &mut StackFrame, heap: &mut Heap) -> (r: Result<
    (),
    InterpreterError,
>)
    requires
        well_formed(machine_of(old(stack_frame)@, old(heap)@)),
    ensures
        (Ran { result: r, machine: machine_of(final(stack_frame)@, final(heap)@) }) == spec_run(
            code@,
            0,
            machine_of(old(stack_frame)@, old(heap)@),
        ),
        well_formed(machine_of(final(stack_frame)@, final(heap)@)),
{
    let mut at: usize = 0;
    while at < code.len()
        invariant
            at <= code.len(),
            well_formed(machine_of(stack_frame@, heap@)),
            spec_run(code@, at as int, machine_of(stack_frame@, heap@)) == spec_run(
                code@,
                0,
                machine_of(old(stack_frame)@, old(heap)@),
            ),
        decreases code.len() - at,
    {
        match interpret_instruction(&code[at], stack_frame, heap) {
            Err(e) => {
                return Err(e);
            },
            Ok(Step::Return) => {
                return Ok(());
            },
            Ok(Step::Next) => {
                at += 1;
            },
        }
    }
    Ok(())
}

/// Runs a method in a fresh frame of its declared number of locals, with
/// an empty heap, and gives the state in which it ended or the error that
/// stopped it. The constant pool is the one that the method's operands
/// refer to; no instruction that runs today consults it.
pub fn interpret(method: &RuntimeMethod, cp: &ConstantPool) -> (r: Result<
    Execution,
    InterpreterError,
>)
    ensures
        match r {
            Ok(end) => spec_run(method.code@, 0, initial_machine(method.max_locals as nat)).result
                is Ok && spec_run(
                method.code@,
                0,
                initial_machine(method.max_locals as nat),
            ).machine == end@ && well_formed(end@),
            Err(e) => spec_run(method.code@, 0, initial_machine(method.max_locals as nat)).result
                == Err::<(), _>(e),
        },
{
    let mut frame = StackFrame::new_frame(method.max_stack, method.max_locals);
    let mut heap = Heap::new();
    match run(&method.code, &mut frame, &mut heap) {
        Ok(_) => Ok(Execution { frame, heap }),
        Err(e) => Err(e),
    }
}

/// Pushing two integers and adding them leaves, on top of what the stack
/// held, their sum in 32-bit arithmetic and nothing else; the locals and
/// the heap are as they were.
pub proof fn lemma_push_push_add(m: Machine, a: i32, b: i32)
    ensures
        spec_run(seq![Instruction::Sipush(a), Instruction::Sipush(b), Instruction::Iadd], 0, m)
            == (Ran {
            result: Ok(()),
            machine: Machine {
                stack: m.stack.push(
                    StackValue::Integer(vstd::wrapping::i32_specs::wrapping_add(a, b)),
                ),
                ..m
            },
        }),
{
    let code = seq![Instruction::Sipush(a), Instruction::Sipush(b), Instruction::Iadd];
    reveal_with_fuel(spec_run, 4);
    let first = m.stack.push(StackValue::Integer(a));
    let second = first.push(StackValue::Integer(b));
    assert(second.drop_last() =~= first);
    assert(first.drop_last() =~= m.stack);
    assert(code[0] == Instruction::Sipush(a));
    assert(code[1] == Instruction::Sipush(b));
    assert(code[2] == Instruction::Iadd);
}

/// Allocating an array of `count` integers, duplicating the reference,
/// storing `value` at `index` through one copy and loading `index` through
/// the other leaves the reference and then `value` on the stack: the two
/// copies name one array.
pub proof fn lemma_store_seen_through_copy(m: Machine, count: i32, index: i32, value: i32)
    requires
        0 <= index < count,
        m.heap.len() <= usize::MAX,
    ensures
        spec_run(
            seq![
                Instruction::Sipush(count),
                Instruction::Newarray { atype: ARRAY_TYPE_INT },
                Instruction::Dup,
                Instruction::Dup,
                Instruction::Sipush(index),
                Instruction::Sipush(value),
                Instruction::Iastore,
                Instruction::Sipush(index),
                Instruction::Iaload,
            ],
            0,
            m,
        ) == (Ran {
            result: Ok(()),
            machine: Machine {
                stack: m.stack.push(
                    StackValue::IntegerArrayReference(IntArray { id: m.heap.len() as usize }),
                ).push(StackValue::Integer(value)),
                heap: m.heap.push(Seq::new(count as nat, |i: int| 0i32).update(index as int, value)),
                ..m
            },
        }),
{
    let code = seq![
        Instruction::Sipush(count),
        Instruction::Newarray { atype: ARRAY_TYPE_INT },
        Instruction::Dup,
        Instruction::Dup,
        Instruction::Sipush(index),
        Instruction::Sipush(value),
        Instruction::Iastore,
        Instruction::Sipush(index),
        Instruction::Iaload,
    ];
    let reference = StackValue::IntegerArrayReference(IntArray { id: m.heap.len() as usize });
    let zeros = Seq::new(count as nat, |i: int| 0i32);
    let s0 = m.stack;
    let s1 = s0.push(StackValue::Integer(count));
    let m1 = Machine { stack: s1, ..m };
    assert(spec_step(code[0], m) == proceed(m1));
    assert(s1.drop_last() =~= s0);
    let heap2 = m.heap.push(zeros);
    let s2 = s0.push(reference);
    let m2 = Machine { stack: s2, heap: heap2, ..m };
    assert(spec_step(code[1], m1) == proceed(m2));
    let s3 = s2.push(reference);
    let m3 = Machine { stack: s3, ..m2 };
    assert(spec_step(code[2], m2) == proceed(m3));
    let s4 = s3.push(reference);
    let m4 = Machine { stack: s4, ..m2 };
    assert(spec_step(code[3], m3) == proceed(m4));
    let s5 = s4.push(StackValue::Integer(index));
    let m5 = Machine { stack: s5, ..m2 };
    assert(spec_step(code[4], m4) == proceed(m5));
    let s6 = s5.push(StackValue::Integer(value));
    let m6 = Machine { stack: s6, ..m2 };
    assert(spec_step(code[5], m5) == proceed(m6));
    assert(s6.drop_last() =~= s5);
    assert(s5.drop_last() =~= s4);
    assert(s4.drop_last() =~= s3);
    let heap7 = heap2.update(m.heap.len() as int, zeros.update(index as int, value));
    let m7 = Machine { stack: s3, heap: heap7, ..m };
    assert(spec_step(code[6], m6) == proceed(m7));
    let s8 = s3.push(StackValue::Integer(index));
    let m8 = Machine { stack: s8, ..m7 };
    assert(spec_step(code[7], m7) == proceed(m8));
    assert(s8.drop_last() =~= s3);
    assert(s3.drop_last() =~= s2);
    let m9 = Machine { stack: s2.push(StackValue::Integer(value)), ..m7 };
    assert(spec_step(code[8], m8) == proceed(m9));
    assert(heap7 =~= m.heap.push(zeros.update(index as int, value)));
    reveal_with_fuel(spec_run, 10);
}

} // verus!
