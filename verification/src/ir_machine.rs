//! Running IR programs: a machine that steps through the instructions and
//! terminators of a program's blocks, with a stack of call frames holding
//! the values computed so far. Printing and floating-point arithmetic are
//! handed to the caller as actions, which it performs before the next
//! step.

use vstd::prelude::*;
use std::collections::HashMap;
use crate::error::{ErrorView, OvieError, OvieResult};
use crate::ir::{BasicBlock, Constant, Function, Instruction, Opcode, Program, Terminator, Value};
use crate::text::{append, decimal, owned, push_decimal};

verus! {

broadcast use vstd::std_specs::hash::group_hash_axioms;

/// A value computed while running a program: a string, a number (the
/// bits of an IEEE 754 double), a boolean, or nothing.
#[derive(Debug)]
pub enum RuntimeValue {
    Text(String),
    Number(u64),
    Boolean(bool),
    Null,
}

/// A runtime value as plain values.
pub enum RuntimeView {
    Text(Seq<char>),
    Number(u64),
    Boolean(bool),
    Null,
}

impl View for RuntimeValue {
    type V = RuntimeView;

    open spec fn view(&self) -> RuntimeView {
        match self {
            RuntimeValue::Text(s) => RuntimeView::Text(s@),
            RuntimeValue::Number(b) => RuntimeView::Number(*b),
            RuntimeValue::Boolean(b) => RuntimeView::Boolean(*b),
            RuntimeValue::Null => RuntimeView::Null,
        }
    }
}

impl RuntimeValue {
    /// A copy of the value.
    pub fn duplicate(&self) -> (r: Self)
        ensures
            r@ == self@,
    {
        match self {
            RuntimeValue::Text(s) => RuntimeValue::Text(s.clone()),
            RuntimeValue::Number(b) => RuntimeValue::Number(*b),
            RuntimeValue::Boolean(b) => RuntimeValue::Boolean(*b),
            RuntimeValue::Null => RuntimeValue::Null,
        }
    }
}

/// Whether the bits of a double are those of a zero (of either sign).
pub open spec fn is_zero_bits(bits: u64) -> bool {
    bits == 0 || bits == 0x8000_0000_0000_0000u64
}

/// Whether a value counts as true: a true boolean, a non-zero number, a
/// non-empty string.
pub open spec fn truthy(v: RuntimeView) -> bool {
    match v {
        RuntimeView::Boolean(b) => b,
        RuntimeView::Null => false,
        RuntimeView::Number(bits) => !is_zero_bits(bits),
        RuntimeView::Text(s) => s.len() > 0,
    }
}

/// A floating-point operation that the caller performs.
#[derive(Debug, Clone, Copy, PartialEq, Eq, Structural)]
pub enum FloatOp {
    Add,
    Sub,
    Mul,
    Div,
}

/// What a step hands to the caller: nothing, a value to print, or the
/// floating-point operation whose result (see `IrInterpreter::resume`)
/// completes the instruction.
#[derive(Debug)]
pub enum IrAction {
    Continue,
    Print(RuntimeValue),
    Arithmetic { op: FloatOp, left: u64, right: u64 },
}

/// An action as plain values.
pub enum ActionView {
    Continue,
    Print(RuntimeView),
    Arithmetic(FloatOp, u64, u64),
}

impl View for IrAction {
    type V = ActionView;

    open spec fn view(&self) -> ActionView {
        match self {
            IrAction::Continue => ActionView::Continue,
            IrAction::Print(v) => ActionView::Print(v@),
            IrAction::Arithmetic { op, left, right } => ActionView::Arithmetic(*op, *left, *right),
        }
    }
}

/// A call frame: its function, the values its instructions computed (by
/// value id), and where to go back to when it returns.
#[derive(Debug)]
struct CallFrame {
    function_id: u32,
    locals: HashMap<u32, RuntimeValue>,
    return_address: Option<(u32, u32, usize)>,
}

/// A call frame as plain values.
pub struct FrameView {
    pub function_id: u32,
    pub locals: Map<u32, RuntimeView>,
    pub return_address: Option<(u32, u32, usize)>,
}

/// The state of the machine as plain values: the call frames (innermost
/// last), the current function and block, the position in the block, and
/// the instruction that waits for the result of a floating-point
/// operation.
pub struct MachineView {
    pub frames: Seq<FrameView>,
    pub function: Option<u32>,
    pub block: Option<u32>,
    pub ip: int,
    pub pending: Option<u32>,
}

/// The interpreter of IR programs.
#[derive(Debug)]
pub struct IrInterpreter {
    call_stack: Vec<CallFrame>,
    current_function: Option<u32>,
    current_block: Option<u32>,
    instruction_pointer: usize,
    pending: Option<u32>,
}

impl View for CallFrame {
    type V = FrameView;

    closed spec fn view(&self) -> FrameView {
        FrameView {
            function_id: self.function_id,
            locals: self.locals@.map_values(|v: RuntimeValue| v@),
            return_address: self.return_address,
        }
    }
}

impl View for IrInterpreter {
    type V = MachineView;

    closed spec fn view(&self) -> MachineView {
        MachineView {
            frames: self.call_stack@.map_values(|f: CallFrame| f@),
            function: self.current_function,
            block: self.current_block,
            ip: self.instruction_pointer as int,
            pending: self.pending,
        }
    }
}

/// The value of an operand: a constant as it is; an instruction's result
/// from the innermost frame; a parameter as nothing. No global variable is
/// defined while a program runs.
pub open spec fn eval(m: MachineView, v: Value) -> Result<RuntimeView, Seq<char>> {
    match v {
        Value::Constant(c) => Ok(
            match c {
                Constant::String(s) => RuntimeView::Text(s@),
                Constant::Number(b) => RuntimeView::Number(b),
                Constant::Boolean(b) => RuntimeView::Boolean(b),
                Constant::Void => RuntimeView::Null,
            },
        ),
        Value::Instruction(id) => if m.frames.len() == 0 {
            Err("No call frame"@)
        } else if m.frames.last().locals.contains_key(id) {
            Ok(m.frames.last().locals[id])
        } else {
            Err("Value "@ + decimal(id as nat) + " not found"@)
        },
        Value::Global(name) => Err("Global variable '"@ + name@ + "' not found"@),
        Value::Parameter(_) => Ok(RuntimeView::Null),
    }
}

/// The outcome of arithmetic on two values: a value, or a floating-point
/// operation for the caller.
pub enum ArithView {
    Done(RuntimeView),
    Float(FloatOp, u64, u64),
}

/// Arithmetic on two values: numbers combine by floating-point arithmetic
/// (a division by zero is refused), two strings are joined by `Add`, and
/// anything else is refused.
pub open spec fn arith(op: Opcode, a: RuntimeView, b: RuntimeView) -> Result<ArithView, Seq<char>> {
    match (a, b) {
        (RuntimeView::Number(x), RuntimeView::Number(y)) => {
            if op == Opcode::Add {
                Ok(ArithView::Float(FloatOp::Add, x, y))
            } else if op == Opcode::Sub {
                Ok(ArithView::Float(FloatOp::Sub, x, y))
            } else if op == Opcode::Mul {
                Ok(ArithView::Float(FloatOp::Mul, x, y))
            } else if is_zero_bits(y) {
                Err("Division by zero"@)
            } else {
                Ok(ArithView::Float(FloatOp::Div, x, y))
            }
        },
        (RuntimeView::Text(s), RuntimeView::Text(t)) => if op == Opcode::Add {
            Ok(ArithView::Done(RuntimeView::Text(s + t)))
        } else {
            Err(cannot(op))
        },
        _ => Err(cannot(op)),
    }
}

/// The refusal of arithmetic on values of the wrong kinds.
pub open spec fn cannot(op: Opcode) -> Seq<char> {
    if op == Opcode::Add {
        "Cannot add these types"@
    } else if op == Opcode::Sub {
        "Cannot subtract these types"@
    } else if op == Opcode::Mul {
        "Cannot multiply these types"@
    } else {
        "Cannot divide these types"@
    }
}

/// Whether an opcode is arithmetic the machine performs.
pub open spec fn is_arith(op: Opcode) -> bool {
    op == Opcode::Add || op == Opcode::Sub || op == Opcode::Mul || op == Opcode::Div
}

/// The machine with `v` stored as the result `id` in the innermost frame
/// (when there is one).
pub open spec fn store(m: MachineView, id: u32, v: RuntimeView) -> MachineView {
    if m.frames.len() == 0 {
        m
    } else {
        let f = m.frames.last();
        MachineView { frames: m.frames.update(m.frames.len() - 1, FrameView { locals: f.locals.insert(id, v), ..f }), ..m }
    }
}

/// The machine moved on to the next instruction.
pub open spec fn advance(m: MachineView) -> MachineView {
    MachineView { ip: m.ip + 1, ..m }
}

/// Running one instruction: printing hands the value to print and stores
/// nothing; arithmetic stores its value, or waits for the caller's
/// floating-point result; other instructions store nothing.
pub open spec fn instruction_step(m: MachineView, ins: Instruction) -> Result<(MachineView, ActionView), Seq<char>> {
    if ins.opcode == Opcode::Print {
        if ins.operands@.len() > 0 {
            match eval(m, ins.operands@[0]) {
                Err(e) => Err(e),
                Ok(v) => Ok((advance(store(m, ins.id, RuntimeView::Null)), ActionView::Print(v))),
            }
        } else {
            Ok((advance(store(m, ins.id, RuntimeView::Null)), ActionView::Continue))
        }
    } else if is_arith(ins.opcode) {
        match eval(m, ins.operands@[0]) {
            Err(e) => Err(e),
            Ok(a) => match eval(m, ins.operands@[1]) {
                Err(e) => Err(e),
                Ok(b) => match arith(ins.opcode, a, b) {
                    Err(e) => Err(e),
                    Ok(ArithView::Done(v)) => Ok((advance(store(m, ins.id, v)), ActionView::Continue)),
                    Ok(ArithView::Float(op, x, y)) => Ok(
                        (advance(MachineView { pending: Some(ins.id), ..m }), ActionView::Arithmetic(op, x, y)),
                    ),
                },
            },
        }
    } else {
        Ok((advance(store(m, ins.id, RuntimeView::Null)), ActionView::Continue))
    }
}

/// Running a block's terminator: a return pops the innermost frame and
/// goes back to the caller (the machine stops with the last frame); a
/// branch goes to its block (a conditional one by the truth of its
/// condition); unreachable code is an error.
pub open spec fn terminator_step(m: MachineView, t: Terminator) -> Result<(MachineView, ActionView), Seq<char>> {
    match t {
        Terminator::Return { .. } => {
            let frames = if m.frames.len() == 0 {
                m.frames
            } else {
                m.frames.drop_last()
            };
            if frames.len() > 0 {
                let top = frames.last();
                match top.return_address {
                    Some((_, b, ip)) => Ok(
                        (
                            MachineView { frames, function: Some(top.function_id), block: Some(b), ip: ip as int, ..m },
                            ActionView::Continue,
                        ),
                    ),
                    None => Ok((MachineView { frames, function: Some(top.function_id), ..m }, ActionView::Continue)),
                }
            } else {
                Ok((MachineView { frames, function: None, block: None, ..m }, ActionView::Continue))
            }
        },
        Terminator::Branch { target } => Ok((MachineView { block: Some(target), ip: 0, ..m }, ActionView::Continue)),
        Terminator::ConditionalBranch { condition, true_target, false_target } => match eval(m, condition) {
            Err(e) => Err(e),
            Ok(v) => Ok(
                (
                    MachineView {
                        block: Some(
                            if truthy(v) {
                                true_target
                            } else {
                                false_target
                            },
                        ),
                        ip: 0,
                        ..m
                    },
                    ActionView::Continue,
                ),
            ),
        },
        Terminator::Unreachable => Err("Reached unreachable code"@),
    }
}

/// One step of the machine on a program: the next instruction of the
/// current block, or its terminator once its instructions are done.
pub open spec fn step_spec(m: MachineView, p: Program) -> Result<(MachineView, ActionView), Seq<char>> {
    match m.function {
        None => Err("No current function"@),
        Some(fid) => match m.block {
            None => Err("No current block"@),
            Some(bid) => if !p.functions@.contains_key(fid) {
                Err("Function not found"@)
            } else if !p.functions@[fid].basic_blocks@.contains_key(bid) {
                Err("Block not found"@)
            } else {
                let b = p.functions@[fid].basic_blocks@[bid];
                if 0 <= m.ip < b.instructions@.len() {
                    instruction_step(m, b.instructions@[m.ip])
                } else {
                    terminator_step(m, b.terminator)
                }
            },
        },
    }
}

/// Every arithmetic instruction of a program has two operands.
pub open spec fn operands_complete(p: Program) -> bool {
    forall|fid: u32, bid: u32, i: int|
        #![trigger p.functions@[fid].basic_blocks@[bid].instructions@[i]]
        p.functions@.contains_key(fid) && p.functions@[fid].basic_blocks@.contains_key(bid) && 0 <= i
            < p.functions@[fid].basic_blocks@[bid].instructions@.len() && is_arith(
            p.functions@[fid].basic_blocks@[bid].instructions@[i].opcode,
        ) ==> p.functions@[fid].basic_blocks@[bid].instructions@[i].operands@.len() >= 2
}

fn runtime_error(message: String) -> (r: OvieError)
    ensures
        r@ == ErrorView::RuntimeError(message@),
{
    OvieError::RuntimeError { message }
}

/// Whether a result is the runtime error `m`.
pub open spec fn fails_with<T>(r: OvieResult<T>, m: Seq<char>) -> bool {
    r is Err && r->Err_0@ == ErrorView::RuntimeError(m)
}

impl IrInterpreter {
    /// Whether an arithmetic step waits for its result.
    pub fn is_waiting(&self) -> (r: bool)
        ensures
            r == (self@.pending is Some),
    {
        self.pending.is_some()
    }

    /// An interpreter that runs nothing yet.
    pub fn new() -> (r: Self)
        ensures
            r@.frames.len() == 0,
            r@.function is None,
            r@.block is None,
            r@.ip == 0,
            r@.pending is None,
    {
        let r = IrInterpreter {
            call_stack: Vec::new(),
            current_function: None,
            current_block: None,
            instruction_pointer: 0,
            pending: None,
        };
        assert(r@.frames =~= Seq::<FrameView>::empty());
        r
    }

    /// Whether a program is running: some call frame remains.
    pub fn is_running(&self) -> (r: bool)
        ensures
            r == (self@.frames.len() > 0),
    {
        self.call_stack.len() > 0
    }

    /// Start running a program at its entry point: a frame for the entry
    /// function, at the start of its entry block.
    pub fn start(&mut self, program: &Program) -> (r: OvieResult<()>)
        ensures
            match program.entry_point {
                None => fails_with(r, "No entry point found"@) && final(self)@ == old(self)@,
                Some(e) => if !program.functions@.contains_key(e) {
                    fails_with(r, "Entry function not found"@) && final(self)@ == old(self)@
                } else {
                    &&& r is Ok
                    &&& final(self)@ == (MachineView {
                        frames: old(self)@.frames.push(
                            FrameView { function_id: e, locals: Map::empty(), return_address: None },
                        ),
                        function: Some(e),
                        block: Some(program.functions@[e].entry_block),
                        ip: 0,
                        pending: old(self)@.pending,
                    })
                },
            },
    {
        let e = match program.entry_point {
            None => {
                return Err(runtime_error(owned("No entry point found")));
            },
            Some(e) => e,
        };
        let f = match program.functions.get(&e) {
            None => {
                return Err(runtime_error(owned("Entry function not found")));
            },
            Some(f) => f,
        };
        let frame = CallFrame { function_id: e, locals: HashMap::new(), return_address: None };
        assert(frame@.locals =~= Map::<u32, RuntimeView>::empty());
        let ghost before = self.call_stack@;
        self.call_stack.push(frame);
        assert(self.call_stack@.map_values(|f: CallFrame| f@) =~= before.map_values(|f: CallFrame| f@).push(frame@));
        self.current_function = Some(e);
        self.current_block = Some(f.entry_block);
        self.instruction_pointer = 0;
        Ok(())
    }

    fn eval_value(&self, v: &Value) -> (r: OvieResult<RuntimeValue>)
        ensures
            match eval(self@, *v) {
                Ok(x) => r matches Ok(y) && y@ == x,
                Err(m) => fails_with(r, m),
            },
    {
        match v {
            Value::Constant(c) => Ok(
                match c {
                    Constant::String(s) => RuntimeValue::Text(s.clone()),
                    Constant::Number(b) => RuntimeValue::Number(*b),
                    Constant::Boolean(b) => RuntimeValue::Boolean(*b),
                    Constant::Void => RuntimeValue::Null,
                },
            ),
            Value::Instruction(id) => {
                let n = self.call_stack.len();
                if n == 0 {
                    return Err(runtime_error(owned("No call frame")));
                }
                let frame = &self.call_stack[n - 1];
                assert(self@.frames.last() == frame@);
                match frame.locals.get(id) {
                    Some(x) => Ok(x.duplicate()),
                    None => {
                        let mut m = owned("Value ");
                        push_decimal(&mut m, *id as u64);
                        append(&mut m, " not found");
                        Err(runtime_error(m))
                    },
                }
            },
            Value::Global(name) => {
                let mut m = owned("Global variable '");
                append(&mut m, name.as_str());
                append(&mut m, "' not found");
                Err(runtime_error(m))
            },
            Value::Parameter(_) => Ok(RuntimeValue::Null),
        }
    }

    fn store_value(&mut self, id: u32, v: RuntimeValue)
        ensures
            final(self)@ == store(old(self)@, id, v@),
    {
        if self.call_stack.len() > 0 {
            let ghost before = self.call_stack@;
            let mut frame = self.call_stack.pop().unwrap();
            frame.locals.insert(id, v);
            assert(frame@.locals =~= before.last()@.locals.insert(id, v@));
            self.call_stack.push(frame);
            assert(self.call_stack@.map_values(|f: CallFrame| f@) =~= before.map_values(|f: CallFrame| f@).update(
                before.len() - 1,
                FrameView { locals: before.last()@.locals.insert(id, v@), ..before.last()@ },
            ));
        }
    }
}

impl IrInterpreter {
    fn run_instruction(&mut self, ins: &Instruction) -> (r: OvieResult<IrAction>)
        requires
            is_arith(ins.opcode) ==> ins.operands@.len() >= 2,
            old(self)@.ip < usize::MAX,
        ensures
            match instruction_step(old(self)@, *ins) {
                Ok((m, a)) => r matches Ok(x) && x@ == a && final(self)@ == m,
                Err(e) => fails_with(r, e) && final(self)@ == old(self)@,
            },
    {
        if ins.opcode == Opcode::Print {
            if ins.operands.len() > 0 {
                let v = match self.eval_value(&ins.operands[0]) {
                    Err(e) => {
                        return Err(e);
                    },
                    Ok(v) => v,
                };
                self.store_value(ins.id, RuntimeValue::Null);
                self.instruction_pointer = self.instruction_pointer + 1;
                Ok(IrAction::Print(v))
            } else {
                self.store_value(ins.id, RuntimeValue::Null);
                self.instruction_pointer = self.instruction_pointer + 1;
                Ok(IrAction::Continue)
            }
        } else if ins.opcode == Opcode::Add || ins.opcode == Opcode::Sub || ins.opcode == Opcode::Mul || ins.opcode
            == Opcode::Div {
            let a = match self.eval_value(&ins.operands[0]) {
                Err(e) => {
                    return Err(e);
                },
                Ok(v) => v,
            };
            let b = match self.eval_value(&ins.operands[1]) {
                Err(e) => {
                    return Err(e);
                },
                Ok(v) => v,
            };
            let op = ins.opcode;
            match (a, b) {
                (RuntimeValue::Number(x), RuntimeValue::Number(y)) => {
                    let fop = if op == Opcode::Add {
                        FloatOp::Add
                    } else if op == Opcode::Sub {
                        FloatOp::Sub
                    } else if op == Opcode::Mul {
                        FloatOp::Mul
                    } else {
                        if y == 0 || y == 0x8000_0000_0000_0000u64 {
                            return Err(runtime_error(owned("Division by zero")));
                        }
                        FloatOp::Div
                    };
                    self.pending = Some(ins.id);
                    self.instruction_pointer = self.instruction_pointer + 1;
                    Ok(IrAction::Arithmetic { op: fop, left: x, right: y })
                },
                (RuntimeValue::Text(s), RuntimeValue::Text(t)) => {
                    if op == Opcode::Add {
                        let mut joined = s;
                        append(&mut joined, t.as_str());
                        self.store_value(ins.id, RuntimeValue::Text(joined));
                        self.instruction_pointer = self.instruction_pointer + 1;
                        Ok(IrAction::Continue)
                    } else {
                        Err(runtime_error(owned(cannot_message(op))))
                    }
                },
                _ => Err(runtime_error(owned(cannot_message(op)))),
            }
        } else {
            self.store_value(ins.id, RuntimeValue::Null);
            self.instruction_pointer = self.instruction_pointer + 1;
            Ok(IrAction::Continue)
        }
    }

    fn run_terminator(&mut self, t: &Terminator) -> (r: OvieResult<IrAction>)
        ensures
            match terminator_step(old(self)@, *t) {
                Ok((m, a)) => r matches Ok(x) && x@ == a && final(self)@ == m,
                Err(e) => fails_with(r, e) && final(self)@ == old(self)@,
            },
    {
        match t {
            Terminator::Return { .. } => {
                let ghost before = self.call_stack@;
                if self.call_stack.len() > 0 {
                    self.call_stack.pop();
                    assert(self.call_stack@.map_values(|f: CallFrame| f@) =~= before.map_values(|f: CallFrame| f@).drop_last());
                }
                let n = self.call_stack.len();
                if n > 0 {
                    let top = &self.call_stack[n - 1];
                    assert(self@.frames.last() == top@);
                    self.current_function = Some(top.function_id);
                    match top.return_address {
                        Some((_, b, ip)) => {
                            self.current_block = Some(b);
                            self.instruction_pointer = ip;
                        },
                        None => {},
                    }
                } else {
                    self.current_function = None;
                    self.current_block = None;
                }
                Ok(IrAction::Continue)
            },
            Terminator::Branch { target } => {
                self.current_block = Some(*target);
                self.instruction_pointer = 0;
                Ok(IrAction::Continue)
            },
            Terminator::ConditionalBranch { condition, true_target, false_target } => {
                let v = match self.eval_value(condition) {
                    Err(e) => {
                        return Err(e);
                    },
                    Ok(v) => v,
                };
                let go = match &v {
                    RuntimeValue::Boolean(b) => *b,
                    RuntimeValue::Null => false,
                    RuntimeValue::Number(bits) => !(*bits == 0 || *bits == 0x8000_0000_0000_0000u64),
                    RuntimeValue::Text(s) => !s.as_str().is_empty(),
                };
                self.current_block = Some(if go { *true_target } else { *false_target });
                self.instruction_pointer = 0;
                Ok(IrAction::Continue)
            },
            Terminator::Unreachable => Err(runtime_error(owned("Reached unreachable code"))),
        }
    }

    /// Take one step of the running program (see `step_spec`). An
    /// arithmetic step waits for `resume` before the next one.
    pub fn step(&mut self, program: &Program) -> (r: OvieResult<IrAction>)
        requires
            old(self)@.pending is None,
            operands_complete(*program),
        ensures
            match step_spec(old(self)@, *program) {
                Ok((m, a)) => r matches Ok(x) && x@ == a && final(self)@ == m,
                Err(e) => fails_with(r, e) && final(self)@ == old(self)@,
            },
    {
        let fid = match self.current_function {
            None => {
                return Err(runtime_error(owned("No current function")));
            },
            Some(f) => f,
        };
        let bid = match self.current_block {
            None => {
                return Err(runtime_error(owned("No current block")));
            },
            Some(b) => b,
        };
        let f = match program.functions.get(&fid) {
            None => {
                return Err(runtime_error(owned("Function not found")));
            },
            Some(f) => f,
        };
        let block = match f.basic_blocks.get(&bid) {
            None => {
                return Err(runtime_error(owned("Block not found")));
            },
            Some(b) => b,
        };
        if self.instruction_pointer < block.instructions.len() {
            let i = self.instruction_pointer;
            assert(program.functions@[fid].basic_blocks@[bid].instructions@[i as int] == block.instructions@[i as int]);
            self.run_instruction(&block.instructions[i])
        } else {
            self.run_terminator(&block.terminator)
        }
    }

    /// Complete the waiting arithmetic with its floating-point result: it
    /// is stored as the instruction's value.
    pub fn resume(&mut self, result_bits: u64)
        requires
            old(self)@.pending is Some,
        ensures
            final(self)@ == (MachineView {
                pending: None,
                ..store(old(self)@, old(self)@.pending->0, RuntimeView::Number(result_bits))
            }),
    {
        let id = match self.pending {
            Some(id) => id,
            None => 0,
        };
        self.store_value(id, RuntimeValue::Number(result_bits));
        self.pending = None;
    }
}

fn cannot_message(op: Opcode) -> (r: &'static str)
    ensures
        r@ == cannot(op),
{
    if op == Opcode::Add {
        "Cannot add these types"
    } else if op == Opcode::Sub {
        "Cannot subtract these types"
    } else if op == Opcode::Mul {
        "Cannot multiply these types"
    } else {
        "Cannot divide these types"
    }
}


/// At the terminator of the current block, a conditional branch on a value
/// that is the boolean `b` goes to the start of `true_target` when `b`
/// holds and of `false_target` otherwise; nothing else changes and the
/// step asks nothing of the caller.
pub proof fn law_branch_on_boolean(
    m: MachineView,
    p: Program,
    fid: u32,
    bid: u32,
    condition: Value,
    true_target: u32,
    false_target: u32,
    b: bool,
)
    requires
        m.function == Some(fid),
        m.block == Some(bid),
        p.functions@.contains_key(fid),
        p.functions@[fid].basic_blocks@.contains_key(bid),
        m.ip == p.functions@[fid].basic_blocks@[bid].instructions@.len(),
        p.functions@[fid].basic_blocks@[bid].terminator == (Terminator::ConditionalBranch {
            condition,
            true_target,
            false_target,
        }),
        eval(m, condition) == Ok::<RuntimeView, Seq<char>>(RuntimeView::Boolean(b)),
    ensures
        step_spec(m, p) is Ok,
        step_spec(m, p)->Ok_0.0.block == Some(if b { true_target } else { false_target }),
        b ==> step_spec(m, p)->Ok_0.0.block == Some(true_target),
        !b ==> step_spec(m, p)->Ok_0.0.block == Some(false_target),
        step_spec(m, p)->Ok_0.0.ip == 0,
        step_spec(m, p)->Ok_0.0.frames == m.frames,
        step_spec(m, p)->Ok_0.0.function == m.function,
        step_spec(m, p)->Ok_0.1 == ActionView::Continue,
{
}

/// A boolean constant evaluates to itself, so a conditional branch on the
/// constant `true` goes to its true target and on `false` to its false
/// target.
pub proof fn law_branch_on_constant(
    m: MachineView,
    p: Program,
    fid: u32,
    bid: u32,
    true_target: u32,
    false_target: u32,
    b: bool,
)
    requires
        m.function == Some(fid),
        m.block == Some(bid),
        p.functions@.contains_key(fid),
        p.functions@[fid].basic_blocks@.contains_key(bid),
        m.ip == p.functions@[fid].basic_blocks@[bid].instructions@.len(),
        p.functions@[fid].basic_blocks@[bid].terminator == (Terminator::ConditionalBranch {
            condition: Value::Constant(Constant::Boolean(b)),
            true_target,
            false_target,
        }),
    ensures
        eval(m, Value::Constant(Constant::Boolean(b))) == Ok::<RuntimeView, Seq<char>>(RuntimeView::Boolean(b)),
        b ==> step_spec(m, p) == Ok::<(MachineView, ActionView), Seq<char>>(
            (MachineView { block: Some(true_target), ip: 0, ..m }, ActionView::Continue),
        ),
        !b ==> step_spec(m, p) == Ok::<(MachineView, ActionView), Seq<char>>(
            (MachineView { block: Some(false_target), ip: 0, ..m }, ActionView::Continue),
        ),
{
    law_branch_on_boolean(m, p, fid, bid, Value::Constant(Constant::Boolean(b)), true_target, false_target, b);
}


/// Arithmetic on two numbers hands the caller the floating-point operation
/// of the same name on exactly those two numbers (a division by a zero of
/// either sign is refused); `Add` on two strings joins them; a boolean
/// counts as itself, a number as true unless it is a zero of either sign,
/// a string as true unless empty, and null as false.
pub proof fn law_ir_arithmetic(x: u64, y: u64, s: Seq<char>, t: Seq<char>, b: bool)
    ensures
        arith(Opcode::Add, RuntimeView::Number(x), RuntimeView::Number(y)) == Ok::<ArithView, Seq<char>>(
            ArithView::Float(FloatOp::Add, x, y),
        ),
        arith(Opcode::Sub, RuntimeView::Number(x), RuntimeView::Number(y)) == Ok::<ArithView, Seq<char>>(
            ArithView::Float(FloatOp::Sub, x, y),
        ),
        arith(Opcode::Mul, RuntimeView::Number(x), RuntimeView::Number(y)) == Ok::<ArithView, Seq<char>>(
            ArithView::Float(FloatOp::Mul, x, y),
        ),
        y != 0 && y != 0x8000_0000_0000_0000u64 ==> arith(Opcode::Div, RuntimeView::Number(x), RuntimeView::Number(y))
            == Ok::<ArithView, Seq<char>>(ArithView::Float(FloatOp::Div, x, y)),
        (y == 0 || y == 0x8000_0000_0000_0000u64) ==> arith(Opcode::Div, RuntimeView::Number(x), RuntimeView::Number(y))
            == Err::<ArithView, Seq<char>>("Division by zero"@),
        arith(Opcode::Add, RuntimeView::Text(s), RuntimeView::Text(t)) == Ok::<ArithView, Seq<char>>(
            ArithView::Done(RuntimeView::Text(s + t)),
        ),
        truthy(RuntimeView::Boolean(b)) == b,
        truthy(RuntimeView::Number(x)) == (x != 0 && x != 0x8000_0000_0000_0000u64),
        truthy(RuntimeView::Text(s)) == (s.len() > 0),
        !truthy(RuntimeView::Null),
{
}

} // verus!
