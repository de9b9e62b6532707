//! Intermediate representation (IR) of Ovie programs: functions made of
//! basic blocks of instructions, and the builder that produces them.

use vstd::prelude::*;
use std::collections::HashMap;
use vstd::std_specs::iter::IteratorSpec;
use crate::error::{ErrorView, OvieError, OvieResult};
use crate::text::{append, decimal, owned, push_decimal};
use crate::build_config::{compiler_version, compiler_version_text};
use crate::ast::{AstNode, Expression, Literal, Statement};

verus! {

broadcast use vstd::std_specs::hash::group_hash_axioms;

/// Unique identifier for IR values.
pub type ValueId = u32;

/// Unique identifier for basic blocks.
pub type BlockId = u32;

/// Unique identifier for functions.
pub type FunctionId = u32;

/// IR opcodes.
#[derive(Debug, Clone, Copy, PartialEq, Eq, Structural)]
pub enum Opcode {
    Add,
    Sub,
    Mul,
    Div,
    Mod,
    Eq,
    Ne,
    Lt,
    Le,
    Gt,
    Ge,
    And,
    Or,
    Not,
    Load,
    Store,
    Alloca,
    Call,
    Cast,
    StringConcat,
    Print,
}

/// IR types.
#[derive(Debug)]
pub enum IrType {
    String,
    Number,
    Boolean,
    Void,
    Pointer(Box<IrType>),
    Function { params: Vec<IrType>, return_type: Box<IrType> },
}

/// Constant values. A number is kept as the bits of its IEEE 754 double.
#[derive(Debug)]
pub enum Constant {
    String(String),
    Number(u64),
    Boolean(bool),
    Void,
}

/// IR values.
#[derive(Debug)]
pub enum Value {
    /// Reference to an instruction result
    Instruction(ValueId),
    /// Constant value
    Constant(Constant),
    /// Function parameter
    Parameter(ValueId),
    /// Global variable
    Global(String),
}

/// IR instruction.
#[derive(Debug)]
pub struct Instruction {
    pub id: ValueId,
    pub opcode: Opcode,
    pub operands: Vec<Value>,
    pub result_type: IrType,
}

/// Block terminator (control flow).
#[derive(Debug)]
pub enum Terminator {
    /// Return from function
    Return { value: Option<Value> },
    /// Unconditional branch
    Branch { target: BlockId },
    /// Conditional branch
    ConditionalBranch { condition: Value, true_target: BlockId, false_target: BlockId },
    /// Unreachable code
    Unreachable,
}

/// Basic block containing instructions.
#[derive(Debug)]
pub struct BasicBlock {
    pub id: BlockId,
    pub label: String,
    pub instructions: Vec<Instruction>,
    pub terminator: Terminator,
}

/// Function parameter.
#[derive(Debug)]
pub struct Parameter {
    pub name: String,
    pub param_type: IrType,
    pub value_id: ValueId,
}

/// Function in IR.
#[derive(Debug)]
pub struct Function {
    pub id: FunctionId,
    pub name: String,
    pub parameters: Vec<Parameter>,
    pub return_type: IrType,
    pub basic_blocks: HashMap<BlockId, BasicBlock>,
    pub entry_block: BlockId,
    pub local_variables: HashMap<String, ValueId>,
}

/// Global variable or constant.
#[derive(Debug)]
pub struct Global {
    pub name: String,
    pub global_type: IrType,
    pub is_mutable: bool,
    pub initializer: Option<Constant>,
}

/// Metadata for the IR program.
#[derive(Debug, Clone)]
pub struct Metadata {
    pub source_file: String,
    pub compiler_version: String,
    pub target_triple: String,
    pub optimization_level: u8,
    pub debug_info: bool,
}

/// The metadata of a new program: no source file, this compiler's
/// version, target `unknown`, no optimization, no debug information.
pub open spec fn initial_metadata(m: Metadata) -> bool {
    &&& m.source_file@ == Seq::<char>::empty()
    &&& m.compiler_version@ == compiler_version_text()
    &&& m.target_triple@ == "unknown"@
    &&& m.optimization_level == 0
    &&& !m.debug_info
}

fn new_metadata() -> (r: Metadata)
    ensures
        initial_metadata(r),
{
    proof {
        reveal_strlit("unknown");
    }
    Metadata {
        source_file: String::new(),
        compiler_version: owned(compiler_version()),
        target_triple: owned("unknown"),
        optimization_level: 0,
        debug_info: false,
    }
}

/// The complete IR program.
#[derive(Debug)]
pub struct Program {
    pub functions: HashMap<FunctionId, Function>,
    pub globals: HashMap<String, Global>,
    pub metadata: Metadata,
    pub entry_point: Option<FunctionId>,
}

/// What is wrong with function `f` stored under `id`, if anything: its
/// own id differs, or its entry block is missing.
pub open spec fn function_error(id: u32, f: Function) -> Option<Seq<char>> {
    if f.id != id {
        Some("Function ID mismatch: "@ + decimal(f.id as nat) + " != "@ + decimal(id as nat))
    } else if !f.basic_blocks@.contains_key(f.entry_block) {
        Some("Entry block "@ + decimal(f.entry_block as nat) + " not found in function "@ + f.name@)
    } else {
        None
    }
}

/// The entry point names a function that is not there.
pub open spec fn entry_missing(p: Program) -> bool {
    p.entry_point matches Some(e) && !p.functions@.contains_key(e)
}

/// Every function is stored under its own id and has its entry block.
pub open spec fn functions_ok(m: Map<u32, Function>) -> bool {
    forall|id: u32| #[trigger] m.contains_key(id) ==> function_error(id, m[id]) is None
}

/// A consistent program: its entry point (if any) is one of its
/// functions, and each function is consistent.
pub open spec fn program_ok(p: Program) -> bool {
    !entry_missing(p) && functions_ok(p.functions@)
}

impl Program {
    /// Create a new empty program.
    pub fn new() -> (r: Self)
        ensures
            r.functions@ == Map::<u32, Function>::empty(),
            r.globals@ == Map::<String, Global>::empty(),
            initial_metadata(r.metadata),
            r.entry_point is None,
    {
        Program { functions: HashMap::new(), globals: HashMap::new(), metadata: new_metadata(), entry_point: None }
    }

    /// Validate the program for consistency. A missing entry point is
    /// reported first; otherwise the functions are checked in the order in
    /// which the map hands them out, and the first inconsistent one is
    /// reported.
    pub fn validate(&self) -> (r: OvieResult<()>)
        ensures
            entry_missing(*self) ==> r is Err && r->Err_0@ == ErrorView::IrError("Entry point function not found"@),
            !entry_missing(*self) ==> (r is Ok <==> functions_ok(self.functions@)),
            !entry_missing(*self) && r is Err ==> exists|id: u32|
                #[trigger] self.functions@.contains_key(id) && function_error(id, self.functions@[id])
                    == Some(r->Err_0@->IrError_0),
    {
        proof {
            reveal_strlit("Entry point function not found");
        }
        match self.entry_point {
            Some(e) => {
                if !self.functions.contains_key(&e) {
                    return Err(OvieError::ir_error(owned("Entry point function not found")));
                }
            },
            None => {},
        }
        let ghost m = self.functions@;
        for item in it: self.functions.iter()
            invariant
                m == self.functions@,
                !entry_missing(*self),
                it.seq() == vstd::std_specs::hash::spec_hash_map_iter(&self.functions).remaining(),
                forall|j: int| 0 <= j < it.index() ==> function_error(*(#[trigger] it.seq()[j]).0, *it.seq()[j].1) is None,
        {
            let (id, function) = item;
            proof {
                assert(m.contains_key(*id) && m[*id] == *function);
            }
            if function.id != *id {
                let mut message = owned("Function ID mismatch: ");
                push_decimal(&mut message, function.id as u64);
                append(&mut message, " != ");
                push_decimal(&mut message, *id as u64);
                return Err(OvieError::ir_error(message));
            }
            if !function.basic_blocks.contains_key(&function.entry_block) {
                let mut message = owned("Entry block ");
                push_decimal(&mut message, function.entry_block as u64);
                append(&mut message, " not found in function ");
                append(&mut message, function.name.as_str());
                return Err(OvieError::ir_error(message));
            }
        }
        proof {
            assert forall|id: u32| #[trigger] m.contains_key(id) implies function_error(id, m[id]) is None by {
                let v = vstd::std_specs::hash::spec_hash_map_iter(&self.functions).remaining();
                assert(v.contains((&id, &m[id])));
                let j = choose|j: int| 0 <= j < v.len() && v[j] == (&id, &m[id]);
                assert(function_error(*v[j].0, *v[j].1) is None);
            }
        }
        Ok(())
    }
}


/// IR builder for constructing IR from an AST.
#[derive(Debug)]
pub struct IrBuilder {
    program: Program,
    current_function: Option<FunctionId>,
    current_block: Option<BlockId>,
    next_value_id: ValueId,
    next_block_id: BlockId,
    next_function_id: FunctionId,
    deterministic_mode: bool,
}

impl IrBuilder {
    #[verifier::type_invariant]
    spec fn builder_inv(self) -> bool {
        &&& functions_ok(self.program.functions@)
        &&& forall|k: u32| #[trigger] self.program.functions@.contains_key(k) ==> k < self.next_function_id
    }

    /// The functions built so far, by id.
    pub closed spec fn functions(&self) -> Map<u32, Function> {
        self.program.functions@
    }

    /// The entry point set so far.
    pub closed spec fn entry(&self) -> Option<FunctionId> {
        self.program.entry_point
    }

    /// The metadata of the program being built.
    pub closed spec fn metadata(&self) -> Metadata {
        self.program.metadata
    }

    /// The id the next function gets.
    pub closed spec fn next_function(&self) -> FunctionId {
        self.next_function_id
    }

    /// The id the next basic block gets.
    pub closed spec fn next_block(&self) -> BlockId {
        self.next_block_id
    }

    /// The id the next instruction gets.
    pub closed spec fn next_value(&self) -> ValueId {
        self.next_value_id
    }

    /// The function statements are added to.
    pub closed spec fn current(&self) -> Option<FunctionId> {
        self.current_function
    }

    /// Whether deterministic mode is on.
    pub closed spec fn deterministic(&self) -> bool {
        self.deterministic_mode
    }

    /// Create a new IR builder: an empty program, all ids starting at 1.
    pub fn new() -> (r: Self)
        ensures
            r.functions() == Map::<u32, Function>::empty(),
            r.entry() is None,
            initial_metadata(r.metadata()),
            r.next_function() == 1 && r.next_block() == 1 && r.next_value() == 1,
            r.current() is None,
            !r.deterministic(),
    {
        IrBuilder {
            program: Program::new(),
            current_function: None,
            current_block: None,
            next_value_id: 1,
            next_block_id: 1,
            next_function_id: 1,
            deterministic_mode: false,
        }
    }

    /// Set deterministic mode for reproducible builds.
    pub fn set_deterministic_mode(&mut self, enabled: bool)
        ensures
            final(self).deterministic() == enabled,
            final(self).functions() == old(self).functions(),
            final(self).entry() == old(self).entry(),
            final(self).next_function() == old(self).next_function(),
            final(self).next_block() == old(self).next_block(),
            final(self).next_value() == old(self).next_value(),
            final(self).current() == old(self).current(),
    {
        proof {
            use_type_invariant(&*self);
        }
        self.deterministic_mode = enabled;
    }

    /// Set the entry point for the program.
    pub fn set_entry_point(&mut self, function_id: FunctionId)
        ensures
            final(self).entry() == Some(function_id),
            final(self).functions() == old(self).functions(),
            final(self).deterministic() == old(self).deterministic(),
            final(self).next_function() == old(self).next_function(),
            final(self).next_block() == old(self).next_block(),
            final(self).next_value() == old(self).next_value(),
            final(self).current() == old(self).current(),
    {
        proof {
            use_type_invariant(&*self);
        }
        self.program.entry_point = Some(function_id);
    }

    /// Create a new function with an empty entry block that returns
    /// nothing; it gets the next function id and its block the next block
    /// id.
    pub fn create_function(&mut self, name: &str, params: Vec<Parameter>, return_type: IrType) -> (r: FunctionId)
        requires
            old(self).next_function() < u32::MAX,
            old(self).next_block() < u32::MAX,
        ensures
            r == old(self).next_function(),
            !old(self).functions().contains_key(r),
            final(self).next_function() == r + 1,
            final(self).next_block() == old(self).next_block() + 1,
            final(self).functions().dom() == old(self).functions().dom().insert(r),
            forall|k: u32| k != r && #[trigger] old(self).functions().contains_key(k)
                ==> final(self).functions()[k] == old(self).functions()[k],
            new_function(final(self).functions()[r], r, name@, old(self).next_block()),
            final(self).functions()[r].parameters == params,
            final(self).functions()[r].return_type == return_type,
            final(self).entry() == old(self).entry(),
            final(self).next_value() == old(self).next_value(),
            final(self).current() == old(self).current(),
            final(self).deterministic() == old(self).deterministic(),
    {
        proof {
            use_type_invariant(&*self);
        }
        let mut b = IrBuilder::new();
        std::mem::swap(&mut b, self);
        let IrBuilder {
            mut program,
            current_function,
            current_block,
            next_value_id,
            next_block_id,
            next_function_id,
            deterministic_mode,
        } = b;
        let function_id = next_function_id;
        let entry_block_id = next_block_id;
        let mut basic_blocks: HashMap<BlockId, BasicBlock> = HashMap::new();
        basic_blocks.insert(
            entry_block_id,
            BasicBlock {
                id: entry_block_id,
                label: owned("entry"),
                instructions: Vec::new(),
                terminator: Terminator::Return { value: None },
            },
        );
        let function = Function {
            id: function_id,
            name: owned(name),
            parameters: params,
            return_type,
            basic_blocks,
            entry_block: entry_block_id,
            local_variables: HashMap::new(),
        };
        proof {
            reveal_strlit("entry");
            assert(function_error(function_id, function) is None);
        }
        program.functions.insert(function_id, function);
        proof {
            assert(program.functions@.dom() =~= old(self).functions().dom().insert(function_id));
        }
        *self = IrBuilder {
            program,
            current_function,
            current_block,
            next_value_id,
            next_block_id: next_block_id + 1,
            next_function_id: next_function_id + 1,
            deterministic_mode,
        };
        function_id
    }

    /// Get the built program.
    pub fn build(self) -> (r: Program)
        ensures
            r.functions@ == self.functions(),
            r.entry_point == self.entry(),
            r.metadata == self.metadata(),
            functions_ok(r.functions@),
    {
        proof {
            use_type_invariant(&self);
        }
        self.program
    }
}

/// A function as `create_function` makes it: stored under `id`, named
/// `name`, with one empty entry block `block` labelled `entry` that
/// returns nothing, and no local variables.
pub open spec fn new_function(f: Function, id: u32, name: Seq<char>, block: u32) -> bool {
    &&& f.id == id
    &&& f.name@ == name
    &&& f.entry_block == block
    &&& f.basic_blocks@.dom() == set![block]
    &&& f.basic_blocks@[block].id == block
    &&& f.basic_blocks@[block].label@ == "entry"@
    &&& f.basic_blocks@[block].instructions@.len() == 0
    &&& f.basic_blocks@[block].terminator matches Terminator::Return { value: None }
    &&& f.local_variables@ == Map::<String, ValueId>::empty()
}

/// A program built by the builder passes validation exactly when its
/// entry point, if set, is one of its functions.
pub proof fn law_built_program_validates(p: Program)
    requires
        functions_ok(p.functions@),
    ensures
        program_ok(p) <==> !entry_missing(p),
{
}


/// The IR value of an expression: a literal becomes the constant it
/// denotes, anything else stands for no value yet.
pub open spec fn value_matches(v: Value, e: Expression) -> bool {
    match e {
        Expression::Literal(Literal::String(s)) => v matches Value::Constant(Constant::String(t)) && t@ == s@,
        Expression::Literal(Literal::Number(n)) => v matches Value::Constant(Constant::Number(m)) && m == n,
        Expression::Literal(Literal::Boolean(b)) => v matches Value::Constant(Constant::Boolean(c)) && c == b,
        _ => v matches Value::Constant(Constant::Void),
    }
}

/// The expressions of the print statements, in order.
pub open spec fn printed_expressions(stmts: Seq<Statement>) -> Seq<Expression>
    decreases stmts.len(),
{
    if stmts.len() == 0 {
        seq![]
    } else {
        printed_expressions(stmts.drop_last()) + match stmts.last() {
            Statement::Print { expression } => seq![expression],
            _ => seq![],
        }
    }
}

/// The instructions that print the given expressions, numbered from
/// `first` on.
pub open spec fn prints_match(instrs: Seq<Instruction>, exprs: Seq<Expression>, first: u32) -> bool {
    &&& instrs.len() == exprs.len()
    &&& forall|k: int|
        0 <= k < instrs.len() ==> {
            &&& (#[trigger] instrs[k]).id == first + k
            &&& instrs[k].opcode == Opcode::Print
            &&& instrs[k].operands@.len() == 1
            &&& value_matches(instrs[k].operands@[0], exprs[k])
            &&& instrs[k].result_type matches IrType::Void
        }
}

/// The IR value of an expression.
fn transform_expression(expression: &Expression) -> (r: Value)
    ensures
        value_matches(r, *expression),
{
    match expression {
        Expression::Literal(Literal::String(s)) => Value::Constant(Constant::String(s.clone())),
        Expression::Literal(Literal::Number(n)) => Value::Constant(Constant::Number(*n)),
        Expression::Literal(Literal::Boolean(b)) => Value::Constant(Constant::Boolean(*b)),
        _ => Value::Constant(Constant::Void),
    }
}

impl IrBuilder {
    /// Transform an AST into IR: a `main` function becomes the entry point
    /// and the current function, and each print statement of the program
    /// (in order) becomes a print instruction in its entry block; other
    /// statements produce no instructions.
    pub fn transform_ast(&mut self, ast: &AstNode) -> (r: OvieResult<()>)
        requires
            old(self).next_function() < u32::MAX,
            old(self).next_block() < u32::MAX,
            old(self).next_value() + printed_expressions(ast.statements@).len() <= u32::MAX,
        ensures
            r is Ok,
            ({
                let main = old(self).next_function();
                let f = final(self).functions()[main];
                &&& !old(self).functions().contains_key(main)
                &&& final(self).functions().dom() == old(self).functions().dom().insert(main)
                &&& forall|k: u32| k != main && #[trigger] old(self).functions().contains_key(k)
                    ==> final(self).functions()[k] == old(self).functions()[k]
                &&& final(self).entry() == Some(main)
                &&& final(self).current() == Some(main)
                &&& final(self).next_function() == main + 1
                &&& final(self).next_block() == old(self).next_block() + 1
                &&& final(self).next_value() == old(self).next_value() + printed_expressions(ast.statements@).len()
                &&& f.id == main
                &&& f.name@ == "main"@
                &&& f.parameters@.len() == 0
                &&& f.return_type matches IrType::Void
                &&& f.entry_block == old(self).next_block()
                &&& f.basic_blocks@.dom() == set![f.entry_block]
                &&& f.basic_blocks@[f.entry_block].label@ == "entry"@
                &&& f.basic_blocks@[f.entry_block].terminator matches Terminator::Return { value: None }
                &&& prints_match(
                    f.basic_blocks@[f.entry_block].instructions@,
                    printed_expressions(ast.statements@),
                    old(self).next_value(),
                )
            }),
    {
        proof {
            reveal_strlit("main");
        }
        let main = self.create_function("main", Vec::new(), IrType::Void);
        proof {
            use_type_invariant(&*self);
        }
        let mut b = IrBuilder::new();
        std::mem::swap(&mut b, self);
        let IrBuilder {
            mut program,
            current_function: _,
            current_block,
            mut next_value_id,
            next_block_id,
            next_function_id,
            deterministic_mode,
        } = b;
        let ghost before = program.functions@;
        let mut f = program.functions.remove(&main).unwrap();
        let entry = f.entry_block;
        let mut block = f.basic_blocks.remove(&entry).unwrap();
        let ghost stmts = ast.statements@;
        let ghost first = next_value_id;
        let mut i: usize = 0;
        while i < ast.statements.len()
            invariant
                stmts == ast.statements@,
                i <= stmts.len(),
                first + printed_expressions(stmts).len() <= u32::MAX,
                next_value_id == first + printed_expressions(stmts.take(i as int)).len(),
                printed_expressions(stmts.take(i as int)).len() <= printed_expressions(stmts).len(),
                prints_match(block.instructions@, printed_expressions(stmts.take(i as int)), first),
                block.label@ == "entry"@,
                block.terminator matches Terminator::Return { value: None },
            decreases stmts.len() - i,
        {
            assert(stmts.take(i + 1).drop_last() =~= stmts.take(i as int));
            proof {
                lemma_printed_expressions_prefix(stmts, i as int + 1);
            }
            match &ast.statements[i] {
                Statement::Print { expression } => {
                    let value = transform_expression(expression);
                    let ghost old_instrs = block.instructions@;
                    block.instructions.push(
                        Instruction {
                            id: next_value_id,
                            opcode: Opcode::Print,
                            operands: vec![value],
                            result_type: IrType::Void,
                        },
                    );
                    next_value_id = next_value_id + 1;
                    proof {
                        let pe = printed_expressions(stmts.take(i + 1));
                        assert(pe == printed_expressions(stmts.take(i as int)).push(*expression));
                        assert forall|k: int| 0 <= k < block.instructions@.len() implies value_matches(
                            (#[trigger] block.instructions@[k]).operands@[0],
                            pe[k],
                        ) by {
                            if k < old_instrs.len() {
                                assert(block.instructions@[k] == old_instrs[k]);
                            }
                        }
                    }
                },
                Statement::Assignment { value, .. } => {
                    let _ = transform_expression(value);
                    proof {
                        assert(printed_expressions(stmts.take(i + 1)) =~= printed_expressions(stmts.take(i as int)));
                    }
                },
                _ => {
                    proof {
                        assert(printed_expressions(stmts.take(i + 1)) =~= printed_expressions(stmts.take(i as int)));
                    }
                },
            }
            i = i + 1;
        }
        assert(stmts.take(i as int) =~= stmts);
        f.basic_blocks.insert(entry, block);
        proof {
            assert(f.basic_blocks@.dom() =~= set![entry]);
            assert(function_error(main, f) is None);
        }
        program.functions.insert(main, f);
        program.entry_point = Some(main);
        proof {
            assert(program.functions@.dom() =~= before.dom());
        }
        *self = IrBuilder {
            program,
            current_function: Some(main),
            current_block,
            next_value_id,
            next_block_id,
            next_function_id,
            deterministic_mode,
        };
        Ok(())
    }
}

/// The print statements of a prefix are at most those of the whole.
proof fn lemma_printed_expressions_prefix(stmts: Seq<Statement>, n: int)
    requires
        0 <= n <= stmts.len(),
    ensures
        printed_expressions(stmts.take(n)).len() <= printed_expressions(stmts).len(),
    decreases stmts.len(),
{
    if n < stmts.len() {
        assert(stmts.drop_last().take(n) =~= stmts.take(n));
        lemma_printed_expressions_prefix(stmts.drop_last(), n);
    } else {
        assert(stmts.take(n) =~= stmts);
    }
}

} // verus!
