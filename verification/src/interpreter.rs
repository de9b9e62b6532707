//! Runtime values of the tree-walking interpreter and the environment of
//! nested scopes that holds its variables, functions and declared types.

use vstd::prelude::*;
use crate::ast::{binary_symbol, BinaryOperator, Statement, UnaryOperator};
use crate::error::{ErrorView, OvieError, OvieResult};
use crate::ir_machine::{fails_with, is_zero_bits};
use crate::text::{append, owned, same_text};

verus! {

/// Runtime value types. A number is kept as the bits of its IEEE 754
/// double; a struct value lists its fields by name.
#[derive(Debug, PartialEq)]
pub enum Value {
    String(String),
    Number(u64),
    Boolean(bool),
    Array(Vec<Value>),
    Struct(Vec<(String, Value)>),
    Enum { variant: String, data: Option<Box<Value>> },
    Null,
    /// Internal signal for break
    Break,
    /// Internal signal for continue
    Continue,
    /// Internal signal for early return (from ? operator)
    Return(Box<Value>),
}

/// A runtime value as plain values.
pub enum ValueView {
    String(Seq<char>),
    Number(u64),
    Boolean(bool),
    Array(Seq<ValueView>),
    Struct(Seq<(Seq<char>, ValueView)>),
    Enum { variant: Seq<char>, data: Option<Box<ValueView>> },
    Null,
    Break,
    Continue,
    Return(Box<ValueView>),
}

impl View for Value {
    type V = ValueView;

    open spec fn view(&self) -> ValueView
        decreases self,
    {
        match self {
            Value::String(s) => ValueView::String(s@),
            Value::Number(n) => ValueView::Number(*n),
            Value::Boolean(b) => ValueView::Boolean(*b),
            Value::Array(a) => ValueView::Array(
                Seq::new(a@.len(), |i: int| if 0 <= i < a@.len() { a@[i].view() } else { ValueView::Null }),
            ),
            Value::Struct(fs) => ValueView::Struct(
                Seq::new(
                    fs@.len(),
                    |i: int|
                        if 0 <= i < fs@.len() {
                            (fs@[i].0@, fs@[i].1.view())
                        } else {
                            (Seq::empty(), ValueView::Null)
                        },
                ),
            ),
            Value::Enum { variant, data } => ValueView::Enum {
                variant: variant@,
                data: match data {
                    Some(d) => Some(Box::new((**d).view())),
                    None => None,
                },
            },
            Value::Null => ValueView::Null,
            Value::Break => ValueView::Break,
            Value::Continue => ValueView::Continue,
            Value::Return(v) => ValueView::Return(Box::new((**v).view())),
        }
    }
}

/// Whether a value counts as true: a true boolean, a non-zero number, a
/// non-empty string or array, any struct or enum value; never null or a
/// control signal.
pub open spec fn truthy(v: &Value) -> bool {
    match v {
        Value::Boolean(b) => *b,
        Value::Null => false,
        Value::Number(bits) => !is_zero_bits(*bits),
        Value::String(s) => s@.len() > 0,
        Value::Array(a) => a@.len() > 0,
        Value::Struct(_) => true,
        Value::Enum { .. } => true,
        Value::Break | Value::Continue | Value::Return(_) => false,
    }
}

impl Value {
    /// A copy of the value.
    pub fn duplicate(&self) -> (r: Value)
        ensures
            r@ == self@,
        decreases self,
    {
        match self {
            Value::String(s) => Value::String(s.clone()),
            Value::Number(n) => Value::Number(*n),
            Value::Boolean(b) => Value::Boolean(*b),
            Value::Array(a) => {
                assert(decreases_to!(*self => *a));
                let mut out: Vec<Value> = Vec::new();
                let mut i: usize = 0;
                while i < a.len()
                    invariant
                        i <= a@.len(),
                        decreases_to!(*self => *a),
                        out@.len() == i,
                        forall|j: int| 0 <= j < i ==> out@[j]@ == a@[j]@,
                    decreases a@.len() - i,
                {
                    proof {
                        vstd::std_specs::vec::axiom_vec_index_decreases(*a, i as int);
                        assert(decreases_to!(*self => a[i as int]));
                    }
                    let d = a[i].duplicate();
                    out.push(d);
                    i = i + 1;
                }
                let r = Value::Array(out);
                assert(r@ == self@) by {
                    if let ValueView::Array(s) = r@ {
                        if let ValueView::Array(t) = self@ {
                            assert(s =~= t);
                        }
                    }
                }
                r
            },
            Value::Struct(fs) => {
                assert(decreases_to!(*self => *fs));
                let mut out: Vec<(String, Value)> = Vec::new();
                let mut i: usize = 0;
                while i < fs.len()
                    invariant
                        i <= fs@.len(),
                        decreases_to!(*self => *fs),
                        out@.len() == i,
                        forall|j: int| 0 <= j < i ==> out@[j].0@ == fs@[j].0@ && out@[j].1@ == fs@[j].1@,
                    decreases fs@.len() - i,
                {
                    proof {
                        vstd::std_specs::vec::axiom_vec_index_decreases(*fs, i as int);
                        assert(decreases_to!(*self => fs[i as int].1));
                    }
                    let d = fs[i].1.duplicate();
                    out.push((fs[i].0.clone(), d));
                    i = i + 1;
                }
                let r = Value::Struct(out);
                assert(r@ == self@) by {
                    if let ValueView::Struct(s) = r@ {
                        if let ValueView::Struct(t) = self@ {
                            assert(s =~= t);
                        }
                    }
                }
                r
            },
            Value::Enum { variant, data } => {
                let d = match data {
                    Some(b) => Some(Box::new(b.duplicate())),
                    None => None,
                };
                Value::Enum { variant: variant.clone(), data: d }
            },
            Value::Null => Value::Null,
            Value::Break => Value::Break,
            Value::Continue => Value::Continue,
            Value::Return(v) => Value::Return(Box::new(v.duplicate())),
        }
    }

    /// Check if value is truthy.
    pub fn is_truthy(&self) -> (r: bool)
        ensures
            r == truthy(self),
    {
        match self {
            Value::Boolean(b) => *b,
            Value::Null => false,
            Value::Number(n) => !(*n == 0 || *n == 0x8000_0000_0000_0000u64),
            Value::String(s) => !s.as_str().is_empty(),
            Value::Array(arr) => arr.len() > 0,
            Value::Struct(_) => true,
            Value::Enum { .. } => true,
            Value::Break | Value::Continue | Value::Return(_) => false,
        }
    }
}


/// Function definition: its name, parameter names and body.
#[derive(Debug)]
pub struct Function {
    pub name: String,
    pub parameters: Vec<String>,
    pub body: Vec<Statement>,
}

/// The index of the last entry with the given key, or -1.
pub open spec fn find_last(keys: Seq<Seq<char>>, name: Seq<char>) -> int
    decreases keys.len(),
{
    if keys.len() == 0 {
        -1
    } else if keys.last() == name {
        keys.len() - 1
    } else {
        find_last(keys.drop_last(), name)
    }
}

pub proof fn lemma_find_last_range(keys: Seq<Seq<char>>, name: Seq<char>)
    ensures
        -1 <= find_last(keys, name) < keys.len(),
        find_last(keys, name) >= 0 ==> keys[find_last(keys, name)] == name,
    decreases keys.len(),
{
    if keys.len() > 0 {
        lemma_find_last_range(keys.drop_last(), name);
    }
}

/// The keys of a list of named entries.
pub open spec fn entry_keys<T>(entries: Seq<(String, T)>) -> Seq<Seq<char>> {
    entries.map_values(|e: (String, T)| e.0@)
}

/// The names of a list of functions.
pub open spec fn function_keys(fs: Seq<Function>) -> Seq<Seq<char>> {
    fs.map_values(|f: Function| f.name@)
}

/// Pushing a key makes it the last one for its name and leaves the others.
pub proof fn lemma_find_last_push(keys: Seq<Seq<char>>, key: Seq<char>, name: Seq<char>)
    ensures
        find_last(keys.push(key), name) == if name == key { keys.len() as int } else { find_last(keys, name) },
{
    assert(keys.push(key).drop_last() =~= keys);
}

/// The index of the last entry of `entries` whose key is `name`.
fn find_entry<T>(entries: &Vec<(String, T)>, name: &str) -> (r: Option<usize>)
    ensures
        match r {
            Some(i) => i < entries@.len() && i as int == find_last(entry_keys(entries@), name@),
            None => find_last(entry_keys(entries@), name@) == -1,
        },
{
    let ghost keys = entry_keys(entries@);
    let mut i: usize = entries.len();
    assert(keys.take(i as int) =~= keys);
    while i > 0
        invariant
            i <= entries@.len(),
            keys == entry_keys(entries@),
            find_last(keys, name@) == find_last(keys.take(i as int), name@),
        decreases i,
    {
        assert(keys.take(i as int).drop_last() =~= keys.take(i - 1));
        if same_text(entries[i - 1].0.as_str(), name) {
            return Some(i - 1);
        }
        i = i - 1;
    }
    assert(keys.take(0) =~= Seq::<Seq<char>>::empty());
    None
}

/// The index of the last function named `name`.
fn find_function(fs: &Vec<Function>, name: &str) -> (r: Option<usize>)
    ensures
        match r {
            Some(i) => i < fs@.len() && i as int == find_last(function_keys(fs@), name@),
            None => find_last(function_keys(fs@), name@) == -1,
        },
{
    let ghost keys = function_keys(fs@);
    let mut i: usize = fs.len();
    assert(keys.take(i as int) =~= keys);
    while i > 0
        invariant
            i <= fs@.len(),
            keys == function_keys(fs@),
            find_last(keys, name@) == find_last(keys.take(i as int), name@),
        decreases i,
    {
        assert(keys.take(i as int).drop_last() =~= keys.take(i - 1));
        if same_text(fs[i - 1].name.as_str(), name) {
            return Some(i - 1);
        }
        i = i - 1;
    }
    assert(keys.take(0) =~= Seq::<Seq<char>>::empty());
    None
}

/// The value bound to `name` in a list of bindings: that of its last entry.
pub open spec fn binding<T>(entries: Seq<(String, T)>, name: Seq<char>) -> Option<T> {
    let i = find_last(entry_keys(entries), name);
    if i >= 0 {
        Some(entries[i].1)
    } else {
        None
    }
}

/// Set `name` to `value` in a list of bindings: its last entry is
/// replaced, or a new entry is added.
fn bind<T>(entries: &mut Vec<(String, T)>, name: &str, value: T)
    ensures
        binding(final(entries)@, name@) == Some(value),
        forall|m: Seq<char>| m != name@ ==> #[trigger] binding(final(entries)@, m) == binding(old(entries)@, m),
{
    let ghost keys = entry_keys(old(entries)@);
    match find_entry(entries, name) {
        Some(i) => {
            proof { lemma_find_last_range(keys, name@); }
            let key = entries[i].0.clone();
            entries.set(i, (key, value));
            assert(entry_keys(entries@) =~= keys);
            assert forall|m: Seq<char>| m != name@ implies #[trigger] binding(entries@, m) == binding(
                old(entries)@,
                m,
            ) by {
                lemma_find_last_range(keys, m);
            }
        },
        None => {
            entries.push((owned(name), value));
            assert(entry_keys(entries@) =~= keys.push(name@));
            assert forall|m: Seq<char>| true implies find_last(keys.push(name@), m) == if m == name@ {
                keys.len() as int
            } else {
                find_last(keys, m)
            } by {
                lemma_find_last_push(keys, name@, m);
            }
            assert forall|m: Seq<char>| m != name@ implies #[trigger] binding(entries@, m) == binding(
                old(entries)@,
                m,
            ) by {
                lemma_find_last_range(keys, m);
                lemma_find_last_push(keys, name@, m);
            }
        },
    }
}

/// Environment for variable and function storage: one scope of bindings
/// and the scope that encloses it, if any. A name defined twice in one
/// scope keeps its newest definition.
#[derive(Debug)]
pub struct Environment {
    variables: Vec<(String, Value)>,
    functions: Vec<Function>,
    struct_types: Vec<(String, Vec<String>)>,
    enum_types: Vec<(String, Vec<String>)>,
    parent: Option<Box<Environment>>,
}

/// A copy of a list of texts.
fn copy_texts(v: &Vec<String>) -> (r: Vec<String>)
    ensures
        texts_view(r) == texts_view(*v),
{
    let r = v.clone();
    assert(texts_view(r) =~= texts_view(*v)) by {
        assert forall|i: int| 0 <= i < r@.len() implies r@[i]@ == v@[i]@ by {
            assert(cloned::<String>(v@[i], r@[i]));
        }
    }
    r
}

/// The view of a bound value.
pub open spec fn value_view(v: Option<Value>) -> Option<ValueView> {
    match v {
        Some(x) => Some(x@),
        None => None,
    }
}

/// The names of a list of texts.
pub open spec fn texts_view(v: Vec<String>) -> Seq<Seq<char>> {
    v@.map_values(|s: String| s@)
}

/// The view of a bound list of names.
pub open spec fn names_view(v: Option<Vec<String>>) -> Option<Seq<Seq<char>>> {
    match v {
        Some(x) => Some(texts_view(x)),
        None => None,
    }
}

impl Environment {
    /// The value of variable `name` as seen from this scope: its binding
    /// here, else in the enclosing scopes, innermost first.
    pub closed spec fn variable(&self, name: Seq<char>) -> Option<ValueView>
        decreases self,
    {
        match value_view(binding(self.variables@, name)) {
            Some(v) => Some(v),
            None => match self.parent {
                Some(p) => p.variable(name),
                None => None,
            },
        }
    }

    /// The function named `name` as seen from this scope.
    pub closed spec fn function(&self, name: Seq<char>) -> Option<Function>
        decreases self,
    {
        let i = find_last(function_keys(self.functions@), name);
        if i >= 0 {
            Some(self.functions@[i])
        } else {
            match self.parent {
                Some(p) => p.function(name),
                None => None,
            }
        }
    }

    /// The fields of struct type `name` as seen from this scope.
    pub closed spec fn struct_type(&self, name: Seq<char>) -> Option<Seq<Seq<char>>>
        decreases self,
    {
        match names_view(binding(self.struct_types@, name)) {
            Some(v) => Some(v),
            None => match self.parent {
                Some(p) => p.struct_type(name),
                None => None,
            },
        }
    }

    /// The variants of enum type `name` as seen from this scope.
    pub closed spec fn enum_type(&self, name: Seq<char>) -> Option<Seq<Seq<char>>>
        decreases self,
    {
        match names_view(binding(self.enum_types@, name)) {
            Some(v) => Some(v),
            None => match self.parent {
                Some(p) => p.enum_type(name),
                None => None,
            },
        }
    }

    /// Whether this scope binds nothing of its own: no variable, function
    /// or type is defined in it.
    pub closed spec fn scope_is_empty(&self) -> bool {
        &&& self.variables@.len() == 0
        &&& self.functions@.len() == 0
        &&& self.struct_types@.len() == 0
        &&& self.enum_types@.len() == 0
    }

    /// The scope that encloses this one, if any.
    pub closed spec fn enclosing(&self) -> Option<Environment> {
        match self.parent {
            Some(p) => Some(*p),
            None => None,
        }
    }

    /// Whether two environments give the same functions and types for
    /// every name.
    pub open spec fn same_declarations(&self, other: &Environment) -> bool {
        &&& forall|n: Seq<char>| #[trigger] self.function(n) == other.function(n)
        &&& forall|n: Seq<char>| #[trigger] self.struct_type(n) == other.struct_type(n)
        &&& forall|n: Seq<char>| #[trigger] self.enum_type(n) == other.enum_type(n)
    }

    /// An empty top-level scope.
    pub fn new() -> (r: Self)
        ensures
            r.scope_is_empty(),
            r.enclosing() is None,
            forall|n: Seq<char>| #[trigger] r.variable(n) is None,
            forall|n: Seq<char>| #[trigger] r.function(n) is None,
            forall|n: Seq<char>| #[trigger] r.struct_type(n) is None,
            forall|n: Seq<char>| #[trigger] r.enum_type(n) is None,
    {
        Environment {
            variables: Vec::new(),
            functions: Vec::new(),
            struct_types: Vec::new(),
            enum_types: Vec::new(),
            parent: None,
        }
    }

    /// An empty scope inside `parent`: everything of the parent is seen
    /// through it.
    pub fn with_parent(parent: Environment) -> (r: Self)
        ensures
            r.scope_is_empty(),
            r.enclosing() == Some(parent),
            forall|n: Seq<char>| #[trigger] r.variable(n) == parent.variable(n),
            r.same_declarations(&parent),
    {
        let r = Environment {
            variables: Vec::new(),
            functions: Vec::new(),
            struct_types: Vec::new(),
            enum_types: Vec::new(),
            parent: Some(Box::new(parent)),
        };
        assert(forall|n: Seq<char>| find_last(Seq::<Seq<char>>::empty(), n) == -1);
        assert(entry_keys(r.variables@) =~= Seq::<Seq<char>>::empty());
        assert(entry_keys(r.struct_types@) =~= Seq::<Seq<char>>::empty());
        assert(entry_keys(r.enum_types@) =~= Seq::<Seq<char>>::empty());
        assert(function_keys(r.functions@) =~= Seq::<Seq<char>>::empty());
        r
    }

    /// Define a variable in this scope, replacing any binding of the name
    /// here; the enclosing scopes are left as they are.
    pub fn define_variable(&mut self, name: String, value: Value)
        ensures
            final(self).variable(name@) == Some(value@),
            forall|m: Seq<char>| m != name@ ==> #[trigger] final(self).variable(m) == old(self).variable(m),
            final(self).same_declarations(old(self)),
    {
        let ghost v = value@;
        bind(&mut self.variables, name.as_str(), value);
        assert(final(self).variable(name@) == Some(v));
    }

    /// Assign to an existing variable: the binding in the innermost scope
    /// that has one is replaced. A name bound nowhere is an error and
    /// changes nothing.
    pub fn set_variable(&mut self, name: &str, value: Value) -> (r: OvieResult<()>)
        ensures
            r is Ok <==> old(self).variable(name@) is Some,
            r is Ok ==> final(self).variable(name@) == Some(value@),
            r is Err ==> r->Err_0@ == ErrorView::RuntimeError("Undefined variable: "@ + name@)
                && final(self).variable(name@) == old(self).variable(name@),
            forall|m: Seq<char>| m != name@ ==> #[trigger] final(self).variable(m) == old(self).variable(m),
            final(self).same_declarations(old(self)),
        decreases *old(self),
    {
        let ghost v = value@;
        match find_entry(&self.variables, name) {
            Some(_) => {
                bind(&mut self.variables, name, value);
                assert(self.variable(name@) == Some(v));
                assert forall|m: Seq<char>| m != name@ implies #[trigger] self.variable(m) == old(self).variable(m) by {
                    assert(binding(self.variables@, m) == binding(old(self).variables@, m));
                }
                assert(self.same_declarations(old(self)));
                Ok(())
            },
            None => {
                let taken = self.parent.take();
                match taken {
                    Some(mut p) => {
                        let ghost p0 = *p;
                        let r = p.set_variable(name, value);
                        self.parent = Some(p);
                        assert forall|m: Seq<char>| #[trigger] self.variable(m) == if m == name@ && r is Ok {
                            Some(v)
                        } else {
                            old(self).variable(m)
                        } by {
                            assert(binding(self.variables@, m) == binding(old(self).variables@, m));
                            if m != name@ {
                                assert(p.variable(m) == p0.variable(m));
                            }
                        }
                        assert forall|n: Seq<char>| #[trigger] self.function(n) == old(self).function(n) by {
                            assert(p.function(n) == p0.function(n));
                        }
                        assert forall|n: Seq<char>| #[trigger] self.struct_type(n) == old(self).struct_type(n) by {
                            assert(p.struct_type(n) == p0.struct_type(n));
                        }
                        assert forall|n: Seq<char>| #[trigger] self.enum_type(n) == old(self).enum_type(n) by {
                            assert(p.enum_type(n) == p0.enum_type(n));
                        }
                        r
                    },
                    None => {
                        self.parent = None;
                        let mut m = owned("Undefined variable: ");
                        append(&mut m, name);
                        Err(OvieError::runtime_error(m))
                    },
                }
            },
        }
    }

    /// The value of variable `name` as seen from this scope.
    pub fn get_variable(&self, name: &str) -> (r: Option<Value>)
        ensures
            value_view(r) == self.variable(name@),
        decreases self,
    {
        match find_entry(&self.variables, name) {
            Some(i) => Some(self.variables[i].1.duplicate()),
            None => match &self.parent {
                Some(p) => p.get_variable(name),
                None => None,
            },
        }
    }

    /// Define a function in this scope under its name, replacing any
    /// function of that name here.
    pub fn define_function(&mut self, function: Function)
        ensures
            final(self).function(function.name@) == Some(function),
            forall|m: Seq<char>| m != function.name@ ==> #[trigger] final(self).function(m) == old(self).function(m),
            forall|m: Seq<char>| #[trigger] final(self).variable(m) == old(self).variable(m),
            forall|m: Seq<char>| #[trigger] final(self).struct_type(m) == old(self).struct_type(m),
            forall|m: Seq<char>| #[trigger] final(self).enum_type(m) == old(self).enum_type(m),
    {
        let ghost f = function;
        let ghost keys = function_keys(self.functions@);
        match find_function(&self.functions, function.name.as_str()) {
            Some(i) => {
                proof { lemma_find_last_range(keys, f.name@); }
                self.functions.set(i, function);
                assert(function_keys(self.functions@) =~= keys);
                assert forall|m: Seq<char>| m != f.name@ implies #[trigger] self.function(m) == old(self).function(m) by {
                    lemma_find_last_range(keys, m);
                }
            },
            None => {
                self.functions.push(function);
                assert(function_keys(self.functions@) =~= keys.push(f.name@));
                proof { lemma_find_last_push(keys, f.name@, f.name@); }
                assert forall|m: Seq<char>| m != f.name@ implies #[trigger] self.function(m) == old(self).function(m) by {
                    lemma_find_last_range(keys, m);
                    lemma_find_last_push(keys, f.name@, m);
                }
            },
        }
    }

    /// The function named `name` as seen from this scope.
    pub fn get_function(&self, name: &str) -> (r: Option<&Function>)
        ensures
            match r {
                Some(f) => self.function(name@) == Some(*f),
                None => self.function(name@) is None,
            },
        decreases self,
    {
        match find_function(&self.functions, name) {
            Some(i) => Some(&self.functions[i]),
            None => match &self.parent {
                Some(p) => p.get_function(name),
                None => None,
            },
        }
    }

    /// Define a struct type with its field names in this scope.
    pub fn define_struct_type(&mut self, name: String, fields: Vec<String>)
        ensures
            final(self).struct_type(name@) == Some(texts_view(fields)),
            forall|m: Seq<char>| m != name@ ==> #[trigger] final(self).struct_type(m) == old(self).struct_type(m),
            forall|m: Seq<char>| #[trigger] final(self).variable(m) == old(self).variable(m),
            forall|m: Seq<char>| #[trigger] final(self).function(m) == old(self).function(m),
            forall|m: Seq<char>| #[trigger] final(self).enum_type(m) == old(self).enum_type(m),
    {
        bind(&mut self.struct_types, name.as_str(), fields);
    }

    /// The field names of struct type `name` as seen from this scope.
    pub fn get_struct_type(&self, name: &str) -> (r: Option<Vec<String>>)
        ensures
            names_view(r) == self.struct_type(name@),
        decreases self,
    {
        match find_entry(&self.struct_types, name) {
            Some(i) => Some(copy_texts(&self.struct_types[i].1)),
            None => match &self.parent {
                Some(p) => p.get_struct_type(name),
                None => None,
            },
        }
    }

    /// Define an enum type with its variant names in this scope.
    pub fn define_enum_type(&mut self, name: String, variants: Vec<String>)
        ensures
            final(self).enum_type(name@) == Some(texts_view(variants)),
            forall|m: Seq<char>| m != name@ ==> #[trigger] final(self).enum_type(m) == old(self).enum_type(m),
            forall|m: Seq<char>| #[trigger] final(self).variable(m) == old(self).variable(m),
            forall|m: Seq<char>| #[trigger] final(self).function(m) == old(self).function(m),
            forall|m: Seq<char>| #[trigger] final(self).struct_type(m) == old(self).struct_type(m),
    {
        bind(&mut self.enum_types, name.as_str(), variants);
    }

    /// The variant names of enum type `name` as seen from this scope.
    pub fn get_enum_type(&self, name: &str) -> (r: Option<Vec<String>>)
        ensures
            names_view(r) == self.enum_type(name@),
        decreases self,
    {
        match find_entry(&self.enum_types, name) {
            Some(i) => Some(copy_texts(&self.enum_types[i].1)),
            None => match &self.parent {
                Some(p) => p.get_enum_type(name),
                None => None,
            },
        }
    }
}


/// What applying a binary operator gives: a value; a floating-point
/// operation on two numbers (by their bits), whose result the caller
/// computes; or the concatenation of the display texts of two values, one
/// of them a string, which the caller writes (a number's text is its
/// floating-point rendering).
#[derive(Debug)]
pub enum BinaryOutcome {
    Value(Value),
    Float { op: BinaryOperator, left: u64, right: u64 },
    Concat { left: Value, right: Value },
}

/// The name of a value's type in error messages.
pub open spec fn value_kind_text(v: Value) -> Seq<char> {
    match v {
        Value::String(_) => "string"@,
        Value::Number(_) => "number"@,
        Value::Boolean(_) => "boolean"@,
        Value::Array(_) => "array"@,
        Value::Struct(_) => "struct"@,
        Value::Enum { .. } => "enum"@,
        Value::Null => "null"@,
        Value::Break => "break"@,
        Value::Continue => "continue"@,
        Value::Return(_) => "return"@,
    }
}

/// The name of a value's type in error messages.
pub fn value_type_name(value: &Value) -> (r: &'static str)
    ensures
        r@ == value_kind_text(*value),
{
    match value {
        Value::String(_) => "string",
        Value::Number(_) => "number",
        Value::Boolean(_) => "boolean",
        Value::Array(_) => "array",
        Value::Struct(_) => "struct",
        Value::Enum { .. } => "enum",
        Value::Null => "null",
        Value::Break => "break",
        Value::Continue => "continue",
        Value::Return(_) => "return",
    }
}

/// The error message of an operator that does not apply to its operands.
pub open spec fn invalid_binary(l: Value, op: BinaryOperator, r: Value) -> Seq<char> {
    "Invalid binary operation: "@ + value_kind_text(l) + " "@ + binary_symbol(op) + " "@ + value_kind_text(r)
}

/// Whether `res` is the value viewed as `v`.
pub open spec fn gives_value(res: OvieResult<BinaryOutcome>, v: ValueView) -> bool {
    res is Ok && res->Ok_0 is Value && res->Ok_0->Value_0@ == v
}

/// Whether `res` is the floating-point operation `op` on `a` and `b`.
pub open spec fn gives_float(res: OvieResult<BinaryOutcome>, op: BinaryOperator, a: u64, b: u64) -> bool {
    res is Ok && res->Ok_0 == BinaryOutcome::Float { op, left: a, right: b }
}

/// Whether `res` is the concatenation of the texts of copies of `l` and `r`.
pub open spec fn gives_concat(res: OvieResult<BinaryOutcome>, l: Value, r: Value) -> bool {
    res is Ok && res->Ok_0 is Concat && res->Ok_0->Concat_left@ == l@ && res->Ok_0->Concat_right@ == r@
}

/// Whether `v` is the array of copies of the elements of `a` then `b`.
pub open spec fn array_concat(v: Value, a: Vec<Value>, b: Vec<Value>) -> bool {
    &&& v is Array
    &&& v->Array_0@.len() == a@.len() + b@.len()
    &&& forall|i: int| 0 <= i < a@.len() ==> (#[trigger] v->Array_0@[i])@ == a@[i]@
    &&& forall|j: int| 0 <= j < b@.len() ==> (#[trigger] v->Array_0@[a@.len() + j])@ == b@[j]@
}

/// `==` (or, negated, `!=`) on two values: numbers are compared by the
/// caller, strings and booleans here; other operands are an error that
/// names `==`.
pub open spec fn equality_applied(l: Value, r: Value, negated: bool, res: OvieResult<BinaryOutcome>) -> bool {
    match (l, r) {
        (Value::Number(a), Value::Number(b)) => gives_float(
            res,
            if negated { BinaryOperator::NotEqual } else { BinaryOperator::Equal },
            a,
            b,
        ),
        (Value::String(a), Value::String(b)) => gives_value(res, ValueView::Boolean((a@ == b@) != negated)),
        (Value::Boolean(a), Value::Boolean(b)) => gives_value(res, ValueView::Boolean((a == b) != negated)),
        _ => fails_with(res, invalid_binary(l, BinaryOperator::Equal, r)),
    }
}

/// What applying `op` to `l` and `r` gives: arithmetic and ordering of two
/// numbers is done by the caller, division and remainder by zero (either
/// sign) are errors; `+` joins two strings, joins the texts of a string and
/// any other value, and joins two arrays; `==` and `!=` as
/// `equality_applied`; `&&` gives `r` when `l` is truthy and `l` otherwise,
/// `||` the reverse; any other combination is an error naming the types.
pub open spec fn binary_applied(l: Value, op: BinaryOperator, r: Value, res: OvieResult<BinaryOutcome>) -> bool {
    match op {
        BinaryOperator::Add => match (l, r) {
            (Value::Number(a), Value::Number(b)) => gives_float(res, op, a, b),
            (Value::String(a), Value::String(b)) => gives_value(res, ValueView::String(a@ + b@)),
            (Value::String(_), _) => gives_concat(res, l, r),
            (_, Value::String(_)) => gives_concat(res, l, r),
            (Value::Array(a), Value::Array(b)) => res is Ok && res->Ok_0 is Value && array_concat(
                res->Ok_0->Value_0,
                a,
                b,
            ),
            _ => fails_with(res, invalid_binary(l, op, r)),
        },
        BinaryOperator::Divide => match (l, r) {
            (Value::Number(a), Value::Number(b)) => if is_zero_bits(b) {
                fails_with(res, "Division by zero"@)
            } else {
                gives_float(res, op, a, b)
            },
            _ => fails_with(res, invalid_binary(l, op, r)),
        },
        BinaryOperator::Modulo => match (l, r) {
            (Value::Number(a), Value::Number(b)) => if is_zero_bits(b) {
                fails_with(res, "Modulo by zero"@)
            } else {
                gives_float(res, op, a, b)
            },
            _ => fails_with(res, invalid_binary(l, op, r)),
        },
        BinaryOperator::Equal => equality_applied(l, r, false, res),
        BinaryOperator::NotEqual => equality_applied(l, r, true, res),
        BinaryOperator::And => gives_value(res, if truthy(&l) { r@ } else { l@ }),
        BinaryOperator::Or => gives_value(res, if truthy(&l) { l@ } else { r@ }),
        _ => match (l, r) {
            (Value::Number(a), Value::Number(b)) => gives_float(res, op, a, b),
            _ => fails_with(res, invalid_binary(l, op, r)),
        },
    }
}

fn invalid_binary_error(l: &Value, op: BinaryOperator, r: &Value) -> (e: OvieError)
    ensures
        e@ == ErrorView::RuntimeError(invalid_binary(*l, op, *r)),
{
    let mut m = owned("Invalid binary operation: ");
    append(&mut m, value_type_name(l));
    append(&mut m, " ");
    append(&mut m, op.symbol());
    append(&mut m, " ");
    append(&mut m, value_type_name(r));
    OvieError::runtime_error(m)
}

fn runtime_error_text(text: &str) -> (e: OvieError)
    ensures
        e@ == ErrorView::RuntimeError(text@),
{
    OvieError::runtime_error(owned(text))
}

/// Copies of the elements of `a` then `b`.
fn concat_arrays(a: &Vec<Value>, b: &Vec<Value>) -> (r: Value)
    ensures
        array_concat(r, *a, *b),
{
    let mut out: Vec<Value> = Vec::new();
    let mut i: usize = 0;
    while i < a.len()
        invariant
            i <= a@.len(),
            out@.len() == i,
            forall|k: int| 0 <= k < i ==> (#[trigger] out@[k])@ == a@[k]@,
        decreases a@.len() - i,
    {
        out.push(a[i].duplicate());
        i = i + 1;
    }
    let mut j: usize = 0;
    while j < b.len()
        invariant
            j <= b@.len(),
            out@.len() == a@.len() + j,
            forall|k: int| 0 <= k < a@.len() ==> (#[trigger] out@[k])@ == a@[k]@,
            forall|k: int| 0 <= k < j ==> (#[trigger] out@[a@.len() + k])@ == b@[k]@,
        decreases b@.len() - j,
    {
        out.push(b[j].duplicate());
        j = j + 1;
    }
    Value::Array(out)
}

/// `==` or `!=` on two values (see `equality_applied`).
fn apply_equality(left: &Value, right: &Value, negated: bool) -> (r: OvieResult<BinaryOutcome>)
    ensures
        equality_applied(*left, *right, negated, r),
{
    match (left, right) {
        (Value::Number(a), Value::Number(b)) => Ok(
            BinaryOutcome::Float {
                op: if negated { BinaryOperator::NotEqual } else { BinaryOperator::Equal },
                left: *a,
                right: *b,
            },
        ),
        (Value::String(a), Value::String(b)) => {
            let e = same_text(a.as_str(), b.as_str());
            Ok(BinaryOutcome::Value(Value::Boolean(e != negated)))
        },
        (Value::Boolean(a), Value::Boolean(b)) => Ok(BinaryOutcome::Value(Value::Boolean((*a == *b) != negated))),
        _ => Err(invalid_binary_error(left, BinaryOperator::Equal, right)),
    }
}

/// Apply a binary operator to two values (see `binary_applied`).
pub fn apply_binary_operator(left: &Value, operator: &BinaryOperator, right: &Value) -> (r: OvieResult<BinaryOutcome>)
    ensures
        binary_applied(*left, *operator, *right, r),
{
    let op = *operator;
    match op {
        BinaryOperator::Add => match (left, right) {
            (Value::Number(a), Value::Number(b)) => Ok(BinaryOutcome::Float { op, left: *a, right: *b }),
            (Value::String(a), Value::String(b)) => {
                let mut s = a.clone();
                append(&mut s, b.as_str());
                Ok(BinaryOutcome::Value(Value::String(s)))
            },
            (Value::String(_), _) => Ok(BinaryOutcome::Concat { left: left.duplicate(), right: right.duplicate() }),
            (_, Value::String(_)) => Ok(BinaryOutcome::Concat { left: left.duplicate(), right: right.duplicate() }),
            (Value::Array(a), Value::Array(b)) => Ok(BinaryOutcome::Value(concat_arrays(a, b))),
            _ => Err(invalid_binary_error(left, op, right)),
        },
        BinaryOperator::Divide | BinaryOperator::Modulo => match (left, right) {
            (Value::Number(a), Value::Number(b)) => {
                if *b == 0 || *b == 0x8000_0000_0000_0000u64 {
                    if op == BinaryOperator::Divide {
                        Err(runtime_error_text("Division by zero"))
                    } else {
                        Err(runtime_error_text("Modulo by zero"))
                    }
                } else {
                    Ok(BinaryOutcome::Float { op, left: *a, right: *b })
                }
            },
            _ => Err(invalid_binary_error(left, op, right)),
        },
        BinaryOperator::Equal => apply_equality(left, right, false),
        BinaryOperator::NotEqual => apply_equality(left, right, true),
        BinaryOperator::And => {
            if left.is_truthy() {
                Ok(BinaryOutcome::Value(right.duplicate()))
            } else {
                Ok(BinaryOutcome::Value(left.duplicate()))
            }
        },
        BinaryOperator::Or => {
            if left.is_truthy() {
                Ok(BinaryOutcome::Value(left.duplicate()))
            } else {
                Ok(BinaryOutcome::Value(right.duplicate()))
            }
        },
        _ => match (left, right) {
            (Value::Number(a), Value::Number(b)) => Ok(BinaryOutcome::Float { op, left: *a, right: *b }),
            _ => Err(invalid_binary_error(left, op, right)),
        },
    }
}

/// The sign bit of an IEEE 754 double.
pub open spec fn sign_bit() -> u64 {
    0x8000_0000_0000_0000u64
}

/// Apply a unary operator: `-` on a number flips its sign bit (IEEE 754
/// negation), `!` gives whether the operand is not truthy; `-` on anything
/// else is an error naming the operand's type.
pub fn apply_unary_operator(operator: &UnaryOperator, operand: &Value) -> (r: OvieResult<Value>)
    ensures
        match (*operator, *operand) {
            (UnaryOperator::Negate, Value::Number(n)) => r is Ok && r->Ok_0@ == ValueView::Number(n ^ sign_bit()),
            (UnaryOperator::Not, _) => r is Ok && r->Ok_0@ == ValueView::Boolean(!truthy(operand)),
            _ => r is Err && r->Err_0@ == ErrorView::RuntimeError(
                "Invalid unary operation: "@ + "-"@ + " "@ + value_kind_text(*operand),
            ),
        },
{
    match (operator, operand) {
        (UnaryOperator::Negate, Value::Number(n)) => Ok(Value::Number(*n ^ 0x8000_0000_0000_0000u64)),
        (UnaryOperator::Not, _) => Ok(Value::Boolean(!operand.is_truthy())),
        _ => {
            let mut m = owned("Invalid unary operation: ");
            append(&mut m, operator.symbol());
            append(&mut m, " ");
            append(&mut m, value_type_name(operand));
            Err(OvieError::runtime_error(m))
        },
    }
}


/// `==` on two booleans gives whether they are equal and `!=` whether they
/// differ; so does it on two strings (by their text); a value of either
/// kind is equal to itself; and `==` and `!=` on two numbers go to the
/// caller as the float comparison of those two numbers.
pub proof fn law_equality_on_values(
    a: bool,
    b: bool,
    s: String,
    t: String,
    x: u64,
    y: u64,
    res: OvieResult<BinaryOutcome>,
)
    ensures
        binary_applied(Value::Boolean(a), BinaryOperator::Equal, Value::Boolean(b), res) ==> (res is Ok
            && res->Ok_0 is Value && res->Ok_0->Value_0 == Value::Boolean(a == b)),
        binary_applied(Value::Boolean(a), BinaryOperator::NotEqual, Value::Boolean(b), res) ==> (res is Ok
            && res->Ok_0 is Value && res->Ok_0->Value_0 == Value::Boolean(a != b)),
        binary_applied(Value::Boolean(a), BinaryOperator::Equal, Value::Boolean(a), res) ==> (res is Ok
            && res->Ok_0 is Value && res->Ok_0->Value_0 == Value::Boolean(true)),
        binary_applied(Value::String(s), BinaryOperator::Equal, Value::String(t), res) ==> (res is Ok
            && res->Ok_0 is Value && res->Ok_0->Value_0 == Value::Boolean(s@ == t@)),
        binary_applied(Value::String(s), BinaryOperator::NotEqual, Value::String(t), res) ==> (res is Ok
            && res->Ok_0 is Value && res->Ok_0->Value_0 == Value::Boolean(s@ != t@)),
        binary_applied(Value::String(s), BinaryOperator::Equal, Value::String(s), res) ==> (res is Ok
            && res->Ok_0 is Value && res->Ok_0->Value_0 == Value::Boolean(true)),
        binary_applied(Value::Number(x), BinaryOperator::Equal, Value::Number(y), res) ==> res == Ok::<
            BinaryOutcome,
            OvieError,
        >(BinaryOutcome::Float { op: BinaryOperator::Equal, left: x, right: y }),
        binary_applied(Value::Number(x), BinaryOperator::NotEqual, Value::Number(y), res) ==> res == Ok::<
            BinaryOutcome,
            OvieError,
        >(BinaryOutcome::Float { op: BinaryOperator::NotEqual, left: x, right: y }),
{
}


/// A boolean counts as itself and a number as true unless it is a zero of
/// either sign; `&&` and `||` on two booleans give their conjunction and
/// disjunction; `!` gives the negation of a boolean; each ordering
/// operator on two numbers hands the caller that same comparison of
/// exactly those numbers.
pub proof fn law_logic_and_ordering(a: bool, b: bool, x: u64, y: u64, res: OvieResult<BinaryOutcome>)
    ensures
        truthy(&Value::Boolean(a)) == a,
        truthy(&Value::Number(x)) == (x != 0 && x != 0x8000_0000_0000_0000u64),
        !truthy(&Value::Null),
        binary_applied(Value::Boolean(a), BinaryOperator::And, Value::Boolean(b), res) ==> (res is Ok
            && res->Ok_0 is Value && res->Ok_0->Value_0 == Value::Boolean(a && b)),
        binary_applied(Value::Boolean(a), BinaryOperator::Or, Value::Boolean(b), res) ==> (res is Ok
            && res->Ok_0 is Value && res->Ok_0->Value_0 == Value::Boolean(a || b)),
        binary_applied(Value::Number(x), BinaryOperator::Less, Value::Number(y), res) ==> res == Ok::<
            BinaryOutcome,
            OvieError,
        >(BinaryOutcome::Float { op: BinaryOperator::Less, left: x, right: y }),
        binary_applied(Value::Number(x), BinaryOperator::LessEqual, Value::Number(y), res) ==> res == Ok::<
            BinaryOutcome,
            OvieError,
        >(BinaryOutcome::Float { op: BinaryOperator::LessEqual, left: x, right: y }),
        binary_applied(Value::Number(x), BinaryOperator::Greater, Value::Number(y), res) ==> res == Ok::<
            BinaryOutcome,
            OvieError,
        >(BinaryOutcome::Float { op: BinaryOperator::Greater, left: x, right: y }),
        binary_applied(Value::Number(x), BinaryOperator::GreaterEqual, Value::Number(y), res) ==> res == Ok::<
            BinaryOutcome,
            OvieError,
        >(BinaryOutcome::Float { op: BinaryOperator::GreaterEqual, left: x, right: y }),
        binary_applied(Value::Number(x), BinaryOperator::Add, Value::Number(y), res) ==> res == Ok::<
            BinaryOutcome,
            OvieError,
        >(BinaryOutcome::Float { op: BinaryOperator::Add, left: x, right: y }),
        binary_applied(Value::Number(x), BinaryOperator::Subtract, Value::Number(y), res) ==> res == Ok::<
            BinaryOutcome,
            OvieError,
        >(BinaryOutcome::Float { op: BinaryOperator::Subtract, left: x, right: y }),
        binary_applied(Value::Number(x), BinaryOperator::Multiply, Value::Number(y), res) ==> res == Ok::<
            BinaryOutcome,
            OvieError,
        >(BinaryOutcome::Float { op: BinaryOperator::Multiply, left: x, right: y }),
{
}

} // verus!
