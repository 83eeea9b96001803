//! The portable expression tree that translation takes as input.
//!
//! The types follow the message layout of the interchange format, cut down
//! to what translation reads: a sub-message that may be absent is an
//! `Option`, a repeated field is a `Vec`, and every alternative that
//! translation does not distinguish is folded into one `Other` variant.

use std::collections::HashMap;
use vstd::prelude::*;

verus! {

/// The type variation of a signed integer, and of every other type.
pub const DEFAULT_TYPE_REF: u32 = 0;

/// The type variation that marks an integer type as unsigned.
pub const UNSIGNED_INTEGER_TYPE_REF: u32 = 1;

/// The kind of a type descriptor.
#[derive(Clone, Copy, Debug, PartialEq, Eq, Structural, Hash)]
pub enum Kind {
    Bool,
    I8,
    I16,
    I32,
    I64,
    String,
    Date,
    /// Any kind that has no counterpart among the scalar types.
    Other,
}

/// A type descriptor: its kind, if it has one, and its type variation.
#[derive(Clone, Copy, Debug, PartialEq, Eq, Structural, Hash)]
pub struct Type {
    pub kind: Option<Kind>,
    pub type_variation_reference: u32,
}

/// The payload of a literal.
#[derive(Clone, Debug, PartialEq, Eq)]
pub enum LiteralType {
    Boolean(bool),
    /// An 8-bit integer, carried in 32 bits.
    I8(i32),
    /// A 16-bit integer, carried in 32 bits.
    I16(i32),
    I32(i32),
    I64(i64),
    String(String),
    /// Days since the epoch.
    Date(i32),
    /// A null of the given type.
    Null(Type),
    /// Any payload that has no counterpart among the scalar values.
    Other,
}

/// A literal: its payload, if it has one, and its type variation.
#[derive(Clone, Debug, PartialEq, Eq)]
pub struct Literal {
    pub literal_type: Option<LiteralType>,
    pub type_variation_reference: u32,
}

/// A reference to a field of the input row.
#[derive(Clone, Copy, Debug, PartialEq, Eq, Structural, Hash)]
pub enum FieldReference {
    /// A direct reference to the struct field at the ordinal `field`;
    /// `has_child` says whether a nested segment follows.
    StructField { field: i32, has_child: bool },
    /// A direct reference of any other kind.
    DirectOther,
    /// A masked reference, or none at all.
    Other,
}

/// An argument of a function call.
#[derive(Debug, PartialEq, Eq)]
pub enum ArgType {
    /// A value argument.
    Value(Expression),
    /// A type or an enumeration argument.
    Other,
}

/// An argument slot of a function call.
#[derive(Debug, PartialEq, Eq)]
pub struct FunctionArgument {
    pub arg_type: Option<ArgType>,
}

/// A call of a scalar function, named by a numeric reference.
#[derive(Debug, PartialEq, Eq)]
pub struct ScalarFunction {
    pub function_reference: u32,
    pub arguments: Vec<FunctionArgument>,
}

/// A call of a window function.
#[derive(Debug, PartialEq, Eq)]
pub struct WindowFunction {
    pub function_reference: u32,
    pub arguments: Vec<FunctionArgument>,
}

/// One condition of an if-then chain, with the expression it selects.
#[derive(Debug, PartialEq, Eq)]
pub struct IfClause {
    pub cond: Option<Expression>,
    pub then: Option<Expression>,
}

/// An if-then chain: its clauses in order, and the expression selected where
/// no condition holds.
#[derive(Debug, PartialEq, Eq)]
pub struct IfThen {
    pub ifs: Vec<IfClause>,
    pub els: Option<Box<Expression>>,
}

/// A cast of `input` to the type `typ`.
#[derive(Debug, PartialEq, Eq)]
pub struct Cast {
    pub typ: Option<Type>,
    pub input: Option<Box<Expression>>,
}

/// A value, or a test of a value against a list of options.
#[derive(Debug, PartialEq, Eq)]
pub struct SingularOrList {
    pub value: Option<Box<Expression>>,
    pub options: Vec<Expression>,
}

/// The kind of an expression node.
#[derive(Debug, PartialEq, Eq)]
pub enum RexType {
    Literal(Literal),
    Selection(FieldReference),
    ScalarFunction(ScalarFunction),
    WindowFunction(WindowFunction),
    IfThen(Box<IfThen>),
    SingularOrList(Box<SingularOrList>),
    Cast(Box<Cast>),
    /// Any other node kind.
    Other,
}

/// A node of the portable expression tree.
#[derive(Debug, PartialEq, Eq)]
pub struct Expression {
    pub rex_type: Option<RexType>,
}

/// The mathematical content of a [`LiteralType`]: a string is its sequence
/// of characters.
pub ghost enum SpecLiteralType {
    Boolean(bool),
    I8(i32),
    I16(i32),
    I32(i32),
    I64(i64),
    String(Seq<char>),
    Date(i32),
    Null(Type),
    Other,
}

impl View for LiteralType {
    type V = SpecLiteralType;

    open spec fn view(&self) -> SpecLiteralType {
        match *self {
            LiteralType::Boolean(b) => SpecLiteralType::Boolean(b),
            LiteralType::I8(n) => SpecLiteralType::I8(n),
            LiteralType::I16(n) => SpecLiteralType::I16(n),
            LiteralType::I32(n) => SpecLiteralType::I32(n),
            LiteralType::I64(n) => SpecLiteralType::I64(n),
            LiteralType::String(s) => SpecLiteralType::String(s@),
            LiteralType::Date(d) => SpecLiteralType::Date(d),
            LiteralType::Null(t) => SpecLiteralType::Null(t),
            LiteralType::Other => SpecLiteralType::Other,
        }
    }
}

/// The mathematical content of a [`Literal`].
pub ghost struct SpecLiteral {
    pub literal_type: Option<SpecLiteralType>,
    pub type_variation_reference: u32,
}

impl View for Literal {
    type V = SpecLiteral;

    open spec fn view(&self) -> SpecLiteral {
        SpecLiteral {
            literal_type: match self.literal_type {
                Some(l) => Some(l@),
                None => None,
            },
            type_variation_reference: self.type_variation_reference,
        }
    }
}

/// The mathematical content of an [`ArgType`].
pub ghost enum SpecArgType {
    Value(SpecExpression),
    Other,
}

/// The mathematical content of a [`FunctionArgument`].
pub ghost struct SpecFunctionArgument {
    pub arg_type: Option<SpecArgType>,
}

/// The mathematical content of a [`ScalarFunction`]: the arguments are a
/// sequence.
pub ghost struct SpecScalarFunction {
    pub function_reference: u32,
    pub arguments: Seq<SpecFunctionArgument>,
}

/// The mathematical content of a [`WindowFunction`].
pub ghost struct SpecWindowFunction {
    pub function_reference: u32,
    pub arguments: Seq<SpecFunctionArgument>,
}

/// The mathematical content of an [`IfClause`].
pub ghost struct SpecIfClause {
    pub cond: Option<SpecExpression>,
    pub then: Option<SpecExpression>,
}

/// The mathematical content of an [`IfThen`]: the clauses are a sequence.
pub ghost struct SpecIfThen {
    pub ifs: Seq<SpecIfClause>,
    pub els: Option<Box<SpecExpression>>,
}

/// The mathematical content of a [`Cast`].
pub ghost struct SpecCast {
    pub typ: Option<Type>,
    pub input: Option<Box<SpecExpression>>,
}

/// The mathematical content of a [`SingularOrList`].
pub ghost struct SpecSingularOrList {
    pub value: Option<Box<SpecExpression>>,
    pub options: Seq<SpecExpression>,
}

/// The mathematical content of a [`RexType`].
pub ghost enum SpecRexType {
    Literal(SpecLiteral),
    Selection(FieldReference),
    ScalarFunction(SpecScalarFunction),
    WindowFunction(SpecWindowFunction),
    IfThen(Box<SpecIfThen>),
    SingularOrList(Box<SpecSingularOrList>),
    Cast(Box<SpecCast>),
    Other,
}

/// The mathematical content of an [`Expression`]: a tree whose repeated
/// fields are sequences and whose strings are sequences of characters.
pub ghost struct SpecExpression {
    pub rex_type: Option<SpecRexType>,
}

/// The arguments that a vector of arguments stands for.
pub open spec fn argument_models(v: Vec<FunctionArgument>) -> Seq<SpecFunctionArgument>
    decreases v,
{
    Seq::new(
        v@.len(),
        |i: int|
            if 0 <= i < v@.len() {
                v@[i].model()
            } else {
                SpecFunctionArgument { arg_type: None }
            },
    )
}

impl ArgType {
    /// The argument that this value stands for.
    pub open spec fn model(self) -> SpecArgType
        decreases self,
    {
        match self {
            ArgType::Value(e) => SpecArgType::Value(e.model()),
            ArgType::Other => SpecArgType::Other,
        }
    }
}

impl FunctionArgument {
    /// The argument slot that this value stands for.
    pub open spec fn model(self) -> SpecFunctionArgument
        decreases self,
    {
        SpecFunctionArgument {
            arg_type: match self.arg_type {
                Some(a) => Some(a.model()),
                None => None,
            },
        }
    }
}

impl ScalarFunction {
    /// The call that this value stands for.
    pub open spec fn model(self) -> SpecScalarFunction
        decreases self,
    {
        SpecScalarFunction {
            function_reference: self.function_reference,
            arguments: argument_models(self.arguments),
        }
    }
}

impl WindowFunction {
    /// The call that this value stands for.
    pub open spec fn model(self) -> SpecWindowFunction
        decreases self,
    {
        SpecWindowFunction {
            function_reference: self.function_reference,
            arguments: argument_models(self.arguments),
        }
    }
}

impl IfClause {
    /// The clause that this value stands for.
    pub open spec fn model(self) -> SpecIfClause
        decreases self,
    {
        match self {
            IfClause { cond, then: chosen } => SpecIfClause {
                cond: match cond {
                    Some(e) => Some(e.model()),
                    None => None,
                },
                then: match chosen {
                    Some(e) => Some(e.model()),
                    None => None,
                },
            },
        }
    }
}

impl IfThen {
    /// The chain that this value stands for.
    pub open spec fn model(self) -> SpecIfThen
        decreases self,
    {
        SpecIfThen {
            ifs: Seq::new(
                self.ifs@.len(),
                |i: int|
                    if 0 <= i < self.ifs@.len() {
                        self.ifs@[i].model()
                    } else {
                        SpecIfClause { cond: None, then: None }
                    },
            ),
            els: match self.els {
                Some(e) => Some(Box::new((*e).model())),
                None => None,
            },
        }
    }
}

impl Cast {
    /// The cast that this value stands for.
    pub open spec fn model(self) -> SpecCast
        decreases self,
    {
        SpecCast {
            typ: self.typ,
            input: match self.input {
                Some(e) => Some(Box::new((*e).model())),
                None => None,
            },
        }
    }
}

impl SingularOrList {
    /// The node that this value stands for.
    pub open spec fn model(self) -> SpecSingularOrList
        decreases self,
    {
        SpecSingularOrList {
            value: match self.value {
                Some(e) => Some(Box::new((*e).model())),
                None => None,
            },
            options: Seq::new(
                self.options@.len(),
                |i: int|
                    if 0 <= i < self.options@.len() {
                        self.options@[i].model()
                    } else {
                        SpecExpression { rex_type: None }
                    },
            ),
        }
    }
}

impl RexType {
    /// The node kind that this value stands for.
    pub open spec fn model(self) -> SpecRexType
        decreases self,
    {
        match self {
            RexType::Literal(lit) => SpecRexType::Literal(lit@),
            RexType::Selection(field_ref) => SpecRexType::Selection(field_ref),
            RexType::ScalarFunction(f) => SpecRexType::ScalarFunction(f.model()),
            RexType::WindowFunction(f) => SpecRexType::WindowFunction(f.model()),
            RexType::IfThen(if_then) => SpecRexType::IfThen(Box::new((*if_then).model())),
            RexType::SingularOrList(s) => SpecRexType::SingularOrList(Box::new((*s).model())),
            RexType::Cast(cast) => SpecRexType::Cast(Box::new((*cast).model())),
            RexType::Other => SpecRexType::Other,
        }
    }
}

impl Expression {
    /// The tree that this value stands for.
    pub open spec fn model(self) -> SpecExpression
        decreases self,
    {
        SpecExpression {
            rex_type: match self.rex_type {
                Some(rex) => Some(rex.model()),
                None => None,
            },
        }
    }
}

impl View for Expression {
    type V = SpecExpression;

    open spec fn view(&self) -> SpecExpression {
        self.model()
    }
}

impl View for ScalarFunction {
    type V = SpecScalarFunction;

    open spec fn view(&self) -> SpecScalarFunction {
        self.model()
    }
}

impl View for IfThen {
    type V = SpecIfThen;

    open spec fn view(&self) -> SpecIfThen {
        self.model()
    }
}

/// Copies of the arguments in a vector.
#[verifier::loop_isolation(false)]
fn duplicate_arguments(args: &Vec<FunctionArgument>) -> (r: Vec<FunctionArgument>)
    ensures
        argument_models(r) == argument_models(*args),
    decreases args,
{
    let mut out: Vec<FunctionArgument> = Vec::new();
    let mut i: usize = 0;
    while i < args.len()
        invariant
            i <= args@.len(),
            out@.len() == i,
            forall|j: int| 0 <= j < i ==> (#[trigger] out@[j]).model() == args@[j].model(),
        decreases args@.len() - i,
    {
        assert(decreases_to!(*args => args@[i as int]));
        out.push(args[i].duplicate());
        i = i + 1;
    }
    assert(argument_models(out) =~= argument_models(*args));
    out
}

impl ArgType {
    /// A copy that stands for the same argument.
    pub fn duplicate(&self) -> (r: ArgType)
        ensures
            r.model() == self.model(),
        decreases self,
    {
        match self {
            ArgType::Value(e) => ArgType::Value(e.duplicate()),
            ArgType::Other => ArgType::Other,
        }
    }
}

impl FunctionArgument {
    /// A copy that stands for the same argument slot.
    pub fn duplicate(&self) -> (r: FunctionArgument)
        ensures
            r.model() == self.model(),
        decreases self,
    {
        FunctionArgument {
            arg_type: match &self.arg_type {
                Some(a) => Some(a.duplicate()),
                None => None,
            },
        }
    }
}

impl ScalarFunction {
    /// A copy that stands for the same call.
    pub fn duplicate(&self) -> (r: ScalarFunction)
        ensures
            r@ == self@,
        decreases self,
    {
        ScalarFunction {
            function_reference: self.function_reference,
            arguments: duplicate_arguments(&self.arguments),
        }
    }
}

impl WindowFunction {
    /// A copy that stands for the same call.
    pub fn duplicate(&self) -> (r: WindowFunction)
        ensures
            r.model() == self.model(),
        decreases self,
    {
        WindowFunction {
            function_reference: self.function_reference,
            arguments: duplicate_arguments(&self.arguments),
        }
    }
}

impl IfClause {
    /// A copy that stands for the same clause.
    pub fn duplicate(&self) -> (r: IfClause)
        ensures
            r.model() == self.model(),
        decreases self,
    {
        match self {
            IfClause { cond, then: chosen } => IfClause {
                cond: match cond {
                    Some(e) => Some(e.duplicate()),
                    None => None,
                },
                then: match chosen {
                    Some(e) => Some(e.duplicate()),
                    None => None,
                },
            },
        }
    }
}

impl IfThen {
    /// A copy that stands for the same chain.
    #[verifier::loop_isolation(false)]
    pub fn duplicate(&self) -> (r: IfThen)
        ensures
            r@ == self@,
        decreases self,
    {
        let mut ifs: Vec<IfClause> = Vec::new();
        let mut i: usize = 0;
        while i < self.ifs.len()
            invariant
                i <= self.ifs@.len(),
                ifs@.len() == i,
                forall|j: int| 0 <= j < i ==> (#[trigger] ifs@[j]).model() == self.ifs@[j].model(),
            decreases self.ifs@.len() - i,
        {
            assert(decreases_to!(self.ifs => self.ifs@[i as int]));
            ifs.push(self.ifs[i].duplicate());
            i = i + 1;
        }
        let r = IfThen {
            ifs,
            els: match &self.els {
                Some(e) => Some(Box::new((**e).duplicate())),
                None => None,
            },
        };
        assert(r.model().ifs =~= self.model().ifs);
        r
    }
}

impl Cast {
    /// A copy that stands for the same cast.
    pub fn duplicate(&self) -> (r: Cast)
        ensures
            r.model() == self.model(),
        decreases self,
    {
        Cast {
            typ: self.typ,
            input: match &self.input {
                Some(e) => Some(Box::new((**e).duplicate())),
                None => None,
            },
        }
    }
}

impl SingularOrList {
    /// A copy that stands for the same node.
    #[verifier::loop_isolation(false)]
    pub fn duplicate(&self) -> (r: SingularOrList)
        ensures
            r.model() == self.model(),
        decreases self,
    {
        let mut options: Vec<Expression> = Vec::new();
        let mut i: usize = 0;
        while i < self.options.len()
            invariant
                i <= self.options@.len(),
                options@.len() == i,
                forall|j: int|
                    0 <= j < i ==> (#[trigger] options@[j]).model() == self.options@[j].model(),
            decreases self.options@.len() - i,
        {
            assert(decreases_to!(self.options => self.options@[i as int]));
            options.push(self.options[i].duplicate());
            i = i + 1;
        }
        let r = SingularOrList {
            value: match &self.value {
                Some(e) => Some(Box::new((**e).duplicate())),
                None => None,
            },
            options,
        };
        assert(r.model().options =~= self.model().options);
        r
    }
}

impl RexType {
    /// A copy that stands for the same node kind.
    pub fn duplicate(&self) -> (r: RexType)
        ensures
            r.model() == self.model(),
        decreases self,
    {
        match self {
            RexType::Literal(lit) => RexType::Literal(
                Literal {
                    literal_type: match &lit.literal_type {
                        Some(LiteralType::Boolean(b)) => Some(LiteralType::Boolean(*b)),
                        Some(LiteralType::I8(n)) => Some(LiteralType::I8(*n)),
                        Some(LiteralType::I16(n)) => Some(LiteralType::I16(*n)),
                        Some(LiteralType::I32(n)) => Some(LiteralType::I32(*n)),
                        Some(LiteralType::I64(n)) => Some(LiteralType::I64(*n)),
                        Some(LiteralType::String(s)) => Some(LiteralType::String(s.clone())),
                        Some(LiteralType::Date(d)) => Some(LiteralType::Date(*d)),
                        Some(LiteralType::Null(t)) => Some(LiteralType::Null(*t)),
                        Some(LiteralType::Other) => Some(LiteralType::Other),
                        None => None,
                    },
                    type_variation_reference: lit.type_variation_reference,
                },
            ),
            RexType::Selection(field_ref) => RexType::Selection(*field_ref),
            RexType::ScalarFunction(f) => RexType::ScalarFunction(f.duplicate()),
            RexType::WindowFunction(f) => RexType::WindowFunction(f.duplicate()),
            RexType::IfThen(if_then) => RexType::IfThen(Box::new((**if_then).duplicate())),
            RexType::SingularOrList(s) => RexType::SingularOrList(Box::new((**s).duplicate())),
            RexType::Cast(cast) => RexType::Cast(Box::new((**cast).duplicate())),
            RexType::Other => RexType::Other,
        }
    }
}

impl Expression {
    /// A copy that stands for the same tree.
    pub fn duplicate(&self) -> (r: Expression)
        ensures
            r@ == self@,
        decreases self,
    {
        Expression {
            rex_type: match &self.rex_type {
                Some(rex) => Some(rex.duplicate()),
                None => None,
            },
        }
    }
}

impl Clone for Expression {
    /// A copy that stands for the same tree.
    fn clone(&self) -> (r: Self)
        ensures
            r@ == self@,
    {
        self.duplicate()
    }
}

impl Clone for ScalarFunction {
    /// A copy that stands for the same call.
    fn clone(&self) -> (r: Self)
        ensures
            r@ == self@,
    {
        self.duplicate()
    }
}

impl Clone for IfThen {
    /// A copy that stands for the same chain.
    fn clone(&self) -> (r: Self)
        ensures
            r@ == self@,
    {
        self.duplicate()
    }
}

/// The mapping from numeric function references to function names.
#[derive(Debug)]
pub struct FunctionExtensions {
    anchor_to_name: HashMap<u32, String>,
}

impl View for FunctionExtensions {
    type V = Map<u32, Seq<char>>;

    closed spec fn view(&self) -> Map<u32, Seq<char>> {
        Map::new(
            |k: u32| self.anchor_to_name@.dom().contains(k),
            |k: u32| self.anchor_to_name@[k]@,
        )
    }
}

impl FunctionExtensions {
    /// The mapping that holds no reference.
    pub fn new() -> (r: FunctionExtensions)
        ensures
            r@ == Map::<u32, Seq<char>>::empty(),
    {
        let r = FunctionExtensions { anchor_to_name: HashMap::new() };
        assert(r@ =~= Map::<u32, Seq<char>>::empty());
        r
    }

    /// Maps the reference `anchor` to `name`, in place of any earlier name.
    pub fn insert(&mut self, anchor: u32, name: String)
        ensures
            final(self)@ == old(self)@.insert(anchor, name@),
    {
        broadcast use vstd::std_specs::hash::group_hash_axioms;

        self.anchor_to_name.insert(anchor, name);
        assert(self@ =~= old(self)@.insert(anchor, name@));
    }

    /// The name that the reference `anchor` is mapped to, if any.
    pub fn get(&self, anchor: u32) -> (r: Option<&String>)
        ensures
            match r {
                Some(name) => self@.dom().contains(anchor) && self@[anchor] == name@,
                None => !self@.dom().contains(anchor),
            },
    {
        broadcast use vstd::std_specs::hash::group_hash_axioms;

        self.anchor_to_name.get(&anchor)
    }
}

} // verus!
