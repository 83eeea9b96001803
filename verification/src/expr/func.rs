//! The function registry: the callable forms of each function name, with
//! their signatures, and the evaluation of binary functions on constants.

use vstd::prelude::*;
use crate::datatypes::ConcreteDataType;
use crate::error::Error;
use crate::expr::scalar::ScalarExpr;
use crate::expr::scalar::SpecExpr;
use crate::text::str_eq;

verus! {

/// A function, apart from the types it is applied to.
#[derive(Clone, Copy, Debug, PartialEq, Eq, Structural, Hash)]
pub enum GenericFn {
    Not,
    IsNull,
    IsTrue,
    IsFalse,
    StepTimestamp,
    Cast,
    Eq,
    NotEq,
    Lt,
    Lte,
    Gt,
    Gte,
    Add,
    Sub,
    Mul,
    Div,
    Mod,
    And,
    Or,
    Now,
    CurrentSchema,
}

/// The calling convention under which a function is resolved.
#[derive(Clone, Copy, Debug, PartialEq, Eq, Structural, Hash)]
pub enum ResolutionClass {
    Unary,
    Binary,
    Variadic,
    Unmaterializable,
}

impl GenericFn {
    /// The calling convention of the function.
    pub open spec fn class(self) -> ResolutionClass {
        match self {
            GenericFn::Not
            | GenericFn::IsNull
            | GenericFn::IsTrue
            | GenericFn::IsFalse
            | GenericFn::StepTimestamp
            | GenericFn::Cast => ResolutionClass::Unary,
            GenericFn::And | GenericFn::Or => ResolutionClass::Variadic,
            GenericFn::Now | GenericFn::CurrentSchema => ResolutionClass::Unmaterializable,
            _ => ResolutionClass::Binary,
        }
    }

    /// Whether the function is one of the five arithmetic operations.
    pub open spec fn is_arithmetic(self) -> bool {
        match self {
            GenericFn::Add | GenericFn::Sub | GenericFn::Mul | GenericFn::Div | GenericFn::Mod => true,
            _ => false,
        }
    }

    /// Whether the function is one of the six comparisons.
    pub open spec fn is_comparison(self) -> bool {
        match self {
            GenericFn::Eq
            | GenericFn::NotEq
            | GenericFn::Lt
            | GenericFn::Lte
            | GenericFn::Gt
            | GenericFn::Gte => true,
            _ => false,
        }
    }
}

/// The mathematical content of a [`Signature`].
pub ghost struct SpecSignature {
    pub input: Seq<ConcreteDataType>,
    pub output: ConcreteDataType,
    pub generic_fn: GenericFn,
}

/// The signature of a function: the types of its arguments, in order, the
/// type of its result, and the function it belongs to. A `Null` input type
/// accepts any type. A variadic function lists the type of each argument
/// once.
#[derive(Clone, Debug, PartialEq, Eq)]
pub struct Signature {
    pub input: Vec<ConcreteDataType>,
    pub output: ConcreteDataType,
    pub generic_fn: GenericFn,
}

impl View for Signature {
    type V = SpecSignature;

    open spec fn view(&self) -> SpecSignature {
        SpecSignature { input: self.input@, output: self.output, generic_fn: self.generic_fn }
    }
}

fn signature_of(input: Vec<ConcreteDataType>, output: ConcreteDataType, generic_fn: GenericFn) -> (r:
    Signature)
    ensures
        r@ == (SpecSignature { input: input@, output, generic_fn }),
{
    Signature { input, output, generic_fn }
}

/// A function whose value depends on the execution context, not on
/// arguments.
#[derive(Clone, Copy, Debug, PartialEq, Eq, Structural, Hash)]
pub enum UnmaterializableFunc {
    Now,
    CurrentSchema,
}

impl UnmaterializableFunc {
    pub open spec fn spec_signature(self) -> SpecSignature {
        match self {
            UnmaterializableFunc::Now => SpecSignature {
                input: seq![],
                output: ConcreteDataType::DateTime,
                generic_fn: GenericFn::Now,
            },
            UnmaterializableFunc::CurrentSchema => SpecSignature {
                input: seq![],
                output: ConcreteDataType::String,
                generic_fn: GenericFn::CurrentSchema,
            },
        }
    }

    /// The signature of the function.
    pub fn signature(&self) -> (r: Signature)
        ensures
            r@ == self.spec_signature(),
    {
        match self {
            UnmaterializableFunc::Now => signature_of(
                Vec::new(),
                ConcreteDataType::DateTime,
                GenericFn::Now,
            ),
            UnmaterializableFunc::CurrentSchema => signature_of(
                Vec::new(),
                ConcreteDataType::String,
                GenericFn::CurrentSchema,
            ),
        }
    }

    /// The function that `name` names under this convention.
    pub open spec fn spec_from_str(name: Seq<char>) -> Result<UnmaterializableFunc, Error> {
        if name == "now"@ {
            Ok(UnmaterializableFunc::Now)
        } else if name == "current_schema"@ {
            Ok(UnmaterializableFunc::CurrentSchema)
        } else {
            Err(Error::UnsupportedFeature)
        }
    }

    /// Resolves `name` as a context-dependent function: `now` and
    /// `current_schema` resolve, every other name fails with
    /// `UnsupportedFeature`.
    pub fn from_str(name: &str) -> (r: Result<UnmaterializableFunc, Error>)
        ensures
            r == Self::spec_from_str(name@),
    {
        if str_eq(name, "now") {
            Ok(UnmaterializableFunc::Now)
        } else if str_eq(name, "current_schema") {
            Ok(UnmaterializableFunc::CurrentSchema)
        } else {
            Err(Error::UnsupportedFeature)
        }
    }
}

/// A function of one argument. A cast carries its target type.
#[derive(Clone, Copy, Debug, PartialEq, Eq, Structural, Hash)]
pub enum UnaryFunc {
    Not,
    IsNull,
    IsTrue,
    IsFalse,
    StepTimestamp,
    Cast(ConcreteDataType),
}

impl UnaryFunc {
    pub open spec fn spec_signature(self) -> SpecSignature {
        match self {
            UnaryFunc::IsNull => SpecSignature {
                input: seq![ConcreteDataType::Null],
                output: ConcreteDataType::Boolean,
                generic_fn: GenericFn::IsNull,
            },
            UnaryFunc::Not => SpecSignature {
                input: seq![ConcreteDataType::Boolean],
                output: ConcreteDataType::Boolean,
                generic_fn: GenericFn::Not,
            },
            UnaryFunc::IsTrue => SpecSignature {
                input: seq![ConcreteDataType::Boolean],
                output: ConcreteDataType::Boolean,
                generic_fn: GenericFn::IsTrue,
            },
            UnaryFunc::IsFalse => SpecSignature {
                input: seq![ConcreteDataType::Boolean],
                output: ConcreteDataType::Boolean,
                generic_fn: GenericFn::IsFalse,
            },
            UnaryFunc::StepTimestamp => SpecSignature {
                input: seq![ConcreteDataType::DateTime],
                output: ConcreteDataType::DateTime,
                generic_fn: GenericFn::StepTimestamp,
            },
            UnaryFunc::Cast(to) => SpecSignature {
                input: seq![ConcreteDataType::Null],
                output: to,
                generic_fn: GenericFn::Cast,
            },
        }
    }

    /// The signature of the function.
    pub fn signature(&self) -> (r: Signature)
        ensures
            r@ == self.spec_signature(),
    {
        let (input, output, generic_fn) = match self {
            UnaryFunc::IsNull => (
                ConcreteDataType::Null,
                ConcreteDataType::Boolean,
                GenericFn::IsNull,
            ),
            UnaryFunc::Not => (
                ConcreteDataType::Boolean,
                ConcreteDataType::Boolean,
                GenericFn::Not,
            ),
            UnaryFunc::IsTrue => (
                ConcreteDataType::Boolean,
                ConcreteDataType::Boolean,
                GenericFn::IsTrue,
            ),
            UnaryFunc::IsFalse => (
                ConcreteDataType::Boolean,
                ConcreteDataType::Boolean,
                GenericFn::IsFalse,
            ),
            UnaryFunc::StepTimestamp => (
                ConcreteDataType::DateTime,
                ConcreteDataType::DateTime,
                GenericFn::StepTimestamp,
            ),
            UnaryFunc::Cast(to) => (ConcreteDataType::Null, *to, GenericFn::Cast),
        };
        let mut inputs: Vec<ConcreteDataType> = Vec::new();
        inputs.push(input);
        assert(inputs@ =~= seq![input]);
        signature_of(inputs, output, generic_fn)
    }

    /// The function that `name` names under this convention; `cast` needs
    /// its target type.
    pub open spec fn spec_from_str_and_type(
        name: Seq<char>,
        arg_type: Option<ConcreteDataType>,
    ) -> Result<UnaryFunc, Error> {
        if name == "not"@ {
            Ok(UnaryFunc::Not)
        } else if name == "is_null"@ {
            Ok(UnaryFunc::IsNull)
        } else if name == "is_true"@ {
            Ok(UnaryFunc::IsTrue)
        } else if name == "is_false"@ {
            Ok(UnaryFunc::IsFalse)
        } else if name == "step_timestamp"@ {
            Ok(UnaryFunc::StepTimestamp)
        } else if name == "cast"@ {
            match arg_type {
                Some(t) => Ok(UnaryFunc::Cast(t)),
                None => Err(Error::UnsupportedFeature),
            }
        } else {
            Err(Error::UnsupportedFeature)
        }
    }

    /// Resolves `name` as a unary function. `cast` resolves only with a
    /// target type; an unknown name fails with `UnsupportedFeature`.
    pub fn from_str_and_type(name: &str, arg_type: Option<ConcreteDataType>) -> (r: Result<
        UnaryFunc,
        Error,
    >)
        ensures
            r == Self::spec_from_str_and_type(name@, arg_type),
    {
        if str_eq(name, "not") {
            Ok(UnaryFunc::Not)
        } else if str_eq(name, "is_null") {
            Ok(UnaryFunc::IsNull)
        } else if str_eq(name, "is_true") {
            Ok(UnaryFunc::IsTrue)
        } else if str_eq(name, "is_false") {
            Ok(UnaryFunc::IsFalse)
        } else if str_eq(name, "step_timestamp") {
            Ok(UnaryFunc::StepTimestamp)
        } else if str_eq(name, "cast") {
            match arg_type {
                Some(t) => Ok(UnaryFunc::Cast(t)),
                None => Err(Error::UnsupportedFeature),
            }
        } else {
            Err(Error::UnsupportedFeature)
        }
    }
}

/// A function of any number of arguments.
#[derive(Clone, Copy, Debug, PartialEq, Eq, Structural, Hash)]
pub enum VariadicFunc {
    And,
    Or,
}

impl VariadicFunc {
    pub open spec fn spec_signature(self) -> SpecSignature {
        SpecSignature {
            input: seq![ConcreteDataType::Boolean],
            output: ConcreteDataType::Boolean,
            generic_fn: match self {
                VariadicFunc::And => GenericFn::And,
                VariadicFunc::Or => GenericFn::Or,
            },
        }
    }

    /// The signature of the function.
    pub fn signature(&self) -> (r: Signature)
        ensures
            r@ == self.spec_signature(),
    {
        let mut inputs: Vec<ConcreteDataType> = Vec::new();
        inputs.push(ConcreteDataType::Boolean);
        assert(inputs@ =~= seq![ConcreteDataType::Boolean]);
        let generic_fn = match self {
            VariadicFunc::And => GenericFn::And,
            VariadicFunc::Or => GenericFn::Or,
        };
        signature_of(inputs, ConcreteDataType::Boolean, generic_fn)
    }

    /// The function that `name` names under this convention.
    pub open spec fn spec_from_str(name: Seq<char>) -> Result<VariadicFunc, Error> {
        if name == "and"@ {
            Ok(VariadicFunc::And)
        } else if name == "or"@ {
            Ok(VariadicFunc::Or)
        } else {
            Err(Error::UnsupportedFeature)
        }
    }

    /// Resolves `name` as a variadic function, whatever the argument types:
    /// `and` and `or` resolve, every other name fails with
    /// `UnsupportedFeature`.
    pub fn from_str_and_types(name: &str, arg_types: &Vec<Option<ConcreteDataType>>) -> (r: Result<
        VariadicFunc,
        Error,
    >)
        ensures
            r == Self::spec_from_str(name@),
    {
        if str_eq(name, "and") {
            Ok(VariadicFunc::And)
        } else if str_eq(name, "or") {
            Ok(VariadicFunc::Or)
        } else {
            Err(Error::UnsupportedFeature)
        }
    }
}

/// A function of two arguments. The six comparisons take operands of any
/// type; each arithmetic function carries the integer type of its operands
/// and of its result.
#[derive(Clone, Copy, Debug, PartialEq, Eq, Structural, Hash)]
pub enum BinaryFunc {
    Eq,
    NotEq,
    Lt,
    Lte,
    Gt,
    Gte,
    Add(ConcreteDataType),
    Sub(ConcreteDataType),
    Mul(ConcreteDataType),
    Div(ConcreteDataType),
    Mod(ConcreteDataType),
}

/// The type of the value in a literal node, and `None` for any other node.
pub open spec fn literal_type(e: SpecExpr) -> Option<ConcreteDataType> {
    match e {
        SpecExpr::Literal(v, _) => Some(v.data_type()),
        _ => None,
    }
}

impl BinaryFunc {
    /// The function, apart from its operand type.
    pub open spec fn generic_fn(self) -> GenericFn {
        match self {
            BinaryFunc::Eq => GenericFn::Eq,
            BinaryFunc::NotEq => GenericFn::NotEq,
            BinaryFunc::Lt => GenericFn::Lt,
            BinaryFunc::Lte => GenericFn::Lte,
            BinaryFunc::Gt => GenericFn::Gt,
            BinaryFunc::Gte => GenericFn::Gte,
            BinaryFunc::Add(_) => GenericFn::Add,
            BinaryFunc::Sub(_) => GenericFn::Sub,
            BinaryFunc::Mul(_) => GenericFn::Mul,
            BinaryFunc::Div(_) => GenericFn::Div,
            BinaryFunc::Mod(_) => GenericFn::Mod,
        }
    }

    /// The declared type of both operands: `Null`, which accepts any type,
    /// for a comparison.
    pub open spec fn operand_type(self) -> ConcreteDataType {
        match self {
            BinaryFunc::Add(t)
            | BinaryFunc::Sub(t)
            | BinaryFunc::Mul(t)
            | BinaryFunc::Div(t)
            | BinaryFunc::Mod(t) => t,
            _ => ConcreteDataType::Null,
        }
    }

    /// An arithmetic function works on an integer type.
    pub open spec fn well_formed(self) -> bool {
        self.generic_fn().is_arithmetic() ==> self.operand_type().is_integer()
    }

    pub open spec fn spec_signature(self) -> SpecSignature {
        SpecSignature {
            input: seq![self.operand_type(), self.operand_type()],
            output: if self.generic_fn().is_comparison() {
                ConcreteDataType::Boolean
            } else {
                self.operand_type()
            },
            generic_fn: self.generic_fn(),
        }
    }

    fn generic(&self) -> (g: GenericFn)
        ensures
            g == self.generic_fn(),
    {
        match self {
            BinaryFunc::Eq => GenericFn::Eq,
            BinaryFunc::NotEq => GenericFn::NotEq,
            BinaryFunc::Lt => GenericFn::Lt,
            BinaryFunc::Lte => GenericFn::Lte,
            BinaryFunc::Gt => GenericFn::Gt,
            BinaryFunc::Gte => GenericFn::Gte,
            BinaryFunc::Add(_) => GenericFn::Add,
            BinaryFunc::Sub(_) => GenericFn::Sub,
            BinaryFunc::Mul(_) => GenericFn::Mul,
            BinaryFunc::Div(_) => GenericFn::Div,
            BinaryFunc::Mod(_) => GenericFn::Mod,
        }
    }

    /// The signature of the function.
    pub fn signature(&self) -> (r: Signature)
        ensures
            r@ == self.spec_signature(),
    {
        let (operand, output) = match self {
            BinaryFunc::Add(t)
            | BinaryFunc::Sub(t)
            | BinaryFunc::Mul(t)
            | BinaryFunc::Div(t)
            | BinaryFunc::Mod(t) => (*t, *t),
            _ => (ConcreteDataType::Null, ConcreteDataType::Boolean),
        };
        let mut inputs: Vec<ConcreteDataType> = Vec::new();
        inputs.push(operand);
        inputs.push(operand);
        assert(inputs@ =~= seq![operand, operand]);
        signature_of(inputs, output, self.generic())
    }

    /// The binary function that `name` names, apart from its operand type.
    pub open spec fn spec_generic_from_str(name: Seq<char>) -> Result<GenericFn, Error> {
        if name == "equal"@ {
            Ok(GenericFn::Eq)
        } else if name == "not_equal"@ {
            Ok(GenericFn::NotEq)
        } else if name == "lt"@ {
            Ok(GenericFn::Lt)
        } else if name == "lte"@ {
            Ok(GenericFn::Lte)
        } else if name == "gt"@ {
            Ok(GenericFn::Gt)
        } else if name == "gte"@ {
            Ok(GenericFn::Gte)
        } else if name == "add"@ {
            Ok(GenericFn::Add)
        } else if name == "subtract"@ {
            Ok(GenericFn::Sub)
        } else if name == "multiply"@ {
            Ok(GenericFn::Mul)
        } else if name == "divide"@ {
            Ok(GenericFn::Div)
        } else if name == "mod"@ {
            Ok(GenericFn::Mod)
        } else {
            Err(Error::UnsupportedFeature)
        }
    }

    fn generic_from_str(name: &str) -> (r: Result<GenericFn, Error>)
        ensures
            r == Self::spec_generic_from_str(name@),
    {
        if str_eq(name, "equal") {
            Ok(GenericFn::Eq)
        } else if str_eq(name, "not_equal") {
            Ok(GenericFn::NotEq)
        } else if str_eq(name, "lt") {
            Ok(GenericFn::Lt)
        } else if str_eq(name, "lte") {
            Ok(GenericFn::Lte)
        } else if str_eq(name, "gt") {
            Ok(GenericFn::Gt)
        } else if str_eq(name, "gte") {
            Ok(GenericFn::Gte)
        } else if str_eq(name, "add") {
            Ok(GenericFn::Add)
        } else if str_eq(name, "subtract") {
            Ok(GenericFn::Sub)
        } else if str_eq(name, "multiply") {
            Ok(GenericFn::Mul)
        } else if str_eq(name, "divide") {
            Ok(GenericFn::Div)
        } else if str_eq(name, "mod") {
            Ok(GenericFn::Mod)
        } else {
            Err(Error::UnsupportedFeature)
        }
    }

    /// The form of `generic` for operands of type `input_type`: a
    /// comparison is found under `Null`, an arithmetic function under each
    /// integer type, and nothing else is found.
    pub open spec fn spec_specialization(generic: GenericFn, input_type: ConcreteDataType) -> Result<
        BinaryFunc,
        Error,
    > {
        if generic.is_comparison() && input_type == ConcreteDataType::Null {
            Ok(
                match generic {
                    GenericFn::Eq => BinaryFunc::Eq,
                    GenericFn::NotEq => BinaryFunc::NotEq,
                    GenericFn::Lt => BinaryFunc::Lt,
                    GenericFn::Lte => BinaryFunc::Lte,
                    GenericFn::Gt => BinaryFunc::Gt,
                    _ => BinaryFunc::Gte,
                },
            )
        } else if generic.is_arithmetic() && input_type.is_integer() {
            Ok(
                match generic {
                    GenericFn::Add => BinaryFunc::Add(input_type),
                    GenericFn::Sub => BinaryFunc::Sub(input_type),
                    GenericFn::Mul => BinaryFunc::Mul(input_type),
                    GenericFn::Div => BinaryFunc::Div(input_type),
                    _ => BinaryFunc::Mod(input_type),
                },
            )
        } else {
            Err(Error::UnsupportedFeature)
        }
    }

    /// Looks up the form of `generic` for operands of type `input_type`, and
    /// fails with `UnsupportedFeature` where the registry holds none.
    pub fn specialization(generic: GenericFn, input_type: ConcreteDataType) -> (r: Result<
        BinaryFunc,
        Error,
    >)
        ensures
            r == Self::spec_specialization(generic, input_type),
            r matches Ok(f) ==> f.well_formed() && f.generic_fn() == generic,
    {
        let is_null = input_type.is_null();
        let is_int = input_type.is_integer_type();
        match generic {
            GenericFn::Eq => if is_null {
                Ok(BinaryFunc::Eq)
            } else {
                Err(Error::UnsupportedFeature)
            },
            GenericFn::NotEq => if is_null {
                Ok(BinaryFunc::NotEq)
            } else {
                Err(Error::UnsupportedFeature)
            },
            GenericFn::Lt => if is_null {
                Ok(BinaryFunc::Lt)
            } else {
                Err(Error::UnsupportedFeature)
            },
            GenericFn::Lte => if is_null {
                Ok(BinaryFunc::Lte)
            } else {
                Err(Error::UnsupportedFeature)
            },
            GenericFn::Gt => if is_null {
                Ok(BinaryFunc::Gt)
            } else {
                Err(Error::UnsupportedFeature)
            },
            GenericFn::Gte => if is_null {
                Ok(BinaryFunc::Gte)
            } else {
                Err(Error::UnsupportedFeature)
            },
            GenericFn::Add => if is_int {
                Ok(BinaryFunc::Add(input_type))
            } else {
                Err(Error::UnsupportedFeature)
            },
            GenericFn::Sub => if is_int {
                Ok(BinaryFunc::Sub(input_type))
            } else {
                Err(Error::UnsupportedFeature)
            },
            GenericFn::Mul => if is_int {
                Ok(BinaryFunc::Mul(input_type))
            } else {
                Err(Error::UnsupportedFeature)
            },
            GenericFn::Div => if is_int {
                Ok(BinaryFunc::Div(input_type))
            } else {
                Err(Error::UnsupportedFeature)
            },
            GenericFn::Mod => if is_int {
                Ok(BinaryFunc::Mod(input_type))
            } else {
                Err(Error::UnsupportedFeature)
            },
            _ => Err(Error::UnsupportedFeature),
        }
    }

    /// The one type that both operands are held to.
    ///
    /// Two declared types must agree; one declared type decides; with none
    /// declared, the type of the first literal's value decides, then that of
    /// the second.
    pub open spec fn spec_infer_type(
        arg_exprs: Seq<SpecExpr>,
        arg_types: Seq<Option<ConcreteDataType>>,
    ) -> Result<ConcreteDataType, Error> {
        match (arg_types[0], arg_types[1]) {
            (Some(t1), Some(t2)) => if t1 == t2 {
                Ok(t1)
            } else {
                Err(Error::UnsupportedFeature)
            },
            (Some(t), None) => Ok(t),
            (None, Some(t)) => Ok(t),
            (None, None) => match literal_type(arg_exprs[0]) {
                Some(t) => Ok(t),
                None => match literal_type(arg_exprs[1]) {
                    Some(t) => Ok(t),
                    None => Err(Error::UnsupportedFeature),
                },
            },
        }
    }

    /// Infers the type that both operands are held to, from the declared
    /// types first and from the literal operands where none is declared.
    pub fn infer_type_from(
        arg_exprs: &Vec<ScalarExpr>,
        arg_types: &Vec<Option<ConcreteDataType>>,
    ) -> (r: Result<ConcreteDataType, Error>)
        requires
            arg_exprs@.len() == 2,
            arg_types@.len() == 2,
        ensures
            r == Self::spec_infer_type(ScalarExpr::models(arg_exprs@), arg_types@),
    {
        match (arg_types[0], arg_types[1]) {
            (Some(t1), Some(t2)) => if t1 == t2 {
                Ok(t1)
            } else {
                Err(Error::UnsupportedFeature)
            },
            (Some(t), None) => Ok(t),
            (None, Some(t)) => Ok(t),
            (None, None) => match arg_exprs[0].as_literal() {
                Some(v) => Ok(v.data_type()),
                None => match arg_exprs[1].as_literal() {
                    Some(v) => Ok(v.data_type()),
                    None => Err(Error::UnsupportedFeature),
                },
            },
        }
    }

    /// The binary function that `name` names for the given operands, with
    /// the signature that the operands are held to: both inputs of the
    /// inferred type, the output that of the chosen form.
    pub open spec fn spec_from_str_expr_and_type(
        name: Seq<char>,
        arg_exprs: Seq<SpecExpr>,
        arg_types: Seq<Option<ConcreteDataType>>,
    ) -> Result<(BinaryFunc, SpecSignature), Error> {
        match Self::spec_generic_from_str(name) {
            Err(e) => Err(e),
            Ok(generic) => if arg_exprs.len() != 2 || arg_types.len() != 2 {
                Err(Error::UnsupportedFeature)
            } else {
                match Self::spec_infer_type(arg_exprs, arg_types) {
                    Err(e) => Err(e),
                    Ok(arg_type) => {
                        let query = if generic.is_arithmetic() {
                            arg_type
                        } else {
                            ConcreteDataType::Null
                        };
                        match Self::spec_specialization(generic, query) {
                            Err(e) => Err(e),
                            Ok(func) => Ok(
                                (
                                    func,
                                    SpecSignature {
                                        input: seq![arg_type, arg_type],
                                        output: func.spec_signature().output,
                                        generic_fn: generic,
                                    },
                                ),
                            ),
                        }
                    },
                }
            },
        }
    }

    /// Resolves `name` as a binary function for the given operands.
    ///
    /// `arg_types` holds the declared type of each operand, `None` for a
    /// literal. Fails with `UnsupportedFeature` where the name is no binary
    /// function, there are not exactly two operands, their types disagree or
    /// cannot be inferred, or the registry holds no form for the type.
    pub fn from_str_expr_and_type(
        name: &str,
        arg_exprs: &Vec<ScalarExpr>,
        arg_types: &Vec<Option<ConcreteDataType>>,
    ) -> (r: Result<(BinaryFunc, Signature), Error>)
        ensures
            match r {
                Ok((func, sig)) => Self::spec_from_str_expr_and_type(
                    name@,
                    ScalarExpr::models(arg_exprs@),
                    arg_types@,
                ) == Ok::<(BinaryFunc, SpecSignature), Error>((func, sig@)),
                Err(e) => Self::spec_from_str_expr_and_type(
                    name@,
                    ScalarExpr::models(arg_exprs@),
                    arg_types@,
                ) == Err::<(BinaryFunc, SpecSignature), Error>(e),
            },
            r matches Ok((func, _)) ==> func.well_formed(),
    {
        let generic = match Self::generic_from_str(name) {
            Ok(g) => g,
            Err(e) => { return Err(e); },
        };
        if arg_exprs.len() != 2 || arg_types.len() != 2 {
            return Err(Error::UnsupportedFeature);
        }
        let arg_type = match Self::infer_type_from(arg_exprs, arg_types) {
            Ok(t) => t,
            Err(e) => { return Err(e); },
        };
        let need_type = match generic {
            GenericFn::Add | GenericFn::Sub | GenericFn::Mul | GenericFn::Div | GenericFn::Mod => true,
            _ => false,
        };
        let query = if need_type {
            arg_type
        } else {
            ConcreteDataType::Null
        };
        let func = match Self::specialization(generic, query) {
            Ok(f) => f,
            Err(e) => { return Err(e); },
        };
        let mut inputs: Vec<ConcreteDataType> = Vec::new();
        inputs.push(arg_type);
        inputs.push(arg_type);
        assert(inputs@ =~= seq![arg_type, arg_type]);
        let output = func.signature().output;
        Ok((func, signature_of(inputs, output, generic)))
    }
}

/// The form under which a function call was resolved.
#[derive(Clone, Debug, PartialEq, Eq)]
pub enum ResolvedFunction {
    Unary(UnaryFunc),
    /// A binary function, with the signature that its operands are held to.
    Binary(BinaryFunc, Signature),
    Variadic(VariadicFunc),
    Unmaterializable(UnmaterializableFunc),
}

/// The mathematical content of a [`ResolvedFunction`].
pub ghost enum SpecResolved {
    Unary(UnaryFunc),
    Binary(BinaryFunc, SpecSignature),
    Variadic(VariadicFunc),
    Unmaterializable(UnmaterializableFunc),
}

impl View for ResolvedFunction {
    type V = SpecResolved;

    open spec fn view(&self) -> SpecResolved {
        match *self {
            ResolvedFunction::Unary(f) => SpecResolved::Unary(f),
            ResolvedFunction::Binary(f, sig) => SpecResolved::Binary(f, sig@),
            ResolvedFunction::Variadic(f) => SpecResolved::Variadic(f),
            ResolvedFunction::Unmaterializable(f) => SpecResolved::Unmaterializable(f),
        }
    }
}

/// The form under which a call of `name` on the given arguments resolves.
///
/// With one argument a variadic form comes first and a unary form second;
/// with two, a variadic form first and a binary form second. With any other
/// number of arguments, and wherever the name has a variadic form, the
/// variadic form comes first and the context-dependent form second.
pub open spec fn spec_resolve(
    name: Seq<char>,
    arg_exprs: Seq<SpecExpr>,
    arg_types: Seq<Option<ConcreteDataType>>,
) -> Result<SpecResolved, Error> {
    let variadic = VariadicFunc::spec_from_str(name);
    if arg_exprs.len() == 1 && variadic is Err {
        match UnaryFunc::spec_from_str_and_type(name, None) {
            Ok(f) => Ok(SpecResolved::Unary(f)),
            Err(e) => Err(e),
        }
    } else if arg_exprs.len() == 2 && variadic is Err {
        match BinaryFunc::spec_from_str_expr_and_type(name, arg_exprs, arg_types) {
            Ok((f, sig)) => Ok(SpecResolved::Binary(f, sig)),
            Err(e) => Err(e),
        }
    } else {
        match variadic {
            Ok(f) => Ok(SpecResolved::Variadic(f)),
            Err(_) => match UnmaterializableFunc::spec_from_str(name) {
                Ok(f) => Ok(SpecResolved::Unmaterializable(f)),
                Err(_) => Err(Error::UnsupportedFeature),
            },
        }
    }
}

/// Resolves a call of `name` on the arguments `arg_exprs`, whose declared
/// types are `arg_types` (`None` for a literal).
///
/// Fails with `UnsupportedFeature` where the name has no form for the number
/// and the types of the arguments.
pub fn resolve(
    name: &str,
    arg_exprs: &Vec<ScalarExpr>,
    arg_types: &Vec<Option<ConcreteDataType>>,
) -> (r: Result<ResolvedFunction, Error>)
    ensures
        crate::error::view_result(r) == spec_resolve(
            name@,
            ScalarExpr::models(arg_exprs@),
            arg_types@,
        ),
        r matches Ok(ResolvedFunction::Binary(f, sig)) ==> f.well_formed() && sig@.input.len() == 2,
{
    let variadic = VariadicFunc::from_str_and_types(name, arg_types);
    let arg_len = arg_exprs.len();
    if arg_len == 1 && variadic.is_err() {
        match UnaryFunc::from_str_and_type(name, None) {
            Ok(f) => Ok(ResolvedFunction::Unary(f)),
            Err(e) => Err(e),
        }
    } else if arg_len == 2 && variadic.is_err() {
        match BinaryFunc::from_str_expr_and_type(name, arg_exprs, arg_types) {
            Ok((f, sig)) => Ok(ResolvedFunction::Binary(f, sig)),
            Err(e) => Err(e),
        }
    } else {
        match variadic {
            Ok(f) => Ok(ResolvedFunction::Variadic(f)),
            Err(_) => match UnmaterializableFunc::from_str(name) {
                Ok(f) => Ok(ResolvedFunction::Unmaterializable(f)),
                Err(_) => Err(Error::UnsupportedFeature),
            },
        }
    }
}

} // verus!
