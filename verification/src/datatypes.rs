//! Scalar data types, the values they hold, and the casts between them.

use vstd::prelude::*;
use crate::error::Error;
use crate::error::view_result;

verus! {

/// The type of a scalar value.
///
/// `Null` is the type of an untyped value; in a function signature it stands
/// for "any type".
#[derive(Clone, Copy, Debug, PartialEq, Eq, Structural, Hash)]
pub enum ConcreteDataType {
    Null,
    Boolean,
    Int8,
    Int16,
    Int32,
    Int64,
    UInt8,
    UInt16,
    UInt32,
    UInt64,
    String,
    Date,
    DateTime,
}

impl ConcreteDataType {
    /// Whether this is one of the eight fixed-width integer types.
    pub open spec fn is_integer(self) -> bool {
        match self {
            ConcreteDataType::Int8
            | ConcreteDataType::Int16
            | ConcreteDataType::Int32
            | ConcreteDataType::Int64
            | ConcreteDataType::UInt8
            | ConcreteDataType::UInt16
            | ConcreteDataType::UInt32
            | ConcreteDataType::UInt64 => true,
            _ => false,
        }
    }

    /// The least integer an integer type holds (0 for the other types).
    pub open spec fn min_value(self) -> int {
        match self {
            ConcreteDataType::Int8 => -0x80,
            ConcreteDataType::Int16 => -0x8000,
            ConcreteDataType::Int32 => -0x8000_0000,
            ConcreteDataType::Int64 => -0x8000_0000_0000_0000,
            _ => 0,
        }
    }

    /// The greatest integer an integer type holds (0 for the other types).
    pub open spec fn max_value(self) -> int {
        match self {
            ConcreteDataType::Int8 => 0x7f,
            ConcreteDataType::Int16 => 0x7fff,
            ConcreteDataType::Int32 => 0x7fff_ffff,
            ConcreteDataType::Int64 => 0x7fff_ffff_ffff_ffff,
            ConcreteDataType::UInt8 => 0xff,
            ConcreteDataType::UInt16 => 0xffff,
            ConcreteDataType::UInt32 => 0xffff_ffff,
            ConcreteDataType::UInt64 => 0xffff_ffff_ffff_ffff,
            _ => 0,
        }
    }

    /// Whether `n` is a value of this integer type.
    pub open spec fn holds(self, n: int) -> bool {
        self.is_integer() && self.min_value() <= n <= self.max_value()
    }

    pub open spec fn spec_is_null(&self) -> bool {
        *self == ConcreteDataType::Null
    }

    /// Whether this is the untyped type.
    #[verifier::when_used_as_spec(spec_is_null)]
    pub fn is_null(&self) -> (r: bool)
        ensures
            r == (*self == ConcreteDataType::Null),
    {
        match self {
            ConcreteDataType::Null => true,
            _ => false,
        }
    }

    /// Whether this is one of the eight fixed-width integer types.
    pub fn is_integer_type(&self) -> (r: bool)
        ensures
            r == self.is_integer(),
    {
        match self {
            ConcreteDataType::Int8
            | ConcreteDataType::Int16
            | ConcreteDataType::Int32
            | ConcreteDataType::Int64
            | ConcreteDataType::UInt8
            | ConcreteDataType::UInt16
            | ConcreteDataType::UInt32
            | ConcreteDataType::UInt64 => true,
            _ => false,
        }
    }
}

/// The mathematical content of a [`Value`]: the eight integer widths collapse
/// into one case that carries the type and the number, and a string is its
/// sequence of characters.
pub ghost enum SpecValue {
    Null,
    Boolean(bool),
    Integer { typ: ConcreteDataType, value: int },
    String(Seq<char>),
    Date(int),
    DateTime(int),
}

impl SpecValue {
    /// The type of the value.
    pub open spec fn data_type(self) -> ConcreteDataType {
        match self {
            SpecValue::Null => ConcreteDataType::Null,
            SpecValue::Boolean(_) => ConcreteDataType::Boolean,
            SpecValue::Integer { typ, .. } => typ,
            SpecValue::String(_) => ConcreteDataType::String,
            SpecValue::Date(_) => ConcreteDataType::Date,
            SpecValue::DateTime(_) => ConcreteDataType::DateTime,
        }
    }

    /// An integer value lies within the range of its type; a date within 32
    /// bits, a date-time within 64.
    pub open spec fn well_formed(self) -> bool {
        match self {
            SpecValue::Integer { typ, value } => typ.holds(value),
            SpecValue::Date(d) => ConcreteDataType::Int32.holds(d),
            SpecValue::DateTime(t) => ConcreteDataType::Int64.holds(t),
            _ => true,
        }
    }
}

/// A scalar value.
#[derive(Debug, PartialEq, Eq)]
pub enum Value {
    Null,
    Boolean(bool),
    Int8(i8),
    Int16(i16),
    Int32(i32),
    Int64(i64),
    UInt8(u8),
    UInt16(u16),
    UInt32(u32),
    UInt64(u64),
    String(String),
    /// Days since the epoch.
    Date(i32),
    /// Milliseconds since the epoch.
    DateTime(i64),
}

impl Clone for Value {
    /// An equal copy.
    fn clone(&self) -> (r: Self)
        ensures
            r == *self,
    {
        match self {
            Value::Null => Value::Null,
            Value::Boolean(b) => Value::Boolean(*b),
            Value::Int8(v) => Value::Int8(*v),
            Value::Int16(v) => Value::Int16(*v),
            Value::Int32(v) => Value::Int32(*v),
            Value::Int64(v) => Value::Int64(*v),
            Value::UInt8(v) => Value::UInt8(*v),
            Value::UInt16(v) => Value::UInt16(*v),
            Value::UInt32(v) => Value::UInt32(*v),
            Value::UInt64(v) => Value::UInt64(*v),
            Value::String(s) => Value::String(s.clone()),
            Value::Date(d) => Value::Date(*d),
            Value::DateTime(t) => Value::DateTime(*t),
        }
    }
}

impl View for Value {
    type V = SpecValue;

    open spec fn view(&self) -> SpecValue {
        match *self {
            Value::Null => SpecValue::Null,
            Value::Boolean(b) => SpecValue::Boolean(b),
            Value::Int8(v) => SpecValue::Integer { typ: ConcreteDataType::Int8, value: v as int },
            Value::Int16(v) => SpecValue::Integer { typ: ConcreteDataType::Int16, value: v as int },
            Value::Int32(v) => SpecValue::Integer { typ: ConcreteDataType::Int32, value: v as int },
            Value::Int64(v) => SpecValue::Integer { typ: ConcreteDataType::Int64, value: v as int },
            Value::UInt8(v) => SpecValue::Integer { typ: ConcreteDataType::UInt8, value: v as int },
            Value::UInt16(v) => SpecValue::Integer {
                typ: ConcreteDataType::UInt16,
                value: v as int,
            },
            Value::UInt32(v) => SpecValue::Integer {
                typ: ConcreteDataType::UInt32,
                value: v as int,
            },
            Value::UInt64(v) => SpecValue::Integer {
                typ: ConcreteDataType::UInt64,
                value: v as int,
            },
            Value::String(s) => SpecValue::String(s@),
            Value::Date(d) => SpecValue::Date(d as int),
            Value::DateTime(t) => SpecValue::DateTime(t as int),
        }
    }
}

/// What a cast of `v` to `dest` gives.
///
/// A null stays null, a value already of the target type is unchanged, an
/// integer moves to another integer type when the target holds it, a boolean
/// becomes the integer 0 or 1, and an integer becomes the boolean "is not
/// zero". Every other pair of types has no cast.
pub open spec fn spec_cast(v: SpecValue, dest: ConcreteDataType) -> Result<SpecValue, Error> {
    if v is Null {
        Ok(SpecValue::Null)
    } else if v.data_type() == dest {
        Ok(v)
    } else {
        match v {
            SpecValue::Integer { value, .. } => {
                if dest.is_integer() {
                    if dest.holds(value) {
                        Ok(SpecValue::Integer { typ: dest, value })
                    } else {
                        Err(Error::TypeError)
                    }
                } else if dest == ConcreteDataType::Boolean {
                    Ok(SpecValue::Boolean(value != 0))
                } else {
                    Err(Error::TypeError)
                }
            },
            SpecValue::Boolean(b) => {
                if dest.is_integer() {
                    Ok(SpecValue::Integer { typ: dest, value: if b { 1 } else { 0 } })
                } else {
                    Err(Error::TypeError)
                }
            },
            _ => Err(Error::TypeError),
        }
    }
}

impl Value {
    /// The type of the value.
    pub fn data_type(&self) -> (t: ConcreteDataType)
        ensures
            t == self@.data_type(),
    {
        match self {
            Value::Null => ConcreteDataType::Null,
            Value::Boolean(_) => ConcreteDataType::Boolean,
            Value::Int8(_) => ConcreteDataType::Int8,
            Value::Int16(_) => ConcreteDataType::Int16,
            Value::Int32(_) => ConcreteDataType::Int32,
            Value::Int64(_) => ConcreteDataType::Int64,
            Value::UInt8(_) => ConcreteDataType::UInt8,
            Value::UInt16(_) => ConcreteDataType::UInt16,
            Value::UInt32(_) => ConcreteDataType::UInt32,
            Value::UInt64(_) => ConcreteDataType::UInt64,
            Value::String(_) => ConcreteDataType::String,
            Value::Date(_) => ConcreteDataType::Date,
            Value::DateTime(_) => ConcreteDataType::DateTime,
        }
    }

    /// Whether the value is the null value.
    pub fn is_null(&self) -> (r: bool)
        ensures
            r == (self@ is Null),
    {
        match self {
            Value::Null => true,
            _ => false,
        }
    }

    /// The number an integer value holds, and `None` for any other value.
    pub fn as_integer(&self) -> (r: Option<i128>)
        ensures
            match r {
                Some(n) => self@ == (SpecValue::Integer { typ: self@.data_type(), value: n as int })
                    && self@.data_type().holds(n as int),
                None => !(self@ is Integer),
            },
    {
        match self {
            Value::Int8(v) => Some(*v as i128),
            Value::Int16(v) => Some(*v as i128),
            Value::Int32(v) => Some(*v as i128),
            Value::Int64(v) => Some(*v as i128),
            Value::UInt8(v) => Some(*v as i128),
            Value::UInt16(v) => Some(*v as i128),
            Value::UInt32(v) => Some(*v as i128),
            Value::UInt64(v) => Some(*v as i128),
            _ => None,
        }
    }

    /// The value of integer type `typ` that holds `n`, and `None` where `typ`
    /// is no integer type or does not hold `n`.
    pub fn from_integer(typ: ConcreteDataType, n: i128) -> (r: Option<Value>)
        ensures
            match r {
                Some(v) => typ.holds(n as int) && v@ == (SpecValue::Integer {
                    typ,
                    value: n as int,
                }),
                None => !typ.holds(n as int),
            },
    {
        match typ {
            ConcreteDataType::Int8 => if -0x80 <= n && n <= 0x7f {
                Some(Value::Int8(n as i8))
            } else {
                None
            },
            ConcreteDataType::Int16 => if -0x8000 <= n && n <= 0x7fff {
                Some(Value::Int16(n as i16))
            } else {
                None
            },
            ConcreteDataType::Int32 => if -0x8000_0000 <= n && n <= 0x7fff_ffff {
                Some(Value::Int32(n as i32))
            } else {
                None
            },
            ConcreteDataType::Int64 => if -0x8000_0000_0000_0000 <= n && n
                <= 0x7fff_ffff_ffff_ffff {
                Some(Value::Int64(n as i64))
            } else {
                None
            },
            ConcreteDataType::UInt8 => if 0 <= n && n <= 0xff {
                Some(Value::UInt8(n as u8))
            } else {
                None
            },
            ConcreteDataType::UInt16 => if 0 <= n && n <= 0xffff {
                Some(Value::UInt16(n as u16))
            } else {
                None
            },
            ConcreteDataType::UInt32 => if 0 <= n && n <= 0xffff_ffff {
                Some(Value::UInt32(n as u32))
            } else {
                None
            },
            ConcreteDataType::UInt64 => if 0 <= n && n <= 0xffff_ffff_ffff_ffff {
                Some(Value::UInt64(n as u64))
            } else {
                None
            },
            _ => None,
        }
    }
}

/// Casts `src` to the type `dest`, or fails with `TypeError` where no cast
/// between the two types exists or the target type cannot hold the number.
pub fn cast(src: Value, dest: &ConcreteDataType) -> (r: Result<Value, Error>)
    ensures
        view_result(r) == spec_cast(src@, *dest),
{
    if src.is_null() {
        return Ok(Value::Null);
    }
    if src.data_type() == *dest {
        return Ok(src);
    }
    match src {
        Value::Boolean(b) => {
            let n: i128 = if b { 1 } else { 0 };
            match Value::from_integer(*dest, n) {
                Some(v) => Ok(v),
                None => Err(Error::TypeError),
            }
        },
        _ => match src.as_integer() {
            Some(n) => {
                if dest.is_integer_type() {
                    match Value::from_integer(*dest, n) {
                        Some(v) => Ok(v),
                        None => Err(Error::TypeError),
                    }
                } else if *dest == ConcreteDataType::Boolean {
                    Ok(Value::Boolean(n != 0))
                } else {
                    Err(Error::TypeError)
                }
            },
            None => Err(Error::TypeError),
        },
    }
}

} // verus!
