//! Base constructs for working with values.

use vstd::prelude::*;

verus! {

/// Value's data type.
#[derive(Debug, Copy, Clone, PartialOrd, PartialEq, Eq, Structural)]
pub enum DataType {
    /// Type for signed 64-bit integers.
    Integer,
    /// Type for double-precision floating point numbers.
    Float,
    /// Type for booleans.
    Boolean,
    /// Type for strings.
    String,
}

/// Value type.
///
/// A floating point number is held as its IEEE-754 bit pattern, so that two
/// values are equal exactly when they hold the same bits.
#[derive(Debug, PartialEq)]
pub enum Value {
    /// Holds a signed integer.
    Integer(i64),
    /// Holds the bit pattern of a double-precision floating point number.
    Float(u64),
    /// Holds a boolean.
    Boolean(bool),
    /// Holds a string.
    String(String),
}

/// Mathematical model of a [`Value`].
pub enum ValueView {
    Integer(i64),
    Float(u64),
    Boolean(bool),
    String(Seq<char>),
}

impl ValueView {
    /// The type tag that matches this value.
    pub open spec fn data_type(self) -> DataType {
        match self {
            ValueView::Integer(_) => DataType::Integer,
            ValueView::Float(_) => DataType::Float,
            ValueView::Boolean(_) => DataType::Boolean,
            ValueView::String(_) => DataType::String,
        }
    }

    /// The zero value of a type: `0`, `0.0` (all bits clear), `false`, `""`.
    pub open spec fn default_for(data_type: DataType) -> ValueView {
        match data_type {
            DataType::Integer => ValueView::Integer(0),
            DataType::Float => ValueView::Float(0),
            DataType::Boolean => ValueView::Boolean(false),
            DataType::String => ValueView::String(Seq::empty()),
        }
    }
}

impl View for Value {
    type V = ValueView;

    open spec fn view(&self) -> ValueView {
        match self {
            Value::Integer(a) => ValueView::Integer(*a),
            Value::Float(bits) => ValueView::Float(*bits),
            Value::Boolean(b) => ValueView::Boolean(*b),
            Value::String(s) => ValueView::String(s@),
        }
    }
}

impl Value {
    /// Returns default value for type.
    pub fn default_for(data_type: DataType) -> (value: Value)
        ensures
            value@ == ValueView::default_for(data_type),
    {
        match data_type {
            DataType::Integer => Value::Integer(0),
            DataType::Float => Value::Float(0),
            DataType::Boolean => Value::Boolean(false),
            DataType::String => Value::String(String::new()),
        }
    }

    /// Returns Value's data type.
    pub fn data_type(&self) -> (data_type: DataType)
        ensures
            data_type == self@.data_type(),
    {
        match self {
            Value::Integer(_) => DataType::Integer,
            Value::Float(_) => DataType::Float,
            Value::Boolean(_) => DataType::Boolean,
            Value::String(_) => DataType::String,
        }
    }

    /// Wraps the bit pattern of a floating point number.
    pub fn from_float_bits(bits: u64) -> (value: Value)
        ensures
            value@ == ValueView::Float(bits),
    {
        Value::Float(bits)
    }
}

impl Clone for Value {
    fn clone(&self) -> (value: Value)
        ensures
            value@ == self@,
    {
        match self {
            Value::Integer(a) => Value::Integer(*a),
            Value::Float(bits) => Value::Float(*bits),
            Value::Boolean(b) => Value::Boolean(*b),
            Value::String(s) => Value::String(s.clone()),
        }
    }
}

impl From<i64> for Value {
    fn from(a: i64) -> (value: Value) {
        Value::Integer(a)
    }
}

impl vstd::std_specs::convert::FromSpecImpl<i64> for Value {
    open spec fn obeys_from_spec() -> bool {
        true
    }

    open spec fn from_spec(a: i64) -> Value {
        Value::Integer(a)
    }
}

impl From<bool> for Value {
    fn from(b: bool) -> (value: Value) {
        Value::Boolean(b)
    }
}

impl vstd::std_specs::convert::FromSpecImpl<bool> for Value {
    open spec fn obeys_from_spec() -> bool {
        true
    }

    open spec fn from_spec(b: bool) -> Value {
        Value::Boolean(b)
    }
}

impl From<String> for Value {
    fn from(s: String) -> (value: Value)
        ensures
            value@ == ValueView::String(s@),
    {
        Value::String(s)
    }
}

impl vstd::std_specs::convert::FromSpecImpl<String> for Value {
    open spec fn obeys_from_spec() -> bool {
        true
    }

    open spec fn from_spec(s: String) -> Value {
        Value::String(s)
    }
}

impl From<&str> for Value {
    fn from(s: &str) -> (value: Value)
        ensures
            value@ == ValueView::String(s@),
    {
        Value::String(s.to_owned())
    }
}

impl vstd::std_specs::convert::FromSpecImpl<&str> for Value {
    /// A string slice has no owned counterpart in specifications, so the result
    /// is stated over views, on `from` itself.
    open spec fn obeys_from_spec() -> bool {
        false
    }

    open spec fn from_spec(s: &str) -> Value {
        arbitrary()
    }
}

} // verus!
