//! The types of Nix values.

use vstd::prelude::*;

verus! {

/// `NIX_TYPE_THUNK`.
pub const NIX_TYPE_THUNK: i32 = 0;
/// `NIX_TYPE_INT`.
pub const NIX_TYPE_INT: i32 = 1;
/// `NIX_TYPE_FLOAT`.
pub const NIX_TYPE_FLOAT: i32 = 2;
/// `NIX_TYPE_BOOL`.
pub const NIX_TYPE_BOOL: i32 = 3;
/// `NIX_TYPE_STRING`.
pub const NIX_TYPE_STRING: i32 = 4;
/// `NIX_TYPE_PATH`.
pub const NIX_TYPE_PATH: i32 = 5;
/// `NIX_TYPE_NULL`.
pub const NIX_TYPE_NULL: i32 = 6;
/// `NIX_TYPE_ATTRS`.
pub const NIX_TYPE_ATTRS: i32 = 7;
/// `NIX_TYPE_LIST`.
pub const NIX_TYPE_LIST: i32 = 8;
/// `NIX_TYPE_FUNCTION`.
pub const NIX_TYPE_FUNCTION: i32 = 9;
/// `NIX_TYPE_EXTERNAL`.
pub const NIX_TYPE_EXTERNAL: i32 = 10;

/// Nix value types.
#[derive(Debug, Clone, Copy, PartialEq, Eq, Structural)]
pub enum ValueType {
    /// Thunk (unevaluated expression).
    Thunk,
    /// Integer value.
    Int,
    /// Float value.
    Float,
    /// Boolean value.
    Bool,
    /// String value.
    String,
    /// Path value.
    Path,
    /// Null value.
    Null,
    /// Attribute set.
    Attrs,
    /// List.
    List,
    /// Function.
    Function,
    /// External value.
    External,
}

/// The value type that a libnix `ValueType` code stands for; a code that
/// is none of them is taken for a thunk.
pub open spec fn spec_from_c(code: i32) -> ValueType {
    if code == NIX_TYPE_INT {
        ValueType::Int
    } else if code == NIX_TYPE_FLOAT {
        ValueType::Float
    } else if code == NIX_TYPE_BOOL {
        ValueType::Bool
    } else if code == NIX_TYPE_STRING {
        ValueType::String
    } else if code == NIX_TYPE_PATH {
        ValueType::Path
    } else if code == NIX_TYPE_NULL {
        ValueType::Null
    } else if code == NIX_TYPE_ATTRS {
        ValueType::Attrs
    } else if code == NIX_TYPE_LIST {
        ValueType::List
    } else if code == NIX_TYPE_FUNCTION {
        ValueType::Function
    } else if code == NIX_TYPE_EXTERNAL {
        ValueType::External
    } else {
        ValueType::Thunk
    }
}

/// The libnix code of a value type.
pub open spec fn spec_code(t: ValueType) -> i32 {
    match t {
        ValueType::Thunk => NIX_TYPE_THUNK,
        ValueType::Int => NIX_TYPE_INT,
        ValueType::Float => NIX_TYPE_FLOAT,
        ValueType::Bool => NIX_TYPE_BOOL,
        ValueType::String => NIX_TYPE_STRING,
        ValueType::Path => NIX_TYPE_PATH,
        ValueType::Null => NIX_TYPE_NULL,
        ValueType::Attrs => NIX_TYPE_ATTRS,
        ValueType::List => NIX_TYPE_LIST,
        ValueType::Function => NIX_TYPE_FUNCTION,
        ValueType::External => NIX_TYPE_EXTERNAL,
    }
}

/// The name of a value type.
pub open spec fn spec_name(t: ValueType) -> Seq<char> {
    match t {
        ValueType::Thunk => "thunk"@,
        ValueType::Int => "int"@,
        ValueType::Float => "float"@,
        ValueType::Bool => "bool"@,
        ValueType::String => "string"@,
        ValueType::Path => "path"@,
        ValueType::Null => "null"@,
        ValueType::Attrs => "attrs"@,
        ValueType::List => "list"@,
        ValueType::Function => "function"@,
        ValueType::External => "external"@,
    }
}

impl ValueType {
    /// The value type that a libnix `ValueType` code stands for.
    pub fn from_c(value_type: i32) -> (t: ValueType)
        ensures
            t == spec_from_c(value_type),
    {
        if value_type == NIX_TYPE_INT {
            ValueType::Int
        } else if value_type == NIX_TYPE_FLOAT {
            ValueType::Float
        } else if value_type == NIX_TYPE_BOOL {
            ValueType::Bool
        } else if value_type == NIX_TYPE_STRING {
            ValueType::String
        } else if value_type == NIX_TYPE_PATH {
            ValueType::Path
        } else if value_type == NIX_TYPE_NULL {
            ValueType::Null
        } else if value_type == NIX_TYPE_ATTRS {
            ValueType::Attrs
        } else if value_type == NIX_TYPE_LIST {
            ValueType::List
        } else if value_type == NIX_TYPE_FUNCTION {
            ValueType::Function
        } else if value_type == NIX_TYPE_EXTERNAL {
            ValueType::External
        } else {
            ValueType::Thunk
        }
    }

    /// The libnix code of this value type.
    pub fn code(&self) -> (c: i32)
        ensures
            c == spec_code(*self),
    {
        match self {
            ValueType::Thunk => NIX_TYPE_THUNK,
            ValueType::Int => NIX_TYPE_INT,
            ValueType::Float => NIX_TYPE_FLOAT,
            ValueType::Bool => NIX_TYPE_BOOL,
            ValueType::String => NIX_TYPE_STRING,
            ValueType::Path => NIX_TYPE_PATH,
            ValueType::Null => NIX_TYPE_NULL,
            ValueType::Attrs => NIX_TYPE_ATTRS,
            ValueType::List => NIX_TYPE_LIST,
            ValueType::Function => NIX_TYPE_FUNCTION,
            ValueType::External => NIX_TYPE_EXTERNAL,
        }
    }

    /// The name that displays this value type.
    pub fn to_string(&self) -> (s: String)
        ensures
            s@ == spec_name(*self),
    {
        let name = match self {
            ValueType::Thunk => "thunk",
            ValueType::Int => "int",
            ValueType::Float => "float",
            ValueType::Bool => "bool",
            ValueType::String => "string",
            ValueType::Path => "path",
            ValueType::Null => "null",
            ValueType::Attrs => "attrs",
            ValueType::List => "list",
            ValueType::Function => "function",
            ValueType::External => "external",
        };
        String::from_str(name)
    }
}

/// Every value type has a code, and the code stands for that type again:
/// reading a code back gives the type it came from.
pub proof fn lemma_code_round_trip(t: ValueType)
    ensures
        spec_from_c(spec_code(t)) == t,
{
}

/// Every libnix type code up to `NIX_TYPE_EXTERNAL` stands for a type
/// whose code it is again.
pub proof fn lemma_from_c_round_trip(code: i32)
    requires
        NIX_TYPE_THUNK <= code <= NIX_TYPE_EXTERNAL,
    ensures
        spec_code(spec_from_c(code)) == code,
{
}

} // verus!
