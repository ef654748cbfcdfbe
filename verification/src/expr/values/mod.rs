//! Nix values, as read from libnix.

pub mod attrs;
pub mod bool;
pub mod float;
pub mod function;
pub mod integer;
pub mod list;
pub mod null;
pub mod path;
pub mod string;
pub mod thunk;

pub use attrs::NixAttrs;
pub use bool::NixBool;
pub use float::NixFloat;
pub use function::NixFunction;
pub use integer::NixInt;
pub use list::NixList;
pub use null::NixNull;
pub use path::NixPath;
pub use string::NixString;
pub use thunk::NixThunk;

use vstd::prelude::*;
use vstd::string::StrSliceExecFns;

use crate::errors::context::{spec_peak, ErrorContext};
use crate::errors::error::{result_view, NixideResult};
use crate::expr::valuetype::{spec_from_c, ValueType, NIX_TYPE_EXTERNAL, NIX_TYPE_THUNK};
use crate::util::wrap::{nix_fn, spec_nix_fn};
use crate::util::text::decimal;
use string::spec_string_debug;
use crate::util::wrappers::AsInnerPtr;

verus! {

/// A value of one of libnix's value types, held by its address.
pub trait NixValue: AsInnerPtr {
    /// The libnix code of the value's type.
    spec fn spec_type_id(&self) -> i32;

    /// Returns the libnix code of the value's type.
    fn type_id(&self) -> (t: i32)
        ensures
            t == self.spec_type_id(),
    ;
}

/// How a boolean is displayed.
pub open spec fn spec_bool_text(b: bool) -> Seq<char> {
    if b {
        "true"@
    } else {
        "false"@
    }
}

/// A Nix value, by its type.
pub enum Value {
    /// An unevaluated expression.
    Thunk(NixThunk),
    Int(NixInt),
    Float(NixFloat),
    Bool(NixBool),
    String(NixString),
    Path(NixPath),
    Null(NixNull),
    Attrs(NixAttrs),
    List(NixList),
    Function(NixFunction),
}

/// What is read from libnix about a value once its type is known: its
/// number, truth, text, path, or count of attributes or elements; nothing
/// for the other types.
pub enum ValueContent {
    Empty,
    Int(i64),
    Bool(bool),
    String(String),
    Path(String),
    Attrs(u32),
    List(u32),
}

/// The content read for a value of type `t` is of the kind that the type
/// has.
pub open spec fn content_fits(t: ValueType, c: ValueContent) -> bool {
    match t {
        ValueType::Int => c is Int,
        ValueType::Bool => c is Bool,
        ValueType::String => c is String,
        ValueType::Path => c is Path,
        ValueType::Attrs => c is Attrs,
        ValueType::List => c is List,
        _ => c is Empty,
    }
}

/// What character `i` of `s` becomes inside a double-quoted Nix string:
/// `"` and `\` are escaped with a backslash, and so is a `$` that starts
/// an interpolation `${`; any other character stands for itself.
pub open spec fn spec_escaped_char(s: Seq<char>, i: int) -> Seq<char> {
    if s[i] == '"' {
        seq!['\\', '"']
    } else if s[i] == '\\' {
        seq!['\\', '\\']
    } else if s[i] == '$' && i + 1 < s.len() && s[i + 1] == '{' {
        seq!['\\', '$']
    } else {
        seq![s[i]]
    }
}

/// The escaping of the first `k` characters of `s` (each looking at the
/// character after it, which may lie beyond the first `k`).
pub open spec fn spec_escape_prefix(s: Seq<char>, k: int) -> Seq<char>
    decreases k,
{
    if k <= 0 {
        Seq::empty()
    } else {
        spec_escape_prefix(s, k - 1) + spec_escaped_char(s, k - 1)
    }
}

/// The body of the double-quoted Nix string literal whose value is `s`.
pub open spec fn spec_escape_nix_string(s: Seq<char>) -> Seq<char> {
    spec_escape_prefix(s, s.len() as int)
}

/// Escapes `s` for a double-quoted Nix string literal: `"`, `\` and the
/// `$` of each `${` get a backslash before them.
pub fn escape_nix_string(s: &str) -> (r: String)
    ensures
        r@ == spec_escape_nix_string(s@),
{
    let len = s.unicode_len();
    let mut r = String::new();
    let mut i: usize = 0;
    proof {
        reveal_strlit("\\\"");
        reveal_strlit("\\\\");
        reveal_strlit("\\$");
    }
    while i < len
        invariant
            len == s@.len(),
            i <= len,
            r@ == spec_escape_prefix(s@, i as int),
            "\\\""@ =~= seq!['\\', '"'],
            "\\\\"@ =~= seq!['\\', '\\'],
            "\\$"@ =~= seq!['\\', '$'],
        decreases len - i,
    {
        let c = s.get_char(i);
        if c == '"' {
            r.append("\\\"");
        } else if c == '\\' {
            r.append("\\\\");
        } else if c == '$' && i + 1 < len && s.get_char(i + 1) == '{' {
            r.append("\\$");
        } else {
            let piece = s.substring_char(i, i + 1);
            assert(piece@ =~= seq![c]);
            r.append(piece);
        }
        assert(r@ =~= spec_escape_prefix(s@, i + 1));
        i = i + 1;
    }
    r
}

/// `v` is the value at `inner` of the state at `state`, read again after
/// forcing: of the type whose code `get_type` reported, with the content
/// that `read` read for that type.
pub open spec fn forced_into<G, R>(v: Value, inner: usize, state: usize, get_type: G, read: R) -> bool where
    G: FnOnce(usize) -> i32,
    R: FnOnce(ValueType) -> ValueContent,
 {
    exists|t: i32|
        #[trigger] get_type.ensures((inner,), t) && v.spec_value_type() == spec_from_c(t)
            && v.spec_ptr() == inner && v.spec_state() == state && exists|c: ValueContent|
            #[trigger] read.ensures((spec_from_c(t),), c) && (match c {
                ValueContent::String(s) => v.spec_text() == s@,
                ValueContent::Path(s) => v.spec_text() == s@,
                _ => v.spec_content() == c,
            })
}

impl Value {
    /// The type of the value.
    pub open spec fn spec_value_type(&self) -> ValueType {
        match self {
            Value::Thunk(_) => ValueType::Thunk,
            Value::Int(_) => ValueType::Int,
            Value::Float(_) => ValueType::Float,
            Value::Bool(_) => ValueType::Bool,
            Value::String(_) => ValueType::String,
            Value::Path(_) => ValueType::Path,
            Value::Null(_) => ValueType::Null,
            Value::Attrs(_) => ValueType::Attrs,
            Value::List(_) => ValueType::List,
            Value::Function(_) => ValueType::Function,
        }
    }

    /// The address of the value.
    pub open spec fn spec_ptr(&self) -> usize {
        match self {
            Value::Thunk(v) => v.spec_ptr(),
            Value::Int(v) => v.spec_ptr(),
            Value::Float(v) => v.spec_ptr(),
            Value::Bool(v) => v.spec_ptr(),
            Value::String(v) => v.spec_ptr(),
            Value::Path(v) => v.spec_ptr(),
            Value::Null(v) => v.spec_ptr(),
            Value::Attrs(v) => v.spec_ptr(),
            Value::List(v) => v.spec_ptr(),
            Value::Function(v) => v.spec_ptr(),
        }
    }

    /// The address of the evaluation state that the value belongs to.
    pub open spec fn spec_state(&self) -> usize {
        match self {
            Value::Thunk(v) => v.spec_state(),
            Value::Int(v) => v.spec_state(),
            Value::Float(v) => v.spec_state(),
            Value::Bool(v) => v.spec_state(),
            Value::String(v) => v.spec_state(),
            Value::Path(v) => v.spec_state(),
            Value::Null(v) => v.spec_state(),
            Value::Attrs(v) => v.spec_state(),
            Value::List(v) => v.spec_state(),
            Value::Function(v) => v.spec_state(),
        }
    }

    /// The content that the value holds.
    pub open spec fn spec_content(&self) -> ValueContent {
        match self {
            Value::Int(v) => ValueContent::Int(v.spec_value()),
            Value::Bool(v) => ValueContent::Bool(v.spec_value()),
            Value::Attrs(v) => ValueContent::Attrs(v.spec_len()),
            Value::List(v) => ValueContent::List(v.spec_len()),
            _ => ValueContent::Empty,
        }
    }

    /// The text that the value holds, for a string or a path.
    pub open spec fn spec_text(&self) -> Seq<char> {
        match self {
            Value::String(v) => v.spec_value(),
            Value::Path(v) => v.spec_value(),
            _ => Seq::empty(),
        }
    }

    /// How the value is displayed; `None` for a float, which the caller
    /// renders.
    pub open spec fn spec_display(&self) -> Option<Seq<char>> {
        match self {
            Value::Thunk(_) => Some("<thunk>"@),
            Value::Int(v) => Some(decimal(v.spec_value() as int)),
            Value::Float(_) => None,
            Value::Bool(v) => Some(spec_bool_text(v.spec_value())),
            Value::String(v) => Some(v.spec_value()),
            Value::Path(v) => Some(v.spec_value()),
            Value::Null(_) => Some("null"@),
            Value::Attrs(_) => Some("{ <attrs> }"@),
            Value::List(_) => Some("[ <list> ]"@),
            Value::Function(_) => Some("<function>"@),
        }
    }

    /// How the value is shown for debugging; `None` for a float.
    pub open spec fn spec_debug(&self) -> Option<Seq<char>> {
        match self {
            Value::Thunk(_) => Some("Value::Thunk("@ + "NixThunk"@ + ")"@),
            Value::Int(v) => Some(
                "Value::Int("@ + ("NixInt("@ + decimal(v.spec_value() as int) + ")"@) + ")"@,
            ),
            Value::Float(_) => None,
            Value::Bool(v) => Some(
                "Value::Bool("@ + ("NixBool("@ + spec_bool_text(v.spec_value()) + ")"@) + ")"@,
            ),
            Value::String(v) => Some(
                "Value::String("@ + spec_string_debug(v.spec_value()) + ")"@,
            ),
            Value::Path(v) => Some(
                "Value::Path("@ + ("NixPath(\""@ + v.spec_value() + "\")"@) + ")"@,
            ),
            Value::Null(_) => Some("Value::Null("@ + "NixNull"@ + ")"@),
            Value::Attrs(_) => Some("Value::Attrs("@ + "{ <attrs> }"@ + ")"@),
            Value::List(_) => Some("Value::List("@ + "[ <list> ]"@ + ")"@),
            Value::Function(_) => Some("Value::Function("@ + "NixFunction"@ + ")"@),
        }
    }

    /// The value in Nix syntax; `None` for a float.
    pub open spec fn spec_nix_string(&self) -> Option<Seq<char>> {
        match self {
            Value::Thunk(_) => Some("<thunk>"@),
            Value::Int(v) => Some(decimal(v.spec_value() as int)),
            Value::Float(_) => None,
            Value::Bool(v) => Some(spec_bool_text(v.spec_value())),
            Value::String(v) => Some("\""@ + spec_escape_nix_string(v.spec_value()) + "\""@),
            Value::Path(_) => Some("<path>"@),
            Value::Null(_) => Some("null"@),
            Value::Attrs(_) => Some("{ <attrs> }"@),
            Value::List(_) => Some("[ <list> ]"@),
            Value::Function(_) => Some("<function>"@),
        }
    }

    /// The value held at `inner`, of the evaluation state at `state`, whose
    /// (forced) type has the libnix code `value_type`: `read` reads its
    /// content from libnix once the type is known. The type must not be
    /// external, and what `read` reads must be of the kind of the type.
    pub fn from<F>(inner: usize, state: usize, value_type: i32, read: F) -> (v: Value) where
        F: FnOnce(ValueType) -> ValueContent,

        requires
            inner != 0,
            state != 0,
            0 <= value_type < NIX_TYPE_EXTERNAL,
            read.requires((spec_from_c(value_type),)),
            forall|c: ValueContent| #[trigger]
                read.ensures((spec_from_c(value_type),), c) ==> content_fits(
                    spec_from_c(value_type),
                    c,
                ),
        ensures
            v.spec_value_type() == spec_from_c(value_type),
            v.spec_ptr() == inner,
            v.spec_state() == state,
            exists|c: ValueContent| #[trigger]
                read.ensures((spec_from_c(value_type),), c) && (match c {
                    ValueContent::String(s) => v.spec_text() == s@,
                    ValueContent::Path(s) => v.spec_text() == s@,
                    _ => v.spec_content() == c,
                }),
    {
        let t = ValueType::from_c(value_type);
        let content = read(t);
        match t {
            ValueType::Thunk => Value::Thunk(NixThunk::from(inner, state)),
            ValueType::Int => match content {
                ValueContent::Int(x) => Value::Int(NixInt::from(inner, state, x)),
                _ => {
                    assert(false);
                    Value::Null(NixNull::from(inner, state))
                },
            },
            ValueType::Float => Value::Float(NixFloat::from(inner, state)),
            ValueType::Bool => match content {
                ValueContent::Bool(b) => Value::Bool(NixBool::from(inner, state, b)),
                _ => {
                    assert(false);
                    Value::Null(NixNull::from(inner, state))
                },
            },
            ValueType::String => match content {
                ValueContent::String(s) => Value::String(NixString::from(inner, state, s)),
                _ => {
                    assert(false);
                    Value::Null(NixNull::from(inner, state))
                },
            },
            ValueType::Path => match content {
                ValueContent::Path(p) => Value::Path(NixPath::from(inner, state, p)),
                _ => {
                    assert(false);
                    Value::Null(NixNull::from(inner, state))
                },
            },
            ValueType::Null => Value::Null(NixNull::from(inner, state)),
            ValueType::Attrs => match content {
                ValueContent::Attrs(n) => Value::Attrs(NixAttrs::from(inner, state, n)),
                _ => {
                    assert(false);
                    Value::Null(NixNull::from(inner, state))
                },
            },
            ValueType::List => match content {
                ValueContent::List(n) => Value::List(NixList::from(inner, state, n)),
                _ => {
                    assert(false);
                    Value::Null(NixNull::from(inner, state))
                },
            },
            ValueType::Function => Value::Function(NixFunction::from(inner, state)),
            ValueType::External => {
                assert(false);
                Value::Null(NixNull::from(inner, state))
            },
        }
    }

    /// The value held at `inner`, of the evaluation state at `state`,
    /// forced and then read: `force` calls `nix_value_force` with the state
    /// and the value, which must not fail; `get_type` calls `nix_get_type`
    /// on it, which must report a type other than external; `read` reads
    /// the content of that type. The result is what [`Value::from`] gives
    /// for the type code that was read.
    pub fn force_and_read<F, G, R>(inner: usize, state: usize, force: F, get_type: G, read: R) -> (v:
        Value) where
        F: FnOnce(usize, usize) -> ErrorContext,
        G: FnOnce(usize) -> i32,
        R: FnOnce(ValueType) -> ValueContent,

        requires
            inner != 0,
            state != 0,
            force.requires((state, inner)),
            forall|ctx: ErrorContext| #[trigger]
                force.ensures((state, inner), ctx) ==> spec_peak(ctx@) is Ok,
            get_type.requires((inner,)),
            forall|t: i32| #[trigger]
                get_type.ensures((inner,), t) ==> NIX_TYPE_THUNK <= t < NIX_TYPE_EXTERNAL,
            forall|t: ValueType| #[trigger] read.requires((t,)),
            forall|t: ValueType, c: ValueContent| #[trigger] read.ensures((t,), c) ==> content_fits(t, c),
        ensures
            exists|ctx: ErrorContext| #[trigger] force.ensures((state, inner), ctx),
            forced_into(v, inner, state, get_type, read),
    {
        let ctx = force(state, inner);
        assert(spec_peak(ctx@) is Ok);
        let t = get_type(inner);
        Value::from(inner, state, t, read)
    }

    /// The addresses of the value and of its evaluation state; neither is
    /// null.
    fn ptr_and_state(&self) -> (r: (usize, usize))
        ensures
            r == (self.spec_ptr(), self.spec_state()),
            r.0 != 0,
            r.1 != 0,
    {
        match self {
            Value::Thunk(v) => (v.ptr(), v.state()),
            Value::Int(v) => (v.ptr(), v.state()),
            Value::Float(v) => (v.ptr(), v.state()),
            Value::Bool(v) => (v.ptr(), v.state()),
            Value::String(v) => (v.ptr(), v.state()),
            Value::Path(v) => (v.ptr(), v.state()),
            Value::Null(v) => (v.ptr(), v.state()),
            Value::Attrs(v) => (v.ptr(), v.state()),
            Value::List(v) => (v.ptr(), v.state()),
            Value::Function(v) => (v.ptr(), v.state()),
        }
    }

    /// Forces the evaluation of the value: `force` calls `nix_value_force`
    /// with the evaluation state and the value. If the call fails, its
    /// error is returned and the value is left as it was. Otherwise the
    /// value is read again as [`Value::from`] reads it: `get_type` calls
    /// `nix_get_type` on it, and libnix never reports a thunk (nor, here,
    /// an external value) for a value it has forced; `read` reads the
    /// content of that type.
    pub fn force<F, G, R>(&mut self, force: F, get_type: G, read: R) -> (r: NixideResult<()>) where
        F: FnOnce(usize, usize) -> ErrorContext,
        G: FnOnce(usize) -> i32,
        R: FnOnce(ValueType) -> ValueContent,

        requires
            force.requires((old(self).spec_state(), old(self).spec_ptr())),
            get_type.requires((old(self).spec_ptr(),)),
            forall|t: i32| #[trigger]
                get_type.ensures((old(self).spec_ptr(),), t) ==> NIX_TYPE_THUNK < t < NIX_TYPE_EXTERNAL,
            forall|t: ValueType| #[trigger] read.requires((t,)),
            forall|t: ValueType, c: ValueContent| #[trigger] read.ensures((t,), c) ==> content_fits(t, c),
        ensures
            exists|ctx: ErrorContext|
                #[trigger] force.ensures((old(self).spec_state(), old(self).spec_ptr()), ctx)
                    && match spec_nix_fn(ctx@, ()) {
                    Err(e) => r matches Err(re) && re@ == e && *final(self) == *old(self),
                    Ok(()) => r is Ok && forced_into(
                        *final(self),
                        old(self).spec_ptr(),
                        old(self).spec_state(),
                        get_type,
                        read,
                    ),
                },
            r is Ok ==> final(self).spec_value_type() != ValueType::Thunk,
    {
        let (ptr, state) = self.ptr_and_state();
        let ctx = force(state, ptr);
        match nix_fn(ctx, ()) {
            Err(e) => Err(e),
            Ok(()) => {
                let t = get_type(ptr);
                *self = Value::from(ptr, state, t, read);
                Ok(())
            },
        }
    }

    /// Forces the evaluation of the value and, recursively, of everything
    /// it holds: `force` calls `nix_value_force_deep` with the evaluation
    /// state and the value. Then, as for [`Value::force`], the value is
    /// left as it was if the call failed, and read again if it succeeded.
    pub fn force_deep<F, G, R>(&mut self, force: F, get_type: G, read: R) -> (r: NixideResult<()>) where
        F: FnOnce(usize, usize) -> ErrorContext,
        G: FnOnce(usize) -> i32,
        R: FnOnce(ValueType) -> ValueContent,

        requires
            force.requires((old(self).spec_state(), old(self).spec_ptr())),
            get_type.requires((old(self).spec_ptr(),)),
            forall|t: i32| #[trigger]
                get_type.ensures((old(self).spec_ptr(),), t) ==> NIX_TYPE_THUNK < t < NIX_TYPE_EXTERNAL,
            forall|t: ValueType| #[trigger] read.requires((t,)),
            forall|t: ValueType, c: ValueContent| #[trigger] read.ensures((t,), c) ==> content_fits(t, c),
        ensures
            exists|ctx: ErrorContext|
                #[trigger] force.ensures((old(self).spec_state(), old(self).spec_ptr()), ctx)
                    && match spec_nix_fn(ctx@, ()) {
                    Err(e) => r matches Err(re) && re@ == e && *final(self) == *old(self),
                    Ok(()) => r is Ok && forced_into(
                        *final(self),
                        old(self).spec_ptr(),
                        old(self).spec_state(),
                        get_type,
                        read,
                    ),
                },
            r is Ok ==> final(self).spec_value_type() != ValueType::Thunk,
    {
        let (ptr, state) = self.ptr_and_state();
        let ctx = force(state, ptr);
        match nix_fn(ctx, ()) {
            Err(e) => Err(e),
            Ok(()) => {
                let t = get_type(ptr);
                *self = Value::from(ptr, state, t, read);
                Ok(())
            },
        }
    }

    /// The type of the value.
    pub fn value_type(&self) -> (t: ValueType)
        ensures
            t == self.spec_value_type(),
    {
        match self {
            Value::Thunk(_) => ValueType::Thunk,
            Value::Int(_) => ValueType::Int,
            Value::Float(_) => ValueType::Float,
            Value::Bool(_) => ValueType::Bool,
            Value::String(_) => ValueType::String,
            Value::Path(_) => ValueType::Path,
            Value::Null(_) => ValueType::Null,
            Value::Attrs(_) => ValueType::Attrs,
            Value::List(_) => ValueType::List,
            Value::Function(_) => ValueType::Function,
        }
    }

    /// The text that displays the value; `None` for a float, which the
    /// caller renders.
    pub fn to_string(&self) -> (s: Option<String>)
        ensures
            match s {
                Some(s) => self.spec_display() == Some(s@),
                None => self.spec_display() is None,
            },
    {
        match self {
            Value::Thunk(v) => Some(v.to_string()),
            Value::Int(v) => Some(v.to_string()),
            Value::Float(_) => None,
            Value::Bool(v) => Some(v.to_string()),
            Value::String(v) => Some(v.to_string()),
            Value::Path(v) => Some(v.to_string()),
            Value::Null(v) => Some(v.to_string()),
            Value::Attrs(v) => Some(v.to_string()),
            Value::List(v) => Some(v.to_string()),
            Value::Function(v) => Some(v.to_string()),
        }
    }

    /// The text that shows the value for debugging; `None` for a float.
    pub fn to_debug_string(&self) -> (s: Option<String>)
        ensures
            match s {
                Some(s) => self.spec_debug() == Some(s@),
                None => self.spec_debug() is None,
            },
    {
        let (inner, name) = match self {
            Value::Thunk(v) => (v.to_debug_string(), "Value::Thunk("),
            Value::Int(v) => (v.to_debug_string(), "Value::Int("),
            Value::Float(_) => return None,
            Value::Bool(v) => (v.to_debug_string(), "Value::Bool("),
            Value::String(v) => (v.to_debug_string(), "Value::String("),
            Value::Path(v) => (v.to_debug_string(), "Value::Path("),
            Value::Null(v) => (v.to_debug_string(), "Value::Null("),
            Value::Attrs(v) => (v.to_debug_string(), "Value::Attrs("),
            Value::List(v) => (v.to_debug_string(), "Value::List("),
            Value::Function(v) => (v.to_debug_string(), "Value::Function("),
        };
        let mut s = String::from_str(name);
        s.append(inner.as_str());
        s.append(")");
        Some(s)
    }

    /// The value in Nix syntax: numbers and booleans as written, strings
    /// as double-quoted literals with `"`, `\` and `${` escaped, and a
    /// placeholder for the other types; `None` for a float.
    pub fn to_nix_string(&self) -> (s: Option<String>)
        ensures
            match s {
                Some(s) => self.spec_nix_string() == Some(s@),
                None => self.spec_nix_string() is None,
            },
    {
        match self {
            Value::Int(v) => Some(v.to_string()),
            Value::Float(_) => None,
            Value::Bool(v) => Some(v.to_string()),
            Value::String(v) => {
                let mut s = String::from_str("\"");
                let escaped = escape_nix_string(v.value().as_str());
                s.append(escaped.as_str());
                s.append("\"");
                Some(s)
            },
            Value::Null(_) => Some(String::from_str("null")),
            Value::Attrs(_) => Some(String::from_str("{ <attrs> }")),
            Value::List(_) => Some(String::from_str("[ <list> ]")),
            Value::Function(_) => Some(String::from_str("<function>")),
            Value::Path(_) => Some(String::from_str("<path>")),
            Value::Thunk(_) => Some(String::from_str("<thunk>")),
        }
    }
}

/// Escaping changes nothing in a string without quotes, backslashes or
/// dollar signs.
pub proof fn lemma_escape_plain_text(s: Seq<char>)
    requires
        !s.contains('"'),
        !s.contains('\\'),
        !s.contains('$'),
    ensures
        spec_escape_nix_string(s) == s,
{
    assert forall|k: int| 0 <= k <= s.len() implies #[trigger] spec_escape_prefix(s, k) =~= s.take(k) by {
        lemma_escape_prefix_plain(s, k);
    }
    assert(s.take(s.len() as int) =~= s);
}

proof fn lemma_escape_prefix_plain(s: Seq<char>, k: int)
    requires
        !s.contains('"'),
        !s.contains('\\'),
        !s.contains('$'),
        0 <= k <= s.len(),
    ensures
        spec_escape_prefix(s, k) =~= s.take(k),
    decreases k,
{
    if k > 0 {
        lemma_escape_prefix_plain(s, k - 1);
        assert(s[k - 1] != '"' && s[k - 1] != '\\' && s[k - 1] != '$') by {
            if s[k - 1] == '"' || s[k - 1] == '\\' || s[k - 1] == '$' {
                assert(s.contains(s[k - 1]));
            }
        }
        assert(s.take(k) =~= s.take(k - 1) + seq![s[k - 1]]);
    }
}

} // verus!
