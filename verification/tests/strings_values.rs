//! C strings, value classification and display, and the lazy array.

use std::cell::Cell;

use nixide::errors::{ErrorContext, NixideError, NIX_ERR_KEY};
use nixide::expr::valuetype::{
    NIX_TYPE_ATTRS, NIX_TYPE_BOOL, NIX_TYPE_EXTERNAL, NIX_TYPE_FLOAT, NIX_TYPE_FUNCTION, NIX_TYPE_INT,
    NIX_TYPE_LIST, NIX_TYPE_NULL, NIX_TYPE_PATH, NIX_TYPE_STRING, NIX_TYPE_THUNK,
};
use nixide::expr::values::{escape_nix_string, ValueContent};
use nixide::expr::{NixInt, Value, ValueType};
use nixide::stdext::cchar_ptr_ext::{contains_nul, decode_bytes, str_to_c_string, take_bytes};
use nixide::stdext::{AsCPtr, CCharPtrExt};
use nixide::util::bindings::{wrap_libnix_pathbuf_callback, wrap_libnix_string_callback};
use nixide::util::wrap::{delivered_string, nix_string_callback};
use nixide::util::{CCharPtrNixExt, LazyArray};

fn value(type_code: i32, content: ValueContent) -> Value {
    Value::from(0x10, 0x20, type_code, |_| content)
}

#[test]
fn c_string_of_text() {
    assert_eq!(str_to_c_string("abc").unwrap(), b"abc\0".to_vec());
    assert_eq!("héllo".as_c_ptr().unwrap(), "héllo\0".as_bytes().to_vec());
    assert_eq!(String::from("").into_c_ptr().unwrap(), vec![0u8]);
    assert!(matches!("a\0b".as_c_ptr(), Err(NixideError::StringNulByte { .. })));
    assert!(contains_nul("x\0"));
    assert!(!contains_nul("x"));
}

#[test]
fn c_string_round_trip() {
    for text in ["", "nixpkgs=/fake/nixpkgs", "ünïcødé ✓"] {
        let bytes = text.as_c_ptr().unwrap();
        let back = CCharPtrExt::to_utf8_string(Some(bytes.as_slice())).unwrap();
        assert_eq!(back, text);
    }
}

#[test]
fn reading_c_strings() {
    let mem: &[u8] = b"hello\0world\0";
    assert_eq!(CCharPtrExt::to_utf8_string(Some(mem)).unwrap(), "hello");
    assert_eq!(Some(mem).to_utf8_string_n(3).unwrap(), "hel");
    assert!(matches!(CCharPtrExt::to_utf8_string(None::<&[u8]>), Err(NixideError::NullPtr { .. })));
    assert_eq!(Some(mem).to_utf8_string_n(0).unwrap(), "");
    assert!(matches!(None::<&[u8]>.to_utf8_string_n(0), Err(NixideError::NullPtr { .. })));
    let bad: &[u8] = &[0xff, 0xfe, 0];
    assert!(matches!(CCharPtrExt::to_utf8_string(Some(bad)), Err(NixideError::StringNotUtf8 { .. })));
    assert_eq!(CCharPtrNixExt::to_utf8_string(Some(mem)).unwrap(), "hello");
    assert_eq!(Some(mem).to_utf8_string_sized(11).unwrap(), "hello\0world");
}

#[test]
fn decoding_bytes() {
    assert_eq!(decode_bytes("grüße".as_bytes()).unwrap(), "grüße");
    assert!(decode_bytes(&[0xc3]).is_err());
    assert_eq!(take_bytes(b"abcdef", 2), b"ab".to_vec());
}

#[test]
fn strings_handed_to_callbacks() {
    assert_eq!(delivered_string(Some(b"x86_64-linux".to_vec())).unwrap(), "x86_64-linux");
    assert_eq!(delivered_string(Some(Vec::new())).unwrap(), "");
    assert!(matches!(delivered_string(None), Err(NixideError::NullPtr { .. })));
    let mut failed = ErrorContext::new();
    failed.set_err_msg(NIX_ERR_KEY, "missing");
    assert!(matches!(
        nix_string_callback(failed, Some(b"ignored".to_vec())),
        Err(NixideError::NixError { inner: NIX_ERR_KEY, .. })
    ));
    assert_eq!(
        wrap_libnix_string_callback(|| (ErrorContext::new(), Some(b"2.24.0".to_vec()))).unwrap(),
        "2.24.0"
    );
    assert_eq!(
        wrap_libnix_pathbuf_callback(|| (ErrorContext::new(), Some(b"/nix/store".to_vec()))).unwrap(),
        "/nix/store"
    );
}

#[test]
fn value_type_codes() {
    let codes = [
        (NIX_TYPE_THUNK, ValueType::Thunk, "thunk"),
        (NIX_TYPE_INT, ValueType::Int, "int"),
        (NIX_TYPE_FLOAT, ValueType::Float, "float"),
        (NIX_TYPE_BOOL, ValueType::Bool, "bool"),
        (NIX_TYPE_STRING, ValueType::String, "string"),
        (NIX_TYPE_PATH, ValueType::Path, "path"),
        (NIX_TYPE_NULL, ValueType::Null, "null"),
        (NIX_TYPE_ATTRS, ValueType::Attrs, "attrs"),
        (NIX_TYPE_LIST, ValueType::List, "list"),
        (NIX_TYPE_FUNCTION, ValueType::Function, "function"),
        (NIX_TYPE_EXTERNAL, ValueType::External, "external"),
    ];
    for (code, t, name) in codes {
        assert_eq!(ValueType::from_c(code), t);
        assert_eq!(t.code(), code);
        assert_eq!(ValueType::from_c(t.code()), t);
        assert_eq!(t.to_string(), name);
    }
}

#[test]
fn value_formatting() {
    let int_val = value(NIX_TYPE_INT, ValueContent::Int(42));
    assert_eq!(int_val.to_string().unwrap(), "42");
    assert_eq!(int_val.to_debug_string().unwrap(), "Value::Int(NixInt(42))");

    let true_val = value(NIX_TYPE_BOOL, ValueContent::Bool(true));
    assert_eq!(true_val.to_string().unwrap(), "true");
    assert_eq!(true_val.to_debug_string().unwrap(), "Value::Bool(NixBool(true))");

    let false_val = value(NIX_TYPE_BOOL, ValueContent::Bool(false));
    assert_eq!(false_val.to_string().unwrap(), "false");
    assert_eq!(false_val.to_debug_string().unwrap(), "Value::Bool(NixBool(false))");

    let str_val = value(NIX_TYPE_STRING, ValueContent::String("hello world".to_string()));
    assert_eq!(str_val.to_string().unwrap(), "hello world");
    assert_eq!(str_val.to_debug_string().unwrap(), "Value::String(NixString(\"hello world\"))");

    let quoted = value(NIX_TYPE_STRING, ValueContent::String("say \"hello\"".to_string()));
    assert_eq!(quoted.to_string().unwrap(), "say \"hello\"");
    assert_eq!(quoted.to_debug_string().unwrap(), "Value::String(NixString(say \"hello\"))");

    let null_val = value(NIX_TYPE_NULL, ValueContent::Empty);
    assert_eq!(null_val.to_string().unwrap(), "null");
    assert_eq!(null_val.to_debug_string().unwrap(), "Value::Null(NixNull)");

    let attrs_val = value(NIX_TYPE_ATTRS, ValueContent::Attrs(1));
    assert_eq!(attrs_val.to_string().unwrap(), "{ <attrs> }");
    assert_eq!(attrs_val.to_debug_string().unwrap(), "Value::Attrs({ <attrs> })");

    let list_val = value(NIX_TYPE_LIST, ValueContent::List(3));
    assert_eq!(list_val.to_string().unwrap(), "[ <list> ]");
    assert_eq!(list_val.to_debug_string().unwrap(), "Value::List([ <list> ])");

    let float_val = value(NIX_TYPE_FLOAT, ValueContent::Empty);
    assert!(float_val.to_string().is_none());
    assert!(float_val.to_debug_string().is_none());
    assert!(float_val.to_nix_string().is_none());
}

#[test]
fn values_in_nix_syntax() {
    let quoted = value(NIX_TYPE_STRING, ValueContent::String("say \"hello\"".to_string()));
    assert_eq!(quoted.to_nix_string().unwrap(), "\"say \\\"hello\\\"\"");
    assert_eq!(value(NIX_TYPE_INT, ValueContent::Int(-7)).to_nix_string().unwrap(), "-7");
    assert_eq!(value(NIX_TYPE_PATH, ValueContent::Path("/x".to_string())).to_nix_string().unwrap(), "<path>");
    assert_eq!(value(NIX_TYPE_FUNCTION, ValueContent::Empty).to_nix_string().unwrap(), "<function>");
    assert_eq!(value(NIX_TYPE_THUNK, ValueContent::Empty).to_nix_string().unwrap(), "<thunk>");
    assert_eq!(escape_nix_string("no quotes"), "no quotes");
    assert_eq!(escape_nix_string("\"\""), "\\\"\\\"");
    assert_eq!(escape_nix_string("a\\b"), "a\\\\b");
    assert_eq!(escape_nix_string("${x} $y {z}"), "\\${x} $y {z}");
    assert_eq!(escape_nix_string("$"), "$");
    let tricky = value(NIX_TYPE_STRING, ValueContent::String("C:\\dir ${home}".to_string()));
    assert_eq!(tricky.to_nix_string().unwrap(), "\"C:\\\\dir \\${home}\"");
}

#[test]
fn integers_in_decimal() {
    assert_eq!(NixInt::from(1, 1, i64::MIN).to_string(), "-9223372036854775808");
    assert_eq!(NixInt::from(1, 1, i64::MAX).to_string(), "9223372036854775807");
    assert_eq!(NixInt::from(1, 1, 0).to_debug_string(), "NixInt(0)");
}

#[test]
fn value_kinds_and_content() {
    let path = value(NIX_TYPE_PATH, ValueContent::Path("/nix/store/foo".to_string()));
    assert_eq!(path.value_type(), ValueType::Path);
    match path {
        Value::Path(p) => {
            assert_eq!(p.as_path(), "/nix/store/foo");
            assert_eq!(p.to_debug_string(), "NixPath(\"/nix/store/foo\")");
        },
        _ => unreachable!(),
    }
    match value(NIX_TYPE_ATTRS, ValueContent::Attrs(4)) {
        Value::Attrs(a) => assert_eq!(a.len(), 4),
        _ => unreachable!(),
    }
    match value(NIX_TYPE_LIST, ValueContent::List(2)) {
        Value::List(l) => assert_eq!(l.len(), 2),
        _ => unreachable!(),
    }
    assert_eq!(value(NIX_TYPE_FUNCTION, ValueContent::Empty).value_type(), ValueType::Function);
}

#[test]
fn lazy_array_computes_each_element_once() {
    let calls = Cell::new(0u32);
    let mut array = LazyArray::new(3, |i: usize| {
        calls.set(calls.get() + 1);
        i * 10
    });
    assert_eq!(array.get(1), Some(&10));
    assert_eq!(array.get(1), Some(&10));
    assert_eq!(calls.get(), 1);
    assert_eq!(array.get(2), Some(&20));
    assert_eq!(calls.get(), 2);
    assert_eq!(array.get(3), None);
    assert_eq!(calls.get(), 2);
}
