//! Creating, initializing and wiring together the libnix objects, with
//! closures that stand in for the libnix calls and answer as a working
//! libnix does.

use nixide::context::{Context, LibnixInit};
use nixide::errors::{ErrorContext, NixideError, NIX_ERR_UNKNOWN, NIX_OK};
use nixide::expr::valuetype::{
    NIX_TYPE_ATTRS, NIX_TYPE_BOOL, NIX_TYPE_INT, NIX_TYPE_LIST, NIX_TYPE_NULL, NIX_TYPE_STRING,
};
use nixide::expr::values::ValueContent;
use nixide::expr::{EvalState, EvalStateBuilder, Value, ValueType};
use nixide::flake::{EvalStateBuilderExt, FetchersSettings, FlakeSettings};
use nixide::init::update_init_status;
use nixide::store::{Store, StorePath};

const CONTEXT: usize = 0x1000;
const STORE: usize = 0x2000;
const BUILDER: usize = 0x3000;
const STATE: usize = 0x4000;
const SETTINGS: usize = 0x5000;

fn ok_ptr(p: usize) -> (ErrorContext, usize) {
    (ErrorContext::new(), p)
}

fn init_all() -> Context {
    Context::new(|| CONTEXT, |_, _| NIX_OK).expect("libnix initialization failed")
}

fn open_default_store() -> Store {
    Store::default(|uri| {
        assert!(uri.is_none());
        ok_ptr(STORE)
    })
    .expect("Failed to open store")
}

fn build_state(store: &Store) -> EvalState {
    EvalStateBuilder::new(store, |s| {
        assert_eq!(s, STORE);
        ok_ptr(BUILDER)
    })
    .expect("Failed to create builder")
    .build(|_| ErrorContext::new(), |b| {
        assert_eq!(b, BUILDER);
        ok_ptr(STATE)
    })
    .expect("Failed to build state")
}

/// Evaluates `expr` against a libnix whose evaluation yields a value of
/// type `type_code` with the content `content`.
fn eval(state: &EvalState, expr: &str, type_code: i32, content: ValueContent) -> Value {
    let value_ptr: usize = 0x6000;
    state
        .eval_from_string(
            expr,
            "<eval>",
            |s| {
                assert_eq!(s, STATE);
                ok_ptr(value_ptr)
            },
            |_, e, p, _| {
                assert_eq!(e.last(), Some(&0u8));
                assert_eq!(p, b"<eval>\0".to_vec());
                ErrorContext::new()
            },
            |v, s| Value::from(v, s, type_code, |_| content),
        )
        .expect("Failed to evaluate expression")
}

#[test]
fn eval_init_and_state_build() {
    let ctx = Context::new(|| CONTEXT, |c, l| {
        assert_eq!(c, CONTEXT);
        assert!(matches!(l, LibnixInit::Util | LibnixInit::Store | LibnixInit::Expr));
        NIX_OK
    });
    assert!(ctx.is_ok());
    let store = Store::default(|_| ok_ptr(STORE));
    assert!(store.is_ok());
    let store = store.unwrap();
    let builder = EvalStateBuilder::new(&store, |_| ok_ptr(BUILDER));
    assert!(builder.is_ok());
    let state = builder.unwrap().build(|_| ErrorContext::new(), |_| ok_ptr(STATE));
    assert!(state.is_ok());
    assert_eq!(*state.unwrap().inner_ref(), STATE);
}

#[test]
fn flake_settings_new_and_free() {
    let settings = FlakeSettings::new(|| ok_ptr(SETTINGS));
    assert!(settings.is_ok(), "nix_flake_settings_new returned null");
}

#[test]
fn flake_settings_add_to_eval_state_builder() {
    let _ctx = init_all();
    let store = open_default_store();
    let mut builder = EvalStateBuilder::new(&store, |_| ok_ptr(BUILDER)).unwrap();
    let settings = FlakeSettings::new(|| ok_ptr(SETTINGS)).expect("nix_flake_settings_new returned null");
    let r = settings.add_to_eval_state_builder(&mut builder, |s, b| {
        assert_eq!((s, b), (SETTINGS, BUILDER));
        ErrorContext::new()
    });
    // Accept OK or ERR_UNKNOWN (depends on Nix build/config)
    assert!(
        matches!(r, Ok(())) || matches!(r, Err(NixideError::NixError { inner: NIX_ERR_UNKNOWN, .. })),
        "nix_flake_settings_add_to_eval_state_builder returned unexpected error"
    );
}

#[test]
fn flake_settings_null_context() {
    // Passing NULL context should not crash, but may error
    let settings = FlakeSettings::new(|| ok_ptr(0));
    // May return null if context is required
    if let Err(e) = settings {
        assert!(matches!(e, NixideError::NullPtr { .. }));
    }
}

#[test]
fn value_reference_counting() {
    let _ctx = init_all();
    let store = open_default_store();
    let state = build_state(&store);
    let value = Value::from(0x6000, *state.inner_ref(), NIX_TYPE_INT, |t| {
        assert_eq!(t, ValueType::Int);
        ValueContent::Int(42)
    });
    let int_val = match &value {
        Value::Int(v) => v.as_int(),
        _ => unreachable!(),
    };
    assert_eq!(int_val, 42);
    let int_val2 = match &value {
        Value::Int(v) => *v.value(),
        _ => unreachable!(),
    };
    assert_eq!(int_val2, 42);
}

#[test]
fn manual_garbage_collection() {
    let _ctx = init_all();
    let store = open_default_store();
    let state = build_state(&store);
    let mut values = Vec::new();
    for i in 0..3i64 {
        let value = Value::from(0x6000 + (i as usize) * 8, STATE, NIX_TYPE_INT, |_| ValueContent::Int(i));
        values.push(value);
    }
    for (i, value) in values.iter().enumerate() {
        match value {
            Value::Int(v) => assert_eq!(v.as_int(), i as i64),
            _ => unreachable!(),
        }
    }
    assert_eq!(*state.inner_ref(), STATE);
}

#[test]
fn libstore_init_and_open_free() {
    let ctx = Context::new(|| CONTEXT, |_, _| NIX_OK);
    assert!(ctx.is_ok());
    let store = Store::default(|_| ok_ptr(STORE));
    assert!(store.is_ok());
}

#[test]
fn libstore_init_no_load_config() {
    let ctx = Context::new(|| CONTEXT, |_, _| NIX_OK);
    assert!(ctx.is_ok());
}

#[test]
fn fetchers_settings_new() {
    let _ = FetchersSettings::new(|| ok_ptr(SETTINGS)).unwrap();
}

#[test]
fn test_store_opening() {
    let mut status = None;
    for _ in 0..3 {
        status = update_init_status(status, ErrorContext::new);
    }
    assert!(matches!(status, Some(Ok(_))));

    let _store = Store::default(|_| ok_ptr(STORE)).expect("Failed to open store");
}

#[test]
fn test_store_path_parse() {
    let status = update_init_status(None, ErrorContext::new);
    assert!(matches!(status, Some(Ok(_))));

    let store = Store::default(|_| ok_ptr(STORE)).expect("Failed to open store");

    // Try parsing a well-formed store path
    let result = StorePath::fake_path(&store, |s, c| {
        assert_eq!(s, STORE);
        assert_eq!(c, b"/nix/store/00000000000000000000000000000000-fake\0".to_vec());
        ok_ptr(0x7000)
    });
    result.expect("idk hopefully this fails");
}

#[test]
fn test_store_path_clone() {
    let status = update_init_status(None, ErrorContext::new);
    assert!(matches!(status, Some(Ok(_))));

    let store = Store::default(|_| ok_ptr(STORE)).expect("Failed to open store");

    let path = StorePath::fake_path(&store, |_, _| ok_ptr(0x7000))
        .expect("Failed to create `StorePath::fake_path`");
    let cloned = path.clone(|p| p + 8);

    let name_of = |_: usize| Some(b"fake".to_vec());
    let original_name = path.name(name_of).expect("Failed to get original path name");
    let cloned_name = cloned.name(name_of).expect("Failed to get cloned path name");

    assert_eq!(original_name, cloned_name, "Cloned path should have the same name as original");
}

#[test]
fn test_eval_state_builder() {
    let store = Store::open("daemon", |uri| {
        assert_eq!(uri, Some(b"daemon\0".to_vec()));
        ok_ptr(STORE)
    })
    .expect("Failed to open store");
    let _state = build_state(&store);
}

#[test]
fn test_simple_evaluation() {
    let store = open_default_store();
    let state = build_state(&store);

    let result = eval(&state, "1 + 2", NIX_TYPE_INT, ValueContent::Int(3));

    assert!(matches!(result, Value::Int(_)));
    if let Value::Int(value) = result {
        assert_eq!(value.as_int(), 3);
    } else {
        unreachable!();
    }
}

#[test]
fn test_value_types() {
    let store = open_default_store();
    let state = build_state(&store);

    let int_val = eval(&state, "42", NIX_TYPE_INT, ValueContent::Int(42));
    assert!(matches!(int_val, Value::Int(_)));
    if let Value::Int(value) = int_val {
        assert_eq!(value.as_int(), 42);
    } else {
        unreachable!();
    }

    let bool_val = eval(&state, "true", NIX_TYPE_BOOL, ValueContent::Bool(true));
    assert!(matches!(bool_val, Value::Bool(_)));
    if let Value::Bool(value) = bool_val {
        assert_eq!(value.as_bool(), true);
    } else {
        unreachable!();
    }

    let string_val = eval(
        &state,
        "\"hello\"",
        NIX_TYPE_STRING,
        ValueContent::String("hello".to_string()),
    );
    assert!(matches!(string_val, Value::String(_)));
    if let Value::String(value) = string_val {
        assert_eq!(value.as_string(), "hello");
    } else {
        unreachable!();
    }
}

#[test]
fn flake_settings_getflake_exists() {
    let store_ref = Store::default(|_| ok_ptr(STORE)).expect("Failed to open store connection");
    let settings = FlakeSettings::new(|| ok_ptr(SETTINGS)).unwrap();
    let state = EvalStateBuilder::new(&store_ref, |_| ok_ptr(BUILDER))
        .unwrap()
        .flakes(&settings, |_, _| ErrorContext::new())
        .unwrap()
        .build(|_| ErrorContext::new(), |_| ok_ptr(STATE))
        .unwrap();

    let value = state
        .interpret(
            "builtins?getFlake",
            "<test>",
            |_| ok_ptr(0x6000),
            |_, _, _, _| ErrorContext::new(),
            |v, s| Value::from(v, s, NIX_TYPE_BOOL, |_| ValueContent::Bool(true)),
        )
        .unwrap();

    assert!(matches!(value, Value::Bool(_)));
    if let Value::Bool(v) = value {
        assert!(v.as_bool());
    }
}

#[test]
fn test_value_formatting() {
    let store = open_default_store();
    let state = build_state(&store);

    // Test integer formatting
    let int_val = eval(&state, "42", NIX_TYPE_INT, ValueContent::Int(42));
    assert_eq!(int_val.to_string().unwrap(), "42");
    assert_eq!(int_val.to_debug_string().unwrap(), "Value::Int(NixInt(42))");

    // Test boolean formatting
    let true_val = eval(&state, "true", NIX_TYPE_BOOL, ValueContent::Bool(true));
    assert_eq!(true_val.to_string().unwrap(), "true");
    assert_eq!(true_val.to_debug_string().unwrap(), "Value::Bool(NixBool(true))");

    let false_val = eval(&state, "false", NIX_TYPE_BOOL, ValueContent::Bool(false));
    assert_eq!(false_val.to_string().unwrap(), "false");
    assert_eq!(false_val.to_debug_string().unwrap(), "Value::Bool(NixBool(false))");

    // Test string formatting
    let str_val = eval(
        &state,
        "\"hello world\"",
        NIX_TYPE_STRING,
        ValueContent::String("hello world".to_string()),
    );
    assert_eq!(str_val.to_string().unwrap(), "hello world");
    assert_eq!(str_val.to_debug_string().unwrap(), "Value::String(NixString(\"hello world\"))");

    // Test string with quotes
    let quoted_str = eval(
        &state,
        "\"say \\\"hello\\\"\"",
        NIX_TYPE_STRING,
        ValueContent::String("say \"hello\"".to_string()),
    );
    assert_eq!(quoted_str.to_string().unwrap(), "say \"hello\"");
    assert_eq!(quoted_str.to_debug_string().unwrap(), "Value::String(NixString(say \"hello\"))");

    // Test null formatting
    let null_val = eval(&state, "null", NIX_TYPE_NULL, ValueContent::Empty);
    assert_eq!(null_val.to_string().unwrap(), "null");
    assert_eq!(null_val.to_debug_string().unwrap(), "Value::Null(NixNull)");

    // Test collection formatting
    let attrs_val = eval(&state, "{ a = 1; }", NIX_TYPE_ATTRS, ValueContent::Attrs(1));
    assert_eq!(attrs_val.to_string().unwrap(), "{ <attrs> }");
    assert_eq!(attrs_val.to_debug_string().unwrap(), "Value::Attrs({ <attrs> })");

    let list_val = eval(&state, "[ 1 2 3 ]", NIX_TYPE_LIST, ValueContent::List(3));
    assert_eq!(list_val.to_string().unwrap(), "[ <list> ]");
    assert_eq!(list_val.to_debug_string().unwrap(), "Value::List([ <list> ])");
}
