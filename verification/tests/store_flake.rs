//! Store operations, settings, lookup paths, flake references and lists,
//! attribute sets and functions, against closures that stand in for
//! libnix.

use std::cell::RefCell;

use nixide::errors::{ErrorContext, NixideError, NIX_ERR_KEY, NIX_ERR_UNKNOWN};
use nixide::expr::valuetype::{NIX_TYPE_BOOL, NIX_TYPE_INT};
use nixide::expr::values::ValueContent;
use nixide::expr::{EvalStateBuilder, NixAttrs, NixFunction, NixInt, NixList, NixThunk, Value};
use nixide::flake::{
    FetchersSettings, FlakeLockFlags, FlakeLockMode, FlakeRef, FlakeReferenceParseFlags, FlakeSettings,
};
use nixide::nix_settings::{get_global_setting, set_global_setting};
use nixide::store::{Store, StorePath};
use nixide::util::wrappers::AsInnerPtr;
use nixide::verbosity::{set_verbosity, NixVerbosity};

fn ok_ptr(p: usize) -> (ErrorContext, usize) {
    (ErrorContext::new(), p)
}

fn failed(code: i32, msg: &str) -> ErrorContext {
    let mut ctx = ErrorContext::new();
    ctx.set_err_msg(code, msg);
    ctx
}

fn store() -> Store {
    Store::default(|_| ok_ptr(0x2000)).unwrap()
}

fn int_value(n: i64) -> Value {
    Value::from(0x90 + n as usize, 0x4000, NIX_TYPE_INT, |_| ValueContent::Int(n))
}

#[test]
fn store_open_refuses_nul_without_calling() {
    let r = Store::open("bad\0uri", |_| panic!("no call may be made"));
    assert!(matches!(r, Err(NixideError::StringNulByte { .. })));
    let r = Store::open("local", |uri| {
        assert_eq!(uri, Some(b"local\0".to_vec()));
        ok_ptr(0)
    });
    assert!(matches!(r, Err(NixideError::NullPtr { .. })));
    let r = Store::open("local", |_| (failed(NIX_ERR_UNKNOWN, "cannot open"), 0x2000));
    assert!(matches!(r, Err(NixideError::NixError { inner: NIX_ERR_UNKNOWN, .. })));
}

#[test]
fn store_strings() {
    let s = store();
    assert_eq!(s.version(|_| (ErrorContext::new(), Some(b"2.24.0".to_vec()))).unwrap(), "2.24.0");
    assert_eq!(s.uri(|_| (ErrorContext::new(), Some(b"daemon".to_vec()))).unwrap(), "daemon");
    assert_eq!(s.store_dir(|_| (ErrorContext::new(), Some(b"/nix/store".to_vec()))).unwrap(), "/nix/store");
    assert!(s.version(|_| (failed(NIX_ERR_UNKNOWN, "x"), None)).is_err());
}

#[test]
fn store_path_parse_and_queries() {
    let s = store();
    let path = s.store_path("/nix/store/foo-bar-baz", |st, c| {
        assert_eq!(st, 0x2000);
        assert_eq!(c, b"/nix/store/foo-bar-baz\0".to_vec());
        ok_ptr(0x7000)
    });
    let path = path.unwrap();
    assert_eq!(path.name(|_| Some(b"foo-bar-baz".to_vec())).unwrap(), "foo-bar-baz");
    assert!(path.is_valid(&s, |_, _| (ErrorContext::new(), true)));
    assert!(!path.is_valid(&s, |_, _| (ErrorContext::new(), false)));
    assert!(!path.is_valid(&s, |_, _| (failed(NIX_ERR_UNKNOWN, "x"), true)));
    assert_eq!(
        path.real_path(&s, |_, _| (ErrorContext::new(), Some(b"/real/foo".to_vec()))).unwrap(),
        "/real/foo"
    );
    assert!(matches!(
        StorePath::parse(&s, "/nix/\0", |_, _| panic!("no call may be made")),
        Err(NixideError::StringNulByte { .. })
    ));
}

#[test]
fn store_realise_reports_outputs_in_order() {
    let s = store();
    let path = StorePath::from(0x7000);
    let seen = RefCell::new(Vec::new());
    let outs = s
        .realise(
            &path,
            |name, _| seen.borrow_mut().push(name.to_string()),
            |_, p| {
                assert_eq!(p, 0x7000);
                (ErrorContext::new(), vec![(b"out".to_vec(), 0x7100), (b"dev".to_vec(), 0x7200)])
            },
        )
        .unwrap();
    assert_eq!(seen.into_inner(), vec!["out".to_string(), "dev".to_string()]);
    assert_eq!(outs.len(), 2);
    assert_eq!(outs[0].0, "out");
    assert_eq!(outs[1].0, "dev");
    let failed_realise = s.realise(&path, |_, _| {}, |_, _| (failed(NIX_ERR_UNKNOWN, "build failed"), Vec::new()));
    assert!(failed_realise.is_err());
}

#[test]
fn store_copy_closures() {
    let a = store();
    let b = Store::default(|_| ok_ptr(0x2100)).unwrap();
    let path = StorePath::from(0x7000);
    assert!(a
        .copy_closure_to(&b, &path, |src, dst, p| {
            assert_eq!((src, dst, p), (0x2000, 0x2100, 0x7000));
            ErrorContext::new()
        })
        .is_ok());
    assert!(a
        .copy_closure_from(&b, &path, |src, dst, _| {
            assert_eq!((src, dst), (0x2100, 0x2000));
            failed(NIX_ERR_UNKNOWN, "no")
        })
        .is_err());
}

#[test]
fn global_settings() {
    let v = get_global_setting("experimental-features", |k| {
        assert_eq!(k, b"experimental-features\0".to_vec());
        (ErrorContext::new(), Some(b"flakes".to_vec()))
    });
    assert_eq!(v.unwrap(), "flakes");
    let r = set_global_setting("experimental-features", "flakes", |k, v| {
        assert_eq!(k, b"experimental-features\0".to_vec());
        assert_eq!(v, b"flakes\0".to_vec());
        ErrorContext::new()
    });
    assert!(r.is_ok());
    assert!(matches!(
        set_global_setting("a", "b\0", |_, _| panic!("no call may be made")),
        Err(NixideError::StringNulByte { .. })
    ));
    assert!(matches!(
        get_global_setting("missing", |_| (failed(NIX_ERR_KEY, "no such setting"), None)),
        Err(NixideError::NixError { inner: NIX_ERR_KEY, .. })
    ));
}

#[test]
fn lookup_path_configuration() {
    let s = store();
    let builder = EvalStateBuilder::new(&s, |_| ok_ptr(0x3000)).unwrap();
    let builder = builder
        .set_lookup_path(vec!["nixpkgs=/fake/nixpkgs", "custom=/fake/custom"], |b, paths| {
            assert_eq!(b, 0x3000);
            assert_eq!(paths, vec![b"nixpkgs=/fake/nixpkgs\0".to_vec(), b"custom=/fake/custom\0".to_vec()]);
            ErrorContext::new()
        })
        .unwrap();
    assert!(builder.set_lookup_path(vec![], |_, _| failed(NIX_ERR_UNKNOWN, "x")).is_err());
}

#[test]
fn flake_reference_fragment() {
    let r = FlakeRef::parse(
        "path:/tmp/flake#subthing",
        || FetchersSettings::new(|| ok_ptr(0x5100)),
        || FlakeSettings::new(|| ok_ptr(0x5000)),
        |s| FlakeReferenceParseFlags::new(&FlakeSettings::new(move || ok_ptr(s)).unwrap(), |_| ok_ptr(0x5200)),
        |f, s, g, bytes, n| {
            assert_eq!((f, s, g), (0x5100, 0x5000, 0x5200));
            assert_eq!(bytes, b"path:/tmp/flake#subthing".to_vec());
            assert_eq!(n, bytes.len());
            (ErrorContext::new(), Some(b"subthing".to_vec()), 0x5300)
        },
    )
    .unwrap();
    assert_eq!(r.fragment(), "subthing");

    let r = FlakeRef::parse(
        "path:/tmp/flake",
        || FetchersSettings::new(|| ok_ptr(0x5100)),
        || FlakeSettings::new(|| ok_ptr(0x5000)),
        |s| FlakeReferenceParseFlags::new(&FlakeSettings::new(move || ok_ptr(s)).unwrap(), |_| ok_ptr(0x5200)),
        |_, _, _, _, _| (ErrorContext::new(), Some(Vec::new()), 0x5300),
    )
    .unwrap();
    assert_eq!(r.fragment(), "");

    let r = FlakeRef::parse(
        "path:/tmp/flake",
        || FetchersSettings::new(|| ok_ptr(0)),
        || panic!("the first failure ends it"),
        |_| panic!("the first failure ends it"),
        |_, _, _, _, _| panic!("the first failure ends it"),
    );
    assert!(matches!(r, Err(NixideError::NullPtr { .. })));
}

#[test]
fn lock_flags_modes() {
    let settings = FlakeSettings::new(|| ok_ptr(0x5000)).unwrap();
    let mut flags = FlakeLockFlags::new(&settings, |_| ok_ptr(0x5400)).unwrap();
    let r = flags.set_mode(
        &FlakeLockMode::Virtual,
        |_| panic!("wrong mode"),
        |p| {
            assert_eq!(p, 0x5400);
            ErrorContext::new()
        },
        |_| panic!("wrong mode"),
    );
    assert!(r.is_ok());
    let r = flags.set_mode(&FlakeLockMode::Check, |_| panic!("wrong mode"), |_| panic!("wrong mode"), |_| {
        failed(NIX_ERR_UNKNOWN, "x")
    });
    assert!(r.is_err());
    let mut parse_flags = FlakeReferenceParseFlags::new(&settings, |_| ok_ptr(0x5200)).unwrap();
    assert!(parse_flags
        .set_base_directory("/tmp", |_, dir, n| {
            assert_eq!(dir, b"/tmp".to_vec());
            assert_eq!(n, 4);
            ErrorContext::new()
        })
        .is_ok());
}

#[test]
fn verbosity_levels() {
    assert_eq!(NixVerbosity::Error.code(), 0);
    assert_eq!(NixVerbosity::Vomit.code(), 7);
    let seen = RefCell::new(None);
    set_verbosity(NixVerbosity::Talkative, |c| {
        *seen.borrow_mut() = Some(c);
        ErrorContext::new()
    });
    assert_eq!(seen.into_inner(), Some(4));
}

#[test]
fn lists_attrs_and_functions() {
    let list = NixList::from(0x100, 0x4000, 3);
    let items = list.as_vec(|_, _, i| int_value(i as i64 * 2));
    let numbers: Vec<i64> = items
        .iter()
        .map(|v| match v {
            Value::Int(n) => n.as_int(),
            _ => unreachable!(),
        })
        .collect();
    assert_eq!(numbers, vec![0, 2, 4]);
    assert_eq!(list.as_vec_lazy(|s, _, i| NixThunk::from(0x200 + i as usize, s)).len(), 3);

    let attrs = NixAttrs::from(0x300, 0x4000, 2);
    let found = attrs.get("foo", |_, _, name| {
        assert_eq!(name, b"foo\0".to_vec());
        Ok(int_value(42))
    });
    assert!(matches!(found, Some(Value::Int(_))));
    let missing = attrs.get("bar", |_, _, _| {
        Err(NixideError::NixError {
            trace: "t".to_string(),
            inner: NIX_ERR_KEY,
            err: nixide::errors::NixError::KeyNotFound(None),
            msg: "missing".to_string(),
        })
    });
    assert!(missing.is_none());
    assert!(attrs.get_idx(5, |_, _, _| unreachable!(), |_, _| unreachable!()).is_none());
    assert_eq!(
        attrs.get_name_idx(1, |_, _, i| {
            assert_eq!(i, 1);
            (ErrorContext::new(), Some(b"second\0".to_vec()))
        }),
        Some("second".to_string())
    );
    let (name, v) = attrs
        .get_idx(0, |s, a, i| {
            assert_eq!((s, a, i), (0x4000, 0x300, 0));
            (ErrorContext::new(), 0x310, Some(b"caf\xc3\xa9\0rest".to_vec()))
        }, |p, s| {
            assert_eq!((p, s), (0x310, 0x4000));
            int_value(7)
        })
        .unwrap();
    assert_eq!(name, "café");
    assert!(matches!(v, Value::Int(ref n) if n.as_int() == 7));
    let (name, thunk) = attrs
        .get_idx_lazy(1, |_, _, _| (ErrorContext::new(), 0x320, Some(b"b\0".to_vec())))
        .unwrap();
    assert_eq!(name, "b");
    assert_eq!(thunk.as_ptr(), 0x320);
    assert!(attrs.get_idx_lazy(2, |_, _, _| unreachable!()).is_none());

    let f = NixFunction::from(0x400, 0x4000);
    let arg = NixInt::from(0x500, 0x4000, 41);
    let result = f.call(&arg, |s, func, a| {
        assert_eq!((s, func, a), (0x4000, 0x400, 0x500));
        int_value(42)
    });
    assert!(matches!(result, Value::Int(ref n) if n.as_int() == 42));
    let thunk = NixThunk::from(0x600, 0x4000);
    let forced = thunk.eval(|_, _| Value::from(0x600, 0x4000, NIX_TYPE_BOOL, |_| ValueContent::Bool(true)));
    assert!(matches!(forced, Value::Bool(ref b) if b.as_bool()));
}

#[test]
fn forcing_reads_the_forced_value() {
    let mut v = Value::Thunk(NixThunk::from(0x700, 0x4000));
    let r = v.force(
        |s, p| {
            assert_eq!((s, p), (0x4000, 0x700));
            ErrorContext::new()
        },
        |p| {
            assert_eq!(p, 0x700);
            NIX_TYPE_INT
        },
        |_| ValueContent::Int(42),
    );
    assert!(r.is_ok());
    assert!(matches!(v, Value::Int(ref n) if n.as_int() == 42));

    let mut failing = Value::Thunk(NixThunk::from(0x710, 0x4000));
    let r = failing.force_deep(
        |_, _| failed(NIX_ERR_UNKNOWN, "cannot add a string to an integer"),
        |_| panic!("no type is read after a failure"),
        |_| panic!("no content is read after a failure"),
    );
    assert!(matches!(r, Err(NixideError::NixError { .. })));
    assert!(matches!(failing, Value::Thunk(_)));
}

#[test]
fn evaluation_state_copies_share_the_handle() {
    let s = store();
    let state = EvalStateBuilder::new(&s, |_| ok_ptr(0x3000))
        .unwrap()
        .build(|_| ErrorContext::new(), |_| ok_ptr(0x4000))
        .unwrap();
    let copy = state.clone();
    assert_eq!(*copy.inner_ref(), *state.inner_ref());
    assert_eq!(copy.store_ref().as_ptr(), state.store_ref().as_ptr());
}

#[test]
fn store_path_and_parse_agree() {
    let s = store();
    let answer = |_: usize, c: Vec<u8>| {
        if c == b"/nix/store/abc-x\0".to_vec() {
            ok_ptr(0x7300)
        } else {
            (failed(NIX_ERR_UNKNOWN, "not a store path"), 0)
        }
    };
    for path in ["/nix/store/abc-x", "/tmp/elsewhere"] {
        let a = s.store_path(path, answer);
        let b = StorePath::parse(&s, path, answer);
        assert_eq!(a.is_ok(), b.is_ok());
        if let (Ok(a), Ok(b)) = (a, b) {
            assert_eq!(a.as_ptr(), b.as_ptr());
        }
    }
}

#[test]
fn values_are_forced_then_read() {
    let forced = RefCell::new(false);
    let v = Value::force_and_read(
        0x800,
        0x4000,
        |s, p| {
            assert_eq!((s, p), (0x4000, 0x800));
            *forced.borrow_mut() = true;
            ErrorContext::new()
        },
        |p| {
            assert!(*forced.borrow(), "the type is read after forcing");
            assert_eq!(p, 0x800);
            NIX_TYPE_BOOL
        },
        |_| ValueContent::Bool(false),
    );
    assert!(matches!(v, Value::Bool(ref b) if !b.as_bool()));
}
