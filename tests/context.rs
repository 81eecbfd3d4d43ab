use std::cell::Cell;
use thiserror_string_context::{render_operations, AddErrorContext, ContextError};

#[derive(Debug, Clone, PartialEq, Eq)]
enum MyError {
    Error1,
    Error2,
    Error3,
}

fn callme(n: i32) -> Result<(), MyError> {
    match n {
        42 => println!("Nice number!"),
        1 => return Err(MyError::Error1),
        2 => return Err(MyError::Error2),
        _ => return Err(MyError::Error3),
    }
    Ok(())
}

#[test]
#[should_panic]
fn test1() {
    callme(42).unwrap();
    let r: Result<(), ContextError<MyError>> = callme(1).with_context(|| "Crashing with value 1");
    r.unwrap();
}

#[test]
fn peel_original_variant_has_no_context() {
    for v in [MyError::Error1, MyError::Error2, MyError::Error3] {
        let (ctx, rest) = ContextError::Base(v.clone()).unwrap_context();
        assert_eq!(ctx, None);
        assert_eq!(rest, ContextError::Base(v));
    }
}

#[test]
fn attach_then_peel_round_trip() {
    let r: Result<(), ContextError<MyError>> = callme(2).with_context(|| String::from("reading a.txt"));
    let (ctx, rest) = r.unwrap_err().unwrap_context();
    assert_eq!(ctx, Some(String::from("reading a.txt")));
    assert_eq!(rest, ContextError::Base(MyError::Error2));
}

#[test]
fn success_never_evaluates_context() {
    let calls = Cell::new(0u32);
    let r: Result<i32, ContextError<MyError>> = Ok::<i32, MyError>(7).with_context(|| {
        calls.set(calls.get() + 1);
        "never built"
    });
    assert_eq!(r, Ok(7));
    assert_eq!(calls.get(), 0);
    let e: Result<i32, ContextError<MyError>> = Err::<i32, MyError>(MyError::Error3).with_context(|| {
        calls.set(calls.get() + 1);
        "built once"
    });
    assert!(e.is_err());
    assert_eq!(calls.get(), 1);
}

#[test]
fn nested_context_peels_in_two_layers() {
    let once: Result<(), ContextError<MyError>> = callme(1).with_context(|| "first");
    let twice: Result<(), ContextError<MyError>> = once.with_context(|| "second");
    let (outer, inner) = twice.unwrap_err().unwrap_context();
    assert_eq!(outer, Some(String::from("second")));
    assert_eq!(
        inner,
        ContextError::WithContext(String::from("first"), Box::new(ContextError::Base(MyError::Error1)))
    );
    let (first, original) = inner.unwrap_context();
    assert_eq!(first, Some(String::from("first")));
    assert_eq!(original, ContextError::Base(MyError::Error1));
    let (none, same) = original.unwrap_context();
    assert_eq!(none, None);
    assert_eq!(same, ContextError::Base(MyError::Error1));
}

#[test]
fn scenario_checked_value_one() {
    assert_eq!(callme(1), Err(MyError::Error1));
    let r: Result<(), ContextError<MyError>> = callme(1).with_context(|| "Crashing with value 1");
    let err = r.unwrap_err();
    assert_eq!(
        err,
        ContextError::WithContext(
            String::from("Crashing with value 1"),
            Box::new(ContextError::Base(MyError::Error1))
        )
    );
    let (ctx, rest) = err.unwrap_context();
    assert_eq!(ctx, Some(String::from("Crashing with value 1")));
    assert_eq!(rest, ContextError::Base(MyError::Error1));
}

#[allow(non_camel_case_types)]
#[derive(Debug, PartialEq)]
enum Generated {
    Plain,
    __WithContext(String, Box<Generated>),
}

impl Generated {
    pub fn unwrap_context(self) -> (Option<String>, Self) {
        match self {
            Self::__WithContext(ctx, err) => (Some(ctx), *err),
            _ => (None, self),
        }
    }
}

impl<E, T, S> AddErrorContext<Generated, T, S> for std::result::Result<T, E>
where
    E: Into<Generated>,
    S: Into<String>,
{
    fn with_context<F: FnOnce() -> S>(self, f: F) -> std::result::Result<T, Generated> {
        self.map_err(|e| Generated::__WithContext(f().into(), Box::new(e.into())))
    }
}

// The text that the generator emits for `Generated`, which is the code above.
const GENERATED_OPERATIONS: &str = "impl Generated {
    pub fn unwrap_context(self) -> (Option<String>, Self) {
        match self {
            Self::__WithContext(ctx, err) => (Some(ctx), *err),
            _ => (None, self),
        }
    }
}
impl<E, T, S> AddErrorContext<Generated, T, S> for std::result::Result<T, E>
where
    E: Into<Generated>,
    S: Into<String>,
{
    fn with_context<F: FnOnce() -> S>(self, f: F) -> std::result::Result<T, Generated> {
        self.map_err(|e| Generated::__WithContext(f().into(), Box::new(e.into())))
    }
}
";

#[test]
fn generated_text_is_the_tested_code() {
    assert_eq!(render_operations("Generated"), GENERATED_OPERATIONS);
}

#[test]
fn generated_code_is_lazy_and_nests() {
    let ok: Result<u8, Generated> = Ok::<u8, Generated>(5).with_context(|| -> &'static str { panic!() });
    assert_eq!(ok, Ok(5));
    let once: Result<u8, Generated> = Err::<u8, Generated>(Generated::Plain).with_context(|| "c1");
    let twice: Result<u8, Generated> = once.with_context(|| String::from("c2"));
    let (outer, inner) = twice.unwrap_err().unwrap_context();
    assert_eq!(outer, Some(String::from("c2")));
    assert_eq!(inner, Generated::__WithContext(String::from("c1"), Box::new(Generated::Plain)));
    let (first, original) = inner.unwrap_context();
    assert_eq!(first, Some(String::from("c1")));
    assert_eq!(original, Generated::Plain);
}

#[test]
fn generated_operations_fit_the_trait() {
    let r: Result<(), Generated> = Err::<(), Generated>(Generated::Plain).with_context(|| "ctx");
    let (ctx, rest) = r.unwrap_err().unwrap_context();
    assert_eq!(ctx, Some(String::from("ctx")));
    assert_eq!(rest, Generated::Plain);
    assert_eq!(Generated::Plain.unwrap_context(), (None, Generated::Plain));
}
