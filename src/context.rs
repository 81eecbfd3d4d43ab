use vstd::prelude::*;

verus! {

/// An error enum `E` augmented with one extra variant that wraps a previous
/// error of the augmented enum together with a context string.
///
/// `Base` carries one of the original variants unchanged; `WithContext`
/// exclusively owns its context message and the boxed inner error, so that
/// context layers form a chain of arbitrary depth.
#[derive(Debug, PartialEq, Eq)]
pub enum ContextError<E> {
    Base(E),
    WithContext(String, Box<ContextError<E>>),
}

/// What peeling one context layer off `e` yields: the context message if
/// `e` is a context layer, and the error beneath it; otherwise no message
/// and `e` itself.
pub open spec fn peel_spec<E>(e: ContextError<E>) -> (Option<Seq<char>>, ContextError<E>) {
    match e {
        ContextError::WithContext(ctx, inner) => (Some(ctx@), *inner),
        ContextError::Base(_) => (None, e),
    }
}

/// Whether `e` is one context layer with message `ctx` over the error `inner`.
pub open spec fn attached<E>(e: ContextError<E>, ctx: Seq<char>, inner: ContextError<E>) -> bool {
    e matches ContextError::WithContext(c, b) && c@ == ctx && *b == inner
}

/// The context message of a peeled pair, as a sequence of characters.
pub open spec fn context_view(c: Option<String>) -> Option<Seq<char>> {
    match c {
        Some(s) => Some(s@),
        None => None,
    }
}

/// The number of context layers above the original error.
pub open spec fn depth<E>(e: ContextError<E>) -> nat
    decreases e,
{
    match e {
        ContextError::WithContext(_, inner) => 1 + depth(*inner),
        ContextError::Base(_) => 0,
    }
}

impl<E> ContextError<E> {
    /// Peels one context layer off: `(Some(context), inner)` for a context
    /// layer, the inner error moving out of its box; `(None, self)` for any
    /// original variant.
    pub fn unwrap_context(self) -> (r: (Option<String>, Self))
        ensures
            (context_view(r.0), r.1) == peel_spec(self),
    {
        match self {
            ContextError::WithContext(ctx, inner) => (Some(ctx), *inner),
            ContextError::Base(e) => (None, ContextError::Base(e)),
        }
    }
}

/// A value that can stand as a context message.
pub trait ContextText: Sized {
    spec fn text_view(&self) -> Seq<char>;

    fn into_text(self) -> (r: String)
        ensures
            r@ == self.text_view(),
    ;
}

impl ContextText for String {
    open spec fn text_view(&self) -> Seq<char> {
        self@
    }

    fn into_text(self) -> (r: String) {
        self
    }
}

impl<'a> ContextText for &'a str {
    open spec fn text_view(&self) -> Seq<char> {
        (*self)@
    }

    fn into_text(self) -> (r: String) {
        String::from_str(self)
    }
}

/// An error that converts into the augmented enum `ContextError<E>`: an
/// original error becomes its `Base` variant, an augmented one stays as it is.
pub trait IntoContextError<E>: Sized {
    spec fn lift_spec(self) -> ContextError<E>;

    fn into_context_error(self) -> (r: ContextError<E>)
        ensures
            r == self.lift_spec(),
    ;
}

impl<E> IntoContextError<E> for E {
    open spec fn lift_spec(self) -> ContextError<E> {
        ContextError::Base(self)
    }

    fn into_context_error(self) -> (r: ContextError<E>) {
        ContextError::Base(self)
    }
}

impl<E> IntoContextError<E> for ContextError<E> {
    open spec fn lift_spec(self) -> ContextError<E> {
        self
    }

    fn into_context_error(self) -> (r: ContextError<E>) {
        self
    }
}

/// Attaches a context message to the error of a `Result`.
///
/// The message is produced by `f`, which is called only when the result is
/// an error: a caller may hand over a closure that cannot be called at all
/// when the result is a success.
pub trait AddErrorContext<E, T, S>: Sized {
    /// Whether `f` may be called: by default always; for a `Result` only
    /// when it is an error.
    open spec fn needs_context(&self) -> bool {
        true
    }

    fn with_context<F: FnOnce() -> S>(self, f: F) -> Result<T, E>
        requires
            self.needs_context() ==> f.requires(()),
    ;
}

impl<T, E, X: IntoContextError<E>, S: ContextText> AddErrorContext<ContextError<E>, T, S> for Result<T, X> {
    open spec fn needs_context(&self) -> bool {
        self is Err
    }

    fn with_context<F: FnOnce() -> S>(self, f: F) -> (r: Result<T, ContextError<E>>)
        ensures
            self is Ok ==> r == Ok::<T, ContextError<E>>(self->Ok_0),
            self is Err ==> exists|s: S|
                #![trigger f.ensures((), s)]
                f.ensures((), s) && r is Err && attached(r->Err_0, s.text_view(), self->Err_0.lift_spec()),
    {
        match self {
            Ok(v) => Ok(v),
            Err(x) => {
                let s = f();
                let ctx = s.into_text();
                Err(ContextError::WithContext(ctx, Box::new(x.into_context_error())))
            },
        }
    }
}

/// Peeling an original variant that never had context attached yields no
/// message and the variant itself.
pub proof fn lemma_peel_original<E>(v: E)
    ensures
        peel_spec(ContextError::Base(v)) == (None::<Seq<char>>, ContextError::Base(v)),
{
}

/// Peeling an original error `e` to which context `c` was attached yields
/// `c` and `e` again.
pub proof fn lemma_peel_attached<E>(e: E, c: Seq<char>, wrapped: ContextError<E>)
    requires
        attached(wrapped, c, e.lift_spec()),
    ensures
        peel_spec(wrapped) == (Some(c), ContextError::Base(e)),
        depth(wrapped) == 1,
{
    reveal_with_fuel(depth, 2);
}

/// Attaching context `c1` and then `c2` to an original error `e` gives two
/// layers: peeling once yields `c2` and the once-wrapped error, which peels
/// to `c1` and `e`.
pub proof fn lemma_peel_nested<E>(
    e: E,
    c1: Seq<char>,
    c2: Seq<char>,
    once: ContextError<E>,
    twice: ContextError<E>,
)
    requires
        attached(once, c1, e.lift_spec()),
        attached(twice, c2, once.lift_spec()),
    ensures
        peel_spec(twice) == (Some(c2), once),
        peel_spec(peel_spec(twice).1) == (Some(c1), ContextError::Base(e)),
        depth(twice) == 2,
{
    reveal_with_fuel(depth, 3);
}

} // verus!
