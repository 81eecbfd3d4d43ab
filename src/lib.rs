//! Attach a string context to the values of an error enum without changing
//! the enum's identity.
//!
//! [`context`] holds the runtime side: an error enum augmented with one extra
//! variant that carries a context string and the boxed original error, the
//! operation that peels that context off again, and the extension trait that
//! attaches context to a failed `Result` lazily.
//!
//! [`expand`] holds the code generator: it reads an enum definition and an
//! optional message template, appends the context variant and emits the two
//! operations for that enum as Rust source text.
pub mod context;
pub mod expand;
pub mod model;

pub use context::{AddErrorContext, ContextError, ContextText, IntoContextError};
pub use expand::{
    context_template, context_variant, expand_enum, expand_parsed, has_context_variant,
    inject_context_variant, interpret_attribute, render_enum, render_operations, string_context,
};
pub use model::{EnumDef, ExpandError, VariantDef};
