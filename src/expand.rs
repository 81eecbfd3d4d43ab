use vstd::prelude::*;
use quote::ToTokens;
use syn::ext::IdentExt;
use crate::model::{
    append_terminated, enum_def_view, literal_arg_view, strings_view, terminated,
    text_result_view, variants_view, EnumDef, EnumView, ExpandError, VariantDef, VariantView,
};

verus! {

/// What the macro argument `text` parses to: `None` when it is not exactly
/// zero or one string literal, `Some(None)` when it holds no tokens, and
/// `Some(Some(v))` when it is one string literal whose value is `v`.
pub uninterp spec fn attr_literal_of(text: Seq<char>) -> Option<Option<Seq<char>>>;

/// The structure of the enum definition in `text`, or `None` when `text`
/// is not one enum item. Attributes, visibility and variants are the text
/// that proc-macro2's own (fallback) printer gives for their tokens; a
/// variant's name is its identifier without any `r#` prefix.
pub uninterp spec fn enum_of(text: Seq<char>) -> Option<EnumView>;

/// The source text of a string literal whose value is `s`, as proc-macro2's
/// own (fallback) implementation writes it.
pub uninterp spec fn literal_of(s: Seq<char>) -> Seq<char>;

/// Relies on `syn::parse_str::<Option<syn::LitStr>>`, which accepts an empty
/// token stream or exactly one string literal, and on `syn::LitStr::value`
/// for the literal's value.
#[verifier::external_body]
fn parse_attribute_tokens(text: &str) -> (r: Option<Option<String>>)
    ensures
        literal_arg_view(r) == attr_literal_of(text@),
        text@.len() == 0 ==> r == Some(None::<String>),
{
    syn::parse_str::<Option<syn::LitStr>>(text).ok().map(|lit| lit.map(|l| l.value()))
}

/// Relies on `syn::parse_str::<syn::ItemEnum>` to parse one enum item, on
/// `quote::ToTokens` to turn its attributes, visibility and variants back
/// into source text, and on `syn::ext::IdentExt::unraw` for variant names.
/// `proc_macro2::fallback::force` is called first, so that the tokens are
/// always printed by proc-macro2's own printer and never by the compiler's,
/// which spaces tokens differently.
#[verifier::external_body]
fn parse_enum_item(text: &str) -> (r: Option<EnumDef>)
    ensures
        enum_def_view(r) == enum_of(text@),
{
    proc_macro2::fallback::force();
    let item = syn::parse_str::<syn::ItemEnum>(text).ok()?;
    let attrs = item.attrs.iter().map(|a| a.to_token_stream().to_string()).collect();
    let variants = item.variants.iter().map(|v| VariantDef {
        name: v.ident.unraw().to_string(),
        text: v.to_token_stream().to_string(),
    }).collect();
    let vis = item.vis.to_token_stream().to_string();
    Some(EnumDef { attrs, vis, name: item.ident.to_string(), variants })
}

/// Relies on `proc_macro2::Literal::string` for the source text of a string
/// literal holding `s`. `proc_macro2::fallback::force` is called first, so
/// that the literal is always escaped by proc-macro2's own implementation.
#[verifier::external_body]
fn string_literal(s: &str) -> (r: String)
    ensures
        r@ == literal_of(s@),
{
    proc_macro2::fallback::force();
    proc_macro2::Literal::string(s).to_string()
}

/// The name of the synthesized context variant.
pub open spec fn reserved_name() -> Seq<char> {
    "__WithContext"@
}

/// The template used when the attribute has no argument: the context
/// message alone.
pub open spec fn default_template() -> Seq<char> {
    "{0}"@
}

/// The message template that a parsed attribute argument selects.
pub open spec fn template_spec(parsed: Option<Option<Seq<char>>>) -> Result<Seq<char>, ExpandError> {
    match parsed {
        None => Err(ExpandError::MalformedAttribute),
        Some(None) => Ok(default_template()),
        Some(Some(t)) => Ok(t),
    }
}

/// Whether one of `vs` is named `name`.
pub open spec fn has_variant(vs: Seq<VariantView>, name: Seq<char>) -> bool {
    exists|i: int| 0 <= i < vs.len() && (#[trigger] vs[i]).name == name
}

/// The synthesized variant for enum `enum_name`, displayed through the
/// string literal `literal`: it holds the context message and the boxed
/// previous error, which is its source.
pub open spec fn context_variant_spec(enum_name: Seq<char>, literal: Seq<char>) -> VariantView {
    VariantView {
        name: reserved_name(),
        text: "#[error("@ + literal + ")] __WithContext(String, #[source] Box<"@ + enum_name + ">)"@,
    }
}

/// `def` with the context variant appended after all its variants, unless
/// the reserved name is taken.
pub open spec fn inject_spec(def: EnumView, literal: Seq<char>) -> Result<EnumView, ExpandError> {
    if has_variant(def.variants, reserved_name()) {
        Err(ExpandError::NameCollision)
    } else {
        Ok(
            EnumView {
                attrs: def.attrs,
                vis: def.vis,
                name: def.name,
                variants: def.variants.push(context_variant_spec(def.name, literal)),
            },
        )
    }
}

pub open spec fn enum_result_view(r: Result<EnumDef, ExpandError>) -> Result<EnumView, ExpandError> {
    match r {
        Ok(d) => Ok(d@),
        Err(e) => Err(e),
    }
}

pub open spec fn variant_texts(vs: Seq<VariantView>) -> Seq<Seq<char>> {
    vs.map_values(|v: VariantView| v.text)
}

/// The source text of the enum definition `def`: its attributes, one per
/// line, then the definition with one variant per line.
pub open spec fn render_enum_spec(def: EnumView) -> Seq<char> {
    terminated(def.attrs, "\n"@) + def.vis + " enum "@ + def.name + " {\n"@ + terminated(
        variant_texts(def.variants),
        ",\n"@,
    ) + "}\n"@
}

/// The source text of the two operations generated for enum `n`: the
/// inherent `unwrap_context` and the `AddErrorContext` impl for every
/// `Result` whose error converts into `n`.
pub open spec fn render_operations_spec(n: Seq<char>) -> Seq<char> {
    "impl "@ + n
        + " {\n    pub fn unwrap_context(self) -> (Option<String>, Self) {\n        match self {\n            Self::__WithContext(ctx, err) => (Some(ctx), *err),\n            _ => (None, self),\n        }\n    }\n}\nimpl<E, T, S> AddErrorContext<"@
        + n + ", T, S> for std::result::Result<T, E>\nwhere\n    E: Into<"@ + n
        + ">,\n    S: Into<String>,\n{\n    fn with_context<F: FnOnce() -> S>(self, f: F) -> std::result::Result<T, "@
        + n + "> {\n        self.map_err(|e| "@ + n
        + "::__WithContext(f().into(), Box::new(e.into())))\n    }\n}\n"@
}

/// The whole expansion of `def` under the template literal `literal`.
pub open spec fn expand_enum_spec(def: EnumView, literal: Seq<char>) -> Result<Seq<char>, ExpandError> {
    match inject_spec(def, literal) {
        Err(e) => Err(e),
        Ok(d) => Ok(render_enum_spec(d) + render_operations_spec(d.name)),
    }
}

/// The expansion for a parsed attribute argument and a parsed item.
pub open spec fn expand_parsed_spec(attr: Option<Option<Seq<char>>>, item: Option<EnumView>) -> Result<Seq<char>, ExpandError> {
    match template_spec(attr) {
        Err(e) => Err(e),
        Ok(t) => match item {
            None => Err(ExpandError::MalformedItem),
            Some(d) => expand_enum_spec(d, literal_of(t)),
        },
    }
}

/// Chooses the message template from a parsed attribute argument: the
/// default template when there was none, the literal's value when there was
/// one, and `MalformedAttribute` when the argument did not parse.
pub fn context_template(parsed: Option<Option<String>>) -> (r: Result<String, ExpandError>)
    ensures
        text_result_view(r) == template_spec(literal_arg_view(parsed)),
{
    match parsed {
        None => Err(ExpandError::MalformedAttribute),
        Some(None) => Ok(String::from_str("{0}")),
        Some(Some(t)) => Ok(t),
    }
}

/// Reads the message template from the attribute's argument text.
pub fn interpret_attribute(attr: &str) -> (r: Result<String, ExpandError>)
    ensures
        text_result_view(r) == template_spec(attr_literal_of(attr@)),
        attr@.len() == 0 ==> text_result_view(r) == Ok::<Seq<char>, ExpandError>(default_template()),
{
    context_template(parse_attribute_tokens(attr))
}

/// Whether one of `variants` already has the reserved context variant name.
pub fn has_context_variant(variants: &Vec<VariantDef>) -> (r: bool)
    ensures
        r == has_variant(variants_view(variants@), reserved_name()),
{
    let reserved = String::from_str("__WithContext");
    let mut i: usize = 0;
    while i < variants.len()
        invariant
            0 <= i <= variants.len(),
            reserved@ == reserved_name(),
            forall|j: int| 0 <= j < i ==> (#[trigger] variants@[j])@.name != reserved_name(),
        decreases variants.len() - i,
    {
        if variants[i].name == reserved {
            assert(variants_view(variants@)[i as int].name == reserved_name());
            return true;
        }
        i = i + 1;
    }
    assert forall|j: int| 0 <= j < variants_view(variants@).len() implies (
    #[trigger] variants_view(variants@)[j]).name != reserved_name() by {
        assert(variants@[j]@.name != reserved_name());
    }
    false
}

/// Builds the context variant for enum `enum_name`, whose display
/// annotation is the string literal `literal`.
pub fn context_variant(enum_name: &str, literal: &str) -> (r: VariantDef)
    ensures
        r@ == context_variant_spec(enum_name@, literal@),
{
    let mut text = String::from_str("#[error(");
    text.append(literal);
    text.append(")] __WithContext(String, #[source] Box<");
    text.append(enum_name);
    text.append(">)");
    VariantDef { name: String::from_str("__WithContext"), text }
}

/// Appends the context variant, displayed through the string literal
/// `literal`, after every existing variant of `def`; everything else is
/// carried through unchanged. Refused with `NameCollision` when the
/// reserved name is taken.
pub fn inject_context_variant(def: EnumDef, literal: &str) -> (r: Result<EnumDef, ExpandError>)
    ensures
        enum_result_view(r) == inject_spec(def@, literal@),
{
    if has_context_variant(&def.variants) {
        return Err(ExpandError::NameCollision);
    }
    let EnumDef { attrs, vis, name, variants } = def;
    let mut variants = variants;
    let extra = context_variant(name.as_str(), literal);
    let ghost before = variants@;
    variants.push(extra);
    let out = EnumDef { attrs, vis, name, variants };
    assert(variants_view(out.variants@) =~= variants_view(before).push(extra@));
    assert(out@ == inject_spec(def@, literal@)->Ok_0);
    Ok(out)
}

/// Appends the text of each of `variants`, each followed by `term`.
fn append_variant_texts(out: &mut String, variants: &Vec<VariantDef>, term: &str)
    ensures
        final(out)@ == old(out)@ + terminated(variant_texts(variants_view(variants@)), term@),
{
    let ghost start = out@;
    let ghost all = variant_texts(variants_view(variants@));
    let mut i: usize = 0;
    while i < variants.len()
        invariant
            0 <= i <= variants.len(),
            all == variant_texts(variants_view(variants@)),
            out@ == start + terminated(all.take(i as int), term@),
        decreases variants.len() - i,
    {
        assert(all.take(i as int + 1).drop_last() =~= all.take(i as int));
        out.append(variants[i].text.as_str());
        out.append(term);
        i = i + 1;
        assert(out@ =~= start + terminated(all.take(i as int), term@));
    }
    assert(all.take(i as int) =~= all);
}

/// Renders the enum definition `def` as source text.
pub fn render_enum(def: &EnumDef) -> (r: String)
    ensures
        r@ == render_enum_spec(def@),
{
    let mut out = String::new();
    append_terminated(&mut out, &def.attrs, "\n");
    out.append(def.vis.as_str());
    out.append(" enum ");
    out.append(def.name.as_str());
    out.append(" {\n");
    append_variant_texts(&mut out, &def.variants, ",\n");
    out.append("}\n");
    assert(out@ =~= render_enum_spec(def@));
    out
}

/// Renders the two operations generated for the enum named `n`.
pub fn render_operations(n: &str) -> (r: String)
    ensures
        r@ == render_operations_spec(n@),
{
    let mut out = String::from_str("impl ");
    out.append(n);
    out.append(
        " {\n    pub fn unwrap_context(self) -> (Option<String>, Self) {\n        match self {\n            Self::__WithContext(ctx, err) => (Some(ctx), *err),\n            _ => (None, self),\n        }\n    }\n}\nimpl<E, T, S> AddErrorContext<",
    );
    out.append(n);
    out.append(", T, S> for std::result::Result<T, E>\nwhere\n    E: Into<");
    out.append(n);
    out.append(
        ">,\n    S: Into<String>,\n{\n    fn with_context<F: FnOnce() -> S>(self, f: F) -> std::result::Result<T, ",
    );
    out.append(n);
    out.append("> {\n        self.map_err(|e| ");
    out.append(n);
    out.append("::__WithContext(f().into(), Box::new(e.into())))\n    }\n}\n");
    out
}

/// The full expansion of `def` when its context variant is displayed
/// through the string literal `literal`: the augmented enum followed by the
/// two generated operations.
pub fn expand_enum(def: EnumDef, literal: &str) -> (r: Result<String, ExpandError>)
    ensures
        text_result_view(r) == expand_enum_spec(def@, literal@),
{
    match inject_context_variant(def, literal) {
        Err(e) => Err(e),
        Ok(d) => {
            let mut out = render_enum(&d);
            let ops = render_operations(d.name.as_str());
            out.append(ops.as_str());
            Ok(out)
        },
    }
}

/// The expansion for an attribute argument and an item that were already
/// parsed: the attribute decides the template, the item must be an enum.
pub fn expand_parsed(attr: Option<Option<String>>, item: Option<EnumDef>) -> (r: Result<String, ExpandError>)
    ensures
        text_result_view(r) == expand_parsed_spec(literal_arg_view(attr), enum_def_view(item)),
{
    let template = match context_template(attr) {
        Err(e) => {
            return Err(e);
        },
        Ok(t) => t,
    };
    match item {
        None => Err(ExpandError::MalformedItem),
        Some(d) => {
            let literal = string_literal(template.as_str());
            expand_enum(d, literal.as_str())
        },
    }
}

/// Expands the attribute with argument text `attr` on the item with source
/// text `item`: the enum gains the context variant, and `unwrap_context`
/// and the `AddErrorContext` impl are emitted for it.
pub fn string_context(attr: &str, item: &str) -> (r: Result<String, ExpandError>)
    ensures
        text_result_view(r) == expand_parsed_spec(attr_literal_of(attr@), enum_of(item@)),
        attr@.len() == 0 ==> text_result_view(r) == expand_parsed_spec(
            Some(None::<Seq<char>>),
            enum_of(item@),
        ),
{
    let parsed_attr = parse_attribute_tokens(attr);
    if parsed_attr.is_none() {
        return Err(ExpandError::MalformedAttribute);
    }
    expand_parsed(parsed_attr, parse_enum_item(item))
}

} // verus!
