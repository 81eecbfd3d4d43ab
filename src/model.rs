use vstd::prelude::*;

verus! {

/// Why an expansion was refused. No partial output is produced in any case.
#[derive(Debug, Clone, Copy, PartialEq, Eq)]
pub enum ExpandError {
    /// The attribute's argument is neither empty nor exactly one string literal.
    MalformedAttribute,
    /// The annotated item is not an enum definition.
    MalformedItem,
    /// The enum already has a variant under the reserved context variant name.
    NameCollision,
}

/// One variant of an enum definition: its name and its full source text
/// (attributes, name, payload and discriminant), carried through verbatim.
pub struct VariantDef {
    pub name: String,
    pub text: String,
}

pub struct VariantView {
    pub name: Seq<char>,
    pub text: Seq<char>,
}

impl View for VariantDef {
    type V = VariantView;

    open spec fn view(&self) -> VariantView {
        VariantView { name: self.name@, text: self.text@ }
    }
}

/// The structure of an enum definition that the generator reads: the
/// enum's outer attributes, its visibility and name as source text, and its
/// variants in declaration order.
pub struct EnumDef {
    pub attrs: Vec<String>,
    pub vis: String,
    pub name: String,
    pub variants: Vec<VariantDef>,
}

pub struct EnumView {
    pub attrs: Seq<Seq<char>>,
    pub vis: Seq<char>,
    pub name: Seq<char>,
    pub variants: Seq<VariantView>,
}

pub open spec fn strings_view(v: Seq<String>) -> Seq<Seq<char>> {
    v.map_values(|s: String| s@)
}

pub open spec fn variants_view(v: Seq<VariantDef>) -> Seq<VariantView> {
    v.map_values(|d: VariantDef| d@)
}

impl View for EnumDef {
    type V = EnumView;

    open spec fn view(&self) -> EnumView {
        EnumView {
            attrs: strings_view(self.attrs@),
            vis: self.vis@,
            name: self.name@,
            variants: variants_view(self.variants@),
        }
    }
}

/// A `String` result seen through its characters.
pub open spec fn text_result_view(r: Result<String, ExpandError>) -> Result<Seq<char>, ExpandError> {
    match r {
        Ok(s) => Ok(s@),
        Err(e) => Err(e),
    }
}

/// The parsed form of a macro argument seen through its characters: `None`
/// when it did not parse, `Some(None)` when it held no tokens, and
/// `Some(Some(v))` when it was one string literal whose value is `v`.
pub open spec fn literal_arg_view(a: Option<Option<String>>) -> Option<Option<Seq<char>>> {
    match a {
        None => None,
        Some(None) => Some(None),
        Some(Some(s)) => Some(Some(s@)),
    }
}

pub open spec fn enum_def_view(d: Option<EnumDef>) -> Option<EnumView> {
    match d {
        None => None,
        Some(d) => Some(d@),
    }
}

/// The concatenation of `parts`, each followed by `term`.
pub open spec fn terminated(parts: Seq<Seq<char>>, term: Seq<char>) -> Seq<char>
    decreases parts.len(),
{
    if parts.len() == 0 {
        Seq::empty()
    } else {
        terminated(parts.drop_last(), term) + parts.last() + term
    }
}

/// Appends each of `parts` to `out`, each followed by `term`.
pub fn append_terminated(out: &mut String, parts: &Vec<String>, term: &str)
    ensures
        final(out)@ == old(out)@ + terminated(strings_view(parts@), term@),
{
    let ghost start = out@;
    let mut i: usize = 0;
    while i < parts.len()
        invariant
            0 <= i <= parts.len(),
            out@ == start + terminated(strings_view(parts@).take(i as int), term@),
        decreases parts.len() - i,
    {
        let ghost all = strings_view(parts@);
        assert(all.take(i as int + 1).drop_last() =~= all.take(i as int));
        out.append(parts[i].as_str());
        out.append(term);
        i = i + 1;
        assert(out@ =~= start + terminated(all.take(i as int), term@));
    }
    assert(strings_view(parts@).take(i as int) =~= strings_view(parts@));
}

} // verus!
