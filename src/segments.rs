//! Splitting a path into its segments.
use vstd::prelude::*;

verus! {

/// `regex::Error`, what `regex::Regex::new` returns for a pattern that does
/// not compile; carried as an opaque value.
#[verifier::external_type_specification]
#[verifier::external_body]
pub struct ExRegexError(regex::Error);

/// The pieces, in order, that `regex`'s `split` cuts `text` into at the
/// matches of the regular expression `pattern`.
pub uninterp spec fn regex_split(pattern: Seq<char>, text: Seq<char>) -> Seq<Seq<char>>;

/// Whether `regex::Regex::new` compiles `pattern` with the default
/// settings.
pub uninterp spec fn regex_compiles(pattern: Seq<char>) -> bool;

/// The regular expression that separates segments: `//` or `/`.
pub const DELIMITERS: &'static str = "(//|/)";

/// The texts of a sequence of slices.
pub open spec fn pieces_view(v: Seq<&str>) -> Seq<Seq<char>> {
    v.map_values(|p: &str| p@)
}

/// `pieces` without its empty elements, the others kept in order.
pub open spec fn non_empty(pieces: Seq<Seq<char>>) -> Seq<Seq<char>> {
    pieces.filter(|p: Seq<char>| p.len() > 0)
}

/// Relies on `regex::Regex::new` to compile `pattern`, and on
/// `regex::Regex::split` for the parts of `text` that lie between its
/// matches, in order. Whether compiling succeeds depends on the pattern
/// alone.
#[verifier::external_body]
pub(crate) fn split_by_pattern<'a>(pattern: &str, text: &'a str) -> (r: Result<Vec<&'a str>, regex::Error>)
    ensures
        r is Ok <==> regex_compiles(pattern@),
        r is Ok ==> pieces_view(r->Ok_0@) == regex_split(pattern@, text@),
{
    let re = regex::Regex::new(pattern)?;
    Ok(re.split(text).collect())
}

/// `pieces` without its empty slices, the others kept in order.
pub fn drop_empty<'a>(pieces: Vec<&'a str>) -> (r: Vec<&'a str>)
    ensures
        pieces_view(r@) == non_empty(pieces_view(pieces@)),
{
    let mut out: Vec<&'a str> = Vec::new();
    let mut i: usize = 0;
    while i < pieces.len()
        invariant
            i <= pieces@.len(),
            pieces_view(out@) == non_empty(pieces_view(pieces@.subrange(0, i as int))),
        decreases pieces@.len() - i,
    {
        let p: &'a str = pieces[i];
        let ghost before = pieces_view(pieces@.subrange(0, i as int));
        let ghost after = pieces_view(pieces@.subrange(0, i + 1));
        proof {
            assert(after.drop_last() =~= before);
            assert(after.last() == p@);
            reveal(Seq::filter);
        }
        if !p.is_empty() {
            out.push(p);
            assert(pieces_view(out@) =~= non_empty(before).push(p@));
        }
        i = i + 1;
    }
    assert(pieces@.subrange(0, pieces@.len() as int) =~= pieces@);
    out
}

} // verus!
