//! The path classifier: a string names a markdown file exactly when its
//! lowercase form ends with `.md` or `.markdown`. Classification is purely
//! syntactic: no trimming, no path normalization, no file-system access.

use vstd::prelude::*;

verus! {

/// The first recognized extension, already lowercase.
pub open spec fn md_suffix() -> Seq<char> {
    ".md"@
}

/// The second recognized extension, already lowercase.
pub open spec fn markdown_suffix() -> Seq<char> {
    ".markdown"@
}

/// `s` ends with `suffix`.
pub open spec fn seq_ends_with(s: Seq<char>, suffix: Seq<char>) -> bool {
    &&& suffix.len() <= s.len()
    &&& s.subrange(s.len() - suffix.len(), s.len() as int) == suffix
}

/// The lowercase folding of a character sequence, as `str::to_lowercase`
/// computes it. Its value is fixed by the characters alone; nothing more
/// is assumed of it here.
pub uninterp spec fn lower_of(s: Seq<char>) -> Seq<char>;

/// A string names a markdown file: its lowercase form ends with one of
/// the recognized extensions.
pub open spec fn is_markdown(s: Seq<char>) -> bool {
    ||| seq_ends_with(lower_of(s), md_suffix())
    ||| seq_ends_with(lower_of(s), markdown_suffix())
}

/// Relies on `str::to_lowercase`: the returned string is the lowercase
/// folding of the input, a function of the input's characters alone.
#[verifier::external_body]
fn lowercase(s: &str) -> (r: String)
    ensures
        r@ == lower_of(s@),
{
    s.to_lowercase()
}

/// Whether `s` ends with `suffix`, compared character by character.
pub fn str_ends_with(s: &str, suffix: &str) -> (r: bool)
    ensures
        r == seq_ends_with(s@, suffix@),
{
    let n: usize = s.unicode_len();
    let m: usize = suffix.unicode_len();
    if m > n {
        return false;
    }
    let mut i: usize = 0;
    while i < m
        invariant
            m <= n,
            n == s@.len(),
            m == suffix@.len(),
            i <= m,
            forall|j: int| 0 <= j < i ==> s@[n - m + j] == suffix@[j],
        decreases m - i,
    {
        let cs: char = s.get_char(n - m + i);
        let cf: char = suffix.get_char(i);
        if cs != cf {
            proof {
                assert(s@.subrange(s@.len() - suffix@.len(), s@.len() as int)[i as int]
                    == s@[n - m + i]);
            }
            return false;
        }
        i += 1;
    }
    proof {
        assert(s@.subrange(s@.len() - suffix@.len(), s@.len() as int) =~= suffix@);
    }
    true
}

/// Whether an already-lowercase string carries one of the recognized
/// markdown extensions.
pub fn has_md_suffix(s: &str) -> (r: bool)
    ensures
        r == (seq_ends_with(s@, md_suffix()) || seq_ends_with(s@, markdown_suffix())),
{
    str_ends_with(s, ".md") || str_ends_with(s, ".markdown")
}

/// The path classifier: true exactly when the lowercase form of `path`
/// ends with `.md` or `.markdown`.
pub fn is_markdown_file(path: &str) -> (r: bool)
    ensures
        r == is_markdown(path@),
{
    let lower = lowercase(path);
    has_md_suffix(lower.as_str())
}

} // verus!
