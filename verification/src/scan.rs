//! The argument scanner: find the first command-line argument, after the
//! program name at index 0, that names a markdown file.

use vstd::prelude::*;
use vstd::slice::slice_index_get;
use crate::classify::{is_markdown, is_markdown_file};

verus! {

/// No argument at index 1 or later names a markdown file.
pub open spec fn no_md_arg(args: Seq<Seq<char>>) -> bool {
    forall|j: int| 1 <= j < args.len() ==> !is_markdown(args[j])
}

/// Index `i` holds the first argument, at index 1 or later, that names a
/// markdown file.
pub open spec fn first_md_at(args: Seq<Seq<char>>, i: int) -> bool {
    &&& 1 <= i < args.len()
    &&& is_markdown(args[i])
    &&& forall|j: int| 1 <= j < i ==> !is_markdown(args[j])
}

/// The argument scanner: skip the program name at index 0, then return
/// the first remaining argument that names a markdown file, or `None`
/// when no argument does.
pub fn find_md_arg(args: &[String]) -> (r: Option<String>)
    ensures
        match r {
            Some(p) => exists|i: int|
                first_md_at(args.deep_view(), i) && p@ == args.deep_view()[i],
            None => no_md_arg(args.deep_view()),
        },
{
    let n: usize = args.len();
    let mut k: usize = 1;
    while k < n
        invariant
            n == args@.len(),
            1 <= k,
            forall|j: int| 1 <= j < k ==> !is_markdown(args.deep_view()[j]),
        decreases n - k,
    {
        let a: &String = slice_index_get(args, k);
        if is_markdown_file(a.as_str()) {
            proof {
                assert(args.deep_view()[k as int] == args@[k as int]@);
                assert(first_md_at(args.deep_view(), k as int));
            }
            return Some(a.clone());
        }
        proof {
            assert(args.deep_view()[k as int] == args@[k as int]@);
        }
        k += 1;
    }
    None
}

} // verus!
