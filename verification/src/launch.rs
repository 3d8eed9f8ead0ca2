//! The two launch paths. The bootstrapper runs once at process start and
//! deposits a found markdown argument into the pending-file slot, before
//! any UI listener exists. The launch arbiter decides what a second
//! launch attempt does: it scans the new process's arguments for a
//! markdown path to notify the running UI with, and the slot is left
//! untouched. In both paths the surrounding shell performs the side
//! effects (notification emission, window restore and focus), each
//! best-effort and never fatal.

use vstd::prelude::*;
use crate::classify::is_markdown;
use crate::scan::{find_md_arg, first_md_at, no_md_arg};
use crate::slot::{slot_after_deposit, PendingFileSlot};

verus! {

/// The bootstrapper: scan the process's own arguments and, when one
/// names a markdown file, deposit the first such argument into the slot;
/// otherwise leave the slot as it was.
pub fn bootstrap(slot: &mut PendingFileSlot, args: &[String])
    ensures
        no_md_arg(args.deep_view()) ==> final(slot)@ == old(slot)@,
        !no_md_arg(args.deep_view()) ==> exists|i: int|
            first_md_at(args.deep_view(), i) && final(slot)@ == slot_after_deposit(
                old(slot)@,
                args.deep_view()[i],
            ),
{
    if let Some(path) = find_md_arg(args) {
        proof {
            let i = choose|i: int|
                first_md_at(args.deep_view(), i) && path@ == args.deep_view()[i];
            assert(is_markdown(args.deep_view()[i]));
            assert(!no_md_arg(args.deep_view()));
        }
        slot.deposit(path);
    }
}

/// The launch arbiter's decision for a second launch attempt: the
/// payload of the file-open notification to emit to the running UI, or
/// `None` when the new arguments name no markdown file. The pending-file
/// slot plays no part here, and the shell's attempt to restore and focus
/// the main window is made unconditionally, whatever is returned.
pub fn relaunch_notice(args: &[String]) -> (r: Option<String>)
    ensures
        match r {
            Some(p) => exists|i: int|
                first_md_at(args.deep_view(), i) && p@ == args.deep_view()[i],
            None => no_md_arg(args.deep_view()),
        },
{
    find_md_arg(args)
}

} // verus!
