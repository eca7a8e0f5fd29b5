//! What a chain of `/` applications builds, stated over path contents.
use crate::buf::appended;
use vstd::prelude::*;

verus! {

/// The contents of a buffer holding `base` after each of `segs` has been
/// pushed onto it, first to last.
pub open spec fn appended_all(base: Seq<u8>, segs: Seq<Seq<u8>>) -> Seq<u8>
    decreases segs.len(),
{
    if segs.len() == 0 {
        base
    } else {
        appended_all(appended(base, segs[0]), segs.drop_first())
    }
}

/// A chain started with `CopylessDSL` holds its first segment as it is and
/// appends the others; that is what pushing every segment onto a new, empty
/// `PathBuf` leaves.
pub proof fn chain_matches_pushes(segs: Seq<Seq<u8>>)
    requires
        segs.len() > 0,
    ensures
        appended_all(segs[0], segs.drop_first()) == appended_all(Seq::<u8>::empty(), segs),
{
}

/// Appending the segments of `first` and then those of `rest` to a path
/// builds the same path as appending all of them in one chain; so a path
/// that was built by one chain and is moved into another continues it.
pub proof fn chain_split(base: Seq<u8>, first: Seq<Seq<u8>>, rest: Seq<Seq<u8>>)
    ensures
        appended_all(appended_all(base, first), rest) == appended_all(base, first + rest),
    decreases first.len(),
{
    if first.len() > 0 {
        assert((first + rest).drop_first() =~= first.drop_first() + rest);
        chain_split(appended(base, first[0]), first.drop_first(), rest);
    } else {
        assert(first + rest =~= rest);
    }
}

} // verus!
