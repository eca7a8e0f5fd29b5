//! The standard path buffer as the rest of the library sees it: an opaque
//! type, a name for the bytes it holds, and one small wrapper per std
//! operation the library performs on it.
use std::path::{Path, PathBuf};
use vstd::prelude::*;
use vstd::utf8::encode_utf8;

verus! {

#[verifier::external_type_specification]
#[verifier::external_body]
pub struct ExPathBuf(std::path::PathBuf);

#[verifier::external_type_specification]
#[verifier::external_body]
pub struct ExPath(std::path::Path);

/// The encoded bytes of the OS string that a path buffer holds.
pub uninterp spec fn buf_bytes(p: PathBuf) -> Seq<u8>;

/// The contents of a buffer holding the non-empty path `base` after `seg`
/// has been pushed onto it with `PathBuf::push`, on the platform the library
/// is built for.
pub uninterp spec fn pushed(base: Seq<u8>, seg: Seq<u8>) -> Seq<u8>;

/// The contents of a buffer holding `base` after `seg` has been pushed onto
/// it: on an empty buffer the segment itself, else as `PathBuf::push` joins
/// the two.
pub open spec fn appended(base: Seq<u8>, seg: Seq<u8>) -> Seq<u8> {
    if base.len() == 0 {
        seg
    } else {
        pushed(base, seg)
    }
}

/// The encoded bytes of the OS string that a borrowed path holds.
pub uninterp spec fn path_bytes(p: &Path) -> Seq<u8>;

/// Whether paths with these contents compare equal under `Path`'s `==`,
/// which compares component by component.
pub uninterp spec fn same_path(a: Seq<u8>, b: Seq<u8>) -> bool;

/// How paths with these contents order under `Path`'s `partial_cmp`, which
/// compares component by component.
pub uninterp spec fn path_order(a: Seq<u8>, b: Seq<u8>) -> Option<std::cmp::Ordering>;

/// Relies on `PathBuf::new`: the new buffer holds the empty path.
#[verifier::external_body]
pub(crate) fn new_buf() -> (r: PathBuf)
    ensures
        buf_bytes(r) == Seq::<u8>::empty(),
{
    PathBuf::new()
}

/// Relies on `From<String> for PathBuf`: the buffer takes over the string's
/// storage, so it holds the string's UTF-8 bytes.
#[verifier::external_body]
pub(crate) fn buf_from_string(s: String) -> (r: PathBuf)
    ensures
        buf_bytes(r) == encode_utf8(s@),
{
    PathBuf::from(s)
}

/// Relies on `PathBuf::push`: what the buffer holds afterwards depends only
/// on what it held before and on the segment pushed; pushed onto an empty
/// buffer, the segment is all the buffer holds (std builds paths from
/// `PathBuf::new()` this way).
#[verifier::external_body]
pub(crate) fn push_buf(p: &mut PathBuf, seg: &PathBuf)
    ensures
        buf_bytes(*old(p)).len() == 0 ==> buf_bytes(*final(p)) == buf_bytes(*seg),
        buf_bytes(*old(p)).len() != 0 ==> buf_bytes(*final(p)) == pushed(
            buf_bytes(*old(p)),
            buf_bytes(*seg),
        ),
{
    p.push(seg)
}

/// Relies on `PathBuf::as_os_str` and `OsStr::is_empty`: true exactly when
/// the buffer holds no bytes.
#[verifier::external_body]
pub(crate) fn buf_is_empty(p: &PathBuf) -> (r: bool)
    ensures
        r == (buf_bytes(*p).len() == 0),
{
    p.as_os_str().is_empty()
}

/// Relies on `Clone for PathBuf`: the copy holds the same bytes.
#[verifier::external_body]
pub(crate) fn clone_buf(p: &PathBuf) -> (r: PathBuf)
    ensures
        buf_bytes(r) == buf_bytes(*p),
{
    p.clone()
}

/// Relies on `PartialEq for Path`. Since `Path` is also `Eq`, two paths
/// with the same contents compare equal.
#[verifier::external_body]
pub(crate) fn paths_equal(a: &Path, b: &Path) -> (r: bool)
    ensures
        r == same_path(path_bytes(a), path_bytes(b)),
        path_bytes(a) == path_bytes(b) ==> r,
{
    a == b
}

/// Relies on `PartialOrd for Path`. Since `Path` is also `Ord`, the result
/// is always `Some`, and `Equal` for paths with the same contents.
#[verifier::external_body]
pub(crate) fn paths_compared(a: &Path, b: &Path) -> (r: Option<std::cmp::Ordering>)
    ensures
        r == path_order(path_bytes(a), path_bytes(b)),
        r is Some,
        path_bytes(a) == path_bytes(b) ==> r == Some(std::cmp::Ordering::Equal),
{
    a.partial_cmp(b)
}

/// Relies on `Path::to_path_buf`: the new buffer holds a copy of the path.
#[verifier::external_body]
pub(crate) fn path_to_buf(p: &Path) -> (r: PathBuf)
    ensures
        buf_bytes(r) == path_bytes(p),
{
    p.to_path_buf()
}

/// The encoded bytes of the OS string that a boxed path holds.
pub uninterp spec fn boxed_bytes(p: Box<Path>) -> Seq<u8>;

/// Relies on `PathBuf::into_boxed_path`, which moves the buffer's contents
/// into a boxed `Path`.
pub assume_specification[ std::path::PathBuf::into_boxed_path ](
    p: std::path::PathBuf,
) -> (r: std::boxed::Box<std::path::Path>)
    ensures
        boxed_bytes(r) == buf_bytes(p),
;

/// Relies on `From<Box<Path>> for PathBuf`, which takes the box's storage
/// over without copying it.
#[verifier::external_body]
pub(crate) fn buf_from_boxed(b: Box<Path>) -> (r: PathBuf)
    ensures
        buf_bytes(r) == boxed_bytes(b),
{
    PathBuf::from(b)
}

/// The encoded bytes of the OS string that a shared path holds.
pub uninterp spec fn shared_bytes(p: std::sync::Arc<Path>) -> Seq<u8>;

/// Relies on `From<PathBuf> for Arc<Path>`: the shared path holds the
/// buffer's bytes.
#[verifier::external_body]
pub(crate) fn shared_from_buf(b: PathBuf) -> (r: std::sync::Arc<Path>)
    ensures
        shared_bytes(r) == buf_bytes(b),
{
    std::sync::Arc::from(b)
}

/// The encoded bytes of the OS string that a reference-counted path holds.
pub uninterp spec fn counted_bytes(p: std::rc::Rc<Path>) -> Seq<u8>;

/// Relies on `From<PathBuf> for Rc<Path>`: the counted path holds the
/// buffer's bytes.
#[verifier::external_body]
pub(crate) fn counted_from_buf(b: PathBuf) -> (r: std::rc::Rc<Path>)
    ensures
        counted_bytes(r) == buf_bytes(b),
{
    std::rc::Rc::from(b)
}

/// Relies on `PathBuf::as_path`, which borrows the buffer as a `Path`
/// holding the same bytes.
pub assume_specification[ std::path::PathBuf::as_path ](p: &std::path::PathBuf) -> (r:
    &std::path::Path)
    ensures
        path_bytes(r) == buf_bytes(*p),
;

} // verus!
