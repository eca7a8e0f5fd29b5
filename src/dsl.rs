//! `PathDSL`, a path buffer that is extended with `/`.
//!
//! Its model is the encoded bytes of the path it holds. Each conversion
//! states its result in its own `ensures`; the `FromSpecImpl` beside it
//! defers to that.
use crate::buf::{
    appended, boxed_bytes, buf_bytes, buf_from_boxed, buf_from_string, buf_is_empty, clone_buf,
    counted_bytes, counted_from_buf, new_buf, path_bytes, path_order, path_to_buf, paths_compared,
    paths_equal, push_buf, same_path, shared_bytes, shared_from_buf,
};
use std::borrow::Cow;
use std::path::{Path, PathBuf};
use vstd::prelude::*;
use vstd::string::StringSliceAdditionalSpecFns;
use vstd::utf8::encode_utf8;

verus! {

/// The encoded bytes of the path that a `Cow` holds, borrowed or owned.
pub open spec fn cow_bytes(c: Cow<'_, Path>) -> Seq<u8> {
    match c {
        Cow::Borrowed(p) => path_bytes(p),
        Cow::Owned(b) => buf_bytes(b),
    }
}

/// A buffer holding what the `Cow` holds, taking an owned buffer over.
pub(crate) fn cow_buf(c: Cow<'_, Path>) -> (r: PathBuf)
    ensures
        buf_bytes(r) == cow_bytes(c),
{
    match c {
        Cow::Borrowed(p) => path_to_buf(p),
        Cow::Owned(b) => b,
    }
}

/// A buffer holding the UTF-8 bytes of `s`.
pub(crate) fn str_buf(s: &str) -> (r: PathBuf)
    ensures
        buf_bytes(r) == s.spec_bytes(),
{
    buf_from_string(s.to_owned())
}

/// A path buffer wrapper that behaves like `PathBuf` and is extended with
/// the `/` operator.
#[derive(Debug, Hash, PartialOrd, Ord)]
pub struct PathDSL {
    path: PathBuf,
}

impl View for PathDSL {
    type V = Seq<u8>;

    /// The encoded bytes of the path held.
    closed spec fn view(&self) -> Seq<u8> {
        buf_bytes(self.path)
    }
}

impl PathDSL {
    /// The buffer itself, as a value: two paths with the same buffer share
    /// its storage, not only its bytes.
    pub closed spec fn buffer(&self) -> PathBuf {
        self.path
    }

    /// Creates a `PathDSL` holding the empty path.
    pub fn new() -> (r: PathDSL)
        ensures
            r@ == Seq::<u8>::empty(),
    {
        PathDSL { path: new_buf() }
    }

    /// Converts into a boxed `Path`, without copying the buffer.
    pub fn into_boxed_path(self) -> (r: Box<Path>)
        ensures
            boxed_bytes(r) == self@,
    {
        self.path.into_boxed_path()
    }

    /// Gives up the wrapper and returns the underlying buffer.
    pub fn into_pathbuf(self) -> (r: PathBuf)
        ensures
            buf_bytes(r) == self@,
            r == self.buffer(),
    {
        self.path
    }

    /// Borrows the underlying buffer.
    pub(crate) fn buf(&self) -> (r: &PathBuf)
        ensures
            buf_bytes(*r) == self@,
    {
        &self.path
    }

    /// Wraps a buffer, keeping its storage.
    pub(crate) fn from_buf(path: PathBuf) -> (r: PathDSL)
        ensures
            r@ == buf_bytes(path),
            r.buffer() == path,
    {
        PathDSL { path }
    }

    /// Pushes the segment held by `seg` onto this path.
    pub(crate) fn pushed_with(self, seg: &PathBuf) -> (r: PathDSL)
        ensures
            r@ == appended(self@, buf_bytes(*seg)),
    {
        let mut path = self.path;
        push_buf(&mut path, seg);
        PathDSL { path }
    }

    /// Appends an owned segment. An empty path is replaced by the segment's
    /// own buffer, which is what pushing would leave, without a copy.
    pub(crate) fn adopting(self, seg: PathBuf) -> (r: PathDSL)
        ensures
            r@ == appended(self@, buf_bytes(seg)),
            self@.len() == 0 ==> r.buffer() == seg,
    {
        if buf_is_empty(&self.path) {
            PathDSL { path: seg }
        } else {
            self.pushed_with(&seg)
        }
    }
}

impl PartialEq for PathDSL {
    /// Compares the paths held, as `PathBuf` does.
    fn eq(&self, other: &PathDSL) -> (r: bool)
        ensures
            r == same_path(self@, other@),
            self@ == other@ ==> r,
    {
        paths_equal(self.path.as_path(), other.path.as_path())
    }
}

impl vstd::std_specs::cmp::PartialEqSpecImpl for PathDSL {
    open spec fn obeys_eq_spec() -> bool {
        true
    }

    open spec fn eq_spec(&self, other: &PathDSL) -> bool {
        same_path(self@, other@)
    }
}

impl PartialEq<PathBuf> for PathDSL {
    /// Compares the path held with a plain buffer, as `PathBuf` does.
    fn eq(&self, other: &PathBuf) -> (r: bool)
        ensures
            r == same_path(self@, buf_bytes(*other)),
            self@ == buf_bytes(*other) ==> r,
    {
        paths_equal(self.path.as_path(), other.as_path())
    }
}

impl vstd::std_specs::cmp::PartialEqSpecImpl<PathBuf> for PathDSL {
    open spec fn obeys_eq_spec() -> bool {
        true
    }

    open spec fn eq_spec(&self, other: &PathBuf) -> bool {
        same_path(self@, buf_bytes(*other))
    }
}

impl PartialOrd<PathBuf> for PathDSL {
    /// Orders the path held against a plain buffer, as `PathBuf` does.
    fn partial_cmp(&self, other: &PathBuf) -> (r: Option<std::cmp::Ordering>)
        ensures
            r == path_order(self@, buf_bytes(*other)),
            r is Some,
            self@ == buf_bytes(*other) ==> r == Some(std::cmp::Ordering::Equal),
    {
        paths_compared(self.path.as_path(), other.as_path())
    }
}

impl vstd::std_specs::cmp::PartialOrdSpecImpl<PathBuf> for PathDSL {
    open spec fn obeys_partial_cmp_spec() -> bool {
        true
    }

    open spec fn partial_cmp_spec(&self, other: &PathBuf) -> Option<std::cmp::Ordering> {
        path_order(self@, buf_bytes(*other))
    }
}

impl PartialEq<Path> for PathDSL {
    /// Compares the path held with a borrowed path, as `Path` does.
    fn eq(&self, other: &Path) -> (r: bool)
        ensures
            r == same_path(self@, path_bytes(other)),
            self@ == path_bytes(other) ==> r,
    {
        paths_equal(self.path.as_path(), other)
    }
}

impl vstd::std_specs::cmp::PartialEqSpecImpl<Path> for PathDSL {
    open spec fn obeys_eq_spec() -> bool {
        true
    }

    open spec fn eq_spec(&self, other: &Path) -> bool {
        same_path(self@, path_bytes(other))
    }
}

impl PartialOrd<Path> for PathDSL {
    /// Orders the path held against a borrowed path, as `Path` does.
    fn partial_cmp(&self, other: &Path) -> (r: Option<std::cmp::Ordering>)
        ensures
            r == path_order(self@, path_bytes(other)),
            r is Some,
            self@ == path_bytes(other) ==> r == Some(std::cmp::Ordering::Equal),
    {
        paths_compared(self.path.as_path(), other)
    }
}

impl vstd::std_specs::cmp::PartialOrdSpecImpl<Path> for PathDSL {
    open spec fn obeys_partial_cmp_spec() -> bool {
        true
    }

    open spec fn partial_cmp_spec(&self, other: &Path) -> Option<std::cmp::Ordering> {
        path_order(self@, path_bytes(other))
    }
}

impl Eq for PathDSL {
}

impl Clone for PathDSL {
    /// A copy holding the same path.
    fn clone(&self) -> (r: PathDSL)
        ensures
            r@ == self@,
    {
        PathDSL { path: clone_buf(&self.path) }
    }
}

impl Default for PathDSL {
    /// The empty path.
    fn default() -> (r: PathDSL)
        ensures
            r@ == Seq::<u8>::empty(),
    {
        PathDSL::new()
    }
}

impl std::ops::Deref for PathDSL {
    type Target = PathBuf;

    /// Borrows the underlying buffer.
    fn deref(&self) -> (r: &PathBuf)
        ensures
            buf_bytes(*r) == self@,
    {
        &self.path
    }
}

impl AsRef<Path> for PathDSL {
    /// Borrows the path held.
    fn as_ref(&self) -> (r: &Path)
        ensures
            path_bytes(r) == self@,
    {
        self.path.as_path()
    }
}

impl From<PathBuf> for PathDSL {
    /// Wraps the buffer without copying it.
    fn from(other: PathBuf) -> (r: PathDSL)
        ensures
            r@ == buf_bytes(other),
            r.buffer() == other,
    {
        PathDSL::from_buf(other)
    }
}

impl vstd::std_specs::convert::FromSpecImpl<PathBuf> for PathDSL {
    open spec fn obeys_from_spec() -> bool {
        false
    }

    open spec fn from_spec(v: PathBuf) -> PathDSL {
        arbitrary()
    }
}

impl From<String> for PathDSL {
    /// Takes over the string's storage as the path.
    fn from(other: String) -> (r: PathDSL)
        ensures
            r@ == encode_utf8(other@),
    {
        PathDSL::from_buf(buf_from_string(other))
    }
}

impl vstd::std_specs::convert::FromSpecImpl<String> for PathDSL {
    open spec fn obeys_from_spec() -> bool {
        false
    }

    open spec fn from_spec(v: String) -> PathDSL {
        arbitrary()
    }
}

impl<'a> From<&'a str> for PathDSL {
    /// Copies the string into a new path.
    fn from(other: &'a str) -> (r: PathDSL)
        ensures
            r@ == other.spec_bytes(),
    {
        PathDSL::from_buf(str_buf(other))
    }
}

impl<'a> vstd::std_specs::convert::FromSpecImpl<&'a str> for PathDSL {
    open spec fn obeys_from_spec() -> bool {
        false
    }

    open spec fn from_spec(v: &'a str) -> PathDSL {
        arbitrary()
    }
}

impl<'a> From<&'a PathBuf> for PathDSL {
    /// Copies the buffer into a new path.
    fn from(other: &'a PathBuf) -> (r: PathDSL)
        ensures
            r@ == buf_bytes(*other),
    {
        PathDSL::from_buf(clone_buf(other))
    }
}

impl<'a> vstd::std_specs::convert::FromSpecImpl<&'a PathBuf> for PathDSL {
    open spec fn obeys_from_spec() -> bool {
        false
    }

    open spec fn from_spec(v: &'a PathBuf) -> PathDSL {
        arbitrary()
    }
}

impl<'a> From<&'a Path> for PathDSL {
    /// Copies the borrowed path into a new one.
    fn from(other: &'a Path) -> (r: PathDSL)
        ensures
            r@ == path_bytes(other),
    {
        PathDSL::from_buf(path_to_buf(other))
    }
}

impl<'a> vstd::std_specs::convert::FromSpecImpl<&'a Path> for PathDSL {
    open spec fn obeys_from_spec() -> bool {
        false
    }

    open spec fn from_spec(v: &'a Path) -> PathDSL {
        arbitrary()
    }
}

impl<'a> From<&'a String> for PathDSL {
    /// Copies the string into a new path.
    fn from(other: &'a String) -> (r: PathDSL)
        ensures
            r@ == encode_utf8(other@),
    {
        PathDSL::from_buf(str_buf(other.as_str()))
    }
}

impl<'a> vstd::std_specs::convert::FromSpecImpl<&'a String> for PathDSL {
    open spec fn obeys_from_spec() -> bool {
        false
    }

    open spec fn from_spec(v: &'a String) -> PathDSL {
        arbitrary()
    }
}

impl<'a> From<&'a PathDSL> for PathDSL {
    /// Copies the path into a new one.
    fn from(other: &'a PathDSL) -> (r: PathDSL)
        ensures
            r@ == other@,
    {
        other.clone()
    }
}

impl<'a> vstd::std_specs::convert::FromSpecImpl<&'a PathDSL> for PathDSL {
    open spec fn obeys_from_spec() -> bool {
        false
    }

    open spec fn from_spec(v: &'a PathDSL) -> PathDSL {
        arbitrary()
    }
}

impl From<PathDSL> for PathBuf {
    /// Unwraps the underlying buffer.
    fn from(other: PathDSL) -> (r: PathBuf)
        ensures
            buf_bytes(r) == other@,
            r == other.buffer(),
    {
        other.into_pathbuf()
    }
}

impl vstd::std_specs::convert::FromSpecImpl<PathDSL> for PathBuf {
    open spec fn obeys_from_spec() -> bool {
        false
    }

    open spec fn from_spec(v: PathDSL) -> PathBuf {
        arbitrary()
    }
}

impl From<PathDSL> for Box<Path> {
    /// Moves the path into a boxed `Path`.
    fn from(other: PathDSL) -> (r: Box<Path>)
        ensures
            boxed_bytes(r) == other@,
    {
        other.into_boxed_path()
    }
}

impl vstd::std_specs::convert::FromSpecImpl<PathDSL> for Box<Path> {
    open spec fn obeys_from_spec() -> bool {
        false
    }

    open spec fn from_spec(v: PathDSL) -> Box<Path> {
        arbitrary()
    }
}

impl std::ops::DerefMut for PathDSL {
    /// Borrows the underlying buffer for changing it in place.
    fn deref_mut(&mut self) -> (r: &mut PathBuf)
        ensures
            buf_bytes(*r) == old(self)@,
            final(self)@ == buf_bytes(*final(r)),
    {
        &mut self.path
    }
}

impl AsMut<PathBuf> for PathDSL {
    /// Borrows the underlying buffer for changing it in place.
    fn as_mut(&mut self) -> (r: &mut PathBuf)
        ensures
            buf_bytes(*r) == old(self)@,
            final(self)@ == buf_bytes(*final(r)),
    {
        &mut self.path
    }
}

impl std::borrow::Borrow<Path> for PathDSL {
    /// Borrows the path held.
    fn borrow(&self) -> (r: &Path)
        ensures
            path_bytes(r) == self@,
    {
        self.path.as_path()
    }
}

impl std::str::FromStr for PathDSL {
    type Err = std::convert::Infallible;

    /// Parses a path from text; this never fails.
    fn from_str(s: &str) -> (r: Result<PathDSL, std::convert::Infallible>)
        ensures
            r is Ok && r->Ok_0@ == s.spec_bytes(),
    {
        Ok(PathDSL::from_buf(str_buf(s)))
    }
}

impl From<Box<Path>> for PathDSL {
    /// Takes the box's storage over as the path.
    fn from(other: Box<Path>) -> (r: PathDSL)
        ensures
            r@ == boxed_bytes(other),
    {
        PathDSL::from_buf(buf_from_boxed(other))
    }
}

impl vstd::std_specs::convert::FromSpecImpl<Box<Path>> for PathDSL {
    open spec fn obeys_from_spec() -> bool {
        false
    }

    open spec fn from_spec(v: Box<Path>) -> PathDSL {
        arbitrary()
    }
}

impl<'a> From<Cow<'a, Path>> for PathDSL {
    /// Takes an owned buffer over, or copies a borrowed path.
    fn from(other: Cow<'a, Path>) -> (r: PathDSL)
        ensures
            r@ == cow_bytes(other),
    {
        PathDSL::from_buf(cow_buf(other))
    }
}

impl<'a> vstd::std_specs::convert::FromSpecImpl<Cow<'a, Path>> for PathDSL {
    open spec fn obeys_from_spec() -> bool {
        false
    }

    open spec fn from_spec(v: Cow<'a, Path>) -> PathDSL {
        arbitrary()
    }
}

impl<'a> From<PathDSL> for Cow<'a, Path> {
    /// Hands the buffer over as an owned `Cow`.
    fn from(other: PathDSL) -> (r: Cow<'a, Path>)
        ensures
            r == Cow::<'a, Path>::Owned(other.buffer()),
    {
        Cow::Owned(other.into_pathbuf())
    }
}

impl<'a> vstd::std_specs::convert::FromSpecImpl<PathDSL> for Cow<'a, Path> {
    open spec fn obeys_from_spec() -> bool {
        false
    }

    open spec fn from_spec(v: PathDSL) -> Cow<'a, Path> {
        arbitrary()
    }
}

impl<'a> From<&'a PathDSL> for Cow<'a, Path> {
    /// Borrows the path held.
    fn from(other: &'a PathDSL) -> (r: Cow<'a, Path>)
        ensures
            cow_bytes(r) == other@,
            r is Borrowed,
    {
        Cow::Borrowed(other.path.as_path())
    }
}

impl<'a> vstd::std_specs::convert::FromSpecImpl<&'a PathDSL> for Cow<'a, Path> {
    open spec fn obeys_from_spec() -> bool {
        false
    }

    open spec fn from_spec(v: &'a PathDSL) -> Cow<'a, Path> {
        arbitrary()
    }
}

impl<'a> From<&'a mut String> for PathDSL {
    /// Copies the mutably borrowed segment into a new path, leaving it as it
    /// was.
    fn from(other: &'a mut String) -> (r: PathDSL)
        ensures
            r@ == encode_utf8(old(other)@),
            *final(other) == *old(other),
    {
        PathDSL::from_buf(str_buf(other.as_str()))
    }
}

impl<'a> vstd::std_specs::convert::FromSpecImpl<&'a mut String> for PathDSL {
    open spec fn obeys_from_spec() -> bool {
        false
    }

    open spec fn from_spec(v: &'a mut String) -> PathDSL {
        arbitrary()
    }
}

impl<'a> From<&'a mut PathBuf> for PathDSL {
    /// Copies the mutably borrowed segment into a new path, leaving it as it
    /// was.
    fn from(other: &'a mut PathBuf) -> (r: PathDSL)
        ensures
            r@ == buf_bytes(*old(other)),
            *final(other) == *old(other),
    {
        PathDSL::from_buf(clone_buf(&*other))
    }
}

impl<'a> vstd::std_specs::convert::FromSpecImpl<&'a mut PathBuf> for PathDSL {
    open spec fn obeys_from_spec() -> bool {
        false
    }

    open spec fn from_spec(v: &'a mut PathBuf) -> PathDSL {
        arbitrary()
    }
}

impl<'a> From<&'a mut PathDSL> for PathDSL {
    /// Copies the mutably borrowed segment into a new path, leaving it as it
    /// was.
    fn from(other: &'a mut PathDSL) -> (r: PathDSL)
        ensures
            r@ == old(other)@,
            *final(other) == *old(other),
    {
        PathDSL::from_buf(clone_buf(other.buf()))
    }
}

impl<'a> vstd::std_specs::convert::FromSpecImpl<&'a mut PathDSL> for PathDSL {
    open spec fn obeys_from_spec() -> bool {
        false
    }

    open spec fn from_spec(v: &'a mut PathDSL) -> PathDSL {
        arbitrary()
    }
}

impl From<PathDSL> for std::sync::Arc<Path> {
    /// Moves the path into a shared `Path`.
    fn from(other: PathDSL) -> (r: std::sync::Arc<Path>)
        ensures
            shared_bytes(r) == other@,
    {
        shared_from_buf(other.into_pathbuf())
    }
}

impl vstd::std_specs::convert::FromSpecImpl<PathDSL> for std::sync::Arc<Path> {
    open spec fn obeys_from_spec() -> bool {
        false
    }

    open spec fn from_spec(v: PathDSL) -> std::sync::Arc<Path> {
        arbitrary()
    }
}

impl From<PathDSL> for std::rc::Rc<Path> {
    /// Moves the path into a reference-counted `Path`.
    fn from(other: PathDSL) -> (r: std::rc::Rc<Path>)
        ensures
            counted_bytes(r) == other@,
    {
        counted_from_buf(other.into_pathbuf())
    }
}

impl vstd::std_specs::convert::FromSpecImpl<PathDSL> for std::rc::Rc<Path> {
    open spec fn obeys_from_spec() -> bool {
        false
    }

    open spec fn from_spec(v: PathDSL) -> std::rc::Rc<Path> {
        arbitrary()
    }
}

} // verus!
