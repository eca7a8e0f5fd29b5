//! `CopylessDSL`, the empty start of a `/` chain. Dividing it by a segment
//! yields a `PathDSL` holding exactly that segment; an owned segment's
//! buffer is taken over rather than copied.
//!
//! As for `PathDSL`, each operator and conversion states its result in its
//! own `ensures`, and its `DivSpecImpl` or `FromSpecImpl` defers to that.
use crate::buf::{
    boxed_bytes, buf_bytes, buf_from_boxed, buf_from_string, clone_buf, new_buf, path_bytes,
    path_to_buf,
};
use crate::dsl::{cow_buf, cow_bytes, str_buf, PathDSL};
use std::borrow::Cow;
use std::ops::Div;
use std::path::{Path, PathBuf};
use vstd::prelude::*;
use vstd::string::StringSliceAdditionalSpecFns;
use vstd::utf8::encode_utf8;

verus! {

/// The start of a chain of `/` applications, holding nothing yet.
pub struct CopylessDSL;

impl View for CopylessDSL {
    type V = Seq<u8>;

    /// A chain's start holds the empty path.
    open spec fn view(&self) -> Seq<u8> {
        Seq::empty()
    }
}

impl CopylessDSL {
    /// Creates the start of a chain.
    pub fn new() -> (r: CopylessDSL)
        ensures
            r@ == Seq::<u8>::empty(),
    {
        CopylessDSL
    }
}

impl Default for CopylessDSL {
    /// The start of a chain.
    fn default() -> (r: CopylessDSL)
        ensures
            r@ == Seq::<u8>::empty(),
    {
        CopylessDSL
    }
}

impl From<CopylessDSL> for PathDSL {
    /// A chain with no segment is the empty path.
    fn from(other: CopylessDSL) -> (r: PathDSL)
        ensures
            r@ == Seq::<u8>::empty(),
    {
        PathDSL::new()
    }
}

impl vstd::std_specs::convert::FromSpecImpl<CopylessDSL> for PathDSL {
    open spec fn obeys_from_spec() -> bool {
        false
    }

    open spec fn from_spec(v: CopylessDSL) -> PathDSL {
        arbitrary()
    }
}

impl From<CopylessDSL> for PathBuf {
    /// A chain with no segment is the empty path.
    fn from(other: CopylessDSL) -> (r: PathBuf)
        ensures
            buf_bytes(r) == Seq::<u8>::empty(),
    {
        new_buf()
    }
}

impl vstd::std_specs::convert::FromSpecImpl<CopylessDSL> for PathBuf {
    open spec fn obeys_from_spec() -> bool {
        false
    }

    open spec fn from_spec(v: CopylessDSL) -> PathBuf {
        arbitrary()
    }
}

impl Div<PathDSL> for CopylessDSL {
    type Output = PathDSL;

    /// Takes the path over as it is.
    fn div(self, rhs: PathDSL) -> (r: PathDSL)
        ensures
            r@ == rhs@,
            r == rhs,
    {
        rhs
    }
}

impl vstd::std_specs::ops::DivSpecImpl<PathDSL> for CopylessDSL {
    open spec fn obeys_div_spec() -> bool {
        false
    }

    open spec fn div_req(self, rhs: PathDSL) -> bool {
        true
    }

    open spec fn div_spec(self, rhs: PathDSL) -> PathDSL {
        arbitrary()
    }
}

impl Div<PathBuf> for CopylessDSL {
    type Output = PathDSL;

    /// Takes the buffer over without copying it.
    fn div(self, rhs: PathBuf) -> (r: PathDSL)
        ensures
            r@ == buf_bytes(rhs),
            r.buffer() == rhs,
    {
        PathDSL::from_buf(rhs)
    }
}

impl vstd::std_specs::ops::DivSpecImpl<PathBuf> for CopylessDSL {
    open spec fn obeys_div_spec() -> bool {
        false
    }

    open spec fn div_req(self, rhs: PathBuf) -> bool {
        true
    }

    open spec fn div_spec(self, rhs: PathBuf) -> PathDSL {
        arbitrary()
    }
}

impl Div<String> for CopylessDSL {
    type Output = PathDSL;

    /// Takes the string's storage over without copying it.
    fn div(self, rhs: String) -> (r: PathDSL)
        ensures
            r@ == encode_utf8(rhs@),
    {
        PathDSL::from_buf(buf_from_string(rhs))
    }
}

impl vstd::std_specs::ops::DivSpecImpl<String> for CopylessDSL {
    open spec fn obeys_div_spec() -> bool {
        false
    }

    open spec fn div_req(self, rhs: String) -> bool {
        true
    }

    open spec fn div_spec(self, rhs: String) -> PathDSL {
        arbitrary()
    }
}

impl Div<Box<Path>> for CopylessDSL {
    type Output = PathDSL;

    /// Takes the box's storage over without copying it.
    fn div(self, rhs: Box<Path>) -> (r: PathDSL)
        ensures
            r@ == boxed_bytes(rhs),
    {
        PathDSL::from_buf(buf_from_boxed(rhs))
    }
}

impl vstd::std_specs::ops::DivSpecImpl<Box<Path>> for CopylessDSL {
    open spec fn obeys_div_spec() -> bool {
        false
    }

    open spec fn div_req(self, rhs: Box<Path>) -> bool {
        true
    }

    open spec fn div_spec(self, rhs: Box<Path>) -> PathDSL {
        arbitrary()
    }
}

impl<'a> Div<Cow<'a, Path>> for CopylessDSL {
    type Output = PathDSL;

    /// Takes an owned buffer over, or copies a borrowed path.
    fn div(self, rhs: Cow<'a, Path>) -> (r: PathDSL)
        ensures
            r@ == cow_bytes(rhs),
    {
        PathDSL::from_buf(cow_buf(rhs))
    }
}

impl<'a> vstd::std_specs::ops::DivSpecImpl<Cow<'a, Path>> for CopylessDSL {
    open spec fn obeys_div_spec() -> bool {
        false
    }

    open spec fn div_req(self, rhs: Cow<'a, Path>) -> bool {
        true
    }

    open spec fn div_spec(self, rhs: Cow<'a, Path>) -> PathDSL {
        arbitrary()
    }
}

impl<'a> Div<&'a str> for CopylessDSL {
    type Output = PathDSL;

    /// Copies the borrowed segment into a new path.
    fn div(self, rhs: &'a str) -> (r: PathDSL)
        ensures
            r@ == rhs.spec_bytes(),
    {
        PathDSL::from_buf(str_buf(rhs))
    }
}

impl<'a> vstd::std_specs::ops::DivSpecImpl<&'a str> for CopylessDSL {
    open spec fn obeys_div_spec() -> bool {
        false
    }

    open spec fn div_req(self, rhs: &'a str) -> bool {
        true
    }

    open spec fn div_spec(self, rhs: &'a str) -> PathDSL {
        arbitrary()
    }
}

impl<'a> Div<&'a String> for CopylessDSL {
    type Output = PathDSL;

    /// Copies the borrowed segment into a new path.
    fn div(self, rhs: &'a String) -> (r: PathDSL)
        ensures
            r@ == encode_utf8(rhs@),
    {
        PathDSL::from_buf(str_buf(rhs.as_str()))
    }
}

impl<'a> vstd::std_specs::ops::DivSpecImpl<&'a String> for CopylessDSL {
    open spec fn obeys_div_spec() -> bool {
        false
    }

    open spec fn div_req(self, rhs: &'a String) -> bool {
        true
    }

    open spec fn div_spec(self, rhs: &'a String) -> PathDSL {
        arbitrary()
    }
}

impl<'a> Div<&'a Path> for CopylessDSL {
    type Output = PathDSL;

    /// Copies the borrowed segment into a new path.
    fn div(self, rhs: &'a Path) -> (r: PathDSL)
        ensures
            r@ == path_bytes(rhs),
    {
        PathDSL::from_buf(path_to_buf(rhs))
    }
}

impl<'a> vstd::std_specs::ops::DivSpecImpl<&'a Path> for CopylessDSL {
    open spec fn obeys_div_spec() -> bool {
        false
    }

    open spec fn div_req(self, rhs: &'a Path) -> bool {
        true
    }

    open spec fn div_spec(self, rhs: &'a Path) -> PathDSL {
        arbitrary()
    }
}

impl<'a> Div<&'a PathBuf> for CopylessDSL {
    type Output = PathDSL;

    /// Copies the borrowed segment into a new path.
    fn div(self, rhs: &'a PathBuf) -> (r: PathDSL)
        ensures
            r@ == buf_bytes(*rhs),
    {
        PathDSL::from_buf(clone_buf(rhs))
    }
}

impl<'a> vstd::std_specs::ops::DivSpecImpl<&'a PathBuf> for CopylessDSL {
    open spec fn obeys_div_spec() -> bool {
        false
    }

    open spec fn div_req(self, rhs: &'a PathBuf) -> bool {
        true
    }

    open spec fn div_spec(self, rhs: &'a PathBuf) -> PathDSL {
        arbitrary()
    }
}

impl<'a> Div<&'a PathDSL> for CopylessDSL {
    type Output = PathDSL;

    /// Copies the borrowed segment into a new path.
    fn div(self, rhs: &'a PathDSL) -> (r: PathDSL)
        ensures
            r@ == rhs@,
    {
        rhs.clone()
    }
}

impl<'a> vstd::std_specs::ops::DivSpecImpl<&'a PathDSL> for CopylessDSL {
    open spec fn obeys_div_spec() -> bool {
        false
    }

    open spec fn div_req(self, rhs: &'a PathDSL) -> bool {
        true
    }

    open spec fn div_spec(self, rhs: &'a PathDSL) -> PathDSL {
        arbitrary()
    }
}

impl<'a> Div<&'a mut String> for CopylessDSL {
    type Output = PathDSL;

    /// Copies the borrowed segment into a new path.
    fn div(self, rhs: &'a mut String) -> (r: PathDSL)
        ensures
            r@ == encode_utf8(old(rhs)@),
            *final(rhs) == *old(rhs),
    {
        PathDSL::from_buf(str_buf(rhs.as_str()))
    }
}

impl<'a> vstd::std_specs::ops::DivSpecImpl<&'a mut String> for CopylessDSL {
    open spec fn obeys_div_spec() -> bool {
        false
    }

    open spec fn div_req(self, rhs: &'a mut String) -> bool {
        true
    }

    open spec fn div_spec(self, rhs: &'a mut String) -> PathDSL {
        arbitrary()
    }
}

impl<'a> Div<&'a mut PathBuf> for CopylessDSL {
    type Output = PathDSL;

    /// Copies the borrowed segment into a new path.
    fn div(self, rhs: &'a mut PathBuf) -> (r: PathDSL)
        ensures
            r@ == buf_bytes(*old(rhs)),
            *final(rhs) == *old(rhs),
    {
        PathDSL::from_buf(clone_buf(&*rhs))
    }
}

impl<'a> vstd::std_specs::ops::DivSpecImpl<&'a mut PathBuf> for CopylessDSL {
    open spec fn obeys_div_spec() -> bool {
        false
    }

    open spec fn div_req(self, rhs: &'a mut PathBuf) -> bool {
        true
    }

    open spec fn div_spec(self, rhs: &'a mut PathBuf) -> PathDSL {
        arbitrary()
    }
}

impl<'a> Div<&'a mut PathDSL> for CopylessDSL {
    type Output = PathDSL;

    /// Copies the borrowed segment into a new path.
    fn div(self, rhs: &'a mut PathDSL) -> (r: PathDSL)
        ensures
            r@ == old(rhs)@,
            *final(rhs) == *old(rhs),
    {
        PathDSL::from_buf(clone_buf(rhs.buf()))
    }
}

impl<'a> vstd::std_specs::ops::DivSpecImpl<&'a mut PathDSL> for CopylessDSL {
    open spec fn obeys_div_spec() -> bool {
        false
    }

    open spec fn div_req(self, rhs: &'a mut PathDSL) -> bool {
        true
    }

    open spec fn div_spec(self, rhs: &'a mut PathDSL) -> PathDSL {
        arbitrary()
    }
}


} // verus!
