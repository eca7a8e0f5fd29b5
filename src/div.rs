//! The `/` operator on `PathDSL`: each application appends one segment.
//!
//! What each `div` returns is stated in its own `ensures`; the
//! `DivSpecImpl` beside it only records that no spec function computes the
//! result, since a path buffer cannot be built in spec code.
use crate::buf::{
    appended, boxed_bytes, buf_bytes, buf_from_boxed, buf_from_string, path_bytes, path_to_buf,
};
use crate::dsl::{cow_buf, cow_bytes, str_buf, PathDSL};
use std::borrow::Cow;
use std::ops::Div;
use std::path::{Path, PathBuf};
use vstd::prelude::*;
use vstd::string::StringSliceAdditionalSpecFns;
use vstd::utf8::encode_utf8;

verus! {

impl Div<PathDSL> for PathDSL {
    type Output = PathDSL;

    /// Appends an owned segment; an empty path is replaced by it.
    fn div(self, rhs: PathDSL) -> (r: PathDSL)
        ensures
            r@ == appended(self@, rhs@),
            self@.len() == 0 ==> r.buffer() == rhs.buffer(),
    {
        self.adopting(rhs.into_pathbuf())
    }
}

impl vstd::std_specs::ops::DivSpecImpl<PathDSL> for PathDSL {
    open spec fn obeys_div_spec() -> bool {
        false
    }

    open spec fn div_req(self, rhs: PathDSL) -> bool {
        true
    }

    open spec fn div_spec(self, rhs: PathDSL) -> PathDSL {
        arbitrary()
    }
}

impl Div<PathBuf> for PathDSL {
    type Output = PathDSL;

    /// Appends an owned segment; an empty path is replaced by it.
    fn div(self, rhs: PathBuf) -> (r: PathDSL)
        ensures
            r@ == appended(self@, buf_bytes(rhs)),
            self@.len() == 0 ==> r.buffer() == rhs,
    {
        self.adopting(rhs)
    }
}

impl vstd::std_specs::ops::DivSpecImpl<PathBuf> for PathDSL {
    open spec fn obeys_div_spec() -> bool {
        false
    }

    open spec fn div_req(self, rhs: PathBuf) -> bool {
        true
    }

    open spec fn div_spec(self, rhs: PathBuf) -> PathDSL {
        arbitrary()
    }
}

impl Div<String> for PathDSL {
    type Output = PathDSL;

    /// Appends an owned segment; an empty path is replaced by it.
    fn div(self, rhs: String) -> (r: PathDSL)
        ensures
            r@ == appended(self@, encode_utf8(rhs@)),
    {
        self.adopting(buf_from_string(rhs))
    }
}

impl vstd::std_specs::ops::DivSpecImpl<String> for PathDSL {
    open spec fn obeys_div_spec() -> bool {
        false
    }

    open spec fn div_req(self, rhs: String) -> bool {
        true
    }

    open spec fn div_spec(self, rhs: String) -> PathDSL {
        arbitrary()
    }
}

impl Div<Box<Path>> for PathDSL {
    type Output = PathDSL;

    /// Appends an owned segment; an empty path is replaced by it.
    fn div(self, rhs: Box<Path>) -> (r: PathDSL)
        ensures
            r@ == appended(self@, boxed_bytes(rhs)),
    {
        self.adopting(buf_from_boxed(rhs))
    }
}

impl vstd::std_specs::ops::DivSpecImpl<Box<Path>> for PathDSL {
    open spec fn obeys_div_spec() -> bool {
        false
    }

    open spec fn div_req(self, rhs: Box<Path>) -> bool {
        true
    }

    open spec fn div_spec(self, rhs: Box<Path>) -> PathDSL {
        arbitrary()
    }
}

impl<'a> Div<Cow<'a, Path>> for PathDSL {
    type Output = PathDSL;

    /// Appends an owned segment; an empty path is replaced by it.
    fn div(self, rhs: Cow<'a, Path>) -> (r: PathDSL)
        ensures
            r@ == appended(self@, cow_bytes(rhs)),
    {
        self.adopting(cow_buf(rhs))
    }
}

impl<'a> vstd::std_specs::ops::DivSpecImpl<Cow<'a, Path>> for PathDSL {
    open spec fn obeys_div_spec() -> bool {
        false
    }

    open spec fn div_req(self, rhs: Cow<'a, Path>) -> bool {
        true
    }

    open spec fn div_spec(self, rhs: Cow<'a, Path>) -> PathDSL {
        arbitrary()
    }
}

impl<'a> Div<&'a str> for PathDSL {
    type Output = PathDSL;

    /// Pushes a borrowed segment.
    fn div(self, rhs: &'a str) -> (r: PathDSL)
        ensures
            r@ == appended(self@, rhs.spec_bytes()),
    {
        self.pushed_with(&str_buf(rhs))
    }
}

impl<'a> vstd::std_specs::ops::DivSpecImpl<&'a str> for PathDSL {
    open spec fn obeys_div_spec() -> bool {
        false
    }

    open spec fn div_req(self, rhs: &'a str) -> bool {
        true
    }

    open spec fn div_spec(self, rhs: &'a str) -> PathDSL {
        arbitrary()
    }
}

impl<'a> Div<&'a String> for PathDSL {
    type Output = PathDSL;

    /// Pushes a borrowed segment.
    fn div(self, rhs: &'a String) -> (r: PathDSL)
        ensures
            r@ == appended(self@, encode_utf8(rhs@)),
    {
        self.pushed_with(&str_buf(rhs.as_str()))
    }
}

impl<'a> vstd::std_specs::ops::DivSpecImpl<&'a String> for PathDSL {
    open spec fn obeys_div_spec() -> bool {
        false
    }

    open spec fn div_req(self, rhs: &'a String) -> bool {
        true
    }

    open spec fn div_spec(self, rhs: &'a String) -> PathDSL {
        arbitrary()
    }
}

impl<'a> Div<&'a Path> for PathDSL {
    type Output = PathDSL;

    /// Pushes a borrowed segment.
    fn div(self, rhs: &'a Path) -> (r: PathDSL)
        ensures
            r@ == appended(self@, path_bytes(rhs)),
    {
        self.pushed_with(&path_to_buf(rhs))
    }
}

impl<'a> vstd::std_specs::ops::DivSpecImpl<&'a Path> for PathDSL {
    open spec fn obeys_div_spec() -> bool {
        false
    }

    open spec fn div_req(self, rhs: &'a Path) -> bool {
        true
    }

    open spec fn div_spec(self, rhs: &'a Path) -> PathDSL {
        arbitrary()
    }
}

impl<'a> Div<&'a PathBuf> for PathDSL {
    type Output = PathDSL;

    /// Pushes a borrowed segment.
    fn div(self, rhs: &'a PathBuf) -> (r: PathDSL)
        ensures
            r@ == appended(self@, buf_bytes(*rhs)),
    {
        self.pushed_with(rhs)
    }
}

impl<'a> vstd::std_specs::ops::DivSpecImpl<&'a PathBuf> for PathDSL {
    open spec fn obeys_div_spec() -> bool {
        false
    }

    open spec fn div_req(self, rhs: &'a PathBuf) -> bool {
        true
    }

    open spec fn div_spec(self, rhs: &'a PathBuf) -> PathDSL {
        arbitrary()
    }
}

impl<'a> Div<&'a PathDSL> for PathDSL {
    type Output = PathDSL;

    /// Pushes a borrowed segment.
    fn div(self, rhs: &'a PathDSL) -> (r: PathDSL)
        ensures
            r@ == appended(self@, rhs@),
    {
        self.pushed_with(rhs.buf())
    }
}

impl<'a> vstd::std_specs::ops::DivSpecImpl<&'a PathDSL> for PathDSL {
    open spec fn obeys_div_spec() -> bool {
        false
    }

    open spec fn div_req(self, rhs: &'a PathDSL) -> bool {
        true
    }

    open spec fn div_spec(self, rhs: &'a PathDSL) -> PathDSL {
        arbitrary()
    }
}

impl<'a> Div<&'a mut String> for PathDSL {
    type Output = PathDSL;

    /// Pushes a borrowed segment.
    fn div(self, rhs: &'a mut String) -> (r: PathDSL)
        ensures
            r@ == appended(self@, encode_utf8(old(rhs)@)),
            *final(rhs) == *old(rhs),
    {
        self.pushed_with(&str_buf(rhs.as_str()))
    }
}

impl<'a> vstd::std_specs::ops::DivSpecImpl<&'a mut String> for PathDSL {
    open spec fn obeys_div_spec() -> bool {
        false
    }

    open spec fn div_req(self, rhs: &'a mut String) -> bool {
        true
    }

    open spec fn div_spec(self, rhs: &'a mut String) -> PathDSL {
        arbitrary()
    }
}

impl<'a> Div<&'a mut PathBuf> for PathDSL {
    type Output = PathDSL;

    /// Pushes a borrowed segment.
    fn div(self, rhs: &'a mut PathBuf) -> (r: PathDSL)
        ensures
            r@ == appended(self@, buf_bytes(*old(rhs))),
            *final(rhs) == *old(rhs),
    {
        self.pushed_with(&*rhs)
    }
}

impl<'a> vstd::std_specs::ops::DivSpecImpl<&'a mut PathBuf> for PathDSL {
    open spec fn obeys_div_spec() -> bool {
        false
    }

    open spec fn div_req(self, rhs: &'a mut PathBuf) -> bool {
        true
    }

    open spec fn div_spec(self, rhs: &'a mut PathBuf) -> PathDSL {
        arbitrary()
    }
}

impl<'a> Div<&'a mut PathDSL> for PathDSL {
    type Output = PathDSL;

    /// Pushes a borrowed segment.
    fn div(self, rhs: &'a mut PathDSL) -> (r: PathDSL)
        ensures
            r@ == appended(self@, old(rhs)@),
            *final(rhs) == *old(rhs),
    {
        self.pushed_with(rhs.buf())
    }
}

impl<'a> vstd::std_specs::ops::DivSpecImpl<&'a mut PathDSL> for PathDSL {
    open spec fn obeys_div_spec() -> bool {
        false
    }

    open spec fn div_req(self, rhs: &'a mut PathDSL) -> bool {
        true
    }

    open spec fn div_spec(self, rhs: &'a mut PathDSL) -> PathDSL {
        arbitrary()
    }
}

impl<'b> Div<PathDSL> for &'b PathDSL {
    type Output = PathDSL;

    /// Pushes the segment onto a copy of this path.
    fn div(self, rhs: PathDSL) -> (r: PathDSL)
        ensures
            r@ == appended(self@, rhs@),
    {
        self.clone().pushed_with(&rhs.into_pathbuf())
    }
}

impl<'b> vstd::std_specs::ops::DivSpecImpl<PathDSL> for &'b PathDSL {
    open spec fn obeys_div_spec() -> bool {
        false
    }

    open spec fn div_req(self, rhs: PathDSL) -> bool {
        true
    }

    open spec fn div_spec(self, rhs: PathDSL) -> PathDSL {
        arbitrary()
    }
}

impl<'b> Div<PathBuf> for &'b PathDSL {
    type Output = PathDSL;

    /// Pushes the segment onto a copy of this path.
    fn div(self, rhs: PathBuf) -> (r: PathDSL)
        ensures
            r@ == appended(self@, buf_bytes(rhs)),
    {
        self.clone().pushed_with(&rhs)
    }
}

impl<'b> vstd::std_specs::ops::DivSpecImpl<PathBuf> for &'b PathDSL {
    open spec fn obeys_div_spec() -> bool {
        false
    }

    open spec fn div_req(self, rhs: PathBuf) -> bool {
        true
    }

    open spec fn div_spec(self, rhs: PathBuf) -> PathDSL {
        arbitrary()
    }
}

impl<'b> Div<String> for &'b PathDSL {
    type Output = PathDSL;

    /// Pushes the segment onto a copy of this path.
    fn div(self, rhs: String) -> (r: PathDSL)
        ensures
            r@ == appended(self@, encode_utf8(rhs@)),
    {
        self.clone().pushed_with(&buf_from_string(rhs))
    }
}

impl<'b> vstd::std_specs::ops::DivSpecImpl<String> for &'b PathDSL {
    open spec fn obeys_div_spec() -> bool {
        false
    }

    open spec fn div_req(self, rhs: String) -> bool {
        true
    }

    open spec fn div_spec(self, rhs: String) -> PathDSL {
        arbitrary()
    }
}

impl<'b> Div<Box<Path>> for &'b PathDSL {
    type Output = PathDSL;

    /// Pushes the segment onto a copy of this path.
    fn div(self, rhs: Box<Path>) -> (r: PathDSL)
        ensures
            r@ == appended(self@, boxed_bytes(rhs)),
    {
        self.clone().pushed_with(&buf_from_boxed(rhs))
    }
}

impl<'b> vstd::std_specs::ops::DivSpecImpl<Box<Path>> for &'b PathDSL {
    open spec fn obeys_div_spec() -> bool {
        false
    }

    open spec fn div_req(self, rhs: Box<Path>) -> bool {
        true
    }

    open spec fn div_spec(self, rhs: Box<Path>) -> PathDSL {
        arbitrary()
    }
}

impl<'b, 'a> Div<Cow<'a, Path>> for &'b PathDSL {
    type Output = PathDSL;

    /// Pushes the segment onto a copy of this path.
    fn div(self, rhs: Cow<'a, Path>) -> (r: PathDSL)
        ensures
            r@ == appended(self@, cow_bytes(rhs)),
    {
        self.clone().pushed_with(&cow_buf(rhs))
    }
}

impl<'b, 'a> vstd::std_specs::ops::DivSpecImpl<Cow<'a, Path>> for &'b PathDSL {
    open spec fn obeys_div_spec() -> bool {
        false
    }

    open spec fn div_req(self, rhs: Cow<'a, Path>) -> bool {
        true
    }

    open spec fn div_spec(self, rhs: Cow<'a, Path>) -> PathDSL {
        arbitrary()
    }
}

impl<'b, 'a> Div<&'a str> for &'b PathDSL {
    type Output = PathDSL;

    /// Pushes the segment onto a copy of this path.
    fn div(self, rhs: &'a str) -> (r: PathDSL)
        ensures
            r@ == appended(self@, rhs.spec_bytes()),
    {
        self.clone().pushed_with(&str_buf(rhs))
    }
}

impl<'b, 'a> vstd::std_specs::ops::DivSpecImpl<&'a str> for &'b PathDSL {
    open spec fn obeys_div_spec() -> bool {
        false
    }

    open spec fn div_req(self, rhs: &'a str) -> bool {
        true
    }

    open spec fn div_spec(self, rhs: &'a str) -> PathDSL {
        arbitrary()
    }
}

impl<'b, 'a> Div<&'a String> for &'b PathDSL {
    type Output = PathDSL;

    /// Pushes the segment onto a copy of this path.
    fn div(self, rhs: &'a String) -> (r: PathDSL)
        ensures
            r@ == appended(self@, encode_utf8(rhs@)),
    {
        self.clone().pushed_with(&str_buf(rhs.as_str()))
    }
}

impl<'b, 'a> vstd::std_specs::ops::DivSpecImpl<&'a String> for &'b PathDSL {
    open spec fn obeys_div_spec() -> bool {
        false
    }

    open spec fn div_req(self, rhs: &'a String) -> bool {
        true
    }

    open spec fn div_spec(self, rhs: &'a String) -> PathDSL {
        arbitrary()
    }
}

impl<'b, 'a> Div<&'a Path> for &'b PathDSL {
    type Output = PathDSL;

    /// Pushes the segment onto a copy of this path.
    fn div(self, rhs: &'a Path) -> (r: PathDSL)
        ensures
            r@ == appended(self@, path_bytes(rhs)),
    {
        self.clone().pushed_with(&path_to_buf(rhs))
    }
}

impl<'b, 'a> vstd::std_specs::ops::DivSpecImpl<&'a Path> for &'b PathDSL {
    open spec fn obeys_div_spec() -> bool {
        false
    }

    open spec fn div_req(self, rhs: &'a Path) -> bool {
        true
    }

    open spec fn div_spec(self, rhs: &'a Path) -> PathDSL {
        arbitrary()
    }
}

impl<'b, 'a> Div<&'a PathBuf> for &'b PathDSL {
    type Output = PathDSL;

    /// Pushes the segment onto a copy of this path.
    fn div(self, rhs: &'a PathBuf) -> (r: PathDSL)
        ensures
            r@ == appended(self@, buf_bytes(*rhs)),
    {
        self.clone().pushed_with(rhs)
    }
}

impl<'b, 'a> vstd::std_specs::ops::DivSpecImpl<&'a PathBuf> for &'b PathDSL {
    open spec fn obeys_div_spec() -> bool {
        false
    }

    open spec fn div_req(self, rhs: &'a PathBuf) -> bool {
        true
    }

    open spec fn div_spec(self, rhs: &'a PathBuf) -> PathDSL {
        arbitrary()
    }
}

impl<'b, 'a> Div<&'a PathDSL> for &'b PathDSL {
    type Output = PathDSL;

    /// Pushes the segment onto a copy of this path.
    fn div(self, rhs: &'a PathDSL) -> (r: PathDSL)
        ensures
            r@ == appended(self@, rhs@),
    {
        self.clone().pushed_with(rhs.buf())
    }
}

impl<'b, 'a> vstd::std_specs::ops::DivSpecImpl<&'a PathDSL> for &'b PathDSL {
    open spec fn obeys_div_spec() -> bool {
        false
    }

    open spec fn div_req(self, rhs: &'a PathDSL) -> bool {
        true
    }

    open spec fn div_spec(self, rhs: &'a PathDSL) -> PathDSL {
        arbitrary()
    }
}

impl<'b, 'a> Div<&'a mut String> for &'b PathDSL {
    type Output = PathDSL;

    /// Pushes the segment onto a copy of this path.
    fn div(self, rhs: &'a mut String) -> (r: PathDSL)
        ensures
            r@ == appended(self@, encode_utf8(old(rhs)@)),
            *final(rhs) == *old(rhs),
    {
        self.clone().pushed_with(&str_buf(rhs.as_str()))
    }
}

impl<'b, 'a> vstd::std_specs::ops::DivSpecImpl<&'a mut String> for &'b PathDSL {
    open spec fn obeys_div_spec() -> bool {
        false
    }

    open spec fn div_req(self, rhs: &'a mut String) -> bool {
        true
    }

    open spec fn div_spec(self, rhs: &'a mut String) -> PathDSL {
        arbitrary()
    }
}

impl<'b, 'a> Div<&'a mut PathBuf> for &'b PathDSL {
    type Output = PathDSL;

    /// Pushes the segment onto a copy of this path.
    fn div(self, rhs: &'a mut PathBuf) -> (r: PathDSL)
        ensures
            r@ == appended(self@, buf_bytes(*old(rhs))),
            *final(rhs) == *old(rhs),
    {
        self.clone().pushed_with(&*rhs)
    }
}

impl<'b, 'a> vstd::std_specs::ops::DivSpecImpl<&'a mut PathBuf> for &'b PathDSL {
    open spec fn obeys_div_spec() -> bool {
        false
    }

    open spec fn div_req(self, rhs: &'a mut PathBuf) -> bool {
        true
    }

    open spec fn div_spec(self, rhs: &'a mut PathBuf) -> PathDSL {
        arbitrary()
    }
}

impl<'b, 'a> Div<&'a mut PathDSL> for &'b PathDSL {
    type Output = PathDSL;

    /// Pushes the segment onto a copy of this path.
    fn div(self, rhs: &'a mut PathDSL) -> (r: PathDSL)
        ensures
            r@ == appended(self@, old(rhs)@),
            *final(rhs) == *old(rhs),
    {
        self.clone().pushed_with(rhs.buf())
    }
}

impl<'b, 'a> vstd::std_specs::ops::DivSpecImpl<&'a mut PathDSL> for &'b PathDSL {
    open spec fn obeys_div_spec() -> bool {
        false
    }

    open spec fn div_req(self, rhs: &'a mut PathDSL) -> bool {
        true
    }

    open spec fn div_spec(self, rhs: &'a mut PathDSL) -> PathDSL {
        arbitrary()
    }
}

impl<'b> Div<PathDSL> for &'b mut PathDSL {
    type Output = PathDSL;

    /// Pushes the segment onto a copy of this path.
    fn div(self, rhs: PathDSL) -> (r: PathDSL)
        ensures
            r@ == appended(old(self)@, rhs@),
            final(self)@ == old(self)@,
    {
        self.clone().pushed_with(&rhs.into_pathbuf())
    }
}

impl<'b> vstd::std_specs::ops::DivSpecImpl<PathDSL> for &'b mut PathDSL {
    open spec fn obeys_div_spec() -> bool {
        false
    }

    open spec fn div_req(self, rhs: PathDSL) -> bool {
        true
    }

    open spec fn div_spec(self, rhs: PathDSL) -> PathDSL {
        arbitrary()
    }
}

impl<'b> Div<PathBuf> for &'b mut PathDSL {
    type Output = PathDSL;

    /// Pushes the segment onto a copy of this path.
    fn div(self, rhs: PathBuf) -> (r: PathDSL)
        ensures
            r@ == appended(old(self)@, buf_bytes(rhs)),
            final(self)@ == old(self)@,
    {
        self.clone().pushed_with(&rhs)
    }
}

impl<'b> vstd::std_specs::ops::DivSpecImpl<PathBuf> for &'b mut PathDSL {
    open spec fn obeys_div_spec() -> bool {
        false
    }

    open spec fn div_req(self, rhs: PathBuf) -> bool {
        true
    }

    open spec fn div_spec(self, rhs: PathBuf) -> PathDSL {
        arbitrary()
    }
}

impl<'b> Div<String> for &'b mut PathDSL {
    type Output = PathDSL;

    /// Pushes the segment onto a copy of this path.
    fn div(self, rhs: String) -> (r: PathDSL)
        ensures
            r@ == appended(old(self)@, encode_utf8(rhs@)),
            final(self)@ == old(self)@,
    {
        self.clone().pushed_with(&buf_from_string(rhs))
    }
}

impl<'b> vstd::std_specs::ops::DivSpecImpl<String> for &'b mut PathDSL {
    open spec fn obeys_div_spec() -> bool {
        false
    }

    open spec fn div_req(self, rhs: String) -> bool {
        true
    }

    open spec fn div_spec(self, rhs: String) -> PathDSL {
        arbitrary()
    }
}

impl<'b> Div<Box<Path>> for &'b mut PathDSL {
    type Output = PathDSL;

    /// Pushes the segment onto a copy of this path.
    fn div(self, rhs: Box<Path>) -> (r: PathDSL)
        ensures
            r@ == appended(old(self)@, boxed_bytes(rhs)),
            final(self)@ == old(self)@,
    {
        self.clone().pushed_with(&buf_from_boxed(rhs))
    }
}

impl<'b> vstd::std_specs::ops::DivSpecImpl<Box<Path>> for &'b mut PathDSL {
    open spec fn obeys_div_spec() -> bool {
        false
    }

    open spec fn div_req(self, rhs: Box<Path>) -> bool {
        true
    }

    open spec fn div_spec(self, rhs: Box<Path>) -> PathDSL {
        arbitrary()
    }
}

impl<'b, 'a> Div<Cow<'a, Path>> for &'b mut PathDSL {
    type Output = PathDSL;

    /// Pushes the segment onto a copy of this path.
    fn div(self, rhs: Cow<'a, Path>) -> (r: PathDSL)
        ensures
            r@ == appended(old(self)@, cow_bytes(rhs)),
            final(self)@ == old(self)@,
    {
        self.clone().pushed_with(&cow_buf(rhs))
    }
}

impl<'b, 'a> vstd::std_specs::ops::DivSpecImpl<Cow<'a, Path>> for &'b mut PathDSL {
    open spec fn obeys_div_spec() -> bool {
        false
    }

    open spec fn div_req(self, rhs: Cow<'a, Path>) -> bool {
        true
    }

    open spec fn div_spec(self, rhs: Cow<'a, Path>) -> PathDSL {
        arbitrary()
    }
}

impl<'b, 'a> Div<&'a str> for &'b mut PathDSL {
    type Output = PathDSL;

    /// Pushes the segment onto a copy of this path.
    fn div(self, rhs: &'a str) -> (r: PathDSL)
        ensures
            r@ == appended(old(self)@, rhs.spec_bytes()),
            final(self)@ == old(self)@,
    {
        self.clone().pushed_with(&str_buf(rhs))
    }
}

impl<'b, 'a> vstd::std_specs::ops::DivSpecImpl<&'a str> for &'b mut PathDSL {
    open spec fn obeys_div_spec() -> bool {
        false
    }

    open spec fn div_req(self, rhs: &'a str) -> bool {
        true
    }

    open spec fn div_spec(self, rhs: &'a str) -> PathDSL {
        arbitrary()
    }
}

impl<'b, 'a> Div<&'a String> for &'b mut PathDSL {
    type Output = PathDSL;

    /// Pushes the segment onto a copy of this path.
    fn div(self, rhs: &'a String) -> (r: PathDSL)
        ensures
            r@ == appended(old(self)@, encode_utf8(rhs@)),
            final(self)@ == old(self)@,
    {
        self.clone().pushed_with(&str_buf(rhs.as_str()))
    }
}

impl<'b, 'a> vstd::std_specs::ops::DivSpecImpl<&'a String> for &'b mut PathDSL {
    open spec fn obeys_div_spec() -> bool {
        false
    }

    open spec fn div_req(self, rhs: &'a String) -> bool {
        true
    }

    open spec fn div_spec(self, rhs: &'a String) -> PathDSL {
        arbitrary()
    }
}

impl<'b, 'a> Div<&'a Path> for &'b mut PathDSL {
    type Output = PathDSL;

    /// Pushes the segment onto a copy of this path.
    fn div(self, rhs: &'a Path) -> (r: PathDSL)
        ensures
            r@ == appended(old(self)@, path_bytes(rhs)),
            final(self)@ == old(self)@,
    {
        self.clone().pushed_with(&path_to_buf(rhs))
    }
}

impl<'b, 'a> vstd::std_specs::ops::DivSpecImpl<&'a Path> for &'b mut PathDSL {
    open spec fn obeys_div_spec() -> bool {
        false
    }

    open spec fn div_req(self, rhs: &'a Path) -> bool {
        true
    }

    open spec fn div_spec(self, rhs: &'a Path) -> PathDSL {
        arbitrary()
    }
}

impl<'b, 'a> Div<&'a PathBuf> for &'b mut PathDSL {
    type Output = PathDSL;

    /// Pushes the segment onto a copy of this path.
    fn div(self, rhs: &'a PathBuf) -> (r: PathDSL)
        ensures
            r@ == appended(old(self)@, buf_bytes(*rhs)),
            final(self)@ == old(self)@,
    {
        self.clone().pushed_with(rhs)
    }
}

impl<'b, 'a> vstd::std_specs::ops::DivSpecImpl<&'a PathBuf> for &'b mut PathDSL {
    open spec fn obeys_div_spec() -> bool {
        false
    }

    open spec fn div_req(self, rhs: &'a PathBuf) -> bool {
        true
    }

    open spec fn div_spec(self, rhs: &'a PathBuf) -> PathDSL {
        arbitrary()
    }
}

impl<'b, 'a> Div<&'a PathDSL> for &'b mut PathDSL {
    type Output = PathDSL;

    /// Pushes the segment onto a copy of this path.
    fn div(self, rhs: &'a PathDSL) -> (r: PathDSL)
        ensures
            r@ == appended(old(self)@, rhs@),
            final(self)@ == old(self)@,
    {
        self.clone().pushed_with(rhs.buf())
    }
}

impl<'b, 'a> vstd::std_specs::ops::DivSpecImpl<&'a PathDSL> for &'b mut PathDSL {
    open spec fn obeys_div_spec() -> bool {
        false
    }

    open spec fn div_req(self, rhs: &'a PathDSL) -> bool {
        true
    }

    open spec fn div_spec(self, rhs: &'a PathDSL) -> PathDSL {
        arbitrary()
    }
}

impl<'b, 'a> Div<&'a mut String> for &'b mut PathDSL {
    type Output = PathDSL;

    /// Pushes the segment onto a copy of this path.
    fn div(self, rhs: &'a mut String) -> (r: PathDSL)
        ensures
            r@ == appended(old(self)@, encode_utf8(old(rhs)@)),
            final(self)@ == old(self)@,
            *final(rhs) == *old(rhs),
    {
        self.clone().pushed_with(&str_buf(rhs.as_str()))
    }
}

impl<'b, 'a> vstd::std_specs::ops::DivSpecImpl<&'a mut String> for &'b mut PathDSL {
    open spec fn obeys_div_spec() -> bool {
        false
    }

    open spec fn div_req(self, rhs: &'a mut String) -> bool {
        true
    }

    open spec fn div_spec(self, rhs: &'a mut String) -> PathDSL {
        arbitrary()
    }
}

impl<'b, 'a> Div<&'a mut PathBuf> for &'b mut PathDSL {
    type Output = PathDSL;

    /// Pushes the segment onto a copy of this path.
    fn div(self, rhs: &'a mut PathBuf) -> (r: PathDSL)
        ensures
            r@ == appended(old(self)@, buf_bytes(*old(rhs))),
            final(self)@ == old(self)@,
            *final(rhs) == *old(rhs),
    {
        self.clone().pushed_with(&*rhs)
    }
}

impl<'b, 'a> vstd::std_specs::ops::DivSpecImpl<&'a mut PathBuf> for &'b mut PathDSL {
    open spec fn obeys_div_spec() -> bool {
        false
    }

    open spec fn div_req(self, rhs: &'a mut PathBuf) -> bool {
        true
    }

    open spec fn div_spec(self, rhs: &'a mut PathBuf) -> PathDSL {
        arbitrary()
    }
}

impl<'b, 'a> Div<&'a mut PathDSL> for &'b mut PathDSL {
    type Output = PathDSL;

    /// Pushes the segment onto a copy of this path.
    fn div(self, rhs: &'a mut PathDSL) -> (r: PathDSL)
        ensures
            r@ == appended(old(self)@, old(rhs)@),
            final(self)@ == old(self)@,
            *final(rhs) == *old(rhs),
    {
        self.clone().pushed_with(rhs.buf())
    }
}

impl<'b, 'a> vstd::std_specs::ops::DivSpecImpl<&'a mut PathDSL> for &'b mut PathDSL {
    open spec fn obeys_div_spec() -> bool {
        false
    }

    open spec fn div_req(self, rhs: &'a mut PathDSL) -> bool {
        true
    }

    open spec fn div_spec(self, rhs: &'a mut PathDSL) -> PathDSL {
        arbitrary()
    }
}


} // verus!
