use path_dsl::{CopylessDSL, PathDSL};
use std::borrow::{Borrow, Cow};
use std::path::{Path, PathBuf};
use std::rc::Rc;
use std::sync::Arc;

#[test]
fn from_str() {
    let first = "test_path";
    let p = PathDSL::from(first);
    assert_eq!(p, PathBuf::from("test_path"));
}

#[test]
fn from_string() {
    let first = String::from("test_path");
    let p = PathDSL::from(first);
    assert_eq!(p, PathBuf::from("test_path"));
}

#[test]
fn from_pathbuf() {
    let first = PathBuf::from("test_path");
    let p = PathDSL::from(first);
    assert_eq!(p, PathBuf::from("test_path"));
}

#[test]
fn from_dsl() {
    let first = PathDSL::from("test_path");
    let p = PathDSL::from(first);
    assert_eq!(p, PathBuf::from("test_path"));
}

#[test]
fn from_path() {
    let first = Path::new("test_path");
    let p = PathDSL::from(first);
    assert_eq!(p, PathBuf::from("test_path"));
}

#[test]
fn from_borrowed_string() {
    let first = String::from("test_path");
    let p = PathDSL::from(&first);
    assert_eq!(p.to_str(), Some("test_path"));
}

#[test]
fn into_pathbuf_keeps_buffer() {
    let mut first = PathBuf::with_capacity(300);
    first.push("dir");
    let capacity = first.capacity();
    let back: PathBuf = PathDSL::from(first).into();
    assert_eq!(back.capacity(), capacity);
}

#[test]
fn borrow_gives_path() {
    let p = PathDSL::from("dir/file.txt");
    let b: &Path = p.borrow();
    assert_eq!(b, Path::new("dir/file.txt"));
}

#[test]
fn from_box_path() {
    let first: Box<Path> = Box::from(Path::new("test_path"));
    let p = PathDSL::from(first);
    assert_eq!(p, PathBuf::from("test_path"));
}

#[test]
fn boxed_path_round_trip() {
    let p = PathDSL::from("dir/file.txt");
    let back = PathDSL::from(p.into_boxed_path());
    assert_eq!(back.to_str(), Some("dir/file.txt"));
}

#[test]
fn from_str_parses_any_text() {
    let p: PathDSL = "dir/file.txt".parse().unwrap();
    assert_eq!(p.to_str(), Some("dir/file.txt"));
}

#[test]
fn deref_mut_changes_path() {
    let mut p = PathDSL::from("a");
    p.push("b");
    assert_eq!(p, PathBuf::from("a").join("b"));
    p.as_mut().pop();
    assert_eq!(p, PathBuf::from("a"));
}

#[test]
fn from_borrowed_pathbuf_and_dsl() {
    let buf = PathBuf::from("test_path");
    let dsl = PathDSL::from("test_path");
    assert_eq!(PathDSL::from(&buf), buf);
    assert_eq!(PathDSL::from(&dsl), dsl);
}

#[test]
fn from_string_keeps_text() {
    let p = PathDSL::from(String::from("dir/file.txt"));
    assert_eq!(p.to_str(), Some("dir/file.txt"));
}

#[test]
fn into_pathbuf() {
    let p = PathDSL::from("test_path");
    let t: PathBuf = p.into();
    assert_eq!(t, PathBuf::from("test_path"));
    assert_eq!(PathDSL::from("other").into_pathbuf(), PathBuf::from("other"));
}

#[test]
fn into_dsl() {
    let p = PathDSL::from("test_path");
    let t: PathDSL = p.into();
    assert_eq!(t, PathBuf::from("test_path"));
}

#[test]
fn into_box_path() {
    let p = PathDSL::from("test_path");
    let t: Box<Path> = p.into();
    assert_eq!(&*t, Path::new("test_path"));
    let b = PathDSL::from("other").into_boxed_path();
    assert_eq!(&*b, Path::new("other"));
}

#[test]
fn copyless_alone_is_empty() {
    let buf: PathBuf = CopylessDSL::new().into();
    assert!(buf.as_os_str().is_empty());
    let dsl = PathDSL::from(CopylessDSL::default());
    assert!(dsl.as_os_str().is_empty());
}

#[test]
fn copyless_takes_over_owned_buffer() {
    let mut first = PathBuf::with_capacity(200);
    first.push("a_very_long_folder_name");
    let capacity = first.capacity();
    let p = CopylessDSL::new() / first;
    assert_eq!(p, PathBuf::from("a_very_long_folder_name"));
    assert_eq!(p.into_pathbuf().capacity(), capacity);
}

#[test]
fn owned_segment_taken_over_by_empty_path() {
    let mut seg = PathBuf::with_capacity(200);
    seg.push("dir");
    let capacity = seg.capacity();
    let p = PathDSL::new() / seg;
    assert_eq!(p.into_pathbuf().capacity(), capacity);
}

#[test]
fn deref_gives_buffer() {
    let dsl = PathDSL::from("file.txt");
    let buf = PathBuf::from("file.txt");
    assert!(dsl == buf);
    assert!(buf == *dsl);
    let as_path: &Path = dsl.as_ref();
    assert_eq!(as_path, Path::new("file.txt"));
}

#[test]
fn clone_and_default() {
    let p = PathDSL::from("a");
    let q = p.clone();
    assert_eq!(p, q);
    assert_eq!(q, PathBuf::from("a"));
    let d = PathDSL::default();
    assert!(d.as_os_str().is_empty());
    assert_eq!(d, PathDSL::new());
}

#[test]
fn from_cow_path() {
    let borrowed: Cow<'_, Path> = Cow::Borrowed(Path::new("test_path"));
    assert_eq!(PathDSL::from(borrowed), PathBuf::from("test_path"));
    let owned: Cow<'_, Path> = Cow::Owned(PathBuf::from("other"));
    assert_eq!(PathDSL::from(owned), PathBuf::from("other"));
}

#[test]
fn into_cow_path() {
    let p = PathDSL::from("test_path");
    let borrowed: Cow<'_, Path> = (&p).into();
    assert!(matches!(borrowed, Cow::Borrowed(_)));
    assert_eq!(&*borrowed, Path::new("test_path"));
    let owned: Cow<'_, Path> = PathDSL::from("other").into();
    assert!(matches!(owned, Cow::Owned(_)));
    assert_eq!(&*owned, Path::new("other"));
}

#[test]
fn into_arc_path() {
    let t: Arc<Path> = PathDSL::from("test_path").into();
    assert_eq!(&*t, Path::new("test_path"));
}

#[test]
fn into_rc_path() {
    let t: Rc<Path> = PathDSL::from("test_path").into();
    assert_eq!(&*t, Path::new("test_path"));
}

#[test]
fn from_mut_borrows() {
    let mut buf = PathBuf::from("b");
    let mut text = String::from("s");
    let mut dsl = PathDSL::from("d");
    assert_eq!(PathDSL::from(&mut buf), PathBuf::from("b"));
    assert_eq!(PathDSL::from(&mut text), PathBuf::from("s"));
    assert_eq!(PathDSL::from(&mut dsl), PathBuf::from("d"));
    assert_eq!(buf, PathBuf::from("b"));
    assert_eq!(text, "s");
    assert_eq!(dsl, PathBuf::from("d"));
}
