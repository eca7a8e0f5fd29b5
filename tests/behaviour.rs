use path_dsl::{CopylessDSL, PathDSL};
use std::path::{Path, PathBuf, MAIN_SEPARATOR};

#[test]
fn partial_ord_dsl() {
    let lhs = PathDSL::from("aaaaa");
    let first = PathDSL::from("zzzzz");
    assert!(lhs < first);
}

#[test]
fn partial_ord_pathbuf() {
    let lhs = PathDSL::from("aaaaa");
    let first = PathBuf::from("zzzzz");
    assert!(lhs < first);
    assert!(PathDSL::from("b") > PathBuf::from("a"));
    assert_eq!(
        PathDSL::from("a/b").partial_cmp(&PathBuf::from("a//b")),
        Some(std::cmp::Ordering::Equal)
    );
}

#[test]
fn partial_ord_path() {
    let lhs = PathDSL::from("aaaaa");
    let first = Path::new("zzzzz");
    assert!(lhs < *first);
    assert_eq!(
        PathDSL::from("a/b").partial_cmp(Path::new("a/b")),
        Some(std::cmp::Ordering::Equal)
    );
}

#[test]
fn equality_with_path() {
    assert!(PathDSL::from("a/b") == *Path::new("a//b"));
    assert!(PathDSL::from("a/b") != *Path::new("a/c"));
}

#[test]
fn borrowed_mut_segment_is_left_alone() {
    let mut seg = PathBuf::from("x");
    let p = PathDSL::from("a") / &mut seg;
    assert_eq!(seg, PathBuf::from("x"));
    assert_eq!(p, PathBuf::from("a").join("x"));
}

#[test]
fn two_pushes_match_pathbuf() {
    let p = PathDSL::new() / "a" / "b";
    let mut real = PathBuf::new();
    real.push("a");
    real.push("b");
    assert_eq!(p, real);
}

#[test]
fn push_joins_with_separator() {
    let p = PathDSL::from("a") / "b";
    let expected = format!("a{}b", MAIN_SEPARATOR);
    assert_eq!(p.to_str(), Some(expected.as_str()));
}

#[test]
fn literal_run_matches_joined_literal() {
    let joined = format!("this{0}is{0}combined", MAIN_SEPARATOR);
    let one: PathBuf = (CopylessDSL::new() / joined.as_str()).into();
    let many: PathBuf = (CopylessDSL::new() / "this" / "is" / "combined").into();
    assert_eq!(one, many);
    assert_eq!(many.to_str(), Some(joined.as_str()));
}

#[test]
fn rooted_segment_replaces_path() {
    let rooted = format!("{}etc", MAIN_SEPARATOR);
    let p = PathDSL::from("tmp") / rooted.as_str();
    assert_eq!(p.to_str(), Some(rooted.as_str()));
}

#[test]
fn empty_path_takes_owned_string() {
    let p = PathDSL::new() / String::from("dir");
    assert_eq!(p.to_str(), Some("dir"));
    let q = PathDSL::from("base") / String::from("dir");
    let expected = format!("base{}dir", MAIN_SEPARATOR);
    assert_eq!(q.to_str(), Some(expected.as_str()));
}

#[test]
fn empty_path_takes_owned_dsl() {
    let p = PathDSL::new() / PathDSL::from("x");
    assert_eq!(p, PathBuf::from("x"));
    let q = PathDSL::from("a") / PathDSL::from("x");
    assert_eq!(q, PathBuf::from("a").join("x"));
}

#[test]
fn borrowed_self_is_left_alone() {
    let p = PathDSL::from("a");
    let q = &p / "b";
    assert_eq!(p, PathBuf::from("a"));
    assert_eq!(q, PathBuf::from("a").join("b"));

    let mut m = PathDSL::from("a");
    let n = &mut m / "c";
    assert_eq!(m, PathBuf::from("a"));
    assert_eq!(n, PathBuf::from("a").join("c"));
}

#[test]
fn equality_goes_by_components() {
    assert_eq!(PathDSL::from("a/b"), PathDSL::from("a//b"));
    assert_ne!(PathDSL::from("a/b"), PathDSL::from("a/c"));
    assert!(PathDSL::from("a/b") != PathBuf::from("a"));
}

#[test]
fn chain_continued_from_built_path() {
    let start = PathDSL::new() / "some" / "dir";
    let continued = start / "middle" / "end";
    let whole = PathDSL::new() / "some" / "dir" / "middle" / "end";
    assert_eq!(continued, whole);
}

#[test]
fn mixed_segment_kinds() {
    let folder = PathBuf::from("folder");
    let middle: &str = "other_middle";
    let file = String::from("file.txt");
    let combined: PathBuf = (CopylessDSL::new() / folder / middle / "middle_folder" / &file).into();
    let mut real = PathBuf::new();
    real.push("folder");
    real.push("other_middle");
    real.push("middle_folder");
    real.push("file.txt");
    assert_eq!(combined, real);
}
