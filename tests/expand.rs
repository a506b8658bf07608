use std::borrow::Cow;
use std::path::{Component, Path, PathBuf};

use plain_path::{expand_with, plain, HomeDirNotFound, PlainPathExt};

fn alice() -> Option<PathBuf> {
    Some(PathBuf::from("/home/alice"))
}

#[test]
fn expands_tilde() -> Result<(), HomeDirNotFound> {
    let path = Path::new("~/.ssh/config").plain()?;

    let mut components = path.components();
    assert_eq!(Some(Component::RootDir), components.next());

    Ok(())
}

#[test]
fn expands_tilde_with_given_home() {
    let r = expand_with(Path::new("~/.ssh/config"), alice());
    match r {
        Ok(Cow::Owned(p)) => assert_eq!(p, PathBuf::from("/home/alice/.ssh/config")),
        other => panic!("unexpected result: {:?}", other),
    }
}

#[test]
fn absolute_path_is_borrowed_unchanged() {
    let input = Path::new("/etc/hosts");
    match expand_with(input, alice()) {
        Ok(Cow::Borrowed(p)) => {
            assert!(std::ptr::eq(p, input));
            assert_eq!(p, Path::new("/etc/hosts"));
        }
        other => panic!("unexpected result: {:?}", other),
    }
}

#[test]
fn bare_tilde_is_home() {
    let r = expand_with(Path::new("~"), alice()).unwrap();
    assert_eq!(r.as_ref(), Path::new("/home/alice"));
    assert!(matches!(r, Cow::Owned(_)));
}

#[test]
fn tilde_with_trailing_separator_is_home() {
    let r = expand_with(Path::new("~/"), alice()).unwrap();
    assert_eq!(r.as_ref(), Path::new("/home/alice"));
}

#[test]
fn glued_tilde_is_unchanged() {
    let input = Path::new("~foo/bar");
    match expand_with(input, alice()) {
        Ok(Cow::Borrowed(p)) => assert_eq!(p, Path::new("~foo/bar")),
        other => panic!("unexpected result: {:?}", other),
    }
}

#[test]
fn later_tilde_is_untouched() {
    let r = expand_with(Path::new("~/a/~/b"), alice()).unwrap();
    assert_eq!(r.as_ref(), Path::new("/home/alice/a/~/b"));
    let input = Path::new("a/~");
    assert!(matches!(expand_with(input, alice()), Ok(Cow::Borrowed(_))));
}

#[test]
fn parent_and_repeated_separators_are_kept_as_components() {
    let r = expand_with(Path::new("~//../x"), alice()).unwrap();
    assert_eq!(r.as_ref(), Path::new("/home/alice/../x"));
}

#[test]
fn relative_path_is_unchanged() {
    let r = expand_with(Path::new("./~/x"), alice()).unwrap();
    assert!(matches!(r, Cow::Borrowed(_)));
    assert_eq!(r.as_ref(), Path::new("./~/x"));
}

#[test]
fn missing_home_is_an_error() {
    assert_eq!(expand_with(Path::new("~/anything"), None), Err(HomeDirNotFound));
    assert_eq!(expand_with(Path::new("~"), None), Err(HomeDirNotFound));
}

#[test]
fn missing_home_is_not_needed_without_tilde() {
    let r = expand_with(Path::new("/etc/hosts"), None).unwrap();
    assert_eq!(r.as_ref(), Path::new("/etc/hosts"));
}

#[test]
fn expanding_twice_changes_nothing() {
    let once = expand_with(Path::new("~/.ssh/config"), alice()).unwrap();
    let twice = expand_with(once.as_ref(), alice()).unwrap();
    assert!(matches!(twice, Cow::Borrowed(_)));
    assert_eq!(twice.as_ref(), Path::new("/home/alice/.ssh/config"));
}

#[test]
fn plain_leaves_other_paths_borrowed() {
    let input = Path::new("/etc/hosts");
    match plain(input) {
        Ok(Cow::Borrowed(p)) => assert!(std::ptr::eq(p, input)),
        other => panic!("unexpected result: {:?}", other),
    }
}

#[test]
fn plain_on_path_buf() {
    let buf = PathBuf::from("relative/dir");
    let r = buf.plain().unwrap();
    assert!(matches!(r, Cow::Borrowed(_)));
    assert_eq!(r.as_ref(), Path::new("relative/dir"));

    let tilde = PathBuf::from("~/x");
    match tilde.plain() {
        Ok(p) => assert!(p.ends_with("x") && !p.starts_with("~")),
        Err(e) => assert_eq!(e, HomeDirNotFound),
    }
}

#[test]
fn error_message() {
    assert_eq!(
        HomeDirNotFound.message(),
        "Failed to determine user's home directory."
    );
    let e = HomeDirNotFound;
    let copy = e;
    assert_eq!(e, copy);
}
