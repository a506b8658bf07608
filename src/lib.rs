//! Expands a leading `~` component of a path to the user's home directory.
//!
//! A path is modelled by its components (`segments`), each given by the bytes
//! of its `OsStr` form. Only a first component that is exactly `~` is
//! expanded: `~foo` and a `~` further on are left alone. The contracts of the
//! std calls below describe Unix path syntax, where `/` separates components.

use std::borrow::Cow;
use std::path::{Component, Components, Path, PathBuf};
use vstd::prelude::*;

verus! {

#[verifier::external_type_specification]
#[verifier::external_body]
pub struct ExPath(Path);

#[verifier::external_type_specification]
#[verifier::external_body]
pub struct ExPathBuf(PathBuf);

#[verifier::external_type_specification]
#[verifier::external_body]
pub struct ExComponents<'a>(Components<'a>);

#[verifier::external_type_specification]
#[verifier::external_body]
pub struct ExComponent<'a>(Component<'a>);

/// Relies on `dirs::home_dir`: it either finds the home directory or reports
/// that it could not; which one depends on the environment of the process.
pub assume_specification[ dirs::home_dir ]() -> Option<PathBuf>;

/// The components of a path, in order, each by the bytes of its `OsStr` form
/// (`Path::components`, then `Component::as_os_str`).
pub uninterp spec fn segments(p: &Path) -> Seq<Seq<u8>>;

/// The components of an owned path, as `segments` gives them for the path it
/// derefs to.
pub uninterp spec fn buf_segments(b: &PathBuf) -> Seq<Seq<u8>>;

/// The components that an iterator over a path's components has yet to yield.
pub uninterp spec fn pending(it: &Components) -> Seq<Seq<u8>>;

/// The bytes of a component's `OsStr` form (`Component::as_os_str`).
pub uninterp spec fn component_bytes(c: &Component) -> Seq<u8>;

/// `~`, the home-directory placeholder.
pub open spec fn tilde() -> Seq<u8> {
    seq![126u8]
}

/// `/`, the form of the root component on Unix.
pub open spec fn root_dir() -> Seq<u8> {
    seq![47u8]
}

/// `.`, the current directory.
pub open spec fn cur_dir() -> Seq<u8> {
    seq![46u8]
}

/// Relies on `Path::starts_with`, which compares whole components: a path
/// starts with `~` exactly when its first component is `~`.
#[verifier::external_body]
fn starts_with_tilde(p: &Path) -> (r: bool)
    ensures
        r == (segments(p).len() > 0 && segments(p)[0] == tilde()),
{
    p.starts_with("~")
}

/// Relies on `PathBuf::as_path`: the buffer's path, component for component.
#[verifier::external_body]
fn as_path(b: &PathBuf) -> (r: &Path)
    ensures
        segments(r) == buf_segments(b),
{
    b.as_path()
}

/// Relies on `Path::components`: the iterator yields the path's components
/// in order. A root (`/`) or a current directory (`.`) can only come first.
#[verifier::external_body]
fn components_of<'a>(p: &'a Path) -> (r: Components<'a>)
    ensures
        pending(&r) == segments(p),
        forall|i: int| 0 < i < pending(&r).len() ==> #[trigger] pending(&r)[i] != root_dir() && pending(&r)[i] != cur_dir(),
{
    p.components()
}

/// Relies on `Iterator::next` of `Components`: it yields the next component,
/// or `None` once all have been yielded.
#[verifier::external_body]
fn next_component<'a>(it: &mut Components<'a>) -> (r: Option<Component<'a>>)
    ensures
        pending(old(it)).len() == 0 ==> r is None && pending(final(it)).len() == 0,
        pending(old(it)).len() > 0 ==> r is Some && component_bytes(&r->0) == pending(old(it))[0]
            && pending(final(it)) == pending(old(it)).drop_first(),
{
    it.next()
}

/// Relies on `PathBuf::push`: on Unix a relative path is appended with a
/// separator, so a component other than the root and `.` becomes the last
/// component of the buffer.
#[verifier::external_body]
fn push_component(b: &mut PathBuf, c: Component)
    requires
        component_bytes(&c) != root_dir(),
        component_bytes(&c) != cur_dir(),
    ensures
        buf_segments(final(b)) == buf_segments(old(b)).push(component_bytes(&c)),
{
    b.push(c)
}

/// Whether a component is the home-directory placeholder `~`.
pub open spec fn is_placeholder(seg: Seq<u8>) -> bool {
    seg == tilde()
}

/// Whether the first component of a path is the placeholder.
pub open spec fn has_placeholder(segs: Seq<Seq<u8>>) -> bool {
    segs.len() > 0 && is_placeholder(segs[0])
}

/// The components of the expanded path: those of the home directory, then
/// every component of the input after the first.
pub open spec fn expansion(segs: Seq<Seq<u8>>, home: Seq<Seq<u8>>) -> Seq<Seq<u8>> {
    home + segs.drop_first()
}

/// A path that is the placeholder alone expands to the home directory
/// itself.
pub proof fn lemma_bare_placeholder(home: Seq<Seq<u8>>)
    ensures
        has_placeholder(seq![tilde()]),
        expansion(seq![tilde()], home) == home,
{
    assert(seq![tilde()].drop_first() =~= Seq::<Seq<u8>>::empty());
    assert(home + Seq::<Seq<u8>>::empty() =~= home);
}

/// A first component that only begins with `~`, such as `~foo`, is not the
/// placeholder, so the path is left as it is.
pub proof fn lemma_glued_placeholder(segs: Seq<Seq<u8>>)
    requires
        segs.len() > 0,
        segs[0].len() > 1,
        segs[0][0] == tilde()[0],
    ensures
        !has_placeholder(segs),
{
}

/// An expansion never starts with the placeholder when the home directory
/// does not, so expanding its result again changes nothing.
pub proof fn lemma_expansion_has_no_placeholder(segs: Seq<Seq<u8>>, home: Seq<Seq<u8>>)
    requires
        home.len() > 0,
        !is_placeholder(home[0]),
    ensures
        !has_placeholder(expansion(segs, home)),
{
    assert(expansion(segs, home)[0] == home[0]);
}

/// Error when the user's home directory cannot be found.
#[derive(Clone, Copy, Debug, PartialEq, Eq, Structural)]
pub struct HomeDirNotFound;

impl HomeDirNotFound {
    /// The error as a sentence for people to read.
    pub fn message(&self) -> (r: &'static str)
        ensures
            r@ == "Failed to determine user's home directory."@,
    {
        "Failed to determine user's home directory."
    }
}

/// Provides the [`plain`][PlainPathExt::plain] method to expand `~`.
pub trait PlainPathExt {
    /// The components of the path that `self` stands for.
    spec fn path_segments(&self) -> Seq<Seq<u8>>;

    /// Returns the path without special expansion characters.
    ///
    /// If there are no expansion characters, the original path is returned
    /// under the `Cow::Borrowed` variant, otherwise an owned `PathBuf` is
    /// returned.
    fn plain(&self) -> (r: Result<Cow<'_, Path>, HomeDirNotFound>)
        ensures
            !has_placeholder(self.path_segments()) ==> (r matches Ok(Cow::Borrowed(p))
                && segments(p) == self.path_segments()),
            has_placeholder(self.path_segments()) ==> (r == Err::<Cow<'_, Path>, HomeDirNotFound>(HomeDirNotFound)
                || (r matches Ok(Cow::Owned(b)) && exists|h: Seq<Seq<u8>>|
                    buf_segments(&b) == #[trigger] expansion(self.path_segments(), h))),
    ;
}

impl PlainPathExt for Path {
    open spec fn path_segments(&self) -> Seq<Seq<u8>> {
        segments(self)
    }

    fn plain(&self) -> (r: Result<Cow<'_, Path>, HomeDirNotFound>) {
        crate::plain(self)
    }
}

impl PlainPathExt for PathBuf {
    open spec fn path_segments(&self) -> Seq<Seq<u8>> {
        buf_segments(self)
    }

    fn plain(&self) -> (r: Result<Cow<'_, Path>, HomeDirNotFound>) {
        crate::plain(as_path(self))
    }
}

/// Returns the path without special expansion characters.
///
/// Currently this only expands `~` to the user's home directory, which it
/// asks the environment for each time. Symlinks are not converted.
pub fn plain(path: &Path) -> (r: Result<Cow<'_, Path>, HomeDirNotFound>)
    ensures
        !has_placeholder(segments(path)) ==> r == Ok::<Cow<'_, Path>, HomeDirNotFound>(Cow::Borrowed(path)),
        has_placeholder(segments(path)) ==> (r == Err::<Cow<'_, Path>, HomeDirNotFound>(HomeDirNotFound)
            || (r matches Ok(Cow::Owned(b)) && exists|h: Seq<Seq<u8>>|
                buf_segments(&b) == #[trigger] expansion(segments(path), h))),
{
    if starts_with_tilde(path) {
        let home = dirs::home_dir();
        let ghost h = buf_segments(&home->0);
        let r = expand_with(path, home);
        assert(r matches Ok(Cow::Owned(b)) ==> buf_segments(&b) == expansion(segments(path), h));
        r
    } else {
        Ok(Cow::Borrowed(path))
    }
}

/// Expands a leading `~` component of `path` to `home`, the home directory
/// as the environment reported it (`None` when it could not be determined).
///
/// A path whose first component is not `~` comes back borrowed, unchanged.
pub fn expand_with<'a>(path: &'a Path, home: Option<PathBuf>) -> (r: Result<Cow<'a, Path>, HomeDirNotFound>)
    ensures
        !has_placeholder(segments(path)) ==> r == Ok::<Cow<'a, Path>, HomeDirNotFound>(Cow::Borrowed(path)),
        has_placeholder(segments(path)) && home is None ==> r == Err::<Cow<'a, Path>, HomeDirNotFound>(HomeDirNotFound),
        has_placeholder(segments(path)) && home is Some ==> (r matches Ok(Cow::Owned(b))
            && buf_segments(&b) == expansion(segments(path), buf_segments(&home->0))),
{
    if starts_with_tilde(path) {
        match home {
            Some(mut buf) => {
                let ghost segs = segments(path);
                let ghost home_segs = buf_segments(&buf);
                let mut it = components_of(path);
                let _ = next_component(&mut it);
                loop
                    invariant
                        segs == segments(path),
                        segs.len() > 0,
                        pending(&it).len() < segs.len(),
                        pending(&it) == segs.subrange(segs.len() - pending(&it).len(), segs.len() as int),
                        forall|i: int| 0 <= i < pending(&it).len() ==> #[trigger] pending(&it)[i] != root_dir() && pending(&it)[i] != cur_dir(),
                        buf_segments(&buf) == home_segs + segs.subrange(1, segs.len() - pending(&it).len()),
                    ensures
                        buf_segments(&buf) == home_segs + segs.drop_first(),
                    decreases pending(&it).len(),
                {
                    match next_component(&mut it) {
                        Some(c) => {
                            push_component(&mut buf, c);
                        },
                        None => {
                            assert(segs.subrange(1, segs.len() as int) == segs.drop_first());
                            break;
                        },
                    }
                }
                Ok(Cow::Owned(buf))
            },
            None => Err(HomeDirNotFound),
        }
    } else {
        Ok(Cow::Borrowed(path))
    }
}

} // verus!
