//! Names of databases: file URLs, paths, and their canonical form.
//!
//! A database is named by a path, which may be written as a `file:` URL. The
//! name under which a manager is registered is the canonical form of the
//! path. To find it the file system has to be asked, which this library does
//! not do: [`normalize_path`] and [`normalize_path_next`] say what to ask and
//! what follows from each answer.
//!
//! Paths are UTF-8 strings here. They are read by the rules of the platform
//! that the library is built for.

use crate::error::{ErrorKind, ErrorView};
use std::path::Path;
use std::path::PathBuf;
use url::Url;
use vstd::prelude::*;

verus! {

/// The URL that `input` parses to, as its scheme and its whole text in the
/// form that the parser has normalized; `None` where `input` is no absolute
/// URL.
pub uninterp spec fn parsed_url(input: Seq<char>) -> Option<(Seq<char>, Seq<char>)>;

/// The file path that the URL `input` stands for; `None` where `input` is no
/// absolute URL, where its host is not local, or where the path is no valid
/// UTF-8 path of the platform.
pub uninterp spec fn parsed_file_path(input: Seq<char>) -> Option<Seq<char>>;

/// The `file:` URL of the path `path`; `None` where the path is not
/// absolute.
pub uninterp spec fn file_url_of(path: Seq<char>) -> Option<Seq<char>>;

/// The final component of `path`; `None` where the path ends in `..` or has
/// no component.
pub uninterp spec fn file_name_of(path: Seq<char>) -> Option<Seq<char>>;

/// `path` without its final component; `None` where the path ends in a root
/// or is empty.
pub uninterp spec fn parent_of(path: Seq<char>) -> Option<Seq<char>>;

/// `base` extended by `name` as one more component; `name` alone where it is
/// absolute.
pub uninterp spec fn joined(base: Seq<char>, name: Seq<char>) -> Seq<char>;

/// What the parser says of text that is no absolute URL.
pub uninterp spec fn url_error_text(input: Seq<char>) -> Seq<char>;

/// Calls `Url::parse` of the url crate: the scheme and the normalized text
/// of the parsed URL if `input` parses, and the parser's message if not.
#[verifier::external_body]
pub(crate) fn url_parse(input: &str) -> (r: Result<(String, String), String>)
    ensures
        r is Ok <==> parsed_url(input@) is Some,
        r matches Ok(u) ==> Some((u.0@, u.1@)) == parsed_url(input@),
        r matches Err(m) ==> m@ == url_error_text(input@),
{
    Url::parse(input).map(|u| (u.scheme().to_owned(), String::from(u))).map_err(|e| e.to_string())
}

/// Calls `Url::parse` and `Url::to_file_path` of the url crate: the path that
/// the parsed URL stands for, if there is one and it is UTF-8.
#[verifier::external_body]
fn url_file_path(input: &str) -> (r: Option<String>)
    ensures
        r.is_some() == parsed_file_path(input@).is_some(),
        r matches Some(s) ==> Some(s@) == parsed_file_path(input@),
{
    Url::parse(input).ok().and_then(|u| u.to_file_path().ok()).and_then(
        |p| p.into_os_string().into_string().ok(),
    )
}

/// Calls `Url::from_file_path` of the url crate: the `file:` URL of an
/// absolute path, as a string.
#[verifier::external_body]
fn file_path_url(path: &str) -> (r: Option<String>)
    ensures
        r.is_some() == file_url_of(path@).is_some(),
        r matches Some(s) ==> Some(s@) == file_url_of(path@),
{
    Url::from_file_path(path).ok().map(|u| String::from(u))
}

/// Calls `Path::file_name` of std: the final component of the path, if it
/// has one.
#[verifier::external_body]
fn path_file_name(path: &str) -> (r: Option<String>)
    ensures
        r.is_some() == file_name_of(path@).is_some(),
        r matches Some(s) ==> Some(s@) == file_name_of(path@),
{
    Path::new(path).file_name().and_then(|n| n.to_str()).map(|n| n.to_owned())
}

/// Calls `Path::parent` of std: the path without its final component, if it
/// has one.
#[verifier::external_body]
fn path_parent(path: &str) -> (r: Option<String>)
    ensures
        r.is_some() == parent_of(path@).is_some(),
        r matches Some(s) ==> Some(s@) == parent_of(path@),
{
    Path::new(path).parent().and_then(|n| n.to_str()).map(|n| n.to_owned())
}

/// Calls `PathBuf::push` of std: `base` extended by the component `name`.
#[verifier::external_body]
fn path_join(base: &str, name: &str) -> (r: String)
    ensures
        r@ == joined(base@, name@),
{
    let mut buf = PathBuf::from(base);
    buf.push(name);
    buf.to_string_lossy().into_owned()
}

/// The scheme of URLs that stand for files.
pub open spec fn file_scheme() -> Seq<char> {
    "file"@
}

/// The path that `p` names: the path of the URL where `p` is a `file:` URL
/// that stands for one, and `p` itself otherwise.
pub open spec fn unurl_path_of(p: Seq<char>) -> Seq<char> {
    match parsed_url(p) {
        Some((scheme, _)) => if scheme == file_scheme() && parsed_file_path(p).is_some() {
            parsed_file_path(p).unwrap()
        } else {
            p
        },
        None => p,
    }
}

/// The `file:` URL that `p` names: `p` as a URL where it is one with the
/// `file` scheme, and the URL of the path `p` where it is no URL but an
/// absolute path. A URL with another scheme and a relative path name none.
pub open spec fn url_path_of(p: Seq<char>) -> Option<Seq<char>> {
    match parsed_url(p) {
        Some((scheme, text)) => if scheme == file_scheme() {
            Some(text)
        } else {
            None
        },
        None => file_url_of(p),
    }
}

fn is_file_scheme(scheme: &String) -> (r: bool)
    ensures
        r == (scheme@ == file_scheme()),
{
    let file = "file".to_owned();
    *scheme == file
}

/// Turns what may be a `file:` URL into a path: anything else is taken to
/// be a path already.
pub fn unurl_path(p: &str) -> (r: String)
    ensures
        r@ == unurl_path_of(p@),
{
    match url_parse(p) {
        Ok((scheme, _)) => {
            if is_file_scheme(&scheme) {
                match url_file_path(p) {
                    Some(path) => path,
                    None => p.to_owned(),
                }
            } else {
                p.to_owned()
            }
        },
        Err(_) => p.to_owned(),
    }
}

/// If `p` is a `file:` URL, returns it; otherwise tries to make it one.
/// Fails with `IllegalPath` if `p` is a URL of another scheme, or no URL and
/// not an absolute path.
pub fn ensure_url_path(p: &str) -> (r: Result<String, ErrorKind>)
    ensures
        r is Ok <==> url_path_of(p@).is_some(),
        r matches Ok(u) ==> Some(u@) == url_path_of(p@),
        r matches Err(e) ==> e@ == ErrorView::IllegalPath(p@),
{
    match url_parse(p) {
        Ok((scheme, text)) => {
            if is_file_scheme(&scheme) {
                Ok(text)
            } else {
                Err(ErrorKind::IllegalPath(p.to_owned()))
            }
        },
        Err(_) => {
            match file_path_url(p) {
                Some(u) => Ok(u),
                None => Err(ErrorKind::IllegalPath(p.to_owned())),
            }
        },
    }
}

/// The name of the shared in-memory database called `db_name`.
pub open spec fn memory_db_name_of(db_name: Seq<char>) -> Seq<char> {
    "file:"@ + db_name + "?mode=memory&cache=shared"@
}

/// The name under which the shared in-memory database `db_name` is opened
/// and registered.
pub fn memory_db_name(db_name: &str) -> (r: String)
    ensures
        r@ == memory_db_name_of(db_name@),
{
    let mut name = "file:".to_owned();
    name.append(db_name);
    name.append("?mode=memory&cache=shared");
    name
}

/// Where the search for the canonical form of a path stands.
#[derive(Debug, Clone, PartialEq, Eq)]
pub enum NormalizeStep {
    /// Ask the file system for the canonical form of this path.
    Canonicalize(String),
    /// The path does not exist yet: ask for the canonical form of `parent`.
    CanonicalizeParent { path: String, parent: String, file_name: String },
    /// The canonical form has been found.
    Done(String),
    /// The path has no canonical form.
    Failed(ErrorKind),
}

/// A [`NormalizeStep`] as a mathematical value.
pub enum NormalizeStepView {
    Canonicalize(Seq<char>),
    CanonicalizeParent { path: Seq<char>, parent: Seq<char>, file_name: Seq<char> },
    Done(Seq<char>),
    Failed(ErrorView),
}

impl View for NormalizeStep {
    type V = NormalizeStepView;

    open spec fn view(&self) -> NormalizeStepView {
        match self {
            NormalizeStep::Canonicalize(p) => NormalizeStepView::Canonicalize(p@),
            NormalizeStep::CanonicalizeParent { path, parent, file_name } =>
                NormalizeStepView::CanonicalizeParent {
                    path: path@,
                    parent: parent@,
                    file_name: file_name@,
                },
            NormalizeStep::Done(p) => NormalizeStepView::Done(p@),
            NormalizeStep::Failed(e) => NormalizeStepView::Failed(e@),
        }
    }
}

/// The directory that `parent` names: the current directory, written `.`,
/// where `parent` is empty, as the parent of a bare file name is.
pub open spec fn directory_of(parent: Seq<char>) -> Seq<char> {
    if parent.len() == 0 {
        seq!['.']
    } else {
        parent
    }
}

/// What follows when the file system cannot give the canonical form of
/// `path`: the search goes on with the directory of its parent, unless the
/// path has no final component or no parent.
pub open spec fn fallback_of(path: Seq<char>) -> NormalizeStepView {
    match (file_name_of(path), parent_of(path)) {
        (Some(file_name), Some(parent)) => NormalizeStepView::CanonicalizeParent {
            path,
            parent: directory_of(parent),
            file_name,
        },
        _ => NormalizeStepView::Failed(ErrorView::IllegalPath(path)),
    }
}

/// The step that follows `step` once the file system has answered with
/// `canonical`: the canonical form of the path that the step asked about, or
/// `None` where it has none.
pub open spec fn next_step_of(step: NormalizeStepView, canonical: Option<Seq<char>>)
    -> NormalizeStepView {
    match step {
        NormalizeStepView::Canonicalize(path) => match canonical {
            Some(c) => NormalizeStepView::Done(c),
            None => fallback_of(path),
        },
        NormalizeStepView::CanonicalizeParent { path, parent, file_name } => match canonical {
            Some(c) => NormalizeStepView::Done(joined(c, file_name)),
            None => NormalizeStepView::Failed(ErrorView::IllegalPath(path)),
        },
        _ => step,
    }
}

/// Begins the search for the canonical form of `p`, as best as possible an
/// absolute path with all links resolved. If `p` is a `file:` URL, it is
/// turned into a path first.
pub fn normalize_path(p: &str) -> (r: NormalizeStep)
    ensures
        r@ == NormalizeStepView::Canonicalize(unurl_path_of(p@)),
{
    NormalizeStep::Canonicalize(unurl_path(p))
}

/// Takes the answer of the file system to the question that `step` asked,
/// and says how the search goes on. A step that asks nothing stays as it is.
pub fn normalize_path_next(step: NormalizeStep, canonical: Option<String>) -> (r: NormalizeStep)
    ensures
        r@ == next_step_of(
            step@,
            match canonical {
                Some(c) => Some(c@),
                None => None,
            },
        ),
{
    match step {
        NormalizeStep::Canonicalize(path) => match canonical {
            Some(c) => NormalizeStep::Done(c),
            None => {
                let file_name = match path_file_name(path.as_str()) {
                    Some(n) => n,
                    None => {
                        return NormalizeStep::Failed(ErrorKind::IllegalPath(path));
                    },
                };
                let parent = match path_parent(path.as_str()) {
                    Some(q) => q,
                    None => {
                        return NormalizeStep::Failed(ErrorKind::IllegalPath(path));
                    },
                };
                let parent = if parent.as_str().unicode_len() == 0 {
                    proof {
                        reveal_strlit(".");
                        assert("."@ =~= seq!['.']);
                    }
                    ".".to_owned()
                } else {
                    parent
                };
                NormalizeStep::CanonicalizeParent { path, parent, file_name }
            },
        },
        NormalizeStep::CanonicalizeParent { path, parent, file_name } => match canonical {
            Some(c) => NormalizeStep::Done(path_join(c.as_str(), file_name.as_str())),
            None => NormalizeStep::Failed(ErrorKind::IllegalPath(path)),
        },
        NormalizeStep::Done(p) => NormalizeStep::Done(p),
        NormalizeStep::Failed(e) => NormalizeStep::Failed(e),
    }
}

} // verus!
