//! Paths as the launcher reads them. A path is held as its text, with `/`
//! between its components, together with the name of its last component.

use vstd::prelude::*;
use vstd::string::*;
use crate::text::chars_of;

verus! {

/// Whether the path `p` starts at the root.
pub open spec fn is_absolute(p: Seq<char>) -> bool {
    p.len() > 0 && p[0] == '/'
}

/// The path `rel` taken from the directory `base`: `rel` itself where it is
/// absolute, else `base`, one `/` unless `base` is empty or ends in one, and
/// `rel`.
pub open spec fn joined(base: Seq<char>, rel: Seq<char>) -> Seq<char> {
    if is_absolute(rel) {
        rel
    } else if base.len() == 0 || base.last() == '/' {
        base + rel
    } else {
        base + seq!['/'] + rel
    }
}

/// Whether the path `p` starts at the root.
pub fn absolute(p: &str) -> (yes: bool)
    ensures
        yes == is_absolute(p@),
{
    let chars = chars_of(p);
    chars.len() > 0 && chars[0] == '/'
}

/// Joins `rel` onto the directory `base`.
pub fn join_path(base: &str, rel: &str) -> (path: String)
    ensures
        path@ == joined(base@, rel@),
{
    if absolute(rel) {
        return String::from_str(rel);
    }
    let chars = chars_of(base);
    let mut path = String::from_str(base);
    if chars.len() > 0 && chars[chars.len() - 1] != '/' {
        path.append("/");
        proof {
            reveal_strlit("/");
            assert("/"@ == seq!['/']);
        }
    }
    path.append(rel);
    path
}

/// A directory of the host.
#[derive(Debug)]
pub struct ProjectPath {
    /// The path as text.
    pub text: String,
    /// The name of the last component, where the path has one: the root and a
    /// path that ends in `..` have none.
    pub file_name: Option<String>,
}

/// `ProjectPath` over texts.
pub struct ProjectPathView {
    pub text: Seq<char>,
    pub file_name: Option<Seq<char>>,
}

impl View for ProjectPath {
    type V = ProjectPathView;

    open spec fn view(&self) -> ProjectPathView {
        ProjectPathView { text: self.text@, file_name: self.file_name.deep_view() }
    }
}

impl DeepView for ProjectPath {
    type V = ProjectPathView;

    open spec fn deep_view(&self) -> ProjectPathView {
        self@
    }
}

impl Clone for ProjectPath {
    fn clone(&self) -> (copy: ProjectPath)
        ensures
            copy@ == self@,
    {
        ProjectPath {
            text: self.text.clone(),
            file_name: match &self.file_name {
                Some(name) => Some(name.clone()),
                None => None,
            },
        }
    }
}

} // verus!
