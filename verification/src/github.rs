//! What a package search yields.

use vstd::prelude::*;

verus! {

/// A package that a search found.
#[derive(Clone, Debug)]
pub struct PackageInfo {
    pub owner: String,
    pub name: String,
    pub url: String,
    pub description: String,
    pub default_branch: String,
}

/// The text of an optional string, or `fallback` where there is none.
pub open spec fn text_or(text: Option<String>, fallback: Seq<char>) -> Seq<char> {
    match text {
        Some(t) => t@,
        None => fallback,
    }
}

impl PackageInfo {
    /// The package that a repository stands for. A repository without a
    /// description has an empty one; one without a default branch counts
    /// as having `main`.
    pub fn from_repository(
        owner: String,
        name: String,
        url: String,
        description: Option<String>,
        default_branch: Option<String>,
    ) -> (r: Self)
        ensures
            r.owner == owner,
            r.name == name,
            r.url == url,
            r.description@ == text_or(description, Seq::<char>::empty()),
            r.default_branch@ == text_or(default_branch, "main"@),
    {
        let description = match description {
            Some(d) => d,
            None => String::new(),
        };
        let default_branch = match default_branch {
            Some(b) => b,
            None => "main".to_owned(),
        };
        PackageInfo { owner, name, url, description, default_branch }
    }
}

} // verus!
