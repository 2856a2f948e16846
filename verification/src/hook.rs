//! What the repository hooks work on: the push event of the hosting service,
//! and the name and address of a repository.

use crate::text::chars_of;
use crate::text::text_of;
use vstd::prelude::*;
use vstd::string::StringExecFns;

verus! {

/// The character that separates the parts of a path.
pub const SLASH: char = '/';

/// A push event as the hosting service reports it, as far as it is read.
#[derive(Clone, Debug)]
pub struct GitHubPushEvent {
    pub git_ref: Option<String>,
    pub repository: Option<GitHubRepository>,
    pub commits: Option<Vec<GitHubCommit>>,
}

/// The repository of a push event.
#[derive(Clone, Debug)]
pub struct GitHubRepository {
    pub full_name: Option<String>,
}

/// One commit of a push event.
#[derive(Clone, Debug)]
pub struct GitHubCommit {
    pub id: Option<String>,
    pub message: Option<String>,
}

/// What stands for the id of a commit that has none.
pub const UNKNOWN_COMMIT: &'static str = "unknown";

/// `text` without the slashes that it begins with.
pub open spec fn without_leading_slashes(text: Seq<char>) -> Seq<char>
    decreases text.len(),
{
    if text.len() > 0 && text[0] == SLASH {
        without_leading_slashes(text.drop_first())
    } else {
        text
    }
}

/// The address from which a repository is cloned.
pub open spec fn repo_url_text(repo: Seq<char>) -> Seq<char> {
    "https://github.com/"@ + repo + ".git"@
}

/// The name of a repository as it is meant, from the name as it arrives in a
/// request path: without the slashes that it begins with.
pub fn normalize_repo(repo: &str) -> (name: String)
    ensures
        name@ == without_leading_slashes(repo@),
{
    let chars = chars_of(repo);
    let mut from: usize = 0;
    assert(chars@.skip(0) =~= chars@);
    while from < chars.len() && chars[from] == SLASH
        invariant
            from <= chars.len(),
            without_leading_slashes(chars@.skip(from as int)) == without_leading_slashes(chars@),
        decreases chars.len() - from,
    {
        assert(chars@.skip(from as int).drop_first() =~= chars@.skip(from + 1));
        from += 1;
    }
    text_of(&chars, from, chars.len())
}

/// The address from which the repository `repo` is cloned.
pub fn repo_url(repo: &str) -> (url: String)
    ensures
        url@ == repo_url_text(repo@),
{
    let mut url = String::from_str("https://github.com/");
    url.append(repo);
    url.append(".git");
    url
}

impl GitHubCommit {
    /// The commit's id as a text, `UNKNOWN_COMMIT` where it has none.
    pub fn id_or_unknown(&self) -> (id: &str)
        ensures
            id@ == match self.id {
                Some(text) => text@,
                None => UNKNOWN_COMMIT@,
            },
    {
        match &self.id {
            Some(text) => text.as_str(),
            None => UNKNOWN_COMMIT,
        }
    }
}

} // verus!
