//! The storage service: where a fetched repository is cached.
//!
//! The service computes, for a repository URL, the cache-relative
//! directory the repository is stored under: `{owner}/{name}/{token}`,
//! with a fresh token so that repeated fetches never collide. Reading
//! the repository from the network is left to the caller; this module
//! only decides names.

use vstd::prelude::*;
use vstd::string::StringExecFns;

use crate::errors::ApiError;

verus! {

/// What `ghrepo::GHRepo::from_url` parses a GitHub repository URL
/// into: its owner and name, a function of the URL alone; `None` where
/// the URL is not recognized.
pub uninterp spec fn repo_of(url: Seq<char>) -> Option<(Seq<char>, Seq<char>)>;

/// A character allowed in a repository owner name.
pub open spec fn is_owner_char(c: char) -> bool {
    ('a' <= c && c <= 'z') || ('A' <= c && c <= 'Z') || ('0' <= c && c <= '9') || c == '-' || c
        == '_'
}

/// A character allowed in a repository name.
pub open spec fn is_repo_name_char(c: char) -> bool {
    is_owner_char(c) || c == '.'
}

/// Relies on ghrepo::GHRepo::from_url, owner and name: parses a GitHub
/// repository URL into its owner and repository name. The result
/// depends on the URL alone. Its source admits only nonempty owners of
/// ASCII alphanumerics, `-` and `_`, and nonempty names that also
/// allow `.`.
#[verifier::external_body]
fn parse_repo_url(url: &str) -> (r: Option<(String, String)>)
    ensures
        match r {
            Some(p) => {
                &&& repo_of(url@) == Some((p.0@, p.1@))
                &&& p.0@.len() >= 1
                &&& p.1@.len() >= 1
                &&& forall|i: int| 0 <= i < p.0@.len() ==> is_owner_char(#[trigger] p.0@[i])
                &&& forall|i: int| 0 <= i < p.1@.len() ==> is_repo_name_char(#[trigger] p.1@[i])
            },
            None => repo_of(url@) is None,
        },
{
    match ghrepo::GHRepo::from_url(url) {
        Ok(repo) => Some((repo.owner().to_owned(), repo.name().to_owned())),
        Err(_) => None,
    }
}

/// Relies on uuid::Uuid::new_v4 and its simple form: a fresh random
/// identifier rendered as 32 lowercase hexadecimal characters. The
/// value is random: nothing beyond its shape holds of it.
#[verifier::external_body]
pub(crate) fn fresh_token() -> (r: String)
    ensures
        r@.len() == 32,
        forall|i: int|
            0 <= i < r@.len() ==> ('0' <= #[trigger] r@[i] && r@[i] <= '9') || ('a' <= r@[i]
                && r@[i] <= 'f'),
{
    uuid::Uuid::new_v4().as_simple().to_string()
}

/// The storage service, configured with its cache directory.
pub struct StorageService {
    cache_dir: String,
}

impl View for StorageService {
    type V = Seq<char>;

    /// The service is known by the cache directory it was created over.
    closed spec fn view(&self) -> Seq<char> {
        self.cache_dir@
    }
}

impl StorageService {
    /// Create the service over a cache directory.
    pub fn new(cache_dir: &str) -> (s: Self)
        ensures
            s@ == cache_dir@,
    {
        Self { cache_dir: cache_dir.to_owned() }
    }

    /// The cache directory the service was created over.
    pub fn cache_dir(&self) -> (r: &str)
        ensures
            r@ == self@,
    {
        self.cache_dir.as_str()
    }

    /// The cache-relative directory a repository URL is stored under:
    /// `{owner}/{name}/{token}`, with a fresh 32-character token. A URL
    /// that is not a recognized GitHub repository URL is rejected.
    pub fn fetch_dir(&self, url: &str) -> (r: Result<String, ApiError>)
        ensures
            match r {
                Ok(dir) => match repo_of(url@) {
                    Some(p) => exists|token: Seq<char>|
                        token.len() == 32 && dir@ == p.0 + seq!['/'] + p.1 + seq!['/'] + token,
                    None => false,
                },
                Err(e) => repo_of(url@) is None && e is NotFoundRepo,
            },
    {
        match parse_repo_url(url) {
            Some(p) => {
                let ghost ov = p.0@;
                let ghost nv = p.1@;
                let (owner, name) = p;
                let token = fresh_token();
                let ghost tok = token@;
                let mut dir = owner;
                dir.append("/");
                dir.append(name.as_str());
                dir.append("/");
                dir.append(token.as_str());
                proof {
                    reveal_strlit("/");
                    assert("/"@ =~= seq!['/']);
                    assert(dir@ == ov + seq!['/'] + nv + seq!['/'] + tok);
                }
                Ok(dir)
            },
            None => Err(ApiError::NotFoundRepo(url.to_owned())),
        }
    }
}

} // verus!
