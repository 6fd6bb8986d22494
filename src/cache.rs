//! Layout of the album-art cache: where each remote image is kept on disk,
//! and when it has to be fetched.
use vstd::prelude::*;
use vstd::string::StringExecFns;
use crate::text::{chars_of, string_of};

verus! {

/// The path component of the URL written in `s`, if `s` parses as a URL.
pub uninterp spec fn url_path_of(s: Seq<char>) -> Option<Seq<char>>;

/// Relies on `url::Url::parse` and `Url::path`: the percent-encoded path of
/// the URL, or `None` when the text is not a URL.
#[verifier::external_body]
fn url_path(s: &str) -> (r: Option<String>)
    ensures
        match r {
            Some(p) => url_path_of(s@) == Some(p@),
            None => url_path_of(s@) is None,
        },
{
    match url::Url::parse(s) {
        Ok(u) => Some(u.path().to_owned()),
        Err(_) => None,
    }
}

/// `rel` placed under `root`, as `Path::join` does it: an absolute `rel`
/// replaces `root`, and a separator is added unless `root` is empty or
/// already ends with one.
pub open spec fn join_path(root: Seq<char>, rel: Seq<char>) -> Seq<char> {
    if rel.len() > 0 && rel[0] == '/' {
        rel
    } else if root.len() == 0 || root.last() == '/' {
        root + rel
    } else {
        root + seq!['/'] + rel
    }
}

/// Why a locator has no place in the cache.
#[derive(Clone, Copy, Debug, PartialEq, Eq)]
pub enum CacheError {
    /// The locator is not a URL.
    BadLocator,
    /// The URL's path does not begin with a separator.
    NoRootedPath,
    /// The URL's path begins with two separators, so it would name a file
    /// outside the cache root.
    OutsideRoot,
}

/// The cache file for the locator `loc` under `root`: the URL's path with
/// its leading separator removed, placed under `root`.
pub open spec fn cache_file_of(root: Seq<char>, loc: Seq<char>) -> Result<Seq<char>, CacheError> {
    match url_path_of(loc) {
        None => Err(CacheError::BadLocator),
        Some(p) => if !(p.len() > 0 && p[0] == '/') {
            Err(CacheError::NoRootedPath)
        } else if p.len() > 1 && p[1] == '/' {
            Err(CacheError::OutsideRoot)
        } else {
            Ok(join_path(root, p.drop_first()))
        },
    }
}

/// A file must be fetched exactly when it is missing on disk; once present
/// it is never considered stale.
pub open spec fn fetch_needed(on_disk: bool) -> bool {
    !on_disk
}

/// The cache file for `loc` under `root`, and whether it must be fetched
/// given what is seen on disk.
pub open spec fn resolution_of(root: Seq<char>, loc: Seq<char>, on_disk: bool) -> Result<(Seq<char>, bool), CacheError> {
    match cache_file_of(root, loc) {
        Ok(p) => Ok((p, fetch_needed(on_disk))),
        Err(e) => Err(e),
    }
}

/// Where a locator is kept, and whether it still has to be fetched.
#[derive(Clone, Debug, PartialEq, Eq)]
pub struct Resolved {
    pub path: String,
    pub fetch: bool,
}

/// The directory under which fetched images are kept.
pub struct CacheDir {
    path: String,
}

impl CacheDir {
    /// The directory under which files are kept.
    pub closed spec fn root(&self) -> Seq<char> {
        self.path@
    }

    /// A cache rooted at `path`.
    pub fn new(path: String) -> (r: CacheDir)
        ensures
            r.root() == path@,
    {
        CacheDir { path }
    }

    /// The cache root.
    pub fn root_path(&self) -> (r: &String)
        ensures
            r@ == self.root(),
    {
        &self.path
    }

    /// `cache_file` placed under the cache root.
    pub fn join(&self, cache_file: &str) -> (r: String)
        ensures
            r@ == join_path(self.root(), cache_file@),
    {
        let rel = chars_of(cache_file);
        if rel.len() > 0 && rel[0] == '/' {
            return cache_file.to_owned();
        }
        let mut out = self.path.clone();
        let root = chars_of(self.path.as_str());
        if root.len() == 0 || root[root.len() - 1] == '/' {
            out.append(cache_file);
        } else {
            out.append("/");
            proof { reveal_strlit("/"); }
            out.append(cache_file);
            assert(out@ =~= self.root() + seq!['/'] + cache_file@);
        }
        out
    }

    /// The cache file for the locator `albumart`.
    pub fn locate(&self, albumart: &str) -> (r: Result<String, CacheError>)
        ensures
            match r {
                Ok(p) => cache_file_of(self.root(), albumart@) == Ok::<Seq<char>, CacheError>(p@),
                Err(e) => cache_file_of(self.root(), albumart@) == Err::<Seq<char>, CacheError>(e),
            },
    {
        match url_path(albumart) {
            None => Err(CacheError::BadLocator),
            Some(p) => {
                let cs = chars_of(p.as_str());
                if !(cs.len() > 0 && cs[0] == '/') {
                    Err(CacheError::NoRootedPath)
                } else if cs.len() > 1 && cs[1] == '/' {
                    Err(CacheError::OutsideRoot)
                } else {
                    let rel = string_of(cs.as_slice(), 1);
                    Ok(self.join(rel.as_str()))
                }
            },
        }
    }

    /// Where `albumart` is kept, and whether it must be fetched: exactly when
    /// the file is not on disk (`on_disk` is what the caller saw there).
    pub fn resolve(&self, albumart: &str, on_disk: bool) -> (r: Result<Resolved, CacheError>)
        ensures
            match r {
                Ok(res) => resolution_of(self.root(), albumart@, on_disk)
                    == Ok::<(Seq<char>, bool), CacheError>((res.path@, res.fetch)),
                Err(e) => resolution_of(self.root(), albumart@, on_disk)
                    == Err::<(Seq<char>, bool), CacheError>(e),
            },
    {
        match self.locate(albumart) {
            Ok(path) => {
                Ok(Resolved { path, fetch: !on_disk })
            },
            Err(e) => Err(e),
        }
    }
}

/// Resolving a locator twice gives the same path both times; once the first
/// resolution has put the file on disk, the second asks for no fetch.
pub proof fn lemma_resolve_again_needs_no_fetch(
    root: Seq<char>,
    loc: Seq<char>,
    first_on_disk: bool,
    path: Seq<char>,
    first_fetch: bool,
)
    requires
        resolution_of(root, loc, first_on_disk) == Ok::<(Seq<char>, bool), CacheError>((path, first_fetch)),
    ensures
        resolution_of(root, loc, true) == Ok::<(Seq<char>, bool), CacheError>((path, false)),
{
}

/// A locator whose URL path is `/` followed by a relative `rel` is kept at
/// `rel` under the root: after a separator when the root lacks one, so the
/// cache file ends with `rel`.
pub proof fn lemma_locator_kept_under_root(root: Seq<char>, loc: Seq<char>, rel: Seq<char>)
    requires
        url_path_of(loc) == Some(seq!['/'] + rel),
        !(rel.len() > 0 && rel[0] == '/'),
    ensures
        cache_file_of(root, loc) == Ok::<Seq<char>, CacheError>(join_path(root, rel)),
        root.len() > 0 && root.last() != '/' ==> join_path(root, rel) == root + seq!['/'] + rel,
        ({
            let f = join_path(root, rel);
            f.len() >= rel.len() && f.subrange(f.len() - rel.len(), f.len() as int) == rel
        }),
{
    let p = seq!['/'] + rel;
    assert(p.drop_first() =~= rel);
    let f = join_path(root, rel);
    if root.len() == 0 || root.last() == '/' {
        assert(f.subrange(f.len() - rel.len(), f.len() as int) =~= rel);
    } else {
        assert(f.subrange(f.len() - rel.len(), f.len() as int) =~= rel);
    }
}

} // verus!
