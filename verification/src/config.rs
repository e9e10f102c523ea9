//! The website server's configuration: where its file is searched for, how
//! its TLS paths resolve, and which directories the site is cloned and built
//! into.

use vstd::prelude::*;

use crate::paths::{
    has_no_parent, has_root, join_path, joined, parent_path, path_components, split_on_slash,
    std_path_parent,
};
use crate::text::{chars_of, trim_end_git, trim_git_suffixes};
use vstd::string::StrSliceExecFns;

verus! {

/// Where the site is served: an IPv4 address (its four octets) and a port.
pub struct ServerConfig {
    pub host: [u8; 4],
    pub port: u16,
}

/// The certificate and key files of the HTTPS listener.
pub struct HttpsConfig {
    pub cert_path: String,
    pub key_path: String,
}

/// The Hugo project: the Git URL it is cloned from, as the URL parser
/// serialised it.
pub struct HugoConfig {
    pub repo_url: String,
}

/// The Algolia search index that the site's records are uploaded to.
pub struct AlgoliaConfig {
    pub records_file_name: String,
    pub application_id: String,
    pub api_key: String,
    pub index_name: String,
}

/// The server's configuration file, with the path it was read from.
pub struct Config {
    pub server: ServerConfig,
    pub https: HttpsConfig,
    pub hugo: HugoConfig,
    pub algolia: AlgoliaConfig,
    pub config_path: String,
}

/// Why the repository directory cannot be derived from the repository URL.
pub enum RepoPathError {
    /// The text does not parse as a URL.
    NotAUrl,
    /// The URL has no hierarchical path (`data:`, `mailto:` and the like).
    CannotBeABase,
}

/// What `url::Url::path` returns for the URL that `url::Url::parse` makes of
/// the text `s`; `None` where `s` does not parse.
pub uninterp spec fn url_path_of(s: Seq<char>) -> Option<Seq<char>>;

/// `url::Url::parse`, then `url::Url::path` of the parsed URL. The result is
/// named: it depends on the text alone.
#[verifier::external_body]
fn url_path(s: &str) -> (r: Option<String>)
    ensures
        r is None <==> url_path_of(s@) is None,
        r matches Some(p) ==> url_path_of(s@) == Some(p@),
{
    match url::Url::parse(s) {
        Ok(u) => Some(u.path().to_string()),
        Err(_) => None,
    }
}

/// The name of the directory that a repository is cloned into, given the
/// path of its URL: the last `/`-separated segment without its `.git`
/// suffixes.
pub open spec fn repo_dir_name(url_path: Seq<char>) -> Seq<char> {
    trim_git_suffixes(split_on_slash(url_path.drop_first()).last())
}

/// Where the repository is cloned, relative to the working directory `cwd`.
pub open spec fn spec_repo_dst(url: Seq<char>, cwd: Seq<char>) -> Result<Seq<char>, RepoPathError> {
    match url_path_of(url) {
        None => Err(RepoPathError::NotAUrl),
        Some(p) => if has_root(p) {
            Ok(joined(cwd, repo_dir_name(p)))
        } else {
            Err(RepoPathError::CannotBeABase)
        },
    }
}

pub open spec fn public_dir() -> Seq<char> {
    seq!['p', 'u', 'b', 'l', 'i', 'c']
}

pub open spec fn records_file() -> Seq<char> {
    seq!['a', 'l', 'g', 'o', 'l', 'i', 'a', '.', 'j', 's', 'o', 'n']
}

/// Where a repository whose URL has the path `url_path` is cloned, inside the
/// working directory `cwd`: a URL path that does not start with `/` belongs to
/// a URL that cannot be a base.
pub fn repo_dst_for_path(url_path: &str, cwd: &str) -> (r: Result<String, RepoPathError>)
    ensures
        has_root(url_path@) ==> (r matches Ok(s) && s@ == joined(cwd@, repo_dir_name(url_path@))),
        !has_root(url_path@) ==> r matches Err(RepoPathError::CannotBeABase),
{
    let cs = chars_of(url_path);
    if cs.len() == 0 || cs[0] != '/' {
        return Err(RepoPathError::CannotBeABase);
    }
    let k = last_segment_start(&cs);
    proof {
        lemma_last_piece_drop_first(url_path@);
    }
    let last = url_path.substring_char(k, cs.len());
    let name = trim_end_git(last);
    Ok(join_path(cwd, name.as_str()))
}

/// The start of the last `/`-separated segment of `cs`.
fn last_segment_start(cs: &Vec<char>) -> (k: usize)
    ensures
        k <= cs@.len(),
        split_on_slash(cs@).last() == cs@.subrange(k as int, cs@.len() as int),
{
    let mut i: usize = 0;
    let mut k: usize = 0;
    let ghost p = cs@;
    assert(p.take(0) =~= Seq::<char>::empty());
    assert(p.subrange(0, 0) =~= Seq::<char>::empty());
    while i < cs.len()
        invariant
            p == cs@,
            k <= i <= p.len(),
            split_on_slash(p.take(i as int)).last() == p.subrange(k as int, i as int),
        decreases p.len() - i,
    {
        proof {
            assert(p.take(i + 1).drop_last() =~= p.take(i as int));
            crate::paths::lemma_split_nonempty(p.take(i as int));
        }
        if cs[i] == '/' {
            k = i + 1;
            assert(p.subrange(k as int, k as int) =~= Seq::<char>::empty());
        } else {
            assert(p.subrange(k as int, i + 1) =~= p.subrange(k as int, i as int).push(p[i as int]));
        }
        i = i + 1;
    }
    assert(p.take(p.len() as int) =~= p);
    k
}

impl Config {
    pub open spec fn spec_config_path(&self) -> Seq<char> {
        self.config_path@
    }

    /// A configuration read from the file at `config_path`.
    pub fn from_parts(
        server: ServerConfig,
        https: HttpsConfig,
        hugo: HugoConfig,
        algolia: AlgoliaConfig,
        config_path: String,
    ) -> (r: Self)
        ensures
            r.server == server,
            r.https == https,
            r.hugo == hugo,
            r.algolia == algolia,
            r.spec_config_path() == config_path@,
    {
        Config { server, https, hugo, algolia, config_path }
    }

    /// The path of the file this configuration was read from.
    pub fn config_path(&self) -> (r: &str)
        ensures
            r@ == self.spec_config_path(),
    {
        self.config_path.as_str()
    }

    /// Resolves the certificate path against the directory of the
    /// configuration file (an absolute path stays as it is). The key path is
    /// resolved separately, once the certificate is known to exist.
    pub fn canonicalize_cert_path(&mut self)
        requires
            !has_no_parent(old(self).spec_config_path()),
        ensures
            std_path_parent(old(self).spec_config_path()) is Some,
            final(self).https.cert_path@ == joined(
                std_path_parent(old(self).spec_config_path())->0,
                old(self).https.cert_path@,
            ),
            final(self).https.key_path == old(self).https.key_path,
            final(self).server == old(self).server,
            final(self).hugo == old(self).hugo,
            final(self).algolia == old(self).algolia,
            final(self).spec_config_path() == old(self).spec_config_path(),
    {
        if let Some(dir) = parent_path(self.config_path.as_str()) {
            self.https.cert_path = join_path(dir.as_str(), self.https.cert_path.as_str());
        }
    }

    /// Resolves the key path against the directory of the configuration file
    /// (an absolute path stays as it is).
    pub fn canonicalize_key_path(&mut self)
        requires
            !has_no_parent(old(self).spec_config_path()),
        ensures
            std_path_parent(old(self).spec_config_path()) is Some,
            final(self).https.key_path@ == joined(
                std_path_parent(old(self).spec_config_path())->0,
                old(self).https.key_path@,
            ),
            final(self).https.cert_path == old(self).https.cert_path,
            final(self).server == old(self).server,
            final(self).hugo == old(self).hugo,
            final(self).algolia == old(self).algolia,
            final(self).spec_config_path() == old(self).spec_config_path(),
    {
        if let Some(dir) = parent_path(self.config_path.as_str()) {
            self.https.key_path = join_path(dir.as_str(), self.https.key_path.as_str());
        }
    }

    /// The directory the repository is cloned into: the last segment of the
    /// repository URL's path, without `.git`, inside the working directory.
    pub fn repo_dst(&self, cwd: &str) -> (r: Result<String, RepoPathError>)
        ensures
            match spec_repo_dst(self.hugo.repo_url@, cwd@) {
                Ok(p) => r matches Ok(s) && s@ == p,
                Err(e) => r matches Err(f) && f == e,
            },
    {
        match url_path(self.hugo.repo_url.as_str()) {
            Some(path) => repo_dst_for_path(path.as_str(), cwd),
            None => Err(RepoPathError::NotAUrl),
        }
    }

    /// The directory Hugo builds the site into: `public` in the repository.
    pub fn build_dst(&self, cwd: &str) -> (r: Result<String, RepoPathError>)
        ensures
            match spec_repo_dst(self.hugo.repo_url@, cwd@) {
                Ok(p) => r matches Ok(s) && s@ == joined(p, public_dir()),
                Err(e) => r matches Err(f) && f == e,
            },
    {
        let repo = self.repo_dst(cwd)?;
        proof {
            reveal_strlit("public");
            assert("public"@ =~= public_dir());
        }
        Ok(join_path(repo.as_str(), "public"))
    }

    /// The Algolia records file that Hugo writes: `algolia.json` in the
    /// build directory.
    pub fn algolia_records_file(&self, cwd: &str) -> (r: Result<String, RepoPathError>)
        ensures
            match spec_repo_dst(self.hugo.repo_url@, cwd@) {
                Ok(p) => r matches Ok(s) && s@ == joined(joined(p, public_dir()), records_file()),
                Err(e) => r matches Err(f) && f == e,
            },
    {
        let build = self.build_dst(cwd)?;
        proof {
            reveal_strlit("algolia.json");
            assert("algolia.json"@ =~= records_file());
        }
        Ok(join_path(build.as_str(), "algolia.json"))
    }
}

/// For a path that starts with a separator, the last piece of the whole path
/// and of the path without its first character agree, and the first piece of
/// the whole path is empty.
proof fn lemma_last_piece_drop_first(p: Seq<char>)
    requires
        p.len() > 0,
        p[0] == '/',
    ensures
        split_on_slash(p).last() == split_on_slash(p.drop_first()).last(),
    decreases p.len(),
{
    let d = p.drop_first();
    if p.len() == 1 {
        assert(p.drop_last() =~= Seq::<char>::empty());
        assert(d =~= Seq::<char>::empty());
    } else {
        let q = p.drop_last();
        lemma_last_piece_drop_first(q);
        assert(d.drop_last() =~= q.drop_first());
        assert(d.last() == p.last());
        crate::paths::lemma_split_nonempty(q);
        crate::paths::lemma_split_nonempty(q.drop_first());
    }
}


/// Where the search for a configuration file stands. The search starts in
/// the working directory and climbs one directory at a time until the file
/// exists.
pub enum ConfigSearch {
    /// Test whether `candidate` (the file name inside `dir`) exists.
    Probe { dir: String, candidate: String },
    /// The file was found at `path`.
    Found { path: String },
    /// No directory up to the root holds the file.
    NotFound,
}

/// The first probe: the file name inside the working directory.
pub fn config_search_start(cwd: &str, file_name: &str) -> (s: ConfigSearch)
    ensures
        s matches ConfigSearch::Probe { dir, candidate } && dir@ == cwd@ && candidate@ == joined(
            cwd@,
            file_name@,
        ),
{
    let candidate = join_path(cwd, file_name);
    ConfigSearch::Probe { dir: String::from_str(cwd), candidate }
}

/// The next step once the probe of `candidate` inside `dir` has told whether
/// the file exists: found, or a probe in the parent directory, or not found
/// when `dir` has no parent. Each new probe is one directory higher, so the
/// search ends.
pub fn config_search_step(dir: &str, candidate: &str, exists: bool, file_name: &str) -> (s:
    ConfigSearch)
    ensures
        exists ==> (s matches ConfigSearch::Found { path } && path@ == candidate@),
        !exists ==> match std_path_parent(dir@) {
            None => s is NotFound,
            Some(q) => (s matches ConfigSearch::Probe { dir: d, candidate: c } && d@ == q && c@
                == joined(q, file_name@)),
        },
        !exists ==> (s is NotFound <==> has_no_parent(dir@)),
        s matches ConfigSearch::Probe { dir: d, .. } ==> (path_components(d@).len() + 1
            == path_components(dir@).len()),
{
    if exists {
        return ConfigSearch::Found { path: String::from_str(candidate) };
    }
    match parent_path(dir) {
        None => ConfigSearch::NotFound,
        Some(up) => {
            let next = join_path(up.as_str(), file_name);
            ConfigSearch::Probe { dir: up, candidate: next }
        },
    }
}

} // verus!
