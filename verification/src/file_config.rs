//! The upload file server's configuration.

use vstd::prelude::*;

use crate::paths::{has_no_parent, join_path, joined, parent_path, std_path_parent};
use crate::text::chars_of;
use vstd::string::StrSliceExecFns;

verus! {

/// Where the file server listens, and the public URL it is reached at (as
/// the URL parser serialised it).
pub struct ServerConfig {
    pub url: String,
    pub host: [u8; 4],
    pub port: u16,
}

/// The certificate and key files of the HTTPS listener.
pub struct HttpsConfig {
    pub cert_path: String,
    pub key_path: String,
}

/// The file server's configuration file, with the path it was read from.
pub struct Config {
    pub server: ServerConfig,
    pub https: HttpsConfig,
    pub config_path: String,
}

/// `s` without its trailing `/` characters.
pub open spec fn trim_trailing_slashes(s: Seq<char>) -> Seq<char>
    decreases s.len(),
{
    if s.len() > 0 && s.last() == '/' {
        trim_trailing_slashes(s.drop_last())
    } else {
        s
    }
}

impl Config {
    /// A configuration read from the file at `config_path`.
    pub fn from_parts(server: ServerConfig, https: HttpsConfig, config_path: String) -> (r: Self)
        ensures
            r.server == server,
            r.https == https,
            r.config_path == config_path,
    {
        Config { server, https, config_path }
    }

    /// Resolves the certificate path against the directory of the
    /// configuration file (an absolute path stays as it is). The key path is
    /// resolved separately, once the certificate is known to exist.
    pub fn canonicalize_cert_path(&mut self)
        requires
            !has_no_parent(old(self).config_path@),
        ensures
            std_path_parent(old(self).config_path@) is Some,
            final(self).https.cert_path@ == joined(
                std_path_parent(old(self).config_path@)->0,
                old(self).https.cert_path@,
            ),
            final(self).https.key_path == old(self).https.key_path,
            final(self).server == old(self).server,
            final(self).config_path == old(self).config_path,
    {
        if let Some(dir) = parent_path(self.config_path.as_str()) {
            self.https.cert_path = join_path(dir.as_str(), self.https.cert_path.as_str());
        }
    }

    /// Resolves the key path against the directory of the configuration file
    /// (an absolute path stays as it is).
    pub fn canonicalize_key_path(&mut self)
        requires
            !has_no_parent(old(self).config_path@),
        ensures
            std_path_parent(old(self).config_path@) is Some,
            final(self).https.key_path@ == joined(
                std_path_parent(old(self).config_path@)->0,
                old(self).https.key_path@,
            ),
            final(self).https.cert_path == old(self).https.cert_path,
            final(self).server == old(self).server,
            final(self).config_path == old(self).config_path,
    {
        if let Some(dir) = parent_path(self.config_path.as_str()) {
            self.https.key_path = join_path(dir.as_str(), self.https.key_path.as_str());
        }
    }

    /// The origin that cross-site request checks trust: the server's URL
    /// without trailing `/`.
    pub fn trusted_origin(&self) -> (r: String)
        ensures
            r@ == trim_trailing_slashes(self.server.url@),
    {
        trim_trailing_slashes_of(self.server.url.as_str())
    }
}

/// `s` without its trailing `/` characters.
pub fn trim_trailing_slashes_of(s: &str) -> (r: String)
    ensures
        r@ == trim_trailing_slashes(s@),
{
    let cs = chars_of(s);
    let mut end = cs.len();
    assert(cs@.take(end as int) =~= cs@);
    while end > 0 && cs[end - 1] == '/'
        invariant
            end <= cs@.len(),
            trim_trailing_slashes(cs@) == trim_trailing_slashes(cs@.take(end as int)),
        decreases end,
    {
        proof {
            assert(cs@.take(end as int).drop_last() =~= cs@.take(end - 1));
        }
        end = end - 1;
    }
    proof {
        assert(cs@.subrange(0, end as int) =~= cs@.take(end as int));
    }
    String::from_str(s.substring_char(0, end))
}

} // verus!
