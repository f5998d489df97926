//! Connection settings and the resolution of home-relative paths.
use vstd::prelude::*;
use vstd::string::{StrSliceExecFns, StringExecFns};

verus! {

/// SSH target of the tunnel.
pub struct SshConfig {
    pub host: String,
    pub user: String,
    pub port: u16,
    /// Private key file; a leading `~/` stands for the home directory.
    pub key_path: Option<String>,
}

/// Cluster API settings.
pub struct KubernetesConfig {
    pub kubeconfig: String,
    /// Port of the API server on the remote host.
    pub api_port: u16,
    /// Local end of the forward.
    pub local_port: u16,
}

pub struct Config {
    pub ssh: SshConfig,
    pub kubernetes: KubernetesConfig,
}

pub fn default_ssh_port() -> (r: u16)
    ensures
        r == 22,
{
    22
}

pub fn default_api_port() -> (r: u16)
    ensures
        r == 6443,
{
    6443
}

pub fn default_local_port() -> (r: u16)
    ensures
        r == 16443,
{
    16443
}

/// What `base` joined with `rest` reads as, as `std::path::Path::join` makes it.
pub uninterp spec fn path_joined(base: Seq<char>, rest: Seq<char>) -> Seq<char>;

/// Relies on `std::path::Path::join`: the result depends on its two
/// arguments alone, and on valid UTF-8 input it converts back losslessly.
#[verifier::external_body]
pub(crate) fn join_path(base: &str, rest: &str) -> (r: String)
    ensures
        r@ == path_joined(base@, rest@),
{
    std::path::Path::new(base).join(rest).to_string_lossy().into_owned()
}

/// Relies on `dirs::home_dir`: the home directory of the current user, if
/// the environment gives one.
#[verifier::external_body]
pub(crate) fn home_dir() -> (r: Option<String>) {
    dirs::home_dir().map(|h| h.to_string_lossy().into_owned())
}

/// `s` starts with `~/`.
pub open spec fn home_relative(s: Seq<char>) -> bool {
    s.len() >= 2 && s[0] == '~' && s[1] == '/'
}

/// `s` with a leading `~/` read against `home`, when there is one.
pub open spec fn expanded(s: Seq<char>, home: Option<Seq<char>>) -> Seq<char> {
    if home_relative(s) && home.is_some() {
        path_joined(home.unwrap(), s.subrange(2, s.len() as int))
    } else {
        s
    }
}

/// A kubeconfig location: home-relative when it starts with `~/` and a home
/// is known, as given when absolute, else relative to `base`.
pub open spec fn resolved(s: Seq<char>, home: Option<Seq<char>>, base: Seq<char>) -> Seq<char> {
    if home_relative(s) && home.is_some() {
        path_joined(home.unwrap(), s.subrange(2, s.len() as int))
    } else if s.len() > 0 && s[0] == '/' {
        s
    } else {
        path_joined(base, s)
    }
}

pub open spec fn opt_view(o: Option<String>) -> Option<Seq<char>> {
    match o {
        Some(s) => Some(s@),
        None => None,
    }
}

fn is_home_relative(s: &str) -> (r: bool)
    ensures
        r == home_relative(s@),
{
    let n = s.unicode_len();
    n >= 2 && s.get_char(0) == '~' && s.get_char(1) == '/'
}

/// Expands a leading `~/` of `s` against `home`.
pub fn expand_home(s: &str, home: &Option<String>) -> (r: String)
    ensures
        r@ == expanded(s@, opt_view(*home)),
{
    if is_home_relative(s) {
        if let Some(h) = home {
            let n = s.unicode_len();
            let rest = s.substring_char(2, n);
            return join_path(h.as_str(), rest);
        }
    }
    String::from_str(s)
}

/// Resolves a kubeconfig location against `home` and `base`.
pub fn resolve_path(s: &str, home: &Option<String>, base: &str) -> (r: String)
    ensures
        r@ == resolved(s@, opt_view(*home), base@),
{
    if is_home_relative(s) && home.is_some() {
        return expand_home(s, home);
    }
    let n = s.unicode_len();
    if n > 0 && s.get_char(0) == '/' {
        String::from_str(s)
    } else {
        join_path(base, s)
    }
}

impl Config {
    /// The kubeconfig file: `~/` is read against the user's home directory,
    /// an absolute path stands as given, any other is relative to `base`.
    pub fn kubeconfig_path(&self, base: &str) -> (r: String)
        ensures
            exists|home: Option<Seq<char>>| r@ == #[trigger] resolved(self.kubernetes.kubeconfig@, home, base@),
    {
        let home = home_dir();
        let r = resolve_path(self.kubernetes.kubeconfig.as_str(), &home, base);
        assert(r@ == resolved(self.kubernetes.kubeconfig@, opt_view(home), base@));
        r
    }
}

} // verus!
