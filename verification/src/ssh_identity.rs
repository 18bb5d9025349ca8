//! SSH identity resolution: given the contents of the user's SSH client
//! configuration and the bare hostname from a remote URL, find the private
//! key to authenticate a fetch with. A host block with an explicit
//! identity-file directive wins; everything else falls back to the fixed
//! default identity under the user's home directory. The identity is
//! resolved once per fetch attempt and captured by value, so repeated
//! authentication callbacks during one fetch stay deterministic and
//! side-effect-free.

use vstd::prelude::*;

verus! {

/// A resolved SSH credential: a private key path and an optional
/// passphrase. Transient: resolved per fetch attempt, never cached across
/// repositories.
#[derive(Clone, Debug)]
pub struct SshIdentity {
    pub key_path: String,
    pub passphrase: Option<String>,
}

/// What querying the SSH configuration produced: the configuration did not
/// parse under strict rules, or it parsed and the matching host blocks
/// held these identity-file entries (a path is `None` when it is not valid
/// text).
#[derive(Clone, Debug)]
pub enum SshQueryOutcome {
    Unparsed,
    Parsed { identity_files: Option<Vec<Option<String>>> },
}

/// Relies on ssh2_config::SshConfig::default, SshConfig::parse (strict
/// rules) and SshConfig::query: parses the configuration from the given
/// bytes and merges the host blocks matching `host` into one set of
/// parameters, of which only the identity-file entries are kept here.
/// The parser may expand `~` and relative paths against the machine's own
/// home directory, so nothing is promised of the outcome.
#[verifier::external_body]
fn query_identity_files(content: &Vec<u8>, host: &String) -> SshQueryOutcome {
    let mut reader = content.as_slice();
    match ssh2_config::SshConfig::default().parse(&mut reader, ssh2_config::ParseRule::STRICT) {
        Ok(config) => {
            let params = config.query(host.as_str());
            SshQueryOutcome::Parsed {
                identity_files: params.identity_file.map(
                    |files| files.iter().map(|p| p.to_str().map(|s| s.to_string())).collect(),
                ),
            }
        },
        Err(_) => SshQueryOutcome::Unparsed,
    }
}

/// The query produced an explicit, text identity-file entry.
pub open spec fn spec_has_explicit_identity(files: Option<Vec<Option<String>>>) -> bool {
    files matches Some(fs) && fs@.len() > 0 && fs@[0] is Some
}

/// The resolved key path: the first explicit identity-file entry when one
/// exists, else the fixed default identity under the home directory.
pub open spec fn spec_identity_path(files: Option<Vec<Option<String>>>, home: Seq<char>) -> Seq<
    char,
> {
    if spec_has_explicit_identity(files) {
        files->0@[0]->0@
    } else {
        home + "/.ssh/id_rsa"@
    }
}

/// Pick the private key path from the identity-file entries the
/// configuration query produced, falling back to `<home>/.ssh/id_rsa`.
pub fn resolve_identity_path(identity_files: &Option<Vec<Option<String>>>, home: &String) -> (r:
    String)
    ensures
        r@ == spec_identity_path(*identity_files, home@),
{
    match identity_files {
        Some(files) => {
            if files.len() > 0 {
                match &files[0] {
                    Some(path) => {
                        return path.clone();
                    },
                    None => {},
                }
            }
        },
        None => {},
    }
    let mut r = home.clone();
    r.append("/.ssh/id_rsa");
    r
}

/// The passphrase offered with the key: absent when the configured fetch
/// password is empty.
pub fn resolve_passphrase(fetch_password: &String) -> (r: Option<String>)
    ensures
        r is Some <==> fetch_password@.len() > 0,
        r matches Some(p) ==> p@ == fetch_password@,
{
    if fetch_password.as_str().is_empty() {
        None
    } else {
        Some(fetch_password.clone())
    }
}

/// Resolve the SSH identity for one fetch attempt from the injected
/// configuration contents. An absent configuration, one that does not
/// parse, and one without a matching identity-file directive all fall back
/// to the fixed default identity path.
pub fn resolve_ssh_identity(
    config_content: &Option<Vec<u8>>,
    host: &String,
    home: &String,
    fetch_password: &String,
) -> (r: SshIdentity)
    ensures
        config_content is None ==> r.key_path@ == home@ + "/.ssh/id_rsa"@,
        r.passphrase is Some <==> fetch_password@.len() > 0,
        r.passphrase matches Some(p) ==> p@ == fetch_password@,
{
    let identity_files: Option<Vec<Option<String>>> = match config_content {
        Some(content) => match query_identity_files(content, host) {
            SshQueryOutcome::Parsed { identity_files } => identity_files,
            SshQueryOutcome::Unparsed => None,
        },
        None => None,
    };
    let key_path = resolve_identity_path(&identity_files, home);
    let passphrase = resolve_passphrase(fetch_password);
    SshIdentity { key_path, passphrase }
}

} // verus!
