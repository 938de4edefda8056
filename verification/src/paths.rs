//! Validation of the credential-file path field, and the
//! network-specific defaults for both fields of the node-connection
//! step.

use vstd::prelude::*;
use vstd::string::StringExecFns;

use crate::context::Network;

verus! {

/// A credential-file path as the node step accepts it: non-empty, and
/// free of the characters no cookie file path contains (`:` and NUL).
pub open spec fn valid_cookie_path(s: Seq<char>) -> bool {
    s.len() > 0 && (forall|i: int|
        0 <= i < s.len() ==> #[trigger] s[i] != ':' && s[i] != '\u{0}')
}

/// Whether the path field holds a well-formed credential-file path.
pub fn is_valid_cookie_path(s: &str) -> (r: bool)
    ensures
        r == valid_cookie_path(s@),
{
    let n = s.unicode_len();
    if n == 0 {
        return false;
    }
    let mut i: usize = 0;
    while i < n
        invariant
            n == s@.len(),
            0 <= i <= n,
            forall|j: int| 0 <= j < i ==> #[trigger] s@[j] != ':' && s@[j] != '\u{0}',
        decreases n - i,
    {
        let c = s.get_char(i);
        if c == ':' || c == '\u{0}' {
            return false;
        }
        i = i + 1;
    }
    true
}

/// Path from the home directory down to the network's cookie file,
/// following the data-directory convention of bitcoind.
pub open spec fn spec_cookie_subpath(network: Network) -> Seq<char> {
    match network {
        Network::Mainnet => "/.bitcoin/.cookie"@,
        Network::Testnet => "/.bitcoin/testnet3/.cookie"@,
        Network::Regtest => "/.bitcoin/regtest/.cookie"@,
        Network::Signet => "/.bitcoin/signet/.cookie"@,
    }
}

/// Default credential-file path: the home directory joined with the
/// network's cookie subpath.
pub open spec fn spec_default_cookie_path(home: Seq<char>, network: Network) -> Seq<char> {
    home + spec_cookie_subpath(network)
}

/// Default node address for each network: localhost with the network's
/// conventional RPC port.
pub open spec fn spec_default_address(network: Network) -> Seq<char> {
    match network {
        Network::Mainnet => "127.0.0.1:8332"@,
        Network::Testnet => "127.0.0.1:18332"@,
        Network::Regtest => "127.0.0.1:18443"@,
        Network::Signet => "127.0.0.1:38332"@,
    }
}

/// Default credential-file path under the given home directory.
pub fn cookie_path_for(home: &str, network: Network) -> (r: String)
    ensures
        r@ == spec_default_cookie_path(home@, network),
{
    let mut out = String::from_str(home);
    match network {
        Network::Mainnet => out.append("/.bitcoin/.cookie"),
        Network::Testnet => out.append("/.bitcoin/testnet3/.cookie"),
        Network::Regtest => out.append("/.bitcoin/regtest/.cookie"),
        Network::Signet => out.append("/.bitcoin/signet/.cookie"),
    }
    out
}

/// Default node address for the given network.
pub fn bitcoind_default_address(network: Network) -> (r: String)
    ensures
        r@ == spec_default_address(network),
{
    match network {
        Network::Mainnet => String::from_str("127.0.0.1:8332"),
        Network::Testnet => String::from_str("127.0.0.1:18332"),
        Network::Regtest => String::from_str("127.0.0.1:18443"),
        Network::Signet => String::from_str("127.0.0.1:38332"),
    }
}

/// Relies on dirs::home_dir: the home directory of the current user,
/// if the platform reports one. The result depends on the environment,
/// so nothing is assumed of it.
#[verifier::external_body]
fn home_dir_string() -> (r: Option<String>) {
    dirs::home_dir().and_then(|p| p.to_str().map(|s| s.to_string()))
}

/// Default credential-file path for `network`: the platform's home
/// directory joined with the network's cookie subpath, or `None` when
/// the platform reports no usable home directory.
pub fn bitcoind_default_cookie_path(network: Network) -> (r: Option<String>)
    ensures
        match r {
            Some(p) => exists|h: Seq<char>| p@ == spec_default_cookie_path(h, network),
            None => true,
        },
{
    match home_dir_string() {
        Some(h) => {
            let p = cookie_path_for(h.as_str(), network);
            proof {
                assert(p@ == spec_default_cookie_path(h@, network));
            }
            Some(p)
        },
        None => None,
    }
}

} // verus!
