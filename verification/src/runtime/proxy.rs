//! The proxies that processes are told of.

use crate::runtime::config;
use crate::runtime::config::{ProxyChoice, ProxyView};
use crate::scan;
use crate::text;
use crate::text::{chars_of, same};
use vstd::prelude::*;

verus! {

/// The variable that names the proxy for symbol files. It holds a host and a port.
pub const SYMBOL_PROXY: &'static str = "_NT_SYMBOL_PROXY";

/// Where proxies come from.
#[derive(Debug, Clone, Copy, PartialEq, Eq, Structural)]
pub enum ProxySource {
    Unset,
    Disabled,
    Cli,
    Environment,
}

/// The host and port of an address: what stands behind its scheme and in front of its path.
pub open spec fn authority(url: Seq<char>) -> Seq<char> {
    match scan::find(url, "://"@) {
        Some(n) => scan::before(url.skip(n as int + 3), '/'),
        None => scan::before(url, '/'),
    }
}

/// Whether a variable names a proxy for connections.
pub open spec fn network_key(key: Seq<char>) -> bool {
    ||| key == "HTTP_PROXY"@
    ||| key == "HTTPS_PROXY"@
    ||| key == "ALL_PROXY"@
    ||| key == "http_proxy"@
    ||| key == "https_proxy"@
    ||| key == "all_proxy"@
}

/// The value of the first variable with a name.
pub open spec fn variable(env: Seq<(Seq<char>, Seq<char>)>, key: Seq<char>) -> Option<Seq<char>>
    decreases env.len(),
{
    if env.len() == 0 {
        None
    } else if env[0].0 == key {
        Some(env[0].1)
    } else {
        variable(env.skip(1), key)
    }
}

/// The value of the first variable that names a proxy for connections.
pub open spec fn network_proxy(env: Seq<(Seq<char>, Seq<char>)>) -> Option<Seq<char>>
    decreases env.len(),
{
    if env.len() == 0 {
        None
    } else if network_key(env[0].0) {
        Some(env[0].1)
    } else {
        network_proxy(env.skip(1))
    }
}

/// The value that a variable gets. The proxy for symbol files follows from one for connections if
/// it is not named itself.
pub open spec fn proxy_value(choice: ProxyView, key: Seq<char>) -> Option<Seq<char>> {
    match choice {
        ProxyView::Unset => None,
        ProxyView::Disabled => None,
        ProxyView::Url(url) => if key == SYMBOL_PROXY@ {
            Some(authority(url))
        } else if network_key(key) {
            Some(url)
        } else {
            None
        },
        ProxyView::Env(env) => match variable(env, key) {
            Some(value) => Some(value),
            None => if key == SYMBOL_PROXY@ {
                match network_proxy(env) {
                    Some(url) => Some(authority(url)),
                    None => None,
                }
            } else {
                None
            },
        },
    }
}

fn is_network_key(key: &str) -> (r: bool)
    ensures
        r == network_key(key@),
{
    same(key, "HTTP_PROXY") || same(key, "HTTPS_PROXY") || same(key, "ALL_PROXY") || same(
        key,
        "http_proxy",
    ) || same(key, "https_proxy") || same(key, "all_proxy")
}

fn authority_of(url: &str) -> (r: String)
    ensures
        r@ == authority(url@),
{
    proof {
        reveal_strlit("://");
    }
    let chars = chars_of(url);
    let size: usize = chars.len();
    let mark = chars_of("://");
    assert(url@.skip(0) =~= url@);
    match scan::find_from(chars.as_slice(), mark.as_slice(), 0) {
        Some(n) => {
            let rest = scan::part(chars.as_slice(), n + 3, size);
            assert(rest@ =~= url@.skip(n as int + 3));
            scan::before_char(rest.as_str(), '/')
        },
        None => scan::before_char(url, '/'),
    }
}

fn find_variable(env: &[(String, String)], key: &str) -> (r: Option<String>)
    ensures
        text::view_opt(r) == variable(config::variables_view(env@), key@),
{
    let ghost all = config::variables_view(env@);
    let mut i: usize = 0;
    assert(all.skip(0) =~= all);
    while i < env.len()
        invariant
            i <= env@.len(),
            all == config::variables_view(env@),
            variable(all, key@) == variable(all.skip(i as int), key@),
        decreases env@.len() - i,
    {
        assert(all.skip(i as int)[0] == (env@[i as int].0@, env@[i as int].1@));
        assert(all.skip(i as int).skip(1) =~= all.skip(i as int + 1));
        if same(env[i].0.as_str(), key) {
            return Some(env[i].1.clone());
        }
        i += 1;
    }
    None
}

fn find_network_proxy(env: &[(String, String)]) -> (r: Option<String>)
    ensures
        text::view_opt(r) == network_proxy(config::variables_view(env@)),
{
    let ghost all = config::variables_view(env@);
    let mut i: usize = 0;
    assert(all.skip(0) =~= all);
    while i < env.len()
        invariant
            i <= env@.len(),
            all == config::variables_view(env@),
            network_proxy(all) == network_proxy(all.skip(i as int)),
        decreases env@.len() - i,
    {
        assert(all.skip(i as int)[0] == (env@[i as int].0@, env@[i as int].1@));
        assert(all.skip(i as int).skip(1) =~= all.skip(i as int + 1));
        if is_network_key(env[i].0.as_str()) {
            return Some(env[i].1.clone());
        }
        i += 1;
    }
    None
}

impl ProxyChoice {
    /// Where the proxies come from.
    pub fn source(&self) -> (r: ProxySource)
        ensures
            r == match self@ {
                ProxyView::Unset => ProxySource::Unset,
                ProxyView::Disabled => ProxySource::Disabled,
                ProxyView::Url(_) => ProxySource::Cli,
                ProxyView::Env(_) => ProxySource::Environment,
            },
    {
        match self {
            ProxyChoice::Unset => ProxySource::Unset,
            ProxyChoice::Disabled => ProxySource::Disabled,
            ProxyChoice::Url(_) => ProxySource::Cli,
            ProxyChoice::Env(_) => ProxySource::Environment,
        }
    }

    /// The value that a variable gets.
    pub fn value_for(&self, key: &str) -> (r: Option<String>)
        ensures
            text::view_opt(r) == proxy_value(self@, key@),
    {
        match self {
            ProxyChoice::Unset => None,
            ProxyChoice::Disabled => None,
            ProxyChoice::Url(url) => if same(key, SYMBOL_PROXY) {
                Some(authority_of(url.as_str()))
            } else if is_network_key(key) {
                Some(url.clone())
            } else {
                None
            },
            ProxyChoice::Env(env) => match find_variable(env.as_slice(), key) {
                Some(value) => Some(value),
                None => if same(key, SYMBOL_PROXY) {
                    match find_network_proxy(env.as_slice()) {
                        Some(url) => Some(authority_of(url.as_str())),
                        None => None,
                    }
                } else {
                    None
                },
            },
        }
    }
}

/// The first variable with its name is found.
proof fn first_variable_is_found(env: Seq<(Seq<char>, Seq<char>)>, i: int)
    requires
        0 <= i < env.len(),
        forall|j: int| 0 <= j < i ==> (#[trigger] env[j]).0 != env[i].0,
    ensures
        variable(env, env[i].0) == Some(env[i].1),
    decreases i,
{
    if i > 0 {
        let rest = env.skip(1);
        assert(env[0].0 != env[i].0);
        assert(rest[i - 1] == env[i]);
        assert forall|j: int| 0 <= j < i - 1 implies (#[trigger] rest[j]).0 != rest[i - 1].0 by {
            assert(rest[j] == env[j + 1]);
        }
        first_variable_is_found(rest, i - 1);
    }
}

/// A variable that the configuration names gets the value that it names, whatever the others are.
pub proof fn named_variables_are_kept(env: Seq<(Seq<char>, Seq<char>)>, i: int)
    requires
        0 <= i < env.len(),
        forall|j: int| 0 <= j < i ==> (#[trigger] env[j]).0 != env[i].0,
    ensures
        proxy_value(ProxyView::Env(env), env[i].0) == Some(env[i].1),
{
    first_variable_is_found(env, i);
}

} // verus!
