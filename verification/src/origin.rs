//! Which requests are let in: those whose host is this machine or configured,
//! and whose origin, where they name one, is the server itself or configured.
use crate::codec::{origin_text, read_url, url_parts, write_origin, UrlModel};
use crate::semantic::{has_text, texts};
use crate::session_update::optional_text;
use crate::text::{characters, join2, join3, same_text};
use vstd::prelude::*;
use vstd::string::*;

verus! {

/// Whether a URL is nothing but an origin of the web: a scheme and a host,
/// perhaps with a port.
pub open spec fn is_bare(url: UrlModel) -> bool {
    &&& url.scheme == "http"@ || url.scheme == "https"@
    &&& url.host is Some
    &&& url.username.len() == 0
    &&& url.password is None
    &&& url.path == "/"@
    &&& url.query is None
    &&& url.fragment is None
}

/// The form in which origins are compared.
pub open spec fn normal_origin(text: Seq<char>) -> Option<Seq<char>> {
    match url_parts(text) {
        Some(url) => if is_bare(url) {
            Some(origin_text(text))
        } else {
            None
        },
        None => None,
    }
}

/// The form in which origins are compared, or nothing where a text is no
/// origin of the web.
pub fn normalize_origin(text: &str) -> (origin: Option<String>)
    ensures
        match origin {
            Some(origin) => normal_origin(text@) == Some(origin@),
            None => normal_origin(text@) is None,
        },
{
    match read_url(text) {
        Some(url) => {
            if (same_text(url.scheme.as_str(), "http") || same_text(url.scheme.as_str(), "https"))
                && url.host.is_some() && url.username.as_str().is_empty() && url.password.is_none()
                && same_text(url.path.as_str(), "/") && url.query.is_none()
                && url.fragment.is_none() {
                Some(write_origin(text))
            } else {
                None
            }
        },
        None => None,
    }
}

/// Whether an origin names this machine directly: by an address or as
/// `localhost`.
pub open spec fn is_direct(origin: Seq<char>) -> bool {
    url_parts(origin) matches Some(url) && url.host is Some && (url.domain is None || url.domain
        == Some("localhost"@))
}

fn names_this_machine(origin: &str) -> (direct: bool)
    ensures
        direct == is_direct(origin@),
{
    match read_url(origin) {
        Some(url) => url.host.is_some() && match url.domain {
            Some(domain) => same_text(domain.as_str(), "localhost"),
            None => true,
        },
        None => false,
    }
}

/// Where the first `://` of a text stands; the length of the text where there
/// is none.
pub open spec fn scheme_end(text: Seq<char>) -> nat
    decreases text.len(),
{
    if text.len() == 0 {
        0
    } else if text.len() >= 3 && text[0] == ':' && text[1] == '/' && text[2] == '/' {
        0
    } else {
        1 + scheme_end(text.drop_first())
    }
}

/// The scheme of an origin, where it has one.
pub open spec fn scheme_of(origin: Seq<char>) -> Option<Seq<char>> {
    if scheme_end(origin) < origin.len() {
        Some(origin.take(scheme_end(origin) as int))
    } else {
        None
    }
}

fn read_scheme(origin: &str) -> (scheme: Option<&str>)
    ensures
        match scheme {
            Some(scheme) => scheme_of(origin@) == Some(scheme@),
            None => scheme_of(origin@) is None,
        },
{
    let chars = characters(origin);
    let mut i: usize = 0;
    assert(chars@.skip(0) =~= chars@);
    while i < chars.len()
        invariant
            i <= chars@.len(),
            chars@ == origin@,
            scheme_end(chars@) == i + scheme_end(chars@.skip(i as int)),
        decreases chars.len() - i,
    {
        let ghost rest = chars@.skip(i as int);
        if chars.len() - i >= 3 && chars[i] == ':' && chars[i + 1] == '/' && chars[i + 2] == '/' {
            assert(rest[0] == ':' && rest[1] == '/' && rest[2] == '/');
            assert(origin@.subrange(0, i as int) =~= origin@.take(i as int));
            return Some(origin.substring_char(0, i));
        }
        assert(rest.drop_first() =~= chars@.skip(i + 1));
        i += 1;
    }
    None
}

/// Whether one of some origins is the given host under the scheme of that
/// origin.
pub open spec fn is_configured(allowed: Seq<Seq<char>>, host: Seq<char>) -> bool {
    exists|i: int| 0 <= i < allowed.len() && #[trigger] names_host(allowed[i], host)
}

/// Whether an origin is the given host under its own scheme.
pub open spec fn names_host(origin: Seq<char>, host: Seq<char>) -> bool {
    scheme_of(origin) matches Some(scheme) && normal_origin(scheme + "://"@ + host) == Some(origin)
}

/// The values of a header; a value that is no text is missing.
pub open spec fn header_values(values: Seq<Option<String>>) -> Seq<Option<Seq<char>>> {
    Seq::new(values.len(), |i: int| optional_text(values[i]))
}

/// The host that a request names: its one host header, or without such a
/// header the authority that it was sent to.
pub open spec fn named_host(
    hosts: Seq<Option<Seq<char>>>,
    authority: Option<Seq<char>>,
) -> Option<Seq<char>> {
    if hosts.len() == 0 {
        authority
    } else if hosts.len() == 1 {
        hosts[0]
    } else {
        None
    }
}

/// Whether a request is let in.
pub open spec fn is_allowed(
    allowed: Seq<Seq<char>>,
    hosts: Seq<Option<Seq<char>>>,
    authority: Option<Seq<char>>,
    origins: Seq<Option<Seq<char>>>,
) -> bool {
    match named_host(hosts, authority) {
        None => false,
        Some(host) => match normal_origin("http://"@ + host) {
            None => false,
            Some(own) => if !is_direct(own) && !is_configured(allowed, host) {
                false
            } else if origins.len() == 0 {
                true
            } else if origins.len() > 1 || origins[0] is None {
                false
            } else {
                match normal_origin(origins[0]->0) {
                    None => false,
                    Some(origin) => (is_direct(own) && origin == own) || allowed.contains(origin),
                }
            },
        },
    }
}

/// The origins that a server is configured to serve besides itself.
#[derive(Debug)]
pub struct OriginPolicy {
    pub allowed_origins: Vec<String>,
}

impl OriginPolicy {
    fn is_host_configured(&self, host: &str) -> (configured: bool)
        ensures
            configured == is_configured(texts(self.allowed_origins@), host@),
    {
        let ghost allowed = texts(self.allowed_origins@);
        let mut i: usize = 0;
        while i < self.allowed_origins.len()
            invariant
                i <= self.allowed_origins@.len(),
                allowed == texts(self.allowed_origins@),
                forall|j: int| 0 <= j < i ==> !#[trigger] names_host(allowed[j], host@),
            decreases self.allowed_origins.len() - i,
        {
            let origin = self.allowed_origins[i].as_str();
            assert(allowed[i as int] == origin@);
            match read_scheme(origin) {
                Some(scheme) => {
                    let text = join3(scheme, "://", host);
                    match normalize_origin(text.as_str()) {
                        Some(normal) => {
                            if same_text(normal.as_str(), origin) {
                                assert(names_host(allowed[i as int], host@));
                                return true;
                            }
                        },
                        None => {},
                    }
                },
                None => {},
            }
            i += 1;
        }
        false
    }

    /// Whether a request is let in, by its host headers, the authority that it
    /// was sent to, and its origin headers. Every configured origin has a
    /// scheme.
    pub fn allows(
        &self,
        hosts: &Vec<Option<String>>,
        authority: Option<&str>,
        origins: &Vec<Option<String>>,
    ) -> (allowed: bool)
        requires
            forall|i: int|
                0 <= i < self.allowed_origins@.len() ==> scheme_of(
                    (#[trigger] self.allowed_origins@[i])@,
                ) is Some,
        ensures
            allowed == is_allowed(
                texts(self.allowed_origins@),
                header_values(hosts@),
                match authority {
                    Some(authority) => Some(authority@),
                    None => None,
                },
                header_values(origins@),
            ),
    {
        let host: &str = if hosts.len() == 0 {
            match authority {
                Some(authority) => authority,
                None => {
                    return false;
                },
            }
        } else if hosts.len() == 1 {
            assert(header_values(hosts@)[0] == optional_text(hosts@[0]));
            match &hosts[0] {
                Some(host) => host.as_str(),
                None => {
                    return false;
                },
            }
        } else {
            return false;
        };
        let text = join2("http://", host);
        let own = match normalize_origin(text.as_str()) {
            Some(own) => own,
            None => {
                return false;
            },
        };
        let direct = names_this_machine(own.as_str());
        if !direct && !self.is_host_configured(host) {
            return false;
        }
        if origins.len() == 0 {
            return true;
        }
        if origins.len() > 1 {
            return false;
        }
        assert(header_values(origins@)[0] == optional_text(origins@[0]));
        match &origins[0] {
            Some(origin) => match normalize_origin(origin.as_str()) {
                Some(origin) => (direct && same_text(origin.as_str(), own.as_str())) || has_text(
                    &self.allowed_origins,
                    origin.as_str(),
                ),
                None => false,
            },
            None => false,
        }
    }
}

/// A request that names no host, or more than one, is not let in.
pub proof fn law_ambiguous_host_is_refused(
    allowed: Seq<Seq<char>>,
    hosts: Seq<Option<Seq<char>>>,
    authority: Option<Seq<char>>,
    origins: Seq<Option<Seq<char>>>,
)
    requires
        hosts.len() > 1 || (hosts.len() == 0 && authority is None),
    ensures
        !is_allowed(allowed, hosts, authority, origins),
{
}

/// A request with an origin is let in only where the origin is configured, or
/// is the very one of a server on this machine.
pub proof fn law_foreign_origin_is_refused(
    allowed: Seq<Seq<char>>,
    hosts: Seq<Option<Seq<char>>>,
    authority: Option<Seq<char>>,
    origins: Seq<Option<Seq<char>>>,
)
    requires
        is_allowed(allowed, hosts, authority, origins),
        origins.len() > 0,
    ensures
        origins.len() == 1,
        origins[0] matches Some(text) && (normal_origin(text) matches Some(origin)
            && (allowed.contains(origin) || (is_direct(origin) && (named_host(
            hosts,
            authority,
        ) matches Some(host) && normal_origin("http://"@ + host) == Some(origin))))),
{
}

} // verus!
