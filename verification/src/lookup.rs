//! The three providers: which request each lookup kind makes of a target.

use vstd::prelude::*;
use crate::error::{ErrorView, OsintError};
use crate::fetch::{opt_text, Request, RequestView};

verus! {

/// The kinds of lookup, each served by one provider.
#[derive(Debug, Clone, Copy, PartialEq, Eq)]
pub enum LookupKind {
    /// Domain registration data.
    Whois,
    /// Device and network intelligence on a host.
    Shodan,
    /// Breaches in which an account appears.
    Hibp,
}

/// The API keys that a run is given.
#[derive(Debug, PartialEq, Eq)]
pub struct Config {
    /// Key of the device-intelligence provider; only that lookup needs it.
    pub shodan_api_key: Option<String>,
    /// Key of the summarizer service; every run needs it.
    pub openai_api_key: Option<String>,
}

/// `Config` with each key as a sequence of characters.
pub struct ConfigView {
    pub shodan_api_key: Option<Seq<char>>,
    pub openai_api_key: Option<Seq<char>>,
}

impl View for Config {
    type V = ConfigView;

    open spec fn view(&self) -> ConfigView {
        ConfigView {
            shodan_api_key: opt_text(self.shodan_api_key),
            openai_api_key: opt_text(self.openai_api_key),
        }
    }
}

/// The lookup kind that a name on the command line stands for, if any.
pub open spec fn kind_named(name: Seq<char>) -> Option<LookupKind> {
    if name == "whois"@ {
        Some(LookupKind::Whois)
    } else if name == "shodan"@ {
        Some(LookupKind::Shodan)
    } else if name == "hibp"@ {
        Some(LookupKind::Hibp)
    } else {
        None
    }
}

/// Address of the WHOIS lookup of `domain`.
pub open spec fn whois_url(domain: Seq<char>) -> Seq<char> {
    "https://api.whois.vu/?q="@ + domain
}

/// Address of the device-intelligence lookup of `ip`, with the key as a
/// query parameter.
pub open spec fn shodan_url(ip: Seq<char>, key: Seq<char>) -> Seq<char> {
    "https://api.shodan.io/shodan/host/"@ + ip + "?key="@ + key
}

/// Address of the breach lookup of `email`.
pub open spec fn hibp_url(email: Seq<char>) -> Seq<char> {
    "https://haveibeenpwned.com/api/v3/breachedaccount/"@ + email
}

/// The `User-Agent` by which this tool names itself to the breach provider.
pub open spec fn tool_agent() -> Seq<char> {
    "Rust-OSINT-Tool/1.0"@
}

/// Name of the variable that holds the device-intelligence key.
pub open spec fn shodan_key_name() -> Seq<char> {
    "SHODAN_API_KEY"@
}

/// The request of a lookup of the given kind, or why none is made. Only the
/// device-intelligence lookup needs a key, and fails without one; only the
/// breach lookup sends a `User-Agent`.
pub open spec fn request_of(kind: LookupKind, target: Seq<char>, shodan_key: Option<Seq<char>>)
    -> Result<RequestView, ErrorView> {
    match kind {
        LookupKind::Whois => Ok(RequestView { url: whois_url(target), user_agent: None }),
        LookupKind::Shodan => match shodan_key {
            Some(key) => Ok(RequestView { url: shodan_url(target, key), user_agent: None }),
            None => Err(ErrorView::MissingApiKey(shodan_key_name())),
        },
        LookupKind::Hibp => Ok(
            RequestView { url: hibp_url(target), user_agent: Some(tool_agent()) },
        ),
    }
}

/// The request that a kind's name and a target lead to: a name that stands
/// for no kind is an `InvalidType`.
pub open spec fn planned(kind: Seq<char>, target: Seq<char>, shodan_key: Option<Seq<char>>)
    -> Result<RequestView, ErrorView> {
    match kind_named(kind) {
        Some(k) => request_of(k, target, shodan_key),
        None => Err(ErrorView::InvalidType),
    }
}

/// The view of a request that may have been refused.
pub open spec fn plan_view(plan: Result<Request, OsintError>) -> Result<RequestView, ErrorView> {
    match plan {
        Ok(request) => Ok(request@),
        Err(error) => Err(error@),
    }
}

/// The characters of an optional borrowed text.
pub open spec fn opt_str_text(text: Option<&str>) -> Option<Seq<char>> {
    match text {
        Some(t) => Some(t@),
        None => None,
    }
}

impl LookupKind {
    /// Reads a lookup kind from its name: `whois`, `shodan` or `hibp`.
    pub fn from_name(name: &str) -> (kind: Option<LookupKind>)
        ensures
            kind == kind_named(name@),
    {
        let name: String = name.to_owned();
        if name == "whois".to_owned() {
            Some(LookupKind::Whois)
        } else if name == "shodan".to_owned() {
            Some(LookupKind::Shodan)
        } else if name == "hibp".to_owned() {
            Some(LookupKind::Hibp)
        } else {
            None
        }
    }
}

/// The WHOIS request for `domain`: no key, no `User-Agent`.
pub fn whois_request(domain: &str) -> (r: Request)
    ensures
        r@ == (RequestView { url: whois_url(domain@), user_agent: None }),
{
    Request { url: String::from_str("https://api.whois.vu/?q=").concat(domain), user_agent: None }
}

/// The device-intelligence request for `ip`. Without a key there is none,
/// and the error names the variable that should hold it.
pub fn shodan_request(ip: &str, api_key: Option<&str>) -> (r: Result<Request, OsintError>)
    ensures
        plan_view(r) == request_of(LookupKind::Shodan, ip@, opt_str_text(api_key)),
        r is Ok <==> api_key is Some,
{
    match api_key {
        Some(key) => {
            let url: String = String::from_str("https://api.shodan.io/shodan/host/").concat(
                ip,
            ).concat("?key=").concat(key);
            Ok(Request { url, user_agent: None })
        },
        None => Err(OsintError::MissingApiKey(String::from_str("SHODAN_API_KEY"))),
    }
}

/// The breach request for `email`, under this tool's `User-Agent`.
pub fn hibp_request(email: &str) -> (r: Request)
    ensures
        r@ == (RequestView { url: hibp_url(email@), user_agent: Some(tool_agent()) }),
{
    Request {
        url: String::from_str("https://haveibeenpwned.com/api/v3/breachedaccount/").concat(email),
        user_agent: Some(String::from_str("Rust-OSINT-Tool/1.0")),
    }
}

/// Chooses the provider by the kind's name and builds its request. The
/// result is `InvalidType` exactly when the name stands for no kind, and
/// `MissingApiKey` exactly when the kind is `shodan` and no key is given;
/// in both cases no request exists that anyone could send.
pub fn dispatch(kind: &str, target: &str, shodan_key: Option<&str>) -> (r: Result<
    Request,
    OsintError,
>)
    ensures
        plan_view(r) == planned(kind@, target@, opt_str_text(shodan_key)),
        r == Err::<Request, OsintError>(OsintError::InvalidType) <==> kind_named(kind@) is None,
        r matches Err(OsintError::MissingApiKey(_)) <==> kind_named(kind@) == Some(
            LookupKind::Shodan,
        ) && shodan_key is None,
        r is Ok <==> !(kind_named(kind@) is None) && !(kind_named(kind@) == Some(
            LookupKind::Shodan,
        ) && shodan_key is None),
{
    match LookupKind::from_name(kind) {
        Some(LookupKind::Whois) => Ok(whois_request(target)),
        Some(LookupKind::Shodan) => shodan_request(target, shodan_key),
        Some(LookupKind::Hibp) => Ok(hibp_request(target)),
        None => Err(OsintError::InvalidType),
    }
}

} // verus!
