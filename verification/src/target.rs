//! Where a request goes: the host, the port and the path that its URL
//! names.

use crate::decimal::{decimal_text, write_unsigned};
use vstd::prelude::*;
use vstd::string::StringExecFns;

verus! {

/// The components of a URL that the client reads.
#[derive(Debug)]
pub struct UrlParts {
    pub scheme: String,
    pub host: Option<String>,
    pub port: Option<u16>,
    pub path: String,
    pub query: Option<String>,
}

/// `UrlParts` as plain values.
pub struct UrlPartsView {
    pub scheme: Seq<char>,
    pub host: Option<Seq<char>>,
    pub port: Option<u16>,
    pub path: Seq<char>,
    pub query: Option<Seq<char>>,
}

impl View for UrlParts {
    type V = UrlPartsView;

    open spec fn view(&self) -> UrlPartsView {
        UrlPartsView {
            scheme: self.scheme@,
            host: match self.host {
                Some(h) => Some(h@),
                None => None,
            },
            port: self.port,
            path: self.path@,
            query: match self.query {
                Some(q) => Some(q@),
                None => None,
            },
        }
    }
}

/// The endpoint and the path that a request is sent to.
#[derive(Debug)]
pub struct Target {
    pub host: String,
    pub port: u16,
    /// Whether the URL asks for the encrypted scheme.
    pub secure: bool,
    /// The path, with the query after a question mark where there is one.
    pub path: String,
}

/// A `Target` as plain values.
pub struct TargetView {
    pub host: Seq<char>,
    pub port: u16,
    pub secure: bool,
    pub path: Seq<char>,
}

impl View for Target {
    type V = TargetView;

    open spec fn view(&self) -> TargetView {
        TargetView { host: self.host@, port: self.port, secure: self.secure, path: self.path@ }
    }
}

/// What `url::Url::parse` makes of a text: the components of the URL, or
/// the message of the error.
pub uninterp spec fn url_parts(text: Seq<char>) -> Result<UrlPartsView, Seq<char>>;

/// The target that the components of a URL name. A URL without a host goes
/// to `localhost`; one without a port to 443 if its scheme is `https`, and
/// to 80 otherwise. An empty query is left out of the path.
pub open spec fn resolved(parts: UrlPartsView) -> TargetView {
    let secure = parts.scheme == "https"@;
    TargetView {
        host: match parts.host {
            Some(h) => h,
            None => "localhost"@,
        },
        port: match parts.port {
            Some(p) => p,
            None => if secure {
                443
            } else {
                80
            },
        },
        secure,
        path: match parts.query {
            Some(q) => if q.len() == 0 {
                parts.path
            } else {
                parts.path + "?"@ + q
            },
            None => parts.path,
        },
    }
}

/// The target of a URL, or the message of the error that reading the URL
/// gave.
pub open spec fn located(text: Seq<char>) -> Result<TargetView, Seq<char>> {
    match url_parts(text) {
        Ok(parts) => Ok(resolved(parts)),
        Err(message) => Err(message),
    }
}

/// The address of a target: the host, a colon, and the port in decimal.
pub open spec fn address(target: TargetView) -> Seq<char> {
    target.host + ":"@ + decimal_text(target.port as nat)
}

/// Calls `url::Url::parse` and hands out the scheme, the host, the port,
/// the path and the query of the URL it returns, each as that URL's
/// accessor of the same name gives it; of an error, its message. The
/// result depends on the text alone.
#[verifier::external_body]
fn split_url(text: &str) -> (r: Result<UrlParts, String>)
    ensures
        match r {
            Ok(parts) => url_parts(text@) == Ok::<UrlPartsView, Seq<char>>(parts@),
            Err(message) => url_parts(text@) == Err::<UrlPartsView, Seq<char>>(message@),
        },
{
    match url::Url::parse(text) {
        Ok(u) => Ok(
            UrlParts {
                scheme: u.scheme().to_string(),
                host: u.host_str().map(String::from),
                port: u.port(),
                path: u.path().to_string(),
                query: u.query().map(String::from),
            },
        ),
        Err(e) => Err(e.to_string()),
    }
}

/// Names the target of a URL from its components.
pub fn resolve(parts: UrlParts) -> (r: Target)
    ensures
        r@ == resolved(parts@),
{
    let secure = parts.scheme == String::from_str("https");
    let host = match parts.host {
        Some(h) => h,
        None => String::from_str("localhost"),
    };
    let port: u16 = match parts.port {
        Some(p) => p,
        None => if secure {
            443
        } else {
            80
        },
    };
    let mut path = parts.path;
    match parts.query {
        Some(q) => {
            if !q.as_str().is_empty() {
                path.append("?");
                path.append(q.as_str());
            }
        },
        None => {},
    }
    Target { host, port, secure, path }
}

/// Reads a URL and names its target; on a URL that cannot be read, gives
/// the message of the error.
pub fn locate(url: &str) -> (r: Result<Target, String>)
    ensures
        match r {
            Ok(target) => located(url@) == Ok::<TargetView, Seq<char>>(target@),
            Err(message) => located(url@) == Err::<TargetView, Seq<char>>(message@),
        },
{
    match split_url(url) {
        Ok(parts) => Ok(resolve(parts)),
        Err(message) => Err(message),
    }
}

/// Writes the address of a target.
pub fn write_address(target: &Target) -> (r: String)
    ensures
        r@ == address(target@),
{
    let mut text = target.host.clone();
    text.append(":");
    text.append(write_unsigned(target.port as u64).as_str());
    text
}

} // verus!
