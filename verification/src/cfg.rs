//! The gateway's configuration: where it listens and where the authorization
//! service is found.

use url::Url;
use vstd::prelude::*;

verus! {

/// The settings of a gateway.
#[derive(Debug, PartialEq, Eq)]
pub struct Cfg {
    /// Where the gateway listens.
    pub address: String,
    /// Base URL of the authorization service. The path of each operation is
    /// appended to it as it stands, so it should end in `/`.
    pub auth_endpoint: String,
}

/// What a [`Cfg`] holds.
pub struct CfgView {
    pub address: Seq<char>,
    pub auth_endpoint: Seq<char>,
}

impl View for Cfg {
    type V = CfgView;

    open spec fn view(&self) -> CfgView {
        CfgView { address: self.address@, auth_endpoint: self.auth_endpoint@ }
    }
}

/// Why settings were refused.
#[derive(Clone, Copy, Debug, PartialEq, Eq, Structural)]
pub enum CfgError {
    /// The base URL of the authorization service is no absolute URL.
    InvalidAuthEndpoint,
}

/// The address of a gateway that was given none.
pub open spec fn default_address() -> Seq<char> {
    "http://localhost:8082/"@
}

/// The base URL of the authorization service where none was given.
pub open spec fn default_auth_endpoint() -> Seq<char> {
    "http://localhost:8081/"@
}

/// The text of an optional setting.
pub open spec fn setting(field: Option<String>) -> Option<Seq<char>> {
    match field {
        Some(text) => Some(text@),
        None => None,
    }
}

/// The settings made of the given fields, each absent one at its default.
pub open spec fn configured(
    address: Option<Seq<char>>,
    auth_endpoint: Option<Seq<char>>,
) -> CfgView {
    CfgView {
        address: match address {
            Some(text) => text,
            None => default_address(),
        },
        auth_endpoint: match auth_endpoint {
            Some(text) => text,
            None => default_auth_endpoint(),
        },
    }
}

/// What is read from a document with the given fields: the settings, each
/// absent field at its default and a given base URL in its serialization, or
/// the refusal of a base URL that is none.
pub open spec fn read_fields(
    address: Option<Seq<char>>,
    auth_endpoint: Option<Seq<char>>,
) -> Result<CfgView, CfgError> {
    match auth_endpoint {
        None => Ok(configured(address, None)),
        Some(text) => match url_serialization(text) {
            Some(url) => Ok(configured(address, Some(url))),
            None => Err(CfgError::InvalidAuthEndpoint),
        },
    }
}

/// The outcome of reading settings.
pub open spec fn reading(read: Result<Cfg, CfgError>) -> Result<CfgView, CfgError> {
    match read {
        Ok(cfg) => Ok(cfg@),
        Err(error) => Err(error),
    }
}

/// What `url::Url::parse` makes of `input`: the serialization of the URL it
/// reads, or `None` where it reads none.
pub uninterp spec fn url_serialization(input: Seq<char>) -> Option<Seq<char>>;

/// Calls `url::Url::parse` on `input` and hands out the serialization of the
/// URL it returns, or `None` where it returns an error. The contract only
/// gives that outcome its name.
#[verifier::external_body]
fn parse_url(input: &str) -> (url: Option<String>)
    ensures
        setting(url) == url_serialization(input@),
{
    match Url::parse(input) {
        Ok(url) => Some(String::from(url)),
        Err(_) => None,
    }
}

impl Default for Cfg {
    fn default() -> (cfg: Cfg)
        ensures
            cfg@ == configured(None, None),
    {
        Cfg::with_fields(None, None)
    }
}

impl Cfg {
    /// Settings made of the given fields, each absent one at its default.
    pub fn with_fields(address: Option<String>, auth_endpoint: Option<String>) -> (cfg: Cfg)
        ensures
            cfg@ == configured(setting(address), setting(auth_endpoint)),
    {
        Cfg {
            address: match address {
                Some(text) => text,
                None => String::from_str("http://localhost:8082/"),
            },
            auth_endpoint: match auth_endpoint {
                Some(text) => text,
                None => String::from_str("http://localhost:8081/"),
            },
        }
    }

    /// Settings read from a document in which either field may be absent.
    ///
    /// An absent field is at its default. A base URL that is given must be an
    /// absolute URL and is kept as `url::Url` serializes it; one that is none
    /// is refused.
    pub fn from_fields(address: Option<String>, auth_endpoint: Option<String>) -> (read: Result<
        Cfg,
        CfgError,
    >)
        ensures
            reading(read) == read_fields(setting(address), setting(auth_endpoint)),
    {
        match auth_endpoint {
            None => Ok(Cfg::with_fields(address, None)),
            Some(text) => match parse_url(text.as_str()) {
                Some(url) => Ok(Cfg::with_fields(address, Some(url))),
                None => Err(CfgError::InvalidAuthEndpoint),
            },
        }
    }
}

} // verus!
