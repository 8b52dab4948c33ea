//! A registration session: one identity and the HTTP client its traffic
//! goes through.
use vstd::prelude::*;
use crate::endpoint::{
    availability_url, availability_url_for, form_body, get_url, opt_view, registration_form,
    url_for,
};
use crate::batch::TaskFailure;
use crate::pairing::Identity;

verus! {

#[verifier::external_type_specification]
#[verifier::external_body]
pub struct ExClient(reqwest::Client);

#[verifier::external_type_specification]
#[verifier::external_body]
pub struct ExClientBuilder(reqwest::ClientBuilder);

#[verifier::external_type_specification]
#[verifier::external_body]
pub struct ExProxy(reqwest::Proxy);

#[verifier::external_type_specification]
#[verifier::external_body]
pub struct ExError(reqwest::Error);

/// Relies on `reqwest::Client::builder`: a builder with the default settings.
pub assume_specification[ reqwest::Client::builder ]() -> reqwest::ClientBuilder;

/// Relies on `reqwest::ClientBuilder::proxy`: adds the proxy to the builder's
/// list.
pub assume_specification[ reqwest::ClientBuilder::proxy ](
    builder: reqwest::ClientBuilder,
    proxy: reqwest::Proxy,
) -> reqwest::ClientBuilder;

/// Relies on `reqwest::ClientBuilder::build`: fails where the TLS backend or
/// the resolver cannot be set up, which depends on the machine.
pub assume_specification[ reqwest::ClientBuilder::build ](
    builder: reqwest::ClientBuilder,
) -> reqwest::Result<reqwest::Client>;

/// Relies on `Clone` for `reqwest::Client`: another handle on the same client,
/// which a session copy carries.
pub assume_specification[ <reqwest::Client as Clone>::clone ](
    client: &reqwest::Client,
) -> reqwest::Client;

/// Whether reqwest accepts `url` as a proxy address (with `http://` put in
/// front when the scheme is missing).
pub uninterp spec fn proxy_url_accepted(url: Seq<char>) -> bool;

/// Relies on `reqwest::Proxy::all`: a proxy for all traffic, or an error when
/// the address does not parse; the outcome depends on the address alone.
#[verifier::external_body]
fn proxy_all(url: &str) -> (r: Result<reqwest::Proxy, reqwest::Error>)
    ensures
        r is Ok <==> proxy_url_accepted(url@),
{
    reqwest::Proxy::all(url)
}

/// Why a session could not be set up.
#[derive(Debug)]
pub enum SessionError {
    /// The proxy address does not parse.
    InvalidProxy(reqwest::Error),
    /// The HTTP client could not be built.
    ClientBuild(reqwest::Error),
}

impl SessionError {
    /// The kind under which this error is reported for its task.
    pub fn failure(&self) -> (r: TaskFailure)
        ensures
            self is InvalidProxy ==> r == TaskFailure::ProxyParse,
            self is ClientBuild ==> r == TaskFailure::ClientBuild,
    {
        match self {
            SessionError::InvalidProxy(_) => TaskFailure::ProxyParse,
            SessionError::ClientBuild(_) => TaskFailure::ClientBuild,
        }
    }
}

/// One identity with its HTTP client. The proxy is fixed when the client is
/// built and cannot be changed afterwards.
#[derive(Clone, Debug)]
pub struct Hytopia {
    client: reqwest::Client,
    username: String,
    email: String,
    referral: Option<String>,
}

/// What a session holds besides its client.
pub struct HytopiaView {
    pub username: Seq<char>,
    pub email: Seq<char>,
    pub referral: Option<Seq<char>>,
}

impl View for Hytopia {
    type V = HytopiaView;

    closed spec fn view(&self) -> HytopiaView {
        HytopiaView {
            username: self.username@,
            email: self.email@,
            referral: opt_view(self.referral),
        }
    }
}

impl Hytopia {
    /// Sets up a session. When a proxy is given, all of the client's traffic
    /// goes through it; an address that does not parse is refused.
    pub fn new(
        username: String,
        email: String,
        referral: Option<String>,
        proxy: Option<String>,
    ) -> (r: Result<Hytopia, SessionError>)
        ensures
            r matches Ok(s) ==> s@ == (HytopiaView {
                username: username@,
                email: email@,
                referral: opt_view(referral),
            }),
            r matches Err(SessionError::InvalidProxy(_)) <==> (proxy matches Some(p)
                && !proxy_url_accepted(p@)),
    {
        let mut builder = reqwest::Client::builder();
        if let Some(p) = proxy {
            match proxy_all(p.as_str()) {
                Ok(px) => {
                    builder = builder.proxy(px);
                },
                Err(e) => {
                    return Err(SessionError::InvalidProxy(e));
                },
            }
        }
        match builder.build() {
            Ok(client) => Ok(Hytopia { client, username, email, referral }),
            Err(e) => Err(SessionError::ClientBuild(e)),
        }
    }

    /// Sets up the session of an identity.
    pub fn from_identity(id: &Identity) -> (r: Result<Hytopia, SessionError>)
        ensures
            r matches Ok(s) ==> s@ == (HytopiaView {
                username: id@.username,
                email: id@.email,
                referral: id@.referral,
            }),
            r matches Err(SessionError::InvalidProxy(_)) <==> (id@.proxy matches Some(p)
                && !proxy_url_accepted(p)),
    {
        let referral = match &id.referral {
            Some(s) => Some(s.clone()),
            None => None,
        };
        let proxy = match &id.proxy {
            Some(s) => Some(s.clone()),
            None => None,
        };
        Hytopia::new(id.username.clone(), id.email.clone(), referral, proxy)
    }

    /// The HTTP client of this session.
    pub fn client(&self) -> &reqwest::Client {
        &self.client
    }

    pub fn username(&self) -> (r: &str)
        ensures
            r@ == self@.username,
    {
        self.username.as_str()
    }

    pub fn email(&self) -> (r: &str)
        ensures
            r@ == self@.email,
    {
        self.email.as_str()
    }

    /// The endpoint this session registers at.
    pub fn registration_url(&self) -> (r: String)
        ensures
            r@ == url_for(self@.referral),
    {
        let referral = match &self.referral {
            Some(s) => Some(s.clone()),
            None => None,
        };
        get_url(referral)
    }

    /// The registration form of this session for a challenge token.
    pub fn registration_body(&self, token: &str) -> (r: String)
        ensures
            r@ == form_body(self@.username, self@.email, token@),
    {
        registration_form(self.username.as_str(), self.email.as_str(), token)
    }

    /// The query that asks whether this session's username is free.
    pub fn availability_url(&self) -> (r: String)
        ensures
            r@ == availability_url_for(self@.referral, self@.username),
    {
        let referral = match &self.referral {
            Some(s) => Some(s.clone()),
            None => None,
        };
        availability_url(referral, self.username.as_str())
    }
}

} // verus!
