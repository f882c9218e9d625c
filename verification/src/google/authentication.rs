//! The credential that goes with every request to the remote services.
//!
//! Getting and refreshing the credential is the caller's work; here is what
//! is read for it, what is kept of it, and how a refreshed credential takes
//! the place of the stored one.

use vstd::prelude::*;

verus! {

/// The client's registration as the credentials file holds it.
#[derive(Debug)]
pub struct Credentials {
    pub installed: Installed,
}

/// The registration of an installed application.
#[derive(Debug)]
pub struct Installed {
    pub client_id: String,
    pub client_secret: String,
    pub auth_uri: String,
    pub token_uri: String,
    pub redirect_uris: Vec<String>,
}

/// The bearer credential and the token that renews it.
#[derive(Debug)]
pub struct TokenInfo {
    pub access_token: String,
    pub refresh_token: String,
}

/// A [`TokenInfo`] as mathematical values.
pub struct TokenInfoView {
    pub access_token: Seq<char>,
    pub refresh_token: Seq<char>,
}

impl TokenInfoView {
    /// The credential after a refresh: the new access token, and the new
    /// refresh token where the service sent one, else the old one.
    pub open spec fn refreshed(self, access_token: Seq<char>, refresh_token: Option<Seq<char>>)
        -> TokenInfoView {
        TokenInfoView {
            access_token,
            refresh_token: match refresh_token {
                Some(token) => token,
                None => self.refresh_token,
            },
        }
    }
}

impl View for TokenInfo {
    type V = TokenInfoView;

    open spec fn view(&self) -> TokenInfoView {
        TokenInfoView { access_token: self.access_token@, refresh_token: self.refresh_token@ }
    }
}

/// The sign-in that the dashboard runs with.
#[derive(Debug)]
pub struct Authentication {
    pub token_info: TokenInfo,
}

impl Installed {
    /// The address that the service redirects to after the user has agreed:
    /// the first that the registration lists, if it lists any.
    pub fn redirect_uri(&self) -> (uri: Option<String>)
        ensures
            uri.deep_view() == (if self.redirect_uris@.len() > 0 {
                Some(self.redirect_uris@[0]@)
            } else {
                None
            }),
    {
        if self.redirect_uris.len() > 0 {
            Some(self.redirect_uris[0].clone())
        } else {
            None
        }
    }
}

impl TokenInfo {
    /// A copy of the credential.
    pub fn copy(&self) -> (r: Self)
        ensures
            r@ == self@,
    {
        Self { access_token: self.access_token.clone(), refresh_token: self.refresh_token.clone() }
    }

    /// Takes over what a refresh gave: the new access token always, the new
    /// refresh token where there is one.
    pub fn refresh(&mut self, access_token: String, refresh_token: Option<String>)
        ensures
            final(self)@ == old(self)@.refreshed(access_token@, refresh_token.deep_view()),
    {
        self.access_token = access_token;
        match refresh_token {
            Some(token) => {
                self.refresh_token = token;
            },
            None => {},
        }
    }
}

impl Authentication {
    /// The sign-in that holds the credential `token_info`.
    pub fn new(token_info: TokenInfo) -> (r: Self)
        ensures
            r.token_info == token_info,
    {
        Self { token_info }
    }
}

} // verus!
