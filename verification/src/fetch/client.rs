//! The HTTP client settings of `fetch`: a local client (`L`) and a shared one (`S`) that the
//! host provides, which of them a request goes to, and the base URL.
use vstd::prelude::*;

use crate::text::owned;

verus! {

/// Why no request can be sent.
#[derive(Debug, Clone, Copy, PartialEq, Eq, Structural)]
pub enum ClientError {
    /// Neither a local nor a shared client is set.
    NoClient,
}

impl ClientError {
    /// The error's message.
    pub fn message(&self) -> (s: String)
        ensures
            s@ == "Could not find any Http client"@,
    {
        owned("Could not find any Http client")
    }
}

/// The client that a request is sent with.
pub enum Route<'a, L, S> {
    Local(&'a L),
    Shared(&'a S),
}

/// The default base URL.
pub open spec fn default_base_url() -> Seq<char> {
    "http://localhost:3000/"@
}

/// The clients that `fetch` sends with.
pub struct Client<L, S> {
    local: Option<L>,
    shared: Option<S>,
    base_url: String,
}

impl<L, S> Client<L, S> {
    /// The local client.
    pub closed spec fn spec_local(&self) -> Option<L> {
        self.local
    }

    /// The shared client.
    pub closed spec fn spec_shared(&self) -> Option<S> {
        self.shared
    }

    /// The base URL.
    pub closed spec fn spec_base_url(&self) -> Seq<char> {
        self.base_url@
    }

    /// No client yet, and the default base URL `http://localhost:3000/`.
    pub fn new() -> (c: Self)
        ensures
            c.spec_local() is None,
            c.spec_shared() is None,
            c.spec_base_url() == default_base_url(),
    {
        let base_url = owned("http://localhost:3000/");
        proof {
            reveal_strlit("http://localhost:3000/");
        }
        Client { local: None, shared: None, base_url }
    }

    /// The base URL.
    pub fn base_url(&self) -> (u: String)
        ensures
            u@ == self.spec_base_url(),
    {
        owned(self.base_url.as_str())
    }

    /// Sets the local client.
    pub fn set_local_client(&mut self, client: L)
        ensures
            final(self).spec_local() == Some(client),
            final(self).spec_shared() == old(self).spec_shared(),
            final(self).spec_base_url() == old(self).spec_base_url(),
    {
        self.local = Some(client);
    }

    /// Sets the shared client.
    pub fn set_shared_client(&mut self, client: S)
        ensures
            final(self).spec_shared() == Some(client),
            final(self).spec_local() == old(self).spec_local(),
            final(self).spec_base_url() == old(self).spec_base_url(),
    {
        self.shared = Some(client);
    }

    /// The client that `send` uses: the local one when set, else the shared one, else none
    /// ([`ClientError::NoClient`]).
    pub fn route(&self) -> (r: Result<Route<'_, L, S>, ClientError>)
        ensures
            match r {
                Ok(Route::Local(l)) => self.spec_local() == Some(*l),
                Ok(Route::Shared(s)) => self.spec_local() is None && self.spec_shared() == Some(*s),
                Err(e) => self.spec_local() is None && self.spec_shared() is None && e == ClientError::NoClient,
            },
    {
        match &self.local {
            Some(l) => Ok(Route::Local(l)),
            None => match &self.shared {
                Some(s) => Ok(Route::Shared(s)),
                None => Err(ClientError::NoClient),
            },
        }
    }
}

} // verus!
