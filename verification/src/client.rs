//! The auth/session manager for the storage account: the interactive
//! authorization URL, the code- and refresh-exchange outcomes, multi-user
//! switch and logout, and the live client handle the uploads run
//! through.
//!
//! The network exchanges themselves run on the unverified edge. The
//! manager decides when one is due (`refresh_step`), and applies what
//! came back (`login`, `refresh_access_token`); the edge persists the
//! session store between the mutation and its acknowledgment, so the
//! live handle is swapped only after the session is durably saved.
//! An authorization probe composes the same way: `refresh_step`, the
//! exchange if one is due, `refresh_access_token`, then a lightweight
//! authenticated call whose success is the verdict; failures on that
//! background path are swallowed into "not authorized".

use vstd::prelude::*;
use vstd::string::StringExecFns;

use crate::error::AuthError;
use crate::session::{Session, SessionStore};

verus! {

/// What a code or refresh exchange handed back.
pub struct TokenResponse {
    pub access_token: String,
    pub refresh_token: Option<String>,
    pub expires_in_secs: u64,
}

/// Whether a refresh exchange is due, and with which refresh token.
pub enum AuthAction {
    /// The current session is still valid (or there is none): no call
    /// leaves the process.
    NoCall,
    /// The current session has expired: exchange this refresh token.
    ExchangeRefreshToken { refresh_token: String },
}

/// The interactive authorization URL: code flow against the common
/// tenant, asking for read/write/shared scopes and offline access.
pub open spec fn auth_url_spec(client_id: Seq<char>, redirect_uri: Seq<char>) -> Seq<char> {
    "https://login.microsoftonline.com/common/oauth2/v2.0/authorize?client_id="@ + client_id
        + "&scope=Files.ReadWrite.All%20offline_access&response_type=code&redirect_uri="@
        + redirect_uri
}

/// The storage-account manager: known sessions, the current identity,
/// and the access token the live client handle was built with.
pub struct OneDriveClient {
    client_token: String,
    sessions: SessionStore,
    client_id: String,
    redirect_uri: String,
    default_root_path: String,
    temp_root_path: Option<String>,
}

impl OneDriveClient {
    /// The known sessions and the current-user pointer.
    pub closed spec fn sessions(self) -> SessionStore {
        self.sessions
    }

    /// The access token the live client handle was built with; empty
    /// until a login or refresh installs one.
    pub closed spec fn spec_client_token(self) -> Seq<char> {
        self.client_token@
    }

    /// The temporary destination override, if one is set.
    pub closed spec fn spec_temp_root_path(self) -> Option<String> {
        self.temp_root_path
    }

    /// The application id the authorization URL carries.
    pub closed spec fn spec_client_id(self) -> String {
        self.client_id
    }

    /// The redirect the authorization callback returns to.
    pub closed spec fn spec_redirect_uri(self) -> String {
        self.redirect_uri
    }

    /// The default destination directory for uploads.
    pub closed spec fn spec_default_root_path(self) -> String {
        self.default_root_path
    }

    /// Manager validity.
    pub open spec fn wf(self) -> bool {
        self.sessions().wf()
    }

    /// The default destination directory for uploads.
    pub fn default_root_path(&self) -> (r: &String)
        ensures
            *r == self.spec_default_root_path(),
    {
        &self.default_root_path
    }

    /// The access token the live client handle was built with.
    pub fn client_token(&self) -> (r: &String)
        ensures
            r@ == self.spec_client_token(),
    {
        &self.client_token
    }

    /// The current user's session, if any user is known.
    pub fn current(&self) -> (r: Option<&Session>)
        requires
            self.wf(),
        ensures
            match r {
                Some(s) => self.sessions().has_current() && *s == self.sessions().current_session(),
                None => !self.sessions().has_current(),
            },
    {
        self.sessions.get_current()
    }

    /// A manager over previously persisted sessions (possibly none),
    /// with a placeholder client handle until a login or refresh.
    pub fn new(
        client_id: String,
        redirect_uri: String,
        default_root_path: String,
        sessions: SessionStore,
    ) -> (r: OneDriveClient)
        requires
            sessions.wf(),
        ensures
            r.wf(),
            r.sessions() == sessions,
            r.spec_client_token() == Seq::<char>::empty(),
            r.spec_client_id() == client_id,
            r.spec_redirect_uri() == redirect_uri,
            r.spec_default_root_path() == default_root_path,
            r.spec_temp_root_path() is None,
    {
        OneDriveClient {
            client_token: String::new(),
            sessions,
            client_id,
            redirect_uri,
            default_root_path,
            temp_root_path: None,
        }
    }

    /// Builds the interactive authorization URL.
    pub fn get_auth_url(&self) -> (r: String)
        ensures
            r@ == auth_url_spec(self.spec_client_id()@, self.spec_redirect_uri()@),
    {
        let mut url = String::from_str(
            "https://login.microsoftonline.com/common/oauth2/v2.0/authorize?client_id=",
        );
        url.append(self.client_id.as_str());
        url.append("&scope=Files.ReadWrite.All%20offline_access&response_type=code&redirect_uri=");
        url.append(self.redirect_uri.as_str());
        proof {
            assert(url@ =~= auth_url_spec(self.spec_client_id()@, self.spec_redirect_uri()@));
        }
        url
    }

    /// Applies the outcome of an interactive authorization-code
    /// exchange for the identity `username` resolved by the backend.
    /// Without a refresh token the account cannot be used offline, so
    /// the login fails and nothing changes: no session is overwritten
    /// and the live client handle keeps its previous token. On success
    /// the identity becomes current — overwriting its record in place
    /// when it was already known — and the handle is rebuilt from the
    /// new access token.
    pub fn login(&mut self, username: String, token: TokenResponse, now: u64) -> (r: Result<
        (),
        AuthError,
    >)
        requires
            old(self).wf(),
            token.refresh_token is Some ==> now + token.expires_in_secs <= u64::MAX,
        ensures
            final(self).wf(),
            r.is_ok() <==> token.refresh_token is Some,
            match r {
                Ok(()) => {
                    &&& final(self).spec_client_token() == token.access_token@
                    &&& final(self).sessions().has_current()
                    &&& final(self).sessions().current_session() == (Session {
                        username,
                        access_token: token.access_token,
                        refresh_token: token.refresh_token->Some_0,
                        expiration_timestamp: (now + token.expires_in_secs) as u64,
                        root_path: old(self).spec_default_root_path(),
                    })
                    &&& {
                        let s = final(self).sessions().current_session();
                        &&& (old(self).sessions().contains_user(username@) ==> final(self).sessions().users() == old(self).sessions().users().update(
                            old(self).sessions().idx_of_user(username@),
                            s,
                        ))
                        &&& (!old(self).sessions().contains_user(username@) ==> final(self).sessions().users() == old(self).sessions().users().push(s))
                    }
                },
                Err(e) => *final(self) == *old(self) && e == AuthError::MissingRefreshToken,
            },
    {
        match token.refresh_token {
            Some(refresh_token) => {
                let access_token = token.access_token;
                let session = Session {
                    username,
                    access_token: access_token.clone(),
                    refresh_token,
                    expiration_timestamp: now + token.expires_in_secs,
                    root_path: self.default_root_path.clone(),
                };
                self.sessions.upsert_current(session);
                self.client_token = access_token;
                Ok(())
            },
            None => Err(AuthError::MissingRefreshToken),
        }
    }

    /// Decides whether a refresh exchange is due. The expiration check
    /// is a pure timestamp comparison: while the current session's
    /// expiration lies in the future — or no session exists — the
    /// answer is `NoCall` and no network call is made.
    pub fn refresh_step(&self, now: u64) -> (a: AuthAction)
        requires
            self.wf(),
        ensures
            a is NoCall <==> (!self.sessions().has_current()
                || !self.sessions().current_session().spec_expired(now)),
            match a {
                AuthAction::NoCall => true,
                AuthAction::ExchangeRefreshToken { refresh_token } => {
                    &&& self.sessions().has_current()
                    &&& self.sessions().current_session().spec_expired(now)
                    &&& refresh_token@ == self.sessions().current_session().refresh_token@
                },
            },
    {
        match self.sessions.get_current() {
            Some(s) => {
                if s.is_expired(now) {
                    AuthAction::ExchangeRefreshToken { refresh_token: s.refresh_token.clone() }
                } else {
                    AuthAction::NoCall
                }
            },
            None => AuthAction::NoCall,
        }
    }

    /// Applies the outcome of a refresh exchange (the explicit refresh
    /// path and the startup auto-login both end here). Without a new
    /// refresh token the refresh fails and nothing changes. On success
    /// the current session's tokens and expiry are replaced and the
    /// live client handle is rebuilt from the new access token.
    pub fn refresh_access_token(&mut self, token: TokenResponse, now: u64) -> (r: Result<(), AuthError>)
        requires
            old(self).wf(),
            token.refresh_token is Some ==> old(self).sessions().has_current(),
            token.refresh_token is Some ==> now + token.expires_in_secs <= u64::MAX,
        ensures
            final(self).wf(),
            r.is_ok() <==> token.refresh_token is Some,
            match r {
                Ok(()) => {
                    &&& final(self).spec_client_token() == token.access_token@
                    &&& final(self).sessions().current_idx() == old(self).sessions().current_idx()
                    &&& final(self).sessions().users() == old(self).sessions().users().update(
                        old(self).sessions().current_idx(),
                        (Session {
                            access_token: token.access_token,
                            refresh_token: token.refresh_token->Some_0,
                            expiration_timestamp: (now + token.expires_in_secs) as u64,
                            ..old(self).sessions().current_session()
                        }),
                    )
                },
                Err(e) => *final(self) == *old(self) && e == AuthError::MissingRefreshToken,
            },
    {
        match token.refresh_token {
            Some(refresh_token) => {
                let access_token = token.access_token;
                self.sessions.update_current_tokens(
                    access_token.clone(),
                    refresh_token,
                    now + token.expires_in_secs,
                );
                self.client_token = access_token;
                Ok(())
            },
            None => Err(AuthError::MissingRefreshToken),
        }
    }

    /// Removes a user from the session store — the named one, or the
    /// current one if no name is given — and rebuilds the live client
    /// handle from the access token of whoever is current afterwards
    /// (which may be another user's). Fails, changing nothing, when no
    /// user would remain or the named user is unknown.
    pub fn logout(&mut self, username: Option<String>) -> (r: Result<(), AuthError>)
        requires
            old(self).wf(),
        ensures
            final(self).wf(),
            r.is_ok() <==> (match username {
                Some(name) => old(self).sessions().contains_user(name@) && old(
                    self,
                ).sessions().users().len() > 1,
                None => old(self).sessions().users().len() > 1,
            }),
            match r {
                Ok(()) => {
                    &&& {
                        let tidx = match username {
                            Some(name) => old(self).sessions().idx_of_user(name@),
                            None => old(self).sessions().current_idx(),
                        };
                        &&& old(self).sessions().users().len() > 1
                        &&& final(self).sessions().users() == old(self).sessions().users().remove(
                            tidx,
                        )
                        &&& (tidx != old(self).sessions().current_idx() ==> final(self).sessions().current_session() == old(self).sessions().current_session())
                    }
                    &&& final(self).sessions().has_current()
                    &&& final(self).spec_client_token() == final(self).sessions().current_session().access_token@
                },
                Err(e) => {
                    &&& *final(self) == *old(self)
                    &&& e == match username {
                        Some(name) => if !old(self).sessions().contains_user(name@) {
                            AuthError::UserNotFound
                        } else {
                            AuthError::NoUserLeft
                        },
                        None => AuthError::NoUserLeft,
                    }
                },
            },
    {
        let res = match &username {
            Some(name) => self.sessions.remove_user(Some(name)),
            None => self.sessions.remove_user(None),
        };
        match res {
            Ok(()) => {
                match self.sessions.get_current() {
                    Some(s) => {
                        self.client_token = s.access_token.clone();
                        Ok(())
                    },
                    None => {
                        proof {
                            assert(false);
                        }
                        Ok(())
                    },
                }
            },
            Err(e) => Err(e),
        }
    }

    /// The known users' sessions, for the persistence edge to write out.
    pub fn known_users(&self) -> (r: &SessionStore)
        ensures
            *r == self.sessions(),
    {
        &self.sessions
    }

    /// The authorization verdict after an opportunistic refresh: the
    /// outcome of the lightweight authenticated probe alone decides.
    /// Whatever a refresh attempt returned is swallowed here, never
    /// propagated: interactive login is the recovery path.
    pub fn is_authorized(&self, refresh_outcome: Result<(), AuthError>, probe_ok: bool) -> (r:
        bool)
        ensures
            r == probe_ok,
    {
        let _ = refresh_outcome;
        probe_ok
    }

    /// Whether an interactive login may be skipped: only when no further
    /// account is being added, and the account is already authorized or
    /// the startup refresh went through.
    pub fn login_can_be_skipped(should_add: bool, authorized: bool, auto_login_ok: bool) -> (r:
        bool)
        ensures
            r == (!should_add && (authorized || auto_login_ok)),
    {
        !should_add && (authorized || auto_login_ok)
    }

    /// Points the current-user marker at the named known user.
    pub fn set_current_user(&mut self, username: &String) -> (r: Result<(), AuthError>)
        requires
            old(self).wf(),
        ensures
            final(self).wf(),
            final(self).spec_client_token() == old(self).spec_client_token(),
            final(self).sessions().users() == old(self).sessions().users(),
            r.is_ok() <==> old(self).sessions().contains_user(username@),
            match r {
                Ok(()) => final(self).sessions().current_idx() == old(
                    self,
                ).sessions().idx_of_user(username@),
                Err(e) => *final(self) == *old(self) && e == AuthError::UserNotFound,
            },
    {
        self.sessions.set_current(username)
    }

    /// The destination directory uploads go to: the temporary override
    /// while one is set and asked for, the default otherwise.
    pub fn get_root_path(&self, allow_temp: bool) -> (r: String)
        ensures
            r@ == if allow_temp && self.spec_temp_root_path() is Some {
                self.spec_temp_root_path()->Some_0@
            } else {
                self.spec_default_root_path()@
            },
    {
        if allow_temp {
            match &self.temp_root_path {
                Some(p) => p.clone(),
                None => self.default_root_path.clone(),
            }
        } else {
            self.default_root_path.clone()
        }
    }

    /// Sets the default destination directory for uploads.
    pub fn set_root_path(&mut self, path: String)
        ensures
            final(self).spec_default_root_path() == path,
            final(self).sessions() == old(self).sessions(),
            final(self).spec_client_token() == old(self).spec_client_token(),
            final(self).spec_temp_root_path() == old(self).spec_temp_root_path(),
    {
        self.default_root_path = path;
    }

    /// Sets the temporary destination override.
    pub fn set_temp_root_path(&mut self, path: String)
        ensures
            final(self).spec_temp_root_path() == Some(path),
            final(self).sessions() == old(self).sessions(),
            final(self).spec_client_token() == old(self).spec_client_token(),
            final(self).spec_default_root_path() == old(self).spec_default_root_path(),
    {
        self.temp_root_path = Some(path);
    }

    /// Clears the temporary destination override.
    pub fn clear_temp_root_path(&mut self)
        ensures
            final(self).spec_temp_root_path() is None,
            final(self).sessions() == old(self).sessions(),
            final(self).spec_client_token() == old(self).spec_client_token(),
            final(self).spec_default_root_path() == old(self).spec_default_root_path(),
    {
        self.temp_root_path = None;
    }
}

} // verus!
