//! The session middleware's configuration and the decisions it takes around
//! one request: which identifier the request presents, which session the
//! handler sees, and what the response must carry once the handler is done.
//! Talking to the store and to the handler is left to the caller, which
//! hands the outcomes back.
use vstd::prelude::*;

use crate::cookie::{find_session_id, header_candidate, CookieExpiry, SameSitePolicy, SessionCookie};
use crate::session::SessionState;
use crate::signer::{sign, signed_value, signing_key_from, verified_value, verify, SignatureError, MIN_SECRET_LEN};

verus! {

/// Default lifetime of a session, one day in seconds.
pub const DEFAULT_SESSION_TTL: u64 = 86400;

/// What a [`SessionLayer`] is configured with.
pub ghost struct LayerView {
    pub cookie_path: Seq<char>,
    pub cookie_name: Seq<char>,
    pub cookie_domain: Option<Seq<char>>,
    pub session_ttl: Option<u64>,
    pub save_unchanged: bool,
    pub same_site: SameSitePolicy,
    pub secure: Option<bool>,
    pub key: Seq<u8>,
}

/// The middleware's configuration, fixed once built, and its store.
pub struct SessionLayer<Store> {
    store: Store,
    cookie_path: String,
    cookie_name: String,
    cookie_domain: Option<String>,
    session_ttl: Option<u64>,
    save_unchanged: bool,
    same_site_policy: SameSitePolicy,
    secure: Option<bool>,
    key: Vec<u8>,
}

pub open spec fn opt_view(o: Option<String>) -> Option<Seq<char>> {
    match o {
        Some(s) => Some(s@),
        None => None,
    }
}

impl<Store> SessionLayer<Store> {
    /// The store that sessions are kept in.
    pub closed spec fn store_spec(&self) -> Store {
        self.store
    }
}

impl<Store> View for SessionLayer<Store> {
    type V = LayerView;

    closed spec fn view(&self) -> LayerView {
        LayerView {
            cookie_path: self.cookie_path@,
            cookie_name: self.cookie_name@,
            cookie_domain: opt_view(self.cookie_domain),
            session_ttl: self.session_ttl,
            save_unchanged: self.save_unchanged,
            same_site: self.same_site_policy,
            secure: self.secure,
            key: self.key@,
        }
    }
}

/// What the middleware does once the handler has returned.
#[derive(Clone, Copy, Debug, PartialEq, Eq, Structural)]
pub enum Reaction {
    /// Destroy the stored session and send a removal cookie.
    Destroy,
    /// Store the session, first destroying the old record and dropping its
    /// identifier when `regenerate` holds.
    Persist { regenerate: bool },
    /// Leave the response as the handler made it.
    Leave,
}

/// How a call of the store's `store` went.
#[derive(Clone, Debug)]
pub enum StoreOutcome {
    /// Stored, with an identifier to hand to the client.
    Stored(String),
    /// Stored, and no identifier was issued.
    NoIdentifier,
    /// The store failed.
    Failed,
}

/// What to change in the response.
#[derive(Clone, Debug)]
pub struct ResponseUpdate {
    /// Turn the response status into an internal server error.
    pub internal_error: bool,
    /// The `Set-Cookie` directive to add, if any.
    pub set_cookie: Option<SessionCookie>,
}

/// The reaction owed to a session with the given flags; `hydrated` tells
/// whether the session was loaded from the store, that is, holds an
/// identifier the client already has.
pub open spec fn reaction_for(
    save_unchanged: bool,
    destroyed: bool,
    changed: bool,
    regenerate: bool,
    hydrated: bool,
) -> Reaction {
    if destroyed {
        Reaction::Destroy
    } else if save_unchanged || changed || !hydrated {
        Reaction::Persist { regenerate }
    } else {
        Reaction::Leave
    }
}

/// `c` is the session cookie that a layer configured as `cfg` sends for the
/// raw identifier `raw` at `now`.
pub open spec fn is_session_cookie(cfg: LayerView, secure: bool, raw: Seq<char>, now: u64, c: SessionCookie) -> bool {
    &&& c.name@ == cfg.cookie_name
    &&& c.value@ == signed_value(cfg.key, raw)
    &&& c.http_only
    &&& c.same_site == cfg.same_site
    &&& c.secure == secure
    &&& opt_view(c.path) == Some(cfg.cookie_path)
    &&& opt_view(c.domain) == cfg.cookie_domain
    &&& c.expiry == match cfg.session_ttl {
        Some(t) => CookieExpiry::At((now + t) as u64),
        None => CookieExpiry::OnClose,
    }
}

/// `c` is the removal cookie that a layer configured as `cfg` sends.
pub open spec fn is_removal_cookie(cfg: LayerView, secure: bool, c: SessionCookie) -> bool {
    &&& c.name@ == cfg.cookie_name
    &&& c.value@ == signed_value(cfg.key, Seq::<char>::empty())
    &&& c.http_only
    &&& c.same_site == cfg.same_site
    &&& c.secure == secure
    &&& c.path is None
    &&& c.domain is None
    &&& c.expiry == CookieExpiry::Removal
}

/// The lifetime `ttl`, counted from `now`, fits in a `u64`.
pub open spec fn ttl_fits(ttl: Option<u64>, now: u64) -> bool {
    match ttl {
        Some(t) => now + t <= u64::MAX,
        None => true,
    }
}

/// A session that was not loaded from the store (no valid cookie, no
/// record, or an expired one) is always stored, so that it can be handed an
/// identifier, unless the handler destroyed it.
pub proof fn lemma_new_visitor_is_persisted(save_unchanged: bool, changed: bool, regenerate: bool)
    ensures
        reaction_for(save_unchanged, false, changed, regenerate, false) == (Reaction::Persist {
            regenerate,
        }),
{
}

/// With `save_unchanged` off, a session loaded from the store that was
/// neither changed nor destroyed leaves the response without a cookie.
pub proof fn lemma_unchanged_session_left_alone(regenerate: bool)
    ensures
        reaction_for(false, false, false, regenerate, true) == Reaction::Leave,
{
}

/// A session whose data was changed, and not destroyed, is stored again.
pub proof fn lemma_changed_session_is_persisted(
    save_unchanged: bool,
    regenerate: bool,
    hydrated: bool,
)
    ensures
        reaction_for(save_unchanged, false, true, regenerate, hydrated) == (
        Reaction::Persist { regenerate }),
{
}

/// A destroyed session is destroyed in the store, whatever else holds of it.
pub proof fn lemma_destroyed_session_is_destroyed(
    save_unchanged: bool,
    changed: bool,
    regenerate: bool,
    hydrated: bool,
)
    ensures
        reaction_for(save_unchanged, true, changed, regenerate, hydrated)
            == Reaction::Destroy,
{
}

/// A session that asked for regeneration and is to be stored has its old
/// record destroyed and is stored under a new identifier.
pub proof fn lemma_regeneration_is_carried_out(
    save_unchanged: bool,
    changed: bool,
    hydrated: bool,
)
    requires
        save_unchanged || changed || !hydrated,
    ensures
        reaction_for(save_unchanged, false, changed, true, hydrated) == (Reaction::Persist {
            regenerate: true,
        }),
{
}

impl<Store> SessionLayer<Store> {
    /// A layer with the default settings: cookie `axum_sid` on path `/`,
    /// `SameSite=Strict`, a lifetime of one day, unchanged sessions saved,
    /// `Secure` taken from the request's scheme; signing with a key made from
    /// `secret`, which must hold at least 64 bytes.
    pub fn new(store: Store, secret: &[u8]) -> (r: Self)
        requires
            secret@.len() >= MIN_SECRET_LEN,
        ensures
            r@.cookie_path == "/"@,
            r@.cookie_name == "axum_sid"@,
            r@.cookie_domain is None,
            r@.session_ttl == Some(DEFAULT_SESSION_TTL),
            r@.save_unchanged,
            r@.same_site == SameSitePolicy::Strict,
            r@.secure is None,
            r@.key == secret@.subrange(0, 32),
            r.store_spec() == store,
    {
        SessionLayer {
            store,
            save_unchanged: true,
            cookie_path: "/".to_owned(),
            cookie_name: "axum_sid".to_owned(),
            cookie_domain: None,
            same_site_policy: SameSitePolicy::Strict,
            session_ttl: Some(DEFAULT_SESSION_TTL),
            secure: None,
            key: signing_key_from(secret),
        }
    }

    /// The store that sessions are kept in.
    pub fn store(&self) -> (r: &Store)
        ensures
            *r == self.store_spec(),
    {
        &self.store
    }

    /// The name of the session cookie.
    pub fn cookie_name(&self) -> (r: &String)
        ensures
            r@ == self@.cookie_name,
    {
        &self.cookie_name
    }

    /// The lifetime given to a session at each request, in seconds.
    pub fn session_ttl(&self) -> (r: Option<u64>)
        ensures
            r == self@.session_ttl,
    {
        self.session_ttl
    }

    /// Whether the response's cookie is `Secure`: as configured, else
    /// whether the request came over https.
    pub fn effective_secure(&self, request_is_https: bool) -> (r: bool)
        ensures
            r == match self@.secure {
                Some(s) => s,
                None => request_is_https,
            },
    {
        match self.secure {
            Some(s) => s,
            None => request_is_https,
        }
    }

    /// Signs the cookie's value: it becomes the base64 MAC of the old value
    /// followed by the old value.
    pub fn sign_cookie(&self, cookie: &mut SessionCookie)
        ensures
            final(cookie).value@ == signed_value(self@.key, old(cookie).value@),
            verified_value(self@.key, final(cookie).value@) == Ok::<Seq<char>, SignatureError>(
                old(cookie).value@,
            ),
            final(cookie).name == old(cookie).name,
            final(cookie).http_only == old(cookie).http_only,
            final(cookie).same_site == old(cookie).same_site,
            final(cookie).secure == old(cookie).secure,
            final(cookie).path == old(cookie).path,
            final(cookie).domain == old(cookie).domain,
            final(cookie).expiry == old(cookie).expiry,
    {
        let signed = sign(self.key.as_slice(), cookie.value.as_str());
        cookie.value = signed;
    }

    /// Verifies a signed cookie value and returns the raw identifier.
    pub fn verify_signature(&self, cookie_value: &str) -> (r: Result<String, SignatureError>)
        ensures
            match r {
                Ok(s) => verified_value(self@.key, cookie_value@) == Ok::<Seq<char>, SignatureError>(s@),
                Err(e) => verified_value(self@.key, cookie_value@) == Err::<Seq<char>, SignatureError>(e),
            },
    {
        verify(self.key.as_slice(), cookie_value)
    }

    /// The verified session identifier that a request's `Cookie` header
    /// presents, if any.
    pub fn session_id_from_header(&self, header: Option<&str>) -> (r: Option<String>)
        ensures
            match header {
                None => r is None,
                Some(h) => match r {
                    Some(s) => header_candidate(self@.key, self@.cookie_name, h@) == Some(s@),
                    None => header_candidate(self@.key, self@.cookie_name, h@) is None,
                },
            },
    {
        match header {
            Some(h) => find_session_id(self.key.as_slice(), &self.cookie_name, h),
            None => None,
        }
    }
    /// When `true`, a session cookie is always set; when `false`, only for
    /// a new or changed session.
    pub fn with_save_unchanged(self, save_unchanged: bool) -> (r: Self)
        ensures
            r@ == (LayerView { save_unchanged, ..self@ }),
            r.store_spec() == self.store_spec(),
    {
        let mut layer = self;
        layer.save_unchanged = save_unchanged;
        layer
    }

    /// Sets the cookie's path.
    pub fn with_cookie_path(self, cookie_path: &str) -> (r: Self)
        ensures
            r@ == (LayerView { cookie_path: cookie_path@, ..self@ }),
            r.store_spec() == self.store_spec(),
    {
        let mut layer = self;
        layer.cookie_path = cookie_path.to_owned();
        layer
    }

    /// Sets the cookie's name.
    pub fn with_cookie_name(self, cookie_name: &str) -> (r: Self)
        ensures
            r@ == (LayerView { cookie_name: cookie_name@, ..self@ }),
            r.store_spec() == self.store_spec(),
    {
        let mut layer = self;
        layer.cookie_name = cookie_name.to_owned();
        layer
    }

    /// Sets the cookie's domain.
    pub fn with_cookie_domain(self, cookie_domain: &str) -> (r: Self)
        ensures
            r@ == (LayerView { cookie_domain: Some(cookie_domain@), ..self@ }),
            r.store_spec() == self.store_spec(),
    {
        let mut layer = self;
        layer.cookie_domain = Some(cookie_domain.to_owned());
        layer
    }

    /// Sets the cookie's `SameSite` policy.
    pub fn with_same_site_policy(self, policy: SameSitePolicy) -> (r: Self)
        ensures
            r@ == (LayerView { same_site: policy, ..self@ }),
            r.store_spec() == self.store_spec(),
    {
        let mut layer = self;
        layer.same_site_policy = policy;
        layer
    }

    /// Sets the session's lifetime in seconds; `None` for cookies that last
    /// as long as the browser session.
    pub fn with_session_ttl(self, session_ttl: Option<u64>) -> (r: Self)
        ensures
            r@ == (LayerView { session_ttl, ..self@ }),
            r.store_spec() == self.store_spec(),
    {
        let mut layer = self;
        layer.session_ttl = session_ttl;
        layer
    }

    /// Sets the cookie's `Secure` attribute, whatever the request's scheme.
    pub fn with_secure(self, secure: bool) -> (r: Self)
        ensures
            r@ == (LayerView { secure: Some(secure), ..self@ }),
            r.store_spec() == self.store_spec(),
    {
        let mut layer = self;
        layer.secure = Some(secure);
        layer
    }

    /// The signed session cookie for the raw identifier `cookie_value`,
    /// expiring one lifetime after `now` (seconds since the epoch).
    pub fn build_cookie(&self, secure: bool, cookie_value: String, now: u64) -> (r: SessionCookie)
        requires
            ttl_fits(self@.session_ttl, now),
        ensures
            is_session_cookie(self@, secure, cookie_value@, now, r),
            verified_value(self@.key, r.value@) == Ok::<Seq<char>, SignatureError>(cookie_value@),
    {
        let expiry = match self.session_ttl {
            Some(ttl) => CookieExpiry::At(now + ttl),
            None => CookieExpiry::OnClose,
        };
        let mut cookie = SessionCookie {
            name: self.cookie_name.clone(),
            value: cookie_value,
            http_only: true,
            same_site: self.same_site_policy,
            secure,
            path: Some(self.cookie_path.clone()),
            domain: match &self.cookie_domain {
                Some(d) => Some(d.clone()),
                None => None,
            },
            expiry,
        };
        self.sign_cookie(&mut cookie);
        cookie
    }

    /// The signed cookie that tells the client to drop the session cookie.
    pub fn build_removal_cookie(&self, secure: bool) -> (r: SessionCookie)
        ensures
            is_removal_cookie(self@, secure, r),
            verified_value(self@.key, r.value@) == Ok::<Seq<char>, SignatureError>(Seq::empty()),
    {
        let mut cookie = SessionCookie {
            name: self.cookie_name.clone(),
            value: String::new(),
            http_only: true,
            same_site: self.same_site_policy,
            secure,
            path: None,
            domain: None,
            expiry: CookieExpiry::Removal,
        };
        self.sign_cookie(&mut cookie);
        cookie
    }

    /// The session that the handler sees: the loaded one unless there is
    /// none or it has expired at `now`, else a fresh one; either way given
    /// the configured lifetime from `now`.
    pub fn load_or_create(&self, loaded: Option<SessionState>, now: u64) -> (r: SessionState)
        requires
            loaded matches Some(s) ==> s.wf() && s.id_spec() is Some,
            ttl_fits(self@.session_ttl, now),
        ensures
            r.wf(),
            (r.id_spec() is Some) == (loaded matches Some(s) && !s.expired_at(now)),
            match loaded {
                Some(s) if !s.expired_at(now) => {
                    &&& r.id_spec() == s.id_spec()
                    &&& r.data() == s.data()
                    &&& r.changed_spec() == s.changed_spec()
                    &&& r.destroyed_spec() == s.destroyed_spec()
                    &&& r.regenerate_spec() == s.regenerate_spec()
                    &&& self@.session_ttl is None ==> r.expiry_spec() == s.expiry_spec()
                },
                _ => {
                    &&& r.id_spec() is None
                    &&& r.data() == Map::<Seq<char>, Seq<char>>::empty()
                    &&& !r.changed_spec()
                    &&& !r.destroyed_spec()
                    &&& !r.regenerate_spec()
                    &&& self@.session_ttl is None ==> r.expiry_spec() is None
                },
            },
            match self@.session_ttl {
                Some(t) => r.expiry_spec() == Some((now + t) as u64),
                None => true,
            },
    {
        let mut session = match loaded {
            Some(s) => if s.is_expired(now) {
                SessionState::fresh()
            } else {
                s
            },
            None => SessionState::fresh(),
        };
        if let Some(ttl) = self.session_ttl {
            session.set_expiry(now + ttl);
        }
        session
    }

    /// What to do once the handler has returned with `session`: the
    /// session counts as hydrated when it holds a store identifier.
    pub fn plan_reaction(&self, session: &SessionState) -> (r: Reaction)
        ensures
            r == reaction_for(
                self@.save_unchanged,
                session.destroyed_spec(),
                session.changed_spec(),
                session.regenerate_spec(),
                session.id_spec() is Some,
            ),
    {
        if session.is_destroyed() {
            Reaction::Destroy
        } else if self.save_unchanged || session.data_changed() || session.id().is_none() {
            Reaction::Persist { regenerate: session.should_regenerate() }
        } else {
            Reaction::Leave
        }
    }

    /// The response change after destroying a session: a removal cookie in
    /// any case, and an internal error when the store failed.
    pub fn after_destroy(&self, secure: bool, destroyed: bool) -> (r: ResponseUpdate)
        ensures
            r.internal_error == !destroyed,
            r.set_cookie matches Some(c) && is_removal_cookie(self@, secure, c) && verified_value(
                self@.key,
                c.value@,
            ) == Ok::<Seq<char>, SignatureError>(Seq::empty()),
    {
        ResponseUpdate { internal_error: !destroyed, set_cookie: Some(self.build_removal_cookie(secure)) }
    }

    /// The response change after storing a session: a signed cookie for a
    /// new identifier, nothing when none was issued, and an internal error
    /// without a cookie when the store failed.
    pub fn after_store(&self, secure: bool, outcome: StoreOutcome, now: u64) -> (r: ResponseUpdate)
        requires
            ttl_fits(self@.session_ttl, now),
        ensures
            match outcome {
                StoreOutcome::Stored(id) => {
                    &&& !r.internal_error
                    &&& r.set_cookie matches Some(c) && is_session_cookie(self@, secure, id@, now, c)
                        && verified_value(self@.key, c.value@) == Ok::<Seq<char>, SignatureError>(id@)
                },
                StoreOutcome::NoIdentifier => !r.internal_error && r.set_cookie is None,
                StoreOutcome::Failed => r.internal_error && r.set_cookie is None,
            },
    {
        match outcome {
            StoreOutcome::Stored(id) => ResponseUpdate {
                internal_error: false,
                set_cookie: Some(self.build_cookie(secure, id, now)),
            },
            StoreOutcome::NoIdentifier => ResponseUpdate { internal_error: false, set_cookie: None },
            StoreOutcome::Failed => ResponseUpdate { internal_error: true, set_cookie: None },
        }
    }
}

} // verus!
