//! The OAuth2 authorization flow.
//!
//! The flow is a state machine: configured with credentials and a
//! validated redirect URL, it accumulates whitelisted scopes, generates a
//! single-use anti-forgery token, validates the callback that the
//! browser redirect delivers (the echoed `state` must equal the token,
//! or the flow fails closed), and only then releases the material for
//! the token-exchange call.  The caller owns the listener socket and the
//! HTTP exchanges; this module owns every decision.

use vstd::prelude::*;

use crate::client::AccessTokenProvider;
use crate::error::{CbError, CbErrorView};
use crate::scopes::{is_valid_scope, valid_scope};
use crate::strutil::{pairs_view, str_eq};

verus! {

/// The authorization endpoint users are sent to.
pub const AUTH_URL_STR: &'static str = "https://www.coinbase.com/oauth/authorize";

/// The token endpoint an authorization code is exchanged at.
pub const TOKEN_URL_STR: &'static str = "https://www.coinbase.com/oauth/token";

/// The revocation endpoint tokens are retired at.
pub const REVOKE_URL_STR: &'static str = "https://api.coinbase.com/oauth/revoke";

// ---------------------------------------------------------------------
// The trusted boundary to `url` and `oauth2`.
// ---------------------------------------------------------------------

/// What this crate reads out of a parsed absolute URL.
pub struct UrlInfo {
    pub scheme: String,
    pub host: String,
    /// The explicit port, absent where the URL leaves it to the scheme's
    /// default.
    pub port: Option<u16>,
    /// The query parameters, percent-decoded, in order.
    pub query: Vec<(String, String)>,
}

/// The mathematical content of a [`UrlInfo`].
pub struct UrlInfoView {
    pub scheme: Seq<char>,
    pub host: Seq<char>,
    pub port: Option<u16>,
    pub query: Seq<(Seq<char>, Seq<char>)>,
}

impl View for UrlInfo {
    type V = UrlInfoView;

    open spec fn view(&self) -> UrlInfoView {
        UrlInfoView {
            scheme: self.scheme@,
            host: self.host@,
            port: self.port,
            query: pairs_view(self.query@),
        }
    }
}

/// What `url` makes of `s`: scheme, host, explicit port and decoded query
/// pairs, or `None` where `s` is not an absolute URL with a host.
pub uninterp spec fn url_info_of(s: Seq<char>) -> Option<UrlInfoView>;

/// Relies on `url::Url::parse` and its accessors: the parts of an
/// absolute URL depend on the text alone.  `None` where the text does
/// not parse or has no host.
#[verifier::external_body]
fn parse_url(s: &str) -> (r: Option<UrlInfo>)
    ensures
        match r {
            Some(u) => url_info_of(s@) == Some(u@),
            None => url_info_of(s@) is None,
        },
{
    let u = url::Url::parse(s).ok()?;
    let host = u.host_str()?.to_string();
    Some(UrlInfo {
        scheme: u.scheme().to_string(),
        host,
        port: u.port(),
        query: u.query_pairs().map(|(k, v)| (k.into_owned(), v.into_owned())).collect(),
    })
}

/// Relies on `oauth2::CsrfToken::new_random`: a fresh, random,
/// base64-encoded 128-bit anti-forgery token.  Nothing is promised of
/// its value beyond being non-empty.
#[verifier::external_body]
fn fresh_csrf_token() -> (r: String)
    ensures
        r@.len() > 0,
{
    oauth2::CsrfToken::new_random().secret().clone()
}

// ---------------------------------------------------------------------
// Verified callback parsing.
// ---------------------------------------------------------------------

/// Whether `c` separates the fields of an HTTP request line.
pub open spec fn is_space_char(c: char) -> bool {
    c == ' ' || c == '\t' || c == '\r' || c == '\n'
}

/// The first index at or after `from` whose character is (`want` true)
/// or is not (`want` false) a separator; the length where none is.
pub open spec fn scan_to(s: Seq<char>, from: int, want: bool) -> int
    decreases s.len() - from,
    when 0 <= from <= s.len()
{
    if from >= s.len() {
        s.len() as int
    } else if is_space_char(s[from]) == want {
        from
    } else {
        scan_to(s, from + 1, want)
    }
}

fn scan(s: &str, from: usize, want: bool) -> (r: usize)
    requires
        from <= s@.len(),
    ensures
        r == scan_to(s@, from as int, want),
        from <= r <= s@.len(),
{
    let n = s.unicode_len();
    let mut i = from;
    while i < n
        invariant
            from <= i <= n,
            n == s@.len(),
            scan_to(s@, from as int, want) == scan_to(s@, i as int, want),
        decreases n - i,
    {
        let c = s.get_char(i);
        let sep = c == ' ' || c == '\t' || c == '\r' || c == '\n';
        if sep == want {
            return i;
        }
        i += 1;
    }
    n
}

/// The second whitespace-separated field of `line` — for an HTTP request
/// line, the request target.
pub open spec fn second_token_of(line: Seq<char>) -> Option<Seq<char>> {
    let a = scan_to(line, 0, true);
    let b = scan_to(line, a, false);
    let c = scan_to(line, b, true);
    if b >= line.len() {
        None
    } else {
        Some(line.subrange(b, c))
    }
}

/// Extracts the second whitespace-separated field of `line`.
pub fn second_token(line: &str) -> (r: Option<String>)
    ensures
        match r {
            Some(t) => second_token_of(line@) == Some(t@),
            None => second_token_of(line@) is None,
        },
{
    let a = scan(line, 0, true);
    let b = scan(line, a, false);
    let c = scan(line, b, true);
    if b >= line.unicode_len() {
        None
    } else {
        let t = line.substring_char(b, c);
        Some(String::from_str(t))
    }
}

/// The first value under `key` among the decoded query pairs.
pub open spec fn find_pair(q: Seq<(Seq<char>, Seq<char>)>, key: Seq<char>) -> Option<Seq<char>>
    decreases q.len(),
{
    if q.len() == 0 {
        None
    } else if q[0].0 == key {
        Some(q[0].1)
    } else {
        find_pair(q.drop_first(), key)
    }
}

/// Finds the first query parameter named `key`.
pub fn lookup_pair<'a>(q: &'a Vec<(String, String)>, key: &str) -> (r: Option<&'a String>)
    ensures
        match r {
            Some(v) => find_pair(pairs_view(q@), key@) == Some(v@),
            None => find_pair(pairs_view(q@), key@) is None,
        },
{
    let mut i: usize = 0;
    proof {
        assert(pairs_view(q@).skip(0) =~= pairs_view(q@));
    }
    while i < q.len()
        invariant
            i <= q@.len(),
            find_pair(pairs_view(q@), key@) == find_pair(pairs_view(q@).skip(i as int), key@),
        decreases q@.len() - i,
    {
        proof {
            assert(pairs_view(q@)[i as int] == (q@[i as int].0@, q@[i as int].1@));
            assert(pairs_view(q@).skip(i as int)[0] == pairs_view(q@)[i as int]);
            assert(pairs_view(q@).skip(i as int).drop_first() =~= pairs_view(q@).skip(i + 1));
        }
        if str_eq(q[i].0.as_str(), key) {
            return Some(&q[i].1);
        }
        i += 1;
    }
    None
}

/// The `code` and `state` parameters carried by a callback request line,
/// resolved against the redirect URL's scheme and host; `None` where the
/// line has no target, the target does not parse, or either parameter is
/// missing.
pub open spec fn callback_params(scheme: Seq<char>, host: Seq<char>, line: Seq<char>) -> Option<
    (Seq<char>, Seq<char>),
> {
    match second_token_of(line) {
        None => None,
        Some(target) => match url_info_of(scheme + "://"@ + host + target) {
            None => None,
            Some(u) => match (find_pair(u.query, "code"@), find_pair(u.query, "state"@)) {
                (Some(code), Some(state)) => Some((code, state)),
                _ => None,
            },
        },
    }
}

// ---------------------------------------------------------------------
// The flow state machine.
// ---------------------------------------------------------------------

/// Where an authorization attempt stands.
pub enum FlowStage {
    /// Configured; scopes may still be added.
    Configured,
    /// The authorization URL is out; waiting for the one callback.
    Waiting { csrf: Seq<char> },
    /// The callback was validated; the code may be exchanged once.
    CodeReady { csrf: Seq<char>, code: Seq<char> },
    /// Tokens are stored; requests may be issued and tokens revoked.
    Authorized { access_token: Seq<char>, refresh_token: Option<Seq<char>> },
    /// The attempt failed closed; nothing further may happen.
    Failed,
}

enum StageData {
    Configured,
    Waiting { csrf: String },
    CodeReady { csrf: String, code: String },
    Authorized { access_token: String, refresh_token: Option<String> },
    Failed,
}

/// Everything the caller needs to present the authorization URL: the
/// endpoint, the credentials' public half, the redirect URL, the chosen
/// scopes and the anti-forgery state.
pub struct AuthorizeContext {
    pub auth_url: String,
    pub client_id: String,
    pub redirect_url: String,
    pub scopes: Vec<String>,
    pub state: String,
}

/// Everything the caller needs to perform the one token-exchange call.
pub struct TokenExchangeRequest {
    pub token_url: String,
    pub client_id: String,
    pub client_secret: String,
    pub redirect_url: String,
    pub code: String,
}

/// Which token a revocation call should retire.
#[derive(Debug, PartialEq)]
pub enum RevocationTarget {
    /// The refresh token, preferred where one was granted.
    Refresh(String),
    /// The access token, where no refresh token exists.
    Access(String),
}

/// A simple client to manage OAuth2 access tokens and permissions.
pub struct OAuthCbClient {
    client_id: String,
    client_secret: String,
    redirect_url: String,
    redirect_scheme: String,
    redirect_host: String,
    redirect_port: u16,
    scopes: Vec<String>,
    stage: StageData,
}

impl OAuthCbClient {
    /// The configured client identifier.
    pub closed spec fn spec_client_id(&self) -> Seq<char> {
        self.client_id@
    }

    /// The configured client secret.
    pub closed spec fn spec_client_secret(&self) -> Seq<char> {
        self.client_secret@
    }

    /// The configured redirect URL, as given.
    pub closed spec fn spec_redirect_url(&self) -> Seq<char> {
        self.redirect_url@
    }

    /// The scheme of the redirect URL.
    pub closed spec fn spec_scheme(&self) -> Seq<char> {
        self.redirect_scheme@
    }

    /// The host of the redirect URL.
    pub closed spec fn spec_host(&self) -> Seq<char> {
        self.redirect_host@
    }

    /// The port of the redirect URL.
    pub closed spec fn spec_port(&self) -> u16 {
        self.redirect_port
    }

    /// The accumulated scopes, in insertion order.
    pub closed spec fn scope_seq(&self) -> Seq<Seq<char>> {
        self.scopes@.map_values(|s: String| s@)
    }

    /// The accumulated scopes as a set: insertion order is irrelevant and
    /// duplicates collapse.
    pub open spec fn scope_set(&self) -> Set<Seq<char>> {
        self.scope_seq().to_set()
    }

    /// Where the authorization attempt stands.
    pub closed spec fn spec_stage(&self) -> FlowStage {
        match self.stage {
            StageData::Configured => FlowStage::Configured,
            StageData::Waiting { csrf } => FlowStage::Waiting { csrf: csrf@ },
            StageData::CodeReady { csrf, code } => FlowStage::CodeReady {
                csrf: csrf@,
                code: code@,
            },
            StageData::Authorized { access_token, refresh_token } => FlowStage::Authorized {
                access_token: access_token@,
                refresh_token: match refresh_token {
                    Some(t) => Some(t@),
                    None => None,
                },
            },
            StageData::Failed => FlowStage::Failed,
        }
    }

    /// The credentials and redirect parts never change after
    /// construction.
    pub open spec fn same_config(&self, other: &Self) -> bool {
        &&& self.spec_client_id() == other.spec_client_id()
        &&& self.spec_client_secret() == other.spec_client_secret()
        &&& self.spec_redirect_url() == other.spec_redirect_url()
        &&& self.spec_scheme() == other.spec_scheme()
        &&& self.spec_host() == other.spec_host()
        &&& self.spec_port() == other.spec_port()
        &&& self.scope_seq() == other.scope_seq()
    }

    /// Configures a flow.  The redirect URL must be a well-formed
    /// absolute URL with a host and an explicit port — the callback
    /// listener will bind to exactly that host and port.
    pub fn new(client_id: &str, client_secret: &str, redirect_url: &str) -> (r: Result<
        OAuthCbClient,
        CbError,
    >)
        ensures
            match url_info_of(redirect_url@) {
                Some(u) => match u.port {
                    Some(p) => r matches Ok(f) && f.spec_client_id() == client_id@
                        && f.spec_client_secret() == client_secret@ && f.spec_redirect_url()
                        == redirect_url@ && f.spec_scheme() == u.scheme && f.spec_host() == u.host
                        && f.spec_port() == p && f.scope_seq() == Seq::<Seq<char>>::empty()
                        && f.spec_stage() == FlowStage::Configured,
                    None => r matches Err(e) && e@ matches CbErrorView::Config { .. },
                },
                None => r matches Err(e) && e@ matches CbErrorView::Config { .. },
            },
    {
        let info = match parse_url(redirect_url) {
            Some(u) => u,
            None => {
                return Err(
                    CbError::Config {
                        detail: String::from_str(
                            "the redirect URL is not a well-formed absolute URL with a host",
                        ),
                    },
                );
            },
        };
        let port = match info.port {
            Some(p) => p,
            None => {
                return Err(
                    CbError::Config {
                        detail: String::from_str("the redirect URL names no explicit port"),
                    },
                );
            },
        };
        Ok(
            OAuthCbClient {
                client_id: String::from_str(client_id),
                client_secret: String::from_str(client_secret),
                redirect_url: String::from_str(redirect_url),
                redirect_scheme: info.scheme,
                redirect_host: info.host,
                redirect_port: port,
                scopes: Vec::new(),
                stage: StageData::Configured,
            },
        )
    }

    /// Adds one whitelisted scope; duplicates collapse.  A scope outside
    /// the whitelist is rejected and leaves the flow unchanged.
    pub fn add_scope(self, scope_description: &str) -> (r: Result<OAuthCbClient, CbError>)
        ensures
            valid_scope(scope_description@) ==> (r matches Ok(f) && f.scope_set()
                == self.scope_set().insert(scope_description@) && f.spec_stage()
                == self.spec_stage() && f.spec_client_id() == self.spec_client_id()
                && f.spec_client_secret() == self.spec_client_secret() && f.spec_redirect_url()
                == self.spec_redirect_url() && f.spec_scheme() == self.spec_scheme()
                && f.spec_host() == self.spec_host() && f.spec_port() == self.spec_port()),
            !valid_scope(scope_description@) ==> (r matches Err(e) && e@ matches
                CbErrorView::InvalidScope { scope } && scope == scope_description@),
    {
        if !is_valid_scope(scope_description) {
            return Err(CbError::InvalidScope { scope: String::from_str(scope_description) });
        }
        let mut this = self;
        let mut i: usize = 0;
        let mut present = false;
        while i < this.scopes.len()
            invariant
                i <= this.scopes@.len(),
                present == exists|k: int|
                    0 <= k < i && this.scopes@[k]@ == scope_description@,
            decreases this.scopes@.len() - i,
        {
            if str_eq(this.scopes[i].as_str(), scope_description) {
                present = true;
            }
            i += 1;
        }
        if !present {
            this.scopes.push(String::from_str(scope_description));
        }
        proof {
            let target = this.scope_seq();
            let source = self.scope_seq().push(scope_description@);
            if present {
                assert(self.scope_seq().to_set().insert(scope_description@) =~= this.scope_seq()
                    .to_set()) by {
                    assert(this.scope_seq() == self.scope_seq());
                    let k = choose|k: int|
                        0 <= k < self.scopes@.len() && self.scopes@[k]@ == scope_description@;
                    assert(self.scope_seq()[k] == scope_description@);
                    assert(self.scope_seq().to_set().contains(scope_description@));
                }
            } else {
                let s0 = self.scope_seq();
                let x = scope_description@;
                assert(this.scope_seq() =~= s0.push(x));
                assert forall|y: Seq<char>| #[trigger] s0.push(x).contains(y) implies s0.contains(
                    y,
                ) || y == x by {
                    let i = choose|i: int| 0 <= i < s0.push(x).len() && s0.push(x)[i] == y;
                    if i < s0.len() {
                        assert(s0[i] == y);
                    }
                }
                assert forall|y: Seq<char>| s0.contains(y) || y == x implies #[trigger] s0.push(
                    x,
                ).contains(y) by {
                    if s0.contains(y) {
                        let i = choose|i: int| 0 <= i < s0.len() && s0[i] == y;
                        assert(s0.push(x)[i] == y);
                    } else {
                        assert(s0.push(x)[s0.len() as int] == y);
                    }
                }
                assert(s0.push(x).to_set() =~= s0.to_set().insert(x));
            }
        }
        Ok(this)
    }

    /// Opens the authorization attempt: generates a fresh single-use
    /// anti-forgery token and hands out everything needed to present the
    /// authorization URL.  The returned `state` is the token the
    /// callback must echo.
    pub fn begin_authorization(&mut self) -> (r: AuthorizeContext)
        requires
            old(self).spec_stage() == FlowStage::Configured,
        ensures
            final(self).same_config(old(self)),
            final(self).spec_stage() matches FlowStage::Waiting { csrf } && csrf == r.state@
                && csrf.len() > 0,
            r.auth_url@ == AUTH_URL_STR@,
            r.client_id@ == old(self).spec_client_id(),
            r.redirect_url@ == old(self).spec_redirect_url(),
            r.scopes@.map_values(|s: String| s@) == old(self).scope_seq(),
    {
        let csrf = fresh_csrf_token();
        let state = csrf.clone();
        let mut scopes_out: Vec<String> = Vec::new();
        let mut i: usize = 0;
        proof {
            assert(scopes_out@.map_values(|s: String| s@) =~= self.scopes@.map_values(
                |s: String| s@,
            ).take(0));
        }
        while i < self.scopes.len()
            invariant
                i <= self.scopes@.len(),
                scopes_out@.map_values(|s: String| s@) == self.scopes@.map_values(
                    |s: String| s@,
                ).take(i as int),
            decreases self.scopes@.len() - i,
        {
            let ghost prev = scopes_out@.map_values(|s: String| s@);
            scopes_out.push(self.scopes[i].clone());
            i += 1;
            proof {
                assert(scopes_out@.map_values(|s: String| s@) =~= prev.push(
                    self.scopes@[i - 1]@,
                ));
                assert(self.scopes@.map_values(|s: String| s@).take(i as int) =~= prev.push(
                    self.scopes@[i - 1]@,
                ));
            }
        }
        proof {
            assert(self.scopes@.map_values(|s: String| s@).take(self.scopes@.len() as int)
                =~= self.scopes@.map_values(|s: String| s@));
        }
        self.stage = StageData::Waiting { csrf };
        AuthorizeContext {
            auth_url: String::from_str(AUTH_URL_STR),
            client_id: self.client_id.clone(),
            redirect_url: self.redirect_url.clone(),
            scopes: scopes_out,
            state,
        }
    }

    /// The fixed confirmation page written back to the browser after the
    /// one callback, headers included.
    pub fn callback_response() -> (r: String)
        ensures
            r@ == "HTTP/1.1 200 OK\r\ncontent-length: 27\r\n\r\nGo back to your terminal :)"@,
    {
        String::from_str("HTTP/1.1 200 OK\r\ncontent-length: 27\r\n\r\nGo back to your terminal :)")
    }

    /// Validates the one callback request line.
    ///
    /// The `code` and `state` parameters are read from the request
    /// target, resolved against the redirect URL's scheme and host.  A
    /// missing or unreadable parameter fails the attempt; a `state` that
    /// differs from the generated anti-forgery token fails it closed —
    /// in particular, no authorization code is retained, so no
    /// token-exchange request can be formed afterwards.
    pub fn handle_callback(&mut self, request_line: &str) -> (r: Result<(), CbError>)
        requires
            old(self).spec_stage() matches FlowStage::Waiting { .. },
        ensures
            final(self).same_config(old(self)),
            old(self).spec_stage() matches FlowStage::Waiting { csrf } ==> match callback_params(
                old(self).spec_scheme(),
                old(self).spec_host(),
                request_line@,
            ) {
                Some((code, state)) => {
                    if state == csrf {
                        r is Ok && final(self).spec_stage() == (FlowStage::CodeReady {
                            csrf,
                            code,
                        })
                    } else {
                        (r matches Err(e) && e@ == CbErrorView::CsrfMismatch)
                            && final(self).spec_stage() == FlowStage::Failed
                    }
                },
                None => (r matches Err(e) && e@ matches CbErrorView::CallbackParse { .. })
                    && final(self).spec_stage() == FlowStage::Failed,
            },
    {
        let csrf = match &self.stage {
            StageData::Waiting { csrf } => csrf.clone(),
            _ => {
                return Err(
                    CbError::CallbackParse {
                        detail: String::from_str("no authorization attempt is waiting"),
                    },
                )
            },
        };
        let target = match second_token(request_line) {
            Some(t) => t,
            None => {
                self.stage = StageData::Failed;
                return Err(
                    CbError::CallbackParse {
                        detail: String::from_str("the request line has no target"),
                    },
                );
            },
        };
        let mut absolute = self.redirect_scheme.clone();
        absolute.append("://");
        absolute.append(self.redirect_host.as_str());
        absolute.append(target.as_str());
        let info = match parse_url(absolute.as_str()) {
            Some(u) => u,
            None => {
                self.stage = StageData::Failed;
                return Err(
                    CbError::CallbackParse {
                        detail: String::from_str("the request target does not parse as a URL"),
                    },
                );
            },
        };
        let code = match lookup_pair(&info.query, "code") {
            Some(c) => c.clone(),
            None => {
                self.stage = StageData::Failed;
                return Err(
                    CbError::CallbackParse {
                        detail: String::from_str("the callback carries no code parameter"),
                    },
                );
            },
        };
        let state = match lookup_pair(&info.query, "state") {
            Some(s) => s.clone(),
            None => {
                self.stage = StageData::Failed;
                return Err(
                    CbError::CallbackParse {
                        detail: String::from_str("the callback carries no state parameter"),
                    },
                );
            },
        };
        if !str_eq(state.as_str(), csrf.as_str()) {
            self.stage = StageData::Failed;
            return Err(CbError::CsrfMismatch);
        }
        self.stage = StageData::CodeReady { csrf, code };
        Ok(())
    }

    /// Reopens a failed authorization attempt: the credentials, redirect
    /// URL and scopes stand, the spent anti-forgery token is discarded,
    /// and a fresh attempt may begin.
    pub fn retry_authorization(&mut self)
        requires
            old(self).spec_stage() == FlowStage::Failed,
        ensures
            final(self).same_config(old(self)),
            final(self).spec_stage() == FlowStage::Configured,
    {
        self.stage = StageData::Configured;
    }

    /// Hands out the material for the one token-exchange call.  Only a
    /// flow whose callback was validated can form this request.
    pub fn token_exchange_request(&self) -> (r: TokenExchangeRequest)
        requires
            self.spec_stage() matches FlowStage::CodeReady { .. },
        ensures
            self.spec_stage() matches FlowStage::CodeReady { code, .. } ==> r.code@ == code,
            r.token_url@ == TOKEN_URL_STR@,
            r.client_id@ == self.spec_client_id(),
            r.client_secret@ == self.spec_client_secret(),
            r.redirect_url@ == self.spec_redirect_url(),
    {
        let code = match &self.stage {
            StageData::CodeReady { code, .. } => code.clone(),
            _ => String::new(),
        };
        TokenExchangeRequest {
            token_url: String::from_str(TOKEN_URL_STR),
            client_id: self.client_id.clone(),
            client_secret: self.client_secret.clone(),
            redirect_url: self.redirect_url.clone(),
            code,
        }
    }

    /// Stores the tokens returned by the token endpoint.  This is the
    /// one write the token store ever sees, and it happens before any
    /// request executor is constructed.
    pub fn complete_authorization(&mut self, access_token: String, refresh_token: Option<String>)
        requires
            old(self).spec_stage() matches FlowStage::CodeReady { .. },
        ensures
            final(self).same_config(old(self)),
            final(self).spec_stage() matches FlowStage::Authorized {
                access_token: a,
                refresh_token: t,
            } && a == access_token@ && t == (match refresh_token {
                Some(rt) => Some(rt@),
                None => None::<Seq<char>>,
            }),
    {
        self.stage = StageData::Authorized { access_token, refresh_token };
    }

    /// Whether authorization has completed and a token is stored.
    pub fn is_authorized(&self) -> (r: bool)
        ensures
            r == (self.spec_stage() matches FlowStage::Authorized { .. }),
    {
        match &self.stage {
            StageData::Authorized { .. } => true,
            _ => false,
        }
    }

    /// Selects the token a revocation call should retire: the refresh
    /// token where one was granted, the access token otherwise.
    pub fn revocation_target(&self) -> (r: RevocationTarget)
        requires
            self.spec_stage() matches FlowStage::Authorized { .. },
        ensures
            self.spec_stage() matches FlowStage::Authorized { access_token, refresh_token }
                ==> match refresh_token {
                Some(t) => r matches RevocationTarget::Refresh(s) && s@ == t,
                None => r matches RevocationTarget::Access(s) && s@ == access_token,
            },
    {
        match &self.stage {
            StageData::Authorized { access_token, refresh_token } => match refresh_token {
                Some(t) => RevocationTarget::Refresh(t.clone()),
                None => RevocationTarget::Access(access_token.clone()),
            },
            _ => RevocationTarget::Access(String::new()),
        }
    }
}

/// Returns the access token stored by the flow.  The trait's
/// precondition admits the read only once authorization has completed,
/// so a read of the store can never come before its one write; the
/// remaining match arms are unreachable under it.
impl AccessTokenProvider for OAuthCbClient {
    open spec fn spec_token(&self) -> Seq<char> {
        match self.spec_stage() {
            FlowStage::Authorized { access_token, .. } => access_token,
            _ => Seq::empty(),
        }
    }

    open spec fn token_ready(&self) -> bool {
        self.spec_stage() matches FlowStage::Authorized { .. }
    }

    fn access_token(&self) -> (r: String) {
        match &self.stage {
            StageData::Authorized { access_token, .. } => access_token.clone(),
            _ => String::new(),
        }
    }
}

} // verus!
