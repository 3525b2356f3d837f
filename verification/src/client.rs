//! How the library's HTTP clients are set up: whether they keep cookies,
//! and the `Cookie` and `User-Agent` headers they send by default.
use vstd::prelude::*;
use vstd::string::StringExecFns;
use crate::account::{account_ua_prefix, account_user_agent, opt_text};
use crate::frontend::{client_ua_fallback, client_user_agent};
use crate::text::{decimal_digits, decimal_text, digit_char};
use crate::ticket::{header_char_ok, header_text_ok, header_value_accepts};

verus! {

/// The set-up of an HTTP client, as plain values.
#[derive(Debug)]
pub struct ClientConfig {
    /// Whether the client keeps the cookies that responses set.
    pub cookie_store: bool,
    /// The default `Cookie` header, if any.
    pub cookie: Option<String>,
    /// The default `User-Agent` header, if any.
    pub user_agent: Option<String>,
}

/// The contents of a [`ClientConfig`].
pub struct ClientConfigView {
    pub cookie_store: bool,
    pub cookie: Option<Seq<char>>,
    pub user_agent: Option<Seq<char>>,
}

impl View for ClientConfig {
    type V = ClientConfigView;

    open spec fn view(&self) -> ClientConfigView {
        ClientConfigView {
            cookie_store: self.cookie_store,
            cookie: opt_text(self.cookie),
            user_agent: opt_text(self.user_agent),
        }
    }
}

fn clone_opt_text(o: &Option<String>) -> (r: Option<String>)
    ensures
        opt_text(r) == opt_text(*o),
{
    match o {
        Some(s) => Some(s.clone()),
        None => None,
    }
}

impl Clone for ClientConfig {
    fn clone(&self) -> (r: Self)
        ensures
            r@ == self@,
    {
        ClientConfig {
            cookie_store: self.cookie_store,
            cookie: clone_opt_text(&self.cookie),
            user_agent: clone_opt_text(&self.user_agent),
        }
    }
}

/// An optional client set-up, by its contents.
pub open spec fn opt_client(o: Option<ClientConfig>) -> Option<ClientConfigView> {
    match o {
        Some(c) => Some(c@),
        None => None,
    }
}

/// A client made with `reqwest::Client::new()`: no cookie store and no
/// default `Cookie` or `User-Agent` header.
pub open spec fn plain_client() -> ClientConfigView {
    ClientConfigView { cookie_store: false, cookie: None, user_agent: None }
}

// ---------------------------------------------------------------------------
// The front end's login client

/// The login client for `user_agent`: a cookie store and the user agent
/// (the fallback when it is not a valid header value).
pub open spec fn login_client_view(user_agent: Seq<char>) -> ClientConfigView {
    ClientConfigView {
        cookie_store: true,
        cookie: None,
        user_agent: Some(
            if header_text_ok(user_agent) {
                user_agent
            } else {
                client_ua_fallback()
            },
        ),
    }
}

/// Sets up the front end's login client.
pub fn login_client(user_agent: &str) -> (r: ClientConfig)
    ensures
        r@ == login_client_view(user_agent@),
{
    ClientConfig { cookie_store: true, cookie: None, user_agent: Some(client_user_agent(user_agent)) }
}

// ---------------------------------------------------------------------------
// An account's own client

/// The own client of an account, for the random number `random_id`: a
/// cookie store and the browser user agent ending in `random_id` (the short
/// fallback when that is not a valid header value). The cookie plays no part.
pub open spec fn account_client_view(random_id: u32) -> ClientConfigView {
    let ua = account_ua_prefix() + decimal_text(random_id as int);
    ClientConfigView {
        cookie_store: true,
        cookie: None,
        user_agent: Some(
            if header_text_ok(ua) {
                ua
            } else {
                crate::account::account_ua_fallback()
            },
        ),
    }
}

/// Sets up an account's own client; `random_id` is what makes its user agent
/// differ from other accounts' (the sub-second nanoseconds of the clock).
pub fn account_client(cookie: &str, random_id: u32) -> (r: ClientConfig)
    ensures
        r@ == account_client_view(random_id),
{
    ClientConfig { cookie_store: true, cookie: None, user_agent: Some(account_user_agent(random_id)) }
}

proof fn lemma_digits_header_ok(m: nat)
    ensures
        header_text_ok(decimal_digits(m)),
    decreases m,
{
    let ds = seq!['0', '1', '2', '3', '4', '5', '6', '7', '8', '9'];
    assert forall|d: int| 0 <= d < 10 implies header_char_ok(#[trigger] digit_char(d)) by {
        assert(ds[0] == '0' && ds[1] == '1' && ds[2] == '2' && ds[3] == '3' && ds[4] == '4'
            && ds[5] == '5' && ds[6] == '6' && ds[7] == '7' && ds[8] == '8' && ds[9] == '9');
    }
    if m >= 10 {
        lemma_digits_header_ok(m / 10);
        let pre = decimal_digits(m / 10);
        let s = decimal_digits(m);
        assert(header_char_ok(digit_char((m % 10) as int)));
        assert forall|i: int| 0 <= i < s.len() implies header_char_ok(#[trigger] s[i]) by {
            if i < pre.len() {
                assert(s[i] == pre[i]);
            }
        }
    } else {
        assert(header_char_ok(digit_char(m as int)));
    }
}

/// Every account client sends the browser user agent ending in its random
/// number (the fallback is never needed), keeps cookies, and sends no cookie
/// header of its own: whatever cookie it is made for, two clients made with
/// the same number are set up alike.
pub proof fn law_account_client_user_agent(random_id: u32)
    ensures
        account_client_view(random_id) == (ClientConfigView {
            cookie_store: true,
            cookie: None,
            user_agent: Some(account_ua_prefix() + decimal_text(random_id as int)),
        }),
{
    let p = account_ua_prefix();
    let d = decimal_text(random_id as int);
    assert(header_text_ok(p)) by {
        reveal_strlit("Mozilla/5.0 (Windows NT 10.0; Win64; x64) AppleWebKit/537.36 (KHTML, like Gecko) Chrome/120.0.0.0 Safari/537.36 ");
    }
    lemma_digits_header_ok(random_id as nat);
    let ua = p + d;
    assert forall|i: int| 0 <= i < ua.len() implies header_char_ok(#[trigger] ua[i]) by {
        if i < p.len() {
            assert(ua[i] == p[i]);
        } else {
            assert(ua[i] == d[i - p.len()]);
        }
    }
}

// ---------------------------------------------------------------------------
// A ticket session's client

/// The user agent a session presents: the custom one when set, else the
/// default.
pub open spec fn session_user_agent(custom_ua: Seq<char>, default_ua: Seq<char>) -> Seq<char> {
    if custom_ua.len() > 0 {
        custom_ua
    } else {
        default_ua
    }
}

/// The client of a ticket session. It is built with a cookie store and the
/// default user agent `ua`, and with default headers that hold the cookie
/// (when it is a valid header value) and then the session user agent (when
/// the cookie was valid and the session user agent is a valid header value),
/// which replaces `ua`. When `ua` itself is not a valid header value the
/// build fails and a plain client takes its place.
pub open spec fn session_client_view(cookie: Seq<char>, custom_ua: Seq<char>, ua: Seq<char>) -> ClientConfigView {
    let eff = session_user_agent(custom_ua, ua);
    if !header_text_ok(ua) {
        plain_client()
    } else if header_text_ok(cookie) {
        ClientConfigView {
            cookie_store: true,
            cookie: Some(cookie),
            user_agent: Some(
                if header_text_ok(eff) {
                    eff
                } else {
                    ua
                },
            ),
        }
    } else {
        ClientConfigView { cookie_store: true, cookie: None, user_agent: Some(ua) }
    }
}

/// Sets up the client of a ticket session for `cookie`, the user's custom
/// user agent (empty when none) and the default user agent `ua`.
pub fn session_client(cookie: &str, custom_ua: &str, ua: &str) -> (r: ClientConfig)
    ensures
        r@ == session_client_view(cookie@, custom_ua@, ua@),
{
    if !header_value_accepts(ua) {
        return ClientConfig { cookie_store: false, cookie: None, user_agent: None };
    }
    let eff = if !custom_ua.is_empty() {
        custom_ua
    } else {
        ua
    };
    if header_value_accepts(cookie) {
        let chosen = if header_value_accepts(eff) {
            eff
        } else {
            ua
        };
        ClientConfig {
            cookie_store: true,
            cookie: Some(String::from_str(cookie)),
            user_agent: Some(String::from_str(chosen)),
        }
    } else {
        ClientConfig { cookie_store: true, cookie: None, user_agent: Some(String::from_str(ua)) }
    }
}

/// The login client keeps cookies, sends no cookie of its own, and presents
/// the given user agent when it is a valid header value, the short browser
/// string otherwise.
pub proof fn law_login_client(user_agent: Seq<char>)
    ensures
        login_client_view(user_agent).cookie_store,
        login_client_view(user_agent).cookie is None,
        header_text_ok(user_agent) ==> login_client_view(user_agent).user_agent == Some(user_agent),
        !header_text_ok(user_agent) ==> login_client_view(user_agent).user_agent == Some(
            "Mozilla/5.0 (Windows NT 10.0; Win64; x64) AppleWebKit/537.36"@,
        ),
{
}

/// A ticket session's client, when every value is a valid header value:
/// it keeps cookies, sends the account's cookie, and presents the custom
/// user agent when one is set, the default otherwise.
pub proof fn law_session_client_valid(cookie: Seq<char>, custom_ua: Seq<char>, ua: Seq<char>)
    requires
        header_text_ok(cookie),
        header_text_ok(custom_ua),
        header_text_ok(ua),
    ensures
        session_client_view(cookie, custom_ua, ua).cookie_store,
        session_client_view(cookie, custom_ua, ua).cookie == Some(cookie),
        custom_ua.len() > 0 ==> session_client_view(cookie, custom_ua, ua).user_agent == Some(custom_ua),
        custom_ua.len() == 0 ==> session_client_view(cookie, custom_ua, ua).user_agent == Some(ua),
{
}

/// A cookie that is no valid header value is not sent, and then the custom
/// user agent is not used either; an invalid custom user agent falls back to
/// the default one; an invalid default user agent leaves a plain client.
pub proof fn law_session_client_invalid(cookie: Seq<char>, custom_ua: Seq<char>, ua: Seq<char>)
    ensures
        header_text_ok(ua) && !header_text_ok(cookie) ==> session_client_view(cookie, custom_ua, ua)
            == (ClientConfigView { cookie_store: true, cookie: None, user_agent: Some(ua) }),
        header_text_ok(ua) && header_text_ok(cookie) && !header_text_ok(custom_ua)
            ==> session_client_view(cookie, custom_ua, ua).user_agent == Some(ua),
        !header_text_ok(ua) ==> session_client_view(cookie, custom_ua, ua) == (ClientConfigView {
            cookie_store: false,
            cookie: None,
            user_agent: None,
        }),
{
    if header_text_ok(ua) && header_text_ok(cookie) && !header_text_ok(custom_ua) {
        if custom_ua.len() == 0 {
            assert(custom_ua =~= Seq::<char>::empty());
        }
    }
}

} // verus!
