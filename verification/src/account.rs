//! Accounts: the CSRF token carried in a cookie, and the account record built
//! from the account-info ("nav") response.
use vstd::prelude::*;
use crate::ticket::{header_text_ok, header_value_accepts};
use crate::text::{
    chars_of, is_char, is_white_space, lemma_segment_len, lemma_segment_len_shape, lemma_trim_end_at, lemma_trim_start_at,
    white_space, trim_by, segment_len, string_from_range, strip_char, strip_char_range,
    trim_ws, trim_ws_range, decimal_digits, decimal_string, decimal_text,
};
use vstd::string::StringExecFns;
use crate::client::{account_client, account_client_view, opt_client, ClientConfig, ClientConfigView};

verus! {

/// The cookie key that carries the CSRF token, in lower case.
pub open spec fn csrf_key() -> Seq<char> {
    seq!['b', 'i', 'l', 'i', '_', 'j', 'c', 't', '=']
}

/// `c`, lower-cased, is the character `t` (where `t` is itself lower case).
///
/// Besides `t` itself and, for an ASCII letter `t`, its ASCII upper-case
/// form, only two characters lower-case to something that begins with an
/// ASCII letter: U+212A (Kelvin sign), lower-cased to `k`, which the key does
/// not hold, and U+0130, lower-cased to `i` followed by U+0307, whose second
/// character can never line up with the key. So on the key's characters
/// this is exactly "`char::to_lowercase` begins with `t`".
pub open spec fn lower_eq(c: char, t: char) -> bool {
    c == t || ('a' <= t && t <= 'z' && c as u32 + 32 == t as u32)
}

/// `part`, lower-cased, starts with `bili_jct=`.
pub open spec fn is_csrf_entry(part: Seq<char>) -> bool {
    &&& part.len() >= 9
    &&& forall|i: int| 0 <= i < 9 ==> lower_eq(#[trigger] part[i], csrf_key()[i])
}

/// The value of a `bili_jct=` entry: what follows the `=`, without
/// surrounding double quotes, then without surrounding single quotes.
pub open spec fn csrf_value(part: Seq<char>) -> Seq<char> {
    strip_char(strip_char(part.skip(9), '"'), '\'')
}

/// The CSRF token of a cookie: the cookie is split at `;`, each piece is
/// trimmed of white space, and the value of the first piece that is a
/// `bili_jct=` entry (in any letter case) is the token; with no such piece
/// the token is empty.
pub open spec fn csrf_in_cookie(cookie: Seq<char>) -> Seq<char>
    decreases cookie.len(),
{
    let k = segment_len(cookie, ';');
    let part = trim_ws(cookie.take(k as int));
    if is_csrf_entry(part) {
        csrf_value(part)
    } else if k >= cookie.len() {
        Seq::empty()
    } else {
        csrf_in_cookie(cookie.skip(k as int + 1))
    }
}

/// A value that a cookie entry carries unchanged: no `;`, and neither white
/// space nor a quote at either end.
pub open spec fn plain_entry_value(value: Seq<char>) -> bool {
    &&& forall|i: int| 0 <= i < value.len() ==> #[trigger] value[i] != ';'
    &&& value.len() > 0 ==> {
        &&& !is_white_space(value[0])
        &&& !is_white_space(value.last())
        &&& value[0] != '"' && value[0] != '\''
        &&& value.last() != '"' && value.last() != '\''
    }
}

/// A cookie made of one `bili_jct=` entry (the key in any letter case)
/// yields the entry's value, for every value with no `;` and neither white
/// space nor a quote at either end.
pub proof fn law_csrf_of_single_entry(key: Seq<char>, value: Seq<char>)
    requires
        key.len() == 9,
        forall|i: int| 0 <= i < 9 ==> lower_eq(#[trigger] key[i], csrf_key()[i]),
        plain_entry_value(value),
    ensures
        csrf_in_cookie(key + value) == value,
{
    let s = key + value;
    let k = csrf_key();
    assert(k[0] == 'b' && k[1] == 'i' && k[2] == 'l' && k[3] == 'i' && k[4] == '_' && k[5] == 'j'
        && k[6] == 'c' && k[7] == 't' && k[8] == '=');
    assert forall|i: int| 0 <= i < s.len() implies #[trigger] s[i] != ';' by {
        if i < 9 {
            assert(lower_eq(key[i], k[i]));
        } else {
            assert(value[i - 9] != ';');
        }
    }
    lemma_segment_len(s, ';', s.len() as int);
    assert(s.take(s.len() as int) =~= s);
    // No white space to trim at either end.
    assert(lower_eq(s[0], 'b'));
    lemma_trim_start_at(s, white_space(), 0);
    assert(s.subrange(0, s.len() as int) =~= s);
    if value.len() > 0 {
        assert(s[s.len() - 1] == value.last());
    } else {
        assert(lower_eq(s[8], '='));
    }
    lemma_trim_end_at(s, white_space(), s.len() as int);
    assert(trim_ws(s) == s);
    assert(is_csrf_entry(s));
    // No quotes to strip.
    assert(s.skip(9) =~= value);
    lemma_trim_start_at(value, is_char('"'), 0);
    assert(value.subrange(0, value.len() as int) =~= value);
    lemma_trim_end_at(value, is_char('"'), value.len() as int);
    lemma_trim_start_at(value, is_char('\''), 0);
    lemma_trim_end_at(value, is_char('\''), value.len() as int);
}

/// The key is matched in any letter case: a cookie made of `bili_jct=`
/// written with any of its letters in upper case, followed by a plain value,
/// yields that value.
pub proof fn law_csrf_key_any_case(key: Seq<char>, value: Seq<char>)
    requires
        key.len() == 9,
        forall|i: int|
            0 <= i < 9 ==> (#[trigger] key[i] == csrf_key()[i] || ('a' <= csrf_key()[i] <= 'z'
                && key[i] as u32 + 32 == csrf_key()[i] as u32)),
        plain_entry_value(value),
    ensures
        csrf_in_cookie(key + value) == value,
{
    assert forall|i: int| 0 <= i < 9 implies lower_eq(#[trigger] key[i], csrf_key()[i]) by {
        assert(key[i] == csrf_key()[i] || ('a' <= csrf_key()[i] <= 'z' && key[i] as u32 + 32
            == csrf_key()[i] as u32));
    }
    law_csrf_of_single_entry(key, value);
}

/// Whether some `;`-piece of `cookie`, trimmed of white space, is a
/// `bili_jct=` entry.
pub open spec fn has_csrf_entry(cookie: Seq<char>) -> bool
    decreases cookie.len(),
{
    let k = segment_len(cookie, ';');
    if is_csrf_entry(trim_ws(cookie.take(k as int))) {
        true
    } else if k >= cookie.len() {
        false
    } else {
        has_csrf_entry(cookie.skip(k as int + 1))
    }
}

/// When `c1` holds a `bili_jct=` entry, whatever follows it after a `;`
/// does not change the token: the first entry decides.
pub proof fn law_csrf_entry_decides(c1: Seq<char>, c2: Seq<char>)
    requires
        has_csrf_entry(c1),
    ensures
        csrf_in_cookie(c1 + seq![';'] + c2) == csrf_in_cookie(c1),
    decreases c1.len(),
{
    let s = c1 + seq![';'] + c2;
    let k = segment_len(c1, ';');
    lemma_segment_len_shape(c1, ';');
    assert forall|j: int| 0 <= j < k implies #[trigger] s[j] != ';' by {
        assert(s[j] == c1[j]);
    }
    if k < c1.len() {
        assert(s[k as int] == c1[k as int]);
        lemma_segment_len(s, ';', k as int);
        assert(s.take(k as int) =~= c1.take(k as int));
        if !is_csrf_entry(trim_ws(c1.take(k as int))) {
            let r1 = c1.skip(k as int + 1);
            law_csrf_entry_decides(r1, c2);
            assert(s.skip(k as int + 1) =~= r1 + seq![';'] + c2);
        }
    } else {
        assert(s[k as int] == ';');
        lemma_segment_len(s, ';', k as int);
        assert(s.take(k as int) =~= c1);
        assert(c1.take(k as int) =~= c1);
    }
}

/// A piece before the first `;` that is not a `bili_jct=` entry does not
/// change the token.
pub proof fn law_csrf_skips_other_piece(piece: Seq<char>, rest: Seq<char>)
    requires
        forall|i: int| 0 <= i < piece.len() ==> #[trigger] piece[i] != ';',
        !is_csrf_entry(trim_ws(piece)),
    ensures
        csrf_in_cookie(piece + seq![';'] + rest) == csrf_in_cookie(rest),
{
    let s = piece + seq![';'] + rest;
    assert forall|i: int| 0 <= i < piece.len() implies #[trigger] s[i] != ';' by {
        assert(s[i] == piece[i]);
    }
    assert(s[piece.len() as int] == ';');
    lemma_segment_len(s, ';', piece.len() as int);
    assert(s.take(piece.len() as int) =~= piece);
    assert(s.skip(piece.len() as int + 1) =~= rest);
}

/// The first piece that is a `bili_jct=` entry decides the token, whatever
/// follows it.
pub proof fn law_csrf_first_entry_wins(piece: Seq<char>, rest: Seq<char>)
    requires
        forall|i: int| 0 <= i < piece.len() ==> #[trigger] piece[i] != ';',
        is_csrf_entry(trim_ws(piece)),
    ensures
        csrf_in_cookie(piece + seq![';'] + rest) == csrf_value(trim_ws(piece)),
{
    let s = piece + seq![';'] + rest;
    assert forall|i: int| 0 <= i < piece.len() implies #[trigger] s[i] != ';' by {
        assert(s[i] == piece[i]);
    }
    assert(s[piece.len() as int] == ';');
    lemma_segment_len(s, ';', piece.len() as int);
    assert(s.take(piece.len() as int) =~= piece);
}

fn lower_eq_exec(c: char, t: char) -> (r: bool)
    ensures
        r == lower_eq(c, t),
{
    c == t || ('a' <= t && t <= 'z' && (c as u32) + 32 == t as u32)
}

/// Whether `v[a..b]` is a `bili_jct=` entry.
fn is_csrf_range(v: &Vec<char>, a: usize, b: usize) -> (r: bool)
    requires
        a <= b <= v.len(),
    ensures
        r == is_csrf_entry(v@.subrange(a as int, b as int)),
{
    let key: [char; 9] = ['b', 'i', 'l', 'i', '_', 'j', 'c', 't', '='];
    assert(key@ =~= csrf_key());
    if b - a < 9 {
        return false;
    }
    let ghost part = v@.subrange(a as int, b as int);
    for k in 0..9
        invariant
            a + 9 <= b <= v.len(),
            part == v@.subrange(a as int, b as int),
            key@ == csrf_key(),
            forall|i: int| 0 <= i < k ==> lower_eq(#[trigger] part[i], csrf_key()[i]),
    {
        if !lower_eq_exec(v[a + k], key[k]) {
            assert(part[k as int] == v@[a + k]);
            return false;
        }
    }
    true
}

/// Extracts the CSRF token (`bili_jct`) from a cookie string; empty when the
/// cookie has none.
pub fn extract_csrf(cookie: &str) -> (r: String)
    ensures
        r@ == csrf_in_cookie(cookie@),
{
    let v = chars_of(cookie);
    let n = v.len();
    let mut start: usize = 0;
    let mut i: usize = 0;
    assert(v@.skip(0) =~= v@);
    loop
        invariant
            0 <= start <= i <= n,
            n == v@.len(),
            v@ == cookie@,
            csrf_in_cookie(v@) == csrf_in_cookie(v@.skip(start as int)),
            forall|k: int| start <= k < i ==> #[trigger] v@[k] != ';',
        decreases n - i,
    {
        if i == n || v[i] == ';' {
            let ghost rest = v@.skip(start as int);
            proof {
                assert forall|k: int| 0 <= k < i - start implies #[trigger] rest[k] != ';' by {
                    assert(rest[k] == v@[start + k]);
                }
                lemma_segment_len(rest, ';', i - start);
                assert(rest.take(i - start) =~= v@.subrange(start as int, i as int));
            }
            let (a, b) = trim_ws_range(&v, start, i);
            if is_csrf_range(&v, a, b) {
                let ghost part = v@.subrange(a as int, b as int);
                assert(part.skip(9) =~= v@.subrange(a + 9, b as int));
                let (c, d) = strip_char_range(&v, a + 9, b, '"');
                let (e, f) = strip_char_range(&v, c, d, '\'');
                return string_from_range(&v, e, f);
            }
            if i == n {
                return String::new();
            }
            assert(rest.skip(i - start + 1) =~= v@.skip(i + 1));
            start = i + 1;
        }
        i += 1;
    }
}

/// An account the client can buy tickets with.
#[derive(Debug)]
pub struct Account {
    /// User id.
    pub uid: i64,
    /// Nickname.
    pub name: String,
    /// Account level, in decimal.
    pub level: String,
    pub cookie: String,
    pub csrf: String,
    pub is_login: bool,
    /// Status shown to the user ("idle" once added).
    pub account_status: String,
    /// Membership label (the `vip_label.text` of the account info).
    pub vip_label: String,
    /// Whether this account takes part in ticket grabbing.
    pub is_active: bool,
    pub avatar_url: Option<String>,
    /// The account's HTTP client.
    pub client: Option<ClientConfig>,
}

/// The contents of an [`Account`] as plain values.
#[verifier::ext_equal]
pub struct AccountView {
    pub uid: i64,
    pub name: Seq<char>,
    pub level: Seq<char>,
    pub cookie: Seq<char>,
    pub csrf: Seq<char>,
    pub is_login: bool,
    pub account_status: Seq<char>,
    pub vip_label: Seq<char>,
    pub is_active: bool,
    pub avatar_url: Option<Seq<char>>,
    pub client: Option<ClientConfigView>,
}

/// An optional string as optional text.
pub open spec fn opt_text(o: Option<String>) -> Option<Seq<char>> {
    match o {
        Some(s) => Some(s@),
        None => None,
    }
}

impl View for Account {
    type V = AccountView;

    open spec fn view(&self) -> AccountView {
        AccountView {
            uid: self.uid,
            name: self.name@,
            level: self.level@,
            cookie: self.cookie@,
            csrf: self.csrf@,
            is_login: self.is_login,
            account_status: self.account_status@,
            vip_label: self.vip_label@,
            is_active: self.is_active,
            avatar_url: opt_text(self.avatar_url),
            client: opt_client(self.client),
        }
    }
}

impl Clone for Account {
    fn clone(&self) -> (r: Self)
        ensures
            r@ == self@,
    {
        Account {
            uid: self.uid,
            name: self.name.clone(),
            level: self.level.clone(),
            cookie: self.cookie.clone(),
            csrf: self.csrf.clone(),
            is_login: self.is_login,
            account_status: self.account_status.clone(),
            vip_label: self.vip_label.clone(),
            is_active: self.is_active,
            avatar_url: match &self.avatar_url {
                Some(u) => Some(u.clone()),
                None => None,
            },
            client: match &self.client {
                Some(c) => Some(c.clone()),
                None => None,
            },
        }
    }
}

/// The account-info ("nav") response, as far as accounts are built from it.
///
/// `code` is the response's integer `code` (`None` when it is missing or not
/// an integer); `data` is present exactly when the response has a `data`
/// member.
pub struct NavInfo {
    pub code: Option<i64>,
    pub data: Option<NavData>,
}

/// The members of the response's `data` that accounts read; each is `None`
/// when missing or of another JSON type.
pub struct NavData {
    /// `data.mid`.
    pub mid: Option<i64>,
    /// `data.uname`.
    pub uname: Option<String>,
    /// `data.level_info.current_level`.
    pub current_level: Option<i64>,
    /// `data.vip_label.text`.
    pub vip_label_text: Option<String>,
    /// `data.face`.
    pub face: Option<String>,
}

/// Nickname used when the response carries none.
pub open spec fn missing_name_text() -> Seq<char> {
    "账号信息获取失败，请删除重新登录"@
}

/// Status of a freshly added account ("idle").
pub open spec fn idle_status_text() -> Seq<char> {
    "空闲"@
}

/// Error when the response's code is not 0.
pub open spec fn nav_failed_text() -> Seq<char> {
    "获取账号信息失败"@
}

/// Error when the response has no `data`.
pub open spec fn nav_no_data_text() -> Seq<char> {
    "无法获取用户信息"@
}

/// The text of `o`, or `default` when it is `None`.
pub open spec fn text_or(o: Option<String>, default: Seq<char>) -> Seq<char> {
    match o {
        Some(s) => s@,
        None => default,
    }
}

/// The account that logging in with `cookie` through `client` yields, given
/// the response's `data`; it keeps using that client.
pub open spec fn account_from_nav(cookie: Seq<char>, client: ClientConfigView, d: NavData) -> AccountView {
    AccountView {
        uid: match d.mid {
            Some(m) => m,
            None => 0,
        },
        name: text_or(d.uname, missing_name_text()),
        level: decimal_text(
            match d.current_level {
                Some(l) => l as int,
                None => 0,
            },
        ),
        cookie: cookie,
        csrf: csrf_in_cookie(cookie),
        is_login: true,
        account_status: idle_status_text(),
        vip_label: text_or(d.vip_label_text, Seq::empty()),
        is_active: true,
        avatar_url: Some(text_or(d.face, Seq::empty())),
        client: Some(client),
    }
}

/// The account built from an account-info response: user id `data.mid`
/// (0 when missing), nickname `data.uname` (a notice asking to log in again
/// when missing), level in decimal (0 when missing), the cookie as given and
/// its CSRF token, logged in, idle, taking part in ticket grabbing, the
/// membership label and avatar address (empty when missing), and the client
/// that fetched the response.
pub proof fn law_account_from_nav(cookie: Seq<char>, client: ClientConfigView, d: NavData)
    ensures
        ({
            let a = account_from_nav(cookie, client, d);
            &&& d.mid matches Some(m) ==> a.uid == m
            &&& d.mid is None ==> a.uid == 0
            &&& d.uname matches Some(u) ==> a.name == u@
            &&& d.uname is None ==> a.name == "账号信息获取失败，请删除重新登录"@
            &&& d.current_level matches Some(l) ==> a.level == decimal_text(l as int)
            &&& d.current_level is None ==> a.level == seq!['0']
            &&& a.cookie == cookie
            &&& a.csrf == csrf_in_cookie(cookie)
            &&& a.is_login
            &&& a.account_status == "空闲"@
            &&& a.is_active
            &&& d.vip_label_text matches Some(v) ==> a.vip_label == v@
            &&& d.vip_label_text is None ==> a.vip_label.len() == 0
            &&& d.face matches Some(f) ==> a.avatar_url == Some(f@)
            &&& d.face is None ==> a.avatar_url == Some(Seq::<char>::empty())
            &&& a.client == Some(client)
        }),
{
    reveal_with_fuel(decimal_digits, 1);
}

fn text_or_exec(o: &Option<String>, default: &str) -> (s: String)
    ensures
        s@ == text_or(*o, default@),
{
    match o {
        Some(t) => t.clone(),
        None => String::from_str(default),
    }
}

/// Builds the account for `cookie` from the account-info response that
/// `client` fetched: an error unless the response's code is 0 and it carries
/// `data`.
pub fn add_account(cookie: &str, client: &ClientConfig, nav: &NavInfo) -> (r: Result<Account, String>)
    ensures
        r is Ok <==> (nav.code == Some(0i64) && nav.data is Some),
        r matches Ok(a) ==> a@ == account_from_nav(cookie@, client@, nav.data->0),
        r matches Err(e) ==> e@ == (if nav.code == Some(0i64) {
            nav_no_data_text()
        } else {
            nav_failed_text()
        }),
{
    match nav.code {
        Some(code) if code == 0 => {},
        _ => {
            return Err(String::from_str("获取账号信息失败"));
        },
    }
    match &nav.data {
        Some(d) => {
            let uid = match d.mid {
                Some(m) => m,
                None => 0,
            };
            let level = match d.current_level {
                Some(l) => l,
                None => 0,
            };
            let account = Account {
                uid,
                name: text_or_exec(&d.uname, "账号信息获取失败，请删除重新登录"),
                level: decimal_string(level),
                cookie: String::from_str(cookie),
                csrf: extract_csrf(cookie),
                is_login: true,
                account_status: String::from_str("空闲"),
                vip_label: text_or_exec(&d.vip_label_text, ""),
                is_active: true,
                avatar_url: Some(text_or_exec(&d.face, "")),
                client: Some(client.clone()),
            };
            assert(account@ == account_from_nav(cookie@, client@, *d)) by {
                reveal_strlit("");
            }
            Ok(account)
        },
        None => Err(String::from_str("无法获取用户信息")),
    }
}

impl Account {
    /// Gives the account its own client when it has none; `random_id` makes
    /// that client's user agent.
    pub fn ensure_client(&mut self, random_id: u32)
        ensures
            final(self)@ == (AccountView {
                client: Some(
                    match old(self)@.client {
                        Some(c) => c,
                        None => account_client_view(random_id),
                    },
                ),
                ..old(self)@
            }),
    {
        if self.client.is_none() {
            self.client = Some(account_client(self.cookie.as_str(), random_id));
        }
    }

    /// Gives the account a new own client; `random_id` makes its user agent.
    pub fn refresh_client(&mut self, random_id: u32)
        ensures
            final(self)@ == (AccountView { client: Some(account_client_view(random_id)), ..old(self)@ }),
    {
        self.client = Some(account_client(self.cookie.as_str(), random_id));
    }
}

// ---------------------------------------------------------------------------
// Debug text

/// What `format!("{:?}", s)` gives for the text `s`: the text in double
/// quotes with `Debug` escapes.
pub uninterp spec fn str_debug(s: Seq<char>) -> Seq<char>;

/// Calls `<str as Debug>::fmt` through `format!("{:?}", s)`. Trusted: the
/// result is, by name, the debug form of `s`, a function of `s` alone; the
/// escaping rules are not stated here.
#[verifier::external_body]
fn debug_str(s: &str) -> (r: String)
    ensures
        r@ == str_debug(s@),
{
    format!("{:?}", s)
}

/// `true` or `false`.
pub open spec fn bool_text(b: bool) -> Seq<char> {
    if b {
        "true"@
    } else {
        "false"@
    }
}

/// The debug form of an optional text.
pub open spec fn opt_debug(o: Option<Seq<char>>) -> Seq<char> {
    match o {
        Some(t) => "Some("@ + str_debug(t) + ")"@,
        None => "None"@,
    }
}

/// The debug form of an optional client set-up.
pub open spec fn client_debug(c: Option<ClientConfigView>) -> Seq<char> {
    match c {
        Some(c) => "Some(ClientConfig { cookie_store: "@ + bool_text(c.cookie_store) + ", cookie: "@
            + opt_debug(c.cookie) + ", user_agent: "@ + opt_debug(c.user_agent) + " })"@,
        None => "None"@,
    }
}

/// The debug form of an account: every field in order, the avatar texture
/// shown as skipped, and the client by its set-up.
pub open spec fn account_debug(a: AccountView) -> Seq<char> {
    "Account { uid: "@ + decimal_text(a.uid as int) + ", name: "@ + str_debug(a.name) + ", level: "@
        + str_debug(a.level) + ", cookie: "@ + str_debug(a.cookie) + ", csrf: "@ + str_debug(a.csrf)
        + ", is_login: "@ + bool_text(a.is_login) + ", account_status: "@ + str_debug(
        a.account_status,
    ) + ", vip_label: "@ + str_debug(a.vip_label) + ", is_active: "@ + bool_text(a.is_active)
        + ", avatar_url: "@ + opt_debug(a.avatar_url)
        + ", avatar_texture: \"SKipped\", client: "@ + client_debug(a.client) + " }"@
}

fn append_bool(s: &mut String, b: bool)
    ensures
        final(s)@ == old(s)@ + bool_text(b),
{
    if b {
        s.append("true");
    } else {
        s.append("false");
    }
}

fn append_opt_debug(s: &mut String, o: &Option<String>)
    ensures
        final(s)@ == old(s)@ + opt_debug(opt_text(*o)),
{
    match o {
        Some(t) => {
            s.append("Some(");
            s.append(debug_str(t.as_str()).as_str());
            s.append(")");
        },
        None => s.append("None"),
    }
}

impl Account {
    /// The account's debug text, as `Debug` shows it.
    #[verifier::spinoff_prover]
    pub fn debug_text(&self) -> (r: String)
        ensures
            r@ == account_debug(self@),
    {
        let mut s = String::from_str("Account { uid: ");
        s.append(decimal_string(self.uid).as_str());
        s.append(", name: ");
        s.append(debug_str(self.name.as_str()).as_str());
        s.append(", level: ");
        s.append(debug_str(self.level.as_str()).as_str());
        s.append(", cookie: ");
        s.append(debug_str(self.cookie.as_str()).as_str());
        s.append(", csrf: ");
        s.append(debug_str(self.csrf.as_str()).as_str());
        s.append(", is_login: ");
        append_bool(&mut s, self.is_login);
        s.append(", account_status: ");
        s.append(debug_str(self.account_status.as_str()).as_str());
        s.append(", vip_label: ");
        s.append(debug_str(self.vip_label.as_str()).as_str());
        s.append(", is_active: ");
        append_bool(&mut s, self.is_active);
        s.append(", avatar_url: ");
        append_opt_debug(&mut s, &self.avatar_url);
        s.append(", avatar_texture: \"SKipped\", client: ");
        match &self.client {
            Some(c) => {
                s.append("Some(ClientConfig { cookie_store: ");
                append_bool(&mut s, c.cookie_store);
                s.append(", cookie: ");
                append_opt_debug(&mut s, &c.cookie);
                s.append(", user_agent: ");
                append_opt_debug(&mut s, &c.user_agent);
                s.append(" })");
            },
            None => s.append("None"),
        }
        s.append(" }");
        s
    }
}

/// Start of the user agent of an account's own HTTP client; a random number
/// follows it.
pub open spec fn account_ua_prefix() -> Seq<char> {
    "Mozilla/5.0 (Windows NT 10.0; Win64; x64) AppleWebKit/537.36 (KHTML, like Gecko) Chrome/120.0.0.0 Safari/537.36 "@
}

/// User agent used when the composed one is not a valid header value.
pub open spec fn account_ua_fallback() -> Seq<char> {
    "Mozilla/5.0"@
}

/// The user agent of an account's own HTTP client: the browser string
/// followed by `random_id` in decimal, or the short fallback when that is
/// not a valid header value.
pub fn account_user_agent(random_id: u32) -> (r: String)
    ensures
        ({
            let ua = account_ua_prefix() + decimal_text(random_id as int);
            r@ == if header_text_ok(ua) {
                ua
            } else {
                account_ua_fallback()
            }
        }),
{
    let mut ua = String::from_str(
        "Mozilla/5.0 (Windows NT 10.0; Win64; x64) AppleWebKit/537.36 (KHTML, like Gecko) Chrome/120.0.0.0 Safari/537.36 ",
    );
    let id = decimal_string(random_id as i64);
    ua.append(id.as_str());
    if header_value_accepts(ua.as_str()) {
        ua
    } else {
        String::from_str("Mozilla/5.0")
    }
}

} // verus!
