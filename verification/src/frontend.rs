//! The desktop front end's account list, its log and error banner, the
//! ticket sessions of the accounts, and its user agents.
use vstd::prelude::*;
use std::collections::HashMap;
use crate::account::{
    account_from_nav, add_account, nav_failed_text, nav_no_data_text, Account, AccountView, NavInfo,
};
use crate::client::{account_client_view, ClientConfig};
use crate::config::OrderResponse;
use crate::taskmanager::{QrCodeLoginStatus, TaskResult, TicketTask};
use crate::ticket::{BilibiliTicket, BuyerInfoData, TicketInfo, header_text_ok, header_value_accepts};
use crate::text::{is_alphanumeric, push_char};
use crate::text::{
    chars_of, contains_text, decimal_text, i64_of_text, law_decimal_text_parses_back, parse_i64,
    same_text, text_contains,
};
use vstd::string::StringExecFns;

verus! {

/// The accounts the user has added, and their running ticket tasks.
pub struct AccountManager {
    pub accounts: Vec<Account>,
    pub active_tasks: HashMap<String, TicketTask>,
}

/// A request from the account list to switch ticket grabbing on or off for
/// the account whose user id is written in `uid`.
pub struct AccountSwitch {
    pub uid: String,
    pub switch: bool,
}

/// All orders of one account, as last fetched.
pub struct OrderData {
    pub account_id: String,
    pub data: Option<OrderResponse>,
}

/// The user id written in `text`, or `default` when `text` is not an `i64`
/// (`text.parse::<i64>().unwrap_or(default)`).
pub open spec fn uid_of_text(text: Seq<char>, default: i64) -> i64 {
    match i64_of_text(text) {
        Some(v) => v,
        None => default,
    }
}

/// The predicate "the account's user id is not `uid`".
pub open spec fn other_uid(uid: i64) -> spec_fn(Account) -> bool {
    |a: Account| a.uid != uid
}

/// Index of the first account with user id `uid`.
pub open spec fn first_with_uid(accounts: Seq<Account>, uid: i64) -> Option<int> {
    if exists|k: int| 0 <= k < accounts.len() && (#[trigger] accounts[k]).uid == uid {
        Some(
            choose|k: int|
                0 <= k < accounts.len() && (#[trigger] accounts[k]).uid == uid && forall|m: int|
                    0 <= m < k ==> (#[trigger] accounts[m]).uid != uid,
        )
    } else {
        None
    }
}

proof fn lemma_least_account(accounts: Seq<Account>, uid: i64, k: int)
    requires
        0 <= k < accounts.len(),
        accounts[k].uid == uid,
    ensures
        exists|j: int|
            0 <= j < accounts.len() && (#[trigger] accounts[j]).uid == uid && forall|m: int|
                0 <= m < j ==> (#[trigger] accounts[m]).uid != uid,
    decreases k,
{
    if forall|m: int| 0 <= m < k ==> (#[trigger] accounts[m]).uid != uid {
        assert(accounts[k].uid == uid);
    } else {
        let m = choose|m: int| 0 <= m < k && (#[trigger] accounts[m]).uid == uid;
        lemma_least_account(accounts, uid, m);
    }
}

/// `first_with_uid` is the least index of an account with user id `uid`,
/// and `None` exactly when no account has it.
pub proof fn lemma_first_with_uid(accounts: Seq<Account>, uid: i64)
    ensures
        match first_with_uid(accounts, uid) {
            Some(k) => {
                &&& 0 <= k < accounts.len()
                &&& accounts[k].uid == uid
                &&& forall|m: int| 0 <= m < k ==> (#[trigger] accounts[m]).uid != uid
            },
            None => forall|m: int| 0 <= m < accounts.len() ==> (#[trigger] accounts[m]).uid != uid,
        },
{
    if exists|k: int| 0 <= k < accounts.len() && (#[trigger] accounts[k]).uid == uid {
        let k = choose|k: int| 0 <= k < accounts.len() && (#[trigger] accounts[k]).uid == uid;
        lemma_least_account(accounts, uid, k);
    }
}

/// Text that writes an `i64` stands for that number; any other text stands
/// for the default.
pub proof fn law_uid_of_text(text: Seq<char>, default: i64)
    ensures
        i64_of_text(text) matches Some(n) ==> uid_of_text(text, default) == n,
        i64_of_text(text) is None ==> uid_of_text(text, default) == default,
{
}

/// The user id written in `text`, or `default`.
pub fn parse_uid(text: &str, default: i64) -> (r: i64)
    ensures
        r == uid_of_text(text@, default),
{
    match parse_i64(text) {
        Some(v) => v,
        None => default,
    }
}

/// Deleting by the user id as the front end writes it (`uid.to_string()`)
/// removes every account with that id and keeps every other account.
pub proof fn law_delete_written_uid(accounts: Seq<Account>, uid: i64)
    ensures
        ({
            let kept = accounts.filter(other_uid(uid_of_text(decimal_text(uid as int), -1i64)));
            &&& forall|i: int| 0 <= i < kept.len() ==> (#[trigger] kept[i]).uid != uid
            &&& forall|i: int|
                0 <= i < accounts.len() && (#[trigger] accounts[i]).uid != uid ==> kept.contains(
                    accounts[i],
                )
        }),
{
    law_decimal_text_parses_back(uid);
    accounts.filter_lemma(other_uid(uid));
}

/// Deleting by any text removes exactly the accounts whose user id is the
/// one the text writes (-1 for text that is no number): none of them is
/// left, and every other account stays.
pub proof fn law_delete_removes_exactly(accounts: Seq<Account>, text: Seq<char>)
    ensures
        ({
            let n = uid_of_text(text, -1i64);
            let kept = accounts.filter(other_uid(n));
            &&& forall|i: int| 0 <= i < kept.len() ==> (#[trigger] kept[i]).uid != n
            &&& forall|i: int|
                0 <= i < accounts.len() && (#[trigger] accounts[i]).uid != n ==> kept.contains(
                    accounts[i],
                )
            &&& forall|i: int| 0 <= i < kept.len() ==> accounts.contains(#[trigger] kept[i])
        }),
{
    let n = uid_of_text(text, -1i64);
    let kept = accounts.filter(other_uid(n));
    accounts.filter_lemma(other_uid(n));
    assert forall|i: int| 0 <= i < kept.len() implies accounts.contains(#[trigger] kept[i]) by {
        assert(kept.contains(kept[i]));
        accounts.lemma_filter_contains_rev(other_uid(n), kept[i]);
    }
}

proof fn lemma_filter_keeps_all(s: Seq<Account>, p: spec_fn(Account) -> bool)
    requires
        forall|i: int| 0 <= i < s.len() ==> p(#[trigger] s[i]),
    ensures
        s.filter(p) == s,
    decreases s.len(),
{
    reveal_with_fuel(Seq::<_>::filter, 1);
    if s.len() > 0 {
        let t = s.drop_last();
        assert forall|i: int| 0 <= i < t.len() implies p(#[trigger] t[i]) by {
            assert(t[i] == s[i]);
        }
        lemma_filter_keeps_all(t, p);
        assert(p(s.last()));
        assert(t.push(s.last()) =~= s);
    }
}

/// Adding an account whose user id no listed account has, then deleting by
/// that id as the front end writes it, gives back the list as it was.
pub proof fn law_delete_undoes_add(accounts: Seq<Account>, a: Account)
    requires
        forall|i: int| 0 <= i < accounts.len() ==> (#[trigger] accounts[i]).uid != a.uid,
    ensures
        accounts.push(a).filter(other_uid(uid_of_text(decimal_text(a.uid as int), -1i64)))
            == accounts,
{
    law_decimal_text_parses_back(a.uid);
    let p = other_uid(a.uid);
    reveal_with_fuel(Seq::<_>::filter, 1);
    assert(accounts.push(a).drop_last() =~= accounts);
    assert(!p(a));
    lemma_filter_keeps_all(accounts, p);
}

/// `a` with ticket grabbing switched to `active`.
pub open spec fn with_active(a: Account, active: bool) -> Account {
    Account { is_active: active, ..a }
}

/// Switching sets ticket grabbing to exactly the requested value, whatever
/// it was before, and changes nothing else of the account.
pub proof fn law_switch_sets_requested_value(a: Account, active: bool)
    ensures
        with_active(a, active).is_active == active,
        with_active(a, active).uid == a.uid,
        with_active(a, active).cookie == a.cookie,
        with_active(a, active).client == a.client,
        (Account { is_active: a.is_active, ..with_active(a, active) } == a),
{
}

/// Switching the account with the user id written in `text` sets exactly
/// that account's ticket grabbing to the requested value: when the first
/// account with that id is at `k`, the list after the switch holds at `k`
/// the same account with `is_active == active`, and every other account is
/// untouched.
pub proof fn law_switch_targets_first_match(accounts: Seq<Account>, text: Seq<char>, active: bool, k: int)
    requires
        0 <= k < accounts.len(),
        accounts[k].uid == uid_of_text(text, -1i64),
        forall|m: int| 0 <= m < k ==> (#[trigger] accounts[m]).uid != uid_of_text(text, -1i64),
    ensures
        first_with_uid(accounts, uid_of_text(text, -1i64)) == Some(k),
        ({
            let after = accounts.update(k, with_active(accounts[k], active));
            &&& after.len() == accounts.len()
            &&& after[k].is_active == active
            &&& Account { is_active: accounts[k].is_active, ..after[k] } == accounts[k]
            &&& forall|m: int| 0 <= m < accounts.len() && m != k ==> after[m] == accounts[m]
        }),
{
    let uid = uid_of_text(text, -1i64);
    lemma_first_with_uid(accounts, uid);
    match first_with_uid(accounts, uid) {
        Some(j) => {
            if j < k {
                assert(accounts[j].uid != uid);
            }
            if j > k {
                assert(accounts[k].uid != uid);
            }
        },
        None => {
            assert(accounts[k].uid != uid);
        },
    }
}

/// Only lines that mention `ERROR:`, `error:`, `Error:` or "抢票" raise the
/// error banner; every other line is only logged.
pub proof fn law_alert_patterns(m: Seq<char>)
    ensures
        is_alert_message(m) == (contains_text(m, "ERROR:"@) || contains_text(m, "error:"@)
            || contains_text(m, "Error:"@) || contains_text(m, "抢票"@)),
        !contains_text(m, "ERROR:"@) && !contains_text(m, "error:"@) && !contains_text(m, "Error:"@)
            && !contains_text(m, "抢票"@) ==> !is_alert_message(m),
{
}

impl AccountManager {
    /// An account list holding `accounts` and no running tasks.
    pub fn new(accounts: Vec<Account>) -> (r: Self)
        ensures
            r.accounts@ == accounts@,
            r.active_tasks@ == Map::<String, TicketTask>::empty(),
    {
        AccountManager { accounts, active_tasks: HashMap::new() }
    }

    /// Adds a logged-in account at the end of the list.
    pub fn add(&mut self, account: Account)
        ensures
            final(self).accounts@ == old(self).accounts@.push(account),
            final(self).active_tasks == old(self).active_tasks,
    {
        self.accounts.push(account);
    }

    /// Logs in with `cookie`: builds the account from the account-info
    /// response that `client` fetched and adds it at the end of the list;
    /// on an error the list is unchanged and the error is returned.
    pub fn login_with_cookie(&mut self, cookie: &str, client: &ClientConfig, nav: &NavInfo) -> (r:
        Result<(), String>)
        ensures
            r is Ok <==> (nav.code == Some(0i64) && nav.data is Some),
            r is Ok ==> final(self).accounts@.len() == old(self).accounts@.len() + 1
                && final(self).accounts@.drop_last() == old(self).accounts@
                && final(self).accounts@.last()@ == account_from_nav(
                cookie@,
                client@,
                nav.data->0,
            ),
            r matches Err(e) ==> final(self).accounts@ == old(self).accounts@ && e@ == (if nav.code
                == Some(0i64) {
                nav_no_data_text()
            } else {
                nav_failed_text()
            }),
            final(self).active_tasks == old(self).active_tasks,
    {
        match add_account(cookie, client, nav) {
            Ok(account) => {
                self.accounts.push(account);
                assert(self.accounts@.drop_last() =~= old(self).accounts@);
                Ok(())
            },
            Err(e) => Err(e),
        }
    }

    /// Gives every account that has no client its own one, the `i`-th made
    /// with the random number `ids[i]`; accounts that have one keep it.
    pub fn ensure_clients(&mut self, ids: &Vec<u32>)
        requires
            ids@.len() == old(self).accounts@.len(),
        ensures
            final(self).accounts@.len() == old(self).accounts@.len(),
            forall|i: int|
                0 <= i < old(self).accounts@.len() ==> (#[trigger] final(self).accounts@[i])@ == (
                AccountView {
                    client: Some(
                        match old(self).accounts@[i]@.client {
                            Some(c) => c,
                            None => account_client_view(ids@[i]),
                        },
                    ),
                    ..old(self).accounts@[i]@
                }),
            final(self).active_tasks == old(self).active_tasks,
    {
        let n = self.accounts.len();
        let mut i: usize = 0;
        while i < n
            invariant
                n == self.accounts@.len(),
                n == old(self).accounts@.len(),
                ids@.len() == n,
                i <= n,
                self.active_tasks == old(self).active_tasks,
                forall|k: int| i <= k < n ==> self.accounts@[k] == old(self).accounts@[k],
                forall|k: int|
                    0 <= k < i ==> (#[trigger] self.accounts@[k])@ == (AccountView {
                        client: Some(
                            match old(self).accounts@[k]@.client {
                                Some(c) => c,
                                None => account_client_view(ids@[k]),
                            },
                        ),
                        ..old(self).accounts@[k]@
                    }),
            decreases n - i,
        {
            let ghost before = self.accounts@;
            let mut a = self.accounts.remove(i);
            a.ensure_client(ids[i]);
            self.accounts.insert(i, a);
            proof {
                assert forall|k: int| 0 <= k < n && k != i implies self.accounts@[k] == before[k] by {
                    if k < i {
                        assert(self.accounts@[k] == before[k]);
                    } else {
                        assert(self.accounts@[k] == before[k]);
                    }
                }
            }
            i += 1;
        }
    }

    /// Removes every account whose user id is written in `account_id`
    /// (text that is not a user id stands for -1); the others keep their
    /// order.
    pub fn delete_account(&mut self, account_id: &str)
        ensures
            final(self).accounts@ == old(self).accounts@.filter(
                other_uid(uid_of_text(account_id@, -1i64)),
            ),
            final(self).active_tasks == old(self).active_tasks,
    {
        let uid = parse_uid(account_id, -1);
        let ghost p = other_uid(uid);
        let ghost orig = self.accounts@;
        let mut i: usize = 0;
        let ghost mut j: int = 0;
        assert(orig.take(0).filter(p) =~= Seq::<Account>::empty()) by {
            reveal_with_fuel(Seq::<_>::filter, 1);
        }
        assert(orig.skip(0) =~= orig);
        while i < self.accounts.len()
            invariant
                0 <= j <= orig.len(),
                i == orig.take(j).filter(p).len(),
                self.accounts@ == orig.take(j).filter(p) + orig.skip(j),
                self.active_tasks == old(self).active_tasks,
                orig == old(self).accounts@,
                p == other_uid(uid),
            decreases self.accounts.len() - i,
        {
            proof {
                assert(orig.take(j + 1).drop_last() =~= orig.take(j));
                reveal_with_fuel(Seq::<_>::filter, 1);
                assert(self.accounts@[i as int] == orig[j]);
            }
            if self.accounts[i].uid == uid {
                self.accounts.remove(i);
                proof {
                    assert(self.accounts@ =~= orig.take(j + 1).filter(p) + orig.skip(j + 1));
                    j = j + 1;
                }
            } else {
                proof {
                    assert(orig.take(j + 1).filter(p) == orig.take(j).filter(p).push(orig[j]));
                    assert(self.accounts@ =~= orig.take(j + 1).filter(p) + orig.skip(j + 1));
                    j = j + 1;
                }
                i += 1;
            }
        }
        proof {
            assert(j == orig.len());
            assert(orig.take(j) =~= orig);
            assert(orig.skip(j) =~= Seq::<Account>::empty());
            assert(self.accounts@ =~= orig.filter(p));
        }
    }

    /// Switches ticket grabbing for the first account whose user id is
    /// written in `switch.uid` (text that is not a user id stands for -1);
    /// returns whether there was such an account. No other account changes.
    pub fn switch_account(&mut self, switch: &AccountSwitch) -> (found: bool)
        ensures
            match first_with_uid(old(self).accounts@, uid_of_text(switch.uid@, -1i64)) {
                Some(k) => found && final(self).accounts@ == old(self).accounts@.update(
                    k,
                    with_active(old(self).accounts@[k], switch.switch),
                ) && final(self).accounts@[k].is_active == switch.switch,
                None => !found && final(self).accounts@ == old(self).accounts@,
            },
            final(self).accounts@.len() == old(self).accounts@.len(),
            final(self).active_tasks == old(self).active_tasks,
    {
        let uid = parse_uid(&switch.uid, -1);
        let n = self.accounts.len();
        let mut i: usize = 0;
        while i < n
            invariant
                n == self.accounts.len(),
                self.accounts == old(self).accounts,
                self.active_tasks == old(self).active_tasks,
                uid == uid_of_text(switch.uid@, -1i64),
                i <= n,
                forall|m: int| 0 <= m < i ==> (#[trigger] self.accounts@[m]).uid != uid,
            decreases n - i,
        {
            if self.accounts[i].uid == uid {
                let ghost orig = self.accounts@;
                proof {
                    let k = first_with_uid(orig, uid)->0;
                    assert(orig[i as int].uid == uid);
                    assert(first_with_uid(orig, uid) is Some);
                    if k < i {
                        assert(orig[k].uid != uid);
                    }
                    if k > i {
                        assert(orig[i as int].uid != uid);
                    }
                    assert(k == i);
                }
                let mut a = self.accounts.remove(i);
                a.is_active = switch.switch;
                self.accounts.insert(i, a);
                assert(self.accounts@ =~= orig.update(i as int, with_active(orig[i as int], switch.switch)));
                return true;
            }
            i += 1;
        }
        false
    }
}

/// Whether a log line raises the error banner: it mentions `ERROR:`,
/// `error:`, `Error:` or "抢票" (ticket grabbing).
pub open spec fn is_alert_message(m: Seq<char>) -> bool {
    ||| contains_text(m, "ERROR:"@)
    ||| contains_text(m, "error:"@)
    ||| contains_text(m, "Error:"@)
    ||| contains_text(m, "抢票"@)
}

/// The log window's lines and the error banner's state. Times are
/// nanoseconds on a monotonic clock.
pub struct LogBook {
    pub logs: Vec<String>,
    pub error_banner_active: bool,
    pub error_banner_text: String,
    /// When the banner was last raised.
    pub error_banner_start_ns: Option<u128>,
}

/// How long the banner stays (two seconds shown, half a second fading).
pub open spec fn banner_life_ns() -> nat {
    2_500_000_000
}

/// Whether a banner raised at `start` is still up at `now`.
pub open spec fn banner_alive(start: u128, now: u128) -> bool {
    now < start + banner_life_ns()
}

/// A banner stays up for less than two and a half seconds after it was
/// raised (as measured from `start`; a clock reading before `start` counts
/// as no time passed).
pub proof fn law_banner_lasts_two_and_a_half_seconds(start: u128, now: u128)
    ensures
        banner_alive(start, now) == (now < start + 2_500_000_000),
        now <= start ==> banner_alive(start, now),
{
}

impl LogBook {
    /// An empty log with the banner off.
    pub fn new() -> (r: Self)
        ensures
            r.logs@.len() == 0,
            !r.error_banner_active,
            r.error_banner_text@.len() == 0,
            r.error_banner_start_ns is None,
    {
        LogBook {
            logs: Vec::new(),
            error_banner_active: false,
            error_banner_text: String::new(),
            error_banner_start_ns: None,
        }
    }

    /// Appends `message` to the log at time `now`; when it is an alert, the
    /// banner shows it and its timer restarts at `now`. Returns whether the
    /// banner was raised.
    pub fn add_log(&mut self, message: &str, now: u128) -> (alert: bool)
        ensures
            alert == is_alert_message(message@),
            alert == (contains_text(message@, "ERROR:"@) || contains_text(message@, "error:"@)
                || contains_text(message@, "Error:"@) || contains_text(message@, "抢票"@)),
            final(self).logs@.len() == old(self).logs@.len() + 1,
            forall|i: int|
                0 <= i < old(self).logs@.len() ==> #[trigger] final(self).logs@[i] == old(
                    self,
                ).logs@[i],
            final(self).logs@.last()@ == message@,
            alert ==> final(self).error_banner_active && final(self).error_banner_text@
                == message@ && final(self).error_banner_start_ns == Some(now),
            !alert ==> final(self).error_banner_active == old(self).error_banner_active
                && final(self).error_banner_text == old(self).error_banner_text
                && final(self).error_banner_start_ns == old(self).error_banner_start_ns,
    {
        self.logs.push(String::from_str(message));
        let m = chars_of(message);
        let alert = text_contains(&m, &chars_of("ERROR:")) || text_contains(&m, &chars_of("error:"))
            || text_contains(&m, &chars_of("Error:")) || text_contains(&m, &chars_of("抢票"));
        if alert {
            self.error_banner_active = true;
            self.error_banner_text = String::from_str(message);
            self.error_banner_start_ns = Some(now);
        }
        alert
    }

    /// The banner's step of a frame at time `now`: a raised banner with a
    /// start time is drawn while it is alive, and taken down (with its timer
    /// cleared) once two and a half seconds have passed. Returns whether the
    /// banner is drawn. The log and the banner text do not change.
    pub fn banner_tick(&mut self, now: u128) -> (drawn: bool)
        ensures
            final(self).logs == old(self).logs,
            final(self).error_banner_text == old(self).error_banner_text,
            match (old(self).error_banner_active, old(self).error_banner_start_ns) {
                (true, Some(t)) => if banner_alive(t, now) {
                    drawn && final(self).error_banner_active && final(self).error_banner_start_ns
                        == Some(t)
                } else {
                    !drawn && !final(self).error_banner_active
                        && final(self).error_banner_start_ns is None
                },
                _ => !drawn && final(self).error_banner_active == old(self).error_banner_active
                    && final(self).error_banner_start_ns == old(self).error_banner_start_ns,
            },
    {
        if self.error_banner_active {
            match self.error_banner_start_ns {
                Some(t) => {
                    if now < t || now - t < 2_500_000_000 {
                        return true;
                    }
                    self.error_banner_active = false;
                    self.error_banner_start_ns = None;
                    false
                },
                None => false,
            }
        } else {
            false
        }
    }
}

// ---------------------------------------------------------------------------
// Ticket sessions of the accounts

/// Index of the first session of the account with user id `uid`.
pub open spec fn first_ticket_of(tickets: Seq<BilibiliTicket>, uid: i64) -> Option<int> {
    if exists|k: int| 0 <= k < tickets.len() && (#[trigger] tickets[k]).uid == uid {
        Some(
            choose|k: int|
                0 <= k < tickets.len() && (#[trigger] tickets[k]).uid == uid && forall|m: int|
                    0 <= m < k ==> (#[trigger] tickets[m]).uid != uid,
        )
    } else {
        None
    }
}

proof fn lemma_least_ticket(tickets: Seq<BilibiliTicket>, uid: i64, k: int)
    requires
        0 <= k < tickets.len(),
        tickets[k].uid == uid,
    ensures
        exists|j: int|
            0 <= j < tickets.len() && (#[trigger] tickets[j]).uid == uid && forall|m: int|
                0 <= m < j ==> (#[trigger] tickets[m]).uid != uid,
    decreases k,
{
    if forall|m: int| 0 <= m < k ==> (#[trigger] tickets[m]).uid != uid {
        assert(tickets[k].uid == uid);
    } else {
        let m = choose|m: int| 0 <= m < k && (#[trigger] tickets[m]).uid == uid;
        lemma_least_ticket(tickets, uid, m);
    }
}

/// `first_ticket_of` is the least index of a session of the account `uid`,
/// and `None` exactly when no session has it.
pub proof fn lemma_first_ticket_of(tickets: Seq<BilibiliTicket>, uid: i64)
    ensures
        match first_ticket_of(tickets, uid) {
            Some(k) => {
                &&& 0 <= k < tickets.len()
                &&& tickets[k].uid == uid
                &&& forall|m: int| 0 <= m < k ==> (#[trigger] tickets[m]).uid != uid
            },
            None => forall|m: int| 0 <= m < tickets.len() ==> (#[trigger] tickets[m]).uid != uid,
        },
{
    if exists|k: int| 0 <= k < tickets.len() && (#[trigger] tickets[k]).uid == uid {
        let k = choose|k: int| 0 <= k < tickets.len() && (#[trigger] tickets[k]).uid == uid;
        lemma_least_ticket(tickets, uid, k);
    }
}

/// Index of the first session of the account `uid`, if any.
pub fn find_ticket(tickets: &Vec<BilibiliTicket>, uid: i64) -> (r: Option<usize>)
    ensures
        r matches Some(i) ==> i < tickets@.len() && first_ticket_of(tickets@, uid) == Some(i as int),
        r is None ==> first_ticket_of(tickets@, uid) is None,
{
    let n = tickets.len();
    let mut i: usize = 0;
    while i < n
        invariant
            n == tickets@.len(),
            i <= n,
            forall|m: int| 0 <= m < i ==> (#[trigger] tickets@[m]).uid != uid,
        decreases n - i,
    {
        if tickets[i].uid == uid {
            proof {
                let k = first_ticket_of(tickets@, uid)->0;
                assert(tickets@[i as int].uid == uid);
                if k < i {
                    assert(tickets@[k].uid != uid);
                }
                if k > i {
                    assert(tickets@[i as int].uid != uid);
                }
            }
            return Some(i);
        }
        i += 1;
    }
    None
}

/// `t` with its project details set to `info`.
pub open spec fn with_project_info(t: BilibiliTicket, info: TicketInfo) -> BilibiliTicket {
    BilibiliTicket { project_info: Some(info), ..t }
}

/// `t` with its buyer list set to `buyers`.
pub open spec fn with_buyers(t: BilibiliTicket, buyers: BuyerInfoData) -> BilibiliTicket {
    BilibiliTicket { all_buyer_info: Some(buyers), ..t }
}

/// Fetched project details are stored exactly as they came (every field,
/// `id_bind` and the screens included), and nothing else of the session
/// changes.
pub proof fn law_project_details_stored_as_fetched(t: BilibiliTicket, info: TicketInfo)
    ensures
        with_project_info(t, info).project_info == Some(info),
        (with_project_info(t, info).project_info matches Some(p) && p.id == info.id && p.id_bind
            == info.id_bind && p.name == info.name && p.screen_list == info.screen_list),
        (BilibiliTicket { project_info: t.project_info, ..with_project_info(t, info) } == t),
{
}

/// A fetched buyer list is stored exactly as it came, and nothing else of
/// the session changes.
pub proof fn law_buyers_stored_as_fetched(t: BilibiliTicket, buyers: BuyerInfoData)
    ensures
        with_buyers(t, buyers).all_buyer_info == Some(buyers),
        (BilibiliTicket { all_buyer_info: t.all_buyer_info, ..with_buyers(t, buyers) } == t),
{
}

/// Stores fetched project details in the first session of the account
/// `uid`; returns whether there was one (without one the screen window
/// closes).
pub fn attach_project_info(tickets: &mut Vec<BilibiliTicket>, uid: i64, info: TicketInfo) -> (found:
    bool)
    ensures
        match first_ticket_of(old(tickets)@, uid) {
            Some(k) => found && final(tickets)@ == old(tickets)@.update(
                k,
                with_project_info(old(tickets)@[k], info),
            ) && final(tickets)@[k].project_info == Some(info),
            None => !found && final(tickets)@ == old(tickets)@,
        },
{
    match find_ticket(tickets, uid) {
        Some(k) => {
            let ghost orig = tickets@;
            let mut t = tickets.remove(k);
            t.project_info = Some(info);
            tickets.insert(k, t);
            assert(tickets@ =~= orig.update(k as int, with_project_info(orig[k as int], info)));
            true
        },
        None => false,
    }
}

/// Stores a fetched buyer list in the first session of the account `uid`;
/// returns whether there was one.
pub fn attach_buyer_info(tickets: &mut Vec<BilibiliTicket>, uid: i64, buyers: BuyerInfoData) -> (found:
    bool)
    ensures
        match first_ticket_of(old(tickets)@, uid) {
            Some(k) => found && final(tickets)@ == old(tickets)@.update(
                k,
                with_buyers(old(tickets)@[k], buyers),
            ) && final(tickets)@[k].all_buyer_info == Some(buyers),
            None => !found && final(tickets)@ == old(tickets)@,
        },
{
    match find_ticket(tickets, uid) {
        Some(k) => {
            let ghost orig = tickets@;
            let mut t = tickets.remove(k);
            t.all_buyer_info = Some(buyers);
            tickets.insert(k, t);
            assert(tickets@ =~= orig.update(k as int, with_buyers(orig[k as int], buyers)));
            true
        },
        None => false,
    }
}

// ---------------------------------------------------------------------------
// Placeholder avatar

/// Side of the placeholder avatar, in pixels.
pub open spec fn avatar_side() -> nat {
    128
}

/// Byte `i` of the placeholder avatar's RGBA pixels, row by row: a light
/// blue whose green part grows by one every two rows
/// (red 180, green 180 + row / 2, blue 230, opaque).
pub open spec fn placeholder_byte(i: int) -> u8 {
    let row = i / 4 / 128;
    if i % 4 == 0 {
        180
    } else if i % 4 == 1 {
        (180 + row / 2) as u8
    } else if i % 4 == 2 {
        230
    } else {
        255
    }
}

/// The RGBA pixels of the placeholder avatar (128 by 128).
pub fn placeholder_avatar_rgba() -> (r: Vec<u8>)
    ensures
        r@.len() == avatar_side() * avatar_side() * 4,
        forall|i: int| 0 <= i < r@.len() ==> #[trigger] r@[i] == placeholder_byte(i),
{
    let mut v: Vec<u8> = Vec::new();
    let n: u32 = 128 * 128 * 4;
    for i in 0..n
        invariant
            n == 128 * 128 * 4,
            v@.len() == i,
            forall|k: int| 0 <= k < i ==> #[trigger] v@[k] == placeholder_byte(k),
    {
        let row: u32 = i / 4 / 128;
        let b: u8 = if i % 4 == 0 {
            180
        } else if i % 4 == 1 {
            (180 + row / 2) as u8
        } else if i % 4 == 2 {
            230
        } else {
            255
        };
        v.push(b);
    }
    v
}

// ---------------------------------------------------------------------------
// User agents and random text

/// `len` bytes sampled with `rand::distributions::Alphanumeric` from
/// `rand::thread_rng()`. Trusted: the crate's source draws each byte from
/// the 62 ASCII letters and digits; which ones is left open.
#[verifier::external_body]
fn random_alphanumeric_bytes(len: usize) -> (r: Vec<u8>)
    ensures
        r@.len() == len,
        forall|i: int| 0 <= i < len ==> is_alphanumeric(#[trigger] r@[i] as char),
{
    rand::Rng::sample_iter(rand::thread_rng(), &rand::distributions::Alphanumeric).take(
        len,
    ).collect()
}

/// The text whose characters are the given bytes, each taken as the
/// character with that code (`b as char`), in order.
pub fn alphanumeric_text(bytes: &Vec<u8>) -> (r: String)
    ensures
        r@.len() == bytes@.len(),
        forall|i: int| 0 <= i < bytes@.len() ==> #[trigger] r@[i] == bytes@[i] as char,
{
    let mut s = String::new();
    for i in 0..bytes.len()
        invariant
            s@.len() == i,
            forall|k: int| 0 <= k < i ==> #[trigger] s@[k] == bytes@[k] as char,
    {
        push_char(&mut s, bytes[i] as char);
    }
    s
}

/// `length` random ASCII letters and digits: the text of the bytes drawn
/// by `random_alphanumeric_bytes`.
pub fn generate_random_string(length: usize) -> (r: String)
    ensures
        r@.len() == length,
        forall|i: int| 0 <= i < length ==> is_alphanumeric(#[trigger] r@[i]),
{
    let bytes = random_alphanumeric_bytes(length);
    let s = alphanumeric_text(&bytes);
    assert forall|i: int| 0 <= i < length implies is_alphanumeric(#[trigger] s@[i]) by {
        assert(is_alphanumeric(bytes@[i] as char));
    }
    s
}

/// Start of the front end's default user agent; a random suffix follows.
pub open spec fn default_ua_prefix() -> Seq<char> {
    "Mozilla/5.0 (Windows NT 10.0; Win64; x64) AppleWebKit/537.36 (KHTML, like Gecko) Chrome/134.0.0.0 Safari/537.36 Edg/134.0.0.0 "@
}

/// The user agent the front end starts with: the browser string followed
/// by `random_suffix`, unless the settings enable a custom user agent that
/// is set (not null); then the custom one when it is text, the default
/// otherwise.
pub fn startup_user_agent(
    random_suffix: &str,
    enable_custom_ua: bool,
    custom_ua_set: bool,
    custom_ua_text: Option<&str>,
) -> (r: String)
    ensures
        ({
            let default = default_ua_prefix() + random_suffix@;
            r@ == if enable_custom_ua && custom_ua_set {
                match custom_ua_text {
                    Some(t) => t@,
                    None => default,
                }
            } else {
                default
            }
        }),
{
    let mut ua = String::from_str(
        "Mozilla/5.0 (Windows NT 10.0; Win64; x64) AppleWebKit/537.36 (KHTML, like Gecko) Chrome/134.0.0.0 Safari/537.36 Edg/134.0.0.0 ",
    );
    ua.append(random_suffix);
    if enable_custom_ua && custom_ua_set {
        match custom_ua_text {
            Some(t) => String::from_str(t),
            None => ua,
        }
    } else {
        ua
    }
}

/// User agent sent when the chosen one is not a valid header value.
pub open spec fn client_ua_fallback() -> Seq<char> {
    "Mozilla/5.0 (Windows NT 10.0; Win64; x64) AppleWebKit/537.36"@
}

/// The `User-Agent` header of the front end's login client: `user_agent`
/// when it is a valid header value, the fallback otherwise.
pub fn client_user_agent(user_agent: &str) -> (r: String)
    ensures
        r@ == if header_text_ok(user_agent@) {
            user_agent@
        } else {
            client_ua_fallback()
        },
{
    if header_value_accepts(user_agent) {
        String::from_str(user_agent)
    } else {
        String::from_str("Mozilla/5.0 (Windows NT 10.0; Win64; x64) AppleWebKit/537.36")
    }
}

} // verus!
