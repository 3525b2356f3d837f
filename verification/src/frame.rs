//! One frame of the desktop front end, without drawing: applying the
//! results of background tasks, and deciding which requests the order-list,
//! screen and confirmation windows send. The caller performs each request
//! and reports whether the task manager took it.
use vstd::prelude::*;
use vstd::string::StringExecFns;
use crate::account::Account;
use crate::frontend::{
    lemma_first_ticket_of, lemma_first_with_uid,
    attach_buyer_info, attach_project_info, find_ticket, first_ticket_of, first_with_uid,
    parse_uid, uid_of_text, with_buyers, with_project_info, OrderData,
};
use crate::taskmanager::{QrCodeLoginStatus, TaskResult};
use crate::text::{decimal_string, decimal_text, same_text};
use crate::ticket::{BilibiliTicket, TicketInfo};

verus! {

// ---------------------------------------------------------------------------
// Results of background tasks

/// The front end's state between frames, as far as its decisions read and
/// write it. Times are nanoseconds on a monotonic clock.
pub struct FrontState {
    /// Captcha key of the last SMS code sent, needed to log in with it.
    pub sms_captcha_key: String,
    /// The last order list fetched.
    pub total_order_data: Option<OrderData>,
    /// The account whose screen window is open.
    pub show_screen_info: Option<i64>,
    /// The user id (as text) whose order-list window is open.
    pub show_orderlist_window: Option<String>,
    /// The order list must be fetched again.
    pub orderlist_need_reload: bool,
    /// An order-list request is under way.
    pub orderlist_requesting: bool,
    /// When the order list was last requested.
    pub orderlist_last_request_ns: Option<u128>,
    /// The user id (as text) whose confirmation window is open.
    pub confirm_ticket_info: Option<String>,
    /// The loading animation is shown.
    pub is_loading: bool,
    /// When project details or buyers were last requested.
    pub ticket_info_last_request_ns: Option<u128>,
    /// The project the screen window asks about.
    pub ticket_id: String,
}

/// The project the front end starts with.
pub open spec fn default_project_id() -> Seq<char> {
    "85939"@
}

impl FrontState {
    /// The state at start-up: no window open, nothing loaded or requested.
    pub fn new() -> (r: Self)
        ensures
            r.sms_captcha_key@.len() == 0,
            r.total_order_data is None,
            r.show_screen_info is None,
            r.show_orderlist_window is None,
            !r.orderlist_need_reload,
            !r.orderlist_requesting,
            r.orderlist_last_request_ns is None,
            r.confirm_ticket_info is None,
            !r.is_loading,
            r.ticket_info_last_request_ns is None,
            r.ticket_id@ == default_project_id(),
    {
        FrontState {
            sms_captcha_key: String::new(),
            total_order_data: None,
            show_screen_info: None,
            show_orderlist_window: None,
            orderlist_need_reload: false,
            orderlist_requesting: false,
            orderlist_last_request_ns: None,
            confirm_ticket_info: None,
            is_loading: false,
            ticket_info_last_request_ns: None,
            ticket_id: String::from_str("85939"),
        }
    }
}

/// What the front end must do after a task result.
pub enum ResultAction {
    /// Nothing more.
    Nothing,
    /// Log in with this cookie (add the account it belongs to).
    Login(String),
}

impl FrontState {
    /// Applies one task result. A successful SMS request keeps its captcha
    /// key; a fetched order list replaces the stored one; fetched project
    /// details go to the first session of their account, and fetched buyers
    /// (when the response's `errno` is 0) likewise; a failed project or buyer
    /// request, or one whose account has no session any more, closes the
    /// screen window; successful logins (QR code with a cookie, SMS code with
    /// a cookie) ask for the account to be added.
    pub fn apply(&mut self, tickets: &mut Vec<BilibiliTicket>, result: TaskResult) -> (action: ResultAction)
        ensures
            match result {
                TaskResult::QrCodeLoginResult(q) => {
                    &&& *final(self) == *old(self)
                    &&& final(tickets)@ == old(tickets)@
                    &&& match (q.status, q.cookie) {
                        (QrCodeLoginStatus::Success(_), Some(c)) => action == ResultAction::Login(c),
                        _ => action == ResultAction::Nothing,
                    }
                },
                TaskResult::LoginSmsResult(r) => {
                    &&& *final(self) == (if r.success {
                        FrontState { sms_captcha_key: r.message, ..*old(self) }
                    } else {
                        *old(self)
                    })
                    &&& final(tickets)@ == old(tickets)@
                    &&& action == ResultAction::Nothing
                },
                TaskResult::SubmitSmsLoginResult(r) => {
                    &&& *final(self) == *old(self)
                    &&& final(tickets)@ == old(tickets)@
                    &&& match (r.success, r.cookie) {
                        (true, Some(c)) => action == ResultAction::Login(c),
                        _ => action == ResultAction::Nothing,
                    }
                },
                TaskResult::PushResult(_) => {
                    &&& *final(self) == *old(self)
                    &&& final(tickets)@ == old(tickets)@
                    &&& action == ResultAction::Nothing
                },
                TaskResult::GetAllorderRequestResult(r) => {
                    &&& *final(self) == (if r.success {
                        FrontState {
                            total_order_data: Some(
                                OrderData { account_id: r.account_id, data: r.order_info },
                            ),
                            ..*old(self)
                        }
                    } else {
                        *old(self)
                    })
                    &&& final(tickets)@ == old(tickets)@
                    &&& action == ResultAction::Nothing
                },
                TaskResult::GetTicketInfoResult(r) => {
                    &&& action == ResultAction::Nothing
                    &&& if !r.success {
                        &&& *final(self) == FrontState { show_screen_info: None, ..*old(self) }
                        &&& final(tickets)@ == old(tickets)@
                    } else {
                        match r.ticket_info {
                            None => *final(self) == *old(self) && final(tickets)@ == old(tickets)@,
                            Some(info) => match first_ticket_of(old(tickets)@, r.uid) {
                                Some(k) => {
                                    &&& *final(self) == *old(self)
                                    &&& final(tickets)@ == old(tickets)@.update(
                                        k,
                                        with_project_info(old(tickets)@[k], info.data),
                                    )
                                },
                                None => {
                                    &&& *final(self) == FrontState {
                                        show_screen_info: None,
                                        ..*old(self)
                                    }
                                    &&& final(tickets)@ == old(tickets)@
                                },
                            },
                        }
                    }
                },
                TaskResult::GetBuyerInfoResult(r) => {
                    &&& action == ResultAction::Nothing
                    &&& if !r.success {
                        &&& *final(self) == FrontState { show_screen_info: None, ..*old(self) }
                        &&& final(tickets)@ == old(tickets)@
                    } else {
                        match r.buyer_info {
                            None => *final(self) == *old(self) && final(tickets)@ == old(tickets)@,
                            Some(resp) => if resp.errno != 0 {
                                *final(self) == *old(self) && final(tickets)@ == old(tickets)@
                            } else {
                                match first_ticket_of(old(tickets)@, r.uid) {
                                    Some(k) => {
                                        &&& *final(self) == *old(self)
                                        &&& final(tickets)@ == old(tickets)@.update(
                                            k,
                                            with_buyers(old(tickets)@[k], resp.data),
                                        )
                                    },
                                    None => {
                                        &&& *final(self) == FrontState {
                                            show_screen_info: None,
                                            ..*old(self)
                                        }
                                        &&& final(tickets)@ == old(tickets)@
                                    },
                                }
                            },
                        }
                    }
                },
            },
    {
        match result {
            TaskResult::QrCodeLoginResult(q) => match q.status {
                QrCodeLoginStatus::Success(_) => match q.cookie {
                    Some(c) => ResultAction::Login(c),
                    None => ResultAction::Nothing,
                },
                _ => ResultAction::Nothing,
            },
            TaskResult::LoginSmsResult(r) => {
                if r.success {
                    self.sms_captcha_key = r.message;
                }
                ResultAction::Nothing
            },
            TaskResult::SubmitSmsLoginResult(r) => {
                if r.success {
                    match r.cookie {
                        Some(c) => ResultAction::Login(c),
                        None => ResultAction::Nothing,
                    }
                } else {
                    ResultAction::Nothing
                }
            },
            TaskResult::PushResult(_) => ResultAction::Nothing,
            TaskResult::GetAllorderRequestResult(r) => {
                if r.success {
                    self.total_order_data = Some(
                        OrderData { account_id: r.account_id, data: r.order_info },
                    );
                }
                ResultAction::Nothing
            },
            TaskResult::GetTicketInfoResult(r) => {
                if r.success {
                    match r.ticket_info {
                        Some(info) => {
                            if !attach_project_info(tickets, r.uid, info.data) {
                                self.show_screen_info = None;
                            }
                        },
                        None => {},
                    }
                } else {
                    self.show_screen_info = None;
                }
                ResultAction::Nothing
            },
            TaskResult::GetBuyerInfoResult(r) => {
                if r.success {
                    match r.buyer_info {
                        Some(resp) => {
                            if resp.errno == 0 {
                                if !attach_buyer_info(tickets, r.uid, resp.data) {
                                    self.show_screen_info = None;
                                }
                            }
                        },
                        None => {},
                    }
                } else {
                    self.show_screen_info = None;
                }
                ResultAction::Nothing
            },
        }
    }
}


// ---------------------------------------------------------------------------
// Cool-down between requests

/// Nanoseconds that must pass between two requests of the same kind.
pub open spec fn request_cooldown_ns() -> nat {
    5_000_000_000
}

/// Whether a request may be sent at `now`, given when the last one was sent
/// (`None`: never): more than five seconds must have passed.
pub open spec fn cooled(last: Option<u128>, now: u128) -> bool {
    match last {
        Some(t) => now > t + request_cooldown_ns(),
        None => true,
    }
}

/// Whether more than five seconds have passed since `last` at `now`.
pub fn cooldown_passed(last: Option<u128>, now: u128) -> (r: bool)
    ensures
        r == cooled(last, now),
{
    match last {
        Some(t) => now > t && now - t > 5_000_000_000,
        None => true,
    }
}

// ---------------------------------------------------------------------------
// The order-list window

/// The account the open order-list window shows, by its index: the window
/// names a user id other than 0 and the first account with that id.
pub open spec fn order_window_uid(s: FrontState) -> int {
    match s.show_orderlist_window {
        Some(u) => uid_of_text(u@, 0) as int,
        None => 0,
    }
}

/// Whether the order list of the window's account (written `u`) must be
/// fetched: as already decided, or because none is loaded, or because the
/// loaded one is another account's.
pub open spec fn orders_stale(s: FrontState, u: Seq<char>) -> bool {
    s.orderlist_need_reload || match s.total_order_data {
        Some(d) => d.account_id@ != u,
        None => true,
    }
}

/// What the order-list step asks of the caller.
pub enum OrderListStep {
    /// The window is not open.
    Hidden,
    /// The window named no account and was closed.
    Closed,
    /// The account has no client: the window was closed and the rest of the
    /// frame is skipped.
    Stop,
    /// Show the window.
    Show,
    /// Request the order list of `accounts[account]`, under the user id
    /// `account_id` and with its cookie, through that account's client; then
    /// show the window.
    Request { account: usize, account_id: String, cookies: String },
}

/// Whether the order-list step sends a request.
pub open spec fn order_list_submits(s: FrontState, accounts: Seq<Account>, now: u128) -> bool {
    match s.show_orderlist_window {
        Some(u) => {
            let n = uid_of_text(u@, 0);
            n != 0 && match first_with_uid(accounts, n) {
                Some(k) => {
                    &&& accounts[k].client is Some
                    &&& orders_stale(s, u@)
                    &&& !s.orderlist_requesting
                    &&& cooled(s.orderlist_last_request_ns, now)
                },
                None => false,
            }
        },
        None => false,
    }
}

/// The state after the order-list step.
pub open spec fn order_list_next(s: FrontState, accounts: Seq<Account>, now: u128) -> FrontState {
    match s.show_orderlist_window {
        None => s,
        Some(u) => {
            let n = uid_of_text(u@, 0);
            if n == 0 {
                FrontState { show_orderlist_window: None, ..s }
            } else {
                match first_with_uid(accounts, n) {
                    None => s,
                    Some(k) => if accounts[k].client is None {
                        FrontState { show_orderlist_window: None, ..s }
                    } else if order_list_submits(s, accounts, now) {
                        FrontState {
                            orderlist_requesting: true,
                            orderlist_last_request_ns: Some(now),
                            orderlist_need_reload: false,
                            ..s
                        }
                    } else {
                        FrontState { orderlist_need_reload: orders_stale(s, u@), ..s }
                    },
                }
            }
        },
    }
}

/// An order-list request is sent only while none is under way and only when
/// more than five seconds have passed since the last one; sending it marks a
/// request as under way and records its time. A step that sends nothing
/// leaves both as they were.
pub proof fn law_order_request_cool_down(s: FrontState, accounts: Seq<Account>, now: u128)
    ensures
        order_list_submits(s, accounts, now) ==> {
            let t = order_list_next(s, accounts, now);
            &&& !s.orderlist_requesting
            &&& (s.orderlist_last_request_ns matches Some(last) ==> now > last + request_cooldown_ns())
            &&& t.orderlist_requesting
            &&& t.orderlist_last_request_ns == Some(now)
        },
        !order_list_submits(s, accounts, now) ==> {
            let t = order_list_next(s, accounts, now);
            &&& t.orderlist_requesting == s.orderlist_requesting
            &&& t.orderlist_last_request_ns == s.orderlist_last_request_ns
        },
{
}

/// Two order-list requests lie more than five seconds apart: after a
/// request sent at `t1`, a later one is sent at `t2` only from a state that
/// still records `t1` as the last request time (no other request came
/// between), and then `t2` is more than five seconds after `t1`.
pub proof fn law_order_requests_apart(
    s1: FrontState,
    accounts1: Seq<Account>,
    t1: u128,
    s2: FrontState,
    accounts2: Seq<Account>,
    t2: u128,
)
    requires
        order_list_submits(s1, accounts1, t1),
        s2.orderlist_last_request_ns == order_list_next(s1, accounts1, t1).orderlist_last_request_ns,
        order_list_submits(s2, accounts2, t2),
    ensures
        t2 > t1 + request_cooldown_ns(),
{
}

/// A run of order-list steps: the step taken from `states[k]` with
/// `accounts[k]` at `times[k]`, and, between steps, any change to the state
/// that keeps the time of the last order-list request (only a request sets
/// that time).
pub open spec fn order_run(states: Seq<FrontState>, accounts: Seq<Seq<Account>>, times: Seq<u128>) -> bool {
    &&& states.len() == accounts.len()
    &&& states.len() == times.len()
    &&& forall|k: int|
        0 < k < states.len() ==> (#[trigger] states[k]).orderlist_last_request_ns == order_list_next(
            states[k - 1],
            accounts[k - 1],
            times[k - 1],
        ).orderlist_last_request_ns
}

#[verifier::spinoff_prover]
#[verifier::rlimit(50)]
proof fn lemma_order_run_clock(
    states: Seq<FrontState>,
    accounts: Seq<Seq<Account>>,
    times: Seq<u128>,
    i: int,
    k: int,
)
    requires
        order_run(states, accounts, times),
        0 <= i < k < states.len(),
        order_list_submits(states[i], accounts[i], times[i]),
    ensures
        states[k].orderlist_last_request_ns matches Some(t) && t >= times[i],
    decreases k - i,
{
    law_order_request_cool_down(states[k - 1], accounts[k - 1], times[k - 1]);
    if k - 1 > i {
        lemma_order_run_clock(states, accounts, times, i, k - 1);
    }
    assert(states[k].orderlist_last_request_ns == order_list_next(
        states[k - 1],
        accounts[k - 1],
        times[k - 1],
    ).orderlist_last_request_ns);
}

/// In any run of order-list steps, any two requests lie more than five
/// seconds apart, whatever happens between them.
pub proof fn law_order_requests_spaced(
    states: Seq<FrontState>,
    accounts: Seq<Seq<Account>>,
    times: Seq<u128>,
    i: int,
    j: int,
)
    requires
        order_run(states, accounts, times),
        0 <= i < j < states.len(),
        order_list_submits(states[i], accounts[i], times[i]),
        order_list_submits(states[j], accounts[j], times[j]),
    ensures
        times[j] > times[i] + request_cooldown_ns(),
{
    lemma_order_run_clock(states, accounts, times, i, j);
    law_order_request_cool_down(states[j], accounts[j], times[j]);
}

impl FrontState {
    /// The order-list step of a frame at time `now`. When the window names a
    /// user id (0 or text that is no number closes it), the account with
    /// that id must be listed.
    pub fn order_list_step(&mut self, accounts: &Vec<Account>, now: u128) -> (r: OrderListStep)
        requires
            order_window_uid(*old(self)) != 0 ==> first_with_uid(
                accounts@,
                order_window_uid(*old(self)) as i64,
            ) is Some,
        ensures
            *final(self) == order_list_next(*old(self), accounts@, now),
            match old(self).show_orderlist_window {
                None => r is Hidden,
                Some(u) => {
                    let n = uid_of_text(u@, 0);
                    if n == 0 {
                        r is Closed
                    } else {
                        let k = first_with_uid(accounts@, n)->0;
                        if accounts@[k].client is None {
                            r is Stop
                        } else if order_list_submits(*old(self), accounts@, now) {
                            r matches OrderListStep::Request { account, account_id, cookies }
                                && account == k && account_id@ == decimal_text(n as int)
                                && cookies@ == accounts@[k].cookie@
                        } else {
                            r is Show
                        }
                    }
                },
            },
    {
        let u = match &self.show_orderlist_window {
            None => {
                return OrderListStep::Hidden;
            },
            Some(u) => u.clone(),
        };
        let n = parse_uid(u.as_str(), 0);
        if n == 0 {
            self.show_orderlist_window = None;
            return OrderListStep::Closed;
        }
        let k = find_account(accounts, n);
        if accounts[k].client.is_none() {
            self.show_orderlist_window = None;
            return OrderListStep::Stop;
        }
        let stale = match &self.total_order_data {
            None => true,
            Some(d) => !same_text(d.account_id.as_str(), u.as_str()),
        };
        if stale {
            self.orderlist_need_reload = true;
        }
        if self.orderlist_need_reload && !self.orderlist_requesting && cooldown_passed(
            self.orderlist_last_request_ns,
            now,
        ) {
            self.orderlist_requesting = true;
            self.orderlist_last_request_ns = Some(now);
            self.orderlist_need_reload = false;
            OrderListStep::Request {
                account: k,
                account_id: decimal_string(n),
                cookies: accounts[k].cookie.clone(),
            }
        } else {
            OrderListStep::Show
        }
    }
}

/// Index of the first account with user id `uid`, which must be listed.
fn find_account(accounts: &Vec<Account>, uid: i64) -> (k: usize)
    requires
        first_with_uid(accounts@, uid) is Some,
    ensures
        k as int == first_with_uid(accounts@, uid)->0,
        k < accounts@.len(),
{
    let n = accounts.len();
    let mut i: usize = 0;
    while i < n
        invariant
            n == accounts@.len(),
            i <= n,
            first_with_uid(accounts@, uid) is Some,
            forall|m: int| 0 <= m < i ==> (#[trigger] accounts@[m]).uid != uid,
        decreases n - i,
    {
        if accounts[i].uid == uid {
            proof {
                let k = first_with_uid(accounts@, uid)->0;
                if k < i {
                    assert(accounts@[k].uid != uid);
                }
                if k > i {
                    assert(accounts@[i as int].uid != uid);
                }
            }
            return i;
        }
        i += 1;
    }
    proof {
        let k = first_with_uid(accounts@, uid)->0;
        assert(accounts@[k].uid == uid);
    }
    0
}

// ---------------------------------------------------------------------------
// The screen and confirmation windows

/// What the screen or confirmation step asks of the caller.
pub enum TicketStep {
    /// The window is not open.
    Hidden,
    /// No session has the window's account: the screen window was closed.
    NoSession,
    /// Show the window.
    Show,
    /// A request was due but the session has no client (the screen window is
    /// then not shown this frame; the confirmation window is).
    NoClient,
    /// Request, through the client of `tickets[ticket]`, the project details
    /// (screen window: of `project_id`) or the buyers (confirmation window)
    /// of the account `uid`. When the task manager takes the request, report
    /// it with `request_taken`; the window is then shown (the confirmation
    /// window is shown either way).
    Request { ticket: usize, uid: i64, project_id: String },
}

/// The screen step's outcome and the state after it.
pub open spec fn screen_next(s: FrontState, tickets: Seq<BilibiliTicket>, now: u128) -> FrontState {
    match s.show_screen_info {
        None => s,
        Some(id) => match first_ticket_of(tickets, id) {
            None => FrontState { show_screen_info: None, ..s },
            Some(k) => s,
        },
    }
}

/// Whether the screen step requests the project details, through the
/// session of `tickets[k]`.
pub open spec fn screen_requests(s: FrontState, tickets: Seq<BilibiliTicket>, now: u128, k: int) -> bool {
    &&& s.show_screen_info matches Some(id)
    &&& first_ticket_of(tickets, id) == Some(k)
    &&& tickets[k].project_info is None
    &&& cooled(s.ticket_info_last_request_ns, now)
    &&& tickets[k].session is Some
}

/// The project's buyer binding as the confirmation window reads it
/// (0 when the project details are not loaded).
pub open spec fn id_bind_of(t: BilibiliTicket) -> usize {
    match t.project_info {
        Some(p) => p.id_bind,
        None => 0,
    }
}

/// The state after the confirmation step.
pub open spec fn confirm_next(s: FrontState, tickets: Seq<BilibiliTicket>) -> FrontState {
    match s.confirm_ticket_info {
        None => s,
        Some(c) => match first_ticket_of(tickets, uid_of_text(c@, 0)) {
            None => FrontState { show_screen_info: None, ..s },
            Some(k) => if id_bind_of(tickets[k]) == 0 {
                FrontState { is_loading: false, ..s }
            } else {
                s
            },
        },
    }
}

/// Whether the confirmation step requests the buyers, through the session
/// of `tickets[k]`.
pub open spec fn confirm_requests(s: FrontState, tickets: Seq<BilibiliTicket>, now: u128, k: int) -> bool {
    &&& s.confirm_ticket_info matches Some(c)
    &&& first_ticket_of(tickets, uid_of_text(c@, 0)) == Some(k)
    &&& id_bind_of(tickets[k]) != 0
    &&& tickets[k].all_buyer_info is None
    &&& cooled(s.ticket_info_last_request_ns, now)
    &&& tickets[k].session is Some
}

impl FrontState {
    /// The screen step of a frame at time `now`: for the open screen window,
    /// the first session of its account; the project details are requested
    /// when they are not loaded and the cool-down has passed.
    pub fn screen_step(&mut self, tickets: &Vec<BilibiliTicket>, now: u128) -> (r: TicketStep)
        ensures
            *final(self) == screen_next(*old(self), tickets@, now),
            match old(self).show_screen_info {
                None => r is Hidden,
                Some(id) => match first_ticket_of(tickets@, id) {
                    None => r is NoSession,
                    Some(k) => if screen_requests(*old(self), tickets@, now, k) {
                        r == TicketStep::Request {
                            ticket: k as usize,
                            uid: tickets@[k].uid,
                            project_id: old(self).ticket_id,
                        }
                    } else if tickets@[k].project_info is None && cooled(
                        old(self).ticket_info_last_request_ns,
                        now,
                    ) {
                        r is NoClient
                    } else {
                        r is Show
                    },
                },
            },
    {
        let id = match self.show_screen_info {
            None => {
                return TicketStep::Hidden;
            },
            Some(id) => id,
        };
        match find_ticket(tickets, id) {
            None => {
                self.show_screen_info = None;
                TicketStep::NoSession
            },
            Some(k) => {
                let t = &tickets[k];
                if t.project_info.is_none() && cooldown_passed(
                    self.ticket_info_last_request_ns,
                    now,
                ) {
                    if t.session.is_some() {
                        TicketStep::Request { ticket: k, uid: t.uid, project_id: self.ticket_id.clone() }
                    } else {
                        TicketStep::NoClient
                    }
                } else {
                    TicketStep::Show
                }
            },
        }
    }

    /// The confirmation step of a frame at time `now`: for the open
    /// confirmation window, the first session of its account. A project
    /// whose tickets are not bound to buyers stops the loading animation;
    /// otherwise the buyers are requested when they are not loaded and the
    /// cool-down has passed.
    pub fn confirm_step(&mut self, tickets: &Vec<BilibiliTicket>, now: u128) -> (r: TicketStep)
        ensures
            *final(self) == confirm_next(*old(self), tickets@),
            match old(self).confirm_ticket_info {
                None => r is Hidden,
                Some(c) => match first_ticket_of(tickets@, uid_of_text(c@, 0)) {
                    None => r is NoSession,
                    Some(k) => if confirm_requests(*old(self), tickets@, now, k) {
                        r matches TicketStep::Request { ticket, uid, .. } && ticket == k
                            && uid == tickets@[k].uid
                    } else if id_bind_of(tickets@[k]) != 0 && tickets@[k].all_buyer_info is None
                        && cooled(old(self).ticket_info_last_request_ns, now) {
                        r is NoClient
                    } else {
                        r is Show
                    },
                },
            },
    {
        let uid = match &self.confirm_ticket_info {
            None => {
                return TicketStep::Hidden;
            },
            Some(c) => parse_uid(c.as_str(), 0),
        };
        match find_ticket(tickets, uid) {
            None => {
                self.show_screen_info = None;
                TicketStep::NoSession
            },
            Some(k) => {
                let t = &tickets[k];
                let id_bind = match &t.project_info {
                    Some(p) => p.id_bind,
                    None => 0,
                };
                if id_bind == 0 {
                    self.is_loading = false;
                    TicketStep::Show
                } else if t.all_buyer_info.is_none() && cooldown_passed(
                    self.ticket_info_last_request_ns,
                    now,
                ) {
                    if t.session.is_some() {
                        TicketStep::Request { ticket: k, uid: t.uid, project_id: String::new() }
                    } else {
                        TicketStep::NoClient
                    }
                } else {
                    TicketStep::Show
                }
            },
        }
    }

    /// The task manager took a project or buyer request at time `now`: the
    /// loading animation starts and the cool-down restarts.
    pub fn request_taken(&mut self, now: u128)
        ensures
            *final(self) == (FrontState {
                is_loading: true,
                ticket_info_last_request_ns: Some(now),
                ..*old(self)
            }),
    {
        self.is_loading = true;
        self.ticket_info_last_request_ns = Some(now);
    }
}

// ---------------------------------------------------------------------------
// Laws stated on the state's own fields

/// The cool-down is five seconds, strictly: a request may go out at `now`
/// exactly when none was sent before or `now` is more than 5 000 000 000
/// nanoseconds after the last one.
pub proof fn law_cooldown_is_five_seconds(last: Option<u128>, now: u128)
    ensures
        cooled(last, now) == match last {
            Some(t) => now > t + 5_000_000_000,
            None => true,
        },
{
}

proof fn lemma_first_account_at(accounts: Seq<Account>, n: i64, k: int)
    requires
        0 <= k < accounts.len(),
        accounts[k].uid == n,
        forall|m: int| 0 <= m < k ==> (#[trigger] accounts[m]).uid != n,
    ensures
        first_with_uid(accounts, n) == Some(k),
{
    lemma_first_with_uid(accounts, n);
    match first_with_uid(accounts, n) {
        Some(j) => {
            if j < k {
                assert(accounts[j].uid != n);
            }
            if j > k {
                assert(accounts[k].uid != n);
            }
        },
        None => {
            assert(accounts[k].uid != n);
        },
    }
}

proof fn lemma_first_session_at(tickets: Seq<BilibiliTicket>, n: i64, k: int)
    requires
        0 <= k < tickets.len(),
        tickets[k].uid == n,
        forall|m: int| 0 <= m < k ==> (#[trigger] tickets[m]).uid != n,
    ensures
        first_ticket_of(tickets, n) == Some(k),
{
    lemma_first_ticket_of(tickets, n);
    match first_ticket_of(tickets, n) {
        Some(j) => {
            if j < k {
                assert(tickets[j].uid != n);
            }
            if j > k {
                assert(tickets[k].uid != n);
            }
        },
        None => {
            assert(tickets[k].uid != n);
        },
    }
}

/// A requested reload is always honoured: when the order-list window names
/// the user id `n` (not 0) of a listed account that has a client (the first
/// with that id is at `k`), a reload is asked for, no order request is under
/// way and more than five seconds have passed since the last one (or none
/// was sent), the step sends the request, whether or not the loaded list is
/// already this account's. It marks a request as under way, records `now`,
/// clears the reload flag and changes nothing else.
pub proof fn law_requested_reload_is_sent(s: FrontState, accounts: Seq<Account>, now: u128, n: i64, k: int)
    requires
        s.show_orderlist_window is Some,
        uid_of_text(s.show_orderlist_window->0@, 0) == n,
        n != 0,
        0 <= k < accounts.len(),
        accounts[k].uid == n,
        forall|m: int| 0 <= m < k ==> (#[trigger] accounts[m]).uid != n,
        accounts[k].client is Some,
        s.orderlist_need_reload,
        !s.orderlist_requesting,
        match s.orderlist_last_request_ns {
            Some(t) => now > t + 5_000_000_000,
            None => true,
        },
    ensures
        order_list_submits(s, accounts, now),
        order_list_next(s, accounts, now) == (FrontState {
            orderlist_requesting: true,
            orderlist_last_request_ns: Some(now),
            orderlist_need_reload: false,
            ..s
        }),
{
    lemma_first_account_at(accounts, n, k);
}

/// A loaded list of another account is always fetched again: when the
/// order-list window names `n` as above and the loaded list belongs to
/// another user id text (or none is loaded), with no request under way and
/// the cool-down passed, the step sends the request.
pub proof fn law_stale_list_is_fetched(s: FrontState, accounts: Seq<Account>, now: u128, n: i64, k: int)
    requires
        s.show_orderlist_window is Some,
        uid_of_text(s.show_orderlist_window->0@, 0) == n,
        n != 0,
        0 <= k < accounts.len(),
        accounts[k].uid == n,
        forall|m: int| 0 <= m < k ==> (#[trigger] accounts[m]).uid != n,
        accounts[k].client is Some,
        match s.total_order_data {
            Some(d) => d.account_id@ != s.show_orderlist_window->0@,
            None => true,
        },
        !s.orderlist_requesting,
        match s.orderlist_last_request_ns {
            Some(t) => now > t + 5_000_000_000,
            None => true,
        },
    ensures
        order_list_submits(s, accounts, now),
        order_list_next(s, accounts, now).orderlist_requesting,
        order_list_next(s, accounts, now).orderlist_last_request_ns == Some(now),
        !order_list_next(s, accounts, now).orderlist_need_reload,
{
    lemma_first_account_at(accounts, n, k);
}

/// No order request goes out while one is under way, and none before five
/// seconds have passed since the last one.
pub proof fn law_no_order_request_too_soon(s: FrontState, accounts: Seq<Account>, now: u128)
    requires
        s.orderlist_requesting || (s.orderlist_last_request_ns matches Some(t) && now
            <= t + 5_000_000_000),
    ensures
        !order_list_submits(s, accounts, now),
        order_list_next(s, accounts, now).orderlist_requesting == s.orderlist_requesting,
        order_list_next(s, accounts, now).orderlist_last_request_ns == s.orderlist_last_request_ns,
{
}

/// The screen window asks for the project details of its account's first
/// session (at `k`) whenever they are not loaded, the cool-down has passed
/// and the session has a client, and the step changes no state.
pub proof fn law_screen_requests_missing_details(s: FrontState, tickets: Seq<BilibiliTicket>, now: u128, k: int)
    requires
        s.show_screen_info is Some,
        0 <= k < tickets.len(),
        tickets[k].uid == s.show_screen_info->0,
        forall|m: int| 0 <= m < k ==> (#[trigger] tickets[m]).uid != s.show_screen_info->0,
        tickets[k].project_info is None,
        tickets[k].session is Some,
        match s.ticket_info_last_request_ns {
            Some(t) => now > t + 5_000_000_000,
            None => true,
        },
    ensures
        screen_requests(s, tickets, now, k),
        screen_next(s, tickets, now) == s,
{
    lemma_first_session_at(tickets, s.show_screen_info->0, k);
}

/// When no session has the screen window's account, the window closes and
/// nothing else changes.
pub proof fn law_screen_closes_without_session(s: FrontState, tickets: Seq<BilibiliTicket>, now: u128)
    requires
        s.show_screen_info is Some,
        forall|m: int| 0 <= m < tickets.len() ==> (#[trigger] tickets[m]).uid != s.show_screen_info->0,
    ensures
        screen_next(s, tickets, now) == (FrontState { show_screen_info: None, ..s }),
        forall|k: int| !screen_requests(s, tickets, now, k),
{
    lemma_first_ticket_of(tickets, s.show_screen_info->0);
}

/// A project that binds buyers (`id_bind` not 0, whatever its value) makes
/// the confirmation window ask for the buyers of its account's first session
/// (at `k`) when none are loaded, the cool-down has passed and the session
/// has a client; the loading animation is left as it is.
pub proof fn law_bound_project_requests_buyers(
    s: FrontState,
    tickets: Seq<BilibiliTicket>,
    now: u128,
    k: int,
    p: TicketInfo,
)
    requires
        s.confirm_ticket_info is Some,
        0 <= k < tickets.len(),
        tickets[k].uid == uid_of_text(s.confirm_ticket_info->0@, 0),
        forall|m: int|
            0 <= m < k ==> (#[trigger] tickets[m]).uid != uid_of_text(s.confirm_ticket_info->0@, 0),
        tickets[k].project_info == Some(p),
        p.id_bind != 0,
        tickets[k].all_buyer_info is None,
        tickets[k].session is Some,
        match s.ticket_info_last_request_ns {
            Some(t) => now > t + 5_000_000_000,
            None => true,
        },
    ensures
        confirm_requests(s, tickets, now, k),
        confirm_next(s, tickets) == s,
        confirm_next(s, tickets).is_loading == s.is_loading,
{
    lemma_first_session_at(tickets, uid_of_text(s.confirm_ticket_info->0@, 0), k);
}

/// A project that does not bind buyers (`id_bind` 0), or one not loaded yet,
/// stops the loading animation and asks for no buyers.
pub proof fn law_unbound_project_stops_loading(s: FrontState, tickets: Seq<BilibiliTicket>, now: u128, k: int)
    requires
        s.confirm_ticket_info is Some,
        0 <= k < tickets.len(),
        tickets[k].uid == uid_of_text(s.confirm_ticket_info->0@, 0),
        forall|m: int|
            0 <= m < k ==> (#[trigger] tickets[m]).uid != uid_of_text(s.confirm_ticket_info->0@, 0),
        match tickets[k].project_info {
            Some(p) => p.id_bind == 0,
            None => true,
        },
    ensures
        !confirm_requests(s, tickets, now, k),
        confirm_next(s, tickets) == (FrontState { is_loading: false, ..s }),
{
    lemma_first_session_at(tickets, uid_of_text(s.confirm_ticket_info->0@, 0), k);
}

/// The order-list window closes when it names no account (user id 0 or
/// text that is no number), and closes with the frame stopped when its
/// account has no client; in both cases nothing else changes and no request
/// is sent.
pub proof fn law_order_window_closes(s: FrontState, accounts: Seq<Account>, now: u128, k: int)
    requires
        s.show_orderlist_window is Some,
        uid_of_text(s.show_orderlist_window->0@, 0) == 0 || (0 <= k < accounts.len()
            && accounts[k].uid == uid_of_text(s.show_orderlist_window->0@, 0) && (forall|m: int|
            0 <= m < k ==> (#[trigger] accounts[m]).uid != uid_of_text(
                s.show_orderlist_window->0@,
                0,
            )) && accounts[k].client is None),
    ensures
        !order_list_submits(s, accounts, now),
        order_list_next(s, accounts, now) == (FrontState { show_orderlist_window: None, ..s }),
{
    let n = uid_of_text(s.show_orderlist_window->0@, 0);
    if n != 0 {
        lemma_first_account_at(accounts, n, k);
    }
}

/// The screen window never asks again for details that are loaded, nor
/// within five seconds of the last request.
pub proof fn law_screen_no_request_when_loaded_or_soon(s: FrontState, tickets: Seq<BilibiliTicket>, now: u128, k: int)
    requires
        0 <= k < tickets.len(),
        tickets[k].project_info is Some || (s.ticket_info_last_request_ns matches Some(t) && now
            <= t + 5_000_000_000),
    ensures
        !screen_requests(s, tickets, now, k),
{
}

/// The confirmation window never asks again for buyers that are loaded,
/// nor within five seconds of the last request.
pub proof fn law_confirm_no_request_when_loaded_or_soon(s: FrontState, tickets: Seq<BilibiliTicket>, now: u128, k: int)
    requires
        0 <= k < tickets.len(),
        tickets[k].all_buyer_info is Some || (s.ticket_info_last_request_ns matches Some(t) && now
            <= t + 5_000_000_000),
    ensures
        !confirm_requests(s, tickets, now, k),
{
}

} // verus!
