use biliticket::account::{add_account, Account, NavData, NavInfo};
use biliticket::client::login_client;
use biliticket::config::CustomConfig;
use biliticket::frame::{cooldown_passed, FrontState, OrderListStep, ResultAction, TicketStep};
use biliticket::frontend::OrderData;
use biliticket::taskmanager::{
    buyer_info_request, ticket_info_request, total_order_request, TaskRequest, TaskStatus,
    GetAllorderRequestResult, GetBuyerInfoResult, GetTicketInfoResult, LoginSmsRequestResult,
    PushRequestResult, PushType, QrCodeLoginStatus, SubmitSmsLoginResult, TaskQrCodeLoginResult,
    TaskResult,
};
use biliticket::ticket::{BilibiliTicket, BuyerInfoData, BuyerInfoResponse, InfoResponse, TicketInfo};

const SEC: u128 = 1_000_000_000;

fn account(uid: i64) -> Account {
    let data = NavData { mid: Some(uid), uname: None, current_level: None, vip_label_text: None, face: None };
    add_account("SESSDATA=s", &login_client("UA/1"), &NavInfo { code: Some(0), data: Some(data) }).unwrap()
}

fn info(id_bind: usize) -> TicketInfo {
    TicketInfo {
        id: 85939,
        name: "BW".to_string(),
        is_sale: 1,
        start_time: 0,
        end_time: 0,
        pick_seat: 0,
        project_type: 1,
        express_fee: 0,
        sale_begin: 0,
        sale_end: 0,
        count_down: 0,
        screen_list: Vec::new(),
        sale_flag_number: 0,
        sale_flag: String::new(),
        is_free: false,
        performance_desc: None,
        id_bind,
    }
}

fn ticket(uid: i64) -> BilibiliTicket {
    let config = CustomConfig { custom_ua: String::new(), captcha_mode: 0 };
    BilibiliTicket::new(&0, &"UA/1".to_string(), &config, &account(uid), &serde_json::Value::Null, &2, "1")
}

#[test]
fn cooldown_is_strictly_more_than_five_seconds() {
    assert!(cooldown_passed(None, 0));
    assert!(!cooldown_passed(Some(10), 10 + 5 * SEC));
    assert!(cooldown_passed(Some(10), 10 + 5 * SEC + 1));
    assert!(!cooldown_passed(Some(100), 50));
}

#[test]
fn start_up_state() {
    let s = FrontState::new();
    assert_eq!(s.ticket_id, "85939");
    assert!(s.show_orderlist_window.is_none() && !s.is_loading && !s.orderlist_requesting);
}

#[test]
fn order_list_window_closes_or_stops() {
    let accounts = vec![account(12)];
    let mut s = FrontState::new();
    assert!(matches!(s.order_list_step(&accounts, 0), OrderListStep::Hidden));
    s.show_orderlist_window = Some("abc".to_string());
    assert!(matches!(s.order_list_step(&accounts, 0), OrderListStep::Closed));
    assert!(s.show_orderlist_window.is_none());
    let mut bare = account(12);
    bare.client = None;
    s.show_orderlist_window = Some("12".to_string());
    assert!(matches!(s.order_list_step(&vec![bare], 0), OrderListStep::Stop));
    assert!(s.show_orderlist_window.is_none());
    assert!(!s.orderlist_requesting);
}

#[test]
fn order_list_requests_cool_down() {
    let accounts = vec![account(3), account(12)];
    let mut s = FrontState::new();
    s.show_orderlist_window = Some("12".to_string());
    match s.order_list_step(&accounts, 7 * SEC) {
        OrderListStep::Request { account, account_id, cookies } => {
            assert_eq!(account, 1);
            assert_eq!(account_id, "12");
            assert_eq!(cookies, "SESSDATA=s");
        }
        _ => panic!("expected a request"),
    }
    assert!(s.orderlist_requesting && !s.orderlist_need_reload);
    assert_eq!(s.orderlist_last_request_ns, Some(7 * SEC));
    // Under way: no second request.
    assert!(matches!(s.order_list_step(&accounts, 60 * SEC), OrderListStep::Show));
    assert!(s.orderlist_need_reload);
    // Finished, but within the cool-down.
    s.orderlist_requesting = false;
    assert!(matches!(s.order_list_step(&accounts, 12 * SEC), OrderListStep::Show));
    assert!(matches!(s.order_list_step(&accounts, 12 * SEC + 1), OrderListStep::Request { .. }));
    // The loaded list is this account's and no reload is asked: nothing to fetch.
    s.orderlist_requesting = false;
    s.orderlist_need_reload = false;
    s.total_order_data = Some(OrderData { account_id: "12".to_string(), data: None });
    assert!(matches!(s.order_list_step(&accounts, 100 * SEC), OrderListStep::Show));
    s.total_order_data = Some(OrderData { account_id: "3".to_string(), data: None });
    assert!(matches!(s.order_list_step(&accounts, 100 * SEC), OrderListStep::Request { account: 1, .. }));
}

#[test]
fn screen_step_requests_project_details() {
    let mut tickets = vec![ticket(1), ticket(2)];
    let mut s = FrontState::new();
    assert!(matches!(s.screen_step(&tickets, 0), TicketStep::Hidden));
    s.show_screen_info = Some(9);
    assert!(matches!(s.screen_step(&tickets, 0), TicketStep::NoSession));
    assert_eq!(s.show_screen_info, None);
    s.show_screen_info = Some(2);
    match s.screen_step(&tickets, SEC) {
        TicketStep::Request { ticket, uid, project_id } => {
            assert_eq!((ticket, uid), (1, 2));
            assert_eq!(project_id, "85939");
        }
        _ => panic!("expected a request"),
    }
    s.request_taken(SEC);
    assert!(s.is_loading);
    assert_eq!(s.ticket_info_last_request_ns, Some(SEC));
    assert!(matches!(s.screen_step(&tickets, 6 * SEC), TicketStep::Show));
    tickets[1].session = None;
    assert!(matches!(s.screen_step(&tickets, 6 * SEC + 1), TicketStep::NoClient));
    tickets[1].project_info = Some(info(1));
    assert!(matches!(s.screen_step(&tickets, 60 * SEC), TicketStep::Show));
}

#[test]
fn confirm_step_requests_buyers() {
    let mut tickets = vec![ticket(5)];
    let mut s = FrontState::new();
    s.is_loading = true;
    s.show_screen_info = Some(5);
    s.confirm_ticket_info = Some("5".to_string());
    // Project not loaded: treated as not bound to buyers.
    assert!(matches!(s.confirm_step(&tickets, 0), TicketStep::Show));
    assert!(!s.is_loading);
    tickets[0].project_info = Some(info(1));
    assert!(matches!(s.confirm_step(&tickets, 0), TicketStep::Request { ticket: 0, uid: 5, .. }));
    s.request_taken(0);
    assert!(matches!(s.confirm_step(&tickets, 5 * SEC), TicketStep::Show));
    tickets[0].all_buyer_info = Some(BuyerInfoData { list: Vec::new() });
    assert!(matches!(s.confirm_step(&tickets, 50 * SEC), TicketStep::Show));
    s.confirm_ticket_info = Some("6".to_string());
    assert!(matches!(s.confirm_step(&tickets, 50 * SEC), TicketStep::NoSession));
    assert_eq!(s.show_screen_info, None);
    assert_eq!(s.confirm_ticket_info.as_deref(), Some("6"));
}

fn state() -> FrontState {
    let mut s = FrontState::new();
    s.sms_captcha_key = "old".to_string();
    s.show_screen_info = Some(7);
    s
}

#[test]
fn login_results() {
    let mut s = state();
    let mut tickets = Vec::new();
    let r = TaskQrCodeLoginResult { task_id: "t".to_string(), status: QrCodeLoginStatus::Success("x".to_string()), cookie: Some("ck".to_string()), error: None };
    assert!(matches!(s.apply(&mut tickets, TaskResult::QrCodeLoginResult(r)), ResultAction::Login(c) if c == "ck"));
    let r = TaskQrCodeLoginResult { task_id: "t".to_string(), status: QrCodeLoginStatus::Success("x".to_string()), cookie: None, error: None };
    assert!(matches!(s.apply(&mut tickets, TaskResult::QrCodeLoginResult(r)), ResultAction::Nothing));
    let r = TaskQrCodeLoginResult { task_id: "t".to_string(), status: QrCodeLoginStatus::Expired, cookie: Some("ck".to_string()), error: None };
    assert!(matches!(s.apply(&mut tickets, TaskResult::QrCodeLoginResult(r)), ResultAction::Nothing));
    let r = LoginSmsRequestResult { task_id: "t".to_string(), phone: "1".to_string(), success: false, message: "no".to_string() };
    assert!(matches!(s.apply(&mut tickets, TaskResult::LoginSmsResult(r)), ResultAction::Nothing));
    assert_eq!(s.sms_captcha_key, "old");
    let r = LoginSmsRequestResult { task_id: "t".to_string(), phone: "1".to_string(), success: true, message: "key9".to_string() };
    s.apply(&mut tickets, TaskResult::LoginSmsResult(r));
    assert_eq!(s.sms_captcha_key, "key9");
    let r = SubmitSmsLoginResult { task_id: "t".to_string(), phone: "1".to_string(), success: true, message: String::new(), cookie: Some("c2".to_string()) };
    assert!(matches!(s.apply(&mut tickets, TaskResult::SubmitSmsLoginResult(r)), ResultAction::Login(c) if c == "c2"));
    let r = SubmitSmsLoginResult { task_id: "t".to_string(), phone: "1".to_string(), success: false, message: String::new(), cookie: Some("c2".to_string()) };
    assert!(matches!(s.apply(&mut tickets, TaskResult::SubmitSmsLoginResult(r)), ResultAction::Nothing));
    let r = PushRequestResult { task_id: "t".to_string(), success: true, message: String::new(), push_type: PushType::Bark };
    assert!(matches!(s.apply(&mut tickets, TaskResult::PushResult(r)), ResultAction::Nothing));
}

#[test]
fn order_results() {
    let mut s = state();
    let mut tickets = Vec::new();
    let r = GetAllorderRequestResult { task_id: "t".to_string(), account_id: "5".to_string(), success: true, message: String::new(), order_info: Some(serde_json::Value::Null), timestamp: std::time::Instant::now() };
    s.apply(&mut tickets, TaskResult::GetAllorderRequestResult(r));
    assert_eq!(s.total_order_data.as_ref().unwrap().account_id, "5");
    let r = GetAllorderRequestResult { task_id: "t".to_string(), account_id: "6".to_string(), success: false, message: String::new(), order_info: None, timestamp: std::time::Instant::now() };
    s.apply(&mut tickets, TaskResult::GetAllorderRequestResult(r));
    assert_eq!(s.total_order_data.as_ref().unwrap().account_id, "5");
}

fn project_result(uid: i64, success: bool, with_info: bool) -> TaskResult {
    let ticket_info = if with_info {
        Some(InfoResponse { errno: 0, errtag: 0, msg: String::new(), data: info(1) })
    } else {
        None
    };
    TaskResult::GetTicketInfoResult(GetTicketInfoResult { task_id: "t".to_string(), uid, ticket_info, success, message: String::new() })
}

#[test]
fn project_results_reach_the_session() {
    let mut s = state();
    let mut tickets = vec![ticket(1), ticket(2), ticket(2)];
    assert!(matches!(s.apply(&mut tickets, project_result(2, true, true)), ResultAction::Nothing));
    assert!(tickets[1].project_info.is_some());
    assert!(tickets[0].project_info.is_none() && tickets[2].project_info.is_none());
    assert_eq!(s.show_screen_info, Some(7));
    s.apply(&mut tickets, project_result(1, true, false));
    assert!(tickets[0].project_info.is_none());
    assert_eq!(s.show_screen_info, Some(7));
    s.apply(&mut tickets, project_result(4, true, true));
    assert_eq!(s.show_screen_info, None);
    s.show_screen_info = Some(7);
    s.apply(&mut tickets, project_result(1, false, true));
    assert!(tickets[0].project_info.is_none());
    assert_eq!(s.show_screen_info, None);
}

fn buyer_result(uid: i64, success: bool, errno: i32) -> TaskResult {
    let buyer_info = Some(BuyerInfoResponse { errno, errtag: 0, msg: String::new(), data: BuyerInfoData { list: Vec::new() } });
    TaskResult::GetBuyerInfoResult(GetBuyerInfoResult { task_id: "t".to_string(), uid, buyer_info, success, message: String::new() })
}

#[test]
fn buyer_results_reach_the_session() {
    let mut s = state();
    let mut tickets = vec![ticket(1)];
    s.apply(&mut tickets, buyer_result(1, true, 3));
    assert!(tickets[0].all_buyer_info.is_none());
    assert_eq!(s.show_screen_info, Some(7));
    s.apply(&mut tickets, buyer_result(1, true, 0));
    assert!(tickets[0].all_buyer_info.is_some());
    s.apply(&mut tickets, buyer_result(8, true, 0));
    assert_eq!(s.show_screen_info, None);
    s.show_screen_info = Some(7);
    s.apply(&mut tickets, buyer_result(1, false, 0));
    assert_eq!(s.show_screen_info, None);
}

#[test]
fn order_requests_stay_spaced_over_many_frames() {
    let accounts = vec![account(12)];
    let mut s = FrontState::new();
    s.show_orderlist_window = Some("12".to_string());
    let mut sent = Vec::new();
    let mut t = 0u128;
    while t < 30 * SEC {
        if let OrderListStep::Request { .. } = s.order_list_step(&accounts, t) {
            sent.push(t);
        }
        // The order window finishes every request at once and asks for a reload.
        s.orderlist_requesting = false;
        s.orderlist_need_reload = true;
        t += SEC / 2;
    }
    assert!(sent.len() >= 5);
    for w in sent.windows(2) {
        assert!(w[1] > w[0] + 5 * SEC);
    }
}

#[test]
fn request_builders() {
    let c = login_client("UA/1");
    match total_order_request(&c, -42, "SESSDATA=1") {
        TaskRequest::GetAllorderRequest(q) => {
            assert_eq!(q.account_id, "-42");
            assert_eq!(q.cookies, "SESSDATA=1");
            assert!(q.task_id.is_empty() && q.start_time.is_none());
            assert!(matches!(q.status, TaskStatus::Pending));
            assert_eq!(q.client.user_agent.as_deref(), Some("UA/1"));
        }
        _ => panic!("wrong request"),
    }
    assert!(matches!(ticket_info_request(&c, 3, "85939".to_string()), TaskRequest::GetTicketInfoRequest(q) if q.uid == 3 && q.project_id == "85939"));
    assert!(matches!(buyer_info_request(&c, 4), TaskRequest::GetBuyerInfoRequest(q) if q.uid == 4 && q.task_id.is_empty()));
}

#[test]
fn placeholder_avatar_pixels() {
    let px = biliticket::frontend::placeholder_avatar_rgba();
    assert_eq!(px.len(), 128 * 128 * 4);
    assert_eq!(&px[0..4], &[180, 180, 230, 255]);
    let row = 127;
    let i = (row * 128 + 5) * 4;
    assert_eq!(&px[i..i + 4], &[180, 180 + 63, 230, 255]);
    let i = (3 * 128) * 4;
    assert_eq!(px[i + 1], 181);
}
