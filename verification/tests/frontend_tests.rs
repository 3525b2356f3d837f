use biliticket::account::{add_account, Account, NavData, NavInfo};
use biliticket::config::CustomConfig;
use biliticket::client::login_client;
use biliticket::frontend::{
    attach_buyer_info, attach_project_info, client_user_agent, find_ticket,
    alphanumeric_text, generate_random_string, parse_uid, startup_user_agent, AccountManager, AccountSwitch, LogBook,
};
use biliticket::ticket::{BilibiliTicket, BuyerInfoData, TicketInfo};

fn account(uid: i64) -> Account {
    let data = NavData { mid: Some(uid), uname: None, current_level: None, vip_label_text: None, face: None };
    add_account("c=1", &login_client("UA/1"), &NavInfo { code: Some(0), data: Some(data) }).unwrap()
}

fn info(id_bind: usize) -> TicketInfo {
    TicketInfo {
        id: 85939,
        name: "BW".to_string(),
        is_sale: 1,
        start_time: 0,
        end_time: 0,
        pick_seat: 0,
        project_type: 1,
        express_fee: 0,
        sale_begin: 0,
        sale_end: 0,
        count_down: -5,
        screen_list: Vec::new(),
        sale_flag_number: 0,
        sale_flag: String::new(),
        is_free: false,
        performance_desc: None,
        id_bind,
    }
}

fn ticket(uid: i64) -> BilibiliTicket {
    let config = CustomConfig { custom_ua: String::new(), captcha_mode: 0 };
    BilibiliTicket::new(&0, &"ua".to_string(), &config, &account(uid), &serde_json::Value::Null, &2, "1")
}

fn uids(m: &AccountManager) -> Vec<i64> {
    m.accounts.iter().map(|a| a.uid).collect()
}

#[test]
fn delete_account_removes_matching_uid() {
    let mut m = AccountManager::new(vec![account(1), account(2), account(1), account(3)]);
    m.delete_account("1");
    assert_eq!(uids(&m), vec![2, 3]);
    m.delete_account("7");
    assert_eq!(uids(&m), vec![2, 3]);
}

#[test]
fn delete_account_with_unparsable_id_targets_minus_one() {
    let mut m = AccountManager::new(vec![account(-1), account(5)]);
    m.delete_account("abc");
    assert_eq!(uids(&m), vec![5]);
}

#[test]
fn delete_by_written_uid_law_example() {
    let mut m = AccountManager::new(vec![account(i64::MIN), account(0), account(i64::MIN)]);
    m.delete_account(&i64::MIN.to_string());
    assert_eq!(uids(&m), vec![0]);
}

#[test]
fn delete_undoes_add_example() {
    let mut m = AccountManager::new(vec![account(4), account(-9)]);
    m.add(account(77));
    assert_eq!(uids(&m), vec![4, -9, 77]);
    m.delete_account(&77i64.to_string());
    assert_eq!(uids(&m), vec![4, -9]);
}

#[test]
fn switch_account_changes_first_match_only() {
    let mut m = AccountManager::new(vec![account(1), account(2), account(2)]);
    let found = m.switch_account(&AccountSwitch { uid: "2".to_string(), switch: false });
    assert!(found);
    let active: Vec<bool> = m.accounts.iter().map(|a| a.is_active).collect();
    assert_eq!(active, vec![true, false, true]);
    let found = m.switch_account(&AccountSwitch { uid: "9".to_string(), switch: false });
    assert!(!found);
    m.add(account(9));
    assert_eq!(uids(&m), vec![1, 2, 2, 9]);
}

#[test]
fn parse_uid_default() {
    assert_eq!(parse_uid("12", 0), 12);
    assert_eq!(parse_uid("x", 0), 0);
    assert_eq!(parse_uid("", -1), -1);
}

#[test]
fn add_log_alerts() {
    let mut log = LogBook::new();
    assert!(!log.add_log("all fine", 1));
    assert!(!log.error_banner_active);
    assert_eq!(log.error_banner_start_ns, None);
    assert!(log.add_log("ERROR: network down", 2));
    assert!(log.error_banner_active);
    assert_eq!(log.error_banner_text, "ERROR: network down");
    assert_eq!(log.error_banner_start_ns, Some(2));
    assert!(log.add_log("开始抢票", 3));
    assert_eq!(log.error_banner_text, "开始抢票");
    assert!(log.add_log("an error: x", 4));
    assert!(log.add_log("Error: y", 5));
    assert!(!log.add_log("errors everywhere", 6));
    assert!(!log.add_log("ERROR x", 7));
    assert!(!log.add_log("eRRor: y", 8));
    assert_eq!(log.error_banner_text, "Error: y");
    assert_eq!(log.error_banner_start_ns, Some(5));
    assert_eq!(log.logs.len(), 8);
    assert_eq!(log.logs[0], "all fine");
}

#[test]
fn banner_expires_after_two_and_a_half_seconds() {
    let mut log = LogBook::new();
    assert!(!log.banner_tick(0));
    log.add_log("ERROR: x", 1_000);
    assert!(log.banner_tick(1_000));
    assert!(log.banner_tick(1_000 + 2_499_999_999));
    assert!(log.error_banner_active);
    assert!(!log.banner_tick(1_000 + 2_500_000_000));
    assert!(!log.error_banner_active);
    assert_eq!(log.error_banner_start_ns, None);
    assert_eq!(log.error_banner_text, "ERROR: x");
    assert!(!log.banner_tick(1_000 + 2_500_000_001));
    log.add_log("Error: again", 9_000_000_000);
    assert!(log.banner_tick(9_000_000_000));
}

#[test]
fn attach_to_sessions() {
    let mut tickets = vec![ticket(1), ticket(2), ticket(2)];
    assert_eq!(find_ticket(&tickets, 2), Some(1));
    assert_eq!(find_ticket(&tickets, 3), None);
    assert!(attach_project_info(&mut tickets, 2, info(1)));
    assert!(tickets[1].project_info.is_some());
    assert!(tickets[0].project_info.is_none() && tickets[2].project_info.is_none());
    assert!(!attach_project_info(&mut tickets, 5, info(1)));
    assert!(attach_buyer_info(&mut tickets, 1, BuyerInfoData { list: Vec::new() }));
    assert!(tickets[0].all_buyer_info.is_some());
    assert_eq!(tickets.len(), 3);
}

#[test]
fn random_strings() {
    let s = generate_random_string(8);
    assert_eq!(s.len(), 8);
    assert!(s.chars().all(|c| c.is_ascii_alphanumeric()));
    assert_eq!(generate_random_string(0), "");
}

#[test]
fn alphanumeric_text_keeps_the_bytes() {
    assert_eq!(alphanumeric_text(&b"aZ09".to_vec()), "aZ09");
    assert_eq!(alphanumeric_text(&Vec::new()), "");
    assert_eq!(alphanumeric_text(&vec![0xe9]), "\u{e9}");
}

#[test]
fn user_agents() {
    assert_eq!(
        startup_user_agent("abc12345", false, true, Some("X")),
        "Mozilla/5.0 (Windows NT 10.0; Win64; x64) AppleWebKit/537.36 (KHTML, like Gecko) Chrome/134.0.0.0 Safari/537.36 Edg/134.0.0.0 abc12345"
    );
    assert_eq!(startup_user_agent("r", true, true, Some("Custom")), "Custom");
    assert!(startup_user_agent("r", true, false, Some("Custom")).ends_with(" r"));
    assert!(startup_user_agent("r", true, true, None).ends_with(" r"));
    assert_eq!(client_user_agent("UA/1"), "UA/1");
    assert_eq!(client_user_agent("bad\nua"), "Mozilla/5.0 (Windows NT 10.0; Win64; x64) AppleWebKit/537.36");
}

#[test]
fn login_with_cookie_adds_account() {
    let mut m = AccountManager::new(vec![account(1)]);
    let data = NavData { mid: Some(33), uname: Some("n".to_string()), current_level: Some(4), vip_label_text: None, face: None };
    let client = login_client("UA/1");
    assert_eq!(m.login_with_cookie("bili_jct=t", &client, &NavInfo { code: Some(0), data: Some(data) }), Ok(()));
    assert_eq!(uids(&m), vec![1, 33]);
    assert_eq!(m.accounts[1].csrf, "t");
    assert_eq!(m.accounts[1].client.as_ref().unwrap().user_agent.as_deref(), Some("UA/1"));
    let e = m.login_with_cookie("x", &client, &NavInfo { code: Some(-101), data: None });
    assert_eq!(e, Err("获取账号信息失败".to_string()));
    assert_eq!(uids(&m), vec![1, 33]);
}
