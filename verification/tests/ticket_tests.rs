use biliticket::account::{add_account, NavData, NavInfo};
use biliticket::client::{login_client, session_client};
use biliticket::config::CustomConfig;
use biliticket::ticket::{
    create_new_device_id, device_id_from_bytes,
    BilibiliTicket, DescribeList, ModuleItem, SaleFlag, ScreenInfo, ScreenTicketInfo, TicketInfo,
};

fn account() -> biliticket::account::Account {
    let data = NavData { mid: Some(42), uname: Some("n".to_string()), current_level: Some(3), vip_label_text: None, face: None };
    add_account("bili_jct=k", &login_client("UA/1"), &NavInfo { code: Some(0), data: Some(data) }).unwrap()
}

#[test]
fn sale_flag_default() {
    let f = SaleFlag::default();
    assert_eq!(f.number, 0);
    assert_eq!(f.display_name, "未知状态");
}

#[test]
fn device_id_hex_of_little_endian_value() {
    assert_eq!(device_id_from_bytes([0; 16]), "0".repeat(32));
    let mut b = [0u8; 16];
    b[0] = 1;
    assert_eq!(device_id_from_bytes(b), format!("{}1", "0".repeat(31)));
    let mut b = [0u8; 16];
    b[15] = 0x12;
    b[14] = 0xab;
    assert_eq!(device_id_from_bytes(b), format!("12ab{}", "0".repeat(28)));
    let b: [u8; 16] = [0x10, 0x32, 0x54, 0x76, 0x98, 0xba, 0xdc, 0xfe, 1, 2, 3, 4, 5, 6, 7, 8];
    assert_eq!(device_id_from_bytes(b), format!("{:032x}", u128::from_le_bytes(b)));
}

#[test]
fn fresh_device_ids_are_hex() {
    let a = create_new_device_id();
    let b = create_new_device_id();
    assert_eq!(a.len(), 32);
    assert!(a.chars().all(|c| c.is_ascii_hexdigit() && !c.is_ascii_uppercase()));
    assert_eq!(b.len(), 32);
}

#[test]
fn header_values() {
    let ok = |s: &str| session_client(s, "", "ua").cookie.is_some();
    assert!(ok("abc; d=e"));
    assert!(ok("tab\there"));
    assert!(ok("é中"));
    assert!(!ok("a\nb"));
    assert!(!ok("a\u{7f}"));
    assert!(!ok("a\u{0}"));
    assert!(ok(""));
}

#[test]
fn session_client_uses_default_ua() {
    let c = session_client("SESSDATA=x", "", "UA/1");
    assert!(c.cookie_store);
    assert_eq!(c.cookie.as_deref(), Some("SESSDATA=x"));
    assert_eq!(c.user_agent.as_deref(), Some("UA/1"));
}

#[test]
fn session_client_prefers_custom_ua() {
    let c = session_client("c=1", "Custom/2", "UA/1");
    assert_eq!(c.user_agent.as_deref(), Some("Custom/2"));
}

#[test]
fn session_client_skips_invalid_values() {
    let c = session_client("bad\ncookie", "Custom/2", "UA/1");
    assert!(c.cookie.is_none());
    assert_eq!(c.user_agent.as_deref(), Some("UA/1"));
    let c = session_client("c=1", "bad\rua", "UA/1");
    assert_eq!(c.cookie.as_deref(), Some("c=1"));
    assert_eq!(c.user_agent.as_deref(), Some("UA/1"));
    let c = session_client("c=1", "Custom/2", "bad\nua");
    assert!(!c.cookie_store && c.cookie.is_none() && c.user_agent.is_none());
}

#[test]
fn new_ticket_session() {
    let config = CustomConfig { custom_ua: "ua-custom".to_string(), captcha_mode: 2 };
    let acc = account();
    let push = serde_json::Value::Bool(true);
    let t = BilibiliTicket::new(&1, &"ua".to_string(), &config, &acc, &push, &3, "85939");
    assert_eq!(t.uid, 42);
    assert_eq!(t.method, 1);
    assert_eq!(t.ua, "ua");
    assert_eq!(t.config.custom_ua, "ua-custom");
    assert_eq!(t.captcha_use_type, 2);
    assert_eq!(t.account.csrf, "k");
    assert_eq!(t.push_self, serde_json::Value::Bool(true));
    assert_eq!(t.status_delay, 3);
    assert_eq!(t.project_id, "85939");
    assert_eq!(t.screen_id, "");
    assert!(t.project_info.is_none() && t.all_buyer_info.is_none() && t.buyer_info.is_none());
    assert!(t.nobind_name.is_none() && t.nobind_tel.is_none() && t.select_ticket_id.is_none());
    assert!(t.pay_money.is_none() && t.count.is_none());
    assert_eq!(t.device_id.len(), 32);
    let session = t.session.unwrap();
    assert_eq!(session.cookie.as_deref(), Some("bili_jct=k"));
    assert_eq!(session.user_agent.as_deref(), Some("ua-custom"));
}

#[test]
fn ticket_data_clones_are_equal() {
    let kind = ScreenTicketInfo {
        saleStart: 1, saleEnd: 2, id: 3, project_id: 4, price: 500, desc: "d".to_string(),
        sale_start: "s".to_string(), sale_end: "e".to_string(), kind: 1, sale_type: 2, is_sale: 0,
        num: 9, sale_flag: SaleFlag::default(), clickable: true, sale_flag_number: 2, screen_name: "n".to_string(),
    };
    let screen = ScreenInfo {
        sale_flag: SaleFlag { number: 2, display_name: "预售中".to_string() }, id: 7, start_time: 8,
        name: "Day 1".to_string(), ticket_type: 1, screen_type: 1, delivery_type: 1, pick_seat: 0,
        ticket_list: vec![kind], clickable: true, sale_end: 10, sale_start: 9, sale_flag_number: 2,
        show_date: "07-12".to_string(),
    };
    let info = TicketInfo {
        id: 1, name: "BW".to_string(), is_sale: 1, start_time: 2, end_time: 3, pick_seat: 0,
        project_type: 1, express_fee: 0, sale_begin: 4, sale_end: 5, count_down: -1,
        screen_list: vec![screen], sale_flag_number: 2, sale_flag: "x".to_string(), is_free: false,
        performance_desc: Some(DescribeList {
            kind: 1,
            list: vec![ModuleItem { module: "base_info".to_string(), details: serde_json::Value::Null, module_name: None }],
        }),
        id_bind: 1,
    };
    let copy = info.clone();
    assert_eq!(format!("{:?}", copy), format!("{:?}", info));
    assert_eq!(copy.screen_list[0].ticket_list[0].price, 500);
}
