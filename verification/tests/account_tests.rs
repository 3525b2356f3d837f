use biliticket::account::{account_user_agent, add_account, extract_csrf, Account, NavData, NavInfo};
use biliticket::client::{account_client, login_client, ClientConfig};
use biliticket::frontend::AccountManager;

fn client() -> ClientConfig {
    login_client("UA/1")
}

fn full_data() -> NavData {
    NavData {
        mid: Some(123456),
        uname: Some("测试用户".to_string()),
        current_level: Some(6),
        vip_label_text: Some("年度大会员".to_string()),
        face: Some("https://example.com/face.jpg".to_string()),
    }
}

#[test]
fn csrf_found_among_other_entries() {
    assert_eq!(extract_csrf("SESSDATA=abc%2C123; bili_jct=0123abcd; DedeUserID=1"), "0123abcd");
}

#[test]
fn csrf_key_is_case_insensitive() {
    assert_eq!(extract_csrf("BILI_JCT=XyZ09"), "XyZ09");
    assert_eq!(extract_csrf("a=1;Bili_Jct=q"), "q");
}

#[test]
fn csrf_strips_quotes() {
    assert_eq!(extract_csrf("bili_jct=\"tok\""), "tok");
    assert_eq!(extract_csrf("bili_jct='tok'"), "tok");
    assert_eq!(extract_csrf("bili_jct=\"'tok'\""), "tok");
    assert_eq!(extract_csrf("bili_jct='\"tok\"'"), "\"tok\"");
}

#[test]
fn csrf_trims_white_space_of_each_piece() {
    assert_eq!(extract_csrf("x=1;\t bili_jct=val \n; y=2"), "val");
    assert_eq!(extract_csrf("\u{3000}bili_jct=v\u{a0}"), "v");
}

#[test]
fn csrf_missing_gives_empty() {
    assert_eq!(extract_csrf(""), "");
    assert_eq!(extract_csrf("SESSDATA=abc; DedeUserID=1"), "");
    assert_eq!(extract_csrf("bili_jct"), "");
    assert_eq!(extract_csrf("xbili_jct=1"), "");
    assert_eq!(extract_csrf(";;;"), "");
}

#[test]
fn csrf_first_entry_wins() {
    assert_eq!(extract_csrf("bili_jct=one; bili_jct=two"), "one");
}

#[test]
fn csrf_empty_value() {
    assert_eq!(extract_csrf("bili_jct=; other=1"), "");
    assert_eq!(extract_csrf("bili_jct=\"\""), "");
}

#[test]
fn csrf_dotted_capital_i_does_not_match() {
    // U+0130 lower-cases to "i" followed by U+0307, so the key does not match.
    assert_eq!(extract_csrf("b\u{130}li_jct=v"), "");
}

#[test]
fn csrf_value_keeps_inner_equals_and_spaces() {
    assert_eq!(extract_csrf("bili_jct=a=b c"), "a=b c");
}

#[test]
fn add_account_builds_record() {
    let nav = NavInfo { code: Some(0), data: Some(full_data()) };
    let cookie = "SESSDATA=s; bili_jct=abc123";
    let a = add_account(cookie, &client(), &nav).unwrap();
    assert_eq!(a.uid, 123456);
    assert_eq!(a.name, "测试用户");
    assert_eq!(a.level, "6");
    assert_eq!(a.cookie, cookie);
    assert_eq!(a.csrf, "abc123");
    assert!(a.is_login);
    assert_eq!(a.account_status, "空闲");
    assert_eq!(a.vip_label, "年度大会员");
    assert!(a.is_active);
    assert_eq!(a.avatar_url, Some("https://example.com/face.jpg".to_string()));
}

#[test]
fn add_account_defaults_for_missing_members() {
    let data = NavData { mid: None, uname: None, current_level: None, vip_label_text: None, face: None };
    let a = add_account("c=1", &client(), &NavInfo { code: Some(0), data: Some(data) }).unwrap();
    assert_eq!(a.uid, 0);
    assert_eq!(a.name, "账号信息获取失败，请删除重新登录");
    assert_eq!(a.level, "0");
    assert_eq!(a.csrf, "");
    assert_eq!(a.vip_label, "");
    assert_eq!(a.avatar_url, Some(String::new()));
}

#[test]
fn add_account_negative_and_extreme_levels() {
    let mut data = full_data();
    data.current_level = Some(-5);
    let a = add_account("", &client(), &NavInfo { code: Some(0), data: Some(data) }).unwrap();
    assert_eq!(a.level, "-5");
    let mut data = full_data();
    data.current_level = Some(i64::MIN);
    let a = add_account("", &client(), &NavInfo { code: Some(0), data: Some(data) }).unwrap();
    assert_eq!(a.level, "-9223372036854775808");
}

#[test]
fn add_account_rejects_nonzero_code() {
    let r = add_account("c", &client(), &NavInfo { code: Some(-101), data: Some(full_data()) });
    assert_eq!(r.unwrap_err(), "获取账号信息失败");
    let r = add_account("c", &client(), &NavInfo { code: None, data: Some(full_data()) });
    assert_eq!(r.unwrap_err(), "获取账号信息失败");
}

#[test]
fn add_account_rejects_missing_data() {
    let r = add_account("c", &client(), &NavInfo { code: Some(0), data: None });
    assert_eq!(r.unwrap_err(), "无法获取用户信息");
}

#[test]
fn account_clone_keeps_fields() {
    let a = add_account("bili_jct=t", &client(), &NavInfo { code: Some(0), data: Some(full_data()) }).unwrap();
    let b: Account = a.clone();
    assert_eq!(b.uid, a.uid);
    assert_eq!(b.name, a.name);
    assert_eq!(b.csrf, "t");
    assert_eq!(b.avatar_url, a.avatar_url);
}

#[test]
fn account_user_agent_appends_id() {
    assert_eq!(
        account_user_agent(123456789),
        "Mozilla/5.0 (Windows NT 10.0; Win64; x64) AppleWebKit/537.36 (KHTML, like Gecko) Chrome/120.0.0.0 Safari/537.36 123456789"
    );
    assert_eq!(
        account_user_agent(0),
        "Mozilla/5.0 (Windows NT 10.0; Win64; x64) AppleWebKit/537.36 (KHTML, like Gecko) Chrome/120.0.0.0 Safari/537.36 0"
    );
}

#[test]
fn account_clients() {
    let mut a = add_account("bili_jct=t", &client(), &NavInfo { code: Some(0), data: Some(full_data()) }).unwrap();
    assert_eq!(a.client.as_ref().unwrap().user_agent.as_deref(), Some("UA/1"));
    a.ensure_client(77);
    assert_eq!(a.client.as_ref().unwrap().user_agent.as_deref(), Some("UA/1"));
    a.refresh_client(77);
    let c = a.client.clone().unwrap();
    assert!(c.cookie_store && c.cookie.is_none());
    assert_eq!(c.user_agent.as_deref(), Some(account_user_agent(77).as_str()));
    a.client = None;
    a.ensure_client(5);
    assert!(a.client.as_ref().unwrap().user_agent.as_deref().unwrap().ends_with(" 5"));
    // The cookie plays no part in an account's client.
    let x = account_client("SESSDATA=1", 9);
    let y = account_client("other", 9);
    assert_eq!(x.user_agent, y.user_agent);
    assert_eq!((x.cookie_store, x.cookie.is_none()), (y.cookie_store, y.cookie.is_none()));
    let b = a.clone();
    assert_eq!(b.client.unwrap().user_agent, a.client.unwrap().user_agent);
}

#[test]
fn login_client_falls_back_on_invalid_agent() {
    let c = login_client("bad\nua");
    assert_eq!(c.user_agent.as_deref(), Some("Mozilla/5.0 (Windows NT 10.0; Win64; x64) AppleWebKit/537.36"));
    assert!(c.cookie_store && c.cookie.is_none());
}

#[test]
fn csrf_general_plain_values() {
    assert_eq!(extract_csrf("bili_jct=a b\tc=d"), "a b\tc=d");
    assert_eq!(extract_csrf("BILI_JCT=中文"), "中文");
    assert_eq!(extract_csrf("x=1; bili_jct=first; bili_jct=second"), "first");
}

#[test]
fn debug_text_shows_every_field() {
    let mut a = add_account("bili_jct=t", &client(), &NavInfo { code: Some(0), data: Some(full_data()) }).unwrap();
    a.name = "a \"quoted\"\nname".to_string();
    let expected = format!(
        "Account {{ uid: {}, name: {:?}, level: {:?}, cookie: {:?}, csrf: {:?}, is_login: true, account_status: {:?}, vip_label: {:?}, is_active: true, avatar_url: {:?}, avatar_texture: \"SKipped\", client: Some(ClientConfig {{ cookie_store: true, cookie: None, user_agent: Some(\"UA/1\") }}) }}",
        a.uid, a.name, a.level, a.cookie, a.csrf, a.account_status, a.vip_label, a.avatar_url
    );
    assert_eq!(a.debug_text(), expected);
    a.client = None;
    a.avatar_url = None;
    a.is_active = false;
    assert!(a.debug_text().ends_with("is_active: false, avatar_url: None, avatar_texture: \"SKipped\", client: None }"));
}

#[test]
fn ensure_clients_fills_the_missing_ones() {
    let a = add_account("c=1", &client(), &NavInfo { code: Some(0), data: Some(full_data()) }).unwrap();
    let mut b = a.clone();
    b.client = None;
    let mut m = AccountManager::new(vec![a, b]);
    m.ensure_clients(&vec![1, 2]);
    assert_eq!(m.accounts[0].client.as_ref().unwrap().user_agent.as_deref(), Some("UA/1"));
    assert_eq!(m.accounts[1].client.as_ref().unwrap().user_agent, Some(account_user_agent(2)));
}
