use biliticket::taskmanager::{
    notice_from_decoded, TaskManager_debug, TaskTicketResult, TicketResult, DISCLAIMER_TEXT_ENCODED,
};

#[test]
fn notice_decodes() {
    assert_eq!(TaskManager_debug(), "❤️本项目完全免费开源，禁止商用或收费，开发团队不承担任何法律责任");
    assert!(DISCLAIMER_TEXT_ENCODED.starts_with("4p2k"));
}

#[test]
fn notice_fallbacks() {
    assert_eq!(notice_from_decoded(None), "");
    assert_eq!(notice_from_decoded(Some(vec![0xff, 0xfe])), "本项目免费开源");
    assert_eq!(notice_from_decoded(Some(b"hi".to_vec())), "hi");
    assert_eq!(notice_from_decoded(Some(Vec::new())), "");
}

fn project() -> biliticket::ticket::TicketInfo {
    biliticket::ticket::TicketInfo {
        id: 1,
        name: "P".to_string(),
        is_sale: 1,
        start_time: 0,
        end_time: 0,
        pick_seat: 0,
        project_type: 0,
        express_fee: 0,
        sale_begin: 0,
        sale_end: 0,
        count_down: 0,
        screen_list: Vec::new(),
        sale_flag_number: 0,
        sale_flag: String::new(),
        is_free: true,
        performance_desc: None,
        id_bind: 0,
    }
}

#[test]
fn ticket_result_clones_keep_outcome() {
    let now = std::time::Instant::now();
    let r = TicketResult {
        success: true,
        order_id: Some("42".to_string()),
        message: None,
        ticket_info: project(),
        timestamp: now,
    };
    let task = TaskTicketResult { task_id: "t".to_string(), account_id: "7".to_string(), result: Ok(r) };
    let copy = task.clone();
    assert_eq!(copy.task_id, "t");
    assert_eq!(copy.account_id, "7");
    let got = copy.result.unwrap();
    assert!(got.success);
    assert_eq!(got.order_id.as_deref(), Some("42"));
    assert_eq!(got.message, None);
    assert_eq!(got.timestamp, now);
    let failed = TaskTicketResult { task_id: "u".to_string(), account_id: "8".to_string(), result: Err("no".to_string()) };
    assert_eq!(failed.clone().result.err().as_deref(), Some("no"));
}
