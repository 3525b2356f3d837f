//! Ticket data (projects, screens, ticket kinds, buyers, orders) and the
//! per-account ticket session.
use vstd::prelude::*;
use vstd::string::StringExecFns;
use crate::account::Account;
use crate::config::{CustomConfig, PushConfig};
use crate::text::push_char;
use crate::client::{opt_client, session_client, session_client_view, ClientConfig};

verus! {

/// A placed order.
#[derive(Clone, Debug)]
pub struct SubmitOrderResult {
    pub order_id: i128,
    pub order_create_time: i64,
    pub order_token: String,
}

/// The confirmed amount and price of an order.
#[derive(Clone, Debug)]
pub struct ConfirmTicketResult {
    pub count: i32,
    pub pay_money: i64,
}

/// Response of the token request when risk control steps in.
#[derive(Clone, Debug)]
pub struct TokenRiskParam {
    pub code: i32,
    pub message: String,
    pub mid: Option<String>,
    pub decision_type: Option<String>,
    pub buvid: Option<String>,
    pub ip: Option<String>,
    pub scene: Option<String>,
    pub ua: Option<String>,
    pub v_voucher: Option<String>,
    pub risk_param: Option<serde_json::Value>,
}

/// Sale state of a screen or ticket kind.
#[derive(Debug)]
pub struct SaleFlag {
    pub number: usize,
    pub display_name: String,
}

/// The state shown when the sale state is unknown.
pub open spec fn unknown_sale_text() -> Seq<char> {
    "未知状态"@
}

impl Default for SaleFlag {
    /// Number 0, shown as "unknown state".
    fn default() -> (r: Self)
        ensures
            r.number == 0,
            r.display_name@ == unknown_sale_text(),
    {
        SaleFlag { number: 0, display_name: String::from_str("未知状态") }
    }
}

/// Details of a project (an event on sale).
#[derive(Debug)]
pub struct TicketInfo {
    pub id: i32,
    pub name: String,
    pub is_sale: usize,
    pub start_time: usize,
    pub end_time: usize,
    /// 0: no seat choice, 1: seats are chosen.
    pub pick_seat: usize,
    pub project_type: usize,
    /// Delivery fee.
    pub express_fee: usize,
    /// Sale start time.
    pub sale_begin: usize,
    /// Sale end time.
    pub sale_end: usize,
    /// Countdown (may be negative).
    pub count_down: i64,
    /// The screens (sessions) of the project.
    pub screen_list: Vec<ScreenInfo>,
    pub sale_flag_number: usize,
    pub sale_flag: String,
    pub is_free: bool,
    /// Descriptive modules.
    pub performance_desc: Option<DescribeList>,
    /// Whether buyers must be bound by real name.
    pub id_bind: usize,
}

/// One screen (session) of a project.
#[derive(Debug)]
pub struct ScreenInfo {
    pub sale_flag: SaleFlag,
    pub id: usize,
    pub start_time: usize,
    pub name: String,
    pub ticket_type: usize,
    pub screen_type: usize,
    pub delivery_type: usize,
    pub pick_seat: usize,
    /// Ticket kinds of the screen.
    pub ticket_list: Vec<ScreenTicketInfo>,
    /// Whether it can be selected (is on sale).
    pub clickable: bool,
    pub sale_end: usize,
    pub sale_start: usize,
    pub sale_flag_number: usize,
    pub show_date: String,
}

/// One ticket kind of a screen.
#[allow(non_snake_case)]
#[derive(Debug)]
pub struct ScreenTicketInfo {
    /// Sale start (timestamp).
    pub saleStart: usize,
    /// Sale end (timestamp).
    pub saleEnd: usize,
    pub id: usize,
    pub project_id: usize,
    /// Price in cents.
    pub price: usize,
    pub desc: String,
    /// Sale start, as text.
    pub sale_start: String,
    /// Sale end, as text.
    pub sale_end: String,
    /// The response's `type` member.
    pub kind: usize,
    pub sale_type: usize,
    pub is_sale: usize,
    pub num: usize,
    pub sale_flag: SaleFlag,
    pub clickable: bool,
    pub sale_flag_number: usize,
    pub screen_name: String,
}

/// The descriptive modules of a project.
#[derive(Debug)]
pub struct DescribeList {
    /// The response's `type` member.
    pub kind: u8,
    pub list: Vec<ModuleItem>,
}

/// One descriptive module; its details are a string or an array.
#[derive(Debug)]
pub struct ModuleItem {
    pub module: String,
    pub details: serde_json::Value,
    pub module_name: Option<String>,
}

/// One entry of the `base_info` module.
#[derive(Clone, Debug)]
pub struct BaseInfoItem {
    pub title: String,
    pub content: String,
}

/// Response to a project-details request.
#[derive(Clone, Debug)]
pub struct InfoResponse {
    pub errno: i32,
    pub errtag: i32,
    pub msg: String,
    pub data: TicketInfo,
}

/// A buyer registered with the account (for real-name tickets).
#[allow(non_snake_case)]
#[derive(Debug)]
pub struct BuyerInfo {
    pub id: i64,
    pub uid: i64,
    pub personal_id: String,
    pub name: String,
    pub tel: String,
    pub id_type: i64,
    pub is_default: i64,
    pub id_card_front: String,
    pub id_card_back: String,
    pub verify_status: i64,
    pub isBuyerInfoVerified: bool,
    pub isBuyerValid: bool,
}

/// Response to a buyer-list request.
#[derive(Clone, Debug)]
pub struct BuyerInfoResponse {
    pub errno: i32,
    pub errtag: i32,
    pub msg: String,
    pub data: BuyerInfoData,
}

/// The buyers of an account.
#[derive(Debug)]
pub struct BuyerInfoData {
    pub list: Vec<BuyerInfo>,
}

// ---------------------------------------------------------------------------
// Copies

impl Clone for SaleFlag {
    fn clone(&self) -> (r: Self)
        ensures
            r == *self,
    {
        SaleFlag { number: self.number, display_name: self.display_name.clone() }
    }
}

impl Clone for ScreenTicketInfo {
    fn clone(&self) -> (r: Self)
        ensures
            r == *self,
    {
        ScreenTicketInfo {
            saleStart: self.saleStart,
            saleEnd: self.saleEnd,
            id: self.id,
            project_id: self.project_id,
            price: self.price,
            desc: self.desc.clone(),
            sale_start: self.sale_start.clone(),
            sale_end: self.sale_end.clone(),
            kind: self.kind,
            sale_type: self.sale_type,
            is_sale: self.is_sale,
            num: self.num,
            sale_flag: self.sale_flag.clone(),
            clickable: self.clickable,
            sale_flag_number: self.sale_flag_number,
            screen_name: self.screen_name.clone(),
        }
    }
}

fn clone_opt_string(o: &Option<String>) -> (r: Option<String>)
    ensures
        r == *o,
{
    match o {
        Some(s) => Some(s.clone()),
        None => None,
    }
}

impl Clone for ModuleItem {
    fn clone(&self) -> (r: Self)
        ensures
            r == *self,
    {
        ModuleItem {
            module: self.module.clone(),
            details: self.details.clone(),
            module_name: clone_opt_string(&self.module_name),
        }
    }
}

/// `a` and `b` hold the same modules.
pub open spec fn same_describe(a: DescribeList, b: DescribeList) -> bool {
    a.kind == b.kind && a.list@ == b.list@
}

impl Clone for DescribeList {
    fn clone(&self) -> (r: Self)
        ensures
            same_describe(*self, r),
    {
        let list = self.list.clone();
        assert(list@ =~= self.list@);
        DescribeList { kind: self.kind, list }
    }
}

/// `a` and `b` describe the same screen and the same ticket kinds.
pub open spec fn same_screen(a: ScreenInfo, b: ScreenInfo) -> bool {
    ScreenInfo { ticket_list: b.ticket_list, ..a } == b && a.ticket_list@ == b.ticket_list@
}

impl Clone for ScreenInfo {
    fn clone(&self) -> (r: Self)
        ensures
            same_screen(*self, r),
    {
        let ticket_list = self.ticket_list.clone();
        assert(ticket_list@ =~= self.ticket_list@);
        ScreenInfo {
            sale_flag: self.sale_flag.clone(),
            id: self.id,
            start_time: self.start_time,
            name: self.name.clone(),
            ticket_type: self.ticket_type,
            screen_type: self.screen_type,
            delivery_type: self.delivery_type,
            pick_seat: self.pick_seat,
            ticket_list,
            clickable: self.clickable,
            sale_end: self.sale_end,
            sale_start: self.sale_start,
            sale_flag_number: self.sale_flag_number,
            show_date: self.show_date.clone(),
        }
    }
}

/// `a` and `b` describe the same project, screens and modules.
pub open spec fn same_ticket_info(a: TicketInfo, b: TicketInfo) -> bool {
    &&& TicketInfo { screen_list: b.screen_list, performance_desc: b.performance_desc, ..a } == b
    &&& a.screen_list@.len() == b.screen_list@.len()
    &&& forall|i: int|
        0 <= i < a.screen_list@.len() ==> same_screen(
            #[trigger] a.screen_list@[i],
            b.screen_list@[i],
        )
    &&& match (a.performance_desc, b.performance_desc) {
        (Some(x), Some(y)) => same_describe(x, y),
        (None, None) => true,
        _ => false,
    }
}

impl Clone for TicketInfo {
    fn clone(&self) -> (r: Self)
        ensures
            same_ticket_info(*self, r),
    {
        let screen_list = self.screen_list.clone();
        let performance_desc = match &self.performance_desc {
            Some(d) => Some(d.clone()),
            None => None,
        };
        TicketInfo {
            id: self.id,
            name: self.name.clone(),
            is_sale: self.is_sale,
            start_time: self.start_time,
            end_time: self.end_time,
            pick_seat: self.pick_seat,
            project_type: self.project_type,
            express_fee: self.express_fee,
            sale_begin: self.sale_begin,
            sale_end: self.sale_end,
            count_down: self.count_down,
            screen_list,
            sale_flag_number: self.sale_flag_number,
            sale_flag: self.sale_flag.clone(),
            is_free: self.is_free,
            performance_desc,
            id_bind: self.id_bind,
        }
    }
}

impl Clone for BuyerInfo {
    fn clone(&self) -> (r: Self)
        ensures
            r == *self,
    {
        BuyerInfo {
            id: self.id,
            uid: self.uid,
            personal_id: self.personal_id.clone(),
            name: self.name.clone(),
            tel: self.tel.clone(),
            id_type: self.id_type,
            is_default: self.is_default,
            id_card_front: self.id_card_front.clone(),
            id_card_back: self.id_card_back.clone(),
            verify_status: self.verify_status,
            isBuyerInfoVerified: self.isBuyerInfoVerified,
            isBuyerValid: self.isBuyerValid,
        }
    }
}

impl Clone for BuyerInfoData {
    fn clone(&self) -> (r: Self)
        ensures
            r.list@ == self.list@,
    {
        let list = self.list.clone();
        assert(list@ =~= self.list@);
        BuyerInfoData { list }
    }
}

// ---------------------------------------------------------------------------
// Device identifiers

/// The lower-case hexadecimal digit for `d` (`0 <= d < 16`).
pub open spec fn hex_digit(d: int) -> char {
    seq!['0', '1', '2', '3', '4', '5', '6', '7', '8', '9', 'a', 'b', 'c', 'd', 'e', 'f'][d]
}

/// The last `width` lower-case hexadecimal digits of `n`, zero-padded
/// (`format!("{:0width$x}", n)` for `n < 16^width`).
pub open spec fn hex_fixed(n: nat, width: nat) -> Seq<char>
    decreases width,
{
    if width == 0 {
        Seq::empty()
    } else {
        hex_fixed(n / 16, (width - 1) as nat).push(hex_digit((n % 16) as int))
    }
}

/// The number whose little-endian bytes are `b` (`u128::from_le_bytes`).
pub open spec fn le_value(b: Seq<u8>) -> nat
    decreases b.len(),
{
    if b.len() == 0 {
        0
    } else {
        b[0] as nat + 256 * le_value(b.drop_first())
    }
}

/// The device id made from 16 bytes: `{:032x}` of their little-endian value.
pub open spec fn device_id_text(b: Seq<u8>) -> Seq<char> {
    hex_fixed(le_value(b), 32)
}

/// Whether `s` is a device id made from some 16 bytes.
pub open spec fn is_device_id(s: Seq<char>) -> bool {
    exists|b: Seq<u8>| b.len() == 16 && s == #[trigger] device_id_text(b)
}

/// A lower-case hexadecimal digit.
pub open spec fn is_hex_digit(c: char) -> bool {
    ('0' <= c && c <= '9') || ('a' <= c && c <= 'f')
}

proof fn lemma_hex_fixed_shape(n: nat, width: nat)
    ensures
        hex_fixed(n, width).len() == width,
        forall|i: int| 0 <= i < width ==> is_hex_digit(#[trigger] hex_fixed(n, width)[i]),
    decreases width,
{
    if width > 0 {
        lemma_hex_fixed_shape(n / 16, (width - 1) as nat);
        let d = (n % 16) as int;
        let ds = seq!['0', '1', '2', '3', '4', '5', '6', '7', '8', '9', 'a', 'b', 'c', 'd', 'e', 'f'];
        assert(is_hex_digit(ds[d])) by {
            assert(ds[0] == '0' && ds[1] == '1' && ds[2] == '2' && ds[3] == '3' && ds[4] == '4'
                && ds[5] == '5' && ds[6] == '6' && ds[7] == '7' && ds[8] == '8' && ds[9] == '9'
                && ds[10] == 'a' && ds[11] == 'b' && ds[12] == 'c' && ds[13] == 'd' && ds[14] == 'e'
                && ds[15] == 'f');
        }
        let h = hex_fixed(n, width);
        let pre = hex_fixed(n / 16, (width - 1) as nat);
        assert forall|i: int| 0 <= i < width implies is_hex_digit(#[trigger] h[i]) by {
            if i < width - 1 {
                assert(h[i] == pre[i]);
            }
        }
    }
}

/// Every device id is 32 lower-case hexadecimal digits.
pub proof fn law_device_id_shape(b: Seq<u8>)
    ensures
        device_id_text(b).len() == 32,
        forall|i: int| 0 <= i < 32 ==> is_hex_digit(#[trigger] device_id_text(b)[i]),
{
    lemma_hex_fixed_shape(le_value(b), 32);
}

/// Two hex digits per byte, last byte first.
spec fn hex_bytes_rev(b: Seq<u8>) -> Seq<char>
    decreases b.len(),
{
    if b.len() == 0 {
        Seq::empty()
    } else {
        hex_bytes_rev(b.drop_first()) + seq![hex_digit((b[0] / 16) as int), hex_digit((b[0] % 16) as int)]
    }
}

proof fn lemma_div_mod_byte(b0: nat, r: nat)
    requires
        b0 < 256,
    ensures
        (b0 + 256 * r) / 16 / 16 == r,
        ((b0 + 256 * r) / 16) % 16 == b0 / 16,
        (b0 + 256 * r) % 16 == b0 % 16,
{
    assert((b0 + 256 * r) / 16 == b0 / 16 + 16 * r) by (nonlinear_arith)
        requires
            b0 < 256,
    ;
    assert((b0 / 16 + 16 * r) / 16 == r) by (nonlinear_arith)
        requires
            b0 < 256,
    ;
    assert((b0 / 16 + 16 * r) % 16 == b0 / 16) by (nonlinear_arith)
        requires
            b0 < 256,
    ;
    assert((b0 + 256 * r) % 16 == b0 % 16) by (nonlinear_arith);
}

proof fn lemma_hex_bytes(b: Seq<u8>)
    ensures
        hex_fixed(le_value(b), 2 * b.len()) == hex_bytes_rev(b),
    decreases b.len(),
{
    if b.len() > 0 {
        let rest = b.drop_first();
        lemma_hex_bytes(rest);
        let n = le_value(b);
        let r = le_value(rest);
        lemma_div_mod_byte(b[0] as nat, r);
        let w = (2 * b.len()) as nat;
        assert(hex_fixed(n, w) == hex_fixed(n / 16, (w - 1) as nat).push(
            hex_digit((n % 16) as int),
        ));
        assert(hex_fixed(n / 16, (w - 1) as nat) == hex_fixed(n / 16 / 16, (w - 2) as nat).push(
            hex_digit(((n / 16) % 16) as int),
        ));
        assert(hex_fixed(n, w) =~= hex_bytes_rev(b));
    }
}

/// The device id made from `bytes`: the 32 lower-case hexadecimal digits of
/// the little-endian value of the bytes.
pub fn device_id_from_bytes(bytes: [u8; 16]) -> (r: String)
    ensures
        r@ == device_id_text(bytes@),
{
    let digits: [char; 16] = [
        '0',
        '1',
        '2',
        '3',
        '4',
        '5',
        '6',
        '7',
        '8',
        '9',
        'a',
        'b',
        'c',
        'd',
        'e',
        'f',
    ];
    assert(digits@ =~= seq![
        '0',
        '1',
        '2',
        '3',
        '4',
        '5',
        '6',
        '7',
        '8',
        '9',
        'a',
        'b',
        'c',
        'd',
        'e',
        'f',
    ]);
    let mut s = String::new();
    let mut i: usize = 16;
    assert(bytes@.skip(16) =~= Seq::<u8>::empty());
    while i > 0
        invariant
            i <= 16,
            bytes@.len() == 16,
            digits@ == seq![
                '0',
                '1',
                '2',
                '3',
                '4',
                '5',
                '6',
                '7',
                '8',
                '9',
                'a',
                'b',
                'c',
                'd',
                'e',
                'f',
            ],
            s@ == hex_bytes_rev(bytes@.skip(i as int)),
        decreases i,
    {
        i -= 1;
        let byte = bytes[i];
        push_char(&mut s, digits[(byte / 16) as usize]);
        push_char(&mut s, digits[(byte % 16) as usize]);
        assert(bytes@.skip(i as int).drop_first() =~= bytes@.skip(i + 1));
        assert(s@ =~= hex_bytes_rev(bytes@.skip(i as int)));
    }
    proof {
        assert(bytes@.skip(0) =~= bytes@);
        lemma_hex_bytes(bytes@);
    }
    s
}

/// Sixteen bytes from `rand::thread_rng()` (`Rng::gen`). Nothing is promised
/// of their values.
#[verifier::external_body]
fn random_device_bytes() -> [u8; 16] {
    rand::Rng::gen(&mut rand::thread_rng())
}

/// A fresh random device id: 32 lower-case hexadecimal digits.
pub fn create_new_device_id() -> (r: String)
    ensures
        is_device_id(r@),
{
    let bytes = random_device_bytes();
    let r = device_id_from_bytes(bytes);
    assert(bytes@.len() == 16);
    r
}

// ---------------------------------------------------------------------------
// Ticket sessions

/// A character that an HTTP header value may hold: a tab, or any character
/// from the space on except DEL.
pub open spec fn header_char_ok(c: char) -> bool {
    c == '\t' || (' ' <= c && c != '\x7f')
}

/// Text that an HTTP header value may hold.
pub open spec fn header_text_ok(s: Seq<char>) -> bool {
    forall|i: int| 0 <= i < s.len() ==> header_char_ok(#[trigger] s[i])
}

/// Calls `reqwest::header::HeaderValue::from_str` and reports whether it
/// accepted `s`. Trusted: by the `http` crate's source, it accepts exactly
/// when every byte of the UTF-8 text is a tab, or at least 0x20 and not 0x7F;
/// the bytes of a non-ASCII character are all at least 0x80, so this is the
/// per-character test `header_text_ok`.
#[verifier::external_body]
pub(crate) fn header_value_accepts(s: &str) -> (r: bool)
    ensures
        r == header_text_ok(s@),
{
    reqwest::header::HeaderValue::from_str(s).is_ok()
}

/// The ticket-grabbing session of one account for one project.
#[derive(Debug)]
pub struct BilibiliTicket {
    /// The account's user id.
    pub uid: i64,
    pub method: u8,
    pub ua: String,
    pub config: CustomConfig,
    pub account: Account,
    pub push_self: PushConfig,
    pub status_delay: usize,
    /// The captcha-solving method in use.
    pub captcha_use_type: usize,
    pub project_id: String,
    pub screen_id: String,
    /// Project details.
    pub project_info: Option<TicketInfo>,
    /// All buyers of the account.
    pub all_buyer_info: Option<BuyerInfoData>,
    /// The chosen buyers (real-name tickets).
    pub buyer_info: Option<Vec<BuyerInfo>>,
    /// Name given when tickets are not bound to buyers.
    pub nobind_name: Option<String>,
    /// Phone number given when tickets are not bound to buyers.
    pub nobind_tel: Option<String>,
    pub select_ticket_id: Option<String>,
    /// Amount to pay.
    pub pay_money: Option<i64>,
    /// Number of tickets.
    pub count: Option<i32>,
    pub device_id: String,
    /// The session's HTTP client.
    pub session: Option<ClientConfig>,
}

impl BilibiliTicket {
    /// A new session for `account` and the project `project_id`, with a
    /// fresh device id, nothing chosen yet, and a client set up for the
    /// account's cookie and the effective user agent.
    pub fn new(
        method: &u8,
        ua: &String,
        config: &CustomConfig,
        account: &Account,
        push_self: &PushConfig,
        status_delay: &usize,
        project_id: &str,
    ) -> (r: Self)
        ensures
            r.uid == account.uid,
            r.method == *method,
            r.ua@ == ua@,
            r.config.custom_ua@ == config.custom_ua@,
            r.config.captcha_mode == config.captcha_mode,
            r.account@ == account@,
            r.push_self == *push_self,
            r.status_delay == *status_delay,
            r.captcha_use_type == config.captcha_mode,
            r.project_id@ == project_id@,
            r.screen_id@ == Seq::<char>::empty(),
            r.project_info is None,
            r.all_buyer_info is None,
            r.buyer_info is None,
            r.nobind_name is None,
            r.nobind_tel is None,
            r.select_ticket_id is None,
            r.pay_money is None,
            r.count is None,
            is_device_id(r.device_id@),
            opt_client(r.session) == Some(session_client_view(account.cookie@, config.custom_ua@, ua@)),
    {
        let session = session_client(account.cookie.as_str(), config.custom_ua.as_str(), ua.as_str());
        let device_id = create_new_device_id();
        BilibiliTicket {
            uid: account.uid,
            method: *method,
            ua: ua.clone(),
            config: config.clone(),
            account: account.clone(),
            push_self: push_self.clone(),
            status_delay: *status_delay,
            captcha_use_type: config.captcha_mode,
            project_id: String::from_str(project_id),
            screen_id: String::new(),
            project_info: None,
            all_buyer_info: None,
            buyer_info: None,
            nobind_name: None,
            nobind_tel: None,
            select_ticket_id: None,
            pay_money: None,
            count: None,
            device_id,
            session: Some(session),
        }
    }
}

} // verus!
