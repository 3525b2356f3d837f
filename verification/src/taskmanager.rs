//! Background tasks: their states, requests and results, and the notice the
//! task manager carries.
use vstd::prelude::*;
use vstd::string::{StringExecFns, StringSliceAdditionalSpecFns};
use vstd::utf8::{decode_utf8, valid_utf8};
use std::time::Instant;
use crate::config::{OrderResponse, PushConfig};
use crate::ticket::{same_ticket_info, BuyerInfoResponse, InfoResponse, TicketInfo};
use crate::account::opt_text;
use crate::client::ClientConfig;
use crate::config::CustomConfig;
use crate::text::{decimal_string, decimal_text};

verus! {

/// State of a background task.
#[derive(Clone, Debug)]
pub enum TaskStatus {
    Pending,
    Running,
    Completed(bool),
    Failed(String),
}

/// Outcome of a ticket purchase.
pub struct TicketResult {
    pub success: bool,
    pub order_id: Option<String>,
    pub message: Option<String>,
    pub ticket_info: TicketInfo,
    pub timestamp: Instant,
}

/// `a` and `b` report the same outcome, order, message, project and time.
pub open spec fn same_ticket_result(a: TicketResult, b: TicketResult) -> bool {
    &&& a.success == b.success
    &&& same_ticket_info(b.ticket_info, a.ticket_info)
    &&& opt_text(a.order_id) == opt_text(b.order_id)
    &&& opt_text(a.message) == opt_text(b.message)
    &&& a.timestamp == b.timestamp
}

fn clone_opt_string(o: &Option<String>) -> (r: Option<String>)
    ensures
        opt_text(r) == opt_text(*o),
{
    match o {
        Some(s) => Some(s.clone()),
        None => None,
    }
}

impl Clone for TicketResult {
    fn clone(&self) -> (r: Self)
        ensures
            same_ticket_result(r, *self),
    {
        TicketResult {
            success: self.success,
            order_id: clone_opt_string(&self.order_id),
            message: clone_opt_string(&self.message),
            ticket_info: self.ticket_info.clone(),
            timestamp: self.timestamp.clone(),
        }
    }
}

/// Where a QR-code login stands.
#[derive(Clone, Debug)]
pub enum QrCodeLoginStatus {
    /// Not finished yet: the code is waiting to be scanned or confirmed.
    Waiting,
    /// Logged in; carries the cookie.
    Success(String),
    /// Failed; carries the reason.
    Failed(String),
    /// The code expired and must be refreshed.
    Expired,
}

/// Results that background tasks hand back.
#[derive(Clone)]
pub enum TaskResult {
    QrCodeLoginResult(TaskQrCodeLoginResult),
    LoginSmsResult(LoginSmsRequestResult),
    PushResult(PushRequestResult),
    SubmitSmsLoginResult(SubmitSmsLoginResult),
    GetAllorderRequestResult(GetAllorderRequestResult),
    GetTicketInfoResult(GetTicketInfoResult),
    GetBuyerInfoResult(GetBuyerInfoResult),
}

/// Result of fetching the details of a project for the session of the
/// account `uid`.
#[derive(Clone, Debug)]
pub struct GetTicketInfoResult {
    pub task_id: String,
    pub uid: i64,
    pub ticket_info: Option<InfoResponse>,
    pub success: bool,
    pub message: String,
}

/// Result of fetching the buyers of the account `uid`.
#[derive(Clone, Debug)]
pub struct GetBuyerInfoResult {
    pub task_id: String,
    pub uid: i64,
    pub buyer_info: Option<BuyerInfoResponse>,
    pub success: bool,
    pub message: String,
}

/// A request to push a notification.
#[derive(Clone)]
pub struct PushRequest {
    pub title: String,
    pub message: String,
    pub push_config: PushConfig,
    pub push_type: PushType,
}

/// The channel a notification is pushed through.
#[derive(Clone, Debug)]
pub enum PushType {
    All,
    Bark,
    PushPlus,
    Fangtang,
    Dingtalk,
    WeChat,
    Smtp,
}

/// Result of a push.
#[derive(Clone)]
pub struct PushRequestResult {
    pub task_id: String,
    pub success: bool,
    pub message: String,
    pub push_type: PushType,
}

/// A push task.
#[derive(Clone)]
pub struct PushTask {
    pub task_id: String,
    pub title: String,
    pub message: String,
    pub push_type: PushType,
    pub status: TaskStatus,
    pub start_time: Option<Instant>,
}

/// A ticket-purchase task.
pub struct TicketTask {
    pub task_id: String,
    pub account_id: String,
    pub ticket_id: String,
    pub status: TaskStatus,
    pub start_time: Option<Instant>,
    pub result: Option<TicketResult>,
}

/// A QR-code login task.
pub struct QrCodeLoginTask {
    pub task_id: String,
    pub qrcode_key: String,
    pub qrcode_url: String,
    pub status: TaskStatus,
    pub start_time: Option<Instant>,
}

/// A task sending a login SMS code.
pub struct LoginSmsRequestTask {
    pub task_id: String,
    pub phone: String,
    pub status: TaskStatus,
    pub start_time: Option<Instant>,
}

/// A task logging in with an SMS code.
pub struct SubmitLoginSmsRequestTask {
    pub task_id: String,
    pub phone: String,
    pub code: String,
    pub captcha_key: String,
    pub status: TaskStatus,
    pub start_time: Option<Instant>,
}

/// Result of fetching all orders of an account.
#[derive(Clone)]
pub struct GetAllorderRequestResult {
    pub task_id: String,
    pub account_id: String,
    pub success: bool,
    pub message: String,
    pub order_info: Option<OrderResponse>,
    pub timestamp: Instant,
}

/// A task fetching all orders of an account.
pub struct GetAllorderTask {
    pub task_id: String,
    pub account_id: String,
    pub status: TaskStatus,
    pub start_time: Option<Instant>,
}

/// A request to buy a ticket.
pub struct TicketRequest {
    pub ticket_id: String,
    pub account_id: String,
}

/// Request for the details of a project, for the session of account `uid`.
#[derive(Clone, Debug)]
pub struct GetTicketInfoRequest {
    pub task_id: String,
    pub uid: i64,
    pub project_id: String,
    pub client: ClientConfig,
}

/// Request for the buyers of account `uid`.
#[derive(Clone, Debug)]
pub struct GetBuyerInfoRequest {
    pub task_id: String,
    pub uid: i64,
    pub client: ClientConfig,
}

/// Task fetching the details of a project.
#[derive(Clone, Debug)]
pub struct GetTicketInfoTask {
    pub task_id: String,
    pub project_id: String,
    pub status: TaskStatus,
    pub start_time: Option<Instant>,
    pub client: ClientConfig,
}

/// Request for all orders of an account.
pub struct GetAllorderRequest {
    pub task_id: String,
    pub client: ClientConfig,
    pub status: TaskStatus,
    pub cookies: String,
    pub account_id: String,
    pub start_time: Option<Instant>,
}

/// Request to send a login SMS code.
pub struct LoginSmsRequest {
    pub phone: String,
    pub client: ClientConfig,
    pub custom_config: CustomConfig,
}

/// Request to log in with an SMS code.
pub struct SubmitLoginSmsRequest {
    pub phone: String,
    pub code: String,
    pub captcha_key: String,
    pub client: ClientConfig,
}

/// A running background task.
pub enum Task {
    QrCodeLoginTask(QrCodeLoginTask),
    LoginSmsRequestTask(LoginSmsRequestTask),
    PushTask(PushTask),
    SubmitLoginSmsRequestTask(SubmitLoginSmsRequestTask),
    GetAllorderRequestTask(GetAllorderRequest),
    GetTicketInfoTask(GetTicketInfoTask),
}

/// A request to start a background task.
pub enum TaskRequest {
    QrCodeLoginRequest(QrCodeLoginRequest),
    LoginSmsRequest(LoginSmsRequest),
    PushRequest(PushRequest),
    SubmitLoginSmsRequest(SubmitLoginSmsRequest),
    GetAllorderRequest(GetAllorderRequest),
    GetTicketInfoRequest(GetTicketInfoRequest),
    GetBuyerInfoRequest(GetBuyerInfoRequest),
}

/// The request for all orders of the account with user id `uid` and
/// cookie `cookies`, sent through `client`: no task id yet, pending, not
/// started, under the user id in decimal.
pub fn total_order_request(client: &ClientConfig, uid: i64, cookies: &str) -> (r: TaskRequest)
    ensures
        r matches TaskRequest::GetAllorderRequest(q) && q.task_id@.len() == 0 && q.client@
            == client@ && q.status is Pending && q.cookies@ == cookies@ && q.account_id@
            == decimal_text(uid as int) && q.start_time is None,
{
    TaskRequest::GetAllorderRequest(
        GetAllorderRequest {
            task_id: String::new(),
            client: client.clone(),
            status: TaskStatus::Pending,
            cookies: String::from_str(cookies),
            account_id: decimal_string(uid),
            start_time: None,
        },
    )
}

/// The request for the details of `project_id` for the session of account
/// `uid`, sent through `client`, with no task id yet.
pub fn ticket_info_request(client: &ClientConfig, uid: i64, project_id: String) -> (r: TaskRequest)
    ensures
        r matches TaskRequest::GetTicketInfoRequest(q) && q.task_id@.len() == 0 && q.uid == uid
            && q.project_id == project_id && q.client@ == client@,
{
    TaskRequest::GetTicketInfoRequest(
        GetTicketInfoRequest { task_id: String::new(), uid, project_id, client: client.clone() },
    )
}

/// The request for the buyers of account `uid`, sent through `client`, with
/// no task id yet.
pub fn buyer_info_request(client: &ClientConfig, uid: i64) -> (r: TaskRequest)
    ensures
        r matches TaskRequest::GetBuyerInfoRequest(q) && q.task_id@.len() == 0 && q.uid == uid
            && q.client@ == client@,
{
    TaskRequest::GetBuyerInfoRequest(
        GetBuyerInfoRequest { task_id: String::new(), uid, client: client.clone() },
    )
}

/// A request to poll a QR-code login.
pub struct QrCodeLoginRequest {
    pub qrcode_key: String,
    pub qrcode_url: String,
    pub user_agent: Option<String>,
}

/// Result of a ticket task.
pub struct TaskTicketResult {
    pub task_id: String,
    pub account_id: String,
    pub result: Result<TicketResult, String>,
}

impl Clone for TaskTicketResult {
    fn clone(&self) -> (r: Self)
        ensures
            r.task_id@ == self.task_id@,
            r.account_id@ == self.account_id@,
            match (r.result, self.result) {
                (Ok(a), Ok(b)) => same_ticket_result(a, b),
                (Err(a), Err(b)) => a@ == b@,
                _ => false,
            },
    {
        TaskTicketResult {
            task_id: self.task_id.clone(),
            account_id: self.account_id.clone(),
            result: match &self.result {
                Ok(t) => Ok(t.clone()),
                Err(e) => Err(e.clone()),
            },
        }
    }
}

/// Result of a QR-code login poll.
#[derive(Clone)]
pub struct TaskQrCodeLoginResult {
    pub task_id: String,
    pub status: QrCodeLoginStatus,
    pub cookie: Option<String>,
    pub error: Option<String>,
}

/// Result of sending a login SMS code; on success `message` holds the
/// captcha key.
#[derive(Clone)]
pub struct LoginSmsRequestResult {
    pub task_id: String,
    pub phone: String,
    pub success: bool,
    pub message: String,
}

/// Result of logging in with an SMS code.
#[derive(Clone)]
pub struct SubmitSmsLoginResult {
    pub task_id: String,
    pub phone: String,
    pub success: bool,
    pub message: String,
    pub cookie: Option<String>,
}

/// The notice carried by the task manager, in base64.
pub const DISCLAIMER_TEXT_ENCODED: &'static str = "4p2k77iP5pys6aG555uu5a6M5YWo5YWN6LS55byA5rqQ77yM56aB5q2i5ZWG55So5oiW5pS26LS577yM5byA5Y+R5Zui6Zif5LiN5om/5ouF5Lu75L2V5rOV5b6L6LSj5Lu7";

/// What `base64::decode` (standard alphabet, padded) returns for `input`:
/// the decoded bytes, or `None` for input that is not valid base64.
pub uninterp spec fn base64_standard_decode(input: Seq<u8>) -> Option<Seq<u8>>;

/// Calls `base64::decode`. Trusted: the result is, by name, the standard
/// base64 decoding of the input (`None` where the crate returns an error);
/// what that decoding is, is not stated here.
#[verifier::external_body]
fn base64_decode(input: &[u8]) -> (r: Option<Vec<u8>>)
    ensures
        match r {
            Some(v) => base64_standard_decode(input@) == Some(v@),
            None => base64_standard_decode(input@) is None,
        },
{
    #[allow(deprecated)]
    let decoded = base64::decode(input);
    decoded.ok()
}

/// Calls `String::from_utf8`. Trusted: as documented, it succeeds exactly on
/// valid UTF-8, and then holds the characters that the bytes encode.
#[verifier::external_body]
fn string_from_utf8(bytes: Vec<u8>) -> (r: Option<String>)
    ensures
        r is Some <==> valid_utf8(bytes@),
        r matches Some(s) ==> s@ == decode_utf8(bytes@),
{
    String::from_utf8(bytes).ok()
}

/// Text shown when the notice does not decode to UTF-8.
pub open spec fn notice_fallback_text() -> Seq<char> {
    "本项目免费开源"@
}

/// The notice text for a base64 decoding result: empty when decoding failed,
/// the UTF-8 text of the bytes when they are UTF-8, the fallback otherwise.
pub open spec fn notice_text(decoded: Option<Seq<u8>>) -> Seq<char> {
    match decoded {
        Some(b) => if valid_utf8(b) {
            decode_utf8(b)
        } else {
            notice_fallback_text()
        },
        None => Seq::empty(),
    }
}

/// The notice text for the decoded notice bytes.
pub fn notice_from_decoded(decoded: Option<Vec<u8>>) -> (r: String)
    ensures
        r@ == notice_text(
            match decoded {
                Some(v) => Some(v@),
                None => None,
            },
        ),
{
    match decoded {
        Some(bytes) => match string_from_utf8(bytes) {
            Some(s) => s,
            None => String::from_str("本项目免费开源"),
        },
        None => String::new(),
    }
}

/// The notice the task manager carries, decoded.
#[allow(non_snake_case)]
pub fn TaskManager_debug() -> (r: String)
    ensures
        r@ == notice_text(base64_standard_decode(DISCLAIMER_TEXT_ENCODED.spec_bytes())),
{
    let decoded = base64_decode(DISCLAIMER_TEXT_ENCODED.as_bytes());
    notice_from_decoded(decoded)
}

} // verus!
