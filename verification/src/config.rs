//! User settings that the library reads.
use vstd::prelude::*;

verus! {

/// The user's custom settings, as far as ticket sessions read them.
#[derive(Debug)]
pub struct CustomConfig {
    /// User agent chosen by the user; empty when none is set.
    pub custom_ua: String,
    /// The captcha-solving method chosen by the user.
    pub captcha_mode: usize,
}

impl Clone for CustomConfig {
    fn clone(&self) -> (r: Self)
        ensures
            r.custom_ua@ == self.custom_ua@,
            r.captcha_mode == self.captcha_mode,
    {
        CustomConfig { custom_ua: self.custom_ua.clone(), captcha_mode: self.captcha_mode }
    }
}

/// Push-notification settings, carried in their JSON form.
pub type PushConfig = serde_json::Value;

/// An order-list response, carried in its JSON form.
pub type OrderResponse = serde_json::Value;

} // verus!
