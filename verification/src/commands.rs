//! Records exchanged with the UI command layer.
//!
//! The command handlers themselves — config persistence, IDE config
//! injection, billing and signup checks, license validation — are thin,
//! stateless request/response wrappers around I/O and live outside the
//! crate. The records they exchange are defined here, with the few
//! defaults the handlers rely on.

use vstd::prelude::*;
use vstd::string::StringExecFns;

verus! {

/// Audio and voice API keys persisted in the application's config file.
/// Field names mirror the environment variables the engine reads.
pub struct VocoApiKeys {
    pub deepgram_api_key: String,
    pub cartesia_api_key: String,
    pub github_token: String,
    pub tts_voice: String,
    pub google_api_key: String,
}

impl Default for VocoApiKeys {
    /// Every key empty: what a load returns before anything was saved.
    fn default() -> (k: Self)
        ensures
            k.deepgram_api_key@.len() == 0,
            k.cartesia_api_key@.len() == 0,
            k.github_token@.len() == 0,
            k.tts_voice@.len() == 0,
            k.google_api_key@.len() == 0,
    {
        VocoApiKeys {
            deepgram_api_key: String::new(),
            cartesia_api_key: String::new(),
            github_token: String::new(),
            tts_voice: String::new(),
            google_api_key: String::new(),
        }
    }
}

/// Per-IDE outcome of injecting the local MCP server entry.
pub struct IdeSyncResult {
    pub ide: String,
    pub success: bool,
    pub message: String,
    pub path: String,
}

/// What a checkout-session creation hands back to the UI.
pub struct CheckoutResponse {
    pub url: String,
    pub session_id: String,
}

/// Whether the client's address may create another free account.
pub struct IpCheckResponse {
    pub allowed: bool,
    pub message: String,
}

/// Outcome of validating a license key.
pub struct LicenseResult {
    pub valid: bool,
    pub tier: String,
    pub expiry: Option<String>,
}

impl LicenseResult {
    /// The result handed back without asking anyone, when no licensing
    /// account is configured: not valid, on the listener tier.
    pub fn fallback() -> (r: Self)
        ensures
            !r.valid,
            r.tier@ == "listener"@,
            r.expiry is None,
    {
        LicenseResult { valid: false, tier: String::from_str("listener"), expiry: None }
    }
}

} // verus!
