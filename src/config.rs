use vstd::prelude::*;

verus! {

/// Where the token store answers when nothing else is configured.
pub const DEFAULT_TOKEN_STORE_URL: &'static str = "http://127.0.0.1:8080/";

/// Where the QR code image goes when nothing else is configured.
pub const DEFAULT_QRCODE_PATH: &'static str = "./qrcode.png";

/// The settings a client is built with.
#[derive(Debug)]
pub struct ClientConfig {
    pub token_store_url: String,
    pub qrcode_output_path: String,
}

pub open spec fn or_default(v: Option<String>, d: Seq<char>) -> Seq<char> {
    match v {
        Some(s) => s@,
        None => d,
    }
}

impl ClientConfig {
    /// Takes each given setting, and the default for each one left out.
    pub fn resolve(token_store_url: Option<String>, qrcode_output_path: Option<String>) -> (r:
        ClientConfig)
        ensures
            r.token_store_url@ == or_default(token_store_url, DEFAULT_TOKEN_STORE_URL@),
            r.qrcode_output_path@ == or_default(qrcode_output_path, DEFAULT_QRCODE_PATH@),
    {
        let token_store_url = match token_store_url {
            Some(u) => u,
            None => String::from_str(DEFAULT_TOKEN_STORE_URL),
        };
        let qrcode_output_path = match qrcode_output_path {
            Some(p) => p,
            None => String::from_str(DEFAULT_QRCODE_PATH),
        };
        ClientConfig { token_store_url, qrcode_output_path }
    }
}

} // verus!
