//! The WebSocket URL of the server, built from the HTTP API base.
use vstd::prelude::*;
use crate::text::{concat3, starts_with, trim_end_char, trim_end_matches, trim_start_char, trim_start_matches};

verus! {

/// `s` begins with `prefix`.
pub open spec fn has_prefix(s: Seq<char>, prefix: Seq<char>) -> bool {
    prefix.len() <= s.len() && s.take(prefix.len() as int) == prefix
}

/// `http(s)://host:port` becomes `ws(s)://host:port/meta_ws`; a bare host gets `ws://`.
/// Slashes at the end of the base are dropped first.
pub open spec fn ws_url_of(api_base: Seq<char>) -> Seq<char> {
    let trimmed = trim_end_char(api_base, '/');
    if has_prefix(trimmed, "https://"@) {
        "wss://"@ + trimmed.skip("https://"@.len() as int) + "/meta_ws"@
    } else if has_prefix(trimmed, "http://"@) {
        "ws://"@ + trimmed.skip("http://"@.len() as int) + "/meta_ws"@
    } else {
        "ws://"@ + trim_start_char(trimmed, '/') + "/meta_ws"@
    }
}

/// Converts `http(s)://host:port` to `ws(s)://host:port/meta_ws`.
pub fn meta_ws_url_from_http_api_base(api_base: &str) -> (r: String)
    ensures
        r@ == ws_url_of(api_base@),
{
    let trimmed = trim_end_matches(api_base, '/');
    if starts_with(trimmed, "https://") {
        let rest = trimmed.substring_char("https://".unicode_len(), trimmed.unicode_len());
        concat3("wss://", rest, "/meta_ws")
    } else if starts_with(trimmed, "http://") {
        let rest = trimmed.substring_char("http://".unicode_len(), trimmed.unicode_len());
        concat3("ws://", rest, "/meta_ws")
    } else {
        let host = trim_start_matches(trimmed, '/');
        concat3("ws://", host, "/meta_ws")
    }
}

} // verus!
