pub mod api_url;
pub mod environment;
pub mod ss_sync;
pub mod vault_sync;
pub mod ws_url;
