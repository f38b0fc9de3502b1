pub mod aead;
pub mod app_state;
pub mod channel;
pub mod creds;
pub mod device;
pub mod device_link;
pub mod keys;
pub mod meta_pass;
pub mod secret;
pub mod shared_secret;
pub mod user;
pub mod vault;
pub mod vault_data;
