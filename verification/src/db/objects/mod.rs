pub mod persistent_vault;
pub mod persistent_device_log;
pub mod persistent_shared_secret;
