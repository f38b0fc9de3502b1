pub mod vault_log;
