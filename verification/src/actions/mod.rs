pub mod orchestration;
pub mod recovery;
pub mod redistribution;
pub mod vault_actions;
