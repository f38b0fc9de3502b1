pub mod descriptors;
pub mod events;
pub mod generic_db;
pub mod object_id;
pub mod objects;
pub mod store;
