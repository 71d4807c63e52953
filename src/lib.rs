pub mod catalog;
pub mod context_service;
pub mod entity;
pub mod entity_type;
pub mod kind;
pub mod naming;
pub mod policy;
mod random;
pub mod terrain;
pub mod world;
pub mod mount;
mod mounts_table;
