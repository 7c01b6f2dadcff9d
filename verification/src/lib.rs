//! FancyMount: the verified core of a terminal mount manager.

pub mod app;
pub mod clipboard;
pub mod display;
pub mod keys;
pub mod laws;
pub mod layout;
pub mod mount_info;
pub mod model;
pub mod mount_ops;
pub mod text;
