//! The data carried by pages and the decisions their handlers make,
//! separated from rendering and storage.

pub mod admin;
pub mod entries;
pub mod home;
pub mod index;
pub mod login;
pub mod logout;
pub mod settings;
