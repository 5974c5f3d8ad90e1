//! Grant application bookkeeping: forms, grant processes and their
//! state machine, quota checks and the helpers around them.

pub mod text;
pub mod outside;
pub mod model;
pub mod forms;
pub mod grant;
pub mod title;
pub mod auth;
pub mod quota;
pub mod related;
pub mod mail_config;
pub mod pages;
pub mod laws;
pub mod form_laws;
