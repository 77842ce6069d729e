//! Verified core of a password-manager browser extension: the wire vocabulary shared by
//! the popup, the content script, the service worker and the native host, and the state
//! machines and routing decisions that those components run.

pub mod commands;
pub mod content;
pub mod json;
pub mod native_host;
pub mod native_message;
pub mod page_inputs;
pub mod popup;
pub mod ports;
pub mod ranking;
pub mod request;
pub mod response;
pub mod router;
pub mod session;
pub mod text;
pub mod types;
pub mod util;
pub mod widgets;
