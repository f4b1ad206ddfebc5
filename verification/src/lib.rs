//! Control plane of a desktop data-export application: the loopback
//! authentication gateway and the supervision of helper processes.
//!
//! The library decides and the embedding application acts: sockets, child
//! processes, files and the event bus belong to the application, which hands
//! in what it read and carries out what comes back.

pub mod auth;
pub mod browser;
pub mod callback_state;
pub mod clock;
pub mod config;
pub mod decimal;
pub mod digest;
pub mod download;
pub mod events;
pub mod exports;
pub mod gateway;
pub mod history;
pub mod http;
pub mod json;
pub mod launch;
pub mod platforms;
pub mod proxy;
pub mod response;
pub mod route;
pub mod run_output;
pub mod runs;
pub mod server;
pub mod sidecar;
pub mod sidecar_output;
pub mod text;
pub mod updates;
pub mod webview;
