//! The logic of a desktop controller for a home internet gateway.
//!
//! The library holds the decisions: what is polled and when, how an expired
//! login is renewed, how gateway answers become table rows, how the Wi-Fi form
//! is read back, and what a log line looks like. Sockets, files, clocks and
//! widgets stay with the program around it, which hands plain values in and
//! takes plain values back.
//!
//! The modules whose names end in `_laws` hold no code that runs: they state and
//! prove what the others promise.

pub mod actor;
pub mod app;
pub mod app_laws;
pub mod auth;
pub mod auth_laws;
pub mod events;
pub mod gateway;
pub mod gateway_laws;
pub mod graph_laws;
pub mod history;
pub mod json;
pub mod logging;
pub mod logging_laws;
pub mod login;
pub mod lookup_laws;
pub mod models;
pub mod news_laws;
pub mod qr;
pub mod qr_laws;
pub mod row_laws;
pub mod rows;
pub mod schedule_laws;
pub mod screen;
pub mod settings;
pub mod signal_laws;
pub mod snapshot;
pub mod source;
pub mod text;
pub mod text_laws;
pub mod time;
pub mod wifi;
pub mod wifi_laws;
