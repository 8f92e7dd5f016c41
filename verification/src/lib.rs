//! A plugin runtime's decision logic: the event model, the shared registry,
//! the bus matching rule, the plugin lifecycle and the HTTP bridge, each as
//! plain data and total functions with machine-checked contracts.

pub mod bridge;
pub mod bus;
pub mod cbor;
pub mod config;
pub mod database;
pub mod error;
pub mod event;
pub mod http;
pub mod json;
pub mod lifecycle;
pub mod manager;
pub mod registry;
pub mod metadata;
pub mod numeral;
pub mod plugins;
pub mod preferences;
pub mod router;
pub mod server;
pub mod status;
pub mod string_map;
pub mod text;
pub mod wasm_guest;
pub mod wasm_host;
