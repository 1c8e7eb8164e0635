//! Board CLI: a client library for the Board paste service, with the
//! state machine of its terminal interface.

pub mod cli;
pub mod client;
pub mod config;
pub mod error;
pub mod text;
pub mod tui;
pub mod types;

pub use cli::{Cli, Commands};
pub use client::{
    BoardClient, BoardClientConfig, DeviceCodeSource, HttpMethod, HttpRequest, HttpResponse,
};
pub use config::AppConfig;
pub use error::{AppError, BoardApiError};
pub use tui::{
    Action, AppMode, AppState, AsyncResult, Key, KeyModifiers, ListState, LoadingState,
    ScrollbarState,
};
pub use types::{ApiError, ApiInfo, DeviceCode, EndpointInfo, Paste, PasteId};
