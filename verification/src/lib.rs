//! The reactive core of a watch-history client: a reducer that turns messages
//! into a new state and an ordered plan of effect requests, and the token
//! lifecycle that keeps an OAuth credential valid.

pub mod app;
pub mod config;
pub mod film;
pub mod github;
pub mod http;
pub mod key_value;
pub mod logging;
pub mod markdown;
pub mod oauth;
pub mod redirect;
pub mod services;
pub mod text;
pub mod time;
pub mod tokens;

pub use app::{App, Continuation, Effect, Event, Model, Request, UserInfo, ViewModel};
pub use film::{MonthOfYear, Rating, WatchedFilm};
pub use logging::{LogEntry, LogLevel, Logger};
pub use services::Services;
