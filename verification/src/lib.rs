//! The verified core of a bridge between an auto splitter runtime and the
//! LiveSplit One timer.
//!
//! An auto splitter is a WebAssembly module that watches a game and controls a
//! timer. The bridge runs one for every websocket connection that LiveSplit One
//! opens: what the auto splitter asks of the timer is sent over the websocket
//! as commands, and what LiveSplit One answers tells the auto splitter the
//! state of the timer.
//!
//! - [`command`]: the commands and their text on the wire;
//! - [`response`]: what the timer answers and reports;
//! - [`shared`]: the state that the threads of a connection share;
//! - [`websocket`]: the thread that serves the websocket;
//! - [`trace`]: what holds of whole runs of that thread;
//! - [`timer`]: the timer that the auto splitter controls;
//! - [`settings`]: settings for the auto splitter;
//! - [`splitter`]: the thread that runs the auto splitter;
//! - [`decimal`]: decimal text of integers;
//! - [`laws`]: what holds of calls of all of these.
//!
//! The threads are state machines: a step takes in what came of the last action
//! and says what to do next. Files, sockets, clocks and the runtime itself are
//! the caller's.

pub mod command;
pub mod decimal;
pub mod laws;
pub mod response;
pub mod settings;
pub mod shared;
pub mod splitter;
pub mod timer;
pub mod trace;
pub mod websocket;

pub use command::{GameTime, WsCommand};
pub use response::{CommandError, CommandResult, Event, EventError, Response, State, TimerState};
pub use settings::{SettingValue, SettingsError, SettingsMap, TomlValue};
pub use shared::SharedState;
pub use splitter::{SplitterSetup, SplitterThread};
pub use timer::WebsocketTimer;
pub use websocket::WsThread;
