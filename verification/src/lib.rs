//! Notifications about new videos of followed channels.
//!
//! An account follows channels and holds notifiers. A poll cycle asks for
//! the feed of each channel, keeps the videos published after the last
//! run, announces them through each notifier, and then moves the marker
//! of the last run. Nothing here touches the network, the disk or the
//! terminal: the library says what is to be asked, written and stored,
//! and takes in what came of it.
//!
//! - [`timestamp`], [`text`], [`json`], [`model`]: instants, texts and
//!   JSON documents, and helpers for the contracts.
//! - [`channel`], [`video`], [`feed`]: channels and their addresses,
//!   videos, and the reading of a feed.
//! - [`notifier`]: where notifications go and what is sent there.
//! - [`schedule`], [`poll`], [`poll_laws`]: the hours in which an account
//!   is polled, the poll cycle, and what holds of every cycle.
//! - [`user_settings`], [`cli`], [`remote`]: an account's settings and
//!   what the commands of the command line decide.
//! - [`store`], [`users`], [`account`], [`lookup`], [`web`]: the service
//!   that keeps remote accounts and resolves handles.

pub mod account;
pub mod channel;
pub mod cli;
pub mod feed;
pub mod json;
pub mod lookup;
pub mod model;
pub mod notifier;
pub mod poll;
pub mod poll_laws;
pub mod remote;
pub mod schedule;
pub mod store;
pub mod text;
pub mod timestamp;
pub mod user_settings;
pub mod users;
pub mod video;
pub mod web;

pub use channel::Channel;
pub use notifier::{Notifier, SlackConfig};
pub use timestamp::Timestamp;
pub use user_settings::UserSettings;
pub use users::User;
pub use video::Video;
