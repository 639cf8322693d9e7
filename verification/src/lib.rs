//! Session, pane and layout management for a terminal serial-port monitor.
//!
//! The crate holds the logic of the monitor and nothing that touches the
//! terminal, the serial port or the disk:
//!
//! - [`session`]: sessions and the ordered store that owns them;
//! - [`layout`]: layout modes, their panes, and the pane registry;
//! - [`tabs`]: the controller that keeps store and registry in step;
//! - [`state`], [`input`], [`mouse`]: the state of the single-session
//!   monitor and what keys and the mouse do to it;
//! - [`types`], [`config`], [`notification`], [`log`], [`buffer`],
//!   [`selection`]: the values that sessions are made of;
//! - [`menu_def`], [`i18n`], [`areas`]: the menu bar, its texts, and the
//!   rectangles of the widgets;
//! - [`codec`], [`text`]: bytes as text and back.

pub mod areas;
pub mod buffer;
pub mod codec;
pub mod config;
pub mod i18n;
pub mod input;
pub mod layout;
pub mod log;
pub mod menu_def;
pub mod mouse;
pub mod notification;
pub mod selection;
pub mod session;
pub mod state;
pub mod tabs;
pub mod text;
pub mod types;
