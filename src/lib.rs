//! Interactive console state machine for browsing repositories, branches and
//! workflows, editing workflow-dispatch inputs and triggering runs.
//!
//! The library holds every decision the console makes; the process that
//! talks to the terminal and to the remote tool performs the [`actions::Action`]s
//! that the state machine hands out and reports their outcome back.

pub mod text;
pub mod selection;
pub mod domain;
pub mod editor;
pub mod config;
pub mod dispatch;
pub mod app;
pub mod actions;
pub mod event;
pub mod service;
