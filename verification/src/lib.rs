//! Gatekeeping core of a remote power-control bot: who may act, how often,
//! which action a button press selects, what is sent to which host, and
//! what the caller is shown afterwards.
//!
//! Nothing here touches the network or the chat platform. The program around
//! this library carries out what it decides and hands back what happened.

pub mod text;

pub mod number;

pub mod mac;

pub mod config;

pub mod debounce;

pub mod outcome;

pub mod keyboard;

pub mod dispatch;

pub mod session;

pub mod executor;
