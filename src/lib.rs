//! A personal audio-playback daemon: the playback engine's decisions, the
//! remote protocol's framing, authorization and dispatch, and the data they
//! move around, each with its contract.
pub mod format;
pub mod text;
pub mod commands;
pub mod song;
pub mod player_state;
pub mod player;
pub mod auth;
pub mod conf;
pub mod response;
pub mod request;
pub mod dispatch;
pub mod remote;
pub mod downloader;
