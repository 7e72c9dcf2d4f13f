//! Verified logic of a phone-automation server.

pub mod action;
pub mod actions;
pub mod apps;
pub mod auth;
pub mod batch;
pub mod capability;
pub mod control;
pub mod device;
pub mod dispatch;
pub mod element;
pub mod errand;
pub mod health;
pub mod ice;
pub mod inbox;
pub mod input;
pub mod intent;
pub mod intents;
pub mod json;
pub mod launchd;
pub mod lease;
pub mod lifecycle;
pub mod locator;
pub mod media;
pub mod mode;
pub mod observe;
pub mod outcome;
pub mod owner;
pub mod percent;
pub mod reply;
pub mod run;
pub mod scan;
pub mod search;
pub mod sending;
pub mod session;
pub mod settle;
pub mod setup;
pub mod socket;
pub mod state;
pub mod status;
pub mod stream;
pub mod tap;
pub mod text;
pub mod tree_read;
pub mod watchdog;
