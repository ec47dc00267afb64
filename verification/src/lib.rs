//! Verified core of an automation bot for a DMM browser game.
//!
//! The library holds the decisions of the bot: configuration checks, the
//! ten-step cycle plan, template search with a stability check and a
//! coordinate cache, the premium-currency guard, click planning and the
//! daily cutoff arithmetic. Screen capture, input injection, window lookup
//! and file loading live in the program around it.
pub mod ieee;
pub mod domain;
pub mod text;
pub mod error;
pub mod config;
pub mod vision;
pub mod bot;
pub mod platform;
pub mod cli;
