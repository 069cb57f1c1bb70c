//! Verified core of a Discord whitelist bot.
//!
//! The heart of it is the request quota that guards the upstream identity
//! API: a fixed window with a budget ([`ratelimiter`]), the laws that hold
//! of it over any sequence of requests ([`history`]), and the window behind
//! a lock, shared by all callers ([`gate`]). Around it stand the rules by
//! which the bot links accounts ([`commands`], [`mclink`], [`mcunlink`]),
//! reacts to members who come and go ([`events`]) and serves its HTTP
//! clients ([`routes`], [`oauth`]), the texts it reads ([`mention`],
//! [`uuid_text`], [`text`], [`steam`]) and the plain records it works with
//! ([`config`], [`models`], [`mojang`]).
//!
//! Nothing here talks to Discord, to a database or to the network. A
//! caller does that and hands over what came back.

pub mod clock;
pub mod commands;
pub mod config;
pub mod constants;
pub mod events;
pub mod gate;
pub mod history;
pub mod mclink;
pub mod mcunlink;
pub mod mention;
pub mod models;
pub mod mojang;
pub mod oauth;
pub mod ratelimiter;
pub mod routes;
pub mod steam;
pub mod text;
pub mod uuid_text;
