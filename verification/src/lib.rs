//! A terminal feed reader core: concurrent fetch collection aligned to
//! configuration order, per-feed entry filtering, a two-screen navigation and
//! scroll state machine, and the pipeline that turns an article body into
//! displayed text.

pub mod app;
pub mod config;
pub mod feed;
pub mod fetch;
pub mod guard;
pub mod render;
pub mod scroll;
