//! Verified core of the gst-pop pipeline daemon and its gpop-web transcoding front end.

pub mod api;
pub mod cli;
pub mod client;
pub mod commands;
pub mod config;
pub mod discoverer;
pub mod error;
pub mod gpop;
pub mod job_manager;
pub mod job_pipeline;
pub mod job_types;
pub mod paths;
pub mod pipeline_rules;
pub mod playback;
pub mod progress;
pub mod registry;
pub mod table;
pub mod text;
pub mod websocket;
