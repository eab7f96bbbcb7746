//! Verified core of an exam-proctoring service: event models, behaviour
//! metrics, suspicion rules and the request handling decisions around them.

pub mod time;
pub mod text;
pub mod models;
pub mod config;
pub mod patterns;
pub mod metrics;
pub mod rules;
pub mod detection;
pub mod api;
pub mod leaderboard;
