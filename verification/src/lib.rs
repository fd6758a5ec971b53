//! Aggregate keystroke session recording: the collector's counting rules,
//! session lifecycle, report assembly and the asset/route helpers of the
//! local report server.

pub mod api;
pub mod assets;
pub mod cli;
pub mod collector;
pub mod model;
pub mod report;
pub mod rows;
pub mod session;
pub mod table;
pub mod text;
pub mod web;
