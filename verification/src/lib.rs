//! Durable and observable records of an agent SDK: events, journals, effects,
//! context, output, and feature evidence, with their validation rules.
pub mod approval;
pub mod content;
pub mod context;
pub mod domain;
pub mod effect;
pub mod event;
pub mod extension;
pub mod hashing;
pub mod hooks;
pub mod isolation;
pub mod journal;
pub mod output;
pub mod output_delivery;
pub mod package;
pub mod policy;
pub mod realtime;
pub mod stream;
pub mod structured_output;
pub mod subagent;
pub mod telemetry;
pub mod text;
pub mod tool;
pub mod tool_pack;
pub mod validated_output;
