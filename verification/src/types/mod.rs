//! The domain types, one module per area.

pub mod time;
pub mod ids;
pub mod output;
pub mod media;
pub mod job;
pub mod policy;
pub mod failure_kind;
pub mod settings;
pub mod tools;
pub mod failure_facts;
pub mod state;
pub mod analysis;
pub mod analysis_status;
pub mod reducer;
pub mod observation;
pub mod projection;
pub mod journal;
pub mod estimation;
