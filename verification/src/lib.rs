//! Verified core of the VietNote desktop backend: provider and key
//! resolution, AI configuration, voice selection, prompt framing and the
//! evidence rules that meeting summaries must satisfy.

pub mod text;
pub mod evidence;
pub mod summary;
pub mod provider;
pub mod config;
pub mod voice;
pub mod completion;
pub mod capture;
pub mod worker;
pub mod notes;
