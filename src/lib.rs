//! Storage-notification automation: unwrapping bus notifications into
//! object-creation events, planning and driving the copy-then-tag backup of
//! each object, and describing transcoding jobs.
pub mod json;
pub mod event;
pub mod backup;
pub mod batch;
pub mod job;
