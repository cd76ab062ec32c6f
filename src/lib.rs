pub mod error;
pub mod classify;
pub mod job_tags;
pub mod vacancy;
pub mod may_index;
pub mod moderation;
pub mod search_index;
pub mod candidate;
