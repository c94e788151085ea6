pub mod coordinator;
pub mod error;
pub mod inputs;
pub mod lint_fix;
pub mod media;
pub mod stages;
pub mod tag_state;
