pub mod engine;
pub mod laws;
pub mod lint_target;
pub mod pattern;
pub mod result;
pub mod rule;
pub mod rule_laws;
pub mod rules;
pub mod text_field;
pub mod violation;
