pub mod text;
pub mod numbers;
pub mod track;
pub mod linter;
pub mod processing;
