pub mod arguments;
pub mod checker;
pub mod tester;
