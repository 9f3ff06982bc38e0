//! Small helpers for a demonstration program: integer sums and products,
//! and a greeting in one of two styles.

pub mod arithmetic;
pub mod greetings;

pub use arithmetic::{add, multiply};
pub use greetings::{say_hello, Style};
