pub mod data;
pub mod digits;
pub mod latch;
pub mod handlers;
pub mod prompt;
pub mod parse;
pub mod serial;
pub mod text;
