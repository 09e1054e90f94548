pub mod args;
pub mod matcher;
