pub mod club;
