pub mod greeting;
pub mod launcher;
