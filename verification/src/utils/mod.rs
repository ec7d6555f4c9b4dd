pub mod bounded_message;
pub mod text;
pub mod clock;
pub mod logging;
