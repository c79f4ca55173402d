pub mod apply;
pub mod laws;
pub mod messages;
pub mod object;
pub mod orchestrate;
pub mod resolve;
