//! The tools that serve terminals: what each makes of its arguments, and what it
//! answers and records once the terminal has done its part.
pub mod batch_laws;
pub mod keys;
pub mod outcome;
pub mod tool_laws;
pub mod tools;
pub mod viewer;
pub mod viewer_laws;
