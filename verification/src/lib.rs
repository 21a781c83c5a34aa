pub mod cli;
pub mod command;
pub mod input;
pub mod json;
pub mod json_laws;
pub mod mcp;
pub mod terminal;
pub mod text;
pub mod text_laws;
pub mod view_laws;
