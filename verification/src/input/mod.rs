pub mod byte_laws;
pub mod key_laws;
pub mod keys;
pub mod name_laws;
