//! The community fund: the allowances it grants out of the tokens it
//! manages.
pub mod states;
