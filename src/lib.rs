//! Decision logic for a redirect-driven web login: page scanners, form
//! encoding, account selection and the login state machine.

pub mod chars;
pub mod pattern;
pub mod page;
pub mod accounts;
pub mod form;
pub mod target;
pub mod flow;
pub mod laws;
