//! The hex view: selection and pending edits.

pub mod edit;
pub mod selection;
