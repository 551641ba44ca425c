//! Facts read from the local clone of a repository.

pub mod branches;
pub mod history;
pub mod hygiene;
