//! The maker's side of a swap.

pub mod error;

pub use error::MakerError;
