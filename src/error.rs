//! Errors raised while assembling a binary image.

mod binary_error;
pub use binary_error::BinaryError;
mod binary_error_type;
pub use binary_error_type::BinaryErrorType;
