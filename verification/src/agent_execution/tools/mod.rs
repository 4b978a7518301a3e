//! Opaque tool input preserves the provider arguments shown during review.
mod review_input;
pub use review_input::{input_bytes, ToolReviewInput};
