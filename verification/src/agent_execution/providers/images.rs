use crate::domain::media::ImageMediaType;
use vstd::prelude::*;

verus! {

/// Why the bytes an image reference names could not be supplied.
#[derive(Clone, Copy, Debug, PartialEq, Eq, Structural)]
pub enum UserImageError {
    /// The referenced image is not stored.
    Missing,
    /// The image store is unavailable.
    Unavailable,
    /// The stored image does not match its reference.
    Mismatch,
}

/// Why image input was refused before dispatch.
#[derive(Clone, Copy, Debug, PartialEq, Eq, Structural)]
pub enum ImageInputRefusal {
    /// The connected agent does not accept images.
    AgentDoesNotAccept,
    /// The model does not offer image input.
    NotOffered,
    /// The model does not accept this media type.
    MediaType(ImageMediaType),
    /// The image exceeds the model's size limit.
    ImageTooLarge {
        /// Encoded size.
        size: u64,
        /// Largest accepted size.
        max_bytes: u64,
    },
}

} // verus!
