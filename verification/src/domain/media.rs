//! Image media types accepted as user input.
use vstd::prelude::*;

verus! {

/// Media type of an image reference.
#[derive(Clone, Copy, Debug, PartialEq, Eq, Structural)]
pub enum ImageMediaType {
    /// `image/png`.
    Png,
    /// `image/jpeg`.
    Jpeg,
    /// `image/gif`.
    Gif,
    /// `image/webp`.
    Webp,
}

/// The registered media type name of each image type.
pub open spec fn media_type_name(t: ImageMediaType) -> Seq<char> {
    match t {
        ImageMediaType::Png => "image/png"@,
        ImageMediaType::Jpeg => "image/jpeg"@,
        ImageMediaType::Gif => "image/gif"@,
        ImageMediaType::Webp => "image/webp"@,
    }
}

impl ImageMediaType {
    /// The registered media type name.
    pub fn as_str(&self) -> (r: &'static str)
        ensures
            r@ == media_type_name(*self),
    {
        match self {
            ImageMediaType::Png => "image/png",
            ImageMediaType::Jpeg => "image/jpeg",
            ImageMediaType::Gif => "image/gif",
            ImageMediaType::Webp => "image/webp",
        }
    }
}

} // verus!
