use vstd::prelude::*;
use core::time::Duration;
use image::DynamicImage;

verus! {

/// Declares `image::DynamicImage`, the pixel buffer a frame owns; the library
/// moves it and never looks inside.
#[verifier::external_type_specification]
#[verifier::external_body]
pub struct ExDynamicImage(image::DynamicImage);

/// A single frame: a capture timestamp and the image taken at that moment.
pub struct Frame {
    timestamp: Duration,
    image: DynamicImage,
}

impl Frame {
    /// The capture timestamp of this frame.
    pub closed spec fn timestamp(&self) -> Duration {
        self.timestamp
    }

    /// The image payload owned by this frame.
    pub closed spec fn image(&self) -> DynamicImage {
        self.image
    }

    /// The frame made of this timestamp and this image.
    pub closed spec fn from_parts(timestamp: Duration, image: DynamicImage) -> Frame {
        Frame { timestamp, image }
    }

    /// Create a new `Frame`.
    pub fn new(timestamp: Duration, image: DynamicImage) -> (r: Frame)
        ensures
            r == Self::from_parts(timestamp, image),
    {
        Frame { timestamp, image }
    }

    /// Take the image out of this `Frame`. The frame is consumed, so the pixel
    /// data is moved, never copied.
    pub fn to_image(self) -> (r: DynamicImage)
        ensures
            r == self.image(),
    {
        self.image
    }

    /// The capture timestamp of this `Frame`.
    pub fn get_timestamp(&self) -> (r: Duration)
        ensures
            r == self.timestamp(),
    {
        self.timestamp
    }
}

/// Zero-copy transfer: the image taken out of a frame is the very value the
/// frame was made with, and its timestamp is the one it was given. Taking the
/// image out moves the frame, so the frame cannot be used afterwards.
pub proof fn law_image_round_trip(timestamp: Duration, image: DynamicImage)
    ensures
        Frame::from_parts(timestamp, image).image() == image,
        Frame::from_parts(timestamp, image).timestamp() == timestamp,
{
}

} // verus!
