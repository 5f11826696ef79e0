//! The camera.

use vstd::prelude::*;

verus! {

/// Where the camera stands, where it looks, and its lens.
#[derive(Clone, Copy, Debug, PartialEq, Eq)]
pub struct CameraState {
    pub position: [i64; 3],
    /// A unit vector. It is stored as given and never renormalized.
    pub direction: [i64; 3],
    pub viewport_height: i64,
    pub focal_length: i64,
}

/// The camera of a fresh tracer: at `(0, -1, 1)`, looking along `(0, 0, 1)`,
/// with a viewport two units high at a focal length of one.
pub open spec fn initial_camera() -> CameraState {
    CameraState {
        position: [0i64, -1000i64, 1000i64],
        direction: [0i64, 0i64, 1000i64],
        viewport_height: 2000,
        focal_length: 1000,
    }
}

/// The number of words that a camera takes in its buffer.
pub const CAMERA_WORDS: usize = 8;

impl CameraState {
    /// The camera as the kernel reads it, word by word: the position, the
    /// height of the viewport, the focal length, then the direction.
    pub open spec fn spec_words(self) -> [i64; 8] {
        [
            self.position[0],
            self.position[1],
            self.position[2],
            self.viewport_height,
            self.focal_length,
            self.direction[0],
            self.direction[1],
            self.direction[2],
        ]
    }

    #[verifier::when_used_as_spec(spec_words)]
    pub fn words(self) -> (words: [i64; 8])
        ensures
            words == self.spec_words(),
    {
        [
            self.position[0],
            self.position[1],
            self.position[2],
            self.viewport_height,
            self.focal_length,
            self.direction[0],
            self.direction[1],
            self.direction[2],
        ]
    }

    /// The camera of a fresh tracer.
    pub fn initial() -> (camera: CameraState)
        ensures
            camera == initial_camera(),
    {
        CameraState {
            position: [0, -1000, 1000],
            direction: [0, 0, 1000],
            viewport_height: 2000,
            focal_length: 1000,
        }
    }
}

} // verus!
