//! The frame service of a camera driver: it knows the size of the frames that
//! it is handed.

use vstd::prelude::*;

verus! {

/// The number of bytes of one pixel of a frame.
pub const BYTES_PER_PIXEL: usize = 3;

/// A service that takes frames of a fixed width and height.
pub struct Service {
    width: usize,
    height: usize,
}

impl Service {
    /// The width and height of the frames, in pixels.
    pub closed spec fn dimensions(&self) -> (usize, usize) {
        (self.width, self.height)
    }

    /// A service for frames of `width` by `height` pixels.
    pub fn new(width: usize, height: usize) -> (service: Service)
        ensures
            service.dimensions() == (width, height),
    {
        Service { width, height }
    }

    /// The width of the frames, in pixels.
    pub fn width(&self) -> (width: usize)
        ensures
            width == self.dimensions().0,
    {
        self.width
    }

    /// The height of the frames, in pixels.
    pub fn height(&self) -> (height: usize)
        ensures
            height == self.dimensions().1,
    {
        self.height
    }

    /// The number of bytes of one frame, or `None` where that number does not
    /// fit the machine.
    pub fn frame_len(&self) -> (len: Option<usize>)
        ensures
            match len {
                Some(n) => n == self.dimensions().0 * self.dimensions().1 * BYTES_PER_PIXEL,
                None => self.dimensions().0 * self.dimensions().1 * BYTES_PER_PIXEL > usize::MAX,
            },
    {
        match self.width.checked_mul(self.height) {
            Some(pixels) => {
                let len: Option<usize> = pixels.checked_mul(BYTES_PER_PIXEL);
                proof {
                    if len is None {
                        assert(pixels * BYTES_PER_PIXEL > usize::MAX);
                    }
                }
                len
            },
            None => {
                proof {
                    let pixels = self.width * self.height;
                    assert(pixels * 3 >= pixels) by (nonlinear_arith)
                        requires
                            pixels >= 0,
                    ;
                }
                None
            },
        }
    }

    /// Takes one frame. The service keeps no frame and stays as it is.
    pub fn send_frame(&mut self, data: &[u8])
        ensures
            *final(self) == *old(self),
    {
    }
}

} // verus!
