use vstd::prelude::*;

verus! {

/// A decoded video frame in straight-alpha RGBA, four bytes per pixel, rows
/// top to bottom.
pub struct Frame {
    width: usize,
    height: usize,
    rgba: Vec<u8>,
}

impl Frame {
    /// The frame's byte count matches its size.
    pub closed spec fn wf(&self) -> bool {
        self.rgba@.len() == 4 * self.width * self.height
    }

    pub closed spec fn spec_width(&self) -> nat {
        self.width as nat
    }

    pub closed spec fn spec_height(&self) -> nat {
        self.height as nat
    }

    pub closed spec fn pixels(&self) -> Seq<u8> {
        self.rgba@
    }

    /// A frame of `width` by `height` pixels from `rgba`, or `None` when the
    /// buffer does not hold exactly four bytes per pixel.
    pub fn from_rgba(width: usize, height: usize, rgba: Vec<u8>) -> (r: Option<Frame>)
        ensures
            r is Some <==> rgba@.len() == 4 * width * height,
            r is Some ==> r->0.wf() && r->0.spec_width() == width && r->0.spec_height() == height
                && r->0.pixels() == rgba@,
    {
        let n = rgba.len();
        match width.checked_mul(height) {
            Some(area) => match area.checked_mul(4) {
                Some(bytes) => {
                    if bytes == n {
                        proof {
                            assert(4 * width * height == area * 4) by (nonlinear_arith)
                                requires area == width * height;
                        }
                        Some(Frame { width, height, rgba })
                    } else {
                        proof {
                            assert(4 * width * height == area * 4) by (nonlinear_arith)
                                requires area == width * height;
                        }
                        None
                    }
                },
                None => {
                    proof {
                        assert(4 * width * height == area * 4) by (nonlinear_arith)
                            requires area == width * height;
                    }
                    None
                },
            },
            None => {
                proof {
                    assert(4 * width * height >= width * height) by (nonlinear_arith);
                }
                None
            },
        }
    }

    pub fn width(&self) -> (r: usize)
        ensures
            r == self.spec_width(),
    {
        self.width
    }

    pub fn height(&self) -> (r: usize)
        ensures
            r == self.spec_height(),
    {
        self.height
    }

    /// The pixel bytes.
    pub fn rgba(&self) -> (r: &Vec<u8>)
        ensures
            r@ == self.pixels(),
    {
        &self.rgba
    }

    /// The size and the pixel bytes, taken apart.
    pub fn into_parts(self) -> (r: (usize, usize, Vec<u8>))
        ensures
            r.0 == self.spec_width(),
            r.1 == self.spec_height(),
            r.2@ == self.pixels(),
    {
        (self.width, self.height, self.rgba)
    }
}

} // verus!
