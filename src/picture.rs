//! The RGB image handed to the display.

use vstd::prelude::*;
use crate::debayer::{debayer_superpixel, superpixel_channel};

verus! {

/// An RGB8 image: `height` rows of `rowstride` bytes, three per pixel.
#[derive(Debug)]
pub struct Picture {
    width: i32,
    height: i32,
    rowstride: i32,
    data: Vec<u8>,
}

impl Picture {
    pub fn new(width: i32, height: i32, rowstride: i32, data: Vec<u8>) -> (r: Picture)
        ensures
            r.spec_width() == width,
            r.spec_height() == height,
            r.spec_rowstride() == rowstride,
            r.spec_data()@ == data@,
    {
        Picture { width, height, rowstride, data }
    }

    pub fn width(&self) -> (r: i32)
        ensures
            r == self.spec_width(),
    {
        self.width
    }

    pub fn height(&self) -> (r: i32)
        ensures
            r == self.spec_height(),
    {
        self.height
    }

    pub fn rowstride(&self) -> (r: i32)
        ensures
            r == self.spec_rowstride(),
    {
        self.rowstride
    }

    pub fn data(&self) -> (r: &Vec<u8>)
        ensures
            r@ == self.spec_data()@,
    {
        &self.data
    }

    pub closed spec fn spec_width(&self) -> i32 {
        self.width
    }

    pub closed spec fn spec_height(&self) -> i32 {
        self.height
    }

    pub closed spec fn spec_rowstride(&self) -> i32 {
        self.rowstride
    }

    pub closed spec fn spec_data(&self) -> Vec<u8> {
        self.data
    }
}

/// Turns one raw preview frame into the picture to show: the fast demosaic
/// at half the frame's width and height, rows packed at three bytes per
/// pixel. `None` for a frame that is not `width * height` bytes long (the
/// driver hands out empty buffers now and then), or whose picture size does
/// not fit the display's integer type.
pub fn preview_picture(frame: &[u8], width: u32, height: u32) -> (r: Option<Picture>)
    ensures
        match r {
            Some(p) => {
                let out_w = width as int / 2;
                let out_h = height as int / 2;
                &&& frame@.len() == width as int * height as int
                &&& p.spec_width() as int == out_w
                &&& p.spec_height() as int == out_h
                &&& p.spec_rowstride() as int == 3 * out_w
                &&& p.spec_data()@.len() == out_w * out_h * 3
                &&& forall|by: int, bx: int, c: int|
                    0 <= by < out_h && 0 <= bx < out_w && 0 <= c < 3
                        ==> #[trigger] p.spec_data()@[3 * (by * out_w + bx) + c]
                        == superpixel_channel(frame@, width as int, by, bx, c)
            },
            None => frame@.len() != width as int * height as int || 3 * (width as int / 2)
                > i32::MAX || height as int / 2 > i32::MAX,
        },
{
    proof {
        assert(width as int * height as int <= 0xffff_ffff * 0xffff_ffff) by (nonlinear_arith)
            requires
                0 <= width <= 0xffff_ffff,
                0 <= height <= 0xffff_ffff,
        ;
    }
    if frame.len() as u64 != width as u64 * height as u64 {
        return None;
    }
    let out_w = width / 2;
    let out_h = height / 2;
    if out_w > (i32::MAX / 3) as u32 || out_h > i32::MAX as u32 {
        return None;
    }
    let data = debayer_superpixel(frame, width, height);
    Some(Picture::new(out_w as i32, out_h as i32, (3 * out_w) as i32, data))
}

} // verus!
