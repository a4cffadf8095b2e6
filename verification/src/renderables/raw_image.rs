//! An image given as raw pixels, and the conversion of YUYV 4:2:2 camera
//! frames to RGB.
use vstd::prelude::*;
use crate::types::{Pos, Scale};
use crate::renderables::types::{CanvasOp, CompositeOperation, Corners, Paint};

verus! {

#[derive(Clone, Debug)]
pub struct Instance {
    pub pos: Pos,
    pub scale: Scale,
    pub composite_operation: CompositeOperation,
    pub radius: i64,
    pub height: usize,
    pub width: usize,
    /// The pixels, four bytes each: red, green, blue, alpha.
    pub img_buffer: Option<Vec<u8>>,
}

/// The mathematical value of an `Instance`.
pub struct InstanceModel {
    pub pos: Pos,
    pub scale: Scale,
    pub composite_operation: CompositeOperation,
    pub radius: i64,
    pub height: usize,
    pub width: usize,
    pub img_buffer: Option<Seq<u8>>,
}

impl View for Instance {
    type V = InstanceModel;

    open spec fn view(&self) -> InstanceModel {
        InstanceModel {
            pos: self.pos,
            scale: self.scale,
            composite_operation: self.composite_operation,
            radius: self.radius,
            height: self.height,
            width: self.width,
            img_buffer: match self.img_buffer {
                Some(b) => Some(b@),
                None => None,
            },
        }
    }
}

impl Instance {
    /// Whether there is anything to draw.
    pub open spec fn has_pixels(self) -> bool {
        self.img_buffer matches Some(b) && b@.len() > 0
    }

    /// The blend mode is always set.  With pixels to draw, the image is then
    /// created, a rounded rectangle is filled with it, and the blend mode is
    /// put back; without, nothing more happens.
    pub open spec fn ops(self) -> Seq<CanvasOp> {
        if self.has_pixels() {
            seq![
                CanvasOp::SetCompositeOperation(self.composite_operation),
                CanvasOp::CreateImage { width: self.width, height: self.height },
                CanvasOp::FillRoundedRect {
                    x: self.pos.x,
                    y: self.pos.y,
                    width: self.scale.width,
                    height: self.scale.height,
                    radius: Corners {
                        top_left: self.radius,
                        top_right: self.radius,
                        bottom_right: self.radius,
                        bottom_left: self.radius,
                    },
                    paint: Paint::Created,
                },
                CanvasOp::SetCompositeOperation(CompositeOperation::SourceOver),
            ]
        } else {
            seq![CanvasOp::SetCompositeOperation(self.composite_operation)]
        }
    }
}

#[derive(Clone, Debug)]
pub struct RawImage {
    pub instance_data: Instance,
}

impl RawImage {
    pub fn new(pos: Pos, scale: Scale) -> (r: RawImage)
        ensures
            r.instance_data.pos == pos,
            r.instance_data.scale == scale,
            r.instance_data.composite_operation == CompositeOperation::SourceOver,
            r.instance_data.radius == 0,
            r.instance_data.height == 0,
            r.instance_data.width == 0,
            r.instance_data.img_buffer is None,
    {
        RawImage {
            instance_data: Instance {
                pos,
                scale,
                composite_operation: CompositeOperation::SourceOver,
                radius: 0,
                height: 0,
                width: 0,
                img_buffer: None,
            },
        }
    }

    pub fn composite_operation(self, co: CompositeOperation) -> (r: RawImage)
        ensures
            r.instance_data == (Instance { composite_operation: co, ..self.instance_data }),
    {
        let mut r = self;
        r.instance_data.composite_operation = co;
        r
    }

    pub fn from_instance_data(instance_data: Instance) -> (r: RawImage)
        ensures
            r.instance_data == instance_data,
    {
        RawImage { instance_data }
    }

    /// The instructions that draw this image, in order.
    pub fn render(&self) -> (out: Vec<CanvasOp>)
        ensures
            out@ == self.instance_data.ops(),
    {
        let d = &self.instance_data;
        let mut out: Vec<CanvasOp> = Vec::new();
        out.push(CanvasOp::SetCompositeOperation(d.composite_operation));
        let drawn = match &d.img_buffer {
            Some(b) => b.len() > 0,
            None => false,
        };
        if drawn {
            out.push(CanvasOp::CreateImage { width: d.width, height: d.height });
            out.push(
                CanvasOp::FillRoundedRect {
                    x: d.pos.x,
                    y: d.pos.y,
                    width: d.scale.width,
                    height: d.scale.height,
                    radius: Corners::all(d.radius),
                    paint: Paint::Created,
                },
            );
            out.push(CanvasOp::SetCompositeOperation(CompositeOperation::SourceOver));
        }
        assert(out@ =~= d.ops());
        out
    }
}

/// The quotient of `n` by `2^24`, rounded towards zero, limited to `0 ..= 255`.
pub open spec fn channel(n: int) -> u8 {
    if n < 0 {
        0
    } else if n / 16777216 > 255 {
        255
    } else {
        (n / 16777216) as u8
    }
}

/// Red: `y + 1.370705 (v - 128)`, in 24-bit fixed point.
pub open spec fn red(y: u8, v: u8) -> u8 {
    channel(y * 16777216 + 22996614 * (v - 128))
}

/// Green: `y - 0.698001 (v - 128) - 0.337633 (u - 128)`, in 24-bit fixed point.
pub open spec fn green(y: u8, u: u8, v: u8) -> u8 {
    channel(y * 16777216 - 11710514 * (v - 128) - 5664542 * (u - 128))
}

/// Blue: `y + 1.732446 (u - 128)`, in 24-bit fixed point.
pub open spec fn blue(y: u8, u: u8) -> u8 {
    channel(y * 16777216 + 29065620 * (u - 128))
}

/// The two pixels that the four bytes `y0 u y1 v` stand for, three bytes
/// each, or four with an opaque alpha channel.
pub open spec fn pixel_pair(y0: u8, u: u8, y1: u8, v: u8, rgba: bool) -> Seq<u8> {
    if rgba {
        seq![
            red(y0, v),
            green(y0, u, v),
            blue(y0, u),
            255u8,
            red(y1, v),
            green(y1, u, v),
            blue(y1, u),
            255u8,
        ]
    } else {
        seq![red(y0, v), green(y0, u, v), blue(y0, u), red(y1, v), green(y1, u, v), blue(y1, u)]
    }
}

/// The pixels of the first `n` groups of four bytes of `data`.
pub open spec fn pixels(data: Seq<u8>, n: nat, rgba: bool) -> Seq<u8>
    decreases n,
{
    if n == 0 || data.len() < 4 * n {
        Seq::empty()
    } else {
        let k = 4 * (n - 1);
        pixels(data, (n - 1) as nat, rgba) + pixel_pair(
            data[k],
            data[k + 1],
            data[k + 2],
            data[k + 3],
            rgba,
        )
    }
}

/// The number of bytes that two pixels take.
pub open spec fn pair_len(rgba: bool) -> nat {
    if rgba {
        8
    } else {
        6
    }
}

/// The RGB image of a YUYV frame: every complete group of four bytes gives
/// two pixels; an incomplete group at the end is ignored.
pub open spec fn rgb_of_yuyv(data: Seq<u8>, rgba: bool) -> Seq<u8> {
    pixels(data, data.len() / 4, rgba)
}

pub proof fn lemma_pixels_len(data: Seq<u8>, n: nat, rgba: bool)
    requires
        4 * n <= data.len(),
    ensures
        pixels(data, n, rgba).len() == n * pair_len(rgba),
    decreases n,
{
    if n > 0 {
        lemma_pixels_len(data, (n - 1) as nat, rgba);
        assert(n * pair_len(rgba) == (n - 1) * pair_len(rgba) + pair_len(rgba))
            by (nonlinear_arith);
    }
}

fn to_channel(n: i64) -> (r: u8)
    ensures
        r == channel(n as int),
{
    if n < 0 {
        0
    } else {
        let q = n / 16777216;
        if q > 255 {
            255
        } else {
            q as u8
        }
    }
}

fn red_of(y: u8, v: u8) -> (r: u8)
    ensures
        r == red(y, v),
{
    to_channel(y as i64 * 16777216 + 22996614 * (v as i64 - 128))
}

fn green_of(y: u8, u: u8, v: u8) -> (r: u8)
    ensures
        r == green(y, u, v),
{
    to_channel(y as i64 * 16777216 - 11710514 * (v as i64 - 128) - 5664542 * (u as i64 - 128))
}

fn blue_of(y: u8, u: u8) -> (r: u8)
    ensures
        r == blue(y, u),
{
    to_channel(y as i64 * 16777216 + 29065620 * (u as i64 - 128))
}

fn push_pair(out: &mut Vec<u8>, y0: u8, u: u8, y1: u8, v: u8, rgba: bool)
    ensures
        final(out)@ == old(out)@ + pixel_pair(y0, u, y1, v, rgba),
{
    out.push(red_of(y0, v));
    out.push(green_of(y0, u, v));
    out.push(blue_of(y0, u));
    if rgba {
        out.push(255);
    }
    out.push(red_of(y1, v));
    out.push(green_of(y1, u, v));
    out.push(blue_of(y1, u));
    if rgba {
        out.push(255);
    }
    assert(out@ =~= old(out)@ + pixel_pair(y0, u, y1, v, rgba));
}

/// The pixels of a YUYV frame, appended group by group.
pub fn convert_yuyv(data: &[u8], rgba: bool) -> (out: Vec<u8>)
    ensures
        out@ == rgb_of_yuyv(data@, rgba),
        out@.len() == (data@.len() / 4) * pair_len(rgba),
{
    let n = data.len() / 4;
    let mut out: Vec<u8> = Vec::new();
    let mut i: usize = 0;
    while i < n
        invariant
            i <= n,
            n == data@.len() / 4,
            4 * n <= data@.len(),
            data@.len() <= usize::MAX,
            out@ == pixels(data@, i as nat, rgba),
        decreases n - i,
    {
        let k = 4 * i;
        let y0 = data[k];
        let u = data[k + 1];
        let y1 = data[k + 2];
        let v = data[k + 3];
        push_pair(&mut out, y0, u, y1, v, rgba);
        i += 1;
    }
    proof {
        lemma_pixels_len(data@, n as nat, rgba);
    }
    out
}

/// `copy_from_slice` of slices: when both have the same length, the
/// destination holds the elements of the source afterwards.
pub assume_specification<T: Copy>[ <[T]>::copy_from_slice ](dest: &mut [T], src: &[T])
    requires
        old(dest)@.len() == src@.len(),
    ensures
        final(dest)@ == src@,
;

/// Converts a YUYV frame into `dest`, which must have exactly the length of
/// the result: two pixels for every complete group of four input bytes.
pub fn buf_yuyv422_to_rgb(data: &[u8], dest: &mut [u8], rgba: bool)
    requires
        old(dest)@.len() == (data@.len() / 4) * pair_len(rgba),
    ensures
        final(dest)@ == rgb_of_yuyv(data@, rgba),
{
    let buf = convert_yuyv(data, rgba);
    dest.copy_from_slice(buf.as_slice());
}

/// Converts a YUYV frame to RGB, or to RGBA with an opaque alpha channel.
pub fn yuyv422_to_rgb(data: &[u8], rgba: bool) -> (dest: Vec<u8>)
    ensures
        dest@ == rgb_of_yuyv(data@, rgba),
        dest@.len() == (data@.len() / 4) * pair_len(rgba),
{
    convert_yuyv(data, rgba)
}

} // verus!
