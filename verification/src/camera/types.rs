//! Camera formats, and the conversion of camera frames to RGB.
use vstd::prelude::*;
use vstd::string::StrSliceExecFns;
use vstd::string::StringExecFns;
use crate::camera::error::{CameraGstError, CameraGstErrorModel};
use crate::renderables::raw_image::{convert_yuyv, pair_len, rgb_of_yuyv};

verus! {

/// The size of a frame in pixels.
#[derive(Copy, Clone, Debug, Hash, Ord, PartialOrd, Eq, PartialEq, Structural)]
pub struct Resolution {
    pub width_x: u32,
    pub height_y: u32,
}

impl Resolution {
    pub fn new(x: u32, y: u32) -> (r: Resolution)
        ensures
            r == (Resolution { width_x: x, height_y: y }),
    {
        Self { width_x: x, height_y: y }
    }
}

/// How the pixels of a frame are encoded.
#[derive(Copy, Clone, Debug, Hash, Ord, PartialOrd, Eq, PartialEq, Structural)]
pub enum FrameFormat {
    MJPEG,
    YUYV,
    NV12,
    GRAY,
    RAWRGB,
}

/// Whether `a` and `b` hold the same characters.
pub fn same_text(a: &str, b: &str) -> (r: bool)
    ensures
        r == (a@ == b@),
{
    let n = a.unicode_len();
    if n != b.unicode_len() {
        return false;
    }
    let mut i: usize = 0;
    while i < n
        invariant
            i <= n,
            n == a@.len(),
            n == b@.len(),
            forall|j: int| 0 <= j < i ==> a@[j] == b@[j],
        decreases n - i,
    {
        if a.get_char(i) != b.get_char(i) {
            return false;
        }
        i += 1;
    }
    assert(a@ =~= b@);
    true
}

impl FrameFormat {
    /// The name under which the format is shown.
    pub open spec fn name(self) -> Seq<char> {
        match self {
            FrameFormat::MJPEG => "MJPG"@,
            FrameFormat::YUYV => "YUYV"@,
            FrameFormat::GRAY => "GRAY"@,
            FrameFormat::RAWRGB => "RAWRGB"@,
            FrameFormat::NV12 => "NV12"@,
        }
    }

    /// The name under which the format is shown.
    pub fn to_string(&self) -> (s: String)
        ensures
            s@ == self.name(),
    {
        match self {
            FrameFormat::MJPEG => String::from_str("MJPG"),
            FrameFormat::YUYV => String::from_str("YUYV"),
            FrameFormat::GRAY => String::from_str("GRAY"),
            FrameFormat::RAWRGB => String::from_str("RAWRGB"),
            FrameFormat::NV12 => String::from_str("NV12"),
        }
    }

    /// The format that the text `s` names, if it names one.
    pub open spec fn named(s: Seq<char>) -> Option<FrameFormat> {
        if s == "MJPEG"@ {
            Some(FrameFormat::MJPEG)
        } else if s == "YUYV"@ {
            Some(FrameFormat::YUYV)
        } else if s == "GRAY"@ {
            Some(FrameFormat::GRAY)
        } else if s == "RAWRGB"@ {
            Some(FrameFormat::RAWRGB)
        } else if s == "NV12"@ {
            Some(FrameFormat::NV12)
        } else {
            None
        }
    }

    /// Reads a format from its name.  Any other text is an error that
    /// quotes the text.
    pub fn parse(s: &str) -> (r: Result<FrameFormat, CameraGstError>)
        ensures
            match r {
                Ok(f) => FrameFormat::named(s@) == Some(f),
                Err(e) => FrameFormat::named(s@) is None && e@
                    == (CameraGstErrorModel::StructureError {
                    structure: "FrameFormat"@,
                    error: "No match for "@ + s@,
                }),
            },
    {
        if same_text(s, "MJPEG") {
            Ok(FrameFormat::MJPEG)
        } else if same_text(s, "YUYV") {
            Ok(FrameFormat::YUYV)
        } else if same_text(s, "GRAY") {
            Ok(FrameFormat::GRAY)
        } else if same_text(s, "RAWRGB") {
            Ok(FrameFormat::RAWRGB)
        } else if same_text(s, "NV12") {
            Ok(FrameFormat::NV12)
        } else {
            Err(
                CameraGstError::StructureError {
                    structure: String::from_str("FrameFormat"),
                    error: String::from_str("No match for ").concat(s),
                },
            )
        }
    }
}

impl std::str::FromStr for FrameFormat {
    type Err = CameraGstError;

    /// Reads a format from its name, as `parse` does.
    fn from_str(s: &str) -> (r: Result<FrameFormat, CameraGstError>)
        ensures
            match r {
                Ok(f) => FrameFormat::named(s@) == Some(f),
                Err(e) => FrameFormat::named(s@) is None && e@
                    == (CameraGstErrorModel::StructureError {
                    structure: "FrameFormat"@,
                    error: "No match for "@ + s@,
                }),
            },
    {
        FrameFormat::parse(s)
    }
}

/// What a camera delivers: frames of a resolution, in a format, at a rate.
#[derive(Copy, Clone, Debug, Hash, Ord, PartialOrd, Eq, PartialEq, Structural)]
pub struct CameraFormat {
    resolution: Resolution,
    format: FrameFormat,
    frame_rate: u32,
}

impl Default for CameraFormat {
    /// 640 by 480 MJPEG at 30 frames a second.
    fn default() -> (f: CameraFormat)
        ensures
            f.spec_resolution() == (Resolution { width_x: 640, height_y: 480 }),
            f.spec_format() == FrameFormat::MJPEG,
            f.spec_frame_rate() == 30,
    {
        Self { resolution: Resolution::new(640, 480), format: FrameFormat::MJPEG, frame_rate: 30 }
    }
}

impl CameraFormat {
    pub closed spec fn spec_resolution(self) -> Resolution {
        self.resolution
    }

    pub closed spec fn spec_format(self) -> FrameFormat {
        self.format
    }

    pub closed spec fn spec_frame_rate(self) -> u32 {
        self.frame_rate
    }

    /// The format of frames of `resolution` in `format` at `frame_rate` frames a second.
    pub fn new(resolution: Resolution, format: FrameFormat, frame_rate: u32) -> (f: CameraFormat)
        ensures
            f.spec_resolution() == resolution,
            f.spec_format() == format,
            f.spec_frame_rate() == frame_rate,
    {
        Self { resolution, format, frame_rate }
    }

    /// The format of frames of `res_x` by `res_y` pixels in `format` at `fps` frames a second.
    pub fn new_from(res_x: u32, res_y: u32, format: FrameFormat, fps: u32) -> (f: CameraFormat)
        ensures
            f.spec_resolution() == (Resolution { width_x: res_x, height_y: res_y }),
            f.spec_format() == format,
            f.spec_frame_rate() == fps,
    {
        CameraFormat {
            resolution: Resolution { width_x: res_x, height_y: res_y },
            format,
            frame_rate: fps,
        }
    }

    /// The width of a frame.
    pub fn width(&self) -> (w: u32)
        ensures
            w == self.spec_resolution().width_x,
    {
        self.resolution.width_x
    }

    /// The height of a frame.
    pub fn height(&self) -> (h: u32)
        ensures
            h == self.spec_resolution().height_y,
    {
        self.resolution.height_y
    }

    pub fn resolution(&self) -> (r: Resolution)
        ensures
            r == self.spec_resolution(),
    {
        self.resolution
    }

    /// Frames a second.
    pub fn frame_rate(&self) -> (r: u32)
        ensures
            r == self.spec_frame_rate(),
    {
        self.frame_rate
    }

    pub fn format(&self) -> (f: FrameFormat)
        ensures
            f == self.spec_format(),
    {
        self.format
    }
}

/// A camera as the system lists it.
#[derive(Clone, Debug, Hash, PartialEq, Eq, PartialOrd)]
pub struct CameraInfo {
    human_name: String,
    description: String,
    misc: String,
    index: usize,
}

impl CameraInfo {
    pub closed spec fn spec_human_name(self) -> Seq<char> {
        self.human_name@
    }

    pub closed spec fn spec_description(self) -> Seq<char> {
        self.description@
    }

    pub closed spec fn spec_misc(self) -> Seq<char> {
        self.misc@
    }

    pub closed spec fn spec_index(self) -> usize {
        self.index
    }

    pub fn new(human_name: &str, description: &str, misc: &str, index: usize) -> (c: CameraInfo)
        ensures
            c.spec_human_name() == human_name@,
            c.spec_description() == description@,
            c.spec_misc() == misc@,
            c.spec_index() == index,
    {
        CameraInfo {
            human_name: String::from_str(human_name),
            description: String::from_str(description),
            misc: String::from_str(misc),
            index,
        }
    }

    pub fn index(&self) -> (i: usize)
        ensures
            i == self.spec_index(),
    {
        self.index
    }
}

/// How a camera is named: by its number or by a path.
#[derive(Clone, Debug, Hash, Ord, PartialOrd, Eq, PartialEq)]
pub enum CameraIndex {
    Index(u32),
    String(String),
}

/// The digit `d` as text.
pub open spec fn digit(d: nat) -> Seq<char> {
    if d == 0 {
        "0"@
    } else if d == 1 {
        "1"@
    } else if d == 2 {
        "2"@
    } else if d == 3 {
        "3"@
    } else if d == 4 {
        "4"@
    } else if d == 5 {
        "5"@
    } else if d == 6 {
        "6"@
    } else if d == 7 {
        "7"@
    } else if d == 8 {
        "8"@
    } else {
        "9"@
    }
}

/// `n` in decimal notation.
pub open spec fn decimal(n: nat) -> Seq<char>
    decreases n,
{
    if n < 10 {
        digit(n)
    } else {
        decimal(n / 10) + digit(n % 10)
    }
}

fn digit_text(d: u128) -> (s: &'static str)
    requires
        d < 10,
    ensures
        s@ == digit(d as nat),
{
    if d == 0 {
        "0"
    } else if d == 1 {
        "1"
    } else if d == 2 {
        "2"
    } else if d == 3 {
        "3"
    } else if d == 4 {
        "4"
    } else if d == 5 {
        "5"
    } else if d == 6 {
        "6"
    } else if d == 7 {
        "7"
    } else if d == 8 {
        "8"
    } else {
        "9"
    }
}

/// `n` in decimal notation.
pub fn to_decimal(n: u128) -> (s: String)
    ensures
        s@ == decimal(n as nat),
    decreases n,
{
    if n < 10 {
        String::from_str(digit_text(n))
    } else {
        to_decimal(n / 10).concat(digit_text(n % 10))
    }
}

/// The error type of the JPEG decoder.
#[verifier::external_type_specification]
#[verifier::external_body]
pub struct ExJpegError(jpeg_decoder::Error);

/// What the JPEG decoder makes of the bytes `data` where it decodes them:
/// the pixels of the image.
pub uninterp spec fn jpeg_decoded(data: Seq<u8>) -> Option<Seq<u8>>;

/// `Decoder::new` and `Decoder::decode` of `jpeg_decoder`, which is built
/// to give the same output on every platform: the decoded pixels, or the
/// decoder's error.  Pixels that come back are what the decoder makes of
/// the bytes and of nothing else.  Nothing is claimed about when an error
/// comes back: the decoder hands large frames to threads of its own and
/// may also fail for want of one.
#[verifier::external_body]
fn decode_jpeg(in_buf: &[u8]) -> (r: Result<Vec<u8>, jpeg_decoder::Error>)
    ensures
        r matches Ok(pixels) ==> jpeg_decoded(in_buf@) == Some(pixels@),
{
    jpeg_decoder::Decoder::new(in_buf).decode()
}

/// `to_string` of `jpeg_decoder::Error`: the text of the error.  Nothing
/// is claimed about the text.
#[verifier::external_body]
fn describe_jpeg_error(err: &jpeg_decoder::Error) -> (s: String) {
    err.to_string()
}

/// The error of an MJPEG conversion that the decoder explains with `reason`.
pub open spec fn mjpeg_error(reason: Seq<char>) -> CameraGstErrorModel {
    CameraGstErrorModel::ProcessFrameError {
        src: FrameFormat::MJPEG,
        destination: "RGB888"@,
        error: "Could not decode MJPEG: "@ + reason,
    }
}

/// What the decoder's outcome means for the caller: the pixels as they
/// are, or an error that quotes the decoder's reason.
pub fn mjpeg_frame(outcome: Result<Vec<u8>, String>) -> (r: Result<Vec<u8>, CameraGstError>)
    ensures
        match (outcome, r) {
            (Ok(pixels), Ok(frame)) => frame == pixels,
            (Err(reason), Err(e)) => e@ == mjpeg_error(reason@),
            _ => false,
        },
{
    match outcome {
        Ok(d) => Ok(d),
        Err(reason) => Err(
            CameraGstError::ProcessFrameError {
                src: FrameFormat::MJPEG,
                destination: String::from_str("RGB888"),
                error: String::from_str("Could not decode MJPEG: ").concat(reason.as_str()),
            },
        ),
    }
}

/// Decodes an MJPEG frame to RGB.  Whether the frame decodes is up to the
/// decoder.  If it does, the result is the pixels that the decoder makes
/// of the frame; if not, the error quotes the decoder's reason.
pub fn mjpeg_to_rgb24(in_buf: &[u8]) -> (r: Result<Vec<u8>, CameraGstError>)
    ensures
        match r {
            Ok(frame) => jpeg_decoded(in_buf@) == Some(frame@),
            Err(e) => exists|reason: Seq<char>| e@ == mjpeg_error(reason),
        },
{
    match decode_jpeg(in_buf) {
        Ok(d) => mjpeg_frame(Ok(d)),
        Err(err) => {
            let reason = describe_jpeg_error(&err);
            let r = mjpeg_frame(Err(reason));
            assert(r matches Err(e) && e@ == mjpeg_error(reason@));
            r
        },
    }
}

/// The text of the error for a stream whose length is no multiple of four.
pub open spec fn not_yuyv_text() -> Seq<char> {
    "Assertion failure, the YUV stream isn't 4:2:2! (wrong number of bytes)"@
}

/// The text of the error for a destination of the wrong length.
pub open spec fn wrong_size_text(expected: nat, actual: nat) -> Seq<char> {
    "Assertion failure, the destination RGB buffer is of the wrong size! [expected: "@ + decimal(
        expected,
    ) + ", actual: "@ + decimal(actual) + "]"@
}

/// The error of a YUYV conversion with the text `error`.
pub open spec fn yuyv_error(error: Seq<char>) -> CameraGstErrorModel {
    CameraGstErrorModel::ProcessFrameError {
        src: FrameFormat::YUYV,
        destination: "RGB888"@,
        error,
    }
}

fn not_yuyv() -> (e: CameraGstError)
    ensures
        e@ == yuyv_error(not_yuyv_text()),
{
    CameraGstError::ProcessFrameError {
        src: FrameFormat::YUYV,
        destination: String::from_str("RGB888"),
        error: String::from_str(
            "Assertion failure, the YUV stream isn't 4:2:2! (wrong number of bytes)",
        ),
    }
}

/// Converts a YUYV 4:2:2 frame to RGB, or to RGBA with an opaque alpha
/// channel.  A frame whose length is no multiple of four is refused.
pub fn yuyv422_to_rgb(data: &[u8], rgba: bool) -> (r: Result<Vec<u8>, CameraGstError>)
    ensures
        match r {
            Ok(dest) => data@.len() % 4 == 0 && dest@ == rgb_of_yuyv(data@, rgba),
            Err(e) => data@.len() % 4 != 0 && e@ == yuyv_error(not_yuyv_text()),
        },
{
    if data.len() % 4 != 0 {
        return Err(not_yuyv());
    }
    Ok(convert_yuyv(data, rgba))
}

/// Converts a YUYV 4:2:2 frame into `dest`.  A frame whose length is no
/// multiple of four is refused, and so is a destination that does not have
/// exactly the length of the result; `dest` is then left as it was.
pub fn buf_yuyv422_to_rgb(data: &[u8], dest: &mut [u8], rgba: bool) -> (r: Result<
    (),
    CameraGstError,
>)
    ensures
        match r {
            Ok(_) => {
                &&& data@.len() % 4 == 0
                &&& old(dest)@.len() == (data@.len() / 4) * pair_len(rgba)
                &&& final(dest)@ == rgb_of_yuyv(data@, rgba)
            },
            Err(e) => {
                &&& final(dest)@ == old(dest)@
                &&& if data@.len() % 4 != 0 {
                    e@ == yuyv_error(not_yuyv_text())
                } else {
                    &&& old(dest)@.len() != (data@.len() / 4) * pair_len(rgba)
                    &&& e@ == yuyv_error(
                        wrong_size_text((data@.len() / 4) * pair_len(rgba), old(dest)@.len()),
                    )
                }
            },
        },
{
    if data.len() % 4 != 0 {
        return Err(not_yuyv());
    }
    let pixel_size: usize = if rgba {
        4
    } else {
        3
    };
    let groups = data.len() / 4;
    assert(groups * (2 * pixel_size) <= 8 * usize::MAX) by (nonlinear_arith)
        requires
            0 <= groups <= usize::MAX,
            pixel_size == 3 || pixel_size == 4,
    ;
    let rgb_buf_size: u128 = groups as u128 * (2 * pixel_size) as u128;
    assert(rgb_buf_size == (data@.len() / 4) * pair_len(rgba)) by (nonlinear_arith)
        requires
            rgb_buf_size == groups * (2 * pixel_size),
            groups == data@.len() / 4,
            pair_len(rgba) == 2 * pixel_size,
    ;
    if dest.len() as u128 != rgb_buf_size {
        return Err(
            CameraGstError::ProcessFrameError {
                src: FrameFormat::YUYV,
                destination: String::from_str("RGB888"),
                error: String::from_str(
                    "Assertion failure, the destination RGB buffer is of the wrong size! [expected: ",
                ).concat(to_decimal(rgb_buf_size).as_str()).concat(", actual: ").concat(
                    to_decimal(dest.len() as u128).as_str(),
                ).concat("]"),
            },
        );
    }
    let buf = convert_yuyv(data, rgba);
    dest.copy_from_slice(buf.as_slice());
    Ok(())
}

/// The low eight bits of `v`.
pub open spec fn low_byte(v: int) -> u8 {
    (v % 256) as u8
}

/// `v` limited to `0 ..= 255`.
pub open spec fn byte_clamped(v: int) -> u8 {
    if v < 0 {
        0
    } else if v > 255 {
        255
    } else {
        v as u8
    }
}

/// The three channels of a pixel before they are cut to a byte:
/// `(298 (y - 16) + 409 (v - 128) + 128) / 256` for red, and likewise
/// for green and blue, rounded down.
pub open spec fn wide_rgb(y: i32, u: i32, v: i32) -> (int, int, int) {
    let c298 = (y - 16) * 298;
    let d = u - 128;
    let e = v - 128;
    (
        (c298 + 409 * e + 128) / 256,
        (c298 - 100 * d - 208 * e + 128) / 256,
        (c298 + 516 * d + 128) / 256,
    )
}

/// Whether `n` fits into 32 bits with a sign.
pub open spec fn fits(n: int) -> bool {
    i32::MIN <= n <= i32::MAX
}

/// Whether the arithmetic of the conversion stays inside 32 bits at every step.
pub open spec fn in_gamut(y: i32, u: i32, v: i32) -> bool {
    let c298 = (y - 16) * 298;
    let d = u - 128;
    let e = v - 128;
    &&& fits(y - 16) && fits(c298) && fits(d) && fits(e)
    &&& fits(409 * e) && fits(c298 + 409 * e) && fits(c298 + 409 * e + 128)
    &&& fits(100 * d) && fits(c298 - 100 * d) && fits(208 * e) && fits(c298 - 100 * d - 208 * e)
    &&& fits(c298 - 100 * d - 208 * e + 128)
    &&& fits(516 * d) && fits(c298 + 516 * d) && fits(c298 + 516 * d + 128)
}

/// `n / 256` rounded down, as an arithmetic shift by eight bits gives it.
fn shift_8(n: i64) -> (q: i64)
    requires
        -0x4000_0000_0000 <= n <= 0x4000_0000_0000,
    ensures
        q == n as int / 256,
{
    crate::types::div_floor(n, 256)
}

fn to_low_byte(v: i64) -> (b: u8)
    requires
        -0x4000_0000_0000 <= v <= 0x4000_0000_0000,
    ensures
        b == low_byte(v as int),
{
    let q = crate::types::div_floor(v, 256);
    (v - q * 256) as u8
}

fn wide(y: i32, u: i32, v: i32) -> (r: (i64, i64, i64))
    requires
        in_gamut(y, u, v),
    ensures
        r.0 == wide_rgb(y, u, v).0,
        r.1 == wide_rgb(y, u, v).1,
        r.2 == wide_rgb(y, u, v).2,
        -0x1_0000_0000 <= r.0 <= 0x1_0000_0000,
        -0x1_0000_0000 <= r.1 <= 0x1_0000_0000,
        -0x1_0000_0000 <= r.2 <= 0x1_0000_0000,
{
    let c298 = (y as i64 - 16) * 298;
    let d = u as i64 - 128;
    let e = v as i64 - 128;
    (
        shift_8(c298 + 409 * e + 128),
        shift_8(c298 - 100 * d - 208 * e + 128),
        shift_8(c298 + 516 * d + 128),
    )
}

/// Converts one pixel from YCbCr to RGB; each channel keeps the low eight
/// bits of its value.
pub fn yuyv444_to_rgb(y: i32, u: i32, v: i32) -> (rgb: [u8; 3])
    requires
        in_gamut(y, u, v),
    ensures
        rgb@ == seq![
            low_byte(wide_rgb(y, u, v).0),
            low_byte(wide_rgb(y, u, v).1),
            low_byte(wide_rgb(y, u, v).2),
        ],
{
    let w = wide(y, u, v);
    let rgb = [to_low_byte(w.0), to_low_byte(w.1), to_low_byte(w.2)];
    assert(rgb@ =~= seq![
        low_byte(wide_rgb(y, u, v).0),
        low_byte(wide_rgb(y, u, v).1),
        low_byte(wide_rgb(y, u, v).2),
    ]);
    rgb
}

fn to_byte(v: i64) -> (b: u8)
    ensures
        b == byte_clamped(v as int),
{
    if v < 0 {
        0
    } else if v > 255 {
        255
    } else {
        v as u8
    }
}

/// Converts one pixel from YCbCr to RGB; each channel is limited to `0 ..= 255`.
pub fn yuv422_to_rgb(y: i32, u: i32, v: i32) -> (rgb: [u8; 3])
    requires
        in_gamut(y, u, v),
    ensures
        rgb@ == seq![
            byte_clamped(wide_rgb(y, u, v).0),
            byte_clamped(wide_rgb(y, u, v).1),
            byte_clamped(wide_rgb(y, u, v).2),
        ],
{
    let w = wide(y, u, v);
    let rgb = [to_byte(w.0), to_byte(w.1), to_byte(w.2)];
    assert(rgb@ =~= seq![
        byte_clamped(wide_rgb(y, u, v).0),
        byte_clamped(wide_rgb(y, u, v).1),
        byte_clamped(wide_rgb(y, u, v).2),
    ]);
    rgb
}

/// As `yuyv444_to_rgb`, with an opaque alpha channel.
pub fn yuyv444_to_rgba(y: i32, u: i32, v: i32) -> (rgba: [u8; 4])
    requires
        in_gamut(y, u, v),
    ensures
        rgba@ == seq![
            low_byte(wide_rgb(y, u, v).0),
            low_byte(wide_rgb(y, u, v).1),
            low_byte(wide_rgb(y, u, v).2),
            255u8,
        ],
{
    let rgb = yuyv444_to_rgb(y, u, v);
    let rgba = [rgb[0], rgb[1], rgb[2], 255];
    assert(rgba@ =~= seq![
        low_byte(wide_rgb(y, u, v).0),
        low_byte(wide_rgb(y, u, v).1),
        low_byte(wide_rgb(y, u, v).2),
        255u8,
    ]);
    rgba
}

} // verus!
