use vstd::prelude::*;

verus! {

/// Pixel layouts and codecs that the library names explicitly.
#[derive(Debug, Clone, Copy, PartialEq, Eq, Structural)]
pub enum PixelFormat {
    MJPG,
    YUYV,
    RGB3,
    BGR3,
    YU12,
    YV12,
}

/// The four ASCII bytes of the wire tag for each format.
pub open spec fn tag_of(f: PixelFormat) -> Seq<u8> {
    match f {
        PixelFormat::MJPG => seq![77u8, 74u8, 80u8, 71u8],
        PixelFormat::YUYV => seq![89u8, 85u8, 89u8, 86u8],
        PixelFormat::RGB3 => seq![82u8, 71u8, 66u8, 51u8],
        PixelFormat::BGR3 => seq![66u8, 71u8, 82u8, 51u8],
        PixelFormat::YU12 => seq![89u8, 85u8, 49u8, 50u8],
        PixelFormat::YV12 => seq![89u8, 86u8, 49u8, 50u8],
    }
}

/// A tag is known when some format encodes to it.
pub open spec fn is_known_tag(t: Seq<u8>) -> bool {
    exists|f: PixelFormat| tag_of(f) == t
}

/// Decoding of a wire tag: the format whose tag it is, or YUYV for any other tag.
pub open spec fn format_of_tag(t: Seq<u8>) -> PixelFormat {
    if t == tag_of(PixelFormat::MJPG) {
        PixelFormat::MJPG
    } else if t == tag_of(PixelFormat::YUYV) {
        PixelFormat::YUYV
    } else if t == tag_of(PixelFormat::RGB3) {
        PixelFormat::RGB3
    } else if t == tag_of(PixelFormat::BGR3) {
        PixelFormat::BGR3
    } else if t == tag_of(PixelFormat::YU12) {
        PixelFormat::YU12
    } else if t == tag_of(PixelFormat::YV12) {
        PixelFormat::YV12
    } else {
        PixelFormat::YUYV
    }
}

fn tag_equals(t: &[u8; 4], a: u8, b: u8, c: u8, d: u8) -> (r: bool)
    ensures
        r == (t@ == seq![a, b, c, d]),
{
    let r = t[0] == a && t[1] == b && t[2] == c && t[3] == d;
    if r {
        assert(t@ =~= seq![a, b, c, d]);
    }
    r
}

impl PixelFormat {
    /// Decodes a four-byte wire tag; an unrecognised tag gives YUYV.
    pub fn from_fourcc(fourcc: &[u8; 4]) -> (r: PixelFormat)
        ensures
            r == format_of_tag(fourcc@),
    {
        if tag_equals(fourcc, 77, 74, 80, 71) {
            PixelFormat::MJPG
        } else if tag_equals(fourcc, 89, 85, 89, 86) {
            PixelFormat::YUYV
        } else if tag_equals(fourcc, 82, 71, 66, 51) {
            PixelFormat::RGB3
        } else if tag_equals(fourcc, 66, 71, 82, 51) {
            PixelFormat::BGR3
        } else if tag_equals(fourcc, 89, 85, 49, 50) {
            PixelFormat::YU12
        } else if tag_equals(fourcc, 89, 86, 49, 50) {
            PixelFormat::YV12
        } else {
            PixelFormat::YUYV
        }
    }

    /// Encodes the format as its four-byte wire tag.
    pub fn to_fourcc(&self) -> (r: [u8; 4])
        ensures
            r@ == tag_of(*self),
    {
        let r: [u8; 4] = match self {
            PixelFormat::MJPG => [77, 74, 80, 71],
            PixelFormat::YUYV => [89, 85, 89, 86],
            PixelFormat::RGB3 => [82, 71, 66, 51],
            PixelFormat::BGR3 => [66, 71, 82, 51],
            PixelFormat::YU12 => [89, 85, 49, 50],
            PixelFormat::YV12 => [89, 86, 49, 50],
        };
        assert(r@ =~= tag_of(*self));
        r
    }
}

/// Encoding then decoding gives back the format, so every format's tag is
/// distinct and known.
pub proof fn lemma_tag_decodes_to_format(f: PixelFormat)
    ensures
        format_of_tag(tag_of(f)) == f,
        is_known_tag(tag_of(f)),
{
    assert(tag_of(PixelFormat::MJPG)[0] == 77u8);
    assert(tag_of(PixelFormat::YUYV)[0] == 89u8 && tag_of(PixelFormat::YUYV)[3] == 86u8);
    assert(tag_of(PixelFormat::RGB3)[0] == 82u8);
    assert(tag_of(PixelFormat::BGR3)[0] == 66u8);
    assert(tag_of(PixelFormat::YU12)[1] == 85u8 && tag_of(PixelFormat::YU12)[3] == 50u8);
    assert(tag_of(PixelFormat::YV12)[1] == 86u8);
}

/// For every tag in the closed set, decoding then encoding gives back the
/// tag; any other tag decodes to the default format YUYV.
pub proof fn lemma_fourcc_round_trip(t: Seq<u8>)
    ensures
        is_known_tag(t) ==> tag_of(format_of_tag(t)) == t,
        !is_known_tag(t) ==> format_of_tag(t) == PixelFormat::YUYV,
{
    if is_known_tag(t) {
        let f = choose|f: PixelFormat| tag_of(f) == t;
        lemma_tag_decodes_to_format(f);
    } else {
        assert(t != tag_of(PixelFormat::MJPG));
        assert(t != tag_of(PixelFormat::RGB3));
        assert(t != tag_of(PixelFormat::BGR3));
        assert(t != tag_of(PixelFormat::YU12));
        assert(t != tag_of(PixelFormat::YV12));
    }
}

/// Width and height of a frame in pixels; equal when both match exactly.
#[derive(Debug, Clone, Copy, PartialEq, Eq, Structural)]
pub struct Resolution {
    pub width: u32,
    pub height: u32,
}

/// One captured image: its format and size, the capture time in nanoseconds
/// since the Unix epoch, its sequence number and the raw payload.
#[derive(Debug)]
pub struct Frame {
    pub format: PixelFormat,
    pub width: u32,
    pub height: u32,
    pub timestamp: u64,
    pub sequence: usize,
    pub data: Vec<u8>,
}

} // verus!
