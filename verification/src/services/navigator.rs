//! Navigation paths: snapshots of the minimap and of its name, kept as
//! base64-encoded PNG images.

use base64::{prelude::BASE64_STANDARD, Engine};
use vstd::prelude::*;

use crate::geometry::Rect;

verus! {

/// The character of the six-bit value `v` in the standard base64 alphabet.
pub open spec fn base64_digit(v: int) -> char {
    if v < 26 {
        (65 + v) as char
    } else if v < 52 {
        (97 + v - 26) as char
    } else if v < 62 {
        (48 + v - 52) as char
    } else if v == 62 {
        '+'
    } else {
        '/'
    }
}

/// The standard base64 encoding of `bytes`, padded with `=`: each group of
/// three bytes gives four characters of six bits each, and a last group of
/// one or two bytes gives two or three characters and the padding.
pub open spec fn base64_encoded(bytes: Seq<u8>) -> Seq<char>
    decreases bytes.len(),
{
    if bytes.len() == 0 {
        Seq::empty()
    } else if bytes.len() == 1 {
        let b0 = bytes[0] as int;
        seq![base64_digit(b0 / 4), base64_digit((b0 % 4) * 16), '=', '=']
    } else if bytes.len() == 2 {
        let (b0, b1) = (bytes[0] as int, bytes[1] as int);
        seq![
            base64_digit(b0 / 4),
            base64_digit((b0 % 4) * 16 + b1 / 16),
            base64_digit((b1 % 16) * 4),
            '=',
        ]
    } else {
        let (b0, b1, b2) = (bytes[0] as int, bytes[1] as int, bytes[2] as int);
        seq![
            base64_digit(b0 / 4),
            base64_digit((b0 % 4) * 16 + b1 / 16),
            base64_digit((b1 % 16) * 4 + b2 / 64),
            base64_digit(b2 % 64),
        ] + base64_encoded(bytes.subrange(3, bytes.len() as int))
    }
}

/// Whether `text` is the standard base64 encoding, with padding, of some bytes.
pub open spec fn is_base64_encoding(text: Seq<char>) -> bool {
    exists|bytes: Seq<u8>| #[trigger] base64_encoded(bytes) == text
}

/// Encodes `bytes` with `base64::Engine::encode` of `BASE64_STANDARD`, the
/// standard alphabet with padding, which gives `base64_encoded`. The encoder
/// panics when the encoded length overflows, which the bound on the length
/// rules out.
#[verifier::external_body]
fn encode_base64(bytes: &[u8]) -> (r: String)
    requires
        bytes@.len() <= usize::MAX / 2,
    ensures
        r@ == base64_encoded(bytes@),
{
    BASE64_STANDARD.encode(bytes)
}

/// Decodes `text` with `base64::Engine::decode` of `BASE64_STANDARD`, whose
/// configuration requires canonical padding and rejects trailing bits: it
/// gives the bytes whose encoding `text` is, and an error, here `None`, where
/// `text` encodes no bytes.
#[verifier::external_body]
fn decode_base64(text: &str) -> (r: Option<Vec<u8>>)
    ensures
        match r {
            Some(v) => base64_encoded(v@) == text@,
            None => !is_base64_encoding(text@),
        },
{
    BASE64_STANDARD.decode(text).ok()
}

/// A navigation path: snapshots that identify a map, and the size of the
/// name snapshot.
#[derive(Clone, Debug, PartialEq, Eq)]
pub struct NavigationPath {
    pub minimap_snapshot_base64: String,
    pub name_snapshot_base64: String,
    pub name_snapshot_width: i32,
    pub name_snapshot_height: i32,
}

/// PNG images cut from the screen: the minimap and its name, with the name's box.
#[derive(Clone, Debug, PartialEq, Eq)]
pub struct SnapshotCapture {
    pub minimap_png: Vec<u8>,
    pub name_png: Vec<u8>,
    pub name_bbox: Rect,
}

/// Whether the images of a capture are small enough to encode.
pub open spec fn capture_fits(c: SnapshotCapture) -> bool {
    c.minimap_png@.len() <= usize::MAX / 2 && c.name_png@.len() <= usize::MAX / 2
}

/// Whether `path` holds the snapshots of `capture`.
pub open spec fn holds_capture(path: NavigationPath, capture: SnapshotCapture) -> bool {
    &&& path.minimap_snapshot_base64@ == base64_encoded(capture.minimap_png@)
    &&& path.name_snapshot_base64@ == base64_encoded(capture.name_png@)
    &&& path.name_snapshot_width == capture.name_bbox.width
    &&& path.name_snapshot_height == capture.name_bbox.height
}

/// A navigation path from the base64 text of its snapshots and the box of
/// the name snapshot.
pub fn path_from_snapshots(
    minimap_snapshot_base64: String,
    name_snapshot_base64: String,
    name_bbox: Rect,
) -> (p: NavigationPath)
    ensures
        p.minimap_snapshot_base64@ == minimap_snapshot_base64@,
        p.name_snapshot_base64@ == name_snapshot_base64@,
        p.name_snapshot_width == name_bbox.width,
        p.name_snapshot_height == name_bbox.height,
{
    NavigationPath {
        minimap_snapshot_base64,
        name_snapshot_base64,
        name_snapshot_width: name_bbox.width,
        name_snapshot_height: name_bbox.height,
    }
}

/// Handles navigation-related requests.
pub trait NavigatorService {
    /// Creates a navigation path from what was cut from the screen, if anything.
    fn create_path(&self, capture: Option<SnapshotCapture>) -> Option<NavigationPath>
        requires
            capture matches Some(c) ==> capture_fits(c),
    ;

    /// Replaces the snapshots of `path` with what was cut from the screen, if anything.
    fn recapture_path(&self, capture: Option<SnapshotCapture>, path: NavigationPath) -> NavigationPath
        requires
            capture matches Some(c) ==> capture_fits(c),
    ;
}

/// The navigator service of the bot.
#[derive(Clone, Copy, Debug, Default)]
pub struct DefaultNavigatorService;

impl NavigatorService for DefaultNavigatorService {
    fn create_path(&self, capture: Option<SnapshotCapture>) -> (r: Option<NavigationPath>)
        ensures
            match capture {
                Some(c) => r matches Some(p) && holds_capture(p, c),
                None => r is None,
            },
    {
        match capture {
            Some(c) => Some(
                path_from_snapshots(
                    encode_base64(c.minimap_png.as_slice()),
                    encode_base64(c.name_png.as_slice()),
                    c.name_bbox,
                ),
            ),
            None => None,
        }
    }

    fn recapture_path(&self, capture: Option<SnapshotCapture>, path: NavigationPath) -> (r:
        NavigationPath)
        ensures
            match capture {
                Some(c) => holds_capture(r, c),
                None => r == path,
            },
    {
        let mut path = path;
        if let Some(c) = capture {
            path.minimap_snapshot_base64 = encode_base64(c.minimap_png.as_slice());
            path.name_snapshot_base64 = encode_base64(c.name_png.as_slice());
            path.name_snapshot_width = c.name_bbox.width;
            path.name_snapshot_height = c.name_bbox.height;
        }
        path
    }
}

/// The image that a snapshot's base64 text holds, or `None` where the text is
/// not valid base64.
pub fn decode_snapshot(base64: &String) -> (r: Option<Vec<u8>>)
    ensures
        match r {
            Some(v) => base64_encoded(v@) == base64@,
            None => !is_base64_encoding(base64@),
        },
{
    decode_base64(base64.as_str())
}

/// A snapshot converted to grayscale: the encoding of the grayscale image
/// where the conversion gave one, the given text otherwise.
pub fn grayscale_snapshot_or_same(base64: String, grayscale_png: Option<Vec<u8>>) -> (r: String)
    requires
        grayscale_png matches Some(png) ==> png@.len() <= usize::MAX / 2,
    ensures
        match grayscale_png {
            Some(png) => r@ == base64_encoded(png@),
            None => r@ == base64@,
        },
{
    match grayscale_png {
        Some(png) => encode_base64(png.as_slice()),
        None => base64,
    }
}

} // verus!
