//! The arithmetic of capturing a window: which part of a captured surface is
//! the window's client area, where a point of the client area is on screen,
//! and how a padded frame buffer becomes tightly packed rows.

use vstd::prelude::*;

verus! {

/// A rectangle given by its edges, as the windowing system reports it.
#[derive(Clone, Copy, Debug, PartialEq, Eq, Structural)]
pub struct WindowRect {
    pub left: i32,
    pub top: i32,
    pub right: i32,
    pub bottom: i32,
}

/// A point in screen coordinates.
#[derive(Clone, Copy, Debug, PartialEq, Eq, Structural)]
pub struct ScreenPoint {
    pub x: i32,
    pub y: i32,
}

/// A box of a texture, in texels.
#[derive(Clone, Copy, Debug, PartialEq, Eq, Structural)]
pub struct TextureBox {
    pub left: u32,
    pub top: u32,
    pub right: u32,
    pub bottom: u32,
    pub front: u32,
    pub back: u32,
}

/// What can go wrong when capturing a window.
#[derive(Clone, Copy, Debug, PartialEq, Eq, Structural)]
pub enum CaptureError {
    WindowNotFound,
    WindowInvalidSize,
}

/// How far into the captured surface the client area starts along one axis.
pub open spec fn client_offset(client_origin: i32, frame_origin: i32) -> u32 {
    if (client_origin as u32) >= (frame_origin as u32) {
        ((client_origin as u32) - (frame_origin as u32)) as u32
    } else {
        0
    }
}

/// How many texels of a surface `size` texels long the client area covers
/// from `offset`, given the client area's far edge; one when the surface
/// ends before the offset.
pub open spec fn client_extent(size: u32, offset: u32, client_far_edge: i32) -> u32 {
    if size > offset {
        if (size - offset) as u32 <= client_far_edge as u32 {
            (size - offset) as u32
        } else {
            client_far_edge as u32
        }
    } else {
        1
    }
}

/// Whether the box of the client area fits in texel coordinates.
pub open spec fn client_box_fits(
    client_rect: WindowRect,
    frame_rect: WindowRect,
    client_origin: ScreenPoint,
    width: u32,
    height: u32,
) -> bool {
    let left = client_offset(client_origin.x, frame_rect.left);
    let top = client_offset(client_origin.y, frame_rect.top);
    &&& left + client_extent(width, left, client_rect.right) <= u32::MAX
    &&& top + client_extent(height, top, client_rect.bottom) <= u32::MAX
}

/// The box of a `width` by `height` captured surface that holds the
/// window's client area, given the client rectangle, the window's frame
/// bounds and where the client area's origin is on screen; an error when the
/// client area is empty.
pub fn client_texture_box(
    client_rect: WindowRect,
    frame_rect: WindowRect,
    client_origin: ScreenPoint,
    width: u32,
    height: u32,
) -> (r: Result<TextureBox, CaptureError>)
    requires
        i32::MIN <= client_rect.right - client_rect.left <= i32::MAX,
        i32::MIN <= client_rect.bottom - client_rect.top <= i32::MAX,
        client_box_fits(client_rect, frame_rect, client_origin, width, height),
    ensures
        match r {
            Err(e) => e == CaptureError::WindowInvalidSize && (client_rect.right
                == client_rect.left || client_rect.bottom == client_rect.top),
            Ok(b) => {
                let left = client_offset(client_origin.x, frame_rect.left);
                let top = client_offset(client_origin.y, frame_rect.top);
                &&& client_rect.right != client_rect.left
                &&& client_rect.bottom != client_rect.top
                &&& b.left == left
                &&& b.top == top
                &&& b.right == left + client_extent(width, left, client_rect.right)
                &&& b.bottom == top + client_extent(height, top, client_rect.bottom)
                &&& b.front == 0
                &&& b.back == 1
            },
        },
{
    let rect_width = client_rect.right - client_rect.left;
    let rect_height = client_rect.bottom - client_rect.top;
    if rect_width == 0 || rect_height == 0 {
        return Err(CaptureError::WindowInvalidSize);
    }
    let left = (client_origin.x as u32).saturating_sub(frame_rect.left as u32);
    let top = (client_origin.y as u32).saturating_sub(frame_rect.top as u32);
    let right_edge = client_rect.right as u32;
    let bottom_edge = client_rect.bottom as u32;
    let texture_width = if width > left {
        if width - left <= right_edge {
            width - left
        } else {
            right_edge
        }
    } else {
        1
    };
    let texture_height = if height > top {
        if height - top <= bottom_edge {
            height - top
        } else {
            bottom_edge
        }
    } else {
        1
    };
    Ok(
        TextureBox {
            left,
            top,
            right: left + texture_width,
            bottom: top + texture_height,
            front: 0,
            back: 1,
        },
    )
}

/// A point relative to an area, with the area's size.
#[derive(Clone, Copy, Debug, PartialEq, Eq, Structural)]
pub struct ConvertedCoordinates {
    pub width: i32,
    pub height: i32,
    pub x: i32,
    pub y: i32,
}

/// Whether the coordinates of `point` relative to `area` fit in an `i32`.
pub open spec fn relative_fits(point: ScreenPoint, area: WindowRect) -> bool {
    &&& i32::MIN <= point.x - area.left <= i32::MAX
    &&& i32::MIN <= point.y - area.top <= i32::MAX
    &&& i32::MIN <= area.right - area.left <= i32::MAX
    &&& i32::MIN <= area.bottom - area.top <= i32::MAX
}

/// The screen point `point` relative to `area` (a window or a monitor), with
/// the area's size.
pub fn convert_coordinate_in(point: ScreenPoint, area: WindowRect) -> (c: ConvertedCoordinates)
    requires
        relative_fits(point, area),
    ensures
        c.x == point.x - area.left,
        c.y == point.y - area.top,
        c.width == area.right - area.left,
        c.height == area.bottom - area.top,
{
    ConvertedCoordinates {
        width: area.right - area.left,
        height: area.bottom - area.top,
        x: point.x - area.left,
        y: point.y - area.top,
    }
}

/// The first `row_bytes` bytes of each of the first `rows` rows of `buffer`,
/// whose rows are `pitch` bytes apart.
pub open spec fn packed_rows(buffer: Seq<u8>, row_bytes: int, pitch: int, rows: int) -> Seq<u8>
    decreases rows,
{
    if rows <= 0 {
        Seq::empty()
    } else {
        packed_rows(buffer, row_bytes, pitch, rows - 1) + buffer.subrange(
            (rows - 1) * pitch,
            (rows - 1) * pitch + row_bytes,
        )
    }
}

/// Rows that fill their pitch are packed already: taking each row whole
/// gives the buffer back.
proof fn lemma_full_rows_are_packed(buffer: Seq<u8>, pitch: int, rows: int)
    requires
        0 <= pitch,
        0 <= rows,
        rows * pitch <= buffer.len(),
    ensures
        packed_rows(buffer, pitch, pitch, rows) == buffer.subrange(0, rows * pitch),
    decreases rows,
{
    if rows > 0 {
        assert((rows - 1) * pitch + pitch == rows * pitch) by (nonlinear_arith);
        assert((rows - 1) * pitch <= rows * pitch) by (nonlinear_arith)
            requires
                0 <= pitch,
        ;
        lemma_full_rows_are_packed(buffer, pitch, rows - 1);
        assert(packed_rows(buffer, pitch, pitch, rows) == packed_rows(buffer, pitch, pitch, rows - 1)
            + buffer.subrange((rows - 1) * pitch, (rows - 1) * pitch + pitch));
        assert(buffer.subrange(0, (rows - 1) * pitch) + buffer.subrange(
            (rows - 1) * pitch,
            (rows - 1) * pitch + pitch,
        ) =~= buffer.subrange(0, rows * pitch));
    } else {
        assert(rows * pitch == 0) by (nonlinear_arith)
            requires
                rows == 0,
        ;
        assert(buffer.subrange(0, 0) =~= Seq::<u8>::empty());
    }
}

/// The pixels of a `width` by `height` frame whose rows are `row_pitch`
/// bytes apart, four bytes a pixel: each row without its padding. A pitch of
/// exactly four bytes a pixel leaves no padding, so the buffer is then taken
/// as it is; this is the same as packing its rows.
pub fn compact_rows(buffer: &[u8], width: usize, height: usize, row_pitch: usize) -> (r: Vec<u8>)
    requires
        width * 4 <= row_pitch,
        buffer@.len() == height * row_pitch,
    ensures
        r@ == packed_rows(buffer@, width * 4, row_pitch as int, height as int),
{
    if width * 4 == row_pitch {
        proof {
            lemma_full_rows_are_packed(buffer@, row_pitch as int, height as int);
            assert(buffer@.subrange(0, height * row_pitch) =~= buffer@);
        }
        let mut out: Vec<u8> = Vec::new();
        let mut i: usize = 0;
        while i < buffer.len()
            invariant
                i <= buffer@.len(),
                out@ == buffer@.subrange(0, i as int),
            decreases buffer@.len() - i,
        {
            out.push(buffer[i]);
            i += 1;
        }
        assert(out@ =~= buffer@);
        return out;
    }
    let dst_stride = width * 4;
    let mut out: Vec<u8> = Vec::new();
    let mut row: usize = 0;
    let mut src_offset: usize = 0;
    while row < height
        invariant
            row <= height,
            dst_stride == width * 4,
            dst_stride <= row_pitch,
            buffer@.len() == height * row_pitch,
            src_offset == row * row_pitch,
            out@ == packed_rows(buffer@, dst_stride as int, row_pitch as int, row as int),
        decreases height - row,
    {
        assert(src_offset + row_pitch <= height * row_pitch) by (nonlinear_arith)
            requires
                src_offset == row * row_pitch,
                row < height,
        ;
        assert(src_offset + row_pitch <= buffer.len());
        let ghost before = out@;
        let mut k: usize = 0;
        while k < dst_stride
            invariant
                k <= dst_stride,
                dst_stride <= row_pitch,
                src_offset + row_pitch <= buffer.len(),
                out@ == before + buffer@.subrange(src_offset as int, src_offset + k),
            decreases dst_stride - k,
        {
            out.push(buffer[src_offset + k]);
            proof {
                assert(buffer@.subrange(src_offset as int, src_offset + k + 1) =~= buffer@.subrange(
                    src_offset as int,
                    src_offset + k,
                ).push(buffer@[src_offset + k]));
            }
            k += 1;
        }
        assert((row + 1) * row_pitch == row * row_pitch + row_pitch) by (nonlinear_arith);
        proof {
            assert(packed_rows(buffer@, dst_stride as int, row_pitch as int, row + 1) == before
                + buffer@.subrange(src_offset as int, src_offset + dst_stride));
        }
        src_offset = src_offset + row_pitch;
        row += 1;
    }
    out
}

/// Whether a window class name `name` belongs to the class `class`: it is
/// not empty and starts with `class`.
pub open spec fn class_matches(name: Seq<char>, class: Seq<char>) -> bool {
    &&& name.len() > 0
    &&& class.len() <= name.len()
    &&& name.subrange(0, class.len() as int) == class
}

/// Whether the window class name `name` belongs to the class `class`.
pub fn is_class_matched(name: &str, class: &str) -> (r: bool)
    ensures
        r == class_matches(name@, class@),
{
    let n = name.unicode_len();
    if n == 0 {
        return false;
    }
    let c = class.unicode_len();
    if c > n {
        return false;
    }
    let mut i: usize = 0;
    while i < c
        invariant
            i <= c,
            c <= n,
            n == name@.len(),
            c == class@.len(),
            name@.subrange(0, i as int) == class@.subrange(0, i as int),
        decreases c - i,
    {
        if name.get_char(i) != class.get_char(i) {
            assert(name@.subrange(0, c as int)[i as int] != class@[i as int]);
            return false;
        }
        assert(name@.subrange(0, i + 1) =~= name@.subrange(0, i as int).push(name@[i as int]));
        assert(class@.subrange(0, i + 1) =~= class@.subrange(0, i as int).push(class@[i as int]));
        i += 1;
    }
    assert(class@.subrange(0, c as int) =~= class@);
    true
}

/// A window handle that is found by class and kept until its class stops
/// matching.
#[derive(Clone, Copy, Debug, PartialEq, Eq)]
pub struct HandleCache<H> {
    cached: Option<H>,
}

impl<H: Copy> HandleCache<H> {
    /// The handle that is kept.
    pub closed spec fn cached_view(&self) -> Option<H> {
        self.cached
    }

    /// A cache that keeps no handle.
    pub fn new() -> (c: Self)
        ensures
            c.cached_view() is None,
    {
        HandleCache { cached: None }
    }

    /// Whether a handle must be looked up before the kept one can be checked.
    pub fn needs_query(&self) -> (b: bool)
        ensures
            b == self.cached_view() is None,
    {
        self.cached.is_none()
    }

    /// Keeps `queried`, the result of looking a handle up, when none is kept.
    pub fn fill(&mut self, queried: Option<H>)
        ensures
            final(self).cached_view() == match old(self).cached_view() {
                Some(h) => Some(h),
                None => queried,
            },
    {
        if self.cached.is_none() {
            self.cached = queried;
        }
    }

    /// The kept handle, to check its class.
    pub fn candidate(&self) -> (r: Option<H>)
        ensures
            r == self.cached_view(),
    {
        self.cached
    }

    /// The kept handle when its class still matches; otherwise forgets it.
    pub fn confirm(&mut self, class_matched: bool) -> (r: Option<H>)
        ensures
            class_matched ==> r == old(self).cached_view() && final(self).cached_view() == old(
                self,
            ).cached_view(),
            !class_matched ==> r is None && final(self).cached_view() is None,
    {
        if class_matched {
            self.cached
        } else {
            self.cached = None;
            None
        }
    }
}

/// A value that is handed between threads.
#[derive(Debug)]
pub struct SendWrapper<T> {
    inner: T,
}

impl<T> SendWrapper<T> {
    /// The wrapped value.
    pub closed spec fn inner_view(&self) -> T {
        self.inner
    }

    /// Wraps `inner`.
    pub fn new(inner: T) -> (w: Self)
        ensures
            w.inner_view() == inner,
    {
        SendWrapper { inner }
    }

    /// The wrapped value.
    pub fn as_inner(&self) -> (r: &T)
        ensures
            *r == self.inner_view(),
    {
        &self.inner
    }
}

impl<T: Copy> SendWrapper<T> {
    /// A copy of this wrapper.
    pub fn duplicate(&self) -> (w: Self)
        ensures
            w.inner_view() == self.inner_view(),
    {
        SendWrapper { inner: self.inner }
    }
}

} // verus!

verus! {

/// The style bit of a disabled window.
pub const WS_DISABLED_BIT: u32 = 0x0800_0000;

/// The extended style bit of a tool window.
pub const WS_EX_TOOLWINDOW_BIT: u32 = 0x0000_0080;

/// Whether a window can be captured: it is visible, not cloaked, neither
/// disabled nor a tool window, and has a title.
pub open spec fn capturable(
    visible: bool,
    cloaked: u32,
    style: u32,
    ex_style: u32,
    title_len: usize,
) -> bool {
    &&& visible
    &&& cloaked == 0
    &&& style & WS_DISABLED_BIT == 0
    &&& ex_style & WS_EX_TOOLWINDOW_BIT == 0
    &&& title_len != 0
}

/// Whether a window with these attributes is offered for capture.
pub fn is_capturable_window(
    visible: bool,
    cloaked: u32,
    style: u32,
    ex_style: u32,
    title_len: usize,
) -> (r: bool)
    ensures
        r == capturable(visible, cloaked, style, ex_style, title_len),
{
    if !visible {
        return false;
    }
    if cloaked != 0 {
        return false;
    }
    if style & WS_DISABLED_BIT != 0 || ex_style & WS_EX_TOOLWINDOW_BIT != 0 {
        return false;
    }
    title_len != 0
}

} // verus!
