//! Pixel formats, host-memory pixel buffers, and GPU texture descriptors.
//!
//! The format registry is a closed enumeration: every texture resolves to
//! exactly one [`PixelFormat`], so an unregistered pixel type cannot be
//! constructed. A [`CpuTexture`] is the upload/download payload with verified
//! 2D indexing and clamped/wrapped neighbor sampling. A [`Texture`] owns one
//! GPU texture object as a plain descriptor (handle, extent, format); the
//! driver calls themselves are issued by the unverified shell from the
//! descriptors this module computes.

use vstd::prelude::*;

verus! {

use crate::RenderError;
use vstd::arithmetic::div_mod::{
    lemma_fundamental_div_mod,
    lemma_fundamental_div_mod_converse,
    lemma_mod_add_multiples_vanish,
    lemma_mod_bound,
};
use vstd::arithmetic::mul::{
    lemma_mul_inequality,
    lemma_mul_is_distributive_sub,
    lemma_mul_is_commutative,
};
use vstd::slice::slice_subrange;

/// Native storage format ids, as the graphics API numbers them.
pub const GL_RGBA32F: u32 = 0x8814;

pub const GL_RGBA8: u32 = 0x8058;

pub const GL_R16: u32 = 0x822A;

pub const GL_R32UI: u32 = 0x8236;

/// Transfer element type ids.
pub const GL_UNSIGNED_BYTE: u32 = 0x1401;

pub const GL_UNSIGNED_SHORT: u32 = 0x1403;

pub const GL_UNSIGNED_NORMALIZED: u32 = 0x8C17;

/// The access mode a bound image unit is given.
pub const GL_READ_WRITE: u32 = 0x88BA;

/// The supported pixel-element layouts. The mapping from layout to native
/// storage format, transfer semantics and byte size is total and fixed here:
/// a texture of an unregistered layout cannot be expressed.
#[derive(Clone, Copy, PartialEq, Eq, Structural, Debug)]
pub enum PixelFormat {
    /// Four 32-bit floating-point channels.
    Rgba32F,
    /// Four 8-bit normalized-integer channels.
    Rgba8,
    /// One 16-bit normalized-integer channel.
    R16,
    /// One 32-bit unsigned-integer channel.
    R32Ui,
}

impl PixelFormat {
    /// The native storage format id of this layout.
    pub open spec fn spec_internalformat(self) -> u32 {
        match self {
            PixelFormat::Rgba32F => GL_RGBA32F,
            PixelFormat::Rgba8 => GL_RGBA8,
            PixelFormat::R16 => GL_R16,
            PixelFormat::R32Ui => GL_R32UI,
        }
    }

    pub fn internalformat(&self) -> (r: u32)
        ensures
            r == self.spec_internalformat(),
    {
        match self {
            PixelFormat::Rgba32F => GL_RGBA32F,
            PixelFormat::Rgba8 => GL_RGBA8,
            PixelFormat::R16 => GL_R16,
            PixelFormat::R32Ui => GL_R32UI,
        }
    }

    /// The byte size of one element of this layout.
    pub open spec fn spec_element_size(self) -> usize {
        match self {
            PixelFormat::Rgba32F => 16,
            PixelFormat::Rgba8 => 4,
            PixelFormat::R16 => 2,
            PixelFormat::R32Ui => 4,
        }
    }

    pub fn element_size(&self) -> (r: usize)
        ensures
            r == self.spec_element_size(),
            1 <= r <= 16,
    {
        match self {
            PixelFormat::Rgba32F => 16,
            PixelFormat::Rgba8 => 4,
            PixelFormat::R16 => 2,
            PixelFormat::R32Ui => 4,
        }
    }

    /// Corrects the transfer element type the driver reports for an upload.
    /// The normalized-integer layouts are uploaded as straight bytes or
    /// shorts, but the driver reports the "normalized" sampling type for
    /// them; handing that type back corrupts pixel data silently, so the
    /// registry, not call sites, owns this correction.
    pub fn upload_transfer_type(&self, reported: u32) -> (r: u32)
        ensures
            self is Rgba8 && reported == GL_UNSIGNED_NORMALIZED ==> r == GL_UNSIGNED_BYTE,
            self is R16 && reported == GL_UNSIGNED_NORMALIZED ==> r == GL_UNSIGNED_SHORT,
            !(self is Rgba8 || self is R16) || reported != GL_UNSIGNED_NORMALIZED ==> r
                == reported,
    {
        if reported == GL_UNSIGNED_NORMALIZED {
            match self {
                PixelFormat::Rgba8 => GL_UNSIGNED_BYTE,
                PixelFormat::R16 => GL_UNSIGNED_SHORT,
                _ => reported,
            }
        } else {
            reported
        }
    }
}

/// Clamps a coordinate into `[0, n)`.
pub open spec fn clamp_coord(v: int, n: int) -> int {
    if v < 0 {
        0
    } else if v >= n {
        n - 1
    } else {
        v
    }
}

/// Wraps a coordinate into `[0, n)` with period `n` (Euclidean remainder).
pub open spec fn wrap_coord(v: int, n: int) -> int {
    v % n
}

/// A host-memory pixel buffer: a flat row-major sequence of elements with a
/// 2D extent. The sequence may hold trailing padding past `width * height`;
/// only that logical prefix is meaningful.
#[derive(Debug)]
pub struct CpuTexture<T> {
    pub data: Vec<T>,
    pub size: (usize, usize),
}

impl<T> CpuTexture<T> {
    /// The full underlying sequence, padding included.
    pub open spec fn spec_data(&self) -> Seq<T> {
        self.data@
    }

    /// The buffer's invariant: the sequence covers the full extent.
    pub open spec fn wf(&self) -> bool {
        self.spec_data().len() >= (self.size.0 as int) * (self.size.1 as int)
    }

    /// The logical contents: the first `width * height` elements.
    pub open spec fn logical(&self) -> Seq<T> {
        self.spec_data().subrange(0, (self.size.0 as int) * (self.size.1 as int))
    }

    /// The element at `(x, y)`, row-major.
    pub open spec fn pixel(&self, x: int, y: int) -> T {
        self.spec_data()[y * (self.size.0 as int) + x]
    }

    /// The element the clamped sampler yields at `(x, y)`.
    pub open spec fn clamped_pixel(&self, x: int, y: int) -> T {
        self.pixel(clamp_coord(x, self.size.0 as int), clamp_coord(y, self.size.1 as int))
    }

    /// The element the wrapped sampler yields at `(x, y)`.
    pub open spec fn wrapped_pixel(&self, x: int, y: int) -> T {
        self.pixel(wrap_coord(x, self.size.0 as int), wrap_coord(y, self.size.1 as int))
    }

    /// Wraps a sequence of at least `width * height` elements; the trailing
    /// padding, if any, is kept but never meaningful.
    pub fn new(data: Vec<T>, size: (usize, usize)) -> (r: Self)
        requires
            data@.len() >= (size.0 as int) * (size.1 as int),
        ensures
            r.size == size,
            r.spec_data() == data@,
            r.wf(),
    {
        Self { data, size }
    }

    /// The logical contents as a slice: exactly the first `width * height`
    /// elements, with any padding cut off.
    pub fn data(&self) -> (r: &[T])
        requires
            self.wf(),
        ensures
            r@ == self.logical(),
    {
        proof {
            broadcast use vstd::std_specs::vec::axiom_spec_len;

            lemma_mul_nonneg_usize(self.size.0, self.size.1);
            assert(vstd::std_specs::vec::spec_vec_len(&self.data) == self.data@.len());
        }
        let count: usize = self.size.0 * self.size.1;
        slice_subrange(self.data.as_slice(), 0, count)
    }

    /// Whether the buffer carries trailing padding past its extent.
    pub fn data_too_long(&self) -> (r: bool)
        requires
            self.wf(),
        ensures
            r == (self.spec_data().len() > (self.size.0 as int) * (self.size.1 as int)),
    {
        proof {
            broadcast use vstd::std_specs::vec::axiom_spec_len;

            lemma_mul_nonneg_usize(self.size.0, self.size.1);
            assert(vstd::std_specs::vec::spec_vec_len(&self.data) == self.data@.len());
        }
        self.data.len() > self.size.0 * self.size.1
    }

    /// The element at `(x, y)`. Out-of-range coordinates are excluded by
    /// contract; [`Self::get`] is the total variant.
    pub fn index(&self, pos: (usize, usize)) -> (r: &T)
        requires
            self.wf(),
            pos.0 < self.size.0,
            pos.1 < self.size.1,
        ensures
            *r == self.pixel(pos.0 as int, pos.1 as int),
    {
        proof {
            broadcast use vstd::std_specs::vec::axiom_spec_len;

            assert(vstd::std_specs::vec::spec_vec_len(&self.data) == self.data@.len());
            lemma_flat_index_in_range(
                self.size.0 as int,
                self.size.1 as int,
                pos.0 as int,
                pos.1 as int,
            );
        }
        &self.data[self.size.0 * pos.1 + pos.0]
    }

    /// The element at `(x, y)`, or `None` exactly when either coordinate is
    /// out of range.
    pub fn get(&self, pos: (usize, usize)) -> (r: Option<&T>)
        requires
            self.wf(),
        ensures
            pos.0 < self.size.0 && pos.1 < self.size.1 <==> r is Some,
            r matches Some(v) ==> *v == self.pixel(pos.0 as int, pos.1 as int),
    {
        if pos.0 < self.size.0 && pos.1 < self.size.1 {
            Some(self.index(pos))
        } else {
            None
        }
    }

    /// Overwrites the element at `(x, y)`.
    pub fn set(&mut self, pos: (usize, usize), value: T)
        requires
            old(self).wf(),
            pos.0 < old(self).size.0,
            pos.1 < old(self).size.1,
        ensures
            final(self).size == old(self).size,
            final(self).spec_data() == old(self).spec_data().update(
                (pos.1 as int) * (old(self).size.0 as int) + pos.0 as int,
                value,
            ),
            final(self).wf(),
    {
        proof {
            broadcast use vstd::std_specs::vec::axiom_spec_len;

            assert(vstd::std_specs::vec::spec_vec_len(&self.data) == self.data@.len());
            lemma_flat_index_in_range(
                self.size.0 as int,
                self.size.1 as int,
                pos.0 as int,
                pos.1 as int,
            );
        }
        let k: usize = self.size.0 * pos.1 + pos.0;
        self.data[k] = value;
    }

    /// The element at `pos` together with its four axis neighbors, each
    /// clamped to the buffer's edge where `pos` already sits on it.
    pub fn mid_left_right_up_down(&self, pos: (usize, usize)) -> (r: (&T, &T, &T, &T, &T))
        requires
            self.wf(),
            pos.0 < self.size.0,
            pos.1 < self.size.1,
        ensures
            *r.0 == self.pixel(pos.0 as int, pos.1 as int),
            *r.1 == self.clamped_pixel(pos.0 as int - 1, pos.1 as int),
            *r.2 == self.clamped_pixel(pos.0 as int + 1, pos.1 as int),
            *r.3 == self.clamped_pixel(pos.0 as int, pos.1 as int - 1),
            *r.4 == self.clamped_pixel(pos.0 as int, pos.1 as int + 1),
    {
        let mid = self.index(pos);
        let left = if pos.0 == 0 {
            mid
        } else {
            self.index((pos.0 - 1, pos.1))
        };
        let right = if pos.0 + 1 == self.size.0 {
            mid
        } else {
            self.index((pos.0 + 1, pos.1))
        };
        let up = if pos.1 == 0 {
            mid
        } else {
            self.index((pos.0, pos.1 - 1))
        };
        let down = if pos.1 + 1 == self.size.1 {
            mid
        } else {
            self.index((pos.0, pos.1 + 1))
        };
        (mid, left, right, up, down)
    }

    /// Samples at `(x, y)` with each coordinate clamped into range: inside
    /// the extent this is direct indexing; outside it yields the boundary
    /// element.
    pub fn get_clamped(&self, x: isize, y: isize) -> (r: &T)
        requires
            self.wf(),
            1 <= self.size.0 <= isize::MAX,
            1 <= self.size.1 <= isize::MAX,
        ensures
            *r == self.clamped_pixel(x as int, y as int),
    {
        let cx: isize = if x < 0 {
            0
        } else if x >= self.size.0 as isize {
            self.size.0 as isize - 1
        } else {
            x
        };
        let cy: isize = if y < 0 {
            0
        } else if y >= self.size.1 as isize {
            self.size.1 as isize - 1
        } else {
            y
        };
        self.index((cx as usize, cy as usize))
    }

    /// Samples at `(x, y)` with each coordinate wrapped by the extent
    /// (Euclidean remainder), making the buffer periodic in both axes.
    pub fn get_wrapped(&self, x: isize, y: isize) -> (r: &T)
        requires
            self.wf(),
            1 <= self.size.0 <= isize::MAX,
            1 <= self.size.1 <= isize::MAX,
        ensures
            *r == self.wrapped_pixel(x as int, y as int),
    {
        let wx: usize = euclid_rem(x, self.size.0);
        let wy: usize = euclid_rem(y, self.size.1);
        self.index((wx, wy))
    }

    /// Every position of the extent in row-major order.
    pub fn iter_index(&self) -> (r: Vec<(usize, usize)>)
        requires
            (self.size.0 as int) * (self.size.1 as int) <= usize::MAX,
        ensures
            r@.len() == (self.size.0 as int) * (self.size.1 as int),
            forall|xx: int, yy: int|
                0 <= xx < self.size.0 && 0 <= yy < self.size.1 ==> #[trigger] r@[yy * (
                    self.size.0 as int) + xx] == ((xx as usize), (yy as usize)),
    {
        let w = self.size.0;
        let h = self.size.1;
        let mut r: Vec<(usize, usize)> = Vec::new();
        let mut y: usize = 0;
        while y < h
            invariant
                0 <= y <= h,
                (w as int) * (h as int) <= usize::MAX,
                r@.len() == y * (w as int),
                forall|xx: int, yy: int|
                    0 <= xx < w && 0 <= yy < y ==> #[trigger] r@[yy * (w as int) + xx] == (
                        (xx as usize),
                        (yy as usize),
                    ),
            decreases h - y,
        {
            let mut x: usize = 0;
            while x < w
                invariant
                    0 <= x <= w,
                    0 <= y < h,
                    (w as int) * (h as int) <= usize::MAX,
                    r@.len() == y * (w as int) + x,
                    forall|xx: int, yy: int|
                        0 <= xx < w && 0 <= yy < y ==> #[trigger] r@[yy * (w as int) + xx] == (
                            (xx as usize),
                            (yy as usize),
                        ),
                    forall|xx: int|
                        0 <= xx < x ==> #[trigger] r@[y * (w as int) + xx] == (
                            (xx as usize),
                            (y as usize),
                        ),
                decreases w - x,
            {
                proof {
                    lemma_flat_index_in_range(w as int, h as int, x as int, y as int);
                }
                r.push((x, y));
                x += 1;
                proof {
                    lemma_row_prefix_stable(w as int, y as int);
                }
            }
            y += 1;
            proof {
                lemma_mul_is_distributive_sub(w as int, y as int, 1);
                lemma_mul_is_commutative(w as int, y as int);
                lemma_mul_is_commutative(w as int, y as int - 1);
            }
        }
        proof {
            lemma_mul_is_commutative(w as int, h as int);
        }
        r
    }
}

impl<T: Copy> CpuTexture<T> {
    /// A buffer of the given extent with every element set to `data`.
    pub fn new_val(data: T, size: (usize, usize)) -> (r: Self)
        requires
            (size.0 as int) * (size.1 as int) <= usize::MAX,
        ensures
            r.size == size,
            r.spec_data() == Seq::new(((size.0 as int) * (size.1 as int)) as nat, |i: int| data),
            r.wf(),
    {
        proof {
            lemma_mul_nonneg_usize(size.0, size.1);
        }
        let count: usize = size.0 * size.1;
        let mut v: Vec<T> = Vec::new();
        let mut k: usize = 0;
        while k < count
            invariant
                0 <= k <= count,
                v@ =~= Seq::new(k as nat, |i: int| data),
            decreases count - k,
        {
            v.push(data);
            k += 1;
        }
        proof {
            assert(v@ =~= Seq::new(count as nat, |i: int| data));
        }
        Self { data: v, size }
    }
}

/// The Euclidean remainder of `v` by the extent `n`, as a `usize` in
/// `[0, n)`.
fn euclid_rem(v: isize, n: usize) -> (r: usize)
    requires
        1 <= n <= isize::MAX,
    ensures
        r == wrap_coord(v as int, n as int),
        r < n,
{
    if v >= 0 {
        (v as usize) % n
    } else {
        let m: usize = ((-(v + 1)) as usize) % n;
        proof {
            lemma_euclid_rem_negative(v as int, n as int);
            lemma_mod_bound(-(v as int) - 1, n as int);
        }
        n - 1 - m
    }
}

/// For a negative coordinate, the Euclidean remainder mirrors the remainder
/// of the reflected coordinate.
proof fn lemma_euclid_rem_negative(a: int, w: int)
    requires
        a < 0,
        w >= 1,
    ensures
        a % w == w - 1 - ((-a - 1) % w),
{
    let b = -a - 1;
    lemma_fundamental_div_mod(b, w);
    lemma_mod_bound(b, w);
    let q = b / w;
    let m = b % w;
    assert(a == -(w * q + m) - 1);
    assert(a == (-q - 1) * w + (w - 1 - m)) by (nonlinear_arith)
        requires
            a == -(w * q + m) - 1,
    ;
    lemma_fundamental_div_mod_converse(a, w, -q - 1, w - 1 - m);
}

/// A row-major flat index lies strictly inside the extent's element count.
proof fn lemma_flat_index_in_range(w: int, h: int, x: int, y: int)
    requires
        0 <= x < w,
        0 <= y < h,
    ensures
        0 <= y * w + x < h * w,
        y * w + x < w * h,
        0 <= w * y + x < w * h,
{
    lemma_mul_inequality(y, h - 1, w);
    lemma_mul_is_distributive_sub(w, h, 1);
    lemma_mul_is_commutative(w, h);
    lemma_mul_is_commutative(y, w);
    lemma_mul_is_commutative(h, w);
    vstd::arithmetic::mul::lemma_mul_nonnegative(y, w);
}

/// Earlier rows' flat indices lie below the current row's start.
proof fn lemma_row_prefix_stable(w: int, y: int)
    requires
        w >= 0,
    ensures
        forall|xx: int, yy: int|
            0 <= xx < w && 0 <= yy < y ==> #[trigger] (yy * w + xx) < y * w,
{
    assert forall|xx: int, yy: int| 0 <= xx < w && 0 <= yy < y implies #[trigger] (yy * w + xx)
        < y * w by {
        lemma_mul_inequality(yy, y - 1, w);
        lemma_mul_is_distributive_sub(w, y, 1);
        lemma_mul_is_commutative(w, y);
        lemma_mul_is_commutative(w, y - 1);
        lemma_mul_is_commutative(yy, w);
    }
}

/// The product of two `usize` extents is nonnegative.
proof fn lemma_mul_nonneg_usize(a: usize, b: usize)
    ensures
        0 <= (a as int) * (b as int),
{
    vstd::arithmetic::mul::lemma_mul_nonnegative(a as int, b as int);
}

/// Maps a step `delta` from `coord`, yielding the new position exactly when
/// it stays inside the extent.
pub fn offset(coord: (usize, usize), delta: (isize, isize), size: (usize, usize)) -> (r: Option<
    (usize, usize),
>)
    requires
        coord.0 <= isize::MAX,
        coord.1 <= isize::MAX,
        size.0 <= isize::MAX,
        size.1 <= isize::MAX,
    ensures
        r is Some <==> 0 <= coord.0 + delta.0 < size.0 && 0 <= coord.1 + delta.1 < size.1,
        r matches Some(p) ==> p.0 == coord.0 + delta.0 && p.1 == coord.1 + delta.1,
{
    let nx = match (coord.0 as isize).checked_add(delta.0) {
        Some(v) => v,
        None => { return None; },
    };
    let ny = match (coord.1 as isize).checked_add(delta.1) {
        Some(v) => v,
        None => { return None; },
    };
    if nx < 0 || ny < 0 {
        return None;
    }
    if (nx as usize) >= size.0 || (ny as usize) >= size.1 {
        None
    } else {
        Some((nx as usize, ny as usize))
    }
}

/// In-bounds clamped sampling is direct indexing; outside the extent the
/// boundary element is yielded.
pub proof fn lemma_get_clamped_matches_indexing<T>(buf: CpuTexture<T>, x: int, y: int)
    requires
        1 <= buf.size.0,
        1 <= buf.size.1,
    ensures
        0 <= x < buf.size.0 && 0 <= y < buf.size.1 ==> buf.clamped_pixel(x, y) == buf.pixel(x, y),
        x < 0 && y < 0 ==> buf.clamped_pixel(x, y) == buf.pixel(0, 0),
        x >= buf.size.0 && 0 <= y < buf.size.1 ==> buf.clamped_pixel(x, y) == buf.pixel(
            buf.size.0 as int - 1,
            y,
        ),
        x < 0 && 0 <= y < buf.size.1 ==> buf.clamped_pixel(x, y) == buf.pixel(0, y),
        0 <= x < buf.size.0 && y >= buf.size.1 ==> buf.clamped_pixel(x, y) == buf.pixel(
            x,
            buf.size.1 as int - 1,
        ),
        0 <= x < buf.size.0 && y < 0 ==> buf.clamped_pixel(x, y) == buf.pixel(x, 0),
{
}

/// Wrapped sampling is periodic: stepping a full extent along each axis
/// yields the same element, for every integer coordinate.
pub proof fn lemma_get_wrapped_periodic<T>(buf: CpuTexture<T>, x: int, y: int)
    requires
        1 <= buf.size.0,
        1 <= buf.size.1,
    ensures
        buf.wrapped_pixel(x, y) == buf.wrapped_pixel(x + buf.size.0, y + buf.size.1),
{
    lemma_mod_add_multiples_vanish(x, buf.size.0 as int);
    lemma_mod_add_multiples_vanish(y, buf.size.1 as int);
}

/// The driver-call parameters of one full-extent texture transfer
/// (upload or download), all plain values.
#[derive(Clone, Copy, Debug)]
pub struct TransferDesc {
    /// The texture object the transfer addresses.
    pub texture_id: u32,
    /// The extent, in the driver's signed sizes.
    pub width: i32,
    pub height: i32,
    /// The native storage format id.
    pub internalformat: u32,
    /// The number of elements the payload must hold.
    pub pixel_count: usize,
    /// The byte size of the payload.
    pub byte_len: usize,
}

/// The driver-call parameters of binding a texture to an image unit for
/// random-access read/write in a compute stage.
#[derive(Clone, Copy, Debug)]
pub struct BindDesc {
    pub unit: u32,
    pub texture_id: u32,
    pub access: u32,
    pub internalformat: u32,
}

/// A GPU texture descriptor: the exclusively owned native handle, the
/// immutable extent, and the pixel format. A live descriptor's handle is
/// nonzero; releasing it consumes the descriptor, so a second release, or a
/// bind or transfer after release, is a type error rather than a runtime one.
#[derive(Debug)]
pub struct Texture {
    pub id: u32,
    pub size: (usize, usize),
    pub format: PixelFormat,
}

impl Texture {
    /// The descriptor's invariant: a live handle and an extent the driver's
    /// signed sizes and the host's byte counts can carry.
    pub open spec fn wf(&self) -> bool {
        &&& self.id != 0
        &&& 1 <= self.size.0 <= 0x7FFFFFFF
        &&& 1 <= self.size.1 <= 0x7FFFFFFF
        &&& (self.size.0 as int) * (self.size.1 as int) * 16 <= usize::MAX
    }

    /// Adopts the handle a fresh allocation call returned. The driver hands
    /// out zero exactly when allocation failed, and that failure is
    /// propagated here as [`RenderError::ResourceError`].
    pub fn new(id: u32, size: (usize, usize), format: PixelFormat) -> (r: Result<Self, RenderError>)
        requires
            1 <= size.0 <= 0x7FFFFFFF,
            1 <= size.1 <= 0x7FFFFFFF,
            (size.0 as int) * (size.1 as int) * 16 <= usize::MAX,
        ensures
            r is Ok <==> id != 0,
            id == 0 ==> r == Result::<Self, RenderError>::Err(RenderError::ResourceError),
            r matches Ok(t) ==> t.id == id && t.size == size && t.format == format && t.wf(),
    {
        if id == 0 {
            Err(RenderError::ResourceError)
        } else {
            Ok(Self { id, size, format })
        }
    }

    /// The parameters of a full-extent transfer against this texture.
    pub fn transfer_desc(&self) -> (r: TransferDesc)
        requires
            self.wf(),
        ensures
            r.texture_id == self.id,
            r.width == self.size.0 as i32,
            r.height == self.size.1 as i32,
            r.internalformat == self.format.spec_internalformat(),
            r.pixel_count == (self.size.0 as int) * (self.size.1 as int),
            r.byte_len == (self.size.0 as int) * (self.size.1 as int) * (
            self.format.spec_element_size() as int),
    {
        proof {
            lemma_mul_nonneg_usize(self.size.0, self.size.1);
            lemma_transfer_byte_len_fits(
                self.size.0 as int,
                self.size.1 as int,
                self.format.spec_element_size() as int,
            );
        }
        let pixel_count: usize = self.size.0 * self.size.1;
        let byte_len: usize = pixel_count * self.format.element_size();
        TransferDesc {
            texture_id: self.id,
            width: self.size.0 as i32,
            height: self.size.1 as i32,
            internalformat: self.format.internalformat(),
            pixel_count,
            byte_len,
        }
    }

    /// Validates an upload: the payload buffer's extent must equal the
    /// texture's, else [`RenderError::SizeMismatch`]; on success the driver
    /// shell copies the buffer's logical contents over the texture's full
    /// extent as this descriptor directs.
    pub fn upload<T>(&self, cpu_texture: &CpuTexture<T>) -> (r: Result<TransferDesc, RenderError>)
        requires
            self.wf(),
            cpu_texture.wf(),
        ensures
            r is Ok <==> cpu_texture.size == self.size,
            cpu_texture.size != self.size ==> r == Result::<TransferDesc, RenderError>::Err(
                RenderError::SizeMismatch,
            ),
            r matches Ok(d) ==> {
                &&& d.texture_id == self.id
                &&& d.width == self.size.0 as i32
                &&& d.height == self.size.1 as i32
                &&& d.internalformat == self.format.spec_internalformat()
                &&& d.pixel_count == cpu_texture.logical().len()
                &&& d.byte_len == (self.size.0 as int) * (self.size.1 as int) * (
                self.format.spec_element_size() as int)
            },
    {
        if cpu_texture.size.0 != self.size.0 || cpu_texture.size.1 != self.size.1 {
            Err(RenderError::SizeMismatch)
        } else {
            proof {
                lemma_mul_nonneg_usize(self.size.0, self.size.1);
            }
            Ok(self.transfer_desc())
        }
    }

    /// Wraps the elements a driver-side readback returned into a buffer of
    /// this texture's extent; a payload of the wrong length is rejected as
    /// [`RenderError::SizeMismatch`].
    pub fn download<T>(&self, pixels: Vec<T>) -> (r: Result<CpuTexture<T>, RenderError>)
        requires
            self.wf(),
        ensures
            r is Ok <==> pixels@.len() == (self.size.0 as int) * (self.size.1 as int),
            pixels@.len() != (self.size.0 as int) * (self.size.1 as int) ==> r
                == Result::<CpuTexture<T>, RenderError>::Err(RenderError::SizeMismatch),
            r matches Ok(b) ==> {
                &&& b.size == self.size
                &&& b.spec_data() == pixels@
                &&& b.wf()
            },
    {
        proof {
            lemma_mul_nonneg_usize(self.size.0, self.size.1);
        }
        let pixel_count: usize = self.size.0 * self.size.1;
        if pixels.len() != pixel_count {
            Err(RenderError::SizeMismatch)
        } else {
            Ok(CpuTexture::new(pixels, self.size))
        }
    }

    /// The parameters of exposing this texture at an image unit with
    /// read/write access.
    pub fn bind(&self, unit: u32) -> (r: BindDesc)
        requires
            self.wf(),
        ensures
            r.unit == unit,
            r.texture_id == self.id,
            r.access == GL_READ_WRITE,
            r.internalformat == self.format.spec_internalformat(),
    {
        BindDesc {
            unit,
            texture_id: self.id,
            access: GL_READ_WRITE,
            internalformat: self.format.internalformat(),
        }
    }

    /// Releases ownership of the native handle, handing it back for the
    /// driver shell to delete. Consuming the descriptor makes a second
    /// release, or any later use, a type error.
    pub fn destroy(self) -> (r: u32)
        ensures
            r == self.id,
    {
        self.id
    }
}

/// The byte length of a transfer fits the host's sizes, because the
/// element size is at most 16.
proof fn lemma_transfer_byte_len_fits(w: int, h: int, e: int)
    requires
        0 <= w,
        0 <= h,
        1 <= e <= 16,
        w * h * 16 <= usize::MAX,
    ensures
        0 <= w * h * e <= usize::MAX,
{
    vstd::arithmetic::mul::lemma_mul_nonnegative(w, h);
    vstd::arithmetic::mul::lemma_mul_nonnegative(w * h, e);
    lemma_mul_inequality(e, 16, w * h);
    lemma_mul_is_commutative(w * h, e);
    lemma_mul_is_commutative(w * h, 16);
}

/// Round-trip law: uploading a buffer transfers exactly its logical
/// contents, and a download whose payload is those contents yields a buffer
/// whose every pixel equals the uploaded one. Padding past the extent does
/// not survive the trip; the logical contents do, bit for bit.
pub proof fn lemma_upload_download_round_trip<T>(uploaded: CpuTexture<T>, downloaded: CpuTexture<T>)
    requires
        uploaded.wf(),
        downloaded.size == uploaded.size,
        downloaded.spec_data() == uploaded.logical(),
    ensures
        downloaded.wf(),
        downloaded.logical() == uploaded.logical(),
        forall|x: int, y: int|
            0 <= x < uploaded.size.0 && 0 <= y < uploaded.size.1 ==> downloaded.pixel(x, y)
                == uploaded.pixel(x, y),
{
    let w = uploaded.size.0 as int;
    let h = uploaded.size.1 as int;
    vstd::arithmetic::mul::lemma_mul_nonnegative(w, h);
    assert(downloaded.logical() =~= uploaded.logical());
    assert forall|x: int, y: int| 0 <= x < w && 0 <= y < h implies downloaded.pixel(x, y)
        == uploaded.pixel(x, y) by {
        lemma_flat_index_in_range(w, h, x, y);
    }
}

} // verus!
