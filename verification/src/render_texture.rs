//! The quad renderer: one compiled program plus its uniform locations, and a
//! single-use render-parameter builder that turns pixel-space source and
//! destination rectangles into the normalized coordinates the vertex stage
//! consumes.
//!
//! Every continuous quantity is carried as an exact fraction, so the
//! normalization (division by texture and screen extents) and the clip-space
//! transform are verified arithmetic; the unverified shell only divides each
//! fraction out when it sets the uniforms and issues the one draw call.

use vstd::prelude::*;

verus! {

use crate::{Rect, RenderError};
use crate::texture::Texture;

/// An exact fraction with a positive denominator.
#[derive(Clone, Copy, Debug)]
pub struct Frac {
    pub num: i64,
    pub den: i64,
}

/// Two fractions denote the same rational.
pub open spec fn frac_eq(a: Frac, b: Frac) -> bool {
    a.num * b.den == b.num * a.den
}

impl Frac {
    pub open spec fn wf(&self) -> bool {
        self.den >= 1
    }

    /// The whole number `num`, as a fraction over 1.
    pub fn whole(num: i64) -> (r: Self)
        ensures
            r.num == num,
            r.den == 1,
            r.wf(),
    {
        Self { num, den: 1 }
    }
}

/// An RGBA color, each channel an exact fraction (1 denoting full
/// intensity).
#[derive(Clone, Copy, Debug)]
pub struct ColorRgba {
    pub red: Frac,
    pub green: Frac,
    pub blue: Frac,
    pub alpha: Frac,
}

impl ColorRgba {
    /// The default tint: opaque white, which leaves the sampled color
    /// unchanged.
    pub fn opaque_white() -> (r: Self)
        ensures
            r == spec_opaque_white(),
    {
        ColorRgba {
            red: Frac { num: 1, den: 1 },
            green: Frac { num: 1, den: 1 },
            blue: Frac { num: 1, den: 1 },
            alpha: Frac { num: 1, den: 1 },
        }
    }
}

pub open spec fn spec_opaque_white() -> ColorRgba {
    ColorRgba {
        red: Frac { num: 1, den: 1 },
        green: Frac { num: 1, den: 1 },
        blue: Frac { num: 1, den: 1 },
        alpha: Frac { num: 1, den: 1 },
    }
}

/// The identity sample transform: scale 1, offset 0.
pub open spec fn spec_identity_scale_offset() -> (Frac, Frac) {
    (Frac { num: 1, den: 1 }, Frac { num: 0, den: 1 })
}

/// A rectangle with all four quantities normalized by an extent: each
/// fraction lies in `[0, 1]` when the pixel rectangle lies inside the
/// extent.
#[derive(Clone, Copy, Debug)]
pub struct NormRect {
    pub x: Frac,
    pub y: Frac,
    pub width: Frac,
    pub height: Frac,
}

/// Normalizes a pixel-space rectangle by the extent `(w, h)`: positions and
/// sizes along each axis are divided by that axis's extent, exactly.
pub open spec fn spec_normalize(rect: Rect<i64>, w: i64, h: i64) -> NormRect {
    NormRect {
        x: Frac { num: rect.x, den: w },
        y: Frac { num: rect.y, den: h },
        width: Frac { num: rect.width, den: w },
        height: Frac { num: rect.height, den: h },
    }
}

/// One quad draw, fully determined: the program and vertex array to bind,
/// the texture to sample, the normalized source and destination rectangles,
/// the tint, the sample transform, and the texture's extent for the
/// minification-averaging fragment variant.
#[derive(Clone, Copy, Debug)]
pub struct DrawCommand {
    pub program: u32,
    pub vertex_array: u32,
    pub texture_id: u32,
    pub src_pos_size: NormRect,
    pub dst_pos_size: NormRect,
    pub tint: ColorRgba,
    pub scale_offset: (Frac, Frac),
    pub img_size: (i32, i32),
}

/// Accepts a uniform location the driver reported: `-1` means the uniform is
/// absent from the linked program, which for a required uniform is
/// [`RenderError::UniformNotFound`].
pub fn uniform(location: i32) -> (r: Result<i32, RenderError>)
    ensures
        r is Ok <==> location != -1,
        r matches Ok(l) ==> l == location,
        location == -1 ==> r == Result::<i32, RenderError>::Err(RenderError::UniformNotFound),
{
    if location == -1 {
        Err(RenderError::UniformNotFound)
    } else {
        Ok(location)
    }
}

/// The uniform locations the driver reported for a freshly linked quad
/// program, `-1` denoting an absent uniform.
#[derive(Clone, Copy, Debug)]
pub struct UniformLocations {
    pub src_pos_size: i32,
    pub dst_pos_size: i32,
    pub tint: i32,
    pub scale_offset: i32,
    pub img_size: i32,
}

/// One compiled quad program and its resolved uniform locations. The four
/// rectangle/tint/transform uniforms are required; the image-size uniform is
/// optional (only the minification-averaging fragment variant declares it),
/// and when absent that feature is silently disabled.
#[derive(Debug)]
pub struct TextureRenderer {
    pub program: u32,
    pub dummy_buffer: u32,
    pub src_pos_size_location: i32,
    pub dst_pos_size_location: i32,
    pub tint_location: i32,
    pub scale_offset_location: i32,
    pub img_size_location: Option<i32>,
}

impl TextureRenderer {
    pub open spec fn wf(&self) -> bool {
        &&& self.program != 0
        &&& self.src_pos_size_location != -1
        &&& self.dst_pos_size_location != -1
        &&& self.tint_location != -1
        &&& self.scale_offset_location != -1
        &&& self.img_size_location != Some(-1i32)
    }

    /// Adopts a linked program and the uniform locations the driver reported
    /// for it. Any required uniform reported absent is
    /// [`RenderError::UniformNotFound`]; an absent image-size uniform merely
    /// disables the minification feature.
    pub fn new(program: u32, dummy_buffer: u32, locations: UniformLocations) -> (r: Result<
        Self,
        RenderError,
    >)
        requires
            program != 0,
        ensures
            r is Ok <==> locations.src_pos_size != -1 && locations.dst_pos_size != -1
                && locations.tint != -1 && locations.scale_offset != -1,
            r is Err ==> r == Result::<Self, RenderError>::Err(RenderError::UniformNotFound),
            r matches Ok(t) ==> {
                &&& t.program == program
                &&& t.dummy_buffer == dummy_buffer
                &&& t.src_pos_size_location == locations.src_pos_size
                &&& t.dst_pos_size_location == locations.dst_pos_size
                &&& t.tint_location == locations.tint
                &&& t.scale_offset_location == locations.scale_offset
                &&& t.img_size_location == (if locations.img_size == -1 {
                    Option::<i32>::None
                } else {
                    Option::<i32>::Some(locations.img_size)
                })
                &&& t.wf()
            },
    {
        let src_pos_size_location = uniform(locations.src_pos_size)?;
        let dst_pos_size_location = uniform(locations.dst_pos_size)?;
        let tint_location = uniform(locations.tint)?;
        let scale_offset_location = uniform(locations.scale_offset)?;
        let img_size_location = if locations.img_size == -1 {
            None
        } else {
            Some(locations.img_size)
        };
        Ok(Self {
            program,
            dummy_buffer,
            src_pos_size_location,
            dst_pos_size_location,
            tint_location,
            scale_offset_location,
            img_size_location,
        })
    }

    /// Begins a render of `texture` onto a screen of the given pixel extent;
    /// the returned builder is refined by its setters and consumed exactly
    /// once by [`RenderBuilder::go`].
    pub fn render<'a, 'b>(&'a self, texture: &'b Texture, screen_size: (u32, u32)) -> (r:
        RenderBuilder<'a, 'b>)
        requires
            self.wf(),
            texture.wf(),
            screen_size.0 >= 1,
            screen_size.1 >= 1,
        ensures
            r.texture_renderer == self,
            r.texture == texture,
            r.screen_size == screen_size,
            r.src is None,
            r.dst is None,
            r.tint is None,
            r.scale_offset is None,
            r.wf(),
    {
        RenderBuilder {
            texture_renderer: self,
            texture,
            screen_size,
            src: None,
            dst: None,
            tint: None,
            scale_offset: None,
        }
    }

    /// A horizontal line of unit thickness from `x_start` to `x_end` at
    /// height `y`, drawn by stretching the shared 1-by-1 white texture over
    /// a thin destination rectangle.
    pub fn line_x(
        &self,
        white: &Texture,
        x_start: usize,
        x_end: usize,
        y: usize,
        color: ColorRgba,
        screen_size: (u32, u32),
    ) -> (r: DrawCommand)
        requires
            self.wf(),
            white.wf(),
            white.size.0 == 1,
            white.size.1 == 1,
            screen_size.0 >= 1,
            screen_size.1 >= 1,
            x_start <= x_end <= 0x7FFFFFFF,
            y <= 0x7FFFFFFF,
        ensures
            r == spec_quad_cmd(
                *self,
                *white,
                screen_size,
                Rect { x: 0i64, y: 0i64, width: 1i64, height: 1i64 },
                Rect {
                    x: x_start as i64,
                    y: y as i64,
                    width: (x_end - x_start) as i64,
                    height: 1i64,
                },
                color,
                spec_identity_scale_offset(),
            ),
    {
        self.render(white, screen_size)
            .dst(
                Rect::new(x_start as i64, y as i64, (x_end - x_start) as i64, 1i64),
            )
            .tint(color)
            .go()
    }

    /// A vertical line of unit thickness from `y_start` to `y_end` at
    /// abscissa `x`, drawn like [`Self::line_x`].
    pub fn line_y(
        &self,
        white: &Texture,
        x: usize,
        y_start: usize,
        y_end: usize,
        color: ColorRgba,
        screen_size: (u32, u32),
    ) -> (r: DrawCommand)
        requires
            self.wf(),
            white.wf(),
            white.size.0 == 1,
            white.size.1 == 1,
            screen_size.0 >= 1,
            screen_size.1 >= 1,
            y_start <= y_end <= 0x7FFFFFFF,
            x <= 0x7FFFFFFF,
        ensures
            r == spec_quad_cmd(
                *self,
                *white,
                screen_size,
                Rect { x: 0i64, y: 0i64, width: 1i64, height: 1i64 },
                Rect {
                    x: x as i64,
                    y: y_start as i64,
                    width: 1i64,
                    height: (y_end - y_start) as i64,
                },
                color,
                spec_identity_scale_offset(),
            ),
    {
        self.render(white, screen_size)
            .dst(
                Rect::new(x as i64, y_start as i64, 1i64, (y_end - y_start) as i64),
            )
            .tint(color)
            .go()
    }

    /// The outline of a rectangle: its two horizontal and two vertical
    /// edges, as four thin quads in that order.
    pub fn rect(
        &self,
        white: &Texture,
        rect: Rect<usize>,
        color: ColorRgba,
        screen_size: (u32, u32),
    ) -> (r: Vec<DrawCommand>)
        requires
            self.wf(),
            white.wf(),
            white.size.0 == 1,
            white.size.1 == 1,
            screen_size.0 >= 1,
            screen_size.1 >= 1,
            rect.x + rect.width <= 0x7FFFFFFF,
            rect.y + rect.height <= 0x7FFFFFFF,
        ensures
            r@.len() == 4,
            r@[0] == spec_quad_cmd(
                *self,
                *white,
                screen_size,
                Rect { x: 0i64, y: 0i64, width: 1i64, height: 1i64 },
                Rect {
                    x: rect.x as i64,
                    y: rect.y as i64,
                    width: rect.width as i64,
                    height: 1i64,
                },
                color,
                spec_identity_scale_offset(),
            ),
            r@[1] == spec_quad_cmd(
                *self,
                *white,
                screen_size,
                Rect { x: 0i64, y: 0i64, width: 1i64, height: 1i64 },
                Rect {
                    x: rect.x as i64,
                    y: (rect.y + rect.height) as i64,
                    width: rect.width as i64,
                    height: 1i64,
                },
                color,
                spec_identity_scale_offset(),
            ),
            r@[2] == spec_quad_cmd(
                *self,
                *white,
                screen_size,
                Rect { x: 0i64, y: 0i64, width: 1i64, height: 1i64 },
                Rect {
                    x: rect.x as i64,
                    y: rect.y as i64,
                    width: 1i64,
                    height: rect.height as i64,
                },
                color,
                spec_identity_scale_offset(),
            ),
            r@[3] == spec_quad_cmd(
                *self,
                *white,
                screen_size,
                Rect { x: 0i64, y: 0i64, width: 1i64, height: 1i64 },
                Rect {
                    x: (rect.x + rect.width) as i64,
                    y: rect.y as i64,
                    width: 1i64,
                    height: rect.height as i64,
                },
                color,
                spec_identity_scale_offset(),
            ),
    {
        let right = rect.right();
        let bottom = rect.bottom();
        let mut cmds: Vec<DrawCommand> = Vec::new();
        cmds.push(self.line_x(white, rect.x, right, rect.y, color, screen_size));
        cmds.push(self.line_x(white, rect.x, right, bottom, color, screen_size));
        cmds.push(self.line_y(white, rect.x, rect.y, bottom, color, screen_size));
        cmds.push(self.line_y(white, right, rect.y, bottom, color, screen_size));
        cmds
    }

    /// Releases ownership of the program and vertex-array handles, handing
    /// them back for the driver shell to delete.
    pub fn destroy(self) -> (r: (u32, u32))
        ensures
            r.0 == self.program,
            r.1 == self.dummy_buffer,
    {
        (self.program, self.dummy_buffer)
    }
}

/// The draw command a fully resolved builder issues: source and destination
/// rectangles normalized by their extents, everything else carried through.
pub open spec fn spec_quad_cmd(
    renderer: TextureRenderer,
    texture: Texture,
    screen_size: (u32, u32),
    src: Rect<i64>,
    dst: Rect<i64>,
    tint: ColorRgba,
    scale_offset: (Frac, Frac),
) -> DrawCommand {
    DrawCommand {
        program: renderer.program,
        vertex_array: renderer.dummy_buffer,
        texture_id: texture.id,
        src_pos_size: spec_normalize(src, texture.size.0 as i64, texture.size.1 as i64),
        dst_pos_size: spec_normalize(dst, screen_size.0 as i64, screen_size.1 as i64),
        tint,
        scale_offset,
        img_size: (texture.size.0 as i32, texture.size.1 as i32),
    }
}

/// The render-parameter builder: borrows the renderer and the texture, and
/// collects the optional source rectangle (texels), destination rectangle
/// (screen pixels), tint, and sample transform. Unset fields take their
/// documented defaults when the builder is consumed.
#[must_use]
pub struct RenderBuilder<'renderer, 'texture> {
    pub texture_renderer: &'renderer TextureRenderer,
    pub texture: &'texture Texture,
    pub screen_size: (u32, u32),
    pub src: Option<Rect<i64>>,
    pub dst: Option<Rect<i64>>,
    pub tint: Option<ColorRgba>,
    pub scale_offset: Option<(Frac, Frac)>,
}

impl<'renderer, 'texture> RenderBuilder<'renderer, 'texture> {
    pub open spec fn wf(&self) -> bool {
        &&& self.texture_renderer.wf()
        &&& self.texture.wf()
        &&& self.screen_size.0 >= 1
        &&& self.screen_size.1 >= 1
    }

    /// The source rectangle in texel units; defaults to the full texture
    /// extent.
    pub open spec fn src_or_default(&self) -> Rect<i64> {
        match self.src {
            Some(s) => s,
            None => Rect {
                x: 0,
                y: 0,
                width: self.texture.size.0 as i64,
                height: self.texture.size.1 as i64,
            },
        }
    }

    /// The destination rectangle in screen pixels; defaults to the full
    /// screen.
    pub open spec fn dst_or_default(&self) -> Rect<i64> {
        match self.dst {
            Some(d) => d,
            None => Rect {
                x: 0,
                y: 0,
                width: self.screen_size.0 as i64,
                height: self.screen_size.1 as i64,
            },
        }
    }

    /// The tint; defaults to opaque white.
    pub open spec fn tint_or_default(&self) -> ColorRgba {
        match self.tint {
            Some(t) => t,
            None => spec_opaque_white(),
        }
    }

    /// The sample transform; defaults to the identity.
    pub open spec fn scale_offset_or_default(&self) -> (Frac, Frac) {
        match self.scale_offset {
            Some(so) => so,
            None => spec_identity_scale_offset(),
        }
    }

    /// Sets the source rectangle, in texel units.
    pub fn src(self, src: Rect<i64>) -> (r: Self)
        ensures
            r == (Self { src: Some(src), ..self }),
    {
        Self { src: Some(src), ..self }
    }

    /// Sets the destination rectangle, in screen pixels.
    pub fn dst(self, dst: Rect<i64>) -> (r: Self)
        ensures
            r == (Self { dst: Some(dst), ..self }),
    {
        Self { dst: Some(dst), ..self }
    }

    /// Sets the tint the sampled color is multiplied by.
    pub fn tint(self, tint: ColorRgba) -> (r: Self)
        ensures
            r == (Self { tint: Some(tint), ..self }),
    {
        Self { tint: Some(tint), ..self }
    }

    /// Sets the sample transform `color * scale + offset`.
    pub fn scale_offset(self, scale_offset: (Frac, Frac)) -> (r: Self)
        ensures
            r == (Self { scale_offset: Some(scale_offset), ..self }),
    {
        Self { scale_offset: Some(scale_offset), ..self }
    }

    /// Consumes the builder and resolves the one draw it describes: unset
    /// fields take their defaults, and both rectangles are normalized by
    /// their extents, exactly.
    pub fn go(self) -> (r: DrawCommand)
        requires
            self.wf(),
        ensures
            r == spec_quad_cmd(
                *self.texture_renderer,
                *self.texture,
                self.screen_size,
                self.src_or_default(),
                self.dst_or_default(),
                self.tint_or_default(),
                self.scale_offset_or_default(),
            ),
    {
        let tw: i64 = self.texture.size.0 as i64;
        let th: i64 = self.texture.size.1 as i64;
        let sw: i64 = self.screen_size.0 as i64;
        let sh: i64 = self.screen_size.1 as i64;
        let src = match self.src {
            Some(s) => s,
            None => Rect { x: 0, y: 0, width: tw, height: th },
        };
        let dst = match self.dst {
            Some(d) => d,
            None => Rect { x: 0, y: 0, width: sw, height: sh },
        };
        let tint = match self.tint {
            Some(t) => t,
            None => ColorRgba::opaque_white(),
        };
        let scale_offset = match self.scale_offset {
            Some(so) => so,
            None => (Frac::whole(1), Frac { num: 0, den: 1 }),
        };
        DrawCommand {
            program: self.texture_renderer.program,
            vertex_array: self.texture_renderer.dummy_buffer,
            texture_id: self.texture.id,
            src_pos_size: NormRect {
                x: Frac { num: src.x, den: tw },
                y: Frac { num: src.y, den: th },
                width: Frac { num: src.width, den: tw },
                height: Frac { num: src.height, den: th },
            },
            dst_pos_size: NormRect {
                x: Frac { num: dst.x, den: sw },
                y: Frac { num: dst.y, den: sh },
                width: Frac { num: dst.width, den: sw },
                height: Frac { num: dst.height, den: sh },
            },
            tint,
            scale_offset,
            img_size: (self.texture.size.0 as i32, self.texture.size.1 as i32),
        }
    }
}

/// The normalized point `pos + size * t` along one axis of the quad, where
/// `t` is 0 at one edge of the rectangle and 1 at the other; both fractions
/// share the axis's extent as denominator.
pub open spec fn axis_point(pos: Frac, size: Frac, t: int) -> Frac {
    Frac { num: (pos.num + size.num * t) as i64, den: pos.den }
}

/// The clip-space abscissa of a normalized x: `2 * x - 1`, exactly.
pub open spec fn clip_x(f: Frac) -> Frac {
    Frac { num: (2 * f.num - f.den) as i64, den: f.den }
}

/// The clip-space ordinate of a normalized y: `-2 * y + 1` (the vertical
/// flip between image row order and clip-space order), exactly.
pub open spec fn clip_y(f: Frac) -> Frac {
    Frac { num: (f.den - 2 * f.num) as i64, den: f.den }
}

/// The quad's corner offsets selected by a vertex index: bit 0 drives the x
/// axis, bit 1 the y axis, so indices 0 to 3 enumerate all four corners of
/// the destination rectangle in triangle-strip order.
pub fn vertex_corner(index: u32) -> (r: (u32, u32))
    requires
        index < 4,
    ensures
        r.0 == index & 1,
        r.1 == (index & 2) >> 1u32,
        r.0 <= 1,
        r.1 <= 1,
{
    proof {
        assert(index & 1 <= 1 && (index & 2) >> 1u32 <= 1) by (bit_vector);
    }
    (index & 1, (index & 2) >> 1)
}

/// A rectangle lying inside its extent normalizes into the unit square:
/// every component of the normalized rectangle is a fraction between 0 and
/// 1.
pub proof fn lemma_normalize_within_unit(rect: Rect<i64>, w: i64, h: i64)
    requires
        w >= 1,
        h >= 1,
        0 <= rect.x,
        0 <= rect.y,
        0 <= rect.width,
        0 <= rect.height,
        rect.x + rect.width <= w,
        rect.y + rect.height <= h,
    ensures
        ({
            let n = spec_normalize(rect, w, h);
            &&& 0 <= n.x.num <= n.x.den
            &&& 0 <= n.y.num <= n.y.den
            &&& 0 <= n.width.num <= n.width.den
            &&& 0 <= n.height.num <= n.height.den
        }),
{
}

/// A builder consumed with source and destination left unset draws
/// pixel-for-pixel: both resolved rectangles are the unit rectangle of
/// their space, and the quad's corners land exactly on the clip-space
/// extremes, so the whole texture covers the whole screen.
pub proof fn lemma_default_rects_cover_everything(b: RenderBuilder)
    requires
        b.wf(),
        b.src is None,
        b.dst is None,
    ensures
        ({
            let s = spec_normalize(
                b.src_or_default(),
                b.texture.size.0 as i64,
                b.texture.size.1 as i64,
            );
            &&& frac_eq(s.x, Frac { num: 0, den: 1 })
            &&& frac_eq(s.y, Frac { num: 0, den: 1 })
            &&& frac_eq(s.width, Frac { num: 1, den: 1 })
            &&& frac_eq(s.height, Frac { num: 1, den: 1 })
        }),
        ({
            let d = spec_normalize(b.dst_or_default(), b.screen_size.0 as i64, b.screen_size.1 as i64);
            &&& frac_eq(d.x, Frac { num: 0, den: 1 })
            &&& frac_eq(d.y, Frac { num: 0, den: 1 })
            &&& frac_eq(d.width, Frac { num: 1, den: 1 })
            &&& frac_eq(d.height, Frac { num: 1, den: 1 })
        }),
        ({
            let d = spec_normalize(b.dst_or_default(), b.screen_size.0 as i64, b.screen_size.1 as i64);
            &&& frac_eq(clip_x(axis_point(d.x, d.width, 0)), Frac { num: -1i64, den: 1 })
            &&& frac_eq(clip_x(axis_point(d.x, d.width, 1)), Frac { num: 1, den: 1 })
            &&& frac_eq(clip_y(axis_point(d.y, d.height, 0)), Frac { num: 1, den: 1 })
            &&& frac_eq(clip_y(axis_point(d.y, d.height, 1)), Frac { num: -1i64, den: 1 })
        }),
{
}

} // verus!
