//! Text rendering over the quad renderer: a cache of one glyph texture per
//! character with its layout metrics, and a verified cursor walk that turns a
//! string into per-glyph draw commands.
//!
//! Rasterization is the font collaborator's work: the unverified shell
//! rasterizes each missing character to a pixel buffer, uploads it, and
//! feeds the resulting entry into the cache; the walk itself — newline
//! breaks, space and unknown-character fallback to the asterisk's stride,
//! and the covered bounding rectangle — is verified here.

use vstd::prelude::*;

verus! {

use std::collections::HashMap;
use crate::{Rect, RenderError};
use crate::render_texture::{
    ColorRgba,
    DrawCommand,
    TextureRenderer,
    spec_identity_scale_offset,
    spec_quad_cmd,
};
use crate::texture::Texture;

broadcast use vstd::std_specs::hash::group_hash_axioms;

/// One cached glyph: its uploaded texture and its layout metrics — the
/// bearing offsets of the bitmap from the pen position, and the horizontal
/// advance.
#[derive(Debug)]
pub struct AtlasEntry {
    pub texture: Texture,
    pub x_pos: i64,
    pub y_pos: i64,
    pub stride: i64,
}

impl AtlasEntry {
    /// Glyph bitmaps and metrics are small; this keeps every cursor value
    /// of a layout within safe integer range.
    pub open spec fn wf(&self) -> bool {
        &&& self.texture.wf()
        &&& self.texture.size.0 <= 0x100000
        &&& self.texture.size.1 <= 0x100000
        &&& -0x100000 <= self.x_pos <= 0x100000
        &&& -0x100000 <= self.y_pos <= 0x100000
        &&& 0 <= self.stride <= 0x100000
    }
}

/// The pen position at which one glyph is drawn, in the spec-level layout.
pub ghost struct GlyphPen {
    pub ch: char,
    pub x: int,
    pub y: int,
}

/// The cursor and accumulated draws after laying out a prefix of a text.
pub ghost struct LayoutState {
    pub x: int,
    pub y: int,
    pub max_x: int,
    pub max_y: int,
    pub draws: Seq<GlyphPen>,
}

pub open spec fn spec_max(a: int, b: int) -> int {
    if a > b {
        a
    } else {
        b
    }
}

/// One glyph draw as handed to the shell: the character, the pen position
/// it was laid out at, and the fully resolved quad command.
#[derive(Debug)]
pub struct GlyphDraw {
    pub ch: char,
    pub pen_x: i64,
    pub pen_y: i64,
    pub cmd: DrawCommand,
}

/// The glyph cache and line metrics. The line spacing is the font's
/// `ascent - descent + line_gap`, computed by the shell from the font's
/// vertical metrics for the chosen pixel height.
#[derive(Debug)]
pub struct TextRenderer {
    pub spacing: usize,
    pub atlas: HashMap<u32, AtlasEntry>,
}

impl TextRenderer {
    pub open spec fn wf(&self) -> bool {
        &&& self.spacing <= 0x100000
        &&& forall|k: u32| self.atlas@.contains_key(k) ==> (#[trigger] self.atlas@[k]).wf()
    }

    /// Whether a glyph for `c` is cached.
    pub open spec fn has_glyph(&self, c: char) -> bool {
        self.atlas@.contains_key(c as u32)
    }

    /// Whether laying out `c` draws a glyph: newlines break, spaces only
    /// advance, and a character without a cached glyph falls back to the
    /// space advance without drawing.
    pub open spec fn draws_glyph(&self, c: char) -> bool {
        c != '\n' && c != ' ' && self.has_glyph(c)
    }

    /// Whether laying out `c` advances by the asterisk's stride instead of
    /// its own (spaces do, and so do characters without a cached glyph).
    pub open spec fn needs_fallback(&self, c: char) -> bool {
        c != '\n' && !self.draws_glyph(c)
    }

    /// An empty cache with the given line spacing.
    pub fn new(spacing: usize) -> (r: Self)
        requires
            spacing <= 0x100000,
        ensures
            r.spacing == spacing,
            r.atlas@ == Map::<u32, AtlasEntry>::empty(),
            r.wf(),
    {
        Self { spacing, atlas: HashMap::new() }
    }

    /// Caches the glyph entry the shell rasterized for `ch`. An entry is
    /// created on the first request for a character and retained for the
    /// cache's lifetime (no eviction), so a cached character is never
    /// re-inserted.
    pub fn insert_entry(&mut self, ch: char, entry: AtlasEntry)
        requires
            old(self).wf(),
            entry.wf(),
            !old(self).has_glyph(ch),
        ensures
            final(self).spacing == old(self).spacing,
            final(self).atlas@ == old(self).atlas@.insert(ch as u32, entry),
            final(self).wf(),
    {
        let key: u32 = ch as u32;
        self.atlas.insert(key, entry);
    }

    /// The cached entry for `ch`, if any.
    pub fn get_entry(&self, ch: char) -> (r: Option<&AtlasEntry>)
        ensures
            r is Some <==> self.has_glyph(ch),
            r matches Some(e) ==> *e == self.atlas@[ch as u32],
    {
        let key: u32 = ch as u32;
        self.atlas.get(&key)
    }

    /// The characters of `text` that the layout would draw but that have no
    /// cached glyph yet, each listed once; the asterisk is listed too when
    /// some character of `text` will need its fallback stride and it is not
    /// cached. Rasterize and insert these before rendering.
    pub fn missing_chars(&self, text: &Vec<char>) -> (r: Vec<char>)
        ensures
            forall|j: int|
                0 <= j < r@.len() ==> (#[trigger] r@[j]) != '\n' && !self.has_glyph(r@[j]),
            forall|j: int, k: int| 0 <= j < k < r@.len() ==> #[trigger] r@[j] != #[trigger] r@[k],
            forall|i: int|
                0 <= i < text@.len() ==> ((#[trigger] text@[i]) != '\n' && text@[i] != ' '
                    && !self.has_glyph(text@[i]) ==> r@.contains(text@[i])),
            (!self.has_glyph('*') && exists|i: int|
                0 <= i < text@.len() && self.needs_fallback(#[trigger] text@[i])) ==> r@.contains(
                '*',
            ),
    {
        let mut r: Vec<char> = Vec::new();
        let mut need_star: bool = false;
        let mut i: usize = 0;
        while i < text.len()
            invariant
                0 <= i <= text@.len(),
                forall|j: int|
                    0 <= j < r@.len() ==> (#[trigger] r@[j]) != '\n' && !self.has_glyph(r@[j]),
                forall|j: int, k: int| 0 <= j < k < r@.len() ==> #[trigger] r@[j] != #[trigger] r@[k],
                forall|j: int|
                    0 <= j < i ==> ((#[trigger] text@[j]) != '\n' && text@[j] != ' '
                        && !self.has_glyph(text@[j]) ==> r@.contains(text@[j])),
                need_star <==> exists|j: int|
                    0 <= j < i && self.needs_fallback(#[trigger] text@[j]),
            decreases text@.len() - i,
        {
            let c = text[i];
            if c != '\n' {
                let key: u32 = c as u32;
                if c != ' ' && !self.atlas.contains_key(&key) {
                    if !vec_has_char(&r, c) {
                        let ghost old_r = r@;
                        r.push(c);
                        proof {
                            assert(r@[old_r.len() as int] == c);
                            assert forall|x: char| old_r.contains(x) implies r@.contains(x) by {
                                let j = choose|j: int| 0 <= j < old_r.len() && old_r[j] == x;
                                assert(r@[j] == x);
                            }
                            assert(r@.contains(c));
                        }
                    }
                    need_star = true;
                } else if c == ' ' {
                    need_star = true;
                }
            }
            i += 1;
        }
        if need_star && !self.atlas.contains_key(&(42u32)) {
            proof {
                assert('*' as u32 == 42);
            }
            if !vec_has_char(&r, '*') {
                let ghost old_r = r@;
                r.push('*');
                proof {
                    assert(r@[old_r.len() as int] == '*');
                    assert forall|x: char| old_r.contains(x) implies r@.contains(x) by {
                        let j = choose|j: int| 0 <= j < old_r.len() && old_r[j] == x;
                        assert(r@[j] == x);
                    }
                }
            }
            proof {
                assert(r@.contains('*'));
            }
        }
        r
    }

    /// The layout of one more character after the layout of a prefix:
    /// a newline resets the pen to the line-start abscissa and advances it
    /// one spacing down; a drawn glyph is penned at the cursor, advances it
    /// by its stride, and widens the covered rectangle; anything else
    /// advances by the asterisk's stride without drawing.
    pub open spec fn spec_layout_step(&self, st: LayoutState, c: char, start_x: int) -> LayoutState {
        if c == '\n' {
            LayoutState {
                x: start_x,
                y: st.y + self.spacing as int,
                max_x: st.max_x,
                max_y: st.max_y,
                draws: st.draws,
            }
        } else if self.draws_glyph(c) {
            let e = self.atlas@[c as u32];
            let nx = st.x + e.stride as int;
            LayoutState {
                x: nx,
                y: st.y,
                max_x: spec_max(st.max_x, nx),
                max_y: spec_max(st.max_y, st.y + e.y_pos as int + e.texture.size.1 as int),
                draws: st.draws.push(GlyphPen { ch: c, x: st.x, y: st.y }),
            }
        } else {
            LayoutState {
                x: st.x + self.atlas@['*' as u32].stride as int,
                y: st.y,
                max_x: st.max_x,
                max_y: st.max_y,
                draws: st.draws,
            }
        }
    }

    /// The layout of a whole text from the given start position.
    pub open spec fn spec_layout(&self, text: Seq<char>, position: (usize, usize)) -> LayoutState
        decreases text.len(),
    {
        if text.len() == 0 {
            LayoutState {
                x: position.0 as int,
                y: position.1 as int,
                max_x: position.0 as int,
                max_y: position.1 as int,
                draws: Seq::empty(),
            }
        } else {
            self.spec_layout_step(
                self.spec_layout(text.drop_last(), position),
                text.last(),
                position.0 as int,
            )
        }
    }

    /// Walks the text, laying each character out as [`Self::spec_layout`]
    /// describes, and issues one quad draw per drawn glyph, tinted with the
    /// given color, with the glyph texture's full extent as source and its
    /// bearing-offset pen rectangle as destination. Returns the draws and
    /// the bounding rectangle the layout covered. Fails with
    /// [`RenderError::GlyphMissing`] exactly when some character needs the
    /// asterisk's fallback stride and no asterisk glyph is cached.
    #[verifier::rlimit(100)]
    pub fn render(
        &self,
        renderer: &TextureRenderer,
        text: &Vec<char>,
        color_rgba: ColorRgba,
        position: (usize, usize),
        screen_size: (u32, u32),
    ) -> (r: Result<(Vec<GlyphDraw>, Rect<usize>), RenderError>)
        requires
            self.wf(),
            renderer.wf(),
            screen_size.0 >= 1,
            screen_size.1 >= 1,
            position.0 <= 0x100000,
            position.1 <= 0x100000,
            text@.len() <= 0x100000,
            usize::MAX >= 0xFFFF_FFFF_FFFF,
        ensures
            r is Ok <==> (self.has_glyph('*') || forall|i: int|
                0 <= i < text@.len() ==> !self.needs_fallback(#[trigger] text@[i])),
            r is Err ==> r == Result::<(Vec<GlyphDraw>, Rect<usize>), RenderError>::Err(
                RenderError::GlyphMissing,
            ),
            r matches Ok(v) ==> ({
                let st = self.spec_layout(text@, position);
                &&& v.0@.len() == st.draws.len()
                &&& forall|j: int|
                    0 <= j < st.draws.len() ==> glyph_draw_ok(
                        *self,
                        *renderer,
                        color_rgba,
                        screen_size,
                        #[trigger] v.0@[j],
                        st.draws[j],
                    )
                &&& v.1.x == position.0
                &&& v.1.y == position.1
                &&& v.1.width as int == st.max_x - position.0 as int
                &&& v.1.height as int == st.max_y - position.1 as int
            }),
    {
        let ghost t = text@;
        let mut draws: Vec<GlyphDraw> = Vec::new();
        let mut x: i64 = position.0 as i64;
        let mut y: i64 = position.1 as i64;
        let mut max_x: i64 = x;
        let mut max_y: i64 = y;
        let mut i: usize = 0;
        while i < text.len()
            invariant
                self.wf(),
                renderer.wf(),
                screen_size.0 >= 1,
                screen_size.1 >= 1,
                position.0 <= 0x100000,
                position.1 <= 0x100000,
                t == text@,
                t.len() <= 0x100000,
                0 <= i <= t.len(),
                0 <= x <= 0x100000 + (i as int) * 0x100000,
                0 <= y <= 0x100000 + (i as int) * 0x100000,
                position.0 <= max_x <= 0x200000 + (i as int) * 0x100000,
                position.1 <= max_y <= 0x300000 + (i as int) * 0x100000,
                x as int == self.spec_layout(t.take(i as int), position).x,
                y as int == self.spec_layout(t.take(i as int), position).y,
                max_x as int == self.spec_layout(t.take(i as int), position).max_x,
                max_y as int == self.spec_layout(t.take(i as int), position).max_y,
                draws@.len() == self.spec_layout(t.take(i as int), position).draws.len(),
                forall|j: int|
                    0 <= j < draws@.len() ==> glyph_draw_ok(
                        *self,
                        *renderer,
                        color_rgba,
                        screen_size,
                        #[trigger] draws@[j],
                        self.spec_layout(t.take(i as int), position).draws[j],
                    ),
                !self.has_glyph('*') ==> forall|j: int|
                    0 <= j < i ==> !self.needs_fallback(#[trigger] t[j]),
            decreases t.len() - i,
        {
            let ghost st_pre = self.spec_layout(t.take(i as int), position);
            let ghost old_draws = draws@;
            let c = char_at(text, i);
            proof {
                lemma_layout_unfold(*self, t, position, i as int);
                assert(self.spec_layout(t.take(i as int + 1), position) == self.spec_layout_step(
                    st_pre,
                    c,
                    position.0 as int,
                ));
            }
            if c == '\n' {
                proof {
                    lemma_step_newline(*self, st_pre, position.0 as int);
                }
                y = y + self.spacing as i64;
                x = position.0 as i64;
            } else {
                let key: u32 = c as u32;
                let entry_opt = if c != ' ' {
                    self.atlas.get(&key)
                } else {
                    None
                };
                match entry_opt {
                    Some(e) => {
                        proof {
                            assert(key == c as u32);
                            assert(self.atlas@.contains_key(key) && self.atlas@[key] == *e);
                            assert(self.atlas@[key].wf());
                            assert(self.draws_glyph(c));
                            lemma_step_glyph(*self, st_pre, c, position.0 as int);
                        }
                        let dst = Rect::new(
                            x + e.x_pos,
                            y + e.y_pos,
                            e.texture.size.0 as i64,
                            e.texture.size.1 as i64,
                        );
                        let cmd = renderer.render(&e.texture, screen_size).dst(dst).tint(
                            color_rgba,
                        ).go();
                        draws.push(GlyphDraw { ch: c, pen_x: x, pen_y: y, cmd });
                        x = x + e.stride;
                        if x > max_x {
                            max_x = x;
                        }
                        let y_ext = y + e.y_pos + e.texture.size.1 as i64;
                        if y_ext > max_y {
                            max_y = y_ext;
                        }
                        proof {
                            let st_post = self.spec_layout(t.take(i as int + 1), position);
                            let pen = GlyphPen { ch: c, x: st_pre.x, y: st_pre.y };
                            assert(st_post.draws == st_pre.draws.push(pen));
                            assert(draws@.len() == old_draws.len() + 1);
                            assert(glyph_draw_ok(
                                *self,
                                *renderer,
                                color_rgba,
                                screen_size,
                                draws@[old_draws.len() as int],
                                pen,
                            ));
                            assert forall|j: int| 0 <= j < draws@.len() implies glyph_draw_ok(
                                *self,
                                *renderer,
                                color_rgba,
                                screen_size,
                                #[trigger] draws@[j],
                                st_post.draws[j],
                            ) by {
                                if j < old_draws.len() {
                                    assert(draws@[j] == old_draws[j]);
                                    assert(st_post.draws[j] == st_pre.draws[j]);
                                } else {
                                    assert(draws@[j] == draws@[old_draws.len() as int]);
                                    assert(st_post.draws[j] == pen);
                                }
                            }
                        }
                    },
                    None => {
                        let star_key: u32 = 42;
                        proof {
                            assert('*' as u32 == 42);
                            assert(self.needs_fallback(c));
                        }
                        match self.atlas.get(&star_key) {
                            Some(star) => {
                                proof {
                                    assert(self.atlas@.contains_key(star_key) && self.atlas@[
                                        star_key] == *star);
                                    assert(self.atlas@[star_key].wf());
                                    lemma_step_fallback(*self, st_pre, c, position.0 as int);
                                }
                                x = x + star.stride;
                            },
                            None => {
                                proof {
                                    assert(!self.has_glyph('*'));
                                    assert(self.needs_fallback(t[i as int]));
                                }
                                return Err(RenderError::GlyphMissing);
                            },
                        }
                    },
                }
            }
            i += 1;
        }
        proof {
            assert(t.take(i as int) =~= t);
        }
        let width = (max_x - position.0 as i64) as usize;
        let height = (max_y - position.1 as i64) as usize;
        let bounds = Rect::new(position.0, position.1, width, height);
        Ok((draws, bounds))
    }
}

/// One issued glyph draw matches the spec-level layout's pen: same
/// character, same pen position, and the one quad command the builder
/// resolves for it — the glyph texture's full extent, placed at the pen
/// plus the glyph's bearing offsets, tinted with the text color.
pub open spec fn glyph_draw_ok(
    tr: TextRenderer,
    renderer: TextureRenderer,
    color: ColorRgba,
    screen_size: (u32, u32),
    d: GlyphDraw,
    g: GlyphPen,
) -> bool {
    let e = tr.atlas@[g.ch as u32];
    let tw = e.texture.size.0 as i64;
    let th = e.texture.size.1 as i64;
    &&& d.ch == g.ch
    &&& d.pen_x as int == g.x
    &&& d.pen_y as int == g.y
    &&& d.cmd == spec_quad_cmd(
        renderer,
        e.texture,
        screen_size,
        Rect { x: 0i64, y: 0i64, width: tw, height: th },
        Rect {
            x: ((g.x + e.x_pos as int) as i64),
            y: ((g.y + e.y_pos as int) as i64),
            width: tw,
            height: th,
        },
        color,
        spec_identity_scale_offset(),
    )
}

/// Laying out one more character is one step applied to the prefix's layout.
proof fn lemma_layout_unfold(tr: TextRenderer, text: Seq<char>, position: (usize, usize), i: int)
    requires
        0 <= i < text.len(),
    ensures
        tr.spec_layout(text.take(i + 1), position) == tr.spec_layout_step(
            tr.spec_layout(text.take(i), position),
            text[i],
            position.0 as int,
        ),
{
    assert(text.take(i + 1).len() == i + 1);
    assert(text.take(i + 1).drop_last() =~= text.take(i));
    assert(text.take(i + 1).last() == text[i]);
}

/// What one layout step does for a drawn glyph.
proof fn lemma_step_glyph(tr: TextRenderer, st: LayoutState, c: char, start_x: int)
    requires
        tr.draws_glyph(c),
    ensures
        tr.spec_layout_step(st, c, start_x).x == st.x + tr.atlas@[c as u32].stride as int,
        tr.spec_layout_step(st, c, start_x).y == st.y,
        tr.spec_layout_step(st, c, start_x).max_x == spec_max(
            st.max_x,
            st.x + tr.atlas@[c as u32].stride as int,
        ),
        tr.spec_layout_step(st, c, start_x).max_y == spec_max(
            st.max_y,
            st.y + tr.atlas@[c as u32].y_pos as int + tr.atlas@[c as u32].texture.size.1 as int,
        ),
        tr.spec_layout_step(st, c, start_x).draws == st.draws.push(
            GlyphPen { ch: c, x: st.x, y: st.y },
        ),
{
}

/// What one layout step does for a newline.
proof fn lemma_step_newline(tr: TextRenderer, st: LayoutState, start_x: int)
    ensures
        tr.spec_layout_step(st, '\n', start_x).x == start_x,
        tr.spec_layout_step(st, '\n', start_x).y == st.y + tr.spacing as int,
        tr.spec_layout_step(st, '\n', start_x).max_x == st.max_x,
        tr.spec_layout_step(st, '\n', start_x).max_y == st.max_y,
        tr.spec_layout_step(st, '\n', start_x).draws == st.draws,
{
}

/// What one layout step does for a space or an uncached character.
proof fn lemma_step_fallback(tr: TextRenderer, st: LayoutState, c: char, start_x: int)
    requires
        tr.needs_fallback(c),
    ensures
        tr.spec_layout_step(st, c, start_x).x == st.x + tr.atlas@['*' as u32].stride as int,
        tr.spec_layout_step(st, c, start_x).y == st.y,
        tr.spec_layout_step(st, c, start_x).max_x == st.max_x,
        tr.spec_layout_step(st, c, start_x).max_y == st.max_y,
        tr.spec_layout_step(st, c, start_x).draws == st.draws,
{
}

fn char_at(v: &Vec<char>, i: usize) -> (c: char)
    requires
        i < v@.len(),
    ensures
        c == v@[i as int],
{
    v[i]
}

/// Whether a character occurs in the vector.
fn vec_has_char(v: &Vec<char>, c: char) -> (r: bool)
    ensures
        r == v@.contains(c),
{
    let mut i: usize = 0;
    while i < v.len()
        invariant
            0 <= i <= v@.len(),
            forall|j: int| 0 <= j < i ==> v@[j] != c,
        decreases v@.len() - i,
    {
        if v[i] == c {
            proof {
                assert(v@.contains(c));
            }
            return true;
        }
        i += 1;
    }
    proof {
        assert(!v@.contains(c));
    }
    false
}

/// The rectangle a layout covers always contains its start position: the
/// maxima the cursor walk tracks never fall below it, so the bounding
/// rectangle's extent is well defined for every text.
pub proof fn lemma_layout_covers_start(tr: TextRenderer, text: Seq<char>, position: (usize, usize))
    ensures
        tr.spec_layout(text, position).max_x >= position.0 as int,
        tr.spec_layout(text, position).max_y >= position.1 as int,
    decreases text.len(),
{
    if text.len() != 0 {
        lemma_layout_covers_start(tr, text.drop_last(), position);
    }
}

/// Newline resets the pen's abscissa to the line start and advances its
/// ordinate by exactly one line spacing: a glyph, a newline, then a glyph
/// pens the second glyph at the start abscissa, one spacing below the
/// first.
pub proof fn lemma_newline_resets_pen(
    tr: TextRenderer,
    a: char,
    b: char,
    position: (usize, usize),
)
    requires
        tr.draws_glyph(a),
        tr.draws_glyph(b),
    ensures
        ({
            let st = tr.spec_layout(seq![a, '\n', b], position);
            &&& st.draws.len() == 2
            &&& st.draws[0] == GlyphPen { ch: a, x: position.0 as int, y: position.1 as int }
            &&& st.draws[1] == GlyphPen {
                ch: b,
                x: position.0 as int,
                y: position.1 as int + tr.spacing as int,
            }
        }),
{
    let s3 = seq![a, '\n', b];
    let s2 = seq![a, '\n'];
    let s1 = seq![a];
    let s0 = Seq::<char>::empty();
    assert(s3.drop_last() =~= s2);
    assert(s2.drop_last() =~= s1);
    assert(s1.drop_last() =~= s0);
    assert(s3.last() == b);
    assert(s2.last() == '\n');
    assert(s1.last() == a);
    let st0 = tr.spec_layout(s0, position);
    assert(st0.x == position.0 as int && st0.y == position.1 as int);
    let st1 = tr.spec_layout(s1, position);
    assert(st1 == tr.spec_layout_step(st0, a, position.0 as int));
    lemma_step_glyph(tr, st0, a, position.0 as int);
    let st2 = tr.spec_layout(s2, position);
    assert(st2 == tr.spec_layout_step(st1, '\n', position.0 as int));
    lemma_step_newline(tr, st1, position.0 as int);
    let st3 = tr.spec_layout(s3, position);
    assert(st3 == tr.spec_layout_step(st2, b, position.0 as int));
    lemma_step_glyph(tr, st2, b, position.0 as int);
    assert(st1.draws == st0.draws.push(GlyphPen { ch: a, x: st0.x, y: st0.y }));
    assert(st3.draws == st2.draws.push(GlyphPen { ch: b, x: st2.x, y: st2.y }));
    assert(st3.draws.len() == 2);
    assert(st3.draws[0] == GlyphPen { ch: a, x: position.0 as int, y: position.1 as int });
    assert(st3.draws[1] == GlyphPen {
        ch: b,
        x: position.0 as int,
        y: position.1 as int + tr.spacing as int,
    });
}

/// The fixed, ordered list of font-file locations searched, first match
/// winning.
pub fn font_locations() -> (r: Vec<String>)
    ensures
        r@.len() == 6,
        r@[0]@ == "C:\\Windows\\Fonts\\arial.ttf"@,
        r@[1]@ == "/usr/share/fonts/TTF/DejaVuSansMono.ttf"@,
        r@[2]@ == "/usr/share/fonts/TTF/FiraMono-Regular.ttf"@,
        r@[3]@ == "/usr/share/fonts/TTF/DejaVuSans.ttf"@,
        r@[4]@ == "/usr/share/fonts/TTF/LiberationSans-Regular.ttf"@,
        r@[5]@ == "/Library/Fonts/Andale Mono.ttf"@,
{
    let mut v: Vec<String> = Vec::new();
    v.push(String::from_str("C:\\Windows\\Fonts\\arial.ttf"));
    v.push(String::from_str("/usr/share/fonts/TTF/DejaVuSansMono.ttf"));
    v.push(String::from_str("/usr/share/fonts/TTF/FiraMono-Regular.ttf"));
    v.push(String::from_str("/usr/share/fonts/TTF/DejaVuSans.ttf"));
    v.push(String::from_str("/usr/share/fonts/TTF/LiberationSans-Regular.ttf"));
    v.push(String::from_str("/Library/Fonts/Andale Mono.ttf"));
    v
}

/// Picks the first font location at which a file is present, given, for
/// each location of [`font_locations`] in order, whether one is; fails
/// with [`RenderError::FontNotFound`] exactly when none is.
pub fn find_font(present: &Vec<bool>) -> (r: Result<usize, RenderError>)
    ensures
        r is Ok <==> exists|i: int| 0 <= i < present@.len() && present@[i],
        r matches Ok(i) ==> i < present@.len() && present@[i as int] && forall|j: int|
            0 <= j < i ==> !present@[j],
        r is Err ==> r == Result::<usize, RenderError>::Err(RenderError::FontNotFound),
{
    let mut i: usize = 0;
    while i < present.len()
        invariant
            0 <= i <= present@.len(),
            forall|j: int| 0 <= j < i ==> !present@[j],
        decreases present@.len() - i,
    {
        if present[i] {
            return Ok(i);
        }
        i += 1;
    }
    Err(RenderError::FontNotFound)
}

} // verus!
