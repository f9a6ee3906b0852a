use render2d::render_text::{find_font, font_locations, AtlasEntry, TextRenderer};
use render2d::render_texture::{ColorRgba, TextureRenderer, UniformLocations};
use render2d::texture::{PixelFormat, Texture};
use render2d::RenderError;

fn renderer() -> TextureRenderer {
    TextureRenderer::new(
        40,
        8,
        UniformLocations {
            src_pos_size: 0,
            dst_pos_size: 1,
            tint: 2,
            scale_offset: 3,
            img_size: -1,
        },
    )
    .unwrap()
}

fn entry(id: u32, w: usize, h: usize, x_pos: i64, y_pos: i64, stride: i64) -> AtlasEntry {
    AtlasEntry {
        texture: Texture::new(id, (w, h), PixelFormat::Rgba32F).unwrap(),
        x_pos,
        y_pos,
        stride,
    }
}

fn chars(s: &str) -> Vec<char> {
    s.chars().collect()
}

#[test]
fn newline_resets_x_and_advances_y_by_spacing() {
    // Rendering "A\nB" at (0, 0): two glyph draws, the second at
    // x = 0, y = spacing.
    let mut tr = TextRenderer::new(14);
    tr.insert_entry('A', entry(5, 8, 10, 1, 2, 9));
    tr.insert_entry('B', entry(6, 7, 10, 1, 2, 8));
    let (draws, _) = tr
        .render(
            &renderer(),
            &chars("A\nB"),
            ColorRgba::opaque_white(),
            (0, 0),
            (100, 50),
        )
        .unwrap();
    assert_eq!(draws.len(), 2);
    assert_eq!(draws[0].ch, 'A');
    assert_eq!((draws[0].pen_x, draws[0].pen_y), (0, 0));
    assert_eq!(draws[1].ch, 'B');
    assert_eq!((draws[1].pen_x, draws[1].pen_y), (0, 14));
}

#[test]
fn glyphs_advance_by_their_stride() {
    let mut tr = TextRenderer::new(14);
    tr.insert_entry('A', entry(5, 8, 10, 1, 2, 9));
    tr.insert_entry('B', entry(6, 7, 10, 1, 2, 8));
    let (draws, _) = tr
        .render(
            &renderer(),
            &chars("AB"),
            ColorRgba::opaque_white(),
            (10, 20),
            (100, 50),
        )
        .unwrap();
    assert_eq!(draws.len(), 2);
    assert_eq!((draws[0].pen_x, draws[0].pen_y), (10, 20));
    assert_eq!((draws[1].pen_x, draws[1].pen_y), (19, 20));
}

#[test]
fn glyph_quads_carry_bearing_offsets_and_tint() {
    let mut tr = TextRenderer::new(14);
    tr.insert_entry('A', entry(5, 8, 10, 1, 2, 9));
    let color = ColorRgba::opaque_white();
    let (draws, _) = tr
        .render(&renderer(), &chars("A"), color, (10, 20), (100, 50))
        .unwrap();
    let cmd = &draws[0].cmd;
    assert_eq!(cmd.texture_id, 5);
    // destination: pen plus bearings, extent of the glyph bitmap
    assert_eq!((cmd.dst_pos_size.x.num, cmd.dst_pos_size.x.den), (11, 100));
    assert_eq!((cmd.dst_pos_size.y.num, cmd.dst_pos_size.y.den), (22, 50));
    assert_eq!(
        (cmd.dst_pos_size.width.num, cmd.dst_pos_size.width.den),
        (8, 100)
    );
    assert_eq!(
        (cmd.dst_pos_size.height.num, cmd.dst_pos_size.height.den),
        (10, 50)
    );
    // source: the glyph texture's full extent
    assert_eq!((cmd.src_pos_size.x.num, cmd.src_pos_size.width.num), (0, 8));
    assert_eq!((cmd.tint.red.num, cmd.tint.red.den), (1, 1));
}

#[test]
fn space_advances_by_the_asterisk_stride_without_drawing() {
    let mut tr = TextRenderer::new(14);
    tr.insert_entry('A', entry(5, 8, 10, 1, 2, 9));
    tr.insert_entry('*', entry(7, 5, 5, 0, 0, 6));
    let (draws, _) = tr
        .render(
            &renderer(),
            &chars("A A"),
            ColorRgba::opaque_white(),
            (0, 0),
            (100, 50),
        )
        .unwrap();
    assert_eq!(draws.len(), 2);
    assert_eq!(draws[1].pen_x, 9 + 6);
}

#[test]
fn unknown_character_falls_back_to_the_asterisk_stride() {
    let mut tr = TextRenderer::new(14);
    tr.insert_entry('A', entry(5, 8, 10, 1, 2, 9));
    tr.insert_entry('*', entry(7, 5, 5, 0, 0, 6));
    let (draws, _) = tr
        .render(
            &renderer(),
            &chars("A?A"),
            ColorRgba::opaque_white(),
            (0, 0),
            (100, 50),
        )
        .unwrap();
    assert_eq!(draws.len(), 2);
    assert_eq!(draws[0].pen_x, 0);
    assert_eq!(draws[1].pen_x, 9 + 6);
}

#[test]
fn missing_asterisk_is_glyph_missing() {
    let tr = TextRenderer::new(14);
    let r = tr.render(
        &renderer(),
        &chars(" "),
        ColorRgba::opaque_white(),
        (0, 0),
        (100, 50),
    );
    assert_eq!(r.unwrap_err(), RenderError::GlyphMissing);
}

#[test]
fn text_without_fallbacks_needs_no_asterisk() {
    let mut tr = TextRenderer::new(14);
    tr.insert_entry('A', entry(5, 8, 10, 1, 2, 9));
    assert!(tr
        .render(
            &renderer(),
            &chars("A\nA"),
            ColorRgba::opaque_white(),
            (0, 0),
            (100, 50),
        )
        .is_ok());
}

#[test]
fn bounding_rect_covers_the_drawn_glyphs() {
    let mut tr = TextRenderer::new(14);
    tr.insert_entry('A', entry(5, 8, 10, 1, 2, 9));
    let (_, bounds) = tr
        .render(
            &renderer(),
            &chars("AA"),
            ColorRgba::opaque_white(),
            (10, 20),
            (100, 50),
        )
        .unwrap();
    assert_eq!((bounds.x, bounds.y), (10, 20));
    // the pen ends at 10 + 9 + 9 = 28
    assert_eq!(bounds.width, 18);
    // the vertical extent is pen y + vertical bearing + glyph height
    assert_eq!(bounds.height, 2 + 10);
}

#[test]
fn empty_text_covers_nothing() {
    let tr = TextRenderer::new(14);
    let (draws, bounds) = tr
        .render(
            &renderer(),
            &chars(""),
            ColorRgba::opaque_white(),
            (3, 4),
            (100, 50),
        )
        .unwrap();
    assert!(draws.is_empty());
    assert_eq!((bounds.x, bounds.y, bounds.width, bounds.height), (3, 4, 0, 0));
}

#[test]
fn get_entry_reads_the_cache() {
    let mut tr = TextRenderer::new(14);
    assert!(tr.get_entry('A').is_none());
    tr.insert_entry('A', entry(5, 8, 10, 1, 2, 9));
    let e = tr.get_entry('A').unwrap();
    assert_eq!(e.texture.id, 5);
    assert_eq!(e.stride, 9);
}

#[test]
fn missing_chars_lists_what_needs_rasterizing() {
    let mut tr = TextRenderer::new(14);
    tr.insert_entry('A', entry(5, 8, 10, 1, 2, 9));
    let missing = tr.missing_chars(&chars("AB BA\nC"));
    assert!(missing.contains(&'B'));
    assert!(missing.contains(&'C'));
    assert!(missing.contains(&'*'));
    assert!(!missing.contains(&'A'));
    assert!(!missing.contains(&' '));
    assert!(!missing.contains(&'\n'));
    // each listed once
    assert_eq!(missing.iter().filter(|&&c| c == 'B').count(), 1);
}

#[test]
fn font_search_takes_the_first_present_location() {
    assert_eq!(font_locations().len(), 6);
    assert_eq!(
        font_locations()[1],
        "/usr/share/fonts/TTF/DejaVuSansMono.ttf"
    );
    assert_eq!(find_font(&vec![false, true, false, true]).unwrap(), 1);
    assert_eq!(find_font(&vec![true, false]).unwrap(), 0);
    assert_eq!(find_font(&vec![false, false, false]).unwrap_err(), RenderError::FontNotFound);
    assert_eq!(find_font(&vec![]).unwrap_err(), RenderError::FontNotFound);
}
