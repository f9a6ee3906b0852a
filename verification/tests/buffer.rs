use render2d::texture::{offset, CpuTexture, PixelFormat, Texture};
use render2d::RenderError;

fn buffer_10x10() -> CpuTexture<u32> {
    let mut data = Vec::new();
    for i in 0..100u32 {
        data.push(i);
    }
    CpuTexture::new(data, (10, 10))
}

#[test]
fn indexing_matches_flat_layout() {
    let buf = buffer_10x10();
    for y in 0..10usize {
        for x in 0..10usize {
            assert_eq!(*buf.index((x, y)), (y * 10 + x) as u32);
        }
    }
}

#[test]
fn get_rejects_out_of_range() {
    let buf = buffer_10x10();
    assert_eq!(buf.get((10, 0)), None);
    assert_eq!(buf.get((0, 10)), None);
    assert_eq!(buf.get((10, 10)), None);
    assert_eq!(buf.get((9, 9)), Some(&99u32));
}

#[test]
fn set_overwrites_one_element() {
    let mut buf = buffer_10x10();
    buf.set((3, 4), 777);
    assert_eq!(*buf.index((3, 4)), 777);
    assert_eq!(*buf.index((2, 4)), 42);
    assert_eq!(*buf.index((4, 4)), 44);
}

#[test]
fn clamped_equals_indexing_inside_bounds() {
    let buf = buffer_10x10();
    for y in 0..10isize {
        for x in 0..10isize {
            assert_eq!(
                *buf.get_clamped(x, y),
                *buf.index((x as usize, y as usize))
            );
        }
    }
}

#[test]
fn clamped_yields_boundary_outside_bounds() {
    let buf = buffer_10x10();
    assert_eq!(*buf.get_clamped(-5, 0), *buf.index((0, 0)));
    assert_eq!(*buf.get_clamped(-1, -1), *buf.index((0, 0)));
    assert_eq!(*buf.get_clamped(25, 3), *buf.index((9, 3)));
    assert_eq!(*buf.get_clamped(4, 100), *buf.index((4, 9)));
    assert_eq!(*buf.get_clamped(100, 100), *buf.index((9, 9)));
}

#[test]
fn wrapped_is_periodic() {
    let buf = buffer_10x10();
    for &(x, y) in &[(0isize, 0isize), (3, 7), (-1, -1), (-23, 15), (9, -10)] {
        assert_eq!(*buf.get_wrapped(x, y), *buf.get_wrapped(x + 10, y + 10));
        assert_eq!(*buf.get_wrapped(x, y), *buf.get_wrapped(x - 10, y - 10));
    }
    assert_eq!(*buf.get_wrapped(-1, 0), *buf.index((9, 0)));
    assert_eq!(*buf.get_wrapped(10, 10), *buf.index((0, 0)));
}

#[test]
fn neighbors_clamp_at_edges() {
    let buf = buffer_10x10();
    let (mid, left, right, up, down) = buf.mid_left_right_up_down((0, 0));
    assert_eq!(*mid, 0);
    assert_eq!(*left, 0);
    assert_eq!(*right, 1);
    assert_eq!(*up, 0);
    assert_eq!(*down, 10);
    let (mid, left, right, up, down) = buf.mid_left_right_up_down((9, 9));
    assert_eq!(*mid, 99);
    assert_eq!(*left, 98);
    assert_eq!(*right, 99);
    assert_eq!(*up, 89);
    assert_eq!(*down, 99);
}

#[test]
fn logical_truncation_drops_padding() {
    let buf = CpuTexture::new(vec![1u32, 2, 3, 4, 5, 6, 7], (3, 2));
    assert!(buf.data_too_long());
    assert_eq!(buf.data(), &[1, 2, 3, 4, 5, 6]);
    let exact = CpuTexture::new(vec![1u32, 2, 3, 4, 5, 6], (3, 2));
    assert!(!exact.data_too_long());
    assert_eq!(exact.data(), &[1, 2, 3, 4, 5, 6]);
}

#[test]
fn new_val_fills_uniformly() {
    let buf = CpuTexture::new_val(9u16, (4, 3));
    assert_eq!(buf.data(), &[9u16; 12]);
}

#[test]
fn iter_index_is_row_major() {
    let buf = CpuTexture::new_val(0u32, (3, 2));
    let idx = buf.iter_index();
    assert_eq!(idx, vec![(0, 0), (1, 0), (2, 0), (0, 1), (1, 1), (2, 1)]);
}

#[test]
fn offset_stays_inside_the_extent() {
    assert_eq!(offset((2, 3), (1, -1), (10, 10)), Some((3, 2)));
    assert_eq!(offset((0, 0), (-1, 0), (10, 10)), None);
    assert_eq!(offset((9, 9), (1, 0), (10, 10)), None);
    assert_eq!(offset((9, 9), (0, 0), (10, 10)), Some((9, 9)));
    assert_eq!(offset((5, 5), (-5, -5), (10, 10)), Some((0, 0)));
}

#[test]
fn upload_download_round_trip_u32() {
    let tex = Texture::new(7, (3, 2), PixelFormat::R32Ui).unwrap();
    let cpu = CpuTexture::new(vec![10u32, 20, 30, 40, 50, 60], (3, 2));
    let desc = tex.upload(&cpu).unwrap();
    assert_eq!(desc.pixel_count, 6);
    // A faithful driver returns exactly the texels the upload stored.
    let returned = cpu.data().to_vec();
    let back = tex.download(returned).unwrap();
    assert_eq!(back.data(), cpu.data());
    assert_eq!(back.size, cpu.size);
}

#[test]
fn upload_download_round_trip_u16() {
    let tex = Texture::new(5, (2, 2), PixelFormat::R16).unwrap();
    let cpu = CpuTexture::new(vec![1u16, 2, 3, 4], (2, 2));
    tex.upload(&cpu).unwrap();
    let back = tex.download(cpu.data().to_vec()).unwrap();
    assert_eq!(back.data(), cpu.data());
}

#[test]
fn upload_download_round_trip_rgba8() {
    let tex = Texture::new(5, (2, 1), PixelFormat::Rgba8).unwrap();
    let cpu = CpuTexture::new(vec![[1u8, 2, 3, 4], [5, 6, 7, 8]], (2, 1));
    tex.upload(&cpu).unwrap();
    let back = tex.download(cpu.data().to_vec()).unwrap();
    assert_eq!(back.data(), cpu.data());
}

#[test]
fn upload_download_round_trip_rgba32f() {
    let tex = Texture::new(5, (1, 2), PixelFormat::Rgba32F).unwrap();
    let cpu = CpuTexture::new(vec![[0.5f32, 1.0, 0.0, 1.0], [0.25, 0.75, 0.125, 1.0]], (1, 2));
    tex.upload(&cpu).unwrap();
    let back = tex.download(cpu.data().to_vec()).unwrap();
    assert_eq!(back.data(), cpu.data());
}

#[test]
fn round_trip_drops_padding_only() {
    let tex = Texture::new(3, (2, 2), PixelFormat::R32Ui).unwrap();
    let padded = CpuTexture::new(vec![1u32, 2, 3, 4, 99, 98], (2, 2));
    tex.upload(&padded).unwrap();
    let back = tex.download(padded.data().to_vec()).unwrap();
    assert_eq!(back.data(), &[1, 2, 3, 4]);
    assert!(!back.data_too_long());
}

#[test]
fn upload_rejects_size_mismatch() {
    let tex = Texture::new(7, (3, 2), PixelFormat::R32Ui).unwrap();
    let wrong = CpuTexture::new_val(0u32, (2, 3));
    assert_eq!(tex.upload(&wrong).unwrap_err(), RenderError::SizeMismatch);
}

#[test]
fn download_rejects_wrong_payload_length() {
    let tex = Texture::new(7, (3, 2), PixelFormat::R32Ui).unwrap();
    assert_eq!(
        tex.download(vec![0u32; 5]).unwrap_err(),
        RenderError::SizeMismatch
    );
}

#[test]
fn texture_allocation_failure_is_resource_error() {
    assert_eq!(
        Texture::new(0, (4, 4), PixelFormat::Rgba8).unwrap_err(),
        RenderError::ResourceError
    );
}

#[test]
fn destroy_consumes_and_returns_the_handle() {
    let tex = Texture::new(11, (1, 1), PixelFormat::Rgba8).unwrap();
    // After this move the descriptor is gone: a second release or a later
    // bind would not compile.
    assert_eq!(tex.destroy(), 11);
}

#[test]
fn format_registry_is_total_and_fixed() {
    assert_eq!(PixelFormat::Rgba32F.internalformat(), 0x8814);
    assert_eq!(PixelFormat::Rgba8.internalformat(), 0x8058);
    assert_eq!(PixelFormat::R16.internalformat(), 0x822A);
    assert_eq!(PixelFormat::R32Ui.internalformat(), 0x8236);
    assert_eq!(PixelFormat::Rgba32F.element_size(), 16);
    assert_eq!(PixelFormat::Rgba8.element_size(), 4);
    assert_eq!(PixelFormat::R16.element_size(), 2);
    assert_eq!(PixelFormat::R32Ui.element_size(), 4);
}

#[test]
fn normalized_formats_correct_their_transfer_type() {
    let unsigned_normalized = 0x8C17;
    assert_eq!(
        PixelFormat::Rgba8.upload_transfer_type(unsigned_normalized),
        0x1401
    );
    assert_eq!(
        PixelFormat::R16.upload_transfer_type(unsigned_normalized),
        0x1403
    );
    assert_eq!(
        PixelFormat::Rgba32F.upload_transfer_type(unsigned_normalized),
        unsigned_normalized
    );
    assert_eq!(PixelFormat::Rgba8.upload_transfer_type(0x1406), 0x1406);
}

#[test]
fn transfer_desc_carries_extent_and_byte_size() {
    let tex = Texture::new(9, (4, 3), PixelFormat::Rgba32F).unwrap();
    let desc = tex.transfer_desc();
    assert_eq!(desc.texture_id, 9);
    assert_eq!(desc.width, 4);
    assert_eq!(desc.height, 3);
    assert_eq!(desc.internalformat, 0x8814);
    assert_eq!(desc.pixel_count, 12);
    assert_eq!(desc.byte_len, 192);
}

#[test]
fn bind_exposes_read_write_at_the_unit() {
    let tex = Texture::new(9, (4, 3), PixelFormat::R32Ui).unwrap();
    let bind = tex.bind(2);
    assert_eq!(bind.unit, 2);
    assert_eq!(bind.texture_id, 9);
    assert_eq!(bind.access, 0x88BA);
    assert_eq!(bind.internalformat, 0x8236);
}
