use wgs::{align_up, f32_bits_fixed, trim_image_buffer, PixelPos, UniformState, Viewport};

#[test]
fn f32_bits_of_whole_numbers() {
    assert_eq!(f32_bits_fixed(false, 0), 0.0f32.to_bits());
    assert_eq!(f32_bits_fixed(true, 0), (-0.0f32).to_bits());
    assert_eq!(f32_bits_fixed(false, 1 << 23), 1.0f32.to_bits());
    assert_eq!(f32_bits_fixed(false, 3 << 22), 1.5f32.to_bits());
    assert_eq!(f32_bits_fixed(false, 1 << 24), 2.0f32.to_bits());
    assert_eq!(f32_bits_fixed(true, 1 << 24), (-2.0f32).to_bits());
    assert_eq!(f32_bits_fixed(false, 800 << 23), 800.0f32.to_bits());
    assert_eq!(f32_bits_fixed(false, 16_777_215 << 23), 16_777_215.0f32.to_bits());
}

#[test]
fn f32_bits_of_fractions() {
    // one fixed-point step is 2^-23
    assert_eq!(f32_bits_fixed(false, 1), (1.0f32 / 8_388_608.0f32).to_bits());
    // half: 1 << 22
    assert_eq!(f32_bits_fixed(false, 1 << 22), 0.5f32.to_bits());
    // 100 ms truncates to 838860 fixed-point steps
    assert_eq!(f32_bits_fixed(false, 838_860), (838_860.0f32 / 8_388_608.0f32).to_bits());
}

#[test]
fn uniform_block_layout_is_48_bytes_le() {
    let u = UniformState {
        resolution_x: 800,
        resolution_y: 600,
        time_millis: 1500,
        cursor: PixelPos { x: 10, y: -3 },
        mouse_down: true,
        mouse_press: PixelPos { x: 1, y: 2 },
        mouse_release: PixelPos { x: 3, y: 4 },
    };
    let b = u.to_bytes();
    assert_eq!(b.len(), 48);
    assert_eq!(&b[0..4], &800.0f32.to_le_bytes());
    assert_eq!(&b[4..8], &600.0f32.to_le_bytes());
    assert_eq!(&b[8..12], &1.5f32.to_le_bytes());
    assert_eq!(&b[12..16], &[0, 0, 0, 0]);
    assert_eq!(&b[16..20], &10.0f32.to_le_bytes());
    assert_eq!(&b[20..24], &(-3.0f32).to_le_bytes());
    assert_eq!(&b[24..28], &1u32.to_le_bytes());
    assert_eq!(&b[28..32], &[0, 0, 0, 0]);
    assert_eq!(&b[32..36], &1.0f32.to_le_bytes());
    assert_eq!(&b[36..40], &2.0f32.to_le_bytes());
    assert_eq!(&b[40..44], &3.0f32.to_le_bytes());
    assert_eq!(&b[44..48], &4.0f32.to_le_bytes());
}

#[test]
fn uniform_block_mouse_up_writes_zero_flag() {
    let mut u = UniformState {
        resolution_x: 1,
        resolution_y: 1,
        time_millis: 0,
        cursor: PixelPos { x: 0, y: 0 },
        mouse_down: false,
        mouse_press: PixelPos { x: 0, y: 0 },
        mouse_release: PixelPos { x: 0, y: 0 },
    };
    let b = u.to_bytes();
    assert_eq!(&b[24..28], &0u32.to_le_bytes());
    u.mouse_down = true;
    let b2 = u.to_bytes();
    assert_eq!(&b2[24..28], &1u32.to_le_bytes());
}

#[test]
fn align_up_rounds_to_next_multiple() {
    assert_eq!(align_up(0, 256), 0);
    assert_eq!(align_up(1, 256), 256);
    assert_eq!(align_up(256, 256), 256);
    assert_eq!(align_up(257, 256), 512);
    assert_eq!(align_up(1024, 256), 1024);
    assert_eq!(align_up(5, 4), 8);
    assert_eq!(align_up(8, 4), 8);
}

#[test]
fn trim_crops_depads_and_swizzles() {
    // A 4-pixel-wide, 2-row raw buffer with a 16-byte row stride; capture
    // the two middle pixels of the second row.
    let buffer: Vec<u8> = (0..32).collect();
    let vp = Viewport { x: 1, y: 1, width: 2, height: 1 };
    let out = trim_image_buffer(&vp, 16, buffer.as_slice());
    // source pixel at row 1, col 1 starts at byte 20; col 2 at byte 24.
    // channels 0 and 2 swap.
    assert_eq!(out, vec![22, 21, 20, 23, 26, 25, 24, 27]);
}

#[test]
fn trim_full_surface_identity_positions() {
    // A 1-pixel image with no padding: only the channel swap remains.
    let buffer: Vec<u8> = vec![10, 20, 30, 40];
    let vp = Viewport { x: 0, y: 0, width: 1, height: 1 };
    let out = trim_image_buffer(&vp, 4, buffer.as_slice());
    assert_eq!(out, vec![30, 20, 10, 40]);
}
