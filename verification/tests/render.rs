use std::cell::RefCell;

use imcraft::{render, BufImage, Rgba8};

#[test]
fn render_lays_cells_out_row_major() {
    let frame = render(3, 2, |x, y| Rgba8 {
        r: x as u8,
        g: y as u8,
        b: (10 * y + x) as u8,
        a: 255,
    });
    assert_eq!(
        frame,
        vec![
            0, 0, 0, 255, 1, 0, 1, 255, 2, 0, 2, 255, //
            0, 1, 10, 255, 1, 1, 11, 255, 2, 1, 12, 255,
        ]
    );
}

#[test]
fn render_keeps_channel_order() {
    let frame = render(1, 1, |_, _| Rgba8 { r: 1, g: 2, b: 3, a: 4 });
    assert_eq!(frame, vec![1, 2, 3, 4]);
}

#[test]
fn render_samples_each_cell_once_in_order() {
    let seen = RefCell::new(Vec::new());
    let frame = render(2, 3, |x, y| {
        seen.borrow_mut().push((x, y));
        Rgba8::transparent()
    });
    assert_eq!(frame.len(), 24);
    assert_eq!(seen.into_inner(), vec![(0, 0), (1, 0), (0, 1), (1, 1), (0, 2), (1, 2)]);
}

#[test]
fn render_empty_window() {
    assert_eq!(render(0, 4, |_, _| Rgba8 { r: 9, g: 9, b: 9, a: 9 }), Vec::<u8>::new());
    assert_eq!(render(4, 0, |_, _| Rgba8 { r: 9, g: 9, b: 9, a: 9 }), Vec::<u8>::new());
    assert_eq!(render(0, 0, |_, _| Rgba8 { r: 9, g: 9, b: 9, a: 9 }), Vec::<u8>::new());
}

#[test]
fn render_of_a_raster_over_its_extent_gives_its_bytes() {
    let data: Vec<u8> = (0..60).collect();
    let img = BufImage::from_raw(5, 3, data.clone()).unwrap();
    let frame = render(5, 3, |x, y| img.get(x as i64, y as i64));
    assert_eq!(frame, data);
}

#[test]
fn render_past_the_raster_is_transparent() {
    let img = BufImage::from_raw(1, 1, vec![9, 8, 7, 6]).unwrap();
    let frame = render(2, 2, |x, y| img.get(x as i64, y as i64));
    assert_eq!(frame, vec![9, 8, 7, 6, 0, 0, 0, 0, 0, 0, 0, 0, 0, 0, 0, 0]);
}

#[test]
fn render_opaque_red_raster_is_all_red() {
    let red = [255u8, 0, 0, 255];
    let img = BufImage::from_raw(2, 2, red.repeat(4)).unwrap();
    let frame = render(2, 2, |x, y| img.get(x as i64, y as i64));
    assert_eq!(frame, red.repeat(4));
}

#[test]
fn render_halved_raster_samples_doubled_cells() {
    let mut data = Vec::new();
    for y in 0..32u32 {
        for x in 0..32u32 {
            data.extend_from_slice(&[x as u8, y as u8, (x + y) as u8, 255]);
        }
    }
    let img = BufImage::from_raw(32, 32, data).unwrap();
    let frame = render(16, 16, |x, y| img.get(2 * x as i64, 2 * y as i64));
    let at = (10 * 16 + 10) * 4;
    assert_eq!(frame[at..at + 4], [20, 20, 40, 255]);
    assert_eq!(img.get(20, 20), Rgba8 { r: 20, g: 20, b: 40, a: 255 });
}
