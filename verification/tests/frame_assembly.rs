use pathtracer::color::Rgb;
use pathtracer::frame::{assemble_rows, pixel_index, RenderedRow};

fn px(v: u8) -> Rgb {
    Rgb::new(v, v, v)
}

#[test]
fn rgb_new_stores_channels() {
    let c = Rgb::new(7, 80, 255);
    assert_eq!(c.r, 7);
    assert_eq!(c.g, 80);
    assert_eq!(c.b, 255);
}

#[test]
fn pixel_index_is_row_major() {
    assert_eq!(pixel_index(4, 3, 0, 0), 0);
    assert_eq!(pixel_index(4, 3, 3, 0), 3);
    assert_eq!(pixel_index(4, 3, 2, 1), 6);
    assert_eq!(pixel_index(4, 3, 3, 2), 11);
}

#[test]
fn assemble_in_order() {
    let rows = vec![
        RenderedRow { y: 0, pixels: vec![px(1), px(2)] },
        RenderedRow { y: 1, pixels: vec![px(3), px(4)] },
    ];
    let buffer = assemble_rows(2, 2, &rows).unwrap();
    assert_eq!(buffer, vec![px(1), px(2), px(3), px(4)]);
}

#[test]
fn assemble_is_independent_of_delivery_order() {
    let forward = vec![
        RenderedRow { y: 0, pixels: vec![px(1), px(2), px(3)] },
        RenderedRow { y: 1, pixels: vec![px(4), px(5), px(6)] },
        RenderedRow { y: 2, pixels: vec![px(7), px(8), px(9)] },
    ];
    let shuffled = vec![
        RenderedRow { y: 2, pixels: vec![px(7), px(8), px(9)] },
        RenderedRow { y: 0, pixels: vec![px(1), px(2), px(3)] },
        RenderedRow { y: 1, pixels: vec![px(4), px(5), px(6)] },
    ];
    let a = assemble_rows(3, 3, &forward).unwrap();
    let b = assemble_rows(3, 3, &shuffled).unwrap();
    assert_eq!(a, b);
    assert_eq!(
        a,
        vec![px(1), px(2), px(3), px(4), px(5), px(6), px(7), px(8), px(9)]
    );
}

#[test]
fn assemble_rejects_short_row() {
    let rows = vec![
        RenderedRow { y: 0, pixels: vec![px(1), px(2)] },
        RenderedRow { y: 1, pixels: vec![px(3)] },
    ];
    assert!(assemble_rows(2, 2, &rows).is_none());
}

#[test]
fn assemble_rejects_duplicate_row_label() {
    let rows = vec![
        RenderedRow { y: 0, pixels: vec![px(1), px(2)] },
        RenderedRow { y: 0, pixels: vec![px(3), px(4)] },
    ];
    assert!(assemble_rows(2, 2, &rows).is_none());
}

#[test]
fn assemble_rejects_missing_row() {
    let rows = vec![RenderedRow { y: 0, pixels: vec![px(1), px(2)] }];
    assert!(assemble_rows(2, 2, &rows).is_none());
}

#[test]
fn assemble_rejects_row_outside_frame() {
    let rows = vec![
        RenderedRow { y: 0, pixels: vec![px(1), px(2)] },
        RenderedRow { y: 2, pixels: vec![px(3), px(4)] },
    ];
    assert!(assemble_rows(2, 2, &rows).is_none());
}

#[test]
fn assemble_empty_frame() {
    let rows: Vec<RenderedRow> = Vec::new();
    let buffer = assemble_rows(0, 0, &rows).unwrap();
    assert!(buffer.is_empty());
}
