use place_backend::canvas::Canvas;
use place_backend::place::{Place, PlaceError};
use place_backend::settings::CanvasSettings;
use place_backend::utils::{Color, RangedU16};

fn canvas_settings(size: u16, filename: &str) -> CanvasSettings {
    CanvasSettings {
        size: RangedU16::new(size).unwrap(),
        background_color: Color::rgb(255, 255, 255),
        filename: filename.to_string(),
    }
}

#[test]
fn nyauwunyanyanyanya() {
    let place = Place::new_memory(&CanvasSettings {
        size: RangedU16::new(512).unwrap(),
        background_color: Color::rgb(255, 255, 255),
        filename: String::new(),
    })
    .unwrap();

    let (x, y) = place.image.get_dimensions();
    for x in 0..x {
        for y in 0..y {
            place.image.put(
                x,
                y,
                Color::new(
                    ((x as f64 / 512.0) * 255.0) as u8,
                    ((y as f64 / 512.0) * 255.0) as u8,
                    ((!((x & y) * (x | y)) as f64 / 512.0) * 255.0) as u8,
                    255,
                ),
                false,
            );
        }
    }
}

#[test]
fn new_memory_is_blank_in_background_color() {
    let place = Place::new_memory(&canvas_settings(16, "")).unwrap();
    assert_eq!(place.image.get_dimensions(), (16, 16));
    let snap = place.image.snapshot();
    for x in 0..16 {
        for y in 0..16 {
            assert_eq!(snap.get_pixel(x, y), Some(Color::rgb(255, 255, 255)));
        }
    }
    assert_eq!(snap.get_pixel(16, 0), None);
}

#[test]
fn corner_draw_of_block_writes_only_corner() {
    let mut canvas = Canvas::new(16, 16, Color::rgb(255, 255, 255));
    let red = Color::rgb(255, 0, 0);
    canvas.put(15, 15, red, true);
    for x in 0..16 {
        for y in 0..16 {
            let expected = if (x, y) == (15, 15) { red } else { Color::rgb(255, 255, 255) };
            assert_eq!(canvas.get_pixel(x, y), Some(expected));
        }
    }
    assert_eq!(canvas.dimensions(), (16, 16));
}

#[test]
fn block_draw_writes_four_pixels() {
    let mut canvas = Canvas::new(16, 16, Color::rgb(0, 0, 0));
    let c = Color::new(1, 2, 3, 4);
    canvas.put(3, 4, c, true);
    let mut written = 0;
    for x in 0..16 {
        for y in 0..16 {
            if canvas.get_pixel(x, y) == Some(c) {
                written += 1;
                assert!((x == 3 || x == 4) && (y == 4 || y == 5));
            }
        }
    }
    assert_eq!(written, 4);
}

#[test]
fn draw_off_canvas_is_dropped() {
    let mut canvas = Canvas::new(16, 16, Color::rgb(0, 0, 0));
    canvas.put(16, 3, Color::rgb(9, 9, 9), true);
    canvas.put(3, 4000, Color::rgb(9, 9, 9), false);
    canvas.put(u32::MAX, u32::MAX, Color::rgb(9, 9, 9), true);
    for x in 0..16 {
        for y in 0..16 {
            assert_eq!(canvas.get_pixel(x, y), Some(Color::rgb(0, 0, 0)));
        }
    }
}

fn runtime() -> tokio::runtime::Runtime {
    tokio::runtime::Builder::new_multi_thread().worker_threads(4).build().unwrap()
}

#[test]
fn concurrent_disjoint_draws_are_all_kept() {
    let place = Place::new_memory(&canvas_settings(64, "")).unwrap();
    let rt = runtime();
    let mut tasks = Vec::new();
    for n in 0..1000u32 {
        let handle = place.image.clone();
        tasks.push(rt.spawn_blocking(move || {
            handle.put(n % 64, n / 64, Color::rgb((n % 256) as u8, (n / 256) as u8, 7), false);
        }));
    }
    for _ in 0..10 {
        let handle = place.image.clone();
        tasks.push(rt.spawn_blocking(move || {
            assert_eq!(handle.snapshot().dimensions(), (64, 64));
        }));
    }
    for t in tasks {
        rt.block_on(t).unwrap();
    }
    let snap = place.image.snapshot();
    for n in 0..1000u32 {
        assert_eq!(snap.get_pixel(n % 64, n / 64), Some(Color::rgb((n % 256) as u8, (n / 256) as u8, 7)));
    }
    assert_eq!(snap.get_pixel(63, 63), Some(Color::rgb(255, 255, 255)));
}

#[test]
fn concurrent_draws_on_one_pixel_never_tear() {
    let place = Place::new_memory(&canvas_settings(16, "")).unwrap();
    let a = Color::new(0x11, 0x22, 0x33, 0x44);
    let b = Color::new(0xaa, 0xbb, 0xcc, 0xdd);
    place.image.put(5, 5, a, false);
    let rt = runtime();
    let mut tasks = Vec::new();
    for t in 0..4u32 {
        let handle = place.image.clone();
        tasks.push(rt.spawn_blocking(move || {
            for i in 0..2000u32 {
                handle.put(5, 5, if (i + t) % 2 == 0 { a } else { b }, false);
            }
        }));
    }
    for _ in 0..4 {
        let handle = place.image.clone();
        tasks.push(rt.spawn_blocking(move || {
            for _ in 0..100 {
                let px = handle.snapshot().get_pixel(5, 5).unwrap();
                assert!(px == a || px == b);
            }
        }));
    }
    for t in tasks {
        rt.block_on(t).unwrap();
    }
}

#[test]
fn open_refuses_empty_filename() {
    let r = Place::open(&canvas_settings(16, ""), None);
    assert!(matches!(r, Err(PlaceError::EmptyFilename)));
}

#[test]
fn open_refuses_stored_image_of_other_size() {
    let stored = Canvas::new(32, 16, Color::rgb(0, 0, 0));
    let r = Place::open(&canvas_settings(16, "place.png"), Some(stored));
    assert!(matches!(
        r,
        Err(PlaceError::DimensionMismatch { found_width: 32, found_height: 16, expected: 16 })
    ));
}

#[test]
fn open_keeps_stored_image() {
    let mut stored = Canvas::new(16, 16, Color::rgb(0, 0, 0));
    stored.put(2, 3, Color::rgb(1, 2, 3), false);
    let place = Place::open(&canvas_settings(16, "place.png"), Some(stored)).unwrap();
    assert_eq!(place.path, "place.png");
    assert_eq!(place.image.snapshot().get_pixel(2, 3), Some(Color::rgb(1, 2, 3)));
    assert_eq!(place.image.snapshot().get_pixel(3, 2), Some(Color::rgb(0, 0, 0)));
}

#[test]
fn open_without_stored_image_is_blank() {
    let place = Place::open(&canvas_settings(16, "place.png"), None).unwrap();
    assert_eq!(place.image.get_dimensions(), (16, 16));
    assert_eq!(place.image.snapshot().get_pixel(7, 7), Some(Color::rgb(255, 255, 255)));
}

#[test]
fn raw_bytes_round_trip() {
    let mut raw = vec![0u8; 2 * 2 * 4];
    raw[4..8].copy_from_slice(&[10, 20, 30, 40]);
    let canvas = Canvas::from_raw(2, 2, raw.clone()).unwrap();
    assert_eq!(canvas.get_pixel(1, 0), Some(Color::new(10, 20, 30, 40)));
    assert_eq!(canvas.get_pixel(0, 1), Some(Color::new(0, 0, 0, 0)));
    assert_eq!(canvas.into_raw(), raw);
    assert!(Canvas::from_raw(2, 2, vec![0u8; 15]).is_none());
}

#[test]
fn png_frame_is_a_png_of_the_canvas() {
    let place = Place::new_memory(&canvas_settings(16, "")).unwrap();
    let png = place.image.encode_frame().unwrap();
    assert_eq!(&png[..8], &[0x89, b'P', b'N', b'G', 0x0d, 0x0a, 0x1a, 0x0a]);
    let again = place.image.snapshot().encode_png().unwrap();
    assert_eq!(png, again);
}

#[test]
fn smallest_canvas_encodes() {
    let canvas = Canvas::new(1, 1, Color::new(1, 2, 3, 4));
    let png = canvas.encode_png().unwrap();
    assert_eq!(&png[1..4], b"PNG");
    let wide = Canvas::new(300, 2, Color::rgb(0, 0, 0));
    assert!(wide.encode_png().is_some());
}
