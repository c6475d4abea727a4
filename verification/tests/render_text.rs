use tim2::render::braille::{render_braille, render_braille_enhanced};
use tim2::render::cells::{CellColor, CellRect, TermCell};
use tim2::render::halfblock::render_halfblock;
use tim2::render::pixels::{braille_size_for_area, Pixels};
use tim2::render::TextSettings;

fn solid(w: u32, h: u32, px: [u8; 4]) -> Pixels {
    let mut data = Vec::new();
    for _ in 0..(w * h) {
        data.extend_from_slice(&px);
    }
    Pixels::new(w, h, data).unwrap()
}

fn settings(halfblock: bool, dual_color: bool, supersample: bool) -> TextSettings {
    TextSettings { halfblock, dual_color, supersample }
}

#[test]
fn default_settings_are_plain_braille() {
    let s = TextSettings::default();
    assert_eq!(s, settings(false, false, false));
    assert_eq!(s.label(), "Braille");
}

#[test]
fn image_size_per_mode() {
    assert_eq!(settings(true, false, false).image_size(80, 24), (80, 48));
    assert_eq!(settings(false, false, true).image_size(80, 24), (320, 192));
    assert_eq!(settings(false, false, false).image_size(80, 24), (160, 96));
    assert_eq!(settings(false, true, false).image_size(10, 5), (20, 20));
}

#[test]
fn image_size_never_below_one_cell() {
    assert_eq!(settings(true, false, false).image_size(0, 0), (1, 2));
    assert_eq!(settings(false, false, true).image_size(0, 0), (4, 8));
    assert_eq!(settings(false, false, false).image_size(0, 3), (2, 12));
}

#[test]
fn labels() {
    assert_eq!(settings(true, true, true).label(), "HalfBlock");
    assert_eq!(settings(false, true, false).label(), "Braille+DualColor");
    assert_eq!(settings(false, false, true).label(), "Braille+SS");
    assert_eq!(settings(false, true, true).label(), "Braille+DualColor+SS");
}

#[test]
fn toggles_report_new_state() {
    let mut s = TextSettings::default();
    assert_eq!(s.toggle_halfblock(), "Renderer: HalfBlock");
    assert!(s.halfblock);
    assert_eq!(s.toggle_halfblock(), "Renderer: Braille");
    assert_eq!(s.toggle_dual_color(), "Dual color: ON");
    assert_eq!(s.toggle_dual_color(), "Dual color: OFF");
    assert_eq!(s.toggle_supersample(), "Supersample: ON");
    assert_eq!(s, settings(false, false, true));
}

#[test]
fn pixels_new_checks_length() {
    assert!(Pixels::new(2, 2, vec![0; 16]).is_some());
    assert!(Pixels::new(2, 2, vec![0; 15]).is_none());
    let p = Pixels::new(1, 2, vec![1, 2, 3, 4, 5, 6, 7, 8]).unwrap();
    assert_eq!(p.get_pixel(0, 1), [5, 6, 7, 8]);
}

#[test]
fn braille_size_is_two_by_four_per_cell() {
    assert_eq!(braille_size_for_area(CellRect { x: 3, y: 4, width: 10, height: 6 }), (20, 24));
}

#[test]
fn braille_full_white_cell() {
    let img = solid(2, 4, [255, 255, 255, 255]);
    let out = render_braille(&img, CellRect { x: 5, y: 6, width: 3, height: 3 });
    assert_eq!(
        out,
        vec![TermCell { x: 5, y: 6, ch: '\u{28FF}', fg: CellColor::Rgb(255, 255, 255), bg: None }]
    );
}

#[test]
fn braille_dark_cell_is_blank() {
    let img = solid(4, 4, [10, 10, 10, 255]);
    let out = render_braille(&img, CellRect { x: 0, y: 0, width: 5, height: 5 });
    assert_eq!(out.len(), 2);
    assert_eq!(out[0], TermCell { x: 0, y: 0, ch: '\u{2800}', fg: CellColor::Reset, bg: None });
    assert_eq!(out[1].x, 1);
}

#[test]
fn braille_single_dots_map_to_bits() {
    // Only the pixel at column 1, row 3 of the cell is lit: bit 7.
    let mut data = vec![0u8; 2 * 4 * 4];
    let i = (3 * 2 + 1) * 4;
    data[i..i + 4].copy_from_slice(&[200, 100, 50, 255]);
    let img = Pixels::new(2, 4, data).unwrap();
    let out = render_braille(&img, CellRect { x: 0, y: 0, width: 1, height: 1 });
    assert_eq!(out[0].ch, '\u{2880}');
    assert_eq!(out[0].fg, CellColor::Rgb(200, 100, 50));
    // Only the pixel at column 1, row 0: bit 3.
    let mut data = vec![0u8; 2 * 4 * 4];
    data[4..8].copy_from_slice(&[255, 255, 255, 255]);
    let img = Pixels::new(2, 4, data).unwrap();
    let out = render_braille(&img, CellRect { x: 0, y: 0, width: 1, height: 1 });
    assert_eq!(out[0].ch, '\u{2808}');
}

#[test]
fn braille_clips_to_area_and_image() {
    let img = solid(8, 8, [255, 255, 255, 255]);
    let out = render_braille(&img, CellRect { x: 0, y: 0, width: 3, height: 5 });
    // 4 columns in the image but 3 in the area; 2 rows in the image.
    assert_eq!(out.len(), 6);
    let out = render_braille(&img, CellRect { x: 0, y: 0, width: 0, height: 5 });
    assert!(out.is_empty());
}

#[test]
fn halfblock_top_and_bottom_colors() {
    let mut data = vec![255, 0, 0, 255];
    data.extend_from_slice(&[0, 0, 255, 128]);
    let img = Pixels::new(1, 2, data).unwrap();
    let out = render_halfblock(&img, CellRect { x: 1, y: 1, width: 4, height: 4 });
    assert_eq!(
        out,
        vec![TermCell {
            x: 1,
            y: 1,
            ch: '\u{2580}',
            fg: CellColor::Rgb(255, 0, 0),
            bg: Some(CellColor::Rgb(0, 0, 128)),
        }]
    );
}

#[test]
fn enhanced_dual_color_sets_background_of_unlit_dots() {
    // Left column lit white, right column dim blue.
    let mut data = Vec::new();
    for _ in 0..4 {
        data.extend_from_slice(&[255, 255, 255, 255]);
        data.extend_from_slice(&[0, 0, 60, 255]);
    }
    let img = Pixels::new(2, 4, data).unwrap();
    let area = CellRect { x: 0, y: 0, width: 1, height: 1 };
    let out = render_braille_enhanced(&img, area, true, false);
    assert_eq!(out.len(), 1);
    assert_eq!(out[0].ch, '\u{2847}');
    assert_eq!(out[0].fg, CellColor::Rgb(255, 255, 255));
    assert_eq!(out[0].bg, Some(CellColor::Rgb(0, 0, 60)));
    let plain = render_braille_enhanced(&img, area, false, false);
    assert_eq!(plain[0].bg, None);
    assert_eq!(plain[0].ch, '\u{2847}');
}

#[test]
fn enhanced_supersample_uses_two_by_two_blocks() {
    let img = solid(4, 8, [255, 255, 255, 255]);
    let out = render_braille_enhanced(&img, CellRect { x: 0, y: 0, width: 9, height: 9 }, false, true);
    assert_eq!(out.len(), 1);
    assert_eq!(out[0].ch, '\u{28FF}');
}

#[test]
fn render_text_picks_the_renderer() {
    let img = solid(2, 4, [255, 255, 255, 255]);
    let area = CellRect { x: 0, y: 0, width: 2, height: 2 };
    assert_eq!(settings(false, false, false).render_text(&img, area), render_braille(&img, area));
    assert_eq!(settings(true, false, false).render_text(&img, area), render_halfblock(&img, area));
    assert_eq!(
        settings(false, true, false).render_text(&img, area),
        render_braille_enhanced(&img, area, true, false)
    );
    assert_eq!(settings(true, false, false).render_text(&img, area).len(), 4);
}

#[test]
fn sized_image_fills_area() {
    let area = CellRect { x: 1, y: 1, width: 7, height: 3 };
    for s in [
        settings(true, false, false),
        settings(false, false, false),
        settings(false, true, false),
        settings(false, false, true),
    ] {
        let (w, h) = s.image_size(area.width as u32, area.height as u32);
        let img = solid(w, h, [255, 255, 255, 255]);
        assert_eq!(s.render_text(&img, area).len(), 21);
    }
}

#[test]
fn braille_sized_image_fills_area() {
    let area = CellRect { x: 2, y: 1, width: 5, height: 3 };
    let (w, h) = braille_size_for_area(area);
    let img = solid(w, h, [255, 255, 255, 255]);
    let out = render_braille(&img, area);
    assert_eq!(out.len(), 15);
    assert_eq!((out[0].x, out[0].y), (2, 1));
    assert_eq!((out[14].x, out[14].y), (6, 3));
    assert!(out.iter().all(|c| c.ch == '\u{28FF}'));
}

#[test]
fn braille_images_start_transparent() {
    let img = tim2::render::pixels::braille_image(3, 2);
    assert_eq!((img.width, img.height), (3, 2));
    assert_eq!(img.data, vec![0u8; 24]);
    let area = CellRect { x: 9, y: 9, width: 4, height: 2 };
    let img = tim2::render::pixels::braille_image_for_area(area);
    assert_eq!((img.width, img.height), (8, 8));
    assert!(img.data.iter().all(|b| *b == 0));
    let out = render_braille(&img, area);
    assert_eq!(out.len(), 8);
    assert!(out.iter().all(|c| c.ch == '\u{2800}' && c.fg == CellColor::Reset));
}

#[test]
fn empty_area_gets_no_cells_from_minimum_image() {
    let area = CellRect { x: 0, y: 0, width: 0, height: 0 };
    for s in [settings(true, false, false), settings(false, false, false), settings(false, false, true)] {
        let (w, h) = s.image_size(0, 0);
        let img = solid(w, h, [255, 255, 255, 255]);
        assert!(s.render_text(&img, area).is_empty());
    }
}

#[test]
fn enhanced_without_options_is_plain_braille() {
    let mut data = Vec::new();
    for i in 0..(6 * 8) {
        let v = (i * 37 % 256) as u8;
        data.extend_from_slice(&[v, 255 - v, v / 2, if i % 3 == 0 { 255 } else { 90 }]);
    }
    let img = Pixels::new(6, 8, data).unwrap();
    let area = CellRect { x: 1, y: 2, width: 5, height: 5 };
    let plain = render_braille(&img, area);
    assert_eq!(plain.len(), 6);
    assert_eq!(render_braille_enhanced(&img, area, false, false), plain);
}
