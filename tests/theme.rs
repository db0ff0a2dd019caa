use palette_anneal::{rgb, BackgroundColors, Mode, Rgb8, Shade};

fn c(red: u8, green: u8, blue: u8) -> Rgb8 {
    Rgb8 { red, green, blue }
}

#[test]
fn rgb_reads_six_digits() {
    assert_eq!(rgb("#ffffff"), Some(c(255, 255, 255)));
    assert_eq!(rgb("#e6ebf2"), Some(c(0xe6, 0xeb, 0xf2)));
    assert_eq!(rgb("#5033E1"), Some(c(0x50, 0x33, 0xe1)));
    assert_eq!(rgb("1d212f"), Some(c(0x1d, 0x21, 0x2f)));
}

#[test]
fn rgb_reads_three_digits() {
    assert_eq!(rgb("#fa0"), Some(c(255, 170, 0)));
    assert_eq!(rgb("000"), Some(c(0, 0, 0)));
}

#[test]
fn rgb_refuses_other_text() {
    assert_eq!(rgb(""), None);
    assert_eq!(rgb("#"), None);
    assert_eq!(rgb("#gggggg"), None);
    assert_eq!(rgb("#ffff"), None);
    assert_eq!(rgb("##fff"), None);
    assert_eq!(rgb("#+f+f+f"), None);
    assert_eq!(rgb("#ffffff0"), None);
    assert_eq!(rgb("#\u{e9}00"), None);
}

#[test]
fn brand_color_keys_per_mode() {
    assert_eq!(Mode::Light.brand_color_keys(), vec!["medium", "dark"]);
    assert_eq!(Mode::Dark.brand_color_keys(), vec!["light", "medium"]);
    assert_eq!(Shade::Mist.key(), "mist");
}

#[test]
fn brand_colors_concatenate_rows() {
    let light = Mode::Light.brand_colors();
    assert_eq!(light.len(), 14);
    assert_eq!(light[0], c(0xff, 0xc2, 0x47));
    assert_eq!(light[6], c(0x17, 0xab, 0x52));
    assert_eq!(light[7], c(0xff, 0x99, 0x33));
    assert_eq!(light[13], c(0x1f, 0x7d, 0x45));
    let mut expected = Shade::Light.colors();
    expected.extend(Shade::Medium.colors());
    assert_eq!(Mode::Dark.brand_colors(), expected);
    assert_eq!(Shade::Mist.colors()[4], c(0xbf, 0xbf, 0xff));
}

#[test]
fn light_mode_backgrounds() {
    let bg = Mode::Light.bg_colors();
    assert_eq!(bg.main, c(255, 255, 255));
    assert_eq!(bg.line_selection, c(0xe6, 0xeb, 0xf2));
    assert_eq!(bg.range_selection, c(0xfe, 0xda, 0xbd));
    assert_eq!(bg.into_array(), [c(255, 255, 255), c(0xe6, 0xeb, 0xf2)]);
    assert_eq!(bg.updateable_array(), [c(0xe6, 0xeb, 0xf2)]);
}

#[test]
fn dark_mode_backgrounds() {
    let bg = Mode::Dark.bg_colors();
    assert_eq!(bg.main, c(0x1d, 0x21, 0x2f));
    assert_eq!(bg.git_deleted, c(0x3e, 0x1d, 0x1d));
    assert_eq!(BackgroundColors::<Rgb8>::COUNT, 2);
    assert_eq!(BackgroundColors::<Rgb8>::MODIFIABLE_COUNT, 1);
}

#[test]
fn update_writes_the_line_selection() {
    let mut bg = Mode::Light.bg_colors();
    bg.update([c(1, 2, 3)]);
    assert_eq!(bg.line_selection, c(1, 2, 3));
    assert_eq!(bg.main, c(255, 255, 255));
    assert_eq!(bg.git_line_selection, c(0xe6, 0xeb, 0xf2));
}

#[test]
fn background_contrast_pairs() {
    let bg = BackgroundColors {
        main: 0,
        range_selection: 1,
        line_selection: 2,
        git_added: 3,
        git_line_selection: 4,
        git_deleted: 5,
    };
    assert_eq!(
        bg.contrast_pairs(),
        vec![
            (0, 1),
            (0, 2),
            (0, 3),
            (0, 4),
            (0, 5),
            (1, 2),
            (1, 3),
            (1, 4),
            (1, 5),
            (3, 4),
            (3, 5),
            (4, 5),
        ]
    );
}
