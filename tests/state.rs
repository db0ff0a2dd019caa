use palette_anneal::{BackgroundColors, Mode, Rgb8, State, Weights};

fn c(red: u8, green: u8, blue: u8) -> Rgb8 {
    Rgb8 { red, green, blue }
}

fn weights() -> Weights {
    Weights {
        contrast_weight: 20000,
        distance_weight: 7500,
        range_weight: 2500,
        target_weight: 5000,
        protanopia_weight: 3300,
        deuteranopia_weight: 3300,
        tritanopia_weight: 3300,
        distance_bg_bg_weight: 1000,
        distance_bg_fg_weight: 2000,
        distance_fg_fg_weight: 7000,
        target_bg_weight: 1000,
        target_fg_weight: 9000,
        contrast_bg_bg_weight: 2000,
        contrast_bg_fg_weight: 8000,
    }
}

fn light_state() -> State<Rgb8> {
    State::new(Mode::Light.bg_colors(), Mode::Light.brand_colors(), weights())
}

#[test]
fn new_starts_at_the_reference() {
    let s = light_state();
    assert_eq!(s.fg_colors, Mode::Light.brand_colors());
    assert_eq!(s.target_fg_colors, Mode::Light.brand_colors());
    assert_eq!(s.bg_color_array, vec![c(0xe6, 0xeb, 0xf2)]);
    assert_eq!(s.target_bg_colors, vec![c(0xe6, 0xeb, 0xf2)]);
    assert_eq!(s.slot_count(), 15);
}

#[test]
fn color_slot_addresses_foregrounds_then_backgrounds() {
    let mut s = light_state();
    assert_eq!(*s.color_slot(0), c(0xff, 0xc2, 0x47));
    assert_eq!(*s.color_slot(14), c(0xe6, 0xeb, 0xf2));
}

#[test]
fn write_then_sync_background() {
    let mut s = light_state();
    *s.color_slot(14) = c(9, 9, 9);
    assert_eq!(s.bg_color_array, vec![c(9, 9, 9)]);
    assert_eq!(s.bg_colors.line_selection, c(0xe6, 0xeb, 0xf2));
    s.sync_bg_slot(14);
    assert_eq!(s.bg_colors.line_selection, c(9, 9, 9));
    assert_eq!(s.bg_colors.main, c(255, 255, 255));
}

#[test]
fn sync_of_a_foreground_changes_nothing() {
    let mut s = light_state();
    *s.color_slot(3) = c(1, 1, 1);
    s.sync_bg_slot(3);
    assert_eq!(s.fg_colors[3], c(1, 1, 1));
    assert_eq!(s.bg_colors, Mode::Light.bg_colors());
}

#[test]
fn replace_slot_and_roll_back() {
    let mut s = light_state();
    let prev = s.replace_slot(14, c(5, 6, 7));
    assert_eq!(prev, c(0xe6, 0xeb, 0xf2));
    assert_eq!(s.bg_colors.line_selection, c(5, 6, 7));
    let back = s.replace_slot(14, prev);
    assert_eq!(back, c(5, 6, 7));
    assert_eq!(s.bg_colors, Mode::Light.bg_colors());
    let prev_fg = s.replace_slot(0, c(0, 0, 0));
    assert_eq!(prev_fg, c(0xff, 0xc2, 0x47));
    assert_eq!(s.fg_colors[0], c(0, 0, 0));
    assert_eq!(s.target_fg_colors[0], c(0xff, 0xc2, 0x47));
}

#[test]
fn state_over_other_color_types() {
    let bg = BackgroundColors {
        main: 0u32,
        range_selection: 1,
        line_selection: 2,
        git_added: 3,
        git_line_selection: 4,
        git_deleted: 5,
    };
    let mut s = State::new(bg, vec![], weights());
    assert_eq!(s.slot_count(), 1);
    assert_eq!(s.replace_slot(0, 42), 2);
    assert_eq!(s.bg_colors.line_selection, 42);
}
