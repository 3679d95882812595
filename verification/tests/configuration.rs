use gw2buffbar::buffs::{BuffIcon, RGBColor, SingleBuffConfig};
use gw2buffbar::config::{ConfigError, LocalConfig, LocalConfigItem, LocalConfigItemIcon};
use gw2buffbar::decimal::{decimal_text, signed_decimal_text};
use gw2buffbar::handler::BuffHandler;
use gw2buffbar::compat::DataSource;
use gw2buffbar::ui::WindowHandler;
use gw2buffbar::{init, InitError};

fn color(r: u32, g: u32, b: u32) -> RGBColor {
    RGBColor::try_from([r, g, b]).unwrap()
}

fn circle_item(id: u32, channels: [u32; 3]) -> LocalConfigItem {
    LocalConfigItem {
        buff_id: id,
        window_pos: [100.5f32.to_bits(), 20.0f32.to_bits()],
        icon: LocalConfigItemIcon::CircleOutline { radius: 30, thickness: 4, color: channels },
        title: String::from("Might"),
        show_stacks: true,
    }
}

fn triangle_item(id: u32, channels: [u32; 3]) -> LocalConfigItem {
    LocalConfigItem {
        buff_id: id,
        window_pos: [0.0f32.to_bits(), 640.25f32.to_bits()],
        icon: LocalConfigItemIcon::TriangleUp { side_length: 48, color: channels },
        title: String::new(),
        show_stacks: false,
    }
}

#[test]
fn color_keeps_its_channels() {
    let c = color(0, 128, 255);
    assert_eq!(c.r(), 0);
    assert_eq!(c.g(), 128);
    assert_eq!(c.b(), 255);
}

#[test]
fn color_above_255_is_refused_in_each_channel() {
    assert_eq!(RGBColor::try_from([256, 0, 0]), Err(ConfigError::ColorOutOfRange));
    assert_eq!(RGBColor::try_from([0, 256, 0]), Err(ConfigError::ColorOutOfRange));
    assert_eq!(RGBColor::try_from([0, 0, 256]), Err(ConfigError::ColorOutOfRange));
    assert_eq!(RGBColor::try_from([u32::MAX, 1, 2]), Err(ConfigError::ColorOutOfRange));
    assert!(RGBColor::try_from([255, 255, 255]).is_ok());
}

#[test]
fn color_error_has_its_text() {
    assert_eq!(ConfigError::ColorOutOfRange.message(), "color values must be between 0-255");
}

#[test]
fn new_config_has_no_stacks() {
    let icon = BuffIcon::TriangleUp { side_length: 10, color: color(1, 2, 3) };
    let c = SingleBuffConfig::new(740, 5, 6, String::from("t"), icon, true);
    assert_eq!(c.buff_id, 740);
    assert_eq!(c.window_x, 5);
    assert_eq!(c.window_y, 6);
    assert_eq!(c.opt_title, "t");
    assert_eq!(c.icon, icon);
    assert_eq!(c.active_stacks, 0);
    assert!(c.show_stacks);
}

#[test]
fn with_stacks_changes_the_count_alone() {
    let icon = BuffIcon::CircleOutline { radius: 3, thickness: 1, color: color(9, 8, 7) };
    let c = SingleBuffConfig::new(740, 5, 6, String::from("t"), icon, true);
    let seen = c.with_stacks(25);
    assert_eq!(seen.active_stacks, 25);
    assert_eq!(seen, SingleBuffConfig { active_stacks: 25, ..c.clone() });
    assert_eq!(c.active_stacks, 0);
    assert_eq!(c.clone(), c);
}

#[test]
fn circle_record_is_validated() {
    let got = SingleBuffConfig::try_from(&circle_item(740, [255, 0, 10])).unwrap();
    assert_eq!(
        got,
        SingleBuffConfig {
            buff_id: 740,
            window_x: 100.5f32.to_bits(),
            window_y: 20.0f32.to_bits(),
            opt_title: String::from("Might"),
            icon: BuffIcon::CircleOutline { radius: 30, thickness: 4, color: color(255, 0, 10) },
            active_stacks: 0,
            show_stacks: true,
        }
    );
    assert_eq!(f32::from_bits(got.window_x), 100.5);
    assert_eq!(f32::from_bits(got.window_y), 20.0);
}

#[test]
fn triangle_record_is_validated() {
    let got = SingleBuffConfig::try_from(&triangle_item(1187, [1, 2, 3])).unwrap();
    assert_eq!(
        got,
        SingleBuffConfig {
            buff_id: 1187,
            window_x: 0.0f32.to_bits(),
            window_y: 640.25f32.to_bits(),
            opt_title: String::new(),
            icon: BuffIcon::TriangleUp { side_length: 48, color: color(1, 2, 3) },
            active_stacks: 0,
            show_stacks: false,
        }
    );
}

#[test]
fn record_with_bad_color_is_refused() {
    assert_eq!(
        SingleBuffConfig::try_from(&circle_item(740, [0, 300, 0])),
        Err(ConfigError::ColorOutOfRange)
    );
    assert_eq!(
        SingleBuffConfig::try_from(&triangle_item(740, [0, 0, 256])),
        Err(ConfigError::ColorOutOfRange)
    );
}

#[test]
fn title_is_the_name_of_the_window() {
    let c = SingleBuffConfig::try_from(&circle_item(740, [1, 2, 3])).unwrap();
    assert!(c.has_title());
    assert_eq!(c.window_title(), "Might");
    assert_eq!(c.title_bar_height(), 20);
}

#[test]
fn identifier_names_a_window_without_title() {
    let c = SingleBuffConfig::try_from(&triangle_item(26980, [1, 2, 3])).unwrap();
    assert!(!c.has_title());
    assert_eq!(c.window_title(), "26980");
    assert_eq!(c.title_bar_height(), 0);
    let zero = SingleBuffConfig::try_from(&triangle_item(0, [1, 2, 3])).unwrap();
    assert_eq!(zero.window_title(), "0");
    let top = SingleBuffConfig::try_from(&triangle_item(u32::MAX, [1, 2, 3])).unwrap();
    assert_eq!(top.window_title(), "4294967295");
}

#[test]
fn title_bar_under_a_triangle_is_22() {
    let mut item = triangle_item(5, [1, 2, 3]);
    item.title = String::from("Fury");
    let c = SingleBuffConfig::try_from(&item).unwrap();
    assert_eq!(c.title_bar_height(), 22);
    assert_eq!(c.window_title(), "Fury");
}

#[test]
fn circle_carries_the_stack_count() {
    let c = SingleBuffConfig::try_from(&circle_item(740, [1, 2, 3])).unwrap();
    assert_eq!(c.stack_label(), Some(String::from("0")));
    assert_eq!(c.with_stacks(25).stack_label(), Some(String::from("25")));
    assert_eq!(c.with_stacks(-3).stack_label(), Some(String::from("-3")));
    assert_eq!(c.with_stacks(i32::MIN).stack_label(), Some(String::from("-2147483648")));
}

#[test]
fn no_label_where_not_asked_for_or_on_a_triangle() {
    let mut quiet = circle_item(740, [1, 2, 3]);
    quiet.show_stacks = false;
    let c = SingleBuffConfig::try_from(&quiet).unwrap();
    assert_eq!(c.with_stacks(5).stack_label(), None);
    let mut tri = triangle_item(740, [1, 2, 3]);
    tri.show_stacks = true;
    let t = SingleBuffConfig::try_from(&tri).unwrap();
    assert_eq!(t.with_stacks(5).stack_label(), None);
}

#[test]
fn init_registers_every_record() {
    let mut handler = BuffHandler::new(DataSource::new(true, true), 0);
    let config = LocalConfig {
        items: vec![circle_item(740, [1, 2, 3]), triangle_item(718, [4, 5, 6])],
    };
    assert_eq!(init(&mut handler, Ok(config)), Ok(()));
    assert_eq!(
        handler.watched(740),
        Some(&SingleBuffConfig::try_from(&circle_item(740, [1, 2, 3])).unwrap())
    );
    assert_eq!(
        handler.watched(718),
        Some(&SingleBuffConfig::try_from(&triangle_item(718, [4, 5, 6])).unwrap())
    );
    assert_eq!(handler.watched(719), None);
    assert!(!handler.is_visible());
}

#[test]
fn init_without_source_registers_nothing() {
    let mut handler = BuffHandler::new(DataSource::new(true, false), 0);
    let config = LocalConfig { items: vec![circle_item(740, [1, 2, 3])] };
    let got = init(&mut handler, Ok(config));
    assert_eq!(got, Err(InitError::Unavailable));
    assert_eq!(got.unwrap_err().message(), "couldn't grab DLL function");
    assert_eq!(handler.watched(740), None);
}

#[test]
fn init_without_source_reports_that_before_a_failed_load() {
    let mut handler = BuffHandler::new(DataSource::new(false, false), 0);
    assert_eq!(init(&mut handler, Err(String::from("missing"))), Err(InitError::Unavailable));
}

#[test]
fn init_reports_a_failed_load() {
    let mut handler = BuffHandler::new(DataSource::new(true, true), 0);
    let got = init(&mut handler, Err(String::from("file not found")));
    assert_eq!(got, Err(InitError::Load(String::from("file not found"))));
    assert_eq!(
        got.unwrap_err().message(),
        "failed to load gw2buffbar.json (error: file not found)"
    );
}

#[test]
fn init_with_a_bad_record_registers_nothing() {
    let mut handler = BuffHandler::new(DataSource::new(true, true), 0);
    let config = LocalConfig {
        items: vec![
            circle_item(1, [1, 2, 3]),
            triangle_item(2, [0, 300, 0]),
            circle_item(3, [7, 8, 9]),
        ],
    };
    let got = init(&mut handler, Ok(config));
    assert_eq!(
        got,
        Err(InitError::ConfigValidation { index: 1, error: ConfigError::ColorOutOfRange })
    );
    assert_eq!(got.unwrap_err().message(), "color values must be between 0-255");
    assert_eq!(handler.watched(1), None);
    assert_eq!(handler.watched(2), None);
    assert_eq!(handler.watched(3), None);
}

#[test]
fn init_names_the_first_of_several_bad_records() {
    let mut handler = BuffHandler::new(DataSource::new(true, true), 0);
    let config = LocalConfig {
        items: vec![
            circle_item(740, [1, 2, 3]),
            circle_item(718, [4, 5, 6]),
            triangle_item(719, [4, 5, 256]),
            circle_item(720, [256, 8, 9]),
        ],
    };
    assert_eq!(
        init(&mut handler, Ok(config)),
        Err(InitError::ConfigValidation { index: 2, error: ConfigError::ColorOutOfRange })
    );
    assert_eq!(handler.watched(740), None);
    assert_eq!(handler.watched(718), None);
}

#[test]
fn failed_init_leaves_earlier_registrations_alone() {
    let mut handler = BuffHandler::new(DataSource::new(true, true), 0);
    let kept = SingleBuffConfig::try_from(&circle_item(7, [1, 2, 3])).unwrap();
    handler.watch_buff(kept.clone());
    handler.set_visible(true);
    let config = LocalConfig {
        items: vec![triangle_item(7, [9, 9, 9]), circle_item(8, [0, 0, 1000])],
    };
    assert_eq!(
        init(&mut handler, Ok(config)),
        Err(InitError::ConfigValidation { index: 1, error: ConfigError::ColorOutOfRange })
    );
    assert_eq!(handler.watched(7), Some(&kept));
    assert_eq!(handler.watched(8), None);
    assert!(handler.is_visible());
}

#[test]
fn watch_all_registers_all_or_nothing() {
    let mut handler = BuffHandler::new(DataSource::new(true, true), 0);
    let bad = vec![circle_item(1, [1, 2, 3]), circle_item(2, [1, 2, 256])];
    assert_eq!(handler.watch_all(&bad), Err((1, ConfigError::ColorOutOfRange)));
    assert_eq!(handler.watched(1), None);
    let good = vec![circle_item(1, [1, 2, 3]), triangle_item(2, [1, 2, 255])];
    assert_eq!(handler.watch_all(&good), Ok(()));
    assert_eq!(
        handler.watched(1),
        Some(&SingleBuffConfig::try_from(&circle_item(1, [1, 2, 3])).unwrap())
    );
    assert_eq!(
        handler.watched(2),
        Some(&SingleBuffConfig::try_from(&triangle_item(2, [1, 2, 255])).unwrap())
    );
}

#[test]
fn init_with_empty_configuration_succeeds() {
    let mut handler = BuffHandler::new(DataSource::new(true, true), 0);
    assert_eq!(init(&mut handler, Ok(LocalConfig { items: vec![] })), Ok(()));
}

#[test]
fn later_record_replaces_an_earlier_one_with_the_same_identifier() {
    let mut handler = BuffHandler::new(DataSource::new(true, true), 0);
    let config = LocalConfig {
        items: vec![circle_item(740, [1, 2, 3]), triangle_item(740, [4, 5, 6])],
    };
    assert_eq!(init(&mut handler, Ok(config)), Ok(()));
    assert_eq!(
        handler.watched(740),
        Some(&SingleBuffConfig::try_from(&triangle_item(740, [4, 5, 6])).unwrap())
    );
}

#[test]
fn main_window_starts_hidden() {
    let w = WindowHandler::new();
    assert!(!w.is_main_visible);
    assert_eq!(w.render_main_window(vec![String::from("a")]), None);
}

#[test]
fn shown_main_window_shows_every_line_in_order() {
    let mut w = WindowHandler::new();
    w.is_main_visible = true;
    let lines = vec![String::from("b"), String::from("a"), String::from("b")];
    assert_eq!(w.render_main_window(lines.clone()), Some(lines));
}

#[test]
fn whole_numbers_are_written_in_decimal() {
    assert_eq!(decimal_text(0), "0");
    assert_eq!(decimal_text(7), "7");
    assert_eq!(decimal_text(10), "10");
    assert_eq!(decimal_text(909), "909");
    assert_eq!(decimal_text(1000), "1000");
    assert_eq!(decimal_text(u32::MAX), "4294967295");
    assert_eq!(signed_decimal_text(0), "0");
    assert_eq!(signed_decimal_text(-1), "-1");
    assert_eq!(signed_decimal_text(25), "25");
    assert_eq!(signed_decimal_text(i32::MAX), "2147483647");
    assert_eq!(signed_decimal_text(i32::MIN), "-2147483648");
    for n in [1u32, 9, 11, 99, 100, 12345, 740, 26980, 4000000000] {
        assert_eq!(decimal_text(n), n.to_string());
    }
    for n in [-9i32, -10, -99, -100, -12345, 12345] {
        assert_eq!(signed_decimal_text(n), n.to_string());
    }
}
