use gphoto2::error::Error;
use gphoto2::widget::{RangeInfo, ToggleValue, Widget, WidgetType, WidgetValue};

fn sample_range() -> Widget {
    Widget::range(
        "iso".to_string(),
        "ISO".to_string(),
        RangeInfo { min: 100, max: 800, step: 100 },
        200,
    )
    .unwrap()
}

fn sample_radio() -> Widget {
    Widget::radio(
        "whitebalance".to_string(),
        "White Balance".to_string(),
        vec!["Auto".to_string(), "Daylight".to_string(), "Tungsten".to_string()],
        "Auto".to_string(),
    )
    .unwrap()
}

#[test]
fn text_round_trip() {
    let mut w = Widget::text("artist".to_string(), "Artist".to_string(), "old".to_string());
    assert!(matches!(w.get_text(), Ok(t) if t == "old"));
    assert!(w.set_text("new owner".to_string()).is_ok());
    assert!(matches!(w.get_text(), Ok(t) if t == "new owner"));
}

#[test]
fn range_round_trip() {
    let mut w = sample_range();
    assert!(matches!(w.get_range(), Ok(200)));
    assert!(w.set_range(500).is_ok());
    assert!(matches!(w.get_range(), Ok(500)));
    let info = w.range_info().unwrap();
    assert_eq!(info.min, 100);
    assert_eq!(info.max, 800);
    assert_eq!(info.step, 100);
}

#[test]
fn toggle_round_trip() {
    let mut w = Widget::toggle("beep".to_string(), "Beep".to_string(), ToggleValue::Off);
    assert!(matches!(w.get_toggle(), Ok(ToggleValue::Off)));
    assert!(w.set_toggle(ToggleValue::On).is_ok());
    assert!(matches!(w.get_toggle(), Ok(ToggleValue::On)));
    assert!(w.set_toggle(ToggleValue::Unknown).is_ok());
    assert!(matches!(w.get_toggle(), Ok(ToggleValue::Unknown)));
}

#[test]
fn choice_round_trip() {
    let mut w = sample_radio();
    assert!(matches!(w.get_choice(), Ok(c) if c == "Auto"));
    assert!(w.set_choice("Daylight".to_string()).is_ok());
    assert!(matches!(w.get_choice(), Ok(c) if c == "Daylight"));
    assert_eq!(w.choices().len(), 3);
}

#[test]
fn date_round_trip() {
    let mut w = Widget::date("clock".to_string(), "Clock".to_string(), 1_600_000_000);
    assert!(matches!(w.get_date(), Ok(1_600_000_000)));
    assert!(w.set_date(1_700_000_000).is_ok());
    assert!(matches!(w.get_date(), Ok(1_700_000_000)));
}

#[test]
fn range_accessor_on_text_is_kind_gated() {
    let mut w = Widget::text("artist".to_string(), "Artist".to_string(), "x".to_string());
    assert!(matches!(w.get_range(), Err(Error::WrongWidgetType)));
    assert!(matches!(w.set_range(5), Err(Error::WrongWidgetType)));
    assert!(matches!(w.range_info(), Err(Error::WrongWidgetType)));
    assert!(matches!(w.get_text(), Ok(t) if t == "x"));
}

#[test]
fn accessors_are_kind_gated_both_ways() {
    let mut w = sample_range();
    assert!(matches!(w.get_text(), Err(Error::WrongWidgetType)));
    assert!(matches!(w.set_text("no".to_string()), Err(Error::WrongWidgetType)));
    assert!(matches!(w.get_toggle(), Err(Error::WrongWidgetType)));
    assert!(matches!(w.set_choice("no".to_string()), Err(Error::WrongWidgetType)));
    assert!(matches!(w.get_date(), Err(Error::WrongWidgetType)));
    assert!(matches!(w.press(), Err(Error::WrongWidgetType)));
}

#[test]
fn range_set_below_min_is_out_of_range() {
    let mut w = sample_range();
    assert!(matches!(w.set_range(99), Err(Error::OutOfRange)));
    assert!(matches!(w.get_range(), Ok(200)));
}

#[test]
fn range_set_above_max_is_out_of_range() {
    let mut w = sample_range();
    assert!(matches!(w.set_range(801), Err(Error::OutOfRange)));
    assert!(matches!(w.get_range(), Ok(200)));
}

#[test]
fn range_set_misaligned_to_step_is_out_of_range() {
    let mut w = sample_range();
    assert!(matches!(w.set_range(250), Err(Error::OutOfRange)));
    assert!(matches!(w.get_range(), Ok(200)));
}

#[test]
fn range_with_zero_step_takes_any_value_in_bounds() {
    let mut w = Widget::range(
        "zoom".to_string(),
        "Zoom".to_string(),
        RangeInfo { min: -10, max: 10, step: 0 },
        0,
    )
    .unwrap();
    assert!(w.set_range(7).is_ok());
    assert!(matches!(w.get_range(), Ok(7)));
    assert!(w.set_range(-10).is_ok());
    assert!(matches!(w.set_range(11), Err(Error::OutOfRange)));
}

#[test]
fn range_constructor_rejects_illegal_bounds() {
    let bad = Widget::range(
        "iso".to_string(),
        "ISO".to_string(),
        RangeInfo { min: 10, max: 0, step: 1 },
        5,
    );
    assert!(matches!(bad, Err(Error::OutOfRange)));
    let misaligned = Widget::range(
        "iso".to_string(),
        "ISO".to_string(),
        RangeInfo { min: 0, max: 10, step: 4 },
        6,
    );
    assert!(matches!(misaligned, Err(Error::OutOfRange)));
}

#[test]
fn choice_outside_declared_set_is_invalid() {
    let mut w = sample_radio();
    assert!(matches!(w.set_choice("Neon".to_string()), Err(Error::InvalidChoice)));
    assert!(matches!(w.get_choice(), Ok(c) if c == "Auto"));
}

#[test]
fn menu_constructor_validates_choice() {
    let ok = Widget::menu(
        "format".to_string(),
        "Format".to_string(),
        vec!["RAW".to_string(), "JPEG".to_string()],
        "JPEG".to_string(),
    );
    assert!(matches!(ok, Ok(w) if w.widget_type() == WidgetType::Menu));
    let bad = Widget::menu(
        "format".to_string(),
        "Format".to_string(),
        vec!["RAW".to_string(), "JPEG".to_string()],
        "PNG".to_string(),
    );
    assert!(matches!(bad, Err(Error::InvalidChoice)));
}

#[test]
fn button_press_is_the_only_operation() {
    let w = Widget::button("trigger".to_string(), "Trigger".to_string());
    assert!(w.press().is_ok());
    assert!(matches!(w.get_text(), Err(Error::WrongWidgetType)));
    assert!(matches!(w.value, WidgetValue::Nothing));
}

#[test]
fn children_are_ordered_and_addressable() {
    let kids = vec![
        Widget::text("artist".to_string(), "Artist".to_string(), "a".to_string()),
        Widget::button("trigger".to_string(), "Trigger".to_string()),
    ];
    let section = Widget::section("settings".to_string(), "Settings".to_string(), kids);
    let root = Widget::window("main".to_string(), "Main".to_string(), vec![section]);
    assert_eq!(root.children_len(), 1);
    let section = root.child_by_index(0).unwrap();
    assert_eq!(section.widget_type(), WidgetType::Section);
    assert_eq!(section.children_len(), 2);
    assert_eq!(section.child_by_index(0).unwrap().name().as_str(), "artist");
    assert_eq!(section.child_by_index(1).unwrap().name().as_str(), "trigger");
    assert!(matches!(section.child_by_index(2), Err(Error::NotFound)));
    let hit = section.child_by_name("trigger").unwrap();
    assert_eq!(hit.widget_type(), WidgetType::Button);
    assert!(matches!(section.child_by_name("absent"), Err(Error::NotFound)));
}

#[test]
fn leaves_have_no_children() {
    let w = Widget::text("artist".to_string(), "Artist".to_string(), "a".to_string());
    assert_eq!(w.children_len(), 0);
    assert!(w.children().is_empty());
    assert!(matches!(w.child_by_index(0), Err(Error::NotFound)));
}

#[test]
fn labels_and_readonly_are_reported() {
    let w = Widget::text("artist".to_string(), "Artist".to_string(), "a".to_string());
    assert_eq!(w.name().as_str(), "artist");
    assert_eq!(w.label().as_str(), "Artist");
    assert!(!w.readonly());
}

#[test]
fn equal_names_resolve_to_the_first_child() {
    let kids = vec![
        Widget::text("iso".to_string(), "First".to_string(), "one".to_string()),
        Widget::text("iso".to_string(), "Second".to_string(), "two".to_string()),
    ];
    let root = Widget::window("main".to_string(), "Main".to_string(), kids);
    let hit = root.child_by_name("iso").unwrap();
    assert_eq!(hit.label().as_str(), "First");
    assert!(matches!(hit.get_text(), Ok(t) if t == "one"));
}

#[test]
fn range_bounds_at_the_integer_extremes() {
    let mut w = Widget::range(
        "offset".to_string(),
        "Offset".to_string(),
        RangeInfo { min: i64::MIN, max: i64::MAX, step: 1 },
        0,
    )
    .unwrap();
    assert!(w.set_range(i64::MAX).is_ok());
    assert!(matches!(w.get_range(), Ok(v) if v == i64::MAX));
    assert!(w.set_range(i64::MIN).is_ok());
    assert!(matches!(w.get_range(), Ok(v) if v == i64::MIN));
}

#[test]
fn find_key_searches_the_whole_tree_in_preorder() {
    let inner = Widget::section(
        "capture".to_string(),
        "Capture".to_string(),
        vec![
            Widget::toggle("beep".to_string(), "Beep".to_string(), ToggleValue::On),
            Widget::date("clock".to_string(), "Clock".to_string(), 5),
        ],
    );
    let root = Widget::window(
        "main".to_string(),
        "Main".to_string(),
        vec![Widget::text("artist".to_string(), "Artist".to_string(), "a".to_string()), inner],
    );
    let hit = root.find_key("clock").expect("nested node should be found");
    assert_eq!(hit.widget_type(), WidgetType::Date);
    assert!(matches!(hit.get_date(), Ok(5)));
    let top = root.find_key("main").expect("the root itself should be found");
    assert_eq!(top.widget_type(), WidgetType::Window);
    assert!(root.find_key("absent").is_none());
}
