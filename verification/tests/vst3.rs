use soyboy::soyboy::constants::ONE;
use soyboy::soyboy::parameters::Parameter;
use soyboy::vst3::controller::{get_midi_controller_assignment, is_editor_view};
use soyboy::vst3::gui::{
    is_platform_type_supported, view_rect, Button, ButtonBehavior, Character, ImageLabel,
    ParameterUnit, ParameterValue, Rect, Region, Slider, SliderBehavior, Toggle, SCREEN_HEIGHT,
    SCREEN_WIDTH,
};
use soyboy::vst3::message::Vst3Message;
use soyboy::vst3::plugin_data::{PluginParameter, VST3_CID, VST3_CONTROLLER_CID};
use soyboy::vst3::utils::str_eq;

#[test]
fn a_toggle_remembers_its_last_value() {
    let mut toggle = Toggle::new(false, false);
    assert!(!toggle.val());
    assert!(!toggle.toggled());
    toggle.set(true);
    assert!(toggle.val());
    assert!(toggle.toggled());
    toggle.set(true);
    assert!(toggle.val());
    assert!(!toggle.toggled());
    toggle.set(false);
    assert!(!toggle.val());
    assert!(toggle.toggled());
    toggle.set(false);
    assert!(!toggle.toggled());
    let toggle = Toggle::new(true, false);
    assert!(toggle.val());
    assert!(toggle.toggled());
    let toggle = Toggle::new(true, true);
    assert!(!toggle.toggled());
}

#[test]
fn the_atlas_has_digits_dot_and_minus() {
    let glyphs = [
        ('0', Character::Digit0),
        ('1', Character::Digit1),
        ('2', Character::Digit2),
        ('3', Character::Digit3),
        ('4', Character::Digit4),
        ('5', Character::Digit5),
        ('6', Character::Digit6),
        ('7', Character::Digit7),
        ('8', Character::Digit8),
        ('9', Character::Digit9),
        ('.', Character::Dot),
        ('-', Character::Minus),
    ];
    for (ch, glyph) in glyphs {
        assert_eq!(Character::from_char(ch), Some(glyph));
    }
    for ch in ['a', ' ', '+', ',', 'e', '/', ':', '\u{ff10}', '\0'] {
        assert_eq!(Character::from_char(ch), None);
    }
}

#[test]
fn each_glyph_has_its_region() {
    let regions = [
        (Character::Digit0, 0, 10),
        (Character::Digit1, 14, 6),
        (Character::Digit2, 24, 10),
        (Character::Digit3, 36, 10),
        (Character::Digit4, 48, 10),
        (Character::Digit5, 60, 10),
        (Character::Digit6, 72, 10),
        (Character::Digit7, 84, 10),
        (Character::Digit8, 96, 10),
        (Character::Digit9, 108, 10),
        (Character::Dot, 132, 2),
        (Character::Minus, 136, 10),
    ];
    for (glyph, x, w) in regions {
        assert_eq!(glyph.get_region(), Region { x, y: 0, w, h: 14 });
    }
}

#[test]
fn each_unit_has_its_region() {
    assert_eq!(ParameterUnit::NoUnit.get_region(), None);
    assert_eq!(
        ParameterUnit::Decibel.get_region(),
        Some(Region { x: 0, y: 16, w: 22, h: 14 })
    );
    assert_eq!(ParameterUnit::Cent.get_region(), Some(Region { x: 30, y: 16, w: 58, h: 14 }));
    assert_eq!(
        ParameterUnit::MilliSec.get_region(),
        Some(Region { x: 96, y: 16, w: 22, h: 14 })
    );
    assert_eq!(ParameterUnit::Sec.get_region(), Some(Region { x: 126, y: 16, w: 10, h: 14 }));
    assert_eq!(
        ParameterUnit::Percent.get_region(),
        Some(Region { x: 144, y: 16, w: 10, h: 14 })
    );
}

#[test]
fn a_value_is_laid_out_glyph_by_glyph() {
    let (regions, w, h) = ParameterValue::layout("10.1502", ParameterUnit::Cent);
    assert_eq!(
        regions,
        vec![
            Region { x: 14, y: 0, w: 6, h: 14 },
            Region { x: 0, y: 0, w: 10, h: 14 },
            Region { x: 132, y: 0, w: 2, h: 14 },
            Region { x: 14, y: 0, w: 6, h: 14 },
            Region { x: 60, y: 0, w: 10, h: 14 },
            Region { x: 0, y: 0, w: 10, h: 14 },
            Region { x: 24, y: 0, w: 10, h: 14 },
            Region { x: 30, y: 16, w: 58, h: 14 },
        ]
    );
    assert_eq!(w, 112);
    assert_eq!(h, 14);
}

#[test]
fn a_character_without_a_glyph_takes_no_room() {
    let (regions, w, h) = ParameterValue::layout("-1e3 x", ParameterUnit::NoUnit);
    assert_eq!(
        regions,
        vec![
            Region { x: 136, y: 0, w: 10, h: 14 },
            Region { x: 14, y: 0, w: 6, h: 14 },
            Region { x: 36, y: 0, w: 10, h: 14 },
        ]
    );
    assert_eq!(w, 26);
    assert_eq!(h, 14);
}

#[test]
fn nothing_laid_out_has_no_size() {
    let (regions, w, h) = ParameterValue::layout("", ParameterUnit::NoUnit);
    assert!(regions.is_empty());
    assert_eq!((w, h), (0, 0));
    let (regions, w, h) = ParameterValue::layout("abc", ParameterUnit::NoUnit);
    assert!(regions.is_empty());
    assert_eq!((w, h), (0, 0));
    let (regions, w, h) = ParameterValue::layout("", ParameterUnit::Sec);
    assert_eq!(regions, vec![Region { x: 126, y: 16, w: 10, h: 14 }]);
    assert_eq!((w, h), (10, 14));
}

#[test]
fn a_value_takes_up_its_rectangle() {
    let value = ParameterValue::new("10.1502", ParameterUnit::Cent, 100, 200);
    assert_eq!(value.regions.len(), 8);
    assert_eq!((value.x, value.y, value.w, value.h), (100, 200, 112, 14));
    assert_eq!(value.rect(), Rect { left: 100, top: 200, right: 212, bottom: 214 });
    let value = ParameterValue::new("7", ParameterUnit::NoUnit, -20, i32::MAX);
    assert_eq!(
        value.rect(),
        Rect { left: -20, top: i32::MAX as i64, right: -10, bottom: i32::MAX as i64 + 14 }
    );
}

#[test]
fn a_label_takes_up_the_rectangle_of_its_picture() {
    let label = ImageLabel::new((330, 70), 6, 6);
    assert_eq!(label.rect(), Rect { left: 6, top: 6, right: 336, bottom: 76 });
    let label = ImageLabel::new((u32::MAX, 0), i32::MIN, i32::MAX);
    assert_eq!(
        label.rect(),
        Rect {
            left: i32::MIN as i64,
            top: i32::MAX as i64,
            right: i32::MIN as i64 + u32::MAX as i64,
            bottom: i32::MAX as i64
        }
    );
}

#[test]
fn a_pressed_button_sits_lower_right() {
    let rect = Rect { left: 206, top: 526, right: 266, bottom: 550 };
    assert_eq!(Button::new(false, rect).shown_rect(), rect);
    assert_eq!(
        Button::new(true, rect).shown_rect(),
        Rect { left: 208, top: 528, right: 268, bottom: 552 }
    );
    assert_eq!(rect.translate(-6, 4), Rect { left: 200, top: 530, right: 260, bottom: 554 });
}

#[test]
fn a_button_shows_as_pressed_for_a_tenth_of_a_second() {
    let mut button = ButtonBehavior::new((60, 24), 206, 526);
    assert_eq!(button.rect(), Rect { left: 206, top: 526, right: 266, bottom: 550 });
    assert!(!button.show().clicked);
    assert!(button.update(0));
    assert!(button.show().clicked);
    assert!(!button.update(50));
    assert!(!button.update(100));
    assert!(button.show().clicked);
    assert!(button.update(101));
    assert!(!button.show().clicked);
    assert!(!button.update(5000));
    assert!(!button.update(u64::MAX));
    assert!(button.update(3));
    assert_eq!(button.show().rect, button.rect());
}

#[test]
fn a_slider_is_filled_to_its_value() {
    let rect = Rect { left: 60, top: 102, right: 360, bottom: 118 };
    assert_eq!(Slider::new(0, false, rect).filled_rect(), Some(Rect { right: 60, ..rect }));
    assert_eq!(Slider::new(ONE, false, rect).filled_rect(), Some(rect));
    assert_eq!(
        Slider::new(500_000, false, rect).filled_rect(),
        Some(Rect { right: 210, ..rect })
    );
    assert_eq!(
        Slider::new(333_333, false, rect).filled_rect(),
        Some(Rect { right: 159, ..rect })
    );
    assert_eq!(Slider::new(2 * ONE, false, rect).filled_rect(), Some(rect));
    assert_eq!(Slider::new(-ONE, false, rect).filled_rect(), Some(Rect { right: 60, ..rect }));
    assert_eq!(Slider::new(500_000, true, rect).filled_rect(), None);
}

#[test]
fn a_drag_moves_a_slider_within_its_range() {
    let mut slider = SliderBehavior::new((300, 16), 0, false, 60, 102);
    assert_eq!(slider.rect(), Rect { left: 60, top: 102, right: 360, bottom: 118 });
    assert!(!slider.update());
    assert_eq!(slider.value(), 0);
    // 30 pixels of the 300 that span the range.
    slider.drag(30 * ONE, false);
    assert_eq!(slider.value(), 100_000);
    slider.drag(30 * ONE, true);
    assert_eq!(slider.value(), 110_000);
    slider.drag(-15 * ONE, false);
    assert_eq!(slider.value(), 60_000);
    slider.drag(-299, false);
    assert_eq!(slider.value(), 60_000);
    slider.drag(-300, false);
    assert_eq!(slider.value(), 59_999);
    slider.drag(299, false);
    assert_eq!(slider.value(), 59_999);
    slider.drag(-1000 * ONE, false);
    assert_eq!(slider.value(), 0);
    slider.drag(i64::MAX, false);
    assert_eq!(slider.value(), ONE);
    slider.drag(i64::MIN, true);
    assert_eq!(slider.value(), 0);
    let shown = slider.show();
    assert_eq!((shown.value, shown.bipolar, shown.rect), (0, false, slider.rect()));
    let mut slider = SliderBehavior::new((300, 16), 5 * ONE, true, 0, 0);
    assert_eq!(slider.value(), 5 * ONE);
    assert!(slider.show().bipolar);
    slider.drag(0, false);
    assert_eq!(slider.value(), ONE);
}

#[test]
fn the_editor_has_its_size() {
    assert_eq!((SCREEN_WIDTH, SCREEN_HEIGHT), (680, 560));
    assert_eq!(view_rect(), Rect { left: 0, top: 0, right: 680, bottom: 560 });
}

#[test]
fn the_editor_is_shown_in_an_x11_window_only() {
    assert!(is_platform_type_supported("X11EmbedWindowID"));
    assert!(!is_platform_type_supported("HWND"));
    assert!(!is_platform_type_supported("NSView"));
    assert!(!is_platform_type_supported(""));
    assert!(!is_platform_type_supported("x11embedwindowid"));
    assert!(!is_platform_type_supported("X11EmbedWindowID "));
}

#[test]
fn the_pitch_bend_wheel_moves_the_pitch_bend() {
    assert_eq!(get_midi_controller_assignment(129), Some(Parameter::PitchBend.id()));
    assert_eq!(get_midi_controller_assignment(129), Some(0));
    for cc in [0i16, 1, 7, 64, 127, 128, 130, -1, i16::MAX, i16::MIN] {
        assert_eq!(get_midi_controller_assignment(cc), None);
    }
}

#[test]
fn the_editor_view_goes_by_its_name() {
    assert!(is_editor_view("editor"));
    assert!(!is_editor_view("Editor"));
    assert!(!is_editor_view(""));
}

#[test]
fn each_message_has_its_identifier() {
    assert_eq!(Vst3Message::NoteOn.to_string(), "vst3:note-on");
    assert_eq!(Vst3Message::RandomizeWaveTable.to_string(), "vst3:randomize-wavetable");
    assert_eq!(Vst3Message::WaveTableRequested.to_string(), "vst3:wavetable-requested");
    assert_eq!(Vst3Message::WaveTableData([3; 32]).to_string(), "vst3:wavetable-data");
    assert_eq!(Vst3Message::NoteOn.id(), "vst3:note-on");
    assert_eq!(Vst3Message::WaveTableData([0; 32]).id(), "vst3:wavetable-data");
}

#[test]
fn a_message_is_read_from_its_identifier() {
    let table = [5i8; 32];
    assert!(matches!(
        Vst3Message::from_message("vst3:note-on", &table),
        Some(Vst3Message::NoteOn)
    ));
    assert!(matches!(
        Vst3Message::from_message("vst3:randomize-wavetable", &table),
        Some(Vst3Message::RandomizeWaveTable)
    ));
    assert!(matches!(
        Vst3Message::from_message("vst3:wavetable-requested", &table),
        Some(Vst3Message::WaveTableRequested)
    ));
    for id in ["", "vst3:note-off", "vst3:note-on ", "VST3:NOTE-ON", "note-on", "vst3:"] {
        assert!(Vst3Message::from_message(id, &table).is_none());
        assert!(!Vst3Message::has_payload(id));
    }
    assert!(Vst3Message::has_payload("vst3:wavetable-data"));
    assert!(!Vst3Message::has_payload("vst3:note-on"));
    assert!(!Vst3Message::has_payload("vst3:wavetable-requested"));
}

#[test]
fn a_snapshot_carries_its_bytes() {
    let mut table = [0i8; 32];
    for (i, byte) in table.iter_mut().enumerate() {
        *byte = i as i8 - 16;
    }
    let message = Vst3Message::from_message("vst3:wavetable-data", &table);
    match message {
        Some(Vst3Message::WaveTableData(snapshot)) => assert_eq!(snapshot, table),
        _ => panic!("a snapshot was sent"),
    }
    assert_eq!(message.unwrap().payload(), Some(table));
    assert_eq!(Vst3Message::NoteOn.payload(), None);
    assert_eq!(Vst3Message::RandomizeWaveTable.payload(), None);
    assert_eq!(Vst3Message::WaveTableRequested.payload(), None);
}

#[test]
fn a_message_comes_back_from_its_own_identifier() {
    let table = [7i8; 32];
    for message in [
        Vst3Message::NoteOn,
        Vst3Message::RandomizeWaveTable,
        Vst3Message::WaveTableRequested,
        Vst3Message::WaveTableData(table),
    ] {
        let read = Vst3Message::from_message(message.id(), &table).unwrap();
        assert_eq!(read.id(), message.id());
        assert_eq!(read.payload(), message.payload());
    }
}

#[test]
fn the_plugin_has_one_parameter() {
    assert_eq!(PluginParameter::try_from(0u32), Ok(PluginParameter::Param1));
    assert_eq!(PluginParameter::try_from(1u32), Err(()));
    assert_eq!(PluginParameter::try_from(u32::MAX), Err(()));
    assert_eq!(PluginParameter::Param1.id(), 0);
}

#[test]
fn the_two_classes_have_different_identifiers() {
    assert_eq!(VST3_CID.len(), 16);
    assert_eq!(VST3_CONTROLLER_CID.len(), 16);
    assert_ne!(VST3_CID, VST3_CONTROLLER_CID);
    assert_eq!(VST3_CID[0], 0xd6);
    assert_eq!(VST3_CONTROLLER_CID[15], 0x8d);
}

#[test]
fn strings_are_compared_character_by_character() {
    assert!(str_eq("", ""));
    assert!(str_eq("editor", "editor"));
    assert!(!str_eq("editor", "editors"));
    assert!(!str_eq("editors", "editor"));
    assert!(!str_eq("editor", ""));
    assert!(!str_eq("", "editor"));
    assert!(!str_eq("editor", "editoR"));
    assert!(!str_eq("xditor", "editor"));
    assert!(str_eq("vst3:\u{97f3}", "vst3:\u{97f3}"));
    assert!(!str_eq("vst3:\u{97f3}", "vst3:\u{97f4}"));
    assert!(!str_eq("e\u{301}", "\u{e9}"));
}
