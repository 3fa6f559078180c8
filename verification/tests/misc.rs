use sosd::Action;
use sosd::Battery;
use sosd::BatteryState;
use sosd::InputAction;
use sosd::InputEvent;
use sosd::InputModifier;
use sosd::NotificationAction;
use sosd::PixmapFormat;
use sosd::ShmSegment;
use sosd::Urgency;
use sosd::VisualClassKind;
use sosd::VisualSpec;
use sosd::energy_from_charge;
use sosd::level_from_energy;
use sosd::name_to_battery_state;
use sosd::next_pow2;
use sosd::session_prefers_wayland;
use sosd::supported_visuals;
use sosd::total_len;

#[test]
fn input_event_builders() {
    let e = InputEvent::new(NotificationAction::Close);
    assert_eq!(e.action, NotificationAction::Close);
    assert_eq!(e.modifier, None);
    let e = e.with_modifiers(InputModifier::Ctrl);
    assert_eq!(e.action, NotificationAction::Close);
    assert_eq!(e.modifier, Some(InputModifier::Ctrl));
}

#[test]
fn action_table_keeps_first_binding() {
    let mut table = Action::new();
    assert_eq!(table.get(InputAction::LeftClick), None);
    table.add(
        InputAction::LeftClick,
        InputEvent::new(NotificationAction::OpenNotification),
    );
    // A second binding for the same gesture is ignored.
    table.add(
        InputAction::LeftClick,
        InputEvent::new(NotificationAction::Close),
    );
    let bound = table.get(InputAction::LeftClick).unwrap();
    assert_eq!(bound.action, NotificationAction::OpenNotification);
    assert_eq!(table.get(InputAction::RightClick), None);
}

#[test]
fn default_action_table() {
    let table = Action::default();
    assert_eq!(
        table.get(InputAction::LeftClick).unwrap().action,
        NotificationAction::OpenNotification
    );
    assert_eq!(
        table.get(InputAction::RightClick).unwrap().action,
        NotificationAction::Close
    );
    assert_eq!(
        table.get(InputAction::ScrollUp).unwrap().action,
        NotificationAction::Close
    );
    assert_eq!(table.get(InputAction::MiddleClick), None);
    assert_eq!(table.get(InputAction::TouchSwipeDown), None);
}

#[test]
fn urgency_wire_encoding() {
    assert_eq!(Urgency::from(0u8), Urgency::Low);
    assert_eq!(Urgency::from(1u8), Urgency::Normal);
    assert_eq!(Urgency::from(2u8), Urgency::Critical);
    assert_eq!(Urgency::from(7u8), Urgency::Normal);
    assert_eq!(u8::from(Urgency::Low), 0);
    assert_eq!(u8::from(Urgency::Normal), 1);
    assert_eq!(u8::from(Urgency::Critical), 2);
}

#[test]
fn battery_state_names() {
    assert_eq!(
        name_to_battery_state("Discharging").unwrap(),
        BatteryState::Discharging
    );
    assert_eq!(
        name_to_battery_state("Charging").unwrap(),
        BatteryState::Charging
    );
    assert_eq!(
        name_to_battery_state("Not charging").unwrap(),
        BatteryState::NotCharging
    );
    assert_eq!(name_to_battery_state("Full").unwrap(), BatteryState::Full);
    assert_eq!(
        name_to_battery_state("At threshold").unwrap(),
        BatteryState::AtThreshold
    );
    let err = name_to_battery_state("Bogus").unwrap_err();
    assert_eq!(err.0, "Bogus");
}

#[test]
fn battery_energy_prefers_the_direct_reading() {
    assert_eq!(sosd::battery_energy(Some(500), Some(3000), Some(5000)), Some(500));
    assert_eq!(sosd::battery_energy(None, Some(3000), Some(5000)), Some(15000));
    assert_eq!(sosd::battery_energy(None, None, Some(5000)), None);
    assert_eq!(sosd::battery_energy(None, Some(3000), None), None);
}

#[test]
fn battery_level_arithmetic() {
    assert_eq!(level_from_energy(50, 100), 50);
    assert_eq!(level_from_energy(1, 3), 33);
    assert_eq!(level_from_energy(100, 100), 100);
    // Overfull readings are capped, not wrapped.
    assert_eq!(level_from_energy(120, 100), 100);
    assert_eq!(energy_from_charge(3000, 5000), 15000);
}

#[test]
fn battery_accessors() {
    let b = Battery::new(
        77,
        String::from("BAT0"),
        BatteryState::Charging,
        Some(String::from("/sys/class/power_supply/BAT0")),
    );
    assert_eq!(b.level(), 77);
    assert_eq!(b.name(), "BAT0");
    assert_eq!(b.state(), BatteryState::Charging);
    assert_eq!(b.path().unwrap().as_str(), "/sys/class/power_supply/BAT0");
}

#[test]
fn swap_option_merge_rules() {
    let mut l = Some(1);
    let mut r = Some(2);
    sosd::swap_option(&mut l, &mut r);
    assert_eq!((l, r), (Some(2), Some(1)));

    let mut l: Option<i32> = None;
    let mut r = Some(3);
    sosd::swap_option(&mut l, &mut r);
    assert_eq!((l, r), (Some(3), None));

    // A set left side is kept when the right side has nothing to offer.
    let mut l = Some(4);
    let mut r: Option<i32> = None;
    sosd::swap_option(&mut l, &mut r);
    assert_eq!((l, r), (Some(4), None));
}

#[test]
fn pow2_rounding() {
    assert_eq!(next_pow2(0), 1);
    assert_eq!(next_pow2(1), 1);
    assert_eq!(next_pow2(3), 4);
    assert_eq!(next_pow2(4), 4);
    assert_eq!(next_pow2(192000), 262144);
    assert_eq!(next_pow2(262144), 262144);
}

#[test]
fn buffer_byte_length() {
    assert_eq!(total_len(600, 80), 192000);
    assert_eq!(total_len(1, 1), 4);
}

#[test]
fn session_probe_detects_compositor_sessions() {
    assert!(session_prefers_wayland("wayland"));
    assert!(session_prefers_wayland("WAYLAND"));
    assert!(session_prefers_wayland("my-Wayland-session"));
    assert!(!session_prefers_wayland("x11"));
    assert!(!session_prefers_wayland("tty"));
    assert!(!session_prefers_wayland(""));
    assert!(!session_prefers_wayland("waylan"));
}

#[test]
fn visual_filtering() {
    let formats = vec![
        PixmapFormat {
            depth: 1,
            bits_per_pixel: 1,
        },
        PixmapFormat {
            depth: 24,
            bits_per_pixel: 32,
        },
    ];
    let visuals = vec![
        VisualSpec {
            visual_id: 0x21,
            depth: 24,
            class: VisualClassKind::TrueColor,
            red_mask: 0xff0000,
            green_mask: 0xff00,
            blue_mask: 0xff,
        },
        VisualSpec {
            visual_id: 0x22,
            depth: 24,
            class: VisualClassKind::Other,
            red_mask: 0xff0000,
            green_mask: 0xff00,
            blue_mask: 0xff,
        },
        VisualSpec {
            visual_id: 0x23,
            depth: 32,
            class: VisualClassKind::DirectColor,
            red_mask: 0xff0000,
            green_mask: 0xff00,
            blue_mask: 0xff,
        },
        VisualSpec {
            visual_id: 0x24,
            depth: 24,
            class: VisualClassKind::TrueColor,
            red_mask: 0xff,
            green_mask: 0xff00,
            blue_mask: 0xff0000,
        },
    ];
    assert_eq!(supported_visuals(&formats, &visuals, true), vec![0x21, 0x23]);

    // A server without a usable pixmap format supports no visual at all.
    let no_formats = vec![PixmapFormat {
        depth: 24,
        bits_per_pixel: 24,
    }];
    assert_eq!(supported_visuals(&no_formats, &visuals, true), Vec::<u32>::new());

    // A byte-swapped server wants the swapped masks.
    let swapped = vec![VisualSpec {
        visual_id: 0x31,
        depth: 24,
        class: VisualClassKind::TrueColor,
        red_mask: 0xff00,
        green_mask: 0xff0000,
        blue_mask: 0xff000000,
    }];
    assert_eq!(supported_visuals(&formats, &swapped, false), vec![0x31]);
}

#[test]
fn segment_bookkeeping() {
    let mut seg = ShmSegment::new(64, 16);
    assert_eq!(seg.size(), 64);
    assert_eq!(seg.buffer_size(), 16);
    assert_eq!(seg.as_ref().len(), 4);
    {
        let pixels = seg.as_mut();
        pixels[0] = 0xdeadbeef;
        pixels[3] = 7;
    }
    seg.set_buffer_size(32);
    assert_eq!(seg.buffer_size(), 32);
    let view = seg.as_ref();
    assert_eq!(view.len(), 8);
    // Narrowing and widening preserve the pixels already written.
    assert_eq!(view[0], 0xdeadbeef);
    assert_eq!(view[3], 7);
}
