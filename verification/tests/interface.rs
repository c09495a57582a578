use btpair::font::{candidate, find_font, CANDIDATES};
use btpair::input::{
    clamp_selection, react, selected_command, Action, Button, Effect, Input, Key,
};
use btpair::model::{Address, Command, DeviceView, Snapshot};
use btpair::screen::{frame, frame_fits, header, tags, window_size, DrawOp, Face, Tone};
use btpair::text::{chars_of, concat_texts, contains, decimal_text, order_texts, Order};

fn device(last: u8, name: &str) -> DeviceView {
    DeviceView {
        addr: Address([0, 0, 0, 0, 0, last]),
        name: name.to_string(),
        icon: None,
        paired: false,
        connected: false,
        trusted: false,
        rssi: None,
    }
}

fn snapshot(devices: Vec<DeviceView>, status: &str) -> Snapshot {
    Snapshot {
        devices,
        scanning: true,
        powered: true,
        status: status.to_string(),
    }
}

fn shown(ops: &[DrawOp]) -> Vec<String> {
    ops.iter().map(|op| format!("{op:?}")).collect()
}

fn text(face: Face, text: &str, x: i32, y: i32, tone: Tone) -> DrawOp {
    DrawOp::Text { face, text: text.to_string(), x, y, tone }
}

#[test]
fn buttons_do_what_the_controls_say() {
    let press = |button: Button| react(3, Input::ButtonDown(button));
    assert_eq!(press(Button::DPadUp), (2, Effect::Nothing));
    assert_eq!(press(Button::DPadDown), (4, Effect::Nothing));
    assert_eq!(press(Button::A), (3, Effect::Send(Action::Connect)));
    assert_eq!(press(Button::Y), (3, Effect::Send(Action::Disconnect)));
    assert_eq!(press(Button::Back), (3, Effect::Send(Action::Remove)));
    assert_eq!(press(Button::B), (3, Effect::Exit));
    assert_eq!(press(Button::Start), (3, Effect::Exit));
    assert_eq!(press(Button::Other), (3, Effect::Nothing));
}

#[test]
fn keys_do_what_their_buttons_do() {
    let pairs = vec![
        (Key::Up, Button::DPadUp),
        (Key::Down, Button::DPadDown),
        (Key::Return, Button::A),
        (Key::D, Button::Y),
        (Key::Delete, Button::Back),
        (Key::Escape, Button::B),
        (Key::Other, Button::Other),
    ];
    for (key, button) in pairs {
        assert_eq!(react(5, Input::KeyDown(key)), react(5, Input::ButtonDown(button)));
    }
}

#[test]
fn other_inputs() {
    assert_eq!(react(1, Input::Quit), (1, Effect::Exit));
    assert_eq!(react(1, Input::ControllerAdded(2)), (1, Effect::OpenController(2)));
    assert_eq!(react(1, Input::Other), (1, Effect::Nothing));
    assert_eq!(react(usize::MAX, Input::Other), (usize::MAX, Effect::Nothing));
}

#[test]
fn selection_stops_at_both_ends() {
    assert_eq!(react(0, Input::KeyDown(Key::Up)).0, 0);
    assert_eq!(clamp_selection(react(2, Input::KeyDown(Key::Down)).0, 3), 2);
    assert_eq!(clamp_selection(react(1, Input::KeyDown(Key::Down)).0, 3), 2);
    assert_eq!(clamp_selection(9, 3), 2);
    assert_eq!(clamp_selection(1, 3), 1);
    assert_eq!(clamp_selection(9, 0), 0);
}

#[test]
fn selected_device_gets_the_command() {
    let shown = snapshot(vec![device(1, "a"), device(2, "b")], "");
    let second = Address([0, 0, 0, 0, 0, 2]);
    assert_eq!(
        selected_command(&shown, 1, Action::Connect),
        Some(Command::Connect(second))
    );
    assert_eq!(
        selected_command(&shown, 1, Action::Disconnect),
        Some(Command::Disconnect(second))
    );
    assert_eq!(
        selected_command(&shown, 1, Action::Remove),
        Some(Command::Remove(second))
    );
    assert_eq!(selected_command(&shown, 2, Action::Connect), None);
    assert_eq!(selected_command(&Snapshot::default(), 0, Action::Remove), None);
}

#[test]
fn header_tells_power_and_scanning() {
    assert_eq!(header(false, true), "adapter OFF");
    assert_eq!(header(false, false), "adapter OFF");
    assert_eq!(header(true, true), "scanning…");
    assert_eq!(header(true, false), "scanning");
}

#[test]
fn tags_tell_state_kind_and_signal() {
    assert_eq!(tags(&device(1, "x")), "device");
    let pad = DeviceView {
        connected: true,
        paired: true,
        icon: Some("input-gaming".to_string()),
        rssi: Some(-47),
        ..device(1, "x")
    };
    assert_eq!(tags(&pad), "connected  •  controller  •  -47 dBm");
    let mouse = DeviceView {
        paired: true,
        icon: Some("input-mouse".to_string()),
        ..device(1, "x")
    };
    assert_eq!(tags(&mouse), "paired  •  mouse");
    let loud = DeviceView { rssi: Some(0), ..device(1, "x") };
    assert_eq!(tags(&loud), "device  •  0 dBm");
}

#[test]
fn frame_lists_devices() {
    let list = vec![
        DeviceView { connected: true, ..device(1, "Pad") },
        device(2, ""),
    ];
    let ops = frame(&snapshot(list, "connected Pad"), 1, 1280, 720);
    let expected = vec![
        DrawOp::Clear(Tone::Background),
        text(Face::Normal, "Bluetooth", 48, 36, Tone::Text),
        text(Face::Small, "scanning…", 48, 74, Tone::Dim),
        DrawOp::Fill { x: 40, y: 120, width: 1200, height: 56, tone: Tone::Panel },
        text(Face::Normal, "Pad", 60, 126, Tone::Green),
        text(Face::Small, "connected  •  device", 60, 156, Tone::Dim),
        DrawOp::Fill { x: 40, y: 184, width: 1200, height: 56, tone: Tone::Select },
        text(Face::Small, "device", 60, 220, Tone::Dim),
        text(Face::Small, "connected Pad", 48, 644, Tone::Dim),
        text(
            Face::Small,
            "A connect/pair   Y disconnect   Back remove   B exit",
            48,
            676,
            Tone::Text,
        ),
    ];
    assert_eq!(shown(&ops), shown(&expected));
}

#[test]
fn frame_without_devices_hints_at_pairing_mode() {
    let ops = frame(&Snapshot::default(), 0, 10, 720);
    let expected = vec![
        DrawOp::Clear(Tone::Background),
        text(Face::Normal, "Bluetooth", 48, 36, Tone::Text),
        text(Face::Small, "adapter OFF", 48, 74, Tone::Dim),
        text(
            Face::Small,
            "No devices yet — put your device in pairing mode…",
            60,
            128,
            Tone::Dim,
        ),
        text(
            Face::Small,
            "A connect/pair   Y disconnect   Back remove   B exit",
            48,
            676,
            Tone::Text,
        ),
    ];
    assert_eq!(shown(&ops), shown(&expected));
}

#[test]
fn one_row_is_selected() {
    let list: Vec<DeviceView> = (0..5).map(|i| device(i, "x")).collect();
    let shown = snapshot(list, "");
    for selected in 0..5 {
        let ops = frame(&shown, selected, 800, 600);
        let tops: Vec<i32> = ops
            .iter()
            .filter_map(|op| match op {
                DrawOp::Fill { y, tone: Tone::Select, .. } => Some(*y),
                _ => None,
            })
            .collect();
        assert_eq!(tops, vec![120 + 64 * selected as i32]);
    }
}

#[test]
fn frames_need_room() {
    let one = snapshot(vec![device(1, "a")], "s");
    assert!(frame_fits(&one, 80, 720));
    assert!(!frame_fits(&one, 79, 720));
    assert!(frame_fits(&Snapshot::default(), 0, 0));
    assert!(frame_fits(&one, 80, 0x8000_0000 + 76));
    assert!(!frame_fits(&one, 80, 0x8000_0000 + 75));
    assert!(frame_fits(&Snapshot::default(), 0, 0x8000_0000 + 44));
    assert!(!frame_fits(&Snapshot::default(), 0, 0x8000_0000 + 43));
    let ops = frame(&Snapshot::default(), 0, 0, 0xFFFF_FFFF);
    match ops.last() {
        Some(DrawOp::Text { y, .. }) => assert_eq!(*y, -45),
        other => panic!("{other:?}"),
    }
}

#[test]
fn colours_sizes_and_fallback() {
    assert_eq!(Tone::Background.rgb(), (18, 18, 22));
    assert_eq!(Tone::Panel.rgb(), (30, 30, 38));
    assert_eq!(Tone::Select.rgb(), (52, 88, 140));
    assert_eq!(Tone::Text.rgb(), (235, 235, 240));
    assert_eq!(Tone::Dim.rgb(), (150, 150, 160));
    assert_eq!(Tone::Green.rgb(), (120, 210, 130));
    assert_eq!(Face::Normal.points(), 26);
    assert_eq!(Face::Small.points(), 20);
    assert_eq!(window_size(None), (1280, 720));
    assert_eq!(window_size(Some((3, 4))), (3, 4));
}

#[test]
fn font_override_wins() {
    assert_eq!(find_font(Some("/x.ttf".to_string()), &[true; CANDIDATES]), "/x.ttf");
    assert_eq!(find_font(Some(String::new()), &[true; CANDIDATES]), "");
}

#[test]
fn first_font_present_is_used() {
    assert_eq!(
        find_font(None, &[false, false, true, true]),
        "/usr/share/fonts/TTF/DejaVuSans.ttf"
    );
    assert_eq!(
        find_font(None, &[false, true, true, true]),
        "/usr/share/fonts/truetype/liberation/LiberationSans-Regular.ttf"
    );
    assert_eq!(
        find_font(None, &[false, false, false, true]),
        "/usr/share/fonts/dejavu/DejaVuSans.ttf"
    );
    assert_eq!(
        find_font(None, &[false; CANDIDATES]),
        "/usr/share/fonts/truetype/dejavu/DejaVuSans.ttf"
    );
    assert_eq!(candidate(0), find_font(None, &[true; CANDIDATES]));
}

#[test]
fn text_operations() {
    assert_eq!(chars_of("aé•"), vec!['a', 'é', '•']);
    assert!(contains("input-mouse", "mouse"));
    assert!(contains("abc", ""));
    assert!(contains("", ""));
    assert!(!contains("mous", "mouse"));
    assert!(contains("aaab", "aab"));
    assert_eq!(concat_texts("a", "b"), "ab");
    for n in [0i16, 9, 10, 47, -1, -47, 100, i16::MAX, i16::MIN] {
        assert_eq!(decimal_text(n), n.to_string());
    }
}

#[test]
fn texts_are_ordered_by_code_point() {
    let words = ["", "a", "ab", "b", "z", "é", "•", "\u{1F3AE}"];
    for (i, a) in words.iter().enumerate() {
        for (j, b) in words.iter().enumerate() {
            let expected = if i < j {
                Order::Before
            } else if i == j {
                Order::Same
            } else {
                Order::After
            };
            assert_eq!(order_texts(a, b), expected);
            assert_eq!(i < j, a < b);
        }
    }
}
