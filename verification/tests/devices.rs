use btpair::listing::{label, list_devices, publish, row, rows, set_status, Listed, Readings};
use btpair::model::{Address, Command, DeviceView, Snapshot};
use btpair::order::{order_ranks, rank, sort_devices, sort_rows, Rank, Row};
use btpair::text::Order;

fn address(last: u8) -> Address {
    Address([0xAA, 0xBB, 0xCC, 0x00, 0x1F, last])
}

fn device(last: u8, name: &str) -> DeviceView {
    DeviceView {
        addr: address(last),
        name: name.to_string(),
        icon: None,
        paired: false,
        connected: false,
        trusted: false,
        rssi: None,
    }
}

fn with_icon(icon: &str) -> DeviceView {
    DeviceView {
        icon: Some(icon.to_string()),
        ..device(1, "x")
    }
}

fn readings(name: Option<&str>) -> Readings {
    Readings {
        name: Ok(name.map(|n| n.to_string())),
        icon: Ok(Some("audio-headset".to_string())),
        paired: Ok(true),
        connected: Ok(false),
        trusted: Ok(true),
        rssi: Ok(Some(-50)),
    }
}

fn names(devices: &[DeviceView]) -> Vec<&str> {
    devices.iter().map(|d| d.name.as_str()).collect()
}

fn lasts(devices: &[DeviceView]) -> Vec<u8> {
    devices.iter().map(|d| d.addr.0[5]).collect()
}

#[test]
fn kind_follows_the_icon() {
    assert_eq!(with_icon("audio-headset").kind(), "audio");
    assert_eq!(with_icon("audio-card").kind(), "audio");
    assert_eq!(with_icon("headset").kind(), "audio");
    assert_eq!(with_icon("input-mouse").kind(), "mouse");
    assert_eq!(with_icon("input-keyboard").kind(), "keyboard");
    assert_eq!(with_icon("input-gaming").kind(), "controller");
    assert_eq!(with_icon("joystick").kind(), "controller");
    assert_eq!(with_icon("phone").kind(), "phone");
    assert_eq!(with_icon("video-display").kind(), "device");
    assert_eq!(with_icon("").kind(), "device");
    assert_eq!(with_icon("Audio").kind(), "device");
    assert_eq!(device(1, "x").kind(), "device");
}

#[test]
fn earlier_kinds_take_precedence() {
    assert_eq!(with_icon("phone-audio").kind(), "audio");
    assert_eq!(with_icon("keyboard-mouse").kind(), "mouse");
    assert_eq!(with_icon("gaming-keyboard").kind(), "keyboard");
}

#[test]
fn label_is_the_name_or_the_address() {
    assert_eq!(label(&Some("Pad".to_string()), address(0x02)), "Pad");
    assert_eq!(label(&Some(String::new()), address(0x02)), "");
    assert_eq!(label(&None, address(0x02)), "AA:BB:CC:00:1F:02");
    let octets = [0x09, 0x9A, 0xF0, 0x0F, 0xFF, 0x00];
    assert_eq!(label(&None, Address(octets)), "09:9A:F0:0F:FF:00");
    assert_eq!(
        label(&None, Address(octets)),
        bluer::Address::new(octets).to_string()
    );
}

#[test]
fn commands_are_described_with_their_address() {
    let text = format!("{:?}", bluer::Address::new(address(7).0));
    assert_eq!(
        Command::Connect(address(7)).describe(),
        format!("Connect({text})")
    );
    assert_eq!(
        Command::Disconnect(address(7)).describe(),
        "Disconnect(AA:BB:CC:00:1F:07)"
    );
    assert_eq!(
        Command::Remove(address(7)).describe(),
        "Remove(AA:BB:CC:00:1F:07)"
    );
}

#[test]
fn debug_output_shows_addresses_in_colon_notation() {
    assert_eq!(format!("{:?}", address(7)), "AA:BB:CC:00:1F:07");
    assert_eq!(
        format!("{:?}", address(7)),
        format!("{:?}", bluer::Address::new(address(7).0))
    );
    for command in [
        Command::Connect(address(7)),
        Command::Disconnect(address(7)),
        Command::Remove(address(7)),
    ] {
        assert_eq!(format!("{command:?}"), command.describe());
    }
    assert!(format!("{:?}", device(7, "Pad")).starts_with("DeviceView { addr: AA:BB:CC:00:1F:07, "));
}

#[test]
fn ranks_compare_field_by_field() {
    let base = || Rank {
        connected: false,
        paired: false,
        signal: -60,
        folded: "m".to_string(),
    };
    let connected = Rank { connected: true, signal: -90, ..base() };
    let paired = Rank { paired: true, signal: -90, ..base() };
    let strong = Rank { signal: -10, folded: "z".to_string(), ..base() };
    let early = Rank { folded: "a".to_string(), ..base() };
    let longer = Rank { folded: "mm".to_string(), ..base() };
    assert_eq!(order_ranks(&connected, &paired), Order::Before);
    assert_eq!(order_ranks(&paired, &connected), Order::After);
    assert_eq!(order_ranks(&paired, &strong), Order::Before);
    assert_eq!(order_ranks(&strong, &early), Order::Before);
    assert_eq!(order_ranks(&early, &strong), Order::After);
    assert_eq!(order_ranks(&early, &base()), Order::Before);
    assert_eq!(order_ranks(&longer, &base()), Order::After);
    assert_eq!(order_ranks(&base(), &base()), Order::Same);
}

#[test]
fn rank_folds_the_name_and_assumes_no_signal() {
    let ranked = rank(&device(1, "JBL Tune ÄÖ"));
    assert_eq!(ranked.folded, "jbl tune äö");
    assert_eq!(ranked.signal, -127);
    let heard = DeviceView { rssi: Some(-40), ..device(1, "a") };
    assert_eq!(rank(&heard).signal, -40);
}

#[test]
fn rows_are_sorted_by_the_rank_they_carry() {
    let row = |last: u8, folded: &str| Row {
        rank: Rank {
            connected: false,
            paired: false,
            signal: 0,
            folded: folded.to_string(),
        },
        device: device(last, "unused"),
    };
    let sorted = sort_rows(vec![row(1, "c"), row(2, "a"), row(3, "b"), row(4, "a")]);
    let order: Vec<u8> = sorted.iter().map(|r| r.device.addr.0[5]).collect();
    assert_eq!(order, vec![2, 4, 3, 1]);
}

#[test]
fn connected_then_paired_then_signal_then_name() {
    let list = vec![
        device(1, "zeta"),
        DeviceView { rssi: Some(-80), ..device(2, "weak") },
        DeviceView { rssi: Some(-30), ..device(3, "strong") },
        DeviceView { paired: true, ..device(4, "paired") },
        DeviceView { connected: true, ..device(5, "connected") },
        device(6, "Alpha"),
        device(7, "beta"),
    ];
    let sorted = sort_devices(list);
    assert_eq!(
        names(&sorted),
        vec!["connected", "paired", "strong", "weak", "Alpha", "beta", "zeta"]
    );
}

#[test]
fn signal_of_minus_127_ties_with_no_signal() {
    let list = vec![
        device(1, "b"),
        DeviceView { rssi: Some(-127), ..device(2, "a") },
        DeviceView { rssi: Some(-128), ..device(3, "0") },
        DeviceView { rssi: Some(-126), ..device(4, "z") },
    ];
    assert_eq!(lasts(&sort_devices(list)), vec![4, 2, 1, 3]);
}

#[test]
fn equal_devices_keep_their_order() {
    let list = vec![device(1, "Pad"), device(2, "pad"), device(3, "PAD"), device(4, "mouse")];
    assert_eq!(lasts(&sort_devices(list)), vec![4, 1, 2, 3]);
}

#[test]
fn sorting_twice_changes_nothing() {
    let list = vec![
        device(1, "c"),
        DeviceView { paired: true, ..device(2, "b") },
        device(3, "a"),
    ];
    let once = sort_devices(list);
    let first = lasts(&once);
    assert_eq!(lasts(&sort_devices(once)), first);
    assert_eq!(first, vec![2, 3, 1]);
    assert!(sort_devices(Vec::new()).is_empty());
}

#[test]
fn row_takes_readings_over() {
    let shown = row(&Listed { addr: address(9), readings: Ok(readings(Some("Buds"))) }).unwrap();
    assert_eq!(shown.addr, address(9));
    assert_eq!(shown.name, "Buds");
    assert_eq!(shown.icon.as_deref(), Some("audio-headset"));
    assert!(shown.paired);
    assert!(!shown.connected);
    assert!(shown.trusted);
    assert_eq!(shown.rssi, Some(-50));
}

#[test]
fn unreadable_properties_count_as_absent() {
    let broken = || "no reply".to_string();
    let shown = row(&Listed {
        addr: address(9),
        readings: Ok(Readings {
            name: Err(broken()),
            icon: Err(broken()),
            paired: Err(broken()),
            connected: Err(broken()),
            trusted: Err(broken()),
            rssi: Err(broken()),
        }),
    })
    .unwrap();
    assert_eq!(shown.name, "AA:BB:CC:00:1F:09");
    assert_eq!(shown.icon, None);
    assert!(!shown.paired && !shown.connected && !shown.trusted);
    assert_eq!(shown.rssi, None);
    assert!(row(&Listed { addr: address(9), readings: Err(broken()) }).is_none());
}

#[test]
fn devices_that_cannot_be_opened_are_left_out() {
    let listing = vec![
        Listed { addr: address(1), readings: Ok(readings(Some("one"))) },
        Listed { addr: address(2), readings: Err("gone".to_string()) },
        Listed { addr: address(3), readings: Ok(readings(None)) },
    ];
    assert_eq!(names(&rows(&listing)), vec!["one", "AA:BB:CC:00:1F:03"]);
}

#[test]
fn fresh_snapshot_is_empty() {
    let snapshot = Snapshot::default();
    assert!(snapshot.devices.is_empty());
    assert!(!snapshot.scanning && !snapshot.powered);
    assert_eq!(snapshot.status, "");
}

#[test]
fn publishing_sorts_and_keeps_the_status() {
    let mut snapshot = Snapshot::default();
    set_status(&mut snapshot, "connected Pad".to_string());
    assert_eq!(snapshot.status, "connected Pad");
    assert!(!snapshot.scanning);
    let listing = vec![
        Listed { addr: address(1), readings: Ok(readings(Some("zed"))) },
        Listed { addr: address(2), readings: Ok(readings(Some("Amp"))) },
    ];
    publish(&mut snapshot, list_devices(&Ok(listing)), Ok(true));
    assert_eq!(names(&snapshot.devices), vec!["Amp", "zed"]);
    assert!(snapshot.scanning && snapshot.powered);
    assert_eq!(snapshot.status, "connected Pad");
    set_status(&mut snapshot, "x".to_string());
    assert_eq!(names(&snapshot.devices), vec!["Amp", "zed"]);
    assert!(snapshot.scanning && snapshot.powered);
}

#[test]
fn publishing_forgets_old_rows() {
    let mut snapshot = Snapshot::default();
    snapshot.devices.push(device(1, "old"));
    publish(&mut snapshot, list_devices(&Ok(Vec::new())), Ok(false));
    assert!(snapshot.devices.is_empty());
    assert!(!snapshot.powered);
}

#[test]
fn publishing_without_a_listing_shows_nothing() {
    let mut snapshot = Snapshot::default();
    snapshot.devices.push(device(1, "old"));
    let devices = list_devices(&Err("no adapter".to_string()));
    publish(&mut snapshot, devices, Err("no adapter".to_string()));
    assert!(snapshot.devices.is_empty());
    assert!(snapshot.scanning);
    assert!(!snapshot.powered);
}

#[test]
fn copies_hold_the_same() {
    let mut snapshot = Snapshot::default();
    snapshot.devices.push(DeviceView { rssi: Some(-3), ..with_icon("phone") });
    snapshot.status = "s".to_string();
    let copy = snapshot.clone();
    assert_eq!(format!("{copy:?}"), format!("{snapshot:?}"));
}

#[test]
fn address_order_does_not_matter() {
    let listed = |last: u8, name: &str| Listed {
        addr: address(last),
        readings: Ok(readings(Some(name))),
    };
    let one = list_devices(&Ok(vec![listed(1, "pad"), listed(2, "Pad"), listed(3, "amp")]));
    let two = list_devices(&Ok(vec![listed(2, "Pad"), listed(3, "amp"), listed(1, "pad")]));
    assert_eq!(lasts(&one), vec![3, 1, 2]);
    assert_eq!(lasts(&two), vec![3, 2, 1]);
    for (a, b) in one.iter().zip(two.iter()) {
        assert_eq!(order_ranks(&rank(a), &rank(b)), Order::Same);
    }
}

#[test]
fn reasons_for_failed_readings_do_not_show() {
    let failing = |why: &str| {
        vec![
            Listed { addr: address(1), readings: Err(why.to_string()) },
            Listed {
                addr: address(2),
                readings: Ok(Readings { rssi: Err(why.to_string()), ..readings(Some("pad")) }),
            },
        ]
    };
    let mut one = Snapshot::default();
    publish(&mut one, list_devices(&Ok(failing("timed out"))), Err("timed out".to_string()));
    let mut two = Snapshot::default();
    publish(&mut two, list_devices(&Ok(failing("gone"))), Ok(false));
    assert_eq!(format!("{one:?}"), format!("{two:?}"));
    assert_eq!(names(&one.devices), vec!["pad"]);
}
