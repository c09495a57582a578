//! What a frame shows, as a list of drawing operations.
use vstd::prelude::*;
use vstd::string::*;

use crate::input::{clamped, command_at, Action};
use crate::model::{Command, DeviceModel, DeviceView, Snapshot, SnapshotModel};
use crate::text::{decimal, decimal_text};

verus! {

/// Colours by what they are for.
#[derive(Clone, Copy, Debug, PartialEq, Eq)]
pub enum Tone {
    Background,
    Panel,
    Select,
    Text,
    Dim,
    Green,
}

impl Tone {
    /// The red, green and blue parts of the colour.
    pub open spec fn parts(self) -> (u8, u8, u8) {
        match self {
            Tone::Background => (18u8, 18u8, 22u8),
            Tone::Panel => (30u8, 30u8, 38u8),
            Tone::Select => (52u8, 88u8, 140u8),
            Tone::Text => (235u8, 235u8, 240u8),
            Tone::Dim => (150u8, 150u8, 160u8),
            Tone::Green => (120u8, 210u8, 130u8),
        }
    }

    /// The red, green and blue parts of the colour.
    pub fn rgb(self) -> (parts: (u8, u8, u8))
        ensures
            parts == self.parts(),
    {
        match self {
            Tone::Background => (18, 18, 22),
            Tone::Panel => (30, 30, 38),
            Tone::Select => (52, 88, 140),
            Tone::Text => (235, 235, 240),
            Tone::Dim => (150, 150, 160),
            Tone::Green => (120, 210, 130),
        }
    }
}

/// The two sizes of type.
#[derive(Clone, Copy, Debug, PartialEq, Eq)]
pub enum Face {
    Normal,
    Small,
}

impl Face {
    /// The size in points.
    pub fn points(self) -> (points: u16)
        ensures
            points == if self is Normal {
                26u16
            } else {
                20u16
            },
    {
        match self {
            Face::Normal => 26,
            Face::Small => 20,
        }
    }
}

/// One drawing operation.
#[derive(Debug)]
pub enum DrawOp {
    /// Fill the whole window.
    Clear(Tone),
    /// Fill a rectangle.
    Fill { x: i32, y: i32, width: u32, height: u32, tone: Tone },
    /// Draw a line of text with its top left corner at the given point.
    Text { face: Face, text: String, x: i32, y: i32, tone: Tone },
}

/// What a [`DrawOp`] holds.
#[verifier::ext_equal]
pub enum DrawModel {
    Clear(Tone),
    Fill { x: int, y: int, width: int, height: int, tone: Tone },
    Text { face: Face, text: Seq<char>, x: int, y: int, tone: Tone },
}

impl DeepView for DrawOp {
    type V = DrawModel;

    open spec fn deep_view(&self) -> DrawModel {
        match *self {
            DrawOp::Clear(tone) => DrawModel::Clear(tone),
            DrawOp::Fill { x, y, width, height, tone } => DrawModel::Fill {
                x: x as int,
                y: y as int,
                width: width as int,
                height: height as int,
                tone,
            },
            DrawOp::Text { face, text, x, y, tone } => DrawModel::Text {
                face,
                text: text@,
                x: x as int,
                y: y as int,
                tone,
            },
        }
    }
}

/// The width of the window when it is created, and where the real one cannot be had.
pub const FALLBACK_WIDTH: u32 = 1280;

/// The height of the window when it is created, and where the real one cannot be had.
pub const FALLBACK_HEIGHT: u32 = 720;

/// Where the list of devices begins.
pub const LIST_TOP: i32 = 120;

/// From the top of one row to the top of the next.
pub const ROW_HEIGHT: i32 = 64;

/// A line of text; nothing where it is empty.
pub open spec fn text_ops(face: Face, text: Seq<char>, x: int, y: int, tone: Tone) -> Seq<
    DrawModel,
> {
    if text.len() == 0 {
        Seq::empty()
    } else {
        seq![DrawModel::Text { face, text, x, y, tone }]
    }
}

/// The line below the title.
pub open spec fn header_line(powered: bool, scanning: bool) -> Seq<char> {
    if !powered {
        "adapter OFF"@
    } else if scanning {
        "scanning…"@
    } else {
        "scanning"@
    }
}

/// The line below a device's name: whether it is connected or else paired, its
/// kind, and the strength of its signal where that is known.
pub open spec fn tag_line(device: DeviceModel) -> Seq<char> {
    let state = if device.connected {
        "connected"@ + "  •  "@
    } else if device.paired {
        "paired"@ + "  •  "@
    } else {
        Seq::empty()
    };
    let signal = match device.rssi {
        Some(rssi) => "  •  "@ + decimal(rssi as int) + " dBm"@,
        None => Seq::empty(),
    };
    state + device.kind() + signal
}

/// The top of the row at index `i`.
pub open spec fn row_top(i: int) -> int {
    LIST_TOP + i * ROW_HEIGHT
}

/// A row: its panel, the device's name and its tags.
pub open spec fn row_ops(device: DeviceModel, i: int, selected: int, width: int) -> Seq<DrawModel> {
    let panel = DrawModel::Fill {
        x: 40,
        y: row_top(i),
        width: width - 80,
        height: ROW_HEIGHT - 8,
        tone: if i == selected {
            Tone::Select
        } else {
            Tone::Panel
        },
    };
    let name_tone = if device.connected {
        Tone::Green
    } else {
        Tone::Text
    };
    seq![panel] + text_ops(Face::Normal, device.name, 60, row_top(i) + 6, name_tone) + text_ops(
        Face::Small,
        tag_line(device),
        60,
        row_top(i) + 36,
        Tone::Dim,
    )
}

/// The first `n` rows.
pub open spec fn rows_ops(devices: Seq<DeviceModel>, n: int, selected: int, width: int) -> Seq<
    DrawModel,
>
    decreases n,
{
    if n <= 0 {
        Seq::empty()
    } else {
        rows_ops(devices, n - 1, selected, width) + row_ops(
            devices[n - 1],
            n - 1,
            selected,
            width,
        )
    }
}

/// What is above the list.
pub open spec fn top_ops(snapshot: SnapshotModel) -> Seq<DrawModel> {
    seq![DrawModel::Clear(Tone::Background)] + text_ops(
        Face::Normal,
        "Bluetooth"@,
        48,
        36,
        Tone::Text,
    ) + text_ops(
        Face::Small,
        header_line(snapshot.powered, snapshot.scanning),
        48,
        74,
        Tone::Dim,
    )
}

/// What is below the list: a hint where the list is empty, the status line and
/// the controls.
pub open spec fn bottom_ops(snapshot: SnapshotModel, height: int) -> Seq<DrawModel> {
    let hint = if snapshot.devices.len() == 0 {
        text_ops(
            Face::Small,
            "No devices yet — put your device in pairing mode…"@,
            60,
            LIST_TOP + 8,
            Tone::Dim,
        )
    } else {
        Seq::empty()
    };
    hint + text_ops(Face::Small, snapshot.status, 48, height - 76, Tone::Dim) + text_ops(
        Face::Small,
        "A connect/pair   Y disconnect   Back remove   B exit"@,
        48,
        height - 44,
        Tone::Text,
    )
}

/// A whole frame.
pub open spec fn frame_ops(
    snapshot: SnapshotModel,
    selected: int,
    width: int,
    height: int,
) -> Seq<DrawModel> {
    top_ops(snapshot) + rows_ops(
        snapshot.devices,
        snapshot.devices.len() as int,
        selected,
        width,
    ) + bottom_ops(snapshot, height)
}

/// A window height as a signed coordinate, wrapping round at the top bit.
pub open spec fn signed_height(height: u32) -> int {
    if height <= i32::MAX {
        height as int
    } else {
        height - 0x1_0000_0000
    }
}

/// Whether every coordinate of a frame can be told in 32 bits.
pub open spec fn fits_window(snapshot: SnapshotModel, width: u32, height: u32) -> bool {
    &&& snapshot.devices.len() > 0 ==> width >= 80 && row_top(snapshot.devices.len() - 1) + 36
        <= i32::MAX
    &&& snapshot.status.len() > 0 ==> signed_height(height) - 76 >= i32::MIN
    &&& signed_height(height) - 44 >= i32::MIN
}

/// The size of the window: as reported, or the fallback.
pub fn window_size(reported: Option<(u32, u32)>) -> (size: (u32, u32))
    ensures
        size == match reported {
            Some(size) => size,
            None => (1280u32, 720u32),
        },
{
    match reported {
        Some(size) => size,
        None => (FALLBACK_WIDTH, FALLBACK_HEIGHT),
    }
}

/// Whether every coordinate of a frame can be told in 32 bits.
pub fn frame_fits(snapshot: &Snapshot, width: u32, height: u32) -> (fits: bool)
    ensures
        fits == fits_window(snapshot.deep_view(), width, height),
{
    let count: usize = snapshot.devices.len();
    let rows_fit: bool = count == 0 || (width >= 80 && count - 1 <= (i32::MAX - LIST_TOP - 36) as usize
        / ROW_HEIGHT as usize);
    let bottom: i64 = if height <= i32::MAX as u32 {
        height as i64
    } else {
        height as i64 - 0x1_0000_0000
    };
    let status_fits: bool = snapshot.status.as_str().is_empty() || bottom - 76 >= i32::MIN as i64;
    rows_fit && status_fits && bottom - 44 >= i32::MIN as i64
}

/// Adds one drawing operation.
fn draw(ops: &mut Vec<DrawOp>, op: DrawOp)
    ensures
        final(ops).deep_view() == old(ops).deep_view().push(op.deep_view()),
{
    ops.push(op);
}

/// Adds a line of text, unless it is empty.
fn draw_text(ops: &mut Vec<DrawOp>, face: Face, text: &str, x: i32, y: i32, tone: Tone)
    ensures
        final(ops).deep_view() == old(ops).deep_view() + text_ops(
            face,
            text@,
            x as int,
            y as int,
            tone,
        ),
{
    if text.is_empty() {
        return;
    }
    draw(ops, DrawOp::Text { face, text: String::from_str(text), x, y, tone });
}

/// The line below the title.
pub fn header(powered: bool, scanning: bool) -> (line: &'static str)
    ensures
        line@ == header_line(powered, scanning),
{
    if !powered {
        "adapter OFF"
    } else if scanning {
        "scanning…"
    } else {
        "scanning"
    }
}

/// The line below a device's name.
pub fn tags(device: &DeviceView) -> (line: String)
    ensures
        line@ == tag_line(device.deep_view()),
{
    let mut line = String::new();
    if device.connected {
        line.append("connected");
        line.append("  •  ");
    } else if device.paired {
        line.append("paired");
        line.append("  •  ");
    }
    line.append(device.kind());
    if let Some(rssi) = device.rssi {
        line.append("  •  ");
        line.append(decimal_text(rssi).as_str());
        line.append(" dBm");
    }
    line
}

/// Adds a row of the list.
fn draw_row(ops: &mut Vec<DrawOp>, device: &DeviceView, i: usize, selected: usize, width: u32)
    requires
        width >= 80,
        row_top(i as int) + 36 <= i32::MAX,
    ensures
        final(ops).deep_view() == old(ops).deep_view() + row_ops(
            device.deep_view(),
            i as int,
            selected as int,
            width as int,
        ),
{
    let ghost before = ops.deep_view();
    let y: i32 = LIST_TOP + i as i32 * ROW_HEIGHT;
    let tone = if i == selected {
        Tone::Select
    } else {
        Tone::Panel
    };
    draw(
        ops,
        DrawOp::Fill { x: 40, y, width: width - 80, height: (ROW_HEIGHT - 8) as u32, tone },
    );
    let name_tone = if device.connected {
        Tone::Green
    } else {
        Tone::Text
    };
    draw_text(ops, Face::Normal, device.name.as_str(), 60, y + 6, name_tone);
    draw_text(ops, Face::Small, tags(device).as_str(), 60, y + 36, Tone::Dim);
    assert(ops.deep_view() =~= before + row_ops(
        device.deep_view(),
        i as int,
        selected as int,
        width as int,
    ));
}

/// Draws a frame: title, header, devices with the selected one highlighted, status
/// line and controls.
pub fn frame(snapshot: &Snapshot, selected: usize, width: u32, height: u32) -> (ops: Vec<DrawOp>)
    requires
        fits_window(snapshot.deep_view(), width, height),
    ensures
        ops.deep_view() == frame_ops(
            snapshot.deep_view(),
            selected as int,
            width as int,
            signed_height(height),
        ),
{
    let ghost shown = snapshot.deep_view();
    let mut ops: Vec<DrawOp> = Vec::new();
    draw(&mut ops, DrawOp::Clear(Tone::Background));
    draw_text(&mut ops, Face::Normal, "Bluetooth", 48, 36, Tone::Text);
    draw_text(
        &mut ops,
        Face::Small,
        header(snapshot.powered, snapshot.scanning),
        48,
        74,
        Tone::Dim,
    );

    let mut i: usize = 0;
    assert(ops.deep_view() =~= top_ops(shown) + rows_ops(
        shown.devices,
        0,
        selected as int,
        width as int,
    ));
    while i < snapshot.devices.len()
        invariant
            shown == snapshot.deep_view(),
            fits_window(shown, width, height),
            i <= shown.devices.len(),
            ops.deep_view() == top_ops(shown) + rows_ops(
                shown.devices,
                i as int,
                selected as int,
                width as int,
            ),
        decreases shown.devices.len() - i,
    {
        draw_row(&mut ops, &snapshot.devices[i], i, selected, width);
        i = i + 1;
        assert(ops.deep_view() =~= top_ops(shown) + rows_ops(
            shown.devices,
            i as int,
            selected as int,
            width as int,
        ));
    }

    let bottom: i32 = if height <= i32::MAX as u32 {
        height as i32
    } else {
        (height as i64 - 0x1_0000_0000) as i32
    };
    if snapshot.devices.is_empty() {
        draw_text(
            &mut ops,
            Face::Small,
            "No devices yet — put your device in pairing mode…",
            60,
            LIST_TOP + 8,
            Tone::Dim,
        );
    }
    if !snapshot.status.as_str().is_empty() {
        draw_text(&mut ops, Face::Small, snapshot.status.as_str(), 48, bottom - 76, Tone::Dim);
    }
    draw_text(
        &mut ops,
        Face::Small,
        "A connect/pair   Y disconnect   Back remove   B exit",
        48,
        bottom - 44,
        Tone::Text,
    );
    ops
}

/// How many rows are highlighted.
pub open spec fn highlights(ops: Seq<DrawModel>) -> int
    decreases ops.len(),
{
    if ops.len() == 0 {
        0
    } else {
        highlights(ops.drop_last()) + match ops.last() {
            DrawModel::Fill { tone: Tone::Select, .. } => 1int,
            _ => 0,
        }
    }
}

/// Highlights of two pieces put together.
proof fn highlights_add_up(one: Seq<DrawModel>, two: Seq<DrawModel>)
    ensures
        highlights(one + two) == highlights(one) + highlights(two),
    decreases two.len(),
{
    if two.len() == 0 {
        assert(one + two =~= one);
    } else {
        assert((one + two).drop_last() =~= one + two.drop_last());
        highlights_add_up(one, two.drop_last());
    }
}

/// Text highlights nothing.
proof fn text_highlights_nothing(face: Face, text: Seq<char>, x: int, y: int, tone: Tone)
    ensures
        highlights(text_ops(face, text, x, y, tone)) == 0,
{
    reveal_with_fuel(highlights, 2);
}

/// A row is highlighted when it is the selected one.
proof fn row_highlight(device: DeviceModel, i: int, selected: int, width: int)
    ensures
        highlights(row_ops(device, i, selected, width)) == if i == selected {
            1int
        } else {
            0
        },
{
    let panel = seq![row_ops(device, i, selected, width)[0]];
    let name_tone = if device.connected {
        Tone::Green
    } else {
        Tone::Text
    };
    let name = text_ops(Face::Normal, device.name, 60, row_top(i) + 6, name_tone);
    let tags = text_ops(Face::Small, tag_line(device), 60, row_top(i) + 36, Tone::Dim);
    highlights_add_up(panel + name, tags);
    highlights_add_up(panel, name);
    text_highlights_nothing(Face::Normal, device.name, 60, row_top(i) + 6, name_tone);
    text_highlights_nothing(Face::Small, tag_line(device), 60, row_top(i) + 36, Tone::Dim);
    reveal_with_fuel(highlights, 2);
}

/// Highlights among the first `n` rows.
proof fn rows_highlight(devices: Seq<DeviceModel>, n: int, selected: int, width: int)
    ensures
        highlights(rows_ops(devices, n, selected, width)) == if 0 <= selected < n {
            1int
        } else {
            0
        },
    decreases n,
{
    if n > 0 {
        rows_highlight(devices, n - 1, selected, width);
        row_highlight(devices[n - 1], n - 1, selected, width);
        highlights_add_up(
            rows_ops(devices, n - 1, selected, width),
            row_ops(devices[n - 1], n - 1, selected, width),
        );
    }
}

/// Exactly one row of a frame is highlighted if the selection is a row of the list,
/// and none otherwise.
pub proof fn one_row_is_highlighted(
    snapshot: SnapshotModel,
    selected: int,
    width: int,
    height: int,
)
    ensures
        highlights(frame_ops(snapshot, selected, width, height)) == if 0 <= selected
            < snapshot.devices.len() {
            1int
        } else {
            0
        },
{
    let count = snapshot.devices.len() as int;
    let top = top_ops(snapshot);
    let rows = rows_ops(snapshot.devices, count, selected, width);
    let bottom = bottom_ops(snapshot, height);
    highlights_add_up(top + rows, bottom);
    highlights_add_up(top, rows);
    rows_highlight(snapshot.devices, count, selected, width);

    let clear = seq![DrawModel::Clear(Tone::Background)];
    let header = header_line(snapshot.powered, snapshot.scanning);
    let title_ops = text_ops(Face::Normal, "Bluetooth"@, 48, 36, Tone::Text);
    highlights_add_up(
        clear + title_ops,
        text_ops(Face::Small, header, 48, 74, Tone::Dim),
    );
    highlights_add_up(clear, title_ops);
    text_highlights_nothing(Face::Normal, "Bluetooth"@, 48, 36, Tone::Text);
    text_highlights_nothing(Face::Small, header, 48, 74, Tone::Dim);
    assert(highlights(clear) == 0) by {
        reveal_with_fuel(highlights, 2);
    }

    let empty_hint = "No devices yet — put your device in pairing mode…"@;
    let hint = if count == 0 {
        text_ops(Face::Small, empty_hint, 60, LIST_TOP + 8, Tone::Dim)
    } else {
        Seq::empty()
    };
    let status = text_ops(Face::Small, snapshot.status, 48, height - 76, Tone::Dim);
    let controls = "A connect/pair   Y disconnect   Back remove   B exit"@;
    let controls_ops = text_ops(Face::Small, controls, 48, height - 44, Tone::Text);
    highlights_add_up(hint + status, controls_ops);
    highlights_add_up(hint, status);
    text_highlights_nothing(Face::Small, empty_hint, 60, LIST_TOP + 8, Tone::Dim);
    text_highlights_nothing(Face::Small, snapshot.status, 48, height - 76, Tone::Dim);
    text_highlights_nothing(Face::Small, controls, 48, height - 44, Tone::Text);
}

/// What a row draws is drawn by the list.
proof fn row_is_drawn(
    devices: Seq<DeviceModel>,
    n: int,
    selected: int,
    width: int,
    i: int,
    op: DrawModel,
)
    requires
        0 <= i < n,
        row_ops(devices[i], i, selected, width).contains(op),
    ensures
        rows_ops(devices, n, selected, width).contains(op),
    decreases n,
{
    let earlier = rows_ops(devices, n - 1, selected, width);
    let last = row_ops(devices[n - 1], n - 1, selected, width);
    if i < n - 1 {
        row_is_drawn(devices, n - 1, selected, width, i, op);
        let k = choose|k: int| 0 <= k < earlier.len() && earlier[k] == op;
        assert((earlier + last)[k] == op);
    } else {
        let k = choose|k: int| 0 <= k < last.len() && last[k] == op;
        assert((earlier + last)[earlier.len() + k] == op);
    }
}

/// Every device is drawn in its own row: its panel, highlighted when the row is
/// selected; its name, green when it is connected, unless the name is empty; and
/// its tags.
pub proof fn every_device_is_drawn(
    snapshot: SnapshotModel,
    selected: int,
    width: int,
    height: int,
    i: int,
)
    requires
        0 <= i < snapshot.devices.len(),
    ensures
        frame_ops(snapshot, selected, width, height).contains(
            DrawModel::Fill {
                x: 40,
                y: 120 + 64 * i,
                width: width - 80,
                height: 56,
                tone: if i == selected {
                    Tone::Select
                } else {
                    Tone::Panel
                },
            },
        ),
        snapshot.devices[i].name.len() > 0 ==> frame_ops(
            snapshot,
            selected,
            width,
            height,
        ).contains(
            DrawModel::Text {
                face: Face::Normal,
                text: snapshot.devices[i].name,
                x: 60,
                y: 120 + 64 * i + 6,
                tone: if snapshot.devices[i].connected {
                    Tone::Green
                } else {
                    Tone::Text
                },
            },
        ),
        frame_ops(snapshot, selected, width, height).contains(
            DrawModel::Text {
                face: Face::Small,
                text: tag_line(snapshot.devices[i]),
                x: 60,
                y: 120 + 64 * i + 36,
                tone: Tone::Dim,
            },
        ),
{
    let row = row_ops(snapshot.devices[i], i, selected, width);
    tag_line_is_not_empty(snapshot.devices[i]);
    assert forall|op: DrawModel| row.contains(op) implies frame_ops(
        snapshot,
        selected,
        width,
        height,
    ).contains(op) by {
        let count = snapshot.devices.len() as int;
        let top = top_ops(snapshot);
        let rows = rows_ops(snapshot.devices, count, selected, width);
        row_is_drawn(snapshot.devices, count, selected, width, i, op);
        let k = choose|k: int| 0 <= k < rows.len() && rows[k] == op;
        assert(frame_ops(snapshot, selected, width, height)[top.len() + k] == op);
    }
    assert(row.contains(row[0]));
    assert(row.contains(row[1]));
    assert(row.contains(row.last()));
}

/// A tag line always names the kind of the device.
proof fn tag_line_is_not_empty(device: DeviceModel)
    ensures
        tag_line(device).len() > 0,
{
    reveal_strlit("audio");
    reveal_strlit("mouse");
    reveal_strlit("keyboard");
    reveal_strlit("controller");
    reveal_strlit("phone");
    reveal_strlit("device");
}

/// Whether no empty line of text is drawn.
pub open spec fn no_empty_text(ops: Seq<DrawModel>) -> bool {
    forall|k: int| 0 <= k < ops.len() ==> match #[trigger] ops[k] {
        DrawModel::Text { text, .. } => text.len() > 0,
        _ => true,
    }
}

/// The list draws no empty text.
proof fn rows_have_no_empty_text(devices: Seq<DeviceModel>, n: int, selected: int, width: int)
    ensures
        no_empty_text(rows_ops(devices, n, selected, width)),
    decreases n,
{
    if n > 0 {
        rows_have_no_empty_text(devices, n - 1, selected, width);
    }
}

/// A frame draws no empty text: a device without a name or an empty status line
/// leaves its place blank.
pub proof fn frames_have_no_empty_text(
    snapshot: SnapshotModel,
    selected: int,
    width: int,
    height: int,
)
    ensures
        no_empty_text(frame_ops(snapshot, selected, width, height)),
{
    rows_have_no_empty_text(
        snapshot.devices,
        snapshot.devices.len() as int,
        selected,
        width,
    );
}

/// What is highlighted is what is acted on: with the selection clamped to a list
/// that has a row, the frame highlights one row, and an action gives the command
/// for the device of that row.
pub proof fn highlighted_device_gets_the_command(
    snapshot: SnapshotModel,
    selected: int,
    width: int,
    height: int,
    action: Action,
)
    requires
        snapshot.devices.len() > 0,
        0 <= selected,
    ensures
        ({
            let row = clamped(selected, snapshot.devices.len() as int);
            let ops = frame_ops(snapshot, row, width, height);
            &&& highlights(ops) == 1
            &&& ops.contains(
                DrawModel::Fill {
                    x: 40,
                    y: 120 + 64 * row,
                    width: width - 80,
                    height: 56,
                    tone: Tone::Select,
                },
            )
            &&& row == if selected < snapshot.devices.len() {
                selected
            } else {
                snapshot.devices.len() - 1
            }
            &&& command_at(snapshot.devices, row, action) == Some(
                match action {
                    Action::Connect => Command::Connect(snapshot.devices[row].addr),
                    Action::Disconnect => Command::Disconnect(snapshot.devices[row].addr),
                    Action::Remove => Command::Remove(snapshot.devices[row].addr),
                },
            )
        }),
{
    let row = clamped(selected, snapshot.devices.len() as int);
    one_row_is_highlighted(snapshot, row, width, height);
    every_device_is_drawn(snapshot, row, width, height, row);
}

/// The rows of two devices never overlap: each ends before the next begins.
pub proof fn rows_never_overlap(
    snapshot: SnapshotModel,
    selected: int,
    width: int,
    height: int,
    i: int,
    j: int,
)
    requires
        0 <= i < j < snapshot.devices.len(),
    ensures
        exists|upper: DrawModel, lower: DrawModel|
            {
                &&& #[trigger] frame_ops(snapshot, selected, width, height).contains(upper)
                &&& #[trigger] frame_ops(snapshot, selected, width, height).contains(lower)
                &&& upper is Fill && lower is Fill
                &&& upper->Fill_y == 120 + 64 * i
                &&& lower->Fill_y == 120 + 64 * j
                &&& upper->Fill_y + upper->Fill_height <= lower->Fill_y
            },
{
    every_device_is_drawn(snapshot, selected, width, height, i);
    every_device_is_drawn(snapshot, selected, width, height, j);
    let upper = DrawModel::Fill {
        x: 40,
        y: 120 + 64 * i,
        width: width - 80,
        height: 56,
        tone: if i == selected {
            Tone::Select
        } else {
            Tone::Panel
        },
    };
    let lower = DrawModel::Fill {
        x: 40,
        y: 120 + 64 * j,
        width: width - 80,
        height: 56,
        tone: if j == selected {
            Tone::Select
        } else {
            Tone::Panel
        },
    };
    assert(frame_ops(snapshot, selected, width, height).contains(upper));
    assert(frame_ops(snapshot, selected, width, height).contains(lower));
}

/// A list with one more device is drawn as the list without it, and then a panel 64
/// below the last, the device's name where it has one, and its tags.
pub proof fn one_more_device_is_one_more_row(
    devices: Seq<DeviceModel>,
    device: DeviceModel,
    selected: int,
    width: int,
)
    ensures
        ({
            let n = devices.len() as int;
            let panel = DrawModel::Fill {
                x: 40,
                y: 120 + 64 * n,
                width: width - 80,
                height: 56,
                tone: if n == selected {
                    Tone::Select
                } else {
                    Tone::Panel
                },
            };
            let name = DrawModel::Text {
                face: Face::Normal,
                text: device.name,
                x: 60,
                y: 126 + 64 * n,
                tone: if device.connected {
                    Tone::Green
                } else {
                    Tone::Text
                },
            };
            let tags = DrawModel::Text {
                face: Face::Small,
                text: tag_line(device),
                x: 60,
                y: 156 + 64 * n,
                tone: Tone::Dim,
            };
            let row = if device.name.len() > 0 {
                seq![panel, name, tags]
            } else {
                seq![panel, tags]
            };
            rows_ops(devices.push(device), n + 1, selected, width) == rows_ops(
                devices,
                n,
                selected,
                width,
            ) + row
        }),
        rows_ops(devices, 0, selected, width) == Seq::<DrawModel>::empty(),
{
    let n = devices.len() as int;
    rows_depend_on_their_devices(devices.push(device), devices, n, selected, width);
    tag_line_is_not_empty(device);
}

/// The first rows depend on the first devices only.
proof fn rows_depend_on_their_devices(
    one: Seq<DeviceModel>,
    two: Seq<DeviceModel>,
    n: int,
    selected: int,
    width: int,
)
    requires
        n <= one.len(),
        n <= two.len(),
        forall|i: int| 0 <= i < n ==> #[trigger] one[i] == two[i],
    ensures
        rows_ops(one, n, selected, width) == rows_ops(two, n, selected, width),
    decreases n,
{
    if n > 0 {
        rows_depend_on_their_devices(one, two, n - 1, selected, width);
        assert(one[n - 1] == two[n - 1]);
    }
}

/// A frame begins with the cleared window, the title and the header, then has the
/// rows, and ends with the hint where there is no row, the status line where there is
/// one, and the controls. Nothing else is drawn.
pub proof fn frame_in_full(snapshot: SnapshotModel, selected: int, width: int, height: int)
    ensures
        ({
            let top = seq![
                DrawModel::Clear(Tone::Background),
                DrawModel::Text {
                    face: Face::Normal,
                    text: "Bluetooth"@,
                    x: 48,
                    y: 36,
                    tone: Tone::Text,
                },
                DrawModel::Text {
                    face: Face::Small,
                    text: if !snapshot.powered {
                        "adapter OFF"@
                    } else if snapshot.scanning {
                        "scanning…"@
                    } else {
                        "scanning"@
                    },
                    x: 48,
                    y: 74,
                    tone: Tone::Dim,
                },
            ];
            let rows = rows_ops(snapshot.devices, snapshot.devices.len() as int, selected, width);
            let hint = seq![
                DrawModel::Text {
                    face: Face::Small,
                    text: "No devices yet — put your device in pairing mode…"@,
                    x: 60,
                    y: 128,
                    tone: Tone::Dim,
                },
            ];
            let status = seq![
                DrawModel::Text {
                    face: Face::Small,
                    text: snapshot.status,
                    x: 48,
                    y: height - 76,
                    tone: Tone::Dim,
                },
            ];
            let controls = seq![
                DrawModel::Text {
                    face: Face::Small,
                    text: "A connect/pair   Y disconnect   Back remove   B exit"@,
                    x: 48,
                    y: height - 44,
                    tone: Tone::Text,
                },
            ];
            let none = Seq::<DrawModel>::empty();
            frame_ops(snapshot, selected, width, height) == top + rows + (if snapshot.devices.len()
                == 0 {
                hint
            } else {
                none
            }) + (if snapshot.status.len() > 0 {
                status
            } else {
                none
            }) + controls
        }),
{
    reveal_strlit("Bluetooth");
    reveal_strlit("adapter OFF");
    reveal_strlit("scanning…");
    reveal_strlit("scanning");
    reveal_strlit("No devices yet — put your device in pairing mode…");
    reveal_strlit("A connect/pair   Y disconnect   Back remove   B exit");
}

/// The line below a device's name, in full: "connected" where it is connected, or
/// else "paired" where it is paired; its kind; and the strength of its signal where
/// that is known; with a dot between two of them.
pub proof fn tag_line_in_full(device: DeviceModel)
    ensures
        ({
            let signal = match device.rssi {
                Some(rssi) => "  •  "@ + decimal(rssi as int) + " dBm"@,
                None => Seq::empty(),
            };
            &&& device.connected ==> tag_line(device) == "connected"@ + "  •  "@ + device.kind()
                + signal
            &&& !device.connected && device.paired ==> tag_line(device) == "paired"@ + "  •  "@
                + device.kind() + signal
            &&& !device.connected && !device.paired ==> tag_line(device) == device.kind() + signal
        }),
{
    if !device.connected && !device.paired {
        assert(Seq::<char>::empty() + device.kind() =~= device.kind());
    }
}

/// The line below the title says that the adapter is off where it is, and otherwise
/// "scanning", with an ellipsis while it is.
pub proof fn header_in_full(scanning: bool)
    ensures
        header_line(false, scanning) == "adapter OFF"@,
        header_line(true, true) == "scanning…"@,
        header_line(true, false) == "scanning"@,
{
}

/// The colours.
pub proof fn colours_in_full(tone: Tone)
    ensures
        tone.parts() == match tone {
            Tone::Background => (18u8, 18u8, 22u8),
            Tone::Panel => (30u8, 30u8, 38u8),
            Tone::Select => (52u8, 88u8, 140u8),
            Tone::Text => (235u8, 235u8, 240u8),
            Tone::Dim => (150u8, 150u8, 160u8),
            Tone::Green => (120u8, 210u8, 130u8),
        },
{
}

/// A frame fits exactly when its rows, if any, are at least as wide as their margins
/// and their lowest line of text has a 32-bit coordinate, and so have the status
/// line, if any, and the controls. A height with the top bit set counts as negative.
pub proof fn fitting_in_full(snapshot: SnapshotModel, width: u32, height: u32)
    ensures
        signed_height(height) == if height < 2147483648 {
            height as int
        } else {
            height - 4294967296
        },
        fits_window(snapshot, width, height) <==> {
            &&& snapshot.devices.len() > 0 ==> width >= 80 && 120 + 64 * (snapshot.devices.len()
                - 1) + 36 <= 2147483647
            &&& snapshot.status.len() > 0 ==> signed_height(height) - 76 >= -2147483648
            &&& signed_height(height) - 44 >= -2147483648
        },
{
}

/// The model of a drawing operation holds what the operation holds.
pub proof fn draw_model_in_full(op: DrawOp)
    ensures
        op matches DrawOp::Clear(tone) ==> op.deep_view() == DrawModel::Clear(tone),
        op matches DrawOp::Fill { x, y, width, height, tone } ==> op.deep_view()
            == (DrawModel::Fill {
            x: x as int,
            y: y as int,
            width: width as int,
            height: height as int,
            tone,
        }),
        op matches DrawOp::Text { face, text, x, y, tone } ==> op.deep_view() == (DrawModel::Text {
            face,
            text: text@,
            x: x as int,
            y: y as int,
            tone,
        }),
{
}

} // verus!
