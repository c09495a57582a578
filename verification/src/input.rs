//! What buttons and keys do: move the selection, send commands, exit.
use vstd::prelude::*;

use crate::model::{Address, Command, DeviceModel, Snapshot};

verus! {

/// Buttons of a game controller.
#[derive(Clone, Copy, Debug, PartialEq, Eq)]
pub enum Button {
    A,
    B,
    Y,
    Back,
    Start,
    DPadUp,
    DPadDown,
    Other,
}

/// Keys of the keyboard, the fallback where there is no controller.
#[derive(Clone, Copy, Debug, PartialEq, Eq)]
pub enum Key {
    Up,
    Down,
    Return,
    D,
    Delete,
    Escape,
    Other,
}

/// Something that happened at the window.
#[derive(Clone, Copy, Debug, PartialEq, Eq)]
pub enum Input {
    /// The window was asked to close.
    Quit,
    /// A controller was plugged in; holds its device index.
    ControllerAdded(u32),
    ButtonDown(Button),
    KeyDown(Key),
    Other,
}

/// What can be done with the selected device.
#[derive(Clone, Copy, Debug, PartialEq, Eq)]
pub enum Action {
    Connect,
    Disconnect,
    Remove,
}

/// What an input leads to, besides moving the selection.
#[derive(Clone, Copy, Debug, PartialEq, Eq)]
pub enum Effect {
    Nothing,
    Exit,
    /// Open the controller with this device index.
    OpenController(u32),
    /// Send the command for this action on the selected device.
    Send(Action),
}

/// What an input means.
#[derive(Clone, Copy, Debug, PartialEq, Eq)]
pub enum Meaning {
    MoveUp,
    MoveDown,
    Do(Effect),
}

impl Button {
    /// What pressing the button means.
    pub open spec fn meaning(self) -> Meaning {
        match self {
            Button::DPadUp => Meaning::MoveUp,
            Button::DPadDown => Meaning::MoveDown,
            Button::A => Meaning::Do(Effect::Send(Action::Connect)),
            Button::Y => Meaning::Do(Effect::Send(Action::Disconnect)),
            Button::Back => Meaning::Do(Effect::Send(Action::Remove)),
            Button::B => Meaning::Do(Effect::Exit),
            Button::Start => Meaning::Do(Effect::Exit),
            Button::Other => Meaning::Do(Effect::Nothing),
        }
    }
}

impl Key {
    /// What pressing the key means.
    pub open spec fn meaning(self) -> Meaning {
        match self {
            Key::Up => Meaning::MoveUp,
            Key::Down => Meaning::MoveDown,
            Key::Return => Meaning::Do(Effect::Send(Action::Connect)),
            Key::D => Meaning::Do(Effect::Send(Action::Disconnect)),
            Key::Delete => Meaning::Do(Effect::Send(Action::Remove)),
            Key::Escape => Meaning::Do(Effect::Exit),
            Key::Other => Meaning::Do(Effect::Nothing),
        }
    }
}

impl Input {
    /// What the input means.
    pub open spec fn meaning(self) -> Meaning {
        match self {
            Input::Quit => Meaning::Do(Effect::Exit),
            Input::ControllerAdded(which) => Meaning::Do(Effect::OpenController(which)),
            Input::ButtonDown(button) => button.meaning(),
            Input::KeyDown(key) => key.meaning(),
            Input::Other => Meaning::Do(Effect::Nothing),
        }
    }
}

impl Meaning {
    /// The selection afterwards. It stops at the top; the bottom is left to
    /// [`clamped`].
    pub open spec fn selection(self, selected: int) -> int {
        match self {
            Meaning::MoveUp => if selected > 0 {
                selected - 1
            } else {
                selected
            },
            Meaning::MoveDown => selected + 1,
            Meaning::Do(_) => selected,
        }
    }

    /// What is to be done.
    pub open spec fn effect(self) -> Effect {
        match self {
            Meaning::Do(effect) => effect,
            _ => Effect::Nothing,
        }
    }
}

impl Action {
    /// The command for this action on the device with the given address.
    pub open spec fn command(self, addr: Address) -> Command {
        match self {
            Action::Connect => Command::Connect(addr),
            Action::Disconnect => Command::Disconnect(addr),
            Action::Remove => Command::Remove(addr),
        }
    }
}

/// The selection kept within a list of `count` rows; 0 where there are none.
pub open spec fn clamped(selected: int, count: int) -> int {
    if count == 0 {
        0
    } else if selected < count {
        selected
    } else {
        count - 1
    }
}

/// The command for an action on the selected row; none where no row is selected.
pub open spec fn command_at(
    devices: Seq<DeviceModel>,
    selected: int,
    action: Action,
) -> Option<Command> {
    if 0 <= selected < devices.len() {
        Some(action.command(devices[selected].addr))
    } else {
        None
    }
}

/// What pressing the button means.
fn button_meaning(button: Button) -> (meaning: Meaning)
    ensures
        meaning == button.meaning(),
{
    match button {
        Button::DPadUp => Meaning::MoveUp,
        Button::DPadDown => Meaning::MoveDown,
        Button::A => Meaning::Do(Effect::Send(Action::Connect)),
        Button::Y => Meaning::Do(Effect::Send(Action::Disconnect)),
        Button::Back => Meaning::Do(Effect::Send(Action::Remove)),
        Button::B | Button::Start => Meaning::Do(Effect::Exit),
        Button::Other => Meaning::Do(Effect::Nothing),
    }
}

/// What pressing the key means.
fn key_meaning(key: Key) -> (meaning: Meaning)
    ensures
        meaning == key.meaning(),
{
    match key {
        Key::Up => Meaning::MoveUp,
        Key::Down => Meaning::MoveDown,
        Key::Return => Meaning::Do(Effect::Send(Action::Connect)),
        Key::D => Meaning::Do(Effect::Send(Action::Disconnect)),
        Key::Delete => Meaning::Do(Effect::Send(Action::Remove)),
        Key::Escape => Meaning::Do(Effect::Exit),
        Key::Other => Meaning::Do(Effect::Nothing),
    }
}

/// The selection after an input, and what else it leads to.
pub fn react(selected: usize, input: Input) -> (out: (usize, Effect))
    requires
        input.meaning() is MoveDown ==> selected < usize::MAX,
    ensures
        out.0 == input.meaning().selection(selected as int),
        out.1 == input.meaning().effect(),
        input == Input::ButtonDown(Button::DPadUp) || input == Input::KeyDown(Key::Up) ==> out.0
            == if selected > 0 {
            selected - 1
        } else {
            0
        },
        input == Input::ButtonDown(Button::DPadDown) || input == Input::KeyDown(Key::Down) ==> out.0
            == selected + 1,
        input != Input::ButtonDown(Button::DPadUp) && input != Input::KeyDown(Key::Up) && input
            != Input::ButtonDown(Button::DPadDown) && input != Input::KeyDown(Key::Down) ==> out.0
            == selected,
{
    let meaning = match input {
        Input::Quit => Meaning::Do(Effect::Exit),
        Input::ControllerAdded(which) => Meaning::Do(Effect::OpenController(which)),
        Input::ButtonDown(button) => button_meaning(button),
        Input::KeyDown(key) => key_meaning(key),
        Input::Other => Meaning::Do(Effect::Nothing),
    };
    match meaning {
        Meaning::MoveUp => (selected.saturating_sub(1), Effect::Nothing),
        Meaning::MoveDown => (selected + 1, Effect::Nothing),
        Meaning::Do(effect) => (selected, effect),
    }
}

/// The selection kept within a list of `count` rows; 0 where there are none.
pub fn clamp_selection(selected: usize, count: usize) -> (kept: usize)
    ensures
        kept == clamped(selected as int, count as int),
        count == 0 ==> kept == 0,
        count > 0 && selected < count ==> kept == selected,
        count > 0 && selected >= count ==> kept == count - 1,
{
    if count == 0 {
        0
    } else if selected < count {
        selected
    } else {
        count - 1
    }
}

/// The command for an action on the selected row; none where no row is selected.
pub fn selected_command(snapshot: &Snapshot, selected: usize, action: Action) -> (command: Option<
    Command,
>)
    ensures
        command == command_at(snapshot.deep_view().devices, selected as int, action),
        selected >= snapshot.devices@.len() ==> command is None,
        selected < snapshot.devices@.len() ==> command == Some(
            match action {
                Action::Connect => Command::Connect(snapshot.devices@[selected as int].addr),
                Action::Disconnect => Command::Disconnect(snapshot.devices@[selected as int].addr),
                Action::Remove => Command::Remove(snapshot.devices@[selected as int].addr),
            },
        ),
{
    if selected < snapshot.devices.len() {
        let addr = snapshot.devices[selected].addr;
        Some(
            match action {
                Action::Connect => Command::Connect(addr),
                Action::Disconnect => Command::Disconnect(addr),
                Action::Remove => Command::Remove(addr),
            },
        )
    } else {
        None
    }
}

/// The button that a key stands in for.
pub open spec fn button_for(key: Key) -> Button {
    match key {
        Key::Up => Button::DPadUp,
        Key::Down => Button::DPadDown,
        Key::Return => Button::A,
        Key::D => Button::Y,
        Key::Delete => Button::Back,
        Key::Escape => Button::B,
        Key::Other => Button::Other,
    }
}

/// The keyboard does what the controller does: each key means what the button
/// means that it stands in for.
pub proof fn keyboard_stands_in_for_controller(key: Key)
    ensures
        Input::KeyDown(key).meaning() == Input::ButtonDown(button_for(key)).meaning(),
{
}

/// A clamped selection is a row of the list, wherever there is one, and clamping
/// it again changes nothing.
pub proof fn clamping_selects_a_row(selected: int, count: int)
    requires
        0 <= selected,
        0 <= count,
    ensures
        count > 0 ==> 0 <= clamped(selected, count) < count,
        count == 0 ==> clamped(selected, count) == 0,
        clamped(clamped(selected, count), count) == clamped(selected, count),
        selected < count ==> clamped(selected, count) == selected,
{
}

/// As long as the list has a row, an action on a clamped selection always gives
/// the command for that row.
pub proof fn clamped_selection_gives_a_command(
    devices: Seq<DeviceModel>,
    selected: int,
    action: Action,
)
    requires
        0 <= selected,
        devices.len() > 0,
    ensures
        ({
            let row = if selected < devices.len() {
                selected
            } else {
                devices.len() - 1
            };
            &&& clamped(selected, devices.len() as int) == row
            &&& command_at(devices, clamped(selected, devices.len() as int), action) == Some(
                match action {
                    Action::Connect => Command::Connect(devices[row].addr),
                    Action::Disconnect => Command::Disconnect(devices[row].addr),
                    Action::Remove => Command::Remove(devices[row].addr),
                },
            )
        }),
{
}

/// Moving up undoes moving down, and the ends of the list hold the selection.
pub proof fn moving_stays_within_the_list(selected: int, count: int)
    requires
        0 <= selected < count,
    ensures
        Meaning::MoveUp.selection(Meaning::MoveDown.selection(selected)) == selected,
        clamped(Meaning::MoveDown.selection(selected), count) == if selected + 1 < count {
            selected + 1
        } else {
            selected
        },
        clamped(Meaning::MoveUp.selection(selected), count) == if selected > 0 {
            selected - 1
        } else {
            0
        },
{
}

/// Only up and down, on the controller or the keyboard, change the selection: up by
/// one row, stopping at the top, and down by one row. Every other input leaves it.
pub proof fn only_up_and_down_move(selected: int, input: Input)
    requires
        0 <= selected,
    ensures
        ({
            let up = input == Input::ButtonDown(Button::DPadUp) || input == Input::KeyDown(Key::Up);
            let down = input == Input::ButtonDown(Button::DPadDown) || input == Input::KeyDown(
                Key::Down,
            );
            let next = input.meaning().selection(selected);
            &&& up ==> next == if selected > 0 {
                selected - 1
            } else {
                0
            }
            &&& down ==> next == selected + 1
            &&& !up && !down ==> next == selected
            &&& up || down ==> input.meaning().effect() is Nothing
            &&& input.meaning() is MoveDown <==> down
        }),
{
}

/// What each input leads to: A and Enter connect, Y and D disconnect, Back and Delete
/// remove, B, Start, Esc and closing the window exit, a new controller is opened, and
/// nothing else leads to anything.
pub proof fn inputs_and_their_effects(input: Input, which: u32)
    ensures
        input.meaning().effect() == Effect::Send(Action::Connect) <==> input == Input::ButtonDown(
            Button::A,
        ) || input == Input::KeyDown(Key::Return),
        input.meaning().effect() == Effect::Send(Action::Disconnect) <==> input
            == Input::ButtonDown(Button::Y) || input == Input::KeyDown(Key::D),
        input.meaning().effect() == Effect::Send(Action::Remove) <==> input == Input::ButtonDown(
            Button::Back,
        ) || input == Input::KeyDown(Key::Delete),
        input.meaning().effect() is Exit <==> input == Input::ButtonDown(Button::B) || input
            == Input::ButtonDown(Button::Start) || input == Input::KeyDown(Key::Escape) || input
            is Quit,
        input.meaning().effect() == Effect::OpenController(which) <==> input
            == Input::ControllerAdded(which),
{
}

/// Pressing a button or key for an action, with a row selected, gives the command for
/// the device of the row that was selected when it was pressed.
pub proof fn pressing_acts_on_the_selected_row(devices: Seq<DeviceModel>, selected: int, input: Input)
    requires
        0 <= selected < devices.len(),
    ensures
        input.meaning().effect() matches Effect::Send(action) ==> {
            let command = command_at(devices, input.meaning().selection(selected), action);
            &&& input == Input::ButtonDown(Button::A) || input == Input::KeyDown(Key::Return)
                ==> command == Some(Command::Connect(devices[selected].addr))
            &&& input == Input::ButtonDown(Button::Y) || input == Input::KeyDown(Key::D)
                ==> command == Some(Command::Disconnect(devices[selected].addr))
            &&& input == Input::ButtonDown(Button::Back) || input == Input::KeyDown(Key::Delete)
                ==> command == Some(Command::Remove(devices[selected].addr))
        },
{
}

/// Without a row at the selection there is no command.
pub proof fn no_row_no_command(devices: Seq<DeviceModel>, selected: int, action: Action)
    requires
        selected >= devices.len(),
    ensures
        command_at(devices, selected, action) is None,
{
}

} // verus!
