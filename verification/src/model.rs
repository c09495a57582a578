//! Data shared between the user interface and the Bluetooth worker.
//!
//! The worker owns the truth and publishes a [`Snapshot`]; the user interface
//! draws that snapshot and sends [`Command`]s back.
use vstd::prelude::*;
use vstd::string::*;

use crate::text::{concat_texts, contains, occurring_is_being_a_middle_part, occurs_in};

verus! {

/// A Bluetooth device address, most significant octet first.
#[derive(Clone, Copy, PartialEq, Eq)]
pub struct Address(pub [u8; 6]);

/// The upper-case hexadecimal digit for a value below sixteen.
pub open spec fn hex_digit(n: int) -> char {
    if n < 10 {
        (('0' as int) + n) as char
    } else {
        (('A' as int) + n - 10) as char
    }
}

/// Two upper-case hexadecimal digits for one octet.
pub open spec fn hex_octet(octet: u8) -> Seq<char> {
    seq![hex_digit(octet as int / 16), hex_digit(octet as int % 16)]
}

/// The first `n` octets in hexadecimal, with colons between them.
pub open spec fn colon_hex(octets: Seq<u8>, n: int) -> Seq<char>
    decreases n,
{
    if n <= 0 {
        Seq::empty()
    } else if n == 1 {
        hex_octet(octets[0])
    } else {
        colon_hex(octets, n - 1) + seq![':'] + hex_octet(octets[n - 1])
    }
}

impl Address {
    /// Colon-hexadecimal notation, such as `AA:BB:CC:00:11:22`.
    pub open spec fn notation(self) -> Seq<char> {
        colon_hex(self.0@, 6)
    }
}

/// `core::fmt::Formatter`, carried through to `bluer`.
#[verifier::external_type_specification]
#[verifier::external_body]
pub struct ExFormatter<'a>(core::fmt::Formatter<'a>);

/// `core::fmt::Error`, carried back from `bluer`.
#[verifier::external_type_specification]
#[verifier::external_body]
pub struct ExFormatError(core::fmt::Error);

impl core::fmt::Debug for Address {
    /// Calls `bluer::Address`'s `Debug`, which writes the colon-hexadecimal notation.
    /// What ends up in the formatter is left unsaid: a formatter shows nothing of
    /// what was written to it.
    #[verifier::external_body]
    fn fmt(&self, f: &mut core::fmt::Formatter<'_>) -> Result<(), core::fmt::Error> {
        core::fmt::Debug::fmt(&bluer::Address(self.0), f)
    }
}

/// Calls `bluer::Address`'s `Display` through `to_string`: six octets, each as
/// two upper-case hexadecimal digits, in order, with colons between them.
#[verifier::external_body]
pub(crate) fn address_text(addr: Address) -> (text: String)
    ensures
        text@ == addr.notation(),
{
    bluer::Address(addr.0).to_string()
}

/// One row in the device list.
#[derive(Debug)]
pub struct DeviceView {
    pub addr: Address,
    pub name: String,
    /// BlueZ icon hint, such as "audio-headset" or "input-mouse".
    pub icon: Option<String>,
    pub paired: bool,
    pub connected: bool,
    pub trusted: bool,
    pub rssi: Option<i16>,
}

/// What a [`DeviceView`] holds, with its texts as character sequences.
#[verifier::ext_equal]
pub struct DeviceModel {
    pub addr: Address,
    pub name: Seq<char>,
    pub icon: Option<Seq<char>>,
    pub paired: bool,
    pub connected: bool,
    pub trusted: bool,
    pub rssi: Option<i16>,
}

impl DeepView for DeviceView {
    type V = DeviceModel;

    open spec fn deep_view(&self) -> DeviceModel {
        DeviceModel {
            addr: self.addr,
            name: self.name@,
            icon: self.icon.deep_view(),
            paired: self.paired,
            connected: self.connected,
            trusted: self.trusted,
            rssi: self.rssi,
        }
    }
}

/// A copy of an optional text.
pub(crate) fn clone_text(text: &Option<String>) -> (copy: Option<String>)
    ensures
        copy.deep_view() == text.deep_view(),
{
    match text {
        Some(text) => Some(text.clone()),
        None => None,
    }
}

impl Clone for DeviceView {
    fn clone(&self) -> (copy: DeviceView)
        ensures
            copy.deep_view() == self.deep_view(),
    {
        DeviceView {
            addr: self.addr,
            name: self.name.clone(),
            icon: clone_text(&self.icon),
            paired: self.paired,
            connected: self.connected,
            trusted: self.trusted,
            rssi: self.rssi,
        }
    }
}

/// The device category that a BlueZ icon hint stands for.
pub open spec fn kind_of_icon(icon: Seq<char>) -> Seq<char> {
    if occurs_in("headset"@, icon) || occurs_in("audio"@, icon) {
        "audio"@
    } else if occurs_in("mouse"@, icon) {
        "mouse"@
    } else if occurs_in("keyboard"@, icon) {
        "keyboard"@
    } else if occurs_in("gaming"@, icon) || occurs_in("joystick"@, icon) {
        "controller"@
    } else if occurs_in("phone"@, icon) {
        "phone"@
    } else {
        "device"@
    }
}

impl DeviceModel {
    /// The category shown for the device; "device" where there is no icon hint.
    pub open spec fn kind(self) -> Seq<char> {
        match self.icon {
            Some(icon) => kind_of_icon(icon),
            None => "device"@,
        }
    }
}

impl DeviceView {
    /// Short human label for the device category, derived from the BlueZ icon.
    pub fn kind(&self) -> (label: &'static str)
        ensures
            label@ == self.deep_view().kind(),
    {
        match &self.icon {
            None => "device",
            Some(icon) => {
                let icon: &str = icon.as_str();
                if contains(icon, "headset") || contains(icon, "audio") {
                    "audio"
                } else if contains(icon, "mouse") {
                    "mouse"
                } else if contains(icon, "keyboard") {
                    "keyboard"
                } else if contains(icon, "gaming") || contains(icon, "joystick") {
                    "controller"
                } else if contains(icon, "phone") {
                    "phone"
                } else {
                    "device"
                }
            },
        }
    }
}

/// Everything needed to draw one frame.
#[derive(Debug)]
pub struct Snapshot {
    pub devices: Vec<DeviceView>,
    pub scanning: bool,
    pub powered: bool,
    /// Last action result or error, shown at the bottom of the screen.
    pub status: String,
}

/// What a [`Snapshot`] holds.
#[verifier::ext_equal]
pub struct SnapshotModel {
    pub devices: Seq<DeviceModel>,
    pub scanning: bool,
    pub powered: bool,
    pub status: Seq<char>,
}

impl DeepView for Snapshot {
    type V = SnapshotModel;

    open spec fn deep_view(&self) -> SnapshotModel {
        SnapshotModel {
            devices: self.devices.deep_view(),
            scanning: self.scanning,
            powered: self.powered,
            status: self.status@,
        }
    }
}

impl Clone for Snapshot {
    fn clone(&self) -> (copy: Snapshot)
        ensures
            copy.deep_view() == self.deep_view(),
    {
        let mut devices: Vec<DeviceView> = Vec::new();
        let mut i: usize = 0;
        while i < self.devices.len()
            invariant
                i <= self.devices@.len(),
                devices@.len() == i,
                forall|k: int|
                    0 <= k < i ==> (#[trigger] devices@[k]).deep_view()
                        == self.devices@[k].deep_view(),
            decreases self.devices@.len() - i,
        {
            devices.push(self.devices[i].clone());
            i = i + 1;
        }
        Snapshot {
            devices,
            scanning: self.scanning,
            powered: self.powered,
            status: self.status.clone(),
        }
    }
}

impl Default for Snapshot {
    /// Nothing known yet: no devices, not scanning, not powered, no status.
    fn default() -> (snapshot: Snapshot)
        ensures
            snapshot.deep_view() == (SnapshotModel {
                devices: Seq::empty(),
                scanning: false,
                powered: false,
                status: Seq::empty(),
            }),
    {
        Snapshot {
            devices: Vec::new(),
            scanning: false,
            powered: false,
            status: String::new(),
        }
    }
}

/// Actions the user interface asks the worker to perform.
#[derive(Clone, Copy, Debug, PartialEq, Eq)]
pub enum Command {
    /// Pair (if needed), trust, then connect the given device.
    Connect(Address),
    /// Disconnect the given device (stays paired).
    Disconnect(Address),
    /// Remove/unpair the device entirely.
    Remove(Address),
}

impl Command {
    /// The address that the command is about.
    pub open spec fn addr(self) -> Address {
        match self {
            Command::Connect(addr) => addr,
            Command::Disconnect(addr) => addr,
            Command::Remove(addr) => addr,
        }
    }

    /// The name of the command.
    pub open spec fn verb(self) -> Seq<char> {
        match self {
            Command::Connect(_) => "Connect"@,
            Command::Disconnect(_) => "Disconnect"@,
            Command::Remove(_) => "Remove"@,
        }
    }

    /// The command as status lines show it, such as `Remove(AA:BB:CC:00:11:22)`.
    pub open spec fn notation(self) -> Seq<char> {
        self.verb() + "("@ + self.addr().notation() + ")"@
    }

    /// The command as status lines show it, such as `Remove(AA:BB:CC:00:11:22)`.
    pub fn describe(&self) -> (text: String)
        ensures
            text@ == self.notation(),
    {
        let (verb, addr): (&str, Address) = match *self {
            Command::Connect(addr) => ("Connect", addr),
            Command::Disconnect(addr) => ("Disconnect", addr),
            Command::Remove(addr) => ("Remove", addr),
        };
        let mut out = concat_texts(verb, "(");
        out.append(address_text(addr).as_str());
        out.append(")");
        out
    }
}

/// An address is written as seventeen characters: each octet as two hexadecimal
/// digits with capital letters, the higher four bits first, in order, and a colon
/// between two octets.
pub proof fn address_notation_in_full(addr: Address, i: int)
    requires
        0 <= i < 6,
    ensures
        addr.notation().len() == 17,
        i < 5 ==> addr.notation()[3 * i + 2] == ':',
        ({
            let octet = addr.0@[i] as int;
            let high = addr.notation()[3 * i] as int;
            let low = addr.notation()[3 * i + 1] as int;
            &&& high == if octet / 16 < 10 {
                48 + octet / 16
            } else {
                55 + octet / 16
            }
            &&& low == if octet % 16 < 10 {
                48 + octet % 16
            } else {
                55 + octet % 16
            }
        }),
{
    reveal_with_fuel(colon_hex, 7);
}

/// A device without an icon hint is a "device". One with a hint is what the first of
/// these finds in it: a headset or audio, a mouse, a keyboard, gaming or a joystick,
/// a phone; otherwise it is a "device" too.
pub proof fn kind_is_the_first_category_found(device: DeviceModel)
    ensures
        device.icon is None ==> device.kind() == "device"@,
        device.icon matches Some(icon) ==> {
            let audio = occurs_in("headset"@, icon) || occurs_in("audio"@, icon);
            let mouse = occurs_in("mouse"@, icon);
            let keyboard = occurs_in("keyboard"@, icon);
            let controller = occurs_in("gaming"@, icon) || occurs_in("joystick"@, icon);
            let phone = occurs_in("phone"@, icon);
            &&& audio ==> device.kind() == "audio"@
            &&& !audio && mouse ==> device.kind() == "mouse"@
            &&& !audio && !mouse && keyboard ==> device.kind() == "keyboard"@
            &&& !audio && !mouse && !keyboard && controller ==> device.kind() == "controller"@
            &&& !audio && !mouse && !keyboard && !controller && phone ==> device.kind() == "phone"@
            &&& !audio && !mouse && !keyboard && !controller && !phone ==> device.kind()
                == "device"@
        },
{
}

/// A device whose icon hint mentions a headset or audio anywhere is an audio device,
/// whatever else the hint says.
pub proof fn audio_wins_wherever_it_stands(
    device: DeviceModel,
    before: Seq<char>,
    after: Seq<char>,
)
    ensures
        device.icon == Some(before + "headset"@ + after) ==> device.kind() == "audio"@,
        device.icon == Some(before + "audio"@ + after) ==> device.kind() == "audio"@,
{
    occurring_is_being_a_middle_part("headset"@, before + "headset"@ + after);
    occurring_is_being_a_middle_part("audio"@, before + "audio"@ + after);
}

/// A command is written as its name and, in brackets, its address.
pub proof fn command_notation_in_full(addr: Address)
    ensures
        Command::Connect(addr).notation() == "Connect("@ + addr.notation() + ")"@,
        Command::Disconnect(addr).notation() == "Disconnect("@ + addr.notation() + ")"@,
        Command::Remove(addr).notation() == "Remove("@ + addr.notation() + ")"@,
{
    reveal_strlit("(");
    reveal_strlit("Connect");
    reveal_strlit("Connect(");
    reveal_strlit("Disconnect");
    reveal_strlit("Disconnect(");
    reveal_strlit("Remove");
    reveal_strlit("Remove(");
    assert("Connect("@ =~= "Connect"@ + "("@);
    assert("Disconnect("@ =~= "Disconnect"@ + "("@);
    assert("Remove("@ =~= "Remove"@ + "("@);
}

/// The model of a device holds each of its fields.
pub proof fn device_model_in_full(device: DeviceView)
    ensures
        device.deep_view().addr == device.addr,
        device.deep_view().name == device.name@,
        device.icon is None ==> device.deep_view().icon is None,
        device.icon matches Some(icon) ==> device.deep_view().icon == Some(icon@),
        device.deep_view().paired == device.paired,
        device.deep_view().connected == device.connected,
        device.deep_view().trusted == device.trusted,
        device.deep_view().rssi == device.rssi,
{
}

/// The model of a snapshot holds each of its fields.
pub proof fn snapshot_model_in_full(snapshot: Snapshot)
    ensures
        snapshot.deep_view().devices.len() == snapshot.devices@.len(),
        forall|i: int|
            0 <= i < snapshot.devices@.len() ==> #[trigger] snapshot.deep_view().devices[i]
                == snapshot.devices@[i].deep_view(),
        snapshot.deep_view().scanning == snapshot.scanning,
        snapshot.deep_view().powered == snapshot.powered,
        snapshot.deep_view().status == snapshot.status@,
{
}

} // verus!
