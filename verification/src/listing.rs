//! Turning what the adapter reports into the snapshot that is drawn.
use vstd::prelude::*;

use crate::model::{
    address_text, clone_text, Address, DeviceModel, DeviceView, Snapshot, SnapshotModel,
};
use crate::order::{
    is_sorted_from, lowercase, permutation_names_all, ranks_of, sort_devices, sorted_list_in_full,
    sorted_list_is_unique, sorting_forgets_the_given_order, sorting_keeps_devices,
};
use crate::text::text_order;

verus! {

/// The properties read of one device, each with the error where reading failed.
#[derive(Debug)]
pub struct Readings {
    pub name: Result<Option<String>, String>,
    pub icon: Result<Option<String>, String>,
    pub paired: Result<bool, String>,
    pub connected: Result<bool, String>,
    pub trusted: Result<bool, String>,
    pub rssi: Result<Option<i16>, String>,
}

/// One address that the adapter knows, with the device's properties, or with the
/// error where the device could not be opened.
#[derive(Debug)]
pub struct Listed {
    pub addr: Address,
    pub readings: Result<Readings, String>,
}

/// A text that was read, if it could be read and was there.
pub open spec fn text_read(reading: Result<Option<String>, String>) -> Option<Seq<char>> {
    match reading {
        Ok(text) => text.deep_view(),
        Err(_) => None,
    }
}

/// A flag that was read; one that could not be read counts as clear.
pub open spec fn flag_read(reading: Result<bool, String>) -> bool {
    match reading {
        Ok(flag) => flag,
        Err(_) => false,
    }
}

/// A signal strength that was read, if it could be read and was there.
pub open spec fn signal_read(reading: Result<Option<i16>, String>) -> Option<i16> {
    match reading {
        Ok(signal) => signal,
        Err(_) => None,
    }
}

/// What a device is called: its name, or its address where it has none.
pub open spec fn label_of(name: Option<Seq<char>>, addr: Address) -> Seq<char> {
    match name {
        Some(name) => name,
        None => addr.notation(),
    }
}

/// The row for a listed address; none where the device could not be opened.
pub open spec fn row_of(listed: Listed) -> Option<DeviceModel> {
    match listed.readings {
        Ok(readings) => Some(
            DeviceModel {
                addr: listed.addr,
                name: label_of(text_read(readings.name), listed.addr),
                icon: text_read(readings.icon),
                paired: flag_read(readings.paired),
                connected: flag_read(readings.connected),
                trusted: flag_read(readings.trusted),
                rssi: signal_read(readings.rssi),
            },
        ),
        Err(_) => None,
    }
}

/// The rows for a list of addresses, in the order listed.
pub open spec fn rows_of(listing: Seq<Listed>) -> Seq<DeviceModel>
    decreases listing.len(),
{
    if listing.len() == 0 {
        Seq::empty()
    } else {
        let rows = rows_of(listing.drop_last());
        match row_of(listing.last()) {
            Some(row) => rows.push(row),
            None => rows,
        }
    }
}

/// The rows for a listing; none where the addresses could not be listed.
pub open spec fn rows_listed(listing: Result<Vec<Listed>, String>) -> Seq<DeviceModel> {
    match listing {
        Ok(listing) => rows_of(listing@),
        Err(_) => Seq::empty(),
    }
}

/// The snapshot that shows the given devices: marked as scanning, with the power
/// state read and the status line kept.
pub open spec fn showing(
    before: SnapshotModel,
    devices: Seq<DeviceModel>,
    powered: Result<bool, String>,
) -> SnapshotModel {
    SnapshotModel { devices, scanning: true, powered: flag_read(powered), status: before.status }
}

/// Whether `after` is `before` refreshed: the listed devices, in list order, are
/// shown.
pub open spec fn is_refreshed(
    before: SnapshotModel,
    listing: Result<Vec<Listed>, String>,
    powered: Result<bool, String>,
    after: SnapshotModel,
) -> bool {
    &&& is_sorted_from(rows_listed(listing), after.devices)
    &&& after == showing(before, after.devices, powered)
}

/// What a device is called: its name, or its address where it has none.
pub fn label(name: &Option<String>, addr: Address) -> (text: String)
    ensures
        text@ == match *name {
            Some(name) => name@,
            None => addr.notation(),
        },
        text@ == label_of(name.deep_view(), addr),
{
    match name {
        Some(name) => name.clone(),
        None => address_text(addr),
    }
}

/// A text that was read, if it could be read and was there.
fn read_text(reading: &Result<Option<String>, String>) -> (text: Option<String>)
    ensures
        text.deep_view() == text_read(*reading),
{
    match reading {
        Ok(text) => clone_text(text),
        Err(_) => None,
    }
}

/// A flag that was read; one that could not be read counts as clear.
fn read_flag(reading: &Result<bool, String>) -> (flag: bool)
    ensures
        flag == flag_read(*reading),
{
    match reading {
        Ok(flag) => *flag,
        Err(_) => false,
    }
}

/// The row for a listed address; none where the device could not be opened.
pub fn row(listed: &Listed) -> (row: Option<DeviceView>)
    ensures
        row is Some <==> listed.readings is Ok,
        row matches Some(row) ==> (listed.readings matches Ok(readings) && {
            &&& row.addr == listed.addr
            &&& row.name@ == match readings.name {
                Ok(Some(name)) => name@,
                _ => listed.addr.notation(),
            }
            &&& row.icon.deep_view() == match readings.icon {
                Ok(Some(icon)) => Some(icon@),
                _ => None,
            }
            &&& row.paired == (readings.paired == Ok::<bool, String>(true))
            &&& row.connected == (readings.connected == Ok::<bool, String>(true))
            &&& row.trusted == (readings.trusted == Ok::<bool, String>(true))
            &&& row.rssi == match readings.rssi {
                Ok(rssi) => rssi,
                Err(_) => None,
            }
        }),
        row.deep_view() == row_of(*listed),
{
    match &listed.readings {
        Ok(readings) => Some(
            DeviceView {
                addr: listed.addr,
                name: label(&read_text(&readings.name), listed.addr),
                icon: read_text(&readings.icon),
                paired: read_flag(&readings.paired),
                connected: read_flag(&readings.connected),
                trusted: read_flag(&readings.trusted),
                rssi: match &readings.rssi {
                    Ok(rssi) => *rssi,
                    Err(_) => None,
                },
            },
        ),
        Err(_) => None,
    }
}

/// The rows for a list of addresses, in the order listed.
pub fn rows(listing: &Vec<Listed>) -> (rows: Vec<DeviceView>)
    ensures
        rows.deep_view() == rows_of(listing@),
{
    let mut rows: Vec<DeviceView> = Vec::new();
    let mut i: usize = 0;
    while i < listing.len()
        invariant
            i <= listing@.len(),
            rows.deep_view() == rows_of(listing@.take(i as int)),
        decreases listing@.len() - i,
    {
        assert(listing@.take(i + 1).drop_last() =~= listing@.take(i as int));
        if let Some(row) = row(&listing[i]) {
            rows.push(row);
        }
        i = i + 1;
    }
    assert(listing@.take(listing@.len() as int) =~= listing@);
    rows
}

/// The devices to show for a listing, in list order.
pub fn list_devices(listing: &Result<Vec<Listed>, String>) -> (devices: Vec<DeviceView>)
    ensures
        is_sorted_from(rows_listed(*listing), devices.deep_view()),
{
    let devices = match listing {
        Ok(listing) => rows(listing),
        Err(_) => Vec::new(),
    };
    assert(devices.deep_view() =~= rows_listed(*listing));
    sort_devices(devices)
}

/// Replaces the snapshot by one that shows the given devices. The status line is
/// preserved.
pub fn publish(snapshot: &mut Snapshot, devices: Vec<DeviceView>, powered: Result<bool, String>)
    ensures
        final(snapshot).devices@ == devices@,
        final(snapshot).scanning,
        final(snapshot).powered == (powered == Ok::<bool, String>(true)),
        final(snapshot).status@ == old(snapshot).status@,
        final(snapshot).deep_view() == showing(
            old(snapshot).deep_view(),
            devices.deep_view(),
            powered,
        ),
{
    snapshot.devices = devices;
    snapshot.scanning = true;
    snapshot.powered = read_flag(&powered);
}

/// Sets the status line and leaves the rest of the snapshot as it was.
pub fn set_status(snapshot: &mut Snapshot, msg: String)
    ensures
        final(snapshot).devices@ == old(snapshot).devices@,
        final(snapshot).scanning == old(snapshot).scanning,
        final(snapshot).powered == old(snapshot).powered,
        final(snapshot).status@ == msg@,
        final(snapshot).deep_view() == (SnapshotModel {
            status: msg@,
            ..old(snapshot).deep_view()
        }),
{
    snapshot.status = msg;
}

/// Publishing what was listed refreshes the snapshot.
pub proof fn publishing_a_listing_refreshes(
    before: SnapshotModel,
    listing: Result<Vec<Listed>, String>,
    devices: Seq<DeviceModel>,
    powered: Result<bool, String>,
)
    requires
        is_sorted_from(rows_listed(listing), devices),
    ensures
        is_refreshed(before, listing, powered, showing(before, devices, powered)),
{
}

/// A refresh replaces the snapshot wholesale: what is shown afterwards depends on
/// what could be read from the adapter, and on the earlier snapshot for the status
/// line only. Why something could not be read makes no difference.
pub proof fn refresh_forgets_old_rows(
    before_one: SnapshotModel,
    before_two: SnapshotModel,
    one: Result<Vec<Listed>, String>,
    two: Result<Vec<Listed>, String>,
    powered_one: Result<bool, String>,
    powered_two: Result<bool, String>,
    after_one: SnapshotModel,
    after_two: SnapshotModel,
)
    requires
        rows_listed(one) == rows_listed(two),
        flag_read(powered_one) == flag_read(powered_two),
        is_refreshed(before_one, one, powered_one, after_one),
        is_refreshed(before_two, two, powered_two, after_two),
    ensures
        after_one == (SnapshotModel { status: before_one.status, ..after_two }),
        before_one.status == before_two.status ==> after_one == after_two,
{
    sorted_list_is_unique(rows_listed(one), after_one.devices, after_two.devices);
}

/// Each address whose device could be opened is shown: with that address, under the
/// name read or else the address, with the icon and signal read, and as paired,
/// connected and trusted exactly where that was read.
pub proof fn opened_devices_are_shown(
    before: SnapshotModel,
    listing: Vec<Listed>,
    powered: Result<bool, String>,
    after: SnapshotModel,
    i: int,
)
    requires
        is_refreshed(before, Ok(listing), powered, after),
        0 <= i < listing@.len(),
        listing@[i].readings is Ok,
    ensures
        exists|k: int|
            0 <= k < after.devices.len() && {
                let shown = #[trigger] after.devices[k];
                let read = listing@[i].readings->Ok_0;
                &&& shown.addr == listing@[i].addr
                &&& shown.name == match read.name {
                    Ok(Some(name)) => name@,
                    _ => listing@[i].addr.notation(),
                }
                &&& shown.icon == match read.icon {
                    Ok(Some(icon)) => Some(icon@),
                    _ => None,
                }
                &&& shown.paired == (read.paired == Ok::<bool, String>(true))
                &&& shown.connected == (read.connected == Ok::<bool, String>(true))
                &&& shown.trusted == (read.trusted == Ok::<bool, String>(true))
                &&& shown.rssi == match read.rssi {
                    Ok(rssi) => rssi,
                    Err(_) => None,
                }
            },
{
    broadcast use vstd::seq_lib::group_to_multiset_ensures;

    let rows = rows_of(listing@);
    sorting_keeps_devices(rows, after.devices);
    row_is_among(listing@, i);
    let row = row_of(listing@[i])->0;
    assert(after.devices.to_multiset().count(row) > 0);
    let k = choose|k: int| 0 <= k < after.devices.len() && after.devices[k] == row;
    assert(after.devices[k] == row);
}

/// The row of an opened device is among the rows.
proof fn row_is_among(listing: Seq<Listed>, i: int)
    requires
        0 <= i < listing.len(),
        row_of(listing[i]) is Some,
    ensures
        rows_of(listing).contains(row_of(listing[i])->0),
    decreases listing.len(),
{
    let earlier = rows_of(listing.drop_last());
    if i == listing.len() - 1 {
        assert(rows_of(listing).last() == row_of(listing[i])->0);
    } else {
        row_is_among(listing.drop_last(), i);
        let k = choose|k: int| 0 <= k < earlier.len() && earlier[k] == row_of(listing[i])->0;
        assert(rows_of(listing)[k] == earlier[k]);
    }
}

/// Each device that is shown was listed, could be opened, and is shown as it was
/// read.
pub proof fn shown_devices_were_listed(
    before: SnapshotModel,
    listing: Vec<Listed>,
    powered: Result<bool, String>,
    after: SnapshotModel,
    k: int,
)
    requires
        is_refreshed(before, Ok(listing), powered, after),
        0 <= k < after.devices.len(),
    ensures
        exists|i: int|
            0 <= i < listing@.len() && {
                let shown = after.devices[k];
                let listed = #[trigger] listing@[i];
                let read = listed.readings->Ok_0;
                &&& listed.readings is Ok
                &&& shown.addr == listed.addr
                &&& shown.name == match read.name {
                    Ok(Some(name)) => name@,
                    _ => listed.addr.notation(),
                }
                &&& shown.icon == match read.icon {
                    Ok(Some(icon)) => Some(icon@),
                    _ => None,
                }
                &&& shown.paired == (read.paired == Ok::<bool, String>(true))
                &&& shown.connected == (read.connected == Ok::<bool, String>(true))
                &&& shown.trusted == (read.trusted == Ok::<bool, String>(true))
                &&& shown.rssi == match read.rssi {
                    Ok(rssi) => rssi,
                    Err(_) => None,
                }
            },
{
    broadcast use vstd::seq_lib::group_to_multiset_ensures;

    let rows = rows_of(listing@);
    sorting_keeps_devices(rows, after.devices);
    assert(after.devices.contains(after.devices[k]));
    assert(rows.to_multiset().count(after.devices[k]) > 0);
    let j = choose|j: int| 0 <= j < rows.len() && rows[j] == after.devices[k];
    row_has_source(listing@, j);
}

/// Each row comes from a listed address.
proof fn row_has_source(listing: Seq<Listed>, j: int)
    requires
        0 <= j < rows_of(listing).len(),
    ensures
        exists|i: int|
            0 <= i < listing.len() && row_of(#[trigger] listing[i]) == Some(rows_of(listing)[j]),
    decreases listing.len(),
{
    let earlier = rows_of(listing.drop_last());
    if j < earlier.len() {
        row_has_source(listing.drop_last(), j);
        let i = choose|i: int|
            0 <= i < listing.drop_last().len() && row_of(#[trigger] listing.drop_last()[i]) == Some(
                earlier[j],
            );
        assert(listing[i] == listing.drop_last()[i]);
    } else {
        assert(row_of(listing[listing.len() - 1]) == Some(rows_of(listing)[j]));
    }
}

/// The rows of a list are those of the list without one of its addresses, and the
/// row of that address.
proof fn rows_without_one(listing: Seq<Listed>, j: int)
    requires
        0 <= j < listing.len(),
    ensures
        rows_of(listing).to_multiset() == match row_of(listing[j]) {
            Some(row) => rows_of(listing.remove(j)).to_multiset().insert(row),
            None => rows_of(listing.remove(j)).to_multiset(),
        },
    decreases listing.len(),
{
    broadcast use vstd::seq_lib::group_to_multiset_ensures;

    let earlier = listing.drop_last();
    if j == listing.len() - 1 {
        assert(listing.remove(j) =~= earlier);
    } else {
        let rest = listing.remove(j);
        assert(rest.drop_last() =~= earlier.remove(j));
        assert(rest.last() == listing.last());
        rows_without_one(earlier, j);
        assert(earlier[j] == listing[j]);
        if let (Some(row), Some(last)) = (row_of(listing[j]), row_of(listing.last())) {
            let base = rows_of(earlier.remove(j)).to_multiset();
            assert(base.insert(row).insert(last) =~= base.insert(last).insert(row));
        }
    }
}

/// What each listed address has to show, in the order listed.
pub open spec fn rows_by_address(listing: Seq<Listed>) -> Seq<Option<DeviceModel>> {
    Seq::new(listing.len(), |i: int| row_of(listing[i]))
}

/// Addresses that have the same to show, listed in another order, give the same
/// rows in another order.
pub proof fn rows_follow_addresses(one: Seq<Listed>, two: Seq<Listed>)
    requires
        rows_by_address(one).to_multiset() == rows_by_address(two).to_multiset(),
    ensures
        rows_of(one).to_multiset() == rows_of(two).to_multiset(),
    decreases one.len(),
{
    broadcast use vstd::seq_lib::group_to_multiset_ensures;

    let left = rows_by_address(one);
    let right = rows_by_address(two);
    assert(left.len() == left.to_multiset().len());
    assert(right.len() == right.to_multiset().len());
    if one.len() > 0 {
        let last = one.len() - 1;
        assert(left.contains(left[last]));
        assert(right.to_multiset().count(left[last]) > 0);
        let j = choose|j: int| 0 <= j < right.len() && right[j] == left[last];
        assert(rows_by_address(one.remove(last)) =~= left.remove(last));
        assert(rows_by_address(two.remove(j)) =~= right.remove(j));
        rows_follow_addresses(one.remove(last), two.remove(j));
        rows_without_one(one, last);
        rows_without_one(two, j);
    }
}

/// The order in which the adapter lists its addresses does not matter: the same
/// rows listed in another order are the same rows shown, and each place holds a row
/// of the same rank.
pub proof fn refresh_ignores_address_order(
    before_one: SnapshotModel,
    before_two: SnapshotModel,
    one: Result<Vec<Listed>, String>,
    two: Result<Vec<Listed>, String>,
    powered_one: Result<bool, String>,
    powered_two: Result<bool, String>,
    after_one: SnapshotModel,
    after_two: SnapshotModel,
)
    requires
        rows_listed(one).to_multiset() == rows_listed(two).to_multiset(),
        flag_read(powered_one) == flag_read(powered_two),
        is_refreshed(before_one, one, powered_one, after_one),
        is_refreshed(before_two, two, powered_two, after_two),
    ensures
        after_one.devices.to_multiset() == after_two.devices.to_multiset(),
        ranks_of(after_one.devices) == ranks_of(after_two.devices),
        after_one == (SnapshotModel {
            devices: after_one.devices,
            status: before_one.status,
            ..after_two
        }),
{
    sorting_forgets_the_given_order(
        rows_listed(one),
        rows_listed(two),
        after_one.devices,
        after_two.devices,
    );
}

/// Which listed address each row comes from.
proof fn row_sources(listing: Seq<Listed>) -> (sources: Seq<int>)
    ensures
        sources.len() == rows_of(listing).len(),
        forall|k: int|
            0 <= k < sources.len() ==> 0 <= #[trigger] sources[k] < listing.len() && row_of(
                listing[sources[k]],
            ) == Some(rows_of(listing)[k]),
        forall|k: int, l: int| 0 <= k < l < sources.len() ==> sources[k] < sources[l],
        forall|i: int|
            0 <= i < listing.len() && row_of(#[trigger] listing[i]) is Some ==> sources.contains(i),
    decreases listing.len(),
{
    if listing.len() == 0 {
        Seq::empty()
    } else {
        let last = listing.len() - 1;
        let earlier = row_sources(listing.drop_last());
        let sources = if row_of(listing.last()) is Some {
            earlier.push(last)
        } else {
            earlier
        };
        assert forall|i: int|
            0 <= i < listing.len() && row_of(#[trigger] listing[i]) is Some implies sources.contains(
            i,
        ) by {
            if i < last {
                assert(listing.drop_last()[i] == listing[i]);
                assert(earlier.contains(i));
                let k = choose|k: int| 0 <= k < earlier.len() && earlier[k] == i;
                assert(sources[k] == i);
            } else {
                assert(sources[sources.len() - 1] == i);
            }
        }
        sources
    }
}

/// The list after a refresh, in full. Each place shows one listed address whose
/// device could be opened, and each such address has one place. Every property is
/// shown as it was read; a name that is missing or could not be read is replaced by
/// the address, and any other property that could not be read counts as missing or
/// false. Of two places the upper one is connected and the lower is not; or they
/// agree in that and the upper is paired and the lower is not; or they agree in both
/// and the upper has the stronger signal, none counting as -127; or they agree in all
/// three and the upper name comes first without regard to case; or they agree in
/// everything and the upper address was listed first.
pub proof fn refreshed_list_in_full(
    before: SnapshotModel,
    listing: Vec<Listed>,
    powered: Result<bool, String>,
    after: SnapshotModel,
)
    requires
        is_refreshed(before, Ok(listing), powered, after),
    ensures
        exists|source: Seq<int>|
            #![trigger source.no_duplicates()]
            {
                &&& source.len() == after.devices.len()
                &&& source.no_duplicates()
                &&& forall|i: int|
                    0 <= i < listing@.len() && #[trigger] listing@[i].readings is Ok
                        ==> source.contains(i)
                &&& forall|k: int|
                    0 <= k < source.len() ==> 0 <= #[trigger] source[k] < listing@.len() && {
                        let shown = after.devices[k];
                        let listed = listing@[source[k]];
                        let read = listed.readings->Ok_0;
                        &&& listed.readings is Ok
                        &&& shown.addr == listed.addr
                        &&& shown.name == match read.name {
                            Ok(Some(name)) => name@,
                            _ => listed.addr.notation(),
                        }
                        &&& shown.icon == match read.icon {
                            Ok(Some(icon)) => Some(icon@),
                            _ => None,
                        }
                        &&& shown.paired == (read.paired == Ok::<bool, String>(true))
                        &&& shown.connected == (read.connected == Ok::<bool, String>(true))
                        &&& shown.trusted == (read.trusted == Ok::<bool, String>(true))
                        &&& shown.rssi == match read.rssi {
                            Ok(rssi) => rssi,
                            Err(_) => None,
                        }
                    }
                &&& forall|i: int, j: int|
                    #![trigger after.devices[i], after.devices[j]]
                    0 <= i < j < after.devices.len() ==> {
                        let a = after.devices[i];
                        let b = after.devices[j];
                        let upper = match a.rssi {
                            Some(rssi) => rssi as int,
                            None => -127,
                        };
                        let lower = match b.rssi {
                            Some(rssi) => rssi as int,
                            None => -127,
                        };
                        ||| a.connected && !b.connected
                        ||| a.connected == b.connected && a.paired && !b.paired
                        ||| a.connected == b.connected && a.paired == b.paired && upper > lower
                        ||| a.connected == b.connected && a.paired == b.paired && upper == lower
                            && text_order(lowercase(a.name), lowercase(b.name)) is Before
                        ||| a.connected == b.connected && a.paired == b.paired && upper == lower
                            && lowercase(a.name) == lowercase(b.name) && source[i] < source[j]
                    }
            },
{
    let rows = rows_of(listing@);
    sorted_list_in_full(rows, after.devices);
    let order = choose|order: Seq<int>|
        #![trigger order.no_duplicates()]
        {
            &&& order.len() == rows.len()
            &&& after.devices.len() == rows.len()
            &&& order.no_duplicates()
            &&& forall|i: int|
                0 <= i < rows.len() ==> 0 <= #[trigger] order[i] < rows.len() && after.devices[i]
                    == rows[order[i]]
            &&& forall|i: int, j: int|
                #![trigger after.devices[i], after.devices[j]]
                0 <= i < j < rows.len() ==> {
                    let a = after.devices[i];
                    let b = after.devices[j];
                    let upper = match a.rssi {
                        Some(rssi) => rssi as int,
                        None => -127,
                    };
                    let lower = match b.rssi {
                        Some(rssi) => rssi as int,
                        None => -127,
                    };
                    ||| a.connected && !b.connected
                    ||| a.connected == b.connected && a.paired && !b.paired
                    ||| a.connected == b.connected && a.paired == b.paired && upper > lower
                    ||| a.connected == b.connected && a.paired == b.paired && upper == lower
                        && text_order(lowercase(a.name), lowercase(b.name)) is Before
                    ||| a.connected == b.connected && a.paired == b.paired && upper == lower
                        && lowercase(a.name) == lowercase(b.name) && order[i] < order[j]
                }
        };
    let sources = row_sources(listing@);
    let source = Seq::new(order.len(), |k: int| sources[order[k]]);
    assert forall|i: int, j: int| 0 <= i < source.len() && 0 <= j < source.len() && i != j implies
        source[i] != source[j] by {
        assert(order[i] != order[j]);
        if order[i] < order[j] {
            assert(sources[order[i]] < sources[order[j]]);
        } else {
            assert(sources[order[j]] < sources[order[i]]);
        }
    }
    assert forall|i: int| 0 <= i < listing@.len() && #[trigger] listing@[i].readings is Ok implies
        source.contains(i) by {
        assert(row_of(listing@[i]) is Some);
        let k = choose|k: int| 0 <= k < sources.len() && sources[k] == i;
        permutation_names_all(order, rows.len() as int, k);
        let l = choose|l: int| 0 <= l < order.len() && order[l] == k;
        assert(source[l] == i);
    }
    assert(source.no_duplicates());
}

/// Where the addresses could not be listed, no device is shown.
pub proof fn failed_listing_shows_nothing(
    before: SnapshotModel,
    why: String,
    powered: Result<bool, String>,
    after: SnapshotModel,
)
    requires
        is_refreshed(before, Err(why), powered, after),
    ensures
        after.devices.len() == 0,
{
    sorting_keeps_devices(rows_listed(Err(why)), after.devices);
}

/// After a refresh the snapshot is marked as scanning; it is powered exactly where
/// that was read; and the status line is the one that was there before.
pub proof fn refresh_keeps_the_status(
    before: SnapshotModel,
    listing: Result<Vec<Listed>, String>,
    powered: Result<bool, String>,
    after: SnapshotModel,
)
    requires
        is_refreshed(before, listing, powered, after),
    ensures
        after.scanning,
        after.powered <==> powered == Ok::<bool, String>(true),
        after.status == before.status,
{
}

/// A device is called by its name where it has one, and by its address where not.
pub proof fn labels_fall_back_to_the_address(name: Seq<char>, addr: Address)
    ensures
        label_of(Some(name), addr) == name,
        label_of(None, addr) == addr.notation(),
{
}

} // verus!
