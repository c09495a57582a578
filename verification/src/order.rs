//! The order of the device list: connected first, then paired, then strongest
//! signal, then by name without regard to case.
use vstd::prelude::*;

use crate::model::{DeviceModel, DeviceView};
use crate::text::{
    order_texts, text_order, text_order_chains, text_order_flips, text_order_separates, Order,
};

verus! {

/// The signal strength assumed for a device that reports none.
pub const NO_SIGNAL: i16 = -127;

/// What `str::to_lowercase` returns for a text.
pub uninterp spec fn lowercase(text: Seq<char>) -> Seq<char>;

/// Calls `str::to_lowercase`. The result depends on the text alone and is named
/// [`lowercase`]; which characters it changes is left to the Unicode tables.
#[verifier::external_body]
fn fold_case(text: &str) -> (folded: String)
    ensures
        folded@ == lowercase(text@),
{
    text.to_lowercase()
}

/// What decides where a device stands in the list.
#[derive(Debug)]
pub struct Rank {
    pub connected: bool,
    pub paired: bool,
    pub signal: i16,
    /// The device's name in lower case.
    pub folded: String,
}

/// What a [`Rank`] holds.
#[verifier::ext_equal]
pub struct RankModel {
    pub connected: bool,
    pub paired: bool,
    pub signal: i16,
    pub folded: Seq<char>,
}

impl DeepView for Rank {
    type V = RankModel;

    open spec fn deep_view(&self) -> RankModel {
        RankModel {
            connected: self.connected,
            paired: self.paired,
            signal: self.signal,
            folded: self.folded@,
        }
    }
}

impl DeviceModel {
    /// The rank of the device.
    pub open spec fn rank(self) -> RankModel {
        RankModel {
            connected: self.connected,
            paired: self.paired,
            signal: match self.rssi {
                Some(rssi) => rssi,
                None => NO_SIGNAL,
            },
            folded: lowercase(self.name),
        }
    }
}

/// A set flag comes before a clear one.
pub open spec fn set_first(a: bool, b: bool) -> Order {
    if a == b {
        Order::Same
    } else if a {
        Order::Before
    } else {
        Order::After
    }
}

/// A greater value comes before a smaller one.
pub open spec fn greater_first(a: int, b: int) -> Order {
    if a > b {
        Order::Before
    } else if a == b {
        Order::Same
    } else {
        Order::After
    }
}

/// Connected first, then paired, then strongest signal, then by folded name.
pub open spec fn rank_order(a: RankModel, b: RankModel) -> Order {
    set_first(a.connected, b.connected).or_else(
        set_first(a.paired, b.paired).or_else(
            greater_first(a.signal as int, b.signal as int).or_else(
                text_order(a.folded, b.folded),
            ),
        ),
    )
}

/// Whether the entry at `p` belongs before the entry at `q`: by rank, and where
/// the ranks do not decide, by which came first.
pub open spec fn comes_first(ranks: Seq<RankModel>, p: int, q: int) -> bool {
    match rank_order(ranks[p], ranks[q]) {
        Order::Before => true,
        Order::Same => p < q,
        Order::After => false,
    }
}

/// Whether `order` names each index of `ranks` once, each before all those that
/// belong after it.
pub open spec fn is_arrangement(ranks: Seq<RankModel>, order: Seq<int>) -> bool {
    &&& order.len() == ranks.len()
    &&& forall|i: int| 0 <= i < order.len() ==> 0 <= #[trigger] order[i] < ranks.len()
    &&& forall|i: int, j: int|
        0 <= i < j < order.len() ==> #[trigger] order[i] != #[trigger] order[j] && comes_first(
            ranks,
            order[i],
            order[j],
        )
}

/// The entries of `items` in the order that `order` lists their indices.
pub open spec fn picked<T>(items: Seq<T>, order: Seq<int>) -> Seq<T> {
    Seq::new(order.len(), |i: int| items[order[i]])
}

/// The ranks of a list of devices.
pub open spec fn ranks_of(devices: Seq<DeviceModel>) -> Seq<RankModel> {
    Seq::new(devices.len(), |i: int| devices[i].rank())
}

/// Whether `after` holds the devices of `before` in list order.
pub open spec fn is_sorted_from(before: Seq<DeviceModel>, after: Seq<DeviceModel>) -> bool {
    exists|order: Seq<int>| #[trigger]
        is_arrangement(ranks_of(before), order) && after == picked(before, order)
}

/// The rank of a device.
pub fn rank(device: &DeviceView) -> (rank: Rank)
    ensures
        rank.connected == device.connected,
        rank.paired == device.paired,
        rank.signal == match device.rssi {
            Some(rssi) => rssi,
            None => -127i16,
        },
        rank.folded@ == lowercase(device.name@),
        rank.deep_view() == device.deep_view().rank(),
{
    Rank {
        connected: device.connected,
        paired: device.paired,
        signal: match device.rssi {
            Some(rssi) => rssi,
            None => NO_SIGNAL,
        },
        folded: fold_case(device.name.as_str()),
    }
}

/// Compares two ranks.
pub fn order_ranks(a: &Rank, b: &Rank) -> (order: Order)
    ensures
        order == rank_order(a.deep_view(), b.deep_view()),
{
    if a.connected != b.connected {
        if a.connected {
            Order::Before
        } else {
            Order::After
        }
    } else if a.paired != b.paired {
        if a.paired {
            Order::Before
        } else {
            Order::After
        }
    } else if a.signal > b.signal {
        Order::Before
    } else if a.signal < b.signal {
        Order::After
    } else {
        order_texts(a.folded.as_str(), b.folded.as_str())
    }
}

/// A device together with its rank.
#[derive(Debug)]
pub struct Row {
    pub rank: Rank,
    pub device: DeviceView,
}

/// The ranks that a list of rows carries.
pub open spec fn row_ranks(rows: Seq<Row>) -> Seq<RankModel> {
    Seq::new(rows.len(), |i: int| rows[i].rank.deep_view())
}

/// The index at which `row` goes into `sorted`: after every row that it does not
/// come strictly before.
fn insertion_point(sorted: &Vec<Row>, row: &Row) -> (at: usize)
    ensures
        at <= sorted@.len(),
        forall|k: int|
            at <= k < sorted@.len() ==> rank_order(
                row.rank.deep_view(),
                #[trigger] sorted@[k].rank.deep_view(),
            ) is Before,
        at > 0 ==> !(rank_order(row.rank.deep_view(), sorted@[at - 1].rank.deep_view()) is Before),
{
    let mut at: usize = sorted.len();
    while at > 0
        invariant_except_break
            at <= sorted@.len(),
            forall|k: int|
                at <= k < sorted@.len() ==> rank_order(
                    row.rank.deep_view(),
                    #[trigger] sorted@[k].rank.deep_view(),
                ) is Before,
        ensures
            at <= sorted@.len(),
            forall|k: int|
                at <= k < sorted@.len() ==> rank_order(
                    row.rank.deep_view(),
                    #[trigger] sorted@[k].rank.deep_view(),
                ) is Before,
            at > 0 ==> !(rank_order(
                row.rank.deep_view(),
                sorted@[at - 1].rank.deep_view(),
            ) is Before),
        decreases at,
    {
        let order = order_ranks(&row.rank, &sorted[at - 1].rank);
        if !matches!(order, Order::Before) {
            break;
        }
        at = at - 1;
    }
    at
}

/// Sorts rows by rank. Rows that compare as the same keep their order.
pub fn sort_rows(rows: Vec<Row>) -> (sorted: Vec<Row>)
    ensures
        exists|order: Seq<int>| #[trigger]
            is_arrangement(row_ranks(rows@), order) && sorted@ == picked(rows@, order),
{
    let ghost all = rows@;
    let mut sorted: Vec<Row> = Vec::new();
    let ghost mut order: Seq<int> = Seq::empty();
    for row in it: rows
        invariant
            it.seq() == all,
            is_arrangement(row_ranks(all.take(it.index())), order),
            sorted@ == picked(all, order),
    {
        let ghost n = it.index();
        let at = insertion_point(&sorted, &row);
        proof {
            let ranks = row_ranks(all.take(n + 1));
            assert(ranks.drop_last() =~= row_ranks(all.take(n)));
            assert forall|k: int| at <= k < order.len() implies rank_order(
                ranks.last(),
                ranks[#[trigger] order[k]],
            ) is Before by {
                assert(sorted@[k] == all[order[k]]);
            }
            arrangement_insert(row_ranks(all.take(n + 1)), order, at as int);
        }
        sorted.insert(at, row);
        proof {
            order = order.insert(at as int, n);
            assert(sorted@ =~= picked(all, order));
        }
    }
    assert(all.take(all.len() as int) =~= all);
    sorted
}

/// Putting one more entry into an arrangement of all the earlier ones.
proof fn arrangement_insert(ranks: Seq<RankModel>, order: Seq<int>, at: int)
    requires
        ranks.len() > 0,
        is_arrangement(ranks.drop_last(), order),
        0 <= at <= order.len(),
        forall|k: int|
            at <= k < order.len() ==> rank_order(ranks.last(), ranks[#[trigger] order[k]]) is Before,
        at > 0 ==> !(rank_order(ranks.last(), ranks[order[at - 1]]) is Before),
    ensures
        is_arrangement(ranks, order.insert(at, ranks.len() - 1)),
{
    let n = ranks.len() - 1;
    let grown = order.insert(at, n);
    assert forall|i: int, j: int| 0 <= i < j < grown.len() implies #[trigger] grown[i]
        != #[trigger] grown[j] && comes_first(ranks, grown[i], grown[j]) by {
        if j < at {
            assert(comes_first(ranks.drop_last(), order[i], order[j]));
        } else if j == at {
            rank_order_flips(ranks.last(), ranks[order[at - 1]]);
            if i < at - 1 {
                assert(comes_first(ranks.drop_last(), order[i], order[at - 1]));
                rank_order_chains(ranks[order[i]], ranks[order[at - 1]], ranks.last());
            }
        } else if i == at {
            assert(order[j - 1] == grown[j]);
        } else if i < at {
            assert(comes_first(ranks.drop_last(), order[i], order[j - 1]));
        } else {
            assert(comes_first(ranks.drop_last(), order[i - 1], order[j - 1]));
        }
    }
}

/// Puts devices in list order. Devices that compare as the same keep their order.
pub fn sort_devices(devices: Vec<DeviceView>) -> (sorted: Vec<DeviceView>)
    ensures
        is_sorted_from(devices.deep_view(), sorted.deep_view()),
{
    let ghost all = devices@;
    let mut rows: Vec<Row> = Vec::new();
    for device in it: devices
        invariant
            it.seq() == all,
            rows@.len() == it.index(),
            forall|i: int|
                0 <= i < rows@.len() ==> (#[trigger] rows@[i]).device == all[i]
                    && rows@[i].rank.deep_view() == all[i].deep_view().rank(),
    {
        let rank = rank(&device);
        rows.push(Row { rank, device });
    }
    let ghost listed = rows@;
    let rows = sort_rows(rows);
    let ghost sorted_rows = rows@;
    let mut sorted: Vec<DeviceView> = Vec::new();
    for row in it: rows
        invariant
            it.seq() == sorted_rows,
            sorted@.len() == it.index(),
            forall|i: int| 0 <= i < sorted@.len() ==> #[trigger] sorted@[i] == sorted_rows[i].device,
    {
        sorted.push(row.device);
    }
    proof {
        assert(row_ranks(listed) =~= ranks_of(devices.deep_view()));
        let order = choose|order: Seq<int>| #[trigger]
            is_arrangement(row_ranks(listed), order) && sorted_rows == picked(listed, order);
        assert(sorted.deep_view() =~= picked(devices.deep_view(), order));
    }
    sorted
}

/// Exchanging the two sides of a comparison flips its outcome.
pub proof fn rank_order_flips(a: RankModel, b: RankModel)
    ensures
        rank_order(b, a) == rank_order(a, b).flipped(),
{
    text_order_flips(a.folded, b.folded);
}

/// "Not after" is transitive.
pub proof fn rank_order_chains(a: RankModel, b: RankModel, c: RankModel)
    requires
        !(rank_order(a, b) is After),
        !(rank_order(b, c) is After),
    ensures
        !(rank_order(a, c) is After),
        rank_order(a, b) is Before || rank_order(b, c) is Before ==> rank_order(a, c) is Before,
{
    text_order_separates(a.folded, b.folded);
    text_order_separates(b.folded, c.folded);
    if text_order(a.folded, b.folded) is Before && text_order(b.folded, c.folded) is Before {
        text_order_chains(a.folded, b.folded, c.folded);
    }
}

/// Whether `order` names each index below `n` once.
pub open spec fn is_permutation(order: Seq<int>, n: int) -> bool {
    &&& order.len() == n
    &&& forall|i: int| 0 <= i < n ==> 0 <= #[trigger] order[i] < n
    &&& order.no_duplicates()
}

/// A permutation names every index.
pub proof fn permutation_names_all(order: Seq<int>, n: int, p: int)
    requires
        is_permutation(order, n),
        0 <= p < n,
    ensures
        order.contains(p),
{
    let all = vstd::set_lib::set_int_range(0, n);
    vstd::set_lib::lemma_int_range(0, n);
    order.unique_seq_to_set();
    assert(order.to_set().subset_of(all));
    vstd::set_lib::lemma_len_subset(order.to_set(), all);
    vstd::set_lib::lemma_subset_equality(order.to_set(), all);
    assert(order.to_set().contains(p));
}

/// Picking every entry once keeps each as often as it was.
proof fn picked_keeps_entries<T>(items: Seq<T>, order: Seq<int>)
    requires
        is_permutation(order, items.len() as int),
    ensures
        picked(items, order).to_multiset() == items.to_multiset(),
    decreases items.len(),
{
    broadcast use vstd::seq_lib::group_to_multiset_ensures;

    let n = items.len() as int;
    if n == 0 {
        assert(picked(items, order) =~= items);
    } else {
        permutation_names_all(order, n, n - 1);
        let j = choose|j: int| 0 <= j < order.len() && order[j] == n - 1;
        let rest = order.remove(j);
        assert forall|i: int| 0 <= i < n - 1 implies 0 <= #[trigger] rest[i] < n - 1 by {
            let k = if i < j { i } else { i + 1 };
            assert(rest[i] == order[k]);
            assert(order[k] != order[j]);
        }
        picked_keeps_entries(items.drop_last(), rest);
        assert(picked(items.drop_last(), rest) =~= picked(items, order).remove(j));
        assert(items.drop_last() =~= items.remove(n - 1));
        let whole = picked(items, order).to_multiset();
        assert(picked(items, order)[j] == items[n - 1]);
        assert(whole.remove(items[n - 1]) == items.to_multiset().remove(items[n - 1]));
        assert(whole.contains(items[n - 1])) by {
            assert(picked(items, order).contains(items[n - 1]));
        }
        assert(items.to_multiset().contains(items[n - 1])) by {
            assert(items.contains(items[n - 1]));
        }
        assert(whole.remove(items[n - 1]).insert(items[n - 1]) =~= whole);
        assert(items.to_multiset().remove(items[n - 1]).insert(items[n - 1])
            =~= items.to_multiset());
    }
}

/// There is one arrangement of a list of ranks.
pub proof fn arrangement_is_unique(ranks: Seq<RankModel>, one: Seq<int>, two: Seq<int>)
    requires
        is_arrangement(ranks, one),
        is_arrangement(ranks, two),
    ensures
        one == two,
{
    let n = ranks.len() as int;
    assert(is_permutation(one, n));
    assert(is_permutation(two, n));
    assert forall|k: int| 0 <= k < n implies one[k] == two[k] by {
        arrangements_agree_at(ranks, one, two, k);
    }
    assert(one =~= two);
}

/// Two arrangements agree at each place.
proof fn arrangements_agree_at(ranks: Seq<RankModel>, one: Seq<int>, two: Seq<int>, k: int)
    requires
        is_arrangement(ranks, one),
        is_arrangement(ranks, two),
        is_permutation(one, ranks.len() as int),
        is_permutation(two, ranks.len() as int),
        0 <= k < ranks.len(),
    ensures
        one[k] == two[k],
    decreases k,
{
    let n = ranks.len() as int;
    assert forall|i: int| 0 <= i < k implies #[trigger] one[i] == two[i] by {
        arrangements_agree_at(ranks, one, two, i);
    }
    if one[k] != two[k] {
        permutation_names_all(one, n, two[k]);
        permutation_names_all(two, n, one[k]);
        let i = choose|i: int| 0 <= i < n && one[i] == two[k];
        let j = choose|j: int| 0 <= j < n && two[j] == one[k];
        assert(i > k) by {
            if i < k {
                assert(one[i] == two[i]);
            }
        }
        assert(j > k) by {
            if j < k {
                assert(one[j] == two[j]);
            }
        }
        assert(comes_first(ranks, one[k], one[i]));
        assert(comes_first(ranks, two[k], two[j]));
        rank_order_flips(ranks[one[k]], ranks[two[k]]);
    }
}

/// List order is decided by the devices alone: one list has one sorted form.
pub proof fn sorted_list_is_unique(
    before: Seq<DeviceModel>,
    one: Seq<DeviceModel>,
    two: Seq<DeviceModel>,
)
    requires
        is_sorted_from(before, one),
        is_sorted_from(before, two),
    ensures
        one == two,
{
    let ranks = ranks_of(before);
    let p = choose|order: Seq<int>| #[trigger]
        is_arrangement(ranks, order) && one == picked(before, order);
    let q = choose|order: Seq<int>| #[trigger]
        is_arrangement(ranks, order) && two == picked(before, order);
    arrangement_is_unique(ranks, p, q);
}

/// Sorting neither loses a device nor adds one.
pub proof fn sorting_keeps_devices(before: Seq<DeviceModel>, after: Seq<DeviceModel>)
    requires
        is_sorted_from(before, after),
    ensures
        after.to_multiset() == before.to_multiset(),
        after.len() == before.len(),
{
    let order = choose|order: Seq<int>| #[trigger]
        is_arrangement(ranks_of(before), order) && after == picked(before, order);
    assert(is_permutation(order, before.len() as int));
    picked_keeps_entries(before, order);
}

/// In a sorted list a connected device is never below one that is not; among
/// devices with the same connection state a paired one is never below one that
/// is not; among those with the same pairing state the stronger signal is never
/// below the weaker; and with equal signals the names follow dictionary order.
pub proof fn sorted_list_puts_best_first(
    before: Seq<DeviceModel>,
    after: Seq<DeviceModel>,
    i: int,
    j: int,
)
    requires
        is_sorted_from(before, after),
        0 <= i < j < after.len(),
    ensures
        after[j].connected ==> after[i].connected,
        after[i].connected == after[j].connected && after[j].paired ==> after[i].paired,
        ({
            let upper = match after[i].rssi {
                Some(rssi) => rssi as int,
                None => -127,
            };
            let lower = match after[j].rssi {
                Some(rssi) => rssi as int,
                None => -127,
            };
            after[i].connected == after[j].connected && after[i].paired == after[j].paired ==> {
                &&& upper >= lower
                &&& upper == lower ==> !(text_order(
                    lowercase(after[i].name),
                    lowercase(after[j].name),
                ) is After)
            }
        }),
{
    let order = choose|order: Seq<int>| #[trigger]
        is_arrangement(ranks_of(before), order) && after == picked(before, order);
    assert(comes_first(ranks_of(before), order[i], order[j]));
    assert(after[i] == before[order[i]]);
    assert(after[j] == before[order[j]]);
}

/// Sorting a sorted list changes nothing.
pub proof fn sorting_is_idempotent(
    before: Seq<DeviceModel>,
    once: Seq<DeviceModel>,
    twice: Seq<DeviceModel>,
)
    requires
        is_sorted_from(before, once),
        is_sorted_from(once, twice),
    ensures
        twice == once,
{
    let order = choose|order: Seq<int>| #[trigger]
        is_arrangement(ranks_of(before), order) && once == picked(before, order);
    let same = Seq::new(once.len(), |i: int| i);
    assert forall|i: int, j: int| 0 <= i < j < same.len() implies #[trigger] same[i]
        != #[trigger] same[j] && comes_first(ranks_of(once), same[i], same[j]) by {
        assert(comes_first(ranks_of(before), order[i], order[j]));
    }
    assert(is_arrangement(ranks_of(once), same));
    assert(once =~= picked(once, same));
    sorted_list_is_unique(once, once, twice);
}

/// Lists of the same devices carry the same ranks.
proof fn ranks_follow_devices(one: Seq<DeviceModel>, two: Seq<DeviceModel>)
    requires
        one.to_multiset() == two.to_multiset(),
    ensures
        ranks_of(one).to_multiset() == ranks_of(two).to_multiset(),
    decreases one.len(),
{
    broadcast use vstd::seq_lib::group_to_multiset_ensures;

    assert(one.len() == one.to_multiset().len());
    assert(two.len() == two.to_multiset().len());
    if one.len() == 0 {
        assert(ranks_of(one) =~= ranks_of(two));
    } else {
        let last = one.len() - 1;
        assert(one.contains(one[last]));
        assert(two.to_multiset().count(one[last]) > 0);
        let j = choose|j: int| 0 <= j < two.len() && two[j] == one[last];
        ranks_follow_devices(one.remove(last), two.remove(j));
        assert(ranks_of(one.remove(last)) =~= ranks_of(one).remove(last));
        assert(ranks_of(two.remove(j)) =~= ranks_of(two).remove(j));
        let rank = one[last].rank();
        assert(ranks_of(one)[last] == rank);
        assert(ranks_of(two)[j] == rank);
        assert(ranks_of(one).contains(rank));
        assert(ranks_of(two).contains(rank));
        assert(ranks_of(one).to_multiset().remove(rank).insert(rank)
            =~= ranks_of(one).to_multiset());
        assert(ranks_of(two).to_multiset().remove(rank).insert(rank)
            =~= ranks_of(two).to_multiset());
    }
}

/// In whatever order the same devices came, they are the same once sorted, and each
/// place holds a device of the same rank.
pub proof fn sorting_forgets_the_given_order(
    before_one: Seq<DeviceModel>,
    before_two: Seq<DeviceModel>,
    one: Seq<DeviceModel>,
    two: Seq<DeviceModel>,
)
    requires
        before_one.to_multiset() == before_two.to_multiset(),
        is_sorted_from(before_one, one),
        is_sorted_from(before_two, two),
    ensures
        one.to_multiset() == two.to_multiset(),
        ranks_of(one) == ranks_of(two),
{
    sorting_keeps_devices(before_one, one);
    sorting_keeps_devices(before_two, two);
    ranks_follow_devices(one, two);
    let leq = |a: RankModel, b: RankModel| !(rank_order(a, b) is After);
    assert(vstd::relations::total_ordering(leq)) by {
        assert forall|a: RankModel| #[trigger] leq(a, a) by {
            text_order_separates(a.folded, a.folded);
        }
        assert forall|a: RankModel, b: RankModel| #[trigger] leq(a, b) && #[trigger] leq(
            b,
            a,
        ) implies a == b by {
            rank_order_flips(a, b);
            text_order_separates(a.folded, b.folded);
        }
        assert forall|a: RankModel, b: RankModel, c: RankModel| #[trigger]
            leq(a, b) && #[trigger] leq(b, c) implies leq(a, c) by {
            rank_order_chains(a, b, c);
        }
        assert forall|a: RankModel, b: RankModel| #[trigger] leq(a, b) || #[trigger] leq(b, a) by {
            rank_order_flips(a, b);
        }
    }
    ranks_are_sorted(before_one, one);
    ranks_are_sorted(before_two, two);
    vstd::seq_lib::lemma_sorted_unique(ranks_of(one), ranks_of(two), leq);
}

/// The ranks of a sorted list never go down.
proof fn ranks_are_sorted(before: Seq<DeviceModel>, after: Seq<DeviceModel>)
    requires
        is_sorted_from(before, after),
    ensures
        forall|i: int, j: int|
            0 <= i < j < after.len() ==> !(rank_order(
                #[trigger] ranks_of(after)[i],
                #[trigger] ranks_of(after)[j],
            ) is After),
{
    let order = choose|order: Seq<int>| #[trigger]
        is_arrangement(ranks_of(before), order) && after == picked(before, order);
    assert forall|i: int, j: int| 0 <= i < j < after.len() implies !(rank_order(
        #[trigger] ranks_of(after)[i],
        #[trigger] ranks_of(after)[j],
    ) is After) by {
        assert(comes_first(ranks_of(before), order[i], order[j]));
    }
}

/// One rank comes before another exactly when it is connected and the other is not;
/// or they agree in that and it is paired and the other is not; or they agree in
/// both and its signal is stronger; or they agree in all three and its name comes
/// first. Only equal ranks compare as the same.
pub proof fn rank_order_in_full(a: RankModel, b: RankModel)
    ensures
        rank_order(a, b) is Before <==> {
            ||| a.connected && !b.connected
            ||| a.connected == b.connected && a.paired && !b.paired
            ||| a.connected == b.connected && a.paired == b.paired && a.signal > b.signal
            ||| a.connected == b.connected && a.paired == b.paired && a.signal == b.signal
                && text_order(a.folded, b.folded) is Before
        },
        rank_order(a, b) is After <==> rank_order(b, a) is Before,
        rank_order(a, b) is Same <==> a == b,
{
    rank_order_flips(a, b);
    text_order_separates(a.folded, b.folded);
}

/// The rank of a device says whether it is connected, whether it is paired, its
/// signal (-127 where there is none) and its name in lower case.
pub proof fn rank_in_full(device: DeviceModel)
    ensures
        device.rank().connected == device.connected,
        device.rank().paired == device.paired,
        device.rssi is None ==> device.rank().signal == -127,
        device.rssi matches Some(rssi) ==> device.rank().signal == rssi,
        device.rank().folded == lowercase(device.name),
{
}

/// The model of a rank holds each of its fields.
pub proof fn rank_model_in_full(rank: Rank)
    ensures
        rank.deep_view().connected == rank.connected,
        rank.deep_view().paired == rank.paired,
        rank.deep_view().signal == rank.signal,
        rank.deep_view().folded == rank.folded@,
{
}

/// Sorted rows are the given rows, each taken once, in the order of their ranks;
/// among rows of the same rank the one given first comes first.
pub proof fn sorted_rows_in_full(rows: Seq<Row>, sorted: Seq<Row>, order: Seq<int>)
    requires
        is_arrangement(row_ranks(rows), order),
        sorted == picked(rows, order),
    ensures
        order.len() == rows.len(),
        sorted.len() == rows.len(),
        order.no_duplicates(),
        forall|i: int|
            0 <= i < rows.len() ==> 0 <= #[trigger] order[i] < rows.len() && sorted[i]
                == rows[order[i]],
        forall|i: int, j: int|
            #![trigger sorted[i], sorted[j]]
            0 <= i < j < rows.len() ==> {
                let a = sorted[i].rank;
                let b = sorted[j].rank;
                ||| a.connected && !b.connected
                ||| a.connected == b.connected && a.paired && !b.paired
                ||| a.connected == b.connected && a.paired == b.paired && a.signal > b.signal
                ||| a.connected == b.connected && a.paired == b.paired && a.signal == b.signal
                    && text_order(a.folded@, b.folded@) is Before
                ||| a.connected == b.connected && a.paired == b.paired && a.signal == b.signal
                    && a.folded@ == b.folded@ && order[i] < order[j]
            },
{
    let ranks = row_ranks(rows);
    assert forall|i: int, j: int|
        #![trigger sorted[i], sorted[j]]
        0 <= i < j < rows.len() implies {
        let a = sorted[i].rank;
        let b = sorted[j].rank;
        ||| a.connected && !b.connected
        ||| a.connected == b.connected && a.paired && !b.paired
        ||| a.connected == b.connected && a.paired == b.paired && a.signal > b.signal
        ||| a.connected == b.connected && a.paired == b.paired && a.signal == b.signal
            && text_order(a.folded@, b.folded@) is Before
        ||| a.connected == b.connected && a.paired == b.paired && a.signal == b.signal
            && a.folded@ == b.folded@ && order[i] < order[j]
    } by {
        assert(comes_first(ranks, order[i], order[j]));
        rank_order_in_full(ranks[order[i]], ranks[order[j]]);
    }
}

/// A sorted list holds the given devices, each once. Of two devices in it the upper
/// one is connected and the lower is not; or they agree in that and the upper is
/// paired and the lower is not; or they agree in both and the upper has the stronger
/// signal, none counting as -127; or they agree in all three and the upper name comes
/// first without regard to case; or they agree in everything and the upper was given
/// first.
pub proof fn sorted_list_in_full(before: Seq<DeviceModel>, after: Seq<DeviceModel>)
    requires
        is_sorted_from(before, after),
    ensures
        exists|order: Seq<int>|
            #![trigger order.no_duplicates()]
            {
                &&& order.len() == before.len()
                &&& after.len() == before.len()
                &&& order.no_duplicates()
                &&& forall|i: int|
                    0 <= i < before.len() ==> 0 <= #[trigger] order[i] < before.len() && after[i]
                        == before[order[i]]
                &&& forall|i: int, j: int|
                    #![trigger after[i], after[j]]
                    0 <= i < j < before.len() ==> {
                        let a = after[i];
                        let b = after[j];
                        let upper = match a.rssi {
                            Some(rssi) => rssi as int,
                            None => -127,
                        };
                        let lower = match b.rssi {
                            Some(rssi) => rssi as int,
                            None => -127,
                        };
                        ||| a.connected && !b.connected
                        ||| a.connected == b.connected && a.paired && !b.paired
                        ||| a.connected == b.connected && a.paired == b.paired && upper > lower
                        ||| a.connected == b.connected && a.paired == b.paired && upper == lower
                            && text_order(lowercase(a.name), lowercase(b.name)) is Before
                        ||| a.connected == b.connected && a.paired == b.paired && upper == lower
                            && lowercase(a.name) == lowercase(b.name) && order[i] < order[j]
                    }
            },
{
    let ranks = ranks_of(before);
    let order = choose|order: Seq<int>| #[trigger]
        is_arrangement(ranks, order) && after == picked(before, order);
    assert forall|i: int, j: int|
        #![trigger after[i], after[j]]
        0 <= i < j < before.len() implies {
        let a = after[i];
        let b = after[j];
        let upper = match a.rssi {
            Some(rssi) => rssi as int,
            None => -127,
        };
        let lower = match b.rssi {
            Some(rssi) => rssi as int,
            None => -127,
        };
        ||| a.connected && !b.connected
        ||| a.connected == b.connected && a.paired && !b.paired
        ||| a.connected == b.connected && a.paired == b.paired && upper > lower
        ||| a.connected == b.connected && a.paired == b.paired && upper == lower && text_order(
            lowercase(a.name),
            lowercase(b.name),
        ) is Before
        ||| a.connected == b.connected && a.paired == b.paired && upper == lower && lowercase(
            a.name,
        ) == lowercase(b.name) && order[i] < order[j]
    } by {
        assert(comes_first(ranks, order[i], order[j]));
        rank_order_in_full(ranks[order[i]], ranks[order[j]]);
    }
    assert(order.no_duplicates());
}

} // verus!
