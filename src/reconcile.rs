//! Reconciliation: from the local inventory, the subscription ledger and the
//! remote subscription list, the items to subscribe, to install and to update.

use vstd::prelude::*;
use crate::catalog::{RemoteEntry, RemoteEntryView, entries_view, normalized_ms, remote_ms};
use crate::inventory::{InstalledItem, InstalledItemView, items_view};
use crate::ledger::SubscriptionLedger;

verus! {

broadcast use vstd::std_specs::vec::group_vec_axioms;

/// Some item among the first `n` came from the catalog item `id`.
pub open spec fn installed_upto(items: Seq<InstalledItemView>, id: u64, n: int) -> bool
    decreases n,
{
    if n <= 0 {
        false
    } else {
        installed_upto(items, id, n - 1) || items[n - 1].remote_mod_id == Some(id)
    }
}

/// Some installed item came from the catalog item `id`.
pub open spec fn is_installed(items: Seq<InstalledItemView>, id: u64) -> bool {
    installed_upto(items, id, items.len() as int)
}

/// The first position among the first `n` entries of the catalog item `id`.
pub open spec fn first_entry(remote: Seq<RemoteEntryView>, id: u64, n: int) -> Option<int>
    decreases n,
{
    if n <= 0 {
        None
    } else {
        match first_entry(remote, id, n - 1) {
            Some(j) => Some(j),
            None => if remote[n - 1].mod_id == id {
                Some(n - 1)
            } else {
                None
            },
        }
    }
}

/// The first entry of an identifier has that identifier, and none before it does.
pub proof fn lemma_first_entry(remote: Seq<RemoteEntryView>, id: u64, n: int)
    ensures
        match first_entry(remote, id, n) {
            Some(j) => 0 <= j < n && remote[j].mod_id == id,
            None => forall|k: int| 0 <= k < n ==> #[trigger] remote[k].mod_id != id,
        },
    decreases n,
{
    if n > 0 {
        lemma_first_entry(remote, id, n - 1);
    }
}

/// The item is from the catalog and not yet confirmed subscribed.
pub open spec fn wants_subscribe(item: InstalledItemView, ledger: Seq<Seq<char>>) -> bool {
    item.remote_mod_id is Some && !ledger.contains(item.local_path)
}

/// The entry has a file to download and no installed item came from it.
pub open spec fn wants_install(items: Seq<InstalledItemView>, e: RemoteEntryView) -> bool {
    e.file is Some && !is_installed(items, e.mod_id)
}

/// The entry has a file and was updated after the item, in milliseconds;
/// equal times count as up to date.
pub open spec fn is_stale(item: InstalledItemView, e: RemoteEntryView) -> bool {
    e.file is Some && item.updated_at < remote_ms(e.updated_secs)
}

/// The entry that the item is to be updated from, if any.
pub open spec fn update_source(item: InstalledItemView, remote: Seq<RemoteEntryView>) -> Option<
    int,
> {
    match item.remote_mod_id {
        Some(id) => match first_entry(remote, id, remote.len() as int) {
            Some(j) => if is_stale(item, remote[j]) {
                Some(j)
            } else {
                None
            },
            None => None,
        },
        None => None,
    }
}

pub open spec fn subscribe_list(items: Seq<InstalledItemView>, ledger: Seq<Seq<char>>, n: int) -> Seq<
    int,
>
    decreases n,
{
    if n <= 0 {
        Seq::empty()
    } else if wants_subscribe(items[n - 1], ledger) {
        subscribe_list(items, ledger, n - 1).push(n - 1)
    } else {
        subscribe_list(items, ledger, n - 1)
    }
}

pub open spec fn install_list(
    items: Seq<InstalledItemView>,
    remote: Seq<RemoteEntryView>,
    n: int,
) -> Seq<int>
    decreases n,
{
    if n <= 0 {
        Seq::empty()
    } else if wants_install(items, remote[n - 1]) {
        install_list(items, remote, n - 1).push(n - 1)
    } else {
        install_list(items, remote, n - 1)
    }
}

pub open spec fn update_list(
    items: Seq<InstalledItemView>,
    remote: Seq<RemoteEntryView>,
    n: int,
) -> Seq<(int, int)>
    decreases n,
{
    if n <= 0 {
        Seq::empty()
    } else {
        match update_source(items[n - 1], remote) {
            Some(j) => update_list(items, remote, n - 1).push((n - 1, j)),
            None => update_list(items, remote, n - 1),
        }
    }
}

/// The three action lists, by position in the inputs.
pub struct PlanView {
    /// Items to subscribe to, in inventory order.
    pub to_subscribe: Seq<int>,
    /// Entries to install, in catalog order.
    pub to_install: Seq<int>,
    /// (item, entry) pairs to update, in inventory order.
    pub to_update: Seq<(int, int)>,
}

/// What reconciliation yields for the given inventory, ledger and remote list.
pub open spec fn plan_of(
    items: Seq<InstalledItemView>,
    ledger: Seq<Seq<char>>,
    remote: Seq<RemoteEntryView>,
) -> PlanView {
    PlanView {
        to_subscribe: subscribe_list(items, ledger, items.len() as int),
        to_install: install_list(items, remote, remote.len() as int),
        to_update: update_list(items, remote, items.len() as int),
    }
}

/// Update `item` of the inventory from `entry` of the remote list.
#[derive(Clone, Copy, Debug, PartialEq, Eq, Structural)]
pub struct UpdateAction {
    pub item: usize,
    pub entry: usize,
}

/// The action lists, by position in the inputs.
#[derive(Debug)]
pub struct Plan {
    pub to_subscribe: Vec<usize>,
    pub to_install: Vec<usize>,
    pub to_update: Vec<UpdateAction>,
}

impl View for Plan {
    type V = PlanView;

    open spec fn view(&self) -> PlanView {
        PlanView {
            to_subscribe: self.to_subscribe@.map_values(|i: usize| i as int),
            to_install: self.to_install@.map_values(|i: usize| i as int),
            to_update: self.to_update@.map_values(|u: UpdateAction| (u.item as int, u.entry as int)),
        }
    }
}

fn installed(items: &Vec<InstalledItem>, id: u64) -> (r: bool)
    ensures
        r == is_installed(items_view(items@), id),
{
    let ghost iv = items_view(items@);
    let mut found = false;
    let mut i: usize = 0;
    while i < items.len()
        invariant
            iv == items_view(items@),
            i <= items.len(),
            found == installed_upto(iv, id, i as int),
        decreases items.len() - i,
    {
        if items[i].remote_mod_id == Some(id) {
            found = true;
        }
        i = i + 1;
    }
    found
}

fn find_entry(remote: &Vec<RemoteEntry>, id: u64) -> (r: Option<usize>)
    ensures
        match r {
            Some(j) => first_entry(entries_view(remote@), id, remote@.len() as int) == Some(
                j as int,
            ),
            None => first_entry(entries_view(remote@), id, remote@.len() as int) is None,
        },
{
    let ghost rv = entries_view(remote@);
    let mut found: Option<usize> = None;
    let mut j: usize = 0;
    while j < remote.len()
        invariant
            rv == entries_view(remote@),
            j <= remote.len(),
            match found {
                Some(k) => first_entry(rv, id, j as int) == Some(k as int),
                None => first_entry(rv, id, j as int) is None,
            },
        decreases remote.len() - j,
    {
        if found.is_none() && remote[j].mod_id == id {
            found = Some(j);
        }
        j = j + 1;
    }
    found
}

/// Computes the three action lists.
///
/// - To subscribe: every item from the catalog whose path the ledger lacks.
/// - To install: every remote entry with a file from which no item came.
/// - To update: every item from the catalog whose remote entry (the first of
///   its identifier) has a file and was updated strictly later than the item,
///   the remote time taken in milliseconds.
pub fn reconcile(
    items: &Vec<InstalledItem>,
    ledger: &SubscriptionLedger,
    remote: &Vec<RemoteEntry>,
) -> (p: Plan)
    ensures
        p@ == plan_of(items_view(items@), ledger@, entries_view(remote@)),
{
    let ghost iv = items_view(items@);
    let ghost rv = entries_view(remote@);
    let mut to_subscribe: Vec<usize> = Vec::new();
    let mut to_update: Vec<UpdateAction> = Vec::new();
    let mut i: usize = 0;
    while i < items.len()
        invariant
            iv == items_view(items@),
            rv == entries_view(remote@),
            i <= items.len(),
            to_subscribe@.map_values(|k: usize| k as int) == subscribe_list(iv, ledger@, i as int),
            to_update@.map_values(|u: UpdateAction| (u.item as int, u.entry as int)) == update_list(
                iv,
                rv,
                i as int,
            ),
        decreases items.len() - i,
    {
        let item = &items[i];
        assert(iv[i as int] == item@);
        if item.remote_mod_id.is_some() && !ledger.is_subscribed(item.local_path.as_str()) {
            to_subscribe.push(i);
        }
        assert(to_subscribe@.map_values(|k: usize| k as int) =~= subscribe_list(
            iv,
            ledger@,
            i + 1,
        ));
        match item.remote_mod_id {
            Some(id) => match find_entry(remote, id) {
                Some(j) => {
                    proof {
                        lemma_first_entry(rv, id, rv.len() as int);
                    }
                    assert(rv[j as int] == remote@[j as int]@);
                    let e = &remote[j];
                    if e.file.is_some() && item.updated_at < normalized_ms(e.updated_secs) {
                        to_update.push(UpdateAction { item: i, entry: j });
                    }
                },
                None => {},
            },
            None => {},
        }
        assert(to_update@.map_values(|u: UpdateAction| (u.item as int, u.entry as int))
            =~= update_list(iv, rv, i + 1));
        i = i + 1;
    }
    let mut to_install: Vec<usize> = Vec::new();
    let mut j: usize = 0;
    while j < remote.len()
        invariant
            iv == items_view(items@),
            rv == entries_view(remote@),
            j <= remote.len(),
            to_install@.map_values(|k: usize| k as int) == install_list(iv, rv, j as int),
        decreases remote.len() - j,
    {
        assert(rv[j as int] == remote@[j as int]@);
        if remote[j].file.is_some() && !installed(items, remote[j].mod_id) {
            to_install.push(j);
        }
        assert(to_install@.map_values(|k: usize| k as int) =~= install_list(iv, rv, j + 1));
        j = j + 1;
    }
    Plan { to_subscribe, to_install, to_update }
}

proof fn lemma_installed_upto(items: Seq<InstalledItemView>, id: u64, n: int, i: int)
    requires
        0 <= i < n,
        items[i].remote_mod_id == Some(id),
    ensures
        installed_upto(items, id, n),
    decreases n,
{
    if i < n - 1 {
        lemma_installed_upto(items, id, n - 1, i);
    }
}

proof fn lemma_subscribe_list(items: Seq<InstalledItemView>, ledger: Seq<Seq<char>>, n: int)
    ensures
        forall|k: int|
            0 <= k < subscribe_list(items, ledger, n).len() ==> {
                let i = #[trigger] subscribe_list(items, ledger, n)[k];
                0 <= i < n && wants_subscribe(items[i], ledger)
            },
    decreases n,
{
    if n > 0 {
        lemma_subscribe_list(items, ledger, n - 1);
        let prev = subscribe_list(items, ledger, n - 1);
        let cur = subscribe_list(items, ledger, n);
        assert forall|k: int| 0 <= k < cur.len() implies {
            let i = #[trigger] cur[k];
            0 <= i < n && wants_subscribe(items[i], ledger)
        } by {
            if k < prev.len() {
                assert(cur[k] == prev[k]);
            }
        }
    }
}

proof fn lemma_install_list(items: Seq<InstalledItemView>, remote: Seq<RemoteEntryView>, n: int)
    ensures
        forall|k: int|
            0 <= k < install_list(items, remote, n).len() ==> {
                let j = #[trigger] install_list(items, remote, n)[k];
                0 <= j < n && wants_install(items, remote[j])
            },
    decreases n,
{
    if n > 0 {
        lemma_install_list(items, remote, n - 1);
        let prev = install_list(items, remote, n - 1);
        let cur = install_list(items, remote, n);
        assert forall|k: int| 0 <= k < cur.len() implies {
            let j = #[trigger] cur[k];
            0 <= j < n && wants_install(items, remote[j])
        } by {
            if k < prev.len() {
                assert(cur[k] == prev[k]);
            }
        }
    }
}

proof fn lemma_update_list(items: Seq<InstalledItemView>, remote: Seq<RemoteEntryView>, n: int)
    ensures
        forall|k: int|
            0 <= k < update_list(items, remote, n).len() ==> {
                let u = #[trigger] update_list(items, remote, n)[k];
                0 <= u.0 < n && update_source(items[u.0], remote) == Some(u.1)
            },
    decreases n,
{
    if n > 0 {
        lemma_update_list(items, remote, n - 1);
    }
}

proof fn lemma_update_source(item: InstalledItemView, remote: Seq<RemoteEntryView>)
    ensures
        match update_source(item, remote) {
            Some(j) => 0 <= j < remote.len() && item.remote_mod_id == Some(remote[j].mod_id)
                && is_stale(item, remote[j]),
            None => true,
        },
{
    match item.remote_mod_id {
        Some(id) => lemma_first_entry(remote, id, remote.len() as int),
        None => {},
    }
}

/// No catalog identifier is both to install and to update, and none of the
/// items to subscribe to is from a catalog item that is to be installed: an
/// entry is installed only where no item came from it, and the other two lists
/// hold items that came from the catalog.
pub proof fn lemma_plan_disjoint(
    items: Seq<InstalledItemView>,
    ledger: Seq<Seq<char>>,
    remote: Seq<RemoteEntryView>,
)
    ensures
        forall|a: int, b: int|
            0 <= a < plan_of(items, ledger, remote).to_install.len() && 0 <= b < plan_of(
                items,
                ledger,
                remote,
            ).to_update.len() ==> {
                let j = #[trigger] plan_of(items, ledger, remote).to_install[a];
                let u = #[trigger] plan_of(items, ledger, remote).to_update[b];
                j != u.1 && remote[j].mod_id != remote[u.1].mod_id
            },
        forall|a: int, b: int|
            0 <= a < plan_of(items, ledger, remote).to_install.len() && 0 <= b < plan_of(
                items,
                ledger,
                remote,
            ).to_subscribe.len() ==> {
                let j = #[trigger] plan_of(items, ledger, remote).to_install[a];
                let i = #[trigger] plan_of(items, ledger, remote).to_subscribe[b];
                items[i].remote_mod_id != Some(remote[j].mod_id)
            },
{
    let p = plan_of(items, ledger, remote);
    lemma_install_list(items, remote, remote.len() as int);
    lemma_update_list(items, remote, items.len() as int);
    lemma_subscribe_list(items, ledger, items.len() as int);
    assert forall|a: int, b: int|
        0 <= a < p.to_install.len() && 0 <= b < p.to_update.len() implies {
        let j = #[trigger] p.to_install[a];
        let u = #[trigger] p.to_update[b];
        j != u.1 && remote[j].mod_id != remote[u.1].mod_id
    } by {
        let j = p.to_install[a];
        let u = p.to_update[b];
        lemma_update_source(items[u.0], remote);
        lemma_installed_upto(items, remote[u.1].mod_id, items.len() as int, u.0);
    }
    assert forall|a: int, b: int|
        0 <= a < p.to_install.len() && 0 <= b < p.to_subscribe.len() implies {
        let j = #[trigger] p.to_install[a];
        let i = #[trigger] p.to_subscribe[b];
        items[i].remote_mod_id != Some(remote[j].mod_id)
    } by {
        let j = p.to_install[a];
        let i = p.to_subscribe[b];
        if items[i].remote_mod_id == Some(remote[j].mod_id) {
            lemma_installed_upto(items, remote[j].mod_id, items.len() as int, i);
        }
    }
}

/// Where no item is at once unconfirmed in the ledger and stale, no item is
/// both to subscribe to and to update. (An unconfirmed stale item is rightly
/// in both lists.)
pub proof fn lemma_subscribe_update_disjoint(
    items: Seq<InstalledItemView>,
    ledger: Seq<Seq<char>>,
    remote: Seq<RemoteEntryView>,
)
    requires
        forall|i: int|
            0 <= i < items.len() ==> !(wants_subscribe(items[i], ledger) && #[trigger] update_source(
                items[i],
                remote,
            ) is Some),
    ensures
        forall|a: int, b: int|
            0 <= a < plan_of(items, ledger, remote).to_subscribe.len() && 0 <= b < plan_of(
                items,
                ledger,
                remote,
            ).to_update.len() ==> #[trigger] plan_of(items, ledger, remote).to_subscribe[a]
                != #[trigger] plan_of(items, ledger, remote).to_update[b].0,
{
    lemma_update_list(items, remote, items.len() as int);
    lemma_subscribe_list(items, ledger, items.len() as int);
}

/// Reconciliation is a function of the inventory, the ledger and the remote
/// list alone: run twice on the same inputs, with nothing done in between, it
/// yields the same action lists.
pub proof fn lemma_reconcile_idempotent(
    items: Seq<InstalledItemView>,
    ledger: Seq<Seq<char>>,
    remote: Seq<RemoteEntryView>,
    first: PlanView,
    second: PlanView,
)
    requires
        first == plan_of(items, ledger, remote),
        second == plan_of(items, ledger, remote),
    ensures
        first == second,
{
}

/// Every update moves an item forward: the remote time, in milliseconds, is
/// strictly later than the item's own update time.
pub proof fn lemma_updates_are_newer(
    items: Seq<InstalledItemView>,
    ledger: Seq<Seq<char>>,
    remote: Seq<RemoteEntryView>,
)
    ensures
        forall|b: int|
            0 <= b < plan_of(items, ledger, remote).to_update.len() ==> {
                let u = #[trigger] plan_of(items, ledger, remote).to_update[b];
                &&& 0 <= u.0 < items.len()
                &&& 0 <= u.1 < remote.len()
                &&& items[u.0].remote_mod_id == Some(remote[u.1].mod_id)
                &&& items[u.0].updated_at < remote_ms(remote[u.1].updated_secs)
            },
{
    let p = plan_of(items, ledger, remote);
    lemma_update_list(items, remote, items.len() as int);
    assert forall|b: int| 0 <= b < p.to_update.len() implies {
        let u = #[trigger] p.to_update[b];
        &&& 0 <= u.0 < items.len()
        &&& 0 <= u.1 < remote.len()
        &&& items[u.0].remote_mod_id == Some(remote[u.1].mod_id)
        &&& items[u.0].updated_at < remote_ms(remote[u.1].updated_secs)
    } by {
        lemma_update_source(items[p.to_update[b].0], remote);
    }
}

} // verus!
