//! Raw-input registration: the watched interfaces are merged by usage page
//! and usage, so each pair is registered once with the union of the flags
//! it is wanted for.

use vstd::prelude::*;

use crate::hid::DeviceInfo;

verus! {

/// Registration flag: notify on arrival and removal.
pub const RIDEV_DEVNOTIFY: u32 = 0x0000_2000;

/// Registration flag: receive input even in the background.
pub const RIDEV_INPUTSINK: u32 = 0x0000_0100;

/// One raw-input registration: a usage page and usage, and what it is
/// registered for.
#[derive(Copy, Clone, Debug, PartialEq, Eq, Structural)]
pub struct DeviceRegistration {
    pub usage_page: u16,
    pub usage: u16,
    pub notify: bool,
    pub sink: bool,
}

impl DeviceRegistration {
    /// The platform flag word this registration stands for.
    pub fn flags(&self) -> (r: u32)
        ensures
            r == (if self.notify {
                RIDEV_DEVNOTIFY as int
            } else {
                0
            }) + (if self.sink {
                RIDEV_INPUTSINK as int
            } else {
                0
            }),
    {
        let base: u32 = if self.notify {
            RIDEV_DEVNOTIFY
        } else {
            0
        };
        if self.sink {
            base + RIDEV_INPUTSINK
        } else {
            base
        }
    }
}

/// Whether a device list names this usage page and usage.
pub open spec fn spec_pair_in(list: Seq<DeviceInfo>, page: u16, usage: u16) -> bool {
    exists|i: int| 0 <= i < list.len() && list[i].usage_page == page && list[i].usage == usage
}

/// Whether a registration list holds this usage page and usage.
pub open spec fn spec_reg_in(regs: Seq<DeviceRegistration>, page: u16, usage: u16) -> bool {
    exists|k: int| 0 <= k < regs.len() && regs[k].usage_page == page && regs[k].usage == usage
}

/// No usage pair is registered twice.
pub open spec fn spec_regs_unique(regs: Seq<DeviceRegistration>) -> bool {
    forall|k1: int, k2: int|
        0 <= k1 < k2 < regs.len() ==> !((#[trigger] regs[k1]).usage_page == (
        #[trigger] regs[k2]).usage_page && regs[k1].usage == regs[k2].usage)
}

proof fn lemma_pair_in_push(list: Seq<DeviceInfo>, x: DeviceInfo, p: u16, u: u16)
    ensures
        spec_pair_in(list.push(x), p, u) <==> (spec_pair_in(list, p, u) || (x.usage_page == p
            && x.usage == u)),
{
    if spec_pair_in(list, p, u) {
        let i = choose|i: int| 0 <= i < list.len() && list[i].usage_page == p && list[i].usage == u;
        assert(list.push(x)[i].usage_page == p && list.push(x)[i].usage == u);
    }
    if x.usage_page == p && x.usage == u {
        assert(list.push(x)[list.len() as int].usage_page == p && list.push(x)[
            list.len() as int].usage == u);
    }
    if spec_pair_in(list.push(x), p, u) {
        let i = choose|i: int|
            0 <= i < list.push(x).len() && list.push(x)[i].usage_page == p && list.push(x)[i].usage
                == u;
        if i < list.len() {
            assert(list[i].usage_page == p && list[i].usage == u);
        }
    }
}

proof fn lemma_reg_in_push(regs: Seq<DeviceRegistration>, x: DeviceRegistration, p: u16, u: u16)
    ensures
        spec_reg_in(regs.push(x), p, u) <==> (spec_reg_in(regs, p, u) || (x.usage_page == p
            && x.usage == u)),
{
    if spec_reg_in(regs, p, u) {
        let k = choose|k: int| 0 <= k < regs.len() && regs[k].usage_page == p && regs[k].usage == u;
        assert(regs.push(x)[k].usage_page == p && regs.push(x)[k].usage == u);
    }
    if x.usage_page == p && x.usage == u {
        assert(regs.push(x)[regs.len() as int].usage_page == p && regs.push(x)[
            regs.len() as int].usage == u);
    }
    if spec_reg_in(regs.push(x), p, u) {
        let k = choose|k: int|
            0 <= k < regs.push(x).len() && regs.push(x)[k].usage_page == p && regs.push(x)[k].usage
                == u;
        if k < regs.len() {
            assert(regs[k].usage_page == p && regs[k].usage == u);
        }
    }
}

proof fn lemma_reg_in_update(regs: Seq<DeviceRegistration>, k: int, x: DeviceRegistration, p: u16, u: u16)
    requires
        0 <= k < regs.len(),
        x.usage_page == regs[k].usage_page,
        x.usage == regs[k].usage,
    ensures
        spec_reg_in(regs.update(k, x), p, u) <==> spec_reg_in(regs, p, u),
{
    let updated = regs.update(k, x);
    if spec_reg_in(regs, p, u) {
        let k1 = choose|k1: int|
            0 <= k1 < regs.len() && regs[k1].usage_page == p && regs[k1].usage == u;
        assert(updated[k1].usage_page == p && updated[k1].usage == u);
    }
    if spec_reg_in(updated, p, u) {
        let k1 = choose|k1: int|
            0 <= k1 < updated.len() && updated[k1].usage_page == p && updated[k1].usage == u;
        assert(regs[k1].usage_page == p && regs[k1].usage == u);
    }
}

/// The index of a pair in a registration list, if present.
fn find_pair(regs: &Vec<DeviceRegistration>, page: u16, usage: u16) -> (r: Option<usize>)
    ensures
        r matches Some(k) ==> k < regs@.len() && regs@[k as int].usage_page == page
            && regs@[k as int].usage == usage,
        r is None ==> !spec_reg_in(regs@, page, usage),
{
    let mut k: usize = 0;
    while k < regs.len()
        invariant
            k <= regs@.len(),
            forall|j: int| 0 <= j < k ==> !((#[trigger] regs@[j]).usage_page == page && regs@[j].usage == usage),
        decreases regs@.len() - k,
    {
        if regs[k].usage_page == page && regs[k].usage == usage {
            return Some(k);
        }
        k = k + 1;
    }
    None
}

/// Whether a device list names this usage pair.
fn contains_pair(list: &Vec<DeviceInfo>, page: u16, usage: u16) -> (r: bool)
    ensures
        r == spec_pair_in(list@, page, usage),
{
    let mut k: usize = 0;
    while k < list.len()
        invariant
            k <= list@.len(),
            forall|j: int| 0 <= j < k ==> !((#[trigger] list@[j]).usage_page == page && list@[j].usage == usage),
        decreases list@.len() - k,
    {
        if list[k].usage_page == page && list[k].usage == usage {
            return true;
        }
        k = k + 1;
    }
    false
}

/// Merge the notify and sink lists into one registration per usage pair,
/// each carrying exactly the flags the pair is wanted for.
pub fn merge_registrations(notify: &Vec<DeviceInfo>, sink: &Vec<DeviceInfo>) -> (r: Vec<
    DeviceRegistration,
>)
    ensures
        spec_regs_unique(r@),
        forall|p: u16, u: u16|
            #![trigger spec_reg_in(r@, p, u)]
            spec_reg_in(r@, p, u) <==> (spec_pair_in(notify@, p, u) || spec_pair_in(sink@, p, u)),
        forall|k: int|
            0 <= k < r@.len() ==> ((#[trigger] r@[k]).notify == spec_pair_in(
                notify@,
                r@[k].usage_page,
                r@[k].usage,
            ) && r@[k].sink == spec_pair_in(sink@, r@[k].usage_page, r@[k].usage)),
{
    let mut regs: Vec<DeviceRegistration> = Vec::new();

    let mut i: usize = 0;
    while i < notify.len()
        invariant
            i <= notify@.len(),
            spec_regs_unique(regs@),
            forall|p: u16, u: u16|
                #![trigger spec_reg_in(regs@, p, u)]
                spec_reg_in(regs@, p, u) <==> spec_pair_in(notify@.take(i as int), p, u),
            forall|k: int| 0 <= k < regs@.len() ==> (#[trigger] regs@[k]).notify && !regs@[k].sink,
        decreases notify@.len() - i,
    {
        let di = notify[i];
        let ghost before = regs@;
        let ghost pre = notify@.take(i as int);
        proof {
            assert(notify@.take(i as int + 1) =~= pre.push(di));
        }
        match find_pair(&regs, di.usage_page, di.usage) {
            Some(_) => {
                proof {
                    assert forall|p: u16, u: u16|
                        spec_reg_in(regs@, p, u) <==> spec_pair_in(
                        #[trigger] notify@.take(i as int + 1),
                        p,
                        u,
                    ) by {
                        lemma_pair_in_push(pre, di, p, u);
                    }
                }
            },
            None => {
                let entry = DeviceRegistration {
                    usage_page: di.usage_page,
                    usage: di.usage,
                    notify: true,
                    sink: false,
                };
                regs.push(entry);
                proof {
                    assert forall|k1: int, k2: int| 0 <= k1 < k2 < regs@.len() implies !((
                    #[trigger] regs@[k1]).usage_page == (#[trigger] regs@[k2]).usage_page && regs@[
                        k1].usage == regs@[k2].usage) by {
                        if k2 == before.len() && regs@[k1].usage_page == di.usage_page && regs@[
                            k1].usage == di.usage {
                            assert(before[k1].usage_page == di.usage_page && before[k1].usage
                                == di.usage);
                            assert(spec_reg_in(before, di.usage_page, di.usage));
                        }
                    }
                    assert forall|p: u16, u: u16|
                        spec_reg_in(regs@, p, u) <==> spec_pair_in(
                        #[trigger] notify@.take(i as int + 1),
                        p,
                        u,
                    ) by {
                        lemma_pair_in_push(pre, di, p, u);
                        lemma_reg_in_push(before, entry, p, u);
                    }
                }
            },
        }
        i = i + 1;
    }
    proof {
        assert(notify@.take(notify@.len() as int) =~= notify@);
        // Every registration's own pair is registered, so it is a notify
        // pair; none is a sink pair yet.
        assert forall|k: int| 0 <= k < regs@.len() implies ((#[trigger] regs@[k]).notify
            == spec_pair_in(notify@, regs@[k].usage_page, regs@[k].usage) && regs@[k].sink
            == spec_pair_in(sink@.take(0), regs@[k].usage_page, regs@[k].usage)) by {
            assert(spec_reg_in(regs@, regs@[k].usage_page, regs@[k].usage));
        }
    }

    let mut j: usize = 0;
    while j < sink.len()
        invariant
            j <= sink@.len(),
            spec_regs_unique(regs@),
            forall|p: u16, u: u16|
                #![trigger spec_reg_in(regs@, p, u)]
                spec_reg_in(regs@, p, u) <==> (spec_pair_in(notify@, p, u) || spec_pair_in(
                    sink@.take(j as int),
                    p,
                    u,
                )),
            forall|k: int|
                0 <= k < regs@.len() ==> ((#[trigger] regs@[k]).notify == spec_pair_in(
                    notify@,
                    regs@[k].usage_page,
                    regs@[k].usage,
                ) && regs@[k].sink == spec_pair_in(
                    sink@.take(j as int),
                    regs@[k].usage_page,
                    regs@[k].usage,
                )),
        decreases sink@.len() - j,
    {
        let di = sink[j];
        let ghost before = regs@;
        let ghost pre = sink@.take(j as int);
        proof {
            assert(sink@.take(j as int + 1) =~= pre.push(di));
        }
        match find_pair(&regs, di.usage_page, di.usage) {
            Some(k) => {
                let mut entry = regs[k];
                entry.sink = true;
                regs.set(k, entry);
                proof {
                    // The changed entry keeps its pair, so membership is
                    // untouched; its pair is now a sink pair.
                    assert forall|p: u16, u: u16|
                        spec_reg_in(regs@, p, u) <==> (spec_pair_in(notify@, p, u)
                            || spec_pair_in(#[trigger] sink@.take(j as int + 1), p, u)) by {
                        lemma_reg_in_update(before, k as int, entry, p, u);
                        lemma_pair_in_push(pre, di, p, u);
                        if di.usage_page == p && di.usage == u {
                            assert(regs@[k as int].usage_page == p && regs@[k as int].usage == u);
                        }
                    }
                    assert forall|k1: int| 0 <= k1 < regs@.len() implies ((
                    #[trigger] regs@[k1]).notify == spec_pair_in(
                        notify@,
                        regs@[k1].usage_page,
                        regs@[k1].usage,
                    ) && regs@[k1].sink == spec_pair_in(
                        sink@.take(j as int + 1),
                        regs@[k1].usage_page,
                        regs@[k1].usage,
                    )) by {
                        lemma_pair_in_push(pre, di, regs@[k1].usage_page, regs@[k1].usage);
                        if k1 != k as int && regs@[k1].usage_page == di.usage_page && regs@[
                            k1].usage == di.usage {
                            // Two registrations cannot share a pair.
                            assert(false);
                        }
                        assert(sink@.take(j as int + 1)[j as int] == di);
                    }
                }
            },
            None => {
                let notify_flag = contains_pair(notify, di.usage_page, di.usage);
                let entry = DeviceRegistration {
                    usage_page: di.usage_page,
                    usage: di.usage,
                    notify: notify_flag,
                    sink: true,
                };
                regs.push(entry);
                proof {
                    assert forall|k1: int, k2: int| 0 <= k1 < k2 < regs@.len() implies !((
                    #[trigger] regs@[k1]).usage_page == (#[trigger] regs@[k2]).usage_page && regs@[
                        k1].usage == regs@[k2].usage) by {
                        if k2 == before.len() && regs@[k1].usage_page == di.usage_page && regs@[
                            k1].usage == di.usage {
                            assert(before[k1].usage_page == di.usage_page && before[k1].usage
                                == di.usage);
                            assert(spec_reg_in(before, di.usage_page, di.usage));
                        }
                    }
                    assert forall|p: u16, u: u16|
                        spec_reg_in(regs@, p, u) <==> (spec_pair_in(notify@, p, u)
                            || spec_pair_in(#[trigger] sink@.take(j as int + 1), p, u)) by {
                        lemma_reg_in_push(before, entry, p, u);
                        lemma_pair_in_push(pre, di, p, u);
                    }
                    assert forall|k1: int| 0 <= k1 < regs@.len() implies ((
                    #[trigger] regs@[k1]).notify == spec_pair_in(
                        notify@,
                        regs@[k1].usage_page,
                        regs@[k1].usage,
                    ) && regs@[k1].sink == spec_pair_in(
                        sink@.take(j as int + 1),
                        regs@[k1].usage_page,
                        regs@[k1].usage,
                    )) by {
                        lemma_pair_in_push(pre, di, regs@[k1].usage_page, regs@[k1].usage);
                        assert(sink@.take(j as int + 1)[j as int] == di);
                        if k1 < before.len() {
                            assert(regs@[k1] == before[k1]);
                        }
                    }
                }
            },
        }
        j = j + 1;
    }
    proof {
        assert(sink@.take(sink@.len() as int) =~= sink@);
    }
    regs
}

} // verus!
