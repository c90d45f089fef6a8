//! What a move of descriptors does to a process's descriptors.

use vstd::prelude::*;

use crate::config::Config;
use crate::platform::fd;
use crate::platform::remap;
use crate::platform::remap::{FdCall, Phase, FD_CLOEXEC, FIRST_PLACE};

verus! {

/// What a descriptor stands for: an open file, and whether the descriptor is closed on exec.
pub struct Entry {
    pub file: nat,
    pub cloexec: bool,
}

/// The open descriptors of a process.
pub type Table = Map<i32, Entry>;

/// What the kernel does on a call: which return value and which descriptors afterwards go
/// together with those before it.
pub open spec fn kernel(call: FdCall, ret: i32, before: Table, after: Table) -> bool {
    match call {
        FdCall::DupAbove { fd, floor } => {
            ||| ret == -1 && after == before
            ||| before.contains_key(fd) && ret >= floor && !before.contains_key(ret) && after
                == before.insert(ret, Entry { file: before[fd].file, cloexec: true })
        },
        FdCall::Close { fd } => after == before.remove(fd) || (ret == -1 && after == before),
        FdCall::Dup2 { fd, target } => {
            ||| ret == -1 && after == before
            ||| before.contains_key(fd) && fd != target && ret == target && after == before.insert(
                target,
                Entry { file: before[fd].file, cloexec: false },
            )
        },
        FdCall::GetFlags { fd } => after == before && (ret == -1 || before.contains_key(fd)),
        FdCall::SetFlags { fd, flags } => {
            ||| ret == -1 && after == before
            ||| before.contains_key(fd) && after == before.insert(
                fd,
                Entry { file: before[fd].file, cloexec: flags & FD_CLOEXEC != 0 },
            )
        },
    }
}

/// Whether descriptors can be moved: none of the first three, no descriptor twice, all open.
pub open spec fn movable(fds: Seq<i32>, table: Table) -> bool {
    &&& fds.len() < 0x4000_0000
    &&& forall|i: int| 0 <= i < fds.len() ==> #[trigger] fds[i] >= FIRST_PLACE
        && table.contains_key(fds[i])
    &&& forall|i: int, j: int| 0 <= i < j < fds.len() ==> fds[i] != fds[j]
}

/// Whether place `i` stands for the file that its source stood for, and survives exec.
pub open spec fn in_place(fds: Seq<i32>, start: Table, now: Table, i: int) -> bool {
    let place = (FIRST_PLACE + i) as i32;
    now.contains_key(place) && now[place] == (Entry { file: start[fds[i]].file, cloexec: false })
}

/// Whether the first `k` descriptors are in their places.
pub open spec fn placed(fds: Seq<i32>, start: Table, now: Table, k: int) -> bool {
    forall|i: int| 0 <= i < k ==> #[trigger] in_place(fds, start, now, i)
}

/// Whether every descriptor that is neither a source nor a place is as it was.
pub open spec fn untouched(fds: Seq<i32>, start: Table, now: Table) -> bool {
    forall|fd: i32| #[trigger]
        start.contains_key(fd) && !fds.contains(fd) && !remap::in_the_way(fd, fds.len())
            ==> now.contains_key(fd) && now[fd] == start[fd]
}

/// Whether outside the places exactly those descriptors are open that were and are no
/// sources: every source is closed, and nothing else was left open on the way.
pub open spec fn nothing_left(fds: Seq<i32>, start: Table, now: Table) -> bool {
    forall|fd: i32|
        !remap::in_the_way(fd, fds.len()) ==> (#[trigger] now.contains_key(fd)
            <==> start.contains_key(fd) && !fds.contains(fd))
}

/// Whether `fd` is one of the sources from `k` on.
spec fn source_from(now_fds: Seq<i32>, k: int, fd: i32) -> bool {
    exists|i: int| k <= i < now_fds.len() && now_fds[i] == fd
}

/// How many sources are closed already.
spec fn closed_before(n: nat, phase: Phase) -> int {
    match phase {
        Phase::Evacuate(_) => 0,
        Phase::CloseOld(_, _) => 0,
        Phase::Place(i) => i as int,
        Phase::CloseSource(i) => i as int,
        Phase::ReadFlags(i) => i + 1,
        Phase::WriteFlags(i, _) => i + 1,
        Phase::Done => n as int,
        Phase::Failed => 0,
    }
}

/// Which descriptors are open outside the places as long as no call fails: those that were
/// and are no sources, the sources that are still to be closed, and a duplicate that is
/// about to take the place of its source.
spec fn open_inv(
    fds: Seq<i32>,
    start: Table,
    now_fds: Seq<i32>,
    phase: Phase,
    now: Table,
) -> bool {
    forall|fd: i32|
        !remap::in_the_way(fd, fds.len()) ==> (#[trigger] now.contains_key(fd) <==> {
            ||| start.contains_key(fd) && !fds.contains(fd)
            ||| source_from(now_fds, closed_before(fds.len(), phase), fd)
            ||| phase matches Phase::CloseOld(_, high) && fd == high
        })
}

/// Whether the sources from `k` on still stand for the files that they stood for.
spec fn held(fds: Seq<i32>, now_fds: Seq<i32>, start: Table, now: Table, k: int) -> bool {
    forall|i: int|
        #![trigger now_fds[i]]
        k <= i < fds.len() ==> now.contains_key(now_fds[i]) && now[now_fds[i]].file
            == start[fds[i]].file
}

/// Whether no source before `k` is in the way.
spec fn clear(now_fds: Seq<i32>, k: int) -> bool {
    forall|i: int|
        0 <= i < k ==> !remap::in_the_way(#[trigger] now_fds[i], now_fds.len())
}

/// What holds of a move and the descriptors at every point.
spec fn move_inv(
    fds: Seq<i32>,
    start: Table,
    now_fds: Seq<i32>,
    phase: Phase,
    now: Table,
) -> bool {
    let n = fds.len();
    let ceiling = FIRST_PLACE + n;
    &&& now_fds.len() == n
    &&& remap::phase_in_range(n, phase)
    &&& untouched(fds, start, now)
    &&& forall|i: int| 0 <= i < n ==> #[trigger] now_fds[i] >= FIRST_PLACE
    &&& forall|i: int, j: int| 0 <= i < j < n ==> now_fds[i] != now_fds[j]
    &&& forall|i: int|
        #![trigger now_fds[i]]
        0 <= i < n ==> now_fds[i] == fds[i] || (remap::in_the_way(fds[i], n) && now_fds[i]
            >= ceiling && !start.contains_key(now_fds[i]))
    &&& match phase {
        Phase::Evacuate(i) => {
            &&& held(fds, now_fds, start, now, 0)
            &&& clear(now_fds, i as int)
            &&& remap::in_the_way(now_fds[i as int], n)
        },
        Phase::CloseOld(i, high) => {
            &&& held(fds, now_fds, start, now, 0)
            &&& clear(now_fds, i as int)
            &&& remap::in_the_way(now_fds[i as int], n)
            &&& high >= ceiling
            &&& !start.contains_key(high)
            &&& now.contains_key(high)
            &&& now[high].file == start[fds[i as int]].file
            &&& !now_fds.contains(high)
        },
        Phase::Place(i) => {
            &&& clear(now_fds, n as int)
            &&& held(fds, now_fds, start, now, i as int)
            &&& placed(fds, start, now, i as int)
        },
        Phase::CloseSource(i) => {
            &&& clear(now_fds, n as int)
            &&& held(fds, now_fds, start, now, i + 1)
            &&& placed(fds, start, now, i as int)
            &&& now.contains_key((FIRST_PLACE + i) as i32)
            &&& now[(FIRST_PLACE + i) as i32].file == start[fds[i as int]].file
        },
        Phase::ReadFlags(i) => {
            &&& clear(now_fds, n as int)
            &&& held(fds, now_fds, start, now, i + 1)
            &&& placed(fds, start, now, i as int)
            &&& now.contains_key((FIRST_PLACE + i) as i32)
            &&& now[(FIRST_PLACE + i) as i32].file == start[fds[i as int]].file
        },
        Phase::WriteFlags(i, flags) => {
            &&& clear(now_fds, n as int)
            &&& held(fds, now_fds, start, now, i + 1)
            &&& placed(fds, start, now, i as int)
            &&& now.contains_key((FIRST_PLACE + i) as i32)
            &&& now[(FIRST_PLACE + i) as i32].file == start[fds[i as int]].file
            &&& flags & FD_CLOEXEC == 0
        },
        Phase::Done => placed(fds, start, now, n as int),
        Phase::Failed => true,
    }
}

/// Looking for the next source in the way keeps the invariant.
proof fn lemma_evacuate_from(fds: Seq<i32>, start: Table, now_fds: Seq<i32>, now: Table, i: nat)
    requires
        movable(fds, start),
        move_inv(fds, start, now_fds, Phase::Failed, now),
        i <= fds.len(),
        held(fds, now_fds, start, now, 0),
        clear(now_fds, i as int),
    ensures
        move_inv(fds, start, now_fds, remap::evacuate_from(now_fds, i), now),
    decreases fds.len() - i,
{
    if i >= fds.len() {
        lemma_place_from(fds, start, now_fds, now, 0);
    } else if !remap::in_the_way(now_fds[i as int], now_fds.len()) {
        lemma_evacuate_from(fds, start, now_fds, now, i + 1);
    }
}

/// Taking up the next source keeps the invariant.
proof fn lemma_place_from(fds: Seq<i32>, start: Table, now_fds: Seq<i32>, now: Table, i: nat)
    requires
        movable(fds, start),
        move_inv(fds, start, now_fds, Phase::Failed, now),
        i <= fds.len(),
        held(fds, now_fds, start, now, i as int),
        clear(now_fds, fds.len() as int),
        placed(fds, start, now, i as int),
    ensures
        move_inv(fds, start, now_fds, remap::place_from(now_fds, i), now),
{
    if i < fds.len() {
        assert(!remap::in_the_way(now_fds[i as int], now_fds.len()));
    }
}

/// One call keeps the invariant.
proof fn lemma_step(
    fds: Seq<i32>,
    start: Table,
    now_fds: Seq<i32>,
    phase: Phase,
    now: Table,
    ret: i32,
    after: Table,
)
    requires
        movable(fds, start),
        move_inv(fds, start, now_fds, phase, now),
        remap::call_of(now_fds, phase) is Some,
        kernel(remap::call_of(now_fds, phase)->0, ret, now, after),
    ensures
        move_inv(
            fds,
            start,
            remap::next_state(now_fds, phase, ret).0,
            remap::next_state(now_fds, phase, ret).1,
            after,
        ),
{
    let n = fds.len();
    match phase {
        Phase::Evacuate(i) => {
            if ret != -1 {
                if start.contains_key(ret) {
                    if fds.contains(ret) {
                        let k = choose|k: int| 0 <= k < n && fds[k] == ret;
                        assert(now_fds[k] == fds[k]);
                        assert(now.contains_key(now_fds[k]));
                    }
                }
                if now_fds.contains(ret) {
                    let k = choose|k: int| 0 <= k < n && now_fds[k] == ret;
                    assert(now.contains_key(now_fds[k]));
                }
                assert(move_inv(fds, start, now_fds, Phase::CloseOld(i, ret), after));
            }
        },
        Phase::CloseOld(i, high) => {
            let moved = now_fds.update(i as int, high);
            let old_fd = now_fds[i as int];
            assert(fds[i as int] == old_fd);
            assert(fds.contains(old_fd));
            assert(forall|k: int| 0 <= k < n && k != i ==> now_fds[k] != old_fd);
            assert(forall|k: int|
                0 <= k < n ==> moved[k] == if k == i {
                    high
                } else {
                    now_fds[k]
                });
            assert(forall|k: int| 0 <= k < n ==> now_fds[k] != high);
            lemma_evacuate_from(fds, start, moved, after, i as nat + 1);
        },
        Phase::Place(i) => {
            if ret != -1 {
                assert(forall|k: int| 0 <= k < n ==> !remap::in_the_way(#[trigger] now_fds[k], n));
                assert(held(fds, now_fds, start, after, i + 1));
                assert forall|k: int| 0 <= k < i implies #[trigger] in_place(
                    fds,
                    start,
                    after,
                    k,
                ) by {
                    assert(in_place(fds, start, now, k));
                }
                assert(move_inv(fds, start, now_fds, Phase::CloseSource(i), after));
            }
        },
        Phase::CloseSource(i) => {
            let fd = now_fds[i as int];
            assert(!remap::in_the_way(fd, n));
            assert(fd == fds[i as int] ==> fds.contains(fd));
            assert(forall|k: int| 0 <= k < n && k != i ==> now_fds[k] != fd);
            assert(held(fds, now_fds, start, after, i + 1));
            assert(fd >= FIRST_PLACE + n);
            assert forall|k: int| 0 <= k < i implies #[trigger] in_place(fds, start, after, k) by {
                assert(in_place(fds, start, now, k));
            }
            assert(placed(fds, start, after, i as int));
            assert(move_inv(fds, start, now_fds, Phase::ReadFlags(i), after));
        },
        Phase::ReadFlags(i) => {
            assert((ret & !1i32) & 1i32 == 0) by (bit_vector);
            assert(ret != -1 ==> move_inv(
                fds,
                start,
                now_fds,
                Phase::WriteFlags(i, ret & !FD_CLOEXEC),
                after,
            ));
        },
        Phase::WriteFlags(i, flags) => {
            if ret != -1 {
                assert(forall|k: int| 0 <= k < n ==> !remap::in_the_way(#[trigger] now_fds[k], n));
                assert forall|k: int| 0 <= k < i + 1 implies #[trigger] in_place(
                    fds,
                    start,
                    after,
                    k,
                ) by {
                    if k < i {
                        assert(in_place(fds, start, now, k));
                    }
                }
                lemma_place_from(fds, start, now_fds, after, i as nat + 1);
            }
        },
        Phase::Done => {},
        Phase::Failed => {},
    }
}

/// One call that does not fail keeps track of what is open.
proof fn lemma_open_step(
    fds: Seq<i32>,
    start: Table,
    now_fds: Seq<i32>,
    phase: Phase,
    now: Table,
    ret: i32,
    after: Table,
)
    requires
        movable(fds, start),
        move_inv(fds, start, now_fds, phase, now),
        open_inv(fds, start, now_fds, phase, now),
        remap::call_of(now_fds, phase) is Some,
        kernel(remap::call_of(now_fds, phase)->0, ret, now, after),
        ret != -1,
    ensures
        open_inv(
            fds,
            start,
            remap::next_state(now_fds, phase, ret).0,
            remap::next_state(now_fds, phase, ret).1,
            after,
        ),
{
    let n = fds.len();
    let (next_fds, next) = remap::next_state(now_fds, phase, ret);
    lemma_step(fds, start, now_fds, phase, now, ret, after);
    lemma_next_closed(fds, start, now_fds, phase, ret, after);
    let k = closed_before(n, phase);
    let next_k = closed_before(n, next);
    assert forall|fd: i32| !remap::in_the_way(fd, n) implies (#[trigger] after.contains_key(fd)
        <==> {
        ||| start.contains_key(fd) && !fds.contains(fd)
        ||| source_from(next_fds, next_k, fd)
        ||| next matches Phase::CloseOld(_, high) && fd == high
    }) by {
        let was_open = now.contains_key(fd);
        match phase {
            Phase::CloseOld(i, high) => {
                if source_from(now_fds, 0, fd) {
                    let j = choose|j: int| 0 <= j < n && now_fds[j] == fd;
                    assert(next_fds[j] == fd);
                }
                if source_from(next_fds, 0, fd) {
                    let j = choose|j: int| 0 <= j < n && next_fds[j] == fd;
                    assert(j != i ==> now_fds[j] == fd);
                }
                assert(next_fds[i as int] == high);
            },
            Phase::CloseSource(i) => {
                let source = now_fds[i as int];
                assert(!remap::in_the_way(source, n));
                assert(fds[i as int] == source ==> fds.contains(source));
                if source_from(now_fds, k, fd) && fd != source {
                    let j = choose|j: int| k <= j < n && now_fds[j] == fd;
                    assert(next_fds[j] == fd);
                }
                if source_from(next_fds, next_k, fd) {
                    let j = choose|j: int| next_k <= j < n && next_fds[j] == fd;
                    assert(now_fds[j] == fd);
                }
            },
            _ => {},
        }
    }
}

/// How many sources are closed after a call that does not fail: one more after a source was
/// closed, else as many as before.
proof fn lemma_next_closed(
    fds: Seq<i32>,
    start: Table,
    now_fds: Seq<i32>,
    phase: Phase,
    ret: i32,
    after: Table,
)
    requires
        now_fds.len() == fds.len(),
        remap::phase_in_range(fds.len(), phase),
        remap::call_of(now_fds, phase) is Some,
        ret != -1,
        move_inv(
            fds,
            start,
            remap::next_state(now_fds, phase, ret).0,
            remap::next_state(now_fds, phase, ret).1,
            after,
        ),
    ensures
        closed_before(fds.len(), remap::next_state(now_fds, phase, ret).1) == closed_before(
            fds.len(),
            phase,
        ) + (if phase is CloseSource {
            1int
        } else {
            0
        }),
{
    match phase {
        Phase::CloseOld(i, high) => {
            lemma_evacuate_closed(fds, start, now_fds.update(i as int, high), i as nat + 1, after);
        },
        _ => {},
    }
}

/// No source is closed while those in the way are looked for.
proof fn lemma_evacuate_closed(
    fds: Seq<i32>,
    start: Table,
    now_fds: Seq<i32>,
    i: nat,
    now: Table,
)
    requires
        i <= fds.len(),
        move_inv(fds, start, now_fds, remap::evacuate_from(now_fds, i), now),
        now_fds.len() == fds.len(),
    ensures
        closed_before(fds.len(), remap::evacuate_from(now_fds, i)) == 0,
        !(remap::evacuate_from(now_fds, i) is CloseOld),
    decreases fds.len() - i,
{
    if i < fds.len() && !remap::in_the_way(now_fds[i as int], fds.len()) {
        lemma_evacuate_closed(fds, start, now_fds, i + 1, now);
    }
}

/// The state of a move of `fds` after its calls came back with `rets`.
pub open spec fn state_after(fds: Seq<i32>, rets: Seq<i32>) -> (Seq<i32>, Phase)
    decreases rets.len(),
{
    if rets.len() == 0 {
        (fds, remap::evacuate_from(fds, 0))
    } else {
        let (now_fds, phase) = state_after(fds, rets.drop_last());
        remap::next_state(now_fds, phase, rets.last())
    }
}

/// Whether call `k` of a move of `fds` took the descriptors `tables[k]` to the next ones.
pub open spec fn is_call(fds: Seq<i32>, rets: Seq<i32>, tables: Seq<Table>, k: int) -> bool {
    let (now_fds, phase) = state_after(fds, rets.take(k));
    &&& remap::call_of(now_fds, phase) is Some
    &&& kernel(remap::call_of(now_fds, phase)->0, rets[k], tables[k], tables[k + 1])
}

/// Whether `tables` are the descriptors of a process before, between and after the calls
/// of a move of `fds` whose calls came back with `rets`.
pub open spec fn is_run(fds: Seq<i32>, rets: Seq<i32>, tables: Seq<Table>) -> bool {
    &&& tables.len() == rets.len() + 1
    &&& forall|k: int| 0 <= k < rets.len() ==> #[trigger] is_call(fds, rets, tables, k)
}

/// Whether no call of a run failed.
pub open spec fn none_failed(rets: Seq<i32>) -> bool {
    forall|k: int| 0 <= k < rets.len() ==> #[trigger] rets[k] != -1
}

/// A move that finishes puts every descriptor in its place: place `3 + i` stands for the
/// file that source `i` stood for, however sources and places overlapped, and survives
/// exec. Finished or not, a move leaves every other descriptor as it was. And where no call
/// failed, it closes every source outside the places and leaves nothing new open there.
pub proof fn law_remap_places(fds: Seq<i32>, rets: Seq<i32>, tables: Seq<Table>)
    requires
        tables.len() > 0,
        movable(fds, tables[0]),
        is_run(fds, rets, tables),
    ensures
        untouched(fds, tables[0], tables.last()),
        state_after(fds, rets).1 == Phase::Done ==> placed(
            fds,
            tables[0],
            tables.last(),
            fds.len() as int,
        ),
        state_after(fds, rets).1 == Phase::Done && none_failed(rets) ==> nothing_left(
            fds,
            tables[0],
            tables.last(),
        ),
{
    lemma_run(fds, rets, tables);
    if state_after(fds, rets).1 == Phase::Done && none_failed(rets) {
        lemma_open_run(fds, rets, tables);
        let now_fds = state_after(fds, rets).0;
        assert forall|fd: i32| !remap::in_the_way(fd, fds.len()) implies (
        #[trigger] tables.last().contains_key(fd) <==> tables[0].contains_key(fd) && !fds.contains(
            fd,
        )) by {
            assert(!source_from(now_fds, fds.len() as int, fd));
        }
    }
}

/// What is open is kept track of over every run in which no call fails.
proof fn lemma_open_run(fds: Seq<i32>, rets: Seq<i32>, tables: Seq<Table>)
    requires
        tables.len() > 0,
        movable(fds, tables[0]),
        is_run(fds, rets, tables),
        none_failed(rets),
    ensures
        open_inv(
            fds,
            tables[0],
            state_after(fds, rets).0,
            state_after(fds, rets).1,
            tables.last(),
        ),
    decreases rets.len(),
{
    if rets.len() == 0 {
        lemma_open_start(fds, tables[0]);
    } else {
        let before = rets.drop_last();
        let prefix = tables.drop_last();
        let last = rets.len() - 1;
        assert forall|k: int| 0 <= k < before.len() implies #[trigger] is_call(
            fds,
            before,
            prefix,
            k,
        ) by {
            assert(is_call(fds, rets, tables, k));
            assert(before.take(k) == rets.take(k));
        }
        lemma_run(fds, before, prefix);
        lemma_open_run(fds, before, prefix);
        assert(rets.take(last) == before);
        assert(is_call(fds, rets, tables, last));
        assert(rets[last] != -1);
        let (now_fds, phase) = state_after(fds, before);
        lemma_open_step(fds, tables[0], now_fds, phase, prefix.last(), rets.last(), tables.last());
    }
}

/// What is open at the start.
proof fn lemma_open_start(fds: Seq<i32>, start: Table)
    requires
        movable(fds, start),
    ensures
        open_inv(fds, start, fds, remap::evacuate_from(fds, 0), start),
{
    lemma_evacuate_from(fds, start, fds, start, 0);
    lemma_evacuate_closed(fds, start, fds, 0, start);
    assert forall|fd: i32| !remap::in_the_way(fd, fds.len()) implies (
    #[trigger] start.contains_key(fd) <==> (start.contains_key(fd) && !fds.contains(fd))
        || source_from(fds, 0, fd)) by {
        if fds.contains(fd) {
            let i = choose|i: int| 0 <= i < fds.len() && fds[i] == fd;
            assert(fds[i] == fd);
        }
    }
}

/// The invariant holds after every run.
proof fn lemma_run(fds: Seq<i32>, rets: Seq<i32>, tables: Seq<Table>)
    requires
        tables.len() > 0,
        movable(fds, tables[0]),
        is_run(fds, rets, tables),
    ensures
        move_inv(
            fds,
            tables[0],
            state_after(fds, rets).0,
            state_after(fds, rets).1,
            tables.last(),
        ),
    decreases rets.len(),
{
    if rets.len() == 0 {
        lemma_evacuate_from(fds, tables[0], fds, tables[0], 0);
    } else {
        let before = rets.drop_last();
        let prefix = tables.drop_last();
        let last = rets.len() - 1;
        assert forall|k: int| 0 <= k < before.len() implies #[trigger] is_call(
            fds,
            before,
            prefix,
            k,
        ) by {
            assert(is_call(fds, rets, tables, k));
            assert(before.take(k) == rets.take(k));
        }
        lemma_run(fds, before, prefix);
        assert(rets.take(last) == before);
        assert(is_call(fds, rets, tables, last));
        let (now_fds, phase) = state_after(fds, before);
        lemma_step(fds, tables[0], now_fds, phase, prefix.last(), rets.last(), tables.last());
    }
}

/// Descriptors that a process can inherit can be moved, as long as they are open.
pub proof fn law_inheritable_fds_movable(fds: Seq<i32>, cfg: Config, table: Table)
    requires
        fd::valid_extra_fds(fds, cfg),
        forall|i: int| 0 <= i < fds.len() ==> table.contains_key(#[trigger] fds[i]),
    ensures
        movable(fds, table),
{
}

/// A move makes at most six calls for each descriptor.
pub proof fn law_remap_calls_bounded(fds: Seq<i32>, rets: Seq<i32>, tables: Seq<Table>)
    requires
        fds.len() < 0x4000_0000,
        is_run(fds, rets, tables),
    ensures
        rets.len() <= 6 * fds.len(),
{
    lemma_calls_left(fds, rets, tables, rets.len());
}

/// Each call of a run leaves fewer to make.
proof fn lemma_calls_left(fds: Seq<i32>, rets: Seq<i32>, tables: Seq<Table>, k: nat)
    requires
        fds.len() < 0x4000_0000,
        is_run(fds, rets, tables),
        k <= rets.len(),
    ensures
        state_after(fds, rets.take(k as int)).0.len() == fds.len(),
        remap::phase_in_range(fds.len(), state_after(fds, rets.take(k as int)).1),
        0 <= remap::calls_left(fds.len(), state_after(fds, rets.take(k as int)).1) <= 6 * fds.len()
            - k,
    decreases k,
{
    if k == 0 {
        lemma_evacuate_bound(fds, 0);
        assert(rets.take(0).len() == 0);
    } else {
        let before = (k - 1) as nat;
        lemma_calls_left(fds, rets, tables, before);
        assert(is_call(fds, rets, tables, before as int));
        assert(rets.take(k as int).drop_last() == rets.take(before as int));
        let (now_fds, phase) = state_after(fds, rets.take(before as int));
        match phase {
            Phase::CloseOld(i, high) => {
                lemma_evacuate_bound(now_fds.update(i as int, high), i as nat + 1);
            },
            _ => {},
        }
    }
}

/// What is still to do once the sources before `i` are out of the way.
proof fn lemma_evacuate_bound(fds: Seq<i32>, i: nat)
    requires
        i <= fds.len() < 0x4000_0000,
    ensures
        remap::phase_in_range(fds.len(), remap::evacuate_from(fds, i)),
        0 <= remap::calls_left(fds.len(), remap::evacuate_from(fds, i)) <= 4 * fds.len() + 2 * (
        fds.len() - i),
    decreases fds.len() - i,
{
    if i < fds.len() && !remap::in_the_way(fds[i as int], fds.len()) {
        lemma_evacuate_bound(fds, i + 1);
    }
}

/// A move fails only because a call failed, the last one, and not for one that closes a
/// descriptor. Where no call failed and none is left to make, every descriptor is in its
/// place.
pub proof fn law_remap_completes(fds: Seq<i32>, rets: Seq<i32>, tables: Seq<Table>)
    requires
        is_run(fds, rets, tables),
    ensures
        ({
            let (now_fds, phase) = state_after(fds, rets);
            &&& phase == Phase::Failed ==> {
                let (last_fds, last) = state_after(fds, rets.drop_last());
                &&& rets.len() > 0
                &&& rets.last() == -1
                &&& remap::call_of(last_fds, last) is Some
                &&& !(remap::call_of(last_fds, last)->0 is Close)
            }
            &&& remap::call_of(now_fds, phase) is None ==> phase == Phase::Done || phase
                == Phase::Failed
            &&& remap::call_of(now_fds, phase) is None && none_failed(rets) ==> phase == Phase::Done
        }),
{
    lemma_evacuate_not_failed(fds, 0);
    if rets.len() > 0 {
        let last = rets.len() - 1;
        assert(is_call(fds, rets, tables, last));
        assert(rets.take(last) == rets.drop_last());
        let (before_fds, before) = state_after(fds, rets.drop_last());
        match before {
            Phase::CloseOld(i, high) => {
                lemma_evacuate_not_failed(before_fds.update(i as int, high), i as nat + 1);
            },
            _ => {},
        }
        assert(rets[last] == rets.last());
    }
}

/// Looking for the next source does not fail.
proof fn lemma_evacuate_not_failed(fds: Seq<i32>, i: nat)
    ensures
        remap::evacuate_from(fds, i) != Phase::Failed,
    decreases fds.len() - i,
{
    if i < fds.len() && !remap::in_the_way(fds[i as int], fds.len()) {
        lemma_evacuate_not_failed(fds, i + 1);
    }
}

/// A source that is in the way is duplicated to the first free descriptor above the places,
/// and only one in the way is.
pub proof fn law_remap_evacuates(fds: Seq<i32>, i: nat)
    requires
        i <= fds.len() < 0x4000_0000,
    ensures
        remap::evacuate_from(fds, i) matches Phase::Evacuate(k) ==> {
            &&& i <= k < fds.len()
            &&& 3 <= fds[k as int] < 3 + fds.len()
            &&& forall|j: int| i <= j < k ==> !(3 <= #[trigger] fds[j] < 3 + fds.len())
            &&& remap::call_of(fds, Phase::Evacuate(k)) == Some(
                FdCall::DupAbove { fd: fds[k as int], floor: (3 + fds.len()) as i32 },
            )
        },
        !(remap::evacuate_from(fds, i) is Evacuate) ==> forall|j: int|
            i <= j < fds.len() ==> !(3 <= #[trigger] fds[j] < 3 + fds.len()),
    decreases fds.len() - i,
{
    if i < fds.len() && !remap::in_the_way(fds[i as int], fds.len()) {
        law_remap_evacuates(fds, i + 1);
    }
}

/// Of the flags of a place only the one that closes it on exec is cleared.
pub proof fn law_remap_keeps_flags(fds: Seq<i32>, i: usize, flags: i32)
    requires
        flags != -1,
    ensures
        remap::next_state(fds, Phase::ReadFlags(i), flags).1 matches Phase::WriteFlags(k, kept) && k
            == i && kept & 1 == 0 && kept | 1 == flags | 1,
        remap::call_of(fds, Phase::WriteFlags(i, flags)) == Some(
            FdCall::SetFlags { fd: (3 + i) as i32, flags },
        ),
{
    assert((flags & !1i32) & 1i32 == 0) by (bit_vector);
    assert((flags & !1i32) | 1i32 == flags | 1i32) by (bit_vector);
}

} // verus!
