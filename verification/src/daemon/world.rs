//! Many daemons on one machine: however they race, there is never more than one
//! wake lock, and of two that race exactly one takes it.

use crate::daemon::{
    daemon_next, holds_guard, holds_singleton, DaemonEventView, DaemonPlan, DaemonStateView,
};
use vstd::prelude::*;

verus! {

/// One daemon among many: what it was started with and where it stands.
#[verifier::ext_equal]
pub struct Process {
    pub plan: DaemonPlan,
    pub stands: DaemonStateView,
}

/// The daemons of a machine, who owns the singleton lock, and who holds a wake
/// lock.
#[verifier::ext_equal]
pub struct World {
    pub daemons: Map<int, Process>,
    pub owner: Option<int>,
    pub guards: Set<int>,
}

/// A world without daemons.
pub open spec fn empty_world() -> World {
    World { daemons: Map::empty(), owner: None, guards: Set::empty() }
}

/// The singleton lock is owned by the daemon that holds it and by no other, and
/// the wake locks are those of the daemons that hold one.
pub open spec fn world_invariant(w: World) -> bool {
    &&& forall|i: int| #[trigger]
        w.daemons.contains_key(i) ==> (holds_singleton(w.daemons[i].stands) <==> w.owner == Some(i))
    &&& forall|i: int| #[trigger]
        w.guards.contains(i) <==> w.daemons.contains_key(i) && holds_guard(w.daemons[i].stands)
    &&& w.owner is Some ==> w.daemons.contains_key(w.owner->Some_0)
}

/// A new daemon starts.
pub open spec fn starts(w: World, w2: World, i: int, plan: DaemonPlan) -> bool {
    &&& !w.daemons.contains_key(i)
    &&& w2 == World {
        daemons: w.daemons.insert(i, Process { plan, stands: DaemonStateView::Resolve }),
        ..w
    }
}

/// A daemon goes on. The singleton lock is exclusive: a claim succeeds exactly
/// if nobody owns the lock.
pub open spec fn goes_on(w: World, w2: World, i: int, event: DaemonEventView) -> bool {
    let p = w.daemons[i];
    let claims = p.stands is Claim && event is Claimed && event->Claimed_0 is Ok;
    let gives_up = p.stands is ReleaseSingleton && event is SingletonReleased;
    let takes = p.stands is Acquire && event is Acquired && event->Acquired_0 is Ok;
    let releases = p.stands is ReleaseGuard && event is GuardReleased;
    &&& w.daemons.contains_key(i)
    &&& claims ==> event->Claimed_0->Ok_0 == (w.owner is None)
    &&& w2 == World {
        daemons: w.daemons.insert(
            i,
            Process { plan: p.plan, stands: daemon_next(p.plan, p.stands, event) },
        ),
        owner: if claims && w.owner is None {
            Some(i)
        } else if gives_up && w.owner == Some(i) {
            None
        } else {
            w.owner
        },
        guards: if takes {
            w.guards.insert(i)
        } else if releases {
            w.guards.remove(i)
        } else {
            w.guards
        },
    }
}

/// A daemon dies, at any point: the system closes its files, and with them go
/// the singleton lock and the wake lock that it held.
pub open spec fn dies(w: World, w2: World, i: int) -> bool {
    &&& w.daemons.contains_key(i)
    &&& w2 == World {
        daemons: w.daemons.remove(i),
        owner: if w.owner == Some(i) {
            None
        } else {
            w.owner
        },
        guards: w.guards.remove(i),
    }
}

/// Some daemon starts, goes on or dies.
pub open spec fn world_step(w: World, w2: World) -> bool {
    ||| exists|i: int, plan: DaemonPlan| starts(w, w2, i, plan)
    ||| exists|i: int, event: DaemonEventView| goes_on(w, w2, i, event)
    ||| exists|i: int| dies(w, w2, i)
}

/// A history of a machine on which daemons start, go on and die in any order.
pub open spec fn history(worlds: Seq<World>) -> bool {
    &&& worlds.len() > 0
    &&& worlds[0] == empty_world()
    &&& forall|k: int| 0 <= k < worlds.len() - 1 ==> world_step(#[trigger] worlds[k], worlds[k + 1])
}

/// However many daemons are started, and however their steps interleave, there
/// is at no time more than one wake lock.
pub proof fn never_two_wake_locks(worlds: Seq<World>, k: int, i: int, j: int)
    requires
        history(worlds),
        0 <= k < worlds.len(),
        worlds[k].guards.contains(i),
        worlds[k].guards.contains(j),
    ensures
        i == j,
{
    invariant_holds_always(worlds, k);
    let w = worlds[k];
    assert(w.daemons.contains_key(i) && w.daemons.contains_key(j));
    assert(w.owner == Some(i));
    assert(w.owner == Some(j));
}

/// Once every daemon has ended or died, nothing is held: there is no wake lock,
/// and the singleton lock is free for the next daemon.
pub proof fn nothing_is_held_without_daemons(worlds: Seq<World>, k: int)
    requires
        history(worlds),
        0 <= k < worlds.len(),
        forall|i: int| #[trigger]
            worlds[k].daemons.contains_key(i) ==> worlds[k].daemons[i].stands is Finished,
    ensures
        worlds[k].owner is None,
        forall|i: int| !worlds[k].guards.contains(i),
{
    invariant_holds_always(worlds, k);
}

/// In every history the singleton lock is owned by exactly the daemon that holds
/// it, and the wake locks are those of the daemons that hold one.
pub proof fn invariant_holds_always(worlds: Seq<World>, k: int)
    requires
        history(worlds),
        0 <= k < worlds.len(),
    ensures
        world_invariant(worlds[k]),
    decreases k,
{
    if k > 0 {
        invariant_holds_always(worlds, k - 1);
        let w = worlds[k - 1];
        let w2 = worlds[k];
        assert(world_step(w, worlds[k - 1 + 1]));
        if exists|i: int, plan: DaemonPlan| starts(w, w2, i, plan) {
            let (i, plan) = choose|i: int, plan: DaemonPlan| starts(w, w2, i, plan);
            starting_keeps_the_invariant(w, w2, i, plan);
        } else if exists|i: int, event: DaemonEventView| goes_on(w, w2, i, event) {
            let (i, event) = choose|i: int, event: DaemonEventView| goes_on(w, w2, i, event);
            going_on_keeps_the_invariant(w, w2, i, event);
        } else {
            let i = choose|i: int| dies(w, w2, i);
            dying_keeps_the_invariant(w, w2, i);
        }
    }
}

proof fn starting_keeps_the_invariant(w: World, w2: World, i: int, plan: DaemonPlan)
    requires
        world_invariant(w),
        starts(w, w2, i, plan),
    ensures
        world_invariant(w2),
{
    assert forall|x: int| #[trigger] w2.guards.contains(x) <==> w2.daemons.contains_key(x)
        && holds_guard(w2.daemons[x].stands) by {
        assert(w.guards.contains(x) <==> w.daemons.contains_key(x) && holds_guard(
            w.daemons[x].stands,
        ));
    }
}

proof fn going_on_keeps_the_invariant(w: World, w2: World, i: int, event: DaemonEventView)
    requires
        world_invariant(w),
        goes_on(w, w2, i, event),
    ensures
        world_invariant(w2),
{
    assert forall|x: int| #[trigger] w2.daemons.contains_key(x) implies (holds_singleton(
        w2.daemons[x].stands,
    ) <==> w2.owner == Some(x)) by {
        assert(w.daemons.contains_key(x));
        assert(w.daemons.contains_key(i));
    }
    assert forall|x: int| #[trigger] w2.guards.contains(x) <==> w2.daemons.contains_key(x)
        && holds_guard(w2.daemons[x].stands) by {
        assert(w.guards.contains(x) <==> w.daemons.contains_key(x) && holds_guard(
            w.daemons[x].stands,
        ));
    }
}

proof fn dying_keeps_the_invariant(w: World, w2: World, i: int)
    requires
        world_invariant(w),
        dies(w, w2, i),
    ensures
        world_invariant(w2),
{
    assert forall|x: int| #[trigger] w2.daemons.contains_key(x) implies (holds_singleton(
        w2.daemons[x].stands,
    ) <==> w2.owner == Some(x)) by {
        assert(w.daemons.contains_key(x));
    }
    assert forall|x: int| #[trigger] w2.guards.contains(x) <==> w2.daemons.contains_key(x)
        && holds_guard(w2.daemons[x].stands) by {
        assert(w.guards.contains(x) <==> w.daemons.contains_key(x) && holds_guard(
            w.daemons[x].stands,
        ));
    }
}

// ---------------------------------------------------------------------------
// Two daemons that race
// ---------------------------------------------------------------------------

/// What happens between two worlds of a history.
#[verifier::ext_equal]
pub enum Step {
    /// This daemon starts.
    Starts(int, DaemonPlan),
    /// This daemon goes on after this event.
    GoesOn(int, DaemonEventView),
    /// This daemon dies.
    Dies(int),
}

/// Whether a step leads from one world to the next.
pub open spec fn leads(w: World, w2: World, step: Step) -> bool {
    match step {
        Step::Starts(i, plan) => starts(w, w2, i, plan),
        Step::GoesOn(i, event) => goes_on(w, w2, i, event),
        Step::Dies(i) => dies(w, w2, i),
    }
}

/// A history together with what happens in it: `steps[k]` leads from `worlds[k]`
/// to `worlds[k + 1]`.
pub open spec fn told_history(worlds: Seq<World>, steps: Seq<Step>) -> bool {
    &&& worlds.len() == steps.len() + 1
    &&& worlds[0] == empty_world()
    &&& forall|k: int|
        0 <= k < steps.len() ==> leads(worlds[k], worlds[k + 1], #[trigger] steps[k])
}

/// A history that is told step by step is a history.
pub proof fn told_history_is_history(worlds: Seq<World>, steps: Seq<Step>)
    requires
        told_history(worlds, steps),
    ensures
        history(worlds),
{
    assert forall|k: int| 0 <= k < worlds.len() - 1 implies world_step(
        #[trigger] worlds[k],
        worlds[k + 1],
    ) by {
        assert(leads(worlds[k], worlds[k + 1], steps[k]));
    }
}

/// Whether a daemon has yet to learn whether it is the one that takes the lock.
pub open spec fn undecided(s: DaemonStateView) -> bool {
    s is Resolve || s is Ping || s is Claim
}

/// Whether a daemon has ended well.
pub open spec fn ended_well(s: DaemonStateView) -> bool {
    s is Finished && s->Finished_0 is Ok
}

/// Whether a daemon was started and has passed the claim.
pub open spec fn decided(w: World, i: int) -> bool {
    w.daemons.contains_key(i) && !undecided(w.daemons[i].stands)
}

/// Whether an event tells of no failure.
pub open spec fn succeeds(event: DaemonEventView) -> bool {
    match event {
        DaemonEventView::Resolved(r) => r is Ok,
        DaemonEventView::Claimed(r) => r is Ok,
        DaemonEventView::Acquired(r) => r is Ok,
        DaemonEventView::Described(r) => r is Ok,
        DaemonEventView::Published(r) => r is Ok,
        DaemonEventView::Served(r) => r is Ok,
        _ => true,
    }
}

/// Whether a step is part of a race of `a` and `b`: only these two are ever
/// started, neither dies, and nothing fails, so that either would get the wake
/// lock; a daemon's question is answered only where a daemon serves; and the one
/// that serves is stopped only once both have passed the claim.
pub open spec fn race_step(w: World, step: Step, a: int, b: int) -> bool {
    match step {
        Step::Starts(i, _) => i == a || i == b,
        Step::Dies(_) => false,
        Step::GoesOn(i, event) => {
            &&& succeeds(event)
            &&& event is Pinged && event->Pinged_0 is Ok && event->Pinged_0->Ok_0.ok ==> exists|j: int|
                #![trigger w.daemons[j]]
                w.daemons.contains_key(j) && w.daemons[j].stands is Serve
            &&& event is Served ==> decided(w, a) && decided(w, b)
        },
    }
}

/// A race of two daemons, on a machine on which no other daemon is.
pub open spec fn race(worlds: Seq<World>, steps: Seq<Step>, a: int, b: int) -> bool {
    &&& a != b
    &&& told_history(worlds, steps)
    &&& forall|k: int| 0 <= k < steps.len() ==> race_step(worlds[k], #[trigger] steps[k], a, b)
}

/// Whether a step gives the singleton lock to a daemon.
pub open spec fn grants(w: World, step: Step) -> bool {
    match step {
        Step::GoesOn(i, event) => w.daemons[i].stands is Claim && event
            == DaemonEventView::Claimed(Ok(true)),
        _ => false,
    }
}

/// Whether a step is a daemon's call to take the wake lock.
pub open spec fn takes(w: World, step: Step) -> bool {
    match step {
        Step::GoesOn(i, event) => w.daemons[i].stands is Acquire && event is Acquired,
        _ => false,
    }
}

/// Whether a step releases a wake lock.
pub open spec fn releases(w: World, step: Step) -> bool {
    match step {
        Step::GoesOn(i, event) => w.daemons[i].stands is ReleaseGuard && event is GuardReleased,
        _ => false,
    }
}

/// How many of the first `k` steps are of a kind.
pub open spec fn count(
    worlds: Seq<World>,
    steps: Seq<Step>,
    k: int,
    kind: spec_fn(World, Step) -> bool,
) -> nat
    decreases k,
{
    if k <= 0 {
        0
    } else {
        count(worlds, steps, k - 1, kind) + if kind(worlds[k - 1], steps[k - 1]) {
            1nat
        } else {
            0nat
        }
    }
}

/// How often the singleton lock was given to a daemon.
pub open spec fn granted(worlds: Seq<World>, steps: Seq<Step>, k: int) -> nat {
    count(worlds, steps, k, |w: World, s: Step| grants(w, s))
}

/// How often a backend was asked for the wake lock.
pub open spec fn taken(worlds: Seq<World>, steps: Seq<Step>, k: int) -> nat {
    count(worlds, steps, k, |w: World, s: Step| takes(w, s))
}

/// How often a wake lock was released.
pub open spec fn released(worlds: Seq<World>, steps: Seq<Step>, k: int) -> nat {
    count(worlds, steps, k, |w: World, s: Step| releases(w, s))
}

/// A race before the singleton lock was given to either.
spec fn nobody_yet(w: World, grants: nat, takes: nat, releases: nat) -> bool {
    &&& w.owner is None
    &&& forall|i: int| #[trigger]
        w.daemons.contains_key(i) ==> undecided(w.daemons[i].stands)
    &&& grants == 0 && takes == 0 && releases == 0
}

/// Where the daemon that was given the singleton lock can stand, and what it has
/// done.
spec fn winner_stands(s: DaemonStateView, takes: nat, releases: nat) -> bool {
    match s {
        DaemonStateView::Acquire => takes == 0 && releases == 0,
        DaemonStateView::Describe(_) => takes == 1 && releases == 0,
        DaemonStateView::Publish(_, _) => takes == 1 && releases == 0,
        DaemonStateView::RemovePending(_) => takes == 1 && releases == 0,
        DaemonStateView::Serve(_) => takes == 1 && releases == 0,
        DaemonStateView::RemoveState(r) => r is Ok && takes == 1 && releases == 0,
        DaemonStateView::ReleaseGuard(r) => r is Ok && takes == 1 && releases == 0,
        DaemonStateView::ReleaseSingleton(r) => r is Ok && takes == 1 && releases == 1,
        DaemonStateView::Finished(r) => r is Ok && takes == 1 && releases == 1,
        _ => false,
    }
}

/// Whether a daemon has stopped serving.
spec fn past_serving(s: DaemonStateView) -> bool {
    s is RemoveState || s is ReleaseGuard || s is ReleaseSingleton || s is Finished
}

/// A race in which the singleton lock was given to `winner`.
spec fn somebody_won(
    w: World,
    winner: int,
    other: int,
    grants: nat,
    takes: nat,
    releases: nat,
) -> bool {
    &&& grants == 1
    &&& w.daemons.contains_key(winner)
    &&& winner_stands(w.daemons[winner].stands, takes, releases)
    &&& w.owner == if w.daemons[winner].stands is Finished {
        None
    } else {
        Some(winner)
    }
    &&& w.daemons.contains_key(other) ==> undecided(w.daemons[other].stands) || ended_well(
        w.daemons[other].stands,
    )
    &&& past_serving(w.daemons[winner].stands) ==> w.daemons.contains_key(other) && ended_well(
        w.daemons[other].stands,
    )
}

/// What holds in every world of a race.
spec fn race_invariant(
    w: World,
    a: int,
    b: int,
    grants: nat,
    takes: nat,
    releases: nat,
) -> bool {
    &&& forall|i: int| #[trigger] w.daemons.contains_key(i) ==> i == a || i == b
    &&& {
        ||| nobody_yet(w, grants, takes, releases)
        ||| somebody_won(w, a, b, grants, takes, releases)
        ||| somebody_won(w, b, a, grants, takes, releases)
    }
}

proof fn race_invariant_holds(worlds: Seq<World>, steps: Seq<Step>, a: int, b: int, k: int)
    requires
        race(worlds, steps, a, b),
        0 <= k < worlds.len(),
    ensures
        race_invariant(
            worlds[k],
            a,
            b,
            granted(worlds, steps, k),
            taken(worlds, steps, k),
            released(worlds, steps, k),
        ),
    decreases k,
{
    if k > 0 {
        race_invariant_holds(worlds, steps, a, b, k - 1);
        let w = worlds[k - 1];
        let step = steps[k - 1];
        assert(leads(w, worlds[k - 1 + 1], step));
        assert(race_step(w, step, a, b));
        race_invariant_steps(
            w,
            worlds[k],
            step,
            a,
            b,
            granted(worlds, steps, k - 1),
            taken(worlds, steps, k - 1),
            released(worlds, steps, k - 1),
        );
    }
}

proof fn race_invariant_steps(
    w: World,
    w2: World,
    step: Step,
    a: int,
    b: int,
    g: nat,
    t: nat,
    l: nat,
)
    requires
        a != b,
        race_invariant(w, a, b, g, t, l),
        leads(w, w2, step),
        race_step(w, step, a, b),
    ensures
        race_invariant(
            w2,
            a,
            b,
            (g + if grants(w, step) {
                1nat
            } else {
                0nat
            }) as nat,
            (t + if takes(w, step) {
                1nat
            } else {
                0nat
            }) as nat,
            (l + if releases(w, step) {
                1nat
            } else {
                0nat
            }) as nat,
        ),
{
    if somebody_won(w, a, b, g, t, l) {
        won_race_steps(w, w2, step, a, b, g, t, l);
    } else if somebody_won(w, b, a, g, t, l) {
        won_race_steps(w, w2, step, b, a, g, t, l);
    } else {
        open_race_steps(w, w2, step, a, b, g, t, l);
    }
}

proof fn open_race_steps(
    w: World,
    w2: World,
    step: Step,
    a: int,
    b: int,
    g: nat,
    t: nat,
    l: nat,
)
    requires
        a != b,
        forall|i: int| #[trigger] w.daemons.contains_key(i) ==> i == a || i == b,
        nobody_yet(w, g, t, l),
        leads(w, w2, step),
        race_step(w, step, a, b),
    ensures
        race_invariant(
            w2,
            a,
            b,
            (g + if grants(w, step) {
                1nat
            } else {
                0nat
            }) as nat,
            (t + if takes(w, step) {
                1nat
            } else {
                0nat
            }) as nat,
            (l + if releases(w, step) {
                1nat
            } else {
                0nat
            }) as nat,
        ),
{
    if let Step::GoesOn(i, event) = step {
        assert(w.daemons.contains_key(i));
        let other = if i == a {
            b
        } else {
            a
        };
        if w.daemons[i].stands is Claim && event is Claimed {
            assert(event == DaemonEventView::Claimed(Ok(true)));
            assert(w2.daemons[i].stands is Acquire);
            assert(somebody_won(w2, i, other, 1, 0, 0));
        } else {
            assert(undecided(w2.daemons[i].stands)) by {
                if w.daemons[i].stands is Ping && event is Pinged {
                    assert(forall|j: int| #[trigger]
                        w.daemons.contains_key(j) ==> undecided(w.daemons[j].stands));
                }
            }
            assert(nobody_yet(w2, g, t, l));
        }
    } else {
        assert(nobody_yet(w2, g, t, l));
    }
}

proof fn won_race_steps(
    w: World,
    w2: World,
    step: Step,
    winner: int,
    other: int,
    g: nat,
    t: nat,
    l: nat,
)
    requires
        winner != other,
        forall|i: int| #[trigger] w.daemons.contains_key(i) ==> i == winner || i == other,
        somebody_won(w, winner, other, g, t, l),
        leads(w, w2, step),
        race_step(w, step, winner, other) || race_step(w, step, other, winner),
    ensures
        forall|i: int| #[trigger] w2.daemons.contains_key(i) ==> i == winner || i == other,
        somebody_won(
            w2,
            winner,
            other,
            (g + if grants(w, step) {
                1nat
            } else {
                0nat
            }) as nat,
            (t + if takes(w, step) {
                1nat
            } else {
                0nat
            }) as nat,
            (l + if releases(w, step) {
                1nat
            } else {
                0nat
            }) as nat,
        ),
{
    if let Step::GoesOn(i, event) = step {
        assert(w.daemons.contains_key(i));
        if i == winner {
            assert(w2.daemons.contains_key(other) == w.daemons.contains_key(other));
        } else {
            assert(i == other);
            assert(w2.daemons[winner] == w.daemons[winner]);
        }
    }
}

/// Of two daemons that race, exactly one takes the wake lock. Once both have
/// passed the claim, the singleton lock was given to exactly one of them, and the
/// other has ended well. At most one backend was asked for the wake lock: none
/// before the daemon that was given the singleton lock asks, and one from then
/// on. From the time it has the wake lock until it releases it, this is the only
/// wake lock there is, and nobody else serves.
pub proof fn exactly_one_of_two_takes_the_lock(
    worlds: Seq<World>,
    steps: Seq<Step>,
    a: int,
    b: int,
    k: int,
)
    requires
        race(worlds, steps, a, b),
        0 <= k < worlds.len(),
        decided(worlds[k], a),
        decided(worlds[k], b),
    ensures
        granted(worlds, steps, k) == 1,
        exists|winner: int, other: int|
            #![trigger worlds[k].daemons[winner], worlds[k].daemons[other]]
            {
                let stands = worlds[k].daemons[winner].stands;
                &&& (winner == a && other == b) || (winner == b && other == a)
                &&& ended_well(worlds[k].daemons[other].stands)
                &&& holds_singleton(stands) || ended_well(stands)
                &&& taken(worlds, steps, k) == if stands is Acquire {
                    0nat
                } else {
                    1nat
                }
                &&& released(worlds, steps, k) == if stands is ReleaseSingleton || stands
                    is Finished {
                    1nat
                } else {
                    0nat
                }
                &&& worlds[k].guards =~= if holds_guard(stands) {
                    set![winner]
                } else {
                    Set::empty()
                }
            },
{
    race_invariant_holds(worlds, steps, a, b, k);
    told_history_is_history(worlds, steps);
    invariant_holds_always(worlds, k);
    let w = worlds[k];
    let g = granted(worlds, steps, k);
    let t = taken(worlds, steps, k);
    let l = released(worlds, steps, k);
    let (winner, other) = if somebody_won(w, a, b, g, t, l) {
        (a, b)
    } else {
        (b, a)
    };
    assert(somebody_won(w, winner, other, g, t, l));
    let stands = w.daemons[winner].stands;
    assert(ended_well(w.daemons[other].stands));
    assert forall|i: int| #[trigger] w.guards.contains(i) <==> i == winner && holds_guard(
        stands,
    ) by {
        if w.guards.contains(i) {
            assert(w.daemons.contains_key(i));
        }
    }
    assert(w.guards =~= if holds_guard(stands) {
        set![winner]
    } else {
        Set::empty()
    });
}

/// After the stop both daemons of a race end well, one wake lock was taken and
/// that one was released, and nothing is held.
pub proof fn both_of_two_end_well(
    worlds: Seq<World>,
    steps: Seq<Step>,
    a: int,
    b: int,
    k: int,
)
    requires
        race(worlds, steps, a, b),
        0 <= k < worlds.len(),
        worlds[k].daemons.contains_key(a),
        worlds[k].daemons.contains_key(b),
        worlds[k].daemons[a].stands is Finished,
        worlds[k].daemons[b].stands is Finished,
    ensures
        ended_well(worlds[k].daemons[a].stands),
        ended_well(worlds[k].daemons[b].stands),
        granted(worlds, steps, k) == 1,
        taken(worlds, steps, k) == 1,
        released(worlds, steps, k) == 1,
        worlds[k].owner is None,
        forall|i: int| !worlds[k].guards.contains(i),
{
    race_invariant_holds(worlds, steps, a, b, k);
    told_history_is_history(worlds, steps);
    invariant_holds_always(worlds, k);
    let w = worlds[k];
    assert forall|i: int| !w.guards.contains(i) by {
        if w.guards.contains(i) {
            assert(w.daemons.contains_key(i));
        }
    }
}

} // verus!
