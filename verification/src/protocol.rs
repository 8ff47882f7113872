//! The drive protocol, stated over a model of the world around the driver.
//!
//! The channel is a count of queued notifications and the future is a script
//! of what its coming polls will do. A run applies `next_step`, the decision
//! table that `react` implements, to what that world reports, over and over.
//! The laws below therefore hold of the decisions the driver takes, for every
//! future that a script can describe.

use crate::engine::{next_step, Event, Step};
use vstd::prelude::*;

verus! {

/// What one poll of the future does, as far as the driver can tell.
pub struct PollEffect<K> {
    /// The wake calls that reach the channel on account of this poll: those
    /// issued while it runs, and those issued later by a resource that it
    /// registered. A wake that comes late only makes the driver wait longer,
    /// and the model does not tell waiting from not waiting.
    pub wakes: nat,
    /// The value, if this poll completes the future.
    pub output: Option<K>,
}

/// The world around the driver.
pub struct World<K> {
    /// Notifications queued in the channel.
    pub queued: nat,
    /// What the future's coming polls will do, the next one first. Once the
    /// script is used up the future stays pending and arranges no more wakes.
    pub script: Seq<PollEffect<K>>,
    /// Polls made so far.
    pub polls: nat,
}

/// How a run ends.
pub struct Run<K> {
    /// The value that the drive returned, or `None` where the driver stays
    /// parked on an empty channel for good.
    pub output: Option<K>,
    /// Polls made in all.
    pub polls: nat,
    /// Notifications left in the channel, never to be read.
    pub queued: nat,
}

/// A step of the driver inside the model. A returned value travels with the
/// world it was returned in.
pub type ModelStep<K> = Step<(K, World<K>), World<K>>;

/// What the world reports inside the model.
pub type ModelEvent<K> = Event<(K, World<K>), World<K>>;

/// The world right after `start`: the priming notification is queued and
/// nothing has been polled.
pub open spec fn primed<K>(script: Seq<PollEffect<K>>) -> World<K> {
    World { queued: 1, script, polls: 0 }
}

/// What the next poll will do.
pub open spec fn next_effect<K>(world: World<K>) -> PollEffect<K> {
    if world.script.len() > 0 {
        world.script[0]
    } else {
        PollEffect { wakes: 0, output: None }
    }
}

/// The world after the next poll.
pub open spec fn polled<K>(world: World<K>) -> World<K> {
    World {
        queued: world.queued + next_effect(world).wakes,
        script: if world.script.len() > 0 {
            world.script.drop_first()
        } else {
            world.script
        },
        polls: world.polls + 1,
    }
}

/// A blocking receive on a channel that holds a notification: one is taken.
/// The driver keeps a sender of its own, so its receive never finds the
/// channel disconnected.
pub open spec fn park_in<K>(world: World<K>) -> ModelEvent<K>
    recommends
        world.queued > 0,
{
    Event::Notified(World { queued: (world.queued - 1) as nat, ..world })
}

/// One poll: the next effect takes place and says what the poll returns.
pub open spec fn poll_in<K>(world: World<K>) -> ModelEvent<K> {
    match next_effect(world).output {
        Some(value) => Event::Ready((value, polled(world))),
        None => Event::Pending(polled(world)),
    }
}

/// The wakes that the first `polls` polls of `script` arrange, taken
/// together.
pub open spec fn wakes_of<K>(script: Seq<PollEffect<K>>, polls: nat) -> nat
    decreases polls,
{
    if polls == 0 || script.len() == 0 {
        0
    } else {
        script[0].wakes + wakes_of(script.drop_first(), (polls - 1) as nat)
    }
}

/// A bound on the steps that a run can still take: two for each notification
/// that is queued or will ever be.
pub open spec fn fuel<K>(step: ModelStep<K>) -> nat {
    match step {
        Step::Wait(world) => 2 * (world.queued + wakes_of(world.script, world.script.len())) + 1,
        Step::Poll(world) => 2 * (world.queued + wakes_of(world.script, world.script.len())) + 2,
        Step::Return(_) => 0,
    }
}

/// The run from `step` on: the driver does what the step says, the world
/// answers, and `next_step` decides what follows. The run ends with a
/// returned value, or with the driver parked on an empty channel.
pub open spec fn run<K>(step: ModelStep<K>) -> Run<K>
    decreases fuel(step),
{
    match step {
        Step::Return(done) => Run {
            output: Some(done.0),
            polls: done.1.polls,
            queued: done.1.queued,
        },
        Step::Wait(world) => if world.queued > 0 {
            run(next_step(park_in(world)))
        } else {
            Run { output: None, polls: world.polls, queued: 0 }
        },
        Step::Poll(world) => run(next_step(poll_in(world))),
    }
}

/// The whole drive of a future that behaves as `script` says.
pub open spec fn drive<K>(script: Seq<PollEffect<K>>) -> Run<K> {
    run(Step::Wait(primed(script)))
}

/// Says that the first `pending` polls of `script` return pending and arrange
/// at least one wake each, and that the poll after them returns `value`.
pub open spec fn wakes_until_ready<K>(script: Seq<PollEffect<K>>, pending: nat, value: K) -> bool {
    &&& pending < script.len()
    &&& forall|i: int|
        0 <= i < pending ==> (#[trigger] script[i]).output is None && script[i].wakes >= 1
    &&& script[pending as int].output == Some(value)
}

/// Says that poll number `ready` of `script`, counted from zero, is the first
/// to return a value.
pub open spec fn first_ready<K>(script: Seq<PollEffect<K>>, ready: nat) -> bool {
    &&& ready < script.len()
    &&& forall|i: int| 0 <= i < ready ==> (#[trigger] script[i]).output is None
    &&& script[ready as int].output is Some
}

/// Says that a channel that starts with `queued` notifications does not run
/// dry before poll number `ready`: ahead of every poll up to that one, the
/// notifications queued so far outnumber the polls already made.
pub open spec fn never_starved<K>(script: Seq<PollEffect<K>>, queued: nat, ready: nat) -> bool {
    forall|polls: nat| polls <= ready ==> queued + #[trigger] wakes_of(script, polls) > polls
}

/// Says that `a` and `b` are the same up to poll number `ready`, which
/// returns the same value in both. The wakes of that poll, and all that the
/// scripts say of later polls, may differ.
pub open spec fn same_until_ready<K>(
    a: Seq<PollEffect<K>>,
    b: Seq<PollEffect<K>>,
    ready: nat,
) -> bool {
    &&& ready < a.len()
    &&& ready < b.len()
    &&& forall|i: int| 0 <= i < ready ==> a[i] == b[i]
    &&& a[ready as int].output is Some
    &&& a[ready as int].output == b[ready as int].output
}

/// One turn of the run: a wait on a channel that holds a notification leads
/// to the poll, and the poll to what `next_step` makes of it.
proof fn lemma_turn<K>(world: World<K>)
    requires
        world.queued > 0,
    ensures
        run(Step::Wait(world)) == run(
            next_step(poll_in(World { queued: (world.queued - 1) as nat, ..world })),
        ),
{
    let woken = World { queued: (world.queued - 1) as nat, ..world };
    assert(run(Step::Wait(world)) == run(Step::Poll(woken)));
}

proof fn lemma_woken_run_completes<K>(world: World<K>, pending: nat, value: K)
    requires
        world.queued >= 1,
        wakes_until_ready(world.script, pending, value),
    ensures
        run(Step::Wait(world)).output == Some(value),
        run(Step::Wait(world)).polls == world.polls + pending + 1,
    decreases pending,
{
    let next = polled(World { queued: (world.queued - 1) as nat, ..world });
    lemma_turn(world);
    if pending > 0 {
        lemma_woken_run_completes(next, (pending - 1) as nat, value);
    }
}

/// A future that returns pending `pending` times, arranging a wake each time,
/// and then returns `value` is polled exactly `pending + 1` times, and the
/// drive returns `value` as the future gave it.
pub proof fn lemma_self_waking_future_completes<K>(
    script: Seq<PollEffect<K>>,
    pending: nat,
    value: K,
)
    requires
        wakes_until_ready(script, pending, value),
    ensures
        drive(script).output == Some(value),
        drive(script).polls == pending + 1,
{
    lemma_woken_run_completes(primed(script), pending, value);
}

proof fn lemma_polls_only_grow<K>(step: ModelStep<K>)
    ensures
        match step {
            Step::Wait(world) => run(step).polls >= world.polls,
            Step::Poll(world) => run(step).polls >= world.polls,
            Step::Return(done) => run(step).polls == done.1.polls,
        },
    decreases fuel(step),
{
    match step {
        Step::Return(_) => {},
        Step::Wait(world) => {
            if world.queued > 0 {
                lemma_polls_only_grow(next_step(park_in(world)));
            }
        },
        Step::Poll(world) => {
            lemma_polls_only_grow(next_step(poll_in(world)));
        },
    }
}

/// The first poll always happens: the priming notification alone pays for it,
/// whatever the future does. A future that is ready on that first poll is
/// polled once and its value returned.
pub proof fn lemma_first_poll_happens<K>(script: Seq<PollEffect<K>>)
    ensures
        drive(script).polls >= 1,
        script.len() > 0 && script[0].output is Some ==> drive(script) == (Run {
            output: script[0].output,
            polls: 1,
            queued: script[0].wakes,
        }),
{
    let woken = World { queued: 0, ..primed(script) };
    lemma_turn(primed(script));
    lemma_polls_only_grow(next_step(poll_in(woken)));
}

proof fn lemma_run_ignores_what_follows_ready<K>(a: World<K>, b: World<K>, ready: nat)
    requires
        a.queued == b.queued,
        a.polls == b.polls,
        same_until_ready(a.script, b.script, ready),
    ensures
        run(Step::Wait(a)).output == run(Step::Wait(b)).output,
        run(Step::Wait(a)).polls == run(Step::Wait(b)).polls,
    decreases ready,
{
    if a.queued > 0 {
        let next_a = polled(World { queued: (a.queued - 1) as nat, ..a });
        let next_b = polled(World { queued: (b.queued - 1) as nat, ..b });
        lemma_turn(a);
        lemma_turn(b);
        if a.script[0].output is None {
            lemma_run_ignores_what_follows_ready(next_a, next_b, (ready - 1) as nat);
        }
    }
}

/// Wakes that arrive once the future has returned ready change neither the
/// value that the drive returns nor the number of polls: two futures that
/// differ only in the wakes of the ready poll and in what would come after it
/// are driven alike.
pub proof fn lemma_wakes_after_ready_change_nothing<K>(
    a: Seq<PollEffect<K>>,
    b: Seq<PollEffect<K>>,
    ready: nat,
)
    requires
        same_until_ready(a, b, ready),
    ensures
        drive(a).output == drive(b).output,
        drive(a).polls == drive(b).polls,
{
    lemma_run_ignores_what_follows_ready(primed(a), primed(b), ready);
}

proof fn lemma_run_accounts_for_notifications<K>(world: World<K>)
    ensures
        run(Step::Wait(world)).polls >= world.polls,
        run(Step::Wait(world)).queued + run(Step::Wait(world)).polls == world.queued + world.polls
            + wakes_of(world.script, (run(Step::Wait(world)).polls - world.polls) as nat),
        run(Step::Wait(world)).output is None ==> run(Step::Wait(world)).queued == 0,
    decreases fuel(Step::Wait(world)),
{
    if world.queued > 0 {
        let next = polled(World { queued: (world.queued - 1) as nat, ..world });
        lemma_turn(world);
        match next_effect(world).output {
            Some(_) => {
                assert(wakes_of(world.script, 1) == next_effect(world).wakes + wakes_of(
                    next.script,
                    0,
                ));
            },
            None => {
                lemma_run_accounts_for_notifications(next);
            },
        }
    }
}

/// Every poll spends exactly one notification, and no notification is lost
/// or counted twice: the polls made and the notifications left unread add up
/// to the priming notification and the wakes that those polls arranged. A
/// drive that returns nothing has used up every notification.
pub proof fn lemma_every_poll_spends_a_notification<K>(script: Seq<PollEffect<K>>)
    ensures
        drive(script).queued + drive(script).polls == 1 + wakes_of(script, drive(script).polls),
        drive(script).output is None ==> drive(script).queued == 0,
{
    lemma_run_accounts_for_notifications(primed(script));
}

proof fn lemma_fed_run_completes<K>(world: World<K>, ready: nat)
    requires
        first_ready(world.script, ready),
        never_starved(world.script, world.queued, ready),
    ensures
        run(Step::Wait(world)).output == world.script[ready as int].output,
        run(Step::Wait(world)).polls == world.polls + ready + 1,
    decreases ready,
{
    assert(world.queued + wakes_of(world.script, 0) > 0);
    let next = polled(World { queued: (world.queued - 1) as nat, ..world });
    lemma_turn(world);
    if ready > 0 {
        assert forall|polls: nat| polls <= ready - 1 implies next.queued + #[trigger] wakes_of(
            next.script,
            polls,
        ) > polls by {
            assert(world.queued + wakes_of(world.script, polls + 1) > polls + 1);
            assert(wakes_of(world.script, polls + 1) == world.script[0].wakes + wakes_of(
                next.script,
                polls,
            ));
        }
        lemma_fed_run_completes(next, (ready - 1) as nat);
    }
}

proof fn lemma_completed_run_was_fed<K>(world: World<K>) -> (ready: nat)
    requires
        run(Step::Wait(world)).output is Some,
    ensures
        first_ready(world.script, ready),
        never_starved(world.script, world.queued, ready),
    decreases fuel(Step::Wait(world)),
{
    let next = polled(World { queued: (world.queued - 1) as nat, ..world });
    lemma_turn(world);
    match next_effect(world).output {
        Some(_) => 0,
        None => {
            let rest = lemma_completed_run_was_fed(next);
            let ready = rest + 1;
            assert forall|i: int| 0 <= i < ready implies (#[trigger] world.script[i]).output is None by {
                if i > 0 {
                    assert(next.script[i - 1] == world.script[i]);
                }
            }
            assert forall|polls: nat| polls <= ready implies world.queued + #[trigger] wakes_of(
                world.script,
                polls,
            ) > polls by {
                if polls > 0 {
                    assert(next.queued + wakes_of(next.script, (polls - 1) as nat) > polls - 1);
                    assert(wakes_of(world.script, polls) == world.script[0].wakes + wakes_of(
                        next.script,
                        (polls - 1) as nat,
                    ));
                }
            }
            ready
        },
    }
}

/// The drive returns a value exactly when the future reaches its first ready
/// poll before the channel runs dry. It then returns the value of that poll
/// as it came, having polled once more than the future returned pending.
/// Otherwise the driver stays parked and returns nothing.
pub proof fn lemma_drive_returns_iff_never_starved<K>(script: Seq<PollEffect<K>>)
    ensures
        drive(script).output is Some <==> exists|ready: nat|
            first_ready(script, ready) && never_starved(script, 1, ready),
        forall|ready: nat|
            first_ready(script, ready) && never_starved(script, 1, ready) ==> drive(script).output
                == script[ready as int].output && drive(script).polls == ready + 1,
{
    if drive(script).output is Some {
        lemma_completed_run_was_fed(primed(script));
    }
    assert forall|ready: nat|
        first_ready(script, ready) && never_starved(script, 1, ready) implies drive(script).output
        == script[ready as int].output && drive(script).polls == ready + 1 by {
        lemma_fed_run_completes(primed(script), ready);
    }
}

} // verus!
