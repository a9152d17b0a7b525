//! The clock runloop: it ticks once per slot and says when the blockhash expires.

use vstd::prelude::*;
use vstd::pervasive::unreached;

verus! {

/// The number of slots that a blockhash lives for.
pub const BLOCKHASH_SLOT_TTL: u64 = 75;

/// A command for the clock.
#[derive(Clone, Copy, Debug, PartialEq, Eq, Structural)]
pub enum ClockCommand {
    Pause,
    Resume,
    Toggle,
    /// Sets the length of a slot, in milliseconds.
    UpdateSlotInterval(u64),
}

/// What the clock tells the block production runloop.
#[derive(Clone, Copy, Debug, PartialEq, Eq, Structural)]
pub enum ClockEvent {
    /// A slot has passed.
    Tick,
    /// The blockhash has outlived its slots.
    ExpireBlockHash,
}

/// What the runloop asks to have done.
#[derive(Clone, Copy, Debug, PartialEq, Eq, Structural)]
pub enum ClockAction {
    /// Start the timer anew.
    RestartTimer,
    /// Look for a command, without waiting for one.
    Poll,
    /// Sleep for this many milliseconds.
    Sleep(u64),
    /// Send an event.
    SendEvent(ClockEvent),
    /// Read the timer.
    ReadTimer,
}

/// What came of an action.
#[derive(Clone, Copy, Debug, PartialEq, Eq, Structural)]
pub enum ClockInput {
    /// The timer was started anew.
    Restarted,
    /// The command that was found, if any.
    Polled(Option<ClockCommand>),
    /// The sleep is over.
    Slept,
    /// The event was sent.
    Sent,
    /// The nanoseconds since the timer was last started.
    Elapsed(u128),
}

/// Where the runloop stands.
#[derive(Clone, Copy, Debug, PartialEq, Eq, Structural)]
pub enum ClockPhase {
    Restarting,
    Polling,
    Sleeping,
    Ticking,
    Measuring,
    Expiring,
}

/// The clock runloop, with the length of a slot in milliseconds.
#[derive(Clone, Copy, Debug, PartialEq, Eq, Structural)]
pub struct ClockRunloop {
    pub slot_time: u64,
    pub enabled: bool,
    pub phase: ClockPhase,
}

/// The life of a blockhash, in milliseconds.
pub open spec fn blockhash_life(slot_time: u64) -> int {
    BLOCKHASH_SLOT_TTL * slot_time
}

/// A blockhash has expired when more time has passed than its life.
pub open spec fn outlives(elapsed_nanos: u128, slot_time: u64) -> bool {
    elapsed_nanos > blockhash_life(slot_time) * 1_000_000
}

impl ClockRunloop {
    /// The input answers the action that the runloop last asked for.
    pub open spec fn expects(self, input: ClockInput) -> bool {
        match self.phase {
            ClockPhase::Restarting => input is Restarted,
            ClockPhase::Polling => input is Polled,
            ClockPhase::Sleeping => input is Slept,
            ClockPhase::Ticking => input is Sent,
            ClockPhase::Measuring => input is Elapsed,
            ClockPhase::Expiring => input is Sent,
        }
    }

    /// A clock with slots of the given length, before its timer is started.
    pub open spec fn started(slot_time: u64) -> Self {
        ClockRunloop { slot_time, enabled: true, phase: ClockPhase::Restarting }
    }

    /// The life of a blockhash can be computed in 64 bits when it is needed.
    pub open spec fn measurable(self) -> bool {
        self.phase is Measuring ==> blockhash_life(self.slot_time) <= u64::MAX
    }

    /// The same runloop in another phase.
    pub open spec fn at(self, phase: ClockPhase) -> Self {
        ClockRunloop { phase, ..self }
    }

    /// The runloop with a command carried out.
    pub open spec fn commanded(self, command: Option<ClockCommand>) -> Self {
        match command {
            Some(ClockCommand::Pause) => ClockRunloop { enabled: false, ..self },
            Some(ClockCommand::Resume) => ClockRunloop { enabled: true, ..self },
            Some(ClockCommand::Toggle) => ClockRunloop { enabled: !self.enabled, ..self },
            Some(ClockCommand::UpdateSlotInterval(slot_time)) => ClockRunloop {
                slot_time,
                ..self
            },
            None => self,
        }
    }

    /// The runloop after an input, and what it asks for next.
    pub open spec fn next(self, input: ClockInput) -> (Self, ClockAction) {
        match (self.phase, input) {
            (ClockPhase::Polling, ClockInput::Polled(command)) => {
                let commanded = self.commanded(command);
                (commanded.at(ClockPhase::Sleeping), ClockAction::Sleep(commanded.slot_time))
            },
            (ClockPhase::Sleeping, ClockInput::Slept) if self.enabled => (
                self.at(ClockPhase::Ticking),
                ClockAction::SendEvent(ClockEvent::Tick),
            ),
            (ClockPhase::Ticking, ClockInput::Sent) => (
                self.at(ClockPhase::Measuring),
                ClockAction::ReadTimer,
            ),
            (ClockPhase::Measuring, ClockInput::Elapsed(nanos)) if outlives(
                nanos,
                self.slot_time,
            ) => (
                self.at(ClockPhase::Expiring),
                ClockAction::SendEvent(ClockEvent::ExpireBlockHash),
            ),
            (ClockPhase::Expiring, ClockInput::Sent) => (
                self.at(ClockPhase::Restarting),
                ClockAction::RestartTimer,
            ),
            _ => (self.at(ClockPhase::Polling), ClockAction::Poll),
        }
    }

    /// Carries out a command.
    pub fn command(&mut self, command: Option<ClockCommand>)
        ensures
            *final(self) == old(self).commanded(command),
            final(self).phase == old(self).phase,
            command is None ==> *final(self) == *old(self),
            command == Some(ClockCommand::Pause) ==> !final(self).enabled,
            command == Some(ClockCommand::Resume) ==> final(self).enabled,
            command == Some(ClockCommand::Toggle) ==> final(self).enabled == !old(self).enabled,
            command matches Some(ClockCommand::UpdateSlotInterval(slot_time)) ==> {
                &&& final(self).slot_time == slot_time
                &&& final(self).enabled == old(self).enabled
            },
    {
        match command {
            Some(ClockCommand::Pause) => {
                self.enabled = false;
            },
            Some(ClockCommand::Resume) => {
                self.enabled = true;
            },
            Some(ClockCommand::Toggle) => {
                self.enabled = !self.enabled;
            },
            Some(ClockCommand::UpdateSlotInterval(slot_time)) => {
                self.slot_time = slot_time;
            },
            None => {},
        }
    }

    /// Takes what came of the last action and says what to do next.
    pub fn step(&mut self, input: ClockInput) -> (action: ClockAction)
        requires
            old(self).expects(input),
            old(self).measurable(),
        ensures
            (*final(self), action) == old(self).next(input),
    {
        match (self.phase, input) {
            (ClockPhase::Polling, ClockInput::Polled(command)) => {
                self.command(command);
                self.phase = ClockPhase::Sleeping;
                ClockAction::Sleep(self.slot_time)
            },
            (ClockPhase::Sleeping, _) => {
                if self.enabled {
                    self.phase = ClockPhase::Ticking;
                    ClockAction::SendEvent(ClockEvent::Tick)
                } else {
                    self.phase = ClockPhase::Polling;
                    ClockAction::Poll
                }
            },
            (ClockPhase::Ticking, _) => {
                self.phase = ClockPhase::Measuring;
                ClockAction::ReadTimer
            },
            (ClockPhase::Measuring, ClockInput::Elapsed(nanos)) => {
                if blockhash_expired(nanos, self.slot_time) {
                    self.phase = ClockPhase::Expiring;
                    ClockAction::SendEvent(ClockEvent::ExpireBlockHash)
                } else {
                    self.phase = ClockPhase::Polling;
                    ClockAction::Poll
                }
            },
            (ClockPhase::Expiring, _) => {
                self.phase = ClockPhase::Restarting;
                ClockAction::RestartTimer
            },
            (ClockPhase::Restarting, _) => {
                self.phase = ClockPhase::Polling;
                ClockAction::Poll
            },
            _ => unreached(),
        }
    }
}

/// Whether a blockhash has expired after so many nanoseconds.
pub fn blockhash_expired(elapsed_nanos: u128, slot_time: u64) -> (expired: bool)
    requires
        blockhash_life(slot_time) <= u64::MAX,
    ensures
        expired == outlives(elapsed_nanos, slot_time),
        expired <==> elapsed_nanos > 75 * slot_time * 1_000_000,
{
    let life_millis: u64 = BLOCKHASH_SLOT_TTL * slot_time;
    elapsed_nanos > life_millis as u128 * 1_000_000
}

/// A running clock with slots of the given length, which starts its timer.
pub fn start_clock_runloop(slot_time: u64) -> (result: (ClockRunloop, ClockAction))
    ensures
        result.0 == ClockRunloop::started(slot_time),
        result.0 == (ClockRunloop { slot_time, enabled: true, phase: ClockPhase::Restarting }),
        result.1 == ClockAction::RestartTimer,
{
    (
        ClockRunloop { slot_time, enabled: true, phase: ClockPhase::Restarting },
        ClockAction::RestartTimer,
    )
}

impl ClockRunloop {
    /// Each of the inputs answers the action before it.
    pub open spec fn follows(self, inputs: Seq<ClockInput>) -> bool
        decreases inputs.len(),
    {
        inputs.len() == 0 || {
            &&& self.expects(inputs[0])
            &&& self.measurable()
            &&& self.next(inputs[0]).0.follows(inputs.drop_first())
        }
    }

    /// The runloop after a series of inputs, and what it asked for after each.
    pub open spec fn run(self, inputs: Seq<ClockInput>) -> (Self, Seq<ClockAction>)
        decreases inputs.len(),
    {
        if inputs.len() == 0 {
            (self, Seq::empty())
        } else {
            let (state, action) = self.next(inputs[0]);
            let (last, actions) = state.run(inputs.drop_first());
            (last, seq![action] + actions)
        }
    }

    /// The inputs of one round: the command that was found, and the time on the
    /// timer once the slot has passed.
    pub open spec fn round_inputs(self, round: ClockRound) -> Seq<ClockInput> {
        let commanded = self.commanded(round.command);
        seq![ClockInput::Polled(round.command), ClockInput::Slept] + if !commanded.enabled {
            seq![]
        } else if outlives(round.elapsed_nanos, commanded.slot_time) {
            seq![
                ClockInput::Sent,
                ClockInput::Elapsed(round.elapsed_nanos),
                ClockInput::Sent,
                ClockInput::Restarted,
            ]
        } else {
            seq![ClockInput::Sent, ClockInput::Elapsed(round.elapsed_nanos)]
        }
    }

    /// What a runloop with these settings does in a slot that ends with so many
    /// nanoseconds on the timer.
    pub open spec fn slot_actions(self, elapsed_nanos: u128) -> Seq<ClockAction> {
        seq![ClockAction::Sleep(self.slot_time)] + if !self.enabled {
            seq![ClockAction::Poll]
        } else if outlives(elapsed_nanos, self.slot_time) {
            seq![
                ClockAction::SendEvent(ClockEvent::Tick),
                ClockAction::ReadTimer,
                ClockAction::SendEvent(ClockEvent::ExpireBlockHash),
                ClockAction::RestartTimer,
                ClockAction::Poll,
            ]
        } else {
            seq![
                ClockAction::SendEvent(ClockEvent::Tick),
                ClockAction::ReadTimer,
                ClockAction::Poll,
            ]
        }
    }

    /// What a runloop with these settings sends in a slot that ends with so
    /// many nanoseconds on the timer.
    pub open spec fn slot_events(self, elapsed_nanos: u128) -> Seq<ClockEvent> {
        if !self.enabled {
            seq![]
        } else if outlives(elapsed_nanos, self.slot_time) {
            seq![ClockEvent::Tick, ClockEvent::ExpireBlockHash]
        } else {
            seq![ClockEvent::Tick]
        }
    }

    /// The life of a blockhash can be computed in each of the rounds in which the
    /// clock runs.
    pub open spec fn can_run_rounds(self, rounds: Seq<ClockRound>) -> bool
        decreases rounds.len(),
    {
        rounds.len() == 0 || {
            let commanded = self.commanded(rounds[0].command);
            &&& commanded.enabled ==> blockhash_life(commanded.slot_time) <= u64::MAX
            &&& commanded.can_run_rounds(rounds.drop_first())
        }
    }

    /// The inputs of a series of rounds.
    pub open spec fn rounds_inputs(self, rounds: Seq<ClockRound>) -> Seq<ClockInput>
        decreases rounds.len(),
    {
        if rounds.len() == 0 {
            Seq::empty()
        } else {
            self.round_inputs(rounds[0]) + self.commanded(rounds[0].command).rounds_inputs(
                rounds.drop_first(),
            )
        }
    }

    /// The runloop with the commands of a series of rounds carried out.
    pub open spec fn after_rounds(self, rounds: Seq<ClockRound>) -> Self
        decreases rounds.len(),
    {
        if rounds.len() == 0 {
            self
        } else {
            self.commanded(rounds[0].command).after_rounds(rounds.drop_first())
        }
    }

    /// What the runloop sends in a series of rounds.
    pub open spec fn rounds_events(self, rounds: Seq<ClockRound>) -> Seq<ClockEvent>
        decreases rounds.len(),
    {
        if rounds.len() == 0 {
            Seq::empty()
        } else {
            let commanded = self.commanded(rounds[0].command);
            commanded.slot_events(rounds[0].elapsed_nanos) + commanded.rounds_events(
                rounds.drop_first(),
            )
        }
    }
}

/// One round of the clock, as seen from outside.
pub ghost struct ClockRound {
    pub command: Option<ClockCommand>,
    pub elapsed_nanos: u128,
}

/// The events that the actions send, in order.
pub open spec fn sent(actions: Seq<ClockAction>) -> Seq<ClockEvent>
    decreases actions.len(),
{
    if actions.len() == 0 {
        Seq::empty()
    } else {
        let before = sent(actions.drop_last());
        match actions.last() {
            ClockAction::SendEvent(event) => before.push(event),
            _ => before,
        }
    }
}

proof fn lemma_run_append(state: ClockRunloop, first: Seq<ClockInput>, second: Seq<ClockInput>)
    ensures
        state.run(first + second).0 == state.run(first).0.run(second).0,
        state.run(first + second).1 == state.run(first).1 + state.run(first).0.run(second).1,
        state.follows(first) && state.run(first).0.follows(second) ==> state.follows(
            first + second,
        ),
    decreases first.len(),
{
    if first.len() == 0 {
        assert(first + second =~= second);
        assert(state.run(first + second).1 =~= state.run(first).1 + state.run(
            first,
        ).0.run(second).1);
    } else {
        lemma_run_append(state.next(first[0]).0, first.drop_first(), second);
        assert((first + second).drop_first() =~= first.drop_first() + second);
        assert(state.run(first + second).1 =~= state.run(first).1 + state.run(
            first,
        ).0.run(second).1);
    }
}

proof fn lemma_sent_append(first: Seq<ClockAction>, second: Seq<ClockAction>)
    ensures
        sent(first + second) == sent(first) + sent(second),
    decreases second.len(),
{
    if second.len() == 0 {
        assert(first + second =~= first);
    } else {
        lemma_sent_append(first, second.drop_last());
        assert((first + second).drop_last() =~= first + second.drop_last());
        assert(sent(first + second) =~= sent(first) + sent(second));
    }
}

/// One round carries out the command, sleeps for one slot, of the length that
/// the command may just have set, and sends what is due: nothing from a paused
/// clock, else a tick, and behind it, where the timer shows more than the life
/// of a blockhash, that it expired; then the timer is started anew.
pub proof fn law_round(state: ClockRunloop, round: ClockRound)
    requires
        state.phase is Polling,
        state.commanded(round.command).enabled ==> blockhash_life(
            state.commanded(round.command).slot_time,
        ) <= u64::MAX,
    ensures
        ({
            let commanded = state.commanded(round.command);
            let (last, actions) = state.run(state.round_inputs(round));
            &&& state.follows(state.round_inputs(round))
            &&& last == commanded
            &&& actions == commanded.slot_actions(round.elapsed_nanos)
            &&& sent(actions) == commanded.slot_events(round.elapsed_nanos)
        }),
{
    reveal_with_fuel(ClockRunloop::run, 7);
    reveal_with_fuel(ClockRunloop::follows, 7);
    let commanded = state.commanded(round.command);
    let actions = commanded.slot_actions(round.elapsed_nanos);
    assert(state.run(state.round_inputs(round)).1 =~= actions);
    assert(sent(actions) =~= commanded.slot_events(round.elapsed_nanos)) by {
        reveal_with_fuel(sent, 7);
    }
}

/// In a series of rounds the commands add up, one per round, and the events are
/// those of the rounds, in order.
pub proof fn law_rounds(state: ClockRunloop, rounds: Seq<ClockRound>)
    requires
        state.phase is Polling,
        state.can_run_rounds(rounds),
    ensures
        state.follows(state.rounds_inputs(rounds)),
        state.run(state.rounds_inputs(rounds)).0 == state.after_rounds(rounds),
        sent(state.run(state.rounds_inputs(rounds)).1) == state.rounds_events(rounds),
    decreases rounds.len(),
{
    if rounds.len() > 0 {
        let first = state.round_inputs(rounds[0]);
        let commanded = state.commanded(rounds[0].command);
        let rest = commanded.rounds_inputs(rounds.drop_first());
        law_round(state, rounds[0]);
        law_rounds(commanded, rounds.drop_first());
        lemma_run_append(state, first, rest);
        lemma_sent_append(state.run(first).1, commanded.run(rest).1);
    }
}

proof fn lemma_paused_clock_can_run(state: ClockRunloop, rounds: Seq<ClockRound>)
    requires
        !state.enabled,
        forall|i: int|
            0 <= i < rounds.len() ==> (#[trigger] rounds[i]).command != Some(ClockCommand::Resume)
                && rounds[i].command != Some(ClockCommand::Toggle),
    ensures
        state.can_run_rounds(rounds),
        !state.after_rounds(rounds).enabled,
        state.rounds_events(rounds) == Seq::<ClockEvent>::empty(),
    decreases rounds.len(),
{
    if rounds.len() > 0 {
        assert(rounds[0].command != Some(ClockCommand::Resume));
        lemma_paused_clock_can_run(state.commanded(rounds[0].command), rounds.drop_first());
        assert(state.rounds_events(rounds) =~= Seq::empty());
    }
}

/// A paused clock sends nothing, and stays paused, until a command resumes or
/// toggles it, whatever the length of its slots.
pub proof fn law_paused_clock_is_silent(state: ClockRunloop, rounds: Seq<ClockRound>)
    requires
        state.phase is Polling,
        !state.enabled,
        forall|i: int|
            0 <= i < rounds.len() ==> (#[trigger] rounds[i]).command != Some(ClockCommand::Resume)
                && rounds[i].command != Some(ClockCommand::Toggle),
    ensures
        state.follows(state.rounds_inputs(rounds)),
        !state.run(state.rounds_inputs(rounds)).0.enabled,
        sent(state.run(state.rounds_inputs(rounds)).1) == Seq::<ClockEvent>::empty(),
{
    lemma_paused_clock_can_run(state, rounds);
    law_rounds(state, rounds);
}

/// The event before the one at position `i` is a tick.
pub open spec fn is_behind_tick(events: Seq<ClockEvent>, i: int) -> bool {
    i > 0 && events[i - 1] == ClockEvent::Tick
}

/// Every expiry among the events is right behind a tick.
pub open spec fn expiries_follow_ticks(events: Seq<ClockEvent>) -> bool {
    forall|i: int|
        0 <= i < events.len() && events[i] == ClockEvent::ExpireBlockHash
            ==> #[trigger] is_behind_tick(events, i)
}

proof fn lemma_expiries_append(first: Seq<ClockEvent>, second: Seq<ClockEvent>)
    requires
        expiries_follow_ticks(first),
        expiries_follow_ticks(second),
    ensures
        expiries_follow_ticks(first + second),
{
    let both = first + second;
    assert forall|i: int|
        0 <= i < both.len() && both[i]
            == ClockEvent::ExpireBlockHash implies #[trigger] is_behind_tick(both, i) by {
        if i < first.len() {
            assert(is_behind_tick(first, i));
        } else {
            assert(is_behind_tick(second, i - first.len()));
        }
    }
}

/// A clock sends no expiry but right behind a tick.
pub proof fn law_expiry_follows_tick(state: ClockRunloop, rounds: Seq<ClockRound>)
    requires
        state.phase is Polling,
        state.can_run_rounds(rounds),
    ensures
        expiries_follow_ticks(sent(state.run(state.rounds_inputs(rounds)).1)),
    decreases rounds.len(),
{
    law_rounds(state, rounds);
    if rounds.len() > 0 {
        let commanded = state.commanded(rounds[0].command);
        let first = commanded.slot_events(rounds[0].elapsed_nanos);
        let rest = commanded.rounds_events(rounds.drop_first());
        law_expiry_follows_tick(commanded, rounds.drop_first());
        law_rounds(commanded, rounds.drop_first());
        lemma_expiries_append(first, rest);
    }
}

/// A pause leaves the clock paused, a resumption leaves it running, and a toggle
/// leaves it as it was not, whatever it was before and whatever the length of its
/// slots; an update of the interval, or no command, leaves it as it was. Toggling
/// twice changes nothing, pausing and resuming undo each other, and only an update
/// of the interval changes the length of a slot, and nothing else. No command
/// moves the runloop on.
pub proof fn law_commands(state: ClockRunloop, command: Option<ClockCommand>, slot_time: u64)
    ensures
        !state.commanded(Some(ClockCommand::Pause)).enabled,
        state.commanded(Some(ClockCommand::Resume)).enabled,
        state.commanded(Some(ClockCommand::Toggle)).enabled != state.enabled,
        state.commanded(None) == state,
        state.commanded(command).phase == state.phase,
        state.commanded(Some(ClockCommand::Toggle)).commanded(Some(ClockCommand::Toggle)) == state,
        state.enabled ==> state.commanded(Some(ClockCommand::Pause)).commanded(
            Some(ClockCommand::Resume),
        ) == state,
        !state.enabled ==> state.commanded(Some(ClockCommand::Resume)).commanded(
            Some(ClockCommand::Pause),
        ) == state,
        state.commanded(command).slot_time == (match command {
            Some(ClockCommand::UpdateSlotInterval(slot_time)) => slot_time,
            _ => state.slot_time,
        }),
        state.commanded(Some(ClockCommand::UpdateSlotInterval(slot_time))) == (ClockRunloop {
            slot_time,
            ..state
        }),
{
}

/// A blockhash lives for seventy-five slots: it has expired exactly when the timer,
/// which counts nanoseconds, shows more than that many slots of the given
/// milliseconds.
pub proof fn law_blockhash_lives_for_its_slots(elapsed_nanos: u128, slot_time: u64)
    ensures
        BLOCKHASH_SLOT_TTL == 75,
        blockhash_life(slot_time) == 75 * slot_time,
        outlives(elapsed_nanos, slot_time) <==> elapsed_nanos > 75 * slot_time * 1_000_000,
{
}

/// The clock ticks exactly when a running clock has slept, tells of an expiry
/// exactly when the timer that it read shows more than seventy-five slots, and
/// then, and only then, starts the timer anew. It sleeps for one slot of the length
/// that holds then, once it has looked for a command, and looks for one when
/// nothing else is left to do. It changes its settings on a command alone.
pub proof fn law_when_the_clock_acts(state: ClockRunloop, input: ClockInput)
    requires
        state.expects(input),
    ensures
        ({
            let (next, action) = state.next(input);
            &&& action == ClockAction::SendEvent(ClockEvent::Tick) <==> input is Slept
                && state.enabled
            &&& action == ClockAction::SendEvent(ClockEvent::ExpireBlockHash) <==> input is Elapsed
                && input->Elapsed_0 > 75 * state.slot_time * 1_000_000
            &&& action is ReadTimer <==> input is Sent && state.phase is Ticking
            &&& action is RestartTimer <==> input is Sent && state.phase is Expiring
            &&& action is Sleep <==> input is Polled
            &&& action is Sleep ==> action == ClockAction::Sleep(next.slot_time)
            &&& action is Poll <==> {
                ||| input is Restarted
                ||| input is Slept && !state.enabled
                ||| input is Elapsed && input->Elapsed_0 <= 75 * state.slot_time * 1_000_000
            }
            &&& input !is Polled ==> next.enabled == state.enabled && next.slot_time
                == state.slot_time
            &&& input == ClockInput::Polled(None) ==> next.enabled == state.enabled
                && next.slot_time == state.slot_time
        }),
{
}

/// The clock expects what answers the action that it asked for, and nothing else.
pub proof fn law_answer_is_expected(state: ClockRunloop, input: ClockInput, answer: ClockInput)
    requires
        state.expects(input),
    ensures
        ({
            let (next, action) = state.next(input);
            &&& next.expects(answer) <==> match action {
                ClockAction::RestartTimer => answer is Restarted,
                ClockAction::Poll => answer is Polled,
                ClockAction::Sleep(_) => answer is Slept,
                ClockAction::SendEvent(_) => answer is Sent,
                ClockAction::ReadTimer => answer is Elapsed,
            }
            &&& next.measurable() <==> (action is ReadTimer ==> 75 * next.slot_time <= u64::MAX)
        }),
{
}

/// From a clock that looks for a command to the next time that it does: it sleeps
/// for one slot of the length that the command leaves it. A clock that the command
/// leaves paused sends nothing. One that it leaves running sends a tick, and behind
/// it, exactly where the timer shows more than seventy-five slots, an expiry, after
/// which the timer is started anew.
pub proof fn law_slot_in_numbers(
    state: ClockRunloop,
    command: Option<ClockCommand>,
    slot_time: u64,
    enabled: bool,
    elapsed_nanos: u128,
)
    requires
        state.phase is Polling,
        command matches Some(ClockCommand::UpdateSlotInterval(update)) ==> slot_time == update,
        command !is Some || command->0 !is UpdateSlotInterval ==> slot_time == state.slot_time,
        command == Some(ClockCommand::Pause) ==> !enabled,
        command == Some(ClockCommand::Resume) ==> enabled,
        command == Some(ClockCommand::Toggle) ==> enabled != state.enabled,
        command is None || command->0 is UpdateSlotInterval ==> enabled == state.enabled,
        enabled ==> 75 * slot_time <= u64::MAX,
    ensures
        ({
            let inputs = seq![ClockInput::Polled(command), ClockInput::Slept] + if !enabled {
                seq![]
            } else if elapsed_nanos > 75 * slot_time * 1_000_000 {
                seq![
                    ClockInput::Sent,
                    ClockInput::Elapsed(elapsed_nanos),
                    ClockInput::Sent,
                    ClockInput::Restarted,
                ]
            } else {
                seq![ClockInput::Sent, ClockInput::Elapsed(elapsed_nanos)]
            };
            &&& state.follows(inputs)
            &&& state.run(inputs).0 == (ClockRunloop {
                slot_time,
                enabled,
                phase: ClockPhase::Polling,
            })
            &&& state.run(inputs).1 == seq![ClockAction::Sleep(slot_time)] + if !enabled {
                seq![ClockAction::Poll]
            } else if elapsed_nanos > 75 * slot_time * 1_000_000 {
                seq![
                    ClockAction::SendEvent(ClockEvent::Tick),
                    ClockAction::ReadTimer,
                    ClockAction::SendEvent(ClockEvent::ExpireBlockHash),
                    ClockAction::RestartTimer,
                    ClockAction::Poll,
                ]
            } else {
                seq![
                    ClockAction::SendEvent(ClockEvent::Tick),
                    ClockAction::ReadTimer,
                    ClockAction::Poll,
                ]
            }
        }),
{
    law_round(state, ClockRound { command, elapsed_nanos });
}

/// A new clock starts its timer and looks for a command; where it finds none, it
/// sleeps for one slot of the length that it was given, and ticks.
pub proof fn law_new_clock_runs(slot_time: u64)
    ensures
        ({
            let state = ClockRunloop::started(slot_time);
            let inputs = seq![ClockInput::Restarted, ClockInput::Polled(None), ClockInput::Slept];
            &&& state.follows(inputs)
            &&& state.run(inputs).1 == seq![
                ClockAction::Poll,
                ClockAction::Sleep(slot_time),
                ClockAction::SendEvent(ClockEvent::Tick),
            ]
        }),
{
    let state = ClockRunloop::started(slot_time);
    let inputs = seq![ClockInput::Restarted, ClockInput::Polled(None), ClockInput::Slept];
    reveal_with_fuel(ClockRunloop::run, 4);
    reveal_with_fuel(ClockRunloop::follows, 4);
    assert(state.run(inputs).1 =~= seq![
        ClockAction::Poll,
        ClockAction::Sleep(slot_time),
        ClockAction::SendEvent(ClockEvent::Tick),
    ]);
}

} // verus!
