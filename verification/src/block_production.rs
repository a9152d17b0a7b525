//! The block production runloop: it decides when a block is produced, hands
//! transactions to the virtual machine, and passes clock commands on.

use vstd::prelude::*;
use vstd::pervasive::unreached;

use crate::clock::{ClockCommand, ClockEvent};

verus! {

/// Whether the ticks of the clock make the network produce blocks.
#[derive(Clone, Copy, Debug, PartialEq, Eq, Structural)]
pub enum BlockProductionMode {
    /// They do.
    Clock,
    /// They do not: only the expiry of a blockhash or a forward produces a block. A
    /// transaction is processed and produces none.
    Transaction,
    /// They do not: blocks are produced as in `Transaction`. A forward leaves the
    /// network in this mode.
    Manual,
}

/// A command of the user or of an RPC client.
#[derive(Debug)]
pub enum SimnetCommand<T, S> {
    SlotForward,
    SlotBackward,
    UpdateClock(ClockCommand),
    UpdateBlockProductionMode(BlockProductionMode),
    TransactionReceived { transaction: T, status_tx: S, skip_preflight: bool },
    Terminate,
}

/// What the runloop asks to have done.
#[derive(Debug)]
pub enum BlockAction<T, S, E> {
    /// Wait for a clock event or a command.
    Select,
    /// Send a command to the clock.
    SendClockCommand(ClockCommand),
    /// Acquire the virtual machine, for writing.
    AcquireSvm,
    /// Have the virtual machine process a transaction.
    ProcessTransaction { transaction: T, status_tx: S, skip_preflight: bool },
    /// Have the virtual machine confirm the processed transactions.
    ConfirmTransactions,
    /// Have the virtual machine finalize the confirmed transactions.
    FinalizeTransactions,
    /// Give the virtual machine a new blockhash.
    NewBlockhash,
    /// Release the virtual machine.
    ReleaseSvm,
    /// End the process with this code.
    Exit(i32),
    /// End the runloop with this error.
    Fail(E),
}

/// What came of an action.
#[derive(Debug)]
pub enum BlockInput<T, S, E> {
    /// The clock sent an event.
    Clock(ClockEvent),
    /// The clock is gone.
    ClockClosed,
    /// A command came.
    Command(SimnetCommand<T, S>),
    /// Nobody is left to send commands.
    CommandsClosed,
    /// The clock command was sent.
    Sent,
    /// The virtual machine was acquired.
    Acquired,
    /// The transaction was processed.
    Processed(Result<(), E>),
    /// The processed transactions were confirmed.
    Confirmed(Result<(), E>),
    /// The confirmed transactions were finalized.
    Finalized(Result<(), E>),
    /// The virtual machine has a new blockhash.
    Advanced,
    /// The virtual machine was released.
    Released,
}

/// Where the runloop stands.
#[derive(Debug)]
pub enum BlockPhase<T, S, E> {
    Selecting,
    Forwarding,
    AcquiringForTransaction { transaction: T, status_tx: S, skip_preflight: bool },
    Processing,
    AcquiringForBlock,
    Confirming,
    Finalizing,
    Advancing,
    /// Goes on, or fails, once the virtual machine is released.
    Releasing(Result<(), E>),
    Stopped,
}

/// The block production runloop.
#[derive(Debug)]
pub struct BlockRunloop<T, S, E> {
    pub mode: BlockProductionMode,
    pub phase: BlockPhase<T, S, E>,
}

impl<T, S, E> BlockRunloop<T, S, E> {
    /// The input answers the action that the runloop last asked for.
    pub open spec fn expects(self, input: BlockInput<T, S, E>) -> bool {
        match self.phase {
            BlockPhase::Selecting => {
                ||| input is Clock
                ||| input is ClockClosed
                ||| input is Command
                ||| input is CommandsClosed
            },
            BlockPhase::Forwarding => input is Sent,
            BlockPhase::AcquiringForTransaction { .. } => input is Acquired,
            BlockPhase::Processing => input is Processed,
            BlockPhase::AcquiringForBlock => input is Acquired,
            BlockPhase::Confirming => input is Confirmed,
            BlockPhase::Finalizing => input is Finalized,
            BlockPhase::Advancing => input is Advanced,
            BlockPhase::Releasing(_) => input is Released,
            BlockPhase::Stopped => false,
        }
    }

    /// A runloop in the given mode, which waits.
    pub open spec fn waiting(mode: BlockProductionMode) -> Self {
        BlockRunloop { mode, phase: BlockPhase::Selecting }
    }

    /// The same runloop in another phase.
    pub open spec fn at(self, phase: BlockPhase<T, S, E>) -> Self {
        BlockRunloop { mode: self.mode, phase }
    }

    /// Waits for what comes next.
    pub open spec fn select(self) -> (Self, BlockAction<T, S, E>) {
        (self.at(BlockPhase::Selecting), BlockAction::Select)
    }

    /// Starts to produce a block.
    pub open spec fn produce(self) -> (Self, BlockAction<T, S, E>) {
        (self.at(BlockPhase::AcquiringForBlock), BlockAction::AcquireSvm)
    }

    /// Releases the virtual machine, and then goes on or fails.
    pub open spec fn release(self, outcome: Result<(), E>) -> (Self, BlockAction<T, S, E>) {
        (self.at(BlockPhase::Releasing(outcome)), BlockAction::ReleaseSvm)
    }

    /// The runloop after a command, and what it asks for next.
    pub open spec fn commanded(self, command: SimnetCommand<T, S>) -> (
        Self,
        BlockAction<T, S, E>,
    ) {
        match command {
            SimnetCommand::SlotForward => BlockRunloop {
                mode: BlockProductionMode::Manual,
                ..self
            }.produce(),
            SimnetCommand::SlotBackward => self.select(),
            SimnetCommand::UpdateClock(update) => (
                self.at(BlockPhase::Forwarding),
                BlockAction::SendClockCommand(update),
            ),
            SimnetCommand::UpdateBlockProductionMode(mode) => BlockRunloop {
                mode,
                ..self
            }.select(),
            SimnetCommand::TransactionReceived { transaction, status_tx, skip_preflight } => (
                self.at(
                    BlockPhase::AcquiringForTransaction { transaction, status_tx, skip_preflight },
                ),
                BlockAction::<T, S, E>::AcquireSvm,
            ),
            SimnetCommand::Terminate => (self.at(BlockPhase::Stopped), BlockAction::Exit(0)),
        }
    }

    /// The runloop after an input, and what it asks for next.
    pub open spec fn next(self, input: BlockInput<T, S, E>) -> (Self, BlockAction<T, S, E>) {
        match (self.phase, input) {
            (BlockPhase::Selecting, BlockInput::Clock(ClockEvent::Tick)) => {
                if self.mode == BlockProductionMode::Clock {
                    self.produce()
                } else {
                    self.select()
                }
            },
            (BlockPhase::Selecting, BlockInput::Clock(ClockEvent::ExpireBlockHash)) => {
                self.produce()
            },
            (BlockPhase::Selecting, BlockInput::Command(command)) => self.commanded(command),
            (
                BlockPhase::AcquiringForTransaction { transaction, status_tx, skip_preflight },
                BlockInput::Acquired,
            ) => (
                self.at(BlockPhase::Processing),
                BlockAction::ProcessTransaction { transaction, status_tx, skip_preflight },
            ),
            (BlockPhase::Processing, BlockInput::Processed(outcome)) => self.release(outcome),
            (BlockPhase::AcquiringForBlock, BlockInput::Acquired) => (
                self.at(BlockPhase::Confirming),
                BlockAction::ConfirmTransactions,
            ),
            (BlockPhase::Confirming, BlockInput::Confirmed(Ok(_))) => (
                self.at(BlockPhase::Finalizing),
                BlockAction::FinalizeTransactions,
            ),
            (BlockPhase::Confirming, BlockInput::Confirmed(Err(error))) => {
                self.release(Err(error))
            },
            (BlockPhase::Finalizing, BlockInput::Finalized(Ok(_))) => (
                self.at(BlockPhase::Advancing),
                BlockAction::NewBlockhash,
            ),
            (BlockPhase::Finalizing, BlockInput::Finalized(Err(error))) => {
                self.release(Err(error))
            },
            (BlockPhase::Advancing, BlockInput::Advanced) => self.release(Ok(())),
            (BlockPhase::Releasing(Err(error)), BlockInput::Released) => (
                self.at(BlockPhase::Stopped),
                BlockAction::Fail(error),
            ),
            _ => self.select(),
        }
    }

    /// Takes what came of the last action and says what to do next.
    pub fn step(self, input: BlockInput<T, S, E>) -> (result: (Self, BlockAction<T, S, E>))
        requires
            self.expects(input),
        ensures
            result == self.next(input),
    {
        let BlockRunloop { mode, phase } = self;
        match (phase, input) {
            (BlockPhase::Selecting, BlockInput::Clock(event)) => {
                let produce = match event {
                    ClockEvent::Tick => mode == BlockProductionMode::Clock,
                    ClockEvent::ExpireBlockHash => true,
                };
                if produce {
                    Self::start_block(mode)
                } else {
                    Self::wait(mode)
                }
            },
            (BlockPhase::Selecting, BlockInput::Command(command)) => match command {
                SimnetCommand::SlotForward => Self::start_block(BlockProductionMode::Manual),
                SimnetCommand::SlotBackward => Self::wait(mode),
                SimnetCommand::UpdateClock(update) => (
                    BlockRunloop { mode, phase: BlockPhase::Forwarding },
                    BlockAction::SendClockCommand(update),
                ),
                SimnetCommand::UpdateBlockProductionMode(update) => Self::wait(update),
                SimnetCommand::TransactionReceived { transaction, status_tx, skip_preflight } => (
                    BlockRunloop {
                        mode,
                        phase: BlockPhase::AcquiringForTransaction {
                            transaction,
                            status_tx,
                            skip_preflight,
                        },
                    },
                    BlockAction::AcquireSvm,
                ),
                SimnetCommand::Terminate => (
                    BlockRunloop { mode, phase: BlockPhase::Stopped },
                    BlockAction::Exit(0),
                ),
            },
            (BlockPhase::Selecting, _) => Self::wait(mode),
            (BlockPhase::Forwarding, _) => Self::wait(mode),
            (
                BlockPhase::AcquiringForTransaction { transaction, status_tx, skip_preflight },
                _,
            ) => (
                BlockRunloop { mode, phase: BlockPhase::Processing },
                BlockAction::ProcessTransaction { transaction, status_tx, skip_preflight },
            ),
            (BlockPhase::Processing, BlockInput::Processed(outcome)) => {
                Self::hand_back(mode, outcome)
            },
            (BlockPhase::AcquiringForBlock, _) => (
                BlockRunloop { mode, phase: BlockPhase::Confirming },
                BlockAction::ConfirmTransactions,
            ),
            (BlockPhase::Confirming, BlockInput::Confirmed(outcome)) => match outcome {
                Ok(_) => (
                    BlockRunloop { mode, phase: BlockPhase::Finalizing },
                    BlockAction::FinalizeTransactions,
                ),
                Err(error) => Self::hand_back(mode, Err(error)),
            },
            (BlockPhase::Finalizing, BlockInput::Finalized(outcome)) => match outcome {
                Ok(_) => (
                    BlockRunloop { mode, phase: BlockPhase::Advancing },
                    BlockAction::NewBlockhash,
                ),
                Err(error) => Self::hand_back(mode, Err(error)),
            },
            (BlockPhase::Advancing, _) => Self::hand_back(mode, Ok(())),
            (BlockPhase::Releasing(outcome), _) => match outcome {
                Ok(_) => Self::wait(mode),
                Err(error) => (
                    BlockRunloop { mode, phase: BlockPhase::Stopped },
                    BlockAction::Fail(error),
                ),
            },
            _ => unreached(),
        }
    }

    fn wait(mode: BlockProductionMode) -> (result: (Self, BlockAction<T, S, E>))
        ensures
            result == (
                BlockRunloop::<T, S, E> { mode, phase: BlockPhase::Selecting },
                BlockAction::<T, S, E>::Select,
            ),
    {
        (BlockRunloop { mode, phase: BlockPhase::Selecting }, BlockAction::Select)
    }

    fn start_block(mode: BlockProductionMode) -> (result: (Self, BlockAction<T, S, E>))
        ensures
            result == (
                BlockRunloop::<T, S, E> { mode, phase: BlockPhase::AcquiringForBlock },
                BlockAction::<T, S, E>::AcquireSvm,
            ),
    {
        (BlockRunloop { mode, phase: BlockPhase::AcquiringForBlock }, BlockAction::AcquireSvm)
    }

    fn hand_back(mode: BlockProductionMode, outcome: Result<(), E>) -> (result: (
        Self,
        BlockAction<T, S, E>,
    ))
        ensures
            result == (
                BlockRunloop::<T, S, E> { mode, phase: BlockPhase::Releasing(outcome) },
                BlockAction::<T, S, E>::ReleaseSvm,
            ),
    {
        (
            BlockRunloop { mode, phase: BlockPhase::Releasing(outcome) },
            BlockAction::ReleaseSvm,
        )
    }
}

/// A runloop in the given mode, which waits for its first event or command.
pub fn start_block_production_runloop<T, S, E>(mode: BlockProductionMode) -> (result: (
    BlockRunloop<T, S, E>,
    BlockAction<T, S, E>,
))
    ensures
        result.0 == BlockRunloop::<T, S, E>::waiting(mode),
        result.0.mode == mode,
        result.0.phase is Selecting,
        result.1 is Select,
{
    BlockRunloop::wait(mode)
}

impl<T, S, E> BlockRunloop<T, S, E> {
    /// Each of the inputs answers the action before it.
    pub open spec fn follows(self, inputs: Seq<BlockInput<T, S, E>>) -> bool
        decreases inputs.len(),
    {
        inputs.len() == 0 || {
            &&& self.expects(inputs[0])
            &&& self.next(inputs[0]).0.follows(inputs.drop_first())
        }
    }

    /// The runloop after a series of inputs, and what it asked for after each.
    pub open spec fn run(self, inputs: Seq<BlockInput<T, S, E>>) -> (
        Self,
        Seq<BlockAction<T, S, E>>,
    )
        decreases inputs.len(),
    {
        if inputs.len() == 0 {
            (self, Seq::empty())
        } else {
            let (state, action) = self.next(inputs[0]);
            let (last, actions) = state.run(inputs.drop_first());
            (last, seq![action] + actions)
        }
    }

    /// The runloop has the virtual machine to itself.
    pub open spec fn holds_svm(self) -> bool {
        ||| self.phase is Processing
        ||| self.phase is Confirming
        ||| self.phase is Finalizing
        ||| self.phase is Advancing
        ||| self.phase is Releasing
    }

    /// The input has a waiting runloop produce a block.
    pub open spec fn produces_on(self, input: BlockInput<T, S, E>) -> bool {
        ||| input == BlockInput::<T, S, E>::Clock(ClockEvent::ExpireBlockHash)
        ||| input == BlockInput::<T, S, E>::Command(SimnetCommand::SlotForward)
        ||| {
            &&& input == BlockInput::<T, S, E>::Clock(ClockEvent::Tick)
            &&& self.mode == BlockProductionMode::Clock
        }
    }
}

/// The mode that a series of inputs leaves: the last forward or update decides.
pub open spec fn mode_after<T, S, E>(
    mode: BlockProductionMode,
    inputs: Seq<BlockInput<T, S, E>>,
) -> BlockProductionMode
    decreases inputs.len(),
{
    if inputs.len() == 0 {
        mode
    } else {
        match inputs.last() {
            BlockInput::Command(SimnetCommand::SlotForward) => BlockProductionMode::Manual,
            BlockInput::Command(SimnetCommand::UpdateBlockProductionMode(update)) => update,
            _ => mode_after(mode, inputs.drop_last()),
        }
    }
}

/// A block is started when the blockhash expires, when the slot is forwarded,
/// and, in clock mode, on a tick; nothing else starts one.
pub proof fn law_what_starts_a_block<T, S, E>(
    state: BlockRunloop<T, S, E>,
    input: BlockInput<T, S, E>,
)
    requires
        state.expects(input),
    ensures
        state.next(input).0.phase is AcquiringForBlock <==> {
            ||| input == BlockInput::<T, S, E>::Clock(ClockEvent::ExpireBlockHash)
            ||| input == BlockInput::<T, S, E>::Command(SimnetCommand::SlotForward)
            ||| input == BlockInput::<T, S, E>::Clock(ClockEvent::Tick) && state.mode
                == BlockProductionMode::Clock
        },
        state.next(input).0.phase is AcquiringForBlock <==> state.phase is Selecting
            && state.produces_on(input),
        state.next(input).1 is ConfirmTransactions <==> state.phase is AcquiringForBlock,
{
}

/// A block is produced by confirming, then finalizing, then a new blockhash,
/// all in one hold of the virtual machine; the runloop then waits again. A
/// forward leaves manual mode, the clock the mode as it was.
pub proof fn law_block_is_produced<T, S, E>(
    state: BlockRunloop<T, S, E>,
    input: BlockInput<T, S, E>,
)
    requires
        state.phase is Selecting,
        input == BlockInput::<T, S, E>::Clock(ClockEvent::ExpireBlockHash) || input == BlockInput::<
            T,
            S,
            E,
        >::Command(SimnetCommand::SlotForward) || (input == BlockInput::<T, S, E>::Clock(
            ClockEvent::Tick,
        ) && state.mode == BlockProductionMode::Clock),
    ensures
        ({
            let inputs = seq![
                input,
                BlockInput::Acquired,
                BlockInput::Confirmed(Ok(())),
                BlockInput::Finalized(Ok(())),
                BlockInput::Advanced,
                BlockInput::Released,
            ];
            let (last, actions) = state.run(inputs);
            &&& state.follows(inputs)
            &&& last.phase is Selecting
            &&& last.mode == if input is Command {
                BlockProductionMode::Manual
            } else {
                state.mode
            }
            &&& actions == seq![
                BlockAction::<T, S, E>::AcquireSvm,
                BlockAction::ConfirmTransactions,
                BlockAction::FinalizeTransactions,
                BlockAction::NewBlockhash,
                BlockAction::ReleaseSvm,
                BlockAction::Select,
            ]
        }),
{
    reveal_with_fuel(BlockRunloop::run, 7);
    reveal_with_fuel(BlockRunloop::follows, 7);
}

/// Where confirming fails, nothing is finalized and no blockhash is made; where
/// finalizing fails, no blockhash is made. The runloop releases the virtual
/// machine and ends with that very error.
pub proof fn law_failed_block_ends_the_runloop<T, S, E>(
    state: BlockRunloop<T, S, E>,
    input: BlockInput<T, S, E>,
    error: E,
)
    requires
        state.phase is Selecting,
        input == BlockInput::<T, S, E>::Clock(ClockEvent::ExpireBlockHash) || input == BlockInput::<
            T,
            S,
            E,
        >::Command(SimnetCommand::SlotForward) || (input == BlockInput::<T, S, E>::Clock(
            ClockEvent::Tick,
        ) && state.mode == BlockProductionMode::Clock),
    ensures
        ({
            let inputs = seq![
                input,
                BlockInput::Acquired,
                BlockInput::Confirmed(Err(error)),
                BlockInput::Released,
            ];
            let (last, actions) = state.run(inputs);
            &&& state.follows(inputs)
            &&& last.phase is Stopped
            &&& actions == seq![
                BlockAction::<T, S, E>::AcquireSvm,
                BlockAction::ConfirmTransactions,
                BlockAction::ReleaseSvm,
                BlockAction::Fail(error),
            ]
        }),
        ({
            let inputs = seq![
                input,
                BlockInput::Acquired,
                BlockInput::Confirmed(Ok(())),
                BlockInput::Finalized(Err(error)),
                BlockInput::Released,
            ];
            let (last, actions) = state.run(inputs);
            &&& state.follows(inputs)
            &&& last.phase is Stopped
            &&& actions == seq![
                BlockAction::<T, S, E>::AcquireSvm,
                BlockAction::ConfirmTransactions,
                BlockAction::FinalizeTransactions,
                BlockAction::ReleaseSvm,
                BlockAction::Fail(error),
            ]
        }),
{
    reveal_with_fuel(BlockRunloop::run, 6);
    reveal_with_fuel(BlockRunloop::follows, 6);
}

/// A transaction is processed in one hold of the virtual machine and produces
/// no block, in any mode; an error ends the runloop.
pub proof fn law_transaction_is_processed<T, S, E>(
    state: BlockRunloop<T, S, E>,
    transaction: T,
    status_tx: S,
    skip_preflight: bool,
    outcome: Result<(), E>,
)
    requires
        state.phase is Selecting,
    ensures
        ({
            let inputs = seq![
                BlockInput::Command(
                    SimnetCommand::TransactionReceived { transaction, status_tx, skip_preflight },
                ),
                BlockInput::Acquired,
                BlockInput::Processed(outcome),
                BlockInput::Released,
            ];
            let (last, actions) = state.run(inputs);
            &&& state.follows(inputs)
            &&& last == if outcome is Ok {
                state
            } else {
                state.at(BlockPhase::Stopped)
            }
            &&& actions == seq![
                BlockAction::<T, S, E>::AcquireSvm,
                BlockAction::ProcessTransaction { transaction, status_tx, skip_preflight },
                BlockAction::ReleaseSvm,
                match outcome {
                    Ok(_) => BlockAction::Select,
                    Err(error) => BlockAction::Fail(error),
                },
            ]
        }),
{
    reveal_with_fuel(BlockRunloop::run, 5);
    reveal_with_fuel(BlockRunloop::follows, 5);
}

/// A clock command is passed on as it came, and nothing else happens.
pub proof fn law_clock_command_is_forwarded<T, S, E>(
    state: BlockRunloop<T, S, E>,
    update: ClockCommand,
)
    requires
        state.phase is Selecting,
    ensures
        ({
            let inputs = seq![
                BlockInput::Command(SimnetCommand::UpdateClock(update)),
                BlockInput::Sent,
            ];
            &&& state.follows(inputs)
            &&& state.run(inputs).0 == state
            &&& state.run(inputs).1 == seq![
                BlockAction::<T, S, E>::SendClockCommand(update),
                BlockAction::Select,
            ]
        }),
{
    reveal_with_fuel(BlockRunloop::run, 3);
    reveal_with_fuel(BlockRunloop::follows, 3);
}

/// Going back a slot and the end of a channel change nothing.
pub proof fn law_what_is_passed_over<T, S, E>(
    state: BlockRunloop<T, S, E>,
    input: BlockInput<T, S, E>,
)
    requires
        state.phase is Selecting,
        input is ClockClosed || input is CommandsClosed || input == BlockInput::<
            T,
            S,
            E,
        >::Command(SimnetCommand::SlotBackward),
    ensures
        state.expects(input),
        state.next(input) == (state, BlockAction::<T, S, E>::Select),
{
}

/// The runloop ends on the command to terminate, with exit code zero, and on an
/// error, once the virtual machine is released; nothing else ends it.
pub proof fn law_what_ends_the_runloop<T, S, E>(
    state: BlockRunloop<T, S, E>,
    input: BlockInput<T, S, E>,
)
    requires
        state.expects(input),
    ensures
        ({
            let (next, action) = state.next(input);
            &&& next.phase is Stopped <==> action is Exit || action is Fail
            &&& action is Exit <==> input == BlockInput::<T, S, E>::Command(
                SimnetCommand::Terminate,
            )
            &&& action is Exit ==> action->Exit_0 == 0
            &&& action is Fail <==> state.phase is Releasing && state.phase->Releasing_0 is Err
            &&& action is Fail ==> state.phase == BlockPhase::<T, S, E>::Releasing(
                Err(action->Fail_0),
            )
        }),
{
}

/// Outside of clock mode ticks are passed over, however many come.
pub proof fn law_ticks_outside_clock_mode<T, S, E>(state: BlockRunloop<T, S, E>, ticks: nat)
    requires
        state.phase is Selecting,
        state.mode != BlockProductionMode::Clock,
    ensures
        ({
            let inputs = Seq::new(
                ticks,
                |i: int| BlockInput::<T, S, E>::Clock(ClockEvent::Tick),
            );
            &&& state.follows(inputs)
            &&& state.run(inputs).0 == state
            &&& state.run(inputs).1 == Seq::new(ticks, |i: int| BlockAction::<T, S, E>::Select)
        }),
    decreases ticks,
{
    if ticks > 0 {
        let rest = (ticks - 1) as nat;
        let tick = |i: int| BlockInput::<T, S, E>::Clock(ClockEvent::Tick);
        law_ticks_outside_clock_mode(state, rest);
        assert(Seq::new(ticks, tick).drop_first() =~= Seq::new(rest, tick));
    }
}

/// The inputs of a runloop that takes clock events and never fails.
pub open spec fn clock_inputs<T, S, E>(
    mode: BlockProductionMode,
    events: Seq<ClockEvent>,
) -> Seq<BlockInput<T, S, E>>
    decreases events.len(),
{
    if events.len() == 0 {
        Seq::empty()
    } else {
        let rest = clock_inputs(mode, events.drop_last());
        if mode == BlockProductionMode::Clock || events.last()
            == ClockEvent::ExpireBlockHash {
            rest + seq![
                BlockInput::Clock(events.last()),
                BlockInput::Acquired,
                BlockInput::Confirmed(Ok(())),
                BlockInput::Finalized(Ok(())),
                BlockInput::Advanced,
                BlockInput::Released,
            ]
        } else {
            rest + seq![BlockInput::Clock(events.last())]
        }
    }
}

/// The number of blockhashes that the actions ask for.
pub open spec fn blockhashes<T, S, E>(actions: Seq<BlockAction<T, S, E>>) -> nat
    decreases actions.len(),
{
    if actions.len() == 0 {
        0
    } else {
        let before = blockhashes(actions.drop_last());
        if actions.last() is NewBlockhash {
            before + 1
        } else {
            before
        }
    }
}

/// The number of expiries among the events.
pub open spec fn expiries(events: Seq<ClockEvent>) -> nat
    decreases events.len(),
{
    if events.len() == 0 {
        0
    } else {
        let before = expiries(events.drop_last());
        if events.last() is ExpireBlockHash {
            before + 1
        } else {
            before
        }
    }
}

proof fn lemma_blockhashes_append<T, S, E>(
    first: Seq<BlockAction<T, S, E>>,
    second: Seq<BlockAction<T, S, E>>,
)
    ensures
        blockhashes(first + second) == blockhashes(first) + blockhashes(second),
    decreases second.len(),
{
    if second.len() == 0 {
        assert(first + second =~= first);
    } else {
        lemma_blockhashes_append(first, second.drop_last());
        assert((first + second).drop_last() =~= first + second.drop_last());
    }
}

proof fn lemma_run_append<T, S, E>(
    state: BlockRunloop<T, S, E>,
    first: Seq<BlockInput<T, S, E>>,
    second: Seq<BlockInput<T, S, E>>,
)
    ensures
        state.run(first + second).0 == state.run(first).0.run(second).0,
        state.run(first + second).1 == state.run(first).1 + state.run(first).0.run(second).1,
        state.follows(first) && state.run(first).0.follows(second) ==> state.follows(
            first + second,
        ),
    decreases first.len(),
{
    if first.len() == 0 {
        assert(first + second =~= second);
        assert(state.run(first + second).1 =~= state.run(first).1 + state.run(
            first,
        ).0.run(second).1);
    } else {
        lemma_run_append(state.next(first[0]).0, first.drop_first(), second);
        assert((first + second).drop_first() =~= first.drop_first() + second);
        assert(state.run(first + second).1 =~= state.run(first).1 + state.run(
            first,
        ).0.run(second).1);
    }
}

proof fn lemma_one_clock_event<T, S, E>(state: BlockRunloop<T, S, E>, event: ClockEvent)
    requires
        state.phase is Selecting,
    ensures
        ({
            let produces = state.mode == BlockProductionMode::Clock || event
                == ClockEvent::ExpireBlockHash;
            let inputs = if produces {
                seq![
                    BlockInput::<T, S, E>::Clock(event),
                    BlockInput::Acquired,
                    BlockInput::Confirmed(Ok(())),
                    BlockInput::Finalized(Ok(())),
                    BlockInput::Advanced,
                    BlockInput::Released,
                ]
            } else {
                seq![BlockInput::<T, S, E>::Clock(event)]
            };
            &&& state.follows(inputs)
            &&& state.run(inputs).0 == state
            &&& blockhashes(state.run(inputs).1) == if produces {
                1nat
            } else {
                0nat
            }
        }),
{
    if state.mode == BlockProductionMode::Clock || event == ClockEvent::ExpireBlockHash {
        law_block_is_produced(state, BlockInput::Clock(event));
        reveal_with_fuel(blockhashes, 7);
    } else {
        reveal_with_fuel(BlockRunloop::run, 2);
        reveal_with_fuel(BlockRunloop::follows, 2);
        reveal_with_fuel(blockhashes, 2);
    }
}

/// While nothing fails, there is one new blockhash for each clock event in
/// clock mode, and in the other modes one for each expiry; the runloop then
/// waits as before.
pub proof fn law_blocks_per_clock_event<T, S, E>(
    state: BlockRunloop<T, S, E>,
    events: Seq<ClockEvent>,
)
    requires
        state.phase is Selecting,
    ensures
        ({
            let inputs = clock_inputs::<T, S, E>(state.mode, events);
            let (last, actions) = state.run(inputs);
            &&& state.follows(inputs)
            &&& last == state
            &&& blockhashes(actions) == if state.mode == BlockProductionMode::Clock {
                events.len()
            } else {
                expiries(events)
            }
        }),
    decreases events.len(),
{
    if events.len() > 0 {
        let first = clock_inputs::<T, S, E>(state.mode, events.drop_last());
        let second = if state.mode == BlockProductionMode::Clock || events.last()
            == ClockEvent::ExpireBlockHash {
            seq![
                BlockInput::<T, S, E>::Clock(events.last()),
                BlockInput::Acquired,
                BlockInput::Confirmed(Ok(())),
                BlockInput::Finalized(Ok(())),
                BlockInput::Advanced,
                BlockInput::Released,
            ]
        } else {
            seq![BlockInput::<T, S, E>::Clock(events.last())]
        };
        law_blocks_per_clock_event(state, events.drop_last());
        lemma_one_clock_event(state, events.last());
        lemma_run_append(state, first, second);
        lemma_blockhashes_append(state.run(first).1, state.run(second).1);
    }
}

/// The virtual machine is worked on only while it is held, is not acquired
/// while it is held, and is not held when the runloop waits, forwards, exits
/// or fails.
pub proof fn law_svm_is_held_for_its_work<T, S, E>(
    state: BlockRunloop<T, S, E>,
    input: BlockInput<T, S, E>,
)
    requires
        state.expects(input),
    ensures
        ({
            let (next, action) = state.next(input);
            &&& next.holds_svm() <==> {
                ||| action is ProcessTransaction
                ||| action is ConfirmTransactions
                ||| action is FinalizeTransactions
                ||| action is NewBlockhash
                ||| action is ReleaseSvm
            }
            &&& !state.holds_svm() && next.holds_svm() <==> input is Acquired
            &&& state.holds_svm() && !next.holds_svm() <==> input is Released
        }),
{
}

/// The mode is what the last forward or update made it: a forward leaves manual
/// mode, an update the mode that it names.
pub proof fn law_mode_follows_commands<T, S, E>(
    state: BlockRunloop<T, S, E>,
    inputs: Seq<BlockInput<T, S, E>>,
)
    requires
        state.follows(inputs),
    ensures
        state.run(inputs).0.mode == mode_after(state.mode, inputs),
    decreases inputs.len(),
{
    if inputs.len() > 0 {
        let next = state.next(inputs[0]).0;
        law_mode_follows_commands(next, inputs.drop_first());
        lemma_mode_after_first(state.mode, inputs);
        assert(next.mode == mode_after(state.mode, seq![inputs[0]])) by {
            reveal_with_fuel(mode_after, 2);
        }
    }
}

proof fn lemma_mode_after_first<T, S, E>(
    mode: BlockProductionMode,
    inputs: Seq<BlockInput<T, S, E>>,
)
    requires
        inputs.len() > 0,
    ensures
        mode_after(mode, inputs) == mode_after(
            mode_after(mode, seq![inputs[0]]),
            inputs.drop_first(),
        ),
    decreases inputs.len(),
{
    reveal_with_fuel(mode_after, 2);
    if inputs.len() == 1 {
        assert(inputs =~= seq![inputs[0]]);
    } else {
        lemma_mode_after_first(mode, inputs.drop_last());
        assert(inputs.drop_last().drop_first() =~= inputs.drop_first().drop_last());
    }
}

/// An update of the mode has a waiting runloop wait again, in the mode that it
/// names, and asks for nothing else: the clock is told nothing.
pub proof fn law_mode_update<T, S, E>(state: BlockRunloop<T, S, E>, mode: BlockProductionMode)
    requires
        state.phase is Selecting,
    ensures
        ({
            let update = BlockInput::<T, S, E>::Command(
                SimnetCommand::UpdateBlockProductionMode(mode),
            );
            let (next, action) = state.next(update);
            &&& state.expects(update)
            &&& next.mode == mode
            &&& next.phase is Selecting
            &&& action is Select
        }),
{
}

/// The command to terminate has a waiting runloop end the process, with code zero,
/// and nothing else.
pub proof fn law_termination<T, S, E>(state: BlockRunloop<T, S, E>)
    requires
        state.phase is Selecting,
    ensures
        ({
            let terminate = BlockInput::<T, S, E>::Command(SimnetCommand::Terminate);
            &&& state.expects(terminate)
            &&& state.next(terminate).0.phase is Stopped
            &&& state.next(terminate).1 == BlockAction::<T, S, E>::Exit(0)
        }),
{
}

/// What each action answers. A clock command is sent only for an update of the
/// clock, and is then the command that came. The virtual machine is acquired for a
/// transaction or for a block. A transaction is processed as it came; transactions
/// are finalized once they were confirmed, and a blockhash is made once they were
/// finalized. The virtual machine is released when its work is done or has failed,
/// and the runloop waits again when there is nothing to do.
pub proof fn law_what_each_action_answers<T, S, E>(
    state: BlockRunloop<T, S, E>,
    input: BlockInput<T, S, E>,
    update: ClockCommand,
    transaction: T,
    status_tx: S,
    skip_preflight: bool,
)
    requires
        state.expects(input),
    ensures
        ({
            let (next, action) = state.next(input);
            let received = BlockInput::<T, S, E>::Command(
                SimnetCommand::TransactionReceived { transaction, status_tx, skip_preflight },
            );
            &&& action == BlockAction::<T, S, E>::SendClockCommand(update) <==> input
                == BlockInput::<T, S, E>::Command(SimnetCommand::UpdateClock(update))
            &&& input == received <==> next.phase == (BlockPhase::<
                T,
                S,
                E,
            >::AcquiringForTransaction { transaction, status_tx, skip_preflight })
            &&& action is AcquireSvm <==> next.phase is AcquiringForTransaction
                || next.phase is AcquiringForBlock
            &&& action == (BlockAction::<T, S, E>::ProcessTransaction {
                transaction,
                status_tx,
                skip_preflight,
            }) <==> state.phase == (BlockPhase::<T, S, E>::AcquiringForTransaction {
                transaction,
                status_tx,
                skip_preflight,
            })
            &&& action is ConfirmTransactions <==> input is Acquired
                && state.phase is AcquiringForBlock
            &&& action is FinalizeTransactions <==> input is Confirmed && input->Confirmed_0 is Ok
            &&& action is NewBlockhash <==> input is Finalized && input->Finalized_0 is Ok
            &&& action is ReleaseSvm <==> {
                ||| input is Processed
                ||| input is Confirmed && input->Confirmed_0 is Err
                ||| input is Finalized && input->Finalized_0 is Err
                ||| input is Advanced
            }
            &&& action is Select <==> {
                ||| input is ClockClosed
                ||| input is CommandsClosed
                ||| input is Sent
                ||| input is Clock && input->Clock_0 is Tick && state.mode
                    != BlockProductionMode::Clock
                ||| input is Command && input->Command_0 is SlotBackward
                ||| input is Command && input->Command_0 is UpdateBlockProductionMode
                ||| input is Released && state.phase->Releasing_0 is Ok
            }
        }),
{
}

/// An error of the virtual machine is kept until it is released, and is then what
/// the runloop fails with; without one the runloop goes on.
pub proof fn law_error_is_kept<T, S, E>(
    state: BlockRunloop<T, S, E>,
    input: BlockInput<T, S, E>,
    error: E,
)
    requires
        state.expects(input),
    ensures
        ({
            let (next, action) = state.next(input);
            &&& next.phase == BlockPhase::<T, S, E>::Releasing(Err(error)) <==> {
                ||| input == BlockInput::<T, S, E>::Processed(Err(error))
                ||| input == BlockInput::<T, S, E>::Confirmed(Err(error))
                ||| input == BlockInput::<T, S, E>::Finalized(Err(error))
            }
            &&& next.phase is Releasing ==> (next.phase->Releasing_0 is Ok <==> {
                ||| input is Processed && input->Processed_0 is Ok
                ||| input is Advanced
            })
            &&& action == BlockAction::<T, S, E>::Fail(error) <==> state.phase == BlockPhase::<
                T,
                S,
                E,
            >::Releasing(Err(error))
        }),
{
}

/// A forward leaves manual mode, an update of the mode leaves the mode that it
/// names, and whatever else happens leaves the mode as it was.
pub proof fn law_what_changes_the_mode<T, S, E>(
    state: BlockRunloop<T, S, E>,
    input: BlockInput<T, S, E>,
    mode: BlockProductionMode,
)
    requires
        state.expects(input),
    ensures
        ({
            let next = state.next(input).0;
            &&& input == BlockInput::<T, S, E>::Command(SimnetCommand::SlotForward) ==> next.mode
                == BlockProductionMode::Manual
            &&& input == BlockInput::<T, S, E>::Command(
                SimnetCommand::UpdateBlockProductionMode(mode),
            ) ==> next.mode == mode
            &&& next.mode != state.mode ==> {
                ||| input == BlockInput::<T, S, E>::Command(SimnetCommand::SlotForward)
                ||| input == BlockInput::<T, S, E>::Command(
                    SimnetCommand::UpdateBlockProductionMode(next.mode),
                )
            }
        }),
{
}

/// The runloop expects what answers the action that it asked for, and nothing else.
pub proof fn law_answer_is_expected<T, S, E>(
    state: BlockRunloop<T, S, E>,
    input: BlockInput<T, S, E>,
    answer: BlockInput<T, S, E>,
)
    requires
        state.expects(input),
    ensures
        ({
            let (next, action) = state.next(input);
            next.expects(answer) <==> match action {
                BlockAction::Select => {
                    ||| answer is Clock
                    ||| answer is ClockClosed
                    ||| answer is Command
                    ||| answer is CommandsClosed
                },
                BlockAction::SendClockCommand(_) => answer is Sent,
                BlockAction::AcquireSvm => answer is Acquired,
                BlockAction::ProcessTransaction { .. } => answer is Processed,
                BlockAction::ConfirmTransactions => answer is Confirmed,
                BlockAction::FinalizeTransactions => answer is Finalized,
                BlockAction::NewBlockhash => answer is Advanced,
                BlockAction::ReleaseSvm => answer is Released,
                BlockAction::Exit(_) => false,
                BlockAction::Fail(_) => false,
            }
        }),
{
}

/// A new runloop waits in the mode that it was given: it takes up a tick where that
/// is clock mode, and passes it over in the others.
pub proof fn law_new_runloop_waits<T, S, E>(mode: BlockProductionMode)
    ensures
        ({
            let state = BlockRunloop::<T, S, E>::waiting(mode);
            let tick = BlockInput::<T, S, E>::Clock(ClockEvent::Tick);
            &&& state.phase is Selecting
            &&& state.mode == mode
            &&& state.expects(tick)
            &&& state.next(tick).1 is AcquireSvm <==> mode == BlockProductionMode::Clock
        }),
{
}

} // verus!
