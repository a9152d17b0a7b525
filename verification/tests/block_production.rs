use surfnet_runloops::block_production::{
    start_block_production_runloop, BlockAction, BlockInput, BlockPhase, BlockProductionMode,
    BlockRunloop, SimnetCommand,
};
use surfnet_runloops::clock::{ClockCommand, ClockEvent};

type Runloop = BlockRunloop<u32, &'static str, String>;
type Action = BlockAction<u32, &'static str, String>;
type Input = BlockInput<u32, &'static str, String>;

fn runloop(mode: BlockProductionMode) -> Runloop {
    let (runloop, action): (Runloop, Action) = start_block_production_runloop(mode);
    assert!(matches!(action, BlockAction::Select));
    runloop
}

/// Feeds the inputs and gives the runloop and a word for each action.
fn feed(mut runloop: Runloop, inputs: Vec<Input>) -> (Runloop, Vec<String>) {
    let mut words = vec![];
    for input in inputs {
        let (next, action) = runloop.step(input);
        words.push(format!("{action:?}"));
        runloop = next;
    }
    (runloop, words)
}

const BLOCK: [&str; 6] = [
    "AcquireSvm",
    "ConfirmTransactions",
    "FinalizeTransactions",
    "NewBlockhash",
    "ReleaseSvm",
    "Select",
];

fn block(first: Input) -> Vec<Input> {
    vec![
        first,
        BlockInput::Acquired,
        BlockInput::Confirmed(Ok(())),
        BlockInput::Finalized(Ok(())),
        BlockInput::Advanced,
        BlockInput::Released,
    ]
}

#[test]
fn a_tick_produces_a_block_in_clock_mode_only() {
    let (after, words) =
        feed(runloop(BlockProductionMode::Clock), block(BlockInput::Clock(ClockEvent::Tick)));
    assert_eq!(words, BLOCK);
    assert_eq!(after.mode, BlockProductionMode::Clock);
    for mode in [BlockProductionMode::Manual, BlockProductionMode::Transaction] {
        let ticks = vec![
            BlockInput::Clock(ClockEvent::Tick),
            BlockInput::Clock(ClockEvent::Tick),
            BlockInput::Clock(ClockEvent::Tick),
        ];
        let (after, words) = feed(runloop(mode), ticks);
        assert_eq!(words, ["Select", "Select", "Select"]);
        assert_eq!(after.mode, mode);
    }
}

#[test]
fn an_expired_blockhash_produces_a_block_in_every_mode() {
    for mode in [
        BlockProductionMode::Clock,
        BlockProductionMode::Manual,
        BlockProductionMode::Transaction,
    ] {
        let (after, words) =
            feed(runloop(mode), block(BlockInput::Clock(ClockEvent::ExpireBlockHash)));
        assert_eq!(words, BLOCK);
        assert_eq!(after.mode, mode);
    }
}

#[test]
fn a_forward_produces_a_block_and_leaves_manual_mode() {
    let forward = block(BlockInput::Command(SimnetCommand::SlotForward));
    let (after, words) = feed(runloop(BlockProductionMode::Clock), forward);
    assert_eq!(words, BLOCK);
    assert_eq!(after.mode, BlockProductionMode::Manual);
    let (after, words) = feed(after, vec![BlockInput::Clock(ClockEvent::Tick)]);
    assert_eq!(words, ["Select"]);
    let update = SimnetCommand::UpdateBlockProductionMode(BlockProductionMode::Clock);
    let (after, words) = feed(after, vec![BlockInput::Command(update)]);
    assert_eq!(words, ["Select"]);
    let (_, words) = feed(after, block(BlockInput::Clock(ClockEvent::Tick)));
    assert_eq!(words, BLOCK);
}

#[test]
fn going_back_and_closed_channels_change_nothing() {
    let (after, words) = feed(
        runloop(BlockProductionMode::Clock),
        vec![
            BlockInput::Command(SimnetCommand::SlotBackward),
            BlockInput::ClockClosed,
            BlockInput::CommandsClosed,
        ],
    );
    assert_eq!(words, ["Select", "Select", "Select"]);
    assert_eq!(after.mode, BlockProductionMode::Clock);
    assert!(matches!(after.phase, BlockPhase::Selecting));
}

#[test]
fn a_clock_command_is_passed_on() {
    let update = ClockCommand::UpdateSlotInterval(40);
    let (after, words) = feed(
        runloop(BlockProductionMode::Clock),
        vec![BlockInput::Command(SimnetCommand::UpdateClock(update)), BlockInput::Sent],
    );
    assert_eq!(words, ["SendClockCommand(UpdateSlotInterval(40))", "Select"]);
    assert!(matches!(after.phase, BlockPhase::Selecting));
}

fn transaction(outcome: Result<(), String>) -> Vec<Input> {
    vec![
        BlockInput::Command(SimnetCommand::TransactionReceived {
            transaction: 9,
            status_tx: "status",
            skip_preflight: true,
        }),
        BlockInput::Acquired,
        BlockInput::Processed(outcome),
        BlockInput::Released,
    ]
}

#[test]
fn a_transaction_is_processed_without_a_block() {
    let (after, words) = feed(runloop(BlockProductionMode::Transaction), transaction(Ok(())));
    assert_eq!(
        words,
        [
            "AcquireSvm",
            "ProcessTransaction { transaction: 9, status_tx: \"status\", skip_preflight: true }",
            "ReleaseSvm",
            "Select",
        ]
    );
    assert!(matches!(after.phase, BlockPhase::Selecting));
}

#[test]
fn a_failed_transaction_ends_the_runloop() {
    let failed = transaction(Err("no such account".to_string()));
    let (after, words) = feed(runloop(BlockProductionMode::Clock), failed);
    assert_eq!(words[2..], ["ReleaseSvm", "Fail(\"no such account\")"]);
    assert!(matches!(after.phase, BlockPhase::Stopped));
}

#[test]
fn a_failed_confirmation_ends_the_runloop() {
    let (after, words) = feed(
        runloop(BlockProductionMode::Clock),
        vec![
            BlockInput::Clock(ClockEvent::Tick),
            BlockInput::Acquired,
            BlockInput::Confirmed(Err("lost".to_string())),
            BlockInput::Released,
        ],
    );
    assert_eq!(words, ["AcquireSvm", "ConfirmTransactions", "ReleaseSvm", "Fail(\"lost\")"]);
    assert!(matches!(after.phase, BlockPhase::Stopped));
}

#[test]
fn a_failed_finalization_ends_the_runloop() {
    let (after, words) = feed(
        runloop(BlockProductionMode::Clock),
        vec![
            BlockInput::Clock(ClockEvent::Tick),
            BlockInput::Acquired,
            BlockInput::Confirmed(Ok(())),
            BlockInput::Finalized(Err("lost".to_string())),
            BlockInput::Released,
        ],
    );
    assert_eq!(words[2..], ["FinalizeTransactions", "ReleaseSvm", "Fail(\"lost\")"]);
    assert!(matches!(after.phase, BlockPhase::Stopped));
}

#[test]
fn terminating_exits_with_zero() {
    let terminate = vec![BlockInput::Command(SimnetCommand::Terminate)];
    let (after, words) = feed(runloop(BlockProductionMode::Clock), terminate);
    assert_eq!(words, ["Exit(0)"]);
    assert!(matches!(after.phase, BlockPhase::Stopped));
}

fn blockhashes(mode: BlockProductionMode, events: &[ClockEvent]) -> usize {
    let mut runloop = runloop(mode);
    let mut count = 0;
    for event in events {
        let (next, mut action) = runloop.step(BlockInput::Clock(*event));
        runloop = next;
        loop {
            let input = match action {
                BlockAction::Select => break,
                BlockAction::AcquireSvm => BlockInput::Acquired,
                BlockAction::ConfirmTransactions => BlockInput::Confirmed(Ok(())),
                BlockAction::FinalizeTransactions => BlockInput::Finalized(Ok(())),
                BlockAction::NewBlockhash => {
                    count += 1;
                    BlockInput::Advanced
                }
                BlockAction::ReleaseSvm => BlockInput::Released,
                other => panic!("{other:?}"),
            };
            (runloop, action) = runloop.step(input);
        }
    }
    count
}

#[test]
fn clock_events_count_their_blocks() {
    let events =
        [ClockEvent::Tick, ClockEvent::Tick, ClockEvent::ExpireBlockHash, ClockEvent::Tick];
    assert_eq!(blockhashes(BlockProductionMode::Clock, &events), 4);
    assert_eq!(blockhashes(BlockProductionMode::Manual, &events), 1);
    assert_eq!(blockhashes(BlockProductionMode::Transaction, &events), 1);
}
