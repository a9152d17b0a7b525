use solana_pubkey::Pubkey;
use solana_signature::Signature;
use surfnet_runloops::event::SimnetEvent;
use surfnet_runloops::failure::Failure;
use surfnet_runloops::geyser::{
    geyser_spawned, start_geyser_runloop, GeyserAction, GeyserInput, GeyserPhase, GeyserRunloop,
    SubgraphCommand,
};
use surfnet_runloops::transaction::{
    MessageHeader, Transaction, TransactionMetadata, TransactionReturnData,
};

type Runloop = GeyserRunloop<&'static str, u8>;
type Action = GeyserAction<&'static str, &'static str, u64>;
type Input = GeyserInput<&'static str, &'static str, u8, u64>;

fn runloop() -> Runloop {
    let (runloop, action): (Runloop, Action) =
        start_geyser_runloop::<&'static str, &'static str, u8, u64>();
    assert!(matches!(action, GeyserAction::Listen));
    assert!(runloop.plugins.is_empty());
    runloop
}

fn step(runloop: Runloop, input: Input) -> (Runloop, Action) {
    runloop.step(input)
}

/// Asks for a plugin, up to its serialized configuration.
fn encoding(runloop: Runloop) -> Runloop {
    let (runloop, action) = step(
        runloop,
        GeyserInput::LoadConfig { uuid: 77, request: "schema", notifier: "notifier" },
    );
    match action {
        GeyserAction::SendSubgraphCommand(SubgraphCommand::CreateSubgraph { uuid, notifier }) => {
            assert_eq!((uuid, notifier), (77, "notifier"));
        }
        other => panic!("{other:?}"),
    }
    assert_eq!(runloop.request(), Some(&"schema"));
    let (runloop, action) = step(runloop, GeyserInput::Sent);
    assert!(matches!(action, GeyserAction::OpenPlugin));
    assert_eq!(runloop.request(), Some(&"schema"));
    let (runloop, action) = step(runloop, GeyserInput::Opened { ipc_token: "token".to_string() });
    match action {
        GeyserAction::EncodeConfig(config) => {
            assert_eq!(config.uuid, 77);
            assert_eq!(config.ipc_token, "token");
            assert_eq!(config.subgraph_request, "schema");
        }
        other => panic!("{other:?}"),
    }
    assert_eq!(runloop.request(), None);
    runloop
}

fn loading(runloop: Runloop) -> Runloop {
    let config = "{}".to_string();
    let (runloop, action) = step(encoding(runloop), GeyserInput::Encoded(Ok(config)));
    match action {
        GeyserAction::LoadPlugin { config_file, is_reload } => {
            assert_eq!(config_file, "{}");
            assert!(!is_reload);
        }
        other => panic!("{other:?}"),
    }
    runloop
}

fn mount(runloop: Runloop, plugin: u8) -> Runloop {
    let (runloop, action) = step(runloop, GeyserInput::Mounted(plugin));
    match action {
        GeyserAction::SendEvent(SimnetEvent::PluginLoaded(name)) => {
            assert_eq!(name, "surfpool-subgraph");
        }
        other => panic!("{other:?}"),
    }
    let (runloop, action) = step(runloop, GeyserInput::Sent);
    assert!(matches!(action, GeyserAction::Listen));
    runloop
}

fn with_plugin(runloop: Runloop, plugin: u8) -> Runloop {
    let (runloop, action) = step(loading(runloop), GeyserInput::Loaded(Ok(())));
    assert!(matches!(action, GeyserAction::AcceptConnection));
    let (runloop, action) = step(runloop, GeyserInput::Accepted(Some(31)));
    assert!(matches!(
        action,
        GeyserAction::SendSubgraphCommand(SubgraphCommand::ObserveSubgraph(31))
    ));
    let (runloop, action) = step(runloop, GeyserInput::Sent);
    assert!(matches!(action, GeyserAction::MountPlugin));
    mount(runloop, plugin)
}

fn failure(action: Action) -> Failure {
    match action {
        GeyserAction::SendEvent(SimnetEvent::Error(failure)) => failure,
        other => panic!("{other:?}"),
    }
}

fn transaction(program_id_index: u8) -> Transaction {
    Transaction {
        signatures: vec![Signature::from([7; 64])],
        header: MessageHeader {
            num_required_signatures: 1,
            num_readonly_signed_accounts: 0,
            num_readonly_unsigned_accounts: 1,
        },
        account_keys: vec![Pubkey::new_from_array([1; 32]), Pubkey::new_from_array([2; 32])],
        recent_blockhash: solana_hash::Hash::new_from_array([9; 32]),
        instructions: vec![surfnet_runloops::transaction::CompiledInstruction {
            program_id_index,
            accounts: vec![0],
            data: vec![],
        }],
        address_table_lookups: None,
    }
}

fn metadata() -> TransactionMetadata {
    TransactionMetadata {
        signature: Signature::from([7; 64]),
        logs: vec![],
        inner_instructions: vec![],
        compute_units_consumed: 5,
        return_data: TransactionReturnData {
            program_id: Pubkey::new_from_array([2; 32]),
            data: vec![],
        },
    }
}

fn receive(runloop: Runloop, program_id_index: u8) -> (Runloop, Action) {
    runloop.transaction_received(transaction(program_id_index), metadata(), 12)
}

#[test]
fn a_plugin_is_mounted() {
    let runloop = with_plugin(runloop(), 4);
    assert_eq!(runloop.plugins, vec![4]);
    let runloop = with_plugin(runloop, 2);
    assert_eq!(runloop.plugins, vec![4, 2]);
}

#[test]
fn a_plugin_that_fails_to_load_is_reported_and_mounted() {
    let failed = GeyserInput::Loaded(Err("Custom(\"no\")".to_string()));
    let (runloop, action) = step(loading(runloop()), failed);
    assert_eq!(failure(action).message(), "Failed to load Geyser plugin: Custom(\"no\")");
    let (runloop, action) = step(runloop, GeyserInput::Sent);
    assert!(matches!(action, GeyserAction::AcceptConnection));
    let (runloop, action) = step(runloop, GeyserInput::Accepted(None));
    assert!(matches!(action, GeyserAction::MountPlugin));
    assert_eq!(mount(runloop, 9).plugins, vec![9]);
}

#[test]
fn a_plugin_without_a_configuration_is_dropped() {
    let bad = GeyserInput::Encoded(Err("Error(\"key\")".to_string()));
    let (runloop, action) = step(encoding(runloop()), bad);
    assert_eq!(
        failure(action).message(),
        "Failed to serialize subgraph plugin config: Error(\"key\")"
    );
    let (runloop, action) = step(runloop, GeyserInput::Sent);
    assert!(matches!(action, GeyserAction::Listen));
    assert!(runloop.plugins.is_empty());
}

#[test]
fn every_plugin_is_notified_whatever_the_others_say() {
    let mut runloop = runloop();
    for plugin in [10, 11, 12] {
        runloop = with_plugin(runloop, plugin);
    }
    let (mut runloop, mut action) = receive(runloop, 1);
    let mut notified = vec![];
    let mut reported = vec![];
    loop {
        let input = match action {
            GeyserAction::NotifyPlugin { plugin } => {
                let replica = runloop.replica().unwrap();
                assert_eq!(replica.slot, 12);
                assert_eq!(replica.transaction.signatures(), [Signature::from([7; 64])]);
                notified.push(runloop.plugins[plugin]);
                GeyserInput::Notified(if plugin == 1 {
                    Err("busy".to_string())
                } else {
                    Ok(())
                })
            }
            GeyserAction::SendEvent(SimnetEvent::Error(failure)) => {
                reported.push(failure.message());
                GeyserInput::Sent
            }
            GeyserAction::Listen => break,
            other => panic!("{other:?}"),
        };
        (runloop, action) = step(runloop, input);
    }
    assert_eq!(notified, [10, 11, 12]);
    assert_eq!(reported, ["Failed to notify Geyser plugin of new transaction: busy"]);
    assert!(matches!(runloop.phase, GeyserPhase::Listening));
    assert!(runloop.replica().is_none());
}

#[test]
fn a_transaction_without_plugins_goes_nowhere() {
    let (runloop, action) = receive(runloop(), 1);
    assert!(matches!(action, GeyserAction::Listen));
    assert!(matches!(runloop.phase, GeyserPhase::Listening));
}

#[test]
fn a_rejected_transaction_is_only_reported() {
    let (runloop, action) = receive(with_plugin(runloop(), 4), 0);
    assert_eq!(
        failure(action).message(),
        "Failed to notify Geyser plugin of new transaction: failed to serialize transaction: SanitizeFailure"
    );
    let (runloop, action) = step(runloop, GeyserInput::Sent);
    assert!(matches!(action, GeyserAction::Listen));
    assert_eq!(runloop.plugins, vec![4]);
}

#[test]
fn the_end_of_the_commands_ends_the_runloop() {
    let (runloop, action) = step(runloop(), GeyserInput::CommandsClosed("RecvError".to_string()));
    match action {
        GeyserAction::Stop(failure) => {
            assert_eq!(failure.message(), "Failed to read plugin manager command: RecvError");
        }
        other => panic!("{other:?}"),
    }
    assert!(matches!(runloop.phase, GeyserPhase::Stopped));
}

#[test]
fn the_end_of_the_events_ends_the_runloop() {
    let closed = "receiving on an empty and disconnected channel".to_string();
    let (_, action) = step(runloop(), GeyserInput::EventsClosed(closed));
    match action {
        GeyserAction::Stop(failure) => {
            assert_eq!(
                failure.message(),
                "Failed to read new transaction to send to Geyser plugin: receiving on an empty and disconnected channel"
            );
        }
        other => panic!("{other:?}"),
    }
}

#[test]
fn only_a_failed_spawn_fails_the_start() {
    assert!(geyser_spawned(Ok(())).is_ok());
    match geyser_spawned(Err("Os { code: 11 }".to_string())) {
        Err(failure) => {
            assert!(matches!(failure, Failure::GeyserSpawn(_)));
            assert_eq!(
                failure.message(),
                "Failed to spawn Geyser Plugins Handler thread: Os { code: 11 }"
            );
        }
        Ok(_) => panic!("the start went through"),
    }
}
