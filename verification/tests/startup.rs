use solana_pubkey::Pubkey;
use surfnet_runloops::block_production::BlockProductionMode;
use surfnet_runloops::event::SimnetEvent;
use surfnet_runloops::rpc::RpcConfig;
use surfnet_runloops::startup::{
    start_local_surfnet_runloop, SimnetConfig, Startup, StartupAction, StartupInput, StartupPhase,
    SurfpoolConfig,
};

fn simnet(url: &str, slot_time: u64, mode: BlockProductionMode) -> SimnetConfig {
    SimnetConfig {
        remote_rpc_url: url.to_string(),
        slot_time,
        block_production_mode: mode,
        airdrop_addresses: vec![Pubkey::new_from_array([3; 32])],
        airdrop_token_amount: 10_000,
    }
}

fn config(simnets: Vec<SimnetConfig>, plugins: Vec<String>) -> SurfpoolConfig<u16> {
    SurfpoolConfig {
        rpc: RpcConfig { socket_address: "127.0.0.1:8899".to_string(), settings: 77 },
        simnets,
        plugin_config_path: plugins,
    }
}

fn start(plugins: Vec<String>) -> Startup<u16, String> {
    let simnets = vec![
        simnet("https://first", 400, BlockProductionMode::Transaction),
        simnet("https://second", 500, BlockProductionMode::Manual),
    ];
    let started = start_local_surfnet_runloop::<u16, String>(config(simnets, plugins));
    let (startup, action) = started.expect("there is a network");
    assert!(matches!(action, StartupAction::AcquireSvm));
    startup
}

fn connected(plugins: Vec<String>) -> Startup<u16, String> {
    let (startup, action) = start(plugins).step(StartupInput::Acquired);
    match action {
        StartupAction::AirdropPubkeys { amount, addresses } => {
            assert_eq!(amount, 10_000);
            assert_eq!(addresses, vec![Pubkey::new_from_array([3; 32])]);
        }
        other => panic!("{other:?}"),
    }
    let (startup, action) = startup.step(StartupInput::Airdropped);
    match action {
        StartupAction::Connect { remote_rpc_url } => assert_eq!(remote_rpc_url, "https://first"),
        other => panic!("{other:?}"),
    }
    startup
}

fn served(plugins: Vec<String>) -> Startup<u16, String> {
    let configured = !plugins.is_empty();
    let (startup, action) = connected(plugins).step(StartupInput::Connected(Ok(())));
    assert!(matches!(action, StartupAction::ReleaseSvm));
    let (startup, action) = startup.step(StartupInput::Released);
    match action {
        StartupAction::StartRpcServer { rpc, plugins_configured } => {
            assert_eq!(rpc.socket_address, "127.0.0.1:8899");
            assert_eq!(rpc.settings, 77);
            assert_eq!(plugins_configured, configured);
        }
        other => panic!("{other:?}"),
    }
    startup
}

fn finish(startup: Startup<u16, String>, action: StartupAction<u16, String>) {
    assert!(matches!(action, StartupAction::StartClock { slot_time: 400 }));
    let (startup, action) = startup.step(StartupInput::ClockStarted);
    assert!(matches!(action, StartupAction::SendEvent(SimnetEvent::Ready)));
    let (startup, action) = startup.step(StartupInput::Sent);
    assert!(matches!(action, StartupAction::ProduceBlocks(BlockProductionMode::Transaction)));
    let (startup, action) = startup.step(StartupInput::Produced("over".to_string()));
    assert!(matches!(action, StartupAction::Return(Err(error)) if error == "over"));
    assert!(matches!(startup.phase, StartupPhase::Stopped));
}

#[test]
fn without_a_network_there_is_nothing_to_start() {
    assert!(start_local_surfnet_runloop::<u16, String>(config(vec![], vec![])).is_none());
}

#[test]
fn the_first_network_comes_up_without_plugins() {
    let (startup, action) = served(vec![]).step(StartupInput::RpcStarted(Ok(())));
    finish(startup, action);
}

#[test]
fn the_first_network_comes_up_with_plugins() {
    let plugins = vec!["plugin.json".to_string()];
    let (startup, action) = served(plugins).step(StartupInput::RpcStarted(Ok(())));
    assert!(matches!(action, StartupAction::StartGeyser));
    let (startup, action) = startup.step(StartupInput::GeyserStarted(Ok(())));
    finish(startup, action);
}

#[test]
fn the_network_comes_up_without_its_geyser_runloop() {
    let plugins = vec!["plugin.json".to_string()];
    let (startup, _) = served(plugins).step(StartupInput::RpcStarted(Ok(())));
    let (startup, action) = startup.step(StartupInput::GeyserStarted(Err("no".to_string())));
    match action {
        StartupAction::SendEvent(SimnetEvent::Error(failure)) => {
            assert_eq!(failure.message(), "Geyser plugin failed: no");
        }
        other => panic!("{other:?}"),
    }
    let (startup, action) = startup.step(StartupInput::Sent);
    finish(startup, action);
}

#[test]
fn a_failed_connection_is_the_outcome() {
    let failed = StartupInput::Connected(Err("offline".to_string()));
    let (startup, action) = connected(vec![]).step(failed);
    assert!(matches!(action, StartupAction::ReleaseSvm));
    let (startup, action) = startup.step(StartupInput::Released);
    assert!(matches!(action, StartupAction::Return(Err(error)) if error == "offline"));
    assert!(matches!(startup.phase, StartupPhase::Stopped));
}

#[test]
fn a_failed_server_is_the_outcome() {
    let failed = StartupInput::RpcStarted(Err("in use".to_string()));
    let (_, action) = served(vec!["plugin.json".to_string()]).step(failed);
    assert!(matches!(action, StartupAction::Return(Err(error)) if error == "in use"));
}

/// Answers every action, and fails with `error` where `fail` says so.
fn outcome(fail: fn(&StartupAction<u16, String>) -> bool, error: &str) -> Result<(), String> {
    let simnets = vec![simnet("https://first", 400, BlockProductionMode::Clock)];
    let plugins = vec!["plugin.json".to_string()];
    let started = start_local_surfnet_runloop::<u16, String>(config(simnets, plugins));
    let (mut startup, mut action) = started.expect("there is a network");
    loop {
        let result = if fail(&action) { Err(error.to_string()) } else { Ok(()) };
        let input = match action {
            StartupAction::AcquireSvm => StartupInput::Acquired,
            StartupAction::AirdropPubkeys { .. } => StartupInput::Airdropped,
            StartupAction::Connect { .. } => StartupInput::Connected(result),
            StartupAction::ReleaseSvm => StartupInput::Released,
            StartupAction::StartRpcServer { .. } => StartupInput::RpcStarted(result),
            StartupAction::StartGeyser => StartupInput::GeyserStarted(result),
            StartupAction::SendEvent(_) => StartupInput::Sent,
            StartupAction::StartClock { .. } => StartupInput::ClockStarted,
            StartupAction::ProduceBlocks(_) => StartupInput::Produced("over".to_string()),
            StartupAction::Return(outcome) => return outcome,
        };
        (startup, action) = startup.step(input);
    }
}

#[test]
fn a_started_network_returns_only_with_an_error() {
    assert_eq!(outcome(|_| false, "unused"), Err("over".to_string()));
    assert_eq!(
        outcome(|action| matches!(action, StartupAction::StartGeyser), "no"),
        Err("over".to_string())
    );
    assert_eq!(
        outcome(|action| matches!(action, StartupAction::Connect { .. }), "offline"),
        Err("offline".to_string())
    );
    assert_eq!(
        outcome(|action| matches!(action, StartupAction::StartRpcServer { .. }), "in use"),
        Err("in use".to_string())
    );
}
