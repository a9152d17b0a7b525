use surfnet_runloops::failure::Failure;

#[test]
fn each_failure_is_reported_in_its_words() {
    let e = || "e".to_string();
    let expected = [
        (Failure::GeyserStart(e()), "Geyser plugin failed: e"),
        (Failure::GeyserSpawn(e()), "Failed to spawn Geyser Plugins Handler thread: e"),
        (Failure::PluginCommands(e()), "Failed to read plugin manager command: e"),
        (
            Failure::GeyserEvents(e()),
            "Failed to read new transaction to send to Geyser plugin: e",
        ),
        (Failure::PluginConfig(e()), "Failed to serialize subgraph plugin config: e"),
        (Failure::PluginLoad(e()), "Failed to load Geyser plugin: e"),
        (
            Failure::TransactionRejected(e()),
            "Failed to notify Geyser plugin of new transaction: failed to serialize transaction: e",
        ),
        (
            Failure::PluginNotification(e()),
            "Failed to notify Geyser plugin of new transaction: e",
        ),
        (Failure::RpcAddress(e()), "e"),
        (Failure::RpcStart(e()), "Failed to start RPC server: e"),
        (Failure::RpcSpawn(e()), "Failed to spawn RPC Handler thread: e"),
    ];
    for (failure, text) in expected {
        assert_eq!(failure.message(), text);
    }
}

#[test]
fn a_failure_to_spawn_is_told_in_a_failure_to_start() {
    let spawn = Failure::GeyserSpawn("Os".to_string());
    let start = Failure::GeyserStart(spawn.message());
    assert_eq!(
        start.message(),
        "Geyser plugin failed: Failed to spawn Geyser Plugins Handler thread: Os"
    );
}
