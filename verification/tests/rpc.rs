use surfnet_runloops::failure::Failure;
use surfnet_runloops::event::SimnetEvent;
use surfnet_runloops::rpc::{
    rpc_module, start_rpc_handler, start_rpc_server_runloop, RpcAction, RpcConfig, RpcHandler,
    RpcHandlerAction, RpcHandlerInput, RpcInput, RpcModule, RpcPhase, RpcStartup,
};

const MODULES: [RpcModule; 7] = [
    RpcModule::Minimal,
    RpcModule::Full,
    RpcModule::AccountsData,
    RpcModule::AccountsScan,
    RpcModule::BankData,
    RpcModule::SurfnetCheatcodes,
    RpcModule::Admin,
];

fn parsed(plugins_configured: bool) -> RpcStartup<u16, char> {
    let config = RpcConfig { socket_address: "127.0.0.1:8899".to_string(), settings: 77 };
    let (server, action) = start_rpc_server_runloop(config, plugins_configured);
    assert_eq!(server.settings, 77);
    assert!(matches!(action, RpcAction::PrepareMiddleware));
    let (server, action) = server.step(RpcInput::Prepared);
    assert!(matches!(action, RpcAction::ParseAddress(address) if address == "127.0.0.1:8899"));
    server
}

fn bound(plugins_configured: bool) -> (RpcStartup<u16, char>, Vec<RpcModule>) {
    let mut modules = vec![];
    let (mut server, mut action) = parsed(plugins_configured).step(RpcInput::Parsed(Ok('a')));
    while let RpcAction::RegisterModule(module) = action {
        modules.push(module);
        (server, action) = server.step(RpcInput::Registered);
    }
    assert!(matches!(action, RpcAction::Bind('a')));
    (server, modules)
}

#[test]
fn the_server_comes_up_with_its_modules() {
    let (server, modules) = bound(false);
    assert_eq!(modules, MODULES);
    let (server, action) = server.step(RpcInput::Bound(Ok(())));
    assert!(matches!(action, RpcAction::SpawnHandler('a')));
    let (server, action) = server.step(RpcInput::Spawned(Ok(())));
    assert!(matches!(action, RpcAction::Return(Ok(()))));
    assert!(matches!(server.phase, RpcPhase::Stopped));
    assert_eq!(server.settings, 77);
}

#[test]
fn the_admin_module_comes_twice_with_plugins() {
    let (_, modules) = bound(true);
    assert_eq!(modules.len(), 8);
    assert_eq!(modules[..7], MODULES);
    assert_eq!(modules[7], RpcModule::Admin);
    assert_eq!(rpc_module(true, 7), Some(RpcModule::Admin));
    assert_eq!(rpc_module(true, 8), None);
    assert_eq!(rpc_module(false, 7), None);
}

#[test]
fn a_bad_address_fails_with_the_bare_error() {
    let error = "invalid socket address syntax".to_string();
    let (_, action) = parsed(false).step(RpcInput::Parsed(Err(error)));
    match action {
        RpcAction::Return(Err(failure)) => {
            assert!(matches!(failure, Failure::RpcAddress(_)));
            assert_eq!(failure.message(), "invalid socket address syntax");
        }
        other => panic!("{other:?}"),
    }
}

#[test]
fn an_address_in_use_fails_the_start() {
    let (server, _) = bound(false);
    let (_, action) = server.step(RpcInput::Bound(Err("Address in use".to_string())));
    match action {
        RpcAction::Return(Err(failure)) => {
            assert_eq!(failure.message(), "Failed to start RPC server: Address in use");
        }
        other => panic!("{other:?}"),
    }
}

#[test]
fn a_thread_that_cannot_be_spawned_fails_the_start() {
    let (server, _) = bound(false);
    let (server, _) = server.step(RpcInput::Bound(Ok(())));
    let (_, action) = server.step(RpcInput::Spawned(Err("Os".to_string())));
    match action {
        RpcAction::Return(Err(failure)) => {
            assert_eq!(failure.message(), "Failed to spawn RPC Handler thread: Os");
        }
        other => panic!("{other:?}"),
    }
}

#[test]
fn a_server_that_does_not_start_aborts() {
    let (handler, action) = start_rpc_handler('a');
    assert!(matches!(action, RpcHandlerAction::StartServer('a')));
    let (handler, action) = handler.step::<char>(RpcHandlerInput::Started(Err("Io".to_string())));
    match action {
        RpcHandlerAction::SendEvent(SimnetEvent::Aborted(failure)) => {
            assert_eq!(failure.message(), "Failed to start RPC server: Io");
        }
        other => panic!("{other:?}"),
    }
    let (handler, action) = handler.step::<char>(RpcHandlerInput::Sent);
    assert!(matches!(action, RpcHandlerAction::Return));
    assert_eq!(handler, RpcHandler::Stopped);
}

#[test]
fn a_server_that_stops_shuts_down() {
    let (handler, _) = start_rpc_handler('a');
    let (handler, action) = handler.step::<char>(RpcHandlerInput::Started(Ok(())));
    assert!(matches!(action, RpcHandlerAction::Wait));
    let (handler, action) = handler.step::<char>(RpcHandlerInput::Waited);
    assert!(matches!(action, RpcHandlerAction::SendEvent(SimnetEvent::Shutdown)));
    let (_, action) = handler.step::<char>(RpcHandlerInput::Sent);
    assert!(matches!(action, RpcHandlerAction::Return));
}

#[test]
fn the_parsed_address_is_the_one_that_is_served() {
    for address in ['b', 'c'] {
        let (mut server, mut action) = parsed(true).step(RpcInput::Parsed(Ok(address)));
        while let RpcAction::RegisterModule(_) = action {
            (server, action) = server.step(RpcInput::Registered);
        }
        assert!(matches!(action, RpcAction::Bind(probed) if probed == address));
        let (_, action) = server.step(RpcInput::Bound(Ok(())));
        match action {
            RpcAction::SpawnHandler(spawned) => {
                let (_, action) = start_rpc_handler(spawned);
                assert!(matches!(action, RpcHandlerAction::StartServer(at) if at == address));
            }
            other => panic!("{other:?}"),
        }
    }
}
