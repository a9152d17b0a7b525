//! The RPC server: how it is brought up, what it serves, and how its thread ends.

use vstd::prelude::*;
use vstd::pervasive::unreached;

use crate::event::SimnetEvent;
use crate::failure::Failure;

verus! {

/// A group of RPC methods.
#[derive(Clone, Copy, Debug, PartialEq, Eq, Structural)]
pub enum RpcModule {
    Minimal,
    Full,
    AccountsData,
    AccountsScan,
    BankData,
    SurfnetCheatcodes,
    Admin,
}

/// The modules that are registered, in order: the admin module once more where
/// plugins are configured.
pub open spec fn rpc_modules(plugins_configured: bool) -> Seq<RpcModule> {
    seq![
        RpcModule::Minimal,
        RpcModule::Full,
        RpcModule::AccountsData,
        RpcModule::AccountsScan,
        RpcModule::BankData,
        RpcModule::SurfnetCheatcodes,
        RpcModule::Admin,
    ] + if plugins_configured {
        seq![RpcModule::Admin]
    } else {
        seq![]
    }
}

/// The module that is registered at a position.
pub fn rpc_module(plugins_configured: bool, position: usize) -> (module: Option<RpcModule>)
    ensures
        module == if position < rpc_modules(plugins_configured).len() {
            Some(rpc_modules(plugins_configured)[position as int])
        } else {
            None
        },
{
    match position {
        0 => Some(RpcModule::Minimal),
        1 => Some(RpcModule::Full),
        2 => Some(RpcModule::AccountsData),
        3 => Some(RpcModule::AccountsScan),
        4 => Some(RpcModule::BankData),
        5 => Some(RpcModule::SurfnetCheatcodes),
        6 => Some(RpcModule::Admin),
        7 if plugins_configured => Some(RpcModule::Admin),
        _ => None,
    }
}

/// The configuration of the RPC server: the address that it serves at, and the
/// settings `C` that its middleware reads.
#[derive(Debug)]
pub struct RpcConfig<C> {
    pub socket_address: String,
    pub settings: C,
}

/// What bringing up the server asks to have done; `A` is a parsed address.
#[derive(Debug)]
pub enum RpcAction<A> {
    /// Open the channel of plugin manager commands and make the middleware, with
    /// the settings of the server.
    PrepareMiddleware,
    /// Parse the socket address to bind to.
    ParseAddress(String),
    /// Register the methods of a module with the handler.
    RegisterModule(RpcModule),
    /// See whether this address can be bound to.
    Bind(A),
    /// Spawn the thread of the server, which serves at this address.
    SpawnHandler(A),
    /// The server is up, or has failed to come up.
    Return(Result<(), Failure>),
}

/// What came of an action; an error is given by its text.
#[derive(Debug)]
pub enum RpcInput<A> {
    Prepared,
    /// The address that the text was parsed into.
    Parsed(Result<A, String>),
    Registered,
    Bound(Result<(), String>),
    Spawned(Result<(), String>),
}

/// How far the server is up.
#[derive(Debug)]
pub enum RpcPhase<A> {
    Preparing { socket_address: String },
    Parsing,
    /// The module at this position is being registered.
    Registering { position: usize, address: A },
    Binding { address: A },
    Spawning,
    Stopped,
}

/// The RPC server on its way up.
#[derive(Debug)]
pub struct RpcStartup<C, A> {
    pub settings: C,
    pub plugins_configured: bool,
    pub phase: RpcPhase<A>,
}

impl<A> RpcAction<A> {
    /// The address that the action has probed or served at.
    pub open spec fn address(self) -> Option<A> {
        match self {
            RpcAction::Bind(address) => Some(address),
            RpcAction::SpawnHandler(address) => Some(address),
            _ => None,
        }
    }
}

impl<C, A> RpcStartup<C, A> {
    /// A server to be brought up as configured, before anything is done.
    pub open spec fn of(config: RpcConfig<C>, plugins_configured: bool) -> Self {
        RpcStartup {
            settings: config.settings,
            plugins_configured,
            phase: RpcPhase::Preparing { socket_address: config.socket_address },
        }
    }

    /// The module that is being registered is one of those to register.
    pub open spec fn well_formed(self) -> bool {
        self.phase matches RpcPhase::Registering { position, .. } ==> position < rpc_modules(
            self.plugins_configured,
        ).len()
    }

    /// The input answers the action that was last asked for.
    pub open spec fn expects(self, input: RpcInput<A>) -> bool {
        match self.phase {
            RpcPhase::Preparing { .. } => input is Prepared,
            RpcPhase::Parsing => input is Parsed,
            RpcPhase::Registering { .. } => input is Registered,
            RpcPhase::Binding { .. } => input is Bound,
            RpcPhase::Spawning => input is Spawned,
            RpcPhase::Stopped => false,
        }
    }

    /// The same server in another phase.
    pub open spec fn at(self, phase: RpcPhase<A>) -> Self {
        RpcStartup { phase, ..self }
    }

    /// Ends with an outcome.
    pub open spec fn end(self, outcome: Result<(), Failure>) -> (Self, RpcAction<A>) {
        (self.at(RpcPhase::Stopped), RpcAction::Return(outcome))
    }

    /// Registers the module at a position, or binds to the address if there is
    /// none.
    pub open spec fn register_from(self, position: int, address: A) -> (Self, RpcAction<A>) {
        if position < rpc_modules(self.plugins_configured).len() {
            (
                self.at(RpcPhase::Registering { position: position as usize, address }),
                RpcAction::RegisterModule(rpc_modules(self.plugins_configured)[position]),
            )
        } else {
            (self.at(RpcPhase::Binding { address }), RpcAction::Bind(address))
        }
    }

    /// The server after an input, and what is asked for next.
    pub open spec fn next(self, input: RpcInput<A>) -> (Self, RpcAction<A>) {
        match (self.phase, input) {
            (RpcPhase::Preparing { socket_address }, RpcInput::Prepared) => (
                self.at(RpcPhase::Parsing),
                RpcAction::ParseAddress(socket_address),
            ),
            (RpcPhase::Parsing, RpcInput::Parsed(Ok(address))) => self.register_from(0, address),
            (RpcPhase::Parsing, RpcInput::Parsed(Err(error))) => self.end(
                Err(Failure::RpcAddress(error)),
            ),
            (RpcPhase::Registering { position, address }, RpcInput::Registered) => {
                self.register_from(position + 1, address)
            },
            (RpcPhase::Binding { address }, RpcInput::Bound(Ok(_))) => (
                self.at(RpcPhase::Spawning),
                RpcAction::SpawnHandler(address),
            ),
            (RpcPhase::Binding { .. }, RpcInput::Bound(Err(error))) => self.end(
                Err(Failure::RpcStart(error)),
            ),
            (RpcPhase::Spawning, RpcInput::Spawned(Err(error))) => self.end(
                Err(Failure::RpcSpawn(error)),
            ),
            _ => self.end(Ok(())),
        }
    }

    /// Each of the inputs answers the action before it.
    pub open spec fn follows(self, inputs: Seq<RpcInput<A>>) -> bool
        decreases inputs.len(),
    {
        inputs.len() == 0 || {
            &&& self.expects(inputs[0])
            &&& self.next(inputs[0]).0.follows(inputs.drop_first())
        }
    }

    /// The server after a series of inputs, and what was asked for after each.
    pub open spec fn run(self, inputs: Seq<RpcInput<A>>) -> (Self, Seq<RpcAction<A>>)
        decreases inputs.len(),
    {
        if inputs.len() == 0 {
            (self, Seq::empty())
        } else {
            let (state, action) = self.next(inputs[0]);
            let (last, actions) = state.run(inputs.drop_first());
            (last, seq![action] + actions)
        }
    }
}

impl<C, A: Copy> RpcStartup<C, A> {
    fn register(plugins_configured: bool, position: usize, address: A) -> (result: (
        RpcPhase<A>,
        RpcAction<A>,
    ))
        ensures
            result == if position < rpc_modules(plugins_configured).len() {
                (
                    RpcPhase::Registering { position, address },
                    RpcAction::RegisterModule(rpc_modules(plugins_configured)[position as int]),
                )
            } else {
                (RpcPhase::Binding { address }, RpcAction::Bind(address))
            },
    {
        match rpc_module(plugins_configured, position) {
            Some(module) => (
                RpcPhase::Registering { position, address },
                RpcAction::RegisterModule(module),
            ),
            None => (RpcPhase::Binding { address }, RpcAction::Bind(address)),
        }
    }

    /// Takes what came of the last action and says what to do next.
    pub fn step(self, input: RpcInput<A>) -> (result: (Self, RpcAction<A>))
        requires
            self.well_formed(),
            self.expects(input),
        ensures
            result == self.next(input),
            result.0.well_formed(),
    {
        let RpcStartup { settings, plugins_configured, phase } = self;
        let (phase, action) = match (phase, input) {
            (RpcPhase::Preparing { socket_address }, RpcInput::Prepared) => (
                RpcPhase::Parsing,
                RpcAction::ParseAddress(socket_address),
            ),
            (RpcPhase::Parsing, RpcInput::Parsed(Ok(address))) => Self::register(
                plugins_configured,
                0,
                address,
            ),
            (RpcPhase::Parsing, RpcInput::Parsed(Err(error))) => (
                RpcPhase::Stopped,
                RpcAction::Return(Err(Failure::RpcAddress(error))),
            ),
            (RpcPhase::Registering { position, address }, RpcInput::Registered) => Self::register(
                plugins_configured,
                position + 1,
                address,
            ),
            (RpcPhase::Binding { address }, RpcInput::Bound(Ok(_))) => (
                RpcPhase::Spawning,
                RpcAction::SpawnHandler(address),
            ),
            (RpcPhase::Binding { .. }, RpcInput::Bound(Err(error))) => (
                RpcPhase::Stopped,
                RpcAction::Return(Err(Failure::RpcStart(error))),
            ),
            (RpcPhase::Spawning, RpcInput::Spawned(Ok(_))) => (
                RpcPhase::Stopped,
                RpcAction::Return(Ok(())),
            ),
            (RpcPhase::Spawning, RpcInput::Spawned(Err(error))) => (
                RpcPhase::Stopped,
                RpcAction::Return(Err(Failure::RpcSpawn(error))),
            ),
            _ => unreached(),
        };
        (RpcStartup { settings, plugins_configured, phase }, action)
    }
}

/// A server to be brought up as configured.
pub fn start_rpc_server_runloop<C, A>(config: RpcConfig<C>, plugins_configured: bool) -> (result: (
    RpcStartup<C, A>,
    RpcAction<A>,
))
    ensures
        result.0 == RpcStartup::<C, A>::of(config, plugins_configured),
        result.0.well_formed(),
        result.1 is PrepareMiddleware,
{
    let RpcConfig { socket_address, settings } = config;
    (
        RpcStartup { settings, plugins_configured, phase: RpcPhase::Preparing { socket_address } },
        RpcAction::PrepareMiddleware,
    )
}

/// What the thread of the server asks to have done.
#[derive(Debug)]
pub enum RpcHandlerAction<A> {
    /// Start to serve at this address.
    StartServer(A),
    /// Wait for the server to stop.
    Wait,
    /// Send an event to the user interface.
    SendEvent(SimnetEvent),
    /// End the thread.
    Return,
}

/// What came of an action.
#[derive(Debug)]
pub enum RpcHandlerInput {
    /// The server was started, or failed with this error.
    Started(Result<(), String>),
    /// The server has stopped.
    Waited,
    /// The event was sent.
    Sent,
}

/// Where the thread of the server stands.
#[derive(Clone, Copy, Debug, PartialEq, Eq, Structural)]
pub enum RpcHandler {
    Starting,
    Serving,
    Reporting,
    Stopped,
}

impl RpcHandler {
    /// The input answers the action that was last asked for.
    pub open spec fn expects(self, input: RpcHandlerInput) -> bool {
        match self {
            RpcHandler::Starting => input is Started,
            RpcHandler::Serving => input is Waited,
            RpcHandler::Reporting => input is Sent,
            RpcHandler::Stopped => false,
        }
    }

    /// The thread after an input, and what it asks for next: a server that
    /// fails to start aborts the network, one that stops shuts it down.
    pub open spec fn next<A>(self, input: RpcHandlerInput) -> (Self, RpcHandlerAction<A>) {
        match input {
            RpcHandlerInput::Started(Ok(_)) => (RpcHandler::Serving, RpcHandlerAction::Wait),
            RpcHandlerInput::Started(Err(error)) => (
                RpcHandler::Reporting,
                RpcHandlerAction::SendEvent(SimnetEvent::Aborted(Failure::RpcStart(error))),
            ),
            RpcHandlerInput::Waited => (
                RpcHandler::Reporting,
                RpcHandlerAction::SendEvent(SimnetEvent::Shutdown),
            ),
            RpcHandlerInput::Sent => (RpcHandler::Stopped, RpcHandlerAction::Return),
        }
    }

    /// Takes what came of the last action and says what to do next.
    pub fn step<A>(self, input: RpcHandlerInput) -> (result: (Self, RpcHandlerAction<A>))
        requires
            self.expects(input),
        ensures
            result == self.next::<A>(input),
    {
        match input {
            RpcHandlerInput::Started(Ok(_)) => (RpcHandler::Serving, RpcHandlerAction::Wait),
            RpcHandlerInput::Started(Err(error)) => (
                RpcHandler::Reporting,
                RpcHandlerAction::SendEvent(SimnetEvent::Aborted(Failure::RpcStart(error))),
            ),
            RpcHandlerInput::Waited => (
                RpcHandler::Reporting,
                RpcHandlerAction::SendEvent(SimnetEvent::Shutdown),
            ),
            RpcHandlerInput::Sent => (RpcHandler::Stopped, RpcHandlerAction::Return),
        }
    }
}

/// The thread of the server, which starts to serve at the address that it was
/// spawned with.
pub fn start_rpc_handler<A>(address: A) -> (result: (RpcHandler, RpcHandlerAction<A>))
    ensures
        result == (RpcHandler::Starting, RpcHandlerAction::StartServer(address)),
{
    (RpcHandler::Starting, RpcHandlerAction::StartServer(address))
}

proof fn lemma_run_append<C, A>(
    state: RpcStartup<C, A>,
    first: Seq<RpcInput<A>>,
    second: Seq<RpcInput<A>>,
)
    ensures
        state.run(first + second).0 == state.run(first).0.run(second).0,
        state.run(first + second).1 == state.run(first).1 + state.run(first).0.run(second).1,
        state.follows(first) && state.run(first).0.follows(second) ==> state.follows(
            first + second,
        ),
    decreases first.len(),
{
    if first.len() == 0 {
        assert(first + second =~= second);
    } else {
        lemma_run_append(state.next(first[0]).0, first.drop_first(), second);
        assert((first + second).drop_first() =~= first.drop_first() + second);
    }
    assert(state.run(first + second).1 =~= state.run(first).1 + state.run(first).0.run(second).1);
}

proof fn lemma_modules_are_registered<C, A>(
    state: RpcStartup<C, A>,
    position: int,
    address: A,
)
    requires
        0 <= position < rpc_modules(state.plugins_configured).len(),
        state.phase == (RpcPhase::Registering { position: position as usize, address }),
    ensures
        ({
            let modules = rpc_modules(state.plugins_configured).skip(position);
            let inputs = modules.map_values(|module: RpcModule| RpcInput::<A>::Registered);
            &&& state.follows(inputs)
            &&& state.run(inputs).0 == state.at(RpcPhase::Binding { address })
            &&& state.run(inputs).1 == modules.drop_first().map_values(
                |module: RpcModule| RpcAction::RegisterModule(module),
            ) + seq![RpcAction::Bind(address)]
        }),
    decreases rpc_modules(state.plugins_configured).len() - position,
{
    let all = rpc_modules(state.plugins_configured);
    let modules = all.skip(position);
    let inputs = modules.map_values(|module: RpcModule| RpcInput::<A>::Registered);
    let actions = modules.drop_first().map_values(
        |module: RpcModule| RpcAction::RegisterModule(module),
    ) + seq![RpcAction::Bind(address)];
    let (next, action) = state.next(inputs[0]);
    assert(all.skip(position + 1) =~= modules.drop_first());
    assert(inputs.drop_first() =~= modules.drop_first().map_values(
        |module: RpcModule| RpcInput::<A>::Registered,
    ));
    if position + 1 < all.len() {
        lemma_modules_are_registered(next, position + 1, address);
    } else {
        reveal_with_fuel(RpcStartup::run, 2);
        reveal_with_fuel(RpcStartup::follows, 2);
    }
    assert(state.run(inputs).1 =~= actions);
}

/// Where nothing fails, the configured address is parsed, every module is
/// registered, in order, before the parsed address is bound to and the thread is
/// spawned to serve at it, and the server is up.
pub proof fn law_server_comes_up<C, A>(
    config: RpcConfig<C>,
    plugins_configured: bool,
    address: A,
)
    ensures
        ({
            let state = RpcStartup::<C, A>::of(config, plugins_configured);
            let modules = rpc_modules(plugins_configured);
            let inputs = seq![RpcInput::Prepared, RpcInput::Parsed(Ok(address))]
                + modules.map_values(|module: RpcModule| RpcInput::Registered) + seq![
                RpcInput::Bound(Ok(())),
                RpcInput::Spawned(Ok(())),
            ];
            &&& state.follows(inputs)
            &&& state.run(inputs).0.phase is Stopped
            &&& state.run(inputs).1 == seq![RpcAction::ParseAddress(config.socket_address)]
                + modules.map_values(|module: RpcModule| RpcAction::RegisterModule(module)) + seq![
                RpcAction::Bind(address),
                RpcAction::SpawnHandler(address),
                RpcAction::Return(Ok(())),
            ]
        }),
{
    let state = RpcStartup::<C, A>::of(config, plugins_configured);
    let modules = rpc_modules(plugins_configured);
    let first = seq![RpcInput::Prepared, RpcInput::Parsed(Ok(address))];
    let middle = modules.map_values(|module: RpcModule| RpcInput::<A>::Registered);
    let end = seq![RpcInput::<A>::Bound(Ok(())), RpcInput::Spawned(Ok(()))];
    let parsed = state.at(RpcPhase::Registering { position: 0, address });
    let registered = state.at(RpcPhase::Binding { address });
    assert({
        &&& state.follows(first)
        &&& state.run(first).0 == parsed
        &&& state.run(first).1 =~= seq![
            RpcAction::ParseAddress(config.socket_address),
            RpcAction::RegisterModule(modules[0]),
        ]
    }) by {
        reveal_with_fuel(RpcStartup::run, 3);
        reveal_with_fuel(RpcStartup::follows, 3);
    }
    lemma_modules_are_registered(parsed, 0, address);
    assert(modules.skip(0) =~= modules);
    assert({
        &&& registered.follows(end)
        &&& registered.run(end).0.phase is Stopped
        &&& registered.run(end).1 =~= seq![
            RpcAction::SpawnHandler(address),
            RpcAction::Return(Ok(())),
        ]
    }) by {
        reveal_with_fuel(RpcStartup::run, 3);
        reveal_with_fuel(RpcStartup::follows, 3);
    }
    lemma_run_append(state, first, middle);
    lemma_run_append(state, first + middle, end);
}

proof fn lemma_run_len<C, A>(state: RpcStartup<C, A>, inputs: Seq<RpcInput<A>>)
    ensures
        state.run(inputs).1.len() == inputs.len(),
    decreases inputs.len(),
{
    if inputs.len() > 0 {
        lemma_run_len(state.next(inputs[0]).0, inputs.drop_first());
    }
}

proof fn lemma_address_stays<C, A>(
    state: RpcStartup<C, A>,
    inputs: Seq<RpcInput<A>>,
    i: int,
    address: A,
)
    requires
        state.follows(inputs),
        0 <= i < inputs.len(),
        match state.phase {
            RpcPhase::Preparing { .. } => false,
            RpcPhase::Parsing => false,
            RpcPhase::Registering { address: held, .. } => held == address,
            RpcPhase::Binding { address: held } => held == address,
            _ => true,
        },
    ensures
        state.run(inputs).1[i].address() is Some ==> state.run(inputs).1[i].address() == Some(
            address,
        ),
    decreases inputs.len(),
{
    let (next, action) = state.next(inputs[0]);
    let rest = inputs.drop_first();
    lemma_run_len(next, rest);
    if i > 0 {
        assert(state.run(inputs).1[i] == next.run(rest).1[i - 1]);
        lemma_address_stays(next, rest, i - 1, address);
    }
}

/// One address goes through the start of the server: whatever is bound to, and
/// served at, is what the configured text was parsed into.
pub proof fn law_parsed_address_is_served<C, A>(
    config: RpcConfig<C>,
    plugins_configured: bool,
    inputs: Seq<RpcInput<A>>,
    i: int,
)
    requires
        RpcStartup::<C, A>::of(config, plugins_configured).follows(inputs),
        0 <= i < inputs.len(),
    ensures
        ({
            let actions = RpcStartup::<C, A>::of(config, plugins_configured).run(inputs).1;
            actions[i].address() matches Some(address) ==> {
                &&& actions[0] == RpcAction::<A>::ParseAddress(config.socket_address)
                &&& i > 0
                &&& inputs[1] == RpcInput::Parsed(Ok(address))
            }
        }),
{
    let state = RpcStartup::<C, A>::of(config, plugins_configured);
    let parsing = state.next(inputs[0]).0;
    let rest = inputs.drop_first();
    let actions = state.run(inputs).1;
    reveal_with_fuel(RpcStartup::follows, 3);
    lemma_run_len(parsing, rest);
    assert(actions[0] == RpcAction::<A>::ParseAddress(config.socket_address));
    if i > 0 {
        let (parsed, action) = parsing.next(rest[0]);
        assert(parsing.run(rest).1[0] == action);
        assert(actions[i] == parsing.run(rest).1[i - 1]);
        if i > 1 {
            lemma_run_len(parsed, rest.drop_first());
            assert(actions[i] == parsed.run(rest.drop_first()).1[i - 2]);
            match inputs[1] {
                RpcInput::Parsed(Ok(address)) => {
                    lemma_address_stays(parsed, rest.drop_first(), i - 2, address);
                },
                _ => {
                    assert(!parsed.follows(rest.drop_first()));
                },
            }
        }
    }
}

/// Every error ends the bringing up of the server, with the failure that tells
/// the step; an error is the only thing that makes it fail.
pub proof fn law_what_fails_the_server<C, A>(state: RpcStartup<C, A>, input: RpcInput<A>)
    requires
        state.expects(input),
    ensures
        ({
            let (next, action) = state.next(input);
            let failure = match input {
                RpcInput::Parsed(Err(error)) => Some(Failure::RpcAddress(error)),
                RpcInput::Bound(Err(error)) => Some(Failure::RpcStart(error)),
                RpcInput::Spawned(Err(error)) => Some(Failure::RpcSpawn(error)),
                _ => None,
            };
            &&& next.phase is Stopped <==> action is Return
            &&& failure matches Some(failure) ==> action == RpcAction::<A>::Return(Err(failure))
            &&& failure is None && action is Return ==> action == RpcAction::<A>::Return(Ok(()))
                && input is Spawned
        }),
{
}

/// The thread of the server tells of its end exactly once: that it never
/// started, or that it has stopped.
pub proof fn law_handler_reports_its_end<A>(error: String)
    ensures
        ({
            let (failed, report) = RpcHandler::Starting.next::<A>(RpcHandlerInput::Started(Err(error)));
            &&& report == RpcHandlerAction::<A>::SendEvent(
                SimnetEvent::Aborted(Failure::RpcStart(error)),
            )
            &&& failed.next::<A>(RpcHandlerInput::Sent) == (
                RpcHandler::Stopped,
                RpcHandlerAction::<A>::Return,
            )
        }),
        ({
            let (serving, wait) = RpcHandler::Starting.next::<A>(RpcHandlerInput::Started(Ok(())));
            let (stopped, report) = serving.next::<A>(RpcHandlerInput::Waited);
            &&& wait is Wait
            &&& report == RpcHandlerAction::<A>::SendEvent(SimnetEvent::Shutdown)
            &&& stopped.next::<A>(RpcHandlerInput::Sent) == (
                RpcHandler::Stopped,
                RpcHandlerAction::<A>::Return,
            )
        }),
{
}

/// Seven modules are registered, and the admin module once more where plugins are
/// configured.
pub proof fn law_modules()
    ensures
        rpc_modules(false).len() == 7,
        rpc_modules(false)[0] == RpcModule::Minimal,
        rpc_modules(false)[1] == RpcModule::Full,
        rpc_modules(false)[2] == RpcModule::AccountsData,
        rpc_modules(false)[3] == RpcModule::AccountsScan,
        rpc_modules(false)[4] == RpcModule::BankData,
        rpc_modules(false)[5] == RpcModule::SurfnetCheatcodes,
        rpc_modules(false)[6] == RpcModule::Admin,
        rpc_modules(true) == rpc_modules(false).push(RpcModule::Admin),
{
    assert(rpc_modules(true) =~= rpc_modules(false).push(RpcModule::Admin));
}

/// What each action answers: the address is parsed once the middleware is made,
/// modules are registered once it is parsed, the thread is spawned once the address
/// could be bound to, and the server is up once it is spawned. The settings stay as
/// they are, and so does whether plugins are configured.
pub proof fn law_what_each_action_answers<C, A>(state: RpcStartup<C, A>, input: RpcInput<A>)
    requires
        state.well_formed(),
        state.expects(input),
    ensures
        ({
            let (next, action) = state.next(input);
            let last = state.phase is Registering && state.phase->Registering_position + 1
                == rpc_modules(state.plugins_configured).len();
            &&& action is ParseAddress <==> input is Prepared
            &&& action is RegisterModule <==> {
                ||| input is Parsed && input->Parsed_0 is Ok
                ||| input is Registered && !last
            }
            &&& action is Bind <==> input is Registered && last
            &&& action is SpawnHandler <==> input is Bound && input->Bound_0 is Ok
            &&& action == RpcAction::<A>::Return(Ok(())) <==> input is Spawned
                && input->Spawned_0 is Ok
            &&& action !is PrepareMiddleware
            &&& next.settings == state.settings
            &&& next.plugins_configured == state.plugins_configured
        }),
{
}

/// What is expected is what answers the action that was asked for, and nothing else.
pub proof fn law_answer_is_expected<C, A>(
    state: RpcStartup<C, A>,
    input: RpcInput<A>,
    answer: RpcInput<A>,
)
    requires
        state.expects(input),
    ensures
        ({
            let (next, action) = state.next(input);
            next.expects(answer) <==> match action {
                RpcAction::PrepareMiddleware => answer is Prepared,
                RpcAction::ParseAddress(_) => answer is Parsed,
                RpcAction::RegisterModule(_) => answer is Registered,
                RpcAction::Bind(_) => answer is Bound,
                RpcAction::SpawnHandler(_) => answer is Spawned,
                RpcAction::Return(_) => false,
            }
        }),
{
}

/// The thread of the server expects what answers the action that it asked for, and
/// nothing else.
pub proof fn law_handler_answer_is_expected<A>(
    state: RpcHandler,
    input: RpcHandlerInput,
    answer: RpcHandlerInput,
)
    requires
        state.expects(input),
    ensures
        RpcHandler::Starting.expects(answer) <==> answer is Started,
        ({
            let (next, action) = state.next::<A>(input);
            next.expects(answer) <==> match action {
                RpcHandlerAction::StartServer(_) => answer is Started,
                RpcHandlerAction::Wait => answer is Waited,
                RpcHandlerAction::SendEvent(_) => answer is Sent,
                RpcHandlerAction::Return => false,
            }
        }),
{
}

} // verus!
