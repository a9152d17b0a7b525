//! The start-up sequence of the local network.

use vstd::prelude::*;
use vstd::pervasive::unreached;

use solana_pubkey::Pubkey;

use crate::block_production::BlockProductionMode;
use crate::event::SimnetEvent;
use crate::failure::Failure;
use crate::rpc::RpcConfig;

verus! {

/// The configuration of a simulated network.
#[derive(Debug)]
pub struct SimnetConfig {
    pub remote_rpc_url: String,
    /// The length of a slot, in milliseconds.
    pub slot_time: u64,
    pub block_production_mode: BlockProductionMode,
    pub airdrop_addresses: Vec<Pubkey>,
    pub airdrop_token_amount: u64,
}

/// The configuration of the program: of the simulated networks only the first
/// is run.
#[derive(Debug)]
pub struct SurfpoolConfig<C> {
    pub rpc: RpcConfig<C>,
    pub simnets: Vec<SimnetConfig>,
    pub plugin_config_path: Vec<String>,
}

impl<C> SurfpoolConfig<C> {
    /// The start-up of the first simulated network, if there is one.
    pub open spec fn startup<E>(self) -> Option<Startup<C, E>> {
        if self.simnets@.len() == 0 {
            None
        } else {
            Some(
                Startup::<C, E>::of(
                    self.simnets@[0],
                    self.rpc,
                    self.plugin_config_path@.len() > 0,
                ),
            )
        }
    }
}

/// What the start-up asks to have done.
#[derive(Debug)]
pub enum StartupAction<C, E> {
    /// Acquire the virtual machine, for writing.
    AcquireSvm,
    /// Give each of the addresses this amount.
    AirdropPubkeys { amount: u64, addresses: Vec<Pubkey> },
    /// Connect the virtual machine to the remote network.
    Connect { remote_rpc_url: String },
    /// Release the virtual machine.
    ReleaseSvm,
    /// Bring up the RPC server.
    StartRpcServer { rpc: RpcConfig<C>, plugins_configured: bool },
    /// Start the Geyser runloop.
    StartGeyser,
    /// Send an event to the user interface.
    SendEvent(SimnetEvent),
    /// Start the clock.
    StartClock { slot_time: u64 },
    /// Run the block production runloop to its end.
    ProduceBlocks(BlockProductionMode),
    /// End with this outcome.
    Return(Result<(), E>),
}

/// What came of an action.
#[derive(Debug)]
pub enum StartupInput<E> {
    Acquired,
    Airdropped,
    Connected(Result<(), E>),
    Released,
    RpcStarted(Result<(), E>),
    /// Whether the Geyser runloop could be started, or the text of the error.
    GeyserStarted(Result<(), String>),
    Sent,
    ClockStarted,
    /// The block production runloop has failed with this error. It returns in no
    /// other way, by `law_what_ends_the_runloop` of block production.
    Produced(E),
}

/// How far the start-up has come.
#[derive(Debug)]
pub enum StartupPhase<C, E> {
    Acquiring {
        amount: u64,
        addresses: Vec<Pubkey>,
        remote_rpc_url: String,
        rpc: RpcConfig<C>,
    },
    Airdropping { remote_rpc_url: String, rpc: RpcConfig<C> },
    Connecting { rpc: RpcConfig<C> },
    /// Goes on to the RPC server, or fails, once the virtual machine is released.
    Releasing(Result<RpcConfig<C>, E>),
    StartingRpc,
    StartingGeyser,
    ReportingGeyser,
    StartingClock,
    Announcing,
    Producing,
    Stopped,
}

/// The start-up of the local network.
#[derive(Debug)]
pub struct Startup<C, E> {
    pub slot_time: u64,
    pub mode: BlockProductionMode,
    pub plugins_configured: bool,
    pub phase: StartupPhase<C, E>,
}

impl<C, E> Startup<C, E> {
    /// The start-up of a simulated network, before anything is done.
    pub open spec fn of(
        simnet: SimnetConfig,
        rpc: RpcConfig<C>,
        plugins_configured: bool,
    ) -> Self {
        Startup {
            slot_time: simnet.slot_time,
            mode: simnet.block_production_mode,
            plugins_configured,
            phase: StartupPhase::Acquiring {
                amount: simnet.airdrop_token_amount,
                addresses: simnet.airdrop_addresses,
                remote_rpc_url: simnet.remote_rpc_url,
                rpc,
            },
        }
    }

    /// The input answers the action that the start-up last asked for.
    pub open spec fn expects(self, input: StartupInput<E>) -> bool {
        match self.phase {
            StartupPhase::Acquiring { .. } => input is Acquired,
            StartupPhase::Airdropping { .. } => input is Airdropped,
            StartupPhase::Connecting { .. } => input is Connected,
            StartupPhase::Releasing(_) => input is Released,
            StartupPhase::StartingRpc => input is RpcStarted,
            StartupPhase::StartingGeyser => input is GeyserStarted,
            StartupPhase::ReportingGeyser => input is Sent,
            StartupPhase::StartingClock => input is ClockStarted,
            StartupPhase::Announcing => input is Sent,
            StartupPhase::Producing => input is Produced,
            StartupPhase::Stopped => false,
        }
    }

    /// The same start-up in another phase.
    pub open spec fn at(self, phase: StartupPhase<C, E>) -> Self {
        Startup { phase, ..self }
    }

    /// Ends with an outcome.
    pub open spec fn end(self, outcome: Result<(), E>) -> (Self, StartupAction<C, E>) {
        (self.at(StartupPhase::Stopped), StartupAction::Return(outcome))
    }

    /// Starts the clock.
    pub open spec fn start_clock(self) -> (Self, StartupAction<C, E>) {
        (
            self.at(StartupPhase::StartingClock),
            StartupAction::StartClock { slot_time: self.slot_time },
        )
    }

    /// The start-up after an input, and what it asks for next.
    pub open spec fn next(self, input: StartupInput<E>) -> (Self, StartupAction<C, E>) {
        match (self.phase, input) {
            (
                StartupPhase::Acquiring { amount, addresses, remote_rpc_url, rpc },
                StartupInput::Acquired,
            ) => (
                self.at(StartupPhase::Airdropping { remote_rpc_url, rpc }),
                StartupAction::AirdropPubkeys { amount, addresses },
            ),
            (
                StartupPhase::Airdropping { remote_rpc_url, rpc },
                StartupInput::Airdropped,
            ) => (
                self.at(StartupPhase::Connecting { rpc }),
                StartupAction::Connect { remote_rpc_url },
            ),
            (StartupPhase::Connecting { rpc }, StartupInput::Connected(Ok(_))) => (
                self.at(StartupPhase::Releasing(Ok(rpc))),
                StartupAction::ReleaseSvm,
            ),
            (StartupPhase::Connecting { .. }, StartupInput::Connected(Err(error))) => (
                self.at(StartupPhase::Releasing(Err(error))),
                StartupAction::ReleaseSvm,
            ),
            (StartupPhase::Releasing(Ok(rpc)), StartupInput::Released) => (
                self.at(StartupPhase::StartingRpc),
                StartupAction::StartRpcServer {
                    rpc,
                    plugins_configured: self.plugins_configured,
                },
            ),
            (StartupPhase::Releasing(Err(error)), StartupInput::Released) => self.end(Err(error)),
            (StartupPhase::StartingRpc, StartupInput::RpcStarted(Ok(_))) => {
                if self.plugins_configured {
                    (self.at(StartupPhase::StartingGeyser), StartupAction::StartGeyser)
                } else {
                    self.start_clock()
                }
            },
            (StartupPhase::StartingRpc, StartupInput::RpcStarted(Err(error))) => self.end(
                Err(error),
            ),
            (StartupPhase::StartingGeyser, StartupInput::GeyserStarted(Ok(_))) => {
                self.start_clock()
            },
            (StartupPhase::StartingGeyser, StartupInput::GeyserStarted(Err(error))) => (
                self.at(StartupPhase::ReportingGeyser),
                StartupAction::SendEvent(SimnetEvent::Error(Failure::GeyserStart(error))),
            ),
            (StartupPhase::ReportingGeyser, StartupInput::Sent) => self.start_clock(),
            (StartupPhase::StartingClock, StartupInput::ClockStarted) => (
                self.at(StartupPhase::Announcing),
                StartupAction::SendEvent(SimnetEvent::Ready),
            ),
            (StartupPhase::Announcing, StartupInput::Sent) => (
                self.at(StartupPhase::Producing),
                StartupAction::ProduceBlocks(self.mode),
            ),
            (StartupPhase::Producing, StartupInput::Produced(error)) => self.end(Err(error)),
            _ => self.end(Ok(())),
        }
    }

    /// Takes what came of the last action and says what to do next.
    pub fn step(self, input: StartupInput<E>) -> (result: (Self, StartupAction<C, E>))
        requires
            self.expects(input),
        ensures
            result == self.next(input),
    {
        let Startup { slot_time, mode, plugins_configured, phase } = self;
        let (phase, action) = match (phase, input) {
            (
                StartupPhase::Acquiring { amount, addresses, remote_rpc_url, rpc },
                StartupInput::Acquired,
            ) => (
                StartupPhase::Airdropping { remote_rpc_url, rpc },
                StartupAction::AirdropPubkeys { amount, addresses },
            ),
            (
                StartupPhase::Airdropping { remote_rpc_url, rpc },
                StartupInput::Airdropped,
            ) => (
                StartupPhase::Connecting { rpc },
                StartupAction::Connect { remote_rpc_url },
            ),
            (StartupPhase::Connecting { rpc }, StartupInput::Connected(outcome)) => {
                let outcome = match outcome {
                    Ok(_) => Ok(rpc),
                    Err(error) => Err(error),
                };
                (StartupPhase::Releasing(outcome), StartupAction::ReleaseSvm)
            },
            (StartupPhase::Releasing(Ok(rpc)), StartupInput::Released) => (
                StartupPhase::StartingRpc,
                StartupAction::StartRpcServer { rpc, plugins_configured },
            ),
            (StartupPhase::Releasing(Err(error)), StartupInput::Released) => (
                StartupPhase::Stopped,
                StartupAction::Return(Err(error)),
            ),
            (StartupPhase::StartingRpc, StartupInput::RpcStarted(Ok(_))) => {
                if plugins_configured {
                    (StartupPhase::StartingGeyser, StartupAction::StartGeyser)
                } else {
                    (StartupPhase::StartingClock, StartupAction::StartClock { slot_time })
                }
            },
            (StartupPhase::StartingRpc, StartupInput::RpcStarted(Err(error))) => (
                StartupPhase::Stopped,
                StartupAction::Return(Err(error)),
            ),
            (StartupPhase::StartingGeyser, StartupInput::GeyserStarted(Ok(_))) => (
                StartupPhase::StartingClock,
                StartupAction::StartClock { slot_time },
            ),
            (StartupPhase::StartingGeyser, StartupInput::GeyserStarted(Err(error))) => (
                StartupPhase::ReportingGeyser,
                StartupAction::SendEvent(SimnetEvent::Error(Failure::GeyserStart(error))),
            ),
            (StartupPhase::ReportingGeyser, StartupInput::Sent) => (
                StartupPhase::StartingClock,
                StartupAction::StartClock { slot_time },
            ),
            (StartupPhase::StartingClock, StartupInput::ClockStarted) => (
                StartupPhase::Announcing,
                StartupAction::SendEvent(SimnetEvent::Ready),
            ),
            (StartupPhase::Announcing, StartupInput::Sent) => (
                StartupPhase::Producing,
                StartupAction::ProduceBlocks(mode),
            ),
            (StartupPhase::Producing, StartupInput::Produced(error)) => (
                StartupPhase::Stopped,
                StartupAction::Return(Err(error)),
            ),
            _ => unreached(),
        };
        (Startup { slot_time, mode, plugins_configured, phase }, action)
    }

    /// Each of the inputs answers the action before it.
    pub open spec fn follows(self, inputs: Seq<StartupInput<E>>) -> bool
        decreases inputs.len(),
    {
        inputs.len() == 0 || {
            &&& self.expects(inputs[0])
            &&& self.next(inputs[0]).0.follows(inputs.drop_first())
        }
    }

    /// The start-up after a series of inputs, and what it asked for after each.
    pub open spec fn run(self, inputs: Seq<StartupInput<E>>) -> (Self, Seq<StartupAction<C, E>>)
        decreases inputs.len(),
    {
        if inputs.len() == 0 {
            (self, Seq::empty())
        } else {
            let (state, action) = self.next(inputs[0]);
            let (last, actions) = state.run(inputs.drop_first());
            (last, seq![action] + actions)
        }
    }

    /// The start-up has the virtual machine to itself.
    pub open spec fn holds_svm(self) -> bool {
        ||| self.phase is Airdropping
        ||| self.phase is Connecting
        ||| self.phase is Releasing
    }
}

/// The start-up of the first simulated network of the configuration; where
/// there is none, there is nothing to start and nothing to fail.
pub fn start_local_surfnet_runloop<C, E>(config: SurfpoolConfig<C>) -> (result: Option<
    (Startup<C, E>, StartupAction<C, E>),
>)
    ensures
        result is None <==> config.simnets@.len() == 0,
        result matches Some((startup, _)) ==> config.startup::<E>() == Some(startup),
        result matches Some((startup, action)) ==> {
            &&& startup == Startup::<C, E>::of(
                config.simnets@[0],
                config.rpc,
                config.plugin_config_path@.len() > 0,
            )
            &&& action is AcquireSvm
        },
{
    let SurfpoolConfig { rpc, mut simnets, plugin_config_path } = config;
    if simnets.len() == 0 {
        return None;
    }
    let simnet = simnets.swap_remove(0);
    let startup = Startup {
        slot_time: simnet.slot_time,
        mode: simnet.block_production_mode,
        plugins_configured: plugin_config_path.len() > 0,
        phase: StartupPhase::Acquiring {
            amount: simnet.airdrop_token_amount,
            addresses: simnet.airdrop_addresses,
            remote_rpc_url: simnet.remote_rpc_url,
            rpc,
        },
    };
    Some((startup, StartupAction::AcquireSvm))
}

proof fn lemma_run_append<C, E>(
    state: Startup<C, E>,
    first: Seq<StartupInput<E>>,
    second: Seq<StartupInput<E>>,
)
    ensures
        state.run(first + second).0 == state.run(first).0.run(second).0,
        state.run(first + second).1 == state.run(first).1 + state.run(first).0.run(second).1,
        state.follows(first) && state.run(first).0.follows(second) ==> state.follows(
            first + second,
        ),
    decreases first.len(),
{
    if first.len() == 0 {
        assert(first + second =~= second);
        assert(state.run(first + second).1 =~= state.run(first).1 + state.run(
            first,
        ).0.run(second).1);
    } else {
        lemma_run_append(state.next(first[0]).0, first.drop_first(), second);
        assert((first + second).drop_first() =~= first.drop_first() + second);
        assert(state.run(first + second).1 =~= state.run(first).1 + state.run(
            first,
        ).0.run(second).1);
    }
}

proof fn lemma_until_connecting<C, E>(
    simnet: SimnetConfig,
    rpc: RpcConfig<C>,
    plugins_configured: bool,
)
    ensures
        ({
            let state = Startup::<C, E>::of(simnet, rpc, plugins_configured);
            let inputs = seq![StartupInput::<E>::Acquired, StartupInput::Airdropped];
            &&& state.follows(inputs)
            &&& state.run(inputs).0 == state.at(StartupPhase::Connecting { rpc })
            &&& state.run(inputs).1 == seq![
                StartupAction::<C, E>::AirdropPubkeys {
                    amount: simnet.airdrop_token_amount,
                    addresses: simnet.airdrop_addresses,
                },
                StartupAction::Connect { remote_rpc_url: simnet.remote_rpc_url },
            ]
        }),
{
    let state = Startup::<C, E>::of(simnet, rpc, plugins_configured);
    let inputs = seq![StartupInput::<E>::Acquired, StartupInput::Airdropped];
    reveal_with_fuel(Startup::run, 3);
    reveal_with_fuel(Startup::follows, 3);
    assert(state.run(inputs).1 =~= seq![
        StartupAction::<C, E>::AirdropPubkeys {
            amount: simnet.airdrop_token_amount,
            addresses: simnet.airdrop_addresses,
        },
        StartupAction::Connect { remote_rpc_url: simnet.remote_rpc_url },
    ]);
}

proof fn lemma_until_starting_rpc<C, E>(
    simnet: SimnetConfig,
    rpc: RpcConfig<C>,
    plugins_configured: bool,
)
    ensures
        ({
            let state = Startup::<C, E>::of(simnet, rpc, plugins_configured);
            let inputs = seq![
                StartupInput::<E>::Acquired,
                StartupInput::Airdropped,
                StartupInput::Connected(Ok(())),
                StartupInput::Released,
            ];
            &&& state.follows(inputs)
            &&& state.run(inputs).0 == state.at(StartupPhase::StartingRpc)
            &&& state.run(inputs).1 == seq![
                StartupAction::<C, E>::AirdropPubkeys {
                    amount: simnet.airdrop_token_amount,
                    addresses: simnet.airdrop_addresses,
                },
                StartupAction::Connect { remote_rpc_url: simnet.remote_rpc_url },
                StartupAction::ReleaseSvm,
                StartupAction::StartRpcServer { rpc, plugins_configured },
            ]
        }),
{
    let state = Startup::<C, E>::of(simnet, rpc, plugins_configured);
    let first = seq![StartupInput::<E>::Acquired, StartupInput::Airdropped];
    let second = seq![StartupInput::<E>::Connected(Ok(())), StartupInput::Released];
    let connecting = state.at(StartupPhase::Connecting { rpc });
    lemma_until_connecting::<C, E>(simnet, rpc, plugins_configured);
    assert({
        &&& connecting.follows(second)
        &&& connecting.run(second).0 == state.at(StartupPhase::StartingRpc)
        &&& connecting.run(second).1 =~= seq![
            StartupAction::<C, E>::ReleaseSvm,
            StartupAction::StartRpcServer { rpc, plugins_configured },
        ]
    }) by {
        reveal_with_fuel(Startup::run, 3);
        reveal_with_fuel(Startup::follows, 3);
    }
    lemma_run_append(state, first, second);
    assert(first + second =~= seq![
        StartupInput::Acquired,
        StartupInput::Airdropped,
        StartupInput::Connected(Ok(())),
        StartupInput::Released,
    ]);
}

/// What follows the start of the RPC server, up to that of the clock.
spec fn geyser_inputs<E>(plugins_configured: bool, geyser: Result<(), String>) -> Seq<
    StartupInput<E>,
> {
    if !plugins_configured {
        seq![]
    } else if geyser is Ok {
        seq![StartupInput::GeyserStarted(geyser)]
    } else {
        seq![StartupInput::GeyserStarted(geyser), StartupInput::Sent]
    }
}

proof fn lemma_until_starting_clock<C, E>(
    state: Startup<C, E>,
    geyser: Result<(), String>,
)
    requires
        state.phase is StartingRpc,
    ensures
        ({
            let inputs = seq![StartupInput::<E>::RpcStarted(Ok(()))] + geyser_inputs(
                state.plugins_configured,
                geyser,
            );
            &&& state.follows(inputs)
            &&& state.run(inputs).0 == state.at(StartupPhase::StartingClock)
            &&& state.run(inputs).1 == (if !state.plugins_configured {
                seq![]
            } else {
                match geyser {
                    Ok(_) => seq![StartupAction::<C, E>::StartGeyser],
                    Err(error) => seq![
                        StartupAction::<C, E>::StartGeyser,
                        StartupAction::SendEvent(SimnetEvent::Error(Failure::GeyserStart(error))),
                    ],
                }
            }) + seq![StartupAction::<C, E>::StartClock { slot_time: state.slot_time }]
        }),
{
    let inputs = seq![StartupInput::<E>::RpcStarted(Ok(()))] + geyser_inputs(
        state.plugins_configured,
        geyser,
    );
    reveal_with_fuel(Startup::run, 4);
    reveal_with_fuel(Startup::follows, 4);
    assert(state.run(inputs).1 =~= (if !state.plugins_configured {
        seq![]
    } else {
        match geyser {
            Ok(_) => seq![StartupAction::<C, E>::StartGeyser],
            Err(error) => seq![
                StartupAction::<C, E>::StartGeyser,
                StartupAction::SendEvent(SimnetEvent::Error(Failure::GeyserStart(error))),
            ],
        }
    }) + seq![StartupAction::<C, E>::StartClock { slot_time: state.slot_time }]);
}

proof fn lemma_until_the_end<C, E>(state: Startup<C, E>, error: E)
    requires
        state.phase is StartingClock,
    ensures
        ({
            let inputs = seq![
                StartupInput::ClockStarted,
                StartupInput::Sent,
                StartupInput::Produced(error),
            ];
            &&& state.follows(inputs)
            &&& state.run(inputs).0 == state.at(StartupPhase::Stopped)
            &&& state.run(inputs).1 == seq![
                StartupAction::<C, E>::SendEvent(SimnetEvent::Ready),
                StartupAction::ProduceBlocks(state.mode),
                StartupAction::Return(Err(error)),
            ]
        }),
{
    let inputs = seq![
        StartupInput::ClockStarted,
        StartupInput::Sent,
        StartupInput::Produced(error),
    ];
    reveal_with_fuel(Startup::run, 4);
    reveal_with_fuel(Startup::follows, 4);
    assert(state.run(inputs).1 =~= seq![
        StartupAction::<C, E>::SendEvent(SimnetEvent::Ready),
        StartupAction::ProduceBlocks(state.mode),
        StartupAction::Return(Err(error)),
    ]);
}

/// The network comes up in order: airdrops, the connection, the RPC server, the
/// Geyser runloop if plugins are configured, the clock with the configured
/// slots, the word that it is ready, and blocks in the configured mode. A Geyser
/// runloop that cannot be started is reported and done without. The error that ends
/// block production is the outcome.
pub proof fn law_network_comes_up<C, E>(
    simnet: SimnetConfig,
    rpc: RpcConfig<C>,
    plugins_configured: bool,
    geyser: Result<(), String>,
    error: E,
)
    ensures
        ({
            let state = Startup::<C, E>::of(simnet, rpc, plugins_configured);
            let inputs = seq![
                StartupInput::Acquired,
                StartupInput::Airdropped,
                StartupInput::Connected(Ok(())),
                StartupInput::Released,
                StartupInput::RpcStarted(Ok(())),
            ] + (if !plugins_configured {
                seq![]
            } else if geyser is Ok {
                seq![StartupInput::GeyserStarted(geyser)]
            } else {
                seq![StartupInput::GeyserStarted(geyser), StartupInput::Sent]
            }) + seq![
                StartupInput::ClockStarted,
                StartupInput::Sent,
                StartupInput::Produced(error),
            ];
            &&& state.follows(inputs)
            &&& state.run(inputs).0.phase is Stopped
            &&& state.run(inputs).1 == seq![
                StartupAction::<C, E>::AirdropPubkeys {
                    amount: simnet.airdrop_token_amount,
                    addresses: simnet.airdrop_addresses,
                },
                StartupAction::Connect { remote_rpc_url: simnet.remote_rpc_url },
                StartupAction::ReleaseSvm,
                StartupAction::StartRpcServer { rpc, plugins_configured },
            ] + (if !plugins_configured {
                seq![]
            } else {
                match geyser {
                    Ok(_) => seq![StartupAction::<C, E>::StartGeyser],
                    Err(error) => seq![
                        StartupAction::<C, E>::StartGeyser,
                        StartupAction::SendEvent(SimnetEvent::Error(Failure::GeyserStart(error))),
                    ],
                }
            }) + seq![
                StartupAction::<C, E>::StartClock { slot_time: simnet.slot_time },
                StartupAction::SendEvent(SimnetEvent::Ready),
                StartupAction::ProduceBlocks(simnet.block_production_mode),
                StartupAction::Return(Err(error)),
            ]
        }),
{
    let state = Startup::<C, E>::of(simnet, rpc, plugins_configured);
    let first = seq![
        StartupInput::<E>::Acquired,
        StartupInput::Airdropped,
        StartupInput::Connected(Ok(())),
        StartupInput::Released,
    ];
    let middle = seq![StartupInput::<E>::RpcStarted(Ok(()))] + geyser_inputs(
        plugins_configured,
        geyser,
    );
    let end = seq![
        StartupInput::ClockStarted,
        StartupInput::Sent,
        StartupInput::Produced(error),
    ];
    lemma_until_starting_rpc::<C, E>(simnet, rpc, plugins_configured);
    lemma_until_starting_clock(state.at(StartupPhase::StartingRpc), geyser);
    lemma_until_the_end(state.at(StartupPhase::StartingClock), error);
    lemma_run_append(state, first, middle);
    lemma_run_append(state, first + middle, end);
    assert(first + middle + end =~= seq![
        StartupInput::<E>::Acquired,
        StartupInput::Airdropped,
        StartupInput::Connected(Ok(())),
        StartupInput::Released,
        StartupInput::RpcStarted(Ok(())),
    ] + geyser_inputs(plugins_configured, geyser) + end);
}

/// Where the connection fails, the virtual machine is released, nothing is
/// started, and the error is the outcome; where the RPC server fails, nothing is
/// started after it, and the error is the outcome.
pub proof fn law_failed_start_is_the_outcome<C, E>(
    simnet: SimnetConfig,
    rpc: RpcConfig<C>,
    plugins_configured: bool,
    error: E,
)
    ensures
        ({
            let state = Startup::<C, E>::of(simnet, rpc, plugins_configured);
            let inputs = seq![
                StartupInput::Acquired,
                StartupInput::Airdropped,
                StartupInput::Connected(Err(error)),
                StartupInput::Released,
            ];
            &&& state.follows(inputs)
            &&& state.run(inputs).0.phase is Stopped
            &&& state.run(inputs).1 == seq![
                StartupAction::<C, E>::AirdropPubkeys {
                    amount: simnet.airdrop_token_amount,
                    addresses: simnet.airdrop_addresses,
                },
                StartupAction::Connect { remote_rpc_url: simnet.remote_rpc_url },
                StartupAction::ReleaseSvm,
                StartupAction::Return(Err(error)),
            ]
        }),
        ({
            let state = Startup::<C, E>::of(simnet, rpc, plugins_configured);
            let inputs = seq![
                StartupInput::Acquired,
                StartupInput::Airdropped,
                StartupInput::Connected(Ok(())),
                StartupInput::Released,
                StartupInput::RpcStarted(Err(error)),
            ];
            &&& state.follows(inputs)
            &&& state.run(inputs).0.phase is Stopped
            &&& state.run(inputs).1 == seq![
                StartupAction::<C, E>::AirdropPubkeys {
                    amount: simnet.airdrop_token_amount,
                    addresses: simnet.airdrop_addresses,
                },
                StartupAction::Connect { remote_rpc_url: simnet.remote_rpc_url },
                StartupAction::ReleaseSvm,
                StartupAction::StartRpcServer { rpc, plugins_configured },
                StartupAction::Return(Err(error)),
            ]
        }),
{
    let state = Startup::<C, E>::of(simnet, rpc, plugins_configured);
    let airdropped = seq![StartupInput::<E>::Acquired, StartupInput::Airdropped];
    let unconnected = seq![StartupInput::Connected(Err(error)), StartupInput::Released];
    let connecting = state.at(StartupPhase::Connecting { rpc });
    lemma_until_connecting::<C, E>(simnet, rpc, plugins_configured);
    assert({
        &&& connecting.follows(unconnected)
        &&& connecting.run(unconnected).0 == state.at(StartupPhase::Stopped)
        &&& connecting.run(unconnected).1 =~= seq![
            StartupAction::<C, E>::ReleaseSvm,
            StartupAction::Return(Err(error)),
        ]
    }) by {
        reveal_with_fuel(Startup::run, 3);
        reveal_with_fuel(Startup::follows, 3);
    }
    lemma_run_append(state, airdropped, unconnected);
    assert(airdropped + unconnected =~= seq![
        StartupInput::Acquired,
        StartupInput::Airdropped,
        StartupInput::Connected(Err(error)),
        StartupInput::Released,
    ]);

    let released = seq![
        StartupInput::<E>::Acquired,
        StartupInput::Airdropped,
        StartupInput::Connected(Ok(())),
        StartupInput::Released,
    ];
    let unserved = seq![StartupInput::RpcStarted(Err(error))];
    let starting = state.at(StartupPhase::StartingRpc);
    lemma_until_starting_rpc::<C, E>(simnet, rpc, plugins_configured);
    assert({
        &&& starting.follows(unserved)
        &&& starting.run(unserved).0 == state.at(StartupPhase::Stopped)
        &&& starting.run(unserved).1 =~= seq![StartupAction::<C, E>::Return(Err(error))]
    }) by {
        reveal_with_fuel(Startup::run, 2);
        reveal_with_fuel(Startup::follows, 2);
    }
    lemma_run_append(state, released, unserved);
    assert(released + unserved =~= seq![
        StartupInput::Acquired,
        StartupInput::Airdropped,
        StartupInput::Connected(Ok(())),
        StartupInput::Released,
        StartupInput::RpcStarted(Err(error)),
    ]);
}

impl<E> StartupInput<E> {
    /// The virtual machine was connected to the remote network.
    pub open spec fn is_connection(self) -> bool {
        self is Connected && self->Connected_0 is Ok
    }

    /// The RPC server came up.
    pub open spec fn is_rpc_start(self) -> bool {
        self is RpcStarted && self->RpcStarted_0 is Ok
    }

    /// The connection, the RPC server or block production failed with this error.
    pub open spec fn fails_with(self, error: E) -> bool {
        match self {
            StartupInput::Connected(Err(failure)) => failure == error,
            StartupInput::RpcStarted(Err(failure)) => failure == error,
            StartupInput::Produced(failure) => failure == error,
            _ => false,
        }
    }
}

impl<C, E> StartupPhase<C, E> {
    /// The connection has yet to be made.
    pub open spec fn is_before_connection(self) -> bool {
        ||| self is Acquiring
        ||| self is Airdropping
        ||| self is Connecting
    }

    /// The RPC server has yet to come up.
    pub open spec fn is_before_rpc(self) -> bool {
        ||| self.is_before_connection()
        ||| self is Releasing
        ||| self is StartingRpc
    }
}

proof fn lemma_run_len<C, E>(state: Startup<C, E>, inputs: Seq<StartupInput<E>>)
    ensures
        state.run(inputs).1.len() == inputs.len(),
    decreases inputs.len(),
{
    if inputs.len() > 0 {
        lemma_run_len(state.next(inputs[0]).0, inputs.drop_first());
    }
}

proof fn lemma_outcome_is_an_error<C, E>(
    state: Startup<C, E>,
    inputs: Seq<StartupInput<E>>,
    end: int,
)
    requires
        state.follows(inputs),
        0 <= end < inputs.len(),
        state.run(inputs).1[end] is Return,
    ensures
        end == inputs.len() - 1,
        state.run(inputs).1[end] matches StartupAction::Return(Err(error)) && {
            ||| state.phase == StartupPhase::<C, E>::Releasing(Err(error))
            ||| exists|i: int| 0 <= i <= end && (#[trigger] inputs[i]).fails_with(error)
        },
    decreases inputs.len(),
{
    let (next, action) = state.next(inputs[0]);
    let rest = inputs.drop_first();
    lemma_run_len(next, rest);
    if end > 0 {
        let last = next.run(rest).1[end - 1];
        assert(state.run(inputs).1[end] == last);
        lemma_outcome_is_an_error(next, rest, end - 1);
        let error = last->Return_0->Err_0;
        if next.phase == StartupPhase::<C, E>::Releasing(Err(error)) {
            assert(inputs[0].fails_with(error));
        } else {
            let i = choose|i: int| 0 <= i <= end - 1 && (#[trigger] rest[i]).fails_with(error);
            assert(inputs[i + 1].fails_with(error));
        }
    } else {
        assert(state.run(inputs).1[0] == action);
        if state.phase !is Releasing {
            assert(inputs[0].fails_with(action->Return_0->Err_0));
        }
        assert(!next.follows(rest) || rest.len() == 0);
    }
}

/// A network that was started returns only with an error, that of the
/// connection, of the RPC server or of block production, and does nothing after.
pub proof fn law_network_returns_only_errors<C, E>(
    simnet: SimnetConfig,
    rpc: RpcConfig<C>,
    plugins_configured: bool,
    inputs: Seq<StartupInput<E>>,
    end: int,
)
    requires
        Startup::<C, E>::of(simnet, rpc, plugins_configured).follows(inputs),
        0 <= end < inputs.len(),
        Startup::<C, E>::of(simnet, rpc, plugins_configured).run(inputs).1[end] is Return,
    ensures
        end == inputs.len() - 1,
        Startup::<C, E>::of(simnet, rpc, plugins_configured).run(
            inputs,
        ).1[end] matches StartupAction::Return(Err(error)) && exists|i: int|
            0 <= i <= end && (#[trigger] inputs[i]).fails_with(error),
{
    lemma_outcome_is_an_error(
        Startup::<C, E>::of(simnet, rpc, plugins_configured),
        inputs,
        end,
    );
}

/// A start-up that has yet to connect, or to bring up the RPC server, does not
/// say that the network is ready before it has.
pub proof fn law_ready_means_up<C, E>(
    state: Startup<C, E>,
    inputs: Seq<StartupInput<E>>,
    ready: int,
)
    requires
        state.follows(inputs),
        0 <= ready < inputs.len(),
        state.run(inputs).1[ready] == StartupAction::<C, E>::SendEvent(SimnetEvent::Ready),
    ensures
        state.phase.is_before_connection() ==> exists|i: int|
            0 <= i < ready && (#[trigger] inputs[i]).is_connection(),
        state.phase.is_before_rpc() ==> exists|i: int|
            0 <= i < ready && (#[trigger] inputs[i]).is_rpc_start(),
        !(state.phase is Stopped),
        state.phase is Releasing ==> state.phase->Releasing_0 is Ok,
    decreases inputs.len(),
{
    let (next, action) = state.next(inputs[0]);
    let rest = inputs.drop_first();
    lemma_run_len(next, rest);
    if ready > 0 {
        assert(next.run(rest).1[ready - 1] == StartupAction::<C, E>::SendEvent(SimnetEvent::Ready));
        law_ready_means_up(next, rest, ready - 1);
        if state.phase.is_before_connection() {
            if !inputs[0].is_connection() {
                let i = choose|i: int| 0 <= i < ready - 1 && (#[trigger] rest[i]).is_connection();
                assert(inputs[i + 1].is_connection());
            }
        }
        if state.phase.is_before_rpc() {
            if !inputs[0].is_rpc_start() {
                let i = choose|i: int| 0 <= i < ready - 1 && (#[trigger] rest[i]).is_rpc_start();
                assert(inputs[i + 1].is_rpc_start());
            }
        }
    }
}

/// The virtual machine is not held when anything is started, sent or returned:
/// only airdrops and the connection hold it.
pub proof fn law_svm_is_free_for_the_runloops<C, E>(state: Startup<C, E>, input: StartupInput<E>)
    requires
        state.expects(input),
    ensures
        ({
            let (next, action) = state.next(input);
            &&& next.holds_svm() <==> {
                ||| action is AirdropPubkeys
                ||| action is Connect
                ||| action is ReleaseSvm
            }
            &&& !state.holds_svm() && next.holds_svm() <==> input is Acquired
            &&& state.holds_svm() && !next.holds_svm() <==> input is Released
        }),
{
}

/// What each action answers: the airdrops come first, the connection behind them,
/// the RPC server once the virtual machine is released by a start-up that has
/// connected, the Geyser runloop once the server is up, where plugins are
/// configured, the clock once there is no Geyser runloop left to wait for, and
/// blocks once the network was said to be ready. The mode and the slots of the
/// network stay as configured.
pub proof fn law_what_each_action_answers<C, E>(state: Startup<C, E>, input: StartupInput<E>)
    requires
        state.expects(input),
    ensures
        ({
            let (next, action) = state.next(input);
            let served = input is RpcStarted && input->RpcStarted_0 is Ok;
            &&& action !is AcquireSvm
            &&& action is AirdropPubkeys <==> input is Acquired
            &&& action is Connect <==> input is Airdropped
            &&& action is ReleaseSvm <==> input is Connected
            &&& action is StartRpcServer <==> input is Released && state.phase->Releasing_0 is Ok
            &&& action is StartGeyser <==> served && state.plugins_configured
            &&& action is StartClock <==> {
                ||| served && !state.plugins_configured
                ||| input is GeyserStarted && input->GeyserStarted_0 is Ok
                ||| input is Sent && state.phase is ReportingGeyser
            }
            &&& action is StartClock ==> action == (StartupAction::<C, E>::StartClock {
                slot_time: state.slot_time,
            })
            &&& action == StartupAction::<C, E>::SendEvent(SimnetEvent::Ready)
                <==> input is ClockStarted
            &&& action is SendEvent <==> input is ClockStarted || (input is GeyserStarted
                && input->GeyserStarted_0 is Err)
            &&& action is ProduceBlocks <==> input is Sent && state.phase is Announcing
            &&& action is ProduceBlocks ==> action == StartupAction::<C, E>::ProduceBlocks(
                state.mode,
            )
            &&& next.slot_time == state.slot_time
            &&& next.mode == state.mode
            &&& next.plugins_configured == state.plugins_configured
        }),
{
}

/// The start-up expects what answers the action that it asked for, and nothing else.
pub proof fn law_answer_is_expected<C, E>(
    state: Startup<C, E>,
    input: StartupInput<E>,
    answer: StartupInput<E>,
)
    requires
        state.expects(input),
    ensures
        ({
            let (next, action) = state.next(input);
            next.expects(answer) <==> match action {
                StartupAction::AcquireSvm => answer is Acquired,
                StartupAction::AirdropPubkeys { .. } => answer is Airdropped,
                StartupAction::Connect { .. } => answer is Connected,
                StartupAction::ReleaseSvm => answer is Released,
                StartupAction::StartRpcServer { .. } => answer is RpcStarted,
                StartupAction::StartGeyser => answer is GeyserStarted,
                StartupAction::SendEvent(_) => answer is Sent,
                StartupAction::StartClock { .. } => answer is ClockStarted,
                StartupAction::ProduceBlocks(_) => answer is Produced,
                StartupAction::Return(_) => false,
            }
        }),
{
}

/// The network that is started is the first that is configured, and none where none
/// is: it is given its airdrops, connected to its remote network, and served by the
/// RPC server as that is configured, with plugins where any are.
pub proof fn law_first_network_is_started<C, E>(config: SurfpoolConfig<C>)
    ensures
        config.startup::<E>() is None <==> config.simnets@.len() == 0,
        config.simnets@.len() > 0 ==> {
            let simnet = config.simnets@[0];
            let startup = config.startup::<E>()->0;
            let inputs = seq![
                StartupInput::<E>::Acquired,
                StartupInput::Airdropped,
                StartupInput::Connected(Ok(())),
                StartupInput::Released,
            ];
            &&& startup.slot_time == simnet.slot_time
            &&& startup.mode == simnet.block_production_mode
            &&& startup.plugins_configured <==> config.plugin_config_path@.len() > 0
            &&& startup.follows(inputs)
            &&& startup.run(inputs).1 == seq![
                StartupAction::<C, E>::AirdropPubkeys {
                    amount: simnet.airdrop_token_amount,
                    addresses: simnet.airdrop_addresses,
                },
                StartupAction::Connect { remote_rpc_url: simnet.remote_rpc_url },
                StartupAction::ReleaseSvm,
                StartupAction::StartRpcServer {
                    rpc: config.rpc,
                    plugins_configured: config.plugin_config_path@.len() > 0,
                },
            ]
        },
{
    if config.simnets@.len() > 0 {
        lemma_until_starting_rpc::<C, E>(
            config.simnets@[0],
            config.rpc,
            config.plugin_config_path@.len() > 0,
        );
    }
}

} // verus!
