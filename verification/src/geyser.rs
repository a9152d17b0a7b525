//! The Geyser runloop: it mounts the plugins that are asked for and notifies
//! each of them of every transaction.

use vstd::prelude::*;
use vstd::pervasive::unreached;

use crate::event::{SimnetEvent, SUBGRAPH_PLUGIN};
use crate::failure::Failure;
use crate::transaction::{
    sanitize_and_replicate, sanitized_form, Transaction, TransactionMetadata, TransactionModel,
    TransactionReplica,
};

verus! {

/// The configuration that a subgraph plugin is loaded with.
#[derive(Debug)]
pub struct SubgraphPluginConfig<D> {
    pub uuid: u128,
    pub ipc_token: String,
    pub subgraph_request: D,
}

/// A command for the subgraph host. The request of the subgraph to create is
/// the [`GeyserRunloop::request`] of the runloop that gives the command.
#[derive(Debug)]
pub enum SubgraphCommand<N, R> {
    CreateSubgraph { uuid: u128, notifier: N },
    ObserveSubgraph(R),
}

/// What the runloop asks to have done.
#[derive(Debug)]
pub enum GeyserAction<D, N, R> {
    /// Wait for a plugin manager command or a Geyser event.
    Listen,
    /// Send a command to the subgraph host.
    SendSubgraphCommand(SubgraphCommand<N, R>),
    /// Make a plugin and open a one-shot server for it.
    OpenPlugin,
    /// Serialize the configuration of the open plugin.
    EncodeConfig(SubgraphPluginConfig<D>),
    /// Load the open plugin with its serialized configuration.
    LoadPlugin { config_file: String, is_reload: bool },
    /// Accept the connection of the open plugin to its server.
    AcceptConnection,
    /// Hand over the open plugin.
    MountPlugin,
    /// Send an event to the user interface.
    SendEvent(SimnetEvent),
    /// Notify the mounted plugin at this position of the runloop's
    /// [`GeyserRunloop::replica`].
    NotifyPlugin { plugin: usize },
    /// End the runloop with this failure.
    Stop(Failure),
}

/// What came of an action.
#[derive(Debug)]
pub enum GeyserInput<D, N, P, R> {
    /// A command asked for a plugin.
    LoadConfig { uuid: u128, request: D, notifier: N },
    /// The commands ended, with this error.
    CommandsClosed(String),
    /// An event brought a transaction: its replica, or why it was rejected.
    NewTransaction(Result<TransactionReplica, String>),
    /// The events ended, with this error.
    EventsClosed(String),
    /// The command or event was sent.
    Sent,
    /// The plugin's server is open under this token.
    Opened { ipc_token: String },
    /// The serialized configuration.
    Encoded(Result<String, String>),
    /// Whether the plugin could be loaded.
    Loaded(Result<(), String>),
    /// What the plugin sends over its connection, if it connected.
    Accepted(Option<R>),
    /// The plugin to mount.
    Mounted(P),
    /// Whether the plugin took the notification.
    Notified(Result<(), String>),
}

/// Where the runloop stands.
#[derive(Debug)]
pub enum GeyserPhase<D> {
    Listening,
    Announcing { uuid: u128, request: D },
    Opening { uuid: u128, request: D },
    Encoding,
    Loading,
    ReportingLoad,
    Accepting,
    Observing,
    Mounting,
    Reporting,
    Notifying { plugin: usize, replica: TransactionReplica },
    ReportingNotification { plugin: usize, replica: TransactionReplica },
    Stopped,
}

/// The Geyser runloop.
#[derive(Debug)]
pub struct GeyserRunloop<D, P> {
    pub phase: GeyserPhase<D>,
    pub plugins: Vec<P>,
}

/// What a [`GeyserRunloop`] holds.
pub ghost struct GeyserModel<D, P> {
    pub phase: GeyserPhase<D>,
    pub plugins: Seq<P>,
}

impl<D, P> View for GeyserRunloop<D, P> {
    type V = GeyserModel<D, P>;

    open spec fn view(&self) -> GeyserModel<D, P> {
        GeyserModel { phase: self.phase, plugins: self.plugins@ }
    }
}

impl<D, P> GeyserModel<D, P> {
    /// The plugin that a notification goes to is mounted.
    pub open spec fn well_formed(self) -> bool {
        match self.phase {
            GeyserPhase::Notifying { plugin, .. } => plugin < self.plugins.len(),
            GeyserPhase::ReportingNotification { plugin, .. } => plugin < self.plugins.len(),
            _ => true,
        }
    }

    /// The input answers the action that the runloop last asked for.
    pub open spec fn expects<N, R>(self, input: GeyserInput<D, N, P, R>) -> bool {
        match self.phase {
            GeyserPhase::Listening => {
                ||| input is LoadConfig
                ||| input is CommandsClosed
                ||| input is NewTransaction
                ||| input is EventsClosed
            },
            GeyserPhase::Opening { .. } => input is Opened,
            GeyserPhase::Encoding => input is Encoded,
            GeyserPhase::Loading => input is Loaded,
            GeyserPhase::Accepting => input is Accepted,
            GeyserPhase::Mounting => input is Mounted,
            GeyserPhase::Notifying { .. } => input is Notified,
            GeyserPhase::Stopped => false,
            _ => input is Sent,
        }
    }

    /// A runloop without plugins, which listens.
    pub open spec fn empty() -> Self {
        GeyserModel { phase: GeyserPhase::Listening, plugins: Seq::empty() }
    }

    /// The request of the subgraph that is being created.
    pub open spec fn requested(self) -> Option<D> {
        match self.phase {
            GeyserPhase::Announcing { request, .. } => Some(request),
            GeyserPhase::Opening { request, .. } => Some(request),
            _ => None,
        }
    }

    /// The transaction that the plugins are being notified of.
    pub open spec fn shown(self) -> Option<TransactionReplica> {
        match self.phase {
            GeyserPhase::Notifying { replica, .. } => Some(replica),
            GeyserPhase::ReportingNotification { replica, .. } => Some(replica),
            _ => None,
        }
    }

    /// The same runloop in another phase.
    pub open spec fn at(self, phase: GeyserPhase<D>) -> Self {
        GeyserModel { phase, plugins: self.plugins }
    }

    /// Notifies the plugin at position `plugin`, or listens if there is none.
    pub open spec fn notify_from<N, R>(
        plugins: Seq<P>,
        plugin: int,
        replica: TransactionReplica,
    ) -> (Self, GeyserAction<D, N, R>) {
        if plugin < plugins.len() {
            (
                GeyserModel {
                    phase: GeyserPhase::Notifying { plugin: plugin as usize, replica },
                    plugins,
                },
                GeyserAction::NotifyPlugin { plugin: plugin as usize },
            )
        } else {
            (GeyserModel { phase: GeyserPhase::Listening, plugins }, GeyserAction::Listen)
        }
    }

    /// Reports a failure, and listens again after it.
    pub open spec fn report<N, R>(self, failure: Failure) -> (Self, GeyserAction<D, N, R>) {
        (
            self.at(GeyserPhase::Reporting),
            GeyserAction::SendEvent(SimnetEvent::Error(failure)),
        )
    }

    /// The runloop after an input, and what it asks for next.
    pub open spec fn next<N, R>(self, input: GeyserInput<D, N, P, R>) -> (
        Self,
        GeyserAction<D, N, R>,
    ) {
        match (self.phase, input) {
            (GeyserPhase::Listening, GeyserInput::LoadConfig { uuid, request, notifier }) => (
                self.at(GeyserPhase::Announcing { uuid, request }),
                GeyserAction::SendSubgraphCommand(
                    SubgraphCommand::CreateSubgraph { uuid, notifier },
                ),
            ),
            (GeyserPhase::Listening, GeyserInput::CommandsClosed(error)) => (
                self.at(GeyserPhase::Stopped),
                GeyserAction::Stop(Failure::PluginCommands(error)),
            ),
            (GeyserPhase::Listening, GeyserInput::EventsClosed(error)) => (
                self.at(GeyserPhase::Stopped),
                GeyserAction::Stop(Failure::GeyserEvents(error)),
            ),
            (GeyserPhase::Listening, GeyserInput::NewTransaction(Ok(replica))) => {
                Self::notify_from(self.plugins, 0, replica)
            },
            (GeyserPhase::Listening, GeyserInput::NewTransaction(Err(error))) => {
                self.report(Failure::TransactionRejected(error))
            },
            (GeyserPhase::Announcing { uuid, request }, GeyserInput::Sent) => (
                self.at(GeyserPhase::Opening { uuid, request }),
                GeyserAction::OpenPlugin,
            ),
            (GeyserPhase::Opening { uuid, request }, GeyserInput::Opened { ipc_token }) => (
                self.at(GeyserPhase::Encoding),
                GeyserAction::EncodeConfig(
                    SubgraphPluginConfig { uuid, ipc_token, subgraph_request: request },
                ),
            ),
            (GeyserPhase::Encoding, GeyserInput::Encoded(Ok(config_file))) => (
                self.at(GeyserPhase::Loading),
                GeyserAction::LoadPlugin { config_file, is_reload: false },
            ),
            (GeyserPhase::Encoding, GeyserInput::Encoded(Err(error))) => {
                self.report(Failure::PluginConfig(error))
            },
            (GeyserPhase::Loading, GeyserInput::Loaded(Ok(_))) => (
                self.at(GeyserPhase::Accepting),
                GeyserAction::AcceptConnection,
            ),
            (GeyserPhase::Loading, GeyserInput::Loaded(Err(error))) => (
                self.at(GeyserPhase::ReportingLoad),
                GeyserAction::SendEvent(SimnetEvent::Error(Failure::PluginLoad(error))),
            ),
            (GeyserPhase::ReportingLoad, GeyserInput::Sent) => (
                self.at(GeyserPhase::Accepting),
                GeyserAction::AcceptConnection,
            ),
            (GeyserPhase::Accepting, GeyserInput::Accepted(Some(source))) => (
                self.at(GeyserPhase::Observing),
                GeyserAction::SendSubgraphCommand(SubgraphCommand::ObserveSubgraph(source)),
            ),
            (GeyserPhase::Accepting, GeyserInput::Accepted(None)) => (
                self.at(GeyserPhase::Mounting),
                GeyserAction::MountPlugin,
            ),
            (GeyserPhase::Observing, GeyserInput::Sent) => (
                self.at(GeyserPhase::Mounting),
                GeyserAction::MountPlugin,
            ),
            (GeyserPhase::Mounting, GeyserInput::Mounted(plugin)) => (
                GeyserModel { phase: GeyserPhase::Reporting, plugins: self.plugins.push(plugin) },
                GeyserAction::SendEvent(SimnetEvent::PluginLoaded(SUBGRAPH_PLUGIN)),
            ),
            (GeyserPhase::Reporting, GeyserInput::Sent) => (
                self.at(GeyserPhase::Listening),
                GeyserAction::Listen,
            ),
            (GeyserPhase::Notifying { plugin, replica }, GeyserInput::Notified(Ok(_))) => {
                Self::notify_from(self.plugins, plugin + 1, replica)
            },
            (GeyserPhase::Notifying { plugin, replica }, GeyserInput::Notified(Err(error))) => (
                self.at(GeyserPhase::ReportingNotification { plugin, replica }),
                GeyserAction::SendEvent(SimnetEvent::Error(Failure::PluginNotification(error))),
            ),
            (GeyserPhase::ReportingNotification { plugin, replica }, GeyserInput::Sent) => {
                Self::notify_from(self.plugins, plugin + 1, replica)
            },
            _ => (self, GeyserAction::Listen),
        }
    }
}

impl<D, P> GeyserRunloop<D, P> {
    fn notify_from<N, R>(plugins: Vec<P>, plugin: usize, replica: TransactionReplica) -> (result: (
        Self,
        GeyserAction<D, N, R>,
    ))
        ensures
            (result.0@, result.1) == GeyserModel::<D, P>::notify_from::<N, R>(
                plugins@,
                plugin as int,
                replica,
            ),
    {
        if plugin < plugins.len() {
            (
                GeyserRunloop { phase: GeyserPhase::Notifying { plugin, replica }, plugins },
                GeyserAction::NotifyPlugin { plugin },
            )
        } else {
            (GeyserRunloop { phase: GeyserPhase::Listening, plugins }, GeyserAction::Listen)
        }
    }

    /// Takes what came of the last action and says what to do next.
    pub fn step<N, R>(self, input: GeyserInput<D, N, P, R>) -> (result: (
        Self,
        GeyserAction<D, N, R>,
    ))
        requires
            self@.well_formed(),
            self@.expects(input),
        ensures
            (result.0@, result.1) == self@.next(input),
            result.0@.well_formed(),
    {
        let GeyserRunloop { phase, mut plugins } = self;
        assert(plugins@.len() == plugins.len());
        match (phase, input) {
            (GeyserPhase::Listening, GeyserInput::LoadConfig { uuid, request, notifier }) => (
                GeyserRunloop { phase: GeyserPhase::Announcing { uuid, request }, plugins },
                GeyserAction::SendSubgraphCommand(
                    SubgraphCommand::CreateSubgraph { uuid, notifier },
                ),
            ),
            (GeyserPhase::Listening, GeyserInput::CommandsClosed(error)) => (
                GeyserRunloop { phase: GeyserPhase::Stopped, plugins },
                GeyserAction::Stop(Failure::PluginCommands(error)),
            ),
            (GeyserPhase::Listening, GeyserInput::EventsClosed(error)) => (
                GeyserRunloop { phase: GeyserPhase::Stopped, plugins },
                GeyserAction::Stop(Failure::GeyserEvents(error)),
            ),
            (GeyserPhase::Listening, GeyserInput::NewTransaction(Ok(replica))) => {
                Self::notify_from(plugins, 0, replica)
            },
            (GeyserPhase::Listening, GeyserInput::NewTransaction(Err(error))) => (
                GeyserRunloop { phase: GeyserPhase::Reporting, plugins },
                GeyserAction::SendEvent(SimnetEvent::Error(Failure::TransactionRejected(error))),
            ),
            (GeyserPhase::Announcing { uuid, request }, GeyserInput::Sent) => (
                GeyserRunloop { phase: GeyserPhase::Opening { uuid, request }, plugins },
                GeyserAction::OpenPlugin,
            ),
            (GeyserPhase::Opening { uuid, request }, GeyserInput::Opened { ipc_token }) => (
                GeyserRunloop { phase: GeyserPhase::Encoding, plugins },
                GeyserAction::EncodeConfig(
                    SubgraphPluginConfig { uuid, ipc_token, subgraph_request: request },
                ),
            ),
            (GeyserPhase::Encoding, GeyserInput::Encoded(Ok(config_file))) => (
                GeyserRunloop { phase: GeyserPhase::Loading, plugins },
                GeyserAction::LoadPlugin { config_file, is_reload: false },
            ),
            (GeyserPhase::Encoding, GeyserInput::Encoded(Err(error))) => (
                GeyserRunloop { phase: GeyserPhase::Reporting, plugins },
                GeyserAction::SendEvent(SimnetEvent::Error(Failure::PluginConfig(error))),
            ),
            (GeyserPhase::Loading, GeyserInput::Loaded(Ok(_))) => (
                GeyserRunloop { phase: GeyserPhase::Accepting, plugins },
                GeyserAction::AcceptConnection,
            ),
            (GeyserPhase::Loading, GeyserInput::Loaded(Err(error))) => (
                GeyserRunloop { phase: GeyserPhase::ReportingLoad, plugins },
                GeyserAction::SendEvent(SimnetEvent::Error(Failure::PluginLoad(error))),
            ),
            (GeyserPhase::ReportingLoad, GeyserInput::Sent) => (
                GeyserRunloop { phase: GeyserPhase::Accepting, plugins },
                GeyserAction::AcceptConnection,
            ),
            (GeyserPhase::Accepting, GeyserInput::Accepted(Some(source))) => (
                GeyserRunloop { phase: GeyserPhase::Observing, plugins },
                GeyserAction::SendSubgraphCommand(SubgraphCommand::ObserveSubgraph(source)),
            ),
            (GeyserPhase::Accepting, GeyserInput::Accepted(None)) => (
                GeyserRunloop { phase: GeyserPhase::Mounting, plugins },
                GeyserAction::MountPlugin,
            ),
            (GeyserPhase::Observing, GeyserInput::Sent) => (
                GeyserRunloop { phase: GeyserPhase::Mounting, plugins },
                GeyserAction::MountPlugin,
            ),
            (GeyserPhase::Mounting, GeyserInput::Mounted(plugin)) => {
                plugins.push(plugin);
                (
                    GeyserRunloop { phase: GeyserPhase::Reporting, plugins },
                    GeyserAction::SendEvent(SimnetEvent::PluginLoaded(SUBGRAPH_PLUGIN)),
                )
            },
            (GeyserPhase::Reporting, GeyserInput::Sent) => (
                GeyserRunloop { phase: GeyserPhase::Listening, plugins },
                GeyserAction::Listen,
            ),
            (GeyserPhase::Notifying { plugin, replica }, GeyserInput::Notified(Ok(_))) => {
                Self::notify_from(plugins, plugin + 1, replica)
            },
            (GeyserPhase::Notifying { plugin, replica }, GeyserInput::Notified(Err(error))) => (
                GeyserRunloop {
                    phase: GeyserPhase::ReportingNotification { plugin, replica },
                    plugins,
                },
                GeyserAction::SendEvent(SimnetEvent::Error(Failure::PluginNotification(error))),
            ),
            (GeyserPhase::ReportingNotification { plugin, replica }, GeyserInput::Sent) => {
                Self::notify_from(plugins, plugin + 1, replica)
            },
            _ => unreached(),
        }
    }
}

/// A runloop without plugins, which listens.
pub fn start_geyser_runloop<D, N, P, R>() -> (result: (
    GeyserRunloop<D, P>,
    GeyserAction<D, N, R>,
))
    ensures
        result.0@ == (GeyserModel::<D, P> {
            phase: GeyserPhase::Listening,
            plugins: Seq::empty(),
        }),
        result.0@ == GeyserModel::<D, P>::empty(),
        result.0@.well_formed(),
        result.1 == GeyserAction::<D, N, R>::Listen,
{
    (
        GeyserRunloop { phase: GeyserPhase::Listening, plugins: Vec::new() },
        GeyserAction::Listen,
    )
}

/// What comes of starting the runloop: it fails where its thread could not be
/// spawned, and only there. How the thread ends, and what its plugins report, is
/// no part of it.
pub fn geyser_spawned(spawned: Result<(), String>) -> (result: Result<(), Failure>)
    ensures
        result is Ok <==> spawned is Ok,
        spawned matches Err(error) ==> result == Err::<(), Failure>(Failure::GeyserSpawn(error)),
{
    match spawned {
        Ok(_) => Ok(()),
        Err(error) => Err(Failure::GeyserSpawn(error)),
    }
}

impl<D, P> GeyserRunloop<D, P> {
    /// The request of the subgraph that is being created.
    pub fn request(&self) -> (request: Option<&D>)
        ensures
            request == match self@.phase {
                GeyserPhase::Announcing { request, .. } => Some(&request),
                GeyserPhase::Opening { request, .. } => Some(&request),
                _ => None,
            },
            request is Some <==> self@.requested() is Some,
            request matches Some(request) ==> self@.requested() == Some(*request),
    {
        match &self.phase {
            GeyserPhase::Announcing { request, .. } => Some(request),
            GeyserPhase::Opening { request, .. } => Some(request),
            _ => None,
        }
    }

    /// The transaction that the plugins are being notified of.
    pub fn replica(&self) -> (replica: Option<&TransactionReplica>)
        ensures
            replica == match self@.phase {
                GeyserPhase::Notifying { replica, .. } => Some(&replica),
                GeyserPhase::ReportingNotification { replica, .. } => Some(&replica),
                _ => None,
            },
            replica is Some <==> self@.shown() is Some,
            replica matches Some(replica) ==> self@.shown() == Some(*replica),
    {
        match &self.phase {
            GeyserPhase::Notifying { replica, .. } => Some(replica),
            GeyserPhase::ReportingNotification { replica, .. } => Some(replica),
            _ => None,
        }
    }

    /// Takes a transaction that an event brought: the plugins are notified of
    /// it, one after the other, unless it does not pass sanitization.
    pub fn transaction_received<N, R>(
        self,
        transaction: Transaction,
        metadata: TransactionMetadata,
        slot: u64,
    ) -> (result: (Self, GeyserAction<D, N, R>))
        requires
            self@.phase is Listening,
            transaction@.can_be_sanitized(),
        ensures
            result.0@.well_formed(),
            transaction@.is_accepted() ==> exists|replica: TransactionReplica|
                {
                    &&& #[trigger] replica.shows(sanitized_form(transaction@), metadata, slot)
                    &&& (result.0@, result.1) == self@.next(
                        GeyserInput::<D, N, P, R>::NewTransaction(Ok(replica)),
                    )
                },
            !transaction@.is_accepted() ==> exists|error: String|
                {
                    &&& #[trigger] error@ == transaction@.rejection()
                    &&& (result.0@, result.1) == self@.next(
                        GeyserInput::<D, N, P, R>::NewTransaction(Err(error)),
                    )
                },
            result.0@.plugins == self@.plugins,
            transaction@.is_accepted() && self@.plugins.len() == 0 ==> result.0@ == self@
                && result.1 is Listen,
            transaction@.is_accepted() && self@.plugins.len() > 0 ==> {
                &&& result.1 == (GeyserAction::<D, N, R>::NotifyPlugin { plugin: 0 })
                &&& result.0@.phase is Notifying
                &&& result.0@.phase->Notifying_plugin == 0
                &&& {
                    let replica = result.0@.phase->Notifying_replica;
                    &&& replica.slot == slot
                    &&& replica.signature == metadata.signature
                    &&& replica.transaction == sanitized_form(transaction@)
                    &&& !replica.is_vote
                    &&& replica.index == 0
                    &&& replica.transaction_status_meta.reports(metadata)
                    &&& replica.transaction_status_meta.log_messages == Some(metadata.logs)
                    &&& replica.transaction_status_meta.return_data == Some(metadata.return_data)
                    &&& replica.transaction_status_meta.compute_units_consumed == Some(
                        metadata.compute_units_consumed,
                    )
                }
            },
            !transaction@.is_accepted() ==> {
                &&& result.0@.phase is Reporting
                &&& result.1 is SendEvent
                &&& result.1->SendEvent_0 is Error
                &&& result.1->SendEvent_0->Error_0 is TransactionRejected
                &&& result.1->SendEvent_0->Error_0->TransactionRejected_0@
                    == transaction@.rejection()
            },
    {
        let outcome = sanitize_and_replicate(transaction, metadata, slot);
        self.step(GeyserInput::NewTransaction(outcome))
    }
}

impl<D, P> GeyserModel<D, P> {
    /// Each of the inputs answers the action before it.
    pub open spec fn follows<N, R>(self, inputs: Seq<GeyserInput<D, N, P, R>>) -> bool
        decreases inputs.len(),
    {
        inputs.len() == 0 || {
            &&& self.expects(inputs[0])
            &&& self.next(inputs[0]).0.follows(inputs.drop_first())
        }
    }

    /// The runloop after a series of inputs, and what it asked for after each.
    pub open spec fn run<N, R>(self, inputs: Seq<GeyserInput<D, N, P, R>>) -> (
        Self,
        Seq<GeyserAction<D, N, R>>,
    )
        decreases inputs.len(),
    {
        if inputs.len() == 0 {
            (self, Seq::empty())
        } else {
            let (state, action) = self.next(inputs[0]);
            let (last, actions) = state.run(inputs.drop_first());
            (last, seq![action] + actions)
        }
    }

    /// The notifications that a series of inputs leads to: the position of the
    /// plugin and what it is shown.
    pub open spec fn notifications<N, R>(self, inputs: Seq<GeyserInput<D, N, P, R>>) -> Seq<
        (usize, TransactionReplica),
    >
        decreases inputs.len(),
    {
        if inputs.len() == 0 {
            Seq::empty()
        } else {
            let (state, action) = self.next(inputs[0]);
            let rest = state.notifications(inputs.drop_first());
            match (action, state.phase) {
                (
                    GeyserAction::NotifyPlugin { plugin },
                    GeyserPhase::Notifying { replica, .. },
                ) => seq![(plugin, replica)] + rest,
                _ => rest,
            }
        }
    }
}

/// The failures that the actions report, in order.
pub open spec fn reported<D, N, R>(actions: Seq<GeyserAction<D, N, R>>) -> Seq<Failure>
    decreases actions.len(),
{
    if actions.len() == 0 {
        Seq::empty()
    } else {
        let rest = reported(actions.drop_first());
        match actions[0] {
            GeyserAction::SendEvent(SimnetEvent::Error(failure)) => seq![failure] + rest,
            _ => rest,
        }
    }
}

/// The inputs by which plugins answer their notifications with `results`.
pub open spec fn notification_answers<D, N, P, R>(results: Seq<Result<(), String>>) -> Seq<
    GeyserInput<D, N, P, R>,
>
    decreases results.len(),
{
    if results.len() == 0 {
        Seq::empty()
    } else {
        let rest = notification_answers(results.drop_first());
        match results[0] {
            Ok(_) => seq![GeyserInput::Notified(results[0])] + rest,
            Err(_) => seq![GeyserInput::Notified(results[0]), GeyserInput::Sent] + rest,
        }
    }
}

/// The failures to report for `results`.
pub open spec fn notification_failures(results: Seq<Result<(), String>>) -> Seq<Failure>
    decreases results.len(),
{
    if results.len() == 0 {
        Seq::empty()
    } else {
        let rest = notification_failures(results.drop_first());
        match results[0] {
            Ok(_) => rest,
            Err(error) => seq![Failure::PluginNotification(error)] + rest,
        }
    }
}

proof fn lemma_actions_prepend<D, N, R>(
    action: GeyserAction<D, N, R>,
    actions: Seq<GeyserAction<D, N, R>>,
)
    ensures
        reported(seq![action] + actions) == (match action {
            GeyserAction::SendEvent(SimnetEvent::Error(failure)) => seq![failure] + reported(
                actions,
            ),
            _ => reported(actions),
        }),
{
    assert((seq![action] + actions).drop_first() =~= actions);
}

proof fn lemma_notifications_from<D, N, P, R>(
    state: GeyserModel<D, P>,
    plugin: usize,
    replica: TransactionReplica,
    results: Seq<Result<(), String>>,
)
    requires
        state.phase == (GeyserPhase::<D>::Notifying { plugin, replica }),
        state.plugins.len() <= usize::MAX,
        plugin + results.len() == state.plugins.len(),
        results.len() > 0,
    ensures
        ({
            let inputs = notification_answers::<D, N, P, R>(results);
            let (last, actions) = state.run(inputs);
            &&& state.follows(inputs)
            &&& last == state.at(GeyserPhase::Listening)
            &&& actions.len() > 0
            &&& actions.last() is Listen
            &&& state.notifications(inputs) == Seq::new(
                (results.len() - 1) as nat,
                |k: int| ((plugin + 1 + k) as usize, replica),
            )
            &&& reported(actions) == notification_failures(results)
        }),
    decreases results.len(),
{
    reveal_with_fuel(GeyserModel::run, 3);
    reveal_with_fuel(GeyserModel::follows, 3);
    reveal_with_fuel(GeyserModel::notifications, 3);
    reveal_with_fuel(notification_failures, 2);
    let inputs = notification_answers::<D, N, P, R>(results);
    let rest_results = results.drop_first();
    let rest = notification_answers::<D, N, P, R>(rest_results);
    let (first, first_action) = state.next(inputs[0]);
    let (before_rest, action) = match results[0] {
        Ok(_) => {
            assert(inputs.drop_first() =~= rest);
            (first, first_action)
        },
        Err(_) => {
            assert(inputs.drop_first()[0] is Sent);
            assert(inputs.drop_first().drop_first() =~= rest);
            first.next(inputs.drop_first()[0])
        },
    };
    let (last, actions) = before_rest.run(rest);
    lemma_actions_prepend(action, actions);
    if results[0] is Err {
        lemma_actions_prepend(first_action, seq![action] + actions);
    }
    if rest_results.len() > 0 {
        lemma_notifications_from::<D, N, P, R>(
            before_rest,
            (plugin + 1) as usize,
            replica,
            rest_results,
        );
    }
    assert(state.notifications(inputs) =~= Seq::new(
        (results.len() - 1) as nat,
        |k: int| ((plugin + 1 + k) as usize, replica),
    ));
}

/// Every mounted plugin is notified of an accepted transaction, once, in the
/// order in which they were mounted and with the same replica, whatever the
/// others answered; each error is reported, and the runloop then listens again
/// with the same plugins.
pub proof fn law_every_plugin_is_notified<D, N, P, R>(
    state: GeyserModel<D, P>,
    replica: TransactionReplica,
    results: Seq<Result<(), String>>,
)
    requires
        state.phase is Listening,
        state.plugins.len() <= usize::MAX,
        results.len() == state.plugins.len(),
    ensures
        ({
            let inputs = seq![GeyserInput::NewTransaction(Ok(replica))] + notification_answers::<
                D,
                N,
                P,
                R,
            >(results);
            let (last, actions) = state.run(inputs);
            &&& state.follows(inputs)
            &&& last == state
            &&& actions.last() is Listen
            &&& state.notifications(inputs) == Seq::new(
                state.plugins.len(),
                |k: int| (k as usize, replica),
            )
            &&& reported(actions) == notification_failures(results)
        }),
{
    reveal_with_fuel(GeyserModel::run, 2);
    reveal_with_fuel(GeyserModel::follows, 2);
    reveal_with_fuel(GeyserModel::notifications, 2);
    let answers = notification_answers::<D, N, P, R>(results);
    let inputs = seq![GeyserInput::NewTransaction(Ok(replica))] + answers;
    assert(inputs.drop_first() =~= answers);
    let (first, action) = state.next(inputs[0]);
    let (last, actions) = first.run(answers);
    lemma_actions_prepend(action, actions);
    if results.len() > 0 {
        lemma_notifications_from::<D, N, P, R>(first, 0, replica, results);
    }
    assert(state.notifications(inputs) =~= Seq::new(
        state.plugins.len(),
        |k: int| (k as usize, replica),
    ));
}

/// A transaction that was rejected reaches no plugin: the failure is reported,
/// and the runloop listens again as before.
pub proof fn law_rejected_transaction_is_only_reported<D, N, P, R>(
    state: GeyserModel<D, P>,
    error: String,
)
    requires
        state.phase is Listening,
    ensures
        ({
            let inputs = seq![
                GeyserInput::<D, N, P, R>::NewTransaction(Err(error)),
                GeyserInput::Sent,
            ];
            &&& state.follows(inputs)
            &&& state.run(inputs).0 == state
            &&& state.run(inputs).1 == seq![
                GeyserAction::<D, N, R>::SendEvent(SimnetEvent::Error(Failure::TransactionRejected(error))),
                GeyserAction::Listen,
            ]
        }),
{
    reveal_with_fuel(GeyserModel::run, 3);
    reveal_with_fuel(GeyserModel::follows, 3);
}

proof fn lemma_run_append<D, N, P, R>(
    state: GeyserModel<D, P>,
    first: Seq<GeyserInput<D, N, P, R>>,
    second: Seq<GeyserInput<D, N, P, R>>,
)
    ensures
        state.run(first + second).0 == state.run(first).0.run(second).0,
        state.run(first + second).1 == state.run(first).1 + state.run(first).0.run(second).1,
        state.follows(first) && state.run(first).0.follows(second) ==> state.follows(
            first + second,
        ),
    decreases first.len(),
{
    if first.len() == 0 {
        assert(first + second =~= second);
    } else {
        lemma_run_append(state.next(first[0]).0, first.drop_first(), second);
        assert((first + second).drop_first() =~= first.drop_first() + second);
    }
    assert(state.run(first + second).1 =~= state.run(first).1 + state.run(first).0.run(second).1);
}

proof fn lemma_plugin_is_opened<D, N, P, R>(
    state: GeyserModel<D, P>,
    uuid: u128,
    request: D,
    notifier: N,
    ipc_token: String,
)
    requires
        state.phase is Listening,
    ensures
        ({
            let inputs = seq![
                GeyserInput::<D, N, P, R>::LoadConfig { uuid, request, notifier },
                GeyserInput::Sent,
                GeyserInput::Opened { ipc_token },
            ];
            &&& state.follows(inputs)
            &&& state.run(inputs).0 == state.at(GeyserPhase::Encoding)
            &&& state.run(inputs).1 == seq![
                GeyserAction::<D, N, R>::SendSubgraphCommand(
                    SubgraphCommand::CreateSubgraph { uuid, notifier },
                ),
                GeyserAction::OpenPlugin,
                GeyserAction::EncodeConfig(
                    SubgraphPluginConfig { uuid, ipc_token, subgraph_request: request },
                ),
            ]
        }),
{
    let inputs = seq![
        GeyserInput::<D, N, P, R>::LoadConfig { uuid, request, notifier },
        GeyserInput::Sent,
        GeyserInput::Opened { ipc_token },
    ];
    reveal_with_fuel(GeyserModel::run, 4);
    reveal_with_fuel(GeyserModel::follows, 4);
    assert(state.run(inputs).1 =~= seq![
        GeyserAction::<D, N, R>::SendSubgraphCommand(
            SubgraphCommand::CreateSubgraph { uuid, notifier },
        ),
        GeyserAction::OpenPlugin,
        GeyserAction::EncodeConfig(
            SubgraphPluginConfig { uuid, ipc_token, subgraph_request: request },
        ),
    ]);
}

/// What answers the loading of a plugin.
spec fn loading<D, N, P, R>(config_file: String, loaded: Result<(), String>) -> Seq<
    GeyserInput<D, N, P, R>,
> {
    seq![GeyserInput::Encoded(Ok(config_file)), GeyserInput::Loaded(loaded)] + if loaded is Err {
        seq![GeyserInput::Sent]
    } else {
        seq![]
    }
}

proof fn lemma_plugin_is_loaded<D, N, P, R>(
    state: GeyserModel<D, P>,
    config_file: String,
    loaded: Result<(), String>,
)
    requires
        state.phase is Encoding,
    ensures
        ({
            let inputs = loading::<D, N, P, R>(config_file, loaded);
            &&& state.follows(inputs)
            &&& state.run(inputs).0 == state.at(GeyserPhase::Accepting)
            &&& state.run(inputs).1 == seq![
                GeyserAction::<D, N, R>::LoadPlugin { config_file, is_reload: false },
            ] + (match loaded {
                Ok(_) => seq![],
                Err(error) => seq![
                    GeyserAction::SendEvent(SimnetEvent::Error(Failure::PluginLoad(error))),
                ],
            }) + seq![GeyserAction::AcceptConnection]
        }),
{
    let inputs = loading::<D, N, P, R>(config_file, loaded);
    reveal_with_fuel(GeyserModel::run, 4);
    reveal_with_fuel(GeyserModel::follows, 4);
    assert(state.run(inputs).1 =~= seq![
        GeyserAction::<D, N, R>::LoadPlugin { config_file, is_reload: false },
    ] + (match loaded {
        Ok(_) => seq![],
        Err(error) => seq![
            GeyserAction::SendEvent(SimnetEvent::Error(Failure::PluginLoad(error))),
        ],
    }) + seq![GeyserAction::AcceptConnection]);
}

/// What answers the acceptance of the connection of a plugin.
spec fn accepting<D, N, P, R>(source: Option<R>) -> Seq<GeyserInput<D, N, P, R>> {
    seq![GeyserInput::Accepted(source)] + if source is Some {
        seq![GeyserInput::Sent]
    } else {
        seq![]
    }
}

proof fn lemma_plugin_is_accepted<D, N, P, R>(state: GeyserModel<D, P>, source: Option<R>)
    requires
        state.phase is Accepting,
    ensures
        ({
            let inputs = accepting::<D, N, P, R>(source);
            &&& state.follows(inputs)
            &&& state.run(inputs).0 == state.at(GeyserPhase::Mounting)
            &&& state.run(inputs).1 == (match source {
                None => seq![],
                Some(source) => seq![
                    GeyserAction::<D, N, R>::SendSubgraphCommand(
                        SubgraphCommand::ObserveSubgraph(source),
                    ),
                ],
            }) + seq![GeyserAction::MountPlugin]
        }),
{
    let inputs = accepting::<D, N, P, R>(source);
    reveal_with_fuel(GeyserModel::run, 3);
    reveal_with_fuel(GeyserModel::follows, 3);
    assert(state.run(inputs).1 =~= (match source {
        None => seq![],
        Some(source) => seq![
            GeyserAction::<D, N, R>::SendSubgraphCommand(SubgraphCommand::ObserveSubgraph(source)),
        ],
    }) + seq![GeyserAction::MountPlugin]);
}

proof fn lemma_open_plugin_is_mounted<D, N, P, R>(state: GeyserModel<D, P>, plugin: P)
    requires
        state.phase is Mounting,
    ensures
        ({
            let inputs = seq![GeyserInput::<D, N, P, R>::Mounted(plugin), GeyserInput::Sent];
            &&& state.follows(inputs)
            &&& state.run(inputs).0 == (GeyserModel {
                phase: GeyserPhase::<D>::Listening,
                plugins: state.plugins.push(plugin),
            })
            &&& state.run(inputs).1 == seq![
                GeyserAction::<D, N, R>::SendEvent(SimnetEvent::PluginLoaded(SUBGRAPH_PLUGIN)),
                GeyserAction::Listen,
            ]
        }),
{
    let inputs = seq![GeyserInput::<D, N, P, R>::Mounted(plugin), GeyserInput::Sent];
    reveal_with_fuel(GeyserModel::run, 3);
    reveal_with_fuel(GeyserModel::follows, 3);
    assert(state.run(inputs).1 =~= seq![
        GeyserAction::<D, N, R>::SendEvent(SimnetEvent::PluginLoaded(SUBGRAPH_PLUGIN)),
        GeyserAction::Listen,
    ]);
}

/// A plugin whose configuration can be serialized is mounted behind those
/// mounted before it, whether or not it reported an error when it was loaded
/// and whether or not it connected. Its subgraph is created first; its
/// configuration holds the identifier and the request of that subgraph.
pub proof fn law_plugin_is_mounted<D, N, P, R>(
    state: GeyserModel<D, P>,
    uuid: u128,
    request: D,
    notifier: N,
    ipc_token: String,
    config_file: String,
    loaded: Result<(), String>,
    source: Option<R>,
    plugin: P,
)
    requires
        state.phase is Listening,
    ensures
        ({
            let inputs = seq![
                GeyserInput::LoadConfig { uuid, request, notifier },
                GeyserInput::Sent,
                GeyserInput::Opened { ipc_token },
                GeyserInput::Encoded(Ok(config_file)),
                GeyserInput::Loaded(loaded),
            ] + (if loaded is Err {
                seq![GeyserInput::Sent]
            } else {
                seq![]
            }) + seq![GeyserInput::Accepted(source)] + (if source is Some {
                seq![GeyserInput::Sent]
            } else {
                seq![]
            }) + seq![GeyserInput::Mounted(plugin), GeyserInput::Sent];
            let (last, actions) = state.run(inputs);
            &&& state.follows(inputs)
            &&& last.phase is Listening
            &&& last.plugins == state.plugins.push(plugin)
            &&& actions == seq![
                GeyserAction::SendSubgraphCommand(
                    SubgraphCommand::CreateSubgraph { uuid, notifier },
                ),
                GeyserAction::OpenPlugin,
                GeyserAction::EncodeConfig(
                    SubgraphPluginConfig { uuid, ipc_token, subgraph_request: request },
                ),
                GeyserAction::LoadPlugin { config_file, is_reload: false },
            ] + (match loaded {
                Ok(_) => seq![],
                Err(error) => seq![
                    GeyserAction::SendEvent(SimnetEvent::Error(Failure::PluginLoad(error))),
                ],
            }) + seq![GeyserAction::AcceptConnection] + (match source {
                None => seq![],
                Some(source) => seq![
                    GeyserAction::SendSubgraphCommand(SubgraphCommand::ObserveSubgraph(source)),
                ],
            }) + seq![
                GeyserAction::MountPlugin,
                GeyserAction::SendEvent(SimnetEvent::PluginLoaded(SUBGRAPH_PLUGIN)),
                GeyserAction::Listen,
            ]
        }),
{
    let opening = seq![
        GeyserInput::<D, N, P, R>::LoadConfig { uuid, request, notifier },
        GeyserInput::Sent,
        GeyserInput::Opened { ipc_token },
    ];
    let loading = loading::<D, N, P, R>(config_file, loaded);
    let accepting = accepting::<D, N, P, R>(source);
    let mounting = seq![GeyserInput::<D, N, P, R>::Mounted(plugin), GeyserInput::Sent];
    lemma_plugin_is_opened::<D, N, P, R>(state, uuid, request, notifier, ipc_token);
    lemma_plugin_is_loaded::<D, N, P, R>(state.at(GeyserPhase::Encoding), config_file, loaded);
    lemma_plugin_is_accepted::<D, N, P, R>(state.at(GeyserPhase::Accepting), source);
    lemma_open_plugin_is_mounted::<D, N, P, R>(state.at(GeyserPhase::Mounting), plugin);
    lemma_run_append(state, opening, loading);
    lemma_run_append(state, opening + loading, accepting);
    lemma_run_append(state, opening + loading + accepting, mounting);
    assert(opening + loading + accepting + mounting =~= seq![
        GeyserInput::LoadConfig { uuid, request, notifier },
        GeyserInput::Sent,
        GeyserInput::Opened { ipc_token },
        GeyserInput::Encoded(Ok(config_file)),
        GeyserInput::Loaded(loaded),
    ] + (if loaded is Err {
        seq![GeyserInput::Sent]
    } else {
        seq![]
    }) + seq![GeyserInput::Accepted(source)] + (if source is Some {
        seq![GeyserInput::Sent]
    } else {
        seq![]
    }) + mounting);
}

/// A plugin whose configuration cannot be serialized is not mounted: the
/// failure is reported, and the runloop listens again as before.
pub proof fn law_plugin_without_config_is_dropped<D, N, P, R>(
    state: GeyserModel<D, P>,
    uuid: u128,
    request: D,
    notifier: N,
    ipc_token: String,
    error: String,
)
    requires
        state.phase is Listening,
    ensures
        ({
            let inputs = seq![
                GeyserInput::<D, N, P, R>::LoadConfig { uuid, request, notifier },
                GeyserInput::Sent,
                GeyserInput::Opened { ipc_token },
                GeyserInput::Encoded(Err(error)),
                GeyserInput::Sent,
            ];
            &&& state.follows(inputs)
            &&& state.run(inputs).0 == state
            &&& state.run(inputs).1 == seq![
                GeyserAction::<D, N, R>::SendSubgraphCommand(
                    SubgraphCommand::CreateSubgraph { uuid, notifier },
                ),
                GeyserAction::OpenPlugin,
                GeyserAction::EncodeConfig(
                    SubgraphPluginConfig { uuid, ipc_token, subgraph_request: request },
                ),
                GeyserAction::SendEvent(SimnetEvent::Error(Failure::PluginConfig(error))),
                GeyserAction::Listen,
            ]
        }),
{
    let opening = seq![
        GeyserInput::<D, N, P, R>::LoadConfig { uuid, request, notifier },
        GeyserInput::Sent,
        GeyserInput::Opened { ipc_token },
    ];
    let dropping = seq![GeyserInput::<D, N, P, R>::Encoded(Err(error)), GeyserInput::Sent];
    let opened = state.at(GeyserPhase::Encoding);
    lemma_plugin_is_opened::<D, N, P, R>(state, uuid, request, notifier, ipc_token);
    assert({
        &&& opened.follows(dropping)
        &&& opened.run(dropping).0 == state
        &&& opened.run(dropping).1 =~= seq![
            GeyserAction::<D, N, R>::SendEvent(SimnetEvent::Error(Failure::PluginConfig(error))),
            GeyserAction::Listen,
        ]
    }) by {
        reveal_with_fuel(GeyserModel::run, 3);
        reveal_with_fuel(GeyserModel::follows, 3);
    }
    lemma_run_append(state, opening, dropping);
    assert(opening + dropping =~= seq![
        GeyserInput::<D, N, P, R>::LoadConfig { uuid, request, notifier },
        GeyserInput::Sent,
        GeyserInput::Opened { ipc_token },
        GeyserInput::Encoded(Err(error)),
        GeyserInput::Sent,
    ]);
}

/// A mounted plugin stays mounted at its position, whatever happens.
pub proof fn law_plugins_stay_mounted<D, N, P, R>(
    state: GeyserModel<D, P>,
    inputs: Seq<GeyserInput<D, N, P, R>>,
)
    requires
        state.well_formed(),
        state.follows(inputs),
    ensures
        state.run(inputs).0.well_formed(),
        state.plugins.is_prefix_of(state.run(inputs).0.plugins),
    decreases inputs.len(),
{
    if inputs.len() > 0 {
        law_plugins_stay_mounted(state.next(inputs[0]).0, inputs.drop_first());
    }
}

/// The runloop ends when the commands or the events end, and only then; its failure
/// tells which, and why.
pub proof fn law_only_closed_channels_stop<D, N, P, R>(
    state: GeyserModel<D, P>,
    input: GeyserInput<D, N, P, R>,
)
    requires
        state.expects(input),
    ensures
        state.next(input).1 is Stop <==> input is CommandsClosed || input is EventsClosed,
        state.next(input).1 is Stop <==> state.next(input).0.phase is Stopped,
        input matches GeyserInput::CommandsClosed(error) ==> state.next(input).1
            == GeyserAction::<D, N, R>::Stop(Failure::PluginCommands(error)),
        input matches GeyserInput::EventsClosed(error) ==> state.next(input).1
            == GeyserAction::<D, N, R>::Stop(Failure::GeyserEvents(error)),
{
}

/// A transaction is shown to the first plugin when it comes, and then to the plugin
/// behind the one that was shown it last, whether that one took it or not; behind
/// the last plugin the runloop listens again. What is shown stays the same.
pub proof fn law_next_plugin_is_notified<D, N, P, R>(
    state: GeyserModel<D, P>,
    input: GeyserInput<D, N, P, R>,
    plugin: int,
    replica: TransactionReplica,
)
    requires
        state.expects(input),
        state.plugins.len() <= usize::MAX,
        ({
            let answered = input is Notified && input->Notified_0 is Ok || input is Sent
                && state.phase is ReportingNotification;
            let shown = GeyserPhase::<D>::Notifying { plugin: (plugin - 1) as usize, replica };
            let told = GeyserPhase::<D>::ReportingNotification {
                plugin: (plugin - 1) as usize,
                replica,
            };
            ||| plugin == 0 && input == GeyserInput::<D, N, P, R>::NewTransaction(Ok(replica))
            ||| 0 < plugin <= state.plugins.len() && answered && (state.phase == shown
                || state.phase == told)
        }),
    ensures
        ({
            let (next, action) = state.next(input);
            &&& next.plugins == state.plugins
            &&& plugin < state.plugins.len() ==> {
                &&& action == (GeyserAction::<D, N, R>::NotifyPlugin { plugin: plugin as usize })
                &&& next.phase == (GeyserPhase::<D>::Notifying {
                    plugin: plugin as usize,
                    replica,
                })
            }
            &&& plugin == state.plugins.len() ==> action is Listen && next.phase is Listening
        }),
{
}

/// What is told the user interface: every error that a plugin answered with, every
/// configuration that could not be serialized, every transaction that was rejected,
/// each with its cause, and every plugin that was mounted; nothing else.
pub proof fn law_what_is_told<D, N, P, R>(
    state: GeyserModel<D, P>,
    input: GeyserInput<D, N, P, R>,
    error: String,
)
    requires
        state.expects(input),
    ensures
        ({
            let (next, action) = state.next(input);
            let told = |failure: Failure|
                action == GeyserAction::<D, N, R>::SendEvent(SimnetEvent::Error(failure));
            &&& told(Failure::PluginNotification(error)) <==> input == GeyserInput::<
                D,
                N,
                P,
                R,
            >::Notified(Err(error))
            &&& told(Failure::PluginLoad(error)) <==> input == GeyserInput::<D, N, P, R>::Loaded(
                Err(error),
            )
            &&& told(Failure::PluginConfig(error)) <==> input == GeyserInput::<D, N, P, R>::Encoded(
                Err(error),
            )
            &&& told(Failure::TransactionRejected(error)) <==> input == GeyserInput::<
                D,
                N,
                P,
                R,
            >::NewTransaction(Err(error))
            &&& action == GeyserAction::<D, N, R>::SendEvent(
                SimnetEvent::PluginLoaded(SUBGRAPH_PLUGIN),
            ) <==> input is Mounted
            &&& action is SendEvent <==> {
                ||| input is Notified && input->Notified_0 is Err
                ||| input is Loaded && input->Loaded_0 is Err
                ||| input is Encoded && input->Encoded_0 is Err
                ||| input is NewTransaction && input->NewTransaction_0 is Err
                ||| input is Mounted
            }
        }),
{
}

/// What is asked of a plugin and of its subgraph, and when. The plugins change by
/// the one that is mounted, behind the others, and by nothing else; the request of
/// a subgraph is kept from its creation to the configuration of its plugin.
pub proof fn law_what_each_step_of_mounting_answers<D, N, P, R>(
    state: GeyserModel<D, P>,
    input: GeyserInput<D, N, P, R>,
    uuid: u128,
    request: D,
    notifier: N,
    ipc_token: String,
    config_file: String,
    source: R,
    plugin: P,
)
    requires
        state.expects(input),
    ensures
        ({
            let (next, action) = state.next(input);
            let load = GeyserInput::<D, N, P, R>::LoadConfig { uuid, request, notifier };
            &&& input == load ==> next.phase == (GeyserPhase::Announcing { uuid, request })
            &&& input is LoadConfig && input->uuid == uuid && input->notifier == notifier
                <==> action == GeyserAction::<D, N, R>::SendSubgraphCommand(
                SubgraphCommand::CreateSubgraph { uuid, notifier },
            )
            &&& action is OpenPlugin <==> state.phase is Announcing
            &&& state.phase == (GeyserPhase::Announcing { uuid, request }) ==> next.phase == (
            GeyserPhase::Opening { uuid, request })
            &&& action == GeyserAction::<D, N, R>::EncodeConfig(
                SubgraphPluginConfig { uuid, ipc_token, subgraph_request: request },
            ) <==> state.phase == (GeyserPhase::Opening { uuid, request }) && input == (
            GeyserInput::<D, N, P, R>::Opened { ipc_token })
            &&& action is LoadPlugin <==> input is Encoded && input->Encoded_0 is Ok
            &&& input == GeyserInput::<D, N, P, R>::Encoded(Ok(config_file)) ==> action == (
            GeyserAction::<D, N, R>::LoadPlugin { config_file, is_reload: false })
            &&& action is AcceptConnection <==> {
                ||| input is Loaded && input->Loaded_0 is Ok
                ||| state.phase is ReportingLoad
            }
            &&& action == GeyserAction::<D, N, R>::SendSubgraphCommand(
                SubgraphCommand::ObserveSubgraph(source),
            ) <==> input == GeyserInput::<D, N, P, R>::Accepted(Some(source))
            &&& action is MountPlugin <==> {
                ||| input is Accepted && input->Accepted_0 is None
                ||| state.phase is Observing
            }
            &&& input == GeyserInput::<D, N, P, R>::Mounted(plugin) ==> next.plugins
                == state.plugins.push(plugin)
            &&& input !is Mounted ==> next.plugins == state.plugins
        }),
{
}

/// The runloop expects what answers the action that it asked for, and nothing else.
pub proof fn law_answer_is_expected<D, N, P, R>(
    state: GeyserModel<D, P>,
    input: GeyserInput<D, N, P, R>,
    answer: GeyserInput<D, N, P, R>,
)
    requires
        state.expects(input),
    ensures
        ({
            let (next, action) = state.next(input);
            next.expects(answer) <==> match action {
                GeyserAction::Listen => {
                    ||| answer is LoadConfig
                    ||| answer is CommandsClosed
                    ||| answer is NewTransaction
                    ||| answer is EventsClosed
                },
                GeyserAction::SendSubgraphCommand(_) => answer is Sent,
                GeyserAction::OpenPlugin => answer is Opened,
                GeyserAction::EncodeConfig(_) => answer is Encoded,
                GeyserAction::LoadPlugin { .. } => answer is Loaded,
                GeyserAction::AcceptConnection => answer is Accepted,
                GeyserAction::MountPlugin => answer is Mounted,
                GeyserAction::SendEvent(_) => answer is Sent,
                GeyserAction::NotifyPlugin { .. } => answer is Notified,
                GeyserAction::Stop(_) => false,
            }
        }),
{
}

/// Every plugin is notified of an accepted transaction in the slot that came with
/// its event, under the signature that was recorded, with the sanitized form of
/// that very transaction and with what the virtual machine recorded of it.
pub proof fn law_plugins_are_shown_the_event<D, N, P, R>(
    state: GeyserModel<D, P>,
    replica: TransactionReplica,
    transaction: TransactionModel,
    metadata: TransactionMetadata,
    slot: u64,
    results: Seq<Result<(), String>>,
    k: int,
)
    requires
        state.phase is Listening,
        state.plugins.len() <= usize::MAX,
        results.len() == state.plugins.len(),
        replica.shows(sanitized_form(transaction), metadata, slot),
        0 <= k < state.plugins.len(),
    ensures
        ({
            let inputs = seq![GeyserInput::NewTransaction(Ok(replica))] + notification_answers::<
                D,
                N,
                P,
                R,
            >(results);
            let notifications = state.notifications(inputs);
            let (plugin, shown) = notifications[k];
            let status = shown.transaction_status_meta;
            &&& notifications.len() == state.plugins.len()
            &&& plugin == k
            &&& shown.slot == slot
            &&& shown.signature == metadata.signature
            &&& shown.transaction == sanitized_form(transaction)
            &&& !shown.is_vote
            &&& shown.index == 0
            &&& status.compute_units_consumed == Some(metadata.compute_units_consumed)
            &&& status.log_messages == Some(metadata.logs)
            &&& status.return_data == Some(metadata.return_data)
        }),
{
    law_every_plugin_is_notified::<D, N, P, R>(state, replica, results);
}

/// The plugin that is announced is the subgraph's.
pub proof fn law_plugin_name()
    ensures
        SUBGRAPH_PLUGIN == "surfpool-subgraph",
{
}

/// When the creation of a subgraph is asked for, its request is at hand, and stays
/// so until its plugin is open; when a plugin is to be notified, what it is shown is
/// at hand, and is what came with the event.
pub proof fn law_what_is_at_hand<D, N, P, R>(
    state: GeyserModel<D, P>,
    input: GeyserInput<D, N, P, R>,
)
    requires
        state.expects(input),
    ensures
        ({
            let (next, action) = state.next(input);
            &&& input is LoadConfig ==> next.requested() == Some(input->request)
            &&& action is OpenPlugin ==> state.requested() is Some && next.requested()
                == state.requested()
            &&& action is NotifyPlugin ==> next.shown() is Some
            &&& action is NotifyPlugin && input is NewTransaction ==> input
                == GeyserInput::<D, N, P, R>::NewTransaction(Ok(next.shown()->0))
            &&& action is NotifyPlugin && input !is NewTransaction ==> next.shown()
                == state.shown()
        }),
{
}

/// A new runloop has no plugins: it listens, and a transaction has it listen on.
pub proof fn law_new_runloop_listens<D, N, P, R>(replica: TransactionReplica)
    ensures
        ({
            let state = GeyserModel::<D, P>::empty();
            let event = GeyserInput::<D, N, P, R>::NewTransaction(Ok(replica));
            &&& state.plugins.len() == 0
            &&& state.phase is Listening
            &&& state.expects(event)
            &&& state.next(event) == (state, GeyserAction::<D, N, R>::Listen)
        }),
{
}

} // verus!
