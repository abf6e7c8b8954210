//! The course of a connection: how it starts, and what each turn of its loop does.

use super::connection::PipewireState;
use super::toggle::{LinkRequest, toggle_fits, toggle_link, toggle_request};
use crate::dictionary::{
    Dictionary, Entries, Properties, entries_map, law_entry_sets_property,
};
use crate::message::GtkMessage;
use crate::state::Graph;
use crate::text::{decimal, law_decimal_round_trip, parsed_u32, u32_to_text};
use vstd::prelude::*;

verus! {

/// The properties with which the client presents itself, as they are written down.
pub open spec fn client_entries(host: Seq<char>, user: Seq<char>, pid: u32) -> Entries {
    Seq::<(Seq<char>, Seq<char>)>::empty()
        .push(("log.level"@, "0"@))
        .push(("cpu.max-align"@, "32"@))
        .push(("default.clock.rate"@, "48000"@))
        .push(("default.clock.quantum"@, "1024"@))
        .push(("default.clock.min-quantum"@, "32"@))
        .push(("default.clock.max-quantum"@, "2048"@))
        .push(("default.clock.quantum-limit"@, "8192"@))
        .push(("default.video.width"@, "640"@))
        .push(("default.video.height"@, "480"@))
        .push(("default.video.rate.num"@, "25"@))
        .push(("default.video.rate.denom"@, "1"@))
        .push(("clock.power-of-two-quantum"@, "true"@))
        .push(("link.max-buffers"@, "64"@))
        .push(("mem.warn-mlock"@, "false"@))
        .push(("mem.allow-mlock"@, "true"@))
        .push(("settings.check-quantum"@, "false"@))
        .push(("settings.check-rate"@, "false"@))
        .push(("application.name"@, "ripewire"@))
        .push(("application.process.binary"@, "ripewire"@))
        .push(("application.language"@, "en_US.UTF-8"@))
        .push(("application.process.id"@, decimal(pid as nat)))
        .push(("application.process.user"@, user))
        .push(("application.process.host"@, host))
        .push(("window.x11.display"@, ":0"@))
        .push(("core.version"@, "0.3.58"@))
        .push(("core.name"@, "pipewire-poly-185501"@))
}

/// What the properties with which the client presents itself amount to.
pub open spec fn client_properties(host: Seq<char>, user: Seq<char>, pid: u32) -> Properties {
    Map::<Seq<char>, Seq<char>>::empty()
        .insert("log.level"@, "0"@)
        .insert("cpu.max-align"@, "32"@)
        .insert("default.clock.rate"@, "48000"@)
        .insert("default.clock.quantum"@, "1024"@)
        .insert("default.clock.min-quantum"@, "32"@)
        .insert("default.clock.max-quantum"@, "2048"@)
        .insert("default.clock.quantum-limit"@, "8192"@)
        .insert("default.video.width"@, "640"@)
        .insert("default.video.height"@, "480"@)
        .insert("default.video.rate.num"@, "25"@)
        .insert("default.video.rate.denom"@, "1"@)
        .insert("clock.power-of-two-quantum"@, "true"@)
        .insert("link.max-buffers"@, "64"@)
        .insert("mem.warn-mlock"@, "false"@)
        .insert("mem.allow-mlock"@, "true"@)
        .insert("settings.check-quantum"@, "false"@)
        .insert("settings.check-rate"@, "false"@)
        .insert("application.name"@, "ripewire"@)
        .insert("application.process.binary"@, "ripewire"@)
        .insert("application.language"@, "en_US.UTF-8"@)
        .insert("application.process.id"@, decimal(pid as nat))
        .insert("application.process.user"@, user)
        .insert("application.process.host"@, host)
        .insert("window.x11.display"@, ":0"@)
        .insert("core.version"@, "0.3.58"@)
        .insert("core.name"@, "pipewire-poly-185501"@)
}

/// What is written down to present the client amounts to the properties that it presents itself
/// with.
pub proof fn law_client_entries_amount(host: Seq<char>, user: Seq<char>, pid: u32)
    ensures
        entries_map(client_entries(host, user, pid)) == client_properties(host, user, pid),
{
    broadcast use law_entry_sets_property;

}

/// The properties with which the client presents itself.
pub fn properties(host: &str, user: &str, pid: u32) -> (properties: Dictionary)
    ensures
        properties.entries() == client_entries(host@, user@, pid),
        properties@ == client_properties(host@, user@, pid),
{
    let pid: String = u32_to_text(pid);
    let mut properties: Dictionary = Dictionary::new();
    properties.insert("log.level", "0");
    properties.insert("cpu.max-align", "32");
    properties.insert("default.clock.rate", "48000");
    properties.insert("default.clock.quantum", "1024");
    properties.insert("default.clock.min-quantum", "32");
    properties.insert("default.clock.max-quantum", "2048");
    properties.insert("default.clock.quantum-limit", "8192");
    properties.insert("default.video.width", "640");
    properties.insert("default.video.height", "480");
    properties.insert("default.video.rate.num", "25");
    properties.insert("default.video.rate.denom", "1");
    properties.insert("clock.power-of-two-quantum", "true");
    properties.insert("link.max-buffers", "64");
    properties.insert("mem.warn-mlock", "false");
    properties.insert("mem.allow-mlock", "true");
    properties.insert("settings.check-quantum", "false");
    properties.insert("settings.check-rate", "false");
    properties.insert("application.name", "ripewire");
    properties.insert("application.process.binary", "ripewire");
    properties.insert("application.language", "en_US.UTF-8");
    properties.insert("application.process.id", pid.as_str());
    properties.insert("application.process.user", user);
    properties.insert("application.process.host", host);
    properties.insert("window.x11.display", ":0");
    properties.insert("core.version", "0.3.58");
    properties.insert("core.name", "pipewire-poly-185501");
    properties
}

/// A step by which the client starts a connection, with properties of type `D`.
#[derive(Debug)]
pub enum StartupStep<D> {
    /// Greet the core.
    Hello,
    /// Present the client.
    UpdateProperties(D),
    /// Ask for the registry.
    GetRegistry,
    /// Ask the core to tell when it has dealt with what came before.
    Sync { id: u32, seq: u32 },
    /// Have the events of the core handled.
    ListenToCore,
    /// Have the events of the registry handled.
    ListenToRegistry,
}

impl View for StartupStep<Dictionary> {
    type V = StartupStep<Entries>;

    open spec fn view(&self) -> StartupStep<Entries> {
        match *self {
            StartupStep::Hello => StartupStep::Hello,
            StartupStep::UpdateProperties(properties) => StartupStep::UpdateProperties(
                properties.entries(),
            ),
            StartupStep::GetRegistry => StartupStep::GetRegistry,
            StartupStep::Sync { id, seq } => StartupStep::Sync { id, seq },
            StartupStep::ListenToCore => StartupStep::ListenToCore,
            StartupStep::ListenToRegistry => StartupStep::ListenToRegistry,
        }
    }
}

/// The steps, with their properties as they are written down.
pub open spec fn startup_views(steps: Seq<StartupStep<Dictionary>>) -> Seq<
    StartupStep<Entries>,
> {
    steps.map_values(|step: StartupStep<Dictionary>| step@)
}

/// The steps by which the client starts a connection, in order.
pub fn startup_steps(host: &str, user: &str, pid: u32) -> (steps: Vec<StartupStep<Dictionary>>)
    ensures
        startup_views(steps@) == seq![
            StartupStep::Hello,
            StartupStep::UpdateProperties(client_entries(host@, user@, pid)),
            StartupStep::GetRegistry,
            StartupStep::Sync { id: 0, seq: 0 },
            StartupStep::ListenToCore,
            StartupStep::ListenToRegistry,
        ],
{
    let mut steps: Vec<StartupStep<Dictionary>> = Vec::new();
    steps.push(StartupStep::Hello);
    steps.push(StartupStep::UpdateProperties(properties(host, user, pid)));
    steps.push(StartupStep::GetRegistry);
    steps.push(StartupStep::Sync { id: 0, seq: 0 });
    steps.push(StartupStep::ListenToCore);
    steps.push(StartupStep::ListenToRegistry);
    steps
}

/// What a turn of the loop does, with texts of type `S` and properties of type `D`.
#[derive(Debug)]
pub enum LoopStep<S, D> {
    /// Make a request and go on.
    Request(LinkRequest<S, D>),
    /// Go on.
    Continue,
    /// End the loop.
    Stop,
}

impl View for LoopStep<String, Dictionary> {
    type V = LoopStep<Seq<char>, Entries>;

    open spec fn view(&self) -> LoopStep<Seq<char>, Entries> {
        match *self {
            LoopStep::Request(request) => LoopStep::Request(request@),
            LoopStep::Continue => LoopStep::Continue,
            LoopStep::Stop => LoopStep::Stop,
        }
    }
}

/// Whether a message of the user interface can be dealt with.
pub open spec fn gtk_message_fits<C>(graph: Graph, message: GtkMessage<C>) -> bool {
    message matches GtkMessage::ToggleLink { port_from, port_to } ==> toggle_fits(
        graph,
        port_from,
        port_to,
    )
}

/// What the loop does on a message of the user interface.
pub open spec fn gtk_message_step<C>(graph: Graph, message: GtkMessage<C>) -> LoopStep<
    Seq<char>,
    Entries,
>
    recommends
        gtk_message_fits(graph, message),
{
    match message {
        GtkMessage::ToggleLink { port_from, port_to } => LoopStep::Request(
            toggle_request(graph, port_from, port_to),
        ),
        GtkMessage::Connect(_) => LoopStep::Continue,
        GtkMessage::Terminate => LoopStep::Stop,
    }
}

/// Whether what comes out of the channel from the user interface can be dealt with: a message that
/// can, or the news that the channel is closed.
pub open spec fn channel_event_fits<C>(graph: Graph, event: Option<GtkMessage<C>>) -> bool {
    event matches Some(message) ==> gtk_message_fits(graph, message)
}

/// What the loop does on what comes out of the channel from the user interface. That the channel is
/// closed does not end the loop.
pub open spec fn channel_event_step<C>(graph: Graph, event: Option<GtkMessage<C>>) -> LoopStep<
    Seq<char>,
    Entries,
>
    recommends
        channel_event_fits(graph, event),
{
    match event {
        Some(message) => gtk_message_step(graph, message),
        None => LoopStep::Continue,
    }
}

impl PipewireState {
    /// Answers what comes out of the channel from the user interface: a message, or none where the
    /// channel is closed.
    pub fn channel_event<C>(&self, event: Option<GtkMessage<C>>) -> (step: LoopStep<
        String,
        Dictionary,
    >)
        requires
            channel_event_fits(self@.graph, event),
        ensures
            step@ == channel_event_step(self@.graph, event),
    {
        match event {
            Some(message) => self.gtk_message(message),
            None => LoopStep::Continue,
        }
    }

    /// Answers a message of the user interface.
    pub fn gtk_message<C>(&self, message: GtkMessage<C>) -> (step: LoopStep<String, Dictionary>)
        requires
            gtk_message_fits(self@.graph, message),
        ensures
            step@ == gtk_message_step(self@.graph, message),
    {
        match message {
            GtkMessage::ToggleLink { port_from, port_to } => LoopStep::Request(
                toggle_link(port_from, port_to, self.state()),
            ),
            GtkMessage::Connect(_) => LoopStep::Continue,
            GtkMessage::Terminate => LoopStep::Stop,
        }
    }
}

/// How an attempt to read from the server has ended.
#[derive(Clone, Copy, Debug, PartialEq, Eq, Structural)]
pub enum ReadOutcome {
    /// With a message.
    Message,
    /// With nothing to read at the moment.
    WouldBlock,
    /// With any other error.
    Failed,
}

/// Whether the message that was read is to be dispatched and another read; else there is nothing to
/// do until more comes in.
pub fn goes_on_reading(outcome: ReadOutcome) -> (goes_on: bool)
    requires
        outcome != ReadOutcome::Failed,
    ensures
        goes_on == (outcome == ReadOutcome::Message),
{
    match outcome {
        ReadOutcome::Message => true,
        _ => false,
    }
}

/// The client presents itself by these keys and values, in this order and with no others: the settings
/// that it runs with, what it is called, and the process, user and host that it is told of.
pub proof fn law_client_presents_itself(host: Seq<char>, user: Seq<char>, pid: u32)
    ensures
        client_entries(host, user, pid).len() == 26,
        client_entries(host, user, pid)[0].0 == "log.level"@,
        client_entries(host, user, pid)[0].1 == "0"@,
        client_entries(host, user, pid)[1].0 == "cpu.max-align"@,
        client_entries(host, user, pid)[1].1 == "32"@,
        client_entries(host, user, pid)[2].0 == "default.clock.rate"@,
        client_entries(host, user, pid)[2].1 == "48000"@,
        client_entries(host, user, pid)[3].0 == "default.clock.quantum"@,
        client_entries(host, user, pid)[3].1 == "1024"@,
        client_entries(host, user, pid)[4].0 == "default.clock.min-quantum"@,
        client_entries(host, user, pid)[4].1 == "32"@,
        client_entries(host, user, pid)[5].0 == "default.clock.max-quantum"@,
        client_entries(host, user, pid)[5].1 == "2048"@,
        client_entries(host, user, pid)[6].0 == "default.clock.quantum-limit"@,
        client_entries(host, user, pid)[6].1 == "8192"@,
        client_entries(host, user, pid)[7].0 == "default.video.width"@,
        client_entries(host, user, pid)[7].1 == "640"@,
        client_entries(host, user, pid)[8].0 == "default.video.height"@,
        client_entries(host, user, pid)[8].1 == "480"@,
        client_entries(host, user, pid)[9].0 == "default.video.rate.num"@,
        client_entries(host, user, pid)[9].1 == "25"@,
        client_entries(host, user, pid)[10].0 == "default.video.rate.denom"@,
        client_entries(host, user, pid)[10].1 == "1"@,
        client_entries(host, user, pid)[11].0 == "clock.power-of-two-quantum"@,
        client_entries(host, user, pid)[11].1 == "true"@,
        client_entries(host, user, pid)[12].0 == "link.max-buffers"@,
        client_entries(host, user, pid)[12].1 == "64"@,
        client_entries(host, user, pid)[13].0 == "mem.warn-mlock"@,
        client_entries(host, user, pid)[13].1 == "false"@,
        client_entries(host, user, pid)[14].0 == "mem.allow-mlock"@,
        client_entries(host, user, pid)[14].1 == "true"@,
        client_entries(host, user, pid)[15].0 == "settings.check-quantum"@,
        client_entries(host, user, pid)[15].1 == "false"@,
        client_entries(host, user, pid)[16].0 == "settings.check-rate"@,
        client_entries(host, user, pid)[16].1 == "false"@,
        client_entries(host, user, pid)[17].0 == "application.name"@,
        client_entries(host, user, pid)[17].1 == "ripewire"@,
        client_entries(host, user, pid)[18].0 == "application.process.binary"@,
        client_entries(host, user, pid)[18].1 == "ripewire"@,
        client_entries(host, user, pid)[19].0 == "application.language"@,
        client_entries(host, user, pid)[19].1 == "en_US.UTF-8"@,
        client_entries(host, user, pid)[20].0 == "application.process.id"@,
        parsed_u32(client_entries(host, user, pid)[20].1) == Some(pid),
        client_entries(host, user, pid)[20].1 == decimal(pid as nat),
        client_entries(host, user, pid)[21].0 == "application.process.user"@,
        client_entries(host, user, pid)[21].1 == user,
        client_entries(host, user, pid)[22].0 == "application.process.host"@,
        client_entries(host, user, pid)[22].1 == host,
        client_entries(host, user, pid)[23].0 == "window.x11.display"@,
        client_entries(host, user, pid)[23].1 == ":0"@,
        client_entries(host, user, pid)[24].0 == "core.version"@,
        client_entries(host, user, pid)[24].1 == "0.3.58"@,
        client_entries(host, user, pid)[25].0 == "core.name"@,
        client_entries(host, user, pid)[25].1 == "pipewire-poly-185501"@,
{
    law_decimal_round_trip(pid);
}

/// The views of steps are as many and in the same order, each of the same kind, with the same numbers
/// and the entries of its properties.
pub proof fn law_startup_views(steps: Seq<StartupStep<Dictionary>>, i: int)
    requires
        0 <= i < steps.len(),
    ensures
        startup_views(steps).len() == steps.len(),
        steps[i] is Hello <==> startup_views(steps)[i] is Hello,
        steps[i] is GetRegistry <==> startup_views(steps)[i] is GetRegistry,
        steps[i] is ListenToCore <==> startup_views(steps)[i] is ListenToCore,
        steps[i] is ListenToRegistry <==> startup_views(steps)[i] is ListenToRegistry,
        steps[i] matches StartupStep::UpdateProperties(properties) ==> startup_views(steps)[i]
            == StartupStep::UpdateProperties(properties.entries()),
        steps[i] matches StartupStep::Sync { id, seq } ==> startup_views(steps)[i] == (StartupStep::<
            Entries,
        >::Sync { id, seq }),
{
}

/// The view of what a turn of the loop does is of the same kind, and a request is viewed as such.
pub proof fn law_loop_step_view(step: LoopStep<String, Dictionary>)
    ensures
        step is Continue <==> step@ is Continue,
        step is Stop <==> step@ is Stop,
        step matches LoopStep::Request(request) ==> step@ == LoopStep::Request(request@),
{
}

/// The loop ends on a message to terminate, and on nothing else: a message to connect or a closed
/// channel have it go on, and a message to toggle a link has that link toggled.
pub proof fn law_loop_ends_on_terminate<C>(
    graph: Graph,
    target: C,
    port_from: u32,
    port_to: u32,
    message: GtkMessage<C>,
)
    ensures
        gtk_message_step(graph, message) is Stop <==> message is Terminate,
        gtk_message_step(graph, GtkMessage::Connect(target)) is Continue,
        gtk_message_step(graph, GtkMessage::<C>::ToggleLink { port_from, port_to })
            == LoopStep::Request(toggle_request(graph, port_from, port_to)),
        channel_event_step(graph, Some(message)) == gtk_message_step(graph, message),
        channel_event_step(graph, None::<GtkMessage<C>>) is Continue,
{
}

/// All that comes out of the channel can be dealt with, but for a message to toggle a link that cannot
/// be toggled.
pub proof fn law_messages_that_fit<C>(
    graph: Graph,
    target: C,
    port_from: u32,
    port_to: u32,
    message: GtkMessage<C>,
)
    ensures
        gtk_message_fits(graph, GtkMessage::<C>::Terminate),
        gtk_message_fits(graph, GtkMessage::Connect(target)),
        gtk_message_fits(graph, GtkMessage::<C>::ToggleLink { port_from, port_to }) <==> toggle_fits(
            graph,
            port_from,
            port_to,
        ),
        channel_event_fits(graph, Some(message)) <==> gtk_message_fits(graph, message),
        channel_event_fits(graph, None::<GtkMessage<C>>),
{
}

} // verus!
