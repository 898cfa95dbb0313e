//! The GATT server of the strip.
//!
//! The server decides; the radio, the timers and the transmit channel belong to
//! its caller, who performs each action and hands back what came of it. Pixel
//! data is collected from writes to one characteristic and shown by a write to
//! another.

use crate::device::advertising::{self, strip_advertisement, Advertisement, AdvertisementView};
use crate::device::leds::{self, Leds, LedsView, TransmitOutcome};
use crate::device::ws2812;
use vstd::prelude::*;

verus! {

/// Milliseconds before the first advertisement.
pub const STARTUP_DELAY_MS: u64 = 100;

/// Milliseconds before another try, where the radio could not advertise.
pub const RETRY_DELAY_MS: u64 = 1_000;

/// Milliseconds without an event after which a connection is given up.
pub const IDLE_TIMEOUT_MS: u64 = 60_000;

/// What the server waits for.
#[derive(Clone, Copy, Debug, PartialEq, Eq, Structural)]
pub enum ServerStage {
    /// To be started.
    Idle,
    /// The end of the startup delay.
    Starting,
    /// The radio's host to be built.
    Building,
    /// The radio to advertise.
    Advertising,
    /// The end of the delay after a failed advertisement.
    BackingOff,
    /// A central to connect.
    Accepting,
    /// The central to be allowed to bond.
    Bonding,
    /// The connection to be served.
    Attaching,
    /// An event of the connection.
    Connected,
    /// The pass key to be confirmed.
    Confirming,
    /// A transmission to the strip to end.
    Flushing,
    /// A request to be answered.
    Replying,
}

/// What has happened.
pub enum ServerEvent {
    /// The server is to begin.
    Start,
    /// The last action is done.
    Done,
    /// The last action failed.
    Failed,
    /// The transmission to the strip ended.
    Transmitted(TransmitOutcome),
    /// No event of the connection came in time.
    TimedOut,
    /// The central disconnected.
    Disconnected,
    /// A pass key is to be displayed.
    PassKeyDisplay,
    /// A pass key is to be confirmed.
    PassKeyConfirm,
    /// A pass key is asked for.
    PassKeyInput,
    /// The devices are paired.
    PairingComplete,
    /// The devices could not be paired.
    PairingFailed,
    /// The central writes an attribute.
    Write { handle: u16, data: Vec<u8> },
    /// The central reads an attribute.
    Read,
    /// Anything else.
    Other,
}

/// The contents of a [`ServerEvent`].
pub enum ServerEventView {
    Start,
    Done,
    Failed,
    Transmitted(TransmitOutcome),
    TimedOut,
    Disconnected,
    PassKeyDisplay,
    PassKeyConfirm,
    PassKeyInput,
    PairingComplete,
    PairingFailed,
    Write { handle: u16, data: Seq<u8> },
    Read,
    Other,
}

impl View for ServerEvent {
    type V = ServerEventView;

    open spec fn view(&self) -> ServerEventView {
        match *self {
            ServerEvent::Start => ServerEventView::Start,
            ServerEvent::Done => ServerEventView::Done,
            ServerEvent::Failed => ServerEventView::Failed,
            ServerEvent::Transmitted(outcome) => ServerEventView::Transmitted(outcome),
            ServerEvent::TimedOut => ServerEventView::TimedOut,
            ServerEvent::Disconnected => ServerEventView::Disconnected,
            ServerEvent::PassKeyDisplay => ServerEventView::PassKeyDisplay,
            ServerEvent::PassKeyConfirm => ServerEventView::PassKeyConfirm,
            ServerEvent::PassKeyInput => ServerEventView::PassKeyInput,
            ServerEvent::PairingComplete => ServerEventView::PairingComplete,
            ServerEvent::PairingFailed => ServerEventView::PairingFailed,
            ServerEvent::Write { handle, data } => ServerEventView::Write { handle, data: data@ },
            ServerEvent::Read => ServerEventView::Read,
            ServerEvent::Other => ServerEventView::Other,
        }
    }
}

/// What is to be done next.
pub enum ServerAction {
    /// Nothing: the server did not wait for what happened.
    Nothing,
    /// Wait for this many milliseconds.
    Sleep(u64),
    /// Build the radio's host, which serves all connections.
    BuildHost,
    /// Advertise this.
    Advertise(Advertisement),
    /// Accept a connection.
    Accept,
    /// Allow the central to bond.
    AllowBonding,
    /// Serve the attributes on the connection.
    Attach,
    /// Wait for an event of the connection, for this many milliseconds at most.
    AwaitEvent(u64),
    /// Confirm the pass key.
    ConfirmPassKey,
    /// Send this many pulses from the front of the pulse buffer to the strip.
    Transmit(usize),
    /// Accept the request and send the reply, where there is one.
    Reply,
}

/// The contents of a [`ServerAction`].
pub enum ServerActionView {
    Nothing,
    Sleep(u64),
    BuildHost,
    Advertise(AdvertisementView),
    Accept,
    AllowBonding,
    Attach,
    AwaitEvent(u64),
    ConfirmPassKey,
    Transmit(nat),
    Reply,
}

impl View for ServerAction {
    type V = ServerActionView;

    open spec fn view(&self) -> ServerActionView {
        match *self {
            ServerAction::Nothing => ServerActionView::Nothing,
            ServerAction::Sleep(ms) => ServerActionView::Sleep(ms),
            ServerAction::BuildHost => ServerActionView::BuildHost,
            ServerAction::Advertise(adv) => ServerActionView::Advertise(adv@),
            ServerAction::Accept => ServerActionView::Accept,
            ServerAction::AllowBonding => ServerActionView::AllowBonding,
            ServerAction::Attach => ServerActionView::Attach,
            ServerAction::AwaitEvent(ms) => ServerActionView::AwaitEvent(ms),
            ServerAction::ConfirmPassKey => ServerActionView::ConfirmPassKey,
            ServerAction::Transmit(count) => ServerActionView::Transmit(count as nat),
            ServerAction::Reply => ServerActionView::Reply,
        }
    }
}

/// The server between two events.
pub struct GattServer {
    /// Handle of the characteristic that takes pixel data.
    pub data_handle: u16,
    /// Handle of the characteristic that shows it.
    pub show_handle: u16,
    /// What the server waits for.
    pub stage: ServerStage,
    /// Pixel data that has not been shown.
    pub pixel_buf: Vec<u8>,
    /// The output to the strip.
    pub leds: Leds,
}

/// The contents of a [`GattServer`].
pub struct ServerView {
    pub data_handle: u16,
    pub show_handle: u16,
    pub stage: ServerStage,
    pub pixels: Seq<u8>,
    pub leds: LedsView,
}

impl View for GattServer {
    type V = ServerView;

    open spec fn view(&self) -> ServerView {
        ServerView {
            data_handle: self.data_handle,
            show_handle: self.show_handle,
            stage: self.stage,
            pixels: self.pixel_buf@,
            leds: self.leds@,
        }
    }
}

/// The server at another stage.
pub open spec fn at_stage(s: ServerView, stage: ServerStage) -> ServerView {
    ServerView { stage, ..s }
}

/// The server advertises the strip.
pub open spec fn advertise(s: ServerView) -> (ServerView, ServerActionView) {
    (
        at_stage(s, ServerStage::Advertising),
        ServerActionView::Advertise(
            advertising::named_advertisement(advertising::strip_name()),
        ),
    )
}

/// The server attaches the attributes to the connection.
pub open spec fn attach(s: ServerView) -> (ServerView, ServerActionView) {
    (at_stage(s, ServerStage::Attaching), ServerActionView::Attach)
}

/// The server waits for an event of the connection.
pub open spec fn await_event(s: ServerView) -> (ServerView, ServerActionView) {
    (at_stage(s, ServerStage::Connected), ServerActionView::AwaitEvent(IDLE_TIMEOUT_MS))
}

/// The server answers a request.
pub open spec fn reply(s: ServerView) -> (ServerView, ServerActionView) {
    (at_stage(s, ServerStage::Replying), ServerActionView::Reply)
}

/// The central writes an attribute: pixel data is collected, and shown on demand.
/// Data that is to be shown leaves the buffer, also where there is no channel to
/// send it.
pub open spec fn written(s: ServerView, handle: u16, data: Seq<u8>) -> (
    ServerView,
    ServerActionView,
) {
    if handle == s.data_handle {
        reply(ServerView { pixels: s.pixels + data, ..s })
    } else if handle == s.show_handle {
        if s.pixels.len() > 0 && s.leds.channel_ready {
            (
                ServerView {
                    stage: ServerStage::Flushing,
                    pixels: seq![],
                    leds: leds::leds_flushing(s.leds, s.pixels),
                    ..s
                },
                ServerActionView::Transmit(ws2812::pulse_count(s.pixels)),
            )
        } else {
            reply(ServerView { pixels: seq![], ..s })
        }
    } else {
        reply(s)
    }
}

/// The server and its next action after an event of a connection.
pub open spec fn connection_event(s: ServerView, event: ServerEventView) -> (
    ServerView,
    ServerActionView,
) {
    match event {
        ServerEventView::Disconnected => advertise(s),
        ServerEventView::TimedOut => advertise(s),
        ServerEventView::PassKeyConfirm => (
            at_stage(s, ServerStage::Confirming),
            ServerActionView::ConfirmPassKey,
        ),
        ServerEventView::Write { handle, data } => written(s, handle, data),
        ServerEventView::Read => reply(s),
        ServerEventView::PassKeyDisplay => await_event(s),
        ServerEventView::PassKeyInput => await_event(s),
        ServerEventView::PairingComplete => await_event(s),
        ServerEventView::PairingFailed => await_event(s),
        ServerEventView::Other => await_event(s),
        _ => (s, ServerActionView::Nothing),
    }
}

/// The server and its next action after an event.
pub open spec fn server_step(s: ServerView, event: ServerEventView) -> (
    ServerView,
    ServerActionView,
) {
    match (s.stage, event) {
        (ServerStage::Idle, ServerEventView::Start) => (
            at_stage(s, ServerStage::Starting),
            ServerActionView::Sleep(STARTUP_DELAY_MS),
        ),
        (ServerStage::Starting, ServerEventView::Done) => (
            at_stage(s, ServerStage::Building),
            ServerActionView::BuildHost,
        ),
        (ServerStage::Building, ServerEventView::Done) => advertise(s),
        (ServerStage::Advertising, ServerEventView::Done) => (
            at_stage(s, ServerStage::Accepting),
            ServerActionView::Accept,
        ),
        (ServerStage::Advertising, ServerEventView::Failed) => (
            at_stage(s, ServerStage::BackingOff),
            ServerActionView::Sleep(RETRY_DELAY_MS),
        ),
        (ServerStage::BackingOff, ServerEventView::Done) => advertise(s),
        (ServerStage::Accepting, ServerEventView::Done) => (
            at_stage(s, ServerStage::Bonding),
            ServerActionView::AllowBonding,
        ),
        (ServerStage::Accepting, ServerEventView::Failed) => advertise(s),
        (ServerStage::Bonding, ServerEventView::Done) => attach(s),
        (ServerStage::Bonding, ServerEventView::Failed) => attach(s),
        (ServerStage::Attaching, ServerEventView::Done) => await_event(s),
        (ServerStage::Attaching, ServerEventView::Failed) => advertise(s),
        (ServerStage::Connected, _) => connection_event(s, event),
        (ServerStage::Confirming, ServerEventView::Done) => await_event(s),
        (ServerStage::Confirming, ServerEventView::Failed) => await_event(s),
        (ServerStage::Flushing, ServerEventView::Transmitted(outcome)) => reply(
            ServerView { leds: leds::leds_flushed(s.leds, outcome), ..s },
        ),
        (ServerStage::Replying, ServerEventView::Done) => await_event(s),
        (ServerStage::Replying, ServerEventView::Failed) => await_event(s),
        _ => (s, ServerActionView::Nothing),
    }
}

impl GattServer {
    /// A server that has not begun and has no pixel data.
    pub fn new(data_handle: u16, show_handle: u16) -> (server: GattServer)
        ensures
            server@.data_handle == data_handle,
            server@.show_handle == show_handle,
            server@.stage == ServerStage::Idle,
            server@.pixels == Seq::<u8>::empty(),
            server@.leds.channel_ready,
            server@.leds.pulses == Seq::new(
                ws2812::MAX_PULSES as nat,
                |i: int| ws2812::idle_pulse(),
            ),
    {
        GattServer {
            data_handle,
            show_handle,
            stage: ServerStage::Idle,
            pixel_buf: Vec::new(),
            leds: Leds::new(),
        }
    }

    fn advertise(&mut self) -> (action: ServerAction)
        ensures
            (final(self)@, action@) == advertise(old(self)@),
    {
        self.stage = ServerStage::Advertising;
        ServerAction::Advertise(strip_advertisement())
    }

    fn attach(&mut self) -> (action: ServerAction)
        ensures
            (final(self)@, action@) == attach(old(self)@),
    {
        self.stage = ServerStage::Attaching;
        ServerAction::Attach
    }

    fn await_event(&mut self) -> (action: ServerAction)
        ensures
            (final(self)@, action@) == await_event(old(self)@),
    {
        self.stage = ServerStage::Connected;
        ServerAction::AwaitEvent(IDLE_TIMEOUT_MS)
    }

    fn reply(&mut self) -> (action: ServerAction)
        ensures
            (final(self)@, action@) == reply(old(self)@),
    {
        self.stage = ServerStage::Replying;
        ServerAction::Reply
    }

    fn written(&mut self, handle: u16, data: &[u8]) -> (action: ServerAction)
        ensures
            (final(self)@, action@) == written(old(self)@, handle, data@),
    {
        if handle == self.data_handle {
            self.pixel_buf.extend_from_slice(data);
            assert(self.pixel_buf@ =~= old(self).pixel_buf@ + data@);
            self.reply()
        } else if handle == self.show_handle {
            let count: Option<usize> = if self.pixel_buf.is_empty() {
                None
            } else {
                self.leds.flush_leds(self.pixel_buf.as_slice())
            };
            self.pixel_buf.clear();
            assert(self.pixel_buf@ =~= seq![]);
            match count {
                Some(n) => {
                    self.stage = ServerStage::Flushing;
                    ServerAction::Transmit(n)
                },
                None => self.reply(),
            }
        } else {
            self.reply()
        }
    }

    fn connection_event(&mut self, event: ServerEvent) -> (action: ServerAction)
        ensures
            (final(self)@, action@) == connection_event(old(self)@, event@),
    {
        match event {
            ServerEvent::Disconnected => self.advertise(),
            ServerEvent::TimedOut => self.advertise(),
            ServerEvent::PassKeyConfirm => {
                self.stage = ServerStage::Confirming;
                ServerAction::ConfirmPassKey
            },
            ServerEvent::Write { handle, data } => self.written(handle, data.as_slice()),
            ServerEvent::Read => self.reply(),
            ServerEvent::PassKeyDisplay => self.await_event(),
            ServerEvent::PassKeyInput => self.await_event(),
            ServerEvent::PairingComplete => self.await_event(),
            ServerEvent::PairingFailed => self.await_event(),
            ServerEvent::Other => self.await_event(),
            _ => ServerAction::Nothing,
        }
    }

    /// Takes notice of an event and decides what is to be done next.
    pub fn gatt_server_task(&mut self, event: ServerEvent) -> (action: ServerAction)
        ensures
            (final(self)@, action@) == server_step(old(self)@, event@),
    {
        match (self.stage, event) {
            (ServerStage::Idle, ServerEvent::Start) => {
                self.stage = ServerStage::Starting;
                ServerAction::Sleep(STARTUP_DELAY_MS)
            },
            (ServerStage::Starting, ServerEvent::Done) => {
                self.stage = ServerStage::Building;
                ServerAction::BuildHost
            },
            (ServerStage::Building, ServerEvent::Done) => self.advertise(),
            (ServerStage::Advertising, ServerEvent::Done) => {
                self.stage = ServerStage::Accepting;
                ServerAction::Accept
            },
            (ServerStage::Advertising, ServerEvent::Failed) => {
                self.stage = ServerStage::BackingOff;
                ServerAction::Sleep(RETRY_DELAY_MS)
            },
            (ServerStage::BackingOff, ServerEvent::Done) => self.advertise(),
            (ServerStage::Accepting, ServerEvent::Done) => {
                self.stage = ServerStage::Bonding;
                ServerAction::AllowBonding
            },
            (ServerStage::Accepting, ServerEvent::Failed) => self.advertise(),
            (ServerStage::Bonding, ServerEvent::Done) => self.attach(),
            (ServerStage::Bonding, ServerEvent::Failed) => self.attach(),
            (ServerStage::Attaching, ServerEvent::Done) => self.await_event(),
            (ServerStage::Attaching, ServerEvent::Failed) => self.advertise(),
            (ServerStage::Connected, event) => self.connection_event(event),
            (ServerStage::Confirming, ServerEvent::Done) => self.await_event(),
            (ServerStage::Confirming, ServerEvent::Failed) => self.await_event(),
            (ServerStage::Flushing, ServerEvent::Transmitted(outcome)) => {
                self.leds.transmission_ended(outcome);
                self.reply()
            },
            (ServerStage::Replying, ServerEvent::Done) => self.await_event(),
            (ServerStage::Replying, ServerEvent::Failed) => self.await_event(),
            _ => ServerAction::Nothing,
        }
    }
}

/// Pixel data changes with a write of a connected central and with nothing else; a
/// lost connection keeps it. The handles never change.
pub proof fn law_only_writes_change_pixels(s: ServerView, event: ServerEventView)
    ensures
        server_step(s, event).0.pixels != s.pixels ==> s.stage == ServerStage::Connected
            && event is Write,
        server_step(s, event).0.data_handle == s.data_handle,
        server_step(s, event).0.show_handle == s.show_handle,
{
}

/// Each write and each read of a connected central is answered, if need be after a
/// transmission, whatever becomes of it. Whether or not the answer could be given,
/// the server then waits for the next event.
pub proof fn law_every_request_is_answered(
    s: ServerView,
    event: ServerEventView,
    outcome: TransmitOutcome,
    replied: ServerEventView,
)
    requires
        s.stage == ServerStage::Connected,
        event is Write || event is Read,
        replied is Done || replied is Failed,
    ensures
        ({
            let first = server_step(s, event);
            let answered = if first.1 is Transmit {
                server_step(first.0, ServerEventView::Transmitted(outcome))
            } else {
                first
            };
            &&& answered.1 is Reply
            &&& server_step(answered.0, replied) == (
                ServerView { stage: ServerStage::Connected, ..answered.0 },
                ServerActionView::AwaitEvent(IDLE_TIMEOUT_MS),
            )
        }),
{
}

/// A pass key is confirmed and nothing else is done. Whether or not it could be
/// confirmed, the server then waits for the next event.
pub proof fn law_pass_key_is_confirmed(s: ServerView, confirmed: ServerEventView)
    requires
        s.stage == ServerStage::Connected,
        confirmed is Done || confirmed is Failed,
    ensures
        ({
            let asked = server_step(s, ServerEventView::PassKeyConfirm);
            &&& asked.1 is ConfirmPassKey
            &&& server_step(asked.0, confirmed) == (
                s,
                ServerActionView::AwaitEvent(IDLE_TIMEOUT_MS),
            )
        }),
{
}

/// The transmit channel is gone for good.
pub open spec fn channel_lost(s: ServerView) -> bool {
    !s.leds.channel_ready && s.stage != ServerStage::Flushing
}

/// A transmission that did not begin loses the channel, and any other gives it
/// back.
pub proof fn law_only_rejection_loses_channel(s: ServerView, outcome: TransmitOutcome)
    requires
        s.stage == ServerStage::Flushing,
    ensures
        channel_lost(server_step(s, ServerEventView::Transmitted(outcome)).0) <==> outcome
            == TransmitOutcome::Rejected,
{
}

/// Without the channel nothing is ever transmitted again.
pub proof fn law_lost_channel_stays_lost(s: ServerView, event: ServerEventView)
    requires
        channel_lost(s),
    ensures
        channel_lost(server_step(s, event).0),
        !(server_step(s, event).1 is Transmit),
{
}

/// Whatever ends a connection, or keeps it from coming about, is followed by the
/// advertisement of the strip, after a delay where the radio could not advertise.
pub proof fn law_server_advertises_again(s: ServerView, event: ServerEventView)
    requires
        ({
            ||| s.stage == ServerStage::Advertising && event is Failed
            ||| s.stage == ServerStage::Accepting && event is Failed
            ||| s.stage == ServerStage::Attaching && event is Failed
            ||| s.stage == ServerStage::Connected && event is Disconnected
            ||| s.stage == ServerStage::Connected && event is TimedOut
        }),
    ensures
        if s.stage == ServerStage::Advertising {
            &&& server_step(s, event).1 == ServerActionView::Sleep(RETRY_DELAY_MS)
            &&& server_step(server_step(s, event).0, ServerEventView::Done) == advertise(s)
        } else {
            server_step(s, event) == advertise(s)
        },
        advertise(s).0 == (ServerView { stage: ServerStage::Advertising, ..s }),
        advertise(s).1 is Advertise,
{
}

/// The server before event `i` of a sequence of events.
pub open spec fn before_event(s: ServerView, events: Seq<ServerEventView>, i: int) -> ServerView
    decreases i,
{
    if i <= 0 {
        s
    } else {
        server_step(before_event(s, events, i - 1), events[i - 1]).0
    }
}

/// The action of the server after event `i` of a sequence of events.
pub open spec fn action_after(
    s: ServerView,
    events: Seq<ServerEventView>,
    i: int,
) -> ServerActionView {
    server_step(before_event(s, events, i), events[i]).1
}

/// How far the server has started up.
spec fn startup_phase(stage: ServerStage) -> int {
    match stage {
        ServerStage::Idle => 0,
        ServerStage::Starting => 1,
        ServerStage::Building => 2,
        _ => 3,
    }
}

/// The server does not start up twice.
proof fn lemma_startup_goes_on(s: ServerView, events: Seq<ServerEventView>, i: int, j: int)
    requires
        0 <= i <= j,
    ensures
        startup_phase(before_event(s, events, i).stage) <= startup_phase(
            before_event(s, events, j).stage,
        ),
    decreases j,
{
    if i < j {
        lemma_startup_goes_on(s, events, i, j - 1);
    }
}

/// The radio's host is built once, and before it is built the server does nothing
/// but wait.
pub proof fn law_host_is_built_once(
    s: ServerView,
    events: Seq<ServerEventView>,
    i: int,
    j: int,
)
    requires
        s.stage == ServerStage::Idle,
        0 <= j <= i < events.len(),
        action_after(s, events, i) is BuildHost,
    ensures
        action_after(s, events, j) is BuildHost ==> i == j,
        j < i ==> {
            ||| action_after(s, events, j) is Nothing
            ||| action_after(s, events, j) == ServerActionView::Sleep(STARTUP_DELAY_MS)
        },
{
    if j < i {
        lemma_startup_goes_on(s, events, j + 1, i);
        assert(before_event(s, events, j + 1) == server_step(
            before_event(s, events, j),
            events[j],
        ).0);
    }
}

/// The radio's host is built when the startup delay is over.
pub proof fn law_host_is_built_after_delay(
    s: ServerView,
    events: Seq<ServerEventView>,
    i: int,
) -> (delay: int)
    requires
        s.stage == ServerStage::Idle,
        0 <= i < events.len(),
        action_after(s, events, i) is BuildHost,
    ensures
        0 <= delay < i,
        action_after(s, events, delay) == ServerActionView::Sleep(STARTUP_DELAY_MS),
        forall|k: int|
            delay < k < i ==> #[trigger] action_after(s, events, k) is Nothing,
        events[i] is Done,
{
    lemma_startup_delay(s, events, i)
}

proof fn lemma_startup_delay(s: ServerView, events: Seq<ServerEventView>, i: int) -> (delay: int)
    requires
        s.stage == ServerStage::Idle,
        0 <= i,
        before_event(s, events, i).stage == ServerStage::Starting,
    ensures
        0 <= delay < i,
        action_after(s, events, delay) == ServerActionView::Sleep(STARTUP_DELAY_MS),
        forall|k: int|
            delay < k < i ==> #[trigger] action_after(s, events, k) is Nothing,
    decreases i,
{
    if before_event(s, events, i - 1).stage == ServerStage::Starting {
        lemma_startup_delay(s, events, i - 1)
    } else {
        i - 1
    }
}

/// Whatever the server does with the radio comes after its host has been built.
pub proof fn law_radio_needs_host(s: ServerView, events: Seq<ServerEventView>, i: int) -> (build:
    int)
    requires
        s.stage == ServerStage::Idle,
        0 <= i < events.len(),
        !(action_after(s, events, i) is Nothing),
        !(action_after(s, events, i) is BuildHost),
        action_after(s, events, i) != ServerActionView::Sleep(STARTUP_DELAY_MS),
    ensures
        0 <= build < i,
        action_after(s, events, build) is BuildHost,
{
    lemma_host_was_built(s, events, i)
}

proof fn lemma_host_was_built(s: ServerView, events: Seq<ServerEventView>, i: int) -> (build: int)
    requires
        s.stage == ServerStage::Idle,
        0 <= i,
        startup_phase(before_event(s, events, i).stage) >= 2,
    ensures
        0 <= build < i,
        action_after(s, events, build) is BuildHost,
    decreases i,
{
    if startup_phase(before_event(s, events, i - 1).stage) >= 2 {
        lemma_host_was_built(s, events, i - 1)
    } else {
        i - 1
    }
}

/// A central that connects is allowed to bond, and then its connection is served,
/// whether or not the first could be done.
pub proof fn law_central_is_served(s: ServerView, allowed: ServerEventView)
    requires
        s.stage == ServerStage::Accepting,
        allowed is Done || allowed is Failed,
    ensures
        ({
            let accepted = server_step(s, ServerEventView::Done);
            let bondable = server_step(accepted.0, allowed);
            &&& accepted.1 is AllowBonding
            &&& bondable.1 is Attach
            &&& server_step(bondable.0, ServerEventView::Done) == (
                ServerView { stage: ServerStage::Connected, ..s },
                ServerActionView::AwaitEvent(IDLE_TIMEOUT_MS),
            )
        }),
{
}

/// Each connection that is served was allowed to bond just before, and once: the
/// last thing that the server did was to allow it.
pub proof fn law_bonding_precedes_attaching(
    s: ServerView,
    events: Seq<ServerEventView>,
    i: int,
) -> (allowed: int)
    requires
        s.stage == ServerStage::Idle,
        0 <= i < events.len(),
        action_after(s, events, i) is Attach,
    ensures
        0 < allowed < i,
        before_event(s, events, allowed).stage == ServerStage::Accepting,
        events[allowed] is Done,
        action_after(s, events, allowed) is AllowBonding,
        forall|k: int|
            allowed < k < i ==> #[trigger] action_after(s, events, k) is Nothing,
{
    lemma_bonding_was_allowed(s, events, i)
}

proof fn lemma_bonding_was_allowed(s: ServerView, events: Seq<ServerEventView>, i: int) -> (allowed:
    int)
    requires
        s.stage == ServerStage::Idle,
        0 <= i,
        before_event(s, events, i).stage == ServerStage::Bonding,
    ensures
        0 < allowed < i,
        before_event(s, events, allowed).stage == ServerStage::Accepting,
        events[allowed] is Done,
        action_after(s, events, allowed) is AllowBonding,
        forall|k: int|
            allowed < k < i ==> #[trigger] action_after(s, events, k) is Nothing,
    decreases i,
{
    if before_event(s, events, i - 1).stage == ServerStage::Bonding {
        lemma_bonding_was_allowed(s, events, i - 1)
    } else {
        i - 1
    }
}

/// Event `i` is a write of a connected central to the characteristic that takes
/// pixel data.
pub open spec fn is_data(s: ServerView, events: Seq<ServerEventView>, i: int) -> bool {
    &&& before_event(s, events, i).stage == ServerStage::Connected
    &&& events[i] matches ServerEventView::Write { handle, .. }
    &&& handle == s.data_handle
}

/// Event `i` is a write of a connected central to the characteristic that shows
/// pixel data.
pub open spec fn is_show(s: ServerView, events: Seq<ServerEventView>, i: int) -> bool {
    &&& before_event(s, events, i).stage == ServerStage::Connected
    &&& events[i] matches ServerEventView::Write { handle, .. }
    &&& handle == s.show_handle
    &&& handle != s.data_handle
}

/// None of the events from one place to another is a request to show pixel data.
pub open spec fn none_shows(
    s: ServerView,
    events: Seq<ServerEventView>,
    from: int,
    to: int,
) -> bool {
    forall|i: int| from <= i < to ==> !#[trigger] is_show(s, events, i)
}

/// The pixel data of the writes among the events from one place to another, one
/// after the other.
pub open spec fn data_between(
    s: ServerView,
    events: Seq<ServerEventView>,
    from: int,
    to: int,
) -> Seq<u8>
    decreases to - from,
{
    if to <= from {
        seq![]
    } else if is_data(s, events, to - 1) {
        data_between(s, events, from, to - 1) + events[to - 1]->Write_data
    } else {
        data_between(s, events, from, to - 1)
    }
}

/// The handles are the same before each event.
proof fn lemma_handles_stay(s: ServerView, events: Seq<ServerEventView>, i: int)
    ensures
        before_event(s, events, i).data_handle == s.data_handle,
        before_event(s, events, i).show_handle == s.show_handle,
    decreases i,
{
    if i > 0 {
        lemma_handles_stay(s, events, i - 1);
    }
}

/// The pulse buffer has its size before each event.
proof fn lemma_buffer_keeps_its_size(s: ServerView, events: Seq<ServerEventView>, i: int)
    requires
        s.leds.pulses.len() == ws2812::MAX_PULSES,
    ensures
        before_event(s, events, i).leds.pulses.len() == ws2812::MAX_PULSES,
    decreases i,
{
    if i > 0 {
        lemma_buffer_keeps_its_size(s, events, i - 1);
    }
}

/// Pixel data is collected in the order in which it is written, whatever else
/// happens, over any number of connections, until it is shown.
pub proof fn law_data_is_collected(
    s: ServerView,
    events: Seq<ServerEventView>,
    from: int,
    to: int,
)
    requires
        0 <= from <= to <= events.len(),
        none_shows(s, events, from, to),
    ensures
        before_event(s, events, to).pixels == before_event(s, events, from).pixels + data_between(
            s,
            events,
            from,
            to,
        ),
    decreases to - from,
{
    let start = before_event(s, events, from).pixels;
    if from == to {
        assert(start + data_between(s, events, from, to) =~= start);
    } else {
        law_data_is_collected(s, events, from, to - 1);
        lemma_handles_stay(s, events, to - 1);
        assert(!is_show(s, events, to - 1));
        let before = data_between(s, events, from, to - 1);
        if is_data(s, events, to - 1) {
            let data = events[to - 1]->Write_data;
            assert((start + before) + data =~= start + (before + data));
        }
    }
}

/// The pixel data that a request to show, event `at`, finds: what was written
/// since the last request, or since the beginning where there was none.
pub open spec fn data_to_show(
    s: ServerView,
    events: Seq<ServerEventView>,
    from: int,
    at: int,
) -> Seq<u8> {
    if from == 0 {
        s.pixels + data_between(s, events, from, at)
    } else {
        data_between(s, events, from, at)
    }
}

/// Event `at` is a request to show pixel data, and the last one before it, if any,
/// is the event before `from`.
pub open spec fn shows_since(
    s: ServerView,
    events: Seq<ServerEventView>,
    from: int,
    at: int,
) -> bool {
    &&& 0 <= from <= at < events.len()
    &&& is_show(s, events, at)
    &&& none_shows(s, events, from, at)
    &&& from > 0 ==> is_show(s, events, from - 1)
}

/// A request to show sends the pixel data that was written since the last request,
/// over any number of connections and whatever else happened, as pulses at the
/// front of the pulse buffer, as far as they fit. It empties the buffer of pixel
/// data. Without data or without the channel it sends nothing.
pub proof fn law_show_sends_collected_data(
    s: ServerView,
    events: Seq<ServerEventView>,
    from: int,
    at: int,
)
    requires
        s.leds.pulses.len() == ws2812::MAX_PULSES,
        shows_since(s, events, from, at),
    ensures
        before_event(s, events, at).pixels == data_to_show(s, events, from, at),
        before_event(s, events, at + 1).pixels == Seq::<u8>::empty(),
        ({
            let pixels = data_to_show(s, events, from, at);
            let count = 8 * ws2812::fitting(pixels).len();
            if pixels.len() > 0 && before_event(s, events, at).leds.channel_ready {
                &&& action_after(s, events, at) == ServerActionView::Transmit(count)
                &&& before_event(s, events, at + 1).leds.pulses.take(count as int)
                    == ws2812::waveform(ws2812::fitting(pixels))
            } else {
                action_after(s, events, at) is Reply
            }
        }),
{
    law_data_is_collected(s, events, from, at);
    lemma_handles_stay(s, events, at);
    lemma_buffer_keeps_its_size(s, events, at);
    let pixels = data_to_show(s, events, from, at);
    if from > 0 {
        lemma_handles_stay(s, events, from - 1);
        assert(is_show(s, events, from - 1));
        assert(before_event(s, events, from).pixels =~= seq![]);
        assert(before_event(s, events, from).pixels + data_between(s, events, from, at)
            =~= pixels);
    }
    ws2812::law_excess_pixels_are_dropped(pixels);
    let now = before_event(s, events, at);
    let next = before_event(s, events, at + 1);
    assert(next == server_step(now, events[at]).0);
    if pixels.len() > 0 && now.leds.channel_ready {
        assert(next.leds.pulses.take(ws2812::pulse_count(pixels) as int) =~= ws2812::sent_pulses(
            pixels,
        ));
    }
}

/// Nothing but a request to show sends pulses.
pub proof fn law_only_show_transmits(s: ServerView, events: Seq<ServerEventView>, i: int)
    requires
        0 <= i < events.len(),
        action_after(s, events, i) is Transmit,
    ensures
        is_show(s, events, i),
{
    lemma_handles_stay(s, events, i);
}

/// Before event `at`, some transmission was rejected: it did not begin.
pub open spec fn rejected_before(s: ServerView, events: Seq<ServerEventView>, at: int) -> bool {
    exists|i: int| 0 <= i < at && #[trigger] is_rejection(s, events, i)
}

/// Event `i` tells that a transmission was rejected.
pub open spec fn is_rejection(s: ServerView, events: Seq<ServerEventView>, i: int) -> bool {
    &&& before_event(s, events, i).stage == ServerStage::Flushing
    &&& events[i] == ServerEventView::Transmitted(TransmitOutcome::Rejected)
}

/// The channel is at hand, except during a transmission and for good after one
/// that did not begin.
pub proof fn law_channel_is_at_hand(s: ServerView, events: Seq<ServerEventView>, at: int)
    requires
        s.leds.channel_ready,
        s.stage != ServerStage::Flushing,
        0 <= at <= events.len(),
    ensures
        before_event(s, events, at).leds.channel_ready <==> before_event(s, events, at).stage
            != ServerStage::Flushing && !rejected_before(s, events, at),
        before_event(s, events, at).stage == ServerStage::Flushing ==> !rejected_before(
            s,
            events,
            at,
        ),
    decreases at,
{
    if at > 0 {
        law_channel_is_at_hand(s, events, at - 1);
        if is_rejection(s, events, at - 1) {
            assert(rejected_before(s, events, at));
        } else if rejected_before(s, events, at - 1) {
            let i = choose|i: int| 0 <= i < at - 1 && #[trigger] is_rejection(s, events, i);
            assert(is_rejection(s, events, i));
            assert(rejected_before(s, events, at));
        } else {
            assert(!rejected_before(s, events, at));
        }
    }
}

/// Every advertisement of the server, whatever has happened before, is the flags and
/// `Spect-Strip` in ASCII, with nothing to answer to a scanner. It changes nothing
/// but what the server waits for.
pub proof fn law_every_advertisement_is_the_strips(s: ServerView, event: ServerEventView)
    ensures
        server_step(s, event).1 matches ServerActionView::Advertise(adv) ==> {
            &&& adv.adv_data == seq![
                0x02u8,
                0x01u8,
                0x06u8,
                0x0cu8,
                0x09u8,
                0x53u8,
                0x70u8,
                0x65u8,
                0x63u8,
                0x74u8,
                0x2du8,
                0x53u8,
                0x74u8,
                0x72u8,
                0x69u8,
                0x70u8,
            ]
            &&& adv.scan_data == Seq::<u8>::empty()
            &&& server_step(s, event).0 == (ServerView { stage: ServerStage::Advertising, ..s })
        },
{
    advertising::law_strip_is_named();
}

/// Nothing but a disconnection or a time without events ends a connection.
pub proof fn law_only_its_end_ends_a_connection(s: ServerView, event: ServerEventView)
    requires
        s.stage == ServerStage::Connected,
    ensures
        server_step(s, event).1 is Advertise <==> event is Disconnected || event is TimedOut,
{
}

/// Events of a connection that ask for nothing leave the server as it is, whatever
/// it has collected, and it waits for the next event.
pub proof fn law_other_events_are_passed_over(s: ServerView, event: ServerEventView)
    requires
        s.stage == ServerStage::Connected,
        ({
            ||| event is PassKeyDisplay
            ||| event is PassKeyInput
            ||| event is PairingComplete
            ||| event is PairingFailed
            ||| event is Other
        }),
    ensures
        server_step(s, event) == (s, ServerActionView::AwaitEvent(IDLE_TIMEOUT_MS)),
{
}

/// A server that is started waits, builds the radio's host and advertises, and has
/// then nothing else changed.
pub proof fn law_server_starts_up(s: ServerView)
    requires
        s.stage == ServerStage::Idle,
    ensures
        ({
            let waiting = server_step(s, ServerEventView::Start);
            let building = server_step(waiting.0, ServerEventView::Done);
            let advertising = server_step(building.0, ServerEventView::Done);
            &&& waiting.1 == ServerActionView::Sleep(STARTUP_DELAY_MS)
            &&& building.1 is BuildHost
            &&& advertising.1 is Advertise
            &&& advertising.0 == (ServerView { stage: ServerStage::Advertising, ..s })
        }),
{
}

/// A server that advertises accepts a connection.
pub proof fn law_advertised_server_accepts(s: ServerView)
    requires
        s.stage == ServerStage::Advertising,
    ensures
        server_step(s, ServerEventView::Done) == (
            ServerView { stage: ServerStage::Accepting, ..s },
            ServerActionView::Accept,
        ),
{
}

/// A read changes nothing but what the server waits for, and neither does a write
/// to an attribute that is none of the two characteristics.
pub proof fn law_other_requests_change_nothing(s: ServerView, event: ServerEventView)
    requires
        s.stage == ServerStage::Connected,
        event is Read || (event is Write && event->Write_handle != s.data_handle
            && event->Write_handle != s.show_handle),
    ensures
        server_step(s, event) == (
            ServerView { stage: ServerStage::Replying, ..s },
            ServerActionView::Reply,
        ),
{
}

/// A write of pixel data adds it to what was collected, and changes nothing else but
/// what the server waits for.
pub proof fn law_data_is_added(s: ServerView, data: Seq<u8>)
    requires
        s.stage == ServerStage::Connected,
    ensures
        server_step(s, ServerEventView::Write { handle: s.data_handle, data }) == (
            ServerView { stage: ServerStage::Replying, pixels: s.pixels + data, ..s },
            ServerActionView::Reply,
        ),
{
}

/// A request to show empties the buffer of pixel data. With data and the channel it
/// sends the pulses of the data from the front of the pulse buffer, whose rest stays
/// as it was. Without one of them it changes nothing else and is answered at once.
pub proof fn law_show_sends_or_answers(s: ServerView, data: Seq<u8>)
    requires
        s.stage == ServerStage::Connected,
        s.show_handle != s.data_handle,
        s.leds.pulses.len() == ws2812::MAX_PULSES,
    ensures
        ({
            let next = server_step(s, ServerEventView::Write { handle: s.show_handle, data });
            let count = ws2812::pulse_count(s.pixels);
            if s.pixels.len() > 0 && s.leds.channel_ready {
                &&& next.1 == ServerActionView::Transmit(count)
                &&& next.0 == (ServerView {
                    stage: ServerStage::Flushing,
                    pixels: seq![],
                    leds: next.0.leds,
                    ..s
                })
                &&& !next.0.leds.channel_ready
                &&& next.0.leds.pulses.len() == ws2812::MAX_PULSES
                &&& next.0.leds.pulses.take(count as int) == ws2812::sent_pulses(s.pixels)
                &&& next.0.leds.pulses.skip(count as int) == s.leds.pulses.skip(count as int)
            } else {
                next == (
                    ServerView { stage: ServerStage::Replying, pixels: seq![], ..s },
                    ServerActionView::Reply,
                )
            }
        }),
{
    leds::law_flush_prepares_pulses(s.leds, s.pixels);
}

/// A transmission that has ended leaves all but the channel as it was.
pub proof fn law_ended_transmission_keeps_the_rest(s: ServerView, outcome: TransmitOutcome)
    requires
        s.stage == ServerStage::Flushing,
    ensures
        server_step(s, ServerEventView::Transmitted(outcome)) == (
            ServerView {
                stage: ServerStage::Replying,
                leds: LedsView {
                    channel_ready: outcome == TransmitOutcome::Completed || outcome
                        == TransmitOutcome::Interrupted,
                    pulses: s.leds.pulses,
                },
                ..s
            },
            ServerActionView::Reply,
        ),
{
}

/// The server waits for this event.
pub open spec fn awaits(stage: ServerStage, event: ServerEventView) -> bool {
    match event {
        ServerEventView::Start => stage is Idle,
        ServerEventView::Done => !(stage is Idle || stage is Connected || stage is Flushing),
        ServerEventView::Failed => {
            ||| stage is Advertising
            ||| stage is Accepting
            ||| stage is Bonding
            ||| stage is Attaching
            ||| stage is Confirming
            ||| stage is Replying
        },
        ServerEventView::Transmitted(_) => stage is Flushing,
        _ => stage is Connected,
    }
}

/// An event that the server did not wait for changes nothing, and any other is
/// followed by an action.
pub proof fn law_server_acts_on_what_it_awaits(s: ServerView, event: ServerEventView)
    ensures
        !awaits(s.stage, event) ==> server_step(s, event) == (s, ServerActionView::Nothing),
        awaits(s.stage, event) ==> !(server_step(s, event).1 is Nothing),
{
}

} // verus!
