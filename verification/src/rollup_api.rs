//! The rollup's HTTP API: where it is found, and what its answers mean.
use vstd::prelude::*;
use vstd::string::*;

use crate::config::FileRead;
use crate::json::{json_u64, numeral_is_its_number, parse_json_u64};
use crate::text::{concat2, concat3, decimal, decimal_text};

verus! {

/// Path of the chain-state current-heights endpoint.
pub open spec fn current_heights_path() -> Seq<char> {
    "/modules/chain-state/state/current-heights/"@
}

/// Path of the chain-state rollup-height WebSocket subscription.
pub open spec fn rollup_height_ws_path() -> Seq<char> {
    "/modules/chain-state/rollup-height/ws"@
}

/// How long a subscription read blocks before returning so the worker can
/// re-check its stop flag while no height updates are arriving.
pub const SUBSCRIPTION_READ_TIMEOUT_MILLIS: u64 = 200;

/// Delay between reconnection attempts while the rollup API is still starting up.
pub const SUBSCRIPTION_RECONNECT_DELAY_MILLIS: u64 = 100;

/// Timeout for connecting to the API and for reading an answer from it.
pub const REQUEST_TIMEOUT_MILLIS: u64 = 1000;

/// Why the rollup's API could not be used.
#[derive(Debug)]
pub enum RollupApiError {
    ReadConfig { path: String, source: String },
    ParseConfig { path: String, source: String },
    Request(String),
}

/// The bind port that a rollup config file gives, as `parse_http_port` reports it.
pub open spec fn http_port(config_path: String, file: FileRead<u16>) -> Result<
    u16,
    RollupApiError,
> {
    match file {
        FileRead::Unreadable(m) => Err(
            RollupApiError::ReadConfig { path: config_path, source: m },
        ),
        FileRead::Malformed(m) => Err(RollupApiError::ParseConfig { path: config_path, source: m }),
        FileRead::Parsed(port) => Ok(port),
    }
}

/// Take the HTTP bind port (`runner.http_config.bind_port`) from a decoded rollup config file.
pub fn parse_http_port(config_path: &String, file: FileRead<u16>) -> (r: Result<
    u16,
    RollupApiError,
>)
    ensures
        r == http_port(*config_path, file),
{
    match file {
        FileRead::Unreadable(m) => Err(
            RollupApiError::ReadConfig { path: config_path.clone(), source: m },
        ),
        FileRead::Malformed(m) => Err(
            RollupApiError::ParseConfig { path: config_path.clone(), source: m },
        ),
        FileRead::Parsed(port) => Ok(port),
    }
}

/// Client for querying the rollup's HTTP API.
#[derive(Debug)]
pub struct RollupApiClient {
    pub base_url: String,
}

impl RollupApiClient {
    /// Create a new client by taking the port from the rollup config.
    pub fn from_config(config_path: &String, file: FileRead<u16>) -> (r: Result<
        Self,
        RollupApiError,
    >)
        ensures
            match http_port(*config_path, file) {
                Ok(port) => r is Ok && r->Ok_0.base_url@ == "http://localhost:"@ + decimal(
                    port as nat,
                ),
                Err(e) => r == Err::<Self, _>(e),
            },
    {
        match parse_http_port(config_path, file) {
            Ok(port) => Ok(Self::new(port)),
            Err(e) => Err(e),
        }
    }

    /// Create a new client with a known port.
    pub fn new(port: u16) -> (r: Self)
        ensures
            r.base_url@ == "http://localhost:"@ + decimal(port as nat),
    {
        let number = decimal_text(port as u64);
        RollupApiClient { base_url: concat2("http://localhost:", number.as_str()) }
    }

    /// The address that answers with the current heights.
    pub fn current_heights_url(&self) -> (url: String)
        ensures
            url@ == self.base_url@ + current_heights_path(),
    {
        concat2(self.base_url.as_str(), "/modules/chain-state/state/current-heights/")
    }

    /// Take the answer to a query for the current heights.
    ///
    /// Returns `(rollup_height, visible_slot_number)`.
    pub fn query_current_heights(answer: Result<(u64, u64), String>) -> (r: Result<
        (u64, u64),
        RollupApiError,
    >)
        ensures
            match answer {
                Ok(heights) => r == Ok::<_, RollupApiError>(heights),
                Err(m) => r == Err::<(u64, u64), _>(RollupApiError::Request(m)),
            },
    {
        match answer {
            Ok(heights) => Ok(heights),
            Err(m) => Err(RollupApiError::Request(m)),
        }
    }

    /// Take just the rollup height (first element of the current heights).
    pub fn query_rollup_height(answer: Result<(u64, u64), String>) -> (r: Result<
        u64,
        RollupApiError,
    >)
        ensures
            match answer {
                Ok(heights) => r == Ok::<_, RollupApiError>(heights.0),
                Err(m) => r == Err::<u64, _>(RollupApiError::Request(m)),
            },
    {
        match Self::query_current_heights(answer) {
            Ok((height, _)) => Ok(height),
            Err(e) => Err(e),
        }
    }
}

/// Where a subscription's worker stands.
#[derive(Debug, Clone, Copy, PartialEq, Eq, Structural)]
pub enum SubscriptionPhase {
    /// About to connect.
    Connecting,
    /// Waiting before it connects again.
    BackingOff,
    /// Reading from the socket.
    Reading,
    /// Done: the stream has ended or the worker was told to stop.
    Ended,
}

/// What a read from the subscription's socket gave.
#[derive(Debug)]
pub enum SocketRead {
    Text(String),
    Close,
    /// A frame that carries no text.
    Other,
    /// The read timed out or was interrupted.
    Interrupted,
    /// The connection is gone.
    Failed,
}

/// What happened to the action that the worker last took.
#[derive(Debug)]
pub enum SubscriptionEvent {
    Connected,
    ConnectFailed,
    Slept,
    Read(SocketRead),
}

/// What the worker does next.
#[derive(Debug, Clone, Copy, PartialEq, Eq, Structural)]
pub enum SubscriptionAction {
    Connect,
    Sleep { millis: u64 },
    Read,
    Finish,
}

/// A background subscription to the rollup's chain-state rollup-height stream
/// that tracks the latest committed rollup height.
///
/// Unlike polling the height endpoint, a subscription receives *every* committed
/// rollup height over a single connection, so the final height before shutdown is
/// observed reliably even when the rollup resyncs and exits within a single poll
/// interval.
#[derive(Debug)]
pub struct HeightSubscription {
    pub url: String,
    pub latest: Option<u64>,
    pub stop: bool,
    pub phase: SubscriptionPhase,
}

impl HeightSubscription {
    /// The phase after an event; an event that does not answer the phase's action is ignored.
    pub open spec fn phase_after(self, event: SubscriptionEvent) -> SubscriptionPhase {
        match (self.phase, event) {
            (SubscriptionPhase::Connecting, SubscriptionEvent::Connected) =>
                SubscriptionPhase::Reading,
            (SubscriptionPhase::Connecting, SubscriptionEvent::ConnectFailed) =>
                SubscriptionPhase::BackingOff,
            (SubscriptionPhase::BackingOff, SubscriptionEvent::Slept) =>
                SubscriptionPhase::Connecting,
            (SubscriptionPhase::Reading, SubscriptionEvent::Read(SocketRead::Close)) =>
                SubscriptionPhase::Ended,
            (SubscriptionPhase::Reading, SubscriptionEvent::Read(SocketRead::Failed)) =>
                SubscriptionPhase::Ended,
            _ => self.phase,
        }
    }

    /// The latest height after an event: only a text frame that is a number changes it.
    pub open spec fn latest_after(self, event: SubscriptionEvent) -> Option<u64> {
        match (self.phase, event) {
            (SubscriptionPhase::Reading, SubscriptionEvent::Read(SocketRead::Text(text))) => {
                match json_u64(text@) {
                    Some(height) => Some(height),
                    None => self.latest,
                }
            },
            _ => self.latest,
        }
    }

    /// Where a worker that stands in `phase` goes, given whether it was told to stop: it heeds
    /// that before it connects and before it reads.
    pub open spec fn heeding(phase: SubscriptionPhase, stop: bool) -> SubscriptionPhase {
        if stop && (phase == SubscriptionPhase::Connecting || phase == SubscriptionPhase::Reading) {
            SubscriptionPhase::Ended
        } else {
            phase
        }
    }

    /// What a worker in a phase does.
    pub open spec fn action_of(phase: SubscriptionPhase) -> SubscriptionAction {
        match phase {
            SubscriptionPhase::Connecting => SubscriptionAction::Connect,
            SubscriptionPhase::BackingOff => SubscriptionAction::Sleep {
                millis: SUBSCRIPTION_RECONNECT_DELAY_MILLIS,
            },
            SubscriptionPhase::Reading => SubscriptionAction::Read,
            SubscriptionPhase::Ended => SubscriptionAction::Finish,
        }
    }

    /// The latest rollup height observed over the subscription, or `None` if no
    /// height has been received yet.
    pub fn latest_height(&self) -> (r: Option<u64>)
        ensures
            r == self.latest,
    {
        self.latest
    }

    /// Whether the subscription stream has ended (the socket closed, typically
    /// because the rollup process exited).
    pub fn stream_ended(&self) -> (b: bool)
        ensures
            b == (self.phase == SubscriptionPhase::Ended),
    {
        self.phase == SubscriptionPhase::Ended
    }

    /// Whether to go on waiting for the stream to end (all buffered height updates have been
    /// drained), given how long the wait has lasted.
    pub fn wait_for_stream_end(&self, elapsed_millis: u64, timeout_millis: u64) -> (b: bool)
        ensures
            b == (self.phase != SubscriptionPhase::Ended && elapsed_millis < timeout_millis),
    {
        !self.stream_ended() && elapsed_millis < timeout_millis
    }

    /// Tell the worker to stop; what it has observed stays.
    pub fn request_stop(&mut self)
        ensures
            *final(self) == (HeightSubscription { stop: true, ..*old(self) }),
    {
        self.stop = true;
    }

    /// Take in a height that was read from the stream; a frame without one changes nothing.
    pub fn observe(&mut self, height: Option<u64>)
        ensures
            *final(self) == (HeightSubscription {
                latest: if height is Some {
                    height
                } else {
                    old(self).latest
                },
                ..*old(self)
            }),
    {
        if height.is_some() {
            self.latest = height;
        }
    }

    /// Take in what happened, if anything has yet, and say what to do next.
    pub fn run_subscription(&mut self, event: Option<SubscriptionEvent>) -> (action:
        SubscriptionAction)
        ensures
            final(self).url == old(self).url,
            final(self).stop == old(self).stop,
            match event {
                Some(e) => {
                    &&& final(self).latest == old(self).latest_after(e)
                    &&& final(self).phase == Self::heeding(old(self).phase_after(e), old(self).stop)
                },
                None => {
                    &&& final(self).latest == old(self).latest
                    &&& final(self).phase == Self::heeding(old(self).phase, old(self).stop)
                },
            },
            action == Self::action_of(final(self).phase),
            // Every committed height that arrives is observed.
            event matches Some(SubscriptionEvent::Read(SocketRead::Text(text))) ==> old(self).phase
                == SubscriptionPhase::Reading ==> forall|n: u64|
                text@ == #[trigger] decimal(n as nat) ==> final(self).latest == Some(n),
    {
        match event {
            Some(e) => match self.phase {
                SubscriptionPhase::Connecting => match e {
                    SubscriptionEvent::Connected => {
                        self.phase = SubscriptionPhase::Reading;
                    },
                    SubscriptionEvent::ConnectFailed => {
                        self.phase = SubscriptionPhase::BackingOff;
                    },
                    _ => {},
                },
                SubscriptionPhase::BackingOff => match e {
                    SubscriptionEvent::Slept => {
                        self.phase = SubscriptionPhase::Connecting;
                    },
                    _ => {},
                },
                SubscriptionPhase::Reading => match e {
                    SubscriptionEvent::Read(SocketRead::Text(text)) => {
                        self.observe(parse_json_u64(text.as_str()));
                        assert forall|n: u64| text@ == #[trigger] decimal(n as nat) implies self.latest
                            == Some(n) by {
                            numeral_is_its_number(n);
                        }
                    },
                    SubscriptionEvent::Read(SocketRead::Close) => {
                        self.phase = SubscriptionPhase::Ended;
                    },
                    SubscriptionEvent::Read(SocketRead::Failed) => {
                        self.phase = SubscriptionPhase::Ended;
                    },
                    _ => {},
                },
                SubscriptionPhase::Ended => {},
            },
            None => {},
        }
        if self.stop {
            match self.phase {
                SubscriptionPhase::Connecting | SubscriptionPhase::Reading => {
                    self.phase = SubscriptionPhase::Ended;
                },
                _ => {},
            }
        }
        match self.phase {
            SubscriptionPhase::Connecting => SubscriptionAction::Connect,
            SubscriptionPhase::BackingOff => SubscriptionAction::Sleep {
                millis: SUBSCRIPTION_RECONNECT_DELAY_MILLIS,
            },
            SubscriptionPhase::Reading => SubscriptionAction::Read,
            SubscriptionPhase::Ended => SubscriptionAction::Finish,
        }
    }
}

/// A subscription to the rollup-height stream on `port`, about to connect.
pub fn spawn_height_subscription(port: u16) -> (s: HeightSubscription)
    ensures
        s.url@ == "ws://localhost:"@ + decimal(port as nat) + rollup_height_ws_path(),
        s.latest is None,
        !s.stop,
        s.phase == SubscriptionPhase::Connecting,
{
    let number = decimal_text(port as u64);
    HeightSubscription {
        url: concat3("ws://localhost:", number.as_str(), "/modules/chain-state/rollup-height/ws"),
        latest: None,
        stop: false,
        phase: SubscriptionPhase::Connecting,
    }
}

/// The subscription after a sequence of events, none of which comes after it was told to stop.
pub open spec fn observed(s: HeightSubscription, events: Seq<SubscriptionEvent>) -> HeightSubscription
    decreases events.len(),
{
    if events.len() == 0 {
        s
    } else {
        let before = observed(s, events.drop_last());
        HeightSubscription {
            latest: before.latest_after(events.last()),
            phase: HeightSubscription::heeding(before.phase_after(events.last()), before.stop),
            ..before
        }
    }
}

/// Once a height has been observed there always is one, and the end of the stream is final:
/// no later event changes what a stream that has ended reports.
pub proof fn ended_stream_is_final(s: HeightSubscription, events: Seq<SubscriptionEvent>)
    ensures
        s.latest is Some ==> observed(s, events).latest is Some,
        s.phase == SubscriptionPhase::Ended ==> observed(s, events) == s,
    decreases events.len(),
{
    if events.len() > 0 {
        ended_stream_is_final(s, events.drop_last());
    }
}

/// A worker that has not been told to stop connects, again and again with a pause of a tenth of a
/// second, until it is connected; from then on it reads until the stream is closed or fails. Only a
/// text frame that is a number changes the latest height.
pub proof fn subscription_reads_to_the_end(s: HeightSubscription, text: String, n: u64)
    requires
        !s.stop,
    ensures
        s.phase is Connecting ==> {
            &&& HeightSubscription::action_of(s.phase) is Connect
            &&& s.phase_after(SubscriptionEvent::Connected) is Reading
            &&& s.phase_after(SubscriptionEvent::ConnectFailed) is BackingOff
        },
        s.phase is BackingOff ==> {
            &&& HeightSubscription::action_of(s.phase) == (SubscriptionAction::Sleep { millis: 100 })
            &&& s.phase_after(SubscriptionEvent::Slept) is Connecting
        },
        s.phase is Reading ==> {
            &&& HeightSubscription::action_of(s.phase) is Read
            &&& s.phase_after(SubscriptionEvent::Read(SocketRead::Text(text))) is Reading
            &&& s.phase_after(SubscriptionEvent::Read(SocketRead::Other)) is Reading
            &&& s.phase_after(SubscriptionEvent::Read(SocketRead::Interrupted)) is Reading
            &&& s.phase_after(SubscriptionEvent::Read(SocketRead::Close)) is Ended
            &&& s.phase_after(SubscriptionEvent::Read(SocketRead::Failed)) is Ended
            &&& text@ == decimal(n as nat) ==> s.latest_after(
                SubscriptionEvent::Read(SocketRead::Text(text)),
            ) == Some(n)
            &&& json_u64(text@) is None ==> s.latest_after(
                SubscriptionEvent::Read(SocketRead::Text(text)),
            ) == s.latest
            &&& s.latest_after(SubscriptionEvent::Read(SocketRead::Other)) == s.latest
            &&& s.latest_after(SubscriptionEvent::Read(SocketRead::Interrupted)) == s.latest
            &&& s.latest_after(SubscriptionEvent::Read(SocketRead::Close)) == s.latest
            &&& s.latest_after(SubscriptionEvent::Read(SocketRead::Failed)) == s.latest
        },
        s.phase is Ended ==> HeightSubscription::action_of(s.phase) is Finish,
        HeightSubscription::heeding(s.phase, false) == s.phase,
{
    numeral_is_its_number(n);
}

/// A worker that has been told to stop neither connects nor reads any more.
pub proof fn stopped_worker_ends(phase: SubscriptionPhase)
    ensures
        phase is Connecting || phase is Reading ==> HeightSubscription::action_of(
            HeightSubscription::heeding(phase, true),
        ) is Finish,
        HeightSubscription::action_of(HeightSubscription::heeding(phase, true)) !is Connect,
        HeightSubscription::action_of(HeightSubscription::heeding(phase, true)) !is Read,
        phase is BackingOff ==> HeightSubscription::heeding(phase, true) is BackingOff,
{
}

/// Where the heights are asked for, and where they are streamed.
pub proof fn heights_have_their_paths()
    ensures
        current_heights_path() == "/modules/chain-state/state/current-heights/"@,
        rollup_height_ws_path() == "/modules/chain-state/rollup-height/ws"@,
{
}

} // verus!
