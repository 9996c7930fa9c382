//! The serial worker's rules: which serial settings it accepts, and what it
//! does, step by step, with each request. The worker itself owns the port and
//! carries the steps out; here is only what it decides.

use crate::connector_link::{PjLinkRS232MessageRequest, PjLinkRS232MessageResponse};
use vstd::prelude::*;

verus! {

/// Minimum timeout allowed (in ms).
pub const CONNECTOR_THREAD_MIN_TIMEOUT: u32 = 50;

/// The serial line as the options describe it, unchecked.
#[derive(Debug, Clone, PartialEq, Eq)]
pub struct PjLinkRS232ConnectorOptions {
    pub serial_port: String,
    pub baud_rate: u32,
    pub data_bits: u8,
    pub parity: char,
    pub stop_bits: u8,
    pub hardware_flow_control: bool,
    pub software_flow_control: bool,
}

/// Number of bits per character.
#[derive(Debug, Clone, Copy, PartialEq, Eq, Structural)]
pub enum SerialDataBits {
    Five,
    Six,
    Seven,
    Eight,
}

/// Parity checking mode.
#[derive(Debug, Clone, Copy, PartialEq, Eq, Structural)]
pub enum SerialParity {
    Disabled,
    Even,
    Odd,
}

/// Number of stop bits.
#[derive(Debug, Clone, Copy, PartialEq, Eq, Structural)]
pub enum SerialStopBits {
    One,
    Two,
}

/// Flow control mode.
#[derive(Debug, Clone, Copy, PartialEq, Eq, Structural)]
pub enum SerialFlowControl {
    Disabled,
    Software,
    Hardware,
}

/// The serial line as the port is opened with: every setting checked.
#[derive(Debug, Clone, PartialEq, Eq)]
pub struct SerialSettings {
    pub serial_port: String,
    pub baud_rate: u32,
    pub data_bits: SerialDataBits,
    pub parity: SerialParity,
    pub stop_bits: SerialStopBits,
    pub flow_control: SerialFlowControl,
}

/// A serial setting that no port can be opened with.
#[derive(Debug, Clone, Copy, PartialEq, Eq, Structural)]
pub enum ConnectorError {
    UnsupportedDataBits(u8),
    UnsupportedParity(char),
    UnsupportedStopBits(u8),
}

/// The character size that a number of data bits stands for.
pub open spec fn spec_data_bits(data_bits: u8) -> Option<SerialDataBits> {
    if data_bits == 8 {
        Some(SerialDataBits::Eight)
    } else if data_bits == 7 {
        Some(SerialDataBits::Seven)
    } else if data_bits == 6 {
        Some(SerialDataBits::Six)
    } else if data_bits == 5 {
        Some(SerialDataBits::Five)
    } else {
        None
    }
}

/// The parity mode that a letter stands for.
pub open spec fn spec_parity(parity: char) -> Option<SerialParity> {
    if parity == 'N' {
        Some(SerialParity::Disabled)
    } else if parity == 'E' {
        Some(SerialParity::Even)
    } else if parity == 'O' {
        Some(SerialParity::Odd)
    } else {
        None
    }
}

/// The stop bits that a number stands for.
pub open spec fn spec_stop_bits(stop_bits: u8) -> Option<SerialStopBits> {
    if stop_bits == 1 {
        Some(SerialStopBits::One)
    } else if stop_bits == 2 {
        Some(SerialStopBits::Two)
    } else {
        None
    }
}

/// The flow control that the two switches ask for; with both set, hardware
/// flow control wins.
pub open spec fn spec_flow_control(hardware: bool, software: bool) -> SerialFlowControl {
    if hardware {
        SerialFlowControl::Hardware
    } else if software {
        SerialFlowControl::Software
    } else {
        SerialFlowControl::Disabled
    }
}

/// The wait that a request is given: the one it asks for, raised to the
/// minimum where it asks for less.
pub open spec fn spec_effective_timeout(requested: u32) -> u32 {
    if requested >= CONNECTOR_THREAD_MIN_TIMEOUT {
        requested
    } else {
        CONNECTOR_THREAD_MIN_TIMEOUT
    }
}

/// What the worker is doing.
#[derive(Debug, Clone, Copy, PartialEq, Eq, Structural)]
pub enum ConnectorState {
    /// It waits for the next request.
    Idle,
    /// It writes a request's bytes to the port; `wait` is the request's window.
    Writing { wait: u32 },
    /// It sets the port's read timeout to the window.
    SettingTimeout { wait: u32 },
    /// It lets the window pass.
    Sleeping,
    /// It asks the port how many bytes have arrived.
    Counting,
    /// It reads those bytes.
    Reading,
    /// It hands the reply to the handler.
    Replying,
    /// The handler is gone: there will be no more requests.
    Stopped,
}

/// What happened to the worker: the outcome of what it did last.
#[derive(Debug, Clone, PartialEq, Eq)]
pub enum ConnectorEvent {
    /// A request came.
    Request(PjLinkRS232MessageRequest),
    /// No request will come any more.
    Disconnected,
    /// The bytes were written, or the write failed.
    Written { ok: bool },
    /// The read timeout was set, or could not be.
    TimeoutSet { ok: bool },
    /// The window has passed.
    Slept,
    /// So many bytes have arrived; `None` where the port would not tell.
    Counted { available: Option<u32> },
    /// The read is over, and this is the buffer after it, whether the read
    /// failed or not.
    Read { buffer: Vec<u8>, ok: bool },
    /// The reply was handed over, or the handler was gone.
    Replied { ok: bool },
}

/// What the worker is to do next.
#[derive(Debug, Clone, PartialEq, Eq)]
pub enum ConnectorAction {
    /// Wait for the next request.
    Receive,
    /// Write all of these bytes to the port.
    Write(Vec<u8>),
    /// Set the port's read timeout to so many milliseconds.
    SetTimeout(u32),
    /// Sleep so many milliseconds.
    Sleep(u32),
    /// Ask the port how many bytes have arrived.
    Count,
    /// Read from the port into this buffer.
    Read(Vec<u8>),
    /// Hand this reply to the handler.
    Reply(PjLinkRS232MessageResponse),
    /// End the worker.
    Stop,
}

/// An action as contracts speak of it.
pub enum ConnectorActionView {
    Receive,
    Write(Seq<u8>),
    SetTimeout(u32),
    Sleep(u32),
    Count,
    Read(Seq<u8>),
    Reply { response: Seq<u8>, elapsed_time: u32 },
    Stop,
}

impl View for ConnectorAction {
    type V = ConnectorActionView;

    open spec fn view(&self) -> ConnectorActionView {
        match self {
            ConnectorAction::Receive => ConnectorActionView::Receive,
            ConnectorAction::Write(bytes) => ConnectorActionView::Write(bytes@),
            ConnectorAction::SetTimeout(wait) => ConnectorActionView::SetTimeout(*wait),
            ConnectorAction::Sleep(wait) => ConnectorActionView::Sleep(*wait),
            ConnectorAction::Count => ConnectorActionView::Count,
            ConnectorAction::Read(buffer) => ConnectorActionView::Read(buffer@),
            ConnectorAction::Reply(reply) => ConnectorActionView::Reply {
                response: reply.response@,
                elapsed_time: reply.elapsed_time,
            },
            ConnectorAction::Stop => ConnectorActionView::Stop,
        }
    }
}

/// So many zero bytes.
pub open spec fn zeros(count: nat) -> Seq<u8> {
    Seq::new(count, |i: int| 0u8)
}

/// How many bytes are read: as many as the port says have arrived, and none
/// where it would not tell.
pub open spec fn spec_read_length(available: Option<u32>) -> nat {
    match available {
        Some(count) => count as nat,
        None => 0,
    }
}

/// Whether `event` is the outcome of what the worker does in `state`.
pub open spec fn answers(state: ConnectorState, event: ConnectorEvent) -> bool {
    match state {
        ConnectorState::Idle => event is Request || event is Disconnected,
        ConnectorState::Writing { .. } => event is Written,
        ConnectorState::SettingTimeout { .. } => event is TimeoutSet,
        ConnectorState::Sleeping => event is Slept,
        ConnectorState::Counting => event is Counted,
        ConnectorState::Reading => event is Read,
        ConnectorState::Replying => event is Replied,
        ConnectorState::Stopped => false,
    }
}

/// What the worker does after `event`. An event that is not the outcome of
/// what it does now changes nothing. No failure changes the course of an
/// exchange: a request that was taken is carried through to its reply.
pub open spec fn next_state(state: ConnectorState, event: ConnectorEvent) -> ConnectorState {
    match (state, event) {
        (ConnectorState::Idle, ConnectorEvent::Request(request)) => ConnectorState::Writing {
            wait: spec_effective_timeout(request.timeout),
        },
        (ConnectorState::Idle, ConnectorEvent::Disconnected) => ConnectorState::Stopped,
        (ConnectorState::Writing { wait }, ConnectorEvent::Written { .. }) => {
            ConnectorState::SettingTimeout { wait }
        },
        (ConnectorState::SettingTimeout { .. }, ConnectorEvent::TimeoutSet { .. }) => {
            ConnectorState::Sleeping
        },
        (ConnectorState::Sleeping, ConnectorEvent::Slept) => ConnectorState::Counting,
        (ConnectorState::Counting, ConnectorEvent::Counted { .. }) => ConnectorState::Reading,
        (ConnectorState::Reading, ConnectorEvent::Read { .. }) => ConnectorState::Replying,
        (ConnectorState::Replying, ConnectorEvent::Replied { .. }) => ConnectorState::Idle,
        _ => state,
    }
}

/// What the worker is told to do after `event`; nothing after an event that
/// is not the outcome of what it does now.
pub open spec fn next_action(state: ConnectorState, event: ConnectorEvent) -> Option<
    ConnectorActionView,
> {
    match (state, event) {
        (ConnectorState::Idle, ConnectorEvent::Request(request)) => Some(
            ConnectorActionView::Write(request.message@),
        ),
        (ConnectorState::Idle, ConnectorEvent::Disconnected) => Some(ConnectorActionView::Stop),
        (ConnectorState::Writing { wait }, ConnectorEvent::Written { .. }) => Some(
            ConnectorActionView::SetTimeout(wait),
        ),
        (ConnectorState::SettingTimeout { wait }, ConnectorEvent::TimeoutSet { .. }) => Some(
            ConnectorActionView::Sleep(wait),
        ),
        (ConnectorState::Sleeping, ConnectorEvent::Slept) => Some(ConnectorActionView::Count),
        (ConnectorState::Counting, ConnectorEvent::Counted { available }) => Some(
            ConnectorActionView::Read(zeros(spec_read_length(available))),
        ),
        (ConnectorState::Reading, ConnectorEvent::Read { buffer, .. }) => Some(
            ConnectorActionView::Reply { response: buffer@, elapsed_time: 0 },
        ),
        (ConnectorState::Replying, ConnectorEvent::Replied { .. }) => Some(
            ConnectorActionView::Receive,
        ),
        _ => None,
    }
}

/// The rules of the serial worker.
pub struct PjLinkRS232Connector {
    state: ConnectorState,
}

impl PjLinkRS232Connector {
    /// What the worker is doing.
    pub closed spec fn spec_state(&self) -> ConnectorState {
        self.state
    }

    /// A worker that has its port and waits for the first request: the first
    /// thing to do is to receive one.
    pub fn start() -> (begun: (Self, ConnectorAction))
        ensures
            begun.0.spec_state() == ConnectorState::Idle,
            begun.1@ == ConnectorActionView::Receive,
    {
        (PjLinkRS232Connector { state: ConnectorState::Idle }, ConnectorAction::Receive)
    }

    /// What the worker is doing.
    pub fn state(&self) -> (state: ConnectorState)
        ensures
            state == self.spec_state(),
    {
        self.state
    }

    /// Checks the serial settings of the options and puts them in the form
    /// that a port is opened with. The data bits are looked at first, then
    /// the parity, then the stop bits; the first that no port supports is
    /// the error.
    pub fn build_connection(options: PjLinkRS232ConnectorOptions) -> (result: Result<
        SerialSettings,
        ConnectorError,
    >)
        ensures
            match result {
                Ok(settings) => {
                    &&& settings.serial_port == options.serial_port
                    &&& settings.baud_rate == options.baud_rate
                    &&& spec_data_bits(options.data_bits) == Some(settings.data_bits)
                    &&& spec_parity(options.parity) == Some(settings.parity)
                    &&& spec_stop_bits(options.stop_bits) == Some(settings.stop_bits)
                    &&& settings.flow_control == spec_flow_control(
                        options.hardware_flow_control,
                        options.software_flow_control,
                    )
                },
                Err(ConnectorError::UnsupportedDataBits(found)) => {
                    &&& found == options.data_bits
                    &&& spec_data_bits(options.data_bits) is None
                },
                Err(ConnectorError::UnsupportedParity(found)) => {
                    &&& found == options.parity
                    &&& spec_data_bits(options.data_bits) is Some
                    &&& spec_parity(options.parity) is None
                },
                Err(ConnectorError::UnsupportedStopBits(found)) => {
                    &&& found == options.stop_bits
                    &&& spec_data_bits(options.data_bits) is Some
                    &&& spec_parity(options.parity) is Some
                    &&& spec_stop_bits(options.stop_bits) is None
                },
            },
    {
        let serial_data_bits = match options.data_bits {
            8 => SerialDataBits::Eight,
            7 => SerialDataBits::Seven,
            6 => SerialDataBits::Six,
            5 => SerialDataBits::Five,
            _ => {
                return Err(ConnectorError::UnsupportedDataBits(options.data_bits));
            },
        };

        let serial_parity = match options.parity {
            'N' => SerialParity::Disabled,
            'E' => SerialParity::Even,
            'O' => SerialParity::Odd,
            _ => {
                return Err(ConnectorError::UnsupportedParity(options.parity));
            },
        };

        let serial_stop_bits = match options.stop_bits {
            1 => SerialStopBits::One,
            2 => SerialStopBits::Two,
            _ => {
                return Err(ConnectorError::UnsupportedStopBits(options.stop_bits));
            },
        };

        let serial_flow_control = if options.hardware_flow_control {
            SerialFlowControl::Hardware
        } else if options.software_flow_control {
            SerialFlowControl::Software
        } else {
            SerialFlowControl::Disabled
        };

        Ok(
            SerialSettings {
                serial_port: options.serial_port,
                baud_rate: options.baud_rate,
                data_bits: serial_data_bits,
                parity: serial_parity,
                stop_bits: serial_stop_bits,
                flow_control: serial_flow_control,
            },
        )
    }

    /// The wait, in milliseconds, that a request is given: never less than
    /// the minimum, whatever it asks for.
    pub fn effective_timeout(requested: u32) -> (wait: u32)
        ensures
            wait == spec_effective_timeout(requested),
            wait >= CONNECTOR_THREAD_MIN_TIMEOUT,
            wait >= requested,
    {
        if requested >= CONNECTOR_THREAD_MIN_TIMEOUT {
            requested
        } else {
            CONNECTOR_THREAD_MIN_TIMEOUT
        }
    }

    /// The buffer that the port's bytes are read into: as long as the port
    /// says bytes have arrived, empty where it would not tell, all zero.
    pub fn read_buffer(available: Option<u32>) -> (buffer: Vec<u8>)
        ensures
            buffer@ == zeros(spec_read_length(available)),
    {
        let buffer_size: usize = available.unwrap_or(0) as usize;
        let mut buffer: Vec<u8> = Vec::new();
        while buffer.len() < buffer_size
            invariant
                buffer@.len() <= buffer_size,
                buffer@ == zeros(buffer@.len()),
            decreases buffer_size - buffer@.len(),
        {
            buffer.push(0u8);
            assert(buffer@ =~= zeros(buffer@.len()));
        }
        buffer
    }

    /// Takes the outcome of what the worker did last and says what it is to
    /// do next. With a request the exchange begins: write its bytes, set the
    /// read timeout to the request's window, let the window pass, ask how
    /// many bytes have arrived, read them, hand the reply over, and wait for
    /// the next request. An event that is not the outcome of what the worker
    /// does now is passed over: nothing changes and nothing is to be done.
    pub fn step(&mut self, event: ConnectorEvent) -> (action: Option<ConnectorAction>)
        ensures
            final(self).spec_state() == next_state(old(self).spec_state(), event),
            match action {
                Some(action) => next_action(old(self).spec_state(), event) == Some(action@),
                None => next_action(old(self).spec_state(), event) is None,
            },
            action is Some <==> answers(old(self).spec_state(), event),
    {
        match (self.state, event) {
            (ConnectorState::Idle, ConnectorEvent::Request(request)) => {
                let wait = Self::effective_timeout(request.timeout);
                self.state = ConnectorState::Writing { wait };
                Some(ConnectorAction::Write(request.message))
            },
            (ConnectorState::Idle, ConnectorEvent::Disconnected) => {
                self.state = ConnectorState::Stopped;
                Some(ConnectorAction::Stop)
            },
            (ConnectorState::Writing { wait }, ConnectorEvent::Written { .. }) => {
                self.state = ConnectorState::SettingTimeout { wait };
                Some(ConnectorAction::SetTimeout(wait))
            },
            (ConnectorState::SettingTimeout { wait }, ConnectorEvent::TimeoutSet { .. }) => {
                self.state = ConnectorState::Sleeping;
                Some(ConnectorAction::Sleep(wait))
            },
            (ConnectorState::Sleeping, ConnectorEvent::Slept) => {
                self.state = ConnectorState::Counting;
                Some(ConnectorAction::Count)
            },
            (ConnectorState::Counting, ConnectorEvent::Counted { available }) => {
                self.state = ConnectorState::Reading;
                Some(ConnectorAction::Read(Self::read_buffer(available)))
            },
            (ConnectorState::Reading, ConnectorEvent::Read { buffer, .. }) => {
                self.state = ConnectorState::Replying;
                Some(
                    ConnectorAction::Reply(
                        PjLinkRS232MessageResponse { response: buffer, elapsed_time: 0 },
                    ),
                )
            },
            (ConnectorState::Replying, ConnectorEvent::Replied { .. }) => {
                self.state = ConnectorState::Idle;
                Some(ConnectorAction::Receive)
            },
            _ => None,
        }
    }
}

/// What the worker is doing after a run of events, begun in `state`.
pub open spec fn state_after(state: ConnectorState, events: Seq<ConnectorEvent>) -> ConnectorState
    decreases events.len(),
{
    if events.len() == 0 {
        state
    } else {
        next_state(state_after(state, events.drop_last()), events.last())
    }
}

/// Whether a request is taken when `event` comes in `state`.
pub open spec fn takes_request(state: ConnectorState, event: ConnectorEvent) -> bool {
    state is Idle && event is Request
}

/// Whether a reply is made when `event` comes in `state`.
pub open spec fn makes_reply(state: ConnectorState, event: ConnectorEvent) -> bool {
    next_action(state, event) matches Some(ConnectorActionView::Reply { .. })
}

/// How many requests the worker takes in a run of events, begun in `state`.
pub open spec fn requests_taken(state: ConnectorState, events: Seq<ConnectorEvent>) -> nat
    decreases events.len(),
{
    if events.len() == 0 {
        0
    } else {
        let earlier = requests_taken(state, events.drop_last());
        if takes_request(state_after(state, events.drop_last()), events.last()) {
            earlier + 1
        } else {
            earlier
        }
    }
}

/// How many replies the worker makes in a run of events, begun in `state`.
pub open spec fn replies_made(state: ConnectorState, events: Seq<ConnectorEvent>) -> nat
    decreases events.len(),
{
    if events.len() == 0 {
        0
    } else {
        let earlier = replies_made(state, events.drop_last());
        if makes_reply(state_after(state, events.drop_last()), events.last()) {
            earlier + 1
        } else {
            earlier
        }
    }
}

/// Whether the worker has taken a request that it has not made the reply to.
pub open spec fn owes_reply(state: ConnectorState) -> bool {
    state is Writing || state is SettingTimeout || state is Sleeping || state is Counting
        || state is Reading
}

/// One reply to each request: over any run of events, whatever they report,
/// the replies made are as many as the requests taken, but for the request
/// that the worker is still busy with at either end of the run.
pub proof fn lemma_one_reply_per_request(state: ConnectorState, events: Seq<ConnectorEvent>)
    ensures
        requests_taken(state, events) + (if owes_reply(state) {
            1nat
        } else {
            0nat
        }) == replies_made(state, events) + (if owes_reply(state_after(state, events)) {
            1nat
        } else {
            0nat
        }),
    decreases events.len(),
{
    if events.len() > 0 {
        lemma_one_reply_per_request(state, events.drop_last());
    }
}

/// A worker that is between exchanges at both ends of a run has replied to
/// every request it took in it.
pub proof fn lemma_replies_equal_requests_at_rest(
    state: ConnectorState,
    events: Seq<ConnectorEvent>,
)
    requires
        !owes_reply(state),
        !owes_reply(state_after(state, events)),
    ensures
        replies_made(state, events) == requests_taken(state, events),
{
    lemma_one_reply_per_request(state, events);
}

/// A request that is taken is carried through: the six outcomes of an
/// exchange, whether they report success or failure, lead an idle worker to
/// the reply, which holds the buffer as it was after the read; the window set
/// and slept is the request's, never less than the minimum; and the seventh
/// has it wait for the next request.
pub proof fn lemma_exchange_runs_to_reply(
    request: PjLinkRS232MessageRequest,
    written: bool,
    timeout_set: bool,
    available: Option<u32>,
    buffer: Vec<u8>,
    read: bool,
    replied: bool,
)
    ensures
        ({
            let wait = spec_effective_timeout(request.timeout);
            let s0 = ConnectorState::Idle;
            let e0 = ConnectorEvent::Request(request);
            let s1 = next_state(s0, e0);
            let e1 = ConnectorEvent::Written { ok: written };
            let s2 = next_state(s1, e1);
            let e2 = ConnectorEvent::TimeoutSet { ok: timeout_set };
            let s3 = next_state(s2, e2);
            let e3 = ConnectorEvent::Slept;
            let s4 = next_state(s3, e3);
            let e4 = ConnectorEvent::Counted { available };
            let s5 = next_state(s4, e4);
            let e5 = ConnectorEvent::Read { buffer, ok: read };
            let s6 = next_state(s5, e5);
            let e6 = ConnectorEvent::Replied { ok: replied };
            &&& wait >= CONNECTOR_THREAD_MIN_TIMEOUT
            &&& wait >= request.timeout
            &&& next_action(s0, e0) == Some(ConnectorActionView::Write(request.message@))
            &&& next_action(s1, e1) == Some(ConnectorActionView::SetTimeout(wait))
            &&& next_action(s2, e2) == Some(ConnectorActionView::Sleep(wait))
            &&& next_action(s3, e3) == Some(ConnectorActionView::Count)
            &&& next_action(s4, e4) == Some(
                ConnectorActionView::Read(zeros(spec_read_length(available))),
            )
            &&& next_action(s5, e5) == Some(
                ConnectorActionView::Reply { response: buffer@, elapsed_time: 0 },
            )
            &&& next_action(s6, e6) == Some(ConnectorActionView::Receive)
            &&& next_state(s6, e6) == ConnectorState::Idle
        }),
{
}

} // verus!
