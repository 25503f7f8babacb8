//! The driver of a LoRa device on top of a LoRaWAN stack.
//!
//! The driver owns the radio until it is configured, and the stack from then on. It decides which
//! event the stack is given next, what the stack's answers mean, and when an operation is over.
//! Giving an event to the stack, and waiting for an interrupt or a time, are the caller's part:
//! an operation is run by performing each `Step` and coming back with what it led to.

use crate::downlink::{payload_in, Downlink, FrmPayload};
use crate::lora::{LoraConfig, LoraError, LoraRegion, Port, QoS, SpreadingFactor};
use crate::region::{
    receive_delays, region_configuration, set_receive_delay1, supported_region, to_datarate,
    to_region, with_receive_delay1, DR,
};
use lorawan_device::region;
use vstd::prelude::*;

verus! {

/// The delay in milliseconds after which the first receive window for data opens.
pub const RX_DELAY1: u32 = 5000;

/// What the radio reports of its own accord.
#[derive(Clone, Copy, Debug, PartialEq, Eq, Structural)]
pub enum RadioPhyEvent {
    Irq,
}

/// An event that the driver gives to the stack.
#[derive(Clone, Copy, Debug, PartialEq, Eq, Structural)]
pub enum LorawanEvent {
    NewSessionRequest,
    RadioEvent(RadioPhyEvent),
    TimeoutFired,
}

/// What the stack answers to an event. A received downlink comes with its counter and with the
/// frame that the stack still held of it, once that was taken from the stack.
pub enum LorawanResponse {
    NoUpdate,
    TimeoutRequest(u32),
    JoinRequestSending,
    JoinSuccess,
    NoJoinAccept,
    UplinkSending(u32),
    DownlinkReceived(u32, Option<Downlink>),
    NoAck,
    ReadyToSend,
    SessionExpired,
}

/// How the stack fails on an event.
#[derive(Clone, Copy, Debug, PartialEq, Eq, Structural)]
pub enum LorawanError {
    Radio,
    Session,
    NoSession,
}

/// What an answer of the stack means to the driver.
#[derive(Clone, Copy, Debug, PartialEq, Eq)]
pub enum DriverEvent {
    /// The stack wants to be told when this many milliseconds are over.
    ProcessAfter(u32),
    JoinSuccess,
    JoinFailed,
    SessionExpired,
    Ack,
    /// An acknowledgement with data: the length, and a buffer that starts with the data.
    AckWithData(usize, [u8; 255]),
    AckTimeout,
    NoEvent,
}

/// A driver event with its buffer as a sequence.
#[verifier::ext_equal]
pub enum DriverEventView {
    ProcessAfter(u32),
    JoinSuccess,
    JoinFailed,
    SessionExpired,
    Ack,
    AckWithData(usize, Seq<u8>),
    AckTimeout,
    NoEvent,
}

impl View for DriverEvent {
    type V = DriverEventView;

    open spec fn view(&self) -> DriverEventView {
        match *self {
            DriverEvent::ProcessAfter(ms) => DriverEventView::ProcessAfter(ms),
            DriverEvent::JoinSuccess => DriverEventView::JoinSuccess,
            DriverEvent::JoinFailed => DriverEventView::JoinFailed,
            DriverEvent::SessionExpired => DriverEventView::SessionExpired,
            DriverEvent::Ack => DriverEventView::Ack,
            DriverEvent::AckWithData(len, buf) => DriverEventView::AckWithData(len, buf@),
            DriverEvent::AckTimeout => DriverEventView::AckTimeout,
            DriverEvent::NoEvent => DriverEventView::NoEvent,
        }
    }
}

/// Data followed by as many zeros as fill a buffer of 255 bytes.
pub open spec fn padded(data: Seq<u8>) -> Seq<u8> {
    data + Seq::new((255 - data.len()) as nat, |i: int| 0u8)
}

/// What the payload of a downlink means to the driver: the downlink acknowledges, and may bring
/// data for the application.
pub open spec fn payload_event(payload: FrmPayload<Seq<u8>>) -> DriverEventView {
    match payload {
        FrmPayload::Data(data) => DriverEventView::AckWithData(data.len() as usize, padded(data)),
        _ => DriverEventView::Ack,
    }
}

/// What an answer of the stack means to the driver.
pub open spec fn response_event(
    response: Result<LorawanResponse, LorawanError>,
) -> DriverEventView {
    match response {
        Ok(LorawanResponse::TimeoutRequest(ms)) => DriverEventView::ProcessAfter(ms),
        Ok(LorawanResponse::JoinSuccess) => DriverEventView::JoinSuccess,
        Ok(LorawanResponse::DownlinkReceived(_, Some(downlink))) => payload_event(
            payload_in(downlink@),
        ),
        Ok(LorawanResponse::NoAck) => DriverEventView::AckTimeout,
        Ok(LorawanResponse::NoJoinAccept) | Ok(LorawanResponse::NoUpdate) =>
            DriverEventView::JoinFailed,
        Ok(LorawanResponse::SessionExpired) => DriverEventView::SessionExpired,
        Ok(LorawanResponse::ReadyToSend)
        | Ok(LorawanResponse::DownlinkReceived(_, None))
        | Ok(LorawanResponse::UplinkSending(_))
        | Ok(LorawanResponse::JoinRequestSending)
        | Err(_) => DriverEventView::NoEvent,
    }
}

/// Whether the stack holds a downlink that is to be taken from it after an answer.
pub open spec fn announces_downlink(response: Result<LorawanResponse, LorawanError>) -> bool {
    response matches Ok(LorawanResponse::DownlinkReceived(_, _))
}

/// An answer together with the downlink that was taken from the stack. Only the announcement of a
/// downlink has a place for one.
pub open spec fn with_taken(
    response: Result<LorawanResponse, LorawanError>,
    downlink: Option<Downlink>,
) -> Result<LorawanResponse, LorawanError> {
    match response {
        Ok(LorawanResponse::DownlinkReceived(fcnt, _)) => Ok(
            LorawanResponse::DownlinkReceived(fcnt, downlink),
        ),
        _ => response,
    }
}

/// Decides whether the downlink that the stack holds is taken from it after an answer: it is where
/// the answer announces one, and on any other answer, or an error, the stack keeps what it holds.
pub fn takes_downlink(response: &Result<LorawanResponse, LorawanError>) -> (take: bool)
    ensures
        take == announces_downlink(*response),
{
    match response {
        Ok(LorawanResponse::DownlinkReceived(_, _)) => true,
        _ => false,
    }
}

/// Adds to an answer what was taken from the stack after it.
pub fn with_downlink(
    response: Result<LorawanResponse, LorawanError>,
    downlink: Option<Downlink>,
) -> (completed: Result<LorawanResponse, LorawanError>)
    ensures
        completed == with_taken(response, downlink),
{
    match response {
        Ok(LorawanResponse::DownlinkReceived(fcnt, _)) => Ok(
            LorawanResponse::DownlinkReceived(fcnt, downlink),
        ),
        other => other,
    }
}

/// The driver event that the payload of a downlink leads to. A payload that could not be read
/// acknowledges like one without data.
pub fn downlink_event(payload: Result<FrmPayload<Vec<u8>>, ()>) -> (event: DriverEvent)
    requires
        payload matches Ok(FrmPayload::Data(data)) ==> data@.len() <= 255,
    ensures
        match payload {
            Ok(p) => event@ == payload_event(p.contents()),
            Err(_) => event@ == DriverEventView::Ack,
        },
{
    match payload {
        Ok(FrmPayload::Data(data)) => {
            let mut buf: [u8; 255] = [0; 255];
            let mut i: usize = 0;
            while i < data.len()
                invariant
                    i <= data@.len() <= 255,
                    forall|j: int| 0 <= j < i ==> buf@[j] == data@[j],
                    forall|j: int| i <= j < 255 ==> buf@[j] == 0,
                decreases data.len() - i,
            {
                buf[i] = data[i];
                i = i + 1;
            }
            assert(buf@ =~= padded(data@));
            DriverEvent::AckWithData(data.len(), buf)
        },
        _ => DriverEvent::Ack,
    }
}

/// What is to be done with an event for the stack.
#[derive(Debug, PartialEq, Eq)]
pub enum EventOutcome<E> {
    /// Give the event to the stack.
    Handle(E),
    /// There is no stack to give it to; this is the driver event that follows.
    Skipped(DriverEvent),
}

/// What a device does with an event for the stack, where it has one and where it does not.
pub open spec fn event_outcome<E>(configured: bool, event: E) -> EventOutcome<E> {
    if configured {
        EventOutcome::Handle(event)
    } else {
        EventOutcome::Skipped(DriverEvent::NoEvent)
    }
}

/// What an operation has to do next.
#[derive(Debug, PartialEq, Eq)]
pub enum Step<T> {
    /// Process an event.
    Process(LorawanEvent),
    /// Wait for an interrupt, no longer than the given milliseconds if there are any.
    Wait(Option<u32>),
    /// Nothing: the operation is over.
    Done(Result<T, LoraError>),
}

/// What ended a wait.
#[derive(Clone, Copy, Debug, PartialEq, Eq, Structural)]
pub enum Wake {
    Interrupt,
    Timeout,
}

/// The event that the end of a wait gives rise to.
pub open spec fn wake_event(wake: Wake) -> LorawanEvent {
    match wake {
        Wake::Interrupt => LorawanEvent::RadioEvent(RadioPhyEvent::Irq),
        Wake::Timeout => LorawanEvent::TimeoutFired,
    }
}

/// The event to process once a wait is over.
pub fn woken(wake: Wake) -> (event: LorawanEvent)
    ensures
        event == wake_event(wake),
{
    match wake {
        Wake::Interrupt => LorawanEvent::RadioEvent(RadioPhyEvent::Irq),
        Wake::Timeout => LorawanEvent::TimeoutFired,
    }
}

/// How a join goes on after a driver event. It ends with success alone; where it failed it is
/// tried again.
pub open spec fn join_step(event: DriverEventView) -> Step<()> {
    match event {
        DriverEventView::ProcessAfter(ms) => Step::Wait(Some(ms)),
        DriverEventView::JoinSuccess => Step::Done(Ok(())),
        DriverEventView::JoinFailed => Step::Process(LorawanEvent::NewSessionRequest),
        _ => Step::Wait(None),
    }
}

/// How sending goes on after a driver event. It ends with an acknowledgement, whose data is
/// counted, or once none is to be expected any more.
pub open spec fn send_recv_step(event: DriverEventView) -> Step<usize> {
    match event {
        DriverEventView::ProcessAfter(ms) => Step::Wait(Some(ms)),
        DriverEventView::AckWithData(len, _) => Step::Done(Ok(len)),
        DriverEventView::AckTimeout => Step::Done(Err(LoraError::AckTimeout)),
        DriverEventView::Ack => Step::Done(Ok(0)),
        _ => Step::Wait(None),
    }
}

/// A step of sending without the count of the data.
pub open spec fn uncounted(step: Step<usize>) -> Step<()> {
    match step {
        Step::Process(event) => Step::Process(event),
        Step::Wait(timeout) => Step::Wait(timeout),
        Step::Done(Ok(_)) => Step::Done(Ok(())),
        Step::Done(Err(e)) => Step::Done(Err(e)),
    }
}

/// What a receive buffer holds after a driver event: received data overwrites its start.
pub open spec fn received(event: DriverEventView, rx: Seq<u8>) -> Seq<u8> {
    match event {
        DriverEventView::AckWithData(len, buf) => buf.take(len as int) + rx.skip(len as int),
        _ => rx,
    }
}

/// An uplink for the stack to send.
#[derive(Clone, Copy, Debug)]
pub struct SendRequest<'m> {
    pub data: &'m [u8],
    pub port: Port,
    pub confirmed: bool,
}

/// How sending starts.
#[derive(Debug)]
pub enum SendStart<'m, T> {
    /// Have the stack send an uplink.
    Send(SendRequest<'m>),
    /// Nothing is sent; this is the step that follows.
    Refused(Step<T>),
}

/// How sending starts where an uplink was granted, and where it was refused: then it is over at
/// once, with the error of the refusal.
pub open spec fn send_start<'m, T>(request: Result<SendRequest<'m>, LoraError>) -> SendStart<'m, T> {
    match request {
        Ok(request) => SendStart::Send(request),
        Err(e) => SendStart::Refused(Step::Done(Err(e))),
    }
}

/// What a stack is built from, and the data rate that it is then set to. The identifiers are least
/// significant byte first.
pub struct StackSetup<R, B> {
    pub region: region::Configuration,
    pub radio: R,
    pub radio_tx_buf: B,
    pub dev_eui: [u8; 8],
    pub app_eui: [u8; 8],
    pub app_key: [u8; 16],
    pub data_rate: DR,
}

impl<R, B> StackSetup<R, B> {
    /// Whether this is what a configuration with credentials, for a supported region, asks for.
    pub open spec fn follows(self, config: LoraConfig, radio: R, radio_tx_buf: B) -> bool {
        &&& supported_region(config.effective_region()) matches Some(supported)
            && self.region == with_receive_delay1(region_configuration(supported), RX_DELAY1)
        &&& receive_delays(self.region) == (RX_DELAY1 as int, RX_DELAY1 + 1000)
        &&& self.radio == radio
        &&& self.radio_tx_buf == radio_tx_buf
        &&& self.dev_eui@ == config.device_eui->0.bytes@.reverse()
        &&& self.app_eui@ == config.app_eui->0.bytes@.reverse()
        &&& self.app_key == config.app_key->0.bytes
        &&& self.data_rate.index() == 12 - config.effective_spreading_factor().factor()
    }
}

/// What a driver owns: a radio with a transmit buffer before it is configured, a stack after.
pub enum DriverState<R, B, D> {
    New(R, B),
    Configured(D),
}

/// A LoRa device: a radio `R` with its transmit buffer `B`, or the stack `D` that took them over;
/// the source `I` of the radio's interrupts; and the source `G` of random numbers for the stack.
///
/// Once the radio was given away to build a stack, and until there is one, the device owns nothing
/// and awaits the stack. A configuration that fails leaves it owning nothing and awaiting nothing:
/// it is lost for good.
pub struct LoraDevice<R, B, D, I, G> {
    state: Option<DriverState<R, B, D>>,
    building: bool,
    irq: I,
    get_random: G,
}

impl<R, B, D, I, G> LoraDevice<R, B, D, I, G> {
    /// What the device owns, if anything.
    pub closed spec fn state(&self) -> Option<DriverState<R, B, D>> {
        self.state
    }

    /// The source of interrupts.
    pub closed spec fn interrupt(&self) -> I {
        self.irq
    }

    /// The source of random numbers.
    pub closed spec fn random(&self) -> G {
        self.get_random
    }

    /// Whether the device has a stack.
    pub open spec fn configured(&self) -> bool {
        self.state() matches Some(DriverState::Configured(_))
    }

    /// Whether the device owns anything at all.
    pub open spec fn usable(&self) -> bool {
        self.state() is Some
    }

    /// Whether the radio was given away to build a stack that the device does not have yet.
    pub closed spec fn awaiting_stack(&self) -> bool {
        self.state is None && self.building
    }

    /// Whether a configuration failed, which nothing makes good.
    pub open spec fn lost(&self) -> bool {
        !self.usable() && !self.awaiting_stack()
    }

    /// A device that is not configured yet.
    pub fn new(radio: R, irq: I, get_random: G, radio_tx_buf: B) -> (device: Self)
        ensures
            device.state() == Some(DriverState::<R, B, D>::New(radio, radio_tx_buf)),
            !device.awaiting_stack(),
            device.interrupt() == irq,
            device.random() == get_random,
    {
        LoraDevice {
            state: Some(DriverState::New(radio, radio_tx_buf)),
            building: false,
            irq,
            get_random,
        }
    }

    /// Whether the device owns a radio or a stack.
    pub fn is_usable(&self) -> (usable: bool)
        ensures
            usable == self.usable(),
    {
        self.state.is_some()
    }

    /// Whether the device awaits the stack that is built from what `configure` handed out.
    pub fn is_awaiting_stack(&self) -> (awaiting: bool)
        ensures
            awaiting == self.awaiting_stack(),
    {
        self.state.is_none() && self.building
    }

    /// The source of interrupts.
    pub fn irq(&mut self) -> (irq: &mut I)
        ensures
            *irq == old(self).interrupt(),
            final(self).interrupt() == *final(irq),
            final(self).state() == old(self).state(),
            final(self).awaiting_stack() == old(self).awaiting_stack(),
            final(self).random() == old(self).random(),
    {
        &mut self.irq
    }

    /// The source of random numbers.
    pub fn get_random(&self) -> (get_random: &G)
        ensures
            *get_random == self.random(),
    {
        &self.get_random
    }

    /// The radio, as long as the device is not configured.
    pub fn radio(&mut self) -> (radio: Option<&mut R>)
        ensures
            match old(self).state() {
                Some(DriverState::New(r, b)) => radio matches Some(m) && *m == r
                    && final(self).state() == Some(DriverState::<R, B, D>::New(*final(m), b)),
                _ => radio is None && final(self).state() == old(self).state(),
            },
            final(self).awaiting_stack() == old(self).awaiting_stack(),
            final(self).interrupt() == old(self).interrupt(),
            final(self).random() == old(self).random(),
    {
        match &mut self.state {
            Some(DriverState::New(radio, _)) => Some(radio),
            _ => None,
        }
    }

    /// The stack, once the device is configured.
    pub fn lorawan(&mut self) -> (lorawan: Option<&mut D>)
        ensures
            match old(self).state() {
                Some(DriverState::Configured(d)) => lorawan matches Some(m) && *m == d
                    && final(self).state() == Some(DriverState::<R, B, D>::Configured(*final(m))),
                _ => lorawan is None && final(self).state() == old(self).state(),
            },
            final(self).awaiting_stack() == old(self).awaiting_stack(),
            final(self).interrupt() == old(self).interrupt(),
            final(self).random() == old(self).random(),
    {
        match &mut self.state {
            Some(DriverState::Configured(lorawan)) => Some(lorawan),
            _ => None,
        }
    }

    /// Decides on an event for the stack: it is handled where there is a stack, and skipped
    /// without consequence where there is none yet.
    pub fn process_event<E>(&self, event: E) -> (outcome: EventOutcome<E>)
        requires
            self.usable(),
        ensures
            outcome == event_outcome(self.configured(), event),
    {
        match &self.state {
            Some(DriverState::Configured(_)) => EventOutcome::Handle(event),
            _ => EventOutcome::Skipped(DriverEvent::NoEvent),
        }
    }

    /// What an answer of the stack means to the driver. Data that comes with it always fits the
    /// event's buffer.
    pub fn process_response(
        &self,
        response: Result<LorawanResponse, LorawanError>,
    ) -> (event: DriverEvent)
        ensures
            event@ == response_event(response),
            event matches DriverEvent::AckWithData(len, _) ==> len <= 243,
    {
        match response {
            Ok(response) => match response {
                LorawanResponse::TimeoutRequest(ms) => DriverEvent::ProcessAfter(ms),
                LorawanResponse::JoinSuccess => DriverEvent::JoinSuccess,
                LorawanResponse::ReadyToSend => DriverEvent::NoEvent,
                LorawanResponse::DownlinkReceived(_, downlink) => match downlink {
                    Some(downlink) => downlink_event(downlink.payload()),
                    None => DriverEvent::NoEvent,
                },
                LorawanResponse::NoAck => DriverEvent::AckTimeout,
                LorawanResponse::NoJoinAccept => DriverEvent::JoinFailed,
                LorawanResponse::SessionExpired => DriverEvent::SessionExpired,
                LorawanResponse::NoUpdate => DriverEvent::JoinFailed,
                LorawanResponse::UplinkSending(_) => DriverEvent::NoEvent,
                LorawanResponse::JoinRequestSending => DriverEvent::NoEvent,
            },
            Err(_) => DriverEvent::NoEvent,
        }
    }

    /// How a join starts: a session is asked for.
    pub fn start_join(&self) -> (step: Step<()>)
        ensures
            step == Step::<()>::Process(LorawanEvent::NewSessionRequest),
    {
        Step::Process(LorawanEvent::NewSessionRequest)
    }

    /// How a join goes on after a driver event.
    pub fn join(&self, event: DriverEvent) -> (step: Step<()>)
        ensures
            step == join_step(event@),
    {
        match event {
            DriverEvent::ProcessAfter(ms) => Step::Wait(Some(ms)),
            DriverEvent::JoinSuccess => Step::Done(Ok(())),
            DriverEvent::JoinFailed => Step::Process(LorawanEvent::NewSessionRequest),
            _ => Step::Wait(None),
        }
    }

    /// Decides whether an uplink is sent, where the stack said whether it is ready to send.
    pub fn send_data<'m>(
        &self,
        qos: QoS,
        port: Port,
        data: &'m [u8],
        ready_to_send: bool,
    ) -> (request: Result<SendRequest<'m>, LoraError>)
        requires
            self.usable(),
        ensures
            self.configured() && ready_to_send ==> (request matches Ok(r) && r.data@ == data@
                && r.port == port && r.confirmed == (qos == QoS::Confirmed)),
            self.configured() && !ready_to_send ==> request == Err::<SendRequest<'m>, LoraError>(
                LoraError::NotReady,
            ),
            !self.configured() ==> request == Err::<SendRequest<'m>, LoraError>(
                LoraError::OtherError,
            ),
    {
        match &self.state {
            Some(DriverState::Configured(_)) => if ready_to_send {
                let confirmed = match qos {
                    QoS::Confirmed => true,
                    QoS::Unconfirmed => false,
                };
                Ok(SendRequest { data, port, confirmed })
            } else {
                Err(LoraError::NotReady)
            },
            _ => Err(LoraError::OtherError),
        }
    }

    /// How sending starts after the decision of `send_data`, whether received data is asked for or
    /// not. A refusal ends it before anything was sent or received.
    pub fn start_send<'m, T>(
        &self,
        request: Result<SendRequest<'m>, LoraError>,
    ) -> (start: SendStart<'m, T>)
        ensures
            start == send_start::<T>(request),
    {
        match request {
            Ok(request) => SendStart::Send(request),
            Err(e) => SendStart::Refused(Step::Done(Err(e))),
        }
    }

    /// How sending goes on after a driver event. Received data goes to the start of the receive
    /// buffer, if there is one, which has to have room for it.
    pub fn send_recv(&self, event: DriverEvent, rx: Option<&mut [u8]>) -> (step: Step<usize>)
        requires
            event matches DriverEvent::AckWithData(len, _) ==> (rx matches Some(r) ==> len <= 255
                && len <= r@.len()),
        ensures
            step == send_recv_step(event@),
            rx matches Some(r) ==> final(r)@ == received(event@, r@),
    {
        match event {
            DriverEvent::ProcessAfter(ms) => Step::Wait(Some(ms)),
            DriverEvent::AckWithData(len, buf) => {
                if let Some(rx) = rx {
                    let ghost before = rx@;
                    let mut i: usize = 0;
                    while i < len
                        invariant
                            i <= len <= 255,
                            len <= before.len(),
                            rx@.len() == before.len(),
                            forall|j: int| 0 <= j < i ==> rx@[j] == buf@[j],
                            forall|j: int| i <= j < before.len() ==> rx@[j] == before[j],
                        decreases len - i,
                    {
                        rx[i] = buf[i];
                        i = i + 1;
                    }
                    assert(rx@ =~= buf@.take(len as int) + before.skip(len as int));
                }
                Step::Done(Ok(len))
            },
            DriverEvent::AckTimeout => Step::Done(Err(LoraError::AckTimeout)),
            DriverEvent::Ack => Step::Done(Ok(0)),
            _ => Step::Wait(None),
        }
    }

    /// How sending goes on after a driver event where received data is not asked for.
    pub fn send(&self, event: DriverEvent) -> (step: Step<()>)
        ensures
            step == uncounted(send_recv_step(event@)),
    {
        match self.send_recv(event, None) {
            Step::Process(event) => Step::Process(event),
            Step::Wait(timeout) => Step::Wait(timeout),
            Step::Done(Ok(_)) => Step::Done(Ok(())),
            Step::Done(Err(e)) => Step::Done(Err(e)),
        }
    }

    /// Configures the device, where resetting the radio came to `reset`. The radio and its buffer
    /// leave the device: on success they are part of what the stack is built from, which the device
    /// then awaits; otherwise they are gone, and the device is lost. A device that is configured already stays as it is.
    pub fn configure(
        &mut self,
        config: &LoraConfig,
        reset: Result<(), LoraError>,
    ) -> (setup: Result<StackSetup<R, B>, LoraError>)
        requires
            old(self).usable(),
            !old(self).configured() && reset is Ok ==> config.has_credentials(),
        ensures
            match old(self).state() {
                Some(DriverState::New(radio, radio_tx_buf)) => {
                    &&& final(self).state() is None
                    &&& final(self).awaiting_stack() == (setup is Ok)
                    &&& final(self).lost() == (setup is Err)
                    &&& match reset {
                        Err(e) => setup == Err::<StackSetup<R, B>, LoraError>(e),
                        Ok(_) => match supported_region(config.effective_region()) {
                            None => setup == Err::<StackSetup<R, B>, LoraError>(
                                LoraError::UnsupportedRegion,
                            ),
                            Some(_) => setup matches Ok(s) && s.follows(
                                *config,
                                radio,
                                radio_tx_buf,
                            ),
                        },
                    }
                },
                _ => {
                    &&& final(self).state() == old(self).state()
                    &&& final(self).awaiting_stack() == old(self).awaiting_stack()
                    &&& setup == Err::<StackSetup<R, B>, LoraError>(LoraError::OtherError)
                },
            },
            final(self).interrupt() == old(self).interrupt(),
            final(self).random() == old(self).random(),
    {
        match self.state.take() {
            Some(DriverState::New(radio, radio_tx_buf)) => {
                self.building = false;
                if let Err(e) = reset {
                    return Err(e);
                }
                let dev_eui = config.device_eui.unwrap();
                let app_eui = config.app_eui.unwrap();
                let app_key = config.app_key.unwrap();
                let data_rate = to_datarate(
                    match config.spreading_factor {
                        Some(spreading_factor) => spreading_factor,
                        None => SpreadingFactor::SF7,
                    },
                );
                let region = to_region(
                    match config.region {
                        Some(region) => region,
                        None => LoraRegion::EU868,
                    },
                );
                match region {
                    Err(e) => Err(e),
                    Ok(mut region) => {
                        set_receive_delay1(&mut region, RX_DELAY1);
                        self.building = true;
                        Ok(
                            StackSetup {
                                region,
                                radio,
                                radio_tx_buf,
                                dev_eui: dev_eui.reverse().bytes,
                                app_eui: app_eui.reverse().bytes,
                                app_key: app_key.bytes,
                                data_rate,
                            },
                        )
                    },
                }
            },
            other => {
                self.state = other;
                Err(LoraError::OtherError)
            },
        }
    }

    /// Takes over the stack that was built from what `configure` handed out.
    pub fn set_configured(&mut self, lorawan: D)
        requires
            old(self).awaiting_stack(),
        ensures
            final(self).state() == Some(DriverState::<R, B, D>::Configured(lorawan)),
            !final(self).awaiting_stack(),
            final(self).interrupt() == old(self).interrupt(),
            final(self).random() == old(self).random(),
    {
        self.state = Some(DriverState::Configured(lorawan));
        self.building = false;
    }
}

/// A device that awaits its stack owns nothing meanwhile: a device is usable, awaits a stack, or is
/// lost, and never two of these.
pub proof fn law_awaiting_devices_own_nothing<R, B, D, I, G>(device: LoraDevice<R, B, D, I, G>)
    ensures
        device.awaiting_stack() ==> !device.usable(),
        device.usable() || device.awaiting_stack() || device.lost(),
        device.lost() ==> !device.usable() && !device.awaiting_stack(),
{
}

/// The first driver event of a sequence with which a join ends, and how it ends.
pub open spec fn join_end(events: Seq<DriverEventView>) -> Option<(int, Result<(), LoraError>)>
    decreases events.len(),
{
    if events.len() == 0 {
        None
    } else {
        match join_step(events.first()) {
            Step::Done(result) => Some((0, result)),
            _ => match join_end(events.drop_first()) {
                Some((i, result)) => Some((i + 1, result)),
                None => None,
            },
        }
    }
}

/// The first driver event of a sequence with which sending ends, and how it ends.
pub open spec fn send_recv_end(events: Seq<DriverEventView>) -> Option<
    (int, Result<usize, LoraError>),
>
    decreases events.len(),
{
    if events.len() == 0 {
        None
    } else {
        match send_recv_step(events.first()) {
            Step::Done(result) => Some((0, result)),
            _ => match send_recv_end(events.drop_first()) {
                Some((i, result)) => Some((i + 1, result)),
                None => None,
            },
        }
    }
}

/// How sending ends, if it does, from its start on and with the driver events that come after.
pub open spec fn sending_result<'m>(
    start: SendStart<'m, usize>,
    events: Seq<DriverEventView>,
) -> Option<Result<usize, LoraError>> {
    match start {
        SendStart::Refused(Step::Done(result)) => Some(result),
        _ => match send_recv_end(events) {
            Some((_, result)) => Some(result),
            None => None,
        },
    }
}

/// Whether sending is over with a driver event.
pub open spec fn ends_sending(event: DriverEventView) -> bool {
    event is Ack || event is AckWithData || event is AckTimeout
}

/// A join never fails. Whatever the stack reports, the join ends at the first report of success,
/// and it does not end without one.
pub proof fn law_join_ends_at_first_success(events: Seq<DriverEventView>)
    ensures
        match join_end(events) {
            Some((i, result)) => {
                &&& result == Ok::<(), LoraError>(())
                &&& 0 <= i < events.len()
                &&& events[i] is JoinSuccess
                &&& forall|j: int| 0 <= j < i ==> !(#[trigger] events[j] is JoinSuccess)
            },
            None => forall|j: int| 0 <= j < events.len() ==> !(#[trigger] events[j] is JoinSuccess),
        },
    decreases events.len(),
{
    if events.len() > 0 {
        let rest = events.drop_first();
        law_join_ends_at_first_success(rest);
        assert forall|j: int| 1 <= j < events.len() implies #[trigger] events[j] == rest[j - 1] by {}
    }
}

/// Sending ends at the first acknowledgement, with the length of the data that came with it, or at
/// the first report that none came, with that error; and it does not end otherwise.
pub proof fn law_sending_ends_at_first_outcome(events: Seq<DriverEventView>)
    ensures
        match send_recv_end(events) {
            Some((i, result)) => {
                &&& 0 <= i < events.len()
                &&& forall|j: int| 0 <= j < i ==> !ends_sending(#[trigger] events[j])
                &&& match events[i] {
                    DriverEventView::AckWithData(len, _) => result == Ok::<usize, LoraError>(len),
                    DriverEventView::Ack => result == Ok::<usize, LoraError>(0),
                    DriverEventView::AckTimeout => result == Err::<usize, LoraError>(
                        LoraError::AckTimeout,
                    ),
                    _ => false,
                }
            },
            None => forall|j: int| 0 <= j < events.len() ==> !ends_sending(#[trigger] events[j]),
        },
    decreases events.len(),
{
    if events.len() > 0 {
        let rest = events.drop_first();
        law_sending_ends_at_first_outcome(rest);
        assert forall|j: int| 1 <= j < events.len() implies #[trigger] events[j] == rest[j - 1] by {}
    }
}

/// Sending that is refused ends with the error of the refusal, whatever the stack goes on to
/// report; sending that is granted ends as its driver events say.
pub proof fn law_refusal_ends_sending_at_once<'m>(
    request: Result<SendRequest<'m>, LoraError>,
    events: Seq<DriverEventView>,
)
    ensures
        match request {
            Err(e) => sending_result(send_start(request), events) == Some(
                Err::<usize, LoraError>(e),
            ),
            Ok(_) => sending_result(send_start(request), events) == match send_recv_end(events) {
                Some((_, result)) => Some(result),
                None => None,
            },
        },
{
}

/// A downlink taken from the stack counts where the stack announced one, whatever stood in its
/// place before, and nowhere else.
pub proof fn law_taken_downlinks_were_announced(
    response: Result<LorawanResponse, LorawanError>,
    downlink: Downlink,
)
    ensures
        announces_downlink(response) ==> response_event(with_taken(response, Some(downlink)))
            == payload_event(payload_in(downlink@)),
        announces_downlink(response) ==> response_event(with_taken(response, None))
            == DriverEventView::NoEvent,
        !announces_downlink(response) ==> with_taken(response, Some(downlink)) == response,
{
}

/// Data that a downlink carries for the application reaches the receive buffer unchanged: sending
/// ends with its length, the buffer starts with it, and the rest of the buffer is left alone.
pub proof fn law_downlink_data_is_received(fcnt: u32, downlink: Downlink, data: Seq<u8>, rx: Seq<u8>)
    requires
        payload_in(downlink@) == FrmPayload::Data(data),
        data.len() <= 255,
        data.len() <= rx.len(),
    ensures
        ({
            let event = response_event(
                Ok(LorawanResponse::DownlinkReceived(fcnt, Some(downlink))),
            );
            &&& send_recv_step(event) == Step::Done(Ok::<usize, LoraError>(data.len() as usize))
            &&& received(event, rx).take(data.len() as int) == data
            &&& received(event, rx).skip(data.len() as int) == rx.skip(data.len() as int)
            &&& received(event, rx).len() == rx.len()
        }),
{
    let event = response_event(Ok(LorawanResponse::DownlinkReceived(fcnt, Some(downlink))));
    assert(event == DriverEventView::AckWithData(data.len() as usize, padded(data)));
    assert(padded(data).take(data.len() as int) =~= data);
    assert(received(event, rx).take(data.len() as int) =~= data);
    assert(received(event, rx).skip(data.len() as int) =~= rx.skip(data.len() as int));
}

/// Where there is no stack yet, whatever event is processed is skipped, and a join waits for the
/// next interrupt.
pub proof fn law_join_without_stack_waits<E>(event: E)
    ensures
        event_outcome(false, event) matches EventOutcome::Skipped(skipped) && join_step(skipped@)
            == Step::<()>::Wait(None),
{
}

/// Success of a join is reported on the stack's word alone.
pub proof fn law_join_success_is_the_stacks(response: Result<LorawanResponse, LorawanError>)
    ensures
        join_step(response_event(response)) == Step::Done(Ok::<(), LoraError>(()))
            <==> response matches Ok(LorawanResponse::JoinSuccess),
{
}

/// Sending ends on a downlink that the stack hands out, and then well; or where the stack misses
/// the acknowledgement, and then with that error. No other answer ends it.
pub proof fn law_sending_ends_on_downlink_or_missed_ack(
    response: Result<LorawanResponse, LorawanError>,
)
    ensures
        send_recv_step(response_event(response)) matches Step::Done(Ok(_)) <==> response matches Ok(
            LorawanResponse::DownlinkReceived(_, Some(_)),
        ),
        send_recv_step(response_event(response)) matches Step::Done(Err(_)) <==> response matches Ok(
            LorawanResponse::NoAck,
        ),
        send_recv_step(response_event(response)) matches Step::Done(Err(e)) ==> e
            == LoraError::AckTimeout,
{
}

/// An error of the stack ends neither a join nor sending: both wait for the next interrupt.
pub proof fn law_stack_errors_are_waited_out(error: LorawanError)
    ensures
        join_step(response_event(Err(error))) == Step::<()>::Wait(None),
        send_recv_step(response_event(Err(error))) == Step::<usize>::Wait(None),
{
}

/// A join that the network did not accept, or of which nothing new is known, starts over.
pub proof fn law_failed_joins_start_over(response: LorawanResponse)
    requires
        response is NoJoinAccept || response is NoUpdate,
    ensures
        join_step(response_event(Ok(response))) == Step::<()>::Process(
            LorawanEvent::NewSessionRequest,
        ),
{
}

} // verus!
