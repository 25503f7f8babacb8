//! What the driver's decisions amount to, for whatever the stack answers and whatever is asked of
//! the driver.

use crate::device::{
    announces_downlink, event_outcome, join_step, padded, payload_event, received, response_event,
    send_recv_step, send_start, uncounted, wake_event, with_taken, DriverEvent, DriverEventView,
    DriverState, EventOutcome, LoraDevice, LorawanError, LorawanEvent, LorawanResponse,
    SendRequest, SendStart, StackSetup, Step, Wake,
};
use crate::downlink::{payload_in, Downlink, FrmPayload};
use crate::lora::{LoraConfig, LoraError, LoraRegion, SpreadingFactor};
use crate::region::{receive_delays, region_configuration, with_receive_delay1, SupportedRegion};
use vstd::prelude::*;

verus! {

/// The time that the stack asks for is the time that is waited, to the millisecond and however long
/// it is, in a join as in sending.
pub proof fn law_asked_time_is_waited(ms: u32)
    ensures
        response_event(Ok(LorawanResponse::TimeoutRequest(ms))) == DriverEventView::ProcessAfter(
            ms,
        ),
        join_step(response_event(Ok(LorawanResponse::TimeoutRequest(ms)))) == Step::<()>::Wait(
            Some(ms),
        ),
        send_recv_step(response_event(Ok(LorawanResponse::TimeoutRequest(ms))))
            == Step::<usize>::Wait(Some(ms)),
        uncounted(send_recv_step(response_event(Ok(LorawanResponse::TimeoutRequest(ms)))))
            == Step::<()>::Wait(Some(ms)),
{
}

/// A wait has an end only where the stack asked for one.
pub proof fn law_limited_waits_were_asked_for(
    response: Result<LorawanResponse, LorawanError>,
    ms: u32,
)
    ensures
        join_step(response_event(response)) == Step::<()>::Wait(Some(ms)) <==> (response matches Ok(
            LorawanResponse::TimeoutRequest(asked),
        ) && asked == ms),
        send_recv_step(response_event(response)) == Step::<usize>::Wait(Some(ms))
            <==> (response matches Ok(LorawanResponse::TimeoutRequest(asked)) && asked == ms),
{
}

/// Each driver event comes of certain answers of the stack and of no others. What is left, errors
/// among it, comes to nothing.
pub proof fn law_events_come_of_their_answers(response: Result<LorawanResponse, LorawanError>)
    ensures
        ({
            let event = response_event(response);
            &&& event is ProcessAfter <==> (response matches Ok(LorawanResponse::TimeoutRequest(_)))
            &&& event is JoinSuccess <==> (response matches Ok(LorawanResponse::JoinSuccess))
            &&& event is JoinFailed <==> ((response matches Ok(LorawanResponse::NoJoinAccept)) || (
            response matches Ok(LorawanResponse::NoUpdate)))
            &&& event is SessionExpired <==> (response matches Ok(LorawanResponse::SessionExpired))
            &&& event is AckTimeout <==> (response matches Ok(LorawanResponse::NoAck))
            &&& (event is Ack || event is AckWithData) <==> (response matches Ok(
                LorawanResponse::DownlinkReceived(_, Some(_)),
            ))
        }),
{
}

/// A downlink whose payload is data for the application is reported with that data, byte for byte,
/// whatever its counter; the rest of the buffer is zero. One with another payload is reported
/// without data.
pub proof fn law_downlinks_are_reported_with_their_data(fcnt: u32, downlink: Downlink)
    ensures
        ({
            let event = response_event(
                Ok(LorawanResponse::DownlinkReceived(fcnt, Some(downlink))),
            );
            match payload_in(downlink@) {
                FrmPayload::Data(data) => data.len() <= 255 ==> {
                    &&& event matches DriverEventView::AckWithData(len, buf)
                    &&& len == data.len()
                    &&& buf.len() == 255
                    &&& forall|i: int| 0 <= i < data.len() ==> buf[i] == #[trigger] data[i]
                    &&& forall|i: int| data.len() <= i < 255 ==> #[trigger] buf[i] == 0
                },
                FrmPayload::MacCommands => event is Ack,
                FrmPayload::Empty => event is Ack,
            }
        }),
{
    if let FrmPayload::Data(data) = payload_in(downlink@) {
        law_payloads_are_reported(payload_in(downlink@));
    }
}

/// The event for a payload carries the payload's data, byte for byte, in a buffer that is zero
/// behind it; a payload that is not data is merely acknowledged.
pub proof fn law_payloads_are_reported(payload: FrmPayload<Seq<u8>>)
    ensures
        payload !is Data <==> payload_event(payload) is Ack,
        payload matches FrmPayload::Data(data) ==> (data.len() <= 255 ==> {
            &&& payload_event(payload) matches DriverEventView::AckWithData(len, buf)
            &&& len == data.len()
            &&& buf.len() == 255
            &&& buf.take(data.len() as int) == data
            &&& forall|i: int| 0 <= i < data.len() ==> buf[i] == #[trigger] data[i]
            &&& forall|i: int| data.len() <= i < 255 ==> #[trigger] buf[i] == 0
        }),
{
    if let FrmPayload::Data(data) = payload {
        if data.len() <= 255 {
            assert(padded(data).take(data.len() as int) =~= data);
        }
    }
}

/// Whatever its counter, an announced downlink is taken from the stack and counts for what it
/// carries, whatever stood in its place; where the stack held none, the announcement comes to
/// nothing.
pub proof fn law_every_announced_downlink_is_taken(
    fcnt: u32,
    held: Option<Downlink>,
    downlink: Downlink,
)
    ensures
        announces_downlink(Ok(LorawanResponse::DownlinkReceived(fcnt, held))),
        with_taken(Ok(LorawanResponse::DownlinkReceived(fcnt, held)), Some(downlink)) == Ok::<
            LorawanResponse,
            LorawanError,
        >(LorawanResponse::DownlinkReceived(fcnt, Some(downlink))),
        response_event(
            with_taken(Ok(LorawanResponse::DownlinkReceived(fcnt, held)), Some(downlink)),
        ) == payload_event(payload_in(downlink@)),
        with_taken(Ok(LorawanResponse::DownlinkReceived(fcnt, held)), None) == Ok::<
            LorawanResponse,
            LorawanError,
        >(LorawanResponse::DownlinkReceived(fcnt, None)),
        response_event(with_taken(Ok(LorawanResponse::DownlinkReceived(fcnt, held)), None))
            is NoEvent,
{
}

/// Nothing is taken from the stack on an error, or on an answer that announces no downlink, and
/// such an answer stays what it is.
pub proof fn law_nothing_else_is_taken(
    response: Result<LorawanResponse, LorawanError>,
    taken: Option<Downlink>,
)
    requires
        response is Ok ==> !(response->Ok_0 is DownlinkReceived),
    ensures
        !announces_downlink(response),
        with_taken(response, taken) == response,
{
}

/// A join ends with success on success alone, asks for a session again after a failure alone, and
/// waits no longer than a time alone where it was given that time. After anything else it waits for
/// the next interrupt.
pub proof fn law_join_goes_by_the_event(event: DriverEventView, ms: u32)
    ensures
        join_step(event) == Step::<()>::Wait(Some(ms)) <==> event == DriverEventView::ProcessAfter(ms),
        join_step(event) is Done <==> event is JoinSuccess,
        join_step(event) matches Step::Done(result) ==> result is Ok,
        join_step(event) is Process <==> event is JoinFailed,
        join_step(event) matches Step::Process(next) ==> next is NewSessionRequest,
        join_step(event) == Step::<()>::Wait(None) <==> (event is SessionExpired || event is Ack
            || event is AckWithData || event is AckTimeout || event is NoEvent),
{
}

/// Sending ends well with an acknowledgement, and with the very length that came with it; it ends
/// badly when the acknowledgement is missing; and it waits no longer than a time where it was given
/// that time. After anything else it waits for the next interrupt, and it never asks for a session.
pub proof fn law_sending_goes_by_the_event(event: DriverEventView, ms: u32, len: usize, buf: Seq<u8>)
    ensures
        send_recv_step(event) == Step::<usize>::Wait(Some(ms)) <==> event == DriverEventView::ProcessAfter(
            ms,
        ),
        send_recv_step(DriverEventView::AckWithData(len, buf)) == Step::Done(
            Ok::<usize, LoraError>(len),
        ),
        send_recv_step(DriverEventView::Ack) == Step::Done(Ok::<usize, LoraError>(0)),
        send_recv_step(event) matches Step::Done(Ok(_)) <==> (event is Ack || event is AckWithData),
        send_recv_step(event) matches Step::Done(Err(_)) <==> event is AckTimeout,
        send_recv_step(event) matches Step::Done(Err(e)) ==> e is AckTimeout,
        send_recv_step(event) == Step::<usize>::Wait(None) <==> (event is JoinSuccess
            || event is JoinFailed || event is SessionExpired || event is NoEvent),
        send_recv_step(event) !is Process,
{
}

/// Sending without asking for data differs from sending that asks for it in the count alone.
pub proof fn law_only_the_count_is_dropped(step: Step<usize>)
    ensures
        step matches Step::Process(event) ==> uncounted(step) == Step::<()>::Process(event),
        step matches Step::Wait(timeout) ==> uncounted(step) == Step::<()>::Wait(timeout),
        step matches Step::Done(Err(e)) ==> uncounted(step) == Step::Done(Err::<(), LoraError>(e)),
        step matches Step::Done(Ok(_)) ==> uncounted(step) == Step::Done(Ok::<(), LoraError>(())),
{
}

/// Received data overwrites as much of a receive buffer as it is long, byte for byte, and nothing
/// behind it; an event without data overwrites nothing.
pub proof fn law_buffer_takes_the_data_alone(event: DriverEventView, rx: Seq<u8>)
    ensures
        event !is AckWithData ==> received(event, rx) == rx,
        event matches DriverEventView::AckWithData(len, buf) ==> (len <= buf.len() && len <= rx.len()
            ==> {
            &&& received(event, rx).len() == rx.len()
            &&& forall|i: int| 0 <= i < len ==> #[trigger] received(event, rx)[i] == buf[i]
            &&& forall|i: int| len <= i < rx.len() ==> #[trigger] received(event, rx)[i] == rx[i]
        }),
{
}

/// A granted uplink is handed on as it was granted, with its data, its port and its wish to be
/// acknowledged; a refusal is handed on with its error, and ends sending.
pub proof fn law_uplinks_are_handed_on_unchanged<'m, T>(
    request: Result<SendRequest<'m>, LoraError>,
)
    ensures
        request matches Ok(granted) ==> {
            &&& send_start::<T>(request) matches SendStart::Send(sent)
            &&& sent.data@ == granted.data@
            &&& sent.port == granted.port
            &&& sent.confirmed == granted.confirmed
        },
        request matches Err(e) ==> {
            &&& send_start::<T>(request) matches SendStart::Refused(step)
            &&& step == Step::Done(Err::<T, LoraError>(e))
        },
{
}

/// An event is given to the stack unchanged where there is one, and skipped where there is none.
pub proof fn law_events_go_to_the_stack<E>(configured: bool, event: E)
    ensures
        event_outcome(configured, event) matches EventOutcome::Handle(given) ==> configured && given
            == event,
        event_outcome(configured, event) matches EventOutcome::Skipped(skipped) ==> !configured
            && skipped is NoEvent,
{
}

/// An interrupt is told to the stack as one of the radio, and the end of a time as a timeout.
pub proof fn law_wakes_are_told_apart(wake: Wake)
    ensures
        wake is Timeout <==> wake_event(wake) is TimeoutFired,
        wake is Interrupt <==> wake_event(wake) is RadioEvent,
        wake_event(wake) matches LorawanEvent::RadioEvent(event) ==> event is Irq,
{
}

/// Reading the buffer of a driver event as a sequence loses nothing: two events that read the same
/// are of one kind and carry the same time, the same length and the same bytes.
pub proof fn law_events_read_as_they_are(event: DriverEvent)
    ensures
        event is JoinSuccess <==> event@ is JoinSuccess,
        event is JoinFailed <==> event@ is JoinFailed,
        event is SessionExpired <==> event@ is SessionExpired,
        event is Ack <==> event@ is Ack,
        event is AckTimeout <==> event@ is AckTimeout,
        event is NoEvent <==> event@ is NoEvent,
        event is ProcessAfter <==> event@ is ProcessAfter,
        event matches DriverEvent::ProcessAfter(ms) ==> event@->ProcessAfter_0 == ms,
        event is AckWithData <==> event@ is AckWithData,
        event matches DriverEvent::AckWithData(len, buf) ==> (event@ matches
            DriverEventView::AckWithData(l, b) && l == len && b == buf@),
{
}

/// What a device can do follows from what it owns: with a stack it is configured, with a radio it
/// is usable but not configured, and with neither it is not usable.
pub proof fn law_devices_are_what_they_own<R, B, D, I, G>(device: LoraDevice<R, B, D, I, G>)
    ensures
        device.state() matches Some(DriverState::Configured(_)) <==> device.configured(),
        device.state() matches Some(DriverState::New(_, _)) ==> device.usable()
            && !device.configured(),
        device.configured() ==> device.usable() && !device.lost(),
        device.state() is None <==> !device.usable(),
{
}

/// A stack is set up as its configuration says. It runs in the region that is given, whichever of
/// the supported ones that is, and in EU868 only where that one or none is given. Its receive
/// windows open after five and after six seconds. It has the identifiers back to front and the key
/// as it is, on the radio and the buffer that the device had. A higher spreading factor gives a
/// lower data rate, seven the highest, which is also the rate where none is given.
pub proof fn law_stack_is_set_up_as_configured<R, B>(
    setup: StackSetup<R, B>,
    config: LoraConfig,
    radio: R,
    radio_tx_buf: B,
)
    requires
        setup.follows(config, radio, radio_tx_buf),
    ensures
        config.region == Some(LoraRegion::EU868) || config.region is None ==> setup.region
            == with_receive_delay1(region_configuration(SupportedRegion::EU868), 5000),
        config.region == Some(LoraRegion::US915) ==> setup.region == with_receive_delay1(
            region_configuration(SupportedRegion::US915),
            5000,
        ),
        config.region == Some(LoraRegion::CN470) ==> setup.region == with_receive_delay1(
            region_configuration(SupportedRegion::CN470),
            5000,
        ),
        config.region matches Some(region) ==> region is EU868 || region is US915
            || region is CN470,
        receive_delays(setup.region) == (5000int, 6000int),
        setup.radio == radio,
        setup.radio_tx_buf == radio_tx_buf,
        forall|i: int| 0 <= i < 8 ==> #[trigger] setup.dev_eui@[i] == config.device_eui->0.bytes@[7
            - i],
        forall|i: int| 0 <= i < 8 ==> #[trigger] setup.app_eui@[i] == config.app_eui->0.bytes@[7
            - i],
        forall|i: int| 0 <= i < 16 ==> #[trigger] setup.app_key@[i] == config.app_key->0.bytes@[i],
        setup.data_rate is _5 <==> (config.spreading_factor is None || config.spreading_factor
            == Some(SpreadingFactor::SF7)),
        setup.data_rate is _4 <==> config.spreading_factor == Some(SpreadingFactor::SF8),
        setup.data_rate is _3 <==> config.spreading_factor == Some(SpreadingFactor::SF9),
        setup.data_rate is _2 <==> config.spreading_factor == Some(SpreadingFactor::SF10),
        setup.data_rate is _1 <==> config.spreading_factor == Some(SpreadingFactor::SF11),
        setup.data_rate is _0 <==> config.spreading_factor == Some(SpreadingFactor::SF12),
{
}

} // verus!
