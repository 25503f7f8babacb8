use drogue_device::device::{
    downlink_event, takes_downlink, with_downlink, woken, DriverEvent, EventOutcome, LoraDevice,
    LorawanError, LorawanEvent, LorawanResponse, RadioPhyEvent, SendStart, Step, Wake,
};
use drogue_device::downlink::{Downlink, FrmPayload};
use drogue_device::lora::{AppKey, LoraConfig, LoraError, LoraRegion, QoS, EUI};
use lorawan::keys::AES128;
use lorawan::parser::EncryptedDataPayload;

type Driver = LoraDevice<&'static str, [u8; 4], u32, &'static str, u8>;

fn new_device() -> Driver {
    LoraDevice::new("radio", "irq", 42, [9; 4])
}

fn config(region: LoraRegion) -> LoraConfig {
    LoraConfig {
        region: Some(region),
        spreading_factor: None,
        device_eui: Some(EUI { bytes: [1, 2, 3, 4, 5, 6, 7, 8] }),
        app_eui: Some(EUI { bytes: [11, 12, 13, 14, 15, 16, 17, 18] }),
        app_key: Some(AppKey { bytes: [7; 16] }),
    }
}

fn configured_device() -> Driver {
    let mut device = new_device();
    assert!(device.configure(&config(LoraRegion::EU868), Ok(())).is_ok());
    assert!(device.is_awaiting_stack());
    device.set_configured(77);
    device
}

fn hello() -> Downlink {
    let mut frame: heapless::Vec<u8, 256> = heapless::Vec::new();
    frame
        .extend_from_slice(&[
            0x40, 0x04, 0x03, 0x02, 0x01, 0x80, 0x01, 0x00, 0x01, 0xa6, 0x94, 0x64, 0x26, 0x15,
            0xd6, 0xc3, 0xb5, 0x82,
        ])
        .unwrap();
    Downlink::new(
        EncryptedDataPayload::new(frame)
            .unwrap()
            .decrypt(None, Some(&AES128([1; 16])), 1)
            .unwrap(),
    )
}

fn empty() -> Downlink {
    let mut frame: heapless::Vec<u8, 256> = heapless::Vec::new();
    frame.extend_from_slice(&[0x60, 4, 3, 2, 1, 0x20, 1, 0, 0, 0, 0, 0]).unwrap();
    Downlink::new(
        EncryptedDataPayload::new(frame)
            .unwrap()
            .decrypt(Some(&AES128([2; 16])), None, 1)
            .unwrap(),
    )
}

fn event_of(response: Result<LorawanResponse, LorawanError>) -> DriverEvent {
    configured_device().process_response(response)
}

#[test]
fn a_new_device_owns_its_parts() {
    let mut device = new_device();
    assert!(device.is_usable());
    assert_eq!(device.radio().copied(), Some("radio"));
    assert!(device.lorawan().is_none());
    assert_eq!(*device.irq(), "irq");
    assert_eq!(*device.get_random(), 42);
}

#[test]
fn a_configured_device_owns_a_stack() {
    let mut device = configured_device();
    assert!(device.radio().is_none());
    *device.lorawan().unwrap() += 1;
    assert_eq!(device.lorawan().copied(), Some(78));
    assert_eq!(*device.irq(), "irq");
    *device.irq() = "other";
    assert_eq!(*device.irq(), "other");
}

#[test]
fn configuring_hands_out_what_the_stack_is_built_from() {
    let mut device = new_device();
    let setup = device.configure(&config(LoraRegion::EU868), Ok(())).ok().unwrap();
    assert!(!device.is_usable());
    assert_eq!(setup.radio, "radio");
    assert_eq!(setup.radio_tx_buf, [9; 4]);
    assert_eq!(setup.dev_eui, [8, 7, 6, 5, 4, 3, 2, 1]);
    assert_eq!(setup.app_eui, [18, 17, 16, 15, 14, 13, 12, 11]);
    assert_eq!(setup.app_key, [7; 16]);
}

#[test]
fn a_failed_reset_is_reported_and_final() {
    let mut device = new_device();
    let result = device.configure(&config(LoraRegion::EU868), Err(LoraError::OtherError));
    assert_eq!(result.err(), Some(LoraError::OtherError));
    assert!(!device.is_usable());
    let mut device = new_device();
    let result = device.configure(&config(LoraRegion::KR920), Err(LoraError::NotReady));
    assert_eq!(result.err(), Some(LoraError::NotReady));
}

#[test]
fn an_unsupported_region_is_reported_and_final() {
    let mut device = new_device();
    let result = device.configure(&config(LoraRegion::KR920), Ok(()));
    assert_eq!(result.err(), Some(LoraError::UnsupportedRegion));
    assert!(!device.is_usable());
}

#[test]
fn a_configured_device_is_not_configured_again() {
    let mut device = configured_device();
    let result = device.configure(&config(LoraRegion::US915), Ok(()));
    assert_eq!(result.err(), Some(LoraError::OtherError));
    assert_eq!(device.lorawan().copied(), Some(77));
}

#[test]
fn an_identifier_reversed_twice_is_the_same() {
    let eui = EUI { bytes: [1, 2, 3, 4, 5, 6, 7, 8] };
    assert_eq!(eui.reverse().bytes, [8, 7, 6, 5, 4, 3, 2, 1]);
    assert_eq!(eui.reverse().reverse(), eui);
}

#[test]
fn events_need_a_stack() {
    assert_eq!(
        new_device().process_event(LorawanEvent::TimeoutFired),
        EventOutcome::Skipped(DriverEvent::NoEvent)
    );
    assert_eq!(
        configured_device().process_event(LorawanEvent::TimeoutFired),
        EventOutcome::Handle(LorawanEvent::TimeoutFired)
    );
}

#[test]
fn the_end_of_a_wait_is_an_event() {
    assert_eq!(woken(Wake::Interrupt), LorawanEvent::RadioEvent(RadioPhyEvent::Irq));
    assert_eq!(woken(Wake::Timeout), LorawanEvent::TimeoutFired);
}

#[test]
fn answers_of_the_stack_become_driver_events() {
    assert_eq!(event_of(Ok(LorawanResponse::NoUpdate)), DriverEvent::JoinFailed);
    assert_eq!(event_of(Ok(LorawanResponse::TimeoutRequest(9))), DriverEvent::ProcessAfter(9));
    assert_eq!(event_of(Ok(LorawanResponse::JoinRequestSending)), DriverEvent::NoEvent);
    assert_eq!(event_of(Ok(LorawanResponse::JoinSuccess)), DriverEvent::JoinSuccess);
    assert_eq!(event_of(Ok(LorawanResponse::NoJoinAccept)), DriverEvent::JoinFailed);
    assert_eq!(event_of(Ok(LorawanResponse::UplinkSending(3))), DriverEvent::NoEvent);
    assert_eq!(event_of(Ok(LorawanResponse::NoAck)), DriverEvent::AckTimeout);
    assert_eq!(event_of(Ok(LorawanResponse::ReadyToSend)), DriverEvent::NoEvent);
    assert_eq!(event_of(Ok(LorawanResponse::SessionExpired)), DriverEvent::SessionExpired);
    for error in [LorawanError::Radio, LorawanError::Session, LorawanError::NoSession] {
        assert_eq!(event_of(Err(error)), DriverEvent::NoEvent);
    }
}

#[test]
fn downlinks_acknowledge() {
    assert_eq!(event_of(Ok(LorawanResponse::DownlinkReceived(1, None))), DriverEvent::NoEvent);
    assert_eq!(event_of(Ok(LorawanResponse::DownlinkReceived(1, Some(empty())))), DriverEvent::Ack);
    let mut buf = [0; 255];
    buf[..5].copy_from_slice(b"hello");
    assert_eq!(
        event_of(Ok(LorawanResponse::DownlinkReceived(1, Some(hello())))),
        DriverEvent::AckWithData(5, buf)
    );
}

#[test]
fn payloads_acknowledge() {
    assert_eq!(downlink_event(Err(())), DriverEvent::Ack);
    assert_eq!(downlink_event(Ok(FrmPayload::Empty)), DriverEvent::Ack);
    assert_eq!(downlink_event(Ok(FrmPayload::MacCommands)), DriverEvent::Ack);
    assert_eq!(
        downlink_event(Ok(FrmPayload::Data(vec![]))),
        DriverEvent::AckWithData(0, [0; 255])
    );
    assert_eq!(
        downlink_event(Ok(FrmPayload::Data(vec![6; 255]))),
        DriverEvent::AckWithData(255, [6; 255])
    );
}

#[test]
fn a_join_goes_on_until_it_succeeds() {
    let device = configured_device();
    assert_eq!(device.start_join(), Step::Process(LorawanEvent::NewSessionRequest));
    assert_eq!(device.join(DriverEvent::ProcessAfter(7)), Step::Wait(Some(7)));
    assert_eq!(device.join(DriverEvent::NoEvent), Step::Wait(None));
    assert_eq!(
        device.join(DriverEvent::JoinFailed),
        Step::Process(LorawanEvent::NewSessionRequest)
    );
    assert_eq!(device.join(DriverEvent::SessionExpired), Step::Wait(None));
    assert_eq!(device.join(DriverEvent::Ack), Step::Wait(None));
    assert_eq!(device.join(DriverEvent::AckTimeout), Step::Wait(None));
    assert_eq!(device.join(DriverEvent::AckWithData(1, [1; 255])), Step::Wait(None));
    assert_eq!(device.join(DriverEvent::JoinSuccess), Step::Done(Ok(())));
}

#[test]
fn a_join_without_stack_waits() {
    let device = new_device();
    match device.process_event(LorawanEvent::NewSessionRequest) {
        EventOutcome::Skipped(event) => assert_eq!(device.join(event), Step::Wait(None)),
        EventOutcome::Handle(_) => panic!("there is no stack"),
    }
}

#[test]
fn failed_joins_and_errors_do_not_end_a_join() {
    let device = configured_device();
    let again = Step::Process(LorawanEvent::NewSessionRequest);
    assert_eq!(device.join(event_of(Ok(LorawanResponse::NoJoinAccept))), again);
    assert_eq!(device.join(event_of(Ok(LorawanResponse::NoUpdate))), again);
    assert_eq!(device.join(event_of(Err(LorawanError::Radio))), Step::Wait(None));
    assert_eq!(device.send(event_of(Err(LorawanError::Radio))), Step::Wait(None));
}

#[test]
fn uplinks_need_a_stack_that_is_ready() {
    let device = configured_device();
    let request = device.send_data(QoS::Confirmed, 3, &[1, 2], true).unwrap();
    assert_eq!(request.data, [1, 2]);
    assert_eq!(request.port, 3);
    assert!(request.confirmed);
    assert!(!device.send_data(QoS::Unconfirmed, 3, &[], true).unwrap().confirmed);
    assert_eq!(
        device.send_data(QoS::Confirmed, 3, &[1], false).err(),
        Some(LoraError::NotReady)
    );
    assert_eq!(
        new_device().send_data(QoS::Confirmed, 3, &[1], true).err(),
        Some(LoraError::OtherError)
    );
}

#[test]
fn sending_goes_on_until_its_outcome_is_known() {
    let device = configured_device();
    assert_eq!(device.send_recv(DriverEvent::ProcessAfter(7), None), Step::Wait(Some(7)));
    assert_eq!(device.send_recv(DriverEvent::NoEvent, None), Step::Wait(None));
    assert_eq!(device.send_recv(DriverEvent::JoinSuccess, None), Step::Wait(None));
    assert_eq!(device.send_recv(DriverEvent::JoinFailed, None), Step::Wait(None));
    assert_eq!(device.send_recv(DriverEvent::SessionExpired, None), Step::Wait(None));
    assert_eq!(device.send_recv(DriverEvent::Ack, None), Step::Done(Ok(0)));
    assert_eq!(
        device.send_recv(DriverEvent::AckTimeout, None),
        Step::Done(Err(LoraError::AckTimeout))
    );
    assert_eq!(device.send_recv(DriverEvent::AckWithData(4, [1; 255]), None), Step::Done(Ok(4)));
}

#[test]
fn received_data_goes_to_the_start_of_the_buffer() {
    let device = configured_device();
    let event = event_of(Ok(LorawanResponse::DownlinkReceived(1, Some(hello()))));
    let mut rx = [0xff; 8];
    assert_eq!(device.send_recv(event, Some(&mut rx)), Step::Done(Ok(5)));
    assert_eq!(&rx[..5], b"hello");
    assert_eq!(rx[5..], [0xff; 3]);
    let mut exact = [0; 5];
    assert_eq!(device.send_recv(event, Some(&mut exact)), Step::Done(Ok(5)));
    assert_eq!(&exact, b"hello");
    assert_eq!(device.send_recv(DriverEvent::Ack, Some(&mut exact)), Step::Done(Ok(0)));
    assert_eq!(&exact, b"hello");
}

#[test]
fn sending_without_receiving_drops_the_count() {
    let device = configured_device();
    assert_eq!(device.send(DriverEvent::AckWithData(4, [1; 255])), Step::Done(Ok(())));
    assert_eq!(device.send(DriverEvent::Ack), Step::Done(Ok(())));
    assert_eq!(device.send(DriverEvent::AckTimeout), Step::Done(Err(LoraError::AckTimeout)));
    assert_eq!(device.send(DriverEvent::ProcessAfter(1)), Step::Wait(Some(1)));
    assert_eq!(device.send(DriverEvent::NoEvent), Step::Wait(None));
}

#[test]
fn sending_without_receiving_takes_any_count() {
    let device = configured_device();
    let event = DriverEvent::AckWithData(300, [1; 255]);
    assert_eq!(device.send_recv(event, None), Step::Done(Ok(300)));
    assert_eq!(device.send(event), Step::Done(Ok(())));
}

#[test]
fn granted_uplinks_are_sent() {
    let device = configured_device();
    let request = device.send_data(QoS::Confirmed, 3, &[1, 2], true);
    match device.start_send::<usize>(request) {
        SendStart::Send(request) => {
            assert_eq!(request.data, [1, 2]);
            assert_eq!(request.port, 3);
            assert!(request.confirmed);
        }
        SendStart::Refused(_) => panic!("the stack is ready"),
    }
}

#[test]
fn refused_uplinks_end_sending_with_their_error() {
    let device = configured_device();
    let request = device.send_data(QoS::Confirmed, 3, &[1], false);
    match device.start_send::<usize>(request) {
        SendStart::Refused(step) => assert_eq!(step, Step::Done(Err(LoraError::NotReady))),
        SendStart::Send(_) => panic!("the stack is not ready"),
    }
    let device = new_device();
    let request = device.send_data(QoS::Confirmed, 3, &[1], true);
    match device.start_send::<()>(request) {
        SendStart::Refused(step) => assert_eq!(step, Step::Done(Err(LoraError::OtherError))),
        SendStart::Send(_) => panic!("there is no stack"),
    }
}

#[test]
fn only_announced_downlinks_are_taken() {
    assert!(takes_downlink(&Ok(LorawanResponse::DownlinkReceived(4, None))));
    for response in [
        LorawanResponse::NoUpdate,
        LorawanResponse::TimeoutRequest(1),
        LorawanResponse::JoinRequestSending,
        LorawanResponse::JoinSuccess,
        LorawanResponse::NoJoinAccept,
        LorawanResponse::UplinkSending(1),
        LorawanResponse::NoAck,
        LorawanResponse::ReadyToSend,
        LorawanResponse::SessionExpired,
    ] {
        assert!(!takes_downlink(&Ok(response)));
    }
    assert!(!takes_downlink(&Err(LorawanError::Session)));
}

#[test]
fn a_taken_downlink_completes_its_announcement() {
    let announced = Ok(LorawanResponse::DownlinkReceived(4, None));
    match with_downlink(announced, Some(empty())) {
        Ok(LorawanResponse::DownlinkReceived(fcnt, downlink)) => {
            assert_eq!(fcnt, 4);
            assert!(downlink.is_some());
        }
        _ => panic!("the answer stays an announcement"),
    }
    assert!(matches!(
        with_downlink(Ok(LorawanResponse::NoAck), Some(empty())),
        Ok(LorawanResponse::NoAck)
    ));
    assert!(matches!(
        with_downlink(Err(LorawanError::Radio), None),
        Err(LorawanError::Radio)
    ));
}

#[test]
fn only_a_successful_configuration_awaits_a_stack() {
    let mut device = new_device();
    assert!(!device.is_awaiting_stack());
    assert!(device.configure(&config(LoraRegion::EU868), Ok(())).is_ok());
    assert!(device.is_awaiting_stack());
    assert!(!device.is_usable());
    device.set_configured(5);
    assert!(!device.is_awaiting_stack());
    assert!(device.configure(&config(LoraRegion::EU868), Ok(())).is_err());
    assert!(!device.is_awaiting_stack());
    assert!(device.is_usable());
}

#[test]
fn a_failed_configuration_loses_the_device() {
    let mut device = new_device();
    assert!(device.configure(&config(LoraRegion::EU868), Err(LoraError::OtherError)).is_err());
    assert!(!device.is_usable() && !device.is_awaiting_stack());
    assert!(device.radio().is_none() && device.lorawan().is_none());
    let mut device = new_device();
    assert!(device.configure(&config(LoraRegion::IN865), Ok(())).is_err());
    assert!(!device.is_usable() && !device.is_awaiting_stack());
}
