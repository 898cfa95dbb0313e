use spect::client::characteristics::{Characteristic, LED_DATA_UUID, LED_SHOW_UUID};
use spect::client::session::{Session, SessionAction, SessionEvent, Settings};
use spect::device::leds::TransmitOutcome;
use spect::device::server::{
    GattServer, ServerAction, ServerEvent, ServerStage, IDLE_TIMEOUT_MS, RETRY_DELAY_MS,
    STARTUP_DELAY_MS,
};
use spect::device::ws2812::{Level, Pulse, MAX_PULSES};

const DATA: u16 = 3;
const SHOW: u16 = 5;

const LOW_BIT: Pulse = Pulse { level1: Level::High, length1: 7, level2: Level::Low, length2: 16 };
const HIGH_BIT: Pulse = Pulse { level1: Level::High, length1: 14, level2: Level::Low, length2: 12 };

fn write(handle: u16, data: &[u8]) -> ServerEvent {
    ServerEvent::Write { handle, data: data.to_vec() }
}

fn advertises_strip(action: ServerAction) -> bool {
    matches!(
        action,
        ServerAction::Advertise(adv)
            if adv.adv_data == b"\x02\x01\x06\x0c\x09Spect-Strip" && adv.scan_data.is_empty()
    )
}

fn awaits_event(action: ServerAction) -> bool {
    matches!(action, ServerAction::AwaitEvent(60_000))
}

fn advertising() -> GattServer {
    let mut server = GattServer::new(DATA, SHOW);
    server.gatt_server_task(ServerEvent::Start);
    server.gatt_server_task(ServerEvent::Done);
    server.gatt_server_task(ServerEvent::Done);
    assert_eq!(server.stage, ServerStage::Advertising);
    server
}

fn connect(server: &mut GattServer) {
    server.gatt_server_task(ServerEvent::Done);
    server.gatt_server_task(ServerEvent::Done);
    server.gatt_server_task(ServerEvent::Done);
    server.gatt_server_task(ServerEvent::Done);
}

fn connected() -> GattServer {
    let mut server = advertising();
    connect(&mut server);
    assert_eq!(server.stage, ServerStage::Connected);
    server
}

fn write_data(server: &mut GattServer, data: &[u8]) {
    let action = server.gatt_server_task(write(DATA, data));
    assert!(matches!(action, ServerAction::Reply));
    assert!(awaits_event(server.gatt_server_task(ServerEvent::Done)));
}

#[test]
fn server_advertises_and_waits_for_a_central() {
    let mut server = GattServer::new(DATA, SHOW);
    assert!(server.pixel_buf.is_empty());
    let action = server.gatt_server_task(ServerEvent::Start);
    assert!(matches!(action, ServerAction::Sleep(100)));
    assert!(matches!(server.gatt_server_task(ServerEvent::Done), ServerAction::BuildHost));
    assert!(advertises_strip(server.gatt_server_task(ServerEvent::Done)));
    assert!(matches!(server.gatt_server_task(ServerEvent::Done), ServerAction::Accept));
    assert!(matches!(server.gatt_server_task(ServerEvent::Done), ServerAction::AllowBonding));
    assert!(matches!(server.gatt_server_task(ServerEvent::Done), ServerAction::Attach));
    assert!(awaits_event(server.gatt_server_task(ServerEvent::Done)));
}

#[test]
fn failed_advertisement_is_tried_again_after_a_delay() {
    let mut server = advertising();
    let action = server.gatt_server_task(ServerEvent::Failed);
    assert!(matches!(action, ServerAction::Sleep(1_000)));
    assert!(advertises_strip(server.gatt_server_task(ServerEvent::Done)));
}

#[test]
fn failed_connection_is_followed_by_an_advertisement() {
    let mut server = advertising();
    server.gatt_server_task(ServerEvent::Done);
    assert_eq!(server.stage, ServerStage::Accepting);
    assert!(advertises_strip(server.gatt_server_task(ServerEvent::Failed)));
    server.gatt_server_task(ServerEvent::Done);
    server.gatt_server_task(ServerEvent::Done);
    server.gatt_server_task(ServerEvent::Done);
    assert_eq!(server.stage, ServerStage::Attaching);
    assert!(advertises_strip(server.gatt_server_task(ServerEvent::Failed)));
}

#[test]
fn lost_connection_is_followed_by_an_advertisement() {
    let mut server = connected();
    assert!(advertises_strip(server.gatt_server_task(ServerEvent::Disconnected)));
    let mut server = connected();
    assert!(advertises_strip(server.gatt_server_task(ServerEvent::TimedOut)));
}

#[test]
fn lost_connection_keeps_the_pixel_data() {
    let mut server = connected();
    write_data(&mut server, &[1, 2]);
    server.gatt_server_task(ServerEvent::Disconnected);
    connect(&mut server);
    write_data(&mut server, &[3]);
    assert_eq!(server.pixel_buf, vec![1, 2, 3]);
}

#[test]
fn data_of_several_connections_is_shown_at_once() {
    let mut server = connected();
    write_data(&mut server, &[0xff]);
    let action = server.gatt_server_task(write(SHOW, &[1]));
    assert!(matches!(action, ServerAction::Transmit(8)));
    server.gatt_server_task(ServerEvent::Transmitted(TransmitOutcome::Completed));
    server.gatt_server_task(ServerEvent::Done);

    write_data(&mut server, &[0x00]);
    server.gatt_server_task(ServerEvent::TimedOut);
    server.gatt_server_task(ServerEvent::Failed);
    server.gatt_server_task(ServerEvent::Done);
    connect(&mut server);
    server.gatt_server_task(ServerEvent::PairingComplete);
    server.gatt_server_task(ServerEvent::Read);
    server.gatt_server_task(ServerEvent::Done);
    write_data(&mut server, &[0x0f]);
    let action = server.gatt_server_task(write(SHOW, &[]));
    assert!(matches!(action, ServerAction::Transmit(16)));
    assert_eq!(server.leds.pulses[..12], [LOW_BIT; 12]);
    assert_eq!(server.leds.pulses[12..16], [HIGH_BIT; 4]);
}

#[test]
fn central_is_served_though_it_may_not_bond() {
    let mut server = advertising();
    server.gatt_server_task(ServerEvent::Done);
    let action = server.gatt_server_task(ServerEvent::Done);
    assert!(matches!(action, ServerAction::AllowBonding));
    let action = server.gatt_server_task(ServerEvent::Failed);
    assert!(matches!(action, ServerAction::Attach));
    assert!(awaits_event(server.gatt_server_task(ServerEvent::Done)));
}

#[test]
fn host_is_built_once() {
    let mut server = GattServer::new(DATA, SHOW);
    let mut builds = 0;
    let mut advertisements = 0;
    for _ in 0..4 {
        for event in [
            ServerEvent::Start,
            ServerEvent::Done,
            ServerEvent::Done,
            ServerEvent::Done,
            ServerEvent::Done,
            ServerEvent::Done,
            ServerEvent::Failed,
            ServerEvent::Disconnected,
        ] {
            match server.gatt_server_task(event) {
                ServerAction::BuildHost => {
                    assert_eq!(advertisements, 0);
                    builds += 1;
                }
                ServerAction::Advertise(_) => advertisements += 1,
                _ => {}
            }
        }
    }
    assert_eq!(builds, 1);
    assert!(advertisements > 1);
}

#[test]
fn other_events_transmit_nothing() {
    let mut server = connected();
    write_data(&mut server, &[1]);
    for event in [
        ServerEvent::Other,
        ServerEvent::PassKeyDisplay,
        ServerEvent::Transmitted(TransmitOutcome::Completed),
        ServerEvent::Disconnected,
        write(SHOW, &[1]),
    ] {
        let action = server.gatt_server_task(event);
        assert!(!matches!(action, ServerAction::Transmit(_)));
    }
    assert_eq!(server.pixel_buf, vec![1]);
}

#[test]
fn pairing_events_are_passed_over() {
    let mut server = connected();
    for event in [
        ServerEvent::PassKeyDisplay,
        ServerEvent::PassKeyInput,
        ServerEvent::PairingComplete,
        ServerEvent::PairingFailed,
        ServerEvent::Other,
    ] {
        assert!(awaits_event(server.gatt_server_task(event)));
    }
}

#[test]
fn pass_key_is_confirmed() {
    let mut server = connected();
    let action = server.gatt_server_task(ServerEvent::PassKeyConfirm);
    assert!(matches!(action, ServerAction::ConfirmPassKey));
    assert!(awaits_event(server.gatt_server_task(ServerEvent::Done)));
}

#[test]
fn failed_confirmation_is_passed_over() {
    let mut server = connected();
    server.gatt_server_task(ServerEvent::PassKeyConfirm);
    assert!(awaits_event(server.gatt_server_task(ServerEvent::Failed)));
    assert!(advertises_strip(server.gatt_server_task(ServerEvent::Disconnected)));
}

#[test]
fn failed_reply_is_passed_over() {
    let mut server = connected();
    server.gatt_server_task(ServerEvent::Read);
    assert!(awaits_event(server.gatt_server_task(ServerEvent::Failed)));
    server.gatt_server_task(write(DATA, &[1, 2]));
    assert!(awaits_event(server.gatt_server_task(ServerEvent::Failed)));
    assert_eq!(server.pixel_buf, vec![1, 2]);
    server.gatt_server_task(write(SHOW, &[1]));
    server.gatt_server_task(ServerEvent::Transmitted(TransmitOutcome::Completed));
    assert!(awaits_event(server.gatt_server_task(ServerEvent::Failed)));
}

#[test]
fn reads_are_answered() {
    let mut server = connected();
    assert!(matches!(server.gatt_server_task(ServerEvent::Read), ServerAction::Reply));
    assert!(awaits_event(server.gatt_server_task(ServerEvent::Done)));
}

#[test]
fn data_is_collected_and_shown() {
    let mut server = connected();
    write_data(&mut server, &[0xf0]);
    write_data(&mut server, &[]);
    write_data(&mut server, &[0x01, 0xff]);
    assert_eq!(server.pixel_buf, vec![0xf0, 0x01, 0xff]);

    let action = server.gatt_server_task(write(SHOW, &[1]));
    assert!(matches!(action, ServerAction::Transmit(24)));
    assert!(server.pixel_buf.is_empty());
    assert_eq!(server.leds.pulses[..4], [HIGH_BIT; 4]);
    assert_eq!(server.leds.pulses[4..15], [LOW_BIT; 11]);
    assert_eq!(server.leds.pulses[15..24], [HIGH_BIT; 9]);

    let action = server.gatt_server_task(ServerEvent::Transmitted(TransmitOutcome::Completed));
    assert!(matches!(action, ServerAction::Reply));
    assert!(awaits_event(server.gatt_server_task(ServerEvent::Done)));
    assert!(server.leds.channel_ready);
}

#[test]
fn request_to_show_may_hold_anything() {
    for request in [vec![], vec![0], vec![1, 2, 3]] {
        let mut server = connected();
        write_data(&mut server, &[0]);
        let action = server.gatt_server_task(write(SHOW, &request));
        assert!(matches!(action, ServerAction::Transmit(8)));
    }
}

#[test]
fn nothing_collected_is_not_shown() {
    let mut server = connected();
    let action = server.gatt_server_task(write(SHOW, &[1]));
    assert!(matches!(action, ServerAction::Reply));
    assert!(server.leds.channel_ready);
}

#[test]
fn other_attributes_are_written_without_effect() {
    let mut server = connected();
    write_data(&mut server, &[7]);
    let action = server.gatt_server_task(write(9, &[1]));
    assert!(matches!(action, ServerAction::Reply));
    assert_eq!(server.pixel_buf, vec![7]);
}

#[test]
fn too_much_data_is_cut() {
    let mut server = connected();
    write_data(&mut server, &[0xff; 1000]);
    let action = server.gatt_server_task(write(SHOW, &[1]));
    assert!(matches!(action, ServerAction::Transmit(MAX_PULSES)));
}

#[test]
fn interrupted_transmission_keeps_the_channel() {
    let mut server = connected();
    write_data(&mut server, &[1]);
    server.gatt_server_task(write(SHOW, &[1]));
    let action = server.gatt_server_task(ServerEvent::Transmitted(TransmitOutcome::Interrupted));
    assert!(matches!(action, ServerAction::Reply));
    server.gatt_server_task(ServerEvent::Done);
    write_data(&mut server, &[1]);
    let action = server.gatt_server_task(write(SHOW, &[1]));
    assert!(matches!(action, ServerAction::Transmit(8)));
}

#[test]
fn rejected_transmission_is_the_last() {
    let mut server = connected();
    write_data(&mut server, &[1]);
    server.gatt_server_task(write(SHOW, &[1]));
    let action = server.gatt_server_task(ServerEvent::Transmitted(TransmitOutcome::Rejected));
    assert!(matches!(action, ServerAction::Reply));
    assert!(awaits_event(server.gatt_server_task(ServerEvent::Done)));

    write_data(&mut server, &[1]);
    let action = server.gatt_server_task(write(SHOW, &[1]));
    assert!(matches!(action, ServerAction::Reply));
    assert!(server.pixel_buf.is_empty());
    assert!(!server.leds.channel_ready);
}

#[test]
fn server_ignores_what_it_did_not_wait_for() {
    let mut server = GattServer::new(DATA, SHOW);
    let action = server.gatt_server_task(write(DATA, &[1]));
    assert!(matches!(action, ServerAction::Nothing));
    assert!(server.pixel_buf.is_empty());
    assert_eq!(server.stage, ServerStage::Idle);
    let mut server = connected();
    let action = server.gatt_server_task(ServerEvent::Done);
    assert!(matches!(action, ServerAction::Nothing));
    assert_eq!(server.stage, ServerStage::Connected);
}

#[test]
fn delays_are_those_of_the_strip() {
    assert_eq!(STARTUP_DELAY_MS, 100);
    assert_eq!(RETRY_DELAY_MS, 1_000);
    assert_eq!(IDLE_TIMEOUT_MS, 60_000);
}

#[test]
fn colors_reach_the_strip() {
    let settings = Settings {
        rgb: true,
        device: "Spect".to_string(),
        colors: vec!["ff0000".to_string(), "00ff00".to_string()],
        verbose: false,
    };
    let mut client = match Session::new(settings) {
        Ok(client) => client,
        Err(complaint) => panic!("{complaint}"),
    };
    let mut device = connected();
    let mut shown: Option<usize> = None;
    let mut event = SessionEvent::Start;
    loop {
        event = match client.step(event).action {
            SessionAction::OpenAdapters => SessionEvent::Adapters(1),
            SessionAction::ReadAddress => SessionEvent::Address([0; 6]),
            SessionAction::ReadName => SessionEvent::Name(None),
            SessionAction::DiscoverServices => SessionEvent::Characteristics(vec![
                Characteristic { uuid: LED_DATA_UUID, properties: 4 },
                Characteristic { uuid: LED_SHOW_UUID, properties: 4 },
            ]),
            SessionAction::Write { characteristic: 0, bytes } => {
                for part in bytes.chunks(4) {
                    write_data(&mut device, part);
                }
                SessionEvent::Done
            }
            SessionAction::Write { bytes, .. } => {
                match device.gatt_server_task(write(SHOW, &bytes)) {
                    ServerAction::Transmit(count) => shown = Some(count),
                    _ => unreachable!(),
                }
                SessionEvent::Done
            }
            SessionAction::Finish => break,
            SessionAction::Fail(complaint) => panic!("{complaint}"),
            _ => SessionEvent::Done,
        };
    }
    assert_eq!(shown, Some(48));
    let mut expected = vec![HIGH_BIT; 8];
    expected.extend([LOW_BIT; 24]);
    expected.extend([HIGH_BIT; 8]);
    expected.extend([LOW_BIT; 8]);
    assert_eq!(device.leds.pulses[..48], expected);
}
