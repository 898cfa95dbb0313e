use spect::client::characteristics::{
    find_characteristic, Characteristic, LED_DATA_UUID, LED_SHOW_UUID,
};
use spect::client::discovery::SearchStage;
use spect::client::session::{
    Session, SessionAction, SessionEvent, SessionStage, SessionStep, Settings, SHOW_DELAY_MS,
    SHOW_REQUEST,
};

const ADDRESS: [u8; 6] = [0x00, 0x1f, 0xab, 0xcd, 0xe9, 0x90];

fn characteristic(uuid: [u8; 16], properties: u8) -> Characteristic {
    Characteristic { uuid, properties }
}

fn both_characteristics() -> Vec<Characteristic> {
    vec![
        characteristic([0; 16], 0x02),
        characteristic(LED_SHOW_UUID, 0x04),
        characteristic(LED_DATA_UUID, 0x0c),
        characteristic(LED_DATA_UUID, 0x00),
    ]
}

fn session(rgb: bool, colors: &[&str], verbose: bool) -> Session {
    let settings = Settings {
        rgb,
        device: "Spect".to_string(),
        colors: colors.iter().map(|c| c.to_string()).collect(),
        verbose,
    };
    match Session::new(settings) {
        Ok(session) => session,
        Err(complaint) => panic!("{complaint}"),
    }
}

fn no_more_lines(step: SessionStep) -> SessionAction {
    assert!(step.lines.is_empty());
    step.action
}

fn discovering(verbose: bool) -> Session {
    let mut session = session(true, &["010203"], verbose);
    session.step(SessionEvent::Start);
    session.step(SessionEvent::Adapters(1));
    if verbose {
        session.step(SessionEvent::AdapterInfo("hci0".to_string()));
    }
    session.step(SessionEvent::Done);
    session.step(SessionEvent::Done);
    session.step(SessionEvent::Done);
    session.step(SessionEvent::Address(ADDRESS));
    session.step(SessionEvent::Name(None));
    session.step(SessionEvent::Done);
    assert_eq!(session.stage, SessionStage::Discovering);
    session
}

#[test]
fn colors_are_read_before_anything_else() {
    let settings = Settings {
        rgb: false,
        device: "Spect".to_string(),
        colors: vec!["010203".to_string()],
        verbose: false,
    };
    let result = Session::new(settings);
    assert!(matches!(
        result,
        Err(complaint) if complaint == "error: expected 8 hex chars, got 6: 010203"
    ));
}

#[test]
fn run_goes_from_the_adapter_to_the_end() {
    let mut session = session(true, &["010203", "a0b0c0"], false);
    assert_eq!(session.raw, vec![1, 2, 3, 0xa0, 0xb0, 0xc0]);

    let step = session.step(SessionEvent::Start);
    assert_eq!(step.lines, vec!["Connecting to 'Spect'... (2 pixel(s), 6 bytes)"]);
    assert!(matches!(step.action, SessionAction::OpenAdapters));

    let action = no_more_lines(session.step(SessionEvent::Adapters(2)));
    assert!(matches!(action, SessionAction::StartScan));

    let step = session.step(SessionEvent::Done);
    assert_eq!(step.lines, vec!["Scanning..."]);
    assert!(matches!(step.action, SessionAction::FindDevice));

    let action = no_more_lines(session.step(SessionEvent::Done));
    assert!(matches!(action, SessionAction::StopScan));

    let action = no_more_lines(session.step(SessionEvent::Done));
    assert!(matches!(action, SessionAction::ReadAddress));

    let step = session.step(SessionEvent::Address(ADDRESS));
    assert_eq!(step.lines, vec!["Found: 00:1F:AB:CD:E9:90"]);
    assert!(matches!(step.action, SessionAction::ReadName));

    let step = session.step(SessionEvent::Name(Some("Spect-Strip".to_string())));
    assert_eq!(step.lines, vec!["  Name: Spect-Strip", "Connecting..."]);
    assert!(matches!(step.action, SessionAction::Connect));

    let step = session.step(SessionEvent::Done);
    assert_eq!(step.lines, vec!["Connected!", "Discovering services..."]);
    assert!(matches!(step.action, SessionAction::DiscoverServices));

    let step = session.step(SessionEvent::Characteristics(both_characteristics()));
    assert_eq!(step.lines, vec!["Sending pixel data..."]);
    assert!(matches!(
        step.action,
        SessionAction::Write { characteristic: 2, bytes } if bytes == [1, 2, 3, 0xa0, 0xb0, 0xc0]
    ));

    let action = no_more_lines(session.step(SessionEvent::Done));
    assert!(matches!(action, SessionAction::Sleep(50)));

    let step = session.step(SessionEvent::Done);
    assert_eq!(step.lines, vec!["Show!"]);
    assert!(matches!(
        step.action,
        SessionAction::Write { characteristic: 1, bytes } if bytes == [1]
    ));

    let step = session.step(SessionEvent::Done);
    assert_eq!(step.lines, vec!["Done!"]);
    assert!(matches!(step.action, SessionAction::Disconnect));

    let action = no_more_lines(session.step(SessionEvent::Done));
    assert!(matches!(action, SessionAction::Finish));
    let action = no_more_lines(session.step(SessionEvent::Done));
    assert!(matches!(action, SessionAction::Nothing));
    assert_eq!(session.stage, SessionStage::Ended);
    assert_eq!(session.raw, vec![1, 2, 3, 0xa0, 0xb0, 0xc0]);
}

#[test]
fn search_is_for_the_device_of_the_session() {
    for verbose in [false, true] {
        let search = session(true, &["010203"], verbose).search();
        assert_eq!(search.device_id, "Spect");
        assert_eq!(search.verbose, verbose);
        assert_eq!(search.stage, SearchStage::Idle);
    }
}

#[test]
fn pixels_are_counted_by_their_bytes() {
    let mut session = session(false, &["01020304"], false);
    let step = session.step(SessionEvent::Start);
    assert_eq!(step.lines, vec!["Connecting to 'Spect'... (1 pixel(s), 4 bytes)"]);
}

#[test]
fn run_without_an_adapter_fails() {
    let mut session = session(true, &["010203"], true);
    session.step(SessionEvent::Start);
    let action = no_more_lines(session.step(SessionEvent::Adapters(0)));
    assert!(matches!(action, SessionAction::Fail(e) if e == "No BLE adapters found"));
    let action = no_more_lines(session.step(SessionEvent::Start));
    assert!(matches!(action, SessionAction::Nothing));
}

#[test]
fn verbose_run_describes_the_adapter() {
    let mut session = session(true, &["010203"], true);
    session.step(SessionEvent::Start);
    let action = no_more_lines(session.step(SessionEvent::Adapters(1)));
    assert!(matches!(action, SessionAction::DescribeAdapter));
    let step = session.step(SessionEvent::AdapterInfo("hci0 (usb)".to_string()));
    assert_eq!(step.lines, vec!["Using adapter: hci0 (usb)"]);
    assert!(matches!(step.action, SessionAction::StartScan));
}

#[test]
fn device_without_a_name_is_connected_too() {
    let mut session = session(true, &["010203"], false);
    session.step(SessionEvent::Start);
    session.step(SessionEvent::Adapters(1));
    session.step(SessionEvent::Done);
    session.step(SessionEvent::Done);
    session.step(SessionEvent::Done);
    session.step(SessionEvent::Address(ADDRESS));
    let step = session.step(SessionEvent::Name(None));
    assert_eq!(step.lines, vec!["Connecting..."]);
    assert!(matches!(step.action, SessionAction::Connect));
}

#[test]
fn verbose_run_describes_the_characteristics() {
    let mut session = discovering(true);
    let step = session.step(SessionEvent::Characteristics(both_characteristics()));
    assert_eq!(step.lines, vec![
        "Found 4 characteristics:",
        "  UUID: 00000000-0000-0000-0000-000000000000 (props: CharPropFlags(READ))",
        "  UUID: f0debc9a-7856-3412-7856-3412dfccbbaa (props: CharPropFlags(WRITE_WITHOUT_RESPONSE))",
        "  UUID: f0debc9a-7856-3412-7856-3412deccbbaa (props: CharPropFlags(WRITE_WITHOUT_RESPONSE | WRITE))",
        "  UUID: f0debc9a-7856-3412-7856-3412deccbbaa (props: CharPropFlags(0x0))",
        "Sending pixel data...",
    ]);
}

#[test]
fn all_properties_have_names() {
    let mut session = discovering(true);
    let list = vec![characteristic([0; 16], 0xff), characteristic([0; 16], 0x80)];
    let step = session.step(SessionEvent::Characteristics(list));
    assert_eq!(step.lines[1], "  UUID: 00000000-0000-0000-0000-000000000000 (props: \
        CharPropFlags(BROADCAST | READ | WRITE_WITHOUT_RESPONSE | WRITE | NOTIFY | INDICATE | \
        AUTHENTICATED_SIGNED_WRITES | EXTENDED_PROPERTIES))");
    assert_eq!(step.lines[2], "  UUID: 00000000-0000-0000-0000-000000000000 (props: \
        CharPropFlags(EXTENDED_PROPERTIES))");
}

#[test]
fn device_without_the_data_characteristic_is_not_written_to() {
    let mut session = discovering(false);
    let list = vec![characteristic(LED_SHOW_UUID, 4)];
    let action = no_more_lines(session.step(SessionEvent::Characteristics(list)));
    assert!(matches!(
        action,
        SessionAction::Fail(e) if e == "LED_DATA characteristic not found \
            (looking for f0debc9a-7856-3412-7856-3412deccbbaa)"
    ));
    assert_eq!(session.stage, SessionStage::Ended);
}

#[test]
fn device_without_the_show_characteristic_is_not_written_to() {
    let mut session = discovering(false);
    let list = vec![characteristic(LED_DATA_UUID, 4)];
    let action = no_more_lines(session.step(SessionEvent::Characteristics(list)));
    assert!(matches!(
        action,
        SessionAction::Fail(e) if e == "LED_SHOW characteristic not found \
            (looking for f0debc9a-7856-3412-7856-3412dfccbbaa)"
    ));
    let action = no_more_lines(session.step(SessionEvent::Done));
    assert!(matches!(action, SessionAction::Nothing));
}

#[test]
fn data_characteristic_is_missed_first() {
    let mut session = discovering(false);
    let action = no_more_lines(session.step(SessionEvent::Characteristics(vec![])));
    assert!(matches!(action, SessionAction::Fail(e) if e.starts_with("LED_DATA ")));
}

#[test]
fn first_characteristic_with_the_uuid_is_found() {
    let list = both_characteristics();
    assert_eq!(find_characteristic(&list, &LED_DATA_UUID), Some(2));
    assert_eq!(find_characteristic(&list, &LED_SHOW_UUID), Some(1));
    assert_eq!(find_characteristic(&list, &[1; 16]), None);
    assert_eq!(find_characteristic(&vec![], &LED_DATA_UUID), None);
}

#[test]
fn pause_and_request_are_what_the_strip_expects() {
    assert_eq!(SHOW_DELAY_MS, 50);
    assert_eq!(SHOW_REQUEST, 1);
}
