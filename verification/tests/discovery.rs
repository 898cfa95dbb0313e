use spect::client::discovery::{
    Search, SearchAction, SearchEvent, SearchStage, SearchStep, SCAN_PAUSE_MS,
};

const FIRST: [u8; 6] = [0x0a, 0xbc, 0xde, 0xf0, 0x12, 0x34];
const SECOND: [u8; 6] = [0x0a, 0xbc, 0xde, 0xf0, 0x12, 0x35];

fn named(name: &str) -> SearchEvent {
    SearchEvent::Name(Some(name.to_string()))
}

fn action(step: SearchStep) -> SearchAction {
    assert_eq!(step.line, None);
    step.action
}

fn listed(device_id: &str, verbose: bool, count: usize) -> (Search, SearchStep) {
    let mut search = Search::new(device_id.to_string(), verbose);
    assert_eq!(action(search.find_device(SearchEvent::Start)), SearchAction::List);
    let step = search.find_device(SearchEvent::Listed(count));
    (search, step)
}

#[test]
fn first_peripheral_with_the_name_is_taken() {
    let (mut search, step) = listed("Spect", false, 3);
    assert_eq!(action(step), SearchAction::ReadAddress(0));
    assert_eq!(action(search.find_device(SearchEvent::Address(FIRST))), SearchAction::ReadName(0));
    assert_eq!(
        action(search.find_device(SearchEvent::Name(None))),
        SearchAction::ReadAddress(1)
    );
    assert_eq!(action(search.find_device(SearchEvent::Address(SECOND))), SearchAction::ReadName(1));
    assert_eq!(action(search.find_device(named("Spect-Strip"))), SearchAction::Select(1));
    assert_eq!(search.stage, SearchStage::Found(1));
    assert_eq!(action(search.find_device(SearchEvent::Done)), SearchAction::Nothing);
}

#[test]
fn name_is_matched_by_its_beginning() {
    for (name, taken) in [
        ("Strip", true),
        ("Strip-Spect", true),
        ("Spect-Strip", false),
        ("strip", false),
        ("Stri", false),
    ] {
        let (mut search, step) = listed("Strip", false, 1);
        assert_eq!(action(step), SearchAction::ReadAddress(0));
        search.find_device(SearchEvent::Address(FIRST));
        let expected = if taken {
            SearchAction::Select(0)
        } else {
            SearchAction::Sleep(SCAN_PAUSE_MS)
        };
        assert_eq!(action(search.find_device(named(name))), expected);
    }
}

#[test]
fn full_address_selects_only_that_device() {
    let (mut search, step) = listed("0A:BC:DE:F0:12:35", false, 2);
    assert_eq!(action(step), SearchAction::ReadAddress(0));
    assert_eq!(
        action(search.find_device(SearchEvent::Address(FIRST))),
        SearchAction::ReadAddress(1)
    );
    assert_eq!(action(search.find_device(SearchEvent::Address(SECOND))), SearchAction::Select(1));
}

#[test]
fn address_is_matched_by_its_beginning() {
    for (device_id, taken) in [
        ("0A:", true),
        ("0A:BC:DE", true),
        ("0a:bc:de", false),
        ("BC:DE", false),
        (":", false),
        ("0A:BC:DE:F0:12:34:", false),
    ] {
        let (mut search, _) = listed(device_id, false, 1);
        let expected = if taken {
            SearchAction::Select(0)
        } else {
            SearchAction::Sleep(SCAN_PAUSE_MS)
        };
        assert_eq!(action(search.find_device(SearchEvent::Address(FIRST))), expected);
        assert_eq!(search.address, "0A:BC:DE:F0:12:34");
    }
}

#[test]
fn search_goes_on_after_a_pause() {
    assert_eq!(SCAN_PAUSE_MS, 500);
    let (mut search, step) = listed("Spect", false, 0);
    assert_eq!(action(step), SearchAction::Sleep(500));
    assert_eq!(action(search.find_device(SearchEvent::Done)), SearchAction::List);
    let step = search.find_device(SearchEvent::Listed(1));
    assert_eq!(action(step), SearchAction::ReadAddress(0));
}

#[test]
fn first_list_with_a_wanted_peripheral_ends_the_search() {
    let looks = [
        vec![],
        vec!["Other", "My Spect"],
        vec!["Other", "Spect-A", "Spect-B"],
        vec!["Spect-C"],
    ];
    for verbose in [false, true] {
        let mut search = Search::new("Spect".to_string(), verbose);
        let mut lists = 0;
        let mut pauses = 0;
        let mut event = SearchEvent::Start;
        let taken = loop {
            event = match search.find_device(event).action {
                SearchAction::List => {
                    lists += 1;
                    SearchEvent::Listed(looks[lists - 1].len())
                }
                SearchAction::ReadAddress(_) => SearchEvent::Address(FIRST),
                SearchAction::ReadName(i) => named(looks[lists - 1][i]),
                SearchAction::Sleep(_) => {
                    pauses += 1;
                    SearchEvent::Done
                }
                SearchAction::Select(i) => break i,
                SearchAction::Nothing => unreachable!(),
            };
        };
        assert_eq!(taken, 1);
        assert_eq!(lists, 3);
        assert_eq!(pauses, 2);
        assert_eq!(search.device_id, "Spect");
    }
}

#[test]
fn verbose_search_prints_the_peripherals() {
    let (mut search, step) = listed("Spect", true, 2);
    assert_eq!(step.line, Some("Found 2 peripheral(s)".to_string()));
    assert_eq!(step.action, SearchAction::ReadAddress(0));

    assert_eq!(action(search.find_device(SearchEvent::Address(FIRST))), SearchAction::ReadName(0));
    let step = search.find_device(SearchEvent::Name(None));
    assert_eq!(step.line, Some("  Device: unknown (addr: 0A:BC:DE:F0:12:34)".to_string()));
    assert_eq!(step.action, SearchAction::ReadName(0));
    assert_eq!(
        action(search.find_device(SearchEvent::Name(None))),
        SearchAction::ReadAddress(1)
    );

    assert_eq!(action(search.find_device(SearchEvent::Address(SECOND))), SearchAction::ReadName(1));
    let step = search.find_device(named("Spect-Strip"));
    assert_eq!(step.line, Some("  Device: Spect-Strip (addr: 0A:BC:DE:F0:12:35)".to_string()));
    assert_eq!(step.action, SearchAction::ReadName(1));
    assert_eq!(action(search.find_device(named("Spect-Strip"))), SearchAction::Select(1));
}

#[test]
fn verbose_search_by_address_reads_the_name_once() {
    let (mut search, step) = listed("0A:BC:DE:F0:12:35", true, 2);
    assert_eq!(step.line, Some("Found 2 peripheral(s)".to_string()));
    search.find_device(SearchEvent::Address(FIRST));
    let step = search.find_device(named("Other"));
    assert_eq!(step.line, Some("  Device: Other (addr: 0A:BC:DE:F0:12:34)".to_string()));
    assert_eq!(step.action, SearchAction::ReadAddress(1));
    search.find_device(SearchEvent::Address(SECOND));
    assert_eq!(search.find_device(named("Other")).action, SearchAction::Select(1));
}

#[test]
fn search_ignores_what_it_did_not_wait_for() {
    let mut search = Search::new("Spect".to_string(), true);
    assert_eq!(action(search.find_device(SearchEvent::Done)), SearchAction::Nothing);
    assert_eq!(search.stage, SearchStage::Idle);
    assert_eq!(search.address, "");
    assert_eq!(search.count, 0);
}
