//! A run of the client, from the colors on the command line to the strip.
//!
//! The session decides; the radio, the timer and the terminal belong to its
//! caller, who prints the lines, performs the action and hands back what came of
//! it.

use vstd::prelude::*;
use vstd::string::StringExecFns;

use crate::client::characteristics::{
    self, find_characteristic, properties_text, uuid_text, Characteristic, CharacteristicView,
    LED_DATA_UUID, LED_SHOW_UUID,
};
use crate::client::colors::{self, bytes_per_pixel, parse_colors};
use crate::client::discovery::{self, address_text, Search, SearchStage, SearchView};
use crate::text::{self, decimal_text};

verus! {

/// Milliseconds between the pixel data and the request to show it.
pub const SHOW_DELAY_MS: u64 = 50;

/// What is written to have the pixel data shown.
pub const SHOW_REQUEST: u8 = 1;

/// What the user asked for on the command line.
pub struct Settings {
    /// Three bytes for each pixel, not four.
    pub rgb: bool,
    /// The address of the device, or what its name begins with.
    pub device: String,
    /// A color for each pixel, in hexadecimal.
    pub colors: Vec<String>,
    /// Whether more is printed.
    pub verbose: bool,
}

/// What the session waits for.
#[derive(Clone, Copy, Debug, PartialEq, Eq, Structural)]
pub enum SessionStage {
    /// To be started.
    Idle,
    /// The Bluetooth adapters.
    Opening,
    /// The description of the first adapter.
    Describing,
    /// The scan to start.
    Scanning,
    /// The device to be found.
    Searching,
    /// The scan to stop.
    Stopping,
    /// The address of the device.
    Addressing,
    /// The name of the device.
    Naming,
    /// The connection.
    Connecting,
    /// The characteristics of the device.
    Discovering,
    /// The pixel data to be written; the place of the other characteristic.
    Sending(usize),
    /// The end of the pause; the place of the other characteristic.
    Pausing(usize),
    /// The request to be written.
    Showing,
    /// The device to be disconnected.
    Disconnecting,
    /// Nothing more.
    Ended,
}

/// What has happened.
pub enum SessionEvent {
    /// The session is to begin.
    Start,
    /// The last action is done.
    Done,
    /// There are so many Bluetooth adapters.
    Adapters(usize),
    /// The adapter describes itself so.
    AdapterInfo(String),
    /// The device has this address.
    Address([u8; 6]),
    /// The device has this name, if it tells one.
    Name(Option<String>),
    /// The device has these characteristics.
    Characteristics(Vec<Characteristic>),
}

/// The contents of a [`SessionEvent`].
pub enum SessionEventView {
    Start,
    Done,
    Adapters(usize),
    AdapterInfo(Seq<char>),
    Address(Seq<u8>),
    Name(Option<Seq<char>>),
    Characteristics(Seq<CharacteristicView>),
}

impl View for SessionEvent {
    type V = SessionEventView;

    open spec fn view(&self) -> SessionEventView {
        match *self {
            SessionEvent::Start => SessionEventView::Start,
            SessionEvent::Done => SessionEventView::Done,
            SessionEvent::Adapters(count) => SessionEventView::Adapters(count),
            SessionEvent::AdapterInfo(info) => SessionEventView::AdapterInfo(info@),
            SessionEvent::Address(address) => SessionEventView::Address(address@),
            SessionEvent::Name(name) => SessionEventView::Name(discovery::name_view(name)),
            SessionEvent::Characteristics(list) => SessionEventView::Characteristics(
                characteristics::views(list@),
            ),
        }
    }
}

/// What is to be done next.
pub enum SessionAction {
    /// Nothing: the session did not wait for what happened.
    Nothing,
    /// Open the Bluetooth adapters.
    OpenAdapters,
    /// Ask the first adapter for its description.
    DescribeAdapter,
    /// Start to scan with the first adapter.
    StartScan,
    /// Search for the device, with [`Session::search`].
    FindDevice,
    /// Stop the scan.
    StopScan,
    /// Read the address of the device.
    ReadAddress,
    /// Read the name of the device.
    ReadName,
    /// Connect to the device.
    Connect,
    /// Discover the services of the device.
    DiscoverServices,
    /// Write to a characteristic, known by its place in the list, without response.
    Write { characteristic: usize, bytes: Vec<u8> },
    /// Wait for this many milliseconds.
    Sleep(u64),
    /// Disconnect.
    Disconnect,
    /// End with success.
    Finish,
    /// Print the complaint and end with failure.
    Fail(String),
}

/// The contents of a [`SessionAction`].
pub enum SessionActionView {
    Nothing,
    OpenAdapters,
    DescribeAdapter,
    StartScan,
    FindDevice,
    StopScan,
    ReadAddress,
    ReadName,
    Connect,
    DiscoverServices,
    Write { characteristic: int, bytes: Seq<u8> },
    Sleep(u64),
    Disconnect,
    Finish,
    Fail(Seq<char>),
}

impl View for SessionAction {
    type V = SessionActionView;

    open spec fn view(&self) -> SessionActionView {
        match *self {
            SessionAction::Nothing => SessionActionView::Nothing,
            SessionAction::OpenAdapters => SessionActionView::OpenAdapters,
            SessionAction::DescribeAdapter => SessionActionView::DescribeAdapter,
            SessionAction::StartScan => SessionActionView::StartScan,
            SessionAction::FindDevice => SessionActionView::FindDevice,
            SessionAction::StopScan => SessionActionView::StopScan,
            SessionAction::ReadAddress => SessionActionView::ReadAddress,
            SessionAction::ReadName => SessionActionView::ReadName,
            SessionAction::Connect => SessionActionView::Connect,
            SessionAction::DiscoverServices => SessionActionView::DiscoverServices,
            SessionAction::Write { characteristic, bytes } => SessionActionView::Write {
                characteristic: characteristic as int,
                bytes: bytes@,
            },
            SessionAction::Sleep(ms) => SessionActionView::Sleep(ms),
            SessionAction::Disconnect => SessionActionView::Disconnect,
            SessionAction::Finish => SessionActionView::Finish,
            SessionAction::Fail(complaint) => SessionActionView::Fail(complaint@),
        }
    }
}

/// What is to be printed and then to be done.
pub struct SessionStep {
    pub lines: Vec<String>,
    pub action: SessionAction,
}

/// The contents of a [`SessionStep`].
pub struct SessionStepView {
    pub lines: Seq<Seq<char>>,
    pub action: SessionActionView,
}

/// The contents of a list of lines.
pub open spec fn lines_view(lines: Seq<String>) -> Seq<Seq<char>> {
    lines.map_values(|line: String| line@)
}

impl View for SessionStep {
    type V = SessionStepView;

    open spec fn view(&self) -> SessionStepView {
        SessionStepView { lines: lines_view(self.lines@), action: self.action@ }
    }
}

/// The session between two events.
pub struct Session {
    /// Three bytes for each pixel, not four.
    pub rgb: bool,
    /// What the user calls the device.
    pub device: String,
    /// Whether more is printed.
    pub verbose: bool,
    /// The pixel data.
    pub raw: Vec<u8>,
    /// What the session waits for.
    pub stage: SessionStage,
}

/// The contents of a [`Session`].
pub struct SessionView {
    pub rgb: bool,
    pub device: Seq<char>,
    pub verbose: bool,
    pub raw: Seq<u8>,
    pub stage: SessionStage,
}

impl View for Session {
    type V = SessionView;

    open spec fn view(&self) -> SessionView {
        SessionView {
            rgb: self.rgb,
            device: self.device@,
            verbose: self.verbose,
            raw: self.raw@,
            stage: self.stage,
        }
    }
}

/// The session goes to a stage, with lines to print and an action.
pub open spec fn go(
    s: SessionView,
    stage: SessionStage,
    lines: Seq<Seq<char>>,
    action: SessionActionView,
) -> (SessionView, SessionStepView) {
    (SessionView { stage, ..s }, SessionStepView { lines, action })
}

/// The line that tells what will be sent.
pub open spec fn connecting_line(s: SessionView) -> Seq<char> {
    "Connecting to '"@ + s.device + "'... ("@ + text::decimal(
        s.raw.len() / colors::pixel_bytes(s.rgb),
    ) + " pixel(s), "@ + text::decimal(s.raw.len()) + " bytes)"@
}

/// The line that describes a characteristic.
pub open spec fn characteristic_line(c: CharacteristicView) -> Seq<char> {
    "  UUID: "@ + characteristics::hyphenated(c.uuid) + " (props: "@
        + characteristics::properties_chars(c.properties) + ")"@
}

/// The lines that describe the characteristics, where they are wanted.
pub open spec fn characteristic_lines(verbose: bool, list: Seq<CharacteristicView>) -> Seq<
    Seq<char>,
> {
    if verbose {
        seq!["Found "@ + text::decimal(list.len()) + " characteristics:"@] + list.map_values(
            |c: CharacteristicView| characteristic_line(c),
        )
    } else {
        seq![]
    }
}

/// The complaint about a device without a characteristic.
pub open spec fn missing_complaint(what: Seq<char>, uuid: Seq<u8>) -> Seq<char> {
    what + " characteristic not found (looking for "@ + characteristics::hyphenated(uuid) + ")"@
}

/// The session knows the characteristics: it sends the pixel data, or ends where
/// one of the two that it needs is missing.
pub open spec fn discovered(s: SessionView, list: Seq<CharacteristicView>) -> (
    SessionView,
    SessionStepView,
) {
    let lines = characteristic_lines(s.verbose, list);
    match characteristics::first_with(list, LED_DATA_UUID@) {
        None => go(
            s,
            SessionStage::Ended,
            lines,
            SessionActionView::Fail(missing_complaint("LED_DATA"@, LED_DATA_UUID@)),
        ),
        Some(data) => match characteristics::first_with(list, LED_SHOW_UUID@) {
            None => go(
                s,
                SessionStage::Ended,
                lines,
                SessionActionView::Fail(missing_complaint("LED_SHOW"@, LED_SHOW_UUID@)),
            ),
            Some(show) => go(
                s,
                SessionStage::Sending(show as usize),
                lines.push("Sending pixel data..."@),
                SessionActionView::Write { characteristic: data, bytes: s.raw },
            ),
        },
    }
}

/// The session and its next step after an event.
pub open spec fn session_step(s: SessionView, event: SessionEventView) -> (
    SessionView,
    SessionStepView,
) {
    match (s.stage, event) {
        (SessionStage::Idle, SessionEventView::Start) => go(
            s,
            SessionStage::Opening,
            seq![connecting_line(s)],
            SessionActionView::OpenAdapters,
        ),
        (SessionStage::Opening, SessionEventView::Adapters(count)) => if count == 0 {
            go(
                s,
                SessionStage::Ended,
                seq![],
                SessionActionView::Fail("No BLE adapters found"@),
            )
        } else if s.verbose {
            go(s, SessionStage::Describing, seq![], SessionActionView::DescribeAdapter)
        } else {
            go(s, SessionStage::Scanning, seq![], SessionActionView::StartScan)
        },
        (SessionStage::Describing, SessionEventView::AdapterInfo(info)) => go(
            s,
            SessionStage::Scanning,
            seq!["Using adapter: "@ + info],
            SessionActionView::StartScan,
        ),
        (SessionStage::Scanning, SessionEventView::Done) => go(
            s,
            SessionStage::Searching,
            seq!["Scanning..."@],
            SessionActionView::FindDevice,
        ),
        (SessionStage::Searching, SessionEventView::Done) => go(
            s,
            SessionStage::Stopping,
            seq![],
            SessionActionView::StopScan,
        ),
        (SessionStage::Stopping, SessionEventView::Done) => go(
            s,
            SessionStage::Addressing,
            seq![],
            SessionActionView::ReadAddress,
        ),
        (SessionStage::Addressing, SessionEventView::Address(address)) => go(
            s,
            SessionStage::Naming,
            seq!["Found: "@ + discovery::address_chars(address)],
            SessionActionView::ReadName,
        ),
        (SessionStage::Naming, SessionEventView::Name(name)) => go(
            s,
            SessionStage::Connecting,
            match name {
                Some(n) => seq!["  Name: "@ + n, "Connecting..."@],
                None => seq!["Connecting..."@],
            },
            SessionActionView::Connect,
        ),
        (SessionStage::Connecting, SessionEventView::Done) => go(
            s,
            SessionStage::Discovering,
            seq!["Connected!"@, "Discovering services..."@],
            SessionActionView::DiscoverServices,
        ),
        (SessionStage::Discovering, SessionEventView::Characteristics(list)) => discovered(s, list),
        (SessionStage::Sending(show), SessionEventView::Done) => go(
            s,
            SessionStage::Pausing(show),
            seq![],
            SessionActionView::Sleep(SHOW_DELAY_MS),
        ),
        (SessionStage::Pausing(show), SessionEventView::Done) => go(
            s,
            SessionStage::Showing,
            seq!["Show!"@],
            SessionActionView::Write { characteristic: show as int, bytes: seq![SHOW_REQUEST] },
        ),
        (SessionStage::Showing, SessionEventView::Done) => go(
            s,
            SessionStage::Disconnecting,
            seq!["Done!"@],
            SessionActionView::Disconnect,
        ),
        (SessionStage::Disconnecting, SessionEventView::Done) => go(
            s,
            SessionStage::Ended,
            seq![],
            SessionActionView::Finish,
        ),
        _ => (s, SessionStepView { lines: seq![], action: SessionActionView::Nothing }),
    }
}

/// No lines to print.
fn no_lines() -> (lines: Vec<String>)
    ensures
        lines_view(lines@) == Seq::<Seq<char>>::empty(),
{
    let lines: Vec<String> = Vec::new();
    assert(lines_view(lines@) =~= seq![]);
    lines
}

/// One line to print.
fn one_line(line: String) -> (lines: Vec<String>)
    ensures
        lines_view(lines@) == seq![line@],
{
    let mut lines: Vec<String> = Vec::new();
    lines.push(line);
    assert(lines_view(lines@) =~= seq![line@]);
    lines
}

/// Another line to print after the others.
fn add_line(lines: &mut Vec<String>, line: String)
    ensures
        lines_view(final(lines)@) == lines_view(old(lines)@).push(line@),
{
    lines.push(line);
    assert(lines_view(lines@) =~= lines_view(old(lines)@).push(line@));
}

/// Two texts, one after the other.
fn join(first: &str, second: &str) -> (text: String)
    ensures
        text@ == first@ + second@,
{
    let mut text: String = first.to_owned();
    text.append(second);
    text
}

/// The complaint about a device without a characteristic.
fn complain_missing(what: &str, uuid: [u8; 16]) -> (complaint: String)
    ensures
        complaint@ == missing_complaint(what@, uuid@),
{
    let mut complaint: String = what.to_owned();
    complaint.append(" characteristic not found (looking for ");
    complaint.append(uuid_text(uuid).as_str());
    complaint.append(")");
    complaint
}

/// The line that describes a characteristic.
fn describe_characteristic(c: &Characteristic) -> (line: String)
    ensures
        line@ == characteristic_line(c@),
{
    let mut line: String = "  UUID: ".to_owned();
    line.append(uuid_text(c.uuid).as_str());
    line.append(" (props: ");
    line.append(properties_text(c.properties).as_str());
    line.append(")");
    line
}

/// The lines that describe the characteristics, where they are wanted.
fn describe_characteristics(verbose: bool, list: &Vec<Characteristic>) -> (lines: Vec<String>)
    ensures
        lines_view(lines@) == characteristic_lines(verbose, characteristics::views(list@)),
{
    if !verbose {
        return no_lines();
    }
    let ghost all = characteristic_lines(verbose, characteristics::views(list@));
    let mut heading: String = "Found ".to_owned();
    heading.append(decimal_text(list.len()).as_str());
    heading.append(" characteristics:");
    let mut lines: Vec<String> = one_line(heading);
    let mut i: usize = 0;
    assert(lines_view(lines@) =~= all.take(1));
    while i < list.len()
        invariant
            i <= list@.len(),
            verbose,
            all == characteristic_lines(verbose, characteristics::views(list@)),
            lines_view(lines@) == all.take(i + 1),
        decreases list@.len() - i,
    {
        let line: String = describe_characteristic(&list[i]);
        assert(all[i + 1] == line@);
        add_line(&mut lines, line);
        assert(lines_view(lines@) =~= all.take(i + 2));
        i += 1;
    }
    assert(all.take(i + 1) =~= all);
    lines
}

impl Session {
    /// A session that has not begun, with the pixel data that the colors stand
    /// for, or the complaint about the first color that stands for nothing.
    pub fn new(settings: Settings) -> (result: Result<Session, String>)
        requires
            colors::colors_separable(settings.rgb, settings.colors@),
        ensures
            result matches Ok(session) ==> {
                &&& colors::colors_value(
                    settings.rgb,
                    settings.colors@,
                    settings.colors@.len(),
                ) == Ok::<Seq<u8>, Seq<char>>(session@.raw)
                &&& session@.rgb == settings.rgb
                &&& session@.device == settings.device@
                &&& session@.verbose == settings.verbose
                &&& session@.stage == SessionStage::Idle
            },
            result matches Err(e) ==> colors::colors_value(
                settings.rgb,
                settings.colors@,
                settings.colors@.len(),
            ) == Err::<Seq<u8>, Seq<char>>(e@),
    {
        match parse_colors(settings.rgb, &settings.colors) {
            Ok(raw) => Ok(
                Session {
                    rgb: settings.rgb,
                    device: settings.device,
                    verbose: settings.verbose,
                    raw,
                    stage: SessionStage::Idle,
                },
            ),
            Err(complaint) => Err(complaint),
        }
    }

    /// The search for the device that the user asked for, which has not begun and
    /// prints the peripherals where more is to be printed.
    pub fn search(&self) -> (search: Search)
        ensures
            search@ == (SearchView {
                device_id: self@.device,
                verbose: self@.verbose,
                count: 0,
                address: seq![],
                stage: SearchStage::Idle,
            }),
    {
        Search::new(self.device.as_str().to_owned(), self.verbose)
    }

    fn go(&mut self, stage: SessionStage, lines: Vec<String>, action: SessionAction) -> (step:
        SessionStep)
        ensures
            (final(self)@, step@) == go(old(self)@, stage, lines_view(lines@), action@),
    {
        self.stage = stage;
        SessionStep { lines, action }
    }

    /// The line that tells what will be sent.
    fn announce(&self) -> (line: String)
        ensures
            line@ == connecting_line(self@),
    {
        let n_pixels: usize = self.raw.len() / bytes_per_pixel(self.rgb);
        let mut line: String = "Connecting to '".to_owned();
        line.append(self.device.as_str());
        line.append("'... (");
        line.append(decimal_text(n_pixels).as_str());
        line.append(" pixel(s), ");
        line.append(decimal_text(self.raw.len()).as_str());
        line.append(" bytes)");
        line
    }

    fn discovered(&mut self, list: &Vec<Characteristic>) -> (step: SessionStep)
        ensures
            (final(self)@, step@) == discovered(old(self)@, characteristics::views(list@)),
    {
        let mut lines: Vec<String> = describe_characteristics(self.verbose, list);
        match find_characteristic(list, &LED_DATA_UUID) {
            None => {
                let complaint: String = complain_missing("LED_DATA", LED_DATA_UUID);
                self.go(SessionStage::Ended, lines, SessionAction::Fail(complaint))
            },
            Some(data) => match find_characteristic(list, &LED_SHOW_UUID) {
                None => {
                    let complaint: String = complain_missing("LED_SHOW", LED_SHOW_UUID);
                    self.go(SessionStage::Ended, lines, SessionAction::Fail(complaint))
                },
                Some(show) => {
                    add_line(&mut lines, "Sending pixel data...".to_owned());
                    let bytes: Vec<u8> = self.raw.clone();
                    assert(bytes@ =~= self.raw@);
                    self.go(
                        SessionStage::Sending(show),
                        lines,
                        SessionAction::Write { characteristic: data, bytes },
                    )
                },
            },
        }
    }

    /// Takes notice of an event and decides what is to be printed and done next.
    pub fn step(&mut self, event: SessionEvent) -> (step: SessionStep)
        ensures
            (final(self)@, step@) == session_step(old(self)@, event@),
    {
        match (self.stage, event) {
            (SessionStage::Idle, SessionEvent::Start) => {
                let line: String = self.announce();
                self.go(SessionStage::Opening, one_line(line), SessionAction::OpenAdapters)
            },
            (SessionStage::Opening, SessionEvent::Adapters(count)) => {
                if count == 0 {
                    self.go(
                        SessionStage::Ended,
                        no_lines(),
                        SessionAction::Fail("No BLE adapters found".to_owned()),
                    )
                } else if self.verbose {
                    self.go(SessionStage::Describing, no_lines(), SessionAction::DescribeAdapter)
                } else {
                    self.go(SessionStage::Scanning, no_lines(), SessionAction::StartScan)
                }
            },
            (SessionStage::Describing, SessionEvent::AdapterInfo(info)) => self.go(
                SessionStage::Scanning,
                one_line(join("Using adapter: ", info.as_str())),
                SessionAction::StartScan,
            ),
            (SessionStage::Scanning, SessionEvent::Done) => self.go(
                SessionStage::Searching,
                one_line("Scanning...".to_owned()),
                SessionAction::FindDevice,
            ),
            (SessionStage::Searching, SessionEvent::Done) => self.go(
                SessionStage::Stopping,
                no_lines(),
                SessionAction::StopScan,
            ),
            (SessionStage::Stopping, SessionEvent::Done) => self.go(
                SessionStage::Addressing,
                no_lines(),
                SessionAction::ReadAddress,
            ),
            (SessionStage::Addressing, SessionEvent::Address(address)) => self.go(
                SessionStage::Naming,
                one_line(join("Found: ", address_text(address).as_str())),
                SessionAction::ReadName,
            ),
            (SessionStage::Naming, SessionEvent::Name(name)) => {
                let mut lines: Vec<String> = match name {
                    Some(n) => one_line(join("  Name: ", n.as_str())),
                    None => no_lines(),
                };
                add_line(&mut lines, "Connecting...".to_owned());
                assert(lines_view(lines@) =~= match discovery::name_view(name) {
                    Some(n) => seq!["  Name: "@ + n, "Connecting..."@],
                    None => seq!["Connecting..."@],
                });
                self.go(SessionStage::Connecting, lines, SessionAction::Connect)
            },
            (SessionStage::Connecting, SessionEvent::Done) => {
                let mut lines: Vec<String> = one_line("Connected!".to_owned());
                add_line(&mut lines, "Discovering services...".to_owned());
                assert(lines_view(lines@) =~= seq!["Connected!"@, "Discovering services..."@]);
                self.go(SessionStage::Discovering, lines, SessionAction::DiscoverServices)
            },
            (SessionStage::Discovering, SessionEvent::Characteristics(list)) => self.discovered(
                &list,
            ),
            (SessionStage::Sending(show), SessionEvent::Done) => self.go(
                SessionStage::Pausing(show),
                no_lines(),
                SessionAction::Sleep(SHOW_DELAY_MS),
            ),
            (SessionStage::Pausing(show), SessionEvent::Done) => {
                let mut bytes: Vec<u8> = Vec::new();
                bytes.push(SHOW_REQUEST);
                assert(bytes@ =~= seq![SHOW_REQUEST]);
                self.go(
                    SessionStage::Showing,
                    one_line("Show!".to_owned()),
                    SessionAction::Write { characteristic: show, bytes },
                )
            },
            (SessionStage::Showing, SessionEvent::Done) => self.go(
                SessionStage::Disconnecting,
                one_line("Done!".to_owned()),
                SessionAction::Disconnect,
            ),
            (SessionStage::Disconnecting, SessionEvent::Done) => self.go(
                SessionStage::Ended,
                no_lines(),
                SessionAction::Finish,
            ),
            _ => SessionStep { lines: no_lines(), action: SessionAction::Nothing },
        }
    }
}

/// No event changes what is sent, to which device, or how.
pub proof fn law_session_keeps_its_data(s: SessionView, event: SessionEventView)
    ensures
        session_step(s, event).0 == (SessionView { stage: session_step(s, event).0.stage, ..s }),
{
}

/// A device with both characteristics is written all of the pixel data, then,
/// after a pause, the request to show it, and nothing else; then it is
/// disconnected.
pub proof fn law_show_follows_data(
    s: SessionView,
    list: Seq<CharacteristicView>,
    data: int,
    show: int,
)
    requires
        s.stage == SessionStage::Discovering,
        list.len() <= usize::MAX,
        characteristics::is_first_with(list, LED_DATA_UUID@, data),
        characteristics::is_first_with(list, LED_SHOW_UUID@, show),
    ensures
        ({
            let sent = session_step(s, SessionEventView::Characteristics(list));
            let paused = session_step(sent.0, SessionEventView::Done);
            let shown = session_step(paused.0, SessionEventView::Done);
            let left = session_step(shown.0, SessionEventView::Done);
            let ended = session_step(left.0, SessionEventView::Done);
            &&& sent.1.action == SessionActionView::Write { characteristic: data, bytes: s.raw }
            &&& paused.1.action == SessionActionView::Sleep(SHOW_DELAY_MS)
            &&& shown.1.action == SessionActionView::Write {
                characteristic: show,
                bytes: seq![SHOW_REQUEST],
            }
            &&& left.1.action == SessionActionView::Disconnect
            &&& ended.1.action == SessionActionView::Finish
        }),
{
    characteristics::lemma_first_is_unique(list, LED_DATA_UUID@, data);
    characteristics::lemma_first_is_unique(list, LED_SHOW_UUID@, show);
}

/// A device that lacks one of the two characteristics is not written to: the
/// session ends.
pub proof fn law_nothing_is_sent_elsewhere(s: SessionView, list: Seq<CharacteristicView>)
    requires
        s.stage == SessionStage::Discovering,
        characteristics::none_with(list, LED_DATA_UUID@) || characteristics::none_with(
            list,
            LED_SHOW_UUID@,
        ),
    ensures
        session_step(s, SessionEventView::Characteristics(list)).1.action is Fail,
        session_step(s, SessionEventView::Characteristics(list)).0.stage == SessionStage::Ended,
{
}

/// A session that has ended stays as it is, and has nothing more to print or to
/// do. Success and failure both end it.
pub proof fn law_end_is_final(s: SessionView, event: SessionEventView)
    ensures
        s.stage == SessionStage::Ended ==> session_step(s, event) == (
            s,
            SessionStepView { lines: seq![], action: SessionActionView::Nothing },
        ),
        session_step(s, event).1.action is Finish || session_step(s, event).1.action is Fail
            ==> session_step(s, event).0.stage == SessionStage::Ended,
{
}

/// Where there is an adapter, the session scans with it, searches for the device,
/// stops to scan, connects and asks for the characteristics, in this order,
/// whatever the adapter and the device are called.
pub proof fn law_run_reaches_the_device(
    s: SessionView,
    adapters: usize,
    info: Seq<char>,
    address: Seq<u8>,
    name: Option<Seq<char>>,
)
    requires
        s.stage == SessionStage::Idle,
        adapters > 0,
    ensures
        ({
            let begun = session_step(s, SessionEventView::Start);
            let opened = session_step(begun.0, SessionEventView::Adapters(adapters));
            let ready = if s.verbose {
                session_step(opened.0, SessionEventView::AdapterInfo(info))
            } else {
                opened
            };
            let scanning = session_step(ready.0, SessionEventView::Done);
            let found = session_step(scanning.0, SessionEventView::Done);
            let stopped = session_step(found.0, SessionEventView::Done);
            let addressed = session_step(stopped.0, SessionEventView::Address(address));
            let named = session_step(addressed.0, SessionEventView::Name(name));
            let connected = session_step(named.0, SessionEventView::Done);
            &&& begun.1.action is OpenAdapters
            &&& s.verbose ==> opened.1.action is DescribeAdapter
            &&& ready.1.action is StartScan
            &&& scanning.1.action is FindDevice
            &&& found.1.action is StopScan
            &&& stopped.1.action is ReadAddress
            &&& addressed.1.action is ReadName
            &&& named.1.action is Connect
            &&& connected.1.action is DiscoverServices
            &&& connected.0 == (SessionView { stage: SessionStage::Discovering, ..s })
        }),
{
}

/// Lines describe a list of characteristics: how many there are, then each with its
/// UUID and its properties. There are none where they are not wanted.
pub open spec fn describe(
    lines: Seq<Seq<char>>,
    verbose: bool,
    list: Seq<CharacteristicView>,
) -> bool {
    if verbose {
        &&& lines.len() == 1 + list.len()
        &&& lines[0] == "Found "@ + text::decimal(list.len()) + " characteristics:"@
        &&& forall|i: int|
            0 <= i < list.len() ==> lines[i + 1] == "  UUID: "@ + characteristics::hyphenated(
                (#[trigger] list[i]).uuid,
            ) + " (props: "@ + characteristics::properties_chars(list[i].properties) + ")"@
    } else {
        lines.len() == 0
    }
}

/// A run says what it does: what it will send and to which device, the adapter where
/// more is to be printed, the address of the device and its name where it tells one,
/// and each step on the way.
pub proof fn law_run_says_what_it_does(
    s: SessionView,
    adapters: usize,
    info: Seq<char>,
    address: Seq<u8>,
    name: Option<Seq<char>>,
)
    requires
        s.stage == SessionStage::Idle,
        adapters > 0,
    ensures
        ({
            let width: nat = if s.rgb {
                3
            } else {
                4
            };
            let begun = session_step(s, SessionEventView::Start);
            let opened = session_step(begun.0, SessionEventView::Adapters(adapters));
            let ready = if s.verbose {
                session_step(opened.0, SessionEventView::AdapterInfo(info))
            } else {
                opened
            };
            let scanning = session_step(ready.0, SessionEventView::Done);
            let found = session_step(scanning.0, SessionEventView::Done);
            let stopped = session_step(found.0, SessionEventView::Done);
            let addressed = session_step(stopped.0, SessionEventView::Address(address));
            let named = session_step(addressed.0, SessionEventView::Name(name));
            let connected = session_step(named.0, SessionEventView::Done);
            &&& begun.1.lines == seq![
                "Connecting to '"@ + s.device + "'... ("@ + text::decimal(s.raw.len() / width)
                    + " pixel(s), "@ + text::decimal(s.raw.len()) + " bytes)"@,
            ]
            &&& opened.1.lines == Seq::<Seq<char>>::empty()
            &&& s.verbose ==> ready.1.lines == seq!["Using adapter: "@ + info]
            &&& scanning.1.lines == seq!["Scanning..."@]
            &&& found.1.lines == Seq::<Seq<char>>::empty()
            &&& stopped.1.lines == Seq::<Seq<char>>::empty()
            &&& addressed.1.lines == seq!["Found: "@ + discovery::address_chars(address)]
            &&& named.1.lines == if name is Some {
                seq!["  Name: "@ + name.unwrap(), "Connecting..."@]
            } else {
                seq!["Connecting..."@]
            }
            &&& connected.1.lines == seq!["Connected!"@, "Discovering services..."@]
        }),
{
}

/// A run that is given colors says how many there are, each a pixel, and how many
/// bytes they stand for.
pub proof fn law_pixels_are_counted(s: SessionView, given: Seq<String>)
    requires
        s.stage == SessionStage::Idle,
        colors::colors_value(s.rgb, given, given.len()) == Ok::<Seq<u8>, Seq<char>>(s.raw),
    ensures
        session_step(s, SessionEventView::Start).1.lines == seq![
            "Connecting to '"@ + s.device + "'... ("@ + text::decimal(given.len())
                + " pixel(s), "@ + text::decimal(
                if s.rgb {
                    3 * given.len()
                } else {
                    4 * given.len()
                },
            ) + " bytes)"@,
        ],
{
    colors::law_colors_fill_pixels(s.rgb, given, given.len());
}

/// A run without an adapter fails and says so.
pub proof fn law_run_needs_an_adapter(s: SessionView)
    requires
        s.stage == SessionStage::Opening,
    ensures
        session_step(s, SessionEventView::Adapters(0)) == (
            SessionView { stage: SessionStage::Ended, ..s },
            SessionStepView {
                lines: seq![],
                action: SessionActionView::Fail("No BLE adapters found"@),
            },
        ),
{
}

/// The characteristics are described before anything is done with them. Where the
/// first with each of the two UUIDs stands at a place, the pixel data goes to the
/// one and the request to the other; where one of them is missing, the complaint
/// names it, the one for pixel data before the other.
pub proof fn law_characteristics_decide(s: SessionView, list: Seq<CharacteristicView>)
    requires
        s.stage == SessionStage::Discovering,
        list.len() <= usize::MAX,
    ensures
        ({
            let next = session_step(s, SessionEventView::Characteristics(list));
            let no_data = forall|j: int|
                0 <= j < list.len() ==> (#[trigger] list[j]).uuid != LED_DATA_UUID@;
            let no_show = forall|j: int|
                0 <= j < list.len() ==> (#[trigger] list[j]).uuid != LED_SHOW_UUID@;
            if no_data {
                &&& describe(next.1.lines, s.verbose, list)
                &&& next.0.stage == SessionStage::Ended
                &&& next.1.action == SessionActionView::Fail(
                    "LED_DATA"@ + " characteristic not found (looking for "@
                        + characteristics::hyphenated(LED_DATA_UUID@) + ")"@,
                )
            } else if no_show {
                &&& describe(next.1.lines, s.verbose, list)
                &&& next.0.stage == SessionStage::Ended
                &&& next.1.action == SessionActionView::Fail(
                    "LED_SHOW"@ + " characteristic not found (looking for "@
                        + characteristics::hyphenated(LED_SHOW_UUID@) + ")"@,
                )
            } else {
                &&& next.1.lines.len() > 0
                &&& describe(next.1.lines.drop_last(), s.verbose, list)
                &&& next.1.lines.last() == "Sending pixel data..."@
                &&& next.1.action matches SessionActionView::Write { characteristic, bytes }
                &&& bytes == s.raw
                &&& 0 <= characteristic < list.len()
                &&& list[characteristic].uuid == LED_DATA_UUID@
                &&& forall|j: int|
                    0 <= j < characteristic ==> (#[trigger] list[j]).uuid != LED_DATA_UUID@
                &&& next.0.stage matches SessionStage::Sending(show)
                &&& show < list.len()
                &&& list[show as int].uuid == LED_SHOW_UUID@
                &&& forall|j: int| 0 <= j < show ==> (#[trigger] list[j]).uuid != LED_SHOW_UUID@
            }
        }),
{
    let lines = characteristic_lines(s.verbose, list);
    assert(lines.push("Sending pixel data..."@).drop_last() =~= lines);
    match characteristics::first_with(list, LED_DATA_UUID@) {
        Some(i) => {
            let j = choose|j: int| 0 <= j < list.len() && (#[trigger] list[j]).uuid == LED_DATA_UUID@;
            characteristics::law_first_is_found(list, LED_DATA_UUID@, j);
            characteristics::law_first_is_found(list, LED_DATA_UUID@, i);
        },
        None => {},
    }
    match characteristics::first_with(list, LED_SHOW_UUID@) {
        Some(i) => {
            let j = choose|j: int| 0 <= j < list.len() && (#[trigger] list[j]).uuid == LED_SHOW_UUID@;
            characteristics::law_first_is_found(list, LED_SHOW_UUID@, j);
            characteristics::law_first_is_found(list, LED_SHOW_UUID@, i);
        },
        None => {},
    }
}

/// After the pixel data has been written, the session pauses, asks the other
/// characteristic to show it, disconnects and ends, and says so.
pub proof fn law_session_shows_and_leaves(s: SessionView, show: usize)
    requires
        s.stage == SessionStage::Sending(show),
    ensures
        ({
            let paused = session_step(s, SessionEventView::Done);
            let shown = session_step(paused.0, SessionEventView::Done);
            let left = session_step(shown.0, SessionEventView::Done);
            let ended = session_step(left.0, SessionEventView::Done);
            &&& paused.1 == (SessionStepView {
                lines: seq![],
                action: SessionActionView::Sleep(SHOW_DELAY_MS),
            })
            &&& shown.1 == (SessionStepView {
                lines: seq!["Show!"@],
                action: SessionActionView::Write {
                    characteristic: show as int,
                    bytes: seq![SHOW_REQUEST],
                },
            })
            &&& left.1 == (SessionStepView {
                lines: seq!["Done!"@],
                action: SessionActionView::Disconnect,
            })
            &&& ended.1 == (SessionStepView { lines: seq![], action: SessionActionView::Finish })
            &&& ended.0 == (SessionView { stage: SessionStage::Ended, ..s })
        }),
{
}

/// The session waits for this event.
pub open spec fn awaits(stage: SessionStage, event: SessionEventView) -> bool {
    match event {
        SessionEventView::Start => stage is Idle,
        SessionEventView::Adapters(_) => stage is Opening,
        SessionEventView::AdapterInfo(_) => stage is Describing,
        SessionEventView::Address(_) => stage is Addressing,
        SessionEventView::Name(_) => stage is Naming,
        SessionEventView::Characteristics(_) => stage is Discovering,
        SessionEventView::Done => {
            ||| stage is Scanning
            ||| stage is Searching
            ||| stage is Stopping
            ||| stage is Connecting
            ||| stage is Sending
            ||| stage is Pausing
            ||| stage is Showing
            ||| stage is Disconnecting
        },
    }
}

/// An event that the session did not wait for changes nothing and has nothing
/// printed, and any other is followed by an action.
pub proof fn law_session_acts_on_what_it_awaits(s: SessionView, event: SessionEventView)
    ensures
        !awaits(s.stage, event) ==> session_step(s, event) == (
            s,
            SessionStepView { lines: seq![], action: SessionActionView::Nothing },
        ),
        awaits(s.stage, event) ==> !(session_step(s, event).1.action is Nothing),
{
}

} // verus!
