//! The search for the strip among the peripherals in range.
//!
//! The search decides; the radio and the timer belong to its caller, who performs
//! each action and hands back what came of it. A device is named by its address,
//! or by what its name begins with.

use btleplug::api::BDAddr;
use vstd::prelude::*;
use vstd::string::StringExecFns;

use crate::text::{self, contains_char, decimal_text, starts_with};

verus! {

/// Milliseconds between two looks at the peripherals in range.
pub const SCAN_PAUSE_MS: u64 = 500;

/// An address as text: six bytes in upper case, with colons between them.
pub open spec fn address_chars(address: Seq<u8>) -> Seq<char> {
    Seq::new(
        17,
        |i: int|
            if i % 3 == 0 {
                text::hex_char(address[i / 3] / 16, true)
            } else if i % 3 == 1 {
                text::hex_char(address[i / 3] % 16, true)
            } else {
                ':'
            },
    )
}

/// Calls `to_string` on `btleplug`'s `BDAddr` of these bytes.
///
/// It is taken to write them in upper case, two digits each, with colons between
/// them.
#[verifier::external_body]
pub(crate) fn address_text(address: [u8; 6]) -> (text: String)
    ensures
        text@ == address_chars(address@),
{
    BDAddr::from(address).to_string()
}

/// A device is named by its address, not by its name.
pub open spec fn names_address(device_id: Seq<char>) -> bool {
    device_id.contains(':')
}

/// A peripheral is the one that was asked for.
pub open spec fn is_wanted(
    device_id: Seq<char>,
    address: Seq<u8>,
    name: Option<Seq<char>>,
) -> bool {
    if names_address(device_id) {
        device_id.is_prefix_of(address_chars(address))
    } else {
        has_prefix(name, device_id)
    }
}

/// There is a name, and it begins with a text.
pub open spec fn has_prefix(name: Option<Seq<char>>, prefix: Seq<char>) -> bool {
    match name {
        Some(n) => prefix.is_prefix_of(n),
        None => false,
    }
}

/// What the search waits for. A peripheral is known by its place in the list.
#[derive(Clone, Copy, Debug, PartialEq, Eq, Structural)]
pub enum SearchStage {
    /// To be started.
    Idle,
    /// The list of the peripherals in range.
    Listing,
    /// The address of a peripheral.
    Addressing(usize),
    /// The name of a peripheral, to be printed.
    Describing(usize),
    /// The name of a peripheral, to be compared.
    Naming(usize),
    /// The end of the pause.
    Pausing,
    /// Nothing more: this peripheral is the one.
    Found(usize),
}

/// What has happened.
pub enum SearchEvent {
    /// The search is to begin.
    Start,
    /// So many peripherals are in range.
    Listed(usize),
    /// The peripheral has this address.
    Address([u8; 6]),
    /// The peripheral has this name, if it tells one.
    Name(Option<String>),
    /// The pause is over.
    Done,
}

/// The contents of a [`SearchEvent`].
pub enum SearchEventView {
    Start,
    Listed(usize),
    Address(Seq<u8>),
    Name(Option<Seq<char>>),
    Done,
}

/// The contents of a name that may not be there.
pub open spec fn name_view(name: Option<String>) -> Option<Seq<char>> {
    match name {
        Some(n) => Some(n@),
        None => None,
    }
}

impl View for SearchEvent {
    type V = SearchEventView;

    open spec fn view(&self) -> SearchEventView {
        match *self {
            SearchEvent::Start => SearchEventView::Start,
            SearchEvent::Listed(count) => SearchEventView::Listed(count),
            SearchEvent::Address(address) => SearchEventView::Address(address@),
            SearchEvent::Name(name) => SearchEventView::Name(name_view(name)),
            SearchEvent::Done => SearchEventView::Done,
        }
    }
}

/// What is to be done next.
#[derive(Clone, Copy, Debug, PartialEq, Eq, Structural)]
pub enum SearchAction {
    /// Nothing: the search did not wait for what happened.
    Nothing,
    /// List the peripherals in range.
    List,
    /// Read the address of this peripheral.
    ReadAddress(usize),
    /// Read the name of this peripheral.
    ReadName(usize),
    /// Wait for this many milliseconds.
    Sleep(u64),
    /// Take this peripheral.
    Select(usize),
}

/// What is to be printed, if anything, and then to be done.
pub struct SearchStep {
    pub line: Option<String>,
    pub action: SearchAction,
}

/// The contents of a [`SearchStep`].
pub struct SearchStepView {
    pub line: Option<Seq<char>>,
    pub action: SearchAction,
}

impl View for SearchStep {
    type V = SearchStepView;

    open spec fn view(&self) -> SearchStepView {
        SearchStepView { line: name_view(self.line), action: self.action }
    }
}

/// The search between two events.
pub struct Search {
    /// What the user calls the device.
    pub device_id: String,
    /// Whether the peripherals are printed.
    pub verbose: bool,
    /// How many peripherals the last list held.
    pub count: usize,
    /// The last address that was read, as text.
    pub address: String,
    /// What the search waits for.
    pub stage: SearchStage,
}

/// The contents of a [`Search`].
pub struct SearchView {
    pub device_id: Seq<char>,
    pub verbose: bool,
    pub count: usize,
    pub address: Seq<char>,
    pub stage: SearchStage,
}

impl View for Search {
    type V = SearchView;

    open spec fn view(&self) -> SearchView {
        SearchView {
            device_id: self.device_id@,
            verbose: self.verbose,
            count: self.count,
            address: self.address@,
            stage: self.stage,
        }
    }
}

/// The search goes to a stage with an action.
pub open spec fn go(s: SearchView, stage: SearchStage, action: SearchAction) -> (
    SearchView,
    SearchAction,
) {
    (SearchView { stage, ..s }, action)
}

/// The search looks at a peripheral, or pauses where there is none at that place.
pub open spec fn look_at(s: SearchView, index: int) -> (SearchView, SearchAction) {
    if index < s.count {
        go(s, SearchStage::Addressing(index as usize), SearchAction::ReadAddress(index as usize))
    } else {
        go(s, SearchStage::Pausing, SearchAction::Sleep(SCAN_PAUSE_MS))
    }
}

/// The search takes a peripheral that is the one, or looks at the next.
pub open spec fn take_or_next(s: SearchView, index: usize, wanted: bool) -> (
    SearchView,
    SearchAction,
) {
    if wanted {
        go(s, SearchStage::Found(index), SearchAction::Select(index))
    } else {
        look_at(s, index + 1)
    }
}

/// The search compares the address, or reads the name to compare.
pub open spec fn compare_address(s: SearchView, index: usize) -> (SearchView, SearchAction) {
    if names_address(s.device_id) {
        take_or_next(s, index, s.device_id.is_prefix_of(s.address))
    } else {
        go(s, SearchStage::Naming(index), SearchAction::ReadName(index))
    }
}

/// The line that tells how many peripherals are in range.
pub open spec fn count_line(count: nat) -> Seq<char> {
    "Found "@ + text::decimal(count) + " peripheral(s)"@
}

/// The line that describes a peripheral.
pub open spec fn device_line(name: Option<Seq<char>>, address: Seq<char>) -> Seq<char> {
    "  Device: "@ + (match name {
        Some(n) => n,
        None => "unknown"@,
    }) + " (addr: "@ + address + ")"@
}

/// The search and its next action after an event, without what is printed.
pub open spec fn search_action(s: SearchView, event: SearchEventView) -> (
    SearchView,
    SearchAction,
) {
    match (s.stage, event) {
        (SearchStage::Idle, SearchEventView::Start) => go(
            s,
            SearchStage::Listing,
            SearchAction::List,
        ),
        (SearchStage::Listing, SearchEventView::Listed(count)) => look_at(
            SearchView { count, ..s },
            0,
        ),
        (SearchStage::Addressing(index), SearchEventView::Address(address)) => {
            let t = SearchView { address: address_chars(address), ..s };
            if s.verbose {
                go(t, SearchStage::Describing(index), SearchAction::ReadName(index))
            } else {
                compare_address(t, index)
            }
        },
        (SearchStage::Describing(index), SearchEventView::Name(name)) => compare_address(s, index),
        (SearchStage::Naming(index), SearchEventView::Name(name)) => take_or_next(
            s,
            index,
            has_prefix(name, s.device_id),
        ),
        (SearchStage::Pausing, SearchEventView::Done) => go(
            s,
            SearchStage::Listing,
            SearchAction::List,
        ),
        _ => (s, SearchAction::Nothing),
    }
}

/// What is printed after an event.
pub open spec fn search_line(s: SearchView, event: SearchEventView) -> Option<Seq<char>> {
    match (s.stage, event) {
        (SearchStage::Listing, SearchEventView::Listed(count)) => if s.verbose {
            Some(count_line(count as nat))
        } else {
            None
        },
        (SearchStage::Describing(index), SearchEventView::Name(name)) => Some(
            device_line(name, s.address),
        ),
        _ => None,
    }
}

impl Search {
    /// A search that has not begun.
    pub fn new(device_id: String, verbose: bool) -> (search: Search)
        ensures
            search@ == (SearchView {
                device_id: device_id@,
                verbose,
                count: 0,
                address: seq![],
                stage: SearchStage::Idle,
            }),
    {
        let search = Search {
            device_id,
            verbose,
            count: 0,
            address: String::new(),
            stage: SearchStage::Idle,
        };
        assert(search@.address =~= seq![]);
        search
    }

    fn go(&mut self, stage: SearchStage, action: SearchAction) -> (next: SearchAction)
        ensures
            (final(self)@, next) == go(old(self)@, stage, action),
    {
        self.stage = stage;
        action
    }

    fn take_or_next(&mut self, index: usize, wanted: bool) -> (next: SearchAction)
        ensures
            (final(self)@, next) == take_or_next(old(self)@, index, wanted),
    {
        if wanted {
            self.go(SearchStage::Found(index), SearchAction::Select(index))
        } else if index < self.count && self.count - index > 1 {
            self.go(SearchStage::Addressing(index + 1), SearchAction::ReadAddress(index + 1))
        } else {
            self.go(SearchStage::Pausing, SearchAction::Sleep(SCAN_PAUSE_MS))
        }
    }

    fn compare_address(&mut self, index: usize) -> (next: SearchAction)
        ensures
            (final(self)@, next) == compare_address(old(self)@, index),
    {
        if contains_char(self.device_id.as_str(), ':') {
            let wanted: bool = starts_with(self.address.as_str(), self.device_id.as_str());
            self.take_or_next(index, wanted)
        } else {
            self.go(SearchStage::Naming(index), SearchAction::ReadName(index))
        }
    }

    /// Takes notice of an event and decides what is to be printed and done next.
    pub fn find_device(&mut self, event: SearchEvent) -> (step: SearchStep)
        ensures
            (final(self)@, step@.action) == search_action(old(self)@, event@),
            step@.line == search_line(old(self)@, event@),
    {
        match (self.stage, event) {
            (SearchStage::Idle, SearchEvent::Start) => {
                let action: SearchAction = self.go(SearchStage::Listing, SearchAction::List);
                SearchStep { line: None, action }
            },
            (SearchStage::Listing, SearchEvent::Listed(count)) => {
                self.count = count;
                let line: Option<String> = if self.verbose {
                    let mut line: String = "Found ".to_owned();
                    line.append(decimal_text(count).as_str());
                    line.append(" peripheral(s)");
                    Some(line)
                } else {
                    None
                };
                let action: SearchAction = if count > 0 {
                    self.go(SearchStage::Addressing(0), SearchAction::ReadAddress(0))
                } else {
                    self.go(SearchStage::Pausing, SearchAction::Sleep(SCAN_PAUSE_MS))
                };
                SearchStep { line, action }
            },
            (SearchStage::Addressing(index), SearchEvent::Address(address)) => {
                self.address = address_text(address);
                let action: SearchAction = if self.verbose {
                    self.go(SearchStage::Describing(index), SearchAction::ReadName(index))
                } else {
                    self.compare_address(index)
                };
                SearchStep { line: None, action }
            },
            (SearchStage::Describing(index), SearchEvent::Name(name)) => {
                let mut line: String = "  Device: ".to_owned();
                match name {
                    Some(n) => line.append(n.as_str()),
                    None => line.append("unknown"),
                }
                line.append(" (addr: ");
                line.append(self.address.as_str());
                line.append(")");
                let action: SearchAction = self.compare_address(index);
                SearchStep { line: Some(line), action }
            },
            (SearchStage::Naming(index), SearchEvent::Name(name)) => {
                let wanted: bool = match name {
                    Some(n) => starts_with(n.as_str(), self.device_id.as_str()),
                    None => false,
                };
                let action: SearchAction = self.take_or_next(index, wanted);
                SearchStep { line: None, action }
            },
            (SearchStage::Pausing, SearchEvent::Done) => {
                let action: SearchAction = self.go(SearchStage::Listing, SearchAction::List);
                SearchStep { line: None, action }
            },
            _ => SearchStep { line: None, action: SearchAction::Nothing },
        }
    }
}

/// Hexadecimal digits in upper case differ where their values do.
proof fn lemma_hex_chars(a: u8, b: u8)
    requires
        a < 16,
        b < 16,
    ensures
        text::hex_char(a, true) == text::hex_char(b, true) ==> a == b,
{
}

/// A device that is named by the whole text of an address is the one with that
/// address, and no other.
pub proof fn law_full_address_is_exact(
    wanted: Seq<u8>,
    address: Seq<u8>,
    name: Option<Seq<char>>,
)
    requires
        wanted.len() == 6,
        address.len() == 6,
    ensures
        is_wanted(address_chars(wanted), address, name) <==> wanted == address,
{
    let id = address_chars(wanted);
    assert(id[2] == ':');
    assert(names_address(id));
    if id.is_prefix_of(address_chars(address)) {
        assert(id =~= address_chars(address));
        assert forall|i: int| 0 <= i < 6 implies wanted[i] == address[i] by {
            assert(id[3 * i] == address_chars(address)[3 * i]);
            assert(id[3 * i + 1] == address_chars(address)[3 * i + 1]);
            assert((3 * i) / 3 == i && (3 * i) % 3 == 0);
            assert((3 * i + 1) / 3 == i && (3 * i + 1) % 3 == 1);
            lemma_hex_chars(wanted[i] / 16, address[i] / 16);
            lemma_hex_chars(wanted[i] % 16, address[i] % 16);
        }
        assert(wanted =~= address);
    }
}

/// What a look at the peripherals in range finds: their addresses, and the names
/// that they tell, `shown` where they are to be printed and `names` where they are
/// to be compared.
pub struct Look {
    pub addresses: Seq<Seq<u8>>,
    pub shown: Seq<Option<Seq<char>>>,
    pub names: Seq<Option<Seq<char>>>,
}

/// A look tells the same number of addresses and names, as many as a list can hold.
pub open spec fn is_look(look: Look) -> bool {
    &&& look.addresses.len() <= usize::MAX
    &&& look.shown.len() == look.addresses.len()
    &&& look.names.len() == look.addresses.len()
}

/// Peripheral `i` of a look is the one that was asked for.
pub open spec fn wanted_at(device_id: Seq<char>, look: Look, i: int) -> bool {
    is_wanted(device_id, look.addresses[i], look.names[i])
}

/// No peripheral of a look, from a place on, is the one that was asked for.
pub open spec fn none_wanted(device_id: Seq<char>, look: Look, from: int) -> bool {
    forall|j: int|
        from <= j < look.addresses.len() ==> !#[trigger] wanted_at(device_id, look, j)
}

/// Peripheral `i` is the first of a look, from a place on, that was asked for.
pub open spec fn is_first_wanted(device_id: Seq<char>, look: Look, from: int, i: int) -> bool {
    &&& from <= i < look.addresses.len()
    &&& wanted_at(device_id, look, i)
    &&& forall|j: int| from <= j < i ==> !#[trigger] wanted_at(device_id, look, j)
}

/// A search under way: its last action, and how many times it has listed the
/// peripherals in range.
pub struct SearchRun {
    pub search: SearchView,
    pub action: SearchAction,
    pub lists: int,
}

/// What comes of the last action, where look `k` is what list `k` shows.
pub open spec fn answer(run: SearchRun, looks: Seq<Look>) -> SearchEventView {
    let look = looks[run.lists - 1];
    match run.action {
        SearchAction::List => SearchEventView::Listed(look.addresses.len() as usize),
        SearchAction::ReadAddress(i) => SearchEventView::Address(look.addresses[i as int]),
        SearchAction::ReadName(i) => SearchEventView::Name(
            if run.search.stage is Describing {
                look.shown[i as int]
            } else {
                look.names[i as int]
            },
        ),
        _ => SearchEventView::Done,
    }
}

/// A search after an event.
pub open spec fn advance(run: SearchRun, event: SearchEventView) -> SearchRun {
    let (search, action) = search_action(run.search, event);
    SearchRun {
        search,
        action,
        lists: if action is List {
            run.lists + 1
        } else {
            run.lists
        },
    }
}

/// A search after it has been told what came of its next `n` actions.
pub open spec fn run_after(run: SearchRun, looks: Seq<Look>, n: nat) -> SearchRun
    decreases n,
{
    if n == 0 {
        run
    } else {
        let before = run_after(run, looks, (n - 1) as nat);
        advance(before, answer(before, looks))
    }
}

/// A search that has just begun.
pub open spec fn begun(s: SearchView) -> SearchRun {
    advance(SearchRun { search: s, action: SearchAction::Nothing, lists: 0 }, SearchEventView::Start)
}

/// None of the first `n` actions of a run lists or takes a peripheral.
pub open spec fn only_looks(run: SearchRun, looks: Seq<Look>, n: nat) -> bool {
    forall|m: nat|
        m < n ==> {
            &&& !((#[trigger] run_after(run, looks, m)).action is List)
            &&& !(run_after(run, looks, m).action is Select)
        }
}

/// None of the first `n` actions of a run takes a peripheral.
pub open spec fn none_taken(run: SearchRun, looks: Seq<Look>, n: nat) -> bool {
    forall|m: nat| m < n ==> !((#[trigger] run_after(run, looks, m)).action is Select)
}

/// A run has come to the end of a look: it has taken the first peripheral that was
/// asked for, or it pauses where there is none.
pub open spec fn ends_look(run: SearchRun, look: Look, from: int) -> bool {
    match run.action {
        SearchAction::Select(i) => {
            &&& run.search.stage == SearchStage::Found(i)
            &&& is_first_wanted(run.search.device_id, look, from, i as int)
        },
        SearchAction::Sleep(ms) => {
            &&& ms == SCAN_PAUSE_MS
            &&& run.search.stage == SearchStage::Pausing
            &&& none_wanted(run.search.device_id, look, from)
        },
        _ => false,
    }
}

/// A run goes on where it was.
proof fn lemma_run_goes_on(run: SearchRun, looks: Seq<Look>, a: nat, b: nat)
    ensures
        run_after(run_after(run, looks, a), looks, b) == run_after(run, looks, a + b),
    decreases b,
{
    if b > 0 {
        lemma_run_goes_on(run, looks, a, (b - 1) as nat);
        assert((a + b - 1) as nat == a + (b - 1) as nat);
    }
}

/// The actions of a run that goes on are those of both parts.
proof fn lemma_actions_go_on(run: SearchRun, looks: Seq<Look>, a: nat, b: nat)
    ensures
        only_looks(run, looks, a) && only_looks(run_after(run, looks, a), looks, b) ==> only_looks(
            run,
            looks,
            a + b,
        ),
        none_taken(run, looks, a) && none_taken(run_after(run, looks, a), looks, b) ==> none_taken(
            run,
            looks,
            a + b,
        ),
{
    let rest = run_after(run, looks, a);
    assert forall|m: nat| a <= m < a + b implies #[trigger] run_after(run, looks, m) == run_after(
        rest,
        looks,
        (m - a) as nat,
    ) by {
        lemma_run_goes_on(run, looks, a, (m - a) as nat);
    }
}

/// A run at a peripheral takes it, or looks at the next.
proof fn lemma_look_once(run: SearchRun, looks: Seq<Look>, index: int) -> (n: nat)
    requires
        1 <= run.lists <= looks.len(),
        is_look(looks[run.lists - 1]),
        run.search.count == looks[run.lists - 1].addresses.len(),
        0 <= index < run.search.count,
        (run.search, run.action) == look_at(run.search, index),
    ensures
        ({
            let end = run_after(run, looks, n);
            let wanted = wanted_at(run.search.device_id, looks[run.lists - 1], index);
            &&& (end.search, end.action) == take_or_next(end.search, index as usize, wanted)
            &&& end.lists == run.lists
            &&& end.search.count == run.search.count
            &&& end.search.device_id == run.search.device_id
            &&& end.search.verbose == run.search.verbose
        }),
        only_looks(run, looks, n),
{
    let id = run.search.device_id;
    let addressed = advance(run, answer(run, looks));
    assert(run_after(run, looks, 0) == run);
    assert(run_after(run, looks, 1) == addressed);
    let described = advance(addressed, answer(addressed, looks));
    assert(run_after(run, looks, 2) == described);
    if run.search.verbose {
        if names_address(id) {
            2
        } else {
            let named = advance(described, answer(described, looks));
            assert(run_after(run, looks, 3) == named);
            3
        }
    } else if names_address(id) {
        1
    } else {
        2
    }
}

/// A run at a place of a look comes to its end.
proof fn lemma_look_from(run: SearchRun, looks: Seq<Look>, index: int) -> (n: nat)
    requires
        1 <= run.lists <= looks.len(),
        is_look(looks[run.lists - 1]),
        run.search.count == looks[run.lists - 1].addresses.len(),
        0 <= index <= run.search.count,
        (run.search, run.action) == look_at(run.search, index),
    ensures
        ({
            let end = run_after(run, looks, n);
            &&& ends_look(end, looks[run.lists - 1], index)
            &&& end.lists == run.lists
            &&& end.search.device_id == run.search.device_id
            &&& end.search.verbose == run.search.verbose
        }),
        only_looks(run, looks, n),
    decreases run.search.count - index,
{
    let look = looks[run.lists - 1];
    if index == run.search.count {
        0
    } else {
        let once = lemma_look_once(run, looks, index);
        if wanted_at(run.search.device_id, look, index) {
            once
        } else {
            let next = run_after(run, looks, once);
            let rest = lemma_look_from(next, looks, index + 1);
            lemma_run_goes_on(run, looks, once, rest);
            lemma_actions_go_on(run, looks, once, rest);
            once + rest
        }
    }
}

/// A look at the peripherals in range takes the first of them that is the one that
/// was asked for, and no other. Where none is, it ends with a pause. It comes to
/// that end without another list. Whether the peripherals are printed makes no
/// difference.
pub proof fn law_pass_selects_first(run: SearchRun, looks: Seq<Look>) -> (n: nat)
    requires
        run.search.stage == SearchStage::Listing,
        run.action == SearchAction::List,
        1 <= run.lists <= looks.len(),
        is_look(looks[run.lists - 1]),
    ensures
        n > 0,
        ({
            let end = run_after(run, looks, n);
            &&& ends_look(end, looks[run.lists - 1], 0)
            &&& end.lists == run.lists
            &&& end.search.device_id == run.search.device_id
            &&& end.search.verbose == run.search.verbose
        }),
        only_looks(run_after(run, looks, 1), looks, (n - 1) as nat),
        none_taken(run, looks, n),
{
    let first = advance(run, answer(run, looks));
    assert(run_after(run, looks, 0) == run);
    assert(run_after(run, looks, 1) == first);
    let rest = lemma_look_from(first, looks, 0);
    lemma_run_goes_on(run, looks, 1, rest);
    lemma_actions_go_on(run, looks, 1, rest);
    1 + rest
}

/// A pause is followed by another look at the peripherals in range: the search
/// ends with a peripheral or not at all.
pub proof fn law_search_goes_on(s: SearchView, event: SearchEventView)
    requires
        search_action(s, event).1 == SearchAction::Sleep(SCAN_PAUSE_MS),
    ensures
        search_action(search_action(s, event).0, SearchEventView::Done) == (
            SearchView { stage: SearchStage::Listing, ..search_action(s, event).0 },
            SearchAction::List,
        ),
{
}

/// Lists without a wanted peripheral are followed by another list.
pub proof fn law_search_lists_until_found(s: SearchView, looks: Seq<Look>, count: int) -> (n: nat)
    requires
        s.stage == SearchStage::Idle,
        0 <= count <= looks.len(),
        forall|k: int| 0 <= k < count ==> is_look(#[trigger] looks[k]),
        forall|k: int| 0 <= k < count ==> none_wanted(s.device_id, #[trigger] looks[k], 0),
    ensures
        ({
            let end = run_after(begun(s), looks, n);
            &&& end.search.stage == SearchStage::Listing
            &&& end.action == SearchAction::List
            &&& end.lists == count + 1
            &&& end.search.device_id == s.device_id
            &&& end.search.verbose == s.verbose
        }),
        none_taken(begun(s), looks, n),
    decreases count,
{
    if count == 0 {
        0
    } else {
        let before = law_search_lists_until_found(s, looks, count - 1);
        let listing = run_after(begun(s), looks, before);
        let look = looks[count - 1];
        let pass = law_pass_selects_first(listing, looks);
        let end = run_after(listing, looks, pass);
        assert(end.action is Sleep) by {
            if let SearchAction::Select(i) = end.action {
                assert(wanted_at(s.device_id, look, i as int));
            }
        }
        lemma_run_goes_on(begun(s), looks, before, pass);
        lemma_actions_go_on(begun(s), looks, before, pass);
        let n = before + pass + 1;
        assert(run_after(begun(s), looks, n) == advance(end, answer(end, looks)));
        n
    }
}

/// A search takes a peripheral from the first list that shows one that was asked
/// for, and takes the first such of that list. Until then it takes none, and it
/// has listed the peripherals just so many times, and asked for the same device
/// throughout.
pub proof fn law_search_takes_first(s: SearchView, looks: Seq<Look>, found: int, i: int) -> (n: nat)
    requires
        s.stage == SearchStage::Idle,
        0 <= found < looks.len(),
        forall|k: int| 0 <= k <= found ==> is_look(#[trigger] looks[k]),
        forall|k: int| 0 <= k < found ==> none_wanted(s.device_id, #[trigger] looks[k], 0),
        is_first_wanted(s.device_id, looks[found], 0, i),
    ensures
        ({
            let end = run_after(begun(s), looks, n);
            &&& end.action == SearchAction::Select(i as usize)
            &&& end.search.stage == SearchStage::Found(i as usize)
            &&& end.lists == found + 1
            &&& end.search.device_id == s.device_id
        }),
        none_taken(begun(s), looks, n),
{
    let before = law_search_lists_until_found(s, looks, found);
    let listing = run_after(begun(s), looks, before);
    let pass = law_pass_selects_first(listing, looks);
    let end = run_after(listing, looks, pass);
    assert(wanted_at(s.device_id, looks[found], i));
    if let SearchAction::Select(j) = end.action {
        assert(wanted_at(s.device_id, looks[found], j as int));
        assert(j == i);
    }
    lemma_run_goes_on(begun(s), looks, before, pass);
    lemma_actions_go_on(begun(s), looks, before, pass);
    before + pass
}

/// An address as text is its bytes in their order, two digits in upper case each,
/// with colons between them.
pub proof fn law_address_is_its_digits(address: Seq<u8>, i: int)
    requires
        address.len() == 6,
        0 <= i < 6,
    ensures
        address_chars(address).len() == 17,
        address_chars(address)[3 * i] == "0123456789ABCDEF"@[address[i] as int / 16],
        address_chars(address)[3 * i + 1] == "0123456789ABCDEF"@[address[i] as int % 16],
        i < 5 ==> address_chars(address)[3 * i + 2] == ':',
{
    text::lemma_hex_char_is_digit(address[i] / 16);
    text::lemma_hex_char_is_digit(address[i] % 16);
    assert((3 * i) / 3 == i && (3 * i) % 3 == 0);
    assert((3 * i + 1) / 3 == i && (3 * i + 1) % 3 == 1);
    assert((3 * i + 2) % 3 == 2);
}

/// A device that is not named by an address is wanted where its name begins with
/// the text that was asked for, whatever follows and whatever its address, and
/// nowhere else. One that tells no name is not wanted.
pub proof fn law_name_is_matched_by_its_beginning(
    device_id: Seq<char>,
    address: Seq<u8>,
    name: Seq<char>,
    more: Seq<char>,
)
    requires
        !device_id.contains(':'),
    ensures
        is_wanted(device_id, address, Some(device_id + more)),
        is_wanted(device_id, address, Some(name)) <==> device_id.len() <= name.len() && name.take(
            device_id.len() as int,
        ) == device_id,
        !is_wanted(device_id, address, None),
{
    assert(device_id =~= (device_id + more).subrange(0, device_id.len() as int));
}

/// A device that is named by an address is wanted where the text of its address
/// begins with what was asked for, whatever its name, and nowhere else.
pub proof fn law_address_is_matched_by_its_beginning(
    device_id: Seq<char>,
    address: Seq<u8>,
    name: Option<Seq<char>>,
)
    requires
        device_id.contains(':'),
    ensures
        is_wanted(device_id, address, name) <==> device_id.len() <= address_chars(address).len()
            && address_chars(address).take(device_id.len() as int) == device_id,
{
}

/// The search waits for this event.
pub open spec fn awaits(stage: SearchStage, event: SearchEventView) -> bool {
    match event {
        SearchEventView::Start => stage is Idle,
        SearchEventView::Listed(_) => stage is Listing,
        SearchEventView::Address(_) => stage is Addressing,
        SearchEventView::Name(_) => stage is Describing || stage is Naming,
        SearchEventView::Done => stage is Pausing,
    }
}

/// An event that the search did not wait for changes nothing, and any other is
/// followed by an action. A line comes only of a list, or of a name that was read to
/// be printed. No event changes what is searched for.
pub proof fn law_search_acts_on_what_it_awaits(s: SearchView, event: SearchEventView)
    ensures
        !awaits(s.stage, event) ==> search_action(s, event) == (s, SearchAction::Nothing)
            && search_line(s, event) is None,
        awaits(s.stage, event) ==> !(search_action(s, event).1 is Nothing),
        search_line(s, event) is Some ==> s.stage is Listing && s.verbose || s.stage is Describing,
        search_action(s, event).0.device_id == s.device_id,
        search_action(s, event).0.verbose == s.verbose,
{
}

/// A search that is to print tells how many peripherals are in range, and then of
/// each its name, or that it is unknown, and its address.
pub proof fn law_verbose_search_prints(
    s: SearchView,
    count: usize,
    index: usize,
    address: Seq<u8>,
    name: Option<Seq<char>>,
)
    requires
        s.verbose,
    ensures
        s.stage == SearchStage::Listing ==> search_line(s, SearchEventView::Listed(count)) == Some(
            "Found "@ + text::decimal(count as nat) + " peripheral(s)"@,
        ),
        s.stage == SearchStage::Addressing(index) ==> {
            let read = search_action(s, SearchEventView::Address(address));
            &&& search_line(s, SearchEventView::Address(address)) is None
            &&& read.1 == SearchAction::ReadName(index)
            &&& search_line(read.0, SearchEventView::Name(name)) == Some(
                "  Device: "@ + (if name is Some {
                    name.unwrap()
                } else {
                    "unknown"@
                }) + " (addr: "@ + address_chars(address) + ")"@,
            )
        },
{
}

/// A search that is not to print never prints, nor reads a name to print it.
pub proof fn law_quiet_search_prints_nothing(run: SearchRun, looks: Seq<Look>, n: nat)
    requires
        !run.search.verbose,
        !(run.search.stage is Describing),
    ensures
        ({
            let now = run_after(run, looks, n);
            &&& !now.search.verbose
            &&& !(now.search.stage is Describing)
            &&& search_line(now.search, answer(now, looks)) is None
        }),
    decreases n,
{
    if n > 0 {
        law_quiet_search_prints_nothing(run, looks, (n - 1) as nat);
    }
}

} // verus!
