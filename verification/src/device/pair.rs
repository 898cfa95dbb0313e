//! Advertising for a first connection, as the counter demo does.

use crate::device::advertising::{self, advertise_name, Advertisement, AdvertisementView};
use vstd::prelude::*;

verus! {

/// What has happened while the device waits to be found.
#[derive(Clone, Copy, Debug, PartialEq, Eq, Structural)]
pub enum PairEvent {
    /// Nothing yet.
    Begin,
    /// The radio advertises.
    Advertising,
    /// The radio could not advertise.
    AdvertiseFailed,
}

/// What is to be done next.
pub enum PairAction {
    /// Advertise this.
    Advertise(Advertisement),
    /// Return: the device can be found.
    Finish,
    /// Return the radio's error.
    Fail,
}

/// The contents of a [`PairAction`].
pub enum PairActionView {
    Advertise(AdvertisementView),
    Finish,
    Fail,
}

impl View for PairAction {
    type V = PairActionView;

    open spec fn view(&self) -> PairActionView {
        match *self {
            PairAction::Advertise(adv) => PairActionView::Advertise(adv@),
            PairAction::Finish => PairActionView::Finish,
            PairAction::Fail => PairActionView::Fail,
        }
    }
}

/// The name of the counter demo, as bytes.
pub open spec fn counter_name() -> Seq<u8> {
    vstd::utf8::encode_utf8("ESP32-Counter"@)
}

/// The next action for what has happened.
pub open spec fn pair_action(event: PairEvent) -> PairActionView {
    match event {
        PairEvent::Begin => PairActionView::Advertise(
            advertising::named_advertisement(counter_name()),
        ),
        PairEvent::Advertising => PairActionView::Finish,
        PairEvent::AdvertiseFailed => PairActionView::Fail,
    }
}

/// Decides what is to be done next so that a central can find and connect to the
/// device.
pub fn await_connection(event: PairEvent) -> (action: PairAction)
    ensures
        action@ == pair_action(event),
{
    match event {
        PairEvent::Begin => {
            proof {
                reveal_strlit("ESP32-Counter");
                vstd::utf8::is_ascii_chars_encode_utf8("ESP32-Counter"@);
            }
            PairAction::Advertise(advertise_name("ESP32-Counter".as_bytes()).unwrap())
        },
        PairEvent::Advertising => PairAction::Finish,
        PairEvent::AdvertiseFailed => PairAction::Fail,
    }
}

/// The counter demo advertises its flags and `ESP32-Counter` in ASCII and nothing
/// else, and ends with success or failure as the radio does.
pub proof fn law_counter_demo_follows_the_radio(event: PairEvent)
    ensures
        pair_action(event) matches PairActionView::Advertise(adv) ==> adv.adv_data == seq![
            0x02u8,
            0x01u8,
            0x06u8,
            0x0eu8,
            0x09u8,
            0x45u8,
            0x53u8,
            0x50u8,
            0x33u8,
            0x32u8,
            0x2du8,
            0x43u8,
            0x6fu8,
            0x75u8,
            0x6eu8,
            0x74u8,
            0x65u8,
            0x72u8,
        ] && adv.scan_data == Seq::<u8>::empty(),
        pair_action(event) is Advertise <==> event == PairEvent::Begin,
        pair_action(event) is Finish <==> event == PairEvent::Advertising,
        pair_action(event) is Fail <==> event == PairEvent::AdvertiseFailed,
{
    reveal_strlit("ESP32-Counter");
    vstd::utf8::is_ascii_chars_encode_utf8("ESP32-Counter"@);
    let name = counter_name();
    assert(name[0] == 0x45 && name[1] == 0x53 && name[2] == 0x50 && name[3] == 0x33);
    assert(name[4] == 0x32 && name[5] == 0x2d && name[6] == 0x43 && name[7] == 0x6f);
    assert(name[8] == 0x75 && name[9] == 0x6e && name[10] == 0x74 && name[11] == 0x65);
    assert(name[12] == 0x72);
    assert(advertising::named_advertisement(name).adv_data =~= seq![
        0x02u8,
        0x01u8,
        0x06u8,
        0x0eu8,
        0x09u8,
        0x45u8,
        0x53u8,
        0x50u8,
        0x33u8,
        0x32u8,
        0x2du8,
        0x43u8,
        0x6fu8,
        0x75u8,
        0x6eu8,
        0x74u8,
        0x65u8,
        0x72u8,
    ]);
}

} // verus!
