//! What the client and the device achieve together.

use crate::client::characteristics::{self, CharacteristicView, LED_DATA_UUID, LED_SHOW_UUID};
use crate::client::colors;
use crate::client::hex;
use crate::client::session::{self, SessionActionView, SessionEventView, SessionStage, SessionView};
use crate::device::attributes;
use crate::device::server::{self, ServerActionView, ServerEventView, ServerStage, ServerView};
use crate::device::ws2812;
use vstd::prelude::*;

verus! {

/// Both sides mean the same characteristics: the client writes a UUID with its most
/// significant byte first, the device with its least significant one. The two
/// characteristics differ.
pub proof fn law_uuids_agree()
    ensures
        LED_DATA_UUID@ == attributes::LED_DATA_UUID@.reverse(),
        LED_SHOW_UUID@ == attributes::LED_SHOW_UUID@.reverse(),
        LED_DATA_UUID@ != LED_SHOW_UUID@,
{
    assert(LED_DATA_UUID@ =~= attributes::LED_DATA_UUID@.reverse());
    assert(LED_SHOW_UUID@ =~= attributes::LED_SHOW_UUID@.reverse());
    assert(LED_DATA_UUID@[12] != LED_SHOW_UUID@[12]);
}

/// The colors on the command line reach the strip.
///
/// A client that was given at least one color, and whose colors all stand for
/// something, is connected to a device with both characteristics. It writes the
/// bytes of the colors to the one characteristic and, after a pause, a request to
/// the other. Among the events of the device, the request is event `at`, and the
/// bytes, in whatever pieces and over any number of connections, are what was
/// written since the last request, with nothing left from before. Where no
/// transmission has been rejected, the device sends the pulses of the colors, as
/// far as they fit.
pub proof fn law_colors_reach_the_strip(
    client: SessionView,
    colors: Seq<String>,
    list: Seq<CharacteristicView>,
    data: int,
    show: int,
    device: ServerView,
    events: Seq<ServerEventView>,
    from: int,
    at: int,
)
    requires
        client.stage == SessionStage::Discovering,
        colors.len() > 0,
        colors::colors_value(client.rgb, colors, colors.len()) == Ok::<Seq<u8>, Seq<char>>(
            client.raw,
        ),
        list.len() <= usize::MAX,
        characteristics::is_first_with(list, LED_DATA_UUID@, data),
        characteristics::is_first_with(list, LED_SHOW_UUID@, show),
        device.stage != ServerStage::Flushing,
        device.leds.channel_ready,
        device.leds.pulses.len() == ws2812::MAX_PULSES,
        server::shows_since(device, events, from, at),
        events[at] == (ServerEventView::Write {
            handle: device.show_handle,
            data: seq![session::SHOW_REQUEST],
        }),
        server::data_to_show(device, events, from, at) == client.raw,
        !server::rejected_before(device, events, at),
    ensures
        data != show,
        ({
            let sent = session::session_step(client, SessionEventView::Characteristics(list));
            let paused = session::session_step(sent.0, SessionEventView::Done);
            let shown = session::session_step(paused.0, SessionEventView::Done);
            let fitting = ws2812::fitting(client.raw);
            let flushed = server::before_event(device, events, at + 1);
            &&& sent.1.action == SessionActionView::Write {
                characteristic: data,
                bytes: client.raw,
            }
            &&& paused.1.action == SessionActionView::Sleep(session::SHOW_DELAY_MS)
            &&& shown.1.action == SessionActionView::Write {
                characteristic: show,
                bytes: seq![session::SHOW_REQUEST],
            }
            &&& server::action_after(device, events, at) == ServerActionView::Transmit(
                8 * fitting.len(),
            )
            &&& flushed.leds.pulses.take(8 * fitting.len() as int) == ws2812::waveform(fitting)
        }),
{
    session::law_show_follows_data(client, list, data, show);
    colors::law_colors_fill_pixels(client.rgb, colors, colors.len());
    assert(client.raw.len() > 0) by (nonlinear_arith)
        requires
            client.raw.len() == colors.len() * colors::pixel_bytes(client.rgb),
            colors.len() > 0,
            colors::pixel_bytes(client.rgb) >= 3,
    ;
    law_uuids_agree();
    server::law_channel_is_at_hand(device, events, at);
    server::law_show_sends_collected_data(device, events, from, at);
}

/// Byte `j` of pixel `i`, as the digits of color `i` write it, is what the pulses of
/// the colors send at its place, where it fits.
pub proof fn law_digits_are_sent(
    rgb: bool,
    given: Seq<String>,
    pixels: Seq<Seq<u8>>,
    width: int,
    i: int,
    j: int,
)
    requires
        width == if rgb {
            3int
        } else {
            4
        },
        pixels.len() == given.len(),
        forall|k: int|
            #![trigger given[k]]
            #![trigger pixels[k]]
            0 <= k < given.len() ==> hex::pairs_write(given[k]@, pixels[k]) && pixels[k].len()
                == width,
        0 <= i < given.len(),
        0 <= j < width,
        i * width + j < ws2812::MAX_PIXELS * ws2812::BYTES_PER_PIXEL,
    ensures
        colors::colors_value(rgb, given, given.len()) is Ok,
        ({
            let raw = colors::colors_value(rgb, given, given.len())->Ok_0;
            ws2812::sent_byte(ws2812::sent_pulses(raw), 8 * (i * width + j)) == pixels[i][j]
        }),
{
    colors::law_colors_are_what_they_write(rgb, given, pixels, width);
    let raw = colors::colors_value(rgb, given, given.len())->Ok_0;
    let at = i * width + j;
    assert(0 <= at < given.len() * width && (i + 1) * width <= given.len() * width && 0 <= i * width
        && (i + 1) * width == i * width + width) by (nonlinear_arith)
        requires
            0 <= i < given.len(),
            0 <= j < width,
            at == i * width + j,
    ;
    assert(raw.subrange(i * width, (i + 1) * width) == pixels[i]);
    assert(raw.subrange(i * width, (i + 1) * width)[j] == raw[at]);
    ws2812::law_pulses_write_the_bytes(raw, at);
}

} // verus!
