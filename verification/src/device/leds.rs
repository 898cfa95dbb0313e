//! The output to the strip: a transmit channel and the pulses that it sends.

use crate::device::ws2812::{self, ws2812_pulses, Level, Pulse, MAX_PULSES};
use vstd::prelude::*;

verus! {

/// What became of a transmission.
#[derive(Clone, Copy, Debug, PartialEq, Eq, Structural)]
pub enum TransmitOutcome {
    /// All pulses were sent.
    Completed,
    /// The transmission began and ended with an error.
    Interrupted,
    /// The transmission did not begin.
    Rejected,
}

/// The transmit channel and its pulse buffer.
pub struct Leds {
    /// Whether the channel is at hand: it is away during a transmission, and
    /// it is lost with a transmission that did not begin.
    pub channel_ready: bool,
    /// The pulses of the last transmission, at the front.
    pub pulses: [Pulse; MAX_PULSES],
}

/// The contents of [`Leds`].
pub struct LedsView {
    pub channel_ready: bool,
    pub pulses: Seq<Pulse>,
}

impl View for Leds {
    type V = LedsView;

    open spec fn view(&self) -> LedsView {
        LedsView { channel_ready: self.channel_ready, pulses: self.pulses@ }
    }
}

/// The output after a transmission of pixel data has been prepared.
pub open spec fn leds_flushing(leds: LedsView, pixels: Seq<u8>) -> LedsView {
    LedsView {
        channel_ready: false,
        pulses: ws2812::sent_pulses(pixels) + leds.pulses.skip(
            ws2812::sent_pulses(pixels).len() as int,
        ),
    }
}

/// The output after a transmission has ended.
pub open spec fn leds_flushed(leds: LedsView, outcome: TransmitOutcome) -> LedsView {
    LedsView { channel_ready: outcome != TransmitOutcome::Rejected, ..leds }
}

impl Leds {
    /// An output with a channel and an idle buffer.
    pub fn new() -> (leds: Leds)
        ensures
            leds@.channel_ready,
            leds@.pulses == Seq::new(
                MAX_PULSES as nat,
                |i: int| ws2812::idle_pulse(),
            ),
    {
        let idle = Pulse { level1: Level::Low, length1: 0, level2: Level::Low, length2: 0 };
        let leds = Leds { channel_ready: true, pulses: [idle; MAX_PULSES] };
        assert(leds@.pulses =~= Seq::new(
            MAX_PULSES as nat,
            |i: int| ws2812::idle_pulse(),
        ));
        leds
    }

    /// Takes the channel and prepares the pulses of pixel data. Returns how many
    /// pulses at the front of the buffer are to be sent, or nothing where there
    /// is no channel to send them.
    pub fn flush_leds(&mut self, pixel_buf: &[u8]) -> (count: Option<usize>)
        ensures
            !old(self)@.channel_ready ==> count is None && *final(self) == *old(self),
            old(self)@.channel_ready ==> {
                &&& count == Some(ws2812::pulse_count(pixel_buf@) as usize)
                &&& final(self)@ == leds_flushing(old(self)@, pixel_buf@)
            },
    {
        if self.channel_ready {
            self.channel_ready = false;
            let n: usize = ws2812_pulses(pixel_buf, &mut self.pulses);
            Some(n)
        } else {
            None
        }
    }

    /// Takes the channel back after a transmission, if there is one to take.
    pub fn transmission_ended(&mut self, outcome: TransmitOutcome)
        ensures
            final(self)@ == leds_flushed(old(self)@, outcome),
    {
        self.channel_ready = match outcome {
            TransmitOutcome::Completed => true,
            TransmitOutcome::Interrupted => true,
            TransmitOutcome::Rejected => false,
        };
    }
}

/// A transmission that is prepared takes the channel, puts its pulses at the front
/// of the buffer, and leaves the rest of the buffer as it was.
pub proof fn law_flush_prepares_pulses(leds: LedsView, pixels: Seq<u8>)
    requires
        leds.pulses.len() == MAX_PULSES,
    ensures
        !leds_flushing(leds, pixels).channel_ready,
        leds_flushing(leds, pixels).pulses.len() == MAX_PULSES,
        leds_flushing(leds, pixels).pulses.take(ws2812::pulse_count(pixels) as int)
            == ws2812::sent_pulses(pixels),
        leds_flushing(leds, pixels).pulses.skip(ws2812::pulse_count(pixels) as int)
            == leds.pulses.skip(ws2812::pulse_count(pixels) as int),
{
    let count = ws2812::pulse_count(pixels) as int;
    assert(leds_flushing(leds, pixels).pulses.take(count) =~= ws2812::sent_pulses(pixels));
    assert(leds_flushing(leds, pixels).pulses.skip(count) =~= leds.pulses.skip(count));
}

/// A transmission that began gives the channel back, whether or not it completed,
/// and one that did not begin loses it. The pulses stay in the buffer.
pub proof fn law_channel_comes_back(leds: LedsView, outcome: TransmitOutcome)
    ensures
        leds_flushed(leds, outcome).channel_ready <==> outcome == TransmitOutcome::Completed
            || outcome == TransmitOutcome::Interrupted,
        leds_flushed(leds, outcome).pulses == leds.pulses,
{
}

} // verus!
