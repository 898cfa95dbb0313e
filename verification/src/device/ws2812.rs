//! The WS2812 wire format: each bit of pixel data is one high and one low phase.

use vstd::prelude::*;

verus! {

/// Bytes of one pixel on the wire.
pub const BYTES_PER_PIXEL: usize = 3;

/// Pixels that one transmission can hold.
pub const MAX_PIXELS: usize = 256;

/// Pulses that one transmission can hold.
pub const MAX_PULSES: usize = MAX_PIXELS * BYTES_PER_PIXEL * 8;

/// Clock of the transmitter, in megahertz.
pub const CLOCK_MHZ: u32 = 80;

/// Cycles of that clock in one tick.
pub const CLOCK_DIVIDER: u8 = 4;

/// Ticks for which the line is high in a zero bit.
pub const WS2812_T0H: u16 = 7;

/// Ticks for which the line is low in a zero bit.
pub const WS2812_T0L: u16 = 16;

/// Ticks for which the line is high in a one bit.
pub const WS2812_T1H: u16 = 14;

/// Ticks for which the line is low in a one bit.
pub const WS2812_T1L: u16 = 12;

/// State of the data line.
#[derive(Clone, Copy, Debug, PartialEq, Eq, Structural)]
pub enum Level {
    Low,
    High,
}

/// Two phases of the data line, each with its length in ticks.
#[derive(Clone, Copy, Debug, PartialEq, Eq, Structural)]
pub struct Pulse {
    pub level1: Level,
    pub length1: u16,
    pub level2: Level,
    pub length2: u16,
}

/// The pulse with two empty low phases.
pub open spec fn idle_pulse() -> Pulse {
    Pulse { level1: Level::Low, length1: 0, level2: Level::Low, length2: 0 }
}

/// The pulse of one bit.
pub open spec fn bit_pulse(one: bool) -> Pulse {
    if one {
        Pulse {
            level1: Level::High,
            length1: WS2812_T1H,
            level2: Level::Low,
            length2: WS2812_T1L,
        }
    } else {
        Pulse {
            level1: Level::High,
            length1: WS2812_T0H,
            level2: Level::Low,
            length2: WS2812_T0L,
        }
    }
}

/// Bit `k` of a byte, where bit 0 is the most significant one.
pub open spec fn bit_at(byte: u8, k: int) -> bool {
    (byte >> ((7 - k) as u8)) & 1 == 1
}

/// The pulses of pixel data: eight for each byte, most significant bit first.
pub open spec fn waveform(pixels: Seq<u8>) -> Seq<Pulse> {
    Seq::new(8 * pixels.len(), |i: int| bit_pulse(bit_at(pixels[i / 8], i % 8)))
}

/// The number of pulses that are sent for pixel data: what fits.
pub open spec fn pulse_count(pixels: Seq<u8>) -> nat {
    if 8 * pixels.len() < MAX_PULSES {
        8 * pixels.len()
    } else {
        MAX_PULSES as nat
    }
}

/// The pulses that are sent for pixel data.
pub open spec fn sent_pulses(pixels: Seq<u8>) -> Seq<Pulse> {
    waveform(pixels).take(pulse_count(pixels) as int)
}

/// Writes the pulses of pixel data to the front of a buffer, as far as they
/// fit, and returns how many there are. The rest of the buffer stays as it was.
pub fn ws2812_pulses(pixels: &[u8], pulses: &mut [Pulse; MAX_PULSES]) -> (count: usize)
    ensures
        count == pulse_count(pixels@),
        final(pulses)@ == sent_pulses(pixels@) + old(pulses)@.skip(count as int),
{
    let mut n: usize = 0;
    let mut index: usize = 0;
    while index < pixels.len()
        invariant
            index <= pixels@.len(),
            n == if 8 * index < MAX_PULSES { 8 * index } else { MAX_PULSES as int },
            pulses@ == waveform(pixels@).take(n as int) + old(pulses)@.skip(n as int),
        decreases pixels@.len() - index,
    {
        let byte: u8 = pixels[index];
        let mut bit: u8 = 8;
        while bit > 0
            invariant
                index < pixels@.len(),
                byte == pixels@[index as int],
                bit <= 8,
                n == if 8 * index + 8 - bit < MAX_PULSES {
                    8 * index + 8 - bit
                } else {
                    MAX_PULSES as int
                },
                pulses@ == waveform(pixels@).take(n as int) + old(pulses)@.skip(n as int),
            decreases bit,
        {
            bit = bit - 1;
            let one: bool = (byte >> bit) & 1 == 1;
            let (hi, lo): (u16, u16) = if one {
                (WS2812_T1H, WS2812_T1L)
            } else {
                (WS2812_T0H, WS2812_T0L)
            };
            if n < MAX_PULSES {
                proof {
                    assert(n == 8 * index + 7 - bit);
                    assert(waveform(pixels@)[n as int] == bit_pulse(one));
                }
                pulses[n] = Pulse { level1: Level::High, length1: hi, level2: Level::Low, length2: lo };
                n += 1;
                assert(pulses@ =~= waveform(pixels@).take(n as int) + old(pulses)@.skip(n as int));
            }
        }
        index += 1;
    }
    n
}

/// Bytes with the same bits are the same.
proof fn lemma_bits_determine_byte(a: u8, b: u8)
    requires
        forall|k: int| 0 <= k < 8 ==> bit_at(a, k) == bit_at(b, k),
    ensures
        a == b,
{
    assert(bit_at(a, 0) == bit_at(b, 0));
    assert(bit_at(a, 1) == bit_at(b, 1));
    assert(bit_at(a, 2) == bit_at(b, 2));
    assert(bit_at(a, 3) == bit_at(b, 3));
    assert(bit_at(a, 4) == bit_at(b, 4));
    assert(bit_at(a, 5) == bit_at(b, 5));
    assert(bit_at(a, 6) == bit_at(b, 6));
    assert(bit_at(a, 7) == bit_at(b, 7));
    assert(a == b) by (bit_vector)
        requires
            ((a >> 7u8) & 1 == 1) == ((b >> 7u8) & 1 == 1),
            ((a >> 6u8) & 1 == 1) == ((b >> 6u8) & 1 == 1),
            ((a >> 5u8) & 1 == 1) == ((b >> 5u8) & 1 == 1),
            ((a >> 4u8) & 1 == 1) == ((b >> 4u8) & 1 == 1),
            ((a >> 3u8) & 1 == 1) == ((b >> 3u8) & 1 == 1),
            ((a >> 2u8) & 1 == 1) == ((b >> 2u8) & 1 == 1),
            ((a >> 1u8) & 1 == 1) == ((b >> 1u8) & 1 == 1),
            ((a >> 0u8) & 1 == 1) == ((b >> 0u8) & 1 == 1),
    ;
}

/// The pulses that are sent tell the pixel data: no other data that fits is sent
/// with the same pulses.
pub proof fn law_pulses_determine_pixels(a: Seq<u8>, b: Seq<u8>)
    requires
        a.len() <= MAX_PIXELS * BYTES_PER_PIXEL,
        b.len() <= MAX_PIXELS * BYTES_PER_PIXEL,
        sent_pulses(a) == sent_pulses(b),
    ensures
        a == b,
{
    assert(sent_pulses(a).len() == 8 * a.len());
    assert(sent_pulses(b).len() == 8 * b.len());
    assert forall|i: int| 0 <= i < a.len() implies a[i] == b[i] by {
        assert forall|k: int| 0 <= k < 8 implies bit_at(a[i], k) == bit_at(b[i], k) by {
            let at = 8 * i + k;
            assert(at / 8 == i && at % 8 == k);
            assert(sent_pulses(a)[at] == bit_pulse(bit_at(a[i], k)));
            assert(sent_pulses(b)[at] == bit_pulse(bit_at(b[i], k)));
        }
        lemma_bits_determine_byte(a[i], b[i]);
    }
    assert(a =~= b);
}

/// The pixel data that fits into one transmission: the front of it.
pub open spec fn fitting(pixels: Seq<u8>) -> Seq<u8> {
    if pixels.len() > MAX_PIXELS * BYTES_PER_PIXEL {
        pixels.take((MAX_PIXELS * BYTES_PER_PIXEL) as int)
    } else {
        pixels
    }
}

/// What does not fit is not sent: the pulses are all those of the pixel data that
/// fits.
pub proof fn law_excess_pixels_are_dropped(pixels: Seq<u8>)
    ensures
        sent_pulses(pixels) == waveform(fitting(pixels)),
        pulse_count(pixels) == 8 * fitting(pixels).len(),
{
    assert(sent_pulses(pixels) =~= waveform(fitting(pixels)));
}

/// Pixel data is sent one part after the other.
pub proof fn law_waveform_concat(a: Seq<u8>, b: Seq<u8>)
    ensures
        waveform(a + b) == waveform(a) + waveform(b),
{
    assert forall|i: int| 0 <= i < 8 * (a + b).len() implies waveform(a + b)[i] == (waveform(a)
        + waveform(b))[i] by {
        if i >= 8 * a.len() {
            assert((i - 8 * a.len()) / 8 == i / 8 - a.len());
            assert((i - 8 * a.len()) % 8 == i % 8);
        }
    }
    assert(waveform(a + b) =~= waveform(a) + waveform(b));
}

/// Each pulse that is sent is first high and then low, and neither phase is empty
/// or longer than the fifteen bits that a transmit channel has for its length.
pub proof fn law_pulses_are_transmittable(pixels: Seq<u8>, i: int)
    requires
        0 <= i < sent_pulses(pixels).len(),
    ensures
        sent_pulses(pixels)[i].level1 == Level::High,
        sent_pulses(pixels)[i].level2 == Level::Low,
        0 < sent_pulses(pixels)[i].length1 <= 0x7fff,
        0 < sent_pulses(pixels)[i].length2 <= 0x7fff,
{
}

/// The bit that a pulse sends: one where its high phase is that of a one bit.
pub open spec fn sent_bit(pulse: Pulse) -> int {
    if pulse.length1 == WS2812_T1H {
        1
    } else {
        0
    }
}

/// The number that eight pulses send, read as binary digits in their order.
pub open spec fn sent_byte(pulses: Seq<Pulse>, at: int) -> int {
    128 * sent_bit(pulses[at]) + 64 * sent_bit(pulses[at + 1]) + 32 * sent_bit(pulses[at + 2]) + 16
        * sent_bit(pulses[at + 3]) + 8 * sent_bit(pulses[at + 4]) + 4 * sent_bit(pulses[at + 5])
        + 2 * sent_bit(pulses[at + 6]) + sent_bit(pulses[at + 7])
}

/// The bits of a byte are its binary digits.
proof fn lemma_bits_are_binary_digits(byte: u8)
    ensures
        byte == 128 * sent_bit(bit_pulse(bit_at(byte, 0))) + 64 * sent_bit(
            bit_pulse(bit_at(byte, 1)),
        ) + 32 * sent_bit(bit_pulse(bit_at(byte, 2))) + 16 * sent_bit(bit_pulse(bit_at(byte, 3)))
            + 8 * sent_bit(bit_pulse(bit_at(byte, 4))) + 4 * sent_bit(bit_pulse(bit_at(byte, 5)))
            + 2 * sent_bit(bit_pulse(bit_at(byte, 6))) + sent_bit(bit_pulse(bit_at(byte, 7))),
{
    assert(byte == (if (byte >> 7u8) & 1 == 1 {
        128u8
    } else {
        0u8
    }) + (if (byte >> 6u8) & 1 == 1 {
        64u8
    } else {
        0u8
    }) + (if (byte >> 5u8) & 1 == 1 {
        32u8
    } else {
        0u8
    }) + (if (byte >> 4u8) & 1 == 1 {
        16u8
    } else {
        0u8
    }) + (if (byte >> 3u8) & 1 == 1 {
        8u8
    } else {
        0u8
    }) + (if (byte >> 2u8) & 1 == 1 {
        4u8
    } else {
        0u8
    }) + (if (byte >> 1u8) & 1 == 1 {
        2u8
    } else {
        0u8
    }) + (if (byte >> 0u8) & 1 == 1 {
        1u8
    } else {
        0u8
    })) by (bit_vector);
}

/// The eight pulses of a byte, read as binary digits in the order in which they are
/// sent, are that byte. They are sent for each byte that fits, in the order of the
/// bytes, and nothing else is sent.
pub proof fn law_pulses_write_the_bytes(pixels: Seq<u8>, i: int)
    requires
        0 <= i < pixels.len(),
        i < MAX_PIXELS * BYTES_PER_PIXEL,
    ensures
        sent_byte(sent_pulses(pixels), 8 * i) == pixels[i],
        sent_pulses(pixels).len() == pulse_count(pixels),
        pulse_count(pixels) == if pixels.len() <= MAX_PIXELS * BYTES_PER_PIXEL {
            8 * pixels.len() as int
        } else {
            8 * MAX_PIXELS * BYTES_PER_PIXEL
        },
        8 * i + 8 <= pulse_count(pixels),
{
    let sent = sent_pulses(pixels);
    assert forall|k: int| 0 <= k < 8 implies #[trigger] sent[8 * i + k] == bit_pulse(
        bit_at(pixels[i], k),
    ) by {
        assert((8 * i + k) / 8 == i && (8 * i + k) % 8 == k);
    }
    assert(sent[8 * i + 0] == bit_pulse(bit_at(pixels[i], 0)));
    assert(sent[8 * i + 1] == bit_pulse(bit_at(pixels[i], 1)));
    assert(sent[8 * i + 2] == bit_pulse(bit_at(pixels[i], 2)));
    assert(sent[8 * i + 3] == bit_pulse(bit_at(pixels[i], 3)));
    assert(sent[8 * i + 4] == bit_pulse(bit_at(pixels[i], 4)));
    assert(sent[8 * i + 5] == bit_pulse(bit_at(pixels[i], 5)));
    assert(sent[8 * i + 6] == bit_pulse(bit_at(pixels[i], 6)));
    assert(sent[8 * i + 7] == bit_pulse(bit_at(pixels[i], 7)));
    lemma_bits_are_binary_digits(pixels[i]);
}

/// Each pulse that is sent has the phases of a one bit or those of a zero bit.
pub proof fn law_pulses_are_ones_and_zeros(pixels: Seq<u8>, i: int)
    requires
        0 <= i < sent_pulses(pixels).len(),
    ensures
        sent_pulses(pixels)[i] == (Pulse {
            level1: Level::High,
            length1: WS2812_T1H,
            level2: Level::Low,
            length2: WS2812_T1L,
        }) || sent_pulses(pixels)[i] == (Pulse {
            level1: Level::High,
            length1: WS2812_T0H,
            level2: Level::Low,
            length2: WS2812_T0L,
        }),
{
}

} // verus!
