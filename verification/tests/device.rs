use spect::client::characteristics;
use spect::device::advertising::{advertise_name, strip_advertisement};
use spect::device::attributes;
use spect::device::leds::{Leds, TransmitOutcome};
use spect::device::pair::{await_connection, PairAction, PairEvent};
use spect::device::ws2812::{
    ws2812_pulses, Level, Pulse, BYTES_PER_PIXEL, CLOCK_DIVIDER, CLOCK_MHZ, MAX_PIXELS,
    MAX_PULSES, WS2812_T0H, WS2812_T0L, WS2812_T1H, WS2812_T1L,
};

const IDLE: Pulse = Pulse { level1: Level::Low, length1: 0, level2: Level::Low, length2: 0 };
const ZERO: Pulse = Pulse { level1: Level::High, length1: 7, level2: Level::Low, length2: 16 };
const ONE: Pulse = Pulse { level1: Level::High, length1: 14, level2: Level::Low, length2: 12 };

#[test]
fn bits_are_sent_most_significant_first() {
    let mut pulses = [IDLE; MAX_PULSES];
    assert_eq!(ws2812_pulses(&[0b1010_0001, 0xff], &mut pulses), 16);
    assert_eq!(pulses[..8], [ONE, ZERO, ONE, ZERO, ZERO, ZERO, ZERO, ONE]);
    assert_eq!(pulses[8..16], [ONE; 8]);
    assert!(pulses[16..].iter().all(|p| *p == IDLE));
}

#[test]
fn no_pixels_are_no_pulses() {
    let mut pulses = [ONE; MAX_PULSES];
    assert_eq!(ws2812_pulses(&[], &mut pulses), 0);
    assert!(pulses.iter().all(|p| *p == ONE));
}

#[test]
fn excess_pixels_are_dropped() {
    let full = vec![0x0f; MAX_PIXELS * BYTES_PER_PIXEL];
    let mut excess = full.clone();
    excess.extend([0xff; 5]);
    let mut expected = [IDLE; MAX_PULSES];
    let mut pulses = [IDLE; MAX_PULSES];
    assert_eq!(ws2812_pulses(&full, &mut expected), 6144);
    assert_eq!(ws2812_pulses(&excess, &mut pulses), 6144);
    assert_eq!(pulses, expected);
    assert_eq!(pulses[6140..], [ONE; 4]);
}

#[test]
fn parts_are_sent_one_after_the_other() {
    let mut first = [IDLE; MAX_PULSES];
    let mut second = [IDLE; MAX_PULSES];
    let mut both = [IDLE; MAX_PULSES];
    ws2812_pulses(&[0x12, 0x34], &mut first);
    ws2812_pulses(&[0x56], &mut second);
    assert_eq!(ws2812_pulses(&[0x12, 0x34, 0x56], &mut both), 24);
    assert_eq!(both[..16], first[..16]);
    assert_eq!(both[16..24], second[..8]);
}

#[test]
fn different_bytes_are_sent_with_different_pulses() {
    let mut seen: Vec<Vec<Pulse>> = Vec::new();
    let mut pulses = [IDLE; MAX_PULSES];
    for byte in 0..=255u8 {
        assert_eq!(ws2812_pulses(&[byte], &mut pulses), 8);
        let sent = pulses[..8].to_vec();
        assert!(sent.iter().all(|p| *p == ZERO || *p == ONE));
        assert!(!seen.contains(&sent));
        seen.push(sent);
    }
}

#[test]
fn phases_have_the_lengths_that_the_strip_asks_for() {
    let tick_ns = 1000 * CLOCK_DIVIDER as u32 / CLOCK_MHZ;
    assert_eq!(tick_ns, 50);
    assert_eq!(WS2812_T0H as u32 * tick_ns, 350);
    assert_eq!(WS2812_T0L as u32 * tick_ns, 800);
    assert_eq!(WS2812_T1H as u32 * tick_ns, 700);
    assert_eq!(WS2812_T1L as u32 * tick_ns, 600);
}

#[test]
fn channel_is_away_during_a_transmission() {
    let mut leds = Leds::new();
    assert!(leds.channel_ready);
    assert!(leds.pulses.iter().all(|p| *p == IDLE));
    assert_eq!(leds.flush_leds(&[0x80]), Some(8));
    assert!(!leds.channel_ready);
    assert_eq!(leds.pulses[..9], [ONE, ZERO, ZERO, ZERO, ZERO, ZERO, ZERO, ZERO, IDLE]);
    assert_eq!(leds.flush_leds(&[0xff]), None);
    assert_eq!(leds.pulses[1], ZERO);
}

#[test]
fn only_a_rejected_transmission_loses_the_channel() {
    for (outcome, ready) in [
        (TransmitOutcome::Completed, true),
        (TransmitOutcome::Interrupted, true),
        (TransmitOutcome::Rejected, false),
    ] {
        let mut leds = Leds::new();
        leds.flush_leds(&[1]);
        leds.transmission_ended(outcome);
        assert_eq!(leds.channel_ready, ready);
        assert_eq!(leds.flush_leds(&[1]).is_some(), ready);
    }
}

#[test]
fn strip_advertises_its_flags_and_name() {
    let adv = strip_advertisement();
    assert_eq!(adv.adv_data, b"\x02\x01\x06\x0c\x09Spect-Strip");
    assert!(adv.scan_data.is_empty());
}

#[test]
fn name_that_fills_the_packet_is_advertised() {
    let adv = advertise_name(&[b'x'; 26]);
    let mut expected = vec![2, 1, 6, 27, 9];
    expected.extend([b'x'; 26]);
    assert!(matches!(adv, Some(a) if a.adv_data == expected && a.scan_data.is_empty()));
}

#[test]
fn name_that_is_too_long_is_not_advertised() {
    assert!(advertise_name(&[b'x'; 27]).is_none());
    assert!(advertise_name(&[b'x'; 255]).is_none());
    assert!(advertise_name(&[b'x'; 300]).is_none());
}

#[test]
fn empty_name_is_advertised() {
    assert!(matches!(advertise_name(&[]), Some(a) if a.adv_data == [2, 1, 6, 1, 9]));
}

#[test]
fn counter_demo_advertises_until_it_can_be_found() {
    let action = await_connection(PairEvent::Begin);
    assert!(matches!(
        action,
        PairAction::Advertise(adv)
            if adv.adv_data == b"\x02\x01\x06\x0e\x09ESP32-Counter" && adv.scan_data.is_empty()
    ));
    assert!(matches!(await_connection(PairEvent::Advertising), PairAction::Finish));
    assert!(matches!(await_connection(PairEvent::AdvertiseFailed), PairAction::Fail));
}

#[test]
fn both_sides_speak_of_the_same_characteristics() {
    let mut data = attributes::LED_DATA_UUID;
    data.reverse();
    assert_eq!(data, characteristics::LED_DATA_UUID);
    let mut show = attributes::LED_SHOW_UUID;
    show.reverse();
    assert_eq!(show, characteristics::LED_SHOW_UUID);
    assert_eq!(attributes::LED_SERVICE_UUID, attributes::LED_DATA_UUID);
}
