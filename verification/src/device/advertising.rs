//! What the device advertises: its flags and its name.

use trouble_host::advertise::AdStructure;
use vstd::prelude::*;

verus! {

/// Bytes of a legacy advertising packet.
pub const ADV_DATA_LEN: usize = 31;

/// Advertised flags: general discoverable mode (bit 1), no classic Bluetooth (bit 2).
pub const ADV_FLAGS: u8 = 0x06;

/// A connectable, scannable and undirected advertisement.
pub struct Advertisement {
    /// What every packet holds.
    pub adv_data: Vec<u8>,
    /// What a scanner is answered.
    pub scan_data: Vec<u8>,
}

/// The contents of an [`Advertisement`].
pub struct AdvertisementView {
    pub adv_data: Seq<u8>,
    pub scan_data: Seq<u8>,
}

impl View for Advertisement {
    type V = AdvertisementView;

    open spec fn view(&self) -> AdvertisementView {
        AdvertisementView { adv_data: self.adv_data@, scan_data: self.scan_data@ }
    }
}

/// What comes before the name: a structure of two bytes (type 1) that holds the
/// flags, then the length and the type (9) of the structure that holds the name.
pub open spec fn ad_header(flags: u8, name: Seq<u8>) -> Seq<u8> {
    seq![2u8, 1u8, flags, ((name.len() + 1) % 256) as u8, 9u8]
}

/// Flags and a complete local name as advertising structures.
pub open spec fn ad_structures(flags: u8, name: Seq<u8>) -> Seq<u8> {
    ad_header(flags, name) + name
}

/// The advertisement of a device with a name and nothing else to say.
pub open spec fn named_advertisement(name: Seq<u8>) -> AdvertisementView {
    AdvertisementView { adv_data: ad_structures(ADV_FLAGS, name), scan_data: seq![] }
}

/// Calls `trouble_host`'s `AdStructure::encode_slice` on flags and a complete
/// local name.
///
/// It is taken to write the two structures, one after the other, to the front of
/// the buffer, and to return their length. Where they do not fit, it returns an
/// error, here `None`, with all but the name written.
#[verifier::external_body]
fn encode_slice(flags: u8, name: &[u8], dest: &mut [u8; ADV_DATA_LEN]) -> (len: Option<usize>)
    ensures
        ad_structures(flags, name@).len() <= ADV_DATA_LEN ==> {
            &&& len == Some(ad_structures(flags, name@).len() as usize)
            &&& final(dest)@ == ad_structures(flags, name@) + old(dest)@.skip(
                ad_structures(flags, name@).len() as int,
            )
        },
        ad_structures(flags, name@).len() > ADV_DATA_LEN ==> {
            &&& len is None
            &&& final(dest)@ == ad_header(flags, name@) + old(dest)@.skip(5)
        },
{
    AdStructure::encode_slice(
        &[AdStructure::Flags(flags), AdStructure::CompleteLocalName(name)],
        dest,
    ).ok()
}

/// Advertises a name, unless it is too long for a packet.
pub fn advertise_name(name: &[u8]) -> (adv: Option<Advertisement>)
    ensures
        adv is Some <==> ad_structures(ADV_FLAGS, name@).len() <= ADV_DATA_LEN,
        adv matches Some(a) ==> a@ == named_advertisement(name@),
{
    let mut buffer: [u8; ADV_DATA_LEN] = [0u8; ADV_DATA_LEN];
    match encode_slice(ADV_FLAGS, name, &mut buffer) {
        None => None,
        Some(len) => {
            let mut adv_data: Vec<u8> = Vec::new();
            let mut i: usize = 0;
            while i < len
                invariant
                    i <= len <= ADV_DATA_LEN,
                    adv_data@ == buffer@.take(i as int),
                decreases len - i,
            {
                adv_data.push(buffer[i]);
                i += 1;
                assert(adv_data@ =~= buffer@.take(i as int));
            }
            assert(adv_data@ =~= ad_structures(ADV_FLAGS, name@));
            let adv = Advertisement { adv_data, scan_data: Vec::new() };
            assert(adv.scan_data@ =~= seq![]);
            Some(adv)
        },
    }
}

/// The name of the strip, as bytes.
pub open spec fn strip_name() -> Seq<u8> {
    vstd::utf8::encode_utf8("Spect-Strip"@)
}

/// The advertisement of the strip.
pub fn strip_advertisement() -> (adv: Advertisement)
    ensures
        adv@ == named_advertisement(strip_name()),
{
    proof {
        reveal_strlit("Spect-Strip");
        vstd::utf8::is_ascii_chars_encode_utf8("Spect-Strip"@);
    }
    advertise_name("Spect-Strip".as_bytes()).unwrap()
}

/// A named advertisement holds the flags and the name, each after its length and
/// its type, and has nothing to answer to a scanner.
pub proof fn law_advertisement_holds_flags_and_name(name: Seq<u8>)
    requires
        name.len() < 255,
    ensures
        ({
            let adv = named_advertisement(name);
            &&& adv.adv_data.len() == 5 + name.len()
            &&& adv.adv_data[0] == 2
            &&& adv.adv_data[1] == 1
            &&& adv.adv_data[2] == 0x06
            &&& adv.adv_data[3] == 1 + name.len()
            &&& adv.adv_data[4] == 9
            &&& adv.adv_data.skip(5) == name
            &&& adv.scan_data == Seq::<u8>::empty()
        }),
{
    assert(named_advertisement(name).adv_data.skip(5) =~= name);
}

/// Whatever the flags, a name fits where it has no more than twenty-six bytes.
pub proof fn law_names_that_fit(flags: u8, name: Seq<u8>)
    ensures
        ad_structures(flags, name).len() <= ADV_DATA_LEN <==> name.len() <= 26,
{
}

/// The advertisement of the strip is its flags and `Spect-Strip` in ASCII.
pub proof fn law_strip_is_named()
    ensures
        named_advertisement(strip_name()).adv_data == seq![
            0x02u8,
            0x01u8,
            0x06u8,
            0x0cu8,
            0x09u8,
            0x53u8,
            0x70u8,
            0x65u8,
            0x63u8,
            0x74u8,
            0x2du8,
            0x53u8,
            0x74u8,
            0x72u8,
            0x69u8,
            0x70u8,
        ],
        named_advertisement(strip_name()).scan_data == Seq::<u8>::empty(),
{
    reveal_strlit("Spect-Strip");
    vstd::utf8::is_ascii_chars_encode_utf8("Spect-Strip"@);
    let name = strip_name();
    assert(name[0] == 0x53 && name[1] == 0x70 && name[2] == 0x65 && name[3] == 0x63);
    assert(name[4] == 0x74 && name[5] == 0x2d && name[6] == 0x53 && name[7] == 0x74);
    assert(name[8] == 0x72 && name[9] == 0x69 && name[10] == 0x70);
    assert(named_advertisement(name).adv_data =~= seq![
        0x02u8,
        0x01u8,
        0x06u8,
        0x0cu8,
        0x09u8,
        0x53u8,
        0x70u8,
        0x65u8,
        0x63u8,
        0x74u8,
        0x2du8,
        0x53u8,
        0x74u8,
        0x72u8,
        0x69u8,
        0x70u8,
    ]);
}

} // verus!
