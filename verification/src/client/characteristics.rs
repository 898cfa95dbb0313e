//! The characteristics of the strip, as the client sees them.

use btleplug::api::CharPropFlags;
use uuid::Uuid;
use vstd::prelude::*;

use crate::text;

verus! {

/// The characteristic that takes pixel data, most significant byte first.
pub const LED_DATA_UUID: [u8; 16] = [
    0xf0,
    0xde,
    0xbc,
    0x9a,
    0x78,
    0x56,
    0x34,
    0x12,
    0x78,
    0x56,
    0x34,
    0x12,
    0xde,
    0xcc,
    0xbb,
    0xaa,
];

/// The characteristic that shows it, most significant byte first.
pub const LED_SHOW_UUID: [u8; 16] = [
    0xf0,
    0xde,
    0xbc,
    0x9a,
    0x78,
    0x56,
    0x34,
    0x12,
    0x78,
    0x56,
    0x34,
    0x12,
    0xdf,
    0xcc,
    0xbb,
    0xaa,
];

/// A characteristic of a peripheral.
pub struct Characteristic {
    pub uuid: [u8; 16],
    /// Its properties, one bit for each.
    pub properties: u8,
}

/// The contents of a [`Characteristic`].
pub struct CharacteristicView {
    pub uuid: Seq<u8>,
    pub properties: u8,
}

impl View for Characteristic {
    type V = CharacteristicView;

    open spec fn view(&self) -> CharacteristicView {
        CharacteristicView { uuid: self.uuid@, properties: self.properties }
    }
}

/// A UUID as text: groups of four, two, two, two and six bytes with hyphens
/// between them.
pub open spec fn hyphenated(uuid: Seq<u8>) -> Seq<char> {
    text::hex_text(uuid.subrange(0, 4), false) + seq!['-'] + text::hex_text(
        uuid.subrange(4, 6),
        false,
    ) + seq!['-'] + text::hex_text(uuid.subrange(6, 8), false) + seq!['-'] + text::hex_text(
        uuid.subrange(8, 10),
        false,
    ) + seq!['-'] + text::hex_text(uuid.subrange(10, 16), false)
}

/// Calls `to_string` on the `uuid` crate's `Uuid` of these bytes.
///
/// It is taken to write them in lower case, in five groups with hyphens between
/// them.
#[verifier::external_body]
pub(crate) fn uuid_text(uuid: [u8; 16]) -> (text: String)
    ensures
        text@ == hyphenated(uuid@),
{
    Uuid::from_bytes(uuid).to_string()
}

/// The name of a property, from the least significant bit on.
pub open spec fn property_name(bit: int) -> Seq<char> {
    if bit == 0 {
        "BROADCAST"@
    } else if bit == 1 {
        "READ"@
    } else if bit == 2 {
        "WRITE_WITHOUT_RESPONSE"@
    } else if bit == 3 {
        "WRITE"@
    } else if bit == 4 {
        "NOTIFY"@
    } else if bit == 5 {
        "INDICATE"@
    } else if bit == 6 {
        "AUTHENTICATED_SIGNED_WRITES"@
    } else {
        "EXTENDED_PROPERTIES"@
    }
}

/// The names of the properties among the lowest `count` bits, with bars between
/// them.
pub open spec fn property_names(properties: u8, count: nat) -> Seq<char>
    decreases count,
{
    if count == 0 {
        seq![]
    } else {
        let bit = (count - 1) as nat;
        let before = property_names(properties, bit);
        if (properties >> (bit as u8)) & 1 != 1 {
            before
        } else if before.len() == 0 {
            property_name(bit as int)
        } else {
            before + " | "@ + property_name(bit as int)
        }
    }
}

/// Properties as text.
pub open spec fn properties_chars(properties: u8) -> Seq<char> {
    "CharPropFlags("@ + (if properties == 0 {
        "0x0"@
    } else {
        property_names(properties, 8)
    }) + ")"@
}

/// Formats `btleplug`'s `CharPropFlags` of these bits with its `Debug`.
///
/// It is taken to write the names of the bits that are set, the least significant
/// first, with bars between them, or `0x0` where none is, inside the brackets of
/// `CharPropFlags`.
#[verifier::external_body]
pub(crate) fn properties_text(properties: u8) -> (text: String)
    ensures
        text@ == properties_chars(properties),
{
    format!("{:?}", CharPropFlags::from_bits_retain(properties))
}

/// Tells whether two UUIDs are the same.
fn same_uuid(a: &[u8; 16], b: &[u8; 16]) -> (same: bool)
    ensures
        same == (a@ == b@),
{
    let mut i: usize = 0;
    while i < 16
        invariant
            i <= 16,
            forall|j: int| 0 <= j < i ==> a@[j] == b@[j],
        decreases 16 - i,
    {
        if a[i] != b[i] {
            return false;
        }
        i += 1;
    }
    assert(a@ =~= b@);
    true
}

/// Characteristic `i` is the first with a UUID.
pub open spec fn is_first_with(
    characteristics: Seq<CharacteristicView>,
    uuid: Seq<u8>,
    i: int,
) -> bool {
    &&& 0 <= i < characteristics.len()
    &&& characteristics[i].uuid == uuid
    &&& forall|j: int| 0 <= j < i ==> (#[trigger] characteristics[j]).uuid != uuid
}

/// No characteristic has a UUID.
pub open spec fn none_with(characteristics: Seq<CharacteristicView>, uuid: Seq<u8>) -> bool {
    forall|j: int|
        0 <= j < characteristics.len() ==> (#[trigger] characteristics[j]).uuid != uuid
}

/// The first characteristic with a UUID.
pub open spec fn first_with(characteristics: Seq<CharacteristicView>, uuid: Seq<u8>) -> Option<
    int,
> {
    if none_with(characteristics, uuid) {
        None
    } else {
        Some(choose|i: int| is_first_with(characteristics, uuid, i))
    }
}

/// There is but one first characteristic with a UUID.
pub proof fn lemma_first_is_unique(
    characteristics: Seq<CharacteristicView>,
    uuid: Seq<u8>,
    i: int,
)
    requires
        is_first_with(characteristics, uuid, i),
    ensures
        first_with(characteristics, uuid) == Some(i),
{
    assert(characteristics[i].uuid == uuid);
    let first = choose|k: int| is_first_with(characteristics, uuid, k);
    assert(is_first_with(characteristics, uuid, first));
    if first < i {
        assert(characteristics[first].uuid != uuid);
    } else if i < first {
        assert(characteristics[i].uuid != uuid);
    }
}

/// The contents of a list of characteristics.
pub open spec fn views(characteristics: Seq<Characteristic>) -> Seq<CharacteristicView> {
    characteristics.map_values(|c: Characteristic| c@)
}

/// Finds the first characteristic with a UUID.
pub fn find_characteristic(characteristics: &Vec<Characteristic>, uuid: &[u8; 16]) -> (index:
    Option<usize>)
    ensures
        index matches Some(i) ==> is_first_with(views(characteristics@), uuid@, i as int),
        index is None ==> none_with(views(characteristics@), uuid@),
        (match index {
            Some(i) => Some(i as int),
            None => None,
        }) == first_with(views(characteristics@), uuid@),
{
    let mut i: usize = 0;
    while i < characteristics.len()
        invariant
            i <= characteristics@.len(),
            forall|j: int|
                0 <= j < i ==> (#[trigger] views(characteristics@)[j]).uuid != uuid@,
        decreases characteristics@.len() - i,
    {
        if same_uuid(&characteristics[i].uuid, uuid) {
            proof {
                let all = views(characteristics@);
                assert(all[i as int].uuid == uuid@);
                lemma_first_is_unique(all, uuid@, i as int);
            }
            return Some(i);
        }
        i += 1;
    }
    None
}

/// Where the digits of byte `i` of a UUID stand in its text.
pub open spec fn digits_at(i: int) -> int {
    if i < 4 {
        2 * i
    } else if i < 6 {
        2 * i + 1
    } else if i < 8 {
        2 * i + 2
    } else if i < 10 {
        2 * i + 3
    } else {
        2 * i + 4
    }
}

/// A UUID as text is its bytes in their order, two digits in lower case each, with
/// hyphens after four, six, eight and ten of them.
pub proof fn law_uuid_is_its_digits(uuid: Seq<u8>, i: int)
    requires
        uuid.len() == 16,
        0 <= i < 16,
    ensures
        hyphenated(uuid).len() == 36,
        hyphenated(uuid)[8] == '-',
        hyphenated(uuid)[13] == '-',
        hyphenated(uuid)[18] == '-',
        hyphenated(uuid)[23] == '-',
        hyphenated(uuid)[digits_at(i)] == "0123456789abcdef"@[uuid[i] as int / 16],
        hyphenated(uuid)[digits_at(i) + 1] == "0123456789abcdef"@[uuid[i] as int % 16],
{
    let (from, to): (int, int) = if i < 4 {
        (0, 4)
    } else if i < 6 {
        (4, 6)
    } else if i < 8 {
        (6, 8)
    } else if i < 10 {
        (8, 10)
    } else {
        (10, 16)
    };
    let group = uuid.subrange(from, to);
    text::law_hex_text_is_digits(group, false, i - from);
    assert(group[i - from] == uuid[i]);
    assert(hyphenated(uuid)[digits_at(i)] == text::hex_text(group, false)[2 * (i - from)]);
    assert(hyphenated(uuid)[digits_at(i) + 1] == text::hex_text(group, false)[2 * (i - from) + 1]);
}

/// Properties with the same lowest bits have the same names among them.
proof fn lemma_names_below(a: u8, b: u8, count: nat)
    requires
        count <= 8,
        forall|j: u8| j < count ==> #[trigger] (a >> j) & 1 == #[trigger] (b >> j) & 1,
    ensures
        property_names(a, count) == property_names(b, count),
    decreases count,
{
    if count > 0 {
        let bit = (count - 1) as u8;
        lemma_names_below(a, b, (count - 1) as nat);
        assert((a >> bit) & 1 == (b >> bit) & 1);
    }
}

/// Bits that are not set have no names.
proof fn lemma_names_above(a: u8, from: nat, count: nat)
    requires
        from <= count <= 8,
        forall|j: u8| from <= j < count ==> #[trigger] (a >> j) & 1 == 0,
    ensures
        property_names(a, count) == property_names(a, from),
    decreases count,
{
    if from < count {
        let bit = (count - 1) as u8;
        assert((a >> bit) & 1 == 0);
        lemma_names_above(a, from, (count - 1) as nat);
    }
}

/// The name of a property is not empty.
proof fn lemma_name_is_not_empty(bit: int)
    ensures
        property_name(bit).len() > 0,
{
    reveal_strlit("BROADCAST");
    reveal_strlit("READ");
    reveal_strlit("WRITE_WITHOUT_RESPONSE");
    reveal_strlit("WRITE");
    reveal_strlit("NOTIFY");
    reveal_strlit("INDICATE");
    reveal_strlit("AUTHENTICATED_SIGNED_WRITES");
    reveal_strlit("EXTENDED_PROPERTIES");
}

/// Properties of which one is set have names.
proof fn lemma_names_are_not_empty(a: u8, bit: u8, count: nat)
    requires
        bit < count <= 8,
        (a >> bit) & 1 == 1,
    ensures
        property_names(a, count).len() > 0,
    decreases count,
{
    lemma_name_is_not_empty(count - 1);
    if bit < count - 1 {
        lemma_names_are_not_empty(a, bit, (count - 1) as nat);
    }
}

/// Some bit of a byte that is not zero is set.
proof fn lemma_some_bit_is_set(a: u8) -> (bit: u8)
    requires
        a != 0,
    ensures
        bit < 8,
        (a >> bit) & 1 == 1,
{
    assert((a >> 0u8) & 1 == 1 || (a >> 1u8) & 1 == 1 || (a >> 2u8) & 1 == 1 || (a >> 3u8) & 1 == 1
        || (a >> 4u8) & 1 == 1 || (a >> 5u8) & 1 == 1 || (a >> 6u8) & 1 == 1 || (a >> 7u8) & 1
        == 1) by (bit_vector)
        requires
            a != 0,
    ;
    if (a >> 0u8) & 1 == 1 {
        0
    } else if (a >> 1u8) & 1 == 1 {
        1
    } else if (a >> 2u8) & 1 == 1 {
        2
    } else if (a >> 3u8) & 1 == 1 {
        3
    } else if (a >> 4u8) & 1 == 1 {
        4
    } else if (a >> 5u8) & 1 == 1 {
        5
    } else if (a >> 6u8) & 1 == 1 {
        6
    } else {
        7
    }
}

/// No properties have a text of their own, and a property above all others adds its
/// name behind theirs.
pub proof fn law_properties_are_named(properties: u8, bit: u8)
    requires
        bit < 8,
        properties < 1u8 << bit,
    ensures
        properties_chars(0) == "CharPropFlags("@ + "0x0"@ + ")"@,
        ({
            let name = if bit == 0 {
                "BROADCAST"@
            } else if bit == 1 {
                "READ"@
            } else if bit == 2 {
                "WRITE_WITHOUT_RESPONSE"@
            } else if bit == 3 {
                "WRITE"@
            } else if bit == 4 {
                "NOTIFY"@
            } else if bit == 5 {
                "INDICATE"@
            } else if bit == 6 {
                "AUTHENTICATED_SIGNED_WRITES"@
            } else {
                "EXTENDED_PROPERTIES"@
            };
            properties_chars(properties | (1u8 << bit)) == if properties == 0 {
                "CharPropFlags("@ + name + ")"@
            } else {
                properties_chars(properties).drop_last() + " | "@ + name + ")"@
            }
        }),
{
    let more = properties | (1u8 << bit);
    assert(more != 0 && (more >> bit) & 1 == 1) by (bit_vector)
        requires
            more == properties | (1u8 << bit),
            bit < 8,
    ;
    assert forall|j: u8| j < bit implies #[trigger] (more >> j) & 1 == #[trigger] (properties >> j)
        & 1 by {
        assert((more >> j) & 1 == (properties >> j) & 1) by (bit_vector)
            requires
                more == properties | (1u8 << bit),
                bit < 8,
                j < bit,
        ;
    }
    assert forall|j: u8| bit < j < 8 implies #[trigger] (more >> j) & 1 == 0 by {
        assert((more >> j) & 1 == 0) by (bit_vector)
            requires
                more == properties | (1u8 << bit),
                properties < 1u8 << bit,
                bit < j < 8,
        ;
    }
    assert forall|j: u8| bit <= j < 8 implies #[trigger] (properties >> j) & 1 == 0 by {
        assert((properties >> j) & 1 == 0) by (bit_vector)
            requires
                properties < 1u8 << bit,
                bit <= j < 8,
        ;
    }
    lemma_names_below(more, properties, bit as nat);
    lemma_names_above(more, (bit + 1) as nat, 8);
    lemma_names_above(properties, bit as nat, 8);
    let before = property_names(properties, bit as nat);
    if properties != 0 {
        let set = lemma_some_bit_is_set(properties);
        assert(set < bit);
        lemma_names_are_not_empty(properties, set, bit as nat);
        reveal_strlit(")");
        assert(properties_chars(properties).drop_last() =~= "CharPropFlags("@ + before);
        assert(properties_chars(more) =~= properties_chars(properties).drop_last() + " | "@
            + property_name(bit as int) + ")"@);
    } else {
        lemma_no_names(bit as nat);
    }
}

/// No properties have no names.
proof fn lemma_no_names(count: nat)
    requires
        count <= 8,
    ensures
        property_names(0, count).len() == 0,
    decreases count,
{
    if count > 0 {
        let bit = (count - 1) as u8;
        assert((0u8 >> bit) & 1 == 0) by (bit_vector);
        lemma_no_names((count - 1) as nat);
    }
}

/// What is found is the first characteristic with a UUID, and nothing is found just
/// where none has it.
pub proof fn law_first_is_found(list: Seq<CharacteristicView>, uuid: Seq<u8>, i: int)
    requires
        0 <= i < list.len(),
    ensures
        first_with(list, uuid) == Some(i) <==> list[i].uuid == uuid && forall|j: int|
            0 <= j < i ==> (#[trigger] list[j]).uuid != uuid,
        first_with(list, uuid) is None <==> forall|j: int|
            0 <= j < list.len() ==> (#[trigger] list[j]).uuid != uuid,
        first_with(list, uuid) matches Some(k) ==> 0 <= k < list.len(),
{
    if !none_with(list, uuid) {
        let found = lemma_some_is_first(list, uuid, 0);
        lemma_first_is_unique(list, uuid, found);
    }
    if is_first_with(list, uuid, i) {
        lemma_first_is_unique(list, uuid, i);
    }
}

/// Where some characteristic has a UUID, one is the first.
proof fn lemma_some_is_first(list: Seq<CharacteristicView>, uuid: Seq<u8>, from: int) -> (first:
    int)
    requires
        0 <= from <= list.len(),
        !none_with(list, uuid),
        forall|j: int| 0 <= j < from ==> (#[trigger] list[j]).uuid != uuid,
    ensures
        is_first_with(list, uuid, first),
    decreases list.len() - from,
{
    if from == list.len() {
        assert(none_with(list, uuid));
        from
    } else if list[from].uuid == uuid {
        from
    } else {
        lemma_some_is_first(list, uuid, from + 1)
    }
}

} // verus!
