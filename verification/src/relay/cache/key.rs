//! What tells cached shreds apart.
use crate::shred::{common_header, ParsedShredHeader};
use vstd::prelude::*;

verus! {

/// What tells a cached shred apart: its signature as four numbers, its slot, its index, its
/// forward error correction set, its version and its variant.
pub type CachedShredKey = (u128, u128, u128, u128, u64, u32, u32, u16, u8);

/// The number that some bytes spell, the high one first.
pub open spec fn spelled_number(bytes: Seq<u8>) -> nat
    decreases bytes.len(),
{
    if bytes.len() == 0 {
        0
    } else {
        spelled_number(bytes.drop_last()) * 256 + bytes.last() as nat
    }
}

/// The key of a packet, if it is long enough to have one.
pub open spec fn cached_key(packet: Seq<u8>, header: ParsedShredHeader) -> Option<CachedShredKey> {
    if packet.len() < 65 {
        None
    } else {
        let common = common_header(header);
        Some(
            (
                spelled_number(packet.subrange(0, 16)) as u128,
                spelled_number(packet.subrange(16, 32)) as u128,
                spelled_number(packet.subrange(32, 48)) as u128,
                spelled_number(packet.subrange(48, 64)) as u128,
                common.slot,
                common.index,
                common.fec_set_index,
                common.version,
                packet[64],
            ),
        )
    }
}

/// Whether a key comes before another one.
pub open spec fn key_less(a: CachedShredKey, b: CachedShredKey) -> bool {
    if a.0 != b.0 {
        a.0 < b.0
    } else if a.1 != b.1 {
        a.1 < b.1
    } else if a.2 != b.2 {
        a.2 < b.2
    } else if a.3 != b.3 {
        a.3 < b.3
    } else if a.4 != b.4 {
        a.4 < b.4
    } else if a.5 != b.5 {
        a.5 < b.5
    } else if a.6 != b.6 {
        a.6 < b.6
    } else if a.7 != b.7 {
        a.7 < b.7
    } else {
        a.8 < b.8
    }
}

spec fn spelling_limit(digits: nat) -> nat
    decreases digits,
{
    if digits == 0 {
        1
    } else {
        256 * spelling_limit((digits - 1) as nat)
    }
}

proof fn limits_grow(a: nat, b: nat)
    requires
        a <= b,
    ensures
        spelling_limit(a) <= spelling_limit(b),
    decreases b,
{
    if a < b {
        limits_grow(a, (b - 1) as nat);
    }
}

proof fn spelled_number_is_limited(bytes: Seq<u8>)
    ensures
        spelled_number(bytes) < spelling_limit(bytes.len()),
    decreases bytes.len(),
{
    if bytes.len() > 0 {
        spelled_number_is_limited(bytes.drop_last());
    }
}

proof fn sixteen_bytes_fit(bytes: Seq<u8>)
    requires
        bytes.len() <= 16,
    ensures
        spelled_number(bytes) <= u128::MAX,
{
    spelled_number_is_limited(bytes);
    limits_grow(bytes.len(), 16);
    reveal_with_fuel(spelling_limit, 17);
    assert(spelling_limit(16) == 0x1_0000_0000_0000_0000_0000_0000_0000_0000);
}

/// The number that sixteen bytes spell, the high one first.
fn number_at(packet: &[u8], start: usize) -> (r: u128)
    requires
        start + 16 <= packet@.len(),
    ensures
        r == spelled_number(packet@.subrange(start as int, start + 16)),
{
    let len: usize = packet.len();
    let mut number: u128 = 0;
    let mut i: usize = 0;
    while i < 16
        invariant
            i <= 16,
            len == packet@.len(),
            start + 16 <= len,
            number == spelled_number(packet@.subrange(start as int, start + i)),
        decreases 16 - i,
    {
        proof {
            let longer = packet@.subrange(start as int, start + i + 1);
            assert(longer.drop_last() =~= packet@.subrange(start as int, start + i));
            sixteen_bytes_fit(longer);
        }
        number = number * 256 + packet[start + i] as u128;
        i += 1;
    }
    number
}

/// The key of a packet, if it is long enough to have one.
pub fn make_cached_shred_key(packet: &[u8], parsed_shred: &ParsedShredHeader) -> (r: Option<CachedShredKey>)
    ensures
        r == cached_key(packet@, *parsed_shred),
{
    if packet.len() < 65 {
        return None;
    }
    let common = match parsed_shred {
        ParsedShredHeader::Data(data) => data.common,
        ParsedShredHeader::Code(code) => code.common,
    };
    let a: u128 = number_at(packet, 0);
    let b: u128 = number_at(packet, 16);
    let c: u128 = number_at(packet, 32);
    let d: u128 = number_at(packet, 48);
    Some((a, b, c, d, common.slot, common.index, common.fec_set_index, common.version, packet[64]))
}

/// Whether two keys are the same.
pub fn same_key(a: CachedShredKey, b: CachedShredKey) -> (r: bool)
    ensures
        r == (a == b),
{
    a.0 == b.0 && a.1 == b.1 && a.2 == b.2 && a.3 == b.3 && a.4 == b.4 && a.5 == b.5 && a.6 == b.6 && a.7
        == b.7 && a.8 == b.8
}

proof fn numbers_spell_one_string(a: Seq<u8>, b: Seq<u8>)
    requires
        a.len() == b.len(),
        spelled_number(a) == spelled_number(b),
    ensures
        a == b,
    decreases a.len(),
{
    if a.len() > 0 {
        assert(spelled_number(a.drop_last()) == spelled_number(b.drop_last()) && a.last() == b.last());
        numbers_spell_one_string(a.drop_last(), b.drop_last());
        assert(a =~= a.drop_last().push(a.last()));
        assert(b =~= b.drop_last().push(b.last()));
    } else {
        assert(a =~= b);
    }
}

/// Two packets have one key exactly if they agree in signature, variant and the fields that every
/// shred has.
pub proof fn keys_tell_shreds_apart(
    a: Seq<u8>,
    a_header: ParsedShredHeader,
    b: Seq<u8>,
    b_header: ParsedShredHeader,
)
    requires
        a.len() >= 65,
        b.len() >= 65,
    ensures
        cached_key(a, a_header) == cached_key(b, b_header) <==> a.take(65) == b.take(65)
            && common_header(a_header) == common_header(b_header),
{
    sixteen_bytes_fit(a.subrange(0, 16));
    sixteen_bytes_fit(a.subrange(16, 32));
    sixteen_bytes_fit(a.subrange(32, 48));
    sixteen_bytes_fit(a.subrange(48, 64));
    sixteen_bytes_fit(b.subrange(0, 16));
    sixteen_bytes_fit(b.subrange(16, 32));
    sixteen_bytes_fit(b.subrange(32, 48));
    sixteen_bytes_fit(b.subrange(48, 64));
    if cached_key(a, a_header) == cached_key(b, b_header) {
        numbers_spell_one_string(a.subrange(0, 16), b.subrange(0, 16));
        numbers_spell_one_string(a.subrange(16, 32), b.subrange(16, 32));
        numbers_spell_one_string(a.subrange(32, 48), b.subrange(32, 48));
        numbers_spell_one_string(a.subrange(48, 64), b.subrange(48, 64));
        assert forall|i: int| 0 <= i < 65 implies a[i] == b[i] by {
            if i < 16 {
                assert(a.subrange(0, 16)[i] == b.subrange(0, 16)[i]);
            } else if i < 32 {
                assert(a.subrange(16, 32)[i - 16] == b.subrange(16, 32)[i - 16]);
            } else if i < 48 {
                assert(a.subrange(32, 48)[i - 32] == b.subrange(32, 48)[i - 32]);
            } else if i < 64 {
                assert(a.subrange(48, 64)[i - 48] == b.subrange(48, 64)[i - 48]);
            }
        }
        assert(a.take(65) =~= b.take(65));
    }
    if a.take(65) == b.take(65) {
        assert forall|i: int| 0 <= i < 65 implies a[i] == b[i] by {
            assert(a.take(65)[i] == b.take(65)[i]);
        }
        assert(a.subrange(0, 16) =~= b.subrange(0, 16));
        assert(a.subrange(16, 32) =~= b.subrange(16, 32));
        assert(a.subrange(32, 48) =~= b.subrange(32, 48));
        assert(a.subrange(48, 64) =~= b.subrange(48, 64));
    }
}

/// The key of a packet tells its slot, index, forward error correction set, version and variant; a
/// packet without a whole signature and a variant behind it has none.
pub proof fn keys_tell_of_their_shreds(packet: Seq<u8>, header: ParsedShredHeader)
    ensures
        cached_key(packet, header) is Some <==> packet.len() > 64,
        cached_key(packet, header) matches Some(key) ==> {
            let common = match header {
                ParsedShredHeader::Data(data) => data.common,
                ParsedShredHeader::Code(code) => code.common,
            };
            &&& key.4 == common.slot
            &&& key.5 == common.index
            &&& key.6 == common.fec_set_index
            &&& key.7 == common.version
            &&& key.8 == packet[64]
        },
{
}

/// Keys are ordered: none comes before itself, of two different ones exactly one comes before the other,
/// and what comes before a key that comes before a third comes before the third.
pub proof fn keys_are_ordered(a: CachedShredKey, b: CachedShredKey, c: CachedShredKey)
    ensures
        !key_less(a, a),
        a != b ==> (key_less(a, b) <==> !key_less(b, a)),
        key_less(a, b) && key_less(b, c) ==> key_less(a, c),
        key_less(a, b) ==> a.0 <= b.0,
{
}

} // verus!
