//! Bytes of an uplink.
use vstd::prelude::*;

verus! {

/// Low 16 bits of `v` in two's complement, high byte first.
pub open spec fn be16(v: int) -> Seq<u8> {
    seq![(v / 256 % 256) as u8, (v % 256) as u8]
}

/// Low 32 bits of `v`, high byte first.
pub open spec fn be32(v: int) -> Seq<u8> {
    be16(v / 65536) + be16(v)
}

/// Payload of a sensor uplink: hundredths of a degree, then hundredths of a
/// percent, 16 bits each in two's complement, high byte first.
pub open spec fn climate_bytes(temp_int: int, hum_int: int) -> Seq<u8> {
    be16(100 * temp_int) + be16(100 * hum_int)
}

/// Payload of a sensor uplink.
pub fn climate_payload(temp_int: i16, hum_int: i16) -> (payload: [u8; 4])
    requires
        i16::MIN <= 100 * temp_int <= i16::MAX,
        i16::MIN <= 100 * hum_int <= i16::MAX,
    ensures
        payload@ == climate_bytes(temp_int as int, hum_int as int),
{
    let temp_encoded: i16 = temp_int * 100;
    let hum_wide: i16 = hum_int * 100;
    let hum_encoded: u16 = hum_wide as u16;
    proof {
        lemma_high_low(temp_encoded);
        lemma_high_low(hum_wide);
    }
    assert((temp_encoded >> 8) as u8 == (temp_encoded as u16 >> 8) as u8) by (bit_vector);
    assert(temp_encoded as u8 == (temp_encoded as u16) as u8) by (bit_vector);
    let payload: [u8; 4] = [
        (temp_encoded >> 8) as u8,
        temp_encoded as u8,
        (hum_encoded >> 8) as u8,
        hum_encoded as u8,
    ];
    assert(payload@ =~= climate_bytes(temp_int as int, hum_int as int));
    payload
}

/// Payload of a range-probe uplink: the packet counter, high byte first, so that
/// lost packets show as gaps.
pub fn counter_payload(tx_count: u32) -> (payload: [u8; 4])
    ensures
        payload@ == be32(tx_count as int),
{
    assert((tx_count >> 24) as u8 == tx_count / 65536 / 256 % 256) by (bit_vector);
    assert((tx_count >> 16) as u8 == tx_count / 65536 % 256) by (bit_vector);
    assert((tx_count >> 8) as u8 == tx_count / 256 % 256) by (bit_vector);
    assert(tx_count as u8 == tx_count % 256) by (bit_vector);
    let payload: [u8; 4] = [
        (tx_count >> 24) as u8,
        (tx_count >> 16) as u8,
        (tx_count >> 8) as u8,
        tx_count as u8,
    ];
    assert(payload@ =~= be32(tx_count as int));
    payload
}

/// The two bytes of a 16-bit word, as the machine takes them.
proof fn lemma_high_low(v: i16)
    ensures
        (v as u16 >> 8) as u8 == v as int / 256 % 256,
        (v as u16) as u8 == v as int % 256,
{
    let u = v as u16;
    assert(v < 0 ==> u == v + 65536) by (bit_vector)
        requires
            u == v as u16,
    ;
    assert(v >= 0 ==> u == v) by (bit_vector)
        requires
            u == v as u16,
    ;
    assert((u >> 8) as u8 == u / 256) by (bit_vector);
    assert(u as u8 == u % 256) by (bit_vector);
}

} // verus!
