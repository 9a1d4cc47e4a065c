//! Readings of the SHT41 temperature and humidity sensor.
use vstd::prelude::*;

verus! {

/// Temperature in whole degrees Celsius and relative humidity in whole percent.
#[derive(Clone, Copy, Debug, PartialEq, Eq, Structural)]
pub struct Climate {
    pub temp_int: i16,
    pub hum_int: i16,
}

/// A 16-bit sensor word, high byte first.
pub open spec fn word(high: u8, low: u8) -> int {
    256 * high + low
}

/// Degrees Celsius of a raw temperature word: the sensor spreads 175 degrees
/// above -45 over the range of a word.
pub open spec fn celsius(raw: int) -> int {
    -45 + 175 * raw / 65535
}

/// Percent of a raw humidity word: the sensor spreads 125 percent above -6
/// over the range of a word.
pub open spec fn percent(raw: int) -> int {
    -6 + 125 * raw / 65535
}

impl Climate {
    /// Whether the sensor can report this reading.
    pub open spec fn wf(self) -> bool {
        &&& -45 <= self.temp_int <= 130
        &&& -6 <= self.hum_int <= 119
    }

    /// The reading before the sensor has answered for the first time.
    pub fn new() -> (climate: Climate)
        ensures
            climate.wf(),
            climate.temp_int == 0,
            climate.hum_int == 0,
    {
        Climate { temp_int: 0, hum_int: 0 }
    }

    /// The reading in a sensor frame: the temperature word, its checksum, the
    /// humidity word, its checksum. The checksums are not looked at.
    pub fn decode(data: &[u8; 6]) -> (climate: Climate)
        ensures
            climate.wf(),
            climate.temp_int == celsius(word(data[0], data[1])),
            climate.hum_int == percent(word(data[3], data[4])),
    {
        let temp_raw: u16 = join_bytes(data[0], data[1]);
        let hum_raw: u16 = join_bytes(data[3], data[4]);
        Climate {
            temp_int: -45 + ((175 * temp_raw as i32) / 65535) as i16,
            hum_int: -6 + ((125 * hum_raw as i32) / 65535) as i16,
        }
    }
}

/// The word that two bytes form, high byte first.
fn join_bytes(high: u8, low: u8) -> (raw: u16)
    ensures
        raw == word(high, low),
{
    assert((high as u16) << 8 | low as u16 == 256 * high + low) by (bit_vector);
    ((high as u16) << 8) | (low as u16)
}

} // verus!
