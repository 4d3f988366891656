//! The UTM zone number and the MGRS latitude band of a position.

use crate::decimal::{decimal_digits, push_decimal};
use crate::degrees::Degrees;
use crate::errors::UTMZoneError;
use vstd::prelude::*;

verus! {

/// The band letters from south to north: `'C'` to `'X'` without `'I'` and
/// `'O'`.
pub open spec fn band_letters() -> Seq<char> {
    seq![
        'C', 'D', 'E', 'F', 'G', 'H', 'J', 'K', 'L', 'M', 'N', 'P', 'Q', 'R', 'S', 'T', 'U', 'V',
        'W', 'X',
    ]
}

/// The latitudes that have a band: from -80 degrees up to, but not
/// including, 84 degrees.
pub open spec fn in_band_range(latitude: Degrees) -> bool {
    latitude.at_least(-80) && latitude.below(84)
}

/// The place of a latitude's band among the band letters. Bands are 8 degrees
/// high and start at -80 degrees. The 4 degrees that are left between 80 and
/// 84 have no band of their own: they belong to the last one.
pub open spec fn band_index(latitude: Degrees) -> int {
    if latitude.at_least(80) {
        19
    } else {
        (latitude.whole + 80) / 8
    }
}

/// The band letter of a latitude within the band range.
pub open spec fn band_letter(latitude: Degrees) -> char {
    band_letters()[band_index(latitude)]
}

/// The latitudes that the zone number is defined for: -90 to 90 degrees.
pub open spec fn in_latitude_range(latitude: Degrees) -> bool {
    latitude.at_least(-90) && latitude.at_most(90)
}

/// The longitudes that the zone number is defined for: -180 to 180 degrees.
pub open spec fn in_longitude_range(longitude: Degrees) -> bool {
    longitude.at_least(-180) && longitude.at_most(180)
}

/// The zone number of a position within the two ranges. Zones are 6 degrees
/// wide and counted from 1 at -180 degrees, but for the widened zone over
/// southwest Norway and the four zones that cover Svalbard.
pub open spec fn zone_number(latitude: Degrees, longitude: Degrees) -> int {
    if latitude.above(55) && latitude.below(64) && longitude.above(2) && longitude.below(6) {
        32
    } else if latitude.above(71) && longitude.at_least(6) && longitude.below(9) {
        31
    } else if latitude.above(71) && (longitude.at_least(9) && longitude.below(12)
        || longitude.at_least(18) && longitude.below(21)) {
        33
    } else if latitude.above(71) && (longitude.at_least(21) && longitude.below(24)
        || longitude.at_least(30) && longitude.below(33)) {
        35
    } else {
        ((longitude.whole + 180) / 6) % 60 + 1
    }
}

/// The zone number and band letter of a position, or the coordinate that is
/// out of range. The latitude is held to the range of the zone number first,
/// then the longitude, and last the latitude to the narrower band range.
pub open spec fn utm_zone(latitude: Degrees, longitude: Degrees) -> Result<
    (u32, char),
    UTMZoneError,
> {
    if !in_latitude_range(latitude) {
        Err(UTMZoneError::InvalidLatitude(latitude))
    } else if !in_longitude_range(longitude) {
        Err(UTMZoneError::InvalidLongitude(longitude))
    } else if !in_band_range(latitude) {
        Err(UTMZoneError::InvalidLatitude(latitude))
    } else {
        Ok((zone_number(latitude, longitude) as u32, band_letter(latitude)))
    }
}

/// The zone number followed by the band letter, as in `18T`.
pub open spec fn zone_label(zone: u32, band: char) -> Seq<char> {
    decimal_digits(zone as nat).push(band)
}

/// The definitions above, which read a position through `Degrees`, say of a
/// position what the usual formulas say of its latitude `lat` and longitude
/// `lon` taken as real numbers of degrees.
pub proof fn lemma_on_angles(latitude: Degrees, longitude: Degrees, lat: real, lon: real)
    requires
        latitude.holds(lat),
        longitude.holds(lon),
    ensures
        in_latitude_range(latitude) <==> -90real <= lat <= 90real,
        in_longitude_range(longitude) <==> -180real <= lon <= 180real,
        in_band_range(latitude) <==> -80real <= lat < 84real,
        band_index(latitude) == if lat >= 80real {
            19
        } else {
            ((lat + 80real) / 8real).floor()
        },
        zone_number(latitude, longitude) == if 55real < lat < 64real && 2real < lon < 6real {
            32
        } else if lat > 71real && 6real <= lon < 9real {
            31
        } else if lat > 71real && (9real <= lon < 12real || 18real <= lon < 21real) {
            33
        } else if lat > 71real && (21real <= lon < 24real || 30real <= lon < 33real) {
            35
        } else {
            ((lon + 180real) / 6real).floor() % 60 + 1
        },
{
}

/// The band letters are the letters from `'C'` to `'X'` other than `'I'` and
/// `'O'`, each once and in alphabetical order.
pub proof fn lemma_band_letters()
    ensures
        band_letters().len() == 20,
        forall|i: int, j: int|
            0 <= i < j < 20 ==> (#[trigger] band_letters()[i]) < (#[trigger] band_letters()[j]),
        forall|c: char|
            band_letters().contains(c) <==> 'C' <= c <= 'X' && c != 'I' && c != 'O',
{
    let letters = band_letters();
    assert forall|c: char| 'C' <= c <= 'X' && c != 'I' && c != 'O' implies letters.contains(
        c,
    ) by {
        let place = c as int - 'C' as int - if c > 'O' {
            2int
        } else if c > 'I' {
            1int
        } else {
            0int
        };
        assert(letters[place] == c);
    }
}

/// Every latitude within the band range has a band letter, and that letter
/// is never `'I'` or `'O'`.
pub proof fn lemma_band_letter_in_alphabet(latitude: Degrees)
    requires
        in_band_range(latitude),
    ensures
        0 <= band_index(latitude) < 20,
        band_letters().contains(band_letter(latitude)),
        band_letter(latitude) != 'I',
        band_letter(latitude) != 'O',
{
    lemma_band_letters();
}

/// Looks up the MGRS latitude band of a latitude.
///
/// A latitude below -80 degrees, or at or above 84 degrees, is refused.
pub fn get_mgrs_latitude_band(latitude: Degrees) -> (r: Result<char, UTMZoneError>)
    ensures
        r == if in_band_range(latitude) {
            Ok::<char, UTMZoneError>(band_letter(latitude))
        } else {
            Err(UTMZoneError::InvalidLatitude(latitude))
        },
        r matches Ok(band) ==> 'C' <= band <= 'X' && band != 'I' && band != 'O',
{
    if latitude.is_below(-80) || latitude.is_at_least(84) {
        return Err(UTMZoneError::InvalidLatitude(latitude));
    }
    let bands: [char; 20] = [
        'C', 'D', 'E', 'F', 'G', 'H', 'J', 'K', 'L', 'M', 'N', 'P', 'Q', 'R', 'S', 'T', 'U', 'V',
        'W', 'X',
    ];
    let index: usize = if latitude.is_at_least(80) {
        19
    } else {
        ((latitude.whole + 80) / 8) as usize
    };
    assert(bands@ == band_letters());
    Ok(bands[index])
}

/// Finds the UTM zone number and the MGRS latitude band of a position.
///
/// The result is what `utm_zone` says: a latitude outside -90 to 90 degrees
/// is refused first, then a longitude outside -180 to 180 degrees, then a
/// latitude that has no band.
pub fn calculate_utm_zone(latitude: Degrees, longitude: Degrees) -> (r: Result<
    (u32, char),
    UTMZoneError,
>)
    ensures
        r == utm_zone(latitude, longitude),
        r matches Ok((zone, band)) ==> 1 <= zone <= 60 && 'C' <= band <= 'X' && band != 'I'
            && band != 'O',
{
    if latitude.is_below(-90) || latitude.is_above(90) {
        return Err(UTMZoneError::InvalidLatitude(latitude));
    }
    if longitude.is_below(-180) || longitude.is_above(180) {
        return Err(UTMZoneError::InvalidLongitude(longitude));
    }
    let zone_number: u32 = if latitude.is_above(55) && latitude.is_below(64) && longitude.is_above(
        2,
    ) && longitude.is_below(6) {
        32
    } else if latitude.is_above(71) && longitude.is_at_least(6) && longitude.is_below(9) {
        31
    } else if latitude.is_above(71) && (longitude.is_at_least(9) && longitude.is_below(12)
        || longitude.is_at_least(18) && longitude.is_below(21)) {
        33
    } else if latitude.is_above(71) && (longitude.is_at_least(21) && longitude.is_below(24)
        || longitude.is_at_least(30) && longitude.is_below(33)) {
        35
    } else {
        (((longitude.whole + 180) / 6) as u32) % 60 + 1
    };
    let latitude_band = get_mgrs_latitude_band(latitude)?;
    Ok((zone_number, latitude_band))
}

/// Finds the zone of a position and writes it as one label, the zone number
/// followed by the band letter.
pub fn get_utm_zone_from_lat_lon(latitude: Degrees, longitude: Degrees) -> (r: Result<
    String,
    UTMZoneError,
>)
    ensures
        match utm_zone(latitude, longitude) {
            Ok((zone, band)) => r matches Ok(label) && label@ == zone_label(zone, band),
            Err(e) => r == Err::<String, UTMZoneError>(e),
        },
{
    match calculate_utm_zone(latitude, longitude) {
        Ok((zone_number, latitude_band)) => {
            let mut label = String::new();
            push_decimal(&mut label, zone_number);
            label.push(latitude_band);
            Ok(label)
        },
        Err(err) => Err(err),
    }
}

} // verus!
