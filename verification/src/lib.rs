//! Numeric conversions with proved contracts: two's complement binary strings
//! to and from signed integers, and the UTM zone number with the MGRS latitude
//! band of a position.
//!
//! Every function is pure and total: what cannot be converted is reported as
//! an error value, never by a panic.

pub mod bits;
pub mod decimal;
pub mod degrees;
pub mod errors;
pub mod trusted;
pub mod twos_complement;
pub mod utm;

pub use degrees::Degrees;
pub use errors::{TwosComplementError, UTMZoneError};
pub use twos_complement::{
    calculate_twos_complement, calculate_twos_complement_rust, decimal_to_twos_complement,
    decimal_to_twos_complement_rust,
};
pub use utm::{calculate_utm_zone, get_mgrs_latitude_band, get_utm_zone_from_lat_lon};
