use vstd::prelude::*;

verus! {

/// Where a beneficiary lives or a disaster struck.
///
/// The two coordinates are kept as the bit patterns of IEEE 754 double
/// precision numbers (what `f64::to_bits` gives), so that the range rules can
/// be decided with integer comparisons alone.
#[derive(Clone, Debug, PartialEq, Eq)]
pub struct Location {
    /// ISO country code, such as "NP".
    pub country: String,
    /// State, province or district.
    pub region: String,
    /// City or municipality.
    pub city: String,
    /// Neighbourhood; may be empty.
    pub area: String,
    /// Latitude in degrees, as the bits of a double.
    pub latitude_bits: u64,
    /// Longitude in degrees, as the bits of a double.
    pub longitude_bits: u64,
}

/// The bits of the double 90.0.
pub const LATITUDE_LIMIT_BITS: u64 = 0x4056_8000_0000_0000;

/// The bits of the double 180.0.
pub const LONGITUDE_LIMIT_BITS: u64 = 0x4066_8000_0000_0000;

/// The sign bit of a double.
pub const SIGN_BIT: u64 = 0x8000_0000_0000_0000;

/// The bits of a double with its sign cleared: the bits of its absolute value.
///
/// Among doubles that are numbers, a larger absolute value has larger such
/// bits, and every infinity and NaN has larger bits than every finite number.
pub open spec fn magnitude_bits(bits: u64) -> int {
    if bits >= SIGN_BIT {
        bits - SIGN_BIT
    } else {
        bits as int
    }
}

/// Whether the double with these bits lies between -90 and 90, ends included.
pub open spec fn latitude_in_range(bits: u64) -> bool {
    magnitude_bits(bits) <= LATITUDE_LIMIT_BITS
}

/// Whether the double with these bits lies between -180 and 180, ends included.
pub open spec fn longitude_in_range(bits: u64) -> bool {
    magnitude_bits(bits) <= LONGITUDE_LIMIT_BITS
}

impl Location {
    pub const MAX_COUNTRY_LEN: usize = 2;
    pub const MAX_REGION_LEN: usize = 100;
    pub const MAX_CITY_LEN: usize = 100;
    pub const MAX_AREA_LEN: usize = 200;

    /// Whether both coordinates are in range. NaN and the infinities are not.
    pub open spec fn coordinates_valid(&self) -> bool {
        latitude_in_range(self.latitude_bits) && longitude_in_range(self.longitude_bits)
    }

    /// Decides whether the latitude is in range.
    pub fn has_valid_latitude(&self) -> (ok: bool)
        ensures
            ok == latitude_in_range(self.latitude_bits),
    {
        let bits = self.latitude_bits;
        let magnitude = if bits >= SIGN_BIT { bits - SIGN_BIT } else { bits };
        magnitude <= LATITUDE_LIMIT_BITS
    }

    /// Decides whether the longitude is in range.
    pub fn has_valid_longitude(&self) -> (ok: bool)
        ensures
            ok == longitude_in_range(self.longitude_bits),
    {
        let bits = self.longitude_bits;
        let magnitude = if bits >= SIGN_BIT { bits - SIGN_BIT } else { bits };
        magnitude <= LONGITUDE_LIMIT_BITS
    }
}

} // verus!
