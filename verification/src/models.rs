use vstd::prelude::*;

verus! {

/// A 64-bit IEEE-754 value carried opaquely as its raw bit pattern.
///
/// The library never interprets the number itself: distances and decimal
/// coordinates are computed by callers and flow through the library
/// unchanged, so they are held as the raw bits of the underlying value.
/// Callers convert with the standard `to_bits` / `from_bits` operations.
#[derive(Clone, Copy, PartialEq, Eq, Structural, Debug)]
pub struct FloatBits {
    pub bits: u64,
}

/// A (latitude, longitude) pair in decimal degrees.
///
/// No range invariant is enforced: out-of-range values are accepted and may
/// cause a calculator to fail or to return a nonsensical result.
#[derive(Clone, Copy, PartialEq, Eq, Structural, Debug)]
pub struct Coordinates {
    pub latitude: FloatBits,
    pub longitude: FloatBits,
}

impl Coordinates {
    pub fn new(latitude: FloatBits, longitude: FloatBits) -> (r: Self)
        ensures
            r == (Coordinates { latitude, longitude }),
    {
        Self { latitude, longitude }
    }
}

/// An airport record resolved from the backing store.
///
/// The decimal coordinate (`lat_decimal`, `lon_decimal`) is what the route
/// logic reads; the sexagesimal fields are retained for provenance only.
#[derive(Clone, PartialEq, Debug)]
pub struct Airport {
    pub id: u32,
    pub icao_code: String,
    pub iata_code: String,
    pub name: String,
    pub city: String,
    pub country: String,
    pub lat_deg: i64,
    pub lat_min: i64,
    pub lat_sec: i64,
    pub lat_dir: String,
    pub lon_deg: i64,
    pub lon_min: i64,
    pub lon_sec: i64,
    pub lon_dir: String,
    pub altitude: i64,
    pub lat_decimal: FloatBits,
    pub lon_decimal: FloatBits,
}

impl Airport {
    /// A field-wise copy, proved to preserve the record's value.
    pub fn duplicate(&self) -> (r: Airport)
        ensures
            r == *self,
    {
        Airport {
            id: self.id,
            icao_code: self.icao_code.clone(),
            iata_code: self.iata_code.clone(),
            name: self.name.clone(),
            city: self.city.clone(),
            country: self.country.clone(),
            lat_deg: self.lat_deg,
            lat_min: self.lat_min,
            lat_sec: self.lat_sec,
            lat_dir: self.lat_dir.clone(),
            lon_deg: self.lon_deg,
            lon_min: self.lon_min,
            lon_sec: self.lon_sec,
            lon_dir: self.lon_dir.clone(),
            altitude: self.altitude,
            lat_decimal: self.lat_decimal,
            lon_decimal: self.lon_decimal,
        }
    }
}

/// An enumerated reference ellipsoid. Selecting a datum is orthogonal to
/// selecting a formula.
#[derive(Debug, Clone, Copy, PartialEq, Eq, Structural)]
pub enum Datum {
    WGS84,
    NAD27,
    NAD83,
}

impl Default for Datum {
    fn default() -> (r: Self)
        ensures
            r == Datum::WGS84,
    {
        Datum::WGS84
    }
}

/// An enumerated calculation strategy.
#[derive(Debug, Clone, Copy, PartialEq, Eq, Structural)]
pub enum Formula {
    GreatCircle,
    Haversine,
    Vincenty,
}

impl Default for Formula {
    fn default() -> (r: Self)
        ensures
            r == Formula::GreatCircle,
    {
        Formula::GreatCircle
    }
}

/// The three physical constants of a reference ellipsoid.
///
/// Lengths are exact integers in nanometers (one nanometer is 1e-12 km), and
/// the dimensionless inverse flattening is an exact integer in units of
/// 1e-12, so that each constant carries its decimal value without rounding.
/// Callers recover the value in kilometers (or the plain ratio) by dividing
/// by 1e12.
#[derive(Clone, Copy, PartialEq, Eq, Structural, Debug)]
pub struct DatumConstants {
    pub earth_radius_in_nanometers: u64,
    pub semi_minor_axis_in_nanometers: u64,
    pub inverse_flattening_in_trillionths: u64,
}

pub const WGS84_EARTH_RADIUS_IN_NANOMETERS: u64 = 6_378_137_000_000_000;

pub const WGS84_SEMI_MINOR_AXIS_IN_NANOMETERS: u64 = 6_356_752_314_245_000;

pub const WGS84_INVERSE_FLATTENING_IN_TRILLIONTHS: u64 = 298_257_223_563_000;

pub const NAD27_EARTH_RADIUS_IN_NANOMETERS: u64 = 6_378_206_400_000_000;

pub const NAD27_SEMI_MINOR_AXIS_IN_NANOMETERS: u64 = 6_356_583_800_000_000;

pub const NAD27_INVERSE_FLATTENING_IN_TRILLIONTHS: u64 = 294_978_698_200_000;

pub const NAD83_EARTH_RADIUS_IN_NANOMETERS: u64 = 6_378_137_000_000_000;

pub const NAD83_SEMI_MINOR_AXIS_IN_NANOMETERS: u64 = 6_356_752_314_140_347;

pub const NAD83_INVERSE_FLATTENING_IN_TRILLIONTHS: u64 = 298_257_222_101_000;

/// The datum parameter table as a pure mathematical lookup.
pub open spec fn spec_datum_constants(datum: Datum) -> DatumConstants {
    match datum {
        Datum::WGS84 => DatumConstants {
            earth_radius_in_nanometers: WGS84_EARTH_RADIUS_IN_NANOMETERS,
            semi_minor_axis_in_nanometers: WGS84_SEMI_MINOR_AXIS_IN_NANOMETERS,
            inverse_flattening_in_trillionths: WGS84_INVERSE_FLATTENING_IN_TRILLIONTHS,
        },
        Datum::NAD27 => DatumConstants {
            earth_radius_in_nanometers: NAD27_EARTH_RADIUS_IN_NANOMETERS,
            semi_minor_axis_in_nanometers: NAD27_SEMI_MINOR_AXIS_IN_NANOMETERS,
            inverse_flattening_in_trillionths: NAD27_INVERSE_FLATTENING_IN_TRILLIONTHS,
        },
        Datum::NAD83 => DatumConstants {
            earth_radius_in_nanometers: NAD83_EARTH_RADIUS_IN_NANOMETERS,
            semi_minor_axis_in_nanometers: NAD83_SEMI_MINOR_AXIS_IN_NANOMETERS,
            inverse_flattening_in_trillionths: NAD83_INVERSE_FLATTENING_IN_TRILLIONTHS,
        },
    }
}

impl Datum {
    /// The datum parameter table: a pure, total lookup with no error path.
    pub fn constants(&self) -> (r: DatumConstants)
        ensures
            r == spec_datum_constants(*self),
    {
        match self {
            Datum::WGS84 => DatumConstants {
                earth_radius_in_nanometers: WGS84_EARTH_RADIUS_IN_NANOMETERS,
                semi_minor_axis_in_nanometers: WGS84_SEMI_MINOR_AXIS_IN_NANOMETERS,
                inverse_flattening_in_trillionths: WGS84_INVERSE_FLATTENING_IN_TRILLIONTHS,
            },
            Datum::NAD27 => DatumConstants {
                earth_radius_in_nanometers: NAD27_EARTH_RADIUS_IN_NANOMETERS,
                semi_minor_axis_in_nanometers: NAD27_SEMI_MINOR_AXIS_IN_NANOMETERS,
                inverse_flattening_in_trillionths: NAD27_INVERSE_FLATTENING_IN_TRILLIONTHS,
            },
            Datum::NAD83 => DatumConstants {
                earth_radius_in_nanometers: NAD83_EARTH_RADIUS_IN_NANOMETERS,
                semi_minor_axis_in_nanometers: NAD83_SEMI_MINOR_AXIS_IN_NANOMETERS,
                inverse_flattening_in_trillionths: NAD83_INVERSE_FLATTENING_IN_TRILLIONTHS,
            },
        }
    }
}

} // verus!
