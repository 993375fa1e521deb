//! A decoded packet, and the translation of the engine's raw fields.
use vstd::prelude::*;
use crate::text::{ascii_chars, is_ascii, lossy, lossy_of};

verus! {

#[verifier::external_type_specification]
#[verifier::external_body]
pub struct ExSymbol(aprs::Symbol);

/// The map symbol that `aprs::Symbol::from_table` gives for a
/// (table selector, symbol code) byte pair.
pub uninterp spec fn symbol_of(table: u8, code: u8) -> aprs::Symbol;

/// Relies on `aprs::Symbol::from_table`: a lookup on the two bytes alone.
pub assume_specification[ aprs::Symbol::from_table ](table: u8, code: u8) -> (r: aprs::Symbol)
    ensures
        r == symbol_of(table, code),
;

/// What the engine reported for one successfully decoded packet, copied out
/// of its result as plain values.
///
/// Text fields hold the engine's bytes without their terminator. Each optional
/// field is `None` where the engine left the field out. Real-valued fields
/// (degrees, meters, kilometers per hour) hold the IEEE-754 bit pattern of the
/// engine's double: this crate passes them on and never computes with them.
pub struct RawPacket {
    pub header: Vec<u8>,
    pub body: Vec<u8>,
    pub src_callsign: Vec<u8>,
    pub dst_callsign: Option<Vec<u8>>,
    pub comment: Option<Vec<u8>>,
    /// Seconds since the Unix epoch.
    pub timestamp: Option<u64>,
    /// Degrees, as the bits of a double.
    pub latitude: Option<u64>,
    /// Degrees, as the bits of a double.
    pub longitude: Option<u64>,
    /// Radius of uncertainty in meters, as the bits of a double.
    pub pos_resolution: Option<u64>,
    /// Degrees; 0 stands for an unknown course.
    pub course: Option<u32>,
    /// Kilometers per hour, as the bits of a double.
    pub speed: Option<u64>,
    /// Meters, as the bits of a double.
    pub altitude: Option<u64>,
    pub symbol_table: u8,
    pub symbol_code: u8,
}

/// A geographic position: latitude and longitude in degrees, and the radius
/// of uncertainty in meters where the engine gave one, each as the bits of a
/// double.
#[derive(Debug, Clone, Copy, PartialEq, Eq, Structural)]
pub struct Coordinates {
    pub latitude: u64,
    pub longitude: u64,
    pub precision: Option<u64>,
}

/// The course in degrees: absent where the engine gave none or gave 0
/// ("unknown"), otherwise reduced modulo 360.
pub open spec fn course_of(raw: Option<u32>) -> Option<u32> {
    match raw {
        Some(v) => if v == 0 {
            None
        } else {
            Some(v % 360)
        },
        None => None,
    }
}

/// The position: present exactly when both latitude and longitude are, and
/// carrying the precision whenever the engine gave one.
pub open spec fn position_of(lat: Option<u64>, lng: Option<u64>, prec: Option<u64>) -> Option<
    Coordinates,
> {
    match (lat, lng) {
        (Some(a), Some(o)) => Some(Coordinates { latitude: a, longitude: o, precision: prec }),
        _ => None,
    }
}

/// The text of an optional field, decoded as the required ones are.
pub open spec fn opt_text_of(b: Option<Vec<u8>>) -> Option<Seq<char>> {
    match b {
        Some(v) => Some(lossy_of(v@)),
        None => None,
    }
}

fn opt_text(b: &Option<Vec<u8>>) -> (r: Option<String>)
    ensures
        r.is_some() == b.is_some(),
        r.is_some() ==> Some(r.unwrap()@) == opt_text_of(*b),
{
    match b {
        Some(v) => Some(lossy(v.as_slice())),
        None => None,
    }
}

/// One decoded packet. It is made only from a successful engine report and
/// does not change afterwards.
pub struct Packet {
    raw: RawPacket,
}

impl Packet {
    /// The engine's report this packet was made from.
    pub closed spec fn fields(&self) -> RawPacket {
        self.raw
    }

    pub(crate) fn from_raw(raw: RawPacket) -> (p: Packet)
        ensures
            p.fields() == raw,
    {
        Packet { raw }
    }

    /// The raw packet header.
    pub fn header(&self) -> (r: String)
        ensures
            r@ == lossy_of(self.fields().header@),
            is_ascii(self.fields().header@) ==> r@ == ascii_chars(self.fields().header@),
    {
        lossy(self.raw.header.as_slice())
    }

    /// The raw packet body.
    pub fn body(&self) -> (r: String)
        ensures
            r@ == lossy_of(self.fields().body@),
            is_ascii(self.fields().body@) ==> r@ == ascii_chars(self.fields().body@),
    {
        lossy(self.raw.body.as_slice())
    }

    /// The originating station.
    pub fn source(&self) -> (r: String)
        ensures
            r@ == lossy_of(self.fields().src_callsign@),
            is_ascii(self.fields().src_callsign@) ==> r@ == ascii_chars(self.fields().src_callsign@),
    {
        lossy(self.raw.src_callsign.as_slice())
    }

    /// The destination station, where the packet names one.
    pub fn destination(&self) -> (r: Option<String>)
        ensures
            r.is_some() == self.fields().dst_callsign.is_some(),
            r.is_some() ==> Some(r.unwrap()@) == opt_text_of(self.fields().dst_callsign),
    {
        opt_text(&self.raw.dst_callsign)
    }

    /// The free-text comment, where the packet has one.
    pub fn comment(&self) -> (r: Option<String>)
        ensures
            r.is_some() == self.fields().comment.is_some(),
            r.is_some() ==> Some(r.unwrap()@) == opt_text_of(self.fields().comment),
    {
        opt_text(&self.raw.comment)
    }

    /// The map symbol named by the packet's table and code bytes.
    pub fn symbol(&self) -> (r: aprs::Symbol)
        ensures
            r == symbol_of(self.fields().symbol_table, self.fields().symbol_code),
    {
        aprs::Symbol::from_table(self.raw.symbol_table, self.raw.symbol_code)
    }

    /// The time of the report, in seconds since the Unix epoch.
    pub fn timestamp(&self) -> (r: Option<u64>)
        ensures
            r == self.fields().timestamp,
    {
        self.raw.timestamp
    }

    /// The latitude in degrees, as the bits of a double.
    pub fn latitude(&self) -> (r: Option<u64>)
        ensures
            r == self.fields().latitude,
    {
        self.raw.latitude
    }

    /// The longitude in degrees, as the bits of a double.
    pub fn longitude(&self) -> (r: Option<u64>)
        ensures
            r == self.fields().longitude,
    {
        self.raw.longitude
    }

    /// The radius of uncertainty of the position in meters, as the bits of a
    /// double.
    pub fn precision(&self) -> (r: Option<u64>)
        ensures
            r == self.fields().pos_resolution,
    {
        self.raw.pos_resolution
    }

    /// The position, present exactly when latitude and longitude both are.
    pub fn position(&self) -> (r: Option<Coordinates>)
        ensures
            r == position_of(
                self.fields().latitude,
                self.fields().longitude,
                self.fields().pos_resolution,
            ),
    {
        match (self.latitude(), self.longitude()) {
            (Some(latitude), Some(longitude)) => Some(
                Coordinates { latitude, longitude, precision: self.precision() },
            ),
            _ => None,
        }
    }

    /// The speed in kilometers per hour, as the bits of a double.
    pub fn speed(&self) -> (r: Option<u64>)
        ensures
            r == self.fields().speed,
    {
        self.raw.speed
    }

    /// The course in whole degrees in `0..360`; a raw 0 means "unknown" and
    /// gives `None`.
    pub fn course(&self) -> (r: Option<u32>)
        ensures
            r == course_of(self.fields().course),
            r matches Some(d) ==> d < 360,
    {
        match self.raw.course {
            Some(v) => {
                if v == 0 {
                    None
                } else {
                    Some(v % 360)
                }
            },
            None => None,
        }
    }

    /// The altitude in meters, as the bits of a double.
    pub fn altitude(&self) -> (r: Option<u64>)
        ensures
            r == self.fields().altitude,
    {
        self.raw.altitude
    }
}

} // verus!
