//! One decoded, immutable, queryable geolocation snapshot, and the lookup
//! path over it.
//!
//! The binary dataset format is consumed as an opaque capability: the decoder
//! crate turns a byte blob into a queryable handle and answers per-address
//! queries. Both calls stand behind trusted items; everything around them —
//! input validation, error classification, and the field-mapping policy — is
//! verified. A handle carries a ghost view of the image it was decoded from,
//! and the result of a query is named as a function of that image and the
//! address, so a lookup's outcome is pinned for each query result.

use vstd::prelude::*;
use crate::record::GeoLocation;
use crate::record::RawEntity;
use crate::record::RawLocation;
use crate::record::RawRecord;
use crate::record::extract_record;
use crate::record::spec_entity_name;
use crate::record::spec_entity_code;
use crate::record::spec_subdivision_name;

verus! {

/// Why a lookup failed.
#[derive(Clone, Copy, PartialEq, Eq, Structural, Debug)]
pub enum LookupError {
    /// The input is not an IPv4 or IPv6 address.
    InvalidInput,
    /// No snapshot has been loaded yet.
    NotReady,
    /// The address has no record in the dataset.
    NotFound,
    /// The dataset library reported a query fault.
    BackendError,
}

/// Why a byte blob could not become a snapshot.
#[derive(Clone, Copy, PartialEq, Eq, Structural, Debug)]
pub enum DecodeError {
    /// The bytes do not form a valid dataset.
    InvalidFormat,
}

/// An IP address as plain bytes: four octets or sixteen.
#[derive(Clone, Copy, Debug)]
pub enum IpAddress {
    V4([u8; 4]),
    V6([u8; 16]),
}

/// What the standard library's IP address parser yields for a given string:
/// the address, or nothing for malformed input. The result depends on the
/// characters alone.
pub uninterp spec fn parsed_ip_of(s: Seq<char>) -> Option<IpAddress>;

/// Relies on the standard library's `IpAddr` parser: accepts IPv4
/// dotted-decimal and IPv6 text, rejects everything else; deterministic in
/// its input.
#[verifier::external_body]
pub fn parse_ip(s: &str) -> (r: Option<IpAddress>)
    ensures
        r == parsed_ip_of(s@),
{
    match s.parse::<core::net::IpAddr>() {
        Ok(core::net::IpAddr::V4(a)) => Some(IpAddress::V4(a.octets())),
        Ok(core::net::IpAddr::V6(a)) => Some(IpAddress::V6(a.octets())),
        Err(_) => None,
    }
}

/// The dataset decoder's in-memory reader, held opaquely: the reader type's
/// own generics take bounds Verus does not accept, so the whole field is
/// hidden rather than declared.
#[verifier::external_body]
pub struct SnapshotReader {
    reader: maxminddb::Reader<Vec<u8>>,
}

/// The dataset decoder's error type, opaque to the library.
#[verifier::external_type_specification]
#[verifier::external_body]
pub struct ExMaxMindDbError(maxminddb::MaxMindDbError);

/// The decoder's city-schema record type, opaque to the library; trusted
/// converters move its contents into the library's raw model.
#[verifier::external_type_specification]
#[verifier::external_body]
pub struct ExCity<'a>(maxminddb::geoip2::City<'a>);

/// The decoder's localized-names type, opaque to the library.
#[verifier::external_type_specification]
#[verifier::external_body]
pub struct ExNames<'a>(maxminddb::geoip2::Names<'a>);

/// Whether the dataset decoder accepts a byte blob; decoding is
/// deterministic in the bytes.
pub uninterp spec fn decodes_ok(bytes: Seq<u8>) -> bool;

/// What one query against a dataset image yields for an address: a fault
/// reported by the decoder, no record, or one raw record.
pub enum QueryOutcome {
    Fault,
    Absent,
    Record(RawRecord),
}

/// The result of querying the dataset image `bytes` for `ip`; the decoder is
/// deterministic in the image and the address.
pub uninterp spec fn query_of(bytes: Seq<u8>, ip: IpAddress) -> QueryOutcome;

/// Relies on maxminddb::Reader::from_source: builds a queryable handle from
/// an in-memory byte blob, succeeding exactly when the decoder accepts the
/// image's metadata and search-tree layout, and returning its error — never
/// panicking — on every other byte blob.
#[verifier::external_body]
fn reader_from_bytes(bytes: Vec<u8>) -> (r: Result<SnapshotReader, maxminddb::MaxMindDbError>)
    ensures
        r is Ok == decodes_ok(bytes@),
{
    match maxminddb::Reader::from_source(bytes) {
        Ok(reader) => Ok(SnapshotReader { reader }),
        Err(e) => Err(e),
    }
}

/// Relies on maxminddb::Reader::lookup and LookupResult::decode with the
/// city schema: the two calls form one query against the handle's dataset
/// image, deterministic in the image bytes and the address, and return the
/// decoder's error — never panicking — on corrupt data. `Ok(None)` means the
/// address has no record. The result type's lifetime ties it to the reader,
/// so the two calls cannot stand in separate items.
#[verifier::external_body]
fn query_city(
    db: &GeoDatabase,
    ip: &IpAddress,
) -> (r: Result<Option<RawRecord>, maxminddb::MaxMindDbError>)
    ensures
        match r {
            Ok(Some(raw)) => query_of(db.spec_bytes(), *ip) == QueryOutcome::Record(raw),
            Ok(None) => query_of(db.spec_bytes(), *ip) == QueryOutcome::Absent,
            Err(_) => query_of(db.spec_bytes(), *ip) is Fault,
        },
{
    let addr = match ip {
        IpAddress::V4(o) => core::net::IpAddr::from(*o),
        IpAddress::V6(o) => core::net::IpAddr::from(*o),
    };
    let found = match db.reader.reader.lookup(addr) {
        Ok(result) => result,
        Err(e) => return Err(e),
    };
    match found.decode::<maxminddb::geoip2::City>() {
        Ok(Some(c)) => Ok(Some(conv_record(&c))),
        Ok(None) => Ok(None),
        Err(e) => Err(e),
    }
}

/// Relies on the city schema's shape: moves each sub-record into the
/// library's raw model.
#[verifier::external_body]
fn conv_record(c: &maxminddb::geoip2::City) -> RawRecord {
    RawRecord {
        city: conv_entity(&c.city.names, None),
        subdivisions: conv_subdivisions(c),
        country: conv_entity(&c.country.names, c.country.iso_code),
        continent: conv_entity(&c.continent.names, c.continent.code),
        location: conv_location(c),
    }
}

/// Relies on the schema's named sub-records: moves one name table and its
/// optional code attribute into the raw model.
#[verifier::external_body]
fn conv_entity(n: &maxminddb::geoip2::Names, code: Option<&str>) -> Option<RawEntity> {
    Some(RawEntity { names: conv_names(n), code: code.map(|s| s.to_string()) })
}

/// Relies on the schema's localized-names struct: turns it back into the
/// locale-tag-to-name table it deserializes from, one pair per locale the
/// record carries, using the schema's own tags.
#[verifier::external_body]
fn conv_names(n: &maxminddb::geoip2::Names) -> Option<Vec<(String, String)>> {
    let tagged = [
        ("de", n.german),
        ("en", n.english),
        ("es", n.spanish),
        ("fr", n.french),
        ("ja", n.japanese),
        ("pt-BR", n.brazilian_portuguese),
        ("ru", n.russian),
        ("zh-CN", n.simplified_chinese),
    ];
    Some(tagged.iter().filter_map(|(k, v)| v.map(|s| (k.to_string(), s.to_string()))).collect())
}

/// Relies on the city schema's `subdivisions` list: moves each entry's name
/// table and ISO code out, keeping the order.
#[verifier::external_body]
fn conv_subdivisions(c: &maxminddb::geoip2::City) -> Option<Vec<RawEntity>> {
    Some(c.subdivisions.iter().map(|s| RawEntity {
        names: conv_names(&s.names),
        code: s.iso_code.map(|t| t.to_string()),
    }).collect())
}

/// Relies on the city schema's `location` sub-record: moves each field out,
/// carrying the angles as their IEEE 754 bit patterns.
#[verifier::external_body]
fn conv_location(c: &maxminddb::geoip2::City) -> Option<RawLocation> {
    Some(RawLocation {
        latitude_bits: c.location.latitude.map(|v| v.to_bits()),
        longitude_bits: c.location.longitude.map(|v| v.to_bits()),
        time_zone: c.location.time_zone.map(|s| s.to_string()),
        accuracy_radius: c.location.accuracy_radius,
    })
}

/// A lookup result is a faithful extraction of the given raw record for the
/// queried text.
pub open spec fn matches_extraction(g: GeoLocation, ip: Seq<char>, raw: RawRecord) -> bool {
    &&& g.ip@ == ip
    &&& g.city.deep_view() == spec_entity_name(raw.city)
    &&& g.subdivision.deep_view() == spec_subdivision_name(raw.subdivisions)
    &&& g.country.deep_view() == spec_entity_name(raw.country)
    &&& g.country_code.deep_view() == spec_entity_code(raw.country)
    &&& g.continent.deep_view() == spec_entity_name(raw.continent)
    &&& g.continent_code.deep_view() == spec_entity_code(raw.continent)
    &&& g.latitude_bits == match raw.location {
        Some(l) => l.latitude_bits,
        None => None::<u64>,
    }
    &&& g.longitude_bits == match raw.location {
        Some(l) => l.longitude_bits,
        None => None::<u64>,
    }
    &&& g.timezone.deep_view() == match raw.location {
        Some(l) => l.time_zone.deep_view(),
        None => None::<Seq<char>>,
    }
    &&& g.accuracy_radius == match raw.location {
        Some(l) => l.accuracy_radius,
        None => None::<u16>,
    }
}

/// The classification a lookup owes once the input parsed as address `a`
/// against the dataset image `bytes`: a backend fault exactly when the query
/// faults, an absent record exactly as `NotFound`, and a held record
/// answered as exactly its extraction, echoing the input.
pub open spec fn lookup_answers(
    r: Result<GeoLocation, LookupError>,
    ip_text: Seq<char>,
    bytes: Seq<u8>,
    a: IpAddress,
) -> bool {
    &&& (r == Err::<GeoLocation, LookupError>(LookupError::BackendError)) <==> query_of(
        bytes,
        a,
    ) is Fault
    &&& (r == Err::<GeoLocation, LookupError>(LookupError::NotFound)) <==> query_of(
        bytes,
        a,
    ) is Absent
    &&& (query_of(bytes, a) matches QueryOutcome::Record(raw) ==> (r matches Ok(g)
        && matches_extraction(g, ip_text, raw)))
}

/// One decoded dataset: immutable once constructed, queryable by address,
/// carrying a ghost view of the image it was decoded from.
pub struct GeoDatabase {
    reader: SnapshotReader,
    bytes: Ghost<Seq<u8>>,
}

impl GeoDatabase {
    /// The dataset image this handle answers queries against.
    pub closed spec fn spec_bytes(self) -> Seq<u8> {
        self.bytes@
    }

    /// Decodes an in-memory dataset image; succeeds exactly when the decoder
    /// accepts the bytes, and the handle answers queries against exactly the
    /// given image.
    pub fn new(bytes: Vec<u8>) -> (r: Result<GeoDatabase, DecodeError>)
        ensures
            r is Ok == decodes_ok(bytes@),
            r matches Ok(db) ==> db.spec_bytes() == bytes@,
    {
        let ghost image = bytes@;
        match reader_from_bytes(bytes) {
            Ok(reader) => Ok(GeoDatabase { reader, bytes: Ghost(image) }),
            Err(_) => Err(DecodeError::InvalidFormat),
        }
    }

    /// Answers one lookup: malformed input is rejected as `InvalidInput`
    /// exactly when the address grammar rejects it; for a parsed address the
    /// answer classifies the query result exactly — fault, no record, or the
    /// record's extraction with the input text echoed.
    pub fn lookup(&self, ip_str: &str) -> (r: Result<GeoLocation, LookupError>)
        ensures
            (r == Err::<GeoLocation, LookupError>(LookupError::InvalidInput)) <==> parsed_ip_of(
                ip_str@,
            ) is None,
            r != Err::<GeoLocation, LookupError>(LookupError::NotReady),
            parsed_ip_of(ip_str@) matches Some(a) ==> lookup_answers(
                r,
                ip_str@,
                self.spec_bytes(),
                a,
            ),
            r matches Ok(g) ==> g.ip@ == ip_str@,
    {
        match parse_ip(ip_str) {
            None => Err(LookupError::InvalidInput),
            Some(ip) => match query_city(self, &ip) {
                Err(_) => Err(LookupError::BackendError),
                Ok(None) => Err(LookupError::NotFound),
                Ok(Some(raw)) => Ok(extract_record(ip_str, &raw)),
            },
        }
    }
}

} // verus!
