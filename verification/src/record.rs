//! The public location schema and the field-mapping policy that fills it
//! from a raw decoded record.
//!
//! A raw record may lack a whole sub-record, or its locale-name table, or the
//! English entry of that table; every level of absence yields `None` for the
//! mapped field, never an error and never a synthesized value. Codes are read
//! from dedicated attributes, not from the name tables.

use vstd::prelude::*;
use vstd::string::StrSliceExecFns;
use vstd::string::StringExecFns;
use crate::text::str_eq;

verus! {

/// One named sub-record of a raw decoded record: a locale-to-name table and
/// an optional dedicated code attribute.
pub struct RawEntity {
    /// Locale tag to localized name, in the decoder's enumeration order;
    /// locale tags do not repeat.
    pub names: Option<Vec<(String, String)>>,
    /// The ISO code (countries, subdivisions) or continent code.
    pub code: Option<String>,
}

/// The positional sub-record of a raw decoded record; angles are carried as
/// IEEE 754 bit patterns, since the library only passes them through.
pub struct RawLocation {
    pub latitude_bits: Option<u64>,
    pub longitude_bits: Option<u64>,
    pub time_zone: Option<String>,
    pub accuracy_radius: Option<u16>,
}

/// A raw decoded record, as the dataset decoder hands it out: every part may
/// be absent.
pub struct RawRecord {
    pub city: Option<RawEntity>,
    pub subdivisions: Option<Vec<RawEntity>>,
    pub country: Option<RawEntity>,
    pub continent: Option<RawEntity>,
    pub location: Option<RawLocation>,
}

/// The public output schema of one lookup. Every field except the echoed
/// input is optional; absence stays absence, never an empty string or zero.
/// Angles are IEEE 754 bit patterns (the library never computes with them).
pub struct GeoLocation {
    pub ip: String,
    pub city: Option<String>,
    pub subdivision: Option<String>,
    pub country: Option<String>,
    pub country_code: Option<String>,
    pub continent: Option<String>,
    pub continent_code: Option<String>,
    pub latitude_bits: Option<u64>,
    pub longitude_bits: Option<u64>,
    pub timezone: Option<String>,
    pub accuracy_radius: Option<u16>,
}

/// The English entry of a locale-name table: the value of the first pair
/// keyed `en` (locale tags do not repeat, so the first is the only one).
pub open spec fn spec_en_name(names: Seq<(Seq<char>, Seq<char>)>) -> Option<Seq<char>>
    decreases names.len(),
{
    if names.len() == 0 {
        None
    } else if names[0].0 == "en"@ {
        Some(names[0].1)
    } else {
        spec_en_name(names.subrange(1, names.len() as int))
    }
}

/// The English name an optional sub-record yields: `None` when the
/// sub-record, its name table, or the English entry is absent.
pub open spec fn spec_entity_name(e: Option<RawEntity>) -> Option<Seq<char>> {
    match e {
        Some(en) => match en.names {
            Some(ns) => spec_en_name(ns.deep_view()),
            None => None,
        },
        None => None,
    }
}

/// The code an optional sub-record yields, independent of the name table.
pub open spec fn spec_entity_code(e: Option<RawEntity>) -> Option<Seq<char>> {
    match e {
        Some(en) => match en.code {
            Some(c) => Some(c@),
            None => None,
        },
        None => None,
    }
}

/// The English name of the first subdivision, if any subdivision exists.
pub open spec fn spec_subdivision_name(subs: Option<Vec<RawEntity>>) -> Option<Seq<char>> {
    match subs {
        Some(v) => if v.len() > 0 {
            spec_entity_name(Some(v[0]))
        } else {
            None
        },
        None => None,
    }
}

/// Looks up the English entry of a locale-name table.
fn en_name(names: &Vec<(String, String)>) -> (r: Option<String>)
    ensures
        match r {
            Some(s) => spec_en_name(names.deep_view()) == Some(s@),
            None => spec_en_name(names.deep_view()) is None,
        },
{
    let n = names.len();
    let mut i: usize = 0;
    proof {
        assert(names.deep_view().subrange(0, names.deep_view().len() as int) =~= names.deep_view());
    }
    while i < n
        invariant
            n == names.len(),
            i <= n,
            names.deep_view().len() == n,
            spec_en_name(names.deep_view()) == spec_en_name(
                names.deep_view().subrange(i as int, n as int),
            ),
        decreases n - i,
    {
        let ghost rest = names.deep_view().subrange(i as int, n as int);
        proof {
            assert(names.deep_view()[i as int] == names@[i as int].deep_view());
            assert(rest[0] == names.deep_view()[i as int]);
        }
        if str_eq(names[i].0.as_str(), "en") {
            let found = names[i].1.clone();
            proof {
                assert(spec_en_name(rest) == Some(rest[0].1));
            }
            return Some(found);
        }
        proof {
            assert(rest.subrange(1, rest.len() as int) =~= names.deep_view().subrange(
                i + 1,
                n as int,
            ));
        }
        i = i + 1;
    }
    proof {
        assert(names.deep_view().subrange(n as int, n as int) =~= Seq::<(Seq<char>, Seq<char>)>::empty());
    }
    None
}

/// Applies the missing-field policy to one optional sub-record's name table.
fn entity_name(e: &Option<RawEntity>) -> (r: Option<String>)
    ensures
        match r {
            Some(s) => spec_entity_name(*e) == Some(s@),
            None => spec_entity_name(*e) is None,
        },
{
    match e {
        Some(en) => match &en.names {
            Some(ns) => en_name(ns),
            None => None,
        },
        None => None,
    }
}

/// Reads one optional sub-record's code attribute.
fn entity_code(e: &Option<RawEntity>) -> (r: Option<String>)
    ensures
        match r {
            Some(s) => spec_entity_code(*e) == Some(s@),
            None => spec_entity_code(*e) is None,
        },
{
    match e {
        Some(en) => match &en.code {
            Some(c) => Some(c.clone()),
            None => None,
        },
        None => None,
    }
}

/// Maps a raw decoded record into the public schema, echoing the queried
/// address text back unchanged.
pub fn extract_record(ip_text: &str, raw: &RawRecord) -> (r: GeoLocation)
    ensures
        r.ip@ == ip_text@,
        r.city.deep_view() == spec_entity_name(raw.city),
        r.subdivision.deep_view() == spec_subdivision_name(raw.subdivisions),
        r.country.deep_view() == spec_entity_name(raw.country),
        r.country_code.deep_view() == spec_entity_code(raw.country),
        r.continent.deep_view() == spec_entity_name(raw.continent),
        r.continent_code.deep_view() == spec_entity_code(raw.continent),
        r.latitude_bits == match raw.location {
            Some(l) => l.latitude_bits,
            None => None::<u64>,
        },
        r.longitude_bits == match raw.location {
            Some(l) => l.longitude_bits,
            None => None::<u64>,
        },
        r.timezone.deep_view() == match raw.location {
            Some(l) => l.time_zone.deep_view(),
            None => None::<Seq<char>>,
        },
        r.accuracy_radius == match raw.location {
            Some(l) => l.accuracy_radius,
            None => None::<u16>,
        },
{
    let subdivision = match &raw.subdivisions {
        Some(v) => if v.len() > 0 {
            let first = &v[0];
            let r = match &first.names {
                Some(ns) => en_name(ns),
                None => None,
            };
            proof {
                assert(v@[0] == v[0 as int]);
            }
            r
        } else {
            None
        },
        None => None,
    };
    let (timezone, latitude_bits, longitude_bits, accuracy_radius) = match &raw.location {
        Some(l) => (
            match &l.time_zone {
                Some(t) => Some(t.clone()),
                None => None,
            },
            l.latitude_bits,
            l.longitude_bits,
            l.accuracy_radius,
        ),
        None => (None, None, None, None),
    };
    GeoLocation {
        ip: String::from_str(ip_text),
        city: entity_name(&raw.city),
        subdivision,
        country: entity_name(&raw.country),
        country_code: entity_code(&raw.country),
        continent: entity_name(&raw.continent),
        continent_code: entity_code(&raw.continent),
        latitude_bits,
        longitude_bits,
        timezone,
        accuracy_radius,
    }
}

/// A locale-name table without an `en` entry yields no name.
pub proof fn lemma_en_name_absent(names: Seq<(Seq<char>, Seq<char>)>)
    requires
        forall|j: int| 0 <= j < names.len() ==> names[j].0 != "en"@,
    ensures
        spec_en_name(names) is None,
    decreases names.len(),
{
    if names.len() > 0 {
        lemma_en_name_absent(names.subrange(1, names.len() as int));
    }
}

/// A country sub-record whose name table lacks an `en` entry yields no
/// country name, while its ISO code is still carried through.
pub proof fn lemma_country_code_without_name(e: RawEntity)
    requires
        match e.names {
            Some(ns) => forall|j: int| 0 <= j < ns.deep_view().len() ==> ns.deep_view()[j].0 != "en"@,
            None => true,
        },
    ensures
        spec_entity_name(Some(e)) is None,
        spec_entity_code(Some(e)) == match e.code {
            Some(c) => Some(c@),
            None => None::<Seq<char>>,
        },
{
    match e.names {
        Some(ns) => lemma_en_name_absent(ns.deep_view()),
        None => {},
    }
}

/// A record with no subdivisions yields no subdivision name.
pub proof fn lemma_no_subdivisions(subs: Option<Vec<RawEntity>>)
    requires
        subs matches Some(v) ==> v@.len() == 0,
    ensures
        spec_subdivision_name(subs) is None,
{
}

} // verus!
