use geoip_api::record::GeoLocation;
use geoip_api::record::RawEntity;
use geoip_api::record::RawLocation;
use geoip_api::record::RawRecord;
use geoip_api::record::extract_record;

fn pairs(entries: &[(&str, &str)]) -> Vec<(String, String)> {
    entries.iter().map(|(k, v)| (k.to_string(), v.to_string())).collect()
}

fn empty_record() -> RawRecord {
    RawRecord { city: None, subdivisions: None, country: None, continent: None, location: None }
}

#[test]
fn input_text_is_echoed_exactly() {
    let g: GeoLocation = extract_record("089.160.020.128", &empty_record());
    assert_eq!(g.ip, "089.160.020.128");
}

#[test]
fn absent_parts_stay_absent() {
    let g = extract_record("1.2.3.4", &empty_record());
    assert_eq!(g.city, None);
    assert_eq!(g.subdivision, None);
    assert_eq!(g.country, None);
    assert_eq!(g.country_code, None);
    assert_eq!(g.continent, None);
    assert_eq!(g.continent_code, None);
    assert_eq!(g.latitude_bits, None);
    assert_eq!(g.longitude_bits, None);
    assert_eq!(g.timezone, None);
    assert_eq!(g.accuracy_radius, None);
}

#[test]
fn english_names_are_picked() {
    let raw = RawRecord {
        city: Some(RawEntity {
            names: Some(pairs(&[("de", "Linköping (de)"), ("en", "Linkoping")])),
            code: None,
        }),
        subdivisions: Some(vec![
            RawEntity { names: Some(pairs(&[("en", "Östergötland")])), code: Some("E".to_string()) },
            RawEntity { names: Some(pairs(&[("en", "Second")])), code: None },
        ]),
        country: Some(RawEntity {
            names: Some(pairs(&[("en", "Sweden")])),
            code: Some("SE".to_string()),
        }),
        continent: Some(RawEntity {
            names: Some(pairs(&[("en", "Europe")])),
            code: Some("EU".to_string()),
        }),
        location: Some(RawLocation {
            latitude_bits: Some(4633926716030583702),
            longitude_bits: Some(4624621751738912341),
            time_zone: Some("Europe/Stockholm".to_string()),
            accuracy_radius: Some(76),
        }),
    };
    let g = extract_record("89.160.20.128", &raw);
    assert_eq!(g.ip, "89.160.20.128");
    assert_eq!(g.city.as_deref(), Some("Linkoping"));
    assert_eq!(g.subdivision.as_deref(), Some("Östergötland"));
    assert_eq!(g.country.as_deref(), Some("Sweden"));
    assert_eq!(g.country_code.as_deref(), Some("SE"));
    assert_eq!(g.continent.as_deref(), Some("Europe"));
    assert_eq!(g.continent_code.as_deref(), Some("EU"));
    assert_eq!(g.latitude_bits, Some(4633926716030583702));
    assert_eq!(g.longitude_bits, Some(4624621751738912341));
    assert_eq!(g.timezone.as_deref(), Some("Europe/Stockholm"));
    assert_eq!(g.accuracy_radius, Some(76));
}

#[test]
fn country_without_english_name_still_has_code() {
    let raw = RawRecord {
        country: Some(RawEntity {
            names: Some(pairs(&[("de", "Schweden"), ("fr", "Suède")])),
            code: Some("SE".to_string()),
        }),
        ..empty_record()
    };
    let g = extract_record("89.160.20.128", &raw);
    assert_eq!(g.country, None);
    assert_eq!(g.country_code.as_deref(), Some("SE"));
}

#[test]
fn country_without_name_table_still_has_code() {
    let raw = RawRecord {
        country: Some(RawEntity { names: None, code: Some("SE".to_string()) }),
        ..empty_record()
    };
    let g = extract_record("89.160.20.128", &raw);
    assert_eq!(g.country, None);
    assert_eq!(g.country_code.as_deref(), Some("SE"));
}

#[test]
fn empty_subdivision_list_yields_none() {
    let raw = RawRecord { subdivisions: Some(Vec::new()), ..empty_record() };
    let g = extract_record("89.160.20.128", &raw);
    assert_eq!(g.subdivision, None);
}

#[test]
fn location_fields_are_independent() {
    let raw = RawRecord {
        location: Some(RawLocation {
            latitude_bits: None,
            longitude_bits: Some(1),
            time_zone: None,
            accuracy_radius: Some(5),
        }),
        ..empty_record()
    };
    let g = extract_record("1.2.3.4", &raw);
    assert_eq!(g.latitude_bits, None);
    assert_eq!(g.longitude_bits, Some(1));
    assert_eq!(g.timezone, None);
    assert_eq!(g.accuracy_radius, Some(5));
}
