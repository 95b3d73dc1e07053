use geoip_api::scheduler::Command;
use geoip_api::scheduler::Event;
use geoip_api::scheduler::UpdateScheduler;
use geoip_api::snapshot::DecodeError;
use geoip_api::snapshot::GeoDatabase;
use geoip_api::snapshot::IpAddress;
use geoip_api::snapshot::LookupError;
use geoip_api::snapshot::parse_ip;
use geoip_api::store::SnapshotStore;
use geoip_api::store::lookup_status;

#[test]
fn empty_store_is_not_ready_for_any_input() {
    let store = SnapshotStore::new();
    assert!(!store.is_ready());
    assert_eq!(store.version(), 0);
    for input in ["1.2.3.4", "::1", "not an ip", ""] {
        match store.lookup(input) {
            Err(LookupError::NotReady) => {}
            _ => panic!("an empty store must answer NotReady"),
        }
    }
}

#[test]
fn not_ready_maps_to_service_unavailable() {
    let store = SnapshotStore::new();
    let r = store.lookup("1.2.3.4");
    assert_eq!(lookup_status(&r), 503);
}

#[test]
fn failed_load_leaves_store_unchanged() {
    let mut store = SnapshotStore::new();
    let garbage = vec![0x13u8; 64];
    let loaded = GeoDatabase::new(garbage);
    assert!(matches!(loaded, Err(DecodeError::InvalidFormat)));
    let ok = store.apply_load(loaded);
    assert!(!ok);
    assert!(!store.is_ready());
    assert_eq!(store.version(), 0);
}

#[test]
fn address_parser_classifies_input() {
    assert!(matches!(parse_ip("1.2.3.4"), Some(IpAddress::V4([1, 2, 3, 4]))));
    assert!(matches!(parse_ip("::1"), Some(IpAddress::V6(_))));
    assert!(matches!(parse_ip("255.255.255.255"), Some(IpAddress::V4(_))));
    assert!(parse_ip("").is_none());
    assert!(parse_ip("evil.com").is_none());
    assert!(parse_ip("999.1.1.1").is_none());
    assert!(parse_ip("1.2.3").is_none());
    assert!(parse_ip("1.2.3.4.5").is_none());
    assert!(parse_ip("01.2.3.4").is_none());
    assert!(parse_ip(":::1").is_none());
}

#[test]
fn bootstrap_walks_to_idle() {
    let mut s = UpdateScheduler::new();
    assert_eq!(s.next_command(), Command::EnsureDataDir);
    s.on_event(Event::DirEnsured(true));
    assert_eq!(s.next_command(), Command::ProbeLatest);
    s.on_event(Event::LatestProbed(false));
    assert_eq!(s.next_command(), Command::InstallCurrentPeriod);
    s.on_event(Event::Installed(true));
    assert_eq!(s.next_command(), Command::LoadLatest);
    s.on_event(Event::Loaded(true));
    assert_eq!(s.next_command(), Command::Sleep);
}

#[test]
fn bootstrap_skips_install_when_pointer_exists() {
    let mut s = UpdateScheduler::new();
    s.on_event(Event::DirEnsured(true));
    s.on_event(Event::LatestProbed(true));
    assert_eq!(s.next_command(), Command::LoadLatest);
}

#[test]
fn cycle_reloads_only_after_fresh_install() {
    let mut s = UpdateScheduler::new();
    s.on_event(Event::DirEnsured(true));
    s.on_event(Event::LatestProbed(true));
    s.on_event(Event::Loaded(true));
    // A cycle where the period file already exists: no install, no reload.
    s.on_event(Event::Slept);
    assert_eq!(s.next_command(), Command::ProbePeriodFile);
    s.on_event(Event::PeriodFileProbed(true));
    assert_eq!(s.next_command(), Command::PruneOld);
    s.on_event(Event::Pruned(true));
    assert_eq!(s.next_command(), Command::Sleep);
    // A cycle where the file is missing and the install succeeds: reload.
    s.on_event(Event::Slept);
    s.on_event(Event::PeriodFileProbed(false));
    assert_eq!(s.next_command(), Command::InstallCurrentPeriod);
    s.on_event(Event::Installed(true));
    assert_eq!(s.next_command(), Command::LoadLatest);
    s.on_event(Event::Loaded(true));
    assert_eq!(s.next_command(), Command::PruneOld);
    s.on_event(Event::Pruned(true));
    // A cycle where the install fails: straight to pruning, never a reload.
    s.on_event(Event::Slept);
    s.on_event(Event::PeriodFileProbed(false));
    s.on_event(Event::Installed(false));
    assert_eq!(s.next_command(), Command::PruneOld);
}

#[test]
fn unexpected_outcome_leaves_machine_in_place() {
    let mut s = UpdateScheduler::new();
    assert_eq!(s.next_command(), Command::EnsureDataDir);
    s.on_event(Event::Pruned(true));
    assert_eq!(s.next_command(), Command::EnsureDataDir);
    s.on_event(Event::Slept);
    assert_eq!(s.next_command(), Command::EnsureDataDir);
}
