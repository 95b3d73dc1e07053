use geoip_api::Period;
use geoip_api::fetch::DatabaseDownloader;
use geoip_api::fetch::InstallAction;
use geoip_api::fetch::accept_status;

#[test]
fn filename_follows_period() {
    let d = DatabaseDownloader::new("/data");
    let p = Period::new(2025, 3).unwrap();
    assert_eq!(
        d.get_current_month_filename(p),
        "dbip-city-lite-2025-03.mmdb"
    );
}

#[test]
fn filename_two_digit_month() {
    let d = DatabaseDownloader::new("/data");
    let p = Period::new(2024, 12).unwrap();
    assert_eq!(
        d.get_current_month_filename(p),
        "dbip-city-lite-2024-12.mmdb"
    );
}

#[test]
fn url_follows_period() {
    let d = DatabaseDownloader::new("/data");
    let p = Period::new(2025, 3).unwrap();
    assert_eq!(
        d.get_download_url(p),
        "https://download.db-ip.com/free/dbip-city-lite-2025-03.mmdb.gz"
    );
}

#[test]
fn latest_pointer_name() {
    let d = DatabaseDownloader::new("/data");
    assert_eq!(d.latest_name(), "latest.mmdb");
}

#[test]
fn period_rejects_impossible_months() {
    assert!(Period::new(2025, 0).is_none());
    assert!(Period::new(2025, 13).is_none());
    assert!(Period::new(2025, 1).is_some());
    assert!(Period::new(2025, 12).is_some());
}

#[test]
fn install_is_idempotent_when_file_exists() {
    let d = DatabaseDownloader::new("/data");
    let p = Period::new(2025, 3).unwrap();
    match d.plan_install(p, true) {
        InstallAction::AlreadyInstalled => {}
        InstallAction::Fetch(_) => panic!("an existing file must be a no-op"),
    }
}

#[test]
fn install_names_the_fetch() {
    let d = DatabaseDownloader::new("/data");
    let p = Period::new(2025, 3).unwrap();
    match d.plan_install(p, false) {
        InstallAction::AlreadyInstalled => panic!("an absent file must be fetched"),
        InstallAction::Fetch(job) => {
            assert_eq!(
                job.url,
                "https://download.db-ip.com/free/dbip-city-lite-2025-03.mmdb.gz"
            );
            assert_eq!(job.final_name, "dbip-city-lite-2025-03.mmdb");
            assert_eq!(job.temp_name, "dbip-city-lite-2025-03.mmdb.tmp");
        }
    }
}

#[test]
fn status_acceptance_bounds() {
    assert!(accept_status(200));
    assert!(accept_status(204));
    assert!(accept_status(299));
    assert!(!accept_status(199));
    assert!(!accept_status(300));
    assert!(!accept_status(404));
    assert!(!accept_status(500));
}

#[test]
fn current_period_is_a_calendar_month() {
    let p = geoip_api::fetch::current_period();
    assert!(1 <= p.month && p.month <= 12);
    assert!(p.year >= 1970);
}
