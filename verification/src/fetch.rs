//! Planning and validation for fetching and installing one dataset file.
//!
//! Everything that decides — which file and URL a period maps to, whether a
//! fetch is needed at all, whether a payload is acceptable — is verified.
//! The caller performs the network transfer and the filesystem writes and
//! feeds the results back in as plain values.

use vstd::prelude::*;
use vstd::string::StringExecFns;
use crate::Period;
use crate::text::push_decimal;
use crate::text::push_two_digits;
use crate::text::spec_decimal;
use crate::text::spec_two_digits;

verus! {

/// The smallest decompressed payload accepted as a dataset, in bytes; a
/// smaller one is taken for a truncated or error-page download.
pub const MIN_FILE_SIZE: usize = 1048576;

/// Why a fetch-and-install attempt failed.
#[derive(Clone, Copy, PartialEq, Eq, Structural, Debug)]
pub enum FetchError {
    /// The transfer itself failed.
    Network,
    /// The remote answered with a non-success status.
    BadStatus,
    /// The payload is not a valid compressed stream.
    CorruptPayload,
    /// The decompressed payload is under the minimum size.
    PayloadTooSmall,
}

/// The name of the dataset file for a period:
/// `dbip-city-lite-<year>-<month>.mmdb`, the month two digits.
pub open spec fn spec_dataset_filename(p: Period) -> Seq<char> {
    "dbip-city-lite-"@ + spec_decimal(p.year as nat) + "-"@ + spec_two_digits(p.month as nat)
        + ".mmdb"@
}

/// The download URL for a period: the fixed remote template applied to the
/// same year and month.
pub open spec fn spec_download_url(p: Period) -> Seq<char> {
    "https://download.db-ip.com/free/"@ + spec_dataset_filename(p) + ".gz"@
}

/// The name of the indirection that marks the current dataset file.
pub open spec fn spec_latest_name() -> Seq<char> {
    "latest.mmdb"@
}

/// A fetch the caller is asked to perform: transfer `url`, write the
/// validated payload under `temp_name`, then rename it to `final_name`.
pub struct FetchJob {
    pub url: String,
    pub temp_name: String,
    pub final_name: String,
}

/// What installing a period requires.
pub enum InstallAction {
    /// The period's file already exists; nothing to transfer, nothing to
    /// change.
    AlreadyInstalled,
    /// The period's file is absent; fetch it.
    Fetch(FetchJob),
}

/// Relies on chrono's Utc::now and Datelike: the current UTC calendar year
/// and month; the month is always 1 to 12.
#[verifier::external_body]
pub fn current_period() -> (p: Period)
    ensures
        p.wf(),
{
    let now = chrono::Utc::now();
    Period { year: chrono::Datelike::year_ce(&now).1, month: chrono::Datelike::month(&now) as u8 }
}

/// What decompressing a gzip stream yields, if it is one; deterministic in
/// the bytes.
pub uninterp spec fn gunzip_of(b: Seq<u8>) -> Option<Seq<u8>>;

/// Relies on flate2's GzDecoder (read to end): whole-stream decompression of
/// an in-memory gzip payload; deterministic in the bytes.
#[verifier::external_body]
fn gunzip(data: &Vec<u8>) -> (r: Option<Vec<u8>>)
    ensures
        match r {
            Some(v) => gunzip_of(data@) == Some(v@),
            None => gunzip_of(data@) is None,
        },
{
    let mut decoder = flate2::read::GzDecoder::new(&data[..]);
    let mut out = Vec::new();
    match std::io::Read::read_to_end(&mut decoder, &mut out) {
        Ok(_) => Some(out),
        Err(_) => None,
    }
}

/// Fetches, verifies, and atomically installs dataset files; holds only the
/// data directory, so that every decision is a function of its arguments.
pub struct DatabaseDownloader {
    pub data_dir: String,
}

impl DatabaseDownloader {
    /// A downloader rooted at a data directory.
    pub fn new(data_dir: &str) -> (d: DatabaseDownloader)
        ensures
            d.data_dir@ == data_dir@,
    {
        DatabaseDownloader { data_dir: String::from_str(data_dir) }
    }

    /// The local filename for a period's dataset.
    pub fn get_current_month_filename(&self, p: Period) -> (r: String)
        requires
            p.wf(),
        ensures
            r@ == spec_dataset_filename(p),
    {
        let mut s = String::from_str("dbip-city-lite-");
        push_decimal(&mut s, p.year);
        s.append("-");
        push_two_digits(&mut s, p.month);
        s.append(".mmdb");
        proof {
            assert(s@ =~= spec_dataset_filename(p));
        }
        s
    }

    /// The remote URL for a period's dataset.
    pub fn get_download_url(&self, p: Period) -> (r: String)
        requires
            p.wf(),
        ensures
            r@ == spec_download_url(p),
    {
        let mut s = String::from_str("https://download.db-ip.com/free/");
        s.append(self.get_current_month_filename(p).as_str());
        s.append(".gz");
        proof {
            assert(s@ =~= spec_download_url(p));
        }
        s
    }

    /// The name of the current-dataset indirection.
    pub fn latest_name(&self) -> (r: String)
        ensures
            r@ == spec_latest_name(),
    {
        String::from_str("latest.mmdb")
    }

    /// The staging name for an indirection about to replace the current one.
    pub fn latest_temp_name(&self) -> (r: String)
        ensures
            r@ == spec_latest_name() + ".tmp"@,
    {
        let mut s = String::from_str("latest.mmdb");
        s.append(".tmp");
        s
    }

    /// Decides an install: a period whose file already exists is a no-op —
    /// installing the same period twice never fetches twice — and an absent
    /// one names exactly what to transfer and how to stage it.
    pub fn plan_install(&self, p: Period, file_exists: bool) -> (a: InstallAction)
        requires
            p.wf(),
        ensures
            file_exists <==> a is AlreadyInstalled,
            !file_exists ==> (a matches InstallAction::Fetch(job) && job.url@
                == spec_download_url(p) && job.final_name@ == spec_dataset_filename(p)
                && job.temp_name@ == spec_dataset_filename(p) + ".tmp"@),
    {
        if file_exists {
            InstallAction::AlreadyInstalled
        } else {
            let final_name = self.get_current_month_filename(p);
            let mut temp_name = final_name.clone();
            temp_name.append(".tmp");
            InstallAction::Fetch(
                FetchJob { url: self.get_download_url(p), temp_name, final_name },
            )
        }
    }

    /// Validates a fetched compressed payload: decompresses it wholly in
    /// memory and enforces the minimum decompressed size. Returns the bytes
    /// to install exactly when both hold, and says which check failed
    /// otherwise.
    pub fn process_payload(&self, compressed: &Vec<u8>) -> (r: Result<Vec<u8>, FetchError>)
        ensures
            match r {
                Ok(data) => gunzip_of(compressed@) == Some(data@) && data@.len()
                    >= MIN_FILE_SIZE as nat,
                Err(e) => match e {
                    FetchError::CorruptPayload => gunzip_of(compressed@) is None,
                    FetchError::PayloadTooSmall => gunzip_of(compressed@) matches Some(d)
                        && d.len() < MIN_FILE_SIZE as nat,
                    _ => false,
                },
            },
    {
        match gunzip(compressed) {
            None => Err(FetchError::CorruptPayload),
            Some(data) => {
                if data.len() < MIN_FILE_SIZE {
                    Err(FetchError::PayloadTooSmall)
                } else {
                    Ok(data)
                }
            },
        }
    }
}

/// Whether an HTTP status is a success in the sense the installer accepts.
pub fn accept_status(status: u16) -> (r: bool)
    ensures
        r == (200 <= status < 300),
{
    200 <= status && status < 300
}

} // verus!
