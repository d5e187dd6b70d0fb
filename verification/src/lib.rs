//! Decoding and de-obfuscation for bjcloudvod video links.
//!
//! A bjcloudvod link hides a direct media URL behind a fixed scheme prefix
//! and a byte-level obfuscation of the URL text; the referenced ev1 stream is
//! itself obfuscated in its first bytes. This crate holds the rules of both
//! transforms: recovering the direct URL from the link, resolving the output
//! file name, and reversing the stream's leading-byte obfuscation. Fetching
//! the stream and writing the file are the caller's work.

use vstd::prelude::*;

pub mod bjc_url_decoder;
pub mod ev1_downloader;

use crate::bjc_url_decoder::decode_bjc_url;
use crate::bjc_url_decoder::decode_ok;
use crate::bjc_url_decoder::decode_post;
use crate::bjc_url_decoder::decoded_of;
use crate::bjc_url_decoder::BjcUrlDecodeError;
use crate::ev1_downloader::opt_view;
use crate::ev1_downloader::output_file_name;
use crate::ev1_downloader::resolve_output_path;
use crate::ev1_downloader::url_path;
use crate::ev1_downloader::Ev1DownloadError;

verus! {

/// Why a bjcloudvod download failed.
#[derive(Debug)]
pub enum BjcDownloadError {
    /// The given link could not be decoded.
    UrlDecodeError(BjcUrlDecodeError),
    /// The media stream could not be downloaded.
    Ev1DownloadError(Ev1DownloadError),
}

impl From<BjcUrlDecodeError> for BjcDownloadError {
    fn from(e: BjcUrlDecodeError) -> (r: BjcDownloadError) {
        BjcDownloadError::UrlDecodeError(e)
    }
}

impl vstd::std_specs::convert::FromSpecImpl<BjcUrlDecodeError> for BjcDownloadError {
    open spec fn obeys_from_spec() -> bool {
        true
    }

    open spec fn from_spec(e: BjcUrlDecodeError) -> BjcDownloadError {
        BjcDownloadError::UrlDecodeError(e)
    }
}

impl From<Ev1DownloadError> for BjcDownloadError {
    fn from(e: Ev1DownloadError) -> (r: BjcDownloadError) {
        BjcDownloadError::Ev1DownloadError(e)
    }
}

impl vstd::std_specs::convert::FromSpecImpl<Ev1DownloadError> for BjcDownloadError {
    open spec fn obeys_from_spec() -> bool {
        true
    }

    open spec fn from_spec(e: Ev1DownloadError) -> BjcDownloadError {
        BjcDownloadError::Ev1DownloadError(e)
    }
}

/// The pure head of a download: decode the link and resolve the output path.
/// On success, returns the direct media URL together with the `<name>.flv`
/// file name the download must write to; both are functions of the inputs.
pub fn prepare_download(url: &str, output_filename: Option<&str>) -> (r: Result<
    (String, String),
    BjcDownloadError,
>)
    ensures
        match r {
            Ok((decoded, out_name)) => decode_ok(url@) && decoded@ == decoded_of(url@) && url_path(
                decoded_of(url@),
            ) is Some && out_name@ == output_file_name(
                opt_view(output_filename),
                url_path(decoded_of(url@)).unwrap(),
            ),
            Err(BjcDownloadError::UrlDecodeError(e)) => decode_post(
                url@,
                Err::<String, BjcUrlDecodeError>(e),
            ),
            Err(BjcDownloadError::Ev1DownloadError(e)) => (
            e matches Ev1DownloadError::InvalidDecodedUrl(_)) && decode_ok(url@) && url_path(
                decoded_of(url@),
            ) is None,
        },
{
    let decoded = match decode_bjc_url(url) {
        Ok(d) => d,
        Err(e) => {
            return Err(BjcDownloadError::UrlDecodeError(e));
        },
    };
    let out_name = match resolve_output_path(decoded.as_str(), output_filename) {
        Ok(n) => n,
        Err(e) => {
            return Err(BjcDownloadError::Ev1DownloadError(e));
        },
    };
    Ok((decoded, out_name))
}

} // verus!
