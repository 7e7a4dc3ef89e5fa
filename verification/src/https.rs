//! The HTTPS part of the settings that both packages share: where the
//! certificate and the private key are read from.

use vstd::prelude::*;
use crate::paths::{BaseDir, FsPath, FsPathView, under2, under2_path};
use crate::text::{is_blank, is_white_space, trimmed, trim, lemma_trimmed_empty_iff_blank, lemma_trimmed_ignores_padding, lemma_trimmed_keeps_edges};

verus! {

/// The model of an HTTPS configuration.
pub struct HttpsView {
    pub enabled: bool,
    pub cert_path: Seq<char>,
    pub key_path: Seq<char>,
}

/// Where a certificate (or key) is read from, given the configured path and
/// the name of the file generated when none is configured: a configured path
/// that holds anything but whitespace is used with its surrounding
/// whitespace removed; otherwise the generated file in `certs/` below the
/// data directory, where a self-signed pair is created and reused.
pub open spec fn cert_location(configured: Seq<char>, generated_file: Seq<char>) -> FsPathView {
    if is_blank(configured) {
        under2(BaseDir::AppData, "certs"@, generated_file)
    } else {
        FsPathView::Given(trimmed(configured))
    }
}

/// Decides where a certificate (or key) is read from; see `cert_location`.
pub fn resolve_cert_location(configured: &String, generated_file: &str) -> (p: FsPath)
    ensures
        p@ == cert_location(configured@, generated_file@),
        !is_blank(configured@) ==> p@ == FsPathView::Given(trimmed(configured@)),
        is_blank(configured@) ==> p@ == FsPathView::Under(BaseDir::AppData, seq!["certs"@, generated_file@]),
{
    let t = trim(configured.as_str());
    proof {
        lemma_trimmed_empty_iff_blank(configured@);
    }
    if t.is_empty() {
        under2_path(BaseDir::AppData, "certs", generated_file)
    } else {
        FsPath::Given(t.to_owned())
    }
}

/// Any configured path that holds something besides whitespace is used,
/// whatever its characters, with only its surrounding whitespace removed
/// (a path without surrounding whitespace is used exactly as given); a
/// blank one means the generated file in `certs` below the data directory.
pub proof fn lemma_cert_location_uses_configured_path(configured: Seq<char>, generated_file: Seq<char>)
    ensures
        !is_blank(configured) ==> cert_location(configured, generated_file) == FsPathView::Given(trimmed(configured)),
        configured.len() > 0 && !is_white_space(configured[0]) && !is_white_space(configured.last())
            ==> cert_location(configured, generated_file) == FsPathView::Given(configured),
        is_blank(configured) ==> cert_location(configured, generated_file)
            == FsPathView::Under(BaseDir::AppData, seq!["certs"@, generated_file]),
{
    if configured.len() > 0 && !is_white_space(configured[0]) && !is_white_space(configured.last()) {
        lemma_trimmed_keeps_edges(configured);
        assert(!is_blank(configured));
    }
}

/// Whitespace around a configured certificate or key path does not change
/// where it is read from.
pub proof fn lemma_cert_location_ignores_padding(
    lead: Seq<char>,
    configured: Seq<char>,
    trail: Seq<char>,
    generated_file: Seq<char>,
)
    requires
        is_blank(lead),
        is_blank(trail),
    ensures
        cert_location(lead + configured + trail, generated_file) == cert_location(configured, generated_file),
{
    lemma_trimmed_ignores_padding(lead, configured, trail);
}

} // verus!
