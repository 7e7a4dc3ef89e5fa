//! Where the packages keep their files. A location is either relative to one
//! of the per-application directories that the desktop runtime resolves
//! (config, data, bundled resources), or a path that the user gave.

use vstd::prelude::*;
use std::path::PathBuf;

verus! {

#[verifier::external_type_specification]
#[verifier::external_body]
pub struct ExPathBuf(PathBuf);

/// A per-application directory, resolved by the desktop runtime.
#[derive(Clone, Copy, Debug, PartialEq, Eq, Structural)]
pub enum BaseDir {
    /// The per-user configuration directory (`settings.json` lives here).
    AppConfig,
    /// The per-user data directory (database, logs, generated certificates).
    AppData,
    /// The directory of resources bundled with the application.
    Resource,
}

/// A file-system location.
#[derive(Debug, PartialEq, Eq)]
pub enum FsPath {
    /// The components `parts`, joined in order below the directory `base`.
    Under(BaseDir, Vec<String>),
    /// A path exactly as the user configured it.
    Given(String),
}

/// The model of an `FsPath`.
pub enum FsPathView {
    Under(BaseDir, Seq<Seq<char>>),
    Given(Seq<char>),
}

impl View for FsPath {
    type V = FsPathView;

    open spec fn view(&self) -> FsPathView {
        match self {
            FsPath::Under(base, parts) => FsPathView::Under(*base, parts@.map_values(|p: String| p@)),
            FsPath::Given(p) => FsPathView::Given(p@),
        }
    }
}

/// The location of the one component `a` below `base`.
pub open spec fn under1(base: BaseDir, a: Seq<char>) -> FsPathView {
    FsPathView::Under(base, seq![a])
}

/// The location of `a/b` below `base`.
pub open spec fn under2(base: BaseDir, a: Seq<char>, b: Seq<char>) -> FsPathView {
    FsPathView::Under(base, seq![a, b])
}

/// The location of `a/b/c` below `base`.
pub open spec fn under3(base: BaseDir, a: Seq<char>, b: Seq<char>, c: Seq<char>) -> FsPathView {
    FsPathView::Under(base, seq![a, b, c])
}

/// Builds the location of `a` below `base`.
pub(crate) fn under1_path(base: BaseDir, a: &str) -> (p: FsPath)
    ensures
        p@ == under1(base, a@),
{
    let parts = vec![String::from_str(a)];
    assert(parts@.map_values(|p: String| p@) =~= seq![a@]);
    FsPath::Under(base, parts)
}

/// Builds the location of `a/b` below `base`.
pub(crate) fn under2_path(base: BaseDir, a: &str, b: &str) -> (p: FsPath)
    ensures
        p@ == under2(base, a@, b@),
{
    let parts = vec![String::from_str(a), String::from_str(b)];
    assert(parts@.map_values(|p: String| p@) =~= seq![a@, b@]);
    FsPath::Under(base, parts)
}

/// Builds the location of `a/b/c` below `base`.
pub(crate) fn under3_path(base: BaseDir, a: &str, b: &str, c: &str) -> (p: FsPath)
    ensures
        p@ == under3(base, a@, b@, c@),
{
    let parts = vec![String::from_str(a), String::from_str(b), String::from_str(c)];
    assert(parts@.map_values(|p: String| p@) =~= seq![a@, b@, c@]);
    FsPath::Under(base, parts)
}

/// `Path::to_string_lossy`, owned: the text of `p`, with anything that is
/// not valid Unicode replaced by U+FFFD. The library holds no model of an
/// operating-system path, so nothing is stated of the text.
#[verifier::external_body]
pub fn path_str(p: &PathBuf) -> String {
    p.to_string_lossy().to_string()
}

} // verus!
