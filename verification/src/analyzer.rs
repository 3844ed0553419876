//! The analyzer service: the dependency usage analyzer behind a small
//! service handle.

use vstd::prelude::*;
use vstd::string::StringExecFns;

use crate::manifest::ManifestFile;
use crate::report::{analysis_of, analyze, spec_deps_of, spec_total_lines, ProjectAnalysis,
    ScannedFile};

verus! {

/// The analyzer service, configured with the cache directory the
/// walker reads from.
pub struct AnalyzerService {
    cache_dir: String,
}

impl View for AnalyzerService {
    type V = Seq<char>;

    /// The service is known by the cache directory it was created over.
    closed spec fn view(&self) -> Seq<char> {
        self.cache_dir@
    }
}

impl AnalyzerService {
    /// Create the service over a cache directory.
    pub fn new(cache_dir: &str) -> (s: Self)
        ensures
            s@ == cache_dir@,
    {
        Self { cache_dir: cache_dir.to_owned() }
    }

    /// The cache directory the service was created over.
    pub fn cache_dir(&self) -> (r: &str)
        ensures
            r@ == self@,
    {
        self.cache_dir.as_str()
    }

    /// Analyze a scanned source tree against its manifest.
    pub fn analyze(&self, files: &Vec<ScannedFile>, manifest: &Option<ManifestFile>) -> (r:
        ProjectAnalysis)
        requires
            spec_total_lines(files@, files@.len() as int) <= 0x1_0000_0000,
            spec_deps_of(*manifest).len() <= 0x1_0000,
        ensures
            analysis_of(r, files@, *manifest),
    {
        analyze(files, manifest)
    }
}

} // verus!
