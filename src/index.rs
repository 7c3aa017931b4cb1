//! The template index: a scan of the cache root turned into a catalog.
use vstd::prelude::*;
use crate::descriptor::{descriptors, ScaffoldConfig, TemplateDescriptor};
use crate::error::ScaffoldError;

verus! {

/// What reading one entry of the cache root found.
#[derive(Debug, Clone)]
pub enum ManifestRead {
    /// The entry is not a directory; it is skipped.
    NotADirectory,
    /// The directory holds no manifest; it is skipped.
    Missing,
    /// The manifest parsed; whatever `path` it gave is replaced.
    Parsed(ScaffoldConfig),
    /// The manifest at `file` exists but does not parse.
    Malformed { file: String, cause: String },
    /// The manifest at `file` exists but could not be read.
    Unreadable { file: String, cause: String },
}

/// One immediate entry of the cache root, in directory-scan order.
#[derive(Debug, Clone)]
pub struct ScanEntry {
    pub path: String,
    pub manifest: ManifestRead,
}

/// The catalog entry that a scanned entry contributes, if any.
pub open spec fn entry_descriptor(e: ScanEntry) -> Option<TemplateDescriptor> {
    match e.manifest {
        ManifestRead::Parsed(c) => Some(TemplateDescriptor { path: e.path@, ..c@ }),
        _ => None,
    }
}

/// The failure that a scanned entry stands for, if any.
pub open spec fn entry_failure(e: ScanEntry) -> Option<ScaffoldError> {
    match e.manifest {
        ManifestRead::Malformed { file, cause } => Some(ScaffoldError::ManifestParse { path: file, cause }),
        ManifestRead::Unreadable { file, cause } => Some(ScaffoldError::Io { path: file, cause }),
        _ => None,
    }
}

/// The failure of the first failing entry of the scan.
pub open spec fn first_failure(s: Seq<ScanEntry>) -> Option<ScaffoldError>
    decreases s.len(),
{
    if s.len() == 0 {
        None
    } else {
        match first_failure(s.drop_last()) {
            Some(e) => Some(e),
            None => entry_failure(s.last()),
        }
    }
}

/// The catalog that a scan with no failing entry gives: one descriptor per
/// parsed manifest, in scan order, pointing at its directory.
pub open spec fn catalog_of(s: Seq<ScanEntry>) -> Seq<TemplateDescriptor> {
    s.filter_map(|e: ScanEntry| entry_descriptor(e))
}

pub open spec fn has_manifest(e: ScanEntry) -> bool {
    e.manifest is Parsed
}

/// Builds the catalog from the entries of a scan of the cache root. A single
/// failing entry fails the whole build, with the failure of the first one.
pub fn build_index(entries: &Vec<ScanEntry>) -> (r: Result<Vec<ScaffoldConfig>, ScaffoldError>)
    ensures
        match first_failure(entries@) {
            Some(e) => r == Err::<Vec<ScaffoldConfig>, ScaffoldError>(e),
            None => r is Ok && descriptors(r->Ok_0@) == catalog_of(entries@),
        },
{
    let mut configs: Vec<ScaffoldConfig> = Vec::new();
    let mut i: usize = 0;
    while i < entries.len()
        invariant
            i <= entries@.len(),
            first_failure(entries@.take(i as int)) is None,
            descriptors(configs@) == catalog_of(entries@.take(i as int)),
        decreases entries@.len() - i,
    {
        let entry = &entries[i];
        proof {
            assert(entries@.take(i as int + 1).drop_last() =~= entries@.take(i as int));
            assert(entries@.take(i as int + 1).last() == entries@[i as int]);
            entries@.lemma_filter_map_take_succ(|e: ScanEntry| entry_descriptor(e), i as int);
        }
        match &entry.manifest {
            ManifestRead::Parsed(c) => {
                let ghost before = configs@;
                configs.push(c.duplicate().with_path(entry.path.clone()));
                assert(descriptors(configs@) =~= descriptors(before).push(entry_descriptor(*entry)->Some_0));
            },
            ManifestRead::Malformed { file, cause } => {
                proof {
                    assert(first_failure(entries@.take(i as int + 1)) == entry_failure(*entry));
                    lemma_failure_persists(entries@, i as int + 1);
                }
                return Err(ScaffoldError::ManifestParse { path: file.clone(), cause: cause.clone() });
            },
            ManifestRead::Unreadable { file, cause } => {
                proof {
                    assert(first_failure(entries@.take(i as int + 1)) == entry_failure(*entry));
                    lemma_failure_persists(entries@, i as int + 1);
                }
                return Err(ScaffoldError::Io { path: file.clone(), cause: cause.clone() });
            },
            _ => {},
        }
        i = i + 1;
    }
    assert(entries@.take(entries@.len() as int) =~= entries@);
    Ok(configs)
}

/// Once a prefix of the scan has failed, the whole scan fails the same way.
proof fn lemma_failure_persists(s: Seq<ScanEntry>, k: int)
    requires
        0 <= k <= s.len(),
        first_failure(s.take(k)) is Some,
    ensures
        first_failure(s) == first_failure(s.take(k)),
    decreases s.len() - k,
{
    if k < s.len() {
        assert(s.take(k + 1).drop_last() =~= s.take(k));
        lemma_failure_persists(s, k + 1);
    } else {
        assert(s.take(k) =~= s);
    }
}

} // verus!

verus! {

/// A scan whose directories each hold a valid manifest or none at all builds
/// without failure, into a catalog with exactly one entry per manifest, in scan
/// order, each pointing at the directory its manifest was found in.
pub proof fn lemma_index_round_trip(entries: Seq<ScanEntry>)
    requires
        forall|i: int|
            0 <= i < entries.len() ==> !(#[trigger] entries[i].manifest is Malformed)
                && !(entries[i].manifest is Unreadable),
    ensures
        first_failure(entries) is None,
        catalog_of(entries).len() == entries.filter(|e: ScanEntry| has_manifest(e)).len(),
        forall|k: int|
            0 <= k < catalog_of(entries).len() ==> #[trigger] catalog_of(entries)[k].path
                == entries.filter(|e: ScanEntry| has_manifest(e))[k].path@,
    decreases entries.len(),
{
    let p = |e: ScanEntry| has_manifest(e);
    if entries.len() > 0 {
        let rest = entries.drop_last();
        assert forall|i: int| 0 <= i < rest.len() implies !(#[trigger] rest[i].manifest is Malformed)
            && !(rest[i].manifest is Unreadable) by {
            assert(rest[i] == entries[i]);
        }
        lemma_index_round_trip(rest);
        assert(entries.last() == entries[entries.len() - 1]);
        assert(rest.push(entries.last()) =~= entries);
        rest.lemma_filter_push(entries.last(), p);
    } else {
        reveal(Seq::filter);
    }
}

} // verus!
