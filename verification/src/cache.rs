//! Freshness classification of the single cached file.
//!
//! The application reads the file (or finds it absent) and reports what it
//! saw as plain values: the file's content and its age. Classification
//! against the configured time-to-live happens here, verified.

use vstd::prelude::*;

verus! {

/// What the application observed when it read the cache file: the full
/// content, and how long ago the file was last modified.
pub struct FileRead {
    /// The file's entire content, read as text.
    pub content: String,
    /// Time since the file was last modified, in microseconds.
    pub age_micros: u64,
}

/// The freshness classification of the cached file.
#[derive(Debug, PartialEq, Clone)]
pub enum Data {
    /// The file exists and its age is within the time-to-live.
    Fresh(String),
    /// The file exists but its age exceeds the time-to-live.
    Stale(String),
    /// The file did not exist when classification ran.
    Absent,
    /// Classification has not run yet. This value must never reach the
    /// arbiter; it exists only as the initial state of a new `Cache`.
    Unclassified,
}

/// One cache record: the time-to-live it was configured with and the
/// classification of the file's last observed state.
#[derive(Debug)]
pub struct Cache {
    /// Maximum age, in microseconds, at which content still counts as fresh.
    pub ttl_micros: u64,
    /// The classification of the file, `Unclassified` until `classify` runs.
    pub data: Data,
}

/// The classification a cache with the given time-to-live assigns to an
/// observation of the file: a missing file is `Absent`; an existing file is
/// `Stale` exactly when its age strictly exceeds the time-to-live, so a file
/// exactly at the threshold still counts as fresh.
pub open spec fn spec_classify(ttl_micros: u64, file: Option<FileRead>) -> Data {
    match file {
        Option::Some(f) => if f.age_micros > ttl_micros {
            Data::Stale(f.content)
        } else {
            Data::Fresh(f.content)
        },
        Option::None => Data::Absent,
    }
}

impl Cache {
    /// A new cache record holding the given time-to-live and no
    /// classification yet.
    pub fn new(ttl_micros: u64) -> (c: Cache)
        ensures
            c.ttl_micros == ttl_micros,
            c.data is Unclassified,
    {
        Cache { ttl_micros, data: Data::Unclassified }
    }

    /// Classify the file from what the application observed: `None` when the
    /// file did not exist, `Some` with the content and age otherwise. The
    /// content is carried into the classification verbatim; age ties with the
    /// time-to-live count as fresh.
    pub fn classify(&mut self, file: Option<FileRead>)
        ensures
            final(self).ttl_micros == old(self).ttl_micros,
            final(self).data == spec_classify(old(self).ttl_micros, file),
            file matches Some(f) ==> {
                &&& f.age_micros < old(self).ttl_micros
                    ==> final(self).data == Data::Fresh(f.content)
                &&& f.age_micros > old(self).ttl_micros
                    ==> final(self).data == Data::Stale(f.content)
            },
            file is None ==> final(self).data == Data::Absent,
    {
        match file {
            Option::Some(f) => {
                if f.age_micros > self.ttl_micros {
                    self.data = Data::Stale(f.content);
                } else {
                    self.data = Data::Fresh(f.content);
                }
            },
            Option::None => {
                self.data = Data::Absent;
            },
        }
    }
}

} // verus!
