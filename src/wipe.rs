//! The wipe pipeline: every track file of a directory gets an empty tag, in
//! listing order, and the first failed write ends the run.
use vstd::prelude::*;
use crate::classify::{all_ids, get_all_ids, strs_view};
use crate::ingest::WriteRequest;
use crate::tag::{empty_tag_view, TagRecord};
use crate::track::{is_track_file_name, is_track_id, make_path_from_id, stem_of, track_path, OtherError};

verus! {

/// A wipe run over the track files of directory `base`. The first `done`
/// files have been wiped; `error` holds the write failure that ended the run.
#[derive(Debug)]
pub struct WipeRun {
    pub base: String,
    pub ids: Vec<String>,
    pub paths: Vec<String>,
    pub done: usize,
    pub error: Option<OtherError>,
}

/// Every identifier that the classifier yields is a valid track identifier.
pub proof fn lemma_all_ids_valid(names: Seq<Seq<char>>)
    ensures
        forall|k: int| 0 <= k < all_ids(names).len() ==> is_track_id(#[trigger] all_ids(names)[k]),
    decreases names.len(),
{
    if names.len() > 0 {
        lemma_all_ids_valid(names.drop_last());
        let rest = all_ids(names.drop_last());
        if is_track_file_name(names.last()) {
            assert forall|k: int| 0 <= k < all_ids(names).len() implies is_track_id(
                #[trigger] all_ids(names)[k],
            ) by {
                if k < rest.len() {
                    assert(all_ids(names)[k] == rest[k]);
                }
            }
        }
    }
}

impl WipeRun {
    /// The run's bookkeeping is consistent: one path per identifier, each the
    /// file of that identifier in `base`, and no more files wiped than listed.
    pub open spec fn wf(&self) -> bool {
        &&& self.paths@.len() == self.ids@.len()
        &&& self.done <= self.ids@.len()
        &&& forall|k: int|
            0 <= k < self.ids@.len() ==> is_track_id(#[trigger] self.ids@[k]@) && self.paths@[k]@
                == track_path(self.base@, self.ids@[k]@)
    }

    /// Whether the run still has a file to wipe.
    pub open spec fn has_next(&self) -> bool {
        self.error is None && self.done < self.ids@.len()
    }

    /// The next write to make: the empty tag to the next file; `None` once
    /// every file is wiped or a write has failed.
    pub fn next_write(&self) -> (r: Option<WriteRequest>)
        requires
            self.wf(),
        ensures
            r is Some <==> self.has_next(),
            r matches Some(w) ==> w.id == self.ids@[self.done as int] && w.path
                == self.paths@[self.done as int] && w.tag@ == empty_tag_view(),
    {
        if self.error.is_none() && self.done < self.ids.len() {
            Some(
                WriteRequest {
                    id: self.ids[self.done].clone(),
                    path: self.paths[self.done].clone(),
                    tag: TagRecord::empty(),
                },
            )
        } else {
            None
        }
    }

    /// Takes the result of the write that [`WipeRun::next_write`] asked for:
    /// the file counts as wiped, or the run ends with the error.
    pub fn on_write(&mut self, result: Result<(), OtherError>)
        requires
            old(self).wf(),
            old(self).has_next(),
        ensures
            final(self).wf(),
            final(self).base == old(self).base,
            final(self).ids == old(self).ids,
            final(self).paths == old(self).paths,
            match result {
                Ok(_) => final(self).done == old(self).done + 1 && final(self).error is None,
                Err(e) => final(self).done == old(self).done && final(self).error == Some(e),
            },
    {
        let n = self.ids.len();
        assert(self.done < n);
        match result {
            Ok(_) => self.done = self.done + 1,
            Err(e) => self.error = Some(e),
        }
    }
}

/// A wipe run over the track files among the file names listed in
/// `base_path`; nothing is wiped yet.
pub fn wipe_metadata(base_path: &str, names: &Vec<String>) -> (r: WipeRun)
    ensures
        r.wf(),
        r.base@ == base_path@,
        strs_view(r.ids@) == all_ids(strs_view(names@)),
        r.done == 0,
        r.error is None,
{
    let ids = get_all_ids(names);
    proof {
        lemma_all_ids_valid(strs_view(names@));
        assert forall|k: int| 0 <= k < ids@.len() implies is_track_id(#[trigger] ids@[k]@) by {
            assert(strs_view(ids@)[k] == ids@[k]@);
        }
    }
    let mut paths: Vec<String> = Vec::new();
    let mut i: usize = 0;
    while i < ids.len()
        invariant
            i <= ids@.len(),
            paths@.len() == i,
            forall|k: int| 0 <= k < ids@.len() ==> is_track_id(#[trigger] ids@[k]@),
            forall|k: int|
                0 <= k < i ==> #[trigger] paths@[k]@ == track_path(base_path@, ids@[k]@),
        decreases ids@.len() - i,
    {
        paths.push(make_path_from_id(base_path, ids[i].as_str()));
        i = i + 1;
    }
    WipeRun { base: String::from_str(base_path), ids, paths, done: 0, error: None }
}

/// Once a write of a wipe run has failed, the run hands out no further write.
pub proof fn lemma_wipe_halts_on_failure(run: WipeRun)
    requires
        run.wf(),
        run.error is Some,
    ensures
        !run.has_next(),
{
}

/// A wipe run that ended without error has written the empty tag to the file
/// of every listed identifier.
pub proof fn lemma_wipe_covers_all(run: WipeRun)
    requires
        run.wf(),
        run.error is None,
        !run.has_next(),
    ensures
        run.done == run.ids@.len(),
{
}

} // verus!
