//! Choosing which audio files of a directory a run works on.
use vstd::prelude::*;
use crate::tag::{needs_metadata, TagRead};
use crate::track::{audio_ext, is_track_file_name, stem_of, track_stem};

verus! {

/// A directory entry, with what reading its tag gave.
#[derive(Debug)]
pub struct ScannedFile {
    pub name: String,
    pub tag: TagRead,
}

/// A sequence of strings seen as a sequence of character sequences.
pub open spec fn strs_view(v: Seq<String>) -> Seq<Seq<char>> {
    v.map_values(|s: String| s@)
}

/// The identifiers of all track files among `names`, in listing order.
pub open spec fn all_ids(names: Seq<Seq<char>>) -> Seq<Seq<char>>
    decreases names.len(),
{
    if names.len() == 0 {
        seq![]
    } else {
        let rest = all_ids(names.drop_last());
        if is_track_file_name(names.last()) {
            rest.push(stem_of(names.last()))
        } else {
            rest
        }
    }
}

/// Whether a scanned file is a track file that still needs metadata.
pub open spec fn wants_metadata(f: ScannedFile) -> bool {
    is_track_file_name(f.name@) && needs_metadata(f.tag)
}

/// The identifiers of the track files among `files` that still need
/// metadata, in listing order.
pub open spec fn non_title_ids(files: Seq<ScannedFile>) -> Seq<Seq<char>>
    decreases files.len(),
{
    if files.len() == 0 {
        seq![]
    } else {
        let rest = non_title_ids(files.drop_last());
        if wants_metadata(files.last()) {
            rest.push(stem_of(files.last().name@))
        } else {
            rest
        }
    }
}

/// The identifiers of every track file among the listed file names; used to
/// select the files of a wipe run.
pub fn get_all_ids(names: &Vec<String>) -> (r: Vec<String>)
    ensures
        strs_view(r@) == all_ids(strs_view(names@)),
{
    let mut ids: Vec<String> = Vec::new();
    let mut i: usize = 0;
    while i < names.len()
        invariant
            i <= names@.len(),
            strs_view(ids@) == all_ids(strs_view(names@.subrange(0, i as int))),
        decreases names@.len() - i,
    {
        let ghost before = ids@;
        assert(strs_view(names@.subrange(0, i + 1)).drop_last() =~= strs_view(
            names@.subrange(0, i as int),
        ));
        if let Some(id) = track_stem(names[i].as_str()) {
            ids.push(id);
            assert(strs_view(ids@) =~= strs_view(before).push(id@));
        }
        i = i + 1;
    }
    assert(names@.subrange(0, names@.len() as int) =~= names@);
    ids
}

/// The identifiers of the track files that still need metadata: those whose
/// tag has no title, or that have no tag or an undecodable one. A file whose
/// tag could not be read for another reason is left out.
pub fn get_non_title_ids(files: &Vec<ScannedFile>) -> (r: Vec<String>)
    ensures
        strs_view(r@) == non_title_ids(files@),
{
    let mut ids: Vec<String> = Vec::new();
    let mut i: usize = 0;
    while i < files.len()
        invariant
            i <= files@.len(),
            strs_view(ids@) == non_title_ids(files@.subrange(0, i as int)),
        decreases files@.len() - i,
    {
        let ghost before = ids@;
        assert(files@.subrange(0, i + 1).drop_last() =~= files@.subrange(0, i as int));
        let f = &files[i];
        if f.tag.needs_metadata() {
            if let Some(id) = track_stem(f.name.as_str()) {
                ids.push(id);
                assert(strs_view(ids@) =~= strs_view(before).push(id@));
            }
        }
        i = i + 1;
    }
    assert(files@.subrange(0, files@.len() as int) =~= files@);
    ids
}

/// A track file name is its identifier followed by the audio extension.
pub proof fn lemma_name_from_stem(name: Seq<char>)
    requires
        is_track_file_name(name),
    ensures
        name == stem_of(name) + audio_ext(),
{
    assert(name =~= stem_of(name) + name.subrange(name.len() - 4, name.len() as int));
}

/// Every identifier selected for metadata is the stem of a listed file that
/// wants it.
pub proof fn lemma_selected_from_wanting(files: Seq<ScannedFile>, k: int)
    requires
        0 <= k < non_title_ids(files).len(),
    ensures
        exists|j: int|
            0 <= j < files.len() && wants_metadata(#[trigger] files[j])
                && non_title_ids(files)[k] == stem_of(files[j].name@),
    decreases files.len(),
{
    let rest = files.drop_last();
    if k < non_title_ids(rest).len() {
        lemma_selected_from_wanting(rest, k);
        let j = choose|j: int|
            0 <= j < rest.len() && wants_metadata(#[trigger] rest[j])
                && non_title_ids(rest)[k] == stem_of(rest[j].name@);
        assert(files[j] == rest[j]);
    } else {
        assert(files[files.len() - 1] == files.last());
    }
}

/// A listed track file that has no tag, or an undecodable one, is selected
/// for metadata.
pub proof fn lemma_untagged_included(files: Seq<ScannedFile>, j: int)
    requires
        0 <= j < files.len(),
        is_track_file_name(files[j].name@),
        files[j].tag is NoTag || files[j].tag is Unparsable,
    ensures
        non_title_ids(files).contains(stem_of(files[j].name@)),
    decreases files.len(),
{
    let rest = files.drop_last();
    if j == files.len() - 1 {
        assert(non_title_ids(files).last() == stem_of(files[j].name@));
    } else {
        assert(rest[j] == files[j]);
        lemma_untagged_included(rest, j);
        let k = choose|k: int|
            0 <= k < non_title_ids(rest).len() && non_title_ids(rest)[k] == stem_of(
                files[j].name@,
            );
        assert(non_title_ids(files)[k] == non_title_ids(rest)[k]);
    }
}

/// Among files with distinct names, a track file whose tag carries a
/// non-empty title is not selected for metadata.
pub proof fn lemma_titled_excluded(files: Seq<ScannedFile>, j: int)
    requires
        forall|a: int, b: int|
            0 <= a < files.len() && 0 <= b < files.len() && a != b ==> #[trigger] files[a].name@
                != #[trigger] files[b].name@,
        0 <= j < files.len(),
        is_track_file_name(files[j].name@),
        files[j].tag matches TagRead::Found(t) && t.title matches Some(s) && s@.len() > 0,
    ensures
        !non_title_ids(files).contains(stem_of(files[j].name@)),
{
    if non_title_ids(files).contains(stem_of(files[j].name@)) {
        let k = choose|k: int|
            0 <= k < non_title_ids(files).len() && non_title_ids(files)[k] == stem_of(
                files[j].name@,
            );
        lemma_selected_from_wanting(files, k);
        let i = choose|i: int|
            0 <= i < files.len() && wants_metadata(#[trigger] files[i])
                && non_title_ids(files)[k] == stem_of(files[i].name@);
        lemma_name_from_stem(files[i].name@);
        lemma_name_from_stem(files[j].name@);
        assert(files[i].name@ == files[j].name@);
    }
}

} // verus!
