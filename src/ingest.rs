//! The metadata-ingestion pipeline: classifying each completed lookup,
//! merging its result into the file's current tag, and folding every item's
//! fate into a run summary.
//!
//! The caller performs the lookups, tag reads and tag writes, and hands each
//! result to an [`Ingestion`], which decides what happens next.
use vstd::prelude::*;
use crate::tag::{
    base_tag, needs_metadata, opt_view, parse_timestamp, timestamp_of, ReleaseDate, TagRead, TagRecord, TagView,
};
use crate::text::{text_contains, text_has};
use crate::track::{is_track_id, is_track_id_str, make_path_from_id, track_path, OtherError};

verus! {

/// The remote record describing one track.
#[derive(Debug)]
pub struct LookupResult {
    pub title: String,
    pub uploader: Option<String>,
    /// Web page of the track.
    pub webpage_url: Option<String>,
    /// Direct address of the audio resource.
    pub url: Option<String>,
    /// Upload date, as the service writes it.
    pub upload_date: Option<String>,
    /// The identifier under which the service displays the track; the only
    /// link back to the file.
    pub display_id: Option<String>,
}

/// How one lookup ended.
#[derive(Debug)]
pub enum LookupOutcome {
    /// A single-track record.
    Track(LookupResult),
    /// A record listing several tracks.
    Playlist,
    /// The lookup subsystem could not be run or talked to.
    Transport(String),
    /// The lookup's output could not be decoded.
    MalformedPayload(String),
    /// The lookup exited with a failure code.
    ExitFailure { code: i32, stderr: String },
    /// The lookup took too long.
    Timeout,
}

/// A failure that ends the whole run.
#[derive(Debug)]
pub enum RunError {
    Transport(String),
    MalformedPayload(String),
}

/// Why one item was given up; the run goes on.
#[derive(Debug)]
pub enum FailureReason {
    /// The lookup exited with a failure other than "not found".
    LookupFailed { code: i32, stderr: String },
    LookupTimeout,
    /// The lookup returned several tracks for one identifier.
    BatchResultsUnsupported,
    MissingDisplayId,
    /// The display identifier is not a string of digits.
    InvalidDisplayId(String),
    TagRead(OtherError),
    MalformedDate(String),
    TagWrite(OtherError),
}

/// One item given up, with the reason.
#[derive(Debug)]
pub struct ItemFailure {
    pub id: String,
    pub reason: FailureReason,
}

/// The summary of a run: the identifiers written, those the service does
/// not know, and the failed items with their reasons.
#[derive(Debug)]
pub struct RunOutcome {
    pub written: Vec<String>,
    pub not_found: Vec<String>,
    pub failures: Vec<ItemFailure>,
}

impl RunOutcome {
    pub fn new() -> (r: RunOutcome)
        ensures
            r.written@.len() == 0,
            r.not_found@.len() == 0,
            r.failures@.len() == 0,
    {
        RunOutcome { written: Vec::new(), not_found: Vec::new(), failures: Vec::new() }
    }

    /// Number of files written.
    pub fn written_count(&self) -> (r: usize)
        ensures
            r == self.written@.len(),
    {
        self.written.len()
    }

    /// Number of items skipped because the service does not know them.
    pub fn skipped_count(&self) -> (r: usize)
        ensures
            r == self.not_found@.len(),
    {
        self.not_found.len()
    }

    /// Number of items that failed.
    pub fn failed_count(&self) -> (r: usize)
        ensures
            r == self.failures@.len(),
    {
        self.failures.len()
    }
}

/// `new` is `old` with one more failure, `f`.
pub open spec fn adds_failure(old: RunOutcome, new: RunOutcome, f: ItemFailure) -> bool {
    new.written == old.written && new.not_found == old.not_found && new.failures@
        == old.failures@.push(f)
}

/// `new` is `old` with `id` skipped as not found.
pub open spec fn adds_not_found(old: RunOutcome, new: RunOutcome, id: String) -> bool {
    new.written == old.written && new.not_found@ == old.not_found@.push(id) && new.failures
        == old.failures
}

/// `new` is `old` with `id` written.
pub open spec fn adds_written(old: RunOutcome, new: RunOutcome, id: String) -> bool {
    new.written@ == old.written@.push(id) && new.not_found == old.not_found && new.failures
        == old.failures
}

/// The text by which a failed lookup says that the track does not exist.
pub open spec fn not_found_signature() -> Seq<char> {
    seq!['H', 'T', 'T', 'P', ' ', 'E', 'r', 'r', 'o', 'r', ' ', '4', '0', '4']
}

/// Whether a failed lookup's error text says that the track does not exist.
pub open spec fn is_not_found(stderr: Seq<char>) -> bool {
    text_has(stderr, not_found_signature())
}

/// The release date that the upload date of `res` parses to, if it has one.
pub open spec fn parsed_date(res: LookupResult) -> Option<ReleaseDate> {
    match res.upload_date {
        Some(s) => timestamp_of(s@),
        None => None,
    }
}

/// Whether `res` has an upload date that does not parse, given that it
/// parses to `date`.
pub open spec fn bad_date(res: LookupResult, date: Option<ReleaseDate>) -> bool {
    res.upload_date is Some && date is None
}

/// The tag `base` merged with the lookup result `res` for track `id`, the
/// upload date having parsed to `date`: the title is always replaced, the
/// back-reference text always set to `id`, and every other field replaced
/// only where the result has a value for it.
pub open spec fn merged_tag(
    base: TagView,
    res: LookupResult,
    id: Seq<char>,
    date: Option<ReleaseDate>,
) -> TagView {
    TagView {
        title: Some(res.title@),
        artist: if res.uploader is Some {
            opt_view(res.uploader)
        } else {
            base.artist
        },
        released: if res.upload_date is Some {
            date
        } else {
            base.released
        },
        source_link: if res.webpage_url is Some {
            opt_view(res.webpage_url)
        } else {
            base.source_link
        },
        file_link: if res.url is Some {
            opt_view(res.url)
        } else {
            base.file_link
        },
        custom_text: Some(id),
    }
}

/// 1 where `o` holds a value, else 0.
pub open spec fn present<T>(o: Option<T>) -> nat {
    if o is Some {
        1
    } else {
        0
    }
}

/// How many tag fields merging `res` sets: the title and the back-reference
/// text always, and each optional field for which `res` has a value.
pub open spec fn fields_set_by(res: LookupResult) -> nat {
    2 + present(res.uploader) + present(res.upload_date) + present(res.webpage_url) + present(
        res.url,
    )
}

/// How many tag fields merging `res` sets, out of six.
pub fn fields_set(res: &LookupResult) -> (r: u8)
    ensures
        r == fields_set_by(*res),
{
    let mut count: u8 = 2;
    if res.uploader.is_some() {
        count = count + 1;
    }
    if res.upload_date.is_some() {
        count = count + 1;
    }
    if res.webpage_url.is_some() {
        count = count + 1;
    }
    if res.url.is_some() {
        count = count + 1;
    }
    count
}

/// A tag merged for track `id`, once written and read back unchanged, holds
/// `id` as its back-reference text and carries a title, so the file is no
/// longer selected for metadata.
pub proof fn lemma_merged_tag_reads_back(
    written: TagRecord,
    base: TagView,
    res: LookupResult,
    id: Seq<char>,
    date: Option<ReleaseDate>,
)
    requires
        written@ == merged_tag(base, res, id, date),
    ensures
        base_tag(TagRead::Found(written)) matches Some(t) && t.custom_text == Some(id),
        !needs_metadata(TagRead::Found(written)),
{
}

/// Keeps `cur` unless `new` has a value.
fn replace_if_some(cur: Option<String>, new: &Option<String>) -> (r: Option<String>)
    ensures
        opt_view(r) == if new is Some {
            opt_view(*new)
        } else {
            opt_view(cur)
        },
{
    match new {
        Some(s) => Some(s.clone()),
        None => cur,
    }
}

/// Merges `res` into `base` for track `id`, given what the upload date
/// parsed to; fails exactly when the result has an upload date that did not
/// parse.
pub fn merge_parsed(base: TagRecord, res: &LookupResult, id: &str, date: Option<ReleaseDate>) -> (r:
    Result<TagRecord, FailureReason>)
    ensures
        r is Err <==> bad_date(*res, date),
        r is Err ==> r == Err::<TagRecord, FailureReason>(
            FailureReason::MalformedDate(res.upload_date.unwrap()),
        ),
        r is Ok ==> r.unwrap()@ == merged_tag(base@, *res, id@, date),
{
    let released = match &res.upload_date {
        Some(s) => match date {
            Some(d) => Some(d),
            None => {
                return Err(FailureReason::MalformedDate(s.clone()));
            },
        },
        None => base.released,
    };
    let tag = TagRecord {
        title: Some(res.title.clone()),
        artist: replace_if_some(base.artist, &res.uploader),
        released,
        source_link: replace_if_some(base.source_link, &res.webpage_url),
        file_link: replace_if_some(base.file_link, &res.url),
        custom_text: Some(String::from_str(id)),
    };
    Ok(tag)
}

/// Merges `res` into the tag that reading the file gave, for track `id`.
/// A tag that is absent or undecodable is replaced by an empty one; any other
/// read failure, and an upload date that does not parse, fail the item.
pub fn merge_tag(read: TagRead, res: &LookupResult, id: &str) -> (r: Result<
    TagRecord,
    FailureReason,
>)
    ensures
        read matches TagRead::Other(e) ==> r == Err::<TagRecord, FailureReason>(
            FailureReason::TagRead(e),
        ),
        base_tag(read) matches Some(b) ==> {
            &&& r is Err <==> bad_date(*res, parsed_date(*res))
            &&& r is Err ==> r == Err::<TagRecord, FailureReason>(
                FailureReason::MalformedDate(res.upload_date.unwrap()),
            )
            &&& r is Ok ==> r.unwrap()@ == merged_tag(b, *res, id@, parsed_date(*res))
        },
{
    let base = match read {
        TagRead::Found(t) => t,
        TagRead::NoTag | TagRead::Unparsable => TagRecord::empty(),
        TagRead::Other(e) => {
            return Err(FailureReason::TagRead(e));
        },
    };
    let date = match &res.upload_date {
        Some(s) => parse_timestamp(s.as_str()),
        None => None,
    };
    merge_parsed(base, res, id, date)
}

/// A tag read that the run waits for: the current tag of the file at
/// `path`, to be merged with `result` for track `id`.
#[derive(Debug)]
pub struct ReadRequest {
    pub id: String,
    pub path: String,
    pub result: LookupResult,
}

/// A tag write that the run waits for: `tag` to be written to the file at
/// `path`, the file of track `id`.
#[derive(Debug)]
pub struct WriteRequest {
    pub id: String,
    pub path: String,
    pub tag: TagRecord,
}

/// An ingestion run over the audio files of directory `base`.
#[derive(Debug)]
pub struct Ingestion {
    pub base: String,
    pub outcome: RunOutcome,
}

impl Ingestion {
    /// A run that has settled no item yet.
    pub fn new(base: String) -> (r: Ingestion)
        ensures
            r.base == base,
            r.outcome.written@.len() == 0,
            r.outcome.not_found@.len() == 0,
            r.outcome.failures@.len() == 0,
    {
        Ingestion { base, outcome: RunOutcome::new() }
    }

    /// Takes the completed lookup for track `id`.
    ///
    /// A transport failure or an undecodable payload ends the run (`Err`),
    /// and nothing is recorded. A lookup that failed with the not-found
    /// signature is skipped; any other failed lookup, a playlist, or a
    /// result without a valid display identifier fails the item; in these
    /// cases `Ok(None)` is returned and no file is touched. A usable result
    /// asks for the current tag of the file its display identifier names.
    pub fn on_lookup(&mut self, id: String, lookup: LookupOutcome) -> (r: Result<
        Option<ReadRequest>,
        RunError,
    >)
        ensures
            final(self).base == old(self).base,
            match lookup {
                LookupOutcome::Transport(d) => r == Err::<Option<ReadRequest>, RunError>(
                    RunError::Transport(d),
                ) && final(self).outcome == old(self).outcome,
                LookupOutcome::MalformedPayload(d) => r == Err::<Option<ReadRequest>, RunError>(
                    RunError::MalformedPayload(d),
                ) && final(self).outcome == old(self).outcome,
                LookupOutcome::ExitFailure { code, stderr } => r == Ok::<
                    Option<ReadRequest>,
                    RunError,
                >(None) && if is_not_found(stderr@) {
                    adds_not_found(old(self).outcome, final(self).outcome, id)
                } else {
                    adds_failure(
                        old(self).outcome,
                        final(self).outcome,
                        ItemFailure { id, reason: FailureReason::LookupFailed { code, stderr } },
                    )
                },
                LookupOutcome::Timeout => r == Ok::<Option<ReadRequest>, RunError>(None)
                    && adds_failure(
                    old(self).outcome,
                    final(self).outcome,
                    ItemFailure { id, reason: FailureReason::LookupTimeout },
                ),
                LookupOutcome::Playlist => r == Ok::<Option<ReadRequest>, RunError>(None)
                    && adds_failure(
                    old(self).outcome,
                    final(self).outcome,
                    ItemFailure { id, reason: FailureReason::BatchResultsUnsupported },
                ),
                LookupOutcome::Track(res) => match res.display_id {
                    None => r == Ok::<Option<ReadRequest>, RunError>(None) && adds_failure(
                        old(self).outcome,
                        final(self).outcome,
                        ItemFailure { id, reason: FailureReason::MissingDisplayId },
                    ),
                    Some(d) => if is_track_id(d@) {
                        final(self).outcome == old(self).outcome && (r matches Ok(Some(q)) && q.id
                            == d && q.path@ == track_path(old(self).base@, d@) && q.result == res)
                    } else {
                        r == Ok::<Option<ReadRequest>, RunError>(None) && adds_failure(
                            old(self).outcome,
                            final(self).outcome,
                            ItemFailure { id, reason: FailureReason::InvalidDisplayId(d) },
                        )
                    },
                },
            },
    {
        proof {
            reveal_strlit("HTTP Error 404");
        }
        match lookup {
            LookupOutcome::Transport(d) => Err(RunError::Transport(d)),
            LookupOutcome::MalformedPayload(d) => Err(RunError::MalformedPayload(d)),
            LookupOutcome::ExitFailure { code, stderr } => {
                assert("HTTP Error 404"@ =~= not_found_signature());
                if text_contains(stderr.as_str(), "HTTP Error 404") {
                    self.outcome.not_found.push(id);
                } else {
                    self.outcome.failures.push(
                        ItemFailure { id, reason: FailureReason::LookupFailed { code, stderr } },
                    );
                }
                Ok(None)
            },
            LookupOutcome::Timeout => {
                self.outcome.failures.push(ItemFailure { id, reason: FailureReason::LookupTimeout });
                Ok(None)
            },
            LookupOutcome::Playlist => {
                self.outcome.failures.push(
                    ItemFailure { id, reason: FailureReason::BatchResultsUnsupported },
                );
                Ok(None)
            },
            LookupOutcome::Track(res) => {
                let d = match &res.display_id {
                    Some(d) => d.clone(),
                    None => {
                        self.outcome.failures.push(
                            ItemFailure { id, reason: FailureReason::MissingDisplayId },
                        );
                        return Ok(None);
                    },
                };
                if !is_track_id_str(d.as_str()) {
                    self.outcome.failures.push(
                        ItemFailure { id, reason: FailureReason::InvalidDisplayId(d) },
                    );
                    return Ok(None);
                }
                let path = make_path_from_id(self.base.as_str(), d.as_str());
                Ok(Some(ReadRequest { id: d, path, result: res }))
            },
        }
    }

    /// Takes what reading the tag for `req` gave. Returns the merged tag to
    /// write, or `None` when the item failed (a read failure other than an
    /// absent or undecodable tag, or an upload date that does not parse),
    /// which is then recorded.
    pub fn on_tag_read(&mut self, req: ReadRequest, read: TagRead) -> (r: Option<WriteRequest>)
        ensures
            final(self).base == old(self).base,
            read matches TagRead::Other(e) ==> r is None && adds_failure(
                old(self).outcome,
                final(self).outcome,
                ItemFailure { id: req.id, reason: FailureReason::TagRead(e) },
            ),
            base_tag(read) matches Some(b) ==> if bad_date(req.result, parsed_date(req.result)) {
                r is None && adds_failure(
                    old(self).outcome,
                    final(self).outcome,
                    ItemFailure {
                        id: req.id,
                        reason: FailureReason::MalformedDate(req.result.upload_date.unwrap()),
                    },
                )
            } else {
                final(self).outcome == old(self).outcome && (r matches Some(w) && w.id == req.id
                    && w.path == req.path && w.tag@ == merged_tag(
                    b,
                    req.result,
                    req.id@,
                    parsed_date(req.result),
                ))
            },
    {
        let ReadRequest { id, path, result } = req;
        match merge_tag(read, &result, id.as_str()) {
            Ok(tag) => Some(WriteRequest { id, path, tag }),
            Err(reason) => {
                self.outcome.failures.push(ItemFailure { id, reason });
                None
            },
        }
    }

    /// Takes the result of writing the merged tag of track `id`: the file
    /// counts as written, or the item fails.
    pub fn on_write(&mut self, id: String, result: Result<(), OtherError>)
        ensures
            final(self).base == old(self).base,
            match result {
                Ok(_) => adds_written(old(self).outcome, final(self).outcome, id),
                Err(e) => adds_failure(
                    old(self).outcome,
                    final(self).outcome,
                    ItemFailure { id, reason: FailureReason::TagWrite(e) },
                ),
            },
    {
        match result {
            Ok(_) => self.outcome.written.push(id),
            Err(e) => self.outcome.failures.push(ItemFailure { id, reason: FailureReason::TagWrite(e) }),
        }
    }
}

} // verus!
