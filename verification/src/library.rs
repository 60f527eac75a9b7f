//! The index of the tracks that have been retrieved before.

use vstd::prelude::*;
use crate::search::{first_index, lemma_first_index, lemma_first_index_is};
use crate::song::text_of;
use crate::text::{joined, same_text};

verus! {

/// The record of one retrieved track. `file_path` is relative to the cache
/// directory, `duration_ms` is in milliseconds, `downloaded_at` is the time
/// of retrieval as text.
#[derive(Debug, PartialEq, Eq)]
pub struct LibraryEntry {
    pub video_id: String,
    pub title: String,
    pub artist: String,
    pub url: String,
    pub duration_ms: u64,
    pub file_path: String,
    pub downloaded_at: String,
}

/// What a [`LibraryEntry`] is, as plain mathematical values.
pub ghost struct EntryView {
    pub video_id: Seq<char>,
    pub title: Seq<char>,
    pub artist: Seq<char>,
    pub url: Seq<char>,
    pub duration_ms: u64,
    pub file_path: Seq<char>,
    pub downloaded_at: Seq<char>,
}

impl View for LibraryEntry {
    type V = EntryView;

    open spec fn view(&self) -> EntryView {
        EntryView {
            video_id: self.video_id@,
            title: self.title@,
            artist: self.artist@,
            url: self.url@,
            duration_ms: self.duration_ms,
            file_path: self.file_path@,
            downloaded_at: self.downloaded_at@,
        }
    }
}

impl Clone for LibraryEntry {
    fn clone(&self) -> (r: Self)
        ensures
            r@ == self@,
    {
        LibraryEntry {
            video_id: self.video_id.clone(),
            title: self.title.clone(),
            artist: self.artist.clone(),
            url: self.url.clone(),
            duration_ms: self.duration_ms,
            file_path: self.file_path.clone(),
            downloaded_at: self.downloaded_at.clone(),
        }
    }
}

/// What the retrieval of a track reports about it.
#[derive(Debug, PartialEq, Eq)]
pub struct SongMeta {
    pub title: String,
    pub artist: String,
    pub duration_ms: u64,
    pub video_id: String,
}

/// What a [`SongMeta`] is, as plain mathematical values.
pub ghost struct MetaView {
    pub title: Seq<char>,
    pub artist: Seq<char>,
    pub duration_ms: u64,
    pub video_id: Seq<char>,
}

impl View for SongMeta {
    type V = MetaView;

    open spec fn view(&self) -> MetaView {
        MetaView {
            title: self.title@,
            artist: self.artist@,
            duration_ms: self.duration_ms,
            video_id: self.video_id@,
        }
    }
}

impl Clone for SongMeta {
    fn clone(&self) -> (r: Self)
        ensures
            r@ == self@,
    {
        SongMeta {
            title: self.title.clone(),
            artist: self.artist.clone(),
            duration_ms: self.duration_ms,
            video_id: self.video_id.clone(),
        }
    }
}

/// Name of the audio file of the track with identifier `video_id`, relative
/// to the cache directory.
pub open spec fn audio_file_name(video_id: Seq<char>) -> Seq<char> {
    video_id + ".mp3"@
}

/// Writes the name of the audio file of the track with identifier
/// `video_id`, relative to the cache directory.
pub fn audio_file(video_id: &str) -> (name: String)
    ensures
        name@ == audio_file_name(video_id@),
{
    joined(video_id, ".mp3")
}

/// The record of a track retrieved from `url` at the time written `stamp`.
pub open spec fn entry_for(meta: MetaView, url: Seq<char>, stamp: Seq<char>) -> EntryView {
    EntryView {
        video_id: meta.video_id,
        title: meta.title,
        artist: meta.artist,
        url,
        duration_ms: meta.duration_ms,
        file_path: audio_file_name(meta.video_id),
        downloaded_at: stamp,
    }
}

/// The date and time that `chrono` writes for the instant `secs` seconds and
/// `nanos` nanoseconds after the Unix epoch, in UTC and in the form of
/// RFC 3339; `None` where `chrono` has no date for the instant.
pub uninterp spec fn rfc3339_text(secs: i64, nanos: u32) -> Option<Seq<char>>;

/// Calls `chrono::DateTime::from_timestamp` and, on the date it returns,
/// `to_rfc3339`. The result is a function of the two numbers alone, which
/// [`rfc3339_text`] names; `from_timestamp` returns `None` for an instant
/// out of its range or nanoseconds it does not accept, and neither call
/// fails otherwise.
#[verifier::external_body]
fn rfc3339(secs: i64, nanos: u32) -> (text: Option<String>)
    ensures
        text_of(text) == rfc3339_text(secs, nanos),
{
    chrono::DateTime::from_timestamp(secs, nanos).map(|at| at.to_rfc3339())
}

/// The time stamp to store for a written date: the date, or no text where
/// there is none.
pub open spec fn stamp_of(date: Option<Seq<char>>) -> Seq<char> {
    match date {
        Some(text) => text,
        None => Seq::empty(),
    }
}

/// The time stamp to store for a written date.
pub fn stamp_from(date: Option<String>) -> (stamp: String)
    ensures
        stamp@ == stamp_of(text_of(date)),
{
    match date {
        Some(text) => text,
        None => String::new(),
    }
}

impl LibraryEntry {
    /// The record of a track retrieved from `url`, with `downloaded_at` as
    /// its time of retrieval.
    pub fn for_download(meta: &SongMeta, url: &str, downloaded_at: String) -> (entry: LibraryEntry)
        ensures
            entry@ == entry_for(meta@, url@, downloaded_at@),
    {
        LibraryEntry {
            video_id: meta.video_id.clone(),
            title: meta.title.clone(),
            artist: meta.artist.clone(),
            url: url.to_owned(),
            duration_ms: meta.duration_ms,
            file_path: audio_file(meta.video_id.as_str()),
            downloaded_at,
        }
    }

    /// The record of a track retrieved from `url` at the instant `secs`
    /// seconds and `nanos` nanoseconds after the Unix epoch.
    pub fn stamped(meta: &SongMeta, url: &str, secs: i64, nanos: u32) -> (entry: LibraryEntry)
        ensures
            entry@ == entry_for(meta@, url@, stamp_of(rfc3339_text(secs, nanos))),
    {
        LibraryEntry::for_download(meta, url, stamp_from(rfc3339(secs, nanos)))
    }
}

/// The index of retrieved tracks, in the order in which they were first added.
#[derive(Debug)]
pub struct Library {
    entries: Vec<LibraryEntry>,
}

/// The views of a sequence of records, in the same order.
pub open spec fn entry_views(entries: Seq<LibraryEntry>) -> Seq<EntryView> {
    Seq::new(entries.len(), |i: int| entries[i]@)
}

impl View for Library {
    type V = Seq<EntryView>;

    closed spec fn view(&self) -> Seq<EntryView> {
        entry_views(self.entries@)
    }
}

/// The condition "has the content identifier `video_id`".
pub open spec fn has_id(video_id: Seq<char>) -> spec_fn(EntryView) -> bool {
    |e: EntryView| e.video_id == video_id
}

/// The condition "was retrieved from `url`".
pub open spec fn has_url(url: Seq<char>) -> spec_fn(EntryView) -> bool {
    |e: EntryView| e.url == url
}

/// Position at which `entry` is stored: that of the first record with its
/// content identifier, or the end where there is none.
pub open spec fn slot_of(entries: Seq<EntryView>, entry: EntryView) -> int {
    first_index(entries, has_id(entry.video_id))
}

/// The index after `entry` has been stored: it replaces the first record
/// with its content identifier, or joins the end where there is none.
pub open spec fn upserted(entries: Seq<EntryView>, entry: EntryView) -> Seq<EntryView> {
    if slot_of(entries, entry) < entries.len() {
        entries.update(slot_of(entries, entry), entry)
    } else {
        entries.push(entry)
    }
}

/// The first record retrieved from `url`, if there is one.
pub open spec fn lookup(entries: Seq<EntryView>, url: Seq<char>) -> Option<EntryView> {
    if first_index(entries, has_url(url)) < entries.len() {
        Some(entries[first_index(entries, has_url(url))])
    } else {
        None
    }
}

impl Library {
    /// An index without records.
    pub fn new() -> (library: Library)
        ensures
            library@ == Seq::<EntryView>::empty(),
    {
        let library = Library { entries: Vec::new() };
        assert(library@ =~= Seq::<EntryView>::empty());
        library
    }

    /// The index that holds `entries`, in their order.
    pub fn from_entries(entries: Vec<LibraryEntry>) -> (library: Library)
        ensures
            library@ == entry_views(entries@),
    {
        Library { entries }
    }

    /// Stores `entry`: it replaces the first record with the same content
    /// identifier, or is appended where there is none. Returns whether a
    /// record was replaced.
    pub fn add(&mut self, entry: LibraryEntry) -> (replaced: bool)
        ensures
            final(self)@ == upserted(old(self)@, entry@),
            replaced == (slot_of(old(self)@, entry@) < old(self)@.len()),
    {
        let ghost before = self@;
        let mut i: usize = 0;
        while i < self.entries.len()
            invariant
                self@ == before,
                before == old(self)@,
                0 <= i <= self.entries.len(),
                forall|j: int| 0 <= j < i ==> !has_id(entry@.video_id)(#[trigger] before[j]),
            decreases self.entries.len() - i,
        {
            if same_text(self.entries[i].video_id.as_str(), entry.video_id.as_str()) {
                proof {
                    lemma_first_index_is(before, has_id(entry@.video_id), i as int);
                }
                self.entries.set(i, entry);
                assert(self@ =~= before.update(i as int, entry@));
                return true;
            }
            i = i + 1;
        }
        proof {
            lemma_first_index_is(before, has_id(entry@.video_id), i as int);
        }
        self.entries.push(entry);
        assert(self@ =~= before.push(entry@));
        false
    }

    /// The first record that was retrieved from `url`.
    pub fn find_by_url(&self, url: &str) -> (found: Option<&LibraryEntry>)
        ensures
            match found {
                Some(entry) => lookup(self@, url@) == Some(entry@),
                None => lookup(self@, url@) is None,
            },
    {
        let mut i: usize = 0;
        while i < self.entries.len()
            invariant
                0 <= i <= self.entries.len(),
                forall|j: int| 0 <= j < i ==> !has_url(url@)(#[trigger] self@[j]),
            decreases self.entries.len() - i,
        {
            if same_text(self.entries[i].url.as_str(), url) {
                proof {
                    lemma_first_index_is(self@, has_url(url@), i as int);
                }
                return Some(&self.entries[i]);
            }
            i = i + 1;
        }
        proof {
            lemma_first_index_is(self@, has_url(url@), i as int);
        }
        None
    }

    /// The records, in the order in which they were first added.
    pub fn entries(&self) -> (entries: &Vec<LibraryEntry>)
        ensures
            entry_views(entries@) == self@,
    {
        &self.entries
    }

    /// Number of records.
    pub fn len(&self) -> (n: usize)
        ensures
            n == self@.len(),
    {
        self.entries.len()
    }
}

/// Whether two records are alike in what a lookup is for: title, artist,
/// duration and path.
pub open spec fn same_content(a: EntryView, b: EntryView) -> bool {
    &&& a.title == b.title
    &&& a.artist == b.artist
    &&& a.duration_ms == b.duration_ms
    &&& a.file_path == b.file_path
}

/// Position of the first record that was retrieved from the source of
/// `entry`, or the length where there is none.
pub open spec fn first_of_source(entries: Seq<EntryView>, entry: EntryView) -> int {
    first_index(entries, has_url(entry.url))
}

/// Storing a record and then looking it up by its source identifier gives
/// back a record with its title, artist, duration and path.
///
/// Where no record in front of the place of storage was retrieved from the
/// same source, the lookup gives the stored record itself. Where one was,
/// the lookup gives the first such record, so the round trip holds exactly
/// when that record is alike the stored one in content.
pub proof fn lemma_stored_record_is_found(entries: Seq<EntryView>, entry: EntryView)
    requires
        first_of_source(entries, entry) < slot_of(entries, entry) ==> same_content(
            entries[first_of_source(entries, entry)],
            entry,
        ),
    ensures
        lookup(upserted(entries, entry), entry.url) is Some,
        same_content(lookup(upserted(entries, entry), entry.url)->0, entry),
        first_of_source(entries, entry) >= slot_of(entries, entry) ==> lookup(
            upserted(entries, entry),
            entry.url,
        ) == Some(entry),
{
    lemma_first_index(entries, has_id(entry.video_id));
    lemma_first_index(entries, has_url(entry.url));
    let slot = slot_of(entries, entry);
    let first = first_of_source(entries, entry);
    let after = upserted(entries, entry);
    assert(after[slot] == entry);
    if first < slot {
        assert forall|j: int| 0 <= j < first implies !has_url(entry.url)(#[trigger] after[j]) by {
            assert(after[j] == entries[j]);
        }
        assert(after[first] == entries[first]);
        lemma_first_index_is(after, has_url(entry.url), first);
    } else {
        assert forall|j: int| 0 <= j < slot implies !has_url(entry.url)(#[trigger] after[j]) by {
            assert(after[j] == entries[j]);
        }
        lemma_first_index_is(after, has_url(entry.url), slot);
    }
}

/// A record in front of the place of storage that was retrieved from the
/// source of the new record hides it from the lookup: the lookup gives the
/// first such record, which is another record, and the round trip fails
/// where the two differ in content.
pub proof fn lemma_earlier_record_hides(entries: Seq<EntryView>, entry: EntryView)
    requires
        first_of_source(entries, entry) < slot_of(entries, entry),
    ensures
        lookup(upserted(entries, entry), entry.url) == Some(
            entries[first_of_source(entries, entry)],
        ),
        lookup(upserted(entries, entry), entry.url) != Some(entry),
        !same_content(entries[first_of_source(entries, entry)], entry) ==> !same_content(
            lookup(upserted(entries, entry), entry.url)->0,
            entry,
        ),
{
    lemma_first_index(entries, has_id(entry.video_id));
    lemma_first_index(entries, has_url(entry.url));
    let first = first_of_source(entries, entry);
    let after = upserted(entries, entry);
    assert forall|j: int| 0 <= j < first implies !has_url(entry.url)(#[trigger] after[j]) by {
        assert(after[j] == entries[j]);
    }
    assert(after[first] == entries[first]);
    lemma_first_index_is(after, has_url(entry.url), first);
    assert(!has_id(entry.video_id)(entries[first]));
}

/// Storing the same record twice is storing it once.
pub proof fn lemma_upsert_idempotent(entries: Seq<EntryView>, entry: EntryView)
    ensures
        upserted(upserted(entries, entry), entry) == upserted(entries, entry),
{
    lemma_first_index(entries, has_id(entry.video_id));
    let slot = slot_of(entries, entry);
    let once = upserted(entries, entry);
    assert forall|j: int| 0 <= j < slot implies !has_id(entry.video_id)(#[trigger] once[j]) by {
        assert(once[j] == entries[j]);
    }
    assert(once[slot] == entry);
    lemma_first_index_is(once, has_id(entry.video_id), slot);
    assert(upserted(once, entry) =~= once);
}

} // verus!
