//! Reading what the retrieval tool prints, line by line.

use vstd::prelude::*;
use vstd::string::*;
use crate::display::{decimal, decimal_text};
use crate::library::{MetaView, SongMeta};
use crate::search::{first_index, lemma_first_index, lemma_first_index_is};
use crate::song::text_of;
use crate::text::characters;

verus! {

/// The condition "is a tab".
pub open spec fn is_tab() -> spec_fn(char) -> bool {
    |c: char| c == '\t'
}

/// One line of a search as printed: a title, a source identifier and,
/// where the line has a third field, that field as printed.
#[derive(Debug, PartialEq, Eq)]
pub struct SearchLine {
    pub title: String,
    pub url: String,
    pub duration: Option<String>,
}

/// What a [`SearchLine`] is, as plain mathematical values.
pub ghost struct SearchLineView {
    pub title: Seq<char>,
    pub url: Seq<char>,
    pub duration: Option<Seq<char>>,
}

impl View for SearchLine {
    type V = SearchLineView;

    open spec fn view(&self) -> SearchLineView {
        SearchLineView { title: self.title@, url: self.url@, duration: text_of(self.duration) }
    }
}

/// The view of a search line, if there is one.
pub open spec fn line_view(line: Option<SearchLine>) -> Option<SearchLineView> {
    match line {
        Some(l) => Some(l@),
        None => None,
    }
}

/// The fields of a line of a search. Fields are parted by tabs. The title
/// is what stands in front of the first tab and the source identifier what
/// follows it, up to the second tab; behind the second tab stands the
/// duration, tabs and all. A line without a tab has no fields.
pub open spec fn search_fields(line: Seq<char>) -> Option<SearchLineView> {
    let first = first_index(line, is_tab());
    if first >= line.len() {
        None
    } else {
        let rest = line.skip(first + 1);
        let second = first_index(rest, is_tab());
        Some(
            SearchLineView {
                title: line.take(first),
                url: rest.take(second),
                duration: if second < rest.len() {
                    Some(rest.skip(second + 1))
                } else {
                    None
                },
            },
        )
    }
}

fn find_tab(chars: &Vec<char>, from: usize) -> (at: usize)
    requires
        from <= chars@.len(),
    ensures
        from <= at <= chars@.len(),
        at - from == first_index(chars@.skip(from as int), is_tab()),
{
    let ghost tail = chars@.skip(from as int);
    let mut i: usize = from;
    while i < chars.len()
        invariant
            from <= i <= chars@.len(),
            tail == chars@.skip(from as int),
            forall|j: int| 0 <= j < i - from ==> !is_tab()(#[trigger] tail[j]),
        decreases chars@.len() - i,
    {
        if chars[i] == '\t' {
            proof {
                assert(tail[i - from] == chars@[i as int]);
                lemma_first_index_is(tail, is_tab(), i - from);
            }
            return i;
        }
        i = i + 1;
    }
    proof {
        lemma_first_index_is(tail, is_tab(), i - from);
    }
    i
}

/// Reads one line of a search.
pub fn parse_search_line(line: &str) -> (fields: Option<SearchLine>)
    ensures
        line_view(fields) == search_fields(line@),
{
    let chars = characters(line);
    let n = chars.len();
    assert(chars@.skip(0) =~= chars@);
    let first = find_tab(&chars, 0);
    if first >= n {
        return None;
    }
    let second = find_tab(&chars, first + 1);
    let ghost rest = line@.skip(first + 1);
    let title = line.substring_char(0, first).to_owned();
    let url = line.substring_char(first + 1, second).to_owned();
    assert(line@.subrange(0, first as int) =~= line@.take(first as int));
    assert(line@.subrange(first + 1, second as int) =~= rest.take(second - (first + 1)));
    let duration = if second < n {
        let text = line.substring_char(second + 1, n).to_owned();
        assert(line@.subrange(second + 1, n as int) =~= rest.skip(second - (first + 1) + 1));
        Some(text)
    } else {
        None
    };
    Some(SearchLine { title, url, duration })
}

/// The line at `index`, or `fallback` where there are not that many lines.
pub open spec fn line_or(lines: Seq<String>, index: int, fallback: Seq<char>) -> Seq<char> {
    if 0 <= index < lines.len() {
        lines[index]@
    } else {
        fallback
    }
}

/// What the lines of a metadata report say about a track: the title on the
/// first line, the artist on the second, the content identifier on the
/// fourth. A missing title or artist reads "Unknown", a missing identifier
/// "unknown". The duration stands on the third line and is handed in as a
/// number.
pub open spec fn metadata(lines: Seq<String>, duration_ms: u64) -> MetaView {
    MetaView {
        title: line_or(lines, 0, "Unknown"@),
        artist: line_or(lines, 1, "Unknown"@),
        duration_ms,
        video_id: line_or(lines, 3, "unknown"@),
    }
}

fn line_at(lines: &Vec<String>, index: usize, fallback: &str) -> (text: String)
    ensures
        text@ == line_or(lines@, index as int, fallback@),
{
    if index < lines.len() {
        lines[index].clone()
    } else {
        fallback.to_owned()
    }
}

impl SongMeta {
    /// Reads the lines of a metadata report. `duration_ms` is the duration
    /// that the third line gives, in milliseconds.
    pub fn from_lines(lines: &Vec<String>, duration_ms: u64) -> (meta: SongMeta)
        ensures
            meta@ == metadata(lines@, duration_ms),
    {
        SongMeta {
            title: line_at(lines, 0, "Unknown"),
            artist: line_at(lines, 1, "Unknown"),
            duration_ms,
            video_id: line_at(lines, 3, "unknown"),
        }
    }
}

/// The words that ask the retrieval tool for the first `count` results of
/// a search for `query`.
pub open spec fn search_request(count: u32, query: Seq<char>) -> Seq<char> {
    "ytsearch"@ + decimal_text(count as nat) + ":"@ + query
}

/// Writes the request for the first `count` results of a search for `query`.
pub fn search_query(count: u32, query: &str) -> (request: String)
    ensures
        request@ == search_request(count, query@),
{
    let mut request = "ytsearch".to_owned();
    request.append(decimal(count as u64).as_str());
    request.append(":");
    request.append(query);
    assert(request@ =~= search_request(count, query@));
    request
}

/// A line with a tab has fields, and the title holds no tab.
pub proof fn lemma_search_fields(line: Seq<char>)
    ensures
        search_fields(line) is Some <==> exists|i: int| 0 <= i < line.len() && line[i] == '\t',
        search_fields(line) matches Some(fields) ==> forall|i: int|
            0 <= i < fields.title.len() ==> fields.title[i] != '\t',
        search_fields(line) matches Some(fields) ==> forall|i: int|
            0 <= i < fields.url.len() ==> fields.url[i] != '\t',
{
    lemma_first_index(line, is_tab());
    let first = first_index(line, is_tab());
    if first < line.len() {
        assert(is_tab()(line[first]));
        let rest = line.skip(first + 1);
        lemma_first_index(rest, is_tab());
        let fields = search_fields(line)->0;
        assert forall|i: int| 0 <= i < fields.title.len() implies fields.title[i] != '\t' by {
            assert(!is_tab()(line[i]));
        }
        assert forall|i: int| 0 <= i < fields.url.len() implies fields.url[i] != '\t' by {
            assert(!is_tab()(rest[i]));
        }
    } else {
        assert forall|i: int| 0 <= i < line.len() implies line[i] != '\t' by {
            assert(!is_tab()(line[i]));
        }
    }
}

} // verus!
