//! URL sources from a text file: one `host|url` pair per row.
//!
//! Rows are separated by a line feed. A row counts when it holds exactly one
//! `|` and does not begin with `#`; every other row is passed over.

use crate::errors::OperationError;
use crate::source::{UrlSource, UrlSourceView};
use crate::text::{find_char, find_char_from, slice_to_string, to_chars};
use vstd::prelude::*;
use vstd::string::StringExecFns;

verus! {

/// The character that ends a row.
pub const ROW_END: char = '\n';

/// The character between host and URL.
pub const FIELD_SEPARATOR: char = '|';

/// The character that opens a comment row.
pub const COMMENT_MARK: char = '#';

/// The rows of `content` from position `start` on.
pub open spec fn rows_from(content: Seq<char>, start: int) -> Seq<Seq<char>>
    decreases content.len() - start,
{
    let end = find_char(content, ROW_END, start);
    if start < 0 || end < start || end >= content.len() {
        seq![content.subrange(start, content.len() as int)]
    } else {
        seq![content.subrange(start, end)] + rows_from(content, end + 1)
    }
}

/// The rows of `content`: the pieces between line feeds. An empty content
/// has one empty row.
pub open spec fn rows(content: Seq<char>) -> Seq<Seq<char>> {
    rows_from(content, 0)
}

/// The URL source that a row holds, if it holds one.
pub open spec fn row_source(row: Seq<char>) -> Option<UrlSourceView> {
    let bar = find_char(row, FIELD_SEPARATOR, 0);
    if bar < row.len() && find_char(row, FIELD_SEPARATOR, bar + 1) >= row.len() && !(row.len() > 0
        && row[0] == COMMENT_MARK) {
        Some(
            UrlSourceView {
                zabbix_host: row.subrange(0, bar),
                url: row.subrange(bar + 1, row.len() as int),
            },
        )
    } else {
        None
    }
}

/// The URL sources that `content` holds, in the order of their rows.
pub open spec fn content_sources(content: Seq<char>) -> Seq<UrlSourceView> {
    rows(content).filter_map(|row: Seq<char>| row_source(row))
}

/// Splits `content` into its rows.
pub fn split_rows(content: &str) -> (out: Vec<String>)
    ensures
        out.deep_view() == rows(content@),
{
    let chars = to_chars(content);
    let n = chars.len();
    let mut out: Vec<String> = Vec::new();
    let mut start: usize = 0;
    loop
        invariant_except_break
            start <= n,
            n == chars@.len(),
            chars@ == content@,
            out.deep_view() + rows_from(content@, start as int) == rows(content@),
        ensures
            out.deep_view() == rows(content@),
        decreases n - start,
    {
        let ghost before = out.deep_view();
        let end = find_char_from(&chars, ROW_END, start);
        let row = slice_to_string(content, start, end);
        out.push(row);
        assert(out.deep_view() =~= before.push(content@.subrange(start as int, end as int)));
        if end >= n {
            assert(before.push(content@.subrange(start as int, end as int)) =~= before + rows_from(
                content@,
                start as int,
            ));
            break;
        }
        assert(before.push(content@.subrange(start as int, end as int)) + rows_from(
            content@,
            end + 1,
        ) =~= before + rows_from(content@, start as int));
        start = end + 1;
    }
    out
}

/// Reads one row: the host before the `|` and the URL behind it.
pub fn parse_row(row: &str) -> (out: Option<UrlSource>)
    ensures
        out.deep_view() == row_source(row@),
{
    let chars = to_chars(row);
    let n = chars.len();
    let bar = find_char_from(&chars, FIELD_SEPARATOR, 0);
    if bar >= n {
        return None;
    }
    if find_char_from(&chars, FIELD_SEPARATOR, bar + 1) < n {
        return None;
    }
    if chars[0] == COMMENT_MARK {
        return None;
    }
    Some(
        UrlSource {
            zabbix_host: slice_to_string(row, 0, bar),
            url: slice_to_string(row, bar + 1, n),
        },
    )
}

/// Reads the URL sources out of the text of a source file.
pub fn parse_url_sources(content: &str) -> (out: Vec<UrlSource>)
    ensures
        out.deep_view() == content_sources(content@),
{
    let all = split_rows(content);
    let ghost f = |row: Seq<char>| row_source(row);
    let mut out: Vec<UrlSource> = Vec::new();
    let mut i: usize = 0;
    while i < all.len()
        invariant
            i <= all.len(),
            all.deep_view() == rows(content@),
            f == |row: Seq<char>| row_source(row),
            out.deep_view() == all.deep_view().take(i as int).filter_map(f),
        decreases all.len() - i,
    {
        let ghost before = out.deep_view();
        proof {
            all.deep_view().lemma_filter_map_take_succ(f, i as int);
        }
        match parse_row(all[i].as_str()) {
            Some(source) => {
                out.push(source);
                assert(out.deep_view() =~= before + seq![source.deep_view()]);
            },
            None => {},
        }
        i = i + 1;
    }
    assert(all.deep_view().take(all.len() as int) =~= all.deep_view());
    out
}

/// Lists URL sources from a text file.
pub struct FileUrlSourceProvider {
    filename: String,
}

impl FileUrlSourceProvider {
    /// The name of the file, as characters.
    pub closed spec fn name(&self) -> Seq<char> {
        self.filename@
    }

    /// A provider for the file called `filename`.
    pub fn new(filename: &str) -> (provider: FileUrlSourceProvider)
        ensures
            provider.name() == filename@,
    {
        FileUrlSourceProvider { filename: String::from_str(filename) }
    }

    /// The name of the file to read.
    pub fn filename(&self) -> (name: &String)
        ensures
            name@ == self.name(),
    {
        &self.filename
    }

    /// The URL sources, given what reading the file gave: its text, or the
    /// failure. A failure is handed on; a text is parsed.
    pub fn url_sources_from(&self, read: Result<String, std::io::Error>) -> (out: Result<
        Vec<UrlSource>,
        OperationError,
    >)
        ensures
            match (read, out) {
                (Ok(content), Ok(sources)) => sources.deep_view() == content_sources(content@),
                (Err(cause), Err(OperationError::IOError(handed))) => handed == cause,
                _ => false,
            },
    {
        match read {
            Ok(content) => Ok(parse_url_sources(content.as_str())),
            Err(cause) => Err(OperationError::IOError(cause)),
        }
    }
}

} // verus!
