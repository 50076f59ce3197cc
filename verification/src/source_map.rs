use crate::bytes::copy_bytes;
use crate::config::Encoding;
use vstd::prelude::*;
use vstd::std_specs::cmp::PartialEqSpec;

verus! {

/// One named text buffer, placed at `offset` in the session-global flat
/// address space.
#[derive(Debug)]
pub struct Source {
    pub name: Vec<u8>,
    pub contents: Vec<u8>,
    pub offset: u32,
}

/// An ordered collection of named text buffers, each assigned a disjoint,
/// consecutive offset range in a single flat address space.
#[derive(Debug)]
pub struct SourceMap {
    pub sources: Vec<Source>,
}

/// Total byte length of a list of (name, contents) entries.
pub open spec fn entries_len_from(entries: Seq<(Vec<u8>, Vec<u8>)>, i: int) -> int
    decreases entries.len() - i,
{
    if i < 0 || i >= entries.len() {
        0
    } else {
        entries[i].1@.len() + entries_len_from(entries, i + 1)
    }
}

/// Total byte length of a list of (name, contents) entries.
pub open spec fn total_len(entries: Seq<(Vec<u8>, Vec<u8>)>) -> int {
    entries_len_from(entries, 0)
}

pub proof fn lemma_entries_len_from_nonneg(entries: Seq<(Vec<u8>, Vec<u8>)>, i: int)
    ensures
        entries_len_from(entries, i) >= 0,
    decreases entries.len() - i,
{
    if 0 <= i < entries.len() {
        lemma_entries_len_from_nonneg(entries, i + 1);
    }
}

/// The first index at or after `i` whose source is named `name`, or the
/// collection's length when there is none.
pub open spec fn first_with_name(s: Seq<Source>, name: Seq<u8>, i: int) -> int
    decreases s.len() - i,
{
    if i < 0 || i >= s.len() {
        s.len() as int
    } else if s[i].name@ == name {
        i
    } else {
        first_with_name(s, name, i + 1)
    }
}

/// True for a UTF-8 continuation byte (one that does not start a character).
pub open spec fn is_continuation_byte(b: u8) -> bool {
    b & 0xC0 == 0x80
}

/// How many column units of the given encoding the byte `b` accounts for.
///
/// Under byte columns every byte counts once. Under UTF-16 columns only the
/// leading byte of a character counts: two units for a four-byte character
/// (a surrogate pair) and one unit otherwise.
pub open spec fn column_units(b: u8, encoding: Encoding) -> int {
    match encoding {
        Encoding::Utf8 => 1,
        Encoding::Utf16 => if is_continuation_byte(b) {
            0
        } else if b >= 0xF0 {
            2
        } else {
            1
        },
    }
}

/// The byte index of the start of the line `lines` lines after index `i`,
/// or the end of the text when there are fewer lines.
pub open spec fn line_start_from(s: Seq<u8>, i: int, lines: int) -> int
    decreases s.len() - i,
{
    if lines <= 0 || i < 0 || i >= s.len() {
        i
    } else if s[i] == 10u8 {
        line_start_from(s, i + 1, lines - 1)
    } else {
        line_start_from(s, i + 1, lines)
    }
}

pub proof fn lemma_line_start_from_bounds(s: Seq<u8>, i: int, lines: int)
    requires
        0 <= i <= s.len(),
    ensures
        i <= line_start_from(s, i, lines) <= s.len(),
    decreases s.len() - i,
{
    if lines > 0 && i < s.len() {
        if s[i] == 10u8 {
            lemma_line_start_from_bounds(s, i + 1, lines - 1);
        } else {
            lemma_line_start_from_bounds(s, i + 1, lines);
        }
    }
}

/// The byte index reached from `i` after consuming `columns` column units of
/// the given encoding, stopping at the end of the text or at a line break.
///
/// Once the units are exhausted, the continuation bytes of the character
/// just consumed (which account for no unit of their own) are still crossed,
/// so the result lands on a character boundary.
pub open spec fn advance_columns(s: Seq<u8>, i: int, columns: int, encoding: Encoding) -> int
    decreases s.len() - i,
{
    if i < 0 || i >= s.len() || s[i] == 10u8 {
        i
    } else if columns <= 0 && column_units(s[i], encoding) > 0 {
        i
    } else {
        advance_columns(s, i + 1, columns - column_units(s[i], encoding), encoding)
    }
}

pub proof fn lemma_advance_columns_bounds(s: Seq<u8>, i: int, columns: int, encoding: Encoding)
    requires
        0 <= i <= s.len(),
    ensures
        i <= advance_columns(s, i, columns, encoding) <= s.len(),
    decreases s.len() - i,
{
    if i < s.len() && s[i] != 10u8 && !(columns <= 0 && column_units(s[i], encoding) > 0) {
        lemma_advance_columns_bounds(s, i + 1, columns - column_units(s[i], encoding), encoding);
    }
}

/// Once the unit budget is spent, how far past it went does not matter: any
/// two non-positive budgets advance to the same boundary.
pub proof fn lemma_advance_columns_exhausted(s: Seq<u8>, i: int, a: int, b: int, encoding: Encoding)
    requires
        a <= 0,
        b <= 0,
    ensures
        advance_columns(s, i, a, encoding) == advance_columns(s, i, b, encoding),
    decreases s.len() - i,
{
    if !(i < 0 || i >= s.len() || s[i] == 10u8) && column_units(s[i], encoding) == 0 {
        lemma_advance_columns_exhausted(s, i + 1, a, b, encoding);
    }
}

/// The byte offset within `s` of position (`line`, `column`), with columns
/// counted in units of `encoding`.
///
/// A position past the end of the text resolves to the end of the text, so
/// the result never exceeds `s.len()`.
pub open spec fn offset_in_contents(s: Seq<u8>, line: int, column: int, encoding: Encoding) -> int {
    advance_columns(s, line_start_from(s, 0, line), column, encoding)
}

pub proof fn lemma_offset_in_contents_bounds(s: Seq<u8>, line: int, column: int, encoding: Encoding)
    ensures
        0 <= offset_in_contents(s, line, column, encoding) <= s.len(),
{
    lemma_line_start_from_bounds(s, 0, line);
    lemma_advance_columns_bounds(s, line_start_from(s, 0, line), column, encoding);
}

/// Converts a (line, column) position, with columns expressed in units of
/// `encoding`, to a byte offset within `contents`.
///
/// Out-of-range lines and columns are tolerated: the result is clamped so
/// that it never points past the end of `contents`.
pub fn contents_offset(contents: &Vec<u8>, line: u32, column: u32, encoding: Encoding) -> (r: usize)
    ensures
        r as int == offset_in_contents(contents@, line as int, column as int, encoding),
        r <= contents.len(),
{
    let mut i: usize = 0;
    let mut lines_left: u32 = line;
    while i < contents.len() && lines_left > 0
        invariant
            i <= contents.len(),
            line_start_from(contents@, 0, line as int) == line_start_from(
                contents@,
                i as int,
                lines_left as int,
            ),
        decreases contents.len() - i,
    {
        if contents[i] == 10u8 {
            lines_left = lines_left - 1;
        }
        i = i + 1;
    }
    proof {
        assert(line_start_from(contents@, i as int, lines_left as int) == i as int);
    }
    let mut columns_left: u32 = column;
    while i < contents.len() && contents[i] != 10u8 && (columns_left > 0 || (encoding
        == Encoding::Utf16 && contents[i] & 0xC0 == 0x80))
        invariant
            i <= contents.len(),
            offset_in_contents(contents@, line as int, column as int, encoding) == advance_columns(
                contents@,
                i as int,
                columns_left as int,
                encoding,
            ),
        decreases contents.len() - i,
    {
        let b = contents[i];
        let units: u32 = match encoding {
            Encoding::Utf8 => 1,
            Encoding::Utf16 => if b & 0xC0 == 0x80 {
                0
            } else if b >= 0xF0 {
                2
            } else {
                1
            },
        };
        proof {
            assert(units as int == column_units(b, encoding));
            assert(advance_columns(contents@, i as int, columns_left as int, encoding)
                == advance_columns(contents@, i + 1, columns_left - units, encoding));
            if columns_left <= units {
                lemma_advance_columns_exhausted(
                    contents@,
                    i + 1,
                    columns_left - units,
                    0,
                    encoding,
                );
            }
        }
        if units >= columns_left {
            columns_left = 0;
        } else {
            columns_left = columns_left - units;
        }
        i = i + 1;
    }
    proof {
        assert(advance_columns(contents@, i as int, columns_left as int, encoding) == i as int);
    }
    i
}

impl SourceMap {
    /// Well-formedness: sources occupy disjoint, consecutive ranges starting
    /// at offset zero, and every range end fits the offset type.
    pub open spec fn wf(self) -> bool {
        &&& (self.sources@.len() > 0 ==> self.sources@[0].offset == 0)
        &&& (forall|j: int|
            1 <= j < self.sources@.len() ==> (#[trigger] self.sources@[j].offset) as int
                == self.sources@[j - 1].offset + self.sources@[j - 1].contents@.len())
        &&& (forall|j: int|
            0 <= j < self.sources@.len() ==> (#[trigger] self.sources@[j].offset)
                + self.sources@[j].contents@.len() <= u32::MAX)
    }

    /// One past the last assigned offset: the total length of all sources.
    pub open spec fn end_offset(self) -> int {
        if self.sources@.len() == 0 {
            0
        } else {
            self.sources@.last().offset + self.sources@.last().contents@.len()
        }
    }

    /// The index of the first source named `name`, or the number of sources
    /// when no source has that name.
    pub open spec fn index_of_name(self, name: Seq<u8>) -> int {
        first_with_name(self.sources@, name, 0)
    }

    /// Whether some source is named `name`.
    pub open spec fn has_name(self, name: Seq<u8>) -> bool {
        self.index_of_name(name) < self.sources@.len()
    }

    /// Builds a source map from ordered (name, contents) entries, assigning
    /// each entry the offset range right after its predecessor's.
    #[verifier::loop_isolation(false)]
    pub fn new(entries: &Vec<(Vec<u8>, Vec<u8>)>) -> (r: SourceMap)
        requires
            total_len(entries@) <= u32::MAX,
        ensures
            r.wf(),
            r.sources@.len() == entries@.len(),
            forall|j: int|
                0 <= j < entries@.len() ==> r.sources@[j].name@ == entries@[j].0@
                    && r.sources@[j].contents@ == entries@[j].1@,
    {
        let mut sources: Vec<Source> = Vec::new();
        let mut offset: u32 = 0;
        let mut i: usize = 0;
        while i < entries.len()
            invariant
                i <= entries.len(),
                sources@.len() == i,
                total_len(entries@) <= u32::MAX,
                offset as int + entries_len_from(entries@, i as int) == total_len(entries@),
                forall|j: int|
                    0 <= j < i ==> sources@[j].name@ == entries@[j].0@ && sources@[j].contents@
                        == entries@[j].1@,
                sources@.len() > 0 ==> sources@[0].offset == 0,
                forall|j: int|
                    1 <= j < i ==> (#[trigger] sources@[j].offset) as int == sources@[j - 1].offset
                        + sources@[j - 1].contents@.len(),
                forall|j: int|
                    0 <= j < i ==> (#[trigger] sources@[j].offset) + sources@[j].contents@.len()
                        <= u32::MAX,
                i > 0 ==> offset as int == sources@[i - 1].offset + sources@[i
                    - 1].contents@.len(),
                i == 0 ==> offset == 0,
            decreases entries.len() - i,
        {
            proof {
                lemma_entries_len_from_nonneg(entries@, i + 1);
            }
            let name = copy_bytes(&entries[i].0);
            let contents = copy_bytes(&entries[i].1);
            let len: usize = contents.len();
            sources.push(Source { name, contents, offset });
            offset = offset + (len as u32);
            i = i + 1;
        }
        proof {
            lemma_entries_len_from_nonneg(entries@, i as int);
        }
        SourceMap { sources }
    }

    /// Looks up a source by name; `None` when no source has that name.
    pub fn find_by_name(&self, name: &Vec<u8>) -> (r: Option<usize>)
        ensures
            match r {
                Some(idx) => idx as int == self.index_of_name(name@) && idx < self.sources@.len()
                    && self.sources@[idx as int].name@ == name@,
                None => !self.has_name(name@),
            },
    {
        let mut i: usize = 0;
        while i < self.sources.len()
            invariant
                i <= self.sources.len(),
                self.index_of_name(name@) == first_with_name(self.sources@, name@, i as int),
            decreases self.sources.len() - i,
        {
            let candidate = &self.sources[i];
            if candidate.name == *name {
                proof {
                    assert(candidate.name@ =~= name@);
                    assert(first_with_name(self.sources@, name@, i as int) == i as int);
                }
                return Some(i);
            }
            proof {
                if candidate.name@ == name@ {
                    assert(candidate.name.eq_spec(name));
                }
                assert(first_with_name(self.sources@, name@, i as int) == first_with_name(
                    self.sources@,
                    name@,
                    i + 1,
                ));
            }
            i = i + 1;
        }
        proof {
            assert(first_with_name(self.sources@, name@, i as int) == self.sources@.len() as int);
        }
        None
    }

    /// Extracts the (name, contents) entries of this map, preserving name,
    /// text and order.
    pub fn to_entries(&self) -> (r: Vec<(Vec<u8>, Vec<u8>)>)
        requires
            self.wf(),
        ensures
            r@.len() == self.sources@.len(),
            forall|j: int|
                0 <= j < r@.len() ==> r@[j].0@ == self.sources@[j].name@ && r@[j].1@
                    == self.sources@[j].contents@,
            total_len(r@) <= u32::MAX,
    {
        let mut r: Vec<(Vec<u8>, Vec<u8>)> = Vec::new();
        let mut i: usize = 0;
        while i < self.sources.len()
            invariant
                i <= self.sources.len(),
                r@.len() == i,
                forall|j: int|
                    0 <= j < i ==> r@[j].0@ == self.sources@[j].name@ && r@[j].1@
                        == self.sources@[j].contents@,
            decreases self.sources.len() - i,
        {
            let source = &self.sources[i];
            let name = copy_bytes(&source.name);
            let contents = copy_bytes(&source.contents);
            r.push((name, contents));
            i = i + 1;
        }
        proof {
            self.lemma_entries_total_len(r@, 0);
            if self.sources@.len() > 0 {
                lemma_entries_len_from_nonneg(r@, 0);
            }
        }
        r
    }

    /// For entries whose contents mirror this map's sources from index `i`
    /// on, the remaining total length equals the distance from source `i`'s
    /// offset to the map's end.
    proof fn lemma_entries_total_len(self, entries: Seq<(Vec<u8>, Vec<u8>)>, i: int)
        requires
            self.wf(),
            entries.len() == self.sources@.len(),
            forall|j: int|
                0 <= j < entries.len() ==> entries[j].1@.len() == self.sources@[j].contents@.len(),
            0 <= i <= entries.len(),
        ensures
            entries_len_from(entries, i) == self.end_offset() - (if i < entries.len() {
                self.sources@[i].offset as int
            } else {
                self.end_offset()
            }),
        decreases entries.len() - i,
    {
        if i < entries.len() {
            self.lemma_entries_total_len(entries, i + 1);
        }
    }
}

} // verus!
