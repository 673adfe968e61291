//! The source text a parser works on, and the locations of its characters.
//!
//! A parser position is an index into the characters of the source. Each
//! position has a [`SourceLocation`]: its byte offset in the UTF-8 encoding of
//! the source, its 1-based line, and its 1-based column counted in bytes since
//! the last line feed.
use vstd::prelude::*;

use crate::config::Config;

verus! {

/// A location in the source text.
#[derive(Debug, Clone, Copy, PartialEq, Eq, Structural)]
pub struct SourceLocation {
    /// Byte offset from the start of the source.
    pub offset: usize,
    /// 1-based line number.
    pub line: usize,
    /// 1-based column, counted in bytes since the last line feed.
    pub column: usize,
}

/// A region of the source text, from `start` up to `end`.
#[derive(Debug, Clone, Copy, PartialEq, Eq, Structural)]
pub struct Span {
    /// Where the region starts.
    pub start: SourceLocation,
    /// Where the region ends (exclusive).
    pub end: SourceLocation,
}

impl Span {
    /// Creates a span from its two ends.
    pub fn new(start: SourceLocation, end: SourceLocation) -> (r: Span)
        ensures
            r.start == start,
            r.end == end,
    {
        Span { start, end }
    }

    /// The span that starts where `first` starts and ends where `last` ends.
    pub fn from_start_and_end(first: &Span, last: &Span) -> (r: Span)
        ensures
            r == span_join(*first, *last),
    {
        Span { start: first.start, end: last.end }
    }

    /// Where the span starts.
    pub fn start(&self) -> (r: SourceLocation)
        ensures
            r == self.start,
    {
        self.start
    }

    /// Where the span ends.
    pub fn end(&self) -> (r: SourceLocation)
        ensures
            r == self.end,
    {
        self.end
    }
}

/// The span from the start of `first` to the end of `last`.
pub open spec fn span_join(first: Span, last: Span) -> Span {
    Span { start: first.start, end: last.end }
}

/// Number of bytes in the UTF-8 encoding of `c`.
pub open spec fn utf8_width(c: char) -> nat {
    if (c as u32) < 0x80 {
        1
    } else if (c as u32) < 0x800 {
        2
    } else if (c as u32) < 0x10000 {
        3
    } else {
        4
    }
}

/// Number of bytes in the UTF-8 encoding of `s`.
pub open spec fn byte_len(s: Seq<char>) -> nat
    decreases s.len(),
{
    if s.len() == 0 {
        0
    } else {
        byte_len(s.drop_last()) + utf8_width(s.last())
    }
}

/// Number of line feeds in `s`.
pub open spec fn newline_count(s: Seq<char>) -> nat
    decreases s.len(),
{
    if s.len() == 0 {
        0
    } else {
        newline_count(s.drop_last()) + if s.last() == '\n' {
            1nat
        } else {
            0nat
        }
    }
}

/// The 1-based byte column just after `s`: one more than the number of bytes
/// since the last line feed of `s`.
pub open spec fn column_after(s: Seq<char>) -> nat
    decreases s.len(),
{
    if s.len() == 0 {
        1
    } else if s.last() == '\n' {
        1
    } else {
        column_after(s.drop_last()) + utf8_width(s.last())
    }
}

/// The location of position `i` in the characters `s`.
pub open spec fn location_of(s: Seq<char>, i: int) -> SourceLocation {
    let p = s.take(i);
    SourceLocation {
        offset: byte_len(p) as usize,
        line: (newline_count(p) + 1) as usize,
        column: column_after(p) as usize,
    }
}

/// The span of the characters `s` from position `i` to position `j`.
pub open spec fn span_of(s: Seq<char>, i: int, j: int) -> Span {
    Span { start: location_of(s, i), end: location_of(s, j) }
}

/// Source text that a parser can work on: its characters, the location of
/// every position, and the parser configuration.
pub struct Input {
    src: String,
    chars: Vec<char>,
    locs: Vec<SourceLocation>,
    config: Config,
}

/// The byte length of a text is bounded by what a `str` can hold.
pub open spec fn fits_source(s: Seq<char>) -> bool {
    byte_len(s) < usize::MAX
}

impl Input {
    /// The characters of the source.
    pub closed spec fn text(&self) -> Seq<char> {
        self.chars@
    }

    /// The parser configuration that comes with the source.
    pub closed spec fn cfg(&self) -> Config {
        self.config
    }

    /// The location table agrees with the characters.
    pub closed spec fn wf(&self) -> bool {
        &&& fits_source(self.chars@)
        &&& self.src@ == self.chars@
        &&& self.locs@.len() == self.chars@.len() + 1
        &&& forall|i: int|
            0 <= i <= self.chars@.len() ==> #[trigger] self.locs@[i] == location_of(self.chars@, i)
    }

    /// The text of a well-formed input fits in a `str`.
    pub proof fn lemma_fits(&self)
        requires
            self.wf(),
        ensures
            fits_source(self.text()),
    {
    }

    /// A well-formed input has fewer characters than `usize::MAX`.
    pub proof fn lemma_len(&self)
        requires
            self.wf(),
        ensures
            self.text().len() < usize::MAX,
    {
        lemma_byte_len_at_least_len(self.chars@);
    }

    /// Number of characters in the source.
    pub fn len(&self) -> (r: usize)
        ensures
            r == self.text().len(),
    {
        self.chars.len()
    }

    /// The character at position `i`.
    pub fn char_at(&self, i: usize) -> (c: char)
        requires
            i < self.text().len(),
        ensures
            c == self.text()[i as int],
    {
        self.chars[i]
    }

    /// The configuration that comes with the source.
    pub fn config(&self) -> (c: Config)
        ensures
            c == self.cfg(),
    {
        self.config
    }

    /// The location of position `i`.
    pub fn location(&self, i: usize) -> (l: SourceLocation)
        requires
            self.wf(),
            i <= self.text().len(),
        ensures
            l == location_of(self.text(), i as int),
    {
        self.locs[i]
    }

    /// The characters from position `i` up to position `j`, as a string.
    pub fn substring(&self, i: usize, j: usize) -> (r: String)
        requires
            self.wf(),
            i <= j <= self.text().len(),
        ensures
            r@ == self.text().subrange(i as int, j as int),
    {
        String::from_str(self.src.as_str().substring_char(i, j))
    }

    /// The rest of the source from position `i`, as a string.
    pub fn rest(&self, i: usize) -> (r: String)
        requires
            self.wf(),
            i <= self.text().len(),
        ensures
            r@ == self.text().subrange(i as int, self.text().len() as int),
    {
        self.substring(i, self.chars.len())
    }

    /// The same source with the configuration `config`.
    pub fn with_config(&self, config: Config) -> (r: Input)
        requires
            self.wf(),
        ensures
            r.wf(),
            r.text() == self.text(),
            r.cfg() == config,
    {
        let chars = self.chars.clone();
        let locs = self.locs.clone();
        proof {
            assert(chars@ =~= self.chars@);
            assert(locs@ =~= self.locs@);
        }
        Input { src: self.src.clone(), chars, locs, config }
    }

    /// The span from position `i` to position `j`.
    pub fn span(&self, i: usize, j: usize) -> (s: Span)
        requires
            self.wf(),
            i <= self.text().len(),
            j <= self.text().len(),
        ensures
            s == span_of(self.text(), i as int, j as int),
    {
        Span { start: self.locs[i], end: self.locs[j] }
    }
}

/// The location of position `pos` of the input: its byte offset, line and
/// column.
pub fn source_location_from(inp: &Input, pos: usize) -> (l: SourceLocation)
    requires
        inp.wf(),
        pos <= inp.text().len(),
    ensures
        l == location_of(inp.text(), pos as int),
{
    inp.location(pos)
}

/// The span of the input from position `start` to position `end`.
pub fn span_from(inp: &Input, start: usize, end: usize) -> (s: Span)
    requires
        inp.wf(),
        start <= inp.text().len(),
        end <= inp.text().len(),
    ensures
        s == span_of(inp.text(), start as int, end as int),
{
    inp.span(start, end)
}


/// Number of bytes in the UTF-8 encoding of `c`.
pub fn char_utf8_width(c: char) -> (w: usize)
    ensures
        w == utf8_width(c),
{
    let u = c as u32;
    if u < 0x80 {
        1
    } else if u < 0x800 {
        2
    } else if u < 0x10000 {
        3
    } else {
        4
    }
}

/// A prefix of a text is no longer, in bytes, than the text, and its line and
/// column are bounded by its byte length.
pub proof fn lemma_prefix_bounds(s: Seq<char>, i: int)
    requires
        0 <= i <= s.len(),
    ensures
        byte_len(s.take(i)) <= byte_len(s),
        newline_count(s.take(i)) <= byte_len(s.take(i)),
        column_after(s.take(i)) <= byte_len(s.take(i)) + 1,
    decreases s.len(),
{
    lemma_counts_bounded(s.take(i));
    if i < s.len() {
        lemma_prefix_bounds(s.drop_last(), i);
        assert(s.drop_last().take(i) =~= s.take(i));
    } else {
        assert(s.take(i) =~= s);
    }
}

/// In a text whose size fits, a later position has a byte offset no
/// smaller than an earlier one.
pub proof fn lemma_offset_monotone(s: Seq<char>, i: int, j: int)
    requires
        0 <= i <= j <= s.len(),
        fits_source(s),
    ensures
        location_of(s, i).offset <= location_of(s, j).offset,
{
    lemma_prefix_bounds(s.take(j), i);
    lemma_prefix_bounds(s, j);
    assert(s.take(j).take(i) =~= s.take(i));
}

/// Every character takes at least one byte.
pub proof fn lemma_byte_len_at_least_len(s: Seq<char>)
    ensures
        s.len() <= byte_len(s),
    decreases s.len(),
{
    if s.len() > 0 {
        lemma_byte_len_at_least_len(s.drop_last());
    }
}

proof fn lemma_counts_bounded(s: Seq<char>)
    ensures
        newline_count(s) <= byte_len(s),
        column_after(s) <= byte_len(s) + 1,
    decreases s.len(),
{
    if s.len() > 0 {
        lemma_counts_bounded(s.drop_last());
    }
}

/// Unfolds the location of the position after `i`.
proof fn lemma_location_step(s: Seq<char>, i: int)
    requires
        0 <= i < s.len(),
    ensures
        s.take(i + 1).drop_last() =~= s.take(i),
        s.take(i + 1).last() == s[i],
{
}

impl Input {
    /// Builds the input for the source text `src` with the configuration
    /// `config`.
    pub fn new(src: &str, config: Config) -> (r: Input)
        requires
            fits_source(src@),
        ensures
            r.wf(),
            r.text() == src@,
            r.cfg() == config,
    {
        broadcast use vstd::string::group_string_axioms;

        let mut chars: Vec<char> = Vec::new();
        for c in it: src.chars()
            invariant
                chars@ == it.seq().take(it.index()),
                0 <= it.index() <= it.seq().len(),
                it.seq() == src@,
        {
            chars.push(c);
            assert(it.seq().take(it.index() + 1) =~= chars@);
        }
        assert(chars@ =~= src@);
        let ghost s = chars@;
        let n = chars.len();
        let mut locs: Vec<SourceLocation> = Vec::new();
        let mut offset: usize = 0;
        let mut line: usize = 1;
        let mut column: usize = 1;
        proof {
            assert(s.take(0) =~= Seq::<char>::empty());
        }
        let mut i: usize = 0;
        while i < n
            invariant
                s == chars@,
                n == s.len(),
                fits_source(s),
                0 <= i <= n,
                locs@.len() == i,
                forall|k: int| 0 <= k < i ==> #[trigger] locs@[k] == location_of(s, k),
                offset == byte_len(s.take(i as int)),
                line == newline_count(s.take(i as int)) + 1,
                column == column_after(s.take(i as int)),
            decreases n - i,
        {
            proof {
                lemma_prefix_bounds(s, i as int);
                lemma_prefix_bounds(s, i + 1);
                lemma_location_step(s, i as int);
            }
            locs.push(SourceLocation { offset, line, column });
            let c = chars[i];
            let w = char_utf8_width(c);
            offset = offset + w;
            if c == '\n' {
                line = line + 1;
                column = 1;
            } else {
                column = column + w;
            }
            i = i + 1;
        }
        proof {
            lemma_prefix_bounds(s, n as int);
        }
        locs.push(SourceLocation { offset, line, column });
        Input { src: String::from_str(src), chars, locs, config }
    }
}

} // verus!
