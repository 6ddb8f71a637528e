use vstd::prelude::*;
use vstd::string::*;
use crate::text::{all_hex_digits, chars_of, hex_digit_value};
use vstd::arithmetic::div_mod::{lemma_mod_add_multiples_vanish, lemma_mod_self_0, lemma_small_mod};

verus! {

/// How the query text becomes a byte pattern.
#[derive(Clone, Copy, Debug, PartialEq, Eq, Structural)]
pub enum SearchMode {
    /// Two hexadecimal digits per byte; whitespace is ignored.
    Hex,
    /// The bytes of the text itself.
    Ascii,
}

/// The query text cannot be read as a hexadecimal byte sequence.
#[derive(Clone, Copy, Debug, PartialEq, Eq, Structural)]
pub enum PatternError {
    InvalidHexLiteral,
}

/// The error of hex::decode; only told apart from success, never inspected.
#[verifier::external_type_specification]
#[verifier::external_body]
pub struct ExFromHexError(hex::FromHexError);

/// Unicode's White_Space characters.
pub open spec fn is_white_space(c: char) -> bool {
    ('\u{9}' <= c && c <= '\u{d}') || c == ' ' || c == '\u{85}' || c == '\u{a0}' || c
        == '\u{1680}' || ('\u{2000}' <= c && c <= '\u{200a}') || c == '\u{2028}' || c
        == '\u{2029}' || c == '\u{202f}' || c == '\u{205f}' || c == '\u{3000}'
}

/// Checks one character for being whitespace.
pub fn white_space(c: char) -> (r: bool)
    ensures
        r == is_white_space(c),
{
    ('\u{9}' <= c && c <= '\u{d}') || c == ' ' || c == '\u{85}' || c == '\u{a0}' || c
        == '\u{1680}' || ('\u{2000}' <= c && c <= '\u{200a}') || c == '\u{2028}' || c
        == '\u{2029}' || c == '\u{202f}' || c == '\u{205f}' || c == '\u{3000}'
}

/// `s` with every whitespace character taken out, the rest in order.
pub open spec fn strip_white_space(s: Seq<char>) -> Seq<char>
    decreases s.len(),
{
    if s.len() == 0 {
        s
    } else if is_white_space(s.last()) {
        strip_white_space(s.drop_last())
    } else {
        strip_white_space(s.drop_last()).push(s.last())
    }
}

/// The bytes that an even run of hexadecimal digits spells, two digits per
/// byte, high half first.
pub open spec fn hex_pairs(ds: Seq<char>) -> Seq<u8> {
    Seq::new(
        ds.len() / 2,
        |i: int| (hex_digit_value(ds[2 * i]) * 16 + hex_digit_value(ds[2 * i + 1])) as u8,
    )
}

/// The pattern that `query` stands for under `mode`; `None` where it cannot
/// be read.
pub open spec fn pattern_of(mode: SearchMode, query: Seq<char>) -> Option<Seq<u8>> {
    match mode {
        SearchMode::Ascii => Some(vstd::utf8::encode_utf8(query)),
        SearchMode::Hex => {
            let ds = strip_white_space(query);
            if ds.len() % 2 == 0 && all_hex_digits(ds) {
                Some(hex_pairs(ds))
            } else {
                None
            }
        },
    }
}

/// Relies on hex::decode: an even number of ASCII hexadecimal digits, of either
/// case, decodes pair by pair, high half first; any other text is an error.
#[verifier::external_body]
fn decode_hex(digits: &Vec<char>) -> (r: Result<Vec<u8>, hex::FromHexError>)
    ensures
        r is Ok <==> (digits@.len() % 2 == 0 && all_hex_digits(digits@)),
        r is Ok ==> r->Ok_0@ == hex_pairs(digits@),
{
    hex::decode(digits.iter().collect::<String>())
}

fn without_white_space(s: &Vec<char>) -> (r: Vec<char>)
    ensures
        r@ == strip_white_space(s@),
{
    let mut r: Vec<char> = Vec::new();
    let mut i: usize = 0;
    while i < s.len()
        invariant
            i <= s.len(),
            r@ == strip_white_space(s@.take(i as int)),
        decreases s.len() - i,
    {
        assert(s@.take(i + 1).drop_last() =~= s@.take(i as int));
        if !white_space(s[i]) {
            r.push(s[i]);
        }
        i = i + 1;
    }
    assert(s@.take(i as int) =~= s@);
    r
}

/// Turns the query text into the byte pattern to look for.
pub fn encode_pattern(mode: SearchMode, query: &str) -> (r: Result<Vec<u8>, PatternError>)
    ensures
        pattern_of(mode, query@) is Some ==> r is Ok && r->Ok_0@ == pattern_of(mode, query@)->Some_0,
        pattern_of(mode, query@) is None ==> r == Err::<Vec<u8>, PatternError>(
            PatternError::InvalidHexLiteral,
        ),
{
    match mode {
        SearchMode::Ascii => {
            let b = query.as_bytes();
            let mut r: Vec<u8> = Vec::new();
            let mut i: usize = 0;
            while i < b.len()
                invariant
                    i <= b@.len(),
                    r@ == b@.take(i as int),
                decreases b@.len() - i,
            {
                r.push(b[i]);
                i = i + 1;
                assert(r@ =~= b@.take(i as int));
            }
            assert(b@.take(i as int) =~= b@);
            Ok(r)
        },
        SearchMode::Hex => {
            let cleaned = without_white_space(&chars_of(query));
            match decode_hex(&cleaned) {
                Ok(bytes) => Ok(bytes),
                Err(_) => Err(PatternError::InvalidHexLiteral),
            }
        },
    }
}

/// Whether `pattern` occurs in `haystack` starting at offset `i`.
pub open spec fn occurs_at(haystack: Seq<u8>, pattern: Seq<u8>, i: int) -> bool {
    0 <= i && i + pattern.len() <= haystack.len() && haystack.subrange(i, i + pattern.len())
        == pattern
}

/// The offsets below `n` where `pattern` occurs, in ascending order.
pub open spec fn occurrences_below(haystack: Seq<u8>, pattern: Seq<u8>, n: nat) -> Seq<usize>
    decreases n,
{
    if n == 0 {
        Seq::empty()
    } else {
        let before = occurrences_below(haystack, pattern, (n - 1) as nat);
        if occurs_at(haystack, pattern, n - 1) {
            before.push((n - 1) as usize)
        } else {
            before
        }
    }
}

/// Every offset where `pattern` occurs in `haystack`, ascending, overlapping
/// ones included.
pub open spec fn occurrences(haystack: Seq<u8>, pattern: Seq<u8>) -> Seq<usize> {
    occurrences_below(haystack, pattern, haystack.len())
}

fn occurs_here(haystack: &Vec<u8>, pattern: &Vec<u8>, i: usize) -> (r: bool)
    ensures
        r == occurs_at(haystack@, pattern@, i as int),
{
    if i > haystack.len() || pattern.len() > haystack.len() - i {
        return false;
    }
    let mut j: usize = 0;
    while j < pattern.len()
        invariant
            i + pattern.len() <= haystack.len(),
            j <= pattern@.len(),
            forall|k: int| 0 <= k < j ==> haystack@[i + k] == pattern@[k],
        decreases pattern@.len() - j,
    {
        if haystack[i + j] != pattern[j] {
            assert(haystack@.subrange(i as int, i + pattern@.len())[j as int] != pattern@[j as int]);
            return false;
        }
        j = j + 1;
    }
    assert(haystack@.subrange(i as int, i + pattern@.len()) =~= pattern@);
    true
}

/// All the offsets where `pattern` occurs in `haystack`, ascending.
pub fn find_all(haystack: &Vec<u8>, pattern: &Vec<u8>) -> (r: Vec<usize>)
    requires
        pattern@.len() > 0,
    ensures
        r@ == occurrences(haystack@, pattern@),
{
    let mut r: Vec<usize> = Vec::new();
    let mut i: usize = 0;
    while i < haystack.len()
        invariant
            i <= haystack@.len(),
            r@ == occurrences_below(haystack@, pattern@, i as nat),
        decreases haystack@.len() - i,
    {
        if occurs_here(haystack, pattern, i) {
            r.push(i);
        }
        i = i + 1;
    }
    r
}

/// Where the last search got to.
#[derive(Clone, Copy, Debug, PartialEq, Eq, Structural)]
pub enum SearchState {
    /// No search, or an empty pattern.
    Idle,
    /// At least one match.
    HasResults,
    /// A pattern that occurs nowhere.
    NoResults,
    /// A query that is not a valid hexadecimal byte sequence.
    InvalidPattern,
}

/// Query, pattern, the matches of the last search and the current one among them.
pub struct SearchEngine {
    mode: SearchMode,
    query: String,
    pattern: Vec<u8>,
    matches: Vec<usize>,
    cursor: Option<usize>,
    state: SearchState,
}

impl SearchEngine {
    pub closed spec fn mode_view(&self) -> SearchMode {
        self.mode
    }

    pub closed spec fn query_view(&self) -> Seq<char> {
        self.query@
    }

    pub closed spec fn pattern_view(&self) -> Seq<u8> {
        self.pattern@
    }

    pub closed spec fn matches_view(&self) -> Seq<usize> {
        self.matches@
    }

    pub closed spec fn cursor_view(&self) -> Option<usize> {
        self.cursor
    }

    pub closed spec fn state_view(&self) -> SearchState {
        self.state
    }

    /// The cursor names an existing match, and every match ends at an offset
    /// that fits in `usize`.
    pub open spec fn wf(&self) -> bool {
        &&& (self.cursor_view() matches Some(c) ==> c < self.matches_view().len())
        &&& forall|k: int|
            0 <= k < self.matches_view().len() ==> #[trigger] self.matches_view()[k]
                + self.pattern_view().len() <= usize::MAX
    }

    /// Nothing searched yet: ASCII mode, empty query.
    pub fn new() -> (r: SearchEngine)
        ensures
            r.wf(),
            r.mode_view() == SearchMode::Ascii,
            r.query_view() == Seq::<char>::empty(),
            r.pattern_view() == Seq::<u8>::empty(),
            r.matches_view() == Seq::<usize>::empty(),
            r.cursor_view() is None,
            r.state_view() == SearchState::Idle,
    {
        SearchEngine {
            mode: SearchMode::Ascii,
            query: String::new(),
            pattern: Vec::new(),
            matches: Vec::new(),
            cursor: None,
            state: SearchState::Idle,
        }
    }

    pub fn mode(&self) -> (r: SearchMode)
        ensures
            r == self.mode_view(),
    {
        self.mode
    }

    pub fn query(&self) -> (r: &String)
        ensures
            r@ == self.query_view(),
    {
        &self.query
    }

    pub fn pattern(&self) -> (r: &Vec<u8>)
        ensures
            r@ == self.pattern_view(),
    {
        &self.pattern
    }

    pub fn matches(&self) -> (r: &Vec<usize>)
        ensures
            r@ == self.matches_view(),
    {
        &self.matches
    }

    pub fn cursor(&self) -> (r: Option<usize>)
        ensures
            r == self.cursor_view(),
    {
        self.cursor
    }

    pub fn state(&self) -> (r: SearchState)
        ensures
            r == self.state_view(),
    {
        self.state
    }

    /// Changes the mode; the matches stay until the next search.
    pub fn set_mode(&mut self, mode: SearchMode)
        ensures
            final(self).mode_view() == mode,
            final(self).query_view() == old(self).query_view(),
            final(self).pattern_view() == old(self).pattern_view(),
            final(self).matches_view() == old(self).matches_view(),
            final(self).cursor_view() == old(self).cursor_view(),
            final(self).state_view() == old(self).state_view(),
    {
        self.mode = mode;
    }

    /// Changes the query text; the matches stay until the next search.
    pub fn set_query(&mut self, query: String)
        ensures
            final(self).mode_view() == old(self).mode_view(),
            final(self).query_view() == query@,
            final(self).pattern_view() == old(self).pattern_view(),
            final(self).matches_view() == old(self).matches_view(),
            final(self).cursor_view() == old(self).cursor_view(),
            final(self).state_view() == old(self).state_view(),
    {
        self.query = query;
    }

    /// Forgets the last search, as a newly loaded file requires; mode and
    /// query stay.
    pub fn reset(&mut self)
        ensures
            final(self).wf(),
            final(self).mode_view() == old(self).mode_view(),
            final(self).query_view() == old(self).query_view(),
            final(self).pattern_view() == Seq::<u8>::empty(),
            final(self).matches_view() == Seq::<usize>::empty(),
            final(self).cursor_view() is None,
            final(self).state_view() == SearchState::Idle,
    {
        self.pattern = Vec::new();
        self.matches = Vec::new();
        self.cursor = None;
        self.state = SearchState::Idle;
    }

    /// Encodes the query, scans `buffer` for every occurrence of the pattern
    /// and puts the cursor on the first one. Returns the offset of that first
    /// match, if any. The matches reflect `buffer` as it is now; later edits
    /// do not update them.
    pub fn execute(&mut self, buffer: &Vec<u8>) -> (r: Option<usize>)
        ensures
            executed(*old(self), *final(self), buffer@),
            r == current_offset(*final(self)),
    {
        match encode_pattern(self.mode, self.query.as_str()) {
            Err(_) => {
                self.pattern = Vec::new();
                self.matches = Vec::new();
                self.cursor = None;
                self.state = SearchState::InvalidPattern;
                None
            },
            Ok(pattern) => {
                if pattern.len() == 0 {
                    self.pattern = pattern;
                    self.matches = Vec::new();
                    self.cursor = None;
                    self.state = SearchState::Idle;
                    None
                } else {
                    let found = find_all(buffer, &pattern);
                    // The scan's offsets fit in `usize`, as the buffer's length does.
                    let buffer_len = buffer.len();
                    proof {
                        lemma_occurrences_sound(buffer@, pattern@, buffer_len as nat);
                    }
                    self.pattern = pattern;
                    self.matches = found;
                    if self.matches.len() == 0 {
                        self.cursor = None;
                        self.state = SearchState::NoResults;
                        None
                    } else {
                        self.cursor = Some(0);
                        self.state = SearchState::HasResults;
                        Some(self.matches[0])
                    }
                }
            },
        }
    }

    /// Moves the cursor to the following match, from the last back to the
    /// first; with no cursor yet, to the first. Does nothing when there are no
    /// matches. Returns the offset of the current match.
    pub fn next(&mut self) -> (r: Option<usize>)
        requires
            old(self).wf(),
        ensures
            final(self).wf(),
            final(self).cursor_view() == next_cursor(
                old(self).cursor_view(),
                old(self).matches_view().len(),
            ),
            unchanged_but_cursor(*old(self), *final(self)),
            r == current_offset(*final(self)),
    {
        let n = self.matches.len();
        if n > 0 {
            self.cursor = match self.cursor {
                None => Some(0),
                Some(i) => {
                    proof {
                        if i + 1 == n {
                            lemma_mod_self_0(n as int);
                        } else {
                            lemma_small_mod((i + 1) as nat, n as nat);
                        }
                    }
                    Some(if i + 1 == n { 0 } else { i + 1 })
                },
            };
        }
        match self.cursor {
            None => None,
            Some(c) => Some(self.matches[c]),
        }
    }

    /// Moves the cursor to the preceding match, from the first round to the
    /// last; with no cursor yet, to the last. Does nothing when there are no
    /// matches. Returns the offset of the current match.
    pub fn previous(&mut self) -> (r: Option<usize>)
        requires
            old(self).wf(),
        ensures
            final(self).wf(),
            final(self).cursor_view() == previous_cursor(
                old(self).cursor_view(),
                old(self).matches_view().len(),
            ),
            unchanged_but_cursor(*old(self), *final(self)),
            r == current_offset(*final(self)),
    {
        let n = self.matches.len();
        if n > 0 {
            self.cursor = match self.cursor {
                None => Some(n - 1),
                Some(i) => {
                    proof {
                        if i == 0 {
                            lemma_small_mod((n - 1) as nat, n as nat);
                        } else {
                            lemma_mod_add_multiples_vanish(i - 1, n as int);
                            lemma_small_mod((i - 1) as nat, n as nat);
                        }
                    }
                    Some(if i == 0 { n - 1 } else { i - 1 })
                },
            };
        }
        match self.cursor {
            None => None,
            Some(c) => Some(self.matches[c]),
        }
    }

    /// The status line of the last search: empty when idle, the number of
    /// matches, that there were none, or that the query was not valid.
    pub fn status_message(&self) -> (r: String)
        ensures
            r@ == status_text(self.state_view(), self.matches_view().len()),
    {
        match self.state {
            SearchState::Idle => String::new(),
            SearchState::HasResults => {
                let count = string_from_chars(&decimal_chars(self.matches.len()));
                String::from_str("Found ").concat(count.as_str()).concat(" match(es).")
            },
            SearchState::NoResults => String::from_str("Not found."),
            SearchState::InvalidPattern => String::from_str("Invalid Hex sequence."),
        }
    }

    /// The bytes `[start, end)` of the current match.
    pub fn current_match_range(&self) -> (r: Option<(usize, usize)>)
        requires
            self.wf(),
        ensures
            r == current_range(*self),
    {
        match self.cursor {
            None => None,
            Some(c) => {
                let start = self.matches[c];
                Some((start, start + self.pattern.len()))
            },
        }
    }
}

/// The decimal digit for `d`, which is below ten.
pub open spec fn decimal_digit(d: nat) -> char {
    ((d + '0' as nat) as u32) as char
}

/// `n` written in decimal, with no leading zero.
pub open spec fn decimal(n: nat) -> Seq<char>
    decreases n,
{
    if n < 10 {
        seq![decimal_digit(n)]
    } else {
        decimal(n / 10).push(decimal_digit(n % 10))
    }
}

/// Writes `n` in decimal.
pub fn decimal_chars(n: usize) -> (r: Vec<char>)
    ensures
        r@ == decimal(n as nat),
    decreases n,
{
    let digit = ((n % 10) as u8 + 48u8) as char;
    if n < 10 {
        vec![digit]
    } else {
        let mut r = decimal_chars(n / 10);
        r.push(digit);
        r
    }
}

/// Relies on String's FromIterator<char>: the string holds the characters in order.
#[verifier::external_body]
fn string_from_chars(cs: &Vec<char>) -> (r: String)
    ensures
        r@ == cs@,
{
    cs.iter().collect::<String>()
}

/// The status line for a search in `state` that found `count` matches.
pub open spec fn status_text(state: SearchState, count: nat) -> Seq<char> {
    match state {
        SearchState::Idle => Seq::empty(),
        SearchState::HasResults => "Found "@ + decimal(count) + " match(es)."@,
        SearchState::NoResults => "Not found."@,
        SearchState::InvalidPattern => "Invalid Hex sequence."@,
    }
}

/// Offset of the current match.
pub open spec fn current_offset(e: SearchEngine) -> Option<usize> {
    match e.cursor_view() {
        None => None,
        Some(c) => Some(e.matches_view()[c as int]),
    }
}

/// Byte range of the current match.
pub open spec fn current_range(e: SearchEngine) -> Option<(usize, usize)> {
    match e.cursor_view() {
        None => None,
        Some(c) => Some(
            (
                e.matches_view()[c as int],
                (e.matches_view()[c as int] + e.pattern_view().len()) as usize,
            ),
        ),
    }
}

/// The cursor after a step forward among `count` matches.
pub open spec fn next_cursor(cursor: Option<usize>, count: nat) -> Option<usize> {
    if count == 0 {
        cursor
    } else {
        match cursor {
            None => Some(0),
            Some(i) => Some(((i + 1) % (count as int)) as usize),
        }
    }
}

/// The cursor after a step back among `count` matches.
pub open spec fn previous_cursor(cursor: Option<usize>, count: nat) -> Option<usize> {
    if count == 0 {
        cursor
    } else {
        match cursor {
            None => Some((count - 1) as usize),
            Some(i) => Some(((i + count - 1) % (count as int)) as usize),
        }
    }
}

/// All but the cursor is as it was.
pub open spec fn unchanged_but_cursor(pre: SearchEngine, post: SearchEngine) -> bool {
    &&& post.mode_view() == pre.mode_view()
    &&& post.query_view() == pre.query_view()
    &&& post.pattern_view() == pre.pattern_view()
    &&& post.matches_view() == pre.matches_view()
    &&& post.state_view() == pre.state_view()
}

/// What a search on `buffer` makes of the engine `pre`.
pub open spec fn executed(pre: SearchEngine, post: SearchEngine, buffer: Seq<u8>) -> bool {
    &&& post.wf()
    &&& post.mode_view() == pre.mode_view()
    &&& post.query_view() == pre.query_view()
    &&& match pattern_of(pre.mode_view(), pre.query_view()) {
        None => {
            &&& post.pattern_view() == Seq::<u8>::empty()
            &&& post.matches_view() == Seq::<usize>::empty()
            &&& post.cursor_view() is None
            &&& post.state_view() == SearchState::InvalidPattern
        },
        Some(p) => if p.len() == 0 {
            &&& post.pattern_view() == p
            &&& post.matches_view() == Seq::<usize>::empty()
            &&& post.cursor_view() is None
            &&& post.state_view() == SearchState::Idle
        } else if occurrences(buffer, p).len() == 0 {
            &&& post.pattern_view() == p
            &&& post.matches_view() == occurrences(buffer, p)
            &&& post.cursor_view() is None
            &&& post.state_view() == SearchState::NoResults
        } else {
            &&& post.pattern_view() == p
            &&& post.matches_view() == occurrences(buffer, p)
            &&& post.cursor_view() == Some(0usize)
            &&& post.state_view() == SearchState::HasResults
        },
    }
}

/// Each offset found is an occurrence below the bound, and they ascend.
pub proof fn lemma_occurrences_sound(haystack: Seq<u8>, pattern: Seq<u8>, n: nat)
    requires
        haystack.len() <= usize::MAX,
    ensures
        forall|k: int|
            0 <= k < occurrences_below(haystack, pattern, n).len() ==> occurs_at(
                haystack,
                pattern,
                #[trigger] occurrences_below(haystack, pattern, n)[k] as int,
            ) && occurrences_below(haystack, pattern, n)[k] < n,
        forall|k: int, l: int|
            0 <= k < l < occurrences_below(haystack, pattern, n).len() ==> #[trigger] occurrences_below(
                haystack,
                pattern,
                n,
            )[k] < #[trigger] occurrences_below(haystack, pattern, n)[l],
    decreases n,
{
    if n > 0 {
        lemma_occurrences_sound(haystack, pattern, (n - 1) as nat);
        let before = occurrences_below(haystack, pattern, (n - 1) as nat);
        let all = occurrences_below(haystack, pattern, n);
        if occurs_at(haystack, pattern, n - 1) {
            assert(all == before.push((n - 1) as usize));
            assert forall|k: int| 0 <= k < all.len() implies occurs_at(
                haystack,
                pattern,
                #[trigger] all[k] as int,
            ) && all[k] < n by {
                if k < before.len() {
                    assert(all[k] == before[k]);
                }
            }
            assert forall|k: int, l: int| 0 <= k < l < all.len() implies #[trigger] all[k]
                < #[trigger] all[l] by {
                assert(all[k] == before[k]);
                if l < before.len() {
                    assert(all[l] == before[l]);
                }
            }
        }
    }
}

/// Every occurrence of a non-empty pattern is found.
pub proof fn lemma_occurrences_complete(haystack: Seq<u8>, pattern: Seq<u8>, i: int)
    requires
        haystack.len() <= usize::MAX,
        pattern.len() > 0,
        occurs_at(haystack, pattern, i),
    ensures
        occurrences(haystack, pattern).contains(i as usize),
{
    lemma_occurrences_below_complete(haystack, pattern, i, haystack.len());
}

proof fn lemma_occurrences_below_complete(haystack: Seq<u8>, pattern: Seq<u8>, i: int, n: nat)
    requires
        haystack.len() <= usize::MAX,
        occurs_at(haystack, pattern, i),
        i < n,
    ensures
        occurrences_below(haystack, pattern, n).contains(i as usize),
    decreases n,
{
    let before = occurrences_below(haystack, pattern, (n - 1) as nat);
    if i == n - 1 {
        assert(occurrences_below(haystack, pattern, n) == before.push(i as usize));
        assert(occurrences_below(haystack, pattern, n)[before.len() as int] == i as usize);
    } else {
        lemma_occurrences_below_complete(haystack, pattern, i, (n - 1) as nat);
        let k = choose|k: int| 0 <= k < before.len() && before[k] == i as usize;
        if occurs_at(haystack, pattern, n - 1) {
            assert(occurrences_below(haystack, pattern, n)[k] == i as usize);
        }
    }
}

/// Searching twice in a row, with query, mode and buffer unchanged, gives the
/// same matches both times, and both times the cursor on the first match.
pub proof fn lemma_execute_idempotent(
    start: SearchEngine,
    once: SearchEngine,
    twice: SearchEngine,
    buffer: Seq<u8>,
)
    requires
        executed(start, once, buffer),
        executed(once, twice, buffer),
    ensures
        twice.matches_view() == once.matches_view(),
        twice.pattern_view() == once.pattern_view(),
        twice.cursor_view() == once.cursor_view(),
        twice.state_view() == once.state_view(),
        once.matches_view().len() > 0 ==> once.cursor_view() == Some(0usize),
{
}

/// Stepping forward from the last match lands on the first; stepping back
/// with no cursor lands on the last.
pub proof fn lemma_cursor_wraps(cursor: Option<usize>, count: nat)
    requires
        count > 0,
        count <= usize::MAX,
    ensures
        cursor == Some((count - 1) as usize) ==> next_cursor(cursor, count) == Some(0usize),
        previous_cursor(None, count) == Some((count - 1) as usize),
        cursor == Some(0usize) ==> previous_cursor(cursor, count) == Some((count - 1) as usize),
{
    if cursor == Some((count - 1) as usize) {
        lemma_mod_self_0(count as int);
    }
    if cursor == Some(0usize) {
        lemma_small_mod((count - 1) as nat, count);
    }
}

} // verus!
