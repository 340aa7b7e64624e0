//! The text header of an AD file: `%%BEGINHEADER`, lines of `% key: value`
//! pairs and `% comment`s, then `%%ENDHEADER`.
//!
//! Header lines borrow from the file's bytes; nothing is copied.

use vstd::prelude::*;
use vstd::string::StringSliceAdditionalSpecFns;

verus! {

pub const NEWLINE: u8 = 10;
pub const PERCENT: u8 = 37;
pub const SPACE: u8 = 32;
pub const COLON: u8 = 58;
pub const TAB: u8 = 9;
pub const FORM_FEED: u8 = 12;
pub const CARRIAGE_RETURN: u8 = 13;

/// Errors related to header parsing and key lookup.
#[derive(Clone, Debug, PartialEq)]
pub enum HeaderError {
    UnknownKey { key: String },
    ParseError { err: String },
}

/// One line of the header, as slices of the file's bytes.
#[derive(Clone, Copy, Debug, PartialEq)]
pub enum HeaderLine<'a> {
    HeaderPair { key: &'a [u8], value: &'a [u8] },
    HeaderComment { comment: &'a [u8] },
}

/// What a header line holds.
pub ghost enum Line {
    Pair { key: Seq<u8>, value: Seq<u8> },
    Comment { text: Seq<u8> },
}

impl<'a> View for HeaderLine<'a> {
    type V = Line;

    open spec fn view(&self) -> Line {
        match self {
            HeaderLine::HeaderPair { key, value } => Line::Pair { key: key@, value: value@ },
            HeaderLine::HeaderComment { comment } => Line::Comment { text: comment@ },
        }
    }
}

/// Metadata collected from the file header, in the order of the file.
pub struct Metadata<'a> {
    pub header: Vec<HeaderLine<'a>>,
}

impl<'a> View for Metadata<'a> {
    type V = Seq<Line>;

    open spec fn view(&self) -> Seq<Line> {
        self.header@.map_values(|l: HeaderLine<'a>| l@)
    }
}

/// The one-byte white space of `char::is_whitespace`: U+0009 to U+000D and
/// the space.
pub open spec fn is_space(b: u8) -> bool {
    (TAB <= b && b <= CARRIAGE_RETURN) || b == SPACE
}

/// Whether three bytes encode, in UTF-8, a white-space character of
/// `char::is_whitespace`: U+1680, U+2000 to U+200A, U+2028, U+2029, U+202F,
/// U+205F or U+3000.
pub open spec fn is_space3(a: u8, b: u8, c: u8) -> bool {
    ||| a == 0xE1 && b == 0x9A && c == 0x80
    ||| a == 0xE2 && b == 0x80 && ((0x80 <= c && c <= 0x8A) || c == 0xA8 || c == 0xA9 || c == 0xAF)
    ||| a == 0xE2 && b == 0x81 && c == 0x9F
    ||| a == 0xE3 && b == 0x80 && c == 0x80
}

/// Whether two bytes encode, in UTF-8, a white-space character of
/// `char::is_whitespace`: U+0085 or U+00A0.
pub open spec fn is_space2(a: u8, b: u8) -> bool {
    a == 0xC2 && (b == 0x85 || b == 0xA0)
}

/// How many bytes the white-space character that `t` starts with takes in
/// UTF-8; 0 where `t` starts with none.
pub open spec fn space_len_front(t: Seq<u8>) -> int {
    if t.len() >= 1 && is_space(t[0]) {
        1
    } else if t.len() >= 2 && is_space2(t[0], t[1]) {
        2
    } else if t.len() >= 3 && is_space3(t[0], t[1], t[2]) {
        3
    } else {
        0
    }
}

/// How many bytes the white-space character that `t` ends with takes in
/// UTF-8; 0 where `t` ends with none.
pub open spec fn space_len_back(t: Seq<u8>) -> int {
    let n = t.len() as int;
    if n >= 1 && is_space(t[n - 1]) {
        1
    } else if n >= 2 && is_space2(t[n - 2], t[n - 1]) {
        2
    } else if n >= 3 && is_space3(t[n - 3], t[n - 2], t[n - 1]) {
        3
    } else {
        0
    }
}

/// `t` without its leading white space, as `str::trim_start` removes it.
pub open spec fn trim_start(t: Seq<u8>) -> Seq<u8>
    decreases t.len(),
{
    let n = space_len_front(t);
    if n > 0 {
        trim_start(t.subrange(n, t.len() as int))
    } else {
        t
    }
}

/// `t` without its trailing white space, as `str::trim_end` removes it.
pub open spec fn trim_end(t: Seq<u8>) -> Seq<u8>
    decreases t.len(),
{
    let n = space_len_back(t);
    if n > 0 {
        trim_end(t.subrange(0, t.len() - n))
    } else {
        t
    }
}

/// `t` without its leading and trailing white space: what `str::trim`
/// makes of the text that `t` encodes.
pub open spec fn trim(t: Seq<u8>) -> Seq<u8> {
    trim_end(trim_start(t))
}

/// The first position at or after `i` that holds a newline, or the end.
pub open spec fn line_end(s: Seq<u8>, i: int) -> int
    decreases s.len() - i,
{
    if 0 <= i < s.len() && s[i] != NEWLINE {
        line_end(s, i + 1)
    } else {
        i
    }
}

/// The first position at or after `i` that holds a colon or a newline, or the end.
pub open spec fn key_end(s: Seq<u8>, i: int) -> int
    decreases s.len() - i,
{
    if 0 <= i < s.len() && s[i] != NEWLINE && s[i] != COLON {
        key_end(s, i + 1)
    } else {
        i
    }
}

/// Whether `s` holds `% ` at `i`.
pub open spec fn opens_line(s: Seq<u8>, i: int) -> bool {
    0 <= i && i + 2 <= s.len() && s[i] == PERCENT && s[i + 1] == SPACE
}

/// `key: value` at `i`, up to the end of the line: a key of at least one
/// byte, the first colon, a value of at least one byte. Gives the pair,
/// trimmed, and the position after it.
pub open spec fn pair_body(s: Seq<u8>, i: int) -> Option<(Line, int)> {
    let k = key_end(s, i);
    if 0 <= i < k && k < s.len() && s[k] == COLON {
        let v = line_end(s, k + 1);
        if k + 1 < v {
            Some((Line::Pair { key: trim(s.subrange(i, k)), value: trim(s.subrange(k + 1, v)) }, v))
        } else {
            None
        }
    } else {
        None
    }
}

/// A comment at `i`: `% ` and the rest of the line, or a bare `%` before a newline.
pub open spec fn comment_at(s: Seq<u8>, i: int) -> Option<(Line, int)> {
    if opens_line(s, i) {
        let e = line_end(s, i + 2);
        Some((Line::Comment { text: s.subrange(i + 2, e) }, e))
    } else if 0 <= i && i + 2 <= s.len() && s[i] == PERCENT && s[i + 1] == NEWLINE {
        Some((Line::Comment { text: Seq::empty() }, i + 1))
    } else {
        None
    }
}

/// A header line at `i`: a pair after `% ` where one is there, else a comment.
pub open spec fn line_at(s: Seq<u8>, i: int) -> Option<(Line, int)> {
    if opens_line(s, i) && pair_body(s, i + 2) is Some {
        pair_body(s, i + 2)
    } else {
        comment_at(s, i)
    }
}

/// Whether an executable outcome agrees with a spec outcome.
pub open spec fn same_outcome<'a>(r: Option<(HeaderLine<'a>, usize)>, o: Option<(Line, int)>) -> bool {
    match o {
        Some((l, e)) => r matches Some((hl, re)) && hl@ == l && re == e,
        None => r is None,
    }
}

proof fn lemma_line_end_bounds(s: Seq<u8>, i: int)
    requires
        0 <= i <= s.len(),
    ensures
        i <= line_end(s, i) <= s.len(),
    decreases s.len() - i,
{
    if i < s.len() && s[i] != NEWLINE {
        lemma_line_end_bounds(s, i + 1);
    }
}

fn find_line_end(s: &[u8], i: usize) -> (r: usize)
    requires
        i <= s@.len(),
    ensures
        r == line_end(s@, i as int),
        i <= r <= s@.len(),
{
    let mut j = i;
    while j < s.len() && s[j] != NEWLINE
        invariant
            i <= j <= s@.len(),
            line_end(s@, i as int) == line_end(s@, j as int),
        decreases s@.len() - j,
    {
        j = j + 1;
    }
    j
}

fn find_key_end(s: &[u8], i: usize) -> (r: usize)
    requires
        i <= s@.len(),
    ensures
        r == key_end(s@, i as int),
        i <= r <= s@.len(),
{
    let mut j = i;
    while j < s.len() && s[j] != NEWLINE && s[j] != COLON
        invariant
            i <= j <= s@.len(),
            key_end(s@, i as int) == key_end(s@, j as int),
        decreases s@.len() - j,
    {
        j = j + 1;
    }
    j
}

fn is_space_byte(b: u8) -> (r: bool)
    ensures
        r == is_space(b),
{
    (TAB <= b && b <= CARRIAGE_RETURN) || b == SPACE
}

fn is_space2_bytes(a: u8, b: u8) -> (r: bool)
    ensures
        r == is_space2(a, b),
{
    a == 0xC2 && (b == 0x85 || b == 0xA0)
}

fn is_space3_bytes(a: u8, b: u8, c: u8) -> (r: bool)
    ensures
        r == is_space3(a, b, c),
{
    (a == 0xE1 && b == 0x9A && c == 0x80)
        || (a == 0xE2 && b == 0x80 && ((0x80 <= c && c <= 0x8A) || c == 0xA8 || c == 0xA9 || c == 0xAF))
        || (a == 0xE2 && b == 0x81 && c == 0x9F)
        || (a == 0xE3 && b == 0x80 && c == 0x80)
}

/// The length of the white-space character that `t[lo..hi]` starts with.
fn space_at_front(t: &[u8], lo: usize, hi: usize) -> (r: usize)
    requires
        lo <= hi <= t@.len(),
    ensures
        r == space_len_front(t@.subrange(lo as int, hi as int)),
{
    let n = hi - lo;
    if n >= 1 && is_space_byte(t[lo]) {
        1
    } else if n >= 2 && is_space2_bytes(t[lo], t[lo + 1]) {
        2
    } else if n >= 3 && is_space3_bytes(t[lo], t[lo + 1], t[lo + 2]) {
        3
    } else {
        0
    }
}

/// The length of the white-space character that `t[lo..hi]` ends with.
fn space_at_back(t: &[u8], lo: usize, hi: usize) -> (r: usize)
    requires
        lo <= hi <= t@.len(),
    ensures
        r == space_len_back(t@.subrange(lo as int, hi as int)),
{
    let n = hi - lo;
    if n >= 1 && is_space_byte(t[hi - 1]) {
        1
    } else if n >= 2 && is_space2_bytes(t[hi - 2], t[hi - 1]) {
        2
    } else if n >= 3 && is_space3_bytes(t[hi - 3], t[hi - 2], t[hi - 1]) {
        3
    } else {
        0
    }
}

/// `t` without its leading and trailing white space, as `str::trim` removes
/// it from the text that `t` encodes.
pub fn trim_bytes<'a>(t: &'a [u8]) -> (r: &'a [u8])
    ensures
        r@ == trim(t@),
{
    let len = t.len();
    let mut lo: usize = 0;
    assert(t@.subrange(0, t@.len() as int) =~= t@);
    loop
        invariant
            lo <= len,
            len == t@.len(),
            trim_start(t@) == trim_start(t@.subrange(lo as int, len as int)),
        ensures
            lo <= len,
            trim_start(t@) == t@.subrange(lo as int, len as int),
        decreases len - lo,
    {
        let n = space_at_front(t, lo, len);
        if n == 0 {
            break;
        }
        assert(t@.subrange(lo as int, len as int).subrange(n as int, len - lo) =~= t@.subrange(lo + n, len as int));
        lo = lo + n;
    }
    let mut hi: usize = len;
    loop
        invariant
            lo <= hi <= len,
            len == t@.len(),
            trim(t@) == trim_end(t@.subrange(lo as int, hi as int)),
        ensures
            lo <= hi <= len,
            trim(t@) == t@.subrange(lo as int, hi as int),
        decreases hi,
    {
        let n = space_at_back(t, lo, hi);
        if n == 0 {
            break;
        }
        assert(t@.subrange(lo as int, hi as int).subrange(0, hi - lo - n) =~= t@.subrange(lo as int, hi - n));
        hi = hi - n;
    }
    &t[lo..hi]
}

fn pair_body_at<'a>(s: &'a [u8], i: usize) -> (r: Option<(HeaderLine<'a>, usize)>)
    requires
        i <= s@.len(),
    ensures
        same_outcome(r, pair_body(s@, i as int)),
        r matches Some((_, e)) ==> i < e <= s@.len(),
{
    let k = find_key_end(s, i);
    if i < k && k < s.len() && s[k] == COLON {
        let v = find_line_end(s, k + 1);
        if k + 1 < v {
            let key = trim_bytes(&s[i..k]);
            let value = trim_bytes(&s[k + 1..v]);
            Some((HeaderLine::HeaderPair { key, value }, v))
        } else {
            None
        }
    } else {
        None
    }
}

fn opens_line_at(s: &[u8], i: usize) -> (r: bool)
    ensures
        r == opens_line(s@, i as int),
{
    i <= s.len() && s.len() - i >= 2 && s[i] == PERCENT && s[i + 1] == SPACE
}

fn comment_at_exec<'a>(s: &'a [u8], i: usize) -> (r: Option<(HeaderLine<'a>, usize)>)
    requires
        i <= s@.len(),
    ensures
        same_outcome(r, comment_at(s@, i as int)),
        r matches Some((_, e)) ==> i < e <= s@.len(),
{
    if opens_line_at(s, i) {
        let n = s.len();
        assert(i + 2 <= n);
        let e = find_line_end(s, i + 2);
        Some((HeaderLine::HeaderComment { comment: &s[i + 2..e] }, e))
    } else if s.len() - i >= 2 && s[i] == PERCENT && s[i + 1] == NEWLINE {
        let empty: &[u8] = &s[i..i];
        assert(empty@ =~= Seq::<u8>::empty());
        Some((HeaderLine::HeaderComment { comment: empty }, i + 1))
    } else {
        None
    }
}

fn line_at_exec<'a>(s: &'a [u8], i: usize) -> (r: Option<(HeaderLine<'a>, usize)>)
    requires
        i <= s@.len(),
    ensures
        same_outcome(r, line_at(s@, i as int)),
        r matches Some((_, e)) ==> i < e <= s@.len(),
{
    if opens_line_at(s, i) {
        let n = s.len();
        assert(i + 2 <= n);
        let p = pair_body_at(s, i + 2);
        if p.is_some() {
            return p;
        }
    }
    comment_at_exec(s, i)
}

fn malformed(what: &str) -> (e: HeaderError)
    ensures
        e is ParseError,
{
    HeaderError::ParseError { err: what.to_owned() }
}

/// Parses `key: value` (the part of a pair line after `% `), up to the end
/// of the line. Gives what is left and the pair, trimmed.
pub fn header_pair<'a>(line: &'a [u8]) -> (r: Result<(&'a [u8], HeaderLine<'a>), HeaderError>)
    ensures
        match pair_body(line@, 0) {
            Some((l, e)) => r matches Ok((rest, hl)) && hl@ == l && rest@ == line@.subrange(e, line@.len() as int),
            None => r matches Err(HeaderError::ParseError { .. }),
        },
{
    match pair_body_at(line, 0) {
        Some((hl, e)) => Ok((&line[e..line.len()], hl)),
        None => Err(malformed("expected `key: value`")),
    }
}

/// Parses a comment line: `% ` and the rest of the line, or a bare `%`
/// before a newline.
pub fn header_comment<'a>(line: &'a [u8]) -> (r: Result<(&'a [u8], HeaderLine<'a>), HeaderError>)
    ensures
        match comment_at(line@, 0) {
            Some((l, e)) => r matches Ok((rest, hl)) && hl@ == l && rest@ == line@.subrange(e, line@.len() as int),
            None => r matches Err(HeaderError::ParseError { .. }),
        },
{
    match comment_at_exec(line, 0) {
        Some((hl, e)) => Ok((&line[e..line.len()], hl)),
        None => Err(malformed("expected a comment line")),
    }
}

/// Parses one header line, a pair where `% key: value` is there, else a
/// comment. Stops before the newline that ends it.
pub fn header_line<'a>(line: &'a [u8]) -> (r: Result<(&'a [u8], HeaderLine<'a>), HeaderError>)
    ensures
        match line_at(line@, 0) {
            Some((l, e)) => r matches Ok((rest, hl)) && hl@ == l && rest@ == line@.subrange(e, line@.len() as int),
            None => r matches Err(HeaderError::ParseError { .. }),
        },
{
    match line_at_exec(line, 0) {
        Some((hl, e)) => Ok((&line[e..line.len()], hl)),
        None => Err(malformed("expected a header line")),
    }
}

/// `%%BEGINHEADER` and a newline.
pub open spec fn begin_marker() -> Seq<u8> {
    seq![37u8, 37u8, 66u8, 69u8, 71u8, 73u8, 78u8, 72u8, 69u8, 65u8, 68u8, 69u8, 82u8, 10u8]
}

/// `%%ENDHEADER` and a newline.
pub open spec fn end_marker() -> Seq<u8> {
    seq![37u8, 37u8, 69u8, 78u8, 68u8, 72u8, 69u8, 65u8, 68u8, 69u8, 82u8, 10u8]
}

/// Whether `s` holds `m` at `i`.
pub open spec fn holds_at(s: Seq<u8>, i: int, m: Seq<u8>) -> bool {
    0 <= i && i + m.len() <= s.len() && s.subrange(i, i + m.len()) == m
}

/// The header lines from `i` on, each ended by a newline, up to and
/// including the end marker. Gives the lines and the position after the marker.
pub open spec fn lines_from(s: Seq<u8>, i: int) -> Option<(Seq<Line>, int)>
    decreases s.len() - i,
{
    if holds_at(s, i, end_marker()) {
        Some((Seq::empty(), i + end_marker().len()))
    } else {
        match line_at(s, i) {
            Some((l, e)) => if 0 <= i < e < s.len() && s[e] == NEWLINE {
                match lines_from(s, e + 1) {
                    Some((ls, p)) => Some((seq![l] + ls, p)),
                    None => None,
                }
            } else {
                None
            },
            None => None,
        }
    }
}

/// The header block at the start of `s`: its lines, and where the payload starts.
pub open spec fn header_block(s: Seq<u8>) -> Option<(Seq<Line>, int)> {
    if holds_at(s, 0, begin_marker()) {
        lines_from(s, begin_marker().len() as int)
    } else {
        None
    }
}

pub open spec fn prepend(acc: Seq<Line>, o: Option<(Seq<Line>, int)>) -> Option<(Seq<Line>, int)> {
    match o {
        Some((ls, p)) => Some((acc + ls, p)),
        None => None,
    }
}

/// Whether `l` is a pair with key `key`.
pub open spec fn has_key(l: Line, key: Seq<u8>) -> bool {
    l matches Line::Pair { key: k, .. } && k == key
}

/// The value of the first pair with key `key`.
pub open spec fn first_value(lines: Seq<Line>, key: Seq<u8>) -> Option<Seq<u8>>
    decreases lines.len(),
{
    if lines.len() == 0 {
        None
    } else if let Line::Pair { key: k, value } = lines[0] {
        if k == key {
            Some(value)
        } else {
            first_value(lines.drop_first(), key)
        }
    } else {
        first_value(lines.drop_first(), key)
    }
}

/// The values of all pairs with key `key`, in order.
pub open spec fn all_values(lines: Seq<Line>, key: Seq<u8>) -> Seq<Seq<u8>>
    decreases lines.len(),
{
    if lines.len() == 0 {
        Seq::empty()
    } else if let Line::Pair { key: k, value } = lines[0] {
        if k == key {
            seq![value] + all_values(lines.drop_first(), key)
        } else {
            all_values(lines.drop_first(), key)
        }
    } else {
        all_values(lines.drop_first(), key)
    }
}

pub open spec fn opt_bytes(r: Option<&[u8]>) -> Option<Seq<u8>> {
    match r {
        Some(v) => Some(v@),
        None => None,
    }
}

fn begin_marker_bytes() -> (r: Vec<u8>)
    ensures
        r@ == begin_marker(),
{
    vec![37u8, 37u8, 66u8, 69u8, 71u8, 73u8, 78u8, 72u8, 69u8, 65u8, 68u8, 69u8, 82u8, 10u8]
}

fn end_marker_bytes() -> (r: Vec<u8>)
    ensures
        r@ == end_marker(),
{
    vec![37u8, 37u8, 69u8, 78u8, 68u8, 72u8, 69u8, 65u8, 68u8, 69u8, 82u8, 10u8]
}

fn holds_at_exec(s: &[u8], i: usize, m: &[u8]) -> (r: bool)
    ensures
        r == holds_at(s@, i as int, m@),
{
    if i > s.len() || s.len() - i < m.len() {
        return false;
    }
    let n = s.len();
    let mut k: usize = 0;
    while k < m.len()
        invariant
            k <= m@.len(),
            n == s@.len(),
            i + m@.len() <= s@.len(),
            forall|j: int| 0 <= j < k ==> s@[i + j] == m@[j],
        decreases m@.len() - k,
    {
        if s[i + k] != m[k] {
            assert(s@.subrange(i as int, i + m@.len())[k as int] != m@[k as int]);
            return false;
        }
        k = k + 1;
    }
    assert(s@.subrange(i as int, i + m@.len()) =~= m@);
    true
}

/// Equality of two byte strings.
pub fn bytes_equal(a: &[u8], b: &[u8]) -> (r: bool)
    ensures
        r == (a@ == b@),
{
    if a.len() != b.len() {
        return false;
    }
    let mut k: usize = 0;
    while k < a.len()
        invariant
            k <= a@.len(),
            a@.len() == b@.len(),
            forall|j: int| 0 <= j < k ==> a@[j] == b@[j],
        decreases a@.len() - k,
    {
        if a[k] != b[k] {
            return false;
        }
        k = k + 1;
    }
    assert(a@ =~= b@);
    true
}

/// Parses the header block at the start of `file_contents`. Gives the data
/// that follows the block and the header lines.
pub fn parse_header<'a>(file_contents: &'a [u8]) -> (r: Result<(&'a [u8], Vec<HeaderLine<'a>>), HeaderError>)
    ensures
        match header_block(file_contents@) {
            Some((lines, p)) => r matches Ok((rest, ls)) && ls@.map_values(|l: HeaderLine<'a>| l@) == lines
                && rest@ == file_contents@.subrange(p, file_contents@.len() as int),
            None => r matches Err(HeaderError::ParseError { .. }),
        },
{
    let s = file_contents;
    let begin = begin_marker_bytes();
    let end = end_marker_bytes();
    if !holds_at_exec(s, 0, begin.as_slice()) {
        return Err(malformed("expected %%BEGINHEADER"));
    }
    let mut lines: Vec<HeaderLine<'a>> = Vec::new();
    let mut i: usize = begin.len();
    assert(lines@.map_values(|l: HeaderLine<'a>| l@) =~= Seq::<Line>::empty());
    loop
        invariant
            i <= s@.len(),
            s@ == file_contents@,
            end@ == end_marker(),
            header_block(s@) == prepend(lines@.map_values(|l: HeaderLine<'a>| l@), lines_from(s@, i as int)),
        decreases s@.len() - i,
    {
        let ghost acc = lines@.map_values(|l: HeaderLine<'a>| l@);
        if holds_at_exec(s, i, end.as_slice()) {
            let n = s.len();
            assert(i + end@.len() <= n);
            assert(acc + Seq::<Line>::empty() =~= acc);
            return Ok((&s[i + end.len()..s.len()], lines));
        }
        match line_at_exec(s, i) {
            Some((hl, e)) => {
                if e < s.len() && s[e] == NEWLINE {
                    lines.push(hl);
                    proof {
                        let nacc = lines@.map_values(|l: HeaderLine<'a>| l@);
                        assert(nacc =~= acc + seq![hl@]);
                        match lines_from(s@, e + 1) {
                            Some((ls, p)) => {
                                assert(acc + (seq![hl@] + ls) =~= nacc + ls);
                            },
                            None => {},
                        }
                    }
                    i = e + 1;
                } else {
                    assert(lines_from(s@, i as int) is None);
                    return Err(malformed("expected a newline after a header line"));
                }
            },
            None => {
                assert(lines_from(s@, i as int) is None);
                return Err(malformed("expected a header line or %%ENDHEADER"));
            },
        }
    }
}

/// Parses the header block at the start of `file_contents`. Gives the
/// metadata and the binary data that follows the block.
pub fn parse<'a>(file_contents: &'a [u8]) -> (r: Result<(Metadata<'a>, &'a [u8]), HeaderError>)
    ensures
        match header_block(file_contents@) {
            Some((lines, p)) => r matches Ok((m, rest)) && m@ == lines
                && rest@ == file_contents@.subrange(p, file_contents@.len() as int),
            None => r matches Err(HeaderError::ParseError { .. }),
        },
{
    match parse_header(file_contents) {
        Ok((rest, lines)) => Ok((Metadata { header: lines }, rest)),
        Err(e) => Err(e),
    }
}

/// The value of the first pair whose key is `key`.
pub fn lookup_bytes<'a>(metadata: &Metadata<'a>, key: &[u8]) -> (r: Option<&'a [u8]>)
    ensures
        opt_bytes(r) == first_value(metadata@, key@),
{
    let lines = &metadata.header;
    let mut i: usize = 0;
    assert(metadata@.subrange(0, lines@.len() as int) =~= metadata@);
    while i < lines.len()
        invariant
            i <= lines@.len(),
            metadata@ == lines@.map_values(|l: HeaderLine<'a>| l@),
            first_value(metadata@, key@) == first_value(metadata@.subrange(i as int, lines@.len() as int), key@),
        decreases lines@.len() - i,
    {
        let ghost rest = metadata@.subrange(i as int, lines@.len() as int);
        assert(rest.drop_first() =~= metadata@.subrange(i + 1, lines@.len() as int));
        assert(rest[0] == lines@[i as int]@);
        match lines[i] {
            HeaderLine::HeaderPair { key: k, value } => {
                if bytes_equal(k, key) {
                    return Some(value);
                }
            },
            HeaderLine::HeaderComment { .. } => {},
        }
        i = i + 1;
    }
    None
}

/// The value of the first pair whose key is `key`, if there is one.
pub fn lookup<'a>(metadata: &Metadata<'a>, key: &str) -> (r: Option<&'a [u8]>)
    ensures
        opt_bytes(r) == first_value(metadata@, key.spec_bytes()),
{
    lookup_bytes(metadata, key.as_bytes())
}

/// The value of the first pair whose key is `key`, or `UnknownKey` when no
/// pair has that key.
pub fn require<'a>(metadata: &Metadata<'a>, key: &str) -> (r: Result<&'a [u8], HeaderError>)
    ensures
        match first_value(metadata@, key.spec_bytes()) {
            Some(v) => r matches Ok(x) && x@ == v,
            None => r matches Err(HeaderError::UnknownKey { key: k }) && k@ == key@,
        },
{
    match lookup(metadata, key) {
        Some(v) => Ok(v),
        None => Err(HeaderError::UnknownKey { key: key.to_owned() }),
    }
}

/// The values of all pairs whose key is `key`, in header order.
pub fn lookup_multiple<'a>(metadata: Metadata<'a>, key: &str) -> (r: Vec<&'a [u8]>)
    ensures
        r@.map_values(|v: &'a [u8]| v@) == all_values(metadata@, key.spec_bytes()),
{
    let kb = key.as_bytes();
    let lines = &metadata.header;
    let mut found: Vec<&'a [u8]> = Vec::new();
    let mut i: usize = 0;
    assert(metadata@.subrange(0, lines@.len() as int) =~= metadata@);
    while i < lines.len()
        invariant
            i <= lines@.len(),
            kb@ == key.spec_bytes(),
            metadata@ == lines@.map_values(|l: HeaderLine<'a>| l@),
            all_values(metadata@, kb@) == found@.map_values(|v: &'a [u8]| v@)
                + all_values(metadata@.subrange(i as int, lines@.len() as int), kb@),
        decreases lines@.len() - i,
    {
        let ghost rest = metadata@.subrange(i as int, lines@.len() as int);
        let ghost before = found@.map_values(|v: &'a [u8]| v@);
        assert(rest.drop_first() =~= metadata@.subrange(i + 1, lines@.len() as int));
        assert(rest[0] == lines@[i as int]@);
        match lines[i] {
            HeaderLine::HeaderPair { key: k, value } => {
                if bytes_equal(k, kb) {
                    found.push(value);
                    assert(found@.map_values(|v: &'a [u8]| v@) =~= before + seq![value@]);
                    assert(before + (seq![value@] + all_values(rest.drop_first(), kb@))
                        =~= (before + seq![value@]) + all_values(rest.drop_first(), kb@));
                }
            },
            HeaderLine::HeaderComment { .. } => {},
        }
        i = i + 1;
    }
    assert(metadata@.subrange(i as int, lines@.len() as int) =~= Seq::<Line>::empty());
    assert(found@.map_values(|v: &'a [u8]| v@) + Seq::<Seq<u8>>::empty() =~= found@.map_values(|v: &'a [u8]| v@));
    found
}

proof fn lemma_first_value(lines: Seq<Line>, key: Seq<u8>)
    ensures
        first_value(lines, key) is None <==> (forall|i: int| 0 <= i < lines.len() ==> !has_key(#[trigger] lines[i], key)),
        first_value(lines, key) matches Some(v) ==> exists|i: int|
            0 <= i < lines.len() && lines[i] == (Line::Pair { key, value: v })
                && forall|j: int| 0 <= j < i ==> !has_key(#[trigger] lines[j], key),
    decreases lines.len(),
{
    if lines.len() > 0 {
        let tail = lines.drop_first();
        lemma_first_value(tail, key);
        assert forall|i: int| 1 <= i < lines.len() implies lines[i] == tail[i - 1] by {}
        if has_key(lines[0], key) {
            assert(forall|j: int| 0 <= j < 0 ==> !has_key(#[trigger] lines[j], key));
        } else {
            if let Some(v) = first_value(tail, key) {
                let i = choose|i: int|
                    0 <= i < tail.len() && tail[i] == (Line::Pair { key, value: v })
                        && forall|j: int| 0 <= j < i ==> !has_key(#[trigger] tail[j], key);
                assert(lines[i + 1] == tail[i]);
                assert forall|j: int| 0 <= j < i + 1 implies !has_key(#[trigger] lines[j], key) by {
                    if j > 0 {
                        assert(lines[j] == tail[j - 1]);
                    }
                }
            } else {
                assert forall|i: int| 0 <= i < lines.len() implies !has_key(#[trigger] lines[i], key) by {
                    if i > 0 {
                        assert(lines[i] == tail[i - 1]);
                    }
                }
            }
            if first_value(lines, key) is None {
                assert forall|i: int| 0 <= i < tail.len() implies !has_key(#[trigger] tail[i], key) by {
                    assert(tail[i] == lines[i + 1]);
                }
            }
        }
    }
}

/// In the lines of a well-formed header, a key's value is that of the
/// first pair with the key, and there is none exactly when no pair has it.
pub proof fn lookup_after_parse(s: Seq<u8>, key: Seq<u8>)
    requires
        header_block(s) is Some,
    ensures
        ({
            let lines = header_block(s).unwrap().0;
            &&& first_value(lines, key) is None <==> (forall|i: int| 0 <= i < lines.len() ==> !has_key(#[trigger] lines[i], key))
            &&& first_value(lines, key) matches Some(v) ==> exists|i: int|
                0 <= i < lines.len() && lines[i] == (Line::Pair { key, value: v })
                    && forall|j: int| 0 <= j < i ==> !has_key(#[trigger] lines[j], key)
        }),
{
    lemma_first_value(header_block(s).unwrap().0, key);
}

proof fn lemma_line_end_at(s: Seq<u8>, i: int, j: int)
    requires
        0 <= i <= j < s.len(),
        s[j] == NEWLINE,
        forall|k: int| i <= k < j ==> s[k] != NEWLINE,
    ensures
        line_end(s, i) == j,
    decreases j - i,
{
    if i < j {
        lemma_line_end_at(s, i + 1, j);
    }
}

proof fn lemma_key_end_at(s: Seq<u8>, i: int, j: int)
    requires
        0 <= i <= j < s.len(),
        s[j] == NEWLINE || s[j] == COLON,
        forall|k: int| i <= k < j ==> s[k] != NEWLINE && s[k] != COLON,
    ensures
        key_end(s, i) == j,
    decreases j - i,
{
    if i < j {
        lemma_key_end_at(s, i + 1, j);
    }
}

/// The text of a pair line: `% `, the key, a colon, the value.
pub open spec fn pair_text(key: Seq<u8>, value: Seq<u8>) -> Seq<u8> {
    seq![PERCENT, SPACE] + key + seq![COLON] + value
}

/// The text of a comment line: `% ` and the comment.
pub open spec fn comment_text(text: Seq<u8>) -> Seq<u8> {
    seq![PERCENT, SPACE] + text
}

/// A pair line written out and followed by a newline and more text parses
/// back to the pair, trimmed, and stops right before that newline.
pub proof fn pair_line_round_trip(key: Seq<u8>, value: Seq<u8>, rest: Seq<u8>)
    requires
        key.len() > 0,
        value.len() > 0,
        forall|i: int| 0 <= i < key.len() ==> key[i] != COLON && key[i] != NEWLINE,
        forall|i: int| 0 <= i < value.len() ==> value[i] != NEWLINE,
    ensures
        line_at(pair_text(key, value) + seq![NEWLINE] + rest, 0)
            == Some((Line::Pair { key: trim(key), value: trim(value) }, pair_text(key, value).len() as int)),
{
    let s = pair_text(key, value) + seq![NEWLINE] + rest;
    let c = key.len() as int + 2;
    let n: int = c + 1 + value.len();
    assert(s[0] == PERCENT && s[1] == SPACE);
    assert forall|k: int| 2 <= k < c implies s[k] == key[k - 2] by {}
    assert(s[c] == COLON);
    assert forall|k: int| c + 1 <= k < n implies s[k] == value[k - c - 1] by {}
    assert(s[n] == NEWLINE);
    lemma_key_end_at(s, 2, c);
    lemma_line_end_at(s, c + 1, n);
    assert(s.subrange(2, c) =~= key);
    assert(s.subrange(c + 1, n) =~= value);
}

/// A comment line without a colon, followed by a newline and more text,
/// parses back to the comment and stops right before that newline.
pub proof fn comment_line_round_trip(text: Seq<u8>, rest: Seq<u8>)
    requires
        forall|i: int| 0 <= i < text.len() ==> text[i] != COLON && text[i] != NEWLINE,
    ensures
        line_at(comment_text(text) + seq![NEWLINE] + rest, 0)
            == Some((Line::Comment { text }, comment_text(text).len() as int)),
{
    let s = comment_text(text) + seq![NEWLINE] + rest;
    let n = text.len() as int + 2;
    assert(s[0] == PERCENT && s[1] == SPACE);
    assert forall|k: int| 2 <= k < n implies s[k] == text[k - 2] by {}
    assert(s[n] == NEWLINE);
    lemma_key_end_at(s, 2, n);
    lemma_line_end_at(s, 2, n);
    assert(s.subrange(2, n) =~= text);
}

} // verus!
