use vstd::prelude::*;
use vstd::utf8::{decode_utf8, valid_utf8};

verus! {

// ---------------------------------------------------------------------------
// Specifications of the text operations used on command output.
// ---------------------------------------------------------------------------

/// Index of the first `'\n'` in `s` at or after `i`, or `s.len()` when there is none.
pub open spec fn line_end(s: Seq<char>, i: int) -> int
    decreases s.len() - i,
{
    if i >= s.len() {
        s.len() as int
    } else if s[i] == '\n' {
        i
    } else {
        line_end(s, i + 1)
    }
}

/// A line that was ended by `'\n'` loses one trailing `'\r'` (a `"\r\n"` ending).
pub open spec fn strip_cr(line: Seq<char>) -> Seq<char> {
    if line.len() > 0 && line.last() == '\r' {
        line.drop_last()
    } else {
        line
    }
}

pub proof fn lemma_line_end_bounds(s: Seq<char>, i: int)
    requires
        0 <= i <= s.len(),
    ensures
        i <= line_end(s, i) <= s.len(),
        line_end(s, i) < s.len() ==> s[line_end(s, i)] == '\n',
        forall|k: int| i <= k < line_end(s, i) ==> s[k] != '\n',
    decreases s.len() - i,
{
    if i < s.len() && s[i] != '\n' {
        lemma_line_end_bounds(s, i + 1);
    }
}

/// The lines of `s` from index `i` on, as `str::lines` yields them: split at
/// `'\n'`, a `"\r\n"` ending counts as one line ending, the terminators are not
/// part of the lines, and a final line ending adds no empty line.
pub open spec fn lines_from(s: Seq<char>, i: int) -> Seq<Seq<char>>
    decreases s.len() - i,
{
    if i < 0 || i >= s.len() {
        Seq::empty()
    } else {
        let e: int = line_end(s, i);
        proof {
            lemma_line_end_bounds(s, i);
        }
        if e < s.len() {
            seq![strip_cr(s.subrange(i, e))] + lines_from(s, e + 1)
        } else {
            seq![s.subrange(i, e)]
        }
    }
}

/// The lines of `s` (see `lines_from`).
pub open spec fn lines(s: Seq<char>) -> Seq<Seq<char>> {
    lines_from(s, 0)
}

/// Whether `sep` occurs in `s` starting at index `i`.
pub open spec fn matches_at(s: Seq<char>, sep: Seq<char>, i: int) -> bool {
    0 <= i && i + sep.len() <= s.len() && s.subrange(i, i + sep.len()) == sep
}

/// The first index at or after `i` where `sep` occurs in `s`.
pub open spec fn first_match(s: Seq<char>, sep: Seq<char>, i: int) -> Option<int>
    decreases s.len() - i,
{
    if i < 0 || i + sep.len() > s.len() {
        None
    } else if matches_at(s, sep, i) {
        Some(i)
    } else if i >= s.len() {
        None
    } else {
        first_match(s, sep, i + 1)
    }
}

pub proof fn lemma_first_match_matches(s: Seq<char>, sep: Seq<char>, i: int)
    ensures
        first_match(s, sep, i) matches Some(j) ==> matches_at(s, sep, j) && i <= j,
    decreases s.len() - i,
{
    if !(i < 0 || i + sep.len() > s.len()) && !matches_at(s, sep, i) && i < s.len() {
        lemma_first_match_matches(s, sep, i + 1);
    }
}

/// `str::split_once`: the text before and after the first occurrence of `sep`.
pub open spec fn split_once(s: Seq<char>, sep: Seq<char>) -> Option<(Seq<char>, Seq<char>)> {
    match first_match(s, sep, 0) {
        Some(i) => Some((s.take(i), s.skip(i + sep.len()))),
        None => None,
    }
}

/// `str::starts_with` for a string prefix.
pub open spec fn starts_with(s: Seq<char>, prefix: Seq<char>) -> bool {
    prefix.len() <= s.len() && s.take(prefix.len() as int) == prefix
}

/// Whether `c` has the Unicode property White_Space (as `char::is_whitespace`).
pub open spec fn is_white_space(c: char) -> bool {
    let n = c as u32;
    ||| 0x09 <= n <= 0x0d
    ||| n == 0x20
    ||| n == 0x85
    ||| n == 0xa0
    ||| n == 0x1680
    ||| 0x2000 <= n <= 0x200a
    ||| n == 0x2028
    ||| n == 0x2029
    ||| n == 0x202f
    ||| n == 0x205f
    ||| n == 0x3000
}

/// The index of the first white space in `s` at or after `i`, or `s.len()`.
pub open spec fn word_end(s: Seq<char>, i: int) -> int
    decreases s.len() - i,
{
    if i >= s.len() {
        s.len() as int
    } else if is_white_space(s[i]) {
        i
    } else {
        word_end(s, i + 1)
    }
}

pub proof fn lemma_word_end_bounds(s: Seq<char>, i: int)
    requires
        0 <= i <= s.len(),
    ensures
        i <= word_end(s, i) <= s.len(),
        i < s.len() && !is_white_space(s[i]) ==> i < word_end(s, i),
    decreases s.len() - i,
{
    if i < s.len() && !is_white_space(s[i]) {
        lemma_word_end_bounds(s, i + 1);
    }
}

/// The words of `s` from index `i` on: the maximal runs of characters that
/// are not white space, in order.
pub open spec fn words_from(s: Seq<char>, i: int) -> Seq<Seq<char>>
    decreases s.len() - i,
{
    if i < 0 || i >= s.len() {
        Seq::empty()
    } else if is_white_space(s[i]) {
        words_from(s, i + 1)
    } else {
        let e = word_end(s, i);
        proof {
            lemma_word_end_bounds(s, i);
        }
        seq![s.subrange(i, e)] + words_from(s, e)
    }
}

/// `str::split_whitespace`: the words of `s`, split at any amount of white space.
pub open spec fn whitespace_words(s: Seq<char>) -> Seq<Seq<char>> {
    words_from(s, 0)
}

/// The pieces of `list` with `sep` between each two neighbours.
pub open spec fn seq_join(list: Seq<Seq<char>>, sep: Seq<char>) -> Seq<char>
    decreases list.len(),
{
    if list.len() == 0 {
        Seq::empty()
    } else if list.len() == 1 {
        list[0]
    } else {
        seq_join(list.drop_last(), sep) + sep + list.last()
    }
}

/// The views of a vector of strings.
pub open spec fn string_views(v: Seq<String>) -> Seq<Seq<char>> {
    v.map_values(|x: String| x@)
}

// ---------------------------------------------------------------------------
// Executable text operations.
// ---------------------------------------------------------------------------

/// The characters of `s`, in order.
pub fn chars_of(s: &str) -> (out: Vec<char>)
    ensures
        out@ == s@,
{
    let mut out: Vec<char> = Vec::new();
    for c in it: s.chars()
        invariant
            out@ == it.seq().take(it.index() as int),
            it.seq() == s@,
    {
        out.push(c);
    }
    out
}

/// Whether `s` begins with `prefix`.
pub fn has_prefix(s: &str, prefix: &str) -> (b: bool)
    ensures
        b == starts_with(s@, prefix@),
{
    let sc = chars_of(s);
    let pc = chars_of(prefix);
    if pc.len() > sc.len() {
        return false;
    }
    let mut i: usize = 0;
    while i < pc.len()
        invariant
            pc@ == prefix@,
            sc@ == s@,
            pc.len() <= sc.len(),
            i <= pc.len(),
            forall|k: int| 0 <= k < i ==> sc@[k] == pc@[k],
        decreases pc.len() - i,
    {
        if sc[i] != pc[i] {
            assert(s@.take(prefix@.len() as int)[i as int] != prefix@[i as int]);
            return false;
        }
        i = i + 1;
    }
    assert(s@.take(prefix@.len() as int) =~= prefix@);
    true
}

/// Whether `sep` occurs in `s` at index `i`.
fn occurs_at(s: &Vec<char>, sep: &Vec<char>, i: usize) -> (b: bool)
    requires
        i + sep@.len() <= s@.len(),
    ensures
        b == matches_at(s@, sep@, i as int),
{
    let mut k: usize = 0;
    while k < sep.len()
        invariant
            i + sep@.len() <= s@.len(),
            s@.len() == s.len(),
            sep@.len() == sep.len(),
            k <= sep@.len(),
            forall|j: int| 0 <= j < k ==> s@[i + j] == sep@[j],
        decreases sep.len() - k,
    {
        if s[i + k] != sep[k] {
            assert(s@.subrange(i as int, i + sep@.len())[k as int] != sep@[k as int]);
            return false;
        }
        k = k + 1;
    }
    assert(s@.subrange(i as int, i + sep@.len()) =~= sep@);
    true
}

/// The first index at which `sep` occurs in `s`.
fn find(s: &Vec<char>, sep: &Vec<char>) -> (r: Option<usize>)
    ensures
        r matches Some(i) ==> first_match(s@, sep@, 0) == Some(i as int),
        r is None ==> first_match(s@, sep@, 0) is None,
{
    if sep.len() > s.len() {
        return None;
    }
    let mut i: usize = 0;
    while i <= s.len() - sep.len()
        invariant
            sep@.len() <= s@.len(),
            i <= s@.len(),
            first_match(s@, sep@, 0) == first_match(s@, sep@, i as int),
        decreases s.len() - i,
    {
        if occurs_at(s, sep, i) {
            return Some(i);
        }
        if i >= s.len() {
            return None;
        }
        i = i + 1;
    }
    None
}

/// `s.split_once(sep)`: the text before and after the first occurrence of `sep`.
pub fn split_once_str(s: &str, sep: &str) -> (r: Option<(String, String)>)
    ensures
        r is Some <==> split_once(s@, sep@) is Some,
        r matches Some(p) ==> split_once(s@, sep@) == Some((p.0@, p.1@)),
{
    let sc = chars_of(s);
    let pc = chars_of(sep);
    match find(&sc, &pc) {
        Some(i) => {
            proof {
                lemma_first_match_matches(s@, sep@, 0);
                assert(matches_at(s@, sep@, i as int));
                assert(pc@.len() == sep@.len());
                assert(i + pc.len() <= sc.len());
            }
            let before = s.substring_char(0, i).to_owned();
            let after = s.substring_char(i + pc.len(), sc.len()).to_owned();
            assert(before@ =~= s@.take(i as int));
            assert(after@ =~= s@.skip(i + sep@.len()));
            Some((before, after))
        },
        None => None,
    }
}

/// `s.lines()`, each line copied into a `String`.
pub fn lines_of(s: &str) -> (out: Vec<String>)
    ensures
        string_views(out@) == lines(s@),
{
    let v = chars_of(s);
    let n: usize = v.len();
    let mut out: Vec<String> = Vec::new();
    let mut start: usize = 0;
    let mut i: usize = 0;
    proof {
        assert(string_views(out@) + lines_from(s@, 0) =~= lines_from(s@, 0));
    }
    while i < n
        invariant
            n == v@.len(),
            v@ == s@,
            start <= i <= n,
            lines_from(s@, 0) == string_views(out@) + lines_from(s@, start as int),
            line_end(s@, start as int) == line_end(s@, i as int),
        decreases n - i,
    {
        if v[i] == '\n' {
            let mut e: usize = i;
            if e > start && v[e - 1] == '\r' {
                e = e - 1;
            }
            let line = s.substring_char(start, e).to_owned();
            proof {
                lemma_line_end_bounds(s@, start as int);
                assert(line@ =~= strip_cr(s@.subrange(start as int, i as int)));
                assert(string_views(out@.push(line)) =~= string_views(out@).push(line@));
            }
            out.push(line);
            proof {
                assert(lines_from(s@, 0) =~= string_views(out@) + lines_from(s@, i + 1));
            }
            start = i + 1;
        }
        i = i + 1;
    }
    if start < n {
        let line = s.substring_char(start, n).to_owned();
        proof {
            lemma_line_end_bounds(s@, start as int);
            assert(string_views(out@.push(line)) =~= string_views(out@).push(line@));
        }
        out.push(line);
        proof {
            assert(lines_from(s@, 0) =~= string_views(out@));
        }
    } else {
        proof {
            assert(lines_from(s@, 0) =~= string_views(out@));
        }
    }
    out
}

/// `String::from_utf8`. Trusted (as std documents it): `Some` exactly when the
/// bytes are valid UTF-8, holding the characters they encode.
#[verifier::external_body]
fn string_from_utf8(bytes: Vec<u8>) -> (s: Option<String>)
    ensures
        s is Some <==> valid_utf8(bytes@),
        s matches Some(s) ==> s@ == decode_utf8(bytes@),
{
    match String::from_utf8(bytes) {
        Ok(s) => Some(s),
        Err(_) => None,
    }
}

/// The text of a command's standard output, or `None` when it is not valid UTF-8.
pub fn output_text(stdout: Vec<u8>) -> (text: Option<String>)
    ensures
        text is Some <==> valid_utf8(stdout@),
        text matches Some(s) ==> s@ == decode_utf8(stdout@),
{
    string_from_utf8(stdout)
}

} // verus!
