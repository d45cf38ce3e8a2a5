//! Cursor tokenizer: extracts substrings from a fixed line of text relative
//! to a single advancing cursor, with no backtracking.

use vstd::prelude::*;

verus! {

use crate::text::chars_range_to_string;
use crate::text::str_to_chars;
use vstd::string::*;

/// First index at or after `from` where character `c` occurs in `s`.
pub open spec fn find_char_from(s: Seq<char>, from: int, c: char) -> Option<int>
    decreases s.len() - from,
{
    if from < 0 || from >= s.len() {
        None
    } else if s[from] == c {
        Some(from)
    } else {
        find_char_from(s, from + 1, c)
    }
}

/// What `find_char_from` returns: the first occurrence of `c`, or nothing.
pub proof fn lemma_find_char_from(s: Seq<char>, from: int, c: char)
    requires
        0 <= from <= s.len(),
    ensures
        (match find_char_from(s, from, c) {
            Some(j) => from <= j < s.len() && s[j] == c && (forall|k: int|
                from <= k < j ==> s[k] != c),
            None => forall|k: int| from <= k < s.len() ==> s[k] != c,
        }),
    decreases s.len() - from,
{
    if from < s.len() && s[from] != c {
        lemma_find_char_from(s, from + 1, c);
    }
}

/// True when `pat` occurs in `s` starting exactly at `at`.
pub open spec fn match_at(s: Seq<char>, at: int, pat: Seq<char>) -> bool {
    &&& 0 <= at
    &&& at + pat.len() <= s.len()
    &&& s.subrange(at, at + pat.len() as int) == pat
}

/// First index at or after `from` where `pat` occurs in `s` as a block.
pub open spec fn find_sub_from(s: Seq<char>, from: int, pat: Seq<char>) -> Option<int>
    decreases s.len() - from + 1,
{
    if from < 0 || from + pat.len() > s.len() {
        None
    } else if match_at(s, from, pat) {
        Some(from)
    } else {
        find_sub_from(s, from + 1, pat)
    }
}

/// What `find_sub_from` returns: the first block match of `pat`, or nothing.
pub proof fn lemma_find_sub_from(s: Seq<char>, from: int, pat: Seq<char>)
    requires
        0 <= from,
    ensures
        (match find_sub_from(s, from, pat) {
            Some(j) => from <= j && match_at(s, j, pat) && (forall|k: int|
                from <= k < j ==> !match_at(s, k, pat)),
            None => forall|k: int| from <= k ==> !match_at(s, k, pat),
        }),
    decreases s.len() - from + 1,
{
    if from + pat.len() > s.len() {
        assert forall|k: int| from <= k implies !match_at(s, k, pat) by {}
    } else if !match_at(s, from, pat) {
        lemma_find_sub_from(s, from + 1, pat);
    }
}

/// The views of a list of string slices.
pub open spec fn views_of(ds: Seq<&str>) -> Seq<Seq<char>> {
    ds.map_values(|d: &str| d@)
}

/// Earliest match among several delimiters, as a pair of match position and
/// matched delimiter length; on a tie for position the delimiter listed
/// first wins.
pub open spec fn find_first_delim(s: Seq<char>, from: int, ds: Seq<Seq<char>>) -> Option<(int, int)>
    decreases ds.len(),
{
    if ds.len() == 0 {
        None
    } else {
        let rest = find_first_delim(s, from, ds.drop_first());
        match (find_sub_from(s, from, ds[0]), rest) {
            (None, r) => r,
            (Some(p), None) => Some((p, ds[0].len() as int)),
            (Some(p), Some((q, l))) => if p <= q {
                Some((p, ds[0].len() as int))
            } else {
                Some((q, l))
            },
        }
    }
}

proof fn lemma_find_first_delim_snoc(s: Seq<char>, from: int, ds: Seq<Seq<char>>, d: Seq<char>)
    ensures
        find_first_delim(s, from, ds.push(d)) == (match (
            find_first_delim(s, from, ds),
            find_sub_from(s, from, d),
        ) {
            (None, None) => None::<(int, int)>,
            (None, Some(p)) => Some((p, d.len() as int)),
            (Some((q, l)), None) => Some((q, l)),
            (Some((q, l)), Some(p)) => if q <= p {
                Some((q, l))
            } else {
                Some((p, d.len() as int))
            },
        }),
    decreases ds.len(),
{
    reveal_with_fuel(find_first_delim, 3);
    if ds.len() == 0 {
        assert(ds.push(d).drop_first() =~= Seq::<Seq<char>>::empty());
        assert(ds.push(d)[0] == d);
    } else {
        lemma_find_first_delim_snoc(s, from, ds.drop_first(), d);
        assert(ds.push(d).drop_first() =~= ds.drop_first().push(d));
        assert(ds.push(d)[0] == ds[0]);
    }
}

/// A line of text with a monotonically advancing cursor into it.
#[derive(Debug)]
pub struct Tokenizer {
    line: Vec<char>,
    cursor: usize,
}

impl Tokenizer {
    /// The characters of the line under the cursor.
    pub closed spec fn text(&self) -> Seq<char> {
        self.line@
    }

    /// The cursor offset, in characters.
    pub closed spec fn pos(&self) -> int {
        self.cursor as int
    }

    /// The cursor never lies outside the line.
    pub open spec fn wf(&self) -> bool {
        0 <= self.pos() <= self.text().len()
    }

    pub fn new(line: &str) -> (t: Tokenizer)
        ensures
            t.wf(),
            t.text() == line@,
            t.pos() == 0,
    {
        Tokenizer { line: str_to_chars(line), cursor: 0 }
    }

    /// Text strictly before the first occurrence of `ch` at or after the
    /// cursor; consumes that text and the delimiter. Nothing, and an
    /// unchanged cursor, when `ch` does not occur.
    pub fn read_to(&mut self, ch: char) -> (r: Option<String>)
        requires
            old(self).wf(),
        ensures
            final(self).wf(),
            final(self).text() == old(self).text(),
            final(self).pos() >= old(self).pos(),
            (match find_char_from(old(self).text(), old(self).pos(), ch) {
                Some(j) => r matches Some(part) && part@ == old(self).text().subrange(
                    old(self).pos(),
                    j,
                ) && final(self).pos() == j + 1,
                None => r is None && final(self).pos() == old(self).pos(),
            }),
    {
        let ghost s = old(self).text();
        let ghost c0 = old(self).pos();
        let n = self.line.len();
        let mut i: usize = self.cursor;
        while i < n
            invariant
                self.wf(),
                self.line@ == s,
                self.cursor as int == c0,
                s == old(self).text(),
                c0 == old(self).pos(),
                n == s.len(),
                c0 <= i as int <= s.len(),
                find_char_from(s, c0, ch) == find_char_from(s, i as int, ch),
            decreases n - i,
        {
            if self.line[i] == ch {
                let part = chars_range_to_string(&self.line, self.cursor, i);
                self.cursor = i + 1;
                return Some(part);
            }
            i += 1;
        }
        None
    }

    /// Text strictly before the earliest match among the given delimiters;
    /// consumes that text and the matched delimiter. On a tie for position
    /// the delimiter listed first wins.
    pub fn read_to_any(&mut self, delimiters: &[&str]) -> (r: Option<String>)
        requires
            old(self).wf(),
        ensures
            final(self).wf(),
            final(self).text() == old(self).text(),
            final(self).pos() >= old(self).pos(),
            (match find_first_delim(old(self).text(), old(self).pos(), views_of(delimiters@)) {
                Some((p, l)) => r matches Some(part) && part@ == old(self).text().subrange(
                    old(self).pos(),
                    p,
                ) && final(self).pos() == p + l,
                None => r is None && final(self).pos() == old(self).pos(),
            }),
    {
        let ghost s = old(self).text();
        let ghost c0 = old(self).pos();
        let ghost ds = views_of(delimiters@);
        let n = self.line.len();
        let mut best_pos: usize = 0;
        let mut best_len: usize = 0;
        let mut have: bool = false;
        let mut d: usize = 0;
        while d < delimiters.len()
            invariant
                self.wf(),
                self.line@ == s,
                self.cursor as int == c0,
                s == old(self).text(),
                c0 == old(self).pos(),
                n == s.len(),
                d <= delimiters@.len(),
                ds == views_of(delimiters@),
                ds.len() == delimiters@.len(),
                have ==> c0 <= best_pos as int && best_pos + best_len <= n,
                (match find_first_delim(s, c0, ds.take(d as int)) {
                    Some((p, l)) => have && best_pos as int == p && best_len as int == l,
                    None => !have,
                }),
            decreases delimiters@.len() - d,
        {
            let pat: &str = delimiters[d];
            let f = find_sub_in(&self.line, self.cursor, pat);
            proof {
                lemma_find_first_delim_snoc(s, c0, ds.take(d as int), ds[d as int]);
                assert(ds.take(d as int).push(ds[d as int]) =~= ds.take(d as int + 1));
                assert(ds[d as int] == pat@);
                if f is Some {
                    lemma_find_sub_from(s, c0, pat@);
                }
            }
            match f {
                Some(p) => {
                    if !have || p < best_pos {
                        have = true;
                        best_pos = p;
                        best_len = pat.unicode_len();
                    }
                },
                None => {},
            }
            d += 1;
        }
        proof {
            assert(ds.take(ds.len() as int) =~= ds);
        }
        if have {
            let part = chars_range_to_string(&self.line, self.cursor, best_pos);
            self.cursor = best_pos + best_len;
            Some(part)
        } else {
            None
        }
    }

    /// `read_to_any` with a single delimiter string.
    pub fn read_to_str(&mut self, s: &str) -> (r: Option<String>)
        requires
            old(self).wf(),
        ensures
            final(self).wf(),
            final(self).text() == old(self).text(),
            final(self).pos() >= old(self).pos(),
            (match find_sub_from(old(self).text(), old(self).pos(), s@) {
                Some(j) => r matches Some(part) && part@ == old(self).text().subrange(
                    old(self).pos(),
                    j,
                ) && final(self).pos() == j + s@.len(),
                None => r is None && final(self).pos() == old(self).pos(),
            }),
    {
        let ghost t0 = *self;
        let arr = [s];
        let r = self.read_to_any(&arr);
        proof {
            let ds = views_of(arr@);
            assert(ds.drop_first() =~= Seq::<Seq<char>>::empty());
            assert(ds[0] == s@);
            assert(find_first_delim(t0.text(), t0.pos(), ds.drop_first()) is None);
        }
        r
    }

    /// The remainder of the line from the cursor to the end; nothing when the
    /// cursor already stands at the end.
    pub fn read(&mut self) -> (r: Option<String>)
        requires
            old(self).wf(),
        ensures
            final(self).wf(),
            final(self).text() == old(self).text(),
            final(self).pos() >= old(self).pos(),
            (if old(self).pos() == old(self).text().len() {
                r is None && final(self).pos() == old(self).pos()
            } else {
                r matches Some(part) && part@ == old(self).text().subrange(
                    old(self).pos(),
                    old(self).text().len() as int,
                ) && final(self).pos() == old(self).text().len()
            }),
    {
        if self.cursor == self.line.len() {
            return None;
        }
        let part = chars_range_to_string(&self.line, self.cursor, self.line.len());
        self.cursor = self.line.len();
        Some(part)
    }

    /// The character at the cursor, without advancing.
    pub fn peek(&self) -> (r: Option<char>)
        requires
            self.wf(),
        ensures
            (if self.pos() == self.text().len() {
                r is None
            } else {
                r == Some(self.text()[self.pos()])
            }),
    {
        if self.cursor == self.line.len() {
            None
        } else {
            Some(self.line[self.cursor])
        }
    }

    /// True when the text at the cursor begins with `expected`.
    pub fn starts_with(&self, expected: &str) -> (r: bool)
        requires
            self.wf(),
        ensures
            r == match_at(self.text(), self.pos(), expected@),
    {
        let pl = expected.unicode_len();
        let n = self.line.len();
        if pl > n - self.cursor {
            return false;
        }
        chars_match_at(&self.line, self.cursor, expected)
    }

    /// Consumes text that the caller has already established to stand at the
    /// cursor. A mismatch is a contract violation by the caller, not an
    /// input error.
    pub fn match_str(&mut self, expected: &str)
        requires
            old(self).wf(),
            match_at(old(self).text(), old(self).pos(), expected@),
        ensures
            final(self).wf(),
            final(self).text() == old(self).text(),
            final(self).pos() == old(self).pos() + expected@.len(),
    {
        let n = expected.unicode_len();
        let total = self.line.len();
        proof {
            assert(self.cursor + n <= total);
        }
        self.cursor = self.cursor + n;
    }
}

/// First block match of `pat` in `line` at or after `from`.
fn find_sub_in(line: &Vec<char>, from: usize, pat: &str) -> (r: Option<usize>)
    requires
        from <= line@.len(),
    ensures
        (match find_sub_from(line@, from as int, pat@) {
            Some(j) => r matches Some(p) && p as int == j,
            None => r is None,
        }),
{
    let n = line.len();
    let pl = pat.unicode_len();
    if pl > n - from {
        return None;
    }
    if pl == 0 {
        proof {
            assert(line@.subrange(from as int, from as int) =~= pat@);
        }
        return Some(from);
    }
    let mut i: usize = from;
    while i <= n - pl
        invariant
            from <= i,
            i + pl <= n + 1,
            1 <= pl,
            from + pl <= n,
            n == line@.len(),
            pl == pat@.len(),
            find_sub_from(line@, from as int, pat@) == find_sub_from(line@, i as int, pat@),
        decreases n - i,
    {
        if chars_match_at(line, i, pat) {
            return Some(i);
        }
        i += 1;
    }
    None
}

/// True when the characters of `pat` stand in `line` starting at `at`.
fn chars_match_at(line: &Vec<char>, at: usize, pat: &str) -> (r: bool)
    requires
        at + pat@.len() <= line@.len(),
    ensures
        r == match_at(line@, at as int, pat@),
{
    let n = line.len();
    let pl = pat.unicode_len();
    let mut k: usize = 0;
    while k < pl
        invariant
            at + pl <= n,
            n == line@.len(),
            pl == pat@.len(),
            k <= pl,
            forall|t: int| 0 <= t < k ==> line@[at as int + t] == pat@[t],
        decreases pl - k,
    {
        if line[at + k] != pat.get_char(k) {
            proof {
                let sub = line@.subrange(at as int, at as int + pat@.len() as int);
                assert(sub[k as int] == line@[at as int + k as int]);
            }
            return false;
        }
        k += 1;
    }
    proof {
        assert(line@.subrange(at as int, at as int + pat@.len() as int) =~= pat@);
    }
    true
}

} // verus!
