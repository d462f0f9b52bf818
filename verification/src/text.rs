//! Operations on texts, character by character.
use vstd::prelude::*;
use vstd::slice::slice_subrange;

verus! {

/// `String::push`: appends the character to the end of the text.
pub assume_specification[ String::push ](s: &mut String, c: char)
    ensures
        final(s)@ == old(s)@.push(c),
;

/// The characters of a text that may be missing.
pub open spec fn opt_view(s: Option<String>) -> Option<Seq<char>> {
    match s {
        Some(s) => Some(s@),
        None => None,
    }
}

/// Whether two texts hold the same characters.
pub fn same(a: &str, b: &str) -> (equal: bool)
    ensures
        equal == (a@ == b@),
{
    a.to_owned() == b.to_owned()
}

/// Takes a text apart.
pub fn chars_of(s: &str) -> (chars: Vec<char>)
    ensures
        chars@ == s@,
{
    let mut chars: Vec<char> = Vec::new();
    for c in it: s.chars()
        invariant
            it.seq() == s@,
            chars@ == it.seq().take(it.index()),
    {
        chars.push(c);
    }
    assert(s@.take(s@.len() as int) =~= s@);
    chars
}

/// Puts a text together.
pub fn string_of(chars: &[char]) -> (s: String)
    ensures
        s@ == chars@,
{
    let mut s = String::new();
    let mut i: usize = 0;
    while i < chars.len()
        invariant
            i <= chars@.len(),
            s@ == chars@.take(i as int),
        decreases chars.len() - i,
    {
        s.push(chars[i]);
        i = i + 1;
        assert(s@ =~= chars@.take(i as int));
    }
    assert(chars@.take(i as int) =~= chars@);
    s
}

// Whitespace

/// The characters with the Unicode property White_Space.
pub open spec fn white(c: char) -> bool {
    ||| '\u{9}' <= c <= '\u{d}'
    ||| c == ' '
    ||| c == '\u{85}'
    ||| c == '\u{a0}'
    ||| c == '\u{1680}'
    ||| '\u{2000}' <= c <= '\u{200a}'
    ||| c == '\u{2028}'
    ||| c == '\u{2029}'
    ||| c == '\u{202f}'
    ||| c == '\u{205f}'
    ||| c == '\u{3000}'
}

/// A text without the whitespace before its first other character.
pub open spec fn trimmed_start(s: Seq<char>) -> Seq<char>
    decreases s.len(),
{
    if s.len() > 0 && white(s.first()) {
        trimmed_start(s.drop_first())
    } else {
        s
    }
}

/// A text without the whitespace after its last other character.
pub open spec fn trimmed_end(s: Seq<char>) -> Seq<char>
    decreases s.len(),
{
    if s.len() > 0 && white(s.last()) {
        trimmed_end(s.drop_last())
    } else {
        s
    }
}

/// A text without leading and trailing whitespace.
pub open spec fn trimmed(s: Seq<char>) -> Seq<char> {
    trimmed_end(trimmed_start(s))
}

pub fn is_white(c: char) -> (yes: bool)
    ensures
        yes == white(c),
{
    ('\u{9}' <= c && c <= '\u{d}') || c == ' ' || c == '\u{85}' || c == '\u{a0}' || c == '\u{1680}'
        || ('\u{2000}' <= c && c <= '\u{200a}') || c == '\u{2028}' || c == '\u{2029}' || c
        == '\u{202f}' || c == '\u{205f}' || c == '\u{3000}'
}

/// Removes leading and trailing whitespace.
pub fn trim_chars(s: &[char]) -> (t: &[char])
    ensures
        t@ == trimmed(s@),
{
    let mut i: usize = 0;
    assert(s@.skip(0) =~= s@);
    while i < s.len() && is_white(s[i])
        invariant
            i <= s@.len(),
            trimmed_start(s@) == trimmed_start(s@.skip(i as int)),
        decreases s.len() - i,
    {
        assert(s@.skip(i as int).drop_first() =~= s@.skip(i + 1));
        i = i + 1;
    }
    let ghost rest = s@.skip(i as int);
    let mut j: usize = s.len();
    assert(rest.take(j - i) =~= rest);
    while j > i && is_white(s[j - 1])
        invariant
            i <= j <= s@.len(),
            rest == s@.skip(i as int),
            trimmed_end(rest) == trimmed_end(rest.take(j - i)),
        decreases j,
    {
        assert(rest.take(j - i).drop_last() =~= rest.take(j - i - 1));
        j = j - 1;
    }
    assert(rest.take(j - i) =~= s@.subrange(i as int, j as int));
    slice_subrange(s, i, j)
}

/// Removes leading and trailing whitespace.
pub fn trim(s: &str) -> (t: String)
    ensures
        t@ == trimmed(s@),
{
    let chars = chars_of(s);
    string_of(trim_chars(chars.as_slice()))
}

// Replacement

/// A text with every occurrence of a pattern replaced, from left to right and
/// without overlap.
pub open spec fn replaced(s: Seq<char>, pattern: Seq<char>, with: Seq<char>) -> Seq<char>
    decreases s.len(),
{
    if s.len() < pattern.len() || pattern.len() == 0 {
        s
    } else if s.take(pattern.len() as int) == pattern {
        with + replaced(s.skip(pattern.len() as int), pattern, with)
    } else {
        seq![s.first()] + replaced(s.drop_first(), pattern, with)
    }
}

/// Whether a text holds a pattern at a place.
pub open spec fn occurs_at(s: Seq<char>, pattern: Seq<char>, at: int) -> bool {
    0 <= at && at + pattern.len() <= s.len() && s.subrange(at, at + pattern.len()) == pattern
}

/// Whether a text holds a pattern.
pub open spec fn occurs(s: Seq<char>, pattern: Seq<char>) -> bool {
    exists|at: int| occurs_at(s, pattern, at)
}

fn is_at(s: &[char], pattern: &[char], at: usize) -> (yes: bool)
    requires
        at <= s@.len(),
    ensures
        yes == occurs_at(s@, pattern@, at as int),
{
    if pattern.len() > s.len() - at {
        return false;
    }
    let len: usize = s.len();
    let mut k: usize = 0;
    while k < pattern.len()
        invariant
            k <= pattern@.len(),
            len == s@.len(),
            at + pattern@.len() <= len,
            forall|m: int| 0 <= m < k ==> s@[at + m] == pattern@[m],
        decreases pattern.len() - k,
    {
        if s[at + k] != pattern[k] {
            assert(s@.subrange(at as int, at + pattern@.len())[k as int] != pattern@[k as int]);
            return false;
        }
        k = k + 1;
    }
    assert(s@.subrange(at as int, at + pattern@.len()) =~= pattern@);
    true
}

/// Whether a text holds a pattern.
pub fn contains(s: &str, pattern: &str) -> (yes: bool)
    ensures
        yes == occurs(s@, pattern@),
{
    let chars = chars_of(s);
    let wanted = chars_of(pattern);
    let mut i: usize = 0;
    while i < chars.len()
        invariant
            chars@ == s@,
            wanted@ == pattern@,
            i <= chars@.len(),
            forall|at: int| 0 <= at < i ==> !occurs_at(s@, pattern@, at),
        decreases chars.len() - i,
    {
        if is_at(chars.as_slice(), wanted.as_slice(), i) {
            return true;
        }
        i = i + 1;
    }
    let found = is_at(chars.as_slice(), wanted.as_slice(), i);
    assert(forall|at: int| occurs_at(s@, pattern@, at) ==> at <= s@.len());
    found
}

/// Replaces every occurrence of a pattern, from left to right.
pub fn replace(s: &str, pattern: &str, with: &str) -> (t: String)
    requires
        pattern@.len() > 0,
    ensures
        t@ == replaced(s@, pattern@, with@),
{
    let s = chars_of(s);
    let pattern = chars_of(pattern);
    let with = chars_of(with);
    let mut out: Vec<char> = Vec::new();
    let mut i: usize = 0;
    assert(out@ + replaced(s@.skip(0), pattern@, with@) =~= replaced(s@, pattern@, with@)) by {
        assert(s@.skip(0) =~= s@);
    }
    while i < s.len()
        invariant
            pattern@.len() > 0,
            i <= s@.len(),
            out@ + replaced(s@.skip(i as int), pattern@, with@) == replaced(s@, pattern@, with@),
        decreases s.len() - i,
    {
        let ghost rest = s@.skip(i as int);
        let ghost before = out@;
        if is_at(s.as_slice(), pattern.as_slice(), i) {
            assert(rest.take(pattern@.len() as int) =~= s@.subrange(
                i as int,
                i + pattern@.len(),
            ));
            let mut k: usize = 0;
            while k < with.len()
                invariant
                    k <= with@.len(),
                    out@ == before + with@.take(k as int),
                decreases with.len() - k,
            {
                out.push(with[k]);
                k = k + 1;
                assert(out@ =~= before + with@.take(k as int));
            }
            assert(with@.take(k as int) =~= with@);
            i = i + pattern.len();
            assert(rest.skip(pattern@.len() as int) =~= s@.skip(i as int));
            assert(before + (with@ + replaced(s@.skip(i as int), pattern@, with@)) =~= out@
                + replaced(s@.skip(i as int), pattern@, with@));
        } else {
            proof {
                if rest.len() >= pattern@.len() {
                    assert(rest.take(pattern@.len() as int) =~= s@.subrange(
                        i as int,
                        i + pattern@.len(),
                    ));
                    assert(rest.drop_first() =~= s@.skip(i + 1));
                } else {
                    assert(rest =~= seq![rest.first()] + s@.skip(i + 1));
                }
            }
            out.push(s[i]);
            i = i + 1;
            assert(before + (seq![rest.first()] + replaced(s@.skip(i as int), pattern@, with@))
                =~= out@ + replaced(s@.skip(i as int), pattern@, with@));
        }
    }
    assert(out@ =~= replaced(s@, pattern@, with@));
    string_of(out.as_slice())
}

// Splitting

/// What stands before the first separator; all of it where there is none.
pub open spec fn before(s: Seq<char>, separator: char) -> Seq<char>
    decreases s.len(),
{
    if s.len() == 0 || s.first() == separator {
        Seq::empty()
    } else {
        seq![s.first()] + before(s.drop_first(), separator)
    }
}

/// What stands behind the first separator; nothing where there is none.
pub open spec fn behind(s: Seq<char>, separator: char) -> Seq<char> {
    if s.contains(separator) {
        s.skip(before(s, separator).len() as int + 1)
    } else {
        Seq::empty()
    }
}

/// What stands behind the last separator; all of it where there is none.
pub open spec fn behind_last(s: Seq<char>, separator: char) -> Seq<char>
    decreases s.len(),
{
    if s.len() == 0 || s.last() == separator {
        Seq::empty()
    } else {
        behind_last(s.drop_last(), separator).push(s.last())
    }
}

/// What stands before the last separator; nothing where there is none.
pub open spec fn before_last(s: Seq<char>, separator: char) -> Seq<char> {
    if s.contains(separator) {
        s.take(s.len() - behind_last(s, separator).len() - 1)
    } else {
        Seq::empty()
    }
}

/// Where the first separator stands.
pub proof fn lemma_before_behind(s: Seq<char>, separator: char)
    ensures
        before(s, separator) == s.take(before(s, separator).len() as int),
        before(s, separator).len() <= s.len(),
        forall|i: int| 0 <= i < before(s, separator).len() ==> s[i] != separator,
        s.contains(separator) <==> before(s, separator).len() < s.len(),
        s.contains(separator) ==> s[before(s, separator).len() as int] == separator,
    decreases s.len(),
{
    if s.len() > 0 && s.first() != separator {
        let rest = s.drop_first();
        let n = before(rest, separator).len() as int;
        lemma_before_behind(rest, separator);
        assert(before(s, separator) =~= s.take(n + 1));
        assert forall|i: int| 0 <= i < n + 1 implies s[i] != separator by {
            if i > 0 {
                assert(rest[i - 1] == s[i]);
            }
        }
        if n < rest.len() {
            assert(s[n + 1] == rest[n]);
        }
    } else {
        assert(before(s, separator) =~= s.take(0));
        if s.len() > 0 {
            assert(s[0] == separator);
        }
    }
}

/// A separator stands where it is the first one.
pub proof fn lemma_first_separator(s: Seq<char>, separator: char, at: int)
    requires
        0 <= at <= s.len(),
        forall|i: int| 0 <= i < at ==> s[i] != separator,
        at < s.len() ==> s[at] == separator,
    ensures
        before(s, separator) == s.take(at),
        s.contains(separator) <==> at < s.len(),
{
    lemma_before_behind(s, separator);
    let n = before(s, separator).len() as int;
    if n < at {
        assert(s[n] != separator);
    } else if at < n {
        assert(s[at] == separator);
    }
}

/// Where the first separator stands; the length where there is none.
pub fn find(s: &[char], separator: char) -> (at: usize)
    ensures
        at == before(s@, separator).len(),
        at <= s@.len(),
        at < s@.len() <==> s@.contains(separator),
{
    let mut i: usize = 0;
    while i < s.len() && s[i] != separator
        invariant
            i <= s@.len(),
            forall|k: int| 0 <= k < i ==> s@[k] != separator,
        decreases s.len() - i,
    {
        i = i + 1;
    }
    proof {
        lemma_first_separator(s@, separator, i as int);
    }
    i
}

/// A separator stands where it is the last one.
pub proof fn lemma_last_separator(s: Seq<char>, separator: char, from: int)
    requires
        0 <= from <= s.len(),
        forall|i: int| from <= i < s.len() ==> s[i] != separator,
        from > 0 ==> s[from - 1] == separator,
    ensures
        behind_last(s, separator) == s.skip(from),
        s.contains(separator) <==> from > 0,
        from > 0 ==> before_last(s, separator) == s.take(from - 1),
    decreases s.len(),
{
    if from < s.len() {
        let front = s.drop_last();
        assert forall|i: int| from <= i < front.len() implies front[i] != separator by {
            assert(front[i] == s[i]);
        }
        assert(from > 0 ==> front[from - 1] == s[from - 1]);
        lemma_last_separator(front, separator, from);
        assert(front.skip(from).push(s.last()) =~= s.skip(from));
    } else {
        assert(s.skip(from) =~= Seq::<char>::empty());
    }
    if from > 0 {
        assert(s[from - 1] == separator);
    }
}

/// Where the part behind the last separator begins; zero where there is none.
pub fn find_last(s: &[char], separator: char) -> (from: usize)
    ensures
        from == s@.len() - behind_last(s@, separator).len(),
        from <= s@.len(),
        behind_last(s@, separator) == s@.skip(from as int),
        from > 0 <==> s@.contains(separator),
        from > 0 ==> before_last(s@, separator) == s@.take(from - 1),
{
    let mut i: usize = s.len();
    while i > 0 && s[i - 1] != separator
        invariant
            i <= s@.len(),
            forall|k: int| i <= k < s@.len() ==> s@[k] != separator,
        decreases i,
    {
        i = i - 1;
    }
    proof {
        lemma_last_separator(s@, separator, i as int);
    }
    i
}

} // verus!
