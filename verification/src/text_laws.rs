//! What holds of the way texts are cleaned and filled in.
use crate::json;
use crate::post_process::{self, PostProcessView, ReplyView};
use crate::text;
use vstd::prelude::*;

verus! {

/// A cleaned text holds no invisible character, and cleaning it again changes
/// nothing.
pub proof fn cleaned_text_is_visible(s: Seq<char>)
    ensures
        forall|i: int|
            0 <= i < post_process::visible(s).len() ==> !post_process::invisible(
                #[trigger] post_process::visible(s)[i],
            ),
        post_process::visible(post_process::visible(s)) == post_process::visible(s),
    decreases s.len(),
{
    reveal(Seq::filter);
    if s.len() > 0 {
        let front = s.drop_last();
        cleaned_text_is_visible(front);
        let t = post_process::visible(s);
        if !post_process::invisible(s.last()) {
            assert(t =~= post_process::visible(front).push(s.last()));
            assert(t.drop_last() =~= post_process::visible(front));
        } else {
            assert(t =~= post_process::visible(front));
        }
    }
}

/// A text without invisible characters is left as it is.
pub proof fn visible_text_is_kept(s: Seq<char>)
    requires
        forall|i: int| 0 <= i < s.len() ==> !post_process::invisible(#[trigger] s[i]),
    ensures
        post_process::visible(s) == s,
    decreases s.len(),
{
    reveal(Seq::filter);
    if s.len() > 0 {
        let front = s.drop_last();
        assert forall|i: int| 0 <= i < front.len() implies !post_process::invisible(
            #[trigger] front[i],
        ) by {
            assert(front[i] == s[i]);
        }
        visible_text_is_kept(front);
        assert(front.push(s.last()) =~= s);
    }
}

/// Cleaning goes character by character: the four invisible ones go, every other
/// one stays, in its place.
pub proof fn cleaning_goes_character_by_character(a: Seq<char>, b: Seq<char>, c: char)
    ensures
        post_process::visible(a + b) == post_process::visible(a) + post_process::visible(b),
        post_process::visible(seq![c]) == if c == '\u{200b}' || c == '\u{200c}' || c == '\u{200d}' || c
            == '\u{feff}' {
            seq![]
        } else {
            seq![c]
        },
    decreases b.len(),
{
    reveal(Seq::filter);
    let one = seq![c];
    assert(one.drop_last() =~= Seq::<char>::empty());
    assert(post_process::visible(one.drop_last()) =~= Seq::<char>::empty());
    if b.len() == 0 {
        assert(a + b =~= a);
        assert(post_process::visible(a) + post_process::visible(b) =~= post_process::visible(a));
    } else {
        cleaning_goes_character_by_character(a, b.drop_last(), c);
        assert((a + b).drop_last() =~= a + b.drop_last());
        assert((a + b).last() == b.last());
        if !post_process::invisible(b.last()) {
            assert(post_process::visible(a + b) =~= post_process::visible(a)
                + post_process::visible(b));
        }
    }
}

proof fn trimmed_start_is_suffix(s: Seq<char>)
    ensures
        ({
            let t = text::trimmed_start(s);
            &&& t.len() <= s.len()
            &&& t == s.skip(s.len() - t.len())
            &&& t.len() > 0 ==> !text::white(t.first())
            &&& forall|i: int| 0 <= i < s.len() - t.len() ==> text::white(#[trigger] s[i])
        }),
    decreases s.len(),
{
    if s.len() > 0 && text::white(s.first()) {
        let rest = s.drop_first();
        let t = text::trimmed_start(rest);
        trimmed_start_is_suffix(rest);
        assert(rest.skip(rest.len() - t.len()) =~= s.skip(s.len() - t.len()));
        assert forall|i: int| 0 <= i < s.len() - t.len() implies text::white(#[trigger] s[i]) by {
            if i > 0 {
                assert(s[i] == rest[i - 1]);
            }
        }
    } else {
        assert(s.skip(0) =~= s);
    }
}

proof fn trimmed_end_is_prefix(s: Seq<char>)
    ensures
        ({
            let t = text::trimmed_end(s);
            &&& t.len() <= s.len()
            &&& t == s.take(t.len() as int)
            &&& t.len() > 0 ==> !text::white(t.last())
            &&& forall|i: int| t.len() <= i < s.len() ==> text::white(#[trigger] s[i])
        }),
    decreases s.len(),
{
    if s.len() > 0 && text::white(s.last()) {
        let rest = s.drop_last();
        let t = text::trimmed_end(rest);
        trimmed_end_is_prefix(rest);
        assert(rest.take(t.len() as int) =~= s.take(t.len() as int));
        assert forall|i: int| t.len() <= i < s.len() implies text::white(#[trigger] s[i]) by {
            if i < s.len() - 1 {
                assert(s[i] == rest[i]);
            }
        }
    } else {
        assert(s.take(s.len() as int) =~= s);
    }
}

/// Trimming takes whitespace from both ends and nothing else: what is left is
/// one piece of the text, only whitespace lies around it, and it neither begins
/// nor ends with any.
pub proof fn trimming_removes_surrounding_whitespace(s: Seq<char>) -> (at: int)
    ensures
        ({
            let t = text::trimmed(s);
            &&& 0 <= at <= at + t.len() <= s.len()
            &&& t == s.subrange(at, at + t.len())
            &&& forall|i: int|
                0 <= i < at || at + t.len() <= i < s.len() ==> text::white(#[trigger] s[i])
            &&& t.len() > 0 ==> !text::white(t.first()) && !text::white(t.last())
            &&& text::trimmed(t) == t
        }),
{
    let u = text::trimmed_start(s);
    let t = text::trimmed_end(u);
    let at = s.len() - u.len();
    trimmed_start_is_suffix(s);
    trimmed_end_is_prefix(u);
    assert(t =~= s.subrange(at, at + t.len()));
    assert forall|i: int| at + t.len() <= i < s.len() implies text::white(#[trigger] s[i]) by {
        assert(s[i] == u[i - at]);
    }
    if t.len() > 0 {
        assert(t.first() == u.first());
    }
    at
}

/// A text is empty once it is trimmed exactly where there was nothing but
/// whitespace in it.
pub proof fn blank_text_is_trimmed_away(s: Seq<char>)
    ensures
        text::trimmed(s).len() == 0 <==> forall|i: int|
            0 <= i < s.len() ==> text::white(#[trigger] s[i]),
{
    let at = trimming_removes_surrounding_whitespace(s);
    let t = text::trimmed(s);
    if t.len() > 0 {
        assert(t.first() == s[at]);
    }
}

/// Whether a pattern stands at a place in a text, character by character.
pub open spec fn stands_at(s: Seq<char>, pattern: Seq<char>, at: int) -> bool {
    &&& 0 <= at
    &&& at + pattern.len() <= s.len()
    &&& forall|k: int| 0 <= k < pattern.len() ==> s[at + k] == #[trigger] pattern[k]
}

proof fn occurs_where_it_stands(s: Seq<char>, pattern: Seq<char>, at: int)
    ensures
        text::occurs_at(s, pattern, at) <==> stands_at(s, pattern, at),
{
    if stands_at(s, pattern, at) {
        assert(s.subrange(at, at + pattern.len()) =~= pattern);
    }
    if text::occurs_at(s, pattern, at) {
        assert forall|k: int| 0 <= k < pattern.len() implies s[at + k] == #[trigger] pattern[k] by {
            assert(s.subrange(at, at + pattern.len())[k] == s[at + k]);
        }
    }
}

/// A text holds a pattern exactly where it stands somewhere in it.
pub proof fn a_text_holds_what_stands_in_it(s: Seq<char>, pattern: Seq<char>)
    ensures
        text::occurs(s, pattern) <==> exists|at: int| stands_at(s, pattern, at),
        forall|front: Seq<char>, rest: Seq<char>|
            s == #[trigger] (front + pattern + rest) ==> text::occurs(s, pattern),
{
    assert forall|at: int| text::occurs_at(s, pattern, at) == #[trigger] stands_at(
        s,
        pattern,
        at,
    ) by {
        occurs_where_it_stands(s, pattern, at);
    }
    assert forall|at: int| #[trigger] text::occurs_at(s, pattern, at) == stands_at(
        s,
        pattern,
        at,
    ) by {
        occurs_where_it_stands(s, pattern, at);
    }
    assert forall|front: Seq<char>, rest: Seq<char>|
        s == #[trigger] (front + pattern + rest) implies text::occurs(s, pattern) by {
        let at = front.len() as int;
        assert(s.subrange(at, at + pattern.len()) =~= pattern);
        assert(text::occurs_at(s, pattern, at));
    }
}

/// A text that does not hold the pattern is left as it is.
pub proof fn text_without_pattern_is_kept(s: Seq<char>, pattern: Seq<char>, with: Seq<char>)
    requires
        forall|at: int| !stands_at(s, pattern, at),
    ensures
        text::replaced(s, pattern, with) == s,
    decreases s.len(),
{
    if s.len() >= pattern.len() && pattern.len() > 0 {
        assert(!stands_at(s, pattern, 0));
        occurs_where_it_stands(s, pattern, 0);
        assert(s.take(pattern.len() as int) =~= s.subrange(0, pattern.len() as int));
        let rest = s.drop_first();
        assert forall|at: int| !stands_at(rest, pattern, at) by {
            if stands_at(rest, pattern, at) {
                assert forall|k: int| 0 <= k < pattern.len() implies s[at + 1 + k]
                    == #[trigger] pattern[k] by {
                    assert(rest[at + k] == pattern[k]);
                }
                assert(stands_at(s, pattern, at + 1));
            }
        }
        text_without_pattern_is_kept(rest, pattern, with);
        assert(seq![s.first()] + rest =~= s);
    }
}

/// Where a pattern first occurs, it is replaced, what stands before it is kept,
/// and the rest is treated in the same way.
pub proof fn first_occurrence_is_replaced(
    front: Seq<char>,
    rest: Seq<char>,
    pattern: Seq<char>,
    with: Seq<char>,
)
    requires
        pattern.len() > 0,
        forall|at: int|
            0 <= at < front.len() ==> !#[trigger] stands_at(front + pattern + rest, pattern, at),
    ensures
        text::replaced(front + pattern + rest, pattern, with) == front + with + text::replaced(
            rest,
            pattern,
            with,
        ),
    decreases front.len(),
{
    let s = front + pattern + rest;
    if front.len() == 0 {
        assert(s.take(pattern.len() as int) =~= pattern);
        assert(s.skip(pattern.len() as int) =~= rest);
        assert(front + with =~= with);
    } else {
        assert(!stands_at(s, pattern, 0));
        occurs_where_it_stands(s, pattern, 0);
        assert(s.take(pattern.len() as int) =~= s.subrange(0, pattern.len() as int));
        let fewer = front.drop_first();
        let u = fewer + pattern + rest;
        assert(s.drop_first() =~= u);
        assert forall|at: int| 0 <= at < fewer.len() implies !#[trigger] stands_at(
            u,
            pattern,
            at,
        ) by {
            if stands_at(u, pattern, at) {
                assert forall|k: int| 0 <= k < pattern.len() implies s[at + 1 + k]
                    == #[trigger] pattern[k] by {
                    assert(u[at + k] == pattern[k]);
                }
                assert(stands_at(s, pattern, at + 1));
            }
        }
        first_occurrence_is_replaced(fewer, rest, pattern, with);
        assert(seq![s.first()] + (fewer + with + text::replaced(rest, pattern, with)) =~= front
            + with + text::replaced(rest, pattern, with));
    }
}

/// A pattern that occurs once is replaced, and nothing else changes.
pub proof fn single_occurrence_is_replaced(
    front: Seq<char>,
    rest: Seq<char>,
    pattern: Seq<char>,
    with: Seq<char>,
)
    requires
        pattern.len() > 0,
        forall|at: int|
            at != front.len() ==> !#[trigger] stands_at(front + pattern + rest, pattern, at),
    ensures
        text::replaced(front + pattern + rest, pattern, with) == front + with + rest,
{
    let s = front + pattern + rest;
    first_occurrence_is_replaced(front, rest, pattern, with);
    assert forall|at: int| !stands_at(rest, pattern, at) by {
        if stands_at(rest, pattern, at) {
            let there = front.len() + pattern.len() + at;
            assert forall|k: int| 0 <= k < pattern.len() implies s[there + k]
                == #[trigger] pattern[k] by {
                assert(rest[at + k] == pattern[k]);
            }
            assert(stands_at(s, pattern, there));
        }
    }
    text_without_pattern_is_kept(rest, pattern, with);
}

/// The first separator parts a text: what stands before it holds none, and
/// nothing of what stands behind it is lost.
pub proof fn first_separator_parts_a_text(a: Seq<char>, rest: Seq<char>, separator: char)
    requires
        forall|i: int| 0 <= i < a.len() ==> a[i] != separator,
    ensures
        text::before(a + seq![separator] + rest, separator) == a,
        text::behind(a + seq![separator] + rest, separator) == rest,
        (a + seq![separator] + rest).contains(separator),
        text::before(a, separator) == a,
        text::behind(a, separator) == Seq::<char>::empty(),
{
    let s = a + seq![separator] + rest;
    assert forall|i: int| 0 <= i < a.len() implies s[i] != separator by {
        assert(s[i] == a[i]);
    }
    text::lemma_first_separator(s, separator, a.len() as int);
    assert(s.take(a.len() as int) =~= a);
    assert(s.skip(a.len() as int + 1) =~= rest);
    text::lemma_first_separator(a, separator, a.len() as int);
    assert(a.take(a.len() as int) =~= a);
}

/// The last separator parts a text in the same way.
pub proof fn last_separator_parts_a_text(front: Seq<char>, b: Seq<char>, separator: char)
    requires
        forall|i: int| 0 <= i < b.len() ==> b[i] != separator,
    ensures
        text::before_last(front + seq![separator] + b, separator) == front,
        text::behind_last(front + seq![separator] + b, separator) == b,
        (front + seq![separator] + b).contains(separator),
        text::behind_last(b, separator) == b,
        text::before_last(b, separator) == Seq::<char>::empty(),
{
    let s = front + seq![separator] + b;
    let from = front.len() as int + 1;
    assert forall|i: int| from <= i < s.len() implies s[i] != separator by {
        assert(s[i] == b[i - from]);
    }
    text::lemma_last_separator(s, separator, from);
    assert(s.skip(from) =~= b);
    assert(s.take(from - 1) =~= front);
    text::lemma_last_separator(b, separator, 0);
    assert(b.skip(0) =~= b);
}

/// Whatever the replies, post-processing asks at most twice: once for an answer
/// that follows a schema and once more without. What it comes to in the end
/// holds no invisible character.
pub proof fn post_processing_asks_at_most_twice(
    p: PostProcessView,
    first: ReplyView,
    found: json::ReadingView,
    second: ReplyView,
    found_again: json::ReadingView,
)
    ensures
        p.after(first, found) is Done || (p is AskStructured && first is Failed && p.after(
            first,
            found,
        ) is AskPlain),
        p.after(first, found).after(second, found_again) is Done,
        p !is Done ==> (p.after(first, found) matches PostProcessView::Done { result: Some(text) }
            ==> post_process::visible(text) == text),
        p !is Done ==> (p.after(first, found).after(
            second,
            found_again,
        ) matches PostProcessView::Done { result: Some(text) } ==> post_process::visible(text)
            == text),
{
    if first is Content {
        cleaned_text_is_visible(first->content);
        cleaned_text_is_visible(post_process::structured_text(first->content, found));
    }
    if second is Content {
        cleaned_text_is_visible(second->content);
    }
}

} // verus!
