//! Characters, words and lines: the textual layer under the command grammar.

use vstd::prelude::*;
use vstd::std_specs::iter::IteratorSpec;
use vstd::string::StringExecFns;

verus! {

/// Whether `c` separates words: the code points that Unicode gives the
/// `White_Space` property.
pub open spec fn is_space(c: char) -> bool {
    let n = c as u32;
    ||| 0x09 <= n <= 0x0D
    ||| n == 0x20
    ||| n == 0x85
    ||| n == 0xA0
    ||| n == 0x1680
    ||| 0x2000 <= n <= 0x200A
    ||| n == 0x2028
    ||| n == 0x2029
    ||| n == 0x202F
    ||| n == 0x205F
    ||| n == 0x3000
}

/// Tests whether `c` separates words.
pub fn is_whitespace(c: char) -> (space: bool)
    ensures
        space == is_space(c),
{
    let n: u32 = c as u32;
    (0x09 <= n && n <= 0x0D) || n == 0x20 || n == 0x85 || n == 0xA0 || n == 0x1680 || (0x2000 <= n
        && n <= 0x200A) || n == 0x2028 || n == 0x2029 || n == 0x202F || n == 0x205F || n == 0x3000
}

/// The characters of `s`, in order.
pub fn chars_of(s: &str) -> (chars: Vec<char>)
    ensures
        chars@ == s@,
{
    let mut chars: Vec<char> = Vec::new();
    for c in it: s.chars()
        invariant
            it.seq() == s@,
            chars@ == it.seq().take(it.index()),
    {
        chars.push(c);
    }
    chars
}

/// Tests whether `a` and `b` hold the same characters.
pub fn same_text(a: &str, b: &str) -> (same: bool)
    ensures
        same == (a@ == b@),
{
    let mut others = b.chars();
    for c in it: a.chars()
        invariant
            it.seq() == a@,
            b@ == a@.take(it.index()) + others.remaining(),
    {
        let ghost left = others.remaining();
        match others.next() {
            Some(d) => {
                if c != d {
                    assert(b@[it.index()] == d);
                    return false;
                }
                assert(a@.take(it.index() + 1) == a@.take(it.index()).push(c));
                assert(left == seq![d] + left.drop_first());
            },
            None => {
                return false;
            },
        }
    }
    assert(a@.take(a@.len() as int) == a@);
    others.next().is_none()
}

/// The view of a text that may be missing.
pub open spec fn text_of(source: Option<&str>) -> Option<Seq<char>> {
    match source {
        Some(text) => Some(text@),
        None => None,
    }
}

/// The views of the strings of `v`, in order.
pub open spec fn texts(v: Seq<String>) -> Seq<Seq<char>> {
    Seq::new(v.len(), |i: int| v[i]@)
}

/// The number of characters at the front of `s` before the first one that
/// `stop` holds of.
pub open spec fn run_len(s: Seq<char>, stop: spec_fn(char) -> bool) -> nat
    decreases s.len(),
{
    if s.len() == 0 || stop(s[0]) {
        0
    } else {
        1 + run_len(s.drop_first(), stop)
    }
}

/// `n` characters that `stop` does not hold of, at the end of the text or
/// followed by one that it holds of, are the run at the front of `s`.
pub proof fn lemma_run_len_is(s: Seq<char>, stop: spec_fn(char) -> bool, n: int)
    requires
        0 <= n <= s.len(),
        forall|k: int| 0 <= k < n ==> !stop(#[trigger] s[k]),
        n < s.len() ==> stop(s[n]),
    ensures
        run_len(s, stop) == n,
    decreases n,
{
    if n > 0 {
        let rest = s.drop_first();
        assert forall|k: int| 0 <= k < n - 1 implies !stop(#[trigger] rest[k]) by {
            assert(rest[k] == s[k + 1]);
        }
        lemma_run_len_is(rest, stop, n - 1);
    }
}

/// None of the characters of a run is one that `stop` holds of, and a run that
/// does not reach the end of the text stops at one that it holds of.
pub proof fn lemma_run_len_stops(s: Seq<char>, stop: spec_fn(char) -> bool)
    ensures
        run_len(s, stop) <= s.len(),
        forall|k: int| 0 <= k < run_len(s, stop) ==> !stop(#[trigger] s[k]),
        run_len(s, stop) < s.len() ==> stop(s[run_len(s, stop) as int]),
    decreases s.len(),
{
    if s.len() > 0 && !stop(s[0]) {
        let rest = s.drop_first();
        lemma_run_len_stops(rest, stop);
        assert forall|k: int| 0 <= k < run_len(s, stop) implies !stop(#[trigger] s[k]) by {
            if k > 0 {
                assert(s[k] == rest[k - 1]);
            }
        }
        if run_len(s, stop) < s.len() {
            assert(s[run_len(s, stop) as int] == rest[run_len(rest, stop) as int]);
        }
    }
}

/// `s` without the whitespace at its front.
pub open spec fn trimmed_start(s: Seq<char>) -> Seq<char>
    decreases s.len(),
{
    if s.len() > 0 && is_space(s[0]) {
        trimmed_start(s.drop_first())
    } else {
        s
    }
}

/// `s` without the whitespace at its end.
pub open spec fn trimmed_end(s: Seq<char>) -> Seq<char>
    decreases s.len(),
{
    if s.len() > 0 && is_space(s.last()) {
        trimmed_end(s.drop_last())
    } else {
        s
    }
}

/// `s` without the whitespace around it.
pub open spec fn trimmed(s: Seq<char>) -> Seq<char> {
    trimmed_end(trimmed_start(s))
}

proof fn lemma_trimmed_start_is(s: Seq<char>, n: int)
    requires
        0 <= n <= s.len(),
        forall|k: int| 0 <= k < n ==> is_space(#[trigger] s[k]),
        n < s.len() ==> !is_space(s[n]),
    ensures
        trimmed_start(s) == s.skip(n),
    decreases n,
{
    if n > 0 {
        let rest = s.drop_first();
        assert forall|k: int| 0 <= k < n - 1 implies is_space(#[trigger] rest[k]) by {
            assert(rest[k] == s[k + 1]);
        }
        lemma_trimmed_start_is(rest, n - 1);
        assert(rest.skip(n - 1) == s.skip(n));
    } else {
        assert(s.skip(0) == s);
    }
}

proof fn lemma_trimmed_end_is(s: Seq<char>, n: int)
    requires
        0 <= n <= s.len(),
        forall|k: int| n <= k < s.len() ==> is_space(#[trigger] s[k]),
        n > 0 ==> !is_space(s[n - 1]),
    ensures
        trimmed_end(s) == s.take(n),
    decreases s.len() - n,
{
    if n < s.len() {
        let rest = s.drop_last();
        assert forall|k: int| n <= k < rest.len() implies is_space(#[trigger] rest[k]) by {
            assert(rest[k] == s[k]);
        }
        lemma_trimmed_end_is(rest, n);
        assert(rest.take(n) == s.take(n));
    } else {
        assert(s.take(n) == s);
    }
}

/// Cuts the whitespace around `s` away.
pub fn trim(s: &str) -> (inner: &str)
    ensures
        inner@ == trimmed(s@),
{
    let chars = chars_of(s);
    let mut start: usize = 0;
    while start < chars.len() && is_whitespace(chars[start])
        invariant
            start <= chars.len(),
            forall|k: int| 0 <= k < start ==> is_space(#[trigger] chars@[k]),
        decreases chars.len() - start,
    {
        start += 1;
    }
    let mut end: usize = chars.len();
    while end > start && is_whitespace(chars[end - 1])
        invariant
            start <= end <= chars.len(),
            forall|k: int| end <= k < chars.len() ==> is_space(#[trigger] chars@[k]),
        decreases end,
    {
        end -= 1;
    }
    proof {
        let rest = s@.skip(start as int);
        lemma_trimmed_start_is(s@, start as int);
        assert forall|k: int| end - start <= k < rest.len() implies is_space(
            #[trigger] rest[k],
        ) by {
            assert(rest[k] == chars@[start + k]);
        }
        if end > start {
            assert(rest[end - start - 1] == chars@[end - 1]);
        }
        lemma_trimmed_end_is(rest, end - start);
        assert(rest.take(end - start) == s@.subrange(start as int, end as int));
    }
    s.substring_char(start, end)
}

/// The number of characters at the front of `s` before its first whitespace.
pub open spec fn word_len(s: Seq<char>) -> nat {
    run_len(s, |c: char| is_space(c))
}

/// The words of `s`: its maximal runs of characters that are not whitespace,
/// from left to right.
pub open spec fn words(s: Seq<char>) -> Seq<Seq<char>>
    decreases s.len(),
    via words_decreases
{
    if s.len() == 0 {
        Seq::empty()
    } else if is_space(s[0]) {
        words(s.drop_first())
    } else {
        seq![s.take(word_len(s) as int)] + words(s.skip(word_len(s) as int))
    }
}

#[via_fn]
proof fn words_decreases(s: Seq<char>) {
    lemma_run_len_stops(s, |c: char| is_space(c));
}

/// A word is not empty and holds no whitespace.
pub proof fn lemma_words_are_solid(s: Seq<char>, i: int)
    requires
        0 <= i < words(s).len(),
    ensures
        words(s)[i].len() > 0,
        forall|k: int| 0 <= k < words(s)[i].len() ==> !is_space(#[trigger] words(s)[i][k]),
    decreases s.len(),
{
    if s.len() > 0 {
        if is_space(s[0]) {
            lemma_words_are_solid(s.drop_first(), i);
        } else {
            let stop = |c: char| is_space(c);
            let n = word_len(s) as int;
            lemma_run_len_stops(s, stop);
            if i > 0 {
                lemma_words_are_solid(s.skip(n), i - 1);
            } else {
                assert forall|k: int| 0 <= k < n implies !is_space(#[trigger] s.take(n)[k]) by {
                    assert(!stop(s[k]));
                }
            }
        }
    }
}

/// Whitespace at the end of a text adds no word.
pub proof fn lemma_words_ignore_space_at_end(s: Seq<char>, c: char)
    requires
        is_space(c),
    ensures
        words(s.push(c)) == words(s),
    decreases s.len(),
{
    let t = s.push(c);
    if s.len() == 0 {
        assert(t.drop_first() == s);
    } else if is_space(s[0]) {
        assert(t.drop_first() == s.drop_first().push(c));
        lemma_words_ignore_space_at_end(s.drop_first(), c);
    } else {
        let stop = |c: char| is_space(c);
        let n = word_len(s) as int;
        lemma_run_len_stops(s, stop);
        assert forall|k: int| 0 <= k < n implies !stop(#[trigger] t[k]) by {
            assert(t[k] == s[k]);
        }
        lemma_run_len_is(t, stop, n);
        assert(t.take(n) == s.take(n));
        assert(t.skip(n) == s.skip(n).push(c));
        lemma_words_ignore_space_at_end(s.skip(n), c);
    }
}

proof fn lemma_words_ignore_start(s: Seq<char>)
    ensures
        words(trimmed_start(s)) == words(s),
    decreases s.len(),
{
    if s.len() > 0 && is_space(s[0]) {
        lemma_words_ignore_start(s.drop_first());
    }
}

proof fn lemma_words_ignore_end(s: Seq<char>)
    ensures
        words(trimmed_end(s)) == words(s),
    decreases s.len(),
{
    if s.len() > 0 && is_space(s.last()) {
        lemma_words_ignore_end(s.drop_last());
        lemma_words_ignore_space_at_end(s.drop_last(), s.last());
        assert(s.drop_last().push(s.last()) == s);
    }
}

/// The whitespace around a text adds nothing to its words.
pub proof fn lemma_words_ignore_margins(s: Seq<char>)
    ensures
        words(trimmed(s)) == words(s),
{
    lemma_words_ignore_start(s);
    lemma_words_ignore_end(trimmed_start(s));
}

/// Splits `line` into its words.
pub fn split_words(line: &str) -> (found: Vec<String>)
    ensures
        texts(found@) == words(line@),
{
    let chars = chars_of(line);
    let mut found: Vec<String> = Vec::new();
    let mut i: usize = 0;
    proof {
        assert(chars@.skip(0) == chars@);
        assert(texts(found@) + words(chars@) == words(chars@));
    }
    while i < chars.len()
        invariant
            chars@ == line@,
            i <= chars.len(),
            texts(found@) + words(chars@.skip(i as int)) == words(chars@),
        decreases chars.len() - i,
    {
        let ghost rest = chars@.skip(i as int);
        if is_whitespace(chars[i]) {
            assert(rest.drop_first() == chars@.skip(i + 1));
            i += 1;
        } else {
            let mut j: usize = i + 1;
            while j < chars.len() && !is_whitespace(chars[j])
                invariant
                    i < j <= chars.len(),
                    forall|k: int| i <= k < j ==> !is_space(#[trigger] chars@[k]),
                decreases chars.len() - j,
            {
                j += 1;
            }
            proof {
                let stop = |c: char| is_space(c);
                assert forall|k: int| 0 <= k < j - i implies !stop(#[trigger] rest[k]) by {
                    assert(rest[k] == chars@[i + k]);
                }
                lemma_run_len_is(rest, stop, j - i);
                assert(rest.skip(j - i) == chars@.skip(j as int));
                assert(rest.take(j - i) == line@.subrange(i as int, j as int));
            }
            let word = String::from_str(line.substring_char(i, j));
            let ghost before = found@;
            found.push(word);
            assert(texts(found@) == texts(before) + seq![rest.take(j - i)]);
            i = j;
        }
    }
    assert(chars@.skip(i as int) == Seq::<char>::empty());
    found
}

/// The texts of `parts` in one line, with `separator` between each two.
pub open spec fn joined(parts: Seq<Seq<char>>, separator: Seq<char>) -> Seq<char>
    decreases parts.len(),
{
    if parts.len() == 0 {
        Seq::empty()
    } else if parts.len() == 1 {
        parts[0]
    } else {
        joined(parts.drop_last(), separator) + separator + parts.last()
    }
}

/// Writes `parts` in one line, with `separator` between each two.
pub fn join(parts: &Vec<String>, separator: &str) -> (line: String)
    ensures
        line@ == joined(texts(parts@), separator@),
{
    let mut line = String::new();
    let mut i: usize = 0;
    while i < parts.len()
        invariant
            i <= parts.len(),
            line@ == joined(texts(parts@).take(i as int), separator@),
        decreases parts.len() - i,
    {
        if i > 0 {
            line.append(separator);
        }
        line.append(parts[i].as_str());
        proof {
            let upto = texts(parts@).take(i + 1);
            assert(upto.drop_last() == texts(parts@).take(i as int));
            assert(upto.last() == parts@[i as int]@);
        }
        i += 1;
    }
    assert(texts(parts@).take(i as int) == texts(parts@));
    line
}

/// The test for being the character `separator`.
pub open spec fn is_char(separator: char) -> spec_fn(char) -> bool {
    |c: char| c == separator
}

/// The number of characters at the front of `s` before its first `separator`.
pub open spec fn field_len(s: Seq<char>, separator: char) -> nat {
    run_len(s, is_char(separator))
}

/// The fields of `s`: the stretches of text between its separators, from left
/// to right. A text with `n` separators has `n + 1` fields, some of them
/// perhaps empty.
pub open spec fn fields(s: Seq<char>, separator: char) -> Seq<Seq<char>>
    decreases s.len(),
{
    if field_len(s, separator) >= s.len() {
        seq![s]
    } else {
        seq![s.take(field_len(s, separator) as int)] + fields(
            s.skip(field_len(s, separator) as int + 1),
            separator,
        )
    }
}

/// Splits `source` at each `separator`.
pub fn split_fields(source: &str, separator: char) -> (found: Vec<String>)
    ensures
        texts(found@) == fields(source@, separator),
{
    let chars = chars_of(source);
    let mut found: Vec<String> = Vec::new();
    let mut start: usize = 0;
    proof {
        assert(chars@.skip(0) == chars@);
        assert(texts(found@) + fields(chars@, separator) == fields(chars@, separator));
    }
    loop
        invariant_except_break
            chars@ == source@,
            start <= chars.len(),
            texts(found@) + fields(chars@.skip(start as int), separator) == fields(
                chars@,
                separator,
            ),
        ensures
            texts(found@) == fields(source@, separator),
        decreases chars.len() - start,
    {
        let ghost rest = chars@.skip(start as int);
        let mut end: usize = start;
        while end < chars.len() && chars[end] != separator
            invariant
                start <= end <= chars.len(),
                forall|k: int| start <= k < end ==> #[trigger] chars@[k] != separator,
            decreases chars.len() - end,
        {
            end += 1;
        }
        proof {
            let stop = is_char(separator);
            assert forall|k: int| 0 <= k < end - start implies !stop(#[trigger] rest[k]) by {
                assert(rest[k] == chars@[start + k]);
            }
            lemma_run_len_is(rest, stop, end - start);
            assert(rest.take(end - start) == source@.subrange(start as int, end as int));
        }
        let field = String::from_str(source.substring_char(start, end));
        let ghost before = found@;
        found.push(field);
        if end >= chars.len() {
            proof {
                assert(rest.take(end - start) == rest);
                assert(texts(found@) == texts(before) + seq![rest]);
            }
            break ;
        }
        proof {
            assert(texts(found@) == texts(before) + seq![rest.take(end - start)]);
            assert(rest.skip(end - start + 1) == chars@.skip(end + 1));
        }
        start = end + 1;
    }
    found
}

proof fn lemma_joined_from_front(first: Seq<char>, rest: Seq<Seq<char>>, separator: Seq<char>)
    requires
        rest.len() > 0,
    ensures
        joined(seq![first] + rest, separator) == first + separator + joined(rest, separator),
    decreases rest.len(),
{
    let all = seq![first] + rest;
    assert(all.last() == rest.last());
    assert(all.drop_last() == seq![first] + rest.drop_last());
    if rest.len() == 1 {
        assert(all.drop_last() == seq![first]);
        assert(joined(all.drop_last(), separator) == first);
    } else {
        lemma_joined_from_front(first, rest.drop_last(), separator);
        assert(joined(all, separator) == (first + separator + joined(
            rest.drop_last(),
            separator,
        )) + separator + rest.last());
        assert(joined(all, separator) == first + separator + (joined(rest.drop_last(), separator)
            + separator + rest.last()));
    }
}

/// A text has at least one field, no field holds the separator, and the
/// fields with the separator between each two are the text again: the fields
/// are the one way to cut the text at each of its separators.
pub proof fn lemma_fields_cut_at_separators(s: Seq<char>, separator: char)
    ensures
        fields(s, separator).len() > 0,
        forall|i: int, k: int|
            0 <= i < fields(s, separator).len() && 0 <= k < fields(s, separator)[i].len()
                ==> #[trigger] fields(s, separator)[i][k] != separator,
        joined(fields(s, separator), seq![separator]) == s,
    decreases s.len(),
{
    let stop = is_char(separator);
    let n = field_len(s, separator) as int;
    lemma_run_len_stops(s, stop);
    if n >= s.len() {
        assert forall|i: int, k: int|
            0 <= i < fields(s, separator).len() && 0 <= k < fields(s, separator)[i].len()
                implies #[trigger] fields(s, separator)[i][k] != separator by {
            assert(!stop(s[k]));
        }
    } else {
        let first = s.take(n);
        let rest = fields(s.skip(n + 1), separator);
        lemma_fields_cut_at_separators(s.skip(n + 1), separator);
        lemma_joined_from_front(first, rest, seq![separator]);
        assert(first + seq![separator] + s.skip(n + 1) == s) by {
            assert(stop(s[n]));
        }
        assert forall|i: int, k: int|
            0 <= i < fields(s, separator).len() && 0 <= k < fields(s, separator)[i].len()
                implies #[trigger] fields(s, separator)[i][k] != separator by {
            if i == 0 {
                assert(!stop(s[k]));
            } else {
                assert(fields(s, separator)[i] == rest[i - 1]);
                assert(rest[i - 1][k] != separator);
            }
        }
    }
}

} // verus!
