//! What holds of the ways text is taken apart and put together: what is dropped is only what should
//! be, and what was joined comes apart again.

use crate::dashboard_types::{flag, payload};
use crate::text::{
    contains_text, first_pos, has_prefix, has_suffix, is_space, joined, last_pos, lemma_first_pos,
    lemma_trim_start, lower, lowercased, occurs_at, pieces, trim_end, trim_start, trimmed, upper, word_len, words,
};
use crate::trajectory::frames::{pose_body, pose_parts};
use vstd::prelude::*;

verus! {

proof fn lemma_trim_start_is_tail(s: Seq<char>)
    ensures
        trim_start(s).len() <= s.len(),
        trim_start(s) == s.skip(s.len() - trim_start(s).len()),
        forall|i: int| 0 <= i < s.len() - trim_start(s).len() ==> is_space(#[trigger] s[i]),
    decreases s.len(),
{
    if s.len() > 0 && is_space(s[0]) {
        let rest = s.drop_first();
        lemma_trim_start_is_tail(rest);
        let n = s.len() - trim_start(s).len();
        assert(rest.skip(n - 1) =~= s.skip(n));
        assert forall|i: int| 0 <= i < n implies is_space(#[trigger] s[i]) by {
            if i > 0 {
                assert(rest[i - 1] == s[i]);
            }
        }
    } else {
        assert(s.skip(0) =~= s);
    }
}

proof fn lemma_trim_end_is_head(s: Seq<char>)
    ensures
        trim_end(s).len() <= s.len(),
        trim_end(s) == s.take(trim_end(s).len() as int),
        trim_end(s).len() > 0 ==> !is_space(trim_end(s).last()),
        forall|i: int| trim_end(s).len() <= i < s.len() ==> is_space(#[trigger] s[i]),
    decreases s.len(),
{
    if s.len() > 0 && is_space(s.last()) {
        let rest = s.drop_last();
        lemma_trim_end_is_head(rest);
        let n = trim_end(s).len() as int;
        assert(rest.take(n) =~= s.take(n));
        assert forall|i: int| n <= i < s.len() implies is_space(#[trigger] s[i]) by {
            if i < rest.len() {
                assert(rest[i] == s[i]);
            }
        }
    } else {
        assert(s.take(s.len() as int) =~= s);
    }
}

/// Trimming drops white space at both ends, all of it, and nothing else: what is left is a stretch
/// of the text that neither begins nor ends in white space.
pub proof fn trimming_drops_only_blanks(s: Seq<char>)
    ensures
        exists|from: int, to: int|
            {
                &&& 0 <= from <= to <= s.len()
                &&& trimmed(s) == #[trigger] s.subrange(from, to)
                &&& forall|i: int| 0 <= i < from ==> is_space(#[trigger] s[i])
                &&& forall|i: int| to <= i < s.len() ==> is_space(#[trigger] s[i])
            },
        trimmed(s).len() > 0 ==> !is_space(trimmed(s)[0]) && !is_space(trimmed(s).last()),
{
    let t = trim_start(s);
    let from = s.len() - t.len();
    lemma_trim_start(s);
    lemma_trim_start_is_tail(s);
    lemma_trim_end_is_head(t);
    let to = from + trimmed(s).len();
    assert(s.subrange(from, to) =~= t.take(trimmed(s).len() as int));
    assert forall|i: int| to <= i < s.len() implies is_space(#[trigger] s[i]) by {
        assert(t[i - from] == s[i]);
    }
}

/// A text without white space stays as it is.
proof fn lemma_nothing_to_trim(s: Seq<char>)
    requires
        s.len() > 0 ==> !is_space(s[0]) && !is_space(s.last()),
    ensures
        trimmed(s) == s,
{
}

proof fn lemma_first_pos_at(a: Seq<char>, c: char, s: Seq<char>)
    requires
        !a.contains(c),
    ensures
        first_pos(a + seq![c] + s, c) == a.len(),
    decreases a.len(),
{
    let all = a + seq![c] + s;
    if a.len() > 0 {
        assert(a[0] != c) by {
            if a[0] == c {
                assert(a.contains(c));
            }
        }
        let rest = a.drop_first();
        assert(!rest.contains(c)) by {
            if rest.contains(c) {
                let i = choose|i: int| 0 <= i < rest.len() && rest[i] == c;
                assert(a[i + 1] == c);
            }
        }
        assert(all.drop_first() =~= rest + seq![c] + s);
        lemma_first_pos_at(rest, c, s);
    }
}

proof fn lemma_no_pos(s: Seq<char>, c: char)
    requires
        !s.contains(c),
    ensures
        first_pos(s, c) == s.len(),
{
    lemma_first_pos(s, c);
    if first_pos(s, c) < s.len() {
        assert(s[first_pos(s, c) as int] == c);
    }
}

proof fn lemma_joined_from_the_front(list: Seq<Seq<char>>, sep: Seq<char>)
    requires
        list.len() > 1,
    ensures
        joined(list, sep) == list[0] + sep + joined(list.drop_first(), sep),
    decreases list.len(),
{
    let rest = list.drop_first();
    if list.len() == 2 {
        assert(list.drop_last() =~= seq![list[0]]);
        assert(rest =~= seq![list[1]]);
        assert(joined(seq![list[0]], sep) == list[0]);
        assert(joined(rest, sep) == list[1]);
        assert(joined(list, sep) == joined(list.drop_last(), sep) + sep + list.last());
    } else {
        lemma_joined_from_the_front(list.drop_last(), sep);
        assert(list.drop_last().drop_first() =~= rest.drop_last());
        assert(joined(list, sep) =~= list[0] + sep + joined(rest, sep));
    }
}

/// What was joined comes apart again: texts that hold no separator are the pieces of the whole, as
/// many and in their order.
pub proof fn pieces_are_what_was_joined(list: Seq<Seq<char>>, c: char)
    requires
        list.len() > 0,
        forall|i: int| 0 <= i < list.len() ==> !(#[trigger] list[i]).contains(c),
    ensures
        pieces(joined(list, seq![c]), c) == list,
    decreases list.len(),
{
    let all = joined(list, seq![c]);
    assert(!list[0].contains(c));
    if list.len() == 1 {
        lemma_no_pos(list[0], c);
        assert(pieces(all, c) =~= list);
    } else {
        let rest = list.drop_first();
        assert forall|i: int| 0 <= i < rest.len() implies !(#[trigger] rest[i]).contains(c) by {
            assert(rest[i] == list[i + 1]);
        }
        lemma_joined_from_the_front(list, seq![c]);
        let tail = joined(rest, seq![c]);
        lemma_first_pos_at(list[0], c, tail);
        pieces_are_what_was_joined(rest, c);
        let n = list[0].len() as int;
        assert(all.take(n) =~= list[0]);
        assert(all.skip(n + 1) =~= tail);
        assert(pieces(all, c) =~= list);
    }
}

/// Whether `s` has no white space in it.
pub open spec fn is_solid(s: Seq<char>) -> bool {
    forall|i: int| 0 <= i < s.len() ==> !is_space(#[trigger] s[i])
}

/// A pose that was spelled as a literal is read back number by number.
pub proof fn pose_literals_read_back(numbers: Seq<Seq<char>>)
    requires
        numbers.len() > 0,
        forall|i: int|
            0 <= i < numbers.len() ==> is_solid(#[trigger] numbers[i]) && !numbers[i].contains(','),
    ensures
        pose_parts("p["@ + joined(numbers, ","@) + "]"@) == Some(numbers),
{
    reveal_strlit("p[");
    reveal_strlit("]");
    reveal_strlit("p");
    reveal_strlit("[");
    reveal_strlit(",");
    assert(","@ =~= seq![',']);
    let body = joined(numbers, ","@);
    let s = "p["@ + body + "]"@;
    assert(s[0] == 'p' && s.last() == ']');
    lemma_nothing_to_trim(s);
    assert(s.take(1) =~= "p"@);
    let bracketed = s.skip(1);
    assert(bracketed[0] == '[' && bracketed.last() == ']');
    lemma_nothing_to_trim(bracketed);
    assert(bracketed.take(1) =~= "["@);
    let rest = bracketed.skip(1);
    assert(rest =~= body + "]"@);
    assert(rest.skip(rest.len() - 1) =~= "]"@);
    assert(rest.take(rest.len() - 1) =~= body);
    assert(pose_body(s) == Some(body));
    pieces_are_what_was_joined(numbers, ',');
    let parts = pieces(body, ',').map_values(|part: Seq<char>| trimmed(part));
    assert forall|i: int| 0 <= i < numbers.len() implies parts[i] == numbers[i] by {
        assert(is_solid(numbers[i]));
        lemma_nothing_to_trim(numbers[i]);
    }
    assert(parts =~= numbers);
}

proof fn lemma_last_colon(label: Seq<char>, value: Seq<char>)
    requires
        !value.contains(':'),
    ensures
        last_pos(label + ": "@ + value, ':') == label.len(),
        (label + ": "@ + value).skip(label.len() as int + 1) == seq![' '] + value,
    decreases value.len(),
{
    reveal_strlit(": ");
    let all = label + ": "@ + value;
    assert(all.skip(label.len() as int + 1) =~= seq![' '] + value);
    if value.len() == 0 {
        assert(all =~= label + ": "@);
        assert(all.last() == ' ');
        assert(all.drop_last().last() == ':');
        reveal_with_fuel(last_pos, 3);
    } else {
        assert(all.drop_last() =~= label + ": "@ + value.drop_last());
        assert(!value.drop_last().contains(':')) by {
            if value.drop_last().contains(':') {
                let i = choose|i: int|
                    0 <= i < value.drop_last().len() && value.drop_last()[i] == ':';
                assert(value[i] == ':');
            }
        }
        assert(all.last() == value.last());
        assert(value.last() != ':') by {
            if value.last() == ':' {
                assert(value[value.len() - 1] == ':');
            }
        }
        lemma_last_colon(label, value.drop_last());
    }
}

/// What stands behind a label is what a reply says, whatever the label.
pub proof fn labels_are_dropped(label: Seq<char>, value: Seq<char>)
    requires
        !value.contains(':'),
        is_solid(value),
    ensures
        payload(label + ": "@ + value) == value,
{
    lemma_last_colon(label, value);
    let tail = seq![' '] + value;
    assert(tail.drop_first() =~= value);
    lemma_nothing_to_trim(value);
    assert(trim_start(tail) == trim_start(value));
}

/// A reply of one word is a yes exactly where that word is `true`, in any letters and behind any
/// label.
pub proof fn flags_are_read(label: Seq<char>, word: Seq<char>)
    requires
        word.len() > 0,
        !word.contains(':'),
        is_solid(word),
    ensures
        flag(label + ": "@ + word) <==> lowercased(word) == "true"@,
{
    labels_are_dropped(label, word);
    lemma_whole_word(word);
    assert(trim_start(word) == word);
    assert(word.take(word.len() as int) =~= word);
    assert(words(word)[0] == word);
}

proof fn lemma_whole_word(s: Seq<char>)
    requires
        is_solid(s),
    ensures
        word_len(s) == s.len(),
    decreases s.len(),
{
    if s.len() > 0 {
        let rest = s.drop_first();
        assert forall|i: int| 0 <= i < rest.len() implies !is_space(#[trigger] rest[i]) by {
            assert(rest[i] == s[i + 1]);
        }
        lemma_whole_word(rest);
    }
}

/// A text begins with what was put before it and ends with what was put behind it.
pub proof fn ends_are_where_they_were_put(head: Seq<char>, body: Seq<char>, tail: Seq<char>)
    ensures
        has_prefix(head + body + tail, head),
        has_suffix(head + body + tail, tail),
{
    let all = head + body + tail;
    assert(all.take(head.len() as int) =~= head);
    assert(all.skip(all.len() - tail.len()) =~= tail);
}

/// Blanks, tabs and line ends are white space; letters, digits and what else is printed of ASCII are
/// not.
pub proof fn blanks_are_blank(c: char)
    ensures
        is_space(' ') && is_space('\t') && is_space('\n') && is_space('\r'),
        '!' <= c <= '~' ==> !is_space(c),
{
}

/// Letters have two cases, and nothing else of ASCII has: each goes over into the other and back.
pub proof fn letters_have_two_cases(c: char)
    ensures
        'a' <= c <= 'z' ==> lower(upper(c)) == c && upper(c) != c && lower(c) == c,
        'A' <= c <= 'Z' ==> upper(lower(c)) == c && lower(c) != c && upper(c) == c,
        !('a' <= c <= 'z' || 'A' <= c <= 'Z') ==> upper(c) == c && lower(c) == c,
        upper('a') == 'A' && upper('z') == 'Z' && lower('M') == 'm',
{
}

/// A text holds what was put into it, wherever it was put.
pub proof fn texts_hold_what_was_put_in(head: Seq<char>, part: Seq<char>, tail: Seq<char>)
    ensures
        contains_text(head + part + tail, part),
{
    let all = head + part + tail;
    assert(all.subrange(head.len() as int, (head.len() + part.len()) as int) =~= part);
    assert(occurs_at(all, part, head.len() as int));
}

} // verus!
