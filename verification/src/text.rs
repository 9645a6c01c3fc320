//! Text as sequences of characters: trimming, splitting, searching and decimal numbers.
//!
//! Everything the driver reads off a socket or out of a request is text, so each
//! function here has a specification over `Seq<char>` that the rest of the crate builds on.

use vstd::prelude::*;

verus! {

/// `String::push` appends one character.
pub assume_specification[ String::push ](s: &mut String, c: char)
    ensures
        final(s)@ == old(s)@.push(c),
;

/// The characters with the Unicode `White_Space` property, which is what trimming and
/// word splitting remove.
pub open spec fn is_space(c: char) -> bool {
    let n = c as u32;
    ||| 9 <= n <= 13
    ||| n == 0x20
    ||| n == 0x85
    ||| n == 0xA0
    ||| n == 0x1680
    ||| 0x2000 <= n <= 0x200A
    ||| n == 0x2028
    ||| n == 0x2029
    ||| n == 0x202F
    ||| n == 0x205F
    ||| n == 0x3000
}

/// Decide [`is_space`].
pub fn char_is_space(c: char) -> (r: bool)
    ensures
        r == is_space(c),
{
    let n: u32 = c as u32;
    (9 <= n && n <= 13) || n == 0x20 || n == 0x85 || n == 0xA0 || n == 0x1680 || (0x2000 <= n && n
        <= 0x200A) || n == 0x2028 || n == 0x2029 || n == 0x202F || n == 0x205F || n == 0x3000
}

/// The characters of a string, one vector element each.
pub fn chars_of(s: &str) -> (r: Vec<char>)
    ensures
        r@ == s@,
{
    let mut r: Vec<char> = Vec::new();
    for c in it: s.chars()
        invariant
            it.seq() == s@,
            r@ == it.seq().take(it.index() as int),
    {
        r.push(c);
    }
    r
}

/// The string spelled by `cs[from..to]`.
pub fn string_of(cs: &Vec<char>, from: usize, to: usize) -> (r: String)
    requires
        from <= to <= cs.len(),
    ensures
        r@ == cs@.subrange(from as int, to as int),
{
    let mut r = String::new();
    let mut i: usize = from;
    while i < to
        invariant
            from <= i <= to <= cs.len(),
            r@ == cs@.subrange(from as int, i as int),
        decreases to - i,
    {
        r.push(cs[i]);
        i = i + 1;
        assert(cs@.subrange(from as int, i as int) =~= cs@.subrange(from as int, i - 1).push(
            cs@[i - 1],
        ));
    }
    r
}

/// Compare two strings.
pub fn same(a: &str, b: &str) -> (r: bool)
    ensures
        r == (a@ == b@),
{
    a.to_owned() == b.to_owned()
}

/// Two strings, one after the other.
pub fn join2(a: &str, b: &str) -> (r: String)
    ensures
        r@ == a@ + b@,
{
    let mut r = a.to_owned();
    r.append(b);
    r
}

/// Three strings, one after the other.
pub fn join3(a: &str, b: &str, c: &str) -> (r: String)
    ensures
        r@ == a@ + b@ + c@,
{
    let mut r = a.to_owned();
    r.append(b);
    r.append(c);
    r
}

/// `s` without its leading white space.
pub open spec fn trim_start(s: Seq<char>) -> Seq<char>
    decreases s.len(),
{
    if s.len() > 0 && is_space(s[0]) {
        trim_start(s.drop_first())
    } else {
        s
    }
}

/// `s` without its trailing white space.
pub open spec fn trim_end(s: Seq<char>) -> Seq<char>
    decreases s.len(),
{
    if s.len() > 0 && is_space(s.last()) {
        trim_end(s.drop_last())
    } else {
        s
    }
}

/// `s` without white space at either end.
pub open spec fn trimmed(s: Seq<char>) -> Seq<char> {
    trim_end(trim_start(s))
}

/// Remove white space at both ends.
pub fn trim(s: &str) -> (r: String)
    ensures
        r@ == trimmed(s@),
{
    let cs = chars_of(s);
    let n: usize = cs.len();
    let mut from: usize = 0;
    assert(cs@.skip(0) =~= cs@);
    while from < n && char_is_space(cs[from])
        invariant
            n == cs.len(),
            from <= n,
            trim_start(cs@.skip(from as int)) == trim_start(cs@),
        decreases n - from,
    {
        assert(cs@.skip(from as int).drop_first() =~= cs@.skip(from + 1));
        from = from + 1;
    }
    assert(trim_start(cs@) =~= cs@.skip(from as int));
    let mut to: usize = n;
    assert(cs@.subrange(from as int, n as int) =~= cs@.skip(from as int));
    while from < to && char_is_space(cs[to - 1])
        invariant
            n == cs.len(),
            from <= to <= n,
            trim_end(cs@.subrange(from as int, to as int)) == trim_end(cs@.skip(from as int)),
        decreases to,
    {
        assert(cs@.subrange(from as int, to as int).drop_last() =~= cs@.subrange(
            from as int,
            to - 1,
        ));
        to = to - 1;
    }
    string_of(&cs, from, to)
}

/// ASCII upper case of one character; every other character is unchanged.
pub open spec fn upper(c: char) -> char {
    if 'a' <= c <= 'z' {
        ((c as u32 - 32) as u32) as char
    } else {
        c
    }
}

/// ASCII lower case of one character; every other character is unchanged.
pub open spec fn lower(c: char) -> char {
    if 'A' <= c <= 'Z' {
        ((c as u32 + 32) as u32) as char
    } else {
        c
    }
}

/// ASCII upper case of a string.
pub open spec fn uppercased(s: Seq<char>) -> Seq<char> {
    s.map_values(|c: char| upper(c))
}

/// ASCII lower case of a string.
pub open spec fn lowercased(s: Seq<char>) -> Seq<char> {
    s.map_values(|c: char| lower(c))
}

fn upper_char(c: char) -> (r: char)
    ensures
        r == upper(c),
{
    if 'a' <= c && c <= 'z' {
        ((c as u8) - 32) as char
    } else {
        c
    }
}

fn lower_char(c: char) -> (r: char)
    ensures
        r == lower(c),
{
    if 'A' <= c && c <= 'Z' {
        ((c as u8) + 32) as char
    } else {
        c
    }
}

/// ASCII upper case.
pub fn to_upper(s: &str) -> (r: String)
    ensures
        r@ == uppercased(s@),
{
    let cs = chars_of(s);
    let mut r = String::new();
    let mut i: usize = 0;
    while i < cs.len()
        invariant
            i <= cs.len(),
            cs@ == s@,
            r@ == uppercased(s@.take(i as int)),
        decreases cs.len() - i,
    {
        r.push(upper_char(cs[i]));
        i = i + 1;
        assert(uppercased(s@.take(i as int)) =~= uppercased(s@.take(i - 1)).push(upper(s@[i - 1])));
    }
    assert(s@.take(i as int) =~= s@);
    r
}

/// ASCII lower case.
pub fn to_lower(s: &str) -> (r: String)
    ensures
        r@ == lowercased(s@),
{
    let cs = chars_of(s);
    let mut r = String::new();
    let mut i: usize = 0;
    while i < cs.len()
        invariant
            i <= cs.len(),
            cs@ == s@,
            r@ == lowercased(s@.take(i as int)),
        decreases cs.len() - i,
    {
        r.push(lower_char(cs[i]));
        i = i + 1;
        assert(lowercased(s@.take(i as int)) =~= lowercased(s@.take(i - 1)).push(lower(s@[i - 1])));
    }
    assert(s@.take(i as int) =~= s@);
    r
}

/// The contents of a list of strings.
pub open spec fn views(v: Seq<String>) -> Seq<Seq<char>> {
    v.map_values(|s: String| s@)
}

/// The position of the last `c` in `s`, or -1 where there is none.
pub open spec fn last_pos(s: Seq<char>, c: char) -> int
    decreases s.len(),
{
    if s.len() == 0 {
        -1
    } else if s.last() == c {
        s.len() - 1
    } else {
        last_pos(s.drop_last(), c)
    }
}

/// Find the last `c`.
pub fn find_last(cs: &Vec<char>, c: char) -> (r: Option<usize>)
    ensures
        match r {
            Some(i) => i == last_pos(cs@, c) && i < cs.len(),
            None => last_pos(cs@, c) == -1,
        },
{
    let mut i: usize = cs.len();
    assert(cs@.take(i as int) =~= cs@);
    while i > 0
        invariant
            i <= cs.len(),
            last_pos(cs@.take(i as int), c) == last_pos(cs@, c),
        decreases i,
    {
        assert(cs@.take(i as int).last() == cs@[i - 1]);
        assert(cs@.take(i as int).drop_last() =~= cs@.take(i - 1));
        if cs[i - 1] == c {
            return Some(i - 1);
        }
        i = i - 1;
    }
    None
}

/// The position of the first `c` in `s`, or the length of `s` where there is none.
pub open spec fn first_pos(s: Seq<char>, c: char) -> nat
    decreases s.len(),
{
    if s.len() == 0 || s[0] == c {
        0
    } else {
        1 + first_pos(s.drop_first(), c)
    }
}

/// [`first_pos`] is in range, is a `c` where it is short of the end, and nothing before
/// it is one.
pub proof fn lemma_first_pos(s: Seq<char>, c: char)
    ensures
        first_pos(s, c) <= s.len(),
        first_pos(s, c) < s.len() ==> s[first_pos(s, c) as int] == c,
        forall|i: int| 0 <= i < first_pos(s, c) ==> s[i] != c,
    decreases s.len(),
{
    if s.len() > 0 && s[0] != c {
        lemma_first_pos(s.drop_first(), c);
        assert forall|i: int| 0 <= i < first_pos(s, c) implies s[i] != c by {
            if i > 0 {
                assert(s.drop_first()[i - 1] != c);
            }
        }
    }
}

/// Find the first `c` at or after `from`.
pub fn find_from(cs: &Vec<char>, from: usize, c: char) -> (r: usize)
    requires
        from <= cs.len(),
    ensures
        from <= r <= cs.len(),
        r == from + first_pos(cs@.skip(from as int), c),
{
    let mut i: usize = from;
    while i < cs.len() && cs[i] != c
        invariant
            from <= i <= cs.len(),
            i + first_pos(cs@.skip(i as int), c) == from + first_pos(cs@.skip(from as int), c),
        decreases cs.len() - i,
    {
        assert(cs@.skip(i as int).drop_first() =~= cs@.skip(i + 1));
        i = i + 1;
    }
    i
}

/// The parts of `s` between the separators `c`. There is one part more than there are
/// separators.
pub open spec fn pieces(s: Seq<char>, c: char) -> Seq<Seq<char>>
    decreases s.len(),
{
    proof {
        lemma_first_pos(s, c);
    }
    let n = first_pos(s, c);
    if n >= s.len() {
        seq![s]
    } else {
        seq![s.take(n as int)] + pieces(s.skip(n as int + 1), c)
    }
}

/// Split at every `c`.
pub fn split_on(s: &str, c: char) -> (r: Vec<String>)
    ensures
        views(r@) == pieces(s@, c),
{
    let cs = chars_of(s);
    let mut r: Vec<String> = Vec::new();
    let mut from: usize = 0;
    assert(cs@.skip(0) =~= cs@);
    assert(views(r@) + pieces(cs@, c) =~= pieces(cs@, c));
    loop
        invariant
            from <= cs.len(),
            cs@ == s@,
            views(r@) + pieces(cs@.skip(from as int), c) == pieces(cs@, c),
        decreases cs.len() - from,
    {
        let rest = Ghost(cs@.skip(from as int));
        let end = find_from(&cs, from, c);
        let part = string_of(&cs, from, end);
        let before = Ghost(views(r@));
        assert(part@ =~= rest@.take(end - from));
        r.push(part);
        assert(views(r@) =~= before@.push(part@));
        if end == cs.len() {
            assert(part@ =~= rest@);
            assert(views(r@) =~= before@ + seq![rest@]);
            return r;
        }
        proof {
            assert(rest@.skip(end - from + 1) =~= cs@.skip(end + 1));
            assert(before@ + (seq![part@] + pieces(cs@.skip(end + 1), c)) =~= before@.push(part@)
                + pieces(cs@.skip(end + 1), c));
        }
        from = end + 1;
    }
}

/// What `trim_start` leaves does not begin with white space, and is no longer than its
/// argument.
pub proof fn lemma_trim_start(s: Seq<char>)
    ensures
        trim_start(s).len() <= s.len(),
        trim_start(s).len() > 0 ==> !is_space(trim_start(s)[0]),
    decreases s.len(),
{
    if s.len() > 0 && is_space(s[0]) {
        lemma_trim_start(s.drop_first());
    }
}

/// How many characters stand before the first white space in `s`.
pub open spec fn word_len(s: Seq<char>) -> nat
    decreases s.len(),
{
    if s.len() == 0 || is_space(s[0]) {
        0
    } else {
        1 + word_len(s.drop_first())
    }
}

/// A first word holds no white space, and what follows it, where anything does, is white space.
pub proof fn lemma_word_len(s: Seq<char>)
    ensures
        word_len(s) <= s.len(),
        word_len(s) < s.len() ==> is_space(s[word_len(s) as int]),
        forall|i: int| 0 <= i < word_len(s) ==> !is_space(s[i]),
    decreases s.len(),
{
    if s.len() > 0 && !is_space(s[0]) {
        lemma_word_len(s.drop_first());
        assert forall|i: int| 0 <= i < word_len(s) implies !is_space(s[i]) by {
            if i > 0 {
                assert(!is_space(s.drop_first()[i - 1]));
            }
        }
    }
}

/// The words of `s`: its maximal runs of characters that are not white space.
pub open spec fn words(s: Seq<char>) -> Seq<Seq<char>>
    decreases s.len(),
{
    proof {
        lemma_trim_start(s);
        lemma_word_len(trim_start(s));
    }
    let t = trim_start(s);
    if t.len() == 0 {
        Seq::empty()
    } else {
        seq![t.take(word_len(t) as int)] + words(t.skip(word_len(t) as int))
    }
}

fn skip_spaces(cs: &Vec<char>, from: usize) -> (r: usize)
    requires
        from <= cs.len(),
    ensures
        from <= r <= cs.len(),
        cs@.skip(r as int) == trim_start(cs@.skip(from as int)),
{
    let mut i: usize = from;
    while i < cs.len() && char_is_space(cs[i])
        invariant
            from <= i <= cs.len(),
            trim_start(cs@.skip(i as int)) == trim_start(cs@.skip(from as int)),
        decreases cs.len() - i,
    {
        assert(cs@.skip(i as int).drop_first() =~= cs@.skip(i + 1));
        i = i + 1;
    }
    i
}

/// Where the word that starts at `from` ends.
pub fn word_end(cs: &Vec<char>, from: usize) -> (r: usize)
    requires
        from <= cs.len(),
    ensures
        from <= r <= cs.len(),
        r == from + word_len(cs@.skip(from as int)),
{
    let mut i: usize = from;
    while i < cs.len() && !char_is_space(cs[i])
        invariant
            from <= i <= cs.len(),
            i + word_len(cs@.skip(i as int)) == from + word_len(cs@.skip(from as int)),
        decreases cs.len() - i,
    {
        assert(cs@.skip(i as int).drop_first() =~= cs@.skip(i + 1));
        i = i + 1;
    }
    i
}

/// Split into words.
pub fn split_words(s: &str) -> (r: Vec<String>)
    ensures
        views(r@) == words(s@),
{
    let cs = chars_of(s);
    let mut r: Vec<String> = Vec::new();
    let mut from: usize = 0;
    assert(cs@.skip(0) =~= cs@);
    assert(views(r@) + words(cs@) =~= words(cs@));
    loop
        invariant
            from <= cs.len(),
            cs@ == s@,
            views(r@) + words(cs@.skip(from as int)) == words(cs@),
        decreases cs.len() - from,
    {
        let start = skip_spaces(&cs, from);
        let before = Ghost(views(r@));
        if start == cs.len() {
            assert(views(r@) + words(cs@.skip(from as int)) =~= views(r@));
            return r;
        }
        let end = word_end(&cs, start);
        let word = string_of(&cs, start, end);
        proof {
            lemma_trim_start(cs@.skip(from as int));
            let t = cs@.skip(start as int);
            assert(t[0] == cs@[start as int]);
            assert(t.skip(end - start) =~= cs@.skip(end as int));
            assert(word@ =~= t.take(end - start));
            assert(before@ + (seq![word@] + words(cs@.skip(end as int))) =~= before@.push(word@)
                + words(cs@.skip(end as int)));
        }
        r.push(word);
        assert(views(r@) =~= before@.push(word@));
        from = end;
    }
}

/// Whether `s` begins with `p`.
pub open spec fn has_prefix(s: Seq<char>, p: Seq<char>) -> bool {
    p.len() <= s.len() && s.take(p.len() as int) == p
}

/// Whether `s` ends with `p`.
pub open spec fn has_suffix(s: Seq<char>, p: Seq<char>) -> bool {
    p.len() <= s.len() && s.skip(s.len() - p.len()) == p
}

/// Whether `p` stands in `s` at position `i`.
pub open spec fn occurs_at(s: Seq<char>, p: Seq<char>, i: int) -> bool {
    0 <= i && i + p.len() <= s.len() && s.subrange(i, i + p.len()) == p
}

/// Whether `p` stands anywhere in `s`.
pub open spec fn contains_text(s: Seq<char>, p: Seq<char>) -> bool {
    exists|i: int| #[trigger] occurs_at(s, p, i)
}

fn matches_at(cs: &Vec<char>, ps: &Vec<char>, at: usize) -> (r: bool)
    requires
        at + ps.len() <= cs.len(),
    ensures
        r == occurs_at(cs@, ps@, at as int),
{
    let mut i: usize = 0;
    while i < ps.len()
        invariant
            i <= ps.len(),
            at + ps.len() <= cs.len(),
            forall|j: int| 0 <= j < i ==> cs@[at + j] == ps@[j],
        decreases ps.len() - i,
    {
        if cs[at + i] != ps[i] {
            assert(cs@.subrange(at as int, at + ps.len())[i as int] != ps@[i as int]);
            return false;
        }
        i = i + 1;
    }
    assert(cs@.subrange(at as int, at + ps.len()) =~= ps@);
    true
}

/// Decide [`has_prefix`].
pub fn starts_with(s: &str, p: &str) -> (r: bool)
    ensures
        r == has_prefix(s@, p@),
{
    let cs = chars_of(s);
    let ps = chars_of(p);
    if ps.len() > cs.len() {
        return false;
    }
    assert(s@.subrange(0, ps@.len() as int) =~= s@.take(ps@.len() as int));
    matches_at(&cs, &ps, 0)
}

/// Decide [`has_suffix`].
pub fn ends_with(s: &str, p: &str) -> (r: bool)
    ensures
        r == has_suffix(s@, p@),
{
    let cs = chars_of(s);
    let ps = chars_of(p);
    if ps.len() > cs.len() {
        return false;
    }
    let at = cs.len() - ps.len();
    assert(s@.subrange(at as int, at + ps@.len()) =~= s@.skip(at as int));
    matches_at(&cs, &ps, at)
}

/// Decide [`contains_text`].
pub fn contains(s: &str, p: &str) -> (r: bool)
    ensures
        r == contains_text(s@, p@),
{
    let cs = chars_of(s);
    let ps = chars_of(p);
    if ps.len() > cs.len() {
        return false;
    }
    let last = cs.len() - ps.len();
    let mut at: usize = 0;
    loop
        invariant
            at <= last,
            last + ps.len() == cs.len(),
            cs@ == s@,
            ps@ == p@,
            forall|i: int| 0 <= i < at ==> !occurs_at(s@, p@, i),
        decreases last - at,
    {
        if matches_at(&cs, &ps, at) {
            return true;
        }
        if at == last {
            assert forall|i: int| !occurs_at(s@, p@, i) by {
                if 0 <= i && i + p@.len() <= s@.len() {
                    assert(i <= last);
                }
            }
            return false;
        }
        at = at + 1;
    }
}

/// `s` without the prefix `p`.
pub fn strip_prefix(s: &str, p: &str) -> (r: Option<String>)
    ensures
        r is Some <==> has_prefix(s@, p@),
        r matches Some(rest) ==> rest@ == s@.skip(p@.len() as int),
{
    if !starts_with(s, p) {
        return None;
    }
    let cs = chars_of(s);
    let n = chars_of(p).len();
    let rest = string_of(&cs, n, cs.len());
    assert(rest@ =~= s@.skip(n as int));
    Some(rest)
}

/// `s` without the suffix `p`.
pub fn strip_suffix(s: &str, p: &str) -> (r: Option<String>)
    ensures
        r is Some <==> has_suffix(s@, p@),
        r matches Some(rest) ==> rest@ == s@.take(s@.len() - p@.len()),
{
    if !ends_with(s, p) {
        return None;
    }
    let cs = chars_of(s);
    let n = chars_of(p).len();
    let rest = string_of(&cs, 0, cs.len() - n);
    assert(rest@ =~= s@.take(s@.len() - n));
    Some(rest)
}

/// `s` without the characters `c` at its end.
pub open spec fn without_trailing(s: Seq<char>, c: char) -> Seq<char>
    decreases s.len(),
{
    if s.len() > 0 && s.last() == c {
        without_trailing(s.drop_last(), c)
    } else {
        s
    }
}

/// Remove the characters `c` at the end.
pub fn strip_trailing(s: &str, c: char) -> (r: String)
    ensures
        r@ == without_trailing(s@, c),
{
    let cs = chars_of(s);
    let mut to: usize = cs.len();
    assert(cs@.take(to as int) =~= cs@);
    while to > 0 && cs[to - 1] == c
        invariant
            to <= cs.len(),
            without_trailing(cs@.take(to as int), c) == without_trailing(cs@, c),
        decreases to,
    {
        assert(cs@.take(to as int).drop_last() =~= cs@.take(to - 1));
        to = to - 1;
    }
    assert(cs@.subrange(0, to as int) =~= cs@.take(to as int));
    string_of(&cs, 0, to)
}

/// The decimal digit for `d`.
pub open spec fn digit(d: nat) -> char {
    ((48 + d) as u32) as char
}

/// The decimal spelling of `n`, without leading zeros.
pub open spec fn decimal(n: nat) -> Seq<char>
    decreases n,
{
    if n < 10 {
        seq![digit(n)]
    } else {
        decimal(n / 10).push(digit(n % 10))
    }
}

/// Spell `n` in decimal.
pub fn number(n: u64) -> (r: String)
    ensures
        r@ == decimal(n as nat),
    decreases n,
{
    let d: u8 = (n % 10) as u8;
    let mut r = if n < 10 {
        String::new()
    } else {
        number(n / 10)
    };
    let before = Ghost(r@);
    r.push((48 + d) as char);
    assert(n < 10 ==> r@ =~= seq![digit(n as nat)]);
    r
}

/// Whether `c` is a decimal digit.
pub open spec fn is_digit(c: char) -> bool {
    '0' <= c <= '9'
}

/// The number that a string of decimal digits spells.
pub open spec fn digits_value(s: Seq<char>) -> nat
    decreases s.len(),
{
    if s.len() == 0 {
        0
    } else {
        (10 * digits_value(s.drop_last()) + (s.last() as u32 - 48)) as nat
    }
}

/// The digits of an unsigned number, which an optional `+` may precede.
pub open spec fn unsigned_digits(s: Seq<char>) -> Seq<char> {
    if s.len() > 0 && s[0] == '+' {
        s.drop_first()
    } else {
        s
    }
}

/// The unsigned number that `s` spells, where it spells one that is at most `max`: an
/// optional `+`, then one or more decimal digits.
pub open spec fn unsigned_value(s: Seq<char>, max: nat) -> Option<nat> {
    let d = unsigned_digits(s);
    if d.len() > 0 && (forall|i: int| 0 <= i < d.len() ==> is_digit(#[trigger] d[i]))
        && digits_value(d) <= max {
        Some(digits_value(d))
    } else {
        None
    }
}

proof fn lemma_digits_grow(s: Seq<char>, n: int)
    requires
        0 <= n <= s.len(),
        forall|i: int| 0 <= i < s.len() ==> is_digit(#[trigger] s[i]),
    ensures
        digits_value(s.take(n)) <= digits_value(s),
    decreases s.len(),
{
    if n == s.len() {
        assert(s.take(n) =~= s);
    } else {
        lemma_digits_grow(s.drop_last(), n);
        assert(s.drop_last().take(n) =~= s.take(n));
        assert(is_digit(s[s.len() - 1]));
    }
}

/// Read an unsigned number of at most `max`.
pub fn parse_unsigned(s: &str, max: u64) -> (r: Option<u64>)
    ensures
        r is Some <==> unsigned_value(s@, max as nat) is Some,
        r matches Some(v) ==> unsigned_value(s@, max as nat) == Some(v as nat),
{
    let cs = chars_of(s);
    let start: usize = if cs.len() > 0 && cs[0] == '+' {
        1
    } else {
        0
    };
    let d = Ghost(unsigned_digits(s@));
    assert(d@ =~= s@.skip(start as int));
    if cs.len() == start {
        return None;
    }
    let mut v: u64 = 0;
    let mut i: usize = start;
    assert(d@.take(0) =~= Seq::empty());
    while i < cs.len()
        invariant
            start <= i <= cs.len(),
            cs@ == s@,
            d@ == s@.skip(start as int),
            d@ == unsigned_digits(s@),
            v <= max,
            forall|j: int| 0 <= j < i - start ==> is_digit(#[trigger] d@[j]),
            v == digits_value(d@.take(i - start)),
        decreases cs.len() - i,
    {
        let c = cs[i];
        assert(d@[i - start] == c);
        if !('0' <= c && c <= '9') {
            assert(!is_digit(d@[i - start]));
            return None;
        }
        let x: u64 = (c as u32 - 48) as u64;
        assert(d@.take(i - start + 1).drop_last() =~= d@.take(i - start));
        assert(digits_value(d@.take(i - start + 1)) == 10 * v + x);
        if x > max || v > (max - x) / 10 {
            proof {
                assert(10 * v + x > max);
                if forall|j: int| 0 <= j < d@.len() ==> is_digit(#[trigger] d@[j]) {
                    lemma_digits_grow(d@, i - start + 1);
                }
            }
            return None;
        }
        assert(10 * v + x <= max);
        v = 10 * v + x;
        i = i + 1;
    }
    assert(d@.take(i - start) =~= d@);
    Some(v)
}

/// `l` without one trailing carriage return.
pub open spec fn strip_cr(l: Seq<char>) -> Seq<char> {
    if l.len() > 0 && l.last() == '\r' {
        l.drop_last()
    } else {
        l
    }
}

/// The lines of `s`. A line ends at a line feed, or at a carriage return and a line feed;
/// the last line needs neither.
pub open spec fn lines(s: Seq<char>) -> Seq<Seq<char>>
    decreases s.len(),
{
    proof {
        lemma_first_pos(s, '\n');
    }
    let n = first_pos(s, '\n');
    if s.len() == 0 {
        Seq::empty()
    } else if n >= s.len() {
        seq![s]
    } else {
        seq![strip_cr(s.take(n as int))] + lines(s.skip(n as int + 1))
    }
}

/// Split into lines.
pub fn split_lines(s: &str) -> (r: Vec<String>)
    ensures
        views(r@) == lines(s@),
{
    let cs = chars_of(s);
    let mut r: Vec<String> = Vec::new();
    let mut from: usize = 0;
    assert(cs@.skip(0) =~= cs@);
    assert(views(r@) + lines(cs@) =~= lines(cs@));
    while from < cs.len()
        invariant
            from <= cs.len(),
            cs@ == s@,
            views(r@) + lines(cs@.skip(from as int)) == lines(cs@),
        decreases cs.len() - from,
    {
        let rest = Ghost(cs@.skip(from as int));
        let before = Ghost(views(r@));
        let end = find_from(&cs, from, '\n');
        if end == cs.len() {
            let line = string_of(&cs, from, end);
            assert(line@ =~= rest@);
            r.push(line);
            assert(views(r@) =~= before@ + seq![rest@]);
            assert(cs@.skip(end as int) =~= Seq::empty());
            assert(views(r@) + lines(cs@.skip(end as int)) =~= views(r@));
            from = end;
        } else {
            assert(rest@.take(end - from) =~= cs@.subrange(from as int, end as int));
            let stop: usize = if end > from && cs[end - 1] == '\r' {
                end - 1
            } else {
                end
            };
            let line = string_of(&cs, from, stop);
            proof {
                assert(line@ =~= strip_cr(rest@.take(end - from)));
                assert(rest@.skip(end - from + 1) =~= cs@.skip(end + 1));
                assert(before@ + (seq![line@] + lines(cs@.skip(end + 1))) =~= before@.push(line@)
                    + lines(cs@.skip(end + 1)));
            }
            r.push(line);
            assert(views(r@) =~= before@.push(line@));
            from = end + 1;
        }
    }
    assert(cs@.skip(from as int) =~= Seq::empty());
    assert(views(r@) + lines(cs@.skip(from as int)) =~= views(r@));
    r
}

/// The elements of `list` with `sep` between each two.
pub open spec fn joined(list: Seq<Seq<char>>, sep: Seq<char>) -> Seq<char>
    decreases list.len(),
{
    if list.len() == 0 {
        Seq::empty()
    } else if list.len() == 1 {
        list[0]
    } else {
        joined(list.drop_last(), sep) + sep + list.last()
    }
}

/// Join strings with a separator.
pub fn join(list: &Vec<String>, sep: &str) -> (r: String)
    ensures
        r@ == joined(views(list@), sep@),
{
    let mut r = String::new();
    let mut i: usize = 0;
    let all = Ghost(views(list@));
    while i < list.len()
        invariant
            i <= list.len(),
            all@ == views(list@),
            r@ == joined(all@.take(i as int), sep@),
        decreases list.len() - i,
    {
        assert(all@.take(i + 1).drop_last() =~= all@.take(i as int));
        assert(all@.take(i + 1).last() == list@[i as int]@);
        if i > 0 {
            r.append(sep);
        } else {
            assert(r@ + list@[0]@ =~= list@[0]@);
        }
        r.append(list[i].as_str());
        i = i + 1;
    }
    assert(all@.take(i as int) =~= all@);
    r
}

} // verus!
