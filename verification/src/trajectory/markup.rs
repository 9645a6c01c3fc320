//! The markup of an XML text, as far as it tells where tags begin and end and what they say.
//!
//! A text that is no XML has no markup from the place on where it goes wrong.

use crate::text::{same, string_of};
use vstd::prelude::*;

verus! {

/// More closing brackets in a row, inside a CDATA section, than the URDF reader counts.
pub const MAX_BRACKETS: usize = 255;

/// White space between the parts of a tag.
pub open spec fn is_blank(c: char) -> bool {
    c == ' ' || c == '\t' || c == '\r' || c == '\n'
}

fn char_is_blank(c: char) -> (r: bool)
    ensures
        r == is_blank(c),
{
    c == ' ' || c == '\t' || c == '\r' || c == '\n'
}

/// What ends a run of characters.
#[derive(Clone, Copy, Debug)]
pub enum Until {
    Char(char),
    NotBlank,
    /// The end of a name in an opening tag.
    NameEnd,
    /// The end of a name in a closing tag.
    ClosingNameEnd,
    /// The end of the name of an attribute.
    AttributeNameEnd,
    /// The end of an entity, or the beginning of another one.
    EntityEnd,
}

impl Until {
    pub open spec fn stops(self, c: char) -> bool {
        match self {
            Until::Char(x) => c == x,
            Until::NotBlank => !is_blank(c),
            Until::NameEnd => is_blank(c) || c == '/' || c == '>',
            Until::ClosingNameEnd => is_blank(c) || c == '>',
            Until::AttributeNameEnd => is_blank(c) || c == '=',
            Until::EntityEnd => c == ';' || c == '&',
        }
    }

    fn stops_at(self, c: char) -> (r: bool)
        ensures
            r == self.stops(c),
    {
        match self {
            Until::Char(x) => c == x,
            Until::NotBlank => !char_is_blank(c),
            Until::NameEnd => char_is_blank(c) || c == '/' || c == '>',
            Until::ClosingNameEnd => char_is_blank(c) || c == '>',
            Until::AttributeNameEnd => char_is_blank(c) || c == '=',
            Until::EntityEnd => c == ';' || c == '&',
        }
    }
}

/// The first place from `i` on at which a run of characters ends; the end of the text where it
/// does not.
pub open spec fn find(t: Seq<char>, i: int, until: Until) -> int
    decreases t.len() - i,
{
    if i >= t.len() {
        t.len() as int
    } else if until.stops(t[i]) {
        i
    } else {
        find(t, i + 1, until)
    }
}

/// A run ends behind its beginning and inside the text, at something that ends it.
pub proof fn lemma_find(t: Seq<char>, i: int, until: Until)
    requires
        0 <= i,
    ensures
        find(t, i, until) <= t.len(),
        i <= t.len() ==> i <= find(t, i, until),
        find(t, i, until) < t.len() ==> i <= find(t, i, until) && until.stops(
            t[find(t, i, until)],
        ),
    decreases t.len() - i,
{
    if i < t.len() && !until.stops(t[i]) {
        lemma_find(t, i + 1, until);
    }
}

/// Decide [`find`].
pub fn seek(cs: &Vec<char>, from: usize, until: Until) -> (r: usize)
    requires
        from <= cs.len(),
    ensures
        r == find(cs@, from as int, until),
        from <= r <= cs.len(),
        r < cs.len() ==> until.stops(cs@[r as int]),
{
    let mut i: usize = from;
    while i < cs.len() && !until.stops_at(cs[i])
        invariant
            from <= i <= cs.len(),
            find(cs@, i as int, until) == find(cs@, from as int, until),
        decreases cs.len() - i,
    {
        i = i + 1;
    }
    i
}

/// The value of a digit.
pub open spec fn digit_in(c: char, radix: nat) -> Option<nat> {
    if '0' <= c <= '9' {
        Some((c as u32 - '0' as u32) as nat)
    } else if radix == 16 && 'a' <= c <= 'f' {
        Some((c as u32 - 'a' as u32 + 10) as nat)
    } else if radix == 16 && 'A' <= c <= 'F' {
        Some((c as u32 - 'A' as u32 + 10) as nat)
    } else {
        None
    }
}

fn digit_value(c: char, radix: u64) -> (r: Option<u64>)
    ensures
        match r {
            Some(d) => digit_in(c, radix as nat) == Some(d as nat) && d < 16,
            None => digit_in(c, radix as nat) is None,
        },
{
    let n: u32 = c as u32;
    if '0' <= c && c <= '9' {
        Some((n - 48) as u64)
    } else if radix == 16 && 'a' <= c && c <= 'f' {
        Some((n - 87) as u64)
    } else if radix == 16 && 'A' <= c && c <= 'F' {
        Some((n - 55) as u64)
    } else {
        None
    }
}

/// The number that the digits from `i` to `end` go on to spell, behind digits that spell `n`. It
/// has to fit 32 bits.
pub open spec fn spelled(t: Seq<char>, i: int, end: int, radix: nat, n: nat) -> Option<nat>
    decreases end - i,
{
    if i >= end {
        Some(n)
    } else {
        match digit_in(t[i], radix) {
            Some(d) => if n * radix + d <= u32::MAX {
                spelled(t, i + 1, end, radix, n * radix + d)
            } else {
                None
            },
            None => None,
        }
    }
}

/// The number that stands from `i` to `end`: digits, behind a plus sign or not.
pub open spec fn number_at(t: Seq<char>, i: int, end: int, radix: nat) -> Option<nat> {
    let from = if i < end && t[i] == '+' {
        i + 1
    } else {
        i
    };
    if from >= end {
        None
    } else {
        spelled(t, from, end, radix, 0)
    }
}

fn read_number(cs: &Vec<char>, i: usize, end: usize, radix: u64) -> (r: Option<u64>)
    requires
        i <= end <= cs.len(),
        radix == 10 || radix == 16,
    ensures
        match r {
            Some(n) => number_at(cs@, i as int, end as int, radix as nat) == Some(n as nat) && n
                <= u32::MAX,
            None => number_at(cs@, i as int, end as int, radix as nat) is None,
        },
{
    let from = if i < end && cs[i] == '+' {
        i + 1
    } else {
        i
    };
    if from >= end {
        return None;
    }
    let mut n: u64 = 0;
    let mut k: usize = from;
    while k < end
        invariant
            from <= k <= end <= cs.len(),
            from < end,
            i <= end,
            from == (if i < end && cs@[i as int] == '+' {
                i + 1
            } else {
                i as int
            }),
            n <= u32::MAX,
            radix == 10 || radix == 16,
            spelled(cs@, k as int, end as int, radix as nat, n as nat) == spelled(
                cs@,
                from as int,
                end as int,
                radix as nat,
                0,
            ),
        decreases end - k,
    {
        match digit_value(cs[k], radix) {
            Some(d) => {
                assert(n * radix + d <= u32::MAX * 16 + 16) by (nonlinear_arith)
                    requires
                        n <= u32::MAX,
                        radix <= 16,
                        d < 16,
                ;
                let next: u64 = n * radix + d;
                if next > 0xFFFF_FFFF {
                    return None;
                }
                n = next;
            },
            None => {
                return None;
            },
        }
        k = k + 1;
    }
    Some(n)
}

/// The character, by its number, that the entity from `i` to `end` stands for.
pub open spec fn entity_at(t: Seq<char>, i: int, end: int) -> Option<u32> {
    let name = t.subrange(i, end);
    if name == "quot"@ {
        Some(34u32)
    } else if name == "apos"@ {
        Some(39u32)
    } else if name == "gt"@ {
        Some(62u32)
    } else if name == "lt"@ {
        Some(60u32)
    } else if name == "amp"@ {
        Some(38u32)
    } else if i < end && t[i] == '#' {
        let n = if i + 1 < end && t[i + 1] == 'x' {
            number_at(t, i + 2, end, 16)
        } else {
            number_at(t, i + 1, end, 10)
        };
        match n {
            Some(c) => if c < 0xD800 || 0xE000 <= c <= 0x10FFFF {
                Some(c as u32)
            } else {
                None
            },
            None => None,
        }
    } else {
        None
    }
}

fn read_entity(cs: &Vec<char>, i: usize, end: usize) -> (r: Option<u32>)
    requires
        i <= end <= cs.len(),
    ensures
        r == entity_at(cs@, i as int, end as int),
{
    let name = string_of(cs, i, end);
    if same(name.as_str(), "quot") {
        Some(34)
    } else if same(name.as_str(), "apos") {
        Some(39)
    } else if same(name.as_str(), "gt") {
        Some(62)
    } else if same(name.as_str(), "lt") {
        Some(60)
    } else if same(name.as_str(), "amp") {
        Some(38)
    } else if i < end && cs[i] == '#' {
        let n = if i + 1 < end && cs[i + 1] == 'x' {
            read_number(cs, i + 2, end, 16)
        } else {
            read_number(cs, i + 1, end, 10)
        };
        match n {
            Some(c) => if c < 0xD800 || (0xE000 <= c && c <= 0x10FFFF) {
                Some(c as u32)
            } else {
                None
            },
            None => None,
        }
    } else {
        None
    }
}

/// The characters, by their numbers, from `i` to `end` with the entities among them replaced;
/// `None` where one of these stands for nothing.
pub open spec fn unescaped(t: Seq<char>, i: int, end: int) -> Option<Seq<u32>>
    decreases end - i,
{
    if i >= end {
        Some(Seq::empty())
    } else if t[i] != '&' {
        match unescaped(t, i + 1, end) {
            Some(rest) => Some(seq![t[i] as u32] + rest),
            None => None,
        }
    } else {
        let b = find(t, i + 1, Until::EntityEnd);
        if b <= i || b >= end || t[b] != ';' {
            None
        } else {
            match (entity_at(t, i + 1, b), unescaped(t, b + 1, end)) {
                (Some(c), Some(rest)) => Some(seq![c] + rest),
                _ => None,
            }
        }
    }
}

/// Replace the entities from `from` to `end`.
pub fn unescape(cs: &Vec<char>, from: usize, end: usize) -> (r: Option<Vec<u32>>)
    requires
        from <= end <= cs.len(),
    ensures
        match r {
            Some(v) => unescaped(cs@, from as int, end as int) == Some(v@),
            None => unescaped(cs@, from as int, end as int) is None,
        },
{
    let mut v: Vec<u32> = Vec::new();
    let mut i: usize = from;
    while i < end
        invariant
            from <= i <= end <= cs.len(),
            match unescaped(cs@, i as int, end as int) {
                Some(rest) => unescaped(cs@, from as int, end as int) == Some(v@ + rest),
                None => unescaped(cs@, from as int, end as int) is None,
            },
        decreases end - i,
    {
        let ghost before = v@;
        if cs[i] != '&' {
            v.push(cs[i] as u32);
            proof {
                if let Some(rest) = unescaped(cs@, i + 1, end as int) {
                    assert(before + (seq![cs@[i as int] as u32] + rest) =~= v@ + rest);
                }
            }
            i = i + 1;
        } else {
            let b = seek(cs, i + 1, Until::EntityEnd);
            if b >= end || cs[b] != ';' {
                return None;
            }
            match read_entity(cs, i + 1, b) {
                Some(c) => {
                    v.push(c);
                    proof {
                        if let Some(rest) = unescaped(cs@, b + 1, end as int) {
                            assert(before + (seq![c] + rest) =~= v@ + rest);
                        }
                    }
                },
                None => {
                    return None;
                },
            }
            i = b + 1;
        }
    }
    assert(v@ + Seq::<u32>::empty() =~= v@);
    Some(v)
}

/// An attribute of a tag: its name, and its value by the numbers of its characters.
#[derive(Debug)]
pub struct Attribute {
    pub name: String,
    pub value: Vec<u32>,
}

impl View for Attribute {
    type V = (Seq<char>, Seq<u32>);

    open spec fn view(&self) -> (Seq<char>, Seq<u32>) {
        (self.name@, self.value@)
    }
}

/// The attribute whose name begins at `j`, and the place behind its value.
pub open spec fn attribute_at(t: Seq<char>, j: int) -> Option<((Seq<char>, Seq<u32>), int)> {
    let k = find(t, j + 1, Until::AttributeNameEnd);
    let e = find(t, k, Until::NotBlank);
    let d = find(t, e + 1, Until::NotBlank);
    if e >= t.len() || t[e] != '=' || d >= t.len() || (t[d] != '"' && t[d] != '\'') {
        None
    } else {
        let v = find(t, d + 1, Until::Char(t[d]));
        if v >= t.len() {
            None
        } else {
            match unescaped(t, d + 1, v) {
                Some(value) => Some(((t.subrange(j, k), value), v + 1)),
                None => None,
            }
        }
    }
}

/// An attribute takes up some of the text.
pub proof fn lemma_attribute(t: Seq<char>, j: int)
    requires
        0 <= j < t.len(),
    ensures
        attribute_at(t, j) matches Some(a) ==> j < a.1 <= t.len(),
{
    let k = find(t, j + 1, Until::AttributeNameEnd);
    lemma_find(t, j + 1, Until::AttributeNameEnd);
    let e = find(t, k, Until::NotBlank);
    lemma_find(t, k, Until::NotBlank);
    if e < t.len() {
        let d = find(t, e + 1, Until::NotBlank);
        lemma_find(t, e + 1, Until::NotBlank);
        if d < t.len() {
            lemma_find(t, d + 1, Until::Char(t[d]));
        }
    }
}

fn read_attribute(cs: &Vec<char>, j: usize) -> (r: Option<(Attribute, usize)>)
    requires
        j < cs.len(),
    ensures
        match r {
            Some(a) => attribute_at(cs@, j as int) == Some((a.0@, a.1 as int)) && j < a.1
                <= cs.len(),
            None => attribute_at(cs@, j as int) is None,
        },
{
    let k = seek(cs, j + 1, Until::AttributeNameEnd);
    let e = seek(cs, k, Until::NotBlank);
    if e >= cs.len() || cs[e] != '=' {
        return None;
    }
    let d = seek(cs, e + 1, Until::NotBlank);
    if d >= cs.len() || (cs[d] != '"' && cs[d] != '\'') {
        return None;
    }
    let v = seek(cs, d + 1, Until::Char(cs[d]));
    if v >= cs.len() {
        return None;
    }
    match unescape(cs, d + 1, v) {
        Some(value) => Some((Attribute { name: string_of(cs, j, k), value }, v + 1)),
        None => None,
    }
}

/// The attributes of the tag that goes on at `i`, and the place at which it ends.
pub open spec fn attributes_at(t: Seq<char>, i: int) -> Option<
    (Seq<(Seq<char>, Seq<u32>)>, int),
>
    decreases t.len() - i,
{
    let j = find(t, i, Until::NotBlank);
    if i < 0 || j < i || j >= t.len() {
        None
    } else if t[j] == '/' || t[j] == '>' {
        Some((Seq::empty(), j))
    } else {
        proof {
            lemma_attribute(t, j);
        }
        match attribute_at(t, j) {
            Some(a) => match attributes_at(t, a.1) {
                Some(rest) => Some((seq![a.0] + rest.0, rest.1)),
                None => None,
            },
            None => None,
        }
    }
}

/// What a list of attributes says.
pub open spec fn said(attributes: Seq<Attribute>) -> Seq<(Seq<char>, Seq<u32>)> {
    attributes.map_values(|a: Attribute| a@)
}

/// Read the attributes of a tag.
pub fn read_attributes(cs: &Vec<char>, from: usize) -> (r: Option<(Vec<Attribute>, usize)>)
    requires
        from <= cs.len(),
    ensures
        match r {
            Some(a) => {
                &&& attributes_at(cs@, from as int) == Some((said(a.0@), a.1 as int))
                &&& from <= a.1 < cs.len()
                &&& cs@[a.1 as int] == '/' || cs@[a.1 as int] == '>'
            },
            None => attributes_at(cs@, from as int) is None,
        },
{
    let mut all: Vec<Attribute> = Vec::new();
    let mut i: usize = from;
    assert(said(all@) =~= Seq::empty());
    loop
        invariant
            from <= i <= cs.len(),
            match attributes_at(cs@, i as int) {
                Some(rest) => attributes_at(cs@, from as int) == Some(
                    (said(all@) + rest.0, rest.1),
                ),
                None => attributes_at(cs@, from as int) is None,
            },
        decreases cs.len() - i,
    {
        let j = seek(cs, i, Until::NotBlank);
        if j >= cs.len() {
            return None;
        }
        if cs[j] == '/' || cs[j] == '>' {
            assert(said(all@) + Seq::empty() =~= said(all@));
            return Some((all, j));
        }
        let ghost before = said(all@);
        match read_attribute(cs, j) {
            Some((a, next)) => {
                let ghost one = a@;
                all.push(a);
                assert(said(all@) =~= before.push(one));
                proof {
                    if let Some(rest) = attributes_at(cs@, next as int) {
                        assert(before + (seq![one] + rest.0) =~= said(all@) + rest.0);
                    }
                }
                i = next;
            },
            None => {
                return None;
            },
        }
    }
}

/// Where something that is no tag ends.
#[derive(Clone, Copy, PartialEq, Eq, Debug, Structural)]
pub enum Past {
    /// At this place.
    At(usize),
    /// Nowhere, or it is none.
    Nowhere,
    /// Behind more closing brackets in a row than are counted.
    Uncounted,
}

/// The place behind the first two dashes from `i` on.
pub open spec fn dashes(t: Seq<char>, i: int) -> int
    decreases t.len() - i,
{
    if i + 1 >= t.len() {
        t.len() as int
    } else if t[i] == '-' && t[i + 1] == '-' {
        i + 2
    } else {
        dashes(t, i + 1)
    }
}

/// Where the CDATA section ends that goes on at `i` behind `n` closing brackets.
pub open spec fn section_end(t: Seq<char>, i: int, n: nat) -> Past
    decreases t.len() - i,
{
    if i >= t.len() {
        Past::Nowhere
    } else if t[i] == ']' {
        if n >= MAX_BRACKETS {
            Past::Uncounted
        } else {
            section_end(t, i + 1, n + 1)
        }
    } else if t[i] == '>' && n >= 2 {
        Past::At((i + 1) as usize)
    } else {
        section_end(t, i + 1, 0)
    }
}

/// Where the comment, section or document type ends that goes on at `i`, behind an exclamation
/// mark.
pub open spec fn declaration_end(t: Seq<char>, i: int) -> Past {
    if i + 1 < t.len() && t[i] == '-' && t[i + 1] == '-' {
        let b = dashes(t, i + 2);
        if b < t.len() && t[b] == '>' {
            Past::At((b + 1) as usize)
        } else {
            Past::Nowhere
        }
    } else if i + 7 <= t.len() && t.subrange(i, i + 7) == "[CDATA["@ {
        section_end(t, i + 7, 0)
    } else if i + 7 < t.len() && t.subrange(i, i + 7) == "DOCTYPE"@ && is_blank(t[i + 7]) {
        let g = find(t, i + 8, Until::Char('>'));
        if g < t.len() {
            Past::At((g + 1) as usize)
        } else {
            Past::Nowhere
        }
    } else {
        Past::Nowhere
    }
}

fn skip_section(cs: &Vec<char>, from: usize) -> (r: Past)
    requires
        from <= cs.len(),
    ensures
        r == section_end(cs@, from as int, 0),
        r matches Past::At(p) ==> from < p <= cs.len(),
{
    let mut i: usize = from;
    let mut n: usize = 0;
    while i < cs.len()
        invariant
            from <= i <= cs.len(),
            n <= MAX_BRACKETS,
            section_end(cs@, i as int, n as nat) == section_end(cs@, from as int, 0),
        decreases cs.len() - i,
    {
        if cs[i] == ']' {
            if n >= MAX_BRACKETS {
                return Past::Uncounted;
            }
            n = n + 1;
        } else if cs[i] == '>' && n >= 2 {
            return Past::At(i + 1);
        } else {
            n = 0;
        }
        i = i + 1;
    }
    Past::Nowhere
}

/// Find the end of what an exclamation mark begins.
pub fn skip_declaration(cs: &Vec<char>, i: usize) -> (r: Past)
    requires
        i <= cs.len(),
    ensures
        r == declaration_end(cs@, i as int),
        r matches Past::At(p) ==> i < p <= cs.len(),
{
    let left: usize = cs.len() - i;
    if left >= 2 && cs[i] == '-' && cs[i + 1] == '-' {
        let mut b: usize = i + 2;
        while cs.len() - b >= 2 && !(cs[b] == '-' && cs[b + 1] == '-')
            invariant
                i + 2 <= b <= cs.len(),
                dashes(cs@, b as int) == dashes(cs@, i + 2),
            decreases cs.len() - b,
        {
            b = b + 1;
        }
        if cs.len() - b >= 3 && cs[b + 2] == '>' {
            return Past::At(b + 3);
        }
        return Past::Nowhere;
    }
    if left >= 7 {
        let word = string_of(cs, i, i + 7);
        if same(word.as_str(), "[CDATA[") {
            return skip_section(cs, i + 7);
        }
        if left >= 8 && same(word.as_str(), "DOCTYPE") && char_is_blank(cs[i + 7]) {
            let g = seek(cs, i + 8, Until::Char('>'));
            if g < cs.len() {
                return Past::At(g + 1);
            }
        }
    }
    Past::Nowhere
}

} // verus!
