//! What holds of the robot descriptions that the URDF reader can be handed: an ordinary one is never
//! turned away.

use crate::text::{contains_text, first_pos, lemma_first_pos, occurs_at};
use crate::trajectory::markup::{
    attribute_at, attributes_at, declaration_end, find, lemma_attribute, lemma_find, section_end, Until,
};
use crate::trajectory::urdf::{
    attribute_names, blank_document, declaration, declarations, default_inside, ended,
    goes_beyond, is_beyond_reader, is_countable, lacks_prefix, lookup, recorded, split,
    started, step, DocumentView, Step,
};
use vstd::prelude::*;

verus! {

/// Whether a name has no prefix and declares nothing.
pub open spec fn is_bare_name(name: Seq<char>) -> bool {
    !name.contains(':') && name != "xmlns"@
}

/// Whether a text speaks of no namespace: it holds no colon, and `xmlns` nowhere.
pub open spec fn is_bare_text(t: Seq<char>) -> bool {
    !t.contains(':') && !contains_text(t, "xmlns"@)
}

/// Whether a document has met no namespace.
spec fn is_bare(d: DocumentView) -> bool {
    &&& d.bindings == blank_document().bindings
    &&& d.known == blank_document().known
    &&& !d.lost
    &&& forall|i: int|
        0 <= i < d.open.len() ==> {
            &&& (#[trigger] d.open[i]).name.0 is None
            &&& d.open[i].default is None
            &&& d.open[i].bindings == 2
            &&& d.open[i].known == 2
        }
}

spec fn are_bare(attributes: Seq<(Seq<char>, Seq<u32>)>) -> bool {
    forall|i: int| 0 <= i < attributes.len() ==> is_bare_name((#[trigger] attributes[i]).0)
}

proof fn lemma_part_is_bare(t: Seq<char>, i: int, k: int)
    requires
        is_bare_text(t),
        0 <= i <= k <= t.len(),
    ensures
        is_bare_name(t.subrange(i, k)),
{
    let name = t.subrange(i, k);
    if name.contains(':') {
        let j = choose|j: int| 0 <= j < name.len() && name[j] == ':';
        assert(t[i + j] == ':');
    }
    if name == "xmlns"@ {
        assert(occurs_at(t, "xmlns"@, i));
    }
}

proof fn lemma_bare_attributes(t: Seq<char>, i: int)
    requires
        is_bare_text(t),
        0 <= i <= t.len(),
    ensures
        attributes_at(t, i) matches Some(a) ==> are_bare(a.0) && i <= a.1 < t.len(),
    decreases t.len() - i,
{
    let j = find(t, i, Until::NotBlank);
    lemma_find(t, i, Until::NotBlank);
    if j < t.len() && t[j] != '/' && t[j] != '>' {
        lemma_attribute(t, j);
        if let Some(a) = attribute_at(t, j) {
            let k = find(t, j + 1, Until::AttributeNameEnd);
            lemma_find(t, j + 1, Until::AttributeNameEnd);
            lemma_part_is_bare(t, j, k);
            lemma_bare_attributes(t, a.1);
            if let Some(rest) = attributes_at(t, a.1) {
                let all = seq![a.0] + rest.0;
                assert forall|n: int| 0 <= n < all.len() implies is_bare_name(
                    (#[trigger] all[n]).0,
                ) by {
                    if n > 0 {
                        assert(all[n] == rest.0[n - 1]);
                    }
                }
            }
        }
    }
}

proof fn lemma_no_prefix(name: Seq<char>)
    requires
        !name.contains(':'),
    ensures
        split(name) == (None::<Seq<char>>, name),
{
    lemma_first_pos(name, ':');
    if first_pos(name, ':') < name.len() {
        assert(name[first_pos(name, ':') as int] == ':');
    }
}

proof fn lemma_bare_attributes_say_nothing(
    bindings: Seq<(Seq<char>, Seq<u32>)>,
    attributes: Seq<(Seq<char>, Seq<u32>)>,
    outside: Option<Seq<u32>>,
)
    requires
        are_bare(attributes),
    ensures
        declarations(attributes).len() == 0,
        default_inside(attributes, outside) == outside,
        attribute_names(bindings, attributes) matches Some(names) && names.len()
            == attributes.len() && forall|i: int|
            0 <= i < names.len() ==> (#[trigger] names[i]).0 is None,
        recorded(attributes, attribute_names(bindings, attributes)->0).len() == 0,
    decreases attributes.len(),
{
    if attributes.len() > 0 {
        let rest = attributes.drop_last();
        assert forall|i: int| 0 <= i < rest.len() implies is_bare_name((#[trigger] rest[i]).0) by {
            assert(rest[i] == attributes[i]);
        }
        lemma_bare_attributes_say_nothing(bindings, rest, outside);
        let last = attributes.last();
        assert(is_bare_name(attributes[attributes.len() - 1].0));
        lemma_no_prefix(last.0);
        assert(declaration(last) is None);
        let before = attribute_names(bindings, rest)->0;
        let names = attribute_names(bindings, attributes)->0;
        assert(names == before.push((None::<Seq<u32>>, last.0)));
        assert(names.drop_last() =~= before);
    }
}

proof fn lemma_blank_has_no_default()
    ensures
        lookup(blank_document().bindings, ""@) is None,
        blank_document().bindings.len() == 2,
        blank_document().known.len() == 2,
{
    reveal_strlit("");
    reveal_strlit("xml");
    reveal_strlit("xmlns");
    assert("xml"@.len() == 3 && "xmlns"@.len() == 5 && ""@.len() == 0);
    let b = blank_document().bindings;
    reveal_with_fuel(lookup, 3);
    assert(b.last().0 == "xmlns"@);
    assert(b.drop_last().last().0 == "xml"@);
}

proof fn lemma_bare_tags(
    d: DocumentView,
    name: Seq<char>,
    attributes: Seq<(Seq<char>, Seq<u32>)>,
)
    requires
        is_bare(d),
        !name.contains(':'),
        are_bare(attributes),
    ensures
        started(d, name, attributes) matches Some(inside) ==> is_bare(inside),
{
    let outside = if d.open.len() > 0 {
        d.open.last().default
    } else {
        None
    };
    lemma_bare_attributes_say_nothing(d.bindings, attributes, outside);
    assert(d.bindings + declarations(attributes) =~= d.bindings);
    lemma_no_prefix(name);
    lemma_blank_has_no_default();
    if let Some(inside) = started(d, name, attributes) {
        let names = attribute_names(d.bindings, attributes)->0;
        assert(d.known + recorded(attributes, names) =~= d.known);
        if d.open.len() > 0 {
            assert(d.open[d.open.len() - 1].default is None);
        }
        assert(!lacks_prefix(None, None, names, d.known));
        assert forall|i: int| 0 <= i < inside.open.len() implies {
            &&& (#[trigger] inside.open[i]).name.0 is None
            &&& inside.open[i].default is None
            &&& inside.open[i].bindings == 2
            &&& inside.open[i].known == 2
        } by {
            if i < d.open.len() {
                assert(inside.open[i] == d.open[i]);
            }
        }
    }
}

proof fn lemma_bare_ends(d: DocumentView, name: Seq<char>)
    requires
        is_bare(d),
    ensures
        ended(d, name) matches Some(after) ==> is_bare(after),
{
    lemma_blank_has_no_default();
    if let Some(after) = ended(d, name) {
        assert(d.open[d.open.len() - 1].bindings == 2);
        assert(after.bindings =~= d.bindings);
        assert(after.known =~= d.known);
        assert forall|i: int| 0 <= i < after.open.len() implies {
            &&& (#[trigger] after.open[i]).name.0 is None
            &&& after.open[i].default is None
            &&& after.open[i].bindings == 2
            &&& after.open[i].known == 2
        } by {
            assert(after.open[i] == d.open[i]);
        }
    }
}

proof fn lemma_sections_are_counted(t: Seq<char>, i: int)
    requires
        !t.contains(']'),
        0 <= i,
    ensures
        !(section_end(t, i, 0) is Uncounted),
    decreases t.len() - i,
{
    if i < t.len() {
        assert(t[i] != ']') by {
            if t[i] == ']' {
                assert(t.contains(']'));
            }
        }
        lemma_sections_are_counted(t, i + 1);
    }
}

proof fn lemma_goes_on(t: Seq<char>, i: int, d: DocumentView)
    requires
        is_bare_text(t),
        !t.contains(']'),
        is_bare(d),
        0 <= i <= t.len(),
    ensures
        !goes_beyond(t, i, d),
    decreases t.len() - i,
{
    let a = find(t, i, Until::Char('<'));
    lemma_find(t, i, Until::Char('<'));
    if a + 1 < t.len() {
        if t[a + 1] == '!' {
            lemma_sections_are_counted(t, a + 9);
            assert(!(declaration_end(t, a + 2) is Uncounted));
        } else if t[a + 1] == '/' {
            let k = find(t, a + 2, Until::ClosingNameEnd);
            lemma_find(t, a + 2, Until::ClosingNameEnd);
            if k < t.len() {
                lemma_bare_ends(d, t.subrange(a + 2, k));
            }
        } else if t[a + 1] != '?' {
            let k = find(t, a + 2, Until::NameEnd);
            lemma_find(t, a + 2, Until::NameEnd);
            if k < t.len() {
                let name = t.subrange(a + 1, k);
                lemma_part_is_bare(t, a + 1, k);
                lemma_bare_attributes(t, k);
                if let Some(attributes) = attributes_at(t, k) {
                    lemma_bare_tags(d, name, attributes.0);
                    if let Some(inside) = started(d, name, attributes.0) {
                        lemma_bare_ends(inside, name);
                    }
                }
            }
        }
    }
    if let Step::Next(next, after) = step(t, i, d) {
        assert(is_bare(after));
        if i < next <= t.len() {
            lemma_goes_on(t, next, after);
        }
    }
}

/// A description that speaks of no namespace is never turned away, whatever its tags, as long as
/// its lines and columns can be counted and it holds no closing square bracket.
pub proof fn ordinary_descriptions_are_read(t: Seq<char>)
    requires
        is_bare_text(t),
        !t.contains(']'),
    ensures
        is_beyond_reader(t) <==> !is_countable(t, 0, 1, 0),
        t.len() < u32::MAX ==> !is_beyond_reader(t),
{
    assert(is_bare(blank_document()));
    lemma_goes_on(t, 0, blank_document());
    if t.len() < u32::MAX {
        lemma_short_texts_are_countable(t, 0, 1, 0);
    }
}

proof fn lemma_short_texts_are_countable(t: Seq<char>, i: int, lines: nat, column: nat)
    requires
        0 <= i,
        lines + (t.len() - i) <= u32::MAX || i > t.len(),
        column + (t.len() - i) <= u32::MAX || i > t.len(),
    ensures
        is_countable(t, i, lines, column),
    decreases t.len() - i,
{
    if i < t.len() {
        if t[i] == '\n' {
            lemma_short_texts_are_countable(t, i + 1, lines + 1, 0);
        } else {
            lemma_short_texts_are_countable(t, i + 1, lines, column + 1);
        }
    }
}

} // verus!
