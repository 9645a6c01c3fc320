//! Which texts the URDF reader can take.
//!
//! Reading a URDF prints the document again on the way - the robot, its links, joints and
//! materials, and of a link what it looks like, weighs and bumps into. Names are printed with a
//! prefix for their namespace, and there is none to print for a namespace that no prefix was
//! declared for: the reader does not fail on such a document, it panics. The few documents on
//! which that happens are told apart here, before they reach it.

use crate::text::{chars_of, find_from, first_pos, lemma_first_pos, same, string_of};
use crate::trajectory::markup::{
    attributes_at, declaration_end, find, read_attributes, said, seek,
    skip_declaration, unescape, unescaped, Attribute, Past, Until,
};
use vstd::prelude::*;

verus! {

/// The namespace of the prefix `xml`.
pub const XML_NAMESPACE: &'static str = "http://www.w3.org/XML/1998/namespace";

/// The namespace of the prefix `xmlns`.
pub const XMLNS_NAMESPACE: &'static str = "http://www.w3.org/2000/xmlns/";

/// The characters of a text, by their numbers.
pub open spec fn codes(s: Seq<char>) -> Seq<u32> {
    s.map_values(|c: char| c as u32)
}

fn codes_of(s: &str) -> (r: Vec<u32>)
    ensures
        r@ == codes(s@),
{
    let cs = chars_of(s);
    let mut r: Vec<u32> = Vec::new();
    let mut i: usize = 0;
    while i < cs.len()
        invariant
            i <= cs.len(),
            cs@ == s@,
            r@ == codes(s@).take(i as int),
        decreases cs.len() - i,
    {
        r.push(cs[i] as u32);
        i = i + 1;
        assert(codes(s@).take(i as int) =~= codes(s@).take(i - 1).push(codes(s@)[i - 1]));
    }
    assert(codes(s@).take(i as int) =~= codes(s@));
    r
}

fn same_codes(a: &Vec<u32>, b: &Vec<u32>) -> (r: bool)
    ensures
        r == (a@ == b@),
{
    if a.len() != b.len() {
        return false;
    }
    let mut i: usize = 0;
    while i < a.len()
        invariant
            i <= a.len(),
            a.len() == b.len(),
            forall|j: int| 0 <= j < i ==> a@[j] == b@[j],
        decreases a.len() - i,
    {
        if a[i] != b[i] {
            return false;
        }
        i = i + 1;
    }
    assert(a@ =~= b@);
    true
}

fn copy_codes(a: &Vec<u32>) -> (r: Vec<u32>)
    ensures
        r@ == a@,
{
    let mut r: Vec<u32> = Vec::new();
    let mut i: usize = 0;
    while i < a.len()
        invariant
            i <= a.len(),
            r@ == a@.take(i as int),
        decreases a.len() - i,
    {
        r.push(a[i]);
        i = i + 1;
        assert(a@.take(i as int) =~= a@.take(i - 1).push(a@[i - 1]));
    }
    assert(a@.take(i as int) =~= a@);
    r
}

/// A namespace, or none.
pub open spec fn space(v: Option<Vec<u32>>) -> Option<Seq<u32>> {
    match v {
        Some(x) => Some(x@),
        None => None,
    }
}

fn same_space(a: &Option<Vec<u32>>, b: &Option<Vec<u32>>) -> (r: bool)
    ensures
        r == (space(*a) == space(*b)),
{
    match (a, b) {
        (Some(x), Some(y)) => same_codes(x, y),
        (None, None) => true,
        _ => false,
    }
}

fn copy_space(a: &Option<Vec<u32>>) -> (r: Option<Vec<u32>>)
    ensures
        space(r) == space(*a),
{
    match a {
        Some(x) => Some(copy_codes(x)),
        None => None,
    }
}

/// The prefix of a name, and the rest of it.
pub open spec fn split(name: Seq<char>) -> (Option<Seq<char>>, Seq<char>) {
    let n = first_pos(name, ':');
    if n < name.len() {
        (Some(name.take(n as int)), name.skip(n as int + 1))
    } else {
        (None, name)
    }
}

fn split_name(name: &str) -> (r: (Option<String>, String))
    ensures
        split(name@).1 == r.1@,
        match r.0 {
            Some(p) => split(name@).0 == Some(p@),
            None => split(name@).0 is None,
        },
{
    let cs = chars_of(name);
    let n = find_from(&cs, 0, ':');
    assert(cs@.skip(0) =~= cs@);
    proof {
        lemma_first_pos(cs@, ':');
    }
    if n < cs.len() {
        let prefix = string_of(&cs, 0, n);
        let rest = string_of(&cs, n + 1, cs.len());
        assert(prefix@ =~= name@.take(n as int));
        assert(rest@ =~= name@.skip(n + 1));
        (Some(prefix), rest)
    } else {
        (None, name.to_owned())
    }
}

/// A prefix, and the namespace it was declared for.
#[derive(Debug)]
pub struct Binding {
    pub prefix: String,
    pub uri: Vec<u32>,
}

impl View for Binding {
    type V = (Seq<char>, Seq<u32>);

    open spec fn view(&self) -> (Seq<char>, Seq<u32>) {
        (self.prefix@, self.uri@)
    }
}

/// What a list of declarations says.
pub open spec fn declared(bindings: Seq<Binding>) -> Seq<(Seq<char>, Seq<u32>)> {
    bindings.map_values(|b: Binding| b@)
}

/// The namespace that a prefix stands for: the last declaration counts, and an empty one takes
/// the meaning away. The default namespace has no prefix.
pub open spec fn lookup(bindings: Seq<(Seq<char>, Seq<u32>)>, prefix: Seq<char>) -> Option<
    Seq<u32>,
>
    decreases bindings.len(),
{
    if bindings.len() == 0 {
        None
    } else if bindings.last().0 == prefix {
        if bindings.last().1.len() == 0 {
            None
        } else {
            Some(bindings.last().1)
        }
    } else {
        lookup(bindings.drop_last(), prefix)
    }
}

fn look_up(bindings: &Vec<Binding>, prefix: &str) -> (r: Option<Vec<u32>>)
    ensures
        space(r) == lookup(declared(bindings@), prefix@),
{
    let ghost all = declared(bindings@);
    let mut n: usize = bindings.len();
    assert(all.take(n as int) =~= all);
    while n > 0
        invariant
            n <= bindings.len(),
            all == declared(bindings@),
            lookup(all.take(n as int), prefix@) == lookup(all, prefix@),
        decreases n,
    {
        assert(all.take(n as int).last() == bindings@[n - 1]@);
        assert(all.take(n as int).drop_last() =~= all.take(n - 1));
        if same(bindings[n - 1].prefix.as_str(), prefix) {
            if bindings[n - 1].uri.len() == 0 {
                return None;
            }
            return Some(copy_codes(&bindings[n - 1].uri));
        }
        n = n - 1;
    }
    None
}

/// The declaration that an attribute makes, if it makes one.
pub open spec fn declaration(attribute: (Seq<char>, Seq<u32>)) -> Option<(Seq<char>, Seq<u32>)> {
    if attribute.0 == "xmlns"@ {
        Some((""@, attribute.1))
    } else if split(attribute.0).0 == Some("xmlns"@) {
        Some((split(attribute.0).1, attribute.1))
    } else {
        None
    }
}

/// The declarations that the attributes of a tag make.
pub open spec fn declarations(attributes: Seq<(Seq<char>, Seq<u32>)>) -> Seq<
    (Seq<char>, Seq<u32>),
>
    decreases attributes.len(),
{
    if attributes.len() == 0 {
        Seq::empty()
    } else {
        let before = declarations(attributes.drop_last());
        match declaration(attributes.last()) {
            Some(d) => before.push(d),
            None => before,
        }
    }
}

/// The name of an element or an attribute: its namespace and the rest of it. `None` where its
/// prefix stands for nothing. Without a prefix, `bare` is its namespace.
pub open spec fn resolved(
    bindings: Seq<(Seq<char>, Seq<u32>)>,
    name: Seq<char>,
    bare: Option<Seq<u32>>,
) -> Option<(Option<Seq<u32>>, Seq<char>)> {
    match split(name).0 {
        None => Some((bare, split(name).1)),
        Some(p) => match lookup(bindings, p) {
            Some(uri) => Some((Some(uri), split(name).1)),
            None => None,
        },
    }
}

/// A name as it is compared.
#[derive(Debug)]
pub struct Name {
    pub space: Option<Vec<u32>>,
    pub local: String,
}

impl View for Name {
    type V = (Option<Seq<u32>>, Seq<char>);

    open spec fn view(&self) -> (Option<Seq<u32>>, Seq<char>) {
        (space(self.space), self.local@)
    }
}

fn resolve(bindings: &Vec<Binding>, name: &str, bare: Option<Vec<u32>>) -> (r: Option<Name>)
    ensures
        match r {
            Some(n) => resolved(declared(bindings@), name@, space(bare)) == Some(n@),
            None => resolved(declared(bindings@), name@, space(bare)) is None,
        },
{
    let (prefix, local) = split_name(name);
    match prefix {
        None => Some(Name { space: bare, local }),
        Some(p) => match look_up(bindings, p.as_str()) {
            Some(uri) => Some(Name { space: Some(uri), local }),
            None => None,
        },
    }
}

/// The names of the attributes of a tag; `None` where one has a prefix that stands for nothing.
pub open spec fn attribute_names(
    bindings: Seq<(Seq<char>, Seq<u32>)>,
    attributes: Seq<(Seq<char>, Seq<u32>)>,
) -> Option<Seq<(Option<Seq<u32>>, Seq<char>)>>
    decreases attributes.len(),
{
    if attributes.len() == 0 {
        Some(Seq::empty())
    } else {
        match (
            attribute_names(bindings, attributes.drop_last()),
            resolved(bindings, attributes.last().0, None),
        ) {
            (Some(before), Some(n)) => Some(before.push(n)),
            _ => None,
        }
    }
}

/// What a list of names says.
pub open spec fn named(names: Seq<Name>) -> Seq<(Option<Seq<u32>>, Seq<char>)> {
    names.map_values(|n: Name| n@)
}

proof fn lemma_attribute_names(
    bindings: Seq<(Seq<char>, Seq<u32>)>,
    attributes: Seq<(Seq<char>, Seq<u32>)>,
    n: int,
)
    requires
        0 <= n <= attributes.len(),
    ensures
        attribute_names(bindings, attributes) matches Some(all) ==> all.len() == attributes.len(),
        attribute_names(bindings, attributes.take(n)) is None ==> attribute_names(
            bindings,
            attributes,
        ) is None,
    decreases attributes.len(),
{
    if attributes.len() > 0 {
        if n < attributes.len() {
            assert(attributes.drop_last().take(n) =~= attributes.take(n));
            lemma_attribute_names(bindings, attributes.drop_last(), n);
        } else {
            assert(attributes.take(n) =~= attributes);
            lemma_attribute_names(bindings, attributes.drop_last(), n - 1);
        }
    }
}

fn resolve_attributes(bindings: &Vec<Binding>, attributes: &Vec<Attribute>) -> (r: Option<
    Vec<Name>,
>)
    ensures
        match r {
            Some(names) => attribute_names(declared(bindings@), said(attributes@)) == Some(
                named(names@),
            ) && names.len() == attributes.len(),
            None => attribute_names(declared(bindings@), said(attributes@)) is None,
        },
{
    let ghost all = said(attributes@);
    let ghost known = declared(bindings@);
    let mut names: Vec<Name> = Vec::new();
    let mut i: usize = 0;
    assert(all.take(0) =~= Seq::empty());
    assert(named(names@) =~= Seq::empty());
    while i < attributes.len()
        invariant
            i <= attributes.len(),
            all == said(attributes@),
            known == declared(bindings@),
            names.len() == i,
            attribute_names(known, all.take(i as int)) == Some(named(names@)),
        decreases attributes.len() - i,
    {
        let ghost before = named(names@);
        assert(all.take(i + 1).drop_last() =~= all.take(i as int));
        assert(all.take(i + 1).last() == attributes@[i as int]@);
        match resolve(bindings, attributes[i].name.as_str(), None) {
            Some(n) => {
                let ghost one = n@;
                names.push(n);
                assert(named(names@) =~= before.push(one));
            },
            None => {
                proof {
                    lemma_attribute_names(known, all, i + 1);
                }
                return None;
            },
        }
        i = i + 1;
    }
    assert(all.take(i as int) =~= all);
    Some(names)
}

/// Whether a name stands twice in a tag.
pub open spec fn repeats(names: Seq<(Option<Seq<u32>>, Seq<char>)>) -> bool {
    exists|i: int, j: int| 0 <= i < j < names.len() && #[trigger] names[i] == #[trigger] names[j]
}

fn has_repeats(names: &Vec<Name>) -> (r: bool)
    ensures
        r == repeats(named(names@)),
{
    let ghost all = named(names@);
    let mut i: usize = 0;
    while i < names.len()
        invariant
            i <= names.len(),
            all == named(names@),
            forall|a: int, b: int| 0 <= a < i && a < b < all.len() ==> all[a] != all[b],
        decreases names.len() - i,
    {
        let mut j: usize = i + 1;
        while j < names.len()
            invariant
                i < j <= names.len(),
                i < names.len(),
                all == named(names@),
                forall|b: int| i < b < j ==> all[i as int] != all[b],
            decreases names.len() - j,
        {
            assert(all[i as int] == names@[i as int]@ && all[j as int] == names@[j as int]@);
            if same(names[i].local.as_str(), names[j].local.as_str()) && same_space(
                &names[i].space,
                &names[j].space,
            ) {
                return true;
            }
            j = j + 1;
        }
        i = i + 1;
    }
    false
}

/// The namespaces that attributes declare prefixes for: the values of those in the namespace of
/// `xmlns`.
pub open spec fn recorded(
    attributes: Seq<(Seq<char>, Seq<u32>)>,
    names: Seq<(Option<Seq<u32>>, Seq<char>)>,
) -> Seq<Seq<u32>>
    decreases attributes.len(),
{
    if attributes.len() == 0 || attributes.len() != names.len() {
        Seq::empty()
    } else {
        let before = recorded(attributes.drop_last(), names.drop_last());
        if names.last().0 == Some(codes(XMLNS_NAMESPACE@)) {
            before.push(attributes.last().1)
        } else {
            before
        }
    }
}

/// The default namespace inside a tag with these attributes.
pub open spec fn default_inside(
    attributes: Seq<(Seq<char>, Seq<u32>)>,
    outside: Option<Seq<u32>>,
) -> Option<Seq<u32>>
    decreases attributes.len(),
{
    if attributes.len() == 0 {
        outside
    } else if attributes.last().0 == "xmlns"@ {
        if attributes.last().1.len() == 0 {
            None
        } else {
            Some(attributes.last().1)
        }
    } else {
        default_inside(attributes.drop_last(), outside)
    }
}

fn find_default(attributes: &Vec<Attribute>, outside: Option<Vec<u32>>) -> (r: Option<Vec<u32>>)
    ensures
        space(r) == default_inside(said(attributes@), space(outside)),
{
    let ghost all = said(attributes@);
    let mut n: usize = attributes.len();
    assert(all.take(n as int) =~= all);
    while n > 0
        invariant
            n <= attributes.len(),
            all == said(attributes@),
            default_inside(all.take(n as int), space(outside)) == default_inside(
                all,
                space(outside),
            ),
        decreases n,
    {
        assert(all.take(n as int).last() == attributes@[n - 1]@);
        assert(all.take(n as int).drop_last() =~= all.take(n - 1));
        if same(attributes[n - 1].name.as_str(), "xmlns") {
            if attributes[n - 1].value.len() == 0 {
                return None;
            }
            return Some(copy_codes(&attributes[n - 1].value));
        }
        n = n - 1;
    }
    outside
}

/// What becomes of an element when the document is printed.
#[derive(Clone, Copy, PartialEq, Eq, Debug, Structural)]
pub enum Part {
    /// It is the robot: of what is in it, links, joints and materials are printed.
    Robot,
    /// It is a link: of what is in it, visuals, inertials and collisions are printed.
    Link,
    /// It is printed with all that is in it.
    Whole,
    /// It is not printed.
    Dropped,
}

impl Part {
    /// What becomes of an element of that name inside this one.
    pub open spec fn inner(self, local: Seq<char>) -> Part {
        match self {
            Part::Robot => if local == "link"@ {
                Part::Link
            } else if local == "joint"@ || local == "material"@ {
                Part::Whole
            } else {
                Part::Dropped
            },
            Part::Link => if local == "visual"@ || local == "inertial"@ || local == "collision"@ {
                Part::Whole
            } else {
                Part::Dropped
            },
            Part::Whole => Part::Whole,
            Part::Dropped => Part::Dropped,
        }
    }

    fn part_inside(self, local: &str) -> (r: Part)
        ensures
            r == self.inner(local@),
    {
        match self {
            Part::Robot => if same(local, "link") {
                Part::Link
            } else if same(local, "joint") || same(local, "material") {
                Part::Whole
            } else {
                Part::Dropped
            },
            Part::Link => if same(local, "visual") || same(local, "inertial") || same(
                local,
                "collision",
            ) {
                Part::Whole
            } else {
                Part::Dropped
            },
            Part::Whole => Part::Whole,
            Part::Dropped => Part::Dropped,
        }
    }
}

/// An element that is open: its name, the default namespace inside it, what becomes of it, and
/// how many declarations and known namespaces there were before it.
pub struct OpenView {
    pub name: (Option<Seq<u32>>, Seq<char>),
    pub default: Option<Seq<u32>>,
    pub part: Part,
    pub bindings: int,
    pub known: int,
}

/// An element that is open.
#[derive(Debug)]
pub struct Open {
    pub name: Name,
    pub default: Option<Vec<u32>>,
    pub part: Part,
    pub bindings: usize,
    pub known: usize,
}

impl View for Open {
    type V = OpenView;

    open spec fn view(&self) -> OpenView {
        OpenView {
            name: self.name@,
            default: space(self.default),
            part: self.part,
            bindings: self.bindings as int,
            known: self.known as int,
        }
    }
}

/// A document as far as it has been read.
pub struct DocumentView {
    /// The elements that are open, the outermost first.
    pub open: Seq<OpenView>,
    /// The declarations that hold, the latest last.
    pub bindings: Seq<(Seq<char>, Seq<u32>)>,
    /// The namespaces that there is a prefix for.
    pub known: Seq<Seq<u32>>,
    /// Whether a name was met that is printed and cannot be.
    pub lost: bool,
}

/// A document as far as it has been read.
#[derive(Debug)]
pub struct Document {
    pub open: Vec<Open>,
    pub bindings: Vec<Binding>,
    pub known: Vec<Vec<u32>>,
    pub lost: bool,
}

/// What a list of namespaces says.
pub open spec fn spaces(known: Seq<Vec<u32>>) -> Seq<Seq<u32>> {
    known.map_values(|u: Vec<u32>| u@)
}

/// What a list of open elements says.
pub open spec fn opened(open: Seq<Open>) -> Seq<OpenView> {
    open.map_values(|o: Open| o@)
}

impl View for Document {
    type V = DocumentView;

    open spec fn view(&self) -> DocumentView {
        DocumentView {
            open: opened(self.open@),
            bindings: declared(self.bindings@),
            known: spaces(self.known@),
            lost: self.lost,
        }
    }
}

/// A document of which nothing has been read.
pub open spec fn blank_document() -> DocumentView {
    DocumentView {
        open: Seq::empty(),
        bindings: seq![("xml"@, codes(XML_NAMESPACE@)), ("xmlns"@, codes(XMLNS_NAMESPACE@))],
        known: seq![codes(XML_NAMESPACE@), codes(XMLNS_NAMESPACE@)],
        lost: false,
    }
}

/// Whether an element, or one of its attributes, has a namespace that there is no prefix for. An
/// element in the default namespace needs none.
pub open spec fn lacks_prefix(
    element: Option<Seq<u32>>,
    default: Option<Seq<u32>>,
    names: Seq<(Option<Seq<u32>>, Seq<char>)>,
    known: Seq<Seq<u32>>,
) -> bool {
    ||| element != default && (element is None || !known.contains(element->0))
    ||| exists|i: int|
        0 <= i < names.len() && (#[trigger] names[i]).0 is Some && !known.contains(names[i].0->0)
}

/// The document behind an opening tag; `None` where that tag is none.
pub open spec fn started(
    d: DocumentView,
    name: Seq<char>,
    attributes: Seq<(Seq<char>, Seq<u32>)>,
) -> Option<DocumentView> {
    let bindings = d.bindings + declarations(attributes);
    match (
        resolved(bindings, name, lookup(bindings, ""@)),
        attribute_names(bindings, attributes),
    ) {
        (Some(n), Some(names)) => if repeats(names) {
            None
        } else {
            let outside = if d.open.len() > 0 {
                d.open.last().default
            } else {
                None
            };
            let default = default_inside(attributes, outside);
            let part = if d.open.len() > 0 {
                d.open.last().part.inner(n.1)
            } else {
                Part::Robot
            };
            let known = d.known + recorded(attributes, names);
            let open = OpenView {
                name: n,
                default,
                part,
                bindings: d.bindings.len() as int,
                known: d.known.len() as int,
            };
            Some(
                DocumentView {
                    open: d.open.push(open),
                    bindings,
                    known,
                    lost: d.lost || (part != Part::Dropped && lacks_prefix(
                        n.0,
                        default,
                        names,
                        known,
                    )),
                },
            )
        },
        _ => None,
    }
}

/// The document behind a closing tag; `None` where it closes nothing.
pub open spec fn ended(d: DocumentView, name: Seq<char>) -> Option<DocumentView> {
    if d.open.len() == 0 {
        None
    } else if resolved(d.bindings, name, lookup(d.bindings, ""@)) != Some(d.open.last().name) {
        None
    } else {
        Some(
            DocumentView {
                open: d.open.drop_last(),
                bindings: d.bindings.take(d.open.last().bindings),
                known: d.known.take(d.open.last().known),
                lost: d.lost,
            },
        )
    }
}

/// Whether the counts of the open elements are those of a document that was read tag by tag.
pub open spec fn is_counted(d: DocumentView) -> bool {
    &&& forall|i: int|
        0 <= i < d.open.len() ==> 0 <= (#[trigger] d.open[i]).bindings <= d.bindings.len() && 0
            <= d.open[i].known <= d.known.len()
    &&& forall|i: int, j: int|
        0 <= i < j < d.open.len() ==> (#[trigger] d.open[i]).bindings <= (
        #[trigger] d.open[j]).bindings && d.open[i].known <= d.open[j].known
}

fn new_document() -> (r: Document)
    ensures
        r@ == blank_document(),
        is_counted(r@),
{
    let mut bindings: Vec<Binding> = Vec::new();
    bindings.push(Binding { prefix: "xml".to_owned(), uri: codes_of(XML_NAMESPACE) });
    bindings.push(Binding { prefix: "xmlns".to_owned(), uri: codes_of(XMLNS_NAMESPACE) });
    let mut known: Vec<Vec<u32>> = Vec::new();
    known.push(codes_of(XML_NAMESPACE));
    known.push(codes_of(XMLNS_NAMESPACE));
    let r = Document { open: Vec::new(), bindings, known, lost: false };
    assert(r@.open =~= blank_document().open);
    assert(r@.bindings =~= blank_document().bindings);
    assert(r@.known =~= blank_document().known);
    r
}

fn declare(bindings: &mut Vec<Binding>, attributes: &Vec<Attribute>)
    ensures
        declared(final(bindings)@) == declared(old(bindings)@) + declarations(said(attributes@)),
{
    let ghost all = said(attributes@);
    let ghost before = declared(bindings@);
    let mut i: usize = 0;
    assert(all.take(0) =~= Seq::empty());
    assert(before + Seq::empty() =~= before);
    while i < attributes.len()
        invariant
            i <= attributes.len(),
            all == said(attributes@),
            declared(bindings@) == before + declarations(all.take(i as int)),
        decreases attributes.len() - i,
    {
        let ghost now = declared(bindings@);
        assert(all.take(i + 1).drop_last() =~= all.take(i as int));
        assert(all.take(i + 1).last() == attributes@[i as int]@);
        let name = attributes[i].name.as_str();
        if same(name, "xmlns") {
            bindings.push(Binding { prefix: "".to_owned(), uri: copy_codes(&attributes[i].value) });
            assert(declared(bindings@) =~= now.push((""@, attributes@[i as int].value@)));
        } else {
            let (prefix, local) = split_name(name);
            if let Some(p) = prefix {
                if same(p.as_str(), "xmlns") {
                    let ghost one = (local@, attributes@[i as int].value@);
                    bindings.push(Binding { prefix: local, uri: copy_codes(&attributes[i].value) });
                    assert(declared(bindings@) =~= now.push(one));
                }
            }
        }
        assert(declared(bindings@) =~= before + declarations(all.take(i + 1)));
        i = i + 1;
    }
    assert(all.take(i as int) =~= all);
}

fn record(known: &mut Vec<Vec<u32>>, attributes: &Vec<Attribute>, names: &Vec<Name>)
    requires
        attributes.len() == names.len(),
    ensures
        spaces(final(known)@) == spaces(old(known)@) + recorded(said(attributes@), named(names@)),
{
    let ghost all = said(attributes@);
    let ghost of = named(names@);
    let ghost before = spaces(known@);
    let reserved = Some(codes_of(XMLNS_NAMESPACE));
    let mut i: usize = 0;
    assert(before + Seq::empty() =~= before);
    while i < attributes.len()
        invariant
            i <= attributes.len(),
            attributes.len() == names.len(),
            all == said(attributes@),
            of == named(names@),
            space(reserved) == Some(codes(XMLNS_NAMESPACE@)),
            spaces(known@) == before + recorded(all.take(i as int), of.take(i as int)),
        decreases attributes.len() - i,
    {
        let ghost now = spaces(known@);
        assert(all.take(i + 1).drop_last() =~= all.take(i as int));
        assert(of.take(i + 1).drop_last() =~= of.take(i as int));
        assert(all.take(i + 1).last() == attributes@[i as int]@);
        assert(of.take(i + 1).last() == names@[i as int]@);
        if same_space(&names[i].space, &reserved) {
            known.push(copy_codes(&attributes[i].value));
            assert(spaces(known@) =~= now.push(attributes@[i as int].value@));
        }
        assert(spaces(known@) =~= before + recorded(all.take(i + 1), of.take(i + 1)));
        i = i + 1;
    }
    assert(all.take(i as int) =~= all);
    assert(of.take(i as int) =~= of);
}

fn is_known(known: &Vec<Vec<u32>>, uri: &Vec<u32>) -> (r: bool)
    ensures
        r == spaces(known@).contains(uri@),
{
    let mut i: usize = 0;
    while i < known.len()
        invariant
            i <= known.len(),
            forall|j: int| 0 <= j < i ==> spaces(known@)[j] != uri@,
        decreases known.len() - i,
    {
        assert(spaces(known@)[i as int] == known@[i as int]@);
        if same_codes(&known[i], uri) {
            return true;
        }
        i = i + 1;
    }
    false
}

fn cannot_print(
    element: &Option<Vec<u32>>,
    default: &Option<Vec<u32>>,
    names: &Vec<Name>,
    known: &Vec<Vec<u32>>,
) -> (r: bool)
    ensures
        r == lacks_prefix(space(*element), space(*default), named(names@), spaces(known@)),
{
    let ghost all = named(names@);
    if !same_space(element, default) {
        match element {
            Some(uri) => {
                if !is_known(known, uri) {
                    return true;
                }
            },
            None => {
                return true;
            },
        }
    }
    let mut i: usize = 0;
    while i < names.len()
        invariant
            i <= names.len(),
            all == named(names@),
            space(*element) == space(*default) || (space(*element) is Some && spaces(
                known@,
            ).contains(space(*element)->0)),
            forall|j: int|
                0 <= j < i ==> (#[trigger] all[j]).0 is None || spaces(known@).contains(all[j].0->0),
        decreases names.len() - i,
    {
        assert(all[i as int] == names@[i as int]@);
        if let Some(uri) = &names[i].space {
            if !is_known(known, uri) {
                return true;
            }
        }
        i = i + 1;
    }
    false
}

/// Read an opening tag. `false` where it is none.
fn start_tag(d: &mut Document, name: &str, attributes: &Vec<Attribute>) -> (r: bool)
    requires
        is_counted(old(d)@),
    ensures
        match started(old(d)@, name@, said(attributes@)) {
            Some(after) => r && final(d)@ == after && is_counted(after),
            None => !r,
        },
{
    let ghost before = d@;
    let count: usize = d.bindings.len();
    let count_known: usize = d.known.len();
    declare(&mut d.bindings, attributes);
    let bare = look_up(&d.bindings, "");
    let element = match resolve(&d.bindings, name, bare) {
        Some(n) => n,
        None => {
            return false;
        },
    };
    let names = match resolve_attributes(&d.bindings, attributes) {
        Some(names) => names,
        None => {
            return false;
        },
    };
    if has_repeats(&names) {
        return false;
    }
    let depth: usize = d.open.len();
    assert(before.open.len() == depth);
    let outside = if depth > 0 {
        assert(before.open.last() == d.open@[depth - 1]@);
        copy_space(&d.open[depth - 1].default)
    } else {
        None
    };
    let default = find_default(attributes, outside);
    let part = if depth > 0 {
        d.open[depth - 1].part.part_inside(element.local.as_str())
    } else {
        Part::Robot
    };
    record(&mut d.known, attributes, &names);
    if part != Part::Dropped && cannot_print(&element.space, &default, &names, &d.known) {
        d.lost = true;
    }
    let open = Open { name: element, default, part, bindings: count, known: count_known };
    let ghost one = open@;
    d.open.push(open);
    assert(d@.open =~= before.open.push(one));
    true
}

/// Read a closing tag. `false` where it closes nothing.
fn end_tag(d: &mut Document, name: &str) -> (r: bool)
    requires
        is_counted(old(d)@),
    ensures
        match ended(old(d)@, name@) {
            Some(after) => r && final(d)@ == after && is_counted(after),
            None => !r,
        },
{
    let ghost before = d@;
    let bare = look_up(&d.bindings, "");
    let closed = match resolve(&d.bindings, name, bare) {
        Some(n) => n,
        None => {
            return false;
        },
    };
    match d.open.pop() {
        Some(top) => {
            assert(before.open.last() == top@);
            if !same(closed.local.as_str(), top.name.local.as_str()) || !same_space(
                &closed.space,
                &top.name.space,
            ) {
                return false;
            }
            d.bindings.truncate(top.bindings);
            d.known.truncate(top.known);
            assert(d@.open =~= before.open.drop_last());
            assert(d@.bindings =~= before.bindings.take(top.bindings as int));
            assert(d@.known =~= before.known.take(top.known as int));
            true
        },
        None => false,
    }
}

/// What follows from a piece of markup.
pub enum Step {
    /// The document ends here: it is beyond the reader, or it is not.
    Done(bool),
    /// It goes on at this place.
    Next(int, DocumentView),
}

/// What follows once a tag has closed an element, or not, and the text goes on at `i`.
pub open spec fn closed(d: Option<DocumentView>, i: Option<int>) -> Step {
    match d {
        None => Step::Done(false),
        Some(after) => if after.open.len() == 0 {
            Step::Done(after.lost)
        } else {
            match i {
                Some(next) => Step::Next(next, after),
                None => Step::Done(false),
            }
        },
    }
}

/// What follows from the closing tag whose name begins at `i`.
pub open spec fn closing_step(t: Seq<char>, i: int, d: DocumentView) -> Step {
    let k = find(t, i, Until::ClosingNameEnd);
    let e = find(t, k, Until::NotBlank);
    if k >= t.len() {
        Step::Done(false)
    } else {
        closed(
            ended(d, t.subrange(i, k)),
            if e < t.len() && t[e] == '>' {
                Some(e + 1)
            } else {
                None
            },
        )
    }
}

/// What follows from the opening tag whose name begins at `i`.
pub open spec fn opening_step(t: Seq<char>, i: int, d: DocumentView) -> Step {
    let k = find(t, i + 1, Until::NameEnd);
    if k >= t.len() {
        Step::Done(false)
    } else {
        let name = t.subrange(i, k);
        match attributes_at(t, k) {
            None => Step::Done(false),
            Some(a) => match started(d, name, a.0) {
                None => Step::Done(false),
                Some(inside) => if t[a.1] == '>' {
                    Step::Next(a.1 + 1, inside)
                } else if a.1 + 1 < t.len() && t[a.1 + 1] == '>' {
                    closed(ended(inside, name), Some(a.1 + 2))
                } else {
                    Step::Done(false)
                },
            },
        }
    }
}

/// What follows from the text at `i` and the markup behind it.
pub open spec fn step(t: Seq<char>, i: int, d: DocumentView) -> Step {
    let a = find(t, i, Until::Char('<'));
    if a + 1 >= t.len() || unescaped(t, i, a) is None {
        Step::Done(false)
    } else if t[a + 1] == '?' {
        let g = find(t, find(t, a + 2, Until::Char('?')), Until::Char('>'));
        if g < t.len() {
            Step::Next(g + 1, d)
        } else {
            Step::Done(false)
        }
    } else if t[a + 1] == '!' {
        match declaration_end(t, a + 2) {
            Past::At(p) => Step::Next(p as int, d),
            Past::Nowhere => Step::Done(false),
            Past::Uncounted => Step::Done(true),
        }
    } else if t[a + 1] == '/' {
        closing_step(t, a + 2, d)
    } else {
        opening_step(t, a + 1, d)
    }
}

/// Whether the document that goes on at `i` is beyond the reader.
pub open spec fn goes_beyond(t: Seq<char>, i: int, d: DocumentView) -> bool
    decreases t.len() - i,
{
    match step(t, i, d) {
        Step::Done(beyond) => beyond,
        Step::Next(next, after) => if i < next <= t.len() {
            goes_beyond(t, next, after)
        } else {
            false
        },
    }
}

/// Whether the lines from `i` on, and the characters in each, can be counted in 32 bits.
pub open spec fn is_countable(t: Seq<char>, i: int, lines: nat, column: nat) -> bool
    decreases t.len() - i,
{
    if i >= t.len() {
        true
    } else if t[i] == '\n' {
        lines < u32::MAX && is_countable(t, i + 1, lines + 1, 0)
    } else {
        column < u32::MAX && is_countable(t, i + 1, lines, column + 1)
    }
}

fn countable(cs: &Vec<char>) -> (r: bool)
    ensures
        r == is_countable(cs@, 0, 1, 0),
{
    let mut i: usize = 0;
    let mut lines: u32 = 1;
    let mut column: u32 = 0;
    while i < cs.len()
        invariant
            i <= cs.len(),
            is_countable(cs@, i as int, lines as nat, column as nat) == is_countable(cs@, 0, 1, 0),
        decreases cs.len() - i,
    {
        if cs[i] == '\n' {
            if lines == u32::MAX {
                return false;
            }
            lines = lines + 1;
            column = 0;
        } else {
            if column == u32::MAX {
                return false;
            }
            column = column + 1;
        }
        i = i + 1;
    }
    true
}

/// Whether the reader cannot take a text: one in which a name that is printed again has a
/// namespace without a prefix, or one with more closing brackets in a row - inside a CDATA section
/// - or more lines or characters in a line than it counts.
pub open spec fn is_beyond_reader(text: Seq<char>) -> bool {
    goes_beyond(text, 0, blank_document()) || !is_countable(text, 0, 1, 0)
}

/// What follows from a piece of markup.
#[derive(Clone, Copy, PartialEq, Eq, Debug, Structural)]
enum Move {
    Done(bool),
    Next(usize),
}

/// Whether a move is a step.
spec fn follows(m: Move, after: DocumentView, s: Step, from: int, len: int) -> bool {
    match s {
        Step::Done(b) => m == Move::Done(b),
        Step::Next(next, d) => m matches Move::Next(n) && n == next && from < next <= len && after
            == d && is_counted(d),
    }
}

fn read_closing(cs: &Vec<char>, i: usize, d: &mut Document) -> (r: Move)
    requires
        i <= cs.len(),
        is_counted(old(d)@),
    ensures
        follows(r, final(d)@, closing_step(cs@, i as int, old(d)@), i as int, cs.len() as int),
{
    let k = seek(cs, i, Until::ClosingNameEnd);
    if k >= cs.len() {
        return Move::Done(false);
    }
    let name = string_of(cs, i, k);
    if !end_tag(d, name.as_str()) {
        return Move::Done(false);
    }
    if d.open.len() == 0 {
        return Move::Done(d.lost);
    }
    let e = seek(cs, k, Until::NotBlank);
    if e < cs.len() && cs[e] == '>' {
        Move::Next(e + 1)
    } else {
        Move::Done(false)
    }
}

fn read_opening(cs: &Vec<char>, i: usize, d: &mut Document) -> (r: Move)
    requires
        i < cs.len(),
        is_counted(old(d)@),
    ensures
        follows(r, final(d)@, opening_step(cs@, i as int, old(d)@), i as int, cs.len() as int),
{
    let k = seek(cs, i + 1, Until::NameEnd);
    if k >= cs.len() {
        return Move::Done(false);
    }
    let name = string_of(cs, i, k);
    match read_attributes(cs, k) {
        None => Move::Done(false),
        Some((attributes, end)) => {
            if !start_tag(d, name.as_str(), &attributes) {
                return Move::Done(false);
            }
            if cs[end] == '>' {
                return Move::Next(end + 1);
            }
            if cs.len() - end < 2 || cs[end + 1] != '>' {
                return Move::Done(false);
            }
            if !end_tag(d, name.as_str()) {
                return Move::Done(false);
            }
            if d.open.len() == 0 {
                return Move::Done(d.lost);
            }
            Move::Next(end + 2)
        },
    }
}

fn advance(cs: &Vec<char>, i: usize, d: &mut Document) -> (r: Move)
    requires
        i <= cs.len(),
        is_counted(old(d)@),
    ensures
        follows(r, final(d)@, step(cs@, i as int, old(d)@), i as int, cs.len() as int),
{
    let a = seek(cs, i, Until::Char('<'));
    if cs.len() - a < 2 || unescape(cs, i, a).is_none() {
        return Move::Done(false);
    }
    if cs[a + 1] == '?' {
        let q = seek(cs, a + 2, Until::Char('?'));
        let g = seek(cs, q, Until::Char('>'));
        if g < cs.len() {
            Move::Next(g + 1)
        } else {
            Move::Done(false)
        }
    } else if cs[a + 1] == '!' {
        match skip_declaration(cs, a + 2) {
            Past::At(p) => Move::Next(p),
            Past::Nowhere => Move::Done(false),
            Past::Uncounted => Move::Done(true),
        }
    } else if cs[a + 1] == '/' {
        read_closing(cs, a + 2, d)
    } else {
        read_opening(cs, a + 1, d)
    }
}

/// Decide [`is_beyond_reader`].
pub fn beyond_reader(text: &str) -> (r: bool)
    ensures
        r == is_beyond_reader(text@),
{
    let cs = chars_of(text);
    if !countable(&cs) {
        return true;
    }
    let mut d = new_document();
    let mut i: usize = 0;
    loop
        invariant
            i <= cs.len(),
            cs@ == text@,
            is_counted(d@),
            goes_beyond(cs@, i as int, d@) == is_beyond_reader(text@),
        decreases cs.len() - i,
    {
        match advance(&cs, i, &mut d) {
            Move::Done(beyond) => {
                return beyond;
            },
            Move::Next(next) => {
                i = next;
            },
        }
    }
}

} // verus!
