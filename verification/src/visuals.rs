//! The meshes of the arm: one extra frame per link, placed where the URDF has the link's visual.

use crate::double::Double;
use crate::sp_value::{SpValue, SpView};
use crate::structs::URDFParameters;
use crate::text::{join2, same, split_words, views, words};
use vstd::prelude::*;

verus! {

/// Why a text is not XML.
#[verifier::external_type_specification]
#[verifier::external_body]
pub struct ExXmlError(roxmltree::Error);

/// One node of an XML document.
#[derive(Debug)]
pub struct XmlNode {
    /// The tag, without a namespace prefix; empty where the node is no element.
    pub tag: String,
    /// The node it stands in, by its place among all nodes.
    pub parent: Option<usize>,
    /// The attributes, without namespace prefixes, in the order they were written.
    pub attributes: Vec<(String, String)>,
}

/// What an [`XmlNode`] says.
pub struct XmlNodeView {
    pub tag: Seq<char>,
    pub parent: Option<usize>,
    pub attributes: Seq<(Seq<char>, Seq<char>)>,
}

impl View for XmlNode {
    type V = XmlNodeView;

    open spec fn view(&self) -> XmlNodeView {
        XmlNodeView {
            tag: self.tag@,
            parent: self.parent,
            attributes: self.attributes@.map_values(|a: (String, String)| (a.0@, a.1@)),
        }
    }
}

/// What a list of nodes says.
pub open spec fn nodes_view(nodes: Seq<XmlNode>) -> Seq<XmlNodeView> {
    nodes.map_values(|n: XmlNode| n@)
}

/// The nodes of the document that `text` spells, parents before their children; or why it spells
/// none.
pub uninterp spec fn document_of(text: Seq<char>) -> Result<Seq<XmlNodeView>, roxmltree::Error>;

/// What parsing a document came out as.
pub open spec fn nodes_read(read: Result<Vec<XmlNode>, roxmltree::Error>) -> Result<
    Seq<XmlNodeView>,
    roxmltree::Error,
> {
    match read {
        Ok(nodes) => Ok(nodes_view(nodes@)),
        Err(error) => Err(error),
    }
}

/// The message of an XML error.
pub uninterp spec fn xml_message(error: roxmltree::Error) -> Seq<char>;

/// `roxmltree::Document::parse` reads a document, and `descendants` walks it in document order:
/// a node's identifier is its place in that walk.
#[verifier::external_body]
fn parse_document(text: &str) -> (r: Result<Vec<XmlNode>, roxmltree::Error>)
    ensures
        nodes_read(r) == document_of(text@),
{
    let document = roxmltree::Document::parse(text)?;
    Ok(
        document.descendants().map(
            |n| XmlNode {
                tag: n.tag_name().name().to_string(),
                parent: n.parent().map(|p| p.id().get_usize()),
                attributes: n.attributes().map(
                    |a| (a.name().to_string(), a.value().to_string()),
                ).collect(),
            },
        ).collect(),
    )
}

/// The message of an XML error, as its `Display` spells it.
#[verifier::external_body]
fn xml_message_of(error: &roxmltree::Error) -> (r: String)
    ensures
        r@ == xml_message(*error),
{
    error.to_string()
}

/// The value of an attribute: the first of that name counts.
pub open spec fn attribute(attributes: Seq<(Seq<char>, Seq<char>)>, name: Seq<char>) -> Option<
    Seq<char>,
>
    decreases attributes.len(),
{
    if attributes.len() == 0 {
        None
    } else if attributes[0].0 == name {
        Some(attributes[0].1)
    } else {
        attribute(attributes.drop_first(), name)
    }
}

/// Whether a node is the link `name`.
pub open spec fn is_link(node: XmlNodeView, name: Seq<char>) -> bool {
    node.tag == "link"@ && attribute(node.attributes, "name"@) == Some(name)
}

/// Whether a node is a `tag` element that stands in the node at `parent`.
pub open spec fn is_child(node: XmlNodeView, parent: usize, tag: Seq<char>) -> bool {
    node.parent == Some(parent) && node.tag == tag
}

/// The first link `name` at or behind `from`, by its place among all nodes.
pub open spec fn link_from(nodes: Seq<XmlNodeView>, name: Seq<char>, from: int) -> Option<int>
    decreases nodes.len() - from,
{
    if from < 0 || from >= nodes.len() {
        None
    } else if is_link(nodes[from], name) {
        Some(from)
    } else {
        link_from(nodes, name, from + 1)
    }
}

/// The first `tag` element in the node at `parent` that stands at or behind `from`, by its
/// place among all nodes.
pub open spec fn child_from(
    nodes: Seq<XmlNodeView>,
    parent: usize,
    tag: Seq<char>,
    from: int,
) -> Option<int>
    decreases nodes.len() - from,
{
    if from < 0 || from >= nodes.len() {
        None
    } else if is_child(nodes[from], parent, tag) {
        Some(from)
    } else {
        child_from(nodes, parent, tag, from + 1)
    }
}

fn find_attribute<'a>(node: &'a XmlNode, name: &str) -> (r: Option<&'a String>)
    ensures
        match r {
            Some(v) => attribute(node@.attributes, name@) == Some(v@),
            None => attribute(node@.attributes, name@) is None,
        },
{
    let mut i: usize = 0;
    let all = Ghost(node@.attributes);
    assert(all@.skip(0) =~= all@);
    while i < node.attributes.len()
        invariant
            i <= node.attributes.len(),
            all@ == node@.attributes,
            attribute(all@.skip(i as int), name@) == attribute(all@, name@),
        decreases node.attributes.len() - i,
    {
        assert(all@.skip(i as int)[0] == (
            node.attributes@[i as int].0@,
            node.attributes@[i as int].1@,
        ));
        assert(all@.skip(i as int).drop_first() =~= all@.skip(i + 1));
        if same(node.attributes[i].0.as_str(), name) {
            return Some(&node.attributes[i].1);
        }
        i = i + 1;
    }
    None
}

fn find_link(nodes: &Vec<XmlNode>, name: &str) -> (r: Option<usize>)
    ensures
        match r {
            Some(i) => i < nodes.len() && link_from(nodes_view(nodes@), name@, 0) == Some(i as int),
            None => link_from(nodes_view(nodes@), name@, 0) is None,
        },
{
    let mut i: usize = 0;
    while i < nodes.len()
        invariant
            i <= nodes.len(),
            link_from(nodes_view(nodes@), name@, i as int) == link_from(
                nodes_view(nodes@),
                name@,
                0,
            ),
        decreases nodes.len() - i,
    {
        assert(nodes_view(nodes@)[i as int] == nodes@[i as int]@);
        let named = match find_attribute(&nodes[i], "name") {
            Some(v) => same(v.as_str(), name),
            None => false,
        };
        if same(nodes[i].tag.as_str(), "link") && named {
            return Some(i);
        }
        i = i + 1;
    }
    None
}

fn find_child(nodes: &Vec<XmlNode>, parent: usize, tag: &str) -> (r: Option<usize>)
    ensures
        match r {
            Some(i) => i < nodes.len() && child_from(nodes_view(nodes@), parent, tag@, 0) == Some(
                i as int,
            ),
            None => child_from(nodes_view(nodes@), parent, tag@, 0) is None,
        },
{
    let mut i: usize = 0;
    while i < nodes.len()
        invariant
            i <= nodes.len(),
            child_from(nodes_view(nodes@), parent, tag@, i as int) == child_from(
                nodes_view(nodes@),
                parent,
                tag@,
                0,
            ),
        decreases nodes.len() - i,
    {
        assert(nodes_view(nodes@)[i as int] == nodes@[i as int]@);
        let inside = match nodes[i].parent {
            Some(p) => p == parent,
            None => false,
        };
        if inside && same(nodes[i].tag.as_str(), tag) {
            return Some(i);
        }
        i = i + 1;
    }
    None
}

/// The words of attribute `name` of the origin of the visual of the link at `link`: of the first
/// `visual` in it, and of the first `origin` in that. Where any of these is missing there are
/// none.
pub open spec fn origin_words(nodes: Seq<XmlNodeView>, link: int, name: Seq<char>) -> Seq<
    Seq<char>,
> {
    match child_from(nodes, link as usize, "visual"@, 0) {
        None => Seq::empty(),
        Some(visual) => match child_from(nodes, visual as usize, "origin"@, 0) {
            None => Seq::empty(),
            Some(origin) => match attribute(nodes[origin].attributes, name) {
                None => Seq::empty(),
                Some(text) => words(text),
            },
        },
    }
}

fn read_origin(nodes: &Vec<XmlNode>, link: usize, name: &str) -> (r: Vec<String>)
    ensures
        views(r@) == origin_words(nodes_view(nodes@), link as int, name@),
{
    let none: Vec<String> = Vec::new();
    assert(views(none@) =~= Seq::empty());
    let visual = match find_child(nodes, link, "visual") {
        Some(v) => v,
        None => {
            return none;
        },
    };
    let origin = match find_child(nodes, visual, "origin") {
        Some(o) => o,
        None => {
            return none;
        },
    };
    assert(nodes_view(nodes@)[origin as int] == nodes@[origin as int]@);
    match find_attribute(&nodes[origin], name) {
        Some(text) => split_words(text.as_str()),
        None => none,
    }
}

/// A mesh, the link it belongs to, and the words its place in the link is spelled with.
#[derive(Debug)]
pub struct Visual {
    pub parent: String,
    pub child: String,
    pub mesh_file: String,
    pub xyz: Vec<String>,
    pub rpy: Vec<String>,
}

/// What a [`Visual`] says.
#[verifier::ext_equal]
pub struct VisualView {
    pub parent: Seq<char>,
    pub child: Seq<char>,
    pub mesh_file: Seq<char>,
    pub xyz: Seq<Seq<char>>,
    pub rpy: Seq<Seq<char>>,
}

impl View for Visual {
    type V = VisualView;

    open spec fn view(&self) -> VisualView {
        VisualView {
            parent: self.parent@,
            child: self.child@,
            mesh_file: self.mesh_file@,
            xyz: views(self.xyz@),
            rpy: views(self.rpy@),
        }
    }
}

/// The links that have a mesh, and its file.
pub open spec fn mesh_links() -> Seq<(Seq<char>, Seq<char>)> {
    seq![
        ("base_link_inertia"@, "base.dae"@),
        ("shoulder_link"@, "shoulder.dae"@),
        ("upper_arm_link"@, "upperarm.dae"@),
        ("forearm_link"@, "forearm.dae"@),
        ("wrist_1_link"@, "wrist1.dae"@),
        ("wrist_2_link"@, "wrist2.dae"@),
        ("wrist_3_link"@, "wrist3.dae"@),
    ]
}

/// The visual of a link, under the prefix of its robot.
pub open spec fn visual_of(
    nodes: Seq<XmlNodeView>,
    prefix: Seq<char>,
    link: Seq<char>,
    mesh: Seq<char>,
    at: int,
) -> VisualView {
    VisualView {
        parent: prefix + link,
        child: prefix + (link + "_visual"@),
        mesh_file: mesh,
        xyz: origin_words(nodes, at, "xyz"@),
        rpy: origin_words(nodes, at, "rpy"@),
    }
}

/// The visuals of the first `n` links that have a mesh: one for each that the document has.
pub open spec fn visuals_of(nodes: Seq<XmlNodeView>, prefix: Seq<char>, n: nat) -> Seq<VisualView>
    decreases n,
{
    if n == 0 || n > mesh_links().len() {
        Seq::empty()
    } else {
        let before = visuals_of(nodes, prefix, (n - 1) as nat);
        let (link, mesh) = mesh_links()[n - 1];
        match link_from(nodes, link, 0) {
            Some(at) => before.push(visual_of(nodes, prefix, link, mesh, at)),
            None => before,
        }
    }
}

fn mesh_link(i: usize) -> (r: (&'static str, &'static str))
    requires
        i < 7,
    ensures
        (r.0@, r.1@) == mesh_links()[i as int],
{
    match i {
        0 => ("base_link_inertia", "base.dae"),
        1 => ("shoulder_link", "shoulder.dae"),
        2 => ("upper_arm_link", "upperarm.dae"),
        3 => ("forearm_link", "forearm.dae"),
        4 => ("wrist_1_link", "wrist1.dae"),
        5 => ("wrist_2_link", "wrist2.dae"),
        _ => ("wrist_3_link", "wrist3.dae"),
    }
}

/// The visuals that a parsed URDF has.
pub fn visuals_in(nodes: &Vec<XmlNode>, params: &URDFParameters) -> (r: Vec<Visual>)
    ensures
        r@.map_values(|v: Visual| v@) == visuals_of(nodes_view(nodes@), params.tf_prefix@, 7),
{
    let mut r: Vec<Visual> = Vec::new();
    let mut i: usize = 0;
    let ghost all = nodes_view(nodes@);
    assert(r@.map_values(|v: Visual| v@) =~= visuals_of(all, params.tf_prefix@, 0));
    while i < 7
        invariant
            i <= 7,
            all == nodes_view(nodes@),
            r@.map_values(|v: Visual| v@) == visuals_of(all, params.tf_prefix@, i as nat),
        decreases 7 - i,
    {
        let (link, mesh) = mesh_link(i);
        let before = Ghost(r@.map_values(|v: Visual| v@));
        match find_link(nodes, link) {
            Some(at) => {
                let visual = Visual {
                    parent: params.frame(link),
                    child: params.frame(join2(link, "_visual").as_str()),
                    mesh_file: mesh.to_owned(),
                    xyz: read_origin(nodes, at, "xyz"),
                    rpy: read_origin(nodes, at, "rpy"),
                };
                assert(visual@ =~= visual_of(all, params.tf_prefix@, link@, mesh@, at as int));
                r.push(visual);
                assert(r@.map_values(|v: Visual| v@) =~= before@.push(
                    visual_of(all, params.tf_prefix@, link@, mesh@, at as int),
                ));
            },
            None => {},
        }
        i = i + 1;
        assert(mesh_links()[i - 1] == (link@, mesh@));
    }
    r
}

/// The visuals that a URDF has, or why it cannot be read.
pub fn read_visuals(urdf: &str, params: &URDFParameters) -> (r: Result<Vec<Visual>, roxmltree::Error>)
    ensures
        match document_of(urdf@) {
            Ok(nodes) => r matches Ok(visuals) && visuals@.map_values(|v: Visual| v@)
                == visuals_of(nodes, params.tf_prefix@, 7),
            Err(error) => r == Err::<Vec<Visual>, _>(error),
        },
{
    match parse_document(urdf) {
        Ok(nodes) => Ok(visuals_in(&nodes, params)),
        Err(e) => Err(e),
    }
}

/// What is reported of a URDF that is not XML.
pub fn unreadable_urdf(error: &roxmltree::Error) -> (r: String)
    ensures
        r@ == "Failed to parse URDF XML: "@ + xml_message(*error),
{
    join2("Failed to parse URDF XML: ", xml_message_of(error).as_str())
}

/// The numbers among what reading each word as a number gave, in their order.
pub open spec fn numbers_read(read: Seq<Option<Double>>) -> Seq<Double>
    decreases read.len(),
{
    if read.len() == 0 {
        Seq::empty()
    } else {
        let before = numbers_read(read.drop_last());
        match read.last() {
            Some(d) => before.push(d),
            None => before,
        }
    }
}

/// Whether those are the three numbers that were read, or zeros where they were not three.
pub open spec fn is_three_or_zero(read: Seq<Option<Double>>, r: (Double, Double, Double)) -> bool {
    let n = numbers_read(read);
    if n.len() == 3 {
        r == (n[0], n[1], n[2])
    } else {
        r == (Double { bits: 0 }, Double { bits: 0 }, Double { bits: 0 })
    }
}

/// The three coordinates that words were read as; zeros where they were not exactly three
/// numbers.
pub fn three_or_zero(read: &Vec<Option<Double>>) -> (r: (Double, Double, Double))
    ensures
        is_three_or_zero(read@, r),
{
    let mut numbers: Vec<Double> = Vec::new();
    let mut i: usize = 0;
    assert(read@.take(0) =~= Seq::empty());
    while i < read.len()
        invariant
            i <= read.len(),
            numbers@ == numbers_read(read@.take(i as int)),
        decreases read.len() - i,
    {
        assert(read@.take(i + 1).drop_last() =~= read@.take(i as int));
        match read[i] {
            Some(d) => {
                numbers.push(d);
            },
            None => {},
        }
        i = i + 1;
    }
    assert(read@.take(i as int) =~= read@);
    if numbers.len() == 3 {
        (numbers[0], numbers[1], numbers[2])
    } else {
        (Double { bits: 0 }, Double { bits: 0 }, Double { bits: 0 })
    }
}

/// How a mesh is shown: its file and directory, at its own scale and with its own materials.
pub open spec fn shows_mesh(
    table: Seq<(SpValue, SpValue)>,
    meshes_path: Seq<char>,
    mesh_file: Seq<char>,
) -> bool {
    &&& table.len() == 9
    &&& table[0].0@ == SpView::Text(Some("override_meshes_dir"@)) && table[0].1@ == SpView::Text(
        Some(meshes_path),
    )
    &&& table[1].0@ == SpView::Text(Some("mesh_file"@)) && table[1].1@ == SpView::Text(
        Some(mesh_file),
    )
    &&& table[2].0@ == SpView::Text(Some("mesh_scale"@)) && table[2].1@ == SpView::Float64(
        Some(Double { bits: crate::double::ONE }),
    )
    &&& table[3].0@ == SpView::Text(Some("visualize_mesh"@)) && table[3].1@ == SpView::Bool(
        Some(true),
    )
    &&& table[4].0@ == SpView::Text(Some("mesh_a"@)) && table[4].1@ == SpView::Float64(
        Some(Double { bits: 0 }),
    )
    &&& table[5].0@ == SpView::Text(Some("mesh_r"@)) && table[5].1@ == SpView::Float64(
        Some(Double { bits: 0 }),
    )
    &&& table[6].0@ == SpView::Text(Some("mesh_g"@)) && table[6].1@ == SpView::Float64(
        Some(Double { bits: 0 }),
    )
    &&& table[7].0@ == SpView::Text(Some("mesh_b"@)) && table[7].1@ == SpView::Float64(
        Some(Double { bits: 0 }),
    )
    &&& table[8].0@ == SpView::Text(Some("mesh_use_embedded_materials"@)) && table[8].1@
        == SpView::Bool(Some(true))
}

/// The metadata of a visual frame.
pub fn visual_metadata(meshes_path: &str, mesh_file: &str) -> (r: Vec<(SpValue, SpValue)>)
    ensures
        shows_mesh(r@, meshes_path@, mesh_file@),
{
    let zero = Double { bits: 0 };
    let mut r: Vec<(SpValue, SpValue)> = Vec::new();
    r.push((SpValue::text("override_meshes_dir"), SpValue::text(meshes_path)));
    r.push((SpValue::text("mesh_file"), SpValue::text(mesh_file)));
    r.push(
        (
            SpValue::text("mesh_scale"),
            SpValue::Float64(Some(Double { bits: crate::double::ONE })),
        ),
    );
    r.push((SpValue::text("visualize_mesh"), SpValue::Bool(Some(true))));
    r.push((SpValue::text("mesh_a"), SpValue::Float64(Some(zero))));
    r.push((SpValue::text("mesh_r"), SpValue::Float64(Some(zero))));
    r.push((SpValue::text("mesh_g"), SpValue::Float64(Some(zero))));
    r.push((SpValue::text("mesh_b"), SpValue::Float64(Some(zero))));
    r.push((SpValue::text("mesh_use_embedded_materials"), SpValue::Bool(Some(true))));
    r
}

/// A visual frame hangs off the link it belongs to, under a name that is the link's with
/// `_visual` behind it: it is never one of the links themselves.
pub proof fn visuals_hang_off_their_links(
    nodes: Seq<XmlNodeView>,
    prefix: Seq<char>,
    link: Seq<char>,
    mesh: Seq<char>,
    at: int,
)
    ensures
        visual_of(nodes, prefix, link, mesh, at).child == visual_of(
            nodes,
            prefix,
            link,
            mesh,
            at,
        ).parent + "_visual"@,
        visual_of(nodes, prefix, link, mesh, at).child != visual_of(
            nodes,
            prefix,
            link,
            mesh,
            at,
        ).parent,
{
    reveal_strlit("_visual");
    assert(prefix + (link + "_visual"@) =~= (prefix + link) + "_visual"@);
}

/// Three numbers are taken in their order; anything else counts as none.
pub proof fn three_numbers_are_taken_in_order(
    a: Double,
    b: Double,
    c: Double,
    r: (Double, Double, Double),
)
    requires
        is_three_or_zero(seq![Some(a), Some(b), Some(c)], r),
    ensures
        r == (a, b, c),
{
    let read = seq![Some(a), Some(b), Some(c)];
    reveal_with_fuel(numbers_read, 4);
    assert(read.drop_last() =~= seq![Some(a), Some(b)]);
    assert(read.drop_last().drop_last() =~= seq![Some(a)]);
    assert(read.drop_last().drop_last().drop_last() =~= Seq::empty());
    assert(numbers_read(read) =~= seq![a, b, c]);
}

} // verus!
