//! The statement interpreter: one call per statement, then `finish`.

use vstd::prelude::*;
use crate::builder::{builder_end, builder_start, key_view, lemma_wf_grows, table_wf, Counter, GroupBuilder};
use crate::element::{Line, Point, Polygon};
use crate::error::ObjError;
use crate::face::{face, parse_face, polygon_view};
use crate::group::{count_le, new_group, Count, GroupView};
use crate::statement::{classify, keyword, layout, vertex_layout, Keyword, Layout, VertexKind};
use crate::table::GroupTable;
use crate::text::{decimal, parse_decimal, same_text};

verus! {

/// What the caller has to do after a statement was accepted.
#[derive(Clone, Copy, Debug, PartialEq, Eq)]
pub enum Outcome {
    /// Nothing: the statement has been applied.
    Done,
    /// Read the arguments as numbers and hand the record of `kind` that the
    /// layout describes to `push_attribute`.
    Vertex(VertexKind, Layout),
}

/// The views of a list of strings.
pub open spec fn strings(v: Seq<String>) -> Seq<Seq<char>> {
    v.map_values(|s: String| s@)
}

/// The words of `a` with one space between each two.
pub open spec fn joined(a: Seq<Seq<char>>) -> Seq<char>
    decreases a.len(),
{
    if a.len() == 0 {
        Seq::empty()
    } else if a.len() == 1 {
        a[0]
    } else {
        joined(a.drop_last()) + " "@ + a.last()
    }
}

/// The object name that an `o` statement with the arguments `a` sets.
pub open spec fn object_name(a: Seq<Seq<char>>) -> Option<Seq<char>> {
    if a.len() == 0 {
        None
    } else {
        Some(joined(a))
    }
}

/// The view of an optional string.
pub open spec fn name_view(n: Option<String>) -> Option<Seq<char>> {
    match n {
        Some(s) => Some(s@),
        None => None,
    }
}

/// `s` and `mg` close their group on `off` and on `0`.
pub open spec fn is_off(a: Seq<char>) -> bool {
    a == "off"@ || a == "0"@
}

/// What an `s` or `mg` statement with the arguments `a` does to its builder,
/// from `v` to `w`, with the element counts `c`.
pub open spec fn numbered_effect(
    v: (Option<usize>, Map<usize, GroupView>),
    w: (Option<usize>, Map<usize, GroupView>),
    a: Seq<Seq<char>>,
    c: Count,
    r: Result<Outcome, ObjError>,
) -> bool {
    if a.len() != 1 {
        r == Err::<Outcome, _>(ObjError::WrongNumberOfArguments) && w == v
    } else if is_off(a[0]) {
        r == Ok::<_, ObjError>(Outcome::Done) && w == builder_end(v, c)
    } else {
        match decimal(a[0]) {
            None => r == Err::<Outcome, _>(ObjError::ParseError) && w == v,
            Some(n) => r == Ok::<_, ObjError>(Outcome::Done) && w == builder_start(v, n, c),
        }
    }
}

/// Runs an `s` or `mg` statement on its builder.
fn numbered_statement(b: &mut GroupBuilder<usize>, args: &Vec<String>, count: Count) -> (r: Result<Outcome, ObjError>)
    requires
        old(b).wf(count),
    ensures
        final(b).wf(count),
        numbered_effect(old(b).view(), final(b).view(), strings(args@), count, r),
{
    if args.len() != 1 {
        return Err(ObjError::WrongNumberOfArguments);
    }
    let a = args[0].as_str();
    if same_text(a, "off") || same_text(a, "0") {
        b.end(count);
        return Ok(Outcome::Done);
    }
    match parse_decimal(a) {
        None => Err(ObjError::ParseError),
        Some(n) => {
            b.start(n, count);
            Ok(Outcome::Done)
        },
    }
}

/// The words of `args` joined with one space.
fn join_words(args: &Vec<String>) -> (r: String)
    requires
        args@.len() > 0,
    ensures
        r@ == joined(strings(args@)),
{
    let ghost a = strings(args@);
    let mut s = args[0].clone();
    let mut i: usize = 1;
    assert(a.subrange(0, 1).len() == 1);
    while i < args.len()
        invariant
            a == strings(args@),
            1 <= i <= args@.len(),
            s@ == joined(a.subrange(0, i as int)),
        decreases args@.len() - i,
    {
        s.append(" ");
        s.append(args[i].as_str());
        assert(a.subrange(0, i + 1).drop_last() =~= a.subrange(0, i as int));
        i = i + 1;
    }
    assert(a.subrange(0, i as int) =~= a);
    s
}

/// Low-level binding for the `.obj` format; `A` is a vertex attribute record.
#[derive(Debug)]
pub struct RawObj<A> {
    /// Name of the object.
    pub name: Option<String>,
    /// `.mtl` files which are required by this object.
    pub material_libraries: Vec<String>,
    /// Position vectors of each vertex.
    pub positions: Vec<A>,
    /// Texture coordinates of each vertex.
    pub tex_coords: Vec<A>,
    /// Normal vectors of each vertex.
    pub normals: Vec<A>,
    /// Parametric vertices.
    pub param_vertices: Vec<A>,
    /// Points which store the index data of position vectors.
    pub points: Vec<Point>,
    /// Lines which store the index data of vectors.
    pub lines: Vec<Line>,
    /// Polygons which store the index data of vectors.
    pub polygons: Vec<Polygon>,
    /// Groups of multiple geometries.
    pub groups: GroupTable<String>,
    /// Geometries which consist in a same material.
    pub meshes: GroupTable<String>,
    /// Smoothing groups.
    pub smoothing_groups: GroupTable<usize>,
    /// Merging groups.
    pub merging_groups: GroupTable<usize>,
}

/// The state of a parse in progress.
#[derive(Debug)]
pub struct ObjParser<A> {
    /// Name of the object.
    pub name: Option<String>,
    /// `.mtl` files named so far.
    pub material_libraries: Vec<String>,
    /// Position vectors read so far.
    pub positions: Vec<A>,
    /// Texture coordinates read so far.
    pub tex_coords: Vec<A>,
    /// Normal vectors read so far.
    pub normals: Vec<A>,
    /// Parametric vertices read so far.
    pub param_vertices: Vec<A>,
    /// Points, lines and polygons read so far.
    pub counter: Counter,
    /// Builder of the groups (`g`).
    pub groups: GroupBuilder<String>,
    /// Builder of the meshes (`usemtl`).
    pub meshes: GroupBuilder<String>,
    /// Builder of the smoothing groups (`s`).
    pub smoothing_groups: GroupBuilder<usize>,
    /// Builder of the merging groups (`mg`).
    pub merging_groups: GroupBuilder<usize>,
}

impl<A> ObjParser<A> {
    /// Every builder is consistent with the element lists.
    pub open spec fn wf(&self) -> bool {
        let c = self.counter.count();
        &&& self.groups.wf(c)
        &&& self.meshes.wf(c)
        &&& self.smoothing_groups.wf(c)
        &&& self.merging_groups.wf(c)
    }

    /// What `statement` does with the keyword `k` and the arguments `args`,
    /// from the state `s` to the state `t`, returning `r`.
    pub open spec fn effect(s: Self, t: Self, k: Seq<char>, args: Seq<String>, r: Result<Outcome, ObjError>) -> bool {
        let a = strings(args);
        let c = s.counter.count();
        match keyword(k) {
            Keyword::Unknown => r == Err::<Outcome, _>(ObjError::UnexpectedStatement) && t == s,
            Keyword::Unsupported => r == Err::<Outcome, _>(ObjError::UnsupportedStatement) && t == s,
            Keyword::Vertex(kind) => t == s && match layout(kind, a.len()) {
                Some(l) => r == Ok::<_, ObjError>(Outcome::Vertex(kind, l)),
                None => r == Err::<Outcome, _>(ObjError::WrongNumberOfArguments),
            },
            Keyword::Face => match face(a) {
                Err(e) => r == Err::<Outcome, _>(e) && t == s,
                Ok(pv) => {
                    &&& r == Ok::<_, ObjError>(Outcome::Done)
                    &&& t.counter.polygons@.len() == s.counter.polygons@.len() + 1
                    &&& t.counter.polygons@.drop_last() == s.counter.polygons@
                    &&& polygon_view(t.counter.polygons@.last()) == pv
                    &&& t == (ObjParser { counter: Counter { polygons: t.counter.polygons, ..s.counter }, ..s })
                },
            },
            Keyword::Group => if a.len() != 1 {
                r == Err::<Outcome, _>(ObjError::WrongNumberOfArguments) && t == s
            } else {
                &&& r == Ok::<_, ObjError>(Outcome::Done)
                &&& t.groups.view() == builder_start(s.groups.view(), a[0], c)
                &&& t == (ObjParser { groups: t.groups, ..s })
            },
            Keyword::UseMaterial => if a.len() != 1 {
                r == Err::<Outcome, _>(ObjError::WrongNumberOfArguments) && t == s
            } else {
                &&& r == Ok::<_, ObjError>(Outcome::Done)
                &&& t.meshes.view() == builder_start(s.meshes.view(), a[0], c)
                &&& t == (ObjParser { meshes: t.meshes, ..s })
            },
            Keyword::Smoothing => {
                &&& numbered_effect(s.smoothing_groups.view(), t.smoothing_groups.view(), a, c, r)
                &&& t == (ObjParser { smoothing_groups: t.smoothing_groups, ..s })
            },
            Keyword::Merging => {
                &&& numbered_effect(s.merging_groups.view(), t.merging_groups.view(), a, c, r)
                &&& t == (ObjParser { merging_groups: t.merging_groups, ..s })
            },
            Keyword::Object => {
                &&& r == Ok::<_, ObjError>(Outcome::Done)
                &&& name_view(t.name) == object_name(a)
                &&& t == (ObjParser { name: t.name, ..s })
            },
            Keyword::MaterialLibrary => {
                &&& r == Ok::<_, ObjError>(Outcome::Done)
                &&& t.material_libraries@ == s.material_libraries@ + args
                &&& t == (ObjParser { material_libraries: t.material_libraries, ..s })
            },
        }
    }

    /// Interprets one statement: `keyword` and its arguments `args`.
    /// Vertex statements are checked here and their records are handed to
    /// `push_attribute` by the caller, who reads the numbers.
    pub fn statement(&mut self, keyword: &str, args: &Vec<String>) -> (r: Result<Outcome, ObjError>)
        requires
            old(self).wf(),
        ensures
            final(self).wf(),
            Self::effect(*old(self), *final(self), keyword@, args@, r),
    {
        let count = self.counter.get();
        match classify(keyword) {
            Keyword::Vertex(kind) => match vertex_layout(kind, args.len()) {
                Ok(l) => Ok(Outcome::Vertex(kind, l)),
                Err(e) => Err(e),
            },
            Keyword::Face => match parse_face(args) {
                Err(e) => Err(e),
                Ok(p) => {
                    let ghost before = self.counter.polygons@;
                    self.counter.polygons.push(p);
                    // The new length is a usize, so the polygon count grew without wrapping.
                    let grown: usize = self.counter.polygons.len();
                    proof {
                        assert(self.counter.polygons@.drop_last() =~= before);
                        let c2 = self.counter.count();
                        assert(grown == c2.2);
                        assert(count_le(count, c2));
                        lemma_wf_grows(self.groups.result@, key_view(self.groups.current), count, c2);
                        lemma_wf_grows(self.meshes.result@, key_view(self.meshes.current), count, c2);
                        lemma_wf_grows(
                            self.smoothing_groups.result@,
                            key_view(self.smoothing_groups.current),
                            count,
                            c2,
                        );
                        lemma_wf_grows(
                            self.merging_groups.result@,
                            key_view(self.merging_groups.current),
                            count,
                            c2,
                        );
                    }
                    Ok(Outcome::Done)
                },
            },
            Keyword::Group => {
                if args.len() != 1 {
                    return Err(ObjError::WrongNumberOfArguments);
                }
                self.groups.start(args[0].clone(), count);
                Ok(Outcome::Done)
            },
            Keyword::UseMaterial => {
                if args.len() != 1 {
                    return Err(ObjError::WrongNumberOfArguments);
                }
                self.meshes.start(args[0].clone(), count);
                Ok(Outcome::Done)
            },
            Keyword::Smoothing => numbered_statement(&mut self.smoothing_groups, args, count),
            Keyword::Merging => numbered_statement(&mut self.merging_groups, args, count),
            Keyword::Object => {
                self.name = if args.len() == 0 {
                    None
                } else {
                    Some(join_words(args))
                };
                Ok(Outcome::Done)
            },
            Keyword::MaterialLibrary => {
                let ghost before = self.material_libraries@;
                let ghost s0 = *self;
                let mut i: usize = 0;
                while i < args.len()
                    invariant
                        *self == (ObjParser { material_libraries: self.material_libraries, ..s0 }),
                        s0.wf(),
                        i <= args@.len(),
                        self.material_libraries@ == before + args@.subrange(0, i as int),
                    decreases args@.len() - i,
                {
                    self.material_libraries.push(args[i].clone());
                    assert(args@.subrange(0, i + 1) =~= args@.subrange(0, i as int).push(args@[i as int]));
                    i = i + 1;
                }
                assert(args@.subrange(0, i as int) =~= args@);
                Ok(Outcome::Done)
            },
            Keyword::Unsupported => Err(ObjError::UnsupportedStatement),
            Keyword::Unknown => Err(ObjError::UnexpectedStatement),
        }
    }

    /// Closes every group, mesh, smoothing and merging group still open, and
    /// hands over the result.
    pub fn finish(self) -> (r: RawObj<A>)
        requires
            self.wf(),
        ensures
            r.name == self.name,
            r.material_libraries == self.material_libraries,
            r.positions == self.positions,
            r.tex_coords == self.tex_coords,
            r.normals == self.normals,
            r.param_vertices == self.param_vertices,
            r.points == self.counter.points,
            r.lines == self.counter.lines,
            r.polygons == self.counter.polygons,
            r.groups.wf() && r.meshes.wf() && r.smoothing_groups.wf() && r.merging_groups.wf(),
            r.groups@ == builder_end(self.groups.view(), self.counter.count()).1,
            r.meshes@ == builder_end(self.meshes.view(), self.counter.count()).1,
            r.smoothing_groups@ == builder_end(self.smoothing_groups.view(), self.counter.count()).1,
            r.merging_groups@ == builder_end(self.merging_groups.view(), self.counter.count()).1,
            table_wf(r.groups@, None, self.counter.count()),
            table_wf(r.meshes@, None, self.counter.count()),
            table_wf(r.smoothing_groups@, None, self.counter.count()),
            table_wf(r.merging_groups@, None, self.counter.count()),
    {
        let count = self.counter.get();
        let mut groups = self.groups;
        let mut meshes = self.meshes;
        let mut smoothing_groups = self.smoothing_groups;
        let mut merging_groups = self.merging_groups;
        groups.end(count);
        meshes.end(count);
        smoothing_groups.end(count);
        merging_groups.end(count);
        RawObj {
            name: self.name,
            material_libraries: self.material_libraries,
            positions: self.positions,
            tex_coords: self.tex_coords,
            normals: self.normals,
            param_vertices: self.param_vertices,
            points: self.counter.points,
            lines: self.counter.lines,
            polygons: self.counter.polygons,
            groups: groups.result,
            meshes: meshes.result,
            smoothing_groups: smoothing_groups.result,
            merging_groups: merging_groups.result,
        }
    }

    /// The attribute records of `kind` read so far.
    pub open spec fn attributes(&self, kind: VertexKind) -> Seq<A> {
        match kind {
            VertexKind::Position => self.positions@,
            VertexKind::TexCoord => self.tex_coords@,
            VertexKind::Normal => self.normals@,
            VertexKind::Param => self.param_vertices@,
        }
    }

    /// A parser before the first statement: the group `default` and the
    /// mesh with the empty name are open.
    pub fn new() -> (r: Self)
        ensures
            r.wf(),
            r.name is None,
            r.material_libraries@.len() == 0,
            r.positions@.len() == 0,
            r.tex_coords@.len() == 0,
            r.normals@.len() == 0,
            r.param_vertices@.len() == 0,
            r.counter.count() == (0usize, 0usize, 0usize),
            r.groups.view() == (Some("default"@), map!["default"@ => new_group((0, 0, 0))]),
            r.meshes.view() == (Some(Seq::<char>::empty()), map![Seq::<char>::empty() => new_group((0, 0, 0))]),
            r.smoothing_groups.view().0 is None,
            r.smoothing_groups.view().1.is_empty(),
            r.merging_groups.view().0 is None,
            r.merging_groups.view().1.is_empty(),
    {
        let counter = Counter::new(Vec::new(), Vec::new(), Vec::new());
        let groups = counter.hash_map(String::from_str("default"));
        let meshes = counter.hash_map(String::new());
        let smoothing_groups = counter.vec_map();
        let merging_groups = counter.vec_map();
        ObjParser {
            name: None,
            material_libraries: Vec::new(),
            positions: Vec::new(),
            tex_coords: Vec::new(),
            normals: Vec::new(),
            param_vertices: Vec::new(),
            counter,
            groups,
            meshes,
            smoothing_groups,
            merging_groups,
        }
    }

    /// Stores a vertex attribute record of `kind`.
    pub fn push_attribute(&mut self, kind: VertexKind, value: A)
        ensures
            final(self).attributes(kind) == old(self).attributes(kind).push(value),
            forall|k: VertexKind| k != kind ==> final(self).attributes(k) == old(self).attributes(k),
            *final(self) == (ObjParser {
                positions: final(self).positions,
                tex_coords: final(self).tex_coords,
                normals: final(self).normals,
                param_vertices: final(self).param_vertices,
                ..*old(self)
            }),
    {
        match kind {
            VertexKind::Position => self.positions.push(value),
            VertexKind::TexCoord => self.tex_coords.push(value),
            VertexKind::Normal => self.normals.push(value),
            VertexKind::Param => self.param_vertices.push(value),
        }
    }
}

} // verus!
