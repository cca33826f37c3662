//! Keywords of the statements and the layout of vertex attribute records.

use vstd::prelude::*;
use crate::error::ObjError;
use crate::text::same_text;

verus! {

/// The four lists of vertex attributes.
#[derive(Clone, Copy, Debug, PartialEq, Eq, Structural)]
pub enum VertexKind {
    /// `v`: a position.
    Position,
    /// `vt`: a texture coordinate.
    TexCoord,
    /// `vn`: a normal.
    Normal,
    /// `vp`: a parametric vertex.
    Param,
}

/// What a statement's keyword asks for.
#[derive(Clone, Copy, Debug, PartialEq, Eq, Structural)]
pub enum Keyword {
    /// `v`, `vt`, `vn` or `vp`.
    Vertex(VertexKind),
    /// `f`.
    Face,
    /// `g`.
    Group,
    /// `s`.
    Smoothing,
    /// `mg`.
    Merging,
    /// `o`.
    Object,
    /// `usemtl`.
    UseMaterial,
    /// `mtllib`.
    MaterialLibrary,
    /// A statement of the format that is not interpreted.
    Unsupported,
    /// Not a statement of the format.
    Unknown,
}

/// The keywords of the format that are recognised but not interpreted:
/// free-form geometry, points, lines, connectivity and render attributes.
pub open spec fn unsupported_keyword(k: Seq<char>) -> bool {
    ||| k == "cstype"@ || k == "deg"@ || k == "bmat"@ || k == "step"@
    ||| k == "p"@ || k == "l"@ || k == "curv"@ || k == "curv2"@ || k == "surf"@
    ||| k == "parm"@ || k == "trim"@ || k == "hole"@ || k == "scrv"@ || k == "sp"@ || k == "end"@
    ||| k == "con"@
    ||| k == "bevel"@ || k == "c_interp"@ || k == "d_interp"@ || k == "lod"@
    ||| k == "shadow_obj"@ || k == "trace_obj"@ || k == "ctech"@ || k == "stech"@
}

/// The meaning of the keyword `k`.
pub open spec fn keyword(k: Seq<char>) -> Keyword {
    if k == "v"@ {
        Keyword::Vertex(VertexKind::Position)
    } else if k == "vt"@ {
        Keyword::Vertex(VertexKind::TexCoord)
    } else if k == "vn"@ {
        Keyword::Vertex(VertexKind::Normal)
    } else if k == "vp"@ {
        Keyword::Vertex(VertexKind::Param)
    } else if k == "f"@ {
        Keyword::Face
    } else if k == "g"@ {
        Keyword::Group
    } else if k == "s"@ {
        Keyword::Smoothing
    } else if k == "mg"@ {
        Keyword::Merging
    } else if k == "o"@ {
        Keyword::Object
    } else if k == "usemtl"@ {
        Keyword::UseMaterial
    } else if k == "mtllib"@ {
        Keyword::MaterialLibrary
    } else if unsupported_keyword(k) {
        Keyword::Unsupported
    } else {
        Keyword::Unknown
    }
}

fn is_unsupported(k: &str) -> (r: bool)
    ensures
        r == unsupported_keyword(k@),
{
    same_text(k, "cstype") || same_text(k, "deg") || same_text(k, "bmat") || same_text(k, "step")
        || same_text(k, "p") || same_text(k, "l") || same_text(k, "curv") || same_text(k, "curv2")
        || same_text(k, "surf") || same_text(k, "parm") || same_text(k, "trim") || same_text(k, "hole")
        || same_text(k, "scrv") || same_text(k, "sp") || same_text(k, "end") || same_text(k, "con")
        || same_text(k, "bevel") || same_text(k, "c_interp") || same_text(k, "d_interp")
        || same_text(k, "lod") || same_text(k, "shadow_obj") || same_text(k, "trace_obj")
        || same_text(k, "ctech") || same_text(k, "stech")
}

/// Tells what the keyword `k` asks for.
pub fn classify(k: &str) -> (r: Keyword)
    ensures
        r == keyword(k@),
{
    if same_text(k, "v") {
        Keyword::Vertex(VertexKind::Position)
    } else if same_text(k, "vt") {
        Keyword::Vertex(VertexKind::TexCoord)
    } else if same_text(k, "vn") {
        Keyword::Vertex(VertexKind::Normal)
    } else if same_text(k, "vp") {
        Keyword::Vertex(VertexKind::Param)
    } else if same_text(k, "f") {
        Keyword::Face
    } else if same_text(k, "g") {
        Keyword::Group
    } else if same_text(k, "s") {
        Keyword::Smoothing
    } else if same_text(k, "mg") {
        Keyword::Merging
    } else if same_text(k, "o") {
        Keyword::Object
    } else if same_text(k, "usemtl") {
        Keyword::UseMaterial
    } else if same_text(k, "mtllib") {
        Keyword::MaterialLibrary
    } else if is_unsupported(k) {
        Keyword::Unsupported
    } else {
        Keyword::Unknown
    }
}

/// Where one component of a vertex attribute record comes from.
#[derive(Clone, Copy, Debug, PartialEq, Eq, Structural)]
pub enum Component {
    /// The statement's argument at this position.
    Arg(usize),
    /// The default 0.
    Zero,
    /// The default 1.
    One,
}

/// The four components of a vertex attribute record.
pub type Layout = (Component, Component, Component, Component);

/// The record layout of a vertex statement of `kind` with `n` arguments, or
/// `None` when `n` is not a count that the statement admits.
pub open spec fn layout(kind: VertexKind, n: nat) -> Option<Layout> {
    let (a0, a1, a2, a3) = (Component::Arg(0), Component::Arg(1), Component::Arg(2), Component::Arg(3));
    match kind {
        VertexKind::Position => if n == 4 {
            Some((a0, a1, a2, a3))
        } else if n == 3 {
            Some((a0, a1, a2, Component::One))
        } else {
            None
        },
        VertexKind::TexCoord => if n == 3 {
            Some((a0, a1, a2, Component::Zero))
        } else if n == 2 {
            Some((a0, a1, Component::Zero, Component::Zero))
        } else if n == 1 {
            Some((a0, Component::Zero, Component::Zero, Component::Zero))
        } else {
            None
        },
        VertexKind::Normal => if n == 3 {
            Some((a0, a1, a2, Component::Zero))
        } else {
            None
        },
        VertexKind::Param => if n == 3 {
            Some((a0, a1, a2, Component::Zero))
        } else if n == 2 {
            Some((a0, a1, Component::One, Component::Zero))
        } else if n == 1 {
            Some((a0, Component::Zero, Component::One, Component::Zero))
        } else {
            None
        },
    }
}

/// The record layout of a vertex statement, as `layout` gives it, or
/// `WrongNumberOfArguments`.
pub fn vertex_layout(kind: VertexKind, n: usize) -> (r: Result<Layout, ObjError>)
    ensures
        layout(kind, n as nat) matches Some(l) ==> r == Ok::<_, ObjError>(l),
        layout(kind, n as nat) is None ==> r == Err::<Layout, _>(ObjError::WrongNumberOfArguments),
        kind == VertexKind::Position && n == 3 ==> (r matches Ok(l) && l.3 == Component::One),
        kind == VertexKind::Position && n == 4 ==> (r matches Ok(l) && l.3 == Component::Arg(3)),
{
    let a0 = Component::Arg(0);
    let a1 = Component::Arg(1);
    let a2 = Component::Arg(2);
    let zero = Component::Zero;
    let one = Component::One;
    let l = match kind {
        VertexKind::Position => if n == 4 {
            Some((a0, a1, a2, Component::Arg(3)))
        } else if n == 3 {
            Some((a0, a1, a2, one))
        } else {
            None
        },
        VertexKind::TexCoord => if n == 3 {
            Some((a0, a1, a2, zero))
        } else if n == 2 {
            Some((a0, a1, zero, zero))
        } else if n == 1 {
            Some((a0, zero, zero, zero))
        } else {
            None
        },
        VertexKind::Normal => if n == 3 {
            Some((a0, a1, a2, zero))
        } else {
            None
        },
        VertexKind::Param => if n == 3 {
            Some((a0, a1, a2, zero))
        } else if n == 2 {
            Some((a0, a1, one, zero))
        } else if n == 1 {
            Some((a0, zero, one, zero))
        } else {
            None
        },
    };
    match l {
        Some(l) => Ok(l),
        None => Err(ObjError::WrongNumberOfArguments),
    }
}

} // verus!
