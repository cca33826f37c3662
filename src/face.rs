//! Vertex references of an `f` statement: `p`, `p/t`, `p//n` or `p/t/n`.

use vstd::prelude::*;
use crate::element::Polygon;
use crate::error::ObjError;
use crate::text::{decimal, find_slash, next_slash, parse_decimal};

verus! {

/// The form of a vertex reference.
#[derive(Clone, Copy, Debug, PartialEq, Eq, Structural)]
pub enum Shape {
    /// `p`: a position.
    P,
    /// `p/t`: a position and a texture coordinate.
    PT,
    /// `p//n`: a position and a normal.
    PN,
    /// `p/t/n`: a position, a texture coordinate and a normal.
    PTN,
}

/// A vertex reference as (position, texture coordinate, normal), 0-based;
/// a part the shape does not have is 0.
pub type VertexRef = (usize, usize, usize);

/// The shape of the reference `s`, or `None` when it has more than three fields.
pub open spec fn ref_shape(s: Seq<char>) -> Option<Shape> {
    let p1 = next_slash(s, 0);
    let p2 = next_slash(s, p1 + 1);
    if p1 >= s.len() {
        Some(Shape::P)
    } else if p2 >= s.len() {
        Some(Shape::PT)
    } else if next_slash(s, p2 + 1) < s.len() {
        None
    } else if p2 == p1 + 1 {
        Some(Shape::PN)
    } else {
        Some(Shape::PTN)
    }
}

/// The 0-based index that the 1-based field `f` names.
pub open spec fn field_index(f: Seq<char>) -> Result<usize, ObjError> {
    match decimal(f) {
        None => Err(ObjError::ParseError),
        Some(n) => if n == 0 {
            Err(ObjError::WrongTypeOfArguments)
        } else {
            Ok((n - 1) as usize)
        },
    }
}

/// The indices of the reference `s`, read as `shape`, from left to right.
pub open spec fn ref_values(s: Seq<char>, shape: Shape) -> Result<VertexRef, ObjError> {
    let p1 = next_slash(s, 0);
    let p2 = next_slash(s, p1 + 1);
    let first = s.subrange(0, p1);
    match field_index(first) {
        Err(e) => Err(e),
        Ok(p) => match shape {
            Shape::P => Ok((p, 0, 0)),
            Shape::PT => match field_index(s.subrange(p1 + 1, s.len() as int)) {
                Err(e) => Err(e),
                Ok(t) => Ok((p, t, 0)),
            },
            Shape::PN => match field_index(s.subrange(p2 + 1, s.len() as int)) {
                Err(e) => Err(e),
                Ok(n) => Ok((p, 0, n)),
            },
            Shape::PTN => match field_index(s.subrange(p1 + 1, p2)) {
                Err(e) => Err(e),
                Ok(t) => match field_index(s.subrange(p2 + 1, s.len() as int)) {
                    Err(e) => Err(e),
                    Ok(n) => Ok((p, t, n)),
                },
            },
        },
    }
}

/// One reference of a face whose first reference has `shape`.
pub open spec fn face_ref(s: Seq<char>, shape: Shape) -> Result<VertexRef, ObjError> {
    if ref_shape(s) != Some(shape) {
        Err(ObjError::WrongTypeOfArguments)
    } else {
        ref_values(s, shape)
    }
}

/// The references of the first `n` arguments, or the first error among them.
pub open spec fn face_refs(args: Seq<Seq<char>>, shape: Shape, n: nat) -> Result<Seq<VertexRef>, ObjError>
    decreases n,
{
    if n == 0 {
        Ok(Seq::empty())
    } else {
        match face_refs(args, shape, (n - 1) as nat) {
            Err(e) => Err(e),
            Ok(rs) => match face_ref(args[n - 1], shape) {
                Err(e) => Err(e),
                Ok(v) => Ok(rs.push(v)),
            },
        }
    }
}

/// The polygon that the arguments of an `f` statement describe.
pub open spec fn face(args: Seq<Seq<char>>) -> Result<(Shape, Seq<VertexRef>), ObjError> {
    if args.len() < 3 {
        Err(ObjError::WrongNumberOfArguments)
    } else {
        match ref_shape(args[0]) {
            None => Err(ObjError::WrongTypeOfArguments),
            Some(shape) => match face_refs(args, shape, args.len()) {
                Err(e) => Err(e),
                Ok(rs) => Ok((shape, rs)),
            },
        }
    }
}

/// The shape and the references of a polygon.
pub open spec fn polygon_view(p: Polygon) -> (Shape, Seq<VertexRef>) {
    match p {
        Polygon::P(v) => (Shape::P, v@.map_values(|x: usize| (x, 0usize, 0usize))),
        Polygon::PT(v) => (Shape::PT, v@.map_values(|x: (usize, usize)| (x.0, x.1, 0usize))),
        Polygon::PN(v) => (Shape::PN, v@.map_values(|x: (usize, usize)| (x.0, 0usize, x.1))),
        Polygon::PTN(v) => (Shape::PTN, v@),
    }
}

/// Every reference of `rs` has 0 where `shape` has no part.
pub open spec fn fits(shape: Shape, rs: Seq<VertexRef>) -> bool {
    forall|i: int| 0 <= i < rs.len() ==> {
        let r = #[trigger] rs[i];
        &&& (shape == Shape::P || shape == Shape::PN ==> r.1 == 0)
        &&& (shape == Shape::P || shape == Shape::PT ==> r.2 == 0)
    }
}

/// Reads a 1-based index field.
fn read_index(f: &str) -> (r: Result<usize, ObjError>)
    ensures
        r == field_index(f@),
{
    match parse_decimal(f) {
        None => Err(ObjError::ParseError),
        Some(n) => if n == 0 {
            Err(ObjError::WrongTypeOfArguments)
        } else {
            Ok(n - 1)
        },
    }
}

/// The shape of a vertex reference.
pub fn shape_of(s: &str) -> (r: Option<Shape>)
    ensures
        r == ref_shape(s@),
{
    let n = s.unicode_len();
    let p1 = find_slash(s, 0);
    if p1 >= n {
        return Some(Shape::P);
    }
    let p2 = find_slash(s, p1 + 1);
    if p2 >= n {
        return Some(Shape::PT);
    }
    let p3 = find_slash(s, p2 + 1);
    if p3 < n {
        None
    } else if p2 == p1 + 1 {
        Some(Shape::PN)
    } else {
        Some(Shape::PTN)
    }
}

/// Reads the indices of a vertex reference of shape `shape`.
pub fn values_of(s: &str, shape: Shape) -> (r: Result<VertexRef, ObjError>)
    requires
        ref_shape(s@) == Some(shape),
    ensures
        r == ref_values(s@, shape),
{
    let n = s.unicode_len();
    let p1 = find_slash(s, 0);
    let p = read_index(s.substring_char(0, p1))?;
    match shape {
        Shape::P => Ok((p, 0, 0)),
        Shape::PT => {
            let t = read_index(s.substring_char(p1 + 1, n))?;
            Ok((p, t, 0))
        },
        Shape::PN => {
            let p2 = find_slash(s, p1 + 1);
            let v = read_index(s.substring_char(p2 + 1, n))?;
            Ok((p, 0, v))
        },
        Shape::PTN => {
            let p2 = find_slash(s, p1 + 1);
            let t = read_index(s.substring_char(p1 + 1, p2))?;
            let v = read_index(s.substring_char(p2 + 1, n))?;
            Ok((p, t, v))
        },
    }
}

proof fn lemma_values_fit(s: Seq<char>, shape: Shape)
    ensures
        ref_values(s, shape) matches Ok(r) ==> fits(shape, seq![r]),
{
}

proof fn lemma_refs_err(args: Seq<Seq<char>>, shape: Shape, k: nat, n: nat)
    requires
        k <= n,
        face_refs(args, shape, k) is Err,
    ensures
        face_refs(args, shape, n) == face_refs(args, shape, k),
    decreases n - k,
{
    if k < n {
        lemma_refs_err(args, shape, k, (n - 1) as nat);
    }
}

/// Builds the polygon of shape `shape` over the references `rs`.
fn make_polygon(shape: Shape, rs: &Vec<VertexRef>) -> (r: Polygon)
    requires
        fits(shape, rs@),
    ensures
        polygon_view(r) == (shape, rs@),
{
    let mut i: usize = 0;
    match shape {
        Shape::P => {
            let mut v: Vec<usize> = Vec::new();
            while i < rs.len()
                invariant
                    i <= rs@.len(),
                    fits(shape, rs@),
                    shape == Shape::P,
                    v@.map_values(|x: usize| (x, 0usize, 0usize)) =~= rs@.subrange(0, i as int),
                decreases rs@.len() - i,
            {
                proof {
                    let r = rs@[i as int];
                    assert(r.1 == 0 && r.2 == 0);
                    assert(rs@.subrange(0, i + 1) =~= rs@.subrange(0, i as int).push(r));
                }
                v.push(rs[i].0);
                i = i + 1;
            }
            assert(rs@.subrange(0, rs@.len() as int) =~= rs@);
            Polygon::P(v)
        },
        Shape::PT => {
            let mut v: Vec<(usize, usize)> = Vec::new();
            while i < rs.len()
                invariant
                    i <= rs@.len(),
                    fits(shape, rs@),
                    shape == Shape::PT,
                    v@.map_values(|x: (usize, usize)| (x.0, x.1, 0usize)) =~= rs@.subrange(0, i as int),
                decreases rs@.len() - i,
            {
                proof {
                    let r = rs@[i as int];
                    assert(r.2 == 0);
                    assert(rs@.subrange(0, i + 1) =~= rs@.subrange(0, i as int).push(r));
                }
                v.push((rs[i].0, rs[i].1));
                i = i + 1;
            }
            assert(rs@.subrange(0, rs@.len() as int) =~= rs@);
            Polygon::PT(v)
        },
        Shape::PN => {
            let mut v: Vec<(usize, usize)> = Vec::new();
            while i < rs.len()
                invariant
                    i <= rs@.len(),
                    fits(shape, rs@),
                    shape == Shape::PN,
                    v@.map_values(|x: (usize, usize)| (x.0, 0usize, x.1)) =~= rs@.subrange(0, i as int),
                decreases rs@.len() - i,
            {
                proof {
                    let r = rs@[i as int];
                    assert(r.1 == 0);
                    assert(rs@.subrange(0, i + 1) =~= rs@.subrange(0, i as int).push(r));
                }
                v.push((rs[i].0, rs[i].2));
                i = i + 1;
            }
            assert(rs@.subrange(0, rs@.len() as int) =~= rs@);
            Polygon::PN(v)
        },
        Shape::PTN => {
            let mut v: Vec<(usize, usize, usize)> = Vec::new();
            while i < rs.len()
                invariant
                    i <= rs@.len(),
                    v@ =~= rs@.subrange(0, i as int),
                decreases rs@.len() - i,
            {
                v.push(rs[i]);
                i = i + 1;
            }
            assert(rs@.subrange(0, rs@.len() as int) =~= rs@);
            Polygon::PTN(v)
        },
    }
}

/// Reads the polygon of an `f` statement from its arguments.
pub fn parse_face(args: &Vec<String>) -> (r: Result<Polygon, ObjError>)
    ensures
        r matches Ok(p) ==> face(args@.map_values(|a: String| a@)) == Ok::<_, ObjError>(polygon_view(p)),
        r matches Err(e) ==> face(args@.map_values(|a: String| a@)) == Err::<(Shape, Seq<VertexRef>), _>(e),
{
    let ghost av = args@.map_values(|a: String| a@);
    if args.len() < 3 {
        return Err(ObjError::WrongNumberOfArguments);
    }
    let shape = match shape_of(args[0].as_str()) {
        None => {
            return Err(ObjError::WrongTypeOfArguments);
        },
        Some(s) => s,
    };
    let mut rs: Vec<VertexRef> = Vec::new();
    let mut i: usize = 0;
    while i < args.len()
        invariant
            av == args@.map_values(|a: String| a@),
            i <= args@.len(),
            face_refs(av, shape, i as nat) == Ok::<_, ObjError>(rs@),
            fits(shape, rs@),
            av.len() >= 3,
            ref_shape(av[0]) == Some(shape),
        decreases args@.len() - i,
    {
        let a = args[i].as_str();
        assert(a@ == av[i as int]);
        if shape_of(a) != Some(shape) {
            proof {
                assert(face_refs(av, shape, (i + 1) as nat) == Err::<Seq<VertexRef>, _>(ObjError::WrongTypeOfArguments));
                lemma_refs_err(av, shape, (i + 1) as nat, av.len());
            }
            return Err(ObjError::WrongTypeOfArguments);
        }
        let v = match values_of(a, shape) {
            Err(e) => {
                proof {
                    assert(face_refs(av, shape, (i + 1) as nat) == Err::<Seq<VertexRef>, _>(e));
                    lemma_refs_err(av, shape, (i + 1) as nat, av.len());
                }
                return Err(e);
            },
            Ok(v) => v,
        };
        proof {
            lemma_values_fit(a@, shape);
            assert(fits(shape, rs@.push(v))) by {
                assert forall|j: int| 0 <= j < rs@.len() + 1 implies #[trigger] rs@.push(v)[j] == (
                    if j < rs@.len() { rs@[j] } else { v }) by {}
                assert(seq![v][0] == v);
            }
        }
        rs.push(v);
        i = i + 1;
    }
    Ok(make_polygon(shape, &rs))
}

} // verus!
