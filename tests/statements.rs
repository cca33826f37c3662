use obj::element::Polygon;
use obj::error::ObjError;
use obj::group::{Range, UNDEFINED};
use obj::parser::{ObjParser, Outcome, RawObj};
use obj::statement::{vertex_layout, Component, VertexKind};
use obj::text::parse_decimal;

fn component(c: Component, args: &[String]) -> f32 {
    match c {
        Component::Arg(i) => args[i].parse::<f32>().unwrap(),
        Component::Zero => 0.0,
        Component::One => 1.0,
    }
}

fn parse(lines: &[&str]) -> Result<RawObj<[f32; 4]>, ObjError> {
    let mut parser: ObjParser<[f32; 4]> = ObjParser::new();
    for line in lines {
        let mut words = line.split_whitespace();
        let keyword = words.next().unwrap();
        let args: Vec<String> = words.map(|w| w.to_string()).collect();
        if let Outcome::Vertex(kind, l) = parser.statement(keyword, &args)? {
            let record = [
                component(l.0, &args),
                component(l.1, &args),
                component(l.2, &args),
                component(l.3, &args),
            ];
            parser.push_attribute(kind, record);
        }
    }
    Ok(parser.finish())
}

fn range(start: usize, end: usize) -> Range {
    Range { start, end }
}

const TRIANGLE: [&str; 4] = ["v 0 0 0", "v 1 0 0", "v 1 1 0", "f 1 2 3"];

#[test]
fn position_with_three_arguments_gets_w_one() {
    let obj = parse(&["v 1.5 2 3"]).unwrap();
    assert_eq!(obj.positions, vec![[1.5, 2.0, 3.0, 1.0]]);
}

#[test]
fn position_with_four_arguments_keeps_w() {
    let obj = parse(&["v 1 2 3 0.25"]).unwrap();
    assert_eq!(obj.positions, vec![[1.0, 2.0, 3.0, 0.25]]);
}

#[test]
fn vertex_layouts() {
    assert_eq!(
        vertex_layout(VertexKind::Position, 3),
        Ok((Component::Arg(0), Component::Arg(1), Component::Arg(2), Component::One))
    );
    assert_eq!(
        vertex_layout(VertexKind::Param, 1),
        Ok((Component::Arg(0), Component::Zero, Component::One, Component::Zero))
    );
    assert_eq!(
        vertex_layout(VertexKind::TexCoord, 2),
        Ok((Component::Arg(0), Component::Arg(1), Component::Zero, Component::Zero))
    );
    assert_eq!(vertex_layout(VertexKind::Normal, 2), Err(ObjError::WrongNumberOfArguments));
    assert_eq!(vertex_layout(VertexKind::Position, 5), Err(ObjError::WrongNumberOfArguments));
    assert_eq!(vertex_layout(VertexKind::TexCoord, 0), Err(ObjError::WrongNumberOfArguments));
}

#[test]
fn attribute_lists() {
    let obj = parse(&["vt 0.5", "vn 0 0 1", "vp 0.1 0.2"]).unwrap();
    assert_eq!(obj.tex_coords, vec![[0.5, 0.0, 0.0, 0.0]]);
    assert_eq!(obj.normals, vec![[0.0, 0.0, 1.0, 0.0]]);
    assert_eq!(obj.param_vertices, vec![[0.1, 0.2, 1.0, 0.0]]);
    assert!(obj.positions.is_empty());
}

#[test]
fn triangle_is_position_only_polygon() {
    let obj = parse(&TRIANGLE).unwrap();
    assert_eq!(obj.positions.len(), 3);
    assert_eq!(obj.polygons, vec![Polygon::P(vec![0, 1, 2])]);
}

#[test]
fn face_reference_shapes() {
    let obj = parse(&["f 1/4 2/5 3/6 7/8", "f 1//2 3//4 5//6", "f 1/2/3 4/5/6 7/8/9"]).unwrap();
    assert_eq!(
        obj.polygons,
        vec![
            Polygon::PT(vec![(0, 3), (1, 4), (2, 5), (6, 7)]),
            Polygon::PN(vec![(0, 1), (2, 3), (4, 5)]),
            Polygon::PTN(vec![(0, 1, 2), (3, 4, 5), (6, 7, 8)]),
        ]
    );
}

#[test]
fn face_keeps_one_reference_per_argument() {
    let obj = parse(&["f 1 2 3 4 5"]).unwrap();
    assert_eq!(obj.polygons, vec![Polygon::P(vec![0, 1, 2, 3, 4])]);
}

#[test]
fn face_with_mixed_shapes_is_rejected() {
    assert_eq!(parse(&["f 1 2/2 3"]).err(), Some(ObjError::WrongTypeOfArguments));
    assert_eq!(parse(&["f 1//2 2/3/4 3//1"]).err(), Some(ObjError::WrongTypeOfArguments));
}

#[test]
fn face_errors() {
    assert_eq!(parse(&["f 1 2"]).err(), Some(ObjError::WrongNumberOfArguments));
    assert_eq!(parse(&["f 1/2/3/4 2 3"]).err(), Some(ObjError::WrongTypeOfArguments));
    assert_eq!(parse(&["f a 2 3"]).err(), Some(ObjError::ParseError));
    assert_eq!(parse(&["f 0 1 2"]).err(), Some(ObjError::WrongTypeOfArguments));
    assert_eq!(parse(&["f 1/ 2/ 3/"]).err(), Some(ObjError::ParseError));
}

#[test]
fn repeated_group_statement_makes_one_range() {
    let obj = parse(&["g foo", "g foo", "v 0 0 0", "f 1 1 1", "g foo", "f 1 1 1"]).unwrap();
    let foo = obj.groups.get(&"foo".to_string()).unwrap();
    assert_eq!(foo.polygons, vec![range(0, 2)]);
    assert!(foo.points.is_empty());
    assert!(foo.lines.is_empty());
}

#[test]
fn empty_group_leaves_the_table() {
    let obj = parse(&["g foo", "g bar", "f 1 2 3"]).unwrap();
    assert!(obj.groups.get(&"foo".to_string()).is_none());
    assert!(obj.groups.get(&"default".to_string()).is_none());
    assert_eq!(obj.groups.get(&"bar".to_string()).unwrap().polygons, vec![range(0, 1)]);
    assert_eq!(obj.groups.len(), 1);
}

#[test]
fn unfilled_reopening_drops_only_the_new_range() {
    let obj = parse(&["g foo", "f 1 2 3", "g bar", "g foo", "g bar", "f 1 2 3"]).unwrap();
    let foo = obj.groups.get(&"foo".to_string()).unwrap();
    assert_eq!(foo.polygons, vec![range(0, 1)]);
    assert_eq!(obj.groups.get(&"bar".to_string()).unwrap().polygons, vec![range(1, 2)]);
}

#[test]
fn reopened_group_has_two_adjacent_ranges() {
    let obj = parse(&["g foo", "f 1 2 3", "g bar", "g foo", "f 1 2 3"]).unwrap();
    let foo = obj.groups.get(&"foo".to_string()).unwrap();
    assert_eq!(foo.polygons, vec![range(0, 1), range(1, 2)]);
    assert!(obj.groups.get(&"bar".to_string()).is_none());
}

#[test]
fn reopened_group_around_other_elements() {
    let obj = parse(&["g foo", "f 1 2 3", "g bar", "f 1 2 3", "g foo", "f 1 2 3"]).unwrap();
    let foo = obj.groups.get(&"foo".to_string()).unwrap();
    assert_eq!(foo.polygons, vec![range(0, 1), range(2, 3)]);
    assert_eq!(obj.groups.get(&"bar".to_string()).unwrap().polygons, vec![range(1, 2)]);
}

#[test]
fn smoothing_group_covers_two_polygons() {
    let obj = parse(&["s 1", "f 1 2 3", "f 1 2 3", "s off"]).unwrap();
    let one = obj.smoothing_groups.get(&1).unwrap();
    assert_eq!(one.polygons, vec![range(0, 2)]);
    assert!(one.points.is_empty());
    assert!(one.lines.is_empty());
    assert_eq!(obj.smoothing_groups.len(), 1);
}

#[test]
fn smoothing_zero_closes_and_numbers_are_read() {
    let obj = parse(&["s 2", "f 1 2 3", "s 0", "f 1 2 3", "s +7", "f 1 2 3"]).unwrap();
    assert_eq!(obj.smoothing_groups.get(&2).unwrap().polygons, vec![range(0, 1)]);
    assert_eq!(obj.smoothing_groups.get(&7).unwrap().polygons, vec![range(2, 3)]);
    assert_eq!(obj.smoothing_groups.len(), 2);
}

#[test]
fn merging_groups_and_errors() {
    let obj = parse(&["mg 3", "f 1 2 3", "mg off"]).unwrap();
    assert_eq!(obj.merging_groups.get(&3).unwrap().polygons, vec![range(0, 1)]);
    assert_eq!(parse(&["mg x"]).err(), Some(ObjError::ParseError));
    assert_eq!(parse(&["s 1 2"]).err(), Some(ObjError::WrongNumberOfArguments));
    assert_eq!(parse(&["s"]).err(), Some(ObjError::WrongNumberOfArguments));
}

#[test]
fn end_of_stream_closes_every_scope() {
    let obj = parse(&["g foo", "usemtl red", "s 4", "mg 5", "f 1 2 3", "f 1 2 3"]).unwrap();
    assert_eq!(obj.groups.get(&"foo".to_string()).unwrap().polygons, vec![range(0, 2)]);
    assert_eq!(obj.meshes.get(&"red".to_string()).unwrap().polygons, vec![range(0, 2)]);
    assert_eq!(obj.smoothing_groups.get(&4).unwrap().polygons, vec![range(0, 2)]);
    assert_eq!(obj.merging_groups.get(&5).unwrap().polygons, vec![range(0, 2)]);
    for table in [&obj.groups, &obj.meshes] {
        assert_eq!(table.len(), 1);
    }
    let foo = obj.groups.get(&"foo".to_string()).unwrap();
    assert!(foo.polygons.iter().all(|r| r.end != UNDEFINED));
}

#[test]
fn default_group_and_mesh_hold_ungrouped_elements() {
    let obj = parse(&TRIANGLE).unwrap();
    assert_eq!(obj.groups.get(&"default".to_string()).unwrap().polygons, vec![range(0, 1)]);
    assert_eq!(obj.meshes.get(&String::new()).unwrap().polygons, vec![range(0, 1)]);
    assert_eq!(obj.smoothing_groups.len(), 0);
    assert_eq!(obj.merging_groups.len(), 0);
}

#[test]
fn empty_stream_has_empty_tables() {
    let obj = parse(&[]).unwrap();
    assert_eq!(obj.groups.len(), 0);
    assert_eq!(obj.meshes.len(), 0);
    assert!(obj.polygons.is_empty());
    assert_eq!(obj.name, None);
}

#[test]
fn object_name_and_material_libraries() {
    let obj = parse(&["o my  cube", "mtllib a.mtl b.mtl", "mtllib a.mtl"]).unwrap();
    assert_eq!(obj.name, Some("my cube".to_string()));
    assert_eq!(obj.material_libraries, vec!["a.mtl", "b.mtl", "a.mtl"]);
    let cleared = parse(&["o cube", "o"]).unwrap();
    assert_eq!(cleared.name, None);
}

#[test]
fn statement_errors() {
    assert_eq!(parse(&["xyz 1"]).err(), Some(ObjError::UnexpectedStatement));
    assert_eq!(parse(&["curv 1 2"]).err(), Some(ObjError::UnsupportedStatement));
    assert_eq!(parse(&["l 1 2"]).err(), Some(ObjError::UnsupportedStatement));
    assert_eq!(parse(&["g"]).err(), Some(ObjError::WrongNumberOfArguments));
    assert_eq!(parse(&["g a b"]).err(), Some(ObjError::WrongNumberOfArguments));
    assert_eq!(parse(&["usemtl"]).err(), Some(ObjError::WrongNumberOfArguments));
    assert_eq!(parse(&["vn 1 2"]).err(), Some(ObjError::WrongNumberOfArguments));
    assert_eq!(parse(&["v 1 2 3", "bogus"]).err(), Some(ObjError::UnexpectedStatement));
    assert_eq!(ObjError::ParseError.message(), "cannot parse a number");
}

#[test]
fn decimal_numbers() {
    assert_eq!(parse_decimal("42"), Some(42));
    assert_eq!(parse_decimal("+7"), Some(7));
    assert_eq!(parse_decimal("007"), Some(7));
    assert_eq!(parse_decimal(""), None);
    assert_eq!(parse_decimal("+"), None);
    assert_eq!(parse_decimal("-1"), None);
    assert_eq!(parse_decimal("1a"), None);
    assert_eq!(parse_decimal("18446744073709551615"), Some(usize::MAX));
    assert_eq!(parse_decimal("18446744073709551616"), None);
}

#[test]
fn table_keys_list_each_group_once() {
    let obj = parse(&["g a", "f 1 2 3", "g b", "f 1 2 3", "g a", "f 1 2 3"]).unwrap();
    let mut keys = obj.groups.keys().clone();
    keys.sort();
    assert_eq!(keys, vec!["a".to_string(), "b".to_string()]);
    assert_eq!(obj.groups.get(&"a".to_string()).unwrap().polygons, vec![range(0, 1), range(2, 3)]);
}
