use lumina::obj::{obj_has_index_zero, parse_obj, ObjError};

fn text(v: &Option<Vec<char>>) -> Option<String> {
    v.as_ref().map(|c| c.iter().collect())
}

#[test]
fn square_is_two_triangles() {
    let src = "v 0 0 0\nv 1 0 0\nv 1 1 0\nv 0 1 0\nf 1 2 3 4\n";
    let g = parse_obj(src).ok().unwrap();
    assert_eq!(g.positions.len(), 4);
    assert_eq!(text(&g.positions[1].x), Some("1".to_string()));
    assert_eq!(text(&g.positions[2].y), Some("1".to_string()));
    assert_eq!(g.vertex_positions, vec![Some(0), Some(1), Some(2), Some(3)]);
    assert_eq!(g.indices, vec![0, 1, 2, 0, 2, 3]);
}

#[test]
fn faces_do_not_share_vertices() {
    let src = "v 0 0 0\nv 1 0 0\nv 0 1 0\nf 1 2 3\nf 3 2 1\n";
    let g = parse_obj(src).ok().unwrap();
    assert_eq!(g.vertex_positions, vec![Some(0), Some(1), Some(2), Some(2), Some(1), Some(0)]);
    assert_eq!(g.indices, vec![0, 1, 2, 3, 4, 5]);
}

#[test]
fn slashes_plus_and_bad_tokens() {
    let src = "v 1 2 3\nv 4 5\nf 1/7/9 +2//3 x 2/ /5\n";
    let g = parse_obj(src).ok().unwrap();
    // `x` and `/5` name no index and are skipped.
    assert_eq!(g.vertex_positions, vec![Some(0), Some(1), Some(1)]);
    assert_eq!(g.indices, vec![0, 1, 2]);
    assert_eq!(text(&g.positions[1].z), None);
    assert_eq!(text(&g.positions[1].y), Some("5".to_string()));
}

#[test]
fn index_past_known_positions_sits_at_origin() {
    // The position is read after the face, so the face cannot see it.
    let src = "f 1 1 1\nv 1 1 1\n";
    let g = parse_obj(src).ok().unwrap();
    assert_eq!(g.vertex_positions, vec![None, None, None]);
    assert_eq!(g.positions.len(), 1);
}

#[test]
fn unicode_whitespace_and_crlf() {
    let src = "v\u{3000}1\t2 3\r\nv 0 0 0\r\nv 0 1 0\r\nf\u{a0}1 2 3\r\n";
    let g = parse_obj(src).ok().unwrap();
    assert_eq!(text(&g.positions[0].x), Some("1".to_string()));
    assert_eq!(text(&g.positions[0].z), Some("3".to_string()));
    assert_eq!(g.indices, vec![0, 1, 2]);
}

#[test]
fn no_geometry() {
    assert!(matches!(parse_obj("v 1 2 3\n# comment\n"), Err(ObjError::NoGeometry)));
    assert!(matches!(parse_obj(""), Err(ObjError::NoGeometry)));
    assert!(matches!(parse_obj("vt 0 0\nfoo"), Err(ObjError::NoGeometry)));
}

#[test]
fn two_vertex_face_makes_vertices_but_no_triangle() {
    let g = parse_obj("v 0 0 0\nf 1 1\n").ok().unwrap();
    assert_eq!(g.vertex_positions.len(), 2);
    assert!(g.indices.is_empty());
}

#[test]
fn index_zero_is_detected() {
    assert!(obj_has_index_zero("v 0 0 0\nf 0 1 1\n"));
    assert!(obj_has_index_zero("f 1 2 +0/3\n"));
    assert!(!obj_has_index_zero("v 0 0 0\nf 1 1 1\n# f 0\n"));
    assert!(!obj_has_index_zero("vf 0 0 0\n"));
}

#[test]
fn huge_index_is_skipped() {
    let g = parse_obj("f 1 99999999999999999999999999 1 1\n").ok().unwrap();
    assert_eq!(g.vertex_positions.len(), 3);
}
