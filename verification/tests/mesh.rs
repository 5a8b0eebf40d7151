use lumina::mesh::{cube_indices, plane_indices};

#[test]
fn cube_indices_layout() {
    let mut expected = Vec::new();
    for i in 0..6u32 {
        let base = i * 4;
        expected.extend_from_slice(&[base, base + 1, base + 2, base, base + 2, base + 3]);
    }
    assert_eq!(cube_indices(), expected);
    assert!(cube_indices().iter().all(|&i| i < 24));
}

#[test]
fn plane_indices_layout() {
    assert_eq!(plane_indices(), vec![0, 1, 2, 0, 2, 3]);
}
