use lumina::{banner, ENGINE_NAME, VERSION};

#[test]
fn banner_has_padded_version() {
    let expected = format!(
        "\n╔══════════════════════════════════════╗\n║         LUMINA ENGINE  v{:<8}        ║\n║   Lightweight 2D/3D + Editor + Lang  ║\n╚══════════════════════════════════════╝",
        VERSION
    );
    assert_eq!(banner(), expected);
    assert!(banner().contains("v0.1.0   "));
}

#[test]
fn engine_name() {
    assert_eq!(ENGINE_NAME, "Lumina Engine");
}
