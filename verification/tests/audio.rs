use lumina::NullAudioEngine;

#[test]
fn null_backend_is_unavailable() {
    assert!(!NullAudioEngine::default().is_available());
}
