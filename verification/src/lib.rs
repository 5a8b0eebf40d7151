//! Lumina: the verified core of a small 2D/3D game engine.
//!
//! The crate holds the engine logic that does not depend on a GPU, a window,
//! an audio device or floating-point arithmetic: colors and their hex form,
//! keyboard and mouse edge state and the default key codes, the entity world
//! with its deferred despawn queue, editor state transitions, the renderer's
//! surface recovery decisions, the particle random generator, mesh index
//! layouts and the OBJ text layout, and the script reload rules.

use vstd::prelude::*;

pub mod audio;
pub mod color;
pub mod compiled;

pub use audio::NullAudioEngine;
pub use color::Color;
pub mod input;
pub use input::Input;
pub mod keys;
pub mod ecs;
pub use ecs::World;
pub mod mesh;
pub mod obj;
pub mod rng;
pub use rng::TinyRng;
pub mod script;
pub use script::{validate, Script};
pub mod transform;
pub use transform::Transform;
pub mod editor;
pub mod frame;
pub use editor::{EditorMode, EditorState};

verus! {

/// Lumina engine version.
pub const VERSION: &'static str = "0.1.0";

/// Branding string used in window titles and the splash screen.
pub const ENGINE_NAME: &'static str = "Lumina Engine";

/// `s` padded on the right with spaces to at least `width` characters.
pub open spec fn pad_right(s: Seq<char>, width: nat) -> Seq<char> {
    if s.len() >= width {
        s
    } else {
        s + Seq::new((width - s.len()) as nat, |i: int| ' ')
    }
}

/// The startup banner: a box with the engine name and the version, the
/// version left-aligned in an 8-character field.
pub open spec fn banner_text() -> Seq<char> {
    "\n╔══════════════════════════════════════╗\n║         LUMINA ENGINE  v"@ + pad_right(VERSION@, 8) + "        ║\n║   Lightweight 2D/3D + Editor + Lang  ║\n╚══════════════════════════════════════╝"@
}

/// Friendly banner printed at startup.
pub fn banner() -> (s: String)
    ensures
        s@ == banner_text(),
{
    let mut s = String::from_str("\n╔══════════════════════════════════════╗\n║         LUMINA ENGINE  v");
    s.append(VERSION);
    let n = VERSION.unicode_len();
    let ghost base = s@;
    let mut i: usize = n;
    while i < 8
        invariant
            n == VERSION@.len(),
            n <= i <= 8 || (n > 8 && i == n),
            s@ == base + Seq::new((i - n) as nat, |j: int| ' '),
        decreases 8 - i,
    {
        s.append(" ");
        proof {
            reveal_strlit(" ");
        }
        assert(base + Seq::new((i + 1 - n) as nat, |j: int| ' ') =~= base + Seq::new(
            (i - n) as nat,
            |j: int| ' ',
        ) + " "@);
        i += 1;
    }
    assert(base =~= "\n╔══════════════════════════════════════╗\n║         LUMINA ENGINE  v"@ + VERSION@);
    assert(s@ =~= "\n╔══════════════════════════════════════╗\n║         LUMINA ENGINE  v"@ + pad_right(VERSION@, 8));
    s.append("        ║\n║   Lightweight 2D/3D + Editor + Lang  ║\n╚══════════════════════════════════════╝");
    s
}

} // verus!
