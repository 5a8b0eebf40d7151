//! Compiled LuminaScript. A `CompiledScript` can only be made by `compile`,
//! here, so the text it carries as its view is the text it was compiled
//! from.

use vstd::prelude::*;

verus! {

/// What compiling `source` with a LuminaScript engine gives: `None` when it
/// compiles, else the text of the parse error.
pub uninterp spec fn compile_error_text(source: Seq<char>) -> Option<Seq<char>>;

/// `rhai::Engine::compile` on an engine from `build_engine`, with the
/// error turned into its display text. Every such engine is configured the
/// same way, so the outcome depends on the source alone; it is named, not
/// stated. The AST it returns is rhai's compilation of `source`.
#[verifier::external_body]
fn rhai_compile(source: &str) -> (r: Result<rhai::AST, String>)
    ensures
        match r {
            Ok(_) => compile_error_text(source@) is None,
            Err(e) => compile_error_text(source@) == Some(e@),
        },
{
    crate::script::build_engine().compile(source).map_err(|e| e.to_string())
}

/// A compiled script together with the text it was compiled from. Its
/// fields are private: `compile` is the only way to make one.
pub struct CompiledScript {
    ast: rhai::AST,
    text: Ghost<Seq<char>>,
}

impl View for CompiledScript {
    type V = Seq<char>;

    /// The text the script was compiled from.
    closed spec fn view(&self) -> Seq<char> {
        self.text@
    }
}

impl CompiledScript {
    /// The compiled script, for a rhai engine to run.
    pub fn as_rhai(&self) -> &rhai::AST {
        &self.ast
    }
}

/// Compile `source` with a LuminaScript engine: the compiled script, whose
/// view is `source`, or the text of the parse error.
pub(crate) fn compile(source: &str) -> (r: Result<CompiledScript, String>)
    ensures
        match r {
            Ok(c) => compile_error_text(source@) is None && c@ == source@,
            Err(e) => compile_error_text(source@) == Some(e@),
        },
{
    match rhai_compile(source) {
        Ok(ast) => Ok(CompiledScript { ast, text: Ghost(source@) }),
        Err(e) => Err(e),
    }
}

} // verus!
