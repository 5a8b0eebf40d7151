//! LuminaScript: scripts compiled by a `rhai` engine, and the rule by which
//! a script is replaced when its file changes on disk (hot reload). Reading
//! the files is the host's work; this module decides what happens with the
//! text it reads.

use crate::compiled::{compile, compile_error_text, CompiledScript};
use std::path::PathBuf;
use vstd::prelude::*;

verus! {

/// `rhai::Engine`, carried through opaquely.
#[verifier::external_type_specification]
#[verifier::external_body]
pub struct ExEngine(rhai::Engine);

/// `rhai::AST`, a compiled script, carried through opaquely.
#[verifier::external_type_specification]
#[verifier::external_body]
pub struct ExAst(rhai::AST);

/// Build a Rhai engine pre-configured for LuminaScript: expression depth
/// limits of 64 (global and in functions) and fast operators on.
///
/// Wraps `rhai::Engine::new`, `Engine::set_max_expr_depths` and
/// `Engine::set_fast_operators`; nothing is stated of the engine.
#[verifier::external_body]
pub fn build_engine() -> rhai::Engine {
    let mut engine = rhai::Engine::new();
    engine.set_max_expr_depths(64, 64);
    engine.set_fast_operators(true);
    engine
}

/// Quick syntax check used by the editor: `Ok(())` if the source compiles,
/// otherwise the error message.
pub fn validate(source: &str) -> (r: Result<(), String>)
    ensures
        match r {
            Ok(()) => compile_error_text(source@) is None,
            Err(e) => compile_error_text(source@) == Some(e@),
        },
{
    match compile(source) {
        Ok(_) => Ok(()),
        Err(e) => Err(e),
    }
}

/// What reloading gives for a script compiled from `old_src` when its file
/// now holds `new_src`: `Ok(false)` for unchanged text, `Ok(true)` for new
/// text that compiles, else the compile error.
pub open spec fn reload_outcome(old_src: Seq<char>, new_src: Seq<char>) -> Result<bool, Seq<char>> {
    if new_src == old_src {
        Ok(false)
    } else {
        match compile_error_text(new_src) {
            None => Ok(true),
            Some(e) => Err(e),
        }
    }
}

/// The script's text after such a reload: the new text only when it was
/// installed.
pub open spec fn source_after_reload(old_src: Seq<char>, new_src: Seq<char>) -> Seq<char> {
    if reload_outcome(old_src, new_src) == Ok::<bool, Seq<char>>(true) {
        new_src
    } else {
        old_src
    }
}

/// A loaded LuminaScript module: the source path, the compiled script and
/// the text it was compiled from.
pub struct Script {
    pub path: PathBuf,
    pub ast: CompiledScript,
    pub source: String,
}

/// The script runs what its text says: its compiled script was compiled
/// from its text.
pub open spec fn in_sync(s: Script) -> bool {
    s.ast@ == s.source@
}

impl Script {
    /// The script for `source`, read from `path`, if it compiles; else the
    /// compile error's text.
    pub fn from_source(path: PathBuf, source: String) -> (r: Result<Script, String>)
        ensures
            match r {
                Ok(s) => {
                    &&& compile_error_text(source@) is None
                    &&& s.path == path
                    &&& s.source@ == source@
                    &&& s.ast@ == source@
                },
                Err(e) => compile_error_text(source@) == Some(e@),
            },
    {
        match compile(source.as_str()) {
            Ok(ast) => Ok(Script { path, ast, source }),
            Err(e) => Err(e),
        }
    }

    /// Install the outcome of compiling `new_source`: on success the new
    /// text and compiled script replace the old ones and the result is
    /// `Ok(true)`; on failure the script is left as it was and the error is
    /// returned.
    pub fn apply_compiled(&mut self, new_source: String, compiled: Result<CompiledScript, String>) -> (r:
        Result<bool, String>)
        ensures
            match compiled {
                Ok(ast) => {
                    &&& r == Ok::<bool, String>(true)
                    &&& final(self).source@ == new_source@
                    &&& final(self).ast == ast
                    &&& final(self).path == old(self).path
                },
                Err(e) => {
                    &&& r matches Err(m) && m@ == e@
                    &&& final(self).source@ == old(self).source@
                    &&& final(self).ast == old(self).ast
                    &&& final(self).path == old(self).path
                },
            },
    {
        match compiled {
            Ok(ast) => {
                self.source = new_source;
                self.ast = ast;
                Ok(true)
            },
            Err(e) => Err(e),
        }
    }

    /// Reload from freshly read text. Unchanged text gives `Ok(false)` and
    /// leaves the script alone; changed text is compiled and installed as
    /// by `apply_compiled`.
    pub fn reload_from(&mut self, new_source: String) -> (r: Result<bool, String>)
        ensures
            match r {
                Ok(b) => reload_outcome(old(self).source@, new_source@) == Ok::<bool, Seq<char>>(b),
                Err(m) => reload_outcome(old(self).source@, new_source@) == Err::<bool, Seq<char>>(m@),
            },
            final(self).source@ == source_after_reload(old(self).source@, new_source@),
            final(self).path == old(self).path,
            final(self).source@ == old(self).source@ ==> final(self).ast == old(self).ast,
            final(self).source@ != old(self).source@ ==> final(self).ast@ == final(self).source@,
            in_sync(*old(self)) ==> in_sync(*final(self)),
    {
        if new_source == self.source {
            return Ok(false);
        }
        let compiled = compile(new_source.as_str());
        self.apply_compiled(new_source, compiled)
    }
}

/// Watched scripts are checked for changes at most this often.
pub const POLL_DEBOUNCE_MS: u64 = 200;

/// Is a poll of the watched scripts due, `elapsed_nanos` after the last
/// one, when polls are `debounce_nanos` apart? Polls closer together than
/// that do nothing.
pub fn poll_due(elapsed_nanos: u128, debounce_nanos: u128) -> (r: bool)
    ensures
        r == (elapsed_nanos >= debounce_nanos),
{
    elapsed_nanos >= debounce_nanos
}

/// The text read for a script, if its file could be read.
pub open spec fn fresh_text(f: Option<String>) -> Option<Seq<char>> {
    match f {
        Some(t) => Some(t@),
        None => None,
    }
}

/// The texts of a list of scripts.
pub open spec fn sources_of(scripts: Seq<Script>) -> Seq<Seq<char>> {
    scripts.map_values(|s: Script| s.source@)
}

/// A script's text after a poll that read `fresh` for it: unreadable files
/// change nothing, readable ones reload as `reload_from` does.
pub open spec fn source_after_poll(old_src: Seq<char>, fresh: Option<Seq<char>>) -> Seq<char> {
    match fresh {
        Some(t) => source_after_reload(old_src, t),
        None => old_src,
    }
}

/// `now` is what a poll that read `fresh` for the script `before` leaves:
/// the same path, the text that `source_after_poll` gives, the same
/// compiled script when the text did not change, and one compiled from the
/// new text when it did.
pub open spec fn polled(now: Script, before: Script, fresh: Option<String>) -> bool {
    &&& now.path == before.path
    &&& now.source@ == source_after_poll(before.source@, fresh_text(fresh))
    &&& (now.source@ == before.source@ ==> now.ast == before.ast)
    &&& (now.source@ != before.source@ ==> now.ast@ == now.source@)
    &&& (in_sync(before) ==> in_sync(now))
}

/// Did a poll that read `fresh` for a script install new text?
pub open spec fn was_reloaded(old_src: Seq<char>, fresh: Option<Seq<char>>) -> bool {
    match fresh {
        Some(t) => reload_outcome(old_src, t) == Ok::<bool, Seq<char>>(true),
        None => false,
    }
}

/// The compile error a poll that read `fresh` for a script ran into, if any.
pub open spec fn reload_error(old_src: Seq<char>, fresh: Option<Seq<char>>) -> Option<Seq<char>> {
    match fresh {
        Some(t) => match reload_outcome(old_src, t) {
            Err(e) => Some(e),
            Ok(_) => None,
        },
        None => None,
    }
}

/// The indices, in increasing order, among the first `n` scripts, of those
/// that a poll reloaded.
pub open spec fn reloaded_among(olds: Seq<Seq<char>>, fresh: Seq<Option<Seq<char>>>, n: nat) -> Seq<
    usize,
>
    decreases n,
{
    if n == 0 {
        Seq::empty()
    } else {
        let r = reloaded_among(olds, fresh, (n - 1) as nat);
        if was_reloaded(olds[n - 1], fresh[n - 1]) {
            r.push((n - 1) as usize)
        } else {
            r
        }
    }
}

/// The scripts among the first `n` whose new text did not compile, in
/// increasing order, each with its compile error.
pub open spec fn failed_among(olds: Seq<Seq<char>>, fresh: Seq<Option<Seq<char>>>, n: nat) -> Seq<
    (usize, Seq<char>),
>
    decreases n,
{
    if n == 0 {
        Seq::empty()
    } else {
        let r = failed_among(olds, fresh, (n - 1) as nat);
        match reload_error(olds[n - 1], fresh[n - 1]) {
            Some(e) => r.push(((n - 1) as usize, e)),
            None => r,
        }
    }
}

/// What one poll over the watched scripts did.
pub struct ReloadReport {
    /// The scripts that now run new text, in increasing order.
    pub reloaded: Vec<usize>,
    /// The scripts whose new text did not compile, with the error; they
    /// keep running their old text.
    pub failed: Vec<(usize, String)>,
}

/// The failures of a report as indices and texts.
pub open spec fn failures_view(f: Seq<(usize, String)>) -> Seq<(usize, Seq<char>)> {
    f.map_values(|p: (usize, String)| (p.0, p.1@))
}

/// Reload every watched script from the text freshly read for it (`None`
/// where its file could not be read), as `Script::reload_from` does, and
/// report which scripts took new text and which failed to compile.
pub fn reload_all(scripts: &mut Vec<Script>, fresh: Vec<Option<String>>) -> (r: ReloadReport)
    requires
        fresh@.len() == old(scripts)@.len(),
    ensures
        final(scripts)@.len() == old(scripts)@.len(),
        forall|i: int|
            0 <= i < old(scripts)@.len() ==> polled(
                #[trigger] final(scripts)@[i],
                old(scripts)@[i],
                fresh@[i],
            ),
        r.reloaded@ == reloaded_among(
            sources_of(old(scripts)@),
            fresh@.map_values(|f: Option<String>| fresh_text(f)),
            old(scripts)@.len(),
        ),
        failures_view(r.failed@) == failed_among(
            sources_of(old(scripts)@),
            fresh@.map_values(|f: Option<String>| fresh_text(f)),
            old(scripts)@.len(),
        ),
{
    let ghost olds = sources_of(scripts@);
    let ghost fv = fresh@.map_values(|f: Option<String>| fresh_text(f));
    let ghost orig = scripts@;
    let n = scripts.len();
    let mut reloaded: Vec<usize> = Vec::new();
    let mut failed: Vec<(usize, String)> = Vec::new();
    let mut i: usize = 0;
    while i < n
        invariant
            n == orig.len(),
            n == fresh@.len(),
            i <= n,
            olds == sources_of(orig),
            fv == fresh@.map_values(|f: Option<String>| fresh_text(f)),
            scripts@.len() == n,
            forall|j: int|
                i <= j < n ==> #[trigger] scripts@[j] == orig[j],
            forall|j: int| 0 <= j < i ==> polled(#[trigger] scripts@[j], orig[j], fresh@[j]),
            reloaded@ == reloaded_among(olds, fv, i as nat),
            failures_view(failed@) == failed_among(olds, fv, i as nat),
        decreases n - i,
    {
        proof {
            assert(olds[i as int] == orig[i as int].source@);
            assert(fv[i as int] == fresh_text(fresh@[i as int]));
        }
        let ghost before = scripts@;
        match &fresh[i] {
            Some(text) => {
                let t = text.clone();
                assert(fresh_text(fresh@[i as int]) == Some(t@));
                let out = scripts[i].reload_from(t);
                match out {
                    Ok(true) => {
                        reloaded.push(i);
                    },
                    Ok(false) => {},
                    Err(e) => {
                        let ghost f0 = failed@;
                        failed.push((i, e));
                        assert(failures_view(failed@) =~= failures_view(f0).push((i, e@)));
                    },
                }
            },
            None => {},
        }
        proof {
            assert(polled(scripts@[i as int], orig[i as int], fresh@[i as int]));
            assert forall|j: int| 0 <= j < n && j != i implies #[trigger] scripts@[j] == before[j] by {}
        }
        i += 1;
    }
    ReloadReport { reloaded, failed }
}

/// The texts the scripts hold after a poll that read `fresh`.
pub open spec fn sources_after_poll(olds: Seq<Seq<char>>, fresh: Seq<Option<Seq<char>>>) -> Seq<
    Seq<char>,
> {
    Seq::new(olds.len(), |i: int| source_after_poll(olds[i], fresh[i]))
}

/// Polling again when the files still hold the texts read last time reloads
/// nothing, and the scripts that failed to compile fail again with the same
/// errors: a script is only reloaded when its text changes.
pub proof fn law_repoll_same_texts(olds: Seq<Seq<char>>, fresh: Seq<Option<Seq<char>>>, n: nat)
    requires
        n <= olds.len(),
        olds.len() == fresh.len(),
    ensures
        reloaded_among(sources_after_poll(olds, fresh), fresh, n) == Seq::<usize>::empty(),
        failed_among(sources_after_poll(olds, fresh), fresh, n) == failed_among(olds, fresh, n),
    decreases n,
{
    if n > 0 {
        law_repoll_same_texts(olds, fresh, (n - 1) as nat);
        let k = n - 1;
        assert(sources_after_poll(olds, fresh)[k] == source_after_poll(olds[k], fresh[k]));
    }
}

/// Reloading is idempotent: once a reload has gone through (or found
/// nothing new), reloading the same text again finds nothing new and keeps
/// the script as it is.
pub proof fn law_reload_idempotent(old_src: Seq<char>, new_src: Seq<char>)
    requires
        reload_outcome(old_src, new_src) is Ok,
    ensures
        reload_outcome(source_after_reload(old_src, new_src), new_src) == Ok::<bool, Seq<char>>(false),
        source_after_reload(source_after_reload(old_src, new_src), new_src) == source_after_reload(
            old_src,
            new_src,
        ),
{
}

/// A reload that fails keeps the script that was running, so it keeps
/// failing with the same error until the text changes.
pub proof fn law_failed_reload_keeps_script(old_src: Seq<char>, new_src: Seq<char>)
    requires
        reload_outcome(old_src, new_src) is Err,
    ensures
        source_after_reload(old_src, new_src) == old_src,
        reload_outcome(source_after_reload(old_src, new_src), new_src) == reload_outcome(
            old_src,
            new_src,
        ),
{
}

} // verus!
