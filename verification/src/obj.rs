//! The Wavefront OBJ text layout used by the mesh loader: which lines give
//! positions, which give faces, and the vertices and triangle indices that
//! the faces produce. Coordinates stay as the text of their tokens; turning
//! them into numbers, and computing normals, is floating-point work left to
//! the host.

use vstd::prelude::*;
use vstd::std_specs::iter::IteratorSpec;

verus! {

broadcast use vstd::string::group_string_axioms;

/// `char::is_whitespace`: the Unicode `White_Space` property.
pub open spec fn is_ws(c: char) -> bool {
    let u = c as u32;
    ||| 9 <= u && u <= 13
    ||| u == 32
    ||| u == 0x85
    ||| u == 0xA0
    ||| u == 0x1680
    ||| 0x2000 <= u && u <= 0x200A
    ||| u == 0x2028
    ||| u == 0x2029
    ||| u == 0x202F
    ||| u == 0x205F
    ||| u == 0x3000
}

/// The lines of a text: the pieces between `'\n'` characters (a `'\r'`
/// before a `'\n'` stays in its line; it is whitespace).
pub open spec fn lines_of(t: Seq<char>) -> Seq<Seq<char>>
    decreases t.len(),
{
    if t.len() == 0 {
        seq![Seq::<char>::empty()]
    } else {
        let ls = lines_of(t.drop_last());
        if t.last() == '\n' {
            ls.push(Seq::<char>::empty())
        } else {
            ls.update(ls.len() - 1, ls.last().push(t.last()))
        }
    }
}

/// The whitespace-separated tokens of a line: its maximal runs of
/// non-whitespace characters, in order.
pub open spec fn tokens_of(s: Seq<char>) -> Seq<Seq<char>>
    decreases s.len(),
{
    if s.len() == 0 {
        Seq::empty()
    } else {
        let ts = tokens_of(s.drop_last());
        let c = s.last();
        if is_ws(c) {
            ts
        } else if s.len() >= 2 && !is_ws(s[s.len() - 2]) {
            ts.update(ts.len() - 1, ts.last().push(c))
        } else {
            ts.push(seq![c])
        }
    }
}

/// The tokens of each line of a text.
pub open spec fn line_tokens_of(t: Seq<char>) -> Seq<Seq<Seq<char>>> {
    lines_of(t).map_values(|l: Seq<char>| tokens_of(l))
}

proof fn lemma_lines_nonempty(t: Seq<char>)
    ensures
        lines_of(t).len() >= 1,
    decreases t.len(),
{
    if t.len() > 0 {
        lemma_lines_nonempty(t.drop_last());
    }
}

fn is_whitespace(c: char) -> (r: bool)
    ensures
        r == is_ws(c),
{
    let u = c as u32;
    (9 <= u && u <= 13) || u == 32 || u == 0x85 || u == 0xA0 || u == 0x1680 || (0x2000 <= u && u
        <= 0x200A) || u == 0x2028 || u == 0x2029 || u == 0x202F || u == 0x205F || u == 0x3000
}

/// The characters of a string.
fn chars_of(text: &str) -> (v: Vec<char>)
    ensures
        v@ == text@,
{
    let mut v: Vec<char> = Vec::new();
    for c in it: text.chars()
        invariant
            it.seq() == text@,
            v@ == it.seq().take(it.index() as int),
    {
        v.push(c);
        assert(it.seq().take(it.index() + 1) =~= v@);
    }
    assert(v@ =~= text@);
    v
}

/// Split a text into lines and each line into tokens.
pub fn split_line_tokens(text: &str) -> (r: Vec<Vec<Vec<char>>>)
    ensures
        r.deep_view() == line_tokens_of(text@),
{
    let chars = chars_of(text);
    let n = chars.len();
    let mut done: Vec<Vec<Vec<char>>> = Vec::new();
    let mut toks: Vec<Vec<char>> = Vec::new();
    let mut cur: Vec<char> = Vec::new();
    let mut in_tok = false;
    let mut i: usize = 0;
    proof {
        assert(text@.take(0) =~= Seq::<char>::empty());
    }
    while i < n
        invariant
            n == chars@.len(),
            chars@ == text@,
            i <= n,
            lines_of(text@.take(i as int)).len() >= 1,
            done.deep_view() == lines_of(text@.take(i as int)).drop_last().map_values(
                |l: Seq<char>| tokens_of(l),
            ),
            (if in_tok {
                toks.deep_view().push(cur@)
            } else {
                toks.deep_view()
            }) == tokens_of(lines_of(text@.take(i as int)).last()),
            in_tok == (lines_of(text@.take(i as int)).last().len() > 0 && !is_ws(
                lines_of(text@.take(i as int)).last().last(),
            )),
        decreases n - i,
    {
        let c = chars[i];
        let ghost p = text@.take(i as int);
        let ghost ls = lines_of(p);
        let ghost p1 = text@.take(i + 1);
        let ghost d0 = done.deep_view();
        let ghost t0 = toks.deep_view();
        let ghost c0 = cur@;
        proof {
            assert(p1.drop_last() =~= p);
            assert(p1.last() == c);
            lemma_lines_nonempty(p1);
        }
        if c == '\n' {
            if in_tok {
                toks.push(cur);
                cur = Vec::new();
                in_tok = false;
                assert(toks.deep_view() =~~= t0.push(c0));
            }
            let ghost line_toks = toks.deep_view();
            assert(line_toks == tokens_of(ls.last()));
            done.push(toks);
            toks = Vec::new();
            proof {
                assert(done.deep_view() =~= d0.push(line_toks));
                assert(lines_of(p1) == ls.push(Seq::<char>::empty()));
                assert(lines_of(p1).drop_last() =~= ls);
                assert(ls.map_values(|l: Seq<char>| tokens_of(l)) =~= ls.drop_last().map_values(
                    |l: Seq<char>| tokens_of(l),
                ).push(tokens_of(ls.last())));
                assert(toks.deep_view() =~= Seq::<Seq<char>>::empty());
                assert(lines_of(p1).last() =~= Seq::<char>::empty());
            }
        } else {
            let ghost line = ls.last();
            let ghost lc = line.push(c);
            proof {
                assert(lines_of(p1) == ls.update(ls.len() - 1, lc));
                assert(lines_of(p1).drop_last() =~= ls.drop_last());
                assert(lines_of(p1).last() == lc);
                assert(lc.drop_last() =~= line);
                assert(lc.last() == c);
                if line.len() > 0 {
                    assert(lc[lc.len() - 2] == line.last());
                }
            }
            if is_whitespace(c) {
                if in_tok {
                    toks.push(cur);
                    cur = Vec::new();
                    in_tok = false;
                    assert(toks.deep_view() =~~= t0.push(c0));
                }
                assert(tokens_of(lc) == tokens_of(line));
            } else if in_tok {
                cur.push(c);
                proof {
                    let tl = t0.push(c0);
                    assert(tokens_of(lc) == tl.update(tl.len() - 1, tl.last().push(c)));
                    assert(tl.update(tl.len() - 1, tl.last().push(c)) =~= t0.push(c0.push(c)));
                    assert(toks.deep_view() == t0);
                }
            } else {
                cur = Vec::new();
                cur.push(c);
                in_tok = true;
                proof {
                    assert(tokens_of(lc) == t0.push(seq![c]));
                    assert(cur@ =~= seq![c]);
                }
            }
            proof {
                assert(done.deep_view() == d0);
            }
        }
        i += 1;
    }
    if in_tok {
        let ghost t0 = toks.deep_view();
        let ghost c0 = cur@;
        toks.push(cur);
        assert(toks.deep_view() =~~= t0.push(c0));
    }
    let ghost last_toks = toks.deep_view();
    let ghost d0 = done.deep_view();
    done.push(toks);
    proof {
        assert(text@.take(n as int) =~= text@);
        let ls = lines_of(text@);
        assert(done.deep_view() =~= d0.push(last_toks));
        assert(ls.map_values(|l: Seq<char>| tokens_of(l)) =~= ls.drop_last().map_values(
            |l: Seq<char>| tokens_of(l),
        ).push(tokens_of(ls.last())));
    }
    done
}


/// The part of a face token before its first `'/'` (the position index;
/// texture and normal indices follow the slashes).
pub open spec fn before_slash(t: Seq<char>) -> Seq<char>
    decreases t.len(),
{
    if t.len() == 0 || t[0] == '/' {
        Seq::empty()
    } else {
        seq![t[0]] + before_slash(t.skip(1))
    }
}

pub open spec fn is_digit(c: char) -> bool {
    '0' <= c && c <= '9'
}

/// The number that a run of decimal digits spells.
pub open spec fn decimal_value(d: Seq<char>) -> nat
    decreases d.len(),
{
    if d.len() == 0 {
        0
    } else {
        decimal_value(d.drop_last()) * 10 + (d.last() as nat - '0' as nat) as nat
    }
}

/// The digits part of a number's text: without one leading `+`.
pub open spec fn unsigned_digits(s: Seq<char>) -> Seq<char> {
    if s.len() > 0 && s[0] == '+' {
        s.skip(1)
    } else {
        s
    }
}

pub open spec fn all_digits(d: Seq<char>) -> bool {
    forall|i: int| 0 <= i < d.len() ==> is_digit(#[trigger] d[i])
}

/// The value of a nonempty run of decimal digits, if it fits a `usize`.
pub open spec fn usize_of_digits(d: Seq<char>) -> Option<nat> {
    if d.len() > 0 && all_digits(d) && decimal_value(d) <= usize::MAX {
        Some(decimal_value(d))
    } else {
        None
    }
}

/// What `str::parse::<usize>` gives: an optional leading `+`, then at least
/// one decimal digit and nothing else, with a value that fits a `usize`.
pub open spec fn parse_usize(s: Seq<char>) -> Option<nat> {
    usize_of_digits(unsigned_digits(s))
}

/// The position index that a face token names, if it names one.
pub open spec fn face_ref(t: Seq<char>) -> Option<nat> {
    parse_usize(before_slash(t))
}

/// The position indices named by face tokens, skipping tokens that name
/// none.
pub open spec fn face_refs(ts: Seq<Seq<char>>) -> Seq<nat>
    decreases ts.len(),
{
    if ts.len() == 0 {
        Seq::empty()
    } else {
        let r = face_refs(ts.drop_last());
        match face_ref(ts.last()) {
            Some(i) => r.push(i),
            None => r,
        }
    }
}

/// The `k`-th token of a line, if the line has one.
pub open spec fn token_at(toks: Seq<Seq<char>>, k: int) -> Option<Seq<char>> {
    if k < toks.len() {
        Some(toks[k])
    } else {
        None
    }
}

/// Is the line a `v` (position) line?
pub open spec fn is_position_line(toks: Seq<Seq<char>>) -> bool {
    toks.len() > 0 && toks[0] == seq!['v']
}

/// Is the line an `f` (face) line?
pub open spec fn is_face_line(toks: Seq<Seq<char>>) -> bool {
    toks.len() > 0 && toks[0] == seq!['f']
}

/// Corner `m` of a triangle fan over a polygon: triangle `m / 3` is
/// `(0, t + 1, t + 2)`.
pub open spec fn fan_corner(m: int) -> int {
    let t = m / 3;
    let r = m % 3;
    if r == 0 {
        0
    } else if r == 1 {
        t + 1
    } else {
        t + 2
    }
}

/// The indices that fan-triangulate a polygon of `k` vertices numbered from
/// `base` (indices are `u32`, so vertex numbers wrap past `u32::MAX`).
pub open spec fn fan_indices(base: nat, k: nat) -> Seq<u32> {
    if k >= 3 {
        Seq::new((3 * (k - 2)) as nat, |m: int| (base + fan_corner(m)) as u32)
    } else {
        Seq::empty()
    }
}

/// What the loader has gathered: the coordinate tokens of each position
/// line (three entries, `None` where a line has fewer tokens), the position
/// each vertex takes (`None` for an index past the positions read so far:
/// such a vertex sits at the origin), and the triangle indices.
pub struct ObjLayout {
    pub positions: Seq<Seq<Option<Seq<char>>>>,
    pub vertex_positions: Seq<Option<usize>>,
    pub indices: Seq<u32>,
}

/// The effect of one line. A position line adds a position. A face line
/// adds one new vertex per index it names (faces do not share vertices) and
/// fan-triangulates them. Other lines are ignored.
pub open spec fn obj_step(st: ObjLayout, toks: Seq<Seq<char>>) -> ObjLayout {
    if is_position_line(toks) {
        ObjLayout {
            positions: st.positions.push(
                seq![token_at(toks, 1), token_at(toks, 2), token_at(toks, 3)],
            ),
            ..st
        }
    } else if is_face_line(toks) {
        let refs = face_refs(toks.skip(1));
        let np = st.positions.len();
        ObjLayout {
            positions: st.positions,
            vertex_positions: st.vertex_positions + refs.map_values(
                |i: nat| vertex_source(i, np),
            ),
            indices: st.indices + fan_indices(st.vertex_positions.len(), refs.len()),
        }
    } else {
        st
    }
}

/// The position of a vertex made from face index `i` when `np` positions
/// have been read: position `i - 1` if there is one, else none (the origin).
pub open spec fn vertex_source(i: nat, np: nat) -> Option<usize> {
    if 1 <= i && i - 1 < np {
        Some((i - 1) as usize)
    } else {
        None
    }
}

/// The layout gathered from a sequence of tokenized lines, in order.
pub open spec fn obj_fold(lines: Seq<Seq<Seq<char>>>) -> ObjLayout
    decreases lines.len(),
{
    if lines.len() == 0 {
        ObjLayout { positions: Seq::empty(), vertex_positions: Seq::empty(), indices: Seq::empty() }
    } else {
        obj_step(obj_fold(lines.drop_last()), lines.last())
    }
}

/// The layout of an OBJ text.
pub open spec fn obj_layout(text: Seq<char>) -> ObjLayout {
    obj_fold(line_tokens_of(text))
}

/// Does a face line name position index 0? (OBJ indices start at 1; the
/// loader computes `index - 1`, which overflows on 0.)
pub open spec fn names_index_zero(toks: Seq<Seq<char>>) -> bool {
    is_face_line(toks) && face_refs(toks.skip(1)).contains(0)
}

/// Does any face line of the text name position index 0?
pub open spec fn obj_names_index_zero(text: Seq<char>) -> bool {
    exists|j: int|
        0 <= j < line_tokens_of(text).len() && #[trigger] names_index_zero(line_tokens_of(text)[j])
}


proof fn lemma_before_slash(t: Seq<char>, k: int)
    requires
        0 <= k <= t.len(),
        forall|q: int| 0 <= q < k ==> t[q] != '/',
        k == t.len() || t[k] == '/',
    ensures
        before_slash(t) == t.take(k),
    decreases t.len(),
{
    if k == 0 {
        assert(t.take(0) =~= Seq::<char>::empty());
    } else {
        lemma_before_slash(t.skip(1), k - 1);
        assert(seq![t[0]] + t.skip(1).take(k - 1) =~= t.take(k));
    }
}

proof fn lemma_decimal_step(d: Seq<char>, m: int)
    requires
        0 <= m < d.len(),
    ensures
        decimal_value(d.take(m + 1)) == decimal_value(d.take(m)) * 10 + (d[m] as nat - '0' as nat) as nat,
{
    assert(d.take(m + 1).drop_last() =~= d.take(m));
}

proof fn lemma_decimal_monotone(d: Seq<char>, m: int)
    requires
        0 <= m <= d.len(),
        all_digits(d),
    ensures
        decimal_value(d.take(m)) <= decimal_value(d),
    decreases d.len() - m,
{
    if m == d.len() {
        assert(d.take(m) =~= d);
    } else {
        lemma_decimal_step(d, m);
        lemma_decimal_monotone(d, m + 1);
    }
}

/// The position index a face token names, as `face_ref` describes.
fn parse_face_ref(t: &Vec<char>) -> (r: Option<usize>)
    ensures
        match face_ref(t@) {
            Some(i) => r == Some(i as usize),
            None => r is None,
        },
{
    let n = t.len();
    let mut k: usize = 0;
    while k < n && t[k] != '/'
        invariant
            k <= n,
            n == t@.len(),
            forall|q: int| 0 <= q < k ==> t@[q] != '/',
        decreases n - k,
    {
        k += 1;
    }
    proof {
        lemma_before_slash(t@, k as int);
    }
    let ghost b = t@.take(k as int);
    let start: usize = if k > 0 && t[0] == '+' { 1 } else { 0 };
    let ghost d = t@.subrange(start as int, k as int);
    proof {
        if k > 0 {
            assert(b[0] == t@[0]);
        }
        if k > 0 && t@[0] == '+' {
            assert(b.skip(1) =~= d);
        } else {
            assert(b =~= d);
        }
        assert(unsigned_digits(b) == d);
        assert(face_ref(t@) == usize_of_digits(d));
    }
    if start == k {
        return None;
    }
    let mut acc: usize = 0;
    let mut q: usize = start;
    while q < k
        invariant
            start <= q <= k <= n,
            n == t@.len(),
            d == t@.subrange(start as int, k as int),
            start < k,
            face_ref(t@) == usize_of_digits(d),
            forall|x: int| 0 <= x < q - start ==> is_digit(#[trigger] d[x]),
            acc as nat == decimal_value(d.take(q - start)),
        decreases k - q,
    {
        let c = t[q];
        assert(d[q - start] == c);
        if !('0' <= c && c <= '9') {
            assert(!is_digit(d[q - start]));
            assert(!all_digits(d));
            return None;
        }
        let digit = (c as u32 - '0' as u32) as usize;
        proof {
            lemma_decimal_step(d, q - start);
            assert(digit as nat == (c as nat - '0' as nat) as nat);
        }
        match acc.checked_mul(10) {
            Some(a10) => match a10.checked_add(digit) {
                Some(a) => {
                    acc = a;
                },
                None => {
                    proof {
                        if all_digits(d) {
                            lemma_decimal_monotone(d, q - start + 1);
                        }
                    }
                    return None;
                },
            },
            None => {
                proof {
                    if all_digits(d) {
                        lemma_decimal_monotone(d, q - start + 1);
                    }
                }
                return None;
            },
        }
        q += 1;
    }
    assert(d.take(k - start) =~= d);
    Some(acc)
}


/// The coordinate tokens of one `v` line, as text (`None` where the line
/// has fewer tokens). The host parses them as numbers, 0 where they are
/// missing or malformed.
pub struct ObjPosition {
    pub x: Option<Vec<char>>,
    pub y: Option<Vec<char>>,
    pub z: Option<Vec<char>>,
}

pub open spec fn opt_chars(o: Option<Vec<char>>) -> Option<Seq<char>> {
    match o {
        Some(v) => Some(v@),
        None => None,
    }
}

impl View for ObjPosition {
    type V = Seq<Option<Seq<char>>>;

    open spec fn view(&self) -> Seq<Option<Seq<char>>> {
        seq![opt_chars(self.x), opt_chars(self.y), opt_chars(self.z)]
    }
}

/// The layout of an OBJ file, as gathered by `parse_obj`.
pub struct ObjGeometry {
    pub positions: Vec<ObjPosition>,
    /// For each vertex, the index of its position in `positions`, or `None`
    /// for a vertex at the origin.
    pub vertex_positions: Vec<Option<usize>>,
    pub indices: Vec<u32>,
}

impl View for ObjGeometry {
    type V = ObjLayout;

    open spec fn view(&self) -> ObjLayout {
        ObjLayout {
            positions: self.positions@.map_values(|p: ObjPosition| p@),
            vertex_positions: self.vertex_positions@,
            indices: self.indices@,
        }
    }
}

/// Why an OBJ text gives no mesh.
#[derive(Clone, Copy, Debug, PartialEq, Eq, Structural)]
pub enum ObjError {
    /// No face line produced a vertex.
    NoGeometry,
}

fn copy_chars(v: &Vec<char>) -> (r: Vec<char>)
    ensures
        r@ == v@,
{
    let mut r: Vec<char> = Vec::new();
    let mut i: usize = 0;
    while i < v.len()
        invariant
            i <= v@.len(),
            r@ == v@.take(i as int),
        decreases v@.len() - i,
    {
        r.push(v[i]);
        assert(v@.take(i + 1) =~= r@);
        i += 1;
    }
    assert(v@.take(v@.len() as int) =~= v@);
    r
}

fn token_copy(toks: &Vec<Vec<char>>, k: usize) -> (r: Option<Vec<char>>)
    ensures
        opt_chars(r) == token_at(toks.deep_view(), k as int),
{
    if k < toks.len() {
        let t = copy_chars(&toks[k]);
        assert(toks.deep_view()[k as int] =~= toks[k as int]@);
        Some(t)
    } else {
        None
    }
}

fn is_single(t: &Vec<char>, c: char) -> (r: bool)
    ensures
        r == (t@ == seq![c]),
{
    if t.len() == 1 && t[0] == c {
        assert(t@ =~= seq![c]);
        true
    } else {
        false
    }
}

proof fn lemma_face_refs_step(ts: Seq<Seq<char>>, m: int)
    requires
        0 <= m < ts.len(),
    ensures
        face_refs(ts.take(m + 1)) == (match face_ref(ts[m]) {
            Some(i) => face_refs(ts.take(m)).push(i),
            None => face_refs(ts.take(m)),
        }),
{
    assert(ts.take(m + 1).drop_last() =~= ts.take(m));
}

proof fn lemma_face_refs_grow(ts: Seq<Seq<char>>, m: int)
    requires
        0 <= m <= ts.len(),
    ensures
        forall|x: nat| face_refs(ts.take(m)).contains(x) ==> face_refs(ts).contains(x),
    decreases ts.len() - m,
{
    if m == ts.len() {
        assert(ts.take(m) =~= ts);
    } else {
        lemma_face_refs_step(ts, m);
        lemma_face_refs_grow(ts, m + 1);
        assert forall|x: nat| face_refs(ts.take(m)).contains(x) implies face_refs(ts).contains(x) by {
            if face_refs(ts.take(m)).contains(x) {
                let j = choose|j: int| 0 <= j < face_refs(ts.take(m)).len() && face_refs(ts.take(m))[j] == x;
                match face_ref(ts[m]) {
                    Some(i) => {
                        assert(face_refs(ts.take(m + 1))[j] == x);
                    },
                    None => {},
                }
            }
        }
    }
}

/// Apply one tokenized line to the layout gathered so far.
fn apply_line(geo: &mut ObjGeometry, toks: &Vec<Vec<char>>)
    requires
        !names_index_zero(toks.deep_view()),
    ensures
        final(geo)@ == obj_step(old(geo)@, toks.deep_view()),
{
    let ghost tv = toks.deep_view();
    if toks.len() == 0 {
        return;
    }
    proof {
        assert(tv[0] =~= toks[0]@);
    }
    if is_single(&toks[0], 'v') {
        let x = token_copy(toks, 1);
        let y = token_copy(toks, 2);
        let z = token_copy(toks, 3);
        let ghost ps = geo.positions@;
        let pos = ObjPosition { x, y, z };
        geo.positions.push(pos);
        assert(geo@.positions =~= old(geo)@.positions.push(
            seq![token_at(tv, 1), token_at(tv, 2), token_at(tv, 3)],
        ));
        return;
    }
    if !is_single(&toks[0], 'f') {
        return;
    }
    let ghost ts = tv.skip(1);
    let ghost np = geo.positions@.len();
    let ghost nv0 = geo.vertex_positions@.len();
    let np_exec = geo.positions.len();
    let mut face_idx: Vec<u32> = Vec::new();
    let n = toks.len();
    let mut j: usize = 1;
    proof {
        assert(ts.take(0) =~= Seq::<Seq<char>>::empty());
        lemma_face_refs_grow(ts, 0);
    }
    while j < n
        invariant
            1 <= j <= n,
            n == toks@.len(),
            tv == toks.deep_view(),
            ts == tv.skip(1),
            np_exec == np,
            np == geo.positions@.len(),
            geo.positions@ == old(geo).positions@,
            geo.indices@ == old(geo).indices@,
            nv0 == old(geo).vertex_positions@.len(),
            !face_refs(ts).contains(0),
            geo.vertex_positions@ == old(geo).vertex_positions@ + face_refs(ts.take(j - 1)).map_values(|x: nat| vertex_source(x, np)),
            face_idx@ == Seq::new(
                face_refs(ts.take(j - 1)).len(),
                |q: int| (nv0 + q) as u32,
            ),
        decreases n - j,
    {
        let ghost before = face_refs(ts.take(j - 1));
        proof {
            lemma_face_refs_step(ts, j - 1);
            assert(ts[j - 1] == tv[j as int]);
            assert(tv[j as int] =~= toks[j as int]@);
            lemma_face_refs_grow(ts, j as int);
        }
        match parse_face_ref(&toks[j]) {
            Some(i) => {
                proof {
                    let after = face_refs(ts.take(j as int));
                    assert(after == before.push(i as nat));
                    assert(after[before.len() as int] == i as nat);
                    assert(face_refs(ts).contains(i as nat));
                }
                let s = if i - 1 < np_exec {
                    Some(i - 1)
                } else {
                    None
                };
                let ghost vp0 = geo.vertex_positions@;
                face_idx.push(#[verifier::truncate] (geo.vertex_positions.len() as u32));
                geo.vertex_positions.push(s);
                proof {
                    let after = face_refs(ts.take(j as int));
                    assert(i != 0);
                    if i - 1 < np_exec {
                        assert(s == Some((i - 1) as usize));
                    } else {
                        assert(s == None::<usize>);
                    }
                    assert(s == vertex_source(i as nat, np));
                    assert(geo.vertex_positions@ == vp0.push(s));
                    assert(after.map_values(|x: nat| vertex_source(x, np)) =~= before.map_values(|x: nat| vertex_source(x, np)).push(vertex_source(i as nat, np)));
                    assert(geo.vertex_positions@ =~= old(geo).vertex_positions@ + after.map_values(|x: nat| vertex_source(x, np)));
                    assert(face_idx@ =~= Seq::new(after.len(), |q: int| (nv0 + q) as u32));
                }
            },
            None => {},
        }
        j += 1;
    }
    let ghost refs = face_refs(ts);
    proof {
        assert(ts.take(n - 1) =~= ts);
    }
    let k = face_idx.len();
    let ghost fan = fan_indices(nv0, refs.len());
    if k >= 3 {
        let mut m: usize = 1;
        while m < k - 1
            invariant
                3 <= k,
                1 <= m <= k - 1,
                k == refs.len(),
                fan == fan_indices(nv0, refs.len()),
                face_idx@ == Seq::new(refs.len(), |q: int| (nv0 + q) as u32),
                geo.positions@ == old(geo).positions@,
                geo.vertex_positions@ == old(geo).vertex_positions@ + refs.map_values(|x: nat| vertex_source(x, np)),
                geo.indices@ == old(geo).indices@ + fan.take(3 * (m - 1)),
            decreases k - 1 - m,
        {
            let ghost i0 = geo.indices@;
            geo.indices.push(face_idx[0]);
            geo.indices.push(face_idx[m]);
            geo.indices.push(face_idx[m + 1]);
            proof {
                let b = 3 * (m - 1);
                assert(fan_corner(b) == 0);
                assert(fan_corner(b + 1) == m);
                assert(fan_corner(b + 2) == m + 1);
                assert(fan.take(b + 3) =~= fan.take(b).push(fan[b]).push(fan[b + 1]).push(fan[b + 2]));
                assert(geo.indices@ =~= old(geo).indices@ + fan.take(3 * m));
            }
            m += 1;
        }
        assert(fan.take(3 * (k - 2)) =~= fan);
    } else {
        assert(fan =~= Seq::<u32>::empty());
        assert(geo.indices@ =~= old(geo).indices@ + fan);
    }
    proof {
        assert(geo@.positions == old(geo)@.positions);
        assert(geo@ == obj_step(old(geo)@, tv));
    }
}


/// Gather the layout of an OBJ text: positions from `v` lines, vertices and
/// fan-triangulated indices from `f` lines. A text whose faces make no
/// vertex has no geometry. Index 0 in a face is not valid OBJ and is left
/// out by the precondition (see `names_index_zero`).
pub fn parse_obj(text: &str) -> (r: Result<ObjGeometry, ObjError>)
    requires
        !obj_names_index_zero(text@),
    ensures
        match r {
            Ok(g) => g@ == obj_layout(text@) && obj_layout(text@).vertex_positions.len() > 0,
            Err(e) => e == ObjError::NoGeometry && obj_layout(text@).vertex_positions.len() == 0,
        },
{
    let lines = split_line_tokens(text);
    let ghost lv = line_tokens_of(text@);
    let mut geo = ObjGeometry { positions: Vec::new(), vertex_positions: Vec::new(), indices: Vec::new() };
    let n = lines.len();
    let mut i: usize = 0;
    proof {
        assert(lv.take(0) =~= Seq::<Seq<Seq<char>>>::empty());
        assert(geo@.positions =~= Seq::<Seq<Option<Seq<char>>>>::empty());
    }
    while i < n
        invariant
            i <= n,
            n == lines@.len(),
            lines.deep_view() == lv,
            lv == line_tokens_of(text@),
            !obj_names_index_zero(text@),
            geo@ == obj_fold(lv.take(i as int)),
        decreases n - i,
    {
        proof {
            assert(lv[i as int] =~~= lines[i as int].deep_view());
            if names_index_zero(lv[i as int]) {
                assert(obj_names_index_zero(text@));
            }
            assert(lv.take(i + 1).drop_last() =~= lv.take(i as int));
        }
        apply_line(&mut geo, &lines[i]);
        i += 1;
    }
    assert(lv.take(n as int) =~= lv);
    if geo.vertex_positions.len() == 0 {
        Err(ObjError::NoGeometry)
    } else {
        Ok(geo)
    }
}

/// Does a tokenized line name position index 0 in a face?
fn line_names_index_zero(toks: &Vec<Vec<char>>) -> (r: bool)
    ensures
        r == names_index_zero(toks.deep_view()),
{
    let ghost tv = toks.deep_view();
    if toks.len() == 0 {
        return false;
    }
    assert(tv[0] =~= toks[0]@);
    if !is_single(&toks[0], 'f') {
        return false;
    }
    let ghost ts = tv.skip(1);
    let n = toks.len();
    let mut j: usize = 1;
    assert(ts.take(0) =~= Seq::<Seq<char>>::empty());
    while j < n
        invariant
            1 <= j <= n,
            n == toks@.len(),
            tv == toks.deep_view(),
            ts == tv.skip(1),
            is_face_line(tv),
            !face_refs(ts.take(j - 1)).contains(0),
        decreases n - j,
    {
        proof {
            lemma_face_refs_step(ts, j - 1);
            assert(ts[j - 1] =~~= toks[j as int].deep_view());
            assert(toks[j as int].deep_view() =~= toks[j as int]@);
        }
        let r = parse_face_ref(&toks[j]);
        if r == Some(0usize) {
            proof {
                let after = face_refs(ts.take(j as int));
                assert(after.last() == 0);
                lemma_face_refs_grow(ts, j as int);
                assert(after[after.len() - 1] == 0);
                assert(face_refs(ts).contains(0));
            }
            return true;
        }
        proof {
            let before = face_refs(ts.take(j - 1));
            let after = face_refs(ts.take(j as int));
            assert forall|x: int| 0 <= x < after.len() implies after[x] != 0 by {
                if x < before.len() {
                    assert(after[x] == before[x]);
                }
            }
        }
        j += 1;
    }
    assert(ts.take(n - 1) =~= ts);
    false
}

/// Does any face of the OBJ text name position index 0? `parse_obj` must
/// not be given such a text.
pub fn obj_has_index_zero(text: &str) -> (r: bool)
    ensures
        r == obj_names_index_zero(text@),
{
    let lines = split_line_tokens(text);
    let ghost lv = line_tokens_of(text@);
    let n = lines.len();
    let mut i: usize = 0;
    while i < n
        invariant
            i <= n,
            n == lines@.len(),
            lines.deep_view() == lv,
            lv == line_tokens_of(text@),
            forall|j: int| 0 <= j < i ==> !names_index_zero(#[trigger] lv[j]),
        decreases n - i,
    {
        assert(lv[i as int] =~~= lines[i as int].deep_view());
        if line_names_index_zero(&lines[i]) {
            return true;
        }
        i += 1;
    }
    false
}


/// The layout is well formed: indices come in whole triangles, every vertex
/// position refers to a position that exists, and, while vertex numbers fit
/// a `u32`, every index names an existing vertex.
pub open spec fn layout_well_formed(g: ObjLayout) -> bool {
    &&& g.indices.len() % 3 == 0
    &&& forall|k: int|
        0 <= k < g.vertex_positions.len() ==> (#[trigger] g.vertex_positions[k] matches Some(p)
            ==> p < g.positions.len())
    &&& g.vertex_positions.len() <= u32::MAX + 1 ==> forall|k: int|
        0 <= k < g.indices.len() ==> #[trigger] g.indices[k] < g.vertex_positions.len()
}

proof fn lemma_fan_indices(base: nat, k: nat)
    requires
        base + k <= u32::MAX + 1,
    ensures
        fan_indices(base, k).len() % 3 == 0,
        forall|m: int|
            0 <= m < fan_indices(base, k).len() ==> #[trigger] fan_indices(base, k)[m] < base + k,
{
    lemma_fan_len(base, k);
    if k >= 3 {
        assert forall|m: int| 0 <= m < fan_indices(base, k).len() implies #[trigger] fan_indices(
            base,
            k,
        )[m] < base + k by {
            assert(0 <= fan_corner(m) && fan_corner(m) < k);
        }
    }
}

proof fn lemma_fan_len(base: nat, k: nat)
    ensures
        fan_indices(base, k).len() % 3 == 0,
{
    if k >= 3 {
        assert((3 * (k - 2)) % 3 == 0) by (nonlinear_arith)
            requires
                k >= 3,
        ;
    }
}

/// Every OBJ layout is well formed, line by line.
pub proof fn law_obj_layout_well_formed(lines: Seq<Seq<Seq<char>>>)
    ensures
        layout_well_formed(obj_fold(lines)),
    decreases lines.len(),
{
    if lines.len() > 0 {
        let prev = obj_fold(lines.drop_last());
        law_obj_layout_well_formed(lines.drop_last());
        let toks = lines.last();
        let g = obj_fold(lines);
        if is_face_line(toks) {
            let refs = face_refs(toks.skip(1));
            let np = prev.positions.len();
            let nv = prev.vertex_positions.len();
            let added = refs.map_values(|i: nat| vertex_source(i, np));
            assert(!is_position_line(toks)) by {
                if is_position_line(toks) {
                    assert(toks[0][0] == 'v');
                    assert(toks[0][0] == 'f');
                }
            }
            assert(g == obj_step(prev, toks));
            assert(g.vertex_positions == prev.vertex_positions + added);
            assert forall|k: int| 0 <= k < g.vertex_positions.len() implies (
            #[trigger] g.vertex_positions[k] matches Some(p) ==> p < g.positions.len()) by {
                if k >= nv {
                    assert(g.vertex_positions[k] == added[k - nv]);
                } else {
                    assert(g.vertex_positions[k] == prev.vertex_positions[k]);
                }
            }
            lemma_fan_len(nv, refs.len());
            assert(g.indices == prev.indices + fan_indices(nv, refs.len()));
            if g.vertex_positions.len() <= u32::MAX + 1 {
                lemma_fan_indices(nv, refs.len());
                assert forall|k: int| 0 <= k < g.indices.len() implies #[trigger] g.indices[k]
                    < g.vertex_positions.len() by {
                    if k >= prev.indices.len() {
                        assert(g.indices[k] == fan_indices(nv, refs.len())[k - prev.indices.len()]);
                    } else {
                        assert(g.indices[k] == prev.indices[k]);
                    }
                }
            }
        } else if is_position_line(toks) {
            assert forall|k: int| 0 <= k < g.vertex_positions.len() implies (
            #[trigger] g.vertex_positions[k] matches Some(p) ==> p < g.positions.len()) by {
                assert(g.vertex_positions[k] == prev.vertex_positions[k]);
            }
        }
    }
}

/// A face line fan-triangulates its polygon. A face naming `k` position
/// indices adds `k` new vertices, one per index and in order. When `k >= 3`
/// it adds exactly `3 * (k - 2)` indices after the existing ones, triangle
/// `t` being (first, first + t + 1, first + t + 2) of the face's new
/// vertices. A face naming fewer than three indices adds no index. No
/// position is added, and nothing already gathered changes.
pub proof fn law_face_fan_triangulates(st: ObjLayout, toks: Seq<Seq<char>>)
    requires
        is_face_line(toks),
    ensures
        ({
            let k = face_refs(toks.skip(1)).len();
            let nv = st.vertex_positions.len();
            let ni = st.indices.len();
            let after = obj_step(st, toks);
            &&& after.positions == st.positions
            &&& after.vertex_positions.len() == nv + k
            &&& after.vertex_positions.subrange(0, nv as int) == st.vertex_positions
            &&& after.indices.subrange(0, ni as int) == st.indices
            &&& (k < 3 ==> after.indices == st.indices)
            &&& (k >= 3 ==> after.indices.len() == ni + 3 * (k - 2))
            &&& forall|t: int|
                0 <= t < k - 2 ==> #[trigger] after.indices[ni + 3 * t] == nv as u32
                    && after.indices[ni + 3 * t + 1] == (nv + t + 1) as u32
                    && after.indices[ni + 3 * t + 2] == (nv + t + 2) as u32
        }),
{
    let k = face_refs(toks.skip(1)).len();
    let nv = st.vertex_positions.len();
    let ni = st.indices.len();
    assert(!is_position_line(toks)) by {
        if is_position_line(toks) {
            assert(toks[0][0] == 'v');
            assert(toks[0][0] == 'f');
        }
    }
    let after = obj_step(st, toks);
    let fan = fan_indices(nv, k);
    assert(after.indices == st.indices + fan);
    assert(after.indices.subrange(0, ni as int) =~= st.indices);
    assert(after.vertex_positions.subrange(0, nv as int) =~= st.vertex_positions);
    if k < 3 {
        assert(fan =~= Seq::<u32>::empty());
        assert(after.indices =~= st.indices);
    } else {
        assert(fan.len() == 3 * (k - 2));
    }
    assert forall|t: int| 0 <= t < k - 2 implies #[trigger] after.indices[ni + 3 * t] == nv as u32
        && after.indices[ni + 3 * t + 1] == (nv + t + 1) as u32
        && after.indices[ni + 3 * t + 2] == (nv + t + 2) as u32 by {
        assert((3 * t) / 3 == t && (3 * t) % 3 == 0);
        assert((3 * t + 1) / 3 == t && (3 * t + 1) % 3 == 1);
        assert((3 * t + 2) / 3 == t && (3 * t + 2) % 3 == 2);
        assert(fan_corner(3 * t) == 0);
        assert(fan_corner(3 * t + 1) == t + 1);
        assert(fan_corner(3 * t + 2) == t + 2);
        assert(after.indices[ni + 3 * t] == fan[3 * t]);
        assert(after.indices[ni + 3 * t + 1] == fan[3 * t + 1]);
        assert(after.indices[ni + 3 * t + 2] == fan[3 * t + 2]);
    }
}

} // verus!
