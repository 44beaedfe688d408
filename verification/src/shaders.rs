//! Custom-shader bookkeeping: the shader bank model, the `ShaderInfo`
//! handle that pairs a user program with its uniform snapshot, and the
//! switch between default and custom dispatch.
//!
//! Slots 0 to 3 of the bank are reserved for the built-in programs
//! (plain-color, textured, text, blit); user programs are appended and
//! addressed by index.

use vstd::prelude::*;

use crate::errors::ProcessingErr;
use crate::matrix::Mat4;
use crate::{same_screen_except_shader_state, Screen};

verus! {

/// The bank slot of the built-in plain-color program.
pub const SHADER_PLAIN: usize = 0;

/// The bank slot of the built-in textured program.
pub const SHADER_TEXTURED: usize = 1;

/// The bank slot of the built-in text program.
pub const SHADER_TEXT: usize = 2;

/// The bank slot of the built-in blit-to-window program.
pub const SHADER_BLIT: usize = 3;

/// The number of reserved built-in bank slots.
pub const SHADER_BANK_RESERVED: usize = 4;

/// The name under which every program receives the current transform.
pub const UNIFORM_MATRIX_NAME: &'static str = "MVP";

/// A uniform value as this model records it.
#[derive(Clone, Copy, Debug, PartialEq, Eq, Structural)]
pub enum UniformValue {
    /// A 4x4 matrix of Q16.16 entries.
    Matrix(Mat4),
    /// A Q16.16 scalar.
    Scalar(i32),
    /// A whole number.
    SignedInt(i32),
    /// A truth value.
    Boolean(bool),
    /// A texture, by the handle the GPU collaborator assigned.
    Texture(u32),
}

/// The first position in `l` whose name reads `name`, or the length of
/// `l` when no entry matches.
pub open spec fn texture_entry_index(l: Seq<(String, u32)>, name: Seq<char>) -> int
    decreases l.len(),
{
    if l.len() == 0 {
        0
    } else if l.first().0@ == name {
        0
    } else {
        1 + texture_entry_index(l.drop_first(), name)
    }
}

/// The index returned by `texture_entry_index` is at most the length, and
/// everything before it has another name; when it is under the length it
/// points at a matching entry.
pub proof fn lemma_texture_entry_index(l: Seq<(String, u32)>, name: Seq<char>)
    ensures
        0 <= texture_entry_index(l, name) <= l.len(),
        forall|j: int| 0 <= j < texture_entry_index(l, name) ==> l[j].0@ != name,
        texture_entry_index(l, name) < l.len() ==> l[texture_entry_index(l, name)].0@ == name,
    decreases l.len(),
{
    if l.len() > 0 && l.first().0@ != name {
        lemma_texture_entry_index(l.drop_first(), name);
        assert forall|j: int| 0 <= j < texture_entry_index(l, name) implies l[j].0@ != name by {
            if j > 0 {
                assert(l.drop_first()[j - 1] == l[j]);
            }
        }
        if texture_entry_index(l, name) < l.len() {
            assert(l.drop_first()[texture_entry_index(l.drop_first(), name)] == l[
                texture_entry_index(l, name)
            ]);
        }
    }
}

/// Information about one custom shader: its slot in the bank, the
/// snapshot of uniform values it will be drawn with (later entries for a
/// name shadow earlier ones), and extra named texture bindings.
pub struct ShaderInfo {
    pub shader_idx: usize,
    pub uniforms: Vec<(String, UniformValue)>,
    pub texture_list: Vec<(String, u32)>,
}

impl ShaderInfo {
    /// Record a uniform value for the program; the new entry shadows any
    /// earlier entry of the same name.
    pub fn set(&mut self, uni_name: &str, value: UniformValue)
        ensures
            final(self).shader_idx == old(self).shader_idx,
            final(self).texture_list@ == old(self).texture_list@,
            final(self).uniforms@.len() == old(self).uniforms@.len() + 1,
            final(self).uniforms@.subrange(0, old(self).uniforms@.len() as int) == old(self).uniforms@,
            final(self).uniforms@.last().0@ == uni_name@,
            final(self).uniforms@.last().1 == value,
    {
        self.uniforms.push((uni_name.to_owned(), value));
        proof {
            assert(self.uniforms@.subrange(0, old(self).uniforms@.len() as int)
                =~= old(self).uniforms@);
        }
    }

    /// The bank slot of the program.
    pub fn get_idx(&self) -> (r: usize)
        ensures
            r == self.shader_idx,
    {
        self.shader_idx
    }

    /// The recorded uniform snapshot.
    pub fn get_uniforms(&self) -> (r: &Vec<(String, UniformValue)>)
        ensures
            r@ == self.uniforms@,
    {
        &self.uniforms
    }

    /// The recorded extra texture bindings.
    pub fn get_texture_list(&self) -> (r: &Vec<(String, u32)>)
        ensures
            r@ == self.texture_list@,
    {
        &self.texture_list
    }

    /// Bind `value` under `name`: the first entry already carrying `name`
    /// is replaced, and with none present the pair is appended.
    pub fn add_to_texture_list(&mut self, name: &str, value: u32)
        ensures
            final(self).shader_idx == old(self).shader_idx,
            final(self).uniforms@ == old(self).uniforms@,
            ({
                let i = texture_entry_index(old(self).texture_list@, name@);
                if i < old(self).texture_list@.len() {
                    final(self).texture_list@.len() == old(self).texture_list@.len()
                        && final(self).texture_list@[i].0@ == name@
                        && final(self).texture_list@[i].1 == value
                        && (forall|j: int|
                            0 <= j < old(self).texture_list@.len() && j != i
                                ==> final(self).texture_list@[j] == old(self).texture_list@[j])
                } else {
                    final(self).texture_list@.len() == old(self).texture_list@.len() + 1
                        && final(self).texture_list@.subrange(0, old(self).texture_list@.len() as int)
                            == old(self).texture_list@
                        && final(self).texture_list@.last().0@ == name@
                        && final(self).texture_list@.last().1 == value
                }
            }),
    {
        proof {
            lemma_texture_entry_index(self.texture_list@, name@);
        }
        let ghost target = texture_entry_index(self.texture_list@, name@);
        let name_s: String = name.to_owned();
        let n: usize = self.texture_list.len();
        let mut k: usize = 0;
        while k < n
            invariant
                n == self.texture_list@.len(),
                0 <= k <= n,
                *self == *old(self),
                name_s@ == name@,
                target == texture_entry_index(self.texture_list@, name@),
                forall|j: int| 0 <= j < k ==> self.texture_list@[j].0@ != name@,
                k <= target,
            decreases n - k,
        {
            proof {
                lemma_texture_entry_index(self.texture_list@, name@);
                assert(name_s@ == name@);
            }
            let entry: &(String, u32) = &self.texture_list[k];
            proof {
                assert(entry.0@ == self.texture_list@[k as int].0@);
            }
            if entry.0 == name_s {
                proof {
                    if (k as int) < target {
                        assert(self.texture_list@[k as int].0@ != name@);
                    }
                    assert(k as int == target);
                }
                let replacement: String = name.to_owned();
                proof {
                    assert(replacement@ == name@);
                }
                self.texture_list.set(k, (replacement, value));
                return ;
            }
            k = k + 1;
        }
        self.texture_list.push((name.to_owned(), value));
        proof {
            assert(self.texture_list@.subrange(0, old(self).texture_list@.len() as int)
                =~= old(self).texture_list@);
        }
    }
}

impl Screen {
    /// Switch dispatch to the given custom shader: every subsequent draw
    /// call uses its program, uniform snapshot and texture bindings until
    /// `reset_shader` is called.
    pub fn shader(&mut self, which_shader: &ShaderInfo)
        ensures
            final(self).alternate_shader == which_shader.shader_idx,
            final(self).curr_shader == which_shader.shader_idx,
            final(self).using_alternate_shader,
            final(self).uniforms matches Some(u) && u@ == which_shader.uniforms@,
            final(self).texture_list matches Some(t) && t@ == which_shader.texture_list@,
            final(self).shader_count == old(self).shader_count,
            same_screen_except_shader_state(*final(self), *old(self)),
    {
        self.alternate_shader = which_shader.shader_idx;
        self.using_alternate_shader = true;
        self.uniforms = Some(clone_uniform_pairs(&which_shader.uniforms));
        self.texture_list = Some(clone_texture_pairs(&which_shader.texture_list));
        self.curr_shader = which_shader.shader_idx;
    }

    /// Return dispatch to the built-in shaders.
    pub fn reset_shader(&mut self)
        ensures
            final(self).curr_shader == 0,
            final(self).uniforms is None,
            final(self).texture_list is None,
            !final(self).using_alternate_shader,
            final(self).alternate_shader == old(self).alternate_shader,
            final(self).shader_count == old(self).shader_count,
            same_screen_except_shader_state(*final(self), *old(self)),
    {
        self.curr_shader = 0;
        self.uniforms = None;
        self.texture_list = None;
        self.using_alternate_shader = false;
    }
}

/// A by-value copy of a uniform snapshot.
pub(crate) fn clone_uniform_pairs(v: &Vec<(String, UniformValue)>) -> (r: Vec<(String, UniformValue)>)
    ensures
        r@ == v@,
{
    let mut out: Vec<(String, UniformValue)> = Vec::new();
    let n: usize = v.len();
    let mut k: usize = 0;
    while k < n
        invariant
            n == v@.len(),
            0 <= k <= n,
            out@ == v@.subrange(0, k as int),
        decreases n - k,
    {
        let name: String = v[k].0.clone();
        proof {
            assert(name@ == v@[k as int].0@);
        }
        out.push((name, v[k].1));
        proof {
            assert(out@ =~= v@.subrange(0, (k + 1) as int));
        }
        k = k + 1;
    }
    proof {
        assert(v@.subrange(0, n as int) =~= v@);
    }
    out
}

/// A by-value copy of a texture-binding list.
pub(crate) fn clone_texture_pairs(v: &Vec<(String, u32)>) -> (r: Vec<(String, u32)>)
    ensures
        r@ == v@,
{
    let mut out: Vec<(String, u32)> = Vec::new();
    let n: usize = v.len();
    let mut k: usize = 0;
    while k < n
        invariant
            n == v@.len(),
            0 <= k <= n,
            out@ == v@.subrange(0, k as int),
        decreases n - k,
    {
        let name: String = v[k].0.clone();
        proof {
            assert(name@ == v@[k as int].0@);
        }
        out.push((name, v[k].1));
        proof {
            assert(out@ =~= v@.subrange(0, (k + 1) as int));
        }
        k = k + 1;
    }
    proof {
        assert(v@.subrange(0, n as int) =~= v@);
    }
    out
}


/// The bytes of the include directive, `#include`.
pub open spec fn spec_include_prefix() -> Seq<u8> {
    seq![35u8, 105u8, 110u8, 99u8, 108u8, 117u8, 100u8, 101u8]
}

/// Whether a line begins with the include directive.
pub open spec fn spec_is_include_line(l: Seq<u8>) -> bool {
    l.len() >= 8 && l.subrange(0, 8) == spec_include_prefix()
}

/// The position of the first opening angle bracket of a line, or the
/// line's length when it has none.
pub open spec fn spec_lt_index(l: Seq<u8>) -> int
    decreases l.len(),
{
    if l.len() == 0 {
        0
    } else if l.first() == 60u8 {
        0
    } else {
        1 + spec_lt_index(l.drop_first())
    }
}

/// `spec_lt_index` is at most the length, everything before it is
/// another byte, and when under the length it points at the bracket.
pub proof fn lemma_lt_index(l: Seq<u8>)
    ensures
        0 <= spec_lt_index(l) <= l.len(),
        forall|j: int| 0 <= j < spec_lt_index(l) ==> l[j] != 60u8,
        spec_lt_index(l) < l.len() ==> l[spec_lt_index(l)] == 60u8,
    decreases l.len(),
{
    if l.len() > 0 && l.first() != 60u8 {
        lemma_lt_index(l.drop_first());
        assert forall|j: int| 0 <= j < spec_lt_index(l) implies l[j] != 60u8 by {
            if j > 0 {
                assert(l.drop_first()[j - 1] == l[j]);
            }
        }
        if spec_lt_index(l) < l.len() {
            assert(l.drop_first()[spec_lt_index(l.drop_first())] == l[spec_lt_index(l)]);
        }
    }
}

/// An include line is well-formed when an opening bracket exists with at
/// least one byte after it (the closing bracket); any other line is
/// trivially fine.
pub open spec fn spec_include_line_ok(l: Seq<u8>) -> bool {
    !spec_is_include_line(l) || spec_lt_index(l) + 1 < l.len()
}

/// The file name of a well-formed include line: the bytes after the
/// first opening bracket, with the line's final byte dropped.
pub open spec fn spec_include_name(l: Seq<u8>) -> Seq<u8>
    recommends
        spec_is_include_line(l),
        spec_include_line_ok(l),
{
    l.subrange(spec_lt_index(l) + 1, l.len() - 1)
}

/// The views of a list of byte lines.
pub open spec fn spec_byte_views(lines: Seq<Vec<u8>>) -> Seq<Seq<u8>> {
    Seq::new(lines.len(), |i: int| lines[i]@)
}

/// The views of a list of optional byte replacements.
pub open spec fn spec_repl_views(repl: Seq<Option<Vec<u8>>>) -> Seq<Option<Seq<u8>>> {
    Seq::new(
        repl.len(),
        |i: int|
            match repl[i] {
                Some(v) => Some(v@),
                None => None,
            },
    )
}

/// The include references a well-formed shader source yields: one per
/// include line, in order, carrying the 1-based line number and the file
/// name.
pub open spec fn spec_include_refs(lines: Seq<Seq<u8>>) -> Seq<(int, Seq<u8>)>
    decreases lines.len(),
{
    if lines.len() == 0 {
        Seq::empty()
    } else {
        let prefix = spec_include_refs(lines.drop_last());
        if spec_is_include_line(lines.last()) {
            prefix.push((lines.len() as int, spec_include_name(lines.last())))
        } else {
            prefix
        }
    }
}

/// The position of the first malformed line, or the number of lines when
/// every line is fine.
pub open spec fn spec_first_bad_line(lines: Seq<Seq<u8>>) -> int
    decreases lines.len(),
{
    if lines.len() == 0 {
        0
    } else if !spec_include_line_ok(lines.first()) {
        0
    } else {
        1 + spec_first_bad_line(lines.drop_first())
    }
}

/// `spec_first_bad_line` is at most the length, everything before it is
/// well-formed, and when under the length it points at a malformed line.
pub proof fn lemma_first_bad_line(lines: Seq<Seq<u8>>)
    ensures
        0 <= spec_first_bad_line(lines) <= lines.len(),
        forall|j: int| 0 <= j < spec_first_bad_line(lines) ==> spec_include_line_ok(lines[j]),
        spec_first_bad_line(lines) < lines.len() ==> !spec_include_line_ok(
            lines[spec_first_bad_line(lines)],
        ),
    decreases lines.len(),
{
    if lines.len() > 0 && spec_include_line_ok(lines.first()) {
        lemma_first_bad_line(lines.drop_first());
        assert forall|j: int|
            0 <= j < spec_first_bad_line(lines) implies spec_include_line_ok(lines[j]) by {
            if j > 0 {
                assert(lines.drop_first()[j - 1] == lines[j]);
            }
        }
        if spec_first_bad_line(lines) < lines.len() {
            assert(lines.drop_first()[spec_first_bad_line(lines.drop_first())] == lines[
                spec_first_bad_line(lines)
            ]);
        }
    }
}

/// One include directive found in a shader source: the 1-based line it
/// stood on and the file it names.
#[derive(Debug, PartialEq, Eq)]
pub struct IncludeRef {
    pub line_number: usize,
    pub name: Vec<u8>,
}

/// Whether the line begins with the include directive.
fn line_is_include(l: &Vec<u8>) -> (r: bool)
    ensures
        r == spec_is_include_line(l@),
{
    if l.len() < 8 {
        proof {
            assert(!spec_is_include_line(l@));
        }
        return false;
    }
    let r = l[0] == 35 && l[1] == 105 && l[2] == 110 && l[3] == 99 && l[4] == 108 && l[5] == 117
        && l[6] == 100 && l[7] == 101;
    proof {
        if r {
            assert(l@.subrange(0, 8) =~= spec_include_prefix());
        } else {
            assert(l@.subrange(0, 8) != spec_include_prefix()) by {
                if l@.subrange(0, 8) == spec_include_prefix() {
                    assert(l@.subrange(0, 8)[0] == l@[0]);
                    assert(l@.subrange(0, 8)[1] == l@[1]);
                    assert(l@.subrange(0, 8)[2] == l@[2]);
                    assert(l@.subrange(0, 8)[3] == l@[3]);
                    assert(l@.subrange(0, 8)[4] == l@[4]);
                    assert(l@.subrange(0, 8)[5] == l@[5]);
                    assert(l@.subrange(0, 8)[6] == l@[6]);
                    assert(l@.subrange(0, 8)[7] == l@[7]);
                }
            }
        }
    }
    r
}

/// The position of the first opening angle bracket, or the length.
fn find_lt(l: &Vec<u8>) -> (r: usize)
    ensures
        r as int == spec_lt_index(l@),
{
    proof {
        lemma_lt_index(l@);
    }
    let n: usize = l.len();
    let mut i: usize = 0;
    while i < n
        invariant
            n == l@.len(),
            0 <= i <= n,
            i <= spec_lt_index(l@),
            forall|j: int| 0 <= j < i ==> l@[j] != 60u8,
        decreases n - i,
    {
        proof {
            lemma_lt_index(l@);
        }
        if l[i] == 60 {
            proof {
                if (i as int) < spec_lt_index(l@) {
                    assert(l@[i as int] != 60u8);
                }
            }
            return i;
        }
        i = i + 1;
    }
    proof {
        if spec_lt_index(l@) < l@.len() {
            assert(l@[spec_lt_index(l@)] != 60u8);
        }
    }
    n
}

/// A by-value copy of the bytes from `from` (inclusive) to `to`
/// (exclusive).
fn copy_byte_range(l: &Vec<u8>, from: usize, to: usize) -> (r: Vec<u8>)
    requires
        from <= to <= l@.len(),
    ensures
        r@ == l@.subrange(from as int, to as int),
{
    let mut out: Vec<u8> = Vec::new();
    let mut i: usize = from;
    while i < to
        invariant
            from <= i <= to <= l@.len(),
            out@ == l@.subrange(from as int, i as int),
        decreases to - i,
    {
        out.push(l[i]);
        proof {
            assert(out@ =~= l@.subrange(from as int, (i + 1) as int));
        }
        i = i + 1;
    }
    out
}

/// Scan a shader source, given as lines, for include directives. The
/// scan succeeds exactly when every include line carries an opening
/// bracket with something after it; the references come back in line
/// order. On the first malformed include line the scan stops with a
/// shader-reading error carrying that 1-based line number.
pub fn scan_includes(lines: &Vec<Vec<u8>>) -> (r: Result<Vec<IncludeRef>, ProcessingErr>)
    ensures
        (r is Ok) <==> (forall|i: int|
            0 <= i < lines@.len() ==> spec_include_line_ok(#[trigger] spec_byte_views(lines@)[i])),
        r matches Ok(refs) ==> {
            let sref = spec_include_refs(spec_byte_views(lines@));
            &&& refs@.len() == sref.len()
            &&& forall|k: int|
                0 <= k < sref.len() ==> (#[trigger] refs@[k]).line_number as int == sref[k].0
                    && refs@[k].name@ == sref[k].1
        },
        r matches Err(e) ==> (e matches ProcessingErr::ErrorReadingShader(ln, _)
            && ln as int == 1 + spec_first_bad_line(spec_byte_views(lines@))),
{
    let ghost views = spec_byte_views(lines@);
    let n: usize = lines.len();
    let mut refs: Vec<IncludeRef> = Vec::new();
    let mut i: usize = 0;
    while i < n
        invariant
            n == lines@.len(),
            0 <= i <= n,
            views == spec_byte_views(lines@),
            forall|j: int| 0 <= j < i ==> spec_include_line_ok(#[trigger] views[j]),
            ({
                let sref = spec_include_refs(views.take(i as int));
                &&& refs@.len() == sref.len()
                &&& forall|k: int|
                    0 <= k < sref.len() ==> (#[trigger] refs@[k]).line_number as int == sref[k].0
                        && refs@[k].name@ == sref[k].1
            }),
        decreases n - i,
    {
        let line: &Vec<u8> = &lines[i];
        proof {
            assert(line@ == views[i as int]);
            assert(views.take(i + 1).drop_last() =~= views.take(i as int));
            assert(views.take(i + 1).last() == views[i as int]);
        }
        if line_is_include(line) {
            let lt = find_lt(line);
            if lt >= line.len() || lt + 1 >= line.len() {
                proof {
                    lemma_first_bad_line(views);
                    assert(!spec_include_line_ok(views[i as int]));
                    if spec_first_bad_line(views) < i as int {
                        assert(spec_include_line_ok(views[spec_first_bad_line(views)]));
                        assert(false);
                    }
                    if spec_first_bad_line(views) > i as int {
                        assert(spec_include_line_ok(views[i as int]));
                        assert(false);
                    }
                }
                return Err(ProcessingErr::ErrorReadingShader(
                    i + 1,
                    "It is possible that the name for the include file is missing.".to_owned(),
                ));
            }
            let name = copy_byte_range(line, lt + 1, line.len() - 1);
            refs.push(IncludeRef { line_number: i + 1, name });
        }
        i = i + 1;
    }
    proof {
        assert(views.take(n as int) =~= views);
        lemma_first_bad_line(views);
    }
    Ok(refs)
}

/// The parts joined by single newline bytes, with no trailing newline.
pub open spec fn spec_join_lines(parts: Seq<Seq<u8>>) -> Seq<u8>
    decreases parts.len(),
{
    if parts.len() == 0 {
        Seq::empty()
    } else if parts.len() == 1 {
        parts[0]
    } else {
        spec_join_lines(parts.drop_last()) + seq![10u8] + parts.last()
    }
}

/// Each line of the source, or its replacement where one is given.
pub open spec fn spec_resolved_parts(
    lines: Seq<Seq<u8>>,
    repl: Seq<Option<Seq<u8>>>,
) -> Seq<Seq<u8>>
    recommends
        repl.len() == lines.len(),
{
    Seq::new(
        lines.len(),
        |i: int|
            match repl[i] {
                Some(c) => c,
                None => lines[i],
            },
    )
}

/// Append all bytes of `src` to `out`.
fn append_bytes(out: &mut Vec<u8>, src: &Vec<u8>)
    ensures
        final(out)@ == old(out)@ + src@,
{
    let n: usize = src.len();
    let mut i: usize = 0;
    while i < n
        invariant
            n == src@.len(),
            0 <= i <= n,
            out@ == old(out)@ + src@.subrange(0, i as int),
        decreases n - i,
    {
        out.push(src[i]);
        proof {
            assert(old(out)@ + src@.subrange(0, (i + 1) as int) =~= out@);
        }
        i = i + 1;
    }
    proof {
        assert(old(out)@ + src@.subrange(0, n as int) =~= old(out)@ + src@);
    }
}

/// Splice a shader source back together: each line, or the content that
/// replaces it (the resolved include file), joined with single newlines.
/// The caller pairs the replacements with the lines; a slot without a
/// replacement keeps the original line.
pub fn splice_includes(lines: &Vec<Vec<u8>>, replacements: &Vec<Option<Vec<u8>>>) -> (r: Vec<u8>)
    requires
        replacements@.len() == lines@.len(),
    ensures
        r@ == spec_join_lines(
            spec_resolved_parts(spec_byte_views(lines@), spec_repl_views(replacements@)),
        ),
{
    let ghost parts = spec_resolved_parts(spec_byte_views(lines@), spec_repl_views(replacements@));
    let n: usize = lines.len();
    let mut out: Vec<u8> = Vec::new();
    let mut i: usize = 0;
    while i < n
        invariant
            n == lines@.len(),
            replacements@.len() == n,
            0 <= i <= n,
            parts == spec_resolved_parts(spec_byte_views(lines@), spec_repl_views(replacements@)),
            out@ == spec_join_lines(parts.take(i as int)),
        decreases n - i,
    {
        proof {
            assert(parts.take(i + 1).drop_last() =~= parts.take(i as int));
            assert(parts.take(i + 1).last() == parts[i as int]);
        }
        if i > 0 {
            out.push(10);
        }
        match &replacements[i] {
            Some(c) => {
                proof {
                    assert(parts[i as int] == c@);
                }
                append_bytes(&mut out, c);
            },
            None => {
                let line: &Vec<u8> = &lines[i];
                proof {
                    assert(parts[i as int] == line@);
                }
                append_bytes(&mut out, line);
            },
        }
        proof {
            if i == 0 {
                assert(out@ =~= spec_join_lines(parts.take(1int)));
            } else {
                assert(out@ =~= spec_join_lines(parts.take(i as int)) + seq![10u8] + parts[
                    i as int
                ]);
                assert(spec_join_lines(parts.take(i + 1)) == spec_join_lines(parts.take(i as int))
                    + seq![10u8] + parts[i as int]);
            }
        }
        i = i + 1;
    }
    proof {
        assert(parts.take(n as int) =~= parts);
    }
    out
}

} // verus!
