//! The shader library: precompiled shader binaries, loaded once at startup.
//!
//! A shader binary is an opaque word-aligned blob produced by an offline
//! compiler; the host reads the bytes and creates the GPU module. This module
//! checks the alignment contract, derives each shader's default name and
//! entry point from its source path, and hands out stable handles.

use vstd::prelude::*;

verus! {

/// Identifier of one entry of the static shader catalog.
#[derive(Debug, Clone, Copy, PartialEq, Eq, Hash, Structural)]
pub enum ShaderId {
    VertexShader,
    FragmentShader,
}

/// Number of entries of the static shader catalog.
pub const SHADER_COUNT: usize = 2;

/// The dense index a [`ShaderId`] occupies in the library.
pub open spec fn shader_index_spec(id: ShaderId) -> int {
    match id {
        ShaderId::VertexShader => 0,
        ShaderId::FragmentShader => 1,
    }
}

/// Executable form of [`shader_index_spec`].
pub fn shader_index(id: ShaderId) -> (r: usize)
    ensures
        r == shader_index_spec(id),
        r < SHADER_COUNT,
{
    match id {
        ShaderId::VertexShader => 0,
        ShaderId::FragmentShader => 1,
    }
}

/// The static catalog: each shader identifier with the relative path of its
/// compiled binary, in library order.
pub fn shader_catalog() -> (r: Vec<(ShaderId, String)>)
    ensures
        r@.len() == SHADER_COUNT,
        r@[0].0 == ShaderId::VertexShader,
        r@[0].1@ == "shader/vertex_shader.vsspirv"@,
        r@[1].0 == ShaderId::FragmentShader,
        r@[1].1@ == "shader/fragment_shader.fsspirv"@,
{
    let mut out: Vec<(ShaderId, String)> = Vec::new();
    out.push((ShaderId::VertexShader, "shader/vertex_shader.vsspirv".to_owned()));
    out.push((ShaderId::FragmentShader, "shader/fragment_shader.fsspirv".to_owned()));
    out
}

/// Why a shader binary was rejected. Fatal at startup.
#[derive(Debug, Clone, Copy, PartialEq, Eq, Structural)]
pub enum ShaderError {
    /// The binary is not a whole number of 32-bit words: either the wrong
    /// file was named or the file is corrupt.
    MisalignedBinary { len: usize },
}

/// Relies on `str::chars`: the characters of the string, in order.
#[verifier::external_body]
fn str_chars(s: &str) -> (r: Vec<char>)
    ensures
        r@ == s@,
{
    s.chars().collect()
}

/// Relies on `String`'s `FromIterator<char>`: the string of the characters,
/// in order.
#[verifier::external_body]
fn chars_string(v: &Vec<char>) -> (r: String)
    ensures
        r@ == v@,
{
    v.iter().collect()
}

/// Index just past the last `/` of a path, i.e. where its file name starts;
/// 0 when the path has no separator.
pub open spec fn after_last_slash(s: Seq<char>) -> int
    decreases s.len(),
{
    if s.len() == 0 {
        0
    } else if s[s.len() - 1] == '/' {
        s.len() as int
    } else {
        after_last_slash(s.drop_last())
    }
}

proof fn lemma_after_last_slash_bounds(s: Seq<char>)
    ensures
        0 <= after_last_slash(s) <= s.len(),
    decreases s.len(),
{
    if s.len() > 0 && s[s.len() - 1] != '/' {
        lemma_after_last_slash_bounds(s.drop_last());
    }
}

/// End of the file stem: the index of the last `.` strictly after `base`
/// within `s[..k]`, or the full length when there is none.
pub open spec fn stem_end_from(s: Seq<char>, base: int, k: int) -> int
    decreases k,
{
    if base < 0 || k <= base + 1 || k > s.len() {
        s.len() as int
    } else if s[k - 1] == '.' {
        k - 1
    } else {
        stem_end_from(s, base, k - 1)
    }
}

proof fn lemma_stem_end_bounds(s: Seq<char>, base: int, k: int)
    requires
        0 <= base <= s.len(),
    ensures
        base <= stem_end_from(s, base, k) <= s.len(),
    decreases k,
{
    if !(base < 0 || k <= base + 1 || k > s.len()) && s[k - 1] != '.' {
        lemma_stem_end_bounds(s, base, k - 1);
    }
}

/// The file stem of a path: its file name without the extension. The file
/// name is what follows the last `/`; the extension is what follows the file
/// name's last `.`, when it has one beyond its first character.
pub open spec fn file_stem(s: Seq<char>) -> Seq<char> {
    let base = after_last_slash(s);
    s.subrange(base, stem_end_from(s, base, s.len() as int))
}

/// Where the file name of a path starts.
fn find_base_start(chars: &Vec<char>) -> (r: usize)
    ensures
        r == after_last_slash(chars@),
        r <= chars@.len(),
{
    proof {
        lemma_after_last_slash_bounds(chars@);
        assert(chars@.subrange(0, chars@.len() as int) =~= chars@);
    }
    let mut i: usize = chars.len();
    while i > 0
        invariant
            i <= chars@.len(),
            after_last_slash(chars@) == after_last_slash(chars@.subrange(0, i as int)),
        decreases i,
    {
        if chars[i - 1] == '/' {
            proof {
                let p = chars@.subrange(0, i as int);
                assert(p[p.len() - 1] == '/');
            }
            return i;
        }
        proof {
            let p = chars@.subrange(0, i as int);
            assert(p.drop_last() =~= chars@.subrange(0, i - 1));
        }
        i = i - 1;
    }
    proof {
        assert(chars@.subrange(0, 0) =~= Seq::<char>::empty());
    }
    0
}

/// Where the file stem of a path ends, given where its file name starts.
fn find_stem_end(chars: &Vec<char>, base: usize) -> (r: usize)
    requires
        base <= chars@.len(),
    ensures
        r == stem_end_from(chars@, base as int, chars@.len() as int),
        base <= r <= chars@.len(),
{
    proof {
        lemma_stem_end_bounds(chars@, base as int, chars@.len() as int);
    }
    let len = chars.len();
    let mut k: usize = len;
    while k > 0 && k - 1 > base
        invariant
            k <= len,
            len == chars@.len(),
            base <= len,
            stem_end_from(chars@, base as int, len as int) == stem_end_from(
                chars@,
                base as int,
                k as int,
            ),
        decreases k,
    {
        if chars[k - 1] == '.' {
            return k - 1;
        }
        k = k - 1;
    }
    len
}

/// An owned copy of a byte buffer.
fn copy_bytes(v: &Vec<u8>) -> (r: Vec<u8>)
    ensures
        r@ == v@,
{
    let mut out: Vec<u8> = Vec::new();
    let mut i: usize = 0;
    while i < v.len()
        invariant
            i <= v@.len(),
            out@ == v@.subrange(0, i as int),
        decreases v.len() - i,
    {
        out.push(v[i]);
        proof {
            assert(v@.subrange(0, i + 1 as int)
                =~= v@.subrange(0, i as int).push(v@[i as int]));
        }
        i = i + 1;
    }
    proof {
        assert(v@.subrange(0, v@.len() as int) =~= v@);
    }
    out
}

/// The substring `chars[start..end]`, as a string.
fn chars_range_string(chars: &Vec<char>, start: usize, end: usize) -> (r: String)
    requires
        start <= end <= chars@.len(),
    ensures
        r@ == chars@.subrange(start as int, end as int),
{
    let mut sub: Vec<char> = Vec::new();
    let mut i: usize = start;
    while i < end
        invariant
            start <= i <= end <= chars@.len(),
            sub@ == chars@.subrange(start as int, i as int),
        decreases end - i,
    {
        sub.push(chars[i]);
        proof {
            assert(chars@.subrange(start as int, i + 1 as int)
                =~= chars@.subrange(start as int, i as int).push(chars@[i as int]));
        }
        i = i + 1;
    }
    chars_string(&sub)
}

/// A loaded shader: its display name, the path of its compiled source, the
/// entry point to invoke, and the word-aligned binary the host wraps in a
/// GPU module.
#[derive(Debug)]
pub struct Shader {
    pub name: String,
    pub source_path: String,
    pub entry_point: String,
    pub binary: Vec<u8>,
}

impl Shader {
    /// The binary honors the word-alignment contract of the shader file
    /// format.
    pub open spec fn wf(self) -> bool {
        self.binary@.len() % 4 == 0
    }

    /// Build a shader with everything derived from the source path: the file
    /// stem as name and `main` as entry point.
    pub fn new(source_path: &str, binary: Vec<u8>) -> (r: Result<Shader, ShaderError>)
        ensures
            r is Ok <==> binary@.len() % 4 == 0,
            r matches Ok(s) ==> s.wf() && s.name@ == file_stem(source_path@)
                && s.source_path@ == source_path@ && s.entry_point@ == "main"@
                && s.binary@ == binary@,
            r matches Err(e) ==> e == (ShaderError::MisalignedBinary { len: binary@.len() as usize }),
    {
        ShaderBuilder::new(source_path).build(binary)
    }

    /// Build a shader with every option given explicitly. The binary must be
    /// a whole number of 32-bit words; a file that fails this check was
    /// either the wrong file or corrupt, and is rejected.
    pub fn all(source_path: &str, name: &str, entry_point: &str, binary: Vec<u8>) -> (r: Result<
        Shader,
        ShaderError,
    >)
        ensures
            r is Ok <==> binary@.len() % 4 == 0,
            r matches Ok(s) ==> s.wf() && s.name@ == name@ && s.source_path@ == source_path@
                && s.entry_point@ == entry_point@ && s.binary@ == binary@,
            r matches Err(e) ==> e == (ShaderError::MisalignedBinary { len: binary@.len() as usize }),
    {
        if binary.len() % 4 != 0 {
            return Err(ShaderError::MisalignedBinary { len: binary.len() });
        }
        Ok(
            Shader {
                name: name.to_owned(),
                source_path: source_path.to_owned(),
                entry_point: entry_point.to_owned(),
                binary,
            },
        )
    }

    /// The shader's display name.
    pub fn name(&self) -> (r: &str)
        ensures
            r@ == self.name@,
    {
        self.name.as_str()
    }

    /// The path the shader binary was loaded from.
    pub fn source_path(&self) -> (r: &str)
        ensures
            r@ == self.source_path@,
    {
        self.source_path.as_str()
    }

    /// The entry point to invoke in the shader module.
    pub fn entry_point(&self) -> (r: &str)
        ensures
            r@ == self.entry_point@,
    {
        self.entry_point.as_str()
    }
}

/// A fluent configuration for building a [`Shader`]: name, source path and
/// entry point, each defaulting to a value derived from the source path.
#[derive(Debug)]
pub struct ShaderBuilder {
    pub name: String,
    pub source_path: String,
    pub entry_point: String,
}

impl ShaderBuilder {
    /// Start from a source path: the path's file stem becomes the name and
    /// `main` the entry point.
    pub fn new(source_path: &str) -> (r: ShaderBuilder)
        ensures
            r.name@ == file_stem(source_path@),
            r.source_path@ == source_path@,
            r.entry_point@ == "main"@,
    {
        let chars = str_chars(source_path);
        let base = find_base_start(&chars);
        let end = find_stem_end(&chars, base);
        let name = chars_range_string(&chars, base, end);
        ShaderBuilder {
            name,
            source_path: source_path.to_owned(),
            entry_point: "main".to_owned(),
        }
    }

    /// Replace the name.
    pub fn name(self, name: &str) -> (r: Self)
        ensures
            r.name@ == name@,
            r.source_path@ == self.source_path@,
            r.entry_point@ == self.entry_point@,
    {
        ShaderBuilder { name: name.to_owned(), ..self }
    }

    /// Replace the source path.
    pub fn source_path(self, source_path: &str) -> (r: Self)
        ensures
            r.name@ == self.name@,
            r.source_path@ == source_path@,
            r.entry_point@ == self.entry_point@,
    {
        ShaderBuilder { source_path: source_path.to_owned(), ..self }
    }

    /// Replace the entry point.
    pub fn entry_point(self, entry_point: &str) -> (r: Self)
        ensures
            r.name@ == self.name@,
            r.source_path@ == self.source_path@,
            r.entry_point@ == entry_point@,
    {
        ShaderBuilder { entry_point: entry_point.to_owned(), ..self }
    }

    /// Finish: attach the binary, enforcing the word-alignment contract.
    pub fn build(self, binary: Vec<u8>) -> (r: Result<Shader, ShaderError>)
        ensures
            r is Ok <==> binary@.len() % 4 == 0,
            r matches Ok(s) ==> s.wf() && s.name@ == self.name@
                && s.source_path@ == self.source_path@ && s.entry_point@ == self.entry_point@
                && s.binary@ == binary@,
            r matches Err(e) ==> e == (ShaderError::MisalignedBinary { len: binary@.len() as usize }),
    {
        if binary.len() % 4 != 0 {
            return Err(ShaderError::MisalignedBinary { len: binary.len() });
        }
        Ok(
            Shader {
                name: self.name,
                source_path: self.source_path,
                entry_point: self.entry_point,
                binary,
            },
        )
    }
}

/// The shader library: every catalog entry, loaded and immutable.
#[derive(Debug)]
pub struct ShaderLibrary {
    pub shaders: Vec<Shader>,
}

impl ShaderLibrary {
    /// One word-aligned shader per catalog entry.
    pub open spec fn wf(self) -> bool {
        &&& self.shaders@.len() == SHADER_COUNT
        &&& forall|i: int| 0 <= i < self.shaders@.len() ==> (#[trigger] self.shaders@[i]).wf()
    }

    /// Load every entry of the static catalog from the host-read binaries,
    /// given in catalog order. A misaligned binary fails the whole load.
    pub fn load_all(binaries: &Vec<Vec<u8>>) -> (r: Result<ShaderLibrary, ShaderError>)
        requires
            binaries@.len() == SHADER_COUNT,
        ensures
            r is Ok <==> (forall|i: int| 0 <= i < binaries@.len()
                ==> (#[trigger] binaries@[i])@.len() % 4 == 0),
            r matches Ok(lib) ==> lib.wf() && forall|i: int| 0 <= i < binaries@.len()
                ==> (#[trigger] lib.shaders@[i]).binary@ == binaries@[i]@
                    && lib.shaders@[i].entry_point@ == "main"@,
    {
        let catalog = shader_catalog();
        let mut shaders: Vec<Shader> = Vec::new();
        let mut i: usize = 0;
        while i < SHADER_COUNT
            invariant
                i <= SHADER_COUNT,
                catalog@.len() == SHADER_COUNT,
                binaries@.len() == SHADER_COUNT,
                shaders@.len() == i,
                forall|j: int| 0 <= j < i ==> (#[trigger] binaries@[j])@.len() % 4 == 0,
                forall|j: int| 0 <= j < i ==> (#[trigger] shaders@[j]).wf()
                    && shaders@[j].binary@ == binaries@[j]@
                    && shaders@[j].entry_point@ == "main"@,
            decreases SHADER_COUNT - i,
        {
            let binary = copy_bytes(&binaries[i]);
            let shader = match ShaderBuilder::new(catalog[i].1.as_str()).build(binary) {
                Ok(s) => s,
                Err(e) => {
                    return Err(e);
                },
            };
            shaders.push(shader);
            i = i + 1;
        }
        Ok(ShaderLibrary { shaders })
    }

    /// The loaded shader of a catalog identifier.
    pub fn get(&self, id: ShaderId) -> (r: &Shader)
        requires
            self.wf(),
        ensures
            *r == self.shaders@[shader_index_spec(id)],
            r.wf(),
    {
        let idx = shader_index(id);
        &self.shaders[idx]
    }
}

} // verus!
