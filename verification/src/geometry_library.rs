//! The geometry library: a fixed catalog of meshes, loaded once at startup
//! and immutable afterward.
//!
//! The host parses each catalogued mesh file into raw attribute and index
//! arrays; this module converts them into the engine's interleaved vertex
//! format, enforces the 16-bit index ceiling, and reverses each index
//! triple's winding to match the renderer's front-face convention. The
//! resulting buffers are uploaded by the host; draws address them through
//! [`GeometryLibrary::get`].

use vstd::prelude::*;

use crate::data_types::Vertex;
use crate::algebra::{F32_ONE, F32_ZERO, Vec2, Vec4};

verus! {

/// Identifier of one entry of the static geometry catalog.
#[derive(Debug, Clone, Copy, PartialEq, Eq, Hash, Structural)]
pub enum GeometryId {
    TorusGeometry,
    SceneTestGeometry,
}

/// Number of entries of the static geometry catalog.
pub const GEOMETRY_COUNT: usize = 2;

/// The dense index a [`GeometryId`] occupies in the library.
pub open spec fn geometry_index_spec(id: GeometryId) -> int {
    match id {
        GeometryId::TorusGeometry => 0,
        GeometryId::SceneTestGeometry => 1,
    }
}

/// Executable form of [`geometry_index_spec`].
pub fn geometry_index(id: GeometryId) -> (r: usize)
    ensures
        r == geometry_index_spec(id),
        r < GEOMETRY_COUNT,
{
    match id {
        GeometryId::TorusGeometry => 0,
        GeometryId::SceneTestGeometry => 1,
    }
}

/// The catalog identifier at a dense library index.
pub open spec fn geometry_id_of_index_spec(i: int) -> GeometryId {
    if i == 0 {
        GeometryId::TorusGeometry
    } else {
        GeometryId::SceneTestGeometry
    }
}

/// Executable form of [`geometry_id_of_index_spec`].
pub fn geometry_id_of_index(i: usize) -> (r: GeometryId)
    requires
        i < GEOMETRY_COUNT,
    ensures
        r == geometry_id_of_index_spec(i as int),
        geometry_index_spec(r) == i,
{
    if i == 0 {
        GeometryId::TorusGeometry
    } else {
        GeometryId::SceneTestGeometry
    }
}

/// The static catalog: each geometry identifier with the relative path of its
/// source mesh file, in library order.
pub fn geometry_catalog() -> (r: Vec<(GeometryId, String)>)
    ensures
        r@.len() == GEOMETRY_COUNT,
        r@[0].0 == GeometryId::TorusGeometry,
        r@[0].1@ == "model/torus.obj"@,
        r@[1].0 == GeometryId::SceneTestGeometry,
        r@[1].1@ == "model/scene_test.obj"@,
        forall|id: GeometryId| r@[geometry_index_spec(id)].0 == id,
{
    let mut out: Vec<(GeometryId, String)> = Vec::new();
    out.push((GeometryId::TorusGeometry, "model/torus.obj".to_owned()));
    out.push((GeometryId::SceneTestGeometry, "model/scene_test.obj".to_owned()));
    out
}

/// Why a raw mesh was rejected at load time. Every variant is fatal at
/// startup: no partial library is usable.
#[derive(Debug, Clone, Copy, PartialEq, Eq, Structural)]
pub enum GeometryError {
    /// An index does not fit the fixed 16-bit index format.
    IndexTooLarge { value: u32 },
    /// The index count is not a whole number of triangles.
    BadIndexCount,
    /// Attribute arrays are missing, uneven, or disagree about the vertex
    /// count.
    BadVertexData,
    /// A buffer length does not fit the 32-bit counters the draw path uses.
    TooManyElements,
}

/// A parsed mesh as the host's file parser delivers it: flat position,
/// normal and texture-coordinate arrays (components as single-precision bit
/// patterns) and a flat index array.
#[derive(Debug, Clone)]
pub struct RawMesh {
    pub positions: Vec<u32>,
    pub normals: Vec<u32>,
    pub texcoords: Vec<u32>,
    pub indices: Vec<u32>,
}

/// All indices fit the 16-bit index format.
pub open spec fn indices_fit_u16(s: Seq<u32>) -> bool {
    forall|i: int| 0 <= i < s.len() ==> s[i] < 65536
}

/// The same indices, narrowed to 16 bits.
pub open spec fn indices_as_u16(s: Seq<u32>) -> Seq<u16> {
    Seq::new(s.len(), |i: int| s[i] as u16)
}

/// Each triple `[a, b, c]` replaced by `[c, b, a]`.
pub open spec fn reversed_triples(s: Seq<u16>) -> Seq<u16> {
    Seq::new(s.len(), |i: int| s[3 * (i / 3) + (2 - i % 3)])
}

/// Narrow a mesh's indices to the fixed 16-bit index format, failing on any
/// index the format cannot hold rather than truncating or wrapping it.
pub fn convert_indices(indices: &Vec<u32>) -> (r: Result<Vec<u16>, GeometryError>)
    ensures
        r is Ok <==> indices_fit_u16(indices@),
        r matches Ok(v) ==> v@ == indices_as_u16(indices@),
        r matches Err(e) ==> e matches GeometryError::IndexTooLarge { value } && value >= 65536
            && indices@.contains(value),
{
    let mut out: Vec<u16> = Vec::new();
    let mut i: usize = 0;
    while i < indices.len()
        invariant
            i <= indices.len(),
            out@ == indices_as_u16(indices@.subrange(0, i as int)),
            forall|j: int| 0 <= j < i ==> indices@[j] < 65536,
        decreases indices.len() - i,
    {
        let v = indices[i];
        if v >= 65536 {
            return Err(GeometryError::IndexTooLarge { value: v });
        }
        out.push(v as u16);
        proof {
            assert(indices_as_u16(indices@.subrange(0, i + 1 as int))
                =~= indices_as_u16(indices@.subrange(0, i as int)).push(indices@[i as int] as u16));
        }
        i = i + 1;
    }
    proof {
        assert(indices@.subrange(0, indices@.len() as int) =~= indices@);
    }
    Ok(out)
}

/// Reverse the winding of every triangle: each index triple `[a, b, c]`
/// becomes `[c, b, a]`. This compensates for the handedness mismatch between
/// imported meshes and the renderer's front-face culling configuration.
pub fn reverse_indices(indices: &mut Vec<u16>)
    requires
        old(indices)@.len() % 3 == 0,
    ensures
        final(indices)@ == reversed_triples(old(indices)@),
{
    let ghost orig = indices@;
    let mut t: usize = 0;
    let n = indices.len();
    while t < n / 3
        invariant
            n == orig.len(),
            n == indices@.len(),
            n % 3 == 0,
            t <= n / 3,
            forall|i: int| 0 <= i < 3 * t ==> indices@[i] == reversed_triples(orig)[i],
            forall|i: int| 3 * t <= i < n ==> indices@[i] == orig[i],
        decreases n / 3 - t,
    {
        let a = indices[3 * t];
        let c = indices[3 * t + 2];
        indices[3 * t] = c;
        indices[3 * t + 2] = a;
        t = t + 1;
    }
    proof {
        assert(indices@ =~= reversed_triples(orig));
    }
}

/// The attribute arrays describe the same `n` vertices: three position and
/// normal components and two texture components per vertex.
pub open spec fn attributes_consistent(p: Seq<u32>, n: Seq<u32>, t: Seq<u32>) -> bool {
    &&& p.len() % 3 == 0
    &&& n.len() == p.len()
    &&& t.len() == (p.len() / 3) * 2
}

/// The interleaved vertex stream of consistent attribute arrays: positions
/// homogenized with `w` = 1, normals with `w` = 0.
pub open spec fn interleaved_vertices(p: Seq<u32>, n: Seq<u32>, t: Seq<u32>) -> Seq<Vertex> {
    Seq::new(
        p.len() / 3,
        |k: int| Vertex {
            position: Vec4 { x: p[3 * k], y: p[3 * k + 1], z: p[3 * k + 2], w: F32_ONE },
            normal: Vec4 { x: n[3 * k], y: n[3 * k + 1], z: n[3 * k + 2], w: F32_ZERO },
            texture: Vec2 { x: t[2 * k], y: t[2 * k + 1] },
        },
    )
}

/// Zip a mesh's flat attribute arrays into the engine's interleaved vertex
/// format.
pub fn interleave_vertices(p: &Vec<u32>, n: &Vec<u32>, t: &Vec<u32>) -> (r: Result<
    Vec<Vertex>,
    GeometryError,
>)
    ensures
        r is Ok <==> attributes_consistent(p@, n@, t@),
        r matches Ok(v) ==> v@ == interleaved_vertices(p@, n@, t@),
        r matches Err(e) ==> e is BadVertexData,
{
    if p.len() % 3 != 0 || n.len() != p.len() || t.len() != (p.len() / 3) * 2 {
        return Err(GeometryError::BadVertexData);
    }
    let count = p.len() / 3;
    let plen = p.len();
    let mut out: Vec<Vertex> = Vec::new();
    let mut k: usize = 0;
    while k < count
        invariant
            plen == p@.len(),
            count == p@.len() / 3,
            attributes_consistent(p@, n@, t@),
            k <= count,
            out@ == interleaved_vertices(p@, n@, t@).subrange(0, k as int),
        decreases count - k,
    {
        assert(3 * k + 2 < plen);
        assert(2 * k + 1 < t@.len());
        let v = Vertex {
            position: Vec4 { x: p[3 * k], y: p[3 * k + 1], z: p[3 * k + 2], w: F32_ONE },
            normal: Vec4 { x: n[3 * k], y: n[3 * k + 1], z: n[3 * k + 2], w: F32_ZERO },
            texture: Vec2 { x: t[2 * k], y: t[2 * k + 1] },
        };
        out.push(v);
        proof {
            assert(interleaved_vertices(p@, n@, t@).subrange(0, k + 1 as int)
                =~= interleaved_vertices(p@, n@, t@).subrange(0, k as int).push(
                interleaved_vertices(p@, n@, t@)[k as int],
            ));
        }
        k = k + 1;
    }
    proof {
        assert(interleaved_vertices(p@, n@, t@).subrange(0, count as int)
            =~= interleaved_vertices(p@, n@, t@));
    }
    Ok(out)
}

/// A raw mesh that the library accepts in full.
pub open spec fn mesh_acceptable(raw: RawMesh) -> bool {
    &&& indices_fit_u16(raw.indices@)
    &&& raw.indices@.len() % 3 == 0
    &&& attributes_consistent(raw.positions@, raw.normals@, raw.texcoords@)
    &&& raw.positions@.len() / 3 <= u32::MAX
    &&& raw.indices@.len() <= u32::MAX
}

/// One loaded mesh: the interleaved vertex stream, the winding-reversed
/// 16-bit index stream, and the counts a draw call addresses them by.
#[derive(Debug, Clone)]
pub struct MeshData {
    pub vertex_len: u32,
    pub index_len: u32,
    pub vertices: Vec<Vertex>,
    pub indices: Vec<u16>,
}

impl MeshData {
    /// The counts agree with the streams and the indices form whole
    /// triangles.
    pub open spec fn wf(self) -> bool {
        &&& self.vertex_len == self.vertices@.len()
        &&& self.index_len == self.indices@.len()
        &&& self.indices@.len() % 3 == 0
    }

    /// The loaded form of an accepted raw mesh.
    pub open spec fn loaded_from(self, raw: RawMesh) -> bool {
        &&& self.vertices@ == interleaved_vertices(raw.positions@, raw.normals@, raw.texcoords@)
        &&& self.indices@ == reversed_triples(indices_as_u16(raw.indices@))
        &&& self.vertex_len == raw.positions@.len() / 3
        &&& self.index_len == raw.indices@.len()
    }

    /// Convert one parsed mesh into its GPU-ready form: narrow the indices to
    /// 16 bits (failing on any wider index), reverse each triangle's winding,
    /// and interleave the vertex attributes.
    pub fn from_arrays(raw: &RawMesh) -> (r: Result<MeshData, GeometryError>)
        ensures
            r is Ok <==> mesh_acceptable(*raw),
            r matches Ok(m) ==> m.wf() && m.loaded_from(*raw),
            !indices_fit_u16(raw.indices@) ==> (r matches Err(e)
                && (e matches GeometryError::IndexTooLarge { value } && value >= 65536
                && raw.indices@.contains(value))),
            indices_fit_u16(raw.indices@) && raw.indices@.len() % 3 != 0
                ==> r == Err::<MeshData, GeometryError>(GeometryError::BadIndexCount),
            indices_fit_u16(raw.indices@) && raw.indices@.len() % 3 == 0
                && !attributes_consistent(raw.positions@, raw.normals@, raw.texcoords@)
                ==> r == Err::<MeshData, GeometryError>(GeometryError::BadVertexData),
            indices_fit_u16(raw.indices@) && raw.indices@.len() % 3 == 0
                && attributes_consistent(raw.positions@, raw.normals@, raw.texcoords@)
                && !mesh_acceptable(*raw)
                ==> r == Err::<MeshData, GeometryError>(GeometryError::TooManyElements),
    {
        let mut indices = convert_indices(&raw.indices)?;
        if indices.len() % 3 != 0 {
            return Err(GeometryError::BadIndexCount);
        }
        reverse_indices(&mut indices);
        let vertices = interleave_vertices(&raw.positions, &raw.normals, &raw.texcoords)?;
        if vertices.len() > u32::MAX as usize || indices.len() > u32::MAX as usize {
            return Err(GeometryError::TooManyElements);
        }
        Ok(
            MeshData {
                vertex_len: vertices.len() as u32,
                index_len: indices.len() as u32,
                vertices,
                indices,
            },
        )
    }

    /// The vertex stream as flat buffer words, ready for upload.
    pub fn vertex_buffer_words(&self) -> (r: Vec<u32>)
        ensures
            r@.len() == self.vertices@.len() * 10,
            forall|k: int| 0 <= k < self.vertices@.len()
                ==> r@.subrange(10 * k, 10 * k + 10) == self.vertices@[k].words(),
    {
        let mut out: Vec<u32> = Vec::new();
        let mut k: usize = 0;
        while k < self.vertices.len()
            invariant
                k <= self.vertices@.len(),
                out@.len() == k * 10,
                forall|j: int| 0 <= j < k
                    ==> out@.subrange(10 * j, 10 * j + 10) == self.vertices@[j].words(),
            decreases self.vertices.len() - k,
        {
            let ghost pre = out@;
            let v = &self.vertices[k];
            out.push(v.position.x);
            out.push(v.position.y);
            out.push(v.position.z);
            out.push(v.position.w);
            out.push(v.normal.x);
            out.push(v.normal.y);
            out.push(v.normal.z);
            out.push(v.normal.w);
            out.push(v.texture.x);
            out.push(v.texture.y);
            proof {
                assert(out@ =~= pre + self.vertices@[k as int].words());
                assert forall|j: int| 0 <= j < k + 1 implies out@.subrange(10 * j, 10 * j + 10)
                    == self.vertices@[j].words() by {
                    if j < k {
                        assert(out@.subrange(10 * j, 10 * j + 10)
                            =~= pre.subrange(10 * j, 10 * j + 10));
                    } else {
                        assert(out@.subrange(10 * j, 10 * j + 10)
                            =~= self.vertices@[j].words());
                    }
                }
            }
            k = k + 1;
        }
        out
    }
}

/// The geometry library: every catalog entry, loaded and immutable.
#[derive(Debug)]
pub struct GeometryLibrary {
    pub meshes: Vec<MeshData>,
}

impl GeometryLibrary {
    /// One well-formed mesh per catalog entry.
    pub open spec fn wf(self) -> bool {
        &&& self.meshes@.len() == GEOMETRY_COUNT
        &&& forall|i: int| 0 <= i < self.meshes@.len() ==> #[trigger] self.meshes@[i].wf()
    }

    /// Load every entry of the static catalog from the host-parsed raw
    /// meshes, given in catalog order. Any rejected mesh fails the whole
    /// load: no partial library is usable.
    pub fn load_all(raws: &Vec<RawMesh>) -> (r: Result<GeometryLibrary, GeometryError>)
        requires
            raws@.len() == GEOMETRY_COUNT,
        ensures
            r is Ok <==> (forall|i: int| 0 <= i < raws@.len() ==> mesh_acceptable(#[trigger] raws@[i])),
            r matches Ok(lib) ==> lib.wf() && forall|i: int| 0 <= i < raws@.len()
                ==> (#[trigger] lib.meshes@[i]).loaded_from(raws@[i]),
    {
        let mut meshes: Vec<MeshData> = Vec::new();
        let mut i: usize = 0;
        while i < raws.len()
            invariant
                raws@.len() == GEOMETRY_COUNT,
                i <= raws@.len(),
                meshes@.len() == i,
                forall|j: int| 0 <= j < i ==> mesh_acceptable(#[trigger] raws@[j]),
                forall|j: int| 0 <= j < i ==> (#[trigger] meshes@[j]).wf(),
                forall|j: int| 0 <= j < i ==> (#[trigger] meshes@[j]).loaded_from(raws@[j]),
            decreases raws.len() - i,
        {
            let mesh = MeshData::from_arrays(&raws[i])?;
            meshes.push(mesh);
            i = i + 1;
        }
        Ok(GeometryLibrary { meshes })
    }

    /// The loaded mesh of a catalog identifier. The library always holds
    /// every identifier; looking one up in a library that was not fully
    /// loaded is a programming error, which well-formedness excludes.
    pub fn get(&self, id: GeometryId) -> (r: &MeshData)
        requires
            self.wf(),
        ensures
            *r == self.meshes@[geometry_index_spec(id)],
            r.wf(),
    {
        let idx = geometry_index(id);
        &self.meshes[idx]
    }
}

} // verus!
