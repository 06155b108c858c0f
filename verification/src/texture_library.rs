//! The texture library: a fixed catalog of textures decoded from KTX2
//! containers, loaded once at startup and immutable afterward.
//!
//! The host reads each catalogued container file; this module decodes it
//! through the `ktx2` parser and enforces the renderer's fixed expectations
//! on the header: RGBA8 sRGB pixels, no pixel depth, a single mip level, no
//! supercompression. Anything else is a fatal load error naming the violated
//! expectation. The host uploads the accepted pixel data and builds the GPU
//! binding state.

use vstd::prelude::*;

verus! {

/// Identifier of one entry of the static texture catalog.
#[derive(Debug, Clone, Copy, PartialEq, Eq, Hash, Structural)]
pub enum TextureId {
    CrabTexture,
}

/// Number of entries of the static texture catalog.
pub const TEXTURE_COUNT: usize = 1;

/// The dense index a [`TextureId`] occupies in the library.
pub open spec fn texture_index_spec(id: TextureId) -> int {
    match id {
        TextureId::CrabTexture => 0,
    }
}

/// Executable form of [`texture_index_spec`].
pub fn texture_index(id: TextureId) -> (r: usize)
    ensures
        r == texture_index_spec(id),
        r < TEXTURE_COUNT,
{
    match id {
        TextureId::CrabTexture => 0,
    }
}

/// The static catalog: each texture identifier with the relative path of its
/// container file, in library order.
pub fn texture_catalog() -> (r: Vec<(TextureId, String)>)
    ensures
        r@.len() == TEXTURE_COUNT,
        r@[0].0 == TextureId::CrabTexture,
        r@[0].1@ == "texture/crabdance-seamless-tile.ktx2"@,
{
    let mut out: Vec<(TextureId, String)> = Vec::new();
    out.push((TextureId::CrabTexture, "texture/crabdance-seamless-tile.ktx2".to_owned()));
    out
}

/// The pixel format every catalogued texture must declare:
/// `VK_FORMAT_R8G8B8A8_SRGB`.
pub const RGBA8_SRGB_FORMAT: u32 = 43;

/// Why a texture container was rejected. Every variant is fatal at startup.
#[derive(Debug, Clone, Copy, PartialEq, Eq, Structural)]
pub enum TextureError {
    /// The container's own length fields are inconsistent with its size.
    Malformed,
    /// The parser rejected the container.
    Parse,
    /// The header declares a pixel format other than RGBA8 sRGB.
    WrongFormat { found: Option<u32> },
    /// The header declares a nonzero pixel depth.
    NonzeroDepth { depth: u32 },
    /// The header declares more than the single mip level the renderer
    /// uploads.
    WrongLevelCount { count: u32 },
    /// The container uses a supercompression scheme.
    Supercompressed { scheme: u32 },
}

/// The little-endian 32-bit value at byte offset `i`.
pub open spec fn le32_at(d: Seq<u8>, i: int) -> int {
    d[i] + 0x100 * d[i + 1] + 0x1_0000 * d[i + 2] + 0x100_0000 * d[i + 3]
}

/// The little-endian 64-bit value at byte offset `i`.
pub open spec fn le64_at(d: Seq<u8>, i: int) -> int {
    le32_at(d, i) + 0x1_0000_0000 * le32_at(d, i + 4)
}

/// Number of entries of the container's level index: the declared level
/// count, or one when it declares zero.
pub open spec fn ktx2_level_entries(d: Seq<u8>) -> int {
    if le32_at(d, 40) == 0 {
        1
    } else {
        le32_at(d, 40)
    }
}

/// The container's level index arithmetic stays in range: every level's
/// offset plus length fits 64 bits, and the first level lies inside the
/// data. Trivially true when the index itself is out of range, which the
/// parser rejects before any arithmetic.
pub open spec fn ktx2_levels_safe(d: Seq<u8>) -> bool {
    let c = ktx2_level_entries(d);
    80 + 24 * c > d.len() || ((forall|i: int|
        0 <= i < c ==> #[trigger] le64_at(d, 80 + 24 * i) + le64_at(d, 80 + 24 * i + 8)
            <= u64::MAX) && le64_at(d, 80) + le64_at(d, 88) <= d.len())
}

/// The container's header and level-index arithmetic stays in range
/// everywhere the parser computes with it.
pub open spec fn ktx2_call_safe(d: Seq<u8>) -> bool {
    d.len() < 80 || (le32_at(d, 48) + le32_at(d, 52) <= u32::MAX && ktx2_levels_safe(d))
}

/// Read the little-endian 32-bit value at byte offset `off`.
fn read_le32(data: &Vec<u8>, off: usize) -> (r: u32)
    requires
        off + 4 <= data@.len(),
    ensures
        r == le32_at(data@, off as int),
{
    let n = data.len();
    assert(off + 4 <= n);
    let b0 = data[off] as u32;
    let b1 = data[off + 1] as u32;
    let b2 = data[off + 2] as u32;
    let b3 = data[off + 3] as u32;
    b0 + 0x100 * b1 + 0x1_0000 * b2 + 0x100_0000 * b3
}

/// Read the little-endian 64-bit value at byte offset `off`.
fn read_le64(data: &Vec<u8>, off: usize) -> (r: u64)
    requires
        off + 8 <= data@.len(),
    ensures
        r == le64_at(data@, off as int),
{
    let n = data.len();
    assert(off + 8 <= n);
    let lo = read_le32(data, off);
    let hi = read_le32(data, off + 4);
    lo as u64 + 0x1_0000_0000 * hi as u64
}

/// Decide [`ktx2_call_safe`]: whether the container's bytes can be handed to
/// the parser with every internal length computation in range.
pub fn ktx2_precheck(data: &Vec<u8>) -> (r: bool)
    ensures
        r == ktx2_call_safe(data@),
{
    if data.len() < 80 {
        return true;
    }
    let dfd_off = read_le32(data, 48);
    let dfd_len = read_le32(data, 52);
    if dfd_off as u64 + dfd_len as u64 > u32::MAX as u64 {
        return false;
    }
    let raw_count = read_le32(data, 40);
    let c: u64 = if raw_count == 0 {
        1
    } else {
        raw_count as u64
    };
    assert(c == ktx2_level_entries(data@));
    if 80 + 24 * c > data.len() as u64 {
        return true;
    }
    let n = data.len();
    let mut i: u64 = 0;
    while i < c
        invariant
            n == data@.len(),
            c == ktx2_level_entries(data@),
            80 + 24 * c <= data@.len(),
            i <= c,
            forall|j: int| 0 <= j < i ==> #[trigger] le64_at(data@, 80 + 24 * j) + le64_at(
                data@,
                80 + 24 * j + 8,
            ) <= u64::MAX,
        decreases c - i,
    {
        assert(80 + 24 * i + 16 <= n);
        let off = (80 + 24 * i) as usize;
        let o = read_le64(data, off);
        let l = read_le64(data, off + 8);
        if o > u64::MAX - l {
            proof {
                assert(le64_at(data@, 80 + 24 * (i as int)) + le64_at(
                    data@,
                    80 + 24 * (i as int) + 8,
                ) > u64::MAX);
            }
            return false;
        }
        i = i + 1;
    }
    let o0 = read_le64(data, 80);
    let l0 = read_le64(data, 88);
    if o0 as u128 + l0 as u128 > data.len() as u128 {
        return false;
    }
    true
}

/// What the parser reports of a container: the header fields the library
/// checks (formats carried as their numeric codes) and the bytes of the
/// first mip level.
#[derive(Debug, Clone)]
pub struct Ktx2Info {
    pub format: Option<u32>,
    pub pixel_depth: u32,
    pub level_count: u32,
    pub supercompression: Option<u32>,
    pub width: u32,
    pub height: u32,
    pub level0: Vec<u8>,
}

/// Spec-level image of [`Ktx2Info`].
pub struct Ktx2InfoView {
    pub format: Option<u32>,
    pub pixel_depth: u32,
    pub level_count: u32,
    pub supercompression: Option<u32>,
    pub width: u32,
    pub height: u32,
    pub level0: Seq<u8>,
}

impl View for Ktx2Info {
    type V = Ktx2InfoView;

    open spec fn view(&self) -> Ktx2InfoView {
        Ktx2InfoView {
            format: self.format,
            pixel_depth: self.pixel_depth,
            level_count: self.level_count,
            supercompression: self.supercompression,
            width: self.width,
            height: self.height,
            level0: self.level0@,
        }
    }
}

/// What decoding a container yields: a function of the bytes alone.
pub uninterp spec fn ktx2_decode_of(data: Seq<u8>) -> Option<Ktx2InfoView>;

/// Relies on `ktx2::Reader` (`new`, `header`, `levels`): deterministic
/// decoding of the container bytes, yielding the header fields this library
/// checks and the first mip level's bytes, or nothing when the parser
/// rejects the container.
#[verifier::external_body]
fn decode_ktx2(data: &Vec<u8>) -> (r: Option<Ktx2Info>)
    requires
        ktx2_call_safe(data@),
    ensures
        r matches Some(info) ==> ktx2_decode_of(data@) == Some(info@),
        r is None ==> ktx2_decode_of(data@) is None,
{
    let reader = ktx2::Reader::new(data.as_slice()).ok()?;
    let h = reader.header();
    let level0 = reader.levels().next()?.to_vec();
    Some(Ktx2Info {
        format: h.format.map(|f| f.0.get()),
        pixel_depth: h.pixel_depth,
        level_count: h.level_count,
        supercompression: h.supercompression_scheme.map(|s| s.0.get()),
        width: h.pixel_width,
        height: h.pixel_height,
        level0,
    })
}

/// The fixed expectations on a container header: RGBA8 sRGB pixels, zero
/// pixel depth, a single mip level, no supercompression.
pub open spec fn header_ok(i: Ktx2InfoView) -> bool {
    &&& i.format == Some(RGBA8_SRGB_FORMAT)
    &&& i.pixel_depth == 0
    &&& i.level_count == 1
    &&& i.supercompression is None
}

/// The error a header violating the fixed expectations is rejected with:
/// the first violated expectation, checked in a fixed order.
pub open spec fn header_error(i: Ktx2InfoView) -> TextureError {
    if i.format != Some(RGBA8_SRGB_FORMAT) {
        TextureError::WrongFormat { found: i.format }
    } else if i.pixel_depth != 0 {
        TextureError::NonzeroDepth { depth: i.pixel_depth }
    } else if i.level_count != 1 {
        TextureError::WrongLevelCount { count: i.level_count }
    } else {
        TextureError::Supercompressed { scheme: i.supercompression->0 }
    }
}

/// Check a decoded header against the fixed expectations, naming the first
/// violated one.
pub fn validate_header(info: &Ktx2Info) -> (r: Result<(), TextureError>)
    ensures
        r is Ok <==> header_ok(info@),
        r matches Err(e) ==> e == header_error(info@),
{
    let format_ok = match info.format {
        Some(f) => f == RGBA8_SRGB_FORMAT,
        None => false,
    };
    if !format_ok {
        return Err(TextureError::WrongFormat { found: info.format });
    }
    if info.pixel_depth != 0 {
        return Err(TextureError::NonzeroDepth { depth: info.pixel_depth });
    }
    if info.level_count != 1 {
        return Err(TextureError::WrongLevelCount { count: info.level_count });
    }
    match info.supercompression {
        Some(scheme) => Err(TextureError::Supercompressed { scheme }),
        None => Ok(()),
    }
}

/// One accepted texture: its dimensions and the RGBA8 pixel bytes of its
/// single mip level, ready for upload.
#[derive(Debug, Clone)]
pub struct Texture {
    pub width: u32,
    pub height: u32,
    pub data: Vec<u8>,
}

impl Texture {
    /// Decode a container and check it against the fixed expectations.
    /// Succeeds exactly when the container's arithmetic is in range, the
    /// parser accepts it, and its header meets every expectation.
    pub fn from_bytes(data: &Vec<u8>) -> (r: Result<Texture, TextureError>)
        ensures
            r is Ok <==> (ktx2_call_safe(data@) && (ktx2_decode_of(data@) matches Some(i)
                && header_ok(i))),
            r matches Ok(t) ==> (ktx2_decode_of(data@) matches Some(i) && t.width == i.width
                && t.height == i.height && t.data@ == i.level0),
            !ktx2_call_safe(data@) ==> r == Err::<Texture, TextureError>(TextureError::Malformed),
            ktx2_call_safe(data@) && ktx2_decode_of(data@) is None ==> r == Err::<
                Texture,
                TextureError,
            >(TextureError::Parse),
            ktx2_call_safe(data@) && (ktx2_decode_of(data@) matches Some(i) && !header_ok(i))
                ==> r == Err::<Texture, TextureError>(header_error(
                ktx2_decode_of(data@)->0,
            )),
    {
        if !ktx2_precheck(data) {
            return Err(TextureError::Malformed);
        }
        let info = match decode_ktx2(data) {
            Some(info) => info,
            None => {
                return Err(TextureError::Parse);
            },
        };
        match validate_header(&info) {
            Ok(_) => Ok(Texture { width: info.width, height: info.height, data: info.level0 }),
            Err(e) => Err(e),
        }
    }
}

/// The texture library: every catalog entry, decoded and immutable.
#[derive(Debug)]
pub struct TextureLibrary {
    pub textures: Vec<Texture>,
}

impl TextureLibrary {
    /// One accepted texture per catalog entry.
    pub open spec fn wf(self) -> bool {
        self.textures@.len() == TEXTURE_COUNT
    }

    /// Load every entry of the static catalog from the host-read container
    /// bytes, given in catalog order. Any rejected container fails the whole
    /// load: no partial library is usable.
    pub fn load_all(blobs: &Vec<Vec<u8>>) -> (r: Result<TextureLibrary, TextureError>)
        requires
            blobs@.len() == TEXTURE_COUNT,
        ensures
            r is Ok <==> (forall|i: int| 0 <= i < blobs@.len() ==> (ktx2_call_safe(
                (#[trigger] blobs@[i])@,
            ) && (ktx2_decode_of(blobs@[i]@) matches Some(inf) && header_ok(inf)))),
            r matches Ok(lib) ==> lib.wf() && forall|i: int| 0 <= i < blobs@.len()
                ==> (ktx2_decode_of(blobs@[i]@) matches Some(inf)
                    && (#[trigger] lib.textures@[i]).width == inf.width
                    && lib.textures@[i].height == inf.height
                    && lib.textures@[i].data@ == inf.level0),
    {
        let mut textures: Vec<Texture> = Vec::new();
        let mut i: usize = 0;
        while i < TEXTURE_COUNT
            invariant
                blobs@.len() == TEXTURE_COUNT,
                i <= TEXTURE_COUNT,
                textures@.len() == i,
                forall|j: int| 0 <= j < i ==> (ktx2_call_safe((#[trigger] blobs@[j])@)
                    && (ktx2_decode_of(blobs@[j]@) matches Some(inf) && header_ok(inf))),
                forall|j: int| 0 <= j < i ==> (ktx2_decode_of(blobs@[j]@) matches Some(inf)
                    && (#[trigger] textures@[j]).width == inf.width
                    && textures@[j].height == inf.height && textures@[j].data@ == inf.level0),
            decreases TEXTURE_COUNT - i,
        {
            let texture = match Texture::from_bytes(&blobs[i]) {
                Ok(t) => t,
                Err(e) => {
                    return Err(e);
                },
            };
            textures.push(texture);
            i = i + 1;
        }
        Ok(TextureLibrary { textures })
    }

    /// The decoded texture of a catalog identifier.
    pub fn get(&self, id: TextureId) -> (r: &Texture)
        requires
            self.wf(),
        ensures
            *r == self.textures@[texture_index_spec(id)],
    {
        let idx = texture_index(id);
        &self.textures[idx]
    }
}

} // verus!
