//! Locating and decoding the zstd data and the shader sections of an NVIDIA shader
//! container ("NVuc"), all multi-byte fields being little-endian.
use vstd::prelude::*;

verus! {

/// A zstd frame magic (0xFD2FB528, little-endian: 28 b5 2f fd) starts at
/// byte `i` of `bin`.
pub open spec fn zstd_magic_at(bin: Seq<u8>, i: int) -> bool {
    &&& 0 <= i
    &&& i + 4 <= bin.len()
    &&& bin[i] == 0x28u8
    &&& bin[i + 1] == 0xb5u8
    &&& bin[i + 2] == 0x2fu8
    &&& bin[i + 3] == 0xfdu8
}

/// The first zstd frame magic at or after byte `i` of `bin`.
pub open spec fn first_zstd_magic_from(bin: Seq<u8>, i: int) -> Option<int>
    decreases bin.len() - i,
{
    if i < 0 || i + 4 > bin.len() {
        None
    } else if zstd_magic_at(bin, i) {
        Some(i)
    } else {
        first_zstd_magic_from(bin, i + 1)
    }
}

/// The first zstd frame magic in `bin`.
pub open spec fn first_zstd_magic(bin: Seq<u8>) -> Option<int> {
    first_zstd_magic_from(bin, 0)
}

/// `first_zstd_magic_from` finds the earliest magic at or after `i`.
pub proof fn lemma_first_zstd_magic_from(bin: Seq<u8>, i: int)
    requires
        0 <= i,
    ensures
        match first_zstd_magic_from(bin, i) {
            Some(k) => i <= k && zstd_magic_at(bin, k) && forall|j: int| i <= j < k ==> !zstd_magic_at(bin, j),
            None => forall|j: int| i <= j ==> !zstd_magic_at(bin, j),
        },
    decreases bin.len() - i,
{
    if i + 4 <= bin.len() && !zstd_magic_at(bin, i) {
        lemma_first_zstd_magic_from(bin, i + 1);
    }
}

/// Skipping a prefix free of magics does not change the first magic found.
proof fn lemma_first_zstd_magic_skip(bin: Seq<u8>, i: int)
    requires
        0 <= i,
        forall|j: int| 0 <= j < i ==> !zstd_magic_at(bin, j),
    ensures
        first_zstd_magic(bin) == first_zstd_magic_from(bin, i),
    decreases i,
{
    if i > 0 {
        lemma_first_zstd_magic_skip(bin, i - 1);
        if i - 1 + 4 > bin.len() {
            lemma_first_zstd_magic_from(bin, i);
        }
    }
}

/// Offset of the first zstd frame magic in `bin`, if there is one.
pub fn find_zstd_header(bin: &[u8]) -> (r: Option<usize>)
    ensures
        r matches Some(i) ==> first_zstd_magic(bin@) == Some(i as int),
        r is None ==> first_zstd_magic(bin@) is None,
        match r {
            Some(i) => zstd_magic_at(bin@, i as int) && forall|j: int| 0 <= j < i ==> !zstd_magic_at(bin@, j),
            None => forall|j: int| !zstd_magic_at(bin@, j),
        },
{
    proof {
        lemma_first_zstd_magic_from(bin@, 0);
    }
    if bin.len() < 4 {
        return None;
    }
    let end = bin.len() - 3;
    let mut i: usize = 0;
    while i < end
        invariant
            end == bin@.len() - 3,
            i <= end,
            forall|j: int| 0 <= j < i ==> !zstd_magic_at(bin@, j),
            first_zstd_magic(bin@) == first_zstd_magic_from(bin@, i as int),
        decreases end - i,
    {
        if bin[i] == 0x28u8 && bin[i + 1] == 0xb5u8 && bin[i + 2] == 0x2fu8 && bin[i + 3] == 0xfdu8 {
            return Some(i);
        }
        proof {
            lemma_first_zstd_magic_skip(bin@, i + 1);
        }
        i = i + 1;
    }
    proof {
        lemma_first_zstd_magic_from(bin@, i as int);
    }
    None
}

/// What `zstd::stream::decode_all` gives back for the bytes `data`: the
/// decompressed content of every frame through to the end of `data`, or
/// `None` where it reports an error (a frame that does not decode, or
/// trailing bytes that are not a frame).
pub uninterp spec fn zstd_decode_all(data: Seq<u8>) -> Option<Seq<u8>>;

/// Calls `zstd::stream::decode_all` on an in-memory slice, which decodes
/// every frame from the start of the slice through to its end. Claimed: it
/// succeeds exactly when `zstd_decode_all` is `Some`, and then returns
/// those bytes; the error itself is dropped.
#[verifier::external_body]
fn decode_zstd(data: &[u8]) -> (r: Option<Vec<u8>>)
    ensures
        r is Some <==> zstd_decode_all(data@) is Some,
        r matches Some(v) ==> v@ == zstd_decode_all(data@)->0,
{
    zstd::stream::decode_all(data).ok()
}

/// Why a zstd shader blob could not be produced.
#[derive(Debug, Clone, Copy, PartialEq, Eq, Structural)]
pub enum ZstdBlobError {
    /// A zstd magic was found but the bytes from there to the end did not
    /// decode as a run of zstd frames.
    DecodeFailed,
}

/// Decodes the zstd data that starts at the first zstd magic of `bin`:
/// every frame from there through to the end of `bin`. `Ok(None)` when
/// `bin` holds no magic; `Err` when those bytes do not decode, trailing
/// bytes that are not a frame included.
pub fn get_zstd_shader_blob(bin: &[u8]) -> (r: Result<Option<Vec<u8>>, ZstdBlobError>)
    ensures
        match first_zstd_magic(bin@) {
            None => r matches Ok(None),
            Some(off) => match zstd_decode_all(bin@.skip(off)) {
                Some(d) => r matches Ok(Some(v)) && v@ == d,
                None => r == Err::<Option<Vec<u8>>, ZstdBlobError>(ZstdBlobError::DecodeFailed),
            },
        },
{
    match find_zstd_header(bin) {
        None => Ok(None),
        Some(offset) => {
            let tail = vstd::slice::slice_subrange(bin, offset, bin.len());
            assert(tail@ == bin@.skip(offset as int));
            match decode_zstd(tail) {
                Some(v) => Ok(Some(v)),
                None => Err(ZstdBlobError::DecodeFailed),
            }
        },
    }
}

/// Magic number opening an NVuc container ("NVuc" read as a little-endian u32).
pub const NVUC_MAGIC: u32 = 0x6375564e;
/// Byte offset of the section table in an NVuc container.
pub const SECTION_TABLE_OFFSET: usize = 32;
/// Size in bytes of one entry of the section table.
pub const SECTION_ENTRY_SIZE: usize = 32;
/// Section id of the shader program header (SPH).
pub const SECTION_ID_HEADER: u16 = 0x2d;
/// Section id of the shader code.
pub const SECTION_ID_CODE: u16 = 0x1;
/// Section id of the mesh/geometry shader header.
pub const SECTION_ID_MESH_GS_HEADER: u16 = 0x4d;
/// Size of a shader program header up to SPH version 3.
pub const FERMI_HDR_SIZE: usize = 96;
/// Size of a shader program header from SPH version 4 on.
pub const TURING_HDR_SIZE: usize = 128;

/// Little-endian u16 at byte `i`.
pub open spec fn le_u16(b: Seq<u8>, i: int) -> int {
    b[i] as int + 256 * (b[i + 1] as int)
}

/// Little-endian u32 at byte `i`.
pub open spec fn le_u32(b: Seq<u8>, i: int) -> int {
    le_u16(b, i) + 65536 * le_u16(b, i + 2)
}

/// Little-endian u64 at byte `i`.
pub open spec fn le_u64(b: Seq<u8>, i: int) -> int {
    le_u32(b, i) + 4294967296 * le_u32(b, i + 4)
}

/// Number of entries of the section table.
pub open spec fn section_count(b: Seq<u8>) -> int {
    le_u16(b, 8)
}

/// Byte offset of section table entry `k`.
pub open spec fn section_entry(k: int) -> int {
    SECTION_TABLE_OFFSET + SECTION_ENTRY_SIZE * k
}

/// Id of section `k`.
pub open spec fn section_id(b: Seq<u8>, k: int) -> int {
    le_u16(b, section_entry(k))
}

/// Where section `k` lies, as the container records it.
pub open spec fn section_blob(b: Seq<u8>, k: int) -> ShaderBlobInfo {
    ShaderBlobInfo {
        offset: le_u64(b, section_entry(k) + 8) as usize,
        size: le_u32(b, section_entry(k) + 4) as usize,
    }
}

/// `b` is an NVuc container whose section table can be read: it holds the
/// magic and every entry of the table lies inside it.
pub open spec fn nvuc_well_formed(b: Seq<u8>) -> bool {
    &&& b.len() >= SECTION_TABLE_OFFSET
    &&& le_u32(b, 0) == NVUC_MAGIC
    &&& section_count(b) == 0 || SECTION_ENTRY_SIZE * section_count(b) + 16 <= b.len()
}

/// The last of the first `n` sections whose id is `id`.
pub open spec fn last_section(b: Seq<u8>, id: int, n: int) -> Option<int>
    decreases n,
{
    if n <= 0 {
        None
    } else if section_id(b, n - 1) == id {
        Some(n - 1)
    } else {
        last_section(b, id, n - 1)
    }
}

/// Where the last of the first `n` sections with id `id` lies.
pub open spec fn last_section_blob(b: Seq<u8>, id: int, n: int) -> Option<ShaderBlobInfo> {
    match last_section(b, id, n) {
        Some(k) => Some(section_blob(b, k)),
        None => None,
    }
}

/// The header, code and mesh/geometry header sections of a container (the
/// last section of each id wins); `None` when it has no code section.
pub open spec fn shader_data_offsets(b: Seq<u8>) -> Option<(Option<ShaderBlobInfo>, ShaderBlobInfo, Option<ShaderBlobInfo>)> {
    let n = section_count(b);
    match last_section_blob(b, SECTION_ID_CODE as int, n) {
        None => None,
        Some(code) => Some((
            last_section_blob(b, SECTION_ID_HEADER as int, n),
            code,
            last_section_blob(b, SECTION_ID_MESH_GS_HEADER as int, n),
        )),
    }
}

/// Position and length of a section inside a container.
#[derive(Debug)]
pub struct ShaderBlobInfo {
    pub offset: usize,
    pub size: usize,
}

/// Little-endian u16 at byte `i` of `b`.
fn read_u16_le(b: &[u8], i: usize) -> (r: u16)
    requires
        i + 2 <= b@.len(),
    ensures
        r == le_u16(b@, i as int),
{
    b[i] as u16 + (b[i + 1] as u16) * 256
}

/// Little-endian u32 at byte `i` of `b`.
fn read_u32_le(b: &[u8], i: usize) -> (r: u32)
    requires
        i + 4 <= b@.len(),
    ensures
        r == le_u32(b@, i as int),
{
    assert(b@.len() == b.len());
    let lo = read_u16_le(b, i);
    let hi = read_u16_le(b, i + 2);
    lo as u32 + (hi as u32) * 65536
}

/// Little-endian u64 at byte `i` of `b`.
fn read_u64_le(b: &[u8], i: usize) -> (r: u64)
    requires
        i + 8 <= b@.len(),
    ensures
        r == le_u64(b@, i as int),
{
    assert(b@.len() == b.len());
    let lo = read_u32_le(b, i);
    let hi = read_u32_le(b, i + 4);
    lo as u64 + (hi as u64) * 4294967296
}

/// Tells whether `b` is an NVuc container whose section table can be read.
pub fn check_nvuc_container(b: &[u8]) -> (r: bool)
    ensures
        r == nvuc_well_formed(b@),
{
    if b.len() < SECTION_TABLE_OFFSET {
        return false;
    }
    if read_u32_le(b, 0) != NVUC_MAGIC {
        return false;
    }
    let count = read_u16_le(b, 8) as usize;
    count == 0 || SECTION_ENTRY_SIZE * count + 16 <= b.len()
}

/// Reads the section table of an NVuc container and reports where the
/// shader header, the code and the mesh/geometry header lie. Of several
/// sections with one id the last counts; `None` when there is no code.
pub fn find_shader_data_offsets(nvuc_container: &[u8]) -> (r: Option<(Option<ShaderBlobInfo>, ShaderBlobInfo, Option<ShaderBlobInfo>)>)
    requires
        nvuc_well_formed(nvuc_container@),
    ensures
        r == shader_data_offsets(nvuc_container@),
{
    let ghost b = nvuc_container@;
    let n_sections = read_u16_le(nvuc_container, 8) as usize;
    let mut header_blob: Option<ShaderBlobInfo> = None;
    let mut mesh_gs_header_blob: Option<ShaderBlobInfo> = None;
    let mut code_blob: Option<ShaderBlobInfo> = None;
    let mut section_index: usize = 0;
    while section_index < n_sections
        invariant
            b == nvuc_container@,
            nvuc_well_formed(b),
            n_sections == section_count(b),
            section_index <= n_sections,
            header_blob == last_section_blob(b, SECTION_ID_HEADER as int, section_index as int),
            code_blob == last_section_blob(b, SECTION_ID_CODE as int, section_index as int),
            mesh_gs_header_blob == last_section_blob(b, SECTION_ID_MESH_GS_HEADER as int, section_index as int),
        decreases n_sections - section_index,
    {
        let entry = SECTION_TABLE_OFFSET + section_index * SECTION_ENTRY_SIZE;
        let section_id = read_u16_le(nvuc_container, entry);
        let section_size = read_u32_le(nvuc_container, entry + 4) as usize;
        let section_offset = read_u64_le(nvuc_container, entry + 8) as usize;
        if section_id == SECTION_ID_HEADER {
            header_blob = Some(ShaderBlobInfo { offset: section_offset, size: section_size });
        } else if section_id == SECTION_ID_CODE {
            code_blob = Some(ShaderBlobInfo { offset: section_offset, size: section_size });
        } else if section_id == SECTION_ID_MESH_GS_HEADER {
            mesh_gs_header_blob = Some(ShaderBlobInfo { offset: section_offset, size: section_size });
        }
        section_index = section_index + 1;
    }
    match code_blob {
        Some(code_blob) => Some((header_blob, code_blob, mesh_gs_header_blob)),
        None => None,
    }
}

/// SPH version recorded in the shader program header at byte `off`.
pub open spec fn sph_version(b: Seq<u8>, off: int) -> int {
    (le_u16(b, off) / 32) % 32
}

/// Size a shader program header of SPH version `version` has.
pub open spec fn expected_header_size(version: int) -> int {
    if version < 4 {
        FERMI_HDR_SIZE as int
    } else {
        TURING_HDR_SIZE as int
    }
}

/// The section `x` lies inside `b`.
pub open spec fn blob_in_bounds(b: Seq<u8>, x: ShaderBlobInfo) -> bool {
    x.offset + x.size <= b.len()
}

/// The bytes of section `x`.
pub open spec fn blob_bytes(b: Seq<u8>, x: ShaderBlobInfo) -> Seq<u8> {
    b.subrange(x.offset as int, x.offset + x.size)
}

/// The bytes of an optional section; empty when it is absent.
pub open spec fn optional_blob_bytes(b: Seq<u8>, x: Option<ShaderBlobInfo>) -> Seq<u8> {
    match x {
        Some(x) => blob_bytes(b, x),
        None => Seq::empty(),
    }
}

/// The shader program header `h` has the size its SPH version calls for,
/// lies inside `b` and is directly followed by the code section `c`.
pub open spec fn header_consistent(b: Seq<u8>, h: ShaderBlobInfo, c: ShaderBlobInfo) -> bool {
    &&& h.offset + 2 <= b.len()
    &&& h.size == expected_header_size(sph_version(b, h.offset as int))
    &&& h.offset + h.size == c.offset
    &&& blob_in_bounds(b, h)
}

/// The shader data of container `b` can be extracted: it has a code
/// section, a present header is consistent, and every present section lies
/// inside `b`.
pub open spec fn shader_data_available(b: Seq<u8>) -> bool {
    &&& nvuc_well_formed(b)
    &&& match shader_data_offsets(b) {
        None => false,
        Some((h, c, m)) => {
            &&& (h matches Some(hh) ==> header_consistent(b, hh, c))
            &&& blob_in_bounds(b, c)
            &&& (m matches Some(mm) ==> blob_in_bounds(b, mm))
        },
    }
}

/// The shader data of a container is available exactly when it is a
/// readable NVuc container with a code section inside it, any mesh/geometry
/// header inside it, and any shader program header inside it, directly
/// before the code, and 96 bytes long below SPH version 4 or 128 bytes
/// long from version 4 on.
pub proof fn lemma_shader_data_available(b: Seq<u8>)
    ensures
        shader_data_available(b) <==> {
            &&& nvuc_well_formed(b)
            &&& shader_data_offsets(b) matches Some((h, c, m))
            &&& c.offset + c.size <= b.len()
            &&& (m matches Some(mm) ==> mm.offset + mm.size <= b.len())
            &&& (h matches Some(hh) ==> {
                &&& hh.offset + 2 <= b.len()
                &&& hh.offset + hh.size <= b.len()
                &&& hh.offset + hh.size == c.offset
                &&& hh.size == (if (le_u16(b, hh.offset as int) / 32) % 32 < 4 { 96int } else { 128int })
            })
        },
{
}

/// Copies the bytes of section `x` out of `b`.
fn copy_blob(b: &[u8], x: &ShaderBlobInfo) -> (r: Vec<u8>)
    requires
        blob_in_bounds(b@, *x),
    ensures
        r@ == blob_bytes(b@, *x),
{
    assert(b@.len() == b.len());
    let part = vstd::slice::slice_subrange(b, x.offset, x.offset + x.size);
    vstd::slice::slice_to_vec(part)
}

/// Extracts the shader program header, the shader code and the mesh/geometry
/// header of an NVuc container; an absent header comes back empty.
pub fn get_shader_data(nvuc_container: &[u8]) -> (r: (Vec<u8>, Vec<u8>, Vec<u8>))
    requires
        shader_data_available(nvuc_container@),
    ensures
        ({
            let (h, c, m) = shader_data_offsets(nvuc_container@)->0;
            &&& r.0@ == optional_blob_bytes(nvuc_container@, h)
            &&& r.1@ == blob_bytes(nvuc_container@, c)
            &&& r.2@ == optional_blob_bytes(nvuc_container@, m)
        }),
{
    let offsets = find_shader_data_offsets(nvuc_container);
    let (header_info, shader_info, mesh_gs_header_info) = offsets.unwrap();
    let header_data = match header_info {
        Some(header_info) => copy_blob(nvuc_container, &header_info),
        None => Vec::new(),
    };
    let mesh_gs_header_data = match mesh_gs_header_info {
        Some(mesh_info) => copy_blob(nvuc_container, &mesh_info),
        None => Vec::new(),
    };
    let shader_data = copy_blob(nvuc_container, &shader_info);
    (header_data, shader_data, mesh_gs_header_data)
}

/// Tells whether section `x` lies inside `b`.
fn blob_fits(b: &[u8], x: &ShaderBlobInfo) -> (r: bool)
    ensures
        r == blob_in_bounds(b@, *x),
{
    x.offset <= b.len() && x.size <= b.len() - x.offset
}

/// Extracts the shader data like `get_shader_data`, after checking that it
/// can be extracted; `None` exactly when it cannot.
pub fn try_get_shader_data(nvuc_container: &[u8]) -> (r: Option<(Vec<u8>, Vec<u8>, Vec<u8>)>)
    ensures
        r is Some <==> shader_data_available(nvuc_container@),
        ({
            let b = nvuc_container@;
            r is Some <==> {
                &&& nvuc_well_formed(b)
                &&& shader_data_offsets(b) matches Some((h, c, m))
                &&& c.offset + c.size <= b.len()
                &&& (m matches Some(mm) ==> mm.offset + mm.size <= b.len())
                &&& (h matches Some(hh) ==> {
                    &&& hh.offset + 2 <= b.len()
                    &&& hh.offset + hh.size <= b.len()
                    &&& hh.offset + hh.size == c.offset
                    &&& hh.size == (if (le_u16(b, hh.offset as int) / 32) % 32 < 4 { 96int } else { 128int })
                })
            }
        }),
        r matches Some(t) ==> ({
            let (h, c, m) = shader_data_offsets(nvuc_container@)->0;
            &&& t.0@ == optional_blob_bytes(nvuc_container@, h)
            &&& t.1@ == blob_bytes(nvuc_container@, c)
            &&& t.2@ == optional_blob_bytes(nvuc_container@, m)
        }),
{
    assert(nvuc_container@.len() == nvuc_container.len());
    proof {
        lemma_shader_data_available(nvuc_container@);
    }
    if !check_nvuc_container(nvuc_container) {
        return None;
    }
    let (header_info, shader_info, mesh_gs_header_info) = match find_shader_data_offsets(nvuc_container) {
        Some(offsets) => offsets,
        None => return None,
    };
    if !blob_fits(nvuc_container, &shader_info) {
        return None;
    }
    match &header_info {
        Some(h) => {
            if !(h.offset <= nvuc_container.len() && nvuc_container.len() - h.offset >= 2) {
                return None;
            }
            let version = (read_u16_le(nvuc_container, h.offset) / 32) % 32;
            let expected = if version < 4 { FERMI_HDR_SIZE } else { TURING_HDR_SIZE };
            if h.size != expected || !blob_fits(nvuc_container, h) || h.offset + h.size != shader_info.offset {
                return None;
            }
        },
        None => {},
    }
    match &mesh_gs_header_info {
        Some(m) => {
            if !blob_fits(nvuc_container, m) {
                return None;
            }
        },
        None => {},
    }
    Some(get_shader_data(nvuc_container))
}

/// A present header and the code it precedes form one contiguous run of
/// the container: the header bytes followed by the code bytes are the
/// container from the header's offset to the end of the code.
pub proof fn lemma_header_precedes_code(b: Seq<u8>)
    requires
        shader_data_available(b),
        shader_data_offsets(b) matches Some((Some(_), _, _)),
    ensures
        ({
            let (h, c, m) = shader_data_offsets(b)->0;
            let hh = h->0;
            &&& blob_bytes(b, hh) + blob_bytes(b, c) == b.subrange(hh.offset as int, c.offset + c.size)
            &&& blob_bytes(b, hh).len() == FERMI_HDR_SIZE || blob_bytes(b, hh).len() == TURING_HDR_SIZE
        }),
{
    let (h, c, m) = shader_data_offsets(b)->0;
    let hh = h->0;
    assert(blob_bytes(b, hh) + blob_bytes(b, c) =~= b.subrange(hh.offset as int, c.offset + c.size));
}

/// Bytes that come before the NVuc container in a decoded remote shader blob.
pub const REMOTE_BLOB_PREFIX_LEN: usize = 8;
/// Bytes that come before the NVuc container in an NVVM file read from disk.
pub const LOCAL_FILE_PREFIX_LEN: usize = 4;

/// The NVuc container that follows a prefix of `prefix_len` bytes.
pub fn container_after_prefix(data: &[u8], prefix_len: usize) -> (r: Vec<u8>)
    requires
        prefix_len <= data@.len(),
    ensures
        r@ == data@.skip(prefix_len as int),
{
    assert(data@.len() == data.len());
    let rest = vstd::slice::slice_subrange(data, prefix_len, data.len());
    vstd::slice::slice_to_vec(rest)
}

} // verus!
