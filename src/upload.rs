use vstd::prelude::*;

verus! {

/// A byte range of the transfer buffer.
#[derive(Clone, Copy, Debug, PartialEq, Eq, Structural)]
pub struct UploadRegion {
    pub offset: u32,
    pub size: u32,
}

/// Where the vertex and index data sit in the transfer buffer: vertex bytes
/// at `[0, vertex.size)`, index bytes right after them, and the transfer
/// buffer exactly large enough for both.
#[derive(Clone, Copy, Debug, PartialEq, Eq, Structural)]
pub struct UploadLayout {
    pub vertex: UploadRegion,
    pub index: UploadRegion,
    pub transfer_size: u32,
}

/// The layout for `vertex_bytes` bytes of vertex data and `index_bytes`
/// bytes of index data.
pub open spec fn layout_for(vertex_bytes: int, index_bytes: int) -> UploadLayout {
    UploadLayout {
        vertex: UploadRegion { offset: 0, size: vertex_bytes as u32 },
        index: UploadRegion { offset: vertex_bytes as u32, size: index_bytes as u32 },
        transfer_size: (vertex_bytes + index_bytes) as u32,
    }
}

/// The bytes a region of `buffer` holds.
pub open spec fn region_bytes(buffer: Seq<u8>, region: UploadRegion) -> Seq<u8> {
    buffer.subrange(region.offset as int, region.offset + region.size)
}

/// The four bytes of `v`, least significant first.
pub open spec fn le_bytes(v: u32) -> Seq<u8> {
    seq![v as u8, (v >> 8u32) as u8, (v >> 16u32) as u8, (v >> 24u32) as u8]
}

/// The bytes of `indices`, four per index, least significant byte first.
pub open spec fn index_bytes(indices: Seq<u32>) -> Seq<u8>
    decreases indices.len(),
{
    if indices.len() == 0 {
        seq![]
    } else {
        index_bytes(indices.drop_last()) + le_bytes(indices.last())
    }
}

/// Plans the transfer buffer for the given amounts of vertex and index data.
/// Fails when the two together do not fit a 32-bit buffer size.
pub fn plan_upload(vertex_bytes: usize, index_bytes: usize) -> (r: Option<UploadLayout>)
    ensures
        r is Some <==> vertex_bytes + index_bytes <= u32::MAX,
        r is Some ==> r->Some_0 == layout_for(vertex_bytes as int, index_bytes as int),
{
    if vertex_bytes > u32::MAX as usize || index_bytes > u32::MAX as usize - vertex_bytes {
        return None;
    }
    let vertex_size = vertex_bytes as u32;
    let index_size = index_bytes as u32;
    Some(UploadLayout {
        vertex: UploadRegion { offset: 0, size: vertex_size },
        index: UploadRegion { offset: vertex_size, size: index_size },
        transfer_size: vertex_size + index_size,
    })
}

/// Encodes 32-bit indices as bytes, in the order the device reads them.
pub fn encode_indices(indices: &Vec<u32>) -> (r: Vec<u8>)
    requires
        4 * indices@.len() <= usize::MAX,
    ensures
        r@ == index_bytes(indices@),
        r@.len() == 4 * indices@.len(),
{
    let mut out: Vec<u8> = Vec::new();
    let mut i: usize = 0;
    while i < indices.len()
        invariant
            i <= indices@.len(),
            out@ == index_bytes(indices@.take(i as int)),
            out@.len() == 4 * i,
        decreases indices@.len() - i,
    {
        let v = indices[i];
        out.push(v as u8);
        out.push((v >> 8u32) as u8);
        out.push((v >> 16u32) as u8);
        out.push((v >> 24u32) as u8);
        assert(indices@.take(i + 1).drop_last() =~= indices@.take(i as int));
        assert(out@ =~= index_bytes(indices@.take(i as int)) + le_bytes(v));
        i = i + 1;
    }
    assert(indices@.take(i as int) =~= indices@);
    out
}

/// Fills the transfer buffer's contents: the vertex bytes at the vertex
/// region, the index bytes at the index region.
pub fn stage(layout: &UploadLayout, vertex_bytes: &[u8], index_bytes: &[u8]) -> (r: Vec<u8>)
    requires
        *layout == layout_for(vertex_bytes@.len() as int, index_bytes@.len() as int),
        vertex_bytes@.len() + index_bytes@.len() <= u32::MAX,
    ensures
        r@ == vertex_bytes@ + index_bytes@,
        r@.len() == layout.transfer_size,
        region_bytes(r@, layout.vertex) == vertex_bytes@,
        region_bytes(r@, layout.index) == index_bytes@,
{
    let mut out: Vec<u8> = Vec::with_capacity(layout.transfer_size as usize);
    out.extend_from_slice(vertex_bytes);
    out.extend_from_slice(index_bytes);
    assert(out@ =~= vertex_bytes@ + index_bytes@);
    proof {
        lemma_regions_read_back(vertex_bytes@, index_bytes@);
    }
    out
}

/// Once staged, each region of the transfer buffer holds exactly the data it
/// was planned for: the device-side copy of the vertex region yields the
/// vertex bytes, that of the index region the index bytes, and the two
/// regions cover the whole buffer without overlap.
pub proof fn lemma_regions_read_back(vertex_bytes: Seq<u8>, index_bytes: Seq<u8>)
    requires
        vertex_bytes.len() + index_bytes.len() <= u32::MAX,
    ensures
        ({
            let layout = layout_for(vertex_bytes.len() as int, index_bytes.len() as int);
            let staged = vertex_bytes + index_bytes;
            &&& staged.len() == layout.transfer_size
            &&& layout.vertex.offset == 0
            &&& layout.index.offset == layout.vertex.size
            &&& layout.index.offset + layout.index.size == layout.transfer_size
            &&& region_bytes(staged, layout.vertex) == vertex_bytes
            &&& region_bytes(staged, layout.index) == index_bytes
        }),
{
    let layout = layout_for(vertex_bytes.len() as int, index_bytes.len() as int);
    let staged = vertex_bytes + index_bytes;
    assert(region_bytes(staged, layout.vertex) =~= vertex_bytes);
    assert(region_bytes(staged, layout.index) =~= index_bytes);
}

} // verus!
