use sdl3cube::{create_cube, encode_indices, plan_upload, stage, UploadRegion};

#[test]
fn plan_places_indices_after_vertices() {
    let layout = plan_upload(256, 144).unwrap();
    assert_eq!(layout.vertex, UploadRegion { offset: 0, size: 256 });
    assert_eq!(layout.index, UploadRegion { offset: 256, size: 144 });
    assert_eq!(layout.transfer_size, 400);
}

#[test]
fn plan_rejects_sizes_beyond_32_bits() {
    assert!(plan_upload(u32::MAX as usize, 0).is_some());
    assert!(plan_upload(u32::MAX as usize, 1).is_none());
    assert!(plan_upload(1, u32::MAX as usize).is_none());
}

#[test]
fn indices_encode_least_significant_byte_first() {
    assert_eq!(
        encode_indices(&vec![1, 0x0102_0304]),
        vec![1, 0, 0, 0, 4, 3, 2, 1]
    );
    assert!(encode_indices(&Vec::new()).is_empty());
}

#[test]
fn staged_regions_read_back_the_mesh() {
    let mut indices = Vec::new();
    let mut vertices = Vec::new();
    create_cube([0, 0, 0], 10, &mut indices, &mut vertices);
    let vertex_bytes: Vec<u8> = vertices
        .iter()
        .flat_map(|v| v.pos.iter().flat_map(|&c| (c as f32).to_ne_bytes()))
        .collect();
    let index_bytes = encode_indices(&indices);
    assert_eq!(index_bytes.len(), 144);
    let layout = plan_upload(vertex_bytes.len(), index_bytes.len()).unwrap();
    let staged = stage(&layout, &vertex_bytes, &index_bytes);
    assert_eq!(staged.len(), layout.transfer_size as usize);
    let read = |r: UploadRegion| staged[r.offset as usize..(r.offset + r.size) as usize].to_vec();
    assert_eq!(read(layout.vertex), vertex_bytes);
    assert_eq!(read(layout.index), index_bytes);
    assert_eq!(&staged[vertex_bytes.len()..vertex_bytes.len() + 4], &indices[0].to_le_bytes());
}
