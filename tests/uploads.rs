use learn_wgpu::geometry::{
    packed_layout, textured_vertex_layout, DrawCall, GeometryBuffer, GeometryError, GeometryUpload,
    VertexAttribute,
};
use learn_wgpu::texture::{DecodedImage, TextureError, TextureUpload};

const INDICES: [u16; 10] = [0, 1, 4, 1, 2, 4, 2, 3, 4, 0];

#[test]
fn textured_vertex_is_packed() {
    let l = textured_vertex_layout();
    assert_eq!(l.stride, 20);
    assert_eq!(
        l.attributes,
        vec![
            VertexAttribute { offset: 0, location: 0, components: 3 },
            VertexAttribute { offset: 12, location: 1, components: 2 },
        ]
    );
}

#[test]
fn packed_layout_of_three_attributes() {
    let l = packed_layout(&[4, 1, 2]).unwrap();
    assert_eq!(l.stride, 28);
    assert_eq!(l.attributes[1], VertexAttribute { offset: 16, location: 1, components: 1 });
    assert_eq!(l.attributes[2], VertexAttribute { offset: 20, location: 2, components: 2 });
    let empty = packed_layout(&[]).unwrap();
    assert_eq!(empty.stride, 0);
    assert!(empty.attributes.is_empty());
}

#[test]
fn geometry_upload_counts_and_bytes() {
    let u = GeometryUpload::prepare(vec![0u8; 100], 20, &INDICES).unwrap();
    assert_eq!(u.vertex_count(), 5);
    assert_eq!(u.index_count(), 10);
    assert_eq!(u.vertex_bytes().len(), 100);
    let mut expected = Vec::new();
    for i in INDICES {
        expected.extend_from_slice(&i.to_ne_bytes());
    }
    assert_eq!(u.index_bytes(), &expected);
}

#[test]
fn index_bytes_hold_large_values() {
    let u = GeometryUpload::prepare(vec![7u8; 4], 4, &[0x1234, 0xffff]).unwrap();
    let mut expected = Vec::new();
    expected.extend_from_slice(&0x1234u16.to_ne_bytes());
    expected.extend_from_slice(&0xffffu16.to_ne_bytes());
    assert_eq!(u.index_bytes(), &expected);
}

#[test]
fn geometry_upload_errors() {
    assert_eq!(GeometryUpload::prepare(Vec::new(), 20, &INDICES).err(), Some(GeometryError::Empty));
    assert_eq!(GeometryUpload::prepare(vec![0u8; 20], 20, &[]).err(), Some(GeometryError::Empty));
    assert_eq!(
        GeometryUpload::prepare(vec![0u8; 30], 20, &INDICES).err(),
        Some(GeometryError::PartialVertex)
    );
    assert_eq!(
        GeometryUpload::prepare(vec![0u8; 30], 0, &INDICES).err(),
        Some(GeometryError::PartialVertex)
    );
}

#[test]
fn uploaded_geometry_draws_every_index() {
    let u = GeometryUpload::prepare(vec![0u8; 100], 20, &INDICES).unwrap();
    let g = GeometryBuffer::new(&u, "vertices", "indices");
    assert_eq!(g.index_count(), 10);
    assert_eq!(g.vertex_count(), 5);
    assert_eq!(*g.vertex_buffer(), "vertices");
    assert_eq!(*g.index_buffer(), "indices");
    assert_eq!(g.full_draw(), DrawCall { indexed: true, start: 0, end: 10 });
}

fn image(width: u32, height: u32, len: usize) -> DecodedImage {
    DecodedImage { width, height, pixels: vec![9u8; len] }
}

#[test]
fn texture_rows_are_four_bytes_per_pixel() {
    let t = TextureUpload::prepare(Some(image(3, 2, 24)), 8192).unwrap();
    assert_eq!(t.width, 3);
    assert_eq!(t.height, 2);
    assert_eq!(t.bytes_per_row, 12);
    assert_eq!(t.rows_per_image, 2);
    assert_eq!(t.pixels.len(), 24);
}

#[test]
fn texture_decode_failure() {
    assert_eq!(TextureUpload::prepare(None, 8192).err(), Some(TextureError::Decode));
}

#[test]
fn texture_upload_failures() {
    assert_eq!(TextureUpload::prepare(Some(image(8193, 1, 4 * 8193)), 8192).err(), Some(TextureError::Upload));
    assert_eq!(TextureUpload::prepare(Some(image(1, 8193, 4 * 8193)), 8192).err(), Some(TextureError::Upload));
    assert_eq!(TextureUpload::prepare(Some(image(0, 1, 0)), 8192).err(), Some(TextureError::Upload));
    assert_eq!(TextureUpload::prepare(Some(image(3, 2, 23)), 8192).err(), Some(TextureError::Upload));
    assert!(TextureUpload::prepare(Some(image(8192, 1, 4 * 8192)), 8192).is_ok());
}

fn encoded_png(width: u32, height: u32, pixels: &[u8]) -> Vec<u8> {
    let img = image::RgbaImage::from_raw(width, height, pixels.to_vec()).unwrap();
    let mut out = std::io::Cursor::new(Vec::new());
    img.write_to(&mut out, image::ImageOutputFormat::Png).unwrap();
    out.into_inner()
}

#[test]
fn encoded_texture_is_decoded_and_laid_out() {
    let pixels = [1u8, 2, 3, 255, 10, 20, 30, 128];
    let t = TextureUpload::from_encoded(&encoded_png(2, 1, &pixels), 8192).unwrap();
    assert_eq!(t.width, 2);
    assert_eq!(t.height, 1);
    assert_eq!(t.bytes_per_row, 8);
    assert_eq!(t.rows_per_image, 1);
    assert_eq!(t.pixels, pixels.to_vec());
}

#[test]
fn encoded_texture_errors() {
    assert_eq!(TextureUpload::from_encoded(&[0u8, 1, 2, 3], 8192).err(), Some(TextureError::Decode));
    let pixels = [0u8; 12];
    assert_eq!(
        TextureUpload::from_encoded(&encoded_png(3, 1, &pixels), 2).err(),
        Some(TextureError::Upload)
    );
}
