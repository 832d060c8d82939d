use playground_wgpu::buffer::{copy_bytes, Buffer, BufferUsage};
use playground_wgpu::upload::{upload_indices, upload_vertices, Geometry};

const INDICES: &[u16] = &[0, 1, 4, 1, 2, 4, 2, 3, 4];

fn native_bytes(indices: &[u16]) -> Vec<u8> {
    let mut bytes = Vec::new();
    for index in indices {
        bytes.extend_from_slice(&index.to_ne_bytes());
    }
    bytes
}

fn vertex_bytes(vertices: &[[f32; 5]]) -> Vec<u8> {
    let mut bytes = Vec::new();
    for vertex in vertices {
        for value in vertex {
            bytes.extend_from_slice(&value.to_ne_bytes());
        }
    }
    bytes
}

#[test]
fn vertex_upload_round_trips() {
    let data = vertex_bytes(&[
        [-0.0868241, 0.49240386, 0.0, 0.4131759, 0.00759614],
        [-0.49513406, 0.06958647, 0.0, 0.0048659444, 0.43041354],
        [-0.21918549, -0.44939706, 0.0, 0.28081453, 0.949397057],
        [0.35966998, -0.3473291, 0.0, 0.85967, 0.84732911],
        [0.44147372, 0.2347359, 0.0, 0.9414737, 0.2652641],
    ]);
    assert_eq!(data.len(), 100);
    let buffer = upload_vertices(&data);
    assert_eq!(buffer.usage(), BufferUsage::Vertex);
    assert_eq!(buffer.contents(), data.as_slice());
    assert_eq!(buffer.size(), 100);
}

#[test]
fn index_upload_round_trips() {
    let buffer = upload_indices(INDICES);
    assert_eq!(buffer.usage(), BufferUsage::Index);
    assert_eq!(buffer.size(), 18);
    assert_eq!(buffer.contents(), native_bytes(INDICES).as_slice());
    let read_back: Vec<u16> = buffer
        .contents()
        .chunks(2)
        .map(|pair| u16::from_ne_bytes([pair[0], pair[1]]))
        .collect();
    assert_eq!(read_back, INDICES);
}

#[test]
fn index_upload_keeps_both_bytes_of_each_index() {
    let indices = [0x0102u16, 0xfffe, 0x00ff, 0xff00, 0];
    let buffer = upload_indices(&indices);
    assert_eq!(buffer.contents(), native_bytes(&indices).as_slice());
    let low_first = buffer.contents() == [0x02, 0x01, 0xfe, 0xff, 0xff, 0x00, 0x00, 0xff, 0, 0];
    let high_first = buffer.contents() == [0x01, 0x02, 0xff, 0xfe, 0x00, 0xff, 0xff, 0x00, 0, 0];
    assert!(low_first || high_first);
    assert_eq!(low_first, u16::from_ne_bytes([1, 0]) == 1);
}

#[test]
fn empty_uploads_are_empty_buffers() {
    let vertices = upload_vertices(&[]);
    assert_eq!(vertices.usage(), BufferUsage::Vertex);
    assert_eq!(vertices.size(), 0);
    let indices = upload_indices(&[]);
    assert_eq!(indices.usage(), BufferUsage::Index);
    assert_eq!(indices.size(), 0);
}

#[test]
fn geometry_counts_its_indices() {
    let data = vec![7u8; 100];
    let geometry = Geometry::new(&data, INDICES).unwrap();
    assert_eq!(geometry.num_indices(), 9);
    assert_eq!(geometry.vertex_buffer().usage(), BufferUsage::Vertex);
    assert_eq!(geometry.vertex_buffer().contents(), data.as_slice());
    assert_eq!(geometry.index_buffer().usage(), BufferUsage::Index);
    assert_eq!(geometry.index_buffer().contents(), native_bytes(INDICES).as_slice());
}

#[test]
fn geometry_without_indices_draws_nothing() {
    let geometry = Geometry::new(&[1, 2, 3], &[]).unwrap();
    assert_eq!(geometry.num_indices(), 0);
    assert_eq!(geometry.index_buffer().size(), 0);
}

#[test]
fn buffers_hold_copies() {
    let mut data = vec![1u8, 2, 3];
    let buffer = Buffer::with_data(&data, BufferUsage::CopySrc);
    data[0] = 9;
    assert_eq!(buffer.contents(), [1, 2, 3]);
    let owned = Buffer::from_vec(data, BufferUsage::Index);
    assert_eq!(owned.contents(), [9, 2, 3]);
    assert_eq!(owned.usage(), BufferUsage::Index);
    assert_eq!(copy_bytes(&[4, 5, 6]), vec![4, 5, 6]);
    assert_eq!(copy_bytes(&[]), Vec::<u8>::new());
}
