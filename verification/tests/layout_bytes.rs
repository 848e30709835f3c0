use boids::layout::{
    buffer_size, compute_bindings, encode_boid, encode_boids, triangle_buffer_layout, Boid,
    StepMode, BOID_STRIDE, MESH_VERTEX_STRIDE, POSITION_OFFSET, VELOCITY_OFFSET,
};

#[test]
fn one_record_is_sixteen_little_endian_bytes() {
    let b = Boid { pos_x: 0x04030201, pos_y: 0xAABBCCDD, vel_x: 0x00000000, vel_y: 0xFF000000 };
    let bytes = encode_boid(&b);
    assert_eq!(
        bytes,
        vec![
            0x01, 0x02, 0x03, 0x04, 0xDD, 0xCC, 0xBB, 0xAA, 0x00, 0x00, 0x00, 0x00, 0x00, 0x00,
            0x00, 0xFF,
        ]
    );
}

#[test]
fn position_sits_at_offset_zero_velocity_at_eight() {
    let b = Boid { pos_x: 0x11111111, pos_y: 0x22222222, vel_x: 0x33333333, vel_y: 0x44444444 };
    let bytes = encode_boid(&b);
    assert_eq!(bytes.len() as u64, BOID_STRIDE);
    let p = POSITION_OFFSET as usize;
    let v = VELOCITY_OFFSET as usize;
    assert_eq!(&bytes[p..p + 8], &[0x11, 0x11, 0x11, 0x11, 0x22, 0x22, 0x22, 0x22]);
    assert_eq!(&bytes[v..v + 8], &[0x33, 0x33, 0x33, 0x33, 0x44, 0x44, 0x44, 0x44]);
}

#[test]
fn array_encoding_is_records_back_to_back() {
    let a = Boid { pos_x: 1, pos_y: 2, vel_x: 3, vel_y: 4 };
    let b = Boid { pos_x: 5, pos_y: 6, vel_x: 7, vel_y: 8 };
    let list = vec![a, b];
    let bytes = encode_boids(&list);
    assert_eq!(bytes.len(), 32);
    assert_eq!(&bytes[0..16], &encode_boid(&a)[..]);
    assert_eq!(&bytes[16..32], &encode_boid(&b)[..]);
}

#[test]
fn empty_array_encodes_to_no_bytes() {
    let list: Vec<Boid> = Vec::new();
    assert_eq!(encode_boids(&list).len(), 0);
}

#[test]
fn buffer_size_is_exactly_count_times_stride() {
    assert_eq!(buffer_size(0), 0);
    assert_eq!(buffer_size(1), 16);
    assert_eq!(buffer_size(40_000), 640_000);
    assert_eq!(buffer_size(u32::MAX), u32::MAX as u64 * 16);
}

#[test]
fn instance_stream_description() {
    let layout = Boid::desc();
    assert_eq!(layout.array_stride, BOID_STRIDE);
    assert_eq!(layout.step_mode, StepMode::Instance);
    assert_eq!(layout.attributes.len(), 2);
    assert_eq!(layout.attributes[0].offset, POSITION_OFFSET);
    assert_eq!(layout.attributes[0].shader_location, 0);
    assert_eq!(layout.attributes[1].offset, VELOCITY_OFFSET);
    assert_eq!(layout.attributes[1].shader_location, 1);
}

#[test]
fn mesh_stream_description() {
    let layout = triangle_buffer_layout();
    assert_eq!(layout.array_stride, MESH_VERTEX_STRIDE);
    assert_eq!(layout.step_mode, StepMode::Vertex);
    assert_eq!(layout.attributes.len(), 1);
    assert_eq!(layout.attributes[0].offset, 0);
    assert_eq!(layout.attributes[0].shader_location, 2);
}

#[test]
fn compute_bindings_advertise_exact_sizes() {
    let (read, write) = compute_bindings(4000);
    assert_eq!(read.binding, 0);
    assert!(read.read_only);
    assert_eq!(read.min_size, 64_000);
    assert_eq!(write.binding, 1);
    assert!(!write.read_only);
    assert_eq!(write.min_size, 64_000);
}
