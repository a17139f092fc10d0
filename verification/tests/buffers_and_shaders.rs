use ash::vk;
use obsidian_graphish::renderer::buffer::{find_memory_type, MemoryTypeError};
use obsidian_graphish::renderer::pipeline::{decode_shader_code, PUSH_CONSTANT_SIZE, SPIRV_MAGIC_NUMBER};
use obsidian_graphish::renderer::vertex::{
    create_quad_indices, vertex_attribute_descriptions, vertex_binding_description,
    FORMAT_R32G32B32_SFLOAT, FORMAT_R32G32_SFLOAT, QUAD_VERTEX_COUNT, VERTEX_INPUT_RATE_VERTEX,
    VERTEX_STRIDE,
};

const HOST: u32 = 0b110;

#[test]
fn host_flags_match_ash() {
    let flags = vk::MemoryPropertyFlags::HOST_VISIBLE | vk::MemoryPropertyFlags::HOST_COHERENT;
    assert_eq!(HOST, flags.as_raw());
}

#[test]
fn memory_type_first_allowed_with_properties() {
    // type 0: device local; type 1: host visible+coherent but filtered out;
    // type 2: host visible+coherent+cached and allowed.
    let types = vec![0b1, 0b110, 0b1110, 0b110];
    assert_eq!(find_memory_type(0b1101, &types, HOST), Ok(2));
    assert_eq!(find_memory_type(0b1111, &types, HOST), Ok(1));
    assert_eq!(find_memory_type(0b0001, &types, HOST), Err(MemoryTypeError::NoSuitableMemoryType));
    assert_eq!(find_memory_type(0xffff_ffff, &Vec::new(), HOST), Err(MemoryTypeError::NoSuitableMemoryType));
    assert_eq!(find_memory_type(0b1, &types, 0), Ok(0));
}

#[test]
fn memory_type_last_slot() {
    let mut types = vec![0u32; 32];
    types[31] = HOST;
    assert_eq!(find_memory_type(1u32 << 31, &types, HOST), Ok(31));
}

fn le_bytes(words: &[u32]) -> Vec<u8> {
    words.iter().flat_map(|w| w.to_le_bytes()).collect()
}

fn be_bytes(words: &[u32]) -> Vec<u8> {
    words.iter().flat_map(|w| w.to_be_bytes()).collect()
}

#[test]
fn decodes_spirv_in_either_byte_order() {
    let words = [SPIRV_MAGIC_NUMBER, 0x0001_0000, 0xdead_beef];
    assert_eq!(decode_shader_code(&le_bytes(&words)), Some(words.to_vec()));
    assert_eq!(decode_shader_code(&be_bytes(&words)), Some(words.to_vec()));
}

#[test]
fn rejects_non_spirv() {
    assert_eq!(decode_shader_code(&[]), None);
    assert_eq!(decode_shader_code(&[3, 2, 0x23, 7, 0]), None);
    assert_eq!(decode_shader_code(&le_bytes(&[0x1234_5678, SPIRV_MAGIC_NUMBER])), None);
}

#[test]
fn push_constants_are_four_floats() {
    assert_eq!(PUSH_CONSTANT_SIZE as usize, std::mem::size_of::<[f32; 4]>());
}

#[test]
fn quad_indices() {
    let indices = create_quad_indices();
    assert_eq!(indices, vec![0, 1, 2, 2, 3, 0]);
    assert!(indices.iter().all(|&i| (i as usize) < QUAD_VERTEX_COUNT));
}

#[test]
fn vertex_layout() {
    assert_eq!(FORMAT_R32G32B32_SFLOAT, vk::Format::R32G32B32_SFLOAT.as_raw());
    assert_eq!(FORMAT_R32G32_SFLOAT, vk::Format::R32G32_SFLOAT.as_raw());
    assert_eq!(VERTEX_INPUT_RATE_VERTEX, vk::VertexInputRate::VERTEX.as_raw());
    assert_eq!(VERTEX_STRIDE as usize, std::mem::size_of::<[f32; 8]>());
    let binding = vertex_binding_description();
    assert_eq!((binding.binding, binding.stride), (0, 32));
    let attrs = vertex_attribute_descriptions();
    let summary: Vec<(u32, u32, i32, u32)> = attrs.iter().map(|a| (a.binding, a.location, a.format, a.offset)).collect();
    assert_eq!(summary, vec![(0, 0, 106, 0), (0, 1, 106, 12), (0, 2, 103, 24)]);
    assert_eq!(attrs[1].offset as usize, std::mem::size_of::<[f32; 3]>());
}
