use foxtail::rendering::gl;
use foxtail::rendering::mesh::{Mesh, STRIDE, WORDS_PER_VERTEX};
use foxtail::rendering::texture::{TextureFiltering, TextureFormat, LOD_BIAS, MAX_LEVEL};
use foxtail::rendering::{gl_error, Renderer, BACKGROUND};

#[test]
fn error_codes_match_the_driver_bindings() {
    assert_eq!(gl::NO_ERROR, glow::NO_ERROR);
    assert_eq!(gl::INVALID_ENUM, glow::INVALID_ENUM);
    assert_eq!(gl::INVALID_VALUE, glow::INVALID_VALUE);
    assert_eq!(gl::INVALID_OPERATION, glow::INVALID_OPERATION);
    assert_eq!(gl::STACK_OVERFLOW, glow::STACK_OVERFLOW);
    assert_eq!(gl::STACK_UNDERFLOW, glow::STACK_UNDERFLOW);
    assert_eq!(gl::OUT_OF_MEMORY, glow::OUT_OF_MEMORY);
    assert_eq!(gl::INVALID_FRAMEBUFFER_OPERATION, glow::INVALID_FRAMEBUFFER_OPERATION);
}

#[test]
fn state_enumerants_match_the_driver_bindings() {
    assert_eq!(gl::COLOR_BUFFER_BIT, glow::COLOR_BUFFER_BIT);
    assert_eq!(gl::DEPTH_BUFFER_BIT, glow::DEPTH_BUFFER_BIT);
    assert_eq!(gl::STENCIL_BUFFER_BIT, glow::STENCIL_BUFFER_BIT);
    assert_eq!(gl::ALL_BARRIER_BITS, glow::ALL_BARRIER_BITS);
    assert_eq!(gl::BLEND, glow::BLEND);
    assert_eq!(gl::SRC_ALPHA, glow::SRC_ALPHA);
    assert_eq!(gl::ONE_MINUS_SRC_ALPHA, glow::ONE_MINUS_SRC_ALPHA);
    assert_eq!(gl::DEPTH_TEST, glow::DEPTH_TEST);
    assert_eq!(gl::CULL_FACE, glow::CULL_FACE);
    assert_eq!(gl::FRONT, glow::FRONT);
    assert_eq!(gl::BACK, glow::BACK);
    assert_eq!(gl::CW, glow::CW);
    assert_eq!(gl::FRAMEBUFFER_SRGB, glow::FRAMEBUFFER_SRGB);
}

#[test]
fn buffer_enumerants_match_the_driver_bindings() {
    assert_eq!(gl::ARRAY_BUFFER, glow::ARRAY_BUFFER);
    assert_eq!(gl::ELEMENT_ARRAY_BUFFER, glow::ELEMENT_ARRAY_BUFFER);
    assert_eq!(gl::SHADER_STORAGE_BUFFER, glow::SHADER_STORAGE_BUFFER);
    assert_eq!(gl::ATOMIC_COUNTER_BUFFER, glow::ATOMIC_COUNTER_BUFFER);
    assert_eq!(gl::DYNAMIC_STORAGE_BIT, glow::DYNAMIC_STORAGE_BIT);
    assert_eq!(gl::MAP_WRITE_BIT, glow::MAP_WRITE_BIT);
    assert_eq!(gl::STATIC_DRAW, glow::STATIC_DRAW);
    assert_eq!(gl::DYNAMIC_DRAW, glow::DYNAMIC_DRAW);
    assert_eq!(gl::UNSIGNED_BYTE, glow::UNSIGNED_BYTE);
    assert_eq!(gl::UNSIGNED_INT, glow::UNSIGNED_INT);
    assert_eq!(gl::FLOAT, glow::FLOAT);
    assert_eq!(gl::TRIANGLES, glow::TRIANGLES);
}

#[test]
fn shader_and_texture_enumerants_match_the_driver_bindings() {
    assert_eq!(gl::FRAGMENT_SHADER, glow::FRAGMENT_SHADER);
    assert_eq!(gl::VERTEX_SHADER, glow::VERTEX_SHADER);
    assert_eq!(gl::COMPUTE_SHADER, glow::COMPUTE_SHADER);
    assert_eq!(gl::TEXTURE_2D, glow::TEXTURE_2D);
    assert_eq!(gl::TEXTURE0, glow::TEXTURE0);
    assert_eq!(gl::TEXTURE_BASE_LEVEL, glow::TEXTURE_BASE_LEVEL);
    assert_eq!(gl::TEXTURE_MAX_LEVEL, glow::TEXTURE_MAX_LEVEL);
    assert_eq!(gl::TEXTURE_LOD_BIAS, glow::TEXTURE_LOD_BIAS);
    assert_eq!(gl::TEXTURE_MAG_FILTER, glow::TEXTURE_MAG_FILTER);
    assert_eq!(gl::TEXTURE_MIN_FILTER, glow::TEXTURE_MIN_FILTER);
    assert_eq!(gl::NEAREST, glow::NEAREST);
    assert_eq!(gl::LINEAR, glow::LINEAR);
    assert_eq!(gl::NEAREST_MIPMAP_NEAREST, glow::NEAREST_MIPMAP_NEAREST);
    assert_eq!(gl::LINEAR_MIPMAP_LINEAR, glow::LINEAR_MIPMAP_LINEAR);
    assert_eq!(gl::RED, glow::RED);
    assert_eq!(gl::RG, glow::RG);
    assert_eq!(gl::RGB, glow::RGB);
    assert_eq!(gl::RGBA, glow::RGBA);
    assert_eq!(gl::R32F, glow::R32F);
    assert_eq!(gl::RG32F, glow::RG32F);
    assert_eq!(gl::RGB32F, glow::RGB32F);
    assert_eq!(gl::RGBA32F, glow::RGBA32F);
    assert_eq!(gl::READ_ONLY, glow::READ_ONLY);
    assert_eq!(gl::WRITE_ONLY, glow::WRITE_ONLY);
    assert_eq!(gl::READ_WRITE, glow::READ_WRITE);
    assert_eq!(gl::FRAMEBUFFER, glow::FRAMEBUFFER);
    assert_eq!(gl::COLOR_ATTACHMENT0, glow::COLOR_ATTACHMENT0);
    assert_eq!(gl::FRAMEBUFFER_COMPLETE, glow::FRAMEBUFFER_COMPLETE);
}

#[test]
fn texture_formats_map_to_their_enumerants() {
    assert_eq!(TextureFormat::R.to_gl_format(), glow::RED);
    assert_eq!(TextureFormat::RG.to_gl_format(), glow::RG);
    assert_eq!(TextureFormat::RGB.to_gl_format(), glow::RGB);
    assert_eq!(TextureFormat::RGBA.to_gl_format(), glow::RGBA);
    assert_eq!(TextureFormat::R.to_gl_internal_format(), glow::R32F as i32);
    assert_eq!(TextureFormat::RG.to_gl_internal_format(), glow::RG32F as i32);
    assert_eq!(TextureFormat::RGB.to_gl_internal_format(), glow::RGB32F as i32);
    assert_eq!(TextureFormat::RGBA.to_gl_internal_format(), glow::RGBA32F as i32);
    assert_eq!(TextureFormat::RGB.to_gl_repr(), glow::FLOAT);
    assert_eq!(TextureFormat::RGBA.to_gl_repr(), glow::FLOAT);
}

#[test]
fn texture_filters_map_to_their_enumerants() {
    assert_eq!(TextureFiltering::Linear.to_gl(), glow::LINEAR as i32);
    assert_eq!(TextureFiltering::Nearest.to_gl(), glow::NEAREST as i32);
    assert_eq!(TextureFiltering::Linear.to_gl_mipmap(), glow::LINEAR_MIPMAP_LINEAR as i32);
    assert_eq!(TextureFiltering::Nearest.to_gl_mipmap(), glow::NEAREST_MIPMAP_NEAREST as i32);
}

#[test]
fn bit_patterns_are_those_of_the_numbers_they_stand_for() {
    assert_eq!(f32::from_bits(BACKGROUND.0), 0.2f32);
    assert_eq!(f32::from_bits(BACKGROUND.1), 0.2f32);
    assert_eq!(f32::from_bits(BACKGROUND.2), 0.2f32);
    assert_eq!(f32::from_bits(BACKGROUND.3), 1.0f32);
    assert_eq!(f32::from_bits(LOD_BIAS), -1.8f32);
    assert_eq!(MAX_LEVEL, 5);
    assert_eq!(STRIDE as usize, WORDS_PER_VERTEX * 4);
}

#[test]
fn the_quad_has_four_corners_with_uv_from_zero_to_one() {
    let mut r = Renderer::new((640, 480));
    r.take_commands();
    let _quad = Mesh::quad(&mut r);
    let cmds = r.take_commands();
    let mut vertices: Vec<f32> = Vec::new();
    let mut indices: Vec<u32> = Vec::new();
    for c in &cmds {
        if let foxtail::rendering::command::Command::BufferDataWords { target, data, usage } = c {
            assert_eq!(*usage, glow::STATIC_DRAW);
            if *target == glow::ARRAY_BUFFER {
                vertices = data.iter().map(|w| f32::from_bits(*w)).collect();
            } else {
                assert_eq!(*target, glow::ELEMENT_ARRAY_BUFFER);
                indices = data.clone();
            }
        }
    }
    let expected: [f32; 32] = [
        -1.0, -1.0, 0.0, 1.0, 1.0, 1.0, 0.0, 0.0, //
        1.0, -1.0, 0.0, 1.0, 1.0, 1.0, 1.0, 0.0, //
        -1.0, 1.0, 0.0, 1.0, 1.0, 1.0, 0.0, 1.0, //
        1.0, 1.0, 0.0, 1.0, 1.0, 1.0, 1.0, 1.0,
    ];
    assert_eq!(vertices, expected.to_vec());
    assert_eq!(indices, vec![0, 1, 3, 0, 3, 2]);
}

#[test]
fn error_codes_have_their_messages() {
    assert_eq!(gl_error(0), None);
    assert_eq!(gl_error(glow::INVALID_ENUM), Some("Invalid enum"));
    assert_eq!(gl_error(glow::INVALID_VALUE), Some("Invalid value"));
    assert_eq!(gl_error(glow::INVALID_OPERATION), Some("Invalid operation"));
    assert_eq!(gl_error(glow::STACK_OVERFLOW), Some("Stack overflow"));
    assert_eq!(gl_error(glow::STACK_UNDERFLOW), Some("Stack underflow"));
    assert_eq!(gl_error(glow::OUT_OF_MEMORY), Some("Out of memory"));
    assert_eq!(
        gl_error(glow::INVALID_FRAMEBUFFER_OPERATION),
        Some("Invalid framebuffer operation")
    );
    assert_eq!(gl_error(12345), Some("Unknown OpenGL error"));
}
