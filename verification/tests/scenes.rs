use std::collections::HashMap;

use foxtail::rendering::command::{Command, GlCommand, ObjectKind, UniformValue};
use foxtail::rendering::mesh::Mesh;
use foxtail::rendering::render_pass::Framebuffer;
use foxtail::rendering::shader::{ComputeShader, Shader, UniformInterface};
use foxtail::rendering::texture::{Texture, TextureFiltering, TextureFormat, TextureSettings};
use foxtail::rendering::{Drawable, RenderError, Renderer};
use foxtail::{
    after_turn, turn_for, Aftermath, App, Context, CullSide, Event, Fullscreen, State, Turn,
    VideoMode,
};

/// The objects that live once a run of commands is performed, and the state
/// that the rules of the renderer are about.
struct Gpu {
    current: bool,
    objects: HashMap<u32, ObjectKind>,
    program: Option<u32>,
    framebuffer: Option<u32>,
    viewport: (i32, i32, i32, i32),
    presented: usize,
    violations: usize,
    log: Vec<String>,
}

impl Gpu {
    fn fresh(width: i32, height: i32) -> Gpu {
        Gpu {
            current: false,
            objects: HashMap::new(),
            program: None,
            framebuffer: None,
            viewport: (0, 0, width, height),
            presented: 0,
            violations: 0,
            log: Vec::new(),
        }
    }

    fn run(&mut self, commands: &[GlCommand]) {
        for c in commands {
            let moves_context = matches!(c, Command::MakeCurrent | Command::MakeNotCurrent);
            let draws = matches!(c, Command::DrawElements { .. } | Command::DrawArrays { .. });
            if (!moves_context && !self.current) || (draws && self.program.is_none()) {
                self.violations += 1;
            }
            match c {
                Command::MakeCurrent => self.current = true,
                Command::MakeNotCurrent => self.current = false,
                Command::SwapBuffers => self.presented += 1,
                Command::Viewport { x, y, width, height } => {
                    self.viewport = (*x, *y, *width, *height)
                }
                Command::CreateObject { kind, name } => {
                    self.log.push(format!("create {}", name));
                    assert!(self.objects.insert(*name, *kind).is_none(), "name used twice");
                }
                Command::CreateShader { name, .. } => {
                    assert!(self.objects.insert(*name, ObjectKind::Shader).is_none());
                }
                Command::DeleteObject { name, kind } => {
                    self.log.push(format!("delete {}", name));
                    assert_eq!(self.objects.remove(name), Some(*kind), "deleted what was not there");
                }
                Command::UseProgram { program } => self.program = *program,
                Command::BindFramebuffer { framebuffer, .. } => self.framebuffer = *framebuffer,
                _ => {}
            }
        }
    }

    fn live(&self, kind: ObjectKind) -> usize {
        self.objects.values().filter(|k| **k == kind).count()
    }
}

fn started() -> (Renderer, Gpu) {
    let mut r = Renderer::new((1280, 720));
    let mut g = Gpu::fresh(1280, 720);
    g.run(&r.take_commands());
    (r, g)
}

fn sound(r: &Renderer, g: &Gpu) {
    assert_eq!(r.is_context_current(), g.current);
    assert_eq!(r.shader_bound(), g.program.is_some());
    assert_eq!(r.viewport(), g.viewport);
    assert_eq!(g.violations, 0);
}

#[test]
fn uniforms_are_set_by_name_on_the_bound_program() {
    let (mut r, mut g) = started();
    let shader = Shader::new(&mut r, ("v", "v"), ("f", "f"));
    r.take_commands();
    let res = shader.while_bound(&mut r, |r: &mut Renderer, uni: UniformInterface| {
        uni.set_f32(r, "time", 1.5f32.to_bits());
        uni.set_vec2(r, "a", [1, 2]);
        uni.set_vec3(r, "b", [1, 2, 3]);
        uni.set_vec4(r, "c", [1, 2, 3, 4]);
        uni.set_u32(r, "d", 7);
        uni.set_uvec2(r, "e", [1, 2]);
        uni.set_uvec3(r, "f", [1, 2, 3]);
        uni.set_uvec4(r, "g", [1, 2, 3, 4]);
        uni.set_mat2(r, "h", [1, 2, 3, 4]);
        uni.set_mat3(r, "i", [1, 2, 3, 4, 5, 6, 7, 8, 9]);
        uni.set_mat4(r, "j", [0; 16]);
        Ok(())
    });
    assert_eq!(res, Ok(()));
    let cmds = r.take_commands();
    let value = |i: usize| match &cmds[i] {
        Command::SetUniform { program, name, value } => {
            assert_eq!(*program, 4);
            (name.clone(), value)
        }
        other => panic!("{:?}", other),
    };
    assert_eq!(cmds.len(), 13);
    assert_eq!(value(1), ("time".to_string(), &UniformValue::F32(0x3FC0_0000)));
    assert_eq!(value(2), ("a".to_string(), &UniformValue::Vec2(1, 2)));
    assert_eq!(value(3), ("b".to_string(), &UniformValue::Vec3(1, 2, 3)));
    assert_eq!(value(4), ("c".to_string(), &UniformValue::Vec4(1, 2, 3, 4)));
    assert_eq!(value(5), ("d".to_string(), &UniformValue::U32(7)));
    assert_eq!(value(6), ("e".to_string(), &UniformValue::UVec2(1, 2)));
    assert_eq!(value(7), ("f".to_string(), &UniformValue::UVec3(1, 2, 3)));
    assert_eq!(value(8), ("g".to_string(), &UniformValue::UVec4(1, 2, 3, 4)));
    assert_eq!(value(9), ("h".to_string(), &UniformValue::Mat2(vec![1, 2, 3, 4])));
    assert_eq!(value(10), ("i".to_string(), &UniformValue::Mat3(vec![1, 2, 3, 4, 5, 6, 7, 8, 9])));
    assert_eq!(value(11), ("j".to_string(), &UniformValue::Mat4(vec![0; 16])));
    g.run(&cmds);
    sound(&r, &g);
}

#[test]
fn a_compute_program_is_built_bound_and_dispatched() {
    let (mut r, mut g) = started();
    let cs = ComputeShader::new(&mut r, ("void main() {}", "sim.cs"));
    let made = r.take_commands();
    assert_eq!(made.len(), 10);
    assert_eq!(made[1], Command::CreateShader { name: 5, stage: glow::COMPUTE_SHADER });
    assert_eq!(
        made[4],
        Command::CheckCompiled {
            shader: 5,
            name: "sim.cs".to_string(),
            source: "void main() {}".to_string()
        }
    );
    g.run(&made);
    cs.set_uniforms(&mut r, |r: &mut Renderer, uni: UniformInterface| {
        uni.set_u32(r, "n", 3);
    });
    let res = cs.while_bound(&mut r, |r: &mut Renderer, _uni: UniformInterface| {
        cs.dispatch(r, [8, 4, 1]);
        Ok(())
    });
    assert_eq!(res, Ok(()));
    let cmds = r.take_commands();
    assert_eq!(cmds.len(), 6);
    assert_eq!(cmds[4], Command::DispatchCompute { x: 8, y: 4, z: 1 });
    g.run(&cmds);
    cs.bind(&mut r);
    cs.unbind(&mut r);
    cs.unbind(&mut r);
    assert_eq!(r.take_commands().len(), 2);
    cs.destroy(&mut r);
    g.run(&r.take_commands());
    assert_eq!(g.live(ObjectKind::Program), 1);
    sound(&r, &g);
}

#[test]
fn a_texture_gets_its_storage_and_its_filters() {
    let (mut r, mut g) = started();
    let settings = TextureSettings {
        width: 2,
        height: 1,
        format: TextureFormat::RGBA,
        filtering: TextureFiltering::Linear,
        mipmap: true,
    };
    let pixels = vec![0u8; 32];
    let mut tex = Texture::new(&mut r, settings, Some(&pixels));
    assert_eq!(tex.size(), (2, 1));
    let made = r.take_commands();
    assert_eq!(made.len(), 10);
    assert_eq!(made[0], Command::CreateObject { kind: ObjectKind::Texture, name: 4 });
    assert_eq!(made[1], Command::BindTexture { target: glow::TEXTURE_2D, texture: Some(4) });
    assert_eq!(
        made[3],
        Command::TexParameterI32 {
            target: glow::TEXTURE_2D,
            parameter: glow::TEXTURE_MAX_LEVEL,
            value: 5
        }
    );
    assert_eq!(
        made[5],
        Command::TexImage2D {
            target: glow::TEXTURE_2D,
            level: 0,
            internal_format: glow::RGBA32F as i32,
            width: 2,
            height: 1,
            border: 0,
            format: glow::RGBA,
            data_type: glow::FLOAT,
            pixels: Some(pixels.clone()),
        }
    );
    assert_eq!(made[6], Command::GenerateTextureMipmap { texture: 4 });
    assert_eq!(
        made[7],
        Command::TexParameterI32 {
            target: glow::TEXTURE_2D,
            parameter: glow::TEXTURE_MIN_FILTER,
            value: glow::LINEAR_MIPMAP_LINEAR as i32
        }
    );
    assert_eq!(
        made[8],
        Command::TexParameterI32 {
            target: glow::TEXTURE_2D,
            parameter: glow::TEXTURE_MAG_FILTER,
            value: glow::LINEAR as i32
        }
    );
    g.run(&made);
    tex.resize(&mut r, (4, 4), None);
    assert_eq!(tex.size(), (4, 4));
    let again = r.take_commands();
    assert_eq!(again.len(), 9);
    assert!(!again.iter().any(|c| matches!(c, Command::CreateObject { .. })));
    g.run(&again);
    assert_eq!(g.live(ObjectKind::Texture), 1);
    tex.destroy(&mut r);
    g.run(&r.take_commands());
    assert_eq!(g.live(ObjectKind::Texture), 0);
    sound(&r, &g);
}

#[test]
fn a_texture_without_mipmaps_is_filtered_plainly() {
    let (mut r, _) = started();
    let settings = TextureSettings {
        width: 1,
        height: 1,
        format: TextureFormat::R,
        filtering: TextureFiltering::Nearest,
        mipmap: false,
    };
    let _tex = Texture::new(&mut r, settings, None);
    let made = r.take_commands();
    assert_eq!(made.len(), 9);
    assert_eq!(
        made[5],
        Command::TexImage2D {
            target: glow::TEXTURE_2D,
            level: 0,
            internal_format: glow::R32F as i32,
            width: 1,
            height: 1,
            border: 0,
            format: glow::RED,
            data_type: glow::FLOAT,
            pixels: None,
        }
    );
    assert_eq!(
        made[6],
        Command::TexParameterI32 {
            target: glow::TEXTURE_2D,
            parameter: glow::TEXTURE_MIN_FILTER,
            value: glow::NEAREST as i32
        }
    );
}

#[test]
fn a_texture_is_bound_for_sampling_and_as_an_image() {
    let (mut r, mut g) = started();
    let settings = TextureSettings {
        width: 1,
        height: 1,
        format: TextureFormat::RGB,
        filtering: TextureFiltering::Nearest,
        mipmap: false,
    };
    let tex = Texture::new(&mut r, settings, None);
    let shader = Shader::new(&mut r, ("v", "v"), ("f", "f"));
    g.run(&r.take_commands());
    shader.bind(&mut r);
    let res = tex.while_bound(&mut r, 2, |_r: &mut Renderer| Err(RenderError::Generic));
    assert_eq!(res, Err(RenderError::Generic));
    let cmds = r.take_commands();
    assert_eq!(
        cmds,
        vec![
            Command::UseProgram { program: Some(5) },
            Command::ActiveTexture { unit: glow::TEXTURE0 + 2 },
            Command::BindTexture { target: glow::TEXTURE_2D, texture: Some(4) },
            Command::BindTexture { target: glow::TEXTURE_2D, texture: None },
        ]
    );
    g.run(&cmds);
    for (write, read, access) in [
        (true, true, glow::READ_WRITE),
        (true, false, glow::WRITE_ONLY),
        (false, true, glow::READ_ONLY),
        (false, false, glow::READ_ONLY),
    ] {
        let res = tex.while_bound_img(&mut r, 1, write, read, |_r: &mut Renderer| Ok(()));
        assert_eq!(res, Ok(()));
        let cmds = r.take_commands();
        assert_eq!(cmds.len(), 4);
        assert_eq!(
            cmds[2],
            Command::BindImageTexture {
                unit: 1,
                texture: 4,
                level: 0,
                layered: false,
                layer: 0,
                access,
                format: glow::RGB32F,
            }
        );
        g.run(&cmds);
    }
    tex.bind_img(&mut r, 0, true, true);
    tex.unbind_img(&mut r, 0);
    assert_eq!(r.take_commands().len(), 4);
    shader.unbind(&mut r);
    g.run(&r.take_commands());
    sound(&r, &g);
}

#[test]
fn a_framebuffer_is_made_of_its_attachments() {
    let (mut r, mut g) = started();
    let fb = Framebuffer::with_resolution(&mut r, (320, 200), 2);
    assert_eq!(fb.size(), (320, 200));
    let made = r.take_commands();
    assert_eq!(made[0], Command::CreateObject { kind: ObjectKind::Framebuffer, name: 4 });
    assert_eq!(
        made[1],
        Command::BindFramebuffer { target: glow::FRAMEBUFFER, framebuffer: Some(4) }
    );
    assert_eq!(made[2], Command::CreateObject { kind: ObjectKind::Texture, name: 5 });
    assert_eq!(
        made[4],
        Command::TexImage2D {
            target: glow::TEXTURE_2D,
            level: 0,
            internal_format: glow::RGBA32F as i32,
            width: 320,
            height: 200,
            border: 0,
            format: glow::RGBA,
            data_type: glow::UNSIGNED_BYTE,
            pixels: None,
        }
    );
    assert_eq!(
        made[7],
        Command::FramebufferTexture2D {
            target: glow::FRAMEBUFFER,
            attachment: glow::COLOR_ATTACHMENT0,
            texture_target: glow::TEXTURE_2D,
            texture: Some(5),
            level: 0
        }
    );
    assert_eq!(
        made[13],
        Command::FramebufferTexture2D {
            target: glow::FRAMEBUFFER,
            attachment: glow::COLOR_ATTACHMENT0 + 1,
            texture_target: glow::TEXTURE_2D,
            texture: Some(6),
            level: 0
        }
    );
    assert_eq!(
        made[14],
        Command::DrawBuffers { buffers: vec![glow::COLOR_ATTACHMENT0, glow::COLOR_ATTACHMENT0 + 1] }
    );
    assert_eq!(made[15], Command::CheckFramebufferComplete { target: glow::FRAMEBUFFER });
    assert_eq!(made[16], Command::BindFramebuffer { target: glow::FRAMEBUFFER, framebuffer: None });
    assert_eq!(made[17], Command::CreateObject { kind: ObjectKind::VertexArray, name: 7 });
    g.run(&made);
    assert_eq!(g.live(ObjectKind::Framebuffer), 1);
    assert_eq!(g.live(ObjectKind::Texture), 2);
    fb.clear(&mut r);
    assert_eq!(
        r.take_commands(),
        vec![Command::Clear {
            mask: glow::COLOR_BUFFER_BIT | glow::DEPTH_BUFFER_BIT | glow::STENCIL_BUFFER_BIT
        }]
    );
    fb.bind_tex(&mut r, 1, 3);
    fb.unbind_tex(&mut r);
    assert_eq!(
        r.take_commands(),
        vec![
            Command::ActiveTexture { unit: glow::TEXTURE0 + 3 },
            Command::BindTexture { target: glow::TEXTURE_2D, texture: Some(6) },
            Command::BindTexture { target: glow::TEXTURE_2D, texture: None },
        ]
    );
    fb.destroy(&mut r);
    g.run(&r.take_commands());
    assert_eq!(g.objects.len(), 1);
    sound(&r, &g);
}

#[test]
fn resizing_a_framebuffer_deletes_before_it_creates_and_leaks_nothing() {
    let (mut r, mut g) = started();
    let mut fb = Framebuffer::new(&mut r, 3);
    assert_eq!(fb.size(), (1280, 720));
    g.run(&r.take_commands());
    let before = g.objects.len();
    let textures = g.live(ObjectKind::Texture);
    g.log.clear();
    fb.resize(&mut r, (640, 360));
    assert_eq!(fb.size(), (640, 360));
    let cmds = r.take_commands();
    g.run(&cmds);
    assert_eq!(g.objects.len(), before);
    assert_eq!(g.live(ObjectKind::Texture), textures);
    assert_eq!(g.live(ObjectKind::Framebuffer), 1);
    let last_delete = g.log.iter().rposition(|l| l.starts_with("delete")).unwrap();
    let first_create = g.log.iter().position(|l| l.starts_with("create")).unwrap();
    assert!(last_delete < first_create);
    assert_eq!(g.log.len(), 8);
    assert!(cmds.contains(&Command::TexImage2D {
        target: glow::TEXTURE_2D,
        level: 0,
        internal_format: glow::RGBA32F as i32,
        width: 640,
        height: 360,
        border: 0,
        format: glow::RGBA,
        data_type: glow::UNSIGNED_BYTE,
        pixels: None,
    }));
    sound(&r, &g);
}

#[test]
fn a_framebuffer_passes_over_a_size_without_area() {
    let (mut r, _) = started();
    let mut fb = Framebuffer::with_resolution(&mut r, (16, 16), 1);
    r.take_commands();
    fb.resize(&mut r, (0, 10));
    fb.resize(&mut r, (10, 0));
    fb.resize(&mut r, (-1, 10));
    fb.resize(&mut r, (10, i32::MIN));
    assert_eq!(fb.size(), (16, 16));
    assert!(r.take_commands().is_empty());
}

#[test]
fn a_framebuffer_draws_with_the_fallback_when_no_shader_is_bound() {
    let (mut r, mut g) = started();
    let fb = Framebuffer::new(&mut r, 1);
    g.run(&r.take_commands());
    assert!(!r.shader_bound());
    assert_eq!(fb.draw(&mut r), Ok(()));
    assert!(!r.shader_bound());
    let cmds = r.take_commands();
    assert_eq!(
        cmds,
        vec![
            Command::UseProgram { program: Some(1) },
            Command::ActiveTexture { unit: glow::TEXTURE0 },
            Command::BindTexture { target: glow::TEXTURE_2D, texture: Some(5) },
            Command::BindVertexArray { array: Some(6) },
            Command::DrawElements {
                mode: glow::TRIANGLES,
                count: 6,
                element_type: glow::UNSIGNED_INT,
                offset: 0
            },
            Command::BindVertexArray { array: None },
            Command::BindTexture { target: glow::TEXTURE_2D, texture: None },
            Command::UseProgram { program: None },
        ]
    );
    g.run(&cmds);
    sound(&r, &g);
}

#[test]
fn a_framebuffer_draws_with_the_shader_that_is_bound() {
    let (mut r, mut g) = started();
    let fb = Framebuffer::new(&mut r, 0);
    let shader = Shader::new(&mut r, ("v", "v"), ("f", "f"));
    g.run(&r.take_commands());
    shader.bind(&mut r);
    assert_eq!(fb.draw(&mut r), Ok(()));
    assert!(r.shader_bound());
    let cmds = r.take_commands();
    assert_eq!(cmds.len(), 5);
    assert_eq!(cmds[0], Command::UseProgram { program: Some(8) });
    assert_eq!(cmds[4], Command::BindTexture { target: glow::TEXTURE_2D, texture: None });
    g.run(&cmds);
    sound(&r, &g);
}

#[test]
fn a_framebuffer_scope_restores_the_viewport_on_every_way_out() {
    let (mut r, mut g) = started();
    let fb = Framebuffer::with_resolution(&mut r, (64, 32), 1);
    g.run(&r.take_commands());
    let res = fb.while_bound(&mut r, |r: &mut Renderer| {
        assert_eq!(r.viewport(), (0, 0, 64, 32));
        Err(RenderError::Generic)
    });
    assert_eq!(res, Err(RenderError::Generic));
    assert_eq!(r.viewport(), (0, 0, 1280, 720));
    let cmds = r.take_commands();
    assert_eq!(
        cmds,
        vec![
            Command::Viewport { x: 0, y: 0, width: 64, height: 32 },
            Command::BindFramebuffer { target: glow::FRAMEBUFFER, framebuffer: Some(4) },
            Command::BindFramebuffer { target: glow::FRAMEBUFFER, framebuffer: None },
            Command::Viewport { x: 0, y: 0, width: 1280, height: 720 },
        ]
    );
    g.run(&cmds);
    assert_eq!(g.framebuffer, None);
    sound(&r, &g);
}

#[test]
fn a_quad_goes_through_a_framebuffer_to_the_screen() {
    let mut r = Renderer::new((1280, 720));
    let mut g = Gpu::fresh(1280, 720);
    let mesh = Mesh::quad(&mut r);
    let shader = Shader::new(
        &mut r,
        ("#version 450 core\nlayout (location = 0) in vec3 p;\nvoid main() { gl_Position = vec4(p, 1.0); }\n", "pass.vs"),
        ("#version 450 core\nout vec4 c;\nvoid main() { c = vec4(1.0); }\n", "pass.fs"),
    );
    let fb = Framebuffer::new(&mut r, 1);
    let res = fb.while_bound(&mut r, |r: &mut Renderer| {
        fb.clear(r);
        shader.while_bound(r, |r: &mut Renderer, _uni: UniformInterface| mesh.draw(r))
    });
    assert_eq!(res, Ok(()));
    assert_eq!(fb.draw(&mut r), Ok(()));
    assert_eq!(fb.size(), (1280, 720));
    assert!(!r.shader_bound());
    assert_eq!(r.viewport(), (0, 0, 1280, 720));
    g.run(&r.take_commands());
    sound(&r, &g);
    assert_eq!(g.live(ObjectKind::Program), 2);
    assert_eq!(g.live(ObjectKind::Framebuffer), 1);
}

struct Scene {
    mesh: Option<Mesh>,
    updates: usize,
    renders: usize,
    sizes: Vec<(i32, i32)>,
}

impl App for Scene {
    fn update(&mut self, ctx: &mut Context) {
        assert!(ctx.renderer_ref().is_context_current());
        self.updates += 1;
        ctx.set_window_title("scene");
    }

    fn render(&mut self, ctx: &mut Context) {
        assert!(ctx.renderer_ref().is_context_current());
        self.renders += 1;
        if self.mesh.is_none() {
            self.mesh = Some(Mesh::quad(ctx.renderer_mut()));
        }
    }

    fn on_resize(&mut self, size: (i32, i32)) {
        self.sizes.push(size);
    }
}

#[test]
fn the_frame_cycle_leaves_the_context_released_between_phases() {
    let modes = vec![VideoMode { width: 1920, height: 1080, bit_depth: 32, refresh_rate_millihertz: 60000 }];
    let mut state = State::new((1280, 720), modes.clone(), |ctx: &mut Context| {
        assert_eq!(ctx.video_modes(), &modes);
        ctx.set_maximized(true);
        Scene { mesh: None, updates: 0, renders: 0, sizes: Vec::new() }
    });
    let mut g = Gpu::fresh(1280, 720);
    g.run(&state.take_commands());
    assert!(!g.current);
    assert_eq!(g.presented, 1);
    assert_eq!(state.take_events(), vec![Event::SetMaximized(true)]);
    assert_eq!(state.frame(Some((800, 600))), Ok(()));
    let cmds = state.take_commands();
    assert!(cmds.contains(&Command::Viewport { x: 0, y: 0, width: 800, height: 600 }));
    assert!(cmds.contains(&Command::Disable { capability: glow::FRAMEBUFFER_SRGB }));
    g.run(&cmds);
    assert!(!g.current);
    assert_eq!(g.presented, 2);
    assert_eq!(g.violations, 0);
    assert_eq!(g.viewport, (0, 0, 800, 600));
    assert_eq!(state.take_events(), vec![Event::SetTitle("scene".to_string())]);
    assert_eq!(state.frame(None), Ok(()));
    state.resize((0, 0));
    state.update();
    assert_eq!(state.render(), Ok(()));
    g.run(&state.take_commands());
    assert!(!g.current);
    assert_eq!(g.presented, 4);
    assert_eq!(g.violations, 0);
    assert_eq!(g.viewport, (0, 0, 800, 600));
}

#[test]
fn a_context_queues_state_changes_and_requests_to_the_window() {
    let mut ctx = Context::new(Renderer::new((4, 4)), Vec::new());
    ctx.renderer_mut().take_commands();
    ctx.enable_alpha_blending(true);
    ctx.enable_alpha_blending(false);
    ctx.enable_depth_buffer(true);
    ctx.enable_depth_buffer(false);
    ctx.enable_backface_culling(Some(CullSide::Front));
    ctx.enable_backface_culling(Some(CullSide::Back));
    ctx.enable_backface_culling(None);
    assert_eq!(
        ctx.renderer_mut().take_commands(),
        vec![
            Command::Enable { capability: glow::BLEND },
            Command::BlendFunc { source: glow::SRC_ALPHA, destination: glow::ONE_MINUS_SRC_ALPHA },
            Command::Disable { capability: glow::BLEND },
            Command::Enable { capability: glow::DEPTH_TEST },
            Command::Disable { capability: glow::DEPTH_TEST },
            Command::Enable { capability: glow::CULL_FACE },
            Command::CullFace { mode: glow::FRONT },
            Command::FrontFace { mode: glow::CW },
            Command::Enable { capability: glow::CULL_FACE },
            Command::CullFace { mode: glow::BACK },
            Command::FrontFace { mode: glow::CW },
            Command::Disable { capability: glow::CULL_FACE },
        ]
    );
    let mode = VideoMode { width: 800, height: 600, bit_depth: 24, refresh_rate_millihertz: 59940 };
    ctx.set_window_title("demo");
    ctx.set_maximized(false);
    ctx.set_minimized(true);
    ctx.set_fullscreen(Some(Fullscreen::Exclusive(mode)));
    ctx.set_fullscreen(Some(Fullscreen::Borderless));
    ctx.set_fullscreen(None);
    ctx.set_size((640, 480));
    assert_eq!(
        ctx.take_events(),
        vec![
            Event::SetTitle("demo".to_string()),
            Event::SetMaximized(false),
            Event::SetMinimized(true),
            Event::SetFullscreen(Some(Fullscreen::Exclusive(mode))),
            Event::SetFullscreen(Some(Fullscreen::Borderless)),
            Event::SetFullscreen(None),
            Event::SetSize((640, 480)),
        ]
    );
    assert!(ctx.take_events().is_empty());
}

struct Recorder {
    calls: Vec<String>,
}

impl App for Recorder {
    fn update(&mut self, ctx: &mut Context) {
        self.calls.push(format!("update {}", ctx.renderer_ref().is_context_current()));
        ctx.enable_depth_buffer(true);
    }

    fn render(&mut self, ctx: &mut Context) {
        self.calls.push(format!("render {}", ctx.renderer_ref().is_context_current()));
        ctx.enable_alpha_blending(false);
    }

    fn on_resize(&mut self, size: (i32, i32)) {
        self.calls.push(format!("resize {} {}", size.0, size.1));
    }
}

#[test]
fn a_turn_resizes_updates_and_renders_once_each_in_this_order() {
    let mut state = State::new((1280, 720), Vec::new(), |ctx: &mut Context| {
        assert!(ctx.renderer_ref().is_context_current());
        Recorder { calls: Vec::new() }
    });
    let first = state.take_commands();
    assert_eq!(first.len(), 23);
    assert_eq!(first[0], Command::MakeCurrent);
    assert_eq!(first[18], Command::MakeCurrent);
    assert_eq!(first[20], Command::Clear { mask: glow::COLOR_BUFFER_BIT });
    assert_eq!(first[21], Command::SwapBuffers);
    assert_eq!(first[22], Command::MakeNotCurrent);
    assert_eq!(state.frame(Some((800, 600))), Ok(()));
    assert_eq!(
        state.app_mut().calls,
        vec!["resize 800 600".to_string(), "update true".to_string(), "render true".to_string()]
    );
    let background = foxtail::rendering::BACKGROUND;
    assert_eq!(
        state.take_commands(),
        vec![
            Command::MakeCurrent,
            Command::Viewport { x: 0, y: 0, width: 800, height: 600 },
            Command::MakeNotCurrent,
            Command::MakeCurrent,
            Command::Enable { capability: glow::DEPTH_TEST },
            Command::MakeNotCurrent,
            Command::MakeCurrent,
            Command::ClearColor {
                red: background.0,
                green: background.1,
                blue: background.2,
                alpha: background.3
            },
            Command::Clear { mask: glow::COLOR_BUFFER_BIT },
            Command::Disable { capability: glow::BLEND },
            Command::Disable { capability: glow::FRAMEBUFFER_SRGB },
            Command::SwapBuffers,
            Command::MakeNotCurrent,
        ]
    );
    state.app_mut().calls.clear();
    assert_eq!(state.frame(None), Ok(()));
    assert_eq!(state.app_mut().calls, vec!["update true".to_string(), "render true".to_string()]);
    let second = state.take_commands();
    assert_eq!(second.len(), 10);
    assert_eq!(second[0], Command::MakeCurrent);
    assert_eq!(second[1], Command::Enable { capability: glow::DEPTH_TEST });
    state.app_mut().calls.clear();
    assert_eq!(state.frame(Some((0, 600))), Ok(()));
    assert_eq!(state.app_mut().calls[0], "resize 0 600");
    let third = state.take_commands();
    assert_eq!(&third[..3], &[Command::MakeCurrent, Command::MakeNotCurrent, Command::MakeCurrent]);
    assert_eq!(third.len(), 12);
}

#[test]
fn an_event_gives_a_turn_unless_it_was_consumed_or_completes_no_step() {
    for consumed in [false, true] {
        for stepped in [false, true] {
            for close in [false, true] {
                for resized in [None, Some((640u32, 480u32))] {
                    let expected = if consumed || !stepped {
                        Turn::Skip
                    } else {
                        Turn::Frame { resized, exit: close }
                    };
                    assert_eq!(turn_for(consumed, stepped, close, resized), expected);
                }
            }
        }
    }
    assert_eq!(turn_for(false, true, false, None), Turn::Frame { resized: None, exit: false });
    assert_eq!(turn_for(true, true, true, Some((1, 1))), Turn::Skip);
}

#[test]
fn a_failed_frame_is_reported_and_the_loop_goes_on() {
    assert_eq!(after_turn(false, Ok(())), Aftermath { failure: None, exit: false });
    assert_eq!(after_turn(true, Ok(())), Aftermath { failure: None, exit: true });
    assert_eq!(
        after_turn(false, Err(RenderError::Generic)),
        Aftermath { failure: Some(RenderError::Generic), exit: false }
    );
    assert_eq!(
        after_turn(true, Err(RenderError::Generic)),
        Aftermath { failure: Some(RenderError::Generic), exit: true }
    );
}

#[test]
fn a_resize_uses_up_no_name() {
    let (mut r, mut g) = started();
    let mut fb = Framebuffer::with_resolution(&mut r, (16, 16), 2);
    g.run(&r.take_commands());
    let mesh = Mesh::quad(&mut r);
    g.run(&r.take_commands());
    let names: Vec<u32> = {
        let mut n: Vec<u32> = g.objects.keys().copied().collect();
        n.sort();
        n
    };
    for round in 0..5 {
        fb.resize(&mut r, (32 + round, 8));
        let cmds = r.take_commands();
        assert_eq!(cmds[0], Command::DeleteObject { kind: ObjectKind::Framebuffer, name: 4 });
        assert_eq!(cmds[1], Command::DeleteObject { kind: ObjectKind::Texture, name: 5 });
        assert_eq!(cmds[2], Command::DeleteObject { kind: ObjectKind::Texture, name: 6 });
        assert_eq!(cmds[3], Command::CreateObject { kind: ObjectKind::Framebuffer, name: 4 });
        assert_eq!(cmds[5], Command::CreateObject { kind: ObjectKind::Texture, name: 5 });
        g.run(&cmds);
        assert_eq!(fb.size(), (32 + round as usize, 8));
    }
    let mut after: Vec<u32> = g.objects.keys().copied().collect();
    after.sort();
    assert_eq!(after, names);
    let next = Mesh::quad(&mut r);
    let made = r.take_commands();
    assert_eq!(made[0], Command::CreateObject { kind: ObjectKind::VertexArray, name: 13 });
    g.run(&made);
    next.destroy(&mut r);
    mesh.destroy(&mut r);
    g.run(&r.take_commands());
    sound(&r, &g);
}
