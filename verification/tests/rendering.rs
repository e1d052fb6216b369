use std::collections::HashMap;

use foxtail::rendering::atomic_counter::AtomicCounter;
use foxtail::rendering::buffer::FixedSizeBuffer;
use foxtail::rendering::command::{Command, GlCommand, ObjectKind};
use foxtail::rendering::mesh::Mesh;
use foxtail::rendering::render_pass::Framebuffer;
use foxtail::rendering::shader::{Shader, UniformInterface, FB_FS, VS};
use foxtail::rendering::{Drawable, RenderError, Renderer, BACKGROUND};

/// A driver that does to its state what the commands say.
struct Driver {
    current: bool,
    objects: HashMap<u32, ObjectKind>,
    stores: HashMap<u32, Vec<u8>>,
    bindings: HashMap<u32, u32>,
    program: Option<u32>,
    framebuffer: Option<u32>,
    viewport: (i32, i32, i32, i32),
    presented: usize,
    violations: usize,
    read_back: Vec<Vec<u8>>,
}

impl Driver {
    fn new(width: i32, height: i32) -> Driver {
        Driver {
            current: false,
            objects: HashMap::new(),
            stores: HashMap::new(),
            bindings: HashMap::new(),
            program: None,
            framebuffer: None,
            viewport: (0, 0, width, height),
            presented: 0,
            violations: 0,
            read_back: Vec::new(),
        }
    }

    fn perform(&mut self, commands: &[GlCommand]) {
        for c in commands {
            let moves_context = matches!(c, Command::MakeCurrent | Command::MakeNotCurrent);
            let draws = matches!(c, Command::DrawElements { .. } | Command::DrawArrays { .. });
            if (!moves_context && !self.current) || (draws && self.program.is_none()) {
                self.violations += 1;
            }
            match c {
                Command::MakeCurrent => self.current = true,
                Command::MakeNotCurrent => self.current = false,
                Command::SwapBuffers => self.presented += 1,
                Command::Viewport { x, y, width, height } => {
                    self.viewport = (*x, *y, *width, *height)
                }
                Command::CreateObject { kind, name } => {
                    assert!(self.objects.insert(*name, *kind).is_none(), "name used twice");
                }
                Command::CreateShader { name, .. } => {
                    assert!(self.objects.insert(*name, ObjectKind::Shader).is_none());
                }
                Command::DeleteObject { name, .. } => {
                    self.objects.remove(name);
                    self.stores.remove(name);
                }
                Command::BindBuffer { target, buffer }
                | Command::BindBufferBase { target, buffer, .. } => match buffer {
                    Some(b) => {
                        self.bindings.insert(*target, *b);
                    }
                    None => {
                        self.bindings.remove(target);
                    }
                },
                Command::BufferStorage { target, size, .. } => {
                    if let Some(b) = self.bindings.get(target) {
                        self.stores.insert(*b, vec![0xAA; *size as usize]);
                    }
                }
                Command::BufferData { target, data, .. } => {
                    if let Some(b) = self.bindings.get(target) {
                        self.stores.insert(*b, data.clone());
                    }
                }
                Command::BufferDataWords { target, .. } => {
                    if let Some(b) = self.bindings.get(target) {
                        self.stores.remove(b);
                    }
                }
                Command::BufferSubData { target, offset, data } => {
                    if let Some(b) = self.bindings.get(target) {
                        if let Some(store) = self.stores.get_mut(b) {
                            let at = *offset as usize;
                            if *offset >= 0 && at + data.len() <= store.len() {
                                store[at..at + data.len()].copy_from_slice(data);
                            }
                        }
                    }
                }
                Command::InvalidateBufferSubData { target, offset, length } => {
                    if let Some(b) = self.bindings.get(target) {
                        if let Some(store) = self.stores.get_mut(b) {
                            for byte in &mut store[*offset as usize..(*offset + *length) as usize] {
                                *byte = 0x55;
                            }
                        }
                    }
                }
                Command::CopyBufferSubData {
                    read_target,
                    write_target,
                    read_offset,
                    write_offset,
                    size,
                } => {
                    let from = self.stores[&self.bindings[read_target]]
                        [*read_offset as usize..(*read_offset + *size) as usize]
                        .to_vec();
                    let to = self.stores.get_mut(&self.bindings[write_target]).unwrap();
                    to[*write_offset as usize..(*write_offset + *size) as usize]
                        .copy_from_slice(&from);
                }
                Command::ReadBufferSubData { target, offset, length } => {
                    let store = &self.stores[&self.bindings[target]];
                    self.read_back
                        .push(store[*offset as usize..(*offset + *length) as usize].to_vec());
                }
                Command::UseProgram { program } => self.program = *program,
                Command::BindFramebuffer { framebuffer, .. } => self.framebuffer = *framebuffer,
                _ => {}
            }
        }
    }

    fn count(&self, kind: ObjectKind) -> usize {
        self.objects.values().filter(|k| **k == kind).count()
    }
}

/// A renderer of a surface of 1280 by 720 pixels and a driver that has
/// performed what it queued.
fn ready() -> (Renderer, Driver) {
    let mut r = Renderer::new((1280, 720));
    let mut d = Driver::new(1280, 720);
    d.perform(&r.take_commands());
    (r, d)
}

fn agrees(r: &Renderer, d: &Driver) {
    assert_eq!(r.is_context_current(), d.current);
    assert_eq!(r.shader_bound(), d.program.is_some());
    assert_eq!(r.viewport(), d.viewport);
    assert_eq!(d.violations, 0);
}

#[test]
fn a_new_renderer_is_current_and_has_built_its_fallback() {
    let mut r = Renderer::new((1280, 720));
    assert!(r.is_context_current());
    assert!(!r.shader_bound());
    assert_eq!(r.size(), (1280, 720));
    assert_eq!(r.viewport(), (0, 0, 1280, 720));
    assert_eq!(r.fallback(), 1);
    let cmds = r.take_commands();
    assert_eq!(cmds.len(), 18);
    assert_eq!(cmds[0], Command::MakeCurrent);
    assert_eq!(cmds[1], Command::CreateObject { kind: ObjectKind::Program, name: 1 });
    assert_eq!(cmds[2], Command::CreateShader { name: 2, stage: glow::VERTEX_SHADER });
    assert_eq!(cmds[3], Command::ShaderSource { shader: 2, source: VS.to_string() });
    assert_eq!(cmds[4], Command::CompileShader { shader: 2 });
    assert_eq!(
        cmds[5],
        Command::CheckCompiled { shader: 2, name: "vs".to_string(), source: VS.to_string() }
    );
    assert_eq!(cmds[6], Command::CreateShader { name: 3, stage: glow::FRAGMENT_SHADER });
    assert_eq!(cmds[7], Command::ShaderSource { shader: 3, source: FB_FS.to_string() });
    assert_eq!(cmds[10], Command::AttachShader { program: 1, shader: 2 });
    assert_eq!(cmds[11], Command::AttachShader { program: 1, shader: 3 });
    assert_eq!(cmds[12], Command::LinkProgram { program: 1 });
    assert_eq!(cmds[13], Command::CheckLinked { program: 1 });
    assert_eq!(cmds[14], Command::DetachShader { program: 1, shader: 2 });
    assert_eq!(cmds[15], Command::DetachShader { program: 1, shader: 3 });
    assert_eq!(cmds[16], Command::DeleteObject { kind: ObjectKind::Shader, name: 2 });
    assert_eq!(cmds[17], Command::DeleteObject { kind: ObjectKind::Shader, name: 3 });
    assert!(r.take_commands().is_empty());
    let mut d = Driver::new(1280, 720);
    d.perform(&cmds);
    agrees(&r, &d);
    assert_eq!(d.count(ObjectKind::Program), 1);
    assert_eq!(d.count(ObjectKind::Shader), 0);
}

#[test]
fn a_surface_without_size_starts_with_an_empty_viewport() {
    let r = Renderer::new((0, 0));
    assert_eq!(r.viewport(), (0, 0, 0, 0));
    assert_eq!(r.size(), (0, 0));
    let big = Renderer::new((u32::MAX, 5));
    assert_eq!(big.viewport(), (0, 0, 0, 5));
}

#[test]
fn making_current_twice_is_making_current_once() {
    let (mut r, mut d) = ready();
    r.gl_make_current();
    r.gl_make_current();
    assert!(r.is_context_current());
    r.gl_make_not_current();
    assert!(!r.is_context_current());
    let cmds = r.take_commands();
    assert_eq!(cmds, vec![Command::MakeCurrent, Command::MakeCurrent, Command::MakeNotCurrent]);
    d.perform(&cmds);
    agrees(&r, &d);
}

#[test]
fn a_frame_is_bracketed_by_the_context() {
    let (mut r, mut d) = ready();
    r.gl_make_not_current();
    r.take_commands();
    assert_eq!(r.start_frame(), Ok(()));
    assert!(r.is_context_current());
    assert_eq!(r.end_frame(), Ok(()));
    assert!(!r.is_context_current());
    let cmds = r.take_commands();
    assert_eq!(
        cmds,
        vec![
            Command::MakeCurrent,
            Command::ClearColor {
                red: BACKGROUND.0,
                green: BACKGROUND.1,
                blue: BACKGROUND.2,
                alpha: BACKGROUND.3
            },
            Command::Clear { mask: glow::COLOR_BUFFER_BIT },
            Command::SwapBuffers,
            Command::MakeNotCurrent,
        ]
    );
    d.current = true;
    d.perform(&[Command::MakeNotCurrent]);
    d.perform(&cmds);
    agrees(&r, &d);
    assert_eq!(d.presented, 1);
}

#[test]
fn resizing_sets_the_viewport_and_passes_over_sizes_without_area() {
    let (mut r, mut d) = ready();
    r.resize((800, 600));
    assert_eq!(r.size(), (800, 600));
    assert_eq!(r.viewport(), (0, 0, 800, 600));
    assert_eq!(r.take_commands(), vec![Command::Viewport { x: 0, y: 0, width: 800, height: 600 }]);
    r.resize((0, 600));
    r.resize((800, 0));
    r.resize((0x8000_0000, 600));
    assert_eq!(r.size(), (800, 600));
    assert_eq!(r.viewport(), (0, 0, 800, 600));
    assert!(r.take_commands().is_empty());
    r.resize((0x7FFF_FFFF, 1));
    assert_eq!(r.viewport(), (0, 0, i32::MAX, 1));
    d.perform(&[Command::Viewport { x: 0, y: 0, width: i32::MAX, height: 1 }]);
    agrees(&r, &d);
}

#[test]
fn a_fence_is_a_full_barrier() {
    let (mut r, _) = ready();
    r.fence();
    assert_eq!(r.take_commands(), vec![Command::MemoryBarrier { barriers: glow::ALL_BARRIER_BITS }]);
}

#[test]
fn names_run_out_at_the_end_of_their_range() {
    let (r, _) = ready();
    assert!(r.can_create(1));
    assert!(r.can_create(u32::MAX - 4));
    assert!(!r.can_create(u32::MAX - 3));
}

#[test]
fn what_is_written_to_a_buffer_is_read_back() {
    let (mut r, mut d) = ready();
    let buf = FixedSizeBuffer::new(&mut r, 4, 8);
    assert_eq!(buf.size(), 32);
    assert_eq!(buf.buf(), 4);
    let made = r.take_commands();
    assert_eq!(
        made,
        vec![
            Command::CreateObject { kind: ObjectKind::Buffer, name: 4 },
            Command::BindBuffer { target: glow::SHADER_STORAGE_BUFFER, buffer: Some(4) },
            Command::BufferStorage {
                target: glow::SHADER_STORAGE_BUFFER,
                size: 32,
                flags: glow::DYNAMIC_STORAGE_BIT | glow::MAP_WRITE_BIT,
            },
            Command::BufferSubData {
                target: glow::SHADER_STORAGE_BUFFER,
                offset: 0,
                data: vec![0u8; 32]
            },
            Command::BindBuffer { target: glow::SHADER_STORAGE_BUFFER, buffer: None },
        ]
    );
    d.perform(&made);
    assert_eq!(d.stores[&4], vec![0u8; 32]);
    let data = [1u8, 2, 3, 4, 5, 6, 7, 8];
    assert!(buf.can_write(2, data.len()));
    buf.write(&mut r, 2, &data);
    let written = r.take_commands();
    assert_eq!(
        written,
        vec![
            Command::BindBuffer { target: glow::SHADER_STORAGE_BUFFER, buffer: Some(4) },
            Command::BufferSubData {
                target: glow::SHADER_STORAGE_BUFFER,
                offset: 8,
                data: data.to_vec()
            },
            Command::BindBuffer { target: glow::SHADER_STORAGE_BUFFER, buffer: None },
        ]
    );
    d.perform(&written);
    assert_eq!(&d.stores[&4][8..16], &data);
    assert_eq!(&d.stores[&4][..8], &[0u8; 8]);
    assert_eq!(&d.stores[&4][16..], &[0u8; 16]);
    agrees(&r, &d);
}

#[test]
fn a_write_has_to_lie_within_the_buffer() {
    let (mut r, _) = ready();
    let buf = FixedSizeBuffer::new(&mut r, 4, 8);
    assert!(buf.can_write(0, 32));
    assert!(buf.can_write(8, 0));
    assert!(buf.can_write(7, 4));
    assert!(!buf.can_write(7, 5));
    assert!(!buf.can_write(0, 33));
    assert!(!buf.can_write(9, 0));
    assert!(!buf.can_write(usize::MAX, 1));
    assert!(!buf.can_write(1, usize::MAX));
}

#[test]
fn writes_in_a_row_land_one_after_the_other() {
    let (mut r, mut d) = ready();
    let buf = FixedSizeBuffer::new(&mut r, 2, 4);
    d.perform(&r.take_commands());
    buf.write_slice(&mut r, &vec![(0, vec![1, 2]), (3, vec![7, 8]), (0, vec![9, 9])]);
    let cmds = r.take_commands();
    assert_eq!(cmds.len(), 5);
    assert_eq!(
        cmds[2],
        Command::BufferSubData {
            target: glow::SHADER_STORAGE_BUFFER,
            offset: 6,
            data: vec![7, 8]
        }
    );
    d.perform(&cmds);
    assert_eq!(d.stores[&buf.buf()], vec![9, 9, 0, 0, 0, 0, 7, 8]);
    buf.clear(&mut r);
    d.perform(&r.take_commands());
    assert_eq!(d.stores[&buf.buf()], vec![0u8; 8]);
    agrees(&r, &d);
}

#[test]
fn unbinding_a_buffer_twice_does_nothing_the_second_time() {
    let (mut r, mut d) = ready();
    let mut buf = FixedSizeBuffer::new(&mut r, 1, 1);
    r.take_commands();
    buf.bind(&mut r, 3);
    buf.unbind(&mut r);
    let cmds = r.take_commands();
    assert_eq!(
        cmds,
        vec![
            Command::BindBufferBase {
                target: glow::SHADER_STORAGE_BUFFER,
                index: 3,
                buffer: Some(buf.buf())
            },
            Command::BindBufferBase { target: glow::SHADER_STORAGE_BUFFER, index: 3, buffer: None },
        ]
    );
    buf.unbind(&mut r);
    assert!(r.take_commands().is_empty());
    d.perform(&cmds);
    buf.destroy(&mut r);
    assert_eq!(
        r.take_commands(),
        vec![Command::DeleteObject { kind: ObjectKind::Buffer, name: 4 }]
    );
}

#[test]
fn a_counter_reads_back_what_it_was_set_to() {
    let (mut r, mut d) = ready();
    let mut counter = AtomicCounter::new(&mut r);
    d.perform(&r.take_commands());
    assert_eq!(d.stores[&4], vec![0u8; 4]);
    assert_eq!(d.stores[&5], vec![0u8; 4]);
    counter.reset(&mut r, 0x0102_0304);
    let set = r.take_commands();
    assert_eq!(
        set,
        vec![
            Command::BindBuffer { target: glow::ATOMIC_COUNTER_BUFFER, buffer: Some(4) },
            Command::BufferData {
                target: glow::ATOMIC_COUNTER_BUFFER,
                data: vec![4, 3, 2, 1],
                usage: glow::DYNAMIC_DRAW
            },
            Command::BindBuffer { target: glow::ATOMIC_COUNTER_BUFFER, buffer: None },
        ]
    );
    d.perform(&set);
    counter.read(&mut r);
    let read = r.take_commands();
    assert_eq!(read.len(), 6);
    assert_eq!(
        read[2],
        Command::CopyBufferSubData {
            read_target: glow::ATOMIC_COUNTER_BUFFER,
            write_target: glow::SHADER_STORAGE_BUFFER,
            read_offset: 0,
            write_offset: 0,
            size: 4
        }
    );
    d.perform(&read);
    assert_eq!(d.read_back.len(), 1);
    assert_eq!(AtomicCounter::value_of(&d.read_back[0]), 0x0102_0304);
    assert_eq!(AtomicCounter::value_of(&[0xff, 0, 0, 0x80]), 0x8000_00ff);
    counter.bind(&mut r, 1);
    counter.unbind(&mut r);
    counter.unbind(&mut r);
    assert_eq!(r.take_commands().len(), 2);
    counter.destroy(&mut r);
    d.perform(&r.take_commands());
    assert_eq!(d.count(ObjectKind::Buffer), 0);
    agrees(&r, &d);
}

#[test]
fn binding_then_unbinding_twice_leaves_the_flag_clear() {
    let (mut r, mut d) = ready();
    let shader = Shader::new(&mut r, ("void main() {}", "a.vs"), ("void main() {}", "a.fs"));
    d.perform(&r.take_commands());
    shader.bind(&mut r);
    assert!(r.shader_bound());
    shader.unbind(&mut r);
    assert!(!r.shader_bound());
    let cmds = r.take_commands();
    assert_eq!(
        cmds,
        vec![Command::UseProgram { program: Some(4) }, Command::UseProgram { program: None }]
    );
    d.perform(&cmds);
    shader.unbind(&mut r);
    assert!(!r.shader_bound());
    assert!(r.take_commands().is_empty());
    agrees(&r, &d);
}

#[test]
fn a_mesh_is_drawn_while_a_shader_is_bound() {
    let (mut r, mut d) = ready();
    let mesh = Mesh::quad(&mut r);
    let shader = Shader::new(&mut r, ("void main() {}", "a.vs"), ("void main() {}", "a.fs"));
    d.perform(&r.take_commands());
    assert!(!mesh.can_draw(&r));
    let res = shader.while_bound(&mut r, |r: &mut Renderer, _uni: UniformInterface| {
        assert!(mesh.can_draw(r));
        mesh.draw(r)
    });
    assert_eq!(res, Ok(()));
    assert!(!mesh.can_draw(&r));
    assert!(!r.shader_bound());
    let cmds = r.take_commands();
    assert_eq!(
        cmds,
        vec![
            Command::UseProgram { program: Some(7) },
            Command::BindVertexArray { array: Some(4) },
            Command::DrawElements {
                mode: glow::TRIANGLES,
                count: 6,
                element_type: glow::UNSIGNED_INT,
                offset: 0
            },
            Command::BindVertexArray { array: None },
            Command::UseProgram { program: None },
        ]
    );
    d.perform(&cmds);
    agrees(&r, &d);
}

#[test]
fn a_shader_is_released_when_the_scope_fails() {
    let (mut r, mut d) = ready();
    let shader = Shader::new(&mut r, ("v", "a.vs"), ("f", "a.fs"));
    let res = shader.while_bound(&mut r, |_r: &mut Renderer, _uni: UniformInterface| {
        Err(RenderError::Generic)
    });
    assert_eq!(res, Err(RenderError::Generic));
    assert!(!r.shader_bound());
    d.perform(&r.take_commands());
    assert_eq!(d.program, None);
    agrees(&r, &d);
}

#[test]
fn a_mesh_without_indices_is_drawn_vertex_by_vertex() {
    let (mut r, mut d) = ready();
    let vertices = vec![0u32; 24];
    let mesh = Mesh::from_vertices(&mut r, &vertices);
    let made = r.take_commands();
    assert_eq!(made.len(), 12);
    assert_eq!(made[0], Command::CreateObject { kind: ObjectKind::VertexArray, name: 4 });
    assert_eq!(
        made[4],
        Command::BufferDataWords {
            target: glow::ARRAY_BUFFER,
            data: vertices.clone(),
            usage: glow::STATIC_DRAW
        }
    );
    assert_eq!(
        made[8],
        Command::VertexAttribPointer {
            index: 1,
            size: 3,
            data_type: glow::FLOAT,
            normalized: false,
            stride: 32,
            offset: 12
        }
    );
    d.perform(&made);
    let own = Shader::new(&mut r, ("v", "v"), ("f", "f"));
    own.bind(&mut r);
    assert_eq!(mesh.draw(&mut r), Ok(()));
    own.unbind(&mut r);
    let cmds = r.take_commands();
    assert!(cmds.contains(&Command::DrawArrays { mode: glow::TRIANGLES, first: 0, count: 3 }));
    d.perform(&cmds);
    mesh.destroy(&mut r);
    d.perform(&r.take_commands());
    assert_eq!(d.count(ObjectKind::VertexArray), 0);
    assert_eq!(d.count(ObjectKind::Buffer), 0);
    agrees(&r, &d);
}

#[test]
fn a_write_that_does_not_fit_writes_nothing() {
    let (mut r, mut d) = ready();
    let buf = FixedSizeBuffer::new(&mut r, 4, 2);
    d.perform(&r.take_commands());
    assert!(buf.try_write(&mut r, 0, &[9u8; 8]));
    d.perform(&r.take_commands());
    let before = d.stores[&buf.buf()].clone();
    assert_eq!(before, vec![9u8; 8]);
    assert!(!buf.try_write(&mut r, 1, &[1u8, 2, 3, 4, 5]));
    assert!(!buf.try_write(&mut r, 0, &[0u8; 9]));
    assert!(!buf.try_write(&mut r, 3, &[]));
    assert!(!buf.try_write(&mut r, usize::MAX, &[1u8]));
    assert!(r.take_commands().is_empty());
    assert_eq!(d.stores[&buf.buf()], before);
    assert!(buf.try_write(&mut r, 1, &[1u8, 2, 3, 4]));
    d.perform(&r.take_commands());
    assert_eq!(d.stores[&buf.buf()], vec![9, 9, 9, 9, 1, 2, 3, 4]);
    agrees(&r, &d);
}

#[test]
fn a_buffer_keeps_its_bytes_while_other_resources_come_and_go() {
    let (mut r, mut d) = ready();
    let buf = FixedSizeBuffer::new(&mut r, 1, 4);
    buf.write(&mut r, 0, &[1, 2, 3, 4]);
    let mesh = Mesh::quad(&mut r);
    let shader = Shader::new(&mut r, ("v", "v"), ("f", "f"));
    let mut fb = Framebuffer::new(&mut r, 1);
    fb.resize(&mut r, (8, 8));
    assert_eq!(fb.draw(&mut r), Ok(()));
    shader.bind(&mut r);
    assert_eq!(mesh.draw(&mut r), Ok(()));
    shader.unbind(&mut r);
    let mut counter = AtomicCounter::new(&mut r);
    counter.bind(&mut r, 0);
    counter.unbind(&mut r);
    d.perform(&r.take_commands());
    assert_eq!(d.stores[&buf.buf()], vec![1, 2, 3, 4]);
    buf.write(&mut r, 2, &[7]);
    fb.destroy(&mut r);
    mesh.destroy(&mut r);
    shader.destroy(&mut r);
    counter.destroy(&mut r);
    d.perform(&r.take_commands());
    assert_eq!(d.stores[&buf.buf()], vec![1, 2, 7, 4]);
    assert_eq!(d.objects.len(), 2);
    agrees(&r, &d);
}
