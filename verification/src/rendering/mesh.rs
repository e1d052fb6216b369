//! Meshes: vertex data, with or without indices, in a fixed layout.

use vstd::prelude::*;
use vstd::slice::slice_to_vec;
use super::command::{Command, CommandView, ObjectKind};
use super::device::{effect, Device};
use super::gl;
use super::{Drawable, RenderError, Renderer, Status};

verus! {

/// The number of 32-bit words of one vertex: three of position, three of
/// color and two of texture coordinate.
pub const WORDS_PER_VERTEX: usize = 8;

/// The number of bytes from one vertex to the next.
pub const STRIDE: i32 = 32;

/// The vertices of the quad that covers the viewport, as bit patterns of
/// floating-point numbers: for each corner its position, white, and its
/// texture coordinate, from 0 to 1.
pub open spec fn quad_vertices() -> Seq<u32> {
    seq![
        0xBF80_0000u32, 0xBF80_0000, 0, 0x3F80_0000, 0x3F80_0000, 0x3F80_0000, 0, 0,
        0x3F80_0000, 0xBF80_0000, 0, 0x3F80_0000, 0x3F80_0000, 0x3F80_0000, 0x3F80_0000, 0,
        0xBF80_0000, 0x3F80_0000, 0, 0x3F80_0000, 0x3F80_0000, 0x3F80_0000, 0, 0x3F80_0000,
        0x3F80_0000, 0x3F80_0000, 0, 0x3F80_0000, 0x3F80_0000, 0x3F80_0000, 0x3F80_0000, 0x3F80_0000,
    ]
}

/// The two triangles of the quad.
pub open spec fn quad_indices() -> Seq<u32> {
    seq![0u32, 1, 3, 0, 3, 2]
}

/// The commands that describe the layout of a vertex to the vertex array
/// that is bound.
pub open spec fn layout_commands() -> Seq<CommandView> {
    seq![
        Command::EnableVertexAttribArray { index: 0 },
        Command::VertexAttribPointer {
            index: 0,
            size: 3,
            data_type: gl::FLOAT,
            normalized: false,
            stride: STRIDE,
            offset: 0,
        },
        Command::EnableVertexAttribArray { index: 1 },
        Command::VertexAttribPointer {
            index: 1,
            size: 3,
            data_type: gl::FLOAT,
            normalized: false,
            stride: STRIDE,
            offset: 12,
        },
        Command::EnableVertexAttribArray { index: 2 },
        Command::VertexAttribPointer {
            index: 2,
            size: 2,
            data_type: gl::FLOAT,
            normalized: false,
            stride: STRIDE,
            offset: 24,
        },
        Command::BindVertexArray { array: None },
    ]
}

/// The commands that create a buffer under `name` and fill it with `data`
/// through `target`.
pub open spec fn upload_commands(name: u32, target: u32, data: Seq<u32>) -> Seq<CommandView> {
    seq![
        Command::CreateObject { kind: ObjectKind::Buffer, name },
        Command::BindBuffer { target, buffer: Some(name) },
        Command::BufferDataWords { target, data, usage: gl::STATIC_DRAW },
    ]
}

/// The commands that build a mesh. The vertex array takes the name `first`,
/// the vertex buffer the name after it, and the index buffer, if there are
/// indices, the next.
pub open spec fn mesh_commands(first: u32, vertices: Seq<u32>, indices: Option<Seq<u32>>) -> Seq<
    CommandView,
> {
    seq![
        Command::CreateObject { kind: ObjectKind::VertexArray, name: first },
        Command::BindVertexArray { array: Some(first) },
    ] + upload_commands((first + 1) as u32, gl::ARRAY_BUFFER, vertices) + (match indices {
        Some(data) => upload_commands((first + 2) as u32, gl::ELEMENT_ARRAY_BUFFER, data),
        None => Seq::empty(),
    }) + layout_commands()
}

/// Create a buffer and fill it with `data` through `target`.
fn upload(renderer: &mut Renderer, target: u32, data: &[u32]) -> (name: u32)
    requires
        old(renderer).wf(),
        old(renderer).status().current,
        old(renderer).names_left() >= 1,
    ensures
        name == old(renderer).status().next_name,
        final(renderer).after(
            old(renderer),
            Status { next_name: (name + 1) as u32, ..old(renderer).status() },
            upload_commands(name, target, data@),
        ),
        final(renderer).device().objects == old(renderer).device().objects.insert(
            name,
            ObjectKind::Buffer,
        ),
        final(renderer).device().stores == old(renderer).device().stores.remove(name),
        final(renderer).device().program == old(renderer).device().program,
{
    let name = renderer.create(ObjectKind::Buffer);
    renderer.issue(Command::BindBuffer { target, buffer: Some(name) });
    renderer.issue(
        Command::BufferDataWords { target, data: slice_to_vec(data), usage: gl::STATIC_DRAW },
    );
    proof {
        reveal(effect);
        assert(renderer.history() =~= old(renderer).history() + upload_commands(
            name,
            target,
            data@,
        ));
        assert(renderer.pending() =~= old(renderer).pending() + upload_commands(
            name,
            target,
            data@,
        ));
    }
    name
}

/// Describe the layout of a vertex to the vertex array that is bound, and
/// release the vertex array.
fn describe_layout(renderer: &mut Renderer)
    requires
        old(renderer).wf(),
        old(renderer).status().current,
    ensures
        final(renderer).after(old(renderer), old(renderer).status(), layout_commands()),
        final(renderer).device().objects == old(renderer).device().objects,
        final(renderer).device().stores == old(renderer).device().stores,
        final(renderer).device().program == old(renderer).device().program,
{
    renderer.issue(Command::EnableVertexAttribArray { index: 0 });
    renderer.issue(
        Command::VertexAttribPointer {
            index: 0,
            size: 3,
            data_type: gl::FLOAT,
            normalized: false,
            stride: STRIDE,
            offset: 0,
        },
    );
    renderer.issue(Command::EnableVertexAttribArray { index: 1 });
    renderer.issue(
        Command::VertexAttribPointer {
            index: 1,
            size: 3,
            data_type: gl::FLOAT,
            normalized: false,
            stride: STRIDE,
            offset: 12,
        },
    );
    renderer.issue(Command::EnableVertexAttribArray { index: 2 });
    renderer.issue(
        Command::VertexAttribPointer {
            index: 2,
            size: 2,
            data_type: gl::FLOAT,
            normalized: false,
            stride: STRIDE,
            offset: 24,
        },
    );
    renderer.issue(Command::BindVertexArray { array: None });
    proof {
        reveal(effect);
        assert(renderer.history() =~= old(renderer).history() + layout_commands());
        assert(renderer.pending() =~= old(renderer).pending() + layout_commands());
    }
}

/// A vertex array with its vertex buffer and, where the mesh has indices,
/// its index buffer.
pub struct Mesh {
    vbo: u32,
    vao: u32,
    ebo: Option<u32>,
    vert_count: i32,
    index_count: i32,
}

impl Mesh {
    /// The name of the vertex array.
    pub closed spec fn vao(&self) -> u32 {
        self.vao
    }

    /// The name of the vertex buffer.
    pub closed spec fn vbo(&self) -> u32 {
        self.vbo
    }

    /// The name of the index buffer, if the mesh has indices.
    pub closed spec fn ebo(&self) -> Option<u32> {
        self.ebo
    }

    /// The number of whole vertices.
    pub closed spec fn vert_count(&self) -> i32 {
        self.vert_count
    }

    /// The number of indices.
    pub closed spec fn index_count(&self) -> i32 {
        self.index_count
    }

    /// `objects` with the objects of the mesh.
    pub open spec fn added_to(&self, objects: Map<u32, ObjectKind>) -> Map<u32, ObjectKind> {
        let with_arrays = objects.insert(self.vao(), ObjectKind::VertexArray).insert(
            self.vbo(),
            ObjectKind::Buffer,
        );
        match self.ebo() {
            Some(e) => with_arrays.insert(e, ObjectKind::Buffer),
            None => with_arrays,
        }
    }

    /// `stores` without a store filled bytewise under the names of the
    /// buffers of the mesh: they are filled with words.
    pub open spec fn cleared_from(&self, stores: Map<u32, Seq<u8>>) -> Map<u32, Seq<u8>> {
        match self.ebo() {
            Some(e) => stores.remove(self.vbo()).remove(e),
            None => stores.remove(self.vbo()),
        }
    }

    /// The commands that draw the mesh: by its indices if it has any, else
    /// vertex by vertex.
    pub open spec fn draw_commands(&self) -> Seq<CommandView> {
        seq![
            Command::BindVertexArray { array: Some(self.vao()) },
            if self.ebo() is Some {
                Command::DrawElements {
                    mode: gl::TRIANGLES,
                    count: self.index_count(),
                    element_type: gl::UNSIGNED_INT,
                    offset: 0,
                }
            } else {
                Command::DrawArrays { mode: gl::TRIANGLES, first: 0, count: self.vert_count() }
            },
            Command::BindVertexArray { array: None },
        ]
    }

    /// Set up the vertex array and the vertex buffer, and describe the
    /// layout, once the index buffer, if any, is there.
    fn build(renderer: &mut Renderer, vertex_data: &[u32], index_data: Option<&[u32]>) -> (mesh:
        Mesh)
        requires
            old(renderer).wf(),
            old(renderer).status().current,
            old(renderer).names_left() >= 3,
            vertex_data@.len() / 8 <= i32::MAX,
            index_data matches Some(data) ==> data@.len() <= i32::MAX,
        ensures
            mesh.vao() == old(renderer).status().next_name,
            mesh.vbo() == mesh.vao() + 1,
            mesh.ebo() == (if index_data is Some {
                Some((mesh.vao() + 2) as u32)
            } else {
                None
            }),
            mesh.vert_count() == vertex_data@.len() / 8,
            mesh.index_count() == (match index_data {
                Some(data) => data@.len() as int,
                None => 0,
            }),
            final(renderer).after(
                old(renderer),
                Status {
                    next_name: (mesh.vao() + if index_data is Some {
                        3int
                    } else {
                        2int
                    }) as u32,
                    ..old(renderer).status()
                },
                mesh_commands(
                    mesh.vao(),
                    vertex_data@,
                    match index_data {
                        Some(data) => Some(data@),
                        None => None,
                    },
                ),
            ),
            final(renderer).device().objects == mesh.added_to(old(renderer).device().objects),
            final(renderer).device().stores == mesh.cleared_from(old(renderer).device().stores),
            final(renderer).device().program == old(renderer).device().program,
            final(renderer).device().has(ObjectKind::VertexArray, mesh.vao()),
            final(renderer).device().has(ObjectKind::Buffer, mesh.vbo()),
            mesh.ebo() matches Some(e) ==> final(renderer).device().has(ObjectKind::Buffer, e),
    {
        let vao = renderer.create(ObjectKind::VertexArray);
        renderer.issue(Command::BindVertexArray { array: Some(vao) });
        let ghost head = seq![
            Command::CreateObject { kind: ObjectKind::VertexArray, name: vao },
            Command::BindVertexArray { array: Some(vao) },
        ];
        let ghost r1 = *renderer;
        proof {
            reveal(effect);
            assert(r1.history() =~= old(renderer).history() + head);
            assert(r1.pending() =~= old(renderer).pending() + head);
        }
        let vbo = upload(renderer, gl::ARRAY_BUFFER, vertex_data);
        let ghost r2 = *renderer;
        proof {
            r2.after_then(
                &r1,
                old(renderer),
                r1.status(),
                r2.status(),
                head,
                upload_commands(vbo, gl::ARRAY_BUFFER, vertex_data@),
            );
        }
        let mut ebo: Option<u32> = None;
        let mut index_count: i32 = 0;
        let ghost mut middle: Seq<CommandView> = Seq::empty();
        if let Some(data) = index_data {
            let e = upload(renderer, gl::ELEMENT_ARRAY_BUFFER, data);
            ebo = Some(e);
            index_count = data.len() as i32;
            proof {
                middle = upload_commands(e, gl::ELEMENT_ARRAY_BUFFER, data@);
            }
        } else {
            proof {
                r2.after_nothing();
            }
        }
        let ghost r3 = *renderer;
        proof {
            r3.after_then(
                &r2,
                old(renderer),
                r2.status(),
                r3.status(),
                head + upload_commands(vbo, gl::ARRAY_BUFFER, vertex_data@),
                middle,
            );
        }
        describe_layout(renderer);
        proof {
            renderer.after_then(
                &r3,
                old(renderer),
                r3.status(),
                renderer.status(),
                head + upload_commands(vbo, gl::ARRAY_BUFFER, vertex_data@) + middle,
                layout_commands(),
            );
        }
        Mesh { vbo, vao, ebo, vert_count: (vertex_data.len() / WORDS_PER_VERTEX) as i32, index_count }
    }

    /// The quad that covers the viewport, as two triangles.
    pub fn quad(renderer: &mut Renderer) -> (mesh: Mesh)
        requires
            old(renderer).wf(),
            old(renderer).status().current,
            old(renderer).names_left() >= 3,
        ensures
            mesh.vao() == old(renderer).status().next_name,
            mesh.vbo() == mesh.vao() + 1,
            mesh.ebo() == Some((mesh.vao() + 2) as u32),
            mesh.vert_count() == 4,
            mesh.index_count() == 6,
            final(renderer).after(
                old(renderer),
                Status { next_name: (mesh.vao() + 3) as u32, ..old(renderer).status() },
                mesh_commands(mesh.vao(), quad_vertices(), Some(quad_indices())),
            ),
            final(renderer).device().objects == mesh.added_to(old(renderer).device().objects),
            final(renderer).device().stores == mesh.cleared_from(old(renderer).device().stores),
            final(renderer).device().program == old(renderer).device().program,
            final(renderer).device().has(ObjectKind::VertexArray, mesh.vao()),
            final(renderer).device().has(ObjectKind::Buffer, mesh.vbo()),
            final(renderer).device().has(ObjectKind::Buffer, (mesh.vao() + 2) as u32),
    {
        let quad_vertices: [u32; 32] = [
            0xBF80_0000, 0xBF80_0000, 0, 0x3F80_0000, 0x3F80_0000, 0x3F80_0000, 0, 0,
            0x3F80_0000, 0xBF80_0000, 0, 0x3F80_0000, 0x3F80_0000, 0x3F80_0000, 0x3F80_0000, 0,
            0xBF80_0000, 0x3F80_0000, 0, 0x3F80_0000, 0x3F80_0000, 0x3F80_0000, 0, 0x3F80_0000,
            0x3F80_0000, 0x3F80_0000, 0, 0x3F80_0000, 0x3F80_0000, 0x3F80_0000, 0x3F80_0000,
            0x3F80_0000,
        ];
        let quad_indices: [u32; 6] = [0, 1, 3, 0, 3, 2];
        assert(quad_vertices@ =~= self::quad_vertices());
        assert(quad_indices@ =~= self::quad_indices());
        Mesh::from_verts_indices(renderer, quad_vertices.as_slice(), quad_indices.as_slice())
    }

    /// A mesh of the triangles that `vertex_data` lists, three vertices for
    /// each. A vertex is eight words, each the bit pattern of a
    /// floating-point number.
    pub fn from_vertices(renderer: &mut Renderer, vertex_data: &[u32]) -> (mesh: Mesh)
        requires
            old(renderer).wf(),
            old(renderer).status().current,
            old(renderer).names_left() >= 3,
            vertex_data@.len() / 8 <= i32::MAX,
        ensures
            mesh.vao() == old(renderer).status().next_name,
            mesh.vbo() == mesh.vao() + 1,
            mesh.ebo() is None,
            mesh.vert_count() == vertex_data@.len() / 8,
            mesh.index_count() == 0,
            final(renderer).after(
                old(renderer),
                Status { next_name: (mesh.vao() + 2) as u32, ..old(renderer).status() },
                mesh_commands(mesh.vao(), vertex_data@, None),
            ),
            final(renderer).device().objects == mesh.added_to(old(renderer).device().objects),
            final(renderer).device().stores == mesh.cleared_from(old(renderer).device().stores),
            final(renderer).device().program == old(renderer).device().program,
            final(renderer).device().has(ObjectKind::VertexArray, mesh.vao()),
            final(renderer).device().has(ObjectKind::Buffer, mesh.vbo()),
    {
        Mesh::build(renderer, vertex_data, None)
    }

    /// A mesh of the triangles that `index_data` lists, three indices into
    /// `vertex_data` for each. A vertex is eight words, each the bit pattern
    /// of a floating-point number.
    pub fn from_verts_indices(renderer: &mut Renderer, vertex_data: &[u32], index_data: &[u32]) -> (mesh:
        Mesh)
        requires
            old(renderer).wf(),
            old(renderer).status().current,
            old(renderer).names_left() >= 3,
            vertex_data@.len() / 8 <= i32::MAX,
            index_data@.len() <= i32::MAX,
        ensures
            mesh.vao() == old(renderer).status().next_name,
            mesh.vbo() == mesh.vao() + 1,
            mesh.ebo() == Some((mesh.vao() + 2) as u32),
            mesh.vert_count() == vertex_data@.len() / 8,
            mesh.index_count() == index_data@.len(),
            final(renderer).after(
                old(renderer),
                Status { next_name: (mesh.vao() + 3) as u32, ..old(renderer).status() },
                mesh_commands(mesh.vao(), vertex_data@, Some(index_data@)),
            ),
            final(renderer).device().objects == mesh.added_to(old(renderer).device().objects),
            final(renderer).device().stores == mesh.cleared_from(old(renderer).device().stores),
            final(renderer).device().program == old(renderer).device().program,
            final(renderer).device().has(ObjectKind::VertexArray, mesh.vao()),
            final(renderer).device().has(ObjectKind::Buffer, mesh.vbo()),
            final(renderer).device().has(ObjectKind::Buffer, (mesh.vao() + 2) as u32),
    {
        Mesh::build(renderer, vertex_data, Some(index_data))
    }

    /// Whether the mesh may be drawn: whether a program is bound on a
    /// current context. To draw where it may not is a mistake that the
    /// caller has to stop at.
    pub fn can_draw(&self, renderer: &Renderer) -> (b: bool)
        ensures
            b == (renderer.status().current && renderer.status().shader_bound),
            renderer.wf() ==> b == self.drawable(renderer),
    {
        renderer.is_context_current() && renderer.shader_bound()
    }

    /// Delete the vertex array and the buffers of the mesh.
    pub fn destroy(self, renderer: &mut Renderer)
        requires
            old(renderer).wf(),
            old(renderer).status().current,
        ensures
            final(renderer).after(
                old(renderer),
                old(renderer).status(),
                seq![
                    Command::DeleteObject { kind: ObjectKind::VertexArray, name: self.vao() },
                    Command::DeleteObject { kind: ObjectKind::Buffer, name: self.vbo() },
                ] + (match self.ebo() {
                    Some(e) => seq![Command::DeleteObject { kind: ObjectKind::Buffer, name: e }],
                    None => Seq::empty(),
                }),
            ),
            final(renderer).device() == (Device {
                objects: match self.ebo() {
                    Some(e) => old(renderer).device().objects.remove(self.vao()).remove(
                        self.vbo(),
                    ).remove(e),
                    None => old(renderer).device().objects.remove(self.vao()).remove(self.vbo()),
                },
                stores: match self.ebo() {
                    Some(e) => old(renderer).device().stores.remove(self.vao()).remove(
                        self.vbo(),
                    ).remove(e),
                    None => old(renderer).device().stores.remove(self.vao()).remove(self.vbo()),
                },
                ..old(renderer).device()
            }),
    {
        renderer.delete(ObjectKind::VertexArray, self.vao);
        renderer.delete(ObjectKind::Buffer, self.vbo);
        if let Some(e) = self.ebo {
            renderer.delete(ObjectKind::Buffer, e);
        }
        proof {
            let cs = seq![
                Command::DeleteObject { kind: ObjectKind::VertexArray, name: self.vao() },
                Command::DeleteObject { kind: ObjectKind::Buffer, name: self.vbo() },
            ] + (match self.ebo() {
                Some(e) => seq![Command::DeleteObject { kind: ObjectKind::Buffer, name: e }],
                None => Seq::empty(),
            });
            assert(renderer.history() =~= old(renderer).history() + cs);
            assert(renderer.pending() =~= old(renderer).pending() + cs);
        }
    }
}

impl Drawable for Mesh {
    /// A mesh is drawn with the program that is bound: there has to be one.
    open spec fn drawable(&self, renderer: &Renderer) -> bool {
        &&& renderer.wf()
        &&& renderer.status().current
        &&& renderer.status().shader_bound
    }

    open spec fn drawn(&self, before: &Renderer) -> Seq<CommandView> {
        self.draw_commands()
    }

    fn draw(&self, renderer: &mut Renderer) -> (res: Result<(), RenderError>)
        ensures
            final(renderer).pending() == old(renderer).pending() + self.draw_commands(),
            final(renderer).origin() == old(renderer).origin(),
            final(renderer).device() == (Device { vertex_array: None, ..old(renderer).device() }),
    {
        renderer.issue(Command::BindVertexArray { array: Some(self.vao) });
        if self.ebo.is_some() {
            renderer.issue_draw(
                Command::DrawElements {
                    mode: gl::TRIANGLES,
                    count: self.index_count,
                    element_type: gl::UNSIGNED_INT,
                    offset: 0,
                },
            );
        } else {
            renderer.issue_draw(
                Command::DrawArrays { mode: gl::TRIANGLES, first: 0, count: self.vert_count },
            );
        }
        renderer.issue(Command::BindVertexArray { array: None });
        proof {
            reveal(effect);
            assert(renderer.history() =~= old(renderer).history() + self.draw_commands());
            assert(renderer.pending() =~= old(renderer).pending() + self.draw_commands());
        }
        Ok(())
    }
}

} // verus!
