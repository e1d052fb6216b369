//! Framebuffers: render targets off the screen, drawn to the screen as a
//! quad.

use vstd::prelude::*;
use super::command::{Command, CommandView, ObjectKind};
use super::device::{effect, Device};
use super::gl;
use super::mesh::Mesh;
use super::shader::Shader;
use super::texture::{bind_commands, bind_tex, unbind_commands, unbind_tex};
use super::{at_least, Drawable, RenderError, Renderer, Status};

verus! {

/// What `clear` clears: color, depth and stencil.
pub open spec fn clear_mask() -> u32 {
    gl::COLOR_BUFFER_BIT | gl::DEPTH_BUFFER_BIT | gl::STENCIL_BUFFER_BIT
}

/// The commands that create the color attachment `layer` of the
/// framebuffer that is bound, under the name `tex`.
pub open spec fn layer_commands(tex: u32, layer: int, size: (i32, i32)) -> Seq<CommandView> {
    seq![
        Command::CreateObject { kind: ObjectKind::Texture, name: tex },
        Command::BindTexture { target: gl::TEXTURE_2D, texture: Some(tex) },
        Command::TexImage2D {
            target: gl::TEXTURE_2D,
            level: 0,
            internal_format: 0x8814,
            width: size.0,
            height: size.1,
            border: 0,
            format: gl::RGBA,
            data_type: gl::UNSIGNED_BYTE,
            pixels: None,
        },
        Command::TexParameterI32 {
            target: gl::TEXTURE_2D,
            parameter: gl::TEXTURE_MIN_FILTER,
            value: 0x2600,
        },
        Command::TexParameterI32 {
            target: gl::TEXTURE_2D,
            parameter: gl::TEXTURE_MAG_FILTER,
            value: 0x2600,
        },
        Command::FramebufferTexture2D {
            target: gl::FRAMEBUFFER,
            attachment: (gl::COLOR_ATTACHMENT0 + layer) as u32,
            texture_target: gl::TEXTURE_2D,
            texture: Some(tex),
            level: 0,
        },
    ]
}

/// The commands that create the first `count` color attachments of the
/// framebuffer `fbo`; attachment `i` takes the name `fbo + 1 + i`.
pub open spec fn layers_commands(fbo: u32, size: (i32, i32), count: nat) -> Seq<CommandView>
    decreases count,
{
    if count == 0 {
        Seq::empty()
    } else {
        layers_commands(fbo, size, (count - 1) as nat) + layer_commands(
            (fbo + count) as u32,
            count - 1,
            size,
        )
    }
}

/// The color attachment points of `count` layers.
pub open spec fn color_attachments(count: nat) -> Seq<u32> {
    Seq::new(count, |i: int| (gl::COLOR_ATTACHMENT0 + i) as u32)
}

/// The names of the attachments of the framebuffer `fbo`.
pub open spec fn attachment_names(fbo: u32, count: nat) -> Seq<u32> {
    Seq::new(count, |i: int| (fbo + 1 + i) as u32)
}

/// The commands that create the framebuffer `fbo` and bind it.
pub open spec fn open_commands(fbo: u32) -> Seq<CommandView> {
    seq![
        Command::CreateObject { kind: ObjectKind::Framebuffer, name: fbo },
        Command::BindFramebuffer { target: gl::FRAMEBUFFER, framebuffer: Some(fbo) },
    ]
}

/// The command that deletes the framebuffer `fbo`.
pub open spec fn close_commands(fbo: u32) -> Seq<CommandView> {
    seq![Command::DeleteObject { kind: ObjectKind::Framebuffer, name: fbo }]
}

/// The commands that create the framebuffer `fbo` with `layers` color
/// attachments of `size` pixels, and check that it is complete.
pub open spec fn framebuffer_commands(fbo: u32, size: (i32, i32), layers: nat) -> Seq<
    CommandView,
> {
    open_commands(fbo) + layers_commands(fbo, size, layers) + seq![
        Command::DrawBuffers { buffers: color_attachments(layers) },
        Command::CheckFramebufferComplete { target: gl::FRAMEBUFFER },
        Command::BindFramebuffer { target: gl::FRAMEBUFFER, framebuffer: None },
    ]
}

/// The commands that delete the first `count` attachments of the
/// framebuffer `fbo`.
pub open spec fn delete_layers(fbo: u32, count: nat) -> Seq<CommandView>
    decreases count,
{
    if count == 0 {
        Seq::empty()
    } else {
        delete_layers(fbo, (count - 1) as nat).push(
            Command::DeleteObject { kind: ObjectKind::Texture, name: (fbo + count) as u32 },
        )
    }
}

/// The commands that delete the framebuffer `fbo` and its `count`
/// attachments.
pub open spec fn delete_commands(fbo: u32, count: nat) -> Seq<CommandView> {
    close_commands(fbo) + delete_layers(fbo, count)
}

/// The commands that bind the first `count` attachments of the framebuffer
/// `fbo`, attachment `i` to the texture unit `i`.
pub open spec fn bind_layers(fbo: u32, count: nat) -> Seq<CommandView>
    decreases count,
{
    if count == 0 {
        Seq::empty()
    } else {
        bind_layers(fbo, (count - 1) as nat) + bind_commands(
            (fbo + count) as u32,
            (count - 1) as u32,
        )
    }
}

/// Whether `device` holds the framebuffer `fbo` and its `count`
/// attachments.
pub open spec fn holds(device: Device, fbo: u32, count: nat) -> bool {
    &&& device.has(ObjectKind::Framebuffer, fbo)
    &&& forall|n: u32| fbo < n <= fbo + count ==> #[trigger] device.has(ObjectKind::Texture, n)
}

/// Whether `after` differs from `before` in the objects named from `low`
/// to `high` at most.
pub open spec fn same_outside(after: Device, before: Device, low: int, high: int) -> bool {
    forall|n: u32|
        !(low <= n <= high) ==> after.objects.contains_key(n) == #[trigger]
            before.objects.contains_key(n) && (before.objects.contains_key(n) ==> after.objects[n]
            == before.objects[n])
}

/// Whether `after` differs from `before` in the objects named from `fbo`
/// to `fbo + count` at most.
pub open spec fn same_but(after: Device, before: Device, fbo: u32, count: nat) -> bool {
    same_outside(after, before, fbo as int, fbo + count)
}

/// Whether `device` has no object named from `low` to `high`.
pub open spec fn none_within(device: Device, low: int, high: int) -> bool {
    forall|n: u32| low <= n <= high ==> !#[trigger] device.objects.contains_key(n)
}

/// Whether `after` has, outside the names from `low` to `high`, the byte
/// stores that `before` has.
pub open spec fn stores_outside(after: Device, before: Device, low: int, high: int) -> bool {
    forall|n: u32|
        !(low <= n <= high) ==> after.stores.contains_key(n) == #[trigger]
            before.stores.contains_key(n) && (before.stores.contains_key(n) ==> after.stores[n]
            == before.stores[n])
}

/// Create the framebuffer `fbo` with `layers` color attachments of `size`
/// pixels, under names that no live object has. That it is complete is
/// checked when the commands are performed; if it is not, that is fatal.
fn create_fb(renderer: &mut Renderer, fbo: u32, size: (i32, i32), layers: u8) -> (tex: Vec<u32>)
    requires
        old(renderer).wf(),
        old(renderer).status().current,
        fbo + layers < u32::MAX,
        none_within(old(renderer).device(), fbo as int, fbo + layers),
    ensures
        tex@ == attachment_names(fbo, layers as nat),
        final(renderer).after(
            old(renderer),
            Status {
                next_name: at_least(old(renderer).status().next_name, fbo + layers + 1),
                ..old(renderer).status()
            },
            framebuffer_commands(fbo, size, layers as nat),
        ),
        holds(final(renderer).device(), fbo, layers as nat),
        same_but(final(renderer).device(), old(renderer).device(), fbo, layers as nat),
        final(renderer).device().objects.dom().len() == old(renderer).device().objects.dom().len()
            + layers + 1,
        final(renderer).device().program == old(renderer).device().program,
        final(renderer).device().stores == old(renderer).device().stores,
{
    renderer.create_named(ObjectKind::Framebuffer, fbo);
    renderer.issue(Command::BindFramebuffer { target: gl::FRAMEBUFFER, framebuffer: Some(fbo) });
    let ghost r1 = *renderer;
    proof {
        reveal(effect);
        assert(r1.history() =~= old(renderer).history() + open_commands(fbo));
        assert(r1.pending() =~= old(renderer).pending() + open_commands(fbo));
        assert(!old(renderer).device().objects.dom().contains(fbo));
        assert forall|n: u32| fbo + 1 <= n <= fbo + layers implies !#[trigger] r1.device().objects.contains_key(
        n) by {
            assert(!old(renderer).device().objects.contains_key(n));
        }
    }
    let (tex_buf, buf) = attach_layers(renderer, fbo, size, layers);
    let ghost r2 = *renderer;
    let ghost tail = seq![
        Command::DrawBuffers { buffers: color_attachments(layers as nat) },
        Command::CheckFramebufferComplete { target: gl::FRAMEBUFFER },
        Command::BindFramebuffer { target: gl::FRAMEBUFFER, framebuffer: None },
    ];
    renderer.issue(Command::DrawBuffers { buffers: buf });
    renderer.issue(Command::CheckFramebufferComplete { target: gl::FRAMEBUFFER });
    renderer.issue(Command::BindFramebuffer { target: gl::FRAMEBUFFER, framebuffer: None });
    proof {
        assert(renderer.history() =~= r2.history() + tail);
        assert(renderer.pending() =~= r2.pending() + tail);
        r2.after_then(
            &r1,
            old(renderer),
            r1.status(),
            r2.status(),
            open_commands(fbo),
            layers_commands(fbo, size, layers as nat),
        );
        renderer.after_then(
            &r2,
            old(renderer),
            r2.status(),
            renderer.status(),
            open_commands(fbo) + layers_commands(fbo, size, layers as nat),
            tail,
        );
        assert forall|n: u32| fbo < n <= fbo + layers implies #[trigger] renderer.device().has(
            ObjectKind::Texture,
            n,
        ) by {
            assert(r2.device().has(ObjectKind::Texture, n));
        }
        let first = old(renderer).device();
        assert forall|n: u32| !(fbo <= n <= fbo + layers) implies renderer.device().objects.contains_key(
            n,
        ) == #[trigger] first.objects.contains_key(n) && (first.objects.contains_key(n)
            ==> renderer.device().objects[n] == first.objects[n]) by {
            assert(r1.device().objects.contains_key(n) == first.objects.contains_key(n));
        }
    }
    tex_buf
}

/// Create the `layers` color attachments of the framebuffer `fbo`, which
/// is bound, under the names that follow its own.
fn attach_layers(renderer: &mut Renderer, fbo: u32, size: (i32, i32), layers: u8) -> (made: (
    Vec<u32>,
    Vec<u32>,
))
    requires
        old(renderer).wf(),
        old(renderer).status().current,
        old(renderer).status().next_name > fbo,
        fbo + layers < u32::MAX,
        old(renderer).device().has(ObjectKind::Framebuffer, fbo),
        none_within(old(renderer).device(), fbo + 1, fbo + layers),
    ensures
        made.0@ == attachment_names(fbo, layers as nat),
        made.1@ == color_attachments(layers as nat),
        final(renderer).after(
            old(renderer),
            Status {
                next_name: at_least(old(renderer).status().next_name, fbo + layers + 1),
                ..old(renderer).status()
            },
            layers_commands(fbo, size, layers as nat),
        ),
        holds(final(renderer).device(), fbo, layers as nat),
        same_outside(final(renderer).device(), old(renderer).device(), fbo + 1, fbo + layers),
        final(renderer).device().objects.dom().len() == old(renderer).device().objects.dom().len()
            + layers,
        final(renderer).device().program == old(renderer).device().program,
        final(renderer).device().stores == old(renderer).device().stores,
{
    let mut tex_buf: Vec<u32> = Vec::new();
    let mut buf: Vec<u32> = Vec::new();
    let mut i: u8 = 0;
    proof {
        old(renderer).after_nothing();
        assert(tex_buf@ =~= attachment_names(fbo, 0));
        assert(buf@ =~= color_attachments(0));
    }
    while i < layers
        invariant
            i <= layers,
            old(renderer).status().next_name > fbo,
            fbo + layers < u32::MAX,
            old(renderer).status().current,
            none_within(old(renderer).device(), fbo + 1, fbo + layers),
            tex_buf@ == attachment_names(fbo, i as nat),
            buf@ == color_attachments(i as nat),
            renderer.after(
                old(renderer),
                Status {
                    next_name: at_least(old(renderer).status().next_name, fbo + i + 1),
                    ..old(renderer).status()
                },
                layers_commands(fbo, size, i as nat),
            ),
            holds(renderer.device(), fbo, i as nat),
            same_outside(renderer.device(), old(renderer).device(), fbo + 1, fbo + i),
            renderer.device().objects.dom().len() == old(renderer).device().objects.dom().len() + i,
            renderer.device().program == old(renderer).device().program,
            renderer.device().stores == old(renderer).device().stores,
        decreases layers - i,
    {
        let ghost before = *renderer;
        let tex: u32 = fbo + 1 + i as u32;
        proof {
            assert(!old(renderer).device().objects.contains_key(tex));
            assert(!before.device().objects.contains_key(tex));
        }
        attach_layer(renderer, tex, size, i);
        proof {
            renderer.after_then(
                &before,
                old(renderer),
                before.status(),
                renderer.status(),
                layers_commands(fbo, size, i as nat),
                layer_commands(tex, i as int, size),
            );
            assert(!before.device().objects.dom().contains(tex));
            assert forall|n: u32| fbo < n <= fbo + i + 1 implies #[trigger] renderer.device().has(
                ObjectKind::Texture,
                n,
            ) by {
                if n != tex {
                    assert(before.device().has(ObjectKind::Texture, n));
                }
            }
        }
        tex_buf.push(tex);
        buf.push(gl::COLOR_ATTACHMENT0 + i as u32);
        i += 1;
        proof {
            assert(tex_buf@ =~= attachment_names(fbo, i as nat));
            assert(buf@ =~= color_attachments(i as nat));
        }
    }
    (tex_buf, buf)
}

/// Create the color attachment `layer` of the framebuffer that is bound,
/// under the name `tex`, which no live object has.
fn attach_layer(renderer: &mut Renderer, tex: u32, size: (i32, i32), layer: u8)
    requires
        old(renderer).wf(),
        old(renderer).status().current,
        tex < u32::MAX,
        !old(renderer).device().objects.contains_key(tex),
    ensures
        final(renderer).after(
            old(renderer),
            Status {
                next_name: at_least(old(renderer).status().next_name, tex + 1),
                ..old(renderer).status()
            },
            layer_commands(tex, layer as int, size),
        ),
        final(renderer).device() == (Device {
            objects: old(renderer).device().objects.insert(tex, ObjectKind::Texture),
            ..old(renderer).device()
        }),
{
    renderer.create_named(ObjectKind::Texture, tex);
    renderer.issue(Command::BindTexture { target: gl::TEXTURE_2D, texture: Some(tex) });
    renderer.issue(
        Command::TexImage2D {
            target: gl::TEXTURE_2D,
            level: 0,
            internal_format: 0x8814,
            width: size.0,
            height: size.1,
            border: 0,
            format: gl::RGBA,
            data_type: gl::UNSIGNED_BYTE,
            pixels: None,
        },
    );
    renderer.issue(
        Command::TexParameterI32 {
            target: gl::TEXTURE_2D,
            parameter: gl::TEXTURE_MIN_FILTER,
            value: 0x2600,
        },
    );
    renderer.issue(
        Command::TexParameterI32 {
            target: gl::TEXTURE_2D,
            parameter: gl::TEXTURE_MAG_FILTER,
            value: 0x2600,
        },
    );
    renderer.issue(
        Command::FramebufferTexture2D {
            target: gl::FRAMEBUFFER,
            attachment: gl::COLOR_ATTACHMENT0 + layer as u32,
            texture_target: gl::TEXTURE_2D,
            texture: Some(tex),
            level: 0,
        },
    );
    proof {
        let cs = layer_commands(tex, layer as int, size);
        assert(renderer.history() =~= old(renderer).history() + cs);
        assert(renderer.pending() =~= old(renderer).pending() + cs);
    }
}

/// Delete the framebuffer `fbo` and its `count` attachments.
fn release(renderer: &mut Renderer, fbo: u32, count: u8)
    requires
        old(renderer).wf(),
        old(renderer).status().current,
        fbo + count <= u32::MAX,
    ensures
        final(renderer).after(
            old(renderer),
            old(renderer).status(),
            delete_commands(fbo, count as nat),
        ),
        none_within(final(renderer).device(), fbo as int, fbo + count),
        same_but(final(renderer).device(), old(renderer).device(), fbo, count as nat),
        stores_outside(final(renderer).device(), old(renderer).device(), fbo as int, fbo + count),
        holds(old(renderer).device(), fbo, count as nat) ==> final(
            renderer).device().objects.dom().len() + count + 1 == old(
            renderer).device().objects.dom().len(),
        final(renderer).device().program == old(renderer).device().program,
{
    renderer.delete(ObjectKind::Framebuffer, fbo);
    let ghost head = close_commands(fbo);
    proof {
        assert(head + delete_layers(fbo, 0) =~= head);
    }
    let mut i: u8 = 0;
    while i < count
        invariant
            i <= count,
            fbo + count <= u32::MAX,
            head == close_commands(fbo),
            old(renderer).status().current,
            renderer.after(
                old(renderer),
                old(renderer).status(),
                head + delete_layers(fbo, i as nat),
            ),
            renderer.status().current,
            none_within(renderer.device(), fbo as int, fbo + i),
            same_outside(renderer.device(), old(renderer).device(), fbo as int, fbo + i),
            stores_outside(renderer.device(), old(renderer).device(), fbo as int, fbo + i),
            holds(old(renderer).device(), fbo, count as nat) ==> renderer.device().objects.dom().len()
                + i + 1 == old(renderer).device().objects.dom().len(),
            renderer.device().program == old(renderer).device().program,
        decreases count - i,
    {
        let ghost before = *renderer;
        let name: u32 = fbo + 1 + i as u32;
        proof {
            if holds(old(renderer).device(), fbo, count as nat) {
                assert(old(renderer).device().has(ObjectKind::Texture, name));
                assert(before.device().objects.dom().contains(name));
            }
        }
        renderer.delete(ObjectKind::Texture, name);
        i += 1;
        proof {
            let sofar = delete_layers(fbo, (i - 1) as nat);
            let one = seq![Command::DeleteObject { kind: ObjectKind::Texture, name }];
            renderer.after_then(
                &before,
                old(renderer),
                before.status(),
                renderer.status(),
                head + sofar,
                one,
            );
            assert(sofar + one =~= delete_layers(fbo, i as nat));
            assert(head + sofar + one =~= head + (sofar + one));
        }
    }
}

/// An off-screen render target with color attachments, and the quad that
/// draws what it holds.
pub struct Framebuffer {
    target: Target,
    mesh: Mesh,
}

/// The framebuffer object, its attachments and their size.
struct Target {
    fbo: u32,
    tex: Vec<u32>,
    size: (usize, usize),
}

impl Target {
    #[verifier::type_invariant]
    spec fn sound(&self) -> bool {
        &&& self.tex@.len() <= 255
        &&& self.fbo + self.tex@.len() < u32::MAX
        &&& self.tex@ == attachment_names(self.fbo, self.tex@.len())
        &&& 0 < self.size.0 <= i32::MAX
        &&& 0 < self.size.1 <= i32::MAX
    }
}

impl Framebuffer {

    /// The name of the framebuffer. Its attachments have the names that
    /// follow.
    pub closed spec fn name(&self) -> u32 {
        self.target.fbo
    }

    /// The number of color attachments.
    pub closed spec fn layers(&self) -> nat {
        self.target.tex@.len()
    }

    /// The quad that draws the framebuffer.
    pub closed spec fn quad(&self) -> Mesh {
        self.mesh
    }

    /// The width and the height, in pixels.
    pub closed spec fn extent(&self) -> (usize, usize) {
        self.target.size
    }

    /// Whether `device` holds the framebuffer and its attachments.
    pub open spec fn live_in(&self, device: Device) -> bool {
        holds(device, self.name(), self.layers())
    }

    /// The commands that draw what the framebuffer holds with the program
    /// that is bound.
    pub open spec fn body_commands(&self) -> Seq<CommandView> {
        bind_layers(self.name(), self.layers()) + self.quad().draw_commands() + unbind_commands()
    }

    /// A framebuffer of `size` pixels with `layers` color attachments.
    pub fn with_resolution(renderer: &mut Renderer, size: (i32, i32), layers: u8) -> (fb:
        Framebuffer)
        requires
            old(renderer).wf(),
            old(renderer).status().current,
            old(renderer).names_left() >= layers + 4,
            size.0 > 0,
            size.1 > 0,
        ensures
            fb.name() == old(renderer).status().next_name,
            fb.layers() == layers,
            fb.extent() == (size.0 as usize, size.1 as usize),
            fb.quad().vao() == fb.name() + layers + 1,
            fb.quad().vbo() == fb.name() + layers + 2,
            fb.quad().ebo() == Some((fb.name() + layers + 3) as u32),
            final(renderer).after(
                old(renderer),
                Status { next_name: (fb.name() + layers + 4) as u32, ..old(renderer).status() },
                framebuffer_commands(fb.name(), size, layers as nat) + super::mesh::mesh_commands(
                    fb.quad().vao(),
                    super::mesh::quad_vertices(),
                    Some(super::mesh::quad_indices()),
                ),
            ),
            fb.live_in(final(renderer).device()),
            final(renderer).device().stores == fb.quad().cleared_from(
                old(renderer).device().stores,
            ),
            final(renderer).device().program == old(renderer).device().program,
    {
        let fbo = renderer.next_name();
        assert(none_within(renderer.device(), fbo as int, fbo + layers));
        let tex = create_fb(renderer, fbo, size, layers);
        let ghost mid = *renderer;
        let mesh = Mesh::quad(renderer);
        proof {
            renderer.after_then(
                &mid,
                old(renderer),
                mid.status(),
                renderer.status(),
                framebuffer_commands(fbo, size, layers as nat),
                super::mesh::mesh_commands(
                    mesh.vao(),
                    super::mesh::quad_vertices(),
                    Some(super::mesh::quad_indices()),
                ),
            );
            assert forall|n: u32| fbo < n <= fbo + layers implies #[trigger] renderer.device().has(
                ObjectKind::Texture,
                n,
            ) by {
                assert(mid.device().has(ObjectKind::Texture, n));
            }
        }
        Framebuffer { target: Target { fbo, tex, size: (size.0 as usize, size.1 as usize) }, mesh }
    }

    /// The width and the height, in pixels. Neither is ever zero.
    pub fn size(&self) -> (size: (usize, usize))
        ensures
            size == self.extent(),
            0 < size.0 <= i32::MAX,
            0 < size.1 <= i32::MAX,
    {
        proof {
            use_type_invariant(&self.target);
        }
        self.target.size
    }

    /// Clear the color, the depth and the stencil of the framebuffer that
    /// is bound.
    pub fn clear(&self, renderer: &mut Renderer)
        requires
            old(renderer).wf(),
            old(renderer).status().current,
        ensures
            final(renderer).after(
                old(renderer),
                old(renderer).status(),
                seq![Command::Clear { mask: clear_mask() }],
            ),
            final(renderer).device() == old(renderer).device(),
    {
        renderer.issue(
            Command::Clear {
                mask: gl::COLOR_BUFFER_BIT | gl::DEPTH_BUFFER_BIT | gl::STENCIL_BUFFER_BIT,
            },
        );
    }

    /// Bind the attachment `layer` to the texture unit `location`.
    pub fn bind_tex(&self, renderer: &mut Renderer, layer: u8, location: u32)
        requires
            old(renderer).wf(),
            old(renderer).status().current,
            layer < self.layers(),
            gl::TEXTURE0 + location <= u32::MAX,
        ensures
            final(renderer).after(
                old(renderer),
                old(renderer).status(),
                bind_commands((self.name() + 1 + layer) as u32, location),
            ),
            final(renderer).device() == old(renderer).device(),
    {
        proof {
            use_type_invariant(&self.target);
        }
        bind_tex(renderer, self.target.tex[layer as usize], location);
    }

    /// Release the texture of the active unit.
    pub fn unbind_tex(&self, renderer: &mut Renderer)
        requires
            old(renderer).wf(),
            old(renderer).status().current,
        ensures
            final(renderer).after(old(renderer), old(renderer).status(), unbind_commands()),
            final(renderer).device() == old(renderer).device(),
    {
        unbind_tex(renderer);
    }

    /// A framebuffer of the size of the surface with `layers` color
    /// attachments.
    pub fn new(renderer: &mut Renderer, layers: u8) -> (fb: Framebuffer)
        requires
            old(renderer).wf(),
            old(renderer).status().current,
            old(renderer).names_left() >= layers + 4,
            0 < old(renderer).status().size.0 <= i32::MAX,
            0 < old(renderer).status().size.1 <= i32::MAX,
        ensures
            fb.name() == old(renderer).status().next_name,
            fb.layers() == layers,
            fb.extent() == (
                old(renderer).status().size.0 as usize,
                old(renderer).status().size.1 as usize,
            ),
            fb.quad().vao() == fb.name() + layers + 1,
            fb.quad().vbo() == fb.name() + layers + 2,
            fb.quad().ebo() == Some((fb.name() + layers + 3) as u32),
            final(renderer).after(
                old(renderer),
                Status { next_name: (fb.name() + layers + 4) as u32, ..old(renderer).status() },
                framebuffer_commands(
                    fb.name(),
                    (
                        old(renderer).status().size.0 as i32,
                        old(renderer).status().size.1 as i32,
                    ),
                    layers as nat,
                ) + super::mesh::mesh_commands(
                    fb.quad().vao(),
                    super::mesh::quad_vertices(),
                    Some(super::mesh::quad_indices()),
                ),
            ),
            fb.live_in(final(renderer).device()),
            final(renderer).device().stores == fb.quad().cleared_from(
                old(renderer).device().stores,
            ),
            final(renderer).device().program == old(renderer).device().program,
    {
        let size = renderer.size();
        Framebuffer::with_resolution(renderer, (size.0 as i32, size.1 as i32), layers)
    }

    /// Give the framebuffer a new size: delete the framebuffer and its
    /// attachments, then create them anew in that size, under the names
    /// that they had. A size that is not positive in both dimensions is
    /// passed over, and nothing is done.
    ///
    /// Where the device held the framebuffer before, it holds as many
    /// objects after as before, and no name is used up.
    pub fn resize(&mut self, renderer: &mut Renderer, size: (i32, i32))
        requires
            old(renderer).wf(),
            old(renderer).status().current,
        ensures
            final(self).quad() == old(self).quad(),
            final(self).layers() == old(self).layers(),
            final(self).name() == old(self).name(),
            size.0 > 0 && size.1 > 0 ==> {
                &&& final(self).extent() == (size.0 as usize, size.1 as usize)
                &&& final(renderer).after(
                    old(renderer),
                    Status {
                        next_name: at_least(
                            old(renderer).status().next_name,
                            old(self).name() + old(self).layers() + 1,
                        ),
                        ..old(renderer).status()
                    },
                    delete_commands(old(self).name(), old(self).layers()) + framebuffer_commands(
                        old(self).name(),
                        size,
                        old(self).layers(),
                    ),
                )
                &&& final(self).live_in(final(renderer).device())
                &&& same_but(
                    final(renderer).device(),
                    old(renderer).device(),
                    old(self).name(),
                    old(self).layers(),
                )
                &&& stores_outside(
                    final(renderer).device(),
                    old(renderer).device(),
                    old(self).name() as int,
                    old(self).name() + old(self).layers(),
                )
                &&& final(renderer).device().program == old(renderer).device().program
                &&& old(self).live_in(old(renderer).device()) ==> {
                    &&& final(renderer).device().objects.dom().len() == old(
                        renderer).device().objects.dom().len()
                    &&& final(renderer).status() == old(renderer).status()
                }
            },
            !(size.0 > 0 && size.1 > 0) ==> {
                &&& final(self).extent() == old(self).extent()
                &&& final(renderer).after(old(renderer), old(renderer).status(), Seq::empty())
                &&& final(renderer).device() == old(renderer).device()
            },
    {
        proof {
            use_type_invariant(&self.target);
        }
        if size.0 > 0 && size.1 > 0 {
            let layers: u8 = self.target.tex.len() as u8;
            let fbo: u32 = self.target.fbo;
            release(renderer, fbo, layers);
            let ghost mid = *renderer;
            let tex = create_fb(renderer, fbo, size, layers);
            proof {
                renderer.after_then(
                    &mid,
                    old(renderer),
                    mid.status(),
                    renderer.status(),
                    delete_commands(fbo, layers as nat),
                    framebuffer_commands(fbo, size, layers as nat),
                );
                let first = old(renderer).device();
                assert forall|n: u32| !(fbo <= n <= fbo + layers) implies renderer.device().objects.contains_key(
                    n,
                ) == #[trigger] first.objects.contains_key(n) && (first.objects.contains_key(n)
                    ==> renderer.device().objects[n] == first.objects[n]) by {
                    assert(mid.device().objects.contains_key(n) == first.objects.contains_key(n));
                }
                if old(self).live_in(first) {
                    assert(first.has(ObjectKind::Framebuffer, fbo));
                    if layers > 0 {
                        assert(first.has(ObjectKind::Texture, (fbo + layers) as u32));
                    }
                }
            }
            self.target = Target { fbo, tex, size: (size.0 as usize, size.1 as usize) };
        } else {
            proof {
                renderer.after_nothing();
            }
        }
    }

    /// Bind each attachment to the texture unit of its index, draw the quad
    /// with the program that is bound, and release the texture.
    fn draw_body(&self, renderer: &mut Renderer)
        requires
            old(renderer).wf(),
            old(renderer).status().current,
            old(renderer).status().shader_bound,
        ensures
            final(renderer).after(old(renderer), old(renderer).status(), self.body_commands()),
            final(renderer).device() == (Device { vertex_array: None, ..old(renderer).device() }),
    {
        proof {
            use_type_invariant(&self.target);
            old(renderer).after_nothing();
        }
        let mut i: usize = 0;
        while i < self.target.tex.len()
            invariant
                i <= self.target.tex@.len() <= 255,
                self.target.tex@ == attachment_names(self.target.fbo, self.target.tex@.len()),
                self.target.fbo + self.target.tex@.len() <= u32::MAX,
                old(renderer).status().current,
                old(renderer).status().shader_bound,
                renderer.after(
                    old(renderer),
                    old(renderer).status(),
                    bind_layers(self.name(), i as nat),
                ),
                renderer.device() == old(renderer).device(),
            decreases self.target.tex@.len() - i,
        {
            let ghost before = *renderer;
            bind_tex(renderer, self.target.tex[i], i as u32);
            proof {
                renderer.after_then(
                    &before,
                    old(renderer),
                    before.status(),
                    renderer.status(),
                    bind_layers(self.name(), i as nat),
                    bind_commands(self.target.tex@[i as int], i as u32),
                );
            }
            i += 1;
        }
        let ghost r1 = *renderer;
        let _ = self.mesh.draw(renderer);
        let ghost r2 = *renderer;
        unbind_tex(renderer);
        proof {
            r2.after_then(
                &r1,
                old(renderer),
                r1.status(),
                r2.status(),
                bind_layers(self.name(), self.layers()),
                self.quad().draw_commands(),
            );
            renderer.after_then(
                &r2,
                old(renderer),
                r2.status(),
                renderer.status(),
                bind_layers(self.name(), self.layers()) + self.quad().draw_commands(),
                unbind_commands(),
            );
        }
    }

    /// Run `f` while the framebuffer is bound and the viewport has its
    /// size. On every way out of `f` the framebuffer is released and the
    /// viewport is set back to what it was; what `f` gives back is handed
    /// on.
    pub fn while_bound<F: FnOnce(&mut Renderer) -> Result<(), RenderError>>(
        &self,
        renderer: &mut Renderer,
        f: F,
    ) -> (res: Result<(), RenderError>)
        requires
            old(renderer).wf(),
            old(renderer).status().current,
            forall|r: &mut Renderer| r.inside(self, old(renderer)) ==> call_requires(f, (r,)),
            forall|r: &mut Renderer, out: Result<(), RenderError>| #[trigger]
                call_ensures(f, (r,), out) ==> final(r).wf() && final(r).status().current,
        ensures
            exists|r: &mut Renderer|
                r.inside(self, old(renderer)) && #[trigger] call_ensures(f, (r,), res) && final(
                    renderer).outside(final(r), old(renderer).status().viewport),
    {
        proof {
            use_type_invariant(&self.target);
        }
        let og_viewport = renderer.viewport();
        renderer.set_viewport(0, 0, self.target.size.0 as i32, self.target.size.1 as i32);
        let ghost r1 = *renderer;
        renderer.issue(
            Command::BindFramebuffer { target: gl::FRAMEBUFFER, framebuffer: Some(self.target.fbo) },
        );
        proof {
            reveal(super::device::effect);
            renderer.after_then(
                &r1,
                old(renderer),
                r1.status(),
                renderer.status(),
                seq![
                    Command::Viewport {
                        x: 0,
                        y: 0,
                        width: self.extent().0 as i32,
                        height: self.extent().1 as i32,
                    },
                ],
                seq![
                    Command::BindFramebuffer {
                        target: gl::FRAMEBUFFER,
                        framebuffer: Some(self.name()),
                    },
                ],
            );
            assert(seq![
                Command::Viewport {
                    x: 0,
                    y: 0,
                    width: self.extent().0 as i32,
                    height: self.extent().1 as i32,
                },
            ] + seq![
                Command::BindFramebuffer { target: gl::FRAMEBUFFER, framebuffer: Some(self.name()) },
            ] =~= self.enter_commands());
        }
        assert(renderer.inside(self, old(renderer)));
        let res = f(renderer);
        let ghost r2 = *renderer;
        renderer.issue(Command::BindFramebuffer { target: gl::FRAMEBUFFER, framebuffer: None });
        let ghost r3 = *renderer;
        renderer.set_viewport(og_viewport.0, og_viewport.1, og_viewport.2, og_viewport.3);
        proof {
            reveal(super::device::effect);
            renderer.after_then(
                &r3,
                &r2,
                r3.status(),
                renderer.status(),
                seq![Command::BindFramebuffer { target: gl::FRAMEBUFFER, framebuffer: None }],
                seq![
                    Command::Viewport {
                        x: og_viewport.0,
                        y: og_viewport.1,
                        width: og_viewport.2,
                        height: og_viewport.3,
                    },
                ],
            );
            assert(seq![Command::BindFramebuffer { target: gl::FRAMEBUFFER, framebuffer: None }]
                + seq![
                Command::Viewport {
                    x: og_viewport.0,
                    y: og_viewport.1,
                    width: og_viewport.2,
                    height: og_viewport.3,
                },
            ] =~= leave_commands(og_viewport));
        }
        res
    }

    /// The commands that set the viewport to the framebuffer's size and
    /// bind the framebuffer.
    pub open spec fn enter_commands(&self) -> Seq<CommandView> {
        seq![
            Command::Viewport {
                x: 0,
                y: 0,
                width: self.extent().0 as i32,
                height: self.extent().1 as i32,
            },
            Command::BindFramebuffer { target: gl::FRAMEBUFFER, framebuffer: Some(self.name()) },
        ]
    }

    /// Delete the framebuffer, its attachments and its quad.
    pub fn destroy(self, renderer: &mut Renderer)
        requires
            old(renderer).wf(),
            old(renderer).status().current,
        ensures
            final(renderer).after(
                old(renderer),
                old(renderer).status(),
                delete_commands(self.name(), self.layers()) + (seq![
                    Command::DeleteObject {
                        kind: ObjectKind::VertexArray,
                        name: self.quad().vao(),
                    },
                    Command::DeleteObject { kind: ObjectKind::Buffer, name: self.quad().vbo() },
                ] + (match self.quad().ebo() {
                    Some(e) => seq![Command::DeleteObject { kind: ObjectKind::Buffer, name: e }],
                    None => Seq::empty(),
                })),
            ),
    {
        proof {
            use_type_invariant(&self.target);
        }
        let ghost layers = self.layers();
        let ghost name = self.name();
        release(renderer, self.target.fbo, self.target.tex.len() as u8);
        let ghost mid = *renderer;
        let ghost quad = self.mesh;
        self.mesh.destroy(renderer);
        proof {
            renderer.after_then(
                &mid,
                old(renderer),
                mid.status(),
                renderer.status(),
                delete_commands(name, layers),
                seq![
                    Command::DeleteObject { kind: ObjectKind::VertexArray, name: quad.vao() },
                    Command::DeleteObject { kind: ObjectKind::Buffer, name: quad.vbo() },
                ] + (match quad.ebo() {
                    Some(e) => seq![Command::DeleteObject { kind: ObjectKind::Buffer, name: e }],
                    None => Seq::empty(),
                }),
            );
        }
    }
}

impl Renderer {
    /// Whether `self` is `before` with the framebuffer `fb` bound and the
    /// viewport at its size.
    pub open spec fn inside(&self, fb: &Framebuffer, before: &Renderer) -> bool {
        &&& self.after(
            before,
            Status {
                viewport: (0, 0, fb.extent().0 as i32, fb.extent().1 as i32),
                ..before.status()
            },
            fb.enter_commands(),
        )
        &&& self.device() == (Device {
            viewport: (0, 0, fb.extent().0 as i32, fb.extent().1 as i32),
            framebuffer: Some(fb.name()),
            ..before.device()
        })
    }

    /// Whether `self` is `inside` with no framebuffer bound and the
    /// viewport at `viewport`.
    pub open spec fn outside(&self, inside: &Renderer, viewport: (i32, i32, i32, i32)) -> bool {
        &&& self.after(inside, Status { viewport, ..inside.status() }, leave_commands(viewport))
        &&& self.device() == (Device { viewport, framebuffer: None, ..inside.device() })
    }
}

/// The commands that release the framebuffer and set the viewport to
/// `viewport`.
pub open spec fn leave_commands(viewport: (i32, i32, i32, i32)) -> Seq<CommandView> {
    seq![
        Command::BindFramebuffer { target: gl::FRAMEBUFFER, framebuffer: None },
        Command::Viewport { x: viewport.0, y: viewport.1, width: viewport.2, height: viewport.3 },
    ]
}

impl Drawable for Framebuffer {
    /// A framebuffer is drawn with the program that is bound, or, where
    /// none is, with the renderer's own.
    open spec fn drawable(&self, renderer: &Renderer) -> bool {
        &&& renderer.wf()
        &&& renderer.status().current
    }

    open spec fn drawn(&self, before: &Renderer) -> Seq<CommandView> {
        if before.status().shader_bound {
            self.body_commands()
        } else {
            seq![Command::UseProgram { program: Some(before.status().fallback) }]
                + self.body_commands() + seq![Command::UseProgram { program: None }]
        }
    }

    fn draw(&self, renderer: &mut Renderer) -> (res: Result<(), RenderError>)
        ensures
            final(renderer).pending() == old(renderer).pending() + self.drawn(old(renderer)),
            final(renderer).origin() == old(renderer).origin(),
            final(renderer).device() == (Device { vertex_array: None, ..old(renderer).device() }),
    {
        if renderer.shader_bound() {
            self.draw_body(renderer);
        } else {
            let fallback = Shader::fallback(renderer);
            fallback.bind(renderer);
            let ghost r1 = *renderer;
            self.draw_body(renderer);
            let ghost r2 = *renderer;
            fallback.unbind(renderer);
            proof {
                let enter = seq![Command::UseProgram { program: Some(old(renderer).status().fallback) }];
                let leave = seq![Command::UseProgram { program: None }];
                r2.after_then(&r1, old(renderer), r1.status(), r2.status(), enter, self.body_commands());
                renderer.after_then(
                    &r2,
                    old(renderer),
                    r2.status(),
                    renderer.status(),
                    enter + self.body_commands(),
                    leave,
                );
            }
        }
        Ok(())
    }
}

} // verus!
