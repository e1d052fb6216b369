//! The renderer and the resources that it hands out.
//!
//! The [`Renderer`] owns the one graphics context of the process. It does not
//! call the driver: it queues [`GlCommand`]s, which the owner of the native
//! context takes with [`Renderer::take_commands`] and performs in order. What
//! the commands mean is laid down in [`device`], and the contracts here say
//! what every operation does to the [`Device`] that the commands drive.

use vstd::prelude::*;
use command::{Command, CommandView, GlCommand, ObjectKind};
use device::{
    as_extent, effect, inert, needs_context, needs_program, run, run_concat, run_push, step, Device,
};

pub mod atomic_counter;
pub mod buffer;
pub mod command;
pub mod device;
pub mod gl;
pub mod laws;
pub mod mesh;
pub mod render_pass;
pub mod shader;
pub mod shader_log;
pub mod text;
pub mod texture;

verus! {

/// The one recoverable failure a frame can report.
#[derive(Clone, Copy, Debug, PartialEq, Eq)]
pub enum RenderError {
    Generic,
}

/// Something that can be drawn with the program in use.
pub trait Drawable {
    /// Whether `renderer` is in a state in which `self` may be drawn.
    /// Drawing in any other state is a mistake in the program.
    spec fn drawable(&self, renderer: &Renderer) -> bool;

    /// What drawing `self` adds to the history of `before`.
    spec fn drawn(&self, before: &Renderer) -> Seq<CommandView>;

    /// Draw `self`. What the renderer remembers is afterwards what it was.
    fn draw(&self, renderer: &mut Renderer) -> (res: Result<(), RenderError>)
        requires
            self.drawable(old(renderer)),
        ensures
            res is Ok,
            final(renderer).wf(),
            final(renderer).status() == old(renderer).status(),
            final(renderer).history() == old(renderer).history() + self.drawn(old(renderer)),
    ;
}

/// The message for an error code of the driver, `None` where the code says
/// that there was no error.
pub fn gl_error(code: u32) -> (message: Option<&'static str>)
    ensures
        message is None <==> code == gl::NO_ERROR,
        message matches Some(m) ==> m@ == (if code == gl::INVALID_ENUM {
            "Invalid enum"@
        } else if code == gl::INVALID_VALUE {
            "Invalid value"@
        } else if code == gl::INVALID_OPERATION {
            "Invalid operation"@
        } else if code == gl::STACK_OVERFLOW {
            "Stack overflow"@
        } else if code == gl::STACK_UNDERFLOW {
            "Stack underflow"@
        } else if code == gl::OUT_OF_MEMORY {
            "Out of memory"@
        } else if code == gl::INVALID_FRAMEBUFFER_OPERATION {
            "Invalid framebuffer operation"@
        } else {
            "Unknown OpenGL error"@
        }),
{
    if code == gl::NO_ERROR {
        None
    } else if code == gl::INVALID_ENUM {
        Some("Invalid enum")
    } else if code == gl::INVALID_VALUE {
        Some("Invalid value")
    } else if code == gl::INVALID_OPERATION {
        Some("Invalid operation")
    } else if code == gl::STACK_OVERFLOW {
        Some("Stack overflow")
    } else if code == gl::STACK_UNDERFLOW {
        Some("Stack underflow")
    } else if code == gl::OUT_OF_MEMORY {
        Some("Out of memory")
    } else if code == gl::INVALID_FRAMEBUFFER_OPERATION {
        Some("Invalid framebuffer operation")
    } else {
        Some("Unknown OpenGL error")
    }
}

/// What the renderer itself remembers of the state of its context.
#[derive(Clone, Copy, Debug, PartialEq, Eq)]
pub struct Status {
    /// The size of the surface, in pixels.
    pub size: (u32, u32),
    /// Whether the context is current on the calling thread.
    pub current: bool,
    /// Whether a shader program is bound.
    pub shader_bound: bool,
    /// The viewport, as `(x, y, width, height)`.
    pub viewport: (i32, i32, i32, i32),
    /// The next name that an object will be created under.
    pub next_name: u32,
    /// The program that draws a framebuffer when no other is bound.
    pub fallback: u32,
}

/// The background that a frame starts from: the bit patterns of 0.2, 0.2,
/// 0.2 and 1.0.
pub const BACKGROUND: (u32, u32, u32, u32) = (0x3E4C_CCCD, 0x3E4C_CCCD, 0x3E4C_CCCD, 0x3F80_0000);

/// The one graphics context, what is known of its state, and the commands
/// queued for it.
pub struct Renderer {
    state: Status,
    queue: Vec<GlCommand>,
    taken: Ghost<Seq<CommandView>>,
    origin: Ghost<Device>,
}

impl Renderer {
    /// What the renderer remembers of its context.
    pub closed spec fn status(&self) -> Status {
        self.state
    }

    /// The commands queued and not yet taken.
    pub closed spec fn pending(&self) -> Seq<CommandView> {
        self.queue.deep_view()
    }

    /// Every command queued so far, taken or not.
    pub closed spec fn history(&self) -> Seq<CommandView> {
        self.taken@ + self.queue.deep_view()
    }

    /// The state that the context was in before the first command.
    pub closed spec fn origin(&self) -> Device {
        self.origin@
    }

    /// The state that the context is in once the history is performed.
    #[verifier::opaque]
    pub open spec fn device(&self) -> Device {
        run(self.origin(), self.history())
    }

    /// How many more objects can be created. A name is handed out once:
    /// to delete an object does not give its name back. Only a framebuffer
    /// that is resized is created anew under the names that it had.
    pub open spec fn names_left(&self) -> nat {
        (u32::MAX - self.status().next_name) as nat
    }

    /// The renderer's invariant: what it remembers is true of the device, no
    /// command was ever queued in a state that does not admit it, and the
    /// names not yet handed out are free.
    pub open spec fn wf(&self) -> bool {
        &&& self.status().current == self.device().current
        &&& self.status().shader_bound == (self.device().program is Some)
        &&& self.status().viewport == self.device().viewport
        &&& self.device().violations == 0
        &&& self.status().next_name >= 1
        &&& self.device().objects.dom().finite()
        &&& forall|n: u32| #[trigger]
            self.device().objects.contains_key(n) ==> n < self.status().next_name
    }

    /// Whether `self` is what becomes of `before` when the commands `cs`
    /// are queued and the renderer then remembers `status`.
    pub open spec fn after(&self, before: &Renderer, status: Status, cs: Seq<CommandView>) -> bool {
        &&& self.wf()
        &&& self.status() == status
        &&& self.origin() == before.origin()
        &&& self.history() == before.history() + cs
        &&& self.pending() == before.pending() + cs
    }

    /// What comes after what came after comes after.
    pub proof fn after_then(
        &self,
        mid: &Renderer,
        before: &Renderer,
        mid_status: Status,
        status: Status,
        first: Seq<CommandView>,
        second: Seq<CommandView>,
    )
        requires
            mid.after(before, mid_status, first),
            self.after(mid, status, second),
        ensures
            self.after(before, status, first + second),
    {
        assert(before.history() + first + second =~= before.history() + (first + second));
        assert(before.pending() + first + second =~= before.pending() + (first + second));
    }

    /// A renderer comes after itself, with nothing in between.
    pub proof fn after_nothing(&self)
        requires
            self.wf(),
        ensures
            self.after(self, self.status(), Seq::empty()),
    {
        assert(self.history() + Seq::<CommandView>::empty() =~= self.history());
        assert(self.pending() + Seq::<CommandView>::empty() =~= self.pending());
    }

    /// The device of a renderer that is `after` another is the other's
    /// device after the commands between them.
    pub proof fn after_device(&self, before: &Renderer, status: Status, cs: Seq<CommandView>)
        requires
            self.after(before, status, cs),
        ensures
            self.device() == run(before.device(), cs),
    {
        reveal(Renderer::device);
        run_concat(self.origin(), before.history(), cs);
    }

    /// A renderer for a surface of `size` pixels whose context was just
    /// created. The context is made current, and the program that draws a
    /// framebuffer when no other is bound is built.
    pub fn new(size: (u32, u32)) -> (renderer: Renderer)
        ensures
            renderer.wf(),
            renderer.origin() == Device::initial(size.0, size.1),
            renderer.status() == (Status {
                size,
                current: true,
                shader_bound: false,
                viewport: Device::initial(size.0, size.1).viewport,
                next_name: 4,
                fallback: 1,
            }),
            renderer.history() == seq![Command::MakeCurrent] + shader::program_commands(
                1,
                shader::VS@,
                "vs"@,
                shader::FB_FS@,
                "fb_fs"@,
            ),
            renderer.pending() == renderer.history(),
            renderer.device().has(ObjectKind::Program, 1),
    {
        let width: i32 = if size.0 > 0 && size.0 <= 0x7FFF_FFFF {
            size.0 as i32
        } else {
            0
        };
        let height: i32 = if size.1 > 0 && size.1 <= 0x7FFF_FFFF {
            size.1 as i32
        } else {
            0
        };
        let mut renderer = Renderer {
            state: Status {
                size,
                current: false,
                shader_bound: false,
                viewport: (0, 0, width, height),
                next_name: 1,
                fallback: 1,
            },
            queue: Vec::new(),
            taken: Ghost(Seq::empty()),
            origin: Ghost(Device::initial(size.0, size.1)),
        };
        assert(renderer.history() =~= Seq::<CommandView>::empty());
        assert(renderer.pending() =~= Seq::<CommandView>::empty());
        assert(renderer.device() == Device::initial(size.0, size.1)) by {
            reveal(Renderer::device);
        }
        renderer.gl_make_current();
        shader::build_program(&mut renderer, shader::VS, "vs", shader::FB_FS, "fb_fs");
        assert(renderer.history() =~= seq![Command::MakeCurrent] + shader::program_commands(
            1,
            shader::VS@,
            "vs"@,
            shader::FB_FS@,
            "fb_fs"@,
        ));
        assert(renderer.pending() =~= renderer.history());
        renderer
    }

    /// Queue `c`, whatever it is.
    fn push(&mut self, c: GlCommand)
        ensures
            final(self).status() == old(self).status(),
            final(self).origin() == old(self).origin(),
            final(self).history() == old(self).history().push(c@),
            final(self).pending() == old(self).pending().push(c@),
            final(self).history() == old(self).history() + seq![c@],
            final(self).pending() == old(self).pending() + seq![c@],
            final(self).device() == step(old(self).device(), c@),
    {
        self.queue.push(c);
        proof {
            reveal(Renderer::device);
            assert(old(self).history().push(c@) =~= old(self).history() + seq![c@]);
            assert(old(self).queue.deep_view().push(c@) =~= old(self).queue.deep_view() + seq![c@]);
            assert(self.queue.deep_view() =~= old(self).queue.deep_view().push(c@));
            assert(self.history() =~= old(self).history().push(c@));
            run_push(self.origin(), old(self).history(), c@);
        }
    }

    /// Queue a command that needs nothing but a current context and touches
    /// nothing that the renderer remembers.
    pub(crate) fn issue(&mut self, c: GlCommand)
        requires
            old(self).wf(),
            old(self).status().current,
            ordinary(c@),
        ensures
            final(self).after(
                old(self),
                old(self).status(),
                seq![c@],
            ),
            final(self).device() == effect(old(self).device(), c@),
            final(self).device().objects == old(self).device().objects,
            final(self).device().current,
            final(self).device().program == old(self).device().program,
            final(self).device().viewport == old(self).device().viewport,
            inert(c@) ==> final(self).device() == old(self).device(),
    {
        self.push(c);
        proof {
            reveal(effect);
        }
    }

    /// Queue a draw call.
    pub(crate) fn issue_draw(&mut self, c: GlCommand)
        requires
            old(self).wf(),
            old(self).status().current,
            old(self).status().shader_bound,
            needs_program(c@),
        ensures
            final(self).after(
                old(self),
                old(self).status(),
                seq![c@],
            ),
            final(self).device() == old(self).device(),
    {
        proof {
            reveal(effect);
        }
        self.push(c);
    }

    /// Create an object of `kind` under a name that was never used.
    pub(crate) fn create(&mut self, kind: ObjectKind) -> (name: u32)
        requires
            old(self).wf(),
            old(self).status().current,
            old(self).names_left() >= 1,
        ensures
            final(self).after(
                old(self),
                Status { next_name: (name + 1) as u32, ..old(self).status() },
                seq![Command::CreateObject { kind, name }],
            ),
            name == old(self).status().next_name,
            final(self).device() == (Device {
                objects: old(self).device().objects.insert(name, kind),
                ..old(self).device()
            }),
            !old(self).device().objects.contains_key(name),
    {
        proof {
            reveal(effect);
            reveal(Renderer::device);
        }
        let name: u32 = self.state.next_name;
        self.state.next_name = name + 1;
        self.push(Command::CreateObject { kind, name });
        name
    }

    /// Create an object of `kind` under `name`, which no live object has,
    /// and keep every name that was handed out below the next.
    pub(crate) fn create_named(&mut self, kind: ObjectKind, name: u32)
        requires
            old(self).wf(),
            old(self).status().current,
            name < u32::MAX,
            !old(self).device().objects.contains_key(name),
        ensures
            final(self).after(
                old(self),
                Status {
                    next_name: at_least(old(self).status().next_name, name + 1),
                    ..old(self).status()
                },
                seq![Command::CreateObject { kind, name }],
            ),
            final(self).device() == (Device {
                objects: old(self).device().objects.insert(name, kind),
                ..old(self).device()
            }),
    {
        proof {
            reveal(effect);
            reveal(Renderer::device);
        }
        if name >= self.state.next_name {
            self.state.next_name = name + 1;
        }
        self.push(Command::CreateObject { kind, name });
    }

    /// The next name that an object will be created under.
    pub(crate) fn next_name(&self) -> (name: u32)
        ensures
            name == self.status().next_name,
    {
        self.state.next_name
    }

    /// Create a shader object for `stage` under a name that was never used.
    pub(crate) fn create_shader(&mut self, stage: u32) -> (name: u32)
        requires
            old(self).wf(),
            old(self).status().current,
            old(self).names_left() >= 1,
        ensures
            final(self).after(
                old(self),
                Status { next_name: (name + 1) as u32, ..old(self).status() },
                seq![Command::CreateShader { name, stage }],
            ),
            name == old(self).status().next_name,
            final(self).device() == (Device {
                objects: old(self).device().objects.insert(name, ObjectKind::Shader),
                ..old(self).device()
            }),
            !old(self).device().objects.contains_key(name),
    {
        proof {
            reveal(effect);
            reveal(Renderer::device);
        }
        let name: u32 = self.state.next_name;
        self.state.next_name = name + 1;
        self.push(Command::CreateShader { name, stage });
        name
    }

    /// Delete the object `name`.
    pub(crate) fn delete(&mut self, kind: ObjectKind, name: u32)
        requires
            old(self).wf(),
            old(self).status().current,
        ensures
            final(self).after(
                old(self),
                old(self).status(),
                seq![Command::DeleteObject { kind, name }],
            ),
            final(self).device() == (Device {
                objects: old(self).device().objects.remove(name),
                stores: old(self).device().stores.remove(name),
                ..old(self).device()
            }),
    {
        proof {
            reveal(effect);
        }
        self.push(Command::DeleteObject { kind, name });
    }

    /// Put `program` in use, or none, and remember whether one is bound.
    pub(crate) fn use_program(&mut self, program: Option<u32>)
        requires
            old(self).wf(),
            old(self).status().current,
        ensures
            final(self).after(
                old(self),
                Status { shader_bound: program is Some, ..old(self).status() },
                seq![Command::UseProgram { program }],
            ),
            final(self).device() == (Device { program, ..old(self).device() }),
    {
        proof {
            reveal(effect);
            reveal(Renderer::device);
        }
        self.state.shader_bound = program.is_some();
        self.push(Command::UseProgram { program });
    }

    /// Set the viewport and remember it.
    pub(crate) fn set_viewport(&mut self, x: i32, y: i32, width: i32, height: i32)
        requires
            old(self).wf(),
            old(self).status().current,
        ensures
            final(self).after(
                old(self),
                Status { viewport: (x, y, width, height), ..old(self).status() },
                seq![Command::Viewport { x, y, width, height }],
            ),
            final(self).device() == (Device {
                viewport: (x, y, width, height),
                ..old(self).device()
            }),
    {
        proof {
            reveal(effect);
            reveal(Renderer::device);
        }
        self.state.viewport = (x, y, width, height);
        self.push(Command::Viewport { x, y, width, height });
    }

    /// Hand over the queued commands, first to last, and leave the queue
    /// empty. Nothing else changes: the history keeps them.
    pub fn take_commands(&mut self) -> (commands: Vec<GlCommand>)
        ensures
            commands.deep_view() == old(self).pending(),
            final(self).pending() == Seq::<CommandView>::empty(),
            final(self).history() == old(self).history(),
            final(self).origin() == old(self).origin(),
            final(self).status() == old(self).status(),
            final(self).device() == old(self).device(),
            old(self).wf() ==> final(self).wf(),
    {
        let mut commands: Vec<GlCommand> = Vec::new();
        core::mem::swap(&mut commands, &mut self.queue);
        proof {
            reveal(Renderer::device);
            self.taken@ = self.taken@ + commands.deep_view();
            assert(self.queue.deep_view() =~= Seq::<CommandView>::empty());
            assert(self.history() =~= old(self).history());
        }
        commands
    }

    /// Whether the context is current on the calling thread.
    pub fn is_context_current(&self) -> (b: bool)
        ensures
            b == self.status().current,
    {
        self.state.current
    }

    /// Whether a shader program is bound.
    pub fn shader_bound(&self) -> (b: bool)
        ensures
            b == self.status().shader_bound,
    {
        self.state.shader_bound
    }

    /// The viewport, as `(x, y, width, height)`.
    pub fn viewport(&self) -> (v: (i32, i32, i32, i32))
        ensures
            v == self.status().viewport,
    {
        self.state.viewport
    }

    /// Whether `count` more objects can be created.
    pub fn can_create(&self, count: u32) -> (b: bool)
        ensures
            b == (self.names_left() >= count),
    {
        u32::MAX - self.state.next_name >= count
    }

    /// The name of the program that draws a framebuffer when no other is
    /// bound.
    pub fn fallback(&self) -> (program: u32)
        ensures
            program == self.status().fallback,
    {
        self.state.fallback
    }

    /// The size of the surface, in pixels.
    pub fn size(&self) -> (s: (u32, u32))
        ensures
            s == self.status().size,
    {
        self.state.size
    }

    /// Make the context current on the calling thread. Doing so twice is
    /// the same as doing so once.
    pub fn gl_make_current(&mut self)
        requires
            old(self).wf(),
        ensures
            final(self).after(
                old(self),
                Status { current: true, ..old(self).status() },
                seq![Command::MakeCurrent],
            ),
            final(self).device() == (Device { current: true, ..old(self).device() }),
    {
        proof {
            reveal(effect);
            reveal(Renderer::device);
        }
        self.push(Command::MakeCurrent);
        self.state.current = true;
    }

    /// Release the context from the calling thread.
    pub fn gl_make_not_current(&mut self)
        requires
            old(self).wf(),
        ensures
            final(self).after(
                old(self),
                Status { current: false, ..old(self).status() },
                seq![Command::MakeNotCurrent],
            ),
            final(self).device() == (Device { current: false, ..old(self).device() }),
    {
        proof {
            reveal(effect);
            reveal(Renderer::device);
        }
        self.push(Command::MakeNotCurrent);
        self.state.current = false;
    }

    /// Take a new size for the surface and set the viewport to it. A size
    /// with a dimension that no viewport can have, zero or beyond `i32::MAX`,
    /// is ignored.
    pub fn resize(&mut self, new_size: (u32, u32))
        requires
            old(self).wf(),
            old(self).status().current,
        ensures
            final(self).wf(),
            final(self).origin() == old(self).origin(),
            match (as_extent(new_size.0), as_extent(new_size.1)) {
                (Some(width), Some(height)) => {
                    &&& final(self).status() == (Status {
                        size: new_size,
                        viewport: (0, 0, width, height),
                        ..old(self).status()
                    })
                    &&& final(self).history() == old(self).history().push(
                        Command::Viewport { x: 0, y: 0, width, height },
                    )
                    &&& final(self).pending() == old(self).pending().push(
                        Command::Viewport { x: 0, y: 0, width, height },
                    )
                    &&& final(self).device() == (Device {
                        viewport: (0, 0, width, height),
                        ..old(self).device()
                    })
                },
                _ => {
                    &&& final(self).status() == old(self).status()
                    &&& final(self).history() == old(self).history()
                    &&& final(self).pending() == old(self).pending()
                    &&& final(self).device() == old(self).device()
                },
            },
    {
        proof {
            reveal(Renderer::device);
        }
        if new_size.0 > 0 && new_size.0 <= 0x7FFF_FFFF && new_size.1 > 0 && new_size.1
            <= 0x7FFF_FFFF {
            self.state.size = new_size;
            self.set_viewport(0, 0, new_size.0 as i32, new_size.1 as i32);
        }
    }

    /// Make every write that was issued before visible to what is issued
    /// after.
    pub fn fence(&mut self)
        requires
            old(self).wf(),
            old(self).status().current,
        ensures
            final(self).after(
                old(self),
                old(self).status(),
                seq![Command::MemoryBarrier { barriers: gl::ALL_BARRIER_BITS }],
            ),
            final(self).device() == old(self).device(),
    {
        proof {
            reveal(effect);
        }
        self.issue(Command::MemoryBarrier { barriers: gl::ALL_BARRIER_BITS });
    }

    /// Start a frame: make the context current and clear the color buffer to
    /// the background.
    pub fn start_frame(&mut self) -> (res: Result<(), RenderError>)
        requires
            old(self).wf(),
        ensures
            res is Ok,
            final(self).wf(),
            final(self).status() == (Status { current: true, ..old(self).status() }),
            final(self).origin() == old(self).origin(),
            final(self).history() == old(self).history() + frame_start(),
            final(self).pending() == old(self).pending() + frame_start(),
            final(self).device() == (Device { current: true, ..old(self).device() }),
    {
        proof {
            reveal(effect);
        }
        self.gl_make_current();
        self.issue(
            Command::ClearColor {
                red: BACKGROUND.0,
                green: BACKGROUND.1,
                blue: BACKGROUND.2,
                alpha: BACKGROUND.3,
            },
        );
        self.issue(Command::Clear { mask: gl::COLOR_BUFFER_BIT });
        Ok(())
    }

    /// End a frame: present the back buffer, then release the context.
    pub fn end_frame(&mut self) -> (res: Result<(), RenderError>)
        requires
            old(self).wf(),
            old(self).status().current,
        ensures
            res is Ok,
            final(self).wf(),
            final(self).status() == (Status { current: false, ..old(self).status() }),
            final(self).origin() == old(self).origin(),
            final(self).history() == old(self).history() + seq![
                Command::SwapBuffers,
                Command::MakeNotCurrent,
            ],
            final(self).pending() == old(self).pending() + seq![
                Command::SwapBuffers,
                Command::MakeNotCurrent,
            ],
            final(self).device() == (Device {
                current: false,
                presented: old(self).device().presented + 1,
                ..old(self).device()
            }),
    {
        proof {
            reveal(effect);
        }
        self.issue(Command::SwapBuffers);
        self.gl_make_not_current();
        Ok(())
    }
}

/// `next`, or `bound` if that is more.
pub open spec fn at_least(next: u32, bound: int) -> u32 {
    if bound > next {
        bound as u32
    } else {
        next
    }
}

/// The commands that start a frame.
pub open spec fn frame_start() -> Seq<CommandView> {
    seq![
        Command::MakeCurrent,
        Command::ClearColor {
            red: BACKGROUND.0,
            green: BACKGROUND.1,
            blue: BACKGROUND.2,
            alpha: BACKGROUND.3,
        },
        Command::Clear { mask: gl::COLOR_BUFFER_BIT },
    ]
}

/// A command that needs a current context and nothing else, and that leaves
/// alone what the renderer remembers: the context, the program in use, the
/// viewport and the set of live objects.
pub open spec fn ordinary(c: CommandView) -> bool {
    &&& needs_context(c)
    &&& !needs_program(c)
    &&& !(c is UseProgram)
    &&& !(c is Viewport)
    &&& !(c is CreateObject)
    &&& !(c is CreateShader)
    &&& !(c is DeleteObject)
}

} // verus!
