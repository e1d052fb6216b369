//! A small real-time rendering runtime.
//!
//! The crate keeps the state of one graphics context and of the resources
//! made against it, and decides which driver calls are due: it queues them
//! as [`rendering::command::Command`]s and leaves it to the owner of the
//! native context to perform them. Requests to the window go the same way,
//! as [`EngineEvent`]s.

use vstd::prelude::*;
use rendering::command::{Command, CommandView};
use rendering::gl;
use rendering::{RenderError, Renderer, Status};

pub mod prelude;
pub mod rendering;

verus! {

/// A mode that a monitor can be driven in.
#[derive(Clone, Copy, Debug, PartialEq, Eq, Structural)]
pub struct VideoMode {
    pub width: u32,
    pub height: u32,
    pub bit_depth: u16,
    pub refresh_rate_millihertz: u32,
}

/// How a window fills the screen: without a border, or in a video mode of
/// its own.
#[derive(Clone, Copy, Debug, PartialEq, Eq)]
pub enum Fullscreen {
    Borderless,
    Exclusive(VideoMode),
}

/// The side of a face that is not drawn.
#[derive(Clone, Copy, Debug, PartialEq, Eq, Structural)]
pub enum CullSide {
    Front,
    Back,
}

/// A request to the window. `T` holds text: a string in a request that is
/// queued, a sequence of characters in its view.
#[derive(Debug, PartialEq, Eq)]
pub enum Event<T> {
    SetTitle(T),
    SetMaximized(bool),
    SetMinimized(bool),
    SetFullscreen(Option<Fullscreen>),
    SetSize((u32, u32)),
}

/// A request to the window as it stands in the queue.
pub type EngineEvent = Event<String>;

/// A request to the window as contracts speak of it.
pub type EngineEventView = Event<Seq<char>>;

impl View for EngineEvent {
    type V = EngineEventView;

    open spec fn view(&self) -> EngineEventView {
        match self {
            Event::SetTitle(title) => Event::SetTitle(title@),
            Event::SetMaximized(on) => Event::SetMaximized(*on),
            Event::SetMinimized(on) => Event::SetMinimized(*on),
            Event::SetFullscreen(mode) => Event::SetFullscreen(*mode),
            Event::SetSize(size) => Event::SetSize(*size),
        }
    }
}

impl DeepView for EngineEvent {
    type V = EngineEventView;

    open spec fn deep_view(&self) -> EngineEventView {
        self@
    }
}

/// The application that the frame cycle drives. Each phase finds the
/// context current and has to leave the renderer sound; it may add to what
/// the renderer has queued and take nothing back.
pub trait App {
    /// Advance the application by one step.
    fn update(&mut self, ctx: &mut Context)
        requires
            old(ctx).renderer().wf(),
            old(ctx).renderer().status().current,
        ensures
            final(ctx).renderer().wf(),
            final(ctx).renderer().origin() == old(ctx).renderer().origin(),
            old(ctx).renderer().history().is_prefix_of(final(ctx).renderer().history()),
    {
    }

    /// Queue what draws one frame.
    fn render(&mut self, ctx: &mut Context)
        requires
            old(ctx).renderer().wf(),
            old(ctx).renderer().status().current,
        ensures
            final(ctx).renderer().wf(),
            final(ctx).renderer().status().current,
            final(ctx).renderer().origin() == old(ctx).renderer().origin(),
            old(ctx).renderer().history().is_prefix_of(final(ctx).renderer().history()),
    {
    }

    /// Take note of a new size of the surface.
    fn on_resize(&mut self, size: (i32, i32)) {
    }
}

/// The commands that switch alpha blending on or off.
pub open spec fn blending_commands(enabled: bool) -> Seq<CommandView> {
    if enabled {
        seq![
            Command::Enable { capability: gl::BLEND },
            Command::BlendFunc { source: gl::SRC_ALPHA, destination: gl::ONE_MINUS_SRC_ALPHA },
        ]
    } else {
        seq![Command::Disable { capability: gl::BLEND }]
    }
}

/// The command that switches the depth test on or off.
pub open spec fn depth_commands(enabled: bool) -> Seq<CommandView> {
    if enabled {
        seq![Command::Enable { capability: gl::DEPTH_TEST }]
    } else {
        seq![Command::Disable { capability: gl::DEPTH_TEST }]
    }
}

/// The commands that cull the faces of `side`, with clockwise faces in
/// front, or that switch culling off.
pub open spec fn culling_commands(side: Option<CullSide>) -> Seq<CommandView> {
    match side {
        Some(side) => seq![
            Command::Enable { capability: gl::CULL_FACE },
            Command::CullFace {
                mode: if side == CullSide::Front {
                    gl::FRONT
                } else {
                    gl::BACK
                },
            },
            Command::FrontFace { mode: gl::CW },
        ],
        None => seq![Command::Disable { capability: gl::CULL_FACE }],
    }
}

/// What an application works with: the renderer, the requests to the
/// window, and the video modes of the monitor.
pub struct Context {
    renderer: Renderer,
    outbox: Vec<EngineEvent>,
    video_modes: Vec<VideoMode>,
}

impl Context {
    /// The renderer.
    pub closed spec fn renderer(&self) -> Renderer {
        self.renderer
    }

    /// The renderer, to work with.
    pub fn renderer_mut(&mut self) -> (renderer: &mut Renderer)
        ensures
            *renderer == old(self).renderer(),
            final(self).renderer() == *final(renderer),
            final(self).sent() == old(self).sent(),
            final(self).modes() == old(self).modes(),
    {
        &mut self.renderer
    }

    /// The renderer, to look at.
    pub fn renderer_ref(&self) -> (renderer: &Renderer)
        ensures
            *renderer == self.renderer(),
    {
        &self.renderer
    }

    /// The requests to the window that were not yet taken.
    pub closed spec fn sent(&self) -> Seq<EngineEventView> {
        self.outbox.deep_view()
    }

    /// The video modes of the monitor.
    pub closed spec fn modes(&self) -> Seq<VideoMode> {
        self.video_modes@
    }

    /// Whether `self` is `before` with `event` sent and nothing else
    /// changed.
    pub open spec fn sent_after(&self, before: &Context, event: EngineEventView) -> bool {
        &&& self.sent() == before.sent().push(event)
        &&& self.modes() == before.modes()
        &&& self.renderer() == before.renderer()
    }

    /// Whether `self` is `before` with the commands `cs` queued and nothing
    /// else changed.
    pub open spec fn queued_after(&self, before: &Context, cs: Seq<CommandView>) -> bool {
        &&& self.renderer().after(&before.renderer(), before.renderer().status(), cs)
        &&& self.renderer().device() == before.renderer().device()
        &&& self.sent() == before.sent()
        &&& self.modes() == before.modes()
    }

    /// A context around `renderer`, with no request to the window yet.
    pub fn new(renderer: Renderer, video_modes: Vec<VideoMode>) -> (ctx: Context)
        ensures
            ctx.renderer() == renderer,
            ctx.sent() == Seq::<EngineEventView>::empty(),
            ctx.modes() == video_modes@,
    {
        let ctx = Context { renderer, outbox: Vec::new(), video_modes };
        assert(ctx.outbox.deep_view() =~= Seq::<EngineEventView>::empty());
        ctx
    }

    /// The video modes of the monitor.
    pub fn video_modes(&self) -> (modes: &Vec<VideoMode>)
        ensures
            modes@ == self.modes(),
    {
        &self.video_modes
    }

    /// Hand over the requests to the window, first to last, and leave none
    /// behind.
    pub fn take_events(&mut self) -> (events: Vec<EngineEvent>)
        ensures
            events.deep_view() == old(self).sent(),
            final(self).sent() == Seq::<EngineEventView>::empty(),
            final(self).modes() == old(self).modes(),
            final(self).renderer() == old(self).renderer(),
    {
        let mut events: Vec<EngineEvent> = Vec::new();
        core::mem::swap(&mut events, &mut self.outbox);
        assert(self.outbox.deep_view() =~= Seq::<EngineEventView>::empty());
        events
    }

    /// Queue a request to the window.
    fn send(&mut self, event: EngineEvent)
        ensures
            final(self).sent_after(old(self), event@),
    {
        self.outbox.push(event);
        assert(self.outbox.deep_view() =~= old(self).outbox.deep_view().push(event@));
    }

    /// Switch alpha blending on or off.
    pub fn enable_alpha_blending(&mut self, enabled: bool)
        requires
            old(self).renderer().wf(),
            old(self).renderer().status().current,
        ensures
            final(self).queued_after(old(self), blending_commands(enabled)),
    {
        if enabled {
            self.renderer.issue(Command::Enable { capability: gl::BLEND });
            self.renderer.issue(
                Command::BlendFunc { source: gl::SRC_ALPHA, destination: gl::ONE_MINUS_SRC_ALPHA },
            );
        } else {
            self.renderer.issue(Command::Disable { capability: gl::BLEND });
        }
        proof {
            assert(self.renderer.history() =~= old(self).renderer().history() + blending_commands(
                enabled,
            ));
            assert(self.renderer.pending() =~= old(self).renderer().pending() + blending_commands(
                enabled,
            ));
        }
    }

    /// Switch the depth test on or off.
    pub fn enable_depth_buffer(&mut self, enabled: bool)
        requires
            old(self).renderer().wf(),
            old(self).renderer().status().current,
        ensures
            final(self).queued_after(old(self), depth_commands(enabled)),
    {
        if enabled {
            self.renderer.issue(Command::Enable { capability: gl::DEPTH_TEST });
        } else {
            self.renderer.issue(Command::Disable { capability: gl::DEPTH_TEST });
        }
    }

    /// Cull the faces of `side`, or none.
    pub fn enable_backface_culling(&mut self, side: Option<CullSide>)
        requires
            old(self).renderer().wf(),
            old(self).renderer().status().current,
        ensures
            final(self).queued_after(old(self), culling_commands(side)),
    {
        if let Some(side) = side {
            self.renderer.issue(Command::Enable { capability: gl::CULL_FACE });
            self.renderer.issue(
                Command::CullFace {
                    mode: if side == CullSide::Front {
                        gl::FRONT
                    } else {
                        gl::BACK
                    },
                },
            );
            self.renderer.issue(Command::FrontFace { mode: gl::CW });
        } else {
            self.renderer.issue(Command::Disable { capability: gl::CULL_FACE });
        }
        proof {
            assert(self.renderer.history() =~= old(self).renderer().history() + culling_commands(
                side,
            ));
            assert(self.renderer.pending() =~= old(self).renderer().pending() + culling_commands(
                side,
            ));
        }
    }

    /// Ask for a new title of the window.
    pub fn set_window_title(&mut self, name: &str)
        ensures
            final(self).sent_after(old(self), Event::SetTitle(name@)),
    {
        self.send(Event::SetTitle(name.to_owned()));
    }

    /// Ask for the window to be maximized, or not.
    pub fn set_maximized(&mut self, maximized: bool)
        ensures
            final(self).sent_after(old(self), Event::SetMaximized(maximized)),
    {
        self.send(Event::SetMaximized(maximized));
    }

    /// Ask for the window to be minimized, or not.
    pub fn set_minimized(&mut self, minimized: bool)
        ensures
            final(self).sent_after(old(self), Event::SetMinimized(minimized)),
    {
        self.send(Event::SetMinimized(minimized));
    }

    /// Ask for the window to fill the screen, or not.
    pub fn set_fullscreen(&mut self, fullscreen: Option<Fullscreen>)
        ensures
            final(self).sent_after(old(self), Event::SetFullscreen(fullscreen)),
    {
        self.send(Event::SetFullscreen(fullscreen));
    }

    /// Ask for a new size of the window.
    pub fn set_size(&mut self, size: (u32, u32))
        ensures
            final(self).sent_after(old(self), Event::SetSize(size)),
    {
        self.send(Event::SetSize(size));
    }
}

/// What begins what begins a sequence begins that sequence.
proof fn prefix_of_prefix(a: Seq<CommandView>, b: Seq<CommandView>, c: Seq<CommandView>)
    requires
        a.is_prefix_of(b),
        b.is_prefix_of(c),
    ensures
        a.is_prefix_of(c),
{
    assert(a =~= c.subrange(0, a.len() as int));
}

/// A sequence begins whatever it is extended to.
proof fn prefix_of_extension(a: Seq<CommandView>, more: Seq<CommandView>)
    ensures
        a.is_prefix_of(a + more),
{
    assert(a =~= (a + more).subrange(0, a.len() as int));
}

/// The commands that a new renderer queues: the context is made current
/// and the program that draws a framebuffer when no other is bound is
/// built.
pub open spec fn first_commands() -> Seq<CommandView> {
    seq![Command::MakeCurrent] + rendering::shader::program_commands(
        1,
        rendering::shader::VS@,
        "vs"@,
        rendering::shader::FB_FS@,
        "fb_fs"@,
    )
}

/// The commands that end a frame: with the conversion to sRGB switched off,
/// the back buffer is presented and the context released.
pub open spec fn frame_end() -> Seq<CommandView> {
    seq![
        Command::Disable { capability: gl::FRAMEBUFFER_SRGB },
        Command::SwapBuffers,
        Command::MakeNotCurrent,
    ]
}

/// The frame cycle: an application, its context, and the phases that an
/// event loop drives them through. Between the phases the context is not
/// current.
pub struct State<A: App> {
    app: A,
    ctx: Context,
}

/// What a resize queues: nothing where the surface has no new size, else
/// the bracket of the context around the viewport, which is set only for
/// a size that a viewport can have.
pub open spec fn resize_commands(resized: Option<(u32, u32)>) -> Seq<CommandView> {
    match resized {
        None => Seq::empty(),
        Some(size) => match (
            rendering::device::as_extent(size.0),
            rendering::device::as_extent(size.1),
        ) {
            (Some(width), Some(height)) => seq![
                Command::MakeCurrent,
                Command::Viewport { x: 0, y: 0, width, height },
                Command::MakeNotCurrent,
            ],
            _ => seq![Command::MakeCurrent, Command::MakeNotCurrent],
        },
    }
}

/// The command that makes the context current, where it is not.
pub open spec fn acquire_commands(current: bool) -> Seq<CommandView> {
    if current {
        Seq::empty()
    } else {
        seq![Command::MakeCurrent]
    }
}

/// The command that releases the context, where it is current.
pub open spec fn release_commands(current: bool) -> Seq<CommandView> {
    if current {
        seq![Command::MakeNotCurrent]
    } else {
        Seq::empty()
    }
}

/// The commands of one turn of the loop, in their order: the resize, the
/// update with what the application queued in it, the start of the frame,
/// what the application queued to draw it, and the end of the frame.
pub open spec fn turn_commands(
    resized: Option<(u32, u32)>,
    updated: Seq<CommandView>,
    rendered: Seq<CommandView>,
) -> Seq<CommandView> {
    resize_commands(resized) + updated + rendering::frame_start() + rendered + frame_end()
}

/// What the loop does with an event: nothing, or one turn of the frame
/// cycle.
#[derive(Clone, Copy, Debug, PartialEq, Eq)]
pub enum Turn {
    /// The event is passed over.
    Skip,
    /// The frame cycle takes a turn, with the new size of the surface if
    /// it has one; after it the loop ends if `exit` is set.
    Frame { resized: Option<(u32, u32)>, exit: bool },
}

/// What to do with an event. An event that the overlay consumed is passed
/// over, and so is one that does not complete a step of the input; any
/// other gives the frame cycle a turn.
pub fn turn_for(
    consumed: bool,
    stepped: bool,
    close_requested: bool,
    resized: Option<(u32, u32)>,
) -> (t: Turn)
    ensures
        t == (if consumed || !stepped {
            Turn::Skip
        } else {
            Turn::Frame { resized, exit: close_requested }
        }),
{
    if consumed || !stepped {
        Turn::Skip
    } else {
        Turn::Frame { resized, exit: close_requested }
    }
}

/// What follows a turn: the failure to log, if the frame failed, and
/// whether the loop ends.
#[derive(Clone, Copy, Debug, PartialEq, Eq)]
pub struct Aftermath {
    pub failure: Option<RenderError>,
    pub exit: bool,
}

/// What follows a turn that gave `res`. A frame that failed is skipped: its
/// failure is to be logged, and the loop goes on as it would have.
pub fn after_turn(exit: bool, res: Result<(), RenderError>) -> (a: Aftermath)
    ensures
        a.exit == exit,
        a.failure == (match res {
            Ok(_) => None,
            Err(e) => Some(e),
        }),
{
    match res {
        Ok(_) => Aftermath { failure: None, exit },
        Err(e) => Aftermath { failure: Some(e), exit },
    }
}

impl<A: App> State<A> {
    /// The context of the application.
    pub closed spec fn context(&self) -> Context {
        self.ctx
    }

    /// Between the phases the renderer is sound and the context is not
    /// current.
    pub open spec fn idle(&self) -> bool {
        self.context().renderer().wf() && !self.context().renderer().status().current
    }

    /// Whether `self` is `before` after a resize to `new_size`: the
    /// renderer was resized within a bracket of the context, and the
    /// application, told the size, became `told`.
    pub open spec fn resized_via(&self, before: &State<A>, new_size: (u32, u32), told: A) -> bool {
        &&& self.idle()
        &&& self.app() == told
        &&& self.context().sent() == before.context().sent()
        &&& self.context().modes() == before.context().modes()
        &&& self.context().renderer().origin() == before.context().renderer().origin()
        &&& self.context().renderer().history() == before.context().renderer().history()
            + resize_commands(Some(new_size))
        &&& self.context().renderer().status() == (match (
            rendering::device::as_extent(new_size.0),
            rendering::device::as_extent(new_size.1),
        ) {
            (Some(width), Some(height)) => Status {
                size: new_size,
                viewport: (0, 0, width, height),
                current: false,
                ..before.context().renderer().status()
            },
            _ => Status { current: false, ..before.context().renderer().status() },
        })
    }

    /// Whether `entry` is the context of `before` with the context made
    /// current, if it was not, and nothing else changed.
    pub open spec fn acquired(before: &State<A>, entry: Context) -> bool {
        &&& entry.renderer().wf()
        &&& entry.sent() == before.context().sent()
        &&& entry.modes() == before.context().modes()
        &&& entry.renderer().origin() == before.context().renderer().origin()
        &&& entry.renderer().status() == (Status {
            current: true,
            ..before.context().renderer().status()
        })
        &&& entry.renderer().history() == before.context().renderer().history()
            + acquire_commands(before.context().renderer().status().current)
    }

    /// Whether `self` is `before` after an update: the application worked
    /// on `entry`, the context of `before` made current, and left `left`
    /// and `exit`; the context was then released if it was current.
    pub open spec fn updated_via(&self, before: &State<A>, entry: Context, left: A, exit: Context) -> bool {
        &&& self.idle()
        &&& State::<A>::acquired(before, entry)
        &&& self.app() == left
        &&& self.context().sent() == exit.sent()
        &&& self.context().modes() == exit.modes()
        &&& self.context().renderer().origin() == exit.renderer().origin()
        &&& self.context().renderer().status() == (Status {
            current: false,
            ..exit.renderer().status()
        })
        &&& self.context().renderer().history() == exit.renderer().history() + release_commands(
            exit.renderer().status().current,
        )
    }

    /// Whether `entry` is the context of `before` with a frame started and
    /// nothing else changed.
    pub open spec fn started(before: &State<A>, entry: Context) -> bool {
        &&& entry.renderer().wf()
        &&& entry.sent() == before.context().sent()
        &&& entry.modes() == before.context().modes()
        &&& entry.renderer().origin() == before.context().renderer().origin()
        &&& entry.renderer().status() == (Status {
            current: true,
            ..before.context().renderer().status()
        })
        &&& entry.renderer().history() == before.context().renderer().history()
            + rendering::frame_start()
    }

    /// Whether `self` is `before` after a frame: the application rendered
    /// on `entry`, the context of `before` with the frame started, and left
    /// `left` and `exit`; the frame was then ended.
    pub open spec fn rendered_via(&self, before: &State<A>, entry: Context, left: A, exit: Context) -> bool {
        &&& self.idle()
        &&& State::<A>::started(before, entry)
        &&& self.app() == left
        &&& self.context().sent() == exit.sent()
        &&& self.context().modes() == exit.modes()
        &&& self.context().renderer().origin() == exit.renderer().origin()
        &&& self.context().renderer().status() == (Status {
            current: false,
            ..exit.renderer().status()
        })
        &&& self.context().renderer().history() == exit.renderer().history() + frame_end()
    }

    /// Whether `entry` is the context around a new renderer for a surface
    /// of `size` pixels, with the first frame started.
    pub open spec fn first_entry(size: (u32, u32), modes: Seq<VideoMode>, entry: Context) -> bool {
        &&& entry.renderer().wf()
        &&& entry.sent() == Seq::<EngineEventView>::empty()
        &&& entry.modes() == modes
        &&& entry.renderer().origin() == rendering::device::Device::initial(size.0, size.1)
        &&& entry.renderer().status() == (Status {
            size,
            current: true,
            shader_bound: false,
            viewport: rendering::device::Device::initial(size.0, size.1).viewport,
            next_name: 4,
            fallback: 1,
        })
        &&& entry.renderer().history() == first_commands() + rendering::frame_start()
    }

    /// Whether `self` holds what was made on `entry` and left `exit`, with
    /// the first frame ended.
    pub open spec fn made_via(&self, exit: Context) -> bool {
        &&& self.idle()
        &&& self.context().sent() == exit.sent()
        &&& self.context().modes() == exit.modes()
        &&& self.context().renderer().origin() == exit.renderer().origin()
        &&& self.context().renderer().status() == (Status {
            current: false,
            ..exit.renderer().status()
        })
        &&& self.context().renderer().history() == exit.renderer().history() + seq![
            Command::SwapBuffers,
            Command::MakeNotCurrent,
        ]
    }

    /// Set up the renderer for a surface of `size` pixels and let `f` make
    /// the application within a first frame: `f` works on a context whose
    /// renderer has built its own program and started the frame, and the
    /// frame is ended on what `f` leaves.
    pub fn new<F: FnOnce(&mut Context) -> A>(
        size: (u32, u32),
        video_modes: Vec<VideoMode>,
        f: F,
    ) -> (state: State<A>)
        requires
            forall|ctx: &mut Context|
                ctx.renderer().wf() && ctx.renderer().status().current ==> call_requires(f, (ctx,)),
            forall|ctx: &mut Context, app: A| #[trigger]
                call_ensures(f, (ctx,), app) ==> final(ctx).renderer().wf() && final(
                    ctx).renderer().status().current,
        ensures
            exists|c: &mut Context|
                State::<A>::first_entry(size, video_modes@, *c) && #[trigger] call_ensures(
                    f,
                    (c,),
                    state.app(),
                ) && state.made_via(*final(c)),
    {
        let mut ctx = Context::new(Renderer::new(size), video_modes);
        let _ = ctx.renderer.start_frame();
        assert(State::<A>::first_entry(size, video_modes@, ctx));
        let app = f(&mut ctx);
        let ghost left = ctx;
        let ghost made = app;
        let _ = ctx.renderer.end_frame();
        let state = State { app, ctx };
        assert(state.made_via(left));
        assert(state.app() == made);
        state
    }

    /// Take a new size of the surface: resize the renderer within a
    /// bracket of the context and tell the application.
    pub fn resize(&mut self, new_size: (u32, u32))
        requires
            old(self).context().renderer().wf(),
        ensures
            exists|a: &mut A|
                *a == old(self).app() && #[trigger] call_ensures(
                    A::on_resize,
                    (a, (new_size.0 as i32, new_size.1 as i32)),
                    (),
                ) && final(self).resized_via(old(self), new_size, *final(a)),
    {
        self.ctx.renderer.gl_make_current();
        self.ctx.renderer.resize(new_size);
        let width: i32 = #[verifier::truncate] (new_size.0 as i32);
        let height: i32 = #[verifier::truncate] (new_size.1 as i32);
        self.app.on_resize((width, height));
        self.ctx.renderer.gl_make_not_current();
        proof {
            let before = old(self).context().renderer().history();
            assert(self.ctx.renderer.history() =~= before + resize_commands(Some(new_size)));
        }
    }

    /// Let the application update, with the context current. The context
    /// is made current only if it is not, and released after if the
    /// application left it current.
    pub fn update(&mut self)
        requires
            old(self).context().renderer().wf(),
        ensures
            exists|a: &mut A, c: &mut Context|
                *a == old(self).app() && #[trigger] call_ensures(A::update, (a, c), ())
                    && final(self).updated_via(old(self), *c, *final(a), *final(c)),
            old(self).context().renderer().history().is_prefix_of(
                final(self).context().renderer().history(),
            ),
    {
        let ghost h0 = self.ctx.renderer.history();
        if !self.ctx.renderer.is_context_current() {
            self.ctx.renderer.gl_make_current();
        } else {
            assert(h0 + Seq::<CommandView>::empty() =~= h0);
        }
        let ghost h1 = self.ctx.renderer.history();
        assert(State::<A>::acquired(old(self), self.ctx));
        self.app.update(&mut self.ctx);
        let ghost h2 = self.ctx.renderer.history();
        if self.ctx.renderer.is_context_current() {
            self.ctx.renderer.gl_make_not_current();
        } else {
            assert(h2 + Seq::<CommandView>::empty() =~= h2);
        }
        proof {
            let h3 = self.ctx.renderer.history();
            prefix_of_extension(h0, acquire_commands(old(self).context().renderer().status().current));
            prefix_of_extension(h2, h3.skip(h2.len() as int));
            assert(h3 =~= h2 + h3.skip(h2.len() as int));
            prefix_of_prefix(h0, h1, h2);
            prefix_of_prefix(h0, h2, h3);
        }
    }

    /// Let the application render a frame: start the frame, render, switch
    /// the sRGB conversion off, and end the frame.
    pub fn render(&mut self) -> (res: Result<(), RenderError>)
        requires
            old(self).context().renderer().wf(),
        ensures
            res is Ok,
            exists|a: &mut A, c: &mut Context|
                *a == old(self).app() && #[trigger] call_ensures(A::render, (a, c), ())
                    && final(self).rendered_via(old(self), *c, *final(a), *final(c)),
            exists|rendered: Seq<CommandView>|
                final(self).context().renderer().history() == old(
                    self).context().renderer().history() + rendering::frame_start() + rendered
                    + frame_end(),
    {
        self.ctx.renderer.start_frame()?;
        let ghost started = self.ctx.renderer.history();
        assert(State::<A>::started(old(self), self.ctx));
        self.app.render(&mut self.ctx);
        let ghost drawn = self.ctx.renderer.history();
        self.ctx.renderer.issue(Command::Disable { capability: gl::FRAMEBUFFER_SRGB });
        self.ctx.renderer.end_frame()?;
        proof {
            assert(self.ctx.renderer.history() =~= drawn + frame_end());
            let rendered = drawn.skip(started.len() as int);
            assert(drawn =~= started + rendered);
            assert(self.ctx.renderer.history() =~= old(self).context().renderer().history()
                + rendering::frame_start() + rendered + frame_end());
        }
        Ok(())
    }

    /// One turn of the event loop: the resize, if the surface has a new
    /// size, then the update, then the frame, once each and in this order.
    pub fn frame(&mut self, resized: Option<(u32, u32)>) -> (res: Result<(), RenderError>)
        requires
            old(self).context().renderer().wf(),
        ensures
            res is Ok,
            final(self).idle(),
            final(self).context().renderer().origin() == old(self).context().renderer().origin(),
            exists|
                sized: State<A>,
                updated: State<A>,
                ua: &mut A,
                uc: &mut Context,
                ra: &mut A,
                rc: &mut Context,
            |
                #![trigger
                    updated.updated_via(&sized, *uc, *final(ua), *final(uc)),
                    final(self).rendered_via(&updated, *rc, *final(ra), *final(rc)),
                ]
                (match resized {
                    Some(size) => exists|a: &mut A|
                        *a == old(self).app() && #[trigger] call_ensures(
                            A::on_resize,
                            (a, (size.0 as i32, size.1 as i32)),
                            (),
                        ) && sized.resized_via(old(self), size, *final(a)),
                    None => sized == *old(self),
                }) && *ua == sized.app() && call_ensures(A::update, (ua, uc), ())
                    && updated.updated_via(&sized, *uc, *final(ua), *final(uc)) && *ra
                    == updated.app() && call_ensures(A::render, (ra, rc), ())
                    && final(self).rendered_via(&updated, *rc, *final(ra), *final(rc)),
            exists|updated: Seq<CommandView>, rendered: Seq<CommandView>|
                final(self).context().renderer().history() == old(
                    self).context().renderer().history() + #[trigger] turn_commands(
                    resized,
                    updated,
                    rendered,
                ),
    {
        let ghost h0 = self.ctx.renderer.history();
        if let Some(size) = resized {
            self.resize(size);
        } else {
            assert(h0 + Seq::<CommandView>::empty() =~= h0);
        }
        let ghost sized = *self;
        let ghost h1 = self.ctx.renderer.history();
        self.update();
        let ghost updated = *self;
        let ghost h2 = self.ctx.renderer.history();
        let res = self.render();
        proof {
            let h = self.ctx.renderer.history();
            assert(h1 == h0 + resize_commands(resized));
            let during = h2.skip(h1.len() as int);
            assert(h2 =~= h1 + during);
            let drawn = choose|rendered: Seq<CommandView>|
                h == h2 + rendering::frame_start() + rendered + frame_end();
            assert(h =~= h0 + turn_commands(resized, during, drawn));
        }
        res
    }

    /// The application.
    pub closed spec fn app(&self) -> A {
        self.app
    }

    /// The application, to work with.
    pub fn app_mut(&mut self) -> (app: &mut A)
        ensures
            *app == old(self).app(),
            final(self).app() == *final(app),
            final(self).context() == old(self).context(),
    {
        &mut self.app
    }

    /// Hand over the commands that are queued, first to last.
    pub fn take_commands(&mut self) -> (commands: Vec<rendering::command::GlCommand>)
        ensures
            commands.deep_view() == old(self).context().renderer().pending(),
            final(self).context().renderer().pending() == Seq::<CommandView>::empty(),
            final(self).context().renderer().history() == old(self).context().renderer().history(),
            final(self).context().renderer().status() == old(self).context().renderer().status(),
            old(self).context().renderer().wf() ==> final(self).context().renderer().wf(),
            final(self).context().sent() == old(self).context().sent(),
    {
        self.ctx.renderer.take_commands()
    }

    /// Hand over the requests to the window, first to last.
    pub fn take_events(&mut self) -> (events: Vec<EngineEvent>)
        ensures
            events.deep_view() == old(self).context().sent(),
            final(self).context().sent() == Seq::<EngineEventView>::empty(),
            final(self).context().renderer() == old(self).context().renderer(),
    {
        self.ctx.take_events()
    }
}

} // verus!
