//! What holds of the renderer and its resources whatever they are used for.

use vstd::prelude::*;
use super::buffer::{stored, FixedSizeBuffer};
use super::command::CommandView;
use super::device::{
    needs_context, needs_program, run, run_concat, run_keeps_violations, run_push, splice,
    splice_reads_back, violates, Device,
};
use super::mesh::Mesh;
use super::render_pass::Framebuffer;
use super::{Drawable, Renderer};

verus! {

/// No command in the history of a sound renderer was issued in a state that
/// does not admit it: the state before command `i` was one that command
/// `i` could be issued in.
pub proof fn history_is_sound(renderer: &Renderer, i: int)
    requires
        renderer.wf(),
        0 <= i < renderer.history().len(),
    ensures
        !violates(run(renderer.origin(), renderer.history().take(i)), renderer.history()[i]),
{
    reveal(Renderer::device);
    let h = renderer.history();
    let o = renderer.origin();
    assert(h =~= h.take(i + 1) + h.skip(i + 1));
    assert(h.take(i + 1) =~= h.take(i).push(h[i]));
    run_concat(o, h.take(i + 1), h.skip(i + 1));
    run_keeps_violations(run(o, h.take(i + 1)), h.skip(i + 1));
    run_push(o, h.take(i), h[i]);
    run_keeps_violations(o, h.take(i));
}

/// Every command in the history of a sound renderer but those that move
/// the context was issued while the context was current, and every draw
/// call while a program was in use.
pub proof fn calls_had_what_they_need(renderer: &Renderer, i: int)
    requires
        renderer.wf(),
        0 <= i < renderer.history().len(),
    ensures
        needs_context(renderer.history()[i]) ==> run(
            renderer.origin(),
            renderer.history().take(i),
        ).current,
        needs_program(renderer.history()[i]) ==> run(
            renderer.origin(),
            renderer.history().take(i),
        ).program is Some,
{
    history_is_sound(renderer, i);
}

/// Bind a program, release it, release it again: the first release clears
/// the flag, and the second changes nothing.
pub proof fn second_unbind_is_idle(
    before: &Renderer,
    bound: &Renderer,
    once: &Renderer,
    twice: &Renderer,
    program: u32,
)
    requires
        bound.bound_to(before, program),
        once.released_from(bound),
        twice.released_from(once),
    ensures
        bound.status().shader_bound,
        !once.status().shader_bound,
        once.device().program is None,
        twice.status() == once.status(),
        twice.history() == once.history(),
        twice.pending() == once.pending(),
        twice.device() == once.device(),
{
    assert(once.history() + Seq::<CommandView>::empty() =~= once.history());
    assert(once.pending() + Seq::<CommandView>::empty() =~= once.pending());
}

/// A mesh may be drawn wherever a program was bound on a current context,
/// and nowhere where none is bound.
pub proof fn draw_needs_a_bound_program(
    mesh: &Mesh,
    before: &Renderer,
    bound: &Renderer,
    program: u32,
)
    requires
        before.status().current,
        bound.bound_to(before, program),
    ensures
        mesh.drawable(bound),
        !before.status().shader_bound ==> !mesh.drawable(before),
{
}

/// A framebuffer may be drawn whether a program is bound or not.
pub proof fn framebuffer_draws_without_a_program(fb: &Framebuffer, renderer: &Renderer)
    requires
        renderer.wf(),
        renderer.status().current,
    ensures
        fb.drawable(renderer),
{
}

/// What is written to a buffer that the device holds is what a read-back
/// of the same range yields, and the buffer keeps its size.
pub proof fn written_is_read_back(
    buffer: &FixedSizeBuffer,
    device: Device,
    offset: usize,
    data: Seq<u8>,
)
    requires
        buffer.held_by(device),
        buffer.fits(offset, data.len()),
    ensures
        ({
            let after = stored(
                device,
                buffer.name(),
                splice(buffer.contents(device), offset * buffer.elem_size(), data),
            );
            &&& buffer.held_by(after)
            &&& after.read_back(buffer.name(), offset * buffer.elem_size(), data.len() as int)
                == data
        }),
{
    splice_reads_back(buffer.contents(device), offset * buffer.elem_size(), data);
}

} // verus!
