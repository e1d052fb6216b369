//! What the queued commands mean.
//!
//! [`Device`] is the part of the driver's state that the renderer's rules
//! speak of, and [`step`] is the effect of one command on it. Both live in
//! specifications only: they give the contracts of the renderer and of its
//! resources something to be stated over.

use vstd::prelude::*;
use super::command::{Command, CommandView, ObjectKind};

verus! {

/// The state of the driver, as far as the renderer's rules go.
pub struct Device {
    /// Whether the context is current on the calling thread.
    pub current: bool,
    /// The live objects, by name.
    pub objects: Map<u32, ObjectKind>,
    /// The bytes of each buffer that holds a store filled bytewise.
    pub stores: Map<u32, Seq<u8>>,
    /// The buffer bound to each target.
    pub bindings: Map<u32, u32>,
    /// The program in use.
    pub program: Option<u32>,
    pub vertex_array: Option<u32>,
    pub framebuffer: Option<u32>,
    /// `(x, y, width, height)`.
    pub viewport: (i32, i32, i32, i32),
    /// How often the back buffer was presented.
    pub presented: nat,
    /// How many commands were issued in a state that does not admit them.
    pub violations: nat,
}

/// The size that a viewport dimension of `pixels` is set to, if it is one
/// that a viewport can have.
pub open spec fn as_extent(pixels: u32) -> Option<i32> {
    if 0 < pixels <= i32::MAX {
        Some(pixels as i32)
    } else {
        None
    }
}

/// `pixels` as a viewport dimension, or 0 if a viewport cannot have it.
pub open spec fn extent_or_zero(pixels: u32) -> i32 {
    match as_extent(pixels) {
        Some(e) => e,
        None => 0,
    }
}

impl Device {
    /// The state of a context that was just created for a surface of the
    /// given size and is not yet current.
    pub open spec fn initial(width: u32, height: u32) -> Device {
        Device {
            current: false,
            objects: Map::empty(),
            stores: Map::empty(),
            bindings: Map::empty(),
            program: None,
            vertex_array: None,
            framebuffer: None,
            viewport: (0, 0, extent_or_zero(width), extent_or_zero(height)),
            presented: 0,
            violations: 0,
        }
    }

    /// The bytes that a read-back of `length` bytes at `offset` of `buffer`
    /// yields.
    pub open spec fn read_back(self, buffer: u32, offset: int, length: int) -> Seq<u8>
        recommends
            self.stores.contains_key(buffer),
            0 <= offset,
            0 <= length,
            offset + length <= self.stores[buffer].len(),
    {
        self.stores[buffer].subrange(offset, offset + length)
    }

    /// Whether `name` is a live object of `kind`.
    pub open spec fn has(self, kind: ObjectKind, name: u32) -> bool {
        self.objects.contains_key(name) && self.objects[name] == kind
    }
}

/// `store` with the bytes from `at` on replaced by `data`.
pub open spec fn splice(store: Seq<u8>, at: int, data: Seq<u8>) -> Seq<u8>
    recommends
        0 <= at,
        at + data.len() <= store.len(),
{
    store.subrange(0, at) + data + store.subrange(at + data.len(), store.len() as int)
}

/// `length` bytes, each 0.
pub open spec fn zeros(length: int) -> Seq<u8> {
    Seq::new(length as nat, |i: int| 0u8)
}

/// Replacing a range of a store leaves its length, puts the data where a
/// read-back of the range finds it, and leaves the rest.
pub proof fn splice_reads_back(store: Seq<u8>, at: int, data: Seq<u8>)
    requires
        0 <= at,
        at + data.len() <= store.len(),
    ensures
        splice(store, at, data).len() == store.len(),
        splice(store, at, data).subrange(at, at + data.len()) == data,
        forall|i: int|
            0 <= i < store.len() && !(at <= i < at + data.len()) ==> splice(store, at, data)[i]
                == store[i],
{
    assert(splice(store, at, data).subrange(at, at + data.len()) =~= data);
}

/// `length` bytes of which nothing is known.
pub open spec fn unspecified(length: int) -> Seq<u8> {
    Seq::new(length as nat, |i: int| arbitrary::<u8>())
}

/// Every command but the two that move the context needs a current context.
pub open spec fn needs_context(c: CommandView) -> bool {
    !(c is MakeCurrent) && !(c is MakeNotCurrent)
}

/// A draw call needs a program in use.
pub open spec fn needs_program(c: CommandView) -> bool {
    c is DrawElements || c is DrawArrays
}

/// Whether the device is in no state to take `c`.
pub open spec fn violates(d: Device, c: CommandView) -> bool {
    (needs_context(c) && !d.current) || (needs_program(c) && d.program is None)
}

/// A command that changes nothing of what a [`Device`] holds.
pub open spec fn inert(c: CommandView) -> bool {
    &&& needs_context(c)
    &&& !(c is SwapBuffers)
    &&& !(c is Viewport)
    &&& !(c is CreateObject)
    &&& !(c is CreateShader)
    &&& !(c is DeleteObject)
    &&& !(c is BindBuffer)
    &&& !(c is BindBufferBase)
    &&& !(c is BufferStorage)
    &&& !(c is BufferData)
    &&& !(c is BufferDataWords)
    &&& !(c is BufferSubData)
    &&& !(c is InvalidateBufferSubData)
    &&& !(c is CopyBufferSubData)
    &&& !(c is BindVertexArray)
    &&& !(c is UseProgram)
    &&& !(c is BindFramebuffer)
}

/// What `c` does to the state, apart from the count of violations.
#[verifier::opaque]
pub open spec fn effect(d: Device, c: CommandView) -> Device {
    match c {
        Command::MakeCurrent => Device { current: true, ..d },
        Command::MakeNotCurrent => Device { current: false, ..d },
        Command::SwapBuffers => Device { presented: d.presented + 1, ..d },
        Command::Viewport { x, y, width, height } => Device { viewport: (x, y, width, height), ..d },
        Command::CreateObject { kind, name } => Device { objects: d.objects.insert(name, kind), ..d },
        Command::CreateShader { name, stage } => Device {
            objects: d.objects.insert(name, ObjectKind::Shader),
            ..d
        },
        Command::DeleteObject { kind, name } => Device {
            objects: d.objects.remove(name),
            stores: d.stores.remove(name),
            ..d
        },
        Command::BindBuffer { target, buffer } => Device {
            bindings: match buffer {
                Some(b) => d.bindings.insert(target, b),
                None => d.bindings.remove(target),
            },
            ..d
        },
        Command::BindBufferBase { target, index, buffer } => Device {
            bindings: match buffer {
                Some(b) => d.bindings.insert(target, b),
                None => d.bindings.remove(target),
            },
            ..d
        },
        // A buffer is given a store once and refilled after: a store that is
        // there is replaced.
        Command::BufferStorage { target, size, flags } => {
            if d.bindings.contains_key(target) && size >= 0 {
                Device { stores: d.stores.insert(d.bindings[target], unspecified(size as int)), ..d }
            } else {
                d
            }
        },
        Command::BufferData { target, data, usage } => {
            if d.bindings.contains_key(target) {
                Device { stores: d.stores.insert(d.bindings[target], data), ..d }
            } else {
                d
            }
        },
        Command::BufferDataWords { target, data, usage } => {
            if d.bindings.contains_key(target) {
                Device { stores: d.stores.remove(d.bindings[target]), ..d }
            } else {
                d
            }
        },
        Command::BufferSubData { target, offset, data } => {
            if d.bindings.contains_key(target) && d.stores.contains_key(d.bindings[target]) && 0
                <= offset && offset + data.len() <= d.stores[d.bindings[target]].len() {
                let b = d.bindings[target];
                Device { stores: d.stores.insert(b, splice(d.stores[b], offset as int, data)), ..d }
            } else {
                d
            }
        },
        Command::InvalidateBufferSubData { target, offset, length } => {
            if d.bindings.contains_key(target) && d.stores.contains_key(d.bindings[target]) && 0
                <= offset && 0 <= length && offset + length <= d.stores[d.bindings[target]].len() {
                let b = d.bindings[target];
                Device {
                    stores: d.stores.insert(
                        b,
                        splice(d.stores[b], offset as int, unspecified(length as int)),
                    ),
                    ..d
                }
            } else {
                d
            }
        },
        Command::CopyBufferSubData {
            read_target,
            write_target,
            read_offset,
            write_offset,
            size,
        } => {
            if d.bindings.contains_key(read_target) && d.bindings.contains_key(write_target)
                && d.stores.contains_key(d.bindings[read_target]) && d.stores.contains_key(
                d.bindings[write_target],
            ) && d.bindings[read_target] != d.bindings[write_target] && 0 <= read_offset && 0
                <= write_offset && 0 <= size && read_offset + size
                <= d.stores[d.bindings[read_target]].len() && write_offset + size
                <= d.stores[d.bindings[write_target]].len() {
                let from = d.bindings[read_target];
                let to = d.bindings[write_target];
                Device {
                    stores: d.stores.insert(
                        to,
                        splice(
                            d.stores[to],
                            write_offset as int,
                            d.stores[from].subrange(read_offset as int, read_offset + size),
                        ),
                    ),
                    ..d
                }
            } else {
                d
            }
        },
        Command::BindVertexArray { array } => Device { vertex_array: array, ..d },
        Command::UseProgram { program } => Device { program, ..d },
        Command::BindFramebuffer { target, framebuffer } => Device { framebuffer, ..d },
        _ => d,
    }
}

/// The state after `c`.
pub open spec fn step(d: Device, c: CommandView) -> Device {
    let e = effect(d, c);
    Device { violations: d.violations + if violates(d, c) { 1nat } else { 0nat }, ..e }
}

/// The state after the commands of `cs`, first to last.
pub open spec fn run(d: Device, cs: Seq<CommandView>) -> Device
    decreases cs.len(),
{
    if cs.len() == 0 {
        d
    } else {
        step(run(d, cs.drop_last()), cs.last())
    }
}

/// Performing one more command is one more step.
pub proof fn run_push(d: Device, cs: Seq<CommandView>, c: CommandView)
    ensures
        run(d, cs.push(c)) == step(run(d, cs), c),
{
    assert(cs.push(c).drop_last() =~= cs);
}

/// Performing `a + b` is performing `a`, then `b`.
pub proof fn run_concat(d: Device, a: Seq<CommandView>, b: Seq<CommandView>)
    ensures
        run(d, a + b) == run(run(d, a), b),
    decreases b.len(),
{
    if b.len() == 0 {
        assert(a + b =~= a);
    } else {
        assert((a + b).drop_last() =~= a + b.drop_last());
        run_concat(d, a, b.drop_last());
    }
}

/// No command takes a violation back.
pub proof fn run_keeps_violations(d: Device, cs: Seq<CommandView>)
    ensures
        run(d, cs).violations >= d.violations,
    decreases cs.len(),
{
    if cs.len() > 0 {
        run_keeps_violations(d, cs.drop_last());
    }
}

} // verus!
