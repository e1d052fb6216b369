//! A counter that shaders increment and the host reads back.

use vstd::prelude::*;
use vstd::bytes::{
    lemma_auto_spec_u32_to_from_le_bytes, spec_u32_from_le_bytes, spec_u32_to_le_bytes,
    u32_from_le_bytes, u32_to_le_bytes,
};
use super::buffer::{alloc_commands, FixedSizeBuffer};
use super::command::{Command, CommandView, ObjectKind};
use super::device::{effect, splice, zeros, Device};
use super::gl;
use super::{Renderer, Status};

verus! {

/// The commands that set the counter in the buffer `buf` to the value whose
/// bytes are `bytes`.
pub open spec fn reset_commands(buf: u32, bytes: Seq<u8>) -> Seq<CommandView> {
    seq![
        Command::BindBuffer { target: gl::ATOMIC_COUNTER_BUFFER, buffer: Some(buf) },
        Command::BufferData { target: gl::ATOMIC_COUNTER_BUFFER, data: bytes, usage: gl::DYNAMIC_DRAW },
        Command::BindBuffer { target: gl::ATOMIC_COUNTER_BUFFER, buffer: None },
    ]
}

/// The commands that copy the counter in the buffer `buf` to the buffer
/// `read_buf` and read it back from there.
pub open spec fn read_commands(buf: u32, read_buf: u32) -> Seq<CommandView> {
    seq![
        Command::BindBuffer { target: gl::ATOMIC_COUNTER_BUFFER, buffer: Some(buf) },
        Command::BindBuffer { target: gl::SHADER_STORAGE_BUFFER, buffer: Some(read_buf) },
        Command::CopyBufferSubData {
            read_target: gl::ATOMIC_COUNTER_BUFFER,
            write_target: gl::SHADER_STORAGE_BUFFER,
            read_offset: 0,
            write_offset: 0,
            size: 4,
        },
        Command::ReadBufferSubData { target: gl::SHADER_STORAGE_BUFFER, offset: 0, length: 4 },
        Command::BindBuffer { target: gl::SHADER_STORAGE_BUFFER, buffer: None },
        Command::BindBuffer { target: gl::ATOMIC_COUNTER_BUFFER, buffer: None },
    ]
}

/// A counter of four bytes, and the buffer that it is copied to for
/// reading.
pub struct AtomicCounter {
    buf: u32,
    read_buf: FixedSizeBuffer,
    bound_loc: Option<u32>,
}

impl AtomicCounter {
    #[verifier::type_invariant]
    spec fn apart(&self) -> bool {
        self.read_buf.byte_size() == 4 && self.read_buf.name() != self.buf
    }

    /// The name of the buffer that holds the counter.
    pub closed spec fn name(&self) -> u32 {
        self.buf
    }

    /// The name of the buffer that the counter is read back through.
    pub closed spec fn read_name(&self) -> u32 {
        self.read_buf.name()
    }

    /// The slot that the counter is bound to, if it is bound.
    pub closed spec fn bound_loc(&self) -> Option<u32> {
        self.bound_loc
    }

    /// Whether `device` holds the four bytes of the counter and the four
    /// of the buffer that it is read back through.
    pub open spec fn held_by(&self, device: Device) -> bool {
        &&& device.stores.contains_key(self.name())
        &&& device.stores[self.name()].len() == 4
        &&& device.stores.contains_key(self.read_name())
        &&& device.stores[self.read_name()].len() == 4
    }

    /// The value of the counter in `device`.
    pub open spec fn value_in(&self, device: Device) -> u32 {
        spec_u32_from_le_bytes(device.stores[self.name()])
    }

    /// A counter at 0.
    pub fn new(renderer: &mut Renderer) -> (counter: AtomicCounter)
        requires
            old(renderer).wf(),
            old(renderer).status().current,
            old(renderer).names_left() >= 2,
        ensures
            counter.name() == old(renderer).status().next_name,
            counter.read_name() == counter.name() + 1,
            counter.bound_loc() is None,
            final(renderer).after(
                old(renderer),
                Status { next_name: (counter.name() + 2) as u32, ..old(renderer).status() },
                seq![Command::CreateObject { kind: ObjectKind::Buffer, name: counter.name() }]
                    + reset_commands(counter.name(), zeros(4)) + (seq![
                    Command::CreateObject { kind: ObjectKind::Buffer, name: counter.read_name() },
                ] + alloc_commands(counter.read_name(), 4)) + reset_commands(
                    counter.name(),
                    spec_u32_to_le_bytes(0),
                ),
            ),
            final(renderer).device() == (Device {
                objects: old(renderer).device().objects.insert(
                    counter.name(),
                    ObjectKind::Buffer,
                ).insert(counter.read_name(), ObjectKind::Buffer),
                stores: old(renderer).device().stores.insert(
                    counter.name(),
                    spec_u32_to_le_bytes(0),
                ).insert(counter.read_name(), zeros(4)),
                bindings: old(renderer).device().bindings.remove(
                    gl::ATOMIC_COUNTER_BUFFER,
                ).remove(gl::SHADER_STORAGE_BUFFER),
                ..old(renderer).device()
            }),
            counter.held_by(final(renderer).device()),
            counter.value_in(final(renderer).device()) == 0,
    {
        let buf = renderer.create(ObjectKind::Buffer);
        let ghost r1 = *renderer;
        let mut zero: Vec<u8> = Vec::new();
        zero.push(0u8);
        zero.push(0u8);
        zero.push(0u8);
        zero.push(0u8);
        assert(zero@ =~= zeros(4));
        set_bytes(renderer, buf, zero);
        let ghost r2 = *renderer;
        let read_buf = FixedSizeBuffer::new(renderer, 4, 1);
        let ghost r3 = *renderer;
        let counter = AtomicCounter { buf, read_buf, bound_loc: None };
        counter.reset(renderer, 0);
        proof {
            lemma_auto_spec_u32_to_from_le_bytes();
            let c0 = seq![Command::CreateObject { kind: ObjectKind::Buffer, name: buf }];
            let c1 = reset_commands(buf, zeros(4));
            let c2 = seq![
                Command::CreateObject { kind: ObjectKind::Buffer, name: counter.read_name() },
            ] + alloc_commands(counter.read_name(), 4);
            let c3 = reset_commands(buf, spec_u32_to_le_bytes(0));
            r2.after_then(&r1, old(renderer), r1.status(), r2.status(), c0, c1);
            r3.after_then(&r2, old(renderer), r2.status(), r3.status(), c0 + c1, c2);
            renderer.after_then(
                &r3,
                old(renderer),
                r3.status(),
                renderer.status(),
                c0 + c1 + c2,
                c3,
            );
            let d = old(renderer).device();
            assert(renderer.device().objects =~= d.objects.insert(buf, ObjectKind::Buffer).insert(
                counter.read_name(),
                ObjectKind::Buffer,
            ));
            assert(renderer.device().stores =~= d.stores.insert(buf, spec_u32_to_le_bytes(0)).insert(
                counter.read_name(),
                zeros(4),
            ));
            assert(renderer.device().bindings =~= d.bindings.remove(
                gl::ATOMIC_COUNTER_BUFFER,
            ).remove(gl::SHADER_STORAGE_BUFFER));
        }
        counter
    }

    /// Set the counter to `value`.
    pub fn reset(&self, renderer: &mut Renderer, value: u32)
        requires
            old(renderer).wf(),
            old(renderer).status().current,
        ensures
            final(renderer).after(
                old(renderer),
                old(renderer).status(),
                reset_commands(self.name(), spec_u32_to_le_bytes(value)),
            ),
            final(renderer).device() == (Device {
                stores: old(renderer).device().stores.insert(
                    self.name(),
                    spec_u32_to_le_bytes(value),
                ),
                bindings: old(renderer).device().bindings.remove(gl::ATOMIC_COUNTER_BUFFER),
                ..old(renderer).device()
            }),
            self.value_in(final(renderer).device()) == value,
    {
        let bytes = u32_to_le_bytes(value);
        set_bytes(renderer, self.buf, bytes);
        proof {
            lemma_auto_spec_u32_to_from_le_bytes();
        }
    }

    /// Copy the counter to where it can be read from and read it back. The
    /// four bytes that come back when the commands are performed are the
    /// counter's value, as `value_of` reads them.
    ///
    /// Of a counter that the device holds, the bytes to read are those of
    /// the counter.
    pub fn read(&self, renderer: &mut Renderer)
        requires
            old(renderer).wf(),
            old(renderer).status().current,
        ensures
            final(renderer).after(
                old(renderer),
                old(renderer).status(),
                read_commands(self.name(), self.read_name()),
            ),
            self.held_by(old(renderer).device()) ==> {
                &&& final(renderer).device() == (Device {
                    stores: old(renderer).device().stores.insert(
                        self.read_name(),
                        old(renderer).device().stores[self.name()],
                    ),
                    bindings: old(renderer).device().bindings.remove(
                        gl::SHADER_STORAGE_BUFFER,
                    ).remove(gl::ATOMIC_COUNTER_BUFFER),
                    ..old(renderer).device()
                })
                &&& spec_u32_from_le_bytes(
                    final(renderer).device().read_back(self.read_name(), 0, 4),
                ) == self.value_in(old(renderer).device())
            },
    {
        proof {
            use_type_invariant(self);
        }
        renderer.issue(
            Command::BindBuffer { target: gl::ATOMIC_COUNTER_BUFFER, buffer: Some(self.buf) },
        );
        renderer.issue(
            Command::BindBuffer {
                target: gl::SHADER_STORAGE_BUFFER,
                buffer: Some(self.read_buf.buf()),
            },
        );
        renderer.issue(
            Command::CopyBufferSubData {
                read_target: gl::ATOMIC_COUNTER_BUFFER,
                write_target: gl::SHADER_STORAGE_BUFFER,
                read_offset: 0,
                write_offset: 0,
                size: 4,
            },
        );
        renderer.issue(
            Command::ReadBufferSubData { target: gl::SHADER_STORAGE_BUFFER, offset: 0, length: 4 },
        );
        renderer.issue(Command::BindBuffer { target: gl::SHADER_STORAGE_BUFFER, buffer: None });
        renderer.issue(Command::BindBuffer { target: gl::ATOMIC_COUNTER_BUFFER, buffer: None });
        proof {
            reveal(effect);
            let cs = read_commands(self.name(), self.read_name());
            assert(renderer.history() =~= old(renderer).history() + cs);
            assert(renderer.pending() =~= old(renderer).pending() + cs);
            let d = old(renderer).device();
            if self.held_by(d) {
                let from = d.stores[self.name()];
                assert(from.subrange(0, 4) =~= from);
                assert(splice(d.stores[self.read_name()], 0, from) =~= from);
                assert(renderer.device().stores =~= d.stores.insert(self.read_name(), from));
                assert(renderer.device().bindings =~= d.bindings.remove(
                    gl::SHADER_STORAGE_BUFFER,
                ).remove(gl::ATOMIC_COUNTER_BUFFER));
            }
        }
    }

    /// The value that the four bytes of a read-back stand for.
    pub fn value_of(bytes: &[u8]) -> (value: u32)
        requires
            bytes@.len() == 4,
        ensures
            value == spec_u32_from_le_bytes(bytes@),
    {
        u32_from_le_bytes(bytes)
    }

    /// Bind the counter to the counter slot `location`.
    pub fn bind(&mut self, renderer: &mut Renderer, location: u32)
        requires
            old(renderer).wf(),
            old(renderer).status().current,
        ensures
            final(self).name() == old(self).name(),
            final(self).read_name() == old(self).read_name(),
            final(self).bound_loc() == Some(location),
            final(renderer).after(
                old(renderer),
                old(renderer).status(),
                seq![
                    Command::BindBufferBase {
                        target: gl::ATOMIC_COUNTER_BUFFER,
                        index: location,
                        buffer: Some(old(self).name()),
                    },
                ],
            ),
            final(renderer).device() == (Device {
                bindings: old(renderer).device().bindings.insert(
                    gl::ATOMIC_COUNTER_BUFFER,
                    old(self).name(),
                ),
                ..old(renderer).device()
            }),
    {
        proof {
            reveal(effect);
        }
        proof {
            use_type_invariant(&*self);
        }
        self.bound_loc = Some(location);
        renderer.issue(
            Command::BindBufferBase {
                target: gl::ATOMIC_COUNTER_BUFFER,
                index: location,
                buffer: Some(self.buf),
            },
        );
    }

    /// Release the slot that the counter is bound to. Of a counter that is
    /// not bound nothing is done and nothing is reported.
    pub fn unbind(&mut self, renderer: &mut Renderer)
        requires
            old(renderer).wf(),
            old(renderer).status().current,
        ensures
            final(self).name() == old(self).name(),
            final(self).read_name() == old(self).read_name(),
            final(self).bound_loc() is None,
            final(renderer).after(
                old(renderer),
                old(renderer).status(),
                match old(self).bound_loc() {
                    Some(loc) => seq![
                        Command::BindBufferBase {
                            target: gl::ATOMIC_COUNTER_BUFFER,
                            index: loc,
                            buffer: None,
                        },
                    ],
                    None => Seq::empty(),
                },
            ),
            final(renderer).device() == (if old(self).bound_loc() is Some {
                Device {
                    bindings: old(renderer).device().bindings.remove(gl::ATOMIC_COUNTER_BUFFER),
                    ..old(renderer).device()
                }
            } else {
                old(renderer).device()
            }),
    {
        proof {
            reveal(effect);
            use_type_invariant(&*self);
        }
        if let Some(loc) = self.bound_loc {
            renderer.issue(
                Command::BindBufferBase {
                    target: gl::ATOMIC_COUNTER_BUFFER,
                    index: loc,
                    buffer: None,
                },
            );
            self.bound_loc = None;
        } else {
            proof {
                renderer.after_nothing();
            }
        }
    }

    /// Delete the counter and the buffer that it is read back through.
    pub fn destroy(self, renderer: &mut Renderer)
        requires
            old(renderer).wf(),
            old(renderer).status().current,
        ensures
            final(renderer).after(
                old(renderer),
                old(renderer).status(),
                seq![
                    Command::DeleteObject { kind: ObjectKind::Buffer, name: self.name() },
                    Command::DeleteObject { kind: ObjectKind::Buffer, name: self.read_name() },
                ],
            ),
            final(renderer).device() == (Device {
                objects: old(renderer).device().objects.remove(self.name()).remove(
                    self.read_name(),
                ),
                stores: old(renderer).device().stores.remove(self.name()).remove(self.read_name()),
                ..old(renderer).device()
            }),
    {
        let ghost cs = seq![
            Command::DeleteObject { kind: ObjectKind::Buffer, name: self.name() },
            Command::DeleteObject { kind: ObjectKind::Buffer, name: self.read_name() },
        ];
        renderer.delete(ObjectKind::Buffer, self.buf);
        self.read_buf.destroy(renderer);
        proof {
            assert(renderer.history() =~= old(renderer).history() + cs);
            assert(renderer.pending() =~= old(renderer).pending() + cs);
        }
    }
}

/// Give the buffer `buf` a store of `bytes`, through the counter target.
fn set_bytes(renderer: &mut Renderer, buf: u32, bytes: Vec<u8>)
    requires
        old(renderer).wf(),
        old(renderer).status().current,
    ensures
        final(renderer).after(old(renderer), old(renderer).status(), reset_commands(buf, bytes@)),
        final(renderer).device() == (Device {
            stores: old(renderer).device().stores.insert(buf, bytes@),
            bindings: old(renderer).device().bindings.remove(gl::ATOMIC_COUNTER_BUFFER),
            ..old(renderer).device()
        }),
{
    let ghost data = bytes@;
    renderer.issue(Command::BindBuffer { target: gl::ATOMIC_COUNTER_BUFFER, buffer: Some(buf) });
    renderer.issue(
        Command::BufferData { target: gl::ATOMIC_COUNTER_BUFFER, data: bytes, usage: gl::DYNAMIC_DRAW },
    );
    renderer.issue(Command::BindBuffer { target: gl::ATOMIC_COUNTER_BUFFER, buffer: None });
    proof {
        reveal(effect);
        assert(renderer.history() =~= old(renderer).history() + reset_commands(buf, data));
        assert(renderer.pending() =~= old(renderer).pending() + reset_commands(buf, data));
        let d = old(renderer).device();
        assert(renderer.device().stores =~= d.stores.insert(buf, data));
        assert(renderer.device().bindings =~= d.bindings.remove(gl::ATOMIC_COUNTER_BUFFER));
    }
}

} // verus!
