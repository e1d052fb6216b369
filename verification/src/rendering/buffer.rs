//! Storage buffers of a fixed size.

use vstd::prelude::*;
use vstd::slice::slice_to_vec;
use super::command::{Command, CommandView, ObjectKind};
use super::device::{effect, splice, splice_reads_back, unspecified, zeros, Device};
use super::gl;
use super::{Renderer, Status};

verus! {

/// The flags that the store of a buffer is made with.
pub open spec fn storage_flags() -> u32 {
    gl::DYNAMIC_STORAGE_BIT | gl::MAP_WRITE_BIT
}

/// The commands that give the buffer `buf` a store of `size` bytes, each 0.
pub open spec fn alloc_commands(buf: u32, size: int) -> Seq<CommandView> {
    seq![
        Command::BindBuffer { target: gl::SHADER_STORAGE_BUFFER, buffer: Some(buf) },
        Command::BufferStorage {
            target: gl::SHADER_STORAGE_BUFFER,
            size: size as i32,
            flags: storage_flags(),
        },
        Command::BufferSubData {
            target: gl::SHADER_STORAGE_BUFFER,
            offset: 0,
            data: zeros(size),
        },
        Command::BindBuffer { target: gl::SHADER_STORAGE_BUFFER, buffer: None },
    ]
}

/// The commands that write `data` into the buffer `buf` at the byte
/// `offset`.
pub open spec fn write_commands(buf: u32, offset: int, data: Seq<u8>) -> Seq<CommandView> {
    seq![
        Command::BindBuffer { target: gl::SHADER_STORAGE_BUFFER, buffer: Some(buf) },
        Command::BufferSubData {
            target: gl::SHADER_STORAGE_BUFFER,
            offset: offset as i32,
            data,
        },
        Command::BindBuffer { target: gl::SHADER_STORAGE_BUFFER, buffer: None },
    ]
}

/// The commands that mark the `size` bytes of the buffer `buf` as of no
/// account.
pub open spec fn invalidate_commands(buf: u32, size: int) -> Seq<CommandView> {
    seq![
        Command::BindBuffer { target: gl::SHADER_STORAGE_BUFFER, buffer: Some(buf) },
        Command::InvalidateBufferSubData {
            target: gl::SHADER_STORAGE_BUFFER,
            offset: 0,
            length: size as i32,
        },
        Command::BindBuffer { target: gl::SHADER_STORAGE_BUFFER, buffer: None },
    ]
}

/// `device` with the store of `buf` set to `bytes` and nothing bound for
/// storage.
pub open spec fn stored(device: Device, buf: u32, bytes: Seq<u8>) -> Device {
    Device {
        stores: device.stores.insert(buf, bytes),
        bindings: device.bindings.remove(gl::SHADER_STORAGE_BUFFER),
        ..device
    }
}

/// The command that binds the buffer `buf` for storage.
pub open spec fn bind_commands(buf: u32) -> Seq<CommandView> {
    seq![Command::BindBuffer { target: gl::SHADER_STORAGE_BUFFER, buffer: Some(buf) }]
}

/// The runs of bytes that `writes` holds, each with the element that it
/// starts at.
pub open spec fn runs(writes: Seq<(usize, Vec<u8>)>) -> Seq<(usize, Seq<u8>)> {
    writes.map_values(|w: (usize, Vec<u8>)| (w.0, w.1@))
}

/// The commands that write each of `writes` into the buffer that is bound
/// for storage.
pub open spec fn sub_data_commands(elem_size: usize, writes: Seq<(usize, Seq<u8>)>) -> Seq<
    CommandView,
> {
    writes.map_values(
        |w: (usize, Seq<u8>)|
            Command::BufferSubData {
                target: gl::SHADER_STORAGE_BUFFER,
                offset: (w.0 * elem_size) as i32,
                data: w.1,
            },
    )
}

/// `store` after each of `writes`, in their order.
pub open spec fn written(store: Seq<u8>, elem_size: usize, writes: Seq<(usize, Seq<u8>)>) -> Seq<
    u8,
>
    decreases writes.len(),
{
    if writes.len() == 0 {
        store
    } else {
        splice(
            written(store, elem_size, writes.drop_last()),
            writes.last().0 * elem_size,
            writes.last().1,
        )
    }
}

/// `count` bytes, each 0.
fn zero_bytes(count: usize) -> (v: Vec<u8>)
    ensures
        v@ == zeros(count as int),
{
    let mut v: Vec<u8> = Vec::new();
    let mut i: usize = 0;
    while i < count
        invariant
            i <= count,
            v@ == zeros(i as int),
        decreases count - i,
    {
        v.push(0u8);
        i += 1;
        assert(v@ =~= zeros(i as int));
    }
    v
}

/// A buffer of a fixed number of elements of a fixed size, addressed by
/// element and filled bytewise.
pub struct FixedSizeBuffer {
    buf: u32,
    elem_size: usize,
    size: usize,
    bound_loc: Option<u32>,
}

impl FixedSizeBuffer {
    #[verifier::type_invariant]
    spec fn within_reach(&self) -> bool {
        self.size <= i32::MAX
    }

    /// The name of the buffer.
    pub closed spec fn name(&self) -> u32 {
        self.buf
    }

    /// The size of one element, in bytes.
    pub closed spec fn elem_size(&self) -> usize {
        self.elem_size
    }

    /// The size of the buffer, in bytes.
    pub closed spec fn byte_size(&self) -> usize {
        self.size
    }

    /// The slot that the buffer is bound to, if it is bound.
    pub closed spec fn bound_loc(&self) -> Option<u32> {
        self.bound_loc
    }

    /// Whether `bytes` bytes at the element `offset` lie within the buffer.
    pub open spec fn fits(&self, offset: usize, bytes: nat) -> bool {
        offset * self.elem_size() + bytes <= self.byte_size()
    }

    /// Whether `device` holds a store of the buffer's size under its name.
    pub open spec fn held_by(&self, device: Device) -> bool {
        device.stores.contains_key(self.name()) && device.stores[self.name()].len()
            == self.byte_size()
    }

    /// The bytes of the buffer in `device`.
    pub open spec fn contents(&self, device: Device) -> Seq<u8> {
        device.stores[self.name()]
    }

    /// Give the buffer its store, every byte 0.
    fn alloc_buffer(&self, renderer: &mut Renderer)
        requires
            old(renderer).wf(),
            old(renderer).status().current,
        ensures
            final(renderer).after(
                old(renderer),
                old(renderer).status(),
                alloc_commands(self.name(), self.byte_size() as int),
            ),
            final(renderer).device() == stored(
                old(renderer).device(),
                self.name(),
                zeros(self.byte_size() as int),
            ),
    {
        proof {
            use_type_invariant(self);
        }
        let zero_data = zero_bytes(self.size);
        renderer.issue(
            Command::BindBuffer { target: gl::SHADER_STORAGE_BUFFER, buffer: Some(self.buf) },
        );
        renderer.issue(
            Command::BufferStorage {
                target: gl::SHADER_STORAGE_BUFFER,
                size: self.size as i32,
                flags: gl::DYNAMIC_STORAGE_BIT | gl::MAP_WRITE_BIT,
            },
        );
        renderer.issue(
            Command::BufferSubData { target: gl::SHADER_STORAGE_BUFFER, offset: 0, data: zero_data },
        );
        renderer.issue(Command::BindBuffer { target: gl::SHADER_STORAGE_BUFFER, buffer: None });
        proof {
            reveal(effect);
            let cs = alloc_commands(self.name(), self.byte_size() as int);
            assert(renderer.history() =~= old(renderer).history() + cs);
            assert(renderer.pending() =~= old(renderer).pending() + cs);
            let z = zeros(self.byte_size() as int);
            assert(splice(unspecified(self.byte_size() as int), 0, z) =~= z);
            let d = old(renderer).device();
            assert(renderer.device().stores =~= d.stores.insert(self.name(), z));
            assert(renderer.device().bindings =~= d.bindings.remove(gl::SHADER_STORAGE_BUFFER));
        }
    }

    /// A buffer of `count` elements of `elem_size` bytes each, every byte 0.
    pub fn new(renderer: &mut Renderer, elem_size: usize, count: usize) -> (buffer: FixedSizeBuffer)
        requires
            old(renderer).wf(),
            old(renderer).status().current,
            old(renderer).names_left() >= 1,
            elem_size * count <= i32::MAX,
        ensures
            buffer.name() == old(renderer).status().next_name,
            buffer.elem_size() == elem_size,
            buffer.byte_size() == elem_size * count,
            buffer.bound_loc() is None,
            final(renderer).after(
                old(renderer),
                Status { next_name: (buffer.name() + 1) as u32, ..old(renderer).status() },
                seq![Command::CreateObject { kind: ObjectKind::Buffer, name: buffer.name() }]
                    + alloc_commands(buffer.name(), elem_size * count),
            ),
            final(renderer).device() == stored(
                Device {
                    objects: old(renderer).device().objects.insert(
                        buffer.name(),
                        ObjectKind::Buffer,
                    ),
                    ..old(renderer).device()
                },
                buffer.name(),
                zeros(elem_size * count),
            ),
            buffer.held_by(final(renderer).device()),
    {
        let size: usize = elem_size * count;
        let buf = renderer.create(ObjectKind::Buffer);
        let buffer = FixedSizeBuffer { buf, elem_size, size, bound_loc: None };
        let ghost made = *renderer;
        buffer.alloc_buffer(renderer);
        proof {
            renderer.after_then(
                &made,
                old(renderer),
                made.status(),
                renderer.status(),
                seq![Command::CreateObject { kind: ObjectKind::Buffer, name: buf }],
                alloc_commands(buf, size as int),
            );
        }
        buffer
    }

    /// Whether `bytes` bytes at the element `offset` lie within the buffer.
    pub fn can_write(&self, offset: usize, bytes: usize) -> (b: bool)
        ensures
            b == self.fits(offset, bytes as nat),
    {
        match offset.checked_mul(self.elem_size) {
            Some(start) => match start.checked_add(bytes) {
                Some(end) => end <= self.size,
                None => false,
            },
            None => false,
        }
    }

    /// Whether `after` is `before` with `data` written at the element
    /// `offset`: the commands of the write are queued, and of a buffer that
    /// the device holds the bytes written are what a read-back of their
    /// range yields, and every other byte is what it was.
    pub open spec fn written_to(
        &self,
        before: &Renderer,
        after: &Renderer,
        offset: usize,
        data: Seq<u8>,
    ) -> bool {
        &&& after.after(
            before,
            before.status(),
            write_commands(self.name(), offset * self.elem_size(), data),
        )
        &&& self.held_by(before.device()) ==> {
            &&& after.device() == stored(
                before.device(),
                self.name(),
                splice(self.contents(before.device()), offset * self.elem_size(), data),
            )
            &&& self.held_by(after.device())
            &&& after.device().read_back(
                self.name(),
                offset * self.elem_size(),
                data.len() as int,
            ) == data
            &&& forall|i: int|
                0 <= i < self.byte_size() && !(offset * self.elem_size() <= i < offset
                    * self.elem_size() + data.len()) ==> self.contents(after.device())[i]
                    == self.contents(before.device())[i]
        }
    }

    /// Write `data` at the element `offset` if the bytes lie within the
    /// buffer, and say whether they do. Where they do not, nothing is
    /// written, not even the bytes that would fit, and nothing is queued:
    /// it is for the caller to stop.
    pub fn try_write(&self, renderer: &mut Renderer, offset: usize, data: &[u8]) -> (written: bool)
        requires
            old(renderer).wf(),
            old(renderer).status().current,
        ensures
            written == self.fits(offset, data@.len()),
            written ==> self.written_to(old(renderer), final(renderer), offset, data@),
            !written ==> {
                &&& final(renderer).after(old(renderer), old(renderer).status(), Seq::empty())
                &&& final(renderer).device() == old(renderer).device()
            },
    {
        if self.can_write(offset, data.len()) {
            self.write(renderer, offset, data);
            true
        } else {
            proof {
                renderer.after_nothing();
            }
            false
        }
    }

    /// Write `data` at the element `offset`. The bytes have to lie within
    /// the buffer.
    ///
    /// Of a buffer that the device holds, the bytes written are what a
    /// read-back of their range yields, and every other byte stays.
    pub fn write(&self, renderer: &mut Renderer, offset: usize, data: &[u8])
        requires
            old(renderer).wf(),
            old(renderer).status().current,
            self.fits(offset, data@.len()),
        ensures
            self.written_to(old(renderer), final(renderer), offset, data@),
    {
        proof {
            use_type_invariant(self);
        }
        let offset_raw: usize = offset * self.elem_size;
        renderer.issue(
            Command::BindBuffer { target: gl::SHADER_STORAGE_BUFFER, buffer: Some(self.buf) },
        );
        renderer.issue(
            Command::BufferSubData {
                target: gl::SHADER_STORAGE_BUFFER,
                offset: offset_raw as i32,
                data: slice_to_vec(data),
            },
        );
        renderer.issue(Command::BindBuffer { target: gl::SHADER_STORAGE_BUFFER, buffer: None });
        proof {
            reveal(effect);
            let cs = write_commands(self.name(), offset * self.elem_size(), data@);
            assert(renderer.history() =~= old(renderer).history() + cs);
            assert(renderer.pending() =~= old(renderer).pending() + cs);
            let d = old(renderer).device();
            if self.held_by(d) {
                let store = self.contents(d);
                splice_reads_back(store, offset_raw as int, data@);
                assert(renderer.device().stores =~= d.stores.insert(
                    self.name(),
                    splice(store, offset_raw as int, data@),
                ));
                assert(renderer.device().bindings =~= d.bindings.remove(
                    gl::SHADER_STORAGE_BUFFER,
                ));
            }
        }
    }

    /// Write each of `writes`, a run of bytes with the element that it
    /// starts at, in their order. Each has to lie within the buffer.
    ///
    /// Of a buffer that the device holds, the bytes are then what the writes
    /// make of them, one after the other.
    pub fn write_slice(&self, renderer: &mut Renderer, writes: &Vec<(usize, Vec<u8>)>)
        requires
            old(renderer).wf(),
            old(renderer).status().current,
            forall|i: int|
                0 <= i < writes@.len() ==> self.fits(
                    (#[trigger] writes@[i]).0,
                    writes@[i].1@.len(),
                ),
        ensures
            final(renderer).after(
                old(renderer),
                old(renderer).status(),
                bind_commands(self.name()) + sub_data_commands(
                    self.elem_size(),
                    runs(writes@),
                ) + seq![
                    Command::BindBuffer { target: gl::SHADER_STORAGE_BUFFER, buffer: None },
                ],
            ),
            self.held_by(old(renderer).device()) ==> {
                &&& final(renderer).device() == stored(
                    old(renderer).device(),
                    self.name(),
                    written(
                        self.contents(old(renderer).device()),
                        self.elem_size(),
                        runs(writes@),
                    ),
                )
                &&& self.held_by(final(renderer).device())
            },
    {
        proof {
            use_type_invariant(self);
        }
        let ghost d = old(renderer).device();
        let ghost all = runs(writes@);
        let ghost bind = bind_commands(self.name());
        renderer.issue(
            Command::BindBuffer { target: gl::SHADER_STORAGE_BUFFER, buffer: Some(self.buf) },
        );
        proof {
            reveal(effect);
            assert(sub_data_commands(self.elem_size(), all.take(0)) =~= Seq::empty());
            assert(bind + sub_data_commands(self.elem_size(), all.take(0)) =~= bind);
            if self.held_by(d) {
                assert(d.stores.insert(self.name(), self.contents(d)) =~= d.stores);
            }
        }
        let mut i: usize = 0;
        while i < writes.len()
            invariant
                i <= writes.len(),
                all == runs(writes@),
                d == old(renderer).device(),
                self.byte_size() <= i32::MAX,
                bind == bind_commands(self.name()),
                forall|k: int|
                    0 <= k < writes@.len() ==> self.fits(
                        (#[trigger] writes@[k]).0,
                        writes@[k].1@.len(),
                    ),
                renderer.after(
                    old(renderer),
                    old(renderer).status(),
                    bind + sub_data_commands(self.elem_size(), all.take(i as int)),
                ),
                renderer.status().current,
                renderer.device().bindings == d.bindings.insert(
                    gl::SHADER_STORAGE_BUFFER,
                    self.name(),
                ),
                self.held_by(d) ==> renderer.device() == (Device {
                    stores: d.stores.insert(
                        self.name(),
                        written(self.contents(d), self.elem_size(), all.take(i as int)),
                    ),
                    bindings: d.bindings.insert(gl::SHADER_STORAGE_BUFFER, self.name()),
                    ..d
                }),
                self.held_by(d) ==> written(
                    self.contents(d),
                    self.elem_size(),
                    all.take(i as int),
                ).len() == self.byte_size(),
            decreases writes.len() - i,
        {
            let offset_raw: usize = writes[i].0 * self.elem_size;
            let ghost before = *renderer;
            let ghost run = all[i as int];
            assert(run == (writes@[i as int].0, writes@[i as int].1@));
            renderer.issue(
                Command::BufferSubData {
                    target: gl::SHADER_STORAGE_BUFFER,
                    offset: offset_raw as i32,
                    data: slice_to_vec(writes[i].1.as_slice()),
                },
            );
            proof {
                reveal(effect);
                let sofar = sub_data_commands(self.elem_size(), all.take(i as int));
                let one = seq![
                    Command::BufferSubData {
                        target: gl::SHADER_STORAGE_BUFFER,
                        offset: offset_raw as i32,
                        data: run.1,
                    },
                ];
                assert(all.take(i + 1) =~= all.take(i as int).push(run));
                assert(sub_data_commands(self.elem_size(), all.take(i + 1)) =~= sofar + one);
                renderer.after_then(
                    &before,
                    old(renderer),
                    before.status(),
                    renderer.status(),
                    bind + sofar,
                    one,
                );
                assert(bind + sofar + one =~= bind + (sofar + one));
                assert(all.take(i + 1).drop_last() =~= all.take(i as int));
                if self.held_by(d) {
                    let store = written(self.contents(d), self.elem_size(), all.take(i as int));
                    splice_reads_back(store, offset_raw as int, run.1);
                    assert(renderer.device().stores =~= d.stores.insert(
                        self.name(),
                        written(self.contents(d), self.elem_size(), all.take(i + 1)),
                    ));
                }
            }
            i += 1;
        }
        let ghost before = *renderer;
        renderer.issue(Command::BindBuffer { target: gl::SHADER_STORAGE_BUFFER, buffer: None });
        proof {
            reveal(effect);
            assert(all.take(i as int) =~= all);
            renderer.after_then(
                &before,
                old(renderer),
                before.status(),
                renderer.status(),
                bind + sub_data_commands(self.elem_size(), all),
                seq![Command::BindBuffer { target: gl::SHADER_STORAGE_BUFFER, buffer: None }],
            );
            if self.held_by(d) {
                assert(renderer.device().bindings =~= d.bindings.remove(
                    gl::SHADER_STORAGE_BUFFER,
                ));
            }
        }
    }

    /// Set every byte of the buffer to 0.
    pub fn clear(&self, renderer: &mut Renderer)
        requires
            old(renderer).wf(),
            old(renderer).status().current,
        ensures
            final(renderer).after(
                old(renderer),
                old(renderer).status(),
                invalidate_commands(self.name(), self.byte_size() as int) + alloc_commands(
                    self.name(),
                    self.byte_size() as int,
                ),
            ),
            final(renderer).device() == stored(
                old(renderer).device(),
                self.name(),
                zeros(self.byte_size() as int),
            ),
            self.held_by(final(renderer).device()),
    {
        proof {
            use_type_invariant(self);
        }
        renderer.issue(
            Command::BindBuffer { target: gl::SHADER_STORAGE_BUFFER, buffer: Some(self.buf) },
        );
        renderer.issue(
            Command::InvalidateBufferSubData {
                target: gl::SHADER_STORAGE_BUFFER,
                offset: 0,
                length: self.size as i32,
            },
        );
        renderer.issue(Command::BindBuffer { target: gl::SHADER_STORAGE_BUFFER, buffer: None });
        let ghost mid = *renderer;
        proof {
            let cs = invalidate_commands(self.name(), self.byte_size() as int);
            assert(mid.history() =~= old(renderer).history() + cs);
            assert(mid.pending() =~= old(renderer).pending() + cs);
        }
        self.alloc_buffer(renderer);
        proof {
            reveal(effect);
            renderer.after_then(
                &mid,
                old(renderer),
                mid.status(),
                renderer.status(),
                invalidate_commands(self.name(), self.byte_size() as int),
                alloc_commands(self.name(), self.byte_size() as int),
            );
            let d = old(renderer).device();
            let z = zeros(self.byte_size() as int);
            assert(renderer.device().stores =~= d.stores.insert(self.name(), z));
            assert(renderer.device().bindings =~= d.bindings.remove(gl::SHADER_STORAGE_BUFFER));
        }
    }

    /// The size of the buffer, in bytes.
    pub fn size(&self) -> (size: usize)
        ensures
            size == self.byte_size(),
    {
        self.size
    }

    /// The name of the buffer.
    pub fn buf(&self) -> (buf: u32)
        ensures
            buf == self.name(),
    {
        self.buf
    }

    /// Bind the buffer to the storage slot `location`.
    pub fn bind(&mut self, renderer: &mut Renderer, location: u32)
        requires
            old(renderer).wf(),
            old(renderer).status().current,
        ensures
            final(self).name() == old(self).name(),
            final(self).elem_size() == old(self).elem_size(),
            final(self).byte_size() == old(self).byte_size(),
            final(self).bound_loc() == Some(location),
            final(renderer).after(
                old(renderer),
                old(renderer).status(),
                seq![
                    Command::BindBufferBase {
                        target: gl::SHADER_STORAGE_BUFFER,
                        index: location,
                        buffer: Some(old(self).name()),
                    },
                ],
            ),
            final(renderer).device() == (Device {
                bindings: old(renderer).device().bindings.insert(
                    gl::SHADER_STORAGE_BUFFER,
                    old(self).name(),
                ),
                ..old(renderer).device()
            }),
    {
        proof {
            reveal(effect);
        }
        proof {
            use_type_invariant(&*self);
        }
        self.bound_loc = Some(location);
        renderer.issue(
            Command::BindBufferBase {
                target: gl::SHADER_STORAGE_BUFFER,
                index: location,
                buffer: Some(self.buf),
            },
        );
    }

    /// Release the slot that the buffer is bound to. Of a buffer that is
    /// not bound nothing is done and nothing is reported.
    pub fn unbind(&mut self, renderer: &mut Renderer)
        requires
            old(renderer).wf(),
            old(renderer).status().current,
        ensures
            final(self).name() == old(self).name(),
            final(self).elem_size() == old(self).elem_size(),
            final(self).byte_size() == old(self).byte_size(),
            final(self).bound_loc() is None,
            final(renderer).after(
                old(renderer),
                old(renderer).status(),
                match old(self).bound_loc() {
                    Some(loc) => seq![
                        Command::BindBufferBase {
                            target: gl::SHADER_STORAGE_BUFFER,
                            index: loc,
                            buffer: None,
                        },
                    ],
                    None => Seq::empty(),
                },
            ),
            final(renderer).device() == (if old(self).bound_loc() is Some {
                Device {
                    bindings: old(renderer).device().bindings.remove(gl::SHADER_STORAGE_BUFFER),
                    ..old(renderer).device()
                }
            } else {
                old(renderer).device()
            }),
    {
        proof {
            reveal(effect);
            use_type_invariant(&*self);
        }
        if let Some(loc) = self.bound_loc {
            renderer.issue(
                Command::BindBufferBase {
                    target: gl::SHADER_STORAGE_BUFFER,
                    index: loc,
                    buffer: None,
                },
            );
            self.bound_loc = None;
        } else {
            proof {
                renderer.after_nothing();
            }
        }
    }

    /// Delete the buffer.
    pub fn destroy(self, renderer: &mut Renderer)
        requires
            old(renderer).wf(),
            old(renderer).status().current,
        ensures
            final(renderer).after(
                old(renderer),
                old(renderer).status(),
                seq![Command::DeleteObject { kind: ObjectKind::Buffer, name: self.name() }],
            ),
            final(renderer).device() == (Device {
                objects: old(renderer).device().objects.remove(self.name()),
                stores: old(renderer).device().stores.remove(self.name()),
                ..old(renderer).device()
            }),
    {
        renderer.delete(ObjectKind::Buffer, self.buf);
    }
}

} // verus!
