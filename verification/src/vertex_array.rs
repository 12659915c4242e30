use crate::backend::{BufferTarget, Call, CommandQueue, CommandView};
use crate::buffer::{ArrayBuffer, ElementBuffer};
use crate::error::GraphicsError;
use crate::vertex::{AttributePointer, AttributePointerList, Vertex, VERTEX_SIZE};
use vstd::prelude::*;

verus! {

/// The number of buffer slots of a vertex array.
pub const SLOT_COUNT: usize = 100;

/// The number of handles that a vertex array takes: its own, and two for
/// each slot.
pub const HANDLE_COUNT: u32 = 201;

/// The calls that describe the first `n` attributes of a layout to the
/// backend: each attribute is switched on and then located in the record.
pub open spec fn attribute_commands(
    attributes: Seq<AttributePointer>,
    stride: usize,
    n: int,
) -> Seq<CommandView>
    decreases n,
{
    if n <= 0 || n > attributes.len() {
        Seq::empty()
    } else {
        attribute_commands(attributes, stride, n - 1).push(
            CommandView::Call(Call::EnableVertexAttribArray { index: attributes[n - 1].index }),
        ).push(
            CommandView::Call(Call::VertexAttribPointer {
                index: attributes[n - 1].index,
                components: attributes[n - 1].components,
                attrib_type: attributes[n - 1].attrib_type,
                normalized: attributes[n - 1].normalized,
                stride,
                offset: attributes[n - 1].offset,
            }),
        )
    }
}

/// The handle of the index buffer of `slot`, in a vertex array that was
/// created under the handle `array`.
pub open spec fn index_buffer_handle(array: u32, slot: int) -> int {
    array + 1 + 2 * slot
}

/// The handle of the vertex buffer of `slot`, in a vertex array that was
/// created under the handle `array`.
pub open spec fn vertex_buffer_handle(array: u32, slot: int) -> int {
    array + 2 + 2 * slot
}

/// The calls that create the two buffers of `slot` and describe the layout
/// for its vertex buffer.
pub open spec fn slot_creation_commands(
    array: u32,
    slot: int,
    attributes: Seq<AttributePointer>,
    stride: usize,
) -> Seq<CommandView> {
    seq![
        CommandView::Call(Call::GenBuffer { buffer: index_buffer_handle(array, slot) as u32 }),
        CommandView::Call(Call::GenBuffer { buffer: vertex_buffer_handle(array, slot) as u32 }),
        CommandView::Call(Call::BindBuffer {
            target: BufferTarget::Array,
            buffer: vertex_buffer_handle(array, slot) as u32,
        }),
    ] + attribute_commands(attributes, stride, attributes.len() as int) + seq![
        CommandView::Call(Call::BindBuffer { target: BufferTarget::Array, buffer: 0 }),
    ]
}

/// The calls that create the first `n` slots, one slot after the other.
pub open spec fn slots_creation_commands(
    array: u32,
    n: int,
    attributes: Seq<AttributePointer>,
    stride: usize,
) -> Seq<CommandView>
    decreases n,
{
    if n <= 0 {
        Seq::empty()
    } else {
        slots_creation_commands(array, n - 1, attributes, stride) + slot_creation_commands(
            array,
            n - 1,
            attributes,
            stride,
        )
    }
}

/// The calls that create a vertex array under the handle `array`: the array
/// is created and bound, its slots are created, and everything is unbound.
pub open spec fn creation_commands(
    array: u32,
    attributes: Seq<AttributePointer>,
    stride: usize,
) -> Seq<CommandView> {
    seq![CommandView::Call(Call::GenVertexArray { array }), CommandView::Call(Call::BindVertexArray { array })]
        + slots_creation_commands(array, SLOT_COUNT as int, attributes, stride) + seq![
        CommandView::Call(Call::BindBuffer { target: BufferTarget::Array, buffer: 0 }),
        CommandView::Call(Call::BindVertexArray { array: 0 }),
    ]
}

/// Records the calls that describe all attributes of `attributes`.
fn describe_attributes(attributes: &AttributePointerList, gl: &mut CommandQueue)
    ensures
        final(gl).extends(
            *old(gl),
            attribute_commands(attributes@, attributes.spec_stride(), attributes@.len() as int),
            0,
        ),
{
    let stride = attributes.get_stride();
    let mut i: usize = 0;
    assert(gl@ =~= old(gl)@ + attribute_commands(attributes@, stride, 0));
    while i < attributes.len()
        invariant
            i <= attributes@.len(),
            stride == attributes.spec_stride(),
            gl.extends(*old(gl), attribute_commands(attributes@, stride, i as int), 0),
        decreases attributes@.len() - i,
    {
        let pointer = attributes.index(i);
        gl.call(Call::EnableVertexAttribArray { index: pointer.get_index() });
        gl.call(
            Call::VertexAttribPointer {
                index: pointer.get_index(),
                components: pointer.get_components(),
                attrib_type: pointer.get_type(),
                normalized: pointer.get_normalized(),
                stride,
                offset: pointer.get_offset(),
            },
        );
        i += 1;
        assert(gl@ =~= old(gl)@ + attribute_commands(attributes@, stride, i as int));
    }
}

/// A pool of buffer slots that share one vertex array object and one
/// attribute layout. Each slot is a vertex buffer paired with an index
/// buffer, and is filled and drawn on its own.
pub struct VertexArray {
    id: u32,
    vbos: Vec<ArrayBuffer>,
    ebos: Vec<ElementBuffer>,
    attributes: AttributePointerList,
}

impl VertexArray {
    /// The handle of the vertex array object.
    pub closed spec fn spec_id(&self) -> u32 {
        self.id
    }

    /// The vertex buffers of the slots, by slot.
    pub closed spec fn vertex_buffers(&self) -> Seq<ArrayBuffer> {
        self.vbos@
    }

    /// The index buffers of the slots, by slot.
    pub closed spec fn index_buffers(&self) -> Seq<ElementBuffer> {
        self.ebos@
    }

    /// The attribute layout that all slots share.
    pub closed spec fn layout(&self) -> AttributePointerList {
        self.attributes
    }

    /// The pool has its hundred slots, and the layout of the vertex record.
    pub open spec fn wf(&self) -> bool {
        &&& self.vertex_buffers().len() == SLOT_COUNT
        &&& self.index_buffers().len() == SLOT_COUNT
        &&& self.layout().wf()
        &&& self.layout()@ == Vertex::layout()
        &&& self.layout().spec_stride() == VERTEX_SIZE
    }

    /// The number of vertices that `slot` was last filled with.
    pub open spec fn vertex_count(&self, slot: int) -> nat {
        self.vertex_buffers()[slot].spec_size() as nat
    }

    /// The number of indices that `slot` was last filled with.
    pub open spec fn index_count(&self, slot: int) -> nat {
        self.index_buffers()[slot].spec_size() as nat
    }

    /// The handles of the vertex array and of its buffers are those of
    /// `other`.
    pub open spec fn same_handles(&self, other: VertexArray) -> bool {
        &&& self.spec_id() == other.spec_id()
        &&& self.layout() == other.layout()
        &&& self.vertex_buffers().len() == other.vertex_buffers().len()
        &&& self.index_buffers().len() == other.index_buffers().len()
        &&& forall|slot: int|
            0 <= slot < self.vertex_buffers().len() ==> #[trigger] self.vertex_buffers()[slot].spec_id()
                == other.vertex_buffers()[slot].spec_id()
        &&& forall|slot: int|
            0 <= slot < self.index_buffers().len() ==> #[trigger] self.index_buffers()[slot].spec_id()
                == other.index_buffers()[slot].spec_id()
    }

    /// All slots but `slot` hold as many vertices and indices as they do in
    /// `other`.
    pub open spec fn same_counts_except(&self, other: VertexArray, slot: int) -> bool {
        &&& forall|s: int|
            0 <= s < SLOT_COUNT && s != slot ==> #[trigger] self.vertex_count(s) == other.vertex_count(s)
        &&& forall|s: int|
            0 <= s < SLOT_COUNT && s != slot ==> #[trigger] self.index_count(s) == other.index_count(s)
    }

    /// The calls that bind `slot` for drawing: the vertex array, the vertex
    /// buffer with the layout, and the index buffer where it holds indices.
    pub open spec fn bind_commands(&self, slot: int) -> Seq<CommandView> {
        seq![
            CommandView::Call(Call::BindVertexArray { array: self.spec_id() }),
            CommandView::Call(Call::BindBuffer {
                target: BufferTarget::Array,
                buffer: self.vertex_buffers()[slot].spec_id(),
            }),
        ] + attribute_commands(
            self.layout()@,
            self.layout().spec_stride(),
            self.layout()@.len() as int,
        ) + if self.index_count(slot) > 0 {
            seq![
                CommandView::Call(Call::BindBuffer {
                    target: BufferTarget::ElementArray,
                    buffer: self.index_buffers()[slot].spec_id(),
                }),
            ]
        } else {
            Seq::empty()
        }
    }

    /// The call that draws `slot`: by its indices where it holds any, and
    /// else its vertices as points.
    pub open spec fn draw_command(&self, slot: int) -> CommandView {
        if self.index_count(slot) > 0 {
            CommandView::Call(Call::DrawElements { count: self.index_buffers()[slot].spec_size() })
        } else {
            CommandView::Call(Call::DrawArrays { count: self.vertex_buffers()[slot].spec_size() })
        }
    }

    /// Creates the vertex array with its hundred empty slots. The handles
    /// are taken in order: that of the vertex array first, then for each slot
    /// that of its index buffer and that of its vertex buffer.
    pub fn new(gl: &mut CommandQueue) -> (result: Result<VertexArray, GraphicsError>)
        ensures
            old(gl).handles_left() >= 1 + 2 * SLOT_COUNT ==> result is Ok,
            result matches Ok(array) ==> {
                &&& array.wf()
                &&& array.spec_id() == old(gl).next_handle()
                &&& forall|slot: int|
                    0 <= slot < SLOT_COUNT ==> {
                        &&& #[trigger] array.vertex_count(slot) == 0
                        &&& array.vertex_buffers()[slot].spec_id() == vertex_buffer_handle(
                            array.spec_id(),
                            slot,
                        )
                    }
                &&& forall|slot: int|
                    0 <= slot < SLOT_COUNT ==> {
                        &&& #[trigger] array.index_count(slot) == 0
                        &&& array.index_buffers()[slot].spec_id() == index_buffer_handle(
                            array.spec_id(),
                            slot,
                        )
                    }
                &&& final(gl).extends(
                    *old(gl),
                    creation_commands(array.spec_id(), Vertex::layout(), VERTEX_SIZE),
                    1 + 2 * SLOT_COUNT as nat,
                )
            },
            result matches Err(error) ==> error == GraphicsError::OutOfHandles && final(gl).unchanged(
                *old(gl),
            ),
    {
        if gl.free_handles() < HANDLE_COUNT {
            return Err(GraphicsError::OutOfHandles);
        }
        let attributes = Vertex::attribute_pointers();
        let id = match gl.reserve_handles(1) {
            Some(id) => id,
            None => { return Err(GraphicsError::OutOfHandles); },
        };
        gl.call(Call::GenVertexArray { array: id });
        gl.call(Call::BindVertexArray { array: id });
        let ghost head = seq![
            CommandView::Call(Call::GenVertexArray { array: id }),
            CommandView::Call(Call::BindVertexArray { array: id }),
        ];
        let mut vbos: Vec<ArrayBuffer> = Vec::new();
        let mut ebos: Vec<ElementBuffer> = Vec::new();
        let mut slot: usize = 0;
        assert(gl@ =~= old(gl)@ + (head + slots_creation_commands(
            id,
            0,
            attributes@,
            attributes.spec_stride(),
        )));
        while slot < SLOT_COUNT
            invariant
                slot <= SLOT_COUNT,
                id == old(gl).next_handle(),
                id + 1 + 2 * SLOT_COUNT <= u32::MAX,
                head == seq![
                    CommandView::Call(Call::GenVertexArray { array: id }),
                    CommandView::Call(Call::BindVertexArray { array: id }),
                ],
                vbos@.len() == slot,
                ebos@.len() == slot,
                forall|s: int|
                    0 <= s < slot ==> (#[trigger] vbos@[s]).spec_size() == 0 && vbos@[s].spec_id()
                        == vertex_buffer_handle(id, s),
                forall|s: int|
                    0 <= s < slot ==> (#[trigger] ebos@[s]).spec_size() == 0 && ebos@[s].spec_id()
                        == index_buffer_handle(id, s),
                gl.extends(
                    *old(gl),
                    head + slots_creation_commands(
                        id,
                        slot as int,
                        attributes@,
                        attributes.spec_stride(),
                    ),
                    1 + 2 * slot as nat,
                ),
            decreases SLOT_COUNT - slot,
        {
            let ghost before = gl@;
            let ebo = match ElementBuffer::new(gl) {
                Ok(ebo) => ebo,
                Err(error) => { return Err(error); },
            };
            let vbo = match ArrayBuffer::new(gl) {
                Ok(vbo) => vbo,
                Err(error) => { return Err(error); },
            };
            vbo.bind(gl);
            describe_attributes(&attributes, gl);
            gl.call(Call::BindBuffer { target: BufferTarget::Array, buffer: 0 });
            proof {
                assert(gl@ =~= before + slot_creation_commands(
                    id,
                    slot as int,
                    attributes@,
                    attributes.spec_stride(),
                ));
                assert(gl@ =~= old(gl)@ + (head + slots_creation_commands(
                    id,
                    slot + 1,
                    attributes@,
                    attributes.spec_stride(),
                )));
            }
            vbos.push(vbo);
            ebos.push(ebo);
            slot += 1;
        }
        gl.call(Call::BindBuffer { target: BufferTarget::Array, buffer: 0 });
        gl.call(Call::BindVertexArray { array: 0 });
        assert(gl@ =~= old(gl)@ + creation_commands(id, attributes@, attributes.spec_stride()));
        Ok(VertexArray { id, vbos, ebos, attributes })
    }

    /// Fills the vertex buffer of the slot `target` with the given data,
    /// which replaces what the buffer held.
    pub fn fill_vbo(&mut self, target: usize, data: Vec<Vertex>, gl: &mut CommandQueue) -> (result:
        Result<(), GraphicsError>)
        requires
            old(self).wf(),
        ensures
            final(self).wf(),
            final(self).same_handles(*old(self)),
            target < SLOT_COUNT ==> {
                &&& result is Ok
                &&& final(self).vertex_count(target as int) == data@.len()
                &&& final(self).index_count(target as int) == old(self).index_count(target as int)
                &&& final(self).same_counts_except(*old(self), target as int)
                &&& final(gl).extends(
                    *old(gl),
                    ArrayBuffer::fill_commands(
                        old(self).vertex_buffers()[target as int].spec_id(),
                        data@,
                    ),
                    0,
                )
            },
            target >= SLOT_COUNT ==> {
                &&& result == Err::<(), GraphicsError>(
                    GraphicsError::SlotOutOfRange { slot: target, capacity: SLOT_COUNT },
                )
                &&& *final(self) == *old(self)
                &&& final(gl).unchanged(*old(gl))
            },
    {
        if target >= self.vbos.len() {
            return Err(GraphicsError::SlotOutOfRange { slot: target, capacity: SLOT_COUNT });
        }
        self.vbos[target].fill(data, gl);
        Ok(())
    }

    /// Fills the index buffer of the slot `target` with the given data,
    /// which replaces what the buffer held.
    pub fn fill_ebo(&mut self, target: usize, data: Vec<u32>, gl: &mut CommandQueue) -> (result:
        Result<(), GraphicsError>)
        requires
            old(self).wf(),
        ensures
            final(self).wf(),
            final(self).same_handles(*old(self)),
            target < SLOT_COUNT ==> {
                &&& result is Ok
                &&& final(self).index_count(target as int) == data@.len()
                &&& final(self).vertex_count(target as int) == old(self).vertex_count(target as int)
                &&& final(self).same_counts_except(*old(self), target as int)
                &&& final(gl).extends(
                    *old(gl),
                    ElementBuffer::fill_commands(
                        old(self).index_buffers()[target as int].spec_id(),
                        data@,
                    ),
                    0,
                )
            },
            target >= SLOT_COUNT ==> {
                &&& result == Err::<(), GraphicsError>(
                    GraphicsError::SlotOutOfRange { slot: target, capacity: SLOT_COUNT },
                )
                &&& *final(self) == *old(self)
                &&& final(gl).unchanged(*old(gl))
            },
    {
        if target >= self.ebos.len() {
            return Err(GraphicsError::SlotOutOfRange { slot: target, capacity: SLOT_COUNT });
        }
        self.ebos[target].fill(data, gl);
        Ok(())
    }

    /// Clears the vertex buffer of the slot `target`: fills it with no
    /// vertices.
    pub fn clear(&mut self, target: usize, gl: &mut CommandQueue) -> (result: Result<
        (),
        GraphicsError,
    >)
        requires
            old(self).wf(),
        ensures
            final(self).wf(),
            final(self).same_handles(*old(self)),
            target < SLOT_COUNT ==> {
                &&& result is Ok
                &&& final(self).vertex_count(target as int) == 0
                &&& final(self).index_count(target as int) == old(self).index_count(target as int)
                &&& final(self).same_counts_except(*old(self), target as int)
                &&& final(gl).extends(
                    *old(gl),
                    ArrayBuffer::fill_commands(
                        old(self).vertex_buffers()[target as int].spec_id(),
                        Seq::empty(),
                    ),
                    0,
                )
            },
            target >= SLOT_COUNT ==> {
                &&& result == Err::<(), GraphicsError>(
                    GraphicsError::SlotOutOfRange { slot: target, capacity: SLOT_COUNT },
                )
                &&& *final(self) == *old(self)
                &&& final(gl).unchanged(*old(gl))
            },
    {
        let vert: Vec<Vertex> = Vec::new();
        self.fill_vbo(target, vert, gl)
    }

    /// Binds the slot `target` for drawing.
    pub fn bind(&self, target: usize, gl: &mut CommandQueue) -> (result: Result<(), GraphicsError>)
        requires
            self.wf(),
        ensures
            target < SLOT_COUNT ==> result is Ok && final(gl).extends(
                *old(gl),
                self.bind_commands(target as int),
                0,
            ),
            target >= SLOT_COUNT ==> result == Err::<(), GraphicsError>(
                GraphicsError::SlotOutOfRange { slot: target, capacity: SLOT_COUNT },
            ) && final(gl).unchanged(*old(gl)),
    {
        if target >= self.vbos.len() {
            return Err(GraphicsError::SlotOutOfRange { slot: target, capacity: SLOT_COUNT });
        }
        gl.call(Call::BindVertexArray { array: self.id });
        self.vbos[target].bind(gl);
        describe_attributes(&self.attributes, gl);
        if self.ebos[target].get_size() > 0 {
            self.ebos[target].bind(gl);
        }
        assert(gl@ =~= old(gl)@ + self.bind_commands(target as int));
        Ok(())
    }

    /// Binds the slot `target` and draws it: by its indices, as triangles,
    /// where it holds any, and else its vertices as points. A slot that holds
    /// neither is not drawn.
    pub fn draw(&self, target: usize, gl: &mut CommandQueue) -> (result: Result<(), GraphicsError>)
        requires
            self.wf(),
        ensures
            result == self.draw_result(target),
            result is Ok ==> final(gl).extends(
                *old(gl),
                self.bind_commands(target as int).push(self.draw_command(target as int)),
                0,
            ),
            result is Err ==> final(gl).unchanged(*old(gl)),
    {
        if target >= self.vbos.len() {
            return Err(GraphicsError::SlotOutOfRange { slot: target, capacity: SLOT_COUNT });
        }
        let indices = self.ebos[target].get_size();
        let vertices = self.vbos[target].get_size();
        if indices == 0 && vertices == 0 {
            return Err(GraphicsError::EmptyDraw { slot: target });
        }
        match self.bind(target, gl) {
            Ok(()) => {},
            Err(error) => { return Err(error); },
        }
        if indices > 0 {
            gl.call(Call::DrawElements { count: indices });
        } else {
            gl.call(Call::DrawArrays { count: vertices });
        }
        assert(gl@ =~= old(gl)@ + self.bind_commands(target as int).push(
            self.draw_command(target as int),
        ));
        Ok(())
    }

    /// What drawing the slot `target` answers: an error for a slot that the
    /// pool does not have, and for one that holds no geometry.
    pub open spec fn draw_result(&self, target: usize) -> Result<(), GraphicsError> {
        if target >= SLOT_COUNT {
            Err(GraphicsError::SlotOutOfRange { slot: target, capacity: SLOT_COUNT })
        } else if self.vertex_count(target as int) == 0 && self.index_count(target as int) == 0 {
            Err(GraphicsError::EmptyDraw { slot: target })
        } else {
            Ok(())
        }
    }

    /// The number of vertices that the slot `target` holds.
    pub fn get_size(&self, target: usize) -> (result: Result<usize, GraphicsError>)
        requires
            self.wf(),
        ensures
            target < SLOT_COUNT ==> (result matches Ok(count) && count == self.vertex_count(
                target as int,
            )),
            target >= SLOT_COUNT ==> result == Err::<usize, GraphicsError>(
                GraphicsError::SlotOutOfRange { slot: target, capacity: SLOT_COUNT },
            ),
    {
        if target >= self.vbos.len() {
            return Err(GraphicsError::SlotOutOfRange { slot: target, capacity: SLOT_COUNT });
        }
        Ok(self.vbos[target].get_size())
    }

    /// The number of slots.
    pub fn get_vbo_count(&self) -> (count: usize)
        requires
            self.wf(),
        ensures
            count == SLOT_COUNT,
    {
        self.vbos.len()
    }

    /// The calls that delete the first `n` vertex buffers.
    pub open spec fn vertex_buffer_deletions(&self, n: int) -> Seq<CommandView>
        decreases n,
    {
        if n <= 0 || n > self.vertex_buffers().len() {
            Seq::empty()
        } else {
            self.vertex_buffer_deletions(n - 1).push(
                CommandView::Call(
                    Call::DeleteBuffer { buffer: self.vertex_buffers()[n - 1].spec_id() },
                ),
            )
        }
    }

    /// The calls that delete the first `n` index buffers.
    pub open spec fn index_buffer_deletions(&self, n: int) -> Seq<CommandView>
        decreases n,
    {
        if n <= 0 || n > self.index_buffers().len() {
            Seq::empty()
        } else {
            self.index_buffer_deletions(n - 1).push(
                CommandView::Call(
                    Call::DeleteBuffer { buffer: self.index_buffers()[n - 1].spec_id() },
                ),
            )
        }
    }

    /// The calls that give the pool up: the vertex array is deleted, then
    /// the vertex buffers, then the index buffers, each kind slot by slot.
    pub open spec fn deletion_commands(&self) -> Seq<CommandView> {
        seq![CommandView::Call(Call::DeleteVertexArray { array: self.spec_id() })]
            + self.vertex_buffer_deletions(self.vertex_buffers().len() as int)
            + self.index_buffer_deletions(self.index_buffers().len() as int)
    }

    /// Gives the vertex array object and the buffers of its slots up.
    pub fn delete(self, gl: &mut CommandQueue)
        ensures
            final(gl).extends(*old(gl), self.deletion_commands(), 0),
    {
        gl.call(Call::DeleteVertexArray { array: self.id });
        let ghost head = seq![CommandView::Call(Call::DeleteVertexArray { array: self.id })];
        let mut i: usize = 0;
        assert(gl@ =~= old(gl)@ + (head + self.vertex_buffer_deletions(0)));
        while i < self.vbos.len()
            invariant
                i <= self.vbos@.len(),
                head == seq![CommandView::Call(Call::DeleteVertexArray { array: self.id })],
                gl.extends(*old(gl), head + self.vertex_buffer_deletions(i as int), 0),
            decreases self.vbos@.len() - i,
        {
            gl.call(Call::DeleteBuffer { buffer: self.vbos[i].get_id() });
            i += 1;
            assert(gl@ =~= old(gl)@ + (head + self.vertex_buffer_deletions(i as int)));
        }
        let ghost first = head + self.vertex_buffer_deletions(self.vbos@.len() as int);
        let mut j: usize = 0;
        assert(gl@ =~= old(gl)@ + (first + self.index_buffer_deletions(0)));
        while j < self.ebos.len()
            invariant
                j <= self.ebos@.len(),
                first == seq![CommandView::Call(Call::DeleteVertexArray { array: self.id })]
                    + self.vertex_buffer_deletions(self.vbos@.len() as int),
                gl.extends(*old(gl), first + self.index_buffer_deletions(j as int), 0),
            decreases self.ebos@.len() - j,
        {
            gl.call(Call::DeleteBuffer { buffer: self.ebos[j].get_id() });
            j += 1;
            assert(gl@ =~= old(gl)@ + (first + self.index_buffer_deletions(j as int)));
        }
        assert(gl@ =~= old(gl)@ + self.deletion_commands());
    }
}

} // verus!
