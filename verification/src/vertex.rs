use crate::error::LayoutError;
use vstd::prelude::*;

verus! {

/// A 32-bit floating point number, carried by its IEEE 754 bit pattern.
///
/// The layer never computes with such a number: it only hands it through to
/// the backend, so the bits are all it needs.
#[derive(Clone, Copy, Debug, Default, PartialEq, Eq, Structural)]
pub struct FloatBits(pub u32);

/// A vertex with a position in the plane, a colour and a texture coordinate.
#[derive(Clone, Copy, Debug, Default, PartialEq, Eq, Structural)]
pub struct V2C3UV {
    pub x: FloatBits,
    pub y: FloatBits,
    pub r: FloatBits,
    pub g: FloatBits,
    pub b: FloatBits,
    pub u: FloatBits,
    pub v: FloatBits,
}

/// The vertex used basically everywhere in the program.
pub type Vertex = V2C3UV;

impl V2C3UV {
    /// The attributes of this vertex record: two floats of position at
    /// byte 0, three of colour at byte 8 and two of texture coordinate at
    /// byte 20.
    pub open spec fn layout() -> Seq<AttributePointer> {
        seq![
            AttributePointer {
                index: 0,
                components: 2,
                attrib_type: AttributeType::Float,
                normalized: false,
                offset: 0,
            },
            AttributePointer {
                index: 1,
                components: 3,
                attrib_type: AttributeType::Float,
                normalized: false,
                offset: 8,
            },
            AttributePointer {
                index: 2,
                components: 2,
                attrib_type: AttributeType::Float,
                normalized: false,
                offset: 20,
            },
        ]
    }

    /// The attributes of this vertex record cover its 28 bytes without a gap.
    pub proof fn lemma_layout_is_valid()
        ensures
            is_layout(Self::layout(), VERTEX_SIZE as nat),
    {
        reveal_with_fuel(bytes_before, 4);
    }

    /// The checked attribute layout of this vertex record.
    pub fn attribute_pointers() -> (list: AttributePointerList)
        ensures
            list@ == Self::layout(),
            list.spec_stride() == VERTEX_SIZE,
            list.wf(),
    {
        let mut pointers: Vec<AttributePointer> = Vec::new();
        pointers.push(AttributePointer::new(0, 2, AttributeType::Float, false, 0));
        pointers.push(AttributePointer::new(1, 3, AttributeType::Float, false, 8));
        pointers.push(AttributePointer::new(2, 2, AttributeType::Float, false, 20));
        proof {
            assert(pointers@ =~= Self::layout());
            Self::lemma_layout_is_valid();
        }
        match AttributePointerList::new(pointers, VERTEX_SIZE) {
            Ok(list) => list,
            Err(_) => vstd::pervasive::unreached(),
        }
    }
}

/// The number of bytes that one vertex record takes in a vertex buffer.
pub const VERTEX_SIZE: usize = 28;

/// The numeric type of the components of a vertex attribute.
#[derive(Clone, Copy, Debug, PartialEq, Eq, Structural)]
pub enum AttributeType {
    Byte,
    UnsignedByte,
    Short,
    UnsignedShort,
    Int,
    UnsignedInt,
    Float,
}

impl AttributeType {
    /// The number of bytes of one component of this type.
    pub open spec fn spec_size(self) -> u8 {
        match self {
            AttributeType::Byte | AttributeType::UnsignedByte => 1,
            AttributeType::Short | AttributeType::UnsignedShort => 2,
            AttributeType::Int | AttributeType::UnsignedInt | AttributeType::Float => 4,
        }
    }

    /// The number of bytes of one component of this type.
    #[verifier::when_used_as_spec(spec_size)]
    pub fn size(self) -> (bytes: u8)
        ensures
            bytes == self.spec_size(),
    {
        match self {
            AttributeType::Byte | AttributeType::UnsignedByte => 1,
            AttributeType::Short | AttributeType::UnsignedShort => 2,
            AttributeType::Int | AttributeType::UnsignedInt | AttributeType::Float => 4,
        }
    }
}

/// One attribute pointer
#[derive(Clone, Copy, Debug, PartialEq, Eq, Structural)]
pub struct AttributePointer {
    pub index: u32,
    /// How many components the attribute has, like a vec3 has 3
    pub components: usize,
    pub attrib_type: AttributeType,
    pub normalized: bool,
    /// How offset this attribute is in bytes.
    pub offset: u32,
}

impl AttributePointer {
    pub fn new(
        index: u32,
        components: usize,
        attrib_type: AttributeType,
        normalized: bool,
        offset: u32,
    ) -> (pointer: AttributePointer)
        ensures
            pointer == (AttributePointer { index, components, attrib_type, normalized, offset }),
    {
        AttributePointer { index, components, attrib_type, normalized, offset }
    }

    /// The number of bytes that this attribute takes in a vertex record.
    pub open spec fn byte_size(&self) -> nat {
        self.components as nat * self.attrib_type.spec_size() as nat
    }

    pub fn get_type(&self) -> (attrib_type: AttributeType)
        ensures
            attrib_type == self.attrib_type,
    {
        self.attrib_type
    }

    pub fn get_components(&self) -> (components: usize)
        ensures
            components == self.components,
    {
        self.components
    }

    pub fn get_index(&self) -> (index: u32)
        ensures
            index == self.index,
    {
        self.index
    }

    pub fn get_normalized(&self) -> (normalized: bool)
        ensures
            normalized == self.normalized,
    {
        self.normalized
    }

    pub fn get_offset(&self) -> (offset: u32)
        ensures
            offset == self.offset,
    {
        self.offset
    }
}

/// The number of bytes that the first `n` descriptors of `pointers` take.
pub open spec fn bytes_before(pointers: Seq<AttributePointer>, n: int) -> nat
    decreases n,
{
    if n <= 0 || n > pointers.len() {
        0
    } else {
        bytes_before(pointers, n - 1) + pointers[n - 1].byte_size()
    }
}

/// The descriptor at position `i` carries `i` as its index and starts where
/// the descriptors before it end.
pub open spec fn fits_at(pointers: Seq<AttributePointer>, i: int) -> bool {
    &&& pointers[i].offset == bytes_before(pointers, i)
    &&& pointers[i].index == i
}

/// Every descriptor fits at its position, and together the descriptors take
/// `record_size` bytes.
pub open spec fn is_layout(pointers: Seq<AttributePointer>, record_size: nat) -> bool {
    &&& forall|i: int| 0 <= i < pointers.len() ==> fits_at(pointers, i)
    &&& bytes_before(pointers, pointers.len() as int) == record_size
}

/// The error that a list of descriptors is refused with: that of the first
/// descriptor that does not fit, a wrong offset before a wrong index, and
/// else that of the total.
pub open spec fn layout_error(pointers: Seq<AttributePointer>, record_size: usize) -> LayoutError
    recommends
        !is_layout(pointers, record_size as nat),
{
    if exists|i: int| 0 <= i < pointers.len() && !fits_at(pointers, i) {
        let first = choose|i: int|
            0 <= i < pointers.len() && !fits_at(pointers, i) && forall|j: int|
                0 <= j < i ==> fits_at(pointers, j);
        if pointers[first].offset != bytes_before(pointers, first) {
            LayoutError::BadOffset { position: first as usize }
        } else {
            LayoutError::IndexGap { position: first as usize }
        }
    } else {
        LayoutError::SizeMismatch { record_size }
    }
}

/// The attribute layout of the vertex record: its attributes in order, and
/// the size of the record.
pub struct AttributePointerList {
    attribute_pointers: Vec<AttributePointer>,
    stride: usize,
}

impl View for AttributePointerList {
    type V = Seq<AttributePointer>;

    closed spec fn view(&self) -> Seq<AttributePointer> {
        self.attribute_pointers@
    }
}

impl AttributePointerList {
    /// The size of the vertex record that the layout describes.
    pub closed spec fn spec_stride(&self) -> usize {
        self.stride
    }

    /// The descriptors are a layout of a record of `spec_stride()` bytes.
    pub open spec fn wf(&self) -> bool {
        is_layout(self@, self.spec_stride() as nat)
    }

    /// Checks that the descriptors are numbered from zero without a gap, that
    /// each one starts at the byte where the ones before it end, and that
    /// together they take `record_size` bytes.
    pub fn new(attribute_pointers: Vec<AttributePointer>, record_size: usize) -> (result: Result<
        AttributePointerList,
        LayoutError,
    >)
        ensures
            is_layout(attribute_pointers@, record_size as nat) ==> result is Ok,
            result matches Ok(list) ==> {
                &&& is_layout(attribute_pointers@, record_size as nat)
                &&& list@ == attribute_pointers@
                &&& list.spec_stride() == record_size
                &&& list.wf()
            },
            result matches Err(error) ==> error == layout_error(attribute_pointers@, record_size),
    {
        let mut offset: u32 = 0;
        let mut i: usize = 0;
        while i < attribute_pointers.len()
            invariant
                i <= attribute_pointers.len(),
                offset == bytes_before(attribute_pointers@, i as int),
                forall|j: int| 0 <= j < i ==> fits_at(attribute_pointers@, j),
            decreases attribute_pointers.len() - i,
        {
            let pointer = &attribute_pointers[i];
            if pointer.get_offset() != offset {
                proof {
                    lemma_first_misfit(attribute_pointers@, record_size, i as int);
                }
                return Err(LayoutError::BadOffset { position: i });
            }
            if i > u32::MAX as usize || pointer.get_index() != i as u32 {
                proof {
                    lemma_first_misfit(attribute_pointers@, record_size, i as int);
                }
                return Err(LayoutError::IndexGap { position: i });
            }
            let size: u128 = pointer.get_components() as u128 * pointer.get_type().size() as u128;
            let end: u128 = offset as u128 + size;
            if end > u32::MAX as u128 {
                // Offsets stop at `u32::MAX`, so no later descriptor can start
                // at `end`.
                if i + 1 < attribute_pointers.len() {
                    proof {
                        assert(bytes_before(attribute_pointers@, i + 1) == end);
                        assert(!fits_at(attribute_pointers@, i + 1));
                        assert(fits_at(attribute_pointers@, i as int));
                        lemma_first_misfit(attribute_pointers@, record_size, i + 1);
                    }
                    return Err(LayoutError::BadOffset { position: i + 1 });
                }
                proof {
                    assert(bytes_before(attribute_pointers@, i + 1) == end);
                    assert(fits_at(attribute_pointers@, i as int));
                }
                if end != record_size as u128 {
                    return Err(LayoutError::SizeMismatch { record_size });
                }
                return Ok(AttributePointerList { attribute_pointers, stride: record_size });
            }
            offset = end as u32;
            i += 1;
        }
        if offset as u128 != record_size as u128 {
            return Err(LayoutError::SizeMismatch { record_size });
        }
        Ok(AttributePointerList { attribute_pointers, stride: record_size })
    }

    pub fn len(&self) -> (len: usize)
        ensures
            len == self@.len(),
    {
        self.attribute_pointers.len()
    }

    #[verifier::when_used_as_spec(spec_stride)]
    pub fn get_stride(&self) -> (stride: usize)
        ensures
            stride == self.spec_stride(),
    {
        self.stride
    }

    /// The descriptor at position `i`.
    pub fn index(&self, i: usize) -> (pointer: &AttributePointer)
        requires
            i < self@.len(),
        ensures
            *pointer == self@[i as int],
    {
        &self.attribute_pointers[i]
    }
}

/// Where the descriptor at `first` does not fit and all before it do, the
/// list is no layout and `first` is the position that its error names.
proof fn lemma_first_misfit(pointers: Seq<AttributePointer>, record_size: usize, first: int)
    requires
        0 <= first < pointers.len(),
        !fits_at(pointers, first),
        forall|j: int| 0 <= j < first ==> fits_at(pointers, j),
    ensures
        !is_layout(pointers, record_size as nat),
        layout_error(pointers, record_size) == if pointers[first].offset != bytes_before(
            pointers,
            first,
        ) {
            LayoutError::BadOffset { position: first as usize }
        } else {
            LayoutError::IndexGap { position: first as usize }
        },
{
    let chosen = choose|i: int|
        0 <= i < pointers.len() && !fits_at(pointers, i) && forall|j: int|
            0 <= j < i ==> fits_at(pointers, j);
    assert(chosen == first) by {
        if chosen < first {
            assert(fits_at(pointers, chosen));
        } else if first < chosen {
            assert(fits_at(pointers, first));
        }
    }
}

} // verus!
