//! Fixed-layout content for uniform buffers, and the buffer that carries it.
//!
//! Numbers that the device reads as single-precision floats are held as their
//! 32-bit patterns, so that every layout rule is a rule about integers.

use std::marker::PhantomData;
use vstd::prelude::*;
use vstd::std_specs::convert::FromSpec;

verus! {

/// Bit pattern of single-precision `0.0`: the fourth component of a padded
/// direction.
pub const VECTOR_PADDING: u32 = 0;

/// Bit pattern of single-precision `1.0`: the fourth component of a padded
/// position.
pub const POINT_PADDING: u32 = 0x3F80_0000;

/// Number of 32-bit words in one 16-byte slot of uniform memory.
pub const WORDS_PER_SLOT: u64 = 4;

/// A direction in space, by the bit patterns of its components.
#[derive(Clone, Copy, Debug, PartialEq, Eq, Structural)]
pub struct Vector3 {
    pub x: u32,
    pub y: u32,
    pub z: u32,
}

/// A position in space, by the bit patterns of its components.
#[derive(Clone, Copy, Debug, PartialEq, Eq, Structural)]
pub struct Point3 {
    pub x: u32,
    pub y: u32,
    pub z: u32,
}

/// The bytes of `word`, least significant first.
pub open spec fn little_endian(word: u32) -> Seq<u8> {
    seq![
        (word & 0xff) as u8,
        ((word >> 8) & 0xff) as u8,
        ((word >> 16) & 0xff) as u8,
        ((word >> 24) & 0xff) as u8,
    ]
}

/// The bytes of `word`, most significant first.
pub open spec fn big_endian(word: u32) -> Seq<u8> {
    seq![
        ((word >> 24) & 0xff) as u8,
        ((word >> 16) & 0xff) as u8,
        ((word >> 8) & 0xff) as u8,
        (word & 0xff) as u8,
    ]
}

/// The bytes of `words` laid out one word after the other, each word in the
/// byte order chosen by `little`.
pub open spec fn words_image(words: Seq<u32>, little: bool) -> Seq<u8> {
    Seq::new(
        4 * words.len(),
        |i: int|
            if little {
                little_endian(words[i / 4])[i % 4]
            } else {
                big_endian(words[i / 4])[i % 4]
            },
    )
}

/// `bytes` is what `words` look like in the memory of some machine: the words
/// in order, all of them in the same byte order.
pub open spec fn is_memory_image(bytes: Seq<u8>, words: Seq<u32>) -> bool {
    bytes == words_image(words, true) || bytes == words_image(words, false)
}

/// Every memory image of `words` holds four bytes per word.
pub proof fn lemma_memory_image_len(bytes: Seq<u8>, words: Seq<u32>)
    requires
        is_memory_image(bytes, words),
    ensures
        bytes.len() == 4 * words.len(),
{
}

/// Reinterprets the words as bytes through `bytemuck::cast_slice`, and copies
/// them into a vector.
///
/// The cast keeps the address and the length in bytes, so the result is the
/// words as they lie in this machine's memory. From `u32` to `u8` the cast
/// cannot fail: the alignment drops to one and the size divides evenly.
#[verifier::external_body]
pub(crate) fn memory_image(words: &Vec<u32>) -> (bytes: Vec<u8>)
    ensures
        is_memory_image(bytes@, words@),
{
    bytemuck::cast_slice::<u32, u8>(words.as_slice()).to_vec()
}

/// A value with a fixed layout in uniform memory.
///
/// The layout is a whole number of 16-byte slots. A three-component member
/// never appears bare: it enters through [`PaddedVector3`] or
/// [`PaddedPoint3`], which bring their fourth component with them.
pub trait UniformContent: Sized {
    /// Name of the content type, as it appears in buffer labels.
    spec fn spec_name() -> Seq<char>;

    /// Number of 32-bit words in the layout.
    spec fn spec_word_count() -> nat;

    /// The words of this value, in layout order.
    spec fn spec_words(&self) -> Seq<u32>;

    /// The layout is not empty, fills whole slots, and its size fits a
    /// buffer address.
    proof fn lemma_layout()
        ensures
            0 < Self::spec_word_count(),
            Self::spec_word_count() % (WORDS_PER_SLOT as nat) == 0,
            4 * Self::spec_word_count() <= u64::MAX,
    ;

    fn name() -> (name: String)
        ensures
            name@ == Self::spec_name(),
    ;

    fn word_count() -> (count: u64)
        ensures
            count == Self::spec_word_count(),
    ;

    fn words(&self) -> (words: Vec<u32>)
        ensures
            words@ == self.spec_words(),
            words@.len() == Self::spec_word_count(),
    ;
}

/// A direction stored as four components: the direction, then `0.0`.
#[derive(Clone, Copy, Debug, PartialEq, Eq, Structural)]
pub struct PaddedVector3 {
    vector: Vector3,
    padding: u32,
}

impl PaddedVector3 {
    /// The fourth component of every padded direction is `0.0`.
    #[verifier::type_invariant]
    spec fn padded(self) -> bool {
        self.padding == VECTOR_PADDING
    }

    /// The direction that was padded.
    pub closed spec fn spec_vector(self) -> Vector3 {
        self.vector
    }

    /// The fourth component.
    pub closed spec fn spec_padding(self) -> u32 {
        self.padding
    }

    pub fn vector(&self) -> (vector: Vector3)
        ensures
            vector == self.spec_vector(),
    {
        self.vector
    }

    /// The fourth component, which is `0.0` whatever the direction and
    /// wherever the value came from.
    pub fn padding(&self) -> (padding: u32)
        ensures
            padding == self.spec_padding(),
            padding == VECTOR_PADDING,
    {
        proof {
            use_type_invariant(self);
        }
        self.padding
    }
}

impl From<Vector3> for PaddedVector3 {
    fn from(vector: Vector3) -> (padded: Self) {
        PaddedVector3 { vector, padding: VECTOR_PADDING }
    }
}

impl vstd::std_specs::convert::FromSpecImpl<Vector3> for PaddedVector3 {
    open spec fn obeys_from_spec() -> bool {
        true
    }

    closed spec fn from_spec(vector: Vector3) -> Self {
        PaddedVector3 { vector, padding: VECTOR_PADDING }
    }
}

/// A position stored as four components: the position, then `1.0`.
#[derive(Clone, Copy, Debug, PartialEq, Eq, Structural)]
pub struct PaddedPoint3 {
    point: Point3,
    padding: u32,
}

impl PaddedPoint3 {
    /// The fourth component of every padded position is `1.0`.
    #[verifier::type_invariant]
    spec fn padded(self) -> bool {
        self.padding == POINT_PADDING
    }

    /// The position that was padded.
    pub closed spec fn spec_point(self) -> Point3 {
        self.point
    }

    /// The fourth component.
    pub closed spec fn spec_padding(self) -> u32 {
        self.padding
    }

    pub fn point(&self) -> (point: Point3)
        ensures
            point == self.spec_point(),
    {
        self.point
    }

    /// The fourth component, which is `1.0` whatever the position and
    /// wherever the value came from.
    pub fn padding(&self) -> (padding: u32)
        ensures
            padding == self.spec_padding(),
            padding == POINT_PADDING,
    {
        proof {
            use_type_invariant(self);
        }
        self.padding
    }
}

impl From<Point3> for PaddedPoint3 {
    fn from(point: Point3) -> (padded: Self) {
        PaddedPoint3 { point, padding: POINT_PADDING }
    }
}

impl vstd::std_specs::convert::FromSpecImpl<Point3> for PaddedPoint3 {
    open spec fn obeys_from_spec() -> bool {
        true
    }

    closed spec fn from_spec(point: Point3) -> Self {
        PaddedPoint3 { point, padding: POINT_PADDING }
    }
}

/// Padding a direction keeps its three components and sets the fourth to the
/// pattern of `0.0`, whatever the direction.
pub proof fn lemma_padded_vector(vector: Vector3)
    ensures
        PaddedVector3::from_spec(vector).spec_vector() == vector,
        PaddedVector3::from_spec(vector).spec_padding() == VECTOR_PADDING,
        PaddedVector3::from_spec(vector).spec_words() == seq![
            vector.x,
            vector.y,
            vector.z,
            VECTOR_PADDING,
        ],
{
}

/// Padding a position keeps its three components and sets the fourth to the
/// pattern of `1.0`, whatever the position.
pub proof fn lemma_padded_point(point: Point3)
    ensures
        PaddedPoint3::from_spec(point).spec_point() == point,
        PaddedPoint3::from_spec(point).spec_padding() == POINT_PADDING,
        PaddedPoint3::from_spec(point).spec_words() == seq![
            point.x,
            point.y,
            point.z,
            POINT_PADDING,
        ],
{
}

/// Whatever the machine's byte order, the bytes of a padded direction are
/// sixteen, and the last four, which hold the fourth component, are zero.
pub proof fn lemma_padded_vector_image(vector: Vector3, bytes: Seq<u8>)
    requires
        is_memory_image(bytes, PaddedVector3::from_spec(vector).spec_words()),
    ensures
        bytes.len() == 16,
        bytes.subrange(12, 16) == seq![0u8, 0u8, 0u8, 0u8],
{
    let words = PaddedVector3::from_spec(vector).spec_words();
    assert(words[3] == 0u32);
    assert(0u32 & 0xff == 0 && (0u32 >> 8) & 0xff == 0 && (0u32 >> 16) & 0xff == 0 && (0u32 >> 24)
        & 0xff == 0) by (bit_vector);
    assert forall|k: int| 0 <= k < 4 implies #[trigger] bytes.subrange(12, 16)[k] == 0u8 by {
        assert(bytes[12 + k] == words_image(words, true)[12 + k] || bytes[12 + k] == words_image(
            words,
            false,
        )[12 + k]);
    }
}

/// Whatever the machine's byte order, the bytes of a padded position are
/// sixteen, and the last four are the bytes of single-precision `1.0`, in
/// one order or the other.
pub proof fn lemma_padded_point_image(point: Point3, bytes: Seq<u8>)
    requires
        is_memory_image(bytes, PaddedPoint3::from_spec(point).spec_words()),
    ensures
        bytes.len() == 16,
        bytes.subrange(12, 16) == seq![0u8, 0u8, 0x80u8, 0x3Fu8] || bytes.subrange(12, 16) == seq![
            0x3Fu8,
            0x80u8,
            0u8,
            0u8,
        ],
{
    let words = PaddedPoint3::from_spec(point).spec_words();
    assert(words[3] == 0x3F80_0000u32);
    assert(0x3F80_0000u32 & 0xff == 0 && (0x3F80_0000u32 >> 8) & 0xff == 0 && (0x3F80_0000u32
        >> 16) & 0xff == 0x80 && (0x3F80_0000u32 >> 24) & 0xff == 0x3F) by (bit_vector);
    if bytes == words_image(words, true) {
        assert forall|k: int| 0 <= k < 4 implies #[trigger] bytes.subrange(12, 16)[k] == seq![
            0u8,
            0u8,
            0x80u8,
            0x3Fu8,
        ][k] by {
            assert(bytes[12 + k] == little_endian(words[3])[k]);
        }
        assert(bytes.subrange(12, 16) =~= seq![0u8, 0u8, 0x80u8, 0x3Fu8]);
    } else {
        assert forall|k: int| 0 <= k < 4 implies #[trigger] bytes.subrange(12, 16)[k] == seq![
            0x3Fu8,
            0x80u8,
            0u8,
            0u8,
        ][k] by {
            assert(bytes[12 + k] == big_endian(words[3])[k]);
        }
        assert(bytes.subrange(12, 16) =~= seq![0x3Fu8, 0x80u8, 0u8, 0u8]);
    }
}

impl UniformContent for PaddedVector3 {
    open spec fn spec_name() -> Seq<char> {
        "PaddedVector3"@
    }

    open spec fn spec_word_count() -> nat {
        4
    }

    closed spec fn spec_words(&self) -> Seq<u32> {
        seq![self.vector.x, self.vector.y, self.vector.z, self.padding]
    }

    proof fn lemma_layout() {
    }

    fn name() -> (name: String) {
        "PaddedVector3".to_owned()
    }

    fn word_count() -> (count: u64) {
        4
    }

    fn words(&self) -> (words: Vec<u32>)
        ensures
            words@ == seq![
                self.spec_vector().x,
                self.spec_vector().y,
                self.spec_vector().z,
                VECTOR_PADDING,
            ],
    {
        proof {
            use_type_invariant(self);
        }
        vec![self.vector.x, self.vector.y, self.vector.z, self.padding]
    }
}

impl UniformContent for PaddedPoint3 {
    open spec fn spec_name() -> Seq<char> {
        "PaddedPoint3"@
    }

    open spec fn spec_word_count() -> nat {
        4
    }

    closed spec fn spec_words(&self) -> Seq<u32> {
        seq![self.point.x, self.point.y, self.point.z, self.padding]
    }

    proof fn lemma_layout() {
    }

    fn name() -> (name: String) {
        "PaddedPoint3".to_owned()
    }

    fn word_count() -> (count: u64) {
        4
    }

    fn words(&self) -> (words: Vec<u32>)
        ensures
            words@ == seq![
                self.spec_point().x,
                self.spec_point().y,
                self.spec_point().z,
                POINT_PADDING,
            ],
    {
        proof {
            use_type_invariant(self);
        }
        vec![self.point.x, self.point.y, self.point.z, self.padding]
    }
}

/// What a buffer may be used for.
#[derive(Clone, Copy, Debug, PartialEq, Eq, Structural)]
pub struct BufferUsage {
    pub map_read: bool,
    pub map_write: bool,
    pub copy_src: bool,
    pub copy_dst: bool,
    pub index: bool,
    pub vertex: bool,
    pub uniform: bool,
    pub storage: bool,
    pub indirect: bool,
}

impl BufferUsage {
    /// No use at all.
    pub open spec fn spec_empty() -> BufferUsage {
        BufferUsage {
            map_read: false,
            map_write: false,
            copy_src: false,
            copy_dst: false,
            index: false,
            vertex: false,
            uniform: false,
            storage: false,
            indirect: false,
        }
    }

    /// Readable as uniform memory, and a target of queued writes.
    pub open spec fn spec_uniform_target() -> BufferUsage {
        BufferUsage { uniform: true, copy_dst: true, ..Self::spec_empty() }
    }

    pub fn empty() -> (usage: BufferUsage)
        ensures
            usage == Self::spec_empty(),
    {
        BufferUsage {
            map_read: false,
            map_write: false,
            copy_src: false,
            copy_dst: false,
            index: false,
            vertex: false,
            uniform: false,
            storage: false,
            indirect: false,
        }
    }

    pub fn uniform_target() -> (usage: BufferUsage)
        ensures
            usage == Self::spec_uniform_target(),
    {
        let mut usage = Self::empty();
        usage.uniform = true;
        usage.copy_dst = true;
        usage
    }
}

/// What the device needs to know to allocate a buffer.
#[derive(Clone, Debug, PartialEq, Eq)]
pub struct BufferDescriptor {
    pub label: String,
    pub size: u64,
    pub usage: BufferUsage,
    pub mapped_at_creation: bool,
}

/// A range of a buffer, by reference to the buffer. `size` is `None` where
/// the range runs to the buffer's end.
#[derive(Debug, PartialEq, Eq)]
pub struct BufferSlice<'a, Buffer> {
    pub buffer: &'a Buffer,
    pub offset: u64,
    pub size: Option<u64>,
}

/// A resource that a binding slot can refer to.
#[derive(Debug, PartialEq, Eq)]
pub enum BindingResource<'a, Buffer> {
    Buffer(BufferSlice<'a, Buffer>),
}

/// A write of `data` into `buffer` at `offset`, to be queued on the device.
#[derive(Debug, PartialEq, Eq)]
pub struct BufferWrite<'a, Buffer> {
    pub buffer: &'a Buffer,
    pub offset: u64,
    pub data: Vec<u8>,
}

/// A device buffer that holds one value of type `Content`.
///
/// `Buffer` is the device's handle. The buffer owns it: it is released when
/// the uniform buffer is dropped.
pub struct UniformBuffer<Content, Buffer> {
    buffer: Buffer,
    content: PhantomData<Content>,
}

impl<Content: UniformContent, Buffer> UniformBuffer<Content, Buffer> {
    /// Size of the buffer in bytes: four per word of the content's layout.
    pub open spec fn spec_size() -> nat {
        4 * Content::spec_word_count()
    }

    /// The label of every buffer of this content type.
    pub open spec fn spec_label() -> Seq<char> {
        "UniformBuffer: "@ + Content::spec_name()
    }

    /// The device's handle.
    pub closed spec fn spec_buffer(&self) -> Buffer {
        self.buffer
    }

    /// `descriptor` asks for a buffer of this content type, mapped at
    /// creation or not.
    pub open spec fn is_descriptor(descriptor: BufferDescriptor, mapped_at_creation: bool) -> bool {
        &&& descriptor.label@ == Self::spec_label()
        &&& descriptor.size == Self::spec_size()
        &&& descriptor.usage == BufferUsage::spec_uniform_target()
        &&& descriptor.mapped_at_creation == mapped_at_creation
    }

    pub fn name() -> (name: String)
        ensures
            name@ == Content::spec_name(),
    {
        Content::name()
    }

    pub fn size() -> (size: u64)
        ensures
            size == Self::spec_size(),
            size > 0,
            size % 16 == 0,
    {
        proof {
            Content::lemma_layout();
        }
        4 * Content::word_count()
    }

    /// The request for a buffer of this content type.
    pub fn descriptor(mapped_at_creation: bool) -> (descriptor: BufferDescriptor)
        ensures
            Self::is_descriptor(descriptor, mapped_at_creation),
    {
        let name = Content::name();
        BufferDescriptor {
            label: "UniformBuffer: ".to_owned().concat(name.as_str()),
            size: Self::size(),
            usage: BufferUsage::uniform_target(),
            mapped_at_creation,
        }
    }

    /// Takes over a buffer that the device made from `descriptor(false)`. Its
    /// memory holds nothing yet.
    pub fn new(buffer: Buffer) -> (uniform: Self)
        ensures
            uniform.spec_buffer() == buffer,
    {
        UniformBuffer { buffer, content: PhantomData }
    }

    /// Takes over a buffer that the device made from `descriptor(true)`, and
    /// returns with it the bytes of `initial_content`. The caller copies them
    /// into the mapped buffer and unmaps it, before anything else sees the
    /// buffer.
    pub fn new_with_data(buffer: Buffer, initial_content: &Content) -> (created: (Self, Vec<u8>))
        ensures
            created.0.spec_buffer() == buffer,
            is_memory_image(created.1@, initial_content.spec_words()),
            created.1@.len() == Self::spec_size(),
    {
        let words = initial_content.words();
        let bytes = memory_image(&words);
        (UniformBuffer { buffer, content: PhantomData }, bytes)
    }

    /// The write that replaces the buffer's content with `content`: all of
    /// its bytes, from the buffer's start.
    pub fn update_content(&self, content: Content) -> (write: BufferWrite<'_, Buffer>)
        ensures
            *write.buffer == self.spec_buffer(),
            write.offset == 0,
            is_memory_image(write.data@, content.spec_words()),
            write.data@.len() == Self::spec_size(),
    {
        let words = content.words();
        BufferWrite { buffer: &self.buffer, offset: 0, data: memory_image(&words) }
    }

    /// The whole buffer, as a resource to bind. The buffer stays with `self`.
    pub fn binding_resource(&self) -> (resource: BindingResource<'_, Buffer>)
        ensures
            resource == BindingResource::Buffer(
                BufferSlice { buffer: &self.spec_buffer(), offset: 0, size: None },
            ),
    {
        BindingResource::Buffer(BufferSlice { buffer: &self.buffer, offset: 0, size: None })
    }

    pub fn buffer(&self) -> (buffer: &Buffer)
        ensures
            *buffer == self.spec_buffer(),
    {
        &self.buffer
    }
}

} // verus!
