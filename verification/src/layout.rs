//! The mathematical model of a decoded buffer's layout, and the laws it obeys.
//!
//! A decoded buffer holds the index segment at byte 0, followed by one segment
//! per attribute. Everything here is ghost: the executable types of
//! [`crate::utils`] are specified against these definitions.

use vstd::prelude::*;

use crate::utils::AttributeDataType;

verus! {

/// Width in bytes of one element of the given type.
pub open spec fn element_size(data_type: AttributeDataType) -> nat {
    match data_type {
        AttributeDataType::Int8 | AttributeDataType::UInt8 => 1,
        AttributeDataType::Int16 | AttributeDataType::UInt16 => 2,
        AttributeDataType::Int32 | AttributeDataType::UInt32 | AttributeDataType::Float32 => 4,
    }
}

/// The element type that a numeric code names: 0 to 6, in the order Int8,
/// UInt8, Int16, UInt16, Int32, UInt32, Float32. Other codes name none.
pub open spec fn data_type_of_code(code: int) -> Option<AttributeDataType> {
    if code == 0 {
        Some(AttributeDataType::Int8)
    } else if code == 1 {
        Some(AttributeDataType::UInt8)
    } else if code == 2 {
        Some(AttributeDataType::Int16)
    } else if code == 3 {
        Some(AttributeDataType::UInt16)
    } else if code == 4 {
        Some(AttributeDataType::Int32)
    } else if code == 5 {
        Some(AttributeDataType::UInt32)
    } else if code == 6 {
        Some(AttributeDataType::Float32)
    } else {
        None
    }
}

/// Byte length of the index segment: indices are two bytes wide while the
/// count fits 16 bits, and four bytes wide beyond that.
pub open spec fn index_segment_length(index_count: nat) -> nat {
    if index_count <= 0xFFFF {
        index_count * 2
    } else {
        index_count * 4
    }
}

/// Byte length of an attribute segment: one element per component per vertex.
pub open spec fn attribute_length(dim: nat, vertex_count: nat, data_type: AttributeDataType) -> nat {
    dim * vertex_count * element_size(data_type)
}

/// One attribute segment: its shape and the byte range it claims.
pub struct AttributeModel {
    pub dim: nat,
    pub data_type: AttributeDataType,
    pub offset: nat,
    pub length: nat,
}

impl AttributeModel {
    /// The first byte past the segment.
    pub open spec fn end(self) -> nat {
        self.offset + self.length
    }

    /// What is known of an attribute before it is placed.
    pub open spec fn shape(self) -> AttributeShape {
        AttributeShape { dim: self.dim, data_type: self.data_type }
    }
}

/// The shape of an attribute: components per vertex and element type.
pub struct AttributeShape {
    pub dim: nat,
    pub data_type: AttributeDataType,
}

/// The shape of an attribute as a decode engine reports it: the element type
/// is still a numeric code, which may name no type.
pub struct ReportedShape {
    pub dim: nat,
    pub code: int,
}

impl ReportedShape {
    /// Whether the code names an element type.
    pub open spec fn names_type(self) -> bool {
        data_type_of_code(self.code) is Some
    }

    /// The shape that is reported, where the code names a type.
    pub open spec fn shape(self) -> AttributeShape
        recommends
            self.names_type(),
    {
        AttributeShape { dim: self.dim, data_type: data_type_of_code(self.code).unwrap() }
    }
}

/// Whether every code in `reported` names an element type.
pub open spec fn all_name_types(reported: Seq<ReportedShape>) -> bool {
    forall|i: int| 0 <= i < reported.len() ==> (#[trigger] reported[i]).names_type()
}

/// The shapes that `reported` stands for, in order, where every code names a
/// type. A code that names none is never read as some type: there are no
/// shapes then.
pub open spec fn read_shapes(reported: Seq<ReportedShape>) -> Option<Seq<AttributeShape>> {
    if all_name_types(reported) {
        Some(reported.map_values(|r: ReportedShape| r.shape()))
    } else {
        None
    }
}

/// Sum of the segment lengths of `attributes`.
pub open spec fn total_length(attributes: Seq<AttributeModel>) -> nat
    decreases attributes.len(),
{
    if attributes.len() == 0 {
        0
    } else {
        total_length(attributes.drop_last()) + attributes.last().length
    }
}

/// Whether the length of `attribute` is the one that its shape determines in
/// a mesh of `vertex_count` vertices.
pub open spec fn length_follows_shape(attribute: AttributeModel, vertex_count: nat) -> bool {
    attribute.length == attribute_length(attribute.dim, vertex_count, attribute.data_type)
}

/// Whether segment `i + 1` of `attributes` starts where segment `i` ends.
pub open spec fn adjoins(attributes: Seq<AttributeModel>, i: int) -> bool {
    attributes[i].end() == attributes[i + 1].offset
}

/// The layout of one decoded buffer. The length of the index segment is not
/// stored: it is a function of the index count.
pub struct LayoutModel {
    pub vertex_count: nat,
    pub index_count: nat,
    pub buffer_size: nat,
    pub attributes: Seq<AttributeModel>,
}

impl LayoutModel {
    /// Byte length of the index segment, which starts the buffer.
    pub open spec fn index_length(self) -> nat {
        index_segment_length(self.index_count)
    }

    /// The layout auto-offset mode starts from: the index segment alone.
    pub open spec fn start(vertex_count: nat, index_count: nat) -> LayoutModel {
        LayoutModel {
            vertex_count,
            index_count,
            buffer_size: index_segment_length(index_count),
            attributes: Seq::empty(),
        }
    }

    /// The layout explicit mode starts from: counts and a total size that is
    /// already known.
    pub open spec fn sized(vertex_count: nat, index_count: nat, buffer_size: nat) -> LayoutModel {
        LayoutModel { vertex_count, index_count, buffer_size, attributes: Seq::empty() }
    }

    /// The segment auto-offset mode gives the next attribute: it starts where
    /// the buffer ends now.
    pub open spec fn next_attribute(self, dim: nat, data_type: AttributeDataType) -> AttributeModel {
        AttributeModel {
            dim,
            data_type,
            offset: self.buffer_size,
            length: attribute_length(dim, self.vertex_count, data_type),
        }
    }

    /// Whether the segment that auto-offset mode would append can be written
    /// down: offset and length in 32 bits, the grown buffer size in a `usize`.
    pub open spec fn fits(self, dim: nat, data_type: AttributeDataType) -> bool {
        &&& self.buffer_size <= u32::MAX
        &&& attribute_length(dim, self.vertex_count, data_type) <= u32::MAX
        &&& self.buffer_size + attribute_length(dim, self.vertex_count, data_type) <= usize::MAX
    }

    /// Auto-offset insertion: append the next segment and grow the buffer by
    /// its length.
    pub open spec fn push_auto(self, dim: nat, data_type: AttributeDataType) -> LayoutModel {
        LayoutModel {
            buffer_size: self.buffer_size + attribute_length(dim, self.vertex_count, data_type),
            attributes: self.attributes.push(self.next_attribute(dim, data_type)),
            ..self
        }
    }

    /// Explicit insertion: append the segment as given; the buffer size stays.
    pub open spec fn push_explicit(self, attribute: AttributeModel) -> LayoutModel {
        LayoutModel { attributes: self.attributes.push(attribute), ..self }
    }

    /// The same layout with another total size.
    pub open spec fn resized(self, buffer_size: nat) -> LayoutModel {
        LayoutModel { buffer_size, ..self }
    }

    /// The shapes of the attributes, in order.
    pub open spec fn shapes(self) -> Seq<AttributeShape> {
        self.attributes.map_values(|a: AttributeModel| a.shape())
    }

    /// Every length is the one its shape and the vertex count determine.
    pub open spec fn lengths_follow_shapes(self) -> bool {
        forall|i: int|
            0 <= i < self.attributes.len() ==> #[trigger] length_follows_shape(
                self.attributes[i],
                self.vertex_count,
            )
    }

    /// The attribute segments tile `[index_length, buffer_size)`: the first
    /// starts where the index segment ends, each next one starts where the one
    /// before it ends, and the lengths add up to the rest of the buffer.
    pub open spec fn tiles(self) -> bool {
        &&& self.attributes.len() > 0 ==> self.attributes[0].offset == self.index_length()
        &&& forall|i: int| 0 <= i < self.attributes.len() - 1 ==> #[trigger] adjoins(self.attributes, i)
        &&& self.buffer_size == self.index_length() + total_length(self.attributes)
    }
}

/// A decoded mesh: the bytes and the layout that describes them.
pub struct DecodedMeshModel {
    pub data: Seq<u8>,
    pub layout: LayoutModel,
}

impl DecodedMeshModel {
    /// The buffer is exactly as long as its layout says.
    pub open spec fn is_consistent(self) -> bool {
        self.data.len() == self.layout.buffer_size
    }
}

/// The layout that auto-offset mode derives from counts and shapes alone:
/// start from the index segment and insert the shapes in order.
pub open spec fn auto_layout(vertex_count: nat, index_count: nat, shapes: Seq<AttributeShape>) -> LayoutModel
    decreases shapes.len(),
{
    if shapes.len() == 0 {
        LayoutModel::start(vertex_count, index_count)
    } else {
        auto_layout(vertex_count, index_count, shapes.drop_last()).push_auto(
            shapes.last().dim,
            shapes.last().data_type,
        )
    }
}

/// Whether every insertion on the way to `auto_layout` can be written down.
pub open spec fn auto_fits(vertex_count: nat, index_count: nat, shapes: Seq<AttributeShape>) -> bool
    decreases shapes.len(),
{
    shapes.len() == 0 || {
        &&& auto_fits(vertex_count, index_count, shapes.drop_last())
        &&& auto_layout(vertex_count, index_count, shapes.drop_last()).fits(
            shapes.last().dim,
            shapes.last().data_type,
        )
    }
}

/// Appending one segment adds its length to the total.
pub proof fn lemma_total_length_push(attributes: Seq<AttributeModel>, attribute: AttributeModel)
    ensures
        total_length(attributes.push(attribute)) == total_length(attributes) + attribute.length,
{
    assert(attributes.push(attribute).drop_last() =~= attributes);
}

/// The total length of a prefix grows with the prefix.
pub proof fn lemma_total_length_prefix(attributes: Seq<AttributeModel>, i: int, j: int)
    requires
        0 <= i <= j <= attributes.len(),
    ensures
        total_length(attributes.take(i)) <= total_length(attributes.take(j)),
        i < j ==> total_length(attributes.take(i)) + attributes[i].length <= total_length(
            attributes.take(j),
        ),
    decreases j - i,
{
    if i < j {
        lemma_total_length_prefix(attributes, i, j - 1);
        assert(attributes.take(j) =~= attributes.take(j - 1).push(attributes[j - 1]));
        lemma_total_length_push(attributes.take(j - 1), attributes[j - 1]);
    }
}

/// In a tiling layout each segment starts after the index segment and all the
/// segments before it, and the buffer ends after all of them.
pub proof fn lemma_tiles_offsets(layout: LayoutModel, k: int)
    requires
        layout.tiles(),
        0 <= k <= layout.attributes.len(),
    ensures
        k < layout.attributes.len() ==> layout.attributes[k].offset == layout.index_length()
            + total_length(layout.attributes.take(k)),
        k == layout.attributes.len() ==> layout.buffer_size == layout.index_length()
            + total_length(layout.attributes.take(k)),
    decreases k,
{
    let attributes = layout.attributes;
    if k == attributes.len() {
        assert(attributes.take(k) =~= attributes);
    } else if k == 0 {
        assert(attributes.take(0) =~= Seq::<AttributeModel>::empty());
    } else {
        lemma_tiles_offsets(layout, k - 1);
        assert(attributes.take(k) =~= attributes.take(k - 1).push(attributes[k - 1]));
        lemma_total_length_push(attributes.take(k - 1), attributes[k - 1]);
        assert(adjoins(attributes, k - 1));
    }
}

/// In a tiling layout no two segments overlap, and every segment lies between
/// the end of the index segment and the end of the buffer.
pub proof fn lemma_tiles_disjoint(layout: LayoutModel, i: int, j: int)
    requires
        layout.tiles(),
        0 <= i <= j < layout.attributes.len(),
    ensures
        layout.index_length() <= layout.attributes[i].offset,
        i < j ==> layout.attributes[i].end() <= layout.attributes[j].offset,
        layout.attributes[j].end() <= layout.buffer_size,
{
    let n = layout.attributes.len() as int;
    lemma_tiles_offsets(layout, i);
    lemma_tiles_offsets(layout, j);
    lemma_tiles_offsets(layout, n);
    lemma_total_length_prefix(layout.attributes, i, j);
    lemma_total_length_prefix(layout.attributes, j, n);
}

/// The layout that is left of `layout` when its last segment is taken away:
/// the buffer then ends where that segment began.
pub open spec fn without_last(layout: LayoutModel) -> LayoutModel {
    LayoutModel {
        buffer_size: layout.attributes.last().offset,
        attributes: layout.attributes.drop_last(),
        ..layout
    }
}

/// The last segment of a tiling layout ends where the buffer ends. Taking it
/// away leaves a tiling layout, and auto-offset insertion of its shape brings
/// it back if its length is the one its shape determines.
pub proof fn lemma_without_last(layout: LayoutModel)
    requires
        layout.tiles(),
        layout.attributes.len() > 0,
    ensures
        layout.attributes.last().end() == layout.buffer_size,
        without_last(layout).tiles(),
        without_last(layout).shapes() == layout.shapes().drop_last(),
        layout.lengths_follow_shapes() ==> without_last(layout).lengths_follow_shapes(),
        layout.lengths_follow_shapes() ==> without_last(layout).push_auto(
            layout.attributes.last().dim,
            layout.attributes.last().data_type,
        ) == layout,
{
    let n = layout.attributes.len() as int;
    let last = layout.attributes.last();
    let before = without_last(layout);
    lemma_tiles_offsets(layout, n - 1);
    lemma_tiles_offsets(layout, n);
    assert(layout.attributes.take(n - 1) =~= before.attributes);
    assert(layout.attributes.take(n) =~= layout.attributes);
    lemma_total_length_push(before.attributes, last);
    assert(before.attributes.push(last) =~= layout.attributes);
    assert forall|i: int| 0 <= i < before.attributes.len() - 1 implies #[trigger] adjoins(
        before.attributes,
        i,
    ) by {
        assert(adjoins(layout.attributes, i));
    }
    assert(before.shapes() =~= layout.shapes().drop_last());
    if layout.lengths_follow_shapes() {
        assert forall|i: int| 0 <= i < before.attributes.len() implies #[trigger] length_follows_shape(
            before.attributes[i],
            before.vertex_count,
        ) by {
            assert(length_follows_shape(layout.attributes[i], layout.vertex_count));
        }
        assert(length_follows_shape(layout.attributes[n - 1], layout.vertex_count));
    }
}

/// Auto-offset insertion keeps a tiling layout tiling.
pub proof fn lemma_push_auto_tiles(layout: LayoutModel, dim: nat, data_type: AttributeDataType)
    requires
        layout.tiles(),
    ensures
        layout.push_auto(dim, data_type).tiles(),
{
    let next = layout.push_auto(dim, data_type);
    lemma_total_length_push(layout.attributes, layout.next_attribute(dim, data_type));
    if layout.attributes.len() > 0 {
        lemma_without_last(layout);
    }
    assert forall|i: int| 0 <= i < next.attributes.len() - 1 implies #[trigger] adjoins(
        next.attributes,
        i,
    ) by {
        if i < layout.attributes.len() - 1 {
            assert(adjoins(layout.attributes, i));
        }
    }
}

/// Whatever shapes are inserted in auto-offset mode, in whatever number, the
/// segments tile `[index_length, buffer_size)`, every length is the one its
/// shape determines, and the shapes stand in the order of insertion.
pub proof fn lemma_auto_layout_tiles(vertex_count: nat, index_count: nat, shapes: Seq<AttributeShape>)
    ensures
        auto_layout(vertex_count, index_count, shapes).tiles(),
        auto_layout(vertex_count, index_count, shapes).lengths_follow_shapes(),
        auto_layout(vertex_count, index_count, shapes).vertex_count == vertex_count,
        auto_layout(vertex_count, index_count, shapes).index_count == index_count,
        auto_layout(vertex_count, index_count, shapes).shapes() == shapes,
    decreases shapes.len(),
{
    let layout = auto_layout(vertex_count, index_count, shapes);
    if shapes.len() > 0 {
        let before = auto_layout(vertex_count, index_count, shapes.drop_last());
        lemma_auto_layout_tiles(vertex_count, index_count, shapes.drop_last());
        lemma_push_auto_tiles(before, shapes.last().dim, shapes.last().data_type);
        assert forall|i: int| 0 <= i < layout.attributes.len() implies #[trigger] length_follows_shape(
            layout.attributes[i],
            layout.vertex_count,
        ) by {
            if i < before.attributes.len() {
                assert(length_follows_shape(before.attributes[i], before.vertex_count));
            }
        }
        assert(before.shapes().push(shapes.last()) =~= layout.shapes());
        assert(shapes.drop_last().push(shapes.last()) =~= shapes);
    } else {
        assert(layout.shapes() =~= shapes);
    }
}

/// A prefix of insertions that can all be written down can be written down.
pub proof fn lemma_auto_fits_prefix(
    vertex_count: nat,
    index_count: nat,
    shapes: Seq<AttributeShape>,
    k: int,
)
    requires
        0 <= k <= shapes.len(),
        auto_fits(vertex_count, index_count, shapes),
    ensures
        auto_fits(vertex_count, index_count, shapes.take(k)),
    decreases shapes.len(),
{
    if k == shapes.len() {
        assert(shapes.take(k) =~= shapes);
    } else {
        lemma_auto_fits_prefix(vertex_count, index_count, shapes.drop_last(), k);
        assert(shapes.drop_last().take(k) =~= shapes.take(k));
    }
}

/// The two construction modes agree. A layout built in explicit mode, whose
/// lengths are those its shapes determine and whose segments tile the buffer,
/// is the layout that auto-offset mode derives from the same counts and the
/// same shapes in the same order.
pub proof fn lemma_modes_agree(explicit: LayoutModel)
    requires
        explicit.tiles(),
        explicit.lengths_follow_shapes(),
    ensures
        explicit == auto_layout(explicit.vertex_count, explicit.index_count, explicit.shapes()),
    decreases explicit.attributes.len(),
{
    if explicit.attributes.len() == 0 {
        assert(explicit.attributes =~= Seq::<AttributeModel>::empty());
    } else {
        lemma_without_last(explicit);
        lemma_modes_agree(without_last(explicit));
    }
}

/// A layout as in [`lemma_modes_agree`] whose offsets and lengths fit 32 bits
/// and whose size fits a `usize` is reached in auto-offset mode by insertions
/// that can each be written down.
pub proof fn lemma_tiling_layout_fits(explicit: LayoutModel)
    requires
        explicit.tiles(),
        explicit.lengths_follow_shapes(),
        explicit.buffer_size <= usize::MAX,
        forall|i: int|
            0 <= i < explicit.attributes.len() ==> (#[trigger] explicit.attributes[i]).offset
                <= u32::MAX && explicit.attributes[i].length <= u32::MAX,
    ensures
        auto_fits(explicit.vertex_count, explicit.index_count, explicit.shapes()),
    decreases explicit.attributes.len(),
{
    if explicit.attributes.len() > 0 {
        let n = explicit.attributes.len() as int;
        let before = without_last(explicit);
        lemma_without_last(explicit);
        assert forall|i: int| 0 <= i < before.attributes.len() implies (#[trigger] before.attributes[i]).offset
            <= u32::MAX && before.attributes[i].length <= u32::MAX by {
            assert(explicit.attributes[i].offset <= u32::MAX);
        }
        assert(explicit.attributes[n - 1].offset <= u32::MAX);
        assert(length_follows_shape(explicit.attributes[n - 1], explicit.vertex_count));
        lemma_tiling_layout_fits(before);
        lemma_modes_agree(before);
    }
}

} // verus!
