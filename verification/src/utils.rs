//! The metadata of a decoded mesh: element types, attribute segments and the
//! layout of the whole buffer.

use vstd::prelude::*;
use vstd::std_specs::cmp::PartialEqSpecImpl;

use crate::layout::{
    adjoins, data_type_of_code, element_size, index_segment_length, lemma_push_auto_tiles,
    lemma_tiles_offsets, lemma_total_length_push, total_length, AttributeModel, DecodedMeshModel,
    LayoutModel,
};

verus! {

/// Data types for mesh attributes.
#[derive(Debug, Clone, Copy, PartialEq, Eq, Structural)]
pub enum AttributeDataType {
    /// Signed 8-bit integer
    Int8,
    /// Unsigned 8-bit integer
    UInt8,
    /// Signed 16-bit integer
    Int16,
    /// Unsigned 16-bit integer
    UInt16,
    /// Signed 32-bit integer
    Int32,
    /// Unsigned 32-bit integer
    UInt32,
    /// 32-bit floating point
    Float32,
}

impl AttributeDataType {
    /// Returns the size in bytes of this data type.
    pub fn size_in_bytes(&self) -> (size: usize)
        ensures
            size == element_size(*self),
    {
        match self {
            AttributeDataType::Int8 | AttributeDataType::UInt8 => 1,
            AttributeDataType::Int16 | AttributeDataType::UInt16 => 2,
            AttributeDataType::Int32 | AttributeDataType::UInt32 | AttributeDataType::Float32 => 4,
        }
    }

    /// Returns the data type that a numeric code names, if it names one.
    ///
    /// The codes run from 0 to 6 in the order of the variants.
    pub fn from_code(code: u32) -> (data_type: Option<AttributeDataType>)
        ensures
            data_type == data_type_of_code(code as int),
    {
        match code {
            0 => Some(AttributeDataType::Int8),
            1 => Some(AttributeDataType::UInt8),
            2 => Some(AttributeDataType::Int16),
            3 => Some(AttributeDataType::UInt16),
            4 => Some(AttributeDataType::Int32),
            5 => Some(AttributeDataType::UInt32),
            6 => Some(AttributeDataType::Float32),
            _ => None,
        }
    }
}

/// Describes a single attribute in a decoded mesh.
///
/// An attribute represents per-vertex data such as positions, normals, or texture coordinates.
#[derive(Copy, Clone, Debug, PartialEq, Eq, Structural)]
pub struct MeshAttribute {
    dim: u32,
    data_type: AttributeDataType,
    offset: u32,
    lenght: u32,
}

impl View for MeshAttribute {
    type V = AttributeModel;

    closed spec fn view(&self) -> AttributeModel {
        AttributeModel {
            dim: self.dim as nat,
            data_type: self.data_type,
            offset: self.offset as nat,
            length: self.lenght as nat,
        }
    }
}

impl MeshAttribute {
    /// Creates a new mesh attribute.
    ///
    /// # Arguments
    ///
    /// * `dim` - Number of components per vertex (e.g., 3 for XYZ positions)
    /// * `data_type` - The data type of each component
    /// * `offset` - Byte offset in the decoded buffer where this attribute starts
    /// * `lenght` - Total byte length of this attribute data
    pub fn new(dim: u32, data_type: AttributeDataType, offset: u32, lenght: u32) -> (attribute: Self)
        ensures
            attribute@ == (AttributeModel {
                dim: dim as nat,
                data_type,
                offset: offset as nat,
                length: lenght as nat,
            }),
    {
        Self { dim, data_type, offset, lenght }
    }

    /// Returns the byte offset of this attribute in the decoded buffer.
    pub fn offset(&self) -> (offset: u32)
        ensures
            offset == self@.offset,
    {
        self.offset
    }

    /// Returns the total byte length of this attribute data.
    pub fn lenght(&self) -> (lenght: u32)
        ensures
            lenght == self@.length,
    {
        self.lenght
    }

    /// Returns the data type of this attribute.
    pub fn data_type(&self) -> (data_type: AttributeDataType)
        ensures
            data_type == self@.data_type,
    {
        self.data_type
    }

    /// Returns the number of components per vertex.
    pub fn dim(&self) -> (dim: u32)
        ensures
            dim == self@.dim,
    {
        self.dim
    }
}

/// Configuration and metadata for a decoded Draco mesh.
///
/// This struct contains all the information needed to interpret the decoded
/// mesh buffer, including vertex count, index count, and attribute layouts.
///
/// A config is built in one of two ways, which are not meant to be mixed on
/// one value: from [`DracoDecodeConfig::new`] by [`DracoDecodeConfig::add_attribute`],
/// which derives every offset and length, or from
/// [`DracoDecodeConfig::with_buffer_size`] by
/// [`DracoDecodeConfig::add_attribute_with_offset`], which records them as given.
#[derive(Debug, Eq)]
pub struct DracoDecodeConfig {
    vertex_count: u32,
    index_count: u32,
    index_length: u32,
    buffer_size: usize,
    attributes: Vec<MeshAttribute>,
}

impl View for DracoDecodeConfig {
    type V = LayoutModel;

    closed spec fn view(&self) -> LayoutModel {
        LayoutModel {
            vertex_count: self.vertex_count as nat,
            index_count: self.index_count as nat,
            buffer_size: self.buffer_size as nat,
            attributes: self.attributes@.map_values(|a: MeshAttribute| a@),
        }
    }
}

impl PartialEq for DracoDecodeConfig {
    /// Two configs are equal when they describe the same layout: the same
    /// counts, the same size, and the same attributes in the same order.
    fn eq(&self, other: &Self) -> (equal: bool) {
        if self.vertex_count != other.vertex_count || self.index_count != other.index_count
            || self.buffer_size != other.buffer_size {
            return false;
        }
        if self.attributes.len() != other.attributes.len() {
            assert(self@.attributes.len() != other@.attributes.len());
            return false;
        }
        let mut i: usize = 0;
        while i < self.attributes.len()
            invariant
                i <= self.attributes.len(),
                self.attributes.len() == other.attributes.len(),
                forall|j: int| 0 <= j < i ==> self.attributes@[j] == other.attributes@[j],
            decreases self.attributes.len() - i,
        {
            if self.attributes[i] != other.attributes[i] {
                assert(self@.attributes[i as int] != other@.attributes[i as int]);
                return false;
            }
            i = i + 1;
        }
        assert(self@.attributes =~= other@.attributes);
        true
    }
}

impl PartialEqSpecImpl for DracoDecodeConfig {
    open spec fn obeys_eq_spec() -> bool {
        true
    }

    open spec fn eq_spec(&self, other: &Self) -> bool {
        self@ == other@
    }
}

/// The largest index count a config can hold: beyond it the length of the
/// index segment no longer fits the 32 bits it is stored in.
pub const MAX_INDEX_COUNT: u32 = 0x3FFF_FFFF;

/// Byte length of the index segment for `index_count` indices.
fn index_length_for(index_count: u32) -> (index_length: u32)
    requires
        index_count <= MAX_INDEX_COUNT,
    ensures
        index_length == index_segment_length(index_count as nat),
{
    if index_count <= 0xFFFF {
        index_count * 2
    } else {
        index_count * 4
    }
}

impl DracoDecodeConfig {
    /// The stored length of the index segment is always the one the index
    /// count determines, and the count is one for which that length fits.
    #[verifier::type_invariant]
    spec fn index_length_is_derived(&self) -> bool {
        &&& self.index_count <= MAX_INDEX_COUNT
        &&& self.index_length as nat == index_segment_length(self.index_count as nat)
    }

    /// Appends `attribute` after the ones already held; nothing else changes.
    ///
    /// The list is moved out while it grows, so that the config is whole at
    /// every point where the push could unwind.
    fn append(&mut self, attribute: MeshAttribute)
        ensures
            final(self)@ == old(self)@.push_explicit(attribute@),
    {
        proof {
            use_type_invariant(&*self);
        }
        let mut attributes: Vec<MeshAttribute> = Vec::new();
        std::mem::swap(&mut attributes, &mut self.attributes);
        attributes.push(attribute);
        std::mem::swap(&mut attributes, &mut self.attributes);
        assert(self@.attributes =~= old(self)@.attributes.push(attribute@));
    }

    /// Creates a new config with the given vertex and index counts.
    ///
    /// The `buffer_size` is automatically initialized to the size required
    /// for indices based on whether 16-bit or 32-bit indices are needed.
    ///
    /// # Arguments
    ///
    /// * `vertex_count` - Number of vertices in the mesh
    /// * `index_count` - Number of indices in the mesh, at most [`MAX_INDEX_COUNT`]
    pub fn new(vertex_count: u32, index_count: u32) -> (config: Self)
        requires
            index_count <= MAX_INDEX_COUNT,
        ensures
            config@ == LayoutModel::start(vertex_count as nat, index_count as nat),
            config@.tiles(),
    {
        let index_length: u32 = index_length_for(index_count);
        let config = Self {
            vertex_count,
            index_count,
            index_length,
            buffer_size: index_length as usize,
            attributes: Vec::new(),
        };
        assert(config@.attributes =~= Seq::<AttributeModel>::empty());
        config
    }

    /// Creates a new config with a pre-computed buffer size.
    ///
    /// Used when the decode engine reports the total size itself. The index
    /// count is at most [`MAX_INDEX_COUNT`].
    pub fn with_buffer_size(vertex_count: u32, index_count: u32, buffer_size: usize) -> (config: Self)
        requires
            index_count <= MAX_INDEX_COUNT,
        ensures
            config@ == LayoutModel::sized(vertex_count as nat, index_count as nat, buffer_size as nat),
    {
        let index_length: u32 = index_length_for(index_count);
        let config = Self { vertex_count, index_count, index_length, buffer_size, attributes: Vec::new() };
        assert(config@.attributes =~= Seq::<AttributeModel>::empty());
        config
    }

    /// Returns the total byte length of the index data.
    pub fn index_length(&self) -> (index_length: u32)
        ensures
            index_length == self@.index_length(),
            self@.index_count <= 65535 ==> index_length == self@.index_count * 2,
            self@.index_count > 65535 ==> index_length == self@.index_count * 4,
    {
        proof {
            use_type_invariant(self);
        }
        self.index_length
    }

    /// Tells whether [`DracoDecodeConfig::add_attribute`] may be called with
    /// these arguments: whether the offset and the length of the new segment
    /// fit 32 bits and the grown buffer size fits a `usize`.
    pub fn can_add_attribute(&self, dim: u32, data_type: AttributeDataType) -> (ok: bool)
        ensures
            ok == self@.fits(dim as nat, data_type),
    {
        let size: u32 = data_type.size_in_bytes() as u32;
        if self.buffer_size > u32::MAX as usize {
            return false;
        }
        proof {
            lemma_product_bounds(dim as nat, self.vertex_count as nat, size as nat);
        }
        match dim.checked_mul(self.vertex_count) {
            None => false,
            Some(elements) => match elements.checked_mul(size) {
                None => false,
                Some(length) => length as usize <= usize::MAX - self.buffer_size,
            },
        }
    }

    /// Tells whether the attribute segments tile the buffer behind the index
    /// segment: the first starts where the index segment ends, each next one
    /// where the one before it ends, and the last ends where the buffer ends.
    ///
    /// Every config built by [`DracoDecodeConfig::new`] and
    /// [`DracoDecodeConfig::add_attribute`] alone is tiled. One that holds
    /// what an engine reported is tiled if the report is.
    pub fn is_tiled(&self) -> (tiled: bool)
        ensures
            tiled == self@.tiles(),
    {
        proof {
            use_type_invariant(self);
        }
        let ghost layout = self@;
        let mut end: u64 = self.index_length as u64;
        let mut i: usize = 0;
        assert(layout.attributes.take(0) =~= Seq::<AttributeModel>::empty());
        while i < self.attributes.len()
            invariant
                i <= self.attributes.len(),
                layout == self@,
                end <= 2 * u32::MAX,
                end == layout.index_length() + total_length(layout.attributes.take(i as int)),
                i > 0 ==> layout.attributes[0].offset == layout.index_length(),
                i > 0 ==> layout.attributes[i - 1].end() == end,
                forall|j: int| 0 <= j < i - 1 ==> #[trigger] adjoins(layout.attributes, j),
            decreases self.attributes.len() - i,
        {
            let attribute = self.attributes[i];
            assert(attribute@ == layout.attributes[i as int]);
            if attribute.offset as u64 != end {
                proof {
                    if layout.tiles() {
                        lemma_tiles_offsets(layout, i as int);
                    }
                }
                return false;
            }
            proof {
                assert(layout.attributes.take(i + 1) =~= layout.attributes.take(i as int).push(
                    layout.attributes[i as int],
                ));
                lemma_total_length_push(layout.attributes.take(i as int), layout.attributes[i as int]);
                if i > 0 {
                    assert(adjoins(layout.attributes, i - 1));
                }
            }
            end = attribute.offset as u64 + attribute.lenght as u64;
            i = i + 1;
        }
        assert(layout.attributes.take(i as int) =~= layout.attributes);
        end == self.buffer_size as u64
    }

    /// Adds an attribute with automatically calculated offset and length.
    ///
    /// The offset is calculated based on the current buffer size,
    /// and the buffer size is updated to include this attribute.
    ///
    /// # Arguments
    ///
    /// * `dim` - Number of components per vertex
    /// * `data_type` - The data type of each component
    pub fn add_attribute(&mut self, dim: u32, data_type: AttributeDataType)
        requires
            old(self)@.fits(dim as nat, data_type),
        ensures
            final(self)@ == old(self)@.push_auto(dim as nat, data_type),
            old(self)@.tiles() ==> final(self)@.tiles(),
    {
        proof {
            use_type_invariant(&*self);
            lemma_product_bounds(dim as nat, self.vertex_count as nat, element_size(data_type));
            if self@.tiles() {
                lemma_push_auto_tiles(self@, dim as nat, data_type);
            }
        }
        let offset: u32 = self.buffer_size as u32;
        let length: u32 = dim * self.vertex_count * (data_type.size_in_bytes() as u32);
        self.append(MeshAttribute { dim, data_type, offset, lenght: length });
        proof {
            use_type_invariant(&*self);
        }
        self.buffer_size = self.buffer_size + length as usize;
    }

    /// Adds an attribute with explicitly specified offset and length.
    ///
    /// Used when the decode engine reports where each attribute lies.
    pub fn add_attribute_with_offset(
        &mut self,
        dim: u32,
        data_type: AttributeDataType,
        offset: u32,
        length: u32,
    )
        ensures
            final(self)@ == old(self)@.push_explicit(
                AttributeModel {
                    dim: dim as nat,
                    data_type,
                    offset: offset as nat,
                    length: length as nat,
                },
            ),
    {
        self.append(MeshAttribute { dim, data_type, offset, lenght: length });
    }

    /// Sets the total buffer size.
    pub fn set_buffer_size(&mut self, size: usize)
        ensures
            final(self)@ == old(self)@.resized(size as nat),
    {
        proof {
            use_type_invariant(&*self);
        }
        self.buffer_size = size;
    }

    /// Returns the attribute at the given index, if it exists.
    pub fn get_attribute(&self, index: usize) -> (attribute: Option<&MeshAttribute>)
        ensures
            index < self@.attributes.len() ==> attribute.is_some() && attribute.unwrap()@
                == self@.attributes[index as int],
            index >= self@.attributes.len() ==> attribute.is_none(),
    {
        if index < self.attributes.len() {
            Some(&self.attributes[index])
        } else {
            None
        }
    }

    /// Returns a vector of all attributes.
    pub fn attributes(&self) -> (attributes: Vec<MeshAttribute>)
        ensures
            attributes@.map_values(|a: MeshAttribute| a@) == self@.attributes,
    {
        let mut attributes: Vec<MeshAttribute> = Vec::new();
        let mut i: usize = 0;
        while i < self.attributes.len()
            invariant
                i <= self.attributes.len(),
                attributes@ == self.attributes@.take(i as int),
            decreases self.attributes.len() - i,
        {
            attributes.push(self.attributes[i]);
            assert(self.attributes@.take(i + 1) =~= self.attributes@.take(i as int).push(
                self.attributes@[i as int],
            ));
            i = i + 1;
        }
        assert(self.attributes@.take(i as int) =~= self.attributes@);
        attributes
    }

    /// Returns the number of vertices in the mesh.
    pub fn vertex_count(&self) -> (vertex_count: u32)
        ensures
            vertex_count == self@.vertex_count,
    {
        self.vertex_count
    }

    /// Returns the number of indices in the mesh.
    pub fn index_count(&self) -> (index_count: u32)
        ensures
            index_count == self@.index_count,
            index_count <= MAX_INDEX_COUNT,
    {
        proof {
            use_type_invariant(self);
        }
        self.index_count
    }

    /// Returns the total buffer size required for the decoded mesh.
    pub fn buffer_size(&self) -> (buffer_size: usize)
        ensures
            buffer_size == self@.buffer_size,
    {
        self.buffer_size
    }

    /// Returns the estimated buffer size for the decoded mesh.
    ///
    /// This is an alias for `buffer_size()`.
    pub fn estimate_buffer_size(&self) -> (buffer_size: usize)
        ensures
            buffer_size == self@.buffer_size,
    {
        self.buffer_size
    }
}

/// Result of decoding a Draco mesh.
///
/// Contains the decoded mesh buffer and metadata describing its layout.
#[derive(Debug)]
pub struct MeshDecodeResult {
    /// The decoded mesh buffer containing indices and attribute data.
    pub data: Vec<u8>,
    /// Metadata describing the mesh structure and attribute layouts.
    pub config: DracoDecodeConfig,
}

impl View for MeshDecodeResult {
    type V = DecodedMeshModel;

    open spec fn view(&self) -> DecodedMeshModel {
        DecodedMeshModel { data: self.data@, layout: self.config@ }
    }
}

/// With factors that cannot be negative and a last factor of at least one, a
/// product of three is no smaller than the product of the first two.
proof fn lemma_product_bounds(a: nat, b: nat, c: nat)
    requires
        c >= 1,
    ensures
        a * b <= a * b * c,
{
    assert(a * b <= a * b * c) by (nonlinear_arith)
        requires
            c >= 1,
            a * b >= 0,
    ;
}

} // verus!
