//! The in-process decode: what the engine reports, and what a session does
//! with each of its answers.
//!
//! The engine itself is out of reach of this crate. A session asks for one
//! thing at a time ([`EngineRequest`]); whoever holds the engine performs the
//! request and hands back what came of it ([`EngineEvent`]); and
//! [`native_decode_step`] decides what follows.

use vstd::prelude::*;

use crate::error::{DecodeError, DecodeStage};
use crate::layout::{
    all_name_types, data_type_of_code, total_length, AttributeModel, DecodedMeshModel, LayoutModel,
    ReportedShape,
};
use crate::utils::{AttributeDataType, DracoDecodeConfig, MeshDecodeResult, MAX_INDEX_COUNT};

verus! {

/// One attribute as the engine reports it: the element type is still a
/// numeric code, which may name no type, and offset and length are the
/// engine's own.
#[derive(Debug, Clone, Copy, PartialEq, Eq)]
pub struct RawMeshAttribute {
    pub dim: u32,
    pub data_type: u32,
    pub offset: u32,
    pub length: u32,
    pub unique_id: u32,
}

/// The metadata of a mesh as the engine reports it.
#[derive(Debug, PartialEq, Eq)]
pub struct RawMeshConfig {
    pub vertex_count: u32,
    pub index_count: u32,
    pub index_length: u32,
    pub buffer_size: usize,
    pub attributes: Vec<RawMeshAttribute>,
}

/// The view of a [`RawMeshAttribute`]. The attribute id that the engine adds
/// is not part of it.
pub struct RawAttributeModel {
    pub dim: nat,
    pub code: int,
    pub offset: nat,
    pub length: nat,
}

impl RawAttributeModel {
    /// The shape that the engine reports, with the type code as given.
    pub open spec fn reported_shape(self) -> ReportedShape {
        ReportedShape { dim: self.dim, code: self.code }
    }

    /// The segment that the report describes, taken at its word, where the
    /// code names a type.
    pub open spec fn segment(self) -> AttributeModel
        recommends
            self.reported_shape().names_type(),
    {
        AttributeModel {
            dim: self.dim,
            data_type: data_type_of_code(self.code).unwrap(),
            offset: self.offset,
            length: self.length,
        }
    }
}

/// The view of a [`RawMeshConfig`]. The index length that the engine adds is
/// not part of it: a config derives its own.
pub struct RawConfigModel {
    pub vertex_count: nat,
    pub index_count: nat,
    pub buffer_size: nat,
    pub attributes: Seq<RawAttributeModel>,
}

impl RawConfigModel {
    /// The shapes that the engine reports, in order, with the type codes as
    /// given.
    pub open spec fn reported_shapes(self) -> Seq<ReportedShape> {
        self.attributes.map_values(|a: RawAttributeModel| a.reported_shape())
    }
}

impl View for RawMeshAttribute {
    type V = RawAttributeModel;

    open spec fn view(&self) -> RawAttributeModel {
        RawAttributeModel {
            dim: self.dim as nat,
            code: self.data_type as int,
            offset: self.offset as nat,
            length: self.length as nat,
        }
    }
}

impl View for RawMeshConfig {
    type V = RawConfigModel;

    open spec fn view(&self) -> RawConfigModel {
        RawConfigModel {
            vertex_count: self.vertex_count as nat,
            index_count: self.index_count as nat,
            buffer_size: self.buffer_size as nat,
            attributes: self.attributes@.map_values(|a: RawMeshAttribute| a@),
        }
    }
}

/// The layout that an engine report describes, taken at its word: counts,
/// total size, and every attribute with the offset and length given. A report
/// of more indices than a config can hold, or with a type code that names no
/// type, describes none.
pub open spec fn reported_layout(report: RawConfigModel) -> Result<LayoutModel, DecodeError> {
    if report.index_count <= MAX_INDEX_COUNT && all_name_types(report.reported_shapes()) {
        Ok(
            LayoutModel {
                vertex_count: report.vertex_count,
                index_count: report.index_count,
                buffer_size: report.buffer_size,
                attributes: report.attributes.map_values(|a: RawAttributeModel| a.segment()),
            },
        )
    } else {
        Err(DecodeError::ConfigComputationFailed)
    }
}

/// Tells whether [`convert_config`] may be called on `raw`: whether the
/// report describes a layout.
pub fn can_convert_config(raw: &RawMeshConfig) -> (ok: bool)
    ensures
        ok == reported_layout(raw@) is Ok,
{
    if raw.index_count > MAX_INDEX_COUNT {
        return false;
    }
    let mut i: usize = 0;
    while i < raw.attributes.len()
        invariant
            i <= raw.attributes.len(),
            forall|j: int| 0 <= j < i ==> (#[trigger] raw@.reported_shapes()[j]).names_type(),
        decreases raw.attributes.len() - i,
    {
        if AttributeDataType::from_code(raw.attributes[i].data_type).is_none() {
            assert(!raw@.reported_shapes()[i as int].names_type());
            return false;
        }
        i = i + 1;
    }
    true
}

/// Builds the config that an engine report describes, in explicit mode:
/// counts, total size, and every attribute with the offset and length given.
pub fn convert_config(raw: RawMeshConfig) -> (config: DracoDecodeConfig)
    requires
        reported_layout(raw@) is Ok,
    ensures
        reported_layout(raw@) == Ok::<LayoutModel, DecodeError>(config@),
{
    let mut config = DracoDecodeConfig::with_buffer_size(
        raw.vertex_count,
        raw.index_count,
        raw.buffer_size,
    );
    let ghost layout = reported_layout(raw@).unwrap();
    let mut i: usize = 0;
    assert(layout.attributes.take(0) =~= Seq::<AttributeModel>::empty());
    while i < raw.attributes.len()
        invariant
            i <= raw.attributes.len(),
            reported_layout(raw@) == Ok::<LayoutModel, DecodeError>(layout),
            config@ == (LayoutModel { attributes: layout.attributes.take(i as int), ..layout }),
        decreases raw.attributes.len() - i,
    {
        let attribute = raw.attributes[i];
        assert(raw@.reported_shapes()[i as int].names_type());
        assert(layout.attributes[i as int] == attribute@.segment());
        // every code names a type here: the report describes a layout
        if let Some(data_type) = AttributeDataType::from_code(attribute.data_type) {
            config.add_attribute_with_offset(
                attribute.dim,
                data_type,
                attribute.offset,
                attribute.length,
            );
        }
        assert(layout.attributes.take(i + 1) =~= layout.attributes.take(i as int).push(
            layout.attributes[i as int],
        ));
        i = i + 1;
    }
    assert(layout.attributes.take(i as int) =~= layout.attributes);
    config
}

/// The bytes that a decode leaves: the part of `buffer` that was written.
pub open spec fn written_part(buffer: Seq<u8>, bytes_written: nat) -> Seq<u8> {
    if bytes_written <= buffer.len() {
        buffer.take(bytes_written as int)
    } else {
        buffer
    }
}

/// The mesh that a decode into `buffer` leaves under `layout`: the written
/// part of the buffer, and the layout with that part's length as its size.
pub open spec fn decoded_mesh(layout: LayoutModel, buffer: Seq<u8>, bytes_written: nat) -> DecodedMeshModel {
    DecodedMeshModel {
        data: written_part(buffer, bytes_written),
        layout: layout.resized(written_part(buffer, bytes_written).len()),
    }
}

/// What the end of a decode into `buffer` comes to. No byte written is a
/// failure; else the mesh is the written part under its layout.
pub open spec fn decode_outcome(layout: LayoutModel, buffer: Seq<u8>, bytes_written: nat) -> Result<
    DecodedMeshModel,
    DecodeError,
> {
    if bytes_written == 0 {
        Err(DecodeError::DecodeInputInvalid { stage: DecodeStage::BufferDecode })
    } else {
        Ok(decoded_mesh(layout, buffer, bytes_written))
    }
}

/// The view of a decode's outcome.
pub open spec fn outcome_view(outcome: Result<MeshDecodeResult, DecodeError>) -> Result<
    DecodedMeshModel,
    DecodeError,
> {
    match outcome {
        Ok(mesh) => Ok(mesh@),
        Err(error) => Err(error),
    }
}

/// Ends a decode: cuts `buffer` down to the bytes the engine wrote and pairs
/// it with `config`, whose size becomes the length that is left. An engine
/// that wrote nothing has failed.
pub fn finish_decode(config: DracoDecodeConfig, buffer: Vec<u8>, bytes_written: usize) -> (outcome: Result<
    MeshDecodeResult,
    DecodeError,
>)
    ensures
        outcome_view(outcome) == decode_outcome(config@, buffer@, bytes_written as nat),
        outcome matches Ok(mesh) ==> mesh@.is_consistent(),
        outcome matches Ok(mesh) ==> (config@.tiles() && buffer@.len() == config@.buffer_size
            && bytes_written >= buffer@.len() ==> mesh@.layout == config@ && mesh@.layout.tiles()),
{
    proof {
        if config@.tiles() && buffer@.len() == config@.buffer_size && bytes_written >= buffer@.len()
            && bytes_written > 0 {
            lemma_filled_buffer_adds_up(config@, buffer@, bytes_written as nat);
        }
    }
    if bytes_written == 0 {
        return Err(DecodeError::DecodeInputInvalid { stage: DecodeStage::BufferDecode });
    }
    let mut data = buffer;
    data.truncate(bytes_written);
    let mut config = config;
    config.set_buffer_size(data.len());
    Ok(MeshDecodeResult { data, config })
}

/// Where the engine's report adds up and the engine fills the buffer it was
/// handed, the mesh adds up. If the segments of `layout` tile the buffer, the
/// buffer is as long as `layout` says and all of it was written, then the
/// decode ends in a mesh of exactly those bytes under exactly that layout:
/// its size is the length of the index segment and the lengths of all the
/// attributes together.
pub proof fn lemma_filled_buffer_adds_up(layout: LayoutModel, buffer: Seq<u8>, bytes_written: nat)
    requires
        layout.tiles(),
        buffer.len() == layout.buffer_size,
        bytes_written >= buffer.len(),
        bytes_written > 0,
    ensures
        decode_outcome(layout, buffer, bytes_written) == Ok::<DecodedMeshModel, DecodeError>(
            DecodedMeshModel { data: buffer, layout },
        ),
        layout.buffer_size == layout.index_length() + total_length(layout.attributes),
        buffer.len() == layout.index_length() + total_length(layout.attributes),
{
    assert(buffer.take(buffer.len() as int) =~= buffer);
}

/// Bytes in one decoded point: three 32-bit floats, x, y and z.
pub const POINT_SIZE: usize = 12;

/// What the engine's answer to a point-cloud decode comes to: the bytes as
/// they are if they make up whole points, at least one; else a failure.
pub open spec fn point_cloud_outcome(decoded: Seq<u8>) -> Result<Seq<u8>, DecodeError> {
    if decoded.len() > 0 && decoded.len() % 12 == 0 {
        Ok(decoded)
    } else {
        Err(DecodeError::DecodeInputInvalid { stage: DecodeStage::BufferDecode })
    }
}

/// The view of a point-cloud decode's outcome.
pub open spec fn points_view(outcome: Result<Vec<u8>, DecodeError>) -> Result<Seq<u8>, DecodeError> {
    match outcome {
        Ok(points) => Ok(points@),
        Err(error) => Err(error),
    }
}

/// Takes the bytes that the engine decoded a point cloud into. They pass
/// unchanged if they are whole points, twelve bytes each; an engine that left
/// nothing, or a part of a point, has failed.
pub fn accept_point_cloud(decoded: Vec<u8>) -> (outcome: Result<Vec<u8>, DecodeError>)
    ensures
        points_view(outcome) == point_cloud_outcome(decoded@),
{
    if decoded.len() > 0 && decoded.len() % POINT_SIZE == 0 {
        Ok(decoded)
    } else {
        Err(DecodeError::DecodeInputInvalid { stage: DecodeStage::BufferDecode })
    }
}

/// What a session asks of the engine.
#[derive(Debug)]
pub enum EngineRequest<'a> {
    /// Make a mesh handle from the encoded bytes `data`.
    CreateMesh { data: &'a [u8] },
    /// Report counts, total size and attributes of the mesh behind the handle.
    ComputeConfig,
    /// Decode the mesh into `buffer` and report how many bytes were written.
    DecodeToBuffer { buffer: Vec<u8> },
}

/// What came of a request.
#[derive(Debug)]
pub enum EngineEvent {
    /// The engine answered `CreateMesh`; a null handle means it could not.
    HandleCreated { is_null: bool },
    /// The engine answered `ComputeConfig`, with success or without.
    ConfigComputed { success: bool, config: RawMeshConfig },
    /// The engine answered `DecodeToBuffer`: the buffer as it left it, and
    /// the number of bytes it wrote.
    BufferDecoded { buffer: Vec<u8>, bytes_written: usize },
}

/// Where a session stands: which answer it waits for, and what it holds.
#[derive(Debug)]
pub enum NativeDecodeState {
    /// `CreateMesh` is out; nothing is held yet.
    AwaitingHandle,
    /// `ComputeConfig` is out; the engine holds a mesh.
    AwaitingConfig,
    /// `DecodeToBuffer` is out; `config` is what the engine reported.
    AwaitingBuffer { config: DracoDecodeConfig },
}

/// What a session does on an event: go on with a new request, or end.
#[derive(Debug)]
pub enum NativeDecodeStep<'a> {
    /// The session goes on in `state`; `request` is to be asked of the engine.
    Continue { state: NativeDecodeState, request: EngineRequest<'a> },
    /// The session is over, with a mesh or with the reason why there is none.
    Done { outcome: Result<MeshDecodeResult, DecodeError> },
}

/// The view of an [`EngineRequest`].
pub enum EngineRequestModel {
    CreateMesh { data: Seq<u8> },
    ComputeConfig,
    DecodeToBuffer { buffer: Seq<u8> },
}

/// The view of an [`EngineEvent`].
pub enum EngineEventModel {
    HandleCreated { is_null: bool },
    ConfigComputed { success: bool, report: RawConfigModel },
    BufferDecoded { buffer: Seq<u8>, bytes_written: nat },
}

/// The view of a [`NativeDecodeState`].
pub enum NativeStateModel {
    AwaitingHandle,
    AwaitingConfig,
    AwaitingBuffer { layout: LayoutModel },
}

/// The view of a [`NativeDecodeStep`].
pub enum NativeStepModel {
    Continue { state: NativeStateModel, request: EngineRequestModel },
    Done { outcome: Result<DecodedMeshModel, DecodeError> },
}

impl<'a> View for EngineRequest<'a> {
    type V = EngineRequestModel;

    open spec fn view(&self) -> EngineRequestModel {
        match *self {
            EngineRequest::CreateMesh { data } => EngineRequestModel::CreateMesh { data: data@ },
            EngineRequest::ComputeConfig => EngineRequestModel::ComputeConfig,
            EngineRequest::DecodeToBuffer { buffer } => EngineRequestModel::DecodeToBuffer {
                buffer: buffer@,
            },
        }
    }
}

impl View for EngineEvent {
    type V = EngineEventModel;

    open spec fn view(&self) -> EngineEventModel {
        match *self {
            EngineEvent::HandleCreated { is_null } => EngineEventModel::HandleCreated { is_null },
            EngineEvent::ConfigComputed { success, config } => EngineEventModel::ConfigComputed {
                success,
                report: config@,
            },
            EngineEvent::BufferDecoded { buffer, bytes_written } => EngineEventModel::BufferDecoded {
                buffer: buffer@,
                bytes_written: bytes_written as nat,
            },
        }
    }
}

impl View for NativeDecodeState {
    type V = NativeStateModel;

    open spec fn view(&self) -> NativeStateModel {
        match *self {
            NativeDecodeState::AwaitingHandle => NativeStateModel::AwaitingHandle,
            NativeDecodeState::AwaitingConfig => NativeStateModel::AwaitingConfig,
            NativeDecodeState::AwaitingBuffer { config } => NativeStateModel::AwaitingBuffer {
                layout: config@,
            },
        }
    }
}

impl<'a> View for NativeDecodeStep<'a> {
    type V = NativeStepModel;

    open spec fn view(&self) -> NativeStepModel {
        match *self {
            NativeDecodeStep::Continue { state, request } => NativeStepModel::Continue {
                state: state@,
                request: request@,
            },
            NativeDecodeStep::Done { outcome } => NativeStepModel::Done { outcome: outcome_view(outcome) },
        }
    }
}

/// A buffer of `len` zero bytes.
pub open spec fn zeroed(len: nat) -> Seq<u8> {
    Seq::new(len, |i: int| 0u8)
}

/// The rule of the in-process decode.
///
/// A session waits for one answer at a time. The answer it waits for, if it
/// is a good one, leads to the next request or to the mesh; anything else
/// ends the session with the failure of the step it was at:
/// - waiting for the handle: a handle that is not null leads to
///   `ComputeConfig`;
/// - waiting for the config: a report of success that describes a layout
///   (see [`reported_layout`]) leads to `DecodeToBuffer`, with a zeroed
///   buffer of exactly the size reported, and the session keeps the layout
///   reported;
/// - waiting for the buffer: a count of bytes written that is not zero ends
///   the session with the written part of the buffer as the mesh.
pub open spec fn native_step(state: NativeStateModel, event: EngineEventModel) -> NativeStepModel {
    match state {
        NativeStateModel::AwaitingHandle => match event {
            EngineEventModel::HandleCreated { is_null: false } => NativeStepModel::Continue {
                state: NativeStateModel::AwaitingConfig,
                request: EngineRequestModel::ComputeConfig,
            },
            _ => NativeStepModel::Done {
                outcome: Err(DecodeError::DecodeInputInvalid { stage: DecodeStage::HandleCreation }),
            },
        },
        NativeStateModel::AwaitingConfig => match event {
            EngineEventModel::ConfigComputed { success: true, report } => match reported_layout(
                report,
            ) {
                Ok(layout) => NativeStepModel::Continue {
                    state: NativeStateModel::AwaitingBuffer { layout },
                    request: EngineRequestModel::DecodeToBuffer { buffer: zeroed(layout.buffer_size) },
                },
                Err(error) => NativeStepModel::Done { outcome: Err(error) },
            },
            _ => NativeStepModel::Done { outcome: Err(DecodeError::ConfigComputationFailed) },
        },
        NativeStateModel::AwaitingBuffer { layout } => match event {
            EngineEventModel::BufferDecoded { buffer, bytes_written } => NativeStepModel::Done {
                outcome: decode_outcome(layout, buffer, bytes_written),
            },
            _ => NativeStepModel::Done {
                outcome: Err(DecodeError::DecodeInputInvalid { stage: DecodeStage::BufferDecode }),
            },
        },
    }
}

/// Opens a session on the encoded bytes `data`: it waits for a handle, and
/// the first thing to ask of the engine is to make one from those bytes.
pub fn begin_native_decode<'a>(data: &'a [u8]) -> (start: (NativeDecodeState, EngineRequest<'a>))
    ensures
        start.0@ == NativeStateModel::AwaitingHandle,
        start.1@ == (EngineRequestModel::CreateMesh { data: data@ }),
{
    (NativeDecodeState::AwaitingHandle, EngineRequest::CreateMesh { data })
}

/// Takes a session one event further, by the rule of [`native_step`].
pub fn native_decode_step(
    state: NativeDecodeState,
    event: EngineEvent,
) -> (step: NativeDecodeStep<'static>)
    ensures
        step@ == native_step(state@, event@),
{
    match state {
        NativeDecodeState::AwaitingHandle => match event {
            EngineEvent::HandleCreated { is_null: false } => NativeDecodeStep::Continue {
                state: NativeDecodeState::AwaitingConfig,
                request: EngineRequest::ComputeConfig,
            },
            _ => NativeDecodeStep::Done {
                outcome: Err(DecodeError::DecodeInputInvalid { stage: DecodeStage::HandleCreation }),
            },
        },
        NativeDecodeState::AwaitingConfig => match event {
            EngineEvent::ConfigComputed { success: true, config } => {
                if !can_convert_config(&config) {
                    return NativeDecodeStep::Done { outcome: Err(DecodeError::ConfigComputationFailed) };
                }
                let buffer_size: usize = config.buffer_size;
                let config = convert_config(config);
                let buffer: Vec<u8> = vec![0u8; buffer_size];
                assert(buffer@ =~= zeroed(buffer_size as nat));
                NativeDecodeStep::Continue {
                    state: NativeDecodeState::AwaitingBuffer { config },
                    request: EngineRequest::DecodeToBuffer { buffer },
                }
            },
            _ => NativeDecodeStep::Done { outcome: Err(DecodeError::ConfigComputationFailed) },
        },
        NativeDecodeState::AwaitingBuffer { config } => match event {
            EngineEvent::BufferDecoded { buffer, bytes_written } => NativeDecodeStep::Done {
                outcome: finish_decode(config, buffer, bytes_written),
            },
            _ => NativeDecodeStep::Done {
                outcome: Err(DecodeError::DecodeInputInvalid { stage: DecodeStage::BufferDecode }),
            },
        },
    }
}

/// Whether `step` ends the session without a mesh.
pub open spec fn ends_in_failure(step: NativeStepModel) -> bool {
    step matches NativeStepModel::Done { outcome: Err(_) }
}

/// A session ends in a mesh on one event only: while it waits for the
/// buffer, the report that bytes were written. The mesh then holds written
/// bytes and no others, and it is exactly as long as its layout says.
/// A null handle, a failed config query and a decode that wrote nothing each
/// end the session in a failure.
pub proof fn lemma_mesh_only_from_written_bytes(state: NativeStateModel, event: EngineEventModel)
    ensures
        native_step(state, event) matches NativeStepModel::Done { outcome: Ok(mesh) } ==> {
            &&& state is AwaitingBuffer
            &&& event matches EngineEventModel::BufferDecoded { buffer, bytes_written }
            &&& 0 < bytes_written
            &&& mesh.data.len() <= bytes_written
            &&& mesh.data == buffer.take(mesh.data.len() as int)
            &&& mesh.is_consistent()
        },
        event matches EngineEventModel::HandleCreated { is_null: true } ==> ends_in_failure(
            native_step(state, event),
        ),
        event matches EngineEventModel::ConfigComputed { success: false, .. } ==> ends_in_failure(
            native_step(state, event),
        ),
        event matches EngineEventModel::BufferDecoded { bytes_written, .. } && bytes_written == 0
            ==> ends_in_failure(native_step(state, event)),
{
    if let NativeStepModel::Done { outcome: Ok(mesh) } = native_step(state, event) {
        assert(mesh.data =~= event->buffer.take(mesh.data.len() as int));
    }
}

} // verus!
