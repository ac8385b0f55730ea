//! The off-thread decode: what the worker answers, and what a session does
//! with each of its answers.
//!
//! The worker is reached by messages, which this crate does not send. A
//! session asks for one thing at a time ([`WorkerRequest`]); whoever talks to
//! the worker performs the request and hands back what came of it
//! ([`WorkerEvent`]); and [`worker_decode_step`] decides what follows.

use vstd::prelude::*;

use crate::error::{DecodeError, DecodeStage};
use crate::layout::{
    auto_fits, auto_layout, data_type_of_code, lemma_auto_fits_prefix, lemma_auto_layout_tiles,
    lemma_modes_agree, lemma_tiling_layout_fits, read_shapes, AttributeShape, DecodedMeshModel,
    LayoutModel, ReportedShape,
};
use crate::native::{decode_outcome, outcome_view, reported_layout, RawConfigModel, RawMeshConfig};
use crate::utils::{AttributeDataType, DracoDecodeConfig, MeshDecodeResult, MAX_INDEX_COUNT};

verus! {

/// One attribute as the worker reports it: its shape alone, with the element
/// type still a numeric code, which may name no type.
#[derive(Debug, Clone, Copy, PartialEq, Eq)]
pub struct WorkerAttribute {
    pub dim: u32,
    pub data_type: i32,
}

/// The metadata of a mesh as the worker reports it. It carries no offsets.
#[derive(Debug, PartialEq, Eq)]
pub struct WorkerMeshConfig {
    pub vertex_count: u32,
    pub index_count: u32,
    pub attributes: Vec<WorkerAttribute>,
}

/// The worker's answer to a decode: the decoded bytes and their metadata.
#[derive(Debug, PartialEq, Eq)]
pub struct WorkerResponse {
    pub decoded: Vec<u8>,
    pub config: WorkerMeshConfig,
}

/// The view of a [`WorkerMeshConfig`]: counts, and shapes in the order
/// given, with the type codes as given.
pub struct WorkerConfigModel {
    pub vertex_count: nat,
    pub index_count: nat,
    pub shapes: Seq<ReportedShape>,
}

/// The view of a [`WorkerResponse`].
pub struct WorkerResponseModel {
    pub decoded: Seq<u8>,
    pub config: WorkerConfigModel,
}

impl View for WorkerAttribute {
    type V = ReportedShape;

    open spec fn view(&self) -> ReportedShape {
        ReportedShape { dim: self.dim as nat, code: self.data_type as int }
    }
}

impl View for WorkerMeshConfig {
    type V = WorkerConfigModel;

    open spec fn view(&self) -> WorkerConfigModel {
        WorkerConfigModel {
            vertex_count: self.vertex_count as nat,
            index_count: self.index_count as nat,
            shapes: self.attributes@.map_values(|a: WorkerAttribute| a@),
        }
    }
}

impl View for WorkerResponse {
    type V = WorkerResponseModel;

    open spec fn view(&self) -> WorkerResponseModel {
        WorkerResponseModel { decoded: self.decoded@, config: self.config@ }
    }
}

/// Reads an element type code as the worker writes it: a signed number.
fn read_type_code(code: i32) -> (data_type: Option<AttributeDataType>)
    ensures
        data_type == data_type_of_code(code as int),
{
    if code < 0 {
        None
    } else {
        AttributeDataType::from_code(code as u32)
    }
}

/// The layout that a worker report stands for: the one auto-offset mode
/// derives from its counts and shapes, in the order given. A report of more
/// indices than a config can hold, or with a type code that names no type,
/// stands for none; nor does one in which an offset, a length or the size on
/// the way cannot be written down.
pub open spec fn reconstructed_layout(report: WorkerConfigModel) -> Result<LayoutModel, DecodeError> {
    match read_shapes(report.shapes) {
        Some(shapes) => if report.index_count <= MAX_INDEX_COUNT && auto_fits(
            report.vertex_count,
            report.index_count,
            shapes,
        ) {
            Ok(auto_layout(report.vertex_count, report.index_count, shapes))
        } else {
            Err(DecodeError::ConfigComputationFailed)
        },
        None => Err(DecodeError::ConfigComputationFailed),
    }
}

/// The view of a reconstruction's result.
pub open spec fn config_view(result: Result<DracoDecodeConfig, DecodeError>) -> Result<
    LayoutModel,
    DecodeError,
> {
    match result {
        Ok(config) => Ok(config@),
        Err(error) => Err(error),
    }
}

/// Rebuilds the config of a mesh from a worker report, in auto-offset mode:
/// the attributes are inserted in the order received, and every offset and
/// length is derived.
pub fn reconstruct_config(report: &WorkerMeshConfig) -> (result: Result<DracoDecodeConfig, DecodeError>)
    ensures
        config_view(result) == reconstructed_layout(report@),
        result matches Ok(config) ==> config@.tiles(),
{
    if report.index_count > MAX_INDEX_COUNT {
        return Err(DecodeError::ConfigComputationFailed);
    }
    let mut config = DracoDecodeConfig::new(report.vertex_count, report.index_count);
    let ghost vc = report.vertex_count as nat;
    let ghost ic = report.index_count as nat;
    let ghost reported = report@.shapes;
    let ghost shapes = reported.map_values(|r: ReportedShape| r.shape());
    let mut i: usize = 0;
    assert(shapes.take(0) =~= Seq::<AttributeShape>::empty());
    while i < report.attributes.len()
        invariant
            i <= report.attributes.len(),
            vc == report.vertex_count,
            ic == report.index_count,
            reported == report@.shapes,
            shapes == reported.map_values(|r: ReportedShape| r.shape()),
            forall|j: int| 0 <= j < i ==> (#[trigger] reported[j]).names_type(),
            auto_fits(vc, ic, shapes.take(i as int)),
            config@ == auto_layout(vc, ic, shapes.take(i as int)),
        decreases report.attributes.len() - i,
    {
        let attribute = report.attributes[i];
        assert(reported[i as int] == attribute@);
        let data_type = match read_type_code(attribute.data_type) {
            Some(data_type) => data_type,
            None => {
                assert(!reported[i as int].names_type());
                return Err(DecodeError::ConfigComputationFailed);
            },
        };
        assert(shapes.take(i + 1).drop_last() =~= shapes.take(i as int));
        assert(shapes.take(i + 1).last() == attribute@.shape());
        if !config.can_add_attribute(attribute.dim, data_type) {
            proof {
                if auto_fits(vc, ic, shapes) {
                    lemma_auto_fits_prefix(vc, ic, shapes, i + 1);
                }
            }
            return Err(DecodeError::ConfigComputationFailed);
        }
        config.add_attribute(attribute.dim, data_type);
        i = i + 1;
    }
    assert(shapes.take(i as int) =~= shapes);
    proof {
        lemma_auto_layout_tiles(vc, ic, shapes);
    }
    Ok(config)
}

/// What a worker's answer comes to. The layout is rebuilt from the report;
/// the bytes must be there, and be exactly as many as that layout says.
pub open spec fn response_outcome(response: WorkerResponseModel) -> Result<DecodedMeshModel, DecodeError> {
    match reconstructed_layout(response.config) {
        Err(error) => Err(error),
        Ok(layout) => if response.decoded.len() == 0 || response.decoded.len() != layout.buffer_size {
            Err(DecodeError::DecodeInputInvalid { stage: DecodeStage::BufferDecode })
        } else {
            Ok(DecodedMeshModel { data: response.decoded, layout })
        },
    }
}

/// Turns a worker's answer into a mesh, or says why it is none.
pub fn accept_response(response: WorkerResponse) -> (outcome: Result<MeshDecodeResult, DecodeError>)
    ensures
        outcome_view(outcome) == response_outcome(response@),
        outcome matches Ok(mesh) ==> mesh@.is_consistent() && mesh@.layout.tiles(),
{
    match reconstruct_config(&response.config) {
        Err(error) => Err(error),
        Ok(config) => {
            if response.decoded.len() == 0 || response.decoded.len() != config.buffer_size() {
                Err(DecodeError::DecodeInputInvalid { stage: DecodeStage::BufferDecode })
            } else {
                Ok(MeshDecodeResult { data: response.decoded, config })
            }
        },
    }
}

/// What a session asks of whoever talks to the worker.
#[derive(Debug, Clone, Copy, PartialEq, Eq)]
pub enum WorkerRequest<'a> {
    /// Have the decode module at hand, loading it if no one has yet.
    LoadModule,
    /// Send the encoded bytes `data` to the worker and wait for its answer.
    Decode { data: &'a [u8] },
}

/// What came of a request.
#[derive(Debug)]
pub enum WorkerEvent {
    /// The decode module is at hand.
    ModuleReady,
    /// The decode module could not be loaded.
    ModuleUnavailable,
    /// The worker answered.
    Replied { response: WorkerResponse },
    /// The exchange was rejected, or threw.
    Rejected,
}

/// Where a session stands: which answer it waits for, and what it holds.
#[derive(Debug, Clone, Copy, PartialEq, Eq)]
pub enum WorkerDecodeState<'a> {
    /// `LoadModule` is out; `data` are the encoded bytes still to be sent.
    AwaitingModule { data: &'a [u8] },
    /// `Decode` is out; the bytes are with the worker.
    AwaitingReply,
}

/// What a session does on an event: go on with a new request, or end.
#[derive(Debug)]
pub enum WorkerDecodeStep<'a> {
    /// The session goes on in `state`; `request` is to be performed.
    Continue { state: WorkerDecodeState<'a>, request: WorkerRequest<'a> },
    /// The session is over, with a mesh or with the reason why there is none.
    Done { outcome: Result<MeshDecodeResult, DecodeError> },
}

/// The view of a [`WorkerRequest`].
pub enum WorkerRequestModel {
    LoadModule,
    Decode { data: Seq<u8> },
}

/// The view of a [`WorkerDecodeState`].
pub enum WorkerStateModel {
    AwaitingModule { data: Seq<u8> },
    AwaitingReply,
}

/// The view of a [`WorkerEvent`].
pub enum WorkerEventModel {
    ModuleReady,
    ModuleUnavailable,
    Replied { response: WorkerResponseModel },
    Rejected,
}

/// The view of a [`WorkerDecodeStep`].
pub enum WorkerStepModel {
    Continue { state: WorkerStateModel, request: WorkerRequestModel },
    Done { outcome: Result<DecodedMeshModel, DecodeError> },
}

impl<'a> View for WorkerRequest<'a> {
    type V = WorkerRequestModel;

    open spec fn view(&self) -> WorkerRequestModel {
        match *self {
            WorkerRequest::LoadModule => WorkerRequestModel::LoadModule,
            WorkerRequest::Decode { data } => WorkerRequestModel::Decode { data: data@ },
        }
    }
}

impl<'a> View for WorkerDecodeState<'a> {
    type V = WorkerStateModel;

    open spec fn view(&self) -> WorkerStateModel {
        match *self {
            WorkerDecodeState::AwaitingModule { data } => WorkerStateModel::AwaitingModule {
                data: data@,
            },
            WorkerDecodeState::AwaitingReply => WorkerStateModel::AwaitingReply,
        }
    }
}

impl View for WorkerEvent {
    type V = WorkerEventModel;

    open spec fn view(&self) -> WorkerEventModel {
        match *self {
            WorkerEvent::ModuleReady => WorkerEventModel::ModuleReady,
            WorkerEvent::ModuleUnavailable => WorkerEventModel::ModuleUnavailable,
            WorkerEvent::Replied { response } => WorkerEventModel::Replied { response: response@ },
            WorkerEvent::Rejected => WorkerEventModel::Rejected,
        }
    }
}

impl<'a> View for WorkerDecodeStep<'a> {
    type V = WorkerStepModel;

    open spec fn view(&self) -> WorkerStepModel {
        match *self {
            WorkerDecodeStep::Continue { state, request } => WorkerStepModel::Continue {
                state: state@,
                request: request@,
            },
            WorkerDecodeStep::Done { outcome } => WorkerStepModel::Done { outcome: outcome_view(outcome) },
        }
    }
}

/// The rule of the off-thread decode.
///
/// A session waits for one answer at a time. The answer it waits for, if it
/// is a good one, leads to the next request or to the mesh; anything else
/// ends the session with a failure, and nothing is left half done:
/// - waiting for the module: once it is at hand the encoded bytes of the
///   session go to the worker; anything else means the engine cannot be had;
/// - waiting for the reply: an answer is judged by [`response_outcome`];
///   anything else means the exchange failed.
pub open spec fn worker_step(state: WorkerStateModel, event: WorkerEventModel) -> WorkerStepModel {
    match state {
        WorkerStateModel::AwaitingModule { data } => match event {
            WorkerEventModel::ModuleReady => WorkerStepModel::Continue {
                state: WorkerStateModel::AwaitingReply,
                request: WorkerRequestModel::Decode { data },
            },
            _ => WorkerStepModel::Done { outcome: Err(DecodeError::EngineUnavailable) },
        },
        WorkerStateModel::AwaitingReply => match event {
            WorkerEventModel::Replied { response } => WorkerStepModel::Done {
                outcome: response_outcome(response),
            },
            _ => WorkerStepModel::Done { outcome: Err(DecodeError::TransportFailure) },
        },
    }
}

/// Opens a session on the encoded bytes `data`: it waits for the decode
/// module, and the first thing to ask for is to have it at hand.
pub fn begin_worker_decode<'a>(data: &'a [u8]) -> (start: (WorkerDecodeState<'a>, WorkerRequest<'a>))
    ensures
        start.0@ == (WorkerStateModel::AwaitingModule { data: data@ }),
        start.1@ == WorkerRequestModel::LoadModule,
{
    (WorkerDecodeState::AwaitingModule { data }, WorkerRequest::LoadModule)
}

/// Takes a session one event further, by the rule of [`worker_step`].
pub fn worker_decode_step<'a>(
    state: WorkerDecodeState<'a>,
    event: WorkerEvent,
) -> (step: WorkerDecodeStep<'a>)
    ensures
        step@ == worker_step(state@, event@),
{
    match state {
        WorkerDecodeState::AwaitingModule { data } => match event {
            WorkerEvent::ModuleReady => WorkerDecodeStep::Continue {
                state: WorkerDecodeState::AwaitingReply,
                request: WorkerRequest::Decode { data },
            },
            _ => WorkerDecodeStep::Done { outcome: Err(DecodeError::EngineUnavailable) },
        },
        WorkerDecodeState::AwaitingReply => match event {
            WorkerEvent::Replied { response } => WorkerDecodeStep::Done {
                outcome: accept_response(response),
            },
            _ => WorkerDecodeStep::Done { outcome: Err(DecodeError::TransportFailure) },
        },
    }
}

/// A session ends in a mesh on one event only: while it waits for the reply,
/// an answer of the worker. The mesh then holds the bytes of that answer, all
/// of them and no others; every type code of the answer names a type; the
/// layout is the one auto-offset mode derives from the counts and shapes
/// reported, so its segments tile the buffer; and the buffer is exactly as
/// long as that layout says. A module that cannot be loaded and an exchange
/// that is rejected each end the session in a failure.
pub proof fn lemma_mesh_only_from_reply(state: WorkerStateModel, event: WorkerEventModel)
    ensures
        worker_step(state, event) matches WorkerStepModel::Done { outcome: Ok(mesh) } ==> {
            &&& state is AwaitingReply
            &&& event matches WorkerEventModel::Replied { response }
            &&& mesh.data == response.decoded
            &&& mesh.data.len() > 0
            &&& read_shapes(response.config.shapes) matches Some(shapes)
            &&& mesh.layout == auto_layout(
                response.config.vertex_count,
                response.config.index_count,
                shapes,
            )
            &&& mesh.layout.tiles()
            &&& mesh.is_consistent()
        },
        event is ModuleUnavailable || event is Rejected ==> worker_step(
            state,
            event,
        ) matches WorkerStepModel::Done { outcome: Err(_) },
{
    if let WorkerEventModel::Replied { response } = event {
        if let Some(shapes) = read_shapes(response.config.shapes) {
            lemma_auto_layout_tiles(
                response.config.vertex_count,
                response.config.index_count,
                shapes,
            );
        }
    }
}

/// Both paths describe one mesh alike. Where the engine's report and the
/// worker's report give the same counts, and the same dimensions and type
/// codes in the same order, the config rebuilt from the worker's report and
/// the config converted from the engine's are equal, or there is neither and
/// both fail alike. A type code that names no type is such a failure on both
/// paths. This holds of every engine report whose offsets and lengths, where
/// it describes a layout at all, are the ones the layout rules determine: its
/// segments tile the buffer, each as long as its shape says.
pub proof fn lemma_paths_agree(raw: RawMeshConfig, report: WorkerMeshConfig)
    requires
        raw@.vertex_count == report@.vertex_count,
        raw@.index_count == report@.index_count,
        raw@.reported_shapes() == report@.shapes,
        reported_layout(raw@) matches Ok(layout) ==> layout.tiles() && layout.lengths_follow_shapes(),
    ensures
        reconstructed_layout(report@) == reported_layout(raw@),
{
    if let Ok(layout) = reported_layout(raw@) {
        let shapes = read_shapes(report@.shapes).unwrap();
        assert(layout.shapes() =~= shapes);
        lemma_tiling_layout_fits(layout);
        lemma_modes_agree(layout);
    }
}

/// What the in-process decode of a mesh comes to, from the engine's report
/// to the end: a report that describes no layout fails it; else the buffer
/// decides, by [`decode_outcome`].
pub open spec fn native_decode_outcome(
    report: RawConfigModel,
    buffer: Seq<u8>,
    bytes_written: nat,
) -> Result<DecodedMeshModel, DecodeError> {
    match reported_layout(report) {
        Ok(layout) => decode_outcome(layout, buffer, bytes_written),
        Err(error) => Err(error),
    }
}

/// Both paths decode one mesh alike. Under the conditions of
/// [`lemma_paths_agree`], where the engine fills the whole buffer it asked
/// for and the worker answers with the same bytes, the in-process decode and
/// the off-thread decode end alike: in the same mesh, those bytes under the
/// layout of the engine's report, or in the same failure.
pub proof fn lemma_decodes_agree(raw: RawMeshConfig, report: WorkerMeshConfig, bytes: Seq<u8>)
    requires
        raw@.vertex_count == report@.vertex_count,
        raw@.index_count == report@.index_count,
        raw@.reported_shapes() == report@.shapes,
        reported_layout(raw@) matches Ok(layout) ==> layout.tiles() && layout.lengths_follow_shapes(),
        bytes.len() == raw.buffer_size,
        bytes.len() > 0,
    ensures
        response_outcome(WorkerResponseModel { decoded: bytes, config: report@ })
            == native_decode_outcome(raw@, bytes, bytes.len()),
        reported_layout(raw@) matches Ok(layout) ==> native_decode_outcome(raw@, bytes, bytes.len())
            == Ok::<DecodedMeshModel, DecodeError>(DecodedMeshModel { data: bytes, layout }),
{
    lemma_paths_agree(raw, report);
    assert(bytes.take(bytes.len() as int) =~= bytes);
}

} // verus!
