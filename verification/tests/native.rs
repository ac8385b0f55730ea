use std::collections::HashSet;

use draco_decoder::native::{
    accept_point_cloud, begin_native_decode, can_convert_config, convert_config, finish_decode,
    native_decode_step, EngineEvent, EngineRequest, NativeDecodeState, NativeDecodeStep,
    RawMeshAttribute, RawMeshConfig, POINT_SIZE,
};
use draco_decoder::{
    AttributeDataType, DecodeError, DecodeStage, DracoDecodeConfig, MeshAttribute,
    MeshDecodeResult, MAX_INDEX_COUNT,
};

fn raw_attribute(dim: u32, data_type: u32, offset: u32, length: u32) -> RawMeshAttribute {
    RawMeshAttribute { dim, data_type, offset, length, unique_id: 0 }
}

/// What an engine reports of a mesh of 3254 vertices and 4368 indices with
/// positions, normals and texture coordinates.
fn fixture_report() -> RawMeshConfig {
    RawMeshConfig {
        vertex_count: 3254,
        index_count: 4368,
        index_length: 8736,
        buffer_size: 112864,
        attributes: vec![
            raw_attribute(3, 6, 8736, 39048),
            raw_attribute(3, 6, 47784, 39048),
            raw_attribute(2, 6, 86832, 26032),
        ],
    }
}

/// Plays the engine: hands a session the three answers given and returns
/// what the session ends in.
fn run_session(
    handle_is_null: bool,
    config: (bool, RawMeshConfig),
    write: impl FnOnce(&mut Vec<u8>) -> usize,
) -> Result<MeshDecodeResult, DecodeError> {
    let encoded = [7u8, 7, 7];
    let (state, request) = begin_native_decode(&encoded);
    assert!(matches!(request, EngineRequest::CreateMesh { data } if data == encoded));
    let state = match native_decode_step(state, EngineEvent::HandleCreated { is_null: handle_is_null }) {
        NativeDecodeStep::Continue { state, request } => {
            assert!(matches!(request, EngineRequest::ComputeConfig));
            state
        }
        NativeDecodeStep::Done { outcome } => return outcome,
    };
    let event = EngineEvent::ConfigComputed { success: config.0, config: config.1 };
    let (state, mut buffer) = match native_decode_step(state, event) {
        NativeDecodeStep::Continue { state, request: EngineRequest::DecodeToBuffer { buffer } } => {
            (state, buffer)
        }
        NativeDecodeStep::Continue { .. } => panic!("a buffer was to be asked for"),
        NativeDecodeStep::Done { outcome } => return outcome,
    };
    let bytes_written = write(&mut buffer);
    match native_decode_step(state, EngineEvent::BufferDecoded { buffer, bytes_written }) {
        NativeDecodeStep::Continue { .. } => panic!("the session was to end"),
        NativeDecodeStep::Done { outcome } => outcome,
    }
}

fn fill(buffer: &mut Vec<u8>) -> usize {
    for (i, byte) in buffer.iter_mut().enumerate() {
        *byte = (i % 251) as u8 + 1;
    }
    buffer.len()
}

/// A report of one attribute with the type code given.
fn report_with_code(data_type: u32) -> RawMeshConfig {
    RawMeshConfig {
        vertex_count: 2,
        index_count: 3,
        index_length: 6,
        buffer_size: 12,
        attributes: vec![raw_attribute(3, data_type, 6, 6)],
    }
}

#[test]
fn native_codes_name_the_seven_types() {
    let types: Vec<AttributeDataType> = (0..7)
        .map(|code| {
            assert!(can_convert_config(&report_with_code(code)));
            convert_config(report_with_code(code)).get_attribute(0).unwrap().data_type()
        })
        .collect();
    assert_eq!(
        types,
        vec![
            AttributeDataType::Int8,
            AttributeDataType::UInt8,
            AttributeDataType::Int16,
            AttributeDataType::UInt16,
            AttributeDataType::Int32,
            AttributeDataType::UInt32,
            AttributeDataType::Float32,
        ]
    );
}

#[test]
fn report_with_a_code_that_names_no_type_cannot_be_converted() {
    for code in [7u32, 8, 42, 1000, i32::MAX as u32, u32::MAX] {
        assert!(!can_convert_config(&report_with_code(code)));
    }
    let mut report = fixture_report();
    assert!(can_convert_config(&report));
    report.attributes[2].data_type = 7;
    assert!(!can_convert_config(&report));
}

#[test]
fn report_with_a_code_that_names_no_type_fails_the_decode() {
    for code in [7u32, 42, u32::MAX] {
        let outcome = run_session(false, (true, report_with_code(code)), fill);
        assert_eq!(outcome.err(), Some(DecodeError::ConfigComputationFailed));
    }
    let mut report = fixture_report();
    report.attributes[1].data_type = 9;
    let outcome = run_session(false, (true, report), fill);
    assert_eq!(outcome.err(), Some(DecodeError::ConfigComputationFailed));
}

#[test]
fn report_of_too_many_indices_cannot_be_converted() {
    let report = |index_count: u32| RawMeshConfig { index_count, ..fixture_report() };
    assert!(can_convert_config(&report(MAX_INDEX_COUNT)));
    assert!(!can_convert_config(&report(MAX_INDEX_COUNT + 1)));
    assert!(!can_convert_config(&report(u32::MAX)));
}

#[test]
fn convert_config_takes_the_report_at_its_word() {
    let config = convert_config(RawMeshConfig {
        vertex_count: 10,
        index_count: 70000,
        index_length: 1,
        buffer_size: 77,
        attributes: vec![
            RawMeshAttribute { dim: 3, data_type: 6, offset: 5, length: 9, unique_id: 4 },
            RawMeshAttribute { dim: 2, data_type: 3, offset: 0, length: 1000, unique_id: 2 },
            RawMeshAttribute { dim: 1, data_type: 1, offset: 3, length: 0, unique_id: 9 },
        ],
    });
    assert_eq!(config.vertex_count(), 10);
    assert_eq!(config.index_count(), 70000);
    assert_eq!(config.index_length(), 280000);
    assert_eq!(config.buffer_size(), 77);
    assert_eq!(
        config.attributes(),
        vec![
            MeshAttribute::new(3, AttributeDataType::Float32, 5, 9),
            MeshAttribute::new(2, AttributeDataType::UInt16, 0, 1000),
            MeshAttribute::new(1, AttributeDataType::UInt8, 3, 0),
        ]
    );
}

#[test]
fn convert_config_without_attributes() {
    let config = convert_config(RawMeshConfig {
        vertex_count: 0,
        index_count: 0,
        index_length: 0,
        buffer_size: 0,
        attributes: Vec::new(),
    });
    assert_eq!(config, DracoDecodeConfig::with_buffer_size(0, 0, 0));
}

#[test]
fn mesh_fixture_layout_adds_up() {
    let result = run_session(false, (true, fixture_report()), fill).expect("the decode succeeds");
    let MeshDecodeResult { data, config } = result;
    assert_eq!(config.vertex_count(), 3254);
    assert_eq!(config.index_count(), 4368);
    assert_eq!(config.attributes().len(), 3);
    assert_eq!(
        config.buffer_size(),
        config.index_length() as usize
            + config.attributes().iter().map(|a| a.lenght() as usize).sum::<usize>()
    );
    assert_eq!(config.buffer_size(), 112864);
    assert!(config.is_tiled());
    assert_eq!(config, convert_config(fixture_report()));
    assert_eq!(data.len(), config.buffer_size());
    assert!(data.iter().all(|byte| *byte != 0));
}

#[test]
fn session_asks_for_a_zeroed_buffer_of_the_size_reported() {
    let (state, _) = begin_native_decode(&[]);
    let NativeDecodeStep::Continue { state, .. } =
        native_decode_step(state, EngineEvent::HandleCreated { is_null: false })
    else {
        panic!("the session was to go on")
    };
    assert!(matches!(state, NativeDecodeState::AwaitingConfig));
    let event = EngineEvent::ConfigComputed { success: true, config: fixture_report() };
    let NativeDecodeStep::Continue { state, request } = native_decode_step(state, event) else {
        panic!("the session was to go on")
    };
    let EngineRequest::DecodeToBuffer { buffer } = request else {
        panic!("a buffer was to be asked for")
    };
    assert_eq!(buffer, vec![0u8; 112864]);
    let NativeDecodeState::AwaitingBuffer { config } = state else {
        panic!("the session was to wait for the buffer")
    };
    assert_eq!(config, convert_config(fixture_report()));
}

#[test]
fn session_opens_by_asking_for_a_handle_on_its_bytes() {
    let encoded: Vec<u8> = (0..=255).collect();
    let (state, request) = begin_native_decode(&encoded);
    assert!(matches!(state, NativeDecodeState::AwaitingHandle));
    let EngineRequest::CreateMesh { data } = request else {
        panic!("a handle was to be asked for")
    };
    assert_eq!(data, encoded.as_slice());
}

#[test]
fn null_handle_fails_the_decode() {
    let outcome = run_session(true, (true, fixture_report()), fill);
    assert_eq!(
        outcome.err(),
        Some(DecodeError::DecodeInputInvalid { stage: DecodeStage::HandleCreation })
    );
}

#[test]
fn failed_config_query_fails_the_decode() {
    let outcome = run_session(false, (false, fixture_report()), fill);
    assert_eq!(outcome.err(), Some(DecodeError::ConfigComputationFailed));
}

#[test]
fn report_of_more_indices_than_a_config_holds_fails_the_decode() {
    let report = |index_count: u32| RawMeshConfig { index_count, ..fixture_report() };
    for index_count in [MAX_INDEX_COUNT + 1, u32::MAX] {
        let outcome = run_session(false, (true, report(index_count)), fill);
        assert_eq!(outcome.err(), Some(DecodeError::ConfigComputationFailed));
    }
    let result = run_session(false, (true, report(MAX_INDEX_COUNT)), fill)
        .expect("the largest index count is taken");
    assert_eq!(result.config.index_count(), MAX_INDEX_COUNT);
    assert_eq!(result.config.index_length(), 0xFFFF_FFFC);
}

#[test]
fn no_byte_written_fails_the_decode() {
    let outcome = run_session(false, (true, fixture_report()), |_| 0);
    assert_eq!(
        outcome.err(),
        Some(DecodeError::DecodeInputInvalid { stage: DecodeStage::BufferDecode })
    );
}

#[test]
fn buffer_is_cut_down_to_the_bytes_written() {
    let result = run_session(false, (true, fixture_report()), |buffer| {
        fill(buffer);
        100000
    })
    .expect("the decode succeeds");
    assert_eq!(result.data.len(), 100000);
    assert!(result.data.iter().all(|byte| *byte != 0));
    assert_eq!(result.config.buffer_size(), 100000);
    assert_eq!(result.config.attributes(), convert_config(fixture_report()).attributes());
    assert_eq!(result.config.vertex_count(), 3254);
    assert_eq!(result.config.index_count(), 4368);
}

#[test]
fn more_bytes_reported_than_the_buffer_holds_leave_the_buffer_whole() {
    let result = run_session(false, (true, fixture_report()), |buffer| fill(buffer) + 1)
        .expect("the decode succeeds");
    assert_eq!(result.data.len(), 112864);
    assert_eq!(result.config, convert_config(fixture_report()));
}

#[test]
fn answer_out_of_turn_fails_the_step_that_was_waited_for() {
    let buffer_event = || EngineEvent::BufferDecoded { buffer: vec![1, 2, 3], bytes_written: 3 };
    let config_event = || EngineEvent::ConfigComputed { success: true, config: fixture_report() };
    let handle_event = || EngineEvent::HandleCreated { is_null: false };

    for event in [buffer_event(), config_event()] {
        let step = native_decode_step(NativeDecodeState::AwaitingHandle, event);
        let NativeDecodeStep::Done { outcome } = step else { panic!("the session was to end") };
        assert_eq!(
            outcome.err(),
            Some(DecodeError::DecodeInputInvalid { stage: DecodeStage::HandleCreation })
        );
    }
    for event in [buffer_event(), handle_event()] {
        let step = native_decode_step(NativeDecodeState::AwaitingConfig, event);
        let NativeDecodeStep::Done { outcome } = step else { panic!("the session was to end") };
        assert_eq!(outcome.err(), Some(DecodeError::ConfigComputationFailed));
    }
    for event in [config_event(), handle_event()] {
        let state = NativeDecodeState::AwaitingBuffer { config: convert_config(fixture_report()) };
        let step = native_decode_step(state, event);
        let NativeDecodeStep::Done { outcome } = step else { panic!("the session was to end") };
        assert_eq!(
            outcome.err(),
            Some(DecodeError::DecodeInputInvalid { stage: DecodeStage::BufferDecode })
        );
    }
}

#[test]
fn finish_decode_keeps_the_written_prefix() {
    let config = DracoDecodeConfig::with_buffer_size(1, 1, 6);
    let result = finish_decode(config, vec![9, 8, 7, 6, 5, 4], 4).expect("bytes were written");
    assert_eq!(result.data, vec![9, 8, 7, 6]);
    assert_eq!(result.config, DracoDecodeConfig::with_buffer_size(1, 1, 4));
}

#[test]
fn finish_decode_of_a_filled_buffer_keeps_a_tiled_config_as_it_is() {
    let mut config = DracoDecodeConfig::new(2, 3);
    config.add_attribute(3, AttributeDataType::UInt8);
    assert_eq!(config.buffer_size(), 12);
    for bytes_written in [12usize, 13, usize::MAX] {
        let mut tiled = DracoDecodeConfig::new(2, 3);
        tiled.add_attribute(3, AttributeDataType::UInt8);
        let result = finish_decode(tiled, vec![5u8; 12], bytes_written).expect("bytes were written");
        assert_eq!(result.config, config);
        assert!(result.config.is_tiled());
        assert_eq!(result.data, vec![5u8; 12]);
        assert_eq!(
            result.data.len(),
            result.config.index_length() as usize
                + result.config.attributes().iter().map(|a| a.lenght() as usize).sum::<usize>()
        );
    }
}

#[test]
fn finish_decode_without_bytes_is_a_failure() {
    let config = DracoDecodeConfig::with_buffer_size(1, 1, 6);
    let outcome = finish_decode(config, vec![9, 8, 7, 6, 5, 4], 0);
    assert_eq!(
        outcome.err(),
        Some(DecodeError::DecodeInputInvalid { stage: DecodeStage::BufferDecode })
    );
}

fn quantize(v: &[f32]) -> [i32; 3] {
    [
        (v[0] * 1000.0).round() as i32,
        (v[1] * 1000.0).round() as i32,
        (v[2] * 1000.0).round() as i32,
    ]
}

#[test]
fn point_cloud_of_three_points_is_accepted() {
    let points: [[f32; 3]; 3] = [[2.0, 2.0, 2.0], [0.0, 0.0, 0.0], [1.0, 1.0, 1.0]];
    let decoded: Vec<u8> =
        points.iter().flatten().flat_map(|coordinate| coordinate.to_le_bytes()).collect();

    let output = accept_point_cloud(decoded.clone()).expect("whole points are accepted");
    assert_eq!(output, decoded);
    assert!(output.len() % 12 == 0, "Expected output to be a multiple of 12 bytes (3 floats per point)");
    assert_eq!(output.len() / POINT_SIZE, 3);

    let floats: Vec<f32> = output
        .chunks_exact(4)
        .map(|bytes| f32::from_le_bytes(bytes.try_into().unwrap()))
        .collect();
    let actual: HashSet<[i32; 3]> = floats.chunks_exact(3).map(quantize).collect();
    let expected: HashSet<[i32; 3]> = [[0.0, 0.0, 0.0], [1.0, 1.0, 1.0], [2.0, 2.0, 2.0]]
        .iter()
        .map(|v| quantize(v))
        .collect();
    assert_eq!(actual, expected, "Decoded point cloud points do not match expected");
}

#[test]
fn point_cloud_without_bytes_is_a_failure() {
    assert_eq!(
        accept_point_cloud(Vec::new()),
        Err(DecodeError::DecodeInputInvalid { stage: DecodeStage::BufferDecode })
    );
}

#[test]
fn point_cloud_with_part_of_a_point_is_a_failure() {
    for len in [1usize, 11, 13, 23, 35, 37] {
        assert_eq!(
            accept_point_cloud(vec![0u8; len]),
            Err(DecodeError::DecodeInputInvalid { stage: DecodeStage::BufferDecode })
        );
    }
    for len in [12usize, 24, 36, 1200] {
        assert_eq!(accept_point_cloud(vec![0u8; len]), Ok(vec![0u8; len]));
    }
}
