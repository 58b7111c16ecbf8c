use embedded_services::cfu::bridge::{
    block_data, content_response, final_response, process_command, process_get_fw_version, BridgeAction,
    BridgeCommand, BridgeResponse,
};
use embedded_services::cfu::splitter::{
    content_outcome, offer_response, version_response, ComponentVersion, FwVersionResponse, SplitterResponse,
};
use embedded_services::cfu::splitter::{map_slice_join, next_chunk, next_run, process_request, ChunkMode, Splitter, SplitterAction};
use embedded_services::cfu::{ContentStatus, RequestKind};
use embedded_services::espi::{
    append_pec, controller_event_action, packet_step, reply_context, PacketStep, ReplyContext, deserialize_outcome, result_is_error, strip_pec, write_to_buffer,
    ControllerEvent, Deserialized, Error as EspiError, EventAction, OOB_PORT_ID,
};
use embedded_services::fw_update::{BusError, Error, ErrorKind};
use embedded_services::ipc::deferred::{accept_response, InvocationCounter, InvocationId};
use embedded_services::thermal::mock::MockFan;

#[test]
fn splitter_accepts_one_to_four_devices() {
    assert!(Splitter::new(1, &[], ()).is_none());
    assert!(Splitter::new(1, &[2, 3, 4, 5, 6], ()).is_none());
    let devices = [2u8, 3];
    let s = Splitter::new(1, &devices, ()).unwrap();
    assert_eq!(s.component_id(), 1);
    assert_eq!(s.devices(), &[2, 3]);
}

#[test]
fn splitter_request_actions() {
    assert_eq!(process_request(RequestKind::FwVersionRequest), SplitterAction::BroadcastFwVersion);
    assert_eq!(process_request(RequestKind::GiveOffer), SplitterAction::BroadcastOffer);
    assert_eq!(process_request(RequestKind::GiveContent), SplitterAction::BroadcastContent);
    assert_eq!(process_request(RequestKind::AbortUpdate), SplitterAction::ComponentPrepared);
    assert_eq!(process_request(RequestKind::FinalizeUpdate), SplitterAction::ComponentPrepared);
    assert_eq!(process_request(RequestKind::PrepareComponentForUpdate), SplitterAction::ComponentPrepared);
    assert_eq!(process_request(RequestKind::GiveOfferExtended), SplitterAction::RejectOfferInvalidComponent);
    assert_eq!(process_request(RequestKind::GiveOfferInformation), SplitterAction::RejectOfferInvalidComponent);
}

#[test]
fn chunk_modes() {
    assert_eq!(next_chunk(0), (0, ChunkMode::Done));
    assert_eq!(next_chunk(1), (1, ChunkMode::Single));
    assert_eq!(next_chunk(2), (2, ChunkMode::Sequential));
    assert_eq!(next_chunk(3), (3, ChunkMode::Concurrent));
    assert_eq!(next_chunk(9), (4, ChunkMode::Concurrent));
}

#[test]
fn two_items_form_one_sequential_chunk() {
    assert_eq!(next_chunk(2), (2, ChunkMode::Sequential));
    assert_eq!(next_run::<u8>(&[], 2), Some((0, 2, ChunkMode::Sequential)));
    assert_eq!(next_run(&[Some(0u8), Some(1)], 2), None);
    let mut output = vec![0u8; 2];
    assert!(map_slice_join(&[Some(0u8), Some(1)], &mut output));
    assert_eq!(output, vec![0, 1]);
}

#[test]
fn a_missing_first_result_still_runs_its_chunk_and_fails() {
    // both items of the chunk are run, then nothing more, and nothing is written
    assert_eq!(next_run::<u8>(&[], 2), Some((0, 2, ChunkMode::Sequential)));
    assert_eq!(next_run(&[None, Some(1u8)], 2), None);
    let mut output = vec![2u8; 2];
    assert!(!map_slice_join(&[None, Some(1u8)], &mut output));
    assert_eq!(output, vec![2, 2]);
}

#[test]
fn three_and_four_items_form_one_concurrent_chunk() {
    for n in [3usize, 4] {
        assert_eq!(next_chunk(n), (n, ChunkMode::Concurrent));
        assert_eq!(next_run::<u8>(&[], n), Some((0, n, ChunkMode::Concurrent)));
        let input: Vec<u8> = (0..n as u8).collect();
        let results: Vec<Option<u8>> = input.iter().map(|i| Some(*i)).collect();
        assert_eq!(next_run(&results, n), None);
        let mut output = vec![u8::MAX; n];
        assert!(map_slice_join(&results, &mut output));
        assert_eq!(output, input);
    }
}

#[test]
fn items_after_a_failed_chunk_are_never_run() {
    let first: Vec<Option<u8>> = vec![Some(0), None, Some(2), Some(3)];
    assert_eq!(next_run(&first, 6), None);
    let full: Vec<Option<u8>> = vec![Some(0), Some(1), Some(2), Some(3)];
    assert_eq!(next_run(&full, 6), Some((4, 2, ChunkMode::Sequential)));
}

#[test]
fn failing_chunk_keeps_earlier_chunks() {
    let results: Vec<Option<u8>> = (0..6).map(|i| if i == 5 { None } else { Some(i) }).collect();
    let mut output = vec![9u8; 7];
    assert!(!map_slice_join(&results, &mut output));
    assert_eq!(output, vec![0, 1, 2, 3, 9, 9, 9]);
    let mut short = vec![9u8; 3];
    assert!(map_slice_join(&results, &mut short));
    assert_eq!(short, vec![0, 1, 2]);
}

#[test]
fn bridge_commands() {
    assert_eq!(process_command(BridgeCommand::FwVersionRequest, 5), BridgeAction::GetVersion);
    assert_eq!(process_command(BridgeCommand::GiveOffer(5), 5), BridgeAction::Respond(Some(BridgeResponse::OfferAccepted)));
    assert_eq!(process_command(BridgeCommand::GiveOffer(6), 5), BridgeAction::Respond(None));
    assert_eq!(
        process_command(BridgeCommand::GiveContent { sequence_num: 1, flags: 0x80, firmware_address: 0x100, data_length: 52 }, 5),
        BridgeAction::StartThenWrite { address: 0x100, length: 52 }
    );
    assert_eq!(
        process_command(BridgeCommand::GiveContent { sequence_num: 2, flags: 0x40, firmware_address: 0x134, data_length: 10 }, 5),
        BridgeAction::Write { address: 0x134, length: 10 }
    );
    assert_eq!(process_command(BridgeCommand::FinalizeUpdate, 5), BridgeAction::Finalize);
    assert_eq!(process_command(BridgeCommand::Other, 5), BridgeAction::Respond(None));
    assert_eq!(process_get_fw_version(Some(7), 5), BridgeResponse::FwVersion { version: 7, component_id: 5 });
    assert_eq!(process_get_fw_version(None, 5), BridgeResponse::ComponentBusy);
    assert_eq!(content_response(3, Some(false), true), BridgeResponse::Content { sequence_num: 3, status: ContentStatus::ErrorPrepare });
    assert_eq!(content_response(3, Some(true), false), BridgeResponse::Content { sequence_num: 3, status: ContentStatus::ErrorWrite });
    assert_eq!(content_response(3, None, true), BridgeResponse::Content { sequence_num: 3, status: ContentStatus::Success });
    assert_eq!(final_response(None), BridgeResponse::ComponentPrepared);
    assert_eq!(final_response(Some(BridgeResponse::OfferAccepted)), BridgeResponse::OfferAccepted);
}

#[test]
fn espi_event_actions() {
    assert_eq!(controller_event_action(ControllerEvent::PeripheralEvent { port: 3 }), EventAction::CompletePort(3));
    assert_eq!(controller_event_action(ControllerEvent::OobEvent { port: 1, direction: true }), EventAction::ReceiveOob);
    assert_eq!(controller_event_action(ControllerEvent::OobEvent { port: 1, direction: false }), EventAction::CompletePort(1));
    assert_eq!(controller_event_action(ControllerEvent::Port80), EventAction::Log);
    assert_eq!(controller_event_action(ControllerEvent::Failed), EventAction::Log);
    assert_eq!(deserialize_outcome(Deserialized::Message), (None, Ok(true)));
    assert_eq!(deserialize_outcome(Deserialized::Partial), (Some(OOB_PORT_ID), Err(EspiError::Serialize)));
    assert_eq!(deserialize_outcome(Deserialized::Malformed), (Some(OOB_PORT_ID), Err(EspiError::Serialize)));
    assert!(result_is_error(false));
}

#[test]
fn espi_packet_framing() {
    assert_eq!(append_pec(&[1, 2, 3]), vec![1, 2, 3, 0]);
    assert_eq!(append_pec(&[]), vec![0]);
    assert_eq!(strip_pec(&[1, 2, 3, 0xAA]), vec![1, 2, 3]);
    let mut dest = vec![9u8; 5];
    assert_eq!(write_to_buffer(&mut dest, &[1, 2]), 2);
    assert_eq!(dest, vec![1, 2, 9, 9, 9]);
    let mut big = vec![0u8; 300];
    let packet = vec![7u8; 257];
    assert_eq!(write_to_buffer(&mut big, &packet), 1);
}

#[test]
fn invocation_ids_and_responses() {
    let mut counter = InvocationCounter::new();
    assert_eq!(counter.next_invocation_id(), InvocationId(0));
    assert_eq!(counter.next_invocation_id(), InvocationId(1));
    let mut wrap = InvocationCounter { next: u32::MAX };
    assert_eq!(wrap.next_invocation_id(), InvocationId(u32::MAX));
    assert_eq!(wrap.next_invocation_id(), InvocationId(0));
    assert_eq!(accept_response(InvocationId(4), ("late", InvocationId(3))), None);
    assert_eq!(accept_response(InvocationId(4), ("mine", InvocationId(4))), Some("mine"));
}

#[test]
fn fw_update_error_kinds() {
    assert_eq!(ErrorKind::Timeout.kind(), ErrorKind::Timeout);
    assert_eq!(BusError::<u8>::Bus(3).kind(), ErrorKind::Bus);
    assert_eq!(BusError::<u8>::General(ErrorKind::InvalidContent).kind(), ErrorKind::InvalidContent);
}

#[test]
fn mock_fan_reports_last_speed() {
    let mut fan = MockFan::new();
    assert_eq!(fan.rpm(), Ok(0));
    assert_eq!(fan.min_rpm(), 0);
    assert_eq!(fan.max_rpm(), 6000);
    assert_eq!(fan.min_start_rpm(), 1000);
    assert_eq!(fan.set_speed_rpm(2500), Ok(2500));
    assert_eq!(fan.rpm(), Ok(2500));
}

#[test]
fn content_block_data_is_its_first_bytes() {
    let data: Vec<u8> = (0u8..52).collect();
    assert_eq!(block_data(&data, 3), &[0, 1, 2]);
    assert_eq!(block_data(&data, 0), &[] as &[u8]);
    assert_eq!(block_data(&data, 52).len(), 52);
}

#[test]
fn outgoing_packets_drop_their_pec_byte() {
    assert_eq!(packet_step(None), PacketStep::Done);
    assert_eq!(packet_step(Some(Err(()))), PacketStep::Fail(EspiError::Serialize));
    let packet = [0x0f, 0x10, 0x11, 0xaa];
    assert_eq!(packet_step(Some(Ok(&packet))), PacketStep::Send(vec![0x0f, 0x10, 0x11]));
    assert_eq!(packet_step(Some(Ok(&[0x55]))), PacketStep::Send(vec![]));
}

#[test]
fn replies_come_from_the_ec_endpoint() {
    assert_eq!(
        reply_context(0x0b),
        ReplyContext {
            source_endpoint_id: 0x80,
            destination_endpoint_id: 0x0b,
            packet_sequence_number: 0,
            message_tag: 3,
            destination_slave_address: 1,
            source_slave_address: 0,
        }
    );
}

#[test]
fn default_mock_fan_stands_still() {
    let mut fan = MockFan::default();
    assert_eq!(fan.rpm(), Ok(0));
}

#[test]
fn splitter_responses_after_broadcast() {
    let resolved = FwVersionResponse {
        components: vec![
            ComponentVersion { fw_version: 7, component_id: 2 },
            ComponentVersion { fw_version: 8, component_id: 3 },
        ],
    };
    assert_eq!(
        version_response::<u8, u8>(Some(resolved), 9),
        SplitterResponse::FwVersion(FwVersionResponse {
            components: vec![
                ComponentVersion { fw_version: 7, component_id: 9 },
                ComponentVersion { fw_version: 8, component_id: 3 },
            ],
        })
    );
    assert_eq!(version_response::<u8, u8>(None, 9), SplitterResponse::InvalidFwVersion(9));
    assert_eq!(offer_response::<u8, u8>(Some(4), 9), SplitterResponse::Offer(4));
    assert_eq!(offer_response::<u8, u8>(None, 9), SplitterResponse::InvalidFwVersion(9));
    assert_eq!(content_outcome::<u8, u8>(Some(5), 12), SplitterResponse::Content(5));
    assert_eq!(content_outcome::<u8, u8>(None, 12), SplitterResponse::ContentRejection(12));
}
