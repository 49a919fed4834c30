use gigacenter::access::RegisterBank;
use gigacenter::bat::BatThreshold;
use gigacenter::client::{read_reply, write_reply};
use gigacenter::codec::{DaemonCodec, DaemonReq, DaemonResp, RoleClient, RoleServer};
use gigacenter::ec::RWData;
use gigacenter::error::EcError;
use gigacenter::fan_speed::FanMode;
use gigacenter::router::{first_step, next_step, Backend, RouterStep, EXIT_MSG};
use gigacenter::server::{dispatch, handle_request, Dispatch, UNKNOWN_REQUEST};
use gigacenter::traits::WriteResult;
use tokio_util::bytes::BytesMut;

fn framed(payload: &[u8]) -> Vec<u8> {
    let mut codec: DaemonCodec<RoleClient> = DaemonCodec::new();
    let mut buf = BytesMut::new();
    codec.encode(payload, &mut buf);
    buf.to_vec()
}

#[test]
fn frame_layout() {
    assert_eq!(framed(&[7, 8, 9]), vec![3, 0, 0, 0, 7, 8, 9]);
    assert_eq!(framed(&[]), vec![0, 0, 0, 0]);
    let big = vec![1u8; 300];
    let f = framed(&big);
    assert_eq!(&f[..4], &[0x2C, 0x01, 0, 0]);
    assert_eq!(f.len(), 304);
}

#[test]
fn frame_round_trip() {
    let payload: Vec<u8> = (0..=255u8).collect();
    let mut codec: DaemonCodec<RoleServer> = DaemonCodec::new();
    let mut buf = BytesMut::from(&framed(&payload)[..]);
    assert_eq!(codec.decode(&mut buf), Some(payload));
    assert!(buf.is_empty());
}

#[test]
fn partial_frame_needs_more_data() {
    let mut codec: DaemonCodec<RoleServer> = DaemonCodec::new();
    let mut buf = BytesMut::from(&[5u8, 0, 0][..]);
    assert_eq!(codec.decode(&mut buf), None);
    assert_eq!(&buf[..], &[5, 0, 0]);
    let mut buf = BytesMut::from(&[5u8, 0, 0, 0, 1, 2][..]);
    assert_eq!(codec.decode(&mut buf), None);
    assert_eq!(buf.len(), 6);
}

#[test]
fn frame_split_anywhere() {
    let payload = vec![10u8, 20, 30, 40, 50];
    let whole = framed(&payload);
    for k in 0..=whole.len() {
        let mut codec: DaemonCodec<RoleClient> = DaemonCodec::new();
        let mut buf = BytesMut::from(&whole[..k]);
        if k < whole.len() {
            assert_eq!(codec.decode(&mut buf), None);
        }
        buf.extend_from_slice(&whole[k..]);
        assert_eq!(codec.decode(&mut buf), Some(payload.clone()));
        assert!(buf.is_empty());
    }
}

#[test]
fn frames_back_to_back() {
    let mut codec: DaemonCodec<RoleClient> = DaemonCodec::new();
    let mut buf = BytesMut::new();
    codec.encode(&[1, 2], &mut buf);
    codec.encode(&[3], &mut buf);
    assert_eq!(codec.decode(&mut buf), Some(vec![1, 2]));
    assert_eq!(codec.decode(&mut buf), Some(vec![3]));
    assert_eq!(codec.decode(&mut buf), None);
}

#[test]
fn daemon_reads_register_values() {
    let mut bank = RegisterBank::new();
    bank.set(0x60, 45);
    let resp = handle_request(&mut bank, DaemonReq::ReadValues(vec![RWData::U8 { reg: 0x60, value: 0 }]));
    match resp {
        Ok(DaemonResp::ReadValues(v)) => assert_eq!(v, vec![RWData::U8 { reg: 0x60, value: 45 }]),
        other => panic!("unexpected reply {other:?}"),
    }
}

#[test]
fn daemon_refuses_out_of_range_threshold() {
    let mut bank = RegisterBank::new();
    bank.set(0xA9, 80);
    let req = DaemonReq::SetBatThreshold(BatThreshold::from_raw(150, true));
    match handle_request(&mut bank, req) {
        Ok(DaemonResp::Error(msg)) => assert_eq!(msg, "Unknown daemon request"),
        other => panic!("unexpected reply {other:?}"),
    }
    assert_eq!(UNKNOWN_REQUEST, "Unknown daemon request");
    assert_eq!(bank.get(0xA9), 80);
    assert_eq!(bank.get(0xC6), 0);
    assert_eq!(bank.get(0x0F), 0);
    assert!(matches!(dispatch(DaemonReq::SetBatThreshold(BatThreshold::from_raw(59, true))), Dispatch::Reply(_)));
}

#[test]
fn daemon_writes_valid_threshold() {
    let mut bank = RegisterBank::new();
    let resp = handle_request(&mut bank, DaemonReq::SetBatThreshold(BatThreshold::new(80)));
    assert!(matches!(resp, Ok(DaemonResp::WriteResult(WriteResult::Done))));
    assert_eq!(bank.get(0xA9), 80);
    assert_eq!(bank.get(0xC6), 0x01);
    assert_eq!(bank.get(0x0F), 0x04);
}

#[test]
fn daemon_sets_fan_mode() {
    let mut bank = RegisterBank::new();
    let resp = handle_request(&mut bank, DaemonReq::SetFanMode(FanMode::Power));
    assert!(matches!(resp, Ok(DaemonResp::WriteResult(WriteResult::Done))));
    assert_eq!(bank.get(0x0C), 0x10);
}

#[test]
fn daemon_read_past_end_drops_connection() {
    let mut bank = RegisterBank::new();
    let resp = handle_request(&mut bank, DaemonReq::ReadValues(vec![RWData::U16 { reg: 0xFF, value: 0 }]));
    assert!(matches!(resp, Err(EcError::RegisterOutOfRange(0xFF))));
}

#[test]
fn client_checks_reply_kind() {
    assert_eq!(read_reply(DaemonResp::ReadValues(vec![RWData::U8 { reg: 1, value: 2 }])), Ok(vec![RWData::U8 { reg: 1, value: 2 }]));
    assert_eq!(read_reply(DaemonResp::WriteResult(WriteResult::Done)), Err(EcError::Protocol));
    assert_eq!(write_reply(DaemonResp::WriteResult(WriteResult::Busy)), Ok(WriteResult::Busy));
    assert_eq!(write_reply(DaemonResp::Error("x".to_string())), Err(EcError::Protocol));
    assert_eq!(write_reply(DaemonResp::ReadValues(vec![])), Err(EcError::Protocol));
}

#[test]
fn router_prefers_daemon() {
    let s = first_step();
    assert_eq!(s, RouterStep::ConnectDaemon);
    assert_eq!(next_step(s, true), RouterStep::Chosen(Backend::Daemon));
    let s = next_step(s, false);
    assert_eq!(s, RouterStep::OpenDirect);
    assert_eq!(next_step(s, true), RouterStep::Chosen(Backend::Direct));
}

#[test]
fn router_fails_without_daemon_and_privilege() {
    let s = next_step(next_step(first_step(), false), false);
    assert_eq!(s, RouterStep::Failed(EcError::NoAccess));
    assert_eq!(next_step(s, true), s);
    assert!(EXIT_MSG.contains("root"));
    assert!(EXIT_MSG.contains("daemon install"));
}

#[test]
fn daemon_threshold_hundred_turns_custom_mode_off() {
    let mut bank = RegisterBank::new();
    bank.set(0xC6, 0xFF);
    bank.set(0x0F, 0xFF);
    let resp = handle_request(&mut bank, DaemonReq::SetBatThreshold(BatThreshold::new(100)));
    assert!(matches!(resp, Ok(DaemonResp::WriteResult(WriteResult::Done))));
    assert_eq!(bank.get(0xC6), 0xFE);
    assert_eq!(bank.get(0x0F), 0xFB);
    assert_eq!(bank.get(0xA9), 100);
}

#[test]
fn dispatch_kinds() {
    assert!(matches!(dispatch(DaemonReq::ReadValues(vec![])), Dispatch::Hardware(b) if !b.is_write()));
    assert!(matches!(dispatch(DaemonReq::SetFanMode(FanMode::Eco)), Dispatch::Hardware(b) if b.is_write()));
    assert!(matches!(dispatch(DaemonReq::SetBatThreshold(BatThreshold::new(60))), Dispatch::Hardware(b) if b.is_write()));
}

#[test]
fn daemon_refuses_out_of_range_threshold_with_flag_off() {
    for value in [150u8, 101, 59, 0] {
        let mut bank = RegisterBank::new();
        bank.set(0xA9, 80);
        let req = DaemonReq::SetBatThreshold(BatThreshold::from_raw(value, false));
        match handle_request(&mut bank, req) {
            Ok(DaemonResp::Error(msg)) => assert_eq!(msg, "Unknown daemon request"),
            other => panic!("unexpected reply {other:?}"),
        }
        assert_eq!(bank.get(0xA9), 80);
        assert_eq!(bank.get(0xC6), 0);
        assert_eq!(bank.get(0x0F), 0);
    }
}

#[test]
fn daemon_writes_threshold_by_its_value() {
    let mut bank = RegisterBank::new();
    let resp = handle_request(&mut bank, DaemonReq::SetBatThreshold(BatThreshold::from_raw(70, false)));
    assert!(matches!(resp, Ok(DaemonResp::WriteResult(WriteResult::Done))));
    assert_eq!(bank.get(0xA9), 70);
    assert_eq!(bank.get(0xC6), 0x01);
    assert_eq!(bank.get(0x0F), 0x04);
}
