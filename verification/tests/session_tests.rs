use lpr::error::LprError;
use lpr::session::{drive_print, PrintJob, Session, SessionState};

fn sample_job() -> PrintJob {
    let host = b"printhost".to_vec();
    let user = b"alice".to_vec();
    PrintJob::new(&host, &user, 42, b"hello".to_vec())
}

fn sample_frames() -> Vec<Vec<u8>> {
    vec![
        b"\x02lp\n".to_vec(),
        b"\x0234 cfA42printhost\n".to_vec(),
        b"Hprinthost\nPalice\nldfA42printhost\n\x00".to_vec(),
        b"\x035 dfA42printhost\n".to_vec(),
        b"hello".to_vec(),
        b"\x00".to_vec(),
    ]
}

#[test]
fn job_scenario_control_file_and_subcommand_frame() {
    let job = sample_job();
    assert_eq!(job.control_file, b"Hprinthost\nPalice\nldfA42printhost\n".to_vec());
    let (writes, _) = drive_print(job, &vec![0, 0, 0, 0, 0]);
    assert_eq!(writes[1], b"\x0234 cfA42printhost\n".to_vec());
}

#[test]
fn all_acks_zero_writes_six_frames_in_order_and_succeeds() {
    let (writes, outcome) = drive_print(sample_job(), &vec![0, 0, 0, 0, 0]);
    assert!(outcome.is_ok());
    assert_eq!(writes, sample_frames());
}

#[test]
fn zero_length_payload_keeps_the_frame_order() {
    let host = b"h".to_vec();
    let user = b"u".to_vec();
    let job = PrintJob::new(&host, &user, 5, Vec::new());
    let (writes, outcome) = drive_print(job, &vec![0, 0, 0, 0, 0]);
    assert!(outcome.is_ok());
    assert_eq!(
        writes,
        vec![
            b"\x02lp\n".to_vec(),
            b"\x0213 cfA5h\n".to_vec(),
            b"Hh\nPu\nldfA5h\n\x00".to_vec(),
            b"\x030 dfA5h\n".to_vec(),
            Vec::new(),
            b"\x00".to_vec(),
        ]
    );
}

#[test]
fn nonzero_ack_on_control_subcommand_halts_before_data_subcommand() {
    let (writes, outcome) = drive_print(sample_job(), &vec![0, 1, 0, 0, 0]);
    assert_eq!(outcome, Err(LprError::ProtocolAckError(1)));
    assert_eq!(writes, sample_frames()[..2].to_vec());
}

#[test]
fn nonzero_ack_at_each_step_reports_the_byte_and_stops() {
    for k in 0..4 {
        let mut acks = vec![0u8; 5];
        acks[k] = 0x20 + k as u8;
        let (writes, outcome) = drive_print(sample_job(), &acks);
        assert_eq!(outcome, Err(LprError::ProtocolAckError(0x20 + k as u8)));
        assert_eq!(writes, sample_frames()[..k + 1].to_vec());
    }
}

#[test]
fn nonzero_final_ack_fails_after_all_frames() {
    let (writes, outcome) = drive_print(sample_job(), &vec![0, 0, 0, 0, 7]);
    assert_eq!(outcome, Err(LprError::ProtocolAckError(7)));
    assert_eq!(writes, sample_frames());
}

#[test]
fn session_walkthrough_matches_driver() {
    let mut session = Session::new(sample_job());
    let mut writes: Vec<Vec<u8>> = Vec::new();
    loop {
        let frame = match session.next_write() {
            Some(frame) => frame,
            None => break,
        };
        writes.push(frame);
        if session.awaits_ack() {
            session.record_ack(0).expect("zero ack must advance");
        } else {
            session.payload_written();
        }
    }
    assert!(session.is_done());
    assert_eq!(writes, sample_frames());
}

#[test]
fn session_fails_on_nonzero_ack_and_writes_nothing_more() {
    let mut session = Session::new(sample_job());
    let first = session.next_write().expect("idle session has a write");
    assert_eq!(first, b"\x02lp\n".to_vec());
    let outcome = session.record_ack(3);
    assert_eq!(outcome, Err(LprError::ProtocolAckError(3)));
    assert_eq!(session.state, SessionState::Failed);
    assert!(session.next_write().is_none());
    assert!(!session.is_done());
}
