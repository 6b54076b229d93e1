use laserport::probe::{probe_frame, record_probe, ProbeOutcome};
use laserport::transmit::{
    next_step, LinkAction, TransmitError, TransmitPhase, BREAK_MICROS, MARK_AFTER_BREAK_MICROS,
};

fn run(fail_at: Option<usize>) -> Vec<LinkAction> {
    let mut phase = TransmitPhase::Idle;
    let mut ok = true;
    let mut actions = Vec::new();
    loop {
        let (p, a) = next_step(phase, ok);
        phase = p;
        actions.push(a);
        if let LinkAction::Finish(_) = a {
            return actions;
        }
        ok = fail_at != Some(actions.len() - 1);
    }
}

#[test]
fn successful_transmission_sequence() {
    assert_eq!(
        run(None),
        vec![
            LinkAction::SetBreak,
            LinkAction::Wait(100),
            LinkAction::ClearBreak,
            LinkAction::Wait(MARK_AFTER_BREAK_MICROS),
            LinkAction::WriteFrame,
            LinkAction::Finish(Ok(())),
        ]
    );
    assert!(BREAK_MICROS >= 88);
}

#[test]
fn failed_break_or_write_ends_with_io_error() {
    assert_eq!(
        run(Some(0)),
        vec![LinkAction::SetBreak, LinkAction::Finish(Err(TransmitError::Io))]
    );
    let failed_write = run(Some(4));
    assert_eq!(failed_write.len(), 6);
    assert_eq!(failed_write[5], LinkAction::Finish(Err(TransmitError::Io)));
    assert_eq!(
        next_step(TransmitPhase::Failed, true),
        (TransmitPhase::Failed, LinkAction::Finish(Err(TransmitError::Io)))
    );
}

#[test]
fn probe_frame_is_one_zero_universe() {
    let f = probe_frame();
    assert_eq!(f.len(), 512);
    assert!(f.iter().all(|&b| b == 0));
}

#[test]
fn failed_probes_are_excluded_and_keep_earlier_finds() {
    let mut found: Vec<String> = Vec::new();
    record_probe(&mut found, "COM3".to_string(), ProbeOutcome::Accepted);
    record_probe(&mut found, "COM4".to_string(), ProbeOutcome::WriteFailed);
    assert_eq!(found, vec!["COM3".to_string()]);
    record_probe(&mut found, "COM5".to_string(), ProbeOutcome::OpenFailed);
    assert_eq!(found, vec!["COM3".to_string()]);
    record_probe(&mut found, "COM6".to_string(), ProbeOutcome::Accepted);
    assert_eq!(found, vec!["COM3".to_string(), "COM6".to_string()]);
}
