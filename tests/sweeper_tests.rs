use pinokio::sweeper::{signed_decimal_text, OrphanSweep, SweepStage};

#[test]
fn sweep_runs_port_then_scripts_then_ends() {
    let mut s = OrphanSweep::new();
    let a = s.start();
    assert_eq!(s.stage, SweepStage::Port);
    assert_eq!(a.logs, vec!["[CLEANUP] Checking for zombie processes on port 42000...".to_string()]);
    let c = a.run.unwrap();
    assert_eq!(c.program, "sh");
    assert_eq!(c.args, vec!["-c".to_string(), "lsof -t -i:42000 | xargs -r kill -9".to_string()]);

    let b = s.on_port_swept(Ok(true));
    assert_eq!(s.stage, SweepStage::Orphans);
    assert_eq!(
        b.logs,
        vec![
            "[CLEANUP] Port 42000 sweep complete. Success: true".to_string(),
            "[CLEANUP] Sweeping for orphaned pinokiod scripts...".to_string(),
        ]
    );
    let c = b.run.unwrap();
    assert_eq!(c.program, "pkill");
    assert_eq!(c.args, vec!["-f".to_string(), "pinokiod/script/index.js".to_string()]);

    let d = s.on_orphans_swept(Ok(Some(1)));
    assert_eq!(s.stage, SweepStage::Done);
    assert!(d.run.is_none());
    assert_eq!(d.logs, vec!["[CLEANUP] Orphan sweep complete. (Exit code: Some(1))".to_string()]);
}

#[test]
fn sweep_failures_are_only_logged() {
    let mut s = OrphanSweep::new();
    s.start();
    let b = s.on_port_swept(Err("sh missing".to_string()));
    assert_eq!(b.logs[0], "[CLEANUP] Warning: Failed to sweep port 42000: sh missing");
    assert!(b.run.is_some());
    let d = s.on_orphans_swept(Err("pkill missing".to_string()));
    assert_eq!(d.logs, vec!["[CLEANUP] Warning: Failed to sweep orphans: pkill missing".to_string()]);
    assert!(d.run.is_none());
    assert_eq!(s.stage, SweepStage::Done);
}

#[test]
fn nothing_to_sweep_still_finishes() {
    let mut s = OrphanSweep::new();
    s.start();
    let b = s.on_port_swept(Ok(false));
    assert_eq!(b.logs[0], "[CLEANUP] Port 42000 sweep complete. Success: false");
    let d = s.on_orphans_swept(Ok(None));
    assert_eq!(d.logs, vec!["[CLEANUP] Orphan sweep complete. (Exit code: None)".to_string()]);
    assert_eq!(s.stage, SweepStage::Done);
}

#[test]
fn signed_decimals() {
    assert_eq!(signed_decimal_text(0), "0");
    assert_eq!(signed_decimal_text(-5), "-5");
    assert_eq!(signed_decimal_text(i32::MIN), "-2147483648");
    assert_eq!(signed_decimal_text(i32::MAX), "2147483647");
}
