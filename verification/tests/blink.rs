use usb_blinky::blink::{next_iteration, run_iterations, Level, Phase};

#[test]
fn counter_steps_and_wraps() {
    assert_eq!(next_iteration(0), 1);
    assert_eq!(next_iteration(41), 42);
    assert_eq!(next_iteration(u32::MAX), 0);
}

#[test]
fn each_iteration_emits_its_numbered_line() {
    // Three iterations: three status lines carrying 0, 1, 2, each followed
    // by its delay note, and three low-wait-high-wait transitions.
    let t = run_iterations(0, 3, 250);
    assert_eq!(t.lines.len(), 6);
    assert_eq!(t.lines[0], b"starting loop number 0\r\n".to_vec());
    assert_eq!(t.lines[1], b"  current delay is 250\r\n".to_vec());
    assert_eq!(t.lines[2], b"starting loop number 1\r\n".to_vec());
    assert_eq!(t.lines[3], b"  current delay is 250\r\n".to_vec());
    assert_eq!(t.lines[4], b"starting loop number 2\r\n".to_vec());
    assert_eq!(t.lines[5], b"  current delay is 250\r\n".to_vec());
    assert_eq!(t.phases.len(), 6);
}

#[test]
fn phases_alternate_strictly() {
    let t = run_iterations(7, 4, 125);
    assert_eq!(t.phases.len(), 8);
    for (i, phase) in t.phases.iter().enumerate() {
        let expected = if i % 2 == 0 { Level::Low } else { Level::High };
        assert_eq!(phase.level, expected);
        assert_eq!(phase.ms, 125);
    }
}

#[test]
fn counter_start_is_respected() {
    let t = run_iterations(41, 2, 10);
    assert_eq!(t.lines[0], b"starting loop number 41\r\n".to_vec());
    assert_eq!(t.lines[2], b"starting loop number 42\r\n".to_vec());
}

#[test]
fn zero_iterations_do_nothing() {
    let t = run_iterations(0, 0, 500);
    assert!(t.lines.is_empty());
    assert!(t.phases.is_empty());
}

#[test]
fn two_seconds_at_half_second_delay() {
    // With a 500 ms delay each iteration takes a full second: after 2000 ms
    // of run time the pin has completed exactly 2 full on/off cycles and the
    // host has received exactly 4 lines, the status lines numbered 0 and 1.
    let d: u32 = 500;
    let run_time_ms: u32 = 2000;
    let iterations = run_time_ms / (2 * d);
    assert_eq!(iterations, 2);
    let t = run_iterations(0, iterations, d);
    assert_eq!(
        t.phases,
        vec![
            Phase { level: Level::Low, ms: 500 },
            Phase { level: Level::High, ms: 500 },
            Phase { level: Level::Low, ms: 500 },
            Phase { level: Level::High, ms: 500 },
        ]
    );
    assert_eq!(t.lines.len(), 4);
    assert_eq!(t.lines[0], b"starting loop number 0\r\n".to_vec());
    assert_eq!(t.lines[1], b"  current delay is 500\r\n".to_vec());
    assert_eq!(t.lines[2], b"starting loop number 1\r\n".to_vec());
    assert_eq!(t.lines[3], b"  current delay is 500\r\n".to_vec());
}
