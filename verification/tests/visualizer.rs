use pressure_viz::config::{Config, Discipline, PayloadKind};
use pressure_viz::control::{loop_step, next_phase, Phase};
use pressure_viz::decode::{decode_payload, word_as_i32};
use pressure_viz::export::{csv_lines, header_line, row_line};
use pressure_viz::window::{Sample, SlidingWindow};

fn sample(t_nanos: u64, value: f32) -> Sample {
    Sample { t_nanos, word: value.to_bits() }
}

fn value_of(word: u32) -> f64 {
    f32::from_bits(word) as f64
}

fn seconds_of(elapsed_nanos: u64) -> f64 {
    elapsed_nanos as f64 / 1_000_000_000.0
}

#[test]
fn decode_int_payload_of_one_hundred_thousand() {
    let payload: [u8; 4] = 100_000i32.to_le_bytes();
    let word = decode_payload(&payload).expect("a 4-byte payload must decode");
    assert_eq!(word_as_i32(word), 100_000);
    assert_eq!(word_as_i32(word) as f64, 100_000.0);
}

#[test]
fn decode_float_payload_of_one_hundred_thousand() {
    let payload: [u8; 4] = 100_000.0f32.to_le_bytes();
    let word = decode_payload(&payload).expect("a 4-byte payload must decode");
    assert_eq!(value_of(word), 100_000.0);
}

#[test]
fn decode_rejects_short_payload() {
    assert_eq!(decode_payload(&[0xA0, 0x86, 0x01]), None);
}

#[test]
fn decode_rejects_long_payload() {
    assert_eq!(decode_payload(&[0xA0, 0x86, 0x01, 0x00, 0x00]), None);
}

#[test]
fn decode_rejects_empty_payload() {
    assert_eq!(decode_payload(&[]), None);
}

#[test]
fn window_length_never_exceeds_capacity() {
    let mut w = SlidingWindow::new(4);
    for i in 0..20u64 {
        w.push(sample(i * 1_000, 1.0));
        assert!(w.len() <= 4);
    }
    assert_eq!(w.len(), 4);
}

#[test]
fn first_point_elapsed_is_zero() {
    let mut w = SlidingWindow::new(8);
    w.push(sample(77_000_000, 3.0));
    w.push(sample(98_000_000, 4.0));
    let frame = w.snapshot_as_chart_frame();
    assert_eq!(frame[0].elapsed_nanos, 0);
}

#[test]
fn elapsed_times_are_non_decreasing() {
    let mut w = SlidingWindow::new(8);
    w.push(sample(5, 1.0));
    w.push(sample(5, 2.0));
    w.push(sample(9, 3.0));
    w.push(sample(14, 4.0));
    let frame = w.snapshot_as_chart_frame();
    for pair in frame.windows(2) {
        assert!(pair[0].elapsed_nanos <= pair[1].elapsed_nanos);
    }
}

#[test]
fn snapshot_is_idempotent_without_a_push() {
    let mut w = SlidingWindow::new(8);
    w.push(sample(10, 1.5));
    w.push(sample(20, 2.5));
    w.push(sample(35, 3.5));
    let first = w.snapshot_as_chart_frame();
    let second = w.snapshot_as_chart_frame();
    assert_eq!(first, second);
}

#[test]
fn snapshot_of_empty_window_is_empty() {
    let w = SlidingWindow::new(8);
    assert_eq!(w.len(), 0);
    assert_eq!(w.epoch(), None);
    assert!(w.snapshot_as_chart_frame().is_empty());
}

#[test]
fn window_of_capacity_one_keeps_the_newest_sample() {
    let mut w = SlidingWindow::new(1);
    w.push(sample(100, 1.0));
    w.push(sample(200, 2.0));
    assert_eq!(w.len(), 1);
    assert_eq!(w.epoch(), Some(200));
    let frame = w.snapshot_as_chart_frame();
    assert_eq!(frame[0].elapsed_nanos, 0);
    assert_eq!(value_of(frame[0].word), 2.0);
}

#[test]
fn thousand_and_one_pushes_leave_a_window_based_on_sample_two() {
    let start: u64 = 1_000_000_000;
    let step: u64 = 10_000_000;
    let mut w = SlidingWindow::new(1000);
    for i in 0..1001u64 {
        w.push(sample(start + i * step, 5.0));
    }
    assert_eq!(w.len(), 1000);
    // The oldest remaining sample is the second one ever pushed.
    assert_eq!(w.epoch(), Some(start + step));
    let frame = w.snapshot_as_chart_frame();
    assert_eq!(frame.len(), 1000);
    assert_eq!(frame[0].elapsed_nanos, 0);
    assert_eq!(seconds_of(frame[0].elapsed_nanos), 0.0);
    for p in &frame {
        assert_eq!(value_of(p.word), 5.0);
    }
    assert_eq!(frame[999].elapsed_nanos, 999 * step);
}

#[test]
fn export_of_three_points_gives_header_and_three_rows() {
    let mut w = SlidingWindow::new(1000);
    w.push(sample(0, 10.0));
    w.push(sample(1_000_000_000, 20.0));
    w.push(sample(2_000_000_000, 30.0));
    let frame = w.snapshot_as_chart_frame();
    let rows: Vec<(String, String)> = frame
        .iter()
        .map(|p| (seconds_of(p.elapsed_nanos).to_string(), value_of(p.word).to_string()))
        .collect();
    let lines = csv_lines(&rows);
    assert_eq!(lines.len(), 4);
    assert_eq!(lines[0], "Time(s),Pressure(Pa)");
    assert_eq!(lines[1], "0,10");
    assert_eq!(lines[2], "1,20");
    assert_eq!(lines[3], "2,30");
}

#[test]
fn export_of_empty_frame_is_header_only() {
    let rows: Vec<(String, String)> = Vec::new();
    let lines = csv_lines(&rows);
    assert_eq!(lines.len(), 1);
    assert_eq!(lines[0], "Time(s),Pressure(Pa)");
}

#[test]
fn header_and_row_formatting() {
    assert_eq!(header_line(), "Time(s),Pressure(Pa)");
    assert_eq!(row_line("1.5", "-20"), "1.5,-20");
}

#[test]
fn loop_ends_when_surface_closes_or_exit_key_is_down() {
    assert_eq!(next_phase(true, false), Phase::Running);
    assert_eq!(next_phase(false, false), Phase::Terminated);
    assert_eq!(next_phase(true, true), Phase::Terminated);
    assert_eq!(next_phase(false, true), Phase::Terminated);
}

#[test]
fn running_step_pushes_redraws_and_honours_export() {
    let mut w = SlidingWindow::new(10);
    let out = loop_step(&mut w, true, false, Some(sample(50, 7.0)), false);
    assert_eq!(out.phase, Phase::Running);
    assert!(out.redraw);
    assert!(!out.export);
    assert_eq!(w.len(), 1);

    let out = loop_step(&mut w, true, false, Some(sample(60, 8.0)), true);
    assert_eq!(out.phase, Phase::Running);
    assert!(out.redraw);
    assert!(out.export);
    assert_eq!(w.len(), 2);
}

#[test]
fn running_step_without_a_sample_redraws_unchanged_data() {
    let mut w = SlidingWindow::new(10);
    w.push(sample(1, 1.0));
    let before = w.snapshot_as_chart_frame();
    let out = loop_step(&mut w, true, false, None, false);
    assert_eq!(out.phase, Phase::Running);
    assert!(out.redraw);
    assert!(!out.export);
    assert_eq!(w.snapshot_as_chart_frame(), before);
}

#[test]
fn terminated_step_touches_nothing() {
    let mut w = SlidingWindow::new(10);
    w.push(sample(1, 1.0));
    let out = loop_step(&mut w, false, false, Some(sample(2, 2.0)), true);
    assert_eq!(out.phase, Phase::Terminated);
    assert!(!out.redraw);
    assert!(!out.export);
    assert_eq!(w.len(), 1);
}

#[test]
fn profiles_fix_the_two_observed_deployments() {
    let f = Config::float_profile();
    assert_eq!(f.width, 1600);
    assert_eq!(f.height, 800);
    assert_eq!(f.capacity, 1000);
    assert_eq!(f.x_max_seconds, 120);
    assert_eq!(f.y_min_pa, -50_000);
    assert_eq!(f.y_max_pa, 2_500);
    assert_eq!(f.payload, PayloadKind::Float32);
    assert_eq!(f.discipline, Discipline::Blocking);

    let i = Config::int_profile();
    assert_eq!(i.y_min_pa, -100_000);
    assert_eq!(i.y_max_pa, 2_500);
    assert_eq!(i.payload, PayloadKind::Int32);
    assert_eq!(i.discipline, Discipline::PollWithDelay);
    assert_eq!(i.frame_delay_ms, 15);
}
