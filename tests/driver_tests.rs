use cube::driver::{RenderDriver, SimDriver, SimPass};
use cube::event::{Rect, WindowEvent, KEY_RIGHT};
use cube::pacing::FrameDecision;
use cube::scene::{grid_positions, GRID_PER_ROW};

#[test]
fn grid_is_centred_row_by_row() {
    let g = grid_positions();
    assert_eq!(g.len(), (GRID_PER_ROW * GRID_PER_ROW) as usize);
    assert_eq!(g[0], (15, 0, 15));
    assert_eq!(g[1], (12, 0, 15));
    assert_eq!(g[9], (-12, 0, 15));
    assert_eq!(g[10], (15, 0, 12));
    assert_eq!(g[55], (0, 0, 0));
    assert_eq!(g[99], (-12, 0, -12));
}

#[test]
fn sim_pass_applies_input_then_counts_ticks() {
    let mut d = SimDriver::new(0, 40_000);
    let area = Rect { left: 0, top: 0, right: 300, bottom: 200 };
    let events = vec![WindowEvent::KeyDown { key: KEY_RIGHT, repeat: false }, WindowEvent::Resize(area)];
    let pass = d.begin_pass(&events, 85_000);
    assert_eq!(pass, SimPass { resize: Some(area), ticks: 2 });
    assert!(d.input.right);
    d.input.mouse_x = 4;
    assert_eq!(d.end_pass(86_000), 33);
    assert_eq!(d.input.mouse_x, 0);
    assert!(d.input.right);
    let pass = d.begin_pass(&vec![], 100_000);
    assert_eq!(pass, SimPass { resize: None, ticks: 0 });
    assert_eq!(d.clock.ticks(), 2);
}

#[test]
fn render_pass_keeps_last_snapshot_and_never_waits() {
    let mut r: RenderDriver<u32> = RenderDriver::new(0, 16_666);
    assert_eq!(r.pass(None, 5_000), FrameDecision::Wait { sleep_ms: 10 });
    assert_eq!(r.current(), None);
    assert_eq!(r.pass(Some(7), 17_000), FrameDecision::Render);
    assert_eq!(r.current(), Some(7));
    assert_eq!(r.pass(None, 18_000), FrameDecision::Wait { sleep_ms: 14 });
    assert_eq!(r.current(), Some(7));
    assert_eq!(r.pass(Some(8), 40_000), FrameDecision::Render);
    assert_eq!(r.current(), Some(8));
}
