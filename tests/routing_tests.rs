use cube::dispatch::{dispatch, key_repeat_flag, Dispatch, Notification, Reply};
use cube::event::{Rect, WindowEvent, KEY_LEFT};
use cube::input::InputState;
use cube::queue::EventQueue;
use cube::surface::surface_size;

#[test]
fn queue_is_fifo_and_drain_empties_it() {
    let mut q = EventQueue::new();
    assert!(q.is_empty());
    q.push(WindowEvent::Paint);
    q.push(WindowEvent::PointerMove { x: 3, y: 4 });
    q.push(WindowEvent::KeyUp { key: 9 });
    assert_eq!(q.len(), 3);
    let out = q.drain();
    assert_eq!(
        out,
        vec![WindowEvent::Paint, WindowEvent::PointerMove { x: 3, y: 4 }, WindowEvent::KeyUp { key: 9 }]
    );
    assert!(q.is_empty());
    assert_eq!(q.drain(), vec![]);
}

#[test]
fn resize_goes_to_both_queues() {
    let r = Rect { left: 0, top: 0, right: 640, bottom: 480 };
    let d = dispatch(Notification::Resize(r), true);
    assert_eq!(
        d,
        Dispatch {
            to_simulation: Some(WindowEvent::Resize(r)),
            to_render: Some(WindowEvent::Resize(r)),
            reply: Reply::Handled,
        }
    );
}

#[test]
fn paint_and_pointer_go_to_render_only() {
    let d = dispatch(Notification::Paint, true);
    assert_eq!(d.to_simulation, None);
    assert_eq!(d.to_render, Some(WindowEvent::Paint));
    let d = dispatch(Notification::PointerMove { x: 10, y: 20 }, true);
    assert_eq!(d.to_simulation, None);
    assert_eq!(d.to_render, Some(WindowEvent::PointerMove { x: 10, y: 20 }));
}

#[test]
fn keys_go_to_simulation_only() {
    let d = dispatch(Notification::KeyDown { key: KEY_LEFT, flags: 1 }, true);
    assert_eq!(d.to_simulation, Some(WindowEvent::KeyDown { key: KEY_LEFT, repeat: false }));
    assert_eq!(d.to_render, None);
    let d = dispatch(Notification::KeyDown { key: KEY_LEFT, flags: 0x4000_0001 }, true);
    assert_eq!(d.to_simulation, Some(WindowEvent::KeyDown { key: KEY_LEFT, repeat: true }));
    let d = dispatch(Notification::KeyUp { key: KEY_LEFT, flags: 0xC000_0001 }, true);
    assert_eq!(d.to_simulation, Some(WindowEvent::KeyUp { key: KEY_LEFT }));
    assert_eq!(d.to_render, None);
    assert_eq!(d.reply, Reply::Handled);
}

#[test]
fn other_notifications_are_not_queued() {
    assert_eq!(dispatch(Notification::Destroy, true).reply, Reply::Quit);
    assert_eq!(dispatch(Notification::MouseActivate, true).reply, Reply::Handled);
    let d = dispatch(Notification::Other, true);
    assert_eq!((d.to_simulation, d.to_render, d.reply), (None, None, Reply::PassOn));
}

#[test]
fn uninstalled_queues_drop_everything() {
    let r = Rect { left: 0, top: 0, right: 1, bottom: 1 };
    for n in [Notification::Resize(r), Notification::Paint, Notification::Destroy] {
        let d = dispatch(n, false);
        assert_eq!(d, Dispatch { to_simulation: None, to_render: None, reply: Reply::PassOn });
    }
}

#[test]
fn repeat_flag_is_bit_thirty() {
    assert!(!key_repeat_flag(0));
    assert!(!key_repeat_flag(0x0000_4000));
    assert!(key_repeat_flag(0x4000_0000));
    assert!(key_repeat_flag(0xFFFF_FFFF));
}

#[test]
fn resize_updates_aspect_and_surface_independently() {
    let r = Rect { left: 0, top: 0, right: 1280, bottom: 720 };
    let d = dispatch(Notification::Resize(r), true);
    let mut sim_q = EventQueue::new();
    let mut render_q = EventQueue::new();
    if let Some(e) = d.to_render {
        render_q.push(e);
    }
    if let Some(e) = d.to_simulation {
        sim_q.push(e);
    }
    // Render side first, simulation side later: no order is needed.
    let render_events = render_q.drain();
    assert_eq!(render_events.len(), 1);
    match render_events[0] {
        WindowEvent::Resize(rect) => assert_eq!(surface_size(&rect), Some((1280, 720))),
        _ => panic!("expected a resize"),
    }
    let mut input = InputState::new();
    let area = input.apply_events(&sim_q.drain()).expect("resize reaches the simulation");
    assert_eq!((area.width(), area.height()), (1280, 720));
    let aspect = area.width() as f32 / area.height() as f32;
    assert!((aspect - 16.0 / 9.0).abs() < 1e-6);
}

#[test]
fn empty_area_keeps_surface_size() {
    assert_eq!(surface_size(&Rect { left: 0, top: 0, right: 0, bottom: 300 }), None);
    assert_eq!(surface_size(&Rect { left: 10, top: 0, right: 5, bottom: 300 }), None);
    assert_eq!(surface_size(&Rect { left: 10, top: 20, right: 110, bottom: 70 }), Some((100, 50)));
    let wide = Rect { left: i32::MIN, top: 0, right: i32::MAX, bottom: 1 };
    assert_eq!(wide.width(), u32::MAX as i64);
    assert_eq!(surface_size(&wide), Some((u32::MAX, 1)));
}
