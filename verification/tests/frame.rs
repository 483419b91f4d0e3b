use angry_hub::frame::{ConnectedScreen, Placement, WindowFrames};

#[derive(Clone, Copy, Debug, PartialEq)]
struct Frame {
    rel_x: f32,
    rel_y: f32,
    width: f32,
    height: f32,
}

#[derive(Clone, Copy)]
struct Geometry {
    x: f32,
    y: f32,
    width: f32,
    height: f32,
}

fn laptop() -> (ConnectedScreen, Geometry) {
    (
        ConnectedScreen { id: "laptop".into(), primary: true },
        Geometry { x: 0.0, y: 0.0, width: 1440.0, height: 900.0 },
    )
}

fn external() -> (ConnectedScreen, Geometry) {
    (
        ConnectedScreen { id: "external".into(), primary: false },
        Geometry { x: 1440.0, y: 0.0, width: 2560.0, height: 1440.0 },
    )
}

/// Where a placement puts the window, as the app computes it.
fn position(p: &Placement<Frame>, screens: &[(ConnectedScreen, Geometry)]) -> (u64, String, f32, f32, f32, f32) {
    match *p {
        Placement::Placed { window_id, screen, frame } => {
            let g = screens[screen].1;
            (window_id, screens[screen].0.id.clone(), g.x + frame.rel_x, g.y + frame.rel_y, frame.width, frame.height)
        }
        Placement::Centered { window_id, screen } => {
            let g = screens[screen].1;
            (window_id, screens[screen].0.id.clone(), g.x + (g.width - 800.0) / 2.0, g.y + (g.height - 600.0) / 2.0, 800.0, 600.0)
        }
    }
}

fn restore(frames: &WindowFrames<Frame>, screens: Vec<(ConnectedScreen, Geometry)>) -> Vec<(u64, String, f32, f32, f32, f32)> {
    let ids: Vec<ConnectedScreen> = screens.iter().map(|(s, _)| ConnectedScreen { id: s.id.clone(), primary: s.primary }).collect();
    frames.restore(&ids).iter().map(|p| position(p, &screens)).collect()
}

fn frame(rel_x: f32, rel_y: f32, width: f32, height: f32) -> Frame {
    Frame { rel_x, rel_y, width, height }
}

#[test]
fn restores_a_default_window_when_nothing_is_saved() {
    let frames: WindowFrames<Frame> = WindowFrames::new();
    let restored = restore(&frames, vec![laptop()]);
    assert_eq!(restored, vec![(1, "laptop".to_string(), 320.0, 150.0, 800.0, 600.0)]);
}

#[test]
fn restores_position_and_size_on_the_same_screen() {
    let mut frames = WindowFrames::new();
    frames.remember(1, "laptop", frame(40.0, 80.0, 900.0, 700.0), &["laptop".into()]);
    let restored = restore(&frames, vec![laptop()]);
    assert_eq!(restored, vec![(1, "laptop".to_string(), 40.0, 80.0, 900.0, 700.0)]);
}

#[test]
fn restores_each_window_on_its_own_screen() {
    let mut frames = WindowFrames::new();
    let both: [String; 2] = ["laptop".into(), "external".into()];
    frames.remember(1, "laptop", frame(10.0, 20.0, 800.0, 600.0), &both);
    frames.remember(2, "external", frame(30.0, 40.0, 1200.0, 800.0), &both);
    let mut restored = restore(&frames, vec![laptop(), external()]);
    restored.sort_by_key(|w| w.0);
    assert_eq!(
        restored,
        vec![
            (1, "laptop".to_string(), 10.0, 20.0, 800.0, 600.0),
            (2, "external".to_string(), 1470.0, 40.0, 1200.0, 800.0),
        ]
    );
}

#[test]
fn keeps_a_screens_position_when_that_screen_is_unplugged() {
    let mut frames = WindowFrames::new();
    frames.remember(1, "external", frame(100.0, 200.0, 900.0, 700.0), &["laptop".into(), "external".into()]);
    frames.remember(1, "laptop", frame(5.0, 5.0, 800.0, 600.0), &["laptop".into()]);

    let parked = restore(&frames, vec![laptop()]);
    assert_eq!(parked[0].1, "laptop");

    let restored = restore(&frames, vec![laptop(), external()]);
    assert_eq!(restored, vec![(1, "external".to_string(), 1540.0, 200.0, 900.0, 700.0)]);
}

#[test]
fn nothing_reopens_without_screens() {
    let frames: WindowFrames<Frame> = WindowFrames::new();
    assert!(frames.restore(&[]).is_empty());
}

#[test]
fn a_window_without_a_frame_on_any_connected_screen_is_centered_on_the_primary() {
    let mut frames = WindowFrames::new();
    frames.remember(4, "projector", frame(1.0, 1.0, 300.0, 300.0), &["projector".into()]);
    let restored = restore(&frames, vec![external(), laptop()]);
    assert_eq!(restored, vec![(4, "laptop".to_string(), 320.0, 150.0, 800.0, 600.0)]);
}
