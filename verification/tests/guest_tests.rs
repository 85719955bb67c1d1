use openvmm::guest::{fullscreen_resize, guest_action, main_window_id, mouse_button, GuestAction, MouseButton, MouseFollower};
use openvmm::xvsock::XVsockEventEnum;

#[test]
fn button_numbers() {
    assert_eq!(mouse_button(1), Some(MouseButton::Left));
    assert_eq!(mouse_button(2), Some(MouseButton::Middle));
    assert_eq!(mouse_button(3), Some(MouseButton::Right));
    assert_eq!(mouse_button(4), Some(MouseButton::ScrollUp));
    assert_eq!(mouse_button(5), Some(MouseButton::ScrollDown));
    assert_eq!(mouse_button(0), None);
    assert_eq!(mouse_button(6), None);
}

#[test]
fn events_become_actions() {
    assert!(matches!(
        guest_action(XVsockEventEnum::MotionEvent { x: 3, y: 4 }),
        GuestAction::RecordPointer { x: 3, y: 4 }
    ));
    assert!(matches!(
        guest_action(XVsockEventEnum::ButtonEvent { x: 1, y: 2, button: 3, pressed: true }),
        GuestAction::Click { x: 1, y: 2, button: MouseButton::Right, pressed: true }
    ));
    assert!(matches!(
        guest_action(XVsockEventEnum::ButtonEvent { x: 1, y: 2, button: 9, pressed: false }),
        GuestAction::UnsupportedButton { code: 9 }
    ));
    match guest_action(XVsockEventEnum::ConfigureEvent { width: 800, height: 600 }) {
        GuestAction::ResizeWindow { width, height } => assert_eq!((width.as_str(), height.as_str()), ("800", "600")),
        other => panic!("unexpected {:?}", other),
    }
    match guest_action(XVsockEventEnum::ClipboardUpdateRequest { buf: vec![1, 2] }) {
        GuestAction::Paste { buf } => assert_eq!(buf, vec![1, 2]),
        other => panic!("unexpected {:?}", other),
    }
    assert!(matches!(guest_action(XVsockEventEnum::ClipboardRequestEvent), GuestAction::Copy));
    assert!(matches!(
        guest_action(XVsockEventEnum::GuestWindowOpened { width: 1, height: 2 }),
        GuestAction::Unsupported(XVsockEventEnum::GuestWindowOpened { width: 1, height: 2 })
    ));
}

#[test]
fn fullscreen_is_1920_by_1080() {
    match fullscreen_resize() {
        GuestAction::ResizeWindow { width, height } => assert_eq!((width.as_str(), height.as_str()), ("1920", "1080")),
        other => panic!("unexpected {:?}", other),
    }
}

#[test]
fn mouse_follower_moves_once_per_change() {
    let mut f = MouseFollower::new();
    assert_eq!(f.step((0, 0)), None);
    assert_eq!(f.step((5, 6)), Some((5, 6)));
    assert_eq!(f.step((5, 6)), None);
    assert_eq!(f.step((5, 7)), Some((5, 7)));
    assert_eq!(f.last, (5, 7));
}

#[test]
fn main_window_comes_from_a_successful_search() {
    assert_eq!(main_window_id(Some(0), "12345\n"), Some("12345".to_string()));
    assert_eq!(main_window_id(Some(0), "1\n2\n\n"), Some("1\n2".to_string()));
    assert_eq!(main_window_id(Some(0), ""), Some(String::new()));
    assert_eq!(main_window_id(Some(1), "12345\n"), None);
    assert_eq!(main_window_id(None, "12345\n"), None);
}

#[test]
fn mouse_follower_over_a_sequence_of_reports() {
    let reports = [(0, 0), (3, 3), (3, 3), (3, 3), (4, 1), (0, 0), (0, 0), (9, 9)];
    let mut f = MouseFollower::new();
    let moves: Vec<(u16, u16)> = reports.iter().filter_map(|r| f.step(*r)).collect();
    assert_eq!(moves, vec![(3, 3), (4, 1), (0, 0), (9, 9)]);
    assert!(moves.windows(2).all(|w| w[0] != w[1]));
    assert_ne!(moves[0], (0, 0));
    assert!(moves.iter().all(|m| reports.contains(m)));
    assert_eq!(f.last, *reports.last().unwrap());
    assert_eq!(*moves.last().unwrap(), *reports.last().unwrap());
}
