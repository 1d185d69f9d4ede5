use logitech_cve::action::Action;
use logitech_cve::mouse::{Mouse, MouseButton, Point};

/// Where the pointer is after a script, if every command takes effect.
fn land(start: Point, script: &[Action]) -> Point {
    let mut point = start;
    for action in script {
        if let Action::Mouse { x, y, .. } = *action {
            point.x += i32::from(x);
            point.y += i32::from(y);
        }
    }
    point
}

#[test]
fn mouse_tests_press_and_release() {
    let mouse = Mouse::new();

    let script = vec![mouse.press(MouseButton::Left), mouse.release()];
    assert_eq!(
        vec![
            Action::Mouse { button: MouseButton::Left, x: 0, y: 0, wheel: 0 },
            Action::Mouse { button: MouseButton::Release, x: 0, y: 0, wheel: 0 },
        ],
        script
    );
}

#[test]
fn mouse_tests_wheel() {
    let mouse = Mouse::new();

    let script = vec![mouse.wheel(MouseButton::Release, 1), mouse.wheel(MouseButton::Release, -1)];
    assert_eq!(
        vec![
            Action::Mouse { button: MouseButton::Release, x: 0, y: 0, wheel: 1 },
            Action::Mouse { button: MouseButton::Release, x: 0, y: 0, wheel: -1 },
        ],
        script
    );
}

#[test]
fn mouse_tests_move_relative() {
    let mouse = Mouse::new();

    let start_point = Point { x: 0, y: 0 };
    let current_point = land(start_point, &[mouse.move_relative(MouseButton::Release, 1, 1)]);

    assert_eq!(start_point.x + 1, current_point.x);
    assert_eq!(start_point.y + 1, current_point.y);
}

#[test]
fn mouse_tests_move_absolute() {
    let mouse = Mouse::new();
    let mut current_point = Point { x: 1919, y: 1079 };

    let script = mouse.move_absolute(MouseButton::Release, current_point, 500, 500, 10);
    current_point = land(current_point, &script);
    assert_eq!(500, current_point.x);
    assert_eq!(500, current_point.y);

    let script = mouse.move_absolute(MouseButton::Release, current_point, 600, 600, 10);
    current_point = land(current_point, &script);
    assert_eq!(600, current_point.x);
    assert_eq!(600, current_point.y);

    let script = mouse.move_absolute(MouseButton::Release, current_point, 750, 750, 10);
    current_point = land(current_point, &script);
    assert_eq!(750, current_point.x);
    assert_eq!(750, current_point.y);

    let script = mouse.move_absolute(MouseButton::Release, current_point, 1, 1, 10);
    current_point = land(current_point, &script);
    assert_eq!(1, current_point.x);
    assert_eq!(1, current_point.y);
}
