use overworld::{get_input_direction, AxisInput, AxisSign, Direction};

fn axes(horizontal: Option<AxisSign>, vertical: Option<AxisSign>) -> AxisInput {
    AxisInput { horizontal, vertical }
}

#[test]
fn unbound_axes_ask_for_nothing() {
    assert_eq!(get_input_direction(&axes(None, None)), None);
}

#[test]
fn axes_at_rest_ask_for_nothing() {
    let rest = Some(AxisSign::Neutral);
    assert_eq!(get_input_direction(&axes(rest, rest)), None);
    assert_eq!(get_input_direction(&axes(rest, None)), None);
    assert_eq!(get_input_direction(&axes(None, rest)), None);
}

#[test]
fn vertical_axis_alone() {
    assert_eq!(
        get_input_direction(&axes(None, Some(AxisSign::Positive))),
        Some(Direction::Up)
    );
    assert_eq!(
        get_input_direction(&axes(None, Some(AxisSign::Negative))),
        Some(Direction::Down)
    );
}

#[test]
fn horizontal_axis_alone() {
    assert_eq!(
        get_input_direction(&axes(Some(AxisSign::Positive), None)),
        Some(Direction::Right)
    );
    assert_eq!(
        get_input_direction(&axes(Some(AxisSign::Negative), None)),
        Some(Direction::Left)
    );
}

#[test]
fn horizontal_axis_is_heard_while_vertical_rests() {
    let rest = Some(AxisSign::Neutral);
    assert_eq!(
        get_input_direction(&axes(Some(AxisSign::Positive), rest)),
        Some(Direction::Right)
    );
    assert_eq!(
        get_input_direction(&axes(Some(AxisSign::Negative), rest)),
        Some(Direction::Left)
    );
}

#[test]
fn pushed_vertical_axis_overrides_horizontal() {
    let sides = [AxisSign::Negative, AxisSign::Positive];
    for horizontal in sides.iter() {
        assert_eq!(
            get_input_direction(&axes(Some(*horizontal), Some(AxisSign::Positive))),
            Some(Direction::Up)
        );
        assert_eq!(
            get_input_direction(&axes(Some(*horizontal), Some(AxisSign::Negative))),
            Some(Direction::Down)
        );
    }
}

#[test]
fn direction_is_asked_for_exactly_when_an_axis_is_pushed() {
    let readings = [
        None,
        Some(AxisSign::Negative),
        Some(AxisSign::Neutral),
        Some(AxisSign::Positive),
    ];
    for horizontal in readings.iter() {
        for vertical in readings.iter() {
            let idle = |axis: &Option<AxisSign>| matches!(axis, None | Some(AxisSign::Neutral));
            let requested = get_input_direction(&axes(*horizontal, *vertical));
            assert_eq!(requested.is_none(), idle(horizontal) && idle(vertical));
        }
    }
}
