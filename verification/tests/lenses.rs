use input::{
    AfterRenderArgs, AfterRenderEvent, Button, ControllerAxisArgs, ControllerAxisEvent,
    ControllerButton, CursorEvent, Event, FocusEvent, IdleArgs, IdleEvent, Input, Motion,
    MouseCursorEvent, MouseRelativeEvent, MouseScrollEvent, PressEvent, ReleaseEvent, RenderArgs,
    RenderEvent, ResizeEvent, Scalar, TextEvent, Touch, TouchArgs, TouchEvent, UpdateArgs,
    UpdateEvent,
};

fn scalar(x: f64) -> Scalar {
    Scalar::from_bits(x.to_bits())
}

fn sample_touch() -> TouchArgs {
    TouchArgs::new(3, 7, scalar(0.25), scalar(0.75), scalar(1.0), Touch::Move)
}

fn sample_render() -> RenderArgs {
    RenderArgs { ext_dt: scalar(0.004), width: 640, height: 480, draw_width: 1280, draw_height: 960 }
}

#[test]
fn test_input_controller_axis() {
    let e = Input::Move(Motion::ControllerAxis(ControllerAxisArgs::new(0, 1, scalar(0.9))));
    let a: Option<Input> =
        ControllerAxisEvent::from_controller_axis_args(ControllerAxisArgs::new(0, 1, scalar(0.9)), &e);
    let b: Option<Input> = a
        .clone()
        .unwrap()
        .controller_axis(|cnt| {
            ControllerAxisEvent::from_controller_axis_args(
                ControllerAxisArgs::new(cnt.id, cnt.axis, cnt.position),
                a.as_ref().unwrap(),
            )
        })
        .unwrap();
    assert_eq!(a, b);
}

#[test]
fn test_event_controller_axis() {
    let e = Event::Input(Input::Move(Motion::ControllerAxis(ControllerAxisArgs::new(
        0,
        1,
        scalar(0.9),
    ))));
    let a: Option<Event> =
        ControllerAxisEvent::from_controller_axis_args(ControllerAxisArgs::new(0, 1, scalar(0.9)), &e);
    let b: Option<Event> = a
        .clone()
        .unwrap()
        .controller_axis(|cnt| {
            ControllerAxisEvent::from_controller_axis_args(
                ControllerAxisArgs::new(cnt.id, cnt.axis, cnt.position),
                a.as_ref().unwrap(),
            )
        })
        .unwrap();
    assert_eq!(a, b);
}

#[test]
fn test_input_focus() {
    let e = Input::Focus(false);
    let x: Option<Input> = FocusEvent::from_focused(true, &e);
    let y: Option<Input> = x
        .clone()
        .unwrap()
        .focus(|focused| FocusEvent::from_focused(focused, x.as_ref().unwrap()))
        .unwrap();
    assert_eq!(x, y);
}

#[test]
fn test_event_focus() {
    let e = Event::Input(Input::Focus(false));
    let x: Option<Event> = FocusEvent::from_focused(true, &e);
    let y: Option<Event> = x
        .clone()
        .unwrap()
        .focus(|focused| FocusEvent::from_focused(focused, x.as_ref().unwrap()))
        .unwrap();
    assert_eq!(x, y);
}

#[test]
fn test_event_update() {
    let e = Event::Update(UpdateArgs { dt: scalar(0.0) });
    let x: Option<Event> = UpdateEvent::from_update_args(&UpdateArgs { dt: scalar(1.0) }, &e);
    let y: Option<Event> = x
        .clone()
        .unwrap()
        .update(|args| UpdateEvent::from_update_args(args, x.as_ref().unwrap()))
        .unwrap();
    assert_eq!(x, y);
}

#[test]
fn axis_lens_reads_the_triple_and_focus_lens_passes() {
    let args = ControllerAxisArgs::new(0, 1, scalar(0.9));
    let input = Input::Move(Motion::ControllerAxis(args));
    let read = input.controller_axis_args().unwrap();
    assert_eq!(read.id, 0);
    assert_eq!(read.axis, 1);
    assert_eq!(f64::from_bits(read.position.to_bits()), 0.9);
    assert_eq!(input.focus_args(), None);
    assert_eq!(input.focus(|focused| focused), None);
}

#[test]
fn axis_position_keeps_every_value() {
    let old = Input::Close;
    for position in [-1.0, 1.0, 2.0, 0.0, -0.0, f64::MAX, f64::MIN_POSITIVE, f64::INFINITY] {
        let args = ControllerAxisArgs::new(-5, 255, scalar(position));
        let built: Input = ControllerAxisEvent::from_controller_axis_args(args, &old).unwrap();
        assert_eq!(built, Input::Move(Motion::ControllerAxis(args)));
        let read = built.controller_axis_args().unwrap();
        assert_eq!(read.position.to_bits(), position.to_bits());
        assert_eq!((read.id, read.axis), (-5, 255));
    }
    let nan = ControllerAxisArgs::new(0, 0, scalar(f64::NAN));
    let built: Input = ControllerAxisEvent::from_controller_axis_args(nan, &old).unwrap();
    assert_eq!(built.controller_axis_args().unwrap().position.to_bits(), f64::NAN.to_bits());
}

#[test]
fn update_is_built_from_the_new_arguments() {
    let old = Event::Update(UpdateArgs { dt: scalar(0.0) });
    let built: Option<Event> = UpdateEvent::from_update_args(&UpdateArgs { dt: scalar(1.0) }, &old);
    assert_eq!(built, Some(Event::Update(UpdateArgs { dt: scalar(1.0) })));
    let other_old: Event = Event::Input(Input::Text(String::from("stale")));
    let again: Option<Event> =
        UpdateEvent::from_update_args(&UpdateArgs { dt: scalar(1.0) }, &other_old);
    assert_eq!(again, built);
}

#[test]
fn from_dt_builds_update_and_idle() {
    let old: Event = Event::Render(sample_render());
    let update: Option<Event> = UpdateEvent::from_dt(scalar(0.5), &old);
    assert_eq!(update, Some(Event::Update(UpdateArgs { dt: scalar(0.5) })));
    let idle: Option<Event> = IdleEvent::from_dt(scalar(0.0), &old);
    assert_eq!(idle, Some(Event::Idle(IdleArgs { dt: scalar(0.0) })));
    let none: Option<Input> = UpdateEvent::from_dt(scalar(0.5), &Input::Close);
    assert_eq!(none, None);
    let none: Option<Input> = IdleEvent::from_dt(scalar(0.5), &Input::Close);
    assert_eq!(none, None);
}

#[test]
fn input_builds_every_kind_of_input() {
    let old = Input::Close;
    let button = Button::Controller(ControllerButton::new(2, 9));
    assert_eq!(CursorEvent::from_cursor(true, &old), Some(Input::Cursor(true)));
    assert_eq!(FocusEvent::from_focused(false, &old), Some(Input::Focus(false)));
    assert_eq!(
        MouseCursorEvent::from_xy(scalar(10.5), scalar(-3.0), &old),
        Some(Input::Move(Motion::MouseCursor(scalar(10.5), scalar(-3.0))))
    );
    assert_eq!(
        MouseRelativeEvent::from_xy(scalar(0.0), scalar(0.0), &old),
        Some(Input::Move(Motion::MouseRelative(scalar(0.0), scalar(0.0))))
    );
    assert_eq!(
        MouseScrollEvent::from_xy(scalar(0.0), scalar(-1.0), &old),
        Some(Input::Move(Motion::MouseScroll(scalar(0.0), scalar(-1.0))))
    );
    assert_eq!(PressEvent::from_button(button, &old), Some(Input::Press(button)));
    assert_eq!(ReleaseEvent::from_button(button, &old), Some(Input::Release(button)));
    assert_eq!(ResizeEvent::from_width_height(0, u32::MAX, &old), Some(Input::Resize(0, u32::MAX)));
    assert_eq!(TextEvent::from_text("héllo", &old), Some(Input::Text(String::from("héllo"))));
    assert_eq!(
        TouchEvent::from_touch_args(&sample_touch(), &old),
        Some(Input::Move(Motion::Touch(sample_touch())))
    );
}

#[test]
fn input_builds_no_tick() {
    let old = Input::Focus(true);
    let update: Option<Input> = UpdateEvent::from_update_args(&UpdateArgs { dt: scalar(1.0) }, &old);
    assert_eq!(update, None);
    let render: Option<Input> = RenderEvent::from_render_args(&sample_render(), &old);
    assert_eq!(render, None);
    let after: Option<Input> = AfterRenderEvent::from_after_render_args(&AfterRenderArgs, &old);
    assert_eq!(after, None);
    let idle: Option<Input> = IdleEvent::from_idle_args(&IdleArgs { dt: scalar(1.0) }, &old);
    assert_eq!(idle, None);
    assert_eq!(old.update_args(), None);
    assert_eq!(old.render_args(), None);
    assert_eq!(old.after_render_args(), None);
    assert_eq!(old.idle_args(), None);
    assert_eq!(old.update(|_| 1), None);
}

#[test]
fn input_lenses_read_what_was_built() {
    let button = Button::Keyboard(65);
    assert_eq!(Input::Cursor(false).cursor_args(), Some(false));
    assert_eq!(Input::Focus(true).focus_args(), Some(true));
    assert_eq!(
        Input::Move(Motion::MouseCursor(scalar(1.0), scalar(2.0))).mouse_cursor_args(),
        Some((scalar(1.0), scalar(2.0)))
    );
    assert_eq!(
        Input::Move(Motion::MouseRelative(scalar(0.0), scalar(0.0))).mouse_relative_args(),
        Some((scalar(0.0), scalar(0.0)))
    );
    assert_eq!(
        Input::Move(Motion::MouseScroll(scalar(-1.0), scalar(3.0))).mouse_scroll_args(),
        Some((scalar(-1.0), scalar(3.0)))
    );
    assert_eq!(Input::Press(button).press_args(), Some(button));
    assert_eq!(Input::Release(button).release_args(), Some(button));
    assert_eq!(Input::Resize(800, 600).resize_args(), Some((800, 600)));
    assert_eq!(Input::Text(String::from("abc")).text_args(), Some(String::from("abc")));
    assert_eq!(Input::Move(Motion::Touch(sample_touch())).touch_args(), Some(sample_touch()));
}

#[test]
fn empty_text_round_trips() {
    let built: Input = TextEvent::from_text("", &Input::Close).unwrap();
    assert_eq!(built, Input::Text(String::new()));
    assert_eq!(built.text_args(), Some(String::new()));
    assert_eq!(built.text(|text| text.len()), Some(0));
    let event: Event = TextEvent::from_text("", &Event::Input(Input::Close)).unwrap();
    assert_eq!(event.text_args(), Some(String::new()));
}

#[test]
fn closure_gets_the_arguments_and_its_result_comes_back() {
    let input = Input::Resize(3, 4);
    assert_eq!(input.resize(|w, h| w * 10 + h), Some(34));
    let event: Event = Event::Input(Input::Text(String::from("ab")));
    assert_eq!(event.text(|text| format!("{}!", text)), Some(String::from("ab!")));
    let mut calls = 0;
    let res = Input::Focus(true).focus(|focused| {
        calls += 1;
        !focused
    });
    assert_eq!(res, Some(false));
    assert_eq!(calls, 1);
}

#[test]
fn closure_is_not_called_on_another_kind() {
    let mut calls = 0;
    let res = Input::Cursor(true).focus(|_| {
        calls += 1;
    });
    assert_eq!(res, None);
    let event: Event = Event::Update(UpdateArgs { dt: scalar(1.0) });
    let res = event.cursor(|_| {
        calls += 1;
    });
    assert_eq!(res, None);
    let res = Event::Input(Input::Focus(true)).update(|_| {
        calls += 1;
    });
    assert_eq!(res, None);
    assert_eq!(calls, 0);
}

#[test]
fn event_builds_input_only_against_an_old_input() {
    let ticks: [Event; 4] = [
        Event::Update(UpdateArgs { dt: scalar(1.0) }),
        Event::Render(sample_render()),
        Event::AfterRender(AfterRenderArgs),
        Event::Idle(IdleArgs { dt: scalar(1.0) }),
    ];
    let button = Button::Mouse(1);
    for old in ticks.iter() {
        assert_eq!(FocusEvent::from_focused(true, old), None);
        assert_eq!(CursorEvent::from_cursor(true, old), None);
        assert_eq!(
            ControllerAxisEvent::from_controller_axis_args(
                ControllerAxisArgs::new(0, 1, scalar(0.9)),
                old
            ),
            None
        );
        assert_eq!(MouseCursorEvent::from_xy(scalar(1.0), scalar(2.0), old), None);
        assert_eq!(MouseRelativeEvent::from_xy(scalar(1.0), scalar(2.0), old), None);
        assert_eq!(MouseScrollEvent::from_xy(scalar(1.0), scalar(2.0), old), None);
        assert_eq!(PressEvent::from_button(button, old), None);
        assert_eq!(ReleaseEvent::from_button(button, old), None);
        assert_eq!(ResizeEvent::from_width_height(1, 2, old), None);
        assert_eq!(TextEvent::from_text("a", old), None);
        assert_eq!(TouchEvent::from_touch_args(&sample_touch(), old), None);
    }
    let old: Event = Event::Input(Input::Close);
    assert_eq!(FocusEvent::from_focused(true, &old), Some(Event::Input(Input::Focus(true))));
    assert_eq!(CursorEvent::from_cursor(false, &old), Some(Event::Input(Input::Cursor(false))));
    assert_eq!(
        MouseCursorEvent::from_xy(scalar(1.0), scalar(2.0), &old),
        Some(Event::Input(Input::Move(Motion::MouseCursor(scalar(1.0), scalar(2.0)))))
    );
    assert_eq!(
        MouseRelativeEvent::from_xy(scalar(1.0), scalar(2.0), &old),
        Some(Event::Input(Input::Move(Motion::MouseRelative(scalar(1.0), scalar(2.0)))))
    );
    assert_eq!(
        MouseScrollEvent::from_xy(scalar(1.0), scalar(2.0), &old),
        Some(Event::Input(Input::Move(Motion::MouseScroll(scalar(1.0), scalar(2.0)))))
    );
    assert_eq!(PressEvent::from_button(button, &old), Some(Event::Input(Input::Press(button))));
    assert_eq!(
        ReleaseEvent::from_button(button, &old),
        Some(Event::Input(Input::Release(button)))
    );
    assert_eq!(
        ResizeEvent::from_width_height(1, 2, &old),
        Some(Event::Input(Input::Resize(1, 2)))
    );
    assert_eq!(
        TextEvent::from_text("a", &old),
        Some(Event::Input(Input::Text(String::from("a"))))
    );
    assert_eq!(
        TouchEvent::from_touch_args(&sample_touch(), &old),
        Some(Event::Input(Input::Move(Motion::Touch(sample_touch()))))
    );
}

#[test]
fn event_builds_ticks_against_any_old_event() {
    let olds: [Event; 3] = [
        Event::Input(Input::Focus(true)),
        Event::Idle(IdleArgs { dt: scalar(9.0) }),
        Event::Update(UpdateArgs { dt: scalar(9.0) }),
    ];
    for old in olds.iter() {
        assert_eq!(
            UpdateEvent::from_update_args(&UpdateArgs { dt: scalar(0.0) }, old),
            Some(Event::Update(UpdateArgs { dt: scalar(0.0) }))
        );
        assert_eq!(
            RenderEvent::from_render_args(&sample_render(), old),
            Some(Event::Render(sample_render()))
        );
        assert_eq!(
            AfterRenderEvent::from_after_render_args(&AfterRenderArgs, old),
            Some(Event::AfterRender(AfterRenderArgs))
        );
        assert_eq!(
            IdleEvent::from_idle_args(&IdleArgs { dt: scalar(0.0) }, old),
            Some(Event::Idle(IdleArgs { dt: scalar(0.0) }))
        );
    }
}

#[test]
fn event_tick_lenses_read_the_tick() {
    let update: Event = Event::Update(UpdateArgs { dt: scalar(0.016) });
    assert_eq!(update.update_args(), Some(UpdateArgs { dt: scalar(0.016) }));
    assert_eq!(update.update(|args| args.dt), Some(scalar(0.016)));
    let render: Event = Event::Render(sample_render());
    assert_eq!(render.render_args(), Some(sample_render()));
    assert_eq!(render.render(|args| args.width + args.height), Some(1120));
    let after: Event = Event::AfterRender(AfterRenderArgs);
    assert_eq!(after.after_render_args(), Some(AfterRenderArgs));
    assert_eq!(after.after_render(|_| 5), Some(5));
    let idle: Event = Event::Idle(IdleArgs { dt: scalar(2.0) });
    assert_eq!(idle.idle_args(), Some(IdleArgs { dt: scalar(2.0) }));
    assert_eq!(idle.idle(|args| args.dt), Some(scalar(2.0)));
    assert_eq!(update.render_args(), None);
    assert_eq!(render.update_args(), None);
    assert_eq!(after.idle_args(), None);
    assert_eq!(idle.after_render_args(), None);
}

#[test]
fn event_lens_reads_what_the_inner_lens_reads() {
    let button = Button::Controller(ControllerButton::new(0, 3));
    let inputs = [
        Input::Cursor(true),
        Input::Focus(false),
        Input::Close,
        Input::Move(Motion::MouseCursor(scalar(1.0), scalar(2.0))),
        Input::Move(Motion::MouseRelative(scalar(3.0), scalar(4.0))),
        Input::Move(Motion::MouseScroll(scalar(5.0), scalar(6.0))),
        Input::Move(Motion::ControllerAxis(ControllerAxisArgs::new(0, 1, scalar(0.9)))),
        Input::Move(Motion::Touch(sample_touch())),
        Input::Press(button),
        Input::Release(button),
        Input::Resize(7, 8),
        Input::Text(String::from("t")),
    ];
    for input in inputs.iter() {
        let event = Event::Input(input.clone());
        assert_eq!(event.cursor_args(), input.cursor_args());
        assert_eq!(event.focus_args(), input.focus_args());
        assert_eq!(event.mouse_cursor_args(), input.mouse_cursor_args());
        assert_eq!(event.mouse_relative_args(), input.mouse_relative_args());
        assert_eq!(event.mouse_scroll_args(), input.mouse_scroll_args());
        assert_eq!(event.controller_axis_args(), input.controller_axis_args());
        assert_eq!(event.touch_args(), input.touch_args());
        assert_eq!(event.press_args(), input.press_args());
        assert_eq!(event.release_args(), input.release_args());
        assert_eq!(event.resize_args(), input.resize_args());
        assert_eq!(event.text_args(), input.text_args());
        assert_eq!(event.update_args(), None);
        assert_eq!(event.render_args(), None);
        assert_eq!(event.after_render_args(), None);
        assert_eq!(event.idle_args(), None);
    }
}

#[test]
fn payload_records_are_built_from_their_fields() {
    let button = ControllerButton::new(-1, 200);
    assert_eq!(button, ControllerButton { id: -1, button: 200 });
    let axis = ControllerAxisArgs::new(i32::MIN, 0, scalar(2.0));
    assert_eq!(axis, ControllerAxisArgs { id: i32::MIN, axis: 0, position: scalar(2.0) });
    let touch = TouchArgs::new(1, 2, scalar(0.1), scalar(0.2), scalar(0.3), Touch::Cancel);
    assert_eq!(
        touch,
        TouchArgs {
            device: 1,
            id: 2,
            x: scalar(0.1),
            y: scalar(0.2),
            pressure: scalar(0.3),
            touch: Touch::Cancel
        }
    );
    assert_eq!(Scalar::from_bits(0x3ff0_0000_0000_0000).to_bits(), 1.0f64.to_bits());
    assert_eq!(Scalar::from_bits(u64::MAX), Scalar { bits: u64::MAX });
    assert_ne!(scalar(0.0), scalar(-0.0));
}
