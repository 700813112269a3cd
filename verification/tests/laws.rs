use input::{
    AfterRenderArgs, AfterRenderEvent, Button, ControllerAxisArgs, ControllerAxisEvent,
    CursorEvent, ErasedArgs, Event, EventId, FocusEvent, GenericEvent, IdleArgs, IdleEvent, Input,
    Motion, MouseCursorEvent, MouseRelativeEvent, MouseScrollEvent, PressEvent, ReleaseEvent,
    RenderArgs, RenderEvent, ResizeEvent, Scalar, TextEvent, Touch, TouchArgs, TouchEvent,
    UpdateArgs, UpdateEvent,
};

fn val(x: f64) -> Scalar {
    Scalar::from_bits(x.to_bits())
}

/// The kinds whose lens reads `event`.
fn kinds_read<E: GenericEvent>(event: &E) -> Vec<EventId> {
    let mut kinds = Vec::new();
    if event.after_render_args().is_some() {
        kinds.push(EventId::AfterRender);
    }
    if event.controller_axis_args().is_some() {
        kinds.push(EventId::ControllerAxis);
    }
    if event.cursor_args().is_some() {
        kinds.push(EventId::Cursor);
    }
    if event.focus_args().is_some() {
        kinds.push(EventId::Focus);
    }
    if event.idle_args().is_some() {
        kinds.push(EventId::Idle);
    }
    if event.mouse_cursor_args().is_some() {
        kinds.push(EventId::MouseCursor);
    }
    if event.mouse_relative_args().is_some() {
        kinds.push(EventId::MouseRelative);
    }
    if event.mouse_scroll_args().is_some() {
        kinds.push(EventId::MouseScroll);
    }
    if event.press_args().is_some() {
        kinds.push(EventId::Press);
    }
    if event.release_args().is_some() {
        kinds.push(EventId::Release);
    }
    if event.render_args().is_some() {
        kinds.push(EventId::Render);
    }
    if event.resize_args().is_some() {
        kinds.push(EventId::Resize);
    }
    if event.text_args().is_some() {
        kinds.push(EventId::Text);
    }
    if event.touch_args().is_some() {
        kinds.push(EventId::Touch);
    }
    if event.update_args().is_some() {
        kinds.push(EventId::Update);
    }
    kinds
}

fn some_touch() -> TouchArgs {
    TouchArgs::new(0, 0, val(0.0), val(1.0), val(0.5), Touch::End)
}

fn some_render() -> RenderArgs {
    RenderArgs { ext_dt: val(0.1), width: 10, height: 20, draw_width: 10, draw_height: 20 }
}

fn built_inputs(old: &Input) -> Vec<(EventId, Input)> {
    let button = Button::Keyboard(13);
    vec![
        (
            EventId::ControllerAxis,
            ControllerAxisEvent::from_controller_axis_args(
                ControllerAxisArgs::new(0, 1, val(0.9)),
                old,
            )
            .unwrap(),
        ),
        (EventId::Cursor, CursorEvent::from_cursor(true, old).unwrap()),
        (EventId::Focus, FocusEvent::from_focused(true, old).unwrap()),
        (EventId::MouseCursor, MouseCursorEvent::from_xy(val(1.0), val(2.0), old).unwrap()),
        (EventId::MouseRelative, MouseRelativeEvent::from_xy(val(1.0), val(2.0), old).unwrap()),
        (EventId::MouseScroll, MouseScrollEvent::from_xy(val(1.0), val(2.0), old).unwrap()),
        (EventId::Press, PressEvent::from_button(button, old).unwrap()),
        (EventId::Release, ReleaseEvent::from_button(button, old).unwrap()),
        (EventId::Resize, ResizeEvent::from_width_height(1, 2, old).unwrap()),
        (EventId::Text, TextEvent::from_text("text", old).unwrap()),
        (EventId::Touch, TouchEvent::from_touch_args(&some_touch(), old).unwrap()),
    ]
}

fn built_ticks(old: &Event) -> Vec<(EventId, Event)> {
    vec![
        (
            EventId::AfterRender,
            AfterRenderEvent::from_after_render_args(&AfterRenderArgs, old).unwrap(),
        ),
        (EventId::Idle, IdleEvent::from_idle_args(&IdleArgs { dt: val(1.0) }, old).unwrap()),
        (EventId::Render, RenderEvent::from_render_args(&some_render(), old).unwrap()),
        (EventId::Update, UpdateEvent::from_update_args(&UpdateArgs { dt: val(1.0) }, old).unwrap()),
    ]
}

#[test]
fn a_built_input_is_read_by_its_lens_alone() {
    for (kind, input) in built_inputs(&Input::Close) {
        assert_eq!(kinds_read(&input), vec![kind]);
        assert_eq!(input.event_id(), kind);
    }
}

#[test]
fn a_built_event_is_read_by_its_lens_alone() {
    let old: Event = Event::Input(Input::Close);
    for (kind, event) in built_ticks(&old) {
        assert_eq!(kinds_read(&event), vec![kind]);
        assert_eq!(event.event_id(), kind);
    }
    for (kind, input) in built_inputs(&Input::Close) {
        let event = Event::Input(input);
        assert_eq!(kinds_read(&event), vec![kind]);
        assert_eq!(event.event_id(), kind);
    }
}

#[test]
fn no_lens_reads_a_close() {
    assert_eq!(kinds_read(&Input::Close), vec![]);
    let event: Event = Event::Input(Input::Close);
    assert_eq!(kinds_read(&event), vec![]);
    assert_eq!(event.event_id(), EventId::Close);
}

#[test]
fn an_input_is_the_same_whatever_the_old_input() {
    let first = built_inputs(&Input::Close);
    let second = built_inputs(&Input::Text(String::from("before")));
    let third = built_inputs(&Input::Move(Motion::MouseCursor(val(5.0), val(5.0))));
    assert_eq!(first, second);
    assert_eq!(first, third);
}

#[test]
fn a_tick_is_the_same_whatever_the_old_event() {
    let first = built_ticks(&Event::Input(Input::Close));
    let second = built_ticks(&Event::Update(UpdateArgs { dt: val(7.0) }));
    let third = built_ticks(&Event::AfterRender(AfterRenderArgs));
    assert_eq!(first, second);
    assert_eq!(first, third);
}

#[test]
fn a_wrapped_input_is_the_same_whatever_the_old_input() {
    let olds: [Event; 2] =
        [Event::Input(Input::Close), Event::Input(Input::Text(String::from("before")))];
    let first: Option<Event> = FocusEvent::from_focused(true, &olds[0]);
    let second: Option<Event> = FocusEvent::from_focused(true, &olds[1]);
    assert_eq!(first, second);
    let first: Option<Event> = TextEvent::from_text("now", &olds[0]);
    let second: Option<Event> = TextEvent::from_text("now", &olds[1]);
    assert_eq!(first, second);
    let first: Option<Event> = Event::from_args(EventId::Resize, &ErasedArgs::Size(1, 2), &olds[0]);
    let second: Option<Event> = Event::from_args(EventId::Resize, &ErasedArgs::Size(1, 2), &olds[1]);
    assert_eq!(first, second);
    assert_eq!(first, Some(Event::Input(Input::Resize(1, 2))));
}

#[test]
fn the_lens_and_from_args_build_the_same() {
    let old = Input::Close;
    let lens: Option<Input> = FocusEvent::from_focused(true, &old);
    assert_eq!(lens, Input::from_args(EventId::Focus, &ErasedArgs::Bool(true), &old));
    let lens: Option<Input> = CursorEvent::from_cursor(true, &old);
    assert_eq!(lens, Input::from_args(EventId::Cursor, &ErasedArgs::Bool(true), &old));
    let lens: Option<Input> = MouseScrollEvent::from_xy(val(0.0), val(1.0), &old);
    assert_eq!(
        lens,
        Input::from_args(EventId::MouseScroll, &ErasedArgs::Position(val(0.0), val(1.0)), &old)
    );
    let lens: Option<Input> = TextEvent::from_text("abc", &old);
    assert_eq!(
        lens,
        Input::from_args(EventId::Text, &ErasedArgs::Text(String::from("abc")), &old)
    );
    let lens: Option<Input> = UpdateEvent::from_update_args(&UpdateArgs { dt: val(1.0) }, &old);
    assert_eq!(
        lens,
        Input::from_args(EventId::Update, &ErasedArgs::Update(UpdateArgs { dt: val(1.0) }), &old)
    );
    let tick: Event = Event::Idle(IdleArgs { dt: val(0.0) });
    let lens: Option<Event> = UpdateEvent::from_update_args(&UpdateArgs { dt: val(1.0) }, &tick);
    assert_eq!(
        lens,
        Event::from_args(EventId::Update, &ErasedArgs::Update(UpdateArgs { dt: val(1.0) }), &tick)
    );
    let lens: Option<Event> = PressEvent::from_button(Button::Mouse(2), &tick);
    assert_eq!(
        lens,
        Event::from_args(EventId::Press, &ErasedArgs::Button(Button::Mouse(2)), &tick)
    );
}

#[test]
fn with_args_hands_out_what_the_lens_reads() {
    let input = Input::Resize(4, 3);
    let (w, h) = input.resize_args().unwrap();
    assert_eq!(input.with_args(|any| any.clone()), ErasedArgs::Size(w, h));
    let event: Event = Event::Input(Input::Text(String::from("xyz")));
    let text = event.text_args().unwrap();
    assert_eq!(event.with_args(|any| any.clone()), ErasedArgs::Text(text));
    let tick: Event = Event::Render(some_render());
    let args = tick.render_args().unwrap();
    assert_eq!(tick.with_args(|any| any.clone()), ErasedArgs::Render(args));
}
