use scope_panel::application::generator::output;
use scope_panel::application::generator::{Effect, OutputChannelTag, Signal, Widget};
use scope_panel::router::{forward, Relabel};
use scope_panel::surface::{DrawOp, Surface};

#[derive(Clone, Copy, Debug, PartialEq)]
enum Wave {
    Sine,
    Square,
}

#[test]
fn amplitude_of_the_second_child_is_tagged_out2() {
    let said: output::Signal<f32, u32, Wave> = output::Signal::Amplitude(0.75);
    let heard = OutputChannelTag::OUT2.relabel(said);
    assert_eq!(heard, Signal::Amplitude(OutputChannelTag::OUT2, 0.75));
    assert_ne!(heard, Signal::Amplitude(OutputChannelTag::OUT1, 0.75));
}

#[test]
fn amplitude_of_the_first_child_is_tagged_out1() {
    let said: output::Signal<f32, u32, Wave> = output::Signal::Amplitude(0.75);
    assert_eq!(
        OutputChannelTag::OUT1.relabel(said),
        Signal::Amplitude(OutputChannelTag::OUT1, 0.75)
    );
}

#[test]
fn every_message_of_a_child_keeps_its_kind_and_value() {
    let tag = OutputChannelTag::OUT1;
    let pairs: Vec<(output::Signal<f32, u32, Wave>, Signal<f32, u32, Wave>)> = vec![
        (output::Signal::Amplitude(1.5), Signal::Amplitude(tag, 1.5)),
        (output::Signal::DutyCycle(0.25), Signal::DutyCycle(tag, 0.25)),
        (output::Signal::Frequency(1_000), Signal::Frequency(tag, 1_000)),
        (output::Signal::Offset(-0.5), Signal::Offset(tag, -0.5)),
        (output::Signal::Form(Wave::Square), Signal::Form(tag, Wave::Square)),
        (output::Signal::Start, Signal::Start(tag)),
        (output::Signal::Stop, Signal::Stop(tag)),
    ];
    for (said, heard) in pairs {
        assert_eq!(tag.relabel(said), heard);
    }
}

#[test]
fn forwarding_keeps_count_and_order() {
    let said: Vec<output::Signal<f32, u32, Wave>> = vec![
        output::Signal::Start,
        output::Signal::Frequency(440),
        output::Signal::Form(Wave::Sine),
        output::Signal::Frequency(880),
        output::Signal::Stop,
    ];
    let tag = OutputChannelTag::OUT2;
    assert_eq!(
        forward(&tag, &said),
        vec![
            Signal::Start(tag),
            Signal::Frequency(tag, 440),
            Signal::Form(tag, Wave::Sine),
            Signal::Frequency(tag, 880),
            Signal::Stop(tag),
        ]
    );
}

#[test]
fn the_page_has_a_child_for_each_output() {
    let widget = Widget::new();
    assert_eq!(widget.children(), vec![OutputChannelTag::OUT1, OutputChannelTag::OUT2]);
}

#[test]
fn redraw_asks_the_page_to_draw() {
    let mut widget = Widget::new();
    let redraw: Signal<f32, u32, Wave> = Signal::Redraw;
    assert_eq!(widget.update(redraw), vec![Effect::Draw]);
}

#[test]
fn messages_from_the_children_ask_nothing_of_the_page() {
    let mut widget = Widget::new();
    let passing: Vec<Signal<f32, u32, Wave>> = vec![
        Signal::Amplitude(OutputChannelTag::OUT1, 1.0),
        Signal::DutyCycle(OutputChannelTag::OUT2, 0.5),
        Signal::Frequency(OutputChannelTag::OUT1, 50),
        Signal::Offset(OutputChannelTag::OUT2, 0.0),
        Signal::Form(OutputChannelTag::OUT1, Wave::Sine),
        Signal::Start(OutputChannelTag::OUT2),
        Signal::Stop(OutputChannelTag::OUT1),
    ];
    for event in passing {
        assert_eq!(widget.update(event), vec![]);
    }
    assert_eq!(widget.children(), vec![OutputChannelTag::OUT1, OutputChannelTag::OUT2]);
}

#[test]
fn each_child_draws_inside_a_frame_of_its_own() {
    let widget = Widget::new();
    let mut surface: Surface<f64> = Surface::new();
    widget.draw(&mut surface);
    assert_eq!(
        surface.ops(),
        &vec![
            DrawOp::Save,
            DrawOp::Delegate(OutputChannelTag::OUT1),
            DrawOp::Restore,
            DrawOp::Save,
            DrawOp::Delegate(OutputChannelTag::OUT2),
            DrawOp::Restore,
        ]
    );
}

#[test]
fn drawing_the_page_adds_to_what_the_surface_holds() {
    let widget = Widget::new();
    let mut surface: Surface<f64> = Surface::new();
    surface.stroke();
    widget.draw(&mut surface);
    assert_eq!(surface.ops().len(), 7);
    assert_eq!(surface.ops()[0], DrawOp::Stroke);
    assert_eq!(surface.ops()[2], DrawOp::Delegate(OutputChannelTag::OUT1));
    assert_eq!(surface.ops()[5], DrawOp::Delegate(OutputChannelTag::OUT2));
}

#[test]
fn a_copy_of_the_page_has_the_same_children() {
    let widget = Widget::new();
    let copy = widget.clone();
    assert_eq!(copy.children(), widget.children());
}
