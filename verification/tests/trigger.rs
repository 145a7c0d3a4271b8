use scope_panel::application::trigger::{
    resolve, Channel, Edge, Effect, Mode, Model, Radios, Signal, Subscription, TriggerSource,
    Widget, LINE_WIDTH_DIVISOR, TICK_INTERVAL,
};
use scope_panel::router::{forward, Relabel};
use scope_panel::widget::radio;

fn feed(widget: &mut Widget, events: &[Signal]) -> Vec<Effect> {
    let mut all = Vec::new();
    for event in events {
        all.extend(widget.update(*event));
    }
    all
}

#[test]
fn resolve_gives_each_pair_its_own_source() {
    assert_eq!(resolve(Some(Channel::CH1), Some(Edge::Positive)), Some(TriggerSource::CH1_PE));
    assert_eq!(resolve(Some(Channel::CH1), Some(Edge::Negative)), Some(TriggerSource::CH1_NE));
    assert_eq!(resolve(Some(Channel::CH2), Some(Edge::Positive)), Some(TriggerSource::CH2_PE));
    assert_eq!(resolve(Some(Channel::CH2), Some(Edge::Negative)), Some(TriggerSource::CH2_NE));
    assert_eq!(resolve(Some(Channel::EXT), Some(Edge::Positive)), Some(TriggerSource::EXT_PE));
    assert_eq!(resolve(Some(Channel::EXT), Some(Edge::Negative)), Some(TriggerSource::EXT_NE));
}

#[test]
fn resolve_is_one_to_one_over_the_six_pairs() {
    let channels = [Channel::CH1, Channel::CH2, Channel::EXT];
    let edges = [Edge::Positive, Edge::Negative];
    let mut seen: Vec<TriggerSource> = Vec::new();
    for channel in channels {
        for edge in edges {
            let source = resolve(Some(channel), Some(edge)).unwrap();
            assert!(!seen.contains(&source));
            seen.push(source);
        }
    }
    assert_eq!(seen.len(), 6);
}

#[test]
fn resolve_without_channel_or_edge_is_none() {
    for edge in [Edge::Positive, Edge::Negative] {
        assert_eq!(resolve(None, Some(edge)), None);
    }
    for channel in [Channel::CH1, Channel::CH2, Channel::EXT] {
        assert_eq!(resolve(Some(channel), None), None);
    }
    assert_eq!(resolve(None, None), None);
}

#[test]
fn default_mode_is_normal() {
    assert_eq!(Mode::default(), Mode::Normal);
}

#[test]
fn page_starts_without_selections_in_normal_mode() {
    assert_eq!(Widget::model(), Model { channel: None, edge: None, mode: Mode::Normal });
    let widget = Widget::new();
    assert_eq!(widget.channel(), None);
    assert_eq!(widget.edge(), None);
    assert_eq!(widget.mode(), Mode::Normal);
    assert_eq!(widget.get_source(), None);
}

#[test]
fn channel_then_edge_arms_the_source_once() {
    let mut widget = Widget::new();

    let first = widget.update(Signal::Channel(Channel::CH1));
    assert_eq!(first, vec![]);
    assert_eq!(widget.channel(), Some(Channel::CH1));
    assert_eq!(widget.get_source(), None);

    let second = widget.update(Signal::Edge(Edge::Positive));
    assert_eq!(
        second,
        vec![
            Effect::Emit(Signal::Source(TriggerSource::CH1_PE)),
            Effect::Enable(TriggerSource::CH1_PE),
        ]
    );
    assert_eq!(widget.get_source(), Some(TriggerSource::CH1_PE));
    let enables = second.iter().filter(|effect| matches!(effect, Effect::Enable(_))).count();
    assert_eq!(enables, 1);
}

#[test]
fn edge_then_channel_arms_the_source_too() {
    let mut widget = Widget::new();
    assert_eq!(widget.update(Signal::Edge(Edge::Negative)), vec![]);
    assert_eq!(widget.edge(), Some(Edge::Negative));
    assert_eq!(
        widget.update(Signal::Channel(Channel::EXT)),
        vec![
            Effect::Emit(Signal::Source(TriggerSource::EXT_NE)),
            Effect::Enable(TriggerSource::EXT_NE),
        ]
    );
}

#[test]
fn each_event_meets_the_state_left_by_the_one_before() {
    let mut widget = Widget::new();
    let effects = feed(
        &mut widget,
        &[
            Signal::Channel(Channel::CH1),
            Signal::Edge(Edge::Positive),
            Signal::Channel(Channel::CH2),
            Signal::Edge(Edge::Negative),
        ],
    );
    assert_eq!(
        effects,
        vec![
            Effect::Emit(Signal::Source(TriggerSource::CH1_PE)),
            Effect::Enable(TriggerSource::CH1_PE),
            Effect::Emit(Signal::Source(TriggerSource::CH2_PE)),
            Effect::Enable(TriggerSource::CH2_PE),
            Effect::Emit(Signal::Source(TriggerSource::CH2_NE)),
            Effect::Enable(TriggerSource::CH2_NE),
        ]
    );
    assert_eq!(widget.get_source(), Some(TriggerSource::CH2_NE));
}

#[test]
fn choosing_the_same_channel_again_changes_nothing() {
    let mut widget = Widget::new();
    widget.update(Signal::Edge(Edge::Positive));
    let once = widget.update(Signal::Channel(Channel::CH1));
    let source_once = widget.get_source();
    let twice = widget.update(Signal::Channel(Channel::CH1));
    assert_eq!(widget.get_source(), source_once);
    assert_eq!(widget.get_source(), Some(TriggerSource::CH1_PE));
    assert_eq!(widget.channel(), Some(Channel::CH1));
    assert_eq!(widget.edge(), Some(Edge::Positive));
    assert_eq!(widget.mode(), Mode::Normal);
    assert_eq!(once, twice);
}

#[test]
fn ticks_in_auto_fire_auto_each_time() {
    let mut widget = Widget::new();
    widget.update(Signal::Mode(Mode::Auto));
    let effects = feed(&mut widget, &[Signal::InternalTick; 5]);
    assert_eq!(effects, vec![Effect::Emit(Signal::Auto); 5]);
    assert_eq!(widget.mode(), Mode::Auto);
}

#[test]
fn ticks_in_normal_fire_normal_each_time() {
    let mut widget = Widget::new();
    let effects = feed(&mut widget, &[Signal::InternalTick; 3]);
    assert_eq!(effects, vec![Effect::Emit(Signal::Normal); 3]);
    assert_eq!(widget.mode(), Mode::Normal);
}

#[test]
fn single_shows_the_control_and_ticks_fire_nothing() {
    let mut widget = Widget::new();
    assert_eq!(widget.update(Signal::Mode(Mode::Single)), vec![Effect::SingleVisible(true)]);
    assert_eq!(widget.mode(), Mode::Single);
    assert_eq!(feed(&mut widget, &[Signal::InternalTick; 1]), vec![]);
    assert_eq!(feed(&mut widget, &[Signal::InternalTick; 40]), vec![]);
}

#[test]
fn other_modes_hide_the_single_control() {
    let mut widget = Widget::new();
    assert_eq!(widget.update(Signal::Mode(Mode::Auto)), vec![Effect::SingleVisible(false)]);
    assert_eq!(widget.update(Signal::Mode(Mode::Normal)), vec![Effect::SingleVisible(false)]);
    assert_eq!(widget.mode(), Mode::Normal);
}

#[test]
fn a_mode_change_keeps_channel_and_edge() {
    let mut widget = Widget::new();
    feed(&mut widget, &[Signal::Channel(Channel::CH2), Signal::Edge(Edge::Negative)]);
    widget.update(Signal::Mode(Mode::Single));
    assert_eq!(widget.channel(), Some(Channel::CH2));
    assert_eq!(widget.edge(), Some(Edge::Negative));
    assert_eq!(widget.get_source(), Some(TriggerSource::CH2_NE));
}

#[test]
fn outgoing_messages_pass_through_the_page() {
    let mut widget = Widget::new();
    feed(&mut widget, &[Signal::Channel(Channel::CH1), Signal::Edge(Edge::Positive)]);
    for event in [
        Signal::Auto,
        Signal::Normal,
        Signal::Single,
        Signal::Source(TriggerSource::EXT_NE),
    ] {
        assert_eq!(widget.update(event), vec![]);
    }
    assert_eq!(widget.get_source(), Some(TriggerSource::CH1_PE));
    assert_eq!(widget.mode(), Mode::Normal);
}

#[test]
fn redraw_asks_for_a_draw() {
    let mut widget = Widget::new();
    assert_eq!(widget.update(Signal::Redraw), vec![Effect::Draw]);
    widget.update(Signal::Mode(Mode::Auto));
    assert_eq!(widget.update(Signal::Redraw), vec![Effect::Draw]);
    assert_eq!(widget.mode(), Mode::Auto);
}

#[test]
fn the_page_subscribes_to_one_tick_a_thousand_apart() {
    assert_eq!(TICK_INTERVAL, 1_000);
    assert_eq!(LINE_WIDTH_DIVISOR, 1_000);
    let widget = Widget::new();
    assert_eq!(
        widget.subscriptions(),
        vec![Subscription { interval: 1_000, event: Signal::InternalTick }]
    );
}

#[test]
fn teardown_cancels_what_was_subscribed() {
    let widget = Widget::new();
    let subscribed = widget.subscriptions();
    assert_eq!(widget.teardown(), subscribed);
}

#[test]
fn radio_choices_become_messages_of_the_page() {
    assert_eq!(Radios.relabel(radio::Signal::Change(Channel::CH2)), Signal::Channel(Channel::CH2));
    assert_eq!(Radios.relabel(radio::Signal::Change(Edge::Negative)), Signal::Edge(Edge::Negative));
    assert_eq!(Radios.relabel(radio::Signal::Change(Mode::Single)), Signal::Mode(Mode::Single));
}

#[test]
fn forwarded_choices_keep_their_order() {
    let chosen = vec![
        radio::Signal::Change(Channel::EXT),
        radio::Signal::Change(Channel::CH1),
        radio::Signal::Change(Channel::EXT),
    ];
    assert_eq!(
        forward(&Radios, &chosen),
        vec![
            Signal::Channel(Channel::EXT),
            Signal::Channel(Channel::CH1),
            Signal::Channel(Channel::EXT),
        ]
    );
    let none: Vec<radio::Signal<Mode>> = Vec::new();
    assert_eq!(forward(&Radios, &none), vec![]);
}

#[test]
fn forwarded_choices_drive_the_page() {
    let mut widget = Widget::new();
    let channels = forward(&Radios, &vec![radio::Signal::Change(Channel::CH2)]);
    let edges = forward(&Radios, &vec![radio::Signal::Change(Edge::Positive)]);
    let mut effects = feed(&mut widget, &channels);
    effects.extend(feed(&mut widget, &edges));
    assert_eq!(
        effects,
        vec![
            Effect::Emit(Signal::Source(TriggerSource::CH2_PE)),
            Effect::Enable(TriggerSource::CH2_PE),
        ]
    );
}
