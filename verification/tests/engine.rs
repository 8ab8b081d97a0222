use weird_input::actions::{ActionSpec, ShellAction};
use weird_input::config::Mapping;
use weird_input::dispatch::{qualified_trigger, plan_for, Dispatcher};
use weird_input::hass_zha::{match_event, decode_frame, ButtonSpec, DeviceSpec};
use weird_input::json::{empty_object, Json};
use weird_input::hass_zha::websocket_url;
use weird_input::triggers::Event;

fn s(x: &str) -> String {
    x.to_string()
}

fn obj(pairs: Vec<(&str, Json)>) -> Json {
    Json::Obj(pairs.into_iter().map(|(k, v)| (s(k), v)).collect())
}

fn button(name: &str, command: &str, params: Json) -> ButtonSpec {
    ButtonSpec { name: s(name), command: s(command), params }
}

fn catalog() -> Vec<DeviceSpec> {
    vec![
        DeviceSpec {
            name: s("lamp"),
            ieee: s("00:11"),
            buttons: vec![
                button("on", "press", empty_object()),
                button("off", "release", obj(vec![("x", Json::Int(1))])),
            ],
        },
        DeviceSpec {
            name: s("fan"),
            ieee: s("00:22"),
            buttons: vec![button("spin", "press", empty_object())],
        },
    ]
}

fn zha_frame(id: i64, ieee: &str, command: &str, params: Json) -> Json {
    obj(vec![
        ("id", Json::Int(id)),
        ("type", Json::Str(s("event"))),
        (
            "event",
            obj(vec![
                ("event_type", Json::Str(s("zha_event"))),
                (
                    "data",
                    obj(vec![
                        ("device_ieee", Json::Str(s(ieee))),
                        ("command", Json::Str(s(command))),
                        ("params", params),
                    ]),
                ),
            ]),
        ),
    ])
}

#[test]
fn catalog_hits_resolve_to_names() {
    let devices = catalog();
    let e = match_event(&devices, &s("00:11"), &s("press"), &empty_object()).expect("hit");
    assert_eq!(e.device, "lamp");
    assert_eq!(e.name, "on");
    let e = match_event(&devices, &s("00:11"), &s("release"), &obj(vec![("x", Json::Int(1))]))
        .expect("hit");
    assert_eq!(e.device, "lamp");
    assert_eq!(e.name, "off");
    let e = match_event(&devices, &s("00:22"), &s("press"), &empty_object()).expect("hit");
    assert_eq!(e.device, "fan");
    assert_eq!(e.name, "spin");
}

#[test]
fn catalog_misses_resolve_to_nothing() {
    let devices = catalog();
    // unknown remote id
    assert!(match_event(&devices, &s("ff:ff"), &s("press"), &empty_object()).is_none());
    // known device, unknown command
    assert!(match_event(&devices, &s("00:11"), &s("hold"), &empty_object()).is_none());
    // known device and command, different parameters
    assert!(match_event(&devices, &s("00:11"), &s("press"), &Json::Int(2)).is_none());
    assert!(
        match_event(&devices, &s("00:11"), &s("release"), &obj(vec![("x", Json::Int(2))]))
            .is_none()
    );
}

#[test]
fn first_catalog_entry_wins_on_duplicates() {
    let mut devices = catalog();
    devices.push(DeviceSpec {
        name: s("shadow"),
        ieee: s("00:11"),
        buttons: vec![button("never", "press", empty_object())],
    });
    let e = match_event(&devices, &s("00:11"), &s("press"), &empty_object()).expect("hit");
    assert_eq!(e.device, "lamp");
    assert_eq!(e.name, "on");
}

#[test]
fn non_event_frames_are_filtered_out() {
    let devices = catalog();
    // a correlated result is not a domain event
    let f = obj(vec![
        ("id", Json::Int(1)),
        ("type", Json::Str(s("result"))),
        ("success", Json::Bool(true)),
        ("result", Json::Null),
    ]);
    assert!(decode_frame(&devices, &f).is_none());
    // a state-changed event is dropped by this filter
    let f = obj(vec![
        ("id", Json::Int(1)),
        ("type", Json::Str(s("event"))),
        (
            "event",
            obj(vec![
                ("event_type", Json::Str(s("state_changed"))),
                (
                    "data",
                    obj(vec![
                        ("entity_id", Json::Str(s("light.k"))),
                        ("old_state", Json::Null),
                        ("new_state", Json::Null),
                    ]),
                ),
            ]),
        ),
    ]);
    assert!(decode_frame(&devices, &f).is_none());
    // malformed frames yield nothing rather than an error
    assert!(decode_frame(&devices, &Json::Str(s("junk"))).is_none());
    // a domain event without its parameter payload does not decode
    let f = obj(vec![
        ("id", Json::Int(1)),
        ("type", Json::Str(s("event"))),
        (
            "event",
            obj(vec![
                ("event_type", Json::Str(s("zha_event"))),
                (
                    "data",
                    obj(vec![
                        ("device_ieee", Json::Str(s("00:11"))),
                        ("command", Json::Str(s("press"))),
                    ]),
                ),
            ]),
        ),
    ]);
    assert!(decode_frame(&devices, &f).is_none());
}

#[test]
fn websocket_url_strips_one_trailing_slash() {
    assert_eq!(websocket_url(&s("ws://hub:8123")), "ws://hub:8123/api/websocket");
    assert_eq!(websocket_url(&s("ws://hub:8123/")), "ws://hub:8123/api/websocket");
    // only one trailing slash is dropped
    assert_eq!(websocket_url(&s("ws://hub:8123//")), "ws://hub:8123//api/websocket");
    assert_eq!(websocket_url(&s("")), "/api/websocket");
}

#[test]
fn qualified_trigger_joins_the_three_names() {
    let e = Event { device: s("lamp"), name: s("on") };
    assert_eq!(qualified_trigger(&s("zha"), &e), "zha.lamp.on");
}

fn mappings() -> Vec<Mapping> {
    vec![
        Mapping {
            trigger: s("zha.lamp.on"),
            action: ActionSpec::Shell(ShellAction { command: s("echo one") }),
        },
        Mapping {
            trigger: s("zha.fan.spin"),
            action: ActionSpec::Shell(ShellAction { command: s("echo other") }),
        },
        Mapping {
            trigger: s("zha.lamp.on"),
            action: ActionSpec::Shell(ShellAction { command: s("echo two") }),
        },
        Mapping {
            trigger: s("zha.lamp.on"),
            action: ActionSpec::Shell(ShellAction { command: s("echo three") }),
        },
    ]
}

/// Walks the dispatcher, reporting the given outcome per started action,
/// and returns the mapping indices that ran.
fn run_dispatch(mappings: &Vec<Mapping>, trigger: &String, outcomes: &[bool]) -> Vec<usize> {
    let mut d = Dispatcher::new(mappings, trigger);
    let mut ran = Vec::new();
    while let Some(idx) = d.next_action() {
        ran.push(idx);
        d.advance(outcomes[ran.len() - 1]);
    }
    ran
}

#[test]
fn dispatch_runs_all_bound_actions_in_order() {
    let maps = mappings();
    let plan = plan_for(&maps, &s("zha.lamp.on"));
    assert_eq!(plan, vec![0, 2, 3]);
    let ran = run_dispatch(&maps, &s("zha.lamp.on"), &[true, true, true]);
    assert_eq!(ran, vec![0, 2, 3]);
    let ran = run_dispatch(&maps, &s("zha.fan.spin"), &[true]);
    assert_eq!(ran, vec![1]);
    let ran = run_dispatch(&maps, &s("zha.lamp.off"), &[]);
    assert!(ran.is_empty());
}

#[test]
fn dispatch_stops_at_the_first_failure() {
    let maps = mappings();
    // the second of the three bound actions fails: the third never runs
    let ran = run_dispatch(&maps, &s("zha.lamp.on"), &[true, false, true]);
    assert_eq!(ran, vec![0, 2]);
    // the first fails: nothing else runs
    let ran = run_dispatch(&maps, &s("zha.lamp.on"), &[false, true, true]);
    assert_eq!(ran, vec![0]);
}

#[test]
fn end_to_end_lamp_press_fires_one_action() {
    let devices = vec![DeviceSpec {
        name: s("lamp"),
        ieee: s("00:11"),
        buttons: vec![button("on", "press", empty_object())],
    }];
    let maps = vec![Mapping {
        trigger: s("zha.lamp.on"),
        action: ActionSpec::Shell(ShellAction { command: s("echo hi") }),
    }];
    let frame = zha_frame(5, "00:11", "press", empty_object());
    let event = decode_frame(&devices, &frame).expect("the event resolves");
    assert_eq!(event.device, "lamp");
    assert_eq!(event.name, "on");
    let trigger = qualified_trigger(&s("zha"), &event);
    let ran = run_dispatch(&maps, &trigger, &[true]);
    assert_eq!(ran, vec![0]);
    let ActionSpec::Shell(a) = &maps[ran[0]].action;
    assert_eq!(a.command, "echo hi");
    // and a neighbouring event fires nothing
    let other = zha_frame(6, "00:11", "hold", empty_object());
    assert!(decode_frame(&devices, &other).is_none());
}
