//! The device catalog of one hub connection and the event filter that
//! resolves raw protocol events against it.
//!
//! A raw event carries a remote id, a command and a parameter payload. The
//! filter finds the first cataloged device with that remote id, then that
//! device's first button with the same command and a structurally equal
//! payload, and yields the pair of symbolic names; everything else (other
//! message kinds, unknown devices, unknown buttons) is dropped silently.

use crate::api::{spec_decode_response, HassEvent, HassResponse};
use crate::json::{json_eq, json_equal, Json};
use crate::triggers::Event;
use vstd::prelude::*;
use vstd::string::{StrSliceExecFns, StringExecFns};

verus! {

/// A device's button: its symbolic name and the command/parameter pair
/// that identifies it on the wire.
#[derive(Debug)]
pub struct ButtonSpec {
    pub name: String,
    pub command: String,
    pub params: Json,
}

/// A cataloged device: its symbolic name, its stable remote id and its
/// buttons.
#[derive(Debug)]
pub struct DeviceSpec {
    pub name: String,
    pub ieee: String,
    pub buttons: Vec<ButtonSpec>,
}

/// The configuration of one hub connection: endpoint, bearer token and the
/// device catalog.
#[derive(Debug)]
pub struct HassZhaConfig {
    pub base_url: String,
    pub token: String,
    pub devices: Vec<DeviceSpec>,
}

/// The websocket endpoint under a configured base URL: one trailing slash
/// of the base is dropped, then the protocol's path is appended.
pub fn websocket_url(base_url: &String) -> (r: String)
    ensures
        r@ == (if base_url@.len() > 0 && base_url@.last() == '/' {
            base_url@.drop_last()
        } else {
            base_url@
        }) + "/api/websocket"@,
{
    let s = base_url.as_str();
    let n = s.unicode_len();
    let trimmed: &str = if n > 0 && s.get_char(n - 1) == '/' {
        proof {
            assert(base_url@.subrange(0, n - 1) =~= base_url@.drop_last());
        }
        s.substring_char(0, n - 1)
    } else {
        s
    };
    let mut r = String::from_str(trimmed);
    r.append("/api/websocket");
    r
}

/// The first device of the catalog with this remote id.
pub open spec fn spec_find_device(devices: Seq<DeviceSpec>, ieee: Seq<char>) -> Option<DeviceSpec>
    decreases devices.len(),
{
    if devices.len() == 0 {
        None
    } else if devices[0].ieee@ == ieee {
        Some(devices[0])
    } else {
        spec_find_device(devices.subrange(1, devices.len() as int), ieee)
    }
}

/// The first button of the device with this command and a structurally
/// equal parameter payload.
pub open spec fn spec_find_button(
    buttons: Seq<ButtonSpec>,
    command: Seq<char>,
    params: Json,
) -> Option<ButtonSpec>
    decreases buttons.len(),
{
    if buttons.len() == 0 {
        None
    } else if buttons[0].command@ == command && json_equal(buttons[0].params, params) {
        Some(buttons[0])
    } else {
        spec_find_button(buttons.subrange(1, buttons.len() as int), command, params)
    }
}

/// The semantic meaning of one raw event against the catalog: the symbolic
/// names of the first matching device and of its first matching button.
pub open spec fn spec_semantic_event(
    devices: Seq<DeviceSpec>,
    ieee: Seq<char>,
    command: Seq<char>,
    params: Json,
) -> Option<(Seq<char>, Seq<char>)> {
    match spec_find_device(devices, ieee) {
        Some(d) => match spec_find_button(d.buttons@, command, params) {
            Some(b) => Some((d.name@, b.name@)),
            None => None,
        },
        None => None,
    }
}

/// Resolves one raw event against the catalog, as [`spec_semantic_event`]
/// describes.
#[verifier::loop_isolation(false)]
pub fn match_event(
    devices: &Vec<DeviceSpec>,
    device_ieee: &String,
    command: &String,
    params: &Json,
) -> (r: Option<Event>)
    ensures
        match spec_semantic_event(devices@, device_ieee@, command@, *params) {
            Some(names) => r matches Some(e) && e.device@ == names.0 && e.name@ == names.1,
            None => r is None,
        },
{
    let n = devices.len();
    let mut i: usize = 0;
    proof {
        assert(devices@.subrange(0, n as int) =~= devices@);
    }
    while i < n
        invariant
            i <= n,
            spec_find_device(devices@, device_ieee@) == spec_find_device(
                devices@.subrange(i as int, n as int),
                device_ieee@,
            ),
        decreases n - i,
    {
        proof {
            assert(devices@.subrange(i as int, n as int)[0] == devices@[i as int]);
        }
        if devices[i].ieee == *device_ieee {
            let d = &devices[i];
            let m = d.buttons.len();
            let mut k: usize = 0;
            proof {
                assert(d.buttons@.subrange(0, m as int) =~= d.buttons@);
            }
            while k < m
                invariant
                    k <= m,
                    spec_find_button(d.buttons@, command@, *params) == spec_find_button(
                        d.buttons@.subrange(k as int, m as int),
                        command@,
                        *params,
                    ),
                decreases m - k,
            {
                proof {
                    assert(d.buttons@.subrange(k as int, m as int)[0] == d.buttons@[k as int]);
                }
                if d.buttons[k].command == *command && json_eq(&d.buttons[k].params, params) {
                    return Some(
                        Event { device: d.name.clone(), name: d.buttons[k].name.clone() },
                    );
                }
                proof {
                    assert(d.buttons@.subrange(k as int, m as int).subrange(
                        1,
                        (m - k) as int,
                    ) =~= d.buttons@.subrange(k as int + 1, m as int));
                }
                k = k + 1;
            }
            return None;
        }
        proof {
            assert(devices@.subrange(i as int, n as int).subrange(1, (n - i) as int)
                =~= devices@.subrange(i as int + 1, n as int));
        }
        i = i + 1;
    }
    None
}

/// Finding a button is insensitive to swapping the parameter payload for a
/// structurally equal one.
pub proof fn lemma_find_button_respects(
    buttons: Seq<ButtonSpec>,
    command: Seq<char>,
    p1: Json,
    p2: Json,
)
    requires
        json_equal(p1, p2),
    ensures
        spec_find_button(buttons, command, p1) == spec_find_button(buttons, command, p2),
    decreases buttons.len(),
{
    if buttons.len() > 0 {
        let b0 = buttons[0].params;
        crate::json::lemma_json_equal_sym(p1, p2);
        if json_equal(b0, p1) {
            crate::json::lemma_json_equal_trans(b0, p1, p2);
        }
        if json_equal(b0, p2) {
            crate::json::lemma_json_equal_trans(b0, p2, p1);
        }
        lemma_find_button_respects(buttons.subrange(1, buttons.len() as int), command, p1, p2);
    }
}

/// Resolving an event is insensitive to swapping the parameter payload for
/// a structurally equal one.
pub proof fn lemma_semantic_event_respects(
    devices: Seq<DeviceSpec>,
    ieee: Seq<char>,
    command: Seq<char>,
    p1: Json,
    p2: Json,
)
    requires
        json_equal(p1, p2),
    ensures
        spec_semantic_event(devices, ieee, command, p1) == spec_semantic_event(
            devices,
            ieee,
            command,
            p2,
        ),
{
    match spec_find_device(devices, ieee) {
        Some(d) => {
            lemma_find_button_respects(d.buttons@, command, p1, p2);
        },
        None => {},
    }
}

/// Finding by remote id lands on the device at `di` when no earlier device
/// carries that id.
pub proof fn lemma_find_device_hit(devices: Seq<DeviceSpec>, di: int)
    requires
        0 <= di < devices.len(),
        forall|k: int| 0 <= k < di ==> devices[k].ieee@ != devices[di].ieee@,
    ensures
        spec_find_device(devices, devices[di].ieee@) == Some(devices[di]),
    decreases di,
{
    if di > 0 {
        let sub = devices.subrange(1, devices.len() as int);
        assert(sub[di - 1] == devices[di]);
        assert forall|k: int| 0 <= k < di - 1 implies (#[trigger] sub[k]).ieee@ != sub[di - 1].ieee@ by {
            assert(sub[k] == devices[k + 1]);
        }
        lemma_find_device_hit(sub, di - 1);
    }
}

/// Finding by a remote id no device carries yields nothing.
pub proof fn lemma_find_device_miss(devices: Seq<DeviceSpec>, ieee: Seq<char>)
    requires
        forall|k: int| 0 <= k < devices.len() ==> devices[k].ieee@ != ieee,
    ensures
        spec_find_device(devices, ieee) is None,
    decreases devices.len(),
{
    if devices.len() > 0 {
        lemma_find_device_miss(devices.subrange(1, devices.len() as int), ieee);
    }
}

/// Finding by command and parameters lands on the button at `bi` when no
/// earlier button of the device carries the same pair.
pub proof fn lemma_find_button_hit(buttons: Seq<ButtonSpec>, bi: int)
    requires
        0 <= bi < buttons.len(),
        forall|k: int|
            0 <= k < bi ==> !(buttons[k].command@ == buttons[bi].command@ && json_equal(
                buttons[k].params,
                buttons[bi].params,
            )),
    ensures
        spec_find_button(buttons, buttons[bi].command@, buttons[bi].params) == Some(buttons[bi]),
    decreases bi,
{
    crate::json::lemma_json_equal_refl(buttons[bi].params);
    if bi > 0 {
        let sub = buttons.subrange(1, buttons.len() as int);
        assert(sub[bi - 1] == buttons[bi]);
        assert forall|k: int|
            0 <= k < bi - 1 implies !((#[trigger] sub[k]).command@ == sub[bi - 1].command@
                && json_equal(sub[k].params, sub[bi - 1].params)) by {
            assert(sub[k] == buttons[k + 1]);
        }
        lemma_find_button_hit(sub, bi - 1);
    }
}

/// Finding by a command/parameter pair no button carries yields nothing.
pub proof fn lemma_find_button_miss(buttons: Seq<ButtonSpec>, command: Seq<char>, params: Json)
    requires
        forall|k: int|
            0 <= k < buttons.len() ==> !(buttons[k].command@ == command && json_equal(
                buttons[k].params,
                params,
            )),
    ensures
        spec_find_button(buttons, command, params) is None,
    decreases buttons.len(),
{
    if buttons.len() > 0 {
        lemma_find_button_miss(buttons.subrange(1, buttons.len() as int), command, params);
    }
}

/// Law: a raw event carrying a cataloged device's remote id and one of its
/// buttons' command and parameters resolves to exactly that device's and
/// that button's symbolic names — provided no earlier device shares the
/// remote id and no earlier button of the device shares the pair (with
/// duplicates, the first catalog entry wins instead).
pub proof fn lemma_catalog_event_decodes(devices: Seq<DeviceSpec>, di: int, bi: int)
    requires
        0 <= di < devices.len(),
        0 <= bi < devices[di].buttons@.len(),
        forall|k: int| 0 <= k < di ==> devices[k].ieee@ != devices[di].ieee@,
        forall|k: int|
            0 <= k < bi ==> !(devices[di].buttons@[k].command@ == devices[di].buttons@[bi].command@
                && json_equal(devices[di].buttons@[k].params, devices[di].buttons@[bi].params)),
    ensures
        spec_semantic_event(
            devices,
            devices[di].ieee@,
            devices[di].buttons@[bi].command@,
            devices[di].buttons@[bi].params,
        ) == Some((devices[di].name@, devices[di].buttons@[bi].name@)),
{
    lemma_find_device_hit(devices, di);
    lemma_find_button_hit(devices[di].buttons@, bi);
}

/// Law: a raw event whose remote id no cataloged device carries resolves
/// to nothing.
pub proof fn lemma_unknown_device_yields_nothing(
    devices: Seq<DeviceSpec>,
    ieee: Seq<char>,
    command: Seq<char>,
    params: Json,
)
    requires
        forall|k: int| 0 <= k < devices.len() ==> devices[k].ieee@ != ieee,
    ensures
        spec_semantic_event(devices, ieee, command, params) is None,
{
    lemma_find_device_miss(devices, ieee);
}

/// Law: a raw event that reaches a cataloged device (the first one with
/// its remote id) but matches none of that device's buttons resolves to
/// nothing.
pub proof fn lemma_unknown_button_yields_nothing(
    devices: Seq<DeviceSpec>,
    di: int,
    command: Seq<char>,
    params: Json,
)
    requires
        0 <= di < devices.len(),
        forall|k: int| 0 <= k < di ==> devices[k].ieee@ != devices[di].ieee@,
        forall|k: int|
            0 <= k < devices[di].buttons@.len() ==> !(devices[di].buttons@[k].command@ == command
                && json_equal(devices[di].buttons@[k].params, params)),
    ensures
        spec_semantic_event(devices, devices[di].ieee@, command, params) is None,
{
    lemma_find_device_hit(devices, di);
    lemma_find_button_miss(devices[di].buttons@, command, params);
}

/// What a whole inbound frame means against the catalog: the symbolic
/// names, when the frame decodes to a raw remote-command event that the
/// catalog knows.
pub open spec fn spec_frame_event(devices: Seq<DeviceSpec>, frame: Json) -> Option<
    (Seq<char>, Seq<char>),
> {
    match spec_decode_response(frame) {
        Some(w) => match w.data {
            HassResponse::Event {
                event: HassEvent::ZhaEvent { device_ieee, command, params },
            } => spec_semantic_event(devices, device_ieee@, command@, params),
            _ => None,
        },
        None => None,
    }
}

/// Decodes and filters one inbound frame, as [`spec_frame_event`]
/// describes: the semantic event, or nothing for frames that do not decode,
/// are not remote-command events, or miss the catalog.
pub fn decode_frame(devices: &Vec<DeviceSpec>, frame: &Json) -> (r: Option<Event>)
    ensures
        match spec_frame_event(devices@, *frame) {
            Some(names) => r matches Some(e) && e.device@ == names.0 && e.name@ == names.1,
            None => r is None,
        },
{
    let w = match crate::api::decode_response(frame) {
        Ok(w) => w,
        Err(_) => {
            return None;
        },
    };
    match w.data {
        HassResponse::Event { event: HassEvent::ZhaEvent { device_ieee, command, params } } => {
            let r = match_event(devices, &device_ieee, &command, &params);
            proof {
                if let Some(m) = spec_decode_response(*frame) {
                    match m.data {
                        HassResponse::Event {
                            event: HassEvent::ZhaEvent {
                                device_ieee: di2,
                                command: c2,
                                params: p2,
                            },
                        } => {
                            lemma_semantic_event_respects(
                                devices@,
                                device_ieee@,
                                command@,
                                params,
                                p2,
                            );
                        },
                        _ => {},
                    }
                }
            }
            r
        },
        _ => None,
    }
}

} // verus!
