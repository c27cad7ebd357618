use input_simulator::events::{
    device_capabilities, key_batch, Capability, DeviceEvent, KeyCode, RelAxis, BTN_LEFT,
    BTN_MIDDLE, BTN_RIGHT,
};

fn key(code: u16) -> KeyCode {
    KeyCode { code }
}

#[test]
fn batch_of_no_keys_is_one_sync() {
    assert_eq!(key_batch(&[], 0), vec![DeviceEvent::Sync]);
    assert_eq!(key_batch(&[], 1), vec![DeviceEvent::Sync]);
}

#[test]
fn batch_keeps_order_and_ends_with_sync() {
    let keys = [key(30), key(48), key(30)];
    assert_eq!(
        key_batch(&keys, 1),
        vec![
            DeviceEvent::Key { code: key(30), value: 1 },
            DeviceEvent::Key { code: key(48), value: 1 },
            DeviceEvent::Key { code: key(30), value: 1 },
            DeviceEvent::Sync,
        ]
    );
    let released = key_batch(&keys, 0);
    assert_eq!(released.len(), 4);
    assert_eq!(released.iter().filter(|e| **e == DeviceEvent::Sync).count(), 1);
    assert_eq!(released[3], DeviceEvent::Sync);
    assert_eq!(released[1], DeviceEvent::Key { code: key(48), value: 0 });
}

#[test]
fn capabilities_baseline_then_selected() {
    let caps = device_capabilities(&[key(30), key(44)]);
    assert_eq!(
        caps,
        vec![
            Capability::Key(key(BTN_LEFT)),
            Capability::Key(key(BTN_RIGHT)),
            Capability::Key(key(BTN_MIDDLE)),
            Capability::Rel(RelAxis::X),
            Capability::Rel(RelAxis::Y),
            Capability::Key(key(30)),
            Capability::Key(key(44)),
        ]
    );
}

#[test]
fn capabilities_without_selection_are_the_baseline() {
    let caps = device_capabilities(&[]);
    assert_eq!(caps.len(), 5);
    assert_eq!(caps[0], Capability::Key(key(0x110)));
    assert_eq!(caps[4], Capability::Rel(RelAxis::Y));
}
