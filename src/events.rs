use vstd::prelude::*;

verus! {

/// A key or button code of the input subsystem (`EV_KEY` codes).
#[derive(Clone, Copy, Debug, PartialEq, Eq, Structural)]
pub struct KeyCode {
    pub code: u16,
}

/// `BTN_LEFT`.
pub const BTN_LEFT: u16 = 0x110;

/// `BTN_RIGHT`.
pub const BTN_RIGHT: u16 = 0x111;

/// `BTN_MIDDLE`.
pub const BTN_MIDDLE: u16 = 0x112;

/// `KEY_NUMERIC_0`, pressed as the confirmation key in click mode.
pub const KEY_NUMERIC_0: u16 = 0x200;

/// Value of a key event that presses the key.
pub const PRESS: i32 = 1;

/// Value of a key event that releases the key.
pub const RELEASE: i32 = 0;

/// One low-level event written to the virtual device.
#[derive(Clone, Copy, Debug, PartialEq, Eq, Structural)]
pub enum DeviceEvent {
    /// An `EV_KEY` event: value 1 presses, value 0 releases.
    Key { code: KeyCode, value: i32 },
    /// An `EV_SYN` / `SYN_REPORT` event that makes the device apply what came before.
    Sync,
}

/// A relative motion axis.
#[derive(Clone, Copy, Debug, PartialEq, Eq, Structural)]
pub enum RelAxis {
    X,
    Y,
}

/// What the virtual device is registered as able to emit.
#[derive(Clone, Copy, Debug, PartialEq, Eq, Structural)]
pub enum Capability {
    Key(KeyCode),
    Rel(RelAxis),
}

pub open spec fn key_event(code: KeyCode, value: i32) -> DeviceEvent {
    DeviceEvent::Key { code, value }
}

/// One key event per key with the given value, in order, then one synchronization event.
pub open spec fn batch(keys: Seq<KeyCode>, value: i32) -> Seq<DeviceEvent> {
    keys.map_values(|k: KeyCode| key_event(k, value)).push(DeviceEvent::Sync)
}

/// The capabilities that every virtual device has, whatever keys are selected.
pub open spec fn baseline_capabilities() -> Seq<Capability> {
    seq![
        Capability::Key(KeyCode { code: BTN_LEFT }),
        Capability::Key(KeyCode { code: BTN_RIGHT }),
        Capability::Key(KeyCode { code: BTN_MIDDLE }),
        Capability::Rel(RelAxis::X),
        Capability::Rel(RelAxis::Y),
    ]
}

pub open spec fn capabilities(keys: Seq<KeyCode>) -> Seq<Capability> {
    baseline_capabilities() + keys.map_values(|k: KeyCode| Capability::Key(k))
}

/// The events that write `keys` with `value`, closed by one synchronization event.
pub fn key_batch(keys: &[KeyCode], value: i32) -> (r: Vec<DeviceEvent>)
    ensures
        r@ == batch(keys@, value),
{
    let mut r: Vec<DeviceEvent> = Vec::new();
    let mut i: usize = 0;
    while i < keys.len()
        invariant
            i <= keys@.len(),
            r@ == keys@.subrange(0, i as int).map_values(|k: KeyCode| key_event(k, value)),
        decreases keys@.len() - i,
    {
        r.push(DeviceEvent::Key { code: keys[i], value });
        i = i + 1;
        assert(r@ =~= keys@.subrange(0, i as int).map_values(|k: KeyCode| key_event(k, value)));
    }
    assert(keys@.subrange(0, i as int) =~= keys@);
    r.push(DeviceEvent::Sync);
    r
}

/// The capabilities to register on a new virtual device: the mouse baseline, then every
/// selected key in order.
pub fn device_capabilities(keys: &[KeyCode]) -> (r: Vec<Capability>)
    ensures
        r@ == capabilities(keys@),
{
    let mut r: Vec<Capability> = Vec::new();
    r.push(Capability::Key(KeyCode { code: BTN_LEFT }));
    r.push(Capability::Key(KeyCode { code: BTN_RIGHT }));
    r.push(Capability::Key(KeyCode { code: BTN_MIDDLE }));
    r.push(Capability::Rel(RelAxis::X));
    r.push(Capability::Rel(RelAxis::Y));
    assert(r@ =~= baseline_capabilities());
    let mut i: usize = 0;
    while i < keys.len()
        invariant
            i <= keys@.len(),
            r@ == baseline_capabilities() + keys@.subrange(0, i as int).map_values(
                |k: KeyCode| Capability::Key(k),
            ),
        decreases keys@.len() - i,
    {
        r.push(Capability::Key(keys[i]));
        i = i + 1;
        assert(r@ =~= baseline_capabilities() + keys@.subrange(0, i as int).map_values(
            |k: KeyCode| Capability::Key(k),
        ));
    }
    assert(keys@.subrange(0, i as int) =~= keys@);
    r
}

/// Every batch ends with exactly one synchronization event, whatever the number of keys.
pub proof fn lemma_batch_ends_with_one_sync(keys: Seq<KeyCode>, value: i32)
    ensures
        batch(keys, value).len() == keys.len() + 1,
        batch(keys, value).last() == DeviceEvent::Sync,
        forall|i: int|
            0 <= i < keys.len() ==> #[trigger] batch(keys, value)[i] == key_event(keys[i], value),
        forall|i: int|
            0 <= i < batch(keys, value).len() && #[trigger] batch(keys, value)[i]
                == DeviceEvent::Sync ==> i == keys.len(),
{
}

} // verus!
