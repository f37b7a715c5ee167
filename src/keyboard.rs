use vstd::prelude::*;

verus! {

/// Keycodes lie in the inclusive range `[8, 255]`.
pub const KEYCODE_OFFSET: u8 = 8;

/// The held-key slot after a key event: only repeatable keys touch it; a press
/// records the key, a release clears it only when it names that same key.
pub open spec fn held_after(held: Option<u32>, keycode: u32, repeats: bool, pressed: bool) -> Option<u32> {
    if !repeats {
        held
    } else if pressed {
        Some(keycode)
    } else if held == Some(keycode) {
        None
    } else {
        held
    }
}

/// Whether a key event is a repeat: a press of a repeatable key that is
/// already the held key.
pub open spec fn is_repeat(held: Option<u32>, keycode: u32, repeats: bool, pressed: bool) -> bool {
    repeats && pressed && held == Some(keycode)
}

/// Updates the held-key slot for one key event and returns its repeat flag.
pub fn track_key_repeat(held: &mut Option<u32>, keycode: u32, repeats: bool, pressed: bool) -> (repeat: bool)
    ensures
        *final(held) == held_after(*old(held), keycode, repeats, pressed),
        repeat == is_repeat(*old(held), keycode, repeats, pressed),
{
    if repeats {
        let is_latest_held = *held == Some(keycode);
        if pressed {
            *held = Some(keycode);
            is_latest_held
        } else {
            if is_latest_held {
                *held = None;
            }
            false
        }
    } else {
        false
    }
}

/// The keycodes of a hardware key map that are valid keycodes, in order.
pub open spec fn valid_keycodes(keys: Seq<u8>) -> Seq<u8>
    decreases keys.len(),
{
    if keys.len() == 0 {
        Seq::empty()
    } else if keys.last() >= KEYCODE_OFFSET {
        valid_keycodes(keys.drop_last()).push(keys.last())
    } else {
        valid_keycodes(keys.drop_last())
    }
}

/// Keeps the valid keycodes of a hardware key map.
pub fn filter_valid_keycodes(keys: &Vec<u8>) -> (r: Vec<u8>)
    ensures
        r@ == valid_keycodes(keys@),
{
    let mut r: Vec<u8> = Vec::new();
    let mut i: usize = 0;
    while i < keys.len()
        invariant
            i <= keys.len(),
            r@ == valid_keycodes(keys@.subrange(0, i as int)),
        decreases keys.len() - i,
    {
        assert(keys@.subrange(0, i as int + 1).drop_last() == keys@.subrange(0, i as int));
        if keys[i] >= KEYCODE_OFFSET {
            r.push(keys[i]);
        }
        i += 1;
    }
    assert(keys@.subrange(0, keys.len() as int) == keys@);
    r
}

/// A run of key events: keycode, whether the keymap marks it repeatable, and
/// whether it was pressed.
pub open spec fn held_after_all(held: Option<u32>, keys: Seq<(u32, bool, bool)>) -> Option<u32>
    decreases keys.len(),
{
    if keys.len() == 0 {
        held
    } else {
        let k = keys.last();
        held_after(held_after_all(held, keys.drop_last()), k.0, k.1, k.2)
    }
}

/// Whether the last event for `keycode` in a run is a press (from `start`
/// when the run holds none).
pub open spec fn last_pressed(start: bool, keys: Seq<(u32, bool, bool)>, keycode: u32) -> bool
    decreases keys.len(),
{
    if keys.len() == 0 {
        start
    } else if keys.last().0 == keycode {
        keys.last().2
    } else {
        last_pressed(start, keys.drop_last(), keycode)
    }
}

/// Whether a run classifies each keycode the same way each time, as one
/// keymap does.
pub open spec fn consistent_keymap(keys: Seq<(u32, bool, bool)>) -> bool {
    forall|i: int, j: int|
        0 <= i < keys.len() && 0 <= j < keys.len() && #[trigger] keys[i].0 == #[trigger] keys[j].0
            ==> keys[i].1 == keys[j].1
}

/// After any run of key events under one keymap that starts with no held key,
/// a held key is a key that the keymap marks repeatable and whose last event
/// was a press.
pub proof fn lemma_held_key_is_pressed(keys: Seq<(u32, bool, bool)>)
    requires
        consistent_keymap(keys),
    ensures
        held_after_all(None, keys) matches Some(k) ==> exists|i: int|
            0 <= i < keys.len() && #[trigger] keys[i].0 == k && keys[i].1,
        held_after_all(None, keys) matches Some(k) ==> last_pressed(false, keys, k),
    decreases keys.len(),
{
    if keys.len() > 0 {
        let prefix = keys.drop_last();
        assert forall|i: int, j: int|
            0 <= i < prefix.len() && 0 <= j < prefix.len() && #[trigger] prefix[i].0 == #[trigger] prefix[j].0
            implies prefix[i].1 == prefix[j].1 by {
            assert(keys[i] == prefix[i] && keys[j] == prefix[j]);
        }
        lemma_held_key_is_pressed(prefix);
        let k = keys.last();
        let before = held_after_all(None, prefix);
        if let Some(h) = held_after_all(None, keys) {
            if k.1 && k.2 {
                assert(keys[keys.len() - 1].0 == h);
            } else {
                assert(before == Some(h));
                let i = choose|i: int| 0 <= i < prefix.len() && #[trigger] prefix[i].0 == h && prefix[i].1;
                assert(keys[i] == prefix[i]);
                if k.0 == h {
                    assert(keys[keys.len() - 1].0 == keys[i].0);
                }
            }
        }
    }
}

/// Releasing a key other than the held one leaves the held key in place.
pub proof fn lemma_other_release_keeps_held(held: Option<u32>, keycode: u32, repeats: bool)
    requires
        held != Some(keycode),
    ensures
        held_after(held, keycode, repeats, false) == held,
{
}

} // verus!
