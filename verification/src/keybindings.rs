//! The keybinding-match predicate exposed to the embedding configuration
//! layer: which configured bindings a key event triggers.

use vstd::prelude::*;

verus! {

/// One configured binding.  A zero keysym or keycode means "unset"; a zero
/// modifier mask means "any modifiers".
#[derive(Clone, Copy, Debug, PartialEq, Eq, Structural)]
pub struct KeyBinding {
    pub keysym: u32,
    pub keycode: u32,
    pub modifiers: u32,
}

/// A pressed or released key, as handed in by the input layer.
#[derive(Clone, Copy, Debug, PartialEq, Eq, Structural)]
pub struct KeyPress {
    /// The resolved keysym of the key.
    pub keysym: u32,
    /// The raw keycode of the key.
    pub keycode: u32,
}

/// A binding matches an event iff its keysym or keycode equals the event's
/// (an unset zero never matches), and its modifier mask is zero or equals
/// the event's active modifier bitmask.
pub open spec fn binding_matches_spec(
    binding: KeyBinding,
    press: KeyPress,
    active_modifiers: u32,
) -> bool {
    &&& (binding.keysym != 0 && binding.keysym == press.keysym) || (binding.keycode != 0
        && binding.keycode == press.keycode)
    &&& binding.modifiers == 0 || binding.modifiers == active_modifiers
}

/// Does one binding match the event?
pub fn binding_matches(binding: &KeyBinding, press: &KeyPress, active_modifiers: u32) -> (r: bool)
    ensures
        r == binding_matches_spec(*binding, *press, active_modifiers),
{
    let key_match = (binding.keysym != 0 && binding.keysym == press.keysym) || (binding.keycode
        != 0 && binding.keycode == press.keycode);
    let modifier_match = binding.modifiers == 0 || binding.modifiers == active_modifiers;
    key_match && modifier_match
}

/// The positions of all configured bindings that the event matches, in
/// configuration order.
pub fn matching_bindings(bindings: &Vec<KeyBinding>, press: &KeyPress, active_modifiers: u32) -> (r:
    Vec<usize>)
    ensures
        forall|k: int|
            0 <= k < r@.len() ==> (#[trigger] r@[k]) < bindings@.len() && binding_matches_spec(
                bindings@[r@[k] as int],
                *press,
                active_modifiers,
            ),
        forall|i: int|
            0 <= i < bindings@.len() && binding_matches_spec(
                #[trigger] bindings@[i],
                *press,
                active_modifiers,
            ) ==> r@.contains(i as usize),
        forall|a: int, b: int| 0 <= a < b < r@.len() ==> (#[trigger] r@[a]) < (#[trigger] r@[b]),
{
    let n = bindings.len();
    let mut r: Vec<usize> = Vec::new();
    let mut i: usize = 0;
    while i < n
        invariant
            n == bindings@.len(),
            i <= n,
            forall|k: int|
                0 <= k < r@.len() ==> (#[trigger] r@[k]) < i && binding_matches_spec(
                    bindings@[r@[k] as int],
                    *press,
                    active_modifiers,
                ),
            forall|j: int|
                0 <= j < i && binding_matches_spec(
                    #[trigger] bindings@[j],
                    *press,
                    active_modifiers,
                ) ==> r@.contains(j as usize),
            forall|a: int, b: int| 0 <= a < b < r@.len() ==> (#[trigger] r@[a]) < (#[trigger] r@[b]),
        decreases n - i,
    {
        if binding_matches(&bindings[i], press, active_modifiers) {
            let ghost r0 = r@;
            r.push(i);
            proof {
                assert forall|j: int|
                    0 <= j < i + 1 && binding_matches_spec(
                        #[trigger] bindings@[j],
                        *press,
                        active_modifiers,
                    ) implies r@.contains(j as usize) by {
                    if j < i as int {
                        assert(r0.contains(j as usize));
                        let w = choose|w: int| 0 <= w < r0.len() && r0[w] == j as usize;
                        assert(r@[w] == j as usize);
                    } else {
                        assert(r@[r@.len() - 1] == i);
                    }
                }
            }
        }
        i = i + 1;
    }
    r
}

} // verus!
