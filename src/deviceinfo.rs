use vstd::prelude::*;
use crate::event::EXTRA_BUTTON;

verus! {

/// The capabilities that the synthetic device advertises: relative axis codes and button
/// codes.
pub struct DeviceInfo {
    pub axes: Vec<u16>,
    pub mouse_buttons: Vec<u16>,
}

/// The buttons of the physical device, with the extra button added where it is missing.
pub open spec fn with_extra_button(buttons: Seq<u16>) -> Seq<u16> {
    if buttons.contains(EXTRA_BUTTON) {
        buttons
    } else {
        buttons.push(EXTRA_BUTTON)
    }
}

impl DeviceInfo {
    /// The synthetic device's capabilities, from the physical device's axes and buttons.
    pub fn new(axes: Vec<u16>, buttons: Vec<u16>) -> (r: DeviceInfo)
        ensures
            r.axes@ == axes@,
            r.mouse_buttons@ == with_extra_button(buttons@),
            r.mouse_buttons@.to_set() == buttons@.to_set().insert(EXTRA_BUTTON),
    {
        let mut mouse_buttons = buttons;
        let ghost orig = mouse_buttons@;
        let mut found = false;
        let mut i: usize = 0;
        while i < mouse_buttons.len()
            invariant
                mouse_buttons@ == orig,
                i <= orig.len(),
                found <==> exists|j: int| 0 <= j < i && orig[j] == EXTRA_BUTTON,
            decreases orig.len() - i,
        {
            if mouse_buttons[i] == EXTRA_BUTTON {
                found = true;
            }
            i = i + 1;
        }
        proof {
            if orig.contains(EXTRA_BUTTON) {
                let j = choose|j: int| 0 <= j < orig.len() && orig[j] == EXTRA_BUTTON;
                assert(orig[j] == EXTRA_BUTTON);
            }
        }
        if !found {
            mouse_buttons.push(EXTRA_BUTTON);
            proof {
                let pushed = orig.push(EXTRA_BUTTON);
                assert forall|a: u16| pushed.contains(a) <==> orig.contains(a) || a == EXTRA_BUTTON by {
                    if orig.contains(a) {
                        let j = choose|j: int| 0 <= j < orig.len() && orig[j] == a;
                        assert(pushed[j] == a);
                    }
                    if a == EXTRA_BUTTON {
                        assert(pushed[orig.len() as int] == a);
                    }
                }
                assert(pushed.to_set() =~= orig.to_set().insert(EXTRA_BUTTON));
            }
        } else {
            proof {
                assert(orig.to_set().contains(EXTRA_BUTTON));
                assert(orig.to_set().insert(EXTRA_BUTTON) =~= orig.to_set());
            }
        }
        DeviceInfo { axes, mouse_buttons }
    }
}

} // verus!
