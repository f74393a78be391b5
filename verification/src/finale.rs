//! The finale: what the foreground does when the countdown reaches zero.
//!
//! After writing one last frame showing zero, the device blinks the
//! indicator a fixed odd number of times at a fixed interval — so the
//! indicator is lit when the blinking stops — holds it lit for a fixed
//! time, switches it off, and reloads the countdown. The whole sequence is
//! a fixed schedule of indicator toggles and waits; this module produces
//! that schedule and proves how it leaves the indicator.

use vstd::prelude::*;

verus! {

/// How often the indicator is toggled while blinking; odd, so the blink
/// phase ends with the indicator inverted — lit, when it starts unlit.
pub const BLINK_TOGGLES: u8 = 11;

/// Milliseconds between blink toggles.
pub const BLINK_INTERVAL_MS: u16 = 100;

/// Milliseconds the indicator is held lit after the blinking.
pub const HOLD_MS: u16 = 3000;

/// One step of the finale schedule.
#[derive(Clone, Copy, Debug, PartialEq, Eq, Structural)]
pub enum FinaleAction {
    /// Invert the indicator output.
    Toggle,
    /// Busy-wait this many milliseconds.
    Wait(u16),
}

/// The blink phase: `n` toggles, each followed by the blink interval.
pub open spec fn blink_seq(n: nat) -> Seq<FinaleAction>
    decreases n,
{
    if n == 0 {
        Seq::empty()
    } else {
        blink_seq((n - 1) as nat) + seq![
            FinaleAction::Toggle,
            FinaleAction::Wait(BLINK_INTERVAL_MS),
        ]
    }
}

/// The whole schedule: the blink phase, then the hold, then the toggle
/// that switches the indicator back off.
pub open spec fn finale_seq() -> Seq<FinaleAction> {
    blink_seq(BLINK_TOGGLES as nat) + seq![FinaleAction::Wait(HOLD_MS), FinaleAction::Toggle]
}

/// Where the indicator output stands after a schedule runs, starting
/// from `init` (`true` is lit).
pub open spec fn indicator_after(init: bool, acts: Seq<FinaleAction>) -> bool
    decreases acts.len(),
{
    if acts.len() == 0 {
        init
    } else {
        let before_last = indicator_after(init, acts.drop_last());
        if acts.last() is Toggle {
            !before_last
        } else {
            before_last
        }
    }
}

/// Produce the finale schedule.
pub fn finale_actions() -> (acts: Vec<FinaleAction>)
    ensures
        acts@ == finale_seq(),
{
    let mut acts: Vec<FinaleAction> = Vec::new();
    proof {
        assert(acts@ =~= blink_seq(0));
    }
    let mut i: u8 = 0;
    while i < BLINK_TOGGLES
        invariant
            i <= BLINK_TOGGLES,
            acts@ == blink_seq(i as nat),
        decreases BLINK_TOGGLES - i,
    {
        acts.push(FinaleAction::Toggle);
        acts.push(FinaleAction::Wait(BLINK_INTERVAL_MS));
        i = i + 1;
        proof {
            assert(acts@ =~= blink_seq(i as nat));
        }
    }
    acts.push(FinaleAction::Wait(HOLD_MS));
    acts.push(FinaleAction::Toggle);
    proof {
        assert(acts@ =~= finale_seq());
    }
    acts
}

/// After `n` blink toggles the indicator is inverted exactly when `n` is
/// odd.
proof fn lemma_blink_parity(init: bool, n: nat)
    ensures
        indicator_after(init, blink_seq(n)) == (if n % 2 == 0 {
            init
        } else {
            !init
        }),
    decreases n,
{
    if n > 0 {
        lemma_blink_parity(init, (n - 1) as nat);
        let prev = blink_seq((n - 1) as nat);
        let full = blink_seq(n);
        let mid = prev + seq![FinaleAction::Toggle];
        assert(full.last() == FinaleAction::Wait(BLINK_INTERVAL_MS));
        assert(full.drop_last() =~= mid);
        assert(mid.last() == FinaleAction::Toggle);
        assert(mid.drop_last() =~= prev);
        assert(indicator_after(init, mid) == !indicator_after(init, prev));
        assert(indicator_after(init, full) == indicator_after(init, mid));
    }
}

/// Law: whatever state the indicator starts in, the blink phase leaves it
/// inverted — lit through the hold when it started unlit — and the final
/// toggle puts it back where it started.
pub proof fn lemma_finale_indicator(init: bool)
    ensures
        indicator_after(init, blink_seq(BLINK_TOGGLES as nat)) == !init,
        indicator_after(init, finale_seq()) == init,
{
    lemma_blink_parity(init, BLINK_TOGGLES as nat);
    let blink = blink_seq(BLINK_TOGGLES as nat);
    let full = finale_seq();
    let mid = blink + seq![FinaleAction::Wait(HOLD_MS)];
    assert(full.last() == FinaleAction::Toggle);
    assert(full.drop_last() =~= mid);
    assert(mid.last() == FinaleAction::Wait(HOLD_MS));
    assert(mid.drop_last() =~= blink);
    assert(indicator_after(init, mid) == indicator_after(init, blink));
    assert(indicator_after(init, full) == !indicator_after(init, mid));
}

} // verus!
