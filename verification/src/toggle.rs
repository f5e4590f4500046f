//! The key-press-driven view toggle: a two-state machine keyed by the
//! parity of a counter. The "q" key requests that the window close and
//! changes nothing; any other key steps the counter and rebuilds the
//! container with the two widgets the new counter selects.
//!
//! A host registers a key-press callback that calls `Toggler::handle_key`
//! and performs the returned outcome: close the window, or mirror the
//! rebuilt container onto the widget tree.

use vstd::prelude::*;
use crate::view::{Container, view_children};

verus! {

/// The two states of the toggle, the parity of the counter.
#[derive(Clone, Copy, Debug, PartialEq, Eq, Structural)]
pub enum Parity {
    /// The counter is even: multi-shape renderer, viaduct picture.
    Even,
    /// The counter is odd: single-circle renderer, gecko picture.
    Odd,
}

/// The state that a counter value is in.
pub open spec fn state_of(counter: int) -> Parity {
    if counter % 2 == 0 {
        Parity::Even
    } else {
        Parity::Odd
    }
}

/// What a key press asks the host to do.
#[derive(Clone, Copy, Debug, PartialEq, Eq, Structural)]
pub enum KeyOutcome {
    /// The "q" key: close the window; nothing was rebuilt.
    CloseRequested,
    /// Any other key: the container now holds the new counter's view.
    Rebuilt,
}

/// The name of the key that closes the window.
pub open spec fn quit_key() -> Seq<char> {
    "q"@
}

/// Relies on str's `PartialEq`: two string slices are equal exactly when
/// their character sequences are equal.
#[verifier::external_body]
fn str_eq(a: &str, b: &str) -> (r: bool)
    ensures
        r == (a@ == b@),
{
    a == b
}

/// The toggle's whole state: the counter and the displayed container.
#[derive(Debug)]
pub struct Toggler {
    /// Key presses handled so far; its parity selects the view.
    pub counter: u64,
    /// The two widgets currently displayed.
    pub container: Container,
}

impl Toggler {
    /// The state at first display: counter zero, showing the even view.
    pub fn new() -> (t: Toggler)
        ensures
            t.counter == 0,
            t.container.children@ == view_children(0),
            state_of(t.counter as int) == Parity::Even,
    {
        let mut container = Container::new();
        container.rebuild(0);
        Toggler { counter: 0, container }
    }

    /// The state this toggler is in.
    pub fn state(&self) -> (p: Parity)
        ensures
            p == state_of(self.counter as int),
    {
        if self.counter % 2 == 0 {
            Parity::Even
        } else {
            Parity::Odd
        }
    }

    /// Handle one key press, named by `key`. On "q", request a close and
    /// change nothing. On any other key, step the counter once and rebuild
    /// the container with the view the new counter selects.
    pub fn handle_key(&mut self, key: &str) -> (out: KeyOutcome)
        requires
            old(self).counter < u64::MAX,
        ensures
            key@ == quit_key() ==> out == KeyOutcome::CloseRequested,
            key@ == quit_key() ==> *final(self) == *old(self),
            key@ != quit_key() ==> out == KeyOutcome::Rebuilt,
            key@ != quit_key() ==> final(self).counter == old(self).counter + 1,
            key@ != quit_key() ==> final(self).container.children@ == view_children(
                final(self).counter as int,
            ),
            key@ != quit_key() ==> final(self).container.children@.len() == 2
                && final(self).container.children@[0] is DrawingSurface
                && final(self).container.children@[1] is ImageSurface,
    {
        if str_eq(key, "q") {
            KeyOutcome::CloseRequested
        } else {
            self.counter = self.counter + 1;
            self.container.rebuild(self.counter);
            KeyOutcome::Rebuilt
        }
    }
}

/// The state of a counter is its parity: even counters are in `Even`,
/// odd counters in `Odd`, and two counters of one parity are in one state
/// and select the same renderer, picture and children — the view depends
/// on nothing but the counter's parity.
pub proof fn lemma_state_determined_by_parity(n: int, m: int)
    requires
        0 <= n,
        0 <= m,
    ensures
        state_of(n) == (if n % 2 == 0 {
            Parity::Even
        } else {
            Parity::Odd
        }),
        n % 2 == m % 2 ==> state_of(n) == state_of(m) && view_children(n) == view_children(m),
{
    if n % 2 == m % 2 {
        assert(view_children(n) =~= view_children(m));
    }
}

/// Two presses of a non-quit key from counter `n` pass through the
/// opposite state and return to the starting state and view: `n + 1` is in
/// the other state, and `n + 2` is in `n`'s state and shows `n`'s children.
pub proof fn lemma_double_press_returns(n: int)
    requires
        0 <= n,
    ensures
        state_of(n + 1) != state_of(n),
        state_of(n + 2) == state_of(n),
        view_children(n + 2) == view_children(n),
{
    assert((n + 2) % 2 == n % 2) by (nonlinear_arith);
    assert(view_children(n + 2) =~= view_children(n));
}

} // verus!
