//! Input bindings: which pointer or touch gesture triggers which
//! notification action.  The binding table keeps the first event bound to
//! each gesture; later additions for the same gesture are ignored.

use vstd::prelude::*;

verus! {

/// What a triggered binding does to the notification.
#[derive(Clone, Copy, Debug, PartialEq, Eq, Structural)]
pub enum NotificationAction {
    /// Open the notification.
    OpenNotification,
    /// Close the notification.
    Close,
}

/// The pointer or touch gesture a binding listens for.
#[derive(Clone, Copy, Debug, Hash, PartialEq, Eq, Structural)]
pub enum InputAction {
    /// Primary button.
    LeftClick,
    /// Secondary button.
    RightClick,
    /// Middle button.
    MiddleClick,
    /// Wheel up.
    ScrollUp,
    /// Wheel down.
    ScrollDown,
    /// Upward touch swipe.
    TouchSwipeUp,
    /// Downward touch swipe.
    TouchSwipeDown,
}

/// A keyboard modifier a binding may require.
#[derive(Clone, Copy, Debug, PartialEq, Eq, Structural)]
pub enum InputModifier {
    /// Shift key.
    Shift,
    /// Control key.
    Ctrl,
    /// Alt key.
    Alt,
    /// Super key.
    Super,
}

/// One bound event: an action, optionally guarded by a modifier.
#[derive(Clone, Copy, Debug, PartialEq, Eq)]
pub struct InputEvent {
    /// The modifier that must be held, if any.
    pub modifier: Option<InputModifier>,
    /// The action to perform.
    pub action: NotificationAction,
}

impl InputEvent {
    /// An unguarded event performing `action`.
    pub fn new(action: NotificationAction) -> (r: Self)
        ensures
            r.action == action,
            r.modifier is None,
    {
        InputEvent { action, modifier: None }
    }

    /// The same event, guarded by `modifier`.
    pub fn with_modifiers(self, modifier: InputModifier) -> (r: Self)
        ensures
            r.action == self.action,
            r.modifier == Some(modifier),
    {
        InputEvent { modifier: Some(modifier), action: self.action }
    }
}

/// The event bound first to `a` among `entries`, if any.
pub open spec fn spec_get(entries: Seq<(InputAction, InputEvent)>, a: InputAction) -> Option<
    InputEvent,
>
    decreases entries.len(),
{
    if entries.len() == 0 {
        None
    } else if entries[0].0 == a {
        Some(entries[0].1)
    } else {
        spec_get(entries.drop_first(), a)
    }
}

proof fn lemma_spec_get_push(
    entries: Seq<(InputAction, InputEvent)>,
    p: (InputAction, InputEvent),
    a: InputAction,
)
    ensures
        spec_get(entries.push(p), a) == (if spec_get(entries, a) is Some {
            spec_get(entries, a)
        } else if p.0 == a {
            Some(p.1)
        } else {
            None
        }),
    decreases entries.len(),
{
    if entries.len() == 0 {
        assert(entries.push(p)[0] == p);
        assert(entries.push(p).drop_first() =~= Seq::<(InputAction, InputEvent)>::empty());
        assert(spec_get(Seq::<(InputAction, InputEvent)>::empty(), a) is None);
    } else {
        assert(entries.push(p)[0] == entries[0]);
        assert(entries.push(p).drop_first() =~= entries.drop_first().push(p));
        lemma_spec_get_push(entries.drop_first(), p, a);
    }
}

/// The binding table: gesture to event, first binding wins.
#[derive(Clone, Debug, PartialEq)]
pub struct Action {
    entries: Vec<(InputAction, InputEvent)>,
}

impl Action {
    /// The event bound to `a`, if any.
    pub closed spec fn spec_lookup(self, a: InputAction) -> Option<InputEvent> {
        spec_get(self.entries@, a)
    }

    /// An empty table.
    pub fn new() -> (r: Self)
        ensures
            forall|a: InputAction| #[trigger] r.spec_lookup(a) is None,
    {
        Action { entries: Vec::new() }
    }

    /// The event bound to `action`, if any.
    pub fn get(&self, action: InputAction) -> (r: Option<InputEvent>)
        ensures
            r == self.spec_lookup(action),
    {
        let n = self.entries.len();
        proof {
            assert(self.entries@.skip(0) =~= self.entries@);
        }
        let mut i: usize = 0;
        while i < n
            invariant
                0 <= i <= n,
                n == self.entries@.len(),
                spec_get(self.entries@, action) == spec_get(
                    self.entries@.skip(i as int),
                    action,
                ),
            decreases n - i,
        {
            let (k, v) = self.entries[i];
            proof {
                assert(self.entries@.skip(i as int)[0] == self.entries@[i as int]);
                assert(self.entries@.skip(i as int).drop_first() =~= self.entries@.skip(
                    i as int + 1,
                ));
            }
            if k == action {
                return Some(v);
            }
            i = i + 1;
        }
        None
    }

    /// Bind `event` to `action`, unless `action` is already bound.
    pub fn add(&mut self, action: InputAction, event: InputEvent)
        ensures
            final(self).spec_lookup(action) == (if old(self).spec_lookup(action) is Some {
                old(self).spec_lookup(action)
            } else {
                Some(event)
            }),
            forall|a2: InputAction|
                a2 != action ==> #[trigger] final(self).spec_lookup(a2) == old(self).spec_lookup(
                    a2,
                ),
    {
        let existing = self.get(action);
        if existing.is_none() {
            let ghost pre = self.entries@;
            self.entries.push((action, event));
            proof {
                assert forall|a2: InputAction| true implies #[trigger] spec_get(
                    self.entries@,
                    a2,
                ) == (if spec_get(pre, a2) is Some {
                    spec_get(pre, a2)
                } else if a2 == action {
                    Some(event)
                } else {
                    None
                }) by {
                    lemma_spec_get_push(pre, (action, event), a2);
                }
            }
        }
    }
}

impl Default for Action {
    /// The stock bindings: primary click opens, secondary click and wheel
    /// up close.
    fn default() -> (r: Self)
        ensures
            r.spec_lookup(InputAction::LeftClick) == Some(
                (InputEvent { modifier: None, action: NotificationAction::OpenNotification }),
            ),
            r.spec_lookup(InputAction::RightClick) == Some(
                (InputEvent { modifier: None, action: NotificationAction::Close }),
            ),
            r.spec_lookup(InputAction::ScrollUp) == Some(
                (InputEvent { modifier: None, action: NotificationAction::Close }),
            ),
            r.spec_lookup(InputAction::MiddleClick) is None,
            r.spec_lookup(InputAction::ScrollDown) is None,
    {
        let mut action = Action::new();
        action.add(InputAction::LeftClick, InputEvent::new(NotificationAction::OpenNotification));
        action.add(InputAction::RightClick, InputEvent::new(NotificationAction::Close));
        action.add(InputAction::ScrollUp, InputEvent::new(NotificationAction::Close));
        action
    }
}

} // verus!
