use vstd::prelude::*;

use crate::config::{EVENT_NAME, SHORTCUT};

verus! {

/// The state of the key combination that the operating system reports to the callback.
#[derive(Clone, Copy, Debug, PartialEq, Eq, Structural)]
pub enum KeyState {
    Pressed,
    Released,
}

/// A named, payload-less signal for every listener of the frontend.
pub struct Notification {
    pub event: String,
}

/// Binds the global shortcut to the notification it triggers.
pub struct ShortcutBridge {
    pub accelerator: String,
    pub event: String,
}

/// The diagnostic line for a notification that could not be emitted.
pub open spec fn emit_failure_message(event: Seq<char>, cause: Seq<char>) -> Seq<char> {
    "Failed to emit "@ + event + ": "@ + cause
}

/// The event names on a channel after `n` further activations of a bridge for `event`.
pub open spec fn after_activations(log: Seq<Seq<char>>, event: Seq<char>, n: nat) -> Seq<Seq<char>>
    decreases n,
{
    if n == 0 {
        log
    } else {
        after_activations(log.push(event), event, (n - 1) as nat)
    }
}

/// The event names of the notifications on a channel, in order.
pub open spec fn event_names(channel: Seq<Notification>) -> Seq<Seq<char>> {
    channel.map_values(|n: Notification| n.event@)
}

impl ShortcutBridge {
    /// The bridge of this application: its shortcut and its event.
    pub fn new() -> (b: ShortcutBridge)
        ensures
            b.accelerator@ == SHORTCUT@,
            b.event@ == EVENT_NAME@,
    {
        ShortcutBridge {
            accelerator: String::from_str(SHORTCUT),
            event: String::from_str(EVENT_NAME),
        }
    }

    /// The notification owed for a report of the shortcut: one for each press, none for
    /// a release.
    pub fn on_shortcut(&self, state: KeyState) -> (n: Option<Notification>)
        ensures
            n is Some <==> state == KeyState::Pressed,
            n matches Some(x) ==> x.event@ == self.event@,
    {
        match state {
            KeyState::Pressed => Some(Notification { event: self.event.clone() }),
            KeyState::Released => None,
        }
    }

    /// Emits onto `channel` what a report of the shortcut owes.
    pub fn activate(&self, state: KeyState, channel: &mut Vec<Notification>)
        ensures
            event_names(final(channel)@) == after_activations(
                event_names(old(channel)@),
                self.event@,
                if state == KeyState::Pressed { 1 } else { 0 },
            ),
    {
        let ghost before = channel@;
        match self.on_shortcut(state) {
            Some(n) => {
                channel.push(n);
                assert(event_names(channel@) =~= event_names(before).push(self.event@));
                assert(after_activations(event_names(before), self.event@, 1) == after_activations(
                    event_names(before).push(self.event@),
                    self.event@,
                    0,
                ));
            },
            None => {},
        }
    }

    /// What to report once an emission returned `r`: a failure is logged and goes no further.
    pub fn on_emitted(&self, r: Result<(), String>) -> (line: Option<String>)
        ensures
            r is Ok <==> line is None,
            r matches Err(cause) ==> line matches Some(l) && l@ == emit_failure_message(
                self.event@,
                cause@,
            ),
    {
        match r {
            Ok(_) => None,
            Err(cause) => {
                let mut line = String::from_str("Failed to emit ");
                line.append(self.event.as_str());
                line.append(": ");
                line.append(cause.as_str());
                Some(line)
            },
        }
    }
}

/// Every activation adds exactly one notification, after those already emitted: `n` presses
/// emit `n` notifications, all of the bridge's event and in the order of the presses.
pub proof fn lemma_activations_emit_in_order(log: Seq<Seq<char>>, event: Seq<char>, n: nat)
    ensures
        after_activations(log, event, n).len() == log.len() + n,
        after_activations(log, event, n).take(log.len() as int) == log,
        forall|i: int|
            log.len() <= i < log.len() + n ==> #[trigger] after_activations(log, event, n)[i]
                == event,
    decreases n,
{
    if n > 0 {
        let m = (n - 1) as nat;
        lemma_activations_emit_in_order(log.push(event), event, m);
        let r = after_activations(log, event, n);
        assert(r.take(log.len() as int) =~= log.push(event).take(log.len() as int));
        assert(log.push(event).take(log.len() as int) =~= log);
        assert forall|i: int| log.len() <= i < log.len() + n implies #[trigger] r[i] == event by {
            if i == log.len() {
                assert(r.take((log.len() + 1) as int)[i] == log.push(event)[i]);
            }
        }
    } else {
        assert(log.take(log.len() as int) =~= log);
    }
}

} // verus!
