//! Ending the processes of an agent.

use vstd::prelude::*;

verus! {

/// A signal that asks a group of processes to end, more firmly each time.
#[derive(Debug, Clone, Copy, PartialEq, Eq, Structural)]
pub enum KillSignal {
    Interrupt,
    Terminate,
    Kill,
}

/// The number of seconds that a group of processes gets to end after a signal.
pub const GRACE_SECONDS: u64 = 2;

/// The signals in the order in which they are sent.
pub open spec fn escalation() -> Seq<KillSignal> {
    seq![KillSignal::Interrupt, KillSignal::Terminate, KillSignal::Kill]
}

/// The signal after the last one that was sent, if there is one.
pub open spec fn following(sent: Option<KillSignal>) -> Option<KillSignal> {
    match sent {
        None => Some(KillSignal::Interrupt),
        Some(KillSignal::Interrupt) => Some(KillSignal::Terminate),
        Some(KillSignal::Terminate) => Some(KillSignal::Kill),
        Some(KillSignal::Kill) => None,
    }
}

/// The signal to send next, after one was sent and its time has passed. Nothing
/// is sent any more once the leader of the group has exited.
pub fn next_signal(sent: Option<KillSignal>, exited: bool) -> (res: Option<KillSignal>)
    ensures
        res == if exited {
            None
        } else {
            following(sent)
        },
{
    if exited {
        return None;
    }
    match sent {
        None => Some(KillSignal::Interrupt),
        Some(KillSignal::Interrupt) => Some(KillSignal::Terminate),
        Some(KillSignal::Terminate) => Some(KillSignal::Kill),
        Some(KillSignal::Kill) => None,
    }
}

/// The signals that are sent to a group whose leader is seen to have exited, or
/// not, after each of them.
pub open spec fn sent_signals(last: Option<KillSignal>, exits: Seq<bool>) -> Seq<KillSignal>
    decreases exits.len(),
{
    match following(last) {
        None => Seq::empty(),
        Some(signal) => if exits.len() == 0 || exits[0] {
            seq![signal]
        } else {
            seq![signal] + sent_signals(Some(signal), exits.drop_first())
        },
    }
}

/// A group is sent the three signals in their order, up to the one after which
/// its leader has exited, and no more than those.
pub proof fn law_signals_escalate_until_exit(exits: Seq<bool>, at: int)
    requires
        exits.len() >= 3,
        0 <= at <= 3,
        forall|i: int| 0 <= i < at ==> !#[trigger] exits[i],
        at < 3 ==> exits[at],
    ensures
        sent_signals(None, exits) == escalation().take(
            if at < 3 {
                at + 1
            } else {
                3
            },
        ),
{
    reveal_with_fuel(sent_signals, 4);
    let second = exits.drop_first();
    let third = second.drop_first();
    assert(second[0] == exits[1]);
    assert(third[0] == exits[2]);
    let sent = sent_signals(None, exits);
    if at == 0 {
        assert(sent =~= escalation().take(1));
    } else if at == 1 {
        assert(sent =~= escalation().take(2));
    } else {
        assert(sent =~= escalation().take(3));
    }
}

/// Each signal is firmer than the one before, the last one is a kill, and nothing
/// is sent to what has exited.
pub proof fn law_next_signal_is_firmer(
    sent: Option<KillSignal>,
    exited: bool,
    next: Option<KillSignal>,
)
    requires
        call_ensures(next_signal, (sent, exited), next),
    ensures
        next is None <==> exited || sent == Some(KillSignal::Kill),
        next == Some(KillSignal::Interrupt) ==> sent is None,
        next == Some(KillSignal::Terminate) ==> sent == Some(KillSignal::Interrupt),
        next == Some(KillSignal::Kill) ==> sent == Some(KillSignal::Terminate),
{
}

} // verus!
