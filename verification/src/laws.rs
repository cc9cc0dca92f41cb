//! What holds of the timer in every state, stated over its transition
//! function and proved.
use crate::app::{Policy, TimerState, LONG_BREAK_SECONDS, SHORT_BREAK_SECONDS, WORK_SECONDS};
use crate::messages::{Effect, Message};
use vstd::prelude::*;

verus! {

/// The state after `n` ticks in a row.
pub open spec fn after_ticks(s: TimerState, n: nat) -> TimerState
    decreases n,
{
    if n == 0 {
        s
    } else {
        after_ticks(s.step(Message::Tick), (n - 1) as nat)
    }
}

/// How many of `n` ticks in a row complete a phase.
pub open spec fn completions(s: TimerState, n: nat) -> nat
    decreases n,
{
    if n == 0 {
        0
    } else {
        let fired: nat = if s.effects(Message::Tick).contains(Effect::GainFocus) {
            1
        } else {
            0
        };
        fired + completions(s.step(Message::Tick), (n - 1) as nat)
    }
}

/// Dialling in a duration makes it both the configured duration and the
/// time that remains, and changes nothing else.
pub proof fn law_set_duration(s: TimerState, seconds: u16)
    ensures
        s.step(Message::SetSeconds(seconds)).configured_duration == seconds,
        s.step(Message::SetSeconds(seconds)).remaining == seconds,
        s.step(Message::SetSeconds(seconds)) == (TimerState {
            configured_duration: seconds as nat,
            remaining: seconds as nat,
            ..s
        }),
        s.effects(Message::SetSeconds(seconds)) == Seq::<Effect>::empty(),
{
}

/// While the timer runs with more than one second left, a tick takes off
/// exactly one second, changes nothing else and asks for nothing.
pub proof fn law_tick_counts_down(s: TimerState)
    requires
        !s.paused,
        s.remaining > 1,
    ensures
        s.step(Message::Tick) == (TimerState { remaining: (s.remaining - 1) as nat, ..s }),
        s.effects(Message::Tick) == Seq::<Effect>::empty(),
{
}

/// A tick that arrives while the timer is paused changes nothing and asks
/// for nothing.
pub proof fn law_tick_while_paused(s: TimerState)
    requires
        s.paused,
    ensures
        s.step(Message::Tick) == s,
        s.effects(Message::Tick) == Seq::<Effect>::empty(),
{
}

/// Any number of ticks that arrive while the timer is paused change nothing
/// and complete nothing.
pub proof fn law_ticks_while_paused(s: TimerState, n: nat)
    requires
        s.paused,
    ensures
        after_ticks(s, n) == s,
        completions(s, n) == 0,
    decreases n,
{
    if n > 0 {
        law_ticks_while_paused(s, (n - 1) as nat);
    }
}

/// Ticks that arrive between a pause and a resume do not count: after
/// them, the first tick of the running timer takes off exactly one second
/// of what was left at the pause.
pub proof fn law_paused_ticks_do_not_count(s: TimerState, n: nat)
    requires
        s.remaining > 1,
    ensures
        after_ticks(s.step(Message::Pause), n).step(Message::Resume).step(Message::Tick) == (
        TimerState { remaining: (s.remaining - 1) as nat, paused: false, ..s }),
{
    law_ticks_while_paused(s.step(Message::Pause), n);
}

/// The tick that takes a running timer from one second to zero completes
/// the phase: it asks for the window and for the audio cue, each once, and
/// the state is what the completion policy makes of the timer at zero.
pub proof fn law_tick_completes_phase(s: TimerState)
    requires
        !s.paused,
        s.remaining == 1,
    ensures
        s.effects(Message::Tick) == seq![Effect::GainFocus, Effect::PlayAudio],
        s.step(Message::Tick) == (TimerState { remaining: 0, ..s }).complete(),
{
}

/// A tick that finds the timer at zero changes nothing and asks for
/// nothing: the phase is not completed again and the time never goes below
/// zero.
pub proof fn law_tick_at_zero(s: TimerState)
    requires
        s.remaining == 0,
    ensures
        s.step(Message::Tick) == s,
        s.effects(Message::Tick) == Seq::<Effect>::empty(),
{
}

/// A tick asks for the window exactly when it takes the timer to zero, and
/// then exactly once.
pub proof fn law_focus_only_on_crossing(s: TimerState, message: Message)
    ensures
        s.effects(message).contains(Effect::GainFocus) <==> (message == Message::Tick
            && !s.paused && s.remaining == 1),
        s.effects(message).contains(Effect::GainFocus) ==> s.effects(message).filter(
            |e: Effect| e == Effect::GainFocus,
        ).len() == 1,
{
    let fx = s.effects(message);
    if message == Message::Tick && s.expires_on_tick() {
        let only = seq![Effect::GainFocus];
        reveal(Seq::filter);
        assert(fx.drop_last() =~= only);
        assert(only.filter(|e: Effect| e == Effect::GainFocus) =~= only);
    }
}

/// Fewer ticks than there are seconds left count the running timer down by
/// that many seconds, change nothing else and complete nothing.
pub proof fn law_countdown(s: TimerState, n: nat)
    requires
        !s.paused,
        n < s.remaining,
    ensures
        after_ticks(s, n) == (TimerState { remaining: (s.remaining - n) as nat, ..s }),
        completions(s, n) == 0,
    decreases n,
{
    if n > 0 {
        let t = s.step(Message::Tick);
        law_tick_counts_down(s);
        law_countdown(t, (n - 1) as nat);
    }
}

/// As many ticks as there are seconds left take the running timer to zero
/// and complete the phase exactly once.
pub proof fn law_expiry_once(s: TimerState)
    requires
        !s.paused,
        s.remaining >= 1,
    ensures
        after_ticks(s, s.remaining) == (TimerState { remaining: 0, ..s }).complete(),
        completions(s, s.remaining) == 1,
    decreases s.remaining,
{
    let t = s.step(Message::Tick);
    if s.remaining == 1 {
        assert(after_ticks(t, 0) == t);
        assert(completions(t, 0) == 0);
    } else {
        law_tick_counts_down(s);
        law_expiry_once(t);
    }
}

/// On a plain timer, ticks that follow the one that completed the phase
/// complete nothing more: the timer has stopped.
pub proof fn law_no_second_completion(s: TimerState, more: nat)
    requires
        s.policy == Policy::StopAndReset,
        !s.paused,
        s.remaining >= 1,
    ensures
        completions(s, s.remaining + more) == 1,
        after_ticks(s, s.remaining + more) == (TimerState { remaining: 0, ..s }).stop(),
    decreases s.remaining,
{
    let t = s.step(Message::Tick);
    if s.remaining == 1 {
        law_ticks_while_paused(t, more);
    } else {
        law_tick_counts_down(s);
        law_no_second_completion(t, more);
    }
}

/// Stopping winds the time back to the configured duration and halts the
/// clock, whatever the state was, and changes nothing else.
pub proof fn law_stop(s: TimerState)
    ensures
        s.step(Message::Stop).remaining == s.configured_duration,
        s.step(Message::Stop).paused,
        s.step(Message::Stop) == (TimerState {
            remaining: s.configured_duration,
            paused: true,
            ..s
        }),
        s.effects(Message::Stop) == Seq::<Effect>::empty(),
{
}

/// With a break cycle, the expiry of a work session begins a break, moves
/// the position in the round on by one, and picks the long break when the
/// position comes back to zero and the short break otherwise. The clock
/// keeps running.
pub proof fn law_work_expiry_begins_break(s: TimerState)
    requires
        s.wf(),
        s.policy == Policy::BreakCycle,
        !s.in_break,
        !s.paused,
        s.remaining == 1,
    ensures
        s.step(Message::Tick).in_break,
        !s.step(Message::Tick).paused,
        s.step(Message::Tick).break_cycle_index == (s.break_cycle_index + 1) % 4,
        s.step(Message::Tick).configured_duration == (if s.break_cycle_index == 3 {
            LONG_BREAK_SECONDS
        } else {
            SHORT_BREAK_SECONDS
        }),
        s.step(Message::Tick).remaining == s.step(Message::Tick).configured_duration,
{
}

/// With a break cycle, the expiry of a break begins a work session of the
/// default length and leaves the position in the round alone.
pub proof fn law_break_expiry_begins_work(s: TimerState)
    requires
        s.policy == Policy::BreakCycle,
        s.in_break,
        !s.paused,
        s.remaining == 1,
    ensures
        !s.step(Message::Tick).in_break,
        s.step(Message::Tick).break_cycle_index == s.break_cycle_index,
        s.step(Message::Tick).configured_duration == WORK_SECONDS,
        s.step(Message::Tick).remaining == WORK_SECONDS,
{
}

/// The state after a whole phase has run down: as many ticks as there are
/// seconds left.
pub open spec fn after_phase(s: TimerState) -> TimerState {
    after_ticks(s, s.remaining)
}

/// From the start of a round, four work sessions that run down, with the
/// breaks between them run down too, take the position in the round through
/// one, two, three and zero; the first three begin a short break and the
/// fourth begins the long one.
pub proof fn law_break_rotation(s: TimerState)
    requires
        s.policy == Policy::BreakCycle,
        !s.in_break,
        !s.paused,
        s.break_cycle_index == 0,
        s.remaining >= 1,
    ensures
        ({
            let b1 = after_phase(s);
            let b2 = after_phase(after_phase(b1));
            let b3 = after_phase(after_phase(b2));
            let b4 = after_phase(after_phase(b3));
            &&& b1.in_break && b1.break_cycle_index == 1 && b1.configured_duration
                == SHORT_BREAK_SECONDS
            &&& b2.in_break && b2.break_cycle_index == 2 && b2.configured_duration
                == SHORT_BREAK_SECONDS
            &&& b3.in_break && b3.break_cycle_index == 3 && b3.configured_duration
                == SHORT_BREAK_SECONDS
            &&& b4.in_break && b4.break_cycle_index == 0 && b4.configured_duration
                == LONG_BREAK_SECONDS
        }),
{
    let b1 = after_phase(s);
    law_expiry_once(s);
    let w2 = after_phase(b1);
    law_expiry_once(b1);
    let b2 = after_phase(w2);
    law_expiry_once(w2);
    let w3 = after_phase(b2);
    law_expiry_once(b2);
    let b3 = after_phase(w3);
    law_expiry_once(w3);
    let w4 = after_phase(b3);
    law_expiry_once(b3);
    law_expiry_once(w4);
}

/// Every event takes a state in which the time left is within the
/// configured duration and the position is within the round to another
/// such state.
pub proof fn law_step_preserves_wf(s: TimerState, message: Message)
    requires
        s.wf(),
    ensures
        s.step(message).wf(),
{
}

/// The constructors' states are well formed.
pub proof fn law_initial_wf(duration: nat, policy: Policy)
    ensures
        TimerState::initial(duration, policy).wf(),
{
}

/// The position in the round moves only when a break begins: by the tick
/// that runs a work session down, or by the event that changes between work
/// and break. No other event moves it, stopping least of all, and on a
/// plain timer nothing does.
pub proof fn law_break_index_moves_only_into_break(s: TimerState, message: Message)
    ensures
        s.step(message).break_cycle_index != s.break_cycle_index ==> {
            &&& s.policy == Policy::BreakCycle
            &&& !s.in_break
            &&& s.step(message).in_break
            &&& message == Message::ToggleBreak || (message == Message::Tick
                && s.expires_on_tick())
        },
{
}

/// The completion policy never changes.
pub proof fn law_policy_is_fixed(s: TimerState, message: Message)
    ensures
        s.step(message).policy == s.policy,
{
}

} // verus!
