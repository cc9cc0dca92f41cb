//! The countdown: its state, and the transition that one event causes.
//!
//! The timer counts a dialled duration down to zero, one second for each
//! tick that arrives while it is not paused. The tick that takes it to zero
//! completes the phase, once: the window is asked to the front, the audio
//! cue is asked for, and the completion policy says what comes next. A plain
//! timer stops and winds back. A timer with a break cycle goes from work to
//! a break and from a break to work; every fourth break is a long one.
use crate::messages::{Effect, Message};
use vstd::prelude::*;

verus! {

/// Seconds in a work session of the break cycle.
pub const WORK_SECONDS: u16 = 1500;

/// Seconds in a short break.
pub const SHORT_BREAK_SECONDS: u16 = 300;

/// Seconds in the long break that closes a round.
pub const LONG_BREAK_SECONDS: u16 = 900;

/// Work sessions in one round of the break cycle.
pub const CYCLE_LENGTH: u8 = 4;

/// Minutes on a plain timer that was not told otherwise.
pub const DEFAULT_MINUTES: u16 = 30;

/// What happens when a phase completes.
#[derive(Debug, Clone, Copy, PartialEq, Eq, Structural)]
pub enum Policy {
    /// The timer stops and winds back to the dialled duration.
    StopAndReset,
    /// The timer changes between work and break and keeps running.
    BreakCycle,
}

/// The timer as a mathematical value.
pub struct TimerState {
    /// Seconds dialled in for the current phase.
    pub configured_duration: nat,
    /// Seconds left in the current phase.
    pub remaining: nat,
    /// Whether the clock is halted.
    pub paused: bool,
    /// Whether the current phase is a break.
    pub in_break: bool,
    /// How many breaks of the current round have begun, modulo the round.
    pub break_cycle_index: nat,
    /// What happens when a phase completes.
    pub policy: Policy,
}

impl TimerState {
    /// A halted timer at the start of a work phase of `duration` seconds.
    pub open spec fn initial(duration: nat, policy: Policy) -> TimerState {
        TimerState {
            configured_duration: duration,
            remaining: duration,
            paused: true,
            in_break: false,
            break_cycle_index: 0,
            policy,
        }
    }

    /// What holds of every state that the timer reaches.
    pub open spec fn wf(self) -> bool {
        &&& self.remaining <= self.configured_duration
        &&& self.break_cycle_index < CYCLE_LENGTH
    }

    /// The state with `duration` dialled in and all of it left.
    pub open spec fn set_duration(self, duration: nat) -> TimerState {
        TimerState { configured_duration: duration, remaining: duration, ..self }
    }

    /// The state halted and wound back.
    pub open spec fn stop(self) -> TimerState {
        TimerState { remaining: self.configured_duration, paused: true, ..self }
    }

    /// The position in the round once one more break has begun.
    pub open spec fn next_break_index(self) -> nat {
        (self.break_cycle_index + 1) % (CYCLE_LENGTH as nat)
    }

    /// The length of the break that begins at position `index`.
    pub open spec fn break_seconds(index: nat) -> nat {
        if index == 0 {
            LONG_BREAK_SECONDS as nat
        } else {
            SHORT_BREAK_SECONDS as nat
        }
    }

    /// The state after changing between work and break.
    pub open spec fn toggle_break(self) -> TimerState {
        if self.in_break {
            TimerState { in_break: false, ..self }.set_duration(WORK_SECONDS as nat)
        } else {
            let index = self.next_break_index();
            TimerState { in_break: true, break_cycle_index: index, ..self }.set_duration(
                Self::break_seconds(index),
            )
        }
    }

    /// The state after the phase has completed.
    pub open spec fn complete(self) -> TimerState {
        match self.policy {
            Policy::StopAndReset => self.stop(),
            Policy::BreakCycle => self.toggle_break(),
        }
    }

    /// Whether the next tick takes the timer to zero.
    pub open spec fn expires_on_tick(self) -> bool {
        !self.paused && self.remaining == 1
    }

    /// The state after one tick.
    pub open spec fn tick(self) -> TimerState {
        if self.paused || self.remaining == 0 {
            self
        } else {
            let counted = TimerState { remaining: (self.remaining - 1) as nat, ..self };
            if counted.remaining == 0 {
                counted.complete()
            } else {
                counted
            }
        }
    }

    /// The state after one event.
    pub open spec fn step(self, message: Message) -> TimerState {
        match message {
            Message::SetSeconds(seconds) => self.set_duration(seconds as nat),
            Message::Pause => TimerState { paused: true, ..self },
            Message::Resume => TimerState { paused: false, ..self },
            Message::Stop => self.stop(),
            Message::Tick => self.tick(),
            Message::ToggleBreak => match self.policy {
                Policy::StopAndReset => self,
                Policy::BreakCycle => self.toggle_break(),
            },
            Message::PlayAudio => self,
        }
    }

    /// The effects that one event asks for, in order.
    pub open spec fn effects(self, message: Message) -> Seq<Effect> {
        match message {
            Message::Tick => if self.expires_on_tick() {
                seq![Effect::GainFocus, Effect::PlayAudio]
            } else {
                Seq::empty()
            },
            Message::PlayAudio => seq![Effect::PlayAudio],
            _ => Seq::empty(),
        }
    }

    /// Whether the clock that sends ticks is to run.
    pub open spec fn clock_runs(self) -> bool {
        !self.paused
    }

    /// Whether a countdown has begun and was not wound back.
    pub open spec fn running(self) -> bool {
        self.remaining != self.configured_duration
    }

    /// What the controls offer in this state.
    pub open spec fn controls(self) -> Controls {
        let idle = self.paused && !self.running();
        Controls {
            editable: idle,
            primary: if self.paused {
                Button {
                    label: if self.running() {
                        Label::Resume
                    } else {
                        Label::Start
                    },
                    on_press: Message::Resume,
                }
            } else {
                Button { label: Label::Pause, on_press: Message::Pause }
            },
            secondary: Button {
                label: if idle {
                    Label::Reset
                } else {
                    Label::Stop
                },
                on_press: Message::Stop,
            },
        }
    }
}

/// Whether the clock that sends a tick each second is to run.
#[derive(Debug, Clone, Copy, PartialEq, Eq, Structural)]
pub enum TickSource {
    /// No ticks are to arrive.
    Idle,
    /// A tick is to arrive each second.
    EverySecond,
}

/// The word on a button.
#[derive(Debug, Clone, Copy, PartialEq, Eq, Structural)]
pub enum Label {
    Start,
    Resume,
    Pause,
    Reset,
    Stop,
}

impl Label {
    /// The word as text.
    pub open spec fn caption(self) -> Seq<char> {
        match self {
            Label::Start => "Start"@,
            Label::Resume => "Resume"@,
            Label::Pause => "Pause"@,
            Label::Reset => "Reset"@,
            Label::Stop => "Stop"@,
        }
    }

    /// The word as text.
    pub fn text(self) -> (text: &'static str)
        ensures
            text@ == self.caption(),
    {
        match self {
            Label::Start => "Start",
            Label::Resume => "Resume",
            Label::Pause => "Pause",
            Label::Reset => "Reset",
            Label::Stop => "Stop",
        }
    }
}

/// A button: what it says and what pressing it sends.
#[derive(Debug, Clone, Copy, PartialEq, Eq, Structural)]
pub struct Button {
    pub label: Label,
    pub on_press: Message,
}

/// What the controls offer: whether the duration can be edited, and the
/// two buttons.
#[derive(Debug, Clone, Copy, PartialEq, Eq, Structural)]
pub struct Controls {
    pub editable: bool,
    pub primary: Button,
    pub secondary: Button,
}

/// A Pomodoro timer.
#[derive(Debug, Clone, Copy, PartialEq, Eq)]
pub struct Pomodoro {
    initial_time: u32,
    remaining_time: u32,
    paused: bool,
    in_break: bool,
    break_cycle_index: u8,
    policy: Policy,
}

impl View for Pomodoro {
    type V = TimerState;

    closed spec fn view(&self) -> TimerState {
        TimerState {
            configured_duration: self.initial_time as nat,
            remaining: self.remaining_time as nat,
            paused: self.paused,
            in_break: self.in_break,
            break_cycle_index: self.break_cycle_index as nat,
            policy: self.policy,
        }
    }
}

impl Pomodoro {
    /// Every timer is well formed.
    #[verifier::type_invariant]
    spec fn well_formed(self) -> bool {
        self@.wf()
    }
}

impl Default for Pomodoro {
    /// A plain timer of thirty minutes.
    fn default() -> (timer: Pomodoro)
        ensures
            timer@ == TimerState::initial(DEFAULT_MINUTES as nat * 60, Policy::StopAndReset),
            timer@.wf(),
    {
        Pomodoro::new(DEFAULT_MINUTES, 0)
    }
}

impl Pomodoro {
    /// A plain timer of `minutes` and `seconds`, halted.
    pub fn new(minutes: u16, seconds: u16) -> (timer: Pomodoro)
        ensures
            timer@ == TimerState::initial(
                minutes as nat * 60 + seconds as nat,
                Policy::StopAndReset,
            ),
            timer@.wf(),
    {
        let duration: u32 = minutes as u32 * 60 + seconds as u32;
        Pomodoro {
            initial_time: duration,
            remaining_time: duration,
            paused: true,
            in_break: false,
            break_cycle_index: 0,
            policy: Policy::StopAndReset,
        }
    }

    /// A timer with a break cycle, halted at the start of a work session.
    pub fn with_break_cycle() -> (timer: Pomodoro)
        ensures
            timer@ == TimerState::initial(WORK_SECONDS as nat, Policy::BreakCycle),
            timer@.wf(),
    {
        Pomodoro {
            initial_time: WORK_SECONDS as u32,
            remaining_time: WORK_SECONDS as u32,
            paused: true,
            in_break: false,
            break_cycle_index: 0,
            policy: Policy::BreakCycle,
        }
    }

    /// Seconds dialled in for the current phase.
    pub fn configured_duration(&self) -> (seconds: u32)
        ensures
            seconds == self@.configured_duration,
    {
        self.initial_time
    }

    /// Seconds left in the current phase.
    pub fn remaining(&self) -> (seconds: u32)
        ensures
            seconds == self@.remaining,
            seconds <= self@.configured_duration,
    {
        proof {
            use_type_invariant(self);
        }
        self.remaining_time
    }

    /// Whether the clock is halted.
    pub fn is_paused(&self) -> (paused: bool)
        ensures
            paused == self@.paused,
    {
        self.paused
    }

    /// Whether the current phase is a break.
    pub fn in_break(&self) -> (in_break: bool)
        ensures
            in_break == self@.in_break,
    {
        self.in_break
    }

    /// How many breaks of the current round have begun, modulo the round.
    pub fn break_cycle_index(&self) -> (index: u8)
        ensures
            index == self@.break_cycle_index,
            index < CYCLE_LENGTH,
    {
        proof {
            use_type_invariant(self);
        }
        self.break_cycle_index
    }

    /// What happens when a phase completes.
    pub fn policy(&self) -> (policy: Policy)
        ensures
            policy == self@.policy,
    {
        self.policy
    }

    fn with_duration(self, duration: u32) -> (next: Pomodoro)
        ensures
            next@ == self@.set_duration(duration as nat),
    {
        proof {
            use_type_invariant(&self);
        }
        Pomodoro { initial_time: duration, remaining_time: duration, ..self }
    }

    fn stopped(self) -> (next: Pomodoro)
        ensures
            next@ == self@.stop(),
    {
        proof {
            use_type_invariant(&self);
        }
        Pomodoro { remaining_time: self.initial_time, paused: true, ..self }
    }

    fn toggled(self) -> (next: Pomodoro)
        ensures
            next@ == self@.toggle_break(),
    {
        proof {
            use_type_invariant(&self);
        }
        if self.in_break {
            Pomodoro {
                initial_time: WORK_SECONDS as u32,
                remaining_time: WORK_SECONDS as u32,
                in_break: false,
                ..self
            }
        } else {
            let index: u8 = (self.break_cycle_index + 1) % CYCLE_LENGTH;
            let seconds: u16 = if index == 0 {
                LONG_BREAK_SECONDS
            } else {
                SHORT_BREAK_SECONDS
            };
            Pomodoro {
                initial_time: seconds as u32,
                remaining_time: seconds as u32,
                in_break: true,
                break_cycle_index: index,
                ..self
            }
        }
    }

    fn completed(self) -> (next: Pomodoro)
        ensures
            next@ == self@.complete(),
    {
        match self.policy {
            Policy::StopAndReset => self.stopped(),
            Policy::BreakCycle => self.toggled(),
        }
    }

    fn ticked(self) -> (next: Pomodoro)
        ensures
            next@ == self@.tick(),
    {
        proof {
            use_type_invariant(&self);
        }
        if self.paused || self.remaining_time == 0 {
            self
        } else {
            let counted = Pomodoro { remaining_time: self.remaining_time - 1, ..self };
            if counted.remaining_time == 0 {
                counted.completed()
            } else {
                counted
            }
        }
    }

    /// Handles one event: moves to the next state and returns the effects
    /// that the event asks for, in order.
    pub fn update(&mut self, message: Message) -> (effects: Vec<Effect>)
        ensures
            final(self)@ == old(self)@.step(message),
            effects@ == old(self)@.effects(message),
            final(self)@.wf(),
    {
        proof {
            use_type_invariant(&*self);
        }
        let now: Pomodoro = *self;
        let mut effects: Vec<Effect> = Vec::new();
        let next = match message {
            Message::SetSeconds(seconds) => now.with_duration(seconds as u32),
            Message::Pause => Pomodoro { paused: true, ..now },
            Message::Resume => Pomodoro { paused: false, ..now },
            Message::Stop => now.stopped(),
            Message::Tick => {
                if !now.paused && now.remaining_time == 1 {
                    effects.push(Effect::GainFocus);
                    effects.push(Effect::PlayAudio);
                }
                now.ticked()
            },
            Message::ToggleBreak => match now.policy {
                Policy::StopAndReset => now,
                Policy::BreakCycle => now.toggled(),
            },
            Message::PlayAudio => {
                effects.push(Effect::PlayAudio);
                now
            },
        };
        *self = next;
        effects
    }

    /// Whether the clock that sends ticks is to run: it runs while the
    /// timer is not paused.
    pub fn subscription(&self) -> (source: TickSource)
        ensures
            source == (if self@.clock_runs() {
                TickSource::EverySecond
            } else {
                TickSource::Idle
            }),
    {
        if self.paused {
            TickSource::Idle
        } else {
            TickSource::EverySecond
        }
    }

    /// What the controls offer in this state.
    pub fn controls(&self) -> (controls: Controls)
        ensures
            controls == self@.controls(),
    {
        let running = self.remaining_time != self.initial_time;
        let idle = self.paused && !running;
        let primary = if self.paused {
            Button {
                label: if running {
                    Label::Resume
                } else {
                    Label::Start
                },
                on_press: Message::Resume,
            }
        } else {
            Button { label: Label::Pause, on_press: Message::Pause }
        };
        let secondary = Button {
            label: if idle {
                Label::Reset
            } else {
                Label::Stop
            },
            on_press: Message::Stop,
        };
        Controls { editable: idle, primary, secondary }
    }
}

} // verus!
