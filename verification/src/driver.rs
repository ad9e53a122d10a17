//! The device session: which command goes to the panel, and what follows a
//! failure.

use crate::frame::{Color, Frame};
use crate::queue::CommandQueue;
use vstd::prelude::*;

verus! {

/// The brightest level the panel takes.
pub const MAX_BRIGHTNESS: u8 = 100;

/// The level the shared brightness starts at.
pub const DEFAULT_BRIGHTNESS: u8 = 30;

/// Whether the panel shows frames.
#[derive(Clone, Copy, Debug, PartialEq, Eq, Structural)]
pub enum PanelPowerState {
    On,
    Off,
}

/// Where a session with the device stands.
#[derive(Clone, Copy, Debug, PartialEq, Eq, Structural)]
pub enum SessionState {
    /// No session; the next one has not been started.
    Disconnected,
    /// A connection attempt is under way.
    Connecting,
    /// The device is connected and takes commands.
    Ready(PanelPowerState),
}

/// An intent for the device.
pub enum DeviceCommand {
    /// Show this frame.
    Frame(Frame),
    /// Show frames again.
    PowerOn,
    /// Switch the light off and show no frames.
    PowerOff,
    /// Change the brightness by this many levels.
    BrightnessDelta(i8),
    /// Set the brightness to this level.
    BrightnessSet(u8),
}

/// What came back from the outside since the last step.
pub enum DeviceEvent {
    /// The supervisor starts a session.
    Start,
    /// The connection attempt succeeded.
    Connected,
    /// The last call to the device succeeded.
    Done,
    /// The last call to the device, a connection attempt included, failed.
    Failed,
    /// The poll interval passed; at most one command was taken from the queue.
    Polled(Option<DeviceCommand>),
}

/// The call to make to the device next.
pub enum DeviceAction {
    /// Nothing to send.
    Idle,
    /// Open a connection.
    Connect,
    /// Send this brightness level.
    SetBrightness(u8),
    /// Send this frame.
    SendImage(Frame),
    /// Switch to the plain light mode with the light off.
    LightOff { color: Color, brightness: u8 },
}

/// The outcome of one step of the session.
pub struct Step {
    /// The state after the step.
    pub state: SessionState,
    /// The shared brightness after the step.
    pub brightness: u8,
    /// The call to make next.
    pub action: DeviceAction,
    /// The step ended a session, or a connection attempt, on a failure.
    pub failure: bool,
}

/// The colour sent along when the light is switched off.
pub open spec fn light_off_color() -> Color {
    (255u8, 0u8, 255u8)
}

/// A brightness level brought into the device's range, 0 to 100.
pub open spec fn clamp_brightness(level: int) -> u8 {
    if level < 0 {
        0u8
    } else if level > MAX_BRIGHTNESS {
        MAX_BRIGHTNESS
    } else {
        level as u8
    }
}

/// The step a ready session takes for one command.
///
/// A frame is sent while the panel is on and dropped while it is off. Power
/// commands switch the panel; switching off sends the light-off mode. The
/// brightness commands set the shared brightness, within the device's range,
/// and send it, whatever the power state.
pub open spec fn apply_command(power: PanelPowerState, brightness: u8, command: DeviceCommand) -> Step {
    match command {
        DeviceCommand::Frame(frame) => Step {
            state: SessionState::Ready(power),
            brightness,
            action: if power == PanelPowerState::On {
                DeviceAction::SendImage(frame)
            } else {
                DeviceAction::Idle
            },
            failure: false,
        },
        DeviceCommand::PowerOn => Step {
            state: SessionState::Ready(PanelPowerState::On),
            brightness,
            action: DeviceAction::Idle,
            failure: false,
        },
        DeviceCommand::PowerOff => Step {
            state: SessionState::Ready(PanelPowerState::Off),
            brightness,
            action: DeviceAction::LightOff {
                color: light_off_color(),
                brightness: clamp_brightness(brightness as int),
            },
            failure: false,
        },
        DeviceCommand::BrightnessDelta(delta) => Step {
            state: SessionState::Ready(power),
            brightness: clamp_brightness(brightness + delta),
            action: DeviceAction::SetBrightness(clamp_brightness(brightness + delta)),
            failure: false,
        },
        DeviceCommand::BrightnessSet(level) => Step {
            state: SessionState::Ready(power),
            brightness: clamp_brightness(level as int),
            action: DeviceAction::SetBrightness(clamp_brightness(level as int)),
            failure: false,
        },
    }
}

/// A step that changes nothing and sends nothing.
pub open spec fn stay(state: SessionState, brightness: u8) -> Step {
    Step { state, brightness, action: DeviceAction::Idle, failure: false }
}

/// The step of the session for one event.
///
/// A start leads from `Disconnected` to a connection attempt. A connection
/// made leads to `Ready` with the panel on, and the shared brightness is
/// sent. A failure while connecting or ready ends the session in
/// `Disconnected`. A ready session applies the command of a poll, if there
/// was one. Any other event leaves everything as it is.
pub open spec fn transition(state: SessionState, brightness: u8, event: DeviceEvent) -> Step {
    match (state, event) {
        (SessionState::Disconnected, DeviceEvent::Start) => Step {
            state: SessionState::Connecting,
            brightness,
            action: DeviceAction::Connect,
            failure: false,
        },
        (SessionState::Connecting, DeviceEvent::Connected) => Step {
            state: SessionState::Ready(PanelPowerState::On),
            brightness,
            action: DeviceAction::SetBrightness(clamp_brightness(brightness as int)),
            failure: false,
        },
        (SessionState::Connecting, DeviceEvent::Failed) => Step {
            state: SessionState::Disconnected,
            brightness,
            action: DeviceAction::Idle,
            failure: true,
        },
        (SessionState::Ready(_), DeviceEvent::Failed) => Step {
            state: SessionState::Disconnected,
            brightness,
            action: DeviceAction::Idle,
            failure: true,
        },
        (SessionState::Ready(power), DeviceEvent::Polled(Some(command))) => apply_command(
            power,
            brightness,
            command,
        ),
        _ => stay(state, brightness),
    }
}

/// Brings a brightness level into the device's range.
pub fn saturate_brightness(level: i16) -> (clamped: u8)
    ensures
        clamped == clamp_brightness(level as int),
        clamped <= MAX_BRIGHTNESS,
{
    if level < 0 {
        0
    } else if level > MAX_BRIGHTNESS as i16 {
        MAX_BRIGHTNESS
    } else {
        level as u8
    }
}

/// Applies one command in a ready session.
pub fn apply(power: PanelPowerState, brightness: u8, command: DeviceCommand) -> (step: Step)
    ensures
        step == apply_command(power, brightness, command),
{
    match command {
        DeviceCommand::Frame(frame) => {
            let action = match power {
                PanelPowerState::On => DeviceAction::SendImage(frame),
                PanelPowerState::Off => DeviceAction::Idle,
            };
            Step { state: SessionState::Ready(power), brightness, action, failure: false }
        },
        DeviceCommand::PowerOn => Step {
            state: SessionState::Ready(PanelPowerState::On),
            brightness,
            action: DeviceAction::Idle,
            failure: false,
        },
        DeviceCommand::PowerOff => Step {
            state: SessionState::Ready(PanelPowerState::Off),
            brightness,
            action: DeviceAction::LightOff {
                color: (255, 0, 255),
                brightness: saturate_brightness(brightness as i16),
            },
            failure: false,
        },
        DeviceCommand::BrightnessDelta(delta) => {
            let level = saturate_brightness(brightness as i16 + delta as i16);
            Step {
                state: SessionState::Ready(power),
                brightness: level,
                action: DeviceAction::SetBrightness(level),
                failure: false,
            }
        },
        DeviceCommand::BrightnessSet(level) => {
            let level = saturate_brightness(level as i16);
            Step {
                state: SessionState::Ready(power),
                brightness: level,
                action: DeviceAction::SetBrightness(level),
                failure: false,
            }
        },
    }
}

/// The supervisor's view of the device: the session state and the number of
/// failures so far.
pub struct DeviceDriver {
    state: SessionState,
    failures: u64,
}

impl DeviceDriver {
    /// Where the session stands.
    pub closed spec fn state_spec(&self) -> SessionState {
        self.state
    }

    /// The number of failures so far; it stops counting at `u64::MAX`.
    pub closed spec fn failures_spec(&self) -> u64 {
        self.failures
    }

    /// A driver without a session and without failures.
    pub fn new() -> (driver: DeviceDriver)
        ensures
            driver.state_spec() == SessionState::Disconnected,
            driver.failures_spec() == 0,
    {
        DeviceDriver { state: SessionState::Disconnected, failures: 0 }
    }

    /// Where the session stands.
    pub fn state(&self) -> (state: SessionState)
        ensures
            state == self.state_spec(),
    {
        self.state
    }

    /// The number of failures so far.
    pub fn failures(&self) -> (failures: u64)
        ensures
            failures == self.failures_spec(),
    {
        self.failures
    }

    /// Takes one event, with the shared brightness as it stands, and says
    /// what to do next. The caller stores the brightness of the step, makes
    /// the call of its action, and hands back what came of it.
    pub fn step(&mut self, event: DeviceEvent, brightness: u8) -> (step: Step)
        ensures
            step == transition(old(self).state_spec(), brightness, event),
            final(self).state_spec() == step.state,
            final(self).failures_spec() == if step.failure && old(self).failures_spec()
                < u64::MAX {
                (old(self).failures_spec() + 1) as u64
            } else {
                old(self).failures_spec()
            },
    {
        let step = match (self.state, event) {
            (SessionState::Disconnected, DeviceEvent::Start) => Step {
                state: SessionState::Connecting,
                brightness,
                action: DeviceAction::Connect,
                failure: false,
            },
            (SessionState::Connecting, DeviceEvent::Connected) => Step {
                state: SessionState::Ready(PanelPowerState::On),
                brightness,
                action: DeviceAction::SetBrightness(saturate_brightness(brightness as i16)),
                failure: false,
            },
            (SessionState::Connecting, DeviceEvent::Failed) => Step {
                state: SessionState::Disconnected,
                brightness,
                action: DeviceAction::Idle,
                failure: true,
            },
            (SessionState::Ready(_), DeviceEvent::Failed) => Step {
                state: SessionState::Disconnected,
                brightness,
                action: DeviceAction::Idle,
                failure: true,
            },
            (SessionState::Ready(power), DeviceEvent::Polled(Some(command))) => apply(
                power,
                brightness,
                command,
            ),
            (state, _) => Step { state, brightness, action: DeviceAction::Idle, failure: false },
        };
        self.state = step.state;
        if step.failure && self.failures < u64::MAX {
            self.failures = self.failures + 1;
        }
        step
    }

    /// What the device loop does when no call is outstanding. Without a
    /// session it starts one at once. A ready session takes at most one
    /// command from the queue and applies it. While a connection attempt is
    /// under way nothing happens, and the queue is left alone.
    pub fn poll(&mut self, queue: &mut CommandQueue, brightness: u8) -> (step: Step)
        ensures
            step == transition(
                old(self).state_spec(),
                brightness,
                poll_event(old(self).state_spec(), old(queue)@),
            ),
            final(queue)@ == if old(self).state_spec() is Ready {
                crate::queue::popped(old(queue)@)
            } else {
                old(queue)@
            },
            final(self).state_spec() == step.state,
            final(self).failures_spec() == old(self).failures_spec(),
    {
        match self.state {
            SessionState::Disconnected => self.step(DeviceEvent::Start, brightness),
            SessionState::Connecting => self.step(DeviceEvent::Polled(None), brightness),
            SessionState::Ready(_) => {
                let command = queue.pop();
                self.step(DeviceEvent::Polled(command), brightness)
            },
        }
    }
}

/// The event the device loop hands in when no call is outstanding: a start
/// where there is no session, the command waiting in the queue where the
/// session is ready, and nothing while a connection attempt is under way.
pub open spec fn poll_event(state: SessionState, pending: Option<DeviceCommand>) -> DeviceEvent {
    match state {
        SessionState::Disconnected => DeviceEvent::Start,
        SessionState::Connecting => DeviceEvent::Polled(None),
        SessionState::Ready(_) => DeviceEvent::Polled(pending),
    }
}

/// Where a session stands after a run of commands, each applied in turn.
pub open spec fn power_after(
    power: PanelPowerState,
    brightness: u8,
    commands: Seq<DeviceCommand>,
) -> SessionState
    decreases commands.len(),
{
    if commands.len() == 0 {
        SessionState::Ready(power)
    } else {
        let step = apply_command(power, brightness, commands[0]);
        match step.state {
            SessionState::Ready(next) => power_after(next, step.brightness, commands.drop_first()),
            other => other,
        }
    }
}

/// The calls a ready session makes for a run of commands, one per command.
pub open spec fn actions_of(
    power: PanelPowerState,
    brightness: u8,
    commands: Seq<DeviceCommand>,
) -> Seq<DeviceAction>
    decreases commands.len(),
{
    if commands.len() == 0 {
        Seq::empty()
    } else {
        let step = apply_command(power, brightness, commands[0]);
        let next = match step.state {
            SessionState::Ready(next) => next,
            _ => power,
        };
        seq![step.action] + actions_of(next, step.brightness, commands.drop_first())
    }
}

/// While the panel is off, no frame is sent before a `PowerOn` is applied:
/// a run of commands without one sends no image and leaves the panel off.
pub proof fn lemma_off_sends_no_frame(brightness: u8, commands: Seq<DeviceCommand>)
    requires
        forall|i: int| 0 <= i < commands.len() ==> !(commands[i] is PowerOn),
    ensures
        power_after(PanelPowerState::Off, brightness, commands) == SessionState::Ready(
            PanelPowerState::Off,
        ),
        actions_of(PanelPowerState::Off, brightness, commands).len() == commands.len(),
        forall|i: int|
            0 <= i < commands.len() ==> !(#[trigger] actions_of(
                PanelPowerState::Off,
                brightness,
                commands,
            )[i] is SendImage),
    decreases commands.len(),
{
    if commands.len() > 0 {
        let step = apply_command(PanelPowerState::Off, brightness, commands[0]);
        let rest = commands.drop_first();
        lemma_off_sends_no_frame(step.brightness, rest);
    }
}

/// Of two frames pushed before a poll, a ready session with the panel on
/// sends the second and never the first.
pub proof fn lemma_second_frame_is_sent(
    pending: Option<DeviceCommand>,
    brightness: u8,
    first: Frame,
    second: Frame,
)
    ensures
        transition(
            SessionState::Ready(PanelPowerState::On),
            brightness,
            DeviceEvent::Polled(
                crate::queue::pushed(
                    crate::queue::pushed(pending, DeviceCommand::Frame(first)),
                    DeviceCommand::Frame(second),
                ),
            ),
        ).action == DeviceAction::SendImage(second),
        crate::queue::popped(
            crate::queue::pushed(
                crate::queue::pushed(pending, DeviceCommand::Frame(first)),
                DeviceCommand::Frame(second),
            ),
        ) is None,
{
}

/// The shared brightness after the same change was applied `times` times.
pub open spec fn brightness_after(brightness: u8, delta: i8, times: nat) -> u8
    decreases times,
{
    if times == 0 {
        brightness
    } else {
        apply_command(
            PanelPowerState::On,
            brightness_after(brightness, delta, (times - 1) as nat),
            DeviceCommand::BrightnessDelta(delta),
        ).brightness
    }
}

/// Repeated changes of the brightness stop at the ends of the device's range
/// and never wrap around: from a level within the range, `times` changes by
/// `delta` give the level that many steps away, or the end of the range where
/// that lies beyond it.
pub proof fn lemma_brightness_saturates(brightness: u8, delta: i8, times: nat)
    requires
        brightness <= MAX_BRIGHTNESS,
    ensures
        brightness_after(brightness, delta, times) == clamp_brightness(brightness + times * delta),
        brightness_after(brightness, delta, times) <= MAX_BRIGHTNESS,
    decreases times,
{
    if times == 0 {
        assert(times * delta == 0) by (nonlinear_arith)
            requires
                times == 0,
        ;
    } else {
        lemma_brightness_saturates(brightness, delta, (times - 1) as nat);
        assert(times * delta == (times - 1) * delta + delta) by (nonlinear_arith);
        if delta >= 0 {
            assert((times - 1) * delta >= 0) by (nonlinear_arith)
                requires
                    times >= 1,
                    delta >= 0,
            ;
        } else {
            assert((times - 1) * delta <= 0) by (nonlinear_arith)
                requires
                    times >= 1,
                    delta < 0,
            ;
        }
    }
}

/// What a run of events leaves behind.
pub struct Course {
    /// The state after the last event.
    pub state: SessionState,
    /// The shared brightness after the last event.
    pub brightness: u8,
    /// The number of steps that ended on a failure.
    pub failures: nat,
}

/// The course of a session over a run of events, each taken in turn.
pub open spec fn course(state: SessionState, brightness: u8, events: Seq<DeviceEvent>) -> Course
    decreases events.len(),
{
    if events.len() == 0 {
        Course { state, brightness, failures: 0 }
    } else {
        let step = transition(state, brightness, events[0]);
        let rest = course(step.state, step.brightness, events.drop_first());
        Course {
            state: rest.state,
            brightness: rest.brightness,
            failures: if step.failure {
                rest.failures + 1
            } else {
                rest.failures
            },
        }
    }
}

/// `attempts` connection attempts that all fail: a start and a failure each.
pub open spec fn failed_attempts(attempts: nat) -> Seq<DeviceEvent>
    decreases attempts,
{
    if attempts == 0 {
        Seq::empty()
    } else {
        seq![DeviceEvent::Start, DeviceEvent::Failed] + failed_attempts((attempts - 1) as nat)
    }
}

/// Only a brightness command changes the shared brightness.
pub proof fn lemma_brightness_survives(state: SessionState, brightness: u8, event: DeviceEvent)
    requires
        !(event matches DeviceEvent::Polled(Some(command)) && (command is BrightnessDelta
            || command is BrightnessSet)),
    ensures
        transition(state, brightness, event).brightness == brightness,
{
}

/// Every session starts with the panel on and sends the shared brightness
/// first.
pub proof fn lemma_session_starts_on(brightness: u8)
    ensures
        transition(SessionState::Connecting, brightness, DeviceEvent::Connected).state
            == SessionState::Ready(PanelPowerState::On),
        transition(SessionState::Connecting, brightness, DeviceEvent::Connected).action
            == DeviceAction::SetBrightness(clamp_brightness(brightness as int)),
{
}

/// After any number of failed connection attempts and one that succeeds, the
/// session is ready with the panel on, each failed attempt was counted once,
/// and the shared brightness is what it was.
pub proof fn lemma_reconnect(brightness: u8, attempts: nat)
    ensures
        course(
            SessionState::Disconnected,
            brightness,
            failed_attempts(attempts) + seq![DeviceEvent::Start, DeviceEvent::Connected],
        ) == (Course {
            state: SessionState::Ready(PanelPowerState::On),
            brightness,
            failures: attempts,
        }),
    decreases attempts,
{
    let success = seq![DeviceEvent::Start, DeviceEvent::Connected];
    if attempts == 0 {
        reveal_with_fuel(course, 3);
    } else {
        let events = failed_attempts(attempts) + success;
        let later = failed_attempts((attempts - 1) as nat) + success;
        assert(events.drop_first().drop_first() =~= later);
        lemma_reconnect(brightness, (attempts - 1) as nat);
        reveal_with_fuel(course, 3);
    }
}

} // verus!
