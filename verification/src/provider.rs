//! Lifecycle of the language provider: the start/refresh/stop decisions, the
//! dispatch decision the hidden window's callback takes for each delivered
//! message, and the rule that stops all output once the provider stops.
//!
//! The blocking message loop itself is a thread-affine construct of the
//! operating system; the provider here holds the decisions of that loop and
//! of the host-facing lifecycle, each as a function from state and event to
//! next state and action. The surrounding program performs the actions —
//! spawning the loop, making the window, sending on the channel — and hands
//! the outcomes back as events.

use vstd::prelude::*;

use crate::locale::Language;
use crate::locale::LocaleName;
use crate::locale::loword;
use crate::locale::loword_spec;

verus! {

/// The message number the operating system delivers to a window when the
/// active input locale changes.
pub const WM_INPUTLANGCHANGE: u32 = 0x0051;

/// Identity of the provider's configuration as the host hands it over.
/// Parsing configuration is the host's concern; the provider only keeps it.
#[derive(PartialEq, Eq, Structural, Clone, Copy, Debug)]
pub struct LanguageProviderConfig {}

impl LanguageProviderConfig {
    pub fn new() -> LanguageProviderConfig {
        LanguageProviderConfig {}
    }
}

/// Why a start failed. A failed start is terminal for that attempt: the
/// provider is left idle and the error is surfaced to the host.
#[derive(PartialEq, Eq, Structural, Clone, Copy, Debug)]
pub enum StartError {
    /// The host asked to start a provider whose loop is already active.
    AlreadyRunning,
    /// Registration or instantiation of the hidden window was rejected.
    WindowCreation,
    /// Raw-input registration failed after the window was created.
    DeviceRegistration,
}

/// The action the window's dispatch callback takes for one delivered
/// message.
#[derive(PartialEq, Eq, Structural, Clone, Copy, Debug)]
pub enum MessageAction {
    /// The message announces an input-locale change; resolve the carried
    /// language identifier and publish the outcome.
    ResolveLocale(u32),
    /// Any other message: no resolution, no failure; hand the message to the
    /// default dispatch and keep the loop responsive.
    PassThrough,
}

/// The decision the dispatch callback takes for one message: only an
/// input-locale-change message carries logic, and it carries the language
/// identifier in the low word of `lparam`; every other message falls
/// through.
pub fn dispatch_message(msg: u32, lparam: isize) -> (a: MessageAction)
    ensures
        msg == WM_INPUTLANGCHANGE ==> a == MessageAction::ResolveLocale(loword_spec(lparam)),
        msg != WM_INPUTLANGCHANGE ==> a == MessageAction::PassThrough,
{
    if msg == WM_INPUTLANGCHANGE {
        MessageAction::ResolveLocale(loword(lparam))
    } else {
        MessageAction::PassThrough
    }
}

/// The creation check of the hidden message window: the operating system
/// signals rejection with a null handle, and any other value is the usable
/// handle of the created window.
pub fn check_window_handle(handle: isize) -> (r: Result<isize, StartError>)
    ensures
        handle == 0 ==> r == Err::<isize, StartError>(StartError::WindowCreation),
        handle != 0 ==> r == Ok::<isize, StartError>(handle),
{
    if handle == 0 {
        Err(StartError::WindowCreation)
    } else {
        Ok(handle)
    }
}

/// The terminal report of one spawned loop task: why the loop ended, or
/// failed to begin.
#[derive(PartialEq, Eq, Structural, Clone, Copy, Debug)]
pub enum LoopEvent {
    /// The hidden window could not be made; the loop never began.
    WindowCreationFailed,
    /// The window was made, but raw-input registration failed; the window
    /// was torn down and the loop never began.
    DeviceRegistrationFailed,
    /// The loop consumed messages until the quit signal and exited.
    LoopExited,
}

/// The provider itself. `running` stands for the held cancellation handle:
/// it is true exactly while a loop task is active, so at most one loop task
/// is active per provider at any time. `emitted` records every locale name
/// handed outward on the host's channel.
pub struct LanguageProvider {
    pub config: LanguageProviderConfig,
    state: Language,
    running: bool,
    emitted: Ghost<Seq<Seq<char>>>,
}

impl LanguageProvider {
    /// A loop task is active: a cancellation handle is held.
    pub closed spec fn is_running(&self) -> bool {
        self.running
    }

    /// No loop task is active.
    pub open spec fn is_idle(&self) -> bool {
        !self.is_running()
    }

    /// Every locale name published on the output channel so far, oldest
    /// first.
    pub closed spec fn emitted(&self) -> Seq<Seq<char>> {
        self.emitted@
    }

    /// The configuration the provider keeps.
    pub closed spec fn config_spec(&self) -> LanguageProviderConfig {
        self.config
    }

    /// The decision `on_start` takes, from the provider's state alone: a
    /// start is rejected exactly while a loop task is active.
    pub open spec fn start_decision(&self) -> Result<(), StartError> {
        if self.is_running() {
            Err(StartError::AlreadyRunning)
        } else {
            Ok(())
        }
    }

    /// Whether a publish in this state puts a record on the channel: only
    /// while a loop task is active.
    pub open spec fn emits_output(&self) -> bool {
        self.is_running()
    }

    /// A fresh provider: idle, nothing emitted.
    pub fn new(config: LanguageProviderConfig) -> (p: LanguageProvider)
        ensures
            p.is_idle(),
            p.emitted() == Seq::<Seq<char>>::empty(),
            p.config_spec() == config,
    {
        LanguageProvider {
            config,
            state: Language::new(),
            running: false,
            emitted: Ghost(Seq::empty()),
        }
    }

    /// The provider's resolver.
    pub fn language(&self) -> &Language {
        &self.state
    }

    /// The start decision. Starting twice without an intervening stop is a
    /// logic error in the host and is rejected, leaving the provider
    /// untouched; starting an idle provider succeeds and marks a fresh loop
    /// task active — the caller must then spawn the loop on an execution
    /// context set aside for blocking work and report its end through
    /// `on_loop_event`.
    pub fn on_start(&mut self) -> (r: Result<(), StartError>)
        ensures
            r == old(self).start_decision(),
            old(self).is_running() ==> *final(self) == *old(self),
            old(self).is_idle() ==> final(self).is_running(),
            final(self).emitted() == old(self).emitted(),
            final(self).config_spec() == old(self).config_spec(),
    {
        if self.running {
            Err(StartError::AlreadyRunning)
        } else {
            self.running = true;
            Ok(())
        }
    }

    /// The loop task's terminal report. Whatever ended the loop, the
    /// provider is idle afterwards; a setup failure is surfaced as the start
    /// error the host sees, and an orderly exit is no error. Nothing is
    /// emitted on the way out.
    pub fn on_loop_event(&mut self, ev: LoopEvent) -> (r: Result<(), StartError>)
        ensures
            final(self).is_idle(),
            final(self).emitted() == old(self).emitted(),
            final(self).config_spec() == old(self).config_spec(),
            ev == LoopEvent::WindowCreationFailed ==> r == Err::<(), StartError>(
                StartError::WindowCreation,
            ),
            ev == LoopEvent::DeviceRegistrationFailed ==> r == Err::<(), StartError>(
                StartError::DeviceRegistration,
            ),
            ev == LoopEvent::LoopExited ==> r == Ok::<(), StartError>(()),
    {
        self.running = false;
        match ev {
            LoopEvent::WindowCreationFailed => Err(StartError::WindowCreation),
            LoopEvent::DeviceRegistrationFailed => Err(StartError::DeviceRegistration),
            LoopEvent::LoopExited => Ok(()),
        }
    }

    /// Hands one resolved locale name outward. Output is emitted only while
    /// the provider is running: a publish that completes after a stop emits
    /// nothing, so at most the one record in flight at the moment of
    /// cancellation is dropped and none is emitted strictly after the stop.
    pub fn publish(&mut self, name: &LocaleName) -> (out: Option<String>)
        ensures
            final(self).is_running() == old(self).is_running(),
            final(self).config_spec() == old(self).config_spec(),
            out is Some <==> old(self).emits_output(),
            old(self).is_running() ==> (out matches Some(s) && s@ == name@)
                && final(self).emitted() == old(self).emitted().push(name@),
            old(self).is_idle() ==> out is None && final(self).emitted() == old(self).emitted(),
    {
        if self.running {
            let text = name.text();
            proof {
                self.emitted@ = self.emitted@.push(name@);
            }
            Some(text)
        } else {
            None
        }
    }

    /// One delivered notification, end to end: the dispatch decision for
    /// `msg` and `lparam`, and — for an input-locale-change message — the
    /// resolution of the lookup outcome the operating system produced for
    /// the identifier the dispatch names, published outward. `result` and
    /// `units` are that outcome, exactly as `Language::resolve` reads them.
    /// Returns the record put on the channel: the resolution and the
    /// publish for this notification complete before the next one is
    /// dispatched, so records appear on the channel in notification order.
    pub fn handle_notification(
        &mut self,
        msg: u32,
        lparam: isize,
        result: i32,
        units: &Vec<u16>,
    ) -> (out: Option<String>)
        requires
            units@.len() <= crate::locale::LOCALE_NAME_MAX_LENGTH,
        ensures
            final(self).is_running() == old(self).is_running(),
            final(self).config_spec() == old(self).config_spec(),
            msg != WM_INPUTLANGCHANGE ==> out is None && *final(self) == *old(self),
            out is Some <==> msg == WM_INPUTLANGCHANGE && old(self).emits_output(),
            msg == WM_INPUTLANGCHANGE && old(self).is_running() ==> (out matches Some(s)
                && s@ == Language::resolved_spec(result, units@)) && final(self).emitted()
                == old(self).emitted().push(Language::resolved_spec(result, units@)),
            msg == WM_INPUTLANGCHANGE && old(self).is_idle() ==> out is None
                && final(self).emitted() == old(self).emitted(),
    {
        match dispatch_message(msg, lparam) {
            MessageAction::ResolveLocale(_lang_id) => {
                let name = self.state.resolve(result, units);
                self.publish(&name)
            },
            MessageAction::PassThrough => None,
        }
    }

    /// Refresh is a no-op: the provider is purely event-driven, so no new
    /// value is computed on demand, nothing is emitted, no error is raised,
    /// and the provider is left exactly as it was — whether idle or running.
    pub fn on_refresh(&mut self) -> (out: Option<String>)
        ensures
            out is None,
            *final(self) == *old(self),
    {
        None
    }

    /// The stop decision: the provider is idle afterwards, and nothing is
    /// emitted by stopping. The result says whether a loop task was active —
    /// in which case the caller must signal cancellation: post the quit
    /// signal to the window and release the held handle. Stopping an idle
    /// provider is a no-op.
    pub fn on_stop(&mut self) -> (abort: bool)
        ensures
            final(self).is_idle(),
            final(self).emitted() == old(self).emitted(),
            final(self).config_spec() == old(self).config_spec(),
            abort == old(self).is_running(),
    {
        let was_running = self.running;
        self.running = false;
        was_running
    }

    /// This provider is exempt from interval-based output caching: it has no
    /// periodic refresh, so there is no minimum interval (in milliseconds)
    /// between refreshes.
    pub fn min_refresh_interval(&self) -> (r: Option<u64>)
        ensures
            r is None,
    {
        None
    }
}

/// Law: the start decision rejects exactly a provider whose loop task is
/// active. A second start without an intervening stop is therefore
/// rejected; and since every stop leaves the provider idle, a start after a
/// stop is accepted and marks a fresh loop task.
pub proof fn lemma_start_policy(p: LanguageProvider)
    ensures
        p.is_running() ==> p.start_decision() == Err::<(), StartError>(StartError::AlreadyRunning),
        p.is_idle() ==> p.start_decision() == Ok::<(), StartError>(()),
{
}

/// Law: in the idle state every stop leaves the provider in, no output is
/// emitted: any publish completed after the stop returns no record. At most
/// the one record in flight at the moment of cancellation is dropped; none
/// is emitted strictly after the stop.
pub proof fn lemma_no_output_after_stop(p: LanguageProvider)
    requires
        p.is_idle(),
    ensures
        !p.emits_output(),
{
}

} // verus!
