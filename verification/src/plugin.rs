//! Plugins: the description a plugin publishes to the host.
use vstd::prelude::*;

pub mod desc;

pub use desc::PluginDescriptor;

verus! {

/// Errors in describing a plugin.
#[derive(Debug, Copy, Clone, PartialEq, Eq, Structural)]
pub enum Error {
    MissingFields,
    /// A description string holds a zero byte, at this position.
    NulError(usize),
}

} // verus!

verus! {

/// What an [`Activation`] holds: whether the plugin counts as active, and the
/// audio thread state, if any.
pub struct ActivationView<T> {
    pub active: bool,
    pub audio_thread: Option<T>,
}

/// The host activates the plugin, whose own activation started `started`
/// (`None` where it failed): the state after, whether activation succeeded,
/// and the audio thread state that was replaced.
///
/// Activation succeeds only where no audio thread state was held and one was
/// started; the new state replaces the old one either way, and only a
/// success makes the plugin active.
pub open spec fn spec_activate<T>(s: ActivationView<T>, started: Option<T>) -> (
    ActivationView<T>,
    bool,
    Option<T>,
) {
    let ok = s.audio_thread is None && started is Some;
    (ActivationView { active: ok || s.active, audio_thread: started }, ok, s.audio_thread)
}

/// The host deactivates the plugin: the state after, and the audio thread
/// state handed back to be torn down.
pub open spec fn spec_deactivate<T>(s: ActivationView<T>) -> (ActivationView<T>, Option<T>) {
    (ActivationView { active: false, audio_thread: None }, s.audio_thread)
}

/// Whether a plugin instance is active, and the audio thread state that
/// activating it produced.
///
/// The host activates a plugin, which may start an audio thread state; it
/// later deactivates it, which hands that state back to be torn down.
pub struct Activation<T> {
    active: bool,
    audio_thread: Option<T>,
}

impl<T> View for Activation<T> {
    type V = ActivationView<T>;

    closed spec fn view(&self) -> ActivationView<T> {
        ActivationView { active: self.active, audio_thread: self.audio_thread }
    }
}

impl<T> Activation<T> {
    /// An inactive plugin, with no audio thread state.
    pub fn new() -> (r: Self)
        ensures
            !r@.active,
            r@.audio_thread is None,
    {
        Activation { active: false, audio_thread: None }
    }

    /// Whether the plugin counts as active.
    pub fn is_active(&self) -> (r: bool)
        ensures
            r == self@.active,
    {
        self.active
    }

    /// Takes the outcome of the plugin's own activation: the audio thread
    /// state it started, or `None` where it failed.
    ///
    /// Returns whether activation succeeded, and the audio thread state that
    /// was replaced; see [`spec_activate`].
    pub fn activate(&mut self, started: Option<T>) -> (r: (bool, Option<T>))
        ensures
            (final(self)@, r.0, r.1) == spec_activate(old(self)@, started),
    {
        let replaced = self.audio_thread.take();
        let ok = replaced.is_none() && started.is_some();
        self.audio_thread = started;
        if ok {
            self.active = true;
        }
        (ok, replaced)
    }

    /// Makes the plugin inactive and hands back the audio thread state, if
    /// one was held, to be torn down.
    pub fn deactivate(&mut self) -> (r: Option<T>)
        ensures
            (final(self)@, r) == spec_deactivate(old(self)@),
    {
        let taken = self.audio_thread.take();
        self.active = false;
        taken
    }

    /// The audio thread state, for the audio thread to work on.
    pub fn audio_thread(&mut self) -> (r: Option<&mut T>)
        ensures
            r is Some <==> old(self)@.audio_thread is Some,
            r matches Some(t) ==> *t == old(self)@.audio_thread.unwrap(),
            final(self)@.active == old(self)@.active,
            r matches Some(t) ==> final(self)@.audio_thread == Some(*final(t)),
            r is None ==> final(self)@.audio_thread is None,
    {
        self.audio_thread.as_mut()
    }
}

/// Activating a plugin that activated successfully, without deactivating it
/// in between, fails whatever the plugin starts, and the plugin stays active.
pub proof fn lemma_second_activation_fails<T>(s: ActivationView<T>, first: T, second: Option<T>)
    requires
        spec_activate(s, Some(first)).1,
    ensures
        !spec_activate(spec_activate(s, Some(first)).0, second).1,
        spec_activate(spec_activate(s, Some(first)).0, second).0.active,
{
}

/// After a deactivation, activating succeeds exactly when the plugin starts an
/// audio thread state, and the plugin is then active exactly when it did.
pub proof fn lemma_activate_after_deactivate<T>(s: ActivationView<T>, started: Option<T>)
    ensures
        spec_activate(spec_deactivate(s).0, started).1 == started is Some,
        spec_activate(spec_deactivate(s).0, started).0.active == started is Some,
        spec_activate(spec_deactivate(s).0, started).0.audio_thread == started,
{
}

/// Deactivating hands back the state that the last activation started, and
/// leaves the plugin inactive.
pub proof fn lemma_deactivate_returns_started<T>(s: ActivationView<T>, started: Option<T>)
    ensures
        spec_deactivate(spec_activate(s, started).0).1 == started,
        !spec_deactivate(spec_activate(s, started).0).0.active,
{
}

} // verus!
