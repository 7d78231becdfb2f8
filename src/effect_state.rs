use vstd::prelude::*;

verus! {

/// A user-supplied effect definition, kept as the encoded bytes that the
/// effect backend understands.
pub struct CustomEffect {
    pub data: Vec<u8>,
}

/// Lifecycle of a custom effect: absent, waiting to be forwarded, or playing.
pub enum CustomEffectState {
    Inactive,
    Queued(CustomEffect),
    Playing,
}

/// The operations that move a `CustomEffectState`.
#[derive(Clone, Copy, PartialEq, Eq, Structural)]
pub enum Transition {
    Queue,
    Commit,
    Stop,
    Clear,
}

impl CustomEffectState {
    pub open spec fn spec_is_none(&self) -> bool {
        self is Inactive
    }

    pub open spec fn spec_is_queued(&self) -> bool {
        self is Queued
    }

    pub open spec fn spec_is_playing(&self) -> bool {
        self is Playing
    }

    /// Whether `t` may be applied in this state.
    pub open spec fn allows(&self, t: Transition) -> bool {
        match t {
            Transition::Queue => self is Inactive,
            Transition::Commit => self is Queued,
            Transition::Stop => self is Playing,
            Transition::Clear => true,
        }
    }

    /// The state after applying an allowed transition `t`; `e` is the effect
    /// that a `Queue` brings in.
    pub open spec fn after(self, t: Transition, e: CustomEffect) -> CustomEffectState {
        match t {
            Transition::Queue => CustomEffectState::Queued(e),
            Transition::Commit => CustomEffectState::Playing,
            Transition::Stop => CustomEffectState::Inactive,
            Transition::Clear => CustomEffectState::Inactive,
        }
    }

    pub fn new() -> (r: CustomEffectState)
        ensures
            r is Inactive,
    {
        CustomEffectState::Inactive
    }

    pub fn is_none(&self) -> (r: bool)
        ensures
            r == self.spec_is_none(),
    {
        match self {
            Self::Inactive => true,
            Self::Queued(_) | Self::Playing => false,
        }
    }

    pub fn is_queued(&self) -> (r: bool)
        ensures
            r == self.spec_is_queued(),
    {
        match self {
            Self::Inactive | Self::Playing => false,
            Self::Queued(_) => true,
        }
    }

    pub fn is_playing(&self) -> (r: bool)
        ensures
            r == self.spec_is_playing(),
    {
        match self {
            Self::Inactive | Self::Queued(_) => false,
            Self::Playing => true,
        }
    }

    /// Holds `effect` until the next commit. Only valid when no custom effect
    /// is queued or playing.
    pub fn queue(&mut self, effect: CustomEffect)
        requires
            old(self).allows(Transition::Queue),
        ensures
            *final(self) == old(self).after(Transition::Queue, effect),
    {
        *self = CustomEffectState::Queued(effect);
    }

    /// Moves the queued effect out, leaving the state `Playing`. Any other
    /// state is left as it is and nothing is returned.
    pub fn commit(&mut self) -> (r: Option<CustomEffect>)
        ensures
            match *old(self) {
                CustomEffectState::Queued(e) => r == Some(e) && *final(self)
                    == old(self).after(Transition::Commit, e),
                _ => r is None && *final(self) == *old(self),
            },
    {
        if self.is_queued() {
            let mut state = CustomEffectState::Playing;
            std::mem::swap(self, &mut state);
            match state {
                CustomEffectState::Queued(e) => Some(e),
                _ => None,
            }
        } else {
            None
        }
    }

    /// Ends a playing effect.
    pub fn stop(&mut self)
        requires
            old(self).allows(Transition::Stop),
        ensures
            *final(self) == CustomEffectState::Inactive,
    {
        *self = CustomEffectState::Inactive;
    }

    /// Discards any queued or playing effect.
    pub fn clear(&mut self)
        ensures
            *final(self) is Inactive,
    {
        *self = CustomEffectState::Inactive;
    }
}

/// A transition into `Playing` from any other state is a commit, and it is
/// only allowed from `Queued`.
pub proof fn lemma_playing_only_after_queued(s: CustomEffectState, t: Transition, e: CustomEffect)
    requires
        s.allows(t),
        !(s is Playing),
        s.after(t, e) is Playing,
    ensures
        t == Transition::Commit,
        s is Queued,
{
}

/// Only `stop` and `clear` lead from a non-`Inactive` state to `Inactive`.
pub proof fn lemma_none_only_by_stop_or_clear(s: CustomEffectState, t: Transition, e: CustomEffect)
    requires
        s.allows(t),
        !(s is Inactive),
        s.after(t, e) is Inactive,
    ensures
        t == Transition::Stop || t == Transition::Clear,
{
}

} // verus!
