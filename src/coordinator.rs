use vstd::prelude::*;
use crossbeam_channel::Receiver;
use crate::effect_state::{CustomEffect, CustomEffectState, Transition};
use crate::message::{GuiMessage, try_receive};
use crate::profile::{Profile, ProfileList, cycled, has_name, is_default_profile};
use crate::settings::{Settings, Updates};

verus! {

/// How the session was started.
pub enum CliOutputType {
    /// Start with the given profile active.
    Profile(Profile),
    /// Start with the given custom effect queued.
    Custom(CustomEffect),
    /// Start with the profile that was active when the last session ended.
    NoArgs,
    /// Do not start at all.
    Exit,
}

/// What the coordinator asks of its owner after a step.
#[derive(Clone, Copy, PartialEq, Eq, Structural, Debug)]
pub enum Intent {
    Continue,
    /// Persist the session state once, then terminate.
    Shutdown,
}

/// What the effect backend is to receive at the end of a frame.
pub enum Forward {
    Nothing,
    Profile(Profile),
    Custom(CustomEffect),
}

/// The session state the per-frame coordinator works on.
pub struct App {
    pub unique_instance: bool,
    pub show_window: bool,
    /// Present when the tray is active: the mailbox of control messages.
    pub window_open_rx: Option<Receiver<GuiMessage>>,
    pub update_data: Updates,
    pub show_update_modal: bool,
    /// Whether the effect backend could be started.
    pub manager_available: bool,
    pub profile: Profile,
    pub profile_changed: bool,
    pub custom_effect: CustomEffectState,
    pub profile_list: ProfileList,
    pub global_rgb: [u8; 3],
}

impl App {
    /// The state after `message` has been handled, with the intent it yields.
    pub open spec fn after_message(self, message: GuiMessage) -> (App, Intent) {
        match message {
            GuiMessage::ShowWindow => (App { show_window: true, ..self }, Intent::Continue),
            GuiMessage::CycleProfiles => (self.after_cycle(), Intent::Continue),
            GuiMessage::Quit => (self, Intent::Shutdown),
        }
    }

    /// The state after cycling to the next profile: unchanged when no profile
    /// of the list shares the active profile's name.
    pub open spec fn after_cycle(self) -> App {
        if has_name(self.profile_list.profiles@, self.profile.name@) {
            App {
                profile: cycled(self.profile_list.profiles@, self.profile),
                profile_changed: true,
                ..self
            }
        } else {
            self
        }
    }

    /// The state after the commit step, and what it forwards to the backend.
    pub open spec fn after_commit_step(self) -> (App, Forward) {
        let cleared = App { profile_changed: false, ..self };
        if !self.profile_changed || !self.manager_available {
            (cleared, Forward::Nothing)
        } else {
            match self.custom_effect {
                CustomEffectState::Inactive => (cleared, Forward::Profile(self.profile)),
                CustomEffectState::Queued(e) => (
                    App {
                        custom_effect: self.custom_effect.after(Transition::Commit, e),
                        ..cleared
                    },
                    Forward::Custom(e),
                ),
                CustomEffectState::Playing => (cleared, Forward::Nothing),
            }
        }
    }

    /// The state after a custom effect has been submitted.
    pub open spec fn after_queue(self, effect: CustomEffect) -> App {
        App {
            profile_changed: true,
            custom_effect: self.custom_effect.after(Transition::Queue, effect),
            ..self
        }
    }

    /// The part of the session that is persisted agrees with `settings`.
    pub open spec fn persisted_state_is(self, settings: Settings) -> bool {
        &&& self.profile_list.profiles@ == settings.profiles@
        &&& self.profile == settings.ui_state
        &&& self.update_data == settings.updates
    }

    /// Whether controls that change the running effect are usable.
    pub open spec fn spec_effect_controls_enabled(self) -> bool {
        self.manager_available && self.custom_effect is Inactive
    }

    pub fn new(
        output: CliOutputType,
        hide_window: bool,
        unique_instance: bool,
        tray_active: bool,
        rx: Receiver<GuiMessage>,
        manager_available: bool,
        settings: Settings,
    ) -> (r: App)
        requires
            !(output is Exit),
        ensures
            r.unique_instance == unique_instance,
            r.show_window == !hide_window,
            r.window_open_rx is Some <==> tray_active,
            tray_active ==> r.window_open_rx == Some(rx),
            r.update_data == settings.updates,
            output is NoArgs ==> r.persisted_state_is(settings),
            r.show_update_modal,
            r.manager_available == manager_available,
            !r.profile_changed,
            r.profile_list.profiles@ == settings.profiles@,
            r.global_rgb == [0u8, 0u8, 0u8],
            match output {
                CliOutputType::Profile(p) => r.profile == p && r.custom_effect is Inactive,
                CliOutputType::Custom(e) => is_default_profile(r.profile) && r.custom_effect
                    == CustomEffectState::Queued(e),
                _ => r.profile == settings.ui_state && r.custom_effect is Inactive,
            },
    {
        let window_open_rx = if tray_active {
            Some(rx)
        } else {
            None
        };
        let (profile, custom_effect) = match output {
            CliOutputType::Profile(p) => (p, CustomEffectState::Inactive),
            CliOutputType::Custom(e) => (Profile::default(), CustomEffectState::Queued(e)),
            _ => (settings.ui_state, CustomEffectState::Inactive),
        };
        App {
            unique_instance,
            show_window: !hide_window,
            window_open_rx,
            update_data: settings.updates,
            show_update_modal: true,
            manager_available,
            profile,
            profile_changed: false,
            custom_effect,
            profile_list: ProfileList::new(settings.profiles),
            global_rgb: [0u8, 0u8, 0u8],
        }
    }

    /// Makes the profile after the active one (by name) active and marks the
    /// profile as changed; nothing happens when no profile of the list has the
    /// active profile's name.
    pub fn cycle_profiles(&mut self)
        ensures
            *final(self) == old(self).after_cycle(),
    {
        match self.profile_list.next_after(&self.profile) {
            Some(p) => {
                self.profile = p;
                self.profile_changed = true;
            },
            None => {},
        }
    }

    /// Acts on one control message.
    pub fn handle_message(&mut self, message: GuiMessage) -> (r: Intent)
        ensures
            (*final(self), r) == old(self).after_message(message),
    {
        match message {
            GuiMessage::ShowWindow => {
                self.show_window = true;
                Intent::Continue
            },
            GuiMessage::CycleProfiles => {
                self.cycle_profiles();
                Intent::Continue
            },
            GuiMessage::Quit => Intent::Shutdown,
        }
    }

    /// First step of a frame: reads at most one pending control message, when
    /// the tray is active, and acts on it.
    pub fn drain_messages(&mut self) -> (r: Intent)
        ensures
            old(self).window_open_rx is None ==> *final(self) == *old(self) && r == Intent::Continue,
            (*final(self) == *old(self) && r == Intent::Continue) || exists|m: GuiMessage|
                (*final(self), r) == old(self).after_message(m),
    {
        let received = match &self.window_open_rx {
            Some(rx) => try_receive(rx),
            None => None,
        };
        match received {
            Some(message) => self.handle_message(message),
            None => Intent::Continue,
        }
    }

    /// Last step of a frame: when the profile was marked changed and the
    /// backend is up, hands it the active profile (no custom effect) or the
    /// queued custom effect, which then counts as playing. The mark is cleared
    /// in any case.
    pub fn commit_step(&mut self) -> (r: Forward)
        ensures
            (*final(self), r) == old(self).after_commit_step(),
    {
        let mut forward = Forward::Nothing;
        if self.profile_changed {
            if self.manager_available {
                if self.custom_effect.is_none() {
                    forward = Forward::Profile(self.profile.duplicate());
                } else if self.custom_effect.is_queued() {
                    match self.custom_effect.commit() {
                        Some(e) => {
                            forward = Forward::Custom(e);
                        },
                        None => {},
                    }
                }
            }
            self.profile_changed = false;
        }
        forward
    }

    /// A request to close the window: with the tray active the window is only
    /// hidden and `false` is returned; otherwise `true` lets it close.
    pub fn on_close_event(&mut self) -> (r: bool)
        ensures
            r == (old(self).window_open_rx is None),
            r ==> *final(self) == *old(self),
            !r ==> *final(self) == (App { show_window: false, ..*old(self) }),
    {
        if self.window_open_rx.is_some() {
            self.show_window = false;
            false
        } else {
            true
        }
    }

    /// Whether controls that change the running effect are usable: the
    /// backend is up and no custom effect is queued or playing.
    pub fn effect_controls_enabled(&self) -> (r: bool)
        ensures
            r == self.spec_effect_controls_enabled(),
    {
        self.manager_available && self.custom_effect.is_none()
    }

    /// Whether the zone color controls are usable; `effect_takes_colors` tells
    /// whether the selected built-in effect reads zone colors.
    pub fn color_controls_enabled(&self, effect_takes_colors: bool) -> (r: bool)
        ensures
            r == (effect_takes_colors && self.spec_effect_controls_enabled()),
    {
        effect_takes_colors && self.effect_controls_enabled()
    }

    /// Whether the notice that the effect backend is unavailable is shown.
    pub fn shows_manager_error(&self) -> (r: bool)
        ensures
            r == !self.manager_available,
    {
        !self.manager_available
    }

    /// Whether the warning that another instance is running is shown.
    pub fn shows_instance_warning(&self) -> (r: bool)
        ensures
            r == !self.unique_instance,
    {
        !self.unique_instance
    }

    /// Whether the update notice is shown.
    pub fn shows_update_notice(&self) -> (r: bool)
        ensures
            r == (self.show_update_modal && !self.update_data.skip_version
                && self.update_data.version_name is Some),
    {
        self.show_update_modal && self.update_data.should_notify()
    }

    /// What the session-ending notices ask for this frame: the warning that
    /// another instance runs, shown when this one is not unique, and the
    /// notice that the effect backend is unavailable, shown when it is not up.
    /// Confirming a notice that is shown ends the session.
    pub fn notices_step(&self, instance_confirmed: bool, manager_error_confirmed: bool) -> (r: Intent)
        ensures
            r == (if (!self.unique_instance && instance_confirmed) || (!self.manager_available
                && manager_error_confirmed) {
                Intent::Shutdown
            } else {
                Intent::Continue
            }),
    {
        if self.shows_instance_warning() && instance_confirmed {
            Intent::Shutdown
        } else if self.shows_manager_error() && manager_error_confirmed {
            Intent::Shutdown
        } else {
            Intent::Continue
        }
    }

    /// The user closed the update notice, asking (or not) to skip this version.
    pub fn dismiss_update_notice(&mut self, skip_version: bool)
        ensures
            *final(self) == (App {
                show_update_modal: false,
                update_data: Updates { skip_version, ..old(self).update_data },
                ..*old(self)
            }),
    {
        self.show_update_modal = false;
        self.update_data.skip_version = skip_version;
    }

    /// The user set the color of zone `zone`: the colors now come from the
    /// profile, so any custom effect is discarded.
    pub fn set_zone_color(&mut self, zone: usize, rgb: [u8; 3])
        requires
            zone < 4,
        ensures
            final(self).profile.rgb_zones@ == old(self).profile.rgb_zones@.update(zone as int, rgb),
            final(self).profile.name == old(self).profile.name,
            final(self).profile.effect == old(self).profile.effect,
            *final(self) == (App {
                profile: final(self).profile,
                profile_changed: true,
                custom_effect: CustomEffectState::Inactive,
                ..*old(self)
            }),
    {
        self.profile.rgb_zones[zone] = rgb;
        self.profile_changed = true;
        self.custom_effect.clear();
    }

    /// The user set one color for every zone at once; any custom effect is
    /// discarded.
    pub fn set_all_zones(&mut self, rgb: [u8; 3])
        ensures
            final(self).profile.rgb_zones == [rgb, rgb, rgb, rgb],
            *final(self) == (App {
                profile: Profile { rgb_zones: [rgb, rgb, rgb, rgb], ..old(self).profile },
                global_rgb: rgb,
                profile_changed: true,
                custom_effect: CustomEffectState::Inactive,
                ..*old(self)
            }),
    {
        self.global_rgb = rgb;
        self.profile.rgb_zones = [rgb, rgb, rgb, rgb];
        self.profile_changed = true;
        self.custom_effect.clear();
    }

    /// The user picked a built-in effect: it replaces any custom effect.
    pub fn select_effect(&mut self, effect: u32)
        ensures
            *final(self) == (App {
                profile: Profile { effect, ..old(self).profile },
                profile_changed: true,
                custom_effect: CustomEffectState::Inactive,
                ..*old(self)
            }),
    {
        self.profile.effect = effect;
        self.profile_changed = true;
        self.custom_effect.clear();
    }

    /// The user stopped the playing custom effect.
    pub fn stop_custom_effect(&mut self)
        requires
            old(self).custom_effect is Playing,
        ensures
            *final(self) == (App {
                profile_changed: true,
                custom_effect: CustomEffectState::Inactive,
                ..*old(self)
            }),
    {
        self.custom_effect.stop();
        self.profile_changed = true;
    }

    /// The user submitted a custom effect; it is forwarded at the next commit
    /// step.
    pub fn queue_custom_effect(&mut self, effect: CustomEffect)
        requires
            old(self).custom_effect is Inactive,
        ensures
            *final(self) == old(self).after_queue(effect),
    {
        self.custom_effect.queue(effect);
        self.profile_changed = true;
    }

    /// Ends the session, handing over what is to be persisted: the profile
    /// list, the active profile and the update state. Taking `self` makes a
    /// second hand-over impossible.
    pub fn into_settings(self) -> (r: Settings)
        ensures
            self.persisted_state_is(r),
    {
        Settings::new(self.profile_list.profiles, self.profile, self.update_data)
    }
}

/// A session started from the settings that another session handed over
/// (started without arguments) has the same profile list, active profile and
/// update state as the session that handed them over.
pub proof fn lemma_settings_round_trip(first: App, saved: Settings, second: App)
    requires
        first.persisted_state_is(saved),
        second.persisted_state_is(saved),
    ensures
        second.profile_list.profiles@ == first.profile_list.profiles@,
        second.profile == first.profile,
        second.update_data == first.update_data,
{
}

/// Every action that ends a custom effect (stopping it, picking a built-in
/// effect, editing a zone color) leaves it inactive with the profile marked
/// changed; from such a state, with the backend up, the commit step hands the
/// backend the active profile and nothing else.
pub proof fn lemma_ended_effect_forwards_profile(app: App)
    requires
        app.custom_effect is Inactive,
        app.profile_changed,
        app.manager_available,
    ensures
        app.after_commit_step() == (App { profile_changed: false, ..app }, Forward::Profile(app.profile)),
{
}

/// From an inactive state with the backend up, submitting an effect and then
/// running the commit step forwards exactly that effect, once, and leaves it
/// playing; a second commit step forwards nothing.
pub proof fn lemma_queue_then_commit(app: App, effect: CustomEffect)
    requires
        app.custom_effect is Inactive,
        app.manager_available,
    ensures
        app.after_queue(effect).after_commit_step().1 == Forward::Custom(effect),
        app.after_queue(effect).after_commit_step().0.custom_effect is Playing,
        app.after_queue(effect).after_commit_step().0.after_commit_step().1 is Nothing,
{
}

} // verus!
