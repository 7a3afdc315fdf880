//! Decision logic of the interactive viewer: which key press triggers which
//! action, which configuration selector is recognized, the single-slot
//! inbound command queue a host page fills between frames, and the
//! bookkeeping of how many trajectories are live and whether the help
//! overlay is shown.
//!
//! The front end owns the window and the event loop; each frame it maps raw
//! key events through [`AppAction::from_key`], applies the resulting actions
//! to its [`SceneModel`], and performs the returned [`SceneEffect`] on the
//! scene graph.

use vstd::prelude::*;

verus! {

/// The two built-in trajectory configurations: a single white trajectory, or
/// two trajectories whose initial conditions differ by 1e-7 in one axis to
/// demonstrate sensitive dependence.
#[derive(Clone, Copy, Debug, PartialEq, Eq, Structural)]
pub enum LorenzConfig {
    One,
    Two,
}

/// The keys the viewer reacts to; anything else arrives as `Other`.
#[derive(Clone, Copy, Debug, PartialEq, Eq, Structural)]
pub enum InputKey {
    Key1,
    Key2,
    H,
    Equals,
    Minus,
    Other,
}

/// An action the viewer can perform in response to input.
#[derive(Clone, Copy, Debug, PartialEq, Eq, Structural)]
pub enum AppAction {
    InitConfig(LorenzConfig),
    ToggleHelp,
    AddObj,
    RemoveObj,
}

/// The action bound to `key`, or `None` when the key is not bound.
pub open spec fn action_of_key(key: InputKey) -> Option<AppAction> {
    match key {
        InputKey::Key1 => Some(AppAction::InitConfig(LorenzConfig::One)),
        InputKey::Key2 => Some(AppAction::InitConfig(LorenzConfig::Two)),
        InputKey::H => Some(AppAction::ToggleHelp),
        InputKey::Equals => Some(AppAction::AddObj),
        InputKey::Minus => Some(AppAction::RemoveObj),
        InputKey::Other => None,
    }
}

impl AppAction {
    /// Maps a pressed key to the action bound to it; only an unbound key
    /// yields `None`, and such an event is left for the default camera
    /// handling.
    pub fn from_key(key: InputKey) -> (r: Option<AppAction>)
        ensures
            r == action_of_key(key),
            r is None <==> key is Other,
    {
        match key {
            InputKey::Key1 => Some(AppAction::InitConfig(LorenzConfig::One)),
            InputKey::Key2 => Some(AppAction::InitConfig(LorenzConfig::Two)),
            InputKey::H => Some(AppAction::ToggleHelp),
            InputKey::Equals => Some(AppAction::AddObj),
            InputKey::Minus => Some(AppAction::RemoveObj),
            InputKey::Other => None,
        }
    }
}

/// The configuration named by an external selector value: 1 and 2 select the
/// two built-in configurations, every other value is unrecognized.
pub open spec fn config_of_selector(selector: i32) -> Option<LorenzConfig> {
    if selector == 1 {
        Some(LorenzConfig::One)
    } else if selector == 2 {
        Some(LorenzConfig::Two)
    } else {
        None
    }
}

/// Parses an external configuration selector; exactly the values 1 and 2 are
/// recognized.
pub fn config_from_selector(selector: i32) -> (r: Option<LorenzConfig>)
    ensures
        r == config_of_selector(selector),
        r is Some <==> selector == 1 || selector == 2,
{
    if selector == 1 {
        Some(LorenzConfig::One)
    } else if selector == 2 {
        Some(LorenzConfig::Two)
    } else {
        None
    }
}

/// How many trajectories a configuration spawns.
pub open spec fn trajectories_of_config(config: LorenzConfig) -> nat {
    match config {
        LorenzConfig::One => 1,
        LorenzConfig::Two => 2,
    }
}

/// Single-slot inbound command queue: a host environment posts a pending
/// configuration between frames, last write wins, and the per-frame loop
/// drains the slot once per tick.
pub struct ConfigSlot {
    pending: Option<LorenzConfig>,
}

impl ConfigSlot {
    /// The configuration currently waiting in the slot, if any.
    pub closed spec fn spec_pending(&self) -> Option<LorenzConfig> {
        self.pending
    }

    /// An empty slot.
    pub fn new() -> (s: Self)
        ensures
            s.spec_pending() is None,
    {
        ConfigSlot { pending: None }
    }

    /// Posts `config` into the slot, overwriting whatever was waiting:
    /// last write wins.
    pub fn post(&mut self, config: LorenzConfig)
        ensures
            final(self).spec_pending() == Some(config),
    {
        self.pending = Some(config);
    }

    /// Accepts an external selector: a recognized selector (1 or 2) posts the
    /// named configuration and reports success, an unrecognized one reports
    /// failure and leaves the slot as it was.
    pub fn submit(&mut self, selector: i32) -> (accepted: bool)
        ensures
            accepted <==> (selector == 1 || selector == 2),
            accepted ==> final(self).spec_pending() == config_of_selector(selector),
            !accepted ==> final(self).spec_pending() == old(self).spec_pending(),
    {
        match config_from_selector(selector) {
            Some(config) => {
                self.pending = Some(config);
                true
            },
            None => false,
        }
    }

    /// Drains the slot: returns the pending configuration, if any, and
    /// leaves the slot empty.
    pub fn take(&mut self) -> (r: Option<LorenzConfig>)
        ensures
            r == old(self).spec_pending(),
            final(self).spec_pending() is None,
    {
        let r = self.pending;
        self.pending = None;
        r
    }
}

/// What the front end must do to the scene graph after an action was applied
/// to the model.
#[derive(Clone, Copy, Debug, PartialEq, Eq, Structural)]
pub enum SceneEffect {
    /// Discard every live trajectory and spawn the named configuration.
    Respawn(LorenzConfig),
    /// Spawn one randomly placed trajectory.
    AddRandom,
    /// Discard the most recently added trajectory (nothing was live when
    /// the payload is false).
    RemoveNewest(bool),
    /// Only the help overlay visibility changed.
    HelpToggled,
}

/// The float-free state of the viewer: how many trajectories are live and
/// whether the help overlay is drawn. The front end holds the corresponding
/// scene objects and keeps them in step by performing each returned
/// [`SceneEffect`].
pub struct SceneModel {
    trajectories: usize,
    show_help: bool,
}

impl SceneModel {
    /// Number of live trajectories.
    pub closed spec fn spec_trajectories(&self) -> usize {
        self.trajectories
    }

    /// Whether the help overlay is drawn this frame.
    pub closed spec fn spec_show_help(&self) -> bool {
        self.show_help
    }

    /// A fresh viewer: no trajectories yet, help shown.
    pub fn new() -> (m: Self)
        ensures
            m.spec_trajectories() == 0,
            m.spec_show_help(),
    {
        SceneModel { trajectories: 0, show_help: true }
    }

    /// Number of live trajectories.
    pub fn trajectories(&self) -> (n: usize)
        ensures
            n == self.spec_trajectories(),
    {
        self.trajectories
    }

    /// Whether the help overlay is drawn this frame.
    pub fn show_help(&self) -> (b: bool)
        ensures
            b == self.spec_show_help(),
    {
        self.show_help
    }

    /// Applies one action: reinitializing replaces all trajectories with
    /// those of the chosen configuration, toggling flips the help overlay,
    /// adding spawns one more trajectory, removing discards the newest one
    /// if any is live. The returned effect tells the front end what to do to
    /// the scene graph.
    pub fn apply(&mut self, action: AppAction) -> (e: SceneEffect)
        requires
            action is AddObj ==> old(self).spec_trajectories() < usize::MAX,
        ensures
            match action {
                AppAction::InitConfig(config) => {
                    &&& final(self).spec_trajectories() == trajectories_of_config(config)
                    &&& final(self).spec_show_help() == old(self).spec_show_help()
                    &&& e == SceneEffect::Respawn(config)
                },
                AppAction::ToggleHelp => {
                    &&& final(self).spec_trajectories() == old(self).spec_trajectories()
                    &&& final(self).spec_show_help() == !old(self).spec_show_help()
                    &&& e == SceneEffect::HelpToggled
                },
                AppAction::AddObj => {
                    &&& final(self).spec_trajectories() == old(self).spec_trajectories() + 1
                    &&& final(self).spec_show_help() == old(self).spec_show_help()
                    &&& e == SceneEffect::AddRandom
                },
                AppAction::RemoveObj => {
                    &&& final(self).spec_trajectories() == if old(self).spec_trajectories() > 0 {
                        old(self).spec_trajectories() - 1
                    } else {
                        0
                    }
                    &&& final(self).spec_show_help() == old(self).spec_show_help()
                    &&& e == SceneEffect::RemoveNewest(old(self).spec_trajectories() > 0)
                },
            },
    {
        match action {
            AppAction::InitConfig(config) => {
                self.trajectories = match config {
                    LorenzConfig::One => 1,
                    LorenzConfig::Two => 2,
                };
                SceneEffect::Respawn(config)
            },
            AppAction::ToggleHelp => {
                self.show_help = !self.show_help;
                SceneEffect::HelpToggled
            },
            AppAction::AddObj => {
                self.trajectories = self.trajectories + 1;
                SceneEffect::AddRandom
            },
            AppAction::RemoveObj => {
                if self.trajectories > 0 {
                    self.trajectories = self.trajectories - 1;
                    SceneEffect::RemoveNewest(true)
                } else {
                    SceneEffect::RemoveNewest(false)
                }
            },
        }
    }
}

} // verus!
