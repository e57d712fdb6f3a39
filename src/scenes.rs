use crate::legend::{legend_view, Legend};
use crate::scene_config::SceneConfig;
use vstd::prelude::*;

verus! {

/// The scenes a tank cycles through: the current one, the milliseconds it
/// has shown, and whether cycling is on.
pub struct Scenes {
    pub current_scene: usize,
    pub scenes: Vec<SceneConfig>,
    pub time: u64,
    pub switching: bool,
}

impl Scenes {
    pub open spec fn wf(self) -> bool {
        self.current_scene < self.scenes@.len()
    }

    pub open spec fn current(self) -> SceneConfig {
        self.scenes@[self.current_scene as int]
    }

    pub open spec fn is_switching_spec(self) -> bool {
        self.switching && self.current().display_time > 0
    }

    pub open spec fn needs_reloading_spec(self) -> bool {
        self.is_switching_spec() && self.time > self.current().display_time as int * 1000
    }

    /// `self` after `delta` more milliseconds.
    pub open spec fn ticked(self, delta: u32) -> Scenes {
        Scenes { time: self.time.saturating_add(delta as u64), ..self }
    }

    /// `self` moved on to the next scene, after the last to the first, with
    /// its time restarted.
    pub open spec fn advanced(self) -> Scenes {
        Scenes {
            current_scene: if self.current_scene + 1 == self.scenes@.len() {
                0
            } else {
                (self.current_scene + 1) as usize
            },
            time: 0,
            ..self
        }
    }

    /// Cycling through `scenes`, from the first.
    pub fn new(scenes: Vec<SceneConfig>) -> (r: Scenes)
        requires
            scenes@.len() > 0,
        ensures
            r.wf(),
            r.current_scene == 0,
            r.scenes@ == scenes@,
            r.time == 0,
            r.switching,
    {
        Scenes { current_scene: 0, scenes, time: 0, switching: true }
    }

    /// One default scene, not cycling.
    pub fn empty() -> (r: Scenes)
        ensures
            r.wf(),
            r.current_scene == 0,
            r.scenes@.len() == 1,
            r.current().input_data_path.is_none(),
            r.current().display_time == 30,
            r.current().legend.is_none(),
            r.time == 0,
            !r.switching,
    {
        Scenes { current_scene: 0, scenes: vec![SceneConfig::default()], time: 0, switching: false }
    }

    /// Cycling is on and the current scene has a display time.
    pub fn is_switching(&self) -> (r: bool)
        requires
            self.wf(),
        ensures
            r == self.is_switching_spec(),
    {
        self.switching && self.display_time() > 0
    }

    /// Counts `delta` more milliseconds, saturating.
    pub fn tick(&mut self, delta: u32)
        ensures
            *final(self) == old(self).ticked(delta),
    {
        self.time = self.time.saturating_add(delta as u64);
    }

    /// Cycling is on and the current scene has shown longer than its
    /// display time.
    pub fn needs_reloading(&self) -> (r: bool)
        requires
            self.wf(),
        ensures
            r == self.needs_reloading_spec(),
    {
        self.is_switching() && self.time > (self.display_time() as u64) * 1000
    }

    fn display_time(&self) -> (r: u32)
        requires
            self.wf(),
        ensures
            r == self.current().display_time,
    {
        self.scenes[self.current_scene].display_time
    }

    /// The background picture of the current scene: the first when it names
    /// none.
    pub fn scene_background(&self) -> (r: usize)
        requires
            self.wf(),
        ensures
            r == match self.current().background {
                Some(b) => b,
                None => 0,
            },
    {
        match self.scenes[self.current_scene].background {
            Some(b) => b,
            None => 0,
        }
    }

    /// Where the current scene's feed comes from.
    pub fn input_data_path(&self) -> (r: Option<String>)
        requires
            self.wf(),
        ensures
            r == self.current().input_data_path,
    {
        self.scenes[self.current_scene].input_data_path.clone()
    }

    /// The current scene's legend.
    pub fn legend(&self) -> (r: Option<Legend>)
        requires
            self.wf(),
        ensures
            legend_view(r) == legend_view(self.current().legend),
    {
        self.scenes[self.current_scene].legend.clone()
    }

    /// Moves on to the next scene, after the last to the first, and starts
    /// its time.
    pub fn next(&mut self)
        requires
            old(self).wf(),
        ensures
            *final(self) == old(self).advanced(),
            final(self).wf(),
    {
        let count = self.scenes.len();
        self.time = 0;
        self.current_scene = self.current_scene + 1;
        if self.current_scene == count {
            self.current_scene = 0;
        }
    }

    /// Turns cycling on or off, restarts the time, and tells whether cycling
    /// is now on.
    pub fn toggle_switching(&mut self) -> (r: bool)
        ensures
            *final(self) == (Scenes { switching: !old(self).switching, time: 0, ..*old(self) }),
            r == final(self).switching,
    {
        self.time = 0;
        self.switching = !self.switching;
        self.switching
    }
}

} // verus!
