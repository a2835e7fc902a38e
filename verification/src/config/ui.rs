//! The configuration screen as a state machine: where the focus is, what
//! is marked in each section, and what each key does to both.
//!
//! Drawing the screen and reading the keyboard are left to the caller, who
//! hands each key over and learns what to do next.

use super::state::{lemma_first_place, Choices, ConfigState};
use crate::gpu::headless::{LightingMode, RotationMode};
use vstd::prelude::*;

verus! {

/// The section of the screen that the keys act on.
#[derive(Clone, Copy, Debug, PartialEq, Eq, Structural)]
pub enum Focus {
    Models,
    Rotation,
    Lighting,
    Skybox,
    Speed,
    Buttons,
}

impl Focus {
    /// The section below this one; below the last comes the first.
    pub open spec fn following(self) -> Focus {
        match self {
            Focus::Models => Focus::Rotation,
            Focus::Rotation => Focus::Lighting,
            Focus::Lighting => Focus::Skybox,
            Focus::Skybox => Focus::Speed,
            Focus::Speed => Focus::Buttons,
            Focus::Buttons => Focus::Models,
        }
    }

    /// The section above this one; above the first comes the last.
    pub open spec fn preceding(self) -> Focus {
        match self {
            Focus::Models => Focus::Buttons,
            Focus::Rotation => Focus::Models,
            Focus::Lighting => Focus::Rotation,
            Focus::Skybox => Focus::Lighting,
            Focus::Speed => Focus::Skybox,
            Focus::Buttons => Focus::Speed,
        }
    }

    /// The section below this one.
    pub fn next(self) -> (focus: Focus)
        ensures
            focus == self.following(),
    {
        match self {
            Focus::Models => Focus::Rotation,
            Focus::Rotation => Focus::Lighting,
            Focus::Lighting => Focus::Skybox,
            Focus::Skybox => Focus::Speed,
            Focus::Speed => Focus::Buttons,
            Focus::Buttons => Focus::Models,
        }
    }

    /// The section above this one.
    pub fn prev(self) -> (focus: Focus)
        ensures
            focus == self.preceding(),
    {
        match self {
            Focus::Models => Focus::Buttons,
            Focus::Rotation => Focus::Models,
            Focus::Lighting => Focus::Rotation,
            Focus::Skybox => Focus::Lighting,
            Focus::Speed => Focus::Skybox,
            Focus::Buttons => Focus::Speed,
        }
    }
}

/// Going to the next section and back, or back and to the next, ends where
/// it began; six steps one way lead round.
pub proof fn lemma_focus_round(focus: Focus)
    ensures
        focus.following().preceding() == focus,
        focus.preceding().following() == focus,
        focus.following().following().following().following().following().following() == focus,
{
}

/// A key as the screen tells them apart.
#[derive(Clone, Copy, Debug, PartialEq, Eq, Structural)]
pub enum Key {
    Esc,
    Tab,
    BackTab,
    Enter,
    Up,
    Down,
    Left,
    Right,
    /// Any other key.
    Other,
}

/// What the caller is to do after a key.
#[derive(Clone, Copy, Debug, PartialEq, Eq, Structural)]
pub enum UiAction {
    /// Draw the screen again and wait for the next key.
    Continue,
    /// Close the screen and take the choices over.
    Apply,
    /// Close the screen and forget the choices.
    Cancel,
    /// Turn the speed down one step, then go on.
    SlowDown,
    /// Turn the speed up one step, then go on.
    SpeedUp,
}

/// The number of the button that applies the choices.
pub const APPLY_BUTTON: usize = 0;

/// The number of the button that cancels.
pub const CANCEL_BUTTON: usize = 1;

/// The screen as contracts see it.
pub struct UiState {
    pub choices: Choices,
    pub focus: Focus,
    /// The place of the marked model, if one is marked.
    pub model_selected: Option<int>,
    /// The place of the marked rotation mode among all of them.
    pub rotation_index: int,
    /// The place of the marked lighting mode among all of them.
    pub lighting_index: int,
    /// The number of the marked skybox; zero is the plain background.
    pub skybox_index: int,
    /// The number of the marked button.
    pub button_index: int,
}

impl UiState {
    /// Every mark points at something that is there.
    pub open spec fn wf(self) -> bool {
        &&& self.model_selected matches Some(i) ==> 0 <= i < self.choices.models.len()
        &&& 0 <= self.rotation_index < RotationMode::every().len()
        &&& 0 <= self.lighting_index < LightingMode::every().len()
        &&& 0 <= self.skybox_index <= self.choices.skyboxes.len()
        &&& 0 <= self.button_index <= 1
    }

    /// The screen after a step up in the focused section. The lists of
    /// models and modes stop at their first entry; the skyboxes go round.
    pub open spec fn moved_up(self) -> UiState {
        match self.focus {
            Focus::Models => match self.model_selected {
                Some(i) if i > 0 => UiState {
                    model_selected: Some(i - 1),
                    choices: self.choices.with_model_at(i - 1),
                    ..self
                },
                _ => self,
            },
            Focus::Rotation => if self.rotation_index > 0 {
                self.with_rotation(self.rotation_index - 1)
            } else {
                self
            },
            Focus::Lighting => if self.lighting_index > 0 {
                self.with_lighting(self.lighting_index - 1)
            } else {
                self
            },
            Focus::Skybox => if self.skybox_index > 0 {
                self.with_skybox(self.skybox_index - 1)
            } else {
                self.with_skybox(self.choices.skyboxes.len() as int)
            },
            _ => self,
        }
    }

    /// The screen after a step down in the focused section. The lists of
    /// models and modes stop at their last entry; the skyboxes go round.
    pub open spec fn moved_down(self) -> UiState {
        match self.focus {
            Focus::Models => match self.model_selected {
                Some(i) => if i + 1 < self.choices.models.len() {
                    UiState {
                        model_selected: Some(i + 1),
                        choices: self.choices.with_model_at(i + 1),
                        ..self
                    }
                } else {
                    self
                },
                None => if self.choices.models.len() > 0 {
                    UiState {
                        model_selected: Some(0),
                        choices: self.choices.with_model_at(0),
                        ..self
                    }
                } else {
                    self
                },
            },
            Focus::Rotation => if self.rotation_index + 1 < RotationMode::every().len() {
                self.with_rotation(self.rotation_index + 1)
            } else {
                self
            },
            Focus::Lighting => if self.lighting_index + 1 < LightingMode::every().len() {
                self.with_lighting(self.lighting_index + 1)
            } else {
                self
            },
            Focus::Skybox => if self.skybox_index < self.choices.skyboxes.len() {
                self.with_skybox(self.skybox_index + 1)
            } else {
                self.with_skybox(0)
            },
            _ => self,
        }
    }

    /// The screen with the rotation mode at `index` marked and chosen.
    pub open spec fn with_rotation(self, index: int) -> UiState {
        UiState {
            rotation_index: index,
            choices: Choices { rotation_mode: RotationMode::every()[index], ..self.choices },
            ..self
        }
    }

    /// The screen with the lighting mode at `index` marked and chosen.
    pub open spec fn with_lighting(self, index: int) -> UiState {
        UiState {
            lighting_index: index,
            choices: Choices { lighting_mode: LightingMode::every()[index], ..self.choices },
            ..self
        }
    }

    /// The screen with the skybox of the given number marked and chosen.
    pub open spec fn with_skybox(self, number: int) -> UiState {
        UiState {
            skybox_index: number,
            choices: self.choices.with_skybox_number(number),
            ..self
        }
    }

    /// The screen after a step to the left, and what it asks of the caller:
    /// the speed goes down, the first button is marked, and the sections
    /// that are laid out in a row step as for up.
    pub open spec fn moved_left(self) -> (UiState, UiAction) {
        match self.focus {
            Focus::Speed => (self, UiAction::SlowDown),
            Focus::Buttons => (
                UiState { button_index: APPLY_BUTTON as int, ..self },
                UiAction::Continue,
            ),
            Focus::Rotation | Focus::Lighting | Focus::Skybox => (
                self.moved_up(),
                UiAction::Continue,
            ),
            Focus::Models => (self, UiAction::Continue),
        }
    }

    /// The screen after a step to the right, and what it asks of the
    /// caller: the counterpart of a step to the left.
    pub open spec fn moved_right(self) -> (UiState, UiAction) {
        match self.focus {
            Focus::Speed => (self, UiAction::SpeedUp),
            Focus::Buttons => (
                UiState { button_index: CANCEL_BUTTON as int, ..self },
                UiAction::Continue,
            ),
            Focus::Rotation | Focus::Lighting | Focus::Skybox => (
                self.moved_down(),
                UiAction::Continue,
            ),
            Focus::Models => (self, UiAction::Continue),
        }
    }

    /// The screen after a key, and what the key asks of the caller.
    pub open spec fn after_key(self, key: Key) -> (UiState, UiAction) {
        match key {
            Key::Esc => (self, UiAction::Cancel),
            Key::Tab => (UiState { focus: self.focus.following(), ..self }, UiAction::Continue),
            Key::BackTab => (
                UiState { focus: self.focus.preceding(), ..self },
                UiAction::Continue,
            ),
            Key::Enter => if self.focus == Focus::Buttons {
                if self.button_index == APPLY_BUTTON {
                    (self, UiAction::Apply)
                } else {
                    (self, UiAction::Cancel)
                }
            } else {
                (self, UiAction::Continue)
            },
            Key::Up => (self.moved_up(), UiAction::Continue),
            Key::Down => (self.moved_down(), UiAction::Continue),
            Key::Left => self.moved_left(),
            Key::Right => self.moved_right(),
            Key::Other => (self, UiAction::Continue),
        }
    }
}

/// The configuration screen.
#[derive(Debug)]
pub struct ConfigUI {
    config: ConfigState,
    focus: Focus,
    model_selected: Option<usize>,
    rotation_index: usize,
    lighting_index: usize,
    skybox_index: usize,
    button_index: usize,
}

impl View for ConfigUI {
    type V = UiState;

    closed spec fn view(&self) -> UiState {
        UiState {
            choices: self.config@,
            focus: self.focus,
            model_selected: match self.model_selected {
                Some(i) => Some(i as int),
                None => None,
            },
            rotation_index: self.rotation_index as int,
            lighting_index: self.lighting_index as int,
            skybox_index: self.skybox_index as int,
            button_index: self.button_index as int,
        }
    }
}

/// The place of a rotation mode among all of them.
fn rotation_place(mode: RotationMode) -> (place: usize)
    ensures
        place < RotationMode::every().len(),
        RotationMode::every()[place as int] == mode,
{
    match mode {
        RotationMode::Static => 0,
        RotationMode::AxisX => 1,
        RotationMode::AxisY => 2,
        RotationMode::AxisZ => 3,
        RotationMode::Tumble => 4,
        RotationMode::Orbit => 5,
    }
}

/// The place of a lighting mode among all of them.
fn lighting_place(mode: LightingMode) -> (place: usize)
    ensures
        place < LightingMode::every().len(),
        LightingMode::every()[place as int] == mode,
{
    match mode {
        LightingMode::Flat => 0,
        LightingMode::Diffuse => 1,
        LightingMode::Specular => 2,
        LightingMode::Toon => 3,
        LightingMode::Gradient => 4,
        LightingMode::Normals => 5,
    }
}

impl ConfigUI {
    /// The screen as it opens on the given choices: the focus on the
    /// models, every section marking what is chosen, and the button that
    /// applies marked.
    pub fn new(config: ConfigState) -> (ui: Self)
        ensures
            ui@.wf(),
            ui@.choices == config@,
            ui@.focus == Focus::Models,
            ui@.model_selected == config@.model_place(),
            RotationMode::every()[ui@.rotation_index] == config@.rotation_mode,
            LightingMode::every()[ui@.lighting_index] == config@.lighting_mode,
            ui@.skybox_index == config@.skybox_number(),
            ui@.button_index == APPLY_BUTTON,
    {
        let rotation_index = rotation_place(config.rotation_mode);
        let lighting_index = lighting_place(config.lighting_mode);
        let skybox_index = config.selected_skybox_index();
        let model_selected = config.selected_model_index();
        proof {
            if let Some(m) = config@.model {
                lemma_first_place(config@.models, m);
            }
            if let Some(s) = config@.skybox {
                lemma_first_place(config@.skyboxes, s);
            }
        }
        ConfigUI {
            config,
            focus: Focus::Models,
            model_selected,
            rotation_index,
            lighting_index,
            skybox_index,
            button_index: APPLY_BUTTON,
        }
    }

    /// The choices as they stand.
    pub fn config(&self) -> (config: &ConfigState)
        ensures
            config@ == self@.choices,
    {
        &self.config
    }

    /// Gives up the screen for the choices made on it.
    pub fn into_config(self) -> (config: ConfigState)
        ensures
            config@ == self@.choices,
    {
        self.config
    }

    /// The focused section.
    pub fn focus(&self) -> (focus: Focus)
        ensures
            focus == self@.focus,
    {
        self.focus
    }

    /// The place of the marked model.
    pub fn model_selected(&self) -> (place: Option<usize>)
        ensures
            (match place {
                Some(i) => Some(i as int),
                None => None,
            }) == self@.model_selected,
    {
        self.model_selected
    }

    /// The place of the marked rotation mode.
    pub fn rotation_index(&self) -> (index: usize)
        ensures
            index == self@.rotation_index,
    {
        self.rotation_index
    }

    /// The place of the marked lighting mode.
    pub fn lighting_index(&self) -> (index: usize)
        ensures
            index == self@.lighting_index,
    {
        self.lighting_index
    }

    /// The number of the marked skybox.
    pub fn skybox_index(&self) -> (index: usize)
        ensures
            index == self@.skybox_index,
    {
        self.skybox_index
    }

    /// The number of the marked button.
    pub fn button_index(&self) -> (index: usize)
        ensures
            index == self@.button_index,
    {
        self.button_index
    }

    /// Takes a key. Returns what the caller is to do next.
    pub fn handle_key(&mut self, key: Key) -> (action: UiAction)
        requires
            old(self)@.wf(),
        ensures
            final(self)@.wf(),
            (final(self)@, action) == old(self)@.after_key(key),
    {
        match key {
            Key::Esc => UiAction::Cancel,
            Key::Tab => {
                self.focus = self.focus.next();
                UiAction::Continue
            },
            Key::BackTab => {
                self.focus = self.focus.prev();
                UiAction::Continue
            },
            Key::Enter => {
                if self.focus == Focus::Buttons {
                    if self.button_index == APPLY_BUTTON {
                        UiAction::Apply
                    } else {
                        UiAction::Cancel
                    }
                } else {
                    UiAction::Continue
                }
            },
            Key::Up => {
                self.move_up();
                UiAction::Continue
            },
            Key::Down => {
                self.move_down();
                UiAction::Continue
            },
            Key::Left => self.move_left(),
            Key::Right => self.move_right(),
            Key::Other => UiAction::Continue,
        }
    }

    /// A step up in the focused section.
    pub fn move_up(&mut self)
        requires
            old(self)@.wf(),
        ensures
            final(self)@.wf(),
            final(self)@ == old(self)@.moved_up(),
    {
        match self.focus {
            Focus::Models => {
                if let Some(i) = self.model_selected {
                    if i > 0 {
                        self.model_selected = Some(i - 1);
                        self.config.select_model(i - 1);
                    }
                }
            },
            Focus::Rotation => {
                if self.rotation_index > 0 {
                    self.rotation_index -= 1;
                    self.config.rotation_mode = RotationMode::all()[self.rotation_index];
                }
            },
            Focus::Lighting => {
                if self.lighting_index > 0 {
                    self.lighting_index -= 1;
                    self.config.lighting_mode = LightingMode::all()[self.lighting_index];
                }
            },
            Focus::Skybox => {
                if self.skybox_index > 0 {
                    self.skybox_index -= 1;
                } else {
                    self.skybox_index = self.config.available_skyboxes.len();
                }
                self.config.select_skybox(self.skybox_index);
            },
            _ => {},
        }
    }

    /// A step down in the focused section.
    pub fn move_down(&mut self)
        requires
            old(self)@.wf(),
        ensures
            final(self)@.wf(),
            final(self)@ == old(self)@.moved_down(),
    {
        match self.focus {
            Focus::Models => {
                let count = self.config.available_models.len();
                match self.model_selected {
                    Some(i) => {
                        if i < count - 1 {
                            self.model_selected = Some(i + 1);
                            self.config.select_model(i + 1);
                        }
                    },
                    None => {
                        if count > 0 {
                            self.model_selected = Some(0);
                            self.config.select_model(0);
                        }
                    },
                }
            },
            Focus::Rotation => {
                if self.rotation_index + 1 < RotationMode::all().len() {
                    self.rotation_index += 1;
                    self.config.rotation_mode = RotationMode::all()[self.rotation_index];
                }
            },
            Focus::Lighting => {
                if self.lighting_index + 1 < LightingMode::all().len() {
                    self.lighting_index += 1;
                    self.config.lighting_mode = LightingMode::all()[self.lighting_index];
                }
            },
            Focus::Skybox => {
                if self.skybox_index < self.config.available_skyboxes.len() {
                    self.skybox_index += 1;
                } else {
                    self.skybox_index = 0;
                }
                self.config.select_skybox(self.skybox_index);
            },
            _ => {},
        }
    }

    /// A step to the left in the focused section.
    pub fn move_left(&mut self) -> (action: UiAction)
        requires
            old(self)@.wf(),
        ensures
            final(self)@.wf(),
            (final(self)@, action) == old(self)@.moved_left(),
    {
        match self.focus {
            Focus::Speed => UiAction::SlowDown,
            Focus::Buttons => {
                self.button_index = APPLY_BUTTON;
                UiAction::Continue
            },
            Focus::Rotation | Focus::Lighting | Focus::Skybox => {
                self.move_up();
                UiAction::Continue
            },
            Focus::Models => UiAction::Continue,
        }
    }

    /// A step to the right in the focused section.
    pub fn move_right(&mut self) -> (action: UiAction)
        requires
            old(self)@.wf(),
        ensures
            final(self)@.wf(),
            (final(self)@, action) == old(self)@.moved_right(),
    {
        match self.focus {
            Focus::Speed => UiAction::SpeedUp,
            Focus::Buttons => {
                self.button_index = CANCEL_BUTTON;
                UiAction::Continue
            },
            Focus::Rotation | Focus::Lighting | Focus::Skybox => {
                self.move_down();
                UiAction::Continue
            },
            Focus::Models => UiAction::Continue,
        }
    }
}

/// No key leaves a mark pointing at nothing, and no key changes what is on
/// offer.
pub proof fn lemma_keys_keep_marks_valid(state: UiState, key: Key)
    requires
        state.wf(),
    ensures
        state.after_key(key).0.wf(),
        state.after_key(key).0.choices.models == state.choices.models,
        state.after_key(key).0.choices.skyboxes == state.choices.skyboxes,
{
}

/// The screen closes only on Esc, or on Enter with the focus on the
/// buttons; it applies only on Enter with the first button marked.
pub proof fn lemma_when_the_screen_closes(state: UiState, key: Key)
    ensures
        state.after_key(key).1 == UiAction::Apply <==> key == Key::Enter && state.focus
            == Focus::Buttons && state.button_index == APPLY_BUTTON,
        state.after_key(key).1 == UiAction::Cancel <==> key == Key::Esc || (key == Key::Enter
            && state.focus == Focus::Buttons && state.button_index != APPLY_BUTTON),
{
}

} // verus!
