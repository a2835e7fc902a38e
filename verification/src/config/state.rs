//! The choices themselves: a model, a skybox, how the model turns and how
//! it is lit.
//!
//! Models and skyboxes are known by their paths as text. The lists of what
//! is on offer come from whoever looks into the folders.

use crate::gpu::headless::{LightingMode, RotationMode};
use vstd::prelude::*;

verus! {

/// The choices as contracts see them: every path as its text.
pub struct Choices {
    /// The chosen model's path, if one is chosen.
    pub model: Option<Seq<char>>,
    /// The paths of the models on offer.
    pub models: Seq<Seq<char>>,
    pub rotation_mode: RotationMode,
    pub lighting_mode: LightingMode,
    /// The chosen skybox's path; `None` is the plain background.
    pub skybox: Option<Seq<char>>,
    /// The paths of the skyboxes on offer.
    pub skyboxes: Seq<Seq<char>>,
}

/// The texts of a list of paths.
pub open spec fn texts(paths: Seq<String>) -> Seq<Seq<char>> {
    Seq::new(paths.len(), |i: int| paths[i]@)
}

/// The text of a path, if there is one.
pub open spec fn text_of(path: Option<String>) -> Option<Seq<char>> {
    match path {
        Some(p) => Some(p@),
        None => None,
    }
}

/// The place of the first entry of a list that equals `wanted`.
pub open spec fn first_place(list: Seq<Seq<char>>, wanted: Seq<char>) -> Option<int>
    decreases list.len(),
{
    if list.len() == 0 {
        None
    } else {
        match first_place(list.drop_last(), wanted) {
            Some(place) => Some(place),
            None => if list.last() == wanted {
                Some(list.len() - 1)
            } else {
                None
            },
        }
    }
}

impl Choices {
    /// The choices once the models on offer are `found`: a chosen model
    /// that is still on offer stays chosen; otherwise the first on offer is
    /// chosen, and none where none is on offer.
    pub open spec fn with_models(self, found: Seq<Seq<char>>) -> Choices {
        let kept = match self.model {
            Some(m) => first_place(found, m) is Some,
            None => false,
        };
        Choices {
            models: found,
            model: if kept {
                self.model
            } else if found.len() > 0 {
                Some(found[0])
            } else {
                None
            },
            ..self
        }
    }

    /// The choices once the skyboxes on offer are `found`: a chosen skybox
    /// that is no longer on offer gives way to the plain background.
    pub open spec fn with_skyboxes(self, found: Seq<Seq<char>>) -> Choices {
        let kept = match self.skybox {
            Some(s) => first_place(found, s) is Some,
            None => false,
        };
        Choices {
            skyboxes: found,
            skybox: if kept {
                self.skybox
            } else {
                None
            },
            ..self
        }
    }

    /// The place of the chosen model among those on offer.
    pub open spec fn model_place(self) -> Option<int> {
        match self.model {
            Some(m) => first_place(self.models, m),
            None => None,
        }
    }

    /// The choices once the model at `index` is picked; an index past the
    /// list picks nothing.
    pub open spec fn with_model_at(self, index: int) -> Choices {
        if 0 <= index < self.models.len() {
            Choices { model: Some(self.models[index]), ..self }
        } else {
            self
        }
    }

    /// The number of the chosen skybox: zero for the plain background, else
    /// one more than its place among those on offer.
    pub open spec fn skybox_number(self) -> int {
        match self.skybox {
            Some(s) => match first_place(self.skyboxes, s) {
                Some(place) => place + 1,
                None => 0,
            },
            None => 0,
        }
    }

    /// The choices once the skybox with the given number is picked: zero is
    /// the plain background, and a number past the list picks nothing.
    pub open spec fn with_skybox_number(self, number: int) -> Choices {
        if number == 0 {
            Choices { skybox: None, ..self }
        } else if 0 < number <= self.skyboxes.len() {
            Choices { skybox: Some(self.skyboxes[number - 1]), ..self }
        } else {
            self
        }
    }
}

/// What the user has chosen.
#[derive(Debug)]
pub struct ConfigState {
    /// The chosen model's path.
    pub model_path: Option<String>,
    /// The paths of the models on offer.
    pub available_models: Vec<String>,
    /// How the model turns.
    pub rotation_mode: RotationMode,
    /// How the model is lit.
    pub lighting_mode: LightingMode,
    /// The chosen skybox's path; `None` is the plain background.
    pub skybox_path: Option<String>,
    /// The paths of the skyboxes on offer.
    pub available_skyboxes: Vec<String>,
}

impl View for ConfigState {
    type V = Choices;

    open spec fn view(&self) -> Choices {
        Choices {
            model: text_of(self.model_path),
            models: texts(self.available_models@),
            rotation_mode: self.rotation_mode,
            lighting_mode: self.lighting_mode,
            skybox: text_of(self.skybox_path),
            skyboxes: texts(self.available_skyboxes@),
        }
    }
}

/// A list of paths once more.
fn clone_paths(paths: &Vec<String>) -> (copy: Vec<String>)
    ensures
        texts(copy@) == texts(paths@),
{
    let mut copy: Vec<String> = Vec::new();
    let mut i: usize = 0;
    while i < paths.len()
        invariant
            i <= paths.len(),
            copy@.len() == i,
            forall|k: int| 0 <= k < i ==> (#[trigger] copy@[k])@ == paths@[k]@,
        decreases paths.len() - i,
    {
        copy.push(paths[i].clone());
        i += 1;
    }
    assert(texts(copy@) =~= texts(paths@));
    copy
}

/// A path once more, if there is one.
fn clone_path(path: &Option<String>) -> (copy: Option<String>)
    ensures
        text_of(copy) == text_of(*path),
{
    match path {
        Some(p) => Some(p.clone()),
        None => None,
    }
}

impl Default for ConfigState {
    fn default() -> (state: Self)
        ensures
            state@ == ConfigState::fresh(),
    {
        ConfigState::new()
    }
}

impl Clone for ConfigState {
    fn clone(&self) -> (copy: Self)
        ensures
            copy@ == self@,
    {
        ConfigState {
            model_path: clone_path(&self.model_path),
            available_models: clone_paths(&self.available_models),
            rotation_mode: self.rotation_mode,
            lighting_mode: self.lighting_mode,
            skybox_path: clone_path(&self.skybox_path),
            available_skyboxes: clone_paths(&self.available_skyboxes),
        }
    }
}

/// The first place at which a path stands in a list.
fn position(list: &Vec<String>, path: &String) -> (place: Option<usize>)
    ensures
        (match place {
            Some(p) => Some(p as int),
            None => None,
        }) == first_place(texts(list@), path@),
        place matches Some(p) ==> p < list.len() && list@[p as int]@ == path@,
{
    let mut i: usize = 0;
    while i < list.len()
        invariant
            i <= list.len(),
            first_place(texts(list@).take(i as int), path@) is None,
        decreases list.len() - i,
    {
        proof {
            let shorter = texts(list@).take(i as int);
            let longer = texts(list@).take(i + 1);
            assert(longer.drop_last() =~= shorter);
            assert(longer.last() == list@[i as int]@);
        }
        if list[i] == *path {
            proof {
                lemma_first_place_extends(texts(list@), i + 1, path@);
            }
            return Some(i);
        }
        i += 1;
    }
    assert(texts(list@).take(list.len() as int) =~= texts(list@));
    None
}

/// A place found among the first entries of a list is the place in the
/// whole list.
pub proof fn lemma_first_place_extends(list: Seq<Seq<char>>, shorter: int, wanted: Seq<char>)
    requires
        0 <= shorter <= list.len(),
        first_place(list.take(shorter), wanted) is Some,
    ensures
        first_place(list, wanted) == first_place(list.take(shorter), wanted),
    decreases list.len() - shorter,
{
    if shorter < list.len() {
        assert(list.take(shorter + 1).drop_last() =~= list.take(shorter));
        lemma_first_place_extends(list, shorter + 1, wanted);
    } else {
        assert(list.take(shorter) =~= list);
    }
}

/// The first place of an entry is a place in the list where that entry
/// stands, and the entry stands nowhere before it. Where there is no first
/// place, the entry stands nowhere.
pub proof fn lemma_first_place(list: Seq<Seq<char>>, wanted: Seq<char>)
    ensures
        match first_place(list, wanted) {
            Some(place) => {
                &&& 0 <= place < list.len()
                &&& list[place] == wanted
                &&& forall|k: int| 0 <= k < place ==> list[k] != wanted
            },
            None => forall|k: int| 0 <= k < list.len() ==> list[k] != wanted,
        },
    decreases list.len(),
{
    if list.len() > 0 {
        let shorter = list.drop_last();
        lemma_first_place(shorter, wanted);
        assert(forall|k: int| 0 <= k < shorter.len() ==> #[trigger] list[k] == shorter[k]);
    }
}

impl ConfigState {
    /// The choices before anything is chosen or on offer.
    pub open spec fn fresh() -> Choices {
        Choices {
            model: None,
            models: Seq::empty(),
            rotation_mode: RotationMode::AxisY,
            lighting_mode: LightingMode::Diffuse,
            skybox: None,
            skyboxes: Seq::empty(),
        }
    }

    /// Nothing chosen and nothing on offer; the model turns about the Y
    /// axis under diffuse light.
    pub fn new() -> (state: Self)
        ensures
            state@ == ConfigState::fresh(),
    {
        let state = ConfigState {
            model_path: None,
            available_models: Vec::new(),
            rotation_mode: RotationMode::AxisY,
            lighting_mode: LightingMode::Diffuse,
            skybox_path: None,
            available_skyboxes: Vec::new(),
        };
        assert(state@.models =~= Seq::empty());
        assert(state@.skyboxes =~= Seq::empty());
        state
    }

    /// Takes over the list of models found. A chosen model that is still in
    /// the list stays chosen; otherwise the first of the list is chosen.
    pub fn refresh_models(&mut self, found: Vec<String>)
        ensures
            final(self)@ == old(self)@.with_models(texts(found@)),
    {
        let keep = match &self.model_path {
            Some(path) => position(&found, path).is_some(),
            None => false,
        };
        if !keep {
            if found.len() > 0 {
                self.model_path = Some(found[0].clone());
            } else {
                self.model_path = None;
            }
        }
        self.available_models = found;
    }

    /// The place of the chosen model in the list of models.
    pub fn selected_model_index(&self) -> (index: Option<usize>)
        ensures
            (match index {
                Some(i) => Some(i as int),
                None => None,
            }) == self@.model_place(),
    {
        match &self.model_path {
            Some(path) => position(&self.available_models, path),
            None => None,
        }
    }

    /// Chooses the model at `index` of the list; an index past the list
    /// changes nothing.
    pub fn select_model(&mut self, index: usize)
        ensures
            final(self)@ == old(self)@.with_model_at(index as int),
    {
        if index < self.available_models.len() {
            self.model_path = Some(self.available_models[index].clone());
        }
    }

    /// Takes over the list of skyboxes found. A chosen skybox that is no
    /// longer in the list gives way to the plain background.
    pub fn refresh_skyboxes(&mut self, found: Vec<String>)
        ensures
            final(self)@ == old(self)@.with_skyboxes(texts(found@)),
    {
        let keep = match &self.skybox_path {
            Some(path) => position(&found, path).is_some(),
            None => false,
        };
        if !keep {
            self.skybox_path = None;
        }
        self.available_skyboxes = found;
    }

    /// The number of the chosen skybox: zero for the plain background, else
    /// one more than its place in the list.
    pub fn selected_skybox_index(&self) -> (number: usize)
        ensures
            number == self@.skybox_number(),
    {
        match &self.skybox_path {
            None => 0,
            Some(path) => match position(&self.available_skyboxes, path) {
                Some(place) => place + 1,
                None => 0,
            },
        }
    }

    /// Chooses the skybox with the given number: zero is the plain
    /// background, and a number past the list changes nothing.
    pub fn select_skybox(&mut self, number: usize)
        ensures
            final(self)@ == old(self)@.with_skybox_number(number as int),
    {
        if number == 0 {
            self.skybox_path = None;
        } else if number <= self.available_skyboxes.len() {
            self.skybox_path = Some(self.available_skyboxes[number - 1].clone());
        }
    }
}

/// After the list of models is taken over, the chosen model is one of the
/// list, and none is chosen only where the list is empty.
pub proof fn lemma_refreshed_model_is_on_offer(before: Choices, found: Seq<Seq<char>>)
    ensures
        ({
            let after = before.with_models(found);
            match after.model {
                Some(m) => first_place(found, m) is Some,
                None => found.len() == 0,
            }
        }),
{
    lemma_first_place(found, found[0]);
}

/// After the list of skyboxes is taken over, a chosen skybox is one of the
/// list.
pub proof fn lemma_refreshed_skybox_is_on_offer(before: Choices, found: Seq<Seq<char>>)
    ensures
        before.with_skyboxes(found).skybox matches Some(s) ==> first_place(found, s) is Some,
{
}

/// Choosing a model by its place and asking for the place of the chosen
/// model gives the first place that holds the same path, which is the place
/// chosen or one before it.
pub proof fn lemma_select_then_index(before: Choices, index: int)
    requires
        0 <= index < before.models.len(),
    ensures
        ({
            let after = before.with_model_at(index);
            &&& after.model_place() matches Some(place)
            &&& 0 <= place <= index
            &&& after.models[place] == before.models[index]
        }),
{
    lemma_first_place(before.models, before.models[index]);
}

/// Choosing a skybox by its number and asking for the number of the chosen
/// skybox gives zero for zero, and otherwise a number that holds the same
/// path.
pub proof fn lemma_select_then_skybox_number(before: Choices, number: int)
    requires
        0 <= number <= before.skyboxes.len(),
    ensures
        ({
            let after = before.with_skybox_number(number);
            if number == 0 {
                after.skybox_number() == 0
            } else {
                &&& 0 < after.skybox_number() <= number
                &&& after.skyboxes[after.skybox_number() - 1] == before.skyboxes[number - 1]
            }
        }),
{
    if number > 0 {
        lemma_first_place(before.skyboxes, before.skyboxes[number - 1]);
    }
}

} // verus!
