//! The loaded models, by name.

use vstd::prelude::*;
use crate::config::{ModelConfig, ModelDefinition};
use crate::prompt::{ChatTemplate, ChatTemplateView};
use crate::text::same_text;

verus! {

/// What the library reads of a loaded model.
#[derive(Clone, Debug)]
pub struct ModelState {
    pub config: ModelConfig,
    pub chat_template: ChatTemplate,
}

/// The mathematical value of a [`ModelState`].
pub struct ModelStateView {
    pub config: ModelConfig,
    pub chat_template: ChatTemplateView,
}

impl View for ModelState {
    type V = ModelStateView;

    open spec fn view(&self) -> ModelStateView {
        ModelStateView { config: self.config, chat_template: self.chat_template@ }
    }
}

/// The loaded models. No name occurs twice.
#[derive(Debug)]
pub struct ModelManager {
    names: Vec<String>,
    states: Vec<ModelState>,
}

/// The mathematical value of a [`ModelManager`]: the names in the order
/// in which they were first registered, each with its model.
pub struct ManagerView {
    pub names: Seq<Seq<char>>,
    pub states: Seq<ModelStateView>,
}

impl View for ModelManager {
    type V = ManagerView;

    closed spec fn view(&self) -> ManagerView {
        ManagerView {
            names: Seq::new(self.names@.len(), |i: int| self.names@[i]@),
            states: Seq::new(self.states@.len(), |i: int| self.states@[i]@),
        }
    }
}

impl ManagerView {
    /// A manager without models.
    pub open spec fn empty() -> ManagerView {
        ManagerView { names: Seq::empty(), states: Seq::empty() }
    }

    /// Every name has its model and no name occurs twice.
    pub open spec fn wf(self) -> bool {
        &&& self.names.len() == self.states.len()
        &&& forall|i: int, j: int| 0 <= i < j < self.names.len() ==> self.names[i] != self.names[j]
    }

    /// Whether a model named `name` is loaded.
    pub open spec fn has(self, name: Seq<char>) -> bool {
        exists|i: int| 0 <= i < self.names.len() && self.names[i] == name
    }

    /// The position of the model named `name`.
    pub open spec fn position(self, name: Seq<char>) -> int {
        choose|i: int| 0 <= i < self.names.len() && self.names[i] == name
    }

    /// The manager after `state` was registered as `name`: in the place of
    /// the model that had the name, or behind all others.
    pub open spec fn register(self, name: Seq<char>, state: ModelStateView) -> ManagerView {
        if self.has(name) {
            ManagerView { names: self.names, states: self.states.update(self.position(name), state) }
        } else {
            ManagerView { names: self.names.push(name), states: self.states.push(state) }
        }
    }

    /// The manager that holds `defs`, registered in order.
    pub open spec fn loaded(defs: Seq<ModelDefinition>) -> ManagerView
        decreases defs.len(),
    {
        if defs.len() == 0 {
            ManagerView::empty()
        } else {
            ManagerView::loaded(defs.drop_last()).register(
                defs.last().name@,
                ModelStateView { config: defs.last().config, chat_template: defs.last().chat_template@ },
            )
        }
    }
}

/// Registering keeps a manager well formed.
pub proof fn lemma_register_keeps_wf(m: ManagerView, name: Seq<char>, state: ModelStateView)
    requires
        m.wf(),
    ensures
        m.register(name, state).wf(),
        m.register(name, state).has(name),
{
    let after = m.register(name, state);
    if m.has(name) {
        assert(after.names[m.position(name)] == name);
    } else {
        assert(after.names[m.names.len() as int] == name);
    }
}

/// A manager loaded from a list of definitions is well formed.
pub proof fn lemma_loaded_is_wf(defs: Seq<ModelDefinition>)
    ensures
        ManagerView::loaded(defs).wf(),
    decreases defs.len(),
{
    if defs.len() > 0 {
        lemma_loaded_is_wf(defs.drop_last());
        lemma_register_keeps_wf(
            ManagerView::loaded(defs.drop_last()),
            defs.last().name@,
            ModelStateView { config: defs.last().config, chat_template: defs.last().chat_template@ },
        );
    }
}

impl ModelManager {
    /// A manager without models.
    pub fn new() -> (r: Self)
        ensures
            r@ == ManagerView::empty(),
            r@.wf(),
    {
        let r = ModelManager { names: Vec::new(), states: Vec::new() };
        assert(r@.names =~= Seq::<Seq<char>>::empty());
        assert(r@.states =~= Seq::<ModelStateView>::empty());
        r
    }

    /// The number of models.
    pub fn len(&self) -> (r: usize)
        ensures
            r == self@.names.len(),
    {
        self.names.len()
    }

    /// The first place of a model named `name`, if one is loaded.
    pub fn find(&self, name: &str) -> (r: Option<usize>)
        ensures
            match r {
                Some(i) => {
                    &&& i < self@.names.len()
                    &&& self@.names[i as int] == name@
                    &&& forall|j: int| 0 <= j < i ==> self@.names[j] != name@
                },
                None => !self@.has(name@),
            },
    {
        let mut i: usize = 0;
        while i < self.names.len()
            invariant
                i <= self.names.len(),
                forall|j: int| 0 <= j < i ==> self@.names[j] != name@,
            decreases self.names.len() - i,
        {
            if same_text(self.names[i].as_str(), name) {
                return Some(i);
            }
            i += 1;
        }
        None
    }

    /// The model named `name`, if it is loaded.
    pub fn get(&self, name: &str) -> (r: Option<&ModelState>)
        requires
            self@.wf(),
        ensures
            match r {
                Some(state) => self@.has(name@) && state@ == self@.states[self@.position(name@)],
                None => !self@.has(name@),
            },
    {
        match self.find(name) {
            Some(i) => {
                assert(self@.names[self@.position(name@)] == name@);
                Some(&self.states[i])
            },
            None => None,
        }
    }

    /// The name of the model at place `i`.
    pub fn name_at(&self, i: usize) -> (r: &String)
        requires
            i < self@.names.len(),
        ensures
            r@ == self@.names[i as int],
    {
        &self.names[i]
    }

    /// The model at place `i`.
    pub fn state_at(&self, i: usize) -> (r: &ModelState)
        requires
            self@.wf(),
            i < self@.names.len(),
        ensures
            r@ == self@.states[i as int],
    {
        &self.states[i]
    }

    /// Registers `state` as `name`, in the place of the model that had the
    /// name or behind all others.
    pub fn register(&mut self, name: String, state: ModelState)
        requires
            old(self)@.wf(),
        ensures
            final(self)@ == old(self)@.register(name@, state@),
            final(self)@.wf(),
    {
        proof {
            lemma_register_keeps_wf(self@, name@, state@);
        }
        match self.find(name.as_str()) {
            Some(i) => {
                assert(self@.names[self@.position(name@)] == name@);
                self.states[i] = state;
                assert(self@.states =~= old(self)@.states.update(i as int, state@));
            },
            None => {
                self.names.push(name);
                self.states.push(state);
                assert(self@.names =~= old(self)@.names.push(name@));
                assert(self@.states =~= old(self)@.states.push(state@));
            },
        }
    }
}

/// Whether a model named `model_name` is loaded.
pub fn has_model(model_manager: &ModelManager, model_name: &String) -> (r: bool)
    ensures
        r == model_manager@.has(model_name@),
{
    model_manager.find(model_name.as_str()).is_some()
}

/// Registers the models of a configuration, in order. Of two definitions
/// with one name the later one stands.
pub fn load_models(models: Vec<ModelDefinition>) -> (r: ModelManager)
    ensures
        r@ == ManagerView::loaded(models@),
        r@.wf(),
{
    let mut manager = ModelManager::new();
    let mut i: usize = 0;
    while i < models.len()
        invariant
            i <= models.len(),
            manager@.wf(),
            manager@ == ManagerView::loaded(models@.take(i as int)),
        decreases models.len() - i,
    {
        let definition = &models[i];
        proof {
            assert(models@.take(i + 1).drop_last() =~= models@.take(i as int));
        }
        let state = ModelState { config: definition.config, chat_template: definition.chat_template.duplicate() };
        manager.register(definition.name.clone(), state);
        i += 1;
    }
    assert(models@.take(models.len() as int) =~= models@);
    manager
}

} // verus!
