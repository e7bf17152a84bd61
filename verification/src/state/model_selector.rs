//! Model selector state for the footer.

use vstd::prelude::*;
use crate::strs::to_owned;

verus! {

/// Model selector state for footer UI
#[derive(Debug, Clone, Default)]
pub struct ModelSelectorState {
    /// Currently selected model
    pub current_model: String,
    /// Available models
    pub available_models: Vec<String>,
    /// Currently selected agent (optional)
    pub current_agent: Option<String>,
}

/// The models offered out of the box.
pub open spec fn default_models() -> Seq<Seq<char>> {
    seq!["GLM-4.7"@, "Gemini 3 Pro"@, "Gemini 3 Flash"@]
}

impl ModelSelectorState {
    pub open spec fn models_view(&self) -> Seq<Seq<char>> {
        self.available_models@.map_values(|m: String| m@)
    }

    pub fn new(current_model: String) -> (s: Self)
        ensures
            s.current_model == current_model,
            s.models_view() == default_models(),
            s.current_agent.is_none(),
    {
        let mut models: Vec<String> = Vec::new();
        models.push(to_owned("GLM-4.7"));
        models.push(to_owned("Gemini 3 Pro"));
        models.push(to_owned("Gemini 3 Flash"));
        let s = ModelSelectorState { current_model, available_models: models, current_agent: None };
        assert(s.models_view() =~= default_models());
        s
    }

    /// Get display name for current model
    pub fn display_name(&self) -> (r: &str)
        ensures
            r@ == self.current_model@,
    {
        self.current_model.as_str()
    }

    /// Select a model by name; names that are not offered are ignored.
    pub fn select_model(&mut self, model: String)
        ensures
            final(self).available_models@ == old(self).available_models@,
            final(self).current_agent == old(self).current_agent,
            if old(self).models_view().contains(model@) {
                final(self).current_model == model
            } else {
                final(self).current_model == old(self).current_model
            },
    {
        let n = self.available_models.len();
        let mut i: usize = 0;
        while i < n
            invariant
                n == self.available_models@.len(),
                *self == *old(self),
                i <= n,
                forall|j: int| 0 <= j < i ==> self.available_models@[j]@ != model@,
            decreases n - i,
        {
            if self.available_models[i] == model {
                assert(self.models_view()[i as int] == model@);
                self.current_model = model;
                return;
            }
            i = i + 1;
        }
        assert(!self.models_view().contains(model@)) by {
            if self.models_view().contains(model@) {
                let k = choose|k: int| 0 <= k < self.models_view().len() && self.models_view()[k] == model@;
                assert(self.available_models@[k]@ == model@);
            }
        }
    }

    /// Get available models
    pub fn models(&self) -> (r: &[String])
        ensures
            r@ == self.available_models@,
    {
        self.available_models.as_slice()
    }

    /// Set current agent
    pub fn set_agent(&mut self, agent: String)
        ensures
            final(self).current_agent == Some(agent),
            final(self).current_model == old(self).current_model,
            final(self).available_models@ == old(self).available_models@,
    {
        self.current_agent = Some(agent);
    }

    /// Clear current agent
    pub fn clear_agent(&mut self)
        ensures
            final(self).current_agent.is_none(),
            final(self).current_model == old(self).current_model,
            final(self).available_models@ == old(self).available_models@,
    {
        self.current_agent = None;
    }
}

} // verus!
