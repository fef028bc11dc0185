//! The rules for editing the settings record: custom vocabulary, rewrite
//! models and execution modes.
//!
//! Every edit either applies in full or refuses and leaves the record as it
//! was.

use vstd::prelude::*;
use crate::config::settings::{
    default_custom_words, default_words, mode_ids, model_ids, service_for_url, standard_id,
    standard_mode, AppSettings, AppSettingsView, ExecutionMode, ExecutionModeView, LlmModel,
    LlmModelView, LlmServiceType,
};
use crate::text::{conjoin, first_match, opt_text, position_of, same_text, texts};

verus! {

/// Why an edit of the settings was refused.
#[derive(Debug, Clone, Copy, PartialEq, Eq, Structural)]
pub enum SettingsError {
    /// No rewrite model has the identifier.
    ModelNotFound,
    /// The rewrite model is named by an execution mode.
    ModelInUse,
    /// No execution mode has the identifier.
    ModeNotFound,
    /// The built-in standard mode cannot be changed or removed.
    StandardModeProtected,
}

/// The test that a text is not `word`.
pub open spec fn other_than(word: Seq<char>) -> spec_fn(Seq<char>) -> bool {
    |w: Seq<char>| w != word
}

/// The test that a model's identifier is not `id`.
pub open spec fn model_other_than(id: Seq<char>) -> spec_fn(LlmModelView) -> bool {
    |m: LlmModelView| m.id != id
}

/// The test that a mode's identifier is not `id`.
pub open spec fn mode_other_than(id: Seq<char>) -> spec_fn(ExecutionModeView) -> bool {
    |m: ExecutionModeView| m.id != id
}

/// Some execution mode names the model `id`.
pub open spec fn model_in_use(modes: Seq<ExecutionModeView>, id: Seq<char>) -> bool {
    exists|i: int| 0 <= i < modes.len() && (#[trigger] modes[i]).llm_model_id == Some(id)
}

/// A hexadecimal identifier that is new with overwhelming probability.
///
/// Trusted: formats `uuid::Uuid::new_v4()` with its `Display`
/// implementation, which writes the hyphenated form: 36 characters. The
/// value itself is random, so nothing else is claimed of it.
#[verifier::external_body]
fn random_uuid() -> (id: String)
    ensures
        id@.len() == 36,
{
    uuid::Uuid::new_v4().to_string()
}

/// A fresh identifier for a rewrite model: `llm_` and 36 more characters.
pub fn new_model_id() -> (id: String)
    ensures
        id@.len() == "llm_"@.len() + 36,
        id@.subrange(0, "llm_"@.len() as int) == "llm_"@,
{
    let uuid = random_uuid();
    let id = conjoin("llm_", uuid.as_str());
    assert(id@.subrange(0, "llm_"@.len() as int) =~= "llm_"@);
    id
}

/// A fresh identifier for an execution mode: `mode_` and 36 more characters.
pub fn new_mode_id() -> (id: String)
    ensures
        id@.len() == "mode_"@.len() + 36,
        id@.subrange(0, "mode_"@.len() as int) == "mode_"@,
{
    let uuid = random_uuid();
    let id = conjoin("mode_", uuid.as_str());
    assert(id@.subrange(0, "mode_"@.len() as int) =~= "mode_"@);
    id
}

impl AppSettings {
    /// Adds a word to the custom vocabulary unless it is there already.
    /// Returns whether the vocabulary changed.
    pub fn add_custom_word(&mut self, word: String) -> (added: bool)
        ensures
            added == !old(self)@.custom_words.contains(word@),
            final(self)@ == (AppSettingsView {
                custom_words: if added {
                    old(self)@.custom_words.push(word@)
                } else {
                    old(self)@.custom_words
                },
                ..old(self)@
            }),
    {
        let found = position_of(&self.custom_words, word.as_str());
        proof {
            let words = texts(self.custom_words@);
            if found is None {
                assert(!words.contains(word@));
            } else {
                assert(words[found->Some_0 as int] == word@);
            }
        }
        match found {
            Some(_) => false,
            None => {
                self.custom_words.push(word);
                assert(texts(self.custom_words@) =~= texts(old(self).custom_words@).push(word@));
                true
            },
        }
    }

    /// Removes every occurrence of a word from the custom vocabulary.
    pub fn remove_custom_word(&mut self, word: &str)
        ensures
            final(self)@ == (AppSettingsView {
                custom_words: old(self)@.custom_words.filter(other_than(word@)),
                ..old(self)@
            }),
    {
        let ghost all = texts(self.custom_words@);
        let ghost keep = other_than(word@);
        let mut kept: Vec<String> = Vec::new();
        let mut i: usize = 0;
        proof {
            reveal(Seq::filter);
        }
        while i < self.custom_words.len()
            invariant
                i <= self.custom_words.len(),
                all == texts(self.custom_words@),
                keep == other_than(word@),
                texts(kept@) == all.take(i as int).filter(keep),
            decreases self.custom_words.len() - i,
        {
            proof {
                reveal(Seq::filter);
                assert(all.take(i + 1).drop_last() =~= all.take(i as int));
                assert(all.take(i + 1).last() == self.custom_words[i as int]@);
                assert(all.take(i + 1).filter(keep) == if keep(self.custom_words[i as int]@) {
                    all.take(i as int).filter(keep).push(self.custom_words[i as int]@)
                } else {
                    all.take(i as int).filter(keep)
                });
            }
            if !same_text(self.custom_words[i].as_str(), word) {
                kept.push(self.custom_words[i].clone());
                assert(texts(kept@) =~= all.take(i as int).filter(keep).push(
                    self.custom_words[i as int]@,
                ));
            }
            i += 1;
        }
        assert(all.take(i as int) =~= all);
        self.custom_words = kept;
    }

    /// Empties the custom vocabulary.
    pub fn clear_custom_words(&mut self)
        ensures
            final(self)@ == (AppSettingsView { custom_words: Seq::empty(), ..old(self)@ }),
    {
        self.custom_words = Vec::new();
        assert(texts(self.custom_words@) =~= Seq::empty());
    }

    /// Whether some execution mode names the model `id`.
    pub fn uses_model(&self, id: &str) -> (used: bool)
        ensures
            used == model_in_use(self@.execution_modes, id@),
    {
        let mut i: usize = 0;
        while i < self.execution_modes.len()
            invariant
                i <= self.execution_modes.len(),
                forall|j: int|
                    0 <= j < i ==> (#[trigger] self@.execution_modes[j]).llm_model_id != Some(id@),
            decreases self.execution_modes.len() - i,
        {
            let named = match &self.execution_modes[i].llm_model_id {
                Some(model_id) => same_text(model_id.as_str(), id),
                None => false,
            };
            assert(self@.execution_modes[i as int] == self.execution_modes[i as int]@);
            if named {
                return true;
            }
            i += 1;
        }
        false
    }

    /// Adds a rewrite model under the given identifier. Its service kind is
    /// detected from its address.
    pub fn add_llm_model(&mut self, id: String, name: String, api_url: String, model_name: String)
        ensures
            final(self)@ == (AppSettingsView {
                llm_models: old(self)@.llm_models.push(
                    LlmModelView {
                        id: id@,
                        name: name@,
                        api_url: api_url@,
                        model_name: model_name@,
                        service_type: service_for_url(api_url@),
                    },
                ),
                ..old(self)@
            }),
    {
        let service_type = LlmServiceType::from_url(api_url.as_str());
        self.llm_models.push(LlmModel { id, name, api_url, model_name, service_type });
        assert(self@.llm_models =~= old(self)@.llm_models.push(
            LlmModelView {
                id: id@,
                name: name@,
                api_url: api_url@,
                model_name: model_name@,
                service_type: service_for_url(api_url@),
            },
        ));
    }

    /// Replaces the name, address and model name of the first rewrite model
    /// with the given identifier.
    pub fn update_llm_model(&mut self, id: &str, name: String, api_url: String, model_name: String) -> (result:
        Result<(), SettingsError>)
        ensures
            match first_match(model_ids(old(self)@.llm_models), id@) {
                None => result == Err::<(), SettingsError>(SettingsError::ModelNotFound) && final(self)@ == old(self)@,
                Some(i) => result is Ok && final(self)@ == (AppSettingsView {
                    llm_models: old(self)@.llm_models.update(
                        i,
                        LlmModelView {
                            name: name@,
                            api_url: api_url@,
                            model_name: model_name@,
                            ..old(self)@.llm_models[i]
                        },
                    ),
                    ..old(self)@
                }),
            },
    {
        match self.find_model(id) {
            None => Err(SettingsError::ModelNotFound),
            Some(i) => {
                let updated = LlmModel {
                    id: self.llm_models[i].id.clone(),
                    name,
                    api_url,
                    model_name,
                    service_type: self.llm_models[i].service_type,
                };
                self.llm_models.set(i, updated);
                assert(self@.llm_models =~= old(self)@.llm_models.update(
                    i as int,
                    LlmModelView {
                        name: name@,
                        api_url: api_url@,
                        model_name: model_name@,
                        ..old(self)@.llm_models[i as int]
                    },
                ));
                Ok(())
            },
        }
    }

    /// Removes the rewrite models with the given identifier. A model that an
    /// execution mode names stays, and so does, trivially, one that does not
    /// exist.
    pub fn delete_llm_model(&mut self, id: &str) -> (result: Result<(), SettingsError>)
        ensures
            result == if model_in_use(old(self)@.execution_modes, id@) {
                Err::<(), SettingsError>(SettingsError::ModelInUse)
            } else if first_match(model_ids(old(self)@.llm_models), id@) is None {
                Err::<(), SettingsError>(SettingsError::ModelNotFound)
            } else {
                Ok::<(), SettingsError>(())
            },
            result is Err ==> final(self)@ == old(self)@,
            result is Ok ==> final(self)@ == (AppSettingsView {
                llm_models: old(self)@.llm_models.filter(model_other_than(id@)),
                ..old(self)@
            }),
    {
        if self.uses_model(id) {
            return Err(SettingsError::ModelInUse);
        }
        if self.find_model(id).is_none() {
            return Err(SettingsError::ModelNotFound);
        }
        let ghost all = self@.llm_models;
        let ghost keep = model_other_than(id@);
        let mut kept: Vec<LlmModel> = Vec::new();
        let mut i: usize = 0;
        proof {
            reveal(Seq::filter);
        }
        while i < self.llm_models.len()
            invariant
                i <= self.llm_models.len(),
                all == self@.llm_models,
                keep == model_other_than(id@),
                kept@.map_values(|m: LlmModel| m@) == all.take(i as int).filter(keep),
            decreases self.llm_models.len() - i,
        {
            proof {
                reveal(Seq::filter);
                assert(all.take(i + 1).drop_last() =~= all.take(i as int));
                assert(all.take(i + 1).last() == self.llm_models[i as int]@);
                assert(all.take(i + 1).filter(keep) == if keep(self.llm_models[i as int]@) {
                    all.take(i as int).filter(keep).push(self.llm_models[i as int]@)
                } else {
                    all.take(i as int).filter(keep)
                });
            }
            if !same_text(self.llm_models[i].id.as_str(), id) {
                kept.push(self.llm_models[i].clone());
                assert(kept@.map_values(|m: LlmModel| m@) =~= all.take(i as int).filter(keep).push(
                    self.llm_models[i as int]@,
                ));
            }
            i += 1;
        }
        assert(all.take(i as int) =~= all);
        self.llm_models = kept;
        Ok(())
    }

    /// Makes the mode with the given identifier the active one.
    pub fn set_active_mode(&mut self, mode_id: String) -> (result: Result<(), SettingsError>)
        ensures
            match first_match(mode_ids(old(self)@.execution_modes), mode_id@) {
                None => result == Err::<(), SettingsError>(SettingsError::ModeNotFound) && final(self)@ == old(self)@,
                Some(_) => result is Ok && final(self)@ == (AppSettingsView {
                    active_mode: mode_id@,
                    ..old(self)@
                }),
            },
    {
        match self.find_mode(mode_id.as_str()) {
            None => Err(SettingsError::ModeNotFound),
            Some(_) => {
                self.active_mode = mode_id;
                Ok(())
            },
        }
    }

    /// Adds an execution mode under the given identifier. A mode that names
    /// a rewrite model is refused unless that model is configured.
    pub fn add_execution_mode(
        &mut self,
        id: String,
        name: String,
        llm_model_id: Option<String>,
        system_prompt: String,
    ) -> (result: Result<(), SettingsError>)
        ensures
            result is Ok <==> (llm_model_id matches Some(model_id) ==> first_match(
                model_ids(old(self)@.llm_models),
                model_id@,
            ) is Some),
            result matches Err(e) ==> e == SettingsError::ModelNotFound && final(self)@ == old(self)@,
            result is Ok ==> final(self)@ == (AppSettingsView {
                execution_modes: old(self)@.execution_modes.push(
                    ExecutionModeView {
                        id: id@,
                        name: name@,
                        llm_model_id: opt_text(llm_model_id),
                        system_prompt: system_prompt@,
                    },
                ),
                ..old(self)@
            }),
    {
        let known = match &llm_model_id {
            Some(model_id) => self.find_model(model_id.as_str()).is_some(),
            None => true,
        };
        if !known {
            return Err(SettingsError::ModelNotFound);
        }
        self.execution_modes.push(ExecutionMode { id, name, llm_model_id, system_prompt });
        assert(self@.execution_modes =~= old(self)@.execution_modes.push(
            ExecutionModeView {
                id: id@,
                name: name@,
                llm_model_id: opt_text(llm_model_id),
                system_prompt: system_prompt@,
            },
        ));
        Ok(())
    }

    /// Replaces the name, model and prompt of the first execution mode with
    /// the given identifier. The standard mode is protected, and a mode is
    /// not made to name a rewrite model that is not configured.
    pub fn update_execution_mode(
        &mut self,
        id: &str,
        name: String,
        llm_model_id: Option<String>,
        system_prompt: String,
    ) -> (result: Result<(), SettingsError>)
        ensures
            result == mode_update_verdict(old(self)@, id@, opt_text(llm_model_id)),
            result is Err ==> final(self)@ == old(self)@,
            result is Ok ==> (first_match(mode_ids(old(self)@.execution_modes), id@) matches Some(i)
                && final(self)@ == (AppSettingsView {
                execution_modes: old(self)@.execution_modes.update(
                    i,
                    ExecutionModeView {
                        id: old(self)@.execution_modes[i].id,
                        name: name@,
                        llm_model_id: opt_text(llm_model_id),
                        system_prompt: system_prompt@,
                    },
                ),
                ..old(self)@
            })),
    {
        if same_text(id, "standard") {
            return Err(SettingsError::StandardModeProtected);
        }
        let known = match &llm_model_id {
            Some(model_id) => self.find_model(model_id.as_str()).is_some(),
            None => true,
        };
        if !known {
            return Err(SettingsError::ModelNotFound);
        }
        match self.find_mode(id) {
            None => Err(SettingsError::ModeNotFound),
            Some(i) => {
                let updated = ExecutionMode {
                    id: self.execution_modes[i].id.clone(),
                    name,
                    llm_model_id,
                    system_prompt,
                };
                self.execution_modes.set(i, updated);
                assert(self@.execution_modes =~= old(self)@.execution_modes.update(
                    i as int,
                    ExecutionModeView {
                        id: old(self)@.execution_modes[i as int].id,
                        name: name@,
                        llm_model_id: opt_text(llm_model_id),
                        system_prompt: system_prompt@,
                    },
                ));
                Ok(())
            },
        }
    }

    /// Removes the execution modes with the given identifier. The standard
    /// mode is protected. Where the removed mode was the active one, the
    /// standard mode becomes active.
    pub fn delete_execution_mode(&mut self, id: &str) -> (result: Result<(), SettingsError>)
        ensures
            result == if id@ == standard_id() {
                Err::<(), SettingsError>(SettingsError::StandardModeProtected)
            } else if first_match(mode_ids(old(self)@.execution_modes), id@) is None {
                Err::<(), SettingsError>(SettingsError::ModeNotFound)
            } else {
                Ok::<(), SettingsError>(())
            },
            result is Err ==> final(self)@ == old(self)@,
            result is Ok ==> final(self)@ == (AppSettingsView {
                execution_modes: old(self)@.execution_modes.filter(mode_other_than(id@)),
                active_mode: if old(self)@.active_mode == id@ {
                    standard_id()
                } else {
                    old(self)@.active_mode
                },
                ..old(self)@
            }),
    {
        if same_text(id, "standard") {
            return Err(SettingsError::StandardModeProtected);
        }
        if self.find_mode(id).is_none() {
            return Err(SettingsError::ModeNotFound);
        }
        let ghost all = self@.execution_modes;
        let ghost keep = mode_other_than(id@);
        let mut kept: Vec<ExecutionMode> = Vec::new();
        let mut i: usize = 0;
        proof {
            reveal(Seq::filter);
        }
        while i < self.execution_modes.len()
            invariant
                i <= self.execution_modes.len(),
                all == self@.execution_modes,
                keep == mode_other_than(id@),
                kept@.map_values(|m: ExecutionMode| m@) == all.take(i as int).filter(keep),
            decreases self.execution_modes.len() - i,
        {
            proof {
                reveal(Seq::filter);
                assert(all.take(i + 1).drop_last() =~= all.take(i as int));
                assert(all.take(i + 1).last() == self.execution_modes[i as int]@);
                assert(all.take(i + 1).filter(keep) == if keep(self.execution_modes[i as int]@) {
                    all.take(i as int).filter(keep).push(self.execution_modes[i as int]@)
                } else {
                    all.take(i as int).filter(keep)
                });
            }
            if !same_text(self.execution_modes[i].id.as_str(), id) {
                kept.push(self.execution_modes[i].clone());
                assert(kept@.map_values(|m: ExecutionMode| m@) =~= all.take(i as int).filter(
                    keep,
                ).push(self.execution_modes[i as int]@));
            }
            i += 1;
        }
        assert(all.take(i as int) =~= all);
        if same_text(self.active_mode.as_str(), id) {
            self.active_mode = "standard".to_owned();
        }
        self.execution_modes = kept;
        Ok(())
    }

    /// Brings a record read from an older file up to date: detects the
    /// service kind of every model still marked with the default kind, gives
    /// an empty vocabulary the default words, and puts the standard mode
    /// first where it is missing. Returns whether the record should be
    /// written back.
    pub fn migrate(&mut self) -> (save: bool)
        ensures
            final(self)@ == migrated(old(self)@),
            save == needs_migration(old(self)@),
    {
        let ghost before = self@;
        let mut save = false;
        let mut i: usize = 0;
        while i < self.llm_models.len()
            invariant
                i <= self.llm_models.len(),
                self.llm_models@.len() == before.llm_models.len(),
                forall|j: int|
                    0 <= j < i ==> (#[trigger] self.llm_models@[j])@ == detected(
                        before.llm_models[j],
                    ),
                forall|j: int|
                    i <= j < self.llm_models.len() ==> (#[trigger] self.llm_models@[j])@
                        == before.llm_models[j],
                save == exists|j: int|
                    0 <= j < i && (#[trigger] before.llm_models[j]).service_type
                        == LlmServiceType::OpenRouter,
                self@ == (AppSettingsView { llm_models: self@.llm_models, ..before }),
            decreases self.llm_models.len() - i,
        {
            assert(self.llm_models@[i as int]@ == before.llm_models[i as int]);
            if self.llm_models[i].service_type == LlmServiceType::OpenRouter {
                let model = &self.llm_models[i];
                let updated = LlmModel {
                    id: model.id.clone(),
                    name: model.name.clone(),
                    api_url: model.api_url.clone(),
                    model_name: model.model_name.clone(),
                    service_type: LlmServiceType::from_url(model.api_url.as_str()),
                };
                self.llm_models.set(i, updated);
                save = true;
            }
            i += 1;
        }
        assert(self@.llm_models =~= before.llm_models.map_values(|m: LlmModelView| detected(m)));
        if self.custom_words.len() == 0 {
            self.custom_words = default_custom_words();
            save = true;
        }
        if self.find_mode("standard").is_none() {
            self.execution_modes.insert(0, ExecutionMode::standard());
            assert(self@.execution_modes =~= seq![standard_mode()] + before.execution_modes);
            save = true;
        }
        save
    }
}

/// What becomes of a request to change the mode `id` so that it names the
/// model `llm_model_id`.
pub open spec fn mode_update_verdict(
    cfg: AppSettingsView,
    id: Seq<char>,
    llm_model_id: Option<Seq<char>>,
) -> Result<(), SettingsError> {
    if id == standard_id() {
        Err(SettingsError::StandardModeProtected)
    } else if (llm_model_id matches Some(model_id) && first_match(
        model_ids(cfg.llm_models),
        model_id,
    ) is None) {
        Err(SettingsError::ModelNotFound)
    } else if first_match(mode_ids(cfg.execution_modes), id) is None {
        Err(SettingsError::ModeNotFound)
    } else {
        Ok(())
    }
}

/// A model with its service kind detected from its address where it still
/// carries the default kind.
pub open spec fn detected(model: LlmModelView) -> LlmModelView {
    if model.service_type == LlmServiceType::OpenRouter {
        LlmModelView { service_type: service_for_url(model.api_url), ..model }
    } else {
        model
    }
}

/// A settings record brought up to date.
pub open spec fn migrated(cfg: AppSettingsView) -> AppSettingsView {
    AppSettingsView {
        llm_models: cfg.llm_models.map_values(|m: LlmModelView| detected(m)),
        custom_words: if cfg.custom_words.len() == 0 {
            default_words()
        } else {
            cfg.custom_words
        },
        execution_modes: if first_match(mode_ids(cfg.execution_modes), standard_id()) is None {
            seq![standard_mode()] + cfg.execution_modes
        } else {
            cfg.execution_modes
        },
        ..cfg
    }
}

/// Whether bringing a record up to date calls for writing it back: a model
/// carries the default service kind, the vocabulary is empty, or the
/// standard mode is missing.
pub open spec fn needs_migration(cfg: AppSettingsView) -> bool {
    ||| exists|j: int|
        0 <= j < cfg.llm_models.len() && (#[trigger] cfg.llm_models[j]).service_type
            == LlmServiceType::OpenRouter
    ||| cfg.custom_words.len() == 0
    ||| first_match(mode_ids(cfg.execution_modes), standard_id()) is None
}

/// The standard mode is among the modes.
pub open spec fn has_standard_mode(modes: Seq<ExecutionModeView>) -> bool {
    exists|i: int| 0 <= i < modes.len() && (#[trigger] modes[i]).id == standard_id()
}

/// The standard mode always exists: migration provides it, and no edit of
/// the modes takes it away. Adding a mode keeps it, changing another mode
/// keeps it, and removing the modes with another identifier keeps it.
pub proof fn law_standard_mode_always_exists(
    cfg: AppSettingsView,
    id: Seq<char>,
    mode: ExecutionModeView,
    i: int,
)
    ensures
        has_standard_mode(migrated(cfg).execution_modes),
        has_standard_mode(cfg.execution_modes) ==> has_standard_mode(
            cfg.execution_modes.push(mode),
        ),
        has_standard_mode(cfg.execution_modes) && 0 <= i < cfg.execution_modes.len() && mode.id
            == cfg.execution_modes[i].id ==> has_standard_mode(
            cfg.execution_modes.update(i, mode),
        ),
        has_standard_mode(cfg.execution_modes) && id != standard_id() ==> has_standard_mode(
            cfg.execution_modes.filter(mode_other_than(id)),
        ),
{
    let modes = cfg.execution_modes;
    let ids = mode_ids(modes);
    if first_match(ids, standard_id()) is None {
        let longer = seq![standard_mode()] + modes;
        assert(longer[0].id == standard_id());
    } else {
        let k = choose|k: int| 0 <= k < ids.len() && ids[k] == standard_id();
        assert(modes[k].id == standard_id());
    }
    if has_standard_mode(modes) {
        let k = choose|k: int| 0 <= k < modes.len() && (#[trigger] modes[k]).id == standard_id();
        assert(modes.push(mode)[k].id == standard_id());
        if 0 <= i < modes.len() && mode.id == modes[i].id {
            assert(modes.update(i, mode)[k].id == standard_id());
        }
        if id != standard_id() {
            let keep = mode_other_than(id);
            assert(keep(modes[k]));
            modes.lemma_filter_contains(keep, k);
            let kept = modes.filter(keep);
            let j = choose|j: int| 0 <= j < kept.len() && kept[j] == modes[k];
            assert(kept[j].id == standard_id());
        }
    }
}

} // verus!
