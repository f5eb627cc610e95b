//! The model catalogue that the app server offers: its built-in presets,
//! and the models that configured providers list.

use vstd::prelude::*;

use crate::text::{trim, trim_str};

verus! {

/// How much a model reasons before it answers; `Disabled` is no reasoning.
#[derive(Debug, Clone, Copy, PartialEq, Eq)]
pub enum ReasoningEffort {
    Disabled,
    Minimal,
    Low,
    Medium,
    High,
    XHigh,
}

/// A reasoning effort that a preset offers, with its description.
#[derive(Debug, Clone, PartialEq, Eq)]
pub struct ReasoningEffortPreset {
    pub effort: ReasoningEffort,
    pub description: String,
}

/// A reasoning effort as the catalogue shows it.
#[derive(Debug, Clone, PartialEq, Eq)]
pub struct ReasoningEffortOption {
    pub reasoning_effort: ReasoningEffort,
    pub description: String,
}

/// `option` shows the reasoning effort `preset`.
pub open spec fn is_effort_option_of(option: ReasoningEffortOption, preset: ReasoningEffortPreset) -> bool {
    option.reasoning_effort == preset.effort && option.description == preset.description
}

/// The reasoning efforts of a preset as the catalogue shows them, in order.
pub fn reasoning_efforts_from_preset(efforts: Vec<ReasoningEffortPreset>) -> (res: Vec<ReasoningEffortOption>)
    ensures
        res@.len() == efforts@.len(),
        forall|i: int| 0 <= i < efforts@.len() ==> is_effort_option_of(#[trigger] res@[i], efforts@[i]),
{
    let ghost input = efforts@;
    let mut options: Vec<ReasoningEffortOption> = Vec::new();
    for preset in it: efforts.into_iter()
        invariant
            it.seq() == input,
            options@.len() == it.index(),
            forall|i: int| 0 <= i < it.index() ==> is_effort_option_of(#[trigger] options@[i], input[i]),
    {
        options.push(ReasoningEffortOption { reasoning_effort: preset.effort, description: preset.description });
    }
    options
}


/// A kind of input a model accepts.
#[derive(Debug, Clone, Copy, PartialEq, Eq)]
pub enum InputModality {
    Text,
    Image,
}

/// The newer model that a preset points its users to.
#[derive(Debug, Clone, PartialEq, Eq)]
pub struct ModelUpgrade {
    pub id: String,
    pub upgrade_copy: Option<String>,
    pub model_link: Option<String>,
    pub migration_markdown: Option<String>,
}

/// An upgrade as the catalogue shows it.
#[derive(Debug, Clone, PartialEq, Eq)]
pub struct ModelUpgradeInfo {
    pub model: String,
    pub upgrade_copy: Option<String>,
    pub model_link: Option<String>,
    pub migration_markdown: Option<String>,
}

/// The notice shown to users about the availability of a model.
#[derive(Debug, Clone, PartialEq, Eq)]
pub struct ModelAvailabilityNux {
    pub message: String,
}

/// A service tier that a preset offers.
#[derive(Debug, Clone, PartialEq, Eq)]
pub struct ServiceTierPreset {
    pub id: String,
    pub name: String,
    pub description: String,
}

/// A service tier as the catalogue shows it.
#[derive(Debug, Clone, PartialEq, Eq)]
pub struct ModelServiceTier {
    pub id: String,
    pub name: String,
    pub description: String,
}

/// A built-in model preset.
#[derive(Debug, Clone, PartialEq, Eq)]
pub struct ModelPreset {
    pub id: String,
    pub model: String,
    pub upgrade: Option<ModelUpgrade>,
    pub availability_nux: Option<ModelAvailabilityNux>,
    pub display_name: String,
    pub description: String,
    pub show_in_picker: bool,
    pub supported_reasoning_efforts: Vec<ReasoningEffortPreset>,
    pub default_reasoning_effort: ReasoningEffort,
    pub input_modalities: Vec<InputModality>,
    pub supports_personality: bool,
    pub additional_speed_tiers: Vec<String>,
    pub service_tiers: Vec<ServiceTierPreset>,
    pub default_service_tier: Option<String>,
    pub is_default: bool,
}

/// A model of the catalogue.
#[derive(Debug, Clone, PartialEq, Eq)]
pub struct Model {
    pub id: String,
    pub model: String,
    pub upgrade: Option<String>,
    pub upgrade_info: Option<ModelUpgradeInfo>,
    pub availability_nux: Option<ModelAvailabilityNux>,
    pub display_name: String,
    pub description: String,
    pub hidden: bool,
    pub supported_reasoning_efforts: Vec<ReasoningEffortOption>,
    pub default_reasoning_effort: ReasoningEffort,
    pub input_modalities: Vec<InputModality>,
    pub supports_personality: bool,
    pub additional_speed_tiers: Vec<String>,
    pub service_tiers: Vec<ModelServiceTier>,
    pub default_service_tier: Option<String>,
    pub is_default: bool,
}

/// A model that a configured provider lists.
#[derive(Debug, Clone, PartialEq, Eq)]
pub struct ProviderCatalogModel {
    pub provider_id: String,
    pub provider_name: String,
    pub model_id: String,
}

/// `tier` shows the service tier `preset`.
pub open spec fn is_service_tier_of(tier: ModelServiceTier, preset: ServiceTierPreset) -> bool {
    tier.id == preset.id && tier.name == preset.name && tier.description == preset.description
}

/// `info` shows the upgrade `upgrade`.
pub open spec fn is_upgrade_info_of(info: ModelUpgradeInfo, upgrade: ModelUpgrade) -> bool {
    &&& info.model == upgrade.id
    &&& info.upgrade_copy == upgrade.upgrade_copy
    &&& info.model_link == upgrade.model_link
    &&& info.migration_markdown == upgrade.migration_markdown
}

/// `m` is the catalogue entry of the preset `p`: the preset's fields carried
/// over, its upgrade shown by id and in full, and hidden exactly when the
/// preset is not shown in the picker.
pub open spec fn is_model_of_preset(m: Model, p: ModelPreset) -> bool {
    &&& m.id == p.id
    &&& m.model == p.model
    &&& match p.upgrade {
        Some(u) => m.upgrade == Some(u.id) && (m.upgrade_info matches Some(info)
            && is_upgrade_info_of(info, u)),
        None => m.upgrade is None && m.upgrade_info is None,
    }
    &&& m.availability_nux == p.availability_nux
    &&& m.display_name == p.display_name
    &&& m.description == p.description
    &&& m.hidden == !p.show_in_picker
    &&& m.supported_reasoning_efforts@.len() == p.supported_reasoning_efforts@.len()
    &&& forall|i: int|
        0 <= i < p.supported_reasoning_efforts@.len() ==> is_effort_option_of(
            #[trigger] m.supported_reasoning_efforts@[i],
            p.supported_reasoning_efforts@[i],
        )
    &&& m.default_reasoning_effort == p.default_reasoning_effort
    &&& m.input_modalities == p.input_modalities
    &&& m.supports_personality == p.supports_personality
    &&& m.additional_speed_tiers == p.additional_speed_tiers
    &&& m.service_tiers@.len() == p.service_tiers@.len()
    &&& forall|i: int|
        0 <= i < p.service_tiers@.len() ==> is_service_tier_of(
            #[trigger] m.service_tiers@[i],
            p.service_tiers@[i],
        )
    &&& m.default_service_tier == p.default_service_tier
    &&& m.is_default == p.is_default
}

/// The service tiers of a preset as the catalogue shows them, in order.
fn service_tiers_from_preset(tiers: Vec<ServiceTierPreset>) -> (res: Vec<ModelServiceTier>)
    ensures
        res@.len() == tiers@.len(),
        forall|i: int| 0 <= i < tiers@.len() ==> is_service_tier_of(#[trigger] res@[i], tiers@[i]),
{
    let ghost input = tiers@;
    let mut out: Vec<ModelServiceTier> = Vec::new();
    for tier in it: tiers.into_iter()
        invariant
            it.seq() == input,
            out@.len() == it.index(),
            forall|i: int| 0 <= i < it.index() ==> is_service_tier_of(#[trigger] out@[i], input[i]),
    {
        out.push(ModelServiceTier { id: tier.id, name: tier.name, description: tier.description });
    }
    out
}

/// The catalogue entry of a built-in preset.
pub fn model_from_preset(preset: ModelPreset) -> (res: Model)
    ensures
        is_model_of_preset(res, preset),
{
    let (upgrade, upgrade_info) = match preset.upgrade {
        Some(u) => {
            let id = u.id.clone();
            (
                Some(id),
                Some(
                    ModelUpgradeInfo {
                        model: u.id,
                        upgrade_copy: u.upgrade_copy,
                        model_link: u.model_link,
                        migration_markdown: u.migration_markdown,
                    },
                ),
            )
        },
        None => (None, None),
    };
    Model {
        id: preset.id,
        model: preset.model,
        upgrade,
        upgrade_info,
        availability_nux: preset.availability_nux,
        display_name: preset.display_name,
        description: preset.description,
        hidden: !preset.show_in_picker,
        supported_reasoning_efforts: reasoning_efforts_from_preset(preset.supported_reasoning_efforts),
        default_reasoning_effort: preset.default_reasoning_effort,
        input_modalities: preset.input_modalities,
        supports_personality: preset.supports_personality,
        additional_speed_tiers: preset.additional_speed_tiers,
        service_tiers: service_tiers_from_preset(preset.service_tiers),
        default_service_tier: preset.default_service_tier,
        is_default: preset.is_default,
    }
}


/// The input kinds a model accepts unless its entry says otherwise.
pub open spec fn default_modalities() -> Seq<InputModality> {
    seq![InputModality::Text, InputModality::Image]
}

/// The input kinds a model accepts unless its entry says otherwise: text
/// and images.
pub fn default_input_modalities() -> (res: Vec<InputModality>)
    ensures
        res@ == default_modalities(),
{
    vec![InputModality::Text, InputModality::Image]
}

/// The name under which a provider is shown: its name, or its id where the
/// name is blank.
pub open spec fn provider_display(c: ProviderCatalogModel) -> Seq<char> {
    if trim(c.provider_name@).len() == 0 {
        c.provider_id@
    } else {
        c.provider_name@
    }
}

/// The catalogue id of a provider's model: the provider id, a slash, and
/// the model id.
pub open spec fn namespaced_id(c: ProviderCatalogModel) -> Seq<char> {
    c.provider_id@ + "/"@ + c.model_id@
}

/// `m` is the catalogue entry of the provider's model `c`: listed under its
/// namespaced id, named by the model id, described by the provider, shown,
/// with reasoning controls off and nothing else offered.
pub open spec fn is_model_of_provider_model(m: Model, c: ProviderCatalogModel) -> bool {
    &&& m.id@ == namespaced_id(c)
    &&& m.model@ == namespaced_id(c)
    &&& m.upgrade is None
    &&& m.upgrade_info is None
    &&& m.availability_nux is None
    &&& m.display_name == c.model_id
    &&& m.description@ == provider_display(c) + " model"@
    &&& !m.hidden
    &&& m.supported_reasoning_efforts@.len() == 1
    &&& m.supported_reasoning_efforts@[0].reasoning_effort == ReasoningEffort::Disabled
    &&& m.supported_reasoning_efforts@[0].description@ == "No reasoning controls"@
    &&& m.default_reasoning_effort == ReasoningEffort::Disabled
    &&& m.input_modalities@ == default_modalities()
    &&& !m.supports_personality
    &&& m.additional_speed_tiers@.len() == 0
    &&& m.service_tiers@.len() == 0
    &&& m.default_service_tier is None
    &&& !m.is_default
}

/// The catalogue entry of a model that a provider lists.
pub fn model_from_provider_model(provider_model: ProviderCatalogModel) -> (res: Model)
    ensures
        is_model_of_provider_model(res, provider_model),
{
    let ProviderCatalogModel { provider_id, provider_name, model_id } = provider_model;
    let display: &str = if trim_str(provider_name.as_str()).is_empty() {
        provider_id.as_str()
    } else {
        provider_name.as_str()
    };
    let mut description = String::from_str(display);
    description.append(" model");
    let mut namespaced = provider_id.clone();
    namespaced.append("/");
    namespaced.append(model_id.as_str());
    let no_reasoning = ReasoningEffortOption {
        reasoning_effort: ReasoningEffort::Disabled,
        description: String::from_str("No reasoning controls"),
    };
    Model {
        id: namespaced.clone(),
        model: namespaced,
        upgrade: None,
        upgrade_info: None,
        availability_nux: None,
        display_name: model_id,
        description,
        hidden: false,
        supported_reasoning_efforts: vec![no_reasoning],
        default_reasoning_effort: ReasoningEffort::Disabled,
        input_modalities: default_input_modalities(),
        supports_personality: false,
        additional_speed_tiers: Vec::new(),
        service_tiers: Vec::new(),
        default_service_tier: None,
        is_default: false,
    }
}


/// The presets whose picker flag is `shown`, in order.
pub open spec fn presets_shown(presets: Seq<ModelPreset>, shown: bool) -> Seq<ModelPreset>
    decreases presets.len(),
{
    if presets.len() == 0 {
        Seq::empty()
    } else {
        let before = presets_shown(presets.drop_last(), shown);
        if presets.last().show_in_picker == shown {
            before.push(presets.last())
        } else {
            before
        }
    }
}

/// `models` is the catalogue: the entries of the presets shown in the
/// picker, in order; then those of the providers' models, in order; then,
/// only when hidden models are asked for, those of the other presets.
pub open spec fn is_catalogue(
    models: Seq<Model>,
    presets: Seq<ModelPreset>,
    include_hidden: bool,
    provider_models: Seq<ProviderCatalogModel>,
) -> bool {
    let visible = presets_shown(presets, true);
    let hidden = presets_shown(presets, false);
    let v = visible.len();
    let n = provider_models.len();
    &&& models.len() == v + n + (if include_hidden {
        hidden.len()
    } else {
        0
    })
    &&& forall|i: int| 0 <= i < v ==> is_model_of_preset(#[trigger] models[i], visible[i])
    &&& forall|i: int|
        0 <= i < n ==> is_model_of_provider_model(#[trigger] models[v + i], provider_models[i])
    &&& include_hidden ==> forall|i: int|
        0 <= i < hidden.len() ==> is_model_of_preset(#[trigger] models[v + n + i], hidden[i])
}

/// The catalogue built from the presets and the providers' models.
pub fn supported_models_from_presets(
    presets: Vec<ModelPreset>,
    include_hidden: bool,
    provider_models: Vec<ProviderCatalogModel>,
) -> (res: Vec<Model>)
    ensures
        is_catalogue(res@, presets@, include_hidden, provider_models@),
{
    let ghost input = presets@;
    let ghost providers = provider_models@;
    let mut models: Vec<Model> = Vec::new();
    let mut hidden_presets: Vec<ModelPreset> = Vec::new();
    for preset in it: presets.into_iter()
        invariant
            it.seq() == input,
            it.index() <= input.len(),
            models@.len() == presets_shown(input.take(it.index() as int), true).len(),
            forall|j: int|
                0 <= j < models@.len() ==> is_model_of_preset(
                    #[trigger] models@[j],
                    presets_shown(input.take(it.index() as int), true)[j],
                ),
            include_hidden ==> hidden_presets@ == presets_shown(
                input.take(it.index() as int),
                false,
            ),
    {
        let ghost k = it.index() as int;
        proof {
            assert(input.take(k + 1).drop_last() =~= input.take(k));
            assert(input.take(k + 1).last() == preset);
        }
        if preset.show_in_picker {
            models.push(model_from_preset(preset));
        } else if include_hidden {
            hidden_presets.push(preset);
        }
    }
    proof {
        assert(input.take(input.len() as int) =~= input);
    }
    let ghost v = models@.len() as int;
    let ghost visible_models = models@;
    for provider_model in it: provider_models.into_iter()
        invariant
            it.seq() == providers,
            it.index() <= providers.len(),
            v == visible_models.len(),
            models@.len() == v + it.index(),
            models@.subrange(0, v) == visible_models,
            forall|j: int|
                0 <= j < it.index() ==> is_model_of_provider_model(
                    #[trigger] models@[v + j],
                    providers[j],
                ),
    {
        models.push(model_from_provider_model(provider_model));
        proof {
            assert(models@.subrange(0, v) =~= visible_models);
        }
    }
    if include_hidden {
        let ghost hidden = hidden_presets@;
        let ghost before = models@;
        let ghost vn = models@.len() as int;
        for preset in it: hidden_presets.into_iter()
            invariant
                it.seq() == hidden,
                it.index() <= hidden.len(),
                vn == before.len(),
                models@.len() == vn + it.index(),
                models@.subrange(0, vn) == before,
                forall|j: int|
                    0 <= j < it.index() ==> is_model_of_preset(#[trigger] models@[vn + j], hidden[j]),
        {
            models.push(model_from_preset(preset));
            proof {
                assert(models@.subrange(0, vn) =~= before);
            }
        }
        proof {
            assert forall|i: int| 0 <= i < v implies is_model_of_preset(
                #[trigger] models@[i],
                presets_shown(input, true)[i],
            ) by {
                assert(models@[i] == before[i]);
                assert(before[i] == visible_models[i]);
            }
            assert forall|i: int| 0 <= i < providers.len() implies is_model_of_provider_model(
                #[trigger] models@[v + i],
                providers[i],
            ) by {
                assert(models@[v + i] == before[v + i]);
            }
        }
    } else {
        proof {
            assert forall|i: int| 0 <= i < v implies is_model_of_preset(
                #[trigger] models@[i],
                presets_shown(input, true)[i],
            ) by {
                assert(models@[i] == visible_models[i]);
            }
        }
    }
    models
}


proof fn lemma_presets_shown(presets: Seq<ModelPreset>, shown: bool)
    ensures
        forall|i: int|
            0 <= i < presets_shown(presets, shown).len() ==> (#[trigger] presets_shown(
                presets,
                shown,
            )[i]).show_in_picker == shown,
        presets_shown(presets, true).len() + presets_shown(presets, false).len() == presets.len(),
    decreases presets.len(),
{
    if presets.len() > 0 {
        lemma_presets_shown(presets.drop_last(), shown);
        lemma_presets_shown(presets.drop_last(), !shown);
    }
}

/// In the catalogue, the entries of the presets shown in the picker and of
/// the providers' models are not hidden, the entries after them are, and
/// there are such entries only when hidden models are asked for.
pub proof fn catalogue_hides_only_when_asked(
    models: Seq<Model>,
    presets: Seq<ModelPreset>,
    include_hidden: bool,
    provider_models: Seq<ProviderCatalogModel>,
)
    requires
        is_catalogue(models, presets, include_hidden, provider_models),
    ensures
        forall|i: int|
            0 <= i < presets_shown(presets, true).len() + provider_models.len() ==> !(
            #[trigger] models[i]).hidden,
        forall|i: int|
            presets_shown(presets, true).len() + provider_models.len() <= i < models.len()
                ==> (#[trigger] models[i]).hidden,
        !include_hidden ==> forall|i: int| 0 <= i < models.len() ==> !(#[trigger] models[i]).hidden,
{
    lemma_presets_shown(presets, true);
    lemma_presets_shown(presets, false);
    let v = presets_shown(presets, true).len() as int;
    let n = provider_models.len() as int;
    assert forall|i: int| 0 <= i < v + n implies !(#[trigger] models[i]).hidden by {
        if i < v {
            assert(is_model_of_preset(models[i], presets_shown(presets, true)[i]));
        } else {
            assert(is_model_of_provider_model(models[v + (i - v)], provider_models[i - v]));
        }
    }
    assert forall|i: int| v + n <= i < models.len() implies (#[trigger] models[i]).hidden by {
        assert(is_model_of_preset(models[v + n + (i - v - n)], presets_shown(presets, false)[i - v - n]));
    }
}

/// With hidden models asked for, the catalogue has one entry for each
/// preset and one for each provider's model.
pub proof fn catalogue_lists_every_preset(
    models: Seq<Model>,
    presets: Seq<ModelPreset>,
    provider_models: Seq<ProviderCatalogModel>,
)
    requires
        is_catalogue(models, presets, true, provider_models),
    ensures
        models.len() == presets.len() + provider_models.len(),
{
    lemma_presets_shown(presets, true);
}


/// An upgrade of the catalogue, as text.
#[verifier::ext_equal]
pub struct UpgradeInfoV {
    pub model: Seq<char>,
    pub upgrade_copy: Option<Seq<char>>,
    pub model_link: Option<Seq<char>>,
    pub migration_markdown: Option<Seq<char>>,
}

/// A model of the catalogue, as text: each string by its characters, each
/// list by its elements.
#[verifier::ext_equal]
pub struct ModelV {
    pub id: Seq<char>,
    pub model: Seq<char>,
    pub upgrade: Option<Seq<char>>,
    pub upgrade_info: Option<UpgradeInfoV>,
    pub availability_nux: Option<Seq<char>>,
    pub display_name: Seq<char>,
    pub description: Seq<char>,
    pub hidden: bool,
    pub supported_reasoning_efforts: Seq<(ReasoningEffort, Seq<char>)>,
    pub default_reasoning_effort: ReasoningEffort,
    pub input_modalities: Seq<InputModality>,
    pub supports_personality: bool,
    pub additional_speed_tiers: Seq<Seq<char>>,
    pub service_tiers: Seq<(Seq<char>, Seq<char>, Seq<char>)>,
    pub default_service_tier: Option<Seq<char>>,
    pub is_default: bool,
}

/// The text of an optional string.
pub open spec fn text_of(s: Option<String>) -> Option<Seq<char>> {
    match s {
        Some(t) => Some(t@),
        None => None,
    }
}

/// The text of a list of strings.
pub open spec fn texts_of(s: Seq<String>) -> Seq<Seq<char>> {
    s.map_values(|t: String| t@)
}

impl View for Model {
    type V = ModelV;

    open spec fn view(&self) -> ModelV {
        ModelV {
            id: self.id@,
            model: self.model@,
            upgrade: text_of(self.upgrade),
            upgrade_info: match self.upgrade_info {
                Some(info) => Some(
                    UpgradeInfoV {
                        model: info.model@,
                        upgrade_copy: text_of(info.upgrade_copy),
                        model_link: text_of(info.model_link),
                        migration_markdown: text_of(info.migration_markdown),
                    },
                ),
                None => None,
            },
            availability_nux: match self.availability_nux {
                Some(nux) => Some(nux.message@),
                None => None,
            },
            display_name: self.display_name@,
            description: self.description@,
            hidden: self.hidden,
            supported_reasoning_efforts: self.supported_reasoning_efforts@.map_values(
                |o: ReasoningEffortOption| (o.reasoning_effort, o.description@),
            ),
            default_reasoning_effort: self.default_reasoning_effort,
            input_modalities: self.input_modalities@,
            supports_personality: self.supports_personality,
            additional_speed_tiers: texts_of(self.additional_speed_tiers@),
            service_tiers: self.service_tiers@.map_values(
                |t: ModelServiceTier| (t.id@, t.name@, t.description@),
            ),
            default_service_tier: text_of(self.default_service_tier),
            is_default: self.is_default,
        }
    }
}

/// The catalogue entry of the preset `p`, as text.
pub open spec fn preset_entry(p: ModelPreset) -> ModelV {
    ModelV {
        id: p.id@,
        model: p.model@,
        upgrade: match p.upgrade {
            Some(u) => Some(u.id@),
            None => None,
        },
        upgrade_info: match p.upgrade {
            Some(u) => Some(
                UpgradeInfoV {
                    model: u.id@,
                    upgrade_copy: text_of(u.upgrade_copy),
                    model_link: text_of(u.model_link),
                    migration_markdown: text_of(u.migration_markdown),
                },
            ),
            None => None,
        },
        availability_nux: match p.availability_nux {
            Some(nux) => Some(nux.message@),
            None => None,
        },
        display_name: p.display_name@,
        description: p.description@,
        hidden: !p.show_in_picker,
        supported_reasoning_efforts: p.supported_reasoning_efforts@.map_values(
            |e: ReasoningEffortPreset| (e.effort, e.description@),
        ),
        default_reasoning_effort: p.default_reasoning_effort,
        input_modalities: p.input_modalities@,
        supports_personality: p.supports_personality,
        additional_speed_tiers: texts_of(p.additional_speed_tiers@),
        service_tiers: p.service_tiers@.map_values(
            |t: ServiceTierPreset| (t.id@, t.name@, t.description@),
        ),
        default_service_tier: text_of(p.default_service_tier),
        is_default: p.is_default,
    }
}

/// The catalogue entry of the provider's model `c`, as text.
pub open spec fn provider_entry(c: ProviderCatalogModel) -> ModelV {
    ModelV {
        id: namespaced_id(c),
        model: namespaced_id(c),
        upgrade: None,
        upgrade_info: None,
        availability_nux: None,
        display_name: c.model_id@,
        description: provider_display(c) + " model"@,
        hidden: false,
        supported_reasoning_efforts: seq![(ReasoningEffort::Disabled, "No reasoning controls"@)],
        default_reasoning_effort: ReasoningEffort::Disabled,
        input_modalities: default_modalities(),
        supports_personality: false,
        additional_speed_tiers: Seq::empty(),
        service_tiers: Seq::empty(),
        default_service_tier: None,
        is_default: false,
    }
}

proof fn lemma_preset_entry(m: Model, p: ModelPreset)
    requires
        is_model_of_preset(m, p),
    ensures
        m@ == preset_entry(p),
{
    assert(m@.supported_reasoning_efforts =~= preset_entry(p).supported_reasoning_efforts);
    assert(m@.service_tiers =~= preset_entry(p).service_tiers);
    assert(m@ =~= preset_entry(p));
}

proof fn lemma_provider_entry(m: Model, c: ProviderCatalogModel)
    requires
        is_model_of_provider_model(m, c),
    ensures
        m@ == provider_entry(c),
{
    assert(m@.supported_reasoning_efforts =~= provider_entry(c).supported_reasoning_efforts);
    assert(m@.additional_speed_tiers =~= Seq::<Seq<char>>::empty());
    assert(m@.service_tiers =~= Seq::<(Seq<char>, Seq<char>, Seq<char>)>::empty());
    assert(m@ =~= provider_entry(c));
}

/// The text of a list of models.
pub open spec fn catalogue_text(models: Seq<Model>) -> Seq<ModelV> {
    models.map_values(|m: Model| m@)
}

/// The catalogue, as text: the entries of the presets shown in the picker,
/// then those of the providers' models, then, when hidden models are asked
/// for, those of the other presets.
pub open spec fn expected_catalogue(
    presets: Seq<ModelPreset>,
    include_hidden: bool,
    provider_models: Seq<ProviderCatalogModel>,
) -> Seq<ModelV> {
    presets_shown(presets, true).map_values(|p: ModelPreset| preset_entry(p))
        + provider_models.map_values(|c: ProviderCatalogModel| provider_entry(c))
        + (if include_hidden {
        presets_shown(presets, false).map_values(|p: ModelPreset| preset_entry(p))
    } else {
        Seq::empty()
    })
}

/// A catalogue, read as text, is a function of the presets, the flag and
/// the providers' models.
pub proof fn catalogue_text_is_determined(
    models: Seq<Model>,
    presets: Seq<ModelPreset>,
    include_hidden: bool,
    provider_models: Seq<ProviderCatalogModel>,
)
    requires
        is_catalogue(models, presets, include_hidden, provider_models),
    ensures
        catalogue_text(models) == expected_catalogue(presets, include_hidden, provider_models),
{
    let visible = presets_shown(presets, true);
    let hidden = presets_shown(presets, false);
    let v = visible.len() as int;
    let n = provider_models.len() as int;
    let text = catalogue_text(models);
    let expected = expected_catalogue(presets, include_hidden, provider_models);
    assert forall|i: int| 0 <= i < text.len() implies #[trigger] text[i] == expected[i] by {
        if i < v {
            lemma_preset_entry(models[i], visible[i]);
        } else if i < v + n {
            assert(is_model_of_provider_model(models[v + (i - v)], provider_models[i - v]));
            lemma_provider_entry(models[i], provider_models[i - v]);
        } else {
            assert(is_model_of_preset(models[v + n + (i - v - n)], hidden[i - v - n]));
            lemma_preset_entry(models[i], hidden[i - v - n]);
        }
    }
    assert(text =~= expected);
}

/// Asking for hidden models only adds to the catalogue: read as text, the
/// catalogue without them is a prefix of the catalogue with them, and the
/// rest is the entries of the presets not shown in the picker, in order.
pub proof fn hidden_models_extend_catalogue(
    without_hidden: Seq<Model>,
    with_hidden: Seq<Model>,
    presets: Seq<ModelPreset>,
    provider_models: Seq<ProviderCatalogModel>,
)
    requires
        is_catalogue(without_hidden, presets, false, provider_models),
        is_catalogue(with_hidden, presets, true, provider_models),
    ensures
        catalogue_text(with_hidden).take(without_hidden.len() as int) == catalogue_text(
            without_hidden,
        ),
        catalogue_text(with_hidden).skip(without_hidden.len() as int) == presets_shown(
            presets,
            false,
        ).map_values(|p: ModelPreset| preset_entry(p)),
{
    catalogue_text_is_determined(without_hidden, presets, false, provider_models);
    catalogue_text_is_determined(with_hidden, presets, true, provider_models);
    let a = expected_catalogue(presets, false, provider_models);
    let b = expected_catalogue(presets, true, provider_models);
    assert(b.take(a.len() as int) =~= a);
    assert(b.skip(a.len() as int) =~= presets_shown(presets, false).map_values(
        |p: ModelPreset| preset_entry(p),
    ));
}


/// The entry of a preset keeps what the preset says of the model: its id,
/// model, display name and description unchanged, and one reasoning option
/// per effort the preset offers, with the same effort and description, in
/// the same order.
pub proof fn preset_entry_keeps_preset(m: Model, p: ModelPreset)
    requires
        is_model_of_preset(m, p),
    ensures
        m.id == p.id,
        m.model == p.model,
        m.display_name == p.display_name,
        m.description == p.description,
        m.hidden == !p.show_in_picker,
        m.supported_reasoning_efforts@.len() == p.supported_reasoning_efforts@.len(),
        forall|j: int|
            0 <= j < p.supported_reasoning_efforts@.len() ==> (
            #[trigger] m.supported_reasoning_efforts@[j]).reasoning_effort
                == p.supported_reasoning_efforts@[j].effort
                && m.supported_reasoning_efforts@[j].description
                == p.supported_reasoning_efforts@[j].description,
{
    assert forall|j: int| 0 <= j < p.supported_reasoning_efforts@.len() implies (
    #[trigger] m.supported_reasoning_efforts@[j]).reasoning_effort
        == p.supported_reasoning_efforts@[j].effort
        && m.supported_reasoning_efforts@[j].description
        == p.supported_reasoning_efforts@[j].description by {
        assert(is_effort_option_of(
            m.supported_reasoning_efforts@[j],
            p.supported_reasoning_efforts@[j],
        ));
    }
}

/// In the catalogue, the entry at the place of the i-th shown preset keeps
/// that preset's id, display name, description and reasoning efforts; the
/// entry after the shown presets at offset i is the i-th provider's model,
/// named `provider_id/model_id` and shown by `model_id`; and with hidden
/// models asked for, the entry after those at offset i keeps the i-th
/// hidden preset's fields.
pub proof fn catalogue_keeps_order_and_fields(
    models: Seq<Model>,
    presets: Seq<ModelPreset>,
    include_hidden: bool,
    provider_models: Seq<ProviderCatalogModel>,
)
    requires
        is_catalogue(models, presets, include_hidden, provider_models),
    ensures
        forall|i: int|
            0 <= i < presets_shown(presets, true).len() ==> {
                let p = presets_shown(presets, true)[i];
                &&& (#[trigger] models[i]).id == p.id
                &&& models[i].display_name == p.display_name
                &&& models[i].description == p.description
                &&& models[i].supported_reasoning_efforts@.len()
                    == p.supported_reasoning_efforts@.len()
                &&& forall|j: int|
                    0 <= j < p.supported_reasoning_efforts@.len() ==> (
                    #[trigger] models[i].supported_reasoning_efforts@[j]).reasoning_effort
                        == p.supported_reasoning_efforts@[j].effort
                        && models[i].supported_reasoning_efforts@[j].description
                        == p.supported_reasoning_efforts@[j].description
            },
        forall|i: int|
            0 <= i < provider_models.len() ==> {
                let m = #[trigger] models[presets_shown(presets, true).len() + i];
                &&& m.id@ == provider_models[i].provider_id@ + "/"@ + provider_models[i].model_id@
                &&& m.display_name == provider_models[i].model_id
            },
        include_hidden ==> forall|i: int|
            0 <= i < presets_shown(presets, false).len() ==> {
                let p = presets_shown(presets, false)[i];
                let m = #[trigger] models[presets_shown(presets, true).len()
                    + provider_models.len() + i];
                &&& m.id == p.id
                &&& m.display_name == p.display_name
                &&& m.description == p.description
                &&& m.supported_reasoning_efforts@.len() == p.supported_reasoning_efforts@.len()
            },
{
    let visible = presets_shown(presets, true);
    let hidden = presets_shown(presets, false);
    let v = visible.len() as int;
    let n = provider_models.len() as int;
    assert forall|i: int| 0 <= i < v implies {
        let p = visible[i];
        &&& (#[trigger] models[i]).id == p.id
        &&& models[i].display_name == p.display_name
        &&& models[i].description == p.description
        &&& models[i].supported_reasoning_efforts@.len() == p.supported_reasoning_efforts@.len()
        &&& forall|j: int|
            0 <= j < p.supported_reasoning_efforts@.len() ==> (
            #[trigger] models[i].supported_reasoning_efforts@[j]).reasoning_effort
                == p.supported_reasoning_efforts@[j].effort
                && models[i].supported_reasoning_efforts@[j].description
                == p.supported_reasoning_efforts@[j].description
    } by {
        preset_entry_keeps_preset(models[i], visible[i]);
    }
    assert forall|i: int| 0 <= i < n implies {
        let m = #[trigger] models[v + i];
        &&& m.id@ == provider_models[i].provider_id@ + "/"@ + provider_models[i].model_id@
        &&& m.display_name == provider_models[i].model_id
    } by {
        assert(is_model_of_provider_model(models[v + i], provider_models[i]));
    }
    if include_hidden {
        assert forall|i: int| 0 <= i < hidden.len() implies {
            let p = hidden[i];
            let m = #[trigger] models[v + n + i];
            &&& m.id == p.id
            &&& m.display_name == p.display_name
            &&& m.description == p.description
            &&& m.supported_reasoning_efforts@.len() == p.supported_reasoning_efforts@.len()
        } by {
            preset_entry_keeps_preset(models[v + n + i], hidden[i]);
        }
    }
}

} // verus!
