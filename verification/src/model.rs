//! The model and the thinking level of a session: selection, stepping and limits.

use crate::events::{AgentSessionEvent, ModelSelectSource};
use crate::messages::{Model, ModelThinkingLevel, ScopedModel, ThinkingLevelMap};
use crate::session::{
    AgentModel, AgentSession, Effect, SessionError, SessionModel, SessionSettings,
};
use crate::text;
use vstd::prelude::*;

verus! {

/// What came of a step through the models.
#[derive(Debug, PartialEq)]
pub struct ModelCycleResult {
    /// The model that is now selected.
    pub model: Model,
    /// The thinking level that is now in use.
    pub thinking_level: ModelThinkingLevel,
    /// Whether the step was through the models chosen for the session.
    pub is_scoped: bool,
}

/// The direction of a step.
#[derive(Clone, Copy, Debug, PartialEq, Eq, Structural)]
pub enum CycleDirection {
    Forward,
    Backward,
}

/// Why a model could not be selected.
#[derive(Debug, PartialEq)]
pub enum ModelError {
    /// There are no credentials for this provider and model.
    NoAuth(String, String),
    /// The change could not be stored.
    Session(SessionError),
}

/// The thinking levels in their order.
pub open spec fn level_at(rank: int) -> ModelThinkingLevel {
    if rank == 0 {
        ModelThinkingLevel::Off
    } else if rank == 1 {
        ModelThinkingLevel::Minimal
    } else if rank == 2 {
        ModelThinkingLevel::Low
    } else if rank == 3 {
        ModelThinkingLevel::Medium
    } else if rank == 4 {
        ModelThinkingLevel::High
    } else if rank == 5 {
        ModelThinkingLevel::Xhigh
    } else {
        ModelThinkingLevel::Max
    }
}

/// The place of a level in the order.
pub open spec fn rank_of(level: ModelThinkingLevel) -> int {
    match level {
        ModelThinkingLevel::Off => 0,
        ModelThinkingLevel::Minimal => 1,
        ModelThinkingLevel::Low => 2,
        ModelThinkingLevel::Medium => 3,
        ModelThinkingLevel::High => 4,
        ModelThinkingLevel::Xhigh => 5,
        ModelThinkingLevel::Max => 6,
    }
}

/// The levels in their order.
pub fn extended_thinking_levels() -> (r: Vec<ModelThinkingLevel>)
    ensures
        r@.len() == 7,
        forall|i: int| 0 <= i < 7 ==> #[trigger] r@[i] == level_at(i),
{
    vec![
        ModelThinkingLevel::Off,
        ModelThinkingLevel::Minimal,
        ModelThinkingLevel::Low,
        ModelThinkingLevel::Medium,
        ModelThinkingLevel::High,
        ModelThinkingLevel::Xhigh,
        ModelThinkingLevel::Max,
    ]
}

/// The place of a level in the order.
pub fn extended_level_index(level: ModelThinkingLevel) -> (r: usize)
    ensures
        r == rank_of(level),
{
    match level {
        ModelThinkingLevel::Off => 0,
        ModelThinkingLevel::Minimal => 1,
        ModelThinkingLevel::Low => 2,
        ModelThinkingLevel::Medium => 3,
        ModelThinkingLevel::High => 4,
        ModelThinkingLevel::Xhigh => 5,
        ModelThinkingLevel::Max => 6,
    }
}

/// The name of a level.
pub open spec fn level_name(level: ModelThinkingLevel) -> Seq<char> {
    match level {
        ModelThinkingLevel::Off => "off"@,
        ModelThinkingLevel::Minimal => "minimal"@,
        ModelThinkingLevel::Low => "low"@,
        ModelThinkingLevel::Medium => "medium"@,
        ModelThinkingLevel::High => "high"@,
        ModelThinkingLevel::Xhigh => "xhigh"@,
        ModelThinkingLevel::Max => "max"@,
    }
}

/// The name of a level.
pub fn level_str(level: ModelThinkingLevel) -> (r: &'static str)
    ensures
        r@ == level_name(level),
{
    match level {
        ModelThinkingLevel::Off => "off",
        ModelThinkingLevel::Minimal => "minimal",
        ModelThinkingLevel::Low => "low",
        ModelThinkingLevel::Medium => "medium",
        ModelThinkingLevel::High => "high",
        ModelThinkingLevel::Xhigh => "xhigh",
        ModelThinkingLevel::Max => "max",
    }
}

/// The name of a level, for a request.
pub fn thinking_level_str(level: ModelThinkingLevel) -> (r: Option<String>)
    ensures
        r is Some,
        r->0@ == level_name(level),
{
    Some(level_str(level).to_owned())
}

/// The level with this name.
pub open spec fn level_named(name: Seq<char>) -> Option<ModelThinkingLevel> {
    if name == "off"@ {
        Some(ModelThinkingLevel::Off)
    } else if name == "minimal"@ {
        Some(ModelThinkingLevel::Minimal)
    } else if name == "low"@ {
        Some(ModelThinkingLevel::Low)
    } else if name == "medium"@ {
        Some(ModelThinkingLevel::Medium)
    } else if name == "high"@ {
        Some(ModelThinkingLevel::High)
    } else if name == "xhigh"@ {
        Some(ModelThinkingLevel::Xhigh)
    } else if name == "max"@ {
        Some(ModelThinkingLevel::Max)
    } else {
        None
    }
}

/// The level with this name.
pub fn parse_thinking_level(raw: &str) -> (r: Option<ModelThinkingLevel>)
    ensures
        r == level_named(raw@),
{
    if text::same_text(raw, "off") {
        return Some(ModelThinkingLevel::Off);
    }
    if text::same_text(raw, "minimal") {
        return Some(ModelThinkingLevel::Minimal);
    }
    if text::same_text(raw, "low") {
        return Some(ModelThinkingLevel::Low);
    }
    if text::same_text(raw, "medium") {
        return Some(ModelThinkingLevel::Medium);
    }
    if text::same_text(raw, "high") {
        return Some(ModelThinkingLevel::High);
    }
    if text::same_text(raw, "xhigh") {
        return Some(ModelThinkingLevel::Xhigh);
    }
    if text::same_text(raw, "max") {
        return Some(ModelThinkingLevel::Max);
    }
    None
}

/// The names of the levels are all different, so a name that was written is read as its level, and
/// what is read as a level is its name.
pub proof fn law_level_names_read_back(level: ModelThinkingLevel, name: Seq<char>)
    ensures
        level_named(level_name(level)) == Some(level),
        level_named(name) == Some(level) ==> name == level_name(level),
{
    reveal_strlit("off");
    reveal_strlit("minimal");
    reveal_strlit("low");
    reveal_strlit("medium");
    reveal_strlit("high");
    reveal_strlit("xhigh");
    reveal_strlit("max");
    assert("off"@.len() == 3 && "low"@.len() == 3 && "max"@.len() == 3);
    assert("minimal"@.len() == 7 && "medium"@.len() == 6 && "high"@.len() == 4);
    assert("xhigh"@.len() == 5);
    assert("off"@[0] == 'o' && "low"@[0] == 'l' && "max"@[0] == 'm');
}

/// The same provider's model with the same id.
pub open spec fn same_identity(a: Model, b: Model) -> bool {
    a.id@ == b.id@ && a.provider@ == b.provider@
}

/// Whether two models are the same provider's with the same id.
pub fn models_are_equal(a: &Model, b: &Model) -> (r: bool)
    ensures
        r == same_identity(*a, *b),
{
    text::same_text(a.id.as_str(), b.id.as_str()) && text::same_text(
        a.provider.as_str(),
        b.provider.as_str(),
    )
}

/// Being the same model is an equivalence.
pub proof fn law_same_model_is_an_equivalence(a: Model, b: Model, c: Model)
    ensures
        same_identity(a, a),
        same_identity(a, b) ==> same_identity(b, a),
        same_identity(a, b) && same_identity(b, c) ==> same_identity(a, c),
{
}

/// The last entry of a level in a map, none where there is none.
pub open spec fn map_entry(
    entries: Seq<(ModelThinkingLevel, Option<String>)>,
    level: ModelThinkingLevel,
) -> Option<Option<String>>
    decreases entries.len(),
{
    if entries.len() == 0 {
        None
    } else if entries.last().0 == level {
        Some(entries.last().1)
    } else {
        map_entry(entries.drop_last(), level)
    }
}

/// A level is supported where the map names it; where the map does not speak of it, all but the two
/// highest are.
pub open spec fn supported_by_map(
    entries: Seq<(ModelThinkingLevel, Option<String>)>,
    level: ModelThinkingLevel,
) -> bool {
    match map_entry(entries, level) {
        Some(None) => false,
        Some(Some(_)) => true,
        None => level != ModelThinkingLevel::Xhigh && level != ModelThinkingLevel::Max,
    }
}

/// The map names the level.
pub open spec fn named_by_map(model: Model, level: ModelThinkingLevel) -> bool {
    model.thinking_level_map matches Some(map) && map_entry(map@, level) matches Some(Some(_))
}

/// A model that does not reason only supports no thinking; one that does supports all levels, or
/// what its map says.
pub open spec fn supports(model: Model, level: ModelThinkingLevel) -> bool {
    if !model.reasoning {
        level == ModelThinkingLevel::Off
    } else {
        match model.thinking_level_map {
            None => true,
            Some(map) => supported_by_map(map@, level),
        }
    }
}

/// The supported levels among the first `n`, in their order.
pub open spec fn supported_below(model: Model, n: int) -> Seq<ModelThinkingLevel>
    decreases n,
{
    if n <= 0 {
        seq![]
    } else if supports(model, level_at(n - 1)) {
        supported_below(model, n - 1).push(level_at(n - 1))
    } else {
        supported_below(model, n - 1)
    }
}

/// The supported levels, in their order.
pub open spec fn supported_levels(model: Model) -> Seq<ModelThinkingLevel> {
    supported_below(model, 7)
}

fn entry_of(map: &ThinkingLevelMap, level: ModelThinkingLevel) -> (r: Option<bool>)
    ensures
        r == match map_entry(map@, level) {
            Some(Some(_)) => Some(true),
            Some(None) => Some(false),
            None => None,
        },
{
    let mut i: usize = map.len();
    assert(map@.take(i as int) =~= map@);
    while i > 0
        invariant
            i <= map@.len(),
            map_entry(map@, level) == map_entry(map@.take(i as int), level),
        decreases i,
    {
        assert(map@.take(i as int).drop_last() =~= map@.take(i - 1));
        i -= 1;
        if map[i].0 == level {
            return Some(map[i].1.is_some());
        }
    }
    None
}

/// Whether a map supports a level.
pub fn level_supported_by_map(level: ModelThinkingLevel, map: &ThinkingLevelMap) -> (r: bool)
    ensures
        r == supported_by_map(map@, level),
{
    match entry_of(map, level) {
        Some(named) => named,
        None => level != ModelThinkingLevel::Xhigh && level != ModelThinkingLevel::Max,
    }
}

fn level_supported(model: &Model, level: ModelThinkingLevel) -> (r: bool)
    ensures
        r == supports(*model, level),
{
    if !model.reasoning {
        return level == ModelThinkingLevel::Off;
    }
    match &model.thinking_level_map {
        None => true,
        Some(map) => level_supported_by_map(level, map),
    }
}

/// The levels that a model supports.
pub fn supported_thinking_levels(model: &Model) -> (r: Vec<ModelThinkingLevel>)
    ensures
        r@ == supported_levels(*model),
{
    let all = extended_thinking_levels();
    let mut r: Vec<ModelThinkingLevel> = Vec::new();
    let mut i: usize = 0;
    while i < 7
        invariant
            i <= 7,
            all@.len() == 7,
            forall|k: int| 0 <= k < 7 ==> #[trigger] all@[k] == level_at(k),
            r@ == supported_below(*model, i as int),
        decreases 7 - i,
    {
        let level = all[i];
        if level_supported(model, level) {
            r.push(level);
        }
        i += 1;
    }
    r
}

proof fn lemma_supported_below(model: Model, n: int, level: ModelThinkingLevel)
    requires
        0 <= n <= 7,
    ensures
        supported_below(model, n).contains(level) <==> supports(model, level) && rank_of(level)
            < n,
        supported_below(model, n).len() <= n,
        forall|i: int|
            0 <= i < supported_below(model, n).len() ==> supports(
                model,
                #[trigger] supported_below(model, n)[i],
            ) && rank_of(supported_below(model, n)[i]) < n,
    decreases n,
{
    if n > 0 {
        lemma_supported_below(model, n - 1, level);
        let before = supported_below(model, n - 1);
        let here = supported_below(model, n);
        if supports(model, level_at(n - 1)) {
            assert(here == before.push(level_at(n - 1)));
            if before.contains(level) {
                let k = choose|k: int| 0 <= k < before.len() && before[k] == level;
                assert(here[k] == level);
            }
            if level == level_at(n - 1) {
                assert(here[here.len() - 1] == level);
            }
            if here.contains(level) && level != level_at(n - 1) {
                let k = choose|k: int| 0 <= k < here.len() && here[k] == level;
                assert(before[k] == level);
            }
        }
    }
}

/// The list of supported levels holds exactly the supported ones.
pub proof fn law_supported_levels_are_complete(model: Model, level: ModelThinkingLevel)
    ensures
        supported_levels(model).contains(level) <==> supports(model, level),
{
    lemma_supported_below(model, 7, level);
}

/// Some level is named by the map.
pub open spec fn has_named(model: Model) -> bool {
    exists|i: int| 0 <= i < 7 && #[trigger] named_by_map(model, level_at(i))
}

/// A level that a request may be moved to: it is supported, and where the map names levels it is one
/// of those.
pub open spec fn is_candidate(model: Model, level: ModelThinkingLevel) -> bool {
    supports(model, level) && (!has_named(model) || named_by_map(model, level))
}

/// The first candidate from a place on, 7 where there is none.
pub open spec fn candidate_up(model: Model, from: int) -> int
    decreases 7 - from,
{
    if from >= 7 {
        7
    } else if is_candidate(model, level_at(from)) {
        from
    } else {
        candidate_up(model, from + 1)
    }
}

/// The last candidate below a place, -1 where there is none.
pub open spec fn candidate_down(model: Model, below: int) -> int
    decreases below,
{
    if below <= 0 {
        -1
    } else if is_candidate(model, level_at(below - 1)) {
        below - 1
    } else {
        candidate_down(model, below - 1)
    }
}

/// The level in place of a requested one: the next candidate from it on, else the next below it,
/// else the lowest supported level, else none.
pub open spec fn clamped(model: Model, level: ModelThinkingLevel) -> ModelThinkingLevel {
    let up = candidate_up(model, rank_of(level));
    let down = candidate_down(model, rank_of(level));
    if up < 7 {
        level_at(up)
    } else if down >= 0 {
        level_at(down)
    } else if supported_levels(model).len() > 0 {
        supported_levels(model)[0]
    } else {
        ModelThinkingLevel::Off
    }
}

fn has_named_level(model: &Model) -> (r: bool)
    ensures
        r == has_named(*model),
{
    match &model.thinking_level_map {
        Some(map) => {
            let all = extended_thinking_levels();
            let mut i: usize = 0;
            while i < 7
                invariant
                    i <= 7,
                    all@.len() == 7,
                    forall|k: int| 0 <= k < 7 ==> #[trigger] all@[k] == level_at(k),
                    model.thinking_level_map == Some(*map),
                    forall|k: int| 0 <= k < i ==> !#[trigger] named_by_map(*model, level_at(k)),
                decreases 7 - i,
            {
                let entry = entry_of(map, all[i]);
                assert(all@[i as int] == level_at(i as int));
                if let Some(true) = entry {
                    assert(named_by_map(*model, level_at(i as int)));
                    return true;
                }
                assert(!named_by_map(*model, level_at(i as int)));
                i += 1;
            }
            false
        },
        None => false,
    }
}

fn level_is_candidate(model: &Model, named: bool, level: ModelThinkingLevel) -> (r: bool)
    requires
        named == has_named(*model),
    ensures
        r == is_candidate(*model, level),
{
    if !level_supported(model, level) {
        return false;
    }
    if !named {
        return true;
    }
    match &model.thinking_level_map {
        Some(map) => match entry_of(map, level) {
            Some(true) => true,
            _ => false,
        },
        None => false,
    }
}

/// Moves a level to one that the model supports.
pub fn clamp_thinking_level(model: &Model, level: ModelThinkingLevel) -> (r: ModelThinkingLevel)
    ensures
        r == clamped(*model, level),
{
    let all = extended_thinking_levels();
    let named: bool = has_named_level(model);
    let requested: usize = extended_level_index(level);
    let mut i: usize = requested;
    while i < 7
        invariant
            requested <= i <= 7,
            requested == rank_of(level),
            all@.len() == 7,
            forall|k: int| 0 <= k < 7 ==> #[trigger] all@[k] == level_at(k),
            named == has_named(*model),
            candidate_up(*model, requested as int) == candidate_up(*model, i as int),
        decreases 7 - i,
    {
        if level_is_candidate(model, named, all[i]) {
            return all[i];
        }
        i += 1;
    }
    let mut j: usize = requested;
    while j > 0
        invariant
            j <= requested <= 7,
            requested == rank_of(level),
            all@.len() == 7,
            forall|k: int| 0 <= k < 7 ==> #[trigger] all@[k] == level_at(k),
            named == has_named(*model),
            candidate_up(*model, requested as int) == 7,
            candidate_down(*model, requested as int) == candidate_down(*model, j as int),
        decreases j,
    {
        if level_is_candidate(model, named, all[j - 1]) {
            return all[j - 1];
        }
        j -= 1;
    }
    let available = supported_thinking_levels(model);
    if available.len() > 0 {
        available[0]
    } else {
        ModelThinkingLevel::Off
    }
}

proof fn lemma_candidate_up(model: Model, from: int)
    requires
        0 <= from <= 7,
    ensures
        from <= candidate_up(model, from) <= 7,
        candidate_up(model, from) < 7 ==> is_candidate(
            model,
            level_at(candidate_up(model, from)),
        ),
        candidate_up(model, from) == 7 ==> forall|k: int|
            from <= k < 7 ==> !is_candidate(model, #[trigger] level_at(k)),
    decreases 7 - from,
{
    if from < 7 && !is_candidate(model, level_at(from)) {
        lemma_candidate_up(model, from + 1);
    }
}

proof fn lemma_candidate_down(model: Model, below: int)
    requires
        0 <= below <= 7,
    ensures
        -1 <= candidate_down(model, below) < 7,
        candidate_down(model, below) >= 0 ==> is_candidate(
            model,
            level_at(candidate_down(model, below)),
        ),
        candidate_down(model, below) < 0 ==> forall|k: int|
            0 <= k < below ==> !is_candidate(model, #[trigger] level_at(k)),
    decreases below,
{
    if below > 0 && !is_candidate(model, level_at(below - 1)) {
        lemma_candidate_down(model, below - 1);
    }
}

/// A level that is moved ends on one that the model supports, wherever it supports any; moving it
/// again leaves it there; and a level that needs no moving stays.
pub proof fn law_clamped_level_is_supported(model: Model, level: ModelThinkingLevel)
    ensures
        supported_levels(model).len() > 0 ==> supports(model, clamped(model, level)),
        supported_levels(model).len() == 0 ==> clamped(model, level) == ModelThinkingLevel::Off,
        clamped(model, clamped(model, level)) == clamped(model, level),
        is_candidate(model, level) ==> clamped(model, level) == level,
{
    let r = rank_of(level);
    assert(level_at(r) == level);
    lemma_candidate_up(model, r);
    lemma_candidate_down(model, r);
    lemma_supported_below(model, 7, level);
    let c = clamped(model, level);
    let up = candidate_up(model, r);
    let down = candidate_down(model, r);
    assert(level_at(rank_of(c)) == c);
    lemma_candidate_up(model, rank_of(c));
    lemma_candidate_down(model, rank_of(c));
    if up == 7 && down < 0 {
        assert forall|k: int| 0 <= k < 7 implies !is_candidate(model, #[trigger] level_at(k)) by {}
        assert(candidate_up(model, rank_of(c)) == 7) by {
            let u = candidate_up(model, rank_of(c));
            if u < 7 {
                assert(is_candidate(model, level_at(u)));
            }
        }
        assert(candidate_down(model, rank_of(c)) < 0) by {
            let d = candidate_down(model, rank_of(c));
            if d >= 0 {
                assert(is_candidate(model, level_at(d)));
            }
        }
    }
    if supported_levels(model).len() == 0 {
        assert forall|k: int| 0 <= k < 7 implies !is_candidate(model, #[trigger] level_at(k)) by {
            lemma_supported_below(model, 7, level_at(k));
            if supports(model, level_at(k)) {
                assert(supported_levels(model).contains(level_at(k)));
            }
        }
    }
}

/// The level that a request for `level` ends on.
pub open spec fn effective_level(model: Model, level: ModelThinkingLevel) -> ModelThinkingLevel {
    if supports(model, level) {
        level
    } else {
        clamped(model, level)
    }
}

/// A session after a change of the thinking level: it is kept as the default where it means
/// anything, stored, and told.
pub open spec fn level_changed(s: SessionModel, effective: ModelThinkingLevel) -> SessionModel {
    SessionModel {
        agent: AgentModel { thinking_level: effective, ..s.agent },
        settings: if s.agent.model.reasoning || effective != ModelThinkingLevel::Off {
            SessionSettings { default_thinking_level: Some(effective), ..s.settings }
        } else {
            s.settings
        },
        ..s
    }.put(Effect::StoreThinkingLevel(effective)).put(
        Effect::Emit(AgentSessionEvent::ThinkingLevelChanged { level: effective }),
    ).put(Effect::ToExtensions(AgentSessionEvent::ThinkingLevelChanged { level: effective }))
}

/// A session after a request for a thinking level. Nothing happens where that is the level already.
pub open spec fn level_set(s: SessionModel, level: ModelThinkingLevel) -> SessionModel {
    let effective = effective_level(s.agent.model, level);
    if effective == s.agent.thinking_level {
        s
    } else {
        level_changed(s, effective)
    }
}

/// The level to ask for after a change of the model: the one chosen with it; else, where the model
/// before did not reason, the default of the settings or a medium one; else the present one.
pub open spec fn level_for_switch(
    s: SessionModel,
    scoped: Option<ModelThinkingLevel>,
) -> ModelThinkingLevel {
    match scoped {
        Some(level) => level,
        None => if !s.agent.model.reasoning {
            match s.settings.default_thinking_level {
                Some(level) => level,
                None => ModelThinkingLevel::Medium,
            }
        } else {
            s.agent.thinking_level
        },
    }
}

/// A session with another model.
pub open spec fn with_model(s: SessionModel, model: Model) -> SessionModel {
    SessionModel { agent: AgentModel { model, ..s.agent }, ..s }
}

/// A session whose defaults are this model's.
pub open spec fn with_default_model(s: SessionModel, model: Model) -> SessionModel {
    SessionModel {
        settings: SessionSettings {
            default_provider: Some(model.provider),
            default_model: Some(model.id),
            ..s.settings
        },
        ..s
    }
}

/// A session whose extensions were told of a selected model: where it is another one, and where any
/// wants to hear of it.
pub open spec fn select_told(
    s: SessionModel,
    next: Model,
    previous: Model,
    source: ModelSelectSource,
    has_handlers: bool,
) -> SessionModel {
    if same_identity(previous, next) || !has_handlers {
        s
    } else {
        s.put(
            Effect::TellExtensions(
                AgentSessionEvent::ModelSelect {
                    model: next,
                    previous_model: Some(previous),
                    source,
                },
            ),
        )
    }
}

/// A session after a step to a model.
pub open spec fn stepped_to(
    s: SessionModel,
    next: Model,
    level: Option<ModelThinkingLevel>,
    has_handlers: bool,
) -> SessionModel {
    let stored = with_model(s, next).put(
        Effect::StoreModelChange { provider: next.provider, model: next.id },
    );
    select_told(
        level_set(with_default_model(stored, next), level_for_switch(s, level)),
        next,
        s.agent.model,
        ModelSelectSource::Cycle,
        has_handlers,
    )
}

/// The place after a step: at the ends it goes round.
pub open spec fn stepped_index(i: int, len: int, direction: CycleDirection) -> int {
    match direction {
        CycleDirection::Forward => if i + 1 == len {
            0
        } else {
            i + 1
        },
        CycleDirection::Backward => if i == 0 {
            len - 1
        } else {
            i - 1
        },
    }
}

/// The place after `k` steps forward.
pub open spec fn stepped_times(i: int, len: int, k: nat) -> int
    decreases k,
{
    if k == 0 {
        i
    } else {
        stepped_index(stepped_times(i, len, (k - 1) as nat), len, CycleDirection::Forward)
    }
}

/// A step back undoes a step forward and the other way round, every step lands in the list, and as
/// many steps as the list is long lead back to the start.
pub proof fn law_steps_go_round(i: int, len: int)
    requires
        0 <= i < len,
    ensures
        0 <= stepped_index(i, len, CycleDirection::Forward) < len,
        0 <= stepped_index(i, len, CycleDirection::Backward) < len,
        stepped_index(
            stepped_index(i, len, CycleDirection::Forward),
            len,
            CycleDirection::Backward,
        ) == i,
        stepped_index(
            stepped_index(i, len, CycleDirection::Backward),
            len,
            CycleDirection::Forward,
        ) == i,
        stepped_times(i, len, len as nat) == i,
{
    lemma_stepped_times(i, len, len as nat);
}

proof fn lemma_stepped_times(i: int, len: int, k: nat)
    requires
        0 <= i < len,
        k <= len,
    ensures
        stepped_times(i, len, k) == if i + k < len {
            i + k
        } else {
            i + k - len
        },
    decreases k,
{
    if k > 0 {
        lemma_stepped_times(i, len, (k - 1) as nat);
    }
}

/// The place of the first of the models from `from` on that is `current`, the length where there is
/// none.
pub open spec fn model_position(models: Seq<ScopedModel>, current: Model, from: int) -> int
    decreases models.len() - from,
{
    if from >= models.len() {
        models.len() as int
    } else if same_identity(models[from].model, current) {
        from
    } else {
        model_position(models, current, from + 1)
    }
}

/// The place that a step leads to. Where the current model is not in the list, the step leads to the
/// first of the models chosen for the session; among the models of the runtime it is taken as from
/// the first.
pub open spec fn step_place(
    models: Seq<ScopedModel>,
    current: Model,
    direction: CycleDirection,
    is_scoped: bool,
) -> int {
    let i = model_position(models, current, 0);
    let len = models.len() as int;
    if i < len {
        stepped_index(i, len, direction)
    } else if is_scoped {
        0
    } else {
        stepped_index(0, len, direction)
    }
}

/// The model that a step leads to, none where there is no other.
pub open spec fn step_target(
    models: Seq<ScopedModel>,
    current: Model,
    direction: CycleDirection,
    is_scoped: bool,
) -> Option<ScopedModel> {
    if models.len() <= 1 {
        None
    } else {
        Some(models[step_place(models, current, direction, is_scoped)])
    }
}

/// A step from a model that was not chosen for the session leads to the first that was chosen, in
/// either direction.
pub proof fn law_scoped_steps_fall_back_to_the_first(
    models: Seq<ScopedModel>,
    current: Model,
    direction: CycleDirection,
)
    requires
        models.len() > 1,
        forall|i: int| 0 <= i < models.len() ==> !same_identity(#[trigger] models[i].model, current),
    ensures
        step_target(models, current, direction, true) == Some(models[0]),
{
    lemma_model_missing(models, current, 0);
}

proof fn lemma_model_missing(models: Seq<ScopedModel>, current: Model, from: int)
    requires
        0 <= from <= models.len(),
        forall|i: int| 0 <= i < models.len() ==> !same_identity(#[trigger] models[i].model, current),
    ensures
        model_position(models, current, from) == models.len(),
    decreases models.len() - from,
{
    if from < models.len() {
        assert(!same_identity(models[from].model, current));
        lemma_model_missing(models, current, from + 1);
    }
}

/// No model is in the list twice.
pub open spec fn all_different(models: Seq<ScopedModel>) -> bool {
    forall|i: int, j: int|
        0 <= i < j < models.len() ==> !same_identity(
            #[trigger] models[i].model,
            #[trigger] models[j].model,
        )
}

proof fn lemma_model_position(models: Seq<ScopedModel>, k: int, from: int)
    requires
        all_different(models),
        0 <= from <= k < models.len(),
    ensures
        model_position(models, models[k].model, from) == k,
    decreases k - from,
{
    if from < k {
        assert(!same_identity(models[from].model, models[k].model));
        lemma_model_position(models, k, from + 1);
    }
}

/// The other direction.
pub open spec fn opposite(direction: CycleDirection) -> CycleDirection {
    match direction {
        CycleDirection::Forward => CycleDirection::Backward,
        CycleDirection::Backward => CycleDirection::Forward,
    }
}

/// Where no model is in the list twice, a step goes from each to its neighbour, and a step in the
/// other direction leads back.
pub proof fn law_a_step_back_returns(
    models: Seq<ScopedModel>,
    k: int,
    direction: CycleDirection,
    is_scoped: bool,
)
    requires
        all_different(models),
        models.len() > 1,
        0 <= k < models.len(),
    ensures
        ({
            let n = stepped_index(k, models.len() as int, direction);
            &&& 0 <= n < models.len() && n != k
            &&& step_target(models, models[k].model, direction, is_scoped) == Some(models[n])
            &&& step_target(models, models[n].model, opposite(direction), is_scoped) == Some(
                models[k],
            )
        }),
{
    let len = models.len() as int;
    let n = stepped_index(k, len, direction);
    law_steps_go_round(k, len);
    lemma_model_position(models, k, 0);
    lemma_model_position(models, n, 0);
}

/// The models with credentials, in their order.
pub open spec fn authorized(models: Seq<ScopedModel>, has_auth: Seq<bool>) -> Seq<ScopedModel>
    decreases models.len(),
{
    if models.len() == 0 {
        seq![]
    } else if has_auth[models.len() - 1] {
        authorized(models.drop_last(), has_auth).push(models.last())
    } else {
        authorized(models.drop_last(), has_auth)
    }
}

/// Keeps the models with credentials. Without a runtime none is asked for, and all stay.
pub fn filter_scoped_by_auth(scoped: Vec<ScopedModel>, has_auth: Option<&Vec<bool>>) -> (r: Vec<
    ScopedModel,
>)
    requires
        has_auth matches Some(auth) ==> auth@.len() == scoped@.len(),
    ensures
        r@ == match has_auth {
            Some(auth) => authorized(scoped@, auth@),
            None => scoped@,
        },
{
    match has_auth {
        None => scoped,
        Some(auth) => {
            let n: usize = scoped.len();
            let mut keep: Vec<ScopedModel> = Vec::new();
            let mut i: usize = 0;
            while i < n
                invariant
                    n == scoped@.len(),
                    auth@.len() == n,
                    i <= n,
                    keep@ == authorized(scoped@.take(i as int), auth@),
                decreases n - i,
            {
                assert(scoped@.take(i + 1).drop_last() =~= scoped@.take(i as int));
                if auth[i] {
                    keep.push(scoped[i].clone());
                }
                i += 1;
            }
            assert(scoped@.take(n as int) =~= scoped@);
            keep
        },
    }
}

fn find_model(models: &Vec<ScopedModel>, current: &Model) -> (r: usize)
    ensures
        r == model_position(models@, *current, 0),
        r <= models@.len(),
{
    let n: usize = models.len();
    let mut i: usize = 0;
    while i < n
        invariant
            n == models@.len(),
            i <= n,
            model_position(models@, *current, 0) == model_position(models@, *current, i as int),
        decreases n - i,
    {
        if models_are_equal(&models[i].model, current) {
            return i;
        }
        i += 1;
    }
    n
}

/// A model that was selected and whose change is being stored.
#[derive(Debug, PartialEq)]
pub struct PendingModel {
    pub model: Model,
    pub previous: Model,
    /// The level to ask for.
    pub thinking: ModelThinkingLevel,
}

impl AgentSession {
    /// The levels that the current model supports.
    pub fn available_thinking_levels(&self) -> (r: Vec<ModelThinkingLevel>)
        ensures
            r@ == supported_levels(self@.agent.model),
    {
        supported_thinking_levels(&self.agent.model)
    }

    /// Whether the current model reasons.
    pub fn supports_thinking(&self) -> (r: bool)
        ensures
            r == self@.agent.model.reasoning,
    {
        self.agent.model.reasoning
    }

    /// The level to ask for after a change of the model.
    pub fn thinking_level_for_model_switch(&self, scoped_level: Option<ModelThinkingLevel>) -> (r:
        ModelThinkingLevel)
        ensures
            r == level_for_switch(self@, scoped_level),
    {
        match scoped_level {
            Some(level) => level,
            None => if !self.agent.model.reasoning {
                match self.settings.default_thinking_level {
                    Some(level) => level,
                    None => ModelThinkingLevel::Medium,
                }
            } else {
                self.agent.thinking_level
            },
        }
    }

    /// Asks for a thinking level.
    pub fn set_thinking_level(&mut self, level: ModelThinkingLevel)
        ensures
            final(self)@ == level_set(old(self)@, level),
    {
        let effective = if level_supported(&self.agent.model, level) {
            level
        } else {
            clamp_thinking_level(&self.agent.model, level)
        };
        if effective == self.agent.thinking_level {
            return;
        }
        self.change_thinking_level(effective);
    }

    fn change_thinking_level(&mut self, effective: ModelThinkingLevel)
        ensures
            final(self)@ == level_changed(old(self)@, effective),
    {
        let ghost before = self@;
        self.agent.thinking_level = effective;
        if self.agent.model.reasoning || effective != ModelThinkingLevel::Off {
            self.settings.default_thinking_level = Some(effective);
        }
        assert(self@.agent == (AgentModel { thinking_level: effective, ..before.agent }));
        assert(self@.outbox == before.outbox);
        self.outbox.push(Effect::StoreThinkingLevel(effective));
        self.outbox.push(
            Effect::Emit(AgentSessionEvent::ThinkingLevelChanged { level: effective }),
        );
        self.outbox.push(
            Effect::ToExtensions(AgentSessionEvent::ThinkingLevelChanged { level: effective }),
        );
    }

    /// Steps to the next supported thinking level and gives it; none where the model does not reason
    /// or supports no level.
    pub fn cycle_thinking_level(&mut self) -> (r: Option<ModelThinkingLevel>)
        ensures
            ({
                let s = old(self)@;
                let levels = supported_levels(s.agent.model);
                if !s.agent.model.reasoning || levels.len() == 0 {
                    r is None && final(self)@ == s
                } else {
                    let i = level_position(levels, s.agent.thinking_level, 0);
                    let next = levels[stepped_index(
                        if i < levels.len() {
                            i
                        } else {
                            0
                        },
                        levels.len() as int,
                        CycleDirection::Forward,
                    )];
                    r == Some(next) && final(self)@ == level_set(s, next)
                }
            }),
    {
        if !self.agent.model.reasoning {
            return None;
        }
        let levels = self.available_thinking_levels();
        let n: usize = levels.len();
        if n == 0 {
            return None;
        }
        let current = self.agent.thinking_level;
        let mut i: usize = 0;
        while i < n && levels[i] != current
            invariant
                n == levels@.len(),
                i <= n,
                level_position(levels@, current, 0) == level_position(levels@, current, i as int),
            ensures
                i <= n,
                level_position(levels@, current, 0) == i,
            decreases n - i,
        {
            i += 1;
        }
        if i == n {
            i = 0;
        }
        let next = if i + 1 == n {
            levels[0]
        } else {
            levels[i + 1]
        };
        self.set_thinking_level(next);
        Some(next)
    }

    /// Tells extensions of a selected model.
    fn emit_model_select(
        &mut self,
        next: &Model,
        previous: &Model,
        source: ModelSelectSource,
        has_handlers: bool,
    )
        ensures
            final(self)@ == select_told(old(self)@, *next, *previous, source, has_handlers),
    {
        if models_are_equal(previous, next) {
            return;
        }
        if !has_handlers {
            return;
        }
        self.outbox.push(
            Effect::TellExtensions(
                AgentSessionEvent::ModelSelect {
                    model: next.clone(),
                    previous_model: Some(previous.clone()),
                    source,
                },
            ),
        );
    }

    /// Makes a model's provider and id the defaults.
    fn set_default_model(&mut self, model: &Model)
        ensures
            final(self)@ == with_default_model(old(self)@, *model),
    {
        self.settings.default_provider = Some(model.provider.clone());
        self.settings.default_model = Some(model.id.clone());
    }

    /// Selects a model. `has_auth` says whether there are credentials for its provider; without a
    /// runtime that is not known and not asked for. Where it is another model than the current one,
    /// its change is to be stored, and [`AgentSession::model_stored`] goes on.
    pub fn set_model(&mut self, model: Model, has_auth: Option<bool>) -> (r: Result<
        Option<PendingModel>,
        ModelError,
    >)
        ensures
            if has_auth == Some(false) {
                &&& r matches Err(ModelError::NoAuth(provider, id)) && provider == model.provider
                    && id == model.id
                &&& final(self)@ == old(self)@
            } else if same_identity(old(self)@.agent.model, model) {
                &&& r matches Ok(None)
                &&& final(self)@ == old(self)@
            } else {
                &&& r == Ok::<Option<PendingModel>, ModelError>(
                    Some(
                        PendingModel {
                            model,
                            previous: old(self)@.agent.model,
                            thinking: level_for_switch(old(self)@, None),
                        },
                    ),
                )
                &&& final(self)@ == with_model(old(self)@, model)
            },
    {
        if let Some(false) = has_auth {
            return Err(ModelError::NoAuth(model.provider, model.id));
        }
        let previous = self.model();
        if models_are_equal(&previous, &model) {
            return Ok(None);
        }
        let thinking = self.thinking_level_for_model_switch(None);
        self.agent.model = model.clone();
        Ok(Some(PendingModel { model, previous, thinking }))
    }

    /// Takes the answer of the storage for a selected model: on success it becomes the default, the
    /// thinking level follows and extensions are told.
    pub fn model_stored(
        &mut self,
        pending: PendingModel,
        stored: Result<(), SessionError>,
        has_handlers: bool,
    ) -> (r: Result<(), ModelError>)
        ensures
            match stored {
                Ok(()) => r is Ok && final(self)@ == select_told(
                    level_set(with_default_model(old(self)@, pending.model), pending.thinking),
                    pending.model,
                    pending.previous,
                    ModelSelectSource::Chosen,
                    has_handlers,
                ),
                Err(error) => r == Err::<(), ModelError>(ModelError::Session(error)) && final(self)@ == old(self)@,
            },
    {
        match stored {
            Ok(()) => {
                self.set_default_model(&pending.model);
                self.set_thinking_level(pending.thinking);
                self.emit_model_select(
                    &pending.model,
                    &pending.previous,
                    ModelSelectSource::Chosen,
                    has_handlers,
                );
                Ok(())
            },
            Err(error) => Err(ModelError::Session(error)),
        }
    }

    /// Steps to the model `next`.
    fn step_to(
        &mut self,
        next: Model,
        level: Option<ModelThinkingLevel>,
        has_handlers: bool,
    )
        ensures
            final(self)@ == stepped_to(old(self)@, next, level, has_handlers),
    {
        let previous = self.model();
        let thinking = self.thinking_level_for_model_switch(level);
        self.agent.model = next.clone();
        self.outbox.push(
            Effect::StoreModelChange {
                provider: next.provider.clone(),
                model: next.id.clone(),
            },
        );
        self.set_default_model(&next);
        self.set_thinking_level(thinking);
        self.emit_model_select(&next, &previous, ModelSelectSource::Cycle, has_handlers);
    }

    /// Steps through the models chosen for the session, `has_auth` saying which of them have
    /// credentials; where none were chosen, through the `available` ones of the runtime. From a model
    /// that was not chosen the step leads to the first that was. Gives none where there is only one
    /// model to step to.
    pub fn cycle_model(
        &mut self,
        direction: CycleDirection,
        has_auth: Option<&Vec<bool>>,
        available: Option<Vec<Model>>,
        has_handlers: bool,
    ) -> (r: Option<ModelCycleResult>)
        requires
            has_auth matches Some(auth) ==> auth@.len() == old(self)@.scoped_models.len(),
        ensures
            ({
                let s = old(self)@;
                let scoped = s.scoped_models.len() > 0;
                let models = if scoped {
                    match has_auth {
                        Some(auth) => authorized(s.scoped_models, auth@),
                        None => s.scoped_models,
                    }
                } else {
                    match available {
                        Some(list) => plain_models(list@),
                        None => seq![],
                    }
                };
                match step_target(models, s.agent.model, direction, scoped) {
                    Some(next) => {
                        &&& final(self)@ == stepped_to(
                            s,
                            next.model,
                            next.thinking_level,
                            has_handlers,
                        )
                        &&& r == Some(
                            ModelCycleResult {
                                model: next.model,
                                thinking_level: final(self)@.agent.thinking_level,
                                is_scoped: scoped,
                            },
                        )
                    },
                    None => r is None && final(self)@ == s,
                }
            }),
    {
        if self.scoped_models.is_empty() {
            match available {
                Some(list) => self.cycle_available_model(direction, list, has_handlers),
                None => None,
            }
        } else {
            let scoped = self.scoped_models();
            let filtered = filter_scoped_by_auth(scoped, has_auth);
            self.cycle_scoped_model(direction, filtered, true, has_handlers)
        }
    }

    /// Steps through a list of models.
    fn cycle_scoped_model(
        &mut self,
        direction: CycleDirection,
        models: Vec<ScopedModel>,
        is_scoped: bool,
        has_handlers: bool,
    ) -> (r: Option<ModelCycleResult>)
        ensures
            match step_target(models@, old(self)@.agent.model, direction, is_scoped) {
                Some(next) => {
                    &&& final(self)@ == stepped_to(
                        old(self)@,
                        next.model,
                        next.thinking_level,
                        has_handlers,
                    )
                    &&& r == Some(
                        ModelCycleResult {
                            model: next.model,
                            thinking_level: final(self)@.agent.thinking_level,
                            is_scoped,
                        },
                    )
                },
                None => r is None && final(self)@ == old(self)@,
            },
    {
        let n: usize = models.len();
        if n <= 1 {
            return None;
        }
        let found: usize = find_model(&models, &self.agent.model);
        let next_index: usize = if found == n && is_scoped {
            0
        } else {
            let i: usize = if found == n {
                0
            } else {
                found
            };
            match direction {
                CycleDirection::Forward => if i + 1 == n {
                    0
                } else {
                    i + 1
                },
                CycleDirection::Backward => if i == 0 {
                    n - 1
                } else {
                    i - 1
                },
            }
        };
        let next = models[next_index].clone();
        self.step_to(next.model.clone(), next.thinking_level, has_handlers);
        Some(
            ModelCycleResult {
                model: next.model,
                thinking_level: self.agent.thinking_level,
                is_scoped,
            },
        )
    }

    /// Steps through the models of the runtime.
    fn cycle_available_model(
        &mut self,
        direction: CycleDirection,
        available: Vec<Model>,
        has_handlers: bool,
    ) -> (r: Option<ModelCycleResult>)
        ensures
            match step_target(
                plain_models(available@),
                old(self)@.agent.model,
                direction,
                false,
            ) {
                Some(next) => {
                    &&& final(self)@ == stepped_to(
                        old(self)@,
                        next.model,
                        next.thinking_level,
                        has_handlers,
                    )
                    &&& r == Some(
                        ModelCycleResult {
                            model: next.model,
                            thinking_level: final(self)@.agent.thinking_level,
                            is_scoped: false,
                        },
                    )
                },
                None => r is None && final(self)@ == old(self)@,
            },
    {
        let n: usize = available.len();
        let mut models: Vec<ScopedModel> = Vec::new();
        let mut i: usize = 0;
        while i < n
            invariant
                n == available@.len(),
                i <= n,
                models@ == plain_models(available@).take(i as int),
            decreases n - i,
        {
            models.push(ScopedModel { model: available[i].clone(), thinking_level: None });
            assert(models@ =~= plain_models(available@).take(i + 1));
            i += 1;
        }
        assert(plain_models(available@).take(n as int) =~= plain_models(available@));
        self.cycle_scoped_model(direction, models, false, has_handlers)
    }

    /// Takes the refreshed definition of the current model, where the runtime knows it and it has
    /// changed. Nothing is stored or told: it is the same model.
    pub fn refresh_selected_model_from_runtime(&mut self, refreshed: Option<Model>)
        ensures
            final(self)@ == match refreshed {
                Some(model) => with_model(old(self)@, model),
                None => old(self)@,
            },
    {
        if let Some(model) = refreshed {
            self.agent.model = model;
        }
    }
}

/// The place of a level from `from` on, the length where it is not there.
pub open spec fn level_position(
    levels: Seq<ModelThinkingLevel>,
    level: ModelThinkingLevel,
    from: int,
) -> int
    decreases levels.len() - from,
{
    if from >= levels.len() {
        levels.len() as int
    } else if levels[from] == level {
        from
    } else {
        level_position(levels, level, from + 1)
    }
}

/// Models without a level of their own.
pub open spec fn plain_models(models: Seq<Model>) -> Seq<ScopedModel> {
    models.map_values(|m: Model| ScopedModel { model: m, thinking_level: None })
}

/// The thinking level in use is always one that the selected model supports, once it was asked for,
/// wherever the model supports any.
pub proof fn law_level_in_use_is_supported(s: SessionModel, level: ModelThinkingLevel)
    requires
        supported_levels(s.agent.model).len() > 0,
    ensures
        supports(s.agent.model, level_set(s, level).agent.thinking_level),
        level_set(s, level).agent.model == s.agent.model,
        level_set(level_set(s, level), level) == level_set(s, level),
{
    law_clamped_level_is_supported(s.agent.model, level);
}

/// The levels from none to the most, each at its place.
pub proof fn law_levels_are_ordered(
    all: Vec<ModelThinkingLevel>,
    level: ModelThinkingLevel,
    place: usize,
)
    requires
        call_ensures(extended_thinking_levels, (), all),
        call_ensures(extended_level_index, (level,), place),
    ensures
        all@ == seq![
            ModelThinkingLevel::Off,
            ModelThinkingLevel::Minimal,
            ModelThinkingLevel::Low,
            ModelThinkingLevel::Medium,
            ModelThinkingLevel::High,
            ModelThinkingLevel::Xhigh,
            ModelThinkingLevel::Max,
        ],
        place < all@.len(),
        all@[place as int] == level,
{
}

/// The name of each level, which is read back as the level; no other text is read as a level.
pub proof fn law_levels_are_named(
    level: ModelThinkingLevel,
    name: &'static str,
    raw: &str,
    read: Option<ModelThinkingLevel>,
)
    requires
        call_ensures(level_str, (level,), name),
        call_ensures(parse_thinking_level, (raw,), read),
    ensures
        name@ == match level {
            ModelThinkingLevel::Off => "off"@,
            ModelThinkingLevel::Minimal => "minimal"@,
            ModelThinkingLevel::Low => "low"@,
            ModelThinkingLevel::Medium => "medium"@,
            ModelThinkingLevel::High => "high"@,
            ModelThinkingLevel::Xhigh => "xhigh"@,
            ModelThinkingLevel::Max => "max"@,
        },
        read == Some(level) <==> raw@ == name@,
{
    law_level_names_read_back(level, raw@);
}

/// Two models are the same where provider and id are.
pub proof fn law_models_are_told_apart_by_provider_and_id(a: &Model, b: &Model, same: bool)
    requires
        call_ensures(models_are_equal, (a, b), same),
    ensures
        same <==> a.id@ == b.id@ && a.provider@ == b.provider@,
{
}

proof fn lemma_map_entry(
    entries: Seq<(ModelThinkingLevel, Option<String>)>,
    level: ModelThinkingLevel,
)
    ensures
        match map_entry(entries, level) {
            Some(e) => exists|i: int|
                0 <= i < entries.len() && #[trigger] entries[i] == (level, e) && forall|k: int|
                    i < k < entries.len() ==> (#[trigger] entries[k]).0 != level,
            None => forall|k: int| 0 <= k < entries.len() ==> (#[trigger] entries[k]).0 != level,
        },
    decreases entries.len(),
{
    if entries.len() > 0 {
        let n = entries.len() - 1;
        let d = entries.drop_last();
        lemma_map_entry(d, level);
        if entries.last().0 == level {
            assert(entries[n] == (level, entries.last().1));
        } else {
            if let Some(e) = map_entry(d, level) {
                let i = choose|i: int|
                    0 <= i < d.len() && #[trigger] d[i] == (level, e) && forall|k: int|
                        i < k < d.len() ==> (#[trigger] d[k]).0 != level;
                assert(entries[i] == (level, e));
                assert forall|k: int| i < k < entries.len() implies (#[trigger] entries[k]).0
                    != level by {
                    if k < n {
                        assert(entries[k] == d[k]);
                    }
                }
            } else {
                assert forall|k: int| 0 <= k < entries.len() implies (#[trigger] entries[k]).0
                    != level by {
                    if k < n {
                        assert(entries[k] == d[k]);
                    }
                }
            }
        }
    }
}

/// A map supports a level that its last word on it names, and none that its last word on it leaves
/// without a name; where it says nothing of a level, it supports it unless it is one of the two
/// highest.
pub proof fn law_the_last_word_of_a_map_counts(
    level: ModelThinkingLevel,
    map: &ThinkingLevelMap,
    i: int,
    supported: bool,
)
    requires
        call_ensures(level_supported_by_map, (level, map), supported),
    ensures
        (0 <= i < map@.len() && map@[i].0 == level && forall|k: int|
            i < k < map@.len() ==> (#[trigger] map@[k]).0 != level) ==> supported == map@[i].1
            is Some,
        (forall|k: int| 0 <= k < map@.len() ==> (#[trigger] map@[k]).0 != level) ==> supported == (
        level != ModelThinkingLevel::Xhigh && level != ModelThinkingLevel::Max),
{
    lemma_map_entry(map@, level);
}

/// The levels of a model: one that does not reason has only that of no thinking; one that reasons and
/// has no map has all; and of one with a map they are those that the map supports. They come in
/// their order, each once.
pub proof fn law_supported_levels_are_listed(
    model: &Model,
    levels: Vec<ModelThinkingLevel>,
    level: ModelThinkingLevel,
    map: &ThinkingLevelMap,
    supported: bool,
    i: int,
    j: int,
)
    requires
        call_ensures(supported_thinking_levels, (model,), levels),
        call_ensures(level_supported_by_map, (level, map), supported),
    ensures
        !model.reasoning ==> (levels@.contains(level) <==> level == ModelThinkingLevel::Off),
        model.reasoning && model.thinking_level_map is None ==> levels@.contains(level),
        model.reasoning && model.thinking_level_map == Some(*map) ==> (levels@.contains(level)
            <==> supported),
        0 <= i < j < levels@.len() ==> rank_of(levels@[i]) < rank_of(levels@[j]),
{
    lemma_supported_below(*model, 7, level);
    lemma_supported_sorted(*model, 7);
}

proof fn lemma_supported_sorted(model: Model, n: int)
    requires
        0 <= n <= 7,
    ensures
        forall|i: int, j: int|
            0 <= i < j < supported_below(model, n).len() ==> rank_of(
                #[trigger] supported_below(model, n)[i],
            ) < rank_of(#[trigger] supported_below(model, n)[j]),
    decreases n,
{
    if n > 0 {
        lemma_supported_sorted(model, n - 1);
        lemma_supported_below(model, n - 1, ModelThinkingLevel::Off);
        let before = supported_below(model, n - 1);
        let here = supported_below(model, n);
        if supports(model, level_at(n - 1)) {
            assert(here == before.push(level_at(n - 1)));
            assert forall|i: int, j: int| 0 <= i < j < here.len() implies rank_of(
                #[trigger] here[i],
            ) < rank_of(#[trigger] here[j]) by {
                assert(here[i] == before[i]);
                if j < before.len() {
                    assert(here[j] == before[j]);
                }
            }
        }
    }
}

/// A level is moved only to one that the model supports, and only as far as needed: a level that is
/// supported and, where the model's map names levels, named, stays; of the others the next such
/// level above is taken, and the next below only where there is none above.
pub proof fn law_a_level_moves_as_little_as_needed(
    model: &Model,
    level: ModelThinkingLevel,
    other: ModelThinkingLevel,
    levels: Vec<ModelThinkingLevel>,
    moved: ModelThinkingLevel,
)
    requires
        call_ensures(supported_thinking_levels, (model,), levels),
        call_ensures(clamp_thinking_level, (model, level), moved),
    ensures
        levels@.len() > 0 ==> levels@.contains(moved),
        levels@.len() == 0 ==> moved == ModelThinkingLevel::Off,
        levels@.contains(level) && model.thinking_level_map is None ==> moved == level,
        levels@.contains(level) && (model.thinking_level_map matches Some(map) && (map_entry(
            map@,
            level,
        ) matches Some(Some(_)))) ==> moved == level,
        levels@.contains(other) && model.thinking_level_map is None && rank_of(level) <= rank_of(
            other,
        ) ==> rank_of(level) <= rank_of(moved) <= rank_of(other),
        levels@.contains(other) && (model.thinking_level_map matches Some(map) && (map_entry(
            map@,
            other,
        ) matches Some(Some(_)))) ==> {
            &&& rank_of(level) <= rank_of(other) ==> rank_of(level) <= rank_of(moved) <= rank_of(
                other,
            )
            &&& rank_of(other) < rank_of(level) ==> rank_of(other) <= rank_of(moved)
        },
{
    law_clamped_level_is_supported(*model, level);
    lemma_supported_below(*model, 7, level);
    lemma_supported_below(*model, 7, other);
    lemma_supported_below(*model, 7, moved);
    assert(level_at(rank_of(level)) == level);
    assert(level_at(rank_of(other)) == other);
    assert(level_at(rank_of(moved)) == moved);
    lemma_candidate_up(*model, rank_of(level));
    lemma_candidate_down(*model, rank_of(level));
    if is_candidate(*model, other) {
        if rank_of(level) <= rank_of(other) {
            lemma_candidate_up_least(*model, rank_of(level), rank_of(other));
        } else {
            lemma_candidate_down_most(*model, rank_of(level), rank_of(other));
        }
    }
    if named_by_map(*model, other) {
        assert(named_by_map(*model, level_at(rank_of(other))));
    }
    if named_by_map(*model, level) {
        assert(named_by_map(*model, level_at(rank_of(level))));
    }
    if model.thinking_level_map is None {
        assert(!has_named(*model));
    }
}

proof fn lemma_candidate_up_least(model: Model, from: int, k: int)
    requires
        0 <= from <= k < 7,
        is_candidate(model, level_at(k)),
    ensures
        from <= candidate_up(model, from) <= k,
    decreases k - from,
{
    if from < k && !is_candidate(model, level_at(from)) {
        lemma_candidate_up_least(model, from + 1, k);
    }
}

proof fn lemma_candidate_down_most(model: Model, below: int, k: int)
    requires
        0 <= k < below <= 7,
        is_candidate(model, level_at(k)),
    ensures
        k <= candidate_down(model, below) < below,
    decreases below - k,
{
    if k < below - 1 && !is_candidate(model, level_at(below - 1)) {
        lemma_candidate_down_most(model, below - 1, k);
    }
}

/// The level to ask for after a change of the model: one chosen with the new model always; without
/// one, that in use where the model before reasons, and where it does not the default, or the medium
/// one where there is no default.
pub proof fn law_a_switch_asks_for_the_level_in_use(
    session: &AgentSession,
    chosen: Option<ModelThinkingLevel>,
    level: ModelThinkingLevel,
)
    requires
        call_ensures(AgentSession::thinking_level_for_model_switch, (session, chosen), level),
    ensures
        chosen is Some ==> level == chosen->0,
        chosen is None && session@.agent.model.reasoning ==> level == session@.agent.thinking_level,
        chosen is None && !session@.agent.model.reasoning
            && session@.settings.default_thinking_level is Some ==> level
            == session@.settings.default_thinking_level->0,
        chosen is None && !session@.agent.model.reasoning
            && session@.settings.default_thinking_level is None ==> level
            == ModelThinkingLevel::Medium,
{
}

/// A level that the model supports is taken as it is asked for; any other is moved to one that it
/// supports. Only a change is stored and told, to listeners and to extensions, and it becomes the
/// default wherever the model reasons or the level is one of thinking.
pub proof fn law_a_level_that_is_asked_for_is_taken(
    session: &mut AgentSession,
    level: ModelThinkingLevel,
    levels: Vec<ModelThinkingLevel>,
    moved: ModelThinkingLevel,
    done: (),
)
    requires
        call_ensures(AgentSession::set_thinking_level, (session, level), done),
        call_ensures(supported_thinking_levels, (&old(session)@.agent.model,), levels),
        call_ensures(clamp_thinking_level, (&old(session)@.agent.model, level), moved),
    ensures
        ({
            let s = old(session)@;
            let t = final(session)@;
            let now = t.agent.thinking_level;
            &&& levels@.contains(level) ==> now == level
            &&& !levels@.contains(level) ==> now == moved
            &&& t.agent.model == s.agent.model && t.agent.transcript == s.agent.transcript
            &&& now == s.agent.thinking_level ==> t == s
            &&& now != s.agent.thinking_level ==> {
                &&& t.outbox == s.outbox.push(Effect::StoreThinkingLevel(now)).push(
                    Effect::Emit(AgentSessionEvent::ThinkingLevelChanged { level: now }),
                ).push(
                    Effect::ToExtensions(AgentSessionEvent::ThinkingLevelChanged { level: now }),
                )
                &&& t.settings.default_thinking_level == if s.agent.model.reasoning || now
                    != ModelThinkingLevel::Off {
                    Some(now)
                } else {
                    s.settings.default_thinking_level
                }
            }
        }),
{
    lemma_supported_below(old(session)@.agent.model, 7, level);
}

/// A model without credentials is refused, and one that is selected already needs no change: both
/// leave the session as it is. Any other is selected, and what waits for the storage names it and the
/// one before.
pub proof fn law_a_model_is_selected(
    session: &mut AgentSession,
    model: Model,
    has_auth: Option<bool>,
    r: Result<Option<PendingModel>, ModelError>,
)
    requires
        call_ensures(AgentSession::set_model, (session, model, has_auth), r),
    ensures
        has_auth == Some(false) ==> r == Err::<Option<PendingModel>, ModelError>(
            ModelError::NoAuth(model.provider, model.id),
        ) && final(session)@ == old(session)@,
        has_auth != Some(false) ==> r is Ok,
        r is Ok && old(session)@.agent.model.id@ == model.id@ && old(session)@.agent.model.provider@
            == model.provider@ ==> r->Ok_0 is None && final(session)@ == old(session)@,
        r is Ok && (old(session)@.agent.model.id@ != model.id@
            || old(session)@.agent.model.provider@ != model.provider@) ==> {
            &&& r->Ok_0 matches Some(p) && p.model == model && p.previous == old(session)@.agent.model
            &&& final(session)@.agent.model == model
            &&& final(session)@.agent.thinking_level == old(session)@.agent.thinking_level
            &&& final(session)@.agent.transcript == old(session)@.agent.transcript
            &&& final(session)@.outbox == old(session)@.outbox
            &&& final(session)@.settings == old(session)@.settings
        },
{
}

/// A selection that could not be stored is told as a failure and makes no default; one that was
/// stored makes the model the default, and extensions that listen hear of it with the one before.
pub proof fn law_a_stored_selection_becomes_the_default(
    session: &mut AgentSession,
    pending: PendingModel,
    stored: Result<(), SessionError>,
    has_handlers: bool,
    r: Result<(), ModelError>,
)
    requires
        call_ensures(AgentSession::model_stored, (session, pending, stored, has_handlers), r),
    ensures
        stored matches Err(e) ==> r == Err::<(), ModelError>(ModelError::Session(e)) && final(session)@ == old(session)@,
        stored is Ok ==> {
            let told = Effect::TellExtensions(
                AgentSessionEvent::ModelSelect {
                    model: pending.model,
                    previous_model: Some(pending.previous),
                    source: ModelSelectSource::Chosen,
                },
            );
            let other = pending.model.id@ != pending.previous.id@ || pending.model.provider@
                != pending.previous.provider@;
            &&& r is Ok
            &&& final(session)@.settings.default_provider == Some(pending.model.provider)
            &&& final(session)@.settings.default_model == Some(pending.model.id)
            &&& has_handlers && other ==> final(session)@.outbox.last() == told
            &&& final(session)@.agent.model == old(session)@.agent.model
            &&& final(session)@.agent.transcript == old(session)@.agent.transcript
        },
{
}

/// A switch to a model that supports the level in use leaves the level as it is, and stores and tells
/// no change of it, where the model before reasons.
pub proof fn law_a_switch_keeps_a_supported_level(
    session: &mut AgentSession,
    after: &mut AgentSession,
    model: Model,
    has_auth: Option<bool>,
    pending: PendingModel,
    has_handlers: bool,
    levels: Vec<ModelThinkingLevel>,
    r: Result<(), ModelError>,
)
    requires
        call_ensures(
            AgentSession::set_model,
            (session, model, has_auth),
            Ok::<Option<PendingModel>, ModelError>(Some(pending)),
        ),
        old(after)@ == final(session)@,
        call_ensures(
            AgentSession::model_stored,
            (after, pending, Ok::<(), SessionError>(()), has_handlers),
            r,
        ),
        old(session)@.agent.model.reasoning,
        call_ensures(supported_thinking_levels, (&model,), levels),
        levels@.contains(old(session)@.agent.thinking_level),
    ensures
        r is Ok,
        final(after)@.agent.model == model,
        final(after)@.agent.thinking_level == old(session)@.agent.thinking_level,
        final(after)@.settings.default_thinking_level == old(session)@.settings.default_thinking_level,
        final(after)@.outbox == if has_handlers {
            old(session)@.outbox.push(
                Effect::TellExtensions(
                    AgentSessionEvent::ModelSelect {
                        model,
                        previous_model: Some(old(session)@.agent.model),
                        source: ModelSelectSource::Chosen,
                    },
                ),
            )
        } else {
            old(session)@.outbox
        },
{
    lemma_supported_below(model, 7, old(session)@.agent.thinking_level);
}

/// A switch to a model that does not support the level in use moves it to where a request for it
/// would be moved; a switch from a model that does not reason asks for the default instead.
pub proof fn law_a_switch_moves_an_unsupported_level(
    session: &mut AgentSession,
    after: &mut AgentSession,
    model: Model,
    has_auth: Option<bool>,
    pending: PendingModel,
    has_handlers: bool,
    levels: Vec<ModelThinkingLevel>,
    asked: ModelThinkingLevel,
    moved: ModelThinkingLevel,
    r: Result<(), ModelError>,
)
    requires
        call_ensures(
            AgentSession::set_model,
            (session, model, has_auth),
            Ok::<Option<PendingModel>, ModelError>(Some(pending)),
        ),
        old(after)@ == final(session)@,
        call_ensures(
            AgentSession::model_stored,
            (after, pending, Ok::<(), SessionError>(()), has_handlers),
            r,
        ),
        asked == if old(session)@.agent.model.reasoning {
            old(session)@.agent.thinking_level
        } else if old(session)@.settings.default_thinking_level is Some {
            old(session)@.settings.default_thinking_level->0
        } else {
            ModelThinkingLevel::Medium
        },
        call_ensures(supported_thinking_levels, (&model,), levels),
        call_ensures(clamp_thinking_level, (&model, asked), moved),
    ensures
        r is Ok,
        final(after)@.agent.model == model,
        levels@.contains(asked) ==> final(after)@.agent.thinking_level == asked,
        !levels@.contains(asked) ==> final(after)@.agent.thinking_level == moved,
        levels@.len() > 0 ==> levels@.contains(final(after)@.agent.thinking_level),
{
    lemma_supported_below(model, 7, asked);
    lemma_supported_below(model, 7, moved);
    law_clamped_level_is_supported(model, asked);
}

/// A step through the levels goes to the next one that the model supports, and from the last to the
/// first. A model that does not reason has no step.
pub proof fn law_levels_are_stepped_through(
    session: &mut AgentSession,
    levels: Vec<ModelThinkingLevel>,
    i: int,
    next: Option<ModelThinkingLevel>,
)
    requires
        call_ensures(AgentSession::cycle_thinking_level, (session,), next),
        call_ensures(supported_thinking_levels, (&old(session)@.agent.model,), levels),
    ensures
        !old(session)@.agent.model.reasoning || levels@.len() == 0 ==> next is None && final(session)@ == old(session)@,
        old(session)@.agent.model.reasoning && levels@.len() > 0 ==> next is Some && final(session)@.agent.thinking_level == next->0 && levels@.contains(next->0),
        old(session)@.agent.model.reasoning && 0 <= i < levels@.len() && levels@[i] == old(session)@.agent.thinking_level ==> next == Some(
            if i + 1 < levels@.len() {
                levels@[i + 1]
            } else {
                levels@[0]
            },
        ),
        final(session)@.agent.model == old(session)@.agent.model,
{
    let s = old(session)@;
    lemma_supported_sorted(s.agent.model, 7);
    if s.agent.model.reasoning && levels@.len() > 0 {
        lemma_supported_below(s.agent.model, 7, next->0);
        lemma_level_place(levels@, s.agent.thinking_level, 0);
        if 0 <= i < levels@.len() && levels@[i] == s.agent.thinking_level {
            let p = level_position(levels@, s.agent.thinking_level, 0);
            assert(p == i) by {
                if p < i {
                    assert(rank_of(levels@[p]) < rank_of(levels@[i]));
                }
            }
        }
    }
}

proof fn lemma_level_place(levels: Seq<ModelThinkingLevel>, level: ModelThinkingLevel, from: int)
    requires
        0 <= from <= levels.len(),
    ensures
        from <= level_position(levels, level, from) <= levels.len(),
        level_position(levels, level, from) < levels.len() ==> levels[level_position(
            levels,
            level,
            from,
        )] == level,
        forall|k: int|
            from <= k < level_position(levels, level, from) ==> #[trigger] levels[k] != level,
    decreases levels.len() - from,
{
    if from < levels.len() && levels[from] != level {
        lemma_level_place(levels, level, from + 1);
    }
}

/// Of one more model, the one more is kept exactly where there are credentials for it, at the end;
/// where credentials are not asked for, all are kept.
pub proof fn law_models_with_credentials_are_kept(
    models: Vec<ScopedModel>,
    more: Vec<ScopedModel>,
    auth: &Vec<bool>,
    more_auth: &Vec<bool>,
    kept: Vec<ScopedModel>,
    more_kept: Vec<ScopedModel>,
    all: Vec<ScopedModel>,
)
    requires
        models@.len() == auth@.len(),
        more@.len() == models@.len() + 1,
        more@.drop_last() == models@,
        more_auth@.len() == auth@.len() + 1,
        more_auth@.drop_last() == auth@,
        call_ensures(filter_scoped_by_auth, (models, Some(auth)), kept),
        call_ensures(filter_scoped_by_auth, (more, Some(more_auth)), more_kept),
        call_ensures(filter_scoped_by_auth, (models, None::<&Vec<bool>>), all),
    ensures
        more_kept@ == if more_auth@.last() {
            kept@.push(more@.last())
        } else {
            kept@
        },
        models@.len() == 0 ==> kept@.len() == 0,
        all@ == models@,
{
    lemma_authorized_prefix(models@, auth@, more_auth@);
}

proof fn lemma_authorized_prefix(models: Seq<ScopedModel>, a: Seq<bool>, b: Seq<bool>)
    requires
        models.len() <= a.len() <= b.len(),
        forall|i: int| 0 <= i < a.len() ==> #[trigger] a[i] == b[i],
    ensures
        authorized(models, a) == authorized(models, b),
    decreases models.len(),
{
    if models.len() > 0 {
        lemma_authorized_prefix(models.drop_last(), a, b);
        assert(a[models.len() - 1] == b[models.len() - 1]);
    }
}

/// What a step to the model `next` leaves: it is selected, stored and the default, its own level or
/// else the one in use is asked for, and extensions that listen hear of it last.
pub open spec fn steps_to(
    s: SessionModel,
    t: SessionModel,
    next: ScopedModel,
    is_scoped: bool,
    has_handlers: bool,
    r: Option<ModelCycleResult>,
) -> bool {
    let n = s.outbox.len() as int;
    &&& r == Some(
        ModelCycleResult {
            model: next.model,
            thinking_level: t.agent.thinking_level,
            is_scoped,
        },
    )
    &&& t.agent.model == next.model
    &&& t.agent.transcript == s.agent.transcript
    &&& t.settings.default_provider == Some(next.model.provider)
    &&& t.settings.default_model == Some(next.model.id)
    &&& t.outbox.len() > n
    &&& t.outbox[n] == Effect::StoreModelChange {
        provider: next.model.provider,
        model: next.model.id,
    }
    &&& has_handlers && (next.model.id@ != s.agent.model.id@ || next.model.provider@
        != s.agent.model.provider@) ==> t.outbox.last() == Effect::TellExtensions(
        AgentSessionEvent::ModelSelect {
            model: next.model,
            previous_model: Some(s.agent.model),
            source: ModelSelectSource::Cycle,
        },
    )
}

/// A step through the models chosen for the session goes from the selected one to its neighbour, the
/// next forward and the one before backward, and round at the ends; from a model that was not chosen
/// it goes to the first. Those without credentials are passed over. With one model or none there is
/// no step.
pub proof fn law_a_step_goes_to_the_neighbour(
    session: &mut AgentSession,
    chosen: Vec<ScopedModel>,
    direction: CycleDirection,
    has_auth: Option<&Vec<bool>>,
    available: Option<Vec<Model>>,
    has_handlers: bool,
    models: Vec<ScopedModel>,
    i: int,
    r: Option<ModelCycleResult>,
)
    requires
        call_ensures(
            AgentSession::cycle_model,
            (session, direction, has_auth, available, has_handlers),
            r,
        ),
        old(session)@.scoped_models.len() > 0,
        chosen@ == old(session)@.scoped_models,
        call_ensures(filter_scoped_by_auth, (chosen, has_auth), models),
    ensures
        models@.len() <= 1 ==> r is None && final(session)@ == old(session)@,
        ({
            let n = models@.len() as int;
            let current = old(session)@.agent.model;
            let here = 0 <= i < n && models@[i].model.id@ == current.id@
                && models@[i].model.provider@ == current.provider@ && (forall|k: int|
                0 <= k < i ==> (#[trigger] models@[k]).model.id@ != current.id@
                    || models@[k].model.provider@ != current.provider@);
            let nowhere = forall|k: int|
                0 <= k < n ==> (#[trigger] models@[k]).model.id@ != current.id@
                    || models@[k].model.provider@ != current.provider@;
            &&& n > 1 && here && direction == CycleDirection::Forward ==> steps_to(
                old(session)@,
                final(session)@,
                models@[(i + 1) % n],
                true,
                has_handlers,
                r,
            )
            &&& n > 1 && here && direction == CycleDirection::Backward ==> steps_to(
                old(session)@,
                final(session)@,
                models@[(i + n - 1) % n],
                true,
                has_handlers,
                r,
            )
            &&& n > 1 && nowhere ==> steps_to(
                old(session)@,
                final(session)@,
                models@[0],
                true,
                has_handlers,
                r,
            )
        }),
{
    let n = models@.len() as int;
    let current = old(session)@.agent.model;
    if n > 1 {
        lemma_place_of(models@, current, 0);
        let p = model_position(models@, current, 0);
        if 0 <= i < n && models@[i].model.id@ == current.id@ && models@[i].model.provider@
            == current.provider@ && (forall|k: int|
            0 <= k < i ==> (#[trigger] models@[k]).model.id@ != current.id@
                || models@[k].model.provider@ != current.provider@) {
            assert(p == i) by {
                if p < i {
                    assert(models@[p].model.id@ == current.id@);
                }
            }
            lemma_round(i, n);
        }
    }
}

proof fn lemma_round(i: int, n: int)
    requires
        0 <= i < n,
        n > 1,
    ensures
        (i + 1) % n == if i + 1 == n {
            0
        } else {
            i + 1
        },
        (i + n - 1) % n == if i == 0 {
            n - 1
        } else {
            i - 1
        },
{
    if i + 1 == n {
        vstd::arithmetic::div_mod::lemma_mod_self_0(n);
    } else {
        vstd::arithmetic::div_mod::lemma_small_mod((i + 1) as nat, n as nat);
    }
    if i == 0 {
        vstd::arithmetic::div_mod::lemma_small_mod((n - 1) as nat, n as nat);
    } else {
        vstd::arithmetic::div_mod::lemma_mod_add_multiples_vanish(i - 1, n);
        vstd::arithmetic::div_mod::lemma_small_mod((i - 1) as nat, n as nat);
    }
}

proof fn lemma_place_of(models: Seq<ScopedModel>, current: Model, from: int)
    requires
        0 <= from <= models.len(),
    ensures
        from <= model_position(models, current, from) <= models.len(),
        model_position(models, current, from) < models.len() ==> same_identity(
            models[model_position(models, current, from)].model,
            current,
        ),
        forall|k: int|
            from <= k < model_position(models, current, from) ==> !same_identity(
                (#[trigger] models[k]).model,
                current,
            ),
    decreases models.len() - from,
{
    if from < models.len() && !same_identity(models[from].model, current) {
        lemma_place_of(models, current, from + 1);
    }
}

/// A step keeps the level in use where the new model supports it, none was chosen with it and the
/// model before reasons; a level that was chosen with the new model is taken where it supports it.
pub proof fn law_a_step_keeps_a_supported_level(
    session: &mut AgentSession,
    direction: CycleDirection,
    has_auth: Option<&Vec<bool>>,
    available: Option<Vec<Model>>,
    has_handlers: bool,
    levels: Vec<ModelThinkingLevel>,
    r: ModelCycleResult,
)
    requires
        call_ensures(
            AgentSession::cycle_model,
            (session, direction, has_auth, available, has_handlers),
            Some(r),
        ),
        call_ensures(supported_thinking_levels, (&r.model,), levels),
        old(session)@.scoped_models.len() == 0,
        old(session)@.agent.model.reasoning,
        levels@.contains(old(session)@.agent.thinking_level),
    ensures
        final(session)@.agent.thinking_level == old(session)@.agent.thinking_level,
        r.thinking_level == old(session)@.agent.thinking_level,
        final(session)@.settings.default_thinking_level == old(session)@.settings.default_thinking_level,
        !r.is_scoped,
        available matches Some(list) ==> list@.contains(r.model),
        available is Some,
{
    lemma_supported_below(r.model, 7, old(session)@.agent.thinking_level);
    if let Some(list) = available {
        let models = plain_models(list@);
        let place = step_place(models, old(session)@.agent.model, direction, false);
        lemma_place_of(models, old(session)@.agent.model, 0);
        assert(models[place].model == list@[place]);
    }
}

/// A step among the models of the runtime goes from the selected one to its neighbour, and round at
/// the ends; from a model that is not among them it goes as from the first.
pub proof fn law_a_step_goes_through_the_runtime(
    session: &mut AgentSession,
    direction: CycleDirection,
    has_auth: Option<&Vec<bool>>,
    list: Vec<Model>,
    has_handlers: bool,
    i: int,
    r: Option<ModelCycleResult>,
)
    requires
        call_ensures(
            AgentSession::cycle_model,
            (session, direction, has_auth, Some(list), has_handlers),
            r,
        ),
        old(session)@.scoped_models.len() == 0,
    ensures
        list@.len() <= 1 ==> r is None && final(session)@ == old(session)@,
        ({
            let n = list@.len() as int;
            let current = old(session)@.agent.model;
            let here = 0 <= i < n && list@[i].id@ == current.id@ && list@[i].provider@
                == current.provider@ && (forall|k: int|
                0 <= k < i ==> (#[trigger] list@[k]).id@ != current.id@ || list@[k].provider@
                    != current.provider@);
            let nowhere = i == 0 && forall|k: int|
                0 <= k < n ==> (#[trigger] list@[k]).id@ != current.id@ || list@[k].provider@
                    != current.provider@;
            n > 1 && (here || nowhere) ==> steps_to(
                old(session)@,
                final(session)@,
                ScopedModel {
                    model: list@[match direction {
                        CycleDirection::Forward => (i + 1) % n,
                        CycleDirection::Backward => (i + n - 1) % n,
                    }],
                    thinking_level: None,
                },
                false,
                has_handlers,
                r,
            )
        }),
{
    let n = list@.len() as int;
    let current = old(session)@.agent.model;
    let models = plain_models(list@);
    assert forall|k: int| 0 <= k < n implies (#[trigger] models[k]).model == list@[k]
        && models[k].thinking_level is None by {}
    if n > 1 {
        lemma_place_of(models, current, 0);
        let p = model_position(models, current, 0);
        if p < n {
            assert(list@[p].id@ == current.id@ && list@[p].provider@ == current.provider@);
        }
        if 0 <= i < n {
            lemma_round(i, n);
            assert(models[i].model == list@[i]);
            assert(p > i ==> !same_identity(models[i].model, current));
        }
    }
}

/// A level that was chosen with a model is taken in a step to it, where the model supports it.
pub proof fn law_a_step_takes_the_chosen_level(
    session: &mut AgentSession,
    direction: CycleDirection,
    available: Option<Vec<Model>>,
    has_handlers: bool,
    i: int,
    levels: Vec<ModelThinkingLevel>,
    r: Option<ModelCycleResult>,
)
    requires
        call_ensures(
            AgentSession::cycle_model,
            (session, direction, None::<&Vec<bool>>, available, has_handlers),
            r,
        ),
        old(session)@.scoped_models.len() > 1,
        forall|k: int|
            0 <= k < old(session)@.scoped_models.len() ==> (#[trigger] old(session)@.scoped_models[k]).thinking_level is Some,
        r is Some,
        call_ensures(supported_thinking_levels, (&r->0.model,), levels),
    ensures
        exists|k: int|
            0 <= k < old(session)@.scoped_models.len() && (#[trigger] old(session)@.scoped_models[k]).model == r->0.model && (levels@.contains(
                old(session)@.scoped_models[k].thinking_level->0,
            ) ==> final(session)@.agent.thinking_level == old(session)@.scoped_models[k].thinking_level->0),
{
    let models = old(session)@.scoped_models;
    let place = step_place(models, old(session)@.agent.model, direction, true);
    lemma_place_of(models, old(session)@.agent.model, 0);
    lemma_supported_below(r->0.model, 7, models[place].thinking_level->0);
    assert(models[place].model == r->0.model);
}

/// A refreshed definition takes the place of the selected model, and nothing is stored or told.
pub proof fn law_a_refreshed_model_is_taken(
    session: &mut AgentSession,
    refreshed: Option<Model>,
    done: (),
)
    requires
        call_ensures(
            AgentSession::refresh_selected_model_from_runtime,
            (session, refreshed),
            done,
        ),
    ensures
        refreshed matches Some(model) ==> final(session)@.agent.model == model,
        refreshed is None ==> final(session)@ == old(session)@,
        final(session)@.outbox == old(session)@.outbox,
        final(session)@.settings == old(session)@.settings,
        final(session)@.agent.thinking_level == old(session)@.agent.thinking_level,
        final(session)@.agent.transcript == old(session)@.agent.transcript,
{
}

/// A session offers the levels of its model, each under its name, and thinks where the model does.
pub proof fn law_a_session_offers_the_levels_of_its_model(
    session: &AgentSession,
    levels: Vec<ModelThinkingLevel>,
    of_model: Vec<ModelThinkingLevel>,
    thinks: bool,
    level: ModelThinkingLevel,
    name: &'static str,
    asked: Option<String>,
)
    requires
        call_ensures(AgentSession::available_thinking_levels, (session,), levels),
        call_ensures(supported_thinking_levels, (&session@.agent.model,), of_model),
        call_ensures(AgentSession::supports_thinking, (session,), thinks),
        call_ensures(level_str, (level,), name),
        call_ensures(thinking_level_str, (level,), asked),
    ensures
        levels@ == of_model@,
        thinks == session@.agent.model.reasoning,
        asked is Some && asked->0@ == name@,
{
}

} // verus!
