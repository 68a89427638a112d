//! Laws of tool output settings.
use vstd::prelude::*;

use crate::domain::{ActorModel, LedgerTimestamp};
use crate::settings::{
    ToolOutputDefaults, ToolOutputOverrides, ToolOutputSettingsModel, ToolOutputSettingsScopeModel,
};
use crate::settings_service;
use crate::settings_service::InMemoryToolOutputSettingsServiceModel;
use crate::tool_output::RenderOptions;

verus! {

/// What distinguishes defaults from inherited ones, applied to the inherited ones, gives
/// the defaults back.
pub proof fn law_differences_restore_defaults(
    base: ToolOutputDefaults,
    inherited: ToolOutputDefaults,
)
    ensures
        ToolOutputOverrides::between(base, inherited).applied_to(inherited) == base,
{
}

/// Nothing distinguishes defaults from themselves, and nothing applied changes nothing.
pub proof fn law_nothing_changes_nothing(d: ToolOutputDefaults)
    ensures
        ToolOutputOverrides::between(d, d) == ToolOutputOverrides::nothing(),
        ToolOutputOverrides::nothing().applied_to(d) == d,
{
}

/// Merged overrides do what the two do one after the other.
pub proof fn law_merging_applies_in_turn(
    earlier: ToolOutputOverrides,
    update: ToolOutputOverrides,
    d: ToolOutputDefaults,
)
    ensures
        earlier.merged(update).applied_to(d) == update.applied_to(earlier.applied_to(d)),
{
}

/// What a request asks for never shows more than the verbosity allows; it settles the
/// format alone.
pub proof fn law_requests_stay_within_verbosity(
    d: ToolOutputDefaults,
    requested: RenderOptions,
)
    ensures
        d.policy_for(Some(requested)).render_options.format == requested.format,
        d.policy_for(Some(requested)) == (crate::tool_output::ToolOutputRenderPolicy {
            render_options: RenderOptions {
                format: requested.format,
                ..d.policy_for(None).render_options
            },
            ..d.policy_for(None)
        }),
{
}

/// The settings that hold for a scope by itself.
pub open spec fn found(
    settings: Seq<ToolOutputSettingsModel>,
    scope: ToolOutputSettingsScopeModel,
) -> Option<ToolOutputSettingsModel> {
    let at = settings_service::place_of(settings, scope);
    if at < settings.len() {
        Some(settings[at])
    } else {
        None
    }
}

/// Two lists that hold the same settings for some scopes resolve them alike.
proof fn lemma_resolved_alike(
    a: Seq<ToolOutputSettingsModel>,
    b: Seq<ToolOutputSettingsModel>,
    scopes: Seq<ToolOutputSettingsScopeModel>,
)
    requires
        forall|i: int| 0 <= i < scopes.len() ==> found(a, #[trigger] scopes[i]) == found(
            b,
            scopes[i],
        ),
    ensures
        settings_service::resolved(a, scopes) == settings_service::resolved(b, scopes),
    decreases scopes.len(),
{
    if scopes.len() > 0 {
        lemma_resolved_alike(a, b, scopes.drop_last());
        assert(found(a, scopes.last()) == found(b, scopes.last()));
    }
}

/// A scope stands last among those that hold for it, and once.
proof fn lemma_scope_ends_its_chain(scope: ToolOutputSettingsScopeModel)
    ensures
        ({
            let chain = settings_service::chain_of(scope);
            let parents = settings_service::before(chain, scope);
            &&& chain == parents.push(scope)
            &&& !parents.contains(scope)
        }),
{
    reveal_with_fuel(settings_service::before, 5);
    let chain = settings_service::chain_of(scope);
    let parents = settings_service::before(chain, scope);
    let workspace = ToolOutputSettingsScopeModel::whole_workspace();
    let level = ToolOutputSettingsScopeModel::at(scope.level);
    let levels = settings_service::pushed_once(seq![workspace], level);
    assert(seq![workspace].contains(level) <==> workspace == level) by {
        assert(seq![workspace][0] == workspace);
    }
    if workspace == level {
        assert(levels =~= seq![workspace]);
    } else {
        assert(levels =~= seq![workspace, level]);
    }
    if scope.tool_id is Some {
        let tool = ToolOutputSettingsScopeModel { tool_id: scope.tool_id, ..workspace };
        assert(!levels.contains(tool));
        let tools = settings_service::pushed_once(levels, tool);
        assert(tools =~= levels.push(tool));
        if tool == scope {
            assert(tools.last() == scope);
            assert(chain =~= tools);
            assert(chain =~= seq![workspace, scope]);
            assert(chain.drop_first() =~= seq![scope]);
            assert(parents =~= seq![workspace]);
        } else {
            assert(!tools.contains(scope));
            assert(chain =~= tools.push(scope));
            if workspace == level {
                assert(scope.level == workspace.level);
                assert(false);
            }
            assert(chain =~= seq![workspace, level, tool, scope]);
            assert(chain.drop_first() =~= seq![level, tool, scope]);
            assert(chain.drop_first().drop_first() =~= seq![tool, scope]);
            assert(chain.drop_first().drop_first().drop_first() =~= seq![scope]);
            assert(parents =~= seq![workspace, level, tool]);
        }
    } else {
        assert(scope == level);
        if workspace == level {
            assert(parents =~= Seq::empty());
            assert(chain =~= seq![scope]);
        } else {
            assert(chain.drop_first() =~= seq![scope]);
            assert(parents =~= seq![workspace]);
        }
    }
}

/// What becomes of lookups when the settings at a place are replaced by others of the
/// same scope.
proof fn lemma_found_after_replacing(
    settings: Seq<ToolOutputSettingsModel>,
    at: int,
    replacement: ToolOutputSettingsModel,
    scope: ToolOutputSettingsScopeModel,
)
    requires
        0 <= at < settings.len(),
        replacement.scope == settings[at].scope,
    ensures
        found(settings.update(at, replacement), scope) == (if settings_service::place_of(
            settings,
            scope,
        ) == at {
            Some(replacement)
        } else {
            found(settings, scope)
        }),
{
    let changed = settings.update(at, replacement);
    settings_service::lemma_place_holds_scope(settings, scope);
    let place = settings_service::place_of(settings, scope);
    assert forall|j: int| 0 <= j < place implies (#[trigger] changed[j]).scope != scope by {
        assert(settings[j].scope != scope);
    }
    settings_service::lemma_place_of_is(changed, scope, place);
}

proof fn lemma_found_after_pushing(
    settings: Seq<ToolOutputSettingsModel>,
    added: ToolOutputSettingsModel,
    scope: ToolOutputSettingsScopeModel,
)
    requires
        found(settings, added.scope) is None,
    ensures
        found(settings.push(added), scope) == (if scope == added.scope {
            Some(added)
        } else {
            found(settings, scope)
        }),
{
    let changed = settings.push(added);
    settings_service::lemma_place_holds_scope(settings, scope);
    settings_service::lemma_place_holds_scope(settings, added.scope);
    let place = settings_service::place_of(settings, scope);
    assert forall|j: int| 0 <= j < place implies (#[trigger] changed[j]).scope != scope by {
        assert(settings[j].scope != scope);
    }
    if place < settings.len() || scope == added.scope {
        settings_service::lemma_place_of_is(changed, scope, place);
    } else {
        assert forall|j: int| 0 <= j < changed.len() implies (
        #[trigger] changed[j]).scope != scope by {
            if j < settings.len() {
                assert(changed[j] == settings[j]);
            }
        }
        settings_service::lemma_place_of_is(changed, scope, changed.len() as int);
    }
}

/// After an update the scope has the settings of the update, and every other scope the
/// settings that it had.
proof fn lemma_found_after_update(
    service: InMemoryToolOutputSettingsServiceModel,
    actor: ActorModel,
    scope: ToolOutputSettingsScopeModel,
    update: ToolOutputOverrides,
    reason: Seq<char>,
    at: LedgerTimestamp,
    other: ToolOutputSettingsScopeModel,
)
    ensures
        found(service.updated(actor, scope, update, reason, at).settings, other) == (if other
            == scope {
            Some(
                service.settings_of(scope, at).updated(
                    actor,
                    update,
                    settings_service::inherited(service.settings, scope),
                    at,
                ),
            )
        } else {
            found(service.settings, other)
        }),
{
    let settings = service.settings;
    let place = settings_service::place_of(settings, scope);
    let replacement = service.settings_of(scope, at).updated(
        actor,
        update,
        settings_service::inherited(settings, scope),
        at,
    );
    settings_service::lemma_place_holds_scope(settings, scope);
    settings_service::lemma_place_holds_scope(settings, other);
    if place < settings.len() {
        lemma_found_after_replacing(settings, place, replacement, other);
    } else {
        lemma_found_after_pushing(settings, replacement, other);
    }
}

/// A scope's own settings, over what it inherits, are what holds for it.
pub proof fn lemma_settled_defaults(
    service: InMemoryToolOutputSettingsServiceModel,
    scope: ToolOutputSettingsScopeModel,
    at: LedgerTimestamp,
)
    ensures
        service.settings_of(scope, at).defaults_over(
            settings_service::inherited(service.settings, scope),
        ) == service.defaults_of(scope),
        service.settings_of(scope, at).scope == scope,
{
    let chain = settings_service::chain_of(scope);
    lemma_scope_ends_its_chain(scope);
    assert(chain.drop_last() =~= settings_service::before(chain, scope));
    settings_service::lemma_place_holds_scope(service.settings, scope);
    law_nothing_changes_nothing(settings_service::inherited(service.settings, scope));
}

/// An accepted update is what holds for its scope from then on, and its audit entry says
/// what held before and what holds now.
pub proof fn law_update_takes_effect(
    service: InMemoryToolOutputSettingsServiceModel,
    actor: ActorModel,
    scope: ToolOutputSettingsScopeModel,
    update: ToolOutputOverrides,
    reason: Seq<char>,
    at: LedgerTimestamp,
)
    requires
        service.update_problem(scope, update, reason, at) is None,
    ensures
        service.change(actor, scope, update, reason, at).old_defaults == service.defaults_of(scope),
        service.change(actor, scope, update, reason, at).new_defaults == service.updated(
            actor,
            scope,
            update,
            reason,
            at,
        ).defaults_of(scope),
        service.change(actor, scope, update, reason, at).new_defaults == update.applied_to(
            service.defaults_of(scope),
        ),
{
    let settings = service.settings;
    let after = service.updated(actor, scope, update, reason, at).settings;
    let chain = settings_service::chain_of(scope);
    let parents = settings_service::before(chain, scope);
    lemma_scope_ends_its_chain(scope);
    assert(chain.drop_last() =~= parents);
    settings_service::lemma_place_holds_scope(settings, scope);
    assert forall|i: int| 0 <= i < parents.len() implies found(
        settings,
        #[trigger] parents[i],
    ) == found(after, parents[i]) by {
        assert(parents.contains(parents[i]));
        lemma_found_after_update(service, actor, scope, update, reason, at, parents[i]);
    }
    lemma_resolved_alike(settings, after, parents);
    lemma_found_after_update(service, actor, scope, update, reason, at, scope);
    let inherited = settings_service::inherited(settings, scope);
    law_merging_applies_in_turn(
        service.settings_of(scope, at).own_overrides(inherited),
        update,
        inherited,
    );
}

/// An update leaves alone what holds for scopes that do not build on the updated one.
pub proof fn law_update_leaves_other_scopes_alone(
    service: InMemoryToolOutputSettingsServiceModel,
    actor: ActorModel,
    scope: ToolOutputSettingsScopeModel,
    update: ToolOutputOverrides,
    reason: Seq<char>,
    at: LedgerTimestamp,
    other: ToolOutputSettingsScopeModel,
)
    requires
        !settings_service::chain_of(other).contains(scope),
    ensures
        service.updated(actor, scope, update, reason, at).defaults_of(other)
            == service.defaults_of(other),
{
    let after = service.updated(actor, scope, update, reason, at).settings;
    let chain = settings_service::chain_of(other);
    assert forall|i: int| 0 <= i < chain.len() implies found(service.settings, #[trigger] chain[i])
        == found(after, chain[i]) by {
        assert(chain.contains(chain[i]));
        lemma_found_after_update(service, actor, scope, update, reason, at, chain[i]);
    }
    lemma_resolved_alike(service.settings, after, chain);
}

/// No two settings are of one scope.
pub open spec fn scopes_are_unique(settings: Seq<ToolOutputSettingsModel>) -> bool {
    forall|i: int, j: int|
        0 <= i < j < settings.len() ==> (#[trigger] settings[i]).scope != (
        #[trigger] settings[j]).scope
}

/// Updates keep scopes apart.
pub proof fn law_updates_keep_scopes_unique(
    service: InMemoryToolOutputSettingsServiceModel,
    actor: ActorModel,
    scope: ToolOutputSettingsScopeModel,
    update: ToolOutputOverrides,
    reason: Seq<char>,
    at: LedgerTimestamp,
)
    requires
        scopes_are_unique(service.settings),
    ensures
        scopes_are_unique(service.updated(actor, scope, update, reason, at).settings),
{
    settings_service::lemma_place_holds_scope(service.settings, scope);
}

/// All limits that settings settle are within their ranges.
pub open spec fn within_ranges(settings: Seq<ToolOutputSettingsModel>) -> bool {
    forall|i: int| 0 <= i < settings.len() ==> settles_in_range(#[trigger] settings[i])
}

pub open spec fn settles_in_range(s: ToolOutputSettingsModel) -> bool {
    &&& s.overrides.range_problem() is None
    &&& s.legacy_defaults matches Some(d) ==> d.range_problem() is None
}

/// Where all settled limits are within their ranges, so are those that come of them.
pub proof fn law_resolved_limits_are_in_range(
    settings: Seq<ToolOutputSettingsModel>,
    scopes: Seq<ToolOutputSettingsScopeModel>,
)
    requires
        within_ranges(settings),
    ensures
        settings_service::resolved(settings, scopes).range_problem() is None,
    decreases scopes.len(),
{
    if scopes.len() > 0 {
        law_resolved_limits_are_in_range(settings, scopes.drop_last());
        settings_service::lemma_place_holds_scope(settings, scopes.last());
        let at = settings_service::place_of(settings, scopes.last());
        if at < settings.len() {
            assert(settles_in_range(settings[at]));
        }
    }
}

/// Accepted updates keep all settled limits within their ranges.
pub proof fn law_updates_keep_limits_in_range(
    service: InMemoryToolOutputSettingsServiceModel,
    actor: ActorModel,
    scope: ToolOutputSettingsScopeModel,
    update: ToolOutputOverrides,
    reason: Seq<char>,
    at: LedgerTimestamp,
)
    requires
        within_ranges(service.settings),
        service.update_problem(scope, update, reason, at) is None,
    ensures
        within_ranges(service.updated(actor, scope, update, reason, at).settings),
{
    let settings = service.settings;
    let after = service.updated(actor, scope, update, reason, at).settings;
    settings_service::lemma_place_holds_scope(settings, scope);
    let place = settings_service::place_of(settings, scope);
    if place < settings.len() {
        assert(settles_in_range(settings[place]));
    }
    assert(settles_in_range(service.settings_of(scope, at)));
    assert forall|i: int| 0 <= i < after.len() implies settles_in_range(#[trigger] after[i]) by {
        if i < settings.len() && i != place {
            assert(after[i] == settings[i]);
        }
    }
}

/// One step of migration keeps what holds for the workspace and for a level.
proof fn lemma_step_keeps_level(
    settings: Seq<ToolOutputSettingsModel>,
    at: int,
    scope: ToolOutputSettingsScopeModel,
)
    requires
        0 <= at < settings.len(),
        scope.tool_id is None,
    ensures
        settings_service::resolved(
            settings_service::migrated_at(settings, at),
            settings_service::chain_of(scope),
        ) == settings_service::resolved(settings, settings_service::chain_of(scope)),
    decreases (if scope == ToolOutputSettingsScopeModel::whole_workspace() { 0int } else { 1int }),
{
    let workspace = ToolOutputSettingsScopeModel::whole_workspace();
    let after = settings_service::migrated_at(settings, at);
    let chain = settings_service::chain_of(scope);
    let parents = settings_service::before(chain, scope);
    lemma_scope_ends_its_chain(scope);
    assert(chain.drop_last() =~= parents);
    if scope != workspace {
        lemma_step_keeps_level(settings, at, workspace);
        lemma_scope_ends_its_chain(workspace);
        assert(!seq![workspace].contains(scope)) by {
            assert(seq![workspace][0] == workspace);
        }
        assert(scope == ToolOutputSettingsScopeModel::at(scope.level));
        assert(chain =~= seq![workspace, scope]);
        assert(parents =~= seq![workspace]);
        assert(settings_service::chain_of(workspace) =~= seq![workspace]) by {
            assert(seq![workspace][0] == workspace);
        }
    } else {
        assert(chain =~= seq![workspace]) by {
            assert(seq![workspace][0] == workspace);
        }
        assert(parents =~= Seq::empty());
    }
    assert(settings_service::resolved(after, parents) == settings_service::resolved(
        settings,
        parents,
    ));
    let migrated = settings[at].migrated(
        settings_service::inherited(settings, settings[at].scope),
    );
    settings_service::lemma_place_holds_scope(settings, scope);
    lemma_found_after_replacing(settings, at, migrated, scope);
    settings_service::lemma_place_holds_scope(after, scope);
    if settings_service::place_of(settings, scope) == at {
        let inherited = settings_service::inherited(settings, scope);
        if settings[at].legacy_defaults is Some {
            law_differences_restore_defaults(settings[at].legacy_defaults->0, inherited);
        }
    }
    assert(found(after, scope) is Some <==> found(settings, scope) is Some);
}

proof fn lemma_steps_keep_level(
    settings: Seq<ToolOutputSettingsModel>,
    of_tools: bool,
    n: int,
    scope: ToolOutputSettingsScopeModel,
)
    requires
        0 <= n <= settings.len(),
        scope.tool_id is None,
    ensures
        settings_service::migrated_to(settings, of_tools, n).len() == settings.len(),
        settings_service::resolved(
            settings_service::migrated_to(settings, of_tools, n),
            settings_service::chain_of(scope),
        ) == settings_service::resolved(settings, settings_service::chain_of(scope)),
    decreases n,
{
    if n > 0 {
        lemma_steps_keep_level(settings, of_tools, n - 1, scope);
        let earlier = settings_service::migrated_to(settings, of_tools, n - 1);
        lemma_step_keeps_level(earlier, n - 1, scope);
    }
}

/// Turning whole defaults into overrides changes nothing of what holds for the workspace
/// or for a level as a whole.
pub proof fn law_migration_keeps_levels(
    settings: Seq<ToolOutputSettingsModel>,
    scope: ToolOutputSettingsScopeModel,
)
    requires
        scope.tool_id is None,
    ensures
        settings_service::resolved(
            settings_service::migrated(settings),
            settings_service::chain_of(scope),
        ) == settings_service::resolved(settings, settings_service::chain_of(scope)),
{
    let n = settings.len() as int;
    lemma_steps_keep_level(settings, false, n, scope);
    lemma_steps_keep_level(settings_service::migrated_to(settings, false, n), true, n, scope);
}

} // verus!
