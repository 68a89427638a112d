//! Which settings hold for a tool's output, and what comes of them.
use vstd::prelude::*;

use crate::domain::{ActorModel, LedgerTimestamp};
use crate::settings::{
    ToolOutputDefaults, ToolOutputOverrides, ToolOutputSettingsErrorModel,
    ToolOutputSettingsLevelModel, ToolOutputSettingsModel, ToolOutputSettingsScopeModel,
};
use crate::settings_service;
use crate::settings_service::InMemoryToolOutputSettingsServiceModel;
use crate::tool_output::RenderOptions;

verus! {

/// What holds where nothing is settled.
pub proof fn law_standard_output_is_compact()
    ensures
        ({
            let d = ToolOutputDefaults::standard();
            &&& d.render_options.format is Toon
            &&& !d.render_options.include_policy
            &&& !d.render_options.include_diagnostics
            &&& !d.render_options.include_cost
            &&& d.max_inline_bytes == 16384
            &&& d.max_inline_lines == 200
            &&& d.verbosity is Normal
            &&& d.granularity is KeyFields
            &&& d.oversize_policy is TruncateWithMetadata
            &&& d.range_problem() is None
        }),
{
}

/// Bytes are limited to a number from 256 to 1048576, lines to one from 1 to 10000; the bytes
/// are looked at first.
pub proof fn law_limits_have_their_ranges(d: ToolOutputDefaults)
    ensures
        d.range_problem() is None <==> 256 <= d.max_inline_bytes <= 1048576 && 1
            <= d.max_inline_lines <= 10000,
        !(256 <= d.max_inline_bytes <= 1048576) ==> d.range_problem() == Some(
            ToolOutputSettingsErrorModel::MaxInlineBytesOutOfRange {
                value: d.max_inline_bytes,
                min: 256,
                max: 1048576,
            },
        ),
        256 <= d.max_inline_bytes <= 1048576 && !(1 <= d.max_inline_lines <= 10000)
            ==> d.range_problem() == Some(
            ToolOutputSettingsErrorModel::MaxInlineLinesOutOfRange {
                value: d.max_inline_lines,
                min: 1,
                max: 10000,
            },
        ),
{
}

/// Overrides are in range exactly where the limits that they settle are.
pub proof fn law_settled_limits_have_their_ranges(own: ToolOutputOverrides)
    ensures
        own.range_problem() is None <==> {
            &&& own.max_inline_bytes matches Some(bytes) ==> 256 <= bytes <= 1048576
            &&& own.max_inline_lines matches Some(lines) ==> 1 <= lines <= 10000
        },
{
}

/// What is settled holds; what is not is inherited.
pub open spec fn holds<T>(own: Option<T>, inherited: T, value: T) -> bool {
    match own {
        Some(settled) => value == settled,
        None => value == inherited,
    }
}

/// Field by field, what is settled holds and what is not is inherited.
pub proof fn law_what_is_settled_holds(own: ToolOutputOverrides, d: ToolOutputDefaults)
    ensures
        ({
            let given = d.render_options;
            let r = own.applied_to(d);
            &&& holds(own.format, given.format, r.render_options.format)
            &&& holds(own.include_policy, given.include_policy, r.render_options.include_policy)
            &&& holds(
                own.include_diagnostics,
                given.include_diagnostics,
                r.render_options.include_diagnostics,
            )
            &&& holds(own.include_cost, given.include_cost, r.render_options.include_cost)
            &&& holds(own.max_inline_bytes, d.max_inline_bytes, r.max_inline_bytes)
            &&& holds(own.max_inline_lines, d.max_inline_lines, r.max_inline_lines)
            &&& holds(own.verbosity, d.verbosity, r.verbosity)
            &&& holds(own.granularity, d.granularity, r.granularity)
            &&& holds(own.oversize_policy, d.oversize_policy, r.oversize_policy)
        }),
{
}

/// The later word counts; where there is none, the earlier one stays.
pub open spec fn overruled<T>(earlier: Option<T>, update: Option<T>, now: Option<T>) -> bool {
    if update is Some {
        now == update
    } else {
        now == earlier
    }
}

/// Field by field, an update overrules what was settled before.
pub proof fn law_updates_overrule_field_by_field(
    earlier: ToolOutputOverrides,
    update: ToolOutputOverrides,
)
    ensures
        ({
            let now = earlier.merged(update);
            &&& overruled(earlier.format, update.format, now.format)
            &&& overruled(earlier.include_policy, update.include_policy, now.include_policy)
            &&& overruled(
                earlier.include_diagnostics,
                update.include_diagnostics,
                now.include_diagnostics,
            )
            &&& overruled(earlier.include_cost, update.include_cost, now.include_cost)
            &&& overruled(earlier.max_inline_bytes, update.max_inline_bytes, now.max_inline_bytes)
            &&& overruled(earlier.max_inline_lines, update.max_inline_lines, now.max_inline_lines)
            &&& overruled(earlier.verbosity, update.verbosity, now.verbosity)
            &&& overruled(earlier.granularity, update.granularity, now.granularity)
            &&& overruled(earlier.oversize_policy, update.oversize_policy, now.oversize_policy)
        }),
{
}

/// Overrides that settle nothing leave everything as it is, and only those are empty.
pub proof fn law_only_empty_overrides_settle_nothing(own: ToolOutputOverrides)
    ensures
        own == ToolOutputOverrides::nothing() <==> {
            &&& own.format is None
            &&& own.include_policy is None
            &&& own.include_diagnostics is None
            &&& own.include_cost is None
            &&& own.max_inline_bytes is None
            &&& own.max_inline_lines is None
            &&& own.verbosity is None
            &&& own.granularity is None
            &&& own.oversize_policy is None
        },
{
}

/// The optional channels follow the verbosity: policy and diagnostics from `Expanded` on, the
/// cost in `Debug` alone; the format is the one asked for, or the settled one.
pub proof fn law_verbosity_opens_channels(d: ToolOutputDefaults, requested: Option<RenderOptions>)
    ensures
        ({
            let shown = d.policy_for(requested).render_options;
            &&& requested is Some ==> shown.format == requested->0.format
            &&& requested is None ==> shown.format == d.render_options.format
            &&& d.verbosity is Minimal || d.verbosity is Normal ==> !shown.include_policy
                && !shown.include_diagnostics && !shown.include_cost
            &&& d.verbosity is Expanded ==> shown.include_policy && shown.include_diagnostics
                && !shown.include_cost
            &&& d.verbosity is Debug ==> shown.include_policy && shown.include_diagnostics
                && shown.include_cost
        }),
{
}

/// A summary shows one field, key fields are three, both within the line limit; in full, all
/// fields are shown. A summary leaves out evidence, references and redactions.
pub proof fn law_granularity_limits_fields(d: ToolOutputDefaults, requested: Option<RenderOptions>)
    ensures
        ({
            let shown = d.policy_for(requested);
            &&& shown.max_inline_lines is Some
            &&& shown.max_inline_lines->0 == d.max_inline_lines
            &&& d.granularity is Full ==> shown.max_fields is None
            &&& d.granularity is Summary ==> {
                &&& shown.max_fields is Some
                &&& shown.max_fields->0 <= 1
                &&& shown.max_fields->0 <= d.max_inline_lines
                &&& shown.max_fields->0 == 1 || shown.max_fields->0 == d.max_inline_lines
            }
            &&& d.granularity is KeyFields ==> {
                &&& shown.max_fields is Some
                &&& shown.max_fields->0 <= 3
                &&& shown.max_fields->0 <= d.max_inline_lines
                &&& shown.max_fields->0 == 3 || shown.max_fields->0 == d.max_inline_lines
            }
            &&& shown.include_evidence_refs <==> !(d.granularity is Summary)
            &&& shown.include_output_refs <==> !(d.granularity is Summary)
            &&& shown.include_redactions <==> !(d.granularity is Summary)
        }),
{
}

/// One scope's settings over the defaults below: they are applied where the scope has any.
pub open spec fn lies_over(
    settings: Seq<ToolOutputSettingsModel>,
    scope: ToolOutputSettingsScopeModel,
    below: ToolOutputDefaults,
    above: ToolOutputDefaults,
) -> bool {
    &&& (forall|i: int| 0 <= i < settings.len() ==> (#[trigger] settings[i]).scope != scope)
        ==> above == below
    &&& forall|i: int|
        0 <= i < settings.len() && (#[trigger] settings[i]).scope == scope
            && settings[i].legacy_defaults is None ==> above == settings[i].overrides.applied_to(
            below,
        )
    &&& forall|i: int|
        0 <= i < settings.len() && (#[trigger] settings[i]).scope == scope
            && settings[i].legacy_defaults is Some ==> above == settings[i].legacy_defaults->0
}

proof fn lemma_one_layer(
    settings: Seq<ToolOutputSettingsModel>,
    scopes: Seq<ToolOutputSettingsScopeModel>,
)
    requires
        crate::settings_laws::scopes_are_unique(settings),
        scopes.len() > 0,
    ensures
        lies_over(
            settings,
            scopes.last(),
            settings_service::resolved(settings, scopes.drop_last()),
            settings_service::resolved(settings, scopes),
        ),
{
    let scope = scopes.last();
    let below = settings_service::resolved(settings, scopes.drop_last());
    let above = settings_service::resolved(settings, scopes);
    let at = settings_service::place_of(settings, scope);
    settings_service::lemma_place_holds_scope(settings, scope);
    assert forall|i: int| 0 <= i < settings.len() && (#[trigger] settings[i]).scope == scope implies i
        == at by {
        if i < at {
            assert(settings[i].scope != scope);
        }
        if at < i {
            assert(settings[at].scope != settings[i].scope);
        }
    }
    if at < settings.len() {
        assert(settings[at].scope == scope);
        if settings[at].legacy_defaults is Some {
            crate::settings_laws::law_differences_restore_defaults(
                settings[at].legacy_defaults->0,
                below,
            );
        }
    }
}

/// The settings of all tools at a level lie over those of all tools in the workspace.
pub proof fn law_levels_lie_over_the_workspace(
    service: InMemoryToolOutputSettingsServiceModel,
    level: ToolOutputSettingsLevelModel,
)
    requires
        crate::settings_laws::scopes_are_unique(service.settings),
    ensures
        ({
            let workspace = ToolOutputSettingsScopeModel {
                level: ToolOutputSettingsLevelModel::Workspace,
                tool_id: None,
            };
            let here = ToolOutputSettingsScopeModel { level, tool_id: None };
            &&& lies_over(
                service.settings,
                workspace,
                ToolOutputDefaults::standard(),
                service.defaults_of(workspace),
            )
            &&& !(level is Workspace) ==> lies_over(
                service.settings,
                here,
                service.defaults_of(workspace),
                service.defaults_of(here),
            )
        }),
{
    let workspace = ToolOutputSettingsScopeModel {
        level: ToolOutputSettingsLevelModel::Workspace,
        tool_id: None,
    };
    let here = ToolOutputSettingsScopeModel { level, tool_id: None };
    assert(seq![workspace].contains(workspace)) by {
        assert(seq![workspace][0] == workspace);
    }
    assert(settings_service::chain_of(workspace) =~= seq![workspace]);
    assert(seq![workspace].drop_last() =~= seq![]);
    lemma_one_layer(service.settings, seq![workspace]);
    if !(level is Workspace) {
        assert(!seq![workspace].contains(here));
        assert(settings_service::chain_of(here) =~= seq![workspace, here]);
        assert(seq![workspace, here].drop_last() =~= seq![workspace]);
        lemma_one_layer(service.settings, seq![workspace, here]);
    }
}

/// For a tool at a level, the tool's settings in the workspace lie over those of all tools at
/// the level, and its settings at the level lie over these.
pub proof fn law_tools_lie_over_levels(
    service: InMemoryToolOutputSettingsServiceModel,
    level: ToolOutputSettingsLevelModel,
    tool: Seq<char>,
)
    requires
        crate::settings_laws::scopes_are_unique(service.settings),
    ensures
        ({
            let everywhere = ToolOutputSettingsScopeModel {
                level: ToolOutputSettingsLevelModel::Workspace,
                tool_id: Some(tool),
            };
            let all = ToolOutputSettingsScopeModel { level, tool_id: None };
            let here = ToolOutputSettingsScopeModel { level, tool_id: Some(tool) };
            &&& level is Workspace ==> lies_over(
                service.settings,
                here,
                service.defaults_of(all),
                service.defaults_of(here),
            )
            &&& !(level is Workspace) ==> exists|between: ToolOutputDefaults|
                {
                    &&& #[trigger] lies_over(
                        service.settings,
                        everywhere,
                        service.defaults_of(all),
                        between,
                    )
                    &&& lies_over(service.settings, here, between, service.defaults_of(here))
                }
        }),
{
    let workspace = ToolOutputSettingsScopeModel {
        level: ToolOutputSettingsLevelModel::Workspace,
        tool_id: None,
    };
    let everywhere = ToolOutputSettingsScopeModel {
        level: ToolOutputSettingsLevelModel::Workspace,
        tool_id: Some(tool),
    };
    let all = ToolOutputSettingsScopeModel { level, tool_id: None };
    let here = ToolOutputSettingsScopeModel { level, tool_id: Some(tool) };
    assert(seq![workspace].contains(workspace)) by {
        assert(seq![workspace][0] == workspace);
    }
    if level is Workspace {
        assert(!seq![workspace].contains(here));
        let chain = seq![workspace].push(here);
        assert(chain.contains(here)) by {
            assert(chain[1] == here);
        }
        assert(settings_service::chain_of(here) =~= chain);
        assert(settings_service::chain_of(all) =~= seq![workspace]);
        assert(chain.drop_last() =~= seq![workspace]);
        lemma_one_layer(service.settings, chain);
    } else {
        assert(!seq![workspace].contains(all));
        let levels = seq![workspace].push(all);
        assert(!levels.contains(everywhere));
        let tools = levels.push(everywhere);
        assert(!tools.contains(here));
        let chain = tools.push(here);
        assert(settings_service::chain_of(all) =~= levels);
        assert(settings_service::chain_of(here) =~= chain);
        assert(chain.drop_last() =~= tools);
        assert(tools.drop_last() =~= levels);
        lemma_one_layer(service.settings, tools);
        lemma_one_layer(service.settings, chain);
    }
}

/// An update is refused exactly where it settles nothing, gives no reason, or leads out of the
/// ranges, in this order.
pub proof fn law_updates_need_content_and_reason(
    service: InMemoryToolOutputSettingsServiceModel,
    scope: ToolOutputSettingsScopeModel,
    update: ToolOutputOverrides,
    reason: Seq<char>,
    at: LedgerTimestamp,
)
    ensures
        ({
            let problem = service.update_problem(scope, update, reason, at);
            let result = update.applied_to(service.defaults_of(scope));
            let empty = update == ToolOutputOverrides::nothing();
            let silent = crate::text_laws::all_white(reason);
            &&& empty ==> problem == Some(ToolOutputSettingsErrorModel::EmptyUpdate)
            &&& !empty && silent ==> problem == Some(ToolOutputSettingsErrorModel::MissingReason)
            &&& !empty && !silent ==> problem == result.range_problem()
        }),
{
    crate::text_laws::law_blank_is_white(reason);
    crate::settings_laws::lemma_settled_defaults(service, scope, at);
}

/// The change that an update leaves in the history names who made it, where, when and why.
pub proof fn law_changes_name_their_authors(
    service: InMemoryToolOutputSettingsServiceModel,
    actor: ActorModel,
    scope: ToolOutputSettingsScopeModel,
    update: ToolOutputOverrides,
    reason: Seq<char>,
    at: LedgerTimestamp,
)
    ensures
        ({
            let after = service.updated(actor, scope, update, reason, at);
            let change = after.changes[service.changes.len() as int];
            &&& after.changes.len() == service.changes.len() + 1
            &&& forall|i: int|
                0 <= i < service.changes.len() ==> #[trigger] after.changes[i]
                    == service.changes[i]
            &&& change.schema_version == 1
            &&& change.actor == actor
            &&& change.scope == scope
            &&& change.reason == reason
            &&& change.changed_at == at
            &&& change.old_defaults == service.defaults_of(scope)
            &&& change.new_defaults == update.applied_to(service.defaults_of(scope))
        }),
{
    crate::settings_laws::lemma_settled_defaults(service, scope, at);
    settings_service::lemma_place_holds_scope(service.settings, scope);
}

/// An updated scope's settings name the author and the time of the update; where the scope
/// had none they come behind the others, and the others stay as they are.
pub proof fn law_updated_settings_name_their_authors(
    service: InMemoryToolOutputSettingsServiceModel,
    actor: ActorModel,
    scope: ToolOutputSettingsScopeModel,
    update: ToolOutputOverrides,
    reason: Seq<char>,
    at: LedgerTimestamp,
    i: int,
)
    requires
        crate::settings_laws::scopes_are_unique(service.settings),
    ensures
        ({
            let after = service.updated(actor, scope, update, reason, at).settings;
            let known = exists|j: int|
                0 <= j < service.settings.len() && (#[trigger] service.settings[j]).scope == scope;
            &&& after.len() == service.settings.len() + if known {
                0int
            } else {
                1
            }
            &&& 0 <= i < after.len() && after[i].scope == scope ==> {
                &&& after[i].updated_by == Some(actor)
                &&& after[i].updated_at == at
                &&& after[i].legacy_defaults is None
                &&& !known ==> i == service.settings.len() && after[i].overrides
                    == ToolOutputOverrides::nothing().merged(update) && after[i].schema_version == 1
                &&& known ==> i < service.settings.len() && service.settings[i].scope == scope
                    && after[i].schema_version == service.settings[i].schema_version
                &&& known && service.settings[i].legacy_defaults is None ==> after[i].overrides
                    == service.settings[i].overrides.merged(update)
            }
            &&& 0 <= i < service.settings.len() && service.settings[i].scope != scope ==> after[i]
                == service.settings[i]
        }),
{
    settings_service::lemma_place_holds_scope(service.settings, scope);
    let place = settings_service::place_of(service.settings, scope);
    if place < service.settings.len() {
        assert(service.settings[place].scope == scope);
        if 0 <= i < service.settings.len() && service.settings[i].scope == scope {
            if i < place {
                assert(service.settings[i].scope != scope);
            }
            if place < i {
                assert(service.settings[place].scope != service.settings[i].scope);
            }
        }
    }
}

/// Written settings come with overrides or with whole defaults, and not with both.
pub proof fn law_payloads_come_in_one_form(
    overrides: Option<ToolOutputOverrides>,
    defaults: Option<ToolOutputDefaults>,
)
    ensures
        crate::settings::payload_problem(overrides, defaults) is None <==> overrides is Some
            != defaults is Some,
{
}

/// Settings are taken together exactly where no two are of one scope; the first that repeats
/// another's scope is named.
pub proof fn law_scopes_are_settled_once(settings: Seq<ToolOutputSettingsModel>)
    ensures
        settings_service::duplicate_problem(settings) is None
            <==> crate::settings_laws::scopes_are_unique(settings),
        settings_service::duplicate_problem(settings) matches Some(error) ==> exists|i: int, j: int|
            {
                &&& 0 <= i < j < settings.len()
                &&& (#[trigger] settings[i]).scope == (#[trigger] settings[j]).scope
                &&& error == (ToolOutputSettingsErrorModel::DuplicateScope {
                    scope: settings[j].scope,
                })
            },
{
    lemma_scopes_settled_once(settings, settings.len() as int);
}

proof fn lemma_scopes_settled_once(settings: Seq<ToolOutputSettingsModel>, n: int)
    requires
        0 <= n <= settings.len(),
    ensures
        ({
            let problem = crate::checks::first_problem(
                settings_service::duplicate_checks(settings),
                n,
            );
            &&& problem is None <==> forall|i: int, j: int|
                0 <= i < j < n ==> (#[trigger] settings[i]).scope != (#[trigger] settings[j]).scope
            &&& problem matches Some(error) ==> exists|i: int, j: int|
                {
                    &&& 0 <= i < j < n
                    &&& (#[trigger] settings[i]).scope == (#[trigger] settings[j]).scope
                    &&& error == (ToolOutputSettingsErrorModel::DuplicateScope {
                        scope: settings[j].scope,
                    })
                }
        }),
    decreases n,
{
    if n > 0 {
        let checks = settings_service::duplicate_checks(settings);
        lemma_scopes_settled_once(settings, n - 1);
        let scopes = settings_service::scopes_of(settings);
        let earlier = scopes.take(n - 1);
        assert forall|i: int| 0 <= i < n - 1 implies earlier[i] == (#[trigger] settings[i]).scope by {
            assert(scopes[i] == settings[i].scope);
        }
        if earlier.contains(settings[n - 1].scope) {
            let i = choose|i: int| 0 <= i < earlier.len() && earlier[i] == settings[n - 1].scope;
            assert(settings[i].scope == settings[n - 1].scope);
        } else {
            assert forall|i: int| 0 <= i < n - 1 implies (#[trigger] settings[i]).scope != settings[n
                - 1].scope by {
                assert(earlier[i] == settings[i].scope);
            }
        }
    }
}

/// Settings that are taken together have those of the workspace among them: the given ones,
/// or else fresh ones behind the others, which settle nothing.
pub proof fn law_the_workspace_always_has_settings(
    settings: Seq<ToolOutputSettingsModel>,
    at: LedgerTimestamp,
)
    ensures
        ({
            let all = settings_service::with_workspace(settings, at);
            let given = exists|i: int|
                0 <= i < settings.len() && is_of_the_workspace(#[trigger] settings[i]);
            &&& given ==> all == settings
            &&& !given ==> {
                &&& all.len() == settings.len() + 1
                &&& forall|i: int| 0 <= i < settings.len() ==> #[trigger] all[i] == settings[i]
                &&& is_of_the_workspace(all[settings.len() as int])
                &&& all[settings.len() as int].overrides == ToolOutputOverrides::nothing()
                &&& all[settings.len() as int].legacy_defaults is None
                &&& all[settings.len() as int].updated_at == at
                &&& all[settings.len() as int].updated_by is None
                &&& all[settings.len() as int].schema_version == 1
            }
        }),
{
    let workspace = ToolOutputSettingsScopeModel::whole_workspace();
    settings_service::lemma_place_holds_scope(settings, workspace);
    let place = settings_service::place_of(settings, workspace);
    if place < settings.len() {
        assert(is_of_the_workspace(settings[place]));
    } else {
        assert forall|i: int| 0 <= i < settings.len() implies !is_of_the_workspace(
            #[trigger] settings[i],
        ) by {
            assert(settings[i].scope != workspace);
        }
    }
}

/// The settings are those of all tools in the workspace.
pub open spec fn is_of_the_workspace(s: ToolOutputSettingsModel) -> bool {
    s.scope.level is Workspace && s.scope.tool_id is None
}

/// After a migration no settings come as whole defaults; each keeps its scope and history, and
/// those that came as overrides stay as they are.
pub proof fn law_migration_leaves_overrides_only(settings: Seq<ToolOutputSettingsModel>, i: int)
    requires
        0 <= i < settings.len(),
    ensures
        ({
            let all = settings_service::migrated(settings);
            &&& all.len() == settings.len()
            &&& all[i].legacy_defaults is None
            &&& all[i].scope == settings[i].scope
            &&& all[i].updated_at == settings[i].updated_at
            &&& all[i].updated_by == settings[i].updated_by
            &&& all[i].schema_version == settings[i].schema_version
            &&& settings[i].legacy_defaults is None ==> all[i] == settings[i]
        }),
{
    let n = settings.len() as int;
    lemma_migrated_to(settings, false, n, i);
    let between = settings_service::migrated_to(settings, false, n);
    lemma_migrated_to(between, true, n, i);
}

proof fn lemma_migrated_to(
    settings: Seq<ToolOutputSettingsModel>,
    of_tools: bool,
    n: int,
    i: int,
)
    requires
        0 <= i < settings.len(),
        0 <= n <= settings.len(),
    ensures
        ({
            let all = settings_service::migrated_to(settings, of_tools, n);
            &&& all.len() == settings.len()
            &&& i < n && settings[i].scope.tool_id is Some == of_tools
                ==> all[i].legacy_defaults is None
            &&& all[i].scope == settings[i].scope
            &&& all[i].updated_at == settings[i].updated_at
            &&& all[i].updated_by == settings[i].updated_by
            &&& all[i].schema_version == settings[i].schema_version
            &&& settings[i].legacy_defaults is None ==> all[i] == settings[i]
        }),
    decreases n,
{
    if n > 0 {
        lemma_migrated_to(settings, of_tools, n - 1, i);
        lemma_migrated_to(settings, of_tools, n - 1, n - 1);
    }
}

} // verus!
