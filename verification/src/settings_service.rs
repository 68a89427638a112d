//! The settings of all scopes, with the history of their changes.
use vstd::prelude::*;

use crate::checks;
use crate::domain::{Actor, ActorModel, LedgerTimestamp};
use crate::record::Record;
use crate::settings::{
    ToolOutputDefaults, ToolOutputOverrides, ToolOutputSettings, ToolOutputSettingsChange,
    ToolOutputSettingsChangeModel, ToolOutputSettingsError, ToolOutputSettingsErrorModel,
    ToolOutputSettingsModel, ToolOutputSettingsScope, ToolOutputSettingsScopeModel,
};
use crate::tool_output::RenderOptions;

verus! {

/// A list with an item at its end that it did not hold yet.
pub open spec fn pushed_once(
    chain: Seq<ToolOutputSettingsScopeModel>,
    scope: ToolOutputSettingsScopeModel,
) -> Seq<ToolOutputSettingsScopeModel> {
    if chain.contains(scope) {
        chain
    } else {
        chain.push(scope)
    }
}

/// The scopes whose settings hold for `scope`, the later before the earlier: the
/// workspace, the scope's level, the tool in the workspace, and the scope itself.
pub open spec fn chain_of(scope: ToolOutputSettingsScopeModel) -> Seq<
    ToolOutputSettingsScopeModel,
> {
    let workspace = ToolOutputSettingsScopeModel::whole_workspace();
    let levels = pushed_once(seq![workspace], ToolOutputSettingsScopeModel::at(scope.level));
    if scope.tool_id is Some {
        pushed_once(
            pushed_once(
                levels,
                ToolOutputSettingsScopeModel { tool_id: scope.tool_id, ..workspace },
            ),
            scope,
        )
    } else {
        levels
    }
}

/// The scopes that stand before `scope` in a chain.
pub open spec fn before(
    chain: Seq<ToolOutputSettingsScopeModel>,
    scope: ToolOutputSettingsScopeModel,
) -> Seq<ToolOutputSettingsScopeModel>
    decreases chain.len(),
{
    if chain.len() == 0 || chain[0] == scope {
        Seq::empty()
    } else {
        seq![chain[0]] + before(chain.drop_first(), scope)
    }
}

/// The place of the settings of a scope; the number of settings where it has none.
pub open spec fn place_of(
    settings: Seq<ToolOutputSettingsModel>,
    scope: ToolOutputSettingsScopeModel,
) -> int
    decreases settings.len(),
{
    if settings.len() == 0 || settings[0].scope == scope {
        0
    } else {
        1 + place_of(settings.drop_first(), scope)
    }
}

/// The defaults that come of the settings of some scopes, one over the other.
pub open spec fn resolved(
    settings: Seq<ToolOutputSettingsModel>,
    scopes: Seq<ToolOutputSettingsScopeModel>,
) -> ToolOutputDefaults
    decreases scopes.len(),
{
    if scopes.len() == 0 {
        ToolOutputDefaults::standard()
    } else {
        let inherited = resolved(settings, scopes.drop_last());
        let at = place_of(settings, scopes.last());
        if at < settings.len() {
            settings[at].defaults_over(inherited)
        } else {
            inherited
        }
    }
}

/// The defaults that a scope inherits.
pub open spec fn inherited(
    settings: Seq<ToolOutputSettingsModel>,
    scope: ToolOutputSettingsScopeModel,
) -> ToolOutputDefaults {
    resolved(settings, before(chain_of(scope), scope))
}

/// The settings with whole defaults turned into overrides at one place.
pub open spec fn migrated_at(
    settings: Seq<ToolOutputSettingsModel>,
    at: int,
) -> Seq<ToolOutputSettingsModel> {
    settings.update(at, settings[at].migrated(inherited(settings, settings[at].scope)))
}

/// The first `n` settings migrated, one after the other: those of all tools, or those of
/// single ones.
pub open spec fn migrated_to(
    settings: Seq<ToolOutputSettingsModel>,
    of_tools: bool,
    n: int,
) -> Seq<ToolOutputSettingsModel>
    decreases n,
{
    if n <= 0 {
        settings
    } else {
        let earlier = migrated_to(settings, of_tools, n - 1);
        if earlier[n - 1].scope.tool_id is Some == of_tools {
            migrated_at(earlier, n - 1)
        } else {
            earlier
        }
    }
}

/// All settings migrated, those of single tools after the others.
pub open spec fn migrated(settings: Seq<ToolOutputSettingsModel>) -> Seq<ToolOutputSettingsModel> {
    let n = settings.len() as int;
    migrated_to(migrated_to(settings, false, n), true, n)
}

pub open spec fn scopes_of(settings: Seq<ToolOutputSettingsModel>) -> Seq<
    ToolOutputSettingsScopeModel,
> {
    settings.map_values(|s: ToolOutputSettingsModel| s.scope)
}

/// A scope has settings once.
pub open spec fn duplicate_checks(settings: Seq<ToolOutputSettingsModel>) -> spec_fn(
    int,
) -> Option<ToolOutputSettingsErrorModel> {
    |i: int|
        if scopes_of(settings).take(i).contains(settings[i].scope) {
            Some(ToolOutputSettingsErrorModel::DuplicateScope { scope: settings[i].scope })
        } else {
            None
        }
}

pub open spec fn duplicate_problem(settings: Seq<ToolOutputSettingsModel>) -> Option<
    ToolOutputSettingsErrorModel,
> {
    checks::first_problem(duplicate_checks(settings), settings.len() as int)
}

/// The settings with those of the workspace among them.
pub open spec fn with_workspace(
    settings: Seq<ToolOutputSettingsModel>,
    created_at: LedgerTimestamp,
) -> Seq<ToolOutputSettingsModel> {
    let workspace = ToolOutputSettingsScopeModel::whole_workspace();
    if place_of(settings, workspace) < settings.len() {
        settings
    } else {
        settings.push(ToolOutputSettingsModel::fresh(workspace, created_at))
    }
}

#[derive(Debug, PartialEq, Eq)]
pub struct InMemoryToolOutputSettingsService {
    settings: Vec<ToolOutputSettings>,
    changes: Vec<ToolOutputSettingsChange>,
}

/// What a [`InMemoryToolOutputSettingsService`] holds.
pub struct InMemoryToolOutputSettingsServiceModel {
    pub settings: Seq<ToolOutputSettingsModel>,
    pub changes: Seq<ToolOutputSettingsChangeModel>,
}

impl DeepView for InMemoryToolOutputSettingsService {
    type V = InMemoryToolOutputSettingsServiceModel;

    closed spec fn deep_view(&self) -> InMemoryToolOutputSettingsServiceModel {
        InMemoryToolOutputSettingsServiceModel {
            settings: self.settings.deep_view(),
            changes: self.changes.deep_view(),
        }
    }
}

impl View for InMemoryToolOutputSettingsService {
    type V = InMemoryToolOutputSettingsServiceModel;

    #[verifier::inline]
    open spec fn view(&self) -> InMemoryToolOutputSettingsServiceModel {
        self.deep_view()
    }
}

impl Record for InMemoryToolOutputSettingsService {
    fn duplicate(&self) -> (r: Self) {
        InMemoryToolOutputSettingsService {
            settings: self.settings.duplicate(),
            changes: self.changes.duplicate(),
        }
    }

    fn same(&self, other: &Self) -> (r: bool) {
        self.settings.same(&other.settings)
            && self.changes.same(&other.changes)
    }
}

impl Clone for InMemoryToolOutputSettingsService {
    fn clone(&self) -> (r: Self)
        ensures
            r.deep_view() == self.deep_view(),
    {
        self.duplicate()
    }
}

impl Default for InMemoryToolOutputSettingsService {
    fn default() -> (r: Self)
        ensures
            r@ == (InMemoryToolOutputSettingsServiceModel {
                settings: Seq::empty(),
                changes: Seq::empty(),
            }),
    {
        let value = InMemoryToolOutputSettingsService {
            settings: Vec::new(),
            changes: Vec::new(),
        };
        assert(value.settings.deep_view() =~= Seq::empty());
        assert(value.changes.deep_view() =~= Seq::empty());
        value
    }
}

impl InMemoryToolOutputSettingsServiceModel {
    pub open spec fn holding(settings: Seq<ToolOutputSettingsModel>) ->
        InMemoryToolOutputSettingsServiceModel {
        InMemoryToolOutputSettingsServiceModel { settings, changes: Seq::empty() }
    }

    /// The defaults that hold for a scope.
    pub open spec fn defaults_of(self, scope: ToolOutputSettingsScopeModel) -> ToolOutputDefaults {
        resolved(self.settings, chain_of(scope))
    }

    /// The settings of a scope, fresh ones where it has none yet.
    pub open spec fn settings_of(
        self,
        scope: ToolOutputSettingsScopeModel,
        created_at: LedgerTimestamp,
    ) -> ToolOutputSettingsModel {
        let at = place_of(self.settings, scope);
        if at < self.settings.len() {
            self.settings[at]
        } else {
            ToolOutputSettingsModel::fresh(scope, created_at)
        }
    }

    pub open spec fn update_problem(
        self,
        scope: ToolOutputSettingsScopeModel,
        update: ToolOutputOverrides,
        reason: Seq<char>,
        updated_at: LedgerTimestamp,
    ) -> Option<ToolOutputSettingsErrorModel> {
        self.settings_of(scope, updated_at).update_problem(
            update,
            reason,
            inherited(self.settings, scope),
        )
    }

    pub open spec fn change(
        self,
        actor: ActorModel,
        scope: ToolOutputSettingsScopeModel,
        update: ToolOutputOverrides,
        reason: Seq<char>,
        updated_at: LedgerTimestamp,
    ) -> ToolOutputSettingsChangeModel {
        self.settings_of(scope, updated_at).change(
            actor,
            update,
            reason,
            inherited(self.settings, scope),
            updated_at,
        )
    }

    /// The service after an update: the scope's settings in their place, or at the end
    /// where it had none, and the change at the end of the history.
    pub open spec fn updated(
        self,
        actor: ActorModel,
        scope: ToolOutputSettingsScopeModel,
        update: ToolOutputOverrides,
        reason: Seq<char>,
        updated_at: LedgerTimestamp,
    ) -> InMemoryToolOutputSettingsServiceModel {
        let at = place_of(self.settings, scope);
        let settings = self.settings_of(scope, updated_at).updated(
            actor,
            update,
            inherited(self.settings, scope),
            updated_at,
        );
        InMemoryToolOutputSettingsServiceModel {
            settings: if at < self.settings.len() {
                self.settings.update(at, settings)
            } else {
                self.settings.push(settings)
            },
            changes: self.changes.push(self.change(actor, scope, update, reason, updated_at)),
        }
    }
}

proof fn lemma_place_of(
    settings: Seq<ToolOutputSettingsModel>,
    scope: ToolOutputSettingsScopeModel,
)
    ensures
        0 <= place_of(settings, scope) <= settings.len(),
        place_of(settings, scope) < settings.len() ==> settings[place_of(settings, scope)].scope
            == scope,
        forall|j: int|
            0 <= j < place_of(settings, scope) ==> (#[trigger] settings[j]).scope != scope,
    decreases settings.len(),
{
    if settings.len() > 0 && settings[0].scope != scope {
        let tail = settings.drop_first();
        lemma_place_of(tail, scope);
        assert forall|j: int| 0 <= j < place_of(settings, scope) implies (
        #[trigger] settings[j]).scope != scope by {
            if j > 0 {
                assert(settings[j] == tail[j - 1]);
            }
        }
    }
}

/// The place is the first one that holds settings of the scope.
pub proof fn lemma_place_of_is(
    settings: Seq<ToolOutputSettingsModel>,
    scope: ToolOutputSettingsScopeModel,
    at: int,
)
    requires
        0 <= at <= settings.len(),
        at < settings.len() ==> settings[at].scope == scope,
        forall|j: int| 0 <= j < at ==> (#[trigger] settings[j]).scope != scope,
    ensures
        place_of(settings, scope) == at,
{
    lemma_place_of(settings, scope);
    let found = place_of(settings, scope);
    if found < at {
        assert(settings[found].scope != scope);
    }
    if at < found {
        assert(settings[at].scope != scope);
    }
}

/// What is found at a place is of the scope, and no earlier settings are.
pub proof fn lemma_place_holds_scope(
    settings: Seq<ToolOutputSettingsModel>,
    scope: ToolOutputSettingsScopeModel,
)
    ensures
        0 <= place_of(settings, scope) <= settings.len(),
        place_of(settings, scope) < settings.len() ==> settings[place_of(settings, scope)].scope
            == scope,
        forall|j: int|
            0 <= j < place_of(settings, scope) ==> (#[trigger] settings[j]).scope != scope,
{
    lemma_place_of(settings, scope);
}

fn holds_scope(
    scopes: &Vec<ToolOutputSettingsScope>,
    scope: &ToolOutputSettingsScope,
) -> (r: bool)
    ensures
        r == scopes.deep_view().contains(scope@),
{
    let ghost all = scopes.deep_view();
    let mut i: usize = 0;
    while i < scopes.len()
        invariant
            i <= scopes.len(),
            all == scopes.deep_view(),
            forall|j: int| 0 <= j < i ==> #[trigger] all[j] != scope@,
        decreases scopes.len() - i,
    {
        assert(all[i as int] == scopes[i as int]@);
        if scopes[i].same(scope) {
            return true;
        }
        i += 1;
    }
    false
}

fn push_unique(chain: &mut Vec<ToolOutputSettingsScope>, scope: ToolOutputSettingsScope)
    ensures
        final(chain).deep_view() == pushed_once(old(chain).deep_view(), scope@),
{
    if !holds_scope(chain, &scope) {
        let ghost all = chain.deep_view();
        chain.push(scope);
        assert(chain.deep_view() =~= all.push(scope@));
    }
}

fn resolution_chain(scope: &ToolOutputSettingsScope) -> (r: Vec<ToolOutputSettingsScope>)
    ensures
        r.deep_view() == chain_of(scope@),
{
    let mut chain: Vec<ToolOutputSettingsScope> = Vec::new();
    chain.push(ToolOutputSettingsScope::workspace());
    assert(chain.deep_view() =~= seq![ToolOutputSettingsScopeModel::whole_workspace()]);
    push_unique(
        &mut chain,
        ToolOutputSettingsScope { level: scope.level.clone(), tool_id: None },
    );
    match &scope.tool_id {
        Some(tool_id) => {
            push_unique(&mut chain, ToolOutputSettingsScope::workspace().for_tool(tool_id.clone()));
            push_unique(&mut chain, scope.clone());
        },
        None => {},
    }
    chain
}

impl InMemoryToolOutputSettingsService {
    pub fn new(created_at: LedgerTimestamp) -> (r: Self)
        ensures
            r@ == InMemoryToolOutputSettingsServiceModel::holding(
                seq![
                    ToolOutputSettingsModel::fresh(
                        ToolOutputSettingsScopeModel::whole_workspace(),
                        created_at,
                    ),
                ],
            ),
    {
        let mut settings: Vec<ToolOutputSettings> = Vec::new();
        settings.push(ToolOutputSettings::new(ToolOutputSettingsScope::workspace(), created_at));
        let service = InMemoryToolOutputSettingsService { settings, changes: Vec::new() };
        proof {
            assert(service@.settings =~= seq![
                ToolOutputSettingsModel::fresh(
                    ToolOutputSettingsScopeModel::whole_workspace(),
                    created_at,
                ),
            ]);
            assert(service@.changes =~= Seq::empty());
        }
        service
    }

    pub fn new_with_settings(created_at: LedgerTimestamp, settings: Vec<ToolOutputSettings>) -> (r:
        Result<Self, ToolOutputSettingsError>)
        ensures
            match r {
                Ok(service) => duplicate_problem(settings.deep_view()) is None && service@
                    == InMemoryToolOutputSettingsServiceModel::holding(
                    migrated(with_workspace(settings.deep_view(), created_at)),
                ),
                Err(error) => duplicate_problem(settings.deep_view()) == Some(error@),
            },
    {
        check_scopes(&settings)?;
        let mut service = InMemoryToolOutputSettingsService { settings, changes: Vec::new() };
        assert(service@.changes =~= Seq::empty());
        let workspace = ToolOutputSettingsScope::workspace();
        let at: usize = service.position(&workspace);
        if at >= service.settings.len() {
            let ghost all = service@.settings;
            let fresh = ToolOutputSettings::new(workspace, created_at);
            service.settings.push(fresh);
            assert(service@.settings =~= all.push(fresh@));
        }
        service.migrate_legacy_settings();
        Ok(service)
    }

    pub fn new_with_defaults(created_at: LedgerTimestamp, base_defaults: ToolOutputDefaults) -> (r:
        Self)
        ensures
            r@ == InMemoryToolOutputSettingsServiceModel::holding(
                seq![
                    ToolOutputSettingsModel {
                        overrides: ToolOutputOverrides::between(
                            base_defaults,
                            ToolOutputDefaults::standard(),
                        ),
                        ..ToolOutputSettingsModel::fresh(
                            ToolOutputSettingsScopeModel::whole_workspace(),
                            created_at,
                        )
                    },
                ],
            ),
    {
        let mut workspace = ToolOutputSettings::new(
            ToolOutputSettingsScope::workspace(),
            created_at,
        );
        workspace.overrides = ToolOutputOverrides::from_defaults(&base_defaults);
        let mut settings: Vec<ToolOutputSettings> = Vec::new();
        settings.push(workspace);
        let service = InMemoryToolOutputSettingsService { settings, changes: Vec::new() };
        proof {
            assert(service@.settings =~= seq![workspace@]);
            assert(service@.changes =~= Seq::empty());
        }
        service
    }

    fn position(&self, scope: &ToolOutputSettingsScope) -> (r: usize)
        ensures
            r == place_of(self@.settings, scope@),
            r <= self@.settings.len(),
    {
        let ghost all = self@.settings;
        let mut i: usize = 0;
        while i < self.settings.len()
            invariant
                i <= self.settings.len(),
                all == self.settings.deep_view(),
                forall|j: int| 0 <= j < i ==> (#[trigger] all[j]).scope != scope@,
            decreases self.settings.len() - i,
        {
            assert(all[i as int] == self.settings[i as int]@);
            if self.settings[i].scope.same(scope) {
                proof {
                    lemma_place_of_is(all, scope@, i as int);
                }
                return i;
            }
            i += 1;
        }
        proof {
            lemma_place_of_is(all, scope@, i as int);
        }
        i
    }

    /// The defaults that come of the first `n` scopes of a chain.
    fn resolve(&self, chain: &Vec<ToolOutputSettingsScope>, n: usize) -> (r: ToolOutputDefaults)
        requires
            n <= chain.len(),
        ensures
            r == resolved(self@.settings, chain.deep_view().take(n as int)),
    {
        let ghost all = chain.deep_view();
        let mut defaults = ToolOutputDefaults::default();
        let mut i: usize = 0;
        while i < n
            invariant
                i <= n <= chain.len(),
                all == chain.deep_view(),
                defaults == resolved(self@.settings, all.take(i as int)),
            decreases n - i,
        {
            proof {
                assert(all.take(i + 1).drop_last() =~= all.take(i as int));
                assert(all.take(i + 1).last() == chain[i as int]@);
            }
            let at: usize = self.position(&chain[i]);
            if at < self.settings.len() {
                assert(self@.settings[at as int] == self.settings[at as int]@);
                let overrides = self.settings[at].resolved_overrides(&defaults);
                defaults = overrides.apply_to(defaults);
            }
            i += 1;
        }
        defaults
    }

    pub fn apply_update(
        &mut self,
        actor: Actor,
        scope: ToolOutputSettingsScope,
        update: ToolOutputOverrides,
        reason: String,
        updated_at: LedgerTimestamp,
    ) -> (r: Result<ToolOutputSettingsChange, ToolOutputSettingsError>)
        ensures
            match r {
                Ok(change) => {
                    &&& old(self)@.update_problem(scope@, update, reason@, updated_at) is None
                    &&& final(self)@ == old(self)@.updated(
                        actor@,
                        scope@,
                        update,
                        reason@,
                        updated_at,
                    )
                    &&& change@ == old(self)@.change(actor@, scope@, update, reason@, updated_at)
                },
                Err(error) => {
                    &&& old(self)@.update_problem(scope@, update, reason@, updated_at) == Some(
                        error@,
                    )
                    &&& final(self)@ == old(self)@
                },
            },
    {
        let ghost all = self@.settings;
        let ghost history = self@.changes;
        let at: usize = self.position(&scope);
        let parent = self.resolve_parent_defaults_for(&scope);
        let change = if at < self.settings.len() {
            assert(all[at as int] == self.settings[at as int]@);
            let mut settings = self.settings[at].clone();
            let change = settings.apply_update(actor, update, reason, &parent, updated_at)?;
            self.settings[at] = settings;
            assert(self@.settings =~= all.update(at as int, settings@));
            change
        } else {
            let mut settings = ToolOutputSettings::new(scope, updated_at);
            let change = settings.apply_update(actor, update, reason, &parent, updated_at)?;
            self.settings.push(settings);
            assert(self@.settings =~= all.push(settings@));
            change
        };
        self.changes.push(change.clone());
        assert(self@.changes =~= history.push(change@));
        Ok(change)
    }

    pub fn resolve_defaults(&self, scope: &ToolOutputSettingsScope) -> (r: ToolOutputDefaults)
        ensures
            r == self@.defaults_of(scope@),
    {
        let chain = resolution_chain(scope);
        assert(chain.deep_view().take(chain.len() as int) =~= chain.deep_view());
        self.resolve(&chain, chain.len())
    }

    fn resolve_parent_defaults_for(&self, scope: &ToolOutputSettingsScope) -> (r:
        ToolOutputDefaults)
        ensures
            r == inherited(self@.settings, scope@),
    {
        let chain = resolution_chain(scope);
        let ghost all = chain.deep_view();
        let mut n: usize = 0;
        proof {
            assert(all.skip(0) =~= all);
            assert(before(all, scope@) =~= all.take(0) + before(all.skip(0), scope@));
        }
        while n < chain.len() && !chain[n].same(scope)
            invariant
                n <= chain.len(),
                all == chain.deep_view(),
                before(all, scope@) == all.take(n as int) + before(all.skip(n as int), scope@),
            decreases chain.len() - n,
        {
            proof {
                let tail = all.skip(n as int);
                assert(tail[0] == chain[n as int]@);
                assert(tail.drop_first() =~= all.skip(n + 1));
                assert(all.take(n as int) + (seq![tail[0]] + before(all.skip(n + 1), scope@))
                    =~= all.take(n + 1) + before(all.skip(n + 1), scope@));
            }
            n += 1;
        }
        proof {
            if n < chain.len() {
                assert(all.skip(n as int)[0] == chain[n as int]@);
            }
            assert(before(all.skip(n as int), scope@) =~= Seq::empty());
            assert(all.take(n as int) + Seq::<ToolOutputSettingsScopeModel>::empty() =~= all.take(
                n as int,
            ));
        }
        self.resolve(&chain, n)
    }

    /// Turn whole defaults into overrides: of the settings of single tools, or of the others.
    fn migrate(&mut self, of_tools: bool)
        ensures
            final(self)@.settings == migrated_to(
                old(self)@.settings,
                of_tools,
                old(self)@.settings.len() as int,
            ),
            final(self)@.settings.len() == old(self)@.settings.len(),
            final(self)@.changes == old(self)@.changes,
    {
        let ghost all = self@.settings;
        let n: usize = self.settings.len();
        let mut i: usize = 0;
        while i < n
            invariant
                i <= n == self.settings.len() == all.len(),
                self@.settings == migrated_to(all, of_tools, i as int),
                self@.changes == old(self)@.changes,
            decreases n - i,
        {
            let ghost current = self@.settings;
            assert(current[i as int] == self.settings[i as int]@);
            if self.settings[i].scope.tool_id.is_some() == of_tools {
                let parent = self.resolve_parent_defaults_for(&self.settings[i].scope);
                let mut settings = self.settings[i].clone();
                settings.apply_legacy_migration(&parent);
                self.settings[i] = settings;
                assert(self@.settings =~= migrated_at(current, i as int));
            }
            i += 1;
        }
    }

    fn migrate_legacy_settings(&mut self)
        ensures
            final(self)@.settings == migrated(old(self)@.settings),
            final(self)@.changes == old(self)@.changes,
    {
        self.migrate(false);
        self.migrate(true);
    }

    pub fn resolve_render_options(&self, scope: &ToolOutputSettingsScope) -> (r: RenderOptions)
        ensures
            r == self@.defaults_of(scope@).render_options,
    {
        self.resolve_defaults(scope).render_options()
    }

    pub fn resolve_defaults_with_overrides(
        &self,
        scope: &ToolOutputSettingsScope,
        overrides: &ToolOutputOverrides,
    ) -> (r: Result<ToolOutputDefaults, ToolOutputSettingsError>)
        ensures
            match r {
                Ok(defaults) => defaults == overrides.applied_to(self@.defaults_of(scope@))
                    && defaults.range_problem() is None,
                Err(error) => overrides.applied_to(self@.defaults_of(scope@)).range_problem()
                    == Some(error@),
            },
    {
        self.resolve_defaults(scope).with_overrides(overrides)
    }

    /// The settings of each scope that has any.
    pub fn settings(&self) -> (r: &[ToolOutputSettings])
        ensures
            r.deep_view() == self@.settings,
    {
        let settings = self.settings.as_slice();
        assert(settings.deep_view() =~= self.settings.deep_view());
        settings
    }

    pub fn changes(&self) -> (r: &[ToolOutputSettingsChange])
        ensures
            r.deep_view() == self@.changes,
    {
        let changes = self.changes.as_slice();
        assert(changes.deep_view() =~= self.changes.deep_view());
        changes
    }
}

fn check_scopes(settings: &Vec<ToolOutputSettings>) -> (r: Result<(), ToolOutputSettingsError>)
    ensures
        checks::reports(r, duplicate_problem(settings.deep_view())),
{
    let ghost all = settings.deep_view();
    let ghost checks = duplicate_checks(all);
    let mut scopes: Vec<ToolOutputSettingsScope> = Vec::new();
    let mut i: usize = 0;
    assert(scopes.deep_view() =~= scopes_of(all).take(0));
    while i < settings.len()
        invariant
            i <= settings.len(),
            all == settings.deep_view(),
            checks == duplicate_checks(all),
            scopes.deep_view() == scopes_of(all).take(i as int),
            checks::first_problem(checks, i as int) is None,
        decreases settings.len() - i,
    {
        assert(all[i as int] == settings[i as int]@);
        let scope = settings[i].scope.clone();
        if holds_scope(&scopes, &scope) {
            proof {
                checks::lemma_first_problem(checks, i as int, all.len() as int);
            }
            return Err(ToolOutputSettingsError::DuplicateScope { scope });
        }
        let ghost seen = scopes.deep_view();
        scopes.push(scope);
        proof {
            assert(scopes.deep_view() =~= seen.push(scope@));
            assert(scopes_of(all).take(i + 1) =~= scopes_of(all).take(i as int).push(
                scopes_of(all)[i as int],
            ));
        }
        i += 1;
    }
    Ok(())
}

} // verus!
