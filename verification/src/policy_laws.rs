//! What the built-in policy says of each capability, by the names that callers write.
use vstd::prelude::*;

use crate::domain::{PolicyOutcome, RepositoryTrustState, RiskTier};
use crate::policy::{Capability, PolicyInputModel, RuleDecisionModel};

verus! {

/// A character as names of capabilities are spelled: `_`, `-`, `:` and `/` stand for `.`,
/// and capitals for their small letters.
pub open spec fn plain(c: char) -> char {
    if c == '_' || c == '-' || c == ':' || c == '/' {
        '.'
    } else if 'A' <= c <= 'Z' {
        ((c as u8 - 'A' as u8 + 'a' as u8) as u8) as char
    } else {
        c
    }
}

/// The name spells the word, letter case, kind of separators and white space around it apart.
pub open spec fn spells(name: Seq<char>, word: Seq<char>) -> bool {
    exists|before: Seq<char>, core: Seq<char>, after: Seq<char>|
        {
            &&& #[trigger] crate::text_laws::all_white(before)
            &&& #[trigger] crate::text_laws::bare(core)
            &&& #[trigger] crate::text_laws::all_white(after)
            &&& name == before + core + after
            &&& core.len() == word.len()
            &&& forall|i: int| 0 <= i < core.len() ==> plain(#[trigger] core[i]) == word[i]
        }
}

/// The name spells one of the words.
pub open spec fn spells_one_of(name: Seq<char>, words: Seq<Seq<char>>) -> bool {
    exists|i: int| 0 <= i < words.len() && spells(name, #[trigger] words[i])
}

pub open spec fn informational_names() -> Seq<Seq<char>> {
    seq![
        "informational"@,
        "status"@,
        "health"@,
        "capability.discovery"@,
        "capabilities.list"@,
        "policy.preview"@,
        "policy.check"@,
    ]
}

pub open spec fn read_names() -> Seq<Seq<char>> {
    seq![
        "filesystem.read"@,
        "filesystem.list"@,
        "filesystem.search"@,
        "filesystem.stat"@,
        "filesystem.diff"@,
        "fs.read"@,
        "fs.list"@,
        "fs.search"@,
        "fs.stat"@,
        "fs.diff"@,
    ]
}

pub open spec fn write_names() -> Seq<Seq<char>> {
    seq![
        "filesystem.write"@,
        "filesystem.patch"@,
        "filesystem.delete"@,
        "filesystem.move"@,
        "fs.write"@,
        "fs.patch"@,
        "fs.delete"@,
        "fs.move"@,
    ]
}

pub open spec fn process_names() -> Seq<Seq<char>> {
    seq![
        "process.exec"@,
        "process.execute"@,
        "process.run"@,
        "proc.exec"@,
        "proc.run"@,
    ]
}

pub open spec fn broad_mutation_names() -> Seq<Seq<char>> {
    seq![
        "repository.mutate.broad"@,
        "repo.mutate.broad"@,
        "repository.broad.mutation"@,
        "repo.broad.mutation"@,
    ]
}

pub open spec fn destructive_names() -> Seq<Seq<char>> {
    seq![
        "repository.destructive"@,
        "repo.destructive"@,
        "repository.delete"@,
        "repo.delete"@,
        "repository.reset.hard"@,
        "repo.reset.hard"@,
    ]
}

pub open spec fn external_names() -> Seq<Seq<char>> {
    seq![
        "network.external"@,
        "external.network"@,
        "service.external"@,
        "external.service"@,
        "network.call"@,
        "service.call"@,
    ]
}

pub open spec fn secret_names() -> Seq<Seq<char>> {
    seq!["secret.access"@, "secrets.access"@, "secret.read"@, "secrets.read"@]
}

/// The rule gives this outcome, at this risk, for this reason.
pub open spec fn ruled(
    rule: RuleDecisionModel,
    outcome: PolicyOutcome,
    risk_tier: RiskTier,
    reason_code: Seq<char>,
) -> bool {
    &&& rule.outcome == outcome
    &&& rule.risk_tier == risk_tier
    &&& rule.reason_code == reason_code
}

proof fn lemma_spelled_is_normalized(name: Seq<char>, word: Seq<char>)
    requires
        spells(name, word),
    ensures
        crate::policy::normalized(name) == word,
{
    let (before, core, after) = choose|before: Seq<char>, core: Seq<char>, after: Seq<char>|
        {
            &&& #[trigger] crate::text_laws::all_white(before)
            &&& #[trigger] crate::text_laws::bare(core)
            &&& #[trigger] crate::text_laws::all_white(after)
            &&& name == before + core + after
            &&& core.len() == word.len()
            &&& forall|i: int| 0 <= i < core.len() ==> plain(#[trigger] core[i]) == word[i]
        };
    crate::text_laws::law_trimming_takes_the_white_space_around(before, core, after);
    assert(crate::policy::normalized(name) =~= word);
}

proof fn lemma_normalized_is_spelled(name: Seq<char>, word: Seq<char>)
    requires
        crate::policy::normalized(name) == word,
    ensures
        spells(name, word),
{
    crate::text_laws::law_trimmed_text_is_what_is_between(name);
    let core = crate::text::trimmed(name);
    let (before, after) = choose|before: Seq<char>, after: Seq<char>|
        {
            &&& #[trigger] crate::text_laws::all_white(before)
            &&& #[trigger] crate::text_laws::all_white(after)
            &&& name == before + core + after
        };
    assert forall|i: int| 0 <= i < core.len() implies plain(#[trigger] core[i]) == word[i] by {
        assert(word[i] == crate::policy::folded(core[i]));
    }
    assert(crate::text_laws::bare(core));
}

/// How long the names are, which tells most of them apart.
proof fn lemma_name_lengths()
    ensures
        "informational"@.len() == 13,
        "status"@.len() == 6,
        "health"@.len() == 6,
        "capability.discovery"@.len() == 20,
        "capabilities.list"@.len() == 17,
        "policy.preview"@.len() == 14,
        "policy.check"@.len() == 12,
        "filesystem.read"@.len() == 15,
        "filesystem.list"@.len() == 15,
        "filesystem.search"@.len() == 17,
        "filesystem.stat"@.len() == 15,
        "filesystem.diff"@.len() == 15,
        "fs.read"@.len() == 7,
        "fs.list"@.len() == 7,
        "fs.search"@.len() == 9,
        "fs.stat"@.len() == 7,
        "fs.diff"@.len() == 7,
        "filesystem.write"@.len() == 16,
        "filesystem.patch"@.len() == 16,
        "filesystem.delete"@.len() == 17,
        "filesystem.move"@.len() == 15,
        "fs.write"@.len() == 8,
        "fs.patch"@.len() == 8,
        "fs.delete"@.len() == 9,
        "fs.move"@.len() == 7,
        "process.exec"@.len() == 12,
        "process.execute"@.len() == 15,
        "process.run"@.len() == 11,
        "proc.exec"@.len() == 9,
        "proc.run"@.len() == 8,
        "repository.mutate.broad"@.len() == 23,
        "repo.mutate.broad"@.len() == 17,
        "repository.broad.mutation"@.len() == 25,
        "repo.broad.mutation"@.len() == 19,
        "repository.destructive"@.len() == 22,
        "repo.destructive"@.len() == 16,
        "repository.delete"@.len() == 17,
        "repo.delete"@.len() == 11,
        "repository.reset.hard"@.len() == 21,
        "repo.reset.hard"@.len() == 15,
        "network.external"@.len() == 16,
        "external.network"@.len() == 16,
        "service.external"@.len() == 16,
        "external.service"@.len() == 16,
        "network.call"@.len() == 12,
        "service.call"@.len() == 12,
        "secret.access"@.len() == 13,
        "secrets.access"@.len() == 14,
        "secret.read"@.len() == 11,
        "secrets.read"@.len() == 12,
{
    reveal_strlit("informational");
    reveal_strlit("status");
    reveal_strlit("health");
    reveal_strlit("capability.discovery");
    reveal_strlit("capabilities.list");
    reveal_strlit("policy.preview");
    reveal_strlit("policy.check");
    reveal_strlit("filesystem.read");
    reveal_strlit("filesystem.list");
    reveal_strlit("filesystem.search");
    reveal_strlit("filesystem.stat");
    reveal_strlit("filesystem.diff");
    reveal_strlit("fs.read");
    reveal_strlit("fs.list");
    reveal_strlit("fs.search");
    reveal_strlit("fs.stat");
    reveal_strlit("fs.diff");
    reveal_strlit("filesystem.write");
    reveal_strlit("filesystem.patch");
    reveal_strlit("filesystem.delete");
    reveal_strlit("filesystem.move");
    reveal_strlit("fs.write");
    reveal_strlit("fs.patch");
    reveal_strlit("fs.delete");
    reveal_strlit("fs.move");
    reveal_strlit("process.exec");
    reveal_strlit("process.execute");
    reveal_strlit("process.run");
    reveal_strlit("proc.exec");
    reveal_strlit("proc.run");
    reveal_strlit("repository.mutate.broad");
    reveal_strlit("repo.mutate.broad");
    reveal_strlit("repository.broad.mutation");
    reveal_strlit("repo.broad.mutation");
    reveal_strlit("repository.destructive");
    reveal_strlit("repo.destructive");
    reveal_strlit("repository.delete");
    reveal_strlit("repo.delete");
    reveal_strlit("repository.reset.hard");
    reveal_strlit("repo.reset.hard");
    reveal_strlit("network.external");
    reveal_strlit("external.network");
    reveal_strlit("service.external");
    reveal_strlit("external.service");
    reveal_strlit("network.call");
    reveal_strlit("service.call");
    reveal_strlit("secret.access");
    reveal_strlit("secrets.access");
    reveal_strlit("secret.read");
    reveal_strlit("secrets.read");
}

proof fn lemma_informational_names()
    ensures
        forall|i: int|
            0 <= i < informational_names().len() ==> Capability::of_normalized(
                #[trigger] informational_names()[i],
            ) is Informational,
{
    lemma_name_lengths();
    let words = informational_names();
    assert(words[0] == "informational"@);
    assert(words[1] == "status"@);
    assert(words[2] == "health"@);
    assert(words[3] == "capability.discovery"@);
    assert(words[4] == "capabilities.list"@);
    assert(words[5] == "policy.preview"@);
    assert(words[6] == "policy.check"@);
}

proof fn lemma_read_names()
    ensures
        forall|i: int|
            0 <= i < read_names().len() ==> Capability::of_normalized(
                #[trigger] read_names()[i],
            ) is FilesystemRead,
{
    lemma_name_lengths();
    reveal_strlit("filesystem.search");
    reveal_strlit("capabilities.list");
    assert("filesystem.search"@[0] != "capabilities.list"@[0]);
    let words = read_names();
    assert(words[0] == "filesystem.read"@);
    assert(words[1] == "filesystem.list"@);
    assert(words[2] == "filesystem.search"@);
    assert(words[3] == "filesystem.stat"@);
    assert(words[4] == "filesystem.diff"@);
    assert(words[5] == "fs.read"@);
    assert(words[6] == "fs.list"@);
    assert(words[7] == "fs.search"@);
    assert(words[8] == "fs.stat"@);
    assert(words[9] == "fs.diff"@);
}

proof fn lemma_write_names()
    ensures
        forall|i: int|
            0 <= i < write_names().len() ==> Capability::of_normalized(
                #[trigger] write_names()[i],
            ) is FilesystemWrite,
{
    lemma_name_lengths();
    reveal_strlit("filesystem.delete");
    reveal_strlit("capabilities.list");
    reveal_strlit("filesystem.search");
    reveal_strlit("filesystem.move");
    reveal_strlit("filesystem.read");
    reveal_strlit("filesystem.list");
    reveal_strlit("filesystem.stat");
    reveal_strlit("filesystem.diff");
    reveal_strlit("fs.delete");
    reveal_strlit("fs.search");
    reveal_strlit("fs.move");
    reveal_strlit("fs.read");
    reveal_strlit("fs.list");
    reveal_strlit("fs.stat");
    reveal_strlit("fs.diff");
    assert("filesystem.delete"@[0] != "capabilities.list"@[0]);
    assert("filesystem.delete"@[11] != "filesystem.search"@[11]);
    assert("filesystem.move"@[11] != "filesystem.read"@[11]);
    assert("filesystem.move"@[11] != "filesystem.list"@[11]);
    assert("filesystem.move"@[11] != "filesystem.stat"@[11]);
    assert("filesystem.move"@[11] != "filesystem.diff"@[11]);
    assert("fs.delete"@[3] != "fs.search"@[3]);
    assert("fs.move"@[3] != "fs.read"@[3]);
    assert("fs.move"@[3] != "fs.list"@[3]);
    assert("fs.move"@[3] != "fs.stat"@[3]);
    assert("fs.move"@[3] != "fs.diff"@[3]);
    let words = write_names();
    assert(words[0] == "filesystem.write"@);
    assert(words[1] == "filesystem.patch"@);
    assert(words[2] == "filesystem.delete"@);
    assert(words[3] == "filesystem.move"@);
    assert(words[4] == "fs.write"@);
    assert(words[5] == "fs.patch"@);
    assert(words[6] == "fs.delete"@);
    assert(words[7] == "fs.move"@);
}

proof fn lemma_process_names()
    ensures
        forall|i: int|
            0 <= i < process_names().len() ==> Capability::of_normalized(
                #[trigger] process_names()[i],
            ) is ProcessExec,
{
    lemma_name_lengths();
    reveal_strlit("process.exec");
    reveal_strlit("policy.check");
    reveal_strlit("process.execute");
    reveal_strlit("filesystem.read");
    reveal_strlit("filesystem.list");
    reveal_strlit("filesystem.stat");
    reveal_strlit("filesystem.diff");
    reveal_strlit("filesystem.move");
    reveal_strlit("proc.exec");
    reveal_strlit("fs.search");
    reveal_strlit("fs.delete");
    reveal_strlit("proc.run");
    reveal_strlit("fs.write");
    reveal_strlit("fs.patch");
    assert("process.exec"@[1] != "policy.check"@[1]);
    assert("process.execute"@[0] != "filesystem.read"@[0]);
    assert("process.execute"@[0] != "filesystem.list"@[0]);
    assert("process.execute"@[0] != "filesystem.stat"@[0]);
    assert("process.execute"@[0] != "filesystem.diff"@[0]);
    assert("process.execute"@[0] != "filesystem.move"@[0]);
    assert("proc.exec"@[0] != "fs.search"@[0]);
    assert("proc.exec"@[0] != "fs.delete"@[0]);
    assert("proc.run"@[0] != "fs.write"@[0]);
    assert("proc.run"@[0] != "fs.patch"@[0]);
    let words = process_names();
    assert(words[0] == "process.exec"@);
    assert(words[1] == "process.execute"@);
    assert(words[2] == "process.run"@);
    assert(words[3] == "proc.exec"@);
    assert(words[4] == "proc.run"@);
}

proof fn lemma_broad_mutation_names()
    ensures
        forall|i: int|
            0 <= i < broad_mutation_names().len() ==> Capability::of_normalized(
                #[trigger] broad_mutation_names()[i],
            ) is BroadRepositoryMutation,
{
    lemma_name_lengths();
    reveal_strlit("repo.mutate.broad");
    reveal_strlit("capabilities.list");
    reveal_strlit("filesystem.search");
    reveal_strlit("filesystem.delete");
    assert("repo.mutate.broad"@[0] != "capabilities.list"@[0]);
    assert("repo.mutate.broad"@[0] != "filesystem.search"@[0]);
    assert("repo.mutate.broad"@[0] != "filesystem.delete"@[0]);
    let words = broad_mutation_names();
    assert(words[0] == "repository.mutate.broad"@);
    assert(words[1] == "repo.mutate.broad"@);
    assert(words[2] == "repository.broad.mutation"@);
    assert(words[3] == "repo.broad.mutation"@);
}

proof fn lemma_destructive_names()
    ensures
        forall|i: int|
            0 <= i < destructive_names().len() ==> Capability::of_normalized(
                #[trigger] destructive_names()[i],
            ) is DestructiveRepositoryAction,
{
    lemma_name_lengths();
    reveal_strlit("repo.destructive");
    reveal_strlit("filesystem.write");
    reveal_strlit("filesystem.patch");
    reveal_strlit("repository.delete");
    reveal_strlit("capabilities.list");
    reveal_strlit("filesystem.search");
    reveal_strlit("filesystem.delete");
    reveal_strlit("repo.mutate.broad");
    reveal_strlit("repo.delete");
    reveal_strlit("process.run");
    reveal_strlit("repo.reset.hard");
    reveal_strlit("filesystem.read");
    reveal_strlit("filesystem.list");
    reveal_strlit("filesystem.stat");
    reveal_strlit("filesystem.diff");
    reveal_strlit("filesystem.move");
    reveal_strlit("process.execute");
    assert("repo.destructive"@[0] != "filesystem.write"@[0]);
    assert("repo.destructive"@[0] != "filesystem.patch"@[0]);
    assert("repository.delete"@[0] != "capabilities.list"@[0]);
    assert("repository.delete"@[0] != "filesystem.search"@[0]);
    assert("repository.delete"@[0] != "filesystem.delete"@[0]);
    assert("repository.delete"@[4] != "repo.mutate.broad"@[4]);
    assert("repo.delete"@[0] != "process.run"@[0]);
    assert("repo.reset.hard"@[0] != "filesystem.read"@[0]);
    assert("repo.reset.hard"@[0] != "filesystem.list"@[0]);
    assert("repo.reset.hard"@[0] != "filesystem.stat"@[0]);
    assert("repo.reset.hard"@[0] != "filesystem.diff"@[0]);
    assert("repo.reset.hard"@[0] != "filesystem.move"@[0]);
    assert("repo.reset.hard"@[0] != "process.execute"@[0]);
    let words = destructive_names();
    assert(words[0] == "repository.destructive"@);
    assert(words[1] == "repo.destructive"@);
    assert(words[2] == "repository.delete"@);
    assert(words[3] == "repo.delete"@);
    assert(words[4] == "repository.reset.hard"@);
    assert(words[5] == "repo.reset.hard"@);
}

proof fn lemma_external_names()
    ensures
        forall|i: int|
            0 <= i < external_names().len() ==> Capability::of_normalized(
                #[trigger] external_names()[i],
            ) is ExternalNetworkOrService,
{
    lemma_name_lengths();
    reveal_strlit("network.external");
    reveal_strlit("filesystem.write");
    reveal_strlit("filesystem.patch");
    reveal_strlit("repo.destructive");
    reveal_strlit("external.network");
    reveal_strlit("service.external");
    reveal_strlit("external.service");
    reveal_strlit("network.call");
    reveal_strlit("policy.check");
    reveal_strlit("process.exec");
    reveal_strlit("service.call");
    assert("network.external"@[0] != "filesystem.write"@[0]);
    assert("network.external"@[0] != "filesystem.patch"@[0]);
    assert("network.external"@[0] != "repo.destructive"@[0]);
    assert("external.network"@[0] != "filesystem.write"@[0]);
    assert("external.network"@[0] != "filesystem.patch"@[0]);
    assert("external.network"@[0] != "repo.destructive"@[0]);
    assert("service.external"@[0] != "filesystem.write"@[0]);
    assert("service.external"@[0] != "filesystem.patch"@[0]);
    assert("service.external"@[0] != "repo.destructive"@[0]);
    assert("external.service"@[0] != "filesystem.write"@[0]);
    assert("external.service"@[0] != "filesystem.patch"@[0]);
    assert("external.service"@[0] != "repo.destructive"@[0]);
    assert("network.call"@[0] != "policy.check"@[0]);
    assert("network.call"@[0] != "process.exec"@[0]);
    assert("service.call"@[0] != "policy.check"@[0]);
    assert("service.call"@[0] != "process.exec"@[0]);
    let words = external_names();
    assert(words[0] == "network.external"@);
    assert(words[1] == "external.network"@);
    assert(words[2] == "service.external"@);
    assert(words[3] == "external.service"@);
    assert(words[4] == "network.call"@);
    assert(words[5] == "service.call"@);
}

proof fn lemma_secret_names()
    ensures
        forall|i: int|
            0 <= i < secret_names().len() ==> Capability::of_normalized(
                #[trigger] secret_names()[i],
            ) is SecretAccess,
{
    lemma_name_lengths();
    reveal_strlit("secret.access");
    reveal_strlit("informational");
    reveal_strlit("secrets.access");
    reveal_strlit("policy.preview");
    reveal_strlit("secret.read");
    reveal_strlit("process.run");
    reveal_strlit("repo.delete");
    reveal_strlit("secrets.read");
    reveal_strlit("policy.check");
    reveal_strlit("process.exec");
    reveal_strlit("network.call");
    reveal_strlit("service.call");
    assert("secret.access"@[0] != "informational"@[0]);
    assert("secrets.access"@[0] != "policy.preview"@[0]);
    assert("secret.read"@[0] != "process.run"@[0]);
    assert("secret.read"@[0] != "repo.delete"@[0]);
    assert("secrets.read"@[0] != "policy.check"@[0]);
    assert("secrets.read"@[0] != "process.exec"@[0]);
    assert("secrets.read"@[0] != "network.call"@[0]);
    assert("secrets.read"@[2] != "service.call"@[2]);
    let words = secret_names();
    assert(words[0] == "secret.access"@);
    assert(words[1] == "secrets.access"@);
    assert(words[2] == "secret.read"@);
    assert(words[3] == "secrets.read"@);
}

/// Where the repository is not blocked and the scope is registered, a name of information is
/// allowed.
pub proof fn law_information_is_allowed(input: PolicyInputModel)
    requires
        spells_one_of(input.requested_capability, informational_names()),
        input.current_trust_state != RepositoryTrustState::Blocked,
        input.registered_scope,
    ensures
        ruled(input.rule(), PolicyOutcome::Allowed, RiskTier::R0, "informational_allowed"@),
{
    lemma_capability_of_one(input.requested_capability, informational_names());
}

/// Reading files is allowed, and audited in a read-only repository.
pub proof fn law_reads_are_allowed(input: PolicyInputModel)
    requires
        spells_one_of(input.requested_capability, read_names()),
        input.current_trust_state != RepositoryTrustState::Blocked,
        input.registered_scope,
    ensures
        input.current_trust_state == RepositoryTrustState::Trusted ==> ruled(
            input.rule(),
            PolicyOutcome::Allowed,
            RiskTier::R1,
            "bounded_read_allowed"@,
        ),
        input.current_trust_state == RepositoryTrustState::ReadOnly ==> ruled(
            input.rule(),
            PolicyOutcome::Audited,
            RiskTier::R1,
            "bounded_read_audited_read_only"@,
        ),
{
    lemma_capability_of_one(input.requested_capability, read_names());
}

/// Changing files is audited, needs approval where it is broad or unbounded, and is blocked
/// in a read-only repository.
pub proof fn law_writes_are_audited(input: PolicyInputModel)
    requires
        spells_one_of(input.requested_capability, write_names()),
        input.current_trust_state != RepositoryTrustState::Blocked,
        input.registered_scope,
    ensures
        if input.current_trust_state == RepositoryTrustState::ReadOnly {
            ruled(input.rule(), PolicyOutcome::Blocked, RiskTier::R4, "repository_read_only"@)
        } else if input.broad_or_unbounded {
            ruled(
                input.rule(),
                PolicyOutcome::NeedsApproval,
                RiskTier::R3,
                "filesystem_write_broad_or_unbounded_needs_approval"@,
            )
        } else {
            ruled(input.rule(), PolicyOutcome::Audited, RiskTier::R2, "bounded_write_audited"@)
        },
{
    lemma_capability_of_one(input.requested_capability, write_names());
}

/// Running processes is audited, needs approval where it is broad or unbounded, and is
/// blocked in a read-only repository.
pub proof fn law_processes_are_audited(input: PolicyInputModel)
    requires
        spells_one_of(input.requested_capability, process_names()),
        input.current_trust_state != RepositoryTrustState::Blocked,
        input.registered_scope,
    ensures
        if input.current_trust_state == RepositoryTrustState::ReadOnly {
            ruled(input.rule(), PolicyOutcome::Blocked, RiskTier::R4, "repository_read_only"@)
        } else if input.broad_or_unbounded {
            ruled(
                input.rule(),
                PolicyOutcome::NeedsApproval,
                RiskTier::R3,
                "process_broad_or_unbounded_needs_approval"@,
            )
        } else {
            ruled(input.rule(), PolicyOutcome::Audited, RiskTier::R2, "bounded_process_audited"@)
        },
{
    lemma_capability_of_one(input.requested_capability, process_names());
}

/// Changing a repository at large needs approval, and is blocked in a read-only one.
pub proof fn law_broad_mutation_needs_approval(input: PolicyInputModel)
    requires
        spells_one_of(input.requested_capability, broad_mutation_names()),
        input.current_trust_state != RepositoryTrustState::Blocked,
        input.registered_scope,
    ensures
        if input.current_trust_state == RepositoryTrustState::ReadOnly {
            ruled(input.rule(), PolicyOutcome::Blocked, RiskTier::R4, "repository_read_only"@)
        } else {
            ruled(
                input.rule(),
                PolicyOutcome::NeedsApproval,
                RiskTier::R3,
                "broad_repository_mutation_needs_approval"@,
            )
        },
{
    lemma_capability_of_one(input.requested_capability, broad_mutation_names());
}

/// Destroying a repository is blocked, whatever the state of the repository, the scope and
/// the approval.
pub proof fn law_destruction_is_blocked(input: PolicyInputModel)
    requires
        spells_one_of(input.requested_capability, destructive_names()),
    ensures
        input.rule().outcome == PolicyOutcome::Blocked,
        input.rule().risk_tier == RiskTier::R4,
        input.current_trust_state == RepositoryTrustState::Trusted && input.registered_scope
            ==> input.rule().reason_code == "destructive_repository_action_blocked"@,
{
    lemma_capability_of_one(input.requested_capability, destructive_names());
}

/// Reaching outside, to the network or to a service, needs approval.
pub proof fn law_reaching_outside_needs_approval(input: PolicyInputModel)
    requires
        spells_one_of(input.requested_capability, external_names()),
        input.current_trust_state != RepositoryTrustState::Blocked,
        input.registered_scope,
    ensures
        ruled(
            input.rule(),
            PolicyOutcome::NeedsApproval,
            RiskTier::R3,
            "external_network_or_service_needs_approval"@,
        ),
{
    lemma_capability_of_one(input.requested_capability, external_names());
}

/// Reading secrets needs approval.
pub proof fn law_secrets_need_approval(input: PolicyInputModel)
    requires
        spells_one_of(input.requested_capability, secret_names()),
        input.current_trust_state != RepositoryTrustState::Blocked,
        input.registered_scope,
    ensures
        ruled(
            input.rule(),
            PolicyOutcome::NeedsApproval,
            RiskTier::R3,
            "secret_access_needs_approval"@,
        ),
{
    lemma_capability_of_one(input.requested_capability, secret_names());
}

/// The name spells nothing that the policy knows.
pub open spec fn spells_nothing_known(name: Seq<char>) -> bool {
    &&& !spells_one_of(name, informational_names())
    &&& !spells_one_of(name, read_names())
    &&& !spells_one_of(name, write_names())
    &&& !spells_one_of(name, process_names())
    &&& !spells_one_of(name, broad_mutation_names())
    &&& !spells_one_of(name, destructive_names())
    &&& !spells_one_of(name, external_names())
    &&& !spells_one_of(name, secret_names())
}

/// Whatever the policy does not know is blocked, whatever the state of the repository, the
/// scope and the approval.
pub proof fn law_what_is_not_known_is_blocked(input: PolicyInputModel)
    requires
        spells_nothing_known(input.requested_capability),
    ensures
        input.rule().outcome == PolicyOutcome::Blocked,
        input.rule().risk_tier == RiskTier::R4,
        input.current_trust_state != RepositoryTrustState::Blocked && input.registered_scope
            ==> input.rule().reason_code == "unsupported_capability_blocked"@,
{
    let name = input.requested_capability;
    let word = crate::policy::normalized(name);
    lemma_normalized_is_spelled(name, word);
    lemma_not_among(name, word, informational_names());
    lemma_not_among(name, word, read_names());
    lemma_not_among(name, word, write_names());
    lemma_not_among(name, word, process_names());
    lemma_not_among(name, word, broad_mutation_names());
    lemma_not_among(name, word, destructive_names());
    lemma_not_among(name, word, external_names());
    lemma_not_among(name, word, secret_names());
    assert(informational_names()[0] == "informational"@);
    assert(informational_names()[1] == "status"@);
    assert(informational_names()[2] == "health"@);
    assert(informational_names()[3] == "capability.discovery"@);
    assert(informational_names()[4] == "capabilities.list"@);
    assert(informational_names()[5] == "policy.preview"@);
    assert(informational_names()[6] == "policy.check"@);
    assert(read_names()[0] == "filesystem.read"@);
    assert(read_names()[1] == "filesystem.list"@);
    assert(read_names()[2] == "filesystem.search"@);
    assert(read_names()[3] == "filesystem.stat"@);
    assert(read_names()[4] == "filesystem.diff"@);
    assert(read_names()[5] == "fs.read"@);
    assert(read_names()[6] == "fs.list"@);
    assert(read_names()[7] == "fs.search"@);
    assert(read_names()[8] == "fs.stat"@);
    assert(read_names()[9] == "fs.diff"@);
    assert(write_names()[0] == "filesystem.write"@);
    assert(write_names()[1] == "filesystem.patch"@);
    assert(write_names()[2] == "filesystem.delete"@);
    assert(write_names()[3] == "filesystem.move"@);
    assert(write_names()[4] == "fs.write"@);
    assert(write_names()[5] == "fs.patch"@);
    assert(write_names()[6] == "fs.delete"@);
    assert(write_names()[7] == "fs.move"@);
    assert(process_names()[0] == "process.exec"@);
    assert(process_names()[1] == "process.execute"@);
    assert(process_names()[2] == "process.run"@);
    assert(process_names()[3] == "proc.exec"@);
    assert(process_names()[4] == "proc.run"@);
    assert(broad_mutation_names()[0] == "repository.mutate.broad"@);
    assert(broad_mutation_names()[1] == "repo.mutate.broad"@);
    assert(broad_mutation_names()[2] == "repository.broad.mutation"@);
    assert(broad_mutation_names()[3] == "repo.broad.mutation"@);
    assert(destructive_names()[0] == "repository.destructive"@);
    assert(destructive_names()[1] == "repo.destructive"@);
    assert(destructive_names()[2] == "repository.delete"@);
    assert(destructive_names()[3] == "repo.delete"@);
    assert(destructive_names()[4] == "repository.reset.hard"@);
    assert(destructive_names()[5] == "repo.reset.hard"@);
    assert(external_names()[0] == "network.external"@);
    assert(external_names()[1] == "external.network"@);
    assert(external_names()[2] == "service.external"@);
    assert(external_names()[3] == "external.service"@);
    assert(external_names()[4] == "network.call"@);
    assert(external_names()[5] == "service.call"@);
    assert(secret_names()[0] == "secret.access"@);
    assert(secret_names()[1] == "secrets.access"@);
    assert(secret_names()[2] == "secret.read"@);
    assert(secret_names()[3] == "secrets.read"@);
    assert(Capability::of_normalized(word) is Unsupported);
}

proof fn lemma_not_among(name: Seq<char>, word: Seq<char>, words: Seq<Seq<char>>)
    requires
        spells(name, word),
        !spells_one_of(name, words),
    ensures
        forall|i: int| 0 <= i < words.len() ==> #[trigger] words[i] != word,
{
}

proof fn lemma_capability_of_one(name: Seq<char>, words: Seq<Seq<char>>)
    requires
        spells_one_of(name, words),
    ensures
        words == informational_names() ==> Capability::of_name(name) is Informational,
        words == read_names() ==> Capability::of_name(name) is FilesystemRead,
        words == write_names() ==> Capability::of_name(name) is FilesystemWrite,
        words == process_names() ==> Capability::of_name(name) is ProcessExec,
        words == broad_mutation_names() ==> Capability::of_name(name) is BroadRepositoryMutation,
        words == destructive_names() ==> Capability::of_name(name) is DestructiveRepositoryAction,
        words == external_names() ==> Capability::of_name(name) is ExternalNetworkOrService,
        words == secret_names() ==> Capability::of_name(name) is SecretAccess,
{
    let i = choose|i: int| 0 <= i < words.len() && spells(name, #[trigger] words[i]);
    lemma_spelled_is_normalized(name, words[i]);
    lemma_informational_names();
    lemma_read_names();
    lemma_write_names();
    lemma_process_names();
    lemma_broad_mutation_names();
    lemma_destructive_names();
    lemma_external_names();
    lemma_secret_names();
}

/// What asks for information is what spells one of its names.
pub proof fn lemma_informational_spelling(name: Seq<char>)
    ensures
        spells_one_of(name, informational_names()) <==> Capability::of_name(name) is Informational,
{
    if spells_one_of(name, informational_names()) {
        lemma_capability_of_one(name, informational_names());
    }
    if Capability::of_name(name) is Informational {
        let word = crate::policy::normalized(name);
        lemma_normalized_is_spelled(name, word);
        let words = informational_names();
        assert(words[0] == "informational"@);
        assert(words[1] == "status"@);
        assert(words[2] == "health"@);
        assert(words[3] == "capability.discovery"@);
        assert(words[4] == "capabilities.list"@);
        assert(words[5] == "policy.preview"@);
        assert(words[6] == "policy.check"@);
    }
}

/// A blocked repository blocks every action, and so does a scope that is not registered; each
/// says so.
pub proof fn law_the_state_of_the_repository_comes_first(input: PolicyInputModel)
    ensures
        input.current_trust_state == RepositoryTrustState::Blocked ==> ruled(
            input.rule(),
            PolicyOutcome::Blocked,
            RiskTier::R4,
            "repository_blocked"@,
        ),
        input.current_trust_state != RepositoryTrustState::Blocked && !input.registered_scope
            ==> ruled(
            input.rule(),
            PolicyOutcome::Blocked,
            RiskTier::R4,
            "outside_registered_scope"@,
        ),
{
}

/// A decision tells what was asked, and what the rules say of it; approval that is available
/// changes nothing.
pub proof fn law_decisions_tell_what_was_asked(
    input: PolicyInputModel,
    other: PolicyInputModel,
    id: Seq<char>,
    created_at: crate::domain::LedgerTimestamp,
)
    requires
        other == (PolicyInputModel { approval_available: other.approval_available, ..input }),
    ensures
        other.rule() == input.rule(),
        ({
            let decision = input.decision(id, created_at);
            &&& decision.id == id
            &&& decision.created_at == created_at
            &&& decision.requester == input.requester
            &&& decision.repository_id == input.repository_id
            &&& decision.requested_capability == input.requested_capability
            &&& decision.resource_scope == input.resource_scope
            &&& decision.tool_id == input.tool_id
            &&& decision.provider_id == input.provider_id
            &&& decision.declared_effect == input.declared_effect
            &&& decision.current_trust_state == input.current_trust_state
            &&& decision.approval_available == input.approval_available
            &&& decision.policy_version == input.policy_version
            &&& decision.outcome == input.rule().outcome
            &&& decision.risk_tier == input.rule().risk_tier
            &&& decision.reason_code == input.rule().reason_code
            &&& decision.user_reason == input.rule().user_reason
            &&& decision.schema_version == 1
            &&& decision.approval_request_ref is None
            &&& decision.audit_ref is None
            &&& decision.redactions.len() == 0
        }),
{
}

/// In a trusted repository each rule explains itself to the user.
pub proof fn law_rules_explain_themselves(input: PolicyInputModel)
    requires
        input.current_trust_state == RepositoryTrustState::Trusted,
        input.registered_scope,
    ensures
        spells_one_of(input.requested_capability, informational_names()) ==> input.rule().user_reason
            == "Informational status or capability discovery is allowed."@,
        spells_one_of(input.requested_capability, read_names()) ==> input.rule().user_reason
            == "Bounded filesystem read is allowed inside the registered repository scope."@,
        spells_one_of(input.requested_capability, write_names()) && !input.broad_or_unbounded
            ==> input.rule().user_reason
            == "Filesystem modifications inside the registered repository scope require audit evidence."@,
        spells_one_of(input.requested_capability, write_names()) && input.broad_or_unbounded
            ==> input.rule().user_reason
            == "Broad or unbounded filesystem write needs approval before it can run."@,
        spells_one_of(input.requested_capability, process_names()) && !input.broad_or_unbounded
            ==> input.rule().user_reason
            == "Process execution with explicit argv, cwd, timeout, and env allowlist requires audit evidence."@,
        spells_one_of(input.requested_capability, process_names()) && input.broad_or_unbounded
            ==> input.rule().user_reason
            == "Process execution is broad or unbounded and needs approval before it can run."@,
        spells_one_of(input.requested_capability, broad_mutation_names()) ==> input.rule().user_reason
            == "Broad repository mutation needs approval before it can run."@,
        spells_one_of(input.requested_capability, destructive_names()) ==> input.rule().user_reason
            == "Destructive repository actions are blocked until explicit policy support exists."@,
        spells_one_of(input.requested_capability, external_names()) ==> input.rule().user_reason
            == "External network or service access needs approval before it can run."@,
        spells_one_of(input.requested_capability, secret_names()) ==> input.rule().user_reason
            == "Secret access needs approval before it can run."@,
{
    if spells_one_of(input.requested_capability, informational_names()) {
        lemma_capability_of_one(input.requested_capability, informational_names());
    }
    if spells_one_of(input.requested_capability, read_names()) {
        lemma_capability_of_one(input.requested_capability, read_names());
    }
    if spells_one_of(input.requested_capability, write_names()) {
        lemma_capability_of_one(input.requested_capability, write_names());
    }
    if spells_one_of(input.requested_capability, process_names()) {
        lemma_capability_of_one(input.requested_capability, process_names());
    }
    if spells_one_of(input.requested_capability, broad_mutation_names()) {
        lemma_capability_of_one(input.requested_capability, broad_mutation_names());
    }
    if spells_one_of(input.requested_capability, destructive_names()) {
        lemma_capability_of_one(input.requested_capability, destructive_names());
    }
    if spells_one_of(input.requested_capability, external_names()) {
        lemma_capability_of_one(input.requested_capability, external_names());
    }
    if spells_one_of(input.requested_capability, secret_names()) {
        lemma_capability_of_one(input.requested_capability, secret_names());
    }
}

/// Outside a trusted repository and its scope the user is told of that.
pub proof fn law_the_state_of_the_repository_is_explained(input: PolicyInputModel)
    ensures
        input.current_trust_state == RepositoryTrustState::Blocked ==> input.rule().user_reason
            == "The repository is blocked by policy, so the requested action cannot run."@,
        input.current_trust_state != RepositoryTrustState::Blocked && !input.registered_scope
            ==> input.rule().user_reason
            == "The requested resource is outside the registered repository scope."@,
        input.current_trust_state == RepositoryTrustState::ReadOnly && input.registered_scope && (
        spells_one_of(input.requested_capability, write_names()) || spells_one_of(
            input.requested_capability,
            process_names(),
        ) || spells_one_of(input.requested_capability, broad_mutation_names()) || spells_one_of(
            input.requested_capability,
            destructive_names(),
        )) ==> input.rule().user_reason
            == "The repository is read-only, so repository-mutating actions cannot run."@,
{
    if spells_one_of(input.requested_capability, write_names()) {
        lemma_capability_of_one(input.requested_capability, write_names());
    }
    if spells_one_of(input.requested_capability, process_names()) {
        lemma_capability_of_one(input.requested_capability, process_names());
    }
    if spells_one_of(input.requested_capability, broad_mutation_names()) {
        lemma_capability_of_one(input.requested_capability, broad_mutation_names());
    }
    if spells_one_of(input.requested_capability, destructive_names()) {
        lemma_capability_of_one(input.requested_capability, destructive_names());
    }
}

} // verus!
