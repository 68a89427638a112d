//! The capability that a tool requires, and the hints on it that a request gives.
use vstd::prelude::*;

use crate::policy::{canonicalize_job_requested_capability, Capability};
use crate::requests::{RuntimeError, RuntimeErrorModel, RuntimeResult};
use crate::text::{blank, quoted, same_text, trim};

verus! {

/// The name by which a capability is enforced.
pub open spec fn enforced_name(name: Seq<char>) -> Seq<char> {
    let bare = crate::text::trimmed(name);
    if Capability::of_name(bare) is Informational {
        "capability.discovery"@
    } else {
        bare
    }
}

pub fn normalized_requested_capability(capability: &str) -> (r: String)
    ensures
        r@ == enforced_name(capability@),
{
    let trimmed = trim(capability);
    match canonicalize_job_requested_capability(trimmed) {
        Some(name) => name.to_owned(),
        None => trimmed.to_owned(),
    }
}

/// Some hint says nothing.
pub open spec fn has_blank_hint(hints: Seq<Seq<char>>) -> bool {
    exists|i: int| 0 <= i < hints.len() && crate::text::is_blank(#[trigger] hints[i])
}

/// The first hint that names another capability, as it would be enforced.
pub open spec fn first_mismatch(hints: Seq<Seq<char>>, enforced: Seq<char>) -> Option<Seq<char>>
    decreases hints.len(),
{
    if hints.len() == 0 {
        None
    } else if enforced_name(hints[0]) != enforced {
        Some(enforced_name(hints[0]))
    } else {
        first_mismatch(hints.drop_first(), enforced)
    }
}

/// What is wrong with the hints of a request for a tool that requires `enforced`.
pub open spec fn hints_problem(hints: Seq<Seq<char>>, enforced: Seq<char>) -> Option<Seq<char>> {
    if has_blank_hint(hints) {
        Some("requested_capabilities must not contain empty entries"@)
    } else {
        match first_mismatch(hints, enforced) {
            Some(mismatched) => Some(
                "requested_capabilities contains "@ + crate::text::quoted_form(mismatched)
                    + ", but tool requires "@ + crate::text::quoted_form(enforced),
            ),
            None => None,
        }
    }
}

pub fn validate_requested_capability_hints(
    requested_capabilities: &Vec<String>,
    enforced_capability: &str,
) -> (r: RuntimeResult<()>)
    ensures
        match hints_problem(requested_capabilities.deep_view(), enforced_capability@) {
            Some(reason) => r is Err && r->Err_0@ == (RuntimeErrorModel::InvalidToolRequest {
                reason,
            }),
            None => r is Ok,
        },
{
    let ghost hints = requested_capabilities.deep_view();
    let n: usize = requested_capabilities.len();
    let mut i: usize = 0;
    while i < n
        invariant
            i <= n == requested_capabilities.len(),
            hints == requested_capabilities.deep_view(),
            forall|j: int| 0 <= j < i ==> !crate::text::is_blank(#[trigger] hints[j]),
        decreases n - i,
    {
        assert(hints[i as int] == requested_capabilities[i as int]@);
        if blank(requested_capabilities[i].as_str()) {
            assert(has_blank_hint(hints));
            return Err(
                RuntimeError::InvalidToolRequest {
                    reason: "requested_capabilities must not contain empty entries".to_owned(),
                },
            );
        }
        i += 1;
    }
    let mut i: usize = 0;
    assert(hints.skip(0) =~= hints);
    while i < n
        invariant
            i <= n == requested_capabilities.len(),
            hints == requested_capabilities.deep_view(),
            !has_blank_hint(hints),
            first_mismatch(hints, enforced_capability@) == first_mismatch(
                hints.skip(i as int),
                enforced_capability@,
            ),
        decreases n - i,
    {
        assert(hints[i as int] == requested_capabilities[i as int]@);
        assert(hints.skip(i as int).drop_first() =~= hints.skip(i + 1));
        let name = normalized_requested_capability(requested_capabilities[i].as_str());
        if !same_text(name.as_str(), enforced_capability) {
            return Err(
                RuntimeError::InvalidToolRequest {
                    reason: "requested_capabilities contains ".to_owned().concat(
                        quoted(name.as_str()).as_str(),
                    ).concat(", but tool requires ").concat(quoted(enforced_capability).as_str()),
                },
            );
        }
        i += 1;
    }
    Ok(())
}

/// The capability that a run enforces for a tool that requires `named`, or what is wrong
/// with the request for it.
pub open spec fn required(named: Seq<char>, hints: Seq<Seq<char>>) -> Result<
    Seq<char>,
    RuntimeErrorModel,
> {
    let enforced = enforced_name(named);
    if enforced.len() == 0 {
        Err(
            RuntimeErrorModel::InvalidToolRequest {
                reason: "requested_capability must not be empty"@,
            },
        )
    } else {
        match hints_problem(hints, enforced) {
            Some(reason) => Err(RuntimeErrorModel::InvalidToolRequest { reason }),
            None => Ok(enforced),
        }
    }
}

pub fn required_capability(named: &str, requested_capabilities: &Vec<String>) -> (r: RuntimeResult<
    String,
>)
    ensures
        match r {
            Ok(enforced) => required(named@, requested_capabilities.deep_view()) == Ok::<
                Seq<char>,
                RuntimeErrorModel,
            >(enforced@),
            Err(error) => required(named@, requested_capabilities.deep_view()) == Err::<
                Seq<char>,
                RuntimeErrorModel,
            >(error@),
        },
{
    let enforced = normalized_requested_capability(named);
    if enforced.as_str().is_empty() {
        return Err(
            RuntimeError::InvalidToolRequest {
                reason: "requested_capability must not be empty".to_owned(),
            },
        );
    }
    validate_requested_capability_hints(requested_capabilities, enforced.as_str())?;
    Ok(enforced)
}

proof fn lemma_no_mismatch(hints: Seq<Seq<char>>, enforced: Seq<char>)
    ensures
        first_mismatch(hints, enforced) is None <==> forall|i: int|
            0 <= i < hints.len() ==> enforced_name(#[trigger] hints[i]) == enforced,
    decreases hints.len(),
{
    if hints.len() > 0 {
        let rest = hints.drop_first();
        lemma_no_mismatch(rest, enforced);
        if enforced_name(hints[0]) == enforced {
            if first_mismatch(rest, enforced) is None {
                assert forall|i: int| 0 <= i < hints.len() implies enforced_name(
                    #[trigger] hints[i],
                ) == enforced by {
                    if i > 0 {
                        assert(hints[i] == rest[i - 1]);
                    }
                }
            } else {
                let i = choose|i: int|
                    0 <= i < rest.len() && enforced_name(#[trigger] rest[i]) != enforced;
                assert(hints[i + 1] == rest[i]);
            }
        }
    }
}

/// A request is taken just where every hint it gives names the capability that the tool
/// requires; a tool must require one.
pub proof fn law_hints_name_what_the_tool_requires(named: Seq<char>, hints: Seq<Seq<char>>)
    ensures
        required(named, hints) is Ok <==> {
            &&& enforced_name(named).len() > 0
            &&& forall|i: int|
                0 <= i < hints.len() ==> enforced_name(#[trigger] hints[i]) == enforced_name(named)
        },
{
    let enforced = enforced_name(named);
    lemma_no_mismatch(hints, enforced);
    if has_blank_hint(hints) {
        let i = choose|i: int|
            0 <= i < hints.len() && crate::text::is_blank(#[trigger] hints[i]);
        lemma_blank_names_nothing(hints[i]);
        assert(enforced_name(hints[i]).len() == 0);
    }
}

/// The hints that name the discovery of capabilities are those that are informational.
pub proof fn law_informational_hints_name_discovery(hint: Seq<char>)
    ensures
        enforced_name(hint) == "capability.discovery"@ <==> Capability::of_name(
            hint,
        ) is Informational,
{
    crate::text::lemma_trimmed_twice(hint);
    reveal_strlit("capability.discovery");
    assert(crate::policy::normalized("capability.discovery"@) =~= "capability.discovery"@);
}

proof fn lemma_blank_names_nothing(name: Seq<char>)
    requires
        crate::text::is_blank(name),
    ensures
        enforced_name(name).len() == 0,
{
    let bare = crate::text::trimmed(name);
    assert(bare =~= Seq::empty());
    assert(crate::policy::normalized(bare).len() == 0);
    reveal_strlit("informational");
    reveal_strlit("status");
    reveal_strlit("health");
    reveal_strlit("capability.discovery");
    reveal_strlit("capabilities.list");
    reveal_strlit("policy.preview");
    reveal_strlit("policy.check");
}

} // verus!
