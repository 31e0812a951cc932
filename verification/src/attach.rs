//! Attaching the classifier to discovered interfaces.
//!
//! `ensure_attached` consults the registry before asking the kernel to bind
//! the program, so attach requests stay idempotent; `attach_pass` runs one
//! discovery-and-attach pass over an interface enumeration, with per-interface
//! failures isolated and handed back for logging; `spec_attach_plan` is the
//! model of which attach calls a pass issues, and the lemmas beside it state
//! that no interface is asked for twice.

use vstd::prelude::*;
use crate::discovery::{
    DiscoveryError,
    InterfaceDescriptor,
    discover,
    is_container_interface_name,
    list_interfaces,
    spec_is_container_name,
    spec_interface_names,
    spec_nul_free,
};
use crate::registry::AttachmentRegistry;

verus! {

/// The loaded kernel-hook program, as the hook loader hands it out: opaque
/// here, only ever passed on to the platform's attach call.
#[verifier::external_type_specification]
#[verifier::external_body]
pub struct ExXdp(aya::programs::Xdp);

/// The platform refused to bind the classifier to an interface.
pub struct AttachError {
    /// The platform's description of the refusal.
    pub message: String,
}

/// The outcome of one `ensure_attached` request.
pub enum AttachOutcome {
    /// The registry already recorded the interface; no attach call was made.
    AlreadyAttached,
    /// An attach call was made and the kernel accepted it.
    Attached,
    /// An attach call was made and the platform refused it; the interface
    /// stays eligible for a retry on a later pass.
    Failed(AttachError),
}

/// One refused attach within a pass: the interface asked for and the
/// platform's answer.
pub struct AttachFailure {
    /// The name of the interface whose attach the platform refused.
    pub name: String,
    /// The refusal itself.
    pub error: AttachError,
}

/// Relies on `aya::programs::Xdp::attach`: asks the kernel to bind the loaded
/// classifier to the receive path of the named interface, in the default
/// attach mode. Whether the kernel accepts depends on the host's state, so
/// nothing is promised of the outcome. The name must be NUL-free: `attach`
/// converts it to a C string and panics on a name with an interior NUL.
#[verifier::external_body]
fn xdp_attach(program: &mut aya::programs::Xdp, name: &String) -> (r: Result<(), AttachError>)
    requires
        spec_nul_free(name@),
{
    match program.attach(name.as_str(), aya::programs::XdpMode::default()) {
        Ok(_) => Ok(()),
        Err(e) => Err(AttachError { message: format!("{}", e) }),
    }
}

/// Attaches the classifier to one interface unless the registry already
/// records it: a request for a covered interface makes no attach call and is
/// a no-op, a successful attach is recorded, a refused one leaves the
/// registry unchanged so a later pass may retry. The platform addresses an
/// interface by a C string, so the name must be NUL-free.
pub fn ensure_attached(
    program: &mut aya::programs::Xdp,
    registry: &mut AttachmentRegistry,
    descriptor: &InterfaceDescriptor,
) -> (r: AttachOutcome)
    requires
        spec_nul_free(descriptor.name@),
    ensures
        old(registry)@.contains(descriptor.name@) ==> r is AlreadyAttached,
        r is AlreadyAttached ==> old(registry)@.contains(descriptor.name@) && final(registry)@
            == old(registry)@,
        r is Attached ==> final(registry)@ == old(registry)@.insert(descriptor.name@),
        r is Failed ==> final(registry)@ == old(registry)@,
        !(r is Failed) ==> final(registry)@.contains(descriptor.name@),
{
    if registry.contains(&descriptor.name) {
        return AttachOutcome::AlreadyAttached;
    }
    match xdp_attach(program, &descriptor.name) {
        Ok(_) => {
            registry.mark_attached(&descriptor.name);
            AttachOutcome::Attached
        },
        Err(e) => AttachOutcome::Failed(e),
    }
}

/// The names of the refusals a pass reported, in order.
pub open spec fn spec_failure_names(failures: Seq<AttachFailure>) -> Seq<Seq<char>> {
    failures.map_values(|f: AttachFailure| f.name@)
}

/// Runs one attach pass over an interface enumeration: every interface whose
/// name follows the container naming convention is ensured attached, one at a
/// time, a refusal of one not touching the others. The registry only grows,
/// and every name it gains names a discovered container interface. The
/// refusals are handed back, each with its interface name, so the caller can
/// log them; every reported name is a container interface from the
/// enumeration that was not attached when the pass began. No eligible
/// interface is skipped: when the pass ends, every container interface of the
/// enumeration is either recorded in the registry or reported as a failure.
pub fn attach_pass(
    program: &mut aya::programs::Xdp,
    registry: &mut AttachmentRegistry,
    interfaces: &Vec<InterfaceDescriptor>,
) -> (failures: Vec<AttachFailure>)
    requires
        forall|j: int|
            0 <= j < interfaces@.len() ==> spec_nul_free((#[trigger] interfaces@[j]).name@),
    ensures
        old(registry)@ <= final(registry)@,
        forall|n: Seq<char>| #![trigger final(registry)@.contains(n)]
            final(registry)@.contains(n) && !old(registry)@.contains(n)
                ==> spec_is_container_name(n) && spec_interface_names(interfaces@).contains(n),
        forall|k: int|
            0 <= k < failures@.len() ==> spec_is_container_name(
                (#[trigger] failures@[k]).name@,
            ) && spec_interface_names(interfaces@).contains(failures@[k].name@) && !old(
                registry,
            )@.contains(failures@[k].name@),
        forall|j: int|
            0 <= j < interfaces@.len() && spec_is_container_name(
                (#[trigger] interfaces@[j]).name@,
            ) ==> final(registry)@.contains(interfaces@[j].name@) || spec_failure_names(
                failures@,
            ).contains(interfaces@[j].name@),
{
    let matching = discover(interfaces);
    let mut failures: Vec<AttachFailure> = Vec::new();
    let n = matching.len();
    let mut i: usize = 0;
    while i < n
        invariant
            n == matching@.len(),
            matching@ == crate::discovery::spec_discovered(interfaces@),
            0 <= i <= n,
            forall|j: int|
                0 <= j < interfaces@.len() ==> spec_nul_free((#[trigger] interfaces@[j]).name@),
            old(registry)@ <= registry@,
            forall|m: Seq<char>| #![trigger registry@.contains(m)]
                registry@.contains(m) && !old(registry)@.contains(m) ==> spec_is_container_name(m)
                    && spec_interface_names(interfaces@).contains(m),
            forall|k: int|
                0 <= k < failures@.len() ==> spec_is_container_name(
                    (#[trigger] failures@[k]).name@,
                ) && spec_interface_names(interfaces@).contains(failures@[k].name@) && !old(
                    registry,
                )@.contains(failures@[k].name@),
            forall|k: int|
                0 <= k < i ==> registry@.contains(
                    (#[trigger] matching@[k]).name@,
                ) || spec_failure_names(failures@).contains(matching@[k].name@),
        decreases n - i,
    {
        let descriptor = &matching[i];
        proof {
            crate::discovery::lemma_discovered_membership(interfaces@, matching@[i as int]);
            assert(matching@.contains(matching@[i as int]));
            let j = choose|j: int|
                0 <= j < interfaces@.len() && interfaces@[j] == matching@[i as int];
            assert(spec_interface_names(interfaces@)[j] == matching@[i as int].name@);
            assert(spec_nul_free(matching@[i as int].name@));
        }
        let ghost pre = registry@;
        let ghost fpre = failures@;
        match ensure_attached(program, registry, descriptor) {
            AttachOutcome::Failed(error) => {
                failures.push(AttachFailure { name: descriptor.name.clone(), error });
                proof {
                    assert(spec_failure_names(failures@) =~= spec_failure_names(fpre).push(
                        matching@[i as int].name@,
                    ));
                    assert(spec_failure_names(failures@)[fpre.len() as int] == matching@[
                        i as int
                    ].name@);
                    assert(spec_failure_names(failures@).contains(matching@[i as int].name@));
                }
            },
            _ => {
                proof {
                    assert(registry@.contains(matching@[i as int].name@));
                }
            },
        }
        proof {
            assert forall|m: Seq<char>|
                registry@.contains(m) && !old(registry)@.contains(m) implies spec_is_container_name(
                m,
            ) && spec_interface_names(interfaces@).contains(m) by {
                if !pre.contains(m) {
                    assert(m == matching@[i as int].name@);
                }
            }
            assert forall|k: int|
                0 <= k < i + 1 implies registry@.contains(
                (#[trigger] matching@[k]).name@,
            ) || spec_failure_names(failures@).contains(matching@[k].name@) by {
                if k < i && !pre.contains(matching@[k].name@) {
                    let idx = choose|idx: int|
                        0 <= idx < spec_failure_names(fpre).len() && spec_failure_names(fpre)[idx]
                            == matching@[k].name@;
                    assert(spec_failure_names(failures@)[idx] == matching@[k].name@);
                }
            }
        }
        i += 1;
    }
    proof {
        assert forall|j: int|
            0 <= j < interfaces@.len() && spec_is_container_name(
                (#[trigger] interfaces@[j]).name@,
            ) implies registry@.contains(interfaces@[j].name@) || spec_failure_names(
            failures@,
        ).contains(interfaces@[j].name@) by {
            crate::discovery::lemma_discovered_membership(interfaces@, interfaces@[j]);
            assert(interfaces@.contains(interfaces@[j]));
            assert(matching@.contains(interfaces@[j]));
            let k = choose|k: int| 0 <= k < matching@.len() && matching@[k] == interfaces@[j];
            assert(registry@.contains((matching@[k]).name@) || spec_failure_names(
                failures@,
            ).contains(matching@[k].name@));
        }
    }
    failures
}

/// Runs one discovery-and-attach pass against the live host: enumerates the
/// interfaces and ensures every container interface is attached. Enumeration
/// failure leaves the registry untouched; otherwise the registry only grows,
/// gaining only names of container interfaces, and the attaches the platform
/// refused come back with their interface names for the caller to log.
pub fn run_discovery_pass(
    program: &mut aya::programs::Xdp,
    registry: &mut AttachmentRegistry,
) -> (r: Result<Vec<AttachFailure>, DiscoveryError>)
    ensures
        old(registry)@ <= final(registry)@,
        forall|n: Seq<char>| #![trigger final(registry)@.contains(n)]
            final(registry)@.contains(n) && !old(registry)@.contains(n)
                ==> spec_is_container_name(n),
        r is Err ==> final(registry)@ == old(registry)@,
        r is Ok ==> forall|k: int|
            0 <= k < r->Ok_0@.len() ==> spec_is_container_name(
                (#[trigger] r->Ok_0@[k]).name@,
            ) && !old(registry)@.contains(r->Ok_0@[k].name@),
{
    match list_interfaces() {
        Ok(interfaces) => Ok(attach_pass(program, registry, &interfaces)),
        Err(e) => Err(e),
    }
}

/// The attach calls one pass over `names` issues, given the set of names
/// already attached: a name is asked for exactly when it follows the
/// container naming convention, is not yet attached, and was not already
/// asked for earlier in the same pass.
pub open spec fn spec_attach_plan(names: Seq<Seq<char>>, attached: Set<Seq<char>>) -> Seq<
    Seq<char>,
>
    decreases names.len(),
{
    if names.len() == 0 {
        Seq::empty()
    } else {
        let earlier = spec_attach_plan(names.drop_last(), attached);
        let last = names.last();
        if spec_is_container_name(last) && !attached.contains(last) && !earlier.contains(last) {
            earlier.push(last)
        } else {
            earlier
        }
    }
}

/// The views of a sequence of names.
pub open spec fn spec_string_views(names: Seq<String>) -> Seq<Seq<char>> {
    names.map_values(|s: String| s@)
}

/// Whether some member of `plan` has the view `name`.
fn plan_contains(plan: &Vec<String>, name: &String) -> (r: bool)
    ensures
        r == spec_string_views(plan@).contains(name@),
{
    let ghost views = spec_string_views(plan@);
    let n = plan.len();
    let mut i: usize = 0;
    while i < n
        invariant
            n == plan@.len(),
            views == spec_string_views(plan@),
            0 <= i <= n,
            forall|j: int| 0 <= j < i ==> views[j] != name@,
        decreases n - i,
    {
        if plan[i].eq(name) {
            proof {
                assert(views[i as int] == name@);
            }
            return true;
        }
        i += 1;
    }
    false
}

/// Computes the attach calls one pass would issue for these interfaces and
/// this registry, in order, assuming each call succeeds.
pub fn attach_plan(
    interfaces: &Vec<InterfaceDescriptor>,
    registry: &AttachmentRegistry,
) -> (r: Vec<String>)
    ensures
        spec_string_views(r@) == spec_attach_plan(spec_interface_names(interfaces@), registry@),
{
    let ghost names = spec_interface_names(interfaces@);
    let mut r: Vec<String> = Vec::new();
    let n = interfaces.len();
    let mut i: usize = 0;
    proof {
        assert(spec_string_views(r@) =~= spec_attach_plan(names.take(0), registry@));
    }
    while i < n
        invariant
            n == interfaces@.len(),
            names == spec_interface_names(interfaces@),
            0 <= i <= n,
            spec_string_views(r@) == spec_attach_plan(names.take(i as int), registry@),
        decreases n - i,
    {
        let descriptor = &interfaces[i];
        let ghost before = spec_string_views(r@);
        if is_container_interface_name(&descriptor.name) && !registry.contains(&descriptor.name)
            && !plan_contains(&r, &descriptor.name) {
            r.push(descriptor.name.clone());
            proof {
                assert(spec_string_views(r@) =~= before.push(descriptor.name@));
            }
        }
        i += 1;
        proof {
            assert(names.take(i as int).drop_last() =~= names.take(i - 1));
            assert(names.take(i as int).last() == names[i - 1]);
            assert(names[i - 1] == interfaces@[i - 1].name@);
            assert(spec_string_views(r@) == spec_attach_plan(names.take(i as int), registry@));
        }
    }
    proof {
        assert(names.take(n as int) =~= names);
    }
    r
}

/// Within one pass no interface is asked for twice: the planned attach calls
/// are pairwise distinct.
pub proof fn lemma_attach_plan_no_duplicates(names: Seq<Seq<char>>, attached: Set<Seq<char>>)
    ensures
        spec_attach_plan(names, attached).no_duplicates(),
    decreases names.len(),
{
    if names.len() > 0 {
        lemma_attach_plan_no_duplicates(names.drop_last(), attached);
        let earlier = spec_attach_plan(names.drop_last(), attached);
        let last = names.last();
        if spec_is_container_name(last) && !attached.contains(last) && !earlier.contains(last) {
            assert forall|i: int, j: int|
                0 <= i < earlier.push(last).len() && 0 <= j < earlier.push(last).len() && i
                    != j implies earlier.push(last)[i] != earlier.push(last)[j] by {
                if i == earlier.len() && earlier.push(last)[i] == earlier.push(last)[j] {
                    assert(earlier[j] == last);
                    assert(earlier.contains(last));
                } else if j == earlier.len() && earlier.push(last)[i] == earlier.push(last)[j] {
                    assert(earlier[i] == last);
                    assert(earlier.contains(last));
                }
            }
        }
    }
}

/// An interface already recorded as attached is never asked for again, in any
/// pass: a second `ensure_attached` request for it issues no attach call.
pub proof fn lemma_attach_plan_skips_attached(
    names: Seq<Seq<char>>,
    attached: Set<Seq<char>>,
    name: Seq<char>,
)
    requires
        attached.contains(name),
    ensures
        !spec_attach_plan(names, attached).contains(name),
    decreases names.len(),
{
    if names.len() > 0 {
        lemma_attach_plan_skips_attached(names.drop_last(), attached, name);
        let earlier = spec_attach_plan(names.drop_last(), attached);
        let last = names.last();
        if spec_is_container_name(last) && !attached.contains(last) && !earlier.contains(last) {
            assert forall|i: int|
                0 <= i < earlier.push(last).len() implies earlier.push(last)[i] != name by {
                if i < earlier.len() && earlier[i] == name {
                    assert(earlier.contains(name));
                }
            }
        }
    }
}

/// Catch-up: one pass asks for every container interface in the enumeration
/// that is not attached yet, whether or not an earlier pass missed it.
pub proof fn lemma_attach_plan_complete(
    names: Seq<Seq<char>>,
    attached: Set<Seq<char>>,
    name: Seq<char>,
)
    requires
        names.contains(name),
        spec_is_container_name(name),
        !attached.contains(name),
    ensures
        spec_attach_plan(names, attached).contains(name),
    decreases names.len(),
{
    let earlier = spec_attach_plan(names.drop_last(), attached);
    let last = names.last();
    let plan = spec_attach_plan(names, attached);
    if last == name {
        if !earlier.contains(name) {
            assert(plan[plan.len() - 1] == name);
        } else {
            let i = choose|i: int| 0 <= i < earlier.len() && earlier[i] == name;
            assert(plan[i] == name);
        }
    } else {
        let i = choose|i: int| 0 <= i < names.len() && names[i] == name;
        assert(names.drop_last()[i] == name);
        lemma_attach_plan_complete(names.drop_last(), attached, name);
        let i = choose|i: int| 0 <= i < earlier.len() && earlier[i] == name;
        assert(plan[i] == name);
    }
}

} // verus!
