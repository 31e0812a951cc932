//! Interface discovery: enumerating the host's network interfaces and
//! selecting the ones that back container network namespaces, recognised by
//! a fixed name prefix.
//!
//! Enumeration order is whatever the platform reports; nothing here relies on
//! it, and `lemma_discovered_membership` states that the selection depends
//! only on which interfaces exist.

use vstd::prelude::*;
use network_interface::NetworkInterfaceConfig;

verus! {

/// One host network interface: its name and the opaque OS-level index that
/// identifies it to the platform.
pub struct InterfaceDescriptor {
    /// The interface name, e.g. a container-side virtual endpoint.
    pub name: String,
    /// The OS-level interface index.
    pub index: u32,
}

impl Clone for InterfaceDescriptor {
    fn clone(&self) -> (r: Self)
        ensures
            r == *self,
    {
        InterfaceDescriptor { name: self.name.clone(), index: self.index }
    }
}

/// Failure to enumerate the host's network interfaces.
pub struct DiscoveryError {
    /// The platform's description of the failure.
    pub message: String,
}

/// Whether `name` holds no NUL character. The platform addresses interfaces
/// by C strings, so only NUL-free names can be handed to an attach call.
pub open spec fn spec_nul_free(name: Seq<char>) -> bool {
    forall|i: int| 0 <= i < name.len() ==> name[i] != '\0'
}

/// The fixed name prefix that marks an interface as backing a container
/// network namespace.
pub open spec fn spec_container_prefix() -> Seq<char> {
    "veth"@
}

/// Whether `name` follows the container-virtual-interface naming convention:
/// it starts with the fixed prefix.
pub open spec fn spec_is_container_name(name: Seq<char>) -> bool {
    name.len() >= 4 && name.subrange(0, 4) == spec_container_prefix()
}

/// Decides whether an interface name follows the container naming convention.
pub fn is_container_interface_name(name: &String) -> (r: bool)
    ensures
        r == spec_is_container_name(name@),
{
    proof {
        reveal_strlit("veth");
    }
    let s: &str = name.as_str();
    let n: usize = s.unicode_len();
    if n < 4 {
        return false;
    }
    let r = s.get_char(0) == 'v' && s.get_char(1) == 'e' && s.get_char(2) == 't' && s.get_char(3)
        == 'h';
    proof {
        let head = name@.subrange(0, 4);
        assert(head.len() == 4);
        assert(head[0] == name@[0] && head[1] == name@[1] && head[2] == name@[2] && head[3]
            == name@[3]);
        if r {
            assert(head =~= spec_container_prefix());
        } else {
            assert(head != spec_container_prefix());
        }
    }
    r
}

/// The names of an interface enumeration, in order.
pub open spec fn spec_interface_names(interfaces: Seq<InterfaceDescriptor>) -> Seq<Seq<char>> {
    interfaces.map_values(|d: InterfaceDescriptor| d.name@)
}

/// The members of `interfaces` whose name follows the container naming
/// convention, in enumeration order.
pub open spec fn spec_discovered(interfaces: Seq<InterfaceDescriptor>) -> Seq<InterfaceDescriptor> {
    interfaces.filter(|d: InterfaceDescriptor| spec_is_container_name(d.name@))
}

/// Selects, from an enumeration of all host interfaces, exactly the ones that
/// back container network namespaces, keeping the enumeration order.
pub fn discover(interfaces: &Vec<InterfaceDescriptor>) -> (r: Vec<InterfaceDescriptor>)
    ensures
        r@ == spec_discovered(interfaces@),
{
    let ghost all = interfaces@;
    let mut r: Vec<InterfaceDescriptor> = Vec::new();
    let n = interfaces.len();
    let mut i: usize = 0;
    proof {
        reveal(Seq::filter);
        assert(spec_discovered(all.take(0)) =~= Seq::<InterfaceDescriptor>::empty());
    }
    while i < n
        invariant
            n == all.len(),
            all == interfaces@,
            0 <= i <= n,
            r@ == spec_discovered(all.take(i as int)),
        decreases n - i,
    {
        let d = &interfaces[i];
        if is_container_interface_name(&d.name) {
            r.push(d.clone());
        }
        i += 1;
        proof {
            reveal(Seq::filter);
            assert(all.take(i as int).drop_last() =~= all.take(i - 1));
            assert(all.take(i as int).last() == all[i - 1]);
            assert(r@ == spec_discovered(all.take(i as int)));
        }
    }
    proof {
        assert(all.take(n as int) =~= all);
    }
    r
}

/// Discovery selects an interface exactly when it is present in the
/// enumeration and its name follows the naming convention: the outcome is a
/// function of which interfaces exist, not of the order the platform lists
/// them in.
pub proof fn lemma_discovered_membership(
    interfaces: Seq<InterfaceDescriptor>,
    d: InterfaceDescriptor,
)
    ensures
        spec_discovered(interfaces).contains(d) <==> interfaces.contains(d)
            && spec_is_container_name(d.name@),
{
    let pred = |x: InterfaceDescriptor| spec_is_container_name(x.name@);
    let found = spec_discovered(interfaces);
    if found.contains(d) {
        interfaces.lemma_filter_contains_rev(pred, d);
        let i = choose|i: int| 0 <= i < found.len() && found[i] == d;
        interfaces.lemma_filter_pred(pred, i);
    }
    if interfaces.contains(d) && pred(d) {
        let i = choose|i: int| 0 <= i < interfaces.len() && interfaces[i] == d;
        interfaces.lemma_filter_contains(pred, i);
    }
}

/// Two enumerations that list the same interfaces, in whatever order and
/// multiplicity, discover the same interfaces.
pub proof fn lemma_discovery_order_independent(
    a: Seq<InterfaceDescriptor>,
    b: Seq<InterfaceDescriptor>,
)
    requires
        a.to_set() == b.to_set(),
    ensures
        spec_discovered(a).to_set() == spec_discovered(b).to_set(),
{
    assert forall|d: InterfaceDescriptor| #[trigger] spec_discovered(a).to_set().contains(d)
        <==> spec_discovered(b).to_set().contains(d) by {
        lemma_discovered_membership(a, d);
        lemma_discovered_membership(b, d);
        assert(a.contains(d) <==> a.to_set().contains(d));
        assert(b.contains(d) <==> b.to_set().contains(d));
    }
    assert(spec_discovered(a).to_set() =~= spec_discovered(b).to_set());
}

/// Relies on `network_interface::NetworkInterface::show` to enumerate the
/// host's network interfaces; each is handed back as its name and OS index.
/// Which interfaces come back depends on the state of the host, so nothing is
/// promised of that; but every returned name is NUL-free, because `show`
/// builds each name from the bytes of the platform's C string before its
/// terminating NUL.
#[verifier::external_body]
pub(crate) fn list_interfaces() -> (r: Result<Vec<InterfaceDescriptor>, DiscoveryError>)
    ensures
        r is Ok ==> forall|j: int|
            0 <= j < r->Ok_0@.len() ==> spec_nul_free((#[trigger] r->Ok_0@[j]).name@),
{
    match network_interface::NetworkInterface::show() {
        Ok(list) => Ok(
            list.into_iter().map(
                |itf| InterfaceDescriptor { name: itf.name, index: itf.index },
            ).collect(),
        ),
        Err(e) => Err(DiscoveryError { message: format!("{}", e) }),
    }
}

} // verus!
