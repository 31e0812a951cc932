//! The attachment registry: which interfaces already carry the classifier.
//!
//! Owned by the controller and consulted on every discovery pass so that
//! attach requests stay idempotent. An interface name only ever moves from
//! absent to present; there is no detach path, so a recorded attachment holds
//! for the life of the process.

use vstd::prelude::*;

verus! {

/// Records the names of the interfaces that already have the classifier
/// attached. Viewed as the set of those names.
pub struct AttachmentRegistry {
    attached: Vec<String>,
}

impl AttachmentRegistry {
    /// The set of interface names recorded as attached.
    pub closed spec fn view(&self) -> Set<Seq<char>> {
        Set::new(
            |n: Seq<char>|
                exists|i: int|
                    0 <= i < self.attached@.len() && (#[trigger] self.attached@[i])@ == n,
        )
    }

    /// An empty registry: no interface is attached yet.
    pub fn new() -> (r: Self)
        ensures
            r@ == Set::<Seq<char>>::empty(),
    {
        let r = AttachmentRegistry { attached: Vec::new() };
        proof {
            assert(r@ =~= Set::<Seq<char>>::empty());
        }
        r
    }

    /// Whether `name` is already recorded as attached.
    pub fn contains(&self, name: &String) -> (r: bool)
        ensures
            r == self@.contains(name@),
    {
        let n = self.attached.len();
        let mut i: usize = 0;
        while i < n
            invariant
                n == self.attached@.len(),
                0 <= i <= n,
                forall|j: int| 0 <= j < i ==> (#[trigger] self.attached@[j])@ != name@,
            decreases n - i,
        {
            if self.attached[i].eq(name) {
                return true;
            }
            i += 1;
        }
        false
    }

    /// Records `name` as attached. The registry afterwards holds exactly the
    /// old names plus `name`; nothing is ever removed.
    pub fn mark_attached(&mut self, name: &String)
        ensures
            final(self)@ == old(self)@.insert(name@),
    {
        self.attached.push(name.clone());
        proof {
            let pre = old(self).attached@;
            let post = self.attached@;
            assert forall|n: Seq<char>| old(self)@.insert(name@).contains(n) implies self@.contains(
                n,
            ) by {
                if n == name@ {
                    assert((post[pre.len() as int])@ == n);
                } else {
                    let i = choose|i: int| 0 <= i < pre.len() && (#[trigger] pre[i])@ == n;
                    assert((post[i])@ == n);
                }
            }
            assert forall|n: Seq<char>| self@.contains(n) implies old(self)@.insert(
                name@,
            ).contains(n) by {
                let i = choose|i: int| 0 <= i < post.len() && (#[trigger] post[i])@ == n;
                if i < pre.len() {
                    assert((pre[i])@ == n);
                }
            }
            assert(self@ =~= old(self)@.insert(name@));
        }
    }
}

} // verus!
