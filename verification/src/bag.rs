//! The explorer's bag of resources.

use vstd::prelude::*;

use common_game::components::resource::GenericResource;

use crate::resource::{ResourceKind, resource_type_of, type_of};

verus! {

/// The types of the resources in `resources`, in the same order.
pub open spec fn types_of(resources: Seq<GenericResource>) -> Seq<ResourceKind> {
    resources.map_values(|r: GenericResource| resource_type_of(r))
}

/// How many of `resources` are of type `t`.
pub open spec fn count_of_type(resources: Seq<GenericResource>, t: ResourceKind) -> nat
    decreases resources.len(),
{
    if resources.len() == 0 {
        0
    } else {
        count_of_type(resources.drop_last(), t) + if resource_type_of(resources.last()) == t {
            1nat
        } else {
            0nat
        }
    }
}

/// `i` is the position of the first resource of type `t` in `resources`.
pub open spec fn is_first_of_type(resources: Seq<GenericResource>, t: ResourceKind, i: int) -> bool {
    &&& 0 <= i < resources.len()
    &&& resource_type_of(resources[i]) == t
    &&& forall|j: int| 0 <= j < i ==> resource_type_of(#[trigger] resources[j]) != t
}

/// Some resource in `resources` is of type `t`.
pub open spec fn holds_type(resources: Seq<GenericResource>, t: ResourceKind) -> bool {
    exists|i: int| 0 <= i < resources.len() && resource_type_of(#[trigger] resources[i]) == t
}

/// What taking a resource of type `t` out of `resources` gives: the first
/// resource of that type and the rest, or nothing and `resources` unchanged.
pub open spec fn take_outcome(resources: Seq<GenericResource>, t: ResourceKind) -> (
    Result<GenericResource, ()>,
    Seq<GenericResource>,
) {
    if holds_type(resources, t) {
        let i = choose|i: int| is_first_of_type(resources, t, i);
        (Ok(resources[i]), resources.remove(i))
    } else {
        (Err(()), resources)
    }
}

/// A sequence has at most one first resource of a given type.
pub proof fn lemma_first_of_type_unique(resources: Seq<GenericResource>, t: ResourceKind, i: int, j: int)
    requires
        is_first_of_type(resources, t, i),
        is_first_of_type(resources, t, j),
    ensures
        i == j,
{
    if i < j {
        assert(resource_type_of(resources[i]) == t);
    } else if j < i {
        assert(resource_type_of(resources[j]) == t);
    }
}

/// A sequence that holds a resource of type `t` has a first one.
pub proof fn lemma_first_of_type_exists(resources: Seq<GenericResource>, t: ResourceKind)
    requires
        holds_type(resources, t),
    ensures
        exists|i: int| is_first_of_type(resources, t, i),
    decreases resources.len(),
{
    if resource_type_of(resources[0]) == t {
        assert(is_first_of_type(resources, t, 0));
    } else {
        let rest = resources.drop_first();
        let k = choose|k: int| 0 <= k < resources.len() && resource_type_of(#[trigger] resources[k]) == t;
        assert(resource_type_of(rest[k - 1]) == t);
        lemma_first_of_type_exists(rest, t);
        let i = choose|i: int| is_first_of_type(rest, t, i);
        assert forall|j: int| 0 <= j < i + 1 implies resource_type_of(#[trigger] resources[j]) != t by {
            if j > 0 {
                assert(resources[j] == rest[j - 1]);
            }
        }
        assert(is_first_of_type(resources, t, i + 1));
    }
}

/// The resources an explorer carries, in the order they were added.
#[derive(Debug)]
pub struct Bag {
    pub resources: Vec<GenericResource>,
}

impl Bag {
    /// An empty bag.
    pub fn new() -> (bag: Self)
        ensures
            bag.resources@ == Seq::<GenericResource>::empty(),
    {
        Bag { resources: Vec::new() }
    }

    /// Puts `resource` at the end of the bag.
    pub fn add_resource(&mut self, resource: GenericResource)
        ensures
            final(self).resources@ == old(self).resources@.push(resource),
    {
        self.resources.push(resource);
    }

    /// Takes out the first resource of type `resource_type`, or fails,
    /// leaving the bag as it was, when the bag holds none.
    pub fn take_resource(&mut self, resource_type: ResourceKind) -> (taken: Result<GenericResource, ()>)
        ensures
            match taken {
                Ok(resource) => exists|i: int|
                    {
                        &&& is_first_of_type(old(self).resources@, resource_type, i)
                        &&& resource == old(self).resources@[i]
                        &&& final(self).resources@ == old(self).resources@.remove(i)
                    },
                Err(()) => {
                    &&& !holds_type(old(self).resources@, resource_type)
                    &&& final(self).resources@ == old(self).resources@
                },
            },
            (taken, final(self).resources@) == take_outcome(old(self).resources@, resource_type),
            taken matches Ok(resource) ==> resource_type_of(resource) == resource_type,
    {
        let n = self.resources.len();
        let mut i: usize = 0;
        while i < n
            invariant
                n == self.resources.len(),
                self.resources@ == old(self).resources@,
                0 <= i <= n,
                forall|j: int| 0 <= j < i ==> resource_type_of(#[trigger] self.resources@[j]) != resource_type,
            decreases n - i,
        {
            if type_of(&self.resources[i]) == resource_type {
                proof {
                    let s = old(self).resources@;
                    assert(is_first_of_type(s, resource_type, i as int));
                    let k = choose|k: int| is_first_of_type(s, resource_type, k);
                    lemma_first_of_type_unique(s, resource_type, i as int, k);
                }
                let resource = self.resources.remove(i);
                return Ok(resource);
            }
            i = i + 1;
        }
        Err(())
    }

    /// How many resources of type `resource_type` the bag holds.
    pub fn contains(&self, resource_type: ResourceKind) -> (count: usize)
        ensures
            count == count_of_type(self.resources@, resource_type),
    {
        let n = self.resources.len();
        let mut count: usize = 0;
        let mut i: usize = 0;
        while i < n
            invariant
                n == self.resources.len(),
                0 <= i <= n,
                count <= i,
                count == count_of_type(self.resources@.take(i as int), resource_type),
            decreases n - i,
        {
            assert(self.resources@.take(i + 1).drop_last() =~= self.resources@.take(i as int));
            if type_of(&self.resources[i]) == resource_type {
                count = count + 1;
            }
            i = i + 1;
        }
        assert(self.resources@.take(n as int) =~= self.resources@);
        count
    }
}

/// The types of the resources in a bag, in the bag's order.
#[derive(Debug)]
pub struct BagContent {
    pub resources: Vec<ResourceKind>,
}

/// The content of `bag`: the type of each of its resources, in order.
pub(crate) fn content_of(bag: &Bag) -> (content: BagContent)
    ensures
        content.resources@ == types_of(bag.resources@),
{
    let n = bag.resources.len();
    let mut types: Vec<ResourceKind> = Vec::new();
    let mut i: usize = 0;
    while i < n
        invariant
            n == bag.resources.len(),
            0 <= i <= n,
            types@ == types_of(bag.resources@.take(i as int)),
        decreases n - i,
    {
        let t = type_of(&bag.resources[i]);
        types.push(t);
        i = i + 1;
        assert(types@ =~= types_of(bag.resources@.take(i as int)));
    }
    assert(bag.resources@.take(n as int) =~= bag.resources@);
    BagContent { resources: types }
}

impl<'a> From<&'a mut Bag> for BagContent {
    /// The content of `bag`, as `content_of` takes it. The bag itself is left
    /// as it was.
    fn from(bag: &'a mut Bag) -> (content: BagContent)
        ensures
            content.resources@ == types_of(old(bag).resources@),
            *final(bag) == *old(bag),
    {
        content_of(bag)
    }
}

impl<'a> vstd::std_specs::convert::FromSpecImpl<&'a mut Bag> for BagContent {
    /// `from` is specified by its own `ensures`, over the content's view:
    /// two vectors with one view need not be one value to the verifier, so
    /// no spec function gives the exact result, and `from` obeys none.
    /// `from_spec` names the content only up to its view.
    open spec fn obeys_from_spec() -> bool {
        false
    }

    open spec fn from_spec(bag: &'a mut Bag) -> BagContent {
        choose|content: BagContent| content.resources@ == types_of(bag.resources@)
    }
}

/// Adding a resource adds one to the count of its type and leaves every
/// other count as it was.
pub proof fn law_add_counts(resources: Seq<GenericResource>, resource: GenericResource, t: ResourceKind)
    ensures
        count_of_type(resources.push(resource), t) == count_of_type(resources, t) + if resource_type_of(
            resource,
        ) == t {
            1nat
        } else {
            0nat
        },
{
    assert(resources.push(resource).drop_last() =~= resources);
}

/// The bag holds a resource of type `t` exactly when its count of `t` is not
/// zero.
pub proof fn law_count_positive_iff_held(resources: Seq<GenericResource>, t: ResourceKind)
    ensures
        count_of_type(resources, t) > 0 <==> holds_type(resources, t),
    decreases resources.len(),
{
    if resources.len() > 0 {
        let rest = resources.drop_last();
        law_count_positive_iff_held(rest, t);
        if holds_type(rest, t) {
            let i = choose|i: int| 0 <= i < rest.len() && resource_type_of(#[trigger] rest[i]) == t;
            assert(resources[i] == rest[i]);
        }
        if holds_type(resources, t) && resource_type_of(resources.last()) != t {
            let i = choose|i: int| 0 <= i < resources.len() && resource_type_of(#[trigger] resources[i]) == t;
            assert(rest[i] == resources[i]);
        }
        if resource_type_of(resources.last()) == t {
            assert(resource_type_of(resources[resources.len() - 1]) == t);
        }
    }
}

/// Taking a resource out succeeds exactly when the bag counts at least one
/// of that type.
pub proof fn law_take_succeeds_iff_counted(resources: Seq<GenericResource>, t: ResourceKind)
    ensures
        take_outcome(resources, t).0 is Ok <==> count_of_type(resources, t) > 0,
{
    law_count_positive_iff_held(resources, t);
}

/// Removing the resource at `i` takes one off the count of its type and
/// leaves every other count as it was.
pub proof fn law_remove_counts(resources: Seq<GenericResource>, i: int, t: ResourceKind)
    requires
        0 <= i < resources.len(),
    ensures
        count_of_type(resources.remove(i), t) + (if resource_type_of(resources[i]) == t {
            1nat
        } else {
            0nat
        }) == count_of_type(resources, t),
    decreases resources.len(),
{
    let rest = resources.drop_last();
    if i == resources.len() - 1 {
        assert(resources.remove(i) =~= rest);
    } else {
        law_remove_counts(rest, i, t);
        assert(resources.remove(i).drop_last() =~= rest.remove(i));
        assert(resources.remove(i).last() == resources.last());
    }
}

/// Taking a resource of type `t` out takes one off the count of `t` and
/// leaves every other count as it was.
pub proof fn law_take_counts(resources: Seq<GenericResource>, t: ResourceKind, u: ResourceKind)
    requires
        take_outcome(resources, t).0 is Ok,
    ensures
        count_of_type(take_outcome(resources, t).1, u) + (if u == t {
            1nat
        } else {
            0nat
        }) == count_of_type(resources, u),
{
    lemma_first_of_type_exists(resources, t);
    let i = choose|i: int| is_first_of_type(resources, t, i);
    law_remove_counts(resources, i, u);
}

/// A resource added to a bag that holds none of its type is the one that
/// taking its type gives back, and the bag is then as it was.
pub proof fn law_take_returns_added(resources: Seq<GenericResource>, resource: GenericResource)
    requires
        !holds_type(resources, resource_type_of(resource)),
    ensures
        take_outcome(resources.push(resource), resource_type_of(resource)) == (
        Ok::<GenericResource, ()>(resource), resources),
{
    let t = resource_type_of(resource);
    let s = resources.push(resource);
    let n = resources.len() as int;
    assert(is_first_of_type(s, t, n)) by {
        assert forall|j: int| 0 <= j < n implies resource_type_of(#[trigger] s[j]) != t by {
            assert(s[j] == resources[j]);
        }
    }
    let k = choose|k: int| is_first_of_type(s, t, k);
    lemma_first_of_type_unique(s, t, n, k);
    assert(s.remove(n) =~= resources);
}

/// A bag's content lists one type per resource, in the bag's order.
pub proof fn law_content_mirrors_bag(resources: Seq<GenericResource>)
    ensures
        types_of(resources).len() == resources.len(),
        forall|i: int| 0 <= i < resources.len() ==> #[trigger] types_of(resources)[i] == resource_type_of(
            resources[i],
        ),
{
}

} // verus!
