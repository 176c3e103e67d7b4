//! Resource kinds, the resources themselves and the combination recipes.

use vstd::prelude::*;

use common_game::components::resource::GenericResource;
use common_game::components::resource::BasicResourceType as B;
use common_game::components::resource::ComplexResourceType as C;
use common_game::components::resource::ResourceType as T;

verus! {

/// The basic resources a planet can generate.
#[derive(Debug, Clone, Copy, PartialEq, Eq, Structural)]
pub enum BasicKind {
    Oxygen,
    Hydrogen,
    Carbon,
    Silicon,
}

/// The complex resources a planet can combine.
#[derive(Debug, Clone, Copy, PartialEq, Eq, Structural)]
pub enum ComplexKind {
    Diamond,
    Water,
    Life,
    Robot,
    Dolphin,
    AIPartner,
}

/// The type of any resource, basic or complex.
#[derive(Debug, Clone, Copy, PartialEq, Eq, Structural)]
pub enum ResourceKind {
    Basic(BasicKind),
    Complex(ComplexKind),
}

#[verifier::external_type_specification]
#[verifier::external_body]
pub struct ExGenericResource(common_game::components::resource::GenericResource);

/// The type of a resource, as `GenericResource::get_type` reports it.
pub uninterp spec fn resource_type_of(resource: GenericResource) -> ResourceKind;

/// Calls `GenericResource::get_type`; the result is the resource's type,
/// which depends on the resource alone.
#[verifier::external_body]
pub(crate) fn type_of(resource: &GenericResource) -> (t: ResourceKind)
    ensures
        t == resource_type_of(*resource),
{
    match resource.get_type() {
        T::Basic(basic) => ResourceKind::Basic(basic_from_game(basic)),
        T::Complex(complex) => ResourceKind::Complex(complex_from_game(complex)),
    }
}

#[verifier::external_type_specification]
#[verifier::external_body]
pub struct ExGameBasicResourceType(common_game::components::resource::BasicResourceType);

#[verifier::external_type_specification]
#[verifier::external_body]
pub struct ExGameComplexResourceType(common_game::components::resource::ComplexResourceType);

/// Converts `common_game`'s basic resource type into this library's, variant
/// for variant.
#[verifier::external_body]
pub(crate) fn basic_from_game(t: B) -> BasicKind {
    match t {
        B::Oxygen => BasicKind::Oxygen,
        B::Hydrogen => BasicKind::Hydrogen,
        B::Carbon => BasicKind::Carbon,
        B::Silicon => BasicKind::Silicon,
    }
}

/// Converts this library's basic resource type into `common_game`'s, variant
/// for variant.
#[verifier::external_body]
pub(crate) fn basic_to_game(t: BasicKind) -> B {
    match t {
        BasicKind::Oxygen => B::Oxygen,
        BasicKind::Hydrogen => B::Hydrogen,
        BasicKind::Carbon => B::Carbon,
        BasicKind::Silicon => B::Silicon,
    }
}

/// Converts `common_game`'s complex resource type into this library's,
/// variant for variant.
#[verifier::external_body]
pub(crate) fn complex_from_game(t: C) -> ComplexKind {
    match t {
        C::Diamond => ComplexKind::Diamond,
        C::Water => ComplexKind::Water,
        C::Life => ComplexKind::Life,
        C::Robot => ComplexKind::Robot,
        C::Dolphin => ComplexKind::Dolphin,
        C::AIPartner => ComplexKind::AIPartner,
    }
}

/// Converts this library's complex resource type into `common_game`'s,
/// variant for variant.
#[verifier::external_body]
pub(crate) fn complex_to_game(t: ComplexKind) -> C {
    match t {
        ComplexKind::Diamond => C::Diamond,
        ComplexKind::Water => C::Water,
        ComplexKind::Life => C::Life,
        ComplexKind::Robot => C::Robot,
        ComplexKind::Dolphin => C::Dolphin,
        ComplexKind::AIPartner => C::AIPartner,
    }
}

/// The two resources, first and second, that combine into `kind`.
pub open spec fn recipe(kind: ComplexKind) -> (ResourceKind, ResourceKind) {
    match kind {
        ComplexKind::Diamond => (
            ResourceKind::Basic(BasicKind::Carbon),
            ResourceKind::Basic(BasicKind::Carbon),
        ),
        ComplexKind::Water => (
            ResourceKind::Basic(BasicKind::Hydrogen),
            ResourceKind::Basic(BasicKind::Oxygen),
        ),
        ComplexKind::Life => (
            ResourceKind::Complex(ComplexKind::Water),
            ResourceKind::Basic(BasicKind::Carbon),
        ),
        ComplexKind::Robot => (
            ResourceKind::Basic(BasicKind::Silicon),
            ResourceKind::Complex(ComplexKind::Life),
        ),
        ComplexKind::Dolphin => (
            ResourceKind::Complex(ComplexKind::Water),
            ResourceKind::Complex(ComplexKind::Life),
        ),
        ComplexKind::AIPartner => (
            ResourceKind::Complex(ComplexKind::Robot),
            ResourceKind::Complex(ComplexKind::Diamond),
        ),
    }
}

/// The types of the two resources that combine into `kind`, in the order a
/// combination request takes them.
pub fn ingredients(kind: ComplexKind) -> (pair: (ResourceKind, ResourceKind))
    ensures
        pair == recipe(kind),
{
    match kind {
        ComplexKind::Diamond => (
            ResourceKind::Basic(BasicKind::Carbon),
            ResourceKind::Basic(BasicKind::Carbon),
        ),
        ComplexKind::Water => (
            ResourceKind::Basic(BasicKind::Hydrogen),
            ResourceKind::Basic(BasicKind::Oxygen),
        ),
        ComplexKind::Life => (
            ResourceKind::Complex(ComplexKind::Water),
            ResourceKind::Basic(BasicKind::Carbon),
        ),
        ComplexKind::Robot => (
            ResourceKind::Basic(BasicKind::Silicon),
            ResourceKind::Complex(ComplexKind::Life),
        ),
        ComplexKind::Dolphin => (
            ResourceKind::Complex(ComplexKind::Water),
            ResourceKind::Complex(ComplexKind::Life),
        ),
        ComplexKind::AIPartner => (
            ResourceKind::Complex(ComplexKind::Robot),
            ResourceKind::Complex(ComplexKind::Diamond),
        ),
    }
}

} // verus!
