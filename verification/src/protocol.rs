//! The messages an explorer exchanges with the orchestrator and with its
//! planet, as values this library can reason about, and their conversion to
//! and from `common_game`'s protocol enums.

use vstd::prelude::*;

use std::collections::HashSet;

use common_game::components::resource::BasicResourceType as GameBasic;
use common_game::components::resource::ComplexResourceRequest;
use common_game::components::resource::ComplexResourceType as GameComplex;
use common_game::components::resource::GenericResource;
use common_game::protocols::orchestrator_explorer::ExplorerToOrchestrator;
use common_game::protocols::orchestrator_explorer::OrchestratorToExplorer;
use common_game::protocols::planet_explorer::ExplorerToPlanet;
use common_game::protocols::planet_explorer::PlanetToExplorer;
use crossbeam_channel::Sender;

use crate::bag::BagContent;
use crate::resource::{
    BasicKind, ComplexKind, basic_from_game, basic_to_game, complex_from_game,
    complex_to_game, recipe, resource_type_of,
};

verus! {

#[verifier::external_type_specification]
#[verifier::external_body]
pub struct ExOrchestratorToExplorer(common_game::protocols::orchestrator_explorer::OrchestratorToExplorer);

#[verifier::external_type_specification]
#[verifier::external_body]
#[verifier::reject_recursive_types(T)]
pub struct ExExplorerToOrchestrator<T>(common_game::protocols::orchestrator_explorer::ExplorerToOrchestrator<T>);

#[verifier::external_type_specification]
#[verifier::external_body]
pub struct ExExplorerToPlanet(common_game::protocols::planet_explorer::ExplorerToPlanet);

#[verifier::external_type_specification]
#[verifier::external_body]
pub struct ExPlanetToExplorer(common_game::protocols::planet_explorer::PlanetToExplorer);

#[verifier::external_type_specification]
#[verifier::external_body]
pub struct ExComplexResourceRequest(common_game::components::resource::ComplexResourceRequest);

/// A message from the orchestrator to an explorer.
#[allow(inconsistent_fields)]
pub enum OrchestratorMessage {
    StartExplorerAI,
    ResetExplorerAI,
    KillExplorer,
    StopExplorerAI,
    MoveToPlanet { sender_to_new_planet: Option<Sender<ExplorerToPlanet>>, planet_id: u32 },
    CurrentPlanetRequest,
    SupportedResourceRequest,
    SupportedCombinationRequest,
    GenerateResourceRequest { to_generate: BasicKind },
    CombineResourceRequest { to_generate: ComplexKind },
    BagContentRequest,
    NeighborsResponse { neighbors: Vec<u32> },
}

/// A message from an explorer to its planet.
#[allow(inconsistent_fields)]
pub enum PlanetRequest {
    SupportedResourceRequest { explorer_id: u32 },
    SupportedCombinationRequest { explorer_id: u32 },
    GenerateResourceRequest { explorer_id: u32, resource: BasicKind },
    /// Asks the planet to combine `first` and `second` into `to_generate`.
    CombineResourceRequest {
        explorer_id: u32,
        to_generate: ComplexKind,
        first: GenericResource,
        second: GenericResource,
    },
}

/// A message from a planet to an explorer.
#[allow(inconsistent_fields)]
pub enum PlanetReply {
    SupportedResourceResponse { resource_list: HashSet<GameBasic> },
    SupportedCombinationResponse { combination_list: HashSet<GameComplex> },
    /// The basic resource the planet generated, if it could.
    GenerateResourceResponse { resource: Option<GenericResource> },
    /// The complex resource the planet made, or why it could not, with the two
    /// resources it was given back.
    CombineResourceResponse {
        complex_response: Result<GenericResource, (String, GenericResource, GenericResource)>,
    },
    AvailableEnergyCellResponse { available_cells: u32 },
    Stopped,
}

/// A message from an explorer to the orchestrator.
#[allow(inconsistent_fields)]
pub enum OrchestratorReply {
    MovedToPlanetResult { explorer_id: u32, planet_id: u32 },
    CurrentPlanetResult { explorer_id: u32, planet_id: u32 },
    SupportedResourceResult { explorer_id: u32, supported_resources: HashSet<GameBasic> },
    SupportedCombinationResult { explorer_id: u32, combination_list: HashSet<GameComplex> },
    GenerateResourceResponse { explorer_id: u32, generated: Result<(), String> },
    CombineResourceResponse { explorer_id: u32, generated: Result<(), String> },
    BagContentResponse { explorer_id: u32, bag_content: BagContent },
}

/// A combination request hands the planet resources of the recipe's types.
pub open spec fn well_formed_request(request: PlanetRequest) -> bool {
    match request {
        PlanetRequest::CombineResourceRequest { to_generate, first, second, .. } => (
        resource_type_of(first), resource_type_of(second)) == recipe(to_generate),
        _ => true,
    }
}

/// Converts a `common_game` orchestrator message into this library's,
/// variant for variant, moving every field across.
#[verifier::external_body]
pub(crate) fn read_orchestrator_message(message: OrchestratorToExplorer) -> OrchestratorMessage {
    match message {
        OrchestratorToExplorer::StartExplorerAI => OrchestratorMessage::StartExplorerAI,
        OrchestratorToExplorer::ResetExplorerAI => OrchestratorMessage::ResetExplorerAI,
        OrchestratorToExplorer::KillExplorer => OrchestratorMessage::KillExplorer,
        OrchestratorToExplorer::StopExplorerAI => OrchestratorMessage::StopExplorerAI,
        OrchestratorToExplorer::MoveToPlanet { sender_to_new_planet, planet_id } => OrchestratorMessage::MoveToPlanet { sender_to_new_planet, planet_id },
        OrchestratorToExplorer::CurrentPlanetRequest => OrchestratorMessage::CurrentPlanetRequest,
        OrchestratorToExplorer::SupportedResourceRequest => OrchestratorMessage::SupportedResourceRequest,
        OrchestratorToExplorer::SupportedCombinationRequest => OrchestratorMessage::SupportedCombinationRequest,
        OrchestratorToExplorer::GenerateResourceRequest { to_generate } => OrchestratorMessage::GenerateResourceRequest { to_generate: basic_from_game(to_generate) },
        OrchestratorToExplorer::CombineResourceRequest { to_generate } => OrchestratorMessage::CombineResourceRequest { to_generate: complex_from_game(to_generate) },
        OrchestratorToExplorer::BagContentRequest => OrchestratorMessage::BagContentRequest,
        OrchestratorToExplorer::NeighborsResponse { neighbors } => OrchestratorMessage::NeighborsResponse { neighbors },
    }
}

/// Converts a `common_game` planet message into this library's, variant for
/// variant; the generated or combined resource is wrapped, as it is, into a
/// `GenericResource`.
#[verifier::external_body]
pub(crate) fn read_planet_reply(reply: PlanetToExplorer) -> PlanetReply {
    match reply {
        PlanetToExplorer::SupportedResourceResponse { resource_list } => PlanetReply::SupportedResourceResponse { resource_list },
        PlanetToExplorer::SupportedCombinationResponse { combination_list } => PlanetReply::SupportedCombinationResponse { combination_list },
        PlanetToExplorer::GenerateResourceResponse { resource } => PlanetReply::GenerateResourceResponse { resource: resource.map(GenericResource::BasicResources) },
        PlanetToExplorer::CombineResourceResponse { complex_response } => PlanetReply::CombineResourceResponse { complex_response: complex_response.map(GenericResource::ComplexResources) },
        PlanetToExplorer::AvailableEnergyCellResponse { available_cells } => PlanetReply::AvailableEnergyCellResponse { available_cells },
        PlanetToExplorer::Stopped => PlanetReply::Stopped,
    }
}

/// Builds `common_game`'s `ComplexResourceRequest` for `to_generate` out of
/// `first` and `second`, unwrapping each into the resource the recipe names;
/// `requires` rules out the resources of other types, on which it would panic.
#[verifier::external_body]
fn combine_request(to_generate: ComplexKind, first: GenericResource, second: GenericResource) -> ComplexResourceRequest
    requires
        (resource_type_of(first), resource_type_of(second)) == recipe(to_generate),
{
    match to_generate {
        ComplexKind::Diamond => ComplexResourceRequest::Diamond(first.to_carbon().unwrap(), second.to_carbon().unwrap()),
        ComplexKind::Water => ComplexResourceRequest::Water(first.to_hydrogen().unwrap(), second.to_oxygen().unwrap()),
        ComplexKind::Life => ComplexResourceRequest::Life(first.to_water().unwrap(), second.to_carbon().unwrap()),
        ComplexKind::Robot => ComplexResourceRequest::Robot(first.to_silicon().unwrap(), second.to_life().unwrap()),
        ComplexKind::Dolphin => ComplexResourceRequest::Dolphin(first.to_water().unwrap(), second.to_life().unwrap()),
        ComplexKind::AIPartner => ComplexResourceRequest::AIPartner(first.to_robot().unwrap(), second.to_diamond().unwrap()),
    }
}

/// Converts a request to the planet into `common_game`'s message, variant for
/// variant, moving every field across.
#[verifier::external_body]
pub(crate) fn planet_message(request: PlanetRequest) -> ExplorerToPlanet
    requires
        well_formed_request(request),
{
    match request {
        PlanetRequest::SupportedResourceRequest { explorer_id } => ExplorerToPlanet::SupportedResourceRequest { explorer_id },
        PlanetRequest::SupportedCombinationRequest { explorer_id } => ExplorerToPlanet::SupportedCombinationRequest { explorer_id },
        PlanetRequest::GenerateResourceRequest { explorer_id, resource } => ExplorerToPlanet::GenerateResourceRequest { explorer_id, resource: basic_to_game(resource) },
        PlanetRequest::CombineResourceRequest { explorer_id, to_generate, first, second } => ExplorerToPlanet::CombineResourceRequest { explorer_id, msg: combine_request(to_generate, first, second) },
    }
}

/// Converts a message to the orchestrator into `common_game`'s, variant for
/// variant, moving every field across.
#[verifier::external_body]
pub(crate) fn orchestrator_message(reply: OrchestratorReply) -> ExplorerToOrchestrator<BagContent> {
    match reply {
        OrchestratorReply::MovedToPlanetResult { explorer_id, planet_id } => ExplorerToOrchestrator::MovedToPlanetResult { explorer_id, planet_id },
        OrchestratorReply::CurrentPlanetResult { explorer_id, planet_id } => ExplorerToOrchestrator::CurrentPlanetResult { explorer_id, planet_id },
        OrchestratorReply::SupportedResourceResult { explorer_id, supported_resources } => ExplorerToOrchestrator::SupportedResourceResult { explorer_id, supported_resources },
        OrchestratorReply::SupportedCombinationResult { explorer_id, combination_list } => ExplorerToOrchestrator::SupportedCombinationResult { explorer_id, combination_list },
        OrchestratorReply::GenerateResourceResponse { explorer_id, generated } => ExplorerToOrchestrator::GenerateResourceResponse { explorer_id, generated },
        OrchestratorReply::CombineResourceResponse { explorer_id, generated } => ExplorerToOrchestrator::CombineResourceResponse { explorer_id, generated },
        OrchestratorReply::BagContentResponse { explorer_id, bag_content } => ExplorerToOrchestrator::BagContentResponse { explorer_id, bag_content },
    }
}

/// Whether a planet's list of combinations holds `kind`, as
/// `HashSet::contains` finds it.
pub uninterp spec fn lists_combination(list: Set<GameComplex>, kind: ComplexKind) -> bool;

/// Calls `HashSet::contains` on a planet's list of combinations, with `kind`
/// converted to `common_game`'s type. Membership depends on the list and
/// `kind` alone.
#[verifier::external_body]
pub(crate) fn combination_listed(list: &HashSet<GameComplex>, kind: ComplexKind) -> (listed: bool)
    ensures
        listed == lists_combination(list@, kind),
{
    list.contains(&complex_to_game(kind))
}

} // verus!
