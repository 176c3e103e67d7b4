//! The explorer: the state every explorer keeps, and the responses to the
//! orchestrator that all explorers share.
//!
//! A response is a short conversation: a request to the planet and its reply,
//! an answer to the orchestrator, or both. What the peers do is outside the
//! explorer's hands, so each response is specified for every outcome: given
//! what the peers did (a `PeerOutcome`), the contract fixes the explorer's new
//! state and every message it sent, in order (a sequence of `Exchange`s).
//! Every message goes through the explorer's `Traffic`, whose record only the
//! channel calls of that module write, and each contract says that the
//! exchanges it returns are exactly what was added to that record.
//! What the explorer answers once the planet has replied is decided by the
//! functions `generation_answer`, `combination_answer`,
//! `resource_listing_answer` and `combination_listing_answer`, whose results
//! are what the responses send.

use vstd::prelude::*;

use std::collections::HashSet;

use common_game::components::resource::BasicResourceType as GameBasic;
use common_game::components::resource::ComplexResourceType as GameComplex;

use common_game::components::resource::GenericResource;
use common_game::protocols::orchestrator_explorer::{ExplorerToOrchestrator, OrchestratorToExplorer};
use common_game::protocols::planet_explorer::{ExplorerToPlanet, PlanetToExplorer};
use crossbeam_channel::{Receiver, Sender};

use crate::bag::{
    Bag, BagContent, content_of, count_of_type, law_take_counts, law_take_succeeds_iff_counted, take_outcome,
    types_of,
};
use crate::protocol::{
    OrchestratorMessage, OrchestratorReply, PlanetReply, PlanetRequest, combination_listed,
    lists_combination, well_formed_request,
};
use crate::traffic::{Exchange, Traffic};
use crate::resource::{BasicKind, ComplexKind, ingredients, recipe, resource_type_of};

verus! {

/// What an explorer keeps: who it is, where it is, what it carries and how
/// it talks to its planet and to the orchestrator.
pub struct ExplorerState {
    pub id: u32,
    pub bag: Bag,
    pub planet_id: u32,
    pub auto_mode: bool,
    pub rx_planet: Receiver<PlanetToExplorer>,
    pub tx_planet: Sender<ExplorerToPlanet>,
    pub rx_orchestrator: Receiver<OrchestratorToExplorer>,
    pub tx_orchestrator: Sender<ExplorerToOrchestrator<BagContent>>,
    /// The record of what the explorer handed to its channels and took from
    /// them.
    pub traffic: Traffic,
}

/// `state` with the traffic record `traffic`. The contracts of the
/// responses describe the explorer's state apart from its record, as
/// `with_traffic(after, before.traffic)`, and the record on its own.
pub open spec fn with_traffic(state: ExplorerState, traffic: Traffic) -> ExplorerState {
    ExplorerState { traffic, ..state }
}

/// What the explorer's peers did during one response: whether the planet
/// took the request, what it replied (`None` when no reply came), and whether
/// the orchestrator took the answer.
pub struct PeerOutcome {
    pub planet_took_request: bool,
    pub planet_reply: Option<PlanetReply>,
    pub orchestrator_took_reply: bool,
}

/// The planet's reply, when the request reached the planet and a reply came.
pub open spec fn planet_answer(peers: PeerOutcome) -> Option<PlanetReply> {
    if peers.planet_took_request {
        peers.planet_reply
    } else {
        None
    }
}

/// The exchanges of a round with the planet: the request, then, when it was
/// delivered, what came back.
pub open spec fn planet_round(request: PlanetRequest, peers: PeerOutcome) -> Seq<Exchange> {
    if peers.planet_took_request {
        seq![
            Exchange::ToPlanet { request, delivered: true },
            Exchange::FromPlanet { reply: peers.planet_reply },
        ]
    } else {
        seq![Exchange::ToPlanet { request, delivered: false }]
    }
}

/// Sending `reply` to the orchestrator.
pub open spec fn answer(reply: OrchestratorReply, peers: PeerOutcome) -> Exchange {
    Exchange::ToOrchestrator { reply, delivered: peers.orchestrator_took_reply }
}

/// `exchange` tells the orchestrator that a generation (`combine` false) or a
/// combination (`combine` true) failed, for the reason `reason`.
pub open spec fn refusal(
    exchange: Exchange,
    explorer_id: u32,
    combine: bool,
    reason: Seq<char>,
    peers: PeerOutcome,
) -> bool {
    match exchange {
        Exchange::ToOrchestrator { reply, delivered } => delivered == peers.orchestrator_took_reply
            && match reply {
            OrchestratorReply::GenerateResourceResponse { explorer_id: id, generated: Err(why) } => !combine
                && id == explorer_id && why@ == reason,
            OrchestratorReply::CombineResourceResponse { explorer_id: id, generated: Err(why) } => combine
                && id == explorer_id && why@ == reason,
            _ => false,
        },
        _ => false,
    }
}

/// `after` is `before` with the bag's resources replaced by `resources`.
pub open spec fn with_bag(before: ExplorerState, resources: Seq<GenericResource>, after: ExplorerState) -> bool {
    &&& after == (ExplorerState { bag: after.bag, ..before })
    &&& after.bag.resources@ == resources
}

/// Asking the planet whether it can make `resource`: the answer is yes only
/// when the planet replied with a list of combinations that holds it.
pub open spec fn availability_answer(
    state: ExplorerState,
    resource: ComplexKind,
    peers: PeerOutcome,
    exchanges: Seq<Exchange>,
    available: bool,
) -> bool {
    &&& exchanges == planet_round(
        PlanetRequest::SupportedCombinationRequest { explorer_id: state.id },
        peers,
    )
    &&& available == match planet_answer(peers) {
        Some(PlanetReply::SupportedCombinationResponse { combination_list }) => lists_combination(
            combination_list@,
            resource,
        ),
        _ => false,
    }
}

/// Having the planet combine `first` and `second` into `kind`, with `bag` the
/// resources left in the bag: what the planet makes, or gives back, goes into
/// the bag, and the orchestrator hears the outcome.
pub open spec fn combining(
    before: ExplorerState,
    kind: ComplexKind,
    first: GenericResource,
    second: GenericResource,
    bag: Seq<GenericResource>,
    peers: PeerOutcome,
    exchanges: Seq<Exchange>,
    after: ExplorerState,
) -> bool {
    let round = planet_round(
        PlanetRequest::CombineResourceRequest { explorer_id: before.id, to_generate: kind, first, second },
        peers,
    );
    match planet_answer(peers) {
        Some(PlanetReply::CombineResourceResponse { complex_response: Ok(made) }) => {
            &&& exchanges == round.push(
                answer(
                    OrchestratorReply::CombineResourceResponse { explorer_id: before.id, generated: Ok(()) },
                    peers,
                ),
            )
            &&& with_bag(before, bag.push(made), after)
        },
        Some(
            PlanetReply::CombineResourceResponse { complex_response: Err((why, given_back, also_given_back)) },
        ) => {
            &&& exchanges == round.push(
                answer(
                    OrchestratorReply::CombineResourceResponse { explorer_id: before.id, generated: Err(why) },
                    peers,
                ),
            )
            &&& with_bag(before, bag.push(given_back).push(also_given_back), after)
        },
        _ => {
            &&& exchanges == round
            &&& with_bag(before, bag, after)
        },
    }
}

/// The response to a request to combine `kind`: the two ingredients are
/// taken out of the bag, then combined by the planet; when either is missing,
/// whatever was taken is gone and the orchestrator hears of the failure.
pub open spec fn combination(
    before: ExplorerState,
    kind: ComplexKind,
    peers: PeerOutcome,
    exchanges: Seq<Exchange>,
    after: ExplorerState,
) -> bool {
    let (first_type, second_type) = recipe(kind);
    let (first, rest) = take_outcome(before.bag.resources@, first_type);
    let (second, left) = take_outcome(rest, second_type);
    match (first, second) {
        (Ok(first), Ok(second)) => combining(before, kind, first, second, left, peers, exchanges, after),
        _ => {
            &&& exchanges.len() == 1
            &&& refusal(exchanges[0], before.id, true, "Explorer is missing the required resources"@, peers)
            &&& with_bag(before, left, after)
        },
    }
}

/// The response to a request to generate `kind`: the planet is asked for it;
/// when it made one, the orchestrator hears so, and the resource goes into
/// the bag once the orchestrator took that answer.
pub open spec fn generation(
    before: ExplorerState,
    kind: BasicKind,
    peers: PeerOutcome,
    exchanges: Seq<Exchange>,
    after: ExplorerState,
) -> bool {
    let round = planet_round(
        PlanetRequest::GenerateResourceRequest { explorer_id: before.id, resource: kind },
        peers,
    );
    match planet_answer(peers) {
        Some(PlanetReply::GenerateResourceResponse { resource: Some(made) }) => {
            &&& exchanges == round.push(
                answer(
                    OrchestratorReply::GenerateResourceResponse { explorer_id: before.id, generated: Ok(()) },
                    peers,
                ),
            )
            &&& if peers.orchestrator_took_reply {
                with_bag(before, before.bag.resources@.push(made), after)
            } else {
                after == before
            }
        },
        Some(PlanetReply::GenerateResourceResponse { resource: None }) => {
            &&& exchanges.len() == round.len() + 1
            &&& exchanges.drop_last() == round
            &&& refusal(exchanges.last(), before.id, false, "No resource was created"@, peers)
            &&& after == before
        },
        _ => {
            &&& exchanges == round
            &&& after == before
        },
    }
}

/// The response to a request for the planet's basic resources: the planet
/// is asked, and its list is passed on to the orchestrator.
pub open spec fn resource_listing(
    before: ExplorerState,
    peers: PeerOutcome,
    exchanges: Seq<Exchange>,
    after: ExplorerState,
) -> bool {
    let round = planet_round(PlanetRequest::SupportedResourceRequest { explorer_id: before.id }, peers);
    &&& after == before
    &&& exchanges == match planet_answer(peers) {
        Some(PlanetReply::SupportedResourceResponse { resource_list }) => round.push(
            answer(
                OrchestratorReply::SupportedResourceResult {
                    explorer_id: before.id,
                    supported_resources: resource_list,
                },
                peers,
            ),
        ),
        _ => round,
    }
}

/// The response to a request for the planet's combinations: the planet is
/// asked, and its list is passed on to the orchestrator.
pub open spec fn combination_listing(
    before: ExplorerState,
    peers: PeerOutcome,
    exchanges: Seq<Exchange>,
    after: ExplorerState,
) -> bool {
    let round = planet_round(PlanetRequest::SupportedCombinationRequest { explorer_id: before.id }, peers);
    &&& after == before
    &&& exchanges == match planet_answer(peers) {
        Some(PlanetReply::SupportedCombinationResponse { combination_list }) => round.push(
            answer(
                OrchestratorReply::SupportedCombinationResult { explorer_id: before.id, combination_list },
                peers,
            ),
        ),
        _ => round,
    }
}

/// How an explorer in state `before` responds to `message`, when its peers
/// behave as `peers` says: it sends `exchanges`, in order, and ends in `after`.
pub open spec fn responds(
    before: ExplorerState,
    message: OrchestratorMessage,
    peers: PeerOutcome,
    exchanges: Seq<Exchange>,
    after: ExplorerState,
) -> bool {
    match message {
        OrchestratorMessage::StartExplorerAI => exchanges == Seq::<Exchange>::empty() && after == (
        ExplorerState { auto_mode: true, ..before }),
        OrchestratorMessage::ResetExplorerAI => exchanges == Seq::<Exchange>::empty() && after == (
        ExplorerState { auto_mode: true, ..before }),
        OrchestratorMessage::KillExplorer => exchanges == Seq::<Exchange>::empty() && after == before,
        OrchestratorMessage::StopExplorerAI => exchanges == Seq::<Exchange>::empty() && after == (
        ExplorerState { auto_mode: false, ..before }),
        OrchestratorMessage::MoveToPlanet { sender_to_new_planet, planet_id } => match sender_to_new_planet {
            Some(sender) => {
                &&& exchanges == seq![
                    answer(
                        OrchestratorReply::MovedToPlanetResult { explorer_id: before.id, planet_id },
                        peers,
                    ),
                ]
                &&& after == (ExplorerState { planet_id, tx_planet: sender, ..before })
            },
            None => exchanges == Seq::<Exchange>::empty() && after == (ExplorerState { planet_id, ..before }),
        },
        OrchestratorMessage::CurrentPlanetRequest => {
            &&& exchanges == seq![
                answer(
                    OrchestratorReply::CurrentPlanetResult {
                        explorer_id: before.id,
                        planet_id: before.planet_id,
                    },
                    peers,
                ),
            ]
            &&& after == before
        },
        OrchestratorMessage::SupportedResourceRequest => resource_listing(before, peers, exchanges, after),
        OrchestratorMessage::SupportedCombinationRequest => combination_listing(
            before,
            peers,
            exchanges,
            after,
        ),
        OrchestratorMessage::GenerateResourceRequest { to_generate } => generation(
            before,
            to_generate,
            peers,
            exchanges,
            after,
        ),
        OrchestratorMessage::CombineResourceRequest { to_generate } => combination(
            before,
            to_generate,
            peers,
            exchanges,
            after,
        ),
        OrchestratorMessage::BagContentRequest => {
            &&& exchanges.len() == 1
            &&& exchanges[0] matches Exchange::ToOrchestrator {
                reply: OrchestratorReply::BagContentResponse { explorer_id, bag_content },
                delivered,
            } && explorer_id == before.id && bag_content.resources@ == types_of(before.bag.resources@)
                && delivered == peers.orchestrator_took_reply
            &&& after == before
        },
        OrchestratorMessage::NeighborsResponse { .. } => exchanges == Seq::<Exchange>::empty() && after
            == before,
    }
}

/// The explorer a request to the planet comes from.
pub open spec fn request_sender(request: PlanetRequest) -> u32 {
    match request {
        PlanetRequest::SupportedResourceRequest { explorer_id } => explorer_id,
        PlanetRequest::SupportedCombinationRequest { explorer_id } => explorer_id,
        PlanetRequest::GenerateResourceRequest { explorer_id, .. } => explorer_id,
        PlanetRequest::CombineResourceRequest { explorer_id, .. } => explorer_id,
    }
}

/// The explorer an answer to the orchestrator comes from.
pub open spec fn reply_sender(reply: OrchestratorReply) -> u32 {
    match reply {
        OrchestratorReply::MovedToPlanetResult { explorer_id, .. } => explorer_id,
        OrchestratorReply::CurrentPlanetResult { explorer_id, .. } => explorer_id,
        OrchestratorReply::SupportedResourceResult { explorer_id, .. } => explorer_id,
        OrchestratorReply::SupportedCombinationResult { explorer_id, .. } => explorer_id,
        OrchestratorReply::GenerateResourceResponse { explorer_id, .. } => explorer_id,
        OrchestratorReply::CombineResourceResponse { explorer_id, .. } => explorer_id,
        OrchestratorReply::BagContentResponse { explorer_id, .. } => explorer_id,
    }
}

/// Every message in `exchanges` that the explorer sent names `id` as its
/// sender.
pub open spec fn signed_by(exchanges: Seq<Exchange>, id: u32) -> bool {
    forall|i: int|
        0 <= i < exchanges.len() ==> match #[trigger] exchanges[i] {
            Exchange::ToPlanet { request, .. } => request_sender(request) == id,
            Exchange::ToOrchestrator { reply, .. } => reply_sender(reply) == id,
            Exchange::FromPlanet { .. } => true,
            Exchange::FromOrchestrator { .. } => true,
        }
}

/// `exchanges` is at most one round with the planet followed by at most one
/// answer to the orchestrator: the request comes first, a reply is awaited
/// only once the request was delivered, and the answer comes last.
pub open spec fn well_ordered(exchanges: Seq<Exchange>) -> bool {
    &&& exchanges.len() <= 3
    &&& forall|i: int| 0 <= i < exchanges.len() && #[trigger] exchanges[i] is ToPlanet ==> i == 0
    &&& forall|i: int|
        0 <= i < exchanges.len() && #[trigger] exchanges[i] is FromPlanet ==> i == 1
            && (exchanges[0] matches Exchange::ToPlanet { delivered: true, .. })
    &&& forall|i: int|
        0 <= i < exchanges.len() && #[trigger] exchanges[i] is ToOrchestrator ==> i == exchanges.len() - 1
}

/// A response never changes who the explorer is nor the channels it hears
/// from and answers on; only a move changes its planet, only the start, reset
/// and stop messages change its mode, and only generation and combination
/// change its bag.
pub proof fn law_response_frame(
    before: ExplorerState,
    message: OrchestratorMessage,
    peers: PeerOutcome,
    exchanges: Seq<Exchange>,
    after: ExplorerState,
)
    requires
        responds(before, message, peers, exchanges, after),
    ensures
        after.id == before.id,
        after.rx_planet == before.rx_planet,
        after.rx_orchestrator == before.rx_orchestrator,
        after.tx_orchestrator == before.tx_orchestrator,
        !(message is MoveToPlanet) ==> after.planet_id == before.planet_id && after.tx_planet
            == before.tx_planet,
        !(message is StartExplorerAI || message is ResetExplorerAI || message is StopExplorerAI)
            ==> after.auto_mode == before.auto_mode,
        !(message is GenerateResourceRequest || message is CombineResourceRequest) ==> after.bag
            == before.bag,
{
}

/// Every message an explorer sends while responding names the explorer as
/// its sender.
pub proof fn law_responses_signed(
    before: ExplorerState,
    message: OrchestratorMessage,
    peers: PeerOutcome,
    exchanges: Seq<Exchange>,
    after: ExplorerState,
)
    requires
        responds(before, message, peers, exchanges, after),
    ensures
        signed_by(exchanges, before.id),
{
}

/// A response is at most one round with the planet, request first, then at
/// most one answer to the orchestrator, last.
pub proof fn law_responses_well_ordered(
    before: ExplorerState,
    message: OrchestratorMessage,
    peers: PeerOutcome,
    exchanges: Seq<Exchange>,
    after: ExplorerState,
)
    requires
        responds(before, message, peers, exchanges, after),
    ensures
        well_ordered(exchanges),
{
}

/// The bag holds both ingredients of `kind`, taken one after the other.
pub open spec fn has_ingredients(resources: Seq<GenericResource>, kind: ComplexKind) -> bool {
    let (first_type, second_type) = recipe(kind);
    &&& take_outcome(resources, first_type).0 is Ok
    &&& take_outcome(take_outcome(resources, first_type).1, second_type).0 is Ok
}

/// The peers did their part for `message`: the planet, where the response
/// needs it, took the request and replied in kind.
pub open spec fn peers_cooperate(before: ExplorerState, message: OrchestratorMessage, peers: PeerOutcome) -> bool {
    match message {
        OrchestratorMessage::MoveToPlanet { sender_to_new_planet, .. } => sender_to_new_planet is Some,
        OrchestratorMessage::CurrentPlanetRequest => true,
        OrchestratorMessage::BagContentRequest => true,
        OrchestratorMessage::SupportedResourceRequest => planet_answer(peers) matches Some(
            PlanetReply::SupportedResourceResponse { .. },
        ),
        OrchestratorMessage::SupportedCombinationRequest => planet_answer(peers) matches Some(
            PlanetReply::SupportedCombinationResponse { .. },
        ),
        OrchestratorMessage::GenerateResourceRequest { .. } => planet_answer(peers) matches Some(
            PlanetReply::GenerateResourceResponse { .. },
        ),
        OrchestratorMessage::CombineResourceRequest { to_generate } => !has_ingredients(
            before.bag.resources@,
            to_generate,
        ) || planet_answer(peers) matches Some(PlanetReply::CombineResourceResponse { .. }),
        _ => false,
    }
}

/// Whenever the peers do their part, a request from the orchestrator that
/// calls for an answer gets one, as the last message of the response.
pub proof fn law_cooperating_peers_get_an_answer(
    before: ExplorerState,
    message: OrchestratorMessage,
    peers: PeerOutcome,
    exchanges: Seq<Exchange>,
    after: ExplorerState,
)
    requires
        responds(before, message, peers, exchanges, after),
        peers_cooperate(before, message, peers),
    ensures
        exchanges.len() > 0,
        exchanges.last() is ToOrchestrator,
{
}

/// `reply` is an answer of the kind `message` asks for: a move is answered
/// with the move's result, each request with the response to that request.
pub open spec fn answers_in_kind(message: OrchestratorMessage, reply: OrchestratorReply) -> bool {
    match message {
        OrchestratorMessage::MoveToPlanet { .. } => reply is MovedToPlanetResult,
        OrchestratorMessage::CurrentPlanetRequest => reply is CurrentPlanetResult,
        OrchestratorMessage::SupportedResourceRequest => reply is SupportedResourceResult,
        OrchestratorMessage::SupportedCombinationRequest => reply is SupportedCombinationResult,
        OrchestratorMessage::GenerateResourceRequest { .. } => reply is GenerateResourceResponse,
        OrchestratorMessage::CombineResourceRequest { .. } => reply is CombineResourceResponse,
        OrchestratorMessage::BagContentRequest => reply is BagContentResponse,
        _ => false,
    }
}

/// Every answer an explorer sends to the orchestrator while responding to
/// `message` is of the kind `message` asks for: a request to combine is
/// answered only with combination responses, a request to generate only with
/// generation responses, and so on.
pub proof fn law_answers_in_kind(
    before: ExplorerState,
    message: OrchestratorMessage,
    peers: PeerOutcome,
    exchanges: Seq<Exchange>,
    after: ExplorerState,
)
    requires
        responds(before, message, peers, exchanges, after),
    ensures
        forall|i: int|
            0 <= i < exchanges.len() ==> (#[trigger] exchanges[i] matches Exchange::ToOrchestrator { reply, .. }
                ==> answers_in_kind(message, reply)),
{
    if let OrchestratorMessage::GenerateResourceRequest { to_generate } = message {
        let round = planet_round(
            PlanetRequest::GenerateResourceRequest { explorer_id: before.id, resource: to_generate },
            peers,
        );
        if planet_answer(peers) matches Some(PlanetReply::GenerateResourceResponse { resource: None }) {
            assert forall|i: int| 0 <= i < exchanges.len() implies (#[trigger] exchanges[i] matches Exchange::ToOrchestrator { reply, .. }
                ==> answers_in_kind(message, reply)) by {
                if i < exchanges.len() - 1 {
                    assert(exchanges[i] == exchanges.drop_last()[i]);
                    assert(exchanges.drop_last() == round);
                }
            }
        }
    }
}

/// The bag lacks what the recipe of `kind` calls for: one of two different
/// ingredients, or the second of two alike.
pub open spec fn lacks_ingredients(resources: Seq<GenericResource>, kind: ComplexKind) -> bool {
    let (first_type, second_type) = recipe(kind);
    if first_type == second_type {
        count_of_type(resources, first_type) < 2
    } else {
        count_of_type(resources, first_type) == 0 || count_of_type(resources, second_type) == 0
    }
}

/// Asked to combine `kind` with a bag that lacks an ingredient, an explorer
/// asks nothing of the planet and sends the orchestrator exactly one message:
/// a combination response from itself that fails because resources are
/// missing. With every ingredient there, it first asks the planet to combine
/// `kind`.
pub proof fn law_missing_ingredients_refused(
    before: ExplorerState,
    kind: ComplexKind,
    peers: PeerOutcome,
    exchanges: Seq<Exchange>,
    after: ExplorerState,
)
    requires
        responds(before, OrchestratorMessage::CombineResourceRequest { to_generate: kind }, peers, exchanges, after),
    ensures
        lacks_ingredients(before.bag.resources@, kind) ==> {
            &&& exchanges.len() == 1
            &&& exchanges[0] matches Exchange::ToOrchestrator {
                reply: OrchestratorReply::CombineResourceResponse { explorer_id, generated: Err(why) },
                ..
            }
            &&& explorer_id == before.id
            &&& why@ == "Explorer is missing the required resources"@
        },
        !lacks_ingredients(before.bag.resources@, kind) ==> {
            &&& exchanges.len() > 0
            &&& exchanges[0] matches Exchange::ToPlanet {
                request: PlanetRequest::CombineResourceRequest { explorer_id, to_generate, .. },
                ..
            }
            &&& explorer_id == before.id
            &&& to_generate == kind
        },
{
    let resources = before.bag.resources@;
    let (first_type, second_type) = recipe(kind);
    let (first, rest) = take_outcome(resources, first_type);
    law_take_succeeds_iff_counted(resources, first_type);
    law_take_succeeds_iff_counted(rest, second_type);
    if first is Ok {
        law_take_counts(resources, first_type, second_type);
    }
}

/// Asked to generate `kind`, an explorer first asks its planet, in its own
/// name, for exactly `kind`.
pub proof fn law_generation_asks_for_the_kind(
    before: ExplorerState,
    kind: BasicKind,
    peers: PeerOutcome,
    exchanges: Seq<Exchange>,
    after: ExplorerState,
)
    requires
        responds(before, OrchestratorMessage::GenerateResourceRequest { to_generate: kind }, peers, exchanges, after),
    ensures
        exchanges.len() > 0,
        exchanges[0] matches Exchange::ToPlanet { request, .. } && request
            == (PlanetRequest::GenerateResourceRequest { explorer_id: before.id, resource: kind }),
{
}

/// What an explorer generates is reported and kept: when the planet made
/// `made`, the orchestrator hears that the generation succeeded, and once it
/// took that answer, `made` is added to the bag; when the planet made
/// nothing, the bag is left as it was.
pub proof fn law_generated_resource_kept(
    before: ExplorerState,
    kind: BasicKind,
    peers: PeerOutcome,
    exchanges: Seq<Exchange>,
    after: ExplorerState,
)
    requires
        responds(before, OrchestratorMessage::GenerateResourceRequest { to_generate: kind }, peers, exchanges, after),
    ensures
        forall|made: GenericResource|
            planet_answer(peers) == Some(PlanetReply::GenerateResourceResponse { resource: Some(made) }) ==> {
                &&& exchanges.last() == (Exchange::ToOrchestrator {
                    reply: OrchestratorReply::GenerateResourceResponse {
                        explorer_id: before.id,
                        generated: Ok(()),
                    },
                    delivered: peers.orchestrator_took_reply,
                })
                &&& after.bag.resources@ == if peers.orchestrator_took_reply {
                    before.bag.resources@.push(made)
                } else {
                    before.bag.resources@
                }
            },
        !(planet_answer(peers) matches Some(PlanetReply::GenerateResourceResponse { resource: Some(_) }))
            ==> after.bag == before.bag,
{
}

/// The answers that carry facts carry the right ones: the current planet is
/// the explorer's planet; a move goes to the planet named, and is confirmed
/// when a channel to it came along; the bag's content lists the types of
/// what the bag holds; and the planet's lists are passed on as they came.
pub proof fn law_answers_carry_the_facts(
    before: ExplorerState,
    message: OrchestratorMessage,
    peers: PeerOutcome,
    exchanges: Seq<Exchange>,
    after: ExplorerState,
)
    requires
        responds(before, message, peers, exchanges, after),
    ensures
        message is CurrentPlanetRequest ==> exchanges == seq![
            Exchange::ToOrchestrator {
                reply: OrchestratorReply::CurrentPlanetResult { explorer_id: before.id, planet_id: before.planet_id },
                delivered: peers.orchestrator_took_reply,
            },
        ],
        message matches OrchestratorMessage::MoveToPlanet { sender_to_new_planet, planet_id } ==> {
            &&& after.planet_id == planet_id
            &&& sender_to_new_planet matches Some(sender) ==> after.tx_planet == sender && exchanges == seq![
                Exchange::ToOrchestrator {
                    reply: OrchestratorReply::MovedToPlanetResult { explorer_id: before.id, planet_id },
                    delivered: peers.orchestrator_took_reply,
                },
            ]
            &&& sender_to_new_planet is None ==> exchanges.len() == 0
        },
        message is BagContentRequest ==> {
            &&& exchanges.len() == 1
            &&& exchanges[0] matches Exchange::ToOrchestrator {
                reply: OrchestratorReply::BagContentResponse { explorer_id, bag_content },
                ..
            }
            &&& explorer_id == before.id
            &&& bag_content.resources@ == types_of(before.bag.resources@)
        },
        forall|list: HashSet<GameBasic>|
            message is SupportedResourceRequest && planet_answer(peers) == Some(
                PlanetReply::SupportedResourceResponse { resource_list: list },
            ) ==> exchanges.last() == (Exchange::ToOrchestrator {
                reply: OrchestratorReply::SupportedResourceResult {
                    explorer_id: before.id,
                    supported_resources: list,
                },
                delivered: peers.orchestrator_took_reply,
            }),
        forall|list: HashSet<GameComplex>|
            message is SupportedCombinationRequest && planet_answer(peers) == Some(
                PlanetReply::SupportedCombinationResponse { combination_list: list },
            ) ==> exchanges.last() == (Exchange::ToOrchestrator {
                reply: OrchestratorReply::SupportedCombinationResult { explorer_id: before.id, combination_list: list },
                delivered: peers.orchestrator_took_reply,
            }),
{
}

/// Combining `first` and `second` into `kind` asks the planet for exactly
/// that, in the explorer's name; every answer to the orchestrator is a
/// combination response from the explorer; and when the planet refuses,
/// giving two resources back, the orchestrator hears the planet's reason and
/// both resources go back into the bag.
pub proof fn law_combining_reports_in_kind(
    before: ExplorerState,
    kind: ComplexKind,
    first: GenericResource,
    second: GenericResource,
    bag: Seq<GenericResource>,
    peers: PeerOutcome,
    exchanges: Seq<Exchange>,
    after: ExplorerState,
)
    requires
        combining(before, kind, first, second, bag, peers, exchanges, after),
    ensures
        exchanges.len() > 0,
        exchanges[0] matches Exchange::ToPlanet { request, .. } && request == (PlanetRequest::CombineResourceRequest {
            explorer_id: before.id,
            to_generate: kind,
            first,
            second,
        }),
        forall|i: int|
            0 <= i < exchanges.len() ==> (#[trigger] exchanges[i] matches Exchange::ToOrchestrator { reply, .. }
                ==> reply matches OrchestratorReply::CombineResourceResponse { explorer_id, .. } && explorer_id
                == before.id),
        forall|why: String, given_back: GenericResource, also_given_back: GenericResource|
            planet_answer(peers) == Some(
                PlanetReply::CombineResourceResponse {
                    complex_response: Err((why, given_back, also_given_back)),
                },
            ) ==> {
                &&& exchanges.last() matches Exchange::ToOrchestrator {
                    reply: OrchestratorReply::CombineResourceResponse { explorer_id, generated: Err(reason) },
                    ..
                }
                &&& explorer_id == before.id
                &&& reason == why
                &&& after.bag.resources@ == bag.push(given_back).push(also_given_back)
            },
        forall|made: GenericResource|
            planet_answer(peers) == Some(PlanetReply::CombineResourceResponse { complex_response: Ok(made) }) ==> {
                &&& exchanges.last() matches Exchange::ToOrchestrator {
                    reply: OrchestratorReply::CombineResourceResponse { explorer_id, generated: Ok(()) },
                    ..
                }
                &&& explorer_id == before.id
                &&& after.bag.resources@ == bag.push(made)
            },
{
}

/// What the explorer answers the orchestrator once the planet replied
/// `reply` to a request to generate a resource, with the resource that then
/// goes into the bag; `None` when `reply` is not about generation.
pub fn generation_answer(explorer_id: u32, reply: PlanetReply) -> (answer: Option<
    (OrchestratorReply, Option<GenericResource>),
>)
    ensures
        match reply {
            PlanetReply::GenerateResourceResponse { resource } => answer matches Some(
                (OrchestratorReply::GenerateResourceResponse { explorer_id: id, generated }, kept),
            ) && id == explorer_id && kept == resource && match resource {
                Some(_) => generated == Ok::<(), String>(()),
                None => generated matches Err(why) && why@ == "No resource was created"@,
            },
            _ => answer is None,
        },
{
    match reply {
        PlanetReply::GenerateResourceResponse { resource } => {
            let generated = match resource {
                Some(_) => Ok(()),
                None => Err(String::from_str("No resource was created")),
            };
            Some((OrchestratorReply::GenerateResourceResponse { explorer_id, generated }, resource))
        },
        _ => None,
    }
}

/// What the explorer answers the orchestrator once the planet replied
/// `reply` to a request to combine two resources, with the resources that
/// then go into the bag: the one made, or the two given back; `None` when
/// `reply` is not about a combination.
pub fn combination_answer(explorer_id: u32, reply: PlanetReply) -> (answer: Option<
    (OrchestratorReply, Vec<GenericResource>),
>)
    ensures
        match reply {
            PlanetReply::CombineResourceResponse { complex_response: Ok(made) } => answer matches Some(
                (told, back),
            ) && told == (OrchestratorReply::CombineResourceResponse { explorer_id, generated: Ok(()) })
                && back@ == seq![made],
            PlanetReply::CombineResourceResponse {
                complex_response: Err((why, given_back, also_given_back)),
            } => answer matches Some((told, back)) && told == (OrchestratorReply::CombineResourceResponse {
                explorer_id,
                generated: Err(why),
            }) && back@ == seq![given_back, also_given_back],
            _ => answer is None,
        },
{
    match reply {
        PlanetReply::CombineResourceResponse { complex_response } => match complex_response {
            Ok(made) => Some(
                (OrchestratorReply::CombineResourceResponse { explorer_id, generated: Ok(()) }, vec![made]),
            ),
            Err((why, given_back, also_given_back)) => Some(
                (
                    OrchestratorReply::CombineResourceResponse { explorer_id, generated: Err(why) },
                    vec![given_back, also_given_back],
                ),
            ),
        },
        _ => None,
    }
}

/// What the explorer passes on to the orchestrator once the planet replied
/// `reply` to a request for its basic resources; `None` when `reply` is not
/// that list.
pub fn resource_listing_answer(explorer_id: u32, reply: PlanetReply) -> (answer: Option<OrchestratorReply>)
    ensures
        answer == match reply {
            PlanetReply::SupportedResourceResponse { resource_list } => Some(
                OrchestratorReply::SupportedResourceResult { explorer_id, supported_resources: resource_list },
            ),
            _ => None,
        },
{
    match reply {
        PlanetReply::SupportedResourceResponse { resource_list } => Some(
            OrchestratorReply::SupportedResourceResult { explorer_id, supported_resources: resource_list },
        ),
        _ => None,
    }
}

/// What the explorer passes on to the orchestrator once the planet replied
/// `reply` to a request for its combinations; `None` when `reply` is not that
/// list.
pub fn combination_listing_answer(explorer_id: u32, reply: PlanetReply) -> (answer: Option<OrchestratorReply>)
    ensures
        answer == match reply {
            PlanetReply::SupportedCombinationResponse { combination_list } => Some(
                OrchestratorReply::SupportedCombinationResult { explorer_id, combination_list },
            ),
            _ => None,
        },
{
    match reply {
        PlanetReply::SupportedCombinationResponse { combination_list } => Some(
            OrchestratorReply::SupportedCombinationResult { explorer_id, combination_list },
        ),
        _ => None,
    }
}

/// A response is the same whatever traffic was recorded before it: what
/// `responds` says of a state holds of it with any other record.
proof fn lemma_responds_apart_from_traffic(
    before: ExplorerState,
    message: OrchestratorMessage,
    peers: PeerOutcome,
    exchanges: Seq<Exchange>,
    after: ExplorerState,
    traffic: Traffic,
)
    requires
        responds(before, message, peers, exchanges, after),
        after.traffic == before.traffic,
    ensures
        responds(with_traffic(before, traffic), message, peers, exchanges, with_traffic(after, traffic)),
{
}

impl ExplorerState {
    /// Sends `reply` to the orchestrator: whether its channel took it, and the
    /// exchange recorded.
    fn tell_orchestrator(&mut self, reply: OrchestratorReply) -> (outcome: (bool, Ghost<Exchange>))
        ensures
            outcome.1@ == (Exchange::ToOrchestrator { reply, delivered: outcome.0 }),
            with_traffic(*final(self), old(self).traffic) == *old(self),
            final(self).traffic.exchanges() == old(self).traffic.exchanges().push(outcome.1@),
    {
        let ghost told = reply;
        let delivered = self.traffic.send_to_orchestrator(&self.tx_orchestrator, reply);
        (delivered, Ghost(Exchange::ToOrchestrator { reply: told, delivered }))
    }

    /// Sends `request` to the planet and, when its channel took it, waits for
    /// the reply: whether the request was delivered, what came back, and the
    /// exchanges recorded.
    fn ask_planet(&mut self, request: PlanetRequest) -> (outcome: (bool, Option<PlanetReply>, Ghost<Seq<Exchange>>))
        requires
            well_formed_request(request),
        ensures
            !outcome.0 ==> outcome.1 is None,
            outcome.2@ == planet_round(
                request,
                PeerOutcome { planet_took_request: outcome.0, planet_reply: outcome.1, orchestrator_took_reply: false },
            ),
            with_traffic(*final(self), old(self).traffic) == *old(self),
            final(self).traffic.exchanges() == old(self).traffic.exchanges() + outcome.2@,
    {
        let ghost asked = request;
        let ghost before = self.traffic.exchanges();
        let delivered = self.traffic.send_to_planet(&self.tx_planet, request);
        let reply = if delivered {
            self.traffic.receive_from_planet(&self.rx_planet)
        } else {
            None
        };
        let ghost peers = PeerOutcome { planet_took_request: delivered, planet_reply: reply, orchestrator_took_reply: false };
        let ghost round = planet_round(asked, peers);
        assert(self.traffic.exchanges() =~= before + round);
        (delivered, reply, Ghost(round))
    }

    /// Puts `resources` into the bag, in order.
    fn keep_all(&mut self, resources: Vec<GenericResource>)
        ensures
            with_bag(*old(self), old(self).bag.resources@ + resources@, *final(self)),
    {
        let ghost all = resources@;
        let ghost start = self.bag.resources@;
        assert(all.len() == resources.len());
        let mut rest = resources;
        let mut kept: usize = 0;
        while rest.len() > 0
            invariant
                kept + rest@.len() == all.len(),
                all.len() <= usize::MAX,
                with_bag(*old(self), start + all.take(kept as int), *self),
                start == old(self).bag.resources@,
                rest@ == all.skip(kept as int),
            decreases rest.len(),
        {
            let resource = rest.remove(0);
            self.bag.add_resource(resource);
            assert(all.take(kept + 1) =~= all.take(kept as int).push(resource));
            assert(start + all.take(kept + 1) =~= (start + all.take(kept as int)).push(resource));
            kept = kept + 1;
            assert(rest@ =~= all.skip(kept as int));
        }
        assert(all.take(kept as int) =~= all);
    }

    /// Asks the planet which combinations it supports and whether `resource`
    /// is among them; `false` whenever the question or the answer got lost.
    /// The second part of the result records what the peers did and what was
    /// sent.
    pub fn is_combination_available(&mut self, resource: ComplexKind) -> (result: (
        bool,
        Ghost<(PeerOutcome, Seq<Exchange>)>,
    ))
        ensures
            availability_answer(*old(self), resource, result.1@.0, result.1@.1, result.0),
            with_traffic(*final(self), old(self).traffic) == *old(self),
            final(self).traffic.exchanges() == old(self).traffic.exchanges() + result.1@.1,
    {
        let request = PlanetRequest::SupportedCombinationRequest { explorer_id: self.id };
        let (delivered, reply, round) = self.ask_planet(request);
        let ghost peers = PeerOutcome {
            planet_took_request: delivered,
            planet_reply: reply,
            orchestrator_took_reply: false,
        };
        let available = match reply {
            Some(PlanetReply::SupportedCombinationResponse { combination_list }) => combination_listed(
                &combination_list,
                resource,
            ),
            _ => false,
        };
        (available, Ghost((peers, round@)))
    }

    /// Has the planet combine `first` and `second` into `to_generate`: what it
    /// makes, or gives back on failure, goes into the bag, and the
    /// orchestrator hears the outcome. When the request or the reply is lost,
    /// so are the two resources. The result records what the peers did and
    /// what was sent.
    pub fn combine_and_respond(
        &mut self,
        to_generate: ComplexKind,
        first: GenericResource,
        second: GenericResource,
    ) -> (session: Ghost<(PeerOutcome, Seq<Exchange>)>)
        requires
            (resource_type_of(first), resource_type_of(second)) == recipe(to_generate),
        ensures
            combining(
                *old(self),
                to_generate,
                first,
                second,
                old(self).bag.resources@,
                session@.0,
                session@.1,
                with_traffic(*final(self), old(self).traffic),
            ),
            final(self).traffic.exchanges() == old(self).traffic.exchanges() + session@.1,
    {
        let request = PlanetRequest::CombineResourceRequest {
            explorer_id: self.id,
            to_generate,
            first,
            second,
        };
        let (delivered, reply, round) = self.ask_planet(request);
        let ghost mut peers = PeerOutcome {
            planet_took_request: delivered,
            planet_reply: reply,
            orchestrator_took_reply: false,
        };
        match reply {
            Some(reply) => match combination_answer(self.id, reply) {
                Some((answer, back)) => {
                    let ghost bag_before = self.bag.resources@;
                    let ghost returned = back@;
                    self.keep_all(back);
                    proof {
                        if returned.len() == 1 {
                            assert(bag_before + returned =~= bag_before.push(returned[0]));
                        } else {
                            assert(bag_before + returned =~= bag_before.push(returned[0]).push(returned[1]));
                        }
                    }
                    let (taken, told) = self.tell_orchestrator(answer);
                    proof {
                        peers.orchestrator_took_reply = taken;
                    }
                    Ghost((peers, round@.push(told@)))
                },
                None => Ghost((peers, round@)),
            },
            None => Ghost((peers, round@)),
        }
    }

    /// Answers a request to combine `to_generate`: takes the two ingredients
    /// out of the bag and has the planet combine them, or tells the
    /// orchestrator that one is missing.
    fn respond_to_combination(&mut self, to_generate: ComplexKind) -> (session: Ghost<
        (PeerOutcome, Seq<Exchange>),
    >)
        ensures
            combination(*old(self), to_generate, session@.0, session@.1, with_traffic(*final(self), old(self).traffic)),
            final(self).traffic.exchanges() == old(self).traffic.exchanges() + session@.1,
    {
        let (first_type, second_type) = ingredients(to_generate);
        let first = self.bag.take_resource(first_type);
        let second = self.bag.take_resource(second_type);
        match (first, second) {
            (Ok(first), Ok(second)) => self.combine_and_respond(to_generate, first, second),
            _ => {
                let reply = OrchestratorReply::CombineResourceResponse {
                    explorer_id: self.id,
                    generated: Err(String::from_str("Explorer is missing the required resources")),
                };
                let (taken, told) = self.tell_orchestrator(reply);
                let ghost peers = PeerOutcome {
                    planet_took_request: false,
                    planet_reply: None,
                    orchestrator_took_reply: taken,
                };
                Ghost((peers, seq![told@]))
            },
        }
    }

    /// Answers a request to generate `to_generate`: asks the planet for it and
    /// tells the orchestrator the outcome; a generated resource goes into the
    /// bag once the orchestrator took the answer.
    fn respond_to_generation(&mut self, to_generate: BasicKind) -> (session: Ghost<
        (PeerOutcome, Seq<Exchange>),
    >)
        ensures
            generation(*old(self), to_generate, session@.0, session@.1, with_traffic(*final(self), old(self).traffic)),
            final(self).traffic.exchanges() == old(self).traffic.exchanges() + session@.1,
    {
        let request = PlanetRequest::GenerateResourceRequest { explorer_id: self.id, resource: to_generate };
        let (delivered, reply, round) = self.ask_planet(request);
        let ghost mut peers = PeerOutcome {
            planet_took_request: delivered,
            planet_reply: reply,
            orchestrator_took_reply: false,
        };
        match reply {
            Some(reply) => match generation_answer(self.id, reply) {
                Some((answer, kept)) => {
                    let (taken, told) = self.tell_orchestrator(answer);
                    proof {
                        peers.orchestrator_took_reply = taken;
                    }
                    if taken {
                        if let Some(made) = kept {
                            self.bag.add_resource(made);
                        }
                    }
                    let ghost exchanges = round@.push(told@);
                    assert(exchanges.drop_last() =~= round@);
                    Ghost((peers, exchanges))
                },
                None => Ghost((peers, round@)),
            },
            None => Ghost((peers, round@)),
        }
    }

    /// Answers a request for the planet's basic resources by asking the planet
    /// and passing its list on.
    fn respond_to_resource_listing(&mut self) -> (session: Ghost<(PeerOutcome, Seq<Exchange>)>)
        ensures
            resource_listing(*old(self), session@.0, session@.1, with_traffic(*final(self), old(self).traffic)),
            final(self).traffic.exchanges() == old(self).traffic.exchanges() + session@.1,
    {
        let request = PlanetRequest::SupportedResourceRequest { explorer_id: self.id };
        let (delivered, reply, round) = self.ask_planet(request);
        let ghost mut peers = PeerOutcome {
            planet_took_request: delivered,
            planet_reply: reply,
            orchestrator_took_reply: false,
        };
        match reply {
            Some(reply) => match resource_listing_answer(self.id, reply) {
                Some(answer) => {
                    let (taken, told) = self.tell_orchestrator(answer);
                    proof {
                        peers.orchestrator_took_reply = taken;
                    }
                    Ghost((peers, round@.push(told@)))
                },
                None => Ghost((peers, round@)),
            },
            None => Ghost((peers, round@)),
        }
    }

    /// Answers a request for the planet's combinations by asking the planet
    /// and passing its list on.
    fn respond_to_combination_listing(&mut self) -> (session: Ghost<(PeerOutcome, Seq<Exchange>)>)
        ensures
            combination_listing(*old(self), session@.0, session@.1, with_traffic(*final(self), old(self).traffic)),
            final(self).traffic.exchanges() == old(self).traffic.exchanges() + session@.1,
    {
        let request = PlanetRequest::SupportedCombinationRequest { explorer_id: self.id };
        let (delivered, reply, round) = self.ask_planet(request);
        let ghost mut peers = PeerOutcome {
            planet_took_request: delivered,
            planet_reply: reply,
            orchestrator_took_reply: false,
        };
        match reply {
            Some(reply) => match combination_listing_answer(self.id, reply) {
                Some(answer) => {
                    let (taken, told) = self.tell_orchestrator(answer);
                    proof {
                        peers.orchestrator_took_reply = taken;
                    }
                    Ghost((peers, round@.push(told@)))
                },
                None => Ghost((peers, round@)),
            },
            None => Ghost((peers, round@)),
        }
    }

    /// Answers one orchestrator message, as `responds` describes. The result
    /// records what the peers did and what was sent.
    pub fn respond(&mut self, message: OrchestratorMessage) -> (session: Ghost<
        (PeerOutcome, Seq<Exchange>),
    >)
        ensures
            responds(*old(self), message, session@.0, session@.1, with_traffic(*final(self), old(self).traffic)),
            final(self).traffic.exchanges() == old(self).traffic.exchanges() + session@.1,
    {
        let ghost quiet = PeerOutcome {
            planet_took_request: false,
            planet_reply: None,
            orchestrator_took_reply: false,
        };
        match message {
            OrchestratorMessage::StartExplorerAI => {
                self.auto_mode = true;
                Ghost((quiet, Seq::empty()))
            },
            OrchestratorMessage::ResetExplorerAI => {
                self.auto_mode = true;
                Ghost((quiet, Seq::empty()))
            },
            OrchestratorMessage::KillExplorer => Ghost((quiet, Seq::empty())),
            OrchestratorMessage::StopExplorerAI => {
                self.auto_mode = false;
                Ghost((quiet, Seq::empty()))
            },
            OrchestratorMessage::MoveToPlanet { sender_to_new_planet, planet_id } => {
                self.planet_id = planet_id;
                match sender_to_new_planet {
                    Some(sender) => {
                        self.tx_planet = sender;
                        let reply = OrchestratorReply::MovedToPlanetResult { explorer_id: self.id, planet_id };
                        let (taken, told) = self.tell_orchestrator(reply);
                        let ghost peers = PeerOutcome { orchestrator_took_reply: taken, ..quiet };
                        Ghost((peers, seq![told@]))
                    },
                    None => Ghost((quiet, Seq::empty())),
                }
            },
            OrchestratorMessage::CurrentPlanetRequest => {
                let reply = OrchestratorReply::CurrentPlanetResult {
                    explorer_id: self.id,
                    planet_id: self.planet_id,
                };
                let (taken, told) = self.tell_orchestrator(reply);
                let ghost peers = PeerOutcome { orchestrator_took_reply: taken, ..quiet };
                Ghost((peers, seq![told@]))
            },
            OrchestratorMessage::SupportedResourceRequest => self.respond_to_resource_listing(),
            OrchestratorMessage::SupportedCombinationRequest => self.respond_to_combination_listing(),
            OrchestratorMessage::GenerateResourceRequest { to_generate } => self.respond_to_generation(
                to_generate,
            ),
            OrchestratorMessage::CombineResourceRequest { to_generate } => self.respond_to_combination(
                to_generate,
            ),
            OrchestratorMessage::BagContentRequest => {
                let reply = OrchestratorReply::BagContentResponse {
                    explorer_id: self.id,
                    bag_content: content_of(&self.bag),
                };
                let (taken, told) = self.tell_orchestrator(reply);
                let ghost peers = PeerOutcome { orchestrator_took_reply: taken, ..quiet };
                Ghost((peers, seq![told@]))
            },
            OrchestratorMessage::NeighborsResponse { .. } => Ghost((quiet, Seq::empty())),
        }
    }

    /// Takes the next orchestrator message, if one is waiting, and answers it
    /// as `respond` does; when none is waiting, or the orchestrator is gone,
    /// only the look at its channel is recorded. The result records the
    /// message answered, what the peers did and what was sent.
    pub fn try_recv_from_orchestrator_and_respond(&mut self) -> (session: Ghost<
        Option<(OrchestratorMessage, PeerOutcome, Seq<Exchange>)>,
    >)
        ensures
            match session@ {
                Some((message, peers, exchanges)) => {
                    &&& responds(
                        *old(self),
                        message,
                        peers,
                        exchanges,
                        with_traffic(*final(self), old(self).traffic),
                    )
                    &&& final(self).traffic.exchanges() == old(self).traffic.exchanges().push(
                        Exchange::FromOrchestrator { message: Some(message) },
                    ) + exchanges
                },
                None => {
                    &&& with_traffic(*final(self), old(self).traffic) == *old(self)
                    &&& final(self).traffic.exchanges() == old(self).traffic.exchanges().push(
                        Exchange::FromOrchestrator { message: None },
                    )
                },
            },
    {
        let ghost before = *self;
        match self.traffic.poll_orchestrator(&self.rx_orchestrator) {
            Some(message) => {
                let ghost answered = message;
                let ghost polled = *self;
                let session = self.respond(message);
                proof {
                    lemma_responds_apart_from_traffic(
                        polled,
                        answered,
                        session@.0,
                        session@.1,
                        with_traffic(*self, polled.traffic),
                        before.traffic,
                    );
                    assert(with_traffic(polled, before.traffic) == before);
                    assert(with_traffic(with_traffic(*self, polled.traffic), before.traffic) == with_traffic(
                        *self,
                        before.traffic,
                    ));
                }
                Ghost(Some((answered, session@.0, session@.1)))
            },
            None => Ghost(None),
        }
    }
}

/// An explorer. Each kind of explorer keeps an `ExplorerState` and says how
/// to reach it; the accessors and the responses to the orchestrator are then
/// shared by every explorer.
pub trait Explorer: Sized {
    /// Makes an explorer with the given identity, bag, planet and channels.
    fn new(
        id: u32,
        bag: Bag,
        planet_id: u32,
        rx_planet: Receiver<PlanetToExplorer>,
        tx_planet: Sender<ExplorerToPlanet>,
        rx_orchestrator: Receiver<OrchestratorToExplorer>,
        tx_orchestrator: Sender<ExplorerToOrchestrator<BagContent>>,
    ) -> Self;

    /// Runs the explorer.
    fn run(&mut self);

    /// The explorer's state.
    spec fn state(&self) -> &ExplorerState;

    /// Reads the explorer's state.
    fn explorer_state(&self) -> (state: &ExplorerState)
        ensures
            state == self.state(),
    ;

    /// Lends the explorer's state for changing.
    fn explorer_state_mut(&mut self) -> (state: &mut ExplorerState)
        ensures
            *state == *old(self).state(),
            *final(self).state() == *final(state),
    ;

    fn get_id(&self) -> (id: u32)
        ensures
            id == self.state().id,
    {
        self.explorer_state().id
    }

    fn get_bag(&mut self) -> (bag: &mut Bag)
        ensures
            *bag == old(self).state().bag,
            *final(self).state() == (ExplorerState { bag: *final(bag), ..*old(self).state() }),
    {
        let state = self.explorer_state_mut();
        &mut state.bag
    }

    fn get_planet_id(&self) -> (planet_id: u32)
        ensures
            planet_id == self.state().planet_id,
    {
        self.explorer_state().planet_id
    }

    fn set_planet_id(&mut self, new: u32)
        ensures
            *final(self).state() == (ExplorerState { planet_id: new, ..*old(self).state() }),
    {
        let state = self.explorer_state_mut();
        state.planet_id = new;
    }

    fn get_auto_mode(&self) -> (mode: bool)
        ensures
            mode == self.state().auto_mode,
    {
        self.explorer_state().auto_mode
    }

    fn set_auto_mode(&mut self, mode: bool)
        ensures
            *final(self).state() == (ExplorerState { auto_mode: mode, ..*old(self).state() }),
    {
        let state = self.explorer_state_mut();
        state.auto_mode = mode;
    }

    /// Another handle on the channel from the planet.
    fn get_rx_planet(&self) -> (end: Receiver<PlanetToExplorer>)
        ensures
            end == self.state().rx_planet,
    {
        self.explorer_state().rx_planet.clone()
    }

    fn set_rx_planet(&mut self, new: Receiver<PlanetToExplorer>)
        ensures
            *final(self).state() == (ExplorerState { rx_planet: new, ..*old(self).state() }),
    {
        let state = self.explorer_state_mut();
        state.rx_planet = new;
    }

    /// Another handle on the channel to the planet.
    fn get_tx_planet(&self) -> (end: Sender<ExplorerToPlanet>)
        ensures
            end == self.state().tx_planet,
    {
        self.explorer_state().tx_planet.clone()
    }

    fn set_tx_planet(&mut self, new: Sender<ExplorerToPlanet>)
        ensures
            *final(self).state() == (ExplorerState { tx_planet: new, ..*old(self).state() }),
    {
        let state = self.explorer_state_mut();
        state.tx_planet = new;
    }

    /// Another handle on the channel from the orchestrator.
    fn get_rx_orchestrator(&self) -> (end: Receiver<OrchestratorToExplorer>)
        ensures
            end == self.state().rx_orchestrator,
    {
        self.explorer_state().rx_orchestrator.clone()
    }

    fn set_rx_orchestrator(&mut self, new: Receiver<OrchestratorToExplorer>)
        ensures
            *final(self).state() == (ExplorerState { rx_orchestrator: new, ..*old(self).state() }),
    {
        let state = self.explorer_state_mut();
        state.rx_orchestrator = new;
    }

    /// Another handle on the channel to the orchestrator.
    fn get_tx_orchestrator(&self) -> (end: Sender<ExplorerToOrchestrator<BagContent>>)
        ensures
            end == self.state().tx_orchestrator,
    {
        self.explorer_state().tx_orchestrator.clone()
    }

    fn set_tx_orchestrator(&mut self, new: Sender<ExplorerToOrchestrator<BagContent>>)
        ensures
            *final(self).state() == (ExplorerState { tx_orchestrator: new, ..*old(self).state() }),
    {
        let state = self.explorer_state_mut();
        state.tx_orchestrator = new;
    }

    /// Asks the planet whether it can make `resource`, as
    /// `ExplorerState::is_combination_available` does.
    fn is_combination_available(&mut self, resource: ComplexKind) -> (available: bool)
        ensures
            exists|peers: PeerOutcome, exchanges: Seq<Exchange>|
                {
                    &&& availability_answer(*old(self).state(), resource, peers, exchanges, available)
                    &&& final(self).state().traffic.exchanges() == old(self).state().traffic.exchanges()
                        + exchanges
                },
            with_traffic(*final(self).state(), old(self).state().traffic) == *old(self).state(),
    {
        let ghost before = *self.state();
        let state = self.explorer_state_mut();
        let (available, session) = state.is_combination_available(resource);
        assert(availability_answer(before, resource, session@.0, session@.1, available));
        assert(self.state().traffic.exchanges() == before.traffic.exchanges() + session@.1);
        available
    }

    /// Has the planet combine `first` and `second` into `to_generate`, as
    /// `ExplorerState::combine_and_respond` does.
    fn combine_and_respond(&mut self, to_generate: ComplexKind, first: GenericResource, second: GenericResource)
        requires
            (resource_type_of(first), resource_type_of(second)) == recipe(to_generate),
        ensures
            exists|peers: PeerOutcome, exchanges: Seq<Exchange>|
                {
                    &&& combining(
                        *old(self).state(),
                        to_generate,
                        first,
                        second,
                        old(self).state().bag.resources@,
                        peers,
                        exchanges,
                        with_traffic(*final(self).state(), old(self).state().traffic),
                    )
                    &&& final(self).state().traffic.exchanges() == old(self).state().traffic.exchanges()
                        + exchanges
                },
    {
        let ghost before = *self.state();
        let state = self.explorer_state_mut();
        let session = state.combine_and_respond(to_generate, first, second);
        assert(combining(
            before,
            to_generate,
            first,
            second,
            before.bag.resources@,
            session@.0,
            session@.1,
            with_traffic(*self.state(), before.traffic),
        ));
        assert(self.state().traffic.exchanges() == before.traffic.exchanges() + session@.1);
    }

    /// Takes the next orchestrator message, if one is waiting, and answers
    /// it, as `ExplorerState::try_recv_from_orchestrator_and_respond` does;
    /// the look at the orchestrator's channel is recorded either way.
    fn try_recv_from_orchestrator_and_respond(&mut self)
        ensures
            ({
                &&& with_traffic(*final(self).state(), old(self).state().traffic) == *old(self).state()
                &&& final(self).state().traffic.exchanges() == old(self).state().traffic.exchanges().push(
                    Exchange::FromOrchestrator { message: None },
                )
            }) || exists|message: OrchestratorMessage, peers: PeerOutcome, exchanges: Seq<Exchange>|
                {
                    &&& responds(
                        *old(self).state(),
                        message,
                        peers,
                        exchanges,
                        with_traffic(*final(self).state(), old(self).state().traffic),
                    )
                    &&& final(self).state().traffic.exchanges() == old(self).state().traffic.exchanges().push(
                        Exchange::FromOrchestrator { message: Some(message) },
                    ) + exchanges
                },
    {
        let ghost before = *self.state();
        let state = self.explorer_state_mut();
        let session = state.try_recv_from_orchestrator_and_respond();
        proof {
            if let Some((message, peers, exchanges)) = session@ {
                assert(responds(before, message, peers, exchanges, with_traffic(*self.state(), before.traffic)));
                assert(self.state().traffic.exchanges() == before.traffic.exchanges().push(
                    Exchange::FromOrchestrator { message: Some(message) },
                ) + exchanges);
            }
        }
    }
}

} // verus!
