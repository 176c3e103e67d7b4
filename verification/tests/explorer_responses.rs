use std::collections::HashSet;

use common_game::components::energy_cell::EnergyCell;
use common_game::components::planet::{DummyPlanetState, Planet, PlanetAI, PlanetState, PlanetType};
use common_game::components::resource::{
    BasicResource, BasicResourceType as GameBasicType, Combinator, ComplexResource, ComplexResourceRequest,
    ComplexResourceType as GameComplexType, GenericResource, Generator, ResourceType as GameResourceType,
};
use common_game::components::rocket::Rocket;
use common_game::components::sunray::Sunray;
use common_game::protocols::orchestrator_explorer::{ExplorerToOrchestrator, OrchestratorToExplorer};
use common_game::protocols::orchestrator_planet::{OrchestratorToPlanet, PlanetToOrchestrator};
use common_game::protocols::planet_explorer::{ExplorerToPlanet, PlanetToExplorer};
use crossbeam_channel::{Receiver, Sender, unbounded};

use explorer::bag::{Bag, BagContent};
use explorer::explorer::{
    Explorer, ExplorerState, combination_answer, combination_listing_answer, generation_answer,
    resource_listing_answer,
};
use explorer::protocol::{OrchestratorReply, PlanetReply};
use explorer::traffic::Traffic;
use explorer::resource::{BasicKind, ComplexKind, ResourceKind};

struct QuietPlanet;

impl PlanetAI for QuietPlanet {
    fn handle_sunray(&mut self, _: &mut PlanetState, _: &Generator, _: &Combinator, _: Sunray) {}

    fn handle_asteroid(&mut self, _: &mut PlanetState, _: &Generator, _: &Combinator) -> Option<Rocket> {
        None
    }

    fn handle_internal_state_req(&mut self, state: &mut PlanetState, _: &Generator, _: &Combinator) -> DummyPlanetState {
        state.to_dummy()
    }

    fn handle_explorer_msg(
        &mut self,
        _: &mut PlanetState,
        _: &Generator,
        _: &Combinator,
        _: ExplorerToPlanet,
    ) -> Option<PlanetToExplorer> {
        None
    }
}

fn make_planet() -> Planet {
    let (_, rx) = unbounded::<OrchestratorToPlanet>();
    let (tx, _) = unbounded::<PlanetToOrchestrator>();
    let (_, rx_explorer) = unbounded::<ExplorerToPlanet>();
    Planet::new(
        0,
        PlanetType::B,
        Box::new(QuietPlanet),
        vec![GameBasicType::Oxygen, GameBasicType::Hydrogen, GameBasicType::Carbon, GameBasicType::Silicon],
        vec![GameComplexType::Water],
        (rx, tx),
        rx_explorer,
    )
    .unwrap()
}

fn cell() -> EnergyCell {
    let mut energy_cell = EnergyCell::default();
    energy_cell.charge(Sunray::default());
    energy_cell
}

struct TestExplorer {
    state: ExplorerState,
}

impl Explorer for TestExplorer {
    fn new(
        id: u32,
        bag: Bag,
        planet_id: u32,
        rx_planet: Receiver<PlanetToExplorer>,
        tx_planet: Sender<ExplorerToPlanet>,
        rx_orchestrator: Receiver<OrchestratorToExplorer>,
        tx_orchestrator: Sender<ExplorerToOrchestrator<BagContent>>,
    ) -> Self {
        TestExplorer {
            state: ExplorerState {
                id,
                bag,
                planet_id,
                auto_mode: false,
                rx_planet,
                tx_planet,
                rx_orchestrator,
                tx_orchestrator,
                traffic: Traffic::new(),
            },
        }
    }

    fn run(&mut self) {}

    fn state(&self) -> &ExplorerState {
        &self.state
    }

    fn explorer_state(&self) -> &ExplorerState {
        &self.state
    }

    fn explorer_state_mut(&mut self) -> &mut ExplorerState {
        &mut self.state
    }
}

/// An explorer with id 3 on planet 7, and the far ends of its four channels.
struct Rig {
    explorer: TestExplorer,
    orchestrator: Sender<OrchestratorToExplorer>,
    answers: Receiver<ExplorerToOrchestrator<BagContent>>,
    planet_inbox: Receiver<ExplorerToPlanet>,
    planet: Sender<PlanetToExplorer>,
}

fn rig(bag: Bag) -> Rig {
    let (orchestrator, rx_orchestrator) = unbounded();
    let (tx_orchestrator, answers) = unbounded();
    let (tx_planet, planet_inbox) = unbounded();
    let (planet, rx_planet) = unbounded();
    let explorer = TestExplorer::new(3, bag, 7, rx_planet, tx_planet, rx_orchestrator, tx_orchestrator);
    Rig { explorer, orchestrator, answers, planet_inbox, planet }
}

impl Rig {
    fn handle(&mut self, message: OrchestratorToExplorer) {
        self.orchestrator.send(message).unwrap();
        self.explorer.try_recv_from_orchestrator_and_respond();
    }

    fn answer(&self) -> ExplorerToOrchestrator<BagContent> {
        self.answers.try_recv().expect("the explorer answered")
    }

    fn no_answer(&self) -> bool {
        self.answers.try_recv().is_err()
    }

    fn bag_types(&self) -> Vec<GameResourceType> {
        self.explorer.state.bag.resources.iter().map(|r| r.get_type()).collect()
    }
}

fn water_ingredients(planet: &Planet) -> (GenericResource, GenericResource) {
    let hydrogen = planet.generator().make_hydrogen(&mut cell()).unwrap().to_generic();
    let oxygen = planet.generator().make_oxygen(&mut cell()).unwrap().to_generic();
    (hydrogen, oxygen)
}

fn failure_text(answer: ExplorerToOrchestrator<BagContent>) -> String {
    match answer {
        ExplorerToOrchestrator::GenerateResourceResponse { explorer_id: 3, generated: Err(why) } => why,
        ExplorerToOrchestrator::CombineResourceResponse { explorer_id: 3, generated: Err(why) } => why,
        other => panic!("unexpected answer {:?}", other),
    }
}

#[test]
fn start_reset_and_stop_switch_the_mode() {
    let mut rig = rig(Bag::new());
    rig.handle(OrchestratorToExplorer::StartExplorerAI);
    assert!(rig.explorer.get_auto_mode());
    rig.handle(OrchestratorToExplorer::StopExplorerAI);
    assert!(!rig.explorer.get_auto_mode());
    rig.handle(OrchestratorToExplorer::ResetExplorerAI);
    assert!(rig.explorer.get_auto_mode());
    assert!(rig.no_answer());
    assert!(rig.planet_inbox.try_recv().is_err());
}

#[test]
fn kill_and_neighbors_change_nothing() {
    let mut rig = rig(Bag::new());
    rig.handle(OrchestratorToExplorer::KillExplorer);
    rig.handle(OrchestratorToExplorer::NeighborsResponse { neighbors: vec![1, 2] });
    assert_eq!(rig.explorer.get_id(), 3);
    assert_eq!(rig.explorer.get_planet_id(), 7);
    assert!(!rig.explorer.get_auto_mode());
    assert!(rig.no_answer());
}

#[test]
fn nothing_waiting_changes_nothing() {
    let mut rig = rig(Bag::new());
    rig.explorer.try_recv_from_orchestrator_and_respond();
    assert_eq!(rig.explorer.get_planet_id(), 7);
    assert!(rig.no_answer());
}

#[test]
fn current_planet_is_reported() {
    let mut rig = rig(Bag::new());
    rig.handle(OrchestratorToExplorer::CurrentPlanetRequest);
    assert!(matches!(
        rig.answer(),
        ExplorerToOrchestrator::CurrentPlanetResult { explorer_id: 3, planet_id: 7 }
    ));
}

#[test]
fn moving_with_a_sender_switches_planet_and_reports() {
    let mut rig = rig(Bag::new());
    let (new_tx, new_inbox) = unbounded::<ExplorerToPlanet>();
    rig.handle(OrchestratorToExplorer::MoveToPlanet { sender_to_new_planet: Some(new_tx), planet_id: 9 });
    assert_eq!(rig.explorer.get_planet_id(), 9);
    assert!(matches!(rig.answer(), ExplorerToOrchestrator::MovedToPlanetResult { explorer_id: 3, planet_id: 9 }));
    rig.planet.send(PlanetToExplorer::Stopped).unwrap();
    rig.handle(OrchestratorToExplorer::SupportedResourceRequest);
    assert!(matches!(new_inbox.try_recv(), Ok(ExplorerToPlanet::SupportedResourceRequest { explorer_id: 3 })));
    assert!(rig.planet_inbox.try_recv().is_err());
}

#[test]
fn moving_without_a_sender_only_records_the_planet() {
    let mut rig = rig(Bag::new());
    rig.handle(OrchestratorToExplorer::MoveToPlanet { sender_to_new_planet: None, planet_id: 4 });
    assert_eq!(rig.explorer.get_planet_id(), 4);
    assert!(rig.no_answer());
}

#[test]
fn bag_content_lists_the_bag() {
    let planet = make_planet();
    let (hydrogen, oxygen) = water_ingredients(&planet);
    let mut bag = Bag::new();
    bag.add_resource(oxygen);
    bag.add_resource(hydrogen);
    let mut rig = rig(bag);
    rig.handle(OrchestratorToExplorer::BagContentRequest);
    match rig.answer() {
        ExplorerToOrchestrator::BagContentResponse { explorer_id, bag_content } => {
            assert_eq!(explorer_id, 3);
            assert_eq!(
                bag_content.resources,
                vec![ResourceKind::Basic(BasicKind::Oxygen), ResourceKind::Basic(BasicKind::Hydrogen)]
            );
        }
        other => panic!("unexpected answer {:?}", other),
    }
    assert_eq!(rig.bag_types().len(), 2);
}

#[test]
fn supported_resources_are_relayed() {
    let mut rig = rig(Bag::new());
    let list: HashSet<GameBasicType> = [GameBasicType::Oxygen, GameBasicType::Carbon].into_iter().collect();
    rig.planet.send(PlanetToExplorer::SupportedResourceResponse { resource_list: list.clone() }).unwrap();
    rig.handle(OrchestratorToExplorer::SupportedResourceRequest);
    assert!(matches!(rig.planet_inbox.try_recv(), Ok(ExplorerToPlanet::SupportedResourceRequest { explorer_id: 3 })));
    match rig.answer() {
        ExplorerToOrchestrator::SupportedResourceResult { explorer_id, supported_resources } => {
            assert_eq!(explorer_id, 3);
            assert_eq!(supported_resources, list);
        }
        other => panic!("unexpected answer {:?}", other),
    }
}

#[test]
fn supported_combinations_are_relayed() {
    let mut rig = rig(Bag::new());
    let list: HashSet<GameComplexType> = [GameComplexType::Water].into_iter().collect();
    rig.planet.send(PlanetToExplorer::SupportedCombinationResponse { combination_list: list.clone() }).unwrap();
    rig.handle(OrchestratorToExplorer::SupportedCombinationRequest);
    assert!(matches!(
        rig.planet_inbox.try_recv(),
        Ok(ExplorerToPlanet::SupportedCombinationRequest { explorer_id: 3 })
    ));
    match rig.answer() {
        ExplorerToOrchestrator::SupportedCombinationResult { explorer_id, combination_list } => {
            assert_eq!(explorer_id, 3);
            assert_eq!(combination_list, list);
        }
        other => panic!("unexpected answer {:?}", other),
    }
}

#[test]
fn an_unexpected_planet_reply_is_not_relayed() {
    let mut rig = rig(Bag::new());
    rig.planet.send(PlanetToExplorer::Stopped).unwrap();
    rig.handle(OrchestratorToExplorer::SupportedCombinationRequest);
    assert!(rig.planet_inbox.try_recv().is_ok());
    assert!(rig.no_answer());
}

#[test]
fn an_unreachable_planet_gets_no_reply_awaited() {
    let mut rig = rig(Bag::new());
    let (closed_tx, closed_rx) = unbounded::<ExplorerToPlanet>();
    drop(closed_rx);
    rig.explorer.set_tx_planet(closed_tx);
    rig.handle(OrchestratorToExplorer::SupportedResourceRequest);
    assert!(rig.no_answer());
}

#[test]
fn a_generated_resource_goes_into_the_bag() {
    let planet = make_planet();
    let oxygen = planet.generator().make_oxygen(&mut cell()).unwrap();
    let mut rig = rig(Bag::new());
    rig.planet.send(PlanetToExplorer::GenerateResourceResponse { resource: Some(BasicResource::Oxygen(oxygen)) }).unwrap();
    rig.handle(OrchestratorToExplorer::GenerateResourceRequest { to_generate: GameBasicType::Oxygen });
    assert!(matches!(
        rig.planet_inbox.try_recv(),
        Ok(ExplorerToPlanet::GenerateResourceRequest { explorer_id: 3, resource: GameBasicType::Oxygen })
    ));
    assert!(matches!(rig.answer(), ExplorerToOrchestrator::GenerateResourceResponse { explorer_id: 3, generated: Ok(()) }));
    assert_eq!(rig.bag_types(), vec![GameResourceType::Basic(GameBasicType::Oxygen)]);
    assert_eq!(rig.explorer.state.bag.contains(ResourceKind::Basic(BasicKind::Oxygen)), 1);
}

#[test]
fn a_failed_generation_is_reported() {
    let mut rig = rig(Bag::new());
    rig.planet.send(PlanetToExplorer::GenerateResourceResponse { resource: None }).unwrap();
    rig.handle(OrchestratorToExplorer::GenerateResourceRequest { to_generate: GameBasicType::Carbon });
    assert_eq!(failure_text(rig.answer()), "No resource was created");
    assert!(rig.bag_types().is_empty());
}

#[test]
fn a_generated_resource_is_dropped_when_the_orchestrator_is_gone() {
    let planet = make_planet();
    let carbon = planet.generator().make_carbon(&mut cell()).unwrap();
    let Rig { mut explorer, orchestrator, answers, planet_inbox: _inbox, planet: planet_tx } = rig(Bag::new());
    drop(answers);
    planet_tx.send(PlanetToExplorer::GenerateResourceResponse { resource: Some(BasicResource::Carbon(carbon)) }).unwrap();
    orchestrator.send(OrchestratorToExplorer::GenerateResourceRequest { to_generate: GameBasicType::Carbon }).unwrap();
    explorer.try_recv_from_orchestrator_and_respond();
    assert!(explorer.state.bag.resources.is_empty());
}

#[test]
fn a_combination_with_missing_ingredients_is_refused() {
    let mut rig = rig(Bag::new());
    rig.handle(OrchestratorToExplorer::CombineResourceRequest { to_generate: GameComplexType::Diamond });
    assert_eq!(failure_text(rig.answer()), "Explorer is missing the required resources");
    assert!(rig.planet_inbox.try_recv().is_err());
}

#[test]
fn a_refused_combination_loses_the_first_ingredient_taken() {
    let planet = make_planet();
    let (hydrogen, _) = water_ingredients(&planet);
    let mut bag = Bag::new();
    bag.add_resource(hydrogen);
    let mut rig = rig(bag);
    rig.handle(OrchestratorToExplorer::CombineResourceRequest { to_generate: GameComplexType::Water });
    assert_eq!(failure_text(rig.answer()), "Explorer is missing the required resources");
    assert!(rig.bag_types().is_empty());
}

#[test]
fn a_combination_puts_the_product_in_the_bag() {
    let planet = make_planet();
    let (hydrogen, oxygen) = water_ingredients(&planet);
    let (h2, o2) = water_ingredients(&planet);
    let water = planet
        .combinator()
        .make_water(h2.to_hydrogen().unwrap(), o2.to_oxygen().unwrap(), &mut cell())
        .unwrap();
    let mut bag = Bag::new();
    bag.add_resource(oxygen);
    bag.add_resource(hydrogen);
    let mut rig = rig(bag);
    rig.planet
        .send(PlanetToExplorer::CombineResourceResponse { complex_response: Ok(ComplexResource::Water(water)) })
        .unwrap();
    rig.handle(OrchestratorToExplorer::CombineResourceRequest { to_generate: GameComplexType::Water });
    assert!(matches!(
        rig.planet_inbox.try_recv(),
        Ok(ExplorerToPlanet::CombineResourceRequest { explorer_id: 3, msg: ComplexResourceRequest::Water(_, _) })
    ));
    assert!(matches!(rig.answer(), ExplorerToOrchestrator::CombineResourceResponse { explorer_id: 3, generated: Ok(()) }));
    assert_eq!(rig.bag_types(), vec![GameResourceType::Complex(GameComplexType::Water)]);
}

#[test]
fn a_combination_the_planet_refuses_gives_the_ingredients_back() {
    let planet = make_planet();
    let (hydrogen, oxygen) = water_ingredients(&planet);
    let (h2, o2) = water_ingredients(&planet);
    let mut bag = Bag::new();
    bag.add_resource(hydrogen);
    bag.add_resource(oxygen);
    let mut rig = rig(bag);
    rig.planet
        .send(PlanetToExplorer::CombineResourceResponse { complex_response: Err((String::from("no energy"), h2, o2)) })
        .unwrap();
    rig.handle(OrchestratorToExplorer::CombineResourceRequest { to_generate: GameComplexType::Water });
    assert_eq!(failure_text(rig.answer()), "no energy");
    assert_eq!(
        rig.bag_types(),
        vec![GameResourceType::Basic(GameBasicType::Hydrogen), GameResourceType::Basic(GameBasicType::Oxygen)]
    );
}

#[test]
fn combine_and_respond_sends_the_given_resources() {
    let planet = make_planet();
    let (hydrogen, oxygen) = water_ingredients(&planet);
    let mut rig = rig(Bag::new());
    rig.planet.send(PlanetToExplorer::Stopped).unwrap();
    rig.explorer.combine_and_respond(ComplexKind::Water, hydrogen, oxygen);
    assert!(matches!(
        rig.planet_inbox.try_recv(),
        Ok(ExplorerToPlanet::CombineResourceRequest { explorer_id: 3, msg: ComplexResourceRequest::Water(_, _) })
    ));
    assert!(rig.no_answer());
    assert!(rig.bag_types().is_empty());
}

#[test]
fn combination_availability_follows_the_planet_list() {
    let mut rig = rig(Bag::new());
    let list: HashSet<GameComplexType> = [GameComplexType::Water].into_iter().collect();
    rig.planet.send(PlanetToExplorer::SupportedCombinationResponse { combination_list: list.clone() }).unwrap();
    assert!(rig.explorer.is_combination_available(ComplexKind::Water));
    rig.planet.send(PlanetToExplorer::SupportedCombinationResponse { combination_list: list }).unwrap();
    assert!(!rig.explorer.is_combination_available(ComplexKind::Diamond));
    rig.planet.send(PlanetToExplorer::Stopped).unwrap();
    assert!(!rig.explorer.is_combination_available(ComplexKind::Water));
    assert_eq!(rig.planet_inbox.try_iter().count(), 3);
}

#[test]
fn availability_is_false_when_the_planet_is_gone() {
    let Rig { mut explorer, orchestrator: _o, answers: _a, planet_inbox: _inbox, planet } = rig(Bag::new());
    drop(planet);
    assert!(!explorer.is_combination_available(ComplexKind::Water));
}

#[test]
fn accessors_read_and_write_the_state() {
    let mut rig = rig(Bag::new());
    rig.explorer.set_planet_id(12);
    rig.explorer.set_auto_mode(true);
    assert_eq!(rig.explorer.get_planet_id(), 12);
    assert!(rig.explorer.get_auto_mode());
    assert_eq!(rig.explorer.get_id(), 3);
    let planet = make_planet();
    let (hydrogen, _) = water_ingredients(&planet);
    rig.explorer.get_bag().add_resource(hydrogen);
    assert_eq!(rig.bag_types(), vec![GameResourceType::Basic(GameBasicType::Hydrogen)]);
    let (tx, rx) = unbounded::<ExplorerToOrchestrator<BagContent>>();
    rig.explorer.set_tx_orchestrator(tx);
    rig.explorer.get_tx_orchestrator().send(ExplorerToOrchestrator::KillExplorerResult { explorer_id: 3 }).unwrap();
    assert!(matches!(rx.try_recv(), Ok(ExplorerToOrchestrator::KillExplorerResult { explorer_id: 3 })));
}

#[test]
fn generation_answers_follow_the_planet_reply() {
    let planet = make_planet();
    let oxygen = planet.generator().make_oxygen(&mut cell()).unwrap();
    let reply = PlanetReply::GenerateResourceResponse { resource: Some(GenericResource::BasicResources(BasicResource::Oxygen(oxygen))) };
    match generation_answer(5, reply) {
        Some((OrchestratorReply::GenerateResourceResponse { explorer_id: 5, generated: Ok(()) }, Some(kept))) => {
            assert_eq!(kept.get_type(), GameResourceType::Basic(GameBasicType::Oxygen));
        },
        _ => panic!("expected a successful generation"),
    }
    match generation_answer(5, PlanetReply::GenerateResourceResponse { resource: None }) {
        Some((OrchestratorReply::GenerateResourceResponse { explorer_id: 5, generated: Err(why) }, None)) => {
            assert_eq!(why, "No resource was created");
        },
        _ => panic!("expected a failed generation"),
    }
    assert!(generation_answer(5, PlanetReply::Stopped).is_none());
}

#[test]
fn combination_answers_return_what_the_planet_gave() {
    let planet = make_planet();
    let (h2, o2) = water_ingredients(&planet);
    let water = planet
        .combinator()
        .make_water(h2.to_hydrogen().unwrap(), o2.to_oxygen().unwrap(), &mut cell())
        .unwrap();
    let made = PlanetReply::CombineResourceResponse { complex_response: Ok(GenericResource::ComplexResources(ComplexResource::Water(water))) };
    match combination_answer(2, made) {
        Some((OrchestratorReply::CombineResourceResponse { explorer_id: 2, generated: Ok(()) }, back)) => {
            assert_eq!(back.len(), 1);
            assert_eq!(back[0].get_type(), GameResourceType::Complex(GameComplexType::Water));
        },
        _ => panic!("expected a successful combination"),
    }
    let (hydrogen, oxygen) = water_ingredients(&planet);
    let refused = PlanetReply::CombineResourceResponse { complex_response: Err((String::from("no energy"), hydrogen, oxygen)) };
    match combination_answer(2, refused) {
        Some((OrchestratorReply::CombineResourceResponse { explorer_id: 2, generated: Err(why) }, back)) => {
            assert_eq!(why, "no energy");
            let types: Vec<GameResourceType> = back.iter().map(|r| r.get_type()).collect();
            assert_eq!(
                types,
                vec![GameResourceType::Basic(GameBasicType::Hydrogen), GameResourceType::Basic(GameBasicType::Oxygen)]
            );
        },
        _ => panic!("expected a refused combination"),
    }
    assert!(combination_answer(2, PlanetReply::AvailableEnergyCellResponse { available_cells: 1 }).is_none());
}

#[test]
fn listing_answers_pass_the_lists_on() {
    let basics: HashSet<GameBasicType> = [GameBasicType::Carbon].into_iter().collect();
    match resource_listing_answer(4, PlanetReply::SupportedResourceResponse { resource_list: basics.clone() }) {
        Some(OrchestratorReply::SupportedResourceResult { explorer_id: 4, supported_resources }) => {
            assert_eq!(supported_resources, basics);
        },
        _ => panic!("expected the resource list"),
    }
    assert!(resource_listing_answer(4, PlanetReply::Stopped).is_none());
    let complexes: HashSet<GameComplexType> = [GameComplexType::Water].into_iter().collect();
    match combination_listing_answer(4, PlanetReply::SupportedCombinationResponse { combination_list: complexes.clone() }) {
        Some(OrchestratorReply::SupportedCombinationResult { explorer_id: 4, combination_list }) => {
            assert_eq!(combination_list, complexes);
        },
        _ => panic!("expected the combination list"),
    }
    assert!(combination_listing_answer(4, PlanetReply::SupportedResourceResponse { resource_list: basics }).is_none());
}
