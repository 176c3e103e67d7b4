use common_game::protocols::orchestrator_explorer::{ExplorerToOrchestrator, OrchestratorToExplorer};
use common_game::protocols::planet_explorer::{ExplorerToPlanet, PlanetToExplorer};
use crossbeam_channel::unbounded;

use explorer::bag::BagContent;
use explorer::protocol::{OrchestratorMessage, OrchestratorReply, PlanetReply, PlanetRequest};
use explorer::traffic::Traffic;

#[test]
fn a_request_reaches_the_planet() {
    let mut traffic = Traffic::new();
    let (tx, inbox) = unbounded::<ExplorerToPlanet>();
    assert!(traffic.send_to_planet(&tx, PlanetRequest::SupportedResourceRequest { explorer_id: 6 }));
    assert!(matches!(inbox.try_recv(), Ok(ExplorerToPlanet::SupportedResourceRequest { explorer_id: 6 })));
    drop(inbox);
    assert!(!traffic.send_to_planet(&tx, PlanetRequest::SupportedCombinationRequest { explorer_id: 6 }));
}

#[test]
fn a_planet_reply_is_read_or_missed() {
    let mut traffic = Traffic::new();
    let (planet, rx) = unbounded::<PlanetToExplorer>();
    planet.send(PlanetToExplorer::AvailableEnergyCellResponse { available_cells: 4 }).unwrap();
    assert!(matches!(
        traffic.receive_from_planet(&rx),
        Some(PlanetReply::AvailableEnergyCellResponse { available_cells: 4 })
    ));
    drop(planet);
    assert!(traffic.receive_from_planet(&rx).is_none());
}

#[test]
fn an_answer_reaches_the_orchestrator() {
    let mut traffic = Traffic::new();
    let (tx, answers) = unbounded::<ExplorerToOrchestrator<BagContent>>();
    assert!(traffic.send_to_orchestrator(&tx, OrchestratorReply::CurrentPlanetResult { explorer_id: 6, planet_id: 9 }));
    assert!(matches!(
        answers.try_recv(),
        Ok(ExplorerToOrchestrator::CurrentPlanetResult { explorer_id: 6, planet_id: 9 })
    ));
    drop(answers);
    assert!(!traffic.send_to_orchestrator(&tx, OrchestratorReply::CurrentPlanetResult { explorer_id: 6, planet_id: 9 }));
}

#[test]
fn polling_the_orchestrator_takes_what_waits() {
    let mut traffic = Traffic::new();
    let (orchestrator, rx) = unbounded::<OrchestratorToExplorer>();
    assert!(traffic.poll_orchestrator(&rx).is_none());
    orchestrator.send(OrchestratorToExplorer::StopExplorerAI).unwrap();
    assert!(matches!(traffic.poll_orchestrator(&rx), Some(OrchestratorMessage::StopExplorerAI)));
    drop(orchestrator);
    assert!(traffic.poll_orchestrator(&rx).is_none());
}
