//! The explorer's traffic with its peers, and the record of it.
//!
//! Every message the explorer sends or takes goes through a `Traffic`: its
//! methods make the channel call and, in the same verified body, append to
//! the record what they handed to the channel or took from it. The record is
//! private to this module, so no other code can write it, and the explorer's
//! contracts are stated over it.

use vstd::prelude::*;

use common_game::protocols::orchestrator_explorer::{ExplorerToOrchestrator, OrchestratorToExplorer};
use common_game::protocols::planet_explorer::{ExplorerToPlanet, PlanetToExplorer};
use crossbeam_channel::{Receiver, Sender};

use crate::bag::BagContent;
use crate::channel::{Polled, try_receive};
use crate::protocol::{
    OrchestratorMessage, OrchestratorReply, PlanetReply, PlanetRequest, orchestrator_message,
    planet_message, read_orchestrator_message, read_planet_reply, well_formed_request,
};

verus! {

/// One step of an explorer's conversation with its peers.
#[allow(inconsistent_fields)]
pub enum Exchange {
    /// A request handed to the planet's channel, and whether the channel
    /// took it.
    ToPlanet { request: PlanetRequest, delivered: bool },
    /// What came back from the planet: `None` when its channel closed first.
    FromPlanet { reply: Option<PlanetReply> },
    /// An answer handed to the orchestrator's channel, and whether the
    /// channel took it.
    ToOrchestrator { reply: OrchestratorReply, delivered: bool },
    /// A look at the orchestrator's channel: the message taken, or `None`
    /// when none was waiting or the orchestrator is gone.
    FromOrchestrator { message: Option<OrchestratorMessage> },
}

/// The record of everything an explorer handed to its channels or took from
/// them, in order.
pub struct Traffic {
    log: Ghost<Seq<Exchange>>,
}

impl Traffic {
    /// The exchanges so far, oldest first.
    pub closed spec fn exchanges(&self) -> Seq<Exchange> {
        self.log@
    }

    /// A record with nothing in it yet.
    pub fn new() -> (traffic: Traffic)
        ensures
            traffic.exchanges() == Seq::<Exchange>::empty(),
    {
        Traffic { log: Ghost(Seq::empty()) }
    }

    /// Hands `request` to the planet's channel `tx` and records it, with
    /// whether the channel took it.
    pub fn send_to_planet(&mut self, tx: &Sender<ExplorerToPlanet>, request: PlanetRequest) -> (delivered: bool)
        requires
            well_formed_request(request),
        ensures
            final(self).exchanges() == old(self).exchanges().push(Exchange::ToPlanet { request, delivered }),
    {
        let ghost sent = request;
        let delivered = tx.send(planet_message(request)).is_ok();
        proof {
            self.log@ = self.log@.push(Exchange::ToPlanet { request: sent, delivered });
        }
        delivered
    }

    /// Waits on the planet's channel `rx` for its reply and records what came
    /// back: `None` once the channel is empty and the planet gone.
    pub fn receive_from_planet(&mut self, rx: &Receiver<PlanetToExplorer>) -> (reply: Option<PlanetReply>)
        ensures
            final(self).exchanges() == old(self).exchanges().push(Exchange::FromPlanet { reply }),
    {
        let reply = match rx.recv() {
            Ok(reply) => Some(read_planet_reply(reply)),
            Err(_) => None,
        };
        let ghost taken = reply;
        proof {
            self.log@ = self.log@.push(Exchange::FromPlanet { reply: taken });
        }
        reply
    }

    /// Hands `reply` to the orchestrator's channel `tx` and records it, with
    /// whether the channel took it.
    pub fn send_to_orchestrator(
        &mut self,
        tx: &Sender<ExplorerToOrchestrator<BagContent>>,
        reply: OrchestratorReply,
    ) -> (delivered: bool)
        ensures
            final(self).exchanges() == old(self).exchanges().push(Exchange::ToOrchestrator { reply, delivered }),
    {
        let ghost sent = reply;
        let delivered = tx.send(orchestrator_message(reply)).is_ok();
        proof {
            self.log@ = self.log@.push(Exchange::ToOrchestrator { reply: sent, delivered });
        }
        delivered
    }

    /// Takes the next message waiting on the orchestrator's channel `rx`,
    /// without blocking, and records the look: the message, or `None` when
    /// none was waiting or the orchestrator is gone.
    pub fn poll_orchestrator(&mut self, rx: &Receiver<OrchestratorToExplorer>) -> (message: Option<
        OrchestratorMessage,
    >)
        ensures
            final(self).exchanges() == old(self).exchanges().push(Exchange::FromOrchestrator { message }),
    {
        let message = match try_receive(rx) {
            Polled::Received(message) => Some(read_orchestrator_message(message)),
            _ => None,
        };
        let ghost taken = message;
        proof {
            self.log@ = self.log@.push(Exchange::FromOrchestrator { message: taken });
        }
        message
    }
}

} // verus!
