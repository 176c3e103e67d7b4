//! A pair of crossbeam channel ends, one to send on and one to receive from,
//! that logs every message event through `common_game`'s logging.

use vstd::prelude::*;

use std::collections::BTreeMap;
use std::fmt::Debug;

use common_game::logging::{Channel, EventType, LogEvent, Participant};
use crossbeam_channel::{Receiver, RecvError, SendError, Sender};

use crate::channel::{Polled, try_receive};
use vstd::std_specs::cmp::PartialEqSpec;
use vstd::std_specs::convert::IntoSpec;

verus! {

#[verifier::external_type_specification]
#[verifier::external_body]
pub struct ExParticipant(common_game::logging::Participant);

#[verifier::external_type_specification]
#[verifier::external_body]
pub struct ExEventType(common_game::logging::EventType);

#[verifier::external_type_specification]
#[verifier::external_body]
pub struct ExChannel(common_game::logging::Channel);

#[verifier::external_type_specification]
#[verifier::external_body]
pub struct ExLogEvent(common_game::logging::LogEvent);

/// The derived `Participant::clone` copies both fields.
pub assume_specification[ <Participant as Clone>::clone ](participant: &Participant) -> (copy: Participant)
    ensures
        copy == *participant,
;

/// The derived `EventType::clone` copies the variant.
pub assume_specification[ <EventType as Clone>::clone ](event: &EventType) -> (copy: EventType)
    ensures
        copy == *event,
;

/// Calls `LogEvent::new` on the record's participants, event type, level
/// (as `common_game`'s channel) and entries (as a payload). The event is
/// stamped with the current time, so nothing is promised of it.
#[verifier::external_body]
fn new_log_event(record: LogRecord) -> LogEvent {
    LogEvent::new(record.sender, record.receiver, record.event_type, game_channel(record.channel), payload(record.payload))
}

/// `LogEvent::emit` hands the event to the `log` crate, at the level of its
/// channel.
pub assume_specification[ LogEvent::emit ](event: &LogEvent);

/// The level at which an event is logged.
#[derive(Debug, Clone, Copy, PartialEq, Eq, Structural)]
pub enum LogLevel {
    Error,
    Warning,
    Info,
    Debug,
    Trace,
}

/// What a log event says, before it is stamped with the time: who sent and
/// who received the message, the event type, the level and the key/value
/// entries of its payload.
pub struct LogRecord {
    pub sender: Option<Participant>,
    pub receiver: Option<Participant>,
    pub event_type: EventType,
    pub channel: LogLevel,
    pub payload: Vec<(String, String)>,
}

/// Stamps `record` with the current time and hands it to the `log` crate.
fn emit(record: LogRecord) {
    new_log_event(record).emit();
}

/// Converts a log level into `common_game`'s logging channel, variant for
/// variant.
#[verifier::external_body]
fn game_channel(level: LogLevel) -> Channel {
    match level {
        LogLevel::Error => Channel::Error,
        LogLevel::Warning => Channel::Warning,
        LogLevel::Info => Channel::Info,
        LogLevel::Debug => Channel::Debug,
        LogLevel::Trace => Channel::Trace,
    }
}

/// Collects key/value entries into a log payload, as `BTreeMap::from_iter`
/// does.
#[verifier::external_body]
fn payload(entries: Vec<(String, String)>) -> BTreeMap<String, String> {
    BTreeMap::from_iter(entries)
}

/// The `Debug` rendering of `value`, as `format!("{:?}")` writes it.
#[verifier::external_body]
fn debug_text<T: Debug>(value: &T) -> String {
    format!("{:?}", value)
}

/// Which way a logged message went.
enum Direction {
    Send,
    Recv,
}

/// The line logged after sending a message whose `Debug` rendering is
/// `debug`.
pub fn send_text(delivered: bool, debug: &String) -> (text: String)
    ensures
        text@ == (if delivered {
            "Sent "@
        } else {
            "Could not send "@
        }) + debug@,
{
    if delivered {
        String::from_str("Sent ").concat(debug.as_str())
    } else {
        String::from_str("Could not send ").concat(debug.as_str())
    }
}

/// The line logged after receiving a message whose `Debug` rendering is
/// `debug`.
pub fn received_text(debug: &String) -> (text: String)
    ensures
        text@ == "Recieved "@ + debug@,
{
    String::from_str("Recieved ").concat(debug.as_str())
}

/// The line logged when waiting for a message ended in the error whose
/// `Debug` rendering is `debug`.
pub fn recv_error_text(debug: &String) -> (text: String)
    ensures
        text@ == "Got error while awaiting response "@ + debug@,
{
    String::from_str("Got error while awaiting response ").concat(debug.as_str())
}

/// What a poll returns for what the non-blocking receive found: the message,
/// nothing when none was waiting, or an error once the peer is gone.
pub fn poll_result<T>(polled: Polled<T>) -> (result: Result<Option<T>, ()>)
    ensures
        match polled {
            Polled::Received(message) => result == Ok::<Option<T>, ()>(Some(message)),
            Polled::Empty => result == Ok::<Option<T>, ()>(None),
            Polled::Disconnected => result == Err::<Option<T>, ()>(()),
        },
{
    match polled {
        Polled::Received(message) => Ok(Some(message)),
        Polled::Empty => Ok(None),
        Polled::Disconnected => Err(()),
    }
}

/// Whether `response`, converted by `Into`, equals `ack` by `PartialEq`.
pub fn acknowledges<R: Into<T>, T: PartialEq>(response: R, ack: &T) -> (acknowledged: bool)
    ensures
        T::obeys_eq_spec() && R::obeys_into_spec() ==> acknowledged == ack.eq_spec(
            &response.into_spec(),
        ),
{
    let converted: T = response.into();
    !(*ack != converted)
}

/// What waiting for an acknowledgement comes to, for the reply received:
/// for a reply, success exactly when it converts to `ack`, else an invalid
/// response; for a failed receive, that receive error.
pub open spec fn acknowledgement_verdict<R: Into<T>, T: PartialEq, S>(
    reply: Result<R, RecvError>,
    ack: T,
    result: Result<(), ChannelError<S>>,
) -> bool {
    match reply {
        Ok(res) => {
            &&& (result is Ok || result matches Err(ChannelError::InvalidResponseError))
            &&& T::obeys_eq_spec() && R::obeys_into_spec() ==> (result is Ok <==> ack.eq_spec(
                &res.into_spec(),
            ))
        },
        Err(error) => result == Err::<(), ChannelError<S>>(ChannelError::RecvError(error)),
    }
}

/// Decides what waiting for the acknowledgement `ack` comes to, given what
/// was received: `Ok` when the reply converts to `ack`, an invalid response
/// when it does not, and the receive error when nothing was received.
pub fn acknowledgement<R: Into<T>, T: PartialEq, S>(reply: Result<R, RecvError>, ack: &T) -> (result: Result<
    (),
    ChannelError<S>,
>)
    ensures
        acknowledgement_verdict(reply, *ack, result),
{
    match reply {
        Ok(res) => if acknowledges(res, ack) {
            Ok(())
        } else {
            Err(ChannelError::InvalidResponseError)
        },
        Err(error) => Err(ChannelError::RecvError(error)),
    }
}

/// What went wrong in a send followed by a wait for an acknowledgement.
#[verifier::reject_recursive_types(T)]
pub enum ChannelError<T> {
    /// The message could not be sent; it comes back inside the error.
    SendError(SendError<T>),
    /// No reply could be received.
    RecvError(RecvError),
    /// The reply was not the expected acknowledgement.
    InvalidResponseError,
}

/// The sending end of one channel and the receiving end of another, with the
/// participants and event types under which their traffic is logged.
#[verifier::reject_recursive_types(SendT)]
#[verifier::reject_recursive_types(RecvT)]
pub struct LoggedChannel<SendT, RecvT> {
    reciever: Receiver<RecvT>,
    sender: Sender<SendT>,
    send_participant: Participant,
    recv_participant: Participant,
    send_event: EventType,
    recv_event: EventType,
}

impl<SendT, RecvT> LoggedChannel<SendT, RecvT> {
    /// The end messages are received from.
    pub closed spec fn receiver_end(&self) -> Receiver<RecvT> {
        self.reciever
    }

    /// The end messages are sent on.
    pub closed spec fn sender_end(&self) -> Sender<SendT> {
        self.sender
    }

    /// The participant logged as the sender.
    pub closed spec fn send_participant(&self) -> Participant {
        self.send_participant
    }

    /// The participant logged as the receiver.
    pub closed spec fn recv_participant(&self) -> Participant {
        self.recv_participant
    }

    /// The event type logged for messages sent.
    pub closed spec fn send_event(&self) -> EventType {
        self.send_event
    }

    /// The event type logged for messages received.
    pub closed spec fn recv_event(&self) -> EventType {
        self.recv_event
    }

    /// `record` is an event of this channel: from its sending participant to
    /// its receiving one, under the event type of messages received
    /// (`received`) or sent, at `level`.
    pub open spec fn carries(&self, record: LogRecord, received: bool, level: LogLevel) -> bool {
        &&& record.sender == Some(self.send_participant())
        &&& record.receiver == Some(self.recv_participant())
        &&& record.event_type == if received {
            self.recv_event()
        } else {
            self.send_event()
        }
        &&& record.channel == level
    }

    /// `record` is an event of this channel whose one entry is the message
    /// `text`.
    pub open spec fn message_event(&self, record: LogRecord, received: bool, level: LogLevel, text: Seq<char>) -> bool {
        &&& self.carries(record, received, level)
        &&& record.payload@.len() == 1
        &&& record.payload@[0].0@ == "Message"@
        &&& record.payload@[0].1@ == text
    }

    /// `record` is what sending a message whose `Debug` rendering is `debug`
    /// logs: that it was sent, or that it could not be.
    pub open spec fn send_logged_as(&self, record: LogRecord, delivered: bool, debug: Seq<char>) -> bool {
        self.message_event(
            record,
            false,
            LogLevel::Debug,
            (if delivered {
                "Sent "@
            } else {
                "Could not send "@
            }) + debug,
        )
    }

    /// `record` is what waiting for a message logs: the message received,
    /// whose `Debug` rendering is `debug`, or, as an error, the failure,
    /// whose rendering is `debug`.
    pub open spec fn recv_logged_as(&self, record: LogRecord, received: bool, debug: Seq<char>) -> bool {
        if received {
            self.message_event(record, true, LogLevel::Debug, "Recieved "@ + debug)
        } else {
            self.message_event(record, true, LogLevel::Error, "Got error while awaiting response "@ + debug)
        }
    }

    /// `record` is the error logged for a reply that is not the expected
    /// acknowledgement: its message, then what was expected and what came.
    pub open spec fn invalid_reply_event(&self, record: LogRecord) -> bool {
        &&& self.carries(record, true, LogLevel::Error)
        &&& record.payload@.len() == 3
        &&& record.payload@[0].0@ == "Message"@
        &&& record.payload@[0].1@ == "Recieved invalid response"@
        &&& record.payload@[1].0@ == "Expected"@
        &&& record.payload@[2].0@ == "Got"@
    }
}

impl<SendT, RecvT> Clone for LoggedChannel<SendT, RecvT> {
    /// Another handle on the same two channels, logged the same way.
    fn clone(&self) -> (copy: Self)
        ensures
            copy.receiver_end() == self.receiver_end(),
            copy.sender_end() == self.sender_end(),
            copy.send_participant() == self.send_participant(),
            copy.recv_participant() == self.recv_participant(),
            copy.send_event() == self.send_event(),
            copy.recv_event() == self.recv_event(),
    {
        Self {
            reciever: self.reciever.clone(),
            sender: self.sender.clone(),
            send_participant: self.send_participant.clone(),
            recv_participant: self.recv_participant.clone(),
            send_event: self.send_event.clone(),
            recv_event: self.recv_event.clone(),
        }
    }
}

impl<SendT: Debug, RecvT: Debug> LoggedChannel<SendT, RecvT> {
    /// A logged channel over `reciever` and `sender`.
    pub fn new(
        reciever: Receiver<RecvT>,
        sender: Sender<SendT>,
        send_participant: Participant,
        recv_participant: Participant,
        send_event: EventType,
        recv_event: EventType,
    ) -> (channel: Self)
        ensures
            channel.receiver_end() == reciever,
            channel.sender_end() == sender,
            channel.send_participant() == send_participant,
            channel.recv_participant() == recv_participant,
            channel.send_event() == send_event,
            channel.recv_event() == recv_event,
    {
        Self { reciever, sender, send_participant, recv_participant, send_event, recv_event }
    }

    /// The event that this channel logs in `direction` at `level`, with the
    /// given entries.
    fn make_log_event(&self, direction: Direction, level: LogLevel, entries: Vec<(String, String)>) -> (record: LogRecord)
        ensures
            self.carries(record, direction is Recv, level),
            record.payload@ == entries@,
    {
        let event_type = match direction {
            Direction::Send => self.send_event.clone(),
            Direction::Recv => self.recv_event.clone(),
        };
        LogRecord {
            sender: Some(self.send_participant.clone()),
            receiver: Some(self.recv_participant.clone()),
            event_type,
            channel: level,
            payload: entries,
        }
    }

    /// Logs `text` as the message of an event in `direction` at `level`; the
    /// result is the event logged.
    fn log_message(&self, direction: Direction, level: LogLevel, text: String) -> (logged: Ghost<LogRecord>)
        ensures
            self.message_event(logged@, direction is Recv, level, text@),
    {
        let key = String::from_str("Message");
        let entries = vec![(key, text)];
        let record = self.make_log_event(direction, level, entries);
        let ghost logged = record;
        emit(record);
        Ghost(logged)
    }

    /// Sends a message and logs whether it went out. The second part of the
    /// result records the events logged and the message's `Debug` rendering.
    pub fn send(&self, val: SendT) -> (outcome: (Result<(), SendError<SendT>>, Ghost<(Seq<LogRecord>, Seq<char>)>))
        ensures
            outcome.1@.0.len() == 1,
            self.send_logged_as(outcome.1@.0[0], outcome.0 is Ok, outcome.1@.1),
    {
        let val_debug = debug_text(&val);
        let result = self.sender.send(val);
        let delivered = result.is_ok();
        let logged = self.log_message(Direction::Send, LogLevel::Debug, send_text(delivered, &val_debug));
        (result, Ghost((seq![logged@], val_debug@)))
    }

    /// Waits for a message and logs it, or logs the error when the sending
    /// side is gone. The second part of the result records the events logged
    /// and the `Debug` rendering of the message or error.
    pub fn recv(&self) -> (outcome: (Result<RecvT, RecvError>, Ghost<(Seq<LogRecord>, Seq<char>)>))
        ensures
            outcome.1@.0.len() == 1,
            self.recv_logged_as(outcome.1@.0[0], outcome.0 is Ok, outcome.1@.1),
    {
        let result = self.reciever.recv();
        match result {
            Ok(val) => {
                let val_debug = debug_text(&val);
                let logged = self.log_message(Direction::Recv, LogLevel::Debug, received_text(&val_debug));
                (Ok(val), Ghost((seq![logged@], val_debug@)))
            },
            Err(err) => {
                let err_debug = debug_text(&err);
                let logged = self.log_message(Direction::Recv, LogLevel::Error, recv_error_text(&err_debug));
                (Err(err), Ghost((seq![logged@], err_debug@)))
            },
        }
    }

    /// Sends a message, then, once it went out, waits for the reply and
    /// checks it against `ack_to_ckeck` as `acknowledgement` does; a reply
    /// that differs is logged as an error. The second part of the result
    /// records the events logged, the reply (`None` when the message could
    /// not be sent) and the `Debug` renderings of the message and the reply.
    pub fn send_and_check_ack<T: PartialEq + Debug>(&self, val: SendT, ack_to_ckeck: T) -> (outcome: (
        Result<(), ChannelError<SendT>>,
        Ghost<(Seq<LogRecord>, Option<Result<RecvT, RecvError>>, Seq<char>, Seq<char>)>,
    )) where RecvT: Into<T>
        ensures
            ({
                let (log, reply, sent_debug, reply_debug) = outcome.1@;
                match reply {
                    None => {
                        &&& outcome.0 matches Err(ChannelError::SendError(_))
                        &&& log.len() == 1
                        &&& self.send_logged_as(log[0], false, sent_debug)
                    },
                    Some(reply) => {
                        &&& acknowledgement_verdict(reply, ack_to_ckeck, outcome.0)
                        &&& log.len() == if outcome.0 matches Err(ChannelError::InvalidResponseError) {
                            3int
                        } else {
                            2int
                        }
                        &&& self.send_logged_as(log[0], true, sent_debug)
                        &&& self.recv_logged_as(log[1], reply is Ok, reply_debug)
                        &&& outcome.0 matches Err(ChannelError::InvalidResponseError) ==> self.invalid_reply_event(log[2])
                    },
                }
            }),
    {
        let val_debug = debug_text(&val);
        let (sent, sent_log) = self.send(val);
        match sent {
            Ok(()) => {
                let (reply, reply_log) = self.recv();
                let ghost received = reply;
                let res_debug = match &reply {
                    Ok(res) => debug_text(res),
                    Err(err) => debug_text(err),
                };
                let result = acknowledgement(reply, &ack_to_ckeck);
                let ghost mut log = sent_log@.0 + reply_log@.0;
                if let Err(ChannelError::InvalidResponseError) = result {
                    let message = String::from_str("Message");
                    let reason = String::from_str("Recieved invalid response");
                    let expected_key = String::from_str("Expected");
                    let got_key = String::from_str("Got");
                    let entries = vec![
                        (message, reason),
                        (expected_key, debug_text(&val_debug)),
                        (got_key, debug_text(&res_debug)),
                    ];
                    let record = self.make_log_event(Direction::Recv, LogLevel::Error, entries);
                    let ghost logged = record;
                    emit(record);
                    proof {
                        log = log.push(logged);
                    }
                }
                (result, Ghost((log, Some(received), sent_log@.1, reply_log@.1)))
            },
            Err(err) => (Err(ChannelError::SendError(err)), Ghost((sent_log@.0, None, sent_log@.1, Seq::empty()))),
        }
    }

    /// Looks for a waiting message without blocking: the message, nothing
    /// when none is waiting, or an error once the sending side is gone. Logs
    /// the start of the poll, then what it found. The second part of the
    /// result records the events logged and the `Debug` rendering of a
    /// message received.
    pub fn poll(&self) -> (outcome: (Result<Option<RecvT>, ()>, Ghost<(Seq<LogRecord>, Seq<char>)>))
        ensures
            outcome.1@.0.len() == 2,
            self.message_event(outcome.1@.0[0], true, LogLevel::Trace, "Polling started"@),
            match outcome.0 {
                Ok(Some(_)) => self.message_event(
                    outcome.1@.0[1],
                    true,
                    LogLevel::Debug,
                    "Recieved "@ + outcome.1@.1,
                ),
                Ok(None) => self.message_event(outcome.1@.0[1], true, LogLevel::Trace, "Got no response in poll"@),
                Err(()) => self.message_event(
                    outcome.1@.0[1],
                    true,
                    LogLevel::Error,
                    "Peer disconnected while being polled"@,
                ),
            },
    {
        let started = self.log_message(Direction::Recv, LogLevel::Trace, String::from_str("Polling started"));
        let polled = try_receive(&self.reciever);
        let (found, debug) = match &polled {
            Polled::Received(val) => {
                let val_debug = debug_text(val);
                let ghost rendering = val_debug@;
                let found = self.log_message(Direction::Recv, LogLevel::Debug, received_text(&val_debug));
                (found, Ghost(rendering))
            },
            Polled::Empty => {
                let found = self.log_message(Direction::Recv, LogLevel::Trace, String::from_str("Got no response in poll"));
                (found, Ghost(Seq::empty()))
            },
            Polled::Disconnected => {
                let found = self.log_message(
                    Direction::Recv,
                    LogLevel::Error,
                    String::from_str("Peer disconnected while being polled"),
                );
                (found, Ghost(Seq::empty()))
            },
        };
        (poll_result(polled), Ghost((seq![started@, found@], debug@)))
    }

    /// Replaces the sending end.
    pub fn set_sender(&mut self, sender: Sender<SendT>)
        ensures
            final(self).sender_end() == sender,
            final(self).receiver_end() == old(self).receiver_end(),
            final(self).send_participant() == old(self).send_participant(),
            final(self).recv_participant() == old(self).recv_participant(),
            final(self).send_event() == old(self).send_event(),
            final(self).recv_event() == old(self).recv_event(),
    {
        self.sender = sender;
    }

    /// Replaces the receiving end.
    pub fn set_receiver(&mut self, receiver: Receiver<RecvT>)
        ensures
            final(self).receiver_end() == receiver,
            final(self).sender_end() == old(self).sender_end(),
            final(self).send_participant() == old(self).send_participant(),
            final(self).recv_participant() == old(self).recv_participant(),
            final(self).send_event() == old(self).send_event(),
            final(self).recv_event() == old(self).recv_event(),
    {
        self.reciever = receiver;
    }
}

} // verus!
