//! Telemetry: debugging information attached to conversation messages. It
//! holds what influenced a completion: the history of the round, in one of
//! two wire shapes.

use crate::api::TelemetryTarget;
use crate::message::Message;
use vstd::prelude::*;
use vstd::string::*;

verus! {

#[derive(Clone, Copy, Debug, PartialEq, Eq, Structural)]
pub enum TelemetryMode {
    /// No telemetry.
    Disabled,
    /// The compact message format of a well-known completion provider. It
    /// cannot express every message; where it cannot, the generic format is
    /// used in its place.
    OpenAI,
    /// The generic message format, which expresses every message.
    Generic,
}

/// Where a report belongs: the messages it is attached to, and the session.
#[derive(Debug, PartialEq, Eq)]
pub struct TelemetryIdentifier {
    pub targets: Vec<TelemetryTarget>,
    pub session_id: String,
}

#[derive(Debug, PartialEq, Eq)]
pub enum Error {
    /// The report could not be submitted.
    Request(String),
    /// No targets were provided.
    EmptyTargets,
    /// No messages were provided.
    EmptyMessages,
}

/// The history of a report in the shape in which it is submitted; `O` is a
/// message in the compact shape.
#[derive(Debug, PartialEq, Eq)]
pub enum TelemetryMessages<O> {
    OpenAi(Vec<O>),
    Generic(Vec<Message>),
}

/// A report that is ready to be submitted.
#[derive(Debug, PartialEq, Eq)]
pub struct TelemetryPost<O> {
    pub url: String,
    pub session_id: String,
    pub targets: Vec<TelemetryTarget>,
    pub model_description: String,
    pub messages: TelemetryMessages<O>,
}

/// One report about one round.
pub struct TelemetryRequest {
    id: TelemetryIdentifier,
    url: String,
    messages: Vec<Message>,
    telemetry_mode: TelemetryMode,
    model_description: String,
}

/// The lists joined in order.
pub open spec fn flattened<O>(lists: Seq<Vec<O>>) -> Seq<O>
    decreases lists.len(),
{
    if lists.len() == 0 {
        Seq::empty()
    } else {
        flattened(lists.drop_last()) + lists.last()@
    }
}

/// Every message of the history could be converted.
pub open spec fn all_converted<O>(converted: Seq<Option<Vec<O>>>) -> bool {
    forall|i: int| 0 <= i < converted.len() ==> converted[i] is Some
}

/// The converted lists, where every one is there.
pub open spec fn unwrapped<O>(converted: Seq<Option<Vec<O>>>) -> Seq<Vec<O>> {
    converted.map_values(|c: Option<Vec<O>>| c.unwrap())
}

impl TelemetryRequest {
    pub closed spec fn spec_targets(&self) -> Seq<TelemetryTarget> {
        self.id.targets@
    }

    pub closed spec fn spec_session_id(&self) -> Seq<char> {
        self.id.session_id@
    }

    pub closed spec fn spec_url(&self) -> Seq<char> {
        self.url@
    }

    pub closed spec fn spec_history(&self) -> Vec<Message> {
        self.messages
    }

    pub open spec fn spec_messages(&self) -> Seq<Message> {
        self.spec_history()@
    }

    pub closed spec fn spec_mode(&self) -> TelemetryMode {
        self.telemetry_mode
    }

    pub closed spec fn spec_model_description(&self) -> Seq<char> {
        self.model_description@
    }

    /// A report in the compact format.
    pub fn new(
        id: TelemetryIdentifier,
        url: String,
        model_description: String,
        messages: Vec<Message>,
    ) -> (request: Self)
        ensures
            request.spec_targets() == id.targets@,
            request.spec_session_id() == id.session_id@,
            request.spec_url() == url@,
            request.spec_model_description() == model_description@,
            request.spec_messages() == messages@,
            request.spec_mode() == TelemetryMode::OpenAI,
    {
        Self { id, url, messages, telemetry_mode: TelemetryMode::OpenAI, model_description }
    }

    /// Sets the format of the report.
    pub fn telemetry_mode(self, format: TelemetryMode) -> (request: Self)
        ensures
            request.spec_mode() == format,
            request.spec_targets() == self.spec_targets(),
            request.spec_session_id() == self.spec_session_id(),
            request.spec_url() == self.spec_url(),
            request.spec_model_description() == self.spec_model_description(),
            request.spec_messages() == self.spec_messages(),
    {
        let mut request = self;
        request.telemetry_mode = format;
        request
    }

    /// The format of the report.
    pub fn mode(&self) -> (mode: TelemetryMode)
        ensures
            mode == self.spec_mode(),
    {
        self.telemetry_mode
    }

    /// The messages that the report is attached to.
    pub fn targets(&self) -> (targets: &Vec<TelemetryTarget>)
        ensures
            targets@ == self.spec_targets(),
    {
        &self.id.targets
    }

    /// The history that the report is about.
    pub fn messages(&self) -> (messages: &Vec<Message>)
        ensures
            messages@ == self.spec_messages(),
    {
        &self.messages
    }

    /// The history in the compact format, given what each message converts
    /// to: all the converted messages in order, or nothing where any message
    /// failed to convert.
    pub fn messages_openai<O>(converted: Vec<Option<Vec<O>>>) -> (messages: Option<Vec<O>>)
        ensures
            messages is Some <==> all_converted(converted@),
            messages matches Some(m) ==> m@ == flattened(unwrapped(converted@)),
    {
        let ghost given = converted@;
        let mut rest = converted;
        let mut collected: Vec<Vec<O>> = Vec::new();
        // Taken from the back, so collected in reverse.
        while rest.len() > 0
            invariant
                given == converted@,
                rest@.len() <= given.len(),
                rest@ == given.take(rest@.len() as int),
                collected@.len() == given.len() - rest@.len(),
                forall|i: int| rest@.len() <= i < given.len() ==> given[i] is Some,
                forall|j: int|
                    0 <= j < collected@.len() ==> collected@[j] == given[given.len() - 1
                        - j].unwrap(),
            decreases rest@.len(),
        {
            let last = rest.pop();
            match last.unwrap() {
                Some(list) => {
                    collected.push(list);
                },
                None => {
                    proof {
                        assert(given[rest@.len() as int] is None);
                    }
                    return None;
                },
            }
        }
        let mut messages: Vec<O> = Vec::new();
        let ghost lists = unwrapped(given);
        proof {
            assert(lists.take(0) =~= Seq::<Vec<O>>::empty());
        }
        while collected.len() > 0
            invariant
                given == converted@,
                all_converted(given),
                collected@.len() <= given.len(),
                lists == unwrapped(given),
                forall|j: int|
                    0 <= j < collected@.len() ==> collected@[j] == given[given.len() - 1
                        - j].unwrap(),
                messages@ == flattened(lists.take(given.len() - collected@.len())),
            decreases collected@.len(),
        {
            let ghost done = given.len() - collected@.len();
            let next = collected.pop();
            let mut list = next.unwrap();
            proof {
                assert(list == lists[done]);
                assert(lists.take(done + 1).drop_last() =~= lists.take(done));
                assert(lists.take(done + 1).last() == lists[done]);
            }
            messages.append(&mut list);
        }
        proof {
            assert(lists.take(given.len() as int) =~= lists);
        }
        Some(messages)
    }

    /// Serialises nothing and submits nothing: decides what is to be
    /// submitted. Fails locally with `EmptyTargets` where the report names no
    /// target and with `EmptyMessages` where its history is empty.
    ///
    /// `openai` is the history in the compact format, where the report asks
    /// for that format and every message could be converted. In the compact
    /// format without it, the report falls back to the generic format.
    pub fn send<O>(self, openai: Option<Vec<O>>) -> (post: Result<TelemetryPost<O>, Error>)
        requires
            self.spec_mode() != TelemetryMode::Disabled || self.spec_targets().len() == 0
                || self.spec_messages().len() == 0,
        ensures
            post is Err <==> self.spec_targets().len() == 0 || self.spec_messages().len() == 0,
            post matches Err(e) ==> if self.spec_targets().len() == 0 {
                e is EmptyTargets
            } else {
                e is EmptyMessages
            },
            post matches Ok(p) ==> {
                &&& p.url@ == self.spec_url()
                &&& p.session_id@ == self.spec_session_id()
                &&& p.targets@ == self.spec_targets()
                &&& p.model_description@ == self.spec_model_description()
                &&& p.messages == match (self.spec_mode(), openai) {
                    (TelemetryMode::OpenAI, Some(compact)) => TelemetryMessages::OpenAi(compact),
                    _ => TelemetryMessages::Generic(self.spec_history()),
                }
            },
    {
        if self.id.targets.len() == 0 {
            return Err(Error::EmptyTargets);
        }
        if self.messages.len() == 0 {
            return Err(Error::EmptyMessages);
        }
        let messages = match self.telemetry_mode {
            TelemetryMode::OpenAI => match openai {
                Some(compact) => TelemetryMessages::OpenAi(compact),
                None => TelemetryMessages::Generic(self.messages),
            },
            _ => TelemetryMessages::Generic(self.messages),
        };
        Ok(
            TelemetryPost {
                url: self.url,
                session_id: self.id.session_id,
                targets: self.id.targets,
                model_description: self.model_description,
                messages,
            },
        )
    }
}

} // verus!
