use crate::error::{DecodeError, DecodeErrorView};
use crate::json::{
    empty_object, field, json_model, object_get, object_model, object_new, str_eq, value_as_object,
    value_as_str, value_object, value_string, Json, JsonObject,
};
use crate::table::place;
use crate::types::{
    Breakpoint, BreakpointView, Capabilities, CapabilitiesView, InvalidatedAreas, Module,
    ModuleView, Source, SourceView, Thread,
};
use crate::wire::{
    default_field, get_opt, get_or, get_or_empty, get_req, group_field_rules, opt_field, put,
    put_flag, put_nonempty, put_opt, put_str, put_unless, req_field, with_field,
    with_nondefault_field, with_opt_field, Defaults, Record, Wire,
};
use vstd::prelude::*;

verus! {

/// A debug adapter initiated event.
#[derive(Clone, Debug, PartialEq, Eq)]
pub enum Event {
    /// The event indicates that some information about a breakpoint has changed.
    Breakpoint(BreakpointEventBody),

    /// The event indicates that one or more capabilities have changed.
    ///
    /// Since the capabilities are dependent on the frontend and its UI, it might not be possible to change that at random times (or too late).
    ///
    /// Consequently this event has a hint characteristic: a frontend can only be expected to make a 'best effort' in honouring individual capabilities but there are no guarantees.
    ///
    /// Only changed capabilities need to be included, all other capabilities keep their values.
    Capabilities(CapabilitiesEventBody),

    /// The event indicates that the execution of the debuggee has continued.
    ///
    /// Please note: a debug adapter is not expected to send this event in response to a request that implies that execution continues, e.g. 'launch' or 'continue'.
    ///
    /// It is only necessary to send a 'continued' event if there was no previous request that implied this.
    Continued(ContinuedEventBody),

    /// The event indicates that the debuggee has exited and returns its exit code.
    Exited(ExitedEventBody),

    /// This event indicates that the debug adapter is ready to accept configuration requests (e.g. SetBreakpointsRequest, SetExceptionBreakpointsRequest).
    ///
    /// A debug adapter is expected to send this event when it is ready to accept configuration requests (but not before the 'initialize' request has finished).
    ///
    /// The sequence of events/requests is as follows:
    ///
    /// - adapters sends 'initialized' event (after the 'initialize' request has returned)
    ///
    /// - frontend sends zero or more 'setBreakpoints' requests
    ///
    /// - frontend sends one 'setFunctionBreakpoints' request (if capability 'supportsFunctionBreakpoints' is true)
    ///
    /// - frontend sends a 'setExceptionBreakpoints' request if one or more 'exceptionBreakpointFilters' have been defined (or if 'supportsConfigurationDoneRequest' is not defined or false)
    ///
    /// - frontend sends other future configuration requests
    ///
    /// - frontend sends one 'configurationDone' request to indicate the end of the configuration.
    Initialized,

    /// This event signals that some state in the debug adapter has changed and requires that the client needs to re-render the data snapshot previously requested.
    ///
    /// Debug adapters do not have to emit this event for runtime changes like stopped or thread events because in that case the client refetches the new state anyway. But the event can be used for example to refresh the UI after rendering formatting has changed in the debug adapter.
    ///
    /// This event should only be sent if the debug adapter has received a value true for the 'supportsInvalidatedEvent' capability of the 'initialize' request.
    Invalidated(InvalidatedEventBody),

    /// The event indicates that some source has been added, changed, or removed from the set of all loaded sources.
    LoadedSource(LoadedSourceEventBody),

    /// The event indicates that some information about a module has changed.
    Module(ModuleEventBody),

    /// The event indicates that the target has produced some output.
    Output(OutputEventBody),

    /// The event indicates that the debugger has begun debugging a new process. Either one that it has launched, or one that it has attached to.
    Process(ProcessEventBody),

    /// The event signals the end of the progress reporting with an optional final message.
    ///
    /// This event should only be sent if the client has passed the value true for the 'supportsProgressReporting' capability of the 'initialize' request.
    ProgressEnd(ProgressEndEventBody),

    /// The event signals that a long running operation is about to start and
    ///
    /// provides additional information for the client to set up a corresponding progress and cancellation UI.
    ///
    /// The client is free to delay the showing of the UI in order to reduce flicker.
    ///
    /// This event should only be sent if the client has passed the value true for the 'supportsProgressReporting' capability of the 'initialize' request.
    ProgressStart(ProgressStartEventBody),

    /// The event signals that the progress reporting needs to updated with a new message and/or percentage.
    ///
    /// The client does not have to update the UI immediately, but the clients needs to keep track of the message and/or percentage values.
    ///
    /// This event should only be sent if the client has passed the value true for the 'supportsProgressReporting' capability of the 'initialize' request.
    ProgressUpdate(ProgressUpdateEventBody),

    /// The event indicates that the execution of the debuggee has stopped due to some condition.
    ///
    /// This can be caused by a break point previously set, a stepping request has completed, by executing a debugger statement etc.
    Stopped(StoppedEventBody),

    /// The event indicates that debugging of the debuggee has terminated. This does **not** mean that the debuggee itself has exited.
    Terminated(TerminatedEventBody),

    /// The event indicates that a thread has started or exited.
    Thread(ThreadEventBody),
}

/// The mathematical content of a [`Event`].
pub enum EventView {
    Breakpoint(BreakpointEventBodyView),
    Capabilities(CapabilitiesEventBodyView),
    Continued(ContinuedEventBody),
    Exited(ExitedEventBody),
    Initialized,
    Invalidated(InvalidatedEventBodyView),
    LoadedSource(LoadedSourceEventBodyView),
    Module(ModuleEventBodyView),
    Output(OutputEventBodyView),
    Process(ProcessEventBodyView),
    ProgressEnd(ProgressEndEventBodyView),
    ProgressStart(ProgressStartEventBodyView),
    ProgressUpdate(ProgressUpdateEventBodyView),
    Stopped(StoppedEventBodyView),
    Terminated(TerminatedEventBodyView),
    Thread(ThreadEventBody),
}

impl View for Event {
    type V = EventView;

    open spec fn view(&self) -> EventView {
        match self {
            Event::Breakpoint(x) => EventView::Breakpoint(x.model()),
            Event::Capabilities(x) => EventView::Capabilities(x.model()),
            Event::Continued(x) => EventView::Continued(x.model()),
            Event::Exited(x) => EventView::Exited(x.model()),
            Event::Initialized => EventView::Initialized,
            Event::Invalidated(x) => EventView::Invalidated(x.model()),
            Event::LoadedSource(x) => EventView::LoadedSource(x.model()),
            Event::Module(x) => EventView::Module(x.model()),
            Event::Output(x) => EventView::Output(x.model()),
            Event::Process(x) => EventView::Process(x.model()),
            Event::ProgressEnd(x) => EventView::ProgressEnd(x.model()),
            Event::ProgressStart(x) => EventView::ProgressStart(x.model()),
            Event::ProgressUpdate(x) => EventView::ProgressUpdate(x.model()),
            Event::Stopped(x) => EventView::Stopped(x.model()),
            Event::Terminated(x) => EventView::Terminated(x.model()),
            Event::Thread(x) => EventView::Thread(x.model()),
        }
    }
}

impl Event {
    /// The event name of a value.
    pub open spec fn tag(m: EventView) -> Seq<char> {
        match m {
            EventView::Breakpoint(_) => "breakpoint"@,
            EventView::Capabilities(_) => "capabilities"@,
            EventView::Continued(_) => "continued"@,
            EventView::Exited(_) => "exited"@,
            EventView::Initialized => "initialized"@,
            EventView::Invalidated(_) => "invalidated"@,
            EventView::LoadedSource(_) => "loadedSource"@,
            EventView::Module(_) => "module"@,
            EventView::Output(_) => "output"@,
            EventView::Process(_) => "process"@,
            EventView::ProgressEnd(_) => "progressEnd"@,
            EventView::ProgressStart(_) => "progressStart"@,
            EventView::ProgressUpdate(_) => "progressUpdate"@,
            EventView::Stopped(_) => "stopped"@,
            EventView::Terminated(_) => "terminated"@,
            EventView::Thread(_) => "thread"@,
        }
    }

    /// The event names of the catalog.
    pub open spec fn tags() -> Set<Seq<char>> {
        set![
            "breakpoint"@,
            "capabilities"@,
            "continued"@,
            "exited"@,
            "initialized"@,
            "invalidated"@,
            "loadedSource"@,
            "module"@,
            "output"@,
            "process"@,
            "progressEnd"@,
            "progressStart"@,
            "progressUpdate"@,
            "stopped"@,
            "terminated"@,
            "thread"@,
        ]
    }

    /// The place of a event name in the catalog, and the size of the catalog for
    /// any other text.
    #[verifier::opaque]
    pub open spec fn tag_index(tag: Seq<char>) -> int {
        if tag == "breakpoint"@ {
            0
        } else if tag == "capabilities"@ {
            1
        } else if tag == "continued"@ {
            2
        } else if tag == "exited"@ {
            3
        } else if tag == "initialized"@ {
            4
        } else if tag == "invalidated"@ {
            5
        } else if tag == "loadedSource"@ {
            6
        } else if tag == "module"@ {
            7
        } else if tag == "output"@ {
            8
        } else if tag == "process"@ {
            9
        } else if tag == "progressEnd"@ {
            10
        } else if tag == "progressStart"@ {
            11
        } else if tag == "progressUpdate"@ {
            12
        } else if tag == "stopped"@ {
            13
        } else if tag == "terminated"@ {
            14
        } else if tag == "thread"@ {
            15
        } else {
            16
        }
    }

    /// Each event name has a place of its own, so no two are the same text.
    pub proof fn lemma_tag_index()
        ensures
            Event::tag_index("breakpoint"@) == 0,
            Event::tag_index("capabilities"@) == 1,
            Event::tag_index("continued"@) == 2,
            Event::tag_index("exited"@) == 3,
            Event::tag_index("initialized"@) == 4,
            Event::tag_index("invalidated"@) == 5,
            Event::tag_index("loadedSource"@) == 6,
            Event::tag_index("module"@) == 7,
            Event::tag_index("output"@) == 8,
            Event::tag_index("process"@) == 9,
            Event::tag_index("progressEnd"@) == 10,
            Event::tag_index("progressStart"@) == 11,
            Event::tag_index("progressUpdate"@) == 12,
            Event::tag_index("stopped"@) == 13,
            Event::tag_index("terminated"@) == 14,
            Event::tag_index("thread"@) == 15,
    {
        reveal(Event::tag_index);
        reveal_strlit("breakpoint");
        reveal_strlit("capabilities");
        reveal_strlit("continued");
        reveal_strlit("exited");
        reveal_strlit("initialized");
        reveal_strlit("invalidated");
        reveal_strlit("loadedSource");
        reveal_strlit("module");
        reveal_strlit("output");
        reveal_strlit("process");
        reveal_strlit("progressEnd");
        reveal_strlit("progressStart");
        reveal_strlit("progressUpdate");
        reveal_strlit("stopped");
        reveal_strlit("terminated");
        reveal_strlit("thread");
        assert("breakpoint"@.len() == 10);
        assert("capabilities"@.len() == 12);
        assert("continued"@.len() == 9);
        assert("exited"@.len() == 6);
        assert("initialized"@.len() == 11);
        assert("invalidated"@.len() == 11);
        assert("loadedSource"@.len() == 12);
        assert("module"@.len() == 6);
        assert("output"@.len() == 6);
        assert("process"@.len() == 7);
        assert("progressEnd"@.len() == 11);
        assert("progressStart"@.len() == 13);
        assert("progressUpdate"@.len() == 14);
        assert("stopped"@.len() == 7);
        assert("terminated"@.len() == 10);
        assert("thread"@.len() == 6);
        assert("breakpoint"@[0] != "terminated"@[0]);
        assert("capabilities"@[0] != "loadedSource"@[0]);
        assert("exited"@[0] != "module"@[0]);
        assert("exited"@[0] != "output"@[0]);
        assert("exited"@[0] != "thread"@[0]);
        assert("initialized"@[2] != "invalidated"@[2]);
        assert("initialized"@[0] != "progressEnd"@[0]);
        assert("invalidated"@[0] != "progressEnd"@[0]);
        assert("module"@[0] != "output"@[0]);
        assert("module"@[0] != "thread"@[0]);
        assert("output"@[0] != "thread"@[0]);
        assert("process"@[0] != "stopped"@[0]);
    }

    /// The fields that are written for a value: the event name, and the payload
    /// where the event has one.
    pub open spec fn fields(m: EventView) -> JsonObject {
        let o = with_field::<String>(empty_object(), "event"@, Event::tag(m));
        match m {
            EventView::Breakpoint(x) => with_field::<BreakpointEventBody>(o, "body"@, x),
            EventView::Capabilities(x) => with_field::<CapabilitiesEventBody>(o, "body"@, x),
            EventView::Continued(x) => with_field::<ContinuedEventBody>(o, "body"@, x),
            EventView::Exited(x) => with_field::<ExitedEventBody>(o, "body"@, x),
            EventView::Initialized => o,
            EventView::Invalidated(x) => with_field::<InvalidatedEventBody>(o, "body"@, x),
            EventView::LoadedSource(x) => with_field::<LoadedSourceEventBody>(o, "body"@, x),
            EventView::Module(x) => with_field::<ModuleEventBody>(o, "body"@, x),
            EventView::Output(x) => with_field::<OutputEventBody>(o, "body"@, x),
            EventView::Process(x) => with_field::<ProcessEventBody>(o, "body"@, x),
            EventView::ProgressEnd(x) => with_field::<ProgressEndEventBody>(o, "body"@, x),
            EventView::ProgressStart(x) => with_field::<ProgressStartEventBody>(o, "body"@, x),
            EventView::ProgressUpdate(x) => with_field::<ProgressUpdateEventBody>(o, "body"@, x),
            EventView::Stopped(x) => with_field::<StoppedEventBody>(o, "body"@, x),
            EventView::Terminated(x) => with_field::<TerminatedEventBody>(o, "body"@, x),
            EventView::Thread(x) => with_field::<ThreadEventBody>(o, "body"@, x),
        }
    }

    /// The payload of an object: an empty object where the field is absent.
    pub open spec fn payload(o: JsonObject) -> Json {
        match field(o, "body"@) {
            Some(j) => j,
            None => Json::Object(empty_object()),
        }
    }

    /// What a payload decodes to under a event name, which is looked up by its
    /// place in the catalog.
    pub open spec fn decode_tagged(tag: Seq<char>, payload: Json) -> Result<
        EventView,
        DecodeErrorView,
    > {
        let place = Event::tag_index(tag);
        if place == 0 {
            match BreakpointEventBody::decode_json(payload) {
                Ok(x) => Ok(EventView::Breakpoint(x)),
                Err(e) => Err(e),
            }
        } else if place == 1 {
            match CapabilitiesEventBody::decode_json(payload) {
                Ok(x) => Ok(EventView::Capabilities(x)),
                Err(e) => Err(e),
            }
        } else if place == 2 {
            match ContinuedEventBody::decode_json(payload) {
                Ok(x) => Ok(EventView::Continued(x)),
                Err(e) => Err(e),
            }
        } else if place == 3 {
            match ExitedEventBody::decode_json(payload) {
                Ok(x) => Ok(EventView::Exited(x)),
                Err(e) => Err(e),
            }
        } else if place == 4 {
            Ok(EventView::Initialized)
        } else if place == 5 {
            match InvalidatedEventBody::decode_json(payload) {
                Ok(x) => Ok(EventView::Invalidated(x)),
                Err(e) => Err(e),
            }
        } else if place == 6 {
            match LoadedSourceEventBody::decode_json(payload) {
                Ok(x) => Ok(EventView::LoadedSource(x)),
                Err(e) => Err(e),
            }
        } else if place == 7 {
            match ModuleEventBody::decode_json(payload) {
                Ok(x) => Ok(EventView::Module(x)),
                Err(e) => Err(e),
            }
        } else if place == 8 {
            match OutputEventBody::decode_json(payload) {
                Ok(x) => Ok(EventView::Output(x)),
                Err(e) => Err(e),
            }
        } else if place == 9 {
            match ProcessEventBody::decode_json(payload) {
                Ok(x) => Ok(EventView::Process(x)),
                Err(e) => Err(e),
            }
        } else if place == 10 {
            match ProgressEndEventBody::decode_json(payload) {
                Ok(x) => Ok(EventView::ProgressEnd(x)),
                Err(e) => Err(e),
            }
        } else if place == 11 {
            match ProgressStartEventBody::decode_json(payload) {
                Ok(x) => Ok(EventView::ProgressStart(x)),
                Err(e) => Err(e),
            }
        } else if place == 12 {
            match ProgressUpdateEventBody::decode_json(payload) {
                Ok(x) => Ok(EventView::ProgressUpdate(x)),
                Err(e) => Err(e),
            }
        } else if place == 13 {
            match StoppedEventBody::decode_json(payload) {
                Ok(x) => Ok(EventView::Stopped(x)),
                Err(e) => Err(e),
            }
        } else if place == 14 {
            match TerminatedEventBody::decode_json(payload) {
                Ok(x) => Ok(EventView::Terminated(x)),
                Err(e) => Err(e),
            }
        } else if place == 15 {
            match ThreadEventBody::decode_json(payload) {
                Ok(x) => Ok(EventView::Thread(x)),
                Err(e) => Err(e),
            }
        } else {
            Err(DecodeErrorView::UnknownEvent(tag))
        }
    }

    /// What the fields of an object decode to.
    pub open spec fn decode_fields(o: JsonObject) -> Result<EventView, DecodeErrorView> {
        match req_field::<String>(o, "event"@) {
            Ok(tag) => Event::decode_tagged(tag, Event::payload(o)),
            Err(e) => Err(e),
        }
    }

    /// The event name of the value.
    pub fn name(&self) -> (r: &'static str)
        ensures
            r@ == Event::tag(self@),
    {
        match self {
            Event::Breakpoint(_) => "breakpoint",
            Event::Capabilities(_) => "capabilities",
            Event::Continued(_) => "continued",
            Event::Exited(_) => "exited",
            Event::Initialized => "initialized",
            Event::Invalidated(_) => "invalidated",
            Event::LoadedSource(_) => "loadedSource",
            Event::Module(_) => "module",
            Event::Output(_) => "output",
            Event::Process(_) => "process",
            Event::ProgressEnd(_) => "progressEnd",
            Event::ProgressStart(_) => "progressStart",
            Event::ProgressUpdate(_) => "progressUpdate",
            Event::Stopped(_) => "stopped",
            Event::Terminated(_) => "terminated",
            Event::Thread(_) => "thread",
        }
    }

    /// Writes the fields of the value into a fresh object.
    pub fn to_object(&self) -> (o: serde_json::Map<String, serde_json::Value>)
        ensures
            object_model(o) == Event::fields(self@),
    {
        let mut o = object_new();
        put_str(&mut o, "event", self.name());
        match self {
            Event::Breakpoint(x) => put::<BreakpointEventBody>(&mut o, "body", x),
            Event::Capabilities(x) => put::<CapabilitiesEventBody>(&mut o, "body", x),
            Event::Continued(x) => put::<ContinuedEventBody>(&mut o, "body", x),
            Event::Exited(x) => put::<ExitedEventBody>(&mut o, "body", x),
            Event::Initialized => {},
            Event::Invalidated(x) => put::<InvalidatedEventBody>(&mut o, "body", x),
            Event::LoadedSource(x) => put::<LoadedSourceEventBody>(&mut o, "body", x),
            Event::Module(x) => put::<ModuleEventBody>(&mut o, "body", x),
            Event::Output(x) => put::<OutputEventBody>(&mut o, "body", x),
            Event::Process(x) => put::<ProcessEventBody>(&mut o, "body", x),
            Event::ProgressEnd(x) => put::<ProgressEndEventBody>(&mut o, "body", x),
            Event::ProgressStart(x) => put::<ProgressStartEventBody>(&mut o, "body", x),
            Event::ProgressUpdate(x) => put::<ProgressUpdateEventBody>(&mut o, "body", x),
            Event::Stopped(x) => put::<StoppedEventBody>(&mut o, "body", x),
            Event::Terminated(x) => put::<TerminatedEventBody>(&mut o, "body", x),
            Event::Thread(x) => put::<ThreadEventBody>(&mut o, "body", x),
        }
        o
    }

    /// Reads a value from a payload under a event name.
    pub fn from_tagged(tag: &str, payload: &serde_json::Value) -> (r: Result<Event, DecodeError>)
        ensures
            match r {
                Ok(x) => Event::decode_tagged(tag@, json_model(*payload)) matches Ok(m) && m == x@,
                Err(e) => Event::decode_tagged(tag@, json_model(*payload)) matches Err(f) && f == e@,
            },
    {
        proof {
            reveal(Event::tag_index);
        }
        if str_eq(tag, "breakpoint") {
            match BreakpointEventBody::from_value(payload) {
                Ok(x) => Ok(Event::Breakpoint(x)),
                Err(e) => Err(e),
            }
        } else if str_eq(tag, "capabilities") {
            match CapabilitiesEventBody::from_value(payload) {
                Ok(x) => Ok(Event::Capabilities(x)),
                Err(e) => Err(e),
            }
        } else if str_eq(tag, "continued") {
            match ContinuedEventBody::from_value(payload) {
                Ok(x) => Ok(Event::Continued(x)),
                Err(e) => Err(e),
            }
        } else if str_eq(tag, "exited") {
            match ExitedEventBody::from_value(payload) {
                Ok(x) => Ok(Event::Exited(x)),
                Err(e) => Err(e),
            }
        } else if str_eq(tag, "initialized") {
            Ok(Event::Initialized)
        } else if str_eq(tag, "invalidated") {
            match InvalidatedEventBody::from_value(payload) {
                Ok(x) => Ok(Event::Invalidated(x)),
                Err(e) => Err(e),
            }
        } else if str_eq(tag, "loadedSource") {
            match LoadedSourceEventBody::from_value(payload) {
                Ok(x) => Ok(Event::LoadedSource(x)),
                Err(e) => Err(e),
            }
        } else if str_eq(tag, "module") {
            match ModuleEventBody::from_value(payload) {
                Ok(x) => Ok(Event::Module(x)),
                Err(e) => Err(e),
            }
        } else if str_eq(tag, "output") {
            match OutputEventBody::from_value(payload) {
                Ok(x) => Ok(Event::Output(x)),
                Err(e) => Err(e),
            }
        } else if str_eq(tag, "process") {
            match ProcessEventBody::from_value(payload) {
                Ok(x) => Ok(Event::Process(x)),
                Err(e) => Err(e),
            }
        } else if str_eq(tag, "progressEnd") {
            match ProgressEndEventBody::from_value(payload) {
                Ok(x) => Ok(Event::ProgressEnd(x)),
                Err(e) => Err(e),
            }
        } else if str_eq(tag, "progressStart") {
            match ProgressStartEventBody::from_value(payload) {
                Ok(x) => Ok(Event::ProgressStart(x)),
                Err(e) => Err(e),
            }
        } else if str_eq(tag, "progressUpdate") {
            match ProgressUpdateEventBody::from_value(payload) {
                Ok(x) => Ok(Event::ProgressUpdate(x)),
                Err(e) => Err(e),
            }
        } else if str_eq(tag, "stopped") {
            match StoppedEventBody::from_value(payload) {
                Ok(x) => Ok(Event::Stopped(x)),
                Err(e) => Err(e),
            }
        } else if str_eq(tag, "terminated") {
            match TerminatedEventBody::from_value(payload) {
                Ok(x) => Ok(Event::Terminated(x)),
                Err(e) => Err(e),
            }
        } else if str_eq(tag, "thread") {
            match ThreadEventBody::from_value(payload) {
                Ok(x) => Ok(Event::Thread(x)),
                Err(e) => Err(e),
            }
        } else {
            Err(DecodeError::UnknownEvent(tag.to_owned()))
        }
    }

    /// Reads a value from the fields of an object.
    pub fn from_object(o: &serde_json::Map<String, serde_json::Value>) -> (r: Result<
        Event,
        DecodeError,
    >)
        ensures
            match r {
                Ok(x) => Event::decode_fields(object_model(*o)) matches Ok(m) && m == x@,
                Err(e) => Event::decode_fields(object_model(*o)) matches Err(f) && f == e@,
            },
    {
        let tag = get_req::<String>(o, "event")?;
        match object_get(o, "body") {
            Some(payload) => Event::from_tagged(tag.as_str(), payload),
            None => {
                let empty = value_object(object_new());
                Event::from_tagged(tag.as_str(), &empty)
            },
        }
    }

    /// A event name that is not in the catalog is refused, and named in the
    /// failure.
    pub proof fn lemma_unknown_tag(o: JsonObject, tag: Seq<char>)
        requires
            field(o, "event"@) == Some(Json::Str(tag)),
            !Event::tags().contains(tag),
        ensures
            Event::decode_fields(o) == Err::<EventView, DecodeErrorView>(DecodeErrorView::UnknownEvent(tag)),
    {
        reveal(req_field);
        reveal(Event::tag_index);
    }

    /// A value decodes only from an object that bears its event name.
    pub proof fn lemma_decoded_tag(o: JsonObject)
        requires
            Event::decode_fields(o) is Ok,
        ensures
            field(o, "event"@) == Some(Json::Str(Event::tag(Event::decode_fields(o)->Ok_0))),
    {
        reveal(req_field);
        reveal(Event::tag_index);
    }

    /// Nothing is written but the known fields.
    pub proof fn lemma_writes_known_fields(m: EventView, key: Seq<char>)
        requires
            !Event::field_names().contains(key),
        ensures
            field(Event::fields(m), key) is None,
    {
        broadcast use group_field_rules;

    }
}

impl Wire for Event {
    type Model = EventView;

    open spec fn model(&self) -> EventView {
        self@
    }

    open spec fn wire_ok(m: EventView) -> bool {
        match m {
            EventView::Breakpoint(x) => BreakpointEventBody::wire_ok(x),
            EventView::LoadedSource(x) => LoadedSourceEventBody::wire_ok(x),
            EventView::Output(x) => OutputEventBody::wire_ok(x),
            EventView::Terminated(x) => TerminatedEventBody::wire_ok(x),
            _ => true,
        }
    }

    open spec fn encode_json(m: EventView) -> Json {
        Json::Object(Event::fields(m))
    }

    open spec fn decode_json(j: Json) -> Result<EventView, DecodeErrorView> {
        match j {
            Json::Object(o) => Event::decode_fields(o),
            _ => Err(DecodeErrorView::InvalidType),
        }
    }

    fn to_value(&self) -> (r: serde_json::Value) {
        value_object(self.to_object())
    }

    fn from_value(v: &serde_json::Value) -> (r: Result<Event, DecodeError>) {
        match value_as_object(v) {
            Some(o) => Event::from_object(o),
            None => Err(DecodeError::InvalidType),
        }
    }

    #[verifier::rlimit(60)]
    proof fn lemma_round_trip(m: EventView) {
        broadcast use group_field_rules;

        reveal(req_field);
        reveal_strlit("event");
        reveal_strlit("body");
        assert("event"@.len() == 5);
        assert("body"@.len() == 4);
        Event::lemma_tag_index();
        let o = Event::fields(m);
        match m {
            EventView::Breakpoint(x) => {
                BreakpointEventBody::lemma_round_trip(x);
                assert(Event::payload(o) == BreakpointEventBody::encode_json(x));
                assert(Event::decode_fields(o) matches Ok(back) && back == m);
            },
            EventView::Capabilities(x) => {
                CapabilitiesEventBody::lemma_round_trip(x);
                assert(Event::payload(o) == CapabilitiesEventBody::encode_json(x));
                assert(Event::decode_fields(o) matches Ok(back) && back == m);
            },
            EventView::Continued(x) => {
                ContinuedEventBody::lemma_round_trip(x);
                assert(Event::payload(o) == ContinuedEventBody::encode_json(x));
                assert(Event::decode_fields(o) matches Ok(back) && back == m);
            },
            EventView::Exited(x) => {
                ExitedEventBody::lemma_round_trip(x);
                assert(Event::payload(o) == ExitedEventBody::encode_json(x));
                assert(Event::decode_fields(o) matches Ok(back) && back == m);
            },
            EventView::Initialized => {
                assert(Event::decode_fields(o) matches Ok(back) && back == m);
            },
            EventView::Invalidated(x) => {
                InvalidatedEventBody::lemma_round_trip(x);
                assert(Event::payload(o) == InvalidatedEventBody::encode_json(x));
                assert(Event::decode_fields(o) matches Ok(back) && back == m);
            },
            EventView::LoadedSource(x) => {
                LoadedSourceEventBody::lemma_round_trip(x);
                assert(Event::payload(o) == LoadedSourceEventBody::encode_json(x));
                assert(Event::decode_fields(o) matches Ok(back) && back == m);
            },
            EventView::Module(x) => {
                ModuleEventBody::lemma_round_trip(x);
                assert(Event::payload(o) == ModuleEventBody::encode_json(x));
                assert(Event::decode_fields(o) matches Ok(back) && back == m);
            },
            EventView::Output(x) => {
                OutputEventBody::lemma_round_trip(x);
                assert(Event::payload(o) == OutputEventBody::encode_json(x));
                assert(Event::decode_fields(o) matches Ok(back) && back == m);
            },
            EventView::Process(x) => {
                ProcessEventBody::lemma_round_trip(x);
                assert(Event::payload(o) == ProcessEventBody::encode_json(x));
                assert(Event::decode_fields(o) matches Ok(back) && back == m);
            },
            EventView::ProgressEnd(x) => {
                ProgressEndEventBody::lemma_round_trip(x);
                assert(Event::payload(o) == ProgressEndEventBody::encode_json(x));
                assert(Event::decode_fields(o) matches Ok(back) && back == m);
            },
            EventView::ProgressStart(x) => {
                ProgressStartEventBody::lemma_round_trip(x);
                assert(Event::payload(o) == ProgressStartEventBody::encode_json(x));
                assert(Event::decode_fields(o) matches Ok(back) && back == m);
            },
            EventView::ProgressUpdate(x) => {
                ProgressUpdateEventBody::lemma_round_trip(x);
                assert(Event::payload(o) == ProgressUpdateEventBody::encode_json(x));
                assert(Event::decode_fields(o) matches Ok(back) && back == m);
            },
            EventView::Stopped(x) => {
                StoppedEventBody::lemma_round_trip(x);
                assert(Event::payload(o) == StoppedEventBody::encode_json(x));
                assert(Event::decode_fields(o) matches Ok(back) && back == m);
            },
            EventView::Terminated(x) => {
                TerminatedEventBody::lemma_round_trip(x);
                assert(Event::payload(o) == TerminatedEventBody::encode_json(x));
                assert(Event::decode_fields(o) matches Ok(back) && back == m);
            },
            EventView::Thread(x) => {
                ThreadEventBody::lemma_round_trip(x);
                assert(Event::payload(o) == ThreadEventBody::encode_json(x));
                assert(Event::decode_fields(o) matches Ok(back) && back == m);
            },
        }
    }
}

impl Record for Event {
    open spec fn field_names() -> Set<Seq<char>> {
        set!["event"@, "body"@]
    }

    proof fn lemma_unknown_field(o: JsonObject, key: Seq<char>, x: Json) {
        broadcast use group_field_rules;

        reveal(req_field);
    }
}

#[derive(Clone, Debug, PartialEq, Eq)]
pub struct BreakpointEventBody {
    /// The reason for the event.
    pub reason: BreakpointEventReason,

    /// The 'id' attribute is used to find the target breakpoint and the other attributes are used as the new values.
    pub breakpoint: Breakpoint,
}

/// The mathematical content of a [`BreakpointEventBody`].
pub struct BreakpointEventBodyView {
    pub reason: BreakpointEventReason,
    pub breakpoint: BreakpointView,
}

impl View for BreakpointEventBody {
    type V = BreakpointEventBodyView;

    open spec fn view(&self) -> BreakpointEventBodyView {
        BreakpointEventBodyView {
            reason: self.reason,
            breakpoint: self.breakpoint.model(),
        }
    }
}

impl BreakpointEventBody {
    /// The fields that are written for a value.
    pub open spec fn fields(m: BreakpointEventBodyView) -> JsonObject {
        let o = empty_object();
        let o = with_field::<BreakpointEventReason>(o, "reason"@, m.reason);
        let o = with_field::<Breakpoint>(o, "breakpoint"@, m.breakpoint);
        o
    }

    /// What the fields of an object decode to: the first failure in the order of
    /// the fields, or the value.
    pub open spec fn decode_fields(o: JsonObject) -> Result<BreakpointEventBodyView, DecodeErrorView> {
        let reason = req_field::<BreakpointEventReason>(o, "reason"@);
        let breakpoint = req_field::<Breakpoint>(o, "breakpoint"@);
        if reason is Err {
            Err(reason->Err_0)
        } else if breakpoint is Err {
            Err(breakpoint->Err_0)
        } else {
            Ok(BreakpointEventBodyView {
                reason: reason->Ok_0,
                breakpoint: breakpoint->Ok_0,
            })
        }
    }

    /// Writes the fields of the value into a fresh object.
    pub fn to_object(&self) -> (o: serde_json::Map<String, serde_json::Value>)
        ensures
            object_model(o) == BreakpointEventBody::fields(self@),
    {
        let mut o = object_new();
        put::<BreakpointEventReason>(&mut o, "reason", &self.reason);
        put::<Breakpoint>(&mut o, "breakpoint", &self.breakpoint);
        o
    }

    /// Reads a value from the fields of an object.
    pub fn from_object(o: &serde_json::Map<String, serde_json::Value>) -> (r: Result<
        BreakpointEventBody,
        DecodeError,
    >)
        ensures
            match r {
                Ok(x) => BreakpointEventBody::decode_fields(object_model(*o)) matches Ok(m) && m == x.model(),
                Err(e) => BreakpointEventBody::decode_fields(object_model(*o)) matches Err(f) && f == e@,
            },
    {
        let reason = get_req::<BreakpointEventReason>(o, "reason")?;
        let breakpoint = get_req::<Breakpoint>(o, "breakpoint")?;
        Ok(BreakpointEventBody { reason, breakpoint })
    }
}

impl Wire for BreakpointEventBody {
    type Model = BreakpointEventBodyView;

    open spec fn model(&self) -> BreakpointEventBodyView {
        self@
    }

    open spec fn wire_ok(m: BreakpointEventBodyView) -> bool {
        &&& Breakpoint::wire_ok(m.breakpoint)
    }

    open spec fn encode_json(m: BreakpointEventBodyView) -> Json {
        Json::Object(BreakpointEventBody::fields(m))
    }

    open spec fn decode_json(j: Json) -> Result<BreakpointEventBodyView, DecodeErrorView> {
        match j {
            Json::Object(o) => BreakpointEventBody::decode_fields(o),
            _ => Err(DecodeErrorView::InvalidType),
        }
    }

    fn to_value(&self) -> (r: serde_json::Value) {
        value_object(self.to_object())
    }

    fn from_value(v: &serde_json::Value) -> (r: Result<BreakpointEventBody, DecodeError>) {
        match value_as_object(v) {
            Some(o) => BreakpointEventBody::from_object(o),
            None => Err(DecodeError::InvalidType),
        }
    }

    proof fn lemma_round_trip(m: BreakpointEventBodyView) {
        broadcast use group_field_rules;

        reveal(req_field);
        reveal_strlit("reason");
        reveal_strlit("breakpoint");
        assert("reason"@.len() == 6);
        assert("breakpoint"@.len() == 10);
        let o = BreakpointEventBody::fields(m);
        BreakpointEventReason::lemma_round_trip(m.reason);
        assert(req_field::<BreakpointEventReason>(o, "reason"@) matches Ok(v) && v == m.reason);
        Breakpoint::lemma_round_trip(m.breakpoint);
        assert(req_field::<Breakpoint>(o, "breakpoint"@) matches Ok(v) && v == m.breakpoint);
    }
}

impl Record for BreakpointEventBody {
    open spec fn field_names() -> Set<Seq<char>> {
        set!["reason"@, "breakpoint"@]
    }

    proof fn lemma_unknown_field(o: JsonObject, key: Seq<char>, x: Json) {
        broadcast use group_field_rules;

        reveal(req_field);
    }
}

/// The reason for the event.
#[derive(Clone, Copy, Debug, PartialEq, Eq, Structural)]
pub enum BreakpointEventReason {
    Changed,
    New,
    Removed,
}

impl BreakpointEventReason {
    /// The name under which the value travels.
    pub open spec fn name(self) -> Seq<char> {
        match self {
            BreakpointEventReason::Changed => "changed"@,
            BreakpointEventReason::New => "new"@,
            BreakpointEventReason::Removed => "removed"@,
        }
    }

    /// The value that travels under `s`, if there is one.
    pub open spec fn named(s: Seq<char>) -> Option<BreakpointEventReason> {
        if s == "changed"@ {
            Some(BreakpointEventReason::Changed)
        } else if s == "new"@ {
            Some(BreakpointEventReason::New)
        } else if s == "removed"@ {
            Some(BreakpointEventReason::Removed)
        } else {
            None
        }
    }

    pub fn as_str(&self) -> (r: &'static str)
        ensures
            r@ == self.name(),
    {
        match self {
            BreakpointEventReason::Changed => "changed",
            BreakpointEventReason::New => "new",
            BreakpointEventReason::Removed => "removed",
        }
    }

    pub fn from_name(s: &str) -> (r: Option<BreakpointEventReason>)
        ensures
            r == BreakpointEventReason::named(s@),
    {
        if str_eq(s, "changed") {
            Some(BreakpointEventReason::Changed)
        } else if str_eq(s, "new") {
            Some(BreakpointEventReason::New)
        } else if str_eq(s, "removed") {
            Some(BreakpointEventReason::Removed)
        } else {
            None
        }
    }

    /// Every value is found again under its name.
    pub proof fn lemma_named(self)
        ensures
            BreakpointEventReason::named(self.name()) == Some(self),
    {
        reveal_strlit("changed");
        reveal_strlit("new");
        reveal_strlit("removed");
        assert("changed"@.len() == 7);
        assert("new"@.len() == 3);
        assert("removed"@.len() == 7);
        assert("changed"@[0] != "removed"@[0]);
    }
}

impl Wire for BreakpointEventReason {
    type Model = BreakpointEventReason;

    open spec fn model(&self) -> BreakpointEventReason {
        *self
    }

    open spec fn wire_ok(m: BreakpointEventReason) -> bool {
        true
    }

    open spec fn encode_json(m: BreakpointEventReason) -> Json {
        Json::Str(m.name())
    }

    open spec fn decode_json(j: Json) -> Result<BreakpointEventReason, DecodeErrorView> {
        match j {
            Json::Str(s) => match BreakpointEventReason::named(s) {
                Some(x) => Ok(x),
                None => Err(DecodeErrorView::InvalidType),
            },
            _ => Err(DecodeErrorView::InvalidType),
        }
    }

    fn to_value(&self) -> (r: serde_json::Value) {
        value_string(self.as_str().to_owned())
    }

    fn from_value(v: &serde_json::Value) -> (r: Result<BreakpointEventReason, DecodeError>) {
        match value_as_str(v) {
            Some(s) => match BreakpointEventReason::from_name(s) {
                Some(x) => Ok(x),
                None => Err(DecodeError::InvalidType),
            },
            None => Err(DecodeError::InvalidType),
        }
    }

    proof fn lemma_round_trip(m: BreakpointEventReason) {
        m.lemma_named();
    }
}

#[derive(Clone, Debug, PartialEq, Eq)]
pub struct CapabilitiesEventBody {
    /// The set of updated capabilities.
    pub capabilities: Capabilities,
}

/// The mathematical content of a [`CapabilitiesEventBody`].
pub struct CapabilitiesEventBodyView {
    pub capabilities: CapabilitiesView,
}

impl View for CapabilitiesEventBody {
    type V = CapabilitiesEventBodyView;

    open spec fn view(&self) -> CapabilitiesEventBodyView {
        CapabilitiesEventBodyView {
            capabilities: self.capabilities.model(),
        }
    }
}

impl CapabilitiesEventBody {
    /// The fields that are written for a value.
    pub open spec fn fields(m: CapabilitiesEventBodyView) -> JsonObject {
        let o = empty_object();
        let o = with_field::<Capabilities>(o, "capabilities"@, m.capabilities);
        o
    }

    /// What the fields of an object decode to: the first failure in the order of
    /// the fields, or the value.
    pub open spec fn decode_fields(o: JsonObject) -> Result<CapabilitiesEventBodyView, DecodeErrorView> {
        let capabilities = req_field::<Capabilities>(o, "capabilities"@);
        if capabilities is Err {
            Err(capabilities->Err_0)
        } else {
            Ok(CapabilitiesEventBodyView {
                capabilities: capabilities->Ok_0,
            })
        }
    }

    /// Writes the fields of the value into a fresh object.
    pub fn to_object(&self) -> (o: serde_json::Map<String, serde_json::Value>)
        ensures
            object_model(o) == CapabilitiesEventBody::fields(self@),
    {
        let mut o = object_new();
        put::<Capabilities>(&mut o, "capabilities", &self.capabilities);
        o
    }

    /// Reads a value from the fields of an object.
    pub fn from_object(o: &serde_json::Map<String, serde_json::Value>) -> (r: Result<
        CapabilitiesEventBody,
        DecodeError,
    >)
        ensures
            match r {
                Ok(x) => CapabilitiesEventBody::decode_fields(object_model(*o)) matches Ok(m) && m == x.model(),
                Err(e) => CapabilitiesEventBody::decode_fields(object_model(*o)) matches Err(f) && f == e@,
            },
    {
        let capabilities = get_req::<Capabilities>(o, "capabilities")?;
        Ok(CapabilitiesEventBody { capabilities })
    }
}

impl Wire for CapabilitiesEventBody {
    type Model = CapabilitiesEventBodyView;

    open spec fn model(&self) -> CapabilitiesEventBodyView {
        self@
    }

    open spec fn wire_ok(m: CapabilitiesEventBodyView) -> bool {
        true
    }

    open spec fn encode_json(m: CapabilitiesEventBodyView) -> Json {
        Json::Object(CapabilitiesEventBody::fields(m))
    }

    open spec fn decode_json(j: Json) -> Result<CapabilitiesEventBodyView, DecodeErrorView> {
        match j {
            Json::Object(o) => CapabilitiesEventBody::decode_fields(o),
            _ => Err(DecodeErrorView::InvalidType),
        }
    }

    fn to_value(&self) -> (r: serde_json::Value) {
        value_object(self.to_object())
    }

    fn from_value(v: &serde_json::Value) -> (r: Result<CapabilitiesEventBody, DecodeError>) {
        match value_as_object(v) {
            Some(o) => CapabilitiesEventBody::from_object(o),
            None => Err(DecodeError::InvalidType),
        }
    }

    proof fn lemma_round_trip(m: CapabilitiesEventBodyView) {
        broadcast use group_field_rules;

        reveal(req_field);
        reveal_strlit("capabilities");
        assert("capabilities"@.len() == 12);
        let o = CapabilitiesEventBody::fields(m);
        Capabilities::lemma_round_trip(m.capabilities);
        assert(req_field::<Capabilities>(o, "capabilities"@) matches Ok(v) && v == m.capabilities);
    }
}

impl Record for CapabilitiesEventBody {
    open spec fn field_names() -> Set<Seq<char>> {
        set!["capabilities"@]
    }

    proof fn lemma_unknown_field(o: JsonObject, key: Seq<char>, x: Json) {
        broadcast use group_field_rules;

        reveal(req_field);
    }
}

#[derive(Clone, Debug, PartialEq, Eq)]
pub struct ContinuedEventBody {
    /// The thread which was continued.
    pub thread_id: i32,

    /// If 'allThreadsContinued' is true, a debug adapter can announce that all threads have continued.
    pub all_threads_continued: bool,
}

impl ContinuedEventBody {
    /// The fields that are written for a value.
    pub open spec fn fields(m: ContinuedEventBody) -> JsonObject {
        let o = empty_object();
        let o = with_field::<i32>(o, "threadId"@, m.thread_id);
        let o = with_nondefault_field::<bool>(o, "allThreadsContinued"@, m.all_threads_continued, false);
        o
    }

    /// What the fields of an object decode to: the first failure in the order of
    /// the fields, or the value.
    pub open spec fn decode_fields(o: JsonObject) -> Result<ContinuedEventBody, DecodeErrorView> {
        let thread_id = req_field::<i32>(o, "threadId"@);
        let all_threads_continued = default_field::<bool>(o, "allThreadsContinued"@, false);
        if thread_id is Err {
            Err(thread_id->Err_0)
        } else if all_threads_continued is Err {
            Err(all_threads_continued->Err_0)
        } else {
            Ok(ContinuedEventBody {
                thread_id: thread_id->Ok_0,
                all_threads_continued: all_threads_continued->Ok_0,
            })
        }
    }

    /// Writes the fields of the value into a fresh object.
    pub fn to_object(&self) -> (o: serde_json::Map<String, serde_json::Value>)
        ensures
            object_model(o) == ContinuedEventBody::fields(*self),
    {
        let mut o = object_new();
        put::<i32>(&mut o, "threadId", &self.thread_id);
        put_flag(&mut o, "allThreadsContinued", self.all_threads_continued);
        o
    }

    /// Reads a value from the fields of an object.
    pub fn from_object(o: &serde_json::Map<String, serde_json::Value>) -> (r: Result<
        ContinuedEventBody,
        DecodeError,
    >)
        ensures
            match r {
                Ok(x) => ContinuedEventBody::decode_fields(object_model(*o)) matches Ok(m) && m == x.model(),
                Err(e) => ContinuedEventBody::decode_fields(object_model(*o)) matches Err(f) && f == e@,
            },
    {
        let thread_id = get_req::<i32>(o, "threadId")?;
        let all_threads_continued = get_or::<bool>(o, "allThreadsContinued", false)?;
        Ok(ContinuedEventBody { thread_id, all_threads_continued })
    }
}

impl Wire for ContinuedEventBody {
    type Model = ContinuedEventBody;

    open spec fn model(&self) -> ContinuedEventBody {
        *self
    }

    open spec fn wire_ok(m: ContinuedEventBody) -> bool {
        true
    }

    open spec fn encode_json(m: ContinuedEventBody) -> Json {
        Json::Object(ContinuedEventBody::fields(m))
    }

    open spec fn decode_json(j: Json) -> Result<ContinuedEventBody, DecodeErrorView> {
        match j {
            Json::Object(o) => ContinuedEventBody::decode_fields(o),
            _ => Err(DecodeErrorView::InvalidType),
        }
    }

    fn to_value(&self) -> (r: serde_json::Value) {
        value_object(self.to_object())
    }

    fn from_value(v: &serde_json::Value) -> (r: Result<ContinuedEventBody, DecodeError>) {
        match value_as_object(v) {
            Some(o) => ContinuedEventBody::from_object(o),
            None => Err(DecodeError::InvalidType),
        }
    }

    proof fn lemma_round_trip(m: ContinuedEventBody) {
        broadcast use group_field_rules;

        reveal(default_field);
        reveal(req_field);
        reveal_strlit("threadId");
        reveal_strlit("allThreadsContinued");
        assert("threadId"@.len() == 8);
        assert("allThreadsContinued"@.len() == 19);
        let o = ContinuedEventBody::fields(m);
        i32::lemma_round_trip(m.thread_id);
        assert(req_field::<i32>(o, "threadId"@) matches Ok(v) && v == m.thread_id);
        bool::lemma_round_trip(m.all_threads_continued);
        assert(default_field::<bool>(o, "allThreadsContinued"@, false) matches Ok(v) && v == m.all_threads_continued);
    }
}

impl Record for ContinuedEventBody {
    open spec fn field_names() -> Set<Seq<char>> {
        set!["threadId"@, "allThreadsContinued"@]
    }

    proof fn lemma_unknown_field(o: JsonObject, key: Seq<char>, x: Json) {
        broadcast use group_field_rules;

        reveal(default_field);
        reveal(req_field);
    }
}

impl Defaults for ContinuedEventBody {
    open spec fn elidable_names() -> Set<Seq<char>> {
        set!["allThreadsContinued"@]
    }

    open spec fn at_defaults(m: ContinuedEventBody) -> bool {
        &&& !m.all_threads_continued
    }

    proof fn lemma_defaults_elided(m: ContinuedEventBody, key: Seq<char>) {
        broadcast use group_field_rules;

        reveal_strlit("threadId");
        reveal_strlit("allThreadsContinued");
        assert("threadId"@.len() == 8);
        assert("allThreadsContinued"@.len() == 19);
    }
}

#[derive(Clone, Debug, PartialEq, Eq)]
pub struct ExitedEventBody {
    /// The exit code returned from the debuggee.
    pub exit_code: i32,
}

impl ExitedEventBody {
    /// The fields that are written for a value.
    pub open spec fn fields(m: ExitedEventBody) -> JsonObject {
        let o = empty_object();
        let o = with_field::<i32>(o, "exitCode"@, m.exit_code);
        o
    }

    /// What the fields of an object decode to: the first failure in the order of
    /// the fields, or the value.
    pub open spec fn decode_fields(o: JsonObject) -> Result<ExitedEventBody, DecodeErrorView> {
        let exit_code = req_field::<i32>(o, "exitCode"@);
        if exit_code is Err {
            Err(exit_code->Err_0)
        } else {
            Ok(ExitedEventBody {
                exit_code: exit_code->Ok_0,
            })
        }
    }

    /// Writes the fields of the value into a fresh object.
    pub fn to_object(&self) -> (o: serde_json::Map<String, serde_json::Value>)
        ensures
            object_model(o) == ExitedEventBody::fields(*self),
    {
        let mut o = object_new();
        put::<i32>(&mut o, "exitCode", &self.exit_code);
        o
    }

    /// Reads a value from the fields of an object.
    pub fn from_object(o: &serde_json::Map<String, serde_json::Value>) -> (r: Result<
        ExitedEventBody,
        DecodeError,
    >)
        ensures
            match r {
                Ok(x) => ExitedEventBody::decode_fields(object_model(*o)) matches Ok(m) && m == x.model(),
                Err(e) => ExitedEventBody::decode_fields(object_model(*o)) matches Err(f) && f == e@,
            },
    {
        let exit_code = get_req::<i32>(o, "exitCode")?;
        Ok(ExitedEventBody { exit_code })
    }
}

impl Wire for ExitedEventBody {
    type Model = ExitedEventBody;

    open spec fn model(&self) -> ExitedEventBody {
        *self
    }

    open spec fn wire_ok(m: ExitedEventBody) -> bool {
        true
    }

    open spec fn encode_json(m: ExitedEventBody) -> Json {
        Json::Object(ExitedEventBody::fields(m))
    }

    open spec fn decode_json(j: Json) -> Result<ExitedEventBody, DecodeErrorView> {
        match j {
            Json::Object(o) => ExitedEventBody::decode_fields(o),
            _ => Err(DecodeErrorView::InvalidType),
        }
    }

    fn to_value(&self) -> (r: serde_json::Value) {
        value_object(self.to_object())
    }

    fn from_value(v: &serde_json::Value) -> (r: Result<ExitedEventBody, DecodeError>) {
        match value_as_object(v) {
            Some(o) => ExitedEventBody::from_object(o),
            None => Err(DecodeError::InvalidType),
        }
    }

    proof fn lemma_round_trip(m: ExitedEventBody) {
        broadcast use group_field_rules;

        reveal(req_field);
        reveal_strlit("exitCode");
        assert("exitCode"@.len() == 8);
        let o = ExitedEventBody::fields(m);
        i32::lemma_round_trip(m.exit_code);
        assert(req_field::<i32>(o, "exitCode"@) matches Ok(v) && v == m.exit_code);
    }
}

impl Record for ExitedEventBody {
    open spec fn field_names() -> Set<Seq<char>> {
        set!["exitCode"@]
    }

    proof fn lemma_unknown_field(o: JsonObject, key: Seq<char>, x: Json) {
        broadcast use group_field_rules;

        reveal(req_field);
    }
}

#[derive(Clone, Debug, PartialEq, Eq)]
pub struct InvalidatedEventBody {
    /// Optional set of logical areas that got invalidated. This property has a hint characteristic: a client can only be expected to make a 'best effort' in honouring the areas but there are no guarantees. If this property is missing, empty, or if values are not understand the client should assume a single value 'all'.
    pub areas: Vec<InvalidatedAreas>,

    /// If specified, the client only needs to refetch data related to this thread.
    pub thread_id: Option<i32>,

    /// If specified, the client only needs to refetch data related to this stack frame (and the 'threadId' is ignored).
    pub stack_frame_id: Option<i32>,
}

/// The mathematical content of a [`InvalidatedEventBody`].
pub struct InvalidatedEventBodyView {
    pub areas: Seq<InvalidatedAreas>,
    pub thread_id: Option<i32>,
    pub stack_frame_id: Option<i32>,
}

impl View for InvalidatedEventBody {
    type V = InvalidatedEventBodyView;

    open spec fn view(&self) -> InvalidatedEventBodyView {
        InvalidatedEventBodyView {
            areas: self.areas.model(),
            thread_id: self.thread_id.model(),
            stack_frame_id: self.stack_frame_id.model(),
        }
    }
}

impl InvalidatedEventBody {
    /// The fields that are written for a value.
    pub open spec fn fields(m: InvalidatedEventBodyView) -> JsonObject {
        let o = empty_object();
        let o = with_nondefault_field::<Vec<InvalidatedAreas>>(o, "areas"@, m.areas, Seq::empty());
        let o = with_opt_field::<i32>(o, "threadId"@, m.thread_id);
        let o = with_opt_field::<i32>(o, "stackFrameId"@, m.stack_frame_id);
        o
    }

    /// What the fields of an object decode to: the first failure in the order of
    /// the fields, or the value.
    pub open spec fn decode_fields(o: JsonObject) -> Result<InvalidatedEventBodyView, DecodeErrorView> {
        let areas = default_field::<Vec<InvalidatedAreas>>(o, "areas"@, Seq::empty());
        let thread_id = opt_field::<i32>(o, "threadId"@);
        let stack_frame_id = opt_field::<i32>(o, "stackFrameId"@);
        if areas is Err {
            Err(areas->Err_0)
        } else if thread_id is Err {
            Err(thread_id->Err_0)
        } else if stack_frame_id is Err {
            Err(stack_frame_id->Err_0)
        } else {
            Ok(InvalidatedEventBodyView {
                areas: areas->Ok_0,
                thread_id: thread_id->Ok_0,
                stack_frame_id: stack_frame_id->Ok_0,
            })
        }
    }

    /// Writes the fields of the value into a fresh object.
    pub fn to_object(&self) -> (o: serde_json::Map<String, serde_json::Value>)
        ensures
            object_model(o) == InvalidatedEventBody::fields(self@),
    {
        let mut o = object_new();
        put_nonempty::<InvalidatedAreas>(&mut o, "areas", &self.areas);
        put_opt::<i32>(&mut o, "threadId", &self.thread_id);
        put_opt::<i32>(&mut o, "stackFrameId", &self.stack_frame_id);
        o
    }

    /// Reads a value from the fields of an object.
    pub fn from_object(o: &serde_json::Map<String, serde_json::Value>) -> (r: Result<
        InvalidatedEventBody,
        DecodeError,
    >)
        ensures
            match r {
                Ok(x) => InvalidatedEventBody::decode_fields(object_model(*o)) matches Ok(m) && m == x.model(),
                Err(e) => InvalidatedEventBody::decode_fields(object_model(*o)) matches Err(f) && f == e@,
            },
    {
        let areas = get_or_empty::<InvalidatedAreas>(o, "areas")?;
        let thread_id = get_opt::<i32>(o, "threadId")?;
        let stack_frame_id = get_opt::<i32>(o, "stackFrameId")?;
        Ok(InvalidatedEventBody { areas, thread_id, stack_frame_id })
    }
}

impl Wire for InvalidatedEventBody {
    type Model = InvalidatedEventBodyView;

    open spec fn model(&self) -> InvalidatedEventBodyView {
        self@
    }

    open spec fn wire_ok(m: InvalidatedEventBodyView) -> bool {
        true
    }

    open spec fn encode_json(m: InvalidatedEventBodyView) -> Json {
        Json::Object(InvalidatedEventBody::fields(m))
    }

    open spec fn decode_json(j: Json) -> Result<InvalidatedEventBodyView, DecodeErrorView> {
        match j {
            Json::Object(o) => InvalidatedEventBody::decode_fields(o),
            _ => Err(DecodeErrorView::InvalidType),
        }
    }

    fn to_value(&self) -> (r: serde_json::Value) {
        value_object(self.to_object())
    }

    fn from_value(v: &serde_json::Value) -> (r: Result<InvalidatedEventBody, DecodeError>) {
        match value_as_object(v) {
            Some(o) => InvalidatedEventBody::from_object(o),
            None => Err(DecodeError::InvalidType),
        }
    }

    proof fn lemma_round_trip(m: InvalidatedEventBodyView) {
        broadcast use group_field_rules;

        reveal(default_field);
        reveal(opt_field);
        reveal_strlit("areas");
        reveal_strlit("threadId");
        reveal_strlit("stackFrameId");
        assert("areas"@.len() == 5);
        assert("threadId"@.len() == 8);
        assert("stackFrameId"@.len() == 12);
        let o = InvalidatedEventBody::fields(m);
        Vec::<InvalidatedAreas>::lemma_round_trip(m.areas);
        assert(default_field::<Vec<InvalidatedAreas>>(o, "areas"@, Seq::empty()) matches Ok(v) && v == m.areas);
        Option::<i32>::lemma_round_trip(m.thread_id);
        assert(opt_field::<i32>(o, "threadId"@) matches Ok(v) && v == m.thread_id);
        Option::<i32>::lemma_round_trip(m.stack_frame_id);
        assert(opt_field::<i32>(o, "stackFrameId"@) matches Ok(v) && v == m.stack_frame_id);
    }
}

impl Record for InvalidatedEventBody {
    open spec fn field_names() -> Set<Seq<char>> {
        set!["areas"@, "threadId"@, "stackFrameId"@]
    }

    proof fn lemma_unknown_field(o: JsonObject, key: Seq<char>, x: Json) {
        broadcast use group_field_rules;

        reveal(default_field);
        reveal(opt_field);
    }
}

impl Defaults for InvalidatedEventBody {
    open spec fn elidable_names() -> Set<Seq<char>> {
        set!["areas"@, "threadId"@, "stackFrameId"@]
    }

    open spec fn at_defaults(m: InvalidatedEventBodyView) -> bool {
        &&& m.areas == Seq::<InvalidatedAreas>::empty()
        &&& m.thread_id is None
        &&& m.stack_frame_id is None
    }

    proof fn lemma_defaults_elided(m: InvalidatedEventBodyView, key: Seq<char>) {
        broadcast use group_field_rules;

        reveal_strlit("areas");
        reveal_strlit("threadId");
        reveal_strlit("stackFrameId");
        assert("areas"@.len() == 5);
        assert("threadId"@.len() == 8);
        assert("stackFrameId"@.len() == 12);
    }
}

#[derive(Clone, Debug, PartialEq, Eq)]
pub struct LoadedSourceEventBody {
    /// The reason for the event.
    pub reason: LoadedSourceEventReason,

    /// The new, changed, or removed source.
    pub source: Source,
}

/// The mathematical content of a [`LoadedSourceEventBody`].
pub struct LoadedSourceEventBodyView {
    pub reason: LoadedSourceEventReason,
    pub source: SourceView,
}

impl View for LoadedSourceEventBody {
    type V = LoadedSourceEventBodyView;

    open spec fn view(&self) -> LoadedSourceEventBodyView {
        LoadedSourceEventBodyView {
            reason: self.reason,
            source: self.source.model(),
        }
    }
}

impl LoadedSourceEventBody {
    /// The fields that are written for a value.
    pub open spec fn fields(m: LoadedSourceEventBodyView) -> JsonObject {
        let o = empty_object();
        let o = with_field::<LoadedSourceEventReason>(o, "reason"@, m.reason);
        let o = with_field::<Source>(o, "source"@, m.source);
        o
    }

    /// What the fields of an object decode to: the first failure in the order of
    /// the fields, or the value.
    pub open spec fn decode_fields(o: JsonObject) -> Result<LoadedSourceEventBodyView, DecodeErrorView> {
        let reason = req_field::<LoadedSourceEventReason>(o, "reason"@);
        let source = req_field::<Source>(o, "source"@);
        if reason is Err {
            Err(reason->Err_0)
        } else if source is Err {
            Err(source->Err_0)
        } else {
            Ok(LoadedSourceEventBodyView {
                reason: reason->Ok_0,
                source: source->Ok_0,
            })
        }
    }

    /// Writes the fields of the value into a fresh object.
    pub fn to_object(&self) -> (o: serde_json::Map<String, serde_json::Value>)
        ensures
            object_model(o) == LoadedSourceEventBody::fields(self@),
    {
        let mut o = object_new();
        put::<LoadedSourceEventReason>(&mut o, "reason", &self.reason);
        put::<Source>(&mut o, "source", &self.source);
        o
    }

    /// Reads a value from the fields of an object.
    pub fn from_object(o: &serde_json::Map<String, serde_json::Value>) -> (r: Result<
        LoadedSourceEventBody,
        DecodeError,
    >)
        ensures
            match r {
                Ok(x) => LoadedSourceEventBody::decode_fields(object_model(*o)) matches Ok(m) && m == x.model(),
                Err(e) => LoadedSourceEventBody::decode_fields(object_model(*o)) matches Err(f) && f == e@,
            },
    {
        let reason = get_req::<LoadedSourceEventReason>(o, "reason")?;
        let source = get_req::<Source>(o, "source")?;
        Ok(LoadedSourceEventBody { reason, source })
    }
}

impl Wire for LoadedSourceEventBody {
    type Model = LoadedSourceEventBodyView;

    open spec fn model(&self) -> LoadedSourceEventBodyView {
        self@
    }

    open spec fn wire_ok(m: LoadedSourceEventBodyView) -> bool {
        &&& Source::wire_ok(m.source)
    }

    open spec fn encode_json(m: LoadedSourceEventBodyView) -> Json {
        Json::Object(LoadedSourceEventBody::fields(m))
    }

    open spec fn decode_json(j: Json) -> Result<LoadedSourceEventBodyView, DecodeErrorView> {
        match j {
            Json::Object(o) => LoadedSourceEventBody::decode_fields(o),
            _ => Err(DecodeErrorView::InvalidType),
        }
    }

    fn to_value(&self) -> (r: serde_json::Value) {
        value_object(self.to_object())
    }

    fn from_value(v: &serde_json::Value) -> (r: Result<LoadedSourceEventBody, DecodeError>) {
        match value_as_object(v) {
            Some(o) => LoadedSourceEventBody::from_object(o),
            None => Err(DecodeError::InvalidType),
        }
    }

    proof fn lemma_round_trip(m: LoadedSourceEventBodyView) {
        broadcast use group_field_rules;

        reveal(req_field);
        reveal_strlit("reason");
        reveal_strlit("source");
        assert("reason"@.len() == 6);
        assert("source"@.len() == 6);
        assert("reason"@[0] != "source"@[0]);
        let o = LoadedSourceEventBody::fields(m);
        LoadedSourceEventReason::lemma_round_trip(m.reason);
        assert(req_field::<LoadedSourceEventReason>(o, "reason"@) matches Ok(v) && v == m.reason);
        Source::lemma_round_trip(m.source);
        assert(req_field::<Source>(o, "source"@) matches Ok(v) && v == m.source);
    }
}

impl Record for LoadedSourceEventBody {
    open spec fn field_names() -> Set<Seq<char>> {
        set!["reason"@, "source"@]
    }

    proof fn lemma_unknown_field(o: JsonObject, key: Seq<char>, x: Json) {
        broadcast use group_field_rules;

        reveal(req_field);
    }
}

/// The reason for the event.
#[derive(Clone, Copy, Debug, PartialEq, Eq, Structural)]
pub enum LoadedSourceEventReason {
    New,
    Changed,
    Removed,
}

impl LoadedSourceEventReason {
    /// The name under which the value travels.
    pub open spec fn name(self) -> Seq<char> {
        match self {
            LoadedSourceEventReason::New => "new"@,
            LoadedSourceEventReason::Changed => "changed"@,
            LoadedSourceEventReason::Removed => "removed"@,
        }
    }

    /// The value that travels under `s`, if there is one.
    pub open spec fn named(s: Seq<char>) -> Option<LoadedSourceEventReason> {
        if s == "new"@ {
            Some(LoadedSourceEventReason::New)
        } else if s == "changed"@ {
            Some(LoadedSourceEventReason::Changed)
        } else if s == "removed"@ {
            Some(LoadedSourceEventReason::Removed)
        } else {
            None
        }
    }

    pub fn as_str(&self) -> (r: &'static str)
        ensures
            r@ == self.name(),
    {
        match self {
            LoadedSourceEventReason::New => "new",
            LoadedSourceEventReason::Changed => "changed",
            LoadedSourceEventReason::Removed => "removed",
        }
    }

    pub fn from_name(s: &str) -> (r: Option<LoadedSourceEventReason>)
        ensures
            r == LoadedSourceEventReason::named(s@),
    {
        if str_eq(s, "new") {
            Some(LoadedSourceEventReason::New)
        } else if str_eq(s, "changed") {
            Some(LoadedSourceEventReason::Changed)
        } else if str_eq(s, "removed") {
            Some(LoadedSourceEventReason::Removed)
        } else {
            None
        }
    }

    /// Every value is found again under its name.
    pub proof fn lemma_named(self)
        ensures
            LoadedSourceEventReason::named(self.name()) == Some(self),
    {
        reveal_strlit("new");
        reveal_strlit("changed");
        reveal_strlit("removed");
        assert("new"@.len() == 3);
        assert("changed"@.len() == 7);
        assert("removed"@.len() == 7);
        assert("changed"@[0] != "removed"@[0]);
    }
}

impl Wire for LoadedSourceEventReason {
    type Model = LoadedSourceEventReason;

    open spec fn model(&self) -> LoadedSourceEventReason {
        *self
    }

    open spec fn wire_ok(m: LoadedSourceEventReason) -> bool {
        true
    }

    open spec fn encode_json(m: LoadedSourceEventReason) -> Json {
        Json::Str(m.name())
    }

    open spec fn decode_json(j: Json) -> Result<LoadedSourceEventReason, DecodeErrorView> {
        match j {
            Json::Str(s) => match LoadedSourceEventReason::named(s) {
                Some(x) => Ok(x),
                None => Err(DecodeErrorView::InvalidType),
            },
            _ => Err(DecodeErrorView::InvalidType),
        }
    }

    fn to_value(&self) -> (r: serde_json::Value) {
        value_string(self.as_str().to_owned())
    }

    fn from_value(v: &serde_json::Value) -> (r: Result<LoadedSourceEventReason, DecodeError>) {
        match value_as_str(v) {
            Some(s) => match LoadedSourceEventReason::from_name(s) {
                Some(x) => Ok(x),
                None => Err(DecodeError::InvalidType),
            },
            None => Err(DecodeError::InvalidType),
        }
    }

    proof fn lemma_round_trip(m: LoadedSourceEventReason) {
        m.lemma_named();
    }
}

#[derive(Clone, Debug, PartialEq, Eq)]
pub struct ModuleEventBody {
    /// The reason for the event.
    pub reason: ModuleEventReason,

    /// The new, changed, or removed module. In case of 'removed' only the module id is used.
    pub module: Module,
}

/// The mathematical content of a [`ModuleEventBody`].
pub struct ModuleEventBodyView {
    pub reason: ModuleEventReason,
    pub module: ModuleView,
}

impl View for ModuleEventBody {
    type V = ModuleEventBodyView;

    open spec fn view(&self) -> ModuleEventBodyView {
        ModuleEventBodyView {
            reason: self.reason,
            module: self.module.model(),
        }
    }
}

impl ModuleEventBody {
    /// The fields that are written for a value.
    pub open spec fn fields(m: ModuleEventBodyView) -> JsonObject {
        let o = empty_object();
        let o = with_field::<ModuleEventReason>(o, "reason"@, m.reason);
        let o = with_field::<Module>(o, "module"@, m.module);
        o
    }

    /// What the fields of an object decode to: the first failure in the order of
    /// the fields, or the value.
    pub open spec fn decode_fields(o: JsonObject) -> Result<ModuleEventBodyView, DecodeErrorView> {
        let reason = req_field::<ModuleEventReason>(o, "reason"@);
        let module = req_field::<Module>(o, "module"@);
        if reason is Err {
            Err(reason->Err_0)
        } else if module is Err {
            Err(module->Err_0)
        } else {
            Ok(ModuleEventBodyView {
                reason: reason->Ok_0,
                module: module->Ok_0,
            })
        }
    }

    /// Writes the fields of the value into a fresh object.
    pub fn to_object(&self) -> (o: serde_json::Map<String, serde_json::Value>)
        ensures
            object_model(o) == ModuleEventBody::fields(self@),
    {
        let mut o = object_new();
        put::<ModuleEventReason>(&mut o, "reason", &self.reason);
        put::<Module>(&mut o, "module", &self.module);
        o
    }

    /// Reads a value from the fields of an object.
    pub fn from_object(o: &serde_json::Map<String, serde_json::Value>) -> (r: Result<
        ModuleEventBody,
        DecodeError,
    >)
        ensures
            match r {
                Ok(x) => ModuleEventBody::decode_fields(object_model(*o)) matches Ok(m) && m == x.model(),
                Err(e) => ModuleEventBody::decode_fields(object_model(*o)) matches Err(f) && f == e@,
            },
    {
        let reason = get_req::<ModuleEventReason>(o, "reason")?;
        let module = get_req::<Module>(o, "module")?;
        Ok(ModuleEventBody { reason, module })
    }
}

impl Wire for ModuleEventBody {
    type Model = ModuleEventBodyView;

    open spec fn model(&self) -> ModuleEventBodyView {
        self@
    }

    open spec fn wire_ok(m: ModuleEventBodyView) -> bool {
        true
    }

    open spec fn encode_json(m: ModuleEventBodyView) -> Json {
        Json::Object(ModuleEventBody::fields(m))
    }

    open spec fn decode_json(j: Json) -> Result<ModuleEventBodyView, DecodeErrorView> {
        match j {
            Json::Object(o) => ModuleEventBody::decode_fields(o),
            _ => Err(DecodeErrorView::InvalidType),
        }
    }

    fn to_value(&self) -> (r: serde_json::Value) {
        value_object(self.to_object())
    }

    fn from_value(v: &serde_json::Value) -> (r: Result<ModuleEventBody, DecodeError>) {
        match value_as_object(v) {
            Some(o) => ModuleEventBody::from_object(o),
            None => Err(DecodeError::InvalidType),
        }
    }

    proof fn lemma_round_trip(m: ModuleEventBodyView) {
        broadcast use group_field_rules;

        reveal(req_field);
        reveal_strlit("reason");
        reveal_strlit("module");
        assert("reason"@.len() == 6);
        assert("module"@.len() == 6);
        assert("reason"@[0] != "module"@[0]);
        let o = ModuleEventBody::fields(m);
        ModuleEventReason::lemma_round_trip(m.reason);
        assert(req_field::<ModuleEventReason>(o, "reason"@) matches Ok(v) && v == m.reason);
        Module::lemma_round_trip(m.module);
        assert(req_field::<Module>(o, "module"@) matches Ok(v) && v == m.module);
    }
}

impl Record for ModuleEventBody {
    open spec fn field_names() -> Set<Seq<char>> {
        set!["reason"@, "module"@]
    }

    proof fn lemma_unknown_field(o: JsonObject, key: Seq<char>, x: Json) {
        broadcast use group_field_rules;

        reveal(req_field);
    }
}

/// The reason for the event.
#[derive(Clone, Copy, Debug, PartialEq, Eq, Structural)]
pub enum ModuleEventReason {
    New,
    Changed,
    Removed,
}

impl ModuleEventReason {
    /// The name under which the value travels.
    pub open spec fn name(self) -> Seq<char> {
        match self {
            ModuleEventReason::New => "new"@,
            ModuleEventReason::Changed => "changed"@,
            ModuleEventReason::Removed => "removed"@,
        }
    }

    /// The value that travels under `s`, if there is one.
    pub open spec fn named(s: Seq<char>) -> Option<ModuleEventReason> {
        if s == "new"@ {
            Some(ModuleEventReason::New)
        } else if s == "changed"@ {
            Some(ModuleEventReason::Changed)
        } else if s == "removed"@ {
            Some(ModuleEventReason::Removed)
        } else {
            None
        }
    }

    pub fn as_str(&self) -> (r: &'static str)
        ensures
            r@ == self.name(),
    {
        match self {
            ModuleEventReason::New => "new",
            ModuleEventReason::Changed => "changed",
            ModuleEventReason::Removed => "removed",
        }
    }

    pub fn from_name(s: &str) -> (r: Option<ModuleEventReason>)
        ensures
            r == ModuleEventReason::named(s@),
    {
        if str_eq(s, "new") {
            Some(ModuleEventReason::New)
        } else if str_eq(s, "changed") {
            Some(ModuleEventReason::Changed)
        } else if str_eq(s, "removed") {
            Some(ModuleEventReason::Removed)
        } else {
            None
        }
    }

    /// Every value is found again under its name.
    pub proof fn lemma_named(self)
        ensures
            ModuleEventReason::named(self.name()) == Some(self),
    {
        reveal_strlit("new");
        reveal_strlit("changed");
        reveal_strlit("removed");
        assert("new"@.len() == 3);
        assert("changed"@.len() == 7);
        assert("removed"@.len() == 7);
        assert("changed"@[0] != "removed"@[0]);
    }
}

impl Wire for ModuleEventReason {
    type Model = ModuleEventReason;

    open spec fn model(&self) -> ModuleEventReason {
        *self
    }

    open spec fn wire_ok(m: ModuleEventReason) -> bool {
        true
    }

    open spec fn encode_json(m: ModuleEventReason) -> Json {
        Json::Str(m.name())
    }

    open spec fn decode_json(j: Json) -> Result<ModuleEventReason, DecodeErrorView> {
        match j {
            Json::Str(s) => match ModuleEventReason::named(s) {
                Some(x) => Ok(x),
                None => Err(DecodeErrorView::InvalidType),
            },
            _ => Err(DecodeErrorView::InvalidType),
        }
    }

    fn to_value(&self) -> (r: serde_json::Value) {
        value_string(self.as_str().to_owned())
    }

    fn from_value(v: &serde_json::Value) -> (r: Result<ModuleEventReason, DecodeError>) {
        match value_as_str(v) {
            Some(s) => match ModuleEventReason::from_name(s) {
                Some(x) => Ok(x),
                None => Err(DecodeError::InvalidType),
            },
            None => Err(DecodeError::InvalidType),
        }
    }

    proof fn lemma_round_trip(m: ModuleEventReason) {
        m.lemma_named();
    }
}

#[derive(Clone, Debug, PartialEq, Eq)]
pub struct OutputEventBody {
    /// The output category. If not specified, 'console' is assumed.
    pub category: OutputCategory,

    /// The output to report.
    pub output: String,

    /// Support for keeping an output log organized by grouping related messages.
    pub group: Option<OutputGroup>,

    /// If an attribute 'variablesReference' exists and its value is > 0, the output contains objects which can be retrieved by passing 'variablesReference' to the 'variables' request. The value should be less than or equal to 2147483647 (2^31-1).
    pub variables_reference: Option<i32>,

    /// An optional source location where the output was produced.
    pub source: Option<Source>,

    /// An optional source location line where the output was produced.
    pub line: Option<i32>,

    /// An optional source location column where the output was produced.
    pub column: Option<i32>,

    /// Optional data to report. For the 'telemetry' category the data will be sent to telemetry, for the other categories the data is shown in JSON format.
    pub data: Option<serde_json::Value>,
}

/// The mathematical content of a [`OutputEventBody`].
pub struct OutputEventBodyView {
    pub category: OutputCategory,
    pub output: Seq<char>,
    pub group: Option<OutputGroup>,
    pub variables_reference: Option<i32>,
    pub source: Option<SourceView>,
    pub line: Option<i32>,
    pub column: Option<i32>,
    pub data: Option<Json>,
}

impl View for OutputEventBody {
    type V = OutputEventBodyView;

    open spec fn view(&self) -> OutputEventBodyView {
        OutputEventBodyView {
            category: self.category,
            output: self.output.model(),
            group: self.group.model(),
            variables_reference: self.variables_reference.model(),
            source: self.source.model(),
            line: self.line.model(),
            column: self.column.model(),
            data: self.data.model(),
        }
    }
}

impl OutputEventBody {
    /// The fields that are written for a value.
    pub open spec fn fields(m: OutputEventBodyView) -> JsonObject {
        let o = empty_object();
        let o = with_nondefault_field::<OutputCategory>(o, "category"@, m.category, OutputCategory::Console);
        let o = with_field::<String>(o, "output"@, m.output);
        let o = with_opt_field::<OutputGroup>(o, "group"@, m.group);
        let o = with_opt_field::<i32>(o, "variablesReference"@, m.variables_reference);
        let o = with_opt_field::<Source>(o, "source"@, m.source);
        let o = with_opt_field::<i32>(o, "line"@, m.line);
        let o = with_opt_field::<i32>(o, "column"@, m.column);
        let o = with_opt_field::<serde_json::Value>(o, "data"@, m.data);
        o
    }

    /// What the fields of an object decode to: the first failure in the order of
    /// the fields, or the value.
    pub open spec fn decode_fields(o: JsonObject) -> Result<OutputEventBodyView, DecodeErrorView> {
        let category = default_field::<OutputCategory>(o, "category"@, OutputCategory::Console);
        let output = req_field::<String>(o, "output"@);
        let group = opt_field::<OutputGroup>(o, "group"@);
        let variables_reference = opt_field::<i32>(o, "variablesReference"@);
        let source = opt_field::<Source>(o, "source"@);
        let line = opt_field::<i32>(o, "line"@);
        let column = opt_field::<i32>(o, "column"@);
        let data = opt_field::<serde_json::Value>(o, "data"@);
        if category is Err {
            Err(category->Err_0)
        } else if output is Err {
            Err(output->Err_0)
        } else if group is Err {
            Err(group->Err_0)
        } else if variables_reference is Err {
            Err(variables_reference->Err_0)
        } else if source is Err {
            Err(source->Err_0)
        } else if line is Err {
            Err(line->Err_0)
        } else if column is Err {
            Err(column->Err_0)
        } else if data is Err {
            Err(data->Err_0)
        } else {
            Ok(OutputEventBodyView {
                category: category->Ok_0,
                output: output->Ok_0,
                group: group->Ok_0,
                variables_reference: variables_reference->Ok_0,
                source: source->Ok_0,
                line: line->Ok_0,
                column: column->Ok_0,
                data: data->Ok_0,
            })
        }
    }

    /// Writes the fields of the value into a fresh object.
    pub fn to_object(&self) -> (o: serde_json::Map<String, serde_json::Value>)
        ensures
            object_model(o) == OutputEventBody::fields(self@),
    {
        let mut o = object_new();
        put_unless::<OutputCategory>(&mut o, "category", &self.category, &OutputCategory::Console, self.category == OutputCategory::Console);
        put::<String>(&mut o, "output", &self.output);
        put_opt::<OutputGroup>(&mut o, "group", &self.group);
        put_opt::<i32>(&mut o, "variablesReference", &self.variables_reference);
        put_opt::<Source>(&mut o, "source", &self.source);
        put_opt::<i32>(&mut o, "line", &self.line);
        put_opt::<i32>(&mut o, "column", &self.column);
        put_opt::<serde_json::Value>(&mut o, "data", &self.data);
        o
    }

    /// Reads a value from the fields of an object.
    pub fn from_object(o: &serde_json::Map<String, serde_json::Value>) -> (r: Result<
        OutputEventBody,
        DecodeError,
    >)
        ensures
            match r {
                Ok(x) => OutputEventBody::decode_fields(object_model(*o)) matches Ok(m) && m == x.model(),
                Err(e) => OutputEventBody::decode_fields(object_model(*o)) matches Err(f) && f == e@,
            },
    {
        let category = get_or::<OutputCategory>(o, "category", OutputCategory::Console)?;
        let output = get_req::<String>(o, "output")?;
        let group = get_opt::<OutputGroup>(o, "group")?;
        let variables_reference = get_opt::<i32>(o, "variablesReference")?;
        let source = get_opt::<Source>(o, "source")?;
        let line = get_opt::<i32>(o, "line")?;
        let column = get_opt::<i32>(o, "column")?;
        let data = get_opt::<serde_json::Value>(o, "data")?;
        Ok(OutputEventBody { category, output, group, variables_reference, source, line, column, data })
    }
}

impl Wire for OutputEventBody {
    type Model = OutputEventBodyView;

    open spec fn model(&self) -> OutputEventBodyView {
        self@
    }

    open spec fn wire_ok(m: OutputEventBodyView) -> bool {
        &&& Option::<Source>::wire_ok(m.source)
        &&& Option::<serde_json::Value>::wire_ok(m.data)
    }

    open spec fn encode_json(m: OutputEventBodyView) -> Json {
        Json::Object(OutputEventBody::fields(m))
    }

    open spec fn decode_json(j: Json) -> Result<OutputEventBodyView, DecodeErrorView> {
        match j {
            Json::Object(o) => OutputEventBody::decode_fields(o),
            _ => Err(DecodeErrorView::InvalidType),
        }
    }

    fn to_value(&self) -> (r: serde_json::Value) {
        value_object(self.to_object())
    }

    fn from_value(v: &serde_json::Value) -> (r: Result<OutputEventBody, DecodeError>) {
        match value_as_object(v) {
            Some(o) => OutputEventBody::from_object(o),
            None => Err(DecodeError::InvalidType),
        }
    }

    proof fn lemma_round_trip(m: OutputEventBodyView) {
        broadcast use group_field_rules;

        reveal(default_field);
        reveal(opt_field);
        reveal(req_field);
        reveal_strlit("category");
        reveal_strlit("output");
        reveal_strlit("group");
        reveal_strlit("variablesReference");
        reveal_strlit("source");
        reveal_strlit("line");
        reveal_strlit("column");
        reveal_strlit("data");
        assert("category"@.len() == 8);
        assert("output"@.len() == 6);
        assert("group"@.len() == 5);
        assert("variablesReference"@.len() == 18);
        assert("source"@.len() == 6);
        assert("line"@.len() == 4);
        assert("column"@.len() == 6);
        assert("data"@.len() == 4);
        assert("output"@[0] != "source"@[0]);
        assert("output"@[0] != "column"@[0]);
        assert("source"@[0] != "column"@[0]);
        assert("line"@[0] != "data"@[0]);
        let o = OutputEventBody::fields(m);
        OutputCategory::lemma_round_trip(m.category);
        assert(default_field::<OutputCategory>(o, "category"@, OutputCategory::Console) matches Ok(v) && v == m.category);
        String::lemma_round_trip(m.output);
        assert(req_field::<String>(o, "output"@) matches Ok(v) && v == m.output);
        Option::<OutputGroup>::lemma_round_trip(m.group);
        assert(opt_field::<OutputGroup>(o, "group"@) matches Ok(v) && v == m.group);
        Option::<i32>::lemma_round_trip(m.variables_reference);
        assert(opt_field::<i32>(o, "variablesReference"@) matches Ok(v) && v == m.variables_reference);
        Option::<Source>::lemma_round_trip(m.source);
        assert(opt_field::<Source>(o, "source"@) matches Ok(v) && v == m.source);
        Option::<i32>::lemma_round_trip(m.line);
        assert(opt_field::<i32>(o, "line"@) matches Ok(v) && v == m.line);
        Option::<i32>::lemma_round_trip(m.column);
        assert(opt_field::<i32>(o, "column"@) matches Ok(v) && v == m.column);
        Option::<serde_json::Value>::lemma_round_trip(m.data);
        assert(opt_field::<serde_json::Value>(o, "data"@) matches Ok(v) && v == m.data);
    }
}

impl Record for OutputEventBody {
    open spec fn field_names() -> Set<Seq<char>> {
        set!["category"@, "output"@, "group"@, "variablesReference"@, "source"@, "line"@, "column"@, "data"@]
    }

    proof fn lemma_unknown_field(o: JsonObject, key: Seq<char>, x: Json) {
        broadcast use group_field_rules;

        reveal(default_field);
        reveal(opt_field);
        reveal(req_field);
    }
}

impl Defaults for OutputEventBody {
    open spec fn elidable_names() -> Set<Seq<char>> {
        set!["category"@, "group"@, "variablesReference"@, "source"@, "line"@, "column"@, "data"@]
    }

    open spec fn at_defaults(m: OutputEventBodyView) -> bool {
        &&& m.category == OutputCategory::Console
        &&& m.group is None
        &&& m.variables_reference is None
        &&& m.source is None
        &&& m.line is None
        &&& m.column is None
        &&& m.data is None
    }

    proof fn lemma_defaults_elided(m: OutputEventBodyView, key: Seq<char>) {
        broadcast use group_field_rules;

        reveal_strlit("category");
        reveal_strlit("output");
        reveal_strlit("group");
        reveal_strlit("variablesReference");
        reveal_strlit("source");
        reveal_strlit("line");
        reveal_strlit("column");
        reveal_strlit("data");
        assert("category"@.len() == 8);
        assert("output"@.len() == 6);
        assert("group"@.len() == 5);
        assert("variablesReference"@.len() == 18);
        assert("source"@.len() == 6);
        assert("line"@.len() == 4);
        assert("column"@.len() == 6);
        assert("data"@.len() == 4);
        assert("output"@[0] != "source"@[0]);
        assert("output"@[0] != "column"@[0]);
        assert("source"@[0] != "column"@[0]);
        assert("line"@[0] != "data"@[0]);
    }
}

/// The output category. If not specified, 'console' is assumed.
#[derive(Clone, Copy, Debug, Eq)]
pub enum OutputCategory {
    /// Show the output in the client's default message UI, e.g. a 'debug console'. This category should only be used for informational output from the debugger (as opposed to the debuggee).
    Console,
    /// A hint for the client to show the ouput in the client's UI for important and highly visible information, e.g. as a popup notification. This category should only be used for important messages from the debugger (as opposed to the debuggee). Since this category value is a hint, clients might ignore the hint and assume the 'console' category.
    Important,
    /// Show the output as normal program output from the debuggee.
    Stdout,
    /// Show the output as error program output from the debuggee.
    Stderr,
    /// Send the output to telemetry instead of showing it to the user.
    Telemetry,
}

impl OutputCategory {
    /// The name under which the value travels.
    pub open spec fn name(self) -> Seq<char> {
        match self {
            OutputCategory::Console => "console"@,
            OutputCategory::Important => "important"@,
            OutputCategory::Stdout => "stdout"@,
            OutputCategory::Stderr => "stderr"@,
            OutputCategory::Telemetry => "telemetry"@,
        }
    }

    /// The value that travels under `s`, if there is one.
    pub open spec fn named(s: Seq<char>) -> Option<OutputCategory> {
        if s == "console"@ {
            Some(OutputCategory::Console)
        } else if s == "important"@ {
            Some(OutputCategory::Important)
        } else if s == "stdout"@ {
            Some(OutputCategory::Stdout)
        } else if s == "stderr"@ {
            Some(OutputCategory::Stderr)
        } else if s == "telemetry"@ {
            Some(OutputCategory::Telemetry)
        } else {
            None
        }
    }

    pub fn as_str(&self) -> (r: &'static str)
        ensures
            r@ == self.name(),
    {
        match self {
            OutputCategory::Console => "console",
            OutputCategory::Important => "important",
            OutputCategory::Stdout => "stdout",
            OutputCategory::Stderr => "stderr",
            OutputCategory::Telemetry => "telemetry",
        }
    }

    pub fn from_name(s: &str) -> (r: Option<OutputCategory>)
        ensures
            r == OutputCategory::named(s@),
    {
        if str_eq(s, "console") {
            Some(OutputCategory::Console)
        } else if str_eq(s, "important") {
            Some(OutputCategory::Important)
        } else if str_eq(s, "stdout") {
            Some(OutputCategory::Stdout)
        } else if str_eq(s, "stderr") {
            Some(OutputCategory::Stderr)
        } else if str_eq(s, "telemetry") {
            Some(OutputCategory::Telemetry)
        } else {
            None
        }
    }

    /// Every value is found again under its name.
    pub proof fn lemma_named(self)
        ensures
            OutputCategory::named(self.name()) == Some(self),
    {
        reveal_strlit("console");
        reveal_strlit("important");
        reveal_strlit("stdout");
        reveal_strlit("stderr");
        reveal_strlit("telemetry");
        assert("console"@.len() == 7);
        assert("important"@.len() == 9);
        assert("stdout"@.len() == 6);
        assert("stderr"@.len() == 6);
        assert("telemetry"@.len() == 9);
        assert("important"@[0] != "telemetry"@[0]);
        assert("stdout"@[3] != "stderr"@[3]);
    }
}

impl Default for OutputCategory {
    fn default() -> (r: OutputCategory)
        ensures
            r == OutputCategory::Console,
    {
        OutputCategory::Console
    }
}

impl Wire for OutputCategory {
    type Model = OutputCategory;

    open spec fn model(&self) -> OutputCategory {
        *self
    }

    open spec fn wire_ok(m: OutputCategory) -> bool {
        true
    }

    open spec fn encode_json(m: OutputCategory) -> Json {
        Json::Str(m.name())
    }

    open spec fn decode_json(j: Json) -> Result<OutputCategory, DecodeErrorView> {
        match j {
            Json::Str(s) => match OutputCategory::named(s) {
                Some(x) => Ok(x),
                None => Err(DecodeErrorView::InvalidType),
            },
            _ => Err(DecodeErrorView::InvalidType),
        }
    }

    fn to_value(&self) -> (r: serde_json::Value) {
        value_string(self.as_str().to_owned())
    }

    fn from_value(v: &serde_json::Value) -> (r: Result<OutputCategory, DecodeError>) {
        match value_as_str(v) {
            Some(s) => match OutputCategory::from_name(s) {
                Some(x) => Ok(x),
                None => Err(DecodeError::InvalidType),
            },
            None => Err(DecodeError::InvalidType),
        }
    }

    proof fn lemma_round_trip(m: OutputCategory) {
        m.lemma_named();
    }
}

/// Support for keeping an output log organized by grouping related messages.
#[derive(Clone, Copy, Debug, PartialEq, Eq, Structural)]
pub enum OutputGroup {
    /// Start a new group in expanded mode. Subsequent output events are members of the group and should be shown indented.
    ///
    /// The 'output' attribute becomes the name of the group and is not indented.
    Start,
    /// Start a new group in collapsed mode. Subsequent output events are members of the group and should be shown indented (as soon as the group is expanded).
    ///
    /// The 'output' attribute becomes the name of the group and is not indented.
    StartCollapsed,
    /// End the current group and decreases the indentation of subsequent output events.
    ///
    /// A non empty 'output' attribute is shown as the unindented end of the group.
    End,
}

impl OutputGroup {
    /// The name under which the value travels.
    pub open spec fn name(self) -> Seq<char> {
        match self {
            OutputGroup::Start => "start"@,
            OutputGroup::StartCollapsed => "startCollapsed"@,
            OutputGroup::End => "end"@,
        }
    }

    /// The value that travels under `s`, if there is one.
    pub open spec fn named(s: Seq<char>) -> Option<OutputGroup> {
        if s == "start"@ {
            Some(OutputGroup::Start)
        } else if s == "startCollapsed"@ {
            Some(OutputGroup::StartCollapsed)
        } else if s == "end"@ {
            Some(OutputGroup::End)
        } else {
            None
        }
    }

    pub fn as_str(&self) -> (r: &'static str)
        ensures
            r@ == self.name(),
    {
        match self {
            OutputGroup::Start => "start",
            OutputGroup::StartCollapsed => "startCollapsed",
            OutputGroup::End => "end",
        }
    }

    pub fn from_name(s: &str) -> (r: Option<OutputGroup>)
        ensures
            r == OutputGroup::named(s@),
    {
        if str_eq(s, "start") {
            Some(OutputGroup::Start)
        } else if str_eq(s, "startCollapsed") {
            Some(OutputGroup::StartCollapsed)
        } else if str_eq(s, "end") {
            Some(OutputGroup::End)
        } else {
            None
        }
    }

    /// Every value is found again under its name.
    pub proof fn lemma_named(self)
        ensures
            OutputGroup::named(self.name()) == Some(self),
    {
        reveal_strlit("start");
        reveal_strlit("startCollapsed");
        reveal_strlit("end");
        assert("start"@.len() == 5);
        assert("startCollapsed"@.len() == 14);
        assert("end"@.len() == 3);
    }
}

impl Wire for OutputGroup {
    type Model = OutputGroup;

    open spec fn model(&self) -> OutputGroup {
        *self
    }

    open spec fn wire_ok(m: OutputGroup) -> bool {
        true
    }

    open spec fn encode_json(m: OutputGroup) -> Json {
        Json::Str(m.name())
    }

    open spec fn decode_json(j: Json) -> Result<OutputGroup, DecodeErrorView> {
        match j {
            Json::Str(s) => match OutputGroup::named(s) {
                Some(x) => Ok(x),
                None => Err(DecodeErrorView::InvalidType),
            },
            _ => Err(DecodeErrorView::InvalidType),
        }
    }

    fn to_value(&self) -> (r: serde_json::Value) {
        value_string(self.as_str().to_owned())
    }

    fn from_value(v: &serde_json::Value) -> (r: Result<OutputGroup, DecodeError>) {
        match value_as_str(v) {
            Some(s) => match OutputGroup::from_name(s) {
                Some(x) => Ok(x),
                None => Err(DecodeError::InvalidType),
            },
            None => Err(DecodeError::InvalidType),
        }
    }

    proof fn lemma_round_trip(m: OutputGroup) {
        m.lemma_named();
    }
}

#[derive(Clone, Debug, PartialEq, Eq)]
pub struct ProcessEventBody {
    /// The logical name of the process. This is usually the full path to process's executable file. Example: /home/example/myproj/program.js.
    pub name: String,

    /// The system process id of the debugged process. This property will be missing for non-system processes.
    pub system_process_id: Option<i32>,

    /// If true, the process is running on the same computer as the debug adapter.
    pub is_local_process: Option<bool>,

    /// Describes how the debug engine started debugging this process.
    pub start_method: Option<ProcessStartMethod>,

    /// The size of a pointer or address for this process, in bits. This value may be used by clients when formatting addresses for display.
    pub pointer_size: Option<i32>,
}

/// The mathematical content of a [`ProcessEventBody`].
pub struct ProcessEventBodyView {
    pub name: Seq<char>,
    pub system_process_id: Option<i32>,
    pub is_local_process: Option<bool>,
    pub start_method: Option<ProcessStartMethod>,
    pub pointer_size: Option<i32>,
}

impl View for ProcessEventBody {
    type V = ProcessEventBodyView;

    open spec fn view(&self) -> ProcessEventBodyView {
        ProcessEventBodyView {
            name: self.name.model(),
            system_process_id: self.system_process_id.model(),
            is_local_process: self.is_local_process.model(),
            start_method: self.start_method.model(),
            pointer_size: self.pointer_size.model(),
        }
    }
}

impl ProcessEventBody {
    /// The fields that are written for a value.
    pub open spec fn fields(m: ProcessEventBodyView) -> JsonObject {
        let o = empty_object();
        let o = with_field::<String>(o, "name"@, m.name);
        let o = with_opt_field::<i32>(o, "systemProcessId"@, m.system_process_id);
        let o = with_opt_field::<bool>(o, "isLocalProcess"@, m.is_local_process);
        let o = with_opt_field::<ProcessStartMethod>(o, "startMethod"@, m.start_method);
        let o = with_opt_field::<i32>(o, "pointerSize"@, m.pointer_size);
        o
    }

    /// What the fields of an object decode to: the first failure in the order of
    /// the fields, or the value.
    pub open spec fn decode_fields(o: JsonObject) -> Result<ProcessEventBodyView, DecodeErrorView> {
        let name = req_field::<String>(o, "name"@);
        let system_process_id = opt_field::<i32>(o, "systemProcessId"@);
        let is_local_process = opt_field::<bool>(o, "isLocalProcess"@);
        let start_method = opt_field::<ProcessStartMethod>(o, "startMethod"@);
        let pointer_size = opt_field::<i32>(o, "pointerSize"@);
        if name is Err {
            Err(name->Err_0)
        } else if system_process_id is Err {
            Err(system_process_id->Err_0)
        } else if is_local_process is Err {
            Err(is_local_process->Err_0)
        } else if start_method is Err {
            Err(start_method->Err_0)
        } else if pointer_size is Err {
            Err(pointer_size->Err_0)
        } else {
            Ok(ProcessEventBodyView {
                name: name->Ok_0,
                system_process_id: system_process_id->Ok_0,
                is_local_process: is_local_process->Ok_0,
                start_method: start_method->Ok_0,
                pointer_size: pointer_size->Ok_0,
            })
        }
    }

    /// Writes the fields of the value into a fresh object.
    pub fn to_object(&self) -> (o: serde_json::Map<String, serde_json::Value>)
        ensures
            object_model(o) == ProcessEventBody::fields(self@),
    {
        let mut o = object_new();
        put::<String>(&mut o, "name", &self.name);
        put_opt::<i32>(&mut o, "systemProcessId", &self.system_process_id);
        put_opt::<bool>(&mut o, "isLocalProcess", &self.is_local_process);
        put_opt::<ProcessStartMethod>(&mut o, "startMethod", &self.start_method);
        put_opt::<i32>(&mut o, "pointerSize", &self.pointer_size);
        o
    }

    /// Reads a value from the fields of an object.
    pub fn from_object(o: &serde_json::Map<String, serde_json::Value>) -> (r: Result<
        ProcessEventBody,
        DecodeError,
    >)
        ensures
            match r {
                Ok(x) => ProcessEventBody::decode_fields(object_model(*o)) matches Ok(m) && m == x.model(),
                Err(e) => ProcessEventBody::decode_fields(object_model(*o)) matches Err(f) && f == e@,
            },
    {
        let name = get_req::<String>(o, "name")?;
        let system_process_id = get_opt::<i32>(o, "systemProcessId")?;
        let is_local_process = get_opt::<bool>(o, "isLocalProcess")?;
        let start_method = get_opt::<ProcessStartMethod>(o, "startMethod")?;
        let pointer_size = get_opt::<i32>(o, "pointerSize")?;
        Ok(ProcessEventBody { name, system_process_id, is_local_process, start_method, pointer_size })
    }
}

impl Wire for ProcessEventBody {
    type Model = ProcessEventBodyView;

    open spec fn model(&self) -> ProcessEventBodyView {
        self@
    }

    open spec fn wire_ok(m: ProcessEventBodyView) -> bool {
        true
    }

    open spec fn encode_json(m: ProcessEventBodyView) -> Json {
        Json::Object(ProcessEventBody::fields(m))
    }

    open spec fn decode_json(j: Json) -> Result<ProcessEventBodyView, DecodeErrorView> {
        match j {
            Json::Object(o) => ProcessEventBody::decode_fields(o),
            _ => Err(DecodeErrorView::InvalidType),
        }
    }

    fn to_value(&self) -> (r: serde_json::Value) {
        value_object(self.to_object())
    }

    fn from_value(v: &serde_json::Value) -> (r: Result<ProcessEventBody, DecodeError>) {
        match value_as_object(v) {
            Some(o) => ProcessEventBody::from_object(o),
            None => Err(DecodeError::InvalidType),
        }
    }

    proof fn lemma_round_trip(m: ProcessEventBodyView) {
        broadcast use group_field_rules;

        reveal(opt_field);
        reveal(req_field);
        reveal_strlit("name");
        reveal_strlit("systemProcessId");
        reveal_strlit("isLocalProcess");
        reveal_strlit("startMethod");
        reveal_strlit("pointerSize");
        assert("name"@.len() == 4);
        assert("systemProcessId"@.len() == 15);
        assert("isLocalProcess"@.len() == 14);
        assert("startMethod"@.len() == 11);
        assert("pointerSize"@.len() == 11);
        assert("startMethod"@[0] != "pointerSize"@[0]);
        let o = ProcessEventBody::fields(m);
        String::lemma_round_trip(m.name);
        assert(req_field::<String>(o, "name"@) matches Ok(v) && v == m.name);
        Option::<i32>::lemma_round_trip(m.system_process_id);
        assert(opt_field::<i32>(o, "systemProcessId"@) matches Ok(v) && v == m.system_process_id);
        Option::<bool>::lemma_round_trip(m.is_local_process);
        assert(opt_field::<bool>(o, "isLocalProcess"@) matches Ok(v) && v == m.is_local_process);
        Option::<ProcessStartMethod>::lemma_round_trip(m.start_method);
        assert(opt_field::<ProcessStartMethod>(o, "startMethod"@) matches Ok(v) && v == m.start_method);
        Option::<i32>::lemma_round_trip(m.pointer_size);
        assert(opt_field::<i32>(o, "pointerSize"@) matches Ok(v) && v == m.pointer_size);
    }
}

impl Record for ProcessEventBody {
    open spec fn field_names() -> Set<Seq<char>> {
        set!["name"@, "systemProcessId"@, "isLocalProcess"@, "startMethod"@, "pointerSize"@]
    }

    proof fn lemma_unknown_field(o: JsonObject, key: Seq<char>, x: Json) {
        broadcast use group_field_rules;

        reveal(opt_field);
        reveal(req_field);
    }
}

impl Defaults for ProcessEventBody {
    open spec fn elidable_names() -> Set<Seq<char>> {
        set!["systemProcessId"@, "isLocalProcess"@, "startMethod"@, "pointerSize"@]
    }

    open spec fn at_defaults(m: ProcessEventBodyView) -> bool {
        &&& m.system_process_id is None
        &&& m.is_local_process is None
        &&& m.start_method is None
        &&& m.pointer_size is None
    }

    proof fn lemma_defaults_elided(m: ProcessEventBodyView, key: Seq<char>) {
        broadcast use group_field_rules;

        reveal_strlit("name");
        reveal_strlit("systemProcessId");
        reveal_strlit("isLocalProcess");
        reveal_strlit("startMethod");
        reveal_strlit("pointerSize");
        assert("name"@.len() == 4);
        assert("systemProcessId"@.len() == 15);
        assert("isLocalProcess"@.len() == 14);
        assert("startMethod"@.len() == 11);
        assert("pointerSize"@.len() == 11);
        assert("startMethod"@[0] != "pointerSize"@[0]);
    }
}

/// Describes how the debug engine started debugging this process.
#[derive(Clone, Copy, Debug, PartialEq, Eq, Structural)]
pub enum ProcessStartMethod {
    /// Process was launched under the debugger.
    Launch,
    /// Debugger attached to an existing process.
    Attach,
    /// A project launcher component has launched a new process in a suspended state and then asked the debugger to attach.
    AttachForSuspendedLaunch,
}

impl ProcessStartMethod {
    /// The name under which the value travels.
    pub open spec fn name(self) -> Seq<char> {
        match self {
            ProcessStartMethod::Launch => "launch"@,
            ProcessStartMethod::Attach => "attach"@,
            ProcessStartMethod::AttachForSuspendedLaunch => "attachForSuspendedLaunch"@,
        }
    }

    /// The value that travels under `s`, if there is one.
    pub open spec fn named(s: Seq<char>) -> Option<ProcessStartMethod> {
        if s == "launch"@ {
            Some(ProcessStartMethod::Launch)
        } else if s == "attach"@ {
            Some(ProcessStartMethod::Attach)
        } else if s == "attachForSuspendedLaunch"@ {
            Some(ProcessStartMethod::AttachForSuspendedLaunch)
        } else {
            None
        }
    }

    pub fn as_str(&self) -> (r: &'static str)
        ensures
            r@ == self.name(),
    {
        match self {
            ProcessStartMethod::Launch => "launch",
            ProcessStartMethod::Attach => "attach",
            ProcessStartMethod::AttachForSuspendedLaunch => "attachForSuspendedLaunch",
        }
    }

    pub fn from_name(s: &str) -> (r: Option<ProcessStartMethod>)
        ensures
            r == ProcessStartMethod::named(s@),
    {
        if str_eq(s, "launch") {
            Some(ProcessStartMethod::Launch)
        } else if str_eq(s, "attach") {
            Some(ProcessStartMethod::Attach)
        } else if str_eq(s, "attachForSuspendedLaunch") {
            Some(ProcessStartMethod::AttachForSuspendedLaunch)
        } else {
            None
        }
    }

    /// Every value is found again under its name.
    pub proof fn lemma_named(self)
        ensures
            ProcessStartMethod::named(self.name()) == Some(self),
    {
        reveal_strlit("launch");
        reveal_strlit("attach");
        reveal_strlit("attachForSuspendedLaunch");
        assert("launch"@.len() == 6);
        assert("attach"@.len() == 6);
        assert("attachForSuspendedLaunch"@.len() == 24);
        assert("launch"@[0] != "attach"@[0]);
    }
}

impl Wire for ProcessStartMethod {
    type Model = ProcessStartMethod;

    open spec fn model(&self) -> ProcessStartMethod {
        *self
    }

    open spec fn wire_ok(m: ProcessStartMethod) -> bool {
        true
    }

    open spec fn encode_json(m: ProcessStartMethod) -> Json {
        Json::Str(m.name())
    }

    open spec fn decode_json(j: Json) -> Result<ProcessStartMethod, DecodeErrorView> {
        match j {
            Json::Str(s) => match ProcessStartMethod::named(s) {
                Some(x) => Ok(x),
                None => Err(DecodeErrorView::InvalidType),
            },
            _ => Err(DecodeErrorView::InvalidType),
        }
    }

    fn to_value(&self) -> (r: serde_json::Value) {
        value_string(self.as_str().to_owned())
    }

    fn from_value(v: &serde_json::Value) -> (r: Result<ProcessStartMethod, DecodeError>) {
        match value_as_str(v) {
            Some(s) => match ProcessStartMethod::from_name(s) {
                Some(x) => Ok(x),
                None => Err(DecodeError::InvalidType),
            },
            None => Err(DecodeError::InvalidType),
        }
    }

    proof fn lemma_round_trip(m: ProcessStartMethod) {
        m.lemma_named();
    }
}

#[derive(Clone, Debug, PartialEq, Eq)]
pub struct ProgressEndEventBody {
    /// The ID that was introduced in the initial 'ProgressStartEvent'.
    pub progress_id: String,

    /// Optional, more detailed progress message. If omitted, the previous message (if any) is used.
    pub message: Option<String>,
}

/// The mathematical content of a [`ProgressEndEventBody`].
pub struct ProgressEndEventBodyView {
    pub progress_id: Seq<char>,
    pub message: Option<Seq<char>>,
}

impl View for ProgressEndEventBody {
    type V = ProgressEndEventBodyView;

    open spec fn view(&self) -> ProgressEndEventBodyView {
        ProgressEndEventBodyView {
            progress_id: self.progress_id.model(),
            message: self.message.model(),
        }
    }
}

impl ProgressEndEventBody {
    /// The fields that are written for a value.
    pub open spec fn fields(m: ProgressEndEventBodyView) -> JsonObject {
        let o = empty_object();
        let o = with_field::<String>(o, "progressId"@, m.progress_id);
        let o = with_opt_field::<String>(o, "message"@, m.message);
        o
    }

    /// What the fields of an object decode to: the first failure in the order of
    /// the fields, or the value.
    pub open spec fn decode_fields(o: JsonObject) -> Result<ProgressEndEventBodyView, DecodeErrorView> {
        let progress_id = req_field::<String>(o, "progressId"@);
        let message = opt_field::<String>(o, "message"@);
        if progress_id is Err {
            Err(progress_id->Err_0)
        } else if message is Err {
            Err(message->Err_0)
        } else {
            Ok(ProgressEndEventBodyView {
                progress_id: progress_id->Ok_0,
                message: message->Ok_0,
            })
        }
    }

    /// Writes the fields of the value into a fresh object.
    pub fn to_object(&self) -> (o: serde_json::Map<String, serde_json::Value>)
        ensures
            object_model(o) == ProgressEndEventBody::fields(self@),
    {
        let mut o = object_new();
        put::<String>(&mut o, "progressId", &self.progress_id);
        put_opt::<String>(&mut o, "message", &self.message);
        o
    }

    /// Reads a value from the fields of an object.
    pub fn from_object(o: &serde_json::Map<String, serde_json::Value>) -> (r: Result<
        ProgressEndEventBody,
        DecodeError,
    >)
        ensures
            match r {
                Ok(x) => ProgressEndEventBody::decode_fields(object_model(*o)) matches Ok(m) && m == x.model(),
                Err(e) => ProgressEndEventBody::decode_fields(object_model(*o)) matches Err(f) && f == e@,
            },
    {
        let progress_id = get_req::<String>(o, "progressId")?;
        let message = get_opt::<String>(o, "message")?;
        Ok(ProgressEndEventBody { progress_id, message })
    }
}

impl Wire for ProgressEndEventBody {
    type Model = ProgressEndEventBodyView;

    open spec fn model(&self) -> ProgressEndEventBodyView {
        self@
    }

    open spec fn wire_ok(m: ProgressEndEventBodyView) -> bool {
        true
    }

    open spec fn encode_json(m: ProgressEndEventBodyView) -> Json {
        Json::Object(ProgressEndEventBody::fields(m))
    }

    open spec fn decode_json(j: Json) -> Result<ProgressEndEventBodyView, DecodeErrorView> {
        match j {
            Json::Object(o) => ProgressEndEventBody::decode_fields(o),
            _ => Err(DecodeErrorView::InvalidType),
        }
    }

    fn to_value(&self) -> (r: serde_json::Value) {
        value_object(self.to_object())
    }

    fn from_value(v: &serde_json::Value) -> (r: Result<ProgressEndEventBody, DecodeError>) {
        match value_as_object(v) {
            Some(o) => ProgressEndEventBody::from_object(o),
            None => Err(DecodeError::InvalidType),
        }
    }

    proof fn lemma_round_trip(m: ProgressEndEventBodyView) {
        broadcast use group_field_rules;

        reveal(opt_field);
        reveal(req_field);
        reveal_strlit("progressId");
        reveal_strlit("message");
        assert("progressId"@.len() == 10);
        assert("message"@.len() == 7);
        let o = ProgressEndEventBody::fields(m);
        String::lemma_round_trip(m.progress_id);
        assert(req_field::<String>(o, "progressId"@) matches Ok(v) && v == m.progress_id);
        Option::<String>::lemma_round_trip(m.message);
        assert(opt_field::<String>(o, "message"@) matches Ok(v) && v == m.message);
    }
}

impl Record for ProgressEndEventBody {
    open spec fn field_names() -> Set<Seq<char>> {
        set!["progressId"@, "message"@]
    }

    proof fn lemma_unknown_field(o: JsonObject, key: Seq<char>, x: Json) {
        broadcast use group_field_rules;

        reveal(opt_field);
        reveal(req_field);
    }
}

impl Defaults for ProgressEndEventBody {
    open spec fn elidable_names() -> Set<Seq<char>> {
        set!["message"@]
    }

    open spec fn at_defaults(m: ProgressEndEventBodyView) -> bool {
        &&& m.message is None
    }

    proof fn lemma_defaults_elided(m: ProgressEndEventBodyView, key: Seq<char>) {
        broadcast use group_field_rules;

        reveal_strlit("progressId");
        reveal_strlit("message");
        assert("progressId"@.len() == 10);
        assert("message"@.len() == 7);
    }
}

#[derive(Clone, Debug, PartialEq, Eq)]
pub struct ProgressStartEventBody {
    /// An ID that must be used in subsequent 'progressUpdate' and 'progressEnd' events to make them refer to the same progress reporting.
    ///
    /// IDs must be unique within a debug session.
    pub progress_id: String,

    /// Mandatory (short) title of the progress reporting. Shown in the UI to describe the long running operation.
    pub title: String,

    /// The request ID that this progress report is related to. If specified a debug adapter is expected to emit
    ///
    /// progress events for the long running request until the request has been either completed or cancelled.
    ///
    /// If the request ID is omitted, the progress report is assumed to be related to some general activity of the debug adapter.
    pub request_id: Option<i32>,

    /// If true, the request that reports progress may be canceled with a 'cancel' request.
    ///
    /// So this property basically controls whether the client should use UX that supports cancellation.
    ///
    /// Clients that don't support cancellation are allowed to ignore the setting.
    pub cancellable: bool,

    /// Optional, more detailed progress message.
    pub message: Option<String>,

    /// Optional progress percentage to display (value range: 0 to 100). If omitted no percentage will be shown.
    pub percentage: Option<u8>,
}

/// The mathematical content of a [`ProgressStartEventBody`].
pub struct ProgressStartEventBodyView {
    pub progress_id: Seq<char>,
    pub title: Seq<char>,
    pub request_id: Option<i32>,
    pub cancellable: bool,
    pub message: Option<Seq<char>>,
    pub percentage: Option<u8>,
}

impl View for ProgressStartEventBody {
    type V = ProgressStartEventBodyView;

    open spec fn view(&self) -> ProgressStartEventBodyView {
        ProgressStartEventBodyView {
            progress_id: self.progress_id.model(),
            title: self.title.model(),
            request_id: self.request_id.model(),
            cancellable: self.cancellable,
            message: self.message.model(),
            percentage: self.percentage.model(),
        }
    }
}

impl ProgressStartEventBody {
    /// The fields that are written for a value.
    pub open spec fn fields(m: ProgressStartEventBodyView) -> JsonObject {
        let o = empty_object();
        let o = with_field::<String>(o, "progressId"@, m.progress_id);
        let o = with_field::<String>(o, "title"@, m.title);
        let o = with_opt_field::<i32>(o, "requestId"@, m.request_id);
        let o = with_nondefault_field::<bool>(o, "cancellable"@, m.cancellable, false);
        let o = with_opt_field::<String>(o, "message"@, m.message);
        let o = with_opt_field::<u8>(o, "percentage"@, m.percentage);
        o
    }

    /// What the fields of an object decode to: the first failure in the order of
    /// the fields, or the value.
    pub open spec fn decode_fields(o: JsonObject) -> Result<ProgressStartEventBodyView, DecodeErrorView> {
        let progress_id = req_field::<String>(o, "progressId"@);
        let title = req_field::<String>(o, "title"@);
        let request_id = opt_field::<i32>(o, "requestId"@);
        let cancellable = default_field::<bool>(o, "cancellable"@, false);
        let message = opt_field::<String>(o, "message"@);
        let percentage = opt_field::<u8>(o, "percentage"@);
        if progress_id is Err {
            Err(progress_id->Err_0)
        } else if title is Err {
            Err(title->Err_0)
        } else if request_id is Err {
            Err(request_id->Err_0)
        } else if cancellable is Err {
            Err(cancellable->Err_0)
        } else if message is Err {
            Err(message->Err_0)
        } else if percentage is Err {
            Err(percentage->Err_0)
        } else {
            Ok(ProgressStartEventBodyView {
                progress_id: progress_id->Ok_0,
                title: title->Ok_0,
                request_id: request_id->Ok_0,
                cancellable: cancellable->Ok_0,
                message: message->Ok_0,
                percentage: percentage->Ok_0,
            })
        }
    }

    /// Writes the fields of the value into a fresh object.
    pub fn to_object(&self) -> (o: serde_json::Map<String, serde_json::Value>)
        ensures
            object_model(o) == ProgressStartEventBody::fields(self@),
    {
        let mut o = object_new();
        put::<String>(&mut o, "progressId", &self.progress_id);
        put::<String>(&mut o, "title", &self.title);
        put_opt::<i32>(&mut o, "requestId", &self.request_id);
        put_flag(&mut o, "cancellable", self.cancellable);
        put_opt::<String>(&mut o, "message", &self.message);
        put_opt::<u8>(&mut o, "percentage", &self.percentage);
        o
    }

    /// Reads a value from the fields of an object.
    pub fn from_object(o: &serde_json::Map<String, serde_json::Value>) -> (r: Result<
        ProgressStartEventBody,
        DecodeError,
    >)
        ensures
            match r {
                Ok(x) => ProgressStartEventBody::decode_fields(object_model(*o)) matches Ok(m) && m == x.model(),
                Err(e) => ProgressStartEventBody::decode_fields(object_model(*o)) matches Err(f) && f == e@,
            },
    {
        let progress_id = get_req::<String>(o, "progressId")?;
        let title = get_req::<String>(o, "title")?;
        let request_id = get_opt::<i32>(o, "requestId")?;
        let cancellable = get_or::<bool>(o, "cancellable", false)?;
        let message = get_opt::<String>(o, "message")?;
        let percentage = get_opt::<u8>(o, "percentage")?;
        Ok(ProgressStartEventBody { progress_id, title, request_id, cancellable, message, percentage })
    }
}

impl Wire for ProgressStartEventBody {
    type Model = ProgressStartEventBodyView;

    open spec fn model(&self) -> ProgressStartEventBodyView {
        self@
    }

    open spec fn wire_ok(m: ProgressStartEventBodyView) -> bool {
        true
    }

    open spec fn encode_json(m: ProgressStartEventBodyView) -> Json {
        Json::Object(ProgressStartEventBody::fields(m))
    }

    open spec fn decode_json(j: Json) -> Result<ProgressStartEventBodyView, DecodeErrorView> {
        match j {
            Json::Object(o) => ProgressStartEventBody::decode_fields(o),
            _ => Err(DecodeErrorView::InvalidType),
        }
    }

    fn to_value(&self) -> (r: serde_json::Value) {
        value_object(self.to_object())
    }

    fn from_value(v: &serde_json::Value) -> (r: Result<ProgressStartEventBody, DecodeError>) {
        match value_as_object(v) {
            Some(o) => ProgressStartEventBody::from_object(o),
            None => Err(DecodeError::InvalidType),
        }
    }

    proof fn lemma_round_trip(m: ProgressStartEventBodyView) {
        broadcast use group_field_rules;

        reveal(default_field);
        reveal(opt_field);
        reveal(req_field);
        reveal_strlit("progressId");
        reveal_strlit("title");
        reveal_strlit("requestId");
        reveal_strlit("cancellable");
        reveal_strlit("message");
        reveal_strlit("percentage");
        assert("progressId"@.len() == 10);
        assert("title"@.len() == 5);
        assert("requestId"@.len() == 9);
        assert("cancellable"@.len() == 11);
        assert("message"@.len() == 7);
        assert("percentage"@.len() == 10);
        assert("progressId"@[1] != "percentage"@[1]);
        let o = ProgressStartEventBody::fields(m);
        String::lemma_round_trip(m.progress_id);
        assert(req_field::<String>(o, "progressId"@) matches Ok(v) && v == m.progress_id);
        String::lemma_round_trip(m.title);
        assert(req_field::<String>(o, "title"@) matches Ok(v) && v == m.title);
        Option::<i32>::lemma_round_trip(m.request_id);
        assert(opt_field::<i32>(o, "requestId"@) matches Ok(v) && v == m.request_id);
        bool::lemma_round_trip(m.cancellable);
        assert(default_field::<bool>(o, "cancellable"@, false) matches Ok(v) && v == m.cancellable);
        Option::<String>::lemma_round_trip(m.message);
        assert(opt_field::<String>(o, "message"@) matches Ok(v) && v == m.message);
        Option::<u8>::lemma_round_trip(m.percentage);
        assert(opt_field::<u8>(o, "percentage"@) matches Ok(v) && v == m.percentage);
    }
}

impl Record for ProgressStartEventBody {
    open spec fn field_names() -> Set<Seq<char>> {
        set!["progressId"@, "title"@, "requestId"@, "cancellable"@, "message"@, "percentage"@]
    }

    proof fn lemma_unknown_field(o: JsonObject, key: Seq<char>, x: Json) {
        broadcast use group_field_rules;

        reveal(default_field);
        reveal(opt_field);
        reveal(req_field);
    }
}

impl Defaults for ProgressStartEventBody {
    open spec fn elidable_names() -> Set<Seq<char>> {
        set!["requestId"@, "cancellable"@, "message"@, "percentage"@]
    }

    open spec fn at_defaults(m: ProgressStartEventBodyView) -> bool {
        &&& m.request_id is None
        &&& !m.cancellable
        &&& m.message is None
        &&& m.percentage is None
    }

    proof fn lemma_defaults_elided(m: ProgressStartEventBodyView, key: Seq<char>) {
        broadcast use group_field_rules;

        reveal_strlit("progressId");
        reveal_strlit("title");
        reveal_strlit("requestId");
        reveal_strlit("cancellable");
        reveal_strlit("message");
        reveal_strlit("percentage");
        assert("progressId"@.len() == 10);
        assert("title"@.len() == 5);
        assert("requestId"@.len() == 9);
        assert("cancellable"@.len() == 11);
        assert("message"@.len() == 7);
        assert("percentage"@.len() == 10);
        assert("progressId"@[1] != "percentage"@[1]);
    }
}

#[derive(Clone, Debug, PartialEq, Eq)]
pub struct ProgressUpdateEventBody {
    /// The ID that was introduced in the initial 'progressStart' event.
    pub progress_id: String,

    /// Optional, more detailed progress message. If omitted, the previous message (if any) is used.
    pub message: Option<String>,

    /// Optional progress percentage to display (value range: 0 to 100). If omitted no percentage will be shown.
    pub percentage: Option<u8>,
}

/// The mathematical content of a [`ProgressUpdateEventBody`].
pub struct ProgressUpdateEventBodyView {
    pub progress_id: Seq<char>,
    pub message: Option<Seq<char>>,
    pub percentage: Option<u8>,
}

impl View for ProgressUpdateEventBody {
    type V = ProgressUpdateEventBodyView;

    open spec fn view(&self) -> ProgressUpdateEventBodyView {
        ProgressUpdateEventBodyView {
            progress_id: self.progress_id.model(),
            message: self.message.model(),
            percentage: self.percentage.model(),
        }
    }
}

impl ProgressUpdateEventBody {
    /// The fields that are written for a value.
    pub open spec fn fields(m: ProgressUpdateEventBodyView) -> JsonObject {
        let o = empty_object();
        let o = with_field::<String>(o, "progressId"@, m.progress_id);
        let o = with_opt_field::<String>(o, "message"@, m.message);
        let o = with_opt_field::<u8>(o, "percentage"@, m.percentage);
        o
    }

    /// What the fields of an object decode to: the first failure in the order of
    /// the fields, or the value.
    pub open spec fn decode_fields(o: JsonObject) -> Result<ProgressUpdateEventBodyView, DecodeErrorView> {
        let progress_id = req_field::<String>(o, "progressId"@);
        let message = opt_field::<String>(o, "message"@);
        let percentage = opt_field::<u8>(o, "percentage"@);
        if progress_id is Err {
            Err(progress_id->Err_0)
        } else if message is Err {
            Err(message->Err_0)
        } else if percentage is Err {
            Err(percentage->Err_0)
        } else {
            Ok(ProgressUpdateEventBodyView {
                progress_id: progress_id->Ok_0,
                message: message->Ok_0,
                percentage: percentage->Ok_0,
            })
        }
    }

    /// Writes the fields of the value into a fresh object.
    pub fn to_object(&self) -> (o: serde_json::Map<String, serde_json::Value>)
        ensures
            object_model(o) == ProgressUpdateEventBody::fields(self@),
    {
        let mut o = object_new();
        put::<String>(&mut o, "progressId", &self.progress_id);
        put_opt::<String>(&mut o, "message", &self.message);
        put_opt::<u8>(&mut o, "percentage", &self.percentage);
        o
    }

    /// Reads a value from the fields of an object.
    pub fn from_object(o: &serde_json::Map<String, serde_json::Value>) -> (r: Result<
        ProgressUpdateEventBody,
        DecodeError,
    >)
        ensures
            match r {
                Ok(x) => ProgressUpdateEventBody::decode_fields(object_model(*o)) matches Ok(m) && m == x.model(),
                Err(e) => ProgressUpdateEventBody::decode_fields(object_model(*o)) matches Err(f) && f == e@,
            },
    {
        let progress_id = get_req::<String>(o, "progressId")?;
        let message = get_opt::<String>(o, "message")?;
        let percentage = get_opt::<u8>(o, "percentage")?;
        Ok(ProgressUpdateEventBody { progress_id, message, percentage })
    }
}

impl Wire for ProgressUpdateEventBody {
    type Model = ProgressUpdateEventBodyView;

    open spec fn model(&self) -> ProgressUpdateEventBodyView {
        self@
    }

    open spec fn wire_ok(m: ProgressUpdateEventBodyView) -> bool {
        true
    }

    open spec fn encode_json(m: ProgressUpdateEventBodyView) -> Json {
        Json::Object(ProgressUpdateEventBody::fields(m))
    }

    open spec fn decode_json(j: Json) -> Result<ProgressUpdateEventBodyView, DecodeErrorView> {
        match j {
            Json::Object(o) => ProgressUpdateEventBody::decode_fields(o),
            _ => Err(DecodeErrorView::InvalidType),
        }
    }

    fn to_value(&self) -> (r: serde_json::Value) {
        value_object(self.to_object())
    }

    fn from_value(v: &serde_json::Value) -> (r: Result<ProgressUpdateEventBody, DecodeError>) {
        match value_as_object(v) {
            Some(o) => ProgressUpdateEventBody::from_object(o),
            None => Err(DecodeError::InvalidType),
        }
    }

    proof fn lemma_round_trip(m: ProgressUpdateEventBodyView) {
        broadcast use group_field_rules;

        reveal(opt_field);
        reveal(req_field);
        reveal_strlit("progressId");
        reveal_strlit("message");
        reveal_strlit("percentage");
        assert("progressId"@.len() == 10);
        assert("message"@.len() == 7);
        assert("percentage"@.len() == 10);
        assert("progressId"@[1] != "percentage"@[1]);
        let o = ProgressUpdateEventBody::fields(m);
        String::lemma_round_trip(m.progress_id);
        assert(req_field::<String>(o, "progressId"@) matches Ok(v) && v == m.progress_id);
        Option::<String>::lemma_round_trip(m.message);
        assert(opt_field::<String>(o, "message"@) matches Ok(v) && v == m.message);
        Option::<u8>::lemma_round_trip(m.percentage);
        assert(opt_field::<u8>(o, "percentage"@) matches Ok(v) && v == m.percentage);
    }
}

impl Record for ProgressUpdateEventBody {
    open spec fn field_names() -> Set<Seq<char>> {
        set!["progressId"@, "message"@, "percentage"@]
    }

    proof fn lemma_unknown_field(o: JsonObject, key: Seq<char>, x: Json) {
        broadcast use group_field_rules;

        reveal(opt_field);
        reveal(req_field);
    }
}

impl Defaults for ProgressUpdateEventBody {
    open spec fn elidable_names() -> Set<Seq<char>> {
        set!["message"@, "percentage"@]
    }

    open spec fn at_defaults(m: ProgressUpdateEventBodyView) -> bool {
        &&& m.message is None
        &&& m.percentage is None
    }

    proof fn lemma_defaults_elided(m: ProgressUpdateEventBodyView, key: Seq<char>) {
        broadcast use group_field_rules;

        reveal_strlit("progressId");
        reveal_strlit("message");
        reveal_strlit("percentage");
        assert("progressId"@.len() == 10);
        assert("message"@.len() == 7);
        assert("percentage"@.len() == 10);
        assert("progressId"@[1] != "percentage"@[1]);
    }
}

#[derive(Clone, Debug, PartialEq, Eq)]
pub struct StoppedEventBody {
    /// The reason for the event.
    ///
    /// For backward compatibility this string is shown in the UI if the 'description' attribute is missing (but it must not be translated).
    pub reason: StoppedEventReason,

    /// The full reason for the event, e.g. 'Paused on exception'. This string is shown in the UI as is and must be translated.
    pub description: Option<String>,

    /// The thread which was stopped.
    pub thread_id: Option<i32>,

    /// A value of true hints to the frontend that this event should not change the focus.
    pub preserve_focus_hint: bool,

    /// Additional information. E.g. if reason is 'exception', text contains the exception name. This string is shown in the UI.
    pub text: Option<String>,

    /// If 'allThreadsStopped' is true, a debug adapter can announce that all threads have stopped.
    ///
    /// - The client should use this information to enable that all threads can be expanded to access their stacktraces.
    ///
    /// - If the attribute is missing or false, only the thread with the given threadId can be expanded.
    pub all_threads_stopped: bool,

    /// Ids of the breakpoints that triggered the event. In most cases there will be only a single breakpoint but here are some examples for multiple breakpoints:
    ///
    /// - Different types of breakpoints map to the same location.
    ///
    /// - Multiple source breakpoints get collapsed to the same instruction by the compiler/runtime.
    ///
    /// - Multiple function breakpoints with different function names map to the same location.
    pub hit_breakpoint_ids: Vec<i32>,
}

/// The mathematical content of a [`StoppedEventBody`].
pub struct StoppedEventBodyView {
    pub reason: StoppedEventReason,
    pub description: Option<Seq<char>>,
    pub thread_id: Option<i32>,
    pub preserve_focus_hint: bool,
    pub text: Option<Seq<char>>,
    pub all_threads_stopped: bool,
    pub hit_breakpoint_ids: Seq<i32>,
}

impl View for StoppedEventBody {
    type V = StoppedEventBodyView;

    open spec fn view(&self) -> StoppedEventBodyView {
        StoppedEventBodyView {
            reason: self.reason,
            description: self.description.model(),
            thread_id: self.thread_id.model(),
            preserve_focus_hint: self.preserve_focus_hint,
            text: self.text.model(),
            all_threads_stopped: self.all_threads_stopped,
            hit_breakpoint_ids: self.hit_breakpoint_ids.model(),
        }
    }
}

impl StoppedEventBody {
    /// The fields that are written for a value.
    pub open spec fn fields(m: StoppedEventBodyView) -> JsonObject {
        let o = empty_object();
        let o = with_field::<StoppedEventReason>(o, "reason"@, m.reason);
        let o = with_opt_field::<String>(o, "description"@, m.description);
        let o = with_opt_field::<i32>(o, "threadId"@, m.thread_id);
        let o = with_nondefault_field::<bool>(o, "preserveFocusHint"@, m.preserve_focus_hint, false);
        let o = with_opt_field::<String>(o, "text"@, m.text);
        let o = with_nondefault_field::<bool>(o, "allThreadsStopped"@, m.all_threads_stopped, false);
        let o = with_nondefault_field::<Vec<i32>>(o, "hitBreakpointIds"@, m.hit_breakpoint_ids, Seq::empty());
        o
    }

    /// What the fields of an object decode to: the first failure in the order of
    /// the fields, or the value.
    pub open spec fn decode_fields(o: JsonObject) -> Result<StoppedEventBodyView, DecodeErrorView> {
        let reason = req_field::<StoppedEventReason>(o, "reason"@);
        let description = opt_field::<String>(o, "description"@);
        let thread_id = opt_field::<i32>(o, "threadId"@);
        let preserve_focus_hint = default_field::<bool>(o, "preserveFocusHint"@, false);
        let text = opt_field::<String>(o, "text"@);
        let all_threads_stopped = default_field::<bool>(o, "allThreadsStopped"@, false);
        let hit_breakpoint_ids = default_field::<Vec<i32>>(o, "hitBreakpointIds"@, Seq::empty());
        if reason is Err {
            Err(reason->Err_0)
        } else if description is Err {
            Err(description->Err_0)
        } else if thread_id is Err {
            Err(thread_id->Err_0)
        } else if preserve_focus_hint is Err {
            Err(preserve_focus_hint->Err_0)
        } else if text is Err {
            Err(text->Err_0)
        } else if all_threads_stopped is Err {
            Err(all_threads_stopped->Err_0)
        } else if hit_breakpoint_ids is Err {
            Err(hit_breakpoint_ids->Err_0)
        } else {
            Ok(StoppedEventBodyView {
                reason: reason->Ok_0,
                description: description->Ok_0,
                thread_id: thread_id->Ok_0,
                preserve_focus_hint: preserve_focus_hint->Ok_0,
                text: text->Ok_0,
                all_threads_stopped: all_threads_stopped->Ok_0,
                hit_breakpoint_ids: hit_breakpoint_ids->Ok_0,
            })
        }
    }

    /// Writes the fields of the value into a fresh object.
    pub fn to_object(&self) -> (o: serde_json::Map<String, serde_json::Value>)
        ensures
            object_model(o) == StoppedEventBody::fields(self@),
    {
        let mut o = object_new();
        put::<StoppedEventReason>(&mut o, "reason", &self.reason);
        put_opt::<String>(&mut o, "description", &self.description);
        put_opt::<i32>(&mut o, "threadId", &self.thread_id);
        put_flag(&mut o, "preserveFocusHint", self.preserve_focus_hint);
        put_opt::<String>(&mut o, "text", &self.text);
        put_flag(&mut o, "allThreadsStopped", self.all_threads_stopped);
        put_nonempty::<i32>(&mut o, "hitBreakpointIds", &self.hit_breakpoint_ids);
        o
    }

    /// Reads a value from the fields of an object.
    pub fn from_object(o: &serde_json::Map<String, serde_json::Value>) -> (r: Result<
        StoppedEventBody,
        DecodeError,
    >)
        ensures
            match r {
                Ok(x) => StoppedEventBody::decode_fields(object_model(*o)) matches Ok(m) && m == x.model(),
                Err(e) => StoppedEventBody::decode_fields(object_model(*o)) matches Err(f) && f == e@,
            },
    {
        let reason = get_req::<StoppedEventReason>(o, "reason")?;
        let description = get_opt::<String>(o, "description")?;
        let thread_id = get_opt::<i32>(o, "threadId")?;
        let preserve_focus_hint = get_or::<bool>(o, "preserveFocusHint", false)?;
        let text = get_opt::<String>(o, "text")?;
        let all_threads_stopped = get_or::<bool>(o, "allThreadsStopped", false)?;
        let hit_breakpoint_ids = get_or_empty::<i32>(o, "hitBreakpointIds")?;
        Ok(StoppedEventBody { reason, description, thread_id, preserve_focus_hint, text, all_threads_stopped, hit_breakpoint_ids })
    }
}

impl Wire for StoppedEventBody {
    type Model = StoppedEventBodyView;

    open spec fn model(&self) -> StoppedEventBodyView {
        self@
    }

    open spec fn wire_ok(m: StoppedEventBodyView) -> bool {
        true
    }

    open spec fn encode_json(m: StoppedEventBodyView) -> Json {
        Json::Object(StoppedEventBody::fields(m))
    }

    open spec fn decode_json(j: Json) -> Result<StoppedEventBodyView, DecodeErrorView> {
        match j {
            Json::Object(o) => StoppedEventBody::decode_fields(o),
            _ => Err(DecodeErrorView::InvalidType),
        }
    }

    fn to_value(&self) -> (r: serde_json::Value) {
        value_object(self.to_object())
    }

    fn from_value(v: &serde_json::Value) -> (r: Result<StoppedEventBody, DecodeError>) {
        match value_as_object(v) {
            Some(o) => StoppedEventBody::from_object(o),
            None => Err(DecodeError::InvalidType),
        }
    }

    proof fn lemma_round_trip(m: StoppedEventBodyView) {
        broadcast use group_field_rules;

        reveal(default_field);
        reveal(opt_field);
        reveal(req_field);
        reveal_strlit("reason");
        reveal_strlit("description");
        reveal_strlit("threadId");
        reveal_strlit("preserveFocusHint");
        reveal_strlit("text");
        reveal_strlit("allThreadsStopped");
        reveal_strlit("hitBreakpointIds");
        assert("reason"@.len() == 6);
        assert("description"@.len() == 11);
        assert("threadId"@.len() == 8);
        assert("preserveFocusHint"@.len() == 17);
        assert("text"@.len() == 4);
        assert("allThreadsStopped"@.len() == 17);
        assert("hitBreakpointIds"@.len() == 16);
        assert("preserveFocusHint"@[0] != "allThreadsStopped"@[0]);
        let o = StoppedEventBody::fields(m);
        StoppedEventReason::lemma_round_trip(m.reason);
        assert(req_field::<StoppedEventReason>(o, "reason"@) matches Ok(v) && v == m.reason);
        Option::<String>::lemma_round_trip(m.description);
        assert(opt_field::<String>(o, "description"@) matches Ok(v) && v == m.description);
        Option::<i32>::lemma_round_trip(m.thread_id);
        assert(opt_field::<i32>(o, "threadId"@) matches Ok(v) && v == m.thread_id);
        bool::lemma_round_trip(m.preserve_focus_hint);
        assert(default_field::<bool>(o, "preserveFocusHint"@, false) matches Ok(v) && v == m.preserve_focus_hint);
        Option::<String>::lemma_round_trip(m.text);
        assert(opt_field::<String>(o, "text"@) matches Ok(v) && v == m.text);
        bool::lemma_round_trip(m.all_threads_stopped);
        assert(default_field::<bool>(o, "allThreadsStopped"@, false) matches Ok(v) && v == m.all_threads_stopped);
        Vec::<i32>::lemma_round_trip(m.hit_breakpoint_ids);
        assert(default_field::<Vec<i32>>(o, "hitBreakpointIds"@, Seq::empty()) matches Ok(v) && v == m.hit_breakpoint_ids);
    }
}

impl Record for StoppedEventBody {
    open spec fn field_names() -> Set<Seq<char>> {
        set!["reason"@, "description"@, "threadId"@, "preserveFocusHint"@, "text"@, "allThreadsStopped"@, "hitBreakpointIds"@]
    }

    proof fn lemma_unknown_field(o: JsonObject, key: Seq<char>, x: Json) {
        broadcast use group_field_rules;

        reveal(default_field);
        reveal(opt_field);
        reveal(req_field);
    }
}

impl Defaults for StoppedEventBody {
    open spec fn elidable_names() -> Set<Seq<char>> {
        set!["description"@, "threadId"@, "preserveFocusHint"@, "text"@, "allThreadsStopped"@, "hitBreakpointIds"@]
    }

    open spec fn at_defaults(m: StoppedEventBodyView) -> bool {
        &&& m.description is None
        &&& m.thread_id is None
        &&& !m.preserve_focus_hint
        &&& m.text is None
        &&& !m.all_threads_stopped
        &&& m.hit_breakpoint_ids == Seq::<i32>::empty()
    }

    proof fn lemma_defaults_elided(m: StoppedEventBodyView, key: Seq<char>) {
        broadcast use group_field_rules;

        reveal_strlit("reason");
        reveal_strlit("description");
        reveal_strlit("threadId");
        reveal_strlit("preserveFocusHint");
        reveal_strlit("text");
        reveal_strlit("allThreadsStopped");
        reveal_strlit("hitBreakpointIds");
        assert("reason"@.len() == 6);
        assert("description"@.len() == 11);
        assert("threadId"@.len() == 8);
        assert("preserveFocusHint"@.len() == 17);
        assert("text"@.len() == 4);
        assert("allThreadsStopped"@.len() == 17);
        assert("hitBreakpointIds"@.len() == 16);
        assert("preserveFocusHint"@[0] != "allThreadsStopped"@[0]);
    }
}

/// The reason for the event.
///
/// For backward compatibility this string is shown in the UI if the 'description' attribute is missing (but it must not be translated).
#[derive(Clone, Copy, Debug, PartialEq, Eq, Structural)]
pub enum StoppedEventReason {
    Step,
    Breakpoint,
    Exception,
    Pause,
    Entry,
    Goto,
    FunctionBreakpoint,
    DataBreakpoint,
    InstructionBreakpoint,
}

impl StoppedEventReason {
    /// The name under which the value travels.
    pub open spec fn name(self) -> Seq<char> {
        match self {
            StoppedEventReason::Step => "step"@,
            StoppedEventReason::Breakpoint => "breakpoint"@,
            StoppedEventReason::Exception => "exception"@,
            StoppedEventReason::Pause => "pause"@,
            StoppedEventReason::Entry => "entry"@,
            StoppedEventReason::Goto => "goto"@,
            StoppedEventReason::FunctionBreakpoint => "function breakpoint"@,
            StoppedEventReason::DataBreakpoint => "data breakpoint"@,
            StoppedEventReason::InstructionBreakpoint => "instruction breakpoint"@,
        }
    }

    /// The value that travels under `s`, if there is one.
    pub open spec fn named(s: Seq<char>) -> Option<StoppedEventReason> {
        if s == "step"@ {
            Some(StoppedEventReason::Step)
        } else if s == "breakpoint"@ {
            Some(StoppedEventReason::Breakpoint)
        } else if s == "exception"@ {
            Some(StoppedEventReason::Exception)
        } else if s == "pause"@ {
            Some(StoppedEventReason::Pause)
        } else if s == "entry"@ {
            Some(StoppedEventReason::Entry)
        } else if s == "goto"@ {
            Some(StoppedEventReason::Goto)
        } else if s == "function breakpoint"@ {
            Some(StoppedEventReason::FunctionBreakpoint)
        } else if s == "data breakpoint"@ {
            Some(StoppedEventReason::DataBreakpoint)
        } else if s == "instruction breakpoint"@ {
            Some(StoppedEventReason::InstructionBreakpoint)
        } else {
            None
        }
    }

    pub fn as_str(&self) -> (r: &'static str)
        ensures
            r@ == self.name(),
    {
        match self {
            StoppedEventReason::Step => "step",
            StoppedEventReason::Breakpoint => "breakpoint",
            StoppedEventReason::Exception => "exception",
            StoppedEventReason::Pause => "pause",
            StoppedEventReason::Entry => "entry",
            StoppedEventReason::Goto => "goto",
            StoppedEventReason::FunctionBreakpoint => "function breakpoint",
            StoppedEventReason::DataBreakpoint => "data breakpoint",
            StoppedEventReason::InstructionBreakpoint => "instruction breakpoint",
        }
    }

    pub fn from_name(s: &str) -> (r: Option<StoppedEventReason>)
        ensures
            r == StoppedEventReason::named(s@),
    {
        if str_eq(s, "step") {
            Some(StoppedEventReason::Step)
        } else if str_eq(s, "breakpoint") {
            Some(StoppedEventReason::Breakpoint)
        } else if str_eq(s, "exception") {
            Some(StoppedEventReason::Exception)
        } else if str_eq(s, "pause") {
            Some(StoppedEventReason::Pause)
        } else if str_eq(s, "entry") {
            Some(StoppedEventReason::Entry)
        } else if str_eq(s, "goto") {
            Some(StoppedEventReason::Goto)
        } else if str_eq(s, "function breakpoint") {
            Some(StoppedEventReason::FunctionBreakpoint)
        } else if str_eq(s, "data breakpoint") {
            Some(StoppedEventReason::DataBreakpoint)
        } else if str_eq(s, "instruction breakpoint") {
            Some(StoppedEventReason::InstructionBreakpoint)
        } else {
            None
        }
    }

    /// Every value is found again under its name.
    pub proof fn lemma_named(self)
        ensures
            StoppedEventReason::named(self.name()) == Some(self),
    {
        reveal_strlit("step");
        reveal_strlit("breakpoint");
        reveal_strlit("exception");
        reveal_strlit("pause");
        reveal_strlit("entry");
        reveal_strlit("goto");
        reveal_strlit("function breakpoint");
        reveal_strlit("data breakpoint");
        reveal_strlit("instruction breakpoint");
        assert("step"@.len() == 4);
        assert("breakpoint"@.len() == 10);
        assert("exception"@.len() == 9);
        assert("pause"@.len() == 5);
        assert("entry"@.len() == 5);
        assert("goto"@.len() == 4);
        assert("function breakpoint"@.len() == 19);
        assert("data breakpoint"@.len() == 15);
        assert("instruction breakpoint"@.len() == 22);
        assert("step"@[0] != "goto"@[0]);
        assert("pause"@[0] != "entry"@[0]);
    }
}

impl Wire for StoppedEventReason {
    type Model = StoppedEventReason;

    open spec fn model(&self) -> StoppedEventReason {
        *self
    }

    open spec fn wire_ok(m: StoppedEventReason) -> bool {
        true
    }

    open spec fn encode_json(m: StoppedEventReason) -> Json {
        Json::Str(m.name())
    }

    open spec fn decode_json(j: Json) -> Result<StoppedEventReason, DecodeErrorView> {
        match j {
            Json::Str(s) => match StoppedEventReason::named(s) {
                Some(x) => Ok(x),
                None => Err(DecodeErrorView::InvalidType),
            },
            _ => Err(DecodeErrorView::InvalidType),
        }
    }

    fn to_value(&self) -> (r: serde_json::Value) {
        value_string(self.as_str().to_owned())
    }

    fn from_value(v: &serde_json::Value) -> (r: Result<StoppedEventReason, DecodeError>) {
        match value_as_str(v) {
            Some(s) => match StoppedEventReason::from_name(s) {
                Some(x) => Ok(x),
                None => Err(DecodeError::InvalidType),
            },
            None => Err(DecodeError::InvalidType),
        }
    }

    proof fn lemma_round_trip(m: StoppedEventReason) {
        m.lemma_named();
    }
}

#[derive(Clone, Debug, PartialEq, Eq)]
pub struct TerminatedEventBody {
    /// A debug adapter may set 'restart' to true (or to an arbitrary object) to request that the front end restarts the session.
    ///
    /// The value is not interpreted by the client and passed unmodified as an attribute '__restart' to the 'launch' and 'attach' requests.
    pub restart: Option<serde_json::Value>,
}

/// The mathematical content of a [`TerminatedEventBody`].
pub struct TerminatedEventBodyView {
    pub restart: Option<Json>,
}

impl View for TerminatedEventBody {
    type V = TerminatedEventBodyView;

    open spec fn view(&self) -> TerminatedEventBodyView {
        TerminatedEventBodyView {
            restart: self.restart.model(),
        }
    }
}

impl TerminatedEventBody {
    /// The fields that are written for a value.
    pub open spec fn fields(m: TerminatedEventBodyView) -> JsonObject {
        let o = empty_object();
        let o = with_opt_field::<serde_json::Value>(o, "restart"@, m.restart);
        o
    }

    /// What the fields of an object decode to: the first failure in the order of
    /// the fields, or the value.
    pub open spec fn decode_fields(o: JsonObject) -> Result<TerminatedEventBodyView, DecodeErrorView> {
        let restart = opt_field::<serde_json::Value>(o, "restart"@);
        if restart is Err {
            Err(restart->Err_0)
        } else {
            Ok(TerminatedEventBodyView {
                restart: restart->Ok_0,
            })
        }
    }

    /// Writes the fields of the value into a fresh object.
    pub fn to_object(&self) -> (o: serde_json::Map<String, serde_json::Value>)
        ensures
            object_model(o) == TerminatedEventBody::fields(self@),
    {
        let mut o = object_new();
        put_opt::<serde_json::Value>(&mut o, "restart", &self.restart);
        o
    }

    /// Reads a value from the fields of an object.
    pub fn from_object(o: &serde_json::Map<String, serde_json::Value>) -> (r: Result<
        TerminatedEventBody,
        DecodeError,
    >)
        ensures
            match r {
                Ok(x) => TerminatedEventBody::decode_fields(object_model(*o)) matches Ok(m) && m == x.model(),
                Err(e) => TerminatedEventBody::decode_fields(object_model(*o)) matches Err(f) && f == e@,
            },
    {
        let restart = get_opt::<serde_json::Value>(o, "restart")?;
        Ok(TerminatedEventBody { restart })
    }
}

impl Wire for TerminatedEventBody {
    type Model = TerminatedEventBodyView;

    open spec fn model(&self) -> TerminatedEventBodyView {
        self@
    }

    open spec fn wire_ok(m: TerminatedEventBodyView) -> bool {
        &&& Option::<serde_json::Value>::wire_ok(m.restart)
    }

    open spec fn encode_json(m: TerminatedEventBodyView) -> Json {
        Json::Object(TerminatedEventBody::fields(m))
    }

    open spec fn decode_json(j: Json) -> Result<TerminatedEventBodyView, DecodeErrorView> {
        match j {
            Json::Object(o) => TerminatedEventBody::decode_fields(o),
            _ => Err(DecodeErrorView::InvalidType),
        }
    }

    fn to_value(&self) -> (r: serde_json::Value) {
        value_object(self.to_object())
    }

    fn from_value(v: &serde_json::Value) -> (r: Result<TerminatedEventBody, DecodeError>) {
        match value_as_object(v) {
            Some(o) => TerminatedEventBody::from_object(o),
            None => Err(DecodeError::InvalidType),
        }
    }

    proof fn lemma_round_trip(m: TerminatedEventBodyView) {
        broadcast use group_field_rules;

        reveal(opt_field);
        reveal_strlit("restart");
        assert("restart"@.len() == 7);
        let o = TerminatedEventBody::fields(m);
        Option::<serde_json::Value>::lemma_round_trip(m.restart);
        assert(opt_field::<serde_json::Value>(o, "restart"@) matches Ok(v) && v == m.restart);
    }
}

impl Record for TerminatedEventBody {
    open spec fn field_names() -> Set<Seq<char>> {
        set!["restart"@]
    }

    proof fn lemma_unknown_field(o: JsonObject, key: Seq<char>, x: Json) {
        broadcast use group_field_rules;

        reveal(opt_field);
    }
}

impl Defaults for TerminatedEventBody {
    open spec fn elidable_names() -> Set<Seq<char>> {
        set!["restart"@]
    }

    open spec fn at_defaults(m: TerminatedEventBodyView) -> bool {
        &&& m.restart is None
    }

    proof fn lemma_defaults_elided(m: TerminatedEventBodyView, key: Seq<char>) {
        broadcast use group_field_rules;

        reveal_strlit("restart");
        assert("restart"@.len() == 7);
    }
}

#[derive(Clone, Debug, PartialEq, Eq)]
pub struct ThreadEventBody {
    /// The reason for the event.
    pub reason: ThreadEventReason,

    /// The identifier of the thread.
    pub thread_id: i32,
}

impl ThreadEventBody {
    /// The fields that are written for a value.
    pub open spec fn fields(m: ThreadEventBody) -> JsonObject {
        let o = empty_object();
        let o = with_field::<ThreadEventReason>(o, "reason"@, m.reason);
        let o = with_field::<i32>(o, "threadId"@, m.thread_id);
        o
    }

    /// What the fields of an object decode to: the first failure in the order of
    /// the fields, or the value.
    pub open spec fn decode_fields(o: JsonObject) -> Result<ThreadEventBody, DecodeErrorView> {
        let reason = req_field::<ThreadEventReason>(o, "reason"@);
        let thread_id = req_field::<i32>(o, "threadId"@);
        if reason is Err {
            Err(reason->Err_0)
        } else if thread_id is Err {
            Err(thread_id->Err_0)
        } else {
            Ok(ThreadEventBody {
                reason: reason->Ok_0,
                thread_id: thread_id->Ok_0,
            })
        }
    }

    /// Writes the fields of the value into a fresh object.
    pub fn to_object(&self) -> (o: serde_json::Map<String, serde_json::Value>)
        ensures
            object_model(o) == ThreadEventBody::fields(*self),
    {
        let mut o = object_new();
        put::<ThreadEventReason>(&mut o, "reason", &self.reason);
        put::<i32>(&mut o, "threadId", &self.thread_id);
        o
    }

    /// Reads a value from the fields of an object.
    pub fn from_object(o: &serde_json::Map<String, serde_json::Value>) -> (r: Result<
        ThreadEventBody,
        DecodeError,
    >)
        ensures
            match r {
                Ok(x) => ThreadEventBody::decode_fields(object_model(*o)) matches Ok(m) && m == x.model(),
                Err(e) => ThreadEventBody::decode_fields(object_model(*o)) matches Err(f) && f == e@,
            },
    {
        let reason = get_req::<ThreadEventReason>(o, "reason")?;
        let thread_id = get_req::<i32>(o, "threadId")?;
        Ok(ThreadEventBody { reason, thread_id })
    }
}

impl Wire for ThreadEventBody {
    type Model = ThreadEventBody;

    open spec fn model(&self) -> ThreadEventBody {
        *self
    }

    open spec fn wire_ok(m: ThreadEventBody) -> bool {
        true
    }

    open spec fn encode_json(m: ThreadEventBody) -> Json {
        Json::Object(ThreadEventBody::fields(m))
    }

    open spec fn decode_json(j: Json) -> Result<ThreadEventBody, DecodeErrorView> {
        match j {
            Json::Object(o) => ThreadEventBody::decode_fields(o),
            _ => Err(DecodeErrorView::InvalidType),
        }
    }

    fn to_value(&self) -> (r: serde_json::Value) {
        value_object(self.to_object())
    }

    fn from_value(v: &serde_json::Value) -> (r: Result<ThreadEventBody, DecodeError>) {
        match value_as_object(v) {
            Some(o) => ThreadEventBody::from_object(o),
            None => Err(DecodeError::InvalidType),
        }
    }

    proof fn lemma_round_trip(m: ThreadEventBody) {
        broadcast use group_field_rules;

        reveal(req_field);
        reveal_strlit("reason");
        reveal_strlit("threadId");
        assert("reason"@.len() == 6);
        assert("threadId"@.len() == 8);
        let o = ThreadEventBody::fields(m);
        ThreadEventReason::lemma_round_trip(m.reason);
        assert(req_field::<ThreadEventReason>(o, "reason"@) matches Ok(v) && v == m.reason);
        i32::lemma_round_trip(m.thread_id);
        assert(req_field::<i32>(o, "threadId"@) matches Ok(v) && v == m.thread_id);
    }
}

impl Record for ThreadEventBody {
    open spec fn field_names() -> Set<Seq<char>> {
        set!["reason"@, "threadId"@]
    }

    proof fn lemma_unknown_field(o: JsonObject, key: Seq<char>, x: Json) {
        broadcast use group_field_rules;

        reveal(req_field);
    }
}

/// The reason for the event.
#[derive(Clone, Copy, Debug, PartialEq, Eq, Structural)]
pub enum ThreadEventReason {
    Started,
    Exited,
}

impl ThreadEventReason {
    /// The name under which the value travels.
    pub open spec fn name(self) -> Seq<char> {
        match self {
            ThreadEventReason::Started => "started"@,
            ThreadEventReason::Exited => "exited"@,
        }
    }

    /// The value that travels under `s`, if there is one.
    pub open spec fn named(s: Seq<char>) -> Option<ThreadEventReason> {
        if s == "started"@ {
            Some(ThreadEventReason::Started)
        } else if s == "exited"@ {
            Some(ThreadEventReason::Exited)
        } else {
            None
        }
    }

    pub fn as_str(&self) -> (r: &'static str)
        ensures
            r@ == self.name(),
    {
        match self {
            ThreadEventReason::Started => "started",
            ThreadEventReason::Exited => "exited",
        }
    }

    pub fn from_name(s: &str) -> (r: Option<ThreadEventReason>)
        ensures
            r == ThreadEventReason::named(s@),
    {
        if str_eq(s, "started") {
            Some(ThreadEventReason::Started)
        } else if str_eq(s, "exited") {
            Some(ThreadEventReason::Exited)
        } else {
            None
        }
    }

    /// Every value is found again under its name.
    pub proof fn lemma_named(self)
        ensures
            ThreadEventReason::named(self.name()) == Some(self),
    {
        reveal_strlit("started");
        reveal_strlit("exited");
        assert("started"@.len() == 7);
        assert("exited"@.len() == 6);
    }
}

impl Wire for ThreadEventReason {
    type Model = ThreadEventReason;

    open spec fn model(&self) -> ThreadEventReason {
        *self
    }

    open spec fn wire_ok(m: ThreadEventReason) -> bool {
        true
    }

    open spec fn encode_json(m: ThreadEventReason) -> Json {
        Json::Str(m.name())
    }

    open spec fn decode_json(j: Json) -> Result<ThreadEventReason, DecodeErrorView> {
        match j {
            Json::Str(s) => match ThreadEventReason::named(s) {
                Some(x) => Ok(x),
                None => Err(DecodeErrorView::InvalidType),
            },
            _ => Err(DecodeErrorView::InvalidType),
        }
    }

    fn to_value(&self) -> (r: serde_json::Value) {
        value_string(self.as_str().to_owned())
    }

    fn from_value(v: &serde_json::Value) -> (r: Result<ThreadEventReason, DecodeError>) {
        match value_as_str(v) {
            Some(s) => match ThreadEventReason::from_name(s) {
                Some(x) => Ok(x),
                None => Err(DecodeError::InvalidType),
            },
            None => Err(DecodeError::InvalidType),
        }
    }

    proof fn lemma_round_trip(m: ThreadEventReason) {
        m.lemma_named();
    }
}

} // verus!
