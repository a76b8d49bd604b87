use crate::SequenceNumber;
use crate::error::{DecodeError, DecodeErrorView};
use crate::json::{
    empty_object, field, json_model, object_append, object_get, object_model, object_new, str_eq,
    value_as_object, value_object, Json, JsonObject,
};
use crate::table::{extend, place, store};
use crate::types::{
    Breakpoint, BreakpointLocation, BreakpointView, Capabilities, CapabilitiesView, CompletionItem,
    CompletionItemView, DataBreakpointAccessType, DisassembledInstruction,
    DisassembledInstructionView, ExceptionBreakMode, ExceptionDetails, ExceptionDetailsView,
    GotoTarget, GotoTargetView, Message, MessageView, Module, ModuleView, Scope, ScopeView, Source,
    SourceView, StackFrame, StackFrameView, StepInTarget, StepInTargetView, Thread, ThreadView,
    Variable, VariablePresentationHint, VariablePresentationHintView, VariableView,
};
use crate::wire::{
    default_field, get_opt, get_or, get_req, group_field_rules, opt_field, put, put_flag, put_opt,
    put_str, req_field, with_field, with_nondefault_field, with_opt_field, Defaults, Record, Wire,
};
use vstd::prelude::*;

verus! {

/// Response for a request.
#[derive(Debug, PartialEq, Eq)]
pub struct Response {
    /// Sequence number of the corresponding request.
    pub request_seq: SequenceNumber,

    /// What the request led to: the result of a request that succeeded, or the
    /// account of its failure.
    pub result: Result<SuccessResponse, ErrorResponse>,
}

impl Clone for Response {
    fn clone(&self) -> (r: Response) {
        Response {
            request_seq: self.request_seq,
            result: match &self.result {
                Ok(s) => Ok(s.clone()),
                Err(e) => Err(e.clone()),
            },
        }
    }
}

/// The mathematical content of a [`Response`].
pub struct ResponseView {
    pub request_seq: u64,
    pub result: Result<SuccessResponseView, ErrorResponseView>,
}

impl View for Response {
    type V = ResponseView;

    open spec fn view(&self) -> ResponseView {
        ResponseView {
            request_seq: self.request_seq,
            result: match self.result {
                Ok(s) => Ok(s@),
                Err(e) => Err(e@),
            },
        }
    }
}

impl Response {
    /// The fields that every response bears: the sequence number of the
    /// request, and the flag that tells the two shapes apart. The flag is
    /// always written.
    pub open spec fn head(m: ResponseView) -> JsonObject {
        let o = empty_object();
        let o = with_field::<u64>(o, "request_seq"@, m.request_seq);
        let o = with_field::<bool>(o, "success"@, m.result is Ok);
        o
    }

    /// The fields that are written for a response: the head, then the fields
    /// of the shape that the result has.
    pub open spec fn fields(m: ResponseView) -> JsonObject {
        match m.result {
            Ok(s) => extend(Response::head(m), SuccessResponse::fields(s)),
            Err(e) => extend(Response::head(m), ErrorResponse::fields(e)),
        }
    }

    /// What the fields of an object decode to. The flag is read first, and
    /// decides as which of the two shapes the object is read.
    pub open spec fn decode_fields(o: JsonObject) -> Result<ResponseView, DecodeErrorView> {
        match req_field::<bool>(o, "success"@) {
            Err(e) => Err(e),
            Ok(success) => match req_field::<u64>(o, "request_seq"@) {
                Err(e) => Err(e),
                Ok(request_seq) => if success {
                    match SuccessResponse::decode_fields(o) {
                        Ok(s) => Ok(ResponseView { request_seq, result: Ok(s) }),
                        Err(e) => Err(e),
                    }
                } else {
                    match ErrorResponse::decode_fields(o) {
                        Ok(x) => Ok(ResponseView { request_seq, result: Err(x) }),
                        Err(e) => Err(e),
                    }
                },
            },
        }
    }

    /// Writes the fields of the value into a fresh object.
    pub fn to_object(&self) -> (o: serde_json::Map<String, serde_json::Value>)
        ensures
            object_model(o) == Response::fields(self@),
    {
        let mut o = object_new();
        put::<u64>(&mut o, "request_seq", &self.request_seq);
        match &self.result {
            Ok(s) => {
                put::<bool>(&mut o, "success", &true);
                object_append(&mut o, s.to_object());
            },
            Err(e) => {
                put::<bool>(&mut o, "success", &false);
                object_append(&mut o, e.to_object());
            },
        }
        o
    }

    /// Reads a value from the fields of an object.
    pub fn from_object(o: &serde_json::Map<String, serde_json::Value>) -> (r: Result<
        Response,
        DecodeError,
    >)
        ensures
            match r {
                Ok(x) => Response::decode_fields(object_model(*o)) matches Ok(m) && m == x@,
                Err(e) => Response::decode_fields(object_model(*o)) matches Err(f) && f == e@,
            },
    {
        let success = get_req::<bool>(o, "success")?;
        let request_seq = get_req::<u64>(o, "request_seq")?;
        if success {
            match SuccessResponse::from_object(o) {
                Ok(s) => Ok(Response { request_seq, result: Ok(s) }),
                Err(e) => Err(e),
            }
        } else {
            match ErrorResponse::from_object(o) {
                Ok(x) => Ok(Response { request_seq, result: Err(x) }),
                Err(e) => Err(e),
            }
        }
    }

    /// An object without the flag is no response.
    pub proof fn lemma_success_required(o: JsonObject)
        requires
            field(o, "success"@) is None,
        ensures
            Response::decode_fields(o) == Err::<ResponseView, DecodeErrorView>(
                DecodeErrorView::MissingField("success"@),
            ),
    {
        reveal(req_field);
    }

    /// An object whose flag is no truth value is no response.
    pub proof fn lemma_success_is_flag(o: JsonObject)
        requires
            field(o, "success"@) matches Some(j) && !(j is Bool),
        ensures
            Response::decode_fields(o) == Err::<ResponseView, DecodeErrorView>(
                DecodeErrorView::InvalidType,
            ),
    {
        reveal(req_field);
    }

    /// The flag decides the shape: a response that was decoded is a success
    /// exactly where the flag is `true`, and a failure exactly where it is
    /// `false`.
    pub proof fn lemma_success_decides(o: JsonObject)
        requires
            Response::decode_fields(o) is Ok,
        ensures
            Response::decode_fields(o)->Ok_0.result is Ok <==> field(o, "success"@) == Some(
                Json::Bool(true),
            ),
            Response::decode_fields(o)->Ok_0.result is Err <==> field(o, "success"@) == Some(
                Json::Bool(false),
            ),
    {
        reveal(req_field);
    }

    /// Where the flag is `true`, the field that only a failure bears is not
    /// read: the object decodes to the same with it as without it.
    pub proof fn lemma_success_ignores_message(o: JsonObject, x: Json)
        requires
            field(o, "success"@) == Some(Json::Bool(true)),
        ensures
            Response::decode_fields(store(o, "message"@, x)) == Response::decode_fields(o),
    {
        broadcast use group_field_rules;

        reveal(req_field);
        reveal_strlit("message");
        reveal_strlit("success");
        reveal_strlit("request_seq");
        reveal_strlit("command");
        reveal_strlit("body");
        assert("message"@.len() == 7);
        assert("success"@.len() == 7);
        assert("request_seq"@.len() == 11);
        assert("command"@.len() == 7);
        assert("body"@.len() == 4);
        assert("message"@[0] != "success"@[0]);
        assert("message"@[0] != "command"@[0]);
    }

    /// Two objects that agree on the known fields decode to the same.
    pub proof fn lemma_same_known_fields(a: JsonObject, b: JsonObject)
        requires
            forall|key: Seq<char>|
                Response::field_names().contains(key) ==> field(a, key) == field(b, key),
        ensures
            Response::decode_fields(a) == Response::decode_fields(b),
    {
        reveal(req_field);
        assert(Response::field_names().contains("request_seq"@));
        assert(Response::field_names().contains("success"@));
        assert(Response::field_names().contains("command"@));
        assert(Response::field_names().contains("message"@));
        assert(Response::field_names().contains("body"@));
        assert(SuccessResponse::decode_fields(a) == SuccessResponse::decode_fields(b));
        assert(ErrorResponse::decode_fields(a) == ErrorResponse::decode_fields(b));
    }

    /// Nothing is written but the known fields.
    pub proof fn lemma_writes_known_fields(m: ResponseView, key: Seq<char>)
        requires
            !Response::field_names().contains(key),
        ensures
            field(Response::fields(m), key) is None,
    {
        broadcast use group_field_rules;

        match m.result {
            Ok(s) => {
                SuccessResponse::lemma_writes_known_fields(s, key);
            },
            Err(e) => {
                ErrorResponse::lemma_writes_known_fields(e, key);
            },
        }
    }
}

impl Wire for Response {
    type Model = ResponseView;

    open spec fn model(&self) -> ResponseView {
        self@
    }

    open spec fn wire_ok(m: ResponseView) -> bool {
        match m.result {
            Ok(s) => SuccessResponse::wire_ok(s),
            Err(e) => ErrorResponse::wire_ok(e),
        }
    }

    open spec fn encode_json(m: ResponseView) -> Json {
        Json::Object(Response::fields(m))
    }

    open spec fn decode_json(j: Json) -> Result<ResponseView, DecodeErrorView> {
        match j {
            Json::Object(o) => Response::decode_fields(o),
            _ => Err(DecodeErrorView::InvalidType),
        }
    }

    fn to_value(&self) -> (r: serde_json::Value) {
        value_object(self.to_object())
    }

    fn from_value(v: &serde_json::Value) -> (r: Result<Response, DecodeError>) {
        match value_as_object(v) {
            Some(o) => Response::from_object(o),
            None => Err(DecodeError::InvalidType),
        }
    }

    proof fn lemma_round_trip(m: ResponseView) {
        broadcast use group_field_rules;

        reveal(req_field);
        reveal_strlit("success");
        reveal_strlit("request_seq");
        reveal_strlit("command");
        reveal_strlit("message");
        reveal_strlit("body");
        assert("success"@.len() == 7);
        assert("request_seq"@.len() == 11);
        assert("command"@.len() == 7);
        assert("message"@.len() == 7);
        assert("body"@.len() == 4);
        assert("success"@[0] != "command"@[0]);
        assert("success"@[0] != "message"@[0]);
        let o = Response::fields(m);
        match m.result {
            Ok(s) => {
                let inner = SuccessResponse::fields(s);
                SuccessResponse::lemma_round_trip(s);
                SuccessResponse::lemma_writes_known_fields(s, "success"@);
                SuccessResponse::lemma_writes_known_fields(s, "request_seq"@);
                assert(field(o, "command"@) == field(inner, "command"@));
                assert(field(o, "body"@) == field(inner, "body"@));
                assert(SuccessResponse::decode_fields(o) == SuccessResponse::decode_fields(inner));
            },
            Err(e) => {
                let inner = ErrorResponse::fields(e);
                ErrorResponse::lemma_round_trip(e);
                ErrorResponse::lemma_writes_known_fields(e, "success"@);
                ErrorResponse::lemma_writes_known_fields(e, "request_seq"@);
                assert(field(o, "command"@) == field(inner, "command"@));
                assert(field(o, "message"@) == field(inner, "message"@));
                assert(field(o, "body"@) == field(inner, "body"@));
                assert(ErrorResponse::decode_fields(o) == ErrorResponse::decode_fields(inner));
            },
        }
    }
}

impl Record for Response {
    open spec fn field_names() -> Set<Seq<char>> {
        set!["request_seq"@, "success"@, "command"@, "message"@, "body"@]
    }

    proof fn lemma_unknown_field(o: JsonObject, key: Seq<char>, x: Json) {
        broadcast use group_field_rules;

        reveal(req_field);
        SuccessResponse::lemma_unknown_field(o, key, x);
        ErrorResponse::lemma_unknown_field(o, key, x);
    }
}

#[derive(Clone, Debug, PartialEq, Eq)]
pub struct ErrorResponse {
    /// The command requested.
    pub command: String,

    /// Contains the raw error in short form if 'success' is false.
    /// This raw error might be interpreted by the frontend and is not shown in the
    /// UI.
    /// Some predefined values exist.
    /// Values:
    /// 'cancelled': request was cancelled.
    /// etc.
    pub message: String,
    pub body: ErrorResponseBody,
}

/// The mathematical content of a [`ErrorResponse`].
pub struct ErrorResponseView {
    pub command: Seq<char>,
    pub message: Seq<char>,
    pub body: ErrorResponseBodyView,
}

impl View for ErrorResponse {
    type V = ErrorResponseView;

    open spec fn view(&self) -> ErrorResponseView {
        ErrorResponseView {
            command: self.command.model(),
            message: self.message.model(),
            body: self.body.model(),
        }
    }
}

impl ErrorResponse {
    /// The fields that are written for a value.
    pub open spec fn fields(m: ErrorResponseView) -> JsonObject {
        let o = empty_object();
        let o = with_field::<String>(o, "command"@, m.command);
        let o = with_field::<String>(o, "message"@, m.message);
        let o = with_field::<ErrorResponseBody>(o, "body"@, m.body);
        o
    }

    /// What the fields of an object decode to: the first failure in the order of
    /// the fields, or the value.
    pub open spec fn decode_fields(o: JsonObject) -> Result<ErrorResponseView, DecodeErrorView> {
        let command = req_field::<String>(o, "command"@);
        let message = req_field::<String>(o, "message"@);
        let body = req_field::<ErrorResponseBody>(o, "body"@);
        if command is Err {
            Err(command->Err_0)
        } else if message is Err {
            Err(message->Err_0)
        } else if body is Err {
            Err(body->Err_0)
        } else {
            Ok(ErrorResponseView {
                command: command->Ok_0,
                message: message->Ok_0,
                body: body->Ok_0,
            })
        }
    }

    /// Writes the fields of the value into a fresh object.
    pub fn to_object(&self) -> (o: serde_json::Map<String, serde_json::Value>)
        ensures
            object_model(o) == ErrorResponse::fields(self@),
    {
        let mut o = object_new();
        put::<String>(&mut o, "command", &self.command);
        put::<String>(&mut o, "message", &self.message);
        put::<ErrorResponseBody>(&mut o, "body", &self.body);
        o
    }

    /// Reads a value from the fields of an object.
    pub fn from_object(o: &serde_json::Map<String, serde_json::Value>) -> (r: Result<
        ErrorResponse,
        DecodeError,
    >)
        ensures
            match r {
                Ok(x) => ErrorResponse::decode_fields(object_model(*o)) matches Ok(m) && m == x.model(),
                Err(e) => ErrorResponse::decode_fields(object_model(*o)) matches Err(f) && f == e@,
            },
    {
        let command = get_req::<String>(o, "command")?;
        let message = get_req::<String>(o, "message")?;
        let body = get_req::<ErrorResponseBody>(o, "body")?;
        Ok(ErrorResponse { command, message, body })
    }

    /// Nothing is written but the known fields.
    pub proof fn lemma_writes_known_fields(m: ErrorResponseView, key: Seq<char>)
        requires
            !ErrorResponse::field_names().contains(key),
        ensures
            field(ErrorResponse::fields(m), key) is None,
    {
        broadcast use group_field_rules;

    }
}

impl Wire for ErrorResponse {
    type Model = ErrorResponseView;

    open spec fn model(&self) -> ErrorResponseView {
        self@
    }

    open spec fn wire_ok(m: ErrorResponseView) -> bool {
        &&& ErrorResponseBody::wire_ok(m.body)
    }

    open spec fn encode_json(m: ErrorResponseView) -> Json {
        Json::Object(ErrorResponse::fields(m))
    }

    open spec fn decode_json(j: Json) -> Result<ErrorResponseView, DecodeErrorView> {
        match j {
            Json::Object(o) => ErrorResponse::decode_fields(o),
            _ => Err(DecodeErrorView::InvalidType),
        }
    }

    fn to_value(&self) -> (r: serde_json::Value) {
        value_object(self.to_object())
    }

    fn from_value(v: &serde_json::Value) -> (r: Result<ErrorResponse, DecodeError>) {
        match value_as_object(v) {
            Some(o) => ErrorResponse::from_object(o),
            None => Err(DecodeError::InvalidType),
        }
    }

    proof fn lemma_round_trip(m: ErrorResponseView) {
        broadcast use group_field_rules;

        reveal(req_field);
        reveal_strlit("command");
        reveal_strlit("message");
        reveal_strlit("body");
        assert("command"@.len() == 7);
        assert("message"@.len() == 7);
        assert("body"@.len() == 4);
        assert("command"@[0] != "message"@[0]);
        let o = ErrorResponse::fields(m);
        String::lemma_round_trip(m.command);
        assert(req_field::<String>(o, "command"@) matches Ok(v) && v == m.command);
        String::lemma_round_trip(m.message);
        assert(req_field::<String>(o, "message"@) matches Ok(v) && v == m.message);
        ErrorResponseBody::lemma_round_trip(m.body);
        assert(req_field::<ErrorResponseBody>(o, "body"@) matches Ok(v) && v == m.body);
    }
}

impl Record for ErrorResponse {
    open spec fn field_names() -> Set<Seq<char>> {
        set!["command"@, "message"@, "body"@]
    }

    proof fn lemma_unknown_field(o: JsonObject, key: Seq<char>, x: Json) {
        broadcast use group_field_rules;

        reveal(req_field);
    }
}

#[derive(Clone, Debug, PartialEq, Eq)]
pub struct ErrorResponseBody {
    /// An optional, structured error message.
    pub error: Option<Message>,
}

/// The mathematical content of a [`ErrorResponseBody`].
pub struct ErrorResponseBodyView {
    pub error: Option<MessageView>,
}

impl View for ErrorResponseBody {
    type V = ErrorResponseBodyView;

    open spec fn view(&self) -> ErrorResponseBodyView {
        ErrorResponseBodyView {
            error: self.error.model(),
        }
    }
}

impl ErrorResponseBody {
    /// The fields that are written for a value.
    pub open spec fn fields(m: ErrorResponseBodyView) -> JsonObject {
        let o = empty_object();
        let o = with_opt_field::<Message>(o, "error"@, m.error);
        o
    }

    /// What the fields of an object decode to: the first failure in the order of
    /// the fields, or the value.
    pub open spec fn decode_fields(o: JsonObject) -> Result<ErrorResponseBodyView, DecodeErrorView> {
        let error = opt_field::<Message>(o, "error"@);
        if error is Err {
            Err(error->Err_0)
        } else {
            Ok(ErrorResponseBodyView {
                error: error->Ok_0,
            })
        }
    }

    /// Writes the fields of the value into a fresh object.
    pub fn to_object(&self) -> (o: serde_json::Map<String, serde_json::Value>)
        ensures
            object_model(o) == ErrorResponseBody::fields(self@),
    {
        let mut o = object_new();
        put_opt::<Message>(&mut o, "error", &self.error);
        o
    }

    /// Reads a value from the fields of an object.
    pub fn from_object(o: &serde_json::Map<String, serde_json::Value>) -> (r: Result<
        ErrorResponseBody,
        DecodeError,
    >)
        ensures
            match r {
                Ok(x) => ErrorResponseBody::decode_fields(object_model(*o)) matches Ok(m) && m == x.model(),
                Err(e) => ErrorResponseBody::decode_fields(object_model(*o)) matches Err(f) && f == e@,
            },
    {
        let error = get_opt::<Message>(o, "error")?;
        Ok(ErrorResponseBody { error })
    }
}

impl Wire for ErrorResponseBody {
    type Model = ErrorResponseBodyView;

    open spec fn model(&self) -> ErrorResponseBodyView {
        self@
    }

    open spec fn wire_ok(m: ErrorResponseBodyView) -> bool {
        &&& Option::<Message>::wire_ok(m.error)
    }

    open spec fn encode_json(m: ErrorResponseBodyView) -> Json {
        Json::Object(ErrorResponseBody::fields(m))
    }

    open spec fn decode_json(j: Json) -> Result<ErrorResponseBodyView, DecodeErrorView> {
        match j {
            Json::Object(o) => ErrorResponseBody::decode_fields(o),
            _ => Err(DecodeErrorView::InvalidType),
        }
    }

    fn to_value(&self) -> (r: serde_json::Value) {
        value_object(self.to_object())
    }

    fn from_value(v: &serde_json::Value) -> (r: Result<ErrorResponseBody, DecodeError>) {
        match value_as_object(v) {
            Some(o) => ErrorResponseBody::from_object(o),
            None => Err(DecodeError::InvalidType),
        }
    }

    proof fn lemma_round_trip(m: ErrorResponseBodyView) {
        broadcast use group_field_rules;

        reveal(opt_field);
        reveal_strlit("error");
        assert("error"@.len() == 5);
        let o = ErrorResponseBody::fields(m);
        Option::<Message>::lemma_round_trip(m.error);
        assert(opt_field::<Message>(o, "error"@) matches Ok(v) && v == m.error);
    }
}

impl Record for ErrorResponseBody {
    open spec fn field_names() -> Set<Seq<char>> {
        set!["error"@]
    }

    proof fn lemma_unknown_field(o: JsonObject, key: Seq<char>, x: Json) {
        broadcast use group_field_rules;

        reveal(opt_field);
    }
}

impl Defaults for ErrorResponseBody {
    open spec fn elidable_names() -> Set<Seq<char>> {
        set!["error"@]
    }

    open spec fn at_defaults(m: ErrorResponseBodyView) -> bool {
        &&& m.error is None
    }

    proof fn lemma_defaults_elided(m: ErrorResponseBodyView, key: Seq<char>) {
        broadcast use group_field_rules;

        reveal_strlit("error");
        assert("error"@.len() == 5);
    }
}

/// Contains request result if success is true and optional error details if success is false.
#[derive(Clone, Debug, PartialEq, Eq)]
pub enum SuccessResponse {
    /// Response to 'attach' request. This is just an acknowledgement, so no body field is required.
    Attach,

    /// Response to 'breakpointLocations' request.
    ///
    /// Contains possible locations for source breakpoints.
    BreakpointLocations(BreakpointLocationsResponseBody),

    /// Response to 'cancel' request. This is just an acknowledgement, so no body field is required.
    Cancel,

    /// Response to 'completions' request.
    Completions(CompletionsResponseBody),

    /// Response to 'configurationDone' request. This is just an acknowledgement, so no body field is required.
    ConfigurationDone,

    /// Response to 'continue' request.
    Continue(ContinueResponseBody),

    /// Response to 'dataBreakpointInfo' request.
    DataBreakpointInfo(DataBreakpointInfoResponseBody),

    /// Response to 'disassemble' request.
    Disassemble(DisassembleResponseBody),

    /// Response to 'disconnect' request. This is just an acknowledgement, so no body field is required.
    Disconnect,

    /// Response to 'evaluate' request.
    Evaluate(EvaluateResponseBody),

    /// Response to 'exceptionInfo' request.
    ExceptionInfo(ExceptionInfoResponseBody),

    /// Response to 'goto' request. This is just an acknowledgement, so no body field is required.
    Goto,

    /// Response to 'gotoTargets' request.
    GotoTargets(GotoTargetsResponseBody),

    /// Response to 'initialize' request.
    Initialize(Capabilities),

    /// Response to 'launch' request. This is just an acknowledgement, so no body field is required.
    Launch,

    /// Response to 'loadedSources' request.
    LoadedSources(LoadedSourcesResponseBody),

    /// Response to 'modules' request.
    Modules(ModulesResponseBody),

    /// Response to 'next' request. This is just an acknowledgement, so no body field is required.
    Next,

    /// Response to 'pause' request. This is just an acknowledgement, so no body field is required.
    Pause,

    /// Response to 'readMemory' request.
    ReadMemory(ReadMemoryResponseBody),

    /// Response to 'restartFrame' request. This is just an acknowledgement, so no body field is required.
    RestartFrame,

    /// Response to 'restart' request. This is just an acknowledgement, so no body field is required.
    Restart,

    /// Response to 'reverseContinue' request. This is just an acknowledgement, so no body field is required.
    ReverseContinue,

    /// Response to 'runInTerminal' request.
    RunInTerminal(RunInTerminalResponseBody),

    /// Response to 'scopes' request.
    Scopes(ScopesResponseBody),

    /// Response to 'setBreakpoints' request.
    ///
    /// Returned is information about each breakpoint created by this request.
    ///
    /// This includes the actual code location and whether the breakpoint could be verified.
    ///
    /// The breakpoints returned are in the same order as the elements of the 'breakpoints'
    ///
    /// (or the deprecated 'lines') array in the arguments.
    SetBreakpoints(SetBreakpointsResponseBody),

    /// Response to 'setDataBreakpoints' request.
    ///
    /// Returned is information about each breakpoint created by this request.
    SetDataBreakpoints(SetDataBreakpointsResponseBody),

    /// Response to 'setExceptionBreakpoints' request.
    ///
    /// The response contains an array of Breakpoint objects with information about each exception breakpoint or filter. The Breakpoint objects are in the same order as the elements of the 'filters', 'filterOptions', 'exceptionOptions' arrays given as arguments. If both 'filters' and 'filterOptions' are given, the returned array must start with 'filters' information first, followed by 'filterOptions' information.
    ///
    /// The mandatory 'verified' property of a Breakpoint object signals whether the exception breakpoint or filter could be successfully created and whether the optional condition or hit count expressions are valid. In case of an error the 'message' property explains the problem. An optional 'id' property can be used to introduce a unique ID for the exception breakpoint or filter so that it can be updated subsequently by sending breakpoint events.
    ///
    /// For backward compatibility both the 'breakpoints' array and the enclosing 'body' are optional. If these elements are missing a client will not be able to show problems for individual exception breakpoints or filters.
    SetExceptionBreakpoints(SetExceptionBreakpointsResponseBody),

    /// Response to 'setExpression' request.
    SetExpression(SetExpressionResponseBody),

    /// Response to 'setFunctionBreakpoints' request.
    ///
    /// Returned is information about each breakpoint created by this request.
    SetFunctionBreakpoints(SetFunctionBreakpointsResponseBody),

    /// Response to 'setInstructionBreakpoints' request
    SetInstructionBreakpoints(SetInstructionBreakpointsResponseBody),

    /// Response to 'setVariable' request.
    SetVariable(SetVariableResponseBody),

    /// Response to 'source' request.
    Source(SourceResponseBody),

    /// Response to 'stackTrace' request.
    StackTrace(StackTraceResponseBody),

    /// Response to 'stepBack' request. This is just an acknowledgement, so no body field is required.
    StepBack,

    /// Response to 'stepIn' request. This is just an acknowledgement, so no body field is required.
    StepIn,

    /// Response to 'stepInTargets' request.
    StepInTargets(StepInTargetsResponseBody),

    /// Response to 'stepOut' request. This is just an acknowledgement, so no body field is required.
    StepOut,

    /// Response to 'terminate' request. This is just an acknowledgement, so no body field is required.
    Terminate,

    /// Response to 'terminateThreads' request. This is just an acknowledgement, so no body field is required.
    TerminateThreads,

    /// Response to 'threads' request.
    Threads(ThreadsResponseBody),

    /// Response to 'variables' request.
    Variables(VariablesResponseBody),
}

/// The mathematical content of a [`SuccessResponse`].
pub enum SuccessResponseView {
    Attach,
    BreakpointLocations(BreakpointLocationsResponseBodyView),
    Cancel,
    Completions(CompletionsResponseBodyView),
    ConfigurationDone,
    Continue(ContinueResponseBody),
    DataBreakpointInfo(DataBreakpointInfoResponseBodyView),
    Disassemble(DisassembleResponseBodyView),
    Disconnect,
    Evaluate(EvaluateResponseBodyView),
    ExceptionInfo(ExceptionInfoResponseBodyView),
    Goto,
    GotoTargets(GotoTargetsResponseBodyView),
    Initialize(CapabilitiesView),
    Launch,
    LoadedSources(LoadedSourcesResponseBodyView),
    Modules(ModulesResponseBodyView),
    Next,
    Pause,
    ReadMemory(ReadMemoryResponseBodyView),
    RestartFrame,
    Restart,
    ReverseContinue,
    RunInTerminal(RunInTerminalResponseBody),
    Scopes(ScopesResponseBodyView),
    SetBreakpoints(SetBreakpointsResponseBodyView),
    SetDataBreakpoints(SetDataBreakpointsResponseBodyView),
    SetExceptionBreakpoints(SetExceptionBreakpointsResponseBodyView),
    SetExpression(SetExpressionResponseBodyView),
    SetFunctionBreakpoints(SetFunctionBreakpointsResponseBodyView),
    SetInstructionBreakpoints(SetInstructionBreakpointsResponseBodyView),
    SetVariable(SetVariableResponseBodyView),
    Source(SourceResponseBodyView),
    StackTrace(StackTraceResponseBodyView),
    StepBack,
    StepIn,
    StepInTargets(StepInTargetsResponseBodyView),
    StepOut,
    Terminate,
    TerminateThreads,
    Threads(ThreadsResponseBodyView),
    Variables(VariablesResponseBodyView),
}

impl View for SuccessResponse {
    type V = SuccessResponseView;

    open spec fn view(&self) -> SuccessResponseView {
        match self {
            SuccessResponse::Attach => SuccessResponseView::Attach,
            SuccessResponse::BreakpointLocations(x) => SuccessResponseView::BreakpointLocations(x.model()),
            SuccessResponse::Cancel => SuccessResponseView::Cancel,
            SuccessResponse::Completions(x) => SuccessResponseView::Completions(x.model()),
            SuccessResponse::ConfigurationDone => SuccessResponseView::ConfigurationDone,
            SuccessResponse::Continue(x) => SuccessResponseView::Continue(x.model()),
            SuccessResponse::DataBreakpointInfo(x) => SuccessResponseView::DataBreakpointInfo(x.model()),
            SuccessResponse::Disassemble(x) => SuccessResponseView::Disassemble(x.model()),
            SuccessResponse::Disconnect => SuccessResponseView::Disconnect,
            SuccessResponse::Evaluate(x) => SuccessResponseView::Evaluate(x.model()),
            SuccessResponse::ExceptionInfo(x) => SuccessResponseView::ExceptionInfo(x.model()),
            SuccessResponse::Goto => SuccessResponseView::Goto,
            SuccessResponse::GotoTargets(x) => SuccessResponseView::GotoTargets(x.model()),
            SuccessResponse::Initialize(x) => SuccessResponseView::Initialize(x.model()),
            SuccessResponse::Launch => SuccessResponseView::Launch,
            SuccessResponse::LoadedSources(x) => SuccessResponseView::LoadedSources(x.model()),
            SuccessResponse::Modules(x) => SuccessResponseView::Modules(x.model()),
            SuccessResponse::Next => SuccessResponseView::Next,
            SuccessResponse::Pause => SuccessResponseView::Pause,
            SuccessResponse::ReadMemory(x) => SuccessResponseView::ReadMemory(x.model()),
            SuccessResponse::RestartFrame => SuccessResponseView::RestartFrame,
            SuccessResponse::Restart => SuccessResponseView::Restart,
            SuccessResponse::ReverseContinue => SuccessResponseView::ReverseContinue,
            SuccessResponse::RunInTerminal(x) => SuccessResponseView::RunInTerminal(x.model()),
            SuccessResponse::Scopes(x) => SuccessResponseView::Scopes(x.model()),
            SuccessResponse::SetBreakpoints(x) => SuccessResponseView::SetBreakpoints(x.model()),
            SuccessResponse::SetDataBreakpoints(x) => SuccessResponseView::SetDataBreakpoints(x.model()),
            SuccessResponse::SetExceptionBreakpoints(x) => SuccessResponseView::SetExceptionBreakpoints(x.model()),
            SuccessResponse::SetExpression(x) => SuccessResponseView::SetExpression(x.model()),
            SuccessResponse::SetFunctionBreakpoints(x) => SuccessResponseView::SetFunctionBreakpoints(x.model()),
            SuccessResponse::SetInstructionBreakpoints(x) => SuccessResponseView::SetInstructionBreakpoints(x.model()),
            SuccessResponse::SetVariable(x) => SuccessResponseView::SetVariable(x.model()),
            SuccessResponse::Source(x) => SuccessResponseView::Source(x.model()),
            SuccessResponse::StackTrace(x) => SuccessResponseView::StackTrace(x.model()),
            SuccessResponse::StepBack => SuccessResponseView::StepBack,
            SuccessResponse::StepIn => SuccessResponseView::StepIn,
            SuccessResponse::StepInTargets(x) => SuccessResponseView::StepInTargets(x.model()),
            SuccessResponse::StepOut => SuccessResponseView::StepOut,
            SuccessResponse::Terminate => SuccessResponseView::Terminate,
            SuccessResponse::TerminateThreads => SuccessResponseView::TerminateThreads,
            SuccessResponse::Threads(x) => SuccessResponseView::Threads(x.model()),
            SuccessResponse::Variables(x) => SuccessResponseView::Variables(x.model()),
        }
    }
}

impl SuccessResponse {
    /// The command name of a value.
    pub open spec fn tag(m: SuccessResponseView) -> Seq<char> {
        match m {
            SuccessResponseView::Attach => "attach"@,
            SuccessResponseView::BreakpointLocations(_) => "breakpointLocations"@,
            SuccessResponseView::Cancel => "cancel"@,
            SuccessResponseView::Completions(_) => "completions"@,
            SuccessResponseView::ConfigurationDone => "configurationDone"@,
            SuccessResponseView::Continue(_) => "continue"@,
            SuccessResponseView::DataBreakpointInfo(_) => "dataBreakpointInfo"@,
            SuccessResponseView::Disassemble(_) => "disassemble"@,
            SuccessResponseView::Disconnect => "disconnect"@,
            SuccessResponseView::Evaluate(_) => "evaluate"@,
            SuccessResponseView::ExceptionInfo(_) => "exceptionInfo"@,
            SuccessResponseView::Goto => "goto"@,
            SuccessResponseView::GotoTargets(_) => "gotoTargets"@,
            SuccessResponseView::Initialize(_) => "initialize"@,
            SuccessResponseView::Launch => "launch"@,
            SuccessResponseView::LoadedSources(_) => "loadedSources"@,
            SuccessResponseView::Modules(_) => "modules"@,
            SuccessResponseView::Next => "next"@,
            SuccessResponseView::Pause => "pause"@,
            SuccessResponseView::ReadMemory(_) => "readMemory"@,
            SuccessResponseView::RestartFrame => "restartFrame"@,
            SuccessResponseView::Restart => "restart"@,
            SuccessResponseView::ReverseContinue => "reverseContinue"@,
            SuccessResponseView::RunInTerminal(_) => "runInTerminal"@,
            SuccessResponseView::Scopes(_) => "scopes"@,
            SuccessResponseView::SetBreakpoints(_) => "setBreakpoints"@,
            SuccessResponseView::SetDataBreakpoints(_) => "setDataBreakpoints"@,
            SuccessResponseView::SetExceptionBreakpoints(_) => "setExceptionBreakpoints"@,
            SuccessResponseView::SetExpression(_) => "setExpression"@,
            SuccessResponseView::SetFunctionBreakpoints(_) => "setFunctionBreakpoints"@,
            SuccessResponseView::SetInstructionBreakpoints(_) => "setInstructionBreakpoints"@,
            SuccessResponseView::SetVariable(_) => "setVariable"@,
            SuccessResponseView::Source(_) => "source"@,
            SuccessResponseView::StackTrace(_) => "stackTrace"@,
            SuccessResponseView::StepBack => "stepBack"@,
            SuccessResponseView::StepIn => "stepIn"@,
            SuccessResponseView::StepInTargets(_) => "stepInTargets"@,
            SuccessResponseView::StepOut => "stepOut"@,
            SuccessResponseView::Terminate => "terminate"@,
            SuccessResponseView::TerminateThreads => "terminateThreads"@,
            SuccessResponseView::Threads(_) => "threads"@,
            SuccessResponseView::Variables(_) => "variables"@,
        }
    }

    /// The command names of the catalog.
    pub open spec fn tags() -> Set<Seq<char>> {
        set![
            "attach"@,
            "breakpointLocations"@,
            "cancel"@,
            "completions"@,
            "configurationDone"@,
            "continue"@,
            "dataBreakpointInfo"@,
            "disassemble"@,
            "disconnect"@,
            "evaluate"@,
            "exceptionInfo"@,
            "goto"@,
            "gotoTargets"@,
            "initialize"@,
            "launch"@,
            "loadedSources"@,
            "modules"@,
            "next"@,
            "pause"@,
            "readMemory"@,
            "restartFrame"@,
            "restart"@,
            "reverseContinue"@,
            "runInTerminal"@,
            "scopes"@,
            "setBreakpoints"@,
            "setDataBreakpoints"@,
            "setExceptionBreakpoints"@,
            "setExpression"@,
            "setFunctionBreakpoints"@,
            "setInstructionBreakpoints"@,
            "setVariable"@,
            "source"@,
            "stackTrace"@,
            "stepBack"@,
            "stepIn"@,
            "stepInTargets"@,
            "stepOut"@,
            "terminate"@,
            "terminateThreads"@,
            "threads"@,
            "variables"@,
        ]
    }

    /// The place of a command name in the catalog, and the size of the catalog for
    /// any other text.
    #[verifier::opaque]
    pub open spec fn tag_index(tag: Seq<char>) -> int {
        if tag == "attach"@ {
            0
        } else if tag == "breakpointLocations"@ {
            1
        } else if tag == "cancel"@ {
            2
        } else if tag == "completions"@ {
            3
        } else if tag == "configurationDone"@ {
            4
        } else if tag == "continue"@ {
            5
        } else if tag == "dataBreakpointInfo"@ {
            6
        } else if tag == "disassemble"@ {
            7
        } else if tag == "disconnect"@ {
            8
        } else if tag == "evaluate"@ {
            9
        } else if tag == "exceptionInfo"@ {
            10
        } else if tag == "goto"@ {
            11
        } else if tag == "gotoTargets"@ {
            12
        } else if tag == "initialize"@ {
            13
        } else if tag == "launch"@ {
            14
        } else if tag == "loadedSources"@ {
            15
        } else if tag == "modules"@ {
            16
        } else if tag == "next"@ {
            17
        } else if tag == "pause"@ {
            18
        } else if tag == "readMemory"@ {
            19
        } else if tag == "restartFrame"@ {
            20
        } else if tag == "restart"@ {
            21
        } else if tag == "reverseContinue"@ {
            22
        } else if tag == "runInTerminal"@ {
            23
        } else if tag == "scopes"@ {
            24
        } else if tag == "setBreakpoints"@ {
            25
        } else if tag == "setDataBreakpoints"@ {
            26
        } else if tag == "setExceptionBreakpoints"@ {
            27
        } else if tag == "setExpression"@ {
            28
        } else if tag == "setFunctionBreakpoints"@ {
            29
        } else if tag == "setInstructionBreakpoints"@ {
            30
        } else if tag == "setVariable"@ {
            31
        } else if tag == "source"@ {
            32
        } else if tag == "stackTrace"@ {
            33
        } else if tag == "stepBack"@ {
            34
        } else if tag == "stepIn"@ {
            35
        } else if tag == "stepInTargets"@ {
            36
        } else if tag == "stepOut"@ {
            37
        } else if tag == "terminate"@ {
            38
        } else if tag == "terminateThreads"@ {
            39
        } else if tag == "threads"@ {
            40
        } else if tag == "variables"@ {
            41
        } else {
            42
        }
    }

    /// Each command name has a place of its own, so no two are the same text.
    pub proof fn lemma_tag_index()
        ensures
            SuccessResponse::tag_index("attach"@) == 0,
            SuccessResponse::tag_index("breakpointLocations"@) == 1,
            SuccessResponse::tag_index("cancel"@) == 2,
            SuccessResponse::tag_index("completions"@) == 3,
            SuccessResponse::tag_index("configurationDone"@) == 4,
            SuccessResponse::tag_index("continue"@) == 5,
            SuccessResponse::tag_index("dataBreakpointInfo"@) == 6,
            SuccessResponse::tag_index("disassemble"@) == 7,
            SuccessResponse::tag_index("disconnect"@) == 8,
            SuccessResponse::tag_index("evaluate"@) == 9,
            SuccessResponse::tag_index("exceptionInfo"@) == 10,
            SuccessResponse::tag_index("goto"@) == 11,
            SuccessResponse::tag_index("gotoTargets"@) == 12,
            SuccessResponse::tag_index("initialize"@) == 13,
            SuccessResponse::tag_index("launch"@) == 14,
            SuccessResponse::tag_index("loadedSources"@) == 15,
            SuccessResponse::tag_index("modules"@) == 16,
            SuccessResponse::tag_index("next"@) == 17,
            SuccessResponse::tag_index("pause"@) == 18,
            SuccessResponse::tag_index("readMemory"@) == 19,
            SuccessResponse::tag_index("restartFrame"@) == 20,
            SuccessResponse::tag_index("restart"@) == 21,
            SuccessResponse::tag_index("reverseContinue"@) == 22,
            SuccessResponse::tag_index("runInTerminal"@) == 23,
            SuccessResponse::tag_index("scopes"@) == 24,
            SuccessResponse::tag_index("setBreakpoints"@) == 25,
            SuccessResponse::tag_index("setDataBreakpoints"@) == 26,
            SuccessResponse::tag_index("setExceptionBreakpoints"@) == 27,
            SuccessResponse::tag_index("setExpression"@) == 28,
            SuccessResponse::tag_index("setFunctionBreakpoints"@) == 29,
            SuccessResponse::tag_index("setInstructionBreakpoints"@) == 30,
            SuccessResponse::tag_index("setVariable"@) == 31,
            SuccessResponse::tag_index("source"@) == 32,
            SuccessResponse::tag_index("stackTrace"@) == 33,
            SuccessResponse::tag_index("stepBack"@) == 34,
            SuccessResponse::tag_index("stepIn"@) == 35,
            SuccessResponse::tag_index("stepInTargets"@) == 36,
            SuccessResponse::tag_index("stepOut"@) == 37,
            SuccessResponse::tag_index("terminate"@) == 38,
            SuccessResponse::tag_index("terminateThreads"@) == 39,
            SuccessResponse::tag_index("threads"@) == 40,
            SuccessResponse::tag_index("variables"@) == 41,
    {
        reveal(SuccessResponse::tag_index);
        reveal_strlit("attach");
        reveal_strlit("breakpointLocations");
        reveal_strlit("cancel");
        reveal_strlit("completions");
        reveal_strlit("configurationDone");
        reveal_strlit("continue");
        reveal_strlit("dataBreakpointInfo");
        reveal_strlit("disassemble");
        reveal_strlit("disconnect");
        reveal_strlit("evaluate");
        reveal_strlit("exceptionInfo");
        reveal_strlit("goto");
        reveal_strlit("gotoTargets");
        reveal_strlit("initialize");
        reveal_strlit("launch");
        reveal_strlit("loadedSources");
        reveal_strlit("modules");
        reveal_strlit("next");
        reveal_strlit("pause");
        reveal_strlit("readMemory");
        reveal_strlit("restartFrame");
        reveal_strlit("restart");
        reveal_strlit("reverseContinue");
        reveal_strlit("runInTerminal");
        reveal_strlit("scopes");
        reveal_strlit("setBreakpoints");
        reveal_strlit("setDataBreakpoints");
        reveal_strlit("setExceptionBreakpoints");
        reveal_strlit("setExpression");
        reveal_strlit("setFunctionBreakpoints");
        reveal_strlit("setInstructionBreakpoints");
        reveal_strlit("setVariable");
        reveal_strlit("source");
        reveal_strlit("stackTrace");
        reveal_strlit("stepBack");
        reveal_strlit("stepIn");
        reveal_strlit("stepInTargets");
        reveal_strlit("stepOut");
        reveal_strlit("terminate");
        reveal_strlit("terminateThreads");
        reveal_strlit("threads");
        reveal_strlit("variables");
        assert("attach"@.len() == 6);
        assert("breakpointLocations"@.len() == 19);
        assert("cancel"@.len() == 6);
        assert("completions"@.len() == 11);
        assert("configurationDone"@.len() == 17);
        assert("continue"@.len() == 8);
        assert("dataBreakpointInfo"@.len() == 18);
        assert("disassemble"@.len() == 11);
        assert("disconnect"@.len() == 10);
        assert("evaluate"@.len() == 8);
        assert("exceptionInfo"@.len() == 13);
        assert("goto"@.len() == 4);
        assert("gotoTargets"@.len() == 11);
        assert("initialize"@.len() == 10);
        assert("launch"@.len() == 6);
        assert("loadedSources"@.len() == 13);
        assert("modules"@.len() == 7);
        assert("next"@.len() == 4);
        assert("pause"@.len() == 5);
        assert("readMemory"@.len() == 10);
        assert("restartFrame"@.len() == 12);
        assert("restart"@.len() == 7);
        assert("reverseContinue"@.len() == 15);
        assert("runInTerminal"@.len() == 13);
        assert("scopes"@.len() == 6);
        assert("setBreakpoints"@.len() == 14);
        assert("setDataBreakpoints"@.len() == 18);
        assert("setExceptionBreakpoints"@.len() == 23);
        assert("setExpression"@.len() == 13);
        assert("setFunctionBreakpoints"@.len() == 22);
        assert("setInstructionBreakpoints"@.len() == 25);
        assert("setVariable"@.len() == 11);
        assert("source"@.len() == 6);
        assert("stackTrace"@.len() == 10);
        assert("stepBack"@.len() == 8);
        assert("stepIn"@.len() == 6);
        assert("stepInTargets"@.len() == 13);
        assert("stepOut"@.len() == 7);
        assert("terminate"@.len() == 9);
        assert("terminateThreads"@.len() == 16);
        assert("threads"@.len() == 7);
        assert("variables"@.len() == 9);
        assert("attach"@[0] != "cancel"@[0]);
        assert("attach"@[0] != "launch"@[0]);
        assert("attach"@[0] != "scopes"@[0]);
        assert("attach"@[0] != "source"@[0]);
        assert("attach"@[0] != "stepIn"@[0]);
        assert("cancel"@[0] != "launch"@[0]);
        assert("cancel"@[0] != "scopes"@[0]);
        assert("cancel"@[0] != "source"@[0]);
        assert("cancel"@[0] != "stepIn"@[0]);
        assert("completions"@[0] != "disassemble"@[0]);
        assert("completions"@[0] != "gotoTargets"@[0]);
        assert("completions"@[0] != "setVariable"@[0]);
        assert("continue"@[0] != "evaluate"@[0]);
        assert("continue"@[0] != "stepBack"@[0]);
        assert("dataBreakpointInfo"@[0] != "setDataBreakpoints"@[0]);
        assert("disassemble"@[0] != "gotoTargets"@[0]);
        assert("disassemble"@[0] != "setVariable"@[0]);
        assert("disconnect"@[0] != "initialize"@[0]);
        assert("disconnect"@[0] != "readMemory"@[0]);
        assert("disconnect"@[0] != "stackTrace"@[0]);
        assert("evaluate"@[0] != "stepBack"@[0]);
        assert("exceptionInfo"@[0] != "loadedSources"@[0]);
        assert("exceptionInfo"@[0] != "runInTerminal"@[0]);
        assert("exceptionInfo"@[0] != "setExpression"@[0]);
        assert("exceptionInfo"@[0] != "stepInTargets"@[0]);
        assert("goto"@[0] != "next"@[0]);
        assert("gotoTargets"@[0] != "setVariable"@[0]);
        assert("initialize"@[0] != "readMemory"@[0]);
        assert("initialize"@[0] != "stackTrace"@[0]);
        assert("launch"@[0] != "scopes"@[0]);
        assert("launch"@[0] != "source"@[0]);
        assert("launch"@[0] != "stepIn"@[0]);
        assert("loadedSources"@[0] != "runInTerminal"@[0]);
        assert("loadedSources"@[0] != "setExpression"@[0]);
        assert("loadedSources"@[0] != "stepInTargets"@[0]);
        assert("modules"@[0] != "restart"@[0]);
        assert("modules"@[0] != "stepOut"@[0]);
        assert("modules"@[0] != "threads"@[0]);
        assert("readMemory"@[0] != "stackTrace"@[0]);
        assert("restart"@[0] != "stepOut"@[0]);
        assert("restart"@[0] != "threads"@[0]);
        assert("runInTerminal"@[0] != "setExpression"@[0]);
        assert("runInTerminal"@[0] != "stepInTargets"@[0]);
        assert("scopes"@[1] != "source"@[1]);
        assert("scopes"@[1] != "stepIn"@[1]);
        assert("setExpression"@[1] != "stepInTargets"@[1]);
        assert("source"@[1] != "stepIn"@[1]);
        assert("stepOut"@[0] != "threads"@[0]);
        assert("terminate"@[0] != "variables"@[0]);
    }

    /// The fields that are written for a value: the command name, and the payload
    /// where the response has one.
    pub open spec fn fields(m: SuccessResponseView) -> JsonObject {
        let o = with_field::<String>(empty_object(), "command"@, SuccessResponse::tag(m));
        match m {
            SuccessResponseView::Attach => o,
            SuccessResponseView::BreakpointLocations(x) => with_field::<BreakpointLocationsResponseBody>(o, "body"@, x),
            SuccessResponseView::Cancel => o,
            SuccessResponseView::Completions(x) => with_field::<CompletionsResponseBody>(o, "body"@, x),
            SuccessResponseView::ConfigurationDone => o,
            SuccessResponseView::Continue(x) => with_field::<ContinueResponseBody>(o, "body"@, x),
            SuccessResponseView::DataBreakpointInfo(x) => with_field::<DataBreakpointInfoResponseBody>(o, "body"@, x),
            SuccessResponseView::Disassemble(x) => with_field::<DisassembleResponseBody>(o, "body"@, x),
            SuccessResponseView::Disconnect => o,
            SuccessResponseView::Evaluate(x) => with_field::<EvaluateResponseBody>(o, "body"@, x),
            SuccessResponseView::ExceptionInfo(x) => with_field::<ExceptionInfoResponseBody>(o, "body"@, x),
            SuccessResponseView::Goto => o,
            SuccessResponseView::GotoTargets(x) => with_field::<GotoTargetsResponseBody>(o, "body"@, x),
            SuccessResponseView::Initialize(x) => with_field::<Capabilities>(o, "body"@, x),
            SuccessResponseView::Launch => o,
            SuccessResponseView::LoadedSources(x) => with_field::<LoadedSourcesResponseBody>(o, "body"@, x),
            SuccessResponseView::Modules(x) => with_field::<ModulesResponseBody>(o, "body"@, x),
            SuccessResponseView::Next => o,
            SuccessResponseView::Pause => o,
            SuccessResponseView::ReadMemory(x) => with_field::<ReadMemoryResponseBody>(o, "body"@, x),
            SuccessResponseView::RestartFrame => o,
            SuccessResponseView::Restart => o,
            SuccessResponseView::ReverseContinue => o,
            SuccessResponseView::RunInTerminal(x) => with_field::<RunInTerminalResponseBody>(o, "body"@, x),
            SuccessResponseView::Scopes(x) => with_field::<ScopesResponseBody>(o, "body"@, x),
            SuccessResponseView::SetBreakpoints(x) => with_field::<SetBreakpointsResponseBody>(o, "body"@, x),
            SuccessResponseView::SetDataBreakpoints(x) => with_field::<SetDataBreakpointsResponseBody>(o, "body"@, x),
            SuccessResponseView::SetExceptionBreakpoints(x) => with_field::<SetExceptionBreakpointsResponseBody>(o, "body"@, x),
            SuccessResponseView::SetExpression(x) => with_field::<SetExpressionResponseBody>(o, "body"@, x),
            SuccessResponseView::SetFunctionBreakpoints(x) => with_field::<SetFunctionBreakpointsResponseBody>(o, "body"@, x),
            SuccessResponseView::SetInstructionBreakpoints(x) => with_field::<SetInstructionBreakpointsResponseBody>(o, "body"@, x),
            SuccessResponseView::SetVariable(x) => with_field::<SetVariableResponseBody>(o, "body"@, x),
            SuccessResponseView::Source(x) => with_field::<SourceResponseBody>(o, "body"@, x),
            SuccessResponseView::StackTrace(x) => with_field::<StackTraceResponseBody>(o, "body"@, x),
            SuccessResponseView::StepBack => o,
            SuccessResponseView::StepIn => o,
            SuccessResponseView::StepInTargets(x) => with_field::<StepInTargetsResponseBody>(o, "body"@, x),
            SuccessResponseView::StepOut => o,
            SuccessResponseView::Terminate => o,
            SuccessResponseView::TerminateThreads => o,
            SuccessResponseView::Threads(x) => with_field::<ThreadsResponseBody>(o, "body"@, x),
            SuccessResponseView::Variables(x) => with_field::<VariablesResponseBody>(o, "body"@, x),
        }
    }

    /// The payload of an object: an empty object where the field is absent.
    pub open spec fn payload(o: JsonObject) -> Json {
        match field(o, "body"@) {
            Some(j) => j,
            None => Json::Object(empty_object()),
        }
    }

    /// What a payload decodes to under a command name, which is looked up by its
    /// place in the catalog.
    pub open spec fn decode_tagged(tag: Seq<char>, payload: Json) -> Result<
        SuccessResponseView,
        DecodeErrorView,
    > {
        let place = SuccessResponse::tag_index(tag);
        if place == 0 {
            Ok(SuccessResponseView::Attach)
        } else if place == 1 {
            match BreakpointLocationsResponseBody::decode_json(payload) {
                Ok(x) => Ok(SuccessResponseView::BreakpointLocations(x)),
                Err(e) => Err(e),
            }
        } else if place == 2 {
            Ok(SuccessResponseView::Cancel)
        } else if place == 3 {
            match CompletionsResponseBody::decode_json(payload) {
                Ok(x) => Ok(SuccessResponseView::Completions(x)),
                Err(e) => Err(e),
            }
        } else if place == 4 {
            Ok(SuccessResponseView::ConfigurationDone)
        } else if place == 5 {
            match ContinueResponseBody::decode_json(payload) {
                Ok(x) => Ok(SuccessResponseView::Continue(x)),
                Err(e) => Err(e),
            }
        } else if place == 6 {
            match DataBreakpointInfoResponseBody::decode_json(payload) {
                Ok(x) => Ok(SuccessResponseView::DataBreakpointInfo(x)),
                Err(e) => Err(e),
            }
        } else if place == 7 {
            match DisassembleResponseBody::decode_json(payload) {
                Ok(x) => Ok(SuccessResponseView::Disassemble(x)),
                Err(e) => Err(e),
            }
        } else if place == 8 {
            Ok(SuccessResponseView::Disconnect)
        } else if place == 9 {
            match EvaluateResponseBody::decode_json(payload) {
                Ok(x) => Ok(SuccessResponseView::Evaluate(x)),
                Err(e) => Err(e),
            }
        } else if place == 10 {
            match ExceptionInfoResponseBody::decode_json(payload) {
                Ok(x) => Ok(SuccessResponseView::ExceptionInfo(x)),
                Err(e) => Err(e),
            }
        } else if place == 11 {
            Ok(SuccessResponseView::Goto)
        } else if place == 12 {
            match GotoTargetsResponseBody::decode_json(payload) {
                Ok(x) => Ok(SuccessResponseView::GotoTargets(x)),
                Err(e) => Err(e),
            }
        } else if place == 13 {
            match Capabilities::decode_json(payload) {
                Ok(x) => Ok(SuccessResponseView::Initialize(x)),
                Err(e) => Err(e),
            }
        } else if place == 14 {
            Ok(SuccessResponseView::Launch)
        } else if place == 15 {
            match LoadedSourcesResponseBody::decode_json(payload) {
                Ok(x) => Ok(SuccessResponseView::LoadedSources(x)),
                Err(e) => Err(e),
            }
        } else if place == 16 {
            match ModulesResponseBody::decode_json(payload) {
                Ok(x) => Ok(SuccessResponseView::Modules(x)),
                Err(e) => Err(e),
            }
        } else if place == 17 {
            Ok(SuccessResponseView::Next)
        } else if place == 18 {
            Ok(SuccessResponseView::Pause)
        } else if place == 19 {
            match ReadMemoryResponseBody::decode_json(payload) {
                Ok(x) => Ok(SuccessResponseView::ReadMemory(x)),
                Err(e) => Err(e),
            }
        } else if place == 20 {
            Ok(SuccessResponseView::RestartFrame)
        } else if place == 21 {
            Ok(SuccessResponseView::Restart)
        } else if place == 22 {
            Ok(SuccessResponseView::ReverseContinue)
        } else if place == 23 {
            match RunInTerminalResponseBody::decode_json(payload) {
                Ok(x) => Ok(SuccessResponseView::RunInTerminal(x)),
                Err(e) => Err(e),
            }
        } else if place == 24 {
            match ScopesResponseBody::decode_json(payload) {
                Ok(x) => Ok(SuccessResponseView::Scopes(x)),
                Err(e) => Err(e),
            }
        } else if place == 25 {
            match SetBreakpointsResponseBody::decode_json(payload) {
                Ok(x) => Ok(SuccessResponseView::SetBreakpoints(x)),
                Err(e) => Err(e),
            }
        } else if place == 26 {
            match SetDataBreakpointsResponseBody::decode_json(payload) {
                Ok(x) => Ok(SuccessResponseView::SetDataBreakpoints(x)),
                Err(e) => Err(e),
            }
        } else if place == 27 {
            match SetExceptionBreakpointsResponseBody::decode_json(payload) {
                Ok(x) => Ok(SuccessResponseView::SetExceptionBreakpoints(x)),
                Err(e) => Err(e),
            }
        } else if place == 28 {
            match SetExpressionResponseBody::decode_json(payload) {
                Ok(x) => Ok(SuccessResponseView::SetExpression(x)),
                Err(e) => Err(e),
            }
        } else if place == 29 {
            match SetFunctionBreakpointsResponseBody::decode_json(payload) {
                Ok(x) => Ok(SuccessResponseView::SetFunctionBreakpoints(x)),
                Err(e) => Err(e),
            }
        } else if place == 30 {
            match SetInstructionBreakpointsResponseBody::decode_json(payload) {
                Ok(x) => Ok(SuccessResponseView::SetInstructionBreakpoints(x)),
                Err(e) => Err(e),
            }
        } else if place == 31 {
            match SetVariableResponseBody::decode_json(payload) {
                Ok(x) => Ok(SuccessResponseView::SetVariable(x)),
                Err(e) => Err(e),
            }
        } else if place == 32 {
            match SourceResponseBody::decode_json(payload) {
                Ok(x) => Ok(SuccessResponseView::Source(x)),
                Err(e) => Err(e),
            }
        } else if place == 33 {
            match StackTraceResponseBody::decode_json(payload) {
                Ok(x) => Ok(SuccessResponseView::StackTrace(x)),
                Err(e) => Err(e),
            }
        } else if place == 34 {
            Ok(SuccessResponseView::StepBack)
        } else if place == 35 {
            Ok(SuccessResponseView::StepIn)
        } else if place == 36 {
            match StepInTargetsResponseBody::decode_json(payload) {
                Ok(x) => Ok(SuccessResponseView::StepInTargets(x)),
                Err(e) => Err(e),
            }
        } else if place == 37 {
            Ok(SuccessResponseView::StepOut)
        } else if place == 38 {
            Ok(SuccessResponseView::Terminate)
        } else if place == 39 {
            Ok(SuccessResponseView::TerminateThreads)
        } else if place == 40 {
            match ThreadsResponseBody::decode_json(payload) {
                Ok(x) => Ok(SuccessResponseView::Threads(x)),
                Err(e) => Err(e),
            }
        } else if place == 41 {
            match VariablesResponseBody::decode_json(payload) {
                Ok(x) => Ok(SuccessResponseView::Variables(x)),
                Err(e) => Err(e),
            }
        } else {
            Err(DecodeErrorView::UnknownCommand(tag))
        }
    }

    /// What the fields of an object decode to.
    pub open spec fn decode_fields(o: JsonObject) -> Result<SuccessResponseView, DecodeErrorView> {
        match req_field::<String>(o, "command"@) {
            Ok(tag) => SuccessResponse::decode_tagged(tag, SuccessResponse::payload(o)),
            Err(e) => Err(e),
        }
    }

    /// The command name of the value.
    pub fn name(&self) -> (r: &'static str)
        ensures
            r@ == SuccessResponse::tag(self@),
    {
        match self {
            SuccessResponse::Attach => "attach",
            SuccessResponse::BreakpointLocations(_) => "breakpointLocations",
            SuccessResponse::Cancel => "cancel",
            SuccessResponse::Completions(_) => "completions",
            SuccessResponse::ConfigurationDone => "configurationDone",
            SuccessResponse::Continue(_) => "continue",
            SuccessResponse::DataBreakpointInfo(_) => "dataBreakpointInfo",
            SuccessResponse::Disassemble(_) => "disassemble",
            SuccessResponse::Disconnect => "disconnect",
            SuccessResponse::Evaluate(_) => "evaluate",
            SuccessResponse::ExceptionInfo(_) => "exceptionInfo",
            SuccessResponse::Goto => "goto",
            SuccessResponse::GotoTargets(_) => "gotoTargets",
            SuccessResponse::Initialize(_) => "initialize",
            SuccessResponse::Launch => "launch",
            SuccessResponse::LoadedSources(_) => "loadedSources",
            SuccessResponse::Modules(_) => "modules",
            SuccessResponse::Next => "next",
            SuccessResponse::Pause => "pause",
            SuccessResponse::ReadMemory(_) => "readMemory",
            SuccessResponse::RestartFrame => "restartFrame",
            SuccessResponse::Restart => "restart",
            SuccessResponse::ReverseContinue => "reverseContinue",
            SuccessResponse::RunInTerminal(_) => "runInTerminal",
            SuccessResponse::Scopes(_) => "scopes",
            SuccessResponse::SetBreakpoints(_) => "setBreakpoints",
            SuccessResponse::SetDataBreakpoints(_) => "setDataBreakpoints",
            SuccessResponse::SetExceptionBreakpoints(_) => "setExceptionBreakpoints",
            SuccessResponse::SetExpression(_) => "setExpression",
            SuccessResponse::SetFunctionBreakpoints(_) => "setFunctionBreakpoints",
            SuccessResponse::SetInstructionBreakpoints(_) => "setInstructionBreakpoints",
            SuccessResponse::SetVariable(_) => "setVariable",
            SuccessResponse::Source(_) => "source",
            SuccessResponse::StackTrace(_) => "stackTrace",
            SuccessResponse::StepBack => "stepBack",
            SuccessResponse::StepIn => "stepIn",
            SuccessResponse::StepInTargets(_) => "stepInTargets",
            SuccessResponse::StepOut => "stepOut",
            SuccessResponse::Terminate => "terminate",
            SuccessResponse::TerminateThreads => "terminateThreads",
            SuccessResponse::Threads(_) => "threads",
            SuccessResponse::Variables(_) => "variables",
        }
    }

    /// Writes the fields of the value into a fresh object.
    pub fn to_object(&self) -> (o: serde_json::Map<String, serde_json::Value>)
        ensures
            object_model(o) == SuccessResponse::fields(self@),
    {
        let mut o = object_new();
        put_str(&mut o, "command", self.name());
        match self {
            SuccessResponse::Attach => {},
            SuccessResponse::BreakpointLocations(x) => put::<BreakpointLocationsResponseBody>(&mut o, "body", x),
            SuccessResponse::Cancel => {},
            SuccessResponse::Completions(x) => put::<CompletionsResponseBody>(&mut o, "body", x),
            SuccessResponse::ConfigurationDone => {},
            SuccessResponse::Continue(x) => put::<ContinueResponseBody>(&mut o, "body", x),
            SuccessResponse::DataBreakpointInfo(x) => put::<DataBreakpointInfoResponseBody>(&mut o, "body", x),
            SuccessResponse::Disassemble(x) => put::<DisassembleResponseBody>(&mut o, "body", x),
            SuccessResponse::Disconnect => {},
            SuccessResponse::Evaluate(x) => put::<EvaluateResponseBody>(&mut o, "body", x),
            SuccessResponse::ExceptionInfo(x) => put::<ExceptionInfoResponseBody>(&mut o, "body", x),
            SuccessResponse::Goto => {},
            SuccessResponse::GotoTargets(x) => put::<GotoTargetsResponseBody>(&mut o, "body", x),
            SuccessResponse::Initialize(x) => put::<Capabilities>(&mut o, "body", x),
            SuccessResponse::Launch => {},
            SuccessResponse::LoadedSources(x) => put::<LoadedSourcesResponseBody>(&mut o, "body", x),
            SuccessResponse::Modules(x) => put::<ModulesResponseBody>(&mut o, "body", x),
            SuccessResponse::Next => {},
            SuccessResponse::Pause => {},
            SuccessResponse::ReadMemory(x) => put::<ReadMemoryResponseBody>(&mut o, "body", x),
            SuccessResponse::RestartFrame => {},
            SuccessResponse::Restart => {},
            SuccessResponse::ReverseContinue => {},
            SuccessResponse::RunInTerminal(x) => put::<RunInTerminalResponseBody>(&mut o, "body", x),
            SuccessResponse::Scopes(x) => put::<ScopesResponseBody>(&mut o, "body", x),
            SuccessResponse::SetBreakpoints(x) => put::<SetBreakpointsResponseBody>(&mut o, "body", x),
            SuccessResponse::SetDataBreakpoints(x) => put::<SetDataBreakpointsResponseBody>(&mut o, "body", x),
            SuccessResponse::SetExceptionBreakpoints(x) => put::<SetExceptionBreakpointsResponseBody>(&mut o, "body", x),
            SuccessResponse::SetExpression(x) => put::<SetExpressionResponseBody>(&mut o, "body", x),
            SuccessResponse::SetFunctionBreakpoints(x) => put::<SetFunctionBreakpointsResponseBody>(&mut o, "body", x),
            SuccessResponse::SetInstructionBreakpoints(x) => put::<SetInstructionBreakpointsResponseBody>(&mut o, "body", x),
            SuccessResponse::SetVariable(x) => put::<SetVariableResponseBody>(&mut o, "body", x),
            SuccessResponse::Source(x) => put::<SourceResponseBody>(&mut o, "body", x),
            SuccessResponse::StackTrace(x) => put::<StackTraceResponseBody>(&mut o, "body", x),
            SuccessResponse::StepBack => {},
            SuccessResponse::StepIn => {},
            SuccessResponse::StepInTargets(x) => put::<StepInTargetsResponseBody>(&mut o, "body", x),
            SuccessResponse::StepOut => {},
            SuccessResponse::Terminate => {},
            SuccessResponse::TerminateThreads => {},
            SuccessResponse::Threads(x) => put::<ThreadsResponseBody>(&mut o, "body", x),
            SuccessResponse::Variables(x) => put::<VariablesResponseBody>(&mut o, "body", x),
        }
        o
    }

    /// Reads a value from a payload under a command name.
    pub fn from_tagged(tag: &str, payload: &serde_json::Value) -> (r: Result<SuccessResponse, DecodeError>)
        ensures
            match r {
                Ok(x) => SuccessResponse::decode_tagged(tag@, json_model(*payload)) matches Ok(m) && m == x@,
                Err(e) => SuccessResponse::decode_tagged(tag@, json_model(*payload)) matches Err(f) && f == e@,
            },
    {
        proof {
            reveal(SuccessResponse::tag_index);
        }
        if str_eq(tag, "attach") {
            Ok(SuccessResponse::Attach)
        } else if str_eq(tag, "breakpointLocations") {
            match BreakpointLocationsResponseBody::from_value(payload) {
                Ok(x) => Ok(SuccessResponse::BreakpointLocations(x)),
                Err(e) => Err(e),
            }
        } else if str_eq(tag, "cancel") {
            Ok(SuccessResponse::Cancel)
        } else if str_eq(tag, "completions") {
            match CompletionsResponseBody::from_value(payload) {
                Ok(x) => Ok(SuccessResponse::Completions(x)),
                Err(e) => Err(e),
            }
        } else if str_eq(tag, "configurationDone") {
            Ok(SuccessResponse::ConfigurationDone)
        } else if str_eq(tag, "continue") {
            match ContinueResponseBody::from_value(payload) {
                Ok(x) => Ok(SuccessResponse::Continue(x)),
                Err(e) => Err(e),
            }
        } else if str_eq(tag, "dataBreakpointInfo") {
            match DataBreakpointInfoResponseBody::from_value(payload) {
                Ok(x) => Ok(SuccessResponse::DataBreakpointInfo(x)),
                Err(e) => Err(e),
            }
        } else if str_eq(tag, "disassemble") {
            match DisassembleResponseBody::from_value(payload) {
                Ok(x) => Ok(SuccessResponse::Disassemble(x)),
                Err(e) => Err(e),
            }
        } else if str_eq(tag, "disconnect") {
            Ok(SuccessResponse::Disconnect)
        } else if str_eq(tag, "evaluate") {
            match EvaluateResponseBody::from_value(payload) {
                Ok(x) => Ok(SuccessResponse::Evaluate(x)),
                Err(e) => Err(e),
            }
        } else if str_eq(tag, "exceptionInfo") {
            match ExceptionInfoResponseBody::from_value(payload) {
                Ok(x) => Ok(SuccessResponse::ExceptionInfo(x)),
                Err(e) => Err(e),
            }
        } else if str_eq(tag, "goto") {
            Ok(SuccessResponse::Goto)
        } else if str_eq(tag, "gotoTargets") {
            match GotoTargetsResponseBody::from_value(payload) {
                Ok(x) => Ok(SuccessResponse::GotoTargets(x)),
                Err(e) => Err(e),
            }
        } else if str_eq(tag, "initialize") {
            match Capabilities::from_value(payload) {
                Ok(x) => Ok(SuccessResponse::Initialize(x)),
                Err(e) => Err(e),
            }
        } else if str_eq(tag, "launch") {
            Ok(SuccessResponse::Launch)
        } else if str_eq(tag, "loadedSources") {
            match LoadedSourcesResponseBody::from_value(payload) {
                Ok(x) => Ok(SuccessResponse::LoadedSources(x)),
                Err(e) => Err(e),
            }
        } else if str_eq(tag, "modules") {
            match ModulesResponseBody::from_value(payload) {
                Ok(x) => Ok(SuccessResponse::Modules(x)),
                Err(e) => Err(e),
            }
        } else if str_eq(tag, "next") {
            Ok(SuccessResponse::Next)
        } else if str_eq(tag, "pause") {
            Ok(SuccessResponse::Pause)
        } else if str_eq(tag, "readMemory") {
            match ReadMemoryResponseBody::from_value(payload) {
                Ok(x) => Ok(SuccessResponse::ReadMemory(x)),
                Err(e) => Err(e),
            }
        } else if str_eq(tag, "restartFrame") {
            Ok(SuccessResponse::RestartFrame)
        } else if str_eq(tag, "restart") {
            Ok(SuccessResponse::Restart)
        } else if str_eq(tag, "reverseContinue") {
            Ok(SuccessResponse::ReverseContinue)
        } else if str_eq(tag, "runInTerminal") {
            match RunInTerminalResponseBody::from_value(payload) {
                Ok(x) => Ok(SuccessResponse::RunInTerminal(x)),
                Err(e) => Err(e),
            }
        } else if str_eq(tag, "scopes") {
            match ScopesResponseBody::from_value(payload) {
                Ok(x) => Ok(SuccessResponse::Scopes(x)),
                Err(e) => Err(e),
            }
        } else if str_eq(tag, "setBreakpoints") {
            match SetBreakpointsResponseBody::from_value(payload) {
                Ok(x) => Ok(SuccessResponse::SetBreakpoints(x)),
                Err(e) => Err(e),
            }
        } else if str_eq(tag, "setDataBreakpoints") {
            match SetDataBreakpointsResponseBody::from_value(payload) {
                Ok(x) => Ok(SuccessResponse::SetDataBreakpoints(x)),
                Err(e) => Err(e),
            }
        } else if str_eq(tag, "setExceptionBreakpoints") {
            match SetExceptionBreakpointsResponseBody::from_value(payload) {
                Ok(x) => Ok(SuccessResponse::SetExceptionBreakpoints(x)),
                Err(e) => Err(e),
            }
        } else if str_eq(tag, "setExpression") {
            match SetExpressionResponseBody::from_value(payload) {
                Ok(x) => Ok(SuccessResponse::SetExpression(x)),
                Err(e) => Err(e),
            }
        } else if str_eq(tag, "setFunctionBreakpoints") {
            match SetFunctionBreakpointsResponseBody::from_value(payload) {
                Ok(x) => Ok(SuccessResponse::SetFunctionBreakpoints(x)),
                Err(e) => Err(e),
            }
        } else if str_eq(tag, "setInstructionBreakpoints") {
            match SetInstructionBreakpointsResponseBody::from_value(payload) {
                Ok(x) => Ok(SuccessResponse::SetInstructionBreakpoints(x)),
                Err(e) => Err(e),
            }
        } else if str_eq(tag, "setVariable") {
            match SetVariableResponseBody::from_value(payload) {
                Ok(x) => Ok(SuccessResponse::SetVariable(x)),
                Err(e) => Err(e),
            }
        } else if str_eq(tag, "source") {
            match SourceResponseBody::from_value(payload) {
                Ok(x) => Ok(SuccessResponse::Source(x)),
                Err(e) => Err(e),
            }
        } else if str_eq(tag, "stackTrace") {
            match StackTraceResponseBody::from_value(payload) {
                Ok(x) => Ok(SuccessResponse::StackTrace(x)),
                Err(e) => Err(e),
            }
        } else if str_eq(tag, "stepBack") {
            Ok(SuccessResponse::StepBack)
        } else if str_eq(tag, "stepIn") {
            Ok(SuccessResponse::StepIn)
        } else if str_eq(tag, "stepInTargets") {
            match StepInTargetsResponseBody::from_value(payload) {
                Ok(x) => Ok(SuccessResponse::StepInTargets(x)),
                Err(e) => Err(e),
            }
        } else if str_eq(tag, "stepOut") {
            Ok(SuccessResponse::StepOut)
        } else if str_eq(tag, "terminate") {
            Ok(SuccessResponse::Terminate)
        } else if str_eq(tag, "terminateThreads") {
            Ok(SuccessResponse::TerminateThreads)
        } else if str_eq(tag, "threads") {
            match ThreadsResponseBody::from_value(payload) {
                Ok(x) => Ok(SuccessResponse::Threads(x)),
                Err(e) => Err(e),
            }
        } else if str_eq(tag, "variables") {
            match VariablesResponseBody::from_value(payload) {
                Ok(x) => Ok(SuccessResponse::Variables(x)),
                Err(e) => Err(e),
            }
        } else {
            Err(DecodeError::UnknownCommand(tag.to_owned()))
        }
    }

    /// Reads a value from the fields of an object.
    pub fn from_object(o: &serde_json::Map<String, serde_json::Value>) -> (r: Result<
        SuccessResponse,
        DecodeError,
    >)
        ensures
            match r {
                Ok(x) => SuccessResponse::decode_fields(object_model(*o)) matches Ok(m) && m == x@,
                Err(e) => SuccessResponse::decode_fields(object_model(*o)) matches Err(f) && f == e@,
            },
    {
        let tag = get_req::<String>(o, "command")?;
        match object_get(o, "body") {
            Some(payload) => SuccessResponse::from_tagged(tag.as_str(), payload),
            None => {
                let empty = value_object(object_new());
                SuccessResponse::from_tagged(tag.as_str(), &empty)
            },
        }
    }

    /// A command name that is not in the catalog is refused, and named in the
    /// failure.
    pub proof fn lemma_unknown_tag(o: JsonObject, tag: Seq<char>)
        requires
            field(o, "command"@) == Some(Json::Str(tag)),
            !SuccessResponse::tags().contains(tag),
        ensures
            SuccessResponse::decode_fields(o) == Err::<SuccessResponseView, DecodeErrorView>(DecodeErrorView::UnknownCommand(tag)),
    {
        reveal(req_field);
        reveal(SuccessResponse::tag_index);
    }

    /// A value decodes only from an object that bears its command name.
    pub proof fn lemma_decoded_tag(o: JsonObject)
        requires
            SuccessResponse::decode_fields(o) is Ok,
        ensures
            field(o, "command"@) == Some(Json::Str(SuccessResponse::tag(SuccessResponse::decode_fields(o)->Ok_0))),
    {
        reveal(req_field);
        reveal(SuccessResponse::tag_index);
    }

    /// Nothing is written but the known fields.
    pub proof fn lemma_writes_known_fields(m: SuccessResponseView, key: Seq<char>)
        requires
            !SuccessResponse::field_names().contains(key),
        ensures
            field(SuccessResponse::fields(m), key) is None,
    {
        broadcast use group_field_rules;

    }
}

impl Wire for SuccessResponse {
    type Model = SuccessResponseView;

    open spec fn model(&self) -> SuccessResponseView {
        self@
    }

    open spec fn wire_ok(m: SuccessResponseView) -> bool {
        match m {
            SuccessResponseView::Disassemble(x) => DisassembleResponseBody::wire_ok(x),
            SuccessResponseView::LoadedSources(x) => LoadedSourcesResponseBody::wire_ok(x),
            SuccessResponseView::Scopes(x) => ScopesResponseBody::wire_ok(x),
            SuccessResponseView::SetBreakpoints(x) => SetBreakpointsResponseBody::wire_ok(x),
            SuccessResponseView::SetDataBreakpoints(x) => SetDataBreakpointsResponseBody::wire_ok(x),
            SuccessResponseView::SetExceptionBreakpoints(x) => SetExceptionBreakpointsResponseBody::wire_ok(x),
            SuccessResponseView::SetFunctionBreakpoints(x) => SetFunctionBreakpointsResponseBody::wire_ok(x),
            SuccessResponseView::SetInstructionBreakpoints(x) => SetInstructionBreakpointsResponseBody::wire_ok(x),
            SuccessResponseView::StackTrace(x) => StackTraceResponseBody::wire_ok(x),
            _ => true,
        }
    }

    open spec fn encode_json(m: SuccessResponseView) -> Json {
        Json::Object(SuccessResponse::fields(m))
    }

    open spec fn decode_json(j: Json) -> Result<SuccessResponseView, DecodeErrorView> {
        match j {
            Json::Object(o) => SuccessResponse::decode_fields(o),
            _ => Err(DecodeErrorView::InvalidType),
        }
    }

    fn to_value(&self) -> (r: serde_json::Value) {
        value_object(self.to_object())
    }

    fn from_value(v: &serde_json::Value) -> (r: Result<SuccessResponse, DecodeError>) {
        match value_as_object(v) {
            Some(o) => SuccessResponse::from_object(o),
            None => Err(DecodeError::InvalidType),
        }
    }

    #[verifier::rlimit(60)]
    proof fn lemma_round_trip(m: SuccessResponseView) {
        broadcast use group_field_rules;

        reveal(req_field);
        reveal_strlit("command");
        reveal_strlit("body");
        assert("command"@.len() == 7);
        assert("body"@.len() == 4);
        SuccessResponse::lemma_tag_index();
        let o = SuccessResponse::fields(m);
        match m {
            SuccessResponseView::Attach => {
                assert(SuccessResponse::decode_fields(o) matches Ok(back) && back == m);
            },
            SuccessResponseView::BreakpointLocations(x) => {
                BreakpointLocationsResponseBody::lemma_round_trip(x);
                assert(SuccessResponse::payload(o) == BreakpointLocationsResponseBody::encode_json(x));
                assert(SuccessResponse::decode_fields(o) matches Ok(back) && back == m);
            },
            SuccessResponseView::Cancel => {
                assert(SuccessResponse::decode_fields(o) matches Ok(back) && back == m);
            },
            SuccessResponseView::Completions(x) => {
                CompletionsResponseBody::lemma_round_trip(x);
                assert(SuccessResponse::payload(o) == CompletionsResponseBody::encode_json(x));
                assert(SuccessResponse::decode_fields(o) matches Ok(back) && back == m);
            },
            SuccessResponseView::ConfigurationDone => {
                assert(SuccessResponse::decode_fields(o) matches Ok(back) && back == m);
            },
            SuccessResponseView::Continue(x) => {
                ContinueResponseBody::lemma_round_trip(x);
                assert(SuccessResponse::payload(o) == ContinueResponseBody::encode_json(x));
                assert(SuccessResponse::decode_fields(o) matches Ok(back) && back == m);
            },
            SuccessResponseView::DataBreakpointInfo(x) => {
                DataBreakpointInfoResponseBody::lemma_round_trip(x);
                assert(SuccessResponse::payload(o) == DataBreakpointInfoResponseBody::encode_json(x));
                assert(SuccessResponse::decode_fields(o) matches Ok(back) && back == m);
            },
            SuccessResponseView::Disassemble(x) => {
                DisassembleResponseBody::lemma_round_trip(x);
                assert(SuccessResponse::payload(o) == DisassembleResponseBody::encode_json(x));
                assert(SuccessResponse::decode_fields(o) matches Ok(back) && back == m);
            },
            SuccessResponseView::Disconnect => {
                assert(SuccessResponse::decode_fields(o) matches Ok(back) && back == m);
            },
            SuccessResponseView::Evaluate(x) => {
                EvaluateResponseBody::lemma_round_trip(x);
                assert(SuccessResponse::payload(o) == EvaluateResponseBody::encode_json(x));
                assert(SuccessResponse::decode_fields(o) matches Ok(back) && back == m);
            },
            SuccessResponseView::ExceptionInfo(x) => {
                ExceptionInfoResponseBody::lemma_round_trip(x);
                assert(SuccessResponse::payload(o) == ExceptionInfoResponseBody::encode_json(x));
                assert(SuccessResponse::decode_fields(o) matches Ok(back) && back == m);
            },
            SuccessResponseView::Goto => {
                assert(SuccessResponse::decode_fields(o) matches Ok(back) && back == m);
            },
            SuccessResponseView::GotoTargets(x) => {
                GotoTargetsResponseBody::lemma_round_trip(x);
                assert(SuccessResponse::payload(o) == GotoTargetsResponseBody::encode_json(x));
                assert(SuccessResponse::decode_fields(o) matches Ok(back) && back == m);
            },
            SuccessResponseView::Initialize(x) => {
                Capabilities::lemma_round_trip(x);
                assert(SuccessResponse::payload(o) == Capabilities::encode_json(x));
                assert(SuccessResponse::decode_fields(o) matches Ok(back) && back == m);
            },
            SuccessResponseView::Launch => {
                assert(SuccessResponse::decode_fields(o) matches Ok(back) && back == m);
            },
            SuccessResponseView::LoadedSources(x) => {
                LoadedSourcesResponseBody::lemma_round_trip(x);
                assert(SuccessResponse::payload(o) == LoadedSourcesResponseBody::encode_json(x));
                assert(SuccessResponse::decode_fields(o) matches Ok(back) && back == m);
            },
            SuccessResponseView::Modules(x) => {
                ModulesResponseBody::lemma_round_trip(x);
                assert(SuccessResponse::payload(o) == ModulesResponseBody::encode_json(x));
                assert(SuccessResponse::decode_fields(o) matches Ok(back) && back == m);
            },
            SuccessResponseView::Next => {
                assert(SuccessResponse::decode_fields(o) matches Ok(back) && back == m);
            },
            SuccessResponseView::Pause => {
                assert(SuccessResponse::decode_fields(o) matches Ok(back) && back == m);
            },
            SuccessResponseView::ReadMemory(x) => {
                ReadMemoryResponseBody::lemma_round_trip(x);
                assert(SuccessResponse::payload(o) == ReadMemoryResponseBody::encode_json(x));
                assert(SuccessResponse::decode_fields(o) matches Ok(back) && back == m);
            },
            SuccessResponseView::RestartFrame => {
                assert(SuccessResponse::decode_fields(o) matches Ok(back) && back == m);
            },
            SuccessResponseView::Restart => {
                assert(SuccessResponse::decode_fields(o) matches Ok(back) && back == m);
            },
            SuccessResponseView::ReverseContinue => {
                assert(SuccessResponse::decode_fields(o) matches Ok(back) && back == m);
            },
            SuccessResponseView::RunInTerminal(x) => {
                RunInTerminalResponseBody::lemma_round_trip(x);
                assert(SuccessResponse::payload(o) == RunInTerminalResponseBody::encode_json(x));
                assert(SuccessResponse::decode_fields(o) matches Ok(back) && back == m);
            },
            SuccessResponseView::Scopes(x) => {
                ScopesResponseBody::lemma_round_trip(x);
                assert(SuccessResponse::payload(o) == ScopesResponseBody::encode_json(x));
                assert(SuccessResponse::decode_fields(o) matches Ok(back) && back == m);
            },
            SuccessResponseView::SetBreakpoints(x) => {
                SetBreakpointsResponseBody::lemma_round_trip(x);
                assert(SuccessResponse::payload(o) == SetBreakpointsResponseBody::encode_json(x));
                assert(SuccessResponse::decode_fields(o) matches Ok(back) && back == m);
            },
            SuccessResponseView::SetDataBreakpoints(x) => {
                SetDataBreakpointsResponseBody::lemma_round_trip(x);
                assert(SuccessResponse::payload(o) == SetDataBreakpointsResponseBody::encode_json(x));
                assert(SuccessResponse::decode_fields(o) matches Ok(back) && back == m);
            },
            SuccessResponseView::SetExceptionBreakpoints(x) => {
                SetExceptionBreakpointsResponseBody::lemma_round_trip(x);
                assert(SuccessResponse::payload(o) == SetExceptionBreakpointsResponseBody::encode_json(x));
                assert(SuccessResponse::decode_fields(o) matches Ok(back) && back == m);
            },
            SuccessResponseView::SetExpression(x) => {
                SetExpressionResponseBody::lemma_round_trip(x);
                assert(SuccessResponse::payload(o) == SetExpressionResponseBody::encode_json(x));
                assert(SuccessResponse::decode_fields(o) matches Ok(back) && back == m);
            },
            SuccessResponseView::SetFunctionBreakpoints(x) => {
                SetFunctionBreakpointsResponseBody::lemma_round_trip(x);
                assert(SuccessResponse::payload(o) == SetFunctionBreakpointsResponseBody::encode_json(x));
                assert(SuccessResponse::decode_fields(o) matches Ok(back) && back == m);
            },
            SuccessResponseView::SetInstructionBreakpoints(x) => {
                SetInstructionBreakpointsResponseBody::lemma_round_trip(x);
                assert(SuccessResponse::payload(o) == SetInstructionBreakpointsResponseBody::encode_json(x));
                assert(SuccessResponse::decode_fields(o) matches Ok(back) && back == m);
            },
            SuccessResponseView::SetVariable(x) => {
                SetVariableResponseBody::lemma_round_trip(x);
                assert(SuccessResponse::payload(o) == SetVariableResponseBody::encode_json(x));
                assert(SuccessResponse::decode_fields(o) matches Ok(back) && back == m);
            },
            SuccessResponseView::Source(x) => {
                SourceResponseBody::lemma_round_trip(x);
                assert(SuccessResponse::payload(o) == SourceResponseBody::encode_json(x));
                assert(SuccessResponse::decode_fields(o) matches Ok(back) && back == m);
            },
            SuccessResponseView::StackTrace(x) => {
                StackTraceResponseBody::lemma_round_trip(x);
                assert(SuccessResponse::payload(o) == StackTraceResponseBody::encode_json(x));
                assert(SuccessResponse::decode_fields(o) matches Ok(back) && back == m);
            },
            SuccessResponseView::StepBack => {
                assert(SuccessResponse::decode_fields(o) matches Ok(back) && back == m);
            },
            SuccessResponseView::StepIn => {
                assert(SuccessResponse::decode_fields(o) matches Ok(back) && back == m);
            },
            SuccessResponseView::StepInTargets(x) => {
                StepInTargetsResponseBody::lemma_round_trip(x);
                assert(SuccessResponse::payload(o) == StepInTargetsResponseBody::encode_json(x));
                assert(SuccessResponse::decode_fields(o) matches Ok(back) && back == m);
            },
            SuccessResponseView::StepOut => {
                assert(SuccessResponse::decode_fields(o) matches Ok(back) && back == m);
            },
            SuccessResponseView::Terminate => {
                assert(SuccessResponse::decode_fields(o) matches Ok(back) && back == m);
            },
            SuccessResponseView::TerminateThreads => {
                assert(SuccessResponse::decode_fields(o) matches Ok(back) && back == m);
            },
            SuccessResponseView::Threads(x) => {
                ThreadsResponseBody::lemma_round_trip(x);
                assert(SuccessResponse::payload(o) == ThreadsResponseBody::encode_json(x));
                assert(SuccessResponse::decode_fields(o) matches Ok(back) && back == m);
            },
            SuccessResponseView::Variables(x) => {
                VariablesResponseBody::lemma_round_trip(x);
                assert(SuccessResponse::payload(o) == VariablesResponseBody::encode_json(x));
                assert(SuccessResponse::decode_fields(o) matches Ok(back) && back == m);
            },
        }
    }
}

impl Record for SuccessResponse {
    open spec fn field_names() -> Set<Seq<char>> {
        set!["command"@, "body"@]
    }

    proof fn lemma_unknown_field(o: JsonObject, key: Seq<char>, x: Json) {
        broadcast use group_field_rules;

        reveal(req_field);
    }
}

#[derive(Clone, Debug, PartialEq, Eq)]
pub struct BreakpointLocationsResponseBody {
    /// Sorted set of possible breakpoint locations.
    pub breakpoints: Vec<BreakpointLocation>,
}

/// The mathematical content of a [`BreakpointLocationsResponseBody`].
pub struct BreakpointLocationsResponseBodyView {
    pub breakpoints: Seq<BreakpointLocation>,
}

impl View for BreakpointLocationsResponseBody {
    type V = BreakpointLocationsResponseBodyView;

    open spec fn view(&self) -> BreakpointLocationsResponseBodyView {
        BreakpointLocationsResponseBodyView {
            breakpoints: self.breakpoints.model(),
        }
    }
}

impl BreakpointLocationsResponseBody {
    /// The fields that are written for a value.
    pub open spec fn fields(m: BreakpointLocationsResponseBodyView) -> JsonObject {
        let o = empty_object();
        let o = with_field::<Vec<BreakpointLocation>>(o, "breakpoints"@, m.breakpoints);
        o
    }

    /// What the fields of an object decode to: the first failure in the order of
    /// the fields, or the value.
    pub open spec fn decode_fields(o: JsonObject) -> Result<BreakpointLocationsResponseBodyView, DecodeErrorView> {
        let breakpoints = req_field::<Vec<BreakpointLocation>>(o, "breakpoints"@);
        if breakpoints is Err {
            Err(breakpoints->Err_0)
        } else {
            Ok(BreakpointLocationsResponseBodyView {
                breakpoints: breakpoints->Ok_0,
            })
        }
    }

    /// Writes the fields of the value into a fresh object.
    pub fn to_object(&self) -> (o: serde_json::Map<String, serde_json::Value>)
        ensures
            object_model(o) == BreakpointLocationsResponseBody::fields(self@),
    {
        let mut o = object_new();
        put::<Vec<BreakpointLocation>>(&mut o, "breakpoints", &self.breakpoints);
        o
    }

    /// Reads a value from the fields of an object.
    pub fn from_object(o: &serde_json::Map<String, serde_json::Value>) -> (r: Result<
        BreakpointLocationsResponseBody,
        DecodeError,
    >)
        ensures
            match r {
                Ok(x) => BreakpointLocationsResponseBody::decode_fields(object_model(*o)) matches Ok(m) && m == x.model(),
                Err(e) => BreakpointLocationsResponseBody::decode_fields(object_model(*o)) matches Err(f) && f == e@,
            },
    {
        let breakpoints = get_req::<Vec<BreakpointLocation>>(o, "breakpoints")?;
        Ok(BreakpointLocationsResponseBody { breakpoints })
    }
}

impl Wire for BreakpointLocationsResponseBody {
    type Model = BreakpointLocationsResponseBodyView;

    open spec fn model(&self) -> BreakpointLocationsResponseBodyView {
        self@
    }

    open spec fn wire_ok(m: BreakpointLocationsResponseBodyView) -> bool {
        true
    }

    open spec fn encode_json(m: BreakpointLocationsResponseBodyView) -> Json {
        Json::Object(BreakpointLocationsResponseBody::fields(m))
    }

    open spec fn decode_json(j: Json) -> Result<BreakpointLocationsResponseBodyView, DecodeErrorView> {
        match j {
            Json::Object(o) => BreakpointLocationsResponseBody::decode_fields(o),
            _ => Err(DecodeErrorView::InvalidType),
        }
    }

    fn to_value(&self) -> (r: serde_json::Value) {
        value_object(self.to_object())
    }

    fn from_value(v: &serde_json::Value) -> (r: Result<BreakpointLocationsResponseBody, DecodeError>) {
        match value_as_object(v) {
            Some(o) => BreakpointLocationsResponseBody::from_object(o),
            None => Err(DecodeError::InvalidType),
        }
    }

    proof fn lemma_round_trip(m: BreakpointLocationsResponseBodyView) {
        broadcast use group_field_rules;

        reveal(req_field);
        reveal_strlit("breakpoints");
        assert("breakpoints"@.len() == 11);
        let o = BreakpointLocationsResponseBody::fields(m);
        Vec::<BreakpointLocation>::lemma_round_trip(m.breakpoints);
        assert(req_field::<Vec<BreakpointLocation>>(o, "breakpoints"@) matches Ok(v) && v == m.breakpoints);
    }
}

impl Record for BreakpointLocationsResponseBody {
    open spec fn field_names() -> Set<Seq<char>> {
        set!["breakpoints"@]
    }

    proof fn lemma_unknown_field(o: JsonObject, key: Seq<char>, x: Json) {
        broadcast use group_field_rules;

        reveal(req_field);
    }
}

#[derive(Clone, Debug, PartialEq, Eq)]
pub struct CompletionsResponseBody {
    /// The possible completions for .
    pub targets: Vec<CompletionItem>,
}

/// The mathematical content of a [`CompletionsResponseBody`].
pub struct CompletionsResponseBodyView {
    pub targets: Seq<CompletionItemView>,
}

impl View for CompletionsResponseBody {
    type V = CompletionsResponseBodyView;

    open spec fn view(&self) -> CompletionsResponseBodyView {
        CompletionsResponseBodyView {
            targets: self.targets.model(),
        }
    }
}

impl CompletionsResponseBody {
    /// The fields that are written for a value.
    pub open spec fn fields(m: CompletionsResponseBodyView) -> JsonObject {
        let o = empty_object();
        let o = with_field::<Vec<CompletionItem>>(o, "targets"@, m.targets);
        o
    }

    /// What the fields of an object decode to: the first failure in the order of
    /// the fields, or the value.
    pub open spec fn decode_fields(o: JsonObject) -> Result<CompletionsResponseBodyView, DecodeErrorView> {
        let targets = req_field::<Vec<CompletionItem>>(o, "targets"@);
        if targets is Err {
            Err(targets->Err_0)
        } else {
            Ok(CompletionsResponseBodyView {
                targets: targets->Ok_0,
            })
        }
    }

    /// Writes the fields of the value into a fresh object.
    pub fn to_object(&self) -> (o: serde_json::Map<String, serde_json::Value>)
        ensures
            object_model(o) == CompletionsResponseBody::fields(self@),
    {
        let mut o = object_new();
        put::<Vec<CompletionItem>>(&mut o, "targets", &self.targets);
        o
    }

    /// Reads a value from the fields of an object.
    pub fn from_object(o: &serde_json::Map<String, serde_json::Value>) -> (r: Result<
        CompletionsResponseBody,
        DecodeError,
    >)
        ensures
            match r {
                Ok(x) => CompletionsResponseBody::decode_fields(object_model(*o)) matches Ok(m) && m == x.model(),
                Err(e) => CompletionsResponseBody::decode_fields(object_model(*o)) matches Err(f) && f == e@,
            },
    {
        let targets = get_req::<Vec<CompletionItem>>(o, "targets")?;
        Ok(CompletionsResponseBody { targets })
    }
}

impl Wire for CompletionsResponseBody {
    type Model = CompletionsResponseBodyView;

    open spec fn model(&self) -> CompletionsResponseBodyView {
        self@
    }

    open spec fn wire_ok(m: CompletionsResponseBodyView) -> bool {
        true
    }

    open spec fn encode_json(m: CompletionsResponseBodyView) -> Json {
        Json::Object(CompletionsResponseBody::fields(m))
    }

    open spec fn decode_json(j: Json) -> Result<CompletionsResponseBodyView, DecodeErrorView> {
        match j {
            Json::Object(o) => CompletionsResponseBody::decode_fields(o),
            _ => Err(DecodeErrorView::InvalidType),
        }
    }

    fn to_value(&self) -> (r: serde_json::Value) {
        value_object(self.to_object())
    }

    fn from_value(v: &serde_json::Value) -> (r: Result<CompletionsResponseBody, DecodeError>) {
        match value_as_object(v) {
            Some(o) => CompletionsResponseBody::from_object(o),
            None => Err(DecodeError::InvalidType),
        }
    }

    proof fn lemma_round_trip(m: CompletionsResponseBodyView) {
        broadcast use group_field_rules;

        reveal(req_field);
        reveal_strlit("targets");
        assert("targets"@.len() == 7);
        let o = CompletionsResponseBody::fields(m);
        Vec::<CompletionItem>::lemma_round_trip(m.targets);
        assert(req_field::<Vec<CompletionItem>>(o, "targets"@) matches Ok(v) && v == m.targets);
    }
}

impl Record for CompletionsResponseBody {
    open spec fn field_names() -> Set<Seq<char>> {
        set!["targets"@]
    }

    proof fn lemma_unknown_field(o: JsonObject, key: Seq<char>, x: Json) {
        broadcast use group_field_rules;

        reveal(req_field);
    }
}

#[derive(Clone, Debug, PartialEq, Eq)]
pub struct ContinueResponseBody {
    /// If true, the 'continue' request has ignored the specified thread and continued all threads instead.
    ///
    /// If this attribute is missing a value of 'true' is assumed for backward compatibility.
    pub all_threads_continued: bool,
}

impl ContinueResponseBody {
    /// The fields that are written for a value.
    pub open spec fn fields(m: ContinueResponseBody) -> JsonObject {
        let o = empty_object();
        let o = with_field::<bool>(o, "allThreadsContinued"@, m.all_threads_continued);
        o
    }

    /// What the fields of an object decode to: the first failure in the order of
    /// the fields, or the value.
    pub open spec fn decode_fields(o: JsonObject) -> Result<ContinueResponseBody, DecodeErrorView> {
        let all_threads_continued = default_field::<bool>(o, "allThreadsContinued"@, true);
        if all_threads_continued is Err {
            Err(all_threads_continued->Err_0)
        } else {
            Ok(ContinueResponseBody {
                all_threads_continued: all_threads_continued->Ok_0,
            })
        }
    }

    /// Writes the fields of the value into a fresh object.
    pub fn to_object(&self) -> (o: serde_json::Map<String, serde_json::Value>)
        ensures
            object_model(o) == ContinueResponseBody::fields(*self),
    {
        let mut o = object_new();
        put::<bool>(&mut o, "allThreadsContinued", &self.all_threads_continued);
        o
    }

    /// Reads a value from the fields of an object.
    pub fn from_object(o: &serde_json::Map<String, serde_json::Value>) -> (r: Result<
        ContinueResponseBody,
        DecodeError,
    >)
        ensures
            match r {
                Ok(x) => ContinueResponseBody::decode_fields(object_model(*o)) matches Ok(m) && m == x.model(),
                Err(e) => ContinueResponseBody::decode_fields(object_model(*o)) matches Err(f) && f == e@,
            },
    {
        let all_threads_continued = get_or::<bool>(o, "allThreadsContinued", true)?;
        Ok(ContinueResponseBody { all_threads_continued })
    }
}

impl Wire for ContinueResponseBody {
    type Model = ContinueResponseBody;

    open spec fn model(&self) -> ContinueResponseBody {
        *self
    }

    open spec fn wire_ok(m: ContinueResponseBody) -> bool {
        true
    }

    open spec fn encode_json(m: ContinueResponseBody) -> Json {
        Json::Object(ContinueResponseBody::fields(m))
    }

    open spec fn decode_json(j: Json) -> Result<ContinueResponseBody, DecodeErrorView> {
        match j {
            Json::Object(o) => ContinueResponseBody::decode_fields(o),
            _ => Err(DecodeErrorView::InvalidType),
        }
    }

    fn to_value(&self) -> (r: serde_json::Value) {
        value_object(self.to_object())
    }

    fn from_value(v: &serde_json::Value) -> (r: Result<ContinueResponseBody, DecodeError>) {
        match value_as_object(v) {
            Some(o) => ContinueResponseBody::from_object(o),
            None => Err(DecodeError::InvalidType),
        }
    }

    proof fn lemma_round_trip(m: ContinueResponseBody) {
        broadcast use group_field_rules;

        reveal(default_field);
        reveal_strlit("allThreadsContinued");
        assert("allThreadsContinued"@.len() == 19);
        let o = ContinueResponseBody::fields(m);
        bool::lemma_round_trip(m.all_threads_continued);
        assert(default_field::<bool>(o, "allThreadsContinued"@, true) matches Ok(v) && v == m.all_threads_continued);
    }
}

impl Record for ContinueResponseBody {
    open spec fn field_names() -> Set<Seq<char>> {
        set!["allThreadsContinued"@]
    }

    proof fn lemma_unknown_field(o: JsonObject, key: Seq<char>, x: Json) {
        broadcast use group_field_rules;

        reveal(default_field);
    }
}

#[derive(Clone, Debug, PartialEq, Eq)]
pub struct DataBreakpointInfoResponseBody {
    /// An identifier for the data on which a data breakpoint can be registered with the setDataBreakpoints request or null if no data breakpoint is available.
    ///
    /// The protocol requires this field and gives `null` a meaning of its own: that no data
    /// breakpoint is available. So `null` is written where there is no identifier, and the
    /// field is never left out.
    pub data_id: Option<String>,

    /// UI string that describes on what data the breakpoint is set on or why a data breakpoint is not available.
    pub description: String,

    /// Optional attribute listing the available access types for a potential data breakpoint. A UI frontend could surface this information.
    pub access_types: Option<Vec<DataBreakpointAccessType>>,

    /// Optional attribute indicating that a potential data breakpoint could be persisted across sessions.
    pub can_persist: bool,
}

/// The mathematical content of a [`DataBreakpointInfoResponseBody`].
pub struct DataBreakpointInfoResponseBodyView {
    pub data_id: Option<Seq<char>>,
    pub description: Seq<char>,
    pub access_types: Option<Seq<DataBreakpointAccessType>>,
    pub can_persist: bool,
}

impl View for DataBreakpointInfoResponseBody {
    type V = DataBreakpointInfoResponseBodyView;

    open spec fn view(&self) -> DataBreakpointInfoResponseBodyView {
        DataBreakpointInfoResponseBodyView {
            data_id: self.data_id.model(),
            description: self.description.model(),
            access_types: self.access_types.model(),
            can_persist: self.can_persist,
        }
    }
}

impl DataBreakpointInfoResponseBody {
    /// The fields that are written for a value.
    pub open spec fn fields(m: DataBreakpointInfoResponseBodyView) -> JsonObject {
        let o = empty_object();
        let o = with_field::<Option<String>>(o, "dataId"@, m.data_id);
        let o = with_field::<String>(o, "description"@, m.description);
        let o = with_opt_field::<Vec<DataBreakpointAccessType>>(o, "accessTypes"@, m.access_types);
        let o = with_nondefault_field::<bool>(o, "canPersist"@, m.can_persist, false);
        o
    }

    /// What the fields of an object decode to: the first failure in the order of
    /// the fields, or the value.
    pub open spec fn decode_fields(o: JsonObject) -> Result<DataBreakpointInfoResponseBodyView, DecodeErrorView> {
        let data_id = opt_field::<String>(o, "dataId"@);
        let description = req_field::<String>(o, "description"@);
        let access_types = opt_field::<Vec<DataBreakpointAccessType>>(o, "accessTypes"@);
        let can_persist = default_field::<bool>(o, "canPersist"@, false);
        if data_id is Err {
            Err(data_id->Err_0)
        } else if description is Err {
            Err(description->Err_0)
        } else if access_types is Err {
            Err(access_types->Err_0)
        } else if can_persist is Err {
            Err(can_persist->Err_0)
        } else {
            Ok(DataBreakpointInfoResponseBodyView {
                data_id: data_id->Ok_0,
                description: description->Ok_0,
                access_types: access_types->Ok_0,
                can_persist: can_persist->Ok_0,
            })
        }
    }

    /// Writes the fields of the value into a fresh object.
    pub fn to_object(&self) -> (o: serde_json::Map<String, serde_json::Value>)
        ensures
            object_model(o) == DataBreakpointInfoResponseBody::fields(self@),
    {
        let mut o = object_new();
        put::<Option<String>>(&mut o, "dataId", &self.data_id);
        put::<String>(&mut o, "description", &self.description);
        put_opt::<Vec<DataBreakpointAccessType>>(&mut o, "accessTypes", &self.access_types);
        put_flag(&mut o, "canPersist", self.can_persist);
        o
    }

    /// Reads a value from the fields of an object.
    pub fn from_object(o: &serde_json::Map<String, serde_json::Value>) -> (r: Result<
        DataBreakpointInfoResponseBody,
        DecodeError,
    >)
        ensures
            match r {
                Ok(x) => DataBreakpointInfoResponseBody::decode_fields(object_model(*o)) matches Ok(m) && m == x.model(),
                Err(e) => DataBreakpointInfoResponseBody::decode_fields(object_model(*o)) matches Err(f) && f == e@,
            },
    {
        let data_id = get_opt::<String>(o, "dataId")?;
        let description = get_req::<String>(o, "description")?;
        let access_types = get_opt::<Vec<DataBreakpointAccessType>>(o, "accessTypes")?;
        let can_persist = get_or::<bool>(o, "canPersist", false)?;
        Ok(DataBreakpointInfoResponseBody { data_id, description, access_types, can_persist })
    }
}

impl Wire for DataBreakpointInfoResponseBody {
    type Model = DataBreakpointInfoResponseBodyView;

    open spec fn model(&self) -> DataBreakpointInfoResponseBodyView {
        self@
    }

    open spec fn wire_ok(m: DataBreakpointInfoResponseBodyView) -> bool {
        true
    }

    open spec fn encode_json(m: DataBreakpointInfoResponseBodyView) -> Json {
        Json::Object(DataBreakpointInfoResponseBody::fields(m))
    }

    open spec fn decode_json(j: Json) -> Result<DataBreakpointInfoResponseBodyView, DecodeErrorView> {
        match j {
            Json::Object(o) => DataBreakpointInfoResponseBody::decode_fields(o),
            _ => Err(DecodeErrorView::InvalidType),
        }
    }

    fn to_value(&self) -> (r: serde_json::Value) {
        value_object(self.to_object())
    }

    fn from_value(v: &serde_json::Value) -> (r: Result<DataBreakpointInfoResponseBody, DecodeError>) {
        match value_as_object(v) {
            Some(o) => DataBreakpointInfoResponseBody::from_object(o),
            None => Err(DecodeError::InvalidType),
        }
    }

    proof fn lemma_round_trip(m: DataBreakpointInfoResponseBodyView) {
        broadcast use group_field_rules;

        reveal(default_field);
        reveal(opt_field);
        reveal(req_field);
        reveal_strlit("dataId");
        reveal_strlit("description");
        reveal_strlit("accessTypes");
        reveal_strlit("canPersist");
        assert("dataId"@.len() == 6);
        assert("description"@.len() == 11);
        assert("accessTypes"@.len() == 11);
        assert("canPersist"@.len() == 10);
        assert("description"@[0] != "accessTypes"@[0]);
        let o = DataBreakpointInfoResponseBody::fields(m);
        Option::<String>::lemma_round_trip(m.data_id);
        assert(opt_field::<String>(o, "dataId"@) matches Ok(v) && v == m.data_id);
        String::lemma_round_trip(m.description);
        assert(req_field::<String>(o, "description"@) matches Ok(v) && v == m.description);
        Option::<Vec<DataBreakpointAccessType>>::lemma_round_trip(m.access_types);
        assert(opt_field::<Vec<DataBreakpointAccessType>>(o, "accessTypes"@) matches Ok(v) && v == m.access_types);
        bool::lemma_round_trip(m.can_persist);
        assert(default_field::<bool>(o, "canPersist"@, false) matches Ok(v) && v == m.can_persist);
    }
}

impl Record for DataBreakpointInfoResponseBody {
    open spec fn field_names() -> Set<Seq<char>> {
        set!["dataId"@, "description"@, "accessTypes"@, "canPersist"@]
    }

    proof fn lemma_unknown_field(o: JsonObject, key: Seq<char>, x: Json) {
        broadcast use group_field_rules;

        reveal(default_field);
        reveal(opt_field);
        reveal(req_field);
    }
}

impl Defaults for DataBreakpointInfoResponseBody {
    open spec fn elidable_names() -> Set<Seq<char>> {
        set!["accessTypes"@, "canPersist"@]
    }

    open spec fn at_defaults(m: DataBreakpointInfoResponseBodyView) -> bool {
        &&& m.access_types is None
        &&& !m.can_persist
    }

    proof fn lemma_defaults_elided(m: DataBreakpointInfoResponseBodyView, key: Seq<char>) {
        broadcast use group_field_rules;

        reveal_strlit("dataId");
        reveal_strlit("description");
        reveal_strlit("accessTypes");
        reveal_strlit("canPersist");
        assert("dataId"@.len() == 6);
        assert("description"@.len() == 11);
        assert("accessTypes"@.len() == 11);
        assert("canPersist"@.len() == 10);
        assert("description"@[0] != "accessTypes"@[0]);
    }
}

#[derive(Clone, Debug, PartialEq, Eq)]
pub struct DisassembleResponseBody {
    /// The list of disassembled instructions.
    pub instructions: Vec<DisassembledInstruction>,
}

/// The mathematical content of a [`DisassembleResponseBody`].
pub struct DisassembleResponseBodyView {
    pub instructions: Seq<DisassembledInstructionView>,
}

impl View for DisassembleResponseBody {
    type V = DisassembleResponseBodyView;

    open spec fn view(&self) -> DisassembleResponseBodyView {
        DisassembleResponseBodyView {
            instructions: self.instructions.model(),
        }
    }
}

impl DisassembleResponseBody {
    /// The fields that are written for a value.
    pub open spec fn fields(m: DisassembleResponseBodyView) -> JsonObject {
        let o = empty_object();
        let o = with_field::<Vec<DisassembledInstruction>>(o, "instructions"@, m.instructions);
        o
    }

    /// What the fields of an object decode to: the first failure in the order of
    /// the fields, or the value.
    pub open spec fn decode_fields(o: JsonObject) -> Result<DisassembleResponseBodyView, DecodeErrorView> {
        let instructions = req_field::<Vec<DisassembledInstruction>>(o, "instructions"@);
        if instructions is Err {
            Err(instructions->Err_0)
        } else {
            Ok(DisassembleResponseBodyView {
                instructions: instructions->Ok_0,
            })
        }
    }

    /// Writes the fields of the value into a fresh object.
    pub fn to_object(&self) -> (o: serde_json::Map<String, serde_json::Value>)
        ensures
            object_model(o) == DisassembleResponseBody::fields(self@),
    {
        let mut o = object_new();
        put::<Vec<DisassembledInstruction>>(&mut o, "instructions", &self.instructions);
        o
    }

    /// Reads a value from the fields of an object.
    pub fn from_object(o: &serde_json::Map<String, serde_json::Value>) -> (r: Result<
        DisassembleResponseBody,
        DecodeError,
    >)
        ensures
            match r {
                Ok(x) => DisassembleResponseBody::decode_fields(object_model(*o)) matches Ok(m) && m == x.model(),
                Err(e) => DisassembleResponseBody::decode_fields(object_model(*o)) matches Err(f) && f == e@,
            },
    {
        let instructions = get_req::<Vec<DisassembledInstruction>>(o, "instructions")?;
        Ok(DisassembleResponseBody { instructions })
    }
}

impl Wire for DisassembleResponseBody {
    type Model = DisassembleResponseBodyView;

    open spec fn model(&self) -> DisassembleResponseBodyView {
        self@
    }

    open spec fn wire_ok(m: DisassembleResponseBodyView) -> bool {
        &&& Vec::<DisassembledInstruction>::wire_ok(m.instructions)
    }

    open spec fn encode_json(m: DisassembleResponseBodyView) -> Json {
        Json::Object(DisassembleResponseBody::fields(m))
    }

    open spec fn decode_json(j: Json) -> Result<DisassembleResponseBodyView, DecodeErrorView> {
        match j {
            Json::Object(o) => DisassembleResponseBody::decode_fields(o),
            _ => Err(DecodeErrorView::InvalidType),
        }
    }

    fn to_value(&self) -> (r: serde_json::Value) {
        value_object(self.to_object())
    }

    fn from_value(v: &serde_json::Value) -> (r: Result<DisassembleResponseBody, DecodeError>) {
        match value_as_object(v) {
            Some(o) => DisassembleResponseBody::from_object(o),
            None => Err(DecodeError::InvalidType),
        }
    }

    proof fn lemma_round_trip(m: DisassembleResponseBodyView) {
        broadcast use group_field_rules;

        reveal(req_field);
        reveal_strlit("instructions");
        assert("instructions"@.len() == 12);
        let o = DisassembleResponseBody::fields(m);
        Vec::<DisassembledInstruction>::lemma_round_trip(m.instructions);
        assert(req_field::<Vec<DisassembledInstruction>>(o, "instructions"@) matches Ok(v) && v == m.instructions);
    }
}

impl Record for DisassembleResponseBody {
    open spec fn field_names() -> Set<Seq<char>> {
        set!["instructions"@]
    }

    proof fn lemma_unknown_field(o: JsonObject, key: Seq<char>, x: Json) {
        broadcast use group_field_rules;

        reveal(req_field);
    }
}

#[derive(Clone, Debug, PartialEq, Eq)]
pub struct EvaluateResponseBody {
    /// The result of the evaluate request.
    pub result: String,

    /// The optional type of the evaluate result.
    ///
    /// This attribute should only be returned by a debug adapter if the client has passed the value true for the 'supportsVariableType' capability of the 'initialize' request.
    pub type_: Option<String>,

    /// Properties of a evaluate result that can be used to determine how to render the result in the UI.
    pub presentation_hint: Option<VariablePresentationHint>,

    /// If variablesReference is > 0, the evaluate result is structured and its children can be retrieved by passing variablesReference to the VariablesRequest.
    ///
    /// The value should be less than or equal to 2147483647 (2^31-1).
    pub variables_reference: i32,

    /// The number of named child variables.
    ///
    /// The client can use this optional information to present the variables in a paged UI and fetch them in chunks.
    ///
    /// The value should be less than or equal to 2147483647 (2^31-1).
    pub named_variables: Option<i32>,

    /// The number of indexed child variables.
    ///
    /// The client can use this optional information to present the variables in a paged UI and fetch them in chunks.
    ///
    /// The value should be less than or equal to 2147483647 (2^31-1).
    pub indexed_variables: Option<i32>,

    /// Optional memory reference to a location appropriate for this result.
    ///
    /// For pointer type eval results, this is generally a reference to the memory address contained in the pointer.
    ///
    /// This attribute should be returned by a debug adapter if the client has passed the value true for the 'supportsMemoryReferences' capability of the 'initialize' request.
    pub memory_reference: Option<String>,
}

/// The mathematical content of a [`EvaluateResponseBody`].
pub struct EvaluateResponseBodyView {
    pub result: Seq<char>,
    pub type_: Option<Seq<char>>,
    pub presentation_hint: Option<VariablePresentationHintView>,
    pub variables_reference: i32,
    pub named_variables: Option<i32>,
    pub indexed_variables: Option<i32>,
    pub memory_reference: Option<Seq<char>>,
}

impl View for EvaluateResponseBody {
    type V = EvaluateResponseBodyView;

    open spec fn view(&self) -> EvaluateResponseBodyView {
        EvaluateResponseBodyView {
            result: self.result.model(),
            type_: self.type_.model(),
            presentation_hint: self.presentation_hint.model(),
            variables_reference: self.variables_reference,
            named_variables: self.named_variables.model(),
            indexed_variables: self.indexed_variables.model(),
            memory_reference: self.memory_reference.model(),
        }
    }
}

impl EvaluateResponseBody {
    /// The fields that are written for a value.
    pub open spec fn fields(m: EvaluateResponseBodyView) -> JsonObject {
        let o = empty_object();
        let o = with_field::<String>(o, "result"@, m.result);
        let o = with_opt_field::<String>(o, "type"@, m.type_);
        let o = with_opt_field::<VariablePresentationHint>(o, "presentationHint"@, m.presentation_hint);
        let o = with_field::<i32>(o, "variablesReference"@, m.variables_reference);
        let o = with_opt_field::<i32>(o, "namedVariables"@, m.named_variables);
        let o = with_opt_field::<i32>(o, "indexedVariables"@, m.indexed_variables);
        let o = with_opt_field::<String>(o, "memoryReference"@, m.memory_reference);
        o
    }

    /// What the fields of an object decode to: the first failure in the order of
    /// the fields, or the value.
    pub open spec fn decode_fields(o: JsonObject) -> Result<EvaluateResponseBodyView, DecodeErrorView> {
        let result = req_field::<String>(o, "result"@);
        let type_ = opt_field::<String>(o, "type"@);
        let presentation_hint = opt_field::<VariablePresentationHint>(o, "presentationHint"@);
        let variables_reference = req_field::<i32>(o, "variablesReference"@);
        let named_variables = opt_field::<i32>(o, "namedVariables"@);
        let indexed_variables = opt_field::<i32>(o, "indexedVariables"@);
        let memory_reference = opt_field::<String>(o, "memoryReference"@);
        if result is Err {
            Err(result->Err_0)
        } else if type_ is Err {
            Err(type_->Err_0)
        } else if presentation_hint is Err {
            Err(presentation_hint->Err_0)
        } else if variables_reference is Err {
            Err(variables_reference->Err_0)
        } else if named_variables is Err {
            Err(named_variables->Err_0)
        } else if indexed_variables is Err {
            Err(indexed_variables->Err_0)
        } else if memory_reference is Err {
            Err(memory_reference->Err_0)
        } else {
            Ok(EvaluateResponseBodyView {
                result: result->Ok_0,
                type_: type_->Ok_0,
                presentation_hint: presentation_hint->Ok_0,
                variables_reference: variables_reference->Ok_0,
                named_variables: named_variables->Ok_0,
                indexed_variables: indexed_variables->Ok_0,
                memory_reference: memory_reference->Ok_0,
            })
        }
    }

    /// Writes the fields of the value into a fresh object.
    pub fn to_object(&self) -> (o: serde_json::Map<String, serde_json::Value>)
        ensures
            object_model(o) == EvaluateResponseBody::fields(self@),
    {
        let mut o = object_new();
        put::<String>(&mut o, "result", &self.result);
        put_opt::<String>(&mut o, "type", &self.type_);
        put_opt::<VariablePresentationHint>(&mut o, "presentationHint", &self.presentation_hint);
        put::<i32>(&mut o, "variablesReference", &self.variables_reference);
        put_opt::<i32>(&mut o, "namedVariables", &self.named_variables);
        put_opt::<i32>(&mut o, "indexedVariables", &self.indexed_variables);
        put_opt::<String>(&mut o, "memoryReference", &self.memory_reference);
        o
    }

    /// Reads a value from the fields of an object.
    pub fn from_object(o: &serde_json::Map<String, serde_json::Value>) -> (r: Result<
        EvaluateResponseBody,
        DecodeError,
    >)
        ensures
            match r {
                Ok(x) => EvaluateResponseBody::decode_fields(object_model(*o)) matches Ok(m) && m == x.model(),
                Err(e) => EvaluateResponseBody::decode_fields(object_model(*o)) matches Err(f) && f == e@,
            },
    {
        let result = get_req::<String>(o, "result")?;
        let type_ = get_opt::<String>(o, "type")?;
        let presentation_hint = get_opt::<VariablePresentationHint>(o, "presentationHint")?;
        let variables_reference = get_req::<i32>(o, "variablesReference")?;
        let named_variables = get_opt::<i32>(o, "namedVariables")?;
        let indexed_variables = get_opt::<i32>(o, "indexedVariables")?;
        let memory_reference = get_opt::<String>(o, "memoryReference")?;
        Ok(EvaluateResponseBody { result, type_, presentation_hint, variables_reference, named_variables, indexed_variables, memory_reference })
    }
}

impl Wire for EvaluateResponseBody {
    type Model = EvaluateResponseBodyView;

    open spec fn model(&self) -> EvaluateResponseBodyView {
        self@
    }

    open spec fn wire_ok(m: EvaluateResponseBodyView) -> bool {
        true
    }

    open spec fn encode_json(m: EvaluateResponseBodyView) -> Json {
        Json::Object(EvaluateResponseBody::fields(m))
    }

    open spec fn decode_json(j: Json) -> Result<EvaluateResponseBodyView, DecodeErrorView> {
        match j {
            Json::Object(o) => EvaluateResponseBody::decode_fields(o),
            _ => Err(DecodeErrorView::InvalidType),
        }
    }

    fn to_value(&self) -> (r: serde_json::Value) {
        value_object(self.to_object())
    }

    fn from_value(v: &serde_json::Value) -> (r: Result<EvaluateResponseBody, DecodeError>) {
        match value_as_object(v) {
            Some(o) => EvaluateResponseBody::from_object(o),
            None => Err(DecodeError::InvalidType),
        }
    }

    proof fn lemma_round_trip(m: EvaluateResponseBodyView) {
        broadcast use group_field_rules;

        reveal(opt_field);
        reveal(req_field);
        reveal_strlit("result");
        reveal_strlit("type");
        reveal_strlit("presentationHint");
        reveal_strlit("variablesReference");
        reveal_strlit("namedVariables");
        reveal_strlit("indexedVariables");
        reveal_strlit("memoryReference");
        assert("result"@.len() == 6);
        assert("type"@.len() == 4);
        assert("presentationHint"@.len() == 16);
        assert("variablesReference"@.len() == 18);
        assert("namedVariables"@.len() == 14);
        assert("indexedVariables"@.len() == 16);
        assert("memoryReference"@.len() == 15);
        assert("presentationHint"@[0] != "indexedVariables"@[0]);
        let o = EvaluateResponseBody::fields(m);
        String::lemma_round_trip(m.result);
        assert(req_field::<String>(o, "result"@) matches Ok(v) && v == m.result);
        Option::<String>::lemma_round_trip(m.type_);
        assert(opt_field::<String>(o, "type"@) matches Ok(v) && v == m.type_);
        Option::<VariablePresentationHint>::lemma_round_trip(m.presentation_hint);
        assert(opt_field::<VariablePresentationHint>(o, "presentationHint"@) matches Ok(v) && v == m.presentation_hint);
        i32::lemma_round_trip(m.variables_reference);
        assert(req_field::<i32>(o, "variablesReference"@) matches Ok(v) && v == m.variables_reference);
        Option::<i32>::lemma_round_trip(m.named_variables);
        assert(opt_field::<i32>(o, "namedVariables"@) matches Ok(v) && v == m.named_variables);
        Option::<i32>::lemma_round_trip(m.indexed_variables);
        assert(opt_field::<i32>(o, "indexedVariables"@) matches Ok(v) && v == m.indexed_variables);
        Option::<String>::lemma_round_trip(m.memory_reference);
        assert(opt_field::<String>(o, "memoryReference"@) matches Ok(v) && v == m.memory_reference);
    }
}

impl Record for EvaluateResponseBody {
    open spec fn field_names() -> Set<Seq<char>> {
        set!["result"@, "type"@, "presentationHint"@, "variablesReference"@, "namedVariables"@, "indexedVariables"@, "memoryReference"@]
    }

    proof fn lemma_unknown_field(o: JsonObject, key: Seq<char>, x: Json) {
        broadcast use group_field_rules;

        reveal(opt_field);
        reveal(req_field);
    }
}

impl Defaults for EvaluateResponseBody {
    open spec fn elidable_names() -> Set<Seq<char>> {
        set!["type"@, "presentationHint"@, "namedVariables"@, "indexedVariables"@, "memoryReference"@]
    }

    open spec fn at_defaults(m: EvaluateResponseBodyView) -> bool {
        &&& m.type_ is None
        &&& m.presentation_hint is None
        &&& m.named_variables is None
        &&& m.indexed_variables is None
        &&& m.memory_reference is None
    }

    proof fn lemma_defaults_elided(m: EvaluateResponseBodyView, key: Seq<char>) {
        broadcast use group_field_rules;

        reveal_strlit("result");
        reveal_strlit("type");
        reveal_strlit("presentationHint");
        reveal_strlit("variablesReference");
        reveal_strlit("namedVariables");
        reveal_strlit("indexedVariables");
        reveal_strlit("memoryReference");
        assert("result"@.len() == 6);
        assert("type"@.len() == 4);
        assert("presentationHint"@.len() == 16);
        assert("variablesReference"@.len() == 18);
        assert("namedVariables"@.len() == 14);
        assert("indexedVariables"@.len() == 16);
        assert("memoryReference"@.len() == 15);
        assert("presentationHint"@[0] != "indexedVariables"@[0]);
    }
}

#[derive(Clone, Debug, PartialEq, Eq)]
pub struct ExceptionInfoResponseBody {
    /// ID of the exception that was thrown.
    pub exception_id: String,

    /// Descriptive text for the exception provided by the debug adapter.
    pub description: Option<String>,

    /// Mode that caused the exception notification to be raised.
    pub break_mode: ExceptionBreakMode,

    /// Detailed information about the exception.
    pub details: Option<ExceptionDetails>,
}

/// The mathematical content of a [`ExceptionInfoResponseBody`].
pub struct ExceptionInfoResponseBodyView {
    pub exception_id: Seq<char>,
    pub description: Option<Seq<char>>,
    pub break_mode: ExceptionBreakMode,
    pub details: Option<ExceptionDetailsView>,
}

impl View for ExceptionInfoResponseBody {
    type V = ExceptionInfoResponseBodyView;

    open spec fn view(&self) -> ExceptionInfoResponseBodyView {
        ExceptionInfoResponseBodyView {
            exception_id: self.exception_id.model(),
            description: self.description.model(),
            break_mode: self.break_mode,
            details: self.details.model(),
        }
    }
}

impl ExceptionInfoResponseBody {
    /// The fields that are written for a value.
    pub open spec fn fields(m: ExceptionInfoResponseBodyView) -> JsonObject {
        let o = empty_object();
        let o = with_field::<String>(o, "exceptionId"@, m.exception_id);
        let o = with_opt_field::<String>(o, "description"@, m.description);
        let o = with_field::<ExceptionBreakMode>(o, "breakMode"@, m.break_mode);
        let o = with_opt_field::<ExceptionDetails>(o, "details"@, m.details);
        o
    }

    /// What the fields of an object decode to: the first failure in the order of
    /// the fields, or the value.
    pub open spec fn decode_fields(o: JsonObject) -> Result<ExceptionInfoResponseBodyView, DecodeErrorView> {
        let exception_id = req_field::<String>(o, "exceptionId"@);
        let description = opt_field::<String>(o, "description"@);
        let break_mode = req_field::<ExceptionBreakMode>(o, "breakMode"@);
        let details = opt_field::<ExceptionDetails>(o, "details"@);
        if exception_id is Err {
            Err(exception_id->Err_0)
        } else if description is Err {
            Err(description->Err_0)
        } else if break_mode is Err {
            Err(break_mode->Err_0)
        } else if details is Err {
            Err(details->Err_0)
        } else {
            Ok(ExceptionInfoResponseBodyView {
                exception_id: exception_id->Ok_0,
                description: description->Ok_0,
                break_mode: break_mode->Ok_0,
                details: details->Ok_0,
            })
        }
    }

    /// Writes the fields of the value into a fresh object.
    pub fn to_object(&self) -> (o: serde_json::Map<String, serde_json::Value>)
        ensures
            object_model(o) == ExceptionInfoResponseBody::fields(self@),
    {
        let mut o = object_new();
        put::<String>(&mut o, "exceptionId", &self.exception_id);
        put_opt::<String>(&mut o, "description", &self.description);
        put::<ExceptionBreakMode>(&mut o, "breakMode", &self.break_mode);
        put_opt::<ExceptionDetails>(&mut o, "details", &self.details);
        o
    }

    /// Reads a value from the fields of an object.
    pub fn from_object(o: &serde_json::Map<String, serde_json::Value>) -> (r: Result<
        ExceptionInfoResponseBody,
        DecodeError,
    >)
        ensures
            match r {
                Ok(x) => ExceptionInfoResponseBody::decode_fields(object_model(*o)) matches Ok(m) && m == x.model(),
                Err(e) => ExceptionInfoResponseBody::decode_fields(object_model(*o)) matches Err(f) && f == e@,
            },
    {
        let exception_id = get_req::<String>(o, "exceptionId")?;
        let description = get_opt::<String>(o, "description")?;
        let break_mode = get_req::<ExceptionBreakMode>(o, "breakMode")?;
        let details = get_opt::<ExceptionDetails>(o, "details")?;
        Ok(ExceptionInfoResponseBody { exception_id, description, break_mode, details })
    }
}

impl Wire for ExceptionInfoResponseBody {
    type Model = ExceptionInfoResponseBodyView;

    open spec fn model(&self) -> ExceptionInfoResponseBodyView {
        self@
    }

    open spec fn wire_ok(m: ExceptionInfoResponseBodyView) -> bool {
        true
    }

    open spec fn encode_json(m: ExceptionInfoResponseBodyView) -> Json {
        Json::Object(ExceptionInfoResponseBody::fields(m))
    }

    open spec fn decode_json(j: Json) -> Result<ExceptionInfoResponseBodyView, DecodeErrorView> {
        match j {
            Json::Object(o) => ExceptionInfoResponseBody::decode_fields(o),
            _ => Err(DecodeErrorView::InvalidType),
        }
    }

    fn to_value(&self) -> (r: serde_json::Value) {
        value_object(self.to_object())
    }

    fn from_value(v: &serde_json::Value) -> (r: Result<ExceptionInfoResponseBody, DecodeError>) {
        match value_as_object(v) {
            Some(o) => ExceptionInfoResponseBody::from_object(o),
            None => Err(DecodeError::InvalidType),
        }
    }

    proof fn lemma_round_trip(m: ExceptionInfoResponseBodyView) {
        broadcast use group_field_rules;

        reveal(opt_field);
        reveal(req_field);
        reveal_strlit("exceptionId");
        reveal_strlit("description");
        reveal_strlit("breakMode");
        reveal_strlit("details");
        assert("exceptionId"@.len() == 11);
        assert("description"@.len() == 11);
        assert("breakMode"@.len() == 9);
        assert("details"@.len() == 7);
        assert("exceptionId"@[0] != "description"@[0]);
        let o = ExceptionInfoResponseBody::fields(m);
        String::lemma_round_trip(m.exception_id);
        assert(req_field::<String>(o, "exceptionId"@) matches Ok(v) && v == m.exception_id);
        Option::<String>::lemma_round_trip(m.description);
        assert(opt_field::<String>(o, "description"@) matches Ok(v) && v == m.description);
        ExceptionBreakMode::lemma_round_trip(m.break_mode);
        assert(req_field::<ExceptionBreakMode>(o, "breakMode"@) matches Ok(v) && v == m.break_mode);
        Option::<ExceptionDetails>::lemma_round_trip(m.details);
        assert(opt_field::<ExceptionDetails>(o, "details"@) matches Ok(v) && v == m.details);
    }
}

impl Record for ExceptionInfoResponseBody {
    open spec fn field_names() -> Set<Seq<char>> {
        set!["exceptionId"@, "description"@, "breakMode"@, "details"@]
    }

    proof fn lemma_unknown_field(o: JsonObject, key: Seq<char>, x: Json) {
        broadcast use group_field_rules;

        reveal(opt_field);
        reveal(req_field);
    }
}

impl Defaults for ExceptionInfoResponseBody {
    open spec fn elidable_names() -> Set<Seq<char>> {
        set!["description"@, "details"@]
    }

    open spec fn at_defaults(m: ExceptionInfoResponseBodyView) -> bool {
        &&& m.description is None
        &&& m.details is None
    }

    proof fn lemma_defaults_elided(m: ExceptionInfoResponseBodyView, key: Seq<char>) {
        broadcast use group_field_rules;

        reveal_strlit("exceptionId");
        reveal_strlit("description");
        reveal_strlit("breakMode");
        reveal_strlit("details");
        assert("exceptionId"@.len() == 11);
        assert("description"@.len() == 11);
        assert("breakMode"@.len() == 9);
        assert("details"@.len() == 7);
        assert("exceptionId"@[0] != "description"@[0]);
    }
}

#[derive(Clone, Debug, PartialEq, Eq)]
pub struct GotoTargetsResponseBody {
    /// The possible goto targets of the specified location.
    pub targets: Vec<GotoTarget>,
}

/// The mathematical content of a [`GotoTargetsResponseBody`].
pub struct GotoTargetsResponseBodyView {
    pub targets: Seq<GotoTargetView>,
}

impl View for GotoTargetsResponseBody {
    type V = GotoTargetsResponseBodyView;

    open spec fn view(&self) -> GotoTargetsResponseBodyView {
        GotoTargetsResponseBodyView {
            targets: self.targets.model(),
        }
    }
}

impl GotoTargetsResponseBody {
    /// The fields that are written for a value.
    pub open spec fn fields(m: GotoTargetsResponseBodyView) -> JsonObject {
        let o = empty_object();
        let o = with_field::<Vec<GotoTarget>>(o, "targets"@, m.targets);
        o
    }

    /// What the fields of an object decode to: the first failure in the order of
    /// the fields, or the value.
    pub open spec fn decode_fields(o: JsonObject) -> Result<GotoTargetsResponseBodyView, DecodeErrorView> {
        let targets = req_field::<Vec<GotoTarget>>(o, "targets"@);
        if targets is Err {
            Err(targets->Err_0)
        } else {
            Ok(GotoTargetsResponseBodyView {
                targets: targets->Ok_0,
            })
        }
    }

    /// Writes the fields of the value into a fresh object.
    pub fn to_object(&self) -> (o: serde_json::Map<String, serde_json::Value>)
        ensures
            object_model(o) == GotoTargetsResponseBody::fields(self@),
    {
        let mut o = object_new();
        put::<Vec<GotoTarget>>(&mut o, "targets", &self.targets);
        o
    }

    /// Reads a value from the fields of an object.
    pub fn from_object(o: &serde_json::Map<String, serde_json::Value>) -> (r: Result<
        GotoTargetsResponseBody,
        DecodeError,
    >)
        ensures
            match r {
                Ok(x) => GotoTargetsResponseBody::decode_fields(object_model(*o)) matches Ok(m) && m == x.model(),
                Err(e) => GotoTargetsResponseBody::decode_fields(object_model(*o)) matches Err(f) && f == e@,
            },
    {
        let targets = get_req::<Vec<GotoTarget>>(o, "targets")?;
        Ok(GotoTargetsResponseBody { targets })
    }
}

impl Wire for GotoTargetsResponseBody {
    type Model = GotoTargetsResponseBodyView;

    open spec fn model(&self) -> GotoTargetsResponseBodyView {
        self@
    }

    open spec fn wire_ok(m: GotoTargetsResponseBodyView) -> bool {
        true
    }

    open spec fn encode_json(m: GotoTargetsResponseBodyView) -> Json {
        Json::Object(GotoTargetsResponseBody::fields(m))
    }

    open spec fn decode_json(j: Json) -> Result<GotoTargetsResponseBodyView, DecodeErrorView> {
        match j {
            Json::Object(o) => GotoTargetsResponseBody::decode_fields(o),
            _ => Err(DecodeErrorView::InvalidType),
        }
    }

    fn to_value(&self) -> (r: serde_json::Value) {
        value_object(self.to_object())
    }

    fn from_value(v: &serde_json::Value) -> (r: Result<GotoTargetsResponseBody, DecodeError>) {
        match value_as_object(v) {
            Some(o) => GotoTargetsResponseBody::from_object(o),
            None => Err(DecodeError::InvalidType),
        }
    }

    proof fn lemma_round_trip(m: GotoTargetsResponseBodyView) {
        broadcast use group_field_rules;

        reveal(req_field);
        reveal_strlit("targets");
        assert("targets"@.len() == 7);
        let o = GotoTargetsResponseBody::fields(m);
        Vec::<GotoTarget>::lemma_round_trip(m.targets);
        assert(req_field::<Vec<GotoTarget>>(o, "targets"@) matches Ok(v) && v == m.targets);
    }
}

impl Record for GotoTargetsResponseBody {
    open spec fn field_names() -> Set<Seq<char>> {
        set!["targets"@]
    }

    proof fn lemma_unknown_field(o: JsonObject, key: Seq<char>, x: Json) {
        broadcast use group_field_rules;

        reveal(req_field);
    }
}

#[derive(Clone, Debug, PartialEq, Eq)]
pub struct LoadedSourcesResponseBody {
    /// Set of loaded sources.
    pub sources: Vec<Source>,
}

/// The mathematical content of a [`LoadedSourcesResponseBody`].
pub struct LoadedSourcesResponseBodyView {
    pub sources: Seq<SourceView>,
}

impl View for LoadedSourcesResponseBody {
    type V = LoadedSourcesResponseBodyView;

    open spec fn view(&self) -> LoadedSourcesResponseBodyView {
        LoadedSourcesResponseBodyView {
            sources: self.sources.model(),
        }
    }
}

impl LoadedSourcesResponseBody {
    /// The fields that are written for a value.
    pub open spec fn fields(m: LoadedSourcesResponseBodyView) -> JsonObject {
        let o = empty_object();
        let o = with_field::<Vec<Source>>(o, "sources"@, m.sources);
        o
    }

    /// What the fields of an object decode to: the first failure in the order of
    /// the fields, or the value.
    pub open spec fn decode_fields(o: JsonObject) -> Result<LoadedSourcesResponseBodyView, DecodeErrorView> {
        let sources = req_field::<Vec<Source>>(o, "sources"@);
        if sources is Err {
            Err(sources->Err_0)
        } else {
            Ok(LoadedSourcesResponseBodyView {
                sources: sources->Ok_0,
            })
        }
    }

    /// Writes the fields of the value into a fresh object.
    pub fn to_object(&self) -> (o: serde_json::Map<String, serde_json::Value>)
        ensures
            object_model(o) == LoadedSourcesResponseBody::fields(self@),
    {
        let mut o = object_new();
        put::<Vec<Source>>(&mut o, "sources", &self.sources);
        o
    }

    /// Reads a value from the fields of an object.
    pub fn from_object(o: &serde_json::Map<String, serde_json::Value>) -> (r: Result<
        LoadedSourcesResponseBody,
        DecodeError,
    >)
        ensures
            match r {
                Ok(x) => LoadedSourcesResponseBody::decode_fields(object_model(*o)) matches Ok(m) && m == x.model(),
                Err(e) => LoadedSourcesResponseBody::decode_fields(object_model(*o)) matches Err(f) && f == e@,
            },
    {
        let sources = get_req::<Vec<Source>>(o, "sources")?;
        Ok(LoadedSourcesResponseBody { sources })
    }
}

impl Wire for LoadedSourcesResponseBody {
    type Model = LoadedSourcesResponseBodyView;

    open spec fn model(&self) -> LoadedSourcesResponseBodyView {
        self@
    }

    open spec fn wire_ok(m: LoadedSourcesResponseBodyView) -> bool {
        &&& Vec::<Source>::wire_ok(m.sources)
    }

    open spec fn encode_json(m: LoadedSourcesResponseBodyView) -> Json {
        Json::Object(LoadedSourcesResponseBody::fields(m))
    }

    open spec fn decode_json(j: Json) -> Result<LoadedSourcesResponseBodyView, DecodeErrorView> {
        match j {
            Json::Object(o) => LoadedSourcesResponseBody::decode_fields(o),
            _ => Err(DecodeErrorView::InvalidType),
        }
    }

    fn to_value(&self) -> (r: serde_json::Value) {
        value_object(self.to_object())
    }

    fn from_value(v: &serde_json::Value) -> (r: Result<LoadedSourcesResponseBody, DecodeError>) {
        match value_as_object(v) {
            Some(o) => LoadedSourcesResponseBody::from_object(o),
            None => Err(DecodeError::InvalidType),
        }
    }

    proof fn lemma_round_trip(m: LoadedSourcesResponseBodyView) {
        broadcast use group_field_rules;

        reveal(req_field);
        reveal_strlit("sources");
        assert("sources"@.len() == 7);
        let o = LoadedSourcesResponseBody::fields(m);
        Vec::<Source>::lemma_round_trip(m.sources);
        assert(req_field::<Vec<Source>>(o, "sources"@) matches Ok(v) && v == m.sources);
    }
}

impl Record for LoadedSourcesResponseBody {
    open spec fn field_names() -> Set<Seq<char>> {
        set!["sources"@]
    }

    proof fn lemma_unknown_field(o: JsonObject, key: Seq<char>, x: Json) {
        broadcast use group_field_rules;

        reveal(req_field);
    }
}

#[derive(Clone, Debug, PartialEq, Eq)]
pub struct ModulesResponseBody {
    /// All modules or range of modules.
    pub modules: Vec<Module>,

    /// The total number of modules available.
    pub total_modules: Option<i32>,
}

/// The mathematical content of a [`ModulesResponseBody`].
pub struct ModulesResponseBodyView {
    pub modules: Seq<ModuleView>,
    pub total_modules: Option<i32>,
}

impl View for ModulesResponseBody {
    type V = ModulesResponseBodyView;

    open spec fn view(&self) -> ModulesResponseBodyView {
        ModulesResponseBodyView {
            modules: self.modules.model(),
            total_modules: self.total_modules.model(),
        }
    }
}

impl ModulesResponseBody {
    /// The fields that are written for a value.
    pub open spec fn fields(m: ModulesResponseBodyView) -> JsonObject {
        let o = empty_object();
        let o = with_field::<Vec<Module>>(o, "modules"@, m.modules);
        let o = with_opt_field::<i32>(o, "totalModules"@, m.total_modules);
        o
    }

    /// What the fields of an object decode to: the first failure in the order of
    /// the fields, or the value.
    pub open spec fn decode_fields(o: JsonObject) -> Result<ModulesResponseBodyView, DecodeErrorView> {
        let modules = req_field::<Vec<Module>>(o, "modules"@);
        let total_modules = opt_field::<i32>(o, "totalModules"@);
        if modules is Err {
            Err(modules->Err_0)
        } else if total_modules is Err {
            Err(total_modules->Err_0)
        } else {
            Ok(ModulesResponseBodyView {
                modules: modules->Ok_0,
                total_modules: total_modules->Ok_0,
            })
        }
    }

    /// Writes the fields of the value into a fresh object.
    pub fn to_object(&self) -> (o: serde_json::Map<String, serde_json::Value>)
        ensures
            object_model(o) == ModulesResponseBody::fields(self@),
    {
        let mut o = object_new();
        put::<Vec<Module>>(&mut o, "modules", &self.modules);
        put_opt::<i32>(&mut o, "totalModules", &self.total_modules);
        o
    }

    /// Reads a value from the fields of an object.
    pub fn from_object(o: &serde_json::Map<String, serde_json::Value>) -> (r: Result<
        ModulesResponseBody,
        DecodeError,
    >)
        ensures
            match r {
                Ok(x) => ModulesResponseBody::decode_fields(object_model(*o)) matches Ok(m) && m == x.model(),
                Err(e) => ModulesResponseBody::decode_fields(object_model(*o)) matches Err(f) && f == e@,
            },
    {
        let modules = get_req::<Vec<Module>>(o, "modules")?;
        let total_modules = get_opt::<i32>(o, "totalModules")?;
        Ok(ModulesResponseBody { modules, total_modules })
    }
}

impl Wire for ModulesResponseBody {
    type Model = ModulesResponseBodyView;

    open spec fn model(&self) -> ModulesResponseBodyView {
        self@
    }

    open spec fn wire_ok(m: ModulesResponseBodyView) -> bool {
        true
    }

    open spec fn encode_json(m: ModulesResponseBodyView) -> Json {
        Json::Object(ModulesResponseBody::fields(m))
    }

    open spec fn decode_json(j: Json) -> Result<ModulesResponseBodyView, DecodeErrorView> {
        match j {
            Json::Object(o) => ModulesResponseBody::decode_fields(o),
            _ => Err(DecodeErrorView::InvalidType),
        }
    }

    fn to_value(&self) -> (r: serde_json::Value) {
        value_object(self.to_object())
    }

    fn from_value(v: &serde_json::Value) -> (r: Result<ModulesResponseBody, DecodeError>) {
        match value_as_object(v) {
            Some(o) => ModulesResponseBody::from_object(o),
            None => Err(DecodeError::InvalidType),
        }
    }

    proof fn lemma_round_trip(m: ModulesResponseBodyView) {
        broadcast use group_field_rules;

        reveal(opt_field);
        reveal(req_field);
        reveal_strlit("modules");
        reveal_strlit("totalModules");
        assert("modules"@.len() == 7);
        assert("totalModules"@.len() == 12);
        let o = ModulesResponseBody::fields(m);
        Vec::<Module>::lemma_round_trip(m.modules);
        assert(req_field::<Vec<Module>>(o, "modules"@) matches Ok(v) && v == m.modules);
        Option::<i32>::lemma_round_trip(m.total_modules);
        assert(opt_field::<i32>(o, "totalModules"@) matches Ok(v) && v == m.total_modules);
    }
}

impl Record for ModulesResponseBody {
    open spec fn field_names() -> Set<Seq<char>> {
        set!["modules"@, "totalModules"@]
    }

    proof fn lemma_unknown_field(o: JsonObject, key: Seq<char>, x: Json) {
        broadcast use group_field_rules;

        reveal(opt_field);
        reveal(req_field);
    }
}

impl Defaults for ModulesResponseBody {
    open spec fn elidable_names() -> Set<Seq<char>> {
        set!["totalModules"@]
    }

    open spec fn at_defaults(m: ModulesResponseBodyView) -> bool {
        &&& m.total_modules is None
    }

    proof fn lemma_defaults_elided(m: ModulesResponseBodyView, key: Seq<char>) {
        broadcast use group_field_rules;

        reveal_strlit("modules");
        reveal_strlit("totalModules");
        assert("modules"@.len() == 7);
        assert("totalModules"@.len() == 12);
    }
}

#[derive(Clone, Debug, PartialEq, Eq)]
pub struct ReadMemoryResponseBody {
    /// The address of the first byte of data returned.
    ///
    /// Treated as a hex value if prefixed with '0x', or as a decimal value otherwise.
    pub address: String,

    /// The number of unreadable bytes encountered after the last successfully read byte.
    ///
    /// This can be used to determine the number of bytes that must be skipped before a subsequent 'readMemory' request will succeed.
    pub unreadable_bytes: Option<i32>,

    /// The bytes read from memory, encoded using base64.
    pub data: Option<String>,
}

/// The mathematical content of a [`ReadMemoryResponseBody`].
pub struct ReadMemoryResponseBodyView {
    pub address: Seq<char>,
    pub unreadable_bytes: Option<i32>,
    pub data: Option<Seq<char>>,
}

impl View for ReadMemoryResponseBody {
    type V = ReadMemoryResponseBodyView;

    open spec fn view(&self) -> ReadMemoryResponseBodyView {
        ReadMemoryResponseBodyView {
            address: self.address.model(),
            unreadable_bytes: self.unreadable_bytes.model(),
            data: self.data.model(),
        }
    }
}

impl ReadMemoryResponseBody {
    /// The fields that are written for a value.
    pub open spec fn fields(m: ReadMemoryResponseBodyView) -> JsonObject {
        let o = empty_object();
        let o = with_field::<String>(o, "address"@, m.address);
        let o = with_opt_field::<i32>(o, "unreadableBytes"@, m.unreadable_bytes);
        let o = with_opt_field::<String>(o, "data"@, m.data);
        o
    }

    /// What the fields of an object decode to: the first failure in the order of
    /// the fields, or the value.
    pub open spec fn decode_fields(o: JsonObject) -> Result<ReadMemoryResponseBodyView, DecodeErrorView> {
        let address = req_field::<String>(o, "address"@);
        let unreadable_bytes = opt_field::<i32>(o, "unreadableBytes"@);
        let data = opt_field::<String>(o, "data"@);
        if address is Err {
            Err(address->Err_0)
        } else if unreadable_bytes is Err {
            Err(unreadable_bytes->Err_0)
        } else if data is Err {
            Err(data->Err_0)
        } else {
            Ok(ReadMemoryResponseBodyView {
                address: address->Ok_0,
                unreadable_bytes: unreadable_bytes->Ok_0,
                data: data->Ok_0,
            })
        }
    }

    /// Writes the fields of the value into a fresh object.
    pub fn to_object(&self) -> (o: serde_json::Map<String, serde_json::Value>)
        ensures
            object_model(o) == ReadMemoryResponseBody::fields(self@),
    {
        let mut o = object_new();
        put::<String>(&mut o, "address", &self.address);
        put_opt::<i32>(&mut o, "unreadableBytes", &self.unreadable_bytes);
        put_opt::<String>(&mut o, "data", &self.data);
        o
    }

    /// Reads a value from the fields of an object.
    pub fn from_object(o: &serde_json::Map<String, serde_json::Value>) -> (r: Result<
        ReadMemoryResponseBody,
        DecodeError,
    >)
        ensures
            match r {
                Ok(x) => ReadMemoryResponseBody::decode_fields(object_model(*o)) matches Ok(m) && m == x.model(),
                Err(e) => ReadMemoryResponseBody::decode_fields(object_model(*o)) matches Err(f) && f == e@,
            },
    {
        let address = get_req::<String>(o, "address")?;
        let unreadable_bytes = get_opt::<i32>(o, "unreadableBytes")?;
        let data = get_opt::<String>(o, "data")?;
        Ok(ReadMemoryResponseBody { address, unreadable_bytes, data })
    }
}

impl Wire for ReadMemoryResponseBody {
    type Model = ReadMemoryResponseBodyView;

    open spec fn model(&self) -> ReadMemoryResponseBodyView {
        self@
    }

    open spec fn wire_ok(m: ReadMemoryResponseBodyView) -> bool {
        true
    }

    open spec fn encode_json(m: ReadMemoryResponseBodyView) -> Json {
        Json::Object(ReadMemoryResponseBody::fields(m))
    }

    open spec fn decode_json(j: Json) -> Result<ReadMemoryResponseBodyView, DecodeErrorView> {
        match j {
            Json::Object(o) => ReadMemoryResponseBody::decode_fields(o),
            _ => Err(DecodeErrorView::InvalidType),
        }
    }

    fn to_value(&self) -> (r: serde_json::Value) {
        value_object(self.to_object())
    }

    fn from_value(v: &serde_json::Value) -> (r: Result<ReadMemoryResponseBody, DecodeError>) {
        match value_as_object(v) {
            Some(o) => ReadMemoryResponseBody::from_object(o),
            None => Err(DecodeError::InvalidType),
        }
    }

    proof fn lemma_round_trip(m: ReadMemoryResponseBodyView) {
        broadcast use group_field_rules;

        reveal(opt_field);
        reveal(req_field);
        reveal_strlit("address");
        reveal_strlit("unreadableBytes");
        reveal_strlit("data");
        assert("address"@.len() == 7);
        assert("unreadableBytes"@.len() == 15);
        assert("data"@.len() == 4);
        let o = ReadMemoryResponseBody::fields(m);
        String::lemma_round_trip(m.address);
        assert(req_field::<String>(o, "address"@) matches Ok(v) && v == m.address);
        Option::<i32>::lemma_round_trip(m.unreadable_bytes);
        assert(opt_field::<i32>(o, "unreadableBytes"@) matches Ok(v) && v == m.unreadable_bytes);
        Option::<String>::lemma_round_trip(m.data);
        assert(opt_field::<String>(o, "data"@) matches Ok(v) && v == m.data);
    }
}

impl Record for ReadMemoryResponseBody {
    open spec fn field_names() -> Set<Seq<char>> {
        set!["address"@, "unreadableBytes"@, "data"@]
    }

    proof fn lemma_unknown_field(o: JsonObject, key: Seq<char>, x: Json) {
        broadcast use group_field_rules;

        reveal(opt_field);
        reveal(req_field);
    }
}

impl Defaults for ReadMemoryResponseBody {
    open spec fn elidable_names() -> Set<Seq<char>> {
        set!["unreadableBytes"@, "data"@]
    }

    open spec fn at_defaults(m: ReadMemoryResponseBodyView) -> bool {
        &&& m.unreadable_bytes is None
        &&& m.data is None
    }

    proof fn lemma_defaults_elided(m: ReadMemoryResponseBodyView, key: Seq<char>) {
        broadcast use group_field_rules;

        reveal_strlit("address");
        reveal_strlit("unreadableBytes");
        reveal_strlit("data");
        assert("address"@.len() == 7);
        assert("unreadableBytes"@.len() == 15);
        assert("data"@.len() == 4);
    }
}

#[derive(Clone, Debug, PartialEq, Eq)]
pub struct RunInTerminalResponseBody {
    /// The process ID. The value should be less than or equal to 2147483647 (2^31-1).
    pub process_id: Option<i32>,

    /// The process ID of the terminal shell. The value should be less than or equal to 2147483647 (2^31-1).
    pub shell_process_id: Option<i32>,
}

impl RunInTerminalResponseBody {
    /// The fields that are written for a value.
    pub open spec fn fields(m: RunInTerminalResponseBody) -> JsonObject {
        let o = empty_object();
        let o = with_opt_field::<i32>(o, "processId"@, m.process_id);
        let o = with_opt_field::<i32>(o, "shellProcessId"@, m.shell_process_id);
        o
    }

    /// What the fields of an object decode to: the first failure in the order of
    /// the fields, or the value.
    pub open spec fn decode_fields(o: JsonObject) -> Result<RunInTerminalResponseBody, DecodeErrorView> {
        let process_id = opt_field::<i32>(o, "processId"@);
        let shell_process_id = opt_field::<i32>(o, "shellProcessId"@);
        if process_id is Err {
            Err(process_id->Err_0)
        } else if shell_process_id is Err {
            Err(shell_process_id->Err_0)
        } else {
            Ok(RunInTerminalResponseBody {
                process_id: process_id->Ok_0,
                shell_process_id: shell_process_id->Ok_0,
            })
        }
    }

    /// Writes the fields of the value into a fresh object.
    pub fn to_object(&self) -> (o: serde_json::Map<String, serde_json::Value>)
        ensures
            object_model(o) == RunInTerminalResponseBody::fields(*self),
    {
        let mut o = object_new();
        put_opt::<i32>(&mut o, "processId", &self.process_id);
        put_opt::<i32>(&mut o, "shellProcessId", &self.shell_process_id);
        o
    }

    /// Reads a value from the fields of an object.
    pub fn from_object(o: &serde_json::Map<String, serde_json::Value>) -> (r: Result<
        RunInTerminalResponseBody,
        DecodeError,
    >)
        ensures
            match r {
                Ok(x) => RunInTerminalResponseBody::decode_fields(object_model(*o)) matches Ok(m) && m == x.model(),
                Err(e) => RunInTerminalResponseBody::decode_fields(object_model(*o)) matches Err(f) && f == e@,
            },
    {
        let process_id = get_opt::<i32>(o, "processId")?;
        let shell_process_id = get_opt::<i32>(o, "shellProcessId")?;
        Ok(RunInTerminalResponseBody { process_id, shell_process_id })
    }
}

impl Wire for RunInTerminalResponseBody {
    type Model = RunInTerminalResponseBody;

    open spec fn model(&self) -> RunInTerminalResponseBody {
        *self
    }

    open spec fn wire_ok(m: RunInTerminalResponseBody) -> bool {
        true
    }

    open spec fn encode_json(m: RunInTerminalResponseBody) -> Json {
        Json::Object(RunInTerminalResponseBody::fields(m))
    }

    open spec fn decode_json(j: Json) -> Result<RunInTerminalResponseBody, DecodeErrorView> {
        match j {
            Json::Object(o) => RunInTerminalResponseBody::decode_fields(o),
            _ => Err(DecodeErrorView::InvalidType),
        }
    }

    fn to_value(&self) -> (r: serde_json::Value) {
        value_object(self.to_object())
    }

    fn from_value(v: &serde_json::Value) -> (r: Result<RunInTerminalResponseBody, DecodeError>) {
        match value_as_object(v) {
            Some(o) => RunInTerminalResponseBody::from_object(o),
            None => Err(DecodeError::InvalidType),
        }
    }

    proof fn lemma_round_trip(m: RunInTerminalResponseBody) {
        broadcast use group_field_rules;

        reveal(opt_field);
        reveal_strlit("processId");
        reveal_strlit("shellProcessId");
        assert("processId"@.len() == 9);
        assert("shellProcessId"@.len() == 14);
        let o = RunInTerminalResponseBody::fields(m);
        Option::<i32>::lemma_round_trip(m.process_id);
        assert(opt_field::<i32>(o, "processId"@) matches Ok(v) && v == m.process_id);
        Option::<i32>::lemma_round_trip(m.shell_process_id);
        assert(opt_field::<i32>(o, "shellProcessId"@) matches Ok(v) && v == m.shell_process_id);
    }
}

impl Record for RunInTerminalResponseBody {
    open spec fn field_names() -> Set<Seq<char>> {
        set!["processId"@, "shellProcessId"@]
    }

    proof fn lemma_unknown_field(o: JsonObject, key: Seq<char>, x: Json) {
        broadcast use group_field_rules;

        reveal(opt_field);
    }
}

impl Defaults for RunInTerminalResponseBody {
    open spec fn elidable_names() -> Set<Seq<char>> {
        set!["processId"@, "shellProcessId"@]
    }

    open spec fn at_defaults(m: RunInTerminalResponseBody) -> bool {
        &&& m.process_id is None
        &&& m.shell_process_id is None
    }

    proof fn lemma_defaults_elided(m: RunInTerminalResponseBody, key: Seq<char>) {
        broadcast use group_field_rules;

        reveal_strlit("processId");
        reveal_strlit("shellProcessId");
        assert("processId"@.len() == 9);
        assert("shellProcessId"@.len() == 14);
    }
}

#[derive(Clone, Debug, PartialEq, Eq)]
pub struct ScopesResponseBody {
    /// The scopes of the stackframe. If the array has length zero, there are no scopes available.
    pub scopes: Vec<Scope>,
}

/// The mathematical content of a [`ScopesResponseBody`].
pub struct ScopesResponseBodyView {
    pub scopes: Seq<ScopeView>,
}

impl View for ScopesResponseBody {
    type V = ScopesResponseBodyView;

    open spec fn view(&self) -> ScopesResponseBodyView {
        ScopesResponseBodyView {
            scopes: self.scopes.model(),
        }
    }
}

impl ScopesResponseBody {
    /// The fields that are written for a value.
    pub open spec fn fields(m: ScopesResponseBodyView) -> JsonObject {
        let o = empty_object();
        let o = with_field::<Vec<Scope>>(o, "scopes"@, m.scopes);
        o
    }

    /// What the fields of an object decode to: the first failure in the order of
    /// the fields, or the value.
    pub open spec fn decode_fields(o: JsonObject) -> Result<ScopesResponseBodyView, DecodeErrorView> {
        let scopes = req_field::<Vec<Scope>>(o, "scopes"@);
        if scopes is Err {
            Err(scopes->Err_0)
        } else {
            Ok(ScopesResponseBodyView {
                scopes: scopes->Ok_0,
            })
        }
    }

    /// Writes the fields of the value into a fresh object.
    pub fn to_object(&self) -> (o: serde_json::Map<String, serde_json::Value>)
        ensures
            object_model(o) == ScopesResponseBody::fields(self@),
    {
        let mut o = object_new();
        put::<Vec<Scope>>(&mut o, "scopes", &self.scopes);
        o
    }

    /// Reads a value from the fields of an object.
    pub fn from_object(o: &serde_json::Map<String, serde_json::Value>) -> (r: Result<
        ScopesResponseBody,
        DecodeError,
    >)
        ensures
            match r {
                Ok(x) => ScopesResponseBody::decode_fields(object_model(*o)) matches Ok(m) && m == x.model(),
                Err(e) => ScopesResponseBody::decode_fields(object_model(*o)) matches Err(f) && f == e@,
            },
    {
        let scopes = get_req::<Vec<Scope>>(o, "scopes")?;
        Ok(ScopesResponseBody { scopes })
    }
}

impl Wire for ScopesResponseBody {
    type Model = ScopesResponseBodyView;

    open spec fn model(&self) -> ScopesResponseBodyView {
        self@
    }

    open spec fn wire_ok(m: ScopesResponseBodyView) -> bool {
        &&& Vec::<Scope>::wire_ok(m.scopes)
    }

    open spec fn encode_json(m: ScopesResponseBodyView) -> Json {
        Json::Object(ScopesResponseBody::fields(m))
    }

    open spec fn decode_json(j: Json) -> Result<ScopesResponseBodyView, DecodeErrorView> {
        match j {
            Json::Object(o) => ScopesResponseBody::decode_fields(o),
            _ => Err(DecodeErrorView::InvalidType),
        }
    }

    fn to_value(&self) -> (r: serde_json::Value) {
        value_object(self.to_object())
    }

    fn from_value(v: &serde_json::Value) -> (r: Result<ScopesResponseBody, DecodeError>) {
        match value_as_object(v) {
            Some(o) => ScopesResponseBody::from_object(o),
            None => Err(DecodeError::InvalidType),
        }
    }

    proof fn lemma_round_trip(m: ScopesResponseBodyView) {
        broadcast use group_field_rules;

        reveal(req_field);
        reveal_strlit("scopes");
        assert("scopes"@.len() == 6);
        let o = ScopesResponseBody::fields(m);
        Vec::<Scope>::lemma_round_trip(m.scopes);
        assert(req_field::<Vec<Scope>>(o, "scopes"@) matches Ok(v) && v == m.scopes);
    }
}

impl Record for ScopesResponseBody {
    open spec fn field_names() -> Set<Seq<char>> {
        set!["scopes"@]
    }

    proof fn lemma_unknown_field(o: JsonObject, key: Seq<char>, x: Json) {
        broadcast use group_field_rules;

        reveal(req_field);
    }
}

#[derive(Clone, Debug, PartialEq, Eq)]
pub struct SetBreakpointsResponseBody {
    /// Information about the breakpoints.
    ///
    /// The array elements are in the same order as the elements of the 'breakpoints' (or the deprecated 'lines') array in the arguments.
    pub breakpoints: Vec<Breakpoint>,
}

/// The mathematical content of a [`SetBreakpointsResponseBody`].
pub struct SetBreakpointsResponseBodyView {
    pub breakpoints: Seq<BreakpointView>,
}

impl View for SetBreakpointsResponseBody {
    type V = SetBreakpointsResponseBodyView;

    open spec fn view(&self) -> SetBreakpointsResponseBodyView {
        SetBreakpointsResponseBodyView {
            breakpoints: self.breakpoints.model(),
        }
    }
}

impl SetBreakpointsResponseBody {
    /// The fields that are written for a value.
    pub open spec fn fields(m: SetBreakpointsResponseBodyView) -> JsonObject {
        let o = empty_object();
        let o = with_field::<Vec<Breakpoint>>(o, "breakpoints"@, m.breakpoints);
        o
    }

    /// What the fields of an object decode to: the first failure in the order of
    /// the fields, or the value.
    pub open spec fn decode_fields(o: JsonObject) -> Result<SetBreakpointsResponseBodyView, DecodeErrorView> {
        let breakpoints = req_field::<Vec<Breakpoint>>(o, "breakpoints"@);
        if breakpoints is Err {
            Err(breakpoints->Err_0)
        } else {
            Ok(SetBreakpointsResponseBodyView {
                breakpoints: breakpoints->Ok_0,
            })
        }
    }

    /// Writes the fields of the value into a fresh object.
    pub fn to_object(&self) -> (o: serde_json::Map<String, serde_json::Value>)
        ensures
            object_model(o) == SetBreakpointsResponseBody::fields(self@),
    {
        let mut o = object_new();
        put::<Vec<Breakpoint>>(&mut o, "breakpoints", &self.breakpoints);
        o
    }

    /// Reads a value from the fields of an object.
    pub fn from_object(o: &serde_json::Map<String, serde_json::Value>) -> (r: Result<
        SetBreakpointsResponseBody,
        DecodeError,
    >)
        ensures
            match r {
                Ok(x) => SetBreakpointsResponseBody::decode_fields(object_model(*o)) matches Ok(m) && m == x.model(),
                Err(e) => SetBreakpointsResponseBody::decode_fields(object_model(*o)) matches Err(f) && f == e@,
            },
    {
        let breakpoints = get_req::<Vec<Breakpoint>>(o, "breakpoints")?;
        Ok(SetBreakpointsResponseBody { breakpoints })
    }
}

impl Wire for SetBreakpointsResponseBody {
    type Model = SetBreakpointsResponseBodyView;

    open spec fn model(&self) -> SetBreakpointsResponseBodyView {
        self@
    }

    open spec fn wire_ok(m: SetBreakpointsResponseBodyView) -> bool {
        &&& Vec::<Breakpoint>::wire_ok(m.breakpoints)
    }

    open spec fn encode_json(m: SetBreakpointsResponseBodyView) -> Json {
        Json::Object(SetBreakpointsResponseBody::fields(m))
    }

    open spec fn decode_json(j: Json) -> Result<SetBreakpointsResponseBodyView, DecodeErrorView> {
        match j {
            Json::Object(o) => SetBreakpointsResponseBody::decode_fields(o),
            _ => Err(DecodeErrorView::InvalidType),
        }
    }

    fn to_value(&self) -> (r: serde_json::Value) {
        value_object(self.to_object())
    }

    fn from_value(v: &serde_json::Value) -> (r: Result<SetBreakpointsResponseBody, DecodeError>) {
        match value_as_object(v) {
            Some(o) => SetBreakpointsResponseBody::from_object(o),
            None => Err(DecodeError::InvalidType),
        }
    }

    proof fn lemma_round_trip(m: SetBreakpointsResponseBodyView) {
        broadcast use group_field_rules;

        reveal(req_field);
        reveal_strlit("breakpoints");
        assert("breakpoints"@.len() == 11);
        let o = SetBreakpointsResponseBody::fields(m);
        Vec::<Breakpoint>::lemma_round_trip(m.breakpoints);
        assert(req_field::<Vec<Breakpoint>>(o, "breakpoints"@) matches Ok(v) && v == m.breakpoints);
    }
}

impl Record for SetBreakpointsResponseBody {
    open spec fn field_names() -> Set<Seq<char>> {
        set!["breakpoints"@]
    }

    proof fn lemma_unknown_field(o: JsonObject, key: Seq<char>, x: Json) {
        broadcast use group_field_rules;

        reveal(req_field);
    }
}

#[derive(Clone, Debug, PartialEq, Eq)]
pub struct SetDataBreakpointsResponseBody {
    /// Information about the data breakpoints. The array elements correspond to the elements of the input argument 'breakpoints' array.
    pub breakpoints: Vec<Breakpoint>,
}

/// The mathematical content of a [`SetDataBreakpointsResponseBody`].
pub struct SetDataBreakpointsResponseBodyView {
    pub breakpoints: Seq<BreakpointView>,
}

impl View for SetDataBreakpointsResponseBody {
    type V = SetDataBreakpointsResponseBodyView;

    open spec fn view(&self) -> SetDataBreakpointsResponseBodyView {
        SetDataBreakpointsResponseBodyView {
            breakpoints: self.breakpoints.model(),
        }
    }
}

impl SetDataBreakpointsResponseBody {
    /// The fields that are written for a value.
    pub open spec fn fields(m: SetDataBreakpointsResponseBodyView) -> JsonObject {
        let o = empty_object();
        let o = with_field::<Vec<Breakpoint>>(o, "breakpoints"@, m.breakpoints);
        o
    }

    /// What the fields of an object decode to: the first failure in the order of
    /// the fields, or the value.
    pub open spec fn decode_fields(o: JsonObject) -> Result<SetDataBreakpointsResponseBodyView, DecodeErrorView> {
        let breakpoints = req_field::<Vec<Breakpoint>>(o, "breakpoints"@);
        if breakpoints is Err {
            Err(breakpoints->Err_0)
        } else {
            Ok(SetDataBreakpointsResponseBodyView {
                breakpoints: breakpoints->Ok_0,
            })
        }
    }

    /// Writes the fields of the value into a fresh object.
    pub fn to_object(&self) -> (o: serde_json::Map<String, serde_json::Value>)
        ensures
            object_model(o) == SetDataBreakpointsResponseBody::fields(self@),
    {
        let mut o = object_new();
        put::<Vec<Breakpoint>>(&mut o, "breakpoints", &self.breakpoints);
        o
    }

    /// Reads a value from the fields of an object.
    pub fn from_object(o: &serde_json::Map<String, serde_json::Value>) -> (r: Result<
        SetDataBreakpointsResponseBody,
        DecodeError,
    >)
        ensures
            match r {
                Ok(x) => SetDataBreakpointsResponseBody::decode_fields(object_model(*o)) matches Ok(m) && m == x.model(),
                Err(e) => SetDataBreakpointsResponseBody::decode_fields(object_model(*o)) matches Err(f) && f == e@,
            },
    {
        let breakpoints = get_req::<Vec<Breakpoint>>(o, "breakpoints")?;
        Ok(SetDataBreakpointsResponseBody { breakpoints })
    }
}

impl Wire for SetDataBreakpointsResponseBody {
    type Model = SetDataBreakpointsResponseBodyView;

    open spec fn model(&self) -> SetDataBreakpointsResponseBodyView {
        self@
    }

    open spec fn wire_ok(m: SetDataBreakpointsResponseBodyView) -> bool {
        &&& Vec::<Breakpoint>::wire_ok(m.breakpoints)
    }

    open spec fn encode_json(m: SetDataBreakpointsResponseBodyView) -> Json {
        Json::Object(SetDataBreakpointsResponseBody::fields(m))
    }

    open spec fn decode_json(j: Json) -> Result<SetDataBreakpointsResponseBodyView, DecodeErrorView> {
        match j {
            Json::Object(o) => SetDataBreakpointsResponseBody::decode_fields(o),
            _ => Err(DecodeErrorView::InvalidType),
        }
    }

    fn to_value(&self) -> (r: serde_json::Value) {
        value_object(self.to_object())
    }

    fn from_value(v: &serde_json::Value) -> (r: Result<SetDataBreakpointsResponseBody, DecodeError>) {
        match value_as_object(v) {
            Some(o) => SetDataBreakpointsResponseBody::from_object(o),
            None => Err(DecodeError::InvalidType),
        }
    }

    proof fn lemma_round_trip(m: SetDataBreakpointsResponseBodyView) {
        broadcast use group_field_rules;

        reveal(req_field);
        reveal_strlit("breakpoints");
        assert("breakpoints"@.len() == 11);
        let o = SetDataBreakpointsResponseBody::fields(m);
        Vec::<Breakpoint>::lemma_round_trip(m.breakpoints);
        assert(req_field::<Vec<Breakpoint>>(o, "breakpoints"@) matches Ok(v) && v == m.breakpoints);
    }
}

impl Record for SetDataBreakpointsResponseBody {
    open spec fn field_names() -> Set<Seq<char>> {
        set!["breakpoints"@]
    }

    proof fn lemma_unknown_field(o: JsonObject, key: Seq<char>, x: Json) {
        broadcast use group_field_rules;

        reveal(req_field);
    }
}

#[derive(Clone, Debug, PartialEq, Eq)]
pub struct SetExceptionBreakpointsResponseBody {
    /// Information about the exception breakpoints or filters.
    ///
    /// The breakpoints returned are in the same order as the elements of the 'filters', 'filterOptions', 'exceptionOptions' arrays in the arguments. If both 'filters' and 'filterOptions' are given, the returned array must start with 'filters' information first, followed by 'filterOptions' information.
    pub breakpoints: Option<Vec<Breakpoint>>,
}

/// The mathematical content of a [`SetExceptionBreakpointsResponseBody`].
pub struct SetExceptionBreakpointsResponseBodyView {
    pub breakpoints: Option<Seq<BreakpointView>>,
}

impl View for SetExceptionBreakpointsResponseBody {
    type V = SetExceptionBreakpointsResponseBodyView;

    open spec fn view(&self) -> SetExceptionBreakpointsResponseBodyView {
        SetExceptionBreakpointsResponseBodyView {
            breakpoints: self.breakpoints.model(),
        }
    }
}

impl SetExceptionBreakpointsResponseBody {
    /// The fields that are written for a value.
    pub open spec fn fields(m: SetExceptionBreakpointsResponseBodyView) -> JsonObject {
        let o = empty_object();
        let o = with_opt_field::<Vec<Breakpoint>>(o, "breakpoints"@, m.breakpoints);
        o
    }

    /// What the fields of an object decode to: the first failure in the order of
    /// the fields, or the value.
    pub open spec fn decode_fields(o: JsonObject) -> Result<SetExceptionBreakpointsResponseBodyView, DecodeErrorView> {
        let breakpoints = opt_field::<Vec<Breakpoint>>(o, "breakpoints"@);
        if breakpoints is Err {
            Err(breakpoints->Err_0)
        } else {
            Ok(SetExceptionBreakpointsResponseBodyView {
                breakpoints: breakpoints->Ok_0,
            })
        }
    }

    /// Writes the fields of the value into a fresh object.
    pub fn to_object(&self) -> (o: serde_json::Map<String, serde_json::Value>)
        ensures
            object_model(o) == SetExceptionBreakpointsResponseBody::fields(self@),
    {
        let mut o = object_new();
        put_opt::<Vec<Breakpoint>>(&mut o, "breakpoints", &self.breakpoints);
        o
    }

    /// Reads a value from the fields of an object.
    pub fn from_object(o: &serde_json::Map<String, serde_json::Value>) -> (r: Result<
        SetExceptionBreakpointsResponseBody,
        DecodeError,
    >)
        ensures
            match r {
                Ok(x) => SetExceptionBreakpointsResponseBody::decode_fields(object_model(*o)) matches Ok(m) && m == x.model(),
                Err(e) => SetExceptionBreakpointsResponseBody::decode_fields(object_model(*o)) matches Err(f) && f == e@,
            },
    {
        let breakpoints = get_opt::<Vec<Breakpoint>>(o, "breakpoints")?;
        Ok(SetExceptionBreakpointsResponseBody { breakpoints })
    }
}

impl Wire for SetExceptionBreakpointsResponseBody {
    type Model = SetExceptionBreakpointsResponseBodyView;

    open spec fn model(&self) -> SetExceptionBreakpointsResponseBodyView {
        self@
    }

    open spec fn wire_ok(m: SetExceptionBreakpointsResponseBodyView) -> bool {
        &&& Option::<Vec<Breakpoint>>::wire_ok(m.breakpoints)
    }

    open spec fn encode_json(m: SetExceptionBreakpointsResponseBodyView) -> Json {
        Json::Object(SetExceptionBreakpointsResponseBody::fields(m))
    }

    open spec fn decode_json(j: Json) -> Result<SetExceptionBreakpointsResponseBodyView, DecodeErrorView> {
        match j {
            Json::Object(o) => SetExceptionBreakpointsResponseBody::decode_fields(o),
            _ => Err(DecodeErrorView::InvalidType),
        }
    }

    fn to_value(&self) -> (r: serde_json::Value) {
        value_object(self.to_object())
    }

    fn from_value(v: &serde_json::Value) -> (r: Result<SetExceptionBreakpointsResponseBody, DecodeError>) {
        match value_as_object(v) {
            Some(o) => SetExceptionBreakpointsResponseBody::from_object(o),
            None => Err(DecodeError::InvalidType),
        }
    }

    proof fn lemma_round_trip(m: SetExceptionBreakpointsResponseBodyView) {
        broadcast use group_field_rules;

        reveal(opt_field);
        reveal_strlit("breakpoints");
        assert("breakpoints"@.len() == 11);
        let o = SetExceptionBreakpointsResponseBody::fields(m);
        Option::<Vec<Breakpoint>>::lemma_round_trip(m.breakpoints);
        assert(opt_field::<Vec<Breakpoint>>(o, "breakpoints"@) matches Ok(v) && v == m.breakpoints);
    }
}

impl Record for SetExceptionBreakpointsResponseBody {
    open spec fn field_names() -> Set<Seq<char>> {
        set!["breakpoints"@]
    }

    proof fn lemma_unknown_field(o: JsonObject, key: Seq<char>, x: Json) {
        broadcast use group_field_rules;

        reveal(opt_field);
    }
}

impl Defaults for SetExceptionBreakpointsResponseBody {
    open spec fn elidable_names() -> Set<Seq<char>> {
        set!["breakpoints"@]
    }

    open spec fn at_defaults(m: SetExceptionBreakpointsResponseBodyView) -> bool {
        &&& m.breakpoints is None
    }

    proof fn lemma_defaults_elided(m: SetExceptionBreakpointsResponseBodyView, key: Seq<char>) {
        broadcast use group_field_rules;

        reveal_strlit("breakpoints");
        assert("breakpoints"@.len() == 11);
    }
}

#[derive(Clone, Debug, PartialEq, Eq)]
pub struct SetExpressionResponseBody {
    /// The new value of the expression.
    pub value: String,

    /// The optional type of the value.
    ///
    /// This attribute should only be returned by a debug adapter if the client has passed the value true for the 'supportsVariableType' capability of the 'initialize' request.
    pub type_: Option<String>,

    /// Properties of a value that can be used to determine how to render the result in the UI.
    pub presentation_hint: Option<VariablePresentationHint>,

    /// If variablesReference is > 0, the value is structured and its children can be retrieved by passing variablesReference to the VariablesRequest.
    ///
    /// The value should be less than or equal to 2147483647 (2^31-1).
    pub variables_reference: Option<i32>,

    /// The number of named child variables.
    ///
    /// The client can use this optional information to present the variables in a paged UI and fetch them in chunks.
    ///
    /// The value should be less than or equal to 2147483647 (2^31-1).
    pub named_variables: Option<i32>,

    /// The number of indexed child variables.
    ///
    /// The client can use this optional information to present the variables in a paged UI and fetch them in chunks.
    ///
    /// The value should be less than or equal to 2147483647 (2^31-1).
    pub indexed_variables: Option<i32>,
}

/// The mathematical content of a [`SetExpressionResponseBody`].
pub struct SetExpressionResponseBodyView {
    pub value: Seq<char>,
    pub type_: Option<Seq<char>>,
    pub presentation_hint: Option<VariablePresentationHintView>,
    pub variables_reference: Option<i32>,
    pub named_variables: Option<i32>,
    pub indexed_variables: Option<i32>,
}

impl View for SetExpressionResponseBody {
    type V = SetExpressionResponseBodyView;

    open spec fn view(&self) -> SetExpressionResponseBodyView {
        SetExpressionResponseBodyView {
            value: self.value.model(),
            type_: self.type_.model(),
            presentation_hint: self.presentation_hint.model(),
            variables_reference: self.variables_reference.model(),
            named_variables: self.named_variables.model(),
            indexed_variables: self.indexed_variables.model(),
        }
    }
}

impl SetExpressionResponseBody {
    /// The fields that are written for a value.
    pub open spec fn fields(m: SetExpressionResponseBodyView) -> JsonObject {
        let o = empty_object();
        let o = with_field::<String>(o, "value"@, m.value);
        let o = with_opt_field::<String>(o, "type"@, m.type_);
        let o = with_opt_field::<VariablePresentationHint>(o, "presentationHint"@, m.presentation_hint);
        let o = with_opt_field::<i32>(o, "variablesReference"@, m.variables_reference);
        let o = with_opt_field::<i32>(o, "namedVariables"@, m.named_variables);
        let o = with_opt_field::<i32>(o, "indexedVariables"@, m.indexed_variables);
        o
    }

    /// What the fields of an object decode to: the first failure in the order of
    /// the fields, or the value.
    pub open spec fn decode_fields(o: JsonObject) -> Result<SetExpressionResponseBodyView, DecodeErrorView> {
        let value = req_field::<String>(o, "value"@);
        let type_ = opt_field::<String>(o, "type"@);
        let presentation_hint = opt_field::<VariablePresentationHint>(o, "presentationHint"@);
        let variables_reference = opt_field::<i32>(o, "variablesReference"@);
        let named_variables = opt_field::<i32>(o, "namedVariables"@);
        let indexed_variables = opt_field::<i32>(o, "indexedVariables"@);
        if value is Err {
            Err(value->Err_0)
        } else if type_ is Err {
            Err(type_->Err_0)
        } else if presentation_hint is Err {
            Err(presentation_hint->Err_0)
        } else if variables_reference is Err {
            Err(variables_reference->Err_0)
        } else if named_variables is Err {
            Err(named_variables->Err_0)
        } else if indexed_variables is Err {
            Err(indexed_variables->Err_0)
        } else {
            Ok(SetExpressionResponseBodyView {
                value: value->Ok_0,
                type_: type_->Ok_0,
                presentation_hint: presentation_hint->Ok_0,
                variables_reference: variables_reference->Ok_0,
                named_variables: named_variables->Ok_0,
                indexed_variables: indexed_variables->Ok_0,
            })
        }
    }

    /// Writes the fields of the value into a fresh object.
    pub fn to_object(&self) -> (o: serde_json::Map<String, serde_json::Value>)
        ensures
            object_model(o) == SetExpressionResponseBody::fields(self@),
    {
        let mut o = object_new();
        put::<String>(&mut o, "value", &self.value);
        put_opt::<String>(&mut o, "type", &self.type_);
        put_opt::<VariablePresentationHint>(&mut o, "presentationHint", &self.presentation_hint);
        put_opt::<i32>(&mut o, "variablesReference", &self.variables_reference);
        put_opt::<i32>(&mut o, "namedVariables", &self.named_variables);
        put_opt::<i32>(&mut o, "indexedVariables", &self.indexed_variables);
        o
    }

    /// Reads a value from the fields of an object.
    pub fn from_object(o: &serde_json::Map<String, serde_json::Value>) -> (r: Result<
        SetExpressionResponseBody,
        DecodeError,
    >)
        ensures
            match r {
                Ok(x) => SetExpressionResponseBody::decode_fields(object_model(*o)) matches Ok(m) && m == x.model(),
                Err(e) => SetExpressionResponseBody::decode_fields(object_model(*o)) matches Err(f) && f == e@,
            },
    {
        let value = get_req::<String>(o, "value")?;
        let type_ = get_opt::<String>(o, "type")?;
        let presentation_hint = get_opt::<VariablePresentationHint>(o, "presentationHint")?;
        let variables_reference = get_opt::<i32>(o, "variablesReference")?;
        let named_variables = get_opt::<i32>(o, "namedVariables")?;
        let indexed_variables = get_opt::<i32>(o, "indexedVariables")?;
        Ok(SetExpressionResponseBody { value, type_, presentation_hint, variables_reference, named_variables, indexed_variables })
    }
}

impl Wire for SetExpressionResponseBody {
    type Model = SetExpressionResponseBodyView;

    open spec fn model(&self) -> SetExpressionResponseBodyView {
        self@
    }

    open spec fn wire_ok(m: SetExpressionResponseBodyView) -> bool {
        true
    }

    open spec fn encode_json(m: SetExpressionResponseBodyView) -> Json {
        Json::Object(SetExpressionResponseBody::fields(m))
    }

    open spec fn decode_json(j: Json) -> Result<SetExpressionResponseBodyView, DecodeErrorView> {
        match j {
            Json::Object(o) => SetExpressionResponseBody::decode_fields(o),
            _ => Err(DecodeErrorView::InvalidType),
        }
    }

    fn to_value(&self) -> (r: serde_json::Value) {
        value_object(self.to_object())
    }

    fn from_value(v: &serde_json::Value) -> (r: Result<SetExpressionResponseBody, DecodeError>) {
        match value_as_object(v) {
            Some(o) => SetExpressionResponseBody::from_object(o),
            None => Err(DecodeError::InvalidType),
        }
    }

    proof fn lemma_round_trip(m: SetExpressionResponseBodyView) {
        broadcast use group_field_rules;

        reveal(opt_field);
        reveal(req_field);
        reveal_strlit("value");
        reveal_strlit("type");
        reveal_strlit("presentationHint");
        reveal_strlit("variablesReference");
        reveal_strlit("namedVariables");
        reveal_strlit("indexedVariables");
        assert("value"@.len() == 5);
        assert("type"@.len() == 4);
        assert("presentationHint"@.len() == 16);
        assert("variablesReference"@.len() == 18);
        assert("namedVariables"@.len() == 14);
        assert("indexedVariables"@.len() == 16);
        assert("presentationHint"@[0] != "indexedVariables"@[0]);
        let o = SetExpressionResponseBody::fields(m);
        String::lemma_round_trip(m.value);
        assert(req_field::<String>(o, "value"@) matches Ok(v) && v == m.value);
        Option::<String>::lemma_round_trip(m.type_);
        assert(opt_field::<String>(o, "type"@) matches Ok(v) && v == m.type_);
        Option::<VariablePresentationHint>::lemma_round_trip(m.presentation_hint);
        assert(opt_field::<VariablePresentationHint>(o, "presentationHint"@) matches Ok(v) && v == m.presentation_hint);
        Option::<i32>::lemma_round_trip(m.variables_reference);
        assert(opt_field::<i32>(o, "variablesReference"@) matches Ok(v) && v == m.variables_reference);
        Option::<i32>::lemma_round_trip(m.named_variables);
        assert(opt_field::<i32>(o, "namedVariables"@) matches Ok(v) && v == m.named_variables);
        Option::<i32>::lemma_round_trip(m.indexed_variables);
        assert(opt_field::<i32>(o, "indexedVariables"@) matches Ok(v) && v == m.indexed_variables);
    }
}

impl Record for SetExpressionResponseBody {
    open spec fn field_names() -> Set<Seq<char>> {
        set!["value"@, "type"@, "presentationHint"@, "variablesReference"@, "namedVariables"@, "indexedVariables"@]
    }

    proof fn lemma_unknown_field(o: JsonObject, key: Seq<char>, x: Json) {
        broadcast use group_field_rules;

        reveal(opt_field);
        reveal(req_field);
    }
}

impl Defaults for SetExpressionResponseBody {
    open spec fn elidable_names() -> Set<Seq<char>> {
        set!["type"@, "presentationHint"@, "variablesReference"@, "namedVariables"@, "indexedVariables"@]
    }

    open spec fn at_defaults(m: SetExpressionResponseBodyView) -> bool {
        &&& m.type_ is None
        &&& m.presentation_hint is None
        &&& m.variables_reference is None
        &&& m.named_variables is None
        &&& m.indexed_variables is None
    }

    proof fn lemma_defaults_elided(m: SetExpressionResponseBodyView, key: Seq<char>) {
        broadcast use group_field_rules;

        reveal_strlit("value");
        reveal_strlit("type");
        reveal_strlit("presentationHint");
        reveal_strlit("variablesReference");
        reveal_strlit("namedVariables");
        reveal_strlit("indexedVariables");
        assert("value"@.len() == 5);
        assert("type"@.len() == 4);
        assert("presentationHint"@.len() == 16);
        assert("variablesReference"@.len() == 18);
        assert("namedVariables"@.len() == 14);
        assert("indexedVariables"@.len() == 16);
        assert("presentationHint"@[0] != "indexedVariables"@[0]);
    }
}

#[derive(Clone, Debug, PartialEq, Eq)]
pub struct SetFunctionBreakpointsResponseBody {
    /// Information about the breakpoints. The array elements correspond to the elements of the 'breakpoints' array.
    pub breakpoints: Vec<Breakpoint>,
}

/// The mathematical content of a [`SetFunctionBreakpointsResponseBody`].
pub struct SetFunctionBreakpointsResponseBodyView {
    pub breakpoints: Seq<BreakpointView>,
}

impl View for SetFunctionBreakpointsResponseBody {
    type V = SetFunctionBreakpointsResponseBodyView;

    open spec fn view(&self) -> SetFunctionBreakpointsResponseBodyView {
        SetFunctionBreakpointsResponseBodyView {
            breakpoints: self.breakpoints.model(),
        }
    }
}

impl SetFunctionBreakpointsResponseBody {
    /// The fields that are written for a value.
    pub open spec fn fields(m: SetFunctionBreakpointsResponseBodyView) -> JsonObject {
        let o = empty_object();
        let o = with_field::<Vec<Breakpoint>>(o, "breakpoints"@, m.breakpoints);
        o
    }

    /// What the fields of an object decode to: the first failure in the order of
    /// the fields, or the value.
    pub open spec fn decode_fields(o: JsonObject) -> Result<SetFunctionBreakpointsResponseBodyView, DecodeErrorView> {
        let breakpoints = req_field::<Vec<Breakpoint>>(o, "breakpoints"@);
        if breakpoints is Err {
            Err(breakpoints->Err_0)
        } else {
            Ok(SetFunctionBreakpointsResponseBodyView {
                breakpoints: breakpoints->Ok_0,
            })
        }
    }

    /// Writes the fields of the value into a fresh object.
    pub fn to_object(&self) -> (o: serde_json::Map<String, serde_json::Value>)
        ensures
            object_model(o) == SetFunctionBreakpointsResponseBody::fields(self@),
    {
        let mut o = object_new();
        put::<Vec<Breakpoint>>(&mut o, "breakpoints", &self.breakpoints);
        o
    }

    /// Reads a value from the fields of an object.
    pub fn from_object(o: &serde_json::Map<String, serde_json::Value>) -> (r: Result<
        SetFunctionBreakpointsResponseBody,
        DecodeError,
    >)
        ensures
            match r {
                Ok(x) => SetFunctionBreakpointsResponseBody::decode_fields(object_model(*o)) matches Ok(m) && m == x.model(),
                Err(e) => SetFunctionBreakpointsResponseBody::decode_fields(object_model(*o)) matches Err(f) && f == e@,
            },
    {
        let breakpoints = get_req::<Vec<Breakpoint>>(o, "breakpoints")?;
        Ok(SetFunctionBreakpointsResponseBody { breakpoints })
    }
}

impl Wire for SetFunctionBreakpointsResponseBody {
    type Model = SetFunctionBreakpointsResponseBodyView;

    open spec fn model(&self) -> SetFunctionBreakpointsResponseBodyView {
        self@
    }

    open spec fn wire_ok(m: SetFunctionBreakpointsResponseBodyView) -> bool {
        &&& Vec::<Breakpoint>::wire_ok(m.breakpoints)
    }

    open spec fn encode_json(m: SetFunctionBreakpointsResponseBodyView) -> Json {
        Json::Object(SetFunctionBreakpointsResponseBody::fields(m))
    }

    open spec fn decode_json(j: Json) -> Result<SetFunctionBreakpointsResponseBodyView, DecodeErrorView> {
        match j {
            Json::Object(o) => SetFunctionBreakpointsResponseBody::decode_fields(o),
            _ => Err(DecodeErrorView::InvalidType),
        }
    }

    fn to_value(&self) -> (r: serde_json::Value) {
        value_object(self.to_object())
    }

    fn from_value(v: &serde_json::Value) -> (r: Result<SetFunctionBreakpointsResponseBody, DecodeError>) {
        match value_as_object(v) {
            Some(o) => SetFunctionBreakpointsResponseBody::from_object(o),
            None => Err(DecodeError::InvalidType),
        }
    }

    proof fn lemma_round_trip(m: SetFunctionBreakpointsResponseBodyView) {
        broadcast use group_field_rules;

        reveal(req_field);
        reveal_strlit("breakpoints");
        assert("breakpoints"@.len() == 11);
        let o = SetFunctionBreakpointsResponseBody::fields(m);
        Vec::<Breakpoint>::lemma_round_trip(m.breakpoints);
        assert(req_field::<Vec<Breakpoint>>(o, "breakpoints"@) matches Ok(v) && v == m.breakpoints);
    }
}

impl Record for SetFunctionBreakpointsResponseBody {
    open spec fn field_names() -> Set<Seq<char>> {
        set!["breakpoints"@]
    }

    proof fn lemma_unknown_field(o: JsonObject, key: Seq<char>, x: Json) {
        broadcast use group_field_rules;

        reveal(req_field);
    }
}

#[derive(Clone, Debug, PartialEq, Eq)]
pub struct SetInstructionBreakpointsResponseBody {
    /// Information about the breakpoints. The array elements correspond to the elements of the 'breakpoints' array.
    pub breakpoints: Vec<Breakpoint>,
}

/// The mathematical content of a [`SetInstructionBreakpointsResponseBody`].
pub struct SetInstructionBreakpointsResponseBodyView {
    pub breakpoints: Seq<BreakpointView>,
}

impl View for SetInstructionBreakpointsResponseBody {
    type V = SetInstructionBreakpointsResponseBodyView;

    open spec fn view(&self) -> SetInstructionBreakpointsResponseBodyView {
        SetInstructionBreakpointsResponseBodyView {
            breakpoints: self.breakpoints.model(),
        }
    }
}

impl SetInstructionBreakpointsResponseBody {
    /// The fields that are written for a value.
    pub open spec fn fields(m: SetInstructionBreakpointsResponseBodyView) -> JsonObject {
        let o = empty_object();
        let o = with_field::<Vec<Breakpoint>>(o, "breakpoints"@, m.breakpoints);
        o
    }

    /// What the fields of an object decode to: the first failure in the order of
    /// the fields, or the value.
    pub open spec fn decode_fields(o: JsonObject) -> Result<SetInstructionBreakpointsResponseBodyView, DecodeErrorView> {
        let breakpoints = req_field::<Vec<Breakpoint>>(o, "breakpoints"@);
        if breakpoints is Err {
            Err(breakpoints->Err_0)
        } else {
            Ok(SetInstructionBreakpointsResponseBodyView {
                breakpoints: breakpoints->Ok_0,
            })
        }
    }

    /// Writes the fields of the value into a fresh object.
    pub fn to_object(&self) -> (o: serde_json::Map<String, serde_json::Value>)
        ensures
            object_model(o) == SetInstructionBreakpointsResponseBody::fields(self@),
    {
        let mut o = object_new();
        put::<Vec<Breakpoint>>(&mut o, "breakpoints", &self.breakpoints);
        o
    }

    /// Reads a value from the fields of an object.
    pub fn from_object(o: &serde_json::Map<String, serde_json::Value>) -> (r: Result<
        SetInstructionBreakpointsResponseBody,
        DecodeError,
    >)
        ensures
            match r {
                Ok(x) => SetInstructionBreakpointsResponseBody::decode_fields(object_model(*o)) matches Ok(m) && m == x.model(),
                Err(e) => SetInstructionBreakpointsResponseBody::decode_fields(object_model(*o)) matches Err(f) && f == e@,
            },
    {
        let breakpoints = get_req::<Vec<Breakpoint>>(o, "breakpoints")?;
        Ok(SetInstructionBreakpointsResponseBody { breakpoints })
    }
}

impl Wire for SetInstructionBreakpointsResponseBody {
    type Model = SetInstructionBreakpointsResponseBodyView;

    open spec fn model(&self) -> SetInstructionBreakpointsResponseBodyView {
        self@
    }

    open spec fn wire_ok(m: SetInstructionBreakpointsResponseBodyView) -> bool {
        &&& Vec::<Breakpoint>::wire_ok(m.breakpoints)
    }

    open spec fn encode_json(m: SetInstructionBreakpointsResponseBodyView) -> Json {
        Json::Object(SetInstructionBreakpointsResponseBody::fields(m))
    }

    open spec fn decode_json(j: Json) -> Result<SetInstructionBreakpointsResponseBodyView, DecodeErrorView> {
        match j {
            Json::Object(o) => SetInstructionBreakpointsResponseBody::decode_fields(o),
            _ => Err(DecodeErrorView::InvalidType),
        }
    }

    fn to_value(&self) -> (r: serde_json::Value) {
        value_object(self.to_object())
    }

    fn from_value(v: &serde_json::Value) -> (r: Result<SetInstructionBreakpointsResponseBody, DecodeError>) {
        match value_as_object(v) {
            Some(o) => SetInstructionBreakpointsResponseBody::from_object(o),
            None => Err(DecodeError::InvalidType),
        }
    }

    proof fn lemma_round_trip(m: SetInstructionBreakpointsResponseBodyView) {
        broadcast use group_field_rules;

        reveal(req_field);
        reveal_strlit("breakpoints");
        assert("breakpoints"@.len() == 11);
        let o = SetInstructionBreakpointsResponseBody::fields(m);
        Vec::<Breakpoint>::lemma_round_trip(m.breakpoints);
        assert(req_field::<Vec<Breakpoint>>(o, "breakpoints"@) matches Ok(v) && v == m.breakpoints);
    }
}

impl Record for SetInstructionBreakpointsResponseBody {
    open spec fn field_names() -> Set<Seq<char>> {
        set!["breakpoints"@]
    }

    proof fn lemma_unknown_field(o: JsonObject, key: Seq<char>, x: Json) {
        broadcast use group_field_rules;

        reveal(req_field);
    }
}

#[derive(Clone, Debug, PartialEq, Eq)]
pub struct SetVariableResponseBody {
    /// The new value of the variable.
    pub value: String,

    /// The type of the new value. Typically shown in the UI when hovering over the value.
    pub type_: Option<String>,

    /// If variablesReference is > 0, the new value is structured and its children can be retrieved by passing variablesReference to the VariablesRequest.
    ///
    /// The value should be less than or equal to 2147483647 (2^31-1).
    pub variables_reference: Option<i32>,

    /// The number of named child variables.
    ///
    /// The client can use this optional information to present the variables in a paged UI and fetch them in chunks.
    ///
    /// The value should be less than or equal to 2147483647 (2^31-1).
    pub named_variables: Option<i32>,

    /// The number of indexed child variables.
    ///
    /// The client can use this optional information to present the variables in a paged UI and fetch them in chunks.
    ///
    /// The value should be less than or equal to 2147483647 (2^31-1).
    pub indexed_variables: Option<i32>,
}

/// The mathematical content of a [`SetVariableResponseBody`].
pub struct SetVariableResponseBodyView {
    pub value: Seq<char>,
    pub type_: Option<Seq<char>>,
    pub variables_reference: Option<i32>,
    pub named_variables: Option<i32>,
    pub indexed_variables: Option<i32>,
}

impl View for SetVariableResponseBody {
    type V = SetVariableResponseBodyView;

    open spec fn view(&self) -> SetVariableResponseBodyView {
        SetVariableResponseBodyView {
            value: self.value.model(),
            type_: self.type_.model(),
            variables_reference: self.variables_reference.model(),
            named_variables: self.named_variables.model(),
            indexed_variables: self.indexed_variables.model(),
        }
    }
}

impl SetVariableResponseBody {
    /// The fields that are written for a value.
    pub open spec fn fields(m: SetVariableResponseBodyView) -> JsonObject {
        let o = empty_object();
        let o = with_field::<String>(o, "value"@, m.value);
        let o = with_opt_field::<String>(o, "type"@, m.type_);
        let o = with_opt_field::<i32>(o, "variablesReference"@, m.variables_reference);
        let o = with_opt_field::<i32>(o, "namedVariables"@, m.named_variables);
        let o = with_opt_field::<i32>(o, "indexedVariables"@, m.indexed_variables);
        o
    }

    /// What the fields of an object decode to: the first failure in the order of
    /// the fields, or the value.
    pub open spec fn decode_fields(o: JsonObject) -> Result<SetVariableResponseBodyView, DecodeErrorView> {
        let value = req_field::<String>(o, "value"@);
        let type_ = opt_field::<String>(o, "type"@);
        let variables_reference = opt_field::<i32>(o, "variablesReference"@);
        let named_variables = opt_field::<i32>(o, "namedVariables"@);
        let indexed_variables = opt_field::<i32>(o, "indexedVariables"@);
        if value is Err {
            Err(value->Err_0)
        } else if type_ is Err {
            Err(type_->Err_0)
        } else if variables_reference is Err {
            Err(variables_reference->Err_0)
        } else if named_variables is Err {
            Err(named_variables->Err_0)
        } else if indexed_variables is Err {
            Err(indexed_variables->Err_0)
        } else {
            Ok(SetVariableResponseBodyView {
                value: value->Ok_0,
                type_: type_->Ok_0,
                variables_reference: variables_reference->Ok_0,
                named_variables: named_variables->Ok_0,
                indexed_variables: indexed_variables->Ok_0,
            })
        }
    }

    /// Writes the fields of the value into a fresh object.
    pub fn to_object(&self) -> (o: serde_json::Map<String, serde_json::Value>)
        ensures
            object_model(o) == SetVariableResponseBody::fields(self@),
    {
        let mut o = object_new();
        put::<String>(&mut o, "value", &self.value);
        put_opt::<String>(&mut o, "type", &self.type_);
        put_opt::<i32>(&mut o, "variablesReference", &self.variables_reference);
        put_opt::<i32>(&mut o, "namedVariables", &self.named_variables);
        put_opt::<i32>(&mut o, "indexedVariables", &self.indexed_variables);
        o
    }

    /// Reads a value from the fields of an object.
    pub fn from_object(o: &serde_json::Map<String, serde_json::Value>) -> (r: Result<
        SetVariableResponseBody,
        DecodeError,
    >)
        ensures
            match r {
                Ok(x) => SetVariableResponseBody::decode_fields(object_model(*o)) matches Ok(m) && m == x.model(),
                Err(e) => SetVariableResponseBody::decode_fields(object_model(*o)) matches Err(f) && f == e@,
            },
    {
        let value = get_req::<String>(o, "value")?;
        let type_ = get_opt::<String>(o, "type")?;
        let variables_reference = get_opt::<i32>(o, "variablesReference")?;
        let named_variables = get_opt::<i32>(o, "namedVariables")?;
        let indexed_variables = get_opt::<i32>(o, "indexedVariables")?;
        Ok(SetVariableResponseBody { value, type_, variables_reference, named_variables, indexed_variables })
    }
}

impl Wire for SetVariableResponseBody {
    type Model = SetVariableResponseBodyView;

    open spec fn model(&self) -> SetVariableResponseBodyView {
        self@
    }

    open spec fn wire_ok(m: SetVariableResponseBodyView) -> bool {
        true
    }

    open spec fn encode_json(m: SetVariableResponseBodyView) -> Json {
        Json::Object(SetVariableResponseBody::fields(m))
    }

    open spec fn decode_json(j: Json) -> Result<SetVariableResponseBodyView, DecodeErrorView> {
        match j {
            Json::Object(o) => SetVariableResponseBody::decode_fields(o),
            _ => Err(DecodeErrorView::InvalidType),
        }
    }

    fn to_value(&self) -> (r: serde_json::Value) {
        value_object(self.to_object())
    }

    fn from_value(v: &serde_json::Value) -> (r: Result<SetVariableResponseBody, DecodeError>) {
        match value_as_object(v) {
            Some(o) => SetVariableResponseBody::from_object(o),
            None => Err(DecodeError::InvalidType),
        }
    }

    proof fn lemma_round_trip(m: SetVariableResponseBodyView) {
        broadcast use group_field_rules;

        reveal(opt_field);
        reveal(req_field);
        reveal_strlit("value");
        reveal_strlit("type");
        reveal_strlit("variablesReference");
        reveal_strlit("namedVariables");
        reveal_strlit("indexedVariables");
        assert("value"@.len() == 5);
        assert("type"@.len() == 4);
        assert("variablesReference"@.len() == 18);
        assert("namedVariables"@.len() == 14);
        assert("indexedVariables"@.len() == 16);
        let o = SetVariableResponseBody::fields(m);
        String::lemma_round_trip(m.value);
        assert(req_field::<String>(o, "value"@) matches Ok(v) && v == m.value);
        Option::<String>::lemma_round_trip(m.type_);
        assert(opt_field::<String>(o, "type"@) matches Ok(v) && v == m.type_);
        Option::<i32>::lemma_round_trip(m.variables_reference);
        assert(opt_field::<i32>(o, "variablesReference"@) matches Ok(v) && v == m.variables_reference);
        Option::<i32>::lemma_round_trip(m.named_variables);
        assert(opt_field::<i32>(o, "namedVariables"@) matches Ok(v) && v == m.named_variables);
        Option::<i32>::lemma_round_trip(m.indexed_variables);
        assert(opt_field::<i32>(o, "indexedVariables"@) matches Ok(v) && v == m.indexed_variables);
    }
}

impl Record for SetVariableResponseBody {
    open spec fn field_names() -> Set<Seq<char>> {
        set!["value"@, "type"@, "variablesReference"@, "namedVariables"@, "indexedVariables"@]
    }

    proof fn lemma_unknown_field(o: JsonObject, key: Seq<char>, x: Json) {
        broadcast use group_field_rules;

        reveal(opt_field);
        reveal(req_field);
    }
}

impl Defaults for SetVariableResponseBody {
    open spec fn elidable_names() -> Set<Seq<char>> {
        set!["type"@, "variablesReference"@, "namedVariables"@, "indexedVariables"@]
    }

    open spec fn at_defaults(m: SetVariableResponseBodyView) -> bool {
        &&& m.type_ is None
        &&& m.variables_reference is None
        &&& m.named_variables is None
        &&& m.indexed_variables is None
    }

    proof fn lemma_defaults_elided(m: SetVariableResponseBodyView, key: Seq<char>) {
        broadcast use group_field_rules;

        reveal_strlit("value");
        reveal_strlit("type");
        reveal_strlit("variablesReference");
        reveal_strlit("namedVariables");
        reveal_strlit("indexedVariables");
        assert("value"@.len() == 5);
        assert("type"@.len() == 4);
        assert("variablesReference"@.len() == 18);
        assert("namedVariables"@.len() == 14);
        assert("indexedVariables"@.len() == 16);
    }
}

#[derive(Clone, Debug, PartialEq, Eq)]
pub struct SourceResponseBody {
    /// Content of the source reference.
    pub content: String,

    /// Optional content type (mime type) of the source.
    pub mime_type: Option<String>,
}

/// The mathematical content of a [`SourceResponseBody`].
pub struct SourceResponseBodyView {
    pub content: Seq<char>,
    pub mime_type: Option<Seq<char>>,
}

impl View for SourceResponseBody {
    type V = SourceResponseBodyView;

    open spec fn view(&self) -> SourceResponseBodyView {
        SourceResponseBodyView {
            content: self.content.model(),
            mime_type: self.mime_type.model(),
        }
    }
}

impl SourceResponseBody {
    /// The fields that are written for a value.
    pub open spec fn fields(m: SourceResponseBodyView) -> JsonObject {
        let o = empty_object();
        let o = with_field::<String>(o, "content"@, m.content);
        let o = with_opt_field::<String>(o, "mimeType"@, m.mime_type);
        o
    }

    /// What the fields of an object decode to: the first failure in the order of
    /// the fields, or the value.
    pub open spec fn decode_fields(o: JsonObject) -> Result<SourceResponseBodyView, DecodeErrorView> {
        let content = req_field::<String>(o, "content"@);
        let mime_type = opt_field::<String>(o, "mimeType"@);
        if content is Err {
            Err(content->Err_0)
        } else if mime_type is Err {
            Err(mime_type->Err_0)
        } else {
            Ok(SourceResponseBodyView {
                content: content->Ok_0,
                mime_type: mime_type->Ok_0,
            })
        }
    }

    /// Writes the fields of the value into a fresh object.
    pub fn to_object(&self) -> (o: serde_json::Map<String, serde_json::Value>)
        ensures
            object_model(o) == SourceResponseBody::fields(self@),
    {
        let mut o = object_new();
        put::<String>(&mut o, "content", &self.content);
        put_opt::<String>(&mut o, "mimeType", &self.mime_type);
        o
    }

    /// Reads a value from the fields of an object.
    pub fn from_object(o: &serde_json::Map<String, serde_json::Value>) -> (r: Result<
        SourceResponseBody,
        DecodeError,
    >)
        ensures
            match r {
                Ok(x) => SourceResponseBody::decode_fields(object_model(*o)) matches Ok(m) && m == x.model(),
                Err(e) => SourceResponseBody::decode_fields(object_model(*o)) matches Err(f) && f == e@,
            },
    {
        let content = get_req::<String>(o, "content")?;
        let mime_type = get_opt::<String>(o, "mimeType")?;
        Ok(SourceResponseBody { content, mime_type })
    }
}

impl Wire for SourceResponseBody {
    type Model = SourceResponseBodyView;

    open spec fn model(&self) -> SourceResponseBodyView {
        self@
    }

    open spec fn wire_ok(m: SourceResponseBodyView) -> bool {
        true
    }

    open spec fn encode_json(m: SourceResponseBodyView) -> Json {
        Json::Object(SourceResponseBody::fields(m))
    }

    open spec fn decode_json(j: Json) -> Result<SourceResponseBodyView, DecodeErrorView> {
        match j {
            Json::Object(o) => SourceResponseBody::decode_fields(o),
            _ => Err(DecodeErrorView::InvalidType),
        }
    }

    fn to_value(&self) -> (r: serde_json::Value) {
        value_object(self.to_object())
    }

    fn from_value(v: &serde_json::Value) -> (r: Result<SourceResponseBody, DecodeError>) {
        match value_as_object(v) {
            Some(o) => SourceResponseBody::from_object(o),
            None => Err(DecodeError::InvalidType),
        }
    }

    proof fn lemma_round_trip(m: SourceResponseBodyView) {
        broadcast use group_field_rules;

        reveal(opt_field);
        reveal(req_field);
        reveal_strlit("content");
        reveal_strlit("mimeType");
        assert("content"@.len() == 7);
        assert("mimeType"@.len() == 8);
        let o = SourceResponseBody::fields(m);
        String::lemma_round_trip(m.content);
        assert(req_field::<String>(o, "content"@) matches Ok(v) && v == m.content);
        Option::<String>::lemma_round_trip(m.mime_type);
        assert(opt_field::<String>(o, "mimeType"@) matches Ok(v) && v == m.mime_type);
    }
}

impl Record for SourceResponseBody {
    open spec fn field_names() -> Set<Seq<char>> {
        set!["content"@, "mimeType"@]
    }

    proof fn lemma_unknown_field(o: JsonObject, key: Seq<char>, x: Json) {
        broadcast use group_field_rules;

        reveal(opt_field);
        reveal(req_field);
    }
}

impl Defaults for SourceResponseBody {
    open spec fn elidable_names() -> Set<Seq<char>> {
        set!["mimeType"@]
    }

    open spec fn at_defaults(m: SourceResponseBodyView) -> bool {
        &&& m.mime_type is None
    }

    proof fn lemma_defaults_elided(m: SourceResponseBodyView, key: Seq<char>) {
        broadcast use group_field_rules;

        reveal_strlit("content");
        reveal_strlit("mimeType");
        assert("content"@.len() == 7);
        assert("mimeType"@.len() == 8);
    }
}

#[derive(Clone, Debug, PartialEq, Eq)]
pub struct StackTraceResponseBody {
    /// The frames of the stackframe. If the array has length zero, there are no stackframes available.
    ///
    /// This means that there is no location information available.
    pub stack_frames: Vec<StackFrame>,

    /// The total number of frames available in the stack. If omitted or if totalFrames is larger than the available frames, a client is expected to request frames until a request returns less frames than requested (which indicates the end of the stack). Returning monotonically increasing totalFrames values for subsequent requests can be used to enforce paging in the client.
    pub total_frames: Option<i32>,
}

/// The mathematical content of a [`StackTraceResponseBody`].
pub struct StackTraceResponseBodyView {
    pub stack_frames: Seq<StackFrameView>,
    pub total_frames: Option<i32>,
}

impl View for StackTraceResponseBody {
    type V = StackTraceResponseBodyView;

    open spec fn view(&self) -> StackTraceResponseBodyView {
        StackTraceResponseBodyView {
            stack_frames: self.stack_frames.model(),
            total_frames: self.total_frames.model(),
        }
    }
}

impl StackTraceResponseBody {
    /// The fields that are written for a value.
    pub open spec fn fields(m: StackTraceResponseBodyView) -> JsonObject {
        let o = empty_object();
        let o = with_field::<Vec<StackFrame>>(o, "stackFrames"@, m.stack_frames);
        let o = with_opt_field::<i32>(o, "totalFrames"@, m.total_frames);
        o
    }

    /// What the fields of an object decode to: the first failure in the order of
    /// the fields, or the value.
    pub open spec fn decode_fields(o: JsonObject) -> Result<StackTraceResponseBodyView, DecodeErrorView> {
        let stack_frames = req_field::<Vec<StackFrame>>(o, "stackFrames"@);
        let total_frames = opt_field::<i32>(o, "totalFrames"@);
        if stack_frames is Err {
            Err(stack_frames->Err_0)
        } else if total_frames is Err {
            Err(total_frames->Err_0)
        } else {
            Ok(StackTraceResponseBodyView {
                stack_frames: stack_frames->Ok_0,
                total_frames: total_frames->Ok_0,
            })
        }
    }

    /// Writes the fields of the value into a fresh object.
    pub fn to_object(&self) -> (o: serde_json::Map<String, serde_json::Value>)
        ensures
            object_model(o) == StackTraceResponseBody::fields(self@),
    {
        let mut o = object_new();
        put::<Vec<StackFrame>>(&mut o, "stackFrames", &self.stack_frames);
        put_opt::<i32>(&mut o, "totalFrames", &self.total_frames);
        o
    }

    /// Reads a value from the fields of an object.
    pub fn from_object(o: &serde_json::Map<String, serde_json::Value>) -> (r: Result<
        StackTraceResponseBody,
        DecodeError,
    >)
        ensures
            match r {
                Ok(x) => StackTraceResponseBody::decode_fields(object_model(*o)) matches Ok(m) && m == x.model(),
                Err(e) => StackTraceResponseBody::decode_fields(object_model(*o)) matches Err(f) && f == e@,
            },
    {
        let stack_frames = get_req::<Vec<StackFrame>>(o, "stackFrames")?;
        let total_frames = get_opt::<i32>(o, "totalFrames")?;
        Ok(StackTraceResponseBody { stack_frames, total_frames })
    }
}

impl Wire for StackTraceResponseBody {
    type Model = StackTraceResponseBodyView;

    open spec fn model(&self) -> StackTraceResponseBodyView {
        self@
    }

    open spec fn wire_ok(m: StackTraceResponseBodyView) -> bool {
        &&& Vec::<StackFrame>::wire_ok(m.stack_frames)
    }

    open spec fn encode_json(m: StackTraceResponseBodyView) -> Json {
        Json::Object(StackTraceResponseBody::fields(m))
    }

    open spec fn decode_json(j: Json) -> Result<StackTraceResponseBodyView, DecodeErrorView> {
        match j {
            Json::Object(o) => StackTraceResponseBody::decode_fields(o),
            _ => Err(DecodeErrorView::InvalidType),
        }
    }

    fn to_value(&self) -> (r: serde_json::Value) {
        value_object(self.to_object())
    }

    fn from_value(v: &serde_json::Value) -> (r: Result<StackTraceResponseBody, DecodeError>) {
        match value_as_object(v) {
            Some(o) => StackTraceResponseBody::from_object(o),
            None => Err(DecodeError::InvalidType),
        }
    }

    proof fn lemma_round_trip(m: StackTraceResponseBodyView) {
        broadcast use group_field_rules;

        reveal(opt_field);
        reveal(req_field);
        reveal_strlit("stackFrames");
        reveal_strlit("totalFrames");
        assert("stackFrames"@.len() == 11);
        assert("totalFrames"@.len() == 11);
        assert("stackFrames"@[0] != "totalFrames"@[0]);
        let o = StackTraceResponseBody::fields(m);
        Vec::<StackFrame>::lemma_round_trip(m.stack_frames);
        assert(req_field::<Vec<StackFrame>>(o, "stackFrames"@) matches Ok(v) && v == m.stack_frames);
        Option::<i32>::lemma_round_trip(m.total_frames);
        assert(opt_field::<i32>(o, "totalFrames"@) matches Ok(v) && v == m.total_frames);
    }
}

impl Record for StackTraceResponseBody {
    open spec fn field_names() -> Set<Seq<char>> {
        set!["stackFrames"@, "totalFrames"@]
    }

    proof fn lemma_unknown_field(o: JsonObject, key: Seq<char>, x: Json) {
        broadcast use group_field_rules;

        reveal(opt_field);
        reveal(req_field);
    }
}

impl Defaults for StackTraceResponseBody {
    open spec fn elidable_names() -> Set<Seq<char>> {
        set!["totalFrames"@]
    }

    open spec fn at_defaults(m: StackTraceResponseBodyView) -> bool {
        &&& m.total_frames is None
    }

    proof fn lemma_defaults_elided(m: StackTraceResponseBodyView, key: Seq<char>) {
        broadcast use group_field_rules;

        reveal_strlit("stackFrames");
        reveal_strlit("totalFrames");
        assert("stackFrames"@.len() == 11);
        assert("totalFrames"@.len() == 11);
        assert("stackFrames"@[0] != "totalFrames"@[0]);
    }
}

#[derive(Clone, Debug, PartialEq, Eq)]
pub struct StepInTargetsResponseBody {
    /// The possible stepIn targets of the specified source location.
    pub targets: Vec<StepInTarget>,
}

/// The mathematical content of a [`StepInTargetsResponseBody`].
pub struct StepInTargetsResponseBodyView {
    pub targets: Seq<StepInTargetView>,
}

impl View for StepInTargetsResponseBody {
    type V = StepInTargetsResponseBodyView;

    open spec fn view(&self) -> StepInTargetsResponseBodyView {
        StepInTargetsResponseBodyView {
            targets: self.targets.model(),
        }
    }
}

impl StepInTargetsResponseBody {
    /// The fields that are written for a value.
    pub open spec fn fields(m: StepInTargetsResponseBodyView) -> JsonObject {
        let o = empty_object();
        let o = with_field::<Vec<StepInTarget>>(o, "targets"@, m.targets);
        o
    }

    /// What the fields of an object decode to: the first failure in the order of
    /// the fields, or the value.
    pub open spec fn decode_fields(o: JsonObject) -> Result<StepInTargetsResponseBodyView, DecodeErrorView> {
        let targets = req_field::<Vec<StepInTarget>>(o, "targets"@);
        if targets is Err {
            Err(targets->Err_0)
        } else {
            Ok(StepInTargetsResponseBodyView {
                targets: targets->Ok_0,
            })
        }
    }

    /// Writes the fields of the value into a fresh object.
    pub fn to_object(&self) -> (o: serde_json::Map<String, serde_json::Value>)
        ensures
            object_model(o) == StepInTargetsResponseBody::fields(self@),
    {
        let mut o = object_new();
        put::<Vec<StepInTarget>>(&mut o, "targets", &self.targets);
        o
    }

    /// Reads a value from the fields of an object.
    pub fn from_object(o: &serde_json::Map<String, serde_json::Value>) -> (r: Result<
        StepInTargetsResponseBody,
        DecodeError,
    >)
        ensures
            match r {
                Ok(x) => StepInTargetsResponseBody::decode_fields(object_model(*o)) matches Ok(m) && m == x.model(),
                Err(e) => StepInTargetsResponseBody::decode_fields(object_model(*o)) matches Err(f) && f == e@,
            },
    {
        let targets = get_req::<Vec<StepInTarget>>(o, "targets")?;
        Ok(StepInTargetsResponseBody { targets })
    }
}

impl Wire for StepInTargetsResponseBody {
    type Model = StepInTargetsResponseBodyView;

    open spec fn model(&self) -> StepInTargetsResponseBodyView {
        self@
    }

    open spec fn wire_ok(m: StepInTargetsResponseBodyView) -> bool {
        true
    }

    open spec fn encode_json(m: StepInTargetsResponseBodyView) -> Json {
        Json::Object(StepInTargetsResponseBody::fields(m))
    }

    open spec fn decode_json(j: Json) -> Result<StepInTargetsResponseBodyView, DecodeErrorView> {
        match j {
            Json::Object(o) => StepInTargetsResponseBody::decode_fields(o),
            _ => Err(DecodeErrorView::InvalidType),
        }
    }

    fn to_value(&self) -> (r: serde_json::Value) {
        value_object(self.to_object())
    }

    fn from_value(v: &serde_json::Value) -> (r: Result<StepInTargetsResponseBody, DecodeError>) {
        match value_as_object(v) {
            Some(o) => StepInTargetsResponseBody::from_object(o),
            None => Err(DecodeError::InvalidType),
        }
    }

    proof fn lemma_round_trip(m: StepInTargetsResponseBodyView) {
        broadcast use group_field_rules;

        reveal(req_field);
        reveal_strlit("targets");
        assert("targets"@.len() == 7);
        let o = StepInTargetsResponseBody::fields(m);
        Vec::<StepInTarget>::lemma_round_trip(m.targets);
        assert(req_field::<Vec<StepInTarget>>(o, "targets"@) matches Ok(v) && v == m.targets);
    }
}

impl Record for StepInTargetsResponseBody {
    open spec fn field_names() -> Set<Seq<char>> {
        set!["targets"@]
    }

    proof fn lemma_unknown_field(o: JsonObject, key: Seq<char>, x: Json) {
        broadcast use group_field_rules;

        reveal(req_field);
    }
}

#[derive(Clone, Debug, PartialEq, Eq)]
pub struct ThreadsResponseBody {
    /// All threads.
    pub threads: Vec<Thread>,
}

/// The mathematical content of a [`ThreadsResponseBody`].
pub struct ThreadsResponseBodyView {
    pub threads: Seq<ThreadView>,
}

impl View for ThreadsResponseBody {
    type V = ThreadsResponseBodyView;

    open spec fn view(&self) -> ThreadsResponseBodyView {
        ThreadsResponseBodyView {
            threads: self.threads.model(),
        }
    }
}

impl ThreadsResponseBody {
    /// The fields that are written for a value.
    pub open spec fn fields(m: ThreadsResponseBodyView) -> JsonObject {
        let o = empty_object();
        let o = with_field::<Vec<Thread>>(o, "threads"@, m.threads);
        o
    }

    /// What the fields of an object decode to: the first failure in the order of
    /// the fields, or the value.
    pub open spec fn decode_fields(o: JsonObject) -> Result<ThreadsResponseBodyView, DecodeErrorView> {
        let threads = req_field::<Vec<Thread>>(o, "threads"@);
        if threads is Err {
            Err(threads->Err_0)
        } else {
            Ok(ThreadsResponseBodyView {
                threads: threads->Ok_0,
            })
        }
    }

    /// Writes the fields of the value into a fresh object.
    pub fn to_object(&self) -> (o: serde_json::Map<String, serde_json::Value>)
        ensures
            object_model(o) == ThreadsResponseBody::fields(self@),
    {
        let mut o = object_new();
        put::<Vec<Thread>>(&mut o, "threads", &self.threads);
        o
    }

    /// Reads a value from the fields of an object.
    pub fn from_object(o: &serde_json::Map<String, serde_json::Value>) -> (r: Result<
        ThreadsResponseBody,
        DecodeError,
    >)
        ensures
            match r {
                Ok(x) => ThreadsResponseBody::decode_fields(object_model(*o)) matches Ok(m) && m == x.model(),
                Err(e) => ThreadsResponseBody::decode_fields(object_model(*o)) matches Err(f) && f == e@,
            },
    {
        let threads = get_req::<Vec<Thread>>(o, "threads")?;
        Ok(ThreadsResponseBody { threads })
    }
}

impl Wire for ThreadsResponseBody {
    type Model = ThreadsResponseBodyView;

    open spec fn model(&self) -> ThreadsResponseBodyView {
        self@
    }

    open spec fn wire_ok(m: ThreadsResponseBodyView) -> bool {
        true
    }

    open spec fn encode_json(m: ThreadsResponseBodyView) -> Json {
        Json::Object(ThreadsResponseBody::fields(m))
    }

    open spec fn decode_json(j: Json) -> Result<ThreadsResponseBodyView, DecodeErrorView> {
        match j {
            Json::Object(o) => ThreadsResponseBody::decode_fields(o),
            _ => Err(DecodeErrorView::InvalidType),
        }
    }

    fn to_value(&self) -> (r: serde_json::Value) {
        value_object(self.to_object())
    }

    fn from_value(v: &serde_json::Value) -> (r: Result<ThreadsResponseBody, DecodeError>) {
        match value_as_object(v) {
            Some(o) => ThreadsResponseBody::from_object(o),
            None => Err(DecodeError::InvalidType),
        }
    }

    proof fn lemma_round_trip(m: ThreadsResponseBodyView) {
        broadcast use group_field_rules;

        reveal(req_field);
        reveal_strlit("threads");
        assert("threads"@.len() == 7);
        let o = ThreadsResponseBody::fields(m);
        Vec::<Thread>::lemma_round_trip(m.threads);
        assert(req_field::<Vec<Thread>>(o, "threads"@) matches Ok(v) && v == m.threads);
    }
}

impl Record for ThreadsResponseBody {
    open spec fn field_names() -> Set<Seq<char>> {
        set!["threads"@]
    }

    proof fn lemma_unknown_field(o: JsonObject, key: Seq<char>, x: Json) {
        broadcast use group_field_rules;

        reveal(req_field);
    }
}

#[derive(Clone, Debug, PartialEq, Eq)]
pub struct VariablesResponseBody {
    /// All (or a range) of variables for the given variable reference.
    pub variables: Vec<Variable>,
}

/// The mathematical content of a [`VariablesResponseBody`].
pub struct VariablesResponseBodyView {
    pub variables: Seq<VariableView>,
}

impl View for VariablesResponseBody {
    type V = VariablesResponseBodyView;

    open spec fn view(&self) -> VariablesResponseBodyView {
        VariablesResponseBodyView {
            variables: self.variables.model(),
        }
    }
}

impl VariablesResponseBody {
    /// The fields that are written for a value.
    pub open spec fn fields(m: VariablesResponseBodyView) -> JsonObject {
        let o = empty_object();
        let o = with_field::<Vec<Variable>>(o, "variables"@, m.variables);
        o
    }

    /// What the fields of an object decode to: the first failure in the order of
    /// the fields, or the value.
    pub open spec fn decode_fields(o: JsonObject) -> Result<VariablesResponseBodyView, DecodeErrorView> {
        let variables = req_field::<Vec<Variable>>(o, "variables"@);
        if variables is Err {
            Err(variables->Err_0)
        } else {
            Ok(VariablesResponseBodyView {
                variables: variables->Ok_0,
            })
        }
    }

    /// Writes the fields of the value into a fresh object.
    pub fn to_object(&self) -> (o: serde_json::Map<String, serde_json::Value>)
        ensures
            object_model(o) == VariablesResponseBody::fields(self@),
    {
        let mut o = object_new();
        put::<Vec<Variable>>(&mut o, "variables", &self.variables);
        o
    }

    /// Reads a value from the fields of an object.
    pub fn from_object(o: &serde_json::Map<String, serde_json::Value>) -> (r: Result<
        VariablesResponseBody,
        DecodeError,
    >)
        ensures
            match r {
                Ok(x) => VariablesResponseBody::decode_fields(object_model(*o)) matches Ok(m) && m == x.model(),
                Err(e) => VariablesResponseBody::decode_fields(object_model(*o)) matches Err(f) && f == e@,
            },
    {
        let variables = get_req::<Vec<Variable>>(o, "variables")?;
        Ok(VariablesResponseBody { variables })
    }
}

impl Wire for VariablesResponseBody {
    type Model = VariablesResponseBodyView;

    open spec fn model(&self) -> VariablesResponseBodyView {
        self@
    }

    open spec fn wire_ok(m: VariablesResponseBodyView) -> bool {
        true
    }

    open spec fn encode_json(m: VariablesResponseBodyView) -> Json {
        Json::Object(VariablesResponseBody::fields(m))
    }

    open spec fn decode_json(j: Json) -> Result<VariablesResponseBodyView, DecodeErrorView> {
        match j {
            Json::Object(o) => VariablesResponseBody::decode_fields(o),
            _ => Err(DecodeErrorView::InvalidType),
        }
    }

    fn to_value(&self) -> (r: serde_json::Value) {
        value_object(self.to_object())
    }

    fn from_value(v: &serde_json::Value) -> (r: Result<VariablesResponseBody, DecodeError>) {
        match value_as_object(v) {
            Some(o) => VariablesResponseBody::from_object(o),
            None => Err(DecodeError::InvalidType),
        }
    }

    proof fn lemma_round_trip(m: VariablesResponseBodyView) {
        broadcast use group_field_rules;

        reveal(req_field);
        reveal_strlit("variables");
        assert("variables"@.len() == 9);
        let o = VariablesResponseBody::fields(m);
        Vec::<Variable>::lemma_round_trip(m.variables);
        assert(req_field::<Vec<Variable>>(o, "variables"@) matches Ok(v) && v == m.variables);
    }
}

impl Record for VariablesResponseBody {
    open spec fn field_names() -> Set<Seq<char>> {
        set!["variables"@]
    }

    proof fn lemma_unknown_field(o: JsonObject, key: Seq<char>, x: Json) {
        broadcast use group_field_rules;

        reveal(req_field);
    }
}

} // verus!
