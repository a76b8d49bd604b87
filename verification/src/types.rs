use crate::dictionary::{get_entries, put_entries, Dictionary};
use crate::error::{DecodeError, DecodeErrorView};
use crate::json::{
    array_model, empty_object, field, json_model, lemma_field_of_empty, object_get, object_insert,
    object_model, object_new, set_field, str_eq, value_array, value_as_array, value_as_object,
    value_as_str, value_object, value_string, Json, JsonObject,
};
use crate::table::{lemma_lookup_store_other, lemma_place, lookup, place, store, Table};
use crate::wire::{
    default_field, get_opt, get_or, get_or_empty, get_req, group_field_rules, opt_field, put,
    put_flag, put_nonempty, put_nonzero, put_opt, put_unless, req_field, with_field,
    with_nondefault_field, with_opt_field, Defaults, Record, Wire,
};
use vstd::prelude::*;

verus! {

/// Information about a Breakpoint created in setBreakpoints, setFunctionBreakpoints, setInstructionBreakpoints, or setDataBreakpoints.
#[derive(Clone, Debug, PartialEq, Eq)]
pub struct Breakpoint {
    /// An optional identifier for the breakpoint. It is needed if breakpoint events are used to update or remove breakpoints.
    pub id: Option<i32>,

    /// If true breakpoint could be set (but not necessarily at the desired location).
    pub verified: bool,

    /// An optional message about the state of the breakpoint.
    ///
    /// This is shown to the user and can be used to explain why a breakpoint could not be verified.
    pub message: Option<String>,

    /// The source where the breakpoint is located.
    pub source: Option<Source>,

    /// The start line of the actual range covered by the breakpoint.
    pub line: Option<i32>,

    /// An optional start column of the actual range covered by the breakpoint.
    pub column: Option<i32>,

    /// An optional end line of the actual range covered by the breakpoint.
    pub end_line: Option<i32>,

    /// An optional end column of the actual range covered by the breakpoint.
    ///
    /// If no end line is given, then the end column is assumed to be in the start line.
    pub end_column: Option<i32>,

    /// An optional memory reference to where the breakpoint is set.
    pub instruction_reference: Option<String>,

    /// An optional offset from the instruction reference.
    ///
    /// This can be negative.
    pub offset: Option<i32>,
}

/// The mathematical content of a [`Breakpoint`].
pub struct BreakpointView {
    pub id: Option<i32>,
    pub verified: bool,
    pub message: Option<Seq<char>>,
    pub source: Option<SourceView>,
    pub line: Option<i32>,
    pub column: Option<i32>,
    pub end_line: Option<i32>,
    pub end_column: Option<i32>,
    pub instruction_reference: Option<Seq<char>>,
    pub offset: Option<i32>,
}

impl View for Breakpoint {
    type V = BreakpointView;

    open spec fn view(&self) -> BreakpointView {
        BreakpointView {
            id: self.id.model(),
            verified: self.verified,
            message: self.message.model(),
            source: self.source.model(),
            line: self.line.model(),
            column: self.column.model(),
            end_line: self.end_line.model(),
            end_column: self.end_column.model(),
            instruction_reference: self.instruction_reference.model(),
            offset: self.offset.model(),
        }
    }
}

impl Breakpoint {
    /// The fields that are written for a value.
    pub open spec fn fields(m: BreakpointView) -> JsonObject {
        let o = empty_object();
        let o = with_opt_field::<i32>(o, "id"@, m.id);
        let o = with_field::<bool>(o, "verified"@, m.verified);
        let o = with_opt_field::<String>(o, "message"@, m.message);
        let o = with_opt_field::<Source>(o, "source"@, m.source);
        let o = with_opt_field::<i32>(o, "line"@, m.line);
        let o = with_opt_field::<i32>(o, "column"@, m.column);
        let o = with_opt_field::<i32>(o, "endLine"@, m.end_line);
        let o = with_opt_field::<i32>(o, "endColumn"@, m.end_column);
        let o = with_opt_field::<String>(o, "instructionReference"@, m.instruction_reference);
        let o = with_opt_field::<i32>(o, "offset"@, m.offset);
        o
    }

    /// What the fields of an object decode to: the first failure in the order of
    /// the fields, or the value.
    pub open spec fn decode_fields(o: JsonObject) -> Result<BreakpointView, DecodeErrorView> {
        let id = opt_field::<i32>(o, "id"@);
        let verified = req_field::<bool>(o, "verified"@);
        let message = opt_field::<String>(o, "message"@);
        let source = opt_field::<Source>(o, "source"@);
        let line = opt_field::<i32>(o, "line"@);
        let column = opt_field::<i32>(o, "column"@);
        let end_line = opt_field::<i32>(o, "endLine"@);
        let end_column = opt_field::<i32>(o, "endColumn"@);
        let instruction_reference = opt_field::<String>(o, "instructionReference"@);
        let offset = opt_field::<i32>(o, "offset"@);
        if id is Err {
            Err(id->Err_0)
        } else if verified is Err {
            Err(verified->Err_0)
        } else if message is Err {
            Err(message->Err_0)
        } else if source is Err {
            Err(source->Err_0)
        } else if line is Err {
            Err(line->Err_0)
        } else if column is Err {
            Err(column->Err_0)
        } else if end_line is Err {
            Err(end_line->Err_0)
        } else if end_column is Err {
            Err(end_column->Err_0)
        } else if instruction_reference is Err {
            Err(instruction_reference->Err_0)
        } else if offset is Err {
            Err(offset->Err_0)
        } else {
            Ok(BreakpointView {
                id: id->Ok_0,
                verified: verified->Ok_0,
                message: message->Ok_0,
                source: source->Ok_0,
                line: line->Ok_0,
                column: column->Ok_0,
                end_line: end_line->Ok_0,
                end_column: end_column->Ok_0,
                instruction_reference: instruction_reference->Ok_0,
                offset: offset->Ok_0,
            })
        }
    }

    /// Writes the fields of the value into a fresh object.
    pub fn to_object(&self) -> (o: serde_json::Map<String, serde_json::Value>)
        ensures
            object_model(o) == Breakpoint::fields(self@),
    {
        let mut o = object_new();
        put_opt::<i32>(&mut o, "id", &self.id);
        put::<bool>(&mut o, "verified", &self.verified);
        put_opt::<String>(&mut o, "message", &self.message);
        put_opt::<Source>(&mut o, "source", &self.source);
        put_opt::<i32>(&mut o, "line", &self.line);
        put_opt::<i32>(&mut o, "column", &self.column);
        put_opt::<i32>(&mut o, "endLine", &self.end_line);
        put_opt::<i32>(&mut o, "endColumn", &self.end_column);
        put_opt::<String>(&mut o, "instructionReference", &self.instruction_reference);
        put_opt::<i32>(&mut o, "offset", &self.offset);
        o
    }

    /// Reads a value from the fields of an object.
    pub fn from_object(o: &serde_json::Map<String, serde_json::Value>) -> (r: Result<
        Breakpoint,
        DecodeError,
    >)
        ensures
            match r {
                Ok(x) => Breakpoint::decode_fields(object_model(*o)) matches Ok(m) && m == x.model(),
                Err(e) => Breakpoint::decode_fields(object_model(*o)) matches Err(f) && f == e@,
            },
    {
        let id = get_opt::<i32>(o, "id")?;
        let verified = get_req::<bool>(o, "verified")?;
        let message = get_opt::<String>(o, "message")?;
        let source = get_opt::<Source>(o, "source")?;
        let line = get_opt::<i32>(o, "line")?;
        let column = get_opt::<i32>(o, "column")?;
        let end_line = get_opt::<i32>(o, "endLine")?;
        let end_column = get_opt::<i32>(o, "endColumn")?;
        let instruction_reference = get_opt::<String>(o, "instructionReference")?;
        let offset = get_opt::<i32>(o, "offset")?;
        Ok(Breakpoint { id, verified, message, source, line, column, end_line, end_column, instruction_reference, offset })
    }
}

impl Wire for Breakpoint {
    type Model = BreakpointView;

    open spec fn model(&self) -> BreakpointView {
        self@
    }

    open spec fn wire_ok(m: BreakpointView) -> bool {
        &&& Option::<Source>::wire_ok(m.source)
    }

    open spec fn encode_json(m: BreakpointView) -> Json {
        Json::Object(Breakpoint::fields(m))
    }

    open spec fn decode_json(j: Json) -> Result<BreakpointView, DecodeErrorView> {
        match j {
            Json::Object(o) => Breakpoint::decode_fields(o),
            _ => Err(DecodeErrorView::InvalidType),
        }
    }

    fn to_value(&self) -> (r: serde_json::Value) {
        value_object(self.to_object())
    }

    fn from_value(v: &serde_json::Value) -> (r: Result<Breakpoint, DecodeError>) {
        match value_as_object(v) {
            Some(o) => Breakpoint::from_object(o),
            None => Err(DecodeError::InvalidType),
        }
    }

    proof fn lemma_round_trip(m: BreakpointView) {
        broadcast use group_field_rules;

        reveal(opt_field);
        reveal(req_field);
        reveal_strlit("id");
        reveal_strlit("verified");
        reveal_strlit("message");
        reveal_strlit("source");
        reveal_strlit("line");
        reveal_strlit("column");
        reveal_strlit("endLine");
        reveal_strlit("endColumn");
        reveal_strlit("instructionReference");
        reveal_strlit("offset");
        assert("id"@.len() == 2);
        assert("verified"@.len() == 8);
        assert("message"@.len() == 7);
        assert("source"@.len() == 6);
        assert("line"@.len() == 4);
        assert("column"@.len() == 6);
        assert("endLine"@.len() == 7);
        assert("endColumn"@.len() == 9);
        assert("instructionReference"@.len() == 20);
        assert("offset"@.len() == 6);
        assert("message"@[0] != "endLine"@[0]);
        assert("source"@[0] != "column"@[0]);
        assert("source"@[0] != "offset"@[0]);
        assert("column"@[0] != "offset"@[0]);
        let o = Breakpoint::fields(m);
        Option::<i32>::lemma_round_trip(m.id);
        assert(opt_field::<i32>(o, "id"@) matches Ok(v) && v == m.id);
        bool::lemma_round_trip(m.verified);
        assert(req_field::<bool>(o, "verified"@) matches Ok(v) && v == m.verified);
        Option::<String>::lemma_round_trip(m.message);
        assert(opt_field::<String>(o, "message"@) matches Ok(v) && v == m.message);
        Option::<Source>::lemma_round_trip(m.source);
        assert(opt_field::<Source>(o, "source"@) matches Ok(v) && v == m.source);
        Option::<i32>::lemma_round_trip(m.line);
        assert(opt_field::<i32>(o, "line"@) matches Ok(v) && v == m.line);
        Option::<i32>::lemma_round_trip(m.column);
        assert(opt_field::<i32>(o, "column"@) matches Ok(v) && v == m.column);
        Option::<i32>::lemma_round_trip(m.end_line);
        assert(opt_field::<i32>(o, "endLine"@) matches Ok(v) && v == m.end_line);
        Option::<i32>::lemma_round_trip(m.end_column);
        assert(opt_field::<i32>(o, "endColumn"@) matches Ok(v) && v == m.end_column);
        Option::<String>::lemma_round_trip(m.instruction_reference);
        assert(opt_field::<String>(o, "instructionReference"@) matches Ok(v) && v == m.instruction_reference);
        Option::<i32>::lemma_round_trip(m.offset);
        assert(opt_field::<i32>(o, "offset"@) matches Ok(v) && v == m.offset);
    }
}

impl Record for Breakpoint {
    open spec fn field_names() -> Set<Seq<char>> {
        set!["id"@, "verified"@, "message"@, "source"@, "line"@, "column"@, "endLine"@, "endColumn"@, "instructionReference"@, "offset"@]
    }

    proof fn lemma_unknown_field(o: JsonObject, key: Seq<char>, x: Json) {
        broadcast use group_field_rules;

        reveal(opt_field);
        reveal(req_field);
    }
}

impl Defaults for Breakpoint {
    open spec fn elidable_names() -> Set<Seq<char>> {
        set!["id"@, "message"@, "source"@, "line"@, "column"@, "endLine"@, "endColumn"@, "instructionReference"@, "offset"@]
    }

    open spec fn at_defaults(m: BreakpointView) -> bool {
        &&& m.id is None
        &&& m.message is None
        &&& m.source is None
        &&& m.line is None
        &&& m.column is None
        &&& m.end_line is None
        &&& m.end_column is None
        &&& m.instruction_reference is None
        &&& m.offset is None
    }

    proof fn lemma_defaults_elided(m: BreakpointView, key: Seq<char>) {
        broadcast use group_field_rules;

        reveal_strlit("id");
        reveal_strlit("verified");
        reveal_strlit("message");
        reveal_strlit("source");
        reveal_strlit("line");
        reveal_strlit("column");
        reveal_strlit("endLine");
        reveal_strlit("endColumn");
        reveal_strlit("instructionReference");
        reveal_strlit("offset");
        assert("id"@.len() == 2);
        assert("verified"@.len() == 8);
        assert("message"@.len() == 7);
        assert("source"@.len() == 6);
        assert("line"@.len() == 4);
        assert("column"@.len() == 6);
        assert("endLine"@.len() == 7);
        assert("endColumn"@.len() == 9);
        assert("instructionReference"@.len() == 20);
        assert("offset"@.len() == 6);
        assert("message"@[0] != "endLine"@[0]);
        assert("source"@[0] != "column"@[0]);
        assert("source"@[0] != "offset"@[0]);
        assert("column"@[0] != "offset"@[0]);
    }
}

/// Properties of a breakpoint location returned from the 'breakpointLocations' request.
#[derive(Clone, Debug, PartialEq, Eq)]
pub struct BreakpointLocation {
    /// Start line of breakpoint location.
    pub line: i32,

    /// Optional start column of breakpoint location.
    pub column: Option<i32>,

    /// Optional end line of breakpoint location if the location covers a range.
    pub end_line: Option<i32>,

    /// Optional end column of breakpoint location if the location covers a range.
    pub end_column: Option<i32>,
}

impl BreakpointLocation {
    /// The fields that are written for a value.
    pub open spec fn fields(m: BreakpointLocation) -> JsonObject {
        let o = empty_object();
        let o = with_field::<i32>(o, "line"@, m.line);
        let o = with_opt_field::<i32>(o, "column"@, m.column);
        let o = with_opt_field::<i32>(o, "endLine"@, m.end_line);
        let o = with_opt_field::<i32>(o, "endColumn"@, m.end_column);
        o
    }

    /// What the fields of an object decode to: the first failure in the order of
    /// the fields, or the value.
    pub open spec fn decode_fields(o: JsonObject) -> Result<BreakpointLocation, DecodeErrorView> {
        let line = req_field::<i32>(o, "line"@);
        let column = opt_field::<i32>(o, "column"@);
        let end_line = opt_field::<i32>(o, "endLine"@);
        let end_column = opt_field::<i32>(o, "endColumn"@);
        if line is Err {
            Err(line->Err_0)
        } else if column is Err {
            Err(column->Err_0)
        } else if end_line is Err {
            Err(end_line->Err_0)
        } else if end_column is Err {
            Err(end_column->Err_0)
        } else {
            Ok(BreakpointLocation {
                line: line->Ok_0,
                column: column->Ok_0,
                end_line: end_line->Ok_0,
                end_column: end_column->Ok_0,
            })
        }
    }

    /// Writes the fields of the value into a fresh object.
    pub fn to_object(&self) -> (o: serde_json::Map<String, serde_json::Value>)
        ensures
            object_model(o) == BreakpointLocation::fields(*self),
    {
        let mut o = object_new();
        put::<i32>(&mut o, "line", &self.line);
        put_opt::<i32>(&mut o, "column", &self.column);
        put_opt::<i32>(&mut o, "endLine", &self.end_line);
        put_opt::<i32>(&mut o, "endColumn", &self.end_column);
        o
    }

    /// Reads a value from the fields of an object.
    pub fn from_object(o: &serde_json::Map<String, serde_json::Value>) -> (r: Result<
        BreakpointLocation,
        DecodeError,
    >)
        ensures
            match r {
                Ok(x) => BreakpointLocation::decode_fields(object_model(*o)) matches Ok(m) && m == x.model(),
                Err(e) => BreakpointLocation::decode_fields(object_model(*o)) matches Err(f) && f == e@,
            },
    {
        let line = get_req::<i32>(o, "line")?;
        let column = get_opt::<i32>(o, "column")?;
        let end_line = get_opt::<i32>(o, "endLine")?;
        let end_column = get_opt::<i32>(o, "endColumn")?;
        Ok(BreakpointLocation { line, column, end_line, end_column })
    }
}

impl Wire for BreakpointLocation {
    type Model = BreakpointLocation;

    open spec fn model(&self) -> BreakpointLocation {
        *self
    }

    open spec fn wire_ok(m: BreakpointLocation) -> bool {
        true
    }

    open spec fn encode_json(m: BreakpointLocation) -> Json {
        Json::Object(BreakpointLocation::fields(m))
    }

    open spec fn decode_json(j: Json) -> Result<BreakpointLocation, DecodeErrorView> {
        match j {
            Json::Object(o) => BreakpointLocation::decode_fields(o),
            _ => Err(DecodeErrorView::InvalidType),
        }
    }

    fn to_value(&self) -> (r: serde_json::Value) {
        value_object(self.to_object())
    }

    fn from_value(v: &serde_json::Value) -> (r: Result<BreakpointLocation, DecodeError>) {
        match value_as_object(v) {
            Some(o) => BreakpointLocation::from_object(o),
            None => Err(DecodeError::InvalidType),
        }
    }

    proof fn lemma_round_trip(m: BreakpointLocation) {
        broadcast use group_field_rules;

        reveal(opt_field);
        reveal(req_field);
        reveal_strlit("line");
        reveal_strlit("column");
        reveal_strlit("endLine");
        reveal_strlit("endColumn");
        assert("line"@.len() == 4);
        assert("column"@.len() == 6);
        assert("endLine"@.len() == 7);
        assert("endColumn"@.len() == 9);
        let o = BreakpointLocation::fields(m);
        i32::lemma_round_trip(m.line);
        assert(req_field::<i32>(o, "line"@) matches Ok(v) && v == m.line);
        Option::<i32>::lemma_round_trip(m.column);
        assert(opt_field::<i32>(o, "column"@) matches Ok(v) && v == m.column);
        Option::<i32>::lemma_round_trip(m.end_line);
        assert(opt_field::<i32>(o, "endLine"@) matches Ok(v) && v == m.end_line);
        Option::<i32>::lemma_round_trip(m.end_column);
        assert(opt_field::<i32>(o, "endColumn"@) matches Ok(v) && v == m.end_column);
    }
}

impl Record for BreakpointLocation {
    open spec fn field_names() -> Set<Seq<char>> {
        set!["line"@, "column"@, "endLine"@, "endColumn"@]
    }

    proof fn lemma_unknown_field(o: JsonObject, key: Seq<char>, x: Json) {
        broadcast use group_field_rules;

        reveal(opt_field);
        reveal(req_field);
    }
}

impl Defaults for BreakpointLocation {
    open spec fn elidable_names() -> Set<Seq<char>> {
        set!["column"@, "endLine"@, "endColumn"@]
    }

    open spec fn at_defaults(m: BreakpointLocation) -> bool {
        &&& m.column is None
        &&& m.end_line is None
        &&& m.end_column is None
    }

    proof fn lemma_defaults_elided(m: BreakpointLocation, key: Seq<char>) {
        broadcast use group_field_rules;

        reveal_strlit("line");
        reveal_strlit("column");
        reveal_strlit("endLine");
        reveal_strlit("endColumn");
        assert("line"@.len() == 4);
        assert("column"@.len() == 6);
        assert("endLine"@.len() == 7);
        assert("endColumn"@.len() == 9);
    }
}

/// Information about the capabilities of a debug adapter.
#[derive(Clone, Debug, PartialEq, Eq)]
pub struct Capabilities {
    /// The debug adapter supports the 'configurationDone' request.
    pub supports_configuration_done_request: bool,

    /// The debug adapter supports function breakpoints.
    pub supports_function_breakpoints: bool,

    /// The debug adapter supports conditional breakpoints.
    pub supports_conditional_breakpoints: bool,

    /// The debug adapter supports breakpoints that break execution after a specified number of hits.
    pub supports_hit_conditional_breakpoints: bool,

    /// The debug adapter supports a (side effect free) evaluate request for data hovers.
    pub supports_evaluate_for_hovers: bool,

    /// Available exception filter options for the 'setExceptionBreakpoints' request.
    pub exception_breakpoint_filters: Vec<ExceptionBreakpointsFilter>,

    /// The debug adapter supports stepping back via the 'stepBack' and 'reverseContinue' requests.
    pub supports_step_back: bool,

    /// The debug adapter supports setting a variable to a value.
    pub supports_set_variable: bool,

    /// The debug adapter supports restarting a frame.
    pub supports_restart_frame: bool,

    /// The debug adapter supports the 'gotoTargets' request.
    pub supports_goto_targets_request: bool,

    /// The debug adapter supports the 'stepInTargets' request.
    pub supports_step_in_targets_request: bool,

    /// The debug adapter supports the 'completions' request.
    pub supports_completions_request: bool,

    /// The set of characters that should trigger completion in a REPL. If not specified, the UI should assume the '.' character.
    pub completion_trigger_characters: Option<Vec<String>>,

    /// The debug adapter supports the 'modules' request.
    pub supports_modules_request: bool,

    /// The set of additional module information exposed by the debug adapter.
    pub additional_module_columns: Vec<ColumnDescriptor>,

    /// Checksum algorithms supported by the debug adapter.
    pub supported_checksum_algorithms: Vec<ChecksumAlgorithm>,

    /// The debug adapter supports the 'restart' request. In this case a client should not implement 'restart' by terminating and relaunching the adapter but by calling the RestartRequest.
    pub supports_restart_request: bool,

    /// The debug adapter supports 'exceptionOptions' on the setExceptionBreakpoints request.
    pub supports_exception_options: bool,

    /// The debug adapter supports a 'format' attribute on the stackTraceRequest, variablesRequest, and evaluateRequest.
    pub supports_value_formatting_options: bool,

    /// The debug adapter supports the 'exceptionInfo' request.
    pub supports_exception_info_request: bool,

    /// The debug adapter supports the 'terminateDebuggee' attribute on the 'disconnect' request.
    pub support_terminate_debuggee: bool,

    /// The debug adapter supports the 'suspendDebuggee' attribute on the 'disconnect' request.
    pub support_suspend_debuggee: bool,

    /// The debug adapter supports the delayed loading of parts of the stack, which requires that both the 'startFrame' and 'levels' arguments and an optional 'totalFrames' result of the 'StackTrace' request are supported.
    pub supports_delayed_stack_trace_loading: bool,

    /// The debug adapter supports the 'loadedSources' request.
    pub supports_loaded_sources_request: bool,

    /// The debug adapter supports logpoints by interpreting the 'logMessage' attribute of the SourceBreakpoint.
    pub supports_log_points: bool,

    /// The debug adapter supports the 'terminateThreads' request.
    pub supports_terminate_threads_request: bool,

    /// The debug adapter supports the 'setExpression' request.
    pub supports_set_expression: bool,

    /// The debug adapter supports the 'terminate' request.
    pub supports_terminate_request: bool,

    /// The debug adapter supports data breakpoints.
    pub supports_data_breakpoints: bool,

    /// The debug adapter supports the 'readMemory' request.
    pub supports_read_memory_request: bool,

    /// The debug adapter supports the 'disassemble' request.
    pub supports_disassemble_request: bool,

    /// The debug adapter supports the 'cancel' request.
    pub supports_cancel_request: bool,

    /// The debug adapter supports the 'breakpointLocations' request.
    pub supports_breakpoint_locations_request: bool,

    /// The debug adapter supports the 'clipboard' context value in the 'evaluate' request.
    pub supports_clipboard_context: bool,

    /// The debug adapter supports stepping granularities (argument 'granularity') for the stepping requests.
    pub supports_stepping_granularity: bool,

    /// The debug adapter supports adding breakpoints based on instruction references.
    pub supports_instruction_breakpoints: bool,

    /// The debug adapter supports 'filterOptions' as an argument on the 'setExceptionBreakpoints' request.
    pub supports_exception_filter_options: bool,
}

/// The mathematical content of a [`Capabilities`].
#[verifier::ext_equal]
pub struct CapabilitiesView {
    pub supports_configuration_done_request: bool,
    pub supports_function_breakpoints: bool,
    pub supports_conditional_breakpoints: bool,
    pub supports_hit_conditional_breakpoints: bool,
    pub supports_evaluate_for_hovers: bool,
    pub exception_breakpoint_filters: Seq<ExceptionBreakpointsFilterView>,
    pub supports_step_back: bool,
    pub supports_set_variable: bool,
    pub supports_restart_frame: bool,
    pub supports_goto_targets_request: bool,
    pub supports_step_in_targets_request: bool,
    pub supports_completions_request: bool,
    pub completion_trigger_characters: Option<Seq<Seq<char>>>,
    pub supports_modules_request: bool,
    pub additional_module_columns: Seq<ColumnDescriptorView>,
    pub supported_checksum_algorithms: Seq<ChecksumAlgorithm>,
    pub supports_restart_request: bool,
    pub supports_exception_options: bool,
    pub supports_value_formatting_options: bool,
    pub supports_exception_info_request: bool,
    pub support_terminate_debuggee: bool,
    pub support_suspend_debuggee: bool,
    pub supports_delayed_stack_trace_loading: bool,
    pub supports_loaded_sources_request: bool,
    pub supports_log_points: bool,
    pub supports_terminate_threads_request: bool,
    pub supports_set_expression: bool,
    pub supports_terminate_request: bool,
    pub supports_data_breakpoints: bool,
    pub supports_read_memory_request: bool,
    pub supports_disassemble_request: bool,
    pub supports_cancel_request: bool,
    pub supports_breakpoint_locations_request: bool,
    pub supports_clipboard_context: bool,
    pub supports_stepping_granularity: bool,
    pub supports_instruction_breakpoints: bool,
    pub supports_exception_filter_options: bool,
}

impl View for Capabilities {
    type V = CapabilitiesView;

    open spec fn view(&self) -> CapabilitiesView {
        CapabilitiesView {
            supports_configuration_done_request: self.supports_configuration_done_request,
            supports_function_breakpoints: self.supports_function_breakpoints,
            supports_conditional_breakpoints: self.supports_conditional_breakpoints,
            supports_hit_conditional_breakpoints: self.supports_hit_conditional_breakpoints,
            supports_evaluate_for_hovers: self.supports_evaluate_for_hovers,
            exception_breakpoint_filters: self.exception_breakpoint_filters.model(),
            supports_step_back: self.supports_step_back,
            supports_set_variable: self.supports_set_variable,
            supports_restart_frame: self.supports_restart_frame,
            supports_goto_targets_request: self.supports_goto_targets_request,
            supports_step_in_targets_request: self.supports_step_in_targets_request,
            supports_completions_request: self.supports_completions_request,
            completion_trigger_characters: self.completion_trigger_characters.model(),
            supports_modules_request: self.supports_modules_request,
            additional_module_columns: self.additional_module_columns.model(),
            supported_checksum_algorithms: self.supported_checksum_algorithms.model(),
            supports_restart_request: self.supports_restart_request,
            supports_exception_options: self.supports_exception_options,
            supports_value_formatting_options: self.supports_value_formatting_options,
            supports_exception_info_request: self.supports_exception_info_request,
            support_terminate_debuggee: self.support_terminate_debuggee,
            support_suspend_debuggee: self.support_suspend_debuggee,
            supports_delayed_stack_trace_loading: self.supports_delayed_stack_trace_loading,
            supports_loaded_sources_request: self.supports_loaded_sources_request,
            supports_log_points: self.supports_log_points,
            supports_terminate_threads_request: self.supports_terminate_threads_request,
            supports_set_expression: self.supports_set_expression,
            supports_terminate_request: self.supports_terminate_request,
            supports_data_breakpoints: self.supports_data_breakpoints,
            supports_read_memory_request: self.supports_read_memory_request,
            supports_disassemble_request: self.supports_disassemble_request,
            supports_cancel_request: self.supports_cancel_request,
            supports_breakpoint_locations_request: self.supports_breakpoint_locations_request,
            supports_clipboard_context: self.supports_clipboard_context,
            supports_stepping_granularity: self.supports_stepping_granularity,
            supports_instruction_breakpoints: self.supports_instruction_breakpoints,
            supports_exception_filter_options: self.supports_exception_filter_options,
        }
    }
}

impl Default for Capabilities {
    /// The value in which every field holds its default.
    fn default() -> (r: Capabilities)
        ensures
            Capabilities::at_defaults(r@),
    {
        let r = Capabilities {
            supports_configuration_done_request: false,
            supports_function_breakpoints: false,
            supports_conditional_breakpoints: false,
            supports_hit_conditional_breakpoints: false,
            supports_evaluate_for_hovers: false,
            exception_breakpoint_filters: Vec::new(),
            supports_step_back: false,
            supports_set_variable: false,
            supports_restart_frame: false,
            supports_goto_targets_request: false,
            supports_step_in_targets_request: false,
            supports_completions_request: false,
            completion_trigger_characters: None,
            supports_modules_request: false,
            additional_module_columns: Vec::new(),
            supported_checksum_algorithms: Vec::new(),
            supports_restart_request: false,
            supports_exception_options: false,
            supports_value_formatting_options: false,
            supports_exception_info_request: false,
            support_terminate_debuggee: false,
            support_suspend_debuggee: false,
            supports_delayed_stack_trace_loading: false,
            supports_loaded_sources_request: false,
            supports_log_points: false,
            supports_terminate_threads_request: false,
            supports_set_expression: false,
            supports_terminate_request: false,
            supports_data_breakpoints: false,
            supports_read_memory_request: false,
            supports_disassemble_request: false,
            supports_cancel_request: false,
            supports_breakpoint_locations_request: false,
            supports_clipboard_context: false,
            supports_stepping_granularity: false,
            supports_instruction_breakpoints: false,
            supports_exception_filter_options: false,
        };
        assert(r.exception_breakpoint_filters.model() =~= Seq::empty());
        assert(r.additional_module_columns.model() =~= Seq::empty());
        assert(r.supported_checksum_algorithms.model() =~= Seq::empty());
        r
    }
}

impl Capabilities {
    /// The object with the fields of group 1 written.
    pub open spec fn fields_1(o: JsonObject, m: CapabilitiesView) -> JsonObject {
        let o = with_nondefault_field::<bool>(o, "supportsConfigurationDoneRequest"@, m.supports_configuration_done_request, false);
        let o = with_nondefault_field::<bool>(o, "supportsFunctionBreakpoints"@, m.supports_function_breakpoints, false);
        let o = with_nondefault_field::<bool>(o, "supportsConditionalBreakpoints"@, m.supports_conditional_breakpoints, false);
        let o = with_nondefault_field::<bool>(o, "supportsHitConditionalBreakpoints"@, m.supports_hit_conditional_breakpoints, false);
        let o = with_nondefault_field::<bool>(o, "supportsEvaluateForHovers"@, m.supports_evaluate_for_hovers, false);
        let o = with_nondefault_field::<Vec<ExceptionBreakpointsFilter>>(o, "exceptionBreakpointFilters"@, m.exception_breakpoint_filters, Seq::empty());
        let o = with_nondefault_field::<bool>(o, "supportsStepBack"@, m.supports_step_back, false);
        let o = with_nondefault_field::<bool>(o, "supportsSetVariable"@, m.supports_set_variable, false);
        o
    }

    /// The object with the fields of group 2 written.
    pub open spec fn fields_2(o: JsonObject, m: CapabilitiesView) -> JsonObject {
        let o = with_nondefault_field::<bool>(o, "supportsRestartFrame"@, m.supports_restart_frame, false);
        let o = with_nondefault_field::<bool>(o, "supportsGotoTargetsRequest"@, m.supports_goto_targets_request, false);
        let o = with_nondefault_field::<bool>(o, "supportsStepInTargetsRequest"@, m.supports_step_in_targets_request, false);
        let o = with_nondefault_field::<bool>(o, "supportsCompletionsRequest"@, m.supports_completions_request, false);
        let o = with_opt_field::<Vec<String>>(o, "completionTriggerCharacters"@, m.completion_trigger_characters);
        let o = with_nondefault_field::<bool>(o, "supportsModulesRequest"@, m.supports_modules_request, false);
        let o = with_nondefault_field::<Vec<ColumnDescriptor>>(o, "additionalModuleColumns"@, m.additional_module_columns, Seq::empty());
        let o = with_nondefault_field::<Vec<ChecksumAlgorithm>>(o, "supportedChecksumAlgorithms"@, m.supported_checksum_algorithms, Seq::empty());
        o
    }

    /// The object with the fields of group 3 written.
    pub open spec fn fields_3(o: JsonObject, m: CapabilitiesView) -> JsonObject {
        let o = with_nondefault_field::<bool>(o, "supportsRestartRequest"@, m.supports_restart_request, false);
        let o = with_nondefault_field::<bool>(o, "supportsExceptionOptions"@, m.supports_exception_options, false);
        let o = with_nondefault_field::<bool>(o, "supportsValueFormattingOptions"@, m.supports_value_formatting_options, false);
        let o = with_nondefault_field::<bool>(o, "supportsExceptionInfoRequest"@, m.supports_exception_info_request, false);
        let o = with_nondefault_field::<bool>(o, "supportTerminateDebuggee"@, m.support_terminate_debuggee, false);
        let o = with_nondefault_field::<bool>(o, "supportSuspendDebuggee"@, m.support_suspend_debuggee, false);
        let o = with_nondefault_field::<bool>(o, "supportsDelayedStackTraceLoading"@, m.supports_delayed_stack_trace_loading, false);
        let o = with_nondefault_field::<bool>(o, "supportsLoadedSourcesRequest"@, m.supports_loaded_sources_request, false);
        o
    }

    /// The object with the fields of group 4 written.
    pub open spec fn fields_4(o: JsonObject, m: CapabilitiesView) -> JsonObject {
        let o = with_nondefault_field::<bool>(o, "supportsLogPoints"@, m.supports_log_points, false);
        let o = with_nondefault_field::<bool>(o, "supportsTerminateThreadsRequest"@, m.supports_terminate_threads_request, false);
        let o = with_nondefault_field::<bool>(o, "supportsSetExpression"@, m.supports_set_expression, false);
        let o = with_nondefault_field::<bool>(o, "supportsTerminateRequest"@, m.supports_terminate_request, false);
        let o = with_nondefault_field::<bool>(o, "supportsDataBreakpoints"@, m.supports_data_breakpoints, false);
        let o = with_nondefault_field::<bool>(o, "supportsReadMemoryRequest"@, m.supports_read_memory_request, false);
        let o = with_nondefault_field::<bool>(o, "supportsDisassembleRequest"@, m.supports_disassemble_request, false);
        let o = with_nondefault_field::<bool>(o, "supportsCancelRequest"@, m.supports_cancel_request, false);
        o
    }

    /// The object with the fields of group 5 written.
    pub open spec fn fields_5(o: JsonObject, m: CapabilitiesView) -> JsonObject {
        let o = with_nondefault_field::<bool>(o, "supportsBreakpointLocationsRequest"@, m.supports_breakpoint_locations_request, false);
        let o = with_nondefault_field::<bool>(o, "supportsClipboardContext"@, m.supports_clipboard_context, false);
        let o = with_nondefault_field::<bool>(o, "supportsSteppingGranularity"@, m.supports_stepping_granularity, false);
        let o = with_nondefault_field::<bool>(o, "supportsInstructionBreakpoints"@, m.supports_instruction_breakpoints, false);
        let o = with_nondefault_field::<bool>(o, "supportsExceptionFilterOptions"@, m.supports_exception_filter_options, false);
        o
    }

    /// The fields that are written for a value, group after group.
    pub open spec fn fields(m: CapabilitiesView) -> JsonObject {
        let o = empty_object();
        let o = Capabilities::fields_1(o, m);
        let o = Capabilities::fields_2(o, m);
        let o = Capabilities::fields_3(o, m);
        let o = Capabilities::fields_4(o, m);
        let o = Capabilities::fields_5(o, m);
        o
    }

    /// What the flags of read group 1 decode to: the first failure among them, or
    /// their values.
    pub open spec fn decode_group_1(o: JsonObject) -> Result<(bool, bool, bool, bool, bool, bool, bool, bool,), DecodeErrorView> {
        let supports_configuration_done_request = default_field::<bool>(o, "supportsConfigurationDoneRequest"@, false);
        let supports_function_breakpoints = default_field::<bool>(o, "supportsFunctionBreakpoints"@, false);
        let supports_conditional_breakpoints = default_field::<bool>(o, "supportsConditionalBreakpoints"@, false);
        let supports_hit_conditional_breakpoints = default_field::<bool>(o, "supportsHitConditionalBreakpoints"@, false);
        let supports_evaluate_for_hovers = default_field::<bool>(o, "supportsEvaluateForHovers"@, false);
        let supports_step_back = default_field::<bool>(o, "supportsStepBack"@, false);
        let supports_set_variable = default_field::<bool>(o, "supportsSetVariable"@, false);
        let supports_restart_frame = default_field::<bool>(o, "supportsRestartFrame"@, false);
        if supports_configuration_done_request is Err {
            Err(supports_configuration_done_request->Err_0)
        } else if supports_function_breakpoints is Err {
            Err(supports_function_breakpoints->Err_0)
        } else if supports_conditional_breakpoints is Err {
            Err(supports_conditional_breakpoints->Err_0)
        } else if supports_hit_conditional_breakpoints is Err {
            Err(supports_hit_conditional_breakpoints->Err_0)
        } else if supports_evaluate_for_hovers is Err {
            Err(supports_evaluate_for_hovers->Err_0)
        } else if supports_step_back is Err {
            Err(supports_step_back->Err_0)
        } else if supports_set_variable is Err {
            Err(supports_set_variable->Err_0)
        } else if supports_restart_frame is Err {
            Err(supports_restart_frame->Err_0)
        } else {
            Ok((supports_configuration_done_request->Ok_0, supports_function_breakpoints->Ok_0, supports_conditional_breakpoints->Ok_0, supports_hit_conditional_breakpoints->Ok_0, supports_evaluate_for_hovers->Ok_0, supports_step_back->Ok_0, supports_set_variable->Ok_0, supports_restart_frame->Ok_0,))
        }
    }

    /// What the flags of read group 2 decode to: the first failure among them, or
    /// their values.
    pub open spec fn decode_group_2(o: JsonObject) -> Result<(bool, bool, bool, bool, bool, bool, bool, bool,), DecodeErrorView> {
        let supports_goto_targets_request = default_field::<bool>(o, "supportsGotoTargetsRequest"@, false);
        let supports_step_in_targets_request = default_field::<bool>(o, "supportsStepInTargetsRequest"@, false);
        let supports_completions_request = default_field::<bool>(o, "supportsCompletionsRequest"@, false);
        let supports_modules_request = default_field::<bool>(o, "supportsModulesRequest"@, false);
        let supports_restart_request = default_field::<bool>(o, "supportsRestartRequest"@, false);
        let supports_exception_options = default_field::<bool>(o, "supportsExceptionOptions"@, false);
        let supports_value_formatting_options = default_field::<bool>(o, "supportsValueFormattingOptions"@, false);
        let supports_exception_info_request = default_field::<bool>(o, "supportsExceptionInfoRequest"@, false);
        if supports_goto_targets_request is Err {
            Err(supports_goto_targets_request->Err_0)
        } else if supports_step_in_targets_request is Err {
            Err(supports_step_in_targets_request->Err_0)
        } else if supports_completions_request is Err {
            Err(supports_completions_request->Err_0)
        } else if supports_modules_request is Err {
            Err(supports_modules_request->Err_0)
        } else if supports_restart_request is Err {
            Err(supports_restart_request->Err_0)
        } else if supports_exception_options is Err {
            Err(supports_exception_options->Err_0)
        } else if supports_value_formatting_options is Err {
            Err(supports_value_formatting_options->Err_0)
        } else if supports_exception_info_request is Err {
            Err(supports_exception_info_request->Err_0)
        } else {
            Ok((supports_goto_targets_request->Ok_0, supports_step_in_targets_request->Ok_0, supports_completions_request->Ok_0, supports_modules_request->Ok_0, supports_restart_request->Ok_0, supports_exception_options->Ok_0, supports_value_formatting_options->Ok_0, supports_exception_info_request->Ok_0,))
        }
    }

    /// What the flags of read group 3 decode to: the first failure among them, or
    /// their values.
    pub open spec fn decode_group_3(o: JsonObject) -> Result<(bool, bool, bool, bool, bool, bool, bool, bool,), DecodeErrorView> {
        let support_terminate_debuggee = default_field::<bool>(o, "supportTerminateDebuggee"@, false);
        let support_suspend_debuggee = default_field::<bool>(o, "supportSuspendDebuggee"@, false);
        let supports_delayed_stack_trace_loading = default_field::<bool>(o, "supportsDelayedStackTraceLoading"@, false);
        let supports_loaded_sources_request = default_field::<bool>(o, "supportsLoadedSourcesRequest"@, false);
        let supports_log_points = default_field::<bool>(o, "supportsLogPoints"@, false);
        let supports_terminate_threads_request = default_field::<bool>(o, "supportsTerminateThreadsRequest"@, false);
        let supports_set_expression = default_field::<bool>(o, "supportsSetExpression"@, false);
        let supports_terminate_request = default_field::<bool>(o, "supportsTerminateRequest"@, false);
        if support_terminate_debuggee is Err {
            Err(support_terminate_debuggee->Err_0)
        } else if support_suspend_debuggee is Err {
            Err(support_suspend_debuggee->Err_0)
        } else if supports_delayed_stack_trace_loading is Err {
            Err(supports_delayed_stack_trace_loading->Err_0)
        } else if supports_loaded_sources_request is Err {
            Err(supports_loaded_sources_request->Err_0)
        } else if supports_log_points is Err {
            Err(supports_log_points->Err_0)
        } else if supports_terminate_threads_request is Err {
            Err(supports_terminate_threads_request->Err_0)
        } else if supports_set_expression is Err {
            Err(supports_set_expression->Err_0)
        } else if supports_terminate_request is Err {
            Err(supports_terminate_request->Err_0)
        } else {
            Ok((support_terminate_debuggee->Ok_0, support_suspend_debuggee->Ok_0, supports_delayed_stack_trace_loading->Ok_0, supports_loaded_sources_request->Ok_0, supports_log_points->Ok_0, supports_terminate_threads_request->Ok_0, supports_set_expression->Ok_0, supports_terminate_request->Ok_0,))
        }
    }

    /// What the flags of read group 4 decode to: the first failure among them, or
    /// their values.
    pub open spec fn decode_group_4(o: JsonObject) -> Result<(bool, bool, bool, bool, bool, bool, bool, bool, bool,), DecodeErrorView> {
        let supports_data_breakpoints = default_field::<bool>(o, "supportsDataBreakpoints"@, false);
        let supports_read_memory_request = default_field::<bool>(o, "supportsReadMemoryRequest"@, false);
        let supports_disassemble_request = default_field::<bool>(o, "supportsDisassembleRequest"@, false);
        let supports_cancel_request = default_field::<bool>(o, "supportsCancelRequest"@, false);
        let supports_breakpoint_locations_request = default_field::<bool>(o, "supportsBreakpointLocationsRequest"@, false);
        let supports_clipboard_context = default_field::<bool>(o, "supportsClipboardContext"@, false);
        let supports_stepping_granularity = default_field::<bool>(o, "supportsSteppingGranularity"@, false);
        let supports_instruction_breakpoints = default_field::<bool>(o, "supportsInstructionBreakpoints"@, false);
        let supports_exception_filter_options = default_field::<bool>(o, "supportsExceptionFilterOptions"@, false);
        if supports_data_breakpoints is Err {
            Err(supports_data_breakpoints->Err_0)
        } else if supports_read_memory_request is Err {
            Err(supports_read_memory_request->Err_0)
        } else if supports_disassemble_request is Err {
            Err(supports_disassemble_request->Err_0)
        } else if supports_cancel_request is Err {
            Err(supports_cancel_request->Err_0)
        } else if supports_breakpoint_locations_request is Err {
            Err(supports_breakpoint_locations_request->Err_0)
        } else if supports_clipboard_context is Err {
            Err(supports_clipboard_context->Err_0)
        } else if supports_stepping_granularity is Err {
            Err(supports_stepping_granularity->Err_0)
        } else if supports_instruction_breakpoints is Err {
            Err(supports_instruction_breakpoints->Err_0)
        } else if supports_exception_filter_options is Err {
            Err(supports_exception_filter_options->Err_0)
        } else {
            Ok((supports_data_breakpoints->Ok_0, supports_read_memory_request->Ok_0, supports_disassemble_request->Ok_0, supports_cancel_request->Ok_0, supports_breakpoint_locations_request->Ok_0, supports_clipboard_context->Ok_0, supports_stepping_granularity->Ok_0, supports_instruction_breakpoints->Ok_0, supports_exception_filter_options->Ok_0,))
        }
    }

    /// What the lists of read group 5 decode to: the first failure among them, or
    /// their values.
    pub open spec fn decode_group_5(o: JsonObject) -> Result<(Seq<ExceptionBreakpointsFilterView>, Option<Seq<Seq<char>>>, Seq<ColumnDescriptorView>, Seq<ChecksumAlgorithm>,), DecodeErrorView> {
        let exception_breakpoint_filters = default_field::<Vec<ExceptionBreakpointsFilter>>(o, "exceptionBreakpointFilters"@, Seq::empty());
        let completion_trigger_characters = opt_field::<Vec<String>>(o, "completionTriggerCharacters"@);
        let additional_module_columns = default_field::<Vec<ColumnDescriptor>>(o, "additionalModuleColumns"@, Seq::empty());
        let supported_checksum_algorithms = default_field::<Vec<ChecksumAlgorithm>>(o, "supportedChecksumAlgorithms"@, Seq::empty());
        if exception_breakpoint_filters is Err {
            Err(exception_breakpoint_filters->Err_0)
        } else if completion_trigger_characters is Err {
            Err(completion_trigger_characters->Err_0)
        } else if additional_module_columns is Err {
            Err(additional_module_columns->Err_0)
        } else if supported_checksum_algorithms is Err {
            Err(supported_checksum_algorithms->Err_0)
        } else {
            Ok((exception_breakpoint_filters->Ok_0, completion_trigger_characters->Ok_0, additional_module_columns->Ok_0, supported_checksum_algorithms->Ok_0,))
        }
    }

    /// What the fields of an object decode to: the first failure in the order of
    /// the read groups, or the value.
    pub open spec fn decode_fields(o: JsonObject) -> Result<CapabilitiesView, DecodeErrorView> {
        let g1 = Capabilities::decode_group_1(o);
        let g2 = Capabilities::decode_group_2(o);
        let g3 = Capabilities::decode_group_3(o);
        let g4 = Capabilities::decode_group_4(o);
        let g5 = Capabilities::decode_group_5(o);
        if g1 is Err {
            Err(g1->Err_0)
        } else if g2 is Err {
            Err(g2->Err_0)
        } else if g3 is Err {
            Err(g3->Err_0)
        } else if g4 is Err {
            Err(g4->Err_0)
        } else if g5 is Err {
            Err(g5->Err_0)
        } else {
            Ok(CapabilitiesView {
                supports_configuration_done_request: g1->Ok_0.0,
                supports_function_breakpoints: g1->Ok_0.1,
                supports_conditional_breakpoints: g1->Ok_0.2,
                supports_hit_conditional_breakpoints: g1->Ok_0.3,
                supports_evaluate_for_hovers: g1->Ok_0.4,
                exception_breakpoint_filters: g5->Ok_0.0,
                supports_step_back: g1->Ok_0.5,
                supports_set_variable: g1->Ok_0.6,
                supports_restart_frame: g1->Ok_0.7,
                supports_goto_targets_request: g2->Ok_0.0,
                supports_step_in_targets_request: g2->Ok_0.1,
                supports_completions_request: g2->Ok_0.2,
                completion_trigger_characters: g5->Ok_0.1,
                supports_modules_request: g2->Ok_0.3,
                additional_module_columns: g5->Ok_0.2,
                supported_checksum_algorithms: g5->Ok_0.3,
                supports_restart_request: g2->Ok_0.4,
                supports_exception_options: g2->Ok_0.5,
                supports_value_formatting_options: g2->Ok_0.6,
                supports_exception_info_request: g2->Ok_0.7,
                support_terminate_debuggee: g3->Ok_0.0,
                support_suspend_debuggee: g3->Ok_0.1,
                supports_delayed_stack_trace_loading: g3->Ok_0.2,
                supports_loaded_sources_request: g3->Ok_0.3,
                supports_log_points: g3->Ok_0.4,
                supports_terminate_threads_request: g3->Ok_0.5,
                supports_set_expression: g3->Ok_0.6,
                supports_terminate_request: g3->Ok_0.7,
                supports_data_breakpoints: g4->Ok_0.0,
                supports_read_memory_request: g4->Ok_0.1,
                supports_disassemble_request: g4->Ok_0.2,
                supports_cancel_request: g4->Ok_0.3,
                supports_breakpoint_locations_request: g4->Ok_0.4,
                supports_clipboard_context: g4->Ok_0.5,
                supports_stepping_granularity: g4->Ok_0.6,
                supports_instruction_breakpoints: g4->Ok_0.7,
                supports_exception_filter_options: g4->Ok_0.8,
            })
        }
    }

    /// The place of a field name among the fields, and the number of fields for
    /// any other text.
    #[verifier::opaque]
    pub open spec fn field_index(key: Seq<char>) -> int {
        if key == "supportsConfigurationDoneRequest"@ {
            0
        } else if key == "supportsFunctionBreakpoints"@ {
            1
        } else if key == "supportsConditionalBreakpoints"@ {
            2
        } else if key == "supportsHitConditionalBreakpoints"@ {
            3
        } else if key == "supportsEvaluateForHovers"@ {
            4
        } else if key == "exceptionBreakpointFilters"@ {
            5
        } else if key == "supportsStepBack"@ {
            6
        } else if key == "supportsSetVariable"@ {
            7
        } else if key == "supportsRestartFrame"@ {
            8
        } else if key == "supportsGotoTargetsRequest"@ {
            9
        } else if key == "supportsStepInTargetsRequest"@ {
            10
        } else if key == "supportsCompletionsRequest"@ {
            11
        } else if key == "completionTriggerCharacters"@ {
            12
        } else if key == "supportsModulesRequest"@ {
            13
        } else if key == "additionalModuleColumns"@ {
            14
        } else if key == "supportedChecksumAlgorithms"@ {
            15
        } else if key == "supportsRestartRequest"@ {
            16
        } else if key == "supportsExceptionOptions"@ {
            17
        } else if key == "supportsValueFormattingOptions"@ {
            18
        } else if key == "supportsExceptionInfoRequest"@ {
            19
        } else if key == "supportTerminateDebuggee"@ {
            20
        } else if key == "supportSuspendDebuggee"@ {
            21
        } else if key == "supportsDelayedStackTraceLoading"@ {
            22
        } else if key == "supportsLoadedSourcesRequest"@ {
            23
        } else if key == "supportsLogPoints"@ {
            24
        } else if key == "supportsTerminateThreadsRequest"@ {
            25
        } else if key == "supportsSetExpression"@ {
            26
        } else if key == "supportsTerminateRequest"@ {
            27
        } else if key == "supportsDataBreakpoints"@ {
            28
        } else if key == "supportsReadMemoryRequest"@ {
            29
        } else if key == "supportsDisassembleRequest"@ {
            30
        } else if key == "supportsCancelRequest"@ {
            31
        } else if key == "supportsBreakpointLocationsRequest"@ {
            32
        } else if key == "supportsClipboardContext"@ {
            33
        } else if key == "supportsSteppingGranularity"@ {
            34
        } else if key == "supportsInstructionBreakpoints"@ {
            35
        } else if key == "supportsExceptionFilterOptions"@ {
            36
        } else {
            37
        }
    }

    /// Each field name has a place of its own, so no two are the same text.
    pub proof fn lemma_field_index()
        ensures
            Capabilities::field_index("supportsConfigurationDoneRequest"@) == 0,
            Capabilities::field_index("supportsFunctionBreakpoints"@) == 1,
            Capabilities::field_index("supportsConditionalBreakpoints"@) == 2,
            Capabilities::field_index("supportsHitConditionalBreakpoints"@) == 3,
            Capabilities::field_index("supportsEvaluateForHovers"@) == 4,
            Capabilities::field_index("exceptionBreakpointFilters"@) == 5,
            Capabilities::field_index("supportsStepBack"@) == 6,
            Capabilities::field_index("supportsSetVariable"@) == 7,
            Capabilities::field_index("supportsRestartFrame"@) == 8,
            Capabilities::field_index("supportsGotoTargetsRequest"@) == 9,
            Capabilities::field_index("supportsStepInTargetsRequest"@) == 10,
            Capabilities::field_index("supportsCompletionsRequest"@) == 11,
            Capabilities::field_index("completionTriggerCharacters"@) == 12,
            Capabilities::field_index("supportsModulesRequest"@) == 13,
            Capabilities::field_index("additionalModuleColumns"@) == 14,
            Capabilities::field_index("supportedChecksumAlgorithms"@) == 15,
            Capabilities::field_index("supportsRestartRequest"@) == 16,
            Capabilities::field_index("supportsExceptionOptions"@) == 17,
            Capabilities::field_index("supportsValueFormattingOptions"@) == 18,
            Capabilities::field_index("supportsExceptionInfoRequest"@) == 19,
            Capabilities::field_index("supportTerminateDebuggee"@) == 20,
            Capabilities::field_index("supportSuspendDebuggee"@) == 21,
            Capabilities::field_index("supportsDelayedStackTraceLoading"@) == 22,
            Capabilities::field_index("supportsLoadedSourcesRequest"@) == 23,
            Capabilities::field_index("supportsLogPoints"@) == 24,
            Capabilities::field_index("supportsTerminateThreadsRequest"@) == 25,
            Capabilities::field_index("supportsSetExpression"@) == 26,
            Capabilities::field_index("supportsTerminateRequest"@) == 27,
            Capabilities::field_index("supportsDataBreakpoints"@) == 28,
            Capabilities::field_index("supportsReadMemoryRequest"@) == 29,
            Capabilities::field_index("supportsDisassembleRequest"@) == 30,
            Capabilities::field_index("supportsCancelRequest"@) == 31,
            Capabilities::field_index("supportsBreakpointLocationsRequest"@) == 32,
            Capabilities::field_index("supportsClipboardContext"@) == 33,
            Capabilities::field_index("supportsSteppingGranularity"@) == 34,
            Capabilities::field_index("supportsInstructionBreakpoints"@) == 35,
            Capabilities::field_index("supportsExceptionFilterOptions"@) == 36,
    {
        reveal(Capabilities::field_index);
        reveal_strlit("supportsConfigurationDoneRequest");
        reveal_strlit("supportsFunctionBreakpoints");
        reveal_strlit("supportsConditionalBreakpoints");
        reveal_strlit("supportsHitConditionalBreakpoints");
        reveal_strlit("supportsEvaluateForHovers");
        reveal_strlit("exceptionBreakpointFilters");
        reveal_strlit("supportsStepBack");
        reveal_strlit("supportsSetVariable");
        reveal_strlit("supportsRestartFrame");
        reveal_strlit("supportsGotoTargetsRequest");
        reveal_strlit("supportsStepInTargetsRequest");
        reveal_strlit("supportsCompletionsRequest");
        reveal_strlit("completionTriggerCharacters");
        reveal_strlit("supportsModulesRequest");
        reveal_strlit("additionalModuleColumns");
        reveal_strlit("supportedChecksumAlgorithms");
        reveal_strlit("supportsRestartRequest");
        reveal_strlit("supportsExceptionOptions");
        reveal_strlit("supportsValueFormattingOptions");
        reveal_strlit("supportsExceptionInfoRequest");
        reveal_strlit("supportTerminateDebuggee");
        reveal_strlit("supportSuspendDebuggee");
        reveal_strlit("supportsDelayedStackTraceLoading");
        reveal_strlit("supportsLoadedSourcesRequest");
        reveal_strlit("supportsLogPoints");
        reveal_strlit("supportsTerminateThreadsRequest");
        reveal_strlit("supportsSetExpression");
        reveal_strlit("supportsTerminateRequest");
        reveal_strlit("supportsDataBreakpoints");
        reveal_strlit("supportsReadMemoryRequest");
        reveal_strlit("supportsDisassembleRequest");
        reveal_strlit("supportsCancelRequest");
        reveal_strlit("supportsBreakpointLocationsRequest");
        reveal_strlit("supportsClipboardContext");
        reveal_strlit("supportsSteppingGranularity");
        reveal_strlit("supportsInstructionBreakpoints");
        reveal_strlit("supportsExceptionFilterOptions");
        assert("supportsConfigurationDoneRequest"@.len() == 32);
        assert("supportsFunctionBreakpoints"@.len() == 27);
        assert("supportsConditionalBreakpoints"@.len() == 30);
        assert("supportsHitConditionalBreakpoints"@.len() == 33);
        assert("supportsEvaluateForHovers"@.len() == 25);
        assert("exceptionBreakpointFilters"@.len() == 26);
        assert("supportsStepBack"@.len() == 16);
        assert("supportsSetVariable"@.len() == 19);
        assert("supportsRestartFrame"@.len() == 20);
        assert("supportsGotoTargetsRequest"@.len() == 26);
        assert("supportsStepInTargetsRequest"@.len() == 28);
        assert("supportsCompletionsRequest"@.len() == 26);
        assert("completionTriggerCharacters"@.len() == 27);
        assert("supportsModulesRequest"@.len() == 22);
        assert("additionalModuleColumns"@.len() == 23);
        assert("supportedChecksumAlgorithms"@.len() == 27);
        assert("supportsRestartRequest"@.len() == 22);
        assert("supportsExceptionOptions"@.len() == 24);
        assert("supportsValueFormattingOptions"@.len() == 30);
        assert("supportsExceptionInfoRequest"@.len() == 28);
        assert("supportTerminateDebuggee"@.len() == 24);
        assert("supportSuspendDebuggee"@.len() == 22);
        assert("supportsDelayedStackTraceLoading"@.len() == 32);
        assert("supportsLoadedSourcesRequest"@.len() == 28);
        assert("supportsLogPoints"@.len() == 17);
        assert("supportsTerminateThreadsRequest"@.len() == 31);
        assert("supportsSetExpression"@.len() == 21);
        assert("supportsTerminateRequest"@.len() == 24);
        assert("supportsDataBreakpoints"@.len() == 23);
        assert("supportsReadMemoryRequest"@.len() == 25);
        assert("supportsDisassembleRequest"@.len() == 26);
        assert("supportsCancelRequest"@.len() == 21);
        assert("supportsBreakpointLocationsRequest"@.len() == 34);
        assert("supportsClipboardContext"@.len() == 24);
        assert("supportsSteppingGranularity"@.len() == 27);
        assert("supportsInstructionBreakpoints"@.len() == 30);
        assert("supportsExceptionFilterOptions"@.len() == 30);
        assert("supportsConfigurationDoneRequest"@[8] != "supportsDelayedStackTraceLoading"@[8]);
        assert("supportsFunctionBreakpoints"@[0] != "completionTriggerCharacters"@[0]);
        assert("supportsFunctionBreakpoints"@[7] != "supportedChecksumAlgorithms"@[7]);
        assert("supportsFunctionBreakpoints"@[8] != "supportsSteppingGranularity"@[8]);
        assert("supportsConditionalBreakpoints"@[8] != "supportsValueFormattingOptions"@[8]);
        assert("supportsConditionalBreakpoints"@[8] != "supportsInstructionBreakpoints"@[8]);
        assert("supportsConditionalBreakpoints"@[8] != "supportsExceptionFilterOptions"@[8]);
        assert("supportsEvaluateForHovers"@[8] != "supportsReadMemoryRequest"@[8]);
        assert("exceptionBreakpointFilters"@[0] != "supportsGotoTargetsRequest"@[0]);
        assert("exceptionBreakpointFilters"@[0] != "supportsCompletionsRequest"@[0]);
        assert("exceptionBreakpointFilters"@[0] != "supportsDisassembleRequest"@[0]);
        assert("supportsGotoTargetsRequest"@[8] != "supportsCompletionsRequest"@[8]);
        assert("supportsGotoTargetsRequest"@[8] != "supportsDisassembleRequest"@[8]);
        assert("supportsStepInTargetsRequest"@[8] != "supportsExceptionInfoRequest"@[8]);
        assert("supportsStepInTargetsRequest"@[8] != "supportsLoadedSourcesRequest"@[8]);
        assert("supportsCompletionsRequest"@[8] != "supportsDisassembleRequest"@[8]);
        assert("completionTriggerCharacters"@[0] != "supportedChecksumAlgorithms"@[0]);
        assert("completionTriggerCharacters"@[0] != "supportsSteppingGranularity"@[0]);
        assert("supportsModulesRequest"@[8] != "supportsRestartRequest"@[8]);
        assert("supportsModulesRequest"@[7] != "supportSuspendDebuggee"@[7]);
        assert("additionalModuleColumns"@[0] != "supportsDataBreakpoints"@[0]);
        assert("supportedChecksumAlgorithms"@[7] != "supportsSteppingGranularity"@[7]);
        assert("supportsRestartRequest"@[7] != "supportSuspendDebuggee"@[7]);
        assert("supportsExceptionOptions"@[7] != "supportTerminateDebuggee"@[7]);
        assert("supportsExceptionOptions"@[8] != "supportsTerminateRequest"@[8]);
        assert("supportsExceptionOptions"@[8] != "supportsClipboardContext"@[8]);
        assert("supportsValueFormattingOptions"@[8] != "supportsInstructionBreakpoints"@[8]);
        assert("supportsValueFormattingOptions"@[8] != "supportsExceptionFilterOptions"@[8]);
        assert("supportsExceptionInfoRequest"@[8] != "supportsLoadedSourcesRequest"@[8]);
        assert("supportTerminateDebuggee"@[7] != "supportsTerminateRequest"@[7]);
        assert("supportTerminateDebuggee"@[7] != "supportsClipboardContext"@[7]);
        assert("supportsSetExpression"@[8] != "supportsCancelRequest"@[8]);
        assert("supportsTerminateRequest"@[8] != "supportsClipboardContext"@[8]);
        assert("supportsInstructionBreakpoints"@[8] != "supportsExceptionFilterOptions"@[8]);
    }

    fn put_fields_1(&self, o: &mut serde_json::Map<String, serde_json::Value>)
        ensures
            object_model(*final(o)) == Capabilities::fields_1(object_model(*old(o)), self@),
    {
        put_flag(o, "supportsConfigurationDoneRequest", self.supports_configuration_done_request);
        put_flag(o, "supportsFunctionBreakpoints", self.supports_function_breakpoints);
        put_flag(o, "supportsConditionalBreakpoints", self.supports_conditional_breakpoints);
        put_flag(o, "supportsHitConditionalBreakpoints", self.supports_hit_conditional_breakpoints);
        put_flag(o, "supportsEvaluateForHovers", self.supports_evaluate_for_hovers);
        put_nonempty::<ExceptionBreakpointsFilter>(o, "exceptionBreakpointFilters", &self.exception_breakpoint_filters);
        put_flag(o, "supportsStepBack", self.supports_step_back);
        put_flag(o, "supportsSetVariable", self.supports_set_variable);
    }

    fn put_fields_2(&self, o: &mut serde_json::Map<String, serde_json::Value>)
        ensures
            object_model(*final(o)) == Capabilities::fields_2(object_model(*old(o)), self@),
    {
        put_flag(o, "supportsRestartFrame", self.supports_restart_frame);
        put_flag(o, "supportsGotoTargetsRequest", self.supports_goto_targets_request);
        put_flag(o, "supportsStepInTargetsRequest", self.supports_step_in_targets_request);
        put_flag(o, "supportsCompletionsRequest", self.supports_completions_request);
        put_opt::<Vec<String>>(o, "completionTriggerCharacters", &self.completion_trigger_characters);
        put_flag(o, "supportsModulesRequest", self.supports_modules_request);
        put_nonempty::<ColumnDescriptor>(o, "additionalModuleColumns", &self.additional_module_columns);
        put_nonempty::<ChecksumAlgorithm>(o, "supportedChecksumAlgorithms", &self.supported_checksum_algorithms);
    }

    fn put_fields_3(&self, o: &mut serde_json::Map<String, serde_json::Value>)
        ensures
            object_model(*final(o)) == Capabilities::fields_3(object_model(*old(o)), self@),
    {
        put_flag(o, "supportsRestartRequest", self.supports_restart_request);
        put_flag(o, "supportsExceptionOptions", self.supports_exception_options);
        put_flag(o, "supportsValueFormattingOptions", self.supports_value_formatting_options);
        put_flag(o, "supportsExceptionInfoRequest", self.supports_exception_info_request);
        put_flag(o, "supportTerminateDebuggee", self.support_terminate_debuggee);
        put_flag(o, "supportSuspendDebuggee", self.support_suspend_debuggee);
        put_flag(o, "supportsDelayedStackTraceLoading", self.supports_delayed_stack_trace_loading);
        put_flag(o, "supportsLoadedSourcesRequest", self.supports_loaded_sources_request);
    }

    fn put_fields_4(&self, o: &mut serde_json::Map<String, serde_json::Value>)
        ensures
            object_model(*final(o)) == Capabilities::fields_4(object_model(*old(o)), self@),
    {
        put_flag(o, "supportsLogPoints", self.supports_log_points);
        put_flag(o, "supportsTerminateThreadsRequest", self.supports_terminate_threads_request);
        put_flag(o, "supportsSetExpression", self.supports_set_expression);
        put_flag(o, "supportsTerminateRequest", self.supports_terminate_request);
        put_flag(o, "supportsDataBreakpoints", self.supports_data_breakpoints);
        put_flag(o, "supportsReadMemoryRequest", self.supports_read_memory_request);
        put_flag(o, "supportsDisassembleRequest", self.supports_disassemble_request);
        put_flag(o, "supportsCancelRequest", self.supports_cancel_request);
    }

    fn put_fields_5(&self, o: &mut serde_json::Map<String, serde_json::Value>)
        ensures
            object_model(*final(o)) == Capabilities::fields_5(object_model(*old(o)), self@),
    {
        put_flag(o, "supportsBreakpointLocationsRequest", self.supports_breakpoint_locations_request);
        put_flag(o, "supportsClipboardContext", self.supports_clipboard_context);
        put_flag(o, "supportsSteppingGranularity", self.supports_stepping_granularity);
        put_flag(o, "supportsInstructionBreakpoints", self.supports_instruction_breakpoints);
        put_flag(o, "supportsExceptionFilterOptions", self.supports_exception_filter_options);
    }

    fn get_group_1(o: &serde_json::Map<String, serde_json::Value>) -> (r: Result<
        (bool, bool, bool, bool, bool, bool, bool, bool,),
        DecodeError,
    >)
        ensures
            match r {
                Ok(x) => Capabilities::decode_group_1(object_model(*o)) matches Ok(m) && m == x,
                Err(e) => Capabilities::decode_group_1(object_model(*o)) matches Err(f) && f == e@,
            },
    {
        let supports_configuration_done_request = get_or::<bool>(o, "supportsConfigurationDoneRequest", false)?;
        let supports_function_breakpoints = get_or::<bool>(o, "supportsFunctionBreakpoints", false)?;
        let supports_conditional_breakpoints = get_or::<bool>(o, "supportsConditionalBreakpoints", false)?;
        let supports_hit_conditional_breakpoints = get_or::<bool>(o, "supportsHitConditionalBreakpoints", false)?;
        let supports_evaluate_for_hovers = get_or::<bool>(o, "supportsEvaluateForHovers", false)?;
        let supports_step_back = get_or::<bool>(o, "supportsStepBack", false)?;
        let supports_set_variable = get_or::<bool>(o, "supportsSetVariable", false)?;
        let supports_restart_frame = get_or::<bool>(o, "supportsRestartFrame", false)?;
        Ok((supports_configuration_done_request, supports_function_breakpoints, supports_conditional_breakpoints, supports_hit_conditional_breakpoints, supports_evaluate_for_hovers, supports_step_back, supports_set_variable, supports_restart_frame,))
    }

    fn get_group_2(o: &serde_json::Map<String, serde_json::Value>) -> (r: Result<
        (bool, bool, bool, bool, bool, bool, bool, bool,),
        DecodeError,
    >)
        ensures
            match r {
                Ok(x) => Capabilities::decode_group_2(object_model(*o)) matches Ok(m) && m == x,
                Err(e) => Capabilities::decode_group_2(object_model(*o)) matches Err(f) && f == e@,
            },
    {
        let supports_goto_targets_request = get_or::<bool>(o, "supportsGotoTargetsRequest", false)?;
        let supports_step_in_targets_request = get_or::<bool>(o, "supportsStepInTargetsRequest", false)?;
        let supports_completions_request = get_or::<bool>(o, "supportsCompletionsRequest", false)?;
        let supports_modules_request = get_or::<bool>(o, "supportsModulesRequest", false)?;
        let supports_restart_request = get_or::<bool>(o, "supportsRestartRequest", false)?;
        let supports_exception_options = get_or::<bool>(o, "supportsExceptionOptions", false)?;
        let supports_value_formatting_options = get_or::<bool>(o, "supportsValueFormattingOptions", false)?;
        let supports_exception_info_request = get_or::<bool>(o, "supportsExceptionInfoRequest", false)?;
        Ok((supports_goto_targets_request, supports_step_in_targets_request, supports_completions_request, supports_modules_request, supports_restart_request, supports_exception_options, supports_value_formatting_options, supports_exception_info_request,))
    }

    fn get_group_3(o: &serde_json::Map<String, serde_json::Value>) -> (r: Result<
        (bool, bool, bool, bool, bool, bool, bool, bool,),
        DecodeError,
    >)
        ensures
            match r {
                Ok(x) => Capabilities::decode_group_3(object_model(*o)) matches Ok(m) && m == x,
                Err(e) => Capabilities::decode_group_3(object_model(*o)) matches Err(f) && f == e@,
            },
    {
        let support_terminate_debuggee = get_or::<bool>(o, "supportTerminateDebuggee", false)?;
        let support_suspend_debuggee = get_or::<bool>(o, "supportSuspendDebuggee", false)?;
        let supports_delayed_stack_trace_loading = get_or::<bool>(o, "supportsDelayedStackTraceLoading", false)?;
        let supports_loaded_sources_request = get_or::<bool>(o, "supportsLoadedSourcesRequest", false)?;
        let supports_log_points = get_or::<bool>(o, "supportsLogPoints", false)?;
        let supports_terminate_threads_request = get_or::<bool>(o, "supportsTerminateThreadsRequest", false)?;
        let supports_set_expression = get_or::<bool>(o, "supportsSetExpression", false)?;
        let supports_terminate_request = get_or::<bool>(o, "supportsTerminateRequest", false)?;
        Ok((support_terminate_debuggee, support_suspend_debuggee, supports_delayed_stack_trace_loading, supports_loaded_sources_request, supports_log_points, supports_terminate_threads_request, supports_set_expression, supports_terminate_request,))
    }

    fn get_group_4(o: &serde_json::Map<String, serde_json::Value>) -> (r: Result<
        (bool, bool, bool, bool, bool, bool, bool, bool, bool,),
        DecodeError,
    >)
        ensures
            match r {
                Ok(x) => Capabilities::decode_group_4(object_model(*o)) matches Ok(m) && m == x,
                Err(e) => Capabilities::decode_group_4(object_model(*o)) matches Err(f) && f == e@,
            },
    {
        let supports_data_breakpoints = get_or::<bool>(o, "supportsDataBreakpoints", false)?;
        let supports_read_memory_request = get_or::<bool>(o, "supportsReadMemoryRequest", false)?;
        let supports_disassemble_request = get_or::<bool>(o, "supportsDisassembleRequest", false)?;
        let supports_cancel_request = get_or::<bool>(o, "supportsCancelRequest", false)?;
        let supports_breakpoint_locations_request = get_or::<bool>(o, "supportsBreakpointLocationsRequest", false)?;
        let supports_clipboard_context = get_or::<bool>(o, "supportsClipboardContext", false)?;
        let supports_stepping_granularity = get_or::<bool>(o, "supportsSteppingGranularity", false)?;
        let supports_instruction_breakpoints = get_or::<bool>(o, "supportsInstructionBreakpoints", false)?;
        let supports_exception_filter_options = get_or::<bool>(o, "supportsExceptionFilterOptions", false)?;
        Ok((supports_data_breakpoints, supports_read_memory_request, supports_disassemble_request, supports_cancel_request, supports_breakpoint_locations_request, supports_clipboard_context, supports_stepping_granularity, supports_instruction_breakpoints, supports_exception_filter_options,))
    }

    fn get_group_5(o: &serde_json::Map<String, serde_json::Value>) -> (r: Result<
        (Vec<ExceptionBreakpointsFilter>, Option<Vec<String>>, Vec<ColumnDescriptor>, Vec<ChecksumAlgorithm>,),
        DecodeError,
    >)
        ensures
            match r {
                Ok(x) => Capabilities::decode_group_5(object_model(*o)) matches Ok(m)
                    && m.0 == x.0.model()
                    && m.1 == x.1.model()
                    && m.2 == x.2.model()
                    && m.3 == x.3.model(),
                Err(e) => Capabilities::decode_group_5(object_model(*o)) matches Err(f) && f == e@,
            },
    {
        let exception_breakpoint_filters = get_or_empty::<ExceptionBreakpointsFilter>(o, "exceptionBreakpointFilters")?;
        let completion_trigger_characters = get_opt::<Vec<String>>(o, "completionTriggerCharacters")?;
        let additional_module_columns = get_or_empty::<ColumnDescriptor>(o, "additionalModuleColumns")?;
        let supported_checksum_algorithms = get_or_empty::<ChecksumAlgorithm>(o, "supportedChecksumAlgorithms")?;
        Ok((exception_breakpoint_filters, completion_trigger_characters, additional_module_columns, supported_checksum_algorithms,))
    }

    /// Writing group 1 leaves the fields of the other groups as they were.
    pub proof fn lemma_fields_1_frame(o: JsonObject, m: CapabilitiesView, key: Seq<char>)
        requires
            !(0 <= Capabilities::field_index(key) <= 7),
        ensures
            field(Capabilities::fields_1(o, m), key) == field(o, key),
    {
        broadcast use group_field_rules;

        Capabilities::lemma_field_index();
    }

    /// Each field of group 1 reads as what was written under its name.
    pub proof fn lemma_fields_1_own(o: JsonObject, m: CapabilitiesView)
        ensures
            field(Capabilities::fields_1(o, m), "supportsConfigurationDoneRequest"@) == if m.supports_configuration_done_request != false {
                Some(bool::encode_json(m.supports_configuration_done_request))
            } else {
                field(o, "supportsConfigurationDoneRequest"@)
            },
            field(Capabilities::fields_1(o, m), "supportsFunctionBreakpoints"@) == if m.supports_function_breakpoints != false {
                Some(bool::encode_json(m.supports_function_breakpoints))
            } else {
                field(o, "supportsFunctionBreakpoints"@)
            },
            field(Capabilities::fields_1(o, m), "supportsConditionalBreakpoints"@) == if m.supports_conditional_breakpoints != false {
                Some(bool::encode_json(m.supports_conditional_breakpoints))
            } else {
                field(o, "supportsConditionalBreakpoints"@)
            },
            field(Capabilities::fields_1(o, m), "supportsHitConditionalBreakpoints"@) == if m.supports_hit_conditional_breakpoints != false {
                Some(bool::encode_json(m.supports_hit_conditional_breakpoints))
            } else {
                field(o, "supportsHitConditionalBreakpoints"@)
            },
            field(Capabilities::fields_1(o, m), "supportsEvaluateForHovers"@) == if m.supports_evaluate_for_hovers != false {
                Some(bool::encode_json(m.supports_evaluate_for_hovers))
            } else {
                field(o, "supportsEvaluateForHovers"@)
            },
            field(Capabilities::fields_1(o, m), "exceptionBreakpointFilters"@) == if m.exception_breakpoint_filters != Seq::<ExceptionBreakpointsFilterView>::empty() {
                Some(Vec::<ExceptionBreakpointsFilter>::encode_json(m.exception_breakpoint_filters))
            } else {
                field(o, "exceptionBreakpointFilters"@)
            },
            field(Capabilities::fields_1(o, m), "supportsStepBack"@) == if m.supports_step_back != false {
                Some(bool::encode_json(m.supports_step_back))
            } else {
                field(o, "supportsStepBack"@)
            },
            field(Capabilities::fields_1(o, m), "supportsSetVariable"@) == if m.supports_set_variable != false {
                Some(bool::encode_json(m.supports_set_variable))
            } else {
                field(o, "supportsSetVariable"@)
            },
    {
        broadcast use group_field_rules;

        Capabilities::lemma_field_index();
    }

    /// Writing group 2 leaves the fields of the other groups as they were.
    pub proof fn lemma_fields_2_frame(o: JsonObject, m: CapabilitiesView, key: Seq<char>)
        requires
            !(8 <= Capabilities::field_index(key) <= 15),
        ensures
            field(Capabilities::fields_2(o, m), key) == field(o, key),
    {
        broadcast use group_field_rules;

        Capabilities::lemma_field_index();
    }

    /// Each field of group 2 reads as what was written under its name.
    pub proof fn lemma_fields_2_own(o: JsonObject, m: CapabilitiesView)
        ensures
            field(Capabilities::fields_2(o, m), "supportsRestartFrame"@) == if m.supports_restart_frame != false {
                Some(bool::encode_json(m.supports_restart_frame))
            } else {
                field(o, "supportsRestartFrame"@)
            },
            field(Capabilities::fields_2(o, m), "supportsGotoTargetsRequest"@) == if m.supports_goto_targets_request != false {
                Some(bool::encode_json(m.supports_goto_targets_request))
            } else {
                field(o, "supportsGotoTargetsRequest"@)
            },
            field(Capabilities::fields_2(o, m), "supportsStepInTargetsRequest"@) == if m.supports_step_in_targets_request != false {
                Some(bool::encode_json(m.supports_step_in_targets_request))
            } else {
                field(o, "supportsStepInTargetsRequest"@)
            },
            field(Capabilities::fields_2(o, m), "supportsCompletionsRequest"@) == if m.supports_completions_request != false {
                Some(bool::encode_json(m.supports_completions_request))
            } else {
                field(o, "supportsCompletionsRequest"@)
            },
            field(Capabilities::fields_2(o, m), "completionTriggerCharacters"@) == if m.completion_trigger_characters is Some {
                Some(Vec::<String>::encode_json(m.completion_trigger_characters->Some_0))
            } else {
                field(o, "completionTriggerCharacters"@)
            },
            field(Capabilities::fields_2(o, m), "supportsModulesRequest"@) == if m.supports_modules_request != false {
                Some(bool::encode_json(m.supports_modules_request))
            } else {
                field(o, "supportsModulesRequest"@)
            },
            field(Capabilities::fields_2(o, m), "additionalModuleColumns"@) == if m.additional_module_columns != Seq::<ColumnDescriptorView>::empty() {
                Some(Vec::<ColumnDescriptor>::encode_json(m.additional_module_columns))
            } else {
                field(o, "additionalModuleColumns"@)
            },
            field(Capabilities::fields_2(o, m), "supportedChecksumAlgorithms"@) == if m.supported_checksum_algorithms != Seq::<ChecksumAlgorithm>::empty() {
                Some(Vec::<ChecksumAlgorithm>::encode_json(m.supported_checksum_algorithms))
            } else {
                field(o, "supportedChecksumAlgorithms"@)
            },
    {
        broadcast use group_field_rules;

        Capabilities::lemma_field_index();
    }

    /// Writing group 3 leaves the fields of the other groups as they were.
    pub proof fn lemma_fields_3_frame(o: JsonObject, m: CapabilitiesView, key: Seq<char>)
        requires
            !(16 <= Capabilities::field_index(key) <= 23),
        ensures
            field(Capabilities::fields_3(o, m), key) == field(o, key),
    {
        broadcast use group_field_rules;

        Capabilities::lemma_field_index();
    }

    /// Each field of group 3 reads as what was written under its name.
    pub proof fn lemma_fields_3_own(o: JsonObject, m: CapabilitiesView)
        ensures
            field(Capabilities::fields_3(o, m), "supportsRestartRequest"@) == if m.supports_restart_request != false {
                Some(bool::encode_json(m.supports_restart_request))
            } else {
                field(o, "supportsRestartRequest"@)
            },
            field(Capabilities::fields_3(o, m), "supportsExceptionOptions"@) == if m.supports_exception_options != false {
                Some(bool::encode_json(m.supports_exception_options))
            } else {
                field(o, "supportsExceptionOptions"@)
            },
            field(Capabilities::fields_3(o, m), "supportsValueFormattingOptions"@) == if m.supports_value_formatting_options != false {
                Some(bool::encode_json(m.supports_value_formatting_options))
            } else {
                field(o, "supportsValueFormattingOptions"@)
            },
            field(Capabilities::fields_3(o, m), "supportsExceptionInfoRequest"@) == if m.supports_exception_info_request != false {
                Some(bool::encode_json(m.supports_exception_info_request))
            } else {
                field(o, "supportsExceptionInfoRequest"@)
            },
            field(Capabilities::fields_3(o, m), "supportTerminateDebuggee"@) == if m.support_terminate_debuggee != false {
                Some(bool::encode_json(m.support_terminate_debuggee))
            } else {
                field(o, "supportTerminateDebuggee"@)
            },
            field(Capabilities::fields_3(o, m), "supportSuspendDebuggee"@) == if m.support_suspend_debuggee != false {
                Some(bool::encode_json(m.support_suspend_debuggee))
            } else {
                field(o, "supportSuspendDebuggee"@)
            },
            field(Capabilities::fields_3(o, m), "supportsDelayedStackTraceLoading"@) == if m.supports_delayed_stack_trace_loading != false {
                Some(bool::encode_json(m.supports_delayed_stack_trace_loading))
            } else {
                field(o, "supportsDelayedStackTraceLoading"@)
            },
            field(Capabilities::fields_3(o, m), "supportsLoadedSourcesRequest"@) == if m.supports_loaded_sources_request != false {
                Some(bool::encode_json(m.supports_loaded_sources_request))
            } else {
                field(o, "supportsLoadedSourcesRequest"@)
            },
    {
        broadcast use group_field_rules;

        Capabilities::lemma_field_index();
    }

    /// Writing group 4 leaves the fields of the other groups as they were.
    pub proof fn lemma_fields_4_frame(o: JsonObject, m: CapabilitiesView, key: Seq<char>)
        requires
            !(24 <= Capabilities::field_index(key) <= 31),
        ensures
            field(Capabilities::fields_4(o, m), key) == field(o, key),
    {
        broadcast use group_field_rules;

        Capabilities::lemma_field_index();
    }

    /// Each field of group 4 reads as what was written under its name.
    pub proof fn lemma_fields_4_own(o: JsonObject, m: CapabilitiesView)
        ensures
            field(Capabilities::fields_4(o, m), "supportsLogPoints"@) == if m.supports_log_points != false {
                Some(bool::encode_json(m.supports_log_points))
            } else {
                field(o, "supportsLogPoints"@)
            },
            field(Capabilities::fields_4(o, m), "supportsTerminateThreadsRequest"@) == if m.supports_terminate_threads_request != false {
                Some(bool::encode_json(m.supports_terminate_threads_request))
            } else {
                field(o, "supportsTerminateThreadsRequest"@)
            },
            field(Capabilities::fields_4(o, m), "supportsSetExpression"@) == if m.supports_set_expression != false {
                Some(bool::encode_json(m.supports_set_expression))
            } else {
                field(o, "supportsSetExpression"@)
            },
            field(Capabilities::fields_4(o, m), "supportsTerminateRequest"@) == if m.supports_terminate_request != false {
                Some(bool::encode_json(m.supports_terminate_request))
            } else {
                field(o, "supportsTerminateRequest"@)
            },
            field(Capabilities::fields_4(o, m), "supportsDataBreakpoints"@) == if m.supports_data_breakpoints != false {
                Some(bool::encode_json(m.supports_data_breakpoints))
            } else {
                field(o, "supportsDataBreakpoints"@)
            },
            field(Capabilities::fields_4(o, m), "supportsReadMemoryRequest"@) == if m.supports_read_memory_request != false {
                Some(bool::encode_json(m.supports_read_memory_request))
            } else {
                field(o, "supportsReadMemoryRequest"@)
            },
            field(Capabilities::fields_4(o, m), "supportsDisassembleRequest"@) == if m.supports_disassemble_request != false {
                Some(bool::encode_json(m.supports_disassemble_request))
            } else {
                field(o, "supportsDisassembleRequest"@)
            },
            field(Capabilities::fields_4(o, m), "supportsCancelRequest"@) == if m.supports_cancel_request != false {
                Some(bool::encode_json(m.supports_cancel_request))
            } else {
                field(o, "supportsCancelRequest"@)
            },
    {
        broadcast use group_field_rules;

        Capabilities::lemma_field_index();
    }

    /// Writing group 5 leaves the fields of the other groups as they were.
    pub proof fn lemma_fields_5_frame(o: JsonObject, m: CapabilitiesView, key: Seq<char>)
        requires
            !(32 <= Capabilities::field_index(key) <= 36),
        ensures
            field(Capabilities::fields_5(o, m), key) == field(o, key),
    {
        broadcast use group_field_rules;

        Capabilities::lemma_field_index();
    }

    /// Each field of group 5 reads as what was written under its name.
    pub proof fn lemma_fields_5_own(o: JsonObject, m: CapabilitiesView)
        ensures
            field(Capabilities::fields_5(o, m), "supportsBreakpointLocationsRequest"@) == if m.supports_breakpoint_locations_request != false {
                Some(bool::encode_json(m.supports_breakpoint_locations_request))
            } else {
                field(o, "supportsBreakpointLocationsRequest"@)
            },
            field(Capabilities::fields_5(o, m), "supportsClipboardContext"@) == if m.supports_clipboard_context != false {
                Some(bool::encode_json(m.supports_clipboard_context))
            } else {
                field(o, "supportsClipboardContext"@)
            },
            field(Capabilities::fields_5(o, m), "supportsSteppingGranularity"@) == if m.supports_stepping_granularity != false {
                Some(bool::encode_json(m.supports_stepping_granularity))
            } else {
                field(o, "supportsSteppingGranularity"@)
            },
            field(Capabilities::fields_5(o, m), "supportsInstructionBreakpoints"@) == if m.supports_instruction_breakpoints != false {
                Some(bool::encode_json(m.supports_instruction_breakpoints))
            } else {
                field(o, "supportsInstructionBreakpoints"@)
            },
            field(Capabilities::fields_5(o, m), "supportsExceptionFilterOptions"@) == if m.supports_exception_filter_options != false {
                Some(bool::encode_json(m.supports_exception_filter_options))
            } else {
                field(o, "supportsExceptionFilterOptions"@)
            },
    {
        broadcast use group_field_rules;

        Capabilities::lemma_field_index();
    }

    /// The fields of read group 1 are read back as they were written.
    pub proof fn lemma_group_1_round_trip(m: CapabilitiesView)
        requires
            Capabilities::wire_ok(m),
        ensures
            Capabilities::decode_group_1(Capabilities::fields(m)) matches Ok(x) && x == (
                m.supports_configuration_done_request,
                m.supports_function_breakpoints,
                m.supports_conditional_breakpoints,
                m.supports_hit_conditional_breakpoints,
                m.supports_evaluate_for_hovers,
                m.supports_step_back,
                m.supports_set_variable,
                m.supports_restart_frame,
            ),
    {
        broadcast use lemma_field_of_empty;

        reveal(default_field);
        Capabilities::lemma_field_index();
        let o0 = empty_object();
        let o1 = Capabilities::fields_1(o0, m);
        let o2 = Capabilities::fields_2(o1, m);
        let o3 = Capabilities::fields_3(o2, m);
        let o4 = Capabilities::fields_4(o3, m);
        let o5 = Capabilities::fields_5(o4, m);
        Capabilities::lemma_fields_1_own(o0, m);
        Capabilities::lemma_fields_2_own(o1, m);
        Capabilities::lemma_fields_2_frame(o1, m, "supportsConfigurationDoneRequest"@);
        Capabilities::lemma_fields_3_frame(o2, m, "supportsConfigurationDoneRequest"@);
        Capabilities::lemma_fields_4_frame(o3, m, "supportsConfigurationDoneRequest"@);
        Capabilities::lemma_fields_5_frame(o4, m, "supportsConfigurationDoneRequest"@);
        bool::lemma_round_trip(m.supports_configuration_done_request);
        assert(default_field::<bool>(o5, "supportsConfigurationDoneRequest"@, false) matches Ok(v) && v == m.supports_configuration_done_request);
        Capabilities::lemma_fields_2_frame(o1, m, "supportsFunctionBreakpoints"@);
        Capabilities::lemma_fields_3_frame(o2, m, "supportsFunctionBreakpoints"@);
        Capabilities::lemma_fields_4_frame(o3, m, "supportsFunctionBreakpoints"@);
        Capabilities::lemma_fields_5_frame(o4, m, "supportsFunctionBreakpoints"@);
        bool::lemma_round_trip(m.supports_function_breakpoints);
        assert(default_field::<bool>(o5, "supportsFunctionBreakpoints"@, false) matches Ok(v) && v == m.supports_function_breakpoints);
        Capabilities::lemma_fields_2_frame(o1, m, "supportsConditionalBreakpoints"@);
        Capabilities::lemma_fields_3_frame(o2, m, "supportsConditionalBreakpoints"@);
        Capabilities::lemma_fields_4_frame(o3, m, "supportsConditionalBreakpoints"@);
        Capabilities::lemma_fields_5_frame(o4, m, "supportsConditionalBreakpoints"@);
        bool::lemma_round_trip(m.supports_conditional_breakpoints);
        assert(default_field::<bool>(o5, "supportsConditionalBreakpoints"@, false) matches Ok(v) && v == m.supports_conditional_breakpoints);
        Capabilities::lemma_fields_2_frame(o1, m, "supportsHitConditionalBreakpoints"@);
        Capabilities::lemma_fields_3_frame(o2, m, "supportsHitConditionalBreakpoints"@);
        Capabilities::lemma_fields_4_frame(o3, m, "supportsHitConditionalBreakpoints"@);
        Capabilities::lemma_fields_5_frame(o4, m, "supportsHitConditionalBreakpoints"@);
        bool::lemma_round_trip(m.supports_hit_conditional_breakpoints);
        assert(default_field::<bool>(o5, "supportsHitConditionalBreakpoints"@, false) matches Ok(v) && v == m.supports_hit_conditional_breakpoints);
        Capabilities::lemma_fields_2_frame(o1, m, "supportsEvaluateForHovers"@);
        Capabilities::lemma_fields_3_frame(o2, m, "supportsEvaluateForHovers"@);
        Capabilities::lemma_fields_4_frame(o3, m, "supportsEvaluateForHovers"@);
        Capabilities::lemma_fields_5_frame(o4, m, "supportsEvaluateForHovers"@);
        bool::lemma_round_trip(m.supports_evaluate_for_hovers);
        assert(default_field::<bool>(o5, "supportsEvaluateForHovers"@, false) matches Ok(v) && v == m.supports_evaluate_for_hovers);
        Capabilities::lemma_fields_2_frame(o1, m, "supportsStepBack"@);
        Capabilities::lemma_fields_3_frame(o2, m, "supportsStepBack"@);
        Capabilities::lemma_fields_4_frame(o3, m, "supportsStepBack"@);
        Capabilities::lemma_fields_5_frame(o4, m, "supportsStepBack"@);
        bool::lemma_round_trip(m.supports_step_back);
        assert(default_field::<bool>(o5, "supportsStepBack"@, false) matches Ok(v) && v == m.supports_step_back);
        Capabilities::lemma_fields_2_frame(o1, m, "supportsSetVariable"@);
        Capabilities::lemma_fields_3_frame(o2, m, "supportsSetVariable"@);
        Capabilities::lemma_fields_4_frame(o3, m, "supportsSetVariable"@);
        Capabilities::lemma_fields_5_frame(o4, m, "supportsSetVariable"@);
        bool::lemma_round_trip(m.supports_set_variable);
        assert(default_field::<bool>(o5, "supportsSetVariable"@, false) matches Ok(v) && v == m.supports_set_variable);
        Capabilities::lemma_fields_1_frame(o0, m, "supportsRestartFrame"@);
        Capabilities::lemma_fields_3_frame(o2, m, "supportsRestartFrame"@);
        Capabilities::lemma_fields_4_frame(o3, m, "supportsRestartFrame"@);
        Capabilities::lemma_fields_5_frame(o4, m, "supportsRestartFrame"@);
        bool::lemma_round_trip(m.supports_restart_frame);
        assert(default_field::<bool>(o5, "supportsRestartFrame"@, false) matches Ok(v) && v == m.supports_restart_frame);
    }

    /// A field that the type does not know changes nothing about what read
    /// group 1 decodes to.
    pub proof fn lemma_group_1_unknown_field(o: JsonObject, key: Seq<char>, x: Json)
        requires
            !Capabilities::field_names().contains(key),
        ensures
            Capabilities::decode_group_1(store(o, key, x)) == Capabilities::decode_group_1(o),
    {
        broadcast use group_field_rules;

        reveal(default_field);
    }

    /// The fields of read group 2 are read back as they were written.
    pub proof fn lemma_group_2_round_trip(m: CapabilitiesView)
        requires
            Capabilities::wire_ok(m),
        ensures
            Capabilities::decode_group_2(Capabilities::fields(m)) matches Ok(x) && x == (
                m.supports_goto_targets_request,
                m.supports_step_in_targets_request,
                m.supports_completions_request,
                m.supports_modules_request,
                m.supports_restart_request,
                m.supports_exception_options,
                m.supports_value_formatting_options,
                m.supports_exception_info_request,
            ),
    {
        broadcast use lemma_field_of_empty;

        reveal(default_field);
        Capabilities::lemma_field_index();
        let o0 = empty_object();
        let o1 = Capabilities::fields_1(o0, m);
        let o2 = Capabilities::fields_2(o1, m);
        let o3 = Capabilities::fields_3(o2, m);
        let o4 = Capabilities::fields_4(o3, m);
        let o5 = Capabilities::fields_5(o4, m);
        Capabilities::lemma_fields_2_own(o1, m);
        Capabilities::lemma_fields_3_own(o2, m);
        Capabilities::lemma_fields_1_frame(o0, m, "supportsGotoTargetsRequest"@);
        Capabilities::lemma_fields_3_frame(o2, m, "supportsGotoTargetsRequest"@);
        Capabilities::lemma_fields_4_frame(o3, m, "supportsGotoTargetsRequest"@);
        Capabilities::lemma_fields_5_frame(o4, m, "supportsGotoTargetsRequest"@);
        bool::lemma_round_trip(m.supports_goto_targets_request);
        assert(default_field::<bool>(o5, "supportsGotoTargetsRequest"@, false) matches Ok(v) && v == m.supports_goto_targets_request);
        Capabilities::lemma_fields_1_frame(o0, m, "supportsStepInTargetsRequest"@);
        Capabilities::lemma_fields_3_frame(o2, m, "supportsStepInTargetsRequest"@);
        Capabilities::lemma_fields_4_frame(o3, m, "supportsStepInTargetsRequest"@);
        Capabilities::lemma_fields_5_frame(o4, m, "supportsStepInTargetsRequest"@);
        bool::lemma_round_trip(m.supports_step_in_targets_request);
        assert(default_field::<bool>(o5, "supportsStepInTargetsRequest"@, false) matches Ok(v) && v == m.supports_step_in_targets_request);
        Capabilities::lemma_fields_1_frame(o0, m, "supportsCompletionsRequest"@);
        Capabilities::lemma_fields_3_frame(o2, m, "supportsCompletionsRequest"@);
        Capabilities::lemma_fields_4_frame(o3, m, "supportsCompletionsRequest"@);
        Capabilities::lemma_fields_5_frame(o4, m, "supportsCompletionsRequest"@);
        bool::lemma_round_trip(m.supports_completions_request);
        assert(default_field::<bool>(o5, "supportsCompletionsRequest"@, false) matches Ok(v) && v == m.supports_completions_request);
        Capabilities::lemma_fields_1_frame(o0, m, "supportsModulesRequest"@);
        Capabilities::lemma_fields_3_frame(o2, m, "supportsModulesRequest"@);
        Capabilities::lemma_fields_4_frame(o3, m, "supportsModulesRequest"@);
        Capabilities::lemma_fields_5_frame(o4, m, "supportsModulesRequest"@);
        bool::lemma_round_trip(m.supports_modules_request);
        assert(default_field::<bool>(o5, "supportsModulesRequest"@, false) matches Ok(v) && v == m.supports_modules_request);
        Capabilities::lemma_fields_1_frame(o0, m, "supportsRestartRequest"@);
        Capabilities::lemma_fields_2_frame(o1, m, "supportsRestartRequest"@);
        Capabilities::lemma_fields_4_frame(o3, m, "supportsRestartRequest"@);
        Capabilities::lemma_fields_5_frame(o4, m, "supportsRestartRequest"@);
        bool::lemma_round_trip(m.supports_restart_request);
        assert(default_field::<bool>(o5, "supportsRestartRequest"@, false) matches Ok(v) && v == m.supports_restart_request);
        Capabilities::lemma_fields_1_frame(o0, m, "supportsExceptionOptions"@);
        Capabilities::lemma_fields_2_frame(o1, m, "supportsExceptionOptions"@);
        Capabilities::lemma_fields_4_frame(o3, m, "supportsExceptionOptions"@);
        Capabilities::lemma_fields_5_frame(o4, m, "supportsExceptionOptions"@);
        bool::lemma_round_trip(m.supports_exception_options);
        assert(default_field::<bool>(o5, "supportsExceptionOptions"@, false) matches Ok(v) && v == m.supports_exception_options);
        Capabilities::lemma_fields_1_frame(o0, m, "supportsValueFormattingOptions"@);
        Capabilities::lemma_fields_2_frame(o1, m, "supportsValueFormattingOptions"@);
        Capabilities::lemma_fields_4_frame(o3, m, "supportsValueFormattingOptions"@);
        Capabilities::lemma_fields_5_frame(o4, m, "supportsValueFormattingOptions"@);
        bool::lemma_round_trip(m.supports_value_formatting_options);
        assert(default_field::<bool>(o5, "supportsValueFormattingOptions"@, false) matches Ok(v) && v == m.supports_value_formatting_options);
        Capabilities::lemma_fields_1_frame(o0, m, "supportsExceptionInfoRequest"@);
        Capabilities::lemma_fields_2_frame(o1, m, "supportsExceptionInfoRequest"@);
        Capabilities::lemma_fields_4_frame(o3, m, "supportsExceptionInfoRequest"@);
        Capabilities::lemma_fields_5_frame(o4, m, "supportsExceptionInfoRequest"@);
        bool::lemma_round_trip(m.supports_exception_info_request);
        assert(default_field::<bool>(o5, "supportsExceptionInfoRequest"@, false) matches Ok(v) && v == m.supports_exception_info_request);
    }

    /// A field that the type does not know changes nothing about what read
    /// group 2 decodes to.
    pub proof fn lemma_group_2_unknown_field(o: JsonObject, key: Seq<char>, x: Json)
        requires
            !Capabilities::field_names().contains(key),
        ensures
            Capabilities::decode_group_2(store(o, key, x)) == Capabilities::decode_group_2(o),
    {
        broadcast use group_field_rules;

        reveal(default_field);
    }

    /// The fields of read group 3 are read back as they were written.
    pub proof fn lemma_group_3_round_trip(m: CapabilitiesView)
        requires
            Capabilities::wire_ok(m),
        ensures
            Capabilities::decode_group_3(Capabilities::fields(m)) matches Ok(x) && x == (
                m.support_terminate_debuggee,
                m.support_suspend_debuggee,
                m.supports_delayed_stack_trace_loading,
                m.supports_loaded_sources_request,
                m.supports_log_points,
                m.supports_terminate_threads_request,
                m.supports_set_expression,
                m.supports_terminate_request,
            ),
    {
        broadcast use lemma_field_of_empty;

        reveal(default_field);
        Capabilities::lemma_field_index();
        let o0 = empty_object();
        let o1 = Capabilities::fields_1(o0, m);
        let o2 = Capabilities::fields_2(o1, m);
        let o3 = Capabilities::fields_3(o2, m);
        let o4 = Capabilities::fields_4(o3, m);
        let o5 = Capabilities::fields_5(o4, m);
        Capabilities::lemma_fields_3_own(o2, m);
        Capabilities::lemma_fields_4_own(o3, m);
        Capabilities::lemma_fields_1_frame(o0, m, "supportTerminateDebuggee"@);
        Capabilities::lemma_fields_2_frame(o1, m, "supportTerminateDebuggee"@);
        Capabilities::lemma_fields_4_frame(o3, m, "supportTerminateDebuggee"@);
        Capabilities::lemma_fields_5_frame(o4, m, "supportTerminateDebuggee"@);
        bool::lemma_round_trip(m.support_terminate_debuggee);
        assert(default_field::<bool>(o5, "supportTerminateDebuggee"@, false) matches Ok(v) && v == m.support_terminate_debuggee);
        Capabilities::lemma_fields_1_frame(o0, m, "supportSuspendDebuggee"@);
        Capabilities::lemma_fields_2_frame(o1, m, "supportSuspendDebuggee"@);
        Capabilities::lemma_fields_4_frame(o3, m, "supportSuspendDebuggee"@);
        Capabilities::lemma_fields_5_frame(o4, m, "supportSuspendDebuggee"@);
        bool::lemma_round_trip(m.support_suspend_debuggee);
        assert(default_field::<bool>(o5, "supportSuspendDebuggee"@, false) matches Ok(v) && v == m.support_suspend_debuggee);
        Capabilities::lemma_fields_1_frame(o0, m, "supportsDelayedStackTraceLoading"@);
        Capabilities::lemma_fields_2_frame(o1, m, "supportsDelayedStackTraceLoading"@);
        Capabilities::lemma_fields_4_frame(o3, m, "supportsDelayedStackTraceLoading"@);
        Capabilities::lemma_fields_5_frame(o4, m, "supportsDelayedStackTraceLoading"@);
        bool::lemma_round_trip(m.supports_delayed_stack_trace_loading);
        assert(default_field::<bool>(o5, "supportsDelayedStackTraceLoading"@, false) matches Ok(v) && v == m.supports_delayed_stack_trace_loading);
        Capabilities::lemma_fields_1_frame(o0, m, "supportsLoadedSourcesRequest"@);
        Capabilities::lemma_fields_2_frame(o1, m, "supportsLoadedSourcesRequest"@);
        Capabilities::lemma_fields_4_frame(o3, m, "supportsLoadedSourcesRequest"@);
        Capabilities::lemma_fields_5_frame(o4, m, "supportsLoadedSourcesRequest"@);
        bool::lemma_round_trip(m.supports_loaded_sources_request);
        assert(default_field::<bool>(o5, "supportsLoadedSourcesRequest"@, false) matches Ok(v) && v == m.supports_loaded_sources_request);
        Capabilities::lemma_fields_1_frame(o0, m, "supportsLogPoints"@);
        Capabilities::lemma_fields_2_frame(o1, m, "supportsLogPoints"@);
        Capabilities::lemma_fields_3_frame(o2, m, "supportsLogPoints"@);
        Capabilities::lemma_fields_5_frame(o4, m, "supportsLogPoints"@);
        bool::lemma_round_trip(m.supports_log_points);
        assert(default_field::<bool>(o5, "supportsLogPoints"@, false) matches Ok(v) && v == m.supports_log_points);
        Capabilities::lemma_fields_1_frame(o0, m, "supportsTerminateThreadsRequest"@);
        Capabilities::lemma_fields_2_frame(o1, m, "supportsTerminateThreadsRequest"@);
        Capabilities::lemma_fields_3_frame(o2, m, "supportsTerminateThreadsRequest"@);
        Capabilities::lemma_fields_5_frame(o4, m, "supportsTerminateThreadsRequest"@);
        bool::lemma_round_trip(m.supports_terminate_threads_request);
        assert(default_field::<bool>(o5, "supportsTerminateThreadsRequest"@, false) matches Ok(v) && v == m.supports_terminate_threads_request);
        Capabilities::lemma_fields_1_frame(o0, m, "supportsSetExpression"@);
        Capabilities::lemma_fields_2_frame(o1, m, "supportsSetExpression"@);
        Capabilities::lemma_fields_3_frame(o2, m, "supportsSetExpression"@);
        Capabilities::lemma_fields_5_frame(o4, m, "supportsSetExpression"@);
        bool::lemma_round_trip(m.supports_set_expression);
        assert(default_field::<bool>(o5, "supportsSetExpression"@, false) matches Ok(v) && v == m.supports_set_expression);
        Capabilities::lemma_fields_1_frame(o0, m, "supportsTerminateRequest"@);
        Capabilities::lemma_fields_2_frame(o1, m, "supportsTerminateRequest"@);
        Capabilities::lemma_fields_3_frame(o2, m, "supportsTerminateRequest"@);
        Capabilities::lemma_fields_5_frame(o4, m, "supportsTerminateRequest"@);
        bool::lemma_round_trip(m.supports_terminate_request);
        assert(default_field::<bool>(o5, "supportsTerminateRequest"@, false) matches Ok(v) && v == m.supports_terminate_request);
    }

    /// A field that the type does not know changes nothing about what read
    /// group 3 decodes to.
    pub proof fn lemma_group_3_unknown_field(o: JsonObject, key: Seq<char>, x: Json)
        requires
            !Capabilities::field_names().contains(key),
        ensures
            Capabilities::decode_group_3(store(o, key, x)) == Capabilities::decode_group_3(o),
    {
        broadcast use group_field_rules;

        reveal(default_field);
    }

    /// The fields of read group 4 are read back as they were written.
    pub proof fn lemma_group_4_round_trip(m: CapabilitiesView)
        requires
            Capabilities::wire_ok(m),
        ensures
            Capabilities::decode_group_4(Capabilities::fields(m)) matches Ok(x) && x == (
                m.supports_data_breakpoints,
                m.supports_read_memory_request,
                m.supports_disassemble_request,
                m.supports_cancel_request,
                m.supports_breakpoint_locations_request,
                m.supports_clipboard_context,
                m.supports_stepping_granularity,
                m.supports_instruction_breakpoints,
                m.supports_exception_filter_options,
            ),
    {
        broadcast use lemma_field_of_empty;

        reveal(default_field);
        Capabilities::lemma_field_index();
        let o0 = empty_object();
        let o1 = Capabilities::fields_1(o0, m);
        let o2 = Capabilities::fields_2(o1, m);
        let o3 = Capabilities::fields_3(o2, m);
        let o4 = Capabilities::fields_4(o3, m);
        let o5 = Capabilities::fields_5(o4, m);
        Capabilities::lemma_fields_4_own(o3, m);
        Capabilities::lemma_fields_5_own(o4, m);
        Capabilities::lemma_fields_1_frame(o0, m, "supportsDataBreakpoints"@);
        Capabilities::lemma_fields_2_frame(o1, m, "supportsDataBreakpoints"@);
        Capabilities::lemma_fields_3_frame(o2, m, "supportsDataBreakpoints"@);
        Capabilities::lemma_fields_5_frame(o4, m, "supportsDataBreakpoints"@);
        bool::lemma_round_trip(m.supports_data_breakpoints);
        assert(default_field::<bool>(o5, "supportsDataBreakpoints"@, false) matches Ok(v) && v == m.supports_data_breakpoints);
        Capabilities::lemma_fields_1_frame(o0, m, "supportsReadMemoryRequest"@);
        Capabilities::lemma_fields_2_frame(o1, m, "supportsReadMemoryRequest"@);
        Capabilities::lemma_fields_3_frame(o2, m, "supportsReadMemoryRequest"@);
        Capabilities::lemma_fields_5_frame(o4, m, "supportsReadMemoryRequest"@);
        bool::lemma_round_trip(m.supports_read_memory_request);
        assert(default_field::<bool>(o5, "supportsReadMemoryRequest"@, false) matches Ok(v) && v == m.supports_read_memory_request);
        Capabilities::lemma_fields_1_frame(o0, m, "supportsDisassembleRequest"@);
        Capabilities::lemma_fields_2_frame(o1, m, "supportsDisassembleRequest"@);
        Capabilities::lemma_fields_3_frame(o2, m, "supportsDisassembleRequest"@);
        Capabilities::lemma_fields_5_frame(o4, m, "supportsDisassembleRequest"@);
        bool::lemma_round_trip(m.supports_disassemble_request);
        assert(default_field::<bool>(o5, "supportsDisassembleRequest"@, false) matches Ok(v) && v == m.supports_disassemble_request);
        Capabilities::lemma_fields_1_frame(o0, m, "supportsCancelRequest"@);
        Capabilities::lemma_fields_2_frame(o1, m, "supportsCancelRequest"@);
        Capabilities::lemma_fields_3_frame(o2, m, "supportsCancelRequest"@);
        Capabilities::lemma_fields_5_frame(o4, m, "supportsCancelRequest"@);
        bool::lemma_round_trip(m.supports_cancel_request);
        assert(default_field::<bool>(o5, "supportsCancelRequest"@, false) matches Ok(v) && v == m.supports_cancel_request);
        Capabilities::lemma_fields_1_frame(o0, m, "supportsBreakpointLocationsRequest"@);
        Capabilities::lemma_fields_2_frame(o1, m, "supportsBreakpointLocationsRequest"@);
        Capabilities::lemma_fields_3_frame(o2, m, "supportsBreakpointLocationsRequest"@);
        Capabilities::lemma_fields_4_frame(o3, m, "supportsBreakpointLocationsRequest"@);
        bool::lemma_round_trip(m.supports_breakpoint_locations_request);
        assert(default_field::<bool>(o5, "supportsBreakpointLocationsRequest"@, false) matches Ok(v) && v == m.supports_breakpoint_locations_request);
        Capabilities::lemma_fields_1_frame(o0, m, "supportsClipboardContext"@);
        Capabilities::lemma_fields_2_frame(o1, m, "supportsClipboardContext"@);
        Capabilities::lemma_fields_3_frame(o2, m, "supportsClipboardContext"@);
        Capabilities::lemma_fields_4_frame(o3, m, "supportsClipboardContext"@);
        bool::lemma_round_trip(m.supports_clipboard_context);
        assert(default_field::<bool>(o5, "supportsClipboardContext"@, false) matches Ok(v) && v == m.supports_clipboard_context);
        Capabilities::lemma_fields_1_frame(o0, m, "supportsSteppingGranularity"@);
        Capabilities::lemma_fields_2_frame(o1, m, "supportsSteppingGranularity"@);
        Capabilities::lemma_fields_3_frame(o2, m, "supportsSteppingGranularity"@);
        Capabilities::lemma_fields_4_frame(o3, m, "supportsSteppingGranularity"@);
        bool::lemma_round_trip(m.supports_stepping_granularity);
        assert(default_field::<bool>(o5, "supportsSteppingGranularity"@, false) matches Ok(v) && v == m.supports_stepping_granularity);
        Capabilities::lemma_fields_1_frame(o0, m, "supportsInstructionBreakpoints"@);
        Capabilities::lemma_fields_2_frame(o1, m, "supportsInstructionBreakpoints"@);
        Capabilities::lemma_fields_3_frame(o2, m, "supportsInstructionBreakpoints"@);
        Capabilities::lemma_fields_4_frame(o3, m, "supportsInstructionBreakpoints"@);
        bool::lemma_round_trip(m.supports_instruction_breakpoints);
        assert(default_field::<bool>(o5, "supportsInstructionBreakpoints"@, false) matches Ok(v) && v == m.supports_instruction_breakpoints);
        Capabilities::lemma_fields_1_frame(o0, m, "supportsExceptionFilterOptions"@);
        Capabilities::lemma_fields_2_frame(o1, m, "supportsExceptionFilterOptions"@);
        Capabilities::lemma_fields_3_frame(o2, m, "supportsExceptionFilterOptions"@);
        Capabilities::lemma_fields_4_frame(o3, m, "supportsExceptionFilterOptions"@);
        bool::lemma_round_trip(m.supports_exception_filter_options);
        assert(default_field::<bool>(o5, "supportsExceptionFilterOptions"@, false) matches Ok(v) && v == m.supports_exception_filter_options);
    }

    /// A field that the type does not know changes nothing about what read
    /// group 4 decodes to.
    pub proof fn lemma_group_4_unknown_field(o: JsonObject, key: Seq<char>, x: Json)
        requires
            !Capabilities::field_names().contains(key),
        ensures
            Capabilities::decode_group_4(store(o, key, x)) == Capabilities::decode_group_4(o),
    {
        broadcast use group_field_rules;

        reveal(default_field);
    }

    /// The fields of read group 5 are read back as they were written.
    pub proof fn lemma_group_5_round_trip(m: CapabilitiesView)
        requires
            Capabilities::wire_ok(m),
        ensures
            Capabilities::decode_group_5(Capabilities::fields(m)) matches Ok(x) && x == (
                m.exception_breakpoint_filters,
                m.completion_trigger_characters,
                m.additional_module_columns,
                m.supported_checksum_algorithms,
            ),
    {
        broadcast use lemma_field_of_empty;

        reveal(default_field);
        reveal(opt_field);
        Capabilities::lemma_field_index();
        let o0 = empty_object();
        let o1 = Capabilities::fields_1(o0, m);
        let o2 = Capabilities::fields_2(o1, m);
        let o3 = Capabilities::fields_3(o2, m);
        let o4 = Capabilities::fields_4(o3, m);
        let o5 = Capabilities::fields_5(o4, m);
        Capabilities::lemma_fields_1_own(o0, m);
        Capabilities::lemma_fields_2_own(o1, m);
        Capabilities::lemma_fields_2_frame(o1, m, "exceptionBreakpointFilters"@);
        Capabilities::lemma_fields_3_frame(o2, m, "exceptionBreakpointFilters"@);
        Capabilities::lemma_fields_4_frame(o3, m, "exceptionBreakpointFilters"@);
        Capabilities::lemma_fields_5_frame(o4, m, "exceptionBreakpointFilters"@);
        Vec::<ExceptionBreakpointsFilter>::lemma_round_trip(m.exception_breakpoint_filters);
        assert(default_field::<Vec<ExceptionBreakpointsFilter>>(o5, "exceptionBreakpointFilters"@, Seq::empty()) matches Ok(v) && v == m.exception_breakpoint_filters);
        Capabilities::lemma_fields_1_frame(o0, m, "completionTriggerCharacters"@);
        Capabilities::lemma_fields_3_frame(o2, m, "completionTriggerCharacters"@);
        Capabilities::lemma_fields_4_frame(o3, m, "completionTriggerCharacters"@);
        Capabilities::lemma_fields_5_frame(o4, m, "completionTriggerCharacters"@);
        Option::<Vec<String>>::lemma_round_trip(m.completion_trigger_characters);
        assert(opt_field::<Vec<String>>(o5, "completionTriggerCharacters"@) matches Ok(v) && v == m.completion_trigger_characters);
        Capabilities::lemma_fields_1_frame(o0, m, "additionalModuleColumns"@);
        Capabilities::lemma_fields_3_frame(o2, m, "additionalModuleColumns"@);
        Capabilities::lemma_fields_4_frame(o3, m, "additionalModuleColumns"@);
        Capabilities::lemma_fields_5_frame(o4, m, "additionalModuleColumns"@);
        Vec::<ColumnDescriptor>::lemma_round_trip(m.additional_module_columns);
        assert(default_field::<Vec<ColumnDescriptor>>(o5, "additionalModuleColumns"@, Seq::empty()) matches Ok(v) && v == m.additional_module_columns);
        Capabilities::lemma_fields_1_frame(o0, m, "supportedChecksumAlgorithms"@);
        Capabilities::lemma_fields_3_frame(o2, m, "supportedChecksumAlgorithms"@);
        Capabilities::lemma_fields_4_frame(o3, m, "supportedChecksumAlgorithms"@);
        Capabilities::lemma_fields_5_frame(o4, m, "supportedChecksumAlgorithms"@);
        Vec::<ChecksumAlgorithm>::lemma_round_trip(m.supported_checksum_algorithms);
        assert(default_field::<Vec<ChecksumAlgorithm>>(o5, "supportedChecksumAlgorithms"@, Seq::empty()) matches Ok(v) && v == m.supported_checksum_algorithms);
    }

    /// A field that the type does not know changes nothing about what read
    /// group 5 decodes to.
    pub proof fn lemma_group_5_unknown_field(o: JsonObject, key: Seq<char>, x: Json)
        requires
            !Capabilities::field_names().contains(key),
        ensures
            Capabilities::decode_group_5(store(o, key, x)) == Capabilities::decode_group_5(o),
    {
        broadcast use group_field_rules;

        reveal(default_field);
        reveal(opt_field);
    }

    /// Writes the fields of the value into a fresh object.
    pub fn to_object(&self) -> (o: serde_json::Map<String, serde_json::Value>)
        ensures
            object_model(o) == Capabilities::fields(self@),
    {
        let mut o = object_new();
        self.put_fields_1(&mut o);
        self.put_fields_2(&mut o);
        self.put_fields_3(&mut o);
        self.put_fields_4(&mut o);
        self.put_fields_5(&mut o);
        o
    }

    /// Reads a value from the fields of an object.
    pub fn from_object(o: &serde_json::Map<String, serde_json::Value>) -> (r: Result<
        Capabilities,
        DecodeError,
    >)
        ensures
            match r {
                Ok(x) => Capabilities::decode_fields(object_model(*o)) matches Ok(m) && m == x@,
                Err(e) => Capabilities::decode_fields(object_model(*o)) matches Err(f) && f == e@,
            },
    {
        let g1 = Capabilities::get_group_1(o)?;
        let g2 = Capabilities::get_group_2(o)?;
        let g3 = Capabilities::get_group_3(o)?;
        let g4 = Capabilities::get_group_4(o)?;
        let g5 = Capabilities::get_group_5(o)?;
        Ok(
            Capabilities {
                supports_configuration_done_request: g1.0,
                supports_function_breakpoints: g1.1,
                supports_conditional_breakpoints: g1.2,
                supports_hit_conditional_breakpoints: g1.3,
                supports_evaluate_for_hovers: g1.4,
                exception_breakpoint_filters: g5.0,
                supports_step_back: g1.5,
                supports_set_variable: g1.6,
                supports_restart_frame: g1.7,
                supports_goto_targets_request: g2.0,
                supports_step_in_targets_request: g2.1,
                supports_completions_request: g2.2,
                completion_trigger_characters: g5.1,
                supports_modules_request: g2.3,
                additional_module_columns: g5.2,
                supported_checksum_algorithms: g5.3,
                supports_restart_request: g2.4,
                supports_exception_options: g2.5,
                supports_value_formatting_options: g2.6,
                supports_exception_info_request: g2.7,
                support_terminate_debuggee: g3.0,
                support_suspend_debuggee: g3.1,
                supports_delayed_stack_trace_loading: g3.2,
                supports_loaded_sources_request: g3.3,
                supports_log_points: g3.4,
                supports_terminate_threads_request: g3.5,
                supports_set_expression: g3.6,
                supports_terminate_request: g3.7,
                supports_data_breakpoints: g4.0,
                supports_read_memory_request: g4.1,
                supports_disassemble_request: g4.2,
                supports_cancel_request: g4.3,
                supports_breakpoint_locations_request: g4.4,
                supports_clipboard_context: g4.5,
                supports_stepping_granularity: g4.6,
                supports_instruction_breakpoints: g4.7,
                supports_exception_filter_options: g4.8,
            },
        )
    }
}

/// The capabilities are read and written in groups of a few fields, which
/// keeps each proof obligation small.
impl Wire for Capabilities {
    type Model = CapabilitiesView;

    open spec fn model(&self) -> CapabilitiesView {
        self@
    }

    open spec fn wire_ok(m: CapabilitiesView) -> bool {
        true
    }

    open spec fn encode_json(m: CapabilitiesView) -> Json {
        Json::Object(Capabilities::fields(m))
    }

    open spec fn decode_json(j: Json) -> Result<CapabilitiesView, DecodeErrorView> {
        match j {
            Json::Object(o) => Capabilities::decode_fields(o),
            _ => Err(DecodeErrorView::InvalidType),
        }
    }

    fn to_value(&self) -> (r: serde_json::Value) {
        value_object(self.to_object())
    }

    fn from_value(v: &serde_json::Value) -> (r: Result<Capabilities, DecodeError>) {
        match value_as_object(v) {
            Some(o) => Capabilities::from_object(o),
            None => Err(DecodeError::InvalidType),
        }
    }

    proof fn lemma_round_trip(m: CapabilitiesView) {
        Capabilities::lemma_group_1_round_trip(m);
        Capabilities::lemma_group_2_round_trip(m);
        Capabilities::lemma_group_3_round_trip(m);
        Capabilities::lemma_group_4_round_trip(m);
        Capabilities::lemma_group_5_round_trip(m);
        let back = Capabilities::decode_fields(Capabilities::fields(m));
        assert(back is Ok);
        assert(back->Ok_0 =~= m);
    }
}

impl Record for Capabilities {
    open spec fn field_names() -> Set<Seq<char>> {
        set!["supportsConfigurationDoneRequest"@, "supportsFunctionBreakpoints"@, "supportsConditionalBreakpoints"@, "supportsHitConditionalBreakpoints"@, "supportsEvaluateForHovers"@, "exceptionBreakpointFilters"@, "supportsStepBack"@, "supportsSetVariable"@, "supportsRestartFrame"@, "supportsGotoTargetsRequest"@, "supportsStepInTargetsRequest"@, "supportsCompletionsRequest"@, "completionTriggerCharacters"@, "supportsModulesRequest"@, "additionalModuleColumns"@, "supportedChecksumAlgorithms"@, "supportsRestartRequest"@, "supportsExceptionOptions"@, "supportsValueFormattingOptions"@, "supportsExceptionInfoRequest"@, "supportTerminateDebuggee"@, "supportSuspendDebuggee"@, "supportsDelayedStackTraceLoading"@, "supportsLoadedSourcesRequest"@, "supportsLogPoints"@, "supportsTerminateThreadsRequest"@, "supportsSetExpression"@, "supportsTerminateRequest"@, "supportsDataBreakpoints"@, "supportsReadMemoryRequest"@, "supportsDisassembleRequest"@, "supportsCancelRequest"@, "supportsBreakpointLocationsRequest"@, "supportsClipboardContext"@, "supportsSteppingGranularity"@, "supportsInstructionBreakpoints"@, "supportsExceptionFilterOptions"@]
    }

    proof fn lemma_unknown_field(o: JsonObject, key: Seq<char>, x: Json) {
        Capabilities::lemma_group_1_unknown_field(o, key, x);
        Capabilities::lemma_group_2_unknown_field(o, key, x);
        Capabilities::lemma_group_3_unknown_field(o, key, x);
        Capabilities::lemma_group_4_unknown_field(o, key, x);
        Capabilities::lemma_group_5_unknown_field(o, key, x);
    }
}

impl Defaults for Capabilities {
    open spec fn elidable_names() -> Set<Seq<char>> {
        set!["supportsConfigurationDoneRequest"@, "supportsFunctionBreakpoints"@, "supportsConditionalBreakpoints"@, "supportsHitConditionalBreakpoints"@, "supportsEvaluateForHovers"@, "exceptionBreakpointFilters"@, "supportsStepBack"@, "supportsSetVariable"@, "supportsRestartFrame"@, "supportsGotoTargetsRequest"@, "supportsStepInTargetsRequest"@, "supportsCompletionsRequest"@, "completionTriggerCharacters"@, "supportsModulesRequest"@, "additionalModuleColumns"@, "supportedChecksumAlgorithms"@, "supportsRestartRequest"@, "supportsExceptionOptions"@, "supportsValueFormattingOptions"@, "supportsExceptionInfoRequest"@, "supportTerminateDebuggee"@, "supportSuspendDebuggee"@, "supportsDelayedStackTraceLoading"@, "supportsLoadedSourcesRequest"@, "supportsLogPoints"@, "supportsTerminateThreadsRequest"@, "supportsSetExpression"@, "supportsTerminateRequest"@, "supportsDataBreakpoints"@, "supportsReadMemoryRequest"@, "supportsDisassembleRequest"@, "supportsCancelRequest"@, "supportsBreakpointLocationsRequest"@, "supportsClipboardContext"@, "supportsSteppingGranularity"@, "supportsInstructionBreakpoints"@, "supportsExceptionFilterOptions"@]
    }

    open spec fn at_defaults(m: CapabilitiesView) -> bool {
        &&& !m.supports_configuration_done_request
        &&& !m.supports_function_breakpoints
        &&& !m.supports_conditional_breakpoints
        &&& !m.supports_hit_conditional_breakpoints
        &&& !m.supports_evaluate_for_hovers
        &&& m.exception_breakpoint_filters == Seq::<ExceptionBreakpointsFilterView>::empty()
        &&& !m.supports_step_back
        &&& !m.supports_set_variable
        &&& !m.supports_restart_frame
        &&& !m.supports_goto_targets_request
        &&& !m.supports_step_in_targets_request
        &&& !m.supports_completions_request
        &&& m.completion_trigger_characters is None
        &&& !m.supports_modules_request
        &&& m.additional_module_columns == Seq::<ColumnDescriptorView>::empty()
        &&& m.supported_checksum_algorithms == Seq::<ChecksumAlgorithm>::empty()
        &&& !m.supports_restart_request
        &&& !m.supports_exception_options
        &&& !m.supports_value_formatting_options
        &&& !m.supports_exception_info_request
        &&& !m.support_terminate_debuggee
        &&& !m.support_suspend_debuggee
        &&& !m.supports_delayed_stack_trace_loading
        &&& !m.supports_loaded_sources_request
        &&& !m.supports_log_points
        &&& !m.supports_terminate_threads_request
        &&& !m.supports_set_expression
        &&& !m.supports_terminate_request
        &&& !m.supports_data_breakpoints
        &&& !m.supports_read_memory_request
        &&& !m.supports_disassemble_request
        &&& !m.supports_cancel_request
        &&& !m.supports_breakpoint_locations_request
        &&& !m.supports_clipboard_context
        &&& !m.supports_stepping_granularity
        &&& !m.supports_instruction_breakpoints
        &&& !m.supports_exception_filter_options
    }

    proof fn lemma_defaults_elided(m: CapabilitiesView, key: Seq<char>) {
        broadcast use lemma_field_of_empty;

        Capabilities::lemma_field_index();
        let o0 = empty_object();
        let o1 = Capabilities::fields_1(o0, m);
        let o2 = Capabilities::fields_2(o1, m);
        let o3 = Capabilities::fields_3(o2, m);
        let o4 = Capabilities::fields_4(o3, m);
        let o5 = Capabilities::fields_5(o4, m);
        Capabilities::lemma_fields_1_own(o0, m);
        Capabilities::lemma_fields_2_own(o1, m);
        Capabilities::lemma_fields_3_own(o2, m);
        Capabilities::lemma_fields_4_own(o3, m);
        Capabilities::lemma_fields_5_own(o4, m);
        if key == "supportsConfigurationDoneRequest"@ {
            Capabilities::lemma_fields_2_frame(o1, m, key);
            Capabilities::lemma_fields_3_frame(o2, m, key);
            Capabilities::lemma_fields_4_frame(o3, m, key);
            Capabilities::lemma_fields_5_frame(o4, m, key);
        } else if key == "supportsFunctionBreakpoints"@ {
            Capabilities::lemma_fields_2_frame(o1, m, key);
            Capabilities::lemma_fields_3_frame(o2, m, key);
            Capabilities::lemma_fields_4_frame(o3, m, key);
            Capabilities::lemma_fields_5_frame(o4, m, key);
        } else if key == "supportsConditionalBreakpoints"@ {
            Capabilities::lemma_fields_2_frame(o1, m, key);
            Capabilities::lemma_fields_3_frame(o2, m, key);
            Capabilities::lemma_fields_4_frame(o3, m, key);
            Capabilities::lemma_fields_5_frame(o4, m, key);
        } else if key == "supportsHitConditionalBreakpoints"@ {
            Capabilities::lemma_fields_2_frame(o1, m, key);
            Capabilities::lemma_fields_3_frame(o2, m, key);
            Capabilities::lemma_fields_4_frame(o3, m, key);
            Capabilities::lemma_fields_5_frame(o4, m, key);
        } else if key == "supportsEvaluateForHovers"@ {
            Capabilities::lemma_fields_2_frame(o1, m, key);
            Capabilities::lemma_fields_3_frame(o2, m, key);
            Capabilities::lemma_fields_4_frame(o3, m, key);
            Capabilities::lemma_fields_5_frame(o4, m, key);
        } else if key == "exceptionBreakpointFilters"@ {
            Capabilities::lemma_fields_2_frame(o1, m, key);
            Capabilities::lemma_fields_3_frame(o2, m, key);
            Capabilities::lemma_fields_4_frame(o3, m, key);
            Capabilities::lemma_fields_5_frame(o4, m, key);
        } else if key == "supportsStepBack"@ {
            Capabilities::lemma_fields_2_frame(o1, m, key);
            Capabilities::lemma_fields_3_frame(o2, m, key);
            Capabilities::lemma_fields_4_frame(o3, m, key);
            Capabilities::lemma_fields_5_frame(o4, m, key);
        } else if key == "supportsSetVariable"@ {
            Capabilities::lemma_fields_2_frame(o1, m, key);
            Capabilities::lemma_fields_3_frame(o2, m, key);
            Capabilities::lemma_fields_4_frame(o3, m, key);
            Capabilities::lemma_fields_5_frame(o4, m, key);
        } else if key == "supportsRestartFrame"@ {
            Capabilities::lemma_fields_1_frame(o0, m, key);
            Capabilities::lemma_fields_3_frame(o2, m, key);
            Capabilities::lemma_fields_4_frame(o3, m, key);
            Capabilities::lemma_fields_5_frame(o4, m, key);
        } else if key == "supportsGotoTargetsRequest"@ {
            Capabilities::lemma_fields_1_frame(o0, m, key);
            Capabilities::lemma_fields_3_frame(o2, m, key);
            Capabilities::lemma_fields_4_frame(o3, m, key);
            Capabilities::lemma_fields_5_frame(o4, m, key);
        } else if key == "supportsStepInTargetsRequest"@ {
            Capabilities::lemma_fields_1_frame(o0, m, key);
            Capabilities::lemma_fields_3_frame(o2, m, key);
            Capabilities::lemma_fields_4_frame(o3, m, key);
            Capabilities::lemma_fields_5_frame(o4, m, key);
        } else if key == "supportsCompletionsRequest"@ {
            Capabilities::lemma_fields_1_frame(o0, m, key);
            Capabilities::lemma_fields_3_frame(o2, m, key);
            Capabilities::lemma_fields_4_frame(o3, m, key);
            Capabilities::lemma_fields_5_frame(o4, m, key);
        } else if key == "completionTriggerCharacters"@ {
            Capabilities::lemma_fields_1_frame(o0, m, key);
            Capabilities::lemma_fields_3_frame(o2, m, key);
            Capabilities::lemma_fields_4_frame(o3, m, key);
            Capabilities::lemma_fields_5_frame(o4, m, key);
        } else if key == "supportsModulesRequest"@ {
            Capabilities::lemma_fields_1_frame(o0, m, key);
            Capabilities::lemma_fields_3_frame(o2, m, key);
            Capabilities::lemma_fields_4_frame(o3, m, key);
            Capabilities::lemma_fields_5_frame(o4, m, key);
        } else if key == "additionalModuleColumns"@ {
            Capabilities::lemma_fields_1_frame(o0, m, key);
            Capabilities::lemma_fields_3_frame(o2, m, key);
            Capabilities::lemma_fields_4_frame(o3, m, key);
            Capabilities::lemma_fields_5_frame(o4, m, key);
        } else if key == "supportedChecksumAlgorithms"@ {
            Capabilities::lemma_fields_1_frame(o0, m, key);
            Capabilities::lemma_fields_3_frame(o2, m, key);
            Capabilities::lemma_fields_4_frame(o3, m, key);
            Capabilities::lemma_fields_5_frame(o4, m, key);
        } else if key == "supportsRestartRequest"@ {
            Capabilities::lemma_fields_1_frame(o0, m, key);
            Capabilities::lemma_fields_2_frame(o1, m, key);
            Capabilities::lemma_fields_4_frame(o3, m, key);
            Capabilities::lemma_fields_5_frame(o4, m, key);
        } else if key == "supportsExceptionOptions"@ {
            Capabilities::lemma_fields_1_frame(o0, m, key);
            Capabilities::lemma_fields_2_frame(o1, m, key);
            Capabilities::lemma_fields_4_frame(o3, m, key);
            Capabilities::lemma_fields_5_frame(o4, m, key);
        } else if key == "supportsValueFormattingOptions"@ {
            Capabilities::lemma_fields_1_frame(o0, m, key);
            Capabilities::lemma_fields_2_frame(o1, m, key);
            Capabilities::lemma_fields_4_frame(o3, m, key);
            Capabilities::lemma_fields_5_frame(o4, m, key);
        } else if key == "supportsExceptionInfoRequest"@ {
            Capabilities::lemma_fields_1_frame(o0, m, key);
            Capabilities::lemma_fields_2_frame(o1, m, key);
            Capabilities::lemma_fields_4_frame(o3, m, key);
            Capabilities::lemma_fields_5_frame(o4, m, key);
        } else if key == "supportTerminateDebuggee"@ {
            Capabilities::lemma_fields_1_frame(o0, m, key);
            Capabilities::lemma_fields_2_frame(o1, m, key);
            Capabilities::lemma_fields_4_frame(o3, m, key);
            Capabilities::lemma_fields_5_frame(o4, m, key);
        } else if key == "supportSuspendDebuggee"@ {
            Capabilities::lemma_fields_1_frame(o0, m, key);
            Capabilities::lemma_fields_2_frame(o1, m, key);
            Capabilities::lemma_fields_4_frame(o3, m, key);
            Capabilities::lemma_fields_5_frame(o4, m, key);
        } else if key == "supportsDelayedStackTraceLoading"@ {
            Capabilities::lemma_fields_1_frame(o0, m, key);
            Capabilities::lemma_fields_2_frame(o1, m, key);
            Capabilities::lemma_fields_4_frame(o3, m, key);
            Capabilities::lemma_fields_5_frame(o4, m, key);
        } else if key == "supportsLoadedSourcesRequest"@ {
            Capabilities::lemma_fields_1_frame(o0, m, key);
            Capabilities::lemma_fields_2_frame(o1, m, key);
            Capabilities::lemma_fields_4_frame(o3, m, key);
            Capabilities::lemma_fields_5_frame(o4, m, key);
        } else if key == "supportsLogPoints"@ {
            Capabilities::lemma_fields_1_frame(o0, m, key);
            Capabilities::lemma_fields_2_frame(o1, m, key);
            Capabilities::lemma_fields_3_frame(o2, m, key);
            Capabilities::lemma_fields_5_frame(o4, m, key);
        } else if key == "supportsTerminateThreadsRequest"@ {
            Capabilities::lemma_fields_1_frame(o0, m, key);
            Capabilities::lemma_fields_2_frame(o1, m, key);
            Capabilities::lemma_fields_3_frame(o2, m, key);
            Capabilities::lemma_fields_5_frame(o4, m, key);
        } else if key == "supportsSetExpression"@ {
            Capabilities::lemma_fields_1_frame(o0, m, key);
            Capabilities::lemma_fields_2_frame(o1, m, key);
            Capabilities::lemma_fields_3_frame(o2, m, key);
            Capabilities::lemma_fields_5_frame(o4, m, key);
        } else if key == "supportsTerminateRequest"@ {
            Capabilities::lemma_fields_1_frame(o0, m, key);
            Capabilities::lemma_fields_2_frame(o1, m, key);
            Capabilities::lemma_fields_3_frame(o2, m, key);
            Capabilities::lemma_fields_5_frame(o4, m, key);
        } else if key == "supportsDataBreakpoints"@ {
            Capabilities::lemma_fields_1_frame(o0, m, key);
            Capabilities::lemma_fields_2_frame(o1, m, key);
            Capabilities::lemma_fields_3_frame(o2, m, key);
            Capabilities::lemma_fields_5_frame(o4, m, key);
        } else if key == "supportsReadMemoryRequest"@ {
            Capabilities::lemma_fields_1_frame(o0, m, key);
            Capabilities::lemma_fields_2_frame(o1, m, key);
            Capabilities::lemma_fields_3_frame(o2, m, key);
            Capabilities::lemma_fields_5_frame(o4, m, key);
        } else if key == "supportsDisassembleRequest"@ {
            Capabilities::lemma_fields_1_frame(o0, m, key);
            Capabilities::lemma_fields_2_frame(o1, m, key);
            Capabilities::lemma_fields_3_frame(o2, m, key);
            Capabilities::lemma_fields_5_frame(o4, m, key);
        } else if key == "supportsCancelRequest"@ {
            Capabilities::lemma_fields_1_frame(o0, m, key);
            Capabilities::lemma_fields_2_frame(o1, m, key);
            Capabilities::lemma_fields_3_frame(o2, m, key);
            Capabilities::lemma_fields_5_frame(o4, m, key);
        } else if key == "supportsBreakpointLocationsRequest"@ {
            Capabilities::lemma_fields_1_frame(o0, m, key);
            Capabilities::lemma_fields_2_frame(o1, m, key);
            Capabilities::lemma_fields_3_frame(o2, m, key);
            Capabilities::lemma_fields_4_frame(o3, m, key);
        } else if key == "supportsClipboardContext"@ {
            Capabilities::lemma_fields_1_frame(o0, m, key);
            Capabilities::lemma_fields_2_frame(o1, m, key);
            Capabilities::lemma_fields_3_frame(o2, m, key);
            Capabilities::lemma_fields_4_frame(o3, m, key);
        } else if key == "supportsSteppingGranularity"@ {
            Capabilities::lemma_fields_1_frame(o0, m, key);
            Capabilities::lemma_fields_2_frame(o1, m, key);
            Capabilities::lemma_fields_3_frame(o2, m, key);
            Capabilities::lemma_fields_4_frame(o3, m, key);
        } else if key == "supportsInstructionBreakpoints"@ {
            Capabilities::lemma_fields_1_frame(o0, m, key);
            Capabilities::lemma_fields_2_frame(o1, m, key);
            Capabilities::lemma_fields_3_frame(o2, m, key);
            Capabilities::lemma_fields_4_frame(o3, m, key);
        } else if key == "supportsExceptionFilterOptions"@ {
            Capabilities::lemma_fields_1_frame(o0, m, key);
            Capabilities::lemma_fields_2_frame(o1, m, key);
            Capabilities::lemma_fields_3_frame(o2, m, key);
            Capabilities::lemma_fields_4_frame(o3, m, key);
        }
    }
}

/// The checksum of an item calculated by the specified algorithm.
#[derive(Clone, Debug, PartialEq, Eq)]
pub struct Checksum {
    /// The algorithm used to calculate this checksum.
    pub algorithm: ChecksumAlgorithm,

    /// Value of the checksum.
    pub checksum: String,
}

/// The mathematical content of a [`Checksum`].
pub struct ChecksumView {
    pub algorithm: ChecksumAlgorithm,
    pub checksum: Seq<char>,
}

impl View for Checksum {
    type V = ChecksumView;

    open spec fn view(&self) -> ChecksumView {
        ChecksumView {
            algorithm: self.algorithm,
            checksum: self.checksum.model(),
        }
    }
}

impl Checksum {
    /// The fields that are written for a value.
    pub open spec fn fields(m: ChecksumView) -> JsonObject {
        let o = empty_object();
        let o = with_field::<ChecksumAlgorithm>(o, "algorithm"@, m.algorithm);
        let o = with_field::<String>(o, "checksum"@, m.checksum);
        o
    }

    /// What the fields of an object decode to: the first failure in the order of
    /// the fields, or the value.
    pub open spec fn decode_fields(o: JsonObject) -> Result<ChecksumView, DecodeErrorView> {
        let algorithm = req_field::<ChecksumAlgorithm>(o, "algorithm"@);
        let checksum = req_field::<String>(o, "checksum"@);
        if algorithm is Err {
            Err(algorithm->Err_0)
        } else if checksum is Err {
            Err(checksum->Err_0)
        } else {
            Ok(ChecksumView {
                algorithm: algorithm->Ok_0,
                checksum: checksum->Ok_0,
            })
        }
    }

    /// Writes the fields of the value into a fresh object.
    pub fn to_object(&self) -> (o: serde_json::Map<String, serde_json::Value>)
        ensures
            object_model(o) == Checksum::fields(self@),
    {
        let mut o = object_new();
        put::<ChecksumAlgorithm>(&mut o, "algorithm", &self.algorithm);
        put::<String>(&mut o, "checksum", &self.checksum);
        o
    }

    /// Reads a value from the fields of an object.
    pub fn from_object(o: &serde_json::Map<String, serde_json::Value>) -> (r: Result<
        Checksum,
        DecodeError,
    >)
        ensures
            match r {
                Ok(x) => Checksum::decode_fields(object_model(*o)) matches Ok(m) && m == x.model(),
                Err(e) => Checksum::decode_fields(object_model(*o)) matches Err(f) && f == e@,
            },
    {
        let algorithm = get_req::<ChecksumAlgorithm>(o, "algorithm")?;
        let checksum = get_req::<String>(o, "checksum")?;
        Ok(Checksum { algorithm, checksum })
    }
}

impl Wire for Checksum {
    type Model = ChecksumView;

    open spec fn model(&self) -> ChecksumView {
        self@
    }

    open spec fn wire_ok(m: ChecksumView) -> bool {
        true
    }

    open spec fn encode_json(m: ChecksumView) -> Json {
        Json::Object(Checksum::fields(m))
    }

    open spec fn decode_json(j: Json) -> Result<ChecksumView, DecodeErrorView> {
        match j {
            Json::Object(o) => Checksum::decode_fields(o),
            _ => Err(DecodeErrorView::InvalidType),
        }
    }

    fn to_value(&self) -> (r: serde_json::Value) {
        value_object(self.to_object())
    }

    fn from_value(v: &serde_json::Value) -> (r: Result<Checksum, DecodeError>) {
        match value_as_object(v) {
            Some(o) => Checksum::from_object(o),
            None => Err(DecodeError::InvalidType),
        }
    }

    proof fn lemma_round_trip(m: ChecksumView) {
        broadcast use group_field_rules;

        reveal(req_field);
        reveal_strlit("algorithm");
        reveal_strlit("checksum");
        assert("algorithm"@.len() == 9);
        assert("checksum"@.len() == 8);
        let o = Checksum::fields(m);
        ChecksumAlgorithm::lemma_round_trip(m.algorithm);
        assert(req_field::<ChecksumAlgorithm>(o, "algorithm"@) matches Ok(v) && v == m.algorithm);
        String::lemma_round_trip(m.checksum);
        assert(req_field::<String>(o, "checksum"@) matches Ok(v) && v == m.checksum);
    }
}

impl Record for Checksum {
    open spec fn field_names() -> Set<Seq<char>> {
        set!["algorithm"@, "checksum"@]
    }

    proof fn lemma_unknown_field(o: JsonObject, key: Seq<char>, x: Json) {
        broadcast use group_field_rules;

        reveal(req_field);
    }
}

/// Names of checksum algorithms that may be supported by a debug adapter.
#[derive(Clone, Copy, Debug, PartialEq, Eq, Structural)]
pub enum ChecksumAlgorithm {
    MD5,
    SHA1,
    SHA256,
    Timestamp,
}

impl ChecksumAlgorithm {
    /// The name under which the value travels.
    pub open spec fn name(self) -> Seq<char> {
        match self {
            ChecksumAlgorithm::MD5 => "MD5"@,
            ChecksumAlgorithm::SHA1 => "SHA1"@,
            ChecksumAlgorithm::SHA256 => "SHA256"@,
            ChecksumAlgorithm::Timestamp => "timestamp"@,
        }
    }

    /// The value that travels under `s`, if there is one.
    pub open spec fn named(s: Seq<char>) -> Option<ChecksumAlgorithm> {
        if s == "MD5"@ {
            Some(ChecksumAlgorithm::MD5)
        } else if s == "SHA1"@ {
            Some(ChecksumAlgorithm::SHA1)
        } else if s == "SHA256"@ {
            Some(ChecksumAlgorithm::SHA256)
        } else if s == "timestamp"@ {
            Some(ChecksumAlgorithm::Timestamp)
        } else {
            None
        }
    }

    pub fn as_str(&self) -> (r: &'static str)
        ensures
            r@ == self.name(),
    {
        match self {
            ChecksumAlgorithm::MD5 => "MD5",
            ChecksumAlgorithm::SHA1 => "SHA1",
            ChecksumAlgorithm::SHA256 => "SHA256",
            ChecksumAlgorithm::Timestamp => "timestamp",
        }
    }

    pub fn from_name(s: &str) -> (r: Option<ChecksumAlgorithm>)
        ensures
            r == ChecksumAlgorithm::named(s@),
    {
        if str_eq(s, "MD5") {
            Some(ChecksumAlgorithm::MD5)
        } else if str_eq(s, "SHA1") {
            Some(ChecksumAlgorithm::SHA1)
        } else if str_eq(s, "SHA256") {
            Some(ChecksumAlgorithm::SHA256)
        } else if str_eq(s, "timestamp") {
            Some(ChecksumAlgorithm::Timestamp)
        } else {
            None
        }
    }

    /// Every value is found again under its name.
    pub proof fn lemma_named(self)
        ensures
            ChecksumAlgorithm::named(self.name()) == Some(self),
    {
        reveal_strlit("MD5");
        reveal_strlit("SHA1");
        reveal_strlit("SHA256");
        reveal_strlit("timestamp");
        assert("MD5"@.len() == 3);
        assert("SHA1"@.len() == 4);
        assert("SHA256"@.len() == 6);
        assert("timestamp"@.len() == 9);
    }
}

impl Wire for ChecksumAlgorithm {
    type Model = ChecksumAlgorithm;

    open spec fn model(&self) -> ChecksumAlgorithm {
        *self
    }

    open spec fn wire_ok(m: ChecksumAlgorithm) -> bool {
        true
    }

    open spec fn encode_json(m: ChecksumAlgorithm) -> Json {
        Json::Str(m.name())
    }

    open spec fn decode_json(j: Json) -> Result<ChecksumAlgorithm, DecodeErrorView> {
        match j {
            Json::Str(s) => match ChecksumAlgorithm::named(s) {
                Some(x) => Ok(x),
                None => Err(DecodeErrorView::InvalidType),
            },
            _ => Err(DecodeErrorView::InvalidType),
        }
    }

    fn to_value(&self) -> (r: serde_json::Value) {
        value_string(self.as_str().to_owned())
    }

    fn from_value(v: &serde_json::Value) -> (r: Result<ChecksumAlgorithm, DecodeError>) {
        match value_as_str(v) {
            Some(s) => match ChecksumAlgorithm::from_name(s) {
                Some(x) => Ok(x),
                None => Err(DecodeError::InvalidType),
            },
            None => Err(DecodeError::InvalidType),
        }
    }

    proof fn lemma_round_trip(m: ChecksumAlgorithm) {
        m.lemma_named();
    }
}

/// A ColumnDescriptor specifies what module attribute to show in a column of the ModulesView, how to format it,
///
/// and what the column's label should be.
///
/// It is only used if the underlying UI actually supports this level of customization.
#[derive(Clone, Debug, PartialEq, Eq)]
pub struct ColumnDescriptor {
    /// Name of the attribute rendered in this column.
    pub attribute_name: String,

    /// Header UI label of column.
    pub label: String,

    /// Format to use for the rendered values in this column. TBD how the format strings looks like.
    pub format: Option<String>,

    /// Datatype of values in this column.  Defaults to 'string' if not specified.
    pub type_: ColumnDescriptorType,

    /// Width of this column in characters (hint only).
    pub width: Option<i32>,
}

/// The mathematical content of a [`ColumnDescriptor`].
pub struct ColumnDescriptorView {
    pub attribute_name: Seq<char>,
    pub label: Seq<char>,
    pub format: Option<Seq<char>>,
    pub type_: ColumnDescriptorType,
    pub width: Option<i32>,
}

impl View for ColumnDescriptor {
    type V = ColumnDescriptorView;

    open spec fn view(&self) -> ColumnDescriptorView {
        ColumnDescriptorView {
            attribute_name: self.attribute_name.model(),
            label: self.label.model(),
            format: self.format.model(),
            type_: self.type_,
            width: self.width.model(),
        }
    }
}

impl ColumnDescriptor {
    /// The fields that are written for a value.
    pub open spec fn fields(m: ColumnDescriptorView) -> JsonObject {
        let o = empty_object();
        let o = with_field::<String>(o, "attributeName"@, m.attribute_name);
        let o = with_field::<String>(o, "label"@, m.label);
        let o = with_opt_field::<String>(o, "format"@, m.format);
        let o = with_nondefault_field::<ColumnDescriptorType>(o, "type"@, m.type_, ColumnDescriptorType::String);
        let o = with_opt_field::<i32>(o, "width"@, m.width);
        o
    }

    /// What the fields of an object decode to: the first failure in the order of
    /// the fields, or the value.
    pub open spec fn decode_fields(o: JsonObject) -> Result<ColumnDescriptorView, DecodeErrorView> {
        let attribute_name = req_field::<String>(o, "attributeName"@);
        let label = req_field::<String>(o, "label"@);
        let format = opt_field::<String>(o, "format"@);
        let type_ = default_field::<ColumnDescriptorType>(o, "type"@, ColumnDescriptorType::String);
        let width = opt_field::<i32>(o, "width"@);
        if attribute_name is Err {
            Err(attribute_name->Err_0)
        } else if label is Err {
            Err(label->Err_0)
        } else if format is Err {
            Err(format->Err_0)
        } else if type_ is Err {
            Err(type_->Err_0)
        } else if width is Err {
            Err(width->Err_0)
        } else {
            Ok(ColumnDescriptorView {
                attribute_name: attribute_name->Ok_0,
                label: label->Ok_0,
                format: format->Ok_0,
                type_: type_->Ok_0,
                width: width->Ok_0,
            })
        }
    }

    /// Writes the fields of the value into a fresh object.
    pub fn to_object(&self) -> (o: serde_json::Map<String, serde_json::Value>)
        ensures
            object_model(o) == ColumnDescriptor::fields(self@),
    {
        let mut o = object_new();
        put::<String>(&mut o, "attributeName", &self.attribute_name);
        put::<String>(&mut o, "label", &self.label);
        put_opt::<String>(&mut o, "format", &self.format);
        put_unless::<ColumnDescriptorType>(&mut o, "type", &self.type_, &ColumnDescriptorType::String, self.type_ == ColumnDescriptorType::String);
        put_opt::<i32>(&mut o, "width", &self.width);
        o
    }

    /// Reads a value from the fields of an object.
    pub fn from_object(o: &serde_json::Map<String, serde_json::Value>) -> (r: Result<
        ColumnDescriptor,
        DecodeError,
    >)
        ensures
            match r {
                Ok(x) => ColumnDescriptor::decode_fields(object_model(*o)) matches Ok(m) && m == x.model(),
                Err(e) => ColumnDescriptor::decode_fields(object_model(*o)) matches Err(f) && f == e@,
            },
    {
        let attribute_name = get_req::<String>(o, "attributeName")?;
        let label = get_req::<String>(o, "label")?;
        let format = get_opt::<String>(o, "format")?;
        let type_ = get_or::<ColumnDescriptorType>(o, "type", ColumnDescriptorType::String)?;
        let width = get_opt::<i32>(o, "width")?;
        Ok(ColumnDescriptor { attribute_name, label, format, type_, width })
    }
}

impl Wire for ColumnDescriptor {
    type Model = ColumnDescriptorView;

    open spec fn model(&self) -> ColumnDescriptorView {
        self@
    }

    open spec fn wire_ok(m: ColumnDescriptorView) -> bool {
        true
    }

    open spec fn encode_json(m: ColumnDescriptorView) -> Json {
        Json::Object(ColumnDescriptor::fields(m))
    }

    open spec fn decode_json(j: Json) -> Result<ColumnDescriptorView, DecodeErrorView> {
        match j {
            Json::Object(o) => ColumnDescriptor::decode_fields(o),
            _ => Err(DecodeErrorView::InvalidType),
        }
    }

    fn to_value(&self) -> (r: serde_json::Value) {
        value_object(self.to_object())
    }

    fn from_value(v: &serde_json::Value) -> (r: Result<ColumnDescriptor, DecodeError>) {
        match value_as_object(v) {
            Some(o) => ColumnDescriptor::from_object(o),
            None => Err(DecodeError::InvalidType),
        }
    }

    proof fn lemma_round_trip(m: ColumnDescriptorView) {
        broadcast use group_field_rules;

        reveal(default_field);
        reveal(opt_field);
        reveal(req_field);
        reveal_strlit("attributeName");
        reveal_strlit("label");
        reveal_strlit("format");
        reveal_strlit("type");
        reveal_strlit("width");
        assert("attributeName"@.len() == 13);
        assert("label"@.len() == 5);
        assert("format"@.len() == 6);
        assert("type"@.len() == 4);
        assert("width"@.len() == 5);
        assert("label"@[0] != "width"@[0]);
        let o = ColumnDescriptor::fields(m);
        String::lemma_round_trip(m.attribute_name);
        assert(req_field::<String>(o, "attributeName"@) matches Ok(v) && v == m.attribute_name);
        String::lemma_round_trip(m.label);
        assert(req_field::<String>(o, "label"@) matches Ok(v) && v == m.label);
        Option::<String>::lemma_round_trip(m.format);
        assert(opt_field::<String>(o, "format"@) matches Ok(v) && v == m.format);
        ColumnDescriptorType::lemma_round_trip(m.type_);
        assert(default_field::<ColumnDescriptorType>(o, "type"@, ColumnDescriptorType::String) matches Ok(v) && v == m.type_);
        Option::<i32>::lemma_round_trip(m.width);
        assert(opt_field::<i32>(o, "width"@) matches Ok(v) && v == m.width);
    }
}

impl Record for ColumnDescriptor {
    open spec fn field_names() -> Set<Seq<char>> {
        set!["attributeName"@, "label"@, "format"@, "type"@, "width"@]
    }

    proof fn lemma_unknown_field(o: JsonObject, key: Seq<char>, x: Json) {
        broadcast use group_field_rules;

        reveal(default_field);
        reveal(opt_field);
        reveal(req_field);
    }
}

impl Defaults for ColumnDescriptor {
    open spec fn elidable_names() -> Set<Seq<char>> {
        set!["format"@, "type"@, "width"@]
    }

    open spec fn at_defaults(m: ColumnDescriptorView) -> bool {
        &&& m.format is None
        &&& m.type_ == ColumnDescriptorType::String
        &&& m.width is None
    }

    proof fn lemma_defaults_elided(m: ColumnDescriptorView, key: Seq<char>) {
        broadcast use group_field_rules;

        reveal_strlit("attributeName");
        reveal_strlit("label");
        reveal_strlit("format");
        reveal_strlit("type");
        reveal_strlit("width");
        assert("attributeName"@.len() == 13);
        assert("label"@.len() == 5);
        assert("format"@.len() == 6);
        assert("type"@.len() == 4);
        assert("width"@.len() == 5);
        assert("label"@[0] != "width"@[0]);
    }
}

#[derive(Clone, Copy, Debug, Eq)]
pub enum ColumnDescriptorType {
    String,
    Number,
    Boolean,
    UnixTimestampUTC,
}

impl ColumnDescriptorType {
    /// The name under which the value travels.
    pub open spec fn name(self) -> Seq<char> {
        match self {
            ColumnDescriptorType::String => "string"@,
            ColumnDescriptorType::Number => "number"@,
            ColumnDescriptorType::Boolean => "boolean"@,
            ColumnDescriptorType::UnixTimestampUTC => "unixTimestampUTC"@,
        }
    }

    /// The value that travels under `s`, if there is one.
    pub open spec fn named(s: Seq<char>) -> Option<ColumnDescriptorType> {
        if s == "string"@ {
            Some(ColumnDescriptorType::String)
        } else if s == "number"@ {
            Some(ColumnDescriptorType::Number)
        } else if s == "boolean"@ {
            Some(ColumnDescriptorType::Boolean)
        } else if s == "unixTimestampUTC"@ {
            Some(ColumnDescriptorType::UnixTimestampUTC)
        } else {
            None
        }
    }

    pub fn as_str(&self) -> (r: &'static str)
        ensures
            r@ == self.name(),
    {
        match self {
            ColumnDescriptorType::String => "string",
            ColumnDescriptorType::Number => "number",
            ColumnDescriptorType::Boolean => "boolean",
            ColumnDescriptorType::UnixTimestampUTC => "unixTimestampUTC",
        }
    }

    pub fn from_name(s: &str) -> (r: Option<ColumnDescriptorType>)
        ensures
            r == ColumnDescriptorType::named(s@),
    {
        if str_eq(s, "string") {
            Some(ColumnDescriptorType::String)
        } else if str_eq(s, "number") {
            Some(ColumnDescriptorType::Number)
        } else if str_eq(s, "boolean") {
            Some(ColumnDescriptorType::Boolean)
        } else if str_eq(s, "unixTimestampUTC") {
            Some(ColumnDescriptorType::UnixTimestampUTC)
        } else {
            None
        }
    }

    /// Every value is found again under its name.
    pub proof fn lemma_named(self)
        ensures
            ColumnDescriptorType::named(self.name()) == Some(self),
    {
        reveal_strlit("string");
        reveal_strlit("number");
        reveal_strlit("boolean");
        reveal_strlit("unixTimestampUTC");
        assert("string"@.len() == 6);
        assert("number"@.len() == 6);
        assert("boolean"@.len() == 7);
        assert("unixTimestampUTC"@.len() == 16);
        assert("string"@[0] != "number"@[0]);
    }
}

impl Default for ColumnDescriptorType {
    fn default() -> (r: ColumnDescriptorType)
        ensures
            r == ColumnDescriptorType::String,
    {
        ColumnDescriptorType::String
    }
}

impl Wire for ColumnDescriptorType {
    type Model = ColumnDescriptorType;

    open spec fn model(&self) -> ColumnDescriptorType {
        *self
    }

    open spec fn wire_ok(m: ColumnDescriptorType) -> bool {
        true
    }

    open spec fn encode_json(m: ColumnDescriptorType) -> Json {
        Json::Str(m.name())
    }

    open spec fn decode_json(j: Json) -> Result<ColumnDescriptorType, DecodeErrorView> {
        match j {
            Json::Str(s) => match ColumnDescriptorType::named(s) {
                Some(x) => Ok(x),
                None => Err(DecodeErrorView::InvalidType),
            },
            _ => Err(DecodeErrorView::InvalidType),
        }
    }

    fn to_value(&self) -> (r: serde_json::Value) {
        value_string(self.as_str().to_owned())
    }

    fn from_value(v: &serde_json::Value) -> (r: Result<ColumnDescriptorType, DecodeError>) {
        match value_as_str(v) {
            Some(s) => match ColumnDescriptorType::from_name(s) {
                Some(x) => Ok(x),
                None => Err(DecodeError::InvalidType),
            },
            None => Err(DecodeError::InvalidType),
        }
    }

    proof fn lemma_round_trip(m: ColumnDescriptorType) {
        m.lemma_named();
    }
}

/// CompletionItems are the suggestions returned from the CompletionsRequest.
#[derive(Clone, Debug, PartialEq, Eq)]
pub struct CompletionItem {
    /// The label of this completion item. By default this is also the text that is inserted when selecting this completion.
    pub label: String,

    /// If text is not falsy then it is inserted instead of the label.
    pub text: Option<String>,

    /// A string that should be used when comparing this item with other items. When `falsy` the label is used.
    pub sort_text: Option<String>,

    /// The item's type. Typically the client uses this information to render the item in the UI with an icon.
    pub type_: Option<CompletionItemType>,

    /// This value determines the location (in the CompletionsRequest's 'text' attribute) where the completion text is added.
    ///
    /// If missing the text is added at the location specified by the CompletionsRequest's 'column' attribute.
    pub start: Option<i32>,

    /// This value determines how many characters are overwritten by the completion text.
    ///
    /// If missing the value 0 is assumed which results in the completion text being inserted.
    pub length: i32,

    /// Determines the start of the new selection after the text has been inserted (or replaced).
    ///
    /// The start position must in the range 0 and length of the completion text.
    ///
    /// If omitted the selection starts at the end of the completion text.
    pub selection_start: Option<i32>,

    /// Determines the length of the new selection after the text has been inserted (or replaced).
    ///
    /// The selection can not extend beyond the bounds of the completion text.
    ///
    /// If omitted the length is assumed to be 0.
    pub selection_length: i32,
}

/// The mathematical content of a [`CompletionItem`].
pub struct CompletionItemView {
    pub label: Seq<char>,
    pub text: Option<Seq<char>>,
    pub sort_text: Option<Seq<char>>,
    pub type_: Option<CompletionItemType>,
    pub start: Option<i32>,
    pub length: i32,
    pub selection_start: Option<i32>,
    pub selection_length: i32,
}

impl View for CompletionItem {
    type V = CompletionItemView;

    open spec fn view(&self) -> CompletionItemView {
        CompletionItemView {
            label: self.label.model(),
            text: self.text.model(),
            sort_text: self.sort_text.model(),
            type_: self.type_.model(),
            start: self.start.model(),
            length: self.length,
            selection_start: self.selection_start.model(),
            selection_length: self.selection_length,
        }
    }
}

impl CompletionItem {
    /// The fields that are written for a value.
    pub open spec fn fields(m: CompletionItemView) -> JsonObject {
        let o = empty_object();
        let o = with_field::<String>(o, "label"@, m.label);
        let o = with_opt_field::<String>(o, "text"@, m.text);
        let o = with_opt_field::<String>(o, "sortText"@, m.sort_text);
        let o = with_opt_field::<CompletionItemType>(o, "type"@, m.type_);
        let o = with_opt_field::<i32>(o, "start"@, m.start);
        let o = with_nondefault_field::<i32>(o, "length"@, m.length, 0i32);
        let o = with_opt_field::<i32>(o, "selectionStart"@, m.selection_start);
        let o = with_nondefault_field::<i32>(o, "selectionLength"@, m.selection_length, 0i32);
        o
    }

    /// What the fields of an object decode to: the first failure in the order of
    /// the fields, or the value.
    pub open spec fn decode_fields(o: JsonObject) -> Result<CompletionItemView, DecodeErrorView> {
        let label = req_field::<String>(o, "label"@);
        let text = opt_field::<String>(o, "text"@);
        let sort_text = opt_field::<String>(o, "sortText"@);
        let type_ = opt_field::<CompletionItemType>(o, "type"@);
        let start = opt_field::<i32>(o, "start"@);
        let length = default_field::<i32>(o, "length"@, 0i32);
        let selection_start = opt_field::<i32>(o, "selectionStart"@);
        let selection_length = default_field::<i32>(o, "selectionLength"@, 0i32);
        if label is Err {
            Err(label->Err_0)
        } else if text is Err {
            Err(text->Err_0)
        } else if sort_text is Err {
            Err(sort_text->Err_0)
        } else if type_ is Err {
            Err(type_->Err_0)
        } else if start is Err {
            Err(start->Err_0)
        } else if length is Err {
            Err(length->Err_0)
        } else if selection_start is Err {
            Err(selection_start->Err_0)
        } else if selection_length is Err {
            Err(selection_length->Err_0)
        } else {
            Ok(CompletionItemView {
                label: label->Ok_0,
                text: text->Ok_0,
                sort_text: sort_text->Ok_0,
                type_: type_->Ok_0,
                start: start->Ok_0,
                length: length->Ok_0,
                selection_start: selection_start->Ok_0,
                selection_length: selection_length->Ok_0,
            })
        }
    }

    /// Writes the fields of the value into a fresh object.
    pub fn to_object(&self) -> (o: serde_json::Map<String, serde_json::Value>)
        ensures
            object_model(o) == CompletionItem::fields(self@),
    {
        let mut o = object_new();
        put::<String>(&mut o, "label", &self.label);
        put_opt::<String>(&mut o, "text", &self.text);
        put_opt::<String>(&mut o, "sortText", &self.sort_text);
        put_opt::<CompletionItemType>(&mut o, "type", &self.type_);
        put_opt::<i32>(&mut o, "start", &self.start);
        put_nonzero(&mut o, "length", self.length);
        put_opt::<i32>(&mut o, "selectionStart", &self.selection_start);
        put_nonzero(&mut o, "selectionLength", self.selection_length);
        o
    }

    /// Reads a value from the fields of an object.
    pub fn from_object(o: &serde_json::Map<String, serde_json::Value>) -> (r: Result<
        CompletionItem,
        DecodeError,
    >)
        ensures
            match r {
                Ok(x) => CompletionItem::decode_fields(object_model(*o)) matches Ok(m) && m == x.model(),
                Err(e) => CompletionItem::decode_fields(object_model(*o)) matches Err(f) && f == e@,
            },
    {
        let label = get_req::<String>(o, "label")?;
        let text = get_opt::<String>(o, "text")?;
        let sort_text = get_opt::<String>(o, "sortText")?;
        let type_ = get_opt::<CompletionItemType>(o, "type")?;
        let start = get_opt::<i32>(o, "start")?;
        let length = get_or::<i32>(o, "length", 0)?;
        let selection_start = get_opt::<i32>(o, "selectionStart")?;
        let selection_length = get_or::<i32>(o, "selectionLength", 0)?;
        Ok(CompletionItem { label, text, sort_text, type_, start, length, selection_start, selection_length })
    }
}

impl Wire for CompletionItem {
    type Model = CompletionItemView;

    open spec fn model(&self) -> CompletionItemView {
        self@
    }

    open spec fn wire_ok(m: CompletionItemView) -> bool {
        true
    }

    open spec fn encode_json(m: CompletionItemView) -> Json {
        Json::Object(CompletionItem::fields(m))
    }

    open spec fn decode_json(j: Json) -> Result<CompletionItemView, DecodeErrorView> {
        match j {
            Json::Object(o) => CompletionItem::decode_fields(o),
            _ => Err(DecodeErrorView::InvalidType),
        }
    }

    fn to_value(&self) -> (r: serde_json::Value) {
        value_object(self.to_object())
    }

    fn from_value(v: &serde_json::Value) -> (r: Result<CompletionItem, DecodeError>) {
        match value_as_object(v) {
            Some(o) => CompletionItem::from_object(o),
            None => Err(DecodeError::InvalidType),
        }
    }

    proof fn lemma_round_trip(m: CompletionItemView) {
        broadcast use group_field_rules;

        reveal(default_field);
        reveal(opt_field);
        reveal(req_field);
        reveal_strlit("label");
        reveal_strlit("text");
        reveal_strlit("sortText");
        reveal_strlit("type");
        reveal_strlit("start");
        reveal_strlit("length");
        reveal_strlit("selectionStart");
        reveal_strlit("selectionLength");
        assert("label"@.len() == 5);
        assert("text"@.len() == 4);
        assert("sortText"@.len() == 8);
        assert("type"@.len() == 4);
        assert("start"@.len() == 5);
        assert("length"@.len() == 6);
        assert("selectionStart"@.len() == 14);
        assert("selectionLength"@.len() == 15);
        assert("label"@[0] != "start"@[0]);
        assert("text"@[1] != "type"@[1]);
        let o = CompletionItem::fields(m);
        String::lemma_round_trip(m.label);
        assert(req_field::<String>(o, "label"@) matches Ok(v) && v == m.label);
        Option::<String>::lemma_round_trip(m.text);
        assert(opt_field::<String>(o, "text"@) matches Ok(v) && v == m.text);
        Option::<String>::lemma_round_trip(m.sort_text);
        assert(opt_field::<String>(o, "sortText"@) matches Ok(v) && v == m.sort_text);
        Option::<CompletionItemType>::lemma_round_trip(m.type_);
        assert(opt_field::<CompletionItemType>(o, "type"@) matches Ok(v) && v == m.type_);
        Option::<i32>::lemma_round_trip(m.start);
        assert(opt_field::<i32>(o, "start"@) matches Ok(v) && v == m.start);
        i32::lemma_round_trip(m.length);
        assert(default_field::<i32>(o, "length"@, 0i32) matches Ok(v) && v == m.length);
        Option::<i32>::lemma_round_trip(m.selection_start);
        assert(opt_field::<i32>(o, "selectionStart"@) matches Ok(v) && v == m.selection_start);
        i32::lemma_round_trip(m.selection_length);
        assert(default_field::<i32>(o, "selectionLength"@, 0i32) matches Ok(v) && v == m.selection_length);
    }
}

impl Record for CompletionItem {
    open spec fn field_names() -> Set<Seq<char>> {
        set!["label"@, "text"@, "sortText"@, "type"@, "start"@, "length"@, "selectionStart"@, "selectionLength"@]
    }

    proof fn lemma_unknown_field(o: JsonObject, key: Seq<char>, x: Json) {
        broadcast use group_field_rules;

        reveal(default_field);
        reveal(opt_field);
        reveal(req_field);
    }
}

impl Defaults for CompletionItem {
    open spec fn elidable_names() -> Set<Seq<char>> {
        set!["text"@, "sortText"@, "type"@, "start"@, "length"@, "selectionStart"@, "selectionLength"@]
    }

    open spec fn at_defaults(m: CompletionItemView) -> bool {
        &&& m.text is None
        &&& m.sort_text is None
        &&& m.type_ is None
        &&& m.start is None
        &&& m.length == 0i32
        &&& m.selection_start is None
        &&& m.selection_length == 0i32
    }

    proof fn lemma_defaults_elided(m: CompletionItemView, key: Seq<char>) {
        broadcast use group_field_rules;

        reveal_strlit("label");
        reveal_strlit("text");
        reveal_strlit("sortText");
        reveal_strlit("type");
        reveal_strlit("start");
        reveal_strlit("length");
        reveal_strlit("selectionStart");
        reveal_strlit("selectionLength");
        assert("label"@.len() == 5);
        assert("text"@.len() == 4);
        assert("sortText"@.len() == 8);
        assert("type"@.len() == 4);
        assert("start"@.len() == 5);
        assert("length"@.len() == 6);
        assert("selectionStart"@.len() == 14);
        assert("selectionLength"@.len() == 15);
        assert("label"@[0] != "start"@[0]);
        assert("text"@[1] != "type"@[1]);
    }
}

/// Some predefined types for the CompletionItem. Please note that not all clients have specific icons for all of them.
#[derive(Clone, Copy, Debug, PartialEq, Eq, Structural)]
pub enum CompletionItemType {
    Method,
    Function,
    Constructor,
    Field,
    Variable,
    Class,
    Interface,
    Module,
    Property,
    Unit,
    Value,
    Enum,
    Keyword,
    Snippet,
    Text,
    Color,
    File,
    Reference,
    Customcolor,
}

impl CompletionItemType {
    /// The name under which the value travels.
    pub open spec fn name(self) -> Seq<char> {
        match self {
            CompletionItemType::Method => "method"@,
            CompletionItemType::Function => "function"@,
            CompletionItemType::Constructor => "constructor"@,
            CompletionItemType::Field => "field"@,
            CompletionItemType::Variable => "variable"@,
            CompletionItemType::Class => "class"@,
            CompletionItemType::Interface => "interface"@,
            CompletionItemType::Module => "module"@,
            CompletionItemType::Property => "property"@,
            CompletionItemType::Unit => "unit"@,
            CompletionItemType::Value => "value"@,
            CompletionItemType::Enum => "enum"@,
            CompletionItemType::Keyword => "keyword"@,
            CompletionItemType::Snippet => "snippet"@,
            CompletionItemType::Text => "text"@,
            CompletionItemType::Color => "color"@,
            CompletionItemType::File => "file"@,
            CompletionItemType::Reference => "reference"@,
            CompletionItemType::Customcolor => "customcolor"@,
        }
    }

    /// The value that travels under `s`, if there is one.
    pub open spec fn named(s: Seq<char>) -> Option<CompletionItemType> {
        if s == "method"@ {
            Some(CompletionItemType::Method)
        } else if s == "function"@ {
            Some(CompletionItemType::Function)
        } else if s == "constructor"@ {
            Some(CompletionItemType::Constructor)
        } else if s == "field"@ {
            Some(CompletionItemType::Field)
        } else if s == "variable"@ {
            Some(CompletionItemType::Variable)
        } else if s == "class"@ {
            Some(CompletionItemType::Class)
        } else if s == "interface"@ {
            Some(CompletionItemType::Interface)
        } else if s == "module"@ {
            Some(CompletionItemType::Module)
        } else if s == "property"@ {
            Some(CompletionItemType::Property)
        } else if s == "unit"@ {
            Some(CompletionItemType::Unit)
        } else if s == "value"@ {
            Some(CompletionItemType::Value)
        } else if s == "enum"@ {
            Some(CompletionItemType::Enum)
        } else if s == "keyword"@ {
            Some(CompletionItemType::Keyword)
        } else if s == "snippet"@ {
            Some(CompletionItemType::Snippet)
        } else if s == "text"@ {
            Some(CompletionItemType::Text)
        } else if s == "color"@ {
            Some(CompletionItemType::Color)
        } else if s == "file"@ {
            Some(CompletionItemType::File)
        } else if s == "reference"@ {
            Some(CompletionItemType::Reference)
        } else if s == "customcolor"@ {
            Some(CompletionItemType::Customcolor)
        } else {
            None
        }
    }

    pub fn as_str(&self) -> (r: &'static str)
        ensures
            r@ == self.name(),
    {
        match self {
            CompletionItemType::Method => "method",
            CompletionItemType::Function => "function",
            CompletionItemType::Constructor => "constructor",
            CompletionItemType::Field => "field",
            CompletionItemType::Variable => "variable",
            CompletionItemType::Class => "class",
            CompletionItemType::Interface => "interface",
            CompletionItemType::Module => "module",
            CompletionItemType::Property => "property",
            CompletionItemType::Unit => "unit",
            CompletionItemType::Value => "value",
            CompletionItemType::Enum => "enum",
            CompletionItemType::Keyword => "keyword",
            CompletionItemType::Snippet => "snippet",
            CompletionItemType::Text => "text",
            CompletionItemType::Color => "color",
            CompletionItemType::File => "file",
            CompletionItemType::Reference => "reference",
            CompletionItemType::Customcolor => "customcolor",
        }
    }

    pub fn from_name(s: &str) -> (r: Option<CompletionItemType>)
        ensures
            r == CompletionItemType::named(s@),
    {
        if str_eq(s, "method") {
            Some(CompletionItemType::Method)
        } else if str_eq(s, "function") {
            Some(CompletionItemType::Function)
        } else if str_eq(s, "constructor") {
            Some(CompletionItemType::Constructor)
        } else if str_eq(s, "field") {
            Some(CompletionItemType::Field)
        } else if str_eq(s, "variable") {
            Some(CompletionItemType::Variable)
        } else if str_eq(s, "class") {
            Some(CompletionItemType::Class)
        } else if str_eq(s, "interface") {
            Some(CompletionItemType::Interface)
        } else if str_eq(s, "module") {
            Some(CompletionItemType::Module)
        } else if str_eq(s, "property") {
            Some(CompletionItemType::Property)
        } else if str_eq(s, "unit") {
            Some(CompletionItemType::Unit)
        } else if str_eq(s, "value") {
            Some(CompletionItemType::Value)
        } else if str_eq(s, "enum") {
            Some(CompletionItemType::Enum)
        } else if str_eq(s, "keyword") {
            Some(CompletionItemType::Keyword)
        } else if str_eq(s, "snippet") {
            Some(CompletionItemType::Snippet)
        } else if str_eq(s, "text") {
            Some(CompletionItemType::Text)
        } else if str_eq(s, "color") {
            Some(CompletionItemType::Color)
        } else if str_eq(s, "file") {
            Some(CompletionItemType::File)
        } else if str_eq(s, "reference") {
            Some(CompletionItemType::Reference)
        } else if str_eq(s, "customcolor") {
            Some(CompletionItemType::Customcolor)
        } else {
            None
        }
    }

    /// Every value is found again under its name.
    pub proof fn lemma_named(self)
        ensures
            CompletionItemType::named(self.name()) == Some(self),
    {
        reveal_strlit("method");
        reveal_strlit("function");
        reveal_strlit("constructor");
        reveal_strlit("field");
        reveal_strlit("variable");
        reveal_strlit("class");
        reveal_strlit("interface");
        reveal_strlit("module");
        reveal_strlit("property");
        reveal_strlit("unit");
        reveal_strlit("value");
        reveal_strlit("enum");
        reveal_strlit("keyword");
        reveal_strlit("snippet");
        reveal_strlit("text");
        reveal_strlit("color");
        reveal_strlit("file");
        reveal_strlit("reference");
        reveal_strlit("customcolor");
        assert("method"@.len() == 6);
        assert("function"@.len() == 8);
        assert("constructor"@.len() == 11);
        assert("field"@.len() == 5);
        assert("variable"@.len() == 8);
        assert("class"@.len() == 5);
        assert("interface"@.len() == 9);
        assert("module"@.len() == 6);
        assert("property"@.len() == 8);
        assert("unit"@.len() == 4);
        assert("value"@.len() == 5);
        assert("enum"@.len() == 4);
        assert("keyword"@.len() == 7);
        assert("snippet"@.len() == 7);
        assert("text"@.len() == 4);
        assert("color"@.len() == 5);
        assert("file"@.len() == 4);
        assert("reference"@.len() == 9);
        assert("customcolor"@.len() == 11);
        assert("method"@[1] != "module"@[1]);
        assert("function"@[0] != "variable"@[0]);
        assert("function"@[0] != "property"@[0]);
        assert("constructor"@[1] != "customcolor"@[1]);
        assert("field"@[0] != "class"@[0]);
        assert("field"@[0] != "value"@[0]);
        assert("field"@[0] != "color"@[0]);
        assert("variable"@[0] != "property"@[0]);
        assert("class"@[0] != "value"@[0]);
        assert("class"@[1] != "color"@[1]);
        assert("interface"@[0] != "reference"@[0]);
        assert("unit"@[0] != "enum"@[0]);
        assert("unit"@[0] != "text"@[0]);
        assert("unit"@[0] != "file"@[0]);
        assert("value"@[0] != "color"@[0]);
        assert("enum"@[0] != "text"@[0]);
        assert("enum"@[0] != "file"@[0]);
        assert("keyword"@[0] != "snippet"@[0]);
        assert("text"@[0] != "file"@[0]);
    }
}

impl Wire for CompletionItemType {
    type Model = CompletionItemType;

    open spec fn model(&self) -> CompletionItemType {
        *self
    }

    open spec fn wire_ok(m: CompletionItemType) -> bool {
        true
    }

    open spec fn encode_json(m: CompletionItemType) -> Json {
        Json::Str(m.name())
    }

    open spec fn decode_json(j: Json) -> Result<CompletionItemType, DecodeErrorView> {
        match j {
            Json::Str(s) => match CompletionItemType::named(s) {
                Some(x) => Ok(x),
                None => Err(DecodeErrorView::InvalidType),
            },
            _ => Err(DecodeErrorView::InvalidType),
        }
    }

    fn to_value(&self) -> (r: serde_json::Value) {
        value_string(self.as_str().to_owned())
    }

    fn from_value(v: &serde_json::Value) -> (r: Result<CompletionItemType, DecodeError>) {
        match value_as_str(v) {
            Some(s) => match CompletionItemType::from_name(s) {
                Some(x) => Ok(x),
                None => Err(DecodeError::InvalidType),
            },
            None => Err(DecodeError::InvalidType),
        }
    }

    proof fn lemma_round_trip(m: CompletionItemType) {
        m.lemma_named();
    }
}

/// Properties of a data breakpoint passed to the setDataBreakpoints request.
#[derive(Clone, Debug, PartialEq, Eq)]
pub struct DataBreakpoint {
    /// An id representing the data. This id is returned from the dataBreakpointInfo request.
    pub data_id: String,

    /// The access type of the data.
    pub access_type: Option<DataBreakpointAccessType>,

    /// An optional expression for conditional breakpoints.
    pub condition: Option<String>,

    /// An optional expression that controls how many hits of the breakpoint are ignored.
    ///
    /// The backend is expected to interpret the expression as needed.
    pub hit_condition: Option<String>,
}

/// The mathematical content of a [`DataBreakpoint`].
pub struct DataBreakpointView {
    pub data_id: Seq<char>,
    pub access_type: Option<DataBreakpointAccessType>,
    pub condition: Option<Seq<char>>,
    pub hit_condition: Option<Seq<char>>,
}

impl View for DataBreakpoint {
    type V = DataBreakpointView;

    open spec fn view(&self) -> DataBreakpointView {
        DataBreakpointView {
            data_id: self.data_id.model(),
            access_type: self.access_type.model(),
            condition: self.condition.model(),
            hit_condition: self.hit_condition.model(),
        }
    }
}

impl DataBreakpoint {
    /// The fields that are written for a value.
    pub open spec fn fields(m: DataBreakpointView) -> JsonObject {
        let o = empty_object();
        let o = with_field::<String>(o, "dataId"@, m.data_id);
        let o = with_opt_field::<DataBreakpointAccessType>(o, "accessType"@, m.access_type);
        let o = with_opt_field::<String>(o, "condition"@, m.condition);
        let o = with_opt_field::<String>(o, "hitCondition"@, m.hit_condition);
        o
    }

    /// What the fields of an object decode to: the first failure in the order of
    /// the fields, or the value.
    pub open spec fn decode_fields(o: JsonObject) -> Result<DataBreakpointView, DecodeErrorView> {
        let data_id = req_field::<String>(o, "dataId"@);
        let access_type = opt_field::<DataBreakpointAccessType>(o, "accessType"@);
        let condition = opt_field::<String>(o, "condition"@);
        let hit_condition = opt_field::<String>(o, "hitCondition"@);
        if data_id is Err {
            Err(data_id->Err_0)
        } else if access_type is Err {
            Err(access_type->Err_0)
        } else if condition is Err {
            Err(condition->Err_0)
        } else if hit_condition is Err {
            Err(hit_condition->Err_0)
        } else {
            Ok(DataBreakpointView {
                data_id: data_id->Ok_0,
                access_type: access_type->Ok_0,
                condition: condition->Ok_0,
                hit_condition: hit_condition->Ok_0,
            })
        }
    }

    /// Writes the fields of the value into a fresh object.
    pub fn to_object(&self) -> (o: serde_json::Map<String, serde_json::Value>)
        ensures
            object_model(o) == DataBreakpoint::fields(self@),
    {
        let mut o = object_new();
        put::<String>(&mut o, "dataId", &self.data_id);
        put_opt::<DataBreakpointAccessType>(&mut o, "accessType", &self.access_type);
        put_opt::<String>(&mut o, "condition", &self.condition);
        put_opt::<String>(&mut o, "hitCondition", &self.hit_condition);
        o
    }

    /// Reads a value from the fields of an object.
    pub fn from_object(o: &serde_json::Map<String, serde_json::Value>) -> (r: Result<
        DataBreakpoint,
        DecodeError,
    >)
        ensures
            match r {
                Ok(x) => DataBreakpoint::decode_fields(object_model(*o)) matches Ok(m) && m == x.model(),
                Err(e) => DataBreakpoint::decode_fields(object_model(*o)) matches Err(f) && f == e@,
            },
    {
        let data_id = get_req::<String>(o, "dataId")?;
        let access_type = get_opt::<DataBreakpointAccessType>(o, "accessType")?;
        let condition = get_opt::<String>(o, "condition")?;
        let hit_condition = get_opt::<String>(o, "hitCondition")?;
        Ok(DataBreakpoint { data_id, access_type, condition, hit_condition })
    }
}

impl Wire for DataBreakpoint {
    type Model = DataBreakpointView;

    open spec fn model(&self) -> DataBreakpointView {
        self@
    }

    open spec fn wire_ok(m: DataBreakpointView) -> bool {
        true
    }

    open spec fn encode_json(m: DataBreakpointView) -> Json {
        Json::Object(DataBreakpoint::fields(m))
    }

    open spec fn decode_json(j: Json) -> Result<DataBreakpointView, DecodeErrorView> {
        match j {
            Json::Object(o) => DataBreakpoint::decode_fields(o),
            _ => Err(DecodeErrorView::InvalidType),
        }
    }

    fn to_value(&self) -> (r: serde_json::Value) {
        value_object(self.to_object())
    }

    fn from_value(v: &serde_json::Value) -> (r: Result<DataBreakpoint, DecodeError>) {
        match value_as_object(v) {
            Some(o) => DataBreakpoint::from_object(o),
            None => Err(DecodeError::InvalidType),
        }
    }

    proof fn lemma_round_trip(m: DataBreakpointView) {
        broadcast use group_field_rules;

        reveal(opt_field);
        reveal(req_field);
        reveal_strlit("dataId");
        reveal_strlit("accessType");
        reveal_strlit("condition");
        reveal_strlit("hitCondition");
        assert("dataId"@.len() == 6);
        assert("accessType"@.len() == 10);
        assert("condition"@.len() == 9);
        assert("hitCondition"@.len() == 12);
        let o = DataBreakpoint::fields(m);
        String::lemma_round_trip(m.data_id);
        assert(req_field::<String>(o, "dataId"@) matches Ok(v) && v == m.data_id);
        Option::<DataBreakpointAccessType>::lemma_round_trip(m.access_type);
        assert(opt_field::<DataBreakpointAccessType>(o, "accessType"@) matches Ok(v) && v == m.access_type);
        Option::<String>::lemma_round_trip(m.condition);
        assert(opt_field::<String>(o, "condition"@) matches Ok(v) && v == m.condition);
        Option::<String>::lemma_round_trip(m.hit_condition);
        assert(opt_field::<String>(o, "hitCondition"@) matches Ok(v) && v == m.hit_condition);
    }
}

impl Record for DataBreakpoint {
    open spec fn field_names() -> Set<Seq<char>> {
        set!["dataId"@, "accessType"@, "condition"@, "hitCondition"@]
    }

    proof fn lemma_unknown_field(o: JsonObject, key: Seq<char>, x: Json) {
        broadcast use group_field_rules;

        reveal(opt_field);
        reveal(req_field);
    }
}

impl Defaults for DataBreakpoint {
    open spec fn elidable_names() -> Set<Seq<char>> {
        set!["accessType"@, "condition"@, "hitCondition"@]
    }

    open spec fn at_defaults(m: DataBreakpointView) -> bool {
        &&& m.access_type is None
        &&& m.condition is None
        &&& m.hit_condition is None
    }

    proof fn lemma_defaults_elided(m: DataBreakpointView, key: Seq<char>) {
        broadcast use group_field_rules;

        reveal_strlit("dataId");
        reveal_strlit("accessType");
        reveal_strlit("condition");
        reveal_strlit("hitCondition");
        assert("dataId"@.len() == 6);
        assert("accessType"@.len() == 10);
        assert("condition"@.len() == 9);
        assert("hitCondition"@.len() == 12);
    }
}

/// This enumeration defines all possible access types for data breakpoints.
#[derive(Clone, Copy, Debug, PartialEq, Eq, Structural)]
pub enum DataBreakpointAccessType {
    Read,
    Write,
    ReadWrite,
}

impl DataBreakpointAccessType {
    /// The name under which the value travels.
    pub open spec fn name(self) -> Seq<char> {
        match self {
            DataBreakpointAccessType::Read => "read"@,
            DataBreakpointAccessType::Write => "write"@,
            DataBreakpointAccessType::ReadWrite => "readWrite"@,
        }
    }

    /// The value that travels under `s`, if there is one.
    pub open spec fn named(s: Seq<char>) -> Option<DataBreakpointAccessType> {
        if s == "read"@ {
            Some(DataBreakpointAccessType::Read)
        } else if s == "write"@ {
            Some(DataBreakpointAccessType::Write)
        } else if s == "readWrite"@ {
            Some(DataBreakpointAccessType::ReadWrite)
        } else {
            None
        }
    }

    pub fn as_str(&self) -> (r: &'static str)
        ensures
            r@ == self.name(),
    {
        match self {
            DataBreakpointAccessType::Read => "read",
            DataBreakpointAccessType::Write => "write",
            DataBreakpointAccessType::ReadWrite => "readWrite",
        }
    }

    pub fn from_name(s: &str) -> (r: Option<DataBreakpointAccessType>)
        ensures
            r == DataBreakpointAccessType::named(s@),
    {
        if str_eq(s, "read") {
            Some(DataBreakpointAccessType::Read)
        } else if str_eq(s, "write") {
            Some(DataBreakpointAccessType::Write)
        } else if str_eq(s, "readWrite") {
            Some(DataBreakpointAccessType::ReadWrite)
        } else {
            None
        }
    }

    /// Every value is found again under its name.
    pub proof fn lemma_named(self)
        ensures
            DataBreakpointAccessType::named(self.name()) == Some(self),
    {
        reveal_strlit("read");
        reveal_strlit("write");
        reveal_strlit("readWrite");
        assert("read"@.len() == 4);
        assert("write"@.len() == 5);
        assert("readWrite"@.len() == 9);
    }
}

impl Wire for DataBreakpointAccessType {
    type Model = DataBreakpointAccessType;

    open spec fn model(&self) -> DataBreakpointAccessType {
        *self
    }

    open spec fn wire_ok(m: DataBreakpointAccessType) -> bool {
        true
    }

    open spec fn encode_json(m: DataBreakpointAccessType) -> Json {
        Json::Str(m.name())
    }

    open spec fn decode_json(j: Json) -> Result<DataBreakpointAccessType, DecodeErrorView> {
        match j {
            Json::Str(s) => match DataBreakpointAccessType::named(s) {
                Some(x) => Ok(x),
                None => Err(DecodeErrorView::InvalidType),
            },
            _ => Err(DecodeErrorView::InvalidType),
        }
    }

    fn to_value(&self) -> (r: serde_json::Value) {
        value_string(self.as_str().to_owned())
    }

    fn from_value(v: &serde_json::Value) -> (r: Result<DataBreakpointAccessType, DecodeError>) {
        match value_as_str(v) {
            Some(s) => match DataBreakpointAccessType::from_name(s) {
                Some(x) => Ok(x),
                None => Err(DecodeError::InvalidType),
            },
            None => Err(DecodeError::InvalidType),
        }
    }

    proof fn lemma_round_trip(m: DataBreakpointAccessType) {
        m.lemma_named();
    }
}

/// Represents a single disassembled instruction.
#[derive(Clone, Debug, PartialEq, Eq)]
pub struct DisassembledInstruction {
    /// The address of the instruction. Treated as a hex value if prefixed with '0x', or as a decimal value otherwise.
    pub address: String,

    /// Optional raw bytes representing the instruction and its operands, in an implementation-defined format.
    pub instruction_bytes: Option<String>,

    /// Text representing the instruction and its operands, in an implementation-defined format.
    pub instruction: String,

    /// Name of the symbol that corresponds with the location of this instruction, if any.
    pub symbol: Option<String>,

    /// Source location that corresponds to this instruction, if any.
    ///
    /// Should always be set (if available) on the first instruction returned,
    ///
    /// but can be omitted afterwards if this instruction maps to the same source file as the previous instruction.
    pub location: Option<Source>,

    /// The line within the source location that corresponds to this instruction, if any.
    pub line: Option<i32>,

    /// The column within the line that corresponds to this instruction, if any.
    pub column: Option<i32>,

    /// The end line of the range that corresponds to this instruction, if any.
    pub end_line: Option<i32>,

    /// The end column of the range that corresponds to this instruction, if any.
    pub end_column: Option<i32>,
}

/// The mathematical content of a [`DisassembledInstruction`].
pub struct DisassembledInstructionView {
    pub address: Seq<char>,
    pub instruction_bytes: Option<Seq<char>>,
    pub instruction: Seq<char>,
    pub symbol: Option<Seq<char>>,
    pub location: Option<SourceView>,
    pub line: Option<i32>,
    pub column: Option<i32>,
    pub end_line: Option<i32>,
    pub end_column: Option<i32>,
}

impl View for DisassembledInstruction {
    type V = DisassembledInstructionView;

    open spec fn view(&self) -> DisassembledInstructionView {
        DisassembledInstructionView {
            address: self.address.model(),
            instruction_bytes: self.instruction_bytes.model(),
            instruction: self.instruction.model(),
            symbol: self.symbol.model(),
            location: self.location.model(),
            line: self.line.model(),
            column: self.column.model(),
            end_line: self.end_line.model(),
            end_column: self.end_column.model(),
        }
    }
}

impl DisassembledInstruction {
    /// The fields that are written for a value.
    pub open spec fn fields(m: DisassembledInstructionView) -> JsonObject {
        let o = empty_object();
        let o = with_field::<String>(o, "address"@, m.address);
        let o = with_opt_field::<String>(o, "instructionBytes"@, m.instruction_bytes);
        let o = with_field::<String>(o, "instruction"@, m.instruction);
        let o = with_opt_field::<String>(o, "symbol"@, m.symbol);
        let o = with_opt_field::<Source>(o, "location"@, m.location);
        let o = with_opt_field::<i32>(o, "line"@, m.line);
        let o = with_opt_field::<i32>(o, "column"@, m.column);
        let o = with_opt_field::<i32>(o, "endLine"@, m.end_line);
        let o = with_opt_field::<i32>(o, "endColumn"@, m.end_column);
        o
    }

    /// What the fields of an object decode to: the first failure in the order of
    /// the fields, or the value.
    pub open spec fn decode_fields(o: JsonObject) -> Result<DisassembledInstructionView, DecodeErrorView> {
        let address = req_field::<String>(o, "address"@);
        let instruction_bytes = opt_field::<String>(o, "instructionBytes"@);
        let instruction = req_field::<String>(o, "instruction"@);
        let symbol = opt_field::<String>(o, "symbol"@);
        let location = opt_field::<Source>(o, "location"@);
        let line = opt_field::<i32>(o, "line"@);
        let column = opt_field::<i32>(o, "column"@);
        let end_line = opt_field::<i32>(o, "endLine"@);
        let end_column = opt_field::<i32>(o, "endColumn"@);
        if address is Err {
            Err(address->Err_0)
        } else if instruction_bytes is Err {
            Err(instruction_bytes->Err_0)
        } else if instruction is Err {
            Err(instruction->Err_0)
        } else if symbol is Err {
            Err(symbol->Err_0)
        } else if location is Err {
            Err(location->Err_0)
        } else if line is Err {
            Err(line->Err_0)
        } else if column is Err {
            Err(column->Err_0)
        } else if end_line is Err {
            Err(end_line->Err_0)
        } else if end_column is Err {
            Err(end_column->Err_0)
        } else {
            Ok(DisassembledInstructionView {
                address: address->Ok_0,
                instruction_bytes: instruction_bytes->Ok_0,
                instruction: instruction->Ok_0,
                symbol: symbol->Ok_0,
                location: location->Ok_0,
                line: line->Ok_0,
                column: column->Ok_0,
                end_line: end_line->Ok_0,
                end_column: end_column->Ok_0,
            })
        }
    }

    /// Writes the fields of the value into a fresh object.
    pub fn to_object(&self) -> (o: serde_json::Map<String, serde_json::Value>)
        ensures
            object_model(o) == DisassembledInstruction::fields(self@),
    {
        let mut o = object_new();
        put::<String>(&mut o, "address", &self.address);
        put_opt::<String>(&mut o, "instructionBytes", &self.instruction_bytes);
        put::<String>(&mut o, "instruction", &self.instruction);
        put_opt::<String>(&mut o, "symbol", &self.symbol);
        put_opt::<Source>(&mut o, "location", &self.location);
        put_opt::<i32>(&mut o, "line", &self.line);
        put_opt::<i32>(&mut o, "column", &self.column);
        put_opt::<i32>(&mut o, "endLine", &self.end_line);
        put_opt::<i32>(&mut o, "endColumn", &self.end_column);
        o
    }

    /// Reads a value from the fields of an object.
    pub fn from_object(o: &serde_json::Map<String, serde_json::Value>) -> (r: Result<
        DisassembledInstruction,
        DecodeError,
    >)
        ensures
            match r {
                Ok(x) => DisassembledInstruction::decode_fields(object_model(*o)) matches Ok(m) && m == x.model(),
                Err(e) => DisassembledInstruction::decode_fields(object_model(*o)) matches Err(f) && f == e@,
            },
    {
        let address = get_req::<String>(o, "address")?;
        let instruction_bytes = get_opt::<String>(o, "instructionBytes")?;
        let instruction = get_req::<String>(o, "instruction")?;
        let symbol = get_opt::<String>(o, "symbol")?;
        let location = get_opt::<Source>(o, "location")?;
        let line = get_opt::<i32>(o, "line")?;
        let column = get_opt::<i32>(o, "column")?;
        let end_line = get_opt::<i32>(o, "endLine")?;
        let end_column = get_opt::<i32>(o, "endColumn")?;
        Ok(DisassembledInstruction { address, instruction_bytes, instruction, symbol, location, line, column, end_line, end_column })
    }
}

impl Wire for DisassembledInstruction {
    type Model = DisassembledInstructionView;

    open spec fn model(&self) -> DisassembledInstructionView {
        self@
    }

    open spec fn wire_ok(m: DisassembledInstructionView) -> bool {
        &&& Option::<Source>::wire_ok(m.location)
    }

    open spec fn encode_json(m: DisassembledInstructionView) -> Json {
        Json::Object(DisassembledInstruction::fields(m))
    }

    open spec fn decode_json(j: Json) -> Result<DisassembledInstructionView, DecodeErrorView> {
        match j {
            Json::Object(o) => DisassembledInstruction::decode_fields(o),
            _ => Err(DecodeErrorView::InvalidType),
        }
    }

    fn to_value(&self) -> (r: serde_json::Value) {
        value_object(self.to_object())
    }

    fn from_value(v: &serde_json::Value) -> (r: Result<DisassembledInstruction, DecodeError>) {
        match value_as_object(v) {
            Some(o) => DisassembledInstruction::from_object(o),
            None => Err(DecodeError::InvalidType),
        }
    }

    proof fn lemma_round_trip(m: DisassembledInstructionView) {
        broadcast use group_field_rules;

        reveal(opt_field);
        reveal(req_field);
        reveal_strlit("address");
        reveal_strlit("instructionBytes");
        reveal_strlit("instruction");
        reveal_strlit("symbol");
        reveal_strlit("location");
        reveal_strlit("line");
        reveal_strlit("column");
        reveal_strlit("endLine");
        reveal_strlit("endColumn");
        assert("address"@.len() == 7);
        assert("instructionBytes"@.len() == 16);
        assert("instruction"@.len() == 11);
        assert("symbol"@.len() == 6);
        assert("location"@.len() == 8);
        assert("line"@.len() == 4);
        assert("column"@.len() == 6);
        assert("endLine"@.len() == 7);
        assert("endColumn"@.len() == 9);
        assert("address"@[0] != "endLine"@[0]);
        assert("symbol"@[0] != "column"@[0]);
        let o = DisassembledInstruction::fields(m);
        String::lemma_round_trip(m.address);
        assert(req_field::<String>(o, "address"@) matches Ok(v) && v == m.address);
        Option::<String>::lemma_round_trip(m.instruction_bytes);
        assert(opt_field::<String>(o, "instructionBytes"@) matches Ok(v) && v == m.instruction_bytes);
        String::lemma_round_trip(m.instruction);
        assert(req_field::<String>(o, "instruction"@) matches Ok(v) && v == m.instruction);
        Option::<String>::lemma_round_trip(m.symbol);
        assert(opt_field::<String>(o, "symbol"@) matches Ok(v) && v == m.symbol);
        Option::<Source>::lemma_round_trip(m.location);
        assert(opt_field::<Source>(o, "location"@) matches Ok(v) && v == m.location);
        Option::<i32>::lemma_round_trip(m.line);
        assert(opt_field::<i32>(o, "line"@) matches Ok(v) && v == m.line);
        Option::<i32>::lemma_round_trip(m.column);
        assert(opt_field::<i32>(o, "column"@) matches Ok(v) && v == m.column);
        Option::<i32>::lemma_round_trip(m.end_line);
        assert(opt_field::<i32>(o, "endLine"@) matches Ok(v) && v == m.end_line);
        Option::<i32>::lemma_round_trip(m.end_column);
        assert(opt_field::<i32>(o, "endColumn"@) matches Ok(v) && v == m.end_column);
    }
}

impl Record for DisassembledInstruction {
    open spec fn field_names() -> Set<Seq<char>> {
        set!["address"@, "instructionBytes"@, "instruction"@, "symbol"@, "location"@, "line"@, "column"@, "endLine"@, "endColumn"@]
    }

    proof fn lemma_unknown_field(o: JsonObject, key: Seq<char>, x: Json) {
        broadcast use group_field_rules;

        reveal(opt_field);
        reveal(req_field);
    }
}

impl Defaults for DisassembledInstruction {
    open spec fn elidable_names() -> Set<Seq<char>> {
        set!["instructionBytes"@, "symbol"@, "location"@, "line"@, "column"@, "endLine"@, "endColumn"@]
    }

    open spec fn at_defaults(m: DisassembledInstructionView) -> bool {
        &&& m.instruction_bytes is None
        &&& m.symbol is None
        &&& m.location is None
        &&& m.line is None
        &&& m.column is None
        &&& m.end_line is None
        &&& m.end_column is None
    }

    proof fn lemma_defaults_elided(m: DisassembledInstructionView, key: Seq<char>) {
        broadcast use group_field_rules;

        reveal_strlit("address");
        reveal_strlit("instructionBytes");
        reveal_strlit("instruction");
        reveal_strlit("symbol");
        reveal_strlit("location");
        reveal_strlit("line");
        reveal_strlit("column");
        reveal_strlit("endLine");
        reveal_strlit("endColumn");
        assert("address"@.len() == 7);
        assert("instructionBytes"@.len() == 16);
        assert("instruction"@.len() == 11);
        assert("symbol"@.len() == 6);
        assert("location"@.len() == 8);
        assert("line"@.len() == 4);
        assert("column"@.len() == 6);
        assert("endLine"@.len() == 7);
        assert("endColumn"@.len() == 9);
        assert("address"@[0] != "endLine"@[0]);
        assert("symbol"@[0] != "column"@[0]);
    }
}

/// This enumeration defines all possible conditions when a thrown exception should result in a break.
///
/// never: never breaks,
///
/// always: always breaks,
///
/// unhandled: breaks when exception unhandled,
///
/// userUnhandled: breaks if the exception is not handled by user code.
#[derive(Clone, Copy, Debug, PartialEq, Eq, Structural)]
pub enum ExceptionBreakMode {
    Never,
    Always,
    Unhandled,
    UserUnhandled,
}

impl ExceptionBreakMode {
    /// The name under which the value travels.
    pub open spec fn name(self) -> Seq<char> {
        match self {
            ExceptionBreakMode::Never => "never"@,
            ExceptionBreakMode::Always => "always"@,
            ExceptionBreakMode::Unhandled => "unhandled"@,
            ExceptionBreakMode::UserUnhandled => "userUnhandled"@,
        }
    }

    /// The value that travels under `s`, if there is one.
    pub open spec fn named(s: Seq<char>) -> Option<ExceptionBreakMode> {
        if s == "never"@ {
            Some(ExceptionBreakMode::Never)
        } else if s == "always"@ {
            Some(ExceptionBreakMode::Always)
        } else if s == "unhandled"@ {
            Some(ExceptionBreakMode::Unhandled)
        } else if s == "userUnhandled"@ {
            Some(ExceptionBreakMode::UserUnhandled)
        } else {
            None
        }
    }

    pub fn as_str(&self) -> (r: &'static str)
        ensures
            r@ == self.name(),
    {
        match self {
            ExceptionBreakMode::Never => "never",
            ExceptionBreakMode::Always => "always",
            ExceptionBreakMode::Unhandled => "unhandled",
            ExceptionBreakMode::UserUnhandled => "userUnhandled",
        }
    }

    pub fn from_name(s: &str) -> (r: Option<ExceptionBreakMode>)
        ensures
            r == ExceptionBreakMode::named(s@),
    {
        if str_eq(s, "never") {
            Some(ExceptionBreakMode::Never)
        } else if str_eq(s, "always") {
            Some(ExceptionBreakMode::Always)
        } else if str_eq(s, "unhandled") {
            Some(ExceptionBreakMode::Unhandled)
        } else if str_eq(s, "userUnhandled") {
            Some(ExceptionBreakMode::UserUnhandled)
        } else {
            None
        }
    }

    /// Every value is found again under its name.
    pub proof fn lemma_named(self)
        ensures
            ExceptionBreakMode::named(self.name()) == Some(self),
    {
        reveal_strlit("never");
        reveal_strlit("always");
        reveal_strlit("unhandled");
        reveal_strlit("userUnhandled");
        assert("never"@.len() == 5);
        assert("always"@.len() == 6);
        assert("unhandled"@.len() == 9);
        assert("userUnhandled"@.len() == 13);
    }
}

impl Wire for ExceptionBreakMode {
    type Model = ExceptionBreakMode;

    open spec fn model(&self) -> ExceptionBreakMode {
        *self
    }

    open spec fn wire_ok(m: ExceptionBreakMode) -> bool {
        true
    }

    open spec fn encode_json(m: ExceptionBreakMode) -> Json {
        Json::Str(m.name())
    }

    open spec fn decode_json(j: Json) -> Result<ExceptionBreakMode, DecodeErrorView> {
        match j {
            Json::Str(s) => match ExceptionBreakMode::named(s) {
                Some(x) => Ok(x),
                None => Err(DecodeErrorView::InvalidType),
            },
            _ => Err(DecodeErrorView::InvalidType),
        }
    }

    fn to_value(&self) -> (r: serde_json::Value) {
        value_string(self.as_str().to_owned())
    }

    fn from_value(v: &serde_json::Value) -> (r: Result<ExceptionBreakMode, DecodeError>) {
        match value_as_str(v) {
            Some(s) => match ExceptionBreakMode::from_name(s) {
                Some(x) => Ok(x),
                None => Err(DecodeError::InvalidType),
            },
            None => Err(DecodeError::InvalidType),
        }
    }

    proof fn lemma_round_trip(m: ExceptionBreakMode) {
        m.lemma_named();
    }
}

/// An ExceptionBreakpointsFilter is shown in the UI as an filter option for configuring how exceptions are dealt with.
#[derive(Clone, Debug, PartialEq, Eq)]
pub struct ExceptionBreakpointsFilter {
    /// The internal ID of the filter option. This value is passed to the 'setExceptionBreakpoints' request.
    pub filter: String,

    /// The name of the filter option. This will be shown in the UI.
    pub label: String,

    /// An optional help text providing additional information about the exception filter. This string is typically shown as a hover and must be translated.
    pub description: Option<String>,

    /// Initial value of the filter option. If not specified a value 'false' is assumed.
    pub default: bool,

    /// Controls whether a condition can be specified for this filter option. If false or missing, a condition can not be set.
    pub supports_condition: bool,

    /// An optional help text providing information about the condition. This string is shown as the placeholder text for a text box and must be translated.
    pub condition_description: Option<String>,
}

/// The mathematical content of a [`ExceptionBreakpointsFilter`].
pub struct ExceptionBreakpointsFilterView {
    pub filter: Seq<char>,
    pub label: Seq<char>,
    pub description: Option<Seq<char>>,
    pub default: bool,
    pub supports_condition: bool,
    pub condition_description: Option<Seq<char>>,
}

impl View for ExceptionBreakpointsFilter {
    type V = ExceptionBreakpointsFilterView;

    open spec fn view(&self) -> ExceptionBreakpointsFilterView {
        ExceptionBreakpointsFilterView {
            filter: self.filter.model(),
            label: self.label.model(),
            description: self.description.model(),
            default: self.default,
            supports_condition: self.supports_condition,
            condition_description: self.condition_description.model(),
        }
    }
}

impl ExceptionBreakpointsFilter {
    /// The fields that are written for a value.
    pub open spec fn fields(m: ExceptionBreakpointsFilterView) -> JsonObject {
        let o = empty_object();
        let o = with_field::<String>(o, "filter"@, m.filter);
        let o = with_field::<String>(o, "label"@, m.label);
        let o = with_opt_field::<String>(o, "description"@, m.description);
        let o = with_nondefault_field::<bool>(o, "default"@, m.default, false);
        let o = with_nondefault_field::<bool>(o, "supportsCondition"@, m.supports_condition, false);
        let o = with_opt_field::<String>(o, "conditionDescription"@, m.condition_description);
        o
    }

    /// What the fields of an object decode to: the first failure in the order of
    /// the fields, or the value.
    pub open spec fn decode_fields(o: JsonObject) -> Result<ExceptionBreakpointsFilterView, DecodeErrorView> {
        let filter = req_field::<String>(o, "filter"@);
        let label = req_field::<String>(o, "label"@);
        let description = opt_field::<String>(o, "description"@);
        let default = default_field::<bool>(o, "default"@, false);
        let supports_condition = default_field::<bool>(o, "supportsCondition"@, false);
        let condition_description = opt_field::<String>(o, "conditionDescription"@);
        if filter is Err {
            Err(filter->Err_0)
        } else if label is Err {
            Err(label->Err_0)
        } else if description is Err {
            Err(description->Err_0)
        } else if default is Err {
            Err(default->Err_0)
        } else if supports_condition is Err {
            Err(supports_condition->Err_0)
        } else if condition_description is Err {
            Err(condition_description->Err_0)
        } else {
            Ok(ExceptionBreakpointsFilterView {
                filter: filter->Ok_0,
                label: label->Ok_0,
                description: description->Ok_0,
                default: default->Ok_0,
                supports_condition: supports_condition->Ok_0,
                condition_description: condition_description->Ok_0,
            })
        }
    }

    /// Writes the fields of the value into a fresh object.
    pub fn to_object(&self) -> (o: serde_json::Map<String, serde_json::Value>)
        ensures
            object_model(o) == ExceptionBreakpointsFilter::fields(self@),
    {
        let mut o = object_new();
        put::<String>(&mut o, "filter", &self.filter);
        put::<String>(&mut o, "label", &self.label);
        put_opt::<String>(&mut o, "description", &self.description);
        put_flag(&mut o, "default", self.default);
        put_flag(&mut o, "supportsCondition", self.supports_condition);
        put_opt::<String>(&mut o, "conditionDescription", &self.condition_description);
        o
    }

    /// Reads a value from the fields of an object.
    pub fn from_object(o: &serde_json::Map<String, serde_json::Value>) -> (r: Result<
        ExceptionBreakpointsFilter,
        DecodeError,
    >)
        ensures
            match r {
                Ok(x) => ExceptionBreakpointsFilter::decode_fields(object_model(*o)) matches Ok(m) && m == x.model(),
                Err(e) => ExceptionBreakpointsFilter::decode_fields(object_model(*o)) matches Err(f) && f == e@,
            },
    {
        let filter = get_req::<String>(o, "filter")?;
        let label = get_req::<String>(o, "label")?;
        let description = get_opt::<String>(o, "description")?;
        let default = get_or::<bool>(o, "default", false)?;
        let supports_condition = get_or::<bool>(o, "supportsCondition", false)?;
        let condition_description = get_opt::<String>(o, "conditionDescription")?;
        Ok(ExceptionBreakpointsFilter { filter, label, description, default, supports_condition, condition_description })
    }
}

impl Wire for ExceptionBreakpointsFilter {
    type Model = ExceptionBreakpointsFilterView;

    open spec fn model(&self) -> ExceptionBreakpointsFilterView {
        self@
    }

    open spec fn wire_ok(m: ExceptionBreakpointsFilterView) -> bool {
        true
    }

    open spec fn encode_json(m: ExceptionBreakpointsFilterView) -> Json {
        Json::Object(ExceptionBreakpointsFilter::fields(m))
    }

    open spec fn decode_json(j: Json) -> Result<ExceptionBreakpointsFilterView, DecodeErrorView> {
        match j {
            Json::Object(o) => ExceptionBreakpointsFilter::decode_fields(o),
            _ => Err(DecodeErrorView::InvalidType),
        }
    }

    fn to_value(&self) -> (r: serde_json::Value) {
        value_object(self.to_object())
    }

    fn from_value(v: &serde_json::Value) -> (r: Result<ExceptionBreakpointsFilter, DecodeError>) {
        match value_as_object(v) {
            Some(o) => ExceptionBreakpointsFilter::from_object(o),
            None => Err(DecodeError::InvalidType),
        }
    }

    proof fn lemma_round_trip(m: ExceptionBreakpointsFilterView) {
        broadcast use group_field_rules;

        reveal(default_field);
        reveal(opt_field);
        reveal(req_field);
        reveal_strlit("filter");
        reveal_strlit("label");
        reveal_strlit("description");
        reveal_strlit("default");
        reveal_strlit("supportsCondition");
        reveal_strlit("conditionDescription");
        assert("filter"@.len() == 6);
        assert("label"@.len() == 5);
        assert("description"@.len() == 11);
        assert("default"@.len() == 7);
        assert("supportsCondition"@.len() == 17);
        assert("conditionDescription"@.len() == 20);
        let o = ExceptionBreakpointsFilter::fields(m);
        String::lemma_round_trip(m.filter);
        assert(req_field::<String>(o, "filter"@) matches Ok(v) && v == m.filter);
        String::lemma_round_trip(m.label);
        assert(req_field::<String>(o, "label"@) matches Ok(v) && v == m.label);
        Option::<String>::lemma_round_trip(m.description);
        assert(opt_field::<String>(o, "description"@) matches Ok(v) && v == m.description);
        bool::lemma_round_trip(m.default);
        assert(default_field::<bool>(o, "default"@, false) matches Ok(v) && v == m.default);
        bool::lemma_round_trip(m.supports_condition);
        assert(default_field::<bool>(o, "supportsCondition"@, false) matches Ok(v) && v == m.supports_condition);
        Option::<String>::lemma_round_trip(m.condition_description);
        assert(opt_field::<String>(o, "conditionDescription"@) matches Ok(v) && v == m.condition_description);
    }
}

impl Record for ExceptionBreakpointsFilter {
    open spec fn field_names() -> Set<Seq<char>> {
        set!["filter"@, "label"@, "description"@, "default"@, "supportsCondition"@, "conditionDescription"@]
    }

    proof fn lemma_unknown_field(o: JsonObject, key: Seq<char>, x: Json) {
        broadcast use group_field_rules;

        reveal(default_field);
        reveal(opt_field);
        reveal(req_field);
    }
}

impl Defaults for ExceptionBreakpointsFilter {
    open spec fn elidable_names() -> Set<Seq<char>> {
        set!["description"@, "default"@, "supportsCondition"@, "conditionDescription"@]
    }

    open spec fn at_defaults(m: ExceptionBreakpointsFilterView) -> bool {
        &&& m.description is None
        &&& !m.default
        &&& !m.supports_condition
        &&& m.condition_description is None
    }

    proof fn lemma_defaults_elided(m: ExceptionBreakpointsFilterView, key: Seq<char>) {
        broadcast use group_field_rules;

        reveal_strlit("filter");
        reveal_strlit("label");
        reveal_strlit("description");
        reveal_strlit("default");
        reveal_strlit("supportsCondition");
        reveal_strlit("conditionDescription");
        assert("filter"@.len() == 6);
        assert("label"@.len() == 5);
        assert("description"@.len() == 11);
        assert("default"@.len() == 7);
        assert("supportsCondition"@.len() == 17);
        assert("conditionDescription"@.len() == 20);
    }
}

/// Detailed information about an exception that has occurred.
#[derive(Debug, PartialEq, Eq)]
pub struct ExceptionDetails {
    /// Message contained in the exception.
    pub message: Option<String>,

    /// Short type name of the exception object.
    pub type_name_: Option<String>,

    /// Fully-qualified type name of the exception object.
    pub full_type_name: Option<String>,

    /// Optional expression that can be evaluated in the current scope to obtain the exception object.
    pub evaluate_name: Option<String>,

    /// Stack trace at the time the exception was thrown.
    pub stack_trace: Option<String>,

    /// Details of the exception contained by this exception, if any.
    pub inner_exception: Vec<ExceptionDetails>,
}

/// The mathematical content of a [`ExceptionDetails`].
pub struct ExceptionDetailsView {
    pub message: Option<Seq<char>>,
    pub type_name_: Option<Seq<char>>,
    pub full_type_name: Option<Seq<char>>,
    pub evaluate_name: Option<Seq<char>>,
    pub stack_trace: Option<Seq<char>>,
    pub inner_exception: Seq<ExceptionDetailsView>,
}

/// The content of a value and of the values nested in it.
pub open spec fn exception_details_view(x: ExceptionDetails) -> ExceptionDetailsView
    decreases x,
{
    ExceptionDetailsView {
        message: x.message.model(),
        type_name_: x.type_name_.model(),
        full_type_name: x.full_type_name.model(),
        evaluate_name: x.evaluate_name.model(),
        stack_trace: x.stack_trace.model(),
        inner_exception: Seq::new(
            x.inner_exception@.len(),
            |i: int|
                if 0 <= i < x.inner_exception@.len() {
                    exception_details_view(x.inner_exception@[i])
                } else {
                    arbitrary()
                },
        ),
    }
}

impl View for ExceptionDetails {
    type V = ExceptionDetailsView;

    open spec fn view(&self) -> ExceptionDetailsView {
        exception_details_view(*self)
    }
}

/// The values that come back unchanged from a trip over the wire.
pub open spec fn exception_details_wire_ok(m: ExceptionDetailsView) -> bool {
    true
}

/// What is written for a list of nested values.
pub open spec fn exception_details_encode_seq(s: Seq<ExceptionDetailsView>) -> Seq<Json>
    decreases s, 0int,
{
    Seq::new(
        s.len(),
        |i: int|
            if 0 <= i < s.len() {
                exception_details_encode(s[i])
            } else {
                Json::Null
            },
    )
}

/// What is written for a value.
pub open spec fn exception_details_encode(m: ExceptionDetailsView) -> Json
    decreases m, 2int,
{
    Json::Object(exception_details_fields(m))
}

/// The fields that are written for a value.
pub open spec fn exception_details_fields(m: ExceptionDetailsView) -> JsonObject
    decreases m, 1int,
{
    let o = empty_object();
    let o = with_opt_field::<String>(o, "message"@, m.message);
    let o = with_opt_field::<String>(o, "typeName"@, m.type_name_);
    let o = with_opt_field::<String>(o, "fullTypeName"@, m.full_type_name);
    let o = with_opt_field::<String>(o, "evaluateName"@, m.evaluate_name);
    let o = with_opt_field::<String>(o, "stackTrace"@, m.stack_trace);
    let o = set_field(
        o,
        "innerException"@,
        if m.inner_exception.len() == 0 {
            None
        } else {
            Some(Json::Array(exception_details_encode_seq(m.inner_exception)))
        },
    );
    o
}

/// The first failure among the elements of `s`, or what they all decode to.
pub open spec fn exception_details_decode_seq(s: Seq<Json>) -> Result<Seq<ExceptionDetailsView>, DecodeErrorView>
    decreases s, 0int,
{
    if s.len() == 0 {
        Ok(Seq::empty())
    } else {
        match exception_details_decode_seq(s.drop_last()) {
            Err(e) => Err(e),
            Ok(front) => match exception_details_decode(s.last()) {
                Err(e) => Err(e),
                Ok(x) => Ok(front.push(x)),
            },
        }
    }
}

/// The nested list of an object: empty where the field is absent.
pub open spec fn exception_details_decode_nested(j: Json) -> Result<Seq<ExceptionDetailsView>, DecodeErrorView>
    decreases j, 1int,
{
    match j {
        Json::Object(o) => {
            let i = place(o, "innerException"@);
            if 0 <= i < o.len() {
                match o[i].1 {
                    Json::Array(s) => exception_details_decode_seq(s),
                    _ => Err(DecodeErrorView::InvalidType),
                }
            } else {
                Ok(Seq::empty())
            }
        },
        _ => Ok(Seq::empty()),
    }
}

/// What a JSON value decodes to.
pub open spec fn exception_details_decode(j: Json) -> Result<ExceptionDetailsView, DecodeErrorView>
    decreases j, 2int,
{
    match j {
        Json::Object(o) => {
            let message = opt_field::<String>(o, "message"@);
            let type_name_ = opt_field::<String>(o, "typeName"@);
            let full_type_name = opt_field::<String>(o, "fullTypeName"@);
            let evaluate_name = opt_field::<String>(o, "evaluateName"@);
            let stack_trace = opt_field::<String>(o, "stackTrace"@);
            let inner_exception = exception_details_decode_nested(j);
            if message is Err {
                Err(message->Err_0)
            } else if type_name_ is Err {
                Err(type_name_->Err_0)
            } else if full_type_name is Err {
                Err(full_type_name->Err_0)
            } else if evaluate_name is Err {
                Err(evaluate_name->Err_0)
            } else if stack_trace is Err {
                Err(stack_trace->Err_0)
            } else if inner_exception is Err {
                Err(inner_exception->Err_0)
            } else {
                Ok(ExceptionDetailsView {
                    message: message->Ok_0,
                    type_name_: type_name_->Ok_0,
                    full_type_name: full_type_name->Ok_0,
                    evaluate_name: evaluate_name->Ok_0,
                    stack_trace: stack_trace->Ok_0,
                    inner_exception: inner_exception->Ok_0,
                })
            }
        },
        _ => Err(DecodeErrorView::InvalidType),
    }
}

impl Clone for ExceptionDetails {
    fn clone(&self) -> (r: ExceptionDetails)
        decreases self,
    {
        let mut inner_exception: Vec<ExceptionDetails> = Vec::new();
        let mut i: usize = 0;
        while i < self.inner_exception.len()
            invariant
                i <= self.inner_exception.len(),
            decreases self.inner_exception.len() - i,
        {
            inner_exception.push(self.inner_exception[i].clone());
            i += 1;
        }
        ExceptionDetails {
            message: self.message.clone(),
            type_name_: self.type_name_.clone(),
            full_type_name: self.full_type_name.clone(),
            evaluate_name: self.evaluate_name.clone(),
            stack_trace: self.stack_trace.clone(),
            inner_exception,
        }
    }
}

fn exception_details_to_value(x: &ExceptionDetails) -> (r: serde_json::Value)
    ensures
        json_model(r) == exception_details_encode(x@),
    decreases x,
{
    let mut o = object_new();
    put_opt::<String>(&mut o, "message", &x.message);
    put_opt::<String>(&mut o, "typeName", &x.type_name_);
    put_opt::<String>(&mut o, "fullTypeName", &x.full_type_name);
    put_opt::<String>(&mut o, "evaluateName", &x.evaluate_name);
    put_opt::<String>(&mut o, "stackTrace", &x.stack_trace);

    let ghost before = object_model(o);
    if x.inner_exception.len() != 0 {
        let mut items: Vec<serde_json::Value> = Vec::new();
        let mut i: usize = 0;
        while i < x.inner_exception.len()
            invariant
                i <= x.inner_exception.len(),
                items@.len() == i,
                forall|k: int|
                    0 <= k < i ==> json_model(#[trigger] items@[k]) == exception_details_encode(x.inner_exception@[k]@),
            decreases x.inner_exception.len() - i,
        {
            let item = exception_details_to_value(&x.inner_exception[i]);
            items.push(item);
            i += 1;
        }
        assert(array_model(items@) =~= exception_details_encode_seq(x@.inner_exception));
        object_insert(&mut o, "innerException".to_owned(), value_array(items));
    }
    assert(object_model(o) == set_field(
        before,
        "innerException"@,
        if x@.inner_exception.len() == 0 {
            None
        } else {
            Some(Json::Array(exception_details_encode_seq(x@.inner_exception)))
        },
    )) by {
        reveal(set_field);
    }

    value_object(o)
}

fn exception_details_nested_from_object(o: &serde_json::Map<String, serde_json::Value>) -> (r: Result<
    Vec<ExceptionDetails>,
    DecodeError,
>)
    ensures
        match r {
            Ok(xs) => exception_details_decode_nested(Json::Object(object_model(*o))) matches Ok(ms) && ms.len()
                == xs@.len() && forall|i: int| 0 <= i < ms.len() ==> #[trigger] ms[i] == xs@[i]@,
            Err(e) => exception_details_decode_nested(Json::Object(object_model(*o))) matches Err(f) && f
                == e@,
        },
    decreases Json::Object(object_model(*o)), 0int,
{
    proof {
        reveal(field);
        lemma_place(object_model(*o), "innerException"@);
    }
    match object_get(o, "innerException") {
        None => Ok(Vec::new()),
        Some(x) => match value_as_array(x) {
            None => Err(DecodeError::InvalidType),
            Some(a) => {
                let ghost s = array_model(a@);
                let mut out: Vec<ExceptionDetails> = Vec::new();
                let mut i: usize = 0;
                assert(s.take(0) =~= Seq::empty());
                while i < a.len()
                    invariant
                        i <= a.len(),
                        s == array_model(a@),
                        0 <= place(object_model(*o), "innerException"@) < object_model(*o).len(),
                        object_model(*o)[place(object_model(*o), "innerException"@)].1 == Json::Array(s),
                        out@.len() == i,
                        exception_details_decode_seq(s.take(i as int)) matches Ok(front) && front.len() == i
                            && forall|k: int| 0 <= k < i ==> #[trigger] front[k] == out@[k]@,
                    decreases a.len() - i,
                {
                    proof {
                        assert(s.take(i + 1).drop_last() =~= s.take(i as int));
                        assert(s.take(i + 1).last() == json_model(a@[i as int]));
                        assert(s[i as int] == json_model(a@[i as int]));
                    }
                    match exception_details_from_value(&a[i]) {
                        Err(e) => {
                            proof {
                                assert(exception_details_decode_seq(s.take(i + 1)) matches Err(f) && f == e@);
                                lemma_exception_details_decode_seq_prefix_err(s, i + 1);
                            }
                            return Err(e);
                        },
                        Ok(y) => {
                            out.push(y);
                        },
                    }
                    i += 1;
                }
                assert(s.take(i as int) =~= s);
                Ok(out)
            },
        },
    }
}

fn exception_details_from_value(v: &serde_json::Value) -> (r: Result<ExceptionDetails, DecodeError>)
    ensures
        match r {
            Ok(x) => exception_details_decode(json_model(*v)) matches Ok(m) && m == x@,
            Err(e) => exception_details_decode(json_model(*v)) matches Err(f) && f == e@,
        },
    decreases json_model(*v), 1int,
{
    let o = match value_as_object(v) {
        Some(o) => o,
        None => {
            return Err(DecodeError::InvalidType);
        },
    };
    let message = get_opt::<String>(o, "message")?;
    let type_name_ = get_opt::<String>(o, "typeName")?;
    let full_type_name = get_opt::<String>(o, "fullTypeName")?;
    let evaluate_name = get_opt::<String>(o, "evaluateName")?;
    let stack_trace = get_opt::<String>(o, "stackTrace")?;

    let inner_exception = exception_details_nested_from_object(o)?;

    let x = ExceptionDetails { message, type_name_, full_type_name, evaluate_name, stack_trace, inner_exception };
    assert(x@.inner_exception =~= exception_details_decode_nested(json_model(*v))->Ok_0);
    Ok(x)
}

/// Where a prefix of `s` fails to decode, `s` fails in the same way.
pub proof fn lemma_exception_details_decode_seq_prefix_err(s: Seq<Json>, n: int)
    requires
        0 <= n <= s.len(),
        exception_details_decode_seq(s.take(n)) is Err,
    ensures
        exception_details_decode_seq(s) == exception_details_decode_seq(s.take(n)),
    decreases s.len(),
{
    if n < s.len() {
        assert(s.drop_last().take(n) =~= s.take(n));
        lemma_exception_details_decode_seq_prefix_err(s.drop_last(), n);
    } else {
        assert(s.take(n) =~= s);
    }
}

/// Decoding what was encoded gives a list of nested values back.
pub proof fn lemma_exception_details_seq_round_trip(s: Seq<ExceptionDetailsView>)
    requires
        forall|i: int| 0 <= i < s.len() ==> exception_details_wire_ok(#[trigger] s[i]),
    ensures
        exception_details_decode_seq(exception_details_encode_seq(s)) matches Ok(back) && back == s,
    decreases s, 0int,
{
    let e = exception_details_encode_seq(s);
    if s.len() > 0 {
        assert(e.drop_last() =~= exception_details_encode_seq(s.drop_last()));
        lemma_exception_details_seq_round_trip(s.drop_last());
        lemma_exception_details_round_trip(s.last());
        assert(s.drop_last().push(s.last()) =~= s);
    } else {
        assert(s =~= Seq::empty());
    }
}

/// Decoding what was encoded gives the value back, nested values included.
pub proof fn lemma_exception_details_round_trip(m: ExceptionDetailsView)
    requires
        exception_details_wire_ok(m),
    ensures
        exception_details_decode(exception_details_encode(m)) matches Ok(back) && back == m,
    decreases m, 1int,
{
    broadcast use group_field_rules;

    reveal(opt_field);

    reveal_strlit("message");
    reveal_strlit("typeName");
    reveal_strlit("fullTypeName");
    reveal_strlit("evaluateName");
    reveal_strlit("stackTrace");
    reveal_strlit("innerException");
    assert("message"@.len() == 7);
    assert("typeName"@.len() == 8);
    assert("fullTypeName"@.len() == 12);
    assert("evaluateName"@.len() == 12);
    assert("stackTrace"@.len() == 10);
    assert("innerException"@.len() == 14);
    assert("fullTypeName"@[0] != "evaluateName"@[0]);

    Option::<String>::lemma_round_trip(m.message);
    Option::<String>::lemma_round_trip(m.type_name_);
    Option::<String>::lemma_round_trip(m.full_type_name);
    Option::<String>::lemma_round_trip(m.evaluate_name);
    Option::<String>::lemma_round_trip(m.stack_trace);

    lemma_exception_details_seq_round_trip(m.inner_exception);
    let o = exception_details_fields(m);
    assert(field(o, "innerException"@) == lookup(o, "innerException"@)) by {
        reveal(field);
    }
    lemma_place(o, "innerException"@);
    assert(exception_details_decode_nested(Json::Object(o)) matches Ok(back) && back == m.inner_exception) by {
        if m.inner_exception.len() == 0 {
            assert(m.inner_exception =~= Seq::empty());
        }
    }
}

impl Wire for ExceptionDetails {
    type Model = ExceptionDetailsView;

    open spec fn model(&self) -> ExceptionDetailsView {
        self@
    }

    open spec fn wire_ok(m: ExceptionDetailsView) -> bool {
        exception_details_wire_ok(m)
    }

    open spec fn encode_json(m: ExceptionDetailsView) -> Json {
        exception_details_encode(m)
    }

    open spec fn decode_json(j: Json) -> Result<ExceptionDetailsView, DecodeErrorView> {
        exception_details_decode(j)
    }

    fn to_value(&self) -> (r: serde_json::Value) {
        exception_details_to_value(self)
    }

    fn from_value(v: &serde_json::Value) -> (r: Result<ExceptionDetails, DecodeError>) {
        exception_details_from_value(v)
    }

    proof fn lemma_round_trip(m: ExceptionDetailsView) {
        lemma_exception_details_round_trip(m);
    }
}

impl Record for ExceptionDetails {
    open spec fn field_names() -> Set<Seq<char>> {
        set!["message"@, "typeName"@, "fullTypeName"@, "evaluateName"@, "stackTrace"@, "innerException"@]
    }

    proof fn lemma_unknown_field(o: JsonObject, key: Seq<char>, x: Json) {
        broadcast use group_field_rules;

    reveal(opt_field);

        assert(exception_details_decode_nested(Json::Object(store(o, key, x))) == exception_details_decode_nested(
            Json::Object(o),
        )) by {
            lemma_place(o, "innerException"@);
            lemma_place(store(o, key, x), "innerException"@);
            lemma_lookup_store_other(o, key, x, "innerException"@);
        }
    }
}

impl Defaults for ExceptionDetails {
    open spec fn elidable_names() -> Set<Seq<char>> {
        set!["message"@, "typeName"@, "fullTypeName"@, "evaluateName"@, "stackTrace"@, "innerException"@]
    }

    open spec fn at_defaults(m: ExceptionDetailsView) -> bool {
        &&& m.message is None
        &&& m.type_name_ is None
        &&& m.full_type_name is None
        &&& m.evaluate_name is None
        &&& m.stack_trace is None
        &&& m.inner_exception == Seq::<ExceptionDetailsView>::empty()
    }

    proof fn lemma_defaults_elided(m: ExceptionDetailsView, key: Seq<char>) {
        broadcast use group_field_rules;

        reveal_strlit("message");
        reveal_strlit("typeName");
        reveal_strlit("fullTypeName");
        reveal_strlit("evaluateName");
        reveal_strlit("stackTrace");
        reveal_strlit("innerException");
        assert("message"@.len() == 7);
        assert("typeName"@.len() == 8);
        assert("fullTypeName"@.len() == 12);
        assert("evaluateName"@.len() == 12);
        assert("stackTrace"@.len() == 10);
        assert("innerException"@.len() == 14);
        assert("fullTypeName"@[0] != "evaluateName"@[0]);
    }
}

/// An ExceptionFilterOptions is used to specify an exception filter together with a condition for the setExceptionsFilter request.
#[derive(Clone, Debug, PartialEq, Eq)]
pub struct ExceptionFilterOptions {
    /// ID of an exception filter returned by the 'exceptionBreakpointFilters' capability.
    pub filter_id: String,

    /// An optional expression for conditional exceptions.
    ///
    /// The exception will break into the debugger if the result of the condition is true.
    pub condition: Option<String>,
}

/// The mathematical content of a [`ExceptionFilterOptions`].
pub struct ExceptionFilterOptionsView {
    pub filter_id: Seq<char>,
    pub condition: Option<Seq<char>>,
}

impl View for ExceptionFilterOptions {
    type V = ExceptionFilterOptionsView;

    open spec fn view(&self) -> ExceptionFilterOptionsView {
        ExceptionFilterOptionsView {
            filter_id: self.filter_id.model(),
            condition: self.condition.model(),
        }
    }
}

impl ExceptionFilterOptions {
    /// The fields that are written for a value.
    pub open spec fn fields(m: ExceptionFilterOptionsView) -> JsonObject {
        let o = empty_object();
        let o = with_field::<String>(o, "filterId"@, m.filter_id);
        let o = with_opt_field::<String>(o, "condition"@, m.condition);
        o
    }

    /// What the fields of an object decode to: the first failure in the order of
    /// the fields, or the value.
    pub open spec fn decode_fields(o: JsonObject) -> Result<ExceptionFilterOptionsView, DecodeErrorView> {
        let filter_id = req_field::<String>(o, "filterId"@);
        let condition = opt_field::<String>(o, "condition"@);
        if filter_id is Err {
            Err(filter_id->Err_0)
        } else if condition is Err {
            Err(condition->Err_0)
        } else {
            Ok(ExceptionFilterOptionsView {
                filter_id: filter_id->Ok_0,
                condition: condition->Ok_0,
            })
        }
    }

    /// Writes the fields of the value into a fresh object.
    pub fn to_object(&self) -> (o: serde_json::Map<String, serde_json::Value>)
        ensures
            object_model(o) == ExceptionFilterOptions::fields(self@),
    {
        let mut o = object_new();
        put::<String>(&mut o, "filterId", &self.filter_id);
        put_opt::<String>(&mut o, "condition", &self.condition);
        o
    }

    /// Reads a value from the fields of an object.
    pub fn from_object(o: &serde_json::Map<String, serde_json::Value>) -> (r: Result<
        ExceptionFilterOptions,
        DecodeError,
    >)
        ensures
            match r {
                Ok(x) => ExceptionFilterOptions::decode_fields(object_model(*o)) matches Ok(m) && m == x.model(),
                Err(e) => ExceptionFilterOptions::decode_fields(object_model(*o)) matches Err(f) && f == e@,
            },
    {
        let filter_id = get_req::<String>(o, "filterId")?;
        let condition = get_opt::<String>(o, "condition")?;
        Ok(ExceptionFilterOptions { filter_id, condition })
    }
}

impl Wire for ExceptionFilterOptions {
    type Model = ExceptionFilterOptionsView;

    open spec fn model(&self) -> ExceptionFilterOptionsView {
        self@
    }

    open spec fn wire_ok(m: ExceptionFilterOptionsView) -> bool {
        true
    }

    open spec fn encode_json(m: ExceptionFilterOptionsView) -> Json {
        Json::Object(ExceptionFilterOptions::fields(m))
    }

    open spec fn decode_json(j: Json) -> Result<ExceptionFilterOptionsView, DecodeErrorView> {
        match j {
            Json::Object(o) => ExceptionFilterOptions::decode_fields(o),
            _ => Err(DecodeErrorView::InvalidType),
        }
    }

    fn to_value(&self) -> (r: serde_json::Value) {
        value_object(self.to_object())
    }

    fn from_value(v: &serde_json::Value) -> (r: Result<ExceptionFilterOptions, DecodeError>) {
        match value_as_object(v) {
            Some(o) => ExceptionFilterOptions::from_object(o),
            None => Err(DecodeError::InvalidType),
        }
    }

    proof fn lemma_round_trip(m: ExceptionFilterOptionsView) {
        broadcast use group_field_rules;

        reveal(opt_field);
        reveal(req_field);
        reveal_strlit("filterId");
        reveal_strlit("condition");
        assert("filterId"@.len() == 8);
        assert("condition"@.len() == 9);
        let o = ExceptionFilterOptions::fields(m);
        String::lemma_round_trip(m.filter_id);
        assert(req_field::<String>(o, "filterId"@) matches Ok(v) && v == m.filter_id);
        Option::<String>::lemma_round_trip(m.condition);
        assert(opt_field::<String>(o, "condition"@) matches Ok(v) && v == m.condition);
    }
}

impl Record for ExceptionFilterOptions {
    open spec fn field_names() -> Set<Seq<char>> {
        set!["filterId"@, "condition"@]
    }

    proof fn lemma_unknown_field(o: JsonObject, key: Seq<char>, x: Json) {
        broadcast use group_field_rules;

        reveal(opt_field);
        reveal(req_field);
    }
}

impl Defaults for ExceptionFilterOptions {
    open spec fn elidable_names() -> Set<Seq<char>> {
        set!["condition"@]
    }

    open spec fn at_defaults(m: ExceptionFilterOptionsView) -> bool {
        &&& m.condition is None
    }

    proof fn lemma_defaults_elided(m: ExceptionFilterOptionsView, key: Seq<char>) {
        broadcast use group_field_rules;

        reveal_strlit("filterId");
        reveal_strlit("condition");
        assert("filterId"@.len() == 8);
        assert("condition"@.len() == 9);
    }
}

/// An ExceptionOptions assigns configuration options to a set of exceptions.
#[derive(Clone, Debug, PartialEq, Eq)]
pub struct ExceptionOptions {
    /// A path that selects a single or multiple exceptions in a tree. If 'path' is missing, the whole tree is selected.
    ///
    /// By convention the first segment of the path is a category that is used to group exceptions in the UI.
    pub path: Vec<ExceptionPathSegment>,

    /// Condition when a thrown exception should result in a break.
    pub break_mode: ExceptionBreakMode,
}

/// The mathematical content of a [`ExceptionOptions`].
pub struct ExceptionOptionsView {
    pub path: Seq<ExceptionPathSegmentView>,
    pub break_mode: ExceptionBreakMode,
}

impl View for ExceptionOptions {
    type V = ExceptionOptionsView;

    open spec fn view(&self) -> ExceptionOptionsView {
        ExceptionOptionsView {
            path: self.path.model(),
            break_mode: self.break_mode,
        }
    }
}

impl ExceptionOptions {
    /// The fields that are written for a value.
    pub open spec fn fields(m: ExceptionOptionsView) -> JsonObject {
        let o = empty_object();
        let o = with_nondefault_field::<Vec<ExceptionPathSegment>>(o, "path"@, m.path, Seq::empty());
        let o = with_field::<ExceptionBreakMode>(o, "breakMode"@, m.break_mode);
        o
    }

    /// What the fields of an object decode to: the first failure in the order of
    /// the fields, or the value.
    pub open spec fn decode_fields(o: JsonObject) -> Result<ExceptionOptionsView, DecodeErrorView> {
        let path = default_field::<Vec<ExceptionPathSegment>>(o, "path"@, Seq::empty());
        let break_mode = req_field::<ExceptionBreakMode>(o, "breakMode"@);
        if path is Err {
            Err(path->Err_0)
        } else if break_mode is Err {
            Err(break_mode->Err_0)
        } else {
            Ok(ExceptionOptionsView {
                path: path->Ok_0,
                break_mode: break_mode->Ok_0,
            })
        }
    }

    /// Writes the fields of the value into a fresh object.
    pub fn to_object(&self) -> (o: serde_json::Map<String, serde_json::Value>)
        ensures
            object_model(o) == ExceptionOptions::fields(self@),
    {
        let mut o = object_new();
        put_nonempty::<ExceptionPathSegment>(&mut o, "path", &self.path);
        put::<ExceptionBreakMode>(&mut o, "breakMode", &self.break_mode);
        o
    }

    /// Reads a value from the fields of an object.
    pub fn from_object(o: &serde_json::Map<String, serde_json::Value>) -> (r: Result<
        ExceptionOptions,
        DecodeError,
    >)
        ensures
            match r {
                Ok(x) => ExceptionOptions::decode_fields(object_model(*o)) matches Ok(m) && m == x.model(),
                Err(e) => ExceptionOptions::decode_fields(object_model(*o)) matches Err(f) && f == e@,
            },
    {
        let path = get_or_empty::<ExceptionPathSegment>(o, "path")?;
        let break_mode = get_req::<ExceptionBreakMode>(o, "breakMode")?;
        Ok(ExceptionOptions { path, break_mode })
    }
}

impl Wire for ExceptionOptions {
    type Model = ExceptionOptionsView;

    open spec fn model(&self) -> ExceptionOptionsView {
        self@
    }

    open spec fn wire_ok(m: ExceptionOptionsView) -> bool {
        true
    }

    open spec fn encode_json(m: ExceptionOptionsView) -> Json {
        Json::Object(ExceptionOptions::fields(m))
    }

    open spec fn decode_json(j: Json) -> Result<ExceptionOptionsView, DecodeErrorView> {
        match j {
            Json::Object(o) => ExceptionOptions::decode_fields(o),
            _ => Err(DecodeErrorView::InvalidType),
        }
    }

    fn to_value(&self) -> (r: serde_json::Value) {
        value_object(self.to_object())
    }

    fn from_value(v: &serde_json::Value) -> (r: Result<ExceptionOptions, DecodeError>) {
        match value_as_object(v) {
            Some(o) => ExceptionOptions::from_object(o),
            None => Err(DecodeError::InvalidType),
        }
    }

    proof fn lemma_round_trip(m: ExceptionOptionsView) {
        broadcast use group_field_rules;

        reveal(default_field);
        reveal(req_field);
        reveal_strlit("path");
        reveal_strlit("breakMode");
        assert("path"@.len() == 4);
        assert("breakMode"@.len() == 9);
        let o = ExceptionOptions::fields(m);
        Vec::<ExceptionPathSegment>::lemma_round_trip(m.path);
        assert(default_field::<Vec<ExceptionPathSegment>>(o, "path"@, Seq::empty()) matches Ok(v) && v == m.path);
        ExceptionBreakMode::lemma_round_trip(m.break_mode);
        assert(req_field::<ExceptionBreakMode>(o, "breakMode"@) matches Ok(v) && v == m.break_mode);
    }
}

impl Record for ExceptionOptions {
    open spec fn field_names() -> Set<Seq<char>> {
        set!["path"@, "breakMode"@]
    }

    proof fn lemma_unknown_field(o: JsonObject, key: Seq<char>, x: Json) {
        broadcast use group_field_rules;

        reveal(default_field);
        reveal(req_field);
    }
}

impl Defaults for ExceptionOptions {
    open spec fn elidable_names() -> Set<Seq<char>> {
        set!["path"@]
    }

    open spec fn at_defaults(m: ExceptionOptionsView) -> bool {
        &&& m.path == Seq::<ExceptionPathSegmentView>::empty()
    }

    proof fn lemma_defaults_elided(m: ExceptionOptionsView, key: Seq<char>) {
        broadcast use group_field_rules;

        reveal_strlit("path");
        reveal_strlit("breakMode");
        assert("path"@.len() == 4);
        assert("breakMode"@.len() == 9);
    }
}

/// An ExceptionPathSegment represents a segment in a path that is used to match leafs or nodes in a tree of exceptions.
///
/// If a segment consists of more than one name, it matches the names provided if 'negate' is false or missing or
///
/// it matches anything except the names provided if 'negate' is true.
#[derive(Clone, Debug, PartialEq, Eq)]
pub struct ExceptionPathSegment {
    /// If false or missing this segment matches the names provided, otherwise it matches anything except the names provided.
    pub negate: bool,

    /// Depending on the value of 'negate' the names that should match or not match.
    pub names: Vec<String>,
}

/// The mathematical content of a [`ExceptionPathSegment`].
pub struct ExceptionPathSegmentView {
    pub negate: bool,
    pub names: Seq<Seq<char>>,
}

impl View for ExceptionPathSegment {
    type V = ExceptionPathSegmentView;

    open spec fn view(&self) -> ExceptionPathSegmentView {
        ExceptionPathSegmentView {
            negate: self.negate,
            names: self.names.model(),
        }
    }
}

impl ExceptionPathSegment {
    /// The fields that are written for a value.
    pub open spec fn fields(m: ExceptionPathSegmentView) -> JsonObject {
        let o = empty_object();
        let o = with_nondefault_field::<bool>(o, "negate"@, m.negate, false);
        let o = with_field::<Vec<String>>(o, "names"@, m.names);
        o
    }

    /// What the fields of an object decode to: the first failure in the order of
    /// the fields, or the value.
    pub open spec fn decode_fields(o: JsonObject) -> Result<ExceptionPathSegmentView, DecodeErrorView> {
        let negate = default_field::<bool>(o, "negate"@, false);
        let names = req_field::<Vec<String>>(o, "names"@);
        if negate is Err {
            Err(negate->Err_0)
        } else if names is Err {
            Err(names->Err_0)
        } else {
            Ok(ExceptionPathSegmentView {
                negate: negate->Ok_0,
                names: names->Ok_0,
            })
        }
    }

    /// Writes the fields of the value into a fresh object.
    pub fn to_object(&self) -> (o: serde_json::Map<String, serde_json::Value>)
        ensures
            object_model(o) == ExceptionPathSegment::fields(self@),
    {
        let mut o = object_new();
        put_flag(&mut o, "negate", self.negate);
        put::<Vec<String>>(&mut o, "names", &self.names);
        o
    }

    /// Reads a value from the fields of an object.
    pub fn from_object(o: &serde_json::Map<String, serde_json::Value>) -> (r: Result<
        ExceptionPathSegment,
        DecodeError,
    >)
        ensures
            match r {
                Ok(x) => ExceptionPathSegment::decode_fields(object_model(*o)) matches Ok(m) && m == x.model(),
                Err(e) => ExceptionPathSegment::decode_fields(object_model(*o)) matches Err(f) && f == e@,
            },
    {
        let negate = get_or::<bool>(o, "negate", false)?;
        let names = get_req::<Vec<String>>(o, "names")?;
        Ok(ExceptionPathSegment { negate, names })
    }
}

impl Wire for ExceptionPathSegment {
    type Model = ExceptionPathSegmentView;

    open spec fn model(&self) -> ExceptionPathSegmentView {
        self@
    }

    open spec fn wire_ok(m: ExceptionPathSegmentView) -> bool {
        true
    }

    open spec fn encode_json(m: ExceptionPathSegmentView) -> Json {
        Json::Object(ExceptionPathSegment::fields(m))
    }

    open spec fn decode_json(j: Json) -> Result<ExceptionPathSegmentView, DecodeErrorView> {
        match j {
            Json::Object(o) => ExceptionPathSegment::decode_fields(o),
            _ => Err(DecodeErrorView::InvalidType),
        }
    }

    fn to_value(&self) -> (r: serde_json::Value) {
        value_object(self.to_object())
    }

    fn from_value(v: &serde_json::Value) -> (r: Result<ExceptionPathSegment, DecodeError>) {
        match value_as_object(v) {
            Some(o) => ExceptionPathSegment::from_object(o),
            None => Err(DecodeError::InvalidType),
        }
    }

    proof fn lemma_round_trip(m: ExceptionPathSegmentView) {
        broadcast use group_field_rules;

        reveal(default_field);
        reveal(req_field);
        reveal_strlit("negate");
        reveal_strlit("names");
        assert("negate"@.len() == 6);
        assert("names"@.len() == 5);
        let o = ExceptionPathSegment::fields(m);
        bool::lemma_round_trip(m.negate);
        assert(default_field::<bool>(o, "negate"@, false) matches Ok(v) && v == m.negate);
        Vec::<String>::lemma_round_trip(m.names);
        assert(req_field::<Vec<String>>(o, "names"@) matches Ok(v) && v == m.names);
    }
}

impl Record for ExceptionPathSegment {
    open spec fn field_names() -> Set<Seq<char>> {
        set!["negate"@, "names"@]
    }

    proof fn lemma_unknown_field(o: JsonObject, key: Seq<char>, x: Json) {
        broadcast use group_field_rules;

        reveal(default_field);
        reveal(req_field);
    }
}

impl Defaults for ExceptionPathSegment {
    open spec fn elidable_names() -> Set<Seq<char>> {
        set!["negate"@]
    }

    open spec fn at_defaults(m: ExceptionPathSegmentView) -> bool {
        &&& !m.negate
    }

    proof fn lemma_defaults_elided(m: ExceptionPathSegmentView, key: Seq<char>) {
        broadcast use group_field_rules;

        reveal_strlit("negate");
        reveal_strlit("names");
        assert("negate"@.len() == 6);
        assert("names"@.len() == 5);
    }
}

/// Properties of a breakpoint passed to the setFunctionBreakpoints request.
#[derive(Clone, Debug, PartialEq, Eq)]
pub struct FunctionBreakpoint {
    /// The name of the function.
    pub name: String,

    /// An optional expression for conditional breakpoints.
    ///
    /// It is only honored by a debug adapter if the capability 'supportsConditionalBreakpoints' is true.
    pub condition: Option<String>,

    /// An optional expression that controls how many hits of the breakpoint are ignored.
    ///
    /// The backend is expected to interpret the expression as needed.
    ///
    /// The attribute is only honored by a debug adapter if the capability 'supportsHitConditionalBreakpoints' is true.
    pub hit_condition: Option<String>,
}

/// The mathematical content of a [`FunctionBreakpoint`].
pub struct FunctionBreakpointView {
    pub name: Seq<char>,
    pub condition: Option<Seq<char>>,
    pub hit_condition: Option<Seq<char>>,
}

impl View for FunctionBreakpoint {
    type V = FunctionBreakpointView;

    open spec fn view(&self) -> FunctionBreakpointView {
        FunctionBreakpointView {
            name: self.name.model(),
            condition: self.condition.model(),
            hit_condition: self.hit_condition.model(),
        }
    }
}

impl FunctionBreakpoint {
    /// The fields that are written for a value.
    pub open spec fn fields(m: FunctionBreakpointView) -> JsonObject {
        let o = empty_object();
        let o = with_field::<String>(o, "name"@, m.name);
        let o = with_opt_field::<String>(o, "condition"@, m.condition);
        let o = with_opt_field::<String>(o, "hitCondition"@, m.hit_condition);
        o
    }

    /// What the fields of an object decode to: the first failure in the order of
    /// the fields, or the value.
    pub open spec fn decode_fields(o: JsonObject) -> Result<FunctionBreakpointView, DecodeErrorView> {
        let name = req_field::<String>(o, "name"@);
        let condition = opt_field::<String>(o, "condition"@);
        let hit_condition = opt_field::<String>(o, "hitCondition"@);
        if name is Err {
            Err(name->Err_0)
        } else if condition is Err {
            Err(condition->Err_0)
        } else if hit_condition is Err {
            Err(hit_condition->Err_0)
        } else {
            Ok(FunctionBreakpointView {
                name: name->Ok_0,
                condition: condition->Ok_0,
                hit_condition: hit_condition->Ok_0,
            })
        }
    }

    /// Writes the fields of the value into a fresh object.
    pub fn to_object(&self) -> (o: serde_json::Map<String, serde_json::Value>)
        ensures
            object_model(o) == FunctionBreakpoint::fields(self@),
    {
        let mut o = object_new();
        put::<String>(&mut o, "name", &self.name);
        put_opt::<String>(&mut o, "condition", &self.condition);
        put_opt::<String>(&mut o, "hitCondition", &self.hit_condition);
        o
    }

    /// Reads a value from the fields of an object.
    pub fn from_object(o: &serde_json::Map<String, serde_json::Value>) -> (r: Result<
        FunctionBreakpoint,
        DecodeError,
    >)
        ensures
            match r {
                Ok(x) => FunctionBreakpoint::decode_fields(object_model(*o)) matches Ok(m) && m == x.model(),
                Err(e) => FunctionBreakpoint::decode_fields(object_model(*o)) matches Err(f) && f == e@,
            },
    {
        let name = get_req::<String>(o, "name")?;
        let condition = get_opt::<String>(o, "condition")?;
        let hit_condition = get_opt::<String>(o, "hitCondition")?;
        Ok(FunctionBreakpoint { name, condition, hit_condition })
    }
}

impl Wire for FunctionBreakpoint {
    type Model = FunctionBreakpointView;

    open spec fn model(&self) -> FunctionBreakpointView {
        self@
    }

    open spec fn wire_ok(m: FunctionBreakpointView) -> bool {
        true
    }

    open spec fn encode_json(m: FunctionBreakpointView) -> Json {
        Json::Object(FunctionBreakpoint::fields(m))
    }

    open spec fn decode_json(j: Json) -> Result<FunctionBreakpointView, DecodeErrorView> {
        match j {
            Json::Object(o) => FunctionBreakpoint::decode_fields(o),
            _ => Err(DecodeErrorView::InvalidType),
        }
    }

    fn to_value(&self) -> (r: serde_json::Value) {
        value_object(self.to_object())
    }

    fn from_value(v: &serde_json::Value) -> (r: Result<FunctionBreakpoint, DecodeError>) {
        match value_as_object(v) {
            Some(o) => FunctionBreakpoint::from_object(o),
            None => Err(DecodeError::InvalidType),
        }
    }

    proof fn lemma_round_trip(m: FunctionBreakpointView) {
        broadcast use group_field_rules;

        reveal(opt_field);
        reveal(req_field);
        reveal_strlit("name");
        reveal_strlit("condition");
        reveal_strlit("hitCondition");
        assert("name"@.len() == 4);
        assert("condition"@.len() == 9);
        assert("hitCondition"@.len() == 12);
        let o = FunctionBreakpoint::fields(m);
        String::lemma_round_trip(m.name);
        assert(req_field::<String>(o, "name"@) matches Ok(v) && v == m.name);
        Option::<String>::lemma_round_trip(m.condition);
        assert(opt_field::<String>(o, "condition"@) matches Ok(v) && v == m.condition);
        Option::<String>::lemma_round_trip(m.hit_condition);
        assert(opt_field::<String>(o, "hitCondition"@) matches Ok(v) && v == m.hit_condition);
    }
}

impl Record for FunctionBreakpoint {
    open spec fn field_names() -> Set<Seq<char>> {
        set!["name"@, "condition"@, "hitCondition"@]
    }

    proof fn lemma_unknown_field(o: JsonObject, key: Seq<char>, x: Json) {
        broadcast use group_field_rules;

        reveal(opt_field);
        reveal(req_field);
    }
}

impl Defaults for FunctionBreakpoint {
    open spec fn elidable_names() -> Set<Seq<char>> {
        set!["condition"@, "hitCondition"@]
    }

    open spec fn at_defaults(m: FunctionBreakpointView) -> bool {
        &&& m.condition is None
        &&& m.hit_condition is None
    }

    proof fn lemma_defaults_elided(m: FunctionBreakpointView, key: Seq<char>) {
        broadcast use group_field_rules;

        reveal_strlit("name");
        reveal_strlit("condition");
        reveal_strlit("hitCondition");
        assert("name"@.len() == 4);
        assert("condition"@.len() == 9);
        assert("hitCondition"@.len() == 12);
    }
}

/// A GotoTarget describes a code location that can be used as a target in the 'goto' request.
///
/// The possible goto targets can be determined via the 'gotoTargets' request.
#[derive(Clone, Debug, PartialEq, Eq)]
pub struct GotoTarget {
    /// Unique identifier for a goto target. This is used in the goto request.
    pub id: i32,

    /// The name of the goto target (shown in the UI).
    pub label: String,

    /// The line of the goto target.
    pub line: i32,

    /// An optional column of the goto target.
    pub column: Option<i32>,

    /// An optional end line of the range covered by the goto target.
    pub end_line: Option<i32>,

    /// An optional end column of the range covered by the goto target.
    pub end_column: Option<i32>,

    /// Optional memory reference for the instruction pointer value represented by this target.
    pub instruction_pointer_reference: Option<String>,
}

/// The mathematical content of a [`GotoTarget`].
pub struct GotoTargetView {
    pub id: i32,
    pub label: Seq<char>,
    pub line: i32,
    pub column: Option<i32>,
    pub end_line: Option<i32>,
    pub end_column: Option<i32>,
    pub instruction_pointer_reference: Option<Seq<char>>,
}

impl View for GotoTarget {
    type V = GotoTargetView;

    open spec fn view(&self) -> GotoTargetView {
        GotoTargetView {
            id: self.id,
            label: self.label.model(),
            line: self.line,
            column: self.column.model(),
            end_line: self.end_line.model(),
            end_column: self.end_column.model(),
            instruction_pointer_reference: self.instruction_pointer_reference.model(),
        }
    }
}

impl GotoTarget {
    /// The fields that are written for a value.
    pub open spec fn fields(m: GotoTargetView) -> JsonObject {
        let o = empty_object();
        let o = with_field::<i32>(o, "id"@, m.id);
        let o = with_field::<String>(o, "label"@, m.label);
        let o = with_field::<i32>(o, "line"@, m.line);
        let o = with_opt_field::<i32>(o, "column"@, m.column);
        let o = with_opt_field::<i32>(o, "endLine"@, m.end_line);
        let o = with_opt_field::<i32>(o, "endColumn"@, m.end_column);
        let o = with_opt_field::<String>(o, "instructionPointerReference"@, m.instruction_pointer_reference);
        o
    }

    /// What the fields of an object decode to: the first failure in the order of
    /// the fields, or the value.
    pub open spec fn decode_fields(o: JsonObject) -> Result<GotoTargetView, DecodeErrorView> {
        let id = req_field::<i32>(o, "id"@);
        let label = req_field::<String>(o, "label"@);
        let line = req_field::<i32>(o, "line"@);
        let column = opt_field::<i32>(o, "column"@);
        let end_line = opt_field::<i32>(o, "endLine"@);
        let end_column = opt_field::<i32>(o, "endColumn"@);
        let instruction_pointer_reference = opt_field::<String>(o, "instructionPointerReference"@);
        if id is Err {
            Err(id->Err_0)
        } else if label is Err {
            Err(label->Err_0)
        } else if line is Err {
            Err(line->Err_0)
        } else if column is Err {
            Err(column->Err_0)
        } else if end_line is Err {
            Err(end_line->Err_0)
        } else if end_column is Err {
            Err(end_column->Err_0)
        } else if instruction_pointer_reference is Err {
            Err(instruction_pointer_reference->Err_0)
        } else {
            Ok(GotoTargetView {
                id: id->Ok_0,
                label: label->Ok_0,
                line: line->Ok_0,
                column: column->Ok_0,
                end_line: end_line->Ok_0,
                end_column: end_column->Ok_0,
                instruction_pointer_reference: instruction_pointer_reference->Ok_0,
            })
        }
    }

    /// Writes the fields of the value into a fresh object.
    pub fn to_object(&self) -> (o: serde_json::Map<String, serde_json::Value>)
        ensures
            object_model(o) == GotoTarget::fields(self@),
    {
        let mut o = object_new();
        put::<i32>(&mut o, "id", &self.id);
        put::<String>(&mut o, "label", &self.label);
        put::<i32>(&mut o, "line", &self.line);
        put_opt::<i32>(&mut o, "column", &self.column);
        put_opt::<i32>(&mut o, "endLine", &self.end_line);
        put_opt::<i32>(&mut o, "endColumn", &self.end_column);
        put_opt::<String>(&mut o, "instructionPointerReference", &self.instruction_pointer_reference);
        o
    }

    /// Reads a value from the fields of an object.
    pub fn from_object(o: &serde_json::Map<String, serde_json::Value>) -> (r: Result<
        GotoTarget,
        DecodeError,
    >)
        ensures
            match r {
                Ok(x) => GotoTarget::decode_fields(object_model(*o)) matches Ok(m) && m == x.model(),
                Err(e) => GotoTarget::decode_fields(object_model(*o)) matches Err(f) && f == e@,
            },
    {
        let id = get_req::<i32>(o, "id")?;
        let label = get_req::<String>(o, "label")?;
        let line = get_req::<i32>(o, "line")?;
        let column = get_opt::<i32>(o, "column")?;
        let end_line = get_opt::<i32>(o, "endLine")?;
        let end_column = get_opt::<i32>(o, "endColumn")?;
        let instruction_pointer_reference = get_opt::<String>(o, "instructionPointerReference")?;
        Ok(GotoTarget { id, label, line, column, end_line, end_column, instruction_pointer_reference })
    }
}

impl Wire for GotoTarget {
    type Model = GotoTargetView;

    open spec fn model(&self) -> GotoTargetView {
        self@
    }

    open spec fn wire_ok(m: GotoTargetView) -> bool {
        true
    }

    open spec fn encode_json(m: GotoTargetView) -> Json {
        Json::Object(GotoTarget::fields(m))
    }

    open spec fn decode_json(j: Json) -> Result<GotoTargetView, DecodeErrorView> {
        match j {
            Json::Object(o) => GotoTarget::decode_fields(o),
            _ => Err(DecodeErrorView::InvalidType),
        }
    }

    fn to_value(&self) -> (r: serde_json::Value) {
        value_object(self.to_object())
    }

    fn from_value(v: &serde_json::Value) -> (r: Result<GotoTarget, DecodeError>) {
        match value_as_object(v) {
            Some(o) => GotoTarget::from_object(o),
            None => Err(DecodeError::InvalidType),
        }
    }

    proof fn lemma_round_trip(m: GotoTargetView) {
        broadcast use group_field_rules;

        reveal(opt_field);
        reveal(req_field);
        reveal_strlit("id");
        reveal_strlit("label");
        reveal_strlit("line");
        reveal_strlit("column");
        reveal_strlit("endLine");
        reveal_strlit("endColumn");
        reveal_strlit("instructionPointerReference");
        assert("id"@.len() == 2);
        assert("label"@.len() == 5);
        assert("line"@.len() == 4);
        assert("column"@.len() == 6);
        assert("endLine"@.len() == 7);
        assert("endColumn"@.len() == 9);
        assert("instructionPointerReference"@.len() == 27);
        let o = GotoTarget::fields(m);
        i32::lemma_round_trip(m.id);
        assert(req_field::<i32>(o, "id"@) matches Ok(v) && v == m.id);
        String::lemma_round_trip(m.label);
        assert(req_field::<String>(o, "label"@) matches Ok(v) && v == m.label);
        i32::lemma_round_trip(m.line);
        assert(req_field::<i32>(o, "line"@) matches Ok(v) && v == m.line);
        Option::<i32>::lemma_round_trip(m.column);
        assert(opt_field::<i32>(o, "column"@) matches Ok(v) && v == m.column);
        Option::<i32>::lemma_round_trip(m.end_line);
        assert(opt_field::<i32>(o, "endLine"@) matches Ok(v) && v == m.end_line);
        Option::<i32>::lemma_round_trip(m.end_column);
        assert(opt_field::<i32>(o, "endColumn"@) matches Ok(v) && v == m.end_column);
        Option::<String>::lemma_round_trip(m.instruction_pointer_reference);
        assert(opt_field::<String>(o, "instructionPointerReference"@) matches Ok(v) && v == m.instruction_pointer_reference);
    }
}

impl Record for GotoTarget {
    open spec fn field_names() -> Set<Seq<char>> {
        set!["id"@, "label"@, "line"@, "column"@, "endLine"@, "endColumn"@, "instructionPointerReference"@]
    }

    proof fn lemma_unknown_field(o: JsonObject, key: Seq<char>, x: Json) {
        broadcast use group_field_rules;

        reveal(opt_field);
        reveal(req_field);
    }
}

impl Defaults for GotoTarget {
    open spec fn elidable_names() -> Set<Seq<char>> {
        set!["column"@, "endLine"@, "endColumn"@, "instructionPointerReference"@]
    }

    open spec fn at_defaults(m: GotoTargetView) -> bool {
        &&& m.column is None
        &&& m.end_line is None
        &&& m.end_column is None
        &&& m.instruction_pointer_reference is None
    }

    proof fn lemma_defaults_elided(m: GotoTargetView, key: Seq<char>) {
        broadcast use group_field_rules;

        reveal_strlit("id");
        reveal_strlit("label");
        reveal_strlit("line");
        reveal_strlit("column");
        reveal_strlit("endLine");
        reveal_strlit("endColumn");
        reveal_strlit("instructionPointerReference");
        assert("id"@.len() == 2);
        assert("label"@.len() == 5);
        assert("line"@.len() == 4);
        assert("column"@.len() == 6);
        assert("endLine"@.len() == 7);
        assert("endColumn"@.len() == 9);
        assert("instructionPointerReference"@.len() == 27);
    }
}

/// Properties of a breakpoint passed to the setInstructionBreakpoints request
#[derive(Clone, Debug, PartialEq, Eq)]
pub struct InstructionBreakpoint {
    /// The instruction reference of the breakpoint.
    ///
    /// This should be a memory or instruction pointer reference from an EvaluateResponse, Variable, StackFrame, GotoTarget, or Breakpoint.
    pub instruction_reference: String,

    /// An optional offset from the instruction reference.
    ///
    /// This can be negative.
    pub offset: Option<i32>,

    /// An optional expression for conditional breakpoints.
    ///
    /// It is only honored by a debug adapter if the capability 'supportsConditionalBreakpoints' is true.
    pub condition: Option<String>,

    /// An optional expression that controls how many hits of the breakpoint are ignored.
    ///
    /// The backend is expected to interpret the expression as needed.
    ///
    /// The attribute is only honored by a debug adapter if the capability 'supportsHitConditionalBreakpoints' is true.
    pub hit_condition: Option<String>,
}

/// The mathematical content of a [`InstructionBreakpoint`].
pub struct InstructionBreakpointView {
    pub instruction_reference: Seq<char>,
    pub offset: Option<i32>,
    pub condition: Option<Seq<char>>,
    pub hit_condition: Option<Seq<char>>,
}

impl View for InstructionBreakpoint {
    type V = InstructionBreakpointView;

    open spec fn view(&self) -> InstructionBreakpointView {
        InstructionBreakpointView {
            instruction_reference: self.instruction_reference.model(),
            offset: self.offset.model(),
            condition: self.condition.model(),
            hit_condition: self.hit_condition.model(),
        }
    }
}

impl InstructionBreakpoint {
    /// The fields that are written for a value.
    pub open spec fn fields(m: InstructionBreakpointView) -> JsonObject {
        let o = empty_object();
        let o = with_field::<String>(o, "instructionReference"@, m.instruction_reference);
        let o = with_opt_field::<i32>(o, "offset"@, m.offset);
        let o = with_opt_field::<String>(o, "condition"@, m.condition);
        let o = with_opt_field::<String>(o, "hitCondition"@, m.hit_condition);
        o
    }

    /// What the fields of an object decode to: the first failure in the order of
    /// the fields, or the value.
    pub open spec fn decode_fields(o: JsonObject) -> Result<InstructionBreakpointView, DecodeErrorView> {
        let instruction_reference = req_field::<String>(o, "instructionReference"@);
        let offset = opt_field::<i32>(o, "offset"@);
        let condition = opt_field::<String>(o, "condition"@);
        let hit_condition = opt_field::<String>(o, "hitCondition"@);
        if instruction_reference is Err {
            Err(instruction_reference->Err_0)
        } else if offset is Err {
            Err(offset->Err_0)
        } else if condition is Err {
            Err(condition->Err_0)
        } else if hit_condition is Err {
            Err(hit_condition->Err_0)
        } else {
            Ok(InstructionBreakpointView {
                instruction_reference: instruction_reference->Ok_0,
                offset: offset->Ok_0,
                condition: condition->Ok_0,
                hit_condition: hit_condition->Ok_0,
            })
        }
    }

    /// Writes the fields of the value into a fresh object.
    pub fn to_object(&self) -> (o: serde_json::Map<String, serde_json::Value>)
        ensures
            object_model(o) == InstructionBreakpoint::fields(self@),
    {
        let mut o = object_new();
        put::<String>(&mut o, "instructionReference", &self.instruction_reference);
        put_opt::<i32>(&mut o, "offset", &self.offset);
        put_opt::<String>(&mut o, "condition", &self.condition);
        put_opt::<String>(&mut o, "hitCondition", &self.hit_condition);
        o
    }

    /// Reads a value from the fields of an object.
    pub fn from_object(o: &serde_json::Map<String, serde_json::Value>) -> (r: Result<
        InstructionBreakpoint,
        DecodeError,
    >)
        ensures
            match r {
                Ok(x) => InstructionBreakpoint::decode_fields(object_model(*o)) matches Ok(m) && m == x.model(),
                Err(e) => InstructionBreakpoint::decode_fields(object_model(*o)) matches Err(f) && f == e@,
            },
    {
        let instruction_reference = get_req::<String>(o, "instructionReference")?;
        let offset = get_opt::<i32>(o, "offset")?;
        let condition = get_opt::<String>(o, "condition")?;
        let hit_condition = get_opt::<String>(o, "hitCondition")?;
        Ok(InstructionBreakpoint { instruction_reference, offset, condition, hit_condition })
    }
}

impl Wire for InstructionBreakpoint {
    type Model = InstructionBreakpointView;

    open spec fn model(&self) -> InstructionBreakpointView {
        self@
    }

    open spec fn wire_ok(m: InstructionBreakpointView) -> bool {
        true
    }

    open spec fn encode_json(m: InstructionBreakpointView) -> Json {
        Json::Object(InstructionBreakpoint::fields(m))
    }

    open spec fn decode_json(j: Json) -> Result<InstructionBreakpointView, DecodeErrorView> {
        match j {
            Json::Object(o) => InstructionBreakpoint::decode_fields(o),
            _ => Err(DecodeErrorView::InvalidType),
        }
    }

    fn to_value(&self) -> (r: serde_json::Value) {
        value_object(self.to_object())
    }

    fn from_value(v: &serde_json::Value) -> (r: Result<InstructionBreakpoint, DecodeError>) {
        match value_as_object(v) {
            Some(o) => InstructionBreakpoint::from_object(o),
            None => Err(DecodeError::InvalidType),
        }
    }

    proof fn lemma_round_trip(m: InstructionBreakpointView) {
        broadcast use group_field_rules;

        reveal(opt_field);
        reveal(req_field);
        reveal_strlit("instructionReference");
        reveal_strlit("offset");
        reveal_strlit("condition");
        reveal_strlit("hitCondition");
        assert("instructionReference"@.len() == 20);
        assert("offset"@.len() == 6);
        assert("condition"@.len() == 9);
        assert("hitCondition"@.len() == 12);
        let o = InstructionBreakpoint::fields(m);
        String::lemma_round_trip(m.instruction_reference);
        assert(req_field::<String>(o, "instructionReference"@) matches Ok(v) && v == m.instruction_reference);
        Option::<i32>::lemma_round_trip(m.offset);
        assert(opt_field::<i32>(o, "offset"@) matches Ok(v) && v == m.offset);
        Option::<String>::lemma_round_trip(m.condition);
        assert(opt_field::<String>(o, "condition"@) matches Ok(v) && v == m.condition);
        Option::<String>::lemma_round_trip(m.hit_condition);
        assert(opt_field::<String>(o, "hitCondition"@) matches Ok(v) && v == m.hit_condition);
    }
}

impl Record for InstructionBreakpoint {
    open spec fn field_names() -> Set<Seq<char>> {
        set!["instructionReference"@, "offset"@, "condition"@, "hitCondition"@]
    }

    proof fn lemma_unknown_field(o: JsonObject, key: Seq<char>, x: Json) {
        broadcast use group_field_rules;

        reveal(opt_field);
        reveal(req_field);
    }
}

impl Defaults for InstructionBreakpoint {
    open spec fn elidable_names() -> Set<Seq<char>> {
        set!["offset"@, "condition"@, "hitCondition"@]
    }

    open spec fn at_defaults(m: InstructionBreakpointView) -> bool {
        &&& m.offset is None
        &&& m.condition is None
        &&& m.hit_condition is None
    }

    proof fn lemma_defaults_elided(m: InstructionBreakpointView, key: Seq<char>) {
        broadcast use group_field_rules;

        reveal_strlit("instructionReference");
        reveal_strlit("offset");
        reveal_strlit("condition");
        reveal_strlit("hitCondition");
        assert("instructionReference"@.len() == 20);
        assert("offset"@.len() == 6);
        assert("condition"@.len() == 9);
        assert("hitCondition"@.len() == 12);
    }
}

/// Logical areas that can be invalidated by the 'invalidated' event.
#[derive(Clone, Copy, Debug, PartialEq, Eq, Structural)]
pub enum InvalidatedAreas {
    /// All previously fetched data has become invalid and needs to be refetched.
    All,
    /// Previously fetched stack related data has become invalid and needs to be refetched.
    Stacks,
    /// Previously fetched thread related data has become invalid and needs to be refetched.
    Threads,
    /// Previously fetched variable data has become invalid and needs to be refetched.
    Variables,
}

impl InvalidatedAreas {
    /// The name under which the value travels.
    pub open spec fn name(self) -> Seq<char> {
        match self {
            InvalidatedAreas::All => "all"@,
            InvalidatedAreas::Stacks => "stacks"@,
            InvalidatedAreas::Threads => "threads"@,
            InvalidatedAreas::Variables => "variables"@,
        }
    }

    /// The value that travels under `s`, if there is one.
    pub open spec fn named(s: Seq<char>) -> Option<InvalidatedAreas> {
        if s == "all"@ {
            Some(InvalidatedAreas::All)
        } else if s == "stacks"@ {
            Some(InvalidatedAreas::Stacks)
        } else if s == "threads"@ {
            Some(InvalidatedAreas::Threads)
        } else if s == "variables"@ {
            Some(InvalidatedAreas::Variables)
        } else {
            None
        }
    }

    pub fn as_str(&self) -> (r: &'static str)
        ensures
            r@ == self.name(),
    {
        match self {
            InvalidatedAreas::All => "all",
            InvalidatedAreas::Stacks => "stacks",
            InvalidatedAreas::Threads => "threads",
            InvalidatedAreas::Variables => "variables",
        }
    }

    pub fn from_name(s: &str) -> (r: Option<InvalidatedAreas>)
        ensures
            r == InvalidatedAreas::named(s@),
    {
        if str_eq(s, "all") {
            Some(InvalidatedAreas::All)
        } else if str_eq(s, "stacks") {
            Some(InvalidatedAreas::Stacks)
        } else if str_eq(s, "threads") {
            Some(InvalidatedAreas::Threads)
        } else if str_eq(s, "variables") {
            Some(InvalidatedAreas::Variables)
        } else {
            None
        }
    }

    /// Every value is found again under its name.
    pub proof fn lemma_named(self)
        ensures
            InvalidatedAreas::named(self.name()) == Some(self),
    {
        reveal_strlit("all");
        reveal_strlit("stacks");
        reveal_strlit("threads");
        reveal_strlit("variables");
        assert("all"@.len() == 3);
        assert("stacks"@.len() == 6);
        assert("threads"@.len() == 7);
        assert("variables"@.len() == 9);
    }
}

impl Wire for InvalidatedAreas {
    type Model = InvalidatedAreas;

    open spec fn model(&self) -> InvalidatedAreas {
        *self
    }

    open spec fn wire_ok(m: InvalidatedAreas) -> bool {
        true
    }

    open spec fn encode_json(m: InvalidatedAreas) -> Json {
        Json::Str(m.name())
    }

    open spec fn decode_json(j: Json) -> Result<InvalidatedAreas, DecodeErrorView> {
        match j {
            Json::Str(s) => match InvalidatedAreas::named(s) {
                Some(x) => Ok(x),
                None => Err(DecodeErrorView::InvalidType),
            },
            _ => Err(DecodeErrorView::InvalidType),
        }
    }

    fn to_value(&self) -> (r: serde_json::Value) {
        value_string(self.as_str().to_owned())
    }

    fn from_value(v: &serde_json::Value) -> (r: Result<InvalidatedAreas, DecodeError>) {
        match value_as_str(v) {
            Some(s) => match InvalidatedAreas::from_name(s) {
                Some(x) => Ok(x),
                None => Err(DecodeError::InvalidType),
            },
            None => Err(DecodeError::InvalidType),
        }
    }

    proof fn lemma_round_trip(m: InvalidatedAreas) {
        m.lemma_named();
    }
}

/// A structured message object. Used to return errors from requests.
#[derive(Clone, Debug, PartialEq, Eq)]
pub struct Message {
    /// Unique identifier for the message.
    pub id: i32,

    /// A format string for the message. Embedded variables have the form '{name}'.
    ///
    /// If variable name starts with an underscore character, the variable does not contain user data (PII) and can be safely used for telemetry purposes.
    pub format: String,

    /// An object used as a dictionary for looking up the variables in the format string.
    pub variables: Dictionary<String>,

    /// If true send to telemetry.
    pub send_telemetry: bool,

    /// If true show user.
    pub show_user: bool,

    /// An optional url where additional information about this message can be found.
    pub url: Option<String>,

    /// An optional label that is presented to the user as the UI for opening the url.
    pub url_label: Option<String>,
}

/// The mathematical content of a [`Message`].
pub struct MessageView {
    pub id: i32,
    pub format: Seq<char>,
    pub variables: Table<Seq<char>>,
    pub send_telemetry: bool,
    pub show_user: bool,
    pub url: Option<Seq<char>>,
    pub url_label: Option<Seq<char>>,
}

impl View for Message {
    type V = MessageView;

    open spec fn view(&self) -> MessageView {
        MessageView {
            id: self.id,
            format: self.format.model(),
            variables: self.variables.model(),
            send_telemetry: self.send_telemetry,
            show_user: self.show_user,
            url: self.url.model(),
            url_label: self.url_label.model(),
        }
    }
}

impl Message {
    /// The fields that are written for a value.
    pub open spec fn fields(m: MessageView) -> JsonObject {
        let o = empty_object();
        let o = with_field::<i32>(o, "id"@, m.id);
        let o = with_field::<String>(o, "format"@, m.format);
        let o = with_nondefault_field::<Dictionary<String>>(o, "variables"@, m.variables, Seq::empty());
        let o = with_nondefault_field::<bool>(o, "sendTelemetry"@, m.send_telemetry, false);
        let o = with_nondefault_field::<bool>(o, "showUser"@, m.show_user, false);
        let o = with_opt_field::<String>(o, "url"@, m.url);
        let o = with_opt_field::<String>(o, "urlLabel"@, m.url_label);
        o
    }

    /// What the fields of an object decode to: the first failure in the order of
    /// the fields, or the value.
    pub open spec fn decode_fields(o: JsonObject) -> Result<MessageView, DecodeErrorView> {
        let id = req_field::<i32>(o, "id"@);
        let format = req_field::<String>(o, "format"@);
        let variables = default_field::<Dictionary<String>>(o, "variables"@, Seq::empty());
        let send_telemetry = default_field::<bool>(o, "sendTelemetry"@, false);
        let show_user = default_field::<bool>(o, "showUser"@, false);
        let url = opt_field::<String>(o, "url"@);
        let url_label = opt_field::<String>(o, "urlLabel"@);
        if id is Err {
            Err(id->Err_0)
        } else if format is Err {
            Err(format->Err_0)
        } else if variables is Err {
            Err(variables->Err_0)
        } else if send_telemetry is Err {
            Err(send_telemetry->Err_0)
        } else if show_user is Err {
            Err(show_user->Err_0)
        } else if url is Err {
            Err(url->Err_0)
        } else if url_label is Err {
            Err(url_label->Err_0)
        } else {
            Ok(MessageView {
                id: id->Ok_0,
                format: format->Ok_0,
                variables: variables->Ok_0,
                send_telemetry: send_telemetry->Ok_0,
                show_user: show_user->Ok_0,
                url: url->Ok_0,
                url_label: url_label->Ok_0,
            })
        }
    }

    /// Writes the fields of the value into a fresh object.
    pub fn to_object(&self) -> (o: serde_json::Map<String, serde_json::Value>)
        ensures
            object_model(o) == Message::fields(self@),
    {
        let mut o = object_new();
        put::<i32>(&mut o, "id", &self.id);
        put::<String>(&mut o, "format", &self.format);
        put_entries::<String>(&mut o, "variables", &self.variables);
        put_flag(&mut o, "sendTelemetry", self.send_telemetry);
        put_flag(&mut o, "showUser", self.show_user);
        put_opt::<String>(&mut o, "url", &self.url);
        put_opt::<String>(&mut o, "urlLabel", &self.url_label);
        o
    }

    /// Reads a value from the fields of an object.
    pub fn from_object(o: &serde_json::Map<String, serde_json::Value>) -> (r: Result<
        Message,
        DecodeError,
    >)
        ensures
            match r {
                Ok(x) => Message::decode_fields(object_model(*o)) matches Ok(m) && m == x.model(),
                Err(e) => Message::decode_fields(object_model(*o)) matches Err(f) && f == e@,
            },
    {
        let id = get_req::<i32>(o, "id")?;
        let format = get_req::<String>(o, "format")?;
        let variables = get_entries::<String>(o, "variables")?;
        let send_telemetry = get_or::<bool>(o, "sendTelemetry", false)?;
        let show_user = get_or::<bool>(o, "showUser", false)?;
        let url = get_opt::<String>(o, "url")?;
        let url_label = get_opt::<String>(o, "urlLabel")?;
        Ok(Message { id, format, variables, send_telemetry, show_user, url, url_label })
    }
}

impl Wire for Message {
    type Model = MessageView;

    open spec fn model(&self) -> MessageView {
        self@
    }

    open spec fn wire_ok(m: MessageView) -> bool {
        &&& Dictionary::<String>::wire_ok(m.variables)
    }

    open spec fn encode_json(m: MessageView) -> Json {
        Json::Object(Message::fields(m))
    }

    open spec fn decode_json(j: Json) -> Result<MessageView, DecodeErrorView> {
        match j {
            Json::Object(o) => Message::decode_fields(o),
            _ => Err(DecodeErrorView::InvalidType),
        }
    }

    fn to_value(&self) -> (r: serde_json::Value) {
        value_object(self.to_object())
    }

    fn from_value(v: &serde_json::Value) -> (r: Result<Message, DecodeError>) {
        match value_as_object(v) {
            Some(o) => Message::from_object(o),
            None => Err(DecodeError::InvalidType),
        }
    }

    proof fn lemma_round_trip(m: MessageView) {
        broadcast use group_field_rules;

        reveal(default_field);
        reveal(opt_field);
        reveal(req_field);
        reveal_strlit("id");
        reveal_strlit("format");
        reveal_strlit("variables");
        reveal_strlit("sendTelemetry");
        reveal_strlit("showUser");
        reveal_strlit("url");
        reveal_strlit("urlLabel");
        assert("id"@.len() == 2);
        assert("format"@.len() == 6);
        assert("variables"@.len() == 9);
        assert("sendTelemetry"@.len() == 13);
        assert("showUser"@.len() == 8);
        assert("url"@.len() == 3);
        assert("urlLabel"@.len() == 8);
        assert("showUser"@[0] != "urlLabel"@[0]);
        let o = Message::fields(m);
        i32::lemma_round_trip(m.id);
        assert(req_field::<i32>(o, "id"@) matches Ok(v) && v == m.id);
        String::lemma_round_trip(m.format);
        assert(req_field::<String>(o, "format"@) matches Ok(v) && v == m.format);
        Dictionary::<String>::lemma_round_trip(m.variables);
        assert(default_field::<Dictionary<String>>(o, "variables"@, Seq::empty()) matches Ok(v) && v == m.variables);
        bool::lemma_round_trip(m.send_telemetry);
        assert(default_field::<bool>(o, "sendTelemetry"@, false) matches Ok(v) && v == m.send_telemetry);
        bool::lemma_round_trip(m.show_user);
        assert(default_field::<bool>(o, "showUser"@, false) matches Ok(v) && v == m.show_user);
        Option::<String>::lemma_round_trip(m.url);
        assert(opt_field::<String>(o, "url"@) matches Ok(v) && v == m.url);
        Option::<String>::lemma_round_trip(m.url_label);
        assert(opt_field::<String>(o, "urlLabel"@) matches Ok(v) && v == m.url_label);
    }
}

impl Record for Message {
    open spec fn field_names() -> Set<Seq<char>> {
        set!["id"@, "format"@, "variables"@, "sendTelemetry"@, "showUser"@, "url"@, "urlLabel"@]
    }

    proof fn lemma_unknown_field(o: JsonObject, key: Seq<char>, x: Json) {
        broadcast use group_field_rules;

        reveal(default_field);
        reveal(opt_field);
        reveal(req_field);
    }
}

impl Defaults for Message {
    open spec fn elidable_names() -> Set<Seq<char>> {
        set!["variables"@, "sendTelemetry"@, "showUser"@, "url"@, "urlLabel"@]
    }

    open spec fn at_defaults(m: MessageView) -> bool {
        &&& m.variables == Seq::<(Seq<char>, Seq<char>)>::empty()
        &&& !m.send_telemetry
        &&& !m.show_user
        &&& m.url is None
        &&& m.url_label is None
    }

    proof fn lemma_defaults_elided(m: MessageView, key: Seq<char>) {
        broadcast use group_field_rules;

        reveal_strlit("id");
        reveal_strlit("format");
        reveal_strlit("variables");
        reveal_strlit("sendTelemetry");
        reveal_strlit("showUser");
        reveal_strlit("url");
        reveal_strlit("urlLabel");
        assert("id"@.len() == 2);
        assert("format"@.len() == 6);
        assert("variables"@.len() == 9);
        assert("sendTelemetry"@.len() == 13);
        assert("showUser"@.len() == 8);
        assert("url"@.len() == 3);
        assert("urlLabel"@.len() == 8);
        assert("showUser"@[0] != "urlLabel"@[0]);
    }
}

/// A Module object represents a row in the modules view.
///
/// Two attributes are mandatory: an id identifies a module in the modules view and is used in a ModuleEvent for identifying a module for adding, updating or deleting.
///
/// The name is used to minimally render the module in the UI.
///
///
///
/// Additional attributes can be added to the module. They will show up in the module View if they have a corresponding ColumnDescriptor.
///
///
///
/// To avoid an unnecessary proliferation of additional attributes with similar semantics but different names
///
/// we recommend to re-use attributes from the 'recommended' list below first, and only introduce new attributes if nothing appropriate could be found.
#[derive(Clone, Debug, PartialEq, Eq)]
pub struct Module {
    /// Unique identifier for the module.
    pub id: ModuleId,

    /// A name of the module.
    pub name: String,

    /// optional but recommended attributes.
    ///
    /// always try to use these first before introducing additional attributes.
    ///
    ///
    ///
    /// Logical full path to the module. The exact definition is implementation defined, but usually this would be a full path to the on-disk file for the module.
    pub path: Option<String>,

    /// True if the module is optimized.
    pub is_optimized: Option<bool>,

    /// True if the module is considered 'user code' by a debugger that supports 'Just My Code'.
    pub is_user_code: Option<bool>,

    /// Version of Module.
    pub version: Option<String>,

    /// User understandable description of if symbols were found for the module (ex: 'Symbols Loaded', 'Symbols not found', etc.
    pub symbol_status: Option<String>,

    /// Logical full path to the symbol file. The exact definition is implementation defined.
    pub symbol_file_path: Option<String>,

    /// Module created or modified.
    pub date_time_stamp: Option<String>,

    /// Address range covered by this module.
    pub address_range: Option<String>,
}

/// The mathematical content of a [`Module`].
pub struct ModuleView {
    pub id: ModuleIdView,
    pub name: Seq<char>,
    pub path: Option<Seq<char>>,
    pub is_optimized: Option<bool>,
    pub is_user_code: Option<bool>,
    pub version: Option<Seq<char>>,
    pub symbol_status: Option<Seq<char>>,
    pub symbol_file_path: Option<Seq<char>>,
    pub date_time_stamp: Option<Seq<char>>,
    pub address_range: Option<Seq<char>>,
}

impl View for Module {
    type V = ModuleView;

    open spec fn view(&self) -> ModuleView {
        ModuleView {
            id: self.id.model(),
            name: self.name.model(),
            path: self.path.model(),
            is_optimized: self.is_optimized.model(),
            is_user_code: self.is_user_code.model(),
            version: self.version.model(),
            symbol_status: self.symbol_status.model(),
            symbol_file_path: self.symbol_file_path.model(),
            date_time_stamp: self.date_time_stamp.model(),
            address_range: self.address_range.model(),
        }
    }
}

impl Module {
    /// The fields that are written for a value.
    pub open spec fn fields(m: ModuleView) -> JsonObject {
        let o = empty_object();
        let o = with_field::<ModuleId>(o, "id"@, m.id);
        let o = with_field::<String>(o, "name"@, m.name);
        let o = with_opt_field::<String>(o, "path"@, m.path);
        let o = with_opt_field::<bool>(o, "isOptimized"@, m.is_optimized);
        let o = with_opt_field::<bool>(o, "isUserCode"@, m.is_user_code);
        let o = with_opt_field::<String>(o, "version"@, m.version);
        let o = with_opt_field::<String>(o, "symbolStatus"@, m.symbol_status);
        let o = with_opt_field::<String>(o, "symbolFilePath"@, m.symbol_file_path);
        let o = with_opt_field::<String>(o, "dateTimeStamp"@, m.date_time_stamp);
        let o = with_opt_field::<String>(o, "addressRange"@, m.address_range);
        o
    }

    /// What the fields of an object decode to: the first failure in the order of
    /// the fields, or the value.
    pub open spec fn decode_fields(o: JsonObject) -> Result<ModuleView, DecodeErrorView> {
        let id = req_field::<ModuleId>(o, "id"@);
        let name = req_field::<String>(o, "name"@);
        let path = opt_field::<String>(o, "path"@);
        let is_optimized = opt_field::<bool>(o, "isOptimized"@);
        let is_user_code = opt_field::<bool>(o, "isUserCode"@);
        let version = opt_field::<String>(o, "version"@);
        let symbol_status = opt_field::<String>(o, "symbolStatus"@);
        let symbol_file_path = opt_field::<String>(o, "symbolFilePath"@);
        let date_time_stamp = opt_field::<String>(o, "dateTimeStamp"@);
        let address_range = opt_field::<String>(o, "addressRange"@);
        if id is Err {
            Err(id->Err_0)
        } else if name is Err {
            Err(name->Err_0)
        } else if path is Err {
            Err(path->Err_0)
        } else if is_optimized is Err {
            Err(is_optimized->Err_0)
        } else if is_user_code is Err {
            Err(is_user_code->Err_0)
        } else if version is Err {
            Err(version->Err_0)
        } else if symbol_status is Err {
            Err(symbol_status->Err_0)
        } else if symbol_file_path is Err {
            Err(symbol_file_path->Err_0)
        } else if date_time_stamp is Err {
            Err(date_time_stamp->Err_0)
        } else if address_range is Err {
            Err(address_range->Err_0)
        } else {
            Ok(ModuleView {
                id: id->Ok_0,
                name: name->Ok_0,
                path: path->Ok_0,
                is_optimized: is_optimized->Ok_0,
                is_user_code: is_user_code->Ok_0,
                version: version->Ok_0,
                symbol_status: symbol_status->Ok_0,
                symbol_file_path: symbol_file_path->Ok_0,
                date_time_stamp: date_time_stamp->Ok_0,
                address_range: address_range->Ok_0,
            })
        }
    }

    /// Writes the fields of the value into a fresh object.
    pub fn to_object(&self) -> (o: serde_json::Map<String, serde_json::Value>)
        ensures
            object_model(o) == Module::fields(self@),
    {
        let mut o = object_new();
        put::<ModuleId>(&mut o, "id", &self.id);
        put::<String>(&mut o, "name", &self.name);
        put_opt::<String>(&mut o, "path", &self.path);
        put_opt::<bool>(&mut o, "isOptimized", &self.is_optimized);
        put_opt::<bool>(&mut o, "isUserCode", &self.is_user_code);
        put_opt::<String>(&mut o, "version", &self.version);
        put_opt::<String>(&mut o, "symbolStatus", &self.symbol_status);
        put_opt::<String>(&mut o, "symbolFilePath", &self.symbol_file_path);
        put_opt::<String>(&mut o, "dateTimeStamp", &self.date_time_stamp);
        put_opt::<String>(&mut o, "addressRange", &self.address_range);
        o
    }

    /// Reads a value from the fields of an object.
    pub fn from_object(o: &serde_json::Map<String, serde_json::Value>) -> (r: Result<
        Module,
        DecodeError,
    >)
        ensures
            match r {
                Ok(x) => Module::decode_fields(object_model(*o)) matches Ok(m) && m == x.model(),
                Err(e) => Module::decode_fields(object_model(*o)) matches Err(f) && f == e@,
            },
    {
        let id = get_req::<ModuleId>(o, "id")?;
        let name = get_req::<String>(o, "name")?;
        let path = get_opt::<String>(o, "path")?;
        let is_optimized = get_opt::<bool>(o, "isOptimized")?;
        let is_user_code = get_opt::<bool>(o, "isUserCode")?;
        let version = get_opt::<String>(o, "version")?;
        let symbol_status = get_opt::<String>(o, "symbolStatus")?;
        let symbol_file_path = get_opt::<String>(o, "symbolFilePath")?;
        let date_time_stamp = get_opt::<String>(o, "dateTimeStamp")?;
        let address_range = get_opt::<String>(o, "addressRange")?;
        Ok(Module { id, name, path, is_optimized, is_user_code, version, symbol_status, symbol_file_path, date_time_stamp, address_range })
    }
}

impl Wire for Module {
    type Model = ModuleView;

    open spec fn model(&self) -> ModuleView {
        self@
    }

    open spec fn wire_ok(m: ModuleView) -> bool {
        true
    }

    open spec fn encode_json(m: ModuleView) -> Json {
        Json::Object(Module::fields(m))
    }

    open spec fn decode_json(j: Json) -> Result<ModuleView, DecodeErrorView> {
        match j {
            Json::Object(o) => Module::decode_fields(o),
            _ => Err(DecodeErrorView::InvalidType),
        }
    }

    fn to_value(&self) -> (r: serde_json::Value) {
        value_object(self.to_object())
    }

    fn from_value(v: &serde_json::Value) -> (r: Result<Module, DecodeError>) {
        match value_as_object(v) {
            Some(o) => Module::from_object(o),
            None => Err(DecodeError::InvalidType),
        }
    }

    proof fn lemma_round_trip(m: ModuleView) {
        broadcast use group_field_rules;

        reveal(opt_field);
        reveal(req_field);
        reveal_strlit("id");
        reveal_strlit("name");
        reveal_strlit("path");
        reveal_strlit("isOptimized");
        reveal_strlit("isUserCode");
        reveal_strlit("version");
        reveal_strlit("symbolStatus");
        reveal_strlit("symbolFilePath");
        reveal_strlit("dateTimeStamp");
        reveal_strlit("addressRange");
        assert("id"@.len() == 2);
        assert("name"@.len() == 4);
        assert("path"@.len() == 4);
        assert("isOptimized"@.len() == 11);
        assert("isUserCode"@.len() == 10);
        assert("version"@.len() == 7);
        assert("symbolStatus"@.len() == 12);
        assert("symbolFilePath"@.len() == 14);
        assert("dateTimeStamp"@.len() == 13);
        assert("addressRange"@.len() == 12);
        assert("name"@[0] != "path"@[0]);
        assert("symbolStatus"@[0] != "addressRange"@[0]);
        let o = Module::fields(m);
        ModuleId::lemma_round_trip(m.id);
        assert(req_field::<ModuleId>(o, "id"@) matches Ok(v) && v == m.id);
        String::lemma_round_trip(m.name);
        assert(req_field::<String>(o, "name"@) matches Ok(v) && v == m.name);
        Option::<String>::lemma_round_trip(m.path);
        assert(opt_field::<String>(o, "path"@) matches Ok(v) && v == m.path);
        Option::<bool>::lemma_round_trip(m.is_optimized);
        assert(opt_field::<bool>(o, "isOptimized"@) matches Ok(v) && v == m.is_optimized);
        Option::<bool>::lemma_round_trip(m.is_user_code);
        assert(opt_field::<bool>(o, "isUserCode"@) matches Ok(v) && v == m.is_user_code);
        Option::<String>::lemma_round_trip(m.version);
        assert(opt_field::<String>(o, "version"@) matches Ok(v) && v == m.version);
        Option::<String>::lemma_round_trip(m.symbol_status);
        assert(opt_field::<String>(o, "symbolStatus"@) matches Ok(v) && v == m.symbol_status);
        Option::<String>::lemma_round_trip(m.symbol_file_path);
        assert(opt_field::<String>(o, "symbolFilePath"@) matches Ok(v) && v == m.symbol_file_path);
        Option::<String>::lemma_round_trip(m.date_time_stamp);
        assert(opt_field::<String>(o, "dateTimeStamp"@) matches Ok(v) && v == m.date_time_stamp);
        Option::<String>::lemma_round_trip(m.address_range);
        assert(opt_field::<String>(o, "addressRange"@) matches Ok(v) && v == m.address_range);
    }
}

impl Record for Module {
    open spec fn field_names() -> Set<Seq<char>> {
        set!["id"@, "name"@, "path"@, "isOptimized"@, "isUserCode"@, "version"@, "symbolStatus"@, "symbolFilePath"@, "dateTimeStamp"@, "addressRange"@]
    }

    proof fn lemma_unknown_field(o: JsonObject, key: Seq<char>, x: Json) {
        broadcast use group_field_rules;

        reveal(opt_field);
        reveal(req_field);
    }
}

impl Defaults for Module {
    open spec fn elidable_names() -> Set<Seq<char>> {
        set!["path"@, "isOptimized"@, "isUserCode"@, "version"@, "symbolStatus"@, "symbolFilePath"@, "dateTimeStamp"@, "addressRange"@]
    }

    open spec fn at_defaults(m: ModuleView) -> bool {
        &&& m.path is None
        &&& m.is_optimized is None
        &&& m.is_user_code is None
        &&& m.version is None
        &&& m.symbol_status is None
        &&& m.symbol_file_path is None
        &&& m.date_time_stamp is None
        &&& m.address_range is None
    }

    proof fn lemma_defaults_elided(m: ModuleView, key: Seq<char>) {
        broadcast use group_field_rules;

        reveal_strlit("id");
        reveal_strlit("name");
        reveal_strlit("path");
        reveal_strlit("isOptimized");
        reveal_strlit("isUserCode");
        reveal_strlit("version");
        reveal_strlit("symbolStatus");
        reveal_strlit("symbolFilePath");
        reveal_strlit("dateTimeStamp");
        reveal_strlit("addressRange");
        assert("id"@.len() == 2);
        assert("name"@.len() == 4);
        assert("path"@.len() == 4);
        assert("isOptimized"@.len() == 11);
        assert("isUserCode"@.len() == 10);
        assert("version"@.len() == 7);
        assert("symbolStatus"@.len() == 12);
        assert("symbolFilePath"@.len() == 14);
        assert("dateTimeStamp"@.len() == 13);
        assert("addressRange"@.len() == 12);
        assert("name"@[0] != "path"@[0]);
        assert("symbolStatus"@[0] != "addressRange"@[0]);
    }
}

/// The identifier of a module: a number or a string.
#[derive(Clone, Debug, PartialEq, Eq)]
pub enum ModuleId {
    Integer(i32),
    String(String),
}

/// The mathematical content of a [`ModuleId`].
pub enum ModuleIdView {
    Integer(i32),
    String(Seq<char>),
}

impl View for ModuleId {
    type V = ModuleIdView;

    open spec fn view(&self) -> ModuleIdView {
        match self {
            ModuleId::Integer(i) => ModuleIdView::Integer(*i),
            ModuleId::String(s) => ModuleIdView::String(s@),
        }
    }
}

/// An identifier travels as a bare number or a bare string, and comes back in
/// the form in which it was written.
impl Wire for ModuleId {
    type Model = ModuleIdView;

    open spec fn model(&self) -> ModuleIdView {
        self@
    }

    open spec fn wire_ok(m: ModuleIdView) -> bool {
        true
    }

    open spec fn encode_json(m: ModuleIdView) -> Json {
        match m {
            ModuleIdView::Integer(i) => Json::Int(i as int),
            ModuleIdView::String(s) => Json::Str(s),
        }
    }

    open spec fn decode_json(j: Json) -> Result<ModuleIdView, DecodeErrorView> {
        match j {
            Json::Int(i) => if i32::MIN <= i <= i32::MAX {
                Ok(ModuleIdView::Integer(i as i32))
            } else {
                Err(DecodeErrorView::InvalidType)
            },
            Json::Str(s) => Ok(ModuleIdView::String(s)),
            _ => Err(DecodeErrorView::InvalidType),
        }
    }

    fn to_value(&self) -> (r: serde_json::Value) {
        match self {
            ModuleId::Integer(i) => i.to_value(),
            ModuleId::String(s) => s.to_value(),
        }
    }

    fn from_value(v: &serde_json::Value) -> (r: Result<ModuleId, DecodeError>) {
        match i32::from_value(v) {
            Ok(i) => Ok(ModuleId::Integer(i)),
            Err(_) => match String::from_value(v) {
                Ok(s) => Ok(ModuleId::String(s)),
                Err(e) => Err(e),
            },
        }
    }

    proof fn lemma_round_trip(m: ModuleIdView) {
    }
}

/// The ModulesViewDescriptor is the container for all declarative configuration options of a ModuleView.
///
/// For now it only specifies the columns to be shown in the modules view.
#[derive(Clone, Debug, PartialEq, Eq)]
pub struct ModulesViewDescriptor {
    pub columns: Vec<ColumnDescriptor>,
}

/// The mathematical content of a [`ModulesViewDescriptor`].
pub struct ModulesViewDescriptorView {
    pub columns: Seq<ColumnDescriptorView>,
}

impl View for ModulesViewDescriptor {
    type V = ModulesViewDescriptorView;

    open spec fn view(&self) -> ModulesViewDescriptorView {
        ModulesViewDescriptorView {
            columns: self.columns.model(),
        }
    }
}

impl ModulesViewDescriptor {
    /// The fields that are written for a value.
    pub open spec fn fields(m: ModulesViewDescriptorView) -> JsonObject {
        let o = empty_object();
        let o = with_field::<Vec<ColumnDescriptor>>(o, "columns"@, m.columns);
        o
    }

    /// What the fields of an object decode to: the first failure in the order of
    /// the fields, or the value.
    pub open spec fn decode_fields(o: JsonObject) -> Result<ModulesViewDescriptorView, DecodeErrorView> {
        let columns = req_field::<Vec<ColumnDescriptor>>(o, "columns"@);
        if columns is Err {
            Err(columns->Err_0)
        } else {
            Ok(ModulesViewDescriptorView {
                columns: columns->Ok_0,
            })
        }
    }

    /// Writes the fields of the value into a fresh object.
    pub fn to_object(&self) -> (o: serde_json::Map<String, serde_json::Value>)
        ensures
            object_model(o) == ModulesViewDescriptor::fields(self@),
    {
        let mut o = object_new();
        put::<Vec<ColumnDescriptor>>(&mut o, "columns", &self.columns);
        o
    }

    /// Reads a value from the fields of an object.
    pub fn from_object(o: &serde_json::Map<String, serde_json::Value>) -> (r: Result<
        ModulesViewDescriptor,
        DecodeError,
    >)
        ensures
            match r {
                Ok(x) => ModulesViewDescriptor::decode_fields(object_model(*o)) matches Ok(m) && m == x.model(),
                Err(e) => ModulesViewDescriptor::decode_fields(object_model(*o)) matches Err(f) && f == e@,
            },
    {
        let columns = get_req::<Vec<ColumnDescriptor>>(o, "columns")?;
        Ok(ModulesViewDescriptor { columns })
    }
}

impl Wire for ModulesViewDescriptor {
    type Model = ModulesViewDescriptorView;

    open spec fn model(&self) -> ModulesViewDescriptorView {
        self@
    }

    open spec fn wire_ok(m: ModulesViewDescriptorView) -> bool {
        true
    }

    open spec fn encode_json(m: ModulesViewDescriptorView) -> Json {
        Json::Object(ModulesViewDescriptor::fields(m))
    }

    open spec fn decode_json(j: Json) -> Result<ModulesViewDescriptorView, DecodeErrorView> {
        match j {
            Json::Object(o) => ModulesViewDescriptor::decode_fields(o),
            _ => Err(DecodeErrorView::InvalidType),
        }
    }

    fn to_value(&self) -> (r: serde_json::Value) {
        value_object(self.to_object())
    }

    fn from_value(v: &serde_json::Value) -> (r: Result<ModulesViewDescriptor, DecodeError>) {
        match value_as_object(v) {
            Some(o) => ModulesViewDescriptor::from_object(o),
            None => Err(DecodeError::InvalidType),
        }
    }

    proof fn lemma_round_trip(m: ModulesViewDescriptorView) {
        broadcast use group_field_rules;

        reveal(req_field);
        reveal_strlit("columns");
        assert("columns"@.len() == 7);
        let o = ModulesViewDescriptor::fields(m);
        Vec::<ColumnDescriptor>::lemma_round_trip(m.columns);
        assert(req_field::<Vec<ColumnDescriptor>>(o, "columns"@) matches Ok(v) && v == m.columns);
    }
}

impl Record for ModulesViewDescriptor {
    open spec fn field_names() -> Set<Seq<char>> {
        set!["columns"@]
    }

    proof fn lemma_unknown_field(o: JsonObject, key: Seq<char>, x: Json) {
        broadcast use group_field_rules;

        reveal(req_field);
    }
}

/// A Scope is a named container for variables. Optionally a scope can map to a source or a range within a source.
#[derive(Clone, Debug, PartialEq, Eq)]
pub struct Scope {
    /// Name of the scope such as 'Arguments', 'Locals', or 'Registers'. This string is shown in the UI as is and can be translated.
    pub name: String,

    /// An optional hint for how to present this scope in the UI. If this attribute is missing, the scope is shown with a generic UI.
    pub presentation_hint: Option<ScopePresentationHint>,

    /// The variables of this scope can be retrieved by passing the value of variablesReference to the VariablesRequest.
    pub variables_reference: i32,

    /// The number of named variables in this scope.
    ///
    /// The client can use this optional information to present the variables in a paged UI and fetch them in chunks.
    pub named_variables: Option<i32>,

    /// The number of indexed variables in this scope.
    ///
    /// The client can use this optional information to present the variables in a paged UI and fetch them in chunks.
    pub indexed_variables: Option<i32>,

    /// If true, the number of variables in this scope is large or expensive to retrieve.
    pub expensive: bool,

    /// Optional source for this scope.
    pub source: Option<Source>,

    /// Optional start line of the range covered by this scope.
    pub line: Option<i32>,

    /// Optional start column of the range covered by this scope.
    pub column: Option<i32>,

    /// Optional end line of the range covered by this scope.
    pub end_line: Option<i32>,

    /// Optional end column of the range covered by this scope.
    pub end_column: Option<i32>,
}

/// The mathematical content of a [`Scope`].
pub struct ScopeView {
    pub name: Seq<char>,
    pub presentation_hint: Option<ScopePresentationHint>,
    pub variables_reference: i32,
    pub named_variables: Option<i32>,
    pub indexed_variables: Option<i32>,
    pub expensive: bool,
    pub source: Option<SourceView>,
    pub line: Option<i32>,
    pub column: Option<i32>,
    pub end_line: Option<i32>,
    pub end_column: Option<i32>,
}

impl View for Scope {
    type V = ScopeView;

    open spec fn view(&self) -> ScopeView {
        ScopeView {
            name: self.name.model(),
            presentation_hint: self.presentation_hint.model(),
            variables_reference: self.variables_reference,
            named_variables: self.named_variables.model(),
            indexed_variables: self.indexed_variables.model(),
            expensive: self.expensive,
            source: self.source.model(),
            line: self.line.model(),
            column: self.column.model(),
            end_line: self.end_line.model(),
            end_column: self.end_column.model(),
        }
    }
}

impl Scope {
    /// The fields that are written for a value.
    pub open spec fn fields(m: ScopeView) -> JsonObject {
        let o = empty_object();
        let o = with_field::<String>(o, "name"@, m.name);
        let o = with_opt_field::<ScopePresentationHint>(o, "presentationHint"@, m.presentation_hint);
        let o = with_field::<i32>(o, "variablesReference"@, m.variables_reference);
        let o = with_opt_field::<i32>(o, "namedVariables"@, m.named_variables);
        let o = with_opt_field::<i32>(o, "indexedVariables"@, m.indexed_variables);
        let o = with_field::<bool>(o, "expensive"@, m.expensive);
        let o = with_opt_field::<Source>(o, "source"@, m.source);
        let o = with_opt_field::<i32>(o, "line"@, m.line);
        let o = with_opt_field::<i32>(o, "column"@, m.column);
        let o = with_opt_field::<i32>(o, "endLine"@, m.end_line);
        let o = with_opt_field::<i32>(o, "endColumn"@, m.end_column);
        o
    }

    /// What the fields of an object decode to: the first failure in the order of
    /// the fields, or the value.
    pub open spec fn decode_fields(o: JsonObject) -> Result<ScopeView, DecodeErrorView> {
        let name = req_field::<String>(o, "name"@);
        let presentation_hint = opt_field::<ScopePresentationHint>(o, "presentationHint"@);
        let variables_reference = req_field::<i32>(o, "variablesReference"@);
        let named_variables = opt_field::<i32>(o, "namedVariables"@);
        let indexed_variables = opt_field::<i32>(o, "indexedVariables"@);
        let expensive = req_field::<bool>(o, "expensive"@);
        let source = opt_field::<Source>(o, "source"@);
        let line = opt_field::<i32>(o, "line"@);
        let column = opt_field::<i32>(o, "column"@);
        let end_line = opt_field::<i32>(o, "endLine"@);
        let end_column = opt_field::<i32>(o, "endColumn"@);
        if name is Err {
            Err(name->Err_0)
        } else if presentation_hint is Err {
            Err(presentation_hint->Err_0)
        } else if variables_reference is Err {
            Err(variables_reference->Err_0)
        } else if named_variables is Err {
            Err(named_variables->Err_0)
        } else if indexed_variables is Err {
            Err(indexed_variables->Err_0)
        } else if expensive is Err {
            Err(expensive->Err_0)
        } else if source is Err {
            Err(source->Err_0)
        } else if line is Err {
            Err(line->Err_0)
        } else if column is Err {
            Err(column->Err_0)
        } else if end_line is Err {
            Err(end_line->Err_0)
        } else if end_column is Err {
            Err(end_column->Err_0)
        } else {
            Ok(ScopeView {
                name: name->Ok_0,
                presentation_hint: presentation_hint->Ok_0,
                variables_reference: variables_reference->Ok_0,
                named_variables: named_variables->Ok_0,
                indexed_variables: indexed_variables->Ok_0,
                expensive: expensive->Ok_0,
                source: source->Ok_0,
                line: line->Ok_0,
                column: column->Ok_0,
                end_line: end_line->Ok_0,
                end_column: end_column->Ok_0,
            })
        }
    }

    /// Writes the fields of the value into a fresh object.
    pub fn to_object(&self) -> (o: serde_json::Map<String, serde_json::Value>)
        ensures
            object_model(o) == Scope::fields(self@),
    {
        let mut o = object_new();
        put::<String>(&mut o, "name", &self.name);
        put_opt::<ScopePresentationHint>(&mut o, "presentationHint", &self.presentation_hint);
        put::<i32>(&mut o, "variablesReference", &self.variables_reference);
        put_opt::<i32>(&mut o, "namedVariables", &self.named_variables);
        put_opt::<i32>(&mut o, "indexedVariables", &self.indexed_variables);
        put::<bool>(&mut o, "expensive", &self.expensive);
        put_opt::<Source>(&mut o, "source", &self.source);
        put_opt::<i32>(&mut o, "line", &self.line);
        put_opt::<i32>(&mut o, "column", &self.column);
        put_opt::<i32>(&mut o, "endLine", &self.end_line);
        put_opt::<i32>(&mut o, "endColumn", &self.end_column);
        o
    }

    /// Reads a value from the fields of an object.
    pub fn from_object(o: &serde_json::Map<String, serde_json::Value>) -> (r: Result<
        Scope,
        DecodeError,
    >)
        ensures
            match r {
                Ok(x) => Scope::decode_fields(object_model(*o)) matches Ok(m) && m == x.model(),
                Err(e) => Scope::decode_fields(object_model(*o)) matches Err(f) && f == e@,
            },
    {
        let name = get_req::<String>(o, "name")?;
        let presentation_hint = get_opt::<ScopePresentationHint>(o, "presentationHint")?;
        let variables_reference = get_req::<i32>(o, "variablesReference")?;
        let named_variables = get_opt::<i32>(o, "namedVariables")?;
        let indexed_variables = get_opt::<i32>(o, "indexedVariables")?;
        let expensive = get_req::<bool>(o, "expensive")?;
        let source = get_opt::<Source>(o, "source")?;
        let line = get_opt::<i32>(o, "line")?;
        let column = get_opt::<i32>(o, "column")?;
        let end_line = get_opt::<i32>(o, "endLine")?;
        let end_column = get_opt::<i32>(o, "endColumn")?;
        Ok(Scope { name, presentation_hint, variables_reference, named_variables, indexed_variables, expensive, source, line, column, end_line, end_column })
    }
}

impl Wire for Scope {
    type Model = ScopeView;

    open spec fn model(&self) -> ScopeView {
        self@
    }

    open spec fn wire_ok(m: ScopeView) -> bool {
        &&& Option::<Source>::wire_ok(m.source)
    }

    open spec fn encode_json(m: ScopeView) -> Json {
        Json::Object(Scope::fields(m))
    }

    open spec fn decode_json(j: Json) -> Result<ScopeView, DecodeErrorView> {
        match j {
            Json::Object(o) => Scope::decode_fields(o),
            _ => Err(DecodeErrorView::InvalidType),
        }
    }

    fn to_value(&self) -> (r: serde_json::Value) {
        value_object(self.to_object())
    }

    fn from_value(v: &serde_json::Value) -> (r: Result<Scope, DecodeError>) {
        match value_as_object(v) {
            Some(o) => Scope::from_object(o),
            None => Err(DecodeError::InvalidType),
        }
    }

    proof fn lemma_round_trip(m: ScopeView) {
        broadcast use group_field_rules;

        reveal(opt_field);
        reveal(req_field);
        reveal_strlit("name");
        reveal_strlit("presentationHint");
        reveal_strlit("variablesReference");
        reveal_strlit("namedVariables");
        reveal_strlit("indexedVariables");
        reveal_strlit("expensive");
        reveal_strlit("source");
        reveal_strlit("line");
        reveal_strlit("column");
        reveal_strlit("endLine");
        reveal_strlit("endColumn");
        assert("name"@.len() == 4);
        assert("presentationHint"@.len() == 16);
        assert("variablesReference"@.len() == 18);
        assert("namedVariables"@.len() == 14);
        assert("indexedVariables"@.len() == 16);
        assert("expensive"@.len() == 9);
        assert("source"@.len() == 6);
        assert("line"@.len() == 4);
        assert("column"@.len() == 6);
        assert("endLine"@.len() == 7);
        assert("endColumn"@.len() == 9);
        assert("name"@[0] != "line"@[0]);
        assert("presentationHint"@[0] != "indexedVariables"@[0]);
        assert("expensive"@[1] != "endColumn"@[1]);
        assert("source"@[0] != "column"@[0]);
        let o = Scope::fields(m);
        String::lemma_round_trip(m.name);
        assert(req_field::<String>(o, "name"@) matches Ok(v) && v == m.name);
        Option::<ScopePresentationHint>::lemma_round_trip(m.presentation_hint);
        assert(opt_field::<ScopePresentationHint>(o, "presentationHint"@) matches Ok(v) && v == m.presentation_hint);
        i32::lemma_round_trip(m.variables_reference);
        assert(req_field::<i32>(o, "variablesReference"@) matches Ok(v) && v == m.variables_reference);
        Option::<i32>::lemma_round_trip(m.named_variables);
        assert(opt_field::<i32>(o, "namedVariables"@) matches Ok(v) && v == m.named_variables);
        Option::<i32>::lemma_round_trip(m.indexed_variables);
        assert(opt_field::<i32>(o, "indexedVariables"@) matches Ok(v) && v == m.indexed_variables);
        bool::lemma_round_trip(m.expensive);
        assert(req_field::<bool>(o, "expensive"@) matches Ok(v) && v == m.expensive);
        Option::<Source>::lemma_round_trip(m.source);
        assert(opt_field::<Source>(o, "source"@) matches Ok(v) && v == m.source);
        Option::<i32>::lemma_round_trip(m.line);
        assert(opt_field::<i32>(o, "line"@) matches Ok(v) && v == m.line);
        Option::<i32>::lemma_round_trip(m.column);
        assert(opt_field::<i32>(o, "column"@) matches Ok(v) && v == m.column);
        Option::<i32>::lemma_round_trip(m.end_line);
        assert(opt_field::<i32>(o, "endLine"@) matches Ok(v) && v == m.end_line);
        Option::<i32>::lemma_round_trip(m.end_column);
        assert(opt_field::<i32>(o, "endColumn"@) matches Ok(v) && v == m.end_column);
    }
}

impl Record for Scope {
    open spec fn field_names() -> Set<Seq<char>> {
        set!["name"@, "presentationHint"@, "variablesReference"@, "namedVariables"@, "indexedVariables"@, "expensive"@, "source"@, "line"@, "column"@, "endLine"@, "endColumn"@]
    }

    proof fn lemma_unknown_field(o: JsonObject, key: Seq<char>, x: Json) {
        broadcast use group_field_rules;

        reveal(opt_field);
        reveal(req_field);
    }
}

impl Defaults for Scope {
    open spec fn elidable_names() -> Set<Seq<char>> {
        set!["presentationHint"@, "namedVariables"@, "indexedVariables"@, "source"@, "line"@, "column"@, "endLine"@, "endColumn"@]
    }

    open spec fn at_defaults(m: ScopeView) -> bool {
        &&& m.presentation_hint is None
        &&& m.named_variables is None
        &&& m.indexed_variables is None
        &&& m.source is None
        &&& m.line is None
        &&& m.column is None
        &&& m.end_line is None
        &&& m.end_column is None
    }

    proof fn lemma_defaults_elided(m: ScopeView, key: Seq<char>) {
        broadcast use group_field_rules;

        reveal_strlit("name");
        reveal_strlit("presentationHint");
        reveal_strlit("variablesReference");
        reveal_strlit("namedVariables");
        reveal_strlit("indexedVariables");
        reveal_strlit("expensive");
        reveal_strlit("source");
        reveal_strlit("line");
        reveal_strlit("column");
        reveal_strlit("endLine");
        reveal_strlit("endColumn");
        assert("name"@.len() == 4);
        assert("presentationHint"@.len() == 16);
        assert("variablesReference"@.len() == 18);
        assert("namedVariables"@.len() == 14);
        assert("indexedVariables"@.len() == 16);
        assert("expensive"@.len() == 9);
        assert("source"@.len() == 6);
        assert("line"@.len() == 4);
        assert("column"@.len() == 6);
        assert("endLine"@.len() == 7);
        assert("endColumn"@.len() == 9);
        assert("name"@[0] != "line"@[0]);
        assert("presentationHint"@[0] != "indexedVariables"@[0]);
        assert("expensive"@[1] != "endColumn"@[1]);
        assert("source"@[0] != "column"@[0]);
    }
}

#[derive(Clone, Copy, Debug, PartialEq, Eq, Structural)]
pub enum ScopePresentationHint {
    /// Scope contains method arguments.
    Arguments,
    /// Scope contains local variables.
    Locals,
    /// Scope contains registers. Only a single 'registers' scope should be returned from a 'scopes' request.
    Registers,
}

impl ScopePresentationHint {
    /// The name under which the value travels.
    pub open spec fn name(self) -> Seq<char> {
        match self {
            ScopePresentationHint::Arguments => "arguments"@,
            ScopePresentationHint::Locals => "locals"@,
            ScopePresentationHint::Registers => "registers"@,
        }
    }

    /// The value that travels under `s`, if there is one.
    pub open spec fn named(s: Seq<char>) -> Option<ScopePresentationHint> {
        if s == "arguments"@ {
            Some(ScopePresentationHint::Arguments)
        } else if s == "locals"@ {
            Some(ScopePresentationHint::Locals)
        } else if s == "registers"@ {
            Some(ScopePresentationHint::Registers)
        } else {
            None
        }
    }

    pub fn as_str(&self) -> (r: &'static str)
        ensures
            r@ == self.name(),
    {
        match self {
            ScopePresentationHint::Arguments => "arguments",
            ScopePresentationHint::Locals => "locals",
            ScopePresentationHint::Registers => "registers",
        }
    }

    pub fn from_name(s: &str) -> (r: Option<ScopePresentationHint>)
        ensures
            r == ScopePresentationHint::named(s@),
    {
        if str_eq(s, "arguments") {
            Some(ScopePresentationHint::Arguments)
        } else if str_eq(s, "locals") {
            Some(ScopePresentationHint::Locals)
        } else if str_eq(s, "registers") {
            Some(ScopePresentationHint::Registers)
        } else {
            None
        }
    }

    /// Every value is found again under its name.
    pub proof fn lemma_named(self)
        ensures
            ScopePresentationHint::named(self.name()) == Some(self),
    {
        reveal_strlit("arguments");
        reveal_strlit("locals");
        reveal_strlit("registers");
        assert("arguments"@.len() == 9);
        assert("locals"@.len() == 6);
        assert("registers"@.len() == 9);
        assert("arguments"@[0] != "registers"@[0]);
    }
}

impl Wire for ScopePresentationHint {
    type Model = ScopePresentationHint;

    open spec fn model(&self) -> ScopePresentationHint {
        *self
    }

    open spec fn wire_ok(m: ScopePresentationHint) -> bool {
        true
    }

    open spec fn encode_json(m: ScopePresentationHint) -> Json {
        Json::Str(m.name())
    }

    open spec fn decode_json(j: Json) -> Result<ScopePresentationHint, DecodeErrorView> {
        match j {
            Json::Str(s) => match ScopePresentationHint::named(s) {
                Some(x) => Ok(x),
                None => Err(DecodeErrorView::InvalidType),
            },
            _ => Err(DecodeErrorView::InvalidType),
        }
    }

    fn to_value(&self) -> (r: serde_json::Value) {
        value_string(self.as_str().to_owned())
    }

    fn from_value(v: &serde_json::Value) -> (r: Result<ScopePresentationHint, DecodeError>) {
        match value_as_str(v) {
            Some(s) => match ScopePresentationHint::from_name(s) {
                Some(x) => Ok(x),
                None => Err(DecodeError::InvalidType),
            },
            None => Err(DecodeError::InvalidType),
        }
    }

    proof fn lemma_round_trip(m: ScopePresentationHint) {
        m.lemma_named();
    }
}

/// A Source is a descriptor for source code.
///
/// It is returned from the debug adapter as part of a StackFrame and it is used by clients when specifying breakpoints.
#[derive(Debug, PartialEq, Eq)]
pub struct Source {
    /// The short name of the source. Every source returned from the debug adapter has a name.
    ///
    /// When sending a source to the debug adapter this name is optional.
    pub name: Option<String>,

    /// The path of the source to be shown in the UI.
    ///
    /// It is only used to locate and load the content of the source if no sourceReference is specified (or its value is 0).
    pub path: Option<String>,

    /// If sourceReference > 0 the contents of the source must be retrieved through the SourceRequest (even if a path is specified).
    ///
    /// A sourceReference is only valid for a session, so it must not be used to persist a source.
    ///
    /// The value should be less than or equal to 2147483647 (2^31-1).
    pub source_reference: Option<i32>,

    /// An optional hint for how to present the source in the UI.
    ///
    /// A value of 'deemphasize' can be used to indicate that the source is not available or that it is skipped on stepping.
    pub presentation_hint: Option<SourcePresentationHint>,

    /// The (optional) origin of this source: possible values 'internal module', 'inlined content from source map', etc.
    pub origin: Option<String>,

    /// An optional list of sources that are related to this source. These may be the source that generated this source.
    pub sources: Vec<Source>,

    /// Optional data that a debug adapter might want to loop through the client.
    ///
    /// The client should leave the data intact and persist it across sessions. The client should not interpret the data.
    pub adapter_data: Option<serde_json::Value>,

    /// The checksums associated with this file.
    pub checksums: Vec<Checksum>,
}

/// The mathematical content of a [`Source`].
pub struct SourceView {
    pub name: Option<Seq<char>>,
    pub path: Option<Seq<char>>,
    pub source_reference: Option<i32>,
    pub presentation_hint: Option<SourcePresentationHint>,
    pub origin: Option<Seq<char>>,
    pub sources: Seq<SourceView>,
    pub adapter_data: Option<Json>,
    pub checksums: Seq<ChecksumView>,
}

/// The content of a value and of the values nested in it.
pub open spec fn source_view(x: Source) -> SourceView
    decreases x,
{
    SourceView {
        name: x.name.model(),
        path: x.path.model(),
        source_reference: x.source_reference.model(),
        presentation_hint: x.presentation_hint.model(),
        origin: x.origin.model(),
        sources: Seq::new(
            x.sources@.len(),
            |i: int|
                if 0 <= i < x.sources@.len() {
                    source_view(x.sources@[i])
                } else {
                    arbitrary()
                },
        ),
        adapter_data: x.adapter_data.model(),
        checksums: x.checksums.model(),
    }
}

impl View for Source {
    type V = SourceView;

    open spec fn view(&self) -> SourceView {
        source_view(*self)
    }
}

/// The values that come back unchanged from a trip over the wire.
pub open spec fn source_wire_ok(m: SourceView) -> bool
    decreases m,
{
    &&& Option::<serde_json::Value>::wire_ok(m.adapter_data)
    &&& forall|i: int| 0 <= i < m.sources.len() ==> source_wire_ok(#[trigger] m.sources[i])
}

/// What is written for a list of nested values.
pub open spec fn source_encode_seq(s: Seq<SourceView>) -> Seq<Json>
    decreases s, 0int,
{
    Seq::new(
        s.len(),
        |i: int|
            if 0 <= i < s.len() {
                source_encode(s[i])
            } else {
                Json::Null
            },
    )
}

/// What is written for a value.
pub open spec fn source_encode(m: SourceView) -> Json
    decreases m, 2int,
{
    Json::Object(source_fields(m))
}

/// The fields that are written for a value.
pub open spec fn source_fields(m: SourceView) -> JsonObject
    decreases m, 1int,
{
    let o = empty_object();
    let o = with_opt_field::<String>(o, "name"@, m.name);
    let o = with_opt_field::<String>(o, "path"@, m.path);
    let o = with_opt_field::<i32>(o, "sourceReference"@, m.source_reference);
    let o = with_opt_field::<SourcePresentationHint>(o, "presentationHint"@, m.presentation_hint);
    let o = with_opt_field::<String>(o, "origin"@, m.origin);
    let o = set_field(
        o,
        "sources"@,
        if m.sources.len() == 0 {
            None
        } else {
            Some(Json::Array(source_encode_seq(m.sources)))
        },
    );
    let o = with_opt_field::<serde_json::Value>(o, "adapterData"@, m.adapter_data);
    let o = with_nondefault_field::<Vec<Checksum>>(o, "checksums"@, m.checksums, Seq::empty());
    o
}

/// The first failure among the elements of `s`, or what they all decode to.
pub open spec fn source_decode_seq(s: Seq<Json>) -> Result<Seq<SourceView>, DecodeErrorView>
    decreases s, 0int,
{
    if s.len() == 0 {
        Ok(Seq::empty())
    } else {
        match source_decode_seq(s.drop_last()) {
            Err(e) => Err(e),
            Ok(front) => match source_decode(s.last()) {
                Err(e) => Err(e),
                Ok(x) => Ok(front.push(x)),
            },
        }
    }
}

/// The nested list of an object: empty where the field is absent.
pub open spec fn source_decode_nested(j: Json) -> Result<Seq<SourceView>, DecodeErrorView>
    decreases j, 1int,
{
    match j {
        Json::Object(o) => {
            let i = place(o, "sources"@);
            if 0 <= i < o.len() {
                match o[i].1 {
                    Json::Array(s) => source_decode_seq(s),
                    _ => Err(DecodeErrorView::InvalidType),
                }
            } else {
                Ok(Seq::empty())
            }
        },
        _ => Ok(Seq::empty()),
    }
}

/// What a JSON value decodes to.
pub open spec fn source_decode(j: Json) -> Result<SourceView, DecodeErrorView>
    decreases j, 2int,
{
    match j {
        Json::Object(o) => {
            let name = opt_field::<String>(o, "name"@);
            let path = opt_field::<String>(o, "path"@);
            let source_reference = opt_field::<i32>(o, "sourceReference"@);
            let presentation_hint = opt_field::<SourcePresentationHint>(o, "presentationHint"@);
            let origin = opt_field::<String>(o, "origin"@);
            let sources = source_decode_nested(j);
            let adapter_data = opt_field::<serde_json::Value>(o, "adapterData"@);
            let checksums = default_field::<Vec<Checksum>>(o, "checksums"@, Seq::empty());
            if name is Err {
                Err(name->Err_0)
            } else if path is Err {
                Err(path->Err_0)
            } else if source_reference is Err {
                Err(source_reference->Err_0)
            } else if presentation_hint is Err {
                Err(presentation_hint->Err_0)
            } else if origin is Err {
                Err(origin->Err_0)
            } else if sources is Err {
                Err(sources->Err_0)
            } else if adapter_data is Err {
                Err(adapter_data->Err_0)
            } else if checksums is Err {
                Err(checksums->Err_0)
            } else {
                Ok(SourceView {
                    name: name->Ok_0,
                    path: path->Ok_0,
                    source_reference: source_reference->Ok_0,
                    presentation_hint: presentation_hint->Ok_0,
                    origin: origin->Ok_0,
                    sources: sources->Ok_0,
                    adapter_data: adapter_data->Ok_0,
                    checksums: checksums->Ok_0,
                })
            }
        },
        _ => Err(DecodeErrorView::InvalidType),
    }
}

impl Clone for Source {
    fn clone(&self) -> (r: Source)
        decreases self,
    {
        let mut sources: Vec<Source> = Vec::new();
        let mut i: usize = 0;
        while i < self.sources.len()
            invariant
                i <= self.sources.len(),
            decreases self.sources.len() - i,
        {
            sources.push(self.sources[i].clone());
            i += 1;
        }
        Source {
            name: self.name.clone(),
            path: self.path.clone(),
            source_reference: self.source_reference.clone(),
            presentation_hint: self.presentation_hint.clone(),
            origin: self.origin.clone(),
            sources,
            adapter_data: match &self.adapter_data {
                Some(v) => Some(v.clone()),
                None => None,
            },
            checksums: self.checksums.clone(),
        }
    }
}

fn source_to_value(x: &Source) -> (r: serde_json::Value)
    ensures
        json_model(r) == source_encode(x@),
    decreases x,
{
    let mut o = object_new();
    put_opt::<String>(&mut o, "name", &x.name);
    put_opt::<String>(&mut o, "path", &x.path);
    put_opt::<i32>(&mut o, "sourceReference", &x.source_reference);
    put_opt::<SourcePresentationHint>(&mut o, "presentationHint", &x.presentation_hint);
    put_opt::<String>(&mut o, "origin", &x.origin);

    let ghost before = object_model(o);
    if x.sources.len() != 0 {
        let mut items: Vec<serde_json::Value> = Vec::new();
        let mut i: usize = 0;
        while i < x.sources.len()
            invariant
                i <= x.sources.len(),
                items@.len() == i,
                forall|k: int|
                    0 <= k < i ==> json_model(#[trigger] items@[k]) == source_encode(x.sources@[k]@),
            decreases x.sources.len() - i,
        {
            let item = source_to_value(&x.sources[i]);
            items.push(item);
            i += 1;
        }
        assert(array_model(items@) =~= source_encode_seq(x@.sources));
        object_insert(&mut o, "sources".to_owned(), value_array(items));
    }
    assert(object_model(o) == set_field(
        before,
        "sources"@,
        if x@.sources.len() == 0 {
            None
        } else {
            Some(Json::Array(source_encode_seq(x@.sources)))
        },
    )) by {
        reveal(set_field);
    }
    put_opt::<serde_json::Value>(&mut o, "adapterData", &x.adapter_data);
    put_nonempty::<Checksum>(&mut o, "checksums", &x.checksums);

    value_object(o)
}

fn source_nested_from_object(o: &serde_json::Map<String, serde_json::Value>) -> (r: Result<
    Vec<Source>,
    DecodeError,
>)
    ensures
        match r {
            Ok(xs) => source_decode_nested(Json::Object(object_model(*o))) matches Ok(ms) && ms.len()
                == xs@.len() && forall|i: int| 0 <= i < ms.len() ==> #[trigger] ms[i] == xs@[i]@,
            Err(e) => source_decode_nested(Json::Object(object_model(*o))) matches Err(f) && f
                == e@,
        },
    decreases Json::Object(object_model(*o)), 0int,
{
    proof {
        reveal(field);
        lemma_place(object_model(*o), "sources"@);
    }
    match object_get(o, "sources") {
        None => Ok(Vec::new()),
        Some(x) => match value_as_array(x) {
            None => Err(DecodeError::InvalidType),
            Some(a) => {
                let ghost s = array_model(a@);
                let mut out: Vec<Source> = Vec::new();
                let mut i: usize = 0;
                assert(s.take(0) =~= Seq::empty());
                while i < a.len()
                    invariant
                        i <= a.len(),
                        s == array_model(a@),
                        0 <= place(object_model(*o), "sources"@) < object_model(*o).len(),
                        object_model(*o)[place(object_model(*o), "sources"@)].1 == Json::Array(s),
                        out@.len() == i,
                        source_decode_seq(s.take(i as int)) matches Ok(front) && front.len() == i
                            && forall|k: int| 0 <= k < i ==> #[trigger] front[k] == out@[k]@,
                    decreases a.len() - i,
                {
                    proof {
                        assert(s.take(i + 1).drop_last() =~= s.take(i as int));
                        assert(s.take(i + 1).last() == json_model(a@[i as int]));
                        assert(s[i as int] == json_model(a@[i as int]));
                    }
                    match source_from_value(&a[i]) {
                        Err(e) => {
                            proof {
                                assert(source_decode_seq(s.take(i + 1)) matches Err(f) && f == e@);
                                lemma_source_decode_seq_prefix_err(s, i + 1);
                            }
                            return Err(e);
                        },
                        Ok(y) => {
                            out.push(y);
                        },
                    }
                    i += 1;
                }
                assert(s.take(i as int) =~= s);
                Ok(out)
            },
        },
    }
}

fn source_from_value(v: &serde_json::Value) -> (r: Result<Source, DecodeError>)
    ensures
        match r {
            Ok(x) => source_decode(json_model(*v)) matches Ok(m) && m == x@,
            Err(e) => source_decode(json_model(*v)) matches Err(f) && f == e@,
        },
    decreases json_model(*v), 1int,
{
    let o = match value_as_object(v) {
        Some(o) => o,
        None => {
            return Err(DecodeError::InvalidType);
        },
    };
    let name = get_opt::<String>(o, "name")?;
    let path = get_opt::<String>(o, "path")?;
    let source_reference = get_opt::<i32>(o, "sourceReference")?;
    let presentation_hint = get_opt::<SourcePresentationHint>(o, "presentationHint")?;
    let origin = get_opt::<String>(o, "origin")?;

    let sources = source_nested_from_object(o)?;
    let adapter_data = get_opt::<serde_json::Value>(o, "adapterData")?;
    let checksums = get_or_empty::<Checksum>(o, "checksums")?;

    let x = Source { name, path, source_reference, presentation_hint, origin, sources, adapter_data, checksums };
    assert(x@.sources =~= source_decode_nested(json_model(*v))->Ok_0);
    Ok(x)
}

/// Where a prefix of `s` fails to decode, `s` fails in the same way.
pub proof fn lemma_source_decode_seq_prefix_err(s: Seq<Json>, n: int)
    requires
        0 <= n <= s.len(),
        source_decode_seq(s.take(n)) is Err,
    ensures
        source_decode_seq(s) == source_decode_seq(s.take(n)),
    decreases s.len(),
{
    if n < s.len() {
        assert(s.drop_last().take(n) =~= s.take(n));
        lemma_source_decode_seq_prefix_err(s.drop_last(), n);
    } else {
        assert(s.take(n) =~= s);
    }
}

/// Decoding what was encoded gives a list of nested values back.
pub proof fn lemma_source_seq_round_trip(s: Seq<SourceView>)
    requires
        forall|i: int| 0 <= i < s.len() ==> source_wire_ok(#[trigger] s[i]),
    ensures
        source_decode_seq(source_encode_seq(s)) matches Ok(back) && back == s,
    decreases s, 0int,
{
    let e = source_encode_seq(s);
    if s.len() > 0 {
        assert(e.drop_last() =~= source_encode_seq(s.drop_last()));
        lemma_source_seq_round_trip(s.drop_last());
        lemma_source_round_trip(s.last());
        assert(s.drop_last().push(s.last()) =~= s);
    } else {
        assert(s =~= Seq::empty());
    }
}

/// Decoding what was encoded gives the value back, nested values included.
pub proof fn lemma_source_round_trip(m: SourceView)
    requires
        source_wire_ok(m),
    ensures
        source_decode(source_encode(m)) matches Ok(back) && back == m,
    decreases m, 1int,
{
    broadcast use group_field_rules;

    reveal(default_field);
    reveal(opt_field);

    reveal_strlit("name");
    reveal_strlit("path");
    reveal_strlit("sourceReference");
    reveal_strlit("presentationHint");
    reveal_strlit("origin");
    reveal_strlit("sources");
    reveal_strlit("adapterData");
    reveal_strlit("checksums");
    assert("name"@.len() == 4);
    assert("path"@.len() == 4);
    assert("sourceReference"@.len() == 15);
    assert("presentationHint"@.len() == 16);
    assert("origin"@.len() == 6);
    assert("sources"@.len() == 7);
    assert("adapterData"@.len() == 11);
    assert("checksums"@.len() == 9);
    assert("name"@[0] != "path"@[0]);

    Option::<String>::lemma_round_trip(m.name);
    Option::<String>::lemma_round_trip(m.path);
    Option::<i32>::lemma_round_trip(m.source_reference);
    Option::<SourcePresentationHint>::lemma_round_trip(m.presentation_hint);
    Option::<String>::lemma_round_trip(m.origin);
    Option::<serde_json::Value>::lemma_round_trip(m.adapter_data);
    Vec::<Checksum>::lemma_round_trip(m.checksums);

    lemma_source_seq_round_trip(m.sources);
    let o = source_fields(m);
    assert(field(o, "sources"@) == lookup(o, "sources"@)) by {
        reveal(field);
    }
    lemma_place(o, "sources"@);
    assert(source_decode_nested(Json::Object(o)) matches Ok(back) && back == m.sources) by {
        if m.sources.len() == 0 {
            assert(m.sources =~= Seq::empty());
        }
    }
}

impl Wire for Source {
    type Model = SourceView;

    open spec fn model(&self) -> SourceView {
        self@
    }

    open spec fn wire_ok(m: SourceView) -> bool {
        source_wire_ok(m)
    }

    open spec fn encode_json(m: SourceView) -> Json {
        source_encode(m)
    }

    open spec fn decode_json(j: Json) -> Result<SourceView, DecodeErrorView> {
        source_decode(j)
    }

    fn to_value(&self) -> (r: serde_json::Value) {
        source_to_value(self)
    }

    fn from_value(v: &serde_json::Value) -> (r: Result<Source, DecodeError>) {
        source_from_value(v)
    }

    proof fn lemma_round_trip(m: SourceView) {
        lemma_source_round_trip(m);
    }
}

impl Record for Source {
    open spec fn field_names() -> Set<Seq<char>> {
        set!["name"@, "path"@, "sourceReference"@, "presentationHint"@, "origin"@, "sources"@, "adapterData"@, "checksums"@]
    }

    proof fn lemma_unknown_field(o: JsonObject, key: Seq<char>, x: Json) {
        broadcast use group_field_rules;

    reveal(default_field);
    reveal(opt_field);

        assert(source_decode_nested(Json::Object(store(o, key, x))) == source_decode_nested(
            Json::Object(o),
        )) by {
            lemma_place(o, "sources"@);
            lemma_place(store(o, key, x), "sources"@);
            lemma_lookup_store_other(o, key, x, "sources"@);
        }
    }
}

impl Defaults for Source {
    open spec fn elidable_names() -> Set<Seq<char>> {
        set!["name"@, "path"@, "sourceReference"@, "presentationHint"@, "origin"@, "sources"@, "adapterData"@, "checksums"@]
    }

    open spec fn at_defaults(m: SourceView) -> bool {
        &&& m.name is None
        &&& m.path is None
        &&& m.source_reference is None
        &&& m.presentation_hint is None
        &&& m.origin is None
        &&& m.sources == Seq::<SourceView>::empty()
        &&& m.adapter_data is None
        &&& m.checksums == Seq::<ChecksumView>::empty()
    }

    proof fn lemma_defaults_elided(m: SourceView, key: Seq<char>) {
        broadcast use group_field_rules;

        reveal_strlit("name");
        reveal_strlit("path");
        reveal_strlit("sourceReference");
        reveal_strlit("presentationHint");
        reveal_strlit("origin");
        reveal_strlit("sources");
        reveal_strlit("adapterData");
        reveal_strlit("checksums");
        assert("name"@.len() == 4);
        assert("path"@.len() == 4);
        assert("sourceReference"@.len() == 15);
        assert("presentationHint"@.len() == 16);
        assert("origin"@.len() == 6);
        assert("sources"@.len() == 7);
        assert("adapterData"@.len() == 11);
        assert("checksums"@.len() == 9);
        assert("name"@[0] != "path"@[0]);
    }
}

/// An optional hint for how to present the source in the UI.
///
/// A value of 'deemphasize' can be used to indicate that the source is not available or that it is skipped on stepping.
#[derive(Clone, Copy, Debug, PartialEq, Eq, Structural)]
pub enum SourcePresentationHint {
    Normal,
    Emphasize,
    Deemphasize,
}

impl SourcePresentationHint {
    /// The name under which the value travels.
    pub open spec fn name(self) -> Seq<char> {
        match self {
            SourcePresentationHint::Normal => "normal"@,
            SourcePresentationHint::Emphasize => "emphasize"@,
            SourcePresentationHint::Deemphasize => "deemphasize"@,
        }
    }

    /// The value that travels under `s`, if there is one.
    pub open spec fn named(s: Seq<char>) -> Option<SourcePresentationHint> {
        if s == "normal"@ {
            Some(SourcePresentationHint::Normal)
        } else if s == "emphasize"@ {
            Some(SourcePresentationHint::Emphasize)
        } else if s == "deemphasize"@ {
            Some(SourcePresentationHint::Deemphasize)
        } else {
            None
        }
    }

    pub fn as_str(&self) -> (r: &'static str)
        ensures
            r@ == self.name(),
    {
        match self {
            SourcePresentationHint::Normal => "normal",
            SourcePresentationHint::Emphasize => "emphasize",
            SourcePresentationHint::Deemphasize => "deemphasize",
        }
    }

    pub fn from_name(s: &str) -> (r: Option<SourcePresentationHint>)
        ensures
            r == SourcePresentationHint::named(s@),
    {
        if str_eq(s, "normal") {
            Some(SourcePresentationHint::Normal)
        } else if str_eq(s, "emphasize") {
            Some(SourcePresentationHint::Emphasize)
        } else if str_eq(s, "deemphasize") {
            Some(SourcePresentationHint::Deemphasize)
        } else {
            None
        }
    }

    /// Every value is found again under its name.
    pub proof fn lemma_named(self)
        ensures
            SourcePresentationHint::named(self.name()) == Some(self),
    {
        reveal_strlit("normal");
        reveal_strlit("emphasize");
        reveal_strlit("deemphasize");
        assert("normal"@.len() == 6);
        assert("emphasize"@.len() == 9);
        assert("deemphasize"@.len() == 11);
    }
}

impl Wire for SourcePresentationHint {
    type Model = SourcePresentationHint;

    open spec fn model(&self) -> SourcePresentationHint {
        *self
    }

    open spec fn wire_ok(m: SourcePresentationHint) -> bool {
        true
    }

    open spec fn encode_json(m: SourcePresentationHint) -> Json {
        Json::Str(m.name())
    }

    open spec fn decode_json(j: Json) -> Result<SourcePresentationHint, DecodeErrorView> {
        match j {
            Json::Str(s) => match SourcePresentationHint::named(s) {
                Some(x) => Ok(x),
                None => Err(DecodeErrorView::InvalidType),
            },
            _ => Err(DecodeErrorView::InvalidType),
        }
    }

    fn to_value(&self) -> (r: serde_json::Value) {
        value_string(self.as_str().to_owned())
    }

    fn from_value(v: &serde_json::Value) -> (r: Result<SourcePresentationHint, DecodeError>) {
        match value_as_str(v) {
            Some(s) => match SourcePresentationHint::from_name(s) {
                Some(x) => Ok(x),
                None => Err(DecodeError::InvalidType),
            },
            None => Err(DecodeError::InvalidType),
        }
    }

    proof fn lemma_round_trip(m: SourcePresentationHint) {
        m.lemma_named();
    }
}

/// Properties of a breakpoint or logpoint passed to the setBreakpoints request.
#[derive(Clone, Debug, PartialEq, Eq)]
pub struct SourceBreakpoint {
    /// The source line of the breakpoint or logpoint.
    pub line: i32,

    /// An optional source column of the breakpoint.
    pub column: Option<i32>,

    /// An optional expression for conditional breakpoints.
    ///
    /// It is only honored by a debug adapter if the capability 'supportsConditionalBreakpoints' is true.
    pub condition: Option<String>,

    /// An optional expression that controls how many hits of the breakpoint are ignored.
    ///
    /// The backend is expected to interpret the expression as needed.
    ///
    /// The attribute is only honored by a debug adapter if the capability 'supportsHitConditionalBreakpoints' is true.
    pub hit_condition: Option<String>,

    /// If this attribute exists and is non-empty, the backend must not 'break' (stop)
    ///
    /// but log the message instead. Expressions within {} are interpolated.
    ///
    /// The attribute is only honored by a debug adapter if the capability 'supportsLogPoints' is true.
    pub log_message: Option<String>,
}

/// The mathematical content of a [`SourceBreakpoint`].
pub struct SourceBreakpointView {
    pub line: i32,
    pub column: Option<i32>,
    pub condition: Option<Seq<char>>,
    pub hit_condition: Option<Seq<char>>,
    pub log_message: Option<Seq<char>>,
}

impl View for SourceBreakpoint {
    type V = SourceBreakpointView;

    open spec fn view(&self) -> SourceBreakpointView {
        SourceBreakpointView {
            line: self.line,
            column: self.column.model(),
            condition: self.condition.model(),
            hit_condition: self.hit_condition.model(),
            log_message: self.log_message.model(),
        }
    }
}

impl SourceBreakpoint {
    /// The fields that are written for a value.
    pub open spec fn fields(m: SourceBreakpointView) -> JsonObject {
        let o = empty_object();
        let o = with_field::<i32>(o, "line"@, m.line);
        let o = with_opt_field::<i32>(o, "column"@, m.column);
        let o = with_opt_field::<String>(o, "condition"@, m.condition);
        let o = with_opt_field::<String>(o, "hitCondition"@, m.hit_condition);
        let o = with_opt_field::<String>(o, "logMessage"@, m.log_message);
        o
    }

    /// What the fields of an object decode to: the first failure in the order of
    /// the fields, or the value.
    pub open spec fn decode_fields(o: JsonObject) -> Result<SourceBreakpointView, DecodeErrorView> {
        let line = req_field::<i32>(o, "line"@);
        let column = opt_field::<i32>(o, "column"@);
        let condition = opt_field::<String>(o, "condition"@);
        let hit_condition = opt_field::<String>(o, "hitCondition"@);
        let log_message = opt_field::<String>(o, "logMessage"@);
        if line is Err {
            Err(line->Err_0)
        } else if column is Err {
            Err(column->Err_0)
        } else if condition is Err {
            Err(condition->Err_0)
        } else if hit_condition is Err {
            Err(hit_condition->Err_0)
        } else if log_message is Err {
            Err(log_message->Err_0)
        } else {
            Ok(SourceBreakpointView {
                line: line->Ok_0,
                column: column->Ok_0,
                condition: condition->Ok_0,
                hit_condition: hit_condition->Ok_0,
                log_message: log_message->Ok_0,
            })
        }
    }

    /// Writes the fields of the value into a fresh object.
    pub fn to_object(&self) -> (o: serde_json::Map<String, serde_json::Value>)
        ensures
            object_model(o) == SourceBreakpoint::fields(self@),
    {
        let mut o = object_new();
        put::<i32>(&mut o, "line", &self.line);
        put_opt::<i32>(&mut o, "column", &self.column);
        put_opt::<String>(&mut o, "condition", &self.condition);
        put_opt::<String>(&mut o, "hitCondition", &self.hit_condition);
        put_opt::<String>(&mut o, "logMessage", &self.log_message);
        o
    }

    /// Reads a value from the fields of an object.
    pub fn from_object(o: &serde_json::Map<String, serde_json::Value>) -> (r: Result<
        SourceBreakpoint,
        DecodeError,
    >)
        ensures
            match r {
                Ok(x) => SourceBreakpoint::decode_fields(object_model(*o)) matches Ok(m) && m == x.model(),
                Err(e) => SourceBreakpoint::decode_fields(object_model(*o)) matches Err(f) && f == e@,
            },
    {
        let line = get_req::<i32>(o, "line")?;
        let column = get_opt::<i32>(o, "column")?;
        let condition = get_opt::<String>(o, "condition")?;
        let hit_condition = get_opt::<String>(o, "hitCondition")?;
        let log_message = get_opt::<String>(o, "logMessage")?;
        Ok(SourceBreakpoint { line, column, condition, hit_condition, log_message })
    }
}

impl Wire for SourceBreakpoint {
    type Model = SourceBreakpointView;

    open spec fn model(&self) -> SourceBreakpointView {
        self@
    }

    open spec fn wire_ok(m: SourceBreakpointView) -> bool {
        true
    }

    open spec fn encode_json(m: SourceBreakpointView) -> Json {
        Json::Object(SourceBreakpoint::fields(m))
    }

    open spec fn decode_json(j: Json) -> Result<SourceBreakpointView, DecodeErrorView> {
        match j {
            Json::Object(o) => SourceBreakpoint::decode_fields(o),
            _ => Err(DecodeErrorView::InvalidType),
        }
    }

    fn to_value(&self) -> (r: serde_json::Value) {
        value_object(self.to_object())
    }

    fn from_value(v: &serde_json::Value) -> (r: Result<SourceBreakpoint, DecodeError>) {
        match value_as_object(v) {
            Some(o) => SourceBreakpoint::from_object(o),
            None => Err(DecodeError::InvalidType),
        }
    }

    proof fn lemma_round_trip(m: SourceBreakpointView) {
        broadcast use group_field_rules;

        reveal(opt_field);
        reveal(req_field);
        reveal_strlit("line");
        reveal_strlit("column");
        reveal_strlit("condition");
        reveal_strlit("hitCondition");
        reveal_strlit("logMessage");
        assert("line"@.len() == 4);
        assert("column"@.len() == 6);
        assert("condition"@.len() == 9);
        assert("hitCondition"@.len() == 12);
        assert("logMessage"@.len() == 10);
        let o = SourceBreakpoint::fields(m);
        i32::lemma_round_trip(m.line);
        assert(req_field::<i32>(o, "line"@) matches Ok(v) && v == m.line);
        Option::<i32>::lemma_round_trip(m.column);
        assert(opt_field::<i32>(o, "column"@) matches Ok(v) && v == m.column);
        Option::<String>::lemma_round_trip(m.condition);
        assert(opt_field::<String>(o, "condition"@) matches Ok(v) && v == m.condition);
        Option::<String>::lemma_round_trip(m.hit_condition);
        assert(opt_field::<String>(o, "hitCondition"@) matches Ok(v) && v == m.hit_condition);
        Option::<String>::lemma_round_trip(m.log_message);
        assert(opt_field::<String>(o, "logMessage"@) matches Ok(v) && v == m.log_message);
    }
}

impl Record for SourceBreakpoint {
    open spec fn field_names() -> Set<Seq<char>> {
        set!["line"@, "column"@, "condition"@, "hitCondition"@, "logMessage"@]
    }

    proof fn lemma_unknown_field(o: JsonObject, key: Seq<char>, x: Json) {
        broadcast use group_field_rules;

        reveal(opt_field);
        reveal(req_field);
    }
}

impl Defaults for SourceBreakpoint {
    open spec fn elidable_names() -> Set<Seq<char>> {
        set!["column"@, "condition"@, "hitCondition"@, "logMessage"@]
    }

    open spec fn at_defaults(m: SourceBreakpointView) -> bool {
        &&& m.column is None
        &&& m.condition is None
        &&& m.hit_condition is None
        &&& m.log_message is None
    }

    proof fn lemma_defaults_elided(m: SourceBreakpointView, key: Seq<char>) {
        broadcast use group_field_rules;

        reveal_strlit("line");
        reveal_strlit("column");
        reveal_strlit("condition");
        reveal_strlit("hitCondition");
        reveal_strlit("logMessage");
        assert("line"@.len() == 4);
        assert("column"@.len() == 6);
        assert("condition"@.len() == 9);
        assert("hitCondition"@.len() == 12);
        assert("logMessage"@.len() == 10);
    }
}

/// A Stackframe contains the source location.
#[derive(Clone, Debug, PartialEq, Eq)]
pub struct StackFrame {
    /// An identifier for the stack frame. It must be unique across all threads.
    ///
    /// This id can be used to retrieve the scopes of the frame with the 'scopesRequest' or to restart the execution of a stackframe.
    pub id: i32,

    /// The name of the stack frame, typically a method name.
    pub name: String,

    /// The optional source of the frame.
    pub source: Option<Source>,

    /// The line within the file of the frame. If source is null or doesn't exist, line is 0 and must be ignored.
    pub line: i32,

    /// The column within the line. If source is null or doesn't exist, column is 0 and must be ignored.
    pub column: i32,

    /// An optional end line of the range covered by the stack frame.
    pub end_line: Option<i32>,

    /// An optional end column of the range covered by the stack frame.
    pub end_column: Option<i32>,

    /// Indicates whether this frame can be restarted with the 'restart' request. Clients should only use this if the debug adapter supports the 'restart' request (capability 'supportsRestartRequest' is true).
    pub can_restart: Option<bool>,

    /// Optional memory reference for the current instruction pointer in this frame.
    pub instruction_pointer_reference: Option<String>,

    /// The module associated with this frame, if any.
    pub module_id: Option<ModuleId>,

    /// An optional hint for how to present this frame in the UI.
    ///
    /// A value of 'label' can be used to indicate that the frame is an artificial frame that is used as a visual label or separator. A value of 'subtle' can be used to change the appearance of a frame in a 'subtle' way.
    pub presentation_hint: Option<StackFramePresentationHint>,
}

/// The mathematical content of a [`StackFrame`].
pub struct StackFrameView {
    pub id: i32,
    pub name: Seq<char>,
    pub source: Option<SourceView>,
    pub line: i32,
    pub column: i32,
    pub end_line: Option<i32>,
    pub end_column: Option<i32>,
    pub can_restart: Option<bool>,
    pub instruction_pointer_reference: Option<Seq<char>>,
    pub module_id: Option<ModuleIdView>,
    pub presentation_hint: Option<StackFramePresentationHint>,
}

impl View for StackFrame {
    type V = StackFrameView;

    open spec fn view(&self) -> StackFrameView {
        StackFrameView {
            id: self.id,
            name: self.name.model(),
            source: self.source.model(),
            line: self.line,
            column: self.column,
            end_line: self.end_line.model(),
            end_column: self.end_column.model(),
            can_restart: self.can_restart.model(),
            instruction_pointer_reference: self.instruction_pointer_reference.model(),
            module_id: self.module_id.model(),
            presentation_hint: self.presentation_hint.model(),
        }
    }
}

impl StackFrame {
    /// The fields that are written for a value.
    pub open spec fn fields(m: StackFrameView) -> JsonObject {
        let o = empty_object();
        let o = with_field::<i32>(o, "id"@, m.id);
        let o = with_field::<String>(o, "name"@, m.name);
        let o = with_opt_field::<Source>(o, "source"@, m.source);
        let o = with_field::<i32>(o, "line"@, m.line);
        let o = with_field::<i32>(o, "column"@, m.column);
        let o = with_opt_field::<i32>(o, "endLine"@, m.end_line);
        let o = with_opt_field::<i32>(o, "endColumn"@, m.end_column);
        let o = with_opt_field::<bool>(o, "canRestart"@, m.can_restart);
        let o = with_opt_field::<String>(o, "instructionPointerReference"@, m.instruction_pointer_reference);
        let o = with_opt_field::<ModuleId>(o, "moduleId"@, m.module_id);
        let o = with_opt_field::<StackFramePresentationHint>(o, "presentationHint"@, m.presentation_hint);
        o
    }

    /// What the fields of an object decode to: the first failure in the order of
    /// the fields, or the value.
    pub open spec fn decode_fields(o: JsonObject) -> Result<StackFrameView, DecodeErrorView> {
        let id = req_field::<i32>(o, "id"@);
        let name = req_field::<String>(o, "name"@);
        let source = opt_field::<Source>(o, "source"@);
        let line = req_field::<i32>(o, "line"@);
        let column = req_field::<i32>(o, "column"@);
        let end_line = opt_field::<i32>(o, "endLine"@);
        let end_column = opt_field::<i32>(o, "endColumn"@);
        let can_restart = opt_field::<bool>(o, "canRestart"@);
        let instruction_pointer_reference = opt_field::<String>(o, "instructionPointerReference"@);
        let module_id = opt_field::<ModuleId>(o, "moduleId"@);
        let presentation_hint = opt_field::<StackFramePresentationHint>(o, "presentationHint"@);
        if id is Err {
            Err(id->Err_0)
        } else if name is Err {
            Err(name->Err_0)
        } else if source is Err {
            Err(source->Err_0)
        } else if line is Err {
            Err(line->Err_0)
        } else if column is Err {
            Err(column->Err_0)
        } else if end_line is Err {
            Err(end_line->Err_0)
        } else if end_column is Err {
            Err(end_column->Err_0)
        } else if can_restart is Err {
            Err(can_restart->Err_0)
        } else if instruction_pointer_reference is Err {
            Err(instruction_pointer_reference->Err_0)
        } else if module_id is Err {
            Err(module_id->Err_0)
        } else if presentation_hint is Err {
            Err(presentation_hint->Err_0)
        } else {
            Ok(StackFrameView {
                id: id->Ok_0,
                name: name->Ok_0,
                source: source->Ok_0,
                line: line->Ok_0,
                column: column->Ok_0,
                end_line: end_line->Ok_0,
                end_column: end_column->Ok_0,
                can_restart: can_restart->Ok_0,
                instruction_pointer_reference: instruction_pointer_reference->Ok_0,
                module_id: module_id->Ok_0,
                presentation_hint: presentation_hint->Ok_0,
            })
        }
    }

    /// Writes the fields of the value into a fresh object.
    pub fn to_object(&self) -> (o: serde_json::Map<String, serde_json::Value>)
        ensures
            object_model(o) == StackFrame::fields(self@),
    {
        let mut o = object_new();
        put::<i32>(&mut o, "id", &self.id);
        put::<String>(&mut o, "name", &self.name);
        put_opt::<Source>(&mut o, "source", &self.source);
        put::<i32>(&mut o, "line", &self.line);
        put::<i32>(&mut o, "column", &self.column);
        put_opt::<i32>(&mut o, "endLine", &self.end_line);
        put_opt::<i32>(&mut o, "endColumn", &self.end_column);
        put_opt::<bool>(&mut o, "canRestart", &self.can_restart);
        put_opt::<String>(&mut o, "instructionPointerReference", &self.instruction_pointer_reference);
        put_opt::<ModuleId>(&mut o, "moduleId", &self.module_id);
        put_opt::<StackFramePresentationHint>(&mut o, "presentationHint", &self.presentation_hint);
        o
    }

    /// Reads a value from the fields of an object.
    pub fn from_object(o: &serde_json::Map<String, serde_json::Value>) -> (r: Result<
        StackFrame,
        DecodeError,
    >)
        ensures
            match r {
                Ok(x) => StackFrame::decode_fields(object_model(*o)) matches Ok(m) && m == x.model(),
                Err(e) => StackFrame::decode_fields(object_model(*o)) matches Err(f) && f == e@,
            },
    {
        let id = get_req::<i32>(o, "id")?;
        let name = get_req::<String>(o, "name")?;
        let source = get_opt::<Source>(o, "source")?;
        let line = get_req::<i32>(o, "line")?;
        let column = get_req::<i32>(o, "column")?;
        let end_line = get_opt::<i32>(o, "endLine")?;
        let end_column = get_opt::<i32>(o, "endColumn")?;
        let can_restart = get_opt::<bool>(o, "canRestart")?;
        let instruction_pointer_reference = get_opt::<String>(o, "instructionPointerReference")?;
        let module_id = get_opt::<ModuleId>(o, "moduleId")?;
        let presentation_hint = get_opt::<StackFramePresentationHint>(o, "presentationHint")?;
        Ok(StackFrame { id, name, source, line, column, end_line, end_column, can_restart, instruction_pointer_reference, module_id, presentation_hint })
    }
}

impl Wire for StackFrame {
    type Model = StackFrameView;

    open spec fn model(&self) -> StackFrameView {
        self@
    }

    open spec fn wire_ok(m: StackFrameView) -> bool {
        &&& Option::<Source>::wire_ok(m.source)
    }

    open spec fn encode_json(m: StackFrameView) -> Json {
        Json::Object(StackFrame::fields(m))
    }

    open spec fn decode_json(j: Json) -> Result<StackFrameView, DecodeErrorView> {
        match j {
            Json::Object(o) => StackFrame::decode_fields(o),
            _ => Err(DecodeErrorView::InvalidType),
        }
    }

    fn to_value(&self) -> (r: serde_json::Value) {
        value_object(self.to_object())
    }

    fn from_value(v: &serde_json::Value) -> (r: Result<StackFrame, DecodeError>) {
        match value_as_object(v) {
            Some(o) => StackFrame::from_object(o),
            None => Err(DecodeError::InvalidType),
        }
    }

    proof fn lemma_round_trip(m: StackFrameView) {
        broadcast use group_field_rules;

        reveal(opt_field);
        reveal(req_field);
        reveal_strlit("id");
        reveal_strlit("name");
        reveal_strlit("source");
        reveal_strlit("line");
        reveal_strlit("column");
        reveal_strlit("endLine");
        reveal_strlit("endColumn");
        reveal_strlit("canRestart");
        reveal_strlit("instructionPointerReference");
        reveal_strlit("moduleId");
        reveal_strlit("presentationHint");
        assert("id"@.len() == 2);
        assert("name"@.len() == 4);
        assert("source"@.len() == 6);
        assert("line"@.len() == 4);
        assert("column"@.len() == 6);
        assert("endLine"@.len() == 7);
        assert("endColumn"@.len() == 9);
        assert("canRestart"@.len() == 10);
        assert("instructionPointerReference"@.len() == 27);
        assert("moduleId"@.len() == 8);
        assert("presentationHint"@.len() == 16);
        assert("name"@[0] != "line"@[0]);
        assert("source"@[0] != "column"@[0]);
        let o = StackFrame::fields(m);
        i32::lemma_round_trip(m.id);
        assert(req_field::<i32>(o, "id"@) matches Ok(v) && v == m.id);
        String::lemma_round_trip(m.name);
        assert(req_field::<String>(o, "name"@) matches Ok(v) && v == m.name);
        Option::<Source>::lemma_round_trip(m.source);
        assert(opt_field::<Source>(o, "source"@) matches Ok(v) && v == m.source);
        i32::lemma_round_trip(m.line);
        assert(req_field::<i32>(o, "line"@) matches Ok(v) && v == m.line);
        i32::lemma_round_trip(m.column);
        assert(req_field::<i32>(o, "column"@) matches Ok(v) && v == m.column);
        Option::<i32>::lemma_round_trip(m.end_line);
        assert(opt_field::<i32>(o, "endLine"@) matches Ok(v) && v == m.end_line);
        Option::<i32>::lemma_round_trip(m.end_column);
        assert(opt_field::<i32>(o, "endColumn"@) matches Ok(v) && v == m.end_column);
        Option::<bool>::lemma_round_trip(m.can_restart);
        assert(opt_field::<bool>(o, "canRestart"@) matches Ok(v) && v == m.can_restart);
        Option::<String>::lemma_round_trip(m.instruction_pointer_reference);
        assert(opt_field::<String>(o, "instructionPointerReference"@) matches Ok(v) && v == m.instruction_pointer_reference);
        Option::<ModuleId>::lemma_round_trip(m.module_id);
        assert(opt_field::<ModuleId>(o, "moduleId"@) matches Ok(v) && v == m.module_id);
        Option::<StackFramePresentationHint>::lemma_round_trip(m.presentation_hint);
        assert(opt_field::<StackFramePresentationHint>(o, "presentationHint"@) matches Ok(v) && v == m.presentation_hint);
    }
}

impl Record for StackFrame {
    open spec fn field_names() -> Set<Seq<char>> {
        set!["id"@, "name"@, "source"@, "line"@, "column"@, "endLine"@, "endColumn"@, "canRestart"@, "instructionPointerReference"@, "moduleId"@, "presentationHint"@]
    }

    proof fn lemma_unknown_field(o: JsonObject, key: Seq<char>, x: Json) {
        broadcast use group_field_rules;

        reveal(opt_field);
        reveal(req_field);
    }
}

impl Defaults for StackFrame {
    open spec fn elidable_names() -> Set<Seq<char>> {
        set!["source"@, "endLine"@, "endColumn"@, "canRestart"@, "instructionPointerReference"@, "moduleId"@, "presentationHint"@]
    }

    open spec fn at_defaults(m: StackFrameView) -> bool {
        &&& m.source is None
        &&& m.end_line is None
        &&& m.end_column is None
        &&& m.can_restart is None
        &&& m.instruction_pointer_reference is None
        &&& m.module_id is None
        &&& m.presentation_hint is None
    }

    proof fn lemma_defaults_elided(m: StackFrameView, key: Seq<char>) {
        broadcast use group_field_rules;

        reveal_strlit("id");
        reveal_strlit("name");
        reveal_strlit("source");
        reveal_strlit("line");
        reveal_strlit("column");
        reveal_strlit("endLine");
        reveal_strlit("endColumn");
        reveal_strlit("canRestart");
        reveal_strlit("instructionPointerReference");
        reveal_strlit("moduleId");
        reveal_strlit("presentationHint");
        assert("id"@.len() == 2);
        assert("name"@.len() == 4);
        assert("source"@.len() == 6);
        assert("line"@.len() == 4);
        assert("column"@.len() == 6);
        assert("endLine"@.len() == 7);
        assert("endColumn"@.len() == 9);
        assert("canRestart"@.len() == 10);
        assert("instructionPointerReference"@.len() == 27);
        assert("moduleId"@.len() == 8);
        assert("presentationHint"@.len() == 16);
        assert("name"@[0] != "line"@[0]);
        assert("source"@[0] != "column"@[0]);
    }
}

#[derive(Clone, Copy, Debug, PartialEq, Eq, Structural)]
pub enum StackFramePresentationHint {
    Normal,
    Label,
    Subtle,
}

impl StackFramePresentationHint {
    /// The name under which the value travels.
    pub open spec fn name(self) -> Seq<char> {
        match self {
            StackFramePresentationHint::Normal => "normal"@,
            StackFramePresentationHint::Label => "label"@,
            StackFramePresentationHint::Subtle => "subtle"@,
        }
    }

    /// The value that travels under `s`, if there is one.
    pub open spec fn named(s: Seq<char>) -> Option<StackFramePresentationHint> {
        if s == "normal"@ {
            Some(StackFramePresentationHint::Normal)
        } else if s == "label"@ {
            Some(StackFramePresentationHint::Label)
        } else if s == "subtle"@ {
            Some(StackFramePresentationHint::Subtle)
        } else {
            None
        }
    }

    pub fn as_str(&self) -> (r: &'static str)
        ensures
            r@ == self.name(),
    {
        match self {
            StackFramePresentationHint::Normal => "normal",
            StackFramePresentationHint::Label => "label",
            StackFramePresentationHint::Subtle => "subtle",
        }
    }

    pub fn from_name(s: &str) -> (r: Option<StackFramePresentationHint>)
        ensures
            r == StackFramePresentationHint::named(s@),
    {
        if str_eq(s, "normal") {
            Some(StackFramePresentationHint::Normal)
        } else if str_eq(s, "label") {
            Some(StackFramePresentationHint::Label)
        } else if str_eq(s, "subtle") {
            Some(StackFramePresentationHint::Subtle)
        } else {
            None
        }
    }

    /// Every value is found again under its name.
    pub proof fn lemma_named(self)
        ensures
            StackFramePresentationHint::named(self.name()) == Some(self),
    {
        reveal_strlit("normal");
        reveal_strlit("label");
        reveal_strlit("subtle");
        assert("normal"@.len() == 6);
        assert("label"@.len() == 5);
        assert("subtle"@.len() == 6);
        assert("normal"@[0] != "subtle"@[0]);
    }
}

impl Wire for StackFramePresentationHint {
    type Model = StackFramePresentationHint;

    open spec fn model(&self) -> StackFramePresentationHint {
        *self
    }

    open spec fn wire_ok(m: StackFramePresentationHint) -> bool {
        true
    }

    open spec fn encode_json(m: StackFramePresentationHint) -> Json {
        Json::Str(m.name())
    }

    open spec fn decode_json(j: Json) -> Result<StackFramePresentationHint, DecodeErrorView> {
        match j {
            Json::Str(s) => match StackFramePresentationHint::named(s) {
                Some(x) => Ok(x),
                None => Err(DecodeErrorView::InvalidType),
            },
            _ => Err(DecodeErrorView::InvalidType),
        }
    }

    fn to_value(&self) -> (r: serde_json::Value) {
        value_string(self.as_str().to_owned())
    }

    fn from_value(v: &serde_json::Value) -> (r: Result<StackFramePresentationHint, DecodeError>) {
        match value_as_str(v) {
            Some(s) => match StackFramePresentationHint::from_name(s) {
                Some(x) => Ok(x),
                None => Err(DecodeError::InvalidType),
            },
            None => Err(DecodeError::InvalidType),
        }
    }

    proof fn lemma_round_trip(m: StackFramePresentationHint) {
        m.lemma_named();
    }
}

/// Provides formatting information for a stack frame.
#[derive(Clone, Debug, PartialEq, Eq)]
pub struct StackFrameFormat {
    /// Displays parameters for the stack frame.
    pub parameters: Option<bool>,

    /// Displays the types of parameters for the stack frame.
    pub parameter_types: Option<bool>,

    /// Displays the names of parameters for the stack frame.
    pub parameter_names: Option<bool>,

    /// Displays the values of parameters for the stack frame.
    pub parameter_values: Option<bool>,

    /// Displays the line number of the stack frame.
    pub line: Option<bool>,

    /// Displays the module of the stack frame.
    pub module: Option<bool>,

    /// Includes all stack frames, including those the debug adapter might otherwise hide.
    pub include_all: Option<bool>,
}

impl StackFrameFormat {
    /// The fields that are written for a value.
    pub open spec fn fields(m: StackFrameFormat) -> JsonObject {
        let o = empty_object();
        let o = with_opt_field::<bool>(o, "parameters"@, m.parameters);
        let o = with_opt_field::<bool>(o, "parameterTypes"@, m.parameter_types);
        let o = with_opt_field::<bool>(o, "parameterNames"@, m.parameter_names);
        let o = with_opt_field::<bool>(o, "parameterValues"@, m.parameter_values);
        let o = with_opt_field::<bool>(o, "line"@, m.line);
        let o = with_opt_field::<bool>(o, "module"@, m.module);
        let o = with_opt_field::<bool>(o, "includeAll"@, m.include_all);
        o
    }

    /// What the fields of an object decode to: the first failure in the order of
    /// the fields, or the value.
    pub open spec fn decode_fields(o: JsonObject) -> Result<StackFrameFormat, DecodeErrorView> {
        let parameters = opt_field::<bool>(o, "parameters"@);
        let parameter_types = opt_field::<bool>(o, "parameterTypes"@);
        let parameter_names = opt_field::<bool>(o, "parameterNames"@);
        let parameter_values = opt_field::<bool>(o, "parameterValues"@);
        let line = opt_field::<bool>(o, "line"@);
        let module = opt_field::<bool>(o, "module"@);
        let include_all = opt_field::<bool>(o, "includeAll"@);
        if parameters is Err {
            Err(parameters->Err_0)
        } else if parameter_types is Err {
            Err(parameter_types->Err_0)
        } else if parameter_names is Err {
            Err(parameter_names->Err_0)
        } else if parameter_values is Err {
            Err(parameter_values->Err_0)
        } else if line is Err {
            Err(line->Err_0)
        } else if module is Err {
            Err(module->Err_0)
        } else if include_all is Err {
            Err(include_all->Err_0)
        } else {
            Ok(StackFrameFormat {
                parameters: parameters->Ok_0,
                parameter_types: parameter_types->Ok_0,
                parameter_names: parameter_names->Ok_0,
                parameter_values: parameter_values->Ok_0,
                line: line->Ok_0,
                module: module->Ok_0,
                include_all: include_all->Ok_0,
            })
        }
    }

    /// Writes the fields of the value into a fresh object.
    pub fn to_object(&self) -> (o: serde_json::Map<String, serde_json::Value>)
        ensures
            object_model(o) == StackFrameFormat::fields(*self),
    {
        let mut o = object_new();
        put_opt::<bool>(&mut o, "parameters", &self.parameters);
        put_opt::<bool>(&mut o, "parameterTypes", &self.parameter_types);
        put_opt::<bool>(&mut o, "parameterNames", &self.parameter_names);
        put_opt::<bool>(&mut o, "parameterValues", &self.parameter_values);
        put_opt::<bool>(&mut o, "line", &self.line);
        put_opt::<bool>(&mut o, "module", &self.module);
        put_opt::<bool>(&mut o, "includeAll", &self.include_all);
        o
    }

    /// Reads a value from the fields of an object.
    pub fn from_object(o: &serde_json::Map<String, serde_json::Value>) -> (r: Result<
        StackFrameFormat,
        DecodeError,
    >)
        ensures
            match r {
                Ok(x) => StackFrameFormat::decode_fields(object_model(*o)) matches Ok(m) && m == x.model(),
                Err(e) => StackFrameFormat::decode_fields(object_model(*o)) matches Err(f) && f == e@,
            },
    {
        let parameters = get_opt::<bool>(o, "parameters")?;
        let parameter_types = get_opt::<bool>(o, "parameterTypes")?;
        let parameter_names = get_opt::<bool>(o, "parameterNames")?;
        let parameter_values = get_opt::<bool>(o, "parameterValues")?;
        let line = get_opt::<bool>(o, "line")?;
        let module = get_opt::<bool>(o, "module")?;
        let include_all = get_opt::<bool>(o, "includeAll")?;
        Ok(StackFrameFormat { parameters, parameter_types, parameter_names, parameter_values, line, module, include_all })
    }
}

impl Wire for StackFrameFormat {
    type Model = StackFrameFormat;

    open spec fn model(&self) -> StackFrameFormat {
        *self
    }

    open spec fn wire_ok(m: StackFrameFormat) -> bool {
        true
    }

    open spec fn encode_json(m: StackFrameFormat) -> Json {
        Json::Object(StackFrameFormat::fields(m))
    }

    open spec fn decode_json(j: Json) -> Result<StackFrameFormat, DecodeErrorView> {
        match j {
            Json::Object(o) => StackFrameFormat::decode_fields(o),
            _ => Err(DecodeErrorView::InvalidType),
        }
    }

    fn to_value(&self) -> (r: serde_json::Value) {
        value_object(self.to_object())
    }

    fn from_value(v: &serde_json::Value) -> (r: Result<StackFrameFormat, DecodeError>) {
        match value_as_object(v) {
            Some(o) => StackFrameFormat::from_object(o),
            None => Err(DecodeError::InvalidType),
        }
    }

    proof fn lemma_round_trip(m: StackFrameFormat) {
        broadcast use group_field_rules;

        reveal(opt_field);
        reveal_strlit("parameters");
        reveal_strlit("parameterTypes");
        reveal_strlit("parameterNames");
        reveal_strlit("parameterValues");
        reveal_strlit("line");
        reveal_strlit("module");
        reveal_strlit("includeAll");
        assert("parameters"@.len() == 10);
        assert("parameterTypes"@.len() == 14);
        assert("parameterNames"@.len() == 14);
        assert("parameterValues"@.len() == 15);
        assert("line"@.len() == 4);
        assert("module"@.len() == 6);
        assert("includeAll"@.len() == 10);
        assert("parameters"@[0] != "includeAll"@[0]);
        assert("parameterTypes"@[9] != "parameterNames"@[9]);
        let o = StackFrameFormat::fields(m);
        Option::<bool>::lemma_round_trip(m.parameters);
        assert(opt_field::<bool>(o, "parameters"@) matches Ok(v) && v == m.parameters);
        Option::<bool>::lemma_round_trip(m.parameter_types);
        assert(opt_field::<bool>(o, "parameterTypes"@) matches Ok(v) && v == m.parameter_types);
        Option::<bool>::lemma_round_trip(m.parameter_names);
        assert(opt_field::<bool>(o, "parameterNames"@) matches Ok(v) && v == m.parameter_names);
        Option::<bool>::lemma_round_trip(m.parameter_values);
        assert(opt_field::<bool>(o, "parameterValues"@) matches Ok(v) && v == m.parameter_values);
        Option::<bool>::lemma_round_trip(m.line);
        assert(opt_field::<bool>(o, "line"@) matches Ok(v) && v == m.line);
        Option::<bool>::lemma_round_trip(m.module);
        assert(opt_field::<bool>(o, "module"@) matches Ok(v) && v == m.module);
        Option::<bool>::lemma_round_trip(m.include_all);
        assert(opt_field::<bool>(o, "includeAll"@) matches Ok(v) && v == m.include_all);
    }
}

impl Record for StackFrameFormat {
    open spec fn field_names() -> Set<Seq<char>> {
        set!["parameters"@, "parameterTypes"@, "parameterNames"@, "parameterValues"@, "line"@, "module"@, "includeAll"@]
    }

    proof fn lemma_unknown_field(o: JsonObject, key: Seq<char>, x: Json) {
        broadcast use group_field_rules;

        reveal(opt_field);
    }
}

impl Defaults for StackFrameFormat {
    open spec fn elidable_names() -> Set<Seq<char>> {
        set!["parameters"@, "parameterTypes"@, "parameterNames"@, "parameterValues"@, "line"@, "module"@, "includeAll"@]
    }

    open spec fn at_defaults(m: StackFrameFormat) -> bool {
        &&& m.parameters is None
        &&& m.parameter_types is None
        &&& m.parameter_names is None
        &&& m.parameter_values is None
        &&& m.line is None
        &&& m.module is None
        &&& m.include_all is None
    }

    proof fn lemma_defaults_elided(m: StackFrameFormat, key: Seq<char>) {
        broadcast use group_field_rules;

        reveal_strlit("parameters");
        reveal_strlit("parameterTypes");
        reveal_strlit("parameterNames");
        reveal_strlit("parameterValues");
        reveal_strlit("line");
        reveal_strlit("module");
        reveal_strlit("includeAll");
        assert("parameters"@.len() == 10);
        assert("parameterTypes"@.len() == 14);
        assert("parameterNames"@.len() == 14);
        assert("parameterValues"@.len() == 15);
        assert("line"@.len() == 4);
        assert("module"@.len() == 6);
        assert("includeAll"@.len() == 10);
        assert("parameters"@[0] != "includeAll"@[0]);
        assert("parameterTypes"@[9] != "parameterNames"@[9]);
    }
}

/// A StepInTarget can be used in the 'stepIn' request and determines into which single target the stepIn request should step.
#[derive(Clone, Debug, PartialEq, Eq)]
pub struct StepInTarget {
    /// Unique identifier for a stepIn target.
    pub id: i32,

    /// The name of the stepIn target (shown in the UI).
    pub label: String,
}

/// The mathematical content of a [`StepInTarget`].
pub struct StepInTargetView {
    pub id: i32,
    pub label: Seq<char>,
}

impl View for StepInTarget {
    type V = StepInTargetView;

    open spec fn view(&self) -> StepInTargetView {
        StepInTargetView {
            id: self.id,
            label: self.label.model(),
        }
    }
}

impl StepInTarget {
    /// The fields that are written for a value.
    pub open spec fn fields(m: StepInTargetView) -> JsonObject {
        let o = empty_object();
        let o = with_field::<i32>(o, "id"@, m.id);
        let o = with_field::<String>(o, "label"@, m.label);
        o
    }

    /// What the fields of an object decode to: the first failure in the order of
    /// the fields, or the value.
    pub open spec fn decode_fields(o: JsonObject) -> Result<StepInTargetView, DecodeErrorView> {
        let id = req_field::<i32>(o, "id"@);
        let label = req_field::<String>(o, "label"@);
        if id is Err {
            Err(id->Err_0)
        } else if label is Err {
            Err(label->Err_0)
        } else {
            Ok(StepInTargetView {
                id: id->Ok_0,
                label: label->Ok_0,
            })
        }
    }

    /// Writes the fields of the value into a fresh object.
    pub fn to_object(&self) -> (o: serde_json::Map<String, serde_json::Value>)
        ensures
            object_model(o) == StepInTarget::fields(self@),
    {
        let mut o = object_new();
        put::<i32>(&mut o, "id", &self.id);
        put::<String>(&mut o, "label", &self.label);
        o
    }

    /// Reads a value from the fields of an object.
    pub fn from_object(o: &serde_json::Map<String, serde_json::Value>) -> (r: Result<
        StepInTarget,
        DecodeError,
    >)
        ensures
            match r {
                Ok(x) => StepInTarget::decode_fields(object_model(*o)) matches Ok(m) && m == x.model(),
                Err(e) => StepInTarget::decode_fields(object_model(*o)) matches Err(f) && f == e@,
            },
    {
        let id = get_req::<i32>(o, "id")?;
        let label = get_req::<String>(o, "label")?;
        Ok(StepInTarget { id, label })
    }
}

impl Wire for StepInTarget {
    type Model = StepInTargetView;

    open spec fn model(&self) -> StepInTargetView {
        self@
    }

    open spec fn wire_ok(m: StepInTargetView) -> bool {
        true
    }

    open spec fn encode_json(m: StepInTargetView) -> Json {
        Json::Object(StepInTarget::fields(m))
    }

    open spec fn decode_json(j: Json) -> Result<StepInTargetView, DecodeErrorView> {
        match j {
            Json::Object(o) => StepInTarget::decode_fields(o),
            _ => Err(DecodeErrorView::InvalidType),
        }
    }

    fn to_value(&self) -> (r: serde_json::Value) {
        value_object(self.to_object())
    }

    fn from_value(v: &serde_json::Value) -> (r: Result<StepInTarget, DecodeError>) {
        match value_as_object(v) {
            Some(o) => StepInTarget::from_object(o),
            None => Err(DecodeError::InvalidType),
        }
    }

    proof fn lemma_round_trip(m: StepInTargetView) {
        broadcast use group_field_rules;

        reveal(req_field);
        reveal_strlit("id");
        reveal_strlit("label");
        assert("id"@.len() == 2);
        assert("label"@.len() == 5);
        let o = StepInTarget::fields(m);
        i32::lemma_round_trip(m.id);
        assert(req_field::<i32>(o, "id"@) matches Ok(v) && v == m.id);
        String::lemma_round_trip(m.label);
        assert(req_field::<String>(o, "label"@) matches Ok(v) && v == m.label);
    }
}

impl Record for StepInTarget {
    open spec fn field_names() -> Set<Seq<char>> {
        set!["id"@, "label"@]
    }

    proof fn lemma_unknown_field(o: JsonObject, key: Seq<char>, x: Json) {
        broadcast use group_field_rules;

        reveal(req_field);
    }
}

/// The granularity of one 'step' in the stepping requests 'next', 'stepIn', 'stepOut', and 'stepBack'.
#[derive(Clone, Copy, Debug, Eq)]
pub enum SteppingGranularity {
    /// The step should allow the program to run until the current statement has finished executing.
    ///
    /// The meaning of a statement is determined by the adapter and it may be considered equivalent to a line.
    ///
    /// For example 'for(int i = 0; i < 10; i++) could be considered to have 3 statements 'int i = 0', 'i < 10', and 'i++'.
    Statement,
    /// The step should allow the program to run until the current source line has executed.
    Line,
    /// The step should allow one instruction to execute (e.g. one x86 instruction).
    Instruction,
}

impl SteppingGranularity {
    /// The name under which the value travels.
    pub open spec fn name(self) -> Seq<char> {
        match self {
            SteppingGranularity::Statement => "statement"@,
            SteppingGranularity::Line => "line"@,
            SteppingGranularity::Instruction => "instruction"@,
        }
    }

    /// The value that travels under `s`, if there is one.
    pub open spec fn named(s: Seq<char>) -> Option<SteppingGranularity> {
        if s == "statement"@ {
            Some(SteppingGranularity::Statement)
        } else if s == "line"@ {
            Some(SteppingGranularity::Line)
        } else if s == "instruction"@ {
            Some(SteppingGranularity::Instruction)
        } else {
            None
        }
    }

    pub fn as_str(&self) -> (r: &'static str)
        ensures
            r@ == self.name(),
    {
        match self {
            SteppingGranularity::Statement => "statement",
            SteppingGranularity::Line => "line",
            SteppingGranularity::Instruction => "instruction",
        }
    }

    pub fn from_name(s: &str) -> (r: Option<SteppingGranularity>)
        ensures
            r == SteppingGranularity::named(s@),
    {
        if str_eq(s, "statement") {
            Some(SteppingGranularity::Statement)
        } else if str_eq(s, "line") {
            Some(SteppingGranularity::Line)
        } else if str_eq(s, "instruction") {
            Some(SteppingGranularity::Instruction)
        } else {
            None
        }
    }

    /// Every value is found again under its name.
    pub proof fn lemma_named(self)
        ensures
            SteppingGranularity::named(self.name()) == Some(self),
    {
        reveal_strlit("statement");
        reveal_strlit("line");
        reveal_strlit("instruction");
        assert("statement"@.len() == 9);
        assert("line"@.len() == 4);
        assert("instruction"@.len() == 11);
    }
}

impl Default for SteppingGranularity {
    fn default() -> (r: SteppingGranularity)
        ensures
            r == SteppingGranularity::Statement,
    {
        SteppingGranularity::Statement
    }
}

impl Wire for SteppingGranularity {
    type Model = SteppingGranularity;

    open spec fn model(&self) -> SteppingGranularity {
        *self
    }

    open spec fn wire_ok(m: SteppingGranularity) -> bool {
        true
    }

    open spec fn encode_json(m: SteppingGranularity) -> Json {
        Json::Str(m.name())
    }

    open spec fn decode_json(j: Json) -> Result<SteppingGranularity, DecodeErrorView> {
        match j {
            Json::Str(s) => match SteppingGranularity::named(s) {
                Some(x) => Ok(x),
                None => Err(DecodeErrorView::InvalidType),
            },
            _ => Err(DecodeErrorView::InvalidType),
        }
    }

    fn to_value(&self) -> (r: serde_json::Value) {
        value_string(self.as_str().to_owned())
    }

    fn from_value(v: &serde_json::Value) -> (r: Result<SteppingGranularity, DecodeError>) {
        match value_as_str(v) {
            Some(s) => match SteppingGranularity::from_name(s) {
                Some(x) => Ok(x),
                None => Err(DecodeError::InvalidType),
            },
            None => Err(DecodeError::InvalidType),
        }
    }

    proof fn lemma_round_trip(m: SteppingGranularity) {
        m.lemma_named();
    }
}

/// A Thread
#[derive(Clone, Debug, PartialEq, Eq)]
pub struct Thread {
    /// Unique identifier for the thread.
    pub id: i32,

    /// A name of the thread.
    pub name: String,
}

/// The mathematical content of a [`Thread`].
pub struct ThreadView {
    pub id: i32,
    pub name: Seq<char>,
}

impl View for Thread {
    type V = ThreadView;

    open spec fn view(&self) -> ThreadView {
        ThreadView {
            id: self.id,
            name: self.name.model(),
        }
    }
}

impl Thread {
    /// The fields that are written for a value.
    pub open spec fn fields(m: ThreadView) -> JsonObject {
        let o = empty_object();
        let o = with_field::<i32>(o, "id"@, m.id);
        let o = with_field::<String>(o, "name"@, m.name);
        o
    }

    /// What the fields of an object decode to: the first failure in the order of
    /// the fields, or the value.
    pub open spec fn decode_fields(o: JsonObject) -> Result<ThreadView, DecodeErrorView> {
        let id = req_field::<i32>(o, "id"@);
        let name = req_field::<String>(o, "name"@);
        if id is Err {
            Err(id->Err_0)
        } else if name is Err {
            Err(name->Err_0)
        } else {
            Ok(ThreadView {
                id: id->Ok_0,
                name: name->Ok_0,
            })
        }
    }

    /// Writes the fields of the value into a fresh object.
    pub fn to_object(&self) -> (o: serde_json::Map<String, serde_json::Value>)
        ensures
            object_model(o) == Thread::fields(self@),
    {
        let mut o = object_new();
        put::<i32>(&mut o, "id", &self.id);
        put::<String>(&mut o, "name", &self.name);
        o
    }

    /// Reads a value from the fields of an object.
    pub fn from_object(o: &serde_json::Map<String, serde_json::Value>) -> (r: Result<
        Thread,
        DecodeError,
    >)
        ensures
            match r {
                Ok(x) => Thread::decode_fields(object_model(*o)) matches Ok(m) && m == x.model(),
                Err(e) => Thread::decode_fields(object_model(*o)) matches Err(f) && f == e@,
            },
    {
        let id = get_req::<i32>(o, "id")?;
        let name = get_req::<String>(o, "name")?;
        Ok(Thread { id, name })
    }
}

impl Wire for Thread {
    type Model = ThreadView;

    open spec fn model(&self) -> ThreadView {
        self@
    }

    open spec fn wire_ok(m: ThreadView) -> bool {
        true
    }

    open spec fn encode_json(m: ThreadView) -> Json {
        Json::Object(Thread::fields(m))
    }

    open spec fn decode_json(j: Json) -> Result<ThreadView, DecodeErrorView> {
        match j {
            Json::Object(o) => Thread::decode_fields(o),
            _ => Err(DecodeErrorView::InvalidType),
        }
    }

    fn to_value(&self) -> (r: serde_json::Value) {
        value_object(self.to_object())
    }

    fn from_value(v: &serde_json::Value) -> (r: Result<Thread, DecodeError>) {
        match value_as_object(v) {
            Some(o) => Thread::from_object(o),
            None => Err(DecodeError::InvalidType),
        }
    }

    proof fn lemma_round_trip(m: ThreadView) {
        broadcast use group_field_rules;

        reveal(req_field);
        reveal_strlit("id");
        reveal_strlit("name");
        assert("id"@.len() == 2);
        assert("name"@.len() == 4);
        let o = Thread::fields(m);
        i32::lemma_round_trip(m.id);
        assert(req_field::<i32>(o, "id"@) matches Ok(v) && v == m.id);
        String::lemma_round_trip(m.name);
        assert(req_field::<String>(o, "name"@) matches Ok(v) && v == m.name);
    }
}

impl Record for Thread {
    open spec fn field_names() -> Set<Seq<char>> {
        set!["id"@, "name"@]
    }

    proof fn lemma_unknown_field(o: JsonObject, key: Seq<char>, x: Json) {
        broadcast use group_field_rules;

        reveal(req_field);
    }
}

/// Provides formatting information for a value.
#[derive(Clone, Debug, PartialEq, Eq)]
pub struct ValueFormat {
    /// Display the value in hex.
    pub hex: Option<bool>,
}

impl ValueFormat {
    /// The fields that are written for a value.
    pub open spec fn fields(m: ValueFormat) -> JsonObject {
        let o = empty_object();
        let o = with_opt_field::<bool>(o, "hex"@, m.hex);
        o
    }

    /// What the fields of an object decode to: the first failure in the order of
    /// the fields, or the value.
    pub open spec fn decode_fields(o: JsonObject) -> Result<ValueFormat, DecodeErrorView> {
        let hex = opt_field::<bool>(o, "hex"@);
        if hex is Err {
            Err(hex->Err_0)
        } else {
            Ok(ValueFormat {
                hex: hex->Ok_0,
            })
        }
    }

    /// Writes the fields of the value into a fresh object.
    pub fn to_object(&self) -> (o: serde_json::Map<String, serde_json::Value>)
        ensures
            object_model(o) == ValueFormat::fields(*self),
    {
        let mut o = object_new();
        put_opt::<bool>(&mut o, "hex", &self.hex);
        o
    }

    /// Reads a value from the fields of an object.
    pub fn from_object(o: &serde_json::Map<String, serde_json::Value>) -> (r: Result<
        ValueFormat,
        DecodeError,
    >)
        ensures
            match r {
                Ok(x) => ValueFormat::decode_fields(object_model(*o)) matches Ok(m) && m == x.model(),
                Err(e) => ValueFormat::decode_fields(object_model(*o)) matches Err(f) && f == e@,
            },
    {
        let hex = get_opt::<bool>(o, "hex")?;
        Ok(ValueFormat { hex })
    }
}

impl Wire for ValueFormat {
    type Model = ValueFormat;

    open spec fn model(&self) -> ValueFormat {
        *self
    }

    open spec fn wire_ok(m: ValueFormat) -> bool {
        true
    }

    open spec fn encode_json(m: ValueFormat) -> Json {
        Json::Object(ValueFormat::fields(m))
    }

    open spec fn decode_json(j: Json) -> Result<ValueFormat, DecodeErrorView> {
        match j {
            Json::Object(o) => ValueFormat::decode_fields(o),
            _ => Err(DecodeErrorView::InvalidType),
        }
    }

    fn to_value(&self) -> (r: serde_json::Value) {
        value_object(self.to_object())
    }

    fn from_value(v: &serde_json::Value) -> (r: Result<ValueFormat, DecodeError>) {
        match value_as_object(v) {
            Some(o) => ValueFormat::from_object(o),
            None => Err(DecodeError::InvalidType),
        }
    }

    proof fn lemma_round_trip(m: ValueFormat) {
        broadcast use group_field_rules;

        reveal(opt_field);
        reveal_strlit("hex");
        assert("hex"@.len() == 3);
        let o = ValueFormat::fields(m);
        Option::<bool>::lemma_round_trip(m.hex);
        assert(opt_field::<bool>(o, "hex"@) matches Ok(v) && v == m.hex);
    }
}

impl Record for ValueFormat {
    open spec fn field_names() -> Set<Seq<char>> {
        set!["hex"@]
    }

    proof fn lemma_unknown_field(o: JsonObject, key: Seq<char>, x: Json) {
        broadcast use group_field_rules;

        reveal(opt_field);
    }
}

impl Defaults for ValueFormat {
    open spec fn elidable_names() -> Set<Seq<char>> {
        set!["hex"@]
    }

    open spec fn at_defaults(m: ValueFormat) -> bool {
        &&& m.hex is None
    }

    proof fn lemma_defaults_elided(m: ValueFormat, key: Seq<char>) {
        broadcast use group_field_rules;

        reveal_strlit("hex");
        assert("hex"@.len() == 3);
    }
}

/// A Variable is a name/value pair.
///
/// Optionally a variable can have a 'type' that is shown if space permits or when hovering over the variable's name.
///
/// An optional 'kind' is used to render additional properties of the variable, e.g. different icons can be used to indicate that a variable is public or private.
///
/// If the value is structured (has children), a handle is provided to retrieve the children with the VariablesRequest.
///
/// If the number of named or indexed children is large, the numbers should be returned via the optional 'namedVariables' and 'indexedVariables' attributes.
///
/// The client can use this optional information to present the children in a paged UI and fetch them in chunks.
#[derive(Clone, Debug, PartialEq, Eq)]
pub struct Variable {
    /// The variable's name.
    pub name: String,

    /// The variable's value. This can be a multi-line text, e.g. for a function the body of a function.
    pub value: String,

    /// The type of the variable's value. Typically shown in the UI when hovering over the value.
    ///
    /// This attribute should only be returned by a debug adapter if the client has passed the value true for the 'supportsVariableType' capability of the 'initialize' request.
    pub type_: Option<String>,

    /// Properties of a variable that can be used to determine how to render the variable in the UI.
    pub presentation_hint: Option<VariablePresentationHint>,

    /// Optional evaluatable name of this variable which can be passed to the 'EvaluateRequest' to fetch the variable's value.
    pub evaluate_name: Option<String>,

    /// If variablesReference is > 0, the variable is structured and its children can be retrieved by passing variablesReference to the VariablesRequest.
    pub variables_reference: i32,

    /// The number of named child variables.
    ///
    /// The client can use this optional information to present the children in a paged UI and fetch them in chunks.
    pub named_variables: Option<i32>,

    /// The number of indexed child variables.
    ///
    /// The client can use this optional information to present the children in a paged UI and fetch them in chunks.
    pub indexed_variables: Option<i32>,

    /// Optional memory reference for the variable if the variable represents executable code, such as a function pointer.
    ///
    /// This attribute is only required if the client has passed the value true for the 'supportsMemoryReferences' capability of the 'initialize' request.
    pub memory_reference: Option<String>,
}

/// The mathematical content of a [`Variable`].
pub struct VariableView {
    pub name: Seq<char>,
    pub value: Seq<char>,
    pub type_: Option<Seq<char>>,
    pub presentation_hint: Option<VariablePresentationHintView>,
    pub evaluate_name: Option<Seq<char>>,
    pub variables_reference: i32,
    pub named_variables: Option<i32>,
    pub indexed_variables: Option<i32>,
    pub memory_reference: Option<Seq<char>>,
}

impl View for Variable {
    type V = VariableView;

    open spec fn view(&self) -> VariableView {
        VariableView {
            name: self.name.model(),
            value: self.value.model(),
            type_: self.type_.model(),
            presentation_hint: self.presentation_hint.model(),
            evaluate_name: self.evaluate_name.model(),
            variables_reference: self.variables_reference,
            named_variables: self.named_variables.model(),
            indexed_variables: self.indexed_variables.model(),
            memory_reference: self.memory_reference.model(),
        }
    }
}

impl Variable {
    /// The fields that are written for a value.
    pub open spec fn fields(m: VariableView) -> JsonObject {
        let o = empty_object();
        let o = with_field::<String>(o, "name"@, m.name);
        let o = with_field::<String>(o, "value"@, m.value);
        let o = with_opt_field::<String>(o, "type"@, m.type_);
        let o = with_opt_field::<VariablePresentationHint>(o, "presentationHint"@, m.presentation_hint);
        let o = with_opt_field::<String>(o, "evaluateName"@, m.evaluate_name);
        let o = with_field::<i32>(o, "variablesReference"@, m.variables_reference);
        let o = with_opt_field::<i32>(o, "namedVariables"@, m.named_variables);
        let o = with_opt_field::<i32>(o, "indexedVariables"@, m.indexed_variables);
        let o = with_opt_field::<String>(o, "memoryReference"@, m.memory_reference);
        o
    }

    /// What the fields of an object decode to: the first failure in the order of
    /// the fields, or the value.
    pub open spec fn decode_fields(o: JsonObject) -> Result<VariableView, DecodeErrorView> {
        let name = req_field::<String>(o, "name"@);
        let value = req_field::<String>(o, "value"@);
        let type_ = opt_field::<String>(o, "type"@);
        let presentation_hint = opt_field::<VariablePresentationHint>(o, "presentationHint"@);
        let evaluate_name = opt_field::<String>(o, "evaluateName"@);
        let variables_reference = req_field::<i32>(o, "variablesReference"@);
        let named_variables = opt_field::<i32>(o, "namedVariables"@);
        let indexed_variables = opt_field::<i32>(o, "indexedVariables"@);
        let memory_reference = opt_field::<String>(o, "memoryReference"@);
        if name is Err {
            Err(name->Err_0)
        } else if value is Err {
            Err(value->Err_0)
        } else if type_ is Err {
            Err(type_->Err_0)
        } else if presentation_hint is Err {
            Err(presentation_hint->Err_0)
        } else if evaluate_name is Err {
            Err(evaluate_name->Err_0)
        } else if variables_reference is Err {
            Err(variables_reference->Err_0)
        } else if named_variables is Err {
            Err(named_variables->Err_0)
        } else if indexed_variables is Err {
            Err(indexed_variables->Err_0)
        } else if memory_reference is Err {
            Err(memory_reference->Err_0)
        } else {
            Ok(VariableView {
                name: name->Ok_0,
                value: value->Ok_0,
                type_: type_->Ok_0,
                presentation_hint: presentation_hint->Ok_0,
                evaluate_name: evaluate_name->Ok_0,
                variables_reference: variables_reference->Ok_0,
                named_variables: named_variables->Ok_0,
                indexed_variables: indexed_variables->Ok_0,
                memory_reference: memory_reference->Ok_0,
            })
        }
    }

    /// Writes the fields of the value into a fresh object.
    pub fn to_object(&self) -> (o: serde_json::Map<String, serde_json::Value>)
        ensures
            object_model(o) == Variable::fields(self@),
    {
        let mut o = object_new();
        put::<String>(&mut o, "name", &self.name);
        put::<String>(&mut o, "value", &self.value);
        put_opt::<String>(&mut o, "type", &self.type_);
        put_opt::<VariablePresentationHint>(&mut o, "presentationHint", &self.presentation_hint);
        put_opt::<String>(&mut o, "evaluateName", &self.evaluate_name);
        put::<i32>(&mut o, "variablesReference", &self.variables_reference);
        put_opt::<i32>(&mut o, "namedVariables", &self.named_variables);
        put_opt::<i32>(&mut o, "indexedVariables", &self.indexed_variables);
        put_opt::<String>(&mut o, "memoryReference", &self.memory_reference);
        o
    }

    /// Reads a value from the fields of an object.
    pub fn from_object(o: &serde_json::Map<String, serde_json::Value>) -> (r: Result<
        Variable,
        DecodeError,
    >)
        ensures
            match r {
                Ok(x) => Variable::decode_fields(object_model(*o)) matches Ok(m) && m == x.model(),
                Err(e) => Variable::decode_fields(object_model(*o)) matches Err(f) && f == e@,
            },
    {
        let name = get_req::<String>(o, "name")?;
        let value = get_req::<String>(o, "value")?;
        let type_ = get_opt::<String>(o, "type")?;
        let presentation_hint = get_opt::<VariablePresentationHint>(o, "presentationHint")?;
        let evaluate_name = get_opt::<String>(o, "evaluateName")?;
        let variables_reference = get_req::<i32>(o, "variablesReference")?;
        let named_variables = get_opt::<i32>(o, "namedVariables")?;
        let indexed_variables = get_opt::<i32>(o, "indexedVariables")?;
        let memory_reference = get_opt::<String>(o, "memoryReference")?;
        Ok(Variable { name, value, type_, presentation_hint, evaluate_name, variables_reference, named_variables, indexed_variables, memory_reference })
    }
}

impl Wire for Variable {
    type Model = VariableView;

    open spec fn model(&self) -> VariableView {
        self@
    }

    open spec fn wire_ok(m: VariableView) -> bool {
        true
    }

    open spec fn encode_json(m: VariableView) -> Json {
        Json::Object(Variable::fields(m))
    }

    open spec fn decode_json(j: Json) -> Result<VariableView, DecodeErrorView> {
        match j {
            Json::Object(o) => Variable::decode_fields(o),
            _ => Err(DecodeErrorView::InvalidType),
        }
    }

    fn to_value(&self) -> (r: serde_json::Value) {
        value_object(self.to_object())
    }

    fn from_value(v: &serde_json::Value) -> (r: Result<Variable, DecodeError>) {
        match value_as_object(v) {
            Some(o) => Variable::from_object(o),
            None => Err(DecodeError::InvalidType),
        }
    }

    proof fn lemma_round_trip(m: VariableView) {
        broadcast use group_field_rules;

        reveal(opt_field);
        reveal(req_field);
        reveal_strlit("name");
        reveal_strlit("value");
        reveal_strlit("type");
        reveal_strlit("presentationHint");
        reveal_strlit("evaluateName");
        reveal_strlit("variablesReference");
        reveal_strlit("namedVariables");
        reveal_strlit("indexedVariables");
        reveal_strlit("memoryReference");
        assert("name"@.len() == 4);
        assert("value"@.len() == 5);
        assert("type"@.len() == 4);
        assert("presentationHint"@.len() == 16);
        assert("evaluateName"@.len() == 12);
        assert("variablesReference"@.len() == 18);
        assert("namedVariables"@.len() == 14);
        assert("indexedVariables"@.len() == 16);
        assert("memoryReference"@.len() == 15);
        assert("name"@[0] != "type"@[0]);
        assert("presentationHint"@[0] != "indexedVariables"@[0]);
        let o = Variable::fields(m);
        String::lemma_round_trip(m.name);
        assert(req_field::<String>(o, "name"@) matches Ok(v) && v == m.name);
        String::lemma_round_trip(m.value);
        assert(req_field::<String>(o, "value"@) matches Ok(v) && v == m.value);
        Option::<String>::lemma_round_trip(m.type_);
        assert(opt_field::<String>(o, "type"@) matches Ok(v) && v == m.type_);
        Option::<VariablePresentationHint>::lemma_round_trip(m.presentation_hint);
        assert(opt_field::<VariablePresentationHint>(o, "presentationHint"@) matches Ok(v) && v == m.presentation_hint);
        Option::<String>::lemma_round_trip(m.evaluate_name);
        assert(opt_field::<String>(o, "evaluateName"@) matches Ok(v) && v == m.evaluate_name);
        i32::lemma_round_trip(m.variables_reference);
        assert(req_field::<i32>(o, "variablesReference"@) matches Ok(v) && v == m.variables_reference);
        Option::<i32>::lemma_round_trip(m.named_variables);
        assert(opt_field::<i32>(o, "namedVariables"@) matches Ok(v) && v == m.named_variables);
        Option::<i32>::lemma_round_trip(m.indexed_variables);
        assert(opt_field::<i32>(o, "indexedVariables"@) matches Ok(v) && v == m.indexed_variables);
        Option::<String>::lemma_round_trip(m.memory_reference);
        assert(opt_field::<String>(o, "memoryReference"@) matches Ok(v) && v == m.memory_reference);
    }
}

impl Record for Variable {
    open spec fn field_names() -> Set<Seq<char>> {
        set!["name"@, "value"@, "type"@, "presentationHint"@, "evaluateName"@, "variablesReference"@, "namedVariables"@, "indexedVariables"@, "memoryReference"@]
    }

    proof fn lemma_unknown_field(o: JsonObject, key: Seq<char>, x: Json) {
        broadcast use group_field_rules;

        reveal(opt_field);
        reveal(req_field);
    }
}

impl Defaults for Variable {
    open spec fn elidable_names() -> Set<Seq<char>> {
        set!["type"@, "presentationHint"@, "evaluateName"@, "namedVariables"@, "indexedVariables"@, "memoryReference"@]
    }

    open spec fn at_defaults(m: VariableView) -> bool {
        &&& m.type_ is None
        &&& m.presentation_hint is None
        &&& m.evaluate_name is None
        &&& m.named_variables is None
        &&& m.indexed_variables is None
        &&& m.memory_reference is None
    }

    proof fn lemma_defaults_elided(m: VariableView, key: Seq<char>) {
        broadcast use group_field_rules;

        reveal_strlit("name");
        reveal_strlit("value");
        reveal_strlit("type");
        reveal_strlit("presentationHint");
        reveal_strlit("evaluateName");
        reveal_strlit("variablesReference");
        reveal_strlit("namedVariables");
        reveal_strlit("indexedVariables");
        reveal_strlit("memoryReference");
        assert("name"@.len() == 4);
        assert("value"@.len() == 5);
        assert("type"@.len() == 4);
        assert("presentationHint"@.len() == 16);
        assert("evaluateName"@.len() == 12);
        assert("variablesReference"@.len() == 18);
        assert("namedVariables"@.len() == 14);
        assert("indexedVariables"@.len() == 16);
        assert("memoryReference"@.len() == 15);
        assert("name"@[0] != "type"@[0]);
        assert("presentationHint"@[0] != "indexedVariables"@[0]);
    }
}

/// Optional properties of a variable that can be used to determine how to render the variable in the UI.
#[derive(Clone, Debug, PartialEq, Eq)]
pub struct VariablePresentationHint {
    /// The kind of variable. Before introducing additional values, try to use the listed values.
    pub kind: Option<VariableKind>,

    /// Set of attributes represented as an array of strings. Before introducing additional values, try to use the listed values.
    pub attributes: Vec<VariableAttribute>,

    /// Visibility of variable. Before introducing additional values, try to use the listed values.
    pub visibility: Option<VariableVisibility>,
}

/// The mathematical content of a [`VariablePresentationHint`].
pub struct VariablePresentationHintView {
    pub kind: Option<VariableKind>,
    pub attributes: Seq<VariableAttribute>,
    pub visibility: Option<VariableVisibility>,
}

impl View for VariablePresentationHint {
    type V = VariablePresentationHintView;

    open spec fn view(&self) -> VariablePresentationHintView {
        VariablePresentationHintView {
            kind: self.kind.model(),
            attributes: self.attributes.model(),
            visibility: self.visibility.model(),
        }
    }
}

impl VariablePresentationHint {
    /// The fields that are written for a value.
    pub open spec fn fields(m: VariablePresentationHintView) -> JsonObject {
        let o = empty_object();
        let o = with_opt_field::<VariableKind>(o, "kind"@, m.kind);
        let o = with_nondefault_field::<Vec<VariableAttribute>>(o, "attributes"@, m.attributes, Seq::empty());
        let o = with_opt_field::<VariableVisibility>(o, "visibility"@, m.visibility);
        o
    }

    /// What the fields of an object decode to: the first failure in the order of
    /// the fields, or the value.
    pub open spec fn decode_fields(o: JsonObject) -> Result<VariablePresentationHintView, DecodeErrorView> {
        let kind = opt_field::<VariableKind>(o, "kind"@);
        let attributes = default_field::<Vec<VariableAttribute>>(o, "attributes"@, Seq::empty());
        let visibility = opt_field::<VariableVisibility>(o, "visibility"@);
        if kind is Err {
            Err(kind->Err_0)
        } else if attributes is Err {
            Err(attributes->Err_0)
        } else if visibility is Err {
            Err(visibility->Err_0)
        } else {
            Ok(VariablePresentationHintView {
                kind: kind->Ok_0,
                attributes: attributes->Ok_0,
                visibility: visibility->Ok_0,
            })
        }
    }

    /// Writes the fields of the value into a fresh object.
    pub fn to_object(&self) -> (o: serde_json::Map<String, serde_json::Value>)
        ensures
            object_model(o) == VariablePresentationHint::fields(self@),
    {
        let mut o = object_new();
        put_opt::<VariableKind>(&mut o, "kind", &self.kind);
        put_nonempty::<VariableAttribute>(&mut o, "attributes", &self.attributes);
        put_opt::<VariableVisibility>(&mut o, "visibility", &self.visibility);
        o
    }

    /// Reads a value from the fields of an object.
    pub fn from_object(o: &serde_json::Map<String, serde_json::Value>) -> (r: Result<
        VariablePresentationHint,
        DecodeError,
    >)
        ensures
            match r {
                Ok(x) => VariablePresentationHint::decode_fields(object_model(*o)) matches Ok(m) && m == x.model(),
                Err(e) => VariablePresentationHint::decode_fields(object_model(*o)) matches Err(f) && f == e@,
            },
    {
        let kind = get_opt::<VariableKind>(o, "kind")?;
        let attributes = get_or_empty::<VariableAttribute>(o, "attributes")?;
        let visibility = get_opt::<VariableVisibility>(o, "visibility")?;
        Ok(VariablePresentationHint { kind, attributes, visibility })
    }
}

impl Wire for VariablePresentationHint {
    type Model = VariablePresentationHintView;

    open spec fn model(&self) -> VariablePresentationHintView {
        self@
    }

    open spec fn wire_ok(m: VariablePresentationHintView) -> bool {
        true
    }

    open spec fn encode_json(m: VariablePresentationHintView) -> Json {
        Json::Object(VariablePresentationHint::fields(m))
    }

    open spec fn decode_json(j: Json) -> Result<VariablePresentationHintView, DecodeErrorView> {
        match j {
            Json::Object(o) => VariablePresentationHint::decode_fields(o),
            _ => Err(DecodeErrorView::InvalidType),
        }
    }

    fn to_value(&self) -> (r: serde_json::Value) {
        value_object(self.to_object())
    }

    fn from_value(v: &serde_json::Value) -> (r: Result<VariablePresentationHint, DecodeError>) {
        match value_as_object(v) {
            Some(o) => VariablePresentationHint::from_object(o),
            None => Err(DecodeError::InvalidType),
        }
    }

    proof fn lemma_round_trip(m: VariablePresentationHintView) {
        broadcast use group_field_rules;

        reveal(default_field);
        reveal(opt_field);
        reveal_strlit("kind");
        reveal_strlit("attributes");
        reveal_strlit("visibility");
        assert("kind"@.len() == 4);
        assert("attributes"@.len() == 10);
        assert("visibility"@.len() == 10);
        assert("attributes"@[0] != "visibility"@[0]);
        let o = VariablePresentationHint::fields(m);
        Option::<VariableKind>::lemma_round_trip(m.kind);
        assert(opt_field::<VariableKind>(o, "kind"@) matches Ok(v) && v == m.kind);
        Vec::<VariableAttribute>::lemma_round_trip(m.attributes);
        assert(default_field::<Vec<VariableAttribute>>(o, "attributes"@, Seq::empty()) matches Ok(v) && v == m.attributes);
        Option::<VariableVisibility>::lemma_round_trip(m.visibility);
        assert(opt_field::<VariableVisibility>(o, "visibility"@) matches Ok(v) && v == m.visibility);
    }
}

impl Record for VariablePresentationHint {
    open spec fn field_names() -> Set<Seq<char>> {
        set!["kind"@, "attributes"@, "visibility"@]
    }

    proof fn lemma_unknown_field(o: JsonObject, key: Seq<char>, x: Json) {
        broadcast use group_field_rules;

        reveal(default_field);
        reveal(opt_field);
    }
}

impl Defaults for VariablePresentationHint {
    open spec fn elidable_names() -> Set<Seq<char>> {
        set!["kind"@, "attributes"@, "visibility"@]
    }

    open spec fn at_defaults(m: VariablePresentationHintView) -> bool {
        &&& m.kind is None
        &&& m.attributes == Seq::<VariableAttribute>::empty()
        &&& m.visibility is None
    }

    proof fn lemma_defaults_elided(m: VariablePresentationHintView, key: Seq<char>) {
        broadcast use group_field_rules;

        reveal_strlit("kind");
        reveal_strlit("attributes");
        reveal_strlit("visibility");
        assert("kind"@.len() == 4);
        assert("attributes"@.len() == 10);
        assert("visibility"@.len() == 10);
        assert("attributes"@[0] != "visibility"@[0]);
    }
}

#[derive(Clone, Copy, Debug, PartialEq, Eq, Structural)]
pub enum VariableKind {
    /// Indicates that the object is a property.
    Property,
    /// Indicates that the object is a method.
    Method,
    /// Indicates that the object is a class.
    Class,
    /// Indicates that the object is data.
    Data,
    /// Indicates that the object is an event.
    Event,
    /// Indicates that the object is a base class.
    BaseClass,
    /// Indicates that the object is an inner class.
    InnerClass,
    /// Indicates that the object is an interface.
    Interface,
    /// Indicates that the object is the most derived class.
    MostDerivedClass,
    /// Indicates that the object is virtual, that means it is a synthetic object introducedby the
    ///
    /// adapter for rendering purposes, e.g. an index range for large arrays.
    Virtual,
    /// Deprecated: Indicates that a data breakpoint is registered for the object. The 'hasDataBreakpoint' attribute should generally be used instead.
    DataBreakpoint,
}

impl VariableKind {
    /// The name under which the value travels.
    pub open spec fn name(self) -> Seq<char> {
        match self {
            VariableKind::Property => "property"@,
            VariableKind::Method => "method"@,
            VariableKind::Class => "class"@,
            VariableKind::Data => "data"@,
            VariableKind::Event => "event"@,
            VariableKind::BaseClass => "baseClass"@,
            VariableKind::InnerClass => "innerClass"@,
            VariableKind::Interface => "interface"@,
            VariableKind::MostDerivedClass => "mostDerivedClass"@,
            VariableKind::Virtual => "virtual"@,
            VariableKind::DataBreakpoint => "dataBreakpoint"@,
        }
    }

    /// The value that travels under `s`, if there is one.
    pub open spec fn named(s: Seq<char>) -> Option<VariableKind> {
        if s == "property"@ {
            Some(VariableKind::Property)
        } else if s == "method"@ {
            Some(VariableKind::Method)
        } else if s == "class"@ {
            Some(VariableKind::Class)
        } else if s == "data"@ {
            Some(VariableKind::Data)
        } else if s == "event"@ {
            Some(VariableKind::Event)
        } else if s == "baseClass"@ {
            Some(VariableKind::BaseClass)
        } else if s == "innerClass"@ {
            Some(VariableKind::InnerClass)
        } else if s == "interface"@ {
            Some(VariableKind::Interface)
        } else if s == "mostDerivedClass"@ {
            Some(VariableKind::MostDerivedClass)
        } else if s == "virtual"@ {
            Some(VariableKind::Virtual)
        } else if s == "dataBreakpoint"@ {
            Some(VariableKind::DataBreakpoint)
        } else {
            None
        }
    }

    pub fn as_str(&self) -> (r: &'static str)
        ensures
            r@ == self.name(),
    {
        match self {
            VariableKind::Property => "property",
            VariableKind::Method => "method",
            VariableKind::Class => "class",
            VariableKind::Data => "data",
            VariableKind::Event => "event",
            VariableKind::BaseClass => "baseClass",
            VariableKind::InnerClass => "innerClass",
            VariableKind::Interface => "interface",
            VariableKind::MostDerivedClass => "mostDerivedClass",
            VariableKind::Virtual => "virtual",
            VariableKind::DataBreakpoint => "dataBreakpoint",
        }
    }

    pub fn from_name(s: &str) -> (r: Option<VariableKind>)
        ensures
            r == VariableKind::named(s@),
    {
        if str_eq(s, "property") {
            Some(VariableKind::Property)
        } else if str_eq(s, "method") {
            Some(VariableKind::Method)
        } else if str_eq(s, "class") {
            Some(VariableKind::Class)
        } else if str_eq(s, "data") {
            Some(VariableKind::Data)
        } else if str_eq(s, "event") {
            Some(VariableKind::Event)
        } else if str_eq(s, "baseClass") {
            Some(VariableKind::BaseClass)
        } else if str_eq(s, "innerClass") {
            Some(VariableKind::InnerClass)
        } else if str_eq(s, "interface") {
            Some(VariableKind::Interface)
        } else if str_eq(s, "mostDerivedClass") {
            Some(VariableKind::MostDerivedClass)
        } else if str_eq(s, "virtual") {
            Some(VariableKind::Virtual)
        } else if str_eq(s, "dataBreakpoint") {
            Some(VariableKind::DataBreakpoint)
        } else {
            None
        }
    }

    /// Every value is found again under its name.
    pub proof fn lemma_named(self)
        ensures
            VariableKind::named(self.name()) == Some(self),
    {
        reveal_strlit("property");
        reveal_strlit("method");
        reveal_strlit("class");
        reveal_strlit("data");
        reveal_strlit("event");
        reveal_strlit("baseClass");
        reveal_strlit("innerClass");
        reveal_strlit("interface");
        reveal_strlit("mostDerivedClass");
        reveal_strlit("virtual");
        reveal_strlit("dataBreakpoint");
        assert("property"@.len() == 8);
        assert("method"@.len() == 6);
        assert("class"@.len() == 5);
        assert("data"@.len() == 4);
        assert("event"@.len() == 5);
        assert("baseClass"@.len() == 9);
        assert("innerClass"@.len() == 10);
        assert("interface"@.len() == 9);
        assert("mostDerivedClass"@.len() == 16);
        assert("virtual"@.len() == 7);
        assert("dataBreakpoint"@.len() == 14);
        assert("class"@[0] != "event"@[0]);
        assert("baseClass"@[0] != "interface"@[0]);
    }
}

impl Wire for VariableKind {
    type Model = VariableKind;

    open spec fn model(&self) -> VariableKind {
        *self
    }

    open spec fn wire_ok(m: VariableKind) -> bool {
        true
    }

    open spec fn encode_json(m: VariableKind) -> Json {
        Json::Str(m.name())
    }

    open spec fn decode_json(j: Json) -> Result<VariableKind, DecodeErrorView> {
        match j {
            Json::Str(s) => match VariableKind::named(s) {
                Some(x) => Ok(x),
                None => Err(DecodeErrorView::InvalidType),
            },
            _ => Err(DecodeErrorView::InvalidType),
        }
    }

    fn to_value(&self) -> (r: serde_json::Value) {
        value_string(self.as_str().to_owned())
    }

    fn from_value(v: &serde_json::Value) -> (r: Result<VariableKind, DecodeError>) {
        match value_as_str(v) {
            Some(s) => match VariableKind::from_name(s) {
                Some(x) => Ok(x),
                None => Err(DecodeError::InvalidType),
            },
            None => Err(DecodeError::InvalidType),
        }
    }

    proof fn lemma_round_trip(m: VariableKind) {
        m.lemma_named();
    }
}

#[derive(Clone, Copy, Debug, PartialEq, Eq, Structural)]
pub enum VariableAttribute {
    /// Indicates that the object is static.
    Static,
    /// Indicates that the object is a constant.
    Constant,
    /// Indicates that the object is read only.
    ReadOnly,
    /// Indicates that the object is a raw string.
    RawString,
    /// Indicates that the object can have an Object ID created for it.
    HasObjectId,
    /// Indicates that the object has an Object ID associated with it.
    CanHaveObjectId,
    /// Indicates that the evaluation had side effects.
    HasSideEffects,
    /// Indicates that the object has its value tracked by a data breakpoint.
    HasDataBreakpoint,
}

impl VariableAttribute {
    /// The name under which the value travels.
    pub open spec fn name(self) -> Seq<char> {
        match self {
            VariableAttribute::Static => "static"@,
            VariableAttribute::Constant => "constant"@,
            VariableAttribute::ReadOnly => "readOnly"@,
            VariableAttribute::RawString => "rawString"@,
            VariableAttribute::HasObjectId => "hasObjectId"@,
            VariableAttribute::CanHaveObjectId => "canHaveObjectId"@,
            VariableAttribute::HasSideEffects => "hasSideEffects"@,
            VariableAttribute::HasDataBreakpoint => "hasDataBreakpoint"@,
        }
    }

    /// The value that travels under `s`, if there is one.
    pub open spec fn named(s: Seq<char>) -> Option<VariableAttribute> {
        if s == "static"@ {
            Some(VariableAttribute::Static)
        } else if s == "constant"@ {
            Some(VariableAttribute::Constant)
        } else if s == "readOnly"@ {
            Some(VariableAttribute::ReadOnly)
        } else if s == "rawString"@ {
            Some(VariableAttribute::RawString)
        } else if s == "hasObjectId"@ {
            Some(VariableAttribute::HasObjectId)
        } else if s == "canHaveObjectId"@ {
            Some(VariableAttribute::CanHaveObjectId)
        } else if s == "hasSideEffects"@ {
            Some(VariableAttribute::HasSideEffects)
        } else if s == "hasDataBreakpoint"@ {
            Some(VariableAttribute::HasDataBreakpoint)
        } else {
            None
        }
    }

    pub fn as_str(&self) -> (r: &'static str)
        ensures
            r@ == self.name(),
    {
        match self {
            VariableAttribute::Static => "static",
            VariableAttribute::Constant => "constant",
            VariableAttribute::ReadOnly => "readOnly",
            VariableAttribute::RawString => "rawString",
            VariableAttribute::HasObjectId => "hasObjectId",
            VariableAttribute::CanHaveObjectId => "canHaveObjectId",
            VariableAttribute::HasSideEffects => "hasSideEffects",
            VariableAttribute::HasDataBreakpoint => "hasDataBreakpoint",
        }
    }

    pub fn from_name(s: &str) -> (r: Option<VariableAttribute>)
        ensures
            r == VariableAttribute::named(s@),
    {
        if str_eq(s, "static") {
            Some(VariableAttribute::Static)
        } else if str_eq(s, "constant") {
            Some(VariableAttribute::Constant)
        } else if str_eq(s, "readOnly") {
            Some(VariableAttribute::ReadOnly)
        } else if str_eq(s, "rawString") {
            Some(VariableAttribute::RawString)
        } else if str_eq(s, "hasObjectId") {
            Some(VariableAttribute::HasObjectId)
        } else if str_eq(s, "canHaveObjectId") {
            Some(VariableAttribute::CanHaveObjectId)
        } else if str_eq(s, "hasSideEffects") {
            Some(VariableAttribute::HasSideEffects)
        } else if str_eq(s, "hasDataBreakpoint") {
            Some(VariableAttribute::HasDataBreakpoint)
        } else {
            None
        }
    }

    /// Every value is found again under its name.
    pub proof fn lemma_named(self)
        ensures
            VariableAttribute::named(self.name()) == Some(self),
    {
        reveal_strlit("static");
        reveal_strlit("constant");
        reveal_strlit("readOnly");
        reveal_strlit("rawString");
        reveal_strlit("hasObjectId");
        reveal_strlit("canHaveObjectId");
        reveal_strlit("hasSideEffects");
        reveal_strlit("hasDataBreakpoint");
        assert("static"@.len() == 6);
        assert("constant"@.len() == 8);
        assert("readOnly"@.len() == 8);
        assert("rawString"@.len() == 9);
        assert("hasObjectId"@.len() == 11);
        assert("canHaveObjectId"@.len() == 15);
        assert("hasSideEffects"@.len() == 14);
        assert("hasDataBreakpoint"@.len() == 17);
        assert("constant"@[0] != "readOnly"@[0]);
    }
}

impl Wire for VariableAttribute {
    type Model = VariableAttribute;

    open spec fn model(&self) -> VariableAttribute {
        *self
    }

    open spec fn wire_ok(m: VariableAttribute) -> bool {
        true
    }

    open spec fn encode_json(m: VariableAttribute) -> Json {
        Json::Str(m.name())
    }

    open spec fn decode_json(j: Json) -> Result<VariableAttribute, DecodeErrorView> {
        match j {
            Json::Str(s) => match VariableAttribute::named(s) {
                Some(x) => Ok(x),
                None => Err(DecodeErrorView::InvalidType),
            },
            _ => Err(DecodeErrorView::InvalidType),
        }
    }

    fn to_value(&self) -> (r: serde_json::Value) {
        value_string(self.as_str().to_owned())
    }

    fn from_value(v: &serde_json::Value) -> (r: Result<VariableAttribute, DecodeError>) {
        match value_as_str(v) {
            Some(s) => match VariableAttribute::from_name(s) {
                Some(x) => Ok(x),
                None => Err(DecodeError::InvalidType),
            },
            None => Err(DecodeError::InvalidType),
        }
    }

    proof fn lemma_round_trip(m: VariableAttribute) {
        m.lemma_named();
    }
}

#[derive(Clone, Copy, Debug, PartialEq, Eq, Structural)]
pub enum VariableVisibility {
    Public,
    Private,
    Protected,
    Internal,
    Final,
}

impl VariableVisibility {
    /// The name under which the value travels.
    pub open spec fn name(self) -> Seq<char> {
        match self {
            VariableVisibility::Public => "public"@,
            VariableVisibility::Private => "private"@,
            VariableVisibility::Protected => "protected"@,
            VariableVisibility::Internal => "internal"@,
            VariableVisibility::Final => "final"@,
        }
    }

    /// The value that travels under `s`, if there is one.
    pub open spec fn named(s: Seq<char>) -> Option<VariableVisibility> {
        if s == "public"@ {
            Some(VariableVisibility::Public)
        } else if s == "private"@ {
            Some(VariableVisibility::Private)
        } else if s == "protected"@ {
            Some(VariableVisibility::Protected)
        } else if s == "internal"@ {
            Some(VariableVisibility::Internal)
        } else if s == "final"@ {
            Some(VariableVisibility::Final)
        } else {
            None
        }
    }

    pub fn as_str(&self) -> (r: &'static str)
        ensures
            r@ == self.name(),
    {
        match self {
            VariableVisibility::Public => "public",
            VariableVisibility::Private => "private",
            VariableVisibility::Protected => "protected",
            VariableVisibility::Internal => "internal",
            VariableVisibility::Final => "final",
        }
    }

    pub fn from_name(s: &str) -> (r: Option<VariableVisibility>)
        ensures
            r == VariableVisibility::named(s@),
    {
        if str_eq(s, "public") {
            Some(VariableVisibility::Public)
        } else if str_eq(s, "private") {
            Some(VariableVisibility::Private)
        } else if str_eq(s, "protected") {
            Some(VariableVisibility::Protected)
        } else if str_eq(s, "internal") {
            Some(VariableVisibility::Internal)
        } else if str_eq(s, "final") {
            Some(VariableVisibility::Final)
        } else {
            None
        }
    }

    /// Every value is found again under its name.
    pub proof fn lemma_named(self)
        ensures
            VariableVisibility::named(self.name()) == Some(self),
    {
        reveal_strlit("public");
        reveal_strlit("private");
        reveal_strlit("protected");
        reveal_strlit("internal");
        reveal_strlit("final");
        assert("public"@.len() == 6);
        assert("private"@.len() == 7);
        assert("protected"@.len() == 9);
        assert("internal"@.len() == 8);
        assert("final"@.len() == 5);
    }
}

impl Wire for VariableVisibility {
    type Model = VariableVisibility;

    open spec fn model(&self) -> VariableVisibility {
        *self
    }

    open spec fn wire_ok(m: VariableVisibility) -> bool {
        true
    }

    open spec fn encode_json(m: VariableVisibility) -> Json {
        Json::Str(m.name())
    }

    open spec fn decode_json(j: Json) -> Result<VariableVisibility, DecodeErrorView> {
        match j {
            Json::Str(s) => match VariableVisibility::named(s) {
                Some(x) => Ok(x),
                None => Err(DecodeErrorView::InvalidType),
            },
            _ => Err(DecodeErrorView::InvalidType),
        }
    }

    fn to_value(&self) -> (r: serde_json::Value) {
        value_string(self.as_str().to_owned())
    }

    fn from_value(v: &serde_json::Value) -> (r: Result<VariableVisibility, DecodeError>) {
        match value_as_str(v) {
            Some(s) => match VariableVisibility::from_name(s) {
                Some(x) => Ok(x),
                None => Err(DecodeError::InvalidType),
            },
            None => Err(DecodeError::InvalidType),
        }
    }

    proof fn lemma_round_trip(m: VariableVisibility) {
        m.lemma_named();
    }
}

} // verus!
