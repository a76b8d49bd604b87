use crate::ProtocolMessageContent;
use crate::dictionary::{get_entries, put_entries, Dictionary};
use crate::error::{DecodeError, DecodeErrorView};
use crate::json::{
    empty_object, field, json_model, object_append, object_get, object_model, object_new,
    object_remove, str_eq, value_as_object, value_as_str, value_object, value_string, Json,
    JsonObject,
};
use crate::table::{
    discard, distinct, extend, lemma_discard_absent, lemma_discard_both, lemma_discard_concat,
    lemma_extend_fresh, lemma_place, lemma_store_discard, lemma_store_names, lookup, names_among,
    place, store, Table,
};
use crate::types::{
    DataBreakpoint, DataBreakpointView, ExceptionFilterOptions, ExceptionFilterOptionsView,
    ExceptionOptions, ExceptionOptionsView, FunctionBreakpoint, FunctionBreakpointView,
    InstructionBreakpoint, InstructionBreakpointView, Source, SourceBreakpoint,
    SourceBreakpointView, SourceView, StackFrameFormat, SteppingGranularity, ValueFormat,
};
use crate::wire::{
    default_field, get_opt, get_or, get_or_empty, get_req, group_field_rules, opt_field, put,
    put_flag, put_nonempty, put_nonzero, put_opt, put_str, put_unless, req_field, with_field,
    with_nondefault_field, with_opt_field, Defaults, Record, Wire,
};
use vstd::prelude::*;

verus! {

/// A client or debug adapter initiated request.
#[derive(Clone, Debug, PartialEq, Eq)]
pub enum Request {
    /// The attach request is sent from the client to the debug adapter to attach to a debuggee that is already running.
    ///
    /// Since attaching is debugger/runtime specific, the arguments for this request are not part of this specification.
    Attach(AttachRequestArguments),

    /// The 'breakpointLocations' request returns all possible locations for source breakpoints in a given range.
    ///
    /// Clients should only call this request if the capability 'supportsBreakpointLocationsRequest' is true.
    BreakpointLocations(BreakpointLocationsRequestArguments),

    /// The 'cancel' request is used by the frontend in two situations:
    ///
    /// - to indicate that it is no longer interested in the result produced by a specific request issued earlier
    ///
    /// - to cancel a progress sequence. Clients should only call this request if the capability 'supportsCancelRequest' is true.
    ///
    /// This request has a hint characteristic: a debug adapter can only be expected to make a 'best effort' in honouring this request but there are no guarantees.
    ///
    /// The 'cancel' request may return an error if it could not cancel an operation but a frontend should refrain from presenting this error to end users.
    ///
    /// A frontend client should only call this request if the capability 'supportsCancelRequest' is true.
    ///
    /// The request that got canceled still needs to send a response back. This can either be a normal result ('success' attribute true)
    ///
    /// or an error response ('success' attribute false and the 'message' set to 'cancelled').
    ///
    /// Returning partial results from a cancelled request is possible but please note that a frontend client has no generic way for detecting that a response is partial or not.
    ///
    ///  The progress that got cancelled still needs to send a 'progressEnd' event back.
    ///
    ///  A client should not assume that progress just got cancelled after sending the 'cancel' request.
    Cancel(CancelRequestArguments),

    /// Returns a list of possible completions for a given caret position and text.
    ///
    /// Clients should only call this request if the capability 'supportsCompletionsRequest' is true.
    Completions(CompletionsRequestArguments),

    /// This optional request indicates that the client has finished initialization of the debug adapter.
    ///
    /// So it is the last request in the sequence of configuration requests (which was started by the 'initialized' event).
    ///
    /// Clients should only call this request if the capability 'supportsConfigurationDoneRequest' is true.
    ConfigurationDone,

    /// The request starts the debuggee to run again.
    Continue(ContinueRequestArguments),

    /// Obtains information on a possible data breakpoint that could be set on an expression or variable.
    ///
    /// Clients should only call this request if the capability 'supportsDataBreakpoints' is true.
    DataBreakpointInfo(DataBreakpointInfoRequestArguments),

    /// Disassembles code stored at the provided location.
    ///
    /// Clients should only call this request if the capability 'supportsDisassembleRequest' is true.
    Disassemble(DisassembleRequestArguments),

    /// The 'disconnect' request is sent from the client to the debug adapter in order to stop debugging.
    ///
    /// It asks the debug adapter to disconnect from the debuggee and to terminate the debug adapter.
    ///
    /// If the debuggee has been started with the 'launch' request, the 'disconnect' request terminates the debuggee.
    ///
    /// If the 'attach' request was used to connect to the debuggee, 'disconnect' does not terminate the debuggee.
    ///
    /// This behavior can be controlled with the 'terminateDebuggee' argument (if supported by the debug adapter).
    Disconnect(DisconnectRequestArguments),

    /// Evaluates the given expression in the context of the top most stack frame.
    ///
    /// The expression has access to any variables and arguments that are in scope.
    Evaluate(EvaluateRequestArguments),

    /// Retrieves the details of the exception that caused this event to be raised.
    ///
    /// Clients should only call this request if the capability 'supportsExceptionInfoRequest' is true.
    ExceptionInfo(ExceptionInfoRequestArguments),

    /// The request sets the location where the debuggee will continue to run.
    ///
    /// This makes it possible to skip the execution of code or to executed code again.
    ///
    /// The code between the current location and the goto target is not executed but skipped.
    ///
    /// The debug adapter first sends the response and then a 'stopped' event with reason 'goto'.
    ///
    /// Clients should only call this request if the capability 'supportsGotoTargetsRequest' is true (because only then goto targets exist that can be passed as arguments).
    Goto(GotoRequestArguments),

    /// This request retrieves the possible goto targets for the specified source location.
    ///
    /// These targets can be used in the 'goto' request.
    ///
    /// Clients should only call this request if the capability 'supportsGotoTargetsRequest' is true.
    GotoTargets(GotoTargetsRequestArguments),

    /// The 'initialize' request is sent as the first request from the client to the debug adapter
    ///
    /// in order to configure it with client capabilities and to retrieve capabilities from the debug adapter.
    ///
    /// Until the debug adapter has responded to with an 'initialize' response, the client must not send any additional requests or events to the debug adapter.
    ///
    /// In addition the debug adapter is not allowed to send any requests or events to the client until it has responded with an 'initialize' response.
    ///
    /// The 'initialize' request may only be sent once.
    Initialize(InitializeRequestArguments),

    /// This launch request is sent from the client to the debug adapter to start the debuggee with or without debugging (if 'noDebug' is true).
    ///
    /// Since launching is debugger/runtime specific, the arguments for this request are not part of this specification.
    Launch(LaunchRequestArguments),

    /// Retrieves the set of all sources currently loaded by the debugged process.
    ///
    /// Clients should only call this request if the capability 'supportsLoadedSourcesRequest' is true.
    LoadedSources,

    /// Modules can be retrieved from the debug adapter with this request which can either return all modules or a range of modules to support paging.
    ///
    /// Clients should only call this request if the capability 'supportsModulesRequest' is true.
    Modules(ModulesRequestArguments),

    /// The request starts the debuggee to run again for one step.
    ///
    /// The debug adapter first sends the response and then a 'stopped' event (with reason 'step') after the step has completed.
    Next(NextRequestArguments),

    /// The request suspends the debuggee.
    ///
    /// The debug adapter first sends the response and then a 'stopped' event (with reason 'pause') after the thread has been paused successfully.
    Pause(PauseRequestArguments),

    /// Reads bytes from memory at the provided location.
    ///
    /// Clients should only call this request if the capability 'supportsReadMemoryRequest' is true.
    ReadMemory(ReadMemoryRequestArguments),

    /// The request restarts execution of the specified stackframe.
    ///
    /// The debug adapter first sends the response and then a 'stopped' event (with reason 'restart') after the restart has completed.
    ///
    /// Clients should only call this request if the capability 'supportsRestartFrame' is true.
    RestartFrame(RestartFrameRequestArguments),

    /// The request starts the debuggee to run backward.
    ///
    /// Clients should only call this request if the capability 'supportsStepBack' is true.
    ReverseContinue(ReverseContinueRequestArguments),

    /// This optional request is sent from the debug adapter to the client to run a command in a terminal.
    ///
    /// This is typically used to launch the debuggee in a terminal provided by the client.
    ///
    /// This request should only be called if the client has passed the value true for the 'supportsRunInTerminalRequest' capability of the 'initialize' request.
    RunInTerminal(RunInTerminalRequestArguments),

    /// The request returns the variable scopes for a given stackframe ID.
    Scopes(ScopesRequestArguments),

    /// Sets multiple breakpoints for a single source and clears all previous breakpoints in that source.
    ///
    /// To clear all breakpoint for a source, specify an empty array.
    ///
    /// When a breakpoint is hit, a 'stopped' event (with reason 'breakpoint') is generated.
    SetBreakpoints(SetBreakpointsRequestArguments),

    /// Replaces all existing data breakpoints with new data breakpoints.
    ///
    /// To clear all data breakpoints, specify an empty array.
    ///
    /// When a data breakpoint is hit, a 'stopped' event (with reason 'data breakpoint') is generated.
    ///
    /// Clients should only call this request if the capability 'supportsDataBreakpoints' is true.
    SetDataBreakpoints(SetDataBreakpointsRequestArguments),

    /// The request configures the debuggers response to thrown exceptions.
    ///
    /// If an exception is configured to break, a 'stopped' event is fired (with reason 'exception').
    ///
    /// Clients should only call this request if the capability 'exceptionBreakpointFilters' returns one or more filters.
    SetExceptionBreakpoints(SetExceptionBreakpointsRequestArguments),

    /// Evaluates the given 'value' expression and assigns it to the 'expression' which must be a modifiable l-value.
    ///
    /// The expressions have access to any variables and arguments that are in scope of the specified frame.
    ///
    /// Clients should only call this request if the capability 'supportsSetExpression' is true.
    ///
    /// If a debug adapter implements both setExpression and setVariable, a client will only use setExpression if the variable has an evaluateName property.
    SetExpression(SetExpressionRequestArguments),

    /// Replaces all existing function breakpoints with new function breakpoints.
    ///
    /// To clear all function breakpoints, specify an empty array.
    ///
    /// When a function breakpoint is hit, a 'stopped' event (with reason 'function breakpoint') is generated.
    ///
    /// Clients should only call this request if the capability 'supportsFunctionBreakpoints' is true.
    SetFunctionBreakpoints(SetFunctionBreakpointsRequestArguments),

    /// Replaces all existing instruction breakpoints. Typically, instruction breakpoints would be set from a diassembly window.
    ///
    /// To clear all instruction breakpoints, specify an empty array.
    ///
    /// When an instruction breakpoint is hit, a 'stopped' event (with reason 'instruction breakpoint') is generated.
    ///
    /// Clients should only call this request if the capability 'supportsInstructionBreakpoints' is true.
    SetInstructionBreakpoints(SetInstructionBreakpointsRequestArguments),

    /// Set the variable with the given name in the variable container to a new value. Clients should only call this request if the capability 'supportsSetVariable' is true.
    ///
    /// If a debug adapter implements both setVariable and setExpression, a client will only use setExpression if the variable has an evaluateName property.
    SetVariable(SetVariableRequestArguments),

    /// The request retrieves the source code for a given source reference.
    Source(SourceRequestArguments),

    /// The request returns a stacktrace from the current execution state of a given thread.
    ///
    /// A client can request all stack frames by omitting the startFrame and levels arguments. For performance conscious clients and if the debug adapter's 'supportsDelayedStackTraceLoading' capability is true, stack frames can be retrieved in a piecemeal way with the startFrame and levels arguments. The response of the stackTrace request may contain a totalFrames property that hints at the total number of frames in the stack. If a client needs this total number upfront, it can issue a request for a single (first) frame and depending on the value of totalFrames decide how to proceed. In any case a client should be prepared to receive less frames than requested, which is an indication that the end of the stack has been reached.
    StackTrace(StackTraceRequestArguments),

    /// The request starts the debuggee to run one step backwards.
    ///
    /// The debug adapter first sends the response and then a 'stopped' event (with reason 'step') after the step has completed.
    ///
    /// Clients should only call this request if the capability 'supportsStepBack' is true.
    StepBack(StepBackRequestArguments),

    /// The request starts the debuggee to step into a function/method if possible.
    ///
    /// If it cannot step into a target, 'stepIn' behaves like 'next'.
    ///
    /// The debug adapter first sends the response and then a 'stopped' event (with reason 'step') after the step has completed.
    ///
    /// If there are multiple function/method calls (or other targets) on the source line,
    ///
    /// the optional argument 'targetId' can be used to control into which target the 'stepIn' should occur.
    ///
    /// The list of possible targets for a given source line can be retrieved via the 'stepInTargets' request.
    StepIn(StepInRequestArguments),

    /// This request retrieves the possible stepIn targets for the specified stack frame.
    ///
    /// These targets can be used in the 'stepIn' request.
    ///
    /// The StepInTargets may only be called if the 'supportsStepInTargetsRequest' capability exists and is true.
    ///
    /// Clients should only call this request if the capability 'supportsStepInTargetsRequest' is true.
    StepInTargets(StepInTargetsRequestArguments),

    /// The request starts the debuggee to run again for one step.
    ///
    /// The debug adapter first sends the response and then a 'stopped' event (with reason 'step') after the step has completed.
    StepOut(StepOutRequestArguments),

    /// The 'terminate' request is sent from the client to the debug adapter in order to give the debuggee a chance for terminating itself.
    ///
    /// Clients should only call this request if the capability 'supportsTerminateRequest' is true.
    Terminate(TerminateRequestArguments),

    /// The request terminates the threads with the given ids.
    ///
    /// Clients should only call this request if the capability 'supportsTerminateThreadsRequest' is true.
    TerminateThreads(TerminateThreadsRequestArguments),

    /// The request retrieves a list of all threads.
    Threads,

    /// Retrieves all child variables for the given variable reference.
    ///
    /// An optional filter can be used to limit the fetched children to either named or indexed children.
    Variables(VariablesRequestArguments),
}

/// The mathematical content of a [`Request`].
pub enum RequestView {
    Attach(AttachRequestArgumentsView),
    BreakpointLocations(BreakpointLocationsRequestArgumentsView),
    Cancel(CancelRequestArgumentsView),
    Completions(CompletionsRequestArgumentsView),
    ConfigurationDone,
    Continue(ContinueRequestArguments),
    DataBreakpointInfo(DataBreakpointInfoRequestArgumentsView),
    Disassemble(DisassembleRequestArgumentsView),
    Disconnect(DisconnectRequestArguments),
    Evaluate(EvaluateRequestArgumentsView),
    ExceptionInfo(ExceptionInfoRequestArguments),
    Goto(GotoRequestArguments),
    GotoTargets(GotoTargetsRequestArgumentsView),
    Initialize(InitializeRequestArgumentsView),
    Launch(LaunchRequestArgumentsView),
    LoadedSources,
    Modules(ModulesRequestArguments),
    Next(NextRequestArguments),
    Pause(PauseRequestArguments),
    ReadMemory(ReadMemoryRequestArgumentsView),
    RestartFrame(RestartFrameRequestArguments),
    ReverseContinue(ReverseContinueRequestArguments),
    RunInTerminal(RunInTerminalRequestArgumentsView),
    Scopes(ScopesRequestArguments),
    SetBreakpoints(SetBreakpointsRequestArgumentsView),
    SetDataBreakpoints(SetDataBreakpointsRequestArgumentsView),
    SetExceptionBreakpoints(SetExceptionBreakpointsRequestArgumentsView),
    SetExpression(SetExpressionRequestArgumentsView),
    SetFunctionBreakpoints(SetFunctionBreakpointsRequestArgumentsView),
    SetInstructionBreakpoints(SetInstructionBreakpointsRequestArgumentsView),
    SetVariable(SetVariableRequestArgumentsView),
    Source(SourceRequestArgumentsView),
    StackTrace(StackTraceRequestArguments),
    StepBack(StepBackRequestArguments),
    StepIn(StepInRequestArguments),
    StepInTargets(StepInTargetsRequestArguments),
    StepOut(StepOutRequestArguments),
    Terminate(TerminateRequestArguments),
    TerminateThreads(TerminateThreadsRequestArgumentsView),
    Threads,
    Variables(VariablesRequestArguments),
}

impl View for Request {
    type V = RequestView;

    open spec fn view(&self) -> RequestView {
        match self {
            Request::Attach(x) => RequestView::Attach(x.model()),
            Request::BreakpointLocations(x) => RequestView::BreakpointLocations(x.model()),
            Request::Cancel(x) => RequestView::Cancel(x.model()),
            Request::Completions(x) => RequestView::Completions(x.model()),
            Request::ConfigurationDone => RequestView::ConfigurationDone,
            Request::Continue(x) => RequestView::Continue(x.model()),
            Request::DataBreakpointInfo(x) => RequestView::DataBreakpointInfo(x.model()),
            Request::Disassemble(x) => RequestView::Disassemble(x.model()),
            Request::Disconnect(x) => RequestView::Disconnect(x.model()),
            Request::Evaluate(x) => RequestView::Evaluate(x.model()),
            Request::ExceptionInfo(x) => RequestView::ExceptionInfo(x.model()),
            Request::Goto(x) => RequestView::Goto(x.model()),
            Request::GotoTargets(x) => RequestView::GotoTargets(x.model()),
            Request::Initialize(x) => RequestView::Initialize(x.model()),
            Request::Launch(x) => RequestView::Launch(x.model()),
            Request::LoadedSources => RequestView::LoadedSources,
            Request::Modules(x) => RequestView::Modules(x.model()),
            Request::Next(x) => RequestView::Next(x.model()),
            Request::Pause(x) => RequestView::Pause(x.model()),
            Request::ReadMemory(x) => RequestView::ReadMemory(x.model()),
            Request::RestartFrame(x) => RequestView::RestartFrame(x.model()),
            Request::ReverseContinue(x) => RequestView::ReverseContinue(x.model()),
            Request::RunInTerminal(x) => RequestView::RunInTerminal(x.model()),
            Request::Scopes(x) => RequestView::Scopes(x.model()),
            Request::SetBreakpoints(x) => RequestView::SetBreakpoints(x.model()),
            Request::SetDataBreakpoints(x) => RequestView::SetDataBreakpoints(x.model()),
            Request::SetExceptionBreakpoints(x) => RequestView::SetExceptionBreakpoints(x.model()),
            Request::SetExpression(x) => RequestView::SetExpression(x.model()),
            Request::SetFunctionBreakpoints(x) => RequestView::SetFunctionBreakpoints(x.model()),
            Request::SetInstructionBreakpoints(x) => RequestView::SetInstructionBreakpoints(x.model()),
            Request::SetVariable(x) => RequestView::SetVariable(x.model()),
            Request::Source(x) => RequestView::Source(x.model()),
            Request::StackTrace(x) => RequestView::StackTrace(x.model()),
            Request::StepBack(x) => RequestView::StepBack(x.model()),
            Request::StepIn(x) => RequestView::StepIn(x.model()),
            Request::StepInTargets(x) => RequestView::StepInTargets(x.model()),
            Request::StepOut(x) => RequestView::StepOut(x.model()),
            Request::Terminate(x) => RequestView::Terminate(x.model()),
            Request::TerminateThreads(x) => RequestView::TerminateThreads(x.model()),
            Request::Threads => RequestView::Threads,
            Request::Variables(x) => RequestView::Variables(x.model()),
        }
    }
}

impl Request {
    /// The command name of a value.
    pub open spec fn tag(m: RequestView) -> Seq<char> {
        match m {
            RequestView::Attach(_) => "attach"@,
            RequestView::BreakpointLocations(_) => "breakpointLocations"@,
            RequestView::Cancel(_) => "cancel"@,
            RequestView::Completions(_) => "completions"@,
            RequestView::ConfigurationDone => "configurationDone"@,
            RequestView::Continue(_) => "continue"@,
            RequestView::DataBreakpointInfo(_) => "dataBreakpointInfo"@,
            RequestView::Disassemble(_) => "disassemble"@,
            RequestView::Disconnect(_) => "disconnect"@,
            RequestView::Evaluate(_) => "evaluate"@,
            RequestView::ExceptionInfo(_) => "exceptionInfo"@,
            RequestView::Goto(_) => "goto"@,
            RequestView::GotoTargets(_) => "gotoTargets"@,
            RequestView::Initialize(_) => "initialize"@,
            RequestView::Launch(_) => "launch"@,
            RequestView::LoadedSources => "loadedSources"@,
            RequestView::Modules(_) => "modules"@,
            RequestView::Next(_) => "next"@,
            RequestView::Pause(_) => "pause"@,
            RequestView::ReadMemory(_) => "readMemory"@,
            RequestView::RestartFrame(_) => "restartFrame"@,
            RequestView::ReverseContinue(_) => "reverseContinue"@,
            RequestView::RunInTerminal(_) => "runInTerminal"@,
            RequestView::Scopes(_) => "scopes"@,
            RequestView::SetBreakpoints(_) => "setBreakpoints"@,
            RequestView::SetDataBreakpoints(_) => "setDataBreakpoints"@,
            RequestView::SetExceptionBreakpoints(_) => "setExceptionBreakpoints"@,
            RequestView::SetExpression(_) => "setExpression"@,
            RequestView::SetFunctionBreakpoints(_) => "setFunctionBreakpoints"@,
            RequestView::SetInstructionBreakpoints(_) => "setInstructionBreakpoints"@,
            RequestView::SetVariable(_) => "setVariable"@,
            RequestView::Source(_) => "source"@,
            RequestView::StackTrace(_) => "stackTrace"@,
            RequestView::StepBack(_) => "stepBack"@,
            RequestView::StepIn(_) => "stepIn"@,
            RequestView::StepInTargets(_) => "stepInTargets"@,
            RequestView::StepOut(_) => "stepOut"@,
            RequestView::Terminate(_) => "terminate"@,
            RequestView::TerminateThreads(_) => "terminateThreads"@,
            RequestView::Threads => "threads"@,
            RequestView::Variables(_) => "variables"@,
        }
    }

    /// The command names of the catalog.
    pub open spec fn tags() -> Set<Seq<char>> {
        set![
            "attach"@,
            "breakpointLocations"@,
            "cancel"@,
            "completions"@,
            "configurationDone"@,
            "continue"@,
            "dataBreakpointInfo"@,
            "disassemble"@,
            "disconnect"@,
            "evaluate"@,
            "exceptionInfo"@,
            "goto"@,
            "gotoTargets"@,
            "initialize"@,
            "launch"@,
            "loadedSources"@,
            "modules"@,
            "next"@,
            "pause"@,
            "readMemory"@,
            "restartFrame"@,
            "reverseContinue"@,
            "runInTerminal"@,
            "scopes"@,
            "setBreakpoints"@,
            "setDataBreakpoints"@,
            "setExceptionBreakpoints"@,
            "setExpression"@,
            "setFunctionBreakpoints"@,
            "setInstructionBreakpoints"@,
            "setVariable"@,
            "source"@,
            "stackTrace"@,
            "stepBack"@,
            "stepIn"@,
            "stepInTargets"@,
            "stepOut"@,
            "terminate"@,
            "terminateThreads"@,
            "threads"@,
            "variables"@,
        ]
    }

    /// The place of a command name in the catalog, and the size of the catalog for
    /// any other text.
    #[verifier::opaque]
    pub open spec fn tag_index(tag: Seq<char>) -> int {
        if tag == "attach"@ {
            0
        } else if tag == "breakpointLocations"@ {
            1
        } else if tag == "cancel"@ {
            2
        } else if tag == "completions"@ {
            3
        } else if tag == "configurationDone"@ {
            4
        } else if tag == "continue"@ {
            5
        } else if tag == "dataBreakpointInfo"@ {
            6
        } else if tag == "disassemble"@ {
            7
        } else if tag == "disconnect"@ {
            8
        } else if tag == "evaluate"@ {
            9
        } else if tag == "exceptionInfo"@ {
            10
        } else if tag == "goto"@ {
            11
        } else if tag == "gotoTargets"@ {
            12
        } else if tag == "initialize"@ {
            13
        } else if tag == "launch"@ {
            14
        } else if tag == "loadedSources"@ {
            15
        } else if tag == "modules"@ {
            16
        } else if tag == "next"@ {
            17
        } else if tag == "pause"@ {
            18
        } else if tag == "readMemory"@ {
            19
        } else if tag == "restartFrame"@ {
            20
        } else if tag == "reverseContinue"@ {
            21
        } else if tag == "runInTerminal"@ {
            22
        } else if tag == "scopes"@ {
            23
        } else if tag == "setBreakpoints"@ {
            24
        } else if tag == "setDataBreakpoints"@ {
            25
        } else if tag == "setExceptionBreakpoints"@ {
            26
        } else if tag == "setExpression"@ {
            27
        } else if tag == "setFunctionBreakpoints"@ {
            28
        } else if tag == "setInstructionBreakpoints"@ {
            29
        } else if tag == "setVariable"@ {
            30
        } else if tag == "source"@ {
            31
        } else if tag == "stackTrace"@ {
            32
        } else if tag == "stepBack"@ {
            33
        } else if tag == "stepIn"@ {
            34
        } else if tag == "stepInTargets"@ {
            35
        } else if tag == "stepOut"@ {
            36
        } else if tag == "terminate"@ {
            37
        } else if tag == "terminateThreads"@ {
            38
        } else if tag == "threads"@ {
            39
        } else if tag == "variables"@ {
            40
        } else {
            41
        }
    }

    /// Each command name has a place of its own, so no two are the same text.
    pub proof fn lemma_tag_index()
        ensures
            Request::tag_index("attach"@) == 0,
            Request::tag_index("breakpointLocations"@) == 1,
            Request::tag_index("cancel"@) == 2,
            Request::tag_index("completions"@) == 3,
            Request::tag_index("configurationDone"@) == 4,
            Request::tag_index("continue"@) == 5,
            Request::tag_index("dataBreakpointInfo"@) == 6,
            Request::tag_index("disassemble"@) == 7,
            Request::tag_index("disconnect"@) == 8,
            Request::tag_index("evaluate"@) == 9,
            Request::tag_index("exceptionInfo"@) == 10,
            Request::tag_index("goto"@) == 11,
            Request::tag_index("gotoTargets"@) == 12,
            Request::tag_index("initialize"@) == 13,
            Request::tag_index("launch"@) == 14,
            Request::tag_index("loadedSources"@) == 15,
            Request::tag_index("modules"@) == 16,
            Request::tag_index("next"@) == 17,
            Request::tag_index("pause"@) == 18,
            Request::tag_index("readMemory"@) == 19,
            Request::tag_index("restartFrame"@) == 20,
            Request::tag_index("reverseContinue"@) == 21,
            Request::tag_index("runInTerminal"@) == 22,
            Request::tag_index("scopes"@) == 23,
            Request::tag_index("setBreakpoints"@) == 24,
            Request::tag_index("setDataBreakpoints"@) == 25,
            Request::tag_index("setExceptionBreakpoints"@) == 26,
            Request::tag_index("setExpression"@) == 27,
            Request::tag_index("setFunctionBreakpoints"@) == 28,
            Request::tag_index("setInstructionBreakpoints"@) == 29,
            Request::tag_index("setVariable"@) == 30,
            Request::tag_index("source"@) == 31,
            Request::tag_index("stackTrace"@) == 32,
            Request::tag_index("stepBack"@) == 33,
            Request::tag_index("stepIn"@) == 34,
            Request::tag_index("stepInTargets"@) == 35,
            Request::tag_index("stepOut"@) == 36,
            Request::tag_index("terminate"@) == 37,
            Request::tag_index("terminateThreads"@) == 38,
            Request::tag_index("threads"@) == 39,
            Request::tag_index("variables"@) == 40,
    {
        reveal(Request::tag_index);
        reveal_strlit("attach");
        reveal_strlit("breakpointLocations");
        reveal_strlit("cancel");
        reveal_strlit("completions");
        reveal_strlit("configurationDone");
        reveal_strlit("continue");
        reveal_strlit("dataBreakpointInfo");
        reveal_strlit("disassemble");
        reveal_strlit("disconnect");
        reveal_strlit("evaluate");
        reveal_strlit("exceptionInfo");
        reveal_strlit("goto");
        reveal_strlit("gotoTargets");
        reveal_strlit("initialize");
        reveal_strlit("launch");
        reveal_strlit("loadedSources");
        reveal_strlit("modules");
        reveal_strlit("next");
        reveal_strlit("pause");
        reveal_strlit("readMemory");
        reveal_strlit("restartFrame");
        reveal_strlit("reverseContinue");
        reveal_strlit("runInTerminal");
        reveal_strlit("scopes");
        reveal_strlit("setBreakpoints");
        reveal_strlit("setDataBreakpoints");
        reveal_strlit("setExceptionBreakpoints");
        reveal_strlit("setExpression");
        reveal_strlit("setFunctionBreakpoints");
        reveal_strlit("setInstructionBreakpoints");
        reveal_strlit("setVariable");
        reveal_strlit("source");
        reveal_strlit("stackTrace");
        reveal_strlit("stepBack");
        reveal_strlit("stepIn");
        reveal_strlit("stepInTargets");
        reveal_strlit("stepOut");
        reveal_strlit("terminate");
        reveal_strlit("terminateThreads");
        reveal_strlit("threads");
        reveal_strlit("variables");
        assert("attach"@.len() == 6);
        assert("breakpointLocations"@.len() == 19);
        assert("cancel"@.len() == 6);
        assert("completions"@.len() == 11);
        assert("configurationDone"@.len() == 17);
        assert("continue"@.len() == 8);
        assert("dataBreakpointInfo"@.len() == 18);
        assert("disassemble"@.len() == 11);
        assert("disconnect"@.len() == 10);
        assert("evaluate"@.len() == 8);
        assert("exceptionInfo"@.len() == 13);
        assert("goto"@.len() == 4);
        assert("gotoTargets"@.len() == 11);
        assert("initialize"@.len() == 10);
        assert("launch"@.len() == 6);
        assert("loadedSources"@.len() == 13);
        assert("modules"@.len() == 7);
        assert("next"@.len() == 4);
        assert("pause"@.len() == 5);
        assert("readMemory"@.len() == 10);
        assert("restartFrame"@.len() == 12);
        assert("reverseContinue"@.len() == 15);
        assert("runInTerminal"@.len() == 13);
        assert("scopes"@.len() == 6);
        assert("setBreakpoints"@.len() == 14);
        assert("setDataBreakpoints"@.len() == 18);
        assert("setExceptionBreakpoints"@.len() == 23);
        assert("setExpression"@.len() == 13);
        assert("setFunctionBreakpoints"@.len() == 22);
        assert("setInstructionBreakpoints"@.len() == 25);
        assert("setVariable"@.len() == 11);
        assert("source"@.len() == 6);
        assert("stackTrace"@.len() == 10);
        assert("stepBack"@.len() == 8);
        assert("stepIn"@.len() == 6);
        assert("stepInTargets"@.len() == 13);
        assert("stepOut"@.len() == 7);
        assert("terminate"@.len() == 9);
        assert("terminateThreads"@.len() == 16);
        assert("threads"@.len() == 7);
        assert("variables"@.len() == 9);
        assert("attach"@[0] != "cancel"@[0]);
        assert("attach"@[0] != "launch"@[0]);
        assert("attach"@[0] != "scopes"@[0]);
        assert("attach"@[0] != "source"@[0]);
        assert("attach"@[0] != "stepIn"@[0]);
        assert("cancel"@[0] != "launch"@[0]);
        assert("cancel"@[0] != "scopes"@[0]);
        assert("cancel"@[0] != "source"@[0]);
        assert("cancel"@[0] != "stepIn"@[0]);
        assert("completions"@[0] != "disassemble"@[0]);
        assert("completions"@[0] != "gotoTargets"@[0]);
        assert("completions"@[0] != "setVariable"@[0]);
        assert("continue"@[0] != "evaluate"@[0]);
        assert("continue"@[0] != "stepBack"@[0]);
        assert("dataBreakpointInfo"@[0] != "setDataBreakpoints"@[0]);
        assert("disassemble"@[0] != "gotoTargets"@[0]);
        assert("disassemble"@[0] != "setVariable"@[0]);
        assert("disconnect"@[0] != "initialize"@[0]);
        assert("disconnect"@[0] != "readMemory"@[0]);
        assert("disconnect"@[0] != "stackTrace"@[0]);
        assert("evaluate"@[0] != "stepBack"@[0]);
        assert("exceptionInfo"@[0] != "loadedSources"@[0]);
        assert("exceptionInfo"@[0] != "runInTerminal"@[0]);
        assert("exceptionInfo"@[0] != "setExpression"@[0]);
        assert("exceptionInfo"@[0] != "stepInTargets"@[0]);
        assert("goto"@[0] != "next"@[0]);
        assert("gotoTargets"@[0] != "setVariable"@[0]);
        assert("initialize"@[0] != "readMemory"@[0]);
        assert("initialize"@[0] != "stackTrace"@[0]);
        assert("launch"@[0] != "scopes"@[0]);
        assert("launch"@[0] != "source"@[0]);
        assert("launch"@[0] != "stepIn"@[0]);
        assert("loadedSources"@[0] != "runInTerminal"@[0]);
        assert("loadedSources"@[0] != "setExpression"@[0]);
        assert("loadedSources"@[0] != "stepInTargets"@[0]);
        assert("modules"@[0] != "stepOut"@[0]);
        assert("modules"@[0] != "threads"@[0]);
        assert("readMemory"@[0] != "stackTrace"@[0]);
        assert("runInTerminal"@[0] != "setExpression"@[0]);
        assert("runInTerminal"@[0] != "stepInTargets"@[0]);
        assert("scopes"@[1] != "source"@[1]);
        assert("scopes"@[1] != "stepIn"@[1]);
        assert("setExpression"@[1] != "stepInTargets"@[1]);
        assert("source"@[1] != "stepIn"@[1]);
        assert("stepOut"@[0] != "threads"@[0]);
        assert("terminate"@[0] != "variables"@[0]);
    }

    /// The fields that are written for a value: the command name, and the payload
    /// where the request has one.
    pub open spec fn fields(m: RequestView) -> JsonObject {
        let o = with_field::<String>(empty_object(), "command"@, Request::tag(m));
        match m {
            RequestView::Attach(x) => with_field::<AttachRequestArguments>(o, "arguments"@, x),
            RequestView::BreakpointLocations(x) => with_field::<BreakpointLocationsRequestArguments>(o, "arguments"@, x),
            RequestView::Cancel(x) => with_field::<CancelRequestArguments>(o, "arguments"@, x),
            RequestView::Completions(x) => with_field::<CompletionsRequestArguments>(o, "arguments"@, x),
            RequestView::ConfigurationDone => o,
            RequestView::Continue(x) => with_field::<ContinueRequestArguments>(o, "arguments"@, x),
            RequestView::DataBreakpointInfo(x) => with_field::<DataBreakpointInfoRequestArguments>(o, "arguments"@, x),
            RequestView::Disassemble(x) => with_field::<DisassembleRequestArguments>(o, "arguments"@, x),
            RequestView::Disconnect(x) => with_field::<DisconnectRequestArguments>(o, "arguments"@, x),
            RequestView::Evaluate(x) => with_field::<EvaluateRequestArguments>(o, "arguments"@, x),
            RequestView::ExceptionInfo(x) => with_field::<ExceptionInfoRequestArguments>(o, "arguments"@, x),
            RequestView::Goto(x) => with_field::<GotoRequestArguments>(o, "arguments"@, x),
            RequestView::GotoTargets(x) => with_field::<GotoTargetsRequestArguments>(o, "arguments"@, x),
            RequestView::Initialize(x) => with_field::<InitializeRequestArguments>(o, "arguments"@, x),
            RequestView::Launch(x) => with_field::<LaunchRequestArguments>(o, "arguments"@, x),
            RequestView::LoadedSources => o,
            RequestView::Modules(x) => with_field::<ModulesRequestArguments>(o, "arguments"@, x),
            RequestView::Next(x) => with_field::<NextRequestArguments>(o, "arguments"@, x),
            RequestView::Pause(x) => with_field::<PauseRequestArguments>(o, "arguments"@, x),
            RequestView::ReadMemory(x) => with_field::<ReadMemoryRequestArguments>(o, "arguments"@, x),
            RequestView::RestartFrame(x) => with_field::<RestartFrameRequestArguments>(o, "arguments"@, x),
            RequestView::ReverseContinue(x) => with_field::<ReverseContinueRequestArguments>(o, "arguments"@, x),
            RequestView::RunInTerminal(x) => with_field::<RunInTerminalRequestArguments>(o, "arguments"@, x),
            RequestView::Scopes(x) => with_field::<ScopesRequestArguments>(o, "arguments"@, x),
            RequestView::SetBreakpoints(x) => with_field::<SetBreakpointsRequestArguments>(o, "arguments"@, x),
            RequestView::SetDataBreakpoints(x) => with_field::<SetDataBreakpointsRequestArguments>(o, "arguments"@, x),
            RequestView::SetExceptionBreakpoints(x) => with_field::<SetExceptionBreakpointsRequestArguments>(o, "arguments"@, x),
            RequestView::SetExpression(x) => with_field::<SetExpressionRequestArguments>(o, "arguments"@, x),
            RequestView::SetFunctionBreakpoints(x) => with_field::<SetFunctionBreakpointsRequestArguments>(o, "arguments"@, x),
            RequestView::SetInstructionBreakpoints(x) => with_field::<SetInstructionBreakpointsRequestArguments>(o, "arguments"@, x),
            RequestView::SetVariable(x) => with_field::<SetVariableRequestArguments>(o, "arguments"@, x),
            RequestView::Source(x) => with_field::<SourceRequestArguments>(o, "arguments"@, x),
            RequestView::StackTrace(x) => with_field::<StackTraceRequestArguments>(o, "arguments"@, x),
            RequestView::StepBack(x) => with_field::<StepBackRequestArguments>(o, "arguments"@, x),
            RequestView::StepIn(x) => with_field::<StepInRequestArguments>(o, "arguments"@, x),
            RequestView::StepInTargets(x) => with_field::<StepInTargetsRequestArguments>(o, "arguments"@, x),
            RequestView::StepOut(x) => with_field::<StepOutRequestArguments>(o, "arguments"@, x),
            RequestView::Terminate(x) => with_field::<TerminateRequestArguments>(o, "arguments"@, x),
            RequestView::TerminateThreads(x) => with_field::<TerminateThreadsRequestArguments>(o, "arguments"@, x),
            RequestView::Threads => o,
            RequestView::Variables(x) => with_field::<VariablesRequestArguments>(o, "arguments"@, x),
        }
    }

    /// The payload of an object: an empty object where the field is absent.
    pub open spec fn payload(o: JsonObject) -> Json {
        match field(o, "arguments"@) {
            Some(j) => j,
            None => Json::Object(empty_object()),
        }
    }

    /// What a payload decodes to under a command name, which is looked up by its
    /// place in the catalog.
    pub open spec fn decode_tagged(tag: Seq<char>, payload: Json) -> Result<
        RequestView,
        DecodeErrorView,
    > {
        let place = Request::tag_index(tag);
        if place == 0 {
            match AttachRequestArguments::decode_json(payload) {
                Ok(x) => Ok(RequestView::Attach(x)),
                Err(e) => Err(e),
            }
        } else if place == 1 {
            match BreakpointLocationsRequestArguments::decode_json(payload) {
                Ok(x) => Ok(RequestView::BreakpointLocations(x)),
                Err(e) => Err(e),
            }
        } else if place == 2 {
            match CancelRequestArguments::decode_json(payload) {
                Ok(x) => Ok(RequestView::Cancel(x)),
                Err(e) => Err(e),
            }
        } else if place == 3 {
            match CompletionsRequestArguments::decode_json(payload) {
                Ok(x) => Ok(RequestView::Completions(x)),
                Err(e) => Err(e),
            }
        } else if place == 4 {
            Ok(RequestView::ConfigurationDone)
        } else if place == 5 {
            match ContinueRequestArguments::decode_json(payload) {
                Ok(x) => Ok(RequestView::Continue(x)),
                Err(e) => Err(e),
            }
        } else if place == 6 {
            match DataBreakpointInfoRequestArguments::decode_json(payload) {
                Ok(x) => Ok(RequestView::DataBreakpointInfo(x)),
                Err(e) => Err(e),
            }
        } else if place == 7 {
            match DisassembleRequestArguments::decode_json(payload) {
                Ok(x) => Ok(RequestView::Disassemble(x)),
                Err(e) => Err(e),
            }
        } else if place == 8 {
            match DisconnectRequestArguments::decode_json(payload) {
                Ok(x) => Ok(RequestView::Disconnect(x)),
                Err(e) => Err(e),
            }
        } else if place == 9 {
            match EvaluateRequestArguments::decode_json(payload) {
                Ok(x) => Ok(RequestView::Evaluate(x)),
                Err(e) => Err(e),
            }
        } else if place == 10 {
            match ExceptionInfoRequestArguments::decode_json(payload) {
                Ok(x) => Ok(RequestView::ExceptionInfo(x)),
                Err(e) => Err(e),
            }
        } else if place == 11 {
            match GotoRequestArguments::decode_json(payload) {
                Ok(x) => Ok(RequestView::Goto(x)),
                Err(e) => Err(e),
            }
        } else if place == 12 {
            match GotoTargetsRequestArguments::decode_json(payload) {
                Ok(x) => Ok(RequestView::GotoTargets(x)),
                Err(e) => Err(e),
            }
        } else if place == 13 {
            match InitializeRequestArguments::decode_json(payload) {
                Ok(x) => Ok(RequestView::Initialize(x)),
                Err(e) => Err(e),
            }
        } else if place == 14 {
            match LaunchRequestArguments::decode_json(payload) {
                Ok(x) => Ok(RequestView::Launch(x)),
                Err(e) => Err(e),
            }
        } else if place == 15 {
            Ok(RequestView::LoadedSources)
        } else if place == 16 {
            match ModulesRequestArguments::decode_json(payload) {
                Ok(x) => Ok(RequestView::Modules(x)),
                Err(e) => Err(e),
            }
        } else if place == 17 {
            match NextRequestArguments::decode_json(payload) {
                Ok(x) => Ok(RequestView::Next(x)),
                Err(e) => Err(e),
            }
        } else if place == 18 {
            match PauseRequestArguments::decode_json(payload) {
                Ok(x) => Ok(RequestView::Pause(x)),
                Err(e) => Err(e),
            }
        } else if place == 19 {
            match ReadMemoryRequestArguments::decode_json(payload) {
                Ok(x) => Ok(RequestView::ReadMemory(x)),
                Err(e) => Err(e),
            }
        } else if place == 20 {
            match RestartFrameRequestArguments::decode_json(payload) {
                Ok(x) => Ok(RequestView::RestartFrame(x)),
                Err(e) => Err(e),
            }
        } else if place == 21 {
            match ReverseContinueRequestArguments::decode_json(payload) {
                Ok(x) => Ok(RequestView::ReverseContinue(x)),
                Err(e) => Err(e),
            }
        } else if place == 22 {
            match RunInTerminalRequestArguments::decode_json(payload) {
                Ok(x) => Ok(RequestView::RunInTerminal(x)),
                Err(e) => Err(e),
            }
        } else if place == 23 {
            match ScopesRequestArguments::decode_json(payload) {
                Ok(x) => Ok(RequestView::Scopes(x)),
                Err(e) => Err(e),
            }
        } else if place == 24 {
            match SetBreakpointsRequestArguments::decode_json(payload) {
                Ok(x) => Ok(RequestView::SetBreakpoints(x)),
                Err(e) => Err(e),
            }
        } else if place == 25 {
            match SetDataBreakpointsRequestArguments::decode_json(payload) {
                Ok(x) => Ok(RequestView::SetDataBreakpoints(x)),
                Err(e) => Err(e),
            }
        } else if place == 26 {
            match SetExceptionBreakpointsRequestArguments::decode_json(payload) {
                Ok(x) => Ok(RequestView::SetExceptionBreakpoints(x)),
                Err(e) => Err(e),
            }
        } else if place == 27 {
            match SetExpressionRequestArguments::decode_json(payload) {
                Ok(x) => Ok(RequestView::SetExpression(x)),
                Err(e) => Err(e),
            }
        } else if place == 28 {
            match SetFunctionBreakpointsRequestArguments::decode_json(payload) {
                Ok(x) => Ok(RequestView::SetFunctionBreakpoints(x)),
                Err(e) => Err(e),
            }
        } else if place == 29 {
            match SetInstructionBreakpointsRequestArguments::decode_json(payload) {
                Ok(x) => Ok(RequestView::SetInstructionBreakpoints(x)),
                Err(e) => Err(e),
            }
        } else if place == 30 {
            match SetVariableRequestArguments::decode_json(payload) {
                Ok(x) => Ok(RequestView::SetVariable(x)),
                Err(e) => Err(e),
            }
        } else if place == 31 {
            match SourceRequestArguments::decode_json(payload) {
                Ok(x) => Ok(RequestView::Source(x)),
                Err(e) => Err(e),
            }
        } else if place == 32 {
            match StackTraceRequestArguments::decode_json(payload) {
                Ok(x) => Ok(RequestView::StackTrace(x)),
                Err(e) => Err(e),
            }
        } else if place == 33 {
            match StepBackRequestArguments::decode_json(payload) {
                Ok(x) => Ok(RequestView::StepBack(x)),
                Err(e) => Err(e),
            }
        } else if place == 34 {
            match StepInRequestArguments::decode_json(payload) {
                Ok(x) => Ok(RequestView::StepIn(x)),
                Err(e) => Err(e),
            }
        } else if place == 35 {
            match StepInTargetsRequestArguments::decode_json(payload) {
                Ok(x) => Ok(RequestView::StepInTargets(x)),
                Err(e) => Err(e),
            }
        } else if place == 36 {
            match StepOutRequestArguments::decode_json(payload) {
                Ok(x) => Ok(RequestView::StepOut(x)),
                Err(e) => Err(e),
            }
        } else if place == 37 {
            match TerminateRequestArguments::decode_json(payload) {
                Ok(x) => Ok(RequestView::Terminate(x)),
                Err(e) => Err(e),
            }
        } else if place == 38 {
            match TerminateThreadsRequestArguments::decode_json(payload) {
                Ok(x) => Ok(RequestView::TerminateThreads(x)),
                Err(e) => Err(e),
            }
        } else if place == 39 {
            Ok(RequestView::Threads)
        } else if place == 40 {
            match VariablesRequestArguments::decode_json(payload) {
                Ok(x) => Ok(RequestView::Variables(x)),
                Err(e) => Err(e),
            }
        } else {
            Err(DecodeErrorView::UnknownCommand(tag))
        }
    }

    /// What the fields of an object decode to.
    pub open spec fn decode_fields(o: JsonObject) -> Result<RequestView, DecodeErrorView> {
        match req_field::<String>(o, "command"@) {
            Ok(tag) => Request::decode_tagged(tag, Request::payload(o)),
            Err(e) => Err(e),
        }
    }

    /// The command name of the value.
    pub fn name(&self) -> (r: &'static str)
        ensures
            r@ == Request::tag(self@),
    {
        match self {
            Request::Attach(_) => "attach",
            Request::BreakpointLocations(_) => "breakpointLocations",
            Request::Cancel(_) => "cancel",
            Request::Completions(_) => "completions",
            Request::ConfigurationDone => "configurationDone",
            Request::Continue(_) => "continue",
            Request::DataBreakpointInfo(_) => "dataBreakpointInfo",
            Request::Disassemble(_) => "disassemble",
            Request::Disconnect(_) => "disconnect",
            Request::Evaluate(_) => "evaluate",
            Request::ExceptionInfo(_) => "exceptionInfo",
            Request::Goto(_) => "goto",
            Request::GotoTargets(_) => "gotoTargets",
            Request::Initialize(_) => "initialize",
            Request::Launch(_) => "launch",
            Request::LoadedSources => "loadedSources",
            Request::Modules(_) => "modules",
            Request::Next(_) => "next",
            Request::Pause(_) => "pause",
            Request::ReadMemory(_) => "readMemory",
            Request::RestartFrame(_) => "restartFrame",
            Request::ReverseContinue(_) => "reverseContinue",
            Request::RunInTerminal(_) => "runInTerminal",
            Request::Scopes(_) => "scopes",
            Request::SetBreakpoints(_) => "setBreakpoints",
            Request::SetDataBreakpoints(_) => "setDataBreakpoints",
            Request::SetExceptionBreakpoints(_) => "setExceptionBreakpoints",
            Request::SetExpression(_) => "setExpression",
            Request::SetFunctionBreakpoints(_) => "setFunctionBreakpoints",
            Request::SetInstructionBreakpoints(_) => "setInstructionBreakpoints",
            Request::SetVariable(_) => "setVariable",
            Request::Source(_) => "source",
            Request::StackTrace(_) => "stackTrace",
            Request::StepBack(_) => "stepBack",
            Request::StepIn(_) => "stepIn",
            Request::StepInTargets(_) => "stepInTargets",
            Request::StepOut(_) => "stepOut",
            Request::Terminate(_) => "terminate",
            Request::TerminateThreads(_) => "terminateThreads",
            Request::Threads => "threads",
            Request::Variables(_) => "variables",
        }
    }

    /// Writes the fields of the value into a fresh object.
    pub fn to_object(&self) -> (o: serde_json::Map<String, serde_json::Value>)
        ensures
            object_model(o) == Request::fields(self@),
    {
        let mut o = object_new();
        put_str(&mut o, "command", self.name());
        match self {
            Request::Attach(x) => put::<AttachRequestArguments>(&mut o, "arguments", x),
            Request::BreakpointLocations(x) => put::<BreakpointLocationsRequestArguments>(&mut o, "arguments", x),
            Request::Cancel(x) => put::<CancelRequestArguments>(&mut o, "arguments", x),
            Request::Completions(x) => put::<CompletionsRequestArguments>(&mut o, "arguments", x),
            Request::ConfigurationDone => {},
            Request::Continue(x) => put::<ContinueRequestArguments>(&mut o, "arguments", x),
            Request::DataBreakpointInfo(x) => put::<DataBreakpointInfoRequestArguments>(&mut o, "arguments", x),
            Request::Disassemble(x) => put::<DisassembleRequestArguments>(&mut o, "arguments", x),
            Request::Disconnect(x) => put::<DisconnectRequestArguments>(&mut o, "arguments", x),
            Request::Evaluate(x) => put::<EvaluateRequestArguments>(&mut o, "arguments", x),
            Request::ExceptionInfo(x) => put::<ExceptionInfoRequestArguments>(&mut o, "arguments", x),
            Request::Goto(x) => put::<GotoRequestArguments>(&mut o, "arguments", x),
            Request::GotoTargets(x) => put::<GotoTargetsRequestArguments>(&mut o, "arguments", x),
            Request::Initialize(x) => put::<InitializeRequestArguments>(&mut o, "arguments", x),
            Request::Launch(x) => put::<LaunchRequestArguments>(&mut o, "arguments", x),
            Request::LoadedSources => {},
            Request::Modules(x) => put::<ModulesRequestArguments>(&mut o, "arguments", x),
            Request::Next(x) => put::<NextRequestArguments>(&mut o, "arguments", x),
            Request::Pause(x) => put::<PauseRequestArguments>(&mut o, "arguments", x),
            Request::ReadMemory(x) => put::<ReadMemoryRequestArguments>(&mut o, "arguments", x),
            Request::RestartFrame(x) => put::<RestartFrameRequestArguments>(&mut o, "arguments", x),
            Request::ReverseContinue(x) => put::<ReverseContinueRequestArguments>(&mut o, "arguments", x),
            Request::RunInTerminal(x) => put::<RunInTerminalRequestArguments>(&mut o, "arguments", x),
            Request::Scopes(x) => put::<ScopesRequestArguments>(&mut o, "arguments", x),
            Request::SetBreakpoints(x) => put::<SetBreakpointsRequestArguments>(&mut o, "arguments", x),
            Request::SetDataBreakpoints(x) => put::<SetDataBreakpointsRequestArguments>(&mut o, "arguments", x),
            Request::SetExceptionBreakpoints(x) => put::<SetExceptionBreakpointsRequestArguments>(&mut o, "arguments", x),
            Request::SetExpression(x) => put::<SetExpressionRequestArguments>(&mut o, "arguments", x),
            Request::SetFunctionBreakpoints(x) => put::<SetFunctionBreakpointsRequestArguments>(&mut o, "arguments", x),
            Request::SetInstructionBreakpoints(x) => put::<SetInstructionBreakpointsRequestArguments>(&mut o, "arguments", x),
            Request::SetVariable(x) => put::<SetVariableRequestArguments>(&mut o, "arguments", x),
            Request::Source(x) => put::<SourceRequestArguments>(&mut o, "arguments", x),
            Request::StackTrace(x) => put::<StackTraceRequestArguments>(&mut o, "arguments", x),
            Request::StepBack(x) => put::<StepBackRequestArguments>(&mut o, "arguments", x),
            Request::StepIn(x) => put::<StepInRequestArguments>(&mut o, "arguments", x),
            Request::StepInTargets(x) => put::<StepInTargetsRequestArguments>(&mut o, "arguments", x),
            Request::StepOut(x) => put::<StepOutRequestArguments>(&mut o, "arguments", x),
            Request::Terminate(x) => put::<TerminateRequestArguments>(&mut o, "arguments", x),
            Request::TerminateThreads(x) => put::<TerminateThreadsRequestArguments>(&mut o, "arguments", x),
            Request::Threads => {},
            Request::Variables(x) => put::<VariablesRequestArguments>(&mut o, "arguments", x),
        }
        o
    }

    /// Reads a value from a payload under a command name.
    pub fn from_tagged(tag: &str, payload: &serde_json::Value) -> (r: Result<Request, DecodeError>)
        ensures
            match r {
                Ok(x) => Request::decode_tagged(tag@, json_model(*payload)) matches Ok(m) && m == x@,
                Err(e) => Request::decode_tagged(tag@, json_model(*payload)) matches Err(f) && f == e@,
            },
    {
        proof {
            reveal(Request::tag_index);
        }
        if str_eq(tag, "attach") {
            match AttachRequestArguments::from_value(payload) {
                Ok(x) => Ok(Request::Attach(x)),
                Err(e) => Err(e),
            }
        } else if str_eq(tag, "breakpointLocations") {
            match BreakpointLocationsRequestArguments::from_value(payload) {
                Ok(x) => Ok(Request::BreakpointLocations(x)),
                Err(e) => Err(e),
            }
        } else if str_eq(tag, "cancel") {
            match CancelRequestArguments::from_value(payload) {
                Ok(x) => Ok(Request::Cancel(x)),
                Err(e) => Err(e),
            }
        } else if str_eq(tag, "completions") {
            match CompletionsRequestArguments::from_value(payload) {
                Ok(x) => Ok(Request::Completions(x)),
                Err(e) => Err(e),
            }
        } else if str_eq(tag, "configurationDone") {
            Ok(Request::ConfigurationDone)
        } else if str_eq(tag, "continue") {
            match ContinueRequestArguments::from_value(payload) {
                Ok(x) => Ok(Request::Continue(x)),
                Err(e) => Err(e),
            }
        } else if str_eq(tag, "dataBreakpointInfo") {
            match DataBreakpointInfoRequestArguments::from_value(payload) {
                Ok(x) => Ok(Request::DataBreakpointInfo(x)),
                Err(e) => Err(e),
            }
        } else if str_eq(tag, "disassemble") {
            match DisassembleRequestArguments::from_value(payload) {
                Ok(x) => Ok(Request::Disassemble(x)),
                Err(e) => Err(e),
            }
        } else if str_eq(tag, "disconnect") {
            match DisconnectRequestArguments::from_value(payload) {
                Ok(x) => Ok(Request::Disconnect(x)),
                Err(e) => Err(e),
            }
        } else if str_eq(tag, "evaluate") {
            match EvaluateRequestArguments::from_value(payload) {
                Ok(x) => Ok(Request::Evaluate(x)),
                Err(e) => Err(e),
            }
        } else if str_eq(tag, "exceptionInfo") {
            match ExceptionInfoRequestArguments::from_value(payload) {
                Ok(x) => Ok(Request::ExceptionInfo(x)),
                Err(e) => Err(e),
            }
        } else if str_eq(tag, "goto") {
            match GotoRequestArguments::from_value(payload) {
                Ok(x) => Ok(Request::Goto(x)),
                Err(e) => Err(e),
            }
        } else if str_eq(tag, "gotoTargets") {
            match GotoTargetsRequestArguments::from_value(payload) {
                Ok(x) => Ok(Request::GotoTargets(x)),
                Err(e) => Err(e),
            }
        } else if str_eq(tag, "initialize") {
            match InitializeRequestArguments::from_value(payload) {
                Ok(x) => Ok(Request::Initialize(x)),
                Err(e) => Err(e),
            }
        } else if str_eq(tag, "launch") {
            match LaunchRequestArguments::from_value(payload) {
                Ok(x) => Ok(Request::Launch(x)),
                Err(e) => Err(e),
            }
        } else if str_eq(tag, "loadedSources") {
            Ok(Request::LoadedSources)
        } else if str_eq(tag, "modules") {
            match ModulesRequestArguments::from_value(payload) {
                Ok(x) => Ok(Request::Modules(x)),
                Err(e) => Err(e),
            }
        } else if str_eq(tag, "next") {
            match NextRequestArguments::from_value(payload) {
                Ok(x) => Ok(Request::Next(x)),
                Err(e) => Err(e),
            }
        } else if str_eq(tag, "pause") {
            match PauseRequestArguments::from_value(payload) {
                Ok(x) => Ok(Request::Pause(x)),
                Err(e) => Err(e),
            }
        } else if str_eq(tag, "readMemory") {
            match ReadMemoryRequestArguments::from_value(payload) {
                Ok(x) => Ok(Request::ReadMemory(x)),
                Err(e) => Err(e),
            }
        } else if str_eq(tag, "restartFrame") {
            match RestartFrameRequestArguments::from_value(payload) {
                Ok(x) => Ok(Request::RestartFrame(x)),
                Err(e) => Err(e),
            }
        } else if str_eq(tag, "reverseContinue") {
            match ReverseContinueRequestArguments::from_value(payload) {
                Ok(x) => Ok(Request::ReverseContinue(x)),
                Err(e) => Err(e),
            }
        } else if str_eq(tag, "runInTerminal") {
            match RunInTerminalRequestArguments::from_value(payload) {
                Ok(x) => Ok(Request::RunInTerminal(x)),
                Err(e) => Err(e),
            }
        } else if str_eq(tag, "scopes") {
            match ScopesRequestArguments::from_value(payload) {
                Ok(x) => Ok(Request::Scopes(x)),
                Err(e) => Err(e),
            }
        } else if str_eq(tag, "setBreakpoints") {
            match SetBreakpointsRequestArguments::from_value(payload) {
                Ok(x) => Ok(Request::SetBreakpoints(x)),
                Err(e) => Err(e),
            }
        } else if str_eq(tag, "setDataBreakpoints") {
            match SetDataBreakpointsRequestArguments::from_value(payload) {
                Ok(x) => Ok(Request::SetDataBreakpoints(x)),
                Err(e) => Err(e),
            }
        } else if str_eq(tag, "setExceptionBreakpoints") {
            match SetExceptionBreakpointsRequestArguments::from_value(payload) {
                Ok(x) => Ok(Request::SetExceptionBreakpoints(x)),
                Err(e) => Err(e),
            }
        } else if str_eq(tag, "setExpression") {
            match SetExpressionRequestArguments::from_value(payload) {
                Ok(x) => Ok(Request::SetExpression(x)),
                Err(e) => Err(e),
            }
        } else if str_eq(tag, "setFunctionBreakpoints") {
            match SetFunctionBreakpointsRequestArguments::from_value(payload) {
                Ok(x) => Ok(Request::SetFunctionBreakpoints(x)),
                Err(e) => Err(e),
            }
        } else if str_eq(tag, "setInstructionBreakpoints") {
            match SetInstructionBreakpointsRequestArguments::from_value(payload) {
                Ok(x) => Ok(Request::SetInstructionBreakpoints(x)),
                Err(e) => Err(e),
            }
        } else if str_eq(tag, "setVariable") {
            match SetVariableRequestArguments::from_value(payload) {
                Ok(x) => Ok(Request::SetVariable(x)),
                Err(e) => Err(e),
            }
        } else if str_eq(tag, "source") {
            match SourceRequestArguments::from_value(payload) {
                Ok(x) => Ok(Request::Source(x)),
                Err(e) => Err(e),
            }
        } else if str_eq(tag, "stackTrace") {
            match StackTraceRequestArguments::from_value(payload) {
                Ok(x) => Ok(Request::StackTrace(x)),
                Err(e) => Err(e),
            }
        } else if str_eq(tag, "stepBack") {
            match StepBackRequestArguments::from_value(payload) {
                Ok(x) => Ok(Request::StepBack(x)),
                Err(e) => Err(e),
            }
        } else if str_eq(tag, "stepIn") {
            match StepInRequestArguments::from_value(payload) {
                Ok(x) => Ok(Request::StepIn(x)),
                Err(e) => Err(e),
            }
        } else if str_eq(tag, "stepInTargets") {
            match StepInTargetsRequestArguments::from_value(payload) {
                Ok(x) => Ok(Request::StepInTargets(x)),
                Err(e) => Err(e),
            }
        } else if str_eq(tag, "stepOut") {
            match StepOutRequestArguments::from_value(payload) {
                Ok(x) => Ok(Request::StepOut(x)),
                Err(e) => Err(e),
            }
        } else if str_eq(tag, "terminate") {
            match TerminateRequestArguments::from_value(payload) {
                Ok(x) => Ok(Request::Terminate(x)),
                Err(e) => Err(e),
            }
        } else if str_eq(tag, "terminateThreads") {
            match TerminateThreadsRequestArguments::from_value(payload) {
                Ok(x) => Ok(Request::TerminateThreads(x)),
                Err(e) => Err(e),
            }
        } else if str_eq(tag, "threads") {
            Ok(Request::Threads)
        } else if str_eq(tag, "variables") {
            match VariablesRequestArguments::from_value(payload) {
                Ok(x) => Ok(Request::Variables(x)),
                Err(e) => Err(e),
            }
        } else {
            Err(DecodeError::UnknownCommand(tag.to_owned()))
        }
    }

    /// Reads a value from the fields of an object.
    pub fn from_object(o: &serde_json::Map<String, serde_json::Value>) -> (r: Result<
        Request,
        DecodeError,
    >)
        ensures
            match r {
                Ok(x) => Request::decode_fields(object_model(*o)) matches Ok(m) && m == x@,
                Err(e) => Request::decode_fields(object_model(*o)) matches Err(f) && f == e@,
            },
    {
        let tag = get_req::<String>(o, "command")?;
        match object_get(o, "arguments") {
            Some(payload) => Request::from_tagged(tag.as_str(), payload),
            None => {
                let empty = value_object(object_new());
                Request::from_tagged(tag.as_str(), &empty)
            },
        }
    }

    /// A command name that is not in the catalog is refused, and named in the
    /// failure.
    pub proof fn lemma_unknown_tag(o: JsonObject, tag: Seq<char>)
        requires
            field(o, "command"@) == Some(Json::Str(tag)),
            !Request::tags().contains(tag),
        ensures
            Request::decode_fields(o) == Err::<RequestView, DecodeErrorView>(DecodeErrorView::UnknownCommand(tag)),
    {
        reveal(req_field);
        reveal(Request::tag_index);
    }

    /// A value decodes only from an object that bears its command name.
    pub proof fn lemma_decoded_tag(o: JsonObject)
        requires
            Request::decode_fields(o) is Ok,
        ensures
            field(o, "command"@) == Some(Json::Str(Request::tag(Request::decode_fields(o)->Ok_0))),
    {
        reveal(req_field);
        reveal(Request::tag_index);
    }

    /// Nothing is written but the known fields.
    pub proof fn lemma_writes_known_fields(m: RequestView, key: Seq<char>)
        requires
            !Request::field_names().contains(key),
        ensures
            field(Request::fields(m), key) is None,
    {
        broadcast use group_field_rules;

    }
}

impl Wire for Request {
    type Model = RequestView;

    open spec fn model(&self) -> RequestView {
        self@
    }

    open spec fn wire_ok(m: RequestView) -> bool {
        match m {
            RequestView::Attach(x) => AttachRequestArguments::wire_ok(x),
            RequestView::BreakpointLocations(x) => BreakpointLocationsRequestArguments::wire_ok(x),
            RequestView::GotoTargets(x) => GotoTargetsRequestArguments::wire_ok(x),
            RequestView::Launch(x) => LaunchRequestArguments::wire_ok(x),
            RequestView::RunInTerminal(x) => RunInTerminalRequestArguments::wire_ok(x),
            RequestView::SetBreakpoints(x) => SetBreakpointsRequestArguments::wire_ok(x),
            RequestView::Source(x) => SourceRequestArguments::wire_ok(x),
            _ => true,
        }
    }

    open spec fn encode_json(m: RequestView) -> Json {
        Json::Object(Request::fields(m))
    }

    open spec fn decode_json(j: Json) -> Result<RequestView, DecodeErrorView> {
        match j {
            Json::Object(o) => Request::decode_fields(o),
            _ => Err(DecodeErrorView::InvalidType),
        }
    }

    fn to_value(&self) -> (r: serde_json::Value) {
        value_object(self.to_object())
    }

    fn from_value(v: &serde_json::Value) -> (r: Result<Request, DecodeError>) {
        match value_as_object(v) {
            Some(o) => Request::from_object(o),
            None => Err(DecodeError::InvalidType),
        }
    }

    #[verifier::rlimit(60)]
    proof fn lemma_round_trip(m: RequestView) {
        broadcast use group_field_rules;

        reveal(req_field);
        reveal_strlit("command");
        reveal_strlit("arguments");
        assert("command"@.len() == 7);
        assert("arguments"@.len() == 9);
        Request::lemma_tag_index();
        let o = Request::fields(m);
        match m {
            RequestView::Attach(x) => {
                AttachRequestArguments::lemma_round_trip(x);
                assert(Request::payload(o) == AttachRequestArguments::encode_json(x));
                assert(Request::decode_fields(o) matches Ok(back) && back == m);
            },
            RequestView::BreakpointLocations(x) => {
                BreakpointLocationsRequestArguments::lemma_round_trip(x);
                assert(Request::payload(o) == BreakpointLocationsRequestArguments::encode_json(x));
                assert(Request::decode_fields(o) matches Ok(back) && back == m);
            },
            RequestView::Cancel(x) => {
                CancelRequestArguments::lemma_round_trip(x);
                assert(Request::payload(o) == CancelRequestArguments::encode_json(x));
                assert(Request::decode_fields(o) matches Ok(back) && back == m);
            },
            RequestView::Completions(x) => {
                CompletionsRequestArguments::lemma_round_trip(x);
                assert(Request::payload(o) == CompletionsRequestArguments::encode_json(x));
                assert(Request::decode_fields(o) matches Ok(back) && back == m);
            },
            RequestView::ConfigurationDone => {
                assert(Request::decode_fields(o) matches Ok(back) && back == m);
            },
            RequestView::Continue(x) => {
                ContinueRequestArguments::lemma_round_trip(x);
                assert(Request::payload(o) == ContinueRequestArguments::encode_json(x));
                assert(Request::decode_fields(o) matches Ok(back) && back == m);
            },
            RequestView::DataBreakpointInfo(x) => {
                DataBreakpointInfoRequestArguments::lemma_round_trip(x);
                assert(Request::payload(o) == DataBreakpointInfoRequestArguments::encode_json(x));
                assert(Request::decode_fields(o) matches Ok(back) && back == m);
            },
            RequestView::Disassemble(x) => {
                DisassembleRequestArguments::lemma_round_trip(x);
                assert(Request::payload(o) == DisassembleRequestArguments::encode_json(x));
                assert(Request::decode_fields(o) matches Ok(back) && back == m);
            },
            RequestView::Disconnect(x) => {
                DisconnectRequestArguments::lemma_round_trip(x);
                assert(Request::payload(o) == DisconnectRequestArguments::encode_json(x));
                assert(Request::decode_fields(o) matches Ok(back) && back == m);
            },
            RequestView::Evaluate(x) => {
                EvaluateRequestArguments::lemma_round_trip(x);
                assert(Request::payload(o) == EvaluateRequestArguments::encode_json(x));
                assert(Request::decode_fields(o) matches Ok(back) && back == m);
            },
            RequestView::ExceptionInfo(x) => {
                ExceptionInfoRequestArguments::lemma_round_trip(x);
                assert(Request::payload(o) == ExceptionInfoRequestArguments::encode_json(x));
                assert(Request::decode_fields(o) matches Ok(back) && back == m);
            },
            RequestView::Goto(x) => {
                GotoRequestArguments::lemma_round_trip(x);
                assert(Request::payload(o) == GotoRequestArguments::encode_json(x));
                assert(Request::decode_fields(o) matches Ok(back) && back == m);
            },
            RequestView::GotoTargets(x) => {
                GotoTargetsRequestArguments::lemma_round_trip(x);
                assert(Request::payload(o) == GotoTargetsRequestArguments::encode_json(x));
                assert(Request::decode_fields(o) matches Ok(back) && back == m);
            },
            RequestView::Initialize(x) => {
                InitializeRequestArguments::lemma_round_trip(x);
                assert(Request::payload(o) == InitializeRequestArguments::encode_json(x));
                assert(Request::decode_fields(o) matches Ok(back) && back == m);
            },
            RequestView::Launch(x) => {
                LaunchRequestArguments::lemma_round_trip(x);
                assert(Request::payload(o) == LaunchRequestArguments::encode_json(x));
                assert(Request::decode_fields(o) matches Ok(back) && back == m);
            },
            RequestView::LoadedSources => {
                assert(Request::decode_fields(o) matches Ok(back) && back == m);
            },
            RequestView::Modules(x) => {
                ModulesRequestArguments::lemma_round_trip(x);
                assert(Request::payload(o) == ModulesRequestArguments::encode_json(x));
                assert(Request::decode_fields(o) matches Ok(back) && back == m);
            },
            RequestView::Next(x) => {
                NextRequestArguments::lemma_round_trip(x);
                assert(Request::payload(o) == NextRequestArguments::encode_json(x));
                assert(Request::decode_fields(o) matches Ok(back) && back == m);
            },
            RequestView::Pause(x) => {
                PauseRequestArguments::lemma_round_trip(x);
                assert(Request::payload(o) == PauseRequestArguments::encode_json(x));
                assert(Request::decode_fields(o) matches Ok(back) && back == m);
            },
            RequestView::ReadMemory(x) => {
                ReadMemoryRequestArguments::lemma_round_trip(x);
                assert(Request::payload(o) == ReadMemoryRequestArguments::encode_json(x));
                assert(Request::decode_fields(o) matches Ok(back) && back == m);
            },
            RequestView::RestartFrame(x) => {
                RestartFrameRequestArguments::lemma_round_trip(x);
                assert(Request::payload(o) == RestartFrameRequestArguments::encode_json(x));
                assert(Request::decode_fields(o) matches Ok(back) && back == m);
            },
            RequestView::ReverseContinue(x) => {
                ReverseContinueRequestArguments::lemma_round_trip(x);
                assert(Request::payload(o) == ReverseContinueRequestArguments::encode_json(x));
                assert(Request::decode_fields(o) matches Ok(back) && back == m);
            },
            RequestView::RunInTerminal(x) => {
                RunInTerminalRequestArguments::lemma_round_trip(x);
                assert(Request::payload(o) == RunInTerminalRequestArguments::encode_json(x));
                assert(Request::decode_fields(o) matches Ok(back) && back == m);
            },
            RequestView::Scopes(x) => {
                ScopesRequestArguments::lemma_round_trip(x);
                assert(Request::payload(o) == ScopesRequestArguments::encode_json(x));
                assert(Request::decode_fields(o) matches Ok(back) && back == m);
            },
            RequestView::SetBreakpoints(x) => {
                SetBreakpointsRequestArguments::lemma_round_trip(x);
                assert(Request::payload(o) == SetBreakpointsRequestArguments::encode_json(x));
                assert(Request::decode_fields(o) matches Ok(back) && back == m);
            },
            RequestView::SetDataBreakpoints(x) => {
                SetDataBreakpointsRequestArguments::lemma_round_trip(x);
                assert(Request::payload(o) == SetDataBreakpointsRequestArguments::encode_json(x));
                assert(Request::decode_fields(o) matches Ok(back) && back == m);
            },
            RequestView::SetExceptionBreakpoints(x) => {
                SetExceptionBreakpointsRequestArguments::lemma_round_trip(x);
                assert(Request::payload(o) == SetExceptionBreakpointsRequestArguments::encode_json(x));
                assert(Request::decode_fields(o) matches Ok(back) && back == m);
            },
            RequestView::SetExpression(x) => {
                SetExpressionRequestArguments::lemma_round_trip(x);
                assert(Request::payload(o) == SetExpressionRequestArguments::encode_json(x));
                assert(Request::decode_fields(o) matches Ok(back) && back == m);
            },
            RequestView::SetFunctionBreakpoints(x) => {
                SetFunctionBreakpointsRequestArguments::lemma_round_trip(x);
                assert(Request::payload(o) == SetFunctionBreakpointsRequestArguments::encode_json(x));
                assert(Request::decode_fields(o) matches Ok(back) && back == m);
            },
            RequestView::SetInstructionBreakpoints(x) => {
                SetInstructionBreakpointsRequestArguments::lemma_round_trip(x);
                assert(Request::payload(o) == SetInstructionBreakpointsRequestArguments::encode_json(x));
                assert(Request::decode_fields(o) matches Ok(back) && back == m);
            },
            RequestView::SetVariable(x) => {
                SetVariableRequestArguments::lemma_round_trip(x);
                assert(Request::payload(o) == SetVariableRequestArguments::encode_json(x));
                assert(Request::decode_fields(o) matches Ok(back) && back == m);
            },
            RequestView::Source(x) => {
                SourceRequestArguments::lemma_round_trip(x);
                assert(Request::payload(o) == SourceRequestArguments::encode_json(x));
                assert(Request::decode_fields(o) matches Ok(back) && back == m);
            },
            RequestView::StackTrace(x) => {
                StackTraceRequestArguments::lemma_round_trip(x);
                assert(Request::payload(o) == StackTraceRequestArguments::encode_json(x));
                assert(Request::decode_fields(o) matches Ok(back) && back == m);
            },
            RequestView::StepBack(x) => {
                StepBackRequestArguments::lemma_round_trip(x);
                assert(Request::payload(o) == StepBackRequestArguments::encode_json(x));
                assert(Request::decode_fields(o) matches Ok(back) && back == m);
            },
            RequestView::StepIn(x) => {
                StepInRequestArguments::lemma_round_trip(x);
                assert(Request::payload(o) == StepInRequestArguments::encode_json(x));
                assert(Request::decode_fields(o) matches Ok(back) && back == m);
            },
            RequestView::StepInTargets(x) => {
                StepInTargetsRequestArguments::lemma_round_trip(x);
                assert(Request::payload(o) == StepInTargetsRequestArguments::encode_json(x));
                assert(Request::decode_fields(o) matches Ok(back) && back == m);
            },
            RequestView::StepOut(x) => {
                StepOutRequestArguments::lemma_round_trip(x);
                assert(Request::payload(o) == StepOutRequestArguments::encode_json(x));
                assert(Request::decode_fields(o) matches Ok(back) && back == m);
            },
            RequestView::Terminate(x) => {
                TerminateRequestArguments::lemma_round_trip(x);
                assert(Request::payload(o) == TerminateRequestArguments::encode_json(x));
                assert(Request::decode_fields(o) matches Ok(back) && back == m);
            },
            RequestView::TerminateThreads(x) => {
                TerminateThreadsRequestArguments::lemma_round_trip(x);
                assert(Request::payload(o) == TerminateThreadsRequestArguments::encode_json(x));
                assert(Request::decode_fields(o) matches Ok(back) && back == m);
            },
            RequestView::Threads => {
                assert(Request::decode_fields(o) matches Ok(back) && back == m);
            },
            RequestView::Variables(x) => {
                VariablesRequestArguments::lemma_round_trip(x);
                assert(Request::payload(o) == VariablesRequestArguments::encode_json(x));
                assert(Request::decode_fields(o) matches Ok(back) && back == m);
            },
        }
    }
}

impl Record for Request {
    open spec fn field_names() -> Set<Seq<char>> {
        set!["command"@, "arguments"@]
    }

    proof fn lemma_unknown_field(o: JsonObject, key: Seq<char>, x: Json) {
        broadcast use group_field_rules;

        reveal(req_field);
    }
}

impl From<Request> for ProtocolMessageContent {
    fn from(request: Request) -> (r: ProtocolMessageContent) {
        ProtocolMessageContent::Request(request)
    }
}

impl vstd::std_specs::convert::FromSpecImpl<Request> for ProtocolMessageContent {
    open spec fn obeys_from_spec() -> bool {
        true
    }

    open spec fn from_spec(request: Request) -> ProtocolMessageContent {
        ProtocolMessageContent::Request(request)
    }
}

#[derive(Clone, Debug, PartialEq, Eq)]
pub struct AttachRequestArguments {
    /// Optional data from the previous, restarted session.
    ///
    /// The data is sent as the 'restart' attribute of the 'terminated' event.
    ///
    /// The client should leave the data intact.
    pub restart: Option<serde_json::Value>,
}

/// The mathematical content of a [`AttachRequestArguments`].
pub struct AttachRequestArgumentsView {
    pub restart: Option<Json>,
}

impl View for AttachRequestArguments {
    type V = AttachRequestArgumentsView;

    open spec fn view(&self) -> AttachRequestArgumentsView {
        AttachRequestArgumentsView {
            restart: self.restart.model(),
        }
    }
}

impl AttachRequestArguments {
    /// The fields that are written for a value.
    pub open spec fn fields(m: AttachRequestArgumentsView) -> JsonObject {
        let o = empty_object();
        let o = with_opt_field::<serde_json::Value>(o, "__restart"@, m.restart);
        o
    }

    /// What the fields of an object decode to: the first failure in the order of
    /// the fields, or the value.
    pub open spec fn decode_fields(o: JsonObject) -> Result<AttachRequestArgumentsView, DecodeErrorView> {
        let restart = opt_field::<serde_json::Value>(o, "__restart"@);
        if restart is Err {
            Err(restart->Err_0)
        } else {
            Ok(AttachRequestArgumentsView {
                restart: restart->Ok_0,
            })
        }
    }

    /// Writes the fields of the value into a fresh object.
    pub fn to_object(&self) -> (o: serde_json::Map<String, serde_json::Value>)
        ensures
            object_model(o) == AttachRequestArguments::fields(self@),
    {
        let mut o = object_new();
        put_opt::<serde_json::Value>(&mut o, "__restart", &self.restart);
        o
    }

    /// Reads a value from the fields of an object.
    pub fn from_object(o: &serde_json::Map<String, serde_json::Value>) -> (r: Result<
        AttachRequestArguments,
        DecodeError,
    >)
        ensures
            match r {
                Ok(x) => AttachRequestArguments::decode_fields(object_model(*o)) matches Ok(m) && m == x.model(),
                Err(e) => AttachRequestArguments::decode_fields(object_model(*o)) matches Err(f) && f == e@,
            },
    {
        let restart = get_opt::<serde_json::Value>(o, "__restart")?;
        Ok(AttachRequestArguments { restart })
    }
}

impl Wire for AttachRequestArguments {
    type Model = AttachRequestArgumentsView;

    open spec fn model(&self) -> AttachRequestArgumentsView {
        self@
    }

    open spec fn wire_ok(m: AttachRequestArgumentsView) -> bool {
        &&& Option::<serde_json::Value>::wire_ok(m.restart)
    }

    open spec fn encode_json(m: AttachRequestArgumentsView) -> Json {
        Json::Object(AttachRequestArguments::fields(m))
    }

    open spec fn decode_json(j: Json) -> Result<AttachRequestArgumentsView, DecodeErrorView> {
        match j {
            Json::Object(o) => AttachRequestArguments::decode_fields(o),
            _ => Err(DecodeErrorView::InvalidType),
        }
    }

    fn to_value(&self) -> (r: serde_json::Value) {
        value_object(self.to_object())
    }

    fn from_value(v: &serde_json::Value) -> (r: Result<AttachRequestArguments, DecodeError>) {
        match value_as_object(v) {
            Some(o) => AttachRequestArguments::from_object(o),
            None => Err(DecodeError::InvalidType),
        }
    }

    proof fn lemma_round_trip(m: AttachRequestArgumentsView) {
        broadcast use group_field_rules;

        reveal(opt_field);
        reveal_strlit("__restart");
        assert("__restart"@.len() == 9);
        let o = AttachRequestArguments::fields(m);
        Option::<serde_json::Value>::lemma_round_trip(m.restart);
        assert(opt_field::<serde_json::Value>(o, "__restart"@) matches Ok(v) && v == m.restart);
    }
}

impl Record for AttachRequestArguments {
    open spec fn field_names() -> Set<Seq<char>> {
        set!["__restart"@]
    }

    proof fn lemma_unknown_field(o: JsonObject, key: Seq<char>, x: Json) {
        broadcast use group_field_rules;

        reveal(opt_field);
    }
}

impl Defaults for AttachRequestArguments {
    open spec fn elidable_names() -> Set<Seq<char>> {
        set!["__restart"@]
    }

    open spec fn at_defaults(m: AttachRequestArgumentsView) -> bool {
        &&& m.restart is None
    }

    proof fn lemma_defaults_elided(m: AttachRequestArgumentsView, key: Seq<char>) {
        broadcast use group_field_rules;

        reveal_strlit("__restart");
        assert("__restart"@.len() == 9);
    }
}

/// Gathers the fields of a [`AttachRequestArguments`] one by one.
pub struct AttachRequestArgumentsBuilder {
    pub restart: Option<serde_json::Value>,
}

impl AttachRequestArguments {
    /// A builder in which every field with a default holds its default.
    pub fn builder() -> (r: AttachRequestArgumentsBuilder)
        ensures
            r.restart is None,
    {
        AttachRequestArgumentsBuilder {
            restart: None,
        }
    }
}

impl AttachRequestArgumentsBuilder {
    /// Sets `restart`.
    pub fn restart(self, value: Option<serde_json::Value>) -> (r: AttachRequestArgumentsBuilder)
        ensures
            r == (AttachRequestArgumentsBuilder { restart: value, ..self }),
    {
        AttachRequestArgumentsBuilder { restart: value, ..self }
    }

    /// Whether every field without a default has been set.
    pub open spec fn complete(self) -> bool {
        true
    }

    /// The value with the fields as they were set.
    pub fn build(self) -> (r: AttachRequestArguments)
        ensures
            r == (AttachRequestArguments {
                restart: self.restart,
            }),
    {
        AttachRequestArguments {
            restart: self.restart,
        }
    }
}

impl From<AttachRequestArguments> for Request {
    fn from(args: AttachRequestArguments) -> (r: Request) {
        Request::Attach(args)
    }
}

impl vstd::std_specs::convert::FromSpecImpl<AttachRequestArguments> for Request {
    open spec fn obeys_from_spec() -> bool {
        true
    }

    open spec fn from_spec(args: AttachRequestArguments) -> Request {
        Request::Attach(args)
    }
}

impl From<AttachRequestArguments> for ProtocolMessageContent {
    fn from(args: AttachRequestArguments) -> (r: ProtocolMessageContent) {
        ProtocolMessageContent::Request(Request::Attach(args))
    }
}

impl vstd::std_specs::convert::FromSpecImpl<AttachRequestArguments> for ProtocolMessageContent {
    open spec fn obeys_from_spec() -> bool {
        true
    }

    open spec fn from_spec(args: AttachRequestArguments) -> ProtocolMessageContent {
        ProtocolMessageContent::Request(Request::Attach(args))
    }
}

#[derive(Clone, Debug, PartialEq, Eq)]
pub struct BreakpointLocationsRequestArguments {
    /// The source location of the breakpoints; either 'source.path' or 'source.reference' must be specified.
    pub source: Source,

    /// Start line of range to search possible breakpoint locations in. If only the line is specified, the request returns all possible locations in that line.
    pub line: i32,

    /// Optional start column of range to search possible breakpoint locations in. If no start column is given, the first column in the start line is assumed.
    pub column: Option<i32>,

    /// Optional end line of range to search possible breakpoint locations in. If no end line is given, then the end line is assumed to be the start line.
    pub end_line: Option<i32>,

    /// Optional end column of range to search possible breakpoint locations in. If no end column is given, then it is assumed to be in the last column of the end line.
    pub end_column: Option<i32>,
}

/// The mathematical content of a [`BreakpointLocationsRequestArguments`].
pub struct BreakpointLocationsRequestArgumentsView {
    pub source: SourceView,
    pub line: i32,
    pub column: Option<i32>,
    pub end_line: Option<i32>,
    pub end_column: Option<i32>,
}

impl View for BreakpointLocationsRequestArguments {
    type V = BreakpointLocationsRequestArgumentsView;

    open spec fn view(&self) -> BreakpointLocationsRequestArgumentsView {
        BreakpointLocationsRequestArgumentsView {
            source: self.source.model(),
            line: self.line,
            column: self.column.model(),
            end_line: self.end_line.model(),
            end_column: self.end_column.model(),
        }
    }
}

impl BreakpointLocationsRequestArguments {
    /// The fields that are written for a value.
    pub open spec fn fields(m: BreakpointLocationsRequestArgumentsView) -> JsonObject {
        let o = empty_object();
        let o = with_field::<Source>(o, "source"@, m.source);
        let o = with_field::<i32>(o, "line"@, m.line);
        let o = with_opt_field::<i32>(o, "column"@, m.column);
        let o = with_opt_field::<i32>(o, "endLine"@, m.end_line);
        let o = with_opt_field::<i32>(o, "endColumn"@, m.end_column);
        o
    }

    /// What the fields of an object decode to: the first failure in the order of
    /// the fields, or the value.
    pub open spec fn decode_fields(o: JsonObject) -> Result<BreakpointLocationsRequestArgumentsView, DecodeErrorView> {
        let source = req_field::<Source>(o, "source"@);
        let line = req_field::<i32>(o, "line"@);
        let column = opt_field::<i32>(o, "column"@);
        let end_line = opt_field::<i32>(o, "endLine"@);
        let end_column = opt_field::<i32>(o, "endColumn"@);
        if source is Err {
            Err(source->Err_0)
        } else if line is Err {
            Err(line->Err_0)
        } else if column is Err {
            Err(column->Err_0)
        } else if end_line is Err {
            Err(end_line->Err_0)
        } else if end_column is Err {
            Err(end_column->Err_0)
        } else {
            Ok(BreakpointLocationsRequestArgumentsView {
                source: source->Ok_0,
                line: line->Ok_0,
                column: column->Ok_0,
                end_line: end_line->Ok_0,
                end_column: end_column->Ok_0,
            })
        }
    }

    /// Writes the fields of the value into a fresh object.
    pub fn to_object(&self) -> (o: serde_json::Map<String, serde_json::Value>)
        ensures
            object_model(o) == BreakpointLocationsRequestArguments::fields(self@),
    {
        let mut o = object_new();
        put::<Source>(&mut o, "source", &self.source);
        put::<i32>(&mut o, "line", &self.line);
        put_opt::<i32>(&mut o, "column", &self.column);
        put_opt::<i32>(&mut o, "endLine", &self.end_line);
        put_opt::<i32>(&mut o, "endColumn", &self.end_column);
        o
    }

    /// Reads a value from the fields of an object.
    pub fn from_object(o: &serde_json::Map<String, serde_json::Value>) -> (r: Result<
        BreakpointLocationsRequestArguments,
        DecodeError,
    >)
        ensures
            match r {
                Ok(x) => BreakpointLocationsRequestArguments::decode_fields(object_model(*o)) matches Ok(m) && m == x.model(),
                Err(e) => BreakpointLocationsRequestArguments::decode_fields(object_model(*o)) matches Err(f) && f == e@,
            },
    {
        let source = get_req::<Source>(o, "source")?;
        let line = get_req::<i32>(o, "line")?;
        let column = get_opt::<i32>(o, "column")?;
        let end_line = get_opt::<i32>(o, "endLine")?;
        let end_column = get_opt::<i32>(o, "endColumn")?;
        Ok(BreakpointLocationsRequestArguments { source, line, column, end_line, end_column })
    }
}

impl Wire for BreakpointLocationsRequestArguments {
    type Model = BreakpointLocationsRequestArgumentsView;

    open spec fn model(&self) -> BreakpointLocationsRequestArgumentsView {
        self@
    }

    open spec fn wire_ok(m: BreakpointLocationsRequestArgumentsView) -> bool {
        &&& Source::wire_ok(m.source)
    }

    open spec fn encode_json(m: BreakpointLocationsRequestArgumentsView) -> Json {
        Json::Object(BreakpointLocationsRequestArguments::fields(m))
    }

    open spec fn decode_json(j: Json) -> Result<BreakpointLocationsRequestArgumentsView, DecodeErrorView> {
        match j {
            Json::Object(o) => BreakpointLocationsRequestArguments::decode_fields(o),
            _ => Err(DecodeErrorView::InvalidType),
        }
    }

    fn to_value(&self) -> (r: serde_json::Value) {
        value_object(self.to_object())
    }

    fn from_value(v: &serde_json::Value) -> (r: Result<BreakpointLocationsRequestArguments, DecodeError>) {
        match value_as_object(v) {
            Some(o) => BreakpointLocationsRequestArguments::from_object(o),
            None => Err(DecodeError::InvalidType),
        }
    }

    proof fn lemma_round_trip(m: BreakpointLocationsRequestArgumentsView) {
        broadcast use group_field_rules;

        reveal(opt_field);
        reveal(req_field);
        reveal_strlit("source");
        reveal_strlit("line");
        reveal_strlit("column");
        reveal_strlit("endLine");
        reveal_strlit("endColumn");
        assert("source"@.len() == 6);
        assert("line"@.len() == 4);
        assert("column"@.len() == 6);
        assert("endLine"@.len() == 7);
        assert("endColumn"@.len() == 9);
        assert("source"@[0] != "column"@[0]);
        let o = BreakpointLocationsRequestArguments::fields(m);
        Source::lemma_round_trip(m.source);
        assert(req_field::<Source>(o, "source"@) matches Ok(v) && v == m.source);
        i32::lemma_round_trip(m.line);
        assert(req_field::<i32>(o, "line"@) matches Ok(v) && v == m.line);
        Option::<i32>::lemma_round_trip(m.column);
        assert(opt_field::<i32>(o, "column"@) matches Ok(v) && v == m.column);
        Option::<i32>::lemma_round_trip(m.end_line);
        assert(opt_field::<i32>(o, "endLine"@) matches Ok(v) && v == m.end_line);
        Option::<i32>::lemma_round_trip(m.end_column);
        assert(opt_field::<i32>(o, "endColumn"@) matches Ok(v) && v == m.end_column);
    }
}

impl Record for BreakpointLocationsRequestArguments {
    open spec fn field_names() -> Set<Seq<char>> {
        set!["source"@, "line"@, "column"@, "endLine"@, "endColumn"@]
    }

    proof fn lemma_unknown_field(o: JsonObject, key: Seq<char>, x: Json) {
        broadcast use group_field_rules;

        reveal(opt_field);
        reveal(req_field);
    }
}

impl Defaults for BreakpointLocationsRequestArguments {
    open spec fn elidable_names() -> Set<Seq<char>> {
        set!["column"@, "endLine"@, "endColumn"@]
    }

    open spec fn at_defaults(m: BreakpointLocationsRequestArgumentsView) -> bool {
        &&& m.column is None
        &&& m.end_line is None
        &&& m.end_column is None
    }

    proof fn lemma_defaults_elided(m: BreakpointLocationsRequestArgumentsView, key: Seq<char>) {
        broadcast use group_field_rules;

        reveal_strlit("source");
        reveal_strlit("line");
        reveal_strlit("column");
        reveal_strlit("endLine");
        reveal_strlit("endColumn");
        assert("source"@.len() == 6);
        assert("line"@.len() == 4);
        assert("column"@.len() == 6);
        assert("endLine"@.len() == 7);
        assert("endColumn"@.len() == 9);
        assert("source"@[0] != "column"@[0]);
    }
}

/// Gathers the fields of a [`BreakpointLocationsRequestArguments`] one by one.
///
/// A field without a default has to be set before the value is built.
pub struct BreakpointLocationsRequestArgumentsBuilder {
    pub source: Option<Source>,
    pub line: Option<i32>,
    pub column: Option<i32>,
    pub end_line: Option<i32>,
    pub end_column: Option<i32>,
}

impl BreakpointLocationsRequestArguments {
    /// A builder in which every field with a default holds its default.
    pub fn builder() -> (r: BreakpointLocationsRequestArgumentsBuilder)
        ensures
            r.source is None,
            r.line is None,
            r.column is None,
            r.end_line is None,
            r.end_column is None,
    {
        BreakpointLocationsRequestArgumentsBuilder {
            source: None,
            line: None,
            column: None,
            end_line: None,
            end_column: None,
        }
    }
}

impl BreakpointLocationsRequestArgumentsBuilder {
    /// Sets `source`.
    pub fn source(self, value: Source) -> (r: BreakpointLocationsRequestArgumentsBuilder)
        ensures
            r == (BreakpointLocationsRequestArgumentsBuilder { source: Some(value), ..self }),
    {
        BreakpointLocationsRequestArgumentsBuilder { source: Some(value), ..self }
    }

    /// Sets `line`.
    pub fn line(self, value: i32) -> (r: BreakpointLocationsRequestArgumentsBuilder)
        ensures
            r == (BreakpointLocationsRequestArgumentsBuilder { line: Some(value), ..self }),
    {
        BreakpointLocationsRequestArgumentsBuilder { line: Some(value), ..self }
    }

    /// Sets `column`.
    pub fn column(self, value: Option<i32>) -> (r: BreakpointLocationsRequestArgumentsBuilder)
        ensures
            r == (BreakpointLocationsRequestArgumentsBuilder { column: value, ..self }),
    {
        BreakpointLocationsRequestArgumentsBuilder { column: value, ..self }
    }

    /// Sets `end_line`.
    pub fn end_line(self, value: Option<i32>) -> (r: BreakpointLocationsRequestArgumentsBuilder)
        ensures
            r == (BreakpointLocationsRequestArgumentsBuilder { end_line: value, ..self }),
    {
        BreakpointLocationsRequestArgumentsBuilder { end_line: value, ..self }
    }

    /// Sets `end_column`.
    pub fn end_column(self, value: Option<i32>) -> (r: BreakpointLocationsRequestArgumentsBuilder)
        ensures
            r == (BreakpointLocationsRequestArgumentsBuilder { end_column: value, ..self }),
    {
        BreakpointLocationsRequestArgumentsBuilder { end_column: value, ..self }
    }

    /// Whether every field without a default has been set.
    pub open spec fn complete(self) -> bool {
        &&& self.source is Some
        &&& self.line is Some
    }

    /// The value with the fields as they were set.
    pub fn build(self) -> (r: BreakpointLocationsRequestArguments)
        requires
            self.complete(),
        ensures
            r == (BreakpointLocationsRequestArguments {
                source: self.source->Some_0,
                line: self.line->Some_0,
                column: self.column,
                end_line: self.end_line,
                end_column: self.end_column,
            }),
    {
        BreakpointLocationsRequestArguments {
            source: self.source.unwrap(),
            line: self.line.unwrap(),
            column: self.column,
            end_line: self.end_line,
            end_column: self.end_column,
        }
    }
}

impl From<BreakpointLocationsRequestArguments> for Request {
    fn from(args: BreakpointLocationsRequestArguments) -> (r: Request) {
        Request::BreakpointLocations(args)
    }
}

impl vstd::std_specs::convert::FromSpecImpl<BreakpointLocationsRequestArguments> for Request {
    open spec fn obeys_from_spec() -> bool {
        true
    }

    open spec fn from_spec(args: BreakpointLocationsRequestArguments) -> Request {
        Request::BreakpointLocations(args)
    }
}

impl From<BreakpointLocationsRequestArguments> for ProtocolMessageContent {
    fn from(args: BreakpointLocationsRequestArguments) -> (r: ProtocolMessageContent) {
        ProtocolMessageContent::Request(Request::BreakpointLocations(args))
    }
}

impl vstd::std_specs::convert::FromSpecImpl<BreakpointLocationsRequestArguments> for ProtocolMessageContent {
    open spec fn obeys_from_spec() -> bool {
        true
    }

    open spec fn from_spec(args: BreakpointLocationsRequestArguments) -> ProtocolMessageContent {
        ProtocolMessageContent::Request(Request::BreakpointLocations(args))
    }
}

#[derive(Clone, Debug, PartialEq, Eq)]
pub struct CancelRequestArguments {
    /// The ID (attribute 'seq') of the request to cancel. If missing no request is cancelled.
    ///
    /// Both a 'requestId' and a 'progressId' can be specified in one request.
    pub request_id: Option<i32>,

    /// The ID (attribute 'progressId') of the progress to cancel. If missing no progress is cancelled.
    ///
    /// Both a 'requestId' and a 'progressId' can be specified in one request.
    pub progress_id: Option<String>,
}

/// The mathematical content of a [`CancelRequestArguments`].
pub struct CancelRequestArgumentsView {
    pub request_id: Option<i32>,
    pub progress_id: Option<Seq<char>>,
}

impl View for CancelRequestArguments {
    type V = CancelRequestArgumentsView;

    open spec fn view(&self) -> CancelRequestArgumentsView {
        CancelRequestArgumentsView {
            request_id: self.request_id.model(),
            progress_id: self.progress_id.model(),
        }
    }
}

impl CancelRequestArguments {
    /// The fields that are written for a value.
    pub open spec fn fields(m: CancelRequestArgumentsView) -> JsonObject {
        let o = empty_object();
        let o = with_opt_field::<i32>(o, "requestId"@, m.request_id);
        let o = with_opt_field::<String>(o, "progressId"@, m.progress_id);
        o
    }

    /// What the fields of an object decode to: the first failure in the order of
    /// the fields, or the value.
    pub open spec fn decode_fields(o: JsonObject) -> Result<CancelRequestArgumentsView, DecodeErrorView> {
        let request_id = opt_field::<i32>(o, "requestId"@);
        let progress_id = opt_field::<String>(o, "progressId"@);
        if request_id is Err {
            Err(request_id->Err_0)
        } else if progress_id is Err {
            Err(progress_id->Err_0)
        } else {
            Ok(CancelRequestArgumentsView {
                request_id: request_id->Ok_0,
                progress_id: progress_id->Ok_0,
            })
        }
    }

    /// Writes the fields of the value into a fresh object.
    pub fn to_object(&self) -> (o: serde_json::Map<String, serde_json::Value>)
        ensures
            object_model(o) == CancelRequestArguments::fields(self@),
    {
        let mut o = object_new();
        put_opt::<i32>(&mut o, "requestId", &self.request_id);
        put_opt::<String>(&mut o, "progressId", &self.progress_id);
        o
    }

    /// Reads a value from the fields of an object.
    pub fn from_object(o: &serde_json::Map<String, serde_json::Value>) -> (r: Result<
        CancelRequestArguments,
        DecodeError,
    >)
        ensures
            match r {
                Ok(x) => CancelRequestArguments::decode_fields(object_model(*o)) matches Ok(m) && m == x.model(),
                Err(e) => CancelRequestArguments::decode_fields(object_model(*o)) matches Err(f) && f == e@,
            },
    {
        let request_id = get_opt::<i32>(o, "requestId")?;
        let progress_id = get_opt::<String>(o, "progressId")?;
        Ok(CancelRequestArguments { request_id, progress_id })
    }
}

impl Wire for CancelRequestArguments {
    type Model = CancelRequestArgumentsView;

    open spec fn model(&self) -> CancelRequestArgumentsView {
        self@
    }

    open spec fn wire_ok(m: CancelRequestArgumentsView) -> bool {
        true
    }

    open spec fn encode_json(m: CancelRequestArgumentsView) -> Json {
        Json::Object(CancelRequestArguments::fields(m))
    }

    open spec fn decode_json(j: Json) -> Result<CancelRequestArgumentsView, DecodeErrorView> {
        match j {
            Json::Object(o) => CancelRequestArguments::decode_fields(o),
            _ => Err(DecodeErrorView::InvalidType),
        }
    }

    fn to_value(&self) -> (r: serde_json::Value) {
        value_object(self.to_object())
    }

    fn from_value(v: &serde_json::Value) -> (r: Result<CancelRequestArguments, DecodeError>) {
        match value_as_object(v) {
            Some(o) => CancelRequestArguments::from_object(o),
            None => Err(DecodeError::InvalidType),
        }
    }

    proof fn lemma_round_trip(m: CancelRequestArgumentsView) {
        broadcast use group_field_rules;

        reveal(opt_field);
        reveal_strlit("requestId");
        reveal_strlit("progressId");
        assert("requestId"@.len() == 9);
        assert("progressId"@.len() == 10);
        let o = CancelRequestArguments::fields(m);
        Option::<i32>::lemma_round_trip(m.request_id);
        assert(opt_field::<i32>(o, "requestId"@) matches Ok(v) && v == m.request_id);
        Option::<String>::lemma_round_trip(m.progress_id);
        assert(opt_field::<String>(o, "progressId"@) matches Ok(v) && v == m.progress_id);
    }
}

impl Record for CancelRequestArguments {
    open spec fn field_names() -> Set<Seq<char>> {
        set!["requestId"@, "progressId"@]
    }

    proof fn lemma_unknown_field(o: JsonObject, key: Seq<char>, x: Json) {
        broadcast use group_field_rules;

        reveal(opt_field);
    }
}

impl Defaults for CancelRequestArguments {
    open spec fn elidable_names() -> Set<Seq<char>> {
        set!["requestId"@, "progressId"@]
    }

    open spec fn at_defaults(m: CancelRequestArgumentsView) -> bool {
        &&& m.request_id is None
        &&& m.progress_id is None
    }

    proof fn lemma_defaults_elided(m: CancelRequestArgumentsView, key: Seq<char>) {
        broadcast use group_field_rules;

        reveal_strlit("requestId");
        reveal_strlit("progressId");
        assert("requestId"@.len() == 9);
        assert("progressId"@.len() == 10);
    }
}

/// Gathers the fields of a [`CancelRequestArguments`] one by one.
pub struct CancelRequestArgumentsBuilder {
    pub request_id: Option<i32>,
    pub progress_id: Option<String>,
}

impl CancelRequestArguments {
    /// A builder in which every field with a default holds its default.
    pub fn builder() -> (r: CancelRequestArgumentsBuilder)
        ensures
            r.request_id is None,
            r.progress_id is None,
    {
        CancelRequestArgumentsBuilder {
            request_id: None,
            progress_id: None,
        }
    }
}

impl CancelRequestArgumentsBuilder {
    /// Sets `request_id`.
    pub fn request_id(self, value: Option<i32>) -> (r: CancelRequestArgumentsBuilder)
        ensures
            r == (CancelRequestArgumentsBuilder { request_id: value, ..self }),
    {
        CancelRequestArgumentsBuilder { request_id: value, ..self }
    }

    /// Sets `progress_id`.
    pub fn progress_id(self, value: Option<String>) -> (r: CancelRequestArgumentsBuilder)
        ensures
            r == (CancelRequestArgumentsBuilder { progress_id: value, ..self }),
    {
        CancelRequestArgumentsBuilder { progress_id: value, ..self }
    }

    /// Whether every field without a default has been set.
    pub open spec fn complete(self) -> bool {
        true
    }

    /// The value with the fields as they were set.
    pub fn build(self) -> (r: CancelRequestArguments)
        ensures
            r == (CancelRequestArguments {
                request_id: self.request_id,
                progress_id: self.progress_id,
            }),
    {
        CancelRequestArguments {
            request_id: self.request_id,
            progress_id: self.progress_id,
        }
    }
}

impl From<CancelRequestArguments> for Request {
    fn from(args: CancelRequestArguments) -> (r: Request) {
        Request::Cancel(args)
    }
}

impl vstd::std_specs::convert::FromSpecImpl<CancelRequestArguments> for Request {
    open spec fn obeys_from_spec() -> bool {
        true
    }

    open spec fn from_spec(args: CancelRequestArguments) -> Request {
        Request::Cancel(args)
    }
}

impl From<CancelRequestArguments> for ProtocolMessageContent {
    fn from(args: CancelRequestArguments) -> (r: ProtocolMessageContent) {
        ProtocolMessageContent::Request(Request::Cancel(args))
    }
}

impl vstd::std_specs::convert::FromSpecImpl<CancelRequestArguments> for ProtocolMessageContent {
    open spec fn obeys_from_spec() -> bool {
        true
    }

    open spec fn from_spec(args: CancelRequestArguments) -> ProtocolMessageContent {
        ProtocolMessageContent::Request(Request::Cancel(args))
    }
}

#[derive(Clone, Debug, PartialEq, Eq)]
pub struct CompletionsRequestArguments {
    /// Returns completions in the scope of this stack frame. If not specified, the completions are returned for the global scope.
    pub frame_id: Option<i32>,

    /// One or more source lines. Typically this is the text a user has typed into the debug console before he asked for completion.
    pub text: String,

    /// The character position for which to determine the completion proposals.
    pub column: i32,

    /// An optional line for which to determine the completion proposals. If missing the first line of the text is assumed.
    pub line: Option<i32>,
}

/// The mathematical content of a [`CompletionsRequestArguments`].
pub struct CompletionsRequestArgumentsView {
    pub frame_id: Option<i32>,
    pub text: Seq<char>,
    pub column: i32,
    pub line: Option<i32>,
}

impl View for CompletionsRequestArguments {
    type V = CompletionsRequestArgumentsView;

    open spec fn view(&self) -> CompletionsRequestArgumentsView {
        CompletionsRequestArgumentsView {
            frame_id: self.frame_id.model(),
            text: self.text.model(),
            column: self.column,
            line: self.line.model(),
        }
    }
}

impl CompletionsRequestArguments {
    /// The fields that are written for a value.
    pub open spec fn fields(m: CompletionsRequestArgumentsView) -> JsonObject {
        let o = empty_object();
        let o = with_opt_field::<i32>(o, "frameId"@, m.frame_id);
        let o = with_field::<String>(o, "text"@, m.text);
        let o = with_field::<i32>(o, "column"@, m.column);
        let o = with_opt_field::<i32>(o, "line"@, m.line);
        o
    }

    /// What the fields of an object decode to: the first failure in the order of
    /// the fields, or the value.
    pub open spec fn decode_fields(o: JsonObject) -> Result<CompletionsRequestArgumentsView, DecodeErrorView> {
        let frame_id = opt_field::<i32>(o, "frameId"@);
        let text = req_field::<String>(o, "text"@);
        let column = req_field::<i32>(o, "column"@);
        let line = opt_field::<i32>(o, "line"@);
        if frame_id is Err {
            Err(frame_id->Err_0)
        } else if text is Err {
            Err(text->Err_0)
        } else if column is Err {
            Err(column->Err_0)
        } else if line is Err {
            Err(line->Err_0)
        } else {
            Ok(CompletionsRequestArgumentsView {
                frame_id: frame_id->Ok_0,
                text: text->Ok_0,
                column: column->Ok_0,
                line: line->Ok_0,
            })
        }
    }

    /// Writes the fields of the value into a fresh object.
    pub fn to_object(&self) -> (o: serde_json::Map<String, serde_json::Value>)
        ensures
            object_model(o) == CompletionsRequestArguments::fields(self@),
    {
        let mut o = object_new();
        put_opt::<i32>(&mut o, "frameId", &self.frame_id);
        put::<String>(&mut o, "text", &self.text);
        put::<i32>(&mut o, "column", &self.column);
        put_opt::<i32>(&mut o, "line", &self.line);
        o
    }

    /// Reads a value from the fields of an object.
    pub fn from_object(o: &serde_json::Map<String, serde_json::Value>) -> (r: Result<
        CompletionsRequestArguments,
        DecodeError,
    >)
        ensures
            match r {
                Ok(x) => CompletionsRequestArguments::decode_fields(object_model(*o)) matches Ok(m) && m == x.model(),
                Err(e) => CompletionsRequestArguments::decode_fields(object_model(*o)) matches Err(f) && f == e@,
            },
    {
        let frame_id = get_opt::<i32>(o, "frameId")?;
        let text = get_req::<String>(o, "text")?;
        let column = get_req::<i32>(o, "column")?;
        let line = get_opt::<i32>(o, "line")?;
        Ok(CompletionsRequestArguments { frame_id, text, column, line })
    }
}

impl Wire for CompletionsRequestArguments {
    type Model = CompletionsRequestArgumentsView;

    open spec fn model(&self) -> CompletionsRequestArgumentsView {
        self@
    }

    open spec fn wire_ok(m: CompletionsRequestArgumentsView) -> bool {
        true
    }

    open spec fn encode_json(m: CompletionsRequestArgumentsView) -> Json {
        Json::Object(CompletionsRequestArguments::fields(m))
    }

    open spec fn decode_json(j: Json) -> Result<CompletionsRequestArgumentsView, DecodeErrorView> {
        match j {
            Json::Object(o) => CompletionsRequestArguments::decode_fields(o),
            _ => Err(DecodeErrorView::InvalidType),
        }
    }

    fn to_value(&self) -> (r: serde_json::Value) {
        value_object(self.to_object())
    }

    fn from_value(v: &serde_json::Value) -> (r: Result<CompletionsRequestArguments, DecodeError>) {
        match value_as_object(v) {
            Some(o) => CompletionsRequestArguments::from_object(o),
            None => Err(DecodeError::InvalidType),
        }
    }

    proof fn lemma_round_trip(m: CompletionsRequestArgumentsView) {
        broadcast use group_field_rules;

        reveal(opt_field);
        reveal(req_field);
        reveal_strlit("frameId");
        reveal_strlit("text");
        reveal_strlit("column");
        reveal_strlit("line");
        assert("frameId"@.len() == 7);
        assert("text"@.len() == 4);
        assert("column"@.len() == 6);
        assert("line"@.len() == 4);
        assert("text"@[0] != "line"@[0]);
        let o = CompletionsRequestArguments::fields(m);
        Option::<i32>::lemma_round_trip(m.frame_id);
        assert(opt_field::<i32>(o, "frameId"@) matches Ok(v) && v == m.frame_id);
        String::lemma_round_trip(m.text);
        assert(req_field::<String>(o, "text"@) matches Ok(v) && v == m.text);
        i32::lemma_round_trip(m.column);
        assert(req_field::<i32>(o, "column"@) matches Ok(v) && v == m.column);
        Option::<i32>::lemma_round_trip(m.line);
        assert(opt_field::<i32>(o, "line"@) matches Ok(v) && v == m.line);
    }
}

impl Record for CompletionsRequestArguments {
    open spec fn field_names() -> Set<Seq<char>> {
        set!["frameId"@, "text"@, "column"@, "line"@]
    }

    proof fn lemma_unknown_field(o: JsonObject, key: Seq<char>, x: Json) {
        broadcast use group_field_rules;

        reveal(opt_field);
        reveal(req_field);
    }
}

impl Defaults for CompletionsRequestArguments {
    open spec fn elidable_names() -> Set<Seq<char>> {
        set!["frameId"@, "line"@]
    }

    open spec fn at_defaults(m: CompletionsRequestArgumentsView) -> bool {
        &&& m.frame_id is None
        &&& m.line is None
    }

    proof fn lemma_defaults_elided(m: CompletionsRequestArgumentsView, key: Seq<char>) {
        broadcast use group_field_rules;

        reveal_strlit("frameId");
        reveal_strlit("text");
        reveal_strlit("column");
        reveal_strlit("line");
        assert("frameId"@.len() == 7);
        assert("text"@.len() == 4);
        assert("column"@.len() == 6);
        assert("line"@.len() == 4);
        assert("text"@[0] != "line"@[0]);
    }
}

/// Gathers the fields of a [`CompletionsRequestArguments`] one by one.
///
/// A field without a default has to be set before the value is built.
pub struct CompletionsRequestArgumentsBuilder {
    pub frame_id: Option<i32>,
    pub text: Option<String>,
    pub column: Option<i32>,
    pub line: Option<i32>,
}

impl CompletionsRequestArguments {
    /// A builder in which every field with a default holds its default.
    pub fn builder() -> (r: CompletionsRequestArgumentsBuilder)
        ensures
            r.frame_id is None,
            r.text is None,
            r.column is None,
            r.line is None,
    {
        CompletionsRequestArgumentsBuilder {
            frame_id: None,
            text: None,
            column: None,
            line: None,
        }
    }
}

impl CompletionsRequestArgumentsBuilder {
    /// Sets `frame_id`.
    pub fn frame_id(self, value: Option<i32>) -> (r: CompletionsRequestArgumentsBuilder)
        ensures
            r == (CompletionsRequestArgumentsBuilder { frame_id: value, ..self }),
    {
        CompletionsRequestArgumentsBuilder { frame_id: value, ..self }
    }

    /// Sets `text`.
    pub fn text(self, value: String) -> (r: CompletionsRequestArgumentsBuilder)
        ensures
            r == (CompletionsRequestArgumentsBuilder { text: Some(value), ..self }),
    {
        CompletionsRequestArgumentsBuilder { text: Some(value), ..self }
    }

    /// Sets `column`.
    pub fn column(self, value: i32) -> (r: CompletionsRequestArgumentsBuilder)
        ensures
            r == (CompletionsRequestArgumentsBuilder { column: Some(value), ..self }),
    {
        CompletionsRequestArgumentsBuilder { column: Some(value), ..self }
    }

    /// Sets `line`.
    pub fn line(self, value: Option<i32>) -> (r: CompletionsRequestArgumentsBuilder)
        ensures
            r == (CompletionsRequestArgumentsBuilder { line: value, ..self }),
    {
        CompletionsRequestArgumentsBuilder { line: value, ..self }
    }

    /// Whether every field without a default has been set.
    pub open spec fn complete(self) -> bool {
        &&& self.text is Some
        &&& self.column is Some
    }

    /// The value with the fields as they were set.
    pub fn build(self) -> (r: CompletionsRequestArguments)
        requires
            self.complete(),
        ensures
            r == (CompletionsRequestArguments {
                frame_id: self.frame_id,
                text: self.text->Some_0,
                column: self.column->Some_0,
                line: self.line,
            }),
    {
        CompletionsRequestArguments {
            frame_id: self.frame_id,
            text: self.text.unwrap(),
            column: self.column.unwrap(),
            line: self.line,
        }
    }
}

impl From<CompletionsRequestArguments> for Request {
    fn from(args: CompletionsRequestArguments) -> (r: Request) {
        Request::Completions(args)
    }
}

impl vstd::std_specs::convert::FromSpecImpl<CompletionsRequestArguments> for Request {
    open spec fn obeys_from_spec() -> bool {
        true
    }

    open spec fn from_spec(args: CompletionsRequestArguments) -> Request {
        Request::Completions(args)
    }
}

impl From<CompletionsRequestArguments> for ProtocolMessageContent {
    fn from(args: CompletionsRequestArguments) -> (r: ProtocolMessageContent) {
        ProtocolMessageContent::Request(Request::Completions(args))
    }
}

impl vstd::std_specs::convert::FromSpecImpl<CompletionsRequestArguments> for ProtocolMessageContent {
    open spec fn obeys_from_spec() -> bool {
        true
    }

    open spec fn from_spec(args: CompletionsRequestArguments) -> ProtocolMessageContent {
        ProtocolMessageContent::Request(Request::Completions(args))
    }
}

#[derive(Clone, Debug, PartialEq, Eq)]
pub struct ContinueRequestArguments {
    /// Continue execution for the specified thread (if possible).
    ///
    /// If the backend cannot continue on a single thread but will continue on all threads, it should set the 'allThreadsContinued' attribute in the response to true.
    pub thread_id: i32,
}

impl ContinueRequestArguments {
    /// The fields that are written for a value.
    pub open spec fn fields(m: ContinueRequestArguments) -> JsonObject {
        let o = empty_object();
        let o = with_field::<i32>(o, "threadId"@, m.thread_id);
        o
    }

    /// What the fields of an object decode to: the first failure in the order of
    /// the fields, or the value.
    pub open spec fn decode_fields(o: JsonObject) -> Result<ContinueRequestArguments, DecodeErrorView> {
        let thread_id = req_field::<i32>(o, "threadId"@);
        if thread_id is Err {
            Err(thread_id->Err_0)
        } else {
            Ok(ContinueRequestArguments {
                thread_id: thread_id->Ok_0,
            })
        }
    }

    /// Writes the fields of the value into a fresh object.
    pub fn to_object(&self) -> (o: serde_json::Map<String, serde_json::Value>)
        ensures
            object_model(o) == ContinueRequestArguments::fields(*self),
    {
        let mut o = object_new();
        put::<i32>(&mut o, "threadId", &self.thread_id);
        o
    }

    /// Reads a value from the fields of an object.
    pub fn from_object(o: &serde_json::Map<String, serde_json::Value>) -> (r: Result<
        ContinueRequestArguments,
        DecodeError,
    >)
        ensures
            match r {
                Ok(x) => ContinueRequestArguments::decode_fields(object_model(*o)) matches Ok(m) && m == x.model(),
                Err(e) => ContinueRequestArguments::decode_fields(object_model(*o)) matches Err(f) && f == e@,
            },
    {
        let thread_id = get_req::<i32>(o, "threadId")?;
        Ok(ContinueRequestArguments { thread_id })
    }
}

impl Wire for ContinueRequestArguments {
    type Model = ContinueRequestArguments;

    open spec fn model(&self) -> ContinueRequestArguments {
        *self
    }

    open spec fn wire_ok(m: ContinueRequestArguments) -> bool {
        true
    }

    open spec fn encode_json(m: ContinueRequestArguments) -> Json {
        Json::Object(ContinueRequestArguments::fields(m))
    }

    open spec fn decode_json(j: Json) -> Result<ContinueRequestArguments, DecodeErrorView> {
        match j {
            Json::Object(o) => ContinueRequestArguments::decode_fields(o),
            _ => Err(DecodeErrorView::InvalidType),
        }
    }

    fn to_value(&self) -> (r: serde_json::Value) {
        value_object(self.to_object())
    }

    fn from_value(v: &serde_json::Value) -> (r: Result<ContinueRequestArguments, DecodeError>) {
        match value_as_object(v) {
            Some(o) => ContinueRequestArguments::from_object(o),
            None => Err(DecodeError::InvalidType),
        }
    }

    proof fn lemma_round_trip(m: ContinueRequestArguments) {
        broadcast use group_field_rules;

        reveal(req_field);
        reveal_strlit("threadId");
        assert("threadId"@.len() == 8);
        let o = ContinueRequestArguments::fields(m);
        i32::lemma_round_trip(m.thread_id);
        assert(req_field::<i32>(o, "threadId"@) matches Ok(v) && v == m.thread_id);
    }
}

impl Record for ContinueRequestArguments {
    open spec fn field_names() -> Set<Seq<char>> {
        set!["threadId"@]
    }

    proof fn lemma_unknown_field(o: JsonObject, key: Seq<char>, x: Json) {
        broadcast use group_field_rules;

        reveal(req_field);
    }
}

/// Gathers the fields of a [`ContinueRequestArguments`] one by one.
///
/// A field without a default has to be set before the value is built.
pub struct ContinueRequestArgumentsBuilder {
    pub thread_id: Option<i32>,
}

impl ContinueRequestArguments {
    /// A builder in which every field with a default holds its default.
    pub fn builder() -> (r: ContinueRequestArgumentsBuilder)
        ensures
            r.thread_id is None,
    {
        ContinueRequestArgumentsBuilder {
            thread_id: None,
        }
    }
}

impl ContinueRequestArgumentsBuilder {
    /// Sets `thread_id`.
    pub fn thread_id(self, value: i32) -> (r: ContinueRequestArgumentsBuilder)
        ensures
            r == (ContinueRequestArgumentsBuilder { thread_id: Some(value), ..self }),
    {
        ContinueRequestArgumentsBuilder { thread_id: Some(value), ..self }
    }

    /// Whether every field without a default has been set.
    pub open spec fn complete(self) -> bool {
        &&& self.thread_id is Some
    }

    /// The value with the fields as they were set.
    pub fn build(self) -> (r: ContinueRequestArguments)
        requires
            self.complete(),
        ensures
            r == (ContinueRequestArguments {
                thread_id: self.thread_id->Some_0,
            }),
    {
        ContinueRequestArguments {
            thread_id: self.thread_id.unwrap(),
        }
    }
}

impl From<ContinueRequestArguments> for Request {
    fn from(args: ContinueRequestArguments) -> (r: Request) {
        Request::Continue(args)
    }
}

impl vstd::std_specs::convert::FromSpecImpl<ContinueRequestArguments> for Request {
    open spec fn obeys_from_spec() -> bool {
        true
    }

    open spec fn from_spec(args: ContinueRequestArguments) -> Request {
        Request::Continue(args)
    }
}

impl From<ContinueRequestArguments> for ProtocolMessageContent {
    fn from(args: ContinueRequestArguments) -> (r: ProtocolMessageContent) {
        ProtocolMessageContent::Request(Request::Continue(args))
    }
}

impl vstd::std_specs::convert::FromSpecImpl<ContinueRequestArguments> for ProtocolMessageContent {
    open spec fn obeys_from_spec() -> bool {
        true
    }

    open spec fn from_spec(args: ContinueRequestArguments) -> ProtocolMessageContent {
        ProtocolMessageContent::Request(Request::Continue(args))
    }
}

#[derive(Clone, Debug, PartialEq, Eq)]
pub struct DataBreakpointInfoRequestArguments {
    /// Reference to the Variable container if the data breakpoint is requested for a child of the container.
    pub variables_reference: Option<i32>,

    /// The name of the Variable's child to obtain data breakpoint information for.
    ///
    /// If variablesReference isnâ€™t provided, this can be an expression.
    pub name: String,
}

/// The mathematical content of a [`DataBreakpointInfoRequestArguments`].
pub struct DataBreakpointInfoRequestArgumentsView {
    pub variables_reference: Option<i32>,
    pub name: Seq<char>,
}

impl View for DataBreakpointInfoRequestArguments {
    type V = DataBreakpointInfoRequestArgumentsView;

    open spec fn view(&self) -> DataBreakpointInfoRequestArgumentsView {
        DataBreakpointInfoRequestArgumentsView {
            variables_reference: self.variables_reference.model(),
            name: self.name.model(),
        }
    }
}

impl DataBreakpointInfoRequestArguments {
    /// The fields that are written for a value.
    pub open spec fn fields(m: DataBreakpointInfoRequestArgumentsView) -> JsonObject {
        let o = empty_object();
        let o = with_opt_field::<i32>(o, "variablesReference"@, m.variables_reference);
        let o = with_field::<String>(o, "name"@, m.name);
        o
    }

    /// What the fields of an object decode to: the first failure in the order of
    /// the fields, or the value.
    pub open spec fn decode_fields(o: JsonObject) -> Result<DataBreakpointInfoRequestArgumentsView, DecodeErrorView> {
        let variables_reference = opt_field::<i32>(o, "variablesReference"@);
        let name = req_field::<String>(o, "name"@);
        if variables_reference is Err {
            Err(variables_reference->Err_0)
        } else if name is Err {
            Err(name->Err_0)
        } else {
            Ok(DataBreakpointInfoRequestArgumentsView {
                variables_reference: variables_reference->Ok_0,
                name: name->Ok_0,
            })
        }
    }

    /// Writes the fields of the value into a fresh object.
    pub fn to_object(&self) -> (o: serde_json::Map<String, serde_json::Value>)
        ensures
            object_model(o) == DataBreakpointInfoRequestArguments::fields(self@),
    {
        let mut o = object_new();
        put_opt::<i32>(&mut o, "variablesReference", &self.variables_reference);
        put::<String>(&mut o, "name", &self.name);
        o
    }

    /// Reads a value from the fields of an object.
    pub fn from_object(o: &serde_json::Map<String, serde_json::Value>) -> (r: Result<
        DataBreakpointInfoRequestArguments,
        DecodeError,
    >)
        ensures
            match r {
                Ok(x) => DataBreakpointInfoRequestArguments::decode_fields(object_model(*o)) matches Ok(m) && m == x.model(),
                Err(e) => DataBreakpointInfoRequestArguments::decode_fields(object_model(*o)) matches Err(f) && f == e@,
            },
    {
        let variables_reference = get_opt::<i32>(o, "variablesReference")?;
        let name = get_req::<String>(o, "name")?;
        Ok(DataBreakpointInfoRequestArguments { variables_reference, name })
    }
}

impl Wire for DataBreakpointInfoRequestArguments {
    type Model = DataBreakpointInfoRequestArgumentsView;

    open spec fn model(&self) -> DataBreakpointInfoRequestArgumentsView {
        self@
    }

    open spec fn wire_ok(m: DataBreakpointInfoRequestArgumentsView) -> bool {
        true
    }

    open spec fn encode_json(m: DataBreakpointInfoRequestArgumentsView) -> Json {
        Json::Object(DataBreakpointInfoRequestArguments::fields(m))
    }

    open spec fn decode_json(j: Json) -> Result<DataBreakpointInfoRequestArgumentsView, DecodeErrorView> {
        match j {
            Json::Object(o) => DataBreakpointInfoRequestArguments::decode_fields(o),
            _ => Err(DecodeErrorView::InvalidType),
        }
    }

    fn to_value(&self) -> (r: serde_json::Value) {
        value_object(self.to_object())
    }

    fn from_value(v: &serde_json::Value) -> (r: Result<DataBreakpointInfoRequestArguments, DecodeError>) {
        match value_as_object(v) {
            Some(o) => DataBreakpointInfoRequestArguments::from_object(o),
            None => Err(DecodeError::InvalidType),
        }
    }

    proof fn lemma_round_trip(m: DataBreakpointInfoRequestArgumentsView) {
        broadcast use group_field_rules;

        reveal(opt_field);
        reveal(req_field);
        reveal_strlit("variablesReference");
        reveal_strlit("name");
        assert("variablesReference"@.len() == 18);
        assert("name"@.len() == 4);
        let o = DataBreakpointInfoRequestArguments::fields(m);
        Option::<i32>::lemma_round_trip(m.variables_reference);
        assert(opt_field::<i32>(o, "variablesReference"@) matches Ok(v) && v == m.variables_reference);
        String::lemma_round_trip(m.name);
        assert(req_field::<String>(o, "name"@) matches Ok(v) && v == m.name);
    }
}

impl Record for DataBreakpointInfoRequestArguments {
    open spec fn field_names() -> Set<Seq<char>> {
        set!["variablesReference"@, "name"@]
    }

    proof fn lemma_unknown_field(o: JsonObject, key: Seq<char>, x: Json) {
        broadcast use group_field_rules;

        reveal(opt_field);
        reveal(req_field);
    }
}

impl Defaults for DataBreakpointInfoRequestArguments {
    open spec fn elidable_names() -> Set<Seq<char>> {
        set!["variablesReference"@]
    }

    open spec fn at_defaults(m: DataBreakpointInfoRequestArgumentsView) -> bool {
        &&& m.variables_reference is None
    }

    proof fn lemma_defaults_elided(m: DataBreakpointInfoRequestArgumentsView, key: Seq<char>) {
        broadcast use group_field_rules;

        reveal_strlit("variablesReference");
        reveal_strlit("name");
        assert("variablesReference"@.len() == 18);
        assert("name"@.len() == 4);
    }
}

/// Gathers the fields of a [`DataBreakpointInfoRequestArguments`] one by one.
///
/// A field without a default has to be set before the value is built.
pub struct DataBreakpointInfoRequestArgumentsBuilder {
    pub variables_reference: Option<i32>,
    pub name: Option<String>,
}

impl DataBreakpointInfoRequestArguments {
    /// A builder in which every field with a default holds its default.
    pub fn builder() -> (r: DataBreakpointInfoRequestArgumentsBuilder)
        ensures
            r.variables_reference is None,
            r.name is None,
    {
        DataBreakpointInfoRequestArgumentsBuilder {
            variables_reference: None,
            name: None,
        }
    }
}

impl DataBreakpointInfoRequestArgumentsBuilder {
    /// Sets `variables_reference`.
    pub fn variables_reference(self, value: Option<i32>) -> (r: DataBreakpointInfoRequestArgumentsBuilder)
        ensures
            r == (DataBreakpointInfoRequestArgumentsBuilder { variables_reference: value, ..self }),
    {
        DataBreakpointInfoRequestArgumentsBuilder { variables_reference: value, ..self }
    }

    /// Sets `name`.
    pub fn name(self, value: String) -> (r: DataBreakpointInfoRequestArgumentsBuilder)
        ensures
            r == (DataBreakpointInfoRequestArgumentsBuilder { name: Some(value), ..self }),
    {
        DataBreakpointInfoRequestArgumentsBuilder { name: Some(value), ..self }
    }

    /// Whether every field without a default has been set.
    pub open spec fn complete(self) -> bool {
        &&& self.name is Some
    }

    /// The value with the fields as they were set.
    pub fn build(self) -> (r: DataBreakpointInfoRequestArguments)
        requires
            self.complete(),
        ensures
            r == (DataBreakpointInfoRequestArguments {
                variables_reference: self.variables_reference,
                name: self.name->Some_0,
            }),
    {
        DataBreakpointInfoRequestArguments {
            variables_reference: self.variables_reference,
            name: self.name.unwrap(),
        }
    }
}

impl From<DataBreakpointInfoRequestArguments> for Request {
    fn from(args: DataBreakpointInfoRequestArguments) -> (r: Request) {
        Request::DataBreakpointInfo(args)
    }
}

impl vstd::std_specs::convert::FromSpecImpl<DataBreakpointInfoRequestArguments> for Request {
    open spec fn obeys_from_spec() -> bool {
        true
    }

    open spec fn from_spec(args: DataBreakpointInfoRequestArguments) -> Request {
        Request::DataBreakpointInfo(args)
    }
}

impl From<DataBreakpointInfoRequestArguments> for ProtocolMessageContent {
    fn from(args: DataBreakpointInfoRequestArguments) -> (r: ProtocolMessageContent) {
        ProtocolMessageContent::Request(Request::DataBreakpointInfo(args))
    }
}

impl vstd::std_specs::convert::FromSpecImpl<DataBreakpointInfoRequestArguments> for ProtocolMessageContent {
    open spec fn obeys_from_spec() -> bool {
        true
    }

    open spec fn from_spec(args: DataBreakpointInfoRequestArguments) -> ProtocolMessageContent {
        ProtocolMessageContent::Request(Request::DataBreakpointInfo(args))
    }
}

#[derive(Clone, Debug, PartialEq, Eq)]
pub struct DisassembleRequestArguments {
    /// Memory reference to the base location containing the instructions to disassemble.
    pub memory_reference: String,

    /// Optional offset (in bytes) to be applied to the reference location before disassembling. Can be negative.
    pub offset: i32,

    /// Optional offset (in instructions) to be applied after the byte offset (if any) before disassembling. Can be negative.
    pub instruction_offset: i32,

    /// Number of instructions to disassemble starting at the specified location and offset.
    ///
    /// An adapter must return exactly this number of instructions - any unavailable instructions should be replaced with an implementation-defined 'invalid instruction' value.
    pub instruction_count: i32,

    /// If true, the adapter should attempt to resolve memory addresses and other values to symbolic names.
    pub resolve_symbols: bool,
}

/// The mathematical content of a [`DisassembleRequestArguments`].
pub struct DisassembleRequestArgumentsView {
    pub memory_reference: Seq<char>,
    pub offset: i32,
    pub instruction_offset: i32,
    pub instruction_count: i32,
    pub resolve_symbols: bool,
}

impl View for DisassembleRequestArguments {
    type V = DisassembleRequestArgumentsView;

    open spec fn view(&self) -> DisassembleRequestArgumentsView {
        DisassembleRequestArgumentsView {
            memory_reference: self.memory_reference.model(),
            offset: self.offset,
            instruction_offset: self.instruction_offset,
            instruction_count: self.instruction_count,
            resolve_symbols: self.resolve_symbols,
        }
    }
}

impl DisassembleRequestArguments {
    /// The fields that are written for a value.
    pub open spec fn fields(m: DisassembleRequestArgumentsView) -> JsonObject {
        let o = empty_object();
        let o = with_field::<String>(o, "memoryReference"@, m.memory_reference);
        let o = with_nondefault_field::<i32>(o, "offset"@, m.offset, 0i32);
        let o = with_nondefault_field::<i32>(o, "instructionOffset"@, m.instruction_offset, 0i32);
        let o = with_field::<i32>(o, "instructionCount"@, m.instruction_count);
        let o = with_nondefault_field::<bool>(o, "resolveSymbols"@, m.resolve_symbols, false);
        o
    }

    /// What the fields of an object decode to: the first failure in the order of
    /// the fields, or the value.
    pub open spec fn decode_fields(o: JsonObject) -> Result<DisassembleRequestArgumentsView, DecodeErrorView> {
        let memory_reference = req_field::<String>(o, "memoryReference"@);
        let offset = default_field::<i32>(o, "offset"@, 0i32);
        let instruction_offset = default_field::<i32>(o, "instructionOffset"@, 0i32);
        let instruction_count = req_field::<i32>(o, "instructionCount"@);
        let resolve_symbols = default_field::<bool>(o, "resolveSymbols"@, false);
        if memory_reference is Err {
            Err(memory_reference->Err_0)
        } else if offset is Err {
            Err(offset->Err_0)
        } else if instruction_offset is Err {
            Err(instruction_offset->Err_0)
        } else if instruction_count is Err {
            Err(instruction_count->Err_0)
        } else if resolve_symbols is Err {
            Err(resolve_symbols->Err_0)
        } else {
            Ok(DisassembleRequestArgumentsView {
                memory_reference: memory_reference->Ok_0,
                offset: offset->Ok_0,
                instruction_offset: instruction_offset->Ok_0,
                instruction_count: instruction_count->Ok_0,
                resolve_symbols: resolve_symbols->Ok_0,
            })
        }
    }

    /// Writes the fields of the value into a fresh object.
    pub fn to_object(&self) -> (o: serde_json::Map<String, serde_json::Value>)
        ensures
            object_model(o) == DisassembleRequestArguments::fields(self@),
    {
        let mut o = object_new();
        put::<String>(&mut o, "memoryReference", &self.memory_reference);
        put_nonzero(&mut o, "offset", self.offset);
        put_nonzero(&mut o, "instructionOffset", self.instruction_offset);
        put::<i32>(&mut o, "instructionCount", &self.instruction_count);
        put_flag(&mut o, "resolveSymbols", self.resolve_symbols);
        o
    }

    /// Reads a value from the fields of an object.
    pub fn from_object(o: &serde_json::Map<String, serde_json::Value>) -> (r: Result<
        DisassembleRequestArguments,
        DecodeError,
    >)
        ensures
            match r {
                Ok(x) => DisassembleRequestArguments::decode_fields(object_model(*o)) matches Ok(m) && m == x.model(),
                Err(e) => DisassembleRequestArguments::decode_fields(object_model(*o)) matches Err(f) && f == e@,
            },
    {
        let memory_reference = get_req::<String>(o, "memoryReference")?;
        let offset = get_or::<i32>(o, "offset", 0)?;
        let instruction_offset = get_or::<i32>(o, "instructionOffset", 0)?;
        let instruction_count = get_req::<i32>(o, "instructionCount")?;
        let resolve_symbols = get_or::<bool>(o, "resolveSymbols", false)?;
        Ok(DisassembleRequestArguments { memory_reference, offset, instruction_offset, instruction_count, resolve_symbols })
    }
}

impl Wire for DisassembleRequestArguments {
    type Model = DisassembleRequestArgumentsView;

    open spec fn model(&self) -> DisassembleRequestArgumentsView {
        self@
    }

    open spec fn wire_ok(m: DisassembleRequestArgumentsView) -> bool {
        true
    }

    open spec fn encode_json(m: DisassembleRequestArgumentsView) -> Json {
        Json::Object(DisassembleRequestArguments::fields(m))
    }

    open spec fn decode_json(j: Json) -> Result<DisassembleRequestArgumentsView, DecodeErrorView> {
        match j {
            Json::Object(o) => DisassembleRequestArguments::decode_fields(o),
            _ => Err(DecodeErrorView::InvalidType),
        }
    }

    fn to_value(&self) -> (r: serde_json::Value) {
        value_object(self.to_object())
    }

    fn from_value(v: &serde_json::Value) -> (r: Result<DisassembleRequestArguments, DecodeError>) {
        match value_as_object(v) {
            Some(o) => DisassembleRequestArguments::from_object(o),
            None => Err(DecodeError::InvalidType),
        }
    }

    proof fn lemma_round_trip(m: DisassembleRequestArgumentsView) {
        broadcast use group_field_rules;

        reveal(default_field);
        reveal(req_field);
        reveal_strlit("memoryReference");
        reveal_strlit("offset");
        reveal_strlit("instructionOffset");
        reveal_strlit("instructionCount");
        reveal_strlit("resolveSymbols");
        assert("memoryReference"@.len() == 15);
        assert("offset"@.len() == 6);
        assert("instructionOffset"@.len() == 17);
        assert("instructionCount"@.len() == 16);
        assert("resolveSymbols"@.len() == 14);
        let o = DisassembleRequestArguments::fields(m);
        String::lemma_round_trip(m.memory_reference);
        assert(req_field::<String>(o, "memoryReference"@) matches Ok(v) && v == m.memory_reference);
        i32::lemma_round_trip(m.offset);
        assert(default_field::<i32>(o, "offset"@, 0i32) matches Ok(v) && v == m.offset);
        i32::lemma_round_trip(m.instruction_offset);
        assert(default_field::<i32>(o, "instructionOffset"@, 0i32) matches Ok(v) && v == m.instruction_offset);
        i32::lemma_round_trip(m.instruction_count);
        assert(req_field::<i32>(o, "instructionCount"@) matches Ok(v) && v == m.instruction_count);
        bool::lemma_round_trip(m.resolve_symbols);
        assert(default_field::<bool>(o, "resolveSymbols"@, false) matches Ok(v) && v == m.resolve_symbols);
    }
}

impl Record for DisassembleRequestArguments {
    open spec fn field_names() -> Set<Seq<char>> {
        set!["memoryReference"@, "offset"@, "instructionOffset"@, "instructionCount"@, "resolveSymbols"@]
    }

    proof fn lemma_unknown_field(o: JsonObject, key: Seq<char>, x: Json) {
        broadcast use group_field_rules;

        reveal(default_field);
        reveal(req_field);
    }
}

impl Defaults for DisassembleRequestArguments {
    open spec fn elidable_names() -> Set<Seq<char>> {
        set!["offset"@, "instructionOffset"@, "resolveSymbols"@]
    }

    open spec fn at_defaults(m: DisassembleRequestArgumentsView) -> bool {
        &&& m.offset == 0i32
        &&& m.instruction_offset == 0i32
        &&& !m.resolve_symbols
    }

    proof fn lemma_defaults_elided(m: DisassembleRequestArgumentsView, key: Seq<char>) {
        broadcast use group_field_rules;

        reveal_strlit("memoryReference");
        reveal_strlit("offset");
        reveal_strlit("instructionOffset");
        reveal_strlit("instructionCount");
        reveal_strlit("resolveSymbols");
        assert("memoryReference"@.len() == 15);
        assert("offset"@.len() == 6);
        assert("instructionOffset"@.len() == 17);
        assert("instructionCount"@.len() == 16);
        assert("resolveSymbols"@.len() == 14);
    }
}

/// Gathers the fields of a [`DisassembleRequestArguments`] one by one.
///
/// A field without a default has to be set before the value is built.
pub struct DisassembleRequestArgumentsBuilder {
    pub memory_reference: Option<String>,
    pub offset: i32,
    pub instruction_offset: i32,
    pub instruction_count: Option<i32>,
    pub resolve_symbols: bool,
}

impl DisassembleRequestArguments {
    /// A builder in which every field with a default holds its default.
    pub fn builder() -> (r: DisassembleRequestArgumentsBuilder)
        ensures
            r.memory_reference is None,
            r.offset == 0,
            r.instruction_offset == 0,
            r.instruction_count is None,
            !r.resolve_symbols,
    {
        DisassembleRequestArgumentsBuilder {
            memory_reference: None,
            offset: 0,
            instruction_offset: 0,
            instruction_count: None,
            resolve_symbols: false,
        }
    }
}

impl DisassembleRequestArgumentsBuilder {
    /// Sets `memory_reference`.
    pub fn memory_reference(self, value: String) -> (r: DisassembleRequestArgumentsBuilder)
        ensures
            r == (DisassembleRequestArgumentsBuilder { memory_reference: Some(value), ..self }),
    {
        DisassembleRequestArgumentsBuilder { memory_reference: Some(value), ..self }
    }

    /// Sets `offset`.
    pub fn offset(self, value: i32) -> (r: DisassembleRequestArgumentsBuilder)
        ensures
            r == (DisassembleRequestArgumentsBuilder { offset: value, ..self }),
    {
        DisassembleRequestArgumentsBuilder { offset: value, ..self }
    }

    /// Sets `instruction_offset`.
    pub fn instruction_offset(self, value: i32) -> (r: DisassembleRequestArgumentsBuilder)
        ensures
            r == (DisassembleRequestArgumentsBuilder { instruction_offset: value, ..self }),
    {
        DisassembleRequestArgumentsBuilder { instruction_offset: value, ..self }
    }

    /// Sets `instruction_count`.
    pub fn instruction_count(self, value: i32) -> (r: DisassembleRequestArgumentsBuilder)
        ensures
            r == (DisassembleRequestArgumentsBuilder { instruction_count: Some(value), ..self }),
    {
        DisassembleRequestArgumentsBuilder { instruction_count: Some(value), ..self }
    }

    /// Sets `resolve_symbols`.
    pub fn resolve_symbols(self, value: bool) -> (r: DisassembleRequestArgumentsBuilder)
        ensures
            r == (DisassembleRequestArgumentsBuilder { resolve_symbols: value, ..self }),
    {
        DisassembleRequestArgumentsBuilder { resolve_symbols: value, ..self }
    }

    /// Whether every field without a default has been set.
    pub open spec fn complete(self) -> bool {
        &&& self.memory_reference is Some
        &&& self.instruction_count is Some
    }

    /// The value with the fields as they were set.
    pub fn build(self) -> (r: DisassembleRequestArguments)
        requires
            self.complete(),
        ensures
            r == (DisassembleRequestArguments {
                memory_reference: self.memory_reference->Some_0,
                offset: self.offset,
                instruction_offset: self.instruction_offset,
                instruction_count: self.instruction_count->Some_0,
                resolve_symbols: self.resolve_symbols,
            }),
    {
        DisassembleRequestArguments {
            memory_reference: self.memory_reference.unwrap(),
            offset: self.offset,
            instruction_offset: self.instruction_offset,
            instruction_count: self.instruction_count.unwrap(),
            resolve_symbols: self.resolve_symbols,
        }
    }
}

impl From<DisassembleRequestArguments> for Request {
    fn from(args: DisassembleRequestArguments) -> (r: Request) {
        Request::Disassemble(args)
    }
}

impl vstd::std_specs::convert::FromSpecImpl<DisassembleRequestArguments> for Request {
    open spec fn obeys_from_spec() -> bool {
        true
    }

    open spec fn from_spec(args: DisassembleRequestArguments) -> Request {
        Request::Disassemble(args)
    }
}

impl From<DisassembleRequestArguments> for ProtocolMessageContent {
    fn from(args: DisassembleRequestArguments) -> (r: ProtocolMessageContent) {
        ProtocolMessageContent::Request(Request::Disassemble(args))
    }
}

impl vstd::std_specs::convert::FromSpecImpl<DisassembleRequestArguments> for ProtocolMessageContent {
    open spec fn obeys_from_spec() -> bool {
        true
    }

    open spec fn from_spec(args: DisassembleRequestArguments) -> ProtocolMessageContent {
        ProtocolMessageContent::Request(Request::Disassemble(args))
    }
}

#[derive(Clone, Debug, PartialEq, Eq)]
pub struct DisconnectRequestArguments {
    /// A value of true indicates that this 'disconnect' request is part of a restart sequence.
    pub restart: bool,

    /// Indicates whether the debuggee should be terminated when the debugger is disconnected.
    ///
    /// If unspecified, the debug adapter is free to do whatever it thinks is best.
    ///
    /// The attribute is only honored by a debug adapter if the capability 'supportTerminateDebuggee' is true.
    pub terminate_debuggee: Option<bool>,

    /// Indicates whether the debuggee should stay suspended when the debugger is disconnected.
    ///
    /// If unspecified, the debuggee should resume execution.
    ///
    /// The attribute is only honored by a debug adapter if the capability 'supportSuspendDebuggee' is true.
    pub suspend_debuggee: bool,
}

impl DisconnectRequestArguments {
    /// The fields that are written for a value.
    pub open spec fn fields(m: DisconnectRequestArguments) -> JsonObject {
        let o = empty_object();
        let o = with_nondefault_field::<bool>(o, "restart"@, m.restart, false);
        let o = with_opt_field::<bool>(o, "terminateDebuggee"@, m.terminate_debuggee);
        let o = with_nondefault_field::<bool>(o, "suspendDebuggee"@, m.suspend_debuggee, false);
        o
    }

    /// What the fields of an object decode to: the first failure in the order of
    /// the fields, or the value.
    pub open spec fn decode_fields(o: JsonObject) -> Result<DisconnectRequestArguments, DecodeErrorView> {
        let restart = default_field::<bool>(o, "restart"@, false);
        let terminate_debuggee = opt_field::<bool>(o, "terminateDebuggee"@);
        let suspend_debuggee = default_field::<bool>(o, "suspendDebuggee"@, false);
        if restart is Err {
            Err(restart->Err_0)
        } else if terminate_debuggee is Err {
            Err(terminate_debuggee->Err_0)
        } else if suspend_debuggee is Err {
            Err(suspend_debuggee->Err_0)
        } else {
            Ok(DisconnectRequestArguments {
                restart: restart->Ok_0,
                terminate_debuggee: terminate_debuggee->Ok_0,
                suspend_debuggee: suspend_debuggee->Ok_0,
            })
        }
    }

    /// Writes the fields of the value into a fresh object.
    pub fn to_object(&self) -> (o: serde_json::Map<String, serde_json::Value>)
        ensures
            object_model(o) == DisconnectRequestArguments::fields(*self),
    {
        let mut o = object_new();
        put_flag(&mut o, "restart", self.restart);
        put_opt::<bool>(&mut o, "terminateDebuggee", &self.terminate_debuggee);
        put_flag(&mut o, "suspendDebuggee", self.suspend_debuggee);
        o
    }

    /// Reads a value from the fields of an object.
    pub fn from_object(o: &serde_json::Map<String, serde_json::Value>) -> (r: Result<
        DisconnectRequestArguments,
        DecodeError,
    >)
        ensures
            match r {
                Ok(x) => DisconnectRequestArguments::decode_fields(object_model(*o)) matches Ok(m) && m == x.model(),
                Err(e) => DisconnectRequestArguments::decode_fields(object_model(*o)) matches Err(f) && f == e@,
            },
    {
        let restart = get_or::<bool>(o, "restart", false)?;
        let terminate_debuggee = get_opt::<bool>(o, "terminateDebuggee")?;
        let suspend_debuggee = get_or::<bool>(o, "suspendDebuggee", false)?;
        Ok(DisconnectRequestArguments { restart, terminate_debuggee, suspend_debuggee })
    }
}

impl Wire for DisconnectRequestArguments {
    type Model = DisconnectRequestArguments;

    open spec fn model(&self) -> DisconnectRequestArguments {
        *self
    }

    open spec fn wire_ok(m: DisconnectRequestArguments) -> bool {
        true
    }

    open spec fn encode_json(m: DisconnectRequestArguments) -> Json {
        Json::Object(DisconnectRequestArguments::fields(m))
    }

    open spec fn decode_json(j: Json) -> Result<DisconnectRequestArguments, DecodeErrorView> {
        match j {
            Json::Object(o) => DisconnectRequestArguments::decode_fields(o),
            _ => Err(DecodeErrorView::InvalidType),
        }
    }

    fn to_value(&self) -> (r: serde_json::Value) {
        value_object(self.to_object())
    }

    fn from_value(v: &serde_json::Value) -> (r: Result<DisconnectRequestArguments, DecodeError>) {
        match value_as_object(v) {
            Some(o) => DisconnectRequestArguments::from_object(o),
            None => Err(DecodeError::InvalidType),
        }
    }

    proof fn lemma_round_trip(m: DisconnectRequestArguments) {
        broadcast use group_field_rules;

        reveal(default_field);
        reveal(opt_field);
        reveal_strlit("restart");
        reveal_strlit("terminateDebuggee");
        reveal_strlit("suspendDebuggee");
        assert("restart"@.len() == 7);
        assert("terminateDebuggee"@.len() == 17);
        assert("suspendDebuggee"@.len() == 15);
        let o = DisconnectRequestArguments::fields(m);
        bool::lemma_round_trip(m.restart);
        assert(default_field::<bool>(o, "restart"@, false) matches Ok(v) && v == m.restart);
        Option::<bool>::lemma_round_trip(m.terminate_debuggee);
        assert(opt_field::<bool>(o, "terminateDebuggee"@) matches Ok(v) && v == m.terminate_debuggee);
        bool::lemma_round_trip(m.suspend_debuggee);
        assert(default_field::<bool>(o, "suspendDebuggee"@, false) matches Ok(v) && v == m.suspend_debuggee);
    }
}

impl Record for DisconnectRequestArguments {
    open spec fn field_names() -> Set<Seq<char>> {
        set!["restart"@, "terminateDebuggee"@, "suspendDebuggee"@]
    }

    proof fn lemma_unknown_field(o: JsonObject, key: Seq<char>, x: Json) {
        broadcast use group_field_rules;

        reveal(default_field);
        reveal(opt_field);
    }
}

impl Defaults for DisconnectRequestArguments {
    open spec fn elidable_names() -> Set<Seq<char>> {
        set!["restart"@, "terminateDebuggee"@, "suspendDebuggee"@]
    }

    open spec fn at_defaults(m: DisconnectRequestArguments) -> bool {
        &&& !m.restart
        &&& m.terminate_debuggee is None
        &&& !m.suspend_debuggee
    }

    proof fn lemma_defaults_elided(m: DisconnectRequestArguments, key: Seq<char>) {
        broadcast use group_field_rules;

        reveal_strlit("restart");
        reveal_strlit("terminateDebuggee");
        reveal_strlit("suspendDebuggee");
        assert("restart"@.len() == 7);
        assert("terminateDebuggee"@.len() == 17);
        assert("suspendDebuggee"@.len() == 15);
    }
}

/// Gathers the fields of a [`DisconnectRequestArguments`] one by one.
pub struct DisconnectRequestArgumentsBuilder {
    pub restart: bool,
    pub terminate_debuggee: Option<bool>,
    pub suspend_debuggee: bool,
}

impl DisconnectRequestArguments {
    /// A builder in which every field with a default holds its default.
    pub fn builder() -> (r: DisconnectRequestArgumentsBuilder)
        ensures
            !r.restart,
            r.terminate_debuggee is None,
            !r.suspend_debuggee,
    {
        DisconnectRequestArgumentsBuilder {
            restart: false,
            terminate_debuggee: None,
            suspend_debuggee: false,
        }
    }
}

impl DisconnectRequestArgumentsBuilder {
    /// Sets `restart`.
    pub fn restart(self, value: bool) -> (r: DisconnectRequestArgumentsBuilder)
        ensures
            r == (DisconnectRequestArgumentsBuilder { restart: value, ..self }),
    {
        DisconnectRequestArgumentsBuilder { restart: value, ..self }
    }

    /// Sets `terminate_debuggee`.
    pub fn terminate_debuggee(self, value: Option<bool>) -> (r: DisconnectRequestArgumentsBuilder)
        ensures
            r == (DisconnectRequestArgumentsBuilder { terminate_debuggee: value, ..self }),
    {
        DisconnectRequestArgumentsBuilder { terminate_debuggee: value, ..self }
    }

    /// Sets `suspend_debuggee`.
    pub fn suspend_debuggee(self, value: bool) -> (r: DisconnectRequestArgumentsBuilder)
        ensures
            r == (DisconnectRequestArgumentsBuilder { suspend_debuggee: value, ..self }),
    {
        DisconnectRequestArgumentsBuilder { suspend_debuggee: value, ..self }
    }

    /// Whether every field without a default has been set.
    pub open spec fn complete(self) -> bool {
        true
    }

    /// The value with the fields as they were set.
    pub fn build(self) -> (r: DisconnectRequestArguments)
        ensures
            r == (DisconnectRequestArguments {
                restart: self.restart,
                terminate_debuggee: self.terminate_debuggee,
                suspend_debuggee: self.suspend_debuggee,
            }),
    {
        DisconnectRequestArguments {
            restart: self.restart,
            terminate_debuggee: self.terminate_debuggee,
            suspend_debuggee: self.suspend_debuggee,
        }
    }
}

impl From<DisconnectRequestArguments> for Request {
    fn from(args: DisconnectRequestArguments) -> (r: Request) {
        Request::Disconnect(args)
    }
}

impl vstd::std_specs::convert::FromSpecImpl<DisconnectRequestArguments> for Request {
    open spec fn obeys_from_spec() -> bool {
        true
    }

    open spec fn from_spec(args: DisconnectRequestArguments) -> Request {
        Request::Disconnect(args)
    }
}

impl From<DisconnectRequestArguments> for ProtocolMessageContent {
    fn from(args: DisconnectRequestArguments) -> (r: ProtocolMessageContent) {
        ProtocolMessageContent::Request(Request::Disconnect(args))
    }
}

impl vstd::std_specs::convert::FromSpecImpl<DisconnectRequestArguments> for ProtocolMessageContent {
    open spec fn obeys_from_spec() -> bool {
        true
    }

    open spec fn from_spec(args: DisconnectRequestArguments) -> ProtocolMessageContent {
        ProtocolMessageContent::Request(Request::Disconnect(args))
    }
}

#[derive(Clone, Debug, PartialEq, Eq)]
pub struct EvaluateRequestArguments {
    /// The expression to evaluate.
    pub expression: String,

    /// Evaluate the expression in the scope of this stack frame. If not specified, the expression is evaluated in the global scope.
    pub frame_id: Option<i32>,

    /// The context in which the evaluate request is run.
    pub context: Option<EvaluateRequestContext>,

    /// Specifies details on how to format the Evaluate result.
    ///
    /// The attribute is only honored by a debug adapter if the capability 'supportsValueFormattingOptions' is true.
    pub format: Option<ValueFormat>,
}

/// The mathematical content of a [`EvaluateRequestArguments`].
pub struct EvaluateRequestArgumentsView {
    pub expression: Seq<char>,
    pub frame_id: Option<i32>,
    pub context: Option<EvaluateRequestContext>,
    pub format: Option<ValueFormat>,
}

impl View for EvaluateRequestArguments {
    type V = EvaluateRequestArgumentsView;

    open spec fn view(&self) -> EvaluateRequestArgumentsView {
        EvaluateRequestArgumentsView {
            expression: self.expression.model(),
            frame_id: self.frame_id.model(),
            context: self.context.model(),
            format: self.format.model(),
        }
    }
}

impl EvaluateRequestArguments {
    /// The fields that are written for a value.
    pub open spec fn fields(m: EvaluateRequestArgumentsView) -> JsonObject {
        let o = empty_object();
        let o = with_field::<String>(o, "expression"@, m.expression);
        let o = with_opt_field::<i32>(o, "frameId"@, m.frame_id);
        let o = with_opt_field::<EvaluateRequestContext>(o, "context"@, m.context);
        let o = with_opt_field::<ValueFormat>(o, "format"@, m.format);
        o
    }

    /// What the fields of an object decode to: the first failure in the order of
    /// the fields, or the value.
    pub open spec fn decode_fields(o: JsonObject) -> Result<EvaluateRequestArgumentsView, DecodeErrorView> {
        let expression = req_field::<String>(o, "expression"@);
        let frame_id = opt_field::<i32>(o, "frameId"@);
        let context = opt_field::<EvaluateRequestContext>(o, "context"@);
        let format = opt_field::<ValueFormat>(o, "format"@);
        if expression is Err {
            Err(expression->Err_0)
        } else if frame_id is Err {
            Err(frame_id->Err_0)
        } else if context is Err {
            Err(context->Err_0)
        } else if format is Err {
            Err(format->Err_0)
        } else {
            Ok(EvaluateRequestArgumentsView {
                expression: expression->Ok_0,
                frame_id: frame_id->Ok_0,
                context: context->Ok_0,
                format: format->Ok_0,
            })
        }
    }

    /// Writes the fields of the value into a fresh object.
    pub fn to_object(&self) -> (o: serde_json::Map<String, serde_json::Value>)
        ensures
            object_model(o) == EvaluateRequestArguments::fields(self@),
    {
        let mut o = object_new();
        put::<String>(&mut o, "expression", &self.expression);
        put_opt::<i32>(&mut o, "frameId", &self.frame_id);
        put_opt::<EvaluateRequestContext>(&mut o, "context", &self.context);
        put_opt::<ValueFormat>(&mut o, "format", &self.format);
        o
    }

    /// Reads a value from the fields of an object.
    pub fn from_object(o: &serde_json::Map<String, serde_json::Value>) -> (r: Result<
        EvaluateRequestArguments,
        DecodeError,
    >)
        ensures
            match r {
                Ok(x) => EvaluateRequestArguments::decode_fields(object_model(*o)) matches Ok(m) && m == x.model(),
                Err(e) => EvaluateRequestArguments::decode_fields(object_model(*o)) matches Err(f) && f == e@,
            },
    {
        let expression = get_req::<String>(o, "expression")?;
        let frame_id = get_opt::<i32>(o, "frameId")?;
        let context = get_opt::<EvaluateRequestContext>(o, "context")?;
        let format = get_opt::<ValueFormat>(o, "format")?;
        Ok(EvaluateRequestArguments { expression, frame_id, context, format })
    }
}

impl Wire for EvaluateRequestArguments {
    type Model = EvaluateRequestArgumentsView;

    open spec fn model(&self) -> EvaluateRequestArgumentsView {
        self@
    }

    open spec fn wire_ok(m: EvaluateRequestArgumentsView) -> bool {
        true
    }

    open spec fn encode_json(m: EvaluateRequestArgumentsView) -> Json {
        Json::Object(EvaluateRequestArguments::fields(m))
    }

    open spec fn decode_json(j: Json) -> Result<EvaluateRequestArgumentsView, DecodeErrorView> {
        match j {
            Json::Object(o) => EvaluateRequestArguments::decode_fields(o),
            _ => Err(DecodeErrorView::InvalidType),
        }
    }

    fn to_value(&self) -> (r: serde_json::Value) {
        value_object(self.to_object())
    }

    fn from_value(v: &serde_json::Value) -> (r: Result<EvaluateRequestArguments, DecodeError>) {
        match value_as_object(v) {
            Some(o) => EvaluateRequestArguments::from_object(o),
            None => Err(DecodeError::InvalidType),
        }
    }

    proof fn lemma_round_trip(m: EvaluateRequestArgumentsView) {
        broadcast use group_field_rules;

        reveal(opt_field);
        reveal(req_field);
        reveal_strlit("expression");
        reveal_strlit("frameId");
        reveal_strlit("context");
        reveal_strlit("format");
        assert("expression"@.len() == 10);
        assert("frameId"@.len() == 7);
        assert("context"@.len() == 7);
        assert("format"@.len() == 6);
        assert("frameId"@[0] != "context"@[0]);
        let o = EvaluateRequestArguments::fields(m);
        String::lemma_round_trip(m.expression);
        assert(req_field::<String>(o, "expression"@) matches Ok(v) && v == m.expression);
        Option::<i32>::lemma_round_trip(m.frame_id);
        assert(opt_field::<i32>(o, "frameId"@) matches Ok(v) && v == m.frame_id);
        Option::<EvaluateRequestContext>::lemma_round_trip(m.context);
        assert(opt_field::<EvaluateRequestContext>(o, "context"@) matches Ok(v) && v == m.context);
        Option::<ValueFormat>::lemma_round_trip(m.format);
        assert(opt_field::<ValueFormat>(o, "format"@) matches Ok(v) && v == m.format);
    }
}

impl Record for EvaluateRequestArguments {
    open spec fn field_names() -> Set<Seq<char>> {
        set!["expression"@, "frameId"@, "context"@, "format"@]
    }

    proof fn lemma_unknown_field(o: JsonObject, key: Seq<char>, x: Json) {
        broadcast use group_field_rules;

        reveal(opt_field);
        reveal(req_field);
    }
}

impl Defaults for EvaluateRequestArguments {
    open spec fn elidable_names() -> Set<Seq<char>> {
        set!["frameId"@, "context"@, "format"@]
    }

    open spec fn at_defaults(m: EvaluateRequestArgumentsView) -> bool {
        &&& m.frame_id is None
        &&& m.context is None
        &&& m.format is None
    }

    proof fn lemma_defaults_elided(m: EvaluateRequestArgumentsView, key: Seq<char>) {
        broadcast use group_field_rules;

        reveal_strlit("expression");
        reveal_strlit("frameId");
        reveal_strlit("context");
        reveal_strlit("format");
        assert("expression"@.len() == 10);
        assert("frameId"@.len() == 7);
        assert("context"@.len() == 7);
        assert("format"@.len() == 6);
        assert("frameId"@[0] != "context"@[0]);
    }
}

/// Gathers the fields of a [`EvaluateRequestArguments`] one by one.
///
/// A field without a default has to be set before the value is built.
pub struct EvaluateRequestArgumentsBuilder {
    pub expression: Option<String>,
    pub frame_id: Option<i32>,
    pub context: Option<EvaluateRequestContext>,
    pub format: Option<ValueFormat>,
}

impl EvaluateRequestArguments {
    /// A builder in which every field with a default holds its default.
    pub fn builder() -> (r: EvaluateRequestArgumentsBuilder)
        ensures
            r.expression is None,
            r.frame_id is None,
            r.context is None,
            r.format is None,
    {
        EvaluateRequestArgumentsBuilder {
            expression: None,
            frame_id: None,
            context: None,
            format: None,
        }
    }
}

impl EvaluateRequestArgumentsBuilder {
    /// Sets `expression`.
    pub fn expression(self, value: String) -> (r: EvaluateRequestArgumentsBuilder)
        ensures
            r == (EvaluateRequestArgumentsBuilder { expression: Some(value), ..self }),
    {
        EvaluateRequestArgumentsBuilder { expression: Some(value), ..self }
    }

    /// Sets `frame_id`.
    pub fn frame_id(self, value: Option<i32>) -> (r: EvaluateRequestArgumentsBuilder)
        ensures
            r == (EvaluateRequestArgumentsBuilder { frame_id: value, ..self }),
    {
        EvaluateRequestArgumentsBuilder { frame_id: value, ..self }
    }

    /// Sets `context`.
    pub fn context(self, value: Option<EvaluateRequestContext>) -> (r: EvaluateRequestArgumentsBuilder)
        ensures
            r == (EvaluateRequestArgumentsBuilder { context: value, ..self }),
    {
        EvaluateRequestArgumentsBuilder { context: value, ..self }
    }

    /// Sets `format`.
    pub fn format(self, value: Option<ValueFormat>) -> (r: EvaluateRequestArgumentsBuilder)
        ensures
            r == (EvaluateRequestArgumentsBuilder { format: value, ..self }),
    {
        EvaluateRequestArgumentsBuilder { format: value, ..self }
    }

    /// Whether every field without a default has been set.
    pub open spec fn complete(self) -> bool {
        &&& self.expression is Some
    }

    /// The value with the fields as they were set.
    pub fn build(self) -> (r: EvaluateRequestArguments)
        requires
            self.complete(),
        ensures
            r == (EvaluateRequestArguments {
                expression: self.expression->Some_0,
                frame_id: self.frame_id,
                context: self.context,
                format: self.format,
            }),
    {
        EvaluateRequestArguments {
            expression: self.expression.unwrap(),
            frame_id: self.frame_id,
            context: self.context,
            format: self.format,
        }
    }
}

impl From<EvaluateRequestArguments> for Request {
    fn from(args: EvaluateRequestArguments) -> (r: Request) {
        Request::Evaluate(args)
    }
}

impl vstd::std_specs::convert::FromSpecImpl<EvaluateRequestArguments> for Request {
    open spec fn obeys_from_spec() -> bool {
        true
    }

    open spec fn from_spec(args: EvaluateRequestArguments) -> Request {
        Request::Evaluate(args)
    }
}

impl From<EvaluateRequestArguments> for ProtocolMessageContent {
    fn from(args: EvaluateRequestArguments) -> (r: ProtocolMessageContent) {
        ProtocolMessageContent::Request(Request::Evaluate(args))
    }
}

impl vstd::std_specs::convert::FromSpecImpl<EvaluateRequestArguments> for ProtocolMessageContent {
    open spec fn obeys_from_spec() -> bool {
        true
    }

    open spec fn from_spec(args: EvaluateRequestArguments) -> ProtocolMessageContent {
        ProtocolMessageContent::Request(Request::Evaluate(args))
    }
}

#[derive(Clone, Copy, Debug, PartialEq, Eq, Structural)]
pub enum EvaluateRequestContext {
    /// evaluate is run in a watch.
    Watch,
    /// evaluate is run from REPL console.
    REPL,
    /// evaluate is run from a data hover.
    Hover,
    /// evaluate is run to generate the value that will be stored in the clipboard.
    ///
    /// The attribute is only honored by a debug adapter if the capability 'supportsClipboardContext' is true.
    Clipboard,
}

impl EvaluateRequestContext {
    /// The name under which the value travels.
    pub open spec fn name(self) -> Seq<char> {
        match self {
            EvaluateRequestContext::Watch => "watch"@,
            EvaluateRequestContext::REPL => "repl"@,
            EvaluateRequestContext::Hover => "hover"@,
            EvaluateRequestContext::Clipboard => "clipboard"@,
        }
    }

    /// The value that travels under `s`, if there is one.
    pub open spec fn named(s: Seq<char>) -> Option<EvaluateRequestContext> {
        if s == "watch"@ {
            Some(EvaluateRequestContext::Watch)
        } else if s == "repl"@ {
            Some(EvaluateRequestContext::REPL)
        } else if s == "hover"@ {
            Some(EvaluateRequestContext::Hover)
        } else if s == "clipboard"@ {
            Some(EvaluateRequestContext::Clipboard)
        } else {
            None
        }
    }

    pub fn as_str(&self) -> (r: &'static str)
        ensures
            r@ == self.name(),
    {
        match self {
            EvaluateRequestContext::Watch => "watch",
            EvaluateRequestContext::REPL => "repl",
            EvaluateRequestContext::Hover => "hover",
            EvaluateRequestContext::Clipboard => "clipboard",
        }
    }

    pub fn from_name(s: &str) -> (r: Option<EvaluateRequestContext>)
        ensures
            r == EvaluateRequestContext::named(s@),
    {
        if str_eq(s, "watch") {
            Some(EvaluateRequestContext::Watch)
        } else if str_eq(s, "repl") {
            Some(EvaluateRequestContext::REPL)
        } else if str_eq(s, "hover") {
            Some(EvaluateRequestContext::Hover)
        } else if str_eq(s, "clipboard") {
            Some(EvaluateRequestContext::Clipboard)
        } else {
            None
        }
    }

    /// Every value is found again under its name.
    pub proof fn lemma_named(self)
        ensures
            EvaluateRequestContext::named(self.name()) == Some(self),
    {
        reveal_strlit("watch");
        reveal_strlit("repl");
        reveal_strlit("hover");
        reveal_strlit("clipboard");
        assert("watch"@.len() == 5);
        assert("repl"@.len() == 4);
        assert("hover"@.len() == 5);
        assert("clipboard"@.len() == 9);
        assert("watch"@[0] != "hover"@[0]);
    }
}

impl Wire for EvaluateRequestContext {
    type Model = EvaluateRequestContext;

    open spec fn model(&self) -> EvaluateRequestContext {
        *self
    }

    open spec fn wire_ok(m: EvaluateRequestContext) -> bool {
        true
    }

    open spec fn encode_json(m: EvaluateRequestContext) -> Json {
        Json::Str(m.name())
    }

    open spec fn decode_json(j: Json) -> Result<EvaluateRequestContext, DecodeErrorView> {
        match j {
            Json::Str(s) => match EvaluateRequestContext::named(s) {
                Some(x) => Ok(x),
                None => Err(DecodeErrorView::InvalidType),
            },
            _ => Err(DecodeErrorView::InvalidType),
        }
    }

    fn to_value(&self) -> (r: serde_json::Value) {
        value_string(self.as_str().to_owned())
    }

    fn from_value(v: &serde_json::Value) -> (r: Result<EvaluateRequestContext, DecodeError>) {
        match value_as_str(v) {
            Some(s) => match EvaluateRequestContext::from_name(s) {
                Some(x) => Ok(x),
                None => Err(DecodeError::InvalidType),
            },
            None => Err(DecodeError::InvalidType),
        }
    }

    proof fn lemma_round_trip(m: EvaluateRequestContext) {
        m.lemma_named();
    }
}

#[derive(Clone, Debug, PartialEq, Eq)]
pub struct ExceptionInfoRequestArguments {
    /// Thread for which exception information should be retrieved.
    pub thread_id: i32,
}

impl ExceptionInfoRequestArguments {
    /// The fields that are written for a value.
    pub open spec fn fields(m: ExceptionInfoRequestArguments) -> JsonObject {
        let o = empty_object();
        let o = with_field::<i32>(o, "threadId"@, m.thread_id);
        o
    }

    /// What the fields of an object decode to: the first failure in the order of
    /// the fields, or the value.
    pub open spec fn decode_fields(o: JsonObject) -> Result<ExceptionInfoRequestArguments, DecodeErrorView> {
        let thread_id = req_field::<i32>(o, "threadId"@);
        if thread_id is Err {
            Err(thread_id->Err_0)
        } else {
            Ok(ExceptionInfoRequestArguments {
                thread_id: thread_id->Ok_0,
            })
        }
    }

    /// Writes the fields of the value into a fresh object.
    pub fn to_object(&self) -> (o: serde_json::Map<String, serde_json::Value>)
        ensures
            object_model(o) == ExceptionInfoRequestArguments::fields(*self),
    {
        let mut o = object_new();
        put::<i32>(&mut o, "threadId", &self.thread_id);
        o
    }

    /// Reads a value from the fields of an object.
    pub fn from_object(o: &serde_json::Map<String, serde_json::Value>) -> (r: Result<
        ExceptionInfoRequestArguments,
        DecodeError,
    >)
        ensures
            match r {
                Ok(x) => ExceptionInfoRequestArguments::decode_fields(object_model(*o)) matches Ok(m) && m == x.model(),
                Err(e) => ExceptionInfoRequestArguments::decode_fields(object_model(*o)) matches Err(f) && f == e@,
            },
    {
        let thread_id = get_req::<i32>(o, "threadId")?;
        Ok(ExceptionInfoRequestArguments { thread_id })
    }
}

impl Wire for ExceptionInfoRequestArguments {
    type Model = ExceptionInfoRequestArguments;

    open spec fn model(&self) -> ExceptionInfoRequestArguments {
        *self
    }

    open spec fn wire_ok(m: ExceptionInfoRequestArguments) -> bool {
        true
    }

    open spec fn encode_json(m: ExceptionInfoRequestArguments) -> Json {
        Json::Object(ExceptionInfoRequestArguments::fields(m))
    }

    open spec fn decode_json(j: Json) -> Result<ExceptionInfoRequestArguments, DecodeErrorView> {
        match j {
            Json::Object(o) => ExceptionInfoRequestArguments::decode_fields(o),
            _ => Err(DecodeErrorView::InvalidType),
        }
    }

    fn to_value(&self) -> (r: serde_json::Value) {
        value_object(self.to_object())
    }

    fn from_value(v: &serde_json::Value) -> (r: Result<ExceptionInfoRequestArguments, DecodeError>) {
        match value_as_object(v) {
            Some(o) => ExceptionInfoRequestArguments::from_object(o),
            None => Err(DecodeError::InvalidType),
        }
    }

    proof fn lemma_round_trip(m: ExceptionInfoRequestArguments) {
        broadcast use group_field_rules;

        reveal(req_field);
        reveal_strlit("threadId");
        assert("threadId"@.len() == 8);
        let o = ExceptionInfoRequestArguments::fields(m);
        i32::lemma_round_trip(m.thread_id);
        assert(req_field::<i32>(o, "threadId"@) matches Ok(v) && v == m.thread_id);
    }
}

impl Record for ExceptionInfoRequestArguments {
    open spec fn field_names() -> Set<Seq<char>> {
        set!["threadId"@]
    }

    proof fn lemma_unknown_field(o: JsonObject, key: Seq<char>, x: Json) {
        broadcast use group_field_rules;

        reveal(req_field);
    }
}

/// Gathers the fields of a [`ExceptionInfoRequestArguments`] one by one.
///
/// A field without a default has to be set before the value is built.
pub struct ExceptionInfoRequestArgumentsBuilder {
    pub thread_id: Option<i32>,
}

impl ExceptionInfoRequestArguments {
    /// A builder in which every field with a default holds its default.
    pub fn builder() -> (r: ExceptionInfoRequestArgumentsBuilder)
        ensures
            r.thread_id is None,
    {
        ExceptionInfoRequestArgumentsBuilder {
            thread_id: None,
        }
    }
}

impl ExceptionInfoRequestArgumentsBuilder {
    /// Sets `thread_id`.
    pub fn thread_id(self, value: i32) -> (r: ExceptionInfoRequestArgumentsBuilder)
        ensures
            r == (ExceptionInfoRequestArgumentsBuilder { thread_id: Some(value), ..self }),
    {
        ExceptionInfoRequestArgumentsBuilder { thread_id: Some(value), ..self }
    }

    /// Whether every field without a default has been set.
    pub open spec fn complete(self) -> bool {
        &&& self.thread_id is Some
    }

    /// The value with the fields as they were set.
    pub fn build(self) -> (r: ExceptionInfoRequestArguments)
        requires
            self.complete(),
        ensures
            r == (ExceptionInfoRequestArguments {
                thread_id: self.thread_id->Some_0,
            }),
    {
        ExceptionInfoRequestArguments {
            thread_id: self.thread_id.unwrap(),
        }
    }
}

impl From<ExceptionInfoRequestArguments> for Request {
    fn from(args: ExceptionInfoRequestArguments) -> (r: Request) {
        Request::ExceptionInfo(args)
    }
}

impl vstd::std_specs::convert::FromSpecImpl<ExceptionInfoRequestArguments> for Request {
    open spec fn obeys_from_spec() -> bool {
        true
    }

    open spec fn from_spec(args: ExceptionInfoRequestArguments) -> Request {
        Request::ExceptionInfo(args)
    }
}

impl From<ExceptionInfoRequestArguments> for ProtocolMessageContent {
    fn from(args: ExceptionInfoRequestArguments) -> (r: ProtocolMessageContent) {
        ProtocolMessageContent::Request(Request::ExceptionInfo(args))
    }
}

impl vstd::std_specs::convert::FromSpecImpl<ExceptionInfoRequestArguments> for ProtocolMessageContent {
    open spec fn obeys_from_spec() -> bool {
        true
    }

    open spec fn from_spec(args: ExceptionInfoRequestArguments) -> ProtocolMessageContent {
        ProtocolMessageContent::Request(Request::ExceptionInfo(args))
    }
}

#[derive(Clone, Debug, PartialEq, Eq)]
pub struct GotoRequestArguments {
    /// Set the goto target for this thread.
    pub thread_id: i32,

    /// The location where the debuggee will continue to run.
    pub target_id: i32,
}

impl GotoRequestArguments {
    /// The fields that are written for a value.
    pub open spec fn fields(m: GotoRequestArguments) -> JsonObject {
        let o = empty_object();
        let o = with_field::<i32>(o, "threadId"@, m.thread_id);
        let o = with_field::<i32>(o, "targetId"@, m.target_id);
        o
    }

    /// What the fields of an object decode to: the first failure in the order of
    /// the fields, or the value.
    pub open spec fn decode_fields(o: JsonObject) -> Result<GotoRequestArguments, DecodeErrorView> {
        let thread_id = req_field::<i32>(o, "threadId"@);
        let target_id = req_field::<i32>(o, "targetId"@);
        if thread_id is Err {
            Err(thread_id->Err_0)
        } else if target_id is Err {
            Err(target_id->Err_0)
        } else {
            Ok(GotoRequestArguments {
                thread_id: thread_id->Ok_0,
                target_id: target_id->Ok_0,
            })
        }
    }

    /// Writes the fields of the value into a fresh object.
    pub fn to_object(&self) -> (o: serde_json::Map<String, serde_json::Value>)
        ensures
            object_model(o) == GotoRequestArguments::fields(*self),
    {
        let mut o = object_new();
        put::<i32>(&mut o, "threadId", &self.thread_id);
        put::<i32>(&mut o, "targetId", &self.target_id);
        o
    }

    /// Reads a value from the fields of an object.
    pub fn from_object(o: &serde_json::Map<String, serde_json::Value>) -> (r: Result<
        GotoRequestArguments,
        DecodeError,
    >)
        ensures
            match r {
                Ok(x) => GotoRequestArguments::decode_fields(object_model(*o)) matches Ok(m) && m == x.model(),
                Err(e) => GotoRequestArguments::decode_fields(object_model(*o)) matches Err(f) && f == e@,
            },
    {
        let thread_id = get_req::<i32>(o, "threadId")?;
        let target_id = get_req::<i32>(o, "targetId")?;
        Ok(GotoRequestArguments { thread_id, target_id })
    }
}

impl Wire for GotoRequestArguments {
    type Model = GotoRequestArguments;

    open spec fn model(&self) -> GotoRequestArguments {
        *self
    }

    open spec fn wire_ok(m: GotoRequestArguments) -> bool {
        true
    }

    open spec fn encode_json(m: GotoRequestArguments) -> Json {
        Json::Object(GotoRequestArguments::fields(m))
    }

    open spec fn decode_json(j: Json) -> Result<GotoRequestArguments, DecodeErrorView> {
        match j {
            Json::Object(o) => GotoRequestArguments::decode_fields(o),
            _ => Err(DecodeErrorView::InvalidType),
        }
    }

    fn to_value(&self) -> (r: serde_json::Value) {
        value_object(self.to_object())
    }

    fn from_value(v: &serde_json::Value) -> (r: Result<GotoRequestArguments, DecodeError>) {
        match value_as_object(v) {
            Some(o) => GotoRequestArguments::from_object(o),
            None => Err(DecodeError::InvalidType),
        }
    }

    proof fn lemma_round_trip(m: GotoRequestArguments) {
        broadcast use group_field_rules;

        reveal(req_field);
        reveal_strlit("threadId");
        reveal_strlit("targetId");
        assert("threadId"@.len() == 8);
        assert("targetId"@.len() == 8);
        assert("threadId"@[1] != "targetId"@[1]);
        let o = GotoRequestArguments::fields(m);
        i32::lemma_round_trip(m.thread_id);
        assert(req_field::<i32>(o, "threadId"@) matches Ok(v) && v == m.thread_id);
        i32::lemma_round_trip(m.target_id);
        assert(req_field::<i32>(o, "targetId"@) matches Ok(v) && v == m.target_id);
    }
}

impl Record for GotoRequestArguments {
    open spec fn field_names() -> Set<Seq<char>> {
        set!["threadId"@, "targetId"@]
    }

    proof fn lemma_unknown_field(o: JsonObject, key: Seq<char>, x: Json) {
        broadcast use group_field_rules;

        reveal(req_field);
    }
}

/// Gathers the fields of a [`GotoRequestArguments`] one by one.
///
/// A field without a default has to be set before the value is built.
pub struct GotoRequestArgumentsBuilder {
    pub thread_id: Option<i32>,
    pub target_id: Option<i32>,
}

impl GotoRequestArguments {
    /// A builder in which every field with a default holds its default.
    pub fn builder() -> (r: GotoRequestArgumentsBuilder)
        ensures
            r.thread_id is None,
            r.target_id is None,
    {
        GotoRequestArgumentsBuilder {
            thread_id: None,
            target_id: None,
        }
    }
}

impl GotoRequestArgumentsBuilder {
    /// Sets `thread_id`.
    pub fn thread_id(self, value: i32) -> (r: GotoRequestArgumentsBuilder)
        ensures
            r == (GotoRequestArgumentsBuilder { thread_id: Some(value), ..self }),
    {
        GotoRequestArgumentsBuilder { thread_id: Some(value), ..self }
    }

    /// Sets `target_id`.
    pub fn target_id(self, value: i32) -> (r: GotoRequestArgumentsBuilder)
        ensures
            r == (GotoRequestArgumentsBuilder { target_id: Some(value), ..self }),
    {
        GotoRequestArgumentsBuilder { target_id: Some(value), ..self }
    }

    /// Whether every field without a default has been set.
    pub open spec fn complete(self) -> bool {
        &&& self.thread_id is Some
        &&& self.target_id is Some
    }

    /// The value with the fields as they were set.
    pub fn build(self) -> (r: GotoRequestArguments)
        requires
            self.complete(),
        ensures
            r == (GotoRequestArguments {
                thread_id: self.thread_id->Some_0,
                target_id: self.target_id->Some_0,
            }),
    {
        GotoRequestArguments {
            thread_id: self.thread_id.unwrap(),
            target_id: self.target_id.unwrap(),
        }
    }
}

impl From<GotoRequestArguments> for Request {
    fn from(args: GotoRequestArguments) -> (r: Request) {
        Request::Goto(args)
    }
}

impl vstd::std_specs::convert::FromSpecImpl<GotoRequestArguments> for Request {
    open spec fn obeys_from_spec() -> bool {
        true
    }

    open spec fn from_spec(args: GotoRequestArguments) -> Request {
        Request::Goto(args)
    }
}

impl From<GotoRequestArguments> for ProtocolMessageContent {
    fn from(args: GotoRequestArguments) -> (r: ProtocolMessageContent) {
        ProtocolMessageContent::Request(Request::Goto(args))
    }
}

impl vstd::std_specs::convert::FromSpecImpl<GotoRequestArguments> for ProtocolMessageContent {
    open spec fn obeys_from_spec() -> bool {
        true
    }

    open spec fn from_spec(args: GotoRequestArguments) -> ProtocolMessageContent {
        ProtocolMessageContent::Request(Request::Goto(args))
    }
}

#[derive(Clone, Debug, PartialEq, Eq)]
pub struct GotoTargetsRequestArguments {
    /// The source location for which the goto targets are determined.
    pub source: Source,

    /// The line location for which the goto targets are determined.
    pub line: i32,

    /// An optional column location for which the goto targets are determined.
    pub column: Option<i32>,
}

/// The mathematical content of a [`GotoTargetsRequestArguments`].
pub struct GotoTargetsRequestArgumentsView {
    pub source: SourceView,
    pub line: i32,
    pub column: Option<i32>,
}

impl View for GotoTargetsRequestArguments {
    type V = GotoTargetsRequestArgumentsView;

    open spec fn view(&self) -> GotoTargetsRequestArgumentsView {
        GotoTargetsRequestArgumentsView {
            source: self.source.model(),
            line: self.line,
            column: self.column.model(),
        }
    }
}

impl GotoTargetsRequestArguments {
    /// The fields that are written for a value.
    pub open spec fn fields(m: GotoTargetsRequestArgumentsView) -> JsonObject {
        let o = empty_object();
        let o = with_field::<Source>(o, "source"@, m.source);
        let o = with_field::<i32>(o, "line"@, m.line);
        let o = with_opt_field::<i32>(o, "column"@, m.column);
        o
    }

    /// What the fields of an object decode to: the first failure in the order of
    /// the fields, or the value.
    pub open spec fn decode_fields(o: JsonObject) -> Result<GotoTargetsRequestArgumentsView, DecodeErrorView> {
        let source = req_field::<Source>(o, "source"@);
        let line = req_field::<i32>(o, "line"@);
        let column = opt_field::<i32>(o, "column"@);
        if source is Err {
            Err(source->Err_0)
        } else if line is Err {
            Err(line->Err_0)
        } else if column is Err {
            Err(column->Err_0)
        } else {
            Ok(GotoTargetsRequestArgumentsView {
                source: source->Ok_0,
                line: line->Ok_0,
                column: column->Ok_0,
            })
        }
    }

    /// Writes the fields of the value into a fresh object.
    pub fn to_object(&self) -> (o: serde_json::Map<String, serde_json::Value>)
        ensures
            object_model(o) == GotoTargetsRequestArguments::fields(self@),
    {
        let mut o = object_new();
        put::<Source>(&mut o, "source", &self.source);
        put::<i32>(&mut o, "line", &self.line);
        put_opt::<i32>(&mut o, "column", &self.column);
        o
    }

    /// Reads a value from the fields of an object.
    pub fn from_object(o: &serde_json::Map<String, serde_json::Value>) -> (r: Result<
        GotoTargetsRequestArguments,
        DecodeError,
    >)
        ensures
            match r {
                Ok(x) => GotoTargetsRequestArguments::decode_fields(object_model(*o)) matches Ok(m) && m == x.model(),
                Err(e) => GotoTargetsRequestArguments::decode_fields(object_model(*o)) matches Err(f) && f == e@,
            },
    {
        let source = get_req::<Source>(o, "source")?;
        let line = get_req::<i32>(o, "line")?;
        let column = get_opt::<i32>(o, "column")?;
        Ok(GotoTargetsRequestArguments { source, line, column })
    }
}

impl Wire for GotoTargetsRequestArguments {
    type Model = GotoTargetsRequestArgumentsView;

    open spec fn model(&self) -> GotoTargetsRequestArgumentsView {
        self@
    }

    open spec fn wire_ok(m: GotoTargetsRequestArgumentsView) -> bool {
        &&& Source::wire_ok(m.source)
    }

    open spec fn encode_json(m: GotoTargetsRequestArgumentsView) -> Json {
        Json::Object(GotoTargetsRequestArguments::fields(m))
    }

    open spec fn decode_json(j: Json) -> Result<GotoTargetsRequestArgumentsView, DecodeErrorView> {
        match j {
            Json::Object(o) => GotoTargetsRequestArguments::decode_fields(o),
            _ => Err(DecodeErrorView::InvalidType),
        }
    }

    fn to_value(&self) -> (r: serde_json::Value) {
        value_object(self.to_object())
    }

    fn from_value(v: &serde_json::Value) -> (r: Result<GotoTargetsRequestArguments, DecodeError>) {
        match value_as_object(v) {
            Some(o) => GotoTargetsRequestArguments::from_object(o),
            None => Err(DecodeError::InvalidType),
        }
    }

    proof fn lemma_round_trip(m: GotoTargetsRequestArgumentsView) {
        broadcast use group_field_rules;

        reveal(opt_field);
        reveal(req_field);
        reveal_strlit("source");
        reveal_strlit("line");
        reveal_strlit("column");
        assert("source"@.len() == 6);
        assert("line"@.len() == 4);
        assert("column"@.len() == 6);
        assert("source"@[0] != "column"@[0]);
        let o = GotoTargetsRequestArguments::fields(m);
        Source::lemma_round_trip(m.source);
        assert(req_field::<Source>(o, "source"@) matches Ok(v) && v == m.source);
        i32::lemma_round_trip(m.line);
        assert(req_field::<i32>(o, "line"@) matches Ok(v) && v == m.line);
        Option::<i32>::lemma_round_trip(m.column);
        assert(opt_field::<i32>(o, "column"@) matches Ok(v) && v == m.column);
    }
}

impl Record for GotoTargetsRequestArguments {
    open spec fn field_names() -> Set<Seq<char>> {
        set!["source"@, "line"@, "column"@]
    }

    proof fn lemma_unknown_field(o: JsonObject, key: Seq<char>, x: Json) {
        broadcast use group_field_rules;

        reveal(opt_field);
        reveal(req_field);
    }
}

impl Defaults for GotoTargetsRequestArguments {
    open spec fn elidable_names() -> Set<Seq<char>> {
        set!["column"@]
    }

    open spec fn at_defaults(m: GotoTargetsRequestArgumentsView) -> bool {
        &&& m.column is None
    }

    proof fn lemma_defaults_elided(m: GotoTargetsRequestArgumentsView, key: Seq<char>) {
        broadcast use group_field_rules;

        reveal_strlit("source");
        reveal_strlit("line");
        reveal_strlit("column");
        assert("source"@.len() == 6);
        assert("line"@.len() == 4);
        assert("column"@.len() == 6);
        assert("source"@[0] != "column"@[0]);
    }
}

/// Gathers the fields of a [`GotoTargetsRequestArguments`] one by one.
///
/// A field without a default has to be set before the value is built.
pub struct GotoTargetsRequestArgumentsBuilder {
    pub source: Option<Source>,
    pub line: Option<i32>,
    pub column: Option<i32>,
}

impl GotoTargetsRequestArguments {
    /// A builder in which every field with a default holds its default.
    pub fn builder() -> (r: GotoTargetsRequestArgumentsBuilder)
        ensures
            r.source is None,
            r.line is None,
            r.column is None,
    {
        GotoTargetsRequestArgumentsBuilder {
            source: None,
            line: None,
            column: None,
        }
    }
}

impl GotoTargetsRequestArgumentsBuilder {
    /// Sets `source`.
    pub fn source(self, value: Source) -> (r: GotoTargetsRequestArgumentsBuilder)
        ensures
            r == (GotoTargetsRequestArgumentsBuilder { source: Some(value), ..self }),
    {
        GotoTargetsRequestArgumentsBuilder { source: Some(value), ..self }
    }

    /// Sets `line`.
    pub fn line(self, value: i32) -> (r: GotoTargetsRequestArgumentsBuilder)
        ensures
            r == (GotoTargetsRequestArgumentsBuilder { line: Some(value), ..self }),
    {
        GotoTargetsRequestArgumentsBuilder { line: Some(value), ..self }
    }

    /// Sets `column`.
    pub fn column(self, value: Option<i32>) -> (r: GotoTargetsRequestArgumentsBuilder)
        ensures
            r == (GotoTargetsRequestArgumentsBuilder { column: value, ..self }),
    {
        GotoTargetsRequestArgumentsBuilder { column: value, ..self }
    }

    /// Whether every field without a default has been set.
    pub open spec fn complete(self) -> bool {
        &&& self.source is Some
        &&& self.line is Some
    }

    /// The value with the fields as they were set.
    pub fn build(self) -> (r: GotoTargetsRequestArguments)
        requires
            self.complete(),
        ensures
            r == (GotoTargetsRequestArguments {
                source: self.source->Some_0,
                line: self.line->Some_0,
                column: self.column,
            }),
    {
        GotoTargetsRequestArguments {
            source: self.source.unwrap(),
            line: self.line.unwrap(),
            column: self.column,
        }
    }
}

impl From<GotoTargetsRequestArguments> for Request {
    fn from(args: GotoTargetsRequestArguments) -> (r: Request) {
        Request::GotoTargets(args)
    }
}

impl vstd::std_specs::convert::FromSpecImpl<GotoTargetsRequestArguments> for Request {
    open spec fn obeys_from_spec() -> bool {
        true
    }

    open spec fn from_spec(args: GotoTargetsRequestArguments) -> Request {
        Request::GotoTargets(args)
    }
}

impl From<GotoTargetsRequestArguments> for ProtocolMessageContent {
    fn from(args: GotoTargetsRequestArguments) -> (r: ProtocolMessageContent) {
        ProtocolMessageContent::Request(Request::GotoTargets(args))
    }
}

impl vstd::std_specs::convert::FromSpecImpl<GotoTargetsRequestArguments> for ProtocolMessageContent {
    open spec fn obeys_from_spec() -> bool {
        true
    }

    open spec fn from_spec(args: GotoTargetsRequestArguments) -> ProtocolMessageContent {
        ProtocolMessageContent::Request(Request::GotoTargets(args))
    }
}

#[derive(Clone, Debug, PartialEq, Eq)]
pub struct InitializeRequestArguments {
    /// The ID of the (frontend) client using this adapter.
    pub client_id: Option<String>,

    /// The human readable name of the (frontend) client using this adapter.
    pub client_name: Option<String>,

    /// The ID of the debug adapter.
    pub adapter_id: String,

    /// The ISO-639 locale of the (frontend) client using this adapter, e.g. en-US or de-CH.
    pub locale: Option<String>,

    /// If true all line numbers are 1-based (default).
    pub lines_start_at_1: bool,

    /// If true all column numbers are 1-based (default).
    pub columns_start_at_1: bool,

    /// Determines in what format paths are specified. The default is 'path', which is the native format.
    pub path_format: PathFormat,

    /// Client supports the optional type attribute for variables.
    pub supports_variable_type: bool,

    /// Client supports the paging of variables.
    pub supports_variable_paging: bool,

    /// Client supports the runInTerminal request.
    pub supports_run_in_terminal_request: bool,

    /// Client supports memory references.
    pub supports_memory_references: bool,

    /// Client supports progress reporting.
    pub supports_progress_reporting: bool,

    /// Client supports the invalidated event.
    pub supports_invalidated_event: bool,
}

/// The mathematical content of a [`InitializeRequestArguments`].
pub struct InitializeRequestArgumentsView {
    pub client_id: Option<Seq<char>>,
    pub client_name: Option<Seq<char>>,
    pub adapter_id: Seq<char>,
    pub locale: Option<Seq<char>>,
    pub lines_start_at_1: bool,
    pub columns_start_at_1: bool,
    pub path_format: PathFormat,
    pub supports_variable_type: bool,
    pub supports_variable_paging: bool,
    pub supports_run_in_terminal_request: bool,
    pub supports_memory_references: bool,
    pub supports_progress_reporting: bool,
    pub supports_invalidated_event: bool,
}

impl View for InitializeRequestArguments {
    type V = InitializeRequestArgumentsView;

    open spec fn view(&self) -> InitializeRequestArgumentsView {
        InitializeRequestArgumentsView {
            client_id: self.client_id.model(),
            client_name: self.client_name.model(),
            adapter_id: self.adapter_id.model(),
            locale: self.locale.model(),
            lines_start_at_1: self.lines_start_at_1,
            columns_start_at_1: self.columns_start_at_1,
            path_format: self.path_format,
            supports_variable_type: self.supports_variable_type,
            supports_variable_paging: self.supports_variable_paging,
            supports_run_in_terminal_request: self.supports_run_in_terminal_request,
            supports_memory_references: self.supports_memory_references,
            supports_progress_reporting: self.supports_progress_reporting,
            supports_invalidated_event: self.supports_invalidated_event,
        }
    }
}

impl InitializeRequestArguments {
    /// The fields that are written for a value.
    pub open spec fn fields(m: InitializeRequestArgumentsView) -> JsonObject {
        let o = empty_object();
        let o = with_opt_field::<String>(o, "clientID"@, m.client_id);
        let o = with_opt_field::<String>(o, "clientName"@, m.client_name);
        let o = with_field::<String>(o, "adapterID"@, m.adapter_id);
        let o = with_opt_field::<String>(o, "locale"@, m.locale);
        let o = with_field::<bool>(o, "linesStartAt1"@, m.lines_start_at_1);
        let o = with_field::<bool>(o, "columnsStartAt1"@, m.columns_start_at_1);
        let o = with_nondefault_field::<PathFormat>(o, "pathFormat"@, m.path_format, PathFormat::Path);
        let o = with_nondefault_field::<bool>(o, "supportsVariableType"@, m.supports_variable_type, false);
        let o = with_nondefault_field::<bool>(o, "supportsVariablePaging"@, m.supports_variable_paging, false);
        let o = with_nondefault_field::<bool>(o, "supportsRunInTerminalRequest"@, m.supports_run_in_terminal_request, false);
        let o = with_nondefault_field::<bool>(o, "supportsMemoryReferences"@, m.supports_memory_references, false);
        let o = with_nondefault_field::<bool>(o, "supportsProgressReporting"@, m.supports_progress_reporting, false);
        let o = with_nondefault_field::<bool>(o, "supportsInvalidatedEvent"@, m.supports_invalidated_event, false);
        o
    }

    /// What the fields of an object decode to: the first failure in the order of
    /// the fields, or the value.
    pub open spec fn decode_fields(o: JsonObject) -> Result<InitializeRequestArgumentsView, DecodeErrorView> {
        let client_id = opt_field::<String>(o, "clientID"@);
        let client_name = opt_field::<String>(o, "clientName"@);
        let adapter_id = req_field::<String>(o, "adapterID"@);
        let locale = opt_field::<String>(o, "locale"@);
        let lines_start_at_1 = default_field::<bool>(o, "linesStartAt1"@, true);
        let columns_start_at_1 = default_field::<bool>(o, "columnsStartAt1"@, true);
        let path_format = default_field::<PathFormat>(o, "pathFormat"@, PathFormat::Path);
        let supports_variable_type = default_field::<bool>(o, "supportsVariableType"@, false);
        let supports_variable_paging = default_field::<bool>(o, "supportsVariablePaging"@, false);
        let supports_run_in_terminal_request = default_field::<bool>(o, "supportsRunInTerminalRequest"@, false);
        let supports_memory_references = default_field::<bool>(o, "supportsMemoryReferences"@, false);
        let supports_progress_reporting = default_field::<bool>(o, "supportsProgressReporting"@, false);
        let supports_invalidated_event = default_field::<bool>(o, "supportsInvalidatedEvent"@, false);
        if client_id is Err {
            Err(client_id->Err_0)
        } else if client_name is Err {
            Err(client_name->Err_0)
        } else if adapter_id is Err {
            Err(adapter_id->Err_0)
        } else if locale is Err {
            Err(locale->Err_0)
        } else if lines_start_at_1 is Err {
            Err(lines_start_at_1->Err_0)
        } else if columns_start_at_1 is Err {
            Err(columns_start_at_1->Err_0)
        } else if path_format is Err {
            Err(path_format->Err_0)
        } else if supports_variable_type is Err {
            Err(supports_variable_type->Err_0)
        } else if supports_variable_paging is Err {
            Err(supports_variable_paging->Err_0)
        } else if supports_run_in_terminal_request is Err {
            Err(supports_run_in_terminal_request->Err_0)
        } else if supports_memory_references is Err {
            Err(supports_memory_references->Err_0)
        } else if supports_progress_reporting is Err {
            Err(supports_progress_reporting->Err_0)
        } else if supports_invalidated_event is Err {
            Err(supports_invalidated_event->Err_0)
        } else {
            Ok(InitializeRequestArgumentsView {
                client_id: client_id->Ok_0,
                client_name: client_name->Ok_0,
                adapter_id: adapter_id->Ok_0,
                locale: locale->Ok_0,
                lines_start_at_1: lines_start_at_1->Ok_0,
                columns_start_at_1: columns_start_at_1->Ok_0,
                path_format: path_format->Ok_0,
                supports_variable_type: supports_variable_type->Ok_0,
                supports_variable_paging: supports_variable_paging->Ok_0,
                supports_run_in_terminal_request: supports_run_in_terminal_request->Ok_0,
                supports_memory_references: supports_memory_references->Ok_0,
                supports_progress_reporting: supports_progress_reporting->Ok_0,
                supports_invalidated_event: supports_invalidated_event->Ok_0,
            })
        }
    }

    /// Writes the fields of the value into a fresh object.
    pub fn to_object(&self) -> (o: serde_json::Map<String, serde_json::Value>)
        ensures
            object_model(o) == InitializeRequestArguments::fields(self@),
    {
        let mut o = object_new();
        put_opt::<String>(&mut o, "clientID", &self.client_id);
        put_opt::<String>(&mut o, "clientName", &self.client_name);
        put::<String>(&mut o, "adapterID", &self.adapter_id);
        put_opt::<String>(&mut o, "locale", &self.locale);
        put::<bool>(&mut o, "linesStartAt1", &self.lines_start_at_1);
        put::<bool>(&mut o, "columnsStartAt1", &self.columns_start_at_1);
        put_unless::<PathFormat>(&mut o, "pathFormat", &self.path_format, &PathFormat::Path, self.path_format == PathFormat::Path);
        put_flag(&mut o, "supportsVariableType", self.supports_variable_type);
        put_flag(&mut o, "supportsVariablePaging", self.supports_variable_paging);
        put_flag(&mut o, "supportsRunInTerminalRequest", self.supports_run_in_terminal_request);
        put_flag(&mut o, "supportsMemoryReferences", self.supports_memory_references);
        put_flag(&mut o, "supportsProgressReporting", self.supports_progress_reporting);
        put_flag(&mut o, "supportsInvalidatedEvent", self.supports_invalidated_event);
        o
    }

    /// Reads a value from the fields of an object.
    pub fn from_object(o: &serde_json::Map<String, serde_json::Value>) -> (r: Result<
        InitializeRequestArguments,
        DecodeError,
    >)
        ensures
            match r {
                Ok(x) => InitializeRequestArguments::decode_fields(object_model(*o)) matches Ok(m) && m == x.model(),
                Err(e) => InitializeRequestArguments::decode_fields(object_model(*o)) matches Err(f) && f == e@,
            },
    {
        let client_id = get_opt::<String>(o, "clientID")?;
        let client_name = get_opt::<String>(o, "clientName")?;
        let adapter_id = get_req::<String>(o, "adapterID")?;
        let locale = get_opt::<String>(o, "locale")?;
        let lines_start_at_1 = get_or::<bool>(o, "linesStartAt1", true)?;
        let columns_start_at_1 = get_or::<bool>(o, "columnsStartAt1", true)?;
        let path_format = get_or::<PathFormat>(o, "pathFormat", PathFormat::Path)?;
        let supports_variable_type = get_or::<bool>(o, "supportsVariableType", false)?;
        let supports_variable_paging = get_or::<bool>(o, "supportsVariablePaging", false)?;
        let supports_run_in_terminal_request = get_or::<bool>(o, "supportsRunInTerminalRequest", false)?;
        let supports_memory_references = get_or::<bool>(o, "supportsMemoryReferences", false)?;
        let supports_progress_reporting = get_or::<bool>(o, "supportsProgressReporting", false)?;
        let supports_invalidated_event = get_or::<bool>(o, "supportsInvalidatedEvent", false)?;
        Ok(InitializeRequestArguments { client_id, client_name, adapter_id, locale, lines_start_at_1, columns_start_at_1, path_format, supports_variable_type, supports_variable_paging, supports_run_in_terminal_request, supports_memory_references, supports_progress_reporting, supports_invalidated_event })
    }
}

impl Wire for InitializeRequestArguments {
    type Model = InitializeRequestArgumentsView;

    open spec fn model(&self) -> InitializeRequestArgumentsView {
        self@
    }

    open spec fn wire_ok(m: InitializeRequestArgumentsView) -> bool {
        true
    }

    open spec fn encode_json(m: InitializeRequestArgumentsView) -> Json {
        Json::Object(InitializeRequestArguments::fields(m))
    }

    open spec fn decode_json(j: Json) -> Result<InitializeRequestArgumentsView, DecodeErrorView> {
        match j {
            Json::Object(o) => InitializeRequestArguments::decode_fields(o),
            _ => Err(DecodeErrorView::InvalidType),
        }
    }

    fn to_value(&self) -> (r: serde_json::Value) {
        value_object(self.to_object())
    }

    fn from_value(v: &serde_json::Value) -> (r: Result<InitializeRequestArguments, DecodeError>) {
        match value_as_object(v) {
            Some(o) => InitializeRequestArguments::from_object(o),
            None => Err(DecodeError::InvalidType),
        }
    }

    proof fn lemma_round_trip(m: InitializeRequestArgumentsView) {
        broadcast use group_field_rules;

        reveal(default_field);
        reveal(opt_field);
        reveal(req_field);
        reveal_strlit("clientID");
        reveal_strlit("clientName");
        reveal_strlit("adapterID");
        reveal_strlit("locale");
        reveal_strlit("linesStartAt1");
        reveal_strlit("columnsStartAt1");
        reveal_strlit("pathFormat");
        reveal_strlit("supportsVariableType");
        reveal_strlit("supportsVariablePaging");
        reveal_strlit("supportsRunInTerminalRequest");
        reveal_strlit("supportsMemoryReferences");
        reveal_strlit("supportsProgressReporting");
        reveal_strlit("supportsInvalidatedEvent");
        assert("clientID"@.len() == 8);
        assert("clientName"@.len() == 10);
        assert("adapterID"@.len() == 9);
        assert("locale"@.len() == 6);
        assert("linesStartAt1"@.len() == 13);
        assert("columnsStartAt1"@.len() == 15);
        assert("pathFormat"@.len() == 10);
        assert("supportsVariableType"@.len() == 20);
        assert("supportsVariablePaging"@.len() == 22);
        assert("supportsRunInTerminalRequest"@.len() == 28);
        assert("supportsMemoryReferences"@.len() == 24);
        assert("supportsProgressReporting"@.len() == 25);
        assert("supportsInvalidatedEvent"@.len() == 24);
        assert("clientName"@[0] != "pathFormat"@[0]);
        assert("supportsMemoryReferences"@[8] != "supportsInvalidatedEvent"@[8]);
        let o = InitializeRequestArguments::fields(m);
        Option::<String>::lemma_round_trip(m.client_id);
        assert(opt_field::<String>(o, "clientID"@) matches Ok(v) && v == m.client_id);
        Option::<String>::lemma_round_trip(m.client_name);
        assert(opt_field::<String>(o, "clientName"@) matches Ok(v) && v == m.client_name);
        String::lemma_round_trip(m.adapter_id);
        assert(req_field::<String>(o, "adapterID"@) matches Ok(v) && v == m.adapter_id);
        Option::<String>::lemma_round_trip(m.locale);
        assert(opt_field::<String>(o, "locale"@) matches Ok(v) && v == m.locale);
        bool::lemma_round_trip(m.lines_start_at_1);
        assert(default_field::<bool>(o, "linesStartAt1"@, true) matches Ok(v) && v == m.lines_start_at_1);
        bool::lemma_round_trip(m.columns_start_at_1);
        assert(default_field::<bool>(o, "columnsStartAt1"@, true) matches Ok(v) && v == m.columns_start_at_1);
        PathFormat::lemma_round_trip(m.path_format);
        assert(default_field::<PathFormat>(o, "pathFormat"@, PathFormat::Path) matches Ok(v) && v == m.path_format);
        bool::lemma_round_trip(m.supports_variable_type);
        assert(default_field::<bool>(o, "supportsVariableType"@, false) matches Ok(v) && v == m.supports_variable_type);
        bool::lemma_round_trip(m.supports_variable_paging);
        assert(default_field::<bool>(o, "supportsVariablePaging"@, false) matches Ok(v) && v == m.supports_variable_paging);
        bool::lemma_round_trip(m.supports_run_in_terminal_request);
        assert(default_field::<bool>(o, "supportsRunInTerminalRequest"@, false) matches Ok(v) && v == m.supports_run_in_terminal_request);
        bool::lemma_round_trip(m.supports_memory_references);
        assert(default_field::<bool>(o, "supportsMemoryReferences"@, false) matches Ok(v) && v == m.supports_memory_references);
        bool::lemma_round_trip(m.supports_progress_reporting);
        assert(default_field::<bool>(o, "supportsProgressReporting"@, false) matches Ok(v) && v == m.supports_progress_reporting);
        bool::lemma_round_trip(m.supports_invalidated_event);
        assert(default_field::<bool>(o, "supportsInvalidatedEvent"@, false) matches Ok(v) && v == m.supports_invalidated_event);
    }
}

impl Record for InitializeRequestArguments {
    open spec fn field_names() -> Set<Seq<char>> {
        set!["clientID"@, "clientName"@, "adapterID"@, "locale"@, "linesStartAt1"@, "columnsStartAt1"@, "pathFormat"@, "supportsVariableType"@, "supportsVariablePaging"@, "supportsRunInTerminalRequest"@, "supportsMemoryReferences"@, "supportsProgressReporting"@, "supportsInvalidatedEvent"@]
    }

    proof fn lemma_unknown_field(o: JsonObject, key: Seq<char>, x: Json) {
        broadcast use group_field_rules;

        reveal(default_field);
        reveal(opt_field);
        reveal(req_field);
    }
}

impl Defaults for InitializeRequestArguments {
    open spec fn elidable_names() -> Set<Seq<char>> {
        set!["clientID"@, "clientName"@, "locale"@, "pathFormat"@, "supportsVariableType"@, "supportsVariablePaging"@, "supportsRunInTerminalRequest"@, "supportsMemoryReferences"@, "supportsProgressReporting"@, "supportsInvalidatedEvent"@]
    }

    open spec fn at_defaults(m: InitializeRequestArgumentsView) -> bool {
        &&& m.client_id is None
        &&& m.client_name is None
        &&& m.locale is None
        &&& m.path_format == PathFormat::Path
        &&& !m.supports_variable_type
        &&& !m.supports_variable_paging
        &&& !m.supports_run_in_terminal_request
        &&& !m.supports_memory_references
        &&& !m.supports_progress_reporting
        &&& !m.supports_invalidated_event
    }

    proof fn lemma_defaults_elided(m: InitializeRequestArgumentsView, key: Seq<char>) {
        broadcast use group_field_rules;

        reveal_strlit("clientID");
        reveal_strlit("clientName");
        reveal_strlit("adapterID");
        reveal_strlit("locale");
        reveal_strlit("linesStartAt1");
        reveal_strlit("columnsStartAt1");
        reveal_strlit("pathFormat");
        reveal_strlit("supportsVariableType");
        reveal_strlit("supportsVariablePaging");
        reveal_strlit("supportsRunInTerminalRequest");
        reveal_strlit("supportsMemoryReferences");
        reveal_strlit("supportsProgressReporting");
        reveal_strlit("supportsInvalidatedEvent");
        assert("clientID"@.len() == 8);
        assert("clientName"@.len() == 10);
        assert("adapterID"@.len() == 9);
        assert("locale"@.len() == 6);
        assert("linesStartAt1"@.len() == 13);
        assert("columnsStartAt1"@.len() == 15);
        assert("pathFormat"@.len() == 10);
        assert("supportsVariableType"@.len() == 20);
        assert("supportsVariablePaging"@.len() == 22);
        assert("supportsRunInTerminalRequest"@.len() == 28);
        assert("supportsMemoryReferences"@.len() == 24);
        assert("supportsProgressReporting"@.len() == 25);
        assert("supportsInvalidatedEvent"@.len() == 24);
        assert("clientName"@[0] != "pathFormat"@[0]);
        assert("supportsMemoryReferences"@[8] != "supportsInvalidatedEvent"@[8]);
    }
}

/// Gathers the fields of a [`InitializeRequestArguments`] one by one.
///
/// A field without a default has to be set before the value is built.
pub struct InitializeRequestArgumentsBuilder {
    pub client_id: Option<String>,
    pub client_name: Option<String>,
    pub adapter_id: Option<String>,
    pub locale: Option<String>,
    pub lines_start_at_1: bool,
    pub columns_start_at_1: bool,
    pub path_format: PathFormat,
    pub supports_variable_type: bool,
    pub supports_variable_paging: bool,
    pub supports_run_in_terminal_request: bool,
    pub supports_memory_references: bool,
    pub supports_progress_reporting: bool,
    pub supports_invalidated_event: bool,
}

impl InitializeRequestArguments {
    /// A builder in which every field with a default holds its default.
    pub fn builder() -> (r: InitializeRequestArgumentsBuilder)
        ensures
            r.client_id is None,
            r.client_name is None,
            r.adapter_id is None,
            r.locale is None,
            r.lines_start_at_1,
            r.columns_start_at_1,
            r.path_format == PathFormat::Path,
            !r.supports_variable_type,
            !r.supports_variable_paging,
            !r.supports_run_in_terminal_request,
            !r.supports_memory_references,
            !r.supports_progress_reporting,
            !r.supports_invalidated_event,
    {
        InitializeRequestArgumentsBuilder {
            client_id: None,
            client_name: None,
            adapter_id: None,
            locale: None,
            lines_start_at_1: true,
            columns_start_at_1: true,
            path_format: PathFormat::Path,
            supports_variable_type: false,
            supports_variable_paging: false,
            supports_run_in_terminal_request: false,
            supports_memory_references: false,
            supports_progress_reporting: false,
            supports_invalidated_event: false,
        }
    }
}

impl InitializeRequestArgumentsBuilder {
    /// Sets `client_id`.
    pub fn client_id(self, value: Option<String>) -> (r: InitializeRequestArgumentsBuilder)
        ensures
            r == (InitializeRequestArgumentsBuilder { client_id: value, ..self }),
    {
        InitializeRequestArgumentsBuilder { client_id: value, ..self }
    }

    /// Sets `client_name`.
    pub fn client_name(self, value: Option<String>) -> (r: InitializeRequestArgumentsBuilder)
        ensures
            r == (InitializeRequestArgumentsBuilder { client_name: value, ..self }),
    {
        InitializeRequestArgumentsBuilder { client_name: value, ..self }
    }

    /// Sets `adapter_id`.
    pub fn adapter_id(self, value: String) -> (r: InitializeRequestArgumentsBuilder)
        ensures
            r == (InitializeRequestArgumentsBuilder { adapter_id: Some(value), ..self }),
    {
        InitializeRequestArgumentsBuilder { adapter_id: Some(value), ..self }
    }

    /// Sets `locale`.
    pub fn locale(self, value: Option<String>) -> (r: InitializeRequestArgumentsBuilder)
        ensures
            r == (InitializeRequestArgumentsBuilder { locale: value, ..self }),
    {
        InitializeRequestArgumentsBuilder { locale: value, ..self }
    }

    /// Sets `lines_start_at_1`.
    pub fn lines_start_at_1(self, value: bool) -> (r: InitializeRequestArgumentsBuilder)
        ensures
            r == (InitializeRequestArgumentsBuilder { lines_start_at_1: value, ..self }),
    {
        InitializeRequestArgumentsBuilder { lines_start_at_1: value, ..self }
    }

    /// Sets `columns_start_at_1`.
    pub fn columns_start_at_1(self, value: bool) -> (r: InitializeRequestArgumentsBuilder)
        ensures
            r == (InitializeRequestArgumentsBuilder { columns_start_at_1: value, ..self }),
    {
        InitializeRequestArgumentsBuilder { columns_start_at_1: value, ..self }
    }

    /// Sets `path_format`.
    pub fn path_format(self, value: PathFormat) -> (r: InitializeRequestArgumentsBuilder)
        ensures
            r == (InitializeRequestArgumentsBuilder { path_format: value, ..self }),
    {
        InitializeRequestArgumentsBuilder { path_format: value, ..self }
    }

    /// Sets `supports_variable_type`.
    pub fn supports_variable_type(self, value: bool) -> (r: InitializeRequestArgumentsBuilder)
        ensures
            r == (InitializeRequestArgumentsBuilder { supports_variable_type: value, ..self }),
    {
        InitializeRequestArgumentsBuilder { supports_variable_type: value, ..self }
    }

    /// Sets `supports_variable_paging`.
    pub fn supports_variable_paging(self, value: bool) -> (r: InitializeRequestArgumentsBuilder)
        ensures
            r == (InitializeRequestArgumentsBuilder { supports_variable_paging: value, ..self }),
    {
        InitializeRequestArgumentsBuilder { supports_variable_paging: value, ..self }
    }

    /// Sets `supports_run_in_terminal_request`.
    pub fn supports_run_in_terminal_request(self, value: bool) -> (r: InitializeRequestArgumentsBuilder)
        ensures
            r == (InitializeRequestArgumentsBuilder { supports_run_in_terminal_request: value, ..self }),
    {
        InitializeRequestArgumentsBuilder { supports_run_in_terminal_request: value, ..self }
    }

    /// Sets `supports_memory_references`.
    pub fn supports_memory_references(self, value: bool) -> (r: InitializeRequestArgumentsBuilder)
        ensures
            r == (InitializeRequestArgumentsBuilder { supports_memory_references: value, ..self }),
    {
        InitializeRequestArgumentsBuilder { supports_memory_references: value, ..self }
    }

    /// Sets `supports_progress_reporting`.
    pub fn supports_progress_reporting(self, value: bool) -> (r: InitializeRequestArgumentsBuilder)
        ensures
            r == (InitializeRequestArgumentsBuilder { supports_progress_reporting: value, ..self }),
    {
        InitializeRequestArgumentsBuilder { supports_progress_reporting: value, ..self }
    }

    /// Sets `supports_invalidated_event`.
    pub fn supports_invalidated_event(self, value: bool) -> (r: InitializeRequestArgumentsBuilder)
        ensures
            r == (InitializeRequestArgumentsBuilder { supports_invalidated_event: value, ..self }),
    {
        InitializeRequestArgumentsBuilder { supports_invalidated_event: value, ..self }
    }

    /// Whether every field without a default has been set.
    pub open spec fn complete(self) -> bool {
        &&& self.adapter_id is Some
    }

    /// The value with the fields as they were set.
    pub fn build(self) -> (r: InitializeRequestArguments)
        requires
            self.complete(),
        ensures
            r == (InitializeRequestArguments {
                client_id: self.client_id,
                client_name: self.client_name,
                adapter_id: self.adapter_id->Some_0,
                locale: self.locale,
                lines_start_at_1: self.lines_start_at_1,
                columns_start_at_1: self.columns_start_at_1,
                path_format: self.path_format,
                supports_variable_type: self.supports_variable_type,
                supports_variable_paging: self.supports_variable_paging,
                supports_run_in_terminal_request: self.supports_run_in_terminal_request,
                supports_memory_references: self.supports_memory_references,
                supports_progress_reporting: self.supports_progress_reporting,
                supports_invalidated_event: self.supports_invalidated_event,
            }),
    {
        InitializeRequestArguments {
            client_id: self.client_id,
            client_name: self.client_name,
            adapter_id: self.adapter_id.unwrap(),
            locale: self.locale,
            lines_start_at_1: self.lines_start_at_1,
            columns_start_at_1: self.columns_start_at_1,
            path_format: self.path_format,
            supports_variable_type: self.supports_variable_type,
            supports_variable_paging: self.supports_variable_paging,
            supports_run_in_terminal_request: self.supports_run_in_terminal_request,
            supports_memory_references: self.supports_memory_references,
            supports_progress_reporting: self.supports_progress_reporting,
            supports_invalidated_event: self.supports_invalidated_event,
        }
    }
}

impl From<InitializeRequestArguments> for Request {
    fn from(args: InitializeRequestArguments) -> (r: Request) {
        Request::Initialize(args)
    }
}

impl vstd::std_specs::convert::FromSpecImpl<InitializeRequestArguments> for Request {
    open spec fn obeys_from_spec() -> bool {
        true
    }

    open spec fn from_spec(args: InitializeRequestArguments) -> Request {
        Request::Initialize(args)
    }
}

impl From<InitializeRequestArguments> for ProtocolMessageContent {
    fn from(args: InitializeRequestArguments) -> (r: ProtocolMessageContent) {
        ProtocolMessageContent::Request(Request::Initialize(args))
    }
}

impl vstd::std_specs::convert::FromSpecImpl<InitializeRequestArguments> for ProtocolMessageContent {
    open spec fn obeys_from_spec() -> bool {
        true
    }

    open spec fn from_spec(args: InitializeRequestArguments) -> ProtocolMessageContent {
        ProtocolMessageContent::Request(Request::Initialize(args))
    }
}

#[derive(Clone, Copy, Debug, Eq)]
pub enum PathFormat {
    Path,
    URI,
}

impl PathFormat {
    /// The name under which the value travels.
    pub open spec fn name(self) -> Seq<char> {
        match self {
            PathFormat::Path => "path"@,
            PathFormat::URI => "uri"@,
        }
    }

    /// The value that travels under `s`, if there is one.
    pub open spec fn named(s: Seq<char>) -> Option<PathFormat> {
        if s == "path"@ {
            Some(PathFormat::Path)
        } else if s == "uri"@ {
            Some(PathFormat::URI)
        } else {
            None
        }
    }

    pub fn as_str(&self) -> (r: &'static str)
        ensures
            r@ == self.name(),
    {
        match self {
            PathFormat::Path => "path",
            PathFormat::URI => "uri",
        }
    }

    pub fn from_name(s: &str) -> (r: Option<PathFormat>)
        ensures
            r == PathFormat::named(s@),
    {
        if str_eq(s, "path") {
            Some(PathFormat::Path)
        } else if str_eq(s, "uri") {
            Some(PathFormat::URI)
        } else {
            None
        }
    }

    /// Every value is found again under its name.
    pub proof fn lemma_named(self)
        ensures
            PathFormat::named(self.name()) == Some(self),
    {
        reveal_strlit("path");
        reveal_strlit("uri");
        assert("path"@.len() == 4);
        assert("uri"@.len() == 3);
    }
}

impl Default for PathFormat {
    fn default() -> (r: PathFormat)
        ensures
            r == PathFormat::Path,
    {
        PathFormat::Path
    }
}

impl Wire for PathFormat {
    type Model = PathFormat;

    open spec fn model(&self) -> PathFormat {
        *self
    }

    open spec fn wire_ok(m: PathFormat) -> bool {
        true
    }

    open spec fn encode_json(m: PathFormat) -> Json {
        Json::Str(m.name())
    }

    open spec fn decode_json(j: Json) -> Result<PathFormat, DecodeErrorView> {
        match j {
            Json::Str(s) => match PathFormat::named(s) {
                Some(x) => Ok(x),
                None => Err(DecodeErrorView::InvalidType),
            },
            _ => Err(DecodeErrorView::InvalidType),
        }
    }

    fn to_value(&self) -> (r: serde_json::Value) {
        value_string(self.as_str().to_owned())
    }

    fn from_value(v: &serde_json::Value) -> (r: Result<PathFormat, DecodeError>) {
        match value_as_str(v) {
            Some(s) => match PathFormat::from_name(s) {
                Some(x) => Ok(x),
                None => Err(DecodeError::InvalidType),
            },
            None => Err(DecodeError::InvalidType),
        }
    }

    proof fn lemma_round_trip(m: PathFormat) {
        m.lemma_named();
    }
}

/// Arguments for 'launch' request. Additional attributes are implementation specific.
///
/// This is the one record that keeps the fields it does not know: they are
/// gathered in `additional_attributes` when an object is read, and written
/// back beside the known fields.
#[derive(Clone, Debug, PartialEq, Eq)]
pub struct LaunchRequestArguments {
    /// If noDebug is true the launch request should launch the program without enabling debugging.
    pub no_debug: bool,

    /// Optional data from the previous, restarted session.
    ///
    /// The data is sent as the 'restart' attribute of the 'terminated' event.
    ///
    /// The client should leave the data intact.
    pub restart: Option<serde_json::Value>,

    /// Additional attributes are implementation specific.
    pub additional_attributes: serde_json::Map<String, serde_json::Value>,
}

/// The mathematical content of a [`LaunchRequestArguments`].
pub struct LaunchRequestArgumentsView {
    pub no_debug: bool,
    pub restart: Option<Json>,
    pub additional_attributes: JsonObject,
}

impl View for LaunchRequestArguments {
    type V = LaunchRequestArgumentsView;

    open spec fn view(&self) -> LaunchRequestArgumentsView {
        LaunchRequestArgumentsView {
            no_debug: self.no_debug,
            restart: self.restart.model(),
            additional_attributes: object_model(self.additional_attributes),
        }
    }
}

impl LaunchRequestArguments {
    /// The known fields that are written for a value.
    pub open spec fn known_fields(m: LaunchRequestArgumentsView) -> JsonObject {
        let o = empty_object();
        let o = with_nondefault_field::<bool>(o, "noDebug"@, m.no_debug, false);
        let o = with_opt_field::<serde_json::Value>(o, "__restart"@, m.restart);
        o
    }

    /// The fields that are written for a value: the known ones, then the
    /// additional attributes.
    pub open spec fn fields(m: LaunchRequestArgumentsView) -> JsonObject {
        extend(LaunchRequestArguments::known_fields(m), m.additional_attributes)
    }

    /// The fields of an object that are not known fields, in their order.
    pub open spec fn unknown_fields(o: JsonObject) -> JsonObject {
        discard(discard(o, "noDebug"@), "__restart"@)
    }

    /// What the fields of an object decode to: the first failure among the
    /// known fields, or the value, which holds every other field as it is.
    pub open spec fn decode_fields(o: JsonObject) -> Result<
        LaunchRequestArgumentsView,
        DecodeErrorView,
    > {
        let no_debug = default_field::<bool>(o, "noDebug"@, false);
        let restart = opt_field::<serde_json::Value>(o, "__restart"@);
        if no_debug is Err {
            Err(no_debug->Err_0)
        } else if restart is Err {
            Err(restart->Err_0)
        } else {
            Ok(
                LaunchRequestArgumentsView {
                    no_debug: no_debug->Ok_0,
                    restart: restart->Ok_0,
                    additional_attributes: LaunchRequestArguments::unknown_fields(o),
                },
            )
        }
    }

    /// Arguments without debugging switched off, without restart data and
    /// without additional attributes.
    pub fn new() -> (r: LaunchRequestArguments)
        ensures
            r@ == (LaunchRequestArgumentsView {
                no_debug: false,
                restart: None,
                additional_attributes: empty_object(),
            }),
    {
        LaunchRequestArguments {
            no_debug: false,
            restart: None,
            additional_attributes: object_new(),
        }
    }

    /// Writes the fields of the value into a fresh object.
    pub fn to_object(&self) -> (o: serde_json::Map<String, serde_json::Value>)
        ensures
            object_model(o) == LaunchRequestArguments::fields(self@),
    {
        let mut o = object_new();
        put_flag(&mut o, "noDebug", self.no_debug);
        put_opt::<serde_json::Value>(&mut o, "__restart", &self.restart);
        object_append(&mut o, self.additional_attributes.clone());
        o
    }

    /// Reads a value from the fields of an object.
    pub fn from_object(o: &serde_json::Map<String, serde_json::Value>) -> (r: Result<
        LaunchRequestArguments,
        DecodeError,
    >)
        ensures
            match r {
                Ok(x) => LaunchRequestArguments::decode_fields(object_model(*o)) matches Ok(m)
                    && m == x@,
                Err(e) => LaunchRequestArguments::decode_fields(object_model(*o)) matches Err(f)
                    && f == e@,
            },
    {
        let no_debug = get_or::<bool>(o, "noDebug", false)?;
        let restart = get_opt::<serde_json::Value>(o, "__restart")?;
        let mut additional_attributes = o.clone();
        object_remove(&mut additional_attributes, "noDebug");
        object_remove(&mut additional_attributes, "__restart");
        Ok(LaunchRequestArguments { no_debug, restart, additional_attributes })
    }

    /// Where debugging is not switched off and there is no restart data,
    /// neither known field is written, unless an additional attribute bears
    /// its name.
    pub proof fn lemma_defaults_elided(m: LaunchRequestArgumentsView, key: Seq<char>)
        requires
            !m.no_debug,
            m.restart is None,
            key == "noDebug"@ || key == "__restart"@,
            field(m.additional_attributes, key) is None,
        ensures
            field(LaunchRequestArguments::fields(m), key) is None,
    {
        broadcast use group_field_rules;

        reveal_strlit("noDebug");
        reveal_strlit("__restart");
        assert("noDebug"@.len() == 7);
        assert("__restart"@.len() == 9);
    }

    /// A field that is not a known field is kept among the additional
    /// attributes, in its place, and changes nothing else about what an object
    /// decodes to.
    pub proof fn lemma_unknown_field_kept(o: JsonObject, key: Seq<char>, x: Json)
        requires
            key != "noDebug"@,
            key != "__restart"@,
            LaunchRequestArguments::decode_fields(o) is Ok,
        ensures
            LaunchRequestArguments::decode_fields(store(o, key, x)) matches Ok(with)
                && LaunchRequestArguments::decode_fields(o) matches Ok(without) && with == (
            LaunchRequestArgumentsView {
                additional_attributes: store(without.additional_attributes, key, x),
                ..without
            }),
    {
        broadcast use group_field_rules;

        reveal(default_field);
        reveal(opt_field);
        lemma_store_discard(o, key, x, "noDebug"@);
        lemma_store_discard(discard(o, "noDebug"@), key, x, "__restart"@);
    }

    /// The known fields bear no other names than the two.
    proof fn lemma_known_names(m: LaunchRequestArgumentsView)
        ensures
            names_among(LaunchRequestArguments::known_fields(m), "noDebug"@, "__restart"@),
    {
        reveal(with_nondefault_field);
        reveal(with_opt_field);
        let o0 = empty_object();
        let o1 = with_nondefault_field::<bool>(o0, "noDebug"@, m.no_debug, false);
        assert(names_among(o0, "noDebug"@, "__restart"@));
        if m.no_debug {
            lemma_store_names(o0, "noDebug"@, Json::Bool(true), "noDebug"@, "__restart"@);
        }
        if m.restart is Some {
            lemma_store_names(o1, "__restart"@, m.restart->Some_0, "noDebug"@, "__restart"@);
        }
    }
}

impl Wire for LaunchRequestArguments {
    type Model = LaunchRequestArgumentsView;

    open spec fn model(&self) -> LaunchRequestArgumentsView {
        self@
    }

    /// The restart data is not `null`, no additional attribute bears the name
    /// of a known field, and no two additional attributes bear the same name.
    open spec fn wire_ok(m: LaunchRequestArgumentsView) -> bool {
        &&& Option::<serde_json::Value>::wire_ok(m.restart)
        &&& distinct(m.additional_attributes)
        &&& field(m.additional_attributes, "noDebug"@) is None
        &&& field(m.additional_attributes, "__restart"@) is None
    }

    open spec fn encode_json(m: LaunchRequestArgumentsView) -> Json {
        Json::Object(LaunchRequestArguments::fields(m))
    }

    open spec fn decode_json(j: Json) -> Result<LaunchRequestArgumentsView, DecodeErrorView> {
        match j {
            Json::Object(o) => LaunchRequestArguments::decode_fields(o),
            _ => Err(DecodeErrorView::InvalidType),
        }
    }

    fn to_value(&self) -> (r: serde_json::Value) {
        value_object(self.to_object())
    }

    fn from_value(v: &serde_json::Value) -> (r: Result<LaunchRequestArguments, DecodeError>) {
        match value_as_object(v) {
            Some(o) => LaunchRequestArguments::from_object(o),
            None => Err(DecodeError::InvalidType),
        }
    }

    proof fn lemma_round_trip(m: LaunchRequestArgumentsView) {
        broadcast use group_field_rules;

        reveal(default_field);
        reveal(opt_field);
        reveal_strlit("noDebug");
        reveal_strlit("__restart");
        assert("noDebug"@.len() == 7);
        assert("__restart"@.len() == 9);
        let known = LaunchRequestArguments::known_fields(m);
        let more = m.additional_attributes;
        let o = LaunchRequestArguments::fields(m);
        Option::<serde_json::Value>::lemma_round_trip(m.restart);
        assert(default_field::<bool>(o, "noDebug"@, false) matches Ok(v) && v == m.no_debug);
        assert(opt_field::<serde_json::Value>(o, "__restart"@) matches Ok(v) && v == m.restart);
        // The additional attributes stand behind the known fields, and are
        // what is left when the known fields are taken away.
        LaunchRequestArguments::lemma_known_names(m);
        assert(lookup(more, "noDebug"@) is None && lookup(more, "__restart"@) is None) by {
            reveal(field);
        }
        lemma_place(more, "noDebug"@);
        lemma_place(more, "__restart"@);
        assert forall|i: int| 0 <= i < more.len() implies lookup(known, (#[trigger] more[i]).0)
            is None by {
            lemma_place(known, more[i].0);
        }
        lemma_extend_fresh(known, more);
        lemma_discard_concat(known, more, "noDebug"@);
        lemma_discard_absent(more, "noDebug"@);
        lemma_discard_concat(discard(known, "noDebug"@), more, "__restart"@);
        lemma_discard_absent(more, "__restart"@);
        lemma_discard_both(known, "noDebug"@, "__restart"@);
        assert(Seq::<(Seq<char>, Json)>::empty() + more =~= more);
    }
}

/// Gathers the fields of a [`LaunchRequestArguments`] one by one.
pub struct LaunchRequestArgumentsBuilder {
    pub no_debug: bool,
    pub restart: Option<serde_json::Value>,
    pub additional_attributes: serde_json::Map<String, serde_json::Value>,
}

impl LaunchRequestArguments {
    /// A builder in which every field with a default holds its default.
    pub fn builder() -> (r: LaunchRequestArgumentsBuilder)
        ensures
            !r.no_debug,
            r.restart is None,
            object_model(r.additional_attributes) == empty_object(),
    {
        LaunchRequestArgumentsBuilder {
            no_debug: false,
            restart: None,
            additional_attributes: object_new(),
        }
    }
}

impl LaunchRequestArgumentsBuilder {
    /// Sets `no_debug`.
    pub fn no_debug(self, value: bool) -> (r: LaunchRequestArgumentsBuilder)
        ensures
            r == (LaunchRequestArgumentsBuilder { no_debug: value, ..self }),
    {
        LaunchRequestArgumentsBuilder { no_debug: value, ..self }
    }

    /// Sets `restart`.
    pub fn restart(self, value: Option<serde_json::Value>) -> (r: LaunchRequestArgumentsBuilder)
        ensures
            r == (LaunchRequestArgumentsBuilder { restart: value, ..self }),
    {
        LaunchRequestArgumentsBuilder { restart: value, ..self }
    }

    /// Sets `additional_attributes`.
    pub fn additional_attributes(self, value: serde_json::Map<String, serde_json::Value>) -> (r: LaunchRequestArgumentsBuilder)
        ensures
            r == (LaunchRequestArgumentsBuilder { additional_attributes: value, ..self }),
    {
        LaunchRequestArgumentsBuilder { additional_attributes: value, ..self }
    }

    /// Whether every field without a default has been set.
    pub open spec fn complete(self) -> bool {
        true
    }

    /// The value with the fields as they were set.
    pub fn build(self) -> (r: LaunchRequestArguments)
        ensures
            r == (LaunchRequestArguments {
                no_debug: self.no_debug,
                restart: self.restart,
                additional_attributes: self.additional_attributes,
            }),
    {
        LaunchRequestArguments {
            no_debug: self.no_debug,
            restart: self.restart,
            additional_attributes: self.additional_attributes,
        }
    }
}

impl From<LaunchRequestArguments> for Request {
    fn from(args: LaunchRequestArguments) -> (r: Request) {
        Request::Launch(args)
    }
}

impl vstd::std_specs::convert::FromSpecImpl<LaunchRequestArguments> for Request {
    open spec fn obeys_from_spec() -> bool {
        true
    }

    open spec fn from_spec(args: LaunchRequestArguments) -> Request {
        Request::Launch(args)
    }
}

impl From<LaunchRequestArguments> for ProtocolMessageContent {
    fn from(args: LaunchRequestArguments) -> (r: ProtocolMessageContent) {
        ProtocolMessageContent::Request(Request::Launch(args))
    }
}

impl vstd::std_specs::convert::FromSpecImpl<LaunchRequestArguments> for ProtocolMessageContent {
    open spec fn obeys_from_spec() -> bool {
        true
    }

    open spec fn from_spec(args: LaunchRequestArguments) -> ProtocolMessageContent {
        ProtocolMessageContent::Request(Request::Launch(args))
    }
}

#[derive(Clone, Debug, PartialEq, Eq)]
pub struct ModulesRequestArguments {
    /// The index of the first module to return; if omitted modules start at 0.
    pub start_module: i32,

    /// The number of modules to return. If moduleCount is not specified or 0, all modules are returned.
    pub module_count: i32,
}

impl ModulesRequestArguments {
    /// The fields that are written for a value.
    pub open spec fn fields(m: ModulesRequestArguments) -> JsonObject {
        let o = empty_object();
        let o = with_nondefault_field::<i32>(o, "startModule"@, m.start_module, 0i32);
        let o = with_nondefault_field::<i32>(o, "moduleCount"@, m.module_count, 0i32);
        o
    }

    /// What the fields of an object decode to: the first failure in the order of
    /// the fields, or the value.
    pub open spec fn decode_fields(o: JsonObject) -> Result<ModulesRequestArguments, DecodeErrorView> {
        let start_module = default_field::<i32>(o, "startModule"@, 0i32);
        let module_count = default_field::<i32>(o, "moduleCount"@, 0i32);
        if start_module is Err {
            Err(start_module->Err_0)
        } else if module_count is Err {
            Err(module_count->Err_0)
        } else {
            Ok(ModulesRequestArguments {
                start_module: start_module->Ok_0,
                module_count: module_count->Ok_0,
            })
        }
    }

    /// Writes the fields of the value into a fresh object.
    pub fn to_object(&self) -> (o: serde_json::Map<String, serde_json::Value>)
        ensures
            object_model(o) == ModulesRequestArguments::fields(*self),
    {
        let mut o = object_new();
        put_nonzero(&mut o, "startModule", self.start_module);
        put_nonzero(&mut o, "moduleCount", self.module_count);
        o
    }

    /// Reads a value from the fields of an object.
    pub fn from_object(o: &serde_json::Map<String, serde_json::Value>) -> (r: Result<
        ModulesRequestArguments,
        DecodeError,
    >)
        ensures
            match r {
                Ok(x) => ModulesRequestArguments::decode_fields(object_model(*o)) matches Ok(m) && m == x.model(),
                Err(e) => ModulesRequestArguments::decode_fields(object_model(*o)) matches Err(f) && f == e@,
            },
    {
        let start_module = get_or::<i32>(o, "startModule", 0)?;
        let module_count = get_or::<i32>(o, "moduleCount", 0)?;
        Ok(ModulesRequestArguments { start_module, module_count })
    }
}

impl Wire for ModulesRequestArguments {
    type Model = ModulesRequestArguments;

    open spec fn model(&self) -> ModulesRequestArguments {
        *self
    }

    open spec fn wire_ok(m: ModulesRequestArguments) -> bool {
        true
    }

    open spec fn encode_json(m: ModulesRequestArguments) -> Json {
        Json::Object(ModulesRequestArguments::fields(m))
    }

    open spec fn decode_json(j: Json) -> Result<ModulesRequestArguments, DecodeErrorView> {
        match j {
            Json::Object(o) => ModulesRequestArguments::decode_fields(o),
            _ => Err(DecodeErrorView::InvalidType),
        }
    }

    fn to_value(&self) -> (r: serde_json::Value) {
        value_object(self.to_object())
    }

    fn from_value(v: &serde_json::Value) -> (r: Result<ModulesRequestArguments, DecodeError>) {
        match value_as_object(v) {
            Some(o) => ModulesRequestArguments::from_object(o),
            None => Err(DecodeError::InvalidType),
        }
    }

    proof fn lemma_round_trip(m: ModulesRequestArguments) {
        broadcast use group_field_rules;

        reveal(default_field);
        reveal_strlit("startModule");
        reveal_strlit("moduleCount");
        assert("startModule"@.len() == 11);
        assert("moduleCount"@.len() == 11);
        assert("startModule"@[0] != "moduleCount"@[0]);
        let o = ModulesRequestArguments::fields(m);
        i32::lemma_round_trip(m.start_module);
        assert(default_field::<i32>(o, "startModule"@, 0i32) matches Ok(v) && v == m.start_module);
        i32::lemma_round_trip(m.module_count);
        assert(default_field::<i32>(o, "moduleCount"@, 0i32) matches Ok(v) && v == m.module_count);
    }
}

impl Record for ModulesRequestArguments {
    open spec fn field_names() -> Set<Seq<char>> {
        set!["startModule"@, "moduleCount"@]
    }

    proof fn lemma_unknown_field(o: JsonObject, key: Seq<char>, x: Json) {
        broadcast use group_field_rules;

        reveal(default_field);
    }
}

impl Defaults for ModulesRequestArguments {
    open spec fn elidable_names() -> Set<Seq<char>> {
        set!["startModule"@, "moduleCount"@]
    }

    open spec fn at_defaults(m: ModulesRequestArguments) -> bool {
        &&& m.start_module == 0i32
        &&& m.module_count == 0i32
    }

    proof fn lemma_defaults_elided(m: ModulesRequestArguments, key: Seq<char>) {
        broadcast use group_field_rules;

        reveal_strlit("startModule");
        reveal_strlit("moduleCount");
        assert("startModule"@.len() == 11);
        assert("moduleCount"@.len() == 11);
        assert("startModule"@[0] != "moduleCount"@[0]);
    }
}

/// Gathers the fields of a [`ModulesRequestArguments`] one by one.
pub struct ModulesRequestArgumentsBuilder {
    pub start_module: i32,
    pub module_count: i32,
}

impl ModulesRequestArguments {
    /// A builder in which every field with a default holds its default.
    pub fn builder() -> (r: ModulesRequestArgumentsBuilder)
        ensures
            r.start_module == 0,
            r.module_count == 0,
    {
        ModulesRequestArgumentsBuilder {
            start_module: 0,
            module_count: 0,
        }
    }
}

impl ModulesRequestArgumentsBuilder {
    /// Sets `start_module`.
    pub fn start_module(self, value: i32) -> (r: ModulesRequestArgumentsBuilder)
        ensures
            r == (ModulesRequestArgumentsBuilder { start_module: value, ..self }),
    {
        ModulesRequestArgumentsBuilder { start_module: value, ..self }
    }

    /// Sets `module_count`.
    pub fn module_count(self, value: i32) -> (r: ModulesRequestArgumentsBuilder)
        ensures
            r == (ModulesRequestArgumentsBuilder { module_count: value, ..self }),
    {
        ModulesRequestArgumentsBuilder { module_count: value, ..self }
    }

    /// Whether every field without a default has been set.
    pub open spec fn complete(self) -> bool {
        true
    }

    /// The value with the fields as they were set.
    pub fn build(self) -> (r: ModulesRequestArguments)
        ensures
            r == (ModulesRequestArguments {
                start_module: self.start_module,
                module_count: self.module_count,
            }),
    {
        ModulesRequestArguments {
            start_module: self.start_module,
            module_count: self.module_count,
        }
    }
}

impl From<ModulesRequestArguments> for Request {
    fn from(args: ModulesRequestArguments) -> (r: Request) {
        Request::Modules(args)
    }
}

impl vstd::std_specs::convert::FromSpecImpl<ModulesRequestArguments> for Request {
    open spec fn obeys_from_spec() -> bool {
        true
    }

    open spec fn from_spec(args: ModulesRequestArguments) -> Request {
        Request::Modules(args)
    }
}

impl From<ModulesRequestArguments> for ProtocolMessageContent {
    fn from(args: ModulesRequestArguments) -> (r: ProtocolMessageContent) {
        ProtocolMessageContent::Request(Request::Modules(args))
    }
}

impl vstd::std_specs::convert::FromSpecImpl<ModulesRequestArguments> for ProtocolMessageContent {
    open spec fn obeys_from_spec() -> bool {
        true
    }

    open spec fn from_spec(args: ModulesRequestArguments) -> ProtocolMessageContent {
        ProtocolMessageContent::Request(Request::Modules(args))
    }
}

#[derive(Clone, Debug, PartialEq, Eq)]
pub struct NextRequestArguments {
    /// Execute 'next' for this thread.
    pub thread_id: i32,

    /// Optional granularity to step. If no granularity is specified, a granularity of 'statement' is assumed.
    pub granularity: SteppingGranularity,
}

impl NextRequestArguments {
    /// The fields that are written for a value.
    pub open spec fn fields(m: NextRequestArguments) -> JsonObject {
        let o = empty_object();
        let o = with_field::<i32>(o, "threadId"@, m.thread_id);
        let o = with_nondefault_field::<SteppingGranularity>(o, "granularity"@, m.granularity, SteppingGranularity::Statement);
        o
    }

    /// What the fields of an object decode to: the first failure in the order of
    /// the fields, or the value.
    pub open spec fn decode_fields(o: JsonObject) -> Result<NextRequestArguments, DecodeErrorView> {
        let thread_id = req_field::<i32>(o, "threadId"@);
        let granularity = default_field::<SteppingGranularity>(o, "granularity"@, SteppingGranularity::Statement);
        if thread_id is Err {
            Err(thread_id->Err_0)
        } else if granularity is Err {
            Err(granularity->Err_0)
        } else {
            Ok(NextRequestArguments {
                thread_id: thread_id->Ok_0,
                granularity: granularity->Ok_0,
            })
        }
    }

    /// Writes the fields of the value into a fresh object.
    pub fn to_object(&self) -> (o: serde_json::Map<String, serde_json::Value>)
        ensures
            object_model(o) == NextRequestArguments::fields(*self),
    {
        let mut o = object_new();
        put::<i32>(&mut o, "threadId", &self.thread_id);
        put_unless::<SteppingGranularity>(&mut o, "granularity", &self.granularity, &SteppingGranularity::Statement, self.granularity == SteppingGranularity::Statement);
        o
    }

    /// Reads a value from the fields of an object.
    pub fn from_object(o: &serde_json::Map<String, serde_json::Value>) -> (r: Result<
        NextRequestArguments,
        DecodeError,
    >)
        ensures
            match r {
                Ok(x) => NextRequestArguments::decode_fields(object_model(*o)) matches Ok(m) && m == x.model(),
                Err(e) => NextRequestArguments::decode_fields(object_model(*o)) matches Err(f) && f == e@,
            },
    {
        let thread_id = get_req::<i32>(o, "threadId")?;
        let granularity = get_or::<SteppingGranularity>(o, "granularity", SteppingGranularity::Statement)?;
        Ok(NextRequestArguments { thread_id, granularity })
    }
}

impl Wire for NextRequestArguments {
    type Model = NextRequestArguments;

    open spec fn model(&self) -> NextRequestArguments {
        *self
    }

    open spec fn wire_ok(m: NextRequestArguments) -> bool {
        true
    }

    open spec fn encode_json(m: NextRequestArguments) -> Json {
        Json::Object(NextRequestArguments::fields(m))
    }

    open spec fn decode_json(j: Json) -> Result<NextRequestArguments, DecodeErrorView> {
        match j {
            Json::Object(o) => NextRequestArguments::decode_fields(o),
            _ => Err(DecodeErrorView::InvalidType),
        }
    }

    fn to_value(&self) -> (r: serde_json::Value) {
        value_object(self.to_object())
    }

    fn from_value(v: &serde_json::Value) -> (r: Result<NextRequestArguments, DecodeError>) {
        match value_as_object(v) {
            Some(o) => NextRequestArguments::from_object(o),
            None => Err(DecodeError::InvalidType),
        }
    }

    proof fn lemma_round_trip(m: NextRequestArguments) {
        broadcast use group_field_rules;

        reveal(default_field);
        reveal(req_field);
        reveal_strlit("threadId");
        reveal_strlit("granularity");
        assert("threadId"@.len() == 8);
        assert("granularity"@.len() == 11);
        let o = NextRequestArguments::fields(m);
        i32::lemma_round_trip(m.thread_id);
        assert(req_field::<i32>(o, "threadId"@) matches Ok(v) && v == m.thread_id);
        SteppingGranularity::lemma_round_trip(m.granularity);
        assert(default_field::<SteppingGranularity>(o, "granularity"@, SteppingGranularity::Statement) matches Ok(v) && v == m.granularity);
    }
}

impl Record for NextRequestArguments {
    open spec fn field_names() -> Set<Seq<char>> {
        set!["threadId"@, "granularity"@]
    }

    proof fn lemma_unknown_field(o: JsonObject, key: Seq<char>, x: Json) {
        broadcast use group_field_rules;

        reveal(default_field);
        reveal(req_field);
    }
}

impl Defaults for NextRequestArguments {
    open spec fn elidable_names() -> Set<Seq<char>> {
        set!["granularity"@]
    }

    open spec fn at_defaults(m: NextRequestArguments) -> bool {
        &&& m.granularity == SteppingGranularity::Statement
    }

    proof fn lemma_defaults_elided(m: NextRequestArguments, key: Seq<char>) {
        broadcast use group_field_rules;

        reveal_strlit("threadId");
        reveal_strlit("granularity");
        assert("threadId"@.len() == 8);
        assert("granularity"@.len() == 11);
    }
}

/// Gathers the fields of a [`NextRequestArguments`] one by one.
///
/// A field without a default has to be set before the value is built.
pub struct NextRequestArgumentsBuilder {
    pub thread_id: Option<i32>,
    pub granularity: SteppingGranularity,
}

impl NextRequestArguments {
    /// A builder in which every field with a default holds its default.
    pub fn builder() -> (r: NextRequestArgumentsBuilder)
        ensures
            r.thread_id is None,
            r.granularity == SteppingGranularity::Statement,
    {
        NextRequestArgumentsBuilder {
            thread_id: None,
            granularity: SteppingGranularity::Statement,
        }
    }
}

impl NextRequestArgumentsBuilder {
    /// Sets `thread_id`.
    pub fn thread_id(self, value: i32) -> (r: NextRequestArgumentsBuilder)
        ensures
            r == (NextRequestArgumentsBuilder { thread_id: Some(value), ..self }),
    {
        NextRequestArgumentsBuilder { thread_id: Some(value), ..self }
    }

    /// Sets `granularity`.
    pub fn granularity(self, value: SteppingGranularity) -> (r: NextRequestArgumentsBuilder)
        ensures
            r == (NextRequestArgumentsBuilder { granularity: value, ..self }),
    {
        NextRequestArgumentsBuilder { granularity: value, ..self }
    }

    /// Whether every field without a default has been set.
    pub open spec fn complete(self) -> bool {
        &&& self.thread_id is Some
    }

    /// The value with the fields as they were set.
    pub fn build(self) -> (r: NextRequestArguments)
        requires
            self.complete(),
        ensures
            r == (NextRequestArguments {
                thread_id: self.thread_id->Some_0,
                granularity: self.granularity,
            }),
    {
        NextRequestArguments {
            thread_id: self.thread_id.unwrap(),
            granularity: self.granularity,
        }
    }
}

impl From<NextRequestArguments> for Request {
    fn from(args: NextRequestArguments) -> (r: Request) {
        Request::Next(args)
    }
}

impl vstd::std_specs::convert::FromSpecImpl<NextRequestArguments> for Request {
    open spec fn obeys_from_spec() -> bool {
        true
    }

    open spec fn from_spec(args: NextRequestArguments) -> Request {
        Request::Next(args)
    }
}

impl From<NextRequestArguments> for ProtocolMessageContent {
    fn from(args: NextRequestArguments) -> (r: ProtocolMessageContent) {
        ProtocolMessageContent::Request(Request::Next(args))
    }
}

impl vstd::std_specs::convert::FromSpecImpl<NextRequestArguments> for ProtocolMessageContent {
    open spec fn obeys_from_spec() -> bool {
        true
    }

    open spec fn from_spec(args: NextRequestArguments) -> ProtocolMessageContent {
        ProtocolMessageContent::Request(Request::Next(args))
    }
}

#[derive(Clone, Debug, PartialEq, Eq)]
pub struct PauseRequestArguments {
    /// Pause execution for this thread.
    pub thread_id: i32,
}

impl PauseRequestArguments {
    /// The fields that are written for a value.
    pub open spec fn fields(m: PauseRequestArguments) -> JsonObject {
        let o = empty_object();
        let o = with_field::<i32>(o, "threadId"@, m.thread_id);
        o
    }

    /// What the fields of an object decode to: the first failure in the order of
    /// the fields, or the value.
    pub open spec fn decode_fields(o: JsonObject) -> Result<PauseRequestArguments, DecodeErrorView> {
        let thread_id = req_field::<i32>(o, "threadId"@);
        if thread_id is Err {
            Err(thread_id->Err_0)
        } else {
            Ok(PauseRequestArguments {
                thread_id: thread_id->Ok_0,
            })
        }
    }

    /// Writes the fields of the value into a fresh object.
    pub fn to_object(&self) -> (o: serde_json::Map<String, serde_json::Value>)
        ensures
            object_model(o) == PauseRequestArguments::fields(*self),
    {
        let mut o = object_new();
        put::<i32>(&mut o, "threadId", &self.thread_id);
        o
    }

    /// Reads a value from the fields of an object.
    pub fn from_object(o: &serde_json::Map<String, serde_json::Value>) -> (r: Result<
        PauseRequestArguments,
        DecodeError,
    >)
        ensures
            match r {
                Ok(x) => PauseRequestArguments::decode_fields(object_model(*o)) matches Ok(m) && m == x.model(),
                Err(e) => PauseRequestArguments::decode_fields(object_model(*o)) matches Err(f) && f == e@,
            },
    {
        let thread_id = get_req::<i32>(o, "threadId")?;
        Ok(PauseRequestArguments { thread_id })
    }
}

impl Wire for PauseRequestArguments {
    type Model = PauseRequestArguments;

    open spec fn model(&self) -> PauseRequestArguments {
        *self
    }

    open spec fn wire_ok(m: PauseRequestArguments) -> bool {
        true
    }

    open spec fn encode_json(m: PauseRequestArguments) -> Json {
        Json::Object(PauseRequestArguments::fields(m))
    }

    open spec fn decode_json(j: Json) -> Result<PauseRequestArguments, DecodeErrorView> {
        match j {
            Json::Object(o) => PauseRequestArguments::decode_fields(o),
            _ => Err(DecodeErrorView::InvalidType),
        }
    }

    fn to_value(&self) -> (r: serde_json::Value) {
        value_object(self.to_object())
    }

    fn from_value(v: &serde_json::Value) -> (r: Result<PauseRequestArguments, DecodeError>) {
        match value_as_object(v) {
            Some(o) => PauseRequestArguments::from_object(o),
            None => Err(DecodeError::InvalidType),
        }
    }

    proof fn lemma_round_trip(m: PauseRequestArguments) {
        broadcast use group_field_rules;

        reveal(req_field);
        reveal_strlit("threadId");
        assert("threadId"@.len() == 8);
        let o = PauseRequestArguments::fields(m);
        i32::lemma_round_trip(m.thread_id);
        assert(req_field::<i32>(o, "threadId"@) matches Ok(v) && v == m.thread_id);
    }
}

impl Record for PauseRequestArguments {
    open spec fn field_names() -> Set<Seq<char>> {
        set!["threadId"@]
    }

    proof fn lemma_unknown_field(o: JsonObject, key: Seq<char>, x: Json) {
        broadcast use group_field_rules;

        reveal(req_field);
    }
}

/// Gathers the fields of a [`PauseRequestArguments`] one by one.
///
/// A field without a default has to be set before the value is built.
pub struct PauseRequestArgumentsBuilder {
    pub thread_id: Option<i32>,
}

impl PauseRequestArguments {
    /// A builder in which every field with a default holds its default.
    pub fn builder() -> (r: PauseRequestArgumentsBuilder)
        ensures
            r.thread_id is None,
    {
        PauseRequestArgumentsBuilder {
            thread_id: None,
        }
    }
}

impl PauseRequestArgumentsBuilder {
    /// Sets `thread_id`.
    pub fn thread_id(self, value: i32) -> (r: PauseRequestArgumentsBuilder)
        ensures
            r == (PauseRequestArgumentsBuilder { thread_id: Some(value), ..self }),
    {
        PauseRequestArgumentsBuilder { thread_id: Some(value), ..self }
    }

    /// Whether every field without a default has been set.
    pub open spec fn complete(self) -> bool {
        &&& self.thread_id is Some
    }

    /// The value with the fields as they were set.
    pub fn build(self) -> (r: PauseRequestArguments)
        requires
            self.complete(),
        ensures
            r == (PauseRequestArguments {
                thread_id: self.thread_id->Some_0,
            }),
    {
        PauseRequestArguments {
            thread_id: self.thread_id.unwrap(),
        }
    }
}

impl From<PauseRequestArguments> for Request {
    fn from(args: PauseRequestArguments) -> (r: Request) {
        Request::Pause(args)
    }
}

impl vstd::std_specs::convert::FromSpecImpl<PauseRequestArguments> for Request {
    open spec fn obeys_from_spec() -> bool {
        true
    }

    open spec fn from_spec(args: PauseRequestArguments) -> Request {
        Request::Pause(args)
    }
}

impl From<PauseRequestArguments> for ProtocolMessageContent {
    fn from(args: PauseRequestArguments) -> (r: ProtocolMessageContent) {
        ProtocolMessageContent::Request(Request::Pause(args))
    }
}

impl vstd::std_specs::convert::FromSpecImpl<PauseRequestArguments> for ProtocolMessageContent {
    open spec fn obeys_from_spec() -> bool {
        true
    }

    open spec fn from_spec(args: PauseRequestArguments) -> ProtocolMessageContent {
        ProtocolMessageContent::Request(Request::Pause(args))
    }
}

#[derive(Clone, Debug, PartialEq, Eq)]
pub struct ReadMemoryRequestArguments {
    /// Memory reference to the base location from which data should be read.
    pub memory_reference: String,

    /// Optional offset (in bytes) to be applied to the reference location before reading data. Can be negative.
    pub offset: i32,

    /// Number of bytes to read at the specified location and offset.
    pub count: i32,
}

/// The mathematical content of a [`ReadMemoryRequestArguments`].
pub struct ReadMemoryRequestArgumentsView {
    pub memory_reference: Seq<char>,
    pub offset: i32,
    pub count: i32,
}

impl View for ReadMemoryRequestArguments {
    type V = ReadMemoryRequestArgumentsView;

    open spec fn view(&self) -> ReadMemoryRequestArgumentsView {
        ReadMemoryRequestArgumentsView {
            memory_reference: self.memory_reference.model(),
            offset: self.offset,
            count: self.count,
        }
    }
}

impl ReadMemoryRequestArguments {
    /// The fields that are written for a value.
    pub open spec fn fields(m: ReadMemoryRequestArgumentsView) -> JsonObject {
        let o = empty_object();
        let o = with_field::<String>(o, "memoryReference"@, m.memory_reference);
        let o = with_nondefault_field::<i32>(o, "offset"@, m.offset, 0i32);
        let o = with_field::<i32>(o, "count"@, m.count);
        o
    }

    /// What the fields of an object decode to: the first failure in the order of
    /// the fields, or the value.
    pub open spec fn decode_fields(o: JsonObject) -> Result<ReadMemoryRequestArgumentsView, DecodeErrorView> {
        let memory_reference = req_field::<String>(o, "memoryReference"@);
        let offset = default_field::<i32>(o, "offset"@, 0i32);
        let count = req_field::<i32>(o, "count"@);
        if memory_reference is Err {
            Err(memory_reference->Err_0)
        } else if offset is Err {
            Err(offset->Err_0)
        } else if count is Err {
            Err(count->Err_0)
        } else {
            Ok(ReadMemoryRequestArgumentsView {
                memory_reference: memory_reference->Ok_0,
                offset: offset->Ok_0,
                count: count->Ok_0,
            })
        }
    }

    /// Writes the fields of the value into a fresh object.
    pub fn to_object(&self) -> (o: serde_json::Map<String, serde_json::Value>)
        ensures
            object_model(o) == ReadMemoryRequestArguments::fields(self@),
    {
        let mut o = object_new();
        put::<String>(&mut o, "memoryReference", &self.memory_reference);
        put_nonzero(&mut o, "offset", self.offset);
        put::<i32>(&mut o, "count", &self.count);
        o
    }

    /// Reads a value from the fields of an object.
    pub fn from_object(o: &serde_json::Map<String, serde_json::Value>) -> (r: Result<
        ReadMemoryRequestArguments,
        DecodeError,
    >)
        ensures
            match r {
                Ok(x) => ReadMemoryRequestArguments::decode_fields(object_model(*o)) matches Ok(m) && m == x.model(),
                Err(e) => ReadMemoryRequestArguments::decode_fields(object_model(*o)) matches Err(f) && f == e@,
            },
    {
        let memory_reference = get_req::<String>(o, "memoryReference")?;
        let offset = get_or::<i32>(o, "offset", 0)?;
        let count = get_req::<i32>(o, "count")?;
        Ok(ReadMemoryRequestArguments { memory_reference, offset, count })
    }
}

impl Wire for ReadMemoryRequestArguments {
    type Model = ReadMemoryRequestArgumentsView;

    open spec fn model(&self) -> ReadMemoryRequestArgumentsView {
        self@
    }

    open spec fn wire_ok(m: ReadMemoryRequestArgumentsView) -> bool {
        true
    }

    open spec fn encode_json(m: ReadMemoryRequestArgumentsView) -> Json {
        Json::Object(ReadMemoryRequestArguments::fields(m))
    }

    open spec fn decode_json(j: Json) -> Result<ReadMemoryRequestArgumentsView, DecodeErrorView> {
        match j {
            Json::Object(o) => ReadMemoryRequestArguments::decode_fields(o),
            _ => Err(DecodeErrorView::InvalidType),
        }
    }

    fn to_value(&self) -> (r: serde_json::Value) {
        value_object(self.to_object())
    }

    fn from_value(v: &serde_json::Value) -> (r: Result<ReadMemoryRequestArguments, DecodeError>) {
        match value_as_object(v) {
            Some(o) => ReadMemoryRequestArguments::from_object(o),
            None => Err(DecodeError::InvalidType),
        }
    }

    proof fn lemma_round_trip(m: ReadMemoryRequestArgumentsView) {
        broadcast use group_field_rules;

        reveal(default_field);
        reveal(req_field);
        reveal_strlit("memoryReference");
        reveal_strlit("offset");
        reveal_strlit("count");
        assert("memoryReference"@.len() == 15);
        assert("offset"@.len() == 6);
        assert("count"@.len() == 5);
        let o = ReadMemoryRequestArguments::fields(m);
        String::lemma_round_trip(m.memory_reference);
        assert(req_field::<String>(o, "memoryReference"@) matches Ok(v) && v == m.memory_reference);
        i32::lemma_round_trip(m.offset);
        assert(default_field::<i32>(o, "offset"@, 0i32) matches Ok(v) && v == m.offset);
        i32::lemma_round_trip(m.count);
        assert(req_field::<i32>(o, "count"@) matches Ok(v) && v == m.count);
    }
}

impl Record for ReadMemoryRequestArguments {
    open spec fn field_names() -> Set<Seq<char>> {
        set!["memoryReference"@, "offset"@, "count"@]
    }

    proof fn lemma_unknown_field(o: JsonObject, key: Seq<char>, x: Json) {
        broadcast use group_field_rules;

        reveal(default_field);
        reveal(req_field);
    }
}

impl Defaults for ReadMemoryRequestArguments {
    open spec fn elidable_names() -> Set<Seq<char>> {
        set!["offset"@]
    }

    open spec fn at_defaults(m: ReadMemoryRequestArgumentsView) -> bool {
        &&& m.offset == 0i32
    }

    proof fn lemma_defaults_elided(m: ReadMemoryRequestArgumentsView, key: Seq<char>) {
        broadcast use group_field_rules;

        reveal_strlit("memoryReference");
        reveal_strlit("offset");
        reveal_strlit("count");
        assert("memoryReference"@.len() == 15);
        assert("offset"@.len() == 6);
        assert("count"@.len() == 5);
    }
}

/// Gathers the fields of a [`ReadMemoryRequestArguments`] one by one.
///
/// A field without a default has to be set before the value is built.
pub struct ReadMemoryRequestArgumentsBuilder {
    pub memory_reference: Option<String>,
    pub offset: i32,
    pub count: Option<i32>,
}

impl ReadMemoryRequestArguments {
    /// A builder in which every field with a default holds its default.
    pub fn builder() -> (r: ReadMemoryRequestArgumentsBuilder)
        ensures
            r.memory_reference is None,
            r.offset == 0,
            r.count is None,
    {
        ReadMemoryRequestArgumentsBuilder {
            memory_reference: None,
            offset: 0,
            count: None,
        }
    }
}

impl ReadMemoryRequestArgumentsBuilder {
    /// Sets `memory_reference`.
    pub fn memory_reference(self, value: String) -> (r: ReadMemoryRequestArgumentsBuilder)
        ensures
            r == (ReadMemoryRequestArgumentsBuilder { memory_reference: Some(value), ..self }),
    {
        ReadMemoryRequestArgumentsBuilder { memory_reference: Some(value), ..self }
    }

    /// Sets `offset`.
    pub fn offset(self, value: i32) -> (r: ReadMemoryRequestArgumentsBuilder)
        ensures
            r == (ReadMemoryRequestArgumentsBuilder { offset: value, ..self }),
    {
        ReadMemoryRequestArgumentsBuilder { offset: value, ..self }
    }

    /// Sets `count`.
    pub fn count(self, value: i32) -> (r: ReadMemoryRequestArgumentsBuilder)
        ensures
            r == (ReadMemoryRequestArgumentsBuilder { count: Some(value), ..self }),
    {
        ReadMemoryRequestArgumentsBuilder { count: Some(value), ..self }
    }

    /// Whether every field without a default has been set.
    pub open spec fn complete(self) -> bool {
        &&& self.memory_reference is Some
        &&& self.count is Some
    }

    /// The value with the fields as they were set.
    pub fn build(self) -> (r: ReadMemoryRequestArguments)
        requires
            self.complete(),
        ensures
            r == (ReadMemoryRequestArguments {
                memory_reference: self.memory_reference->Some_0,
                offset: self.offset,
                count: self.count->Some_0,
            }),
    {
        ReadMemoryRequestArguments {
            memory_reference: self.memory_reference.unwrap(),
            offset: self.offset,
            count: self.count.unwrap(),
        }
    }
}

impl From<ReadMemoryRequestArguments> for Request {
    fn from(args: ReadMemoryRequestArguments) -> (r: Request) {
        Request::ReadMemory(args)
    }
}

impl vstd::std_specs::convert::FromSpecImpl<ReadMemoryRequestArguments> for Request {
    open spec fn obeys_from_spec() -> bool {
        true
    }

    open spec fn from_spec(args: ReadMemoryRequestArguments) -> Request {
        Request::ReadMemory(args)
    }
}

impl From<ReadMemoryRequestArguments> for ProtocolMessageContent {
    fn from(args: ReadMemoryRequestArguments) -> (r: ProtocolMessageContent) {
        ProtocolMessageContent::Request(Request::ReadMemory(args))
    }
}

impl vstd::std_specs::convert::FromSpecImpl<ReadMemoryRequestArguments> for ProtocolMessageContent {
    open spec fn obeys_from_spec() -> bool {
        true
    }

    open spec fn from_spec(args: ReadMemoryRequestArguments) -> ProtocolMessageContent {
        ProtocolMessageContent::Request(Request::ReadMemory(args))
    }
}

#[derive(Clone, Debug, PartialEq, Eq)]
pub struct RestartFrameRequestArguments {
    /// Restart this stackframe.
    pub frame_id: i32,
}

impl RestartFrameRequestArguments {
    /// The fields that are written for a value.
    pub open spec fn fields(m: RestartFrameRequestArguments) -> JsonObject {
        let o = empty_object();
        let o = with_field::<i32>(o, "frameId"@, m.frame_id);
        o
    }

    /// What the fields of an object decode to: the first failure in the order of
    /// the fields, or the value.
    pub open spec fn decode_fields(o: JsonObject) -> Result<RestartFrameRequestArguments, DecodeErrorView> {
        let frame_id = req_field::<i32>(o, "frameId"@);
        if frame_id is Err {
            Err(frame_id->Err_0)
        } else {
            Ok(RestartFrameRequestArguments {
                frame_id: frame_id->Ok_0,
            })
        }
    }

    /// Writes the fields of the value into a fresh object.
    pub fn to_object(&self) -> (o: serde_json::Map<String, serde_json::Value>)
        ensures
            object_model(o) == RestartFrameRequestArguments::fields(*self),
    {
        let mut o = object_new();
        put::<i32>(&mut o, "frameId", &self.frame_id);
        o
    }

    /// Reads a value from the fields of an object.
    pub fn from_object(o: &serde_json::Map<String, serde_json::Value>) -> (r: Result<
        RestartFrameRequestArguments,
        DecodeError,
    >)
        ensures
            match r {
                Ok(x) => RestartFrameRequestArguments::decode_fields(object_model(*o)) matches Ok(m) && m == x.model(),
                Err(e) => RestartFrameRequestArguments::decode_fields(object_model(*o)) matches Err(f) && f == e@,
            },
    {
        let frame_id = get_req::<i32>(o, "frameId")?;
        Ok(RestartFrameRequestArguments { frame_id })
    }
}

impl Wire for RestartFrameRequestArguments {
    type Model = RestartFrameRequestArguments;

    open spec fn model(&self) -> RestartFrameRequestArguments {
        *self
    }

    open spec fn wire_ok(m: RestartFrameRequestArguments) -> bool {
        true
    }

    open spec fn encode_json(m: RestartFrameRequestArguments) -> Json {
        Json::Object(RestartFrameRequestArguments::fields(m))
    }

    open spec fn decode_json(j: Json) -> Result<RestartFrameRequestArguments, DecodeErrorView> {
        match j {
            Json::Object(o) => RestartFrameRequestArguments::decode_fields(o),
            _ => Err(DecodeErrorView::InvalidType),
        }
    }

    fn to_value(&self) -> (r: serde_json::Value) {
        value_object(self.to_object())
    }

    fn from_value(v: &serde_json::Value) -> (r: Result<RestartFrameRequestArguments, DecodeError>) {
        match value_as_object(v) {
            Some(o) => RestartFrameRequestArguments::from_object(o),
            None => Err(DecodeError::InvalidType),
        }
    }

    proof fn lemma_round_trip(m: RestartFrameRequestArguments) {
        broadcast use group_field_rules;

        reveal(req_field);
        reveal_strlit("frameId");
        assert("frameId"@.len() == 7);
        let o = RestartFrameRequestArguments::fields(m);
        i32::lemma_round_trip(m.frame_id);
        assert(req_field::<i32>(o, "frameId"@) matches Ok(v) && v == m.frame_id);
    }
}

impl Record for RestartFrameRequestArguments {
    open spec fn field_names() -> Set<Seq<char>> {
        set!["frameId"@]
    }

    proof fn lemma_unknown_field(o: JsonObject, key: Seq<char>, x: Json) {
        broadcast use group_field_rules;

        reveal(req_field);
    }
}

/// Gathers the fields of a [`RestartFrameRequestArguments`] one by one.
///
/// A field without a default has to be set before the value is built.
pub struct RestartFrameRequestArgumentsBuilder {
    pub frame_id: Option<i32>,
}

impl RestartFrameRequestArguments {
    /// A builder in which every field with a default holds its default.
    pub fn builder() -> (r: RestartFrameRequestArgumentsBuilder)
        ensures
            r.frame_id is None,
    {
        RestartFrameRequestArgumentsBuilder {
            frame_id: None,
        }
    }
}

impl RestartFrameRequestArgumentsBuilder {
    /// Sets `frame_id`.
    pub fn frame_id(self, value: i32) -> (r: RestartFrameRequestArgumentsBuilder)
        ensures
            r == (RestartFrameRequestArgumentsBuilder { frame_id: Some(value), ..self }),
    {
        RestartFrameRequestArgumentsBuilder { frame_id: Some(value), ..self }
    }

    /// Whether every field without a default has been set.
    pub open spec fn complete(self) -> bool {
        &&& self.frame_id is Some
    }

    /// The value with the fields as they were set.
    pub fn build(self) -> (r: RestartFrameRequestArguments)
        requires
            self.complete(),
        ensures
            r == (RestartFrameRequestArguments {
                frame_id: self.frame_id->Some_0,
            }),
    {
        RestartFrameRequestArguments {
            frame_id: self.frame_id.unwrap(),
        }
    }
}

impl From<RestartFrameRequestArguments> for Request {
    fn from(args: RestartFrameRequestArguments) -> (r: Request) {
        Request::RestartFrame(args)
    }
}

impl vstd::std_specs::convert::FromSpecImpl<RestartFrameRequestArguments> for Request {
    open spec fn obeys_from_spec() -> bool {
        true
    }

    open spec fn from_spec(args: RestartFrameRequestArguments) -> Request {
        Request::RestartFrame(args)
    }
}

impl From<RestartFrameRequestArguments> for ProtocolMessageContent {
    fn from(args: RestartFrameRequestArguments) -> (r: ProtocolMessageContent) {
        ProtocolMessageContent::Request(Request::RestartFrame(args))
    }
}

impl vstd::std_specs::convert::FromSpecImpl<RestartFrameRequestArguments> for ProtocolMessageContent {
    open spec fn obeys_from_spec() -> bool {
        true
    }

    open spec fn from_spec(args: RestartFrameRequestArguments) -> ProtocolMessageContent {
        ProtocolMessageContent::Request(Request::RestartFrame(args))
    }
}

#[derive(Clone, Debug, PartialEq, Eq)]
pub struct ReverseContinueRequestArguments {
    /// Execute 'reverseContinue' for this thread.
    pub thread_id: i32,
}

impl ReverseContinueRequestArguments {
    /// The fields that are written for a value.
    pub open spec fn fields(m: ReverseContinueRequestArguments) -> JsonObject {
        let o = empty_object();
        let o = with_field::<i32>(o, "threadId"@, m.thread_id);
        o
    }

    /// What the fields of an object decode to: the first failure in the order of
    /// the fields, or the value.
    pub open spec fn decode_fields(o: JsonObject) -> Result<ReverseContinueRequestArguments, DecodeErrorView> {
        let thread_id = req_field::<i32>(o, "threadId"@);
        if thread_id is Err {
            Err(thread_id->Err_0)
        } else {
            Ok(ReverseContinueRequestArguments {
                thread_id: thread_id->Ok_0,
            })
        }
    }

    /// Writes the fields of the value into a fresh object.
    pub fn to_object(&self) -> (o: serde_json::Map<String, serde_json::Value>)
        ensures
            object_model(o) == ReverseContinueRequestArguments::fields(*self),
    {
        let mut o = object_new();
        put::<i32>(&mut o, "threadId", &self.thread_id);
        o
    }

    /// Reads a value from the fields of an object.
    pub fn from_object(o: &serde_json::Map<String, serde_json::Value>) -> (r: Result<
        ReverseContinueRequestArguments,
        DecodeError,
    >)
        ensures
            match r {
                Ok(x) => ReverseContinueRequestArguments::decode_fields(object_model(*o)) matches Ok(m) && m == x.model(),
                Err(e) => ReverseContinueRequestArguments::decode_fields(object_model(*o)) matches Err(f) && f == e@,
            },
    {
        let thread_id = get_req::<i32>(o, "threadId")?;
        Ok(ReverseContinueRequestArguments { thread_id })
    }
}

impl Wire for ReverseContinueRequestArguments {
    type Model = ReverseContinueRequestArguments;

    open spec fn model(&self) -> ReverseContinueRequestArguments {
        *self
    }

    open spec fn wire_ok(m: ReverseContinueRequestArguments) -> bool {
        true
    }

    open spec fn encode_json(m: ReverseContinueRequestArguments) -> Json {
        Json::Object(ReverseContinueRequestArguments::fields(m))
    }

    open spec fn decode_json(j: Json) -> Result<ReverseContinueRequestArguments, DecodeErrorView> {
        match j {
            Json::Object(o) => ReverseContinueRequestArguments::decode_fields(o),
            _ => Err(DecodeErrorView::InvalidType),
        }
    }

    fn to_value(&self) -> (r: serde_json::Value) {
        value_object(self.to_object())
    }

    fn from_value(v: &serde_json::Value) -> (r: Result<ReverseContinueRequestArguments, DecodeError>) {
        match value_as_object(v) {
            Some(o) => ReverseContinueRequestArguments::from_object(o),
            None => Err(DecodeError::InvalidType),
        }
    }

    proof fn lemma_round_trip(m: ReverseContinueRequestArguments) {
        broadcast use group_field_rules;

        reveal(req_field);
        reveal_strlit("threadId");
        assert("threadId"@.len() == 8);
        let o = ReverseContinueRequestArguments::fields(m);
        i32::lemma_round_trip(m.thread_id);
        assert(req_field::<i32>(o, "threadId"@) matches Ok(v) && v == m.thread_id);
    }
}

impl Record for ReverseContinueRequestArguments {
    open spec fn field_names() -> Set<Seq<char>> {
        set!["threadId"@]
    }

    proof fn lemma_unknown_field(o: JsonObject, key: Seq<char>, x: Json) {
        broadcast use group_field_rules;

        reveal(req_field);
    }
}

/// Gathers the fields of a [`ReverseContinueRequestArguments`] one by one.
///
/// A field without a default has to be set before the value is built.
pub struct ReverseContinueRequestArgumentsBuilder {
    pub thread_id: Option<i32>,
}

impl ReverseContinueRequestArguments {
    /// A builder in which every field with a default holds its default.
    pub fn builder() -> (r: ReverseContinueRequestArgumentsBuilder)
        ensures
            r.thread_id is None,
    {
        ReverseContinueRequestArgumentsBuilder {
            thread_id: None,
        }
    }
}

impl ReverseContinueRequestArgumentsBuilder {
    /// Sets `thread_id`.
    pub fn thread_id(self, value: i32) -> (r: ReverseContinueRequestArgumentsBuilder)
        ensures
            r == (ReverseContinueRequestArgumentsBuilder { thread_id: Some(value), ..self }),
    {
        ReverseContinueRequestArgumentsBuilder { thread_id: Some(value), ..self }
    }

    /// Whether every field without a default has been set.
    pub open spec fn complete(self) -> bool {
        &&& self.thread_id is Some
    }

    /// The value with the fields as they were set.
    pub fn build(self) -> (r: ReverseContinueRequestArguments)
        requires
            self.complete(),
        ensures
            r == (ReverseContinueRequestArguments {
                thread_id: self.thread_id->Some_0,
            }),
    {
        ReverseContinueRequestArguments {
            thread_id: self.thread_id.unwrap(),
        }
    }
}

impl From<ReverseContinueRequestArguments> for Request {
    fn from(args: ReverseContinueRequestArguments) -> (r: Request) {
        Request::ReverseContinue(args)
    }
}

impl vstd::std_specs::convert::FromSpecImpl<ReverseContinueRequestArguments> for Request {
    open spec fn obeys_from_spec() -> bool {
        true
    }

    open spec fn from_spec(args: ReverseContinueRequestArguments) -> Request {
        Request::ReverseContinue(args)
    }
}

impl From<ReverseContinueRequestArguments> for ProtocolMessageContent {
    fn from(args: ReverseContinueRequestArguments) -> (r: ProtocolMessageContent) {
        ProtocolMessageContent::Request(Request::ReverseContinue(args))
    }
}

impl vstd::std_specs::convert::FromSpecImpl<ReverseContinueRequestArguments> for ProtocolMessageContent {
    open spec fn obeys_from_spec() -> bool {
        true
    }

    open spec fn from_spec(args: ReverseContinueRequestArguments) -> ProtocolMessageContent {
        ProtocolMessageContent::Request(Request::ReverseContinue(args))
    }
}

#[derive(Clone, Debug, PartialEq, Eq)]
pub struct RunInTerminalRequestArguments {
    /// What kind of terminal to launch.
    pub kind: Option<TerminalKind>,

    /// Optional title of the terminal.
    pub title: Option<String>,

    /// Working directory for the command. For non-empty, valid paths this typically results in execution of a change directory command.
    pub cwd: String,

    /// List of arguments. The first argument is the command to run.
    pub args: Vec<String>,

    /// Environment key-value pairs that are added to or removed from the default environment.
    pub env: Dictionary<Option<String>>,
}

/// The mathematical content of a [`RunInTerminalRequestArguments`].
pub struct RunInTerminalRequestArgumentsView {
    pub kind: Option<TerminalKind>,
    pub title: Option<Seq<char>>,
    pub cwd: Seq<char>,
    pub args: Seq<Seq<char>>,
    pub env: Table<Option<Seq<char>>>,
}

impl View for RunInTerminalRequestArguments {
    type V = RunInTerminalRequestArgumentsView;

    open spec fn view(&self) -> RunInTerminalRequestArgumentsView {
        RunInTerminalRequestArgumentsView {
            kind: self.kind.model(),
            title: self.title.model(),
            cwd: self.cwd.model(),
            args: self.args.model(),
            env: self.env.model(),
        }
    }
}

impl RunInTerminalRequestArguments {
    /// The fields that are written for a value.
    pub open spec fn fields(m: RunInTerminalRequestArgumentsView) -> JsonObject {
        let o = empty_object();
        let o = with_opt_field::<TerminalKind>(o, "kind"@, m.kind);
        let o = with_opt_field::<String>(o, "title"@, m.title);
        let o = with_field::<String>(o, "cwd"@, m.cwd);
        let o = with_field::<Vec<String>>(o, "args"@, m.args);
        let o = with_nondefault_field::<Dictionary<Option<String>>>(o, "env"@, m.env, Seq::empty());
        o
    }

    /// What the fields of an object decode to: the first failure in the order of
    /// the fields, or the value.
    pub open spec fn decode_fields(o: JsonObject) -> Result<RunInTerminalRequestArgumentsView, DecodeErrorView> {
        let kind = opt_field::<TerminalKind>(o, "kind"@);
        let title = opt_field::<String>(o, "title"@);
        let cwd = req_field::<String>(o, "cwd"@);
        let args = req_field::<Vec<String>>(o, "args"@);
        let env = default_field::<Dictionary<Option<String>>>(o, "env"@, Seq::empty());
        if kind is Err {
            Err(kind->Err_0)
        } else if title is Err {
            Err(title->Err_0)
        } else if cwd is Err {
            Err(cwd->Err_0)
        } else if args is Err {
            Err(args->Err_0)
        } else if env is Err {
            Err(env->Err_0)
        } else {
            Ok(RunInTerminalRequestArgumentsView {
                kind: kind->Ok_0,
                title: title->Ok_0,
                cwd: cwd->Ok_0,
                args: args->Ok_0,
                env: env->Ok_0,
            })
        }
    }

    /// Writes the fields of the value into a fresh object.
    pub fn to_object(&self) -> (o: serde_json::Map<String, serde_json::Value>)
        ensures
            object_model(o) == RunInTerminalRequestArguments::fields(self@),
    {
        let mut o = object_new();
        put_opt::<TerminalKind>(&mut o, "kind", &self.kind);
        put_opt::<String>(&mut o, "title", &self.title);
        put::<String>(&mut o, "cwd", &self.cwd);
        put::<Vec<String>>(&mut o, "args", &self.args);
        put_entries::<Option<String>>(&mut o, "env", &self.env);
        o
    }

    /// Reads a value from the fields of an object.
    pub fn from_object(o: &serde_json::Map<String, serde_json::Value>) -> (r: Result<
        RunInTerminalRequestArguments,
        DecodeError,
    >)
        ensures
            match r {
                Ok(x) => RunInTerminalRequestArguments::decode_fields(object_model(*o)) matches Ok(m) && m == x.model(),
                Err(e) => RunInTerminalRequestArguments::decode_fields(object_model(*o)) matches Err(f) && f == e@,
            },
    {
        let kind = get_opt::<TerminalKind>(o, "kind")?;
        let title = get_opt::<String>(o, "title")?;
        let cwd = get_req::<String>(o, "cwd")?;
        let args = get_req::<Vec<String>>(o, "args")?;
        let env = get_entries::<Option<String>>(o, "env")?;
        Ok(RunInTerminalRequestArguments { kind, title, cwd, args, env })
    }
}

impl Wire for RunInTerminalRequestArguments {
    type Model = RunInTerminalRequestArgumentsView;

    open spec fn model(&self) -> RunInTerminalRequestArgumentsView {
        self@
    }

    open spec fn wire_ok(m: RunInTerminalRequestArgumentsView) -> bool {
        &&& Dictionary::<Option<String>>::wire_ok(m.env)
    }

    open spec fn encode_json(m: RunInTerminalRequestArgumentsView) -> Json {
        Json::Object(RunInTerminalRequestArguments::fields(m))
    }

    open spec fn decode_json(j: Json) -> Result<RunInTerminalRequestArgumentsView, DecodeErrorView> {
        match j {
            Json::Object(o) => RunInTerminalRequestArguments::decode_fields(o),
            _ => Err(DecodeErrorView::InvalidType),
        }
    }

    fn to_value(&self) -> (r: serde_json::Value) {
        value_object(self.to_object())
    }

    fn from_value(v: &serde_json::Value) -> (r: Result<RunInTerminalRequestArguments, DecodeError>) {
        match value_as_object(v) {
            Some(o) => RunInTerminalRequestArguments::from_object(o),
            None => Err(DecodeError::InvalidType),
        }
    }

    proof fn lemma_round_trip(m: RunInTerminalRequestArgumentsView) {
        broadcast use group_field_rules;

        reveal(default_field);
        reveal(opt_field);
        reveal(req_field);
        reveal_strlit("kind");
        reveal_strlit("title");
        reveal_strlit("cwd");
        reveal_strlit("args");
        reveal_strlit("env");
        assert("kind"@.len() == 4);
        assert("title"@.len() == 5);
        assert("cwd"@.len() == 3);
        assert("args"@.len() == 4);
        assert("env"@.len() == 3);
        assert("kind"@[0] != "args"@[0]);
        assert("cwd"@[0] != "env"@[0]);
        let o = RunInTerminalRequestArguments::fields(m);
        Option::<TerminalKind>::lemma_round_trip(m.kind);
        assert(opt_field::<TerminalKind>(o, "kind"@) matches Ok(v) && v == m.kind);
        Option::<String>::lemma_round_trip(m.title);
        assert(opt_field::<String>(o, "title"@) matches Ok(v) && v == m.title);
        String::lemma_round_trip(m.cwd);
        assert(req_field::<String>(o, "cwd"@) matches Ok(v) && v == m.cwd);
        Vec::<String>::lemma_round_trip(m.args);
        assert(req_field::<Vec<String>>(o, "args"@) matches Ok(v) && v == m.args);
        Dictionary::<Option<String>>::lemma_round_trip(m.env);
        assert(default_field::<Dictionary<Option<String>>>(o, "env"@, Seq::empty()) matches Ok(v) && v == m.env);
    }
}

impl Record for RunInTerminalRequestArguments {
    open spec fn field_names() -> Set<Seq<char>> {
        set!["kind"@, "title"@, "cwd"@, "args"@, "env"@]
    }

    proof fn lemma_unknown_field(o: JsonObject, key: Seq<char>, x: Json) {
        broadcast use group_field_rules;

        reveal(default_field);
        reveal(opt_field);
        reveal(req_field);
    }
}

impl Defaults for RunInTerminalRequestArguments {
    open spec fn elidable_names() -> Set<Seq<char>> {
        set!["kind"@, "title"@, "env"@]
    }

    open spec fn at_defaults(m: RunInTerminalRequestArgumentsView) -> bool {
        &&& m.kind is None
        &&& m.title is None
        &&& m.env == Seq::<(Seq<char>, Option<Seq<char>>)>::empty()
    }

    proof fn lemma_defaults_elided(m: RunInTerminalRequestArgumentsView, key: Seq<char>) {
        broadcast use group_field_rules;

        reveal_strlit("kind");
        reveal_strlit("title");
        reveal_strlit("cwd");
        reveal_strlit("args");
        reveal_strlit("env");
        assert("kind"@.len() == 4);
        assert("title"@.len() == 5);
        assert("cwd"@.len() == 3);
        assert("args"@.len() == 4);
        assert("env"@.len() == 3);
        assert("kind"@[0] != "args"@[0]);
        assert("cwd"@[0] != "env"@[0]);
    }
}

/// Gathers the fields of a [`RunInTerminalRequestArguments`] one by one.
///
/// A field without a default has to be set before the value is built.
pub struct RunInTerminalRequestArgumentsBuilder {
    pub kind: Option<TerminalKind>,
    pub title: Option<String>,
    pub cwd: Option<String>,
    pub args: Option<Vec<String>>,
    pub env: Dictionary<Option<String>>,
}

impl RunInTerminalRequestArguments {
    /// A builder in which every field with a default holds its default.
    pub fn builder() -> (r: RunInTerminalRequestArgumentsBuilder)
        ensures
            r.kind is None,
            r.title is None,
            r.cwd is None,
            r.args is None,
            r.env@.len() == 0,
    {
        RunInTerminalRequestArgumentsBuilder {
            kind: None,
            title: None,
            cwd: None,
            args: None,
            env: Dictionary::new(),
        }
    }
}

impl RunInTerminalRequestArgumentsBuilder {
    /// Sets `kind`.
    pub fn kind(self, value: Option<TerminalKind>) -> (r: RunInTerminalRequestArgumentsBuilder)
        ensures
            r == (RunInTerminalRequestArgumentsBuilder { kind: value, ..self }),
    {
        RunInTerminalRequestArgumentsBuilder { kind: value, ..self }
    }

    /// Sets `title`.
    pub fn title(self, value: Option<String>) -> (r: RunInTerminalRequestArgumentsBuilder)
        ensures
            r == (RunInTerminalRequestArgumentsBuilder { title: value, ..self }),
    {
        RunInTerminalRequestArgumentsBuilder { title: value, ..self }
    }

    /// Sets `cwd`.
    pub fn cwd(self, value: String) -> (r: RunInTerminalRequestArgumentsBuilder)
        ensures
            r == (RunInTerminalRequestArgumentsBuilder { cwd: Some(value), ..self }),
    {
        RunInTerminalRequestArgumentsBuilder { cwd: Some(value), ..self }
    }

    /// Sets `args`.
    pub fn args(self, value: Vec<String>) -> (r: RunInTerminalRequestArgumentsBuilder)
        ensures
            r == (RunInTerminalRequestArgumentsBuilder { args: Some(value), ..self }),
    {
        RunInTerminalRequestArgumentsBuilder { args: Some(value), ..self }
    }

    /// Sets `env`.
    pub fn env(self, value: Dictionary<Option<String>>) -> (r: RunInTerminalRequestArgumentsBuilder)
        ensures
            r == (RunInTerminalRequestArgumentsBuilder { env: value, ..self }),
    {
        RunInTerminalRequestArgumentsBuilder { env: value, ..self }
    }

    /// Whether every field without a default has been set.
    pub open spec fn complete(self) -> bool {
        &&& self.cwd is Some
        &&& self.args is Some
    }

    /// The value with the fields as they were set.
    pub fn build(self) -> (r: RunInTerminalRequestArguments)
        requires
            self.complete(),
        ensures
            r == (RunInTerminalRequestArguments {
                kind: self.kind,
                title: self.title,
                cwd: self.cwd->Some_0,
                args: self.args->Some_0,
                env: self.env,
            }),
    {
        RunInTerminalRequestArguments {
            kind: self.kind,
            title: self.title,
            cwd: self.cwd.unwrap(),
            args: self.args.unwrap(),
            env: self.env,
        }
    }
}

impl From<RunInTerminalRequestArguments> for Request {
    fn from(args: RunInTerminalRequestArguments) -> (r: Request) {
        Request::RunInTerminal(args)
    }
}

impl vstd::std_specs::convert::FromSpecImpl<RunInTerminalRequestArguments> for Request {
    open spec fn obeys_from_spec() -> bool {
        true
    }

    open spec fn from_spec(args: RunInTerminalRequestArguments) -> Request {
        Request::RunInTerminal(args)
    }
}

impl From<RunInTerminalRequestArguments> for ProtocolMessageContent {
    fn from(args: RunInTerminalRequestArguments) -> (r: ProtocolMessageContent) {
        ProtocolMessageContent::Request(Request::RunInTerminal(args))
    }
}

impl vstd::std_specs::convert::FromSpecImpl<RunInTerminalRequestArguments> for ProtocolMessageContent {
    open spec fn obeys_from_spec() -> bool {
        true
    }

    open spec fn from_spec(args: RunInTerminalRequestArguments) -> ProtocolMessageContent {
        ProtocolMessageContent::Request(Request::RunInTerminal(args))
    }
}

#[derive(Clone, Copy, Debug, PartialEq, Eq, Structural)]
pub enum TerminalKind {
    Integrated,
    External,
}

impl TerminalKind {
    /// The name under which the value travels.
    pub open spec fn name(self) -> Seq<char> {
        match self {
            TerminalKind::Integrated => "integrated"@,
            TerminalKind::External => "external"@,
        }
    }

    /// The value that travels under `s`, if there is one.
    pub open spec fn named(s: Seq<char>) -> Option<TerminalKind> {
        if s == "integrated"@ {
            Some(TerminalKind::Integrated)
        } else if s == "external"@ {
            Some(TerminalKind::External)
        } else {
            None
        }
    }

    pub fn as_str(&self) -> (r: &'static str)
        ensures
            r@ == self.name(),
    {
        match self {
            TerminalKind::Integrated => "integrated",
            TerminalKind::External => "external",
        }
    }

    pub fn from_name(s: &str) -> (r: Option<TerminalKind>)
        ensures
            r == TerminalKind::named(s@),
    {
        if str_eq(s, "integrated") {
            Some(TerminalKind::Integrated)
        } else if str_eq(s, "external") {
            Some(TerminalKind::External)
        } else {
            None
        }
    }

    /// Every value is found again under its name.
    pub proof fn lemma_named(self)
        ensures
            TerminalKind::named(self.name()) == Some(self),
    {
        reveal_strlit("integrated");
        reveal_strlit("external");
        assert("integrated"@.len() == 10);
        assert("external"@.len() == 8);
    }
}

impl Wire for TerminalKind {
    type Model = TerminalKind;

    open spec fn model(&self) -> TerminalKind {
        *self
    }

    open spec fn wire_ok(m: TerminalKind) -> bool {
        true
    }

    open spec fn encode_json(m: TerminalKind) -> Json {
        Json::Str(m.name())
    }

    open spec fn decode_json(j: Json) -> Result<TerminalKind, DecodeErrorView> {
        match j {
            Json::Str(s) => match TerminalKind::named(s) {
                Some(x) => Ok(x),
                None => Err(DecodeErrorView::InvalidType),
            },
            _ => Err(DecodeErrorView::InvalidType),
        }
    }

    fn to_value(&self) -> (r: serde_json::Value) {
        value_string(self.as_str().to_owned())
    }

    fn from_value(v: &serde_json::Value) -> (r: Result<TerminalKind, DecodeError>) {
        match value_as_str(v) {
            Some(s) => match TerminalKind::from_name(s) {
                Some(x) => Ok(x),
                None => Err(DecodeError::InvalidType),
            },
            None => Err(DecodeError::InvalidType),
        }
    }

    proof fn lemma_round_trip(m: TerminalKind) {
        m.lemma_named();
    }
}

#[derive(Clone, Debug, PartialEq, Eq)]
pub struct ScopesRequestArguments {
    /// Retrieve the scopes for this stackframe.
    pub frame_id: i32,
}

impl ScopesRequestArguments {
    /// The fields that are written for a value.
    pub open spec fn fields(m: ScopesRequestArguments) -> JsonObject {
        let o = empty_object();
        let o = with_field::<i32>(o, "frameId"@, m.frame_id);
        o
    }

    /// What the fields of an object decode to: the first failure in the order of
    /// the fields, or the value.
    pub open spec fn decode_fields(o: JsonObject) -> Result<ScopesRequestArguments, DecodeErrorView> {
        let frame_id = req_field::<i32>(o, "frameId"@);
        if frame_id is Err {
            Err(frame_id->Err_0)
        } else {
            Ok(ScopesRequestArguments {
                frame_id: frame_id->Ok_0,
            })
        }
    }

    /// Writes the fields of the value into a fresh object.
    pub fn to_object(&self) -> (o: serde_json::Map<String, serde_json::Value>)
        ensures
            object_model(o) == ScopesRequestArguments::fields(*self),
    {
        let mut o = object_new();
        put::<i32>(&mut o, "frameId", &self.frame_id);
        o
    }

    /// Reads a value from the fields of an object.
    pub fn from_object(o: &serde_json::Map<String, serde_json::Value>) -> (r: Result<
        ScopesRequestArguments,
        DecodeError,
    >)
        ensures
            match r {
                Ok(x) => ScopesRequestArguments::decode_fields(object_model(*o)) matches Ok(m) && m == x.model(),
                Err(e) => ScopesRequestArguments::decode_fields(object_model(*o)) matches Err(f) && f == e@,
            },
    {
        let frame_id = get_req::<i32>(o, "frameId")?;
        Ok(ScopesRequestArguments { frame_id })
    }
}

impl Wire for ScopesRequestArguments {
    type Model = ScopesRequestArguments;

    open spec fn model(&self) -> ScopesRequestArguments {
        *self
    }

    open spec fn wire_ok(m: ScopesRequestArguments) -> bool {
        true
    }

    open spec fn encode_json(m: ScopesRequestArguments) -> Json {
        Json::Object(ScopesRequestArguments::fields(m))
    }

    open spec fn decode_json(j: Json) -> Result<ScopesRequestArguments, DecodeErrorView> {
        match j {
            Json::Object(o) => ScopesRequestArguments::decode_fields(o),
            _ => Err(DecodeErrorView::InvalidType),
        }
    }

    fn to_value(&self) -> (r: serde_json::Value) {
        value_object(self.to_object())
    }

    fn from_value(v: &serde_json::Value) -> (r: Result<ScopesRequestArguments, DecodeError>) {
        match value_as_object(v) {
            Some(o) => ScopesRequestArguments::from_object(o),
            None => Err(DecodeError::InvalidType),
        }
    }

    proof fn lemma_round_trip(m: ScopesRequestArguments) {
        broadcast use group_field_rules;

        reveal(req_field);
        reveal_strlit("frameId");
        assert("frameId"@.len() == 7);
        let o = ScopesRequestArguments::fields(m);
        i32::lemma_round_trip(m.frame_id);
        assert(req_field::<i32>(o, "frameId"@) matches Ok(v) && v == m.frame_id);
    }
}

impl Record for ScopesRequestArguments {
    open spec fn field_names() -> Set<Seq<char>> {
        set!["frameId"@]
    }

    proof fn lemma_unknown_field(o: JsonObject, key: Seq<char>, x: Json) {
        broadcast use group_field_rules;

        reveal(req_field);
    }
}

/// Gathers the fields of a [`ScopesRequestArguments`] one by one.
///
/// A field without a default has to be set before the value is built.
pub struct ScopesRequestArgumentsBuilder {
    pub frame_id: Option<i32>,
}

impl ScopesRequestArguments {
    /// A builder in which every field with a default holds its default.
    pub fn builder() -> (r: ScopesRequestArgumentsBuilder)
        ensures
            r.frame_id is None,
    {
        ScopesRequestArgumentsBuilder {
            frame_id: None,
        }
    }
}

impl ScopesRequestArgumentsBuilder {
    /// Sets `frame_id`.
    pub fn frame_id(self, value: i32) -> (r: ScopesRequestArgumentsBuilder)
        ensures
            r == (ScopesRequestArgumentsBuilder { frame_id: Some(value), ..self }),
    {
        ScopesRequestArgumentsBuilder { frame_id: Some(value), ..self }
    }

    /// Whether every field without a default has been set.
    pub open spec fn complete(self) -> bool {
        &&& self.frame_id is Some
    }

    /// The value with the fields as they were set.
    pub fn build(self) -> (r: ScopesRequestArguments)
        requires
            self.complete(),
        ensures
            r == (ScopesRequestArguments {
                frame_id: self.frame_id->Some_0,
            }),
    {
        ScopesRequestArguments {
            frame_id: self.frame_id.unwrap(),
        }
    }
}

impl From<ScopesRequestArguments> for Request {
    fn from(args: ScopesRequestArguments) -> (r: Request) {
        Request::Scopes(args)
    }
}

impl vstd::std_specs::convert::FromSpecImpl<ScopesRequestArguments> for Request {
    open spec fn obeys_from_spec() -> bool {
        true
    }

    open spec fn from_spec(args: ScopesRequestArguments) -> Request {
        Request::Scopes(args)
    }
}

impl From<ScopesRequestArguments> for ProtocolMessageContent {
    fn from(args: ScopesRequestArguments) -> (r: ProtocolMessageContent) {
        ProtocolMessageContent::Request(Request::Scopes(args))
    }
}

impl vstd::std_specs::convert::FromSpecImpl<ScopesRequestArguments> for ProtocolMessageContent {
    open spec fn obeys_from_spec() -> bool {
        true
    }

    open spec fn from_spec(args: ScopesRequestArguments) -> ProtocolMessageContent {
        ProtocolMessageContent::Request(Request::Scopes(args))
    }
}

#[derive(Clone, Debug, PartialEq, Eq)]
pub struct SetBreakpointsRequestArguments {
    /// The source location of the breakpoints; either 'source.path' or 'source.reference' must be specified.
    pub source: Source,

    /// The code locations of the breakpoints.
    pub breakpoints: Vec<SourceBreakpoint>,

    /// Deprecated: The code locations of the breakpoints.
    pub lines: Vec<i32>,

    /// A value of true indicates that the underlying source has been modified which results in new breakpoint locations.
    pub source_modified: bool,
}

/// The mathematical content of a [`SetBreakpointsRequestArguments`].
pub struct SetBreakpointsRequestArgumentsView {
    pub source: SourceView,
    pub breakpoints: Seq<SourceBreakpointView>,
    pub lines: Seq<i32>,
    pub source_modified: bool,
}

impl View for SetBreakpointsRequestArguments {
    type V = SetBreakpointsRequestArgumentsView;

    open spec fn view(&self) -> SetBreakpointsRequestArgumentsView {
        SetBreakpointsRequestArgumentsView {
            source: self.source.model(),
            breakpoints: self.breakpoints.model(),
            lines: self.lines.model(),
            source_modified: self.source_modified,
        }
    }
}

impl SetBreakpointsRequestArguments {
    /// The fields that are written for a value.
    pub open spec fn fields(m: SetBreakpointsRequestArgumentsView) -> JsonObject {
        let o = empty_object();
        let o = with_field::<Source>(o, "source"@, m.source);
        let o = with_nondefault_field::<Vec<SourceBreakpoint>>(o, "breakpoints"@, m.breakpoints, Seq::empty());
        let o = with_nondefault_field::<Vec<i32>>(o, "lines"@, m.lines, Seq::empty());
        let o = with_nondefault_field::<bool>(o, "sourceModified"@, m.source_modified, false);
        o
    }

    /// What the fields of an object decode to: the first failure in the order of
    /// the fields, or the value.
    pub open spec fn decode_fields(o: JsonObject) -> Result<SetBreakpointsRequestArgumentsView, DecodeErrorView> {
        let source = req_field::<Source>(o, "source"@);
        let breakpoints = default_field::<Vec<SourceBreakpoint>>(o, "breakpoints"@, Seq::empty());
        let lines = default_field::<Vec<i32>>(o, "lines"@, Seq::empty());
        let source_modified = default_field::<bool>(o, "sourceModified"@, false);
        if source is Err {
            Err(source->Err_0)
        } else if breakpoints is Err {
            Err(breakpoints->Err_0)
        } else if lines is Err {
            Err(lines->Err_0)
        } else if source_modified is Err {
            Err(source_modified->Err_0)
        } else {
            Ok(SetBreakpointsRequestArgumentsView {
                source: source->Ok_0,
                breakpoints: breakpoints->Ok_0,
                lines: lines->Ok_0,
                source_modified: source_modified->Ok_0,
            })
        }
    }

    /// Writes the fields of the value into a fresh object.
    pub fn to_object(&self) -> (o: serde_json::Map<String, serde_json::Value>)
        ensures
            object_model(o) == SetBreakpointsRequestArguments::fields(self@),
    {
        let mut o = object_new();
        put::<Source>(&mut o, "source", &self.source);
        put_nonempty::<SourceBreakpoint>(&mut o, "breakpoints", &self.breakpoints);
        put_nonempty::<i32>(&mut o, "lines", &self.lines);
        put_flag(&mut o, "sourceModified", self.source_modified);
        o
    }

    /// Reads a value from the fields of an object.
    pub fn from_object(o: &serde_json::Map<String, serde_json::Value>) -> (r: Result<
        SetBreakpointsRequestArguments,
        DecodeError,
    >)
        ensures
            match r {
                Ok(x) => SetBreakpointsRequestArguments::decode_fields(object_model(*o)) matches Ok(m) && m == x.model(),
                Err(e) => SetBreakpointsRequestArguments::decode_fields(object_model(*o)) matches Err(f) && f == e@,
            },
    {
        let source = get_req::<Source>(o, "source")?;
        let breakpoints = get_or_empty::<SourceBreakpoint>(o, "breakpoints")?;
        let lines = get_or_empty::<i32>(o, "lines")?;
        let source_modified = get_or::<bool>(o, "sourceModified", false)?;
        Ok(SetBreakpointsRequestArguments { source, breakpoints, lines, source_modified })
    }
}

impl Wire for SetBreakpointsRequestArguments {
    type Model = SetBreakpointsRequestArgumentsView;

    open spec fn model(&self) -> SetBreakpointsRequestArgumentsView {
        self@
    }

    open spec fn wire_ok(m: SetBreakpointsRequestArgumentsView) -> bool {
        &&& Source::wire_ok(m.source)
    }

    open spec fn encode_json(m: SetBreakpointsRequestArgumentsView) -> Json {
        Json::Object(SetBreakpointsRequestArguments::fields(m))
    }

    open spec fn decode_json(j: Json) -> Result<SetBreakpointsRequestArgumentsView, DecodeErrorView> {
        match j {
            Json::Object(o) => SetBreakpointsRequestArguments::decode_fields(o),
            _ => Err(DecodeErrorView::InvalidType),
        }
    }

    fn to_value(&self) -> (r: serde_json::Value) {
        value_object(self.to_object())
    }

    fn from_value(v: &serde_json::Value) -> (r: Result<SetBreakpointsRequestArguments, DecodeError>) {
        match value_as_object(v) {
            Some(o) => SetBreakpointsRequestArguments::from_object(o),
            None => Err(DecodeError::InvalidType),
        }
    }

    proof fn lemma_round_trip(m: SetBreakpointsRequestArgumentsView) {
        broadcast use group_field_rules;

        reveal(default_field);
        reveal(req_field);
        reveal_strlit("source");
        reveal_strlit("breakpoints");
        reveal_strlit("lines");
        reveal_strlit("sourceModified");
        assert("source"@.len() == 6);
        assert("breakpoints"@.len() == 11);
        assert("lines"@.len() == 5);
        assert("sourceModified"@.len() == 14);
        let o = SetBreakpointsRequestArguments::fields(m);
        Source::lemma_round_trip(m.source);
        assert(req_field::<Source>(o, "source"@) matches Ok(v) && v == m.source);
        Vec::<SourceBreakpoint>::lemma_round_trip(m.breakpoints);
        assert(default_field::<Vec<SourceBreakpoint>>(o, "breakpoints"@, Seq::empty()) matches Ok(v) && v == m.breakpoints);
        Vec::<i32>::lemma_round_trip(m.lines);
        assert(default_field::<Vec<i32>>(o, "lines"@, Seq::empty()) matches Ok(v) && v == m.lines);
        bool::lemma_round_trip(m.source_modified);
        assert(default_field::<bool>(o, "sourceModified"@, false) matches Ok(v) && v == m.source_modified);
    }
}

impl Record for SetBreakpointsRequestArguments {
    open spec fn field_names() -> Set<Seq<char>> {
        set!["source"@, "breakpoints"@, "lines"@, "sourceModified"@]
    }

    proof fn lemma_unknown_field(o: JsonObject, key: Seq<char>, x: Json) {
        broadcast use group_field_rules;

        reveal(default_field);
        reveal(req_field);
    }
}

impl Defaults for SetBreakpointsRequestArguments {
    open spec fn elidable_names() -> Set<Seq<char>> {
        set!["breakpoints"@, "lines"@, "sourceModified"@]
    }

    open spec fn at_defaults(m: SetBreakpointsRequestArgumentsView) -> bool {
        &&& m.breakpoints == Seq::<SourceBreakpointView>::empty()
        &&& m.lines == Seq::<i32>::empty()
        &&& !m.source_modified
    }

    proof fn lemma_defaults_elided(m: SetBreakpointsRequestArgumentsView, key: Seq<char>) {
        broadcast use group_field_rules;

        reveal_strlit("source");
        reveal_strlit("breakpoints");
        reveal_strlit("lines");
        reveal_strlit("sourceModified");
        assert("source"@.len() == 6);
        assert("breakpoints"@.len() == 11);
        assert("lines"@.len() == 5);
        assert("sourceModified"@.len() == 14);
    }
}

/// Gathers the fields of a [`SetBreakpointsRequestArguments`] one by one.
///
/// A field without a default has to be set before the value is built.
pub struct SetBreakpointsRequestArgumentsBuilder {
    pub source: Option<Source>,
    pub breakpoints: Vec<SourceBreakpoint>,
    pub lines: Vec<i32>,
    pub source_modified: bool,
}

impl SetBreakpointsRequestArguments {
    /// A builder in which every field with a default holds its default.
    pub fn builder() -> (r: SetBreakpointsRequestArgumentsBuilder)
        ensures
            r.source is None,
            r.breakpoints@.len() == 0,
            r.lines@.len() == 0,
            !r.source_modified,
    {
        SetBreakpointsRequestArgumentsBuilder {
            source: None,
            breakpoints: Vec::new(),
            lines: Vec::new(),
            source_modified: false,
        }
    }
}

impl SetBreakpointsRequestArgumentsBuilder {
    /// Sets `source`.
    pub fn source(self, value: Source) -> (r: SetBreakpointsRequestArgumentsBuilder)
        ensures
            r == (SetBreakpointsRequestArgumentsBuilder { source: Some(value), ..self }),
    {
        SetBreakpointsRequestArgumentsBuilder { source: Some(value), ..self }
    }

    /// Sets `breakpoints`.
    pub fn breakpoints(self, value: Vec<SourceBreakpoint>) -> (r: SetBreakpointsRequestArgumentsBuilder)
        ensures
            r == (SetBreakpointsRequestArgumentsBuilder { breakpoints: value, ..self }),
    {
        SetBreakpointsRequestArgumentsBuilder { breakpoints: value, ..self }
    }

    /// Sets `lines`.
    pub fn lines(self, value: Vec<i32>) -> (r: SetBreakpointsRequestArgumentsBuilder)
        ensures
            r == (SetBreakpointsRequestArgumentsBuilder { lines: value, ..self }),
    {
        SetBreakpointsRequestArgumentsBuilder { lines: value, ..self }
    }

    /// Sets `source_modified`.
    pub fn source_modified(self, value: bool) -> (r: SetBreakpointsRequestArgumentsBuilder)
        ensures
            r == (SetBreakpointsRequestArgumentsBuilder { source_modified: value, ..self }),
    {
        SetBreakpointsRequestArgumentsBuilder { source_modified: value, ..self }
    }

    /// Whether every field without a default has been set.
    pub open spec fn complete(self) -> bool {
        &&& self.source is Some
    }

    /// The value with the fields as they were set.
    pub fn build(self) -> (r: SetBreakpointsRequestArguments)
        requires
            self.complete(),
        ensures
            r == (SetBreakpointsRequestArguments {
                source: self.source->Some_0,
                breakpoints: self.breakpoints,
                lines: self.lines,
                source_modified: self.source_modified,
            }),
    {
        SetBreakpointsRequestArguments {
            source: self.source.unwrap(),
            breakpoints: self.breakpoints,
            lines: self.lines,
            source_modified: self.source_modified,
        }
    }
}

impl From<SetBreakpointsRequestArguments> for Request {
    fn from(args: SetBreakpointsRequestArguments) -> (r: Request) {
        Request::SetBreakpoints(args)
    }
}

impl vstd::std_specs::convert::FromSpecImpl<SetBreakpointsRequestArguments> for Request {
    open spec fn obeys_from_spec() -> bool {
        true
    }

    open spec fn from_spec(args: SetBreakpointsRequestArguments) -> Request {
        Request::SetBreakpoints(args)
    }
}

impl From<SetBreakpointsRequestArguments> for ProtocolMessageContent {
    fn from(args: SetBreakpointsRequestArguments) -> (r: ProtocolMessageContent) {
        ProtocolMessageContent::Request(Request::SetBreakpoints(args))
    }
}

impl vstd::std_specs::convert::FromSpecImpl<SetBreakpointsRequestArguments> for ProtocolMessageContent {
    open spec fn obeys_from_spec() -> bool {
        true
    }

    open spec fn from_spec(args: SetBreakpointsRequestArguments) -> ProtocolMessageContent {
        ProtocolMessageContent::Request(Request::SetBreakpoints(args))
    }
}

#[derive(Clone, Debug, PartialEq, Eq)]
pub struct SetDataBreakpointsRequestArguments {
    /// The contents of this array replaces all existing data breakpoints. An empty array clears all data breakpoints.
    pub breakpoints: Vec<DataBreakpoint>,
}

/// The mathematical content of a [`SetDataBreakpointsRequestArguments`].
pub struct SetDataBreakpointsRequestArgumentsView {
    pub breakpoints: Seq<DataBreakpointView>,
}

impl View for SetDataBreakpointsRequestArguments {
    type V = SetDataBreakpointsRequestArgumentsView;

    open spec fn view(&self) -> SetDataBreakpointsRequestArgumentsView {
        SetDataBreakpointsRequestArgumentsView {
            breakpoints: self.breakpoints.model(),
        }
    }
}

impl SetDataBreakpointsRequestArguments {
    /// The fields that are written for a value.
    pub open spec fn fields(m: SetDataBreakpointsRequestArgumentsView) -> JsonObject {
        let o = empty_object();
        let o = with_field::<Vec<DataBreakpoint>>(o, "breakpoints"@, m.breakpoints);
        o
    }

    /// What the fields of an object decode to: the first failure in the order of
    /// the fields, or the value.
    pub open spec fn decode_fields(o: JsonObject) -> Result<SetDataBreakpointsRequestArgumentsView, DecodeErrorView> {
        let breakpoints = req_field::<Vec<DataBreakpoint>>(o, "breakpoints"@);
        if breakpoints is Err {
            Err(breakpoints->Err_0)
        } else {
            Ok(SetDataBreakpointsRequestArgumentsView {
                breakpoints: breakpoints->Ok_0,
            })
        }
    }

    /// Writes the fields of the value into a fresh object.
    pub fn to_object(&self) -> (o: serde_json::Map<String, serde_json::Value>)
        ensures
            object_model(o) == SetDataBreakpointsRequestArguments::fields(self@),
    {
        let mut o = object_new();
        put::<Vec<DataBreakpoint>>(&mut o, "breakpoints", &self.breakpoints);
        o
    }

    /// Reads a value from the fields of an object.
    pub fn from_object(o: &serde_json::Map<String, serde_json::Value>) -> (r: Result<
        SetDataBreakpointsRequestArguments,
        DecodeError,
    >)
        ensures
            match r {
                Ok(x) => SetDataBreakpointsRequestArguments::decode_fields(object_model(*o)) matches Ok(m) && m == x.model(),
                Err(e) => SetDataBreakpointsRequestArguments::decode_fields(object_model(*o)) matches Err(f) && f == e@,
            },
    {
        let breakpoints = get_req::<Vec<DataBreakpoint>>(o, "breakpoints")?;
        Ok(SetDataBreakpointsRequestArguments { breakpoints })
    }
}

impl Wire for SetDataBreakpointsRequestArguments {
    type Model = SetDataBreakpointsRequestArgumentsView;

    open spec fn model(&self) -> SetDataBreakpointsRequestArgumentsView {
        self@
    }

    open spec fn wire_ok(m: SetDataBreakpointsRequestArgumentsView) -> bool {
        true
    }

    open spec fn encode_json(m: SetDataBreakpointsRequestArgumentsView) -> Json {
        Json::Object(SetDataBreakpointsRequestArguments::fields(m))
    }

    open spec fn decode_json(j: Json) -> Result<SetDataBreakpointsRequestArgumentsView, DecodeErrorView> {
        match j {
            Json::Object(o) => SetDataBreakpointsRequestArguments::decode_fields(o),
            _ => Err(DecodeErrorView::InvalidType),
        }
    }

    fn to_value(&self) -> (r: serde_json::Value) {
        value_object(self.to_object())
    }

    fn from_value(v: &serde_json::Value) -> (r: Result<SetDataBreakpointsRequestArguments, DecodeError>) {
        match value_as_object(v) {
            Some(o) => SetDataBreakpointsRequestArguments::from_object(o),
            None => Err(DecodeError::InvalidType),
        }
    }

    proof fn lemma_round_trip(m: SetDataBreakpointsRequestArgumentsView) {
        broadcast use group_field_rules;

        reveal(req_field);
        reveal_strlit("breakpoints");
        assert("breakpoints"@.len() == 11);
        let o = SetDataBreakpointsRequestArguments::fields(m);
        Vec::<DataBreakpoint>::lemma_round_trip(m.breakpoints);
        assert(req_field::<Vec<DataBreakpoint>>(o, "breakpoints"@) matches Ok(v) && v == m.breakpoints);
    }
}

impl Record for SetDataBreakpointsRequestArguments {
    open spec fn field_names() -> Set<Seq<char>> {
        set!["breakpoints"@]
    }

    proof fn lemma_unknown_field(o: JsonObject, key: Seq<char>, x: Json) {
        broadcast use group_field_rules;

        reveal(req_field);
    }
}

/// Gathers the fields of a [`SetDataBreakpointsRequestArguments`] one by one.
///
/// A field without a default has to be set before the value is built.
pub struct SetDataBreakpointsRequestArgumentsBuilder {
    pub breakpoints: Option<Vec<DataBreakpoint>>,
}

impl SetDataBreakpointsRequestArguments {
    /// A builder in which every field with a default holds its default.
    pub fn builder() -> (r: SetDataBreakpointsRequestArgumentsBuilder)
        ensures
            r.breakpoints is None,
    {
        SetDataBreakpointsRequestArgumentsBuilder {
            breakpoints: None,
        }
    }
}

impl SetDataBreakpointsRequestArgumentsBuilder {
    /// Sets `breakpoints`.
    pub fn breakpoints(self, value: Vec<DataBreakpoint>) -> (r: SetDataBreakpointsRequestArgumentsBuilder)
        ensures
            r == (SetDataBreakpointsRequestArgumentsBuilder { breakpoints: Some(value), ..self }),
    {
        SetDataBreakpointsRequestArgumentsBuilder { breakpoints: Some(value), ..self }
    }

    /// Whether every field without a default has been set.
    pub open spec fn complete(self) -> bool {
        &&& self.breakpoints is Some
    }

    /// The value with the fields as they were set.
    pub fn build(self) -> (r: SetDataBreakpointsRequestArguments)
        requires
            self.complete(),
        ensures
            r == (SetDataBreakpointsRequestArguments {
                breakpoints: self.breakpoints->Some_0,
            }),
    {
        SetDataBreakpointsRequestArguments {
            breakpoints: self.breakpoints.unwrap(),
        }
    }
}

impl From<SetDataBreakpointsRequestArguments> for Request {
    fn from(args: SetDataBreakpointsRequestArguments) -> (r: Request) {
        Request::SetDataBreakpoints(args)
    }
}

impl vstd::std_specs::convert::FromSpecImpl<SetDataBreakpointsRequestArguments> for Request {
    open spec fn obeys_from_spec() -> bool {
        true
    }

    open spec fn from_spec(args: SetDataBreakpointsRequestArguments) -> Request {
        Request::SetDataBreakpoints(args)
    }
}

impl From<SetDataBreakpointsRequestArguments> for ProtocolMessageContent {
    fn from(args: SetDataBreakpointsRequestArguments) -> (r: ProtocolMessageContent) {
        ProtocolMessageContent::Request(Request::SetDataBreakpoints(args))
    }
}

impl vstd::std_specs::convert::FromSpecImpl<SetDataBreakpointsRequestArguments> for ProtocolMessageContent {
    open spec fn obeys_from_spec() -> bool {
        true
    }

    open spec fn from_spec(args: SetDataBreakpointsRequestArguments) -> ProtocolMessageContent {
        ProtocolMessageContent::Request(Request::SetDataBreakpoints(args))
    }
}

#[derive(Clone, Debug, PartialEq, Eq)]
pub struct SetExceptionBreakpointsRequestArguments {
    /// Set of exception filters specified by their ID. The set of all possible exception filters is defined by the 'exceptionBreakpointFilters' capability. The 'filter' and 'filterOptions' sets are additive.
    pub filters: Vec<String>,

    /// Set of exception filters and their options. The set of all possible exception filters is defined by the 'exceptionBreakpointFilters' capability. This attribute is only honored by a debug adapter if the capability 'supportsExceptionFilterOptions' is true. The 'filter' and 'filterOptions' sets are additive.
    pub filter_options: Vec<ExceptionFilterOptions>,

    /// Configuration options for selected exceptions.
    ///
    /// The attribute is only honored by a debug adapter if the capability 'supportsExceptionOptions' is true.
    pub exception_options: Vec<ExceptionOptions>,
}

/// The mathematical content of a [`SetExceptionBreakpointsRequestArguments`].
pub struct SetExceptionBreakpointsRequestArgumentsView {
    pub filters: Seq<Seq<char>>,
    pub filter_options: Seq<ExceptionFilterOptionsView>,
    pub exception_options: Seq<ExceptionOptionsView>,
}

impl View for SetExceptionBreakpointsRequestArguments {
    type V = SetExceptionBreakpointsRequestArgumentsView;

    open spec fn view(&self) -> SetExceptionBreakpointsRequestArgumentsView {
        SetExceptionBreakpointsRequestArgumentsView {
            filters: self.filters.model(),
            filter_options: self.filter_options.model(),
            exception_options: self.exception_options.model(),
        }
    }
}

impl SetExceptionBreakpointsRequestArguments {
    /// The fields that are written for a value.
    pub open spec fn fields(m: SetExceptionBreakpointsRequestArgumentsView) -> JsonObject {
        let o = empty_object();
        let o = with_field::<Vec<String>>(o, "filters"@, m.filters);
        let o = with_nondefault_field::<Vec<ExceptionFilterOptions>>(o, "filterOptions"@, m.filter_options, Seq::empty());
        let o = with_nondefault_field::<Vec<ExceptionOptions>>(o, "exceptionOptions"@, m.exception_options, Seq::empty());
        o
    }

    /// What the fields of an object decode to: the first failure in the order of
    /// the fields, or the value.
    pub open spec fn decode_fields(o: JsonObject) -> Result<SetExceptionBreakpointsRequestArgumentsView, DecodeErrorView> {
        let filters = req_field::<Vec<String>>(o, "filters"@);
        let filter_options = default_field::<Vec<ExceptionFilterOptions>>(o, "filterOptions"@, Seq::empty());
        let exception_options = default_field::<Vec<ExceptionOptions>>(o, "exceptionOptions"@, Seq::empty());
        if filters is Err {
            Err(filters->Err_0)
        } else if filter_options is Err {
            Err(filter_options->Err_0)
        } else if exception_options is Err {
            Err(exception_options->Err_0)
        } else {
            Ok(SetExceptionBreakpointsRequestArgumentsView {
                filters: filters->Ok_0,
                filter_options: filter_options->Ok_0,
                exception_options: exception_options->Ok_0,
            })
        }
    }

    /// Writes the fields of the value into a fresh object.
    pub fn to_object(&self) -> (o: serde_json::Map<String, serde_json::Value>)
        ensures
            object_model(o) == SetExceptionBreakpointsRequestArguments::fields(self@),
    {
        let mut o = object_new();
        put::<Vec<String>>(&mut o, "filters", &self.filters);
        put_nonempty::<ExceptionFilterOptions>(&mut o, "filterOptions", &self.filter_options);
        put_nonempty::<ExceptionOptions>(&mut o, "exceptionOptions", &self.exception_options);
        o
    }

    /// Reads a value from the fields of an object.
    pub fn from_object(o: &serde_json::Map<String, serde_json::Value>) -> (r: Result<
        SetExceptionBreakpointsRequestArguments,
        DecodeError,
    >)
        ensures
            match r {
                Ok(x) => SetExceptionBreakpointsRequestArguments::decode_fields(object_model(*o)) matches Ok(m) && m == x.model(),
                Err(e) => SetExceptionBreakpointsRequestArguments::decode_fields(object_model(*o)) matches Err(f) && f == e@,
            },
    {
        let filters = get_req::<Vec<String>>(o, "filters")?;
        let filter_options = get_or_empty::<ExceptionFilterOptions>(o, "filterOptions")?;
        let exception_options = get_or_empty::<ExceptionOptions>(o, "exceptionOptions")?;
        Ok(SetExceptionBreakpointsRequestArguments { filters, filter_options, exception_options })
    }
}

impl Wire for SetExceptionBreakpointsRequestArguments {
    type Model = SetExceptionBreakpointsRequestArgumentsView;

    open spec fn model(&self) -> SetExceptionBreakpointsRequestArgumentsView {
        self@
    }

    open spec fn wire_ok(m: SetExceptionBreakpointsRequestArgumentsView) -> bool {
        true
    }

    open spec fn encode_json(m: SetExceptionBreakpointsRequestArgumentsView) -> Json {
        Json::Object(SetExceptionBreakpointsRequestArguments::fields(m))
    }

    open spec fn decode_json(j: Json) -> Result<SetExceptionBreakpointsRequestArgumentsView, DecodeErrorView> {
        match j {
            Json::Object(o) => SetExceptionBreakpointsRequestArguments::decode_fields(o),
            _ => Err(DecodeErrorView::InvalidType),
        }
    }

    fn to_value(&self) -> (r: serde_json::Value) {
        value_object(self.to_object())
    }

    fn from_value(v: &serde_json::Value) -> (r: Result<SetExceptionBreakpointsRequestArguments, DecodeError>) {
        match value_as_object(v) {
            Some(o) => SetExceptionBreakpointsRequestArguments::from_object(o),
            None => Err(DecodeError::InvalidType),
        }
    }

    proof fn lemma_round_trip(m: SetExceptionBreakpointsRequestArgumentsView) {
        broadcast use group_field_rules;

        reveal(default_field);
        reveal(req_field);
        reveal_strlit("filters");
        reveal_strlit("filterOptions");
        reveal_strlit("exceptionOptions");
        assert("filters"@.len() == 7);
        assert("filterOptions"@.len() == 13);
        assert("exceptionOptions"@.len() == 16);
        let o = SetExceptionBreakpointsRequestArguments::fields(m);
        Vec::<String>::lemma_round_trip(m.filters);
        assert(req_field::<Vec<String>>(o, "filters"@) matches Ok(v) && v == m.filters);
        Vec::<ExceptionFilterOptions>::lemma_round_trip(m.filter_options);
        assert(default_field::<Vec<ExceptionFilterOptions>>(o, "filterOptions"@, Seq::empty()) matches Ok(v) && v == m.filter_options);
        Vec::<ExceptionOptions>::lemma_round_trip(m.exception_options);
        assert(default_field::<Vec<ExceptionOptions>>(o, "exceptionOptions"@, Seq::empty()) matches Ok(v) && v == m.exception_options);
    }
}

impl Record for SetExceptionBreakpointsRequestArguments {
    open spec fn field_names() -> Set<Seq<char>> {
        set!["filters"@, "filterOptions"@, "exceptionOptions"@]
    }

    proof fn lemma_unknown_field(o: JsonObject, key: Seq<char>, x: Json) {
        broadcast use group_field_rules;

        reveal(default_field);
        reveal(req_field);
    }
}

impl Defaults for SetExceptionBreakpointsRequestArguments {
    open spec fn elidable_names() -> Set<Seq<char>> {
        set!["filterOptions"@, "exceptionOptions"@]
    }

    open spec fn at_defaults(m: SetExceptionBreakpointsRequestArgumentsView) -> bool {
        &&& m.filter_options == Seq::<ExceptionFilterOptionsView>::empty()
        &&& m.exception_options == Seq::<ExceptionOptionsView>::empty()
    }

    proof fn lemma_defaults_elided(m: SetExceptionBreakpointsRequestArgumentsView, key: Seq<char>) {
        broadcast use group_field_rules;

        reveal_strlit("filters");
        reveal_strlit("filterOptions");
        reveal_strlit("exceptionOptions");
        assert("filters"@.len() == 7);
        assert("filterOptions"@.len() == 13);
        assert("exceptionOptions"@.len() == 16);
    }
}

/// Gathers the fields of a [`SetExceptionBreakpointsRequestArguments`] one by one.
///
/// A field without a default has to be set before the value is built.
pub struct SetExceptionBreakpointsRequestArgumentsBuilder {
    pub filters: Option<Vec<String>>,
    pub filter_options: Vec<ExceptionFilterOptions>,
    pub exception_options: Vec<ExceptionOptions>,
}

impl SetExceptionBreakpointsRequestArguments {
    /// A builder in which every field with a default holds its default.
    pub fn builder() -> (r: SetExceptionBreakpointsRequestArgumentsBuilder)
        ensures
            r.filters is None,
            r.filter_options@.len() == 0,
            r.exception_options@.len() == 0,
    {
        SetExceptionBreakpointsRequestArgumentsBuilder {
            filters: None,
            filter_options: Vec::new(),
            exception_options: Vec::new(),
        }
    }
}

impl SetExceptionBreakpointsRequestArgumentsBuilder {
    /// Sets `filters`.
    pub fn filters(self, value: Vec<String>) -> (r: SetExceptionBreakpointsRequestArgumentsBuilder)
        ensures
            r == (SetExceptionBreakpointsRequestArgumentsBuilder { filters: Some(value), ..self }),
    {
        SetExceptionBreakpointsRequestArgumentsBuilder { filters: Some(value), ..self }
    }

    /// Sets `filter_options`.
    pub fn filter_options(self, value: Vec<ExceptionFilterOptions>) -> (r: SetExceptionBreakpointsRequestArgumentsBuilder)
        ensures
            r == (SetExceptionBreakpointsRequestArgumentsBuilder { filter_options: value, ..self }),
    {
        SetExceptionBreakpointsRequestArgumentsBuilder { filter_options: value, ..self }
    }

    /// Sets `exception_options`.
    pub fn exception_options(self, value: Vec<ExceptionOptions>) -> (r: SetExceptionBreakpointsRequestArgumentsBuilder)
        ensures
            r == (SetExceptionBreakpointsRequestArgumentsBuilder { exception_options: value, ..self }),
    {
        SetExceptionBreakpointsRequestArgumentsBuilder { exception_options: value, ..self }
    }

    /// Whether every field without a default has been set.
    pub open spec fn complete(self) -> bool {
        &&& self.filters is Some
    }

    /// The value with the fields as they were set.
    pub fn build(self) -> (r: SetExceptionBreakpointsRequestArguments)
        requires
            self.complete(),
        ensures
            r == (SetExceptionBreakpointsRequestArguments {
                filters: self.filters->Some_0,
                filter_options: self.filter_options,
                exception_options: self.exception_options,
            }),
    {
        SetExceptionBreakpointsRequestArguments {
            filters: self.filters.unwrap(),
            filter_options: self.filter_options,
            exception_options: self.exception_options,
        }
    }
}

impl From<SetExceptionBreakpointsRequestArguments> for Request {
    fn from(args: SetExceptionBreakpointsRequestArguments) -> (r: Request) {
        Request::SetExceptionBreakpoints(args)
    }
}

impl vstd::std_specs::convert::FromSpecImpl<SetExceptionBreakpointsRequestArguments> for Request {
    open spec fn obeys_from_spec() -> bool {
        true
    }

    open spec fn from_spec(args: SetExceptionBreakpointsRequestArguments) -> Request {
        Request::SetExceptionBreakpoints(args)
    }
}

impl From<SetExceptionBreakpointsRequestArguments> for ProtocolMessageContent {
    fn from(args: SetExceptionBreakpointsRequestArguments) -> (r: ProtocolMessageContent) {
        ProtocolMessageContent::Request(Request::SetExceptionBreakpoints(args))
    }
}

impl vstd::std_specs::convert::FromSpecImpl<SetExceptionBreakpointsRequestArguments> for ProtocolMessageContent {
    open spec fn obeys_from_spec() -> bool {
        true
    }

    open spec fn from_spec(args: SetExceptionBreakpointsRequestArguments) -> ProtocolMessageContent {
        ProtocolMessageContent::Request(Request::SetExceptionBreakpoints(args))
    }
}

#[derive(Clone, Debug, PartialEq, Eq)]
pub struct SetExpressionRequestArguments {
    /// The l-value expression to assign to.
    pub expression: String,

    /// The value expression to assign to the l-value expression.
    pub value: String,

    /// Evaluate the expressions in the scope of this stack frame. If not specified, the expressions are evaluated in the global scope.
    pub frame_id: Option<i32>,

    /// Specifies how the resulting value should be formatted.
    pub format: Option<ValueFormat>,
}

/// The mathematical content of a [`SetExpressionRequestArguments`].
pub struct SetExpressionRequestArgumentsView {
    pub expression: Seq<char>,
    pub value: Seq<char>,
    pub frame_id: Option<i32>,
    pub format: Option<ValueFormat>,
}

impl View for SetExpressionRequestArguments {
    type V = SetExpressionRequestArgumentsView;

    open spec fn view(&self) -> SetExpressionRequestArgumentsView {
        SetExpressionRequestArgumentsView {
            expression: self.expression.model(),
            value: self.value.model(),
            frame_id: self.frame_id.model(),
            format: self.format.model(),
        }
    }
}

impl SetExpressionRequestArguments {
    /// The fields that are written for a value.
    pub open spec fn fields(m: SetExpressionRequestArgumentsView) -> JsonObject {
        let o = empty_object();
        let o = with_field::<String>(o, "expression"@, m.expression);
        let o = with_field::<String>(o, "value"@, m.value);
        let o = with_opt_field::<i32>(o, "frameId"@, m.frame_id);
        let o = with_opt_field::<ValueFormat>(o, "format"@, m.format);
        o
    }

    /// What the fields of an object decode to: the first failure in the order of
    /// the fields, or the value.
    pub open spec fn decode_fields(o: JsonObject) -> Result<SetExpressionRequestArgumentsView, DecodeErrorView> {
        let expression = req_field::<String>(o, "expression"@);
        let value = req_field::<String>(o, "value"@);
        let frame_id = opt_field::<i32>(o, "frameId"@);
        let format = opt_field::<ValueFormat>(o, "format"@);
        if expression is Err {
            Err(expression->Err_0)
        } else if value is Err {
            Err(value->Err_0)
        } else if frame_id is Err {
            Err(frame_id->Err_0)
        } else if format is Err {
            Err(format->Err_0)
        } else {
            Ok(SetExpressionRequestArgumentsView {
                expression: expression->Ok_0,
                value: value->Ok_0,
                frame_id: frame_id->Ok_0,
                format: format->Ok_0,
            })
        }
    }

    /// Writes the fields of the value into a fresh object.
    pub fn to_object(&self) -> (o: serde_json::Map<String, serde_json::Value>)
        ensures
            object_model(o) == SetExpressionRequestArguments::fields(self@),
    {
        let mut o = object_new();
        put::<String>(&mut o, "expression", &self.expression);
        put::<String>(&mut o, "value", &self.value);
        put_opt::<i32>(&mut o, "frameId", &self.frame_id);
        put_opt::<ValueFormat>(&mut o, "format", &self.format);
        o
    }

    /// Reads a value from the fields of an object.
    pub fn from_object(o: &serde_json::Map<String, serde_json::Value>) -> (r: Result<
        SetExpressionRequestArguments,
        DecodeError,
    >)
        ensures
            match r {
                Ok(x) => SetExpressionRequestArguments::decode_fields(object_model(*o)) matches Ok(m) && m == x.model(),
                Err(e) => SetExpressionRequestArguments::decode_fields(object_model(*o)) matches Err(f) && f == e@,
            },
    {
        let expression = get_req::<String>(o, "expression")?;
        let value = get_req::<String>(o, "value")?;
        let frame_id = get_opt::<i32>(o, "frameId")?;
        let format = get_opt::<ValueFormat>(o, "format")?;
        Ok(SetExpressionRequestArguments { expression, value, frame_id, format })
    }
}

impl Wire for SetExpressionRequestArguments {
    type Model = SetExpressionRequestArgumentsView;

    open spec fn model(&self) -> SetExpressionRequestArgumentsView {
        self@
    }

    open spec fn wire_ok(m: SetExpressionRequestArgumentsView) -> bool {
        true
    }

    open spec fn encode_json(m: SetExpressionRequestArgumentsView) -> Json {
        Json::Object(SetExpressionRequestArguments::fields(m))
    }

    open spec fn decode_json(j: Json) -> Result<SetExpressionRequestArgumentsView, DecodeErrorView> {
        match j {
            Json::Object(o) => SetExpressionRequestArguments::decode_fields(o),
            _ => Err(DecodeErrorView::InvalidType),
        }
    }

    fn to_value(&self) -> (r: serde_json::Value) {
        value_object(self.to_object())
    }

    fn from_value(v: &serde_json::Value) -> (r: Result<SetExpressionRequestArguments, DecodeError>) {
        match value_as_object(v) {
            Some(o) => SetExpressionRequestArguments::from_object(o),
            None => Err(DecodeError::InvalidType),
        }
    }

    proof fn lemma_round_trip(m: SetExpressionRequestArgumentsView) {
        broadcast use group_field_rules;

        reveal(opt_field);
        reveal(req_field);
        reveal_strlit("expression");
        reveal_strlit("value");
        reveal_strlit("frameId");
        reveal_strlit("format");
        assert("expression"@.len() == 10);
        assert("value"@.len() == 5);
        assert("frameId"@.len() == 7);
        assert("format"@.len() == 6);
        let o = SetExpressionRequestArguments::fields(m);
        String::lemma_round_trip(m.expression);
        assert(req_field::<String>(o, "expression"@) matches Ok(v) && v == m.expression);
        String::lemma_round_trip(m.value);
        assert(req_field::<String>(o, "value"@) matches Ok(v) && v == m.value);
        Option::<i32>::lemma_round_trip(m.frame_id);
        assert(opt_field::<i32>(o, "frameId"@) matches Ok(v) && v == m.frame_id);
        Option::<ValueFormat>::lemma_round_trip(m.format);
        assert(opt_field::<ValueFormat>(o, "format"@) matches Ok(v) && v == m.format);
    }
}

impl Record for SetExpressionRequestArguments {
    open spec fn field_names() -> Set<Seq<char>> {
        set!["expression"@, "value"@, "frameId"@, "format"@]
    }

    proof fn lemma_unknown_field(o: JsonObject, key: Seq<char>, x: Json) {
        broadcast use group_field_rules;

        reveal(opt_field);
        reveal(req_field);
    }
}

impl Defaults for SetExpressionRequestArguments {
    open spec fn elidable_names() -> Set<Seq<char>> {
        set!["frameId"@, "format"@]
    }

    open spec fn at_defaults(m: SetExpressionRequestArgumentsView) -> bool {
        &&& m.frame_id is None
        &&& m.format is None
    }

    proof fn lemma_defaults_elided(m: SetExpressionRequestArgumentsView, key: Seq<char>) {
        broadcast use group_field_rules;

        reveal_strlit("expression");
        reveal_strlit("value");
        reveal_strlit("frameId");
        reveal_strlit("format");
        assert("expression"@.len() == 10);
        assert("value"@.len() == 5);
        assert("frameId"@.len() == 7);
        assert("format"@.len() == 6);
    }
}

/// Gathers the fields of a [`SetExpressionRequestArguments`] one by one.
///
/// A field without a default has to be set before the value is built.
pub struct SetExpressionRequestArgumentsBuilder {
    pub expression: Option<String>,
    pub value: Option<String>,
    pub frame_id: Option<i32>,
    pub format: Option<ValueFormat>,
}

impl SetExpressionRequestArguments {
    /// A builder in which every field with a default holds its default.
    pub fn builder() -> (r: SetExpressionRequestArgumentsBuilder)
        ensures
            r.expression is None,
            r.value is None,
            r.frame_id is None,
            r.format is None,
    {
        SetExpressionRequestArgumentsBuilder {
            expression: None,
            value: None,
            frame_id: None,
            format: None,
        }
    }
}

impl SetExpressionRequestArgumentsBuilder {
    /// Sets `expression`.
    pub fn expression(self, value: String) -> (r: SetExpressionRequestArgumentsBuilder)
        ensures
            r == (SetExpressionRequestArgumentsBuilder { expression: Some(value), ..self }),
    {
        SetExpressionRequestArgumentsBuilder { expression: Some(value), ..self }
    }

    /// Sets `value`.
    pub fn value(self, value: String) -> (r: SetExpressionRequestArgumentsBuilder)
        ensures
            r == (SetExpressionRequestArgumentsBuilder { value: Some(value), ..self }),
    {
        SetExpressionRequestArgumentsBuilder { value: Some(value), ..self }
    }

    /// Sets `frame_id`.
    pub fn frame_id(self, value: Option<i32>) -> (r: SetExpressionRequestArgumentsBuilder)
        ensures
            r == (SetExpressionRequestArgumentsBuilder { frame_id: value, ..self }),
    {
        SetExpressionRequestArgumentsBuilder { frame_id: value, ..self }
    }

    /// Sets `format`.
    pub fn format(self, value: Option<ValueFormat>) -> (r: SetExpressionRequestArgumentsBuilder)
        ensures
            r == (SetExpressionRequestArgumentsBuilder { format: value, ..self }),
    {
        SetExpressionRequestArgumentsBuilder { format: value, ..self }
    }

    /// Whether every field without a default has been set.
    pub open spec fn complete(self) -> bool {
        &&& self.expression is Some
        &&& self.value is Some
    }

    /// The value with the fields as they were set.
    pub fn build(self) -> (r: SetExpressionRequestArguments)
        requires
            self.complete(),
        ensures
            r == (SetExpressionRequestArguments {
                expression: self.expression->Some_0,
                value: self.value->Some_0,
                frame_id: self.frame_id,
                format: self.format,
            }),
    {
        SetExpressionRequestArguments {
            expression: self.expression.unwrap(),
            value: self.value.unwrap(),
            frame_id: self.frame_id,
            format: self.format,
        }
    }
}

impl From<SetExpressionRequestArguments> for Request {
    fn from(args: SetExpressionRequestArguments) -> (r: Request) {
        Request::SetExpression(args)
    }
}

impl vstd::std_specs::convert::FromSpecImpl<SetExpressionRequestArguments> for Request {
    open spec fn obeys_from_spec() -> bool {
        true
    }

    open spec fn from_spec(args: SetExpressionRequestArguments) -> Request {
        Request::SetExpression(args)
    }
}

impl From<SetExpressionRequestArguments> for ProtocolMessageContent {
    fn from(args: SetExpressionRequestArguments) -> (r: ProtocolMessageContent) {
        ProtocolMessageContent::Request(Request::SetExpression(args))
    }
}

impl vstd::std_specs::convert::FromSpecImpl<SetExpressionRequestArguments> for ProtocolMessageContent {
    open spec fn obeys_from_spec() -> bool {
        true
    }

    open spec fn from_spec(args: SetExpressionRequestArguments) -> ProtocolMessageContent {
        ProtocolMessageContent::Request(Request::SetExpression(args))
    }
}

#[derive(Clone, Debug, PartialEq, Eq)]
pub struct SetFunctionBreakpointsRequestArguments {
    /// The function names of the breakpoints.
    pub breakpoints: Vec<FunctionBreakpoint>,
}

/// The mathematical content of a [`SetFunctionBreakpointsRequestArguments`].
pub struct SetFunctionBreakpointsRequestArgumentsView {
    pub breakpoints: Seq<FunctionBreakpointView>,
}

impl View for SetFunctionBreakpointsRequestArguments {
    type V = SetFunctionBreakpointsRequestArgumentsView;

    open spec fn view(&self) -> SetFunctionBreakpointsRequestArgumentsView {
        SetFunctionBreakpointsRequestArgumentsView {
            breakpoints: self.breakpoints.model(),
        }
    }
}

impl SetFunctionBreakpointsRequestArguments {
    /// The fields that are written for a value.
    pub open spec fn fields(m: SetFunctionBreakpointsRequestArgumentsView) -> JsonObject {
        let o = empty_object();
        let o = with_field::<Vec<FunctionBreakpoint>>(o, "breakpoints"@, m.breakpoints);
        o
    }

    /// What the fields of an object decode to: the first failure in the order of
    /// the fields, or the value.
    pub open spec fn decode_fields(o: JsonObject) -> Result<SetFunctionBreakpointsRequestArgumentsView, DecodeErrorView> {
        let breakpoints = req_field::<Vec<FunctionBreakpoint>>(o, "breakpoints"@);
        if breakpoints is Err {
            Err(breakpoints->Err_0)
        } else {
            Ok(SetFunctionBreakpointsRequestArgumentsView {
                breakpoints: breakpoints->Ok_0,
            })
        }
    }

    /// Writes the fields of the value into a fresh object.
    pub fn to_object(&self) -> (o: serde_json::Map<String, serde_json::Value>)
        ensures
            object_model(o) == SetFunctionBreakpointsRequestArguments::fields(self@),
    {
        let mut o = object_new();
        put::<Vec<FunctionBreakpoint>>(&mut o, "breakpoints", &self.breakpoints);
        o
    }

    /// Reads a value from the fields of an object.
    pub fn from_object(o: &serde_json::Map<String, serde_json::Value>) -> (r: Result<
        SetFunctionBreakpointsRequestArguments,
        DecodeError,
    >)
        ensures
            match r {
                Ok(x) => SetFunctionBreakpointsRequestArguments::decode_fields(object_model(*o)) matches Ok(m) && m == x.model(),
                Err(e) => SetFunctionBreakpointsRequestArguments::decode_fields(object_model(*o)) matches Err(f) && f == e@,
            },
    {
        let breakpoints = get_req::<Vec<FunctionBreakpoint>>(o, "breakpoints")?;
        Ok(SetFunctionBreakpointsRequestArguments { breakpoints })
    }
}

impl Wire for SetFunctionBreakpointsRequestArguments {
    type Model = SetFunctionBreakpointsRequestArgumentsView;

    open spec fn model(&self) -> SetFunctionBreakpointsRequestArgumentsView {
        self@
    }

    open spec fn wire_ok(m: SetFunctionBreakpointsRequestArgumentsView) -> bool {
        true
    }

    open spec fn encode_json(m: SetFunctionBreakpointsRequestArgumentsView) -> Json {
        Json::Object(SetFunctionBreakpointsRequestArguments::fields(m))
    }

    open spec fn decode_json(j: Json) -> Result<SetFunctionBreakpointsRequestArgumentsView, DecodeErrorView> {
        match j {
            Json::Object(o) => SetFunctionBreakpointsRequestArguments::decode_fields(o),
            _ => Err(DecodeErrorView::InvalidType),
        }
    }

    fn to_value(&self) -> (r: serde_json::Value) {
        value_object(self.to_object())
    }

    fn from_value(v: &serde_json::Value) -> (r: Result<SetFunctionBreakpointsRequestArguments, DecodeError>) {
        match value_as_object(v) {
            Some(o) => SetFunctionBreakpointsRequestArguments::from_object(o),
            None => Err(DecodeError::InvalidType),
        }
    }

    proof fn lemma_round_trip(m: SetFunctionBreakpointsRequestArgumentsView) {
        broadcast use group_field_rules;

        reveal(req_field);
        reveal_strlit("breakpoints");
        assert("breakpoints"@.len() == 11);
        let o = SetFunctionBreakpointsRequestArguments::fields(m);
        Vec::<FunctionBreakpoint>::lemma_round_trip(m.breakpoints);
        assert(req_field::<Vec<FunctionBreakpoint>>(o, "breakpoints"@) matches Ok(v) && v == m.breakpoints);
    }
}

impl Record for SetFunctionBreakpointsRequestArguments {
    open spec fn field_names() -> Set<Seq<char>> {
        set!["breakpoints"@]
    }

    proof fn lemma_unknown_field(o: JsonObject, key: Seq<char>, x: Json) {
        broadcast use group_field_rules;

        reveal(req_field);
    }
}

/// Gathers the fields of a [`SetFunctionBreakpointsRequestArguments`] one by one.
///
/// A field without a default has to be set before the value is built.
pub struct SetFunctionBreakpointsRequestArgumentsBuilder {
    pub breakpoints: Option<Vec<FunctionBreakpoint>>,
}

impl SetFunctionBreakpointsRequestArguments {
    /// A builder in which every field with a default holds its default.
    pub fn builder() -> (r: SetFunctionBreakpointsRequestArgumentsBuilder)
        ensures
            r.breakpoints is None,
    {
        SetFunctionBreakpointsRequestArgumentsBuilder {
            breakpoints: None,
        }
    }
}

impl SetFunctionBreakpointsRequestArgumentsBuilder {
    /// Sets `breakpoints`.
    pub fn breakpoints(self, value: Vec<FunctionBreakpoint>) -> (r: SetFunctionBreakpointsRequestArgumentsBuilder)
        ensures
            r == (SetFunctionBreakpointsRequestArgumentsBuilder { breakpoints: Some(value), ..self }),
    {
        SetFunctionBreakpointsRequestArgumentsBuilder { breakpoints: Some(value), ..self }
    }

    /// Whether every field without a default has been set.
    pub open spec fn complete(self) -> bool {
        &&& self.breakpoints is Some
    }

    /// The value with the fields as they were set.
    pub fn build(self) -> (r: SetFunctionBreakpointsRequestArguments)
        requires
            self.complete(),
        ensures
            r == (SetFunctionBreakpointsRequestArguments {
                breakpoints: self.breakpoints->Some_0,
            }),
    {
        SetFunctionBreakpointsRequestArguments {
            breakpoints: self.breakpoints.unwrap(),
        }
    }
}

impl From<SetFunctionBreakpointsRequestArguments> for Request {
    fn from(args: SetFunctionBreakpointsRequestArguments) -> (r: Request) {
        Request::SetFunctionBreakpoints(args)
    }
}

impl vstd::std_specs::convert::FromSpecImpl<SetFunctionBreakpointsRequestArguments> for Request {
    open spec fn obeys_from_spec() -> bool {
        true
    }

    open spec fn from_spec(args: SetFunctionBreakpointsRequestArguments) -> Request {
        Request::SetFunctionBreakpoints(args)
    }
}

impl From<SetFunctionBreakpointsRequestArguments> for ProtocolMessageContent {
    fn from(args: SetFunctionBreakpointsRequestArguments) -> (r: ProtocolMessageContent) {
        ProtocolMessageContent::Request(Request::SetFunctionBreakpoints(args))
    }
}

impl vstd::std_specs::convert::FromSpecImpl<SetFunctionBreakpointsRequestArguments> for ProtocolMessageContent {
    open spec fn obeys_from_spec() -> bool {
        true
    }

    open spec fn from_spec(args: SetFunctionBreakpointsRequestArguments) -> ProtocolMessageContent {
        ProtocolMessageContent::Request(Request::SetFunctionBreakpoints(args))
    }
}

#[derive(Clone, Debug, PartialEq, Eq)]
pub struct SetInstructionBreakpointsRequestArguments {
    /// The instruction references of the breakpoints
    pub breakpoints: Vec<InstructionBreakpoint>,
}

/// The mathematical content of a [`SetInstructionBreakpointsRequestArguments`].
pub struct SetInstructionBreakpointsRequestArgumentsView {
    pub breakpoints: Seq<InstructionBreakpointView>,
}

impl View for SetInstructionBreakpointsRequestArguments {
    type V = SetInstructionBreakpointsRequestArgumentsView;

    open spec fn view(&self) -> SetInstructionBreakpointsRequestArgumentsView {
        SetInstructionBreakpointsRequestArgumentsView {
            breakpoints: self.breakpoints.model(),
        }
    }
}

impl SetInstructionBreakpointsRequestArguments {
    /// The fields that are written for a value.
    pub open spec fn fields(m: SetInstructionBreakpointsRequestArgumentsView) -> JsonObject {
        let o = empty_object();
        let o = with_field::<Vec<InstructionBreakpoint>>(o, "breakpoints"@, m.breakpoints);
        o
    }

    /// What the fields of an object decode to: the first failure in the order of
    /// the fields, or the value.
    pub open spec fn decode_fields(o: JsonObject) -> Result<SetInstructionBreakpointsRequestArgumentsView, DecodeErrorView> {
        let breakpoints = req_field::<Vec<InstructionBreakpoint>>(o, "breakpoints"@);
        if breakpoints is Err {
            Err(breakpoints->Err_0)
        } else {
            Ok(SetInstructionBreakpointsRequestArgumentsView {
                breakpoints: breakpoints->Ok_0,
            })
        }
    }

    /// Writes the fields of the value into a fresh object.
    pub fn to_object(&self) -> (o: serde_json::Map<String, serde_json::Value>)
        ensures
            object_model(o) == SetInstructionBreakpointsRequestArguments::fields(self@),
    {
        let mut o = object_new();
        put::<Vec<InstructionBreakpoint>>(&mut o, "breakpoints", &self.breakpoints);
        o
    }

    /// Reads a value from the fields of an object.
    pub fn from_object(o: &serde_json::Map<String, serde_json::Value>) -> (r: Result<
        SetInstructionBreakpointsRequestArguments,
        DecodeError,
    >)
        ensures
            match r {
                Ok(x) => SetInstructionBreakpointsRequestArguments::decode_fields(object_model(*o)) matches Ok(m) && m == x.model(),
                Err(e) => SetInstructionBreakpointsRequestArguments::decode_fields(object_model(*o)) matches Err(f) && f == e@,
            },
    {
        let breakpoints = get_req::<Vec<InstructionBreakpoint>>(o, "breakpoints")?;
        Ok(SetInstructionBreakpointsRequestArguments { breakpoints })
    }
}

impl Wire for SetInstructionBreakpointsRequestArguments {
    type Model = SetInstructionBreakpointsRequestArgumentsView;

    open spec fn model(&self) -> SetInstructionBreakpointsRequestArgumentsView {
        self@
    }

    open spec fn wire_ok(m: SetInstructionBreakpointsRequestArgumentsView) -> bool {
        true
    }

    open spec fn encode_json(m: SetInstructionBreakpointsRequestArgumentsView) -> Json {
        Json::Object(SetInstructionBreakpointsRequestArguments::fields(m))
    }

    open spec fn decode_json(j: Json) -> Result<SetInstructionBreakpointsRequestArgumentsView, DecodeErrorView> {
        match j {
            Json::Object(o) => SetInstructionBreakpointsRequestArguments::decode_fields(o),
            _ => Err(DecodeErrorView::InvalidType),
        }
    }

    fn to_value(&self) -> (r: serde_json::Value) {
        value_object(self.to_object())
    }

    fn from_value(v: &serde_json::Value) -> (r: Result<SetInstructionBreakpointsRequestArguments, DecodeError>) {
        match value_as_object(v) {
            Some(o) => SetInstructionBreakpointsRequestArguments::from_object(o),
            None => Err(DecodeError::InvalidType),
        }
    }

    proof fn lemma_round_trip(m: SetInstructionBreakpointsRequestArgumentsView) {
        broadcast use group_field_rules;

        reveal(req_field);
        reveal_strlit("breakpoints");
        assert("breakpoints"@.len() == 11);
        let o = SetInstructionBreakpointsRequestArguments::fields(m);
        Vec::<InstructionBreakpoint>::lemma_round_trip(m.breakpoints);
        assert(req_field::<Vec<InstructionBreakpoint>>(o, "breakpoints"@) matches Ok(v) && v == m.breakpoints);
    }
}

impl Record for SetInstructionBreakpointsRequestArguments {
    open spec fn field_names() -> Set<Seq<char>> {
        set!["breakpoints"@]
    }

    proof fn lemma_unknown_field(o: JsonObject, key: Seq<char>, x: Json) {
        broadcast use group_field_rules;

        reveal(req_field);
    }
}

/// Gathers the fields of a [`SetInstructionBreakpointsRequestArguments`] one by one.
///
/// A field without a default has to be set before the value is built.
pub struct SetInstructionBreakpointsRequestArgumentsBuilder {
    pub breakpoints: Option<Vec<InstructionBreakpoint>>,
}

impl SetInstructionBreakpointsRequestArguments {
    /// A builder in which every field with a default holds its default.
    pub fn builder() -> (r: SetInstructionBreakpointsRequestArgumentsBuilder)
        ensures
            r.breakpoints is None,
    {
        SetInstructionBreakpointsRequestArgumentsBuilder {
            breakpoints: None,
        }
    }
}

impl SetInstructionBreakpointsRequestArgumentsBuilder {
    /// Sets `breakpoints`.
    pub fn breakpoints(self, value: Vec<InstructionBreakpoint>) -> (r: SetInstructionBreakpointsRequestArgumentsBuilder)
        ensures
            r == (SetInstructionBreakpointsRequestArgumentsBuilder { breakpoints: Some(value), ..self }),
    {
        SetInstructionBreakpointsRequestArgumentsBuilder { breakpoints: Some(value), ..self }
    }

    /// Whether every field without a default has been set.
    pub open spec fn complete(self) -> bool {
        &&& self.breakpoints is Some
    }

    /// The value with the fields as they were set.
    pub fn build(self) -> (r: SetInstructionBreakpointsRequestArguments)
        requires
            self.complete(),
        ensures
            r == (SetInstructionBreakpointsRequestArguments {
                breakpoints: self.breakpoints->Some_0,
            }),
    {
        SetInstructionBreakpointsRequestArguments {
            breakpoints: self.breakpoints.unwrap(),
        }
    }
}

impl From<SetInstructionBreakpointsRequestArguments> for Request {
    fn from(args: SetInstructionBreakpointsRequestArguments) -> (r: Request) {
        Request::SetInstructionBreakpoints(args)
    }
}

impl vstd::std_specs::convert::FromSpecImpl<SetInstructionBreakpointsRequestArguments> for Request {
    open spec fn obeys_from_spec() -> bool {
        true
    }

    open spec fn from_spec(args: SetInstructionBreakpointsRequestArguments) -> Request {
        Request::SetInstructionBreakpoints(args)
    }
}

impl From<SetInstructionBreakpointsRequestArguments> for ProtocolMessageContent {
    fn from(args: SetInstructionBreakpointsRequestArguments) -> (r: ProtocolMessageContent) {
        ProtocolMessageContent::Request(Request::SetInstructionBreakpoints(args))
    }
}

impl vstd::std_specs::convert::FromSpecImpl<SetInstructionBreakpointsRequestArguments> for ProtocolMessageContent {
    open spec fn obeys_from_spec() -> bool {
        true
    }

    open spec fn from_spec(args: SetInstructionBreakpointsRequestArguments) -> ProtocolMessageContent {
        ProtocolMessageContent::Request(Request::SetInstructionBreakpoints(args))
    }
}

#[derive(Clone, Debug, PartialEq, Eq)]
pub struct SetVariableRequestArguments {
    /// The reference of the variable container.
    pub variables_reference: i32,

    /// The name of the variable in the container.
    pub name: String,

    /// The value of the variable.
    pub value: String,

    /// Specifies details on how to format the response value.
    pub format: Option<ValueFormat>,
}

/// The mathematical content of a [`SetVariableRequestArguments`].
pub struct SetVariableRequestArgumentsView {
    pub variables_reference: i32,
    pub name: Seq<char>,
    pub value: Seq<char>,
    pub format: Option<ValueFormat>,
}

impl View for SetVariableRequestArguments {
    type V = SetVariableRequestArgumentsView;

    open spec fn view(&self) -> SetVariableRequestArgumentsView {
        SetVariableRequestArgumentsView {
            variables_reference: self.variables_reference,
            name: self.name.model(),
            value: self.value.model(),
            format: self.format.model(),
        }
    }
}

impl SetVariableRequestArguments {
    /// The fields that are written for a value.
    pub open spec fn fields(m: SetVariableRequestArgumentsView) -> JsonObject {
        let o = empty_object();
        let o = with_field::<i32>(o, "variablesReference"@, m.variables_reference);
        let o = with_field::<String>(o, "name"@, m.name);
        let o = with_field::<String>(o, "value"@, m.value);
        let o = with_opt_field::<ValueFormat>(o, "format"@, m.format);
        o
    }

    /// What the fields of an object decode to: the first failure in the order of
    /// the fields, or the value.
    pub open spec fn decode_fields(o: JsonObject) -> Result<SetVariableRequestArgumentsView, DecodeErrorView> {
        let variables_reference = req_field::<i32>(o, "variablesReference"@);
        let name = req_field::<String>(o, "name"@);
        let value = req_field::<String>(o, "value"@);
        let format = opt_field::<ValueFormat>(o, "format"@);
        if variables_reference is Err {
            Err(variables_reference->Err_0)
        } else if name is Err {
            Err(name->Err_0)
        } else if value is Err {
            Err(value->Err_0)
        } else if format is Err {
            Err(format->Err_0)
        } else {
            Ok(SetVariableRequestArgumentsView {
                variables_reference: variables_reference->Ok_0,
                name: name->Ok_0,
                value: value->Ok_0,
                format: format->Ok_0,
            })
        }
    }

    /// Writes the fields of the value into a fresh object.
    pub fn to_object(&self) -> (o: serde_json::Map<String, serde_json::Value>)
        ensures
            object_model(o) == SetVariableRequestArguments::fields(self@),
    {
        let mut o = object_new();
        put::<i32>(&mut o, "variablesReference", &self.variables_reference);
        put::<String>(&mut o, "name", &self.name);
        put::<String>(&mut o, "value", &self.value);
        put_opt::<ValueFormat>(&mut o, "format", &self.format);
        o
    }

    /// Reads a value from the fields of an object.
    pub fn from_object(o: &serde_json::Map<String, serde_json::Value>) -> (r: Result<
        SetVariableRequestArguments,
        DecodeError,
    >)
        ensures
            match r {
                Ok(x) => SetVariableRequestArguments::decode_fields(object_model(*o)) matches Ok(m) && m == x.model(),
                Err(e) => SetVariableRequestArguments::decode_fields(object_model(*o)) matches Err(f) && f == e@,
            },
    {
        let variables_reference = get_req::<i32>(o, "variablesReference")?;
        let name = get_req::<String>(o, "name")?;
        let value = get_req::<String>(o, "value")?;
        let format = get_opt::<ValueFormat>(o, "format")?;
        Ok(SetVariableRequestArguments { variables_reference, name, value, format })
    }
}

impl Wire for SetVariableRequestArguments {
    type Model = SetVariableRequestArgumentsView;

    open spec fn model(&self) -> SetVariableRequestArgumentsView {
        self@
    }

    open spec fn wire_ok(m: SetVariableRequestArgumentsView) -> bool {
        true
    }

    open spec fn encode_json(m: SetVariableRequestArgumentsView) -> Json {
        Json::Object(SetVariableRequestArguments::fields(m))
    }

    open spec fn decode_json(j: Json) -> Result<SetVariableRequestArgumentsView, DecodeErrorView> {
        match j {
            Json::Object(o) => SetVariableRequestArguments::decode_fields(o),
            _ => Err(DecodeErrorView::InvalidType),
        }
    }

    fn to_value(&self) -> (r: serde_json::Value) {
        value_object(self.to_object())
    }

    fn from_value(v: &serde_json::Value) -> (r: Result<SetVariableRequestArguments, DecodeError>) {
        match value_as_object(v) {
            Some(o) => SetVariableRequestArguments::from_object(o),
            None => Err(DecodeError::InvalidType),
        }
    }

    proof fn lemma_round_trip(m: SetVariableRequestArgumentsView) {
        broadcast use group_field_rules;

        reveal(opt_field);
        reveal(req_field);
        reveal_strlit("variablesReference");
        reveal_strlit("name");
        reveal_strlit("value");
        reveal_strlit("format");
        assert("variablesReference"@.len() == 18);
        assert("name"@.len() == 4);
        assert("value"@.len() == 5);
        assert("format"@.len() == 6);
        let o = SetVariableRequestArguments::fields(m);
        i32::lemma_round_trip(m.variables_reference);
        assert(req_field::<i32>(o, "variablesReference"@) matches Ok(v) && v == m.variables_reference);
        String::lemma_round_trip(m.name);
        assert(req_field::<String>(o, "name"@) matches Ok(v) && v == m.name);
        String::lemma_round_trip(m.value);
        assert(req_field::<String>(o, "value"@) matches Ok(v) && v == m.value);
        Option::<ValueFormat>::lemma_round_trip(m.format);
        assert(opt_field::<ValueFormat>(o, "format"@) matches Ok(v) && v == m.format);
    }
}

impl Record for SetVariableRequestArguments {
    open spec fn field_names() -> Set<Seq<char>> {
        set!["variablesReference"@, "name"@, "value"@, "format"@]
    }

    proof fn lemma_unknown_field(o: JsonObject, key: Seq<char>, x: Json) {
        broadcast use group_field_rules;

        reveal(opt_field);
        reveal(req_field);
    }
}

impl Defaults for SetVariableRequestArguments {
    open spec fn elidable_names() -> Set<Seq<char>> {
        set!["format"@]
    }

    open spec fn at_defaults(m: SetVariableRequestArgumentsView) -> bool {
        &&& m.format is None
    }

    proof fn lemma_defaults_elided(m: SetVariableRequestArgumentsView, key: Seq<char>) {
        broadcast use group_field_rules;

        reveal_strlit("variablesReference");
        reveal_strlit("name");
        reveal_strlit("value");
        reveal_strlit("format");
        assert("variablesReference"@.len() == 18);
        assert("name"@.len() == 4);
        assert("value"@.len() == 5);
        assert("format"@.len() == 6);
    }
}

/// Gathers the fields of a [`SetVariableRequestArguments`] one by one.
///
/// A field without a default has to be set before the value is built.
pub struct SetVariableRequestArgumentsBuilder {
    pub variables_reference: Option<i32>,
    pub name: Option<String>,
    pub value: Option<String>,
    pub format: Option<ValueFormat>,
}

impl SetVariableRequestArguments {
    /// A builder in which every field with a default holds its default.
    pub fn builder() -> (r: SetVariableRequestArgumentsBuilder)
        ensures
            r.variables_reference is None,
            r.name is None,
            r.value is None,
            r.format is None,
    {
        SetVariableRequestArgumentsBuilder {
            variables_reference: None,
            name: None,
            value: None,
            format: None,
        }
    }
}

impl SetVariableRequestArgumentsBuilder {
    /// Sets `variables_reference`.
    pub fn variables_reference(self, value: i32) -> (r: SetVariableRequestArgumentsBuilder)
        ensures
            r == (SetVariableRequestArgumentsBuilder { variables_reference: Some(value), ..self }),
    {
        SetVariableRequestArgumentsBuilder { variables_reference: Some(value), ..self }
    }

    /// Sets `name`.
    pub fn name(self, value: String) -> (r: SetVariableRequestArgumentsBuilder)
        ensures
            r == (SetVariableRequestArgumentsBuilder { name: Some(value), ..self }),
    {
        SetVariableRequestArgumentsBuilder { name: Some(value), ..self }
    }

    /// Sets `value`.
    pub fn value(self, value: String) -> (r: SetVariableRequestArgumentsBuilder)
        ensures
            r == (SetVariableRequestArgumentsBuilder { value: Some(value), ..self }),
    {
        SetVariableRequestArgumentsBuilder { value: Some(value), ..self }
    }

    /// Sets `format`.
    pub fn format(self, value: Option<ValueFormat>) -> (r: SetVariableRequestArgumentsBuilder)
        ensures
            r == (SetVariableRequestArgumentsBuilder { format: value, ..self }),
    {
        SetVariableRequestArgumentsBuilder { format: value, ..self }
    }

    /// Whether every field without a default has been set.
    pub open spec fn complete(self) -> bool {
        &&& self.variables_reference is Some
        &&& self.name is Some
        &&& self.value is Some
    }

    /// The value with the fields as they were set.
    pub fn build(self) -> (r: SetVariableRequestArguments)
        requires
            self.complete(),
        ensures
            r == (SetVariableRequestArguments {
                variables_reference: self.variables_reference->Some_0,
                name: self.name->Some_0,
                value: self.value->Some_0,
                format: self.format,
            }),
    {
        SetVariableRequestArguments {
            variables_reference: self.variables_reference.unwrap(),
            name: self.name.unwrap(),
            value: self.value.unwrap(),
            format: self.format,
        }
    }
}

impl From<SetVariableRequestArguments> for Request {
    fn from(args: SetVariableRequestArguments) -> (r: Request) {
        Request::SetVariable(args)
    }
}

impl vstd::std_specs::convert::FromSpecImpl<SetVariableRequestArguments> for Request {
    open spec fn obeys_from_spec() -> bool {
        true
    }

    open spec fn from_spec(args: SetVariableRequestArguments) -> Request {
        Request::SetVariable(args)
    }
}

impl From<SetVariableRequestArguments> for ProtocolMessageContent {
    fn from(args: SetVariableRequestArguments) -> (r: ProtocolMessageContent) {
        ProtocolMessageContent::Request(Request::SetVariable(args))
    }
}

impl vstd::std_specs::convert::FromSpecImpl<SetVariableRequestArguments> for ProtocolMessageContent {
    open spec fn obeys_from_spec() -> bool {
        true
    }

    open spec fn from_spec(args: SetVariableRequestArguments) -> ProtocolMessageContent {
        ProtocolMessageContent::Request(Request::SetVariable(args))
    }
}

#[derive(Clone, Debug, PartialEq, Eq)]
pub struct SourceRequestArguments {
    /// Specifies the source content to load. Either source.path or source.sourceReference must be specified.
    pub source: Option<Source>,

    /// The reference to the source. This is the same as source.sourceReference.
    ///
    /// This is provided for backward compatibility since old backends do not understand the 'source' attribute.
    pub source_reference: i32,
}

/// The mathematical content of a [`SourceRequestArguments`].
pub struct SourceRequestArgumentsView {
    pub source: Option<SourceView>,
    pub source_reference: i32,
}

impl View for SourceRequestArguments {
    type V = SourceRequestArgumentsView;

    open spec fn view(&self) -> SourceRequestArgumentsView {
        SourceRequestArgumentsView {
            source: self.source.model(),
            source_reference: self.source_reference,
        }
    }
}

impl SourceRequestArguments {
    /// The fields that are written for a value.
    pub open spec fn fields(m: SourceRequestArgumentsView) -> JsonObject {
        let o = empty_object();
        let o = with_opt_field::<Source>(o, "source"@, m.source);
        let o = with_field::<i32>(o, "sourceReference"@, m.source_reference);
        o
    }

    /// What the fields of an object decode to: the first failure in the order of
    /// the fields, or the value.
    pub open spec fn decode_fields(o: JsonObject) -> Result<SourceRequestArgumentsView, DecodeErrorView> {
        let source = opt_field::<Source>(o, "source"@);
        let source_reference = req_field::<i32>(o, "sourceReference"@);
        if source is Err {
            Err(source->Err_0)
        } else if source_reference is Err {
            Err(source_reference->Err_0)
        } else {
            Ok(SourceRequestArgumentsView {
                source: source->Ok_0,
                source_reference: source_reference->Ok_0,
            })
        }
    }

    /// Writes the fields of the value into a fresh object.
    pub fn to_object(&self) -> (o: serde_json::Map<String, serde_json::Value>)
        ensures
            object_model(o) == SourceRequestArguments::fields(self@),
    {
        let mut o = object_new();
        put_opt::<Source>(&mut o, "source", &self.source);
        put::<i32>(&mut o, "sourceReference", &self.source_reference);
        o
    }

    /// Reads a value from the fields of an object.
    pub fn from_object(o: &serde_json::Map<String, serde_json::Value>) -> (r: Result<
        SourceRequestArguments,
        DecodeError,
    >)
        ensures
            match r {
                Ok(x) => SourceRequestArguments::decode_fields(object_model(*o)) matches Ok(m) && m == x.model(),
                Err(e) => SourceRequestArguments::decode_fields(object_model(*o)) matches Err(f) && f == e@,
            },
    {
        let source = get_opt::<Source>(o, "source")?;
        let source_reference = get_req::<i32>(o, "sourceReference")?;
        Ok(SourceRequestArguments { source, source_reference })
    }
}

impl Wire for SourceRequestArguments {
    type Model = SourceRequestArgumentsView;

    open spec fn model(&self) -> SourceRequestArgumentsView {
        self@
    }

    open spec fn wire_ok(m: SourceRequestArgumentsView) -> bool {
        &&& Option::<Source>::wire_ok(m.source)
    }

    open spec fn encode_json(m: SourceRequestArgumentsView) -> Json {
        Json::Object(SourceRequestArguments::fields(m))
    }

    open spec fn decode_json(j: Json) -> Result<SourceRequestArgumentsView, DecodeErrorView> {
        match j {
            Json::Object(o) => SourceRequestArguments::decode_fields(o),
            _ => Err(DecodeErrorView::InvalidType),
        }
    }

    fn to_value(&self) -> (r: serde_json::Value) {
        value_object(self.to_object())
    }

    fn from_value(v: &serde_json::Value) -> (r: Result<SourceRequestArguments, DecodeError>) {
        match value_as_object(v) {
            Some(o) => SourceRequestArguments::from_object(o),
            None => Err(DecodeError::InvalidType),
        }
    }

    proof fn lemma_round_trip(m: SourceRequestArgumentsView) {
        broadcast use group_field_rules;

        reveal(opt_field);
        reveal(req_field);
        reveal_strlit("source");
        reveal_strlit("sourceReference");
        assert("source"@.len() == 6);
        assert("sourceReference"@.len() == 15);
        let o = SourceRequestArguments::fields(m);
        Option::<Source>::lemma_round_trip(m.source);
        assert(opt_field::<Source>(o, "source"@) matches Ok(v) && v == m.source);
        i32::lemma_round_trip(m.source_reference);
        assert(req_field::<i32>(o, "sourceReference"@) matches Ok(v) && v == m.source_reference);
    }
}

impl Record for SourceRequestArguments {
    open spec fn field_names() -> Set<Seq<char>> {
        set!["source"@, "sourceReference"@]
    }

    proof fn lemma_unknown_field(o: JsonObject, key: Seq<char>, x: Json) {
        broadcast use group_field_rules;

        reveal(opt_field);
        reveal(req_field);
    }
}

impl Defaults for SourceRequestArguments {
    open spec fn elidable_names() -> Set<Seq<char>> {
        set!["source"@]
    }

    open spec fn at_defaults(m: SourceRequestArgumentsView) -> bool {
        &&& m.source is None
    }

    proof fn lemma_defaults_elided(m: SourceRequestArgumentsView, key: Seq<char>) {
        broadcast use group_field_rules;

        reveal_strlit("source");
        reveal_strlit("sourceReference");
        assert("source"@.len() == 6);
        assert("sourceReference"@.len() == 15);
    }
}

/// Gathers the fields of a [`SourceRequestArguments`] one by one.
///
/// A field without a default has to be set before the value is built.
pub struct SourceRequestArgumentsBuilder {
    pub source: Option<Source>,
    pub source_reference: Option<i32>,
}

impl SourceRequestArguments {
    /// A builder in which every field with a default holds its default.
    pub fn builder() -> (r: SourceRequestArgumentsBuilder)
        ensures
            r.source is None,
            r.source_reference is None,
    {
        SourceRequestArgumentsBuilder {
            source: None,
            source_reference: None,
        }
    }
}

impl SourceRequestArgumentsBuilder {
    /// Sets `source`.
    pub fn source(self, value: Option<Source>) -> (r: SourceRequestArgumentsBuilder)
        ensures
            r == (SourceRequestArgumentsBuilder { source: value, ..self }),
    {
        SourceRequestArgumentsBuilder { source: value, ..self }
    }

    /// Sets `source_reference`.
    pub fn source_reference(self, value: i32) -> (r: SourceRequestArgumentsBuilder)
        ensures
            r == (SourceRequestArgumentsBuilder { source_reference: Some(value), ..self }),
    {
        SourceRequestArgumentsBuilder { source_reference: Some(value), ..self }
    }

    /// Whether every field without a default has been set.
    pub open spec fn complete(self) -> bool {
        &&& self.source_reference is Some
    }

    /// The value with the fields as they were set.
    pub fn build(self) -> (r: SourceRequestArguments)
        requires
            self.complete(),
        ensures
            r == (SourceRequestArguments {
                source: self.source,
                source_reference: self.source_reference->Some_0,
            }),
    {
        SourceRequestArguments {
            source: self.source,
            source_reference: self.source_reference.unwrap(),
        }
    }
}

impl From<SourceRequestArguments> for Request {
    fn from(args: SourceRequestArguments) -> (r: Request) {
        Request::Source(args)
    }
}

impl vstd::std_specs::convert::FromSpecImpl<SourceRequestArguments> for Request {
    open spec fn obeys_from_spec() -> bool {
        true
    }

    open spec fn from_spec(args: SourceRequestArguments) -> Request {
        Request::Source(args)
    }
}

impl From<SourceRequestArguments> for ProtocolMessageContent {
    fn from(args: SourceRequestArguments) -> (r: ProtocolMessageContent) {
        ProtocolMessageContent::Request(Request::Source(args))
    }
}

impl vstd::std_specs::convert::FromSpecImpl<SourceRequestArguments> for ProtocolMessageContent {
    open spec fn obeys_from_spec() -> bool {
        true
    }

    open spec fn from_spec(args: SourceRequestArguments) -> ProtocolMessageContent {
        ProtocolMessageContent::Request(Request::Source(args))
    }
}

#[derive(Clone, Debug, PartialEq, Eq)]
pub struct StackTraceRequestArguments {
    /// Retrieve the stacktrace for this thread.
    pub thread_id: i32,

    /// The index of the first frame to return; if omitted frames start at 0.
    pub start_frame: i32,

    /// The maximum number of frames to return. If levels is not specified or 0, all frames are returned.
    pub levels: i32,

    /// Specifies details on how to format the stack frames.
    ///
    /// The attribute is only honored by a debug adapter if the capability 'supportsValueFormattingOptions' is true.
    pub format: Option<StackFrameFormat>,
}

impl StackTraceRequestArguments {
    /// The fields that are written for a value.
    pub open spec fn fields(m: StackTraceRequestArguments) -> JsonObject {
        let o = empty_object();
        let o = with_field::<i32>(o, "threadId"@, m.thread_id);
        let o = with_nondefault_field::<i32>(o, "startFrame"@, m.start_frame, 0i32);
        let o = with_nondefault_field::<i32>(o, "levels"@, m.levels, 0i32);
        let o = with_opt_field::<StackFrameFormat>(o, "format"@, m.format);
        o
    }

    /// What the fields of an object decode to: the first failure in the order of
    /// the fields, or the value.
    pub open spec fn decode_fields(o: JsonObject) -> Result<StackTraceRequestArguments, DecodeErrorView> {
        let thread_id = req_field::<i32>(o, "threadId"@);
        let start_frame = default_field::<i32>(o, "startFrame"@, 0i32);
        let levels = default_field::<i32>(o, "levels"@, 0i32);
        let format = opt_field::<StackFrameFormat>(o, "format"@);
        if thread_id is Err {
            Err(thread_id->Err_0)
        } else if start_frame is Err {
            Err(start_frame->Err_0)
        } else if levels is Err {
            Err(levels->Err_0)
        } else if format is Err {
            Err(format->Err_0)
        } else {
            Ok(StackTraceRequestArguments {
                thread_id: thread_id->Ok_0,
                start_frame: start_frame->Ok_0,
                levels: levels->Ok_0,
                format: format->Ok_0,
            })
        }
    }

    /// Writes the fields of the value into a fresh object.
    pub fn to_object(&self) -> (o: serde_json::Map<String, serde_json::Value>)
        ensures
            object_model(o) == StackTraceRequestArguments::fields(*self),
    {
        let mut o = object_new();
        put::<i32>(&mut o, "threadId", &self.thread_id);
        put_nonzero(&mut o, "startFrame", self.start_frame);
        put_nonzero(&mut o, "levels", self.levels);
        put_opt::<StackFrameFormat>(&mut o, "format", &self.format);
        o
    }

    /// Reads a value from the fields of an object.
    pub fn from_object(o: &serde_json::Map<String, serde_json::Value>) -> (r: Result<
        StackTraceRequestArguments,
        DecodeError,
    >)
        ensures
            match r {
                Ok(x) => StackTraceRequestArguments::decode_fields(object_model(*o)) matches Ok(m) && m == x.model(),
                Err(e) => StackTraceRequestArguments::decode_fields(object_model(*o)) matches Err(f) && f == e@,
            },
    {
        let thread_id = get_req::<i32>(o, "threadId")?;
        let start_frame = get_or::<i32>(o, "startFrame", 0)?;
        let levels = get_or::<i32>(o, "levels", 0)?;
        let format = get_opt::<StackFrameFormat>(o, "format")?;
        Ok(StackTraceRequestArguments { thread_id, start_frame, levels, format })
    }
}

impl Wire for StackTraceRequestArguments {
    type Model = StackTraceRequestArguments;

    open spec fn model(&self) -> StackTraceRequestArguments {
        *self
    }

    open spec fn wire_ok(m: StackTraceRequestArguments) -> bool {
        true
    }

    open spec fn encode_json(m: StackTraceRequestArguments) -> Json {
        Json::Object(StackTraceRequestArguments::fields(m))
    }

    open spec fn decode_json(j: Json) -> Result<StackTraceRequestArguments, DecodeErrorView> {
        match j {
            Json::Object(o) => StackTraceRequestArguments::decode_fields(o),
            _ => Err(DecodeErrorView::InvalidType),
        }
    }

    fn to_value(&self) -> (r: serde_json::Value) {
        value_object(self.to_object())
    }

    fn from_value(v: &serde_json::Value) -> (r: Result<StackTraceRequestArguments, DecodeError>) {
        match value_as_object(v) {
            Some(o) => StackTraceRequestArguments::from_object(o),
            None => Err(DecodeError::InvalidType),
        }
    }

    proof fn lemma_round_trip(m: StackTraceRequestArguments) {
        broadcast use group_field_rules;

        reveal(default_field);
        reveal(opt_field);
        reveal(req_field);
        reveal_strlit("threadId");
        reveal_strlit("startFrame");
        reveal_strlit("levels");
        reveal_strlit("format");
        assert("threadId"@.len() == 8);
        assert("startFrame"@.len() == 10);
        assert("levels"@.len() == 6);
        assert("format"@.len() == 6);
        assert("levels"@[0] != "format"@[0]);
        let o = StackTraceRequestArguments::fields(m);
        i32::lemma_round_trip(m.thread_id);
        assert(req_field::<i32>(o, "threadId"@) matches Ok(v) && v == m.thread_id);
        i32::lemma_round_trip(m.start_frame);
        assert(default_field::<i32>(o, "startFrame"@, 0i32) matches Ok(v) && v == m.start_frame);
        i32::lemma_round_trip(m.levels);
        assert(default_field::<i32>(o, "levels"@, 0i32) matches Ok(v) && v == m.levels);
        Option::<StackFrameFormat>::lemma_round_trip(m.format);
        assert(opt_field::<StackFrameFormat>(o, "format"@) matches Ok(v) && v == m.format);
    }
}

impl Record for StackTraceRequestArguments {
    open spec fn field_names() -> Set<Seq<char>> {
        set!["threadId"@, "startFrame"@, "levels"@, "format"@]
    }

    proof fn lemma_unknown_field(o: JsonObject, key: Seq<char>, x: Json) {
        broadcast use group_field_rules;

        reveal(default_field);
        reveal(opt_field);
        reveal(req_field);
    }
}

impl Defaults for StackTraceRequestArguments {
    open spec fn elidable_names() -> Set<Seq<char>> {
        set!["startFrame"@, "levels"@, "format"@]
    }

    open spec fn at_defaults(m: StackTraceRequestArguments) -> bool {
        &&& m.start_frame == 0i32
        &&& m.levels == 0i32
        &&& m.format is None
    }

    proof fn lemma_defaults_elided(m: StackTraceRequestArguments, key: Seq<char>) {
        broadcast use group_field_rules;

        reveal_strlit("threadId");
        reveal_strlit("startFrame");
        reveal_strlit("levels");
        reveal_strlit("format");
        assert("threadId"@.len() == 8);
        assert("startFrame"@.len() == 10);
        assert("levels"@.len() == 6);
        assert("format"@.len() == 6);
        assert("levels"@[0] != "format"@[0]);
    }
}

/// Gathers the fields of a [`StackTraceRequestArguments`] one by one.
///
/// A field without a default has to be set before the value is built.
pub struct StackTraceRequestArgumentsBuilder {
    pub thread_id: Option<i32>,
    pub start_frame: i32,
    pub levels: i32,
    pub format: Option<StackFrameFormat>,
}

impl StackTraceRequestArguments {
    /// A builder in which every field with a default holds its default.
    pub fn builder() -> (r: StackTraceRequestArgumentsBuilder)
        ensures
            r.thread_id is None,
            r.start_frame == 0,
            r.levels == 0,
            r.format is None,
    {
        StackTraceRequestArgumentsBuilder {
            thread_id: None,
            start_frame: 0,
            levels: 0,
            format: None,
        }
    }
}

impl StackTraceRequestArgumentsBuilder {
    /// Sets `thread_id`.
    pub fn thread_id(self, value: i32) -> (r: StackTraceRequestArgumentsBuilder)
        ensures
            r == (StackTraceRequestArgumentsBuilder { thread_id: Some(value), ..self }),
    {
        StackTraceRequestArgumentsBuilder { thread_id: Some(value), ..self }
    }

    /// Sets `start_frame`.
    pub fn start_frame(self, value: i32) -> (r: StackTraceRequestArgumentsBuilder)
        ensures
            r == (StackTraceRequestArgumentsBuilder { start_frame: value, ..self }),
    {
        StackTraceRequestArgumentsBuilder { start_frame: value, ..self }
    }

    /// Sets `levels`.
    pub fn levels(self, value: i32) -> (r: StackTraceRequestArgumentsBuilder)
        ensures
            r == (StackTraceRequestArgumentsBuilder { levels: value, ..self }),
    {
        StackTraceRequestArgumentsBuilder { levels: value, ..self }
    }

    /// Sets `format`.
    pub fn format(self, value: Option<StackFrameFormat>) -> (r: StackTraceRequestArgumentsBuilder)
        ensures
            r == (StackTraceRequestArgumentsBuilder { format: value, ..self }),
    {
        StackTraceRequestArgumentsBuilder { format: value, ..self }
    }

    /// Whether every field without a default has been set.
    pub open spec fn complete(self) -> bool {
        &&& self.thread_id is Some
    }

    /// The value with the fields as they were set.
    pub fn build(self) -> (r: StackTraceRequestArguments)
        requires
            self.complete(),
        ensures
            r == (StackTraceRequestArguments {
                thread_id: self.thread_id->Some_0,
                start_frame: self.start_frame,
                levels: self.levels,
                format: self.format,
            }),
    {
        StackTraceRequestArguments {
            thread_id: self.thread_id.unwrap(),
            start_frame: self.start_frame,
            levels: self.levels,
            format: self.format,
        }
    }
}

impl From<StackTraceRequestArguments> for Request {
    fn from(args: StackTraceRequestArguments) -> (r: Request) {
        Request::StackTrace(args)
    }
}

impl vstd::std_specs::convert::FromSpecImpl<StackTraceRequestArguments> for Request {
    open spec fn obeys_from_spec() -> bool {
        true
    }

    open spec fn from_spec(args: StackTraceRequestArguments) -> Request {
        Request::StackTrace(args)
    }
}

impl From<StackTraceRequestArguments> for ProtocolMessageContent {
    fn from(args: StackTraceRequestArguments) -> (r: ProtocolMessageContent) {
        ProtocolMessageContent::Request(Request::StackTrace(args))
    }
}

impl vstd::std_specs::convert::FromSpecImpl<StackTraceRequestArguments> for ProtocolMessageContent {
    open spec fn obeys_from_spec() -> bool {
        true
    }

    open spec fn from_spec(args: StackTraceRequestArguments) -> ProtocolMessageContent {
        ProtocolMessageContent::Request(Request::StackTrace(args))
    }
}

#[derive(Clone, Debug, PartialEq, Eq)]
pub struct StepBackRequestArguments {
    /// Execute 'stepBack' for this thread.
    pub thread_id: i32,

    /// Optional granularity to step. If no granularity is specified, a granularity of 'statement' is assumed.
    pub granularity: SteppingGranularity,
}

impl StepBackRequestArguments {
    /// The fields that are written for a value.
    pub open spec fn fields(m: StepBackRequestArguments) -> JsonObject {
        let o = empty_object();
        let o = with_field::<i32>(o, "threadId"@, m.thread_id);
        let o = with_nondefault_field::<SteppingGranularity>(o, "granularity"@, m.granularity, SteppingGranularity::Statement);
        o
    }

    /// What the fields of an object decode to: the first failure in the order of
    /// the fields, or the value.
    pub open spec fn decode_fields(o: JsonObject) -> Result<StepBackRequestArguments, DecodeErrorView> {
        let thread_id = req_field::<i32>(o, "threadId"@);
        let granularity = default_field::<SteppingGranularity>(o, "granularity"@, SteppingGranularity::Statement);
        if thread_id is Err {
            Err(thread_id->Err_0)
        } else if granularity is Err {
            Err(granularity->Err_0)
        } else {
            Ok(StepBackRequestArguments {
                thread_id: thread_id->Ok_0,
                granularity: granularity->Ok_0,
            })
        }
    }

    /// Writes the fields of the value into a fresh object.
    pub fn to_object(&self) -> (o: serde_json::Map<String, serde_json::Value>)
        ensures
            object_model(o) == StepBackRequestArguments::fields(*self),
    {
        let mut o = object_new();
        put::<i32>(&mut o, "threadId", &self.thread_id);
        put_unless::<SteppingGranularity>(&mut o, "granularity", &self.granularity, &SteppingGranularity::Statement, self.granularity == SteppingGranularity::Statement);
        o
    }

    /// Reads a value from the fields of an object.
    pub fn from_object(o: &serde_json::Map<String, serde_json::Value>) -> (r: Result<
        StepBackRequestArguments,
        DecodeError,
    >)
        ensures
            match r {
                Ok(x) => StepBackRequestArguments::decode_fields(object_model(*o)) matches Ok(m) && m == x.model(),
                Err(e) => StepBackRequestArguments::decode_fields(object_model(*o)) matches Err(f) && f == e@,
            },
    {
        let thread_id = get_req::<i32>(o, "threadId")?;
        let granularity = get_or::<SteppingGranularity>(o, "granularity", SteppingGranularity::Statement)?;
        Ok(StepBackRequestArguments { thread_id, granularity })
    }
}

impl Wire for StepBackRequestArguments {
    type Model = StepBackRequestArguments;

    open spec fn model(&self) -> StepBackRequestArguments {
        *self
    }

    open spec fn wire_ok(m: StepBackRequestArguments) -> bool {
        true
    }

    open spec fn encode_json(m: StepBackRequestArguments) -> Json {
        Json::Object(StepBackRequestArguments::fields(m))
    }

    open spec fn decode_json(j: Json) -> Result<StepBackRequestArguments, DecodeErrorView> {
        match j {
            Json::Object(o) => StepBackRequestArguments::decode_fields(o),
            _ => Err(DecodeErrorView::InvalidType),
        }
    }

    fn to_value(&self) -> (r: serde_json::Value) {
        value_object(self.to_object())
    }

    fn from_value(v: &serde_json::Value) -> (r: Result<StepBackRequestArguments, DecodeError>) {
        match value_as_object(v) {
            Some(o) => StepBackRequestArguments::from_object(o),
            None => Err(DecodeError::InvalidType),
        }
    }

    proof fn lemma_round_trip(m: StepBackRequestArguments) {
        broadcast use group_field_rules;

        reveal(default_field);
        reveal(req_field);
        reveal_strlit("threadId");
        reveal_strlit("granularity");
        assert("threadId"@.len() == 8);
        assert("granularity"@.len() == 11);
        let o = StepBackRequestArguments::fields(m);
        i32::lemma_round_trip(m.thread_id);
        assert(req_field::<i32>(o, "threadId"@) matches Ok(v) && v == m.thread_id);
        SteppingGranularity::lemma_round_trip(m.granularity);
        assert(default_field::<SteppingGranularity>(o, "granularity"@, SteppingGranularity::Statement) matches Ok(v) && v == m.granularity);
    }
}

impl Record for StepBackRequestArguments {
    open spec fn field_names() -> Set<Seq<char>> {
        set!["threadId"@, "granularity"@]
    }

    proof fn lemma_unknown_field(o: JsonObject, key: Seq<char>, x: Json) {
        broadcast use group_field_rules;

        reveal(default_field);
        reveal(req_field);
    }
}

impl Defaults for StepBackRequestArguments {
    open spec fn elidable_names() -> Set<Seq<char>> {
        set!["granularity"@]
    }

    open spec fn at_defaults(m: StepBackRequestArguments) -> bool {
        &&& m.granularity == SteppingGranularity::Statement
    }

    proof fn lemma_defaults_elided(m: StepBackRequestArguments, key: Seq<char>) {
        broadcast use group_field_rules;

        reveal_strlit("threadId");
        reveal_strlit("granularity");
        assert("threadId"@.len() == 8);
        assert("granularity"@.len() == 11);
    }
}

/// Gathers the fields of a [`StepBackRequestArguments`] one by one.
///
/// A field without a default has to be set before the value is built.
pub struct StepBackRequestArgumentsBuilder {
    pub thread_id: Option<i32>,
    pub granularity: SteppingGranularity,
}

impl StepBackRequestArguments {
    /// A builder in which every field with a default holds its default.
    pub fn builder() -> (r: StepBackRequestArgumentsBuilder)
        ensures
            r.thread_id is None,
            r.granularity == SteppingGranularity::Statement,
    {
        StepBackRequestArgumentsBuilder {
            thread_id: None,
            granularity: SteppingGranularity::Statement,
        }
    }
}

impl StepBackRequestArgumentsBuilder {
    /// Sets `thread_id`.
    pub fn thread_id(self, value: i32) -> (r: StepBackRequestArgumentsBuilder)
        ensures
            r == (StepBackRequestArgumentsBuilder { thread_id: Some(value), ..self }),
    {
        StepBackRequestArgumentsBuilder { thread_id: Some(value), ..self }
    }

    /// Sets `granularity`.
    pub fn granularity(self, value: SteppingGranularity) -> (r: StepBackRequestArgumentsBuilder)
        ensures
            r == (StepBackRequestArgumentsBuilder { granularity: value, ..self }),
    {
        StepBackRequestArgumentsBuilder { granularity: value, ..self }
    }

    /// Whether every field without a default has been set.
    pub open spec fn complete(self) -> bool {
        &&& self.thread_id is Some
    }

    /// The value with the fields as they were set.
    pub fn build(self) -> (r: StepBackRequestArguments)
        requires
            self.complete(),
        ensures
            r == (StepBackRequestArguments {
                thread_id: self.thread_id->Some_0,
                granularity: self.granularity,
            }),
    {
        StepBackRequestArguments {
            thread_id: self.thread_id.unwrap(),
            granularity: self.granularity,
        }
    }
}

impl From<StepBackRequestArguments> for Request {
    fn from(args: StepBackRequestArguments) -> (r: Request) {
        Request::StepBack(args)
    }
}

impl vstd::std_specs::convert::FromSpecImpl<StepBackRequestArguments> for Request {
    open spec fn obeys_from_spec() -> bool {
        true
    }

    open spec fn from_spec(args: StepBackRequestArguments) -> Request {
        Request::StepBack(args)
    }
}

impl From<StepBackRequestArguments> for ProtocolMessageContent {
    fn from(args: StepBackRequestArguments) -> (r: ProtocolMessageContent) {
        ProtocolMessageContent::Request(Request::StepBack(args))
    }
}

impl vstd::std_specs::convert::FromSpecImpl<StepBackRequestArguments> for ProtocolMessageContent {
    open spec fn obeys_from_spec() -> bool {
        true
    }

    open spec fn from_spec(args: StepBackRequestArguments) -> ProtocolMessageContent {
        ProtocolMessageContent::Request(Request::StepBack(args))
    }
}

#[derive(Clone, Debug, PartialEq, Eq)]
pub struct StepInRequestArguments {
    /// Execute 'stepIn' for this thread.
    pub thread_id: i32,

    /// Optional id of the target to step into.
    pub target_id: Option<i32>,

    /// Optional granularity to step. If no granularity is specified, a granularity of 'statement' is assumed.
    pub granularity: SteppingGranularity,
}

impl StepInRequestArguments {
    /// The fields that are written for a value.
    pub open spec fn fields(m: StepInRequestArguments) -> JsonObject {
        let o = empty_object();
        let o = with_field::<i32>(o, "threadId"@, m.thread_id);
        let o = with_opt_field::<i32>(o, "targetId"@, m.target_id);
        let o = with_nondefault_field::<SteppingGranularity>(o, "granularity"@, m.granularity, SteppingGranularity::Statement);
        o
    }

    /// What the fields of an object decode to: the first failure in the order of
    /// the fields, or the value.
    pub open spec fn decode_fields(o: JsonObject) -> Result<StepInRequestArguments, DecodeErrorView> {
        let thread_id = req_field::<i32>(o, "threadId"@);
        let target_id = opt_field::<i32>(o, "targetId"@);
        let granularity = default_field::<SteppingGranularity>(o, "granularity"@, SteppingGranularity::Statement);
        if thread_id is Err {
            Err(thread_id->Err_0)
        } else if target_id is Err {
            Err(target_id->Err_0)
        } else if granularity is Err {
            Err(granularity->Err_0)
        } else {
            Ok(StepInRequestArguments {
                thread_id: thread_id->Ok_0,
                target_id: target_id->Ok_0,
                granularity: granularity->Ok_0,
            })
        }
    }

    /// Writes the fields of the value into a fresh object.
    pub fn to_object(&self) -> (o: serde_json::Map<String, serde_json::Value>)
        ensures
            object_model(o) == StepInRequestArguments::fields(*self),
    {
        let mut o = object_new();
        put::<i32>(&mut o, "threadId", &self.thread_id);
        put_opt::<i32>(&mut o, "targetId", &self.target_id);
        put_unless::<SteppingGranularity>(&mut o, "granularity", &self.granularity, &SteppingGranularity::Statement, self.granularity == SteppingGranularity::Statement);
        o
    }

    /// Reads a value from the fields of an object.
    pub fn from_object(o: &serde_json::Map<String, serde_json::Value>) -> (r: Result<
        StepInRequestArguments,
        DecodeError,
    >)
        ensures
            match r {
                Ok(x) => StepInRequestArguments::decode_fields(object_model(*o)) matches Ok(m) && m == x.model(),
                Err(e) => StepInRequestArguments::decode_fields(object_model(*o)) matches Err(f) && f == e@,
            },
    {
        let thread_id = get_req::<i32>(o, "threadId")?;
        let target_id = get_opt::<i32>(o, "targetId")?;
        let granularity = get_or::<SteppingGranularity>(o, "granularity", SteppingGranularity::Statement)?;
        Ok(StepInRequestArguments { thread_id, target_id, granularity })
    }
}

impl Wire for StepInRequestArguments {
    type Model = StepInRequestArguments;

    open spec fn model(&self) -> StepInRequestArguments {
        *self
    }

    open spec fn wire_ok(m: StepInRequestArguments) -> bool {
        true
    }

    open spec fn encode_json(m: StepInRequestArguments) -> Json {
        Json::Object(StepInRequestArguments::fields(m))
    }

    open spec fn decode_json(j: Json) -> Result<StepInRequestArguments, DecodeErrorView> {
        match j {
            Json::Object(o) => StepInRequestArguments::decode_fields(o),
            _ => Err(DecodeErrorView::InvalidType),
        }
    }

    fn to_value(&self) -> (r: serde_json::Value) {
        value_object(self.to_object())
    }

    fn from_value(v: &serde_json::Value) -> (r: Result<StepInRequestArguments, DecodeError>) {
        match value_as_object(v) {
            Some(o) => StepInRequestArguments::from_object(o),
            None => Err(DecodeError::InvalidType),
        }
    }

    proof fn lemma_round_trip(m: StepInRequestArguments) {
        broadcast use group_field_rules;

        reveal(default_field);
        reveal(opt_field);
        reveal(req_field);
        reveal_strlit("threadId");
        reveal_strlit("targetId");
        reveal_strlit("granularity");
        assert("threadId"@.len() == 8);
        assert("targetId"@.len() == 8);
        assert("granularity"@.len() == 11);
        assert("threadId"@[1] != "targetId"@[1]);
        let o = StepInRequestArguments::fields(m);
        i32::lemma_round_trip(m.thread_id);
        assert(req_field::<i32>(o, "threadId"@) matches Ok(v) && v == m.thread_id);
        Option::<i32>::lemma_round_trip(m.target_id);
        assert(opt_field::<i32>(o, "targetId"@) matches Ok(v) && v == m.target_id);
        SteppingGranularity::lemma_round_trip(m.granularity);
        assert(default_field::<SteppingGranularity>(o, "granularity"@, SteppingGranularity::Statement) matches Ok(v) && v == m.granularity);
    }
}

impl Record for StepInRequestArguments {
    open spec fn field_names() -> Set<Seq<char>> {
        set!["threadId"@, "targetId"@, "granularity"@]
    }

    proof fn lemma_unknown_field(o: JsonObject, key: Seq<char>, x: Json) {
        broadcast use group_field_rules;

        reveal(default_field);
        reveal(opt_field);
        reveal(req_field);
    }
}

impl Defaults for StepInRequestArguments {
    open spec fn elidable_names() -> Set<Seq<char>> {
        set!["targetId"@, "granularity"@]
    }

    open spec fn at_defaults(m: StepInRequestArguments) -> bool {
        &&& m.target_id is None
        &&& m.granularity == SteppingGranularity::Statement
    }

    proof fn lemma_defaults_elided(m: StepInRequestArguments, key: Seq<char>) {
        broadcast use group_field_rules;

        reveal_strlit("threadId");
        reveal_strlit("targetId");
        reveal_strlit("granularity");
        assert("threadId"@.len() == 8);
        assert("targetId"@.len() == 8);
        assert("granularity"@.len() == 11);
        assert("threadId"@[1] != "targetId"@[1]);
    }
}

/// Gathers the fields of a [`StepInRequestArguments`] one by one.
///
/// A field without a default has to be set before the value is built.
pub struct StepInRequestArgumentsBuilder {
    pub thread_id: Option<i32>,
    pub target_id: Option<i32>,
    pub granularity: SteppingGranularity,
}

impl StepInRequestArguments {
    /// A builder in which every field with a default holds its default.
    pub fn builder() -> (r: StepInRequestArgumentsBuilder)
        ensures
            r.thread_id is None,
            r.target_id is None,
            r.granularity == SteppingGranularity::Statement,
    {
        StepInRequestArgumentsBuilder {
            thread_id: None,
            target_id: None,
            granularity: SteppingGranularity::Statement,
        }
    }
}

impl StepInRequestArgumentsBuilder {
    /// Sets `thread_id`.
    pub fn thread_id(self, value: i32) -> (r: StepInRequestArgumentsBuilder)
        ensures
            r == (StepInRequestArgumentsBuilder { thread_id: Some(value), ..self }),
    {
        StepInRequestArgumentsBuilder { thread_id: Some(value), ..self }
    }

    /// Sets `target_id`.
    pub fn target_id(self, value: Option<i32>) -> (r: StepInRequestArgumentsBuilder)
        ensures
            r == (StepInRequestArgumentsBuilder { target_id: value, ..self }),
    {
        StepInRequestArgumentsBuilder { target_id: value, ..self }
    }

    /// Sets `granularity`.
    pub fn granularity(self, value: SteppingGranularity) -> (r: StepInRequestArgumentsBuilder)
        ensures
            r == (StepInRequestArgumentsBuilder { granularity: value, ..self }),
    {
        StepInRequestArgumentsBuilder { granularity: value, ..self }
    }

    /// Whether every field without a default has been set.
    pub open spec fn complete(self) -> bool {
        &&& self.thread_id is Some
    }

    /// The value with the fields as they were set.
    pub fn build(self) -> (r: StepInRequestArguments)
        requires
            self.complete(),
        ensures
            r == (StepInRequestArguments {
                thread_id: self.thread_id->Some_0,
                target_id: self.target_id,
                granularity: self.granularity,
            }),
    {
        StepInRequestArguments {
            thread_id: self.thread_id.unwrap(),
            target_id: self.target_id,
            granularity: self.granularity,
        }
    }
}

impl From<StepInRequestArguments> for Request {
    fn from(args: StepInRequestArguments) -> (r: Request) {
        Request::StepIn(args)
    }
}

impl vstd::std_specs::convert::FromSpecImpl<StepInRequestArguments> for Request {
    open spec fn obeys_from_spec() -> bool {
        true
    }

    open spec fn from_spec(args: StepInRequestArguments) -> Request {
        Request::StepIn(args)
    }
}

impl From<StepInRequestArguments> for ProtocolMessageContent {
    fn from(args: StepInRequestArguments) -> (r: ProtocolMessageContent) {
        ProtocolMessageContent::Request(Request::StepIn(args))
    }
}

impl vstd::std_specs::convert::FromSpecImpl<StepInRequestArguments> for ProtocolMessageContent {
    open spec fn obeys_from_spec() -> bool {
        true
    }

    open spec fn from_spec(args: StepInRequestArguments) -> ProtocolMessageContent {
        ProtocolMessageContent::Request(Request::StepIn(args))
    }
}

#[derive(Clone, Debug, PartialEq, Eq)]
pub struct StepInTargetsRequestArguments {
    /// The stack frame for which to retrieve the possible stepIn targets.
    pub frame_id: i32,
}

impl StepInTargetsRequestArguments {
    /// The fields that are written for a value.
    pub open spec fn fields(m: StepInTargetsRequestArguments) -> JsonObject {
        let o = empty_object();
        let o = with_field::<i32>(o, "frameId"@, m.frame_id);
        o
    }

    /// What the fields of an object decode to: the first failure in the order of
    /// the fields, or the value.
    pub open spec fn decode_fields(o: JsonObject) -> Result<StepInTargetsRequestArguments, DecodeErrorView> {
        let frame_id = req_field::<i32>(o, "frameId"@);
        if frame_id is Err {
            Err(frame_id->Err_0)
        } else {
            Ok(StepInTargetsRequestArguments {
                frame_id: frame_id->Ok_0,
            })
        }
    }

    /// Writes the fields of the value into a fresh object.
    pub fn to_object(&self) -> (o: serde_json::Map<String, serde_json::Value>)
        ensures
            object_model(o) == StepInTargetsRequestArguments::fields(*self),
    {
        let mut o = object_new();
        put::<i32>(&mut o, "frameId", &self.frame_id);
        o
    }

    /// Reads a value from the fields of an object.
    pub fn from_object(o: &serde_json::Map<String, serde_json::Value>) -> (r: Result<
        StepInTargetsRequestArguments,
        DecodeError,
    >)
        ensures
            match r {
                Ok(x) => StepInTargetsRequestArguments::decode_fields(object_model(*o)) matches Ok(m) && m == x.model(),
                Err(e) => StepInTargetsRequestArguments::decode_fields(object_model(*o)) matches Err(f) && f == e@,
            },
    {
        let frame_id = get_req::<i32>(o, "frameId")?;
        Ok(StepInTargetsRequestArguments { frame_id })
    }
}

impl Wire for StepInTargetsRequestArguments {
    type Model = StepInTargetsRequestArguments;

    open spec fn model(&self) -> StepInTargetsRequestArguments {
        *self
    }

    open spec fn wire_ok(m: StepInTargetsRequestArguments) -> bool {
        true
    }

    open spec fn encode_json(m: StepInTargetsRequestArguments) -> Json {
        Json::Object(StepInTargetsRequestArguments::fields(m))
    }

    open spec fn decode_json(j: Json) -> Result<StepInTargetsRequestArguments, DecodeErrorView> {
        match j {
            Json::Object(o) => StepInTargetsRequestArguments::decode_fields(o),
            _ => Err(DecodeErrorView::InvalidType),
        }
    }

    fn to_value(&self) -> (r: serde_json::Value) {
        value_object(self.to_object())
    }

    fn from_value(v: &serde_json::Value) -> (r: Result<StepInTargetsRequestArguments, DecodeError>) {
        match value_as_object(v) {
            Some(o) => StepInTargetsRequestArguments::from_object(o),
            None => Err(DecodeError::InvalidType),
        }
    }

    proof fn lemma_round_trip(m: StepInTargetsRequestArguments) {
        broadcast use group_field_rules;

        reveal(req_field);
        reveal_strlit("frameId");
        assert("frameId"@.len() == 7);
        let o = StepInTargetsRequestArguments::fields(m);
        i32::lemma_round_trip(m.frame_id);
        assert(req_field::<i32>(o, "frameId"@) matches Ok(v) && v == m.frame_id);
    }
}

impl Record for StepInTargetsRequestArguments {
    open spec fn field_names() -> Set<Seq<char>> {
        set!["frameId"@]
    }

    proof fn lemma_unknown_field(o: JsonObject, key: Seq<char>, x: Json) {
        broadcast use group_field_rules;

        reveal(req_field);
    }
}

/// Gathers the fields of a [`StepInTargetsRequestArguments`] one by one.
///
/// A field without a default has to be set before the value is built.
pub struct StepInTargetsRequestArgumentsBuilder {
    pub frame_id: Option<i32>,
}

impl StepInTargetsRequestArguments {
    /// A builder in which every field with a default holds its default.
    pub fn builder() -> (r: StepInTargetsRequestArgumentsBuilder)
        ensures
            r.frame_id is None,
    {
        StepInTargetsRequestArgumentsBuilder {
            frame_id: None,
        }
    }
}

impl StepInTargetsRequestArgumentsBuilder {
    /// Sets `frame_id`.
    pub fn frame_id(self, value: i32) -> (r: StepInTargetsRequestArgumentsBuilder)
        ensures
            r == (StepInTargetsRequestArgumentsBuilder { frame_id: Some(value), ..self }),
    {
        StepInTargetsRequestArgumentsBuilder { frame_id: Some(value), ..self }
    }

    /// Whether every field without a default has been set.
    pub open spec fn complete(self) -> bool {
        &&& self.frame_id is Some
    }

    /// The value with the fields as they were set.
    pub fn build(self) -> (r: StepInTargetsRequestArguments)
        requires
            self.complete(),
        ensures
            r == (StepInTargetsRequestArguments {
                frame_id: self.frame_id->Some_0,
            }),
    {
        StepInTargetsRequestArguments {
            frame_id: self.frame_id.unwrap(),
        }
    }
}

impl From<StepInTargetsRequestArguments> for Request {
    fn from(args: StepInTargetsRequestArguments) -> (r: Request) {
        Request::StepInTargets(args)
    }
}

impl vstd::std_specs::convert::FromSpecImpl<StepInTargetsRequestArguments> for Request {
    open spec fn obeys_from_spec() -> bool {
        true
    }

    open spec fn from_spec(args: StepInTargetsRequestArguments) -> Request {
        Request::StepInTargets(args)
    }
}

impl From<StepInTargetsRequestArguments> for ProtocolMessageContent {
    fn from(args: StepInTargetsRequestArguments) -> (r: ProtocolMessageContent) {
        ProtocolMessageContent::Request(Request::StepInTargets(args))
    }
}

impl vstd::std_specs::convert::FromSpecImpl<StepInTargetsRequestArguments> for ProtocolMessageContent {
    open spec fn obeys_from_spec() -> bool {
        true
    }

    open spec fn from_spec(args: StepInTargetsRequestArguments) -> ProtocolMessageContent {
        ProtocolMessageContent::Request(Request::StepInTargets(args))
    }
}

#[derive(Clone, Debug, PartialEq, Eq)]
pub struct StepOutRequestArguments {
    /// Execute 'stepOut' for this thread.
    pub thread_id: i32,

    /// Optional granularity to step. If no granularity is specified, a granularity of 'statement' is assumed.
    pub granularity: SteppingGranularity,
}

impl StepOutRequestArguments {
    /// The fields that are written for a value.
    pub open spec fn fields(m: StepOutRequestArguments) -> JsonObject {
        let o = empty_object();
        let o = with_field::<i32>(o, "threadId"@, m.thread_id);
        let o = with_nondefault_field::<SteppingGranularity>(o, "granularity"@, m.granularity, SteppingGranularity::Statement);
        o
    }

    /// What the fields of an object decode to: the first failure in the order of
    /// the fields, or the value.
    pub open spec fn decode_fields(o: JsonObject) -> Result<StepOutRequestArguments, DecodeErrorView> {
        let thread_id = req_field::<i32>(o, "threadId"@);
        let granularity = default_field::<SteppingGranularity>(o, "granularity"@, SteppingGranularity::Statement);
        if thread_id is Err {
            Err(thread_id->Err_0)
        } else if granularity is Err {
            Err(granularity->Err_0)
        } else {
            Ok(StepOutRequestArguments {
                thread_id: thread_id->Ok_0,
                granularity: granularity->Ok_0,
            })
        }
    }

    /// Writes the fields of the value into a fresh object.
    pub fn to_object(&self) -> (o: serde_json::Map<String, serde_json::Value>)
        ensures
            object_model(o) == StepOutRequestArguments::fields(*self),
    {
        let mut o = object_new();
        put::<i32>(&mut o, "threadId", &self.thread_id);
        put_unless::<SteppingGranularity>(&mut o, "granularity", &self.granularity, &SteppingGranularity::Statement, self.granularity == SteppingGranularity::Statement);
        o
    }

    /// Reads a value from the fields of an object.
    pub fn from_object(o: &serde_json::Map<String, serde_json::Value>) -> (r: Result<
        StepOutRequestArguments,
        DecodeError,
    >)
        ensures
            match r {
                Ok(x) => StepOutRequestArguments::decode_fields(object_model(*o)) matches Ok(m) && m == x.model(),
                Err(e) => StepOutRequestArguments::decode_fields(object_model(*o)) matches Err(f) && f == e@,
            },
    {
        let thread_id = get_req::<i32>(o, "threadId")?;
        let granularity = get_or::<SteppingGranularity>(o, "granularity", SteppingGranularity::Statement)?;
        Ok(StepOutRequestArguments { thread_id, granularity })
    }
}

impl Wire for StepOutRequestArguments {
    type Model = StepOutRequestArguments;

    open spec fn model(&self) -> StepOutRequestArguments {
        *self
    }

    open spec fn wire_ok(m: StepOutRequestArguments) -> bool {
        true
    }

    open spec fn encode_json(m: StepOutRequestArguments) -> Json {
        Json::Object(StepOutRequestArguments::fields(m))
    }

    open spec fn decode_json(j: Json) -> Result<StepOutRequestArguments, DecodeErrorView> {
        match j {
            Json::Object(o) => StepOutRequestArguments::decode_fields(o),
            _ => Err(DecodeErrorView::InvalidType),
        }
    }

    fn to_value(&self) -> (r: serde_json::Value) {
        value_object(self.to_object())
    }

    fn from_value(v: &serde_json::Value) -> (r: Result<StepOutRequestArguments, DecodeError>) {
        match value_as_object(v) {
            Some(o) => StepOutRequestArguments::from_object(o),
            None => Err(DecodeError::InvalidType),
        }
    }

    proof fn lemma_round_trip(m: StepOutRequestArguments) {
        broadcast use group_field_rules;

        reveal(default_field);
        reveal(req_field);
        reveal_strlit("threadId");
        reveal_strlit("granularity");
        assert("threadId"@.len() == 8);
        assert("granularity"@.len() == 11);
        let o = StepOutRequestArguments::fields(m);
        i32::lemma_round_trip(m.thread_id);
        assert(req_field::<i32>(o, "threadId"@) matches Ok(v) && v == m.thread_id);
        SteppingGranularity::lemma_round_trip(m.granularity);
        assert(default_field::<SteppingGranularity>(o, "granularity"@, SteppingGranularity::Statement) matches Ok(v) && v == m.granularity);
    }
}

impl Record for StepOutRequestArguments {
    open spec fn field_names() -> Set<Seq<char>> {
        set!["threadId"@, "granularity"@]
    }

    proof fn lemma_unknown_field(o: JsonObject, key: Seq<char>, x: Json) {
        broadcast use group_field_rules;

        reveal(default_field);
        reveal(req_field);
    }
}

impl Defaults for StepOutRequestArguments {
    open spec fn elidable_names() -> Set<Seq<char>> {
        set!["granularity"@]
    }

    open spec fn at_defaults(m: StepOutRequestArguments) -> bool {
        &&& m.granularity == SteppingGranularity::Statement
    }

    proof fn lemma_defaults_elided(m: StepOutRequestArguments, key: Seq<char>) {
        broadcast use group_field_rules;

        reveal_strlit("threadId");
        reveal_strlit("granularity");
        assert("threadId"@.len() == 8);
        assert("granularity"@.len() == 11);
    }
}

/// Gathers the fields of a [`StepOutRequestArguments`] one by one.
///
/// A field without a default has to be set before the value is built.
pub struct StepOutRequestArgumentsBuilder {
    pub thread_id: Option<i32>,
    pub granularity: SteppingGranularity,
}

impl StepOutRequestArguments {
    /// A builder in which every field with a default holds its default.
    pub fn builder() -> (r: StepOutRequestArgumentsBuilder)
        ensures
            r.thread_id is None,
            r.granularity == SteppingGranularity::Statement,
    {
        StepOutRequestArgumentsBuilder {
            thread_id: None,
            granularity: SteppingGranularity::Statement,
        }
    }
}

impl StepOutRequestArgumentsBuilder {
    /// Sets `thread_id`.
    pub fn thread_id(self, value: i32) -> (r: StepOutRequestArgumentsBuilder)
        ensures
            r == (StepOutRequestArgumentsBuilder { thread_id: Some(value), ..self }),
    {
        StepOutRequestArgumentsBuilder { thread_id: Some(value), ..self }
    }

    /// Sets `granularity`.
    pub fn granularity(self, value: SteppingGranularity) -> (r: StepOutRequestArgumentsBuilder)
        ensures
            r == (StepOutRequestArgumentsBuilder { granularity: value, ..self }),
    {
        StepOutRequestArgumentsBuilder { granularity: value, ..self }
    }

    /// Whether every field without a default has been set.
    pub open spec fn complete(self) -> bool {
        &&& self.thread_id is Some
    }

    /// The value with the fields as they were set.
    pub fn build(self) -> (r: StepOutRequestArguments)
        requires
            self.complete(),
        ensures
            r == (StepOutRequestArguments {
                thread_id: self.thread_id->Some_0,
                granularity: self.granularity,
            }),
    {
        StepOutRequestArguments {
            thread_id: self.thread_id.unwrap(),
            granularity: self.granularity,
        }
    }
}

impl From<StepOutRequestArguments> for Request {
    fn from(args: StepOutRequestArguments) -> (r: Request) {
        Request::StepOut(args)
    }
}

impl vstd::std_specs::convert::FromSpecImpl<StepOutRequestArguments> for Request {
    open spec fn obeys_from_spec() -> bool {
        true
    }

    open spec fn from_spec(args: StepOutRequestArguments) -> Request {
        Request::StepOut(args)
    }
}

impl From<StepOutRequestArguments> for ProtocolMessageContent {
    fn from(args: StepOutRequestArguments) -> (r: ProtocolMessageContent) {
        ProtocolMessageContent::Request(Request::StepOut(args))
    }
}

impl vstd::std_specs::convert::FromSpecImpl<StepOutRequestArguments> for ProtocolMessageContent {
    open spec fn obeys_from_spec() -> bool {
        true
    }

    open spec fn from_spec(args: StepOutRequestArguments) -> ProtocolMessageContent {
        ProtocolMessageContent::Request(Request::StepOut(args))
    }
}

#[derive(Clone, Debug, PartialEq, Eq)]
pub struct TerminateRequestArguments {
    /// A value of true indicates that this 'terminate' request is part of a restart sequence.
    pub restart: bool,
}

impl TerminateRequestArguments {
    /// The fields that are written for a value.
    pub open spec fn fields(m: TerminateRequestArguments) -> JsonObject {
        let o = empty_object();
        let o = with_nondefault_field::<bool>(o, "restart"@, m.restart, false);
        o
    }

    /// What the fields of an object decode to: the first failure in the order of
    /// the fields, or the value.
    pub open spec fn decode_fields(o: JsonObject) -> Result<TerminateRequestArguments, DecodeErrorView> {
        let restart = default_field::<bool>(o, "restart"@, false);
        if restart is Err {
            Err(restart->Err_0)
        } else {
            Ok(TerminateRequestArguments {
                restart: restart->Ok_0,
            })
        }
    }

    /// Writes the fields of the value into a fresh object.
    pub fn to_object(&self) -> (o: serde_json::Map<String, serde_json::Value>)
        ensures
            object_model(o) == TerminateRequestArguments::fields(*self),
    {
        let mut o = object_new();
        put_flag(&mut o, "restart", self.restart);
        o
    }

    /// Reads a value from the fields of an object.
    pub fn from_object(o: &serde_json::Map<String, serde_json::Value>) -> (r: Result<
        TerminateRequestArguments,
        DecodeError,
    >)
        ensures
            match r {
                Ok(x) => TerminateRequestArguments::decode_fields(object_model(*o)) matches Ok(m) && m == x.model(),
                Err(e) => TerminateRequestArguments::decode_fields(object_model(*o)) matches Err(f) && f == e@,
            },
    {
        let restart = get_or::<bool>(o, "restart", false)?;
        Ok(TerminateRequestArguments { restart })
    }
}

impl Wire for TerminateRequestArguments {
    type Model = TerminateRequestArguments;

    open spec fn model(&self) -> TerminateRequestArguments {
        *self
    }

    open spec fn wire_ok(m: TerminateRequestArguments) -> bool {
        true
    }

    open spec fn encode_json(m: TerminateRequestArguments) -> Json {
        Json::Object(TerminateRequestArguments::fields(m))
    }

    open spec fn decode_json(j: Json) -> Result<TerminateRequestArguments, DecodeErrorView> {
        match j {
            Json::Object(o) => TerminateRequestArguments::decode_fields(o),
            _ => Err(DecodeErrorView::InvalidType),
        }
    }

    fn to_value(&self) -> (r: serde_json::Value) {
        value_object(self.to_object())
    }

    fn from_value(v: &serde_json::Value) -> (r: Result<TerminateRequestArguments, DecodeError>) {
        match value_as_object(v) {
            Some(o) => TerminateRequestArguments::from_object(o),
            None => Err(DecodeError::InvalidType),
        }
    }

    proof fn lemma_round_trip(m: TerminateRequestArguments) {
        broadcast use group_field_rules;

        reveal(default_field);
        reveal_strlit("restart");
        assert("restart"@.len() == 7);
        let o = TerminateRequestArguments::fields(m);
        bool::lemma_round_trip(m.restart);
        assert(default_field::<bool>(o, "restart"@, false) matches Ok(v) && v == m.restart);
    }
}

impl Record for TerminateRequestArguments {
    open spec fn field_names() -> Set<Seq<char>> {
        set!["restart"@]
    }

    proof fn lemma_unknown_field(o: JsonObject, key: Seq<char>, x: Json) {
        broadcast use group_field_rules;

        reveal(default_field);
    }
}

impl Defaults for TerminateRequestArguments {
    open spec fn elidable_names() -> Set<Seq<char>> {
        set!["restart"@]
    }

    open spec fn at_defaults(m: TerminateRequestArguments) -> bool {
        &&& !m.restart
    }

    proof fn lemma_defaults_elided(m: TerminateRequestArguments, key: Seq<char>) {
        broadcast use group_field_rules;

        reveal_strlit("restart");
        assert("restart"@.len() == 7);
    }
}

/// Gathers the fields of a [`TerminateRequestArguments`] one by one.
pub struct TerminateRequestArgumentsBuilder {
    pub restart: bool,
}

impl TerminateRequestArguments {
    /// A builder in which every field with a default holds its default.
    pub fn builder() -> (r: TerminateRequestArgumentsBuilder)
        ensures
            !r.restart,
    {
        TerminateRequestArgumentsBuilder {
            restart: false,
        }
    }
}

impl TerminateRequestArgumentsBuilder {
    /// Sets `restart`.
    pub fn restart(self, value: bool) -> (r: TerminateRequestArgumentsBuilder)
        ensures
            r == (TerminateRequestArgumentsBuilder { restart: value, ..self }),
    {
        TerminateRequestArgumentsBuilder { restart: value, ..self }
    }

    /// Whether every field without a default has been set.
    pub open spec fn complete(self) -> bool {
        true
    }

    /// The value with the fields as they were set.
    pub fn build(self) -> (r: TerminateRequestArguments)
        ensures
            r == (TerminateRequestArguments {
                restart: self.restart,
            }),
    {
        TerminateRequestArguments {
            restart: self.restart,
        }
    }
}

impl From<TerminateRequestArguments> for Request {
    fn from(args: TerminateRequestArguments) -> (r: Request) {
        Request::Terminate(args)
    }
}

impl vstd::std_specs::convert::FromSpecImpl<TerminateRequestArguments> for Request {
    open spec fn obeys_from_spec() -> bool {
        true
    }

    open spec fn from_spec(args: TerminateRequestArguments) -> Request {
        Request::Terminate(args)
    }
}

impl From<TerminateRequestArguments> for ProtocolMessageContent {
    fn from(args: TerminateRequestArguments) -> (r: ProtocolMessageContent) {
        ProtocolMessageContent::Request(Request::Terminate(args))
    }
}

impl vstd::std_specs::convert::FromSpecImpl<TerminateRequestArguments> for ProtocolMessageContent {
    open spec fn obeys_from_spec() -> bool {
        true
    }

    open spec fn from_spec(args: TerminateRequestArguments) -> ProtocolMessageContent {
        ProtocolMessageContent::Request(Request::Terminate(args))
    }
}

#[derive(Clone, Debug, PartialEq, Eq)]
pub struct TerminateThreadsRequestArguments {
    /// Ids of threads to be terminated.
    pub thread_ids: Vec<i32>,
}

/// The mathematical content of a [`TerminateThreadsRequestArguments`].
pub struct TerminateThreadsRequestArgumentsView {
    pub thread_ids: Seq<i32>,
}

impl View for TerminateThreadsRequestArguments {
    type V = TerminateThreadsRequestArgumentsView;

    open spec fn view(&self) -> TerminateThreadsRequestArgumentsView {
        TerminateThreadsRequestArgumentsView {
            thread_ids: self.thread_ids.model(),
        }
    }
}

impl TerminateThreadsRequestArguments {
    /// The fields that are written for a value.
    pub open spec fn fields(m: TerminateThreadsRequestArgumentsView) -> JsonObject {
        let o = empty_object();
        let o = with_nondefault_field::<Vec<i32>>(o, "threadIds"@, m.thread_ids, Seq::empty());
        o
    }

    /// What the fields of an object decode to: the first failure in the order of
    /// the fields, or the value.
    pub open spec fn decode_fields(o: JsonObject) -> Result<TerminateThreadsRequestArgumentsView, DecodeErrorView> {
        let thread_ids = default_field::<Vec<i32>>(o, "threadIds"@, Seq::empty());
        if thread_ids is Err {
            Err(thread_ids->Err_0)
        } else {
            Ok(TerminateThreadsRequestArgumentsView {
                thread_ids: thread_ids->Ok_0,
            })
        }
    }

    /// Writes the fields of the value into a fresh object.
    pub fn to_object(&self) -> (o: serde_json::Map<String, serde_json::Value>)
        ensures
            object_model(o) == TerminateThreadsRequestArguments::fields(self@),
    {
        let mut o = object_new();
        put_nonempty::<i32>(&mut o, "threadIds", &self.thread_ids);
        o
    }

    /// Reads a value from the fields of an object.
    pub fn from_object(o: &serde_json::Map<String, serde_json::Value>) -> (r: Result<
        TerminateThreadsRequestArguments,
        DecodeError,
    >)
        ensures
            match r {
                Ok(x) => TerminateThreadsRequestArguments::decode_fields(object_model(*o)) matches Ok(m) && m == x.model(),
                Err(e) => TerminateThreadsRequestArguments::decode_fields(object_model(*o)) matches Err(f) && f == e@,
            },
    {
        let thread_ids = get_or_empty::<i32>(o, "threadIds")?;
        Ok(TerminateThreadsRequestArguments { thread_ids })
    }
}

impl Wire for TerminateThreadsRequestArguments {
    type Model = TerminateThreadsRequestArgumentsView;

    open spec fn model(&self) -> TerminateThreadsRequestArgumentsView {
        self@
    }

    open spec fn wire_ok(m: TerminateThreadsRequestArgumentsView) -> bool {
        true
    }

    open spec fn encode_json(m: TerminateThreadsRequestArgumentsView) -> Json {
        Json::Object(TerminateThreadsRequestArguments::fields(m))
    }

    open spec fn decode_json(j: Json) -> Result<TerminateThreadsRequestArgumentsView, DecodeErrorView> {
        match j {
            Json::Object(o) => TerminateThreadsRequestArguments::decode_fields(o),
            _ => Err(DecodeErrorView::InvalidType),
        }
    }

    fn to_value(&self) -> (r: serde_json::Value) {
        value_object(self.to_object())
    }

    fn from_value(v: &serde_json::Value) -> (r: Result<TerminateThreadsRequestArguments, DecodeError>) {
        match value_as_object(v) {
            Some(o) => TerminateThreadsRequestArguments::from_object(o),
            None => Err(DecodeError::InvalidType),
        }
    }

    proof fn lemma_round_trip(m: TerminateThreadsRequestArgumentsView) {
        broadcast use group_field_rules;

        reveal(default_field);
        reveal_strlit("threadIds");
        assert("threadIds"@.len() == 9);
        let o = TerminateThreadsRequestArguments::fields(m);
        Vec::<i32>::lemma_round_trip(m.thread_ids);
        assert(default_field::<Vec<i32>>(o, "threadIds"@, Seq::empty()) matches Ok(v) && v == m.thread_ids);
    }
}

impl Record for TerminateThreadsRequestArguments {
    open spec fn field_names() -> Set<Seq<char>> {
        set!["threadIds"@]
    }

    proof fn lemma_unknown_field(o: JsonObject, key: Seq<char>, x: Json) {
        broadcast use group_field_rules;

        reveal(default_field);
    }
}

impl Defaults for TerminateThreadsRequestArguments {
    open spec fn elidable_names() -> Set<Seq<char>> {
        set!["threadIds"@]
    }

    open spec fn at_defaults(m: TerminateThreadsRequestArgumentsView) -> bool {
        &&& m.thread_ids == Seq::<i32>::empty()
    }

    proof fn lemma_defaults_elided(m: TerminateThreadsRequestArgumentsView, key: Seq<char>) {
        broadcast use group_field_rules;

        reveal_strlit("threadIds");
        assert("threadIds"@.len() == 9);
    }
}

/// Gathers the fields of a [`TerminateThreadsRequestArguments`] one by one.
pub struct TerminateThreadsRequestArgumentsBuilder {
    pub thread_ids: Vec<i32>,
}

impl TerminateThreadsRequestArguments {
    /// A builder in which every field with a default holds its default.
    pub fn builder() -> (r: TerminateThreadsRequestArgumentsBuilder)
        ensures
            r.thread_ids@.len() == 0,
    {
        TerminateThreadsRequestArgumentsBuilder {
            thread_ids: Vec::new(),
        }
    }
}

impl TerminateThreadsRequestArgumentsBuilder {
    /// Sets `thread_ids`.
    pub fn thread_ids(self, value: Vec<i32>) -> (r: TerminateThreadsRequestArgumentsBuilder)
        ensures
            r == (TerminateThreadsRequestArgumentsBuilder { thread_ids: value, ..self }),
    {
        TerminateThreadsRequestArgumentsBuilder { thread_ids: value, ..self }
    }

    /// Whether every field without a default has been set.
    pub open spec fn complete(self) -> bool {
        true
    }

    /// The value with the fields as they were set.
    pub fn build(self) -> (r: TerminateThreadsRequestArguments)
        ensures
            r == (TerminateThreadsRequestArguments {
                thread_ids: self.thread_ids,
            }),
    {
        TerminateThreadsRequestArguments {
            thread_ids: self.thread_ids,
        }
    }
}

impl From<TerminateThreadsRequestArguments> for Request {
    fn from(args: TerminateThreadsRequestArguments) -> (r: Request) {
        Request::TerminateThreads(args)
    }
}

impl vstd::std_specs::convert::FromSpecImpl<TerminateThreadsRequestArguments> for Request {
    open spec fn obeys_from_spec() -> bool {
        true
    }

    open spec fn from_spec(args: TerminateThreadsRequestArguments) -> Request {
        Request::TerminateThreads(args)
    }
}

impl From<TerminateThreadsRequestArguments> for ProtocolMessageContent {
    fn from(args: TerminateThreadsRequestArguments) -> (r: ProtocolMessageContent) {
        ProtocolMessageContent::Request(Request::TerminateThreads(args))
    }
}

impl vstd::std_specs::convert::FromSpecImpl<TerminateThreadsRequestArguments> for ProtocolMessageContent {
    open spec fn obeys_from_spec() -> bool {
        true
    }

    open spec fn from_spec(args: TerminateThreadsRequestArguments) -> ProtocolMessageContent {
        ProtocolMessageContent::Request(Request::TerminateThreads(args))
    }
}

#[derive(Clone, Debug, PartialEq, Eq)]
pub struct VariablesRequestArguments {
    /// The Variable reference.
    pub variables_reference: i32,

    /// Optional filter to limit the child variables to either named or indexed. If omitted, both types are fetched.
    pub filter: Option<VariablesFilter>,

    /// The index of the first variable to return; if omitted children start at 0.
    pub start: i32,

    /// The number of variables to return. If count is missing or 0, all variables are returned.
    pub count: i32,

    /// Specifies details on how to format the Variable values.
    ///
    /// The attribute is only honored by a debug adapter if the capability 'supportsValueFormattingOptions' is true.
    pub format: Option<ValueFormat>,
}

impl VariablesRequestArguments {
    /// The fields that are written for a value.
    pub open spec fn fields(m: VariablesRequestArguments) -> JsonObject {
        let o = empty_object();
        let o = with_field::<i32>(o, "variablesReference"@, m.variables_reference);
        let o = with_opt_field::<VariablesFilter>(o, "filter"@, m.filter);
        let o = with_nondefault_field::<i32>(o, "start"@, m.start, 0i32);
        let o = with_nondefault_field::<i32>(o, "count"@, m.count, 0i32);
        let o = with_opt_field::<ValueFormat>(o, "format"@, m.format);
        o
    }

    /// What the fields of an object decode to: the first failure in the order of
    /// the fields, or the value.
    pub open spec fn decode_fields(o: JsonObject) -> Result<VariablesRequestArguments, DecodeErrorView> {
        let variables_reference = req_field::<i32>(o, "variablesReference"@);
        let filter = opt_field::<VariablesFilter>(o, "filter"@);
        let start = default_field::<i32>(o, "start"@, 0i32);
        let count = default_field::<i32>(o, "count"@, 0i32);
        let format = opt_field::<ValueFormat>(o, "format"@);
        if variables_reference is Err {
            Err(variables_reference->Err_0)
        } else if filter is Err {
            Err(filter->Err_0)
        } else if start is Err {
            Err(start->Err_0)
        } else if count is Err {
            Err(count->Err_0)
        } else if format is Err {
            Err(format->Err_0)
        } else {
            Ok(VariablesRequestArguments {
                variables_reference: variables_reference->Ok_0,
                filter: filter->Ok_0,
                start: start->Ok_0,
                count: count->Ok_0,
                format: format->Ok_0,
            })
        }
    }

    /// Writes the fields of the value into a fresh object.
    pub fn to_object(&self) -> (o: serde_json::Map<String, serde_json::Value>)
        ensures
            object_model(o) == VariablesRequestArguments::fields(*self),
    {
        let mut o = object_new();
        put::<i32>(&mut o, "variablesReference", &self.variables_reference);
        put_opt::<VariablesFilter>(&mut o, "filter", &self.filter);
        put_nonzero(&mut o, "start", self.start);
        put_nonzero(&mut o, "count", self.count);
        put_opt::<ValueFormat>(&mut o, "format", &self.format);
        o
    }

    /// Reads a value from the fields of an object.
    pub fn from_object(o: &serde_json::Map<String, serde_json::Value>) -> (r: Result<
        VariablesRequestArguments,
        DecodeError,
    >)
        ensures
            match r {
                Ok(x) => VariablesRequestArguments::decode_fields(object_model(*o)) matches Ok(m) && m == x.model(),
                Err(e) => VariablesRequestArguments::decode_fields(object_model(*o)) matches Err(f) && f == e@,
            },
    {
        let variables_reference = get_req::<i32>(o, "variablesReference")?;
        let filter = get_opt::<VariablesFilter>(o, "filter")?;
        let start = get_or::<i32>(o, "start", 0)?;
        let count = get_or::<i32>(o, "count", 0)?;
        let format = get_opt::<ValueFormat>(o, "format")?;
        Ok(VariablesRequestArguments { variables_reference, filter, start, count, format })
    }
}

impl Wire for VariablesRequestArguments {
    type Model = VariablesRequestArguments;

    open spec fn model(&self) -> VariablesRequestArguments {
        *self
    }

    open spec fn wire_ok(m: VariablesRequestArguments) -> bool {
        true
    }

    open spec fn encode_json(m: VariablesRequestArguments) -> Json {
        Json::Object(VariablesRequestArguments::fields(m))
    }

    open spec fn decode_json(j: Json) -> Result<VariablesRequestArguments, DecodeErrorView> {
        match j {
            Json::Object(o) => VariablesRequestArguments::decode_fields(o),
            _ => Err(DecodeErrorView::InvalidType),
        }
    }

    fn to_value(&self) -> (r: serde_json::Value) {
        value_object(self.to_object())
    }

    fn from_value(v: &serde_json::Value) -> (r: Result<VariablesRequestArguments, DecodeError>) {
        match value_as_object(v) {
            Some(o) => VariablesRequestArguments::from_object(o),
            None => Err(DecodeError::InvalidType),
        }
    }

    proof fn lemma_round_trip(m: VariablesRequestArguments) {
        broadcast use group_field_rules;

        reveal(default_field);
        reveal(opt_field);
        reveal(req_field);
        reveal_strlit("variablesReference");
        reveal_strlit("filter");
        reveal_strlit("start");
        reveal_strlit("count");
        reveal_strlit("format");
        assert("variablesReference"@.len() == 18);
        assert("filter"@.len() == 6);
        assert("start"@.len() == 5);
        assert("count"@.len() == 5);
        assert("format"@.len() == 6);
        assert("filter"@[1] != "format"@[1]);
        assert("start"@[0] != "count"@[0]);
        let o = VariablesRequestArguments::fields(m);
        i32::lemma_round_trip(m.variables_reference);
        assert(req_field::<i32>(o, "variablesReference"@) matches Ok(v) && v == m.variables_reference);
        Option::<VariablesFilter>::lemma_round_trip(m.filter);
        assert(opt_field::<VariablesFilter>(o, "filter"@) matches Ok(v) && v == m.filter);
        i32::lemma_round_trip(m.start);
        assert(default_field::<i32>(o, "start"@, 0i32) matches Ok(v) && v == m.start);
        i32::lemma_round_trip(m.count);
        assert(default_field::<i32>(o, "count"@, 0i32) matches Ok(v) && v == m.count);
        Option::<ValueFormat>::lemma_round_trip(m.format);
        assert(opt_field::<ValueFormat>(o, "format"@) matches Ok(v) && v == m.format);
    }
}

impl Record for VariablesRequestArguments {
    open spec fn field_names() -> Set<Seq<char>> {
        set!["variablesReference"@, "filter"@, "start"@, "count"@, "format"@]
    }

    proof fn lemma_unknown_field(o: JsonObject, key: Seq<char>, x: Json) {
        broadcast use group_field_rules;

        reveal(default_field);
        reveal(opt_field);
        reveal(req_field);
    }
}

impl Defaults for VariablesRequestArguments {
    open spec fn elidable_names() -> Set<Seq<char>> {
        set!["filter"@, "start"@, "count"@, "format"@]
    }

    open spec fn at_defaults(m: VariablesRequestArguments) -> bool {
        &&& m.filter is None
        &&& m.start == 0i32
        &&& m.count == 0i32
        &&& m.format is None
    }

    proof fn lemma_defaults_elided(m: VariablesRequestArguments, key: Seq<char>) {
        broadcast use group_field_rules;

        reveal_strlit("variablesReference");
        reveal_strlit("filter");
        reveal_strlit("start");
        reveal_strlit("count");
        reveal_strlit("format");
        assert("variablesReference"@.len() == 18);
        assert("filter"@.len() == 6);
        assert("start"@.len() == 5);
        assert("count"@.len() == 5);
        assert("format"@.len() == 6);
        assert("filter"@[1] != "format"@[1]);
        assert("start"@[0] != "count"@[0]);
    }
}

/// Gathers the fields of a [`VariablesRequestArguments`] one by one.
///
/// A field without a default has to be set before the value is built.
pub struct VariablesRequestArgumentsBuilder {
    pub variables_reference: Option<i32>,
    pub filter: Option<VariablesFilter>,
    pub start: i32,
    pub count: i32,
    pub format: Option<ValueFormat>,
}

impl VariablesRequestArguments {
    /// A builder in which every field with a default holds its default.
    pub fn builder() -> (r: VariablesRequestArgumentsBuilder)
        ensures
            r.variables_reference is None,
            r.filter is None,
            r.start == 0,
            r.count == 0,
            r.format is None,
    {
        VariablesRequestArgumentsBuilder {
            variables_reference: None,
            filter: None,
            start: 0,
            count: 0,
            format: None,
        }
    }
}

impl VariablesRequestArgumentsBuilder {
    /// Sets `variables_reference`.
    pub fn variables_reference(self, value: i32) -> (r: VariablesRequestArgumentsBuilder)
        ensures
            r == (VariablesRequestArgumentsBuilder { variables_reference: Some(value), ..self }),
    {
        VariablesRequestArgumentsBuilder { variables_reference: Some(value), ..self }
    }

    /// Sets `filter`.
    pub fn filter(self, value: Option<VariablesFilter>) -> (r: VariablesRequestArgumentsBuilder)
        ensures
            r == (VariablesRequestArgumentsBuilder { filter: value, ..self }),
    {
        VariablesRequestArgumentsBuilder { filter: value, ..self }
    }

    /// Sets `start`.
    pub fn start(self, value: i32) -> (r: VariablesRequestArgumentsBuilder)
        ensures
            r == (VariablesRequestArgumentsBuilder { start: value, ..self }),
    {
        VariablesRequestArgumentsBuilder { start: value, ..self }
    }

    /// Sets `count`.
    pub fn count(self, value: i32) -> (r: VariablesRequestArgumentsBuilder)
        ensures
            r == (VariablesRequestArgumentsBuilder { count: value, ..self }),
    {
        VariablesRequestArgumentsBuilder { count: value, ..self }
    }

    /// Sets `format`.
    pub fn format(self, value: Option<ValueFormat>) -> (r: VariablesRequestArgumentsBuilder)
        ensures
            r == (VariablesRequestArgumentsBuilder { format: value, ..self }),
    {
        VariablesRequestArgumentsBuilder { format: value, ..self }
    }

    /// Whether every field without a default has been set.
    pub open spec fn complete(self) -> bool {
        &&& self.variables_reference is Some
    }

    /// The value with the fields as they were set.
    pub fn build(self) -> (r: VariablesRequestArguments)
        requires
            self.complete(),
        ensures
            r == (VariablesRequestArguments {
                variables_reference: self.variables_reference->Some_0,
                filter: self.filter,
                start: self.start,
                count: self.count,
                format: self.format,
            }),
    {
        VariablesRequestArguments {
            variables_reference: self.variables_reference.unwrap(),
            filter: self.filter,
            start: self.start,
            count: self.count,
            format: self.format,
        }
    }
}

impl From<VariablesRequestArguments> for Request {
    fn from(args: VariablesRequestArguments) -> (r: Request) {
        Request::Variables(args)
    }
}

impl vstd::std_specs::convert::FromSpecImpl<VariablesRequestArguments> for Request {
    open spec fn obeys_from_spec() -> bool {
        true
    }

    open spec fn from_spec(args: VariablesRequestArguments) -> Request {
        Request::Variables(args)
    }
}

impl From<VariablesRequestArguments> for ProtocolMessageContent {
    fn from(args: VariablesRequestArguments) -> (r: ProtocolMessageContent) {
        ProtocolMessageContent::Request(Request::Variables(args))
    }
}

impl vstd::std_specs::convert::FromSpecImpl<VariablesRequestArguments> for ProtocolMessageContent {
    open spec fn obeys_from_spec() -> bool {
        true
    }

    open spec fn from_spec(args: VariablesRequestArguments) -> ProtocolMessageContent {
        ProtocolMessageContent::Request(Request::Variables(args))
    }
}

#[derive(Clone, Copy, Debug, PartialEq, Eq, Structural)]
pub enum VariablesFilter {
    Indexed,
    Named,
}

impl VariablesFilter {
    /// The name under which the value travels.
    pub open spec fn name(self) -> Seq<char> {
        match self {
            VariablesFilter::Indexed => "indexed"@,
            VariablesFilter::Named => "named"@,
        }
    }

    /// The value that travels under `s`, if there is one.
    pub open spec fn named(s: Seq<char>) -> Option<VariablesFilter> {
        if s == "indexed"@ {
            Some(VariablesFilter::Indexed)
        } else if s == "named"@ {
            Some(VariablesFilter::Named)
        } else {
            None
        }
    }

    pub fn as_str(&self) -> (r: &'static str)
        ensures
            r@ == self.name(),
    {
        match self {
            VariablesFilter::Indexed => "indexed",
            VariablesFilter::Named => "named",
        }
    }

    pub fn from_name(s: &str) -> (r: Option<VariablesFilter>)
        ensures
            r == VariablesFilter::named(s@),
    {
        if str_eq(s, "indexed") {
            Some(VariablesFilter::Indexed)
        } else if str_eq(s, "named") {
            Some(VariablesFilter::Named)
        } else {
            None
        }
    }

    /// Every value is found again under its name.
    pub proof fn lemma_named(self)
        ensures
            VariablesFilter::named(self.name()) == Some(self),
    {
        reveal_strlit("indexed");
        reveal_strlit("named");
        assert("indexed"@.len() == 7);
        assert("named"@.len() == 5);
    }
}

impl Wire for VariablesFilter {
    type Model = VariablesFilter;

    open spec fn model(&self) -> VariablesFilter {
        *self
    }

    open spec fn wire_ok(m: VariablesFilter) -> bool {
        true
    }

    open spec fn encode_json(m: VariablesFilter) -> Json {
        Json::Str(m.name())
    }

    open spec fn decode_json(j: Json) -> Result<VariablesFilter, DecodeErrorView> {
        match j {
            Json::Str(s) => match VariablesFilter::named(s) {
                Some(x) => Ok(x),
                None => Err(DecodeErrorView::InvalidType),
            },
            _ => Err(DecodeErrorView::InvalidType),
        }
    }

    fn to_value(&self) -> (r: serde_json::Value) {
        value_string(self.as_str().to_owned())
    }

    fn from_value(v: &serde_json::Value) -> (r: Result<VariablesFilter, DecodeError>) {
        match value_as_str(v) {
            Some(s) => match VariablesFilter::from_name(s) {
                Some(x) => Ok(x),
                None => Err(DecodeError::InvalidType),
            },
            None => Err(DecodeError::InvalidType),
        }
    }

    proof fn lemma_round_trip(m: VariablesFilter) {
        m.lemma_named();
    }
}

} // verus!
