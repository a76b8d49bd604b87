use debug_adapter_protocol::{ProtocolMessage, ProtocolMessageContent};
use debug_adapter_protocol::dictionary::{Dictionary};
use debug_adapter_protocol::requests::{
    AttachRequestArguments, BreakpointLocationsRequestArguments, CancelRequestArguments,
    CompletionsRequestArguments, ContinueRequestArguments, DataBreakpointInfoRequestArguments,
    DisassembleRequestArguments, DisconnectRequestArguments, EvaluateRequestArguments,
    EvaluateRequestContext, ExceptionInfoRequestArguments, GotoRequestArguments,
    GotoTargetsRequestArguments, InitializeRequestArguments, LaunchRequestArguments,
    ModulesRequestArguments, NextRequestArguments, PathFormat, PauseRequestArguments,
    ReadMemoryRequestArguments, Request, RestartFrameRequestArguments,
    ReverseContinueRequestArguments, RunInTerminalRequestArguments, ScopesRequestArguments,
    SetBreakpointsRequestArguments, SetDataBreakpointsRequestArguments,
    SetExceptionBreakpointsRequestArguments, SetExpressionRequestArguments,
    SetFunctionBreakpointsRequestArguments, SetInstructionBreakpointsRequestArguments,
    SetVariableRequestArguments, SourceRequestArguments, StackTraceRequestArguments,
    StepBackRequestArguments, StepInRequestArguments, StepInTargetsRequestArguments,
    StepOutRequestArguments, TerminalKind, TerminateRequestArguments,
    TerminateThreadsRequestArguments, VariablesFilter, VariablesRequestArguments,
};
use debug_adapter_protocol::types::{
    Checksum, ChecksumAlgorithm, DataBreakpoint, DataBreakpointAccessType, ExceptionBreakMode,
    ExceptionFilterOptions, ExceptionOptions, ExceptionPathSegment, FunctionBreakpoint,
    InstructionBreakpoint, Source, SourceBreakpoint, SourcePresentationHint, StackFrameFormat,
    SteppingGranularity, ValueFormat,
};
use debug_adapter_protocol::wire::Wire;
use serde_json::Value;
use std::iter::FromIterator;

fn entries<T: Wire>(list: Vec<(String, T)>) -> Dictionary<T> {
    let mut dictionary = Dictionary::new();
    for (name, value) in list {
        dictionary.insert(name, value);
    }
    dictionary
}

fn keys(value: &Value) -> Vec<&str> {
    value.as_object().unwrap().keys().map(|k| k.as_str()).collect()
}

#[test]
fn round_trip_request_attach() {
    let full = ProtocolMessage {
        seq: 5,
        content: ProtocolMessageContent::Request(
            Request::Attach(
                AttachRequestArguments { restart: Some(Value::String("data".to_string())) },
            ),
        ),
    };
    let value = full.to_value();
    assert_eq!(value["command"], Value::String("attach".to_string()));
    assert_eq!(
        keys(&value["arguments"]),
        vec!["__restart"]
    );
    assert_eq!(ProtocolMessage::from_value(&value), Ok(full.clone()));
    assert_eq!(ProtocolMessage::from_str(&value.to_string()), Ok(full));
    let least = ProtocolMessage {
        seq: 5,
        content: ProtocolMessageContent::Request(
            Request::Attach(AttachRequestArguments { restart: None }),
        ),
    };
    let value = least.to_value();
    assert_eq!(keys(&value["arguments"]), Vec::<&str>::new());
    assert_eq!(ProtocolMessage::from_value(&value), Ok(least));
}

#[test]
fn round_trip_request_breakpoint_locations() {
    let full = ProtocolMessage {
        seq: 5,
        content: ProtocolMessageContent::Request(
            Request::BreakpointLocations(
                BreakpointLocationsRequestArguments {
                    source: Source {
                        name: Some("text".to_string()),
                        path: Some("text".to_string()),
                        source_reference: Some(7),
                        presentation_hint: Some(SourcePresentationHint::Deemphasize),
                        origin: Some("text".to_string()),
                        sources: vec![
                            Source {
                                name: Some("text".to_string()),
                                path: Some("text".to_string()),
                                source_reference: Some(7),
                                presentation_hint: Some(SourcePresentationHint::Deemphasize),
                                origin: Some("text".to_string()),
                                sources: Vec::new(),
                                adapter_data: Some(Value::String("data".to_string())),
                                checksums: vec![
                                    Checksum {
                                        algorithm: ChecksumAlgorithm::Timestamp,
                                        checksum: "text".to_string(),
                                    },
                                ],
                            },
                        ],
                        adapter_data: Some(Value::String("data".to_string())),
                        checksums: vec![
                            Checksum {
                                algorithm: ChecksumAlgorithm::Timestamp,
                                checksum: "text".to_string(),
                            },
                        ],
                    },
                    line: 7,
                    column: Some(7),
                    end_line: Some(7),
                    end_column: Some(7),
                },
            ),
        ),
    };
    let value = full.to_value();
    assert_eq!(value["command"], Value::String("breakpointLocations".to_string()));
    assert_eq!(
        keys(&value["arguments"]),
        vec!["source", "line", "column", "endLine", "endColumn"]
    );
    assert_eq!(ProtocolMessage::from_value(&value), Ok(full.clone()));
    assert_eq!(ProtocolMessage::from_str(&value.to_string()), Ok(full));
    let least = ProtocolMessage {
        seq: 5,
        content: ProtocolMessageContent::Request(
            Request::BreakpointLocations(
                BreakpointLocationsRequestArguments {
                    source: Source {
                        name: None,
                        path: None,
                        source_reference: None,
                        presentation_hint: None,
                        origin: None,
                        sources: Vec::new(),
                        adapter_data: None,
                        checksums: Vec::new(),
                    },
                    line: 1,
                    column: None,
                    end_line: None,
                    end_column: None,
                },
            ),
        ),
    };
    let value = least.to_value();
    assert_eq!(keys(&value["arguments"]), vec!["source", "line"]);
    assert_eq!(ProtocolMessage::from_value(&value), Ok(least));
}

#[test]
fn round_trip_request_cancel() {
    let full = ProtocolMessage {
        seq: 5,
        content: ProtocolMessageContent::Request(
            Request::Cancel(
                CancelRequestArguments {
                    request_id: Some(7),
                    progress_id: Some("text".to_string()),
                },
            ),
        ),
    };
    let value = full.to_value();
    assert_eq!(value["command"], Value::String("cancel".to_string()));
    assert_eq!(
        keys(&value["arguments"]),
        vec!["requestId", "progressId"]
    );
    assert_eq!(ProtocolMessage::from_value(&value), Ok(full.clone()));
    assert_eq!(ProtocolMessage::from_str(&value.to_string()), Ok(full));
    let least = ProtocolMessage {
        seq: 5,
        content: ProtocolMessageContent::Request(
            Request::Cancel(CancelRequestArguments { request_id: None, progress_id: None }),
        ),
    };
    let value = least.to_value();
    assert_eq!(keys(&value["arguments"]), Vec::<&str>::new());
    assert_eq!(ProtocolMessage::from_value(&value), Ok(least));
}

#[test]
fn round_trip_request_completions() {
    let full = ProtocolMessage {
        seq: 5,
        content: ProtocolMessageContent::Request(
            Request::Completions(
                CompletionsRequestArguments {
                    frame_id: Some(7),
                    text: "text".to_string(),
                    column: 7,
                    line: Some(7),
                },
            ),
        ),
    };
    let value = full.to_value();
    assert_eq!(value["command"], Value::String("completions".to_string()));
    assert_eq!(
        keys(&value["arguments"]),
        vec!["frameId", "text", "column", "line"]
    );
    assert_eq!(ProtocolMessage::from_value(&value), Ok(full.clone()));
    assert_eq!(ProtocolMessage::from_str(&value.to_string()), Ok(full));
    let least = ProtocolMessage {
        seq: 5,
        content: ProtocolMessageContent::Request(
            Request::Completions(
                CompletionsRequestArguments {
                    frame_id: None,
                    text: "text".to_string(),
                    column: 1,
                    line: None,
                },
            ),
        ),
    };
    let value = least.to_value();
    assert_eq!(keys(&value["arguments"]), vec!["text", "column"]);
    assert_eq!(ProtocolMessage::from_value(&value), Ok(least));
}

#[test]
fn round_trip_request_configuration_done() {
    let message = ProtocolMessage {
        seq: 5,
        content: ProtocolMessageContent::Request(Request::ConfigurationDone),
    };
    let value = message.to_value();
    assert_eq!(value["command"], Value::String("configurationDone".to_string()));
    assert!(value.get("arguments").is_none());
    assert_eq!(ProtocolMessage::from_value(&value), Ok(message.clone()));
    assert_eq!(ProtocolMessage::from_str(&value.to_string()), Ok(message));
}

#[test]
fn round_trip_request_continue() {
    let full = ProtocolMessage {
        seq: 5,
        content: ProtocolMessageContent::Request(
            Request::Continue(ContinueRequestArguments { thread_id: 7 }),
        ),
    };
    let value = full.to_value();
    assert_eq!(value["command"], Value::String("continue".to_string()));
    assert_eq!(
        keys(&value["arguments"]),
        vec!["threadId"]
    );
    assert_eq!(ProtocolMessage::from_value(&value), Ok(full.clone()));
    assert_eq!(ProtocolMessage::from_str(&value.to_string()), Ok(full));
    let least = ProtocolMessage {
        seq: 5,
        content: ProtocolMessageContent::Request(
            Request::Continue(ContinueRequestArguments { thread_id: 1 }),
        ),
    };
    let value = least.to_value();
    assert_eq!(keys(&value["arguments"]), vec!["threadId"]);
    assert_eq!(ProtocolMessage::from_value(&value), Ok(least));
}

#[test]
fn round_trip_request_data_breakpoint_info() {
    let full = ProtocolMessage {
        seq: 5,
        content: ProtocolMessageContent::Request(
            Request::DataBreakpointInfo(
                DataBreakpointInfoRequestArguments {
                    variables_reference: Some(7),
                    name: "text".to_string(),
                },
            ),
        ),
    };
    let value = full.to_value();
    assert_eq!(value["command"], Value::String("dataBreakpointInfo".to_string()));
    assert_eq!(
        keys(&value["arguments"]),
        vec!["variablesReference", "name"]
    );
    assert_eq!(ProtocolMessage::from_value(&value), Ok(full.clone()));
    assert_eq!(ProtocolMessage::from_str(&value.to_string()), Ok(full));
    let least = ProtocolMessage {
        seq: 5,
        content: ProtocolMessageContent::Request(
            Request::DataBreakpointInfo(
                DataBreakpointInfoRequestArguments {
                    variables_reference: None,
                    name: "text".to_string(),
                },
            ),
        ),
    };
    let value = least.to_value();
    assert_eq!(keys(&value["arguments"]), vec!["name"]);
    assert_eq!(ProtocolMessage::from_value(&value), Ok(least));
}

#[test]
fn round_trip_request_disassemble() {
    let full = ProtocolMessage {
        seq: 5,
        content: ProtocolMessageContent::Request(
            Request::Disassemble(
                DisassembleRequestArguments {
                    memory_reference: "text".to_string(),
                    offset: 7,
                    instruction_offset: 7,
                    instruction_count: 7,
                    resolve_symbols: true,
                },
            ),
        ),
    };
    let value = full.to_value();
    assert_eq!(value["command"], Value::String("disassemble".to_string()));
    assert_eq!(
        keys(&value["arguments"]),
        vec![
            "memoryReference",
            "offset",
            "instructionOffset",
            "instructionCount",
            "resolveSymbols",
        ]
    );
    assert_eq!(ProtocolMessage::from_value(&value), Ok(full.clone()));
    assert_eq!(ProtocolMessage::from_str(&value.to_string()), Ok(full));
    let least = ProtocolMessage {
        seq: 5,
        content: ProtocolMessageContent::Request(
            Request::Disassemble(
                DisassembleRequestArguments {
                    memory_reference: "text".to_string(),
                    offset: 0,
                    instruction_offset: 0,
                    instruction_count: 1,
                    resolve_symbols: false,
                },
            ),
        ),
    };
    let value = least.to_value();
    assert_eq!(keys(&value["arguments"]), vec!["memoryReference", "instructionCount"]);
    assert_eq!(ProtocolMessage::from_value(&value), Ok(least));
}

#[test]
fn round_trip_request_disconnect() {
    let full = ProtocolMessage {
        seq: 5,
        content: ProtocolMessageContent::Request(
            Request::Disconnect(
                DisconnectRequestArguments {
                    restart: true,
                    terminate_debuggee: Some(true),
                    suspend_debuggee: true,
                },
            ),
        ),
    };
    let value = full.to_value();
    assert_eq!(value["command"], Value::String("disconnect".to_string()));
    assert_eq!(
        keys(&value["arguments"]),
        vec!["restart", "terminateDebuggee", "suspendDebuggee"]
    );
    assert_eq!(ProtocolMessage::from_value(&value), Ok(full.clone()));
    assert_eq!(ProtocolMessage::from_str(&value.to_string()), Ok(full));
    let least = ProtocolMessage {
        seq: 5,
        content: ProtocolMessageContent::Request(
            Request::Disconnect(
                DisconnectRequestArguments {
                    restart: false,
                    terminate_debuggee: None,
                    suspend_debuggee: false,
                },
            ),
        ),
    };
    let value = least.to_value();
    assert_eq!(keys(&value["arguments"]), Vec::<&str>::new());
    assert_eq!(ProtocolMessage::from_value(&value), Ok(least));
}

#[test]
fn round_trip_request_evaluate() {
    let full = ProtocolMessage {
        seq: 5,
        content: ProtocolMessageContent::Request(
            Request::Evaluate(
                EvaluateRequestArguments {
                    expression: "text".to_string(),
                    frame_id: Some(7),
                    context: Some(EvaluateRequestContext::Clipboard),
                    format: Some(ValueFormat { hex: Some(true) }),
                },
            ),
        ),
    };
    let value = full.to_value();
    assert_eq!(value["command"], Value::String("evaluate".to_string()));
    assert_eq!(
        keys(&value["arguments"]),
        vec!["expression", "frameId", "context", "format"]
    );
    assert_eq!(ProtocolMessage::from_value(&value), Ok(full.clone()));
    assert_eq!(ProtocolMessage::from_str(&value.to_string()), Ok(full));
    let least = ProtocolMessage {
        seq: 5,
        content: ProtocolMessageContent::Request(
            Request::Evaluate(
                EvaluateRequestArguments {
                    expression: "text".to_string(),
                    frame_id: None,
                    context: None,
                    format: None,
                },
            ),
        ),
    };
    let value = least.to_value();
    assert_eq!(keys(&value["arguments"]), vec!["expression"]);
    assert_eq!(ProtocolMessage::from_value(&value), Ok(least));
}

#[test]
fn round_trip_request_exception_info() {
    let full = ProtocolMessage {
        seq: 5,
        content: ProtocolMessageContent::Request(
            Request::ExceptionInfo(ExceptionInfoRequestArguments { thread_id: 7 }),
        ),
    };
    let value = full.to_value();
    assert_eq!(value["command"], Value::String("exceptionInfo".to_string()));
    assert_eq!(
        keys(&value["arguments"]),
        vec!["threadId"]
    );
    assert_eq!(ProtocolMessage::from_value(&value), Ok(full.clone()));
    assert_eq!(ProtocolMessage::from_str(&value.to_string()), Ok(full));
    let least = ProtocolMessage {
        seq: 5,
        content: ProtocolMessageContent::Request(
            Request::ExceptionInfo(ExceptionInfoRequestArguments { thread_id: 1 }),
        ),
    };
    let value = least.to_value();
    assert_eq!(keys(&value["arguments"]), vec!["threadId"]);
    assert_eq!(ProtocolMessage::from_value(&value), Ok(least));
}

#[test]
fn round_trip_request_goto() {
    let full = ProtocolMessage {
        seq: 5,
        content: ProtocolMessageContent::Request(
            Request::Goto(GotoRequestArguments { thread_id: 7, target_id: 7 }),
        ),
    };
    let value = full.to_value();
    assert_eq!(value["command"], Value::String("goto".to_string()));
    assert_eq!(
        keys(&value["arguments"]),
        vec!["threadId", "targetId"]
    );
    assert_eq!(ProtocolMessage::from_value(&value), Ok(full.clone()));
    assert_eq!(ProtocolMessage::from_str(&value.to_string()), Ok(full));
    let least = ProtocolMessage {
        seq: 5,
        content: ProtocolMessageContent::Request(
            Request::Goto(GotoRequestArguments { thread_id: 1, target_id: 1 }),
        ),
    };
    let value = least.to_value();
    assert_eq!(keys(&value["arguments"]), vec!["threadId", "targetId"]);
    assert_eq!(ProtocolMessage::from_value(&value), Ok(least));
}

#[test]
fn round_trip_request_goto_targets() {
    let full = ProtocolMessage {
        seq: 5,
        content: ProtocolMessageContent::Request(
            Request::GotoTargets(
                GotoTargetsRequestArguments {
                    source: Source {
                        name: Some("text".to_string()),
                        path: Some("text".to_string()),
                        source_reference: Some(7),
                        presentation_hint: Some(SourcePresentationHint::Deemphasize),
                        origin: Some("text".to_string()),
                        sources: vec![
                            Source {
                                name: Some("text".to_string()),
                                path: Some("text".to_string()),
                                source_reference: Some(7),
                                presentation_hint: Some(SourcePresentationHint::Deemphasize),
                                origin: Some("text".to_string()),
                                sources: Vec::new(),
                                adapter_data: Some(Value::String("data".to_string())),
                                checksums: vec![
                                    Checksum {
                                        algorithm: ChecksumAlgorithm::Timestamp,
                                        checksum: "text".to_string(),
                                    },
                                ],
                            },
                        ],
                        adapter_data: Some(Value::String("data".to_string())),
                        checksums: vec![
                            Checksum {
                                algorithm: ChecksumAlgorithm::Timestamp,
                                checksum: "text".to_string(),
                            },
                        ],
                    },
                    line: 7,
                    column: Some(7),
                },
            ),
        ),
    };
    let value = full.to_value();
    assert_eq!(value["command"], Value::String("gotoTargets".to_string()));
    assert_eq!(
        keys(&value["arguments"]),
        vec!["source", "line", "column"]
    );
    assert_eq!(ProtocolMessage::from_value(&value), Ok(full.clone()));
    assert_eq!(ProtocolMessage::from_str(&value.to_string()), Ok(full));
    let least = ProtocolMessage {
        seq: 5,
        content: ProtocolMessageContent::Request(
            Request::GotoTargets(
                GotoTargetsRequestArguments {
                    source: Source {
                        name: None,
                        path: None,
                        source_reference: None,
                        presentation_hint: None,
                        origin: None,
                        sources: Vec::new(),
                        adapter_data: None,
                        checksums: Vec::new(),
                    },
                    line: 1,
                    column: None,
                },
            ),
        ),
    };
    let value = least.to_value();
    assert_eq!(keys(&value["arguments"]), vec!["source", "line"]);
    assert_eq!(ProtocolMessage::from_value(&value), Ok(least));
}

#[test]
fn round_trip_request_initialize() {
    let full = ProtocolMessage {
        seq: 5,
        content: ProtocolMessageContent::Request(
            Request::Initialize(
                InitializeRequestArguments {
                    client_id: Some("text".to_string()),
                    client_name: Some("text".to_string()),
                    adapter_id: "text".to_string(),
                    locale: Some("text".to_string()),
                    lines_start_at_1: true,
                    columns_start_at_1: true,
                    path_format: PathFormat::URI,
                    supports_variable_type: true,
                    supports_variable_paging: true,
                    supports_run_in_terminal_request: true,
                    supports_memory_references: true,
                    supports_progress_reporting: true,
                    supports_invalidated_event: true,
                },
            ),
        ),
    };
    let value = full.to_value();
    assert_eq!(value["command"], Value::String("initialize".to_string()));
    assert_eq!(
        keys(&value["arguments"]),
        vec![
            "clientID",
            "clientName",
            "adapterID",
            "locale",
            "linesStartAt1",
            "columnsStartAt1",
            "pathFormat",
            "supportsVariableType",
            "supportsVariablePaging",
            "supportsRunInTerminalRequest",
            "supportsMemoryReferences",
            "supportsProgressReporting",
            "supportsInvalidatedEvent",
        ]
    );
    assert_eq!(ProtocolMessage::from_value(&value), Ok(full.clone()));
    assert_eq!(ProtocolMessage::from_str(&value.to_string()), Ok(full));
    let least = ProtocolMessage {
        seq: 5,
        content: ProtocolMessageContent::Request(
            Request::Initialize(
                InitializeRequestArguments {
                    client_id: None,
                    client_name: None,
                    adapter_id: "text".to_string(),
                    locale: None,
                    lines_start_at_1: true,
                    columns_start_at_1: true,
                    path_format: PathFormat::Path,
                    supports_variable_type: false,
                    supports_variable_paging: false,
                    supports_run_in_terminal_request: false,
                    supports_memory_references: false,
                    supports_progress_reporting: false,
                    supports_invalidated_event: false,
                },
            ),
        ),
    };
    let value = least.to_value();
    assert_eq!(keys(&value["arguments"]), vec!["adapterID", "linesStartAt1", "columnsStartAt1"]);
    assert_eq!(ProtocolMessage::from_value(&value), Ok(least));
}

#[test]
fn round_trip_request_launch() {
    let full = ProtocolMessage {
        seq: 5,
        content: ProtocolMessageContent::Request(
            Request::Launch(
                LaunchRequestArguments {
                    no_debug: true,
                    restart: Some(Value::String("data".to_string())),
                    additional_attributes: serde_json::Map::from_iter([("custom".to_string(), Value::Bool(true))]),
                },
            ),
        ),
    };
    let value = full.to_value();
    assert_eq!(value["command"], Value::String("launch".to_string()));
    assert_eq!(
        keys(&value["arguments"]),
        vec!["noDebug", "__restart", "custom"]
    );
    assert_eq!(ProtocolMessage::from_value(&value), Ok(full.clone()));
    assert_eq!(ProtocolMessage::from_str(&value.to_string()), Ok(full));
    let least = ProtocolMessage {
        seq: 5,
        content: ProtocolMessageContent::Request(
            Request::Launch(
                LaunchRequestArguments {
                    no_debug: false,
                    restart: None,
                    additional_attributes: serde_json::Map::new(),
                },
            ),
        ),
    };
    let value = least.to_value();
    assert_eq!(keys(&value["arguments"]), Vec::<&str>::new());
    assert_eq!(ProtocolMessage::from_value(&value), Ok(least));
}

#[test]
fn round_trip_request_loaded_sources() {
    let message = ProtocolMessage { seq: 5, content: ProtocolMessageContent::Request(Request::LoadedSources) };
    let value = message.to_value();
    assert_eq!(value["command"], Value::String("loadedSources".to_string()));
    assert!(value.get("arguments").is_none());
    assert_eq!(ProtocolMessage::from_value(&value), Ok(message.clone()));
    assert_eq!(ProtocolMessage::from_str(&value.to_string()), Ok(message));
}

#[test]
fn round_trip_request_modules() {
    let full = ProtocolMessage {
        seq: 5,
        content: ProtocolMessageContent::Request(
            Request::Modules(ModulesRequestArguments { start_module: 7, module_count: 7 }),
        ),
    };
    let value = full.to_value();
    assert_eq!(value["command"], Value::String("modules".to_string()));
    assert_eq!(
        keys(&value["arguments"]),
        vec!["startModule", "moduleCount"]
    );
    assert_eq!(ProtocolMessage::from_value(&value), Ok(full.clone()));
    assert_eq!(ProtocolMessage::from_str(&value.to_string()), Ok(full));
    let least = ProtocolMessage {
        seq: 5,
        content: ProtocolMessageContent::Request(
            Request::Modules(ModulesRequestArguments { start_module: 0, module_count: 0 }),
        ),
    };
    let value = least.to_value();
    assert_eq!(keys(&value["arguments"]), Vec::<&str>::new());
    assert_eq!(ProtocolMessage::from_value(&value), Ok(least));
}

#[test]
fn round_trip_request_next() {
    let full = ProtocolMessage {
        seq: 5,
        content: ProtocolMessageContent::Request(
            Request::Next(
                NextRequestArguments {
                    thread_id: 7,
                    granularity: SteppingGranularity::Instruction,
                },
            ),
        ),
    };
    let value = full.to_value();
    assert_eq!(value["command"], Value::String("next".to_string()));
    assert_eq!(
        keys(&value["arguments"]),
        vec!["threadId", "granularity"]
    );
    assert_eq!(ProtocolMessage::from_value(&value), Ok(full.clone()));
    assert_eq!(ProtocolMessage::from_str(&value.to_string()), Ok(full));
    let least = ProtocolMessage {
        seq: 5,
        content: ProtocolMessageContent::Request(
            Request::Next(
                NextRequestArguments {
                    thread_id: 1,
                    granularity: SteppingGranularity::Statement,
                },
            ),
        ),
    };
    let value = least.to_value();
    assert_eq!(keys(&value["arguments"]), vec!["threadId"]);
    assert_eq!(ProtocolMessage::from_value(&value), Ok(least));
}

#[test]
fn round_trip_request_pause() {
    let full = ProtocolMessage {
        seq: 5,
        content: ProtocolMessageContent::Request(Request::Pause(PauseRequestArguments { thread_id: 7 })),
    };
    let value = full.to_value();
    assert_eq!(value["command"], Value::String("pause".to_string()));
    assert_eq!(
        keys(&value["arguments"]),
        vec!["threadId"]
    );
    assert_eq!(ProtocolMessage::from_value(&value), Ok(full.clone()));
    assert_eq!(ProtocolMessage::from_str(&value.to_string()), Ok(full));
    let least = ProtocolMessage {
        seq: 5,
        content: ProtocolMessageContent::Request(Request::Pause(PauseRequestArguments { thread_id: 1 })),
    };
    let value = least.to_value();
    assert_eq!(keys(&value["arguments"]), vec!["threadId"]);
    assert_eq!(ProtocolMessage::from_value(&value), Ok(least));
}

#[test]
fn round_trip_request_read_memory() {
    let full = ProtocolMessage {
        seq: 5,
        content: ProtocolMessageContent::Request(
            Request::ReadMemory(
                ReadMemoryRequestArguments {
                    memory_reference: "text".to_string(),
                    offset: 7,
                    count: 7,
                },
            ),
        ),
    };
    let value = full.to_value();
    assert_eq!(value["command"], Value::String("readMemory".to_string()));
    assert_eq!(
        keys(&value["arguments"]),
        vec!["memoryReference", "offset", "count"]
    );
    assert_eq!(ProtocolMessage::from_value(&value), Ok(full.clone()));
    assert_eq!(ProtocolMessage::from_str(&value.to_string()), Ok(full));
    let least = ProtocolMessage {
        seq: 5,
        content: ProtocolMessageContent::Request(
            Request::ReadMemory(
                ReadMemoryRequestArguments {
                    memory_reference: "text".to_string(),
                    offset: 0,
                    count: 1,
                },
            ),
        ),
    };
    let value = least.to_value();
    assert_eq!(keys(&value["arguments"]), vec!["memoryReference", "count"]);
    assert_eq!(ProtocolMessage::from_value(&value), Ok(least));
}

#[test]
fn round_trip_request_restart_frame() {
    let full = ProtocolMessage {
        seq: 5,
        content: ProtocolMessageContent::Request(
            Request::RestartFrame(RestartFrameRequestArguments { frame_id: 7 }),
        ),
    };
    let value = full.to_value();
    assert_eq!(value["command"], Value::String("restartFrame".to_string()));
    assert_eq!(
        keys(&value["arguments"]),
        vec!["frameId"]
    );
    assert_eq!(ProtocolMessage::from_value(&value), Ok(full.clone()));
    assert_eq!(ProtocolMessage::from_str(&value.to_string()), Ok(full));
    let least = ProtocolMessage {
        seq: 5,
        content: ProtocolMessageContent::Request(
            Request::RestartFrame(RestartFrameRequestArguments { frame_id: 1 }),
        ),
    };
    let value = least.to_value();
    assert_eq!(keys(&value["arguments"]), vec!["frameId"]);
    assert_eq!(ProtocolMessage::from_value(&value), Ok(least));
}

#[test]
fn round_trip_request_reverse_continue() {
    let full = ProtocolMessage {
        seq: 5,
        content: ProtocolMessageContent::Request(
            Request::ReverseContinue(ReverseContinueRequestArguments { thread_id: 7 }),
        ),
    };
    let value = full.to_value();
    assert_eq!(value["command"], Value::String("reverseContinue".to_string()));
    assert_eq!(
        keys(&value["arguments"]),
        vec!["threadId"]
    );
    assert_eq!(ProtocolMessage::from_value(&value), Ok(full.clone()));
    assert_eq!(ProtocolMessage::from_str(&value.to_string()), Ok(full));
    let least = ProtocolMessage {
        seq: 5,
        content: ProtocolMessageContent::Request(
            Request::ReverseContinue(ReverseContinueRequestArguments { thread_id: 1 }),
        ),
    };
    let value = least.to_value();
    assert_eq!(keys(&value["arguments"]), vec!["threadId"]);
    assert_eq!(ProtocolMessage::from_value(&value), Ok(least));
}

#[test]
fn round_trip_request_run_in_terminal() {
    let full = ProtocolMessage {
        seq: 5,
        content: ProtocolMessageContent::Request(
            Request::RunInTerminal(
                RunInTerminalRequestArguments {
                    kind: Some(TerminalKind::External),
                    title: Some("text".to_string()),
                    cwd: "text".to_string(),
                    args: vec!["text".to_string()],
                    env: entries(vec![("KEY".to_string(), Some("text".to_string()))]),
                },
            ),
        ),
    };
    let value = full.to_value();
    assert_eq!(value["command"], Value::String("runInTerminal".to_string()));
    assert_eq!(
        keys(&value["arguments"]),
        vec!["kind", "title", "cwd", "args", "env"]
    );
    assert_eq!(ProtocolMessage::from_value(&value), Ok(full.clone()));
    assert_eq!(ProtocolMessage::from_str(&value.to_string()), Ok(full));
    let least = ProtocolMessage {
        seq: 5,
        content: ProtocolMessageContent::Request(
            Request::RunInTerminal(
                RunInTerminalRequestArguments {
                    kind: None,
                    title: None,
                    cwd: "text".to_string(),
                    args: Vec::new(),
                    env: Dictionary::new(),
                },
            ),
        ),
    };
    let value = least.to_value();
    assert_eq!(keys(&value["arguments"]), vec!["cwd", "args"]);
    assert_eq!(ProtocolMessage::from_value(&value), Ok(least));
}

#[test]
fn round_trip_request_scopes() {
    let full = ProtocolMessage {
        seq: 5,
        content: ProtocolMessageContent::Request(Request::Scopes(ScopesRequestArguments { frame_id: 7 })),
    };
    let value = full.to_value();
    assert_eq!(value["command"], Value::String("scopes".to_string()));
    assert_eq!(
        keys(&value["arguments"]),
        vec!["frameId"]
    );
    assert_eq!(ProtocolMessage::from_value(&value), Ok(full.clone()));
    assert_eq!(ProtocolMessage::from_str(&value.to_string()), Ok(full));
    let least = ProtocolMessage {
        seq: 5,
        content: ProtocolMessageContent::Request(Request::Scopes(ScopesRequestArguments { frame_id: 1 })),
    };
    let value = least.to_value();
    assert_eq!(keys(&value["arguments"]), vec!["frameId"]);
    assert_eq!(ProtocolMessage::from_value(&value), Ok(least));
}

#[test]
fn round_trip_request_set_breakpoints() {
    let full = ProtocolMessage {
        seq: 5,
        content: ProtocolMessageContent::Request(
            Request::SetBreakpoints(
                SetBreakpointsRequestArguments {
                    source: Source {
                        name: Some("text".to_string()),
                        path: Some("text".to_string()),
                        source_reference: Some(7),
                        presentation_hint: Some(SourcePresentationHint::Deemphasize),
                        origin: Some("text".to_string()),
                        sources: vec![
                            Source {
                                name: Some("text".to_string()),
                                path: Some("text".to_string()),
                                source_reference: Some(7),
                                presentation_hint: Some(SourcePresentationHint::Deemphasize),
                                origin: Some("text".to_string()),
                                sources: Vec::new(),
                                adapter_data: Some(Value::String("data".to_string())),
                                checksums: vec![
                                    Checksum {
                                        algorithm: ChecksumAlgorithm::Timestamp,
                                        checksum: "text".to_string(),
                                    },
                                ],
                            },
                        ],
                        adapter_data: Some(Value::String("data".to_string())),
                        checksums: vec![
                            Checksum {
                                algorithm: ChecksumAlgorithm::Timestamp,
                                checksum: "text".to_string(),
                            },
                        ],
                    },
                    breakpoints: vec![
                        SourceBreakpoint {
                            line: 7,
                            column: Some(7),
                            condition: Some("text".to_string()),
                            hit_condition: Some("text".to_string()),
                            log_message: Some("text".to_string()),
                        },
                    ],
                    lines: vec![7],
                    source_modified: true,
                },
            ),
        ),
    };
    let value = full.to_value();
    assert_eq!(value["command"], Value::String("setBreakpoints".to_string()));
    assert_eq!(
        keys(&value["arguments"]),
        vec!["source", "breakpoints", "lines", "sourceModified"]
    );
    assert_eq!(ProtocolMessage::from_value(&value), Ok(full.clone()));
    assert_eq!(ProtocolMessage::from_str(&value.to_string()), Ok(full));
    let least = ProtocolMessage {
        seq: 5,
        content: ProtocolMessageContent::Request(
            Request::SetBreakpoints(
                SetBreakpointsRequestArguments {
                    source: Source {
                        name: None,
                        path: None,
                        source_reference: None,
                        presentation_hint: None,
                        origin: None,
                        sources: Vec::new(),
                        adapter_data: None,
                        checksums: Vec::new(),
                    },
                    breakpoints: Vec::new(),
                    lines: Vec::new(),
                    source_modified: false,
                },
            ),
        ),
    };
    let value = least.to_value();
    assert_eq!(keys(&value["arguments"]), vec!["source"]);
    assert_eq!(ProtocolMessage::from_value(&value), Ok(least));
}

#[test]
fn round_trip_request_set_data_breakpoints() {
    let full = ProtocolMessage {
        seq: 5,
        content: ProtocolMessageContent::Request(
            Request::SetDataBreakpoints(
                SetDataBreakpointsRequestArguments {
                    breakpoints: vec![
                        DataBreakpoint {
                            data_id: "text".to_string(),
                            access_type: Some(DataBreakpointAccessType::ReadWrite),
                            condition: Some("text".to_string()),
                            hit_condition: Some("text".to_string()),
                        },
                    ],
                },
            ),
        ),
    };
    let value = full.to_value();
    assert_eq!(value["command"], Value::String("setDataBreakpoints".to_string()));
    assert_eq!(
        keys(&value["arguments"]),
        vec!["breakpoints"]
    );
    assert_eq!(ProtocolMessage::from_value(&value), Ok(full.clone()));
    assert_eq!(ProtocolMessage::from_str(&value.to_string()), Ok(full));
    let least = ProtocolMessage {
        seq: 5,
        content: ProtocolMessageContent::Request(
            Request::SetDataBreakpoints(
                SetDataBreakpointsRequestArguments { breakpoints: Vec::new() },
            ),
        ),
    };
    let value = least.to_value();
    assert_eq!(keys(&value["arguments"]), vec!["breakpoints"]);
    assert_eq!(ProtocolMessage::from_value(&value), Ok(least));
}

#[test]
fn round_trip_request_set_exception_breakpoints() {
    let full = ProtocolMessage {
        seq: 5,
        content: ProtocolMessageContent::Request(
            Request::SetExceptionBreakpoints(
                SetExceptionBreakpointsRequestArguments {
                    filters: vec!["text".to_string()],
                    filter_options: vec![
                        ExceptionFilterOptions {
                            filter_id: "text".to_string(),
                            condition: Some("text".to_string()),
                        },
                    ],
                    exception_options: vec![
                        ExceptionOptions {
                            path: vec![
                                ExceptionPathSegment {
                                    negate: true,
                                    names: vec!["text".to_string()],
                                },
                            ],
                            break_mode: ExceptionBreakMode::UserUnhandled,
                        },
                    ],
                },
            ),
        ),
    };
    let value = full.to_value();
    assert_eq!(value["command"], Value::String("setExceptionBreakpoints".to_string()));
    assert_eq!(
        keys(&value["arguments"]),
        vec!["filters", "filterOptions", "exceptionOptions"]
    );
    assert_eq!(ProtocolMessage::from_value(&value), Ok(full.clone()));
    assert_eq!(ProtocolMessage::from_str(&value.to_string()), Ok(full));
    let least = ProtocolMessage {
        seq: 5,
        content: ProtocolMessageContent::Request(
            Request::SetExceptionBreakpoints(
                SetExceptionBreakpointsRequestArguments {
                    filters: Vec::new(),
                    filter_options: Vec::new(),
                    exception_options: Vec::new(),
                },
            ),
        ),
    };
    let value = least.to_value();
    assert_eq!(keys(&value["arguments"]), vec!["filters"]);
    assert_eq!(ProtocolMessage::from_value(&value), Ok(least));
}

#[test]
fn round_trip_request_set_expression() {
    let full = ProtocolMessage {
        seq: 5,
        content: ProtocolMessageContent::Request(
            Request::SetExpression(
                SetExpressionRequestArguments {
                    expression: "text".to_string(),
                    value: "text".to_string(),
                    frame_id: Some(7),
                    format: Some(ValueFormat { hex: Some(true) }),
                },
            ),
        ),
    };
    let value = full.to_value();
    assert_eq!(value["command"], Value::String("setExpression".to_string()));
    assert_eq!(
        keys(&value["arguments"]),
        vec!["expression", "value", "frameId", "format"]
    );
    assert_eq!(ProtocolMessage::from_value(&value), Ok(full.clone()));
    assert_eq!(ProtocolMessage::from_str(&value.to_string()), Ok(full));
    let least = ProtocolMessage {
        seq: 5,
        content: ProtocolMessageContent::Request(
            Request::SetExpression(
                SetExpressionRequestArguments {
                    expression: "text".to_string(),
                    value: "text".to_string(),
                    frame_id: None,
                    format: None,
                },
            ),
        ),
    };
    let value = least.to_value();
    assert_eq!(keys(&value["arguments"]), vec!["expression", "value"]);
    assert_eq!(ProtocolMessage::from_value(&value), Ok(least));
}

#[test]
fn round_trip_request_set_function_breakpoints() {
    let full = ProtocolMessage {
        seq: 5,
        content: ProtocolMessageContent::Request(
            Request::SetFunctionBreakpoints(
                SetFunctionBreakpointsRequestArguments {
                    breakpoints: vec![
                        FunctionBreakpoint {
                            name: "text".to_string(),
                            condition: Some("text".to_string()),
                            hit_condition: Some("text".to_string()),
                        },
                    ],
                },
            ),
        ),
    };
    let value = full.to_value();
    assert_eq!(value["command"], Value::String("setFunctionBreakpoints".to_string()));
    assert_eq!(
        keys(&value["arguments"]),
        vec!["breakpoints"]
    );
    assert_eq!(ProtocolMessage::from_value(&value), Ok(full.clone()));
    assert_eq!(ProtocolMessage::from_str(&value.to_string()), Ok(full));
    let least = ProtocolMessage {
        seq: 5,
        content: ProtocolMessageContent::Request(
            Request::SetFunctionBreakpoints(
                SetFunctionBreakpointsRequestArguments { breakpoints: Vec::new() },
            ),
        ),
    };
    let value = least.to_value();
    assert_eq!(keys(&value["arguments"]), vec!["breakpoints"]);
    assert_eq!(ProtocolMessage::from_value(&value), Ok(least));
}

#[test]
fn round_trip_request_set_instruction_breakpoints() {
    let full = ProtocolMessage {
        seq: 5,
        content: ProtocolMessageContent::Request(
            Request::SetInstructionBreakpoints(
                SetInstructionBreakpointsRequestArguments {
                    breakpoints: vec![
                        InstructionBreakpoint {
                            instruction_reference: "text".to_string(),
                            offset: Some(7),
                            condition: Some("text".to_string()),
                            hit_condition: Some("text".to_string()),
                        },
                    ],
                },
            ),
        ),
    };
    let value = full.to_value();
    assert_eq!(value["command"], Value::String("setInstructionBreakpoints".to_string()));
    assert_eq!(
        keys(&value["arguments"]),
        vec!["breakpoints"]
    );
    assert_eq!(ProtocolMessage::from_value(&value), Ok(full.clone()));
    assert_eq!(ProtocolMessage::from_str(&value.to_string()), Ok(full));
    let least = ProtocolMessage {
        seq: 5,
        content: ProtocolMessageContent::Request(
            Request::SetInstructionBreakpoints(
                SetInstructionBreakpointsRequestArguments { breakpoints: Vec::new() },
            ),
        ),
    };
    let value = least.to_value();
    assert_eq!(keys(&value["arguments"]), vec!["breakpoints"]);
    assert_eq!(ProtocolMessage::from_value(&value), Ok(least));
}

#[test]
fn round_trip_request_set_variable() {
    let full = ProtocolMessage {
        seq: 5,
        content: ProtocolMessageContent::Request(
            Request::SetVariable(
                SetVariableRequestArguments {
                    variables_reference: 7,
                    name: "text".to_string(),
                    value: "text".to_string(),
                    format: Some(ValueFormat { hex: Some(true) }),
                },
            ),
        ),
    };
    let value = full.to_value();
    assert_eq!(value["command"], Value::String("setVariable".to_string()));
    assert_eq!(
        keys(&value["arguments"]),
        vec!["variablesReference", "name", "value", "format"]
    );
    assert_eq!(ProtocolMessage::from_value(&value), Ok(full.clone()));
    assert_eq!(ProtocolMessage::from_str(&value.to_string()), Ok(full));
    let least = ProtocolMessage {
        seq: 5,
        content: ProtocolMessageContent::Request(
            Request::SetVariable(
                SetVariableRequestArguments {
                    variables_reference: 1,
                    name: "text".to_string(),
                    value: "text".to_string(),
                    format: None,
                },
            ),
        ),
    };
    let value = least.to_value();
    assert_eq!(keys(&value["arguments"]), vec!["variablesReference", "name", "value"]);
    assert_eq!(ProtocolMessage::from_value(&value), Ok(least));
}

#[test]
fn round_trip_request_source() {
    let full = ProtocolMessage {
        seq: 5,
        content: ProtocolMessageContent::Request(
            Request::Source(
                SourceRequestArguments {
                    source: Some(
                        Source {
                            name: Some("text".to_string()),
                            path: Some("text".to_string()),
                            source_reference: Some(7),
                            presentation_hint: Some(SourcePresentationHint::Deemphasize),
                            origin: Some("text".to_string()),
                            sources: vec![
                                Source {
                                    name: Some("text".to_string()),
                                    path: Some("text".to_string()),
                                    source_reference: Some(7),
                                    presentation_hint: Some(SourcePresentationHint::Deemphasize),
                                    origin: Some("text".to_string()),
                                    sources: Vec::new(),
                                    adapter_data: Some(Value::String("data".to_string())),
                                    checksums: vec![
                                        Checksum {
                                            algorithm: ChecksumAlgorithm::Timestamp,
                                            checksum: "text".to_string(),
                                        },
                                    ],
                                },
                            ],
                            adapter_data: Some(Value::String("data".to_string())),
                            checksums: vec![
                                Checksum {
                                    algorithm: ChecksumAlgorithm::Timestamp,
                                    checksum: "text".to_string(),
                                },
                            ],
                        },
                    ),
                    source_reference: 7,
                },
            ),
        ),
    };
    let value = full.to_value();
    assert_eq!(value["command"], Value::String("source".to_string()));
    assert_eq!(
        keys(&value["arguments"]),
        vec!["source", "sourceReference"]
    );
    assert_eq!(ProtocolMessage::from_value(&value), Ok(full.clone()));
    assert_eq!(ProtocolMessage::from_str(&value.to_string()), Ok(full));
    let least = ProtocolMessage {
        seq: 5,
        content: ProtocolMessageContent::Request(
            Request::Source(SourceRequestArguments { source: None, source_reference: 1 }),
        ),
    };
    let value = least.to_value();
    assert_eq!(keys(&value["arguments"]), vec!["sourceReference"]);
    assert_eq!(ProtocolMessage::from_value(&value), Ok(least));
}

#[test]
fn round_trip_request_stack_trace() {
    let full = ProtocolMessage {
        seq: 5,
        content: ProtocolMessageContent::Request(
            Request::StackTrace(
                StackTraceRequestArguments {
                    thread_id: 7,
                    start_frame: 7,
                    levels: 7,
                    format: Some(
                        StackFrameFormat {
                            parameters: Some(true),
                            parameter_types: Some(true),
                            parameter_names: Some(true),
                            parameter_values: Some(true),
                            line: Some(true),
                            module: Some(true),
                            include_all: Some(true),
                        },
                    ),
                },
            ),
        ),
    };
    let value = full.to_value();
    assert_eq!(value["command"], Value::String("stackTrace".to_string()));
    assert_eq!(
        keys(&value["arguments"]),
        vec!["threadId", "startFrame", "levels", "format"]
    );
    assert_eq!(ProtocolMessage::from_value(&value), Ok(full.clone()));
    assert_eq!(ProtocolMessage::from_str(&value.to_string()), Ok(full));
    let least = ProtocolMessage {
        seq: 5,
        content: ProtocolMessageContent::Request(
            Request::StackTrace(
                StackTraceRequestArguments {
                    thread_id: 1,
                    start_frame: 0,
                    levels: 0,
                    format: None,
                },
            ),
        ),
    };
    let value = least.to_value();
    assert_eq!(keys(&value["arguments"]), vec!["threadId"]);
    assert_eq!(ProtocolMessage::from_value(&value), Ok(least));
}

#[test]
fn round_trip_request_step_back() {
    let full = ProtocolMessage {
        seq: 5,
        content: ProtocolMessageContent::Request(
            Request::StepBack(
                StepBackRequestArguments {
                    thread_id: 7,
                    granularity: SteppingGranularity::Instruction,
                },
            ),
        ),
    };
    let value = full.to_value();
    assert_eq!(value["command"], Value::String("stepBack".to_string()));
    assert_eq!(
        keys(&value["arguments"]),
        vec!["threadId", "granularity"]
    );
    assert_eq!(ProtocolMessage::from_value(&value), Ok(full.clone()));
    assert_eq!(ProtocolMessage::from_str(&value.to_string()), Ok(full));
    let least = ProtocolMessage {
        seq: 5,
        content: ProtocolMessageContent::Request(
            Request::StepBack(
                StepBackRequestArguments {
                    thread_id: 1,
                    granularity: SteppingGranularity::Statement,
                },
            ),
        ),
    };
    let value = least.to_value();
    assert_eq!(keys(&value["arguments"]), vec!["threadId"]);
    assert_eq!(ProtocolMessage::from_value(&value), Ok(least));
}

#[test]
fn round_trip_request_step_in() {
    let full = ProtocolMessage {
        seq: 5,
        content: ProtocolMessageContent::Request(
            Request::StepIn(
                StepInRequestArguments {
                    thread_id: 7,
                    target_id: Some(7),
                    granularity: SteppingGranularity::Instruction,
                },
            ),
        ),
    };
    let value = full.to_value();
    assert_eq!(value["command"], Value::String("stepIn".to_string()));
    assert_eq!(
        keys(&value["arguments"]),
        vec!["threadId", "targetId", "granularity"]
    );
    assert_eq!(ProtocolMessage::from_value(&value), Ok(full.clone()));
    assert_eq!(ProtocolMessage::from_str(&value.to_string()), Ok(full));
    let least = ProtocolMessage {
        seq: 5,
        content: ProtocolMessageContent::Request(
            Request::StepIn(
                StepInRequestArguments {
                    thread_id: 1,
                    target_id: None,
                    granularity: SteppingGranularity::Statement,
                },
            ),
        ),
    };
    let value = least.to_value();
    assert_eq!(keys(&value["arguments"]), vec!["threadId"]);
    assert_eq!(ProtocolMessage::from_value(&value), Ok(least));
}

#[test]
fn round_trip_request_step_in_targets() {
    let full = ProtocolMessage {
        seq: 5,
        content: ProtocolMessageContent::Request(
            Request::StepInTargets(StepInTargetsRequestArguments { frame_id: 7 }),
        ),
    };
    let value = full.to_value();
    assert_eq!(value["command"], Value::String("stepInTargets".to_string()));
    assert_eq!(
        keys(&value["arguments"]),
        vec!["frameId"]
    );
    assert_eq!(ProtocolMessage::from_value(&value), Ok(full.clone()));
    assert_eq!(ProtocolMessage::from_str(&value.to_string()), Ok(full));
    let least = ProtocolMessage {
        seq: 5,
        content: ProtocolMessageContent::Request(
            Request::StepInTargets(StepInTargetsRequestArguments { frame_id: 1 }),
        ),
    };
    let value = least.to_value();
    assert_eq!(keys(&value["arguments"]), vec!["frameId"]);
    assert_eq!(ProtocolMessage::from_value(&value), Ok(least));
}

#[test]
fn round_trip_request_step_out() {
    let full = ProtocolMessage {
        seq: 5,
        content: ProtocolMessageContent::Request(
            Request::StepOut(
                StepOutRequestArguments {
                    thread_id: 7,
                    granularity: SteppingGranularity::Instruction,
                },
            ),
        ),
    };
    let value = full.to_value();
    assert_eq!(value["command"], Value::String("stepOut".to_string()));
    assert_eq!(
        keys(&value["arguments"]),
        vec!["threadId", "granularity"]
    );
    assert_eq!(ProtocolMessage::from_value(&value), Ok(full.clone()));
    assert_eq!(ProtocolMessage::from_str(&value.to_string()), Ok(full));
    let least = ProtocolMessage {
        seq: 5,
        content: ProtocolMessageContent::Request(
            Request::StepOut(
                StepOutRequestArguments {
                    thread_id: 1,
                    granularity: SteppingGranularity::Statement,
                },
            ),
        ),
    };
    let value = least.to_value();
    assert_eq!(keys(&value["arguments"]), vec!["threadId"]);
    assert_eq!(ProtocolMessage::from_value(&value), Ok(least));
}

#[test]
fn round_trip_request_terminate() {
    let full = ProtocolMessage {
        seq: 5,
        content: ProtocolMessageContent::Request(
            Request::Terminate(TerminateRequestArguments { restart: true }),
        ),
    };
    let value = full.to_value();
    assert_eq!(value["command"], Value::String("terminate".to_string()));
    assert_eq!(
        keys(&value["arguments"]),
        vec!["restart"]
    );
    assert_eq!(ProtocolMessage::from_value(&value), Ok(full.clone()));
    assert_eq!(ProtocolMessage::from_str(&value.to_string()), Ok(full));
    let least = ProtocolMessage {
        seq: 5,
        content: ProtocolMessageContent::Request(
            Request::Terminate(TerminateRequestArguments { restart: false }),
        ),
    };
    let value = least.to_value();
    assert_eq!(keys(&value["arguments"]), Vec::<&str>::new());
    assert_eq!(ProtocolMessage::from_value(&value), Ok(least));
}

#[test]
fn round_trip_request_terminate_threads() {
    let full = ProtocolMessage {
        seq: 5,
        content: ProtocolMessageContent::Request(
            Request::TerminateThreads(TerminateThreadsRequestArguments { thread_ids: vec![7] }),
        ),
    };
    let value = full.to_value();
    assert_eq!(value["command"], Value::String("terminateThreads".to_string()));
    assert_eq!(
        keys(&value["arguments"]),
        vec!["threadIds"]
    );
    assert_eq!(ProtocolMessage::from_value(&value), Ok(full.clone()));
    assert_eq!(ProtocolMessage::from_str(&value.to_string()), Ok(full));
    let least = ProtocolMessage {
        seq: 5,
        content: ProtocolMessageContent::Request(
            Request::TerminateThreads(
                TerminateThreadsRequestArguments { thread_ids: Vec::new() },
            ),
        ),
    };
    let value = least.to_value();
    assert_eq!(keys(&value["arguments"]), Vec::<&str>::new());
    assert_eq!(ProtocolMessage::from_value(&value), Ok(least));
}

#[test]
fn round_trip_request_threads() {
    let message = ProtocolMessage { seq: 5, content: ProtocolMessageContent::Request(Request::Threads) };
    let value = message.to_value();
    assert_eq!(value["command"], Value::String("threads".to_string()));
    assert!(value.get("arguments").is_none());
    assert_eq!(ProtocolMessage::from_value(&value), Ok(message.clone()));
    assert_eq!(ProtocolMessage::from_str(&value.to_string()), Ok(message));
}

#[test]
fn round_trip_request_variables() {
    let full = ProtocolMessage {
        seq: 5,
        content: ProtocolMessageContent::Request(
            Request::Variables(
                VariablesRequestArguments {
                    variables_reference: 7,
                    filter: Some(VariablesFilter::Named),
                    start: 7,
                    count: 7,
                    format: Some(ValueFormat { hex: Some(true) }),
                },
            ),
        ),
    };
    let value = full.to_value();
    assert_eq!(value["command"], Value::String("variables".to_string()));
    assert_eq!(
        keys(&value["arguments"]),
        vec!["variablesReference", "filter", "start", "count", "format"]
    );
    assert_eq!(ProtocolMessage::from_value(&value), Ok(full.clone()));
    assert_eq!(ProtocolMessage::from_str(&value.to_string()), Ok(full));
    let least = ProtocolMessage {
        seq: 5,
        content: ProtocolMessageContent::Request(
            Request::Variables(
                VariablesRequestArguments {
                    variables_reference: 1,
                    filter: None,
                    start: 0,
                    count: 0,
                    format: None,
                },
            ),
        ),
    };
    let value = least.to_value();
    assert_eq!(keys(&value["arguments"]), vec!["variablesReference"]);
    assert_eq!(ProtocolMessage::from_value(&value), Ok(least));
}
