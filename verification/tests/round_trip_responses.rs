use debug_adapter_protocol::{ProtocolMessage, ProtocolMessageContent};
use debug_adapter_protocol::responses::{
    BreakpointLocationsResponseBody, CompletionsResponseBody, ContinueResponseBody,
    DataBreakpointInfoResponseBody, DisassembleResponseBody, EvaluateResponseBody,
    ExceptionInfoResponseBody, GotoTargetsResponseBody, LoadedSourcesResponseBody,
    ModulesResponseBody, ReadMemoryResponseBody, Response, RunInTerminalResponseBody,
    ScopesResponseBody, SetBreakpointsResponseBody, SetDataBreakpointsResponseBody,
    SetExceptionBreakpointsResponseBody, SetExpressionResponseBody,
    SetFunctionBreakpointsResponseBody, SetInstructionBreakpointsResponseBody,
    SetVariableResponseBody, SourceResponseBody, StackTraceResponseBody,
    StepInTargetsResponseBody, SuccessResponse, ThreadsResponseBody, VariablesResponseBody,
};
use debug_adapter_protocol::types::{
    Breakpoint, BreakpointLocation, Capabilities, Checksum, ChecksumAlgorithm,
    ColumnDescriptor, ColumnDescriptorType, CompletionItem, CompletionItemType, DataBreakpoint,
    DataBreakpointAccessType, DisassembledInstruction, ExceptionBreakMode,
    ExceptionBreakpointsFilter, ExceptionDetails, GotoTarget, Module, ModuleId, Scope,
    ScopePresentationHint, Source, SourcePresentationHint, StackFrame,
    StackFramePresentationHint, StepInTarget, Thread, Variable, VariableAttribute,
    VariableKind, VariablePresentationHint, VariableVisibility,
};
use debug_adapter_protocol::wire::Wire;
use serde_json::Value;

fn keys(value: &Value) -> Vec<&str> {
    value.as_object().unwrap().keys().map(|k| k.as_str()).collect()
}

#[test]
fn round_trip_response_attach() {
    let message = ProtocolMessage {
        seq: 7,
        content: ProtocolMessageContent::Response(
            Response { request_seq: 4, result: Ok(SuccessResponse::Attach) },
        ),
    };
    let value = message.to_value();
    assert_eq!(value["command"], Value::String("attach".to_string()));
    assert!(value.get("body").is_none());
    assert_eq!(ProtocolMessage::from_value(&value), Ok(message.clone()));
    assert_eq!(ProtocolMessage::from_str(&value.to_string()), Ok(message));
}

#[test]
fn round_trip_response_breakpoint_locations() {
    let full = ProtocolMessage {
        seq: 7,
        content: ProtocolMessageContent::Response(
            Response {
                request_seq: 4,
                result: Ok(
                    SuccessResponse::BreakpointLocations(
                        BreakpointLocationsResponseBody {
                            breakpoints: vec![
                                BreakpointLocation {
                                    line: 7,
                                    column: Some(7),
                                    end_line: Some(7),
                                    end_column: Some(7),
                                },
                            ],
                        },
                    ),
                ),
            },
        ),
    };
    let value = full.to_value();
    assert_eq!(value["command"], Value::String("breakpointLocations".to_string()));
    assert_eq!(
        keys(&value["body"]),
        vec!["breakpoints"]
    );
    assert_eq!(ProtocolMessage::from_value(&value), Ok(full.clone()));
    assert_eq!(ProtocolMessage::from_str(&value.to_string()), Ok(full));
    let least = ProtocolMessage {
        seq: 7,
        content: ProtocolMessageContent::Response(
            Response {
                request_seq: 4,
                result: Ok(
                    SuccessResponse::BreakpointLocations(
                        BreakpointLocationsResponseBody { breakpoints: Vec::new() },
                    ),
                ),
            },
        ),
    };
    let value = least.to_value();
    assert_eq!(keys(&value["body"]), vec!["breakpoints"]);
    assert_eq!(ProtocolMessage::from_value(&value), Ok(least));
}

#[test]
fn round_trip_response_cancel() {
    let message = ProtocolMessage {
        seq: 7,
        content: ProtocolMessageContent::Response(
            Response { request_seq: 4, result: Ok(SuccessResponse::Cancel) },
        ),
    };
    let value = message.to_value();
    assert_eq!(value["command"], Value::String("cancel".to_string()));
    assert!(value.get("body").is_none());
    assert_eq!(ProtocolMessage::from_value(&value), Ok(message.clone()));
    assert_eq!(ProtocolMessage::from_str(&value.to_string()), Ok(message));
}

#[test]
fn round_trip_response_completions() {
    let full = ProtocolMessage {
        seq: 7,
        content: ProtocolMessageContent::Response(
            Response {
                request_seq: 4,
                result: Ok(
                    SuccessResponse::Completions(
                        CompletionsResponseBody {
                            targets: vec![
                                CompletionItem {
                                    label: "text".to_string(),
                                    text: Some("text".to_string()),
                                    sort_text: Some("text".to_string()),
                                    type_: Some(CompletionItemType::Customcolor),
                                    start: Some(7),
                                    length: 7,
                                    selection_start: Some(7),
                                    selection_length: 7,
                                },
                            ],
                        },
                    ),
                ),
            },
        ),
    };
    let value = full.to_value();
    assert_eq!(value["command"], Value::String("completions".to_string()));
    assert_eq!(
        keys(&value["body"]),
        vec!["targets"]
    );
    assert_eq!(ProtocolMessage::from_value(&value), Ok(full.clone()));
    assert_eq!(ProtocolMessage::from_str(&value.to_string()), Ok(full));
    let least = ProtocolMessage {
        seq: 7,
        content: ProtocolMessageContent::Response(
            Response {
                request_seq: 4,
                result: Ok(
                    SuccessResponse::Completions(
                        CompletionsResponseBody { targets: Vec::new() },
                    ),
                ),
            },
        ),
    };
    let value = least.to_value();
    assert_eq!(keys(&value["body"]), vec!["targets"]);
    assert_eq!(ProtocolMessage::from_value(&value), Ok(least));
}

#[test]
fn round_trip_response_configuration_done() {
    let message = ProtocolMessage {
        seq: 7,
        content: ProtocolMessageContent::Response(
            Response { request_seq: 4, result: Ok(SuccessResponse::ConfigurationDone) },
        ),
    };
    let value = message.to_value();
    assert_eq!(value["command"], Value::String("configurationDone".to_string()));
    assert!(value.get("body").is_none());
    assert_eq!(ProtocolMessage::from_value(&value), Ok(message.clone()));
    assert_eq!(ProtocolMessage::from_str(&value.to_string()), Ok(message));
}

#[test]
fn round_trip_response_continue() {
    let full = ProtocolMessage {
        seq: 7,
        content: ProtocolMessageContent::Response(
            Response {
                request_seq: 4,
                result: Ok(
                    SuccessResponse::Continue(
                        ContinueResponseBody { all_threads_continued: true },
                    ),
                ),
            },
        ),
    };
    let value = full.to_value();
    assert_eq!(value["command"], Value::String("continue".to_string()));
    assert_eq!(
        keys(&value["body"]),
        vec!["allThreadsContinued"]
    );
    assert_eq!(ProtocolMessage::from_value(&value), Ok(full.clone()));
    assert_eq!(ProtocolMessage::from_str(&value.to_string()), Ok(full));
    let least = ProtocolMessage {
        seq: 7,
        content: ProtocolMessageContent::Response(
            Response {
                request_seq: 4,
                result: Ok(
                    SuccessResponse::Continue(
                        ContinueResponseBody { all_threads_continued: true },
                    ),
                ),
            },
        ),
    };
    let value = least.to_value();
    assert_eq!(keys(&value["body"]), vec!["allThreadsContinued"]);
    assert_eq!(ProtocolMessage::from_value(&value), Ok(least));
}

#[test]
fn round_trip_response_data_breakpoint_info() {
    let full = ProtocolMessage {
        seq: 7,
        content: ProtocolMessageContent::Response(
            Response {
                request_seq: 4,
                result: Ok(
                    SuccessResponse::DataBreakpointInfo(
                        DataBreakpointInfoResponseBody {
                            data_id: Some("text".to_string()),
                            description: "text".to_string(),
                            access_types: Some(vec![DataBreakpointAccessType::ReadWrite]),
                            can_persist: true,
                        },
                    ),
                ),
            },
        ),
    };
    let value = full.to_value();
    assert_eq!(value["command"], Value::String("dataBreakpointInfo".to_string()));
    assert_eq!(
        keys(&value["body"]),
        vec!["dataId", "description", "accessTypes", "canPersist"]
    );
    assert_eq!(ProtocolMessage::from_value(&value), Ok(full.clone()));
    assert_eq!(ProtocolMessage::from_str(&value.to_string()), Ok(full));
    let least = ProtocolMessage {
        seq: 7,
        content: ProtocolMessageContent::Response(
            Response {
                request_seq: 4,
                result: Ok(
                    SuccessResponse::DataBreakpointInfo(
                        DataBreakpointInfoResponseBody {
                            data_id: None,
                            description: "text".to_string(),
                            access_types: None,
                            can_persist: false,
                        },
                    ),
                ),
            },
        ),
    };
    let value = least.to_value();
    assert_eq!(keys(&value["body"]), vec!["dataId", "description"]);
    assert_eq!(ProtocolMessage::from_value(&value), Ok(least));
}

#[test]
fn round_trip_response_disassemble() {
    let full = ProtocolMessage {
        seq: 7,
        content: ProtocolMessageContent::Response(
            Response {
                request_seq: 4,
                result: Ok(
                    SuccessResponse::Disassemble(
                        DisassembleResponseBody {
                            instructions: vec![
                                DisassembledInstruction {
                                    address: "text".to_string(),
                                    instruction_bytes: Some("text".to_string()),
                                    instruction: "text".to_string(),
                                    symbol: Some("text".to_string()),
                                    location: Some(
                                        Source {
                                            name: Some("text".to_string()),
                                            path: Some("text".to_string()),
                                            source_reference: Some(7),
                                            presentation_hint: Some(SourcePresentationHint::Deemphasize),
                                            origin: Some("text".to_string()),
                                            sources: vec![
                                                Source {
                                                    name: Some("text".to_string()),
                                                    path: Some("text".to_string()),
                                                    source_reference: Some(7),
                                                    presentation_hint: Some(SourcePresentationHint::Deemphasize),
                                                    origin: Some("text".to_string()),
                                                    sources: Vec::new(),
                                                    adapter_data: Some(Value::String("data".to_string())),
                                                    checksums: vec![
                                                        Checksum {
                                                            algorithm: ChecksumAlgorithm::Timestamp,
                                                            checksum: "text".to_string(),
                                                        },
                                                    ],
                                                },
                                            ],
                                            adapter_data: Some(Value::String("data".to_string())),
                                            checksums: vec![
                                                Checksum {
                                                    algorithm: ChecksumAlgorithm::Timestamp,
                                                    checksum: "text".to_string(),
                                                },
                                            ],
                                        },
                                    ),
                                    line: Some(7),
                                    column: Some(7),
                                    end_line: Some(7),
                                    end_column: Some(7),
                                },
                            ],
                        },
                    ),
                ),
            },
        ),
    };
    let value = full.to_value();
    assert_eq!(value["command"], Value::String("disassemble".to_string()));
    assert_eq!(
        keys(&value["body"]),
        vec!["instructions"]
    );
    assert_eq!(ProtocolMessage::from_value(&value), Ok(full.clone()));
    assert_eq!(ProtocolMessage::from_str(&value.to_string()), Ok(full));
    let least = ProtocolMessage {
        seq: 7,
        content: ProtocolMessageContent::Response(
            Response {
                request_seq: 4,
                result: Ok(
                    SuccessResponse::Disassemble(
                        DisassembleResponseBody { instructions: Vec::new() },
                    ),
                ),
            },
        ),
    };
    let value = least.to_value();
    assert_eq!(keys(&value["body"]), vec!["instructions"]);
    assert_eq!(ProtocolMessage::from_value(&value), Ok(least));
}

#[test]
fn round_trip_response_disconnect() {
    let message = ProtocolMessage {
        seq: 7,
        content: ProtocolMessageContent::Response(
            Response { request_seq: 4, result: Ok(SuccessResponse::Disconnect) },
        ),
    };
    let value = message.to_value();
    assert_eq!(value["command"], Value::String("disconnect".to_string()));
    assert!(value.get("body").is_none());
    assert_eq!(ProtocolMessage::from_value(&value), Ok(message.clone()));
    assert_eq!(ProtocolMessage::from_str(&value.to_string()), Ok(message));
}

#[test]
fn round_trip_response_evaluate() {
    let full = ProtocolMessage {
        seq: 7,
        content: ProtocolMessageContent::Response(
            Response {
                request_seq: 4,
                result: Ok(
                    SuccessResponse::Evaluate(
                        EvaluateResponseBody {
                            result: "text".to_string(),
                            type_: Some("text".to_string()),
                            presentation_hint: Some(
                                VariablePresentationHint {
                                    kind: Some(VariableKind::DataBreakpoint),
                                    attributes: vec![VariableAttribute::HasDataBreakpoint],
                                    visibility: Some(VariableVisibility::Final),
                                },
                            ),
                            variables_reference: 7,
                            named_variables: Some(7),
                            indexed_variables: Some(7),
                            memory_reference: Some("text".to_string()),
                        },
                    ),
                ),
            },
        ),
    };
    let value = full.to_value();
    assert_eq!(value["command"], Value::String("evaluate".to_string()));
    assert_eq!(
        keys(&value["body"]),
        vec![
            "result",
            "type",
            "presentationHint",
            "variablesReference",
            "namedVariables",
            "indexedVariables",
            "memoryReference",
        ]
    );
    assert_eq!(ProtocolMessage::from_value(&value), Ok(full.clone()));
    assert_eq!(ProtocolMessage::from_str(&value.to_string()), Ok(full));
    let least = ProtocolMessage {
        seq: 7,
        content: ProtocolMessageContent::Response(
            Response {
                request_seq: 4,
                result: Ok(
                    SuccessResponse::Evaluate(
                        EvaluateResponseBody {
                            result: "text".to_string(),
                            type_: None,
                            presentation_hint: None,
                            variables_reference: 1,
                            named_variables: None,
                            indexed_variables: None,
                            memory_reference: None,
                        },
                    ),
                ),
            },
        ),
    };
    let value = least.to_value();
    assert_eq!(keys(&value["body"]), vec!["result", "variablesReference"]);
    assert_eq!(ProtocolMessage::from_value(&value), Ok(least));
}

#[test]
fn round_trip_response_exception_info() {
    let full = ProtocolMessage {
        seq: 7,
        content: ProtocolMessageContent::Response(
            Response {
                request_seq: 4,
                result: Ok(
                    SuccessResponse::ExceptionInfo(
                        ExceptionInfoResponseBody {
                            exception_id: "text".to_string(),
                            description: Some("text".to_string()),
                            break_mode: ExceptionBreakMode::UserUnhandled,
                            details: Some(
                                ExceptionDetails {
                                    message: Some("text".to_string()),
                                    type_name_: Some("text".to_string()),
                                    full_type_name: Some("text".to_string()),
                                    evaluate_name: Some("text".to_string()),
                                    stack_trace: Some("text".to_string()),
                                    inner_exception: vec![
                                        ExceptionDetails {
                                            message: Some("text".to_string()),
                                            type_name_: Some("text".to_string()),
                                            full_type_name: Some("text".to_string()),
                                            evaluate_name: Some("text".to_string()),
                                            stack_trace: Some("text".to_string()),
                                            inner_exception: Vec::new(),
                                        },
                                    ],
                                },
                            ),
                        },
                    ),
                ),
            },
        ),
    };
    let value = full.to_value();
    assert_eq!(value["command"], Value::String("exceptionInfo".to_string()));
    assert_eq!(
        keys(&value["body"]),
        vec!["exceptionId", "description", "breakMode", "details"]
    );
    assert_eq!(ProtocolMessage::from_value(&value), Ok(full.clone()));
    assert_eq!(ProtocolMessage::from_str(&value.to_string()), Ok(full));
    let least = ProtocolMessage {
        seq: 7,
        content: ProtocolMessageContent::Response(
            Response {
                request_seq: 4,
                result: Ok(
                    SuccessResponse::ExceptionInfo(
                        ExceptionInfoResponseBody {
                            exception_id: "text".to_string(),
                            description: None,
                            break_mode: ExceptionBreakMode::Never,
                            details: None,
                        },
                    ),
                ),
            },
        ),
    };
    let value = least.to_value();
    assert_eq!(keys(&value["body"]), vec!["exceptionId", "breakMode"]);
    assert_eq!(ProtocolMessage::from_value(&value), Ok(least));
}

#[test]
fn round_trip_response_goto() {
    let message = ProtocolMessage {
        seq: 7,
        content: ProtocolMessageContent::Response(
            Response { request_seq: 4, result: Ok(SuccessResponse::Goto) },
        ),
    };
    let value = message.to_value();
    assert_eq!(value["command"], Value::String("goto".to_string()));
    assert!(value.get("body").is_none());
    assert_eq!(ProtocolMessage::from_value(&value), Ok(message.clone()));
    assert_eq!(ProtocolMessage::from_str(&value.to_string()), Ok(message));
}

#[test]
fn round_trip_response_goto_targets() {
    let full = ProtocolMessage {
        seq: 7,
        content: ProtocolMessageContent::Response(
            Response {
                request_seq: 4,
                result: Ok(
                    SuccessResponse::GotoTargets(
                        GotoTargetsResponseBody {
                            targets: vec![
                                GotoTarget {
                                    id: 7,
                                    label: "text".to_string(),
                                    line: 7,
                                    column: Some(7),
                                    end_line: Some(7),
                                    end_column: Some(7),
                                    instruction_pointer_reference: Some("text".to_string()),
                                },
                            ],
                        },
                    ),
                ),
            },
        ),
    };
    let value = full.to_value();
    assert_eq!(value["command"], Value::String("gotoTargets".to_string()));
    assert_eq!(
        keys(&value["body"]),
        vec!["targets"]
    );
    assert_eq!(ProtocolMessage::from_value(&value), Ok(full.clone()));
    assert_eq!(ProtocolMessage::from_str(&value.to_string()), Ok(full));
    let least = ProtocolMessage {
        seq: 7,
        content: ProtocolMessageContent::Response(
            Response {
                request_seq: 4,
                result: Ok(
                    SuccessResponse::GotoTargets(
                        GotoTargetsResponseBody { targets: Vec::new() },
                    ),
                ),
            },
        ),
    };
    let value = least.to_value();
    assert_eq!(keys(&value["body"]), vec!["targets"]);
    assert_eq!(ProtocolMessage::from_value(&value), Ok(least));
}

#[test]
fn round_trip_response_initialize() {
    let full = ProtocolMessage {
        seq: 7,
        content: ProtocolMessageContent::Response(
            Response {
                request_seq: 4,
                result: Ok(
                    SuccessResponse::Initialize(
                        Capabilities {
                            supports_configuration_done_request: true,
                            supports_function_breakpoints: true,
                            supports_conditional_breakpoints: true,
                            supports_hit_conditional_breakpoints: true,
                            supports_evaluate_for_hovers: true,
                            exception_breakpoint_filters: vec![
                                ExceptionBreakpointsFilter {
                                    filter: "text".to_string(),
                                    label: "text".to_string(),
                                    description: Some("text".to_string()),
                                    default: true,
                                    supports_condition: true,
                                    condition_description: Some("text".to_string()),
                                },
                            ],
                            supports_step_back: true,
                            supports_set_variable: true,
                            supports_restart_frame: true,
                            supports_goto_targets_request: true,
                            supports_step_in_targets_request: true,
                            supports_completions_request: true,
                            completion_trigger_characters: Some(vec!["text".to_string()]),
                            supports_modules_request: true,
                            additional_module_columns: vec![
                                ColumnDescriptor {
                                    attribute_name: "text".to_string(),
                                    label: "text".to_string(),
                                    format: Some("text".to_string()),
                                    type_: ColumnDescriptorType::UnixTimestampUTC,
                                    width: Some(7),
                                },
                            ],
                            supported_checksum_algorithms: vec![ChecksumAlgorithm::Timestamp],
                            supports_restart_request: true,
                            supports_exception_options: true,
                            supports_value_formatting_options: true,
                            supports_exception_info_request: true,
                            support_terminate_debuggee: true,
                            support_suspend_debuggee: true,
                            supports_delayed_stack_trace_loading: true,
                            supports_loaded_sources_request: true,
                            supports_log_points: true,
                            supports_terminate_threads_request: true,
                            supports_set_expression: true,
                            supports_terminate_request: true,
                            supports_data_breakpoints: true,
                            supports_read_memory_request: true,
                            supports_disassemble_request: true,
                            supports_cancel_request: true,
                            supports_breakpoint_locations_request: true,
                            supports_clipboard_context: true,
                            supports_stepping_granularity: true,
                            supports_instruction_breakpoints: true,
                            supports_exception_filter_options: true,
                        },
                    ),
                ),
            },
        ),
    };
    let value = full.to_value();
    assert_eq!(value["command"], Value::String("initialize".to_string()));
    assert_eq!(
        keys(&value["body"]),
        vec![
            "supportsConfigurationDoneRequest",
            "supportsFunctionBreakpoints",
            "supportsConditionalBreakpoints",
            "supportsHitConditionalBreakpoints",
            "supportsEvaluateForHovers",
            "exceptionBreakpointFilters",
            "supportsStepBack",
            "supportsSetVariable",
            "supportsRestartFrame",
            "supportsGotoTargetsRequest",
            "supportsStepInTargetsRequest",
            "supportsCompletionsRequest",
            "completionTriggerCharacters",
            "supportsModulesRequest",
            "additionalModuleColumns",
            "supportedChecksumAlgorithms",
            "supportsRestartRequest",
            "supportsExceptionOptions",
            "supportsValueFormattingOptions",
            "supportsExceptionInfoRequest",
            "supportTerminateDebuggee",
            "supportSuspendDebuggee",
            "supportsDelayedStackTraceLoading",
            "supportsLoadedSourcesRequest",
            "supportsLogPoints",
            "supportsTerminateThreadsRequest",
            "supportsSetExpression",
            "supportsTerminateRequest",
            "supportsDataBreakpoints",
            "supportsReadMemoryRequest",
            "supportsDisassembleRequest",
            "supportsCancelRequest",
            "supportsBreakpointLocationsRequest",
            "supportsClipboardContext",
            "supportsSteppingGranularity",
            "supportsInstructionBreakpoints",
            "supportsExceptionFilterOptions",
        ]
    );
    assert_eq!(ProtocolMessage::from_value(&value), Ok(full.clone()));
    assert_eq!(ProtocolMessage::from_str(&value.to_string()), Ok(full));
    let least = ProtocolMessage {
        seq: 7,
        content: ProtocolMessageContent::Response(
            Response {
                request_seq: 4,
                result: Ok(
                    SuccessResponse::Initialize(
                        Capabilities {
                            supports_configuration_done_request: false,
                            supports_function_breakpoints: false,
                            supports_conditional_breakpoints: false,
                            supports_hit_conditional_breakpoints: false,
                            supports_evaluate_for_hovers: false,
                            exception_breakpoint_filters: Vec::new(),
                            supports_step_back: false,
                            supports_set_variable: false,
                            supports_restart_frame: false,
                            supports_goto_targets_request: false,
                            supports_step_in_targets_request: false,
                            supports_completions_request: false,
                            completion_trigger_characters: None,
                            supports_modules_request: false,
                            additional_module_columns: Vec::new(),
                            supported_checksum_algorithms: Vec::new(),
                            supports_restart_request: false,
                            supports_exception_options: false,
                            supports_value_formatting_options: false,
                            supports_exception_info_request: false,
                            support_terminate_debuggee: false,
                            support_suspend_debuggee: false,
                            supports_delayed_stack_trace_loading: false,
                            supports_loaded_sources_request: false,
                            supports_log_points: false,
                            supports_terminate_threads_request: false,
                            supports_set_expression: false,
                            supports_terminate_request: false,
                            supports_data_breakpoints: false,
                            supports_read_memory_request: false,
                            supports_disassemble_request: false,
                            supports_cancel_request: false,
                            supports_breakpoint_locations_request: false,
                            supports_clipboard_context: false,
                            supports_stepping_granularity: false,
                            supports_instruction_breakpoints: false,
                            supports_exception_filter_options: false,
                        },
                    ),
                ),
            },
        ),
    };
    let value = least.to_value();
    assert_eq!(keys(&value["body"]), Vec::<&str>::new());
    assert_eq!(ProtocolMessage::from_value(&value), Ok(least));
}

#[test]
fn round_trip_response_launch() {
    let message = ProtocolMessage {
        seq: 7,
        content: ProtocolMessageContent::Response(
            Response { request_seq: 4, result: Ok(SuccessResponse::Launch) },
        ),
    };
    let value = message.to_value();
    assert_eq!(value["command"], Value::String("launch".to_string()));
    assert!(value.get("body").is_none());
    assert_eq!(ProtocolMessage::from_value(&value), Ok(message.clone()));
    assert_eq!(ProtocolMessage::from_str(&value.to_string()), Ok(message));
}

#[test]
fn round_trip_response_loaded_sources() {
    let full = ProtocolMessage {
        seq: 7,
        content: ProtocolMessageContent::Response(
            Response {
                request_seq: 4,
                result: Ok(
                    SuccessResponse::LoadedSources(
                        LoadedSourcesResponseBody {
                            sources: vec![
                                Source {
                                    name: Some("text".to_string()),
                                    path: Some("text".to_string()),
                                    source_reference: Some(7),
                                    presentation_hint: Some(SourcePresentationHint::Deemphasize),
                                    origin: Some("text".to_string()),
                                    sources: vec![
                                        Source {
                                            name: Some("text".to_string()),
                                            path: Some("text".to_string()),
                                            source_reference: Some(7),
                                            presentation_hint: Some(SourcePresentationHint::Deemphasize),
                                            origin: Some("text".to_string()),
                                            sources: Vec::new(),
                                            adapter_data: Some(Value::String("data".to_string())),
                                            checksums: vec![
                                                Checksum {
                                                    algorithm: ChecksumAlgorithm::Timestamp,
                                                    checksum: "text".to_string(),
                                                },
                                            ],
                                        },
                                    ],
                                    adapter_data: Some(Value::String("data".to_string())),
                                    checksums: vec![
                                        Checksum {
                                            algorithm: ChecksumAlgorithm::Timestamp,
                                            checksum: "text".to_string(),
                                        },
                                    ],
                                },
                            ],
                        },
                    ),
                ),
            },
        ),
    };
    let value = full.to_value();
    assert_eq!(value["command"], Value::String("loadedSources".to_string()));
    assert_eq!(
        keys(&value["body"]),
        vec!["sources"]
    );
    assert_eq!(ProtocolMessage::from_value(&value), Ok(full.clone()));
    assert_eq!(ProtocolMessage::from_str(&value.to_string()), Ok(full));
    let least = ProtocolMessage {
        seq: 7,
        content: ProtocolMessageContent::Response(
            Response {
                request_seq: 4,
                result: Ok(
                    SuccessResponse::LoadedSources(
                        LoadedSourcesResponseBody { sources: Vec::new() },
                    ),
                ),
            },
        ),
    };
    let value = least.to_value();
    assert_eq!(keys(&value["body"]), vec!["sources"]);
    assert_eq!(ProtocolMessage::from_value(&value), Ok(least));
}

#[test]
fn round_trip_response_modules() {
    let full = ProtocolMessage {
        seq: 7,
        content: ProtocolMessageContent::Response(
            Response {
                request_seq: 4,
                result: Ok(
                    SuccessResponse::Modules(
                        ModulesResponseBody {
                            modules: vec![
                                Module {
                                    id: ModuleId::String("mod".to_string()),
                                    name: "text".to_string(),
                                    path: Some("text".to_string()),
                                    is_optimized: Some(true),
                                    is_user_code: Some(true),
                                    version: Some("text".to_string()),
                                    symbol_status: Some("text".to_string()),
                                    symbol_file_path: Some("text".to_string()),
                                    date_time_stamp: Some("text".to_string()),
                                    address_range: Some("text".to_string()),
                                },
                            ],
                            total_modules: Some(7),
                        },
                    ),
                ),
            },
        ),
    };
    let value = full.to_value();
    assert_eq!(value["command"], Value::String("modules".to_string()));
    assert_eq!(
        keys(&value["body"]),
        vec!["modules", "totalModules"]
    );
    assert_eq!(ProtocolMessage::from_value(&value), Ok(full.clone()));
    assert_eq!(ProtocolMessage::from_str(&value.to_string()), Ok(full));
    let least = ProtocolMessage {
        seq: 7,
        content: ProtocolMessageContent::Response(
            Response {
                request_seq: 4,
                result: Ok(
                    SuccessResponse::Modules(
                        ModulesResponseBody { modules: Vec::new(), total_modules: None },
                    ),
                ),
            },
        ),
    };
    let value = least.to_value();
    assert_eq!(keys(&value["body"]), vec!["modules"]);
    assert_eq!(ProtocolMessage::from_value(&value), Ok(least));
}

#[test]
fn round_trip_response_next() {
    let message = ProtocolMessage {
        seq: 7,
        content: ProtocolMessageContent::Response(
            Response { request_seq: 4, result: Ok(SuccessResponse::Next) },
        ),
    };
    let value = message.to_value();
    assert_eq!(value["command"], Value::String("next".to_string()));
    assert!(value.get("body").is_none());
    assert_eq!(ProtocolMessage::from_value(&value), Ok(message.clone()));
    assert_eq!(ProtocolMessage::from_str(&value.to_string()), Ok(message));
}

#[test]
fn round_trip_response_pause() {
    let message = ProtocolMessage {
        seq: 7,
        content: ProtocolMessageContent::Response(
            Response { request_seq: 4, result: Ok(SuccessResponse::Pause) },
        ),
    };
    let value = message.to_value();
    assert_eq!(value["command"], Value::String("pause".to_string()));
    assert!(value.get("body").is_none());
    assert_eq!(ProtocolMessage::from_value(&value), Ok(message.clone()));
    assert_eq!(ProtocolMessage::from_str(&value.to_string()), Ok(message));
}

#[test]
fn round_trip_response_read_memory() {
    let full = ProtocolMessage {
        seq: 7,
        content: ProtocolMessageContent::Response(
            Response {
                request_seq: 4,
                result: Ok(
                    SuccessResponse::ReadMemory(
                        ReadMemoryResponseBody {
                            address: "text".to_string(),
                            unreadable_bytes: Some(7),
                            data: Some("text".to_string()),
                        },
                    ),
                ),
            },
        ),
    };
    let value = full.to_value();
    assert_eq!(value["command"], Value::String("readMemory".to_string()));
    assert_eq!(
        keys(&value["body"]),
        vec!["address", "unreadableBytes", "data"]
    );
    assert_eq!(ProtocolMessage::from_value(&value), Ok(full.clone()));
    assert_eq!(ProtocolMessage::from_str(&value.to_string()), Ok(full));
    let least = ProtocolMessage {
        seq: 7,
        content: ProtocolMessageContent::Response(
            Response {
                request_seq: 4,
                result: Ok(
                    SuccessResponse::ReadMemory(
                        ReadMemoryResponseBody {
                            address: "text".to_string(),
                            unreadable_bytes: None,
                            data: None,
                        },
                    ),
                ),
            },
        ),
    };
    let value = least.to_value();
    assert_eq!(keys(&value["body"]), vec!["address"]);
    assert_eq!(ProtocolMessage::from_value(&value), Ok(least));
}

#[test]
fn round_trip_response_restart_frame() {
    let message = ProtocolMessage {
        seq: 7,
        content: ProtocolMessageContent::Response(
            Response { request_seq: 4, result: Ok(SuccessResponse::RestartFrame) },
        ),
    };
    let value = message.to_value();
    assert_eq!(value["command"], Value::String("restartFrame".to_string()));
    assert!(value.get("body").is_none());
    assert_eq!(ProtocolMessage::from_value(&value), Ok(message.clone()));
    assert_eq!(ProtocolMessage::from_str(&value.to_string()), Ok(message));
}

#[test]
fn round_trip_response_restart() {
    let message = ProtocolMessage {
        seq: 7,
        content: ProtocolMessageContent::Response(
            Response { request_seq: 4, result: Ok(SuccessResponse::Restart) },
        ),
    };
    let value = message.to_value();
    assert_eq!(value["command"], Value::String("restart".to_string()));
    assert!(value.get("body").is_none());
    assert_eq!(ProtocolMessage::from_value(&value), Ok(message.clone()));
    assert_eq!(ProtocolMessage::from_str(&value.to_string()), Ok(message));
}

#[test]
fn round_trip_response_reverse_continue() {
    let message = ProtocolMessage {
        seq: 7,
        content: ProtocolMessageContent::Response(
            Response { request_seq: 4, result: Ok(SuccessResponse::ReverseContinue) },
        ),
    };
    let value = message.to_value();
    assert_eq!(value["command"], Value::String("reverseContinue".to_string()));
    assert!(value.get("body").is_none());
    assert_eq!(ProtocolMessage::from_value(&value), Ok(message.clone()));
    assert_eq!(ProtocolMessage::from_str(&value.to_string()), Ok(message));
}

#[test]
fn round_trip_response_run_in_terminal() {
    let full = ProtocolMessage {
        seq: 7,
        content: ProtocolMessageContent::Response(
            Response {
                request_seq: 4,
                result: Ok(
                    SuccessResponse::RunInTerminal(
                        RunInTerminalResponseBody {
                            process_id: Some(7),
                            shell_process_id: Some(7),
                        },
                    ),
                ),
            },
        ),
    };
    let value = full.to_value();
    assert_eq!(value["command"], Value::String("runInTerminal".to_string()));
    assert_eq!(
        keys(&value["body"]),
        vec!["processId", "shellProcessId"]
    );
    assert_eq!(ProtocolMessage::from_value(&value), Ok(full.clone()));
    assert_eq!(ProtocolMessage::from_str(&value.to_string()), Ok(full));
    let least = ProtocolMessage {
        seq: 7,
        content: ProtocolMessageContent::Response(
            Response {
                request_seq: 4,
                result: Ok(
                    SuccessResponse::RunInTerminal(
                        RunInTerminalResponseBody { process_id: None, shell_process_id: None },
                    ),
                ),
            },
        ),
    };
    let value = least.to_value();
    assert_eq!(keys(&value["body"]), Vec::<&str>::new());
    assert_eq!(ProtocolMessage::from_value(&value), Ok(least));
}

#[test]
fn round_trip_response_scopes() {
    let full = ProtocolMessage {
        seq: 7,
        content: ProtocolMessageContent::Response(
            Response {
                request_seq: 4,
                result: Ok(
                    SuccessResponse::Scopes(
                        ScopesResponseBody {
                            scopes: vec![
                                Scope {
                                    name: "text".to_string(),
                                    presentation_hint: Some(ScopePresentationHint::Registers),
                                    variables_reference: 7,
                                    named_variables: Some(7),
                                    indexed_variables: Some(7),
                                    expensive: true,
                                    source: Some(
                                        Source {
                                            name: Some("text".to_string()),
                                            path: Some("text".to_string()),
                                            source_reference: Some(7),
                                            presentation_hint: Some(SourcePresentationHint::Deemphasize),
                                            origin: Some("text".to_string()),
                                            sources: vec![
                                                Source {
                                                    name: Some("text".to_string()),
                                                    path: Some("text".to_string()),
                                                    source_reference: Some(7),
                                                    presentation_hint: Some(SourcePresentationHint::Deemphasize),
                                                    origin: Some("text".to_string()),
                                                    sources: Vec::new(),
                                                    adapter_data: Some(Value::String("data".to_string())),
                                                    checksums: vec![
                                                        Checksum {
                                                            algorithm: ChecksumAlgorithm::Timestamp,
                                                            checksum: "text".to_string(),
                                                        },
                                                    ],
                                                },
                                            ],
                                            adapter_data: Some(Value::String("data".to_string())),
                                            checksums: vec![
                                                Checksum {
                                                    algorithm: ChecksumAlgorithm::Timestamp,
                                                    checksum: "text".to_string(),
                                                },
                                            ],
                                        },
                                    ),
                                    line: Some(7),
                                    column: Some(7),
                                    end_line: Some(7),
                                    end_column: Some(7),
                                },
                            ],
                        },
                    ),
                ),
            },
        ),
    };
    let value = full.to_value();
    assert_eq!(value["command"], Value::String("scopes".to_string()));
    assert_eq!(
        keys(&value["body"]),
        vec!["scopes"]
    );
    assert_eq!(ProtocolMessage::from_value(&value), Ok(full.clone()));
    assert_eq!(ProtocolMessage::from_str(&value.to_string()), Ok(full));
    let least = ProtocolMessage {
        seq: 7,
        content: ProtocolMessageContent::Response(
            Response {
                request_seq: 4,
                result: Ok(SuccessResponse::Scopes(ScopesResponseBody { scopes: Vec::new() })),
            },
        ),
    };
    let value = least.to_value();
    assert_eq!(keys(&value["body"]), vec!["scopes"]);
    assert_eq!(ProtocolMessage::from_value(&value), Ok(least));
}

#[test]
fn round_trip_response_set_breakpoints() {
    let full = ProtocolMessage {
        seq: 7,
        content: ProtocolMessageContent::Response(
            Response {
                request_seq: 4,
                result: Ok(
                    SuccessResponse::SetBreakpoints(
                        SetBreakpointsResponseBody {
                            breakpoints: vec![
                                Breakpoint {
                                    id: Some(7),
                                    verified: true,
                                    message: Some("text".to_string()),
                                    source: Some(
                                        Source {
                                            name: Some("text".to_string()),
                                            path: Some("text".to_string()),
                                            source_reference: Some(7),
                                            presentation_hint: Some(SourcePresentationHint::Deemphasize),
                                            origin: Some("text".to_string()),
                                            sources: vec![
                                                Source {
                                                    name: Some("text".to_string()),
                                                    path: Some("text".to_string()),
                                                    source_reference: Some(7),
                                                    presentation_hint: Some(SourcePresentationHint::Deemphasize),
                                                    origin: Some("text".to_string()),
                                                    sources: Vec::new(),
                                                    adapter_data: Some(Value::String("data".to_string())),
                                                    checksums: vec![
                                                        Checksum {
                                                            algorithm: ChecksumAlgorithm::Timestamp,
                                                            checksum: "text".to_string(),
                                                        },
                                                    ],
                                                },
                                            ],
                                            adapter_data: Some(Value::String("data".to_string())),
                                            checksums: vec![
                                                Checksum {
                                                    algorithm: ChecksumAlgorithm::Timestamp,
                                                    checksum: "text".to_string(),
                                                },
                                            ],
                                        },
                                    ),
                                    line: Some(7),
                                    column: Some(7),
                                    end_line: Some(7),
                                    end_column: Some(7),
                                    instruction_reference: Some("text".to_string()),
                                    offset: Some(7),
                                },
                            ],
                        },
                    ),
                ),
            },
        ),
    };
    let value = full.to_value();
    assert_eq!(value["command"], Value::String("setBreakpoints".to_string()));
    assert_eq!(
        keys(&value["body"]),
        vec!["breakpoints"]
    );
    assert_eq!(ProtocolMessage::from_value(&value), Ok(full.clone()));
    assert_eq!(ProtocolMessage::from_str(&value.to_string()), Ok(full));
    let least = ProtocolMessage {
        seq: 7,
        content: ProtocolMessageContent::Response(
            Response {
                request_seq: 4,
                result: Ok(
                    SuccessResponse::SetBreakpoints(
                        SetBreakpointsResponseBody { breakpoints: Vec::new() },
                    ),
                ),
            },
        ),
    };
    let value = least.to_value();
    assert_eq!(keys(&value["body"]), vec!["breakpoints"]);
    assert_eq!(ProtocolMessage::from_value(&value), Ok(least));
}

#[test]
fn round_trip_response_set_data_breakpoints() {
    let full = ProtocolMessage {
        seq: 7,
        content: ProtocolMessageContent::Response(
            Response {
                request_seq: 4,
                result: Ok(
                    SuccessResponse::SetDataBreakpoints(
                        SetDataBreakpointsResponseBody {
                            breakpoints: vec![
                                Breakpoint {
                                    id: Some(7),
                                    verified: true,
                                    message: Some("text".to_string()),
                                    source: Some(
                                        Source {
                                            name: Some("text".to_string()),
                                            path: Some("text".to_string()),
                                            source_reference: Some(7),
                                            presentation_hint: Some(SourcePresentationHint::Deemphasize),
                                            origin: Some("text".to_string()),
                                            sources: vec![
                                                Source {
                                                    name: Some("text".to_string()),
                                                    path: Some("text".to_string()),
                                                    source_reference: Some(7),
                                                    presentation_hint: Some(SourcePresentationHint::Deemphasize),
                                                    origin: Some("text".to_string()),
                                                    sources: Vec::new(),
                                                    adapter_data: Some(Value::String("data".to_string())),
                                                    checksums: vec![
                                                        Checksum {
                                                            algorithm: ChecksumAlgorithm::Timestamp,
                                                            checksum: "text".to_string(),
                                                        },
                                                    ],
                                                },
                                            ],
                                            adapter_data: Some(Value::String("data".to_string())),
                                            checksums: vec![
                                                Checksum {
                                                    algorithm: ChecksumAlgorithm::Timestamp,
                                                    checksum: "text".to_string(),
                                                },
                                            ],
                                        },
                                    ),
                                    line: Some(7),
                                    column: Some(7),
                                    end_line: Some(7),
                                    end_column: Some(7),
                                    instruction_reference: Some("text".to_string()),
                                    offset: Some(7),
                                },
                            ],
                        },
                    ),
                ),
            },
        ),
    };
    let value = full.to_value();
    assert_eq!(value["command"], Value::String("setDataBreakpoints".to_string()));
    assert_eq!(
        keys(&value["body"]),
        vec!["breakpoints"]
    );
    assert_eq!(ProtocolMessage::from_value(&value), Ok(full.clone()));
    assert_eq!(ProtocolMessage::from_str(&value.to_string()), Ok(full));
    let least = ProtocolMessage {
        seq: 7,
        content: ProtocolMessageContent::Response(
            Response {
                request_seq: 4,
                result: Ok(
                    SuccessResponse::SetDataBreakpoints(
                        SetDataBreakpointsResponseBody { breakpoints: Vec::new() },
                    ),
                ),
            },
        ),
    };
    let value = least.to_value();
    assert_eq!(keys(&value["body"]), vec!["breakpoints"]);
    assert_eq!(ProtocolMessage::from_value(&value), Ok(least));
}

#[test]
fn round_trip_response_set_exception_breakpoints() {
    let full = ProtocolMessage {
        seq: 7,
        content: ProtocolMessageContent::Response(
            Response {
                request_seq: 4,
                result: Ok(
                    SuccessResponse::SetExceptionBreakpoints(
                        SetExceptionBreakpointsResponseBody {
                            breakpoints: Some(
                                vec![
                                    Breakpoint {
                                        id: Some(7),
                                        verified: true,
                                        message: Some("text".to_string()),
                                        source: Some(
                                            Source {
                                                name: Some("text".to_string()),
                                                path: Some("text".to_string()),
                                                source_reference: Some(7),
                                                presentation_hint: Some(SourcePresentationHint::Deemphasize),
                                                origin: Some("text".to_string()),
                                                sources: vec![
                                                    Source {
                                                        name: Some("text".to_string()),
                                                        path: Some("text".to_string()),
                                                        source_reference: Some(7),
                                                        presentation_hint: Some(
                                                            SourcePresentationHint::Deemphasize,
                                                        ),
                                                        origin: Some("text".to_string()),
                                                        sources: Vec::new(),
                                                        adapter_data: Some(Value::String("data".to_string())),
                                                        checksums: vec![
                                                            Checksum {
                                                                algorithm: ChecksumAlgorithm::Timestamp,
                                                                checksum: "text".to_string(),
                                                            },
                                                        ],
                                                    },
                                                ],
                                                adapter_data: Some(Value::String("data".to_string())),
                                                checksums: vec![
                                                    Checksum {
                                                        algorithm: ChecksumAlgorithm::Timestamp,
                                                        checksum: "text".to_string(),
                                                    },
                                                ],
                                            },
                                        ),
                                        line: Some(7),
                                        column: Some(7),
                                        end_line: Some(7),
                                        end_column: Some(7),
                                        instruction_reference: Some("text".to_string()),
                                        offset: Some(7),
                                    },
                                ],
                            ),
                        },
                    ),
                ),
            },
        ),
    };
    let value = full.to_value();
    assert_eq!(value["command"], Value::String("setExceptionBreakpoints".to_string()));
    assert_eq!(
        keys(&value["body"]),
        vec!["breakpoints"]
    );
    assert_eq!(ProtocolMessage::from_value(&value), Ok(full.clone()));
    assert_eq!(ProtocolMessage::from_str(&value.to_string()), Ok(full));
    let least = ProtocolMessage {
        seq: 7,
        content: ProtocolMessageContent::Response(
            Response {
                request_seq: 4,
                result: Ok(
                    SuccessResponse::SetExceptionBreakpoints(
                        SetExceptionBreakpointsResponseBody { breakpoints: None },
                    ),
                ),
            },
        ),
    };
    let value = least.to_value();
    assert_eq!(keys(&value["body"]), Vec::<&str>::new());
    assert_eq!(ProtocolMessage::from_value(&value), Ok(least));
}

#[test]
fn round_trip_response_set_expression() {
    let full = ProtocolMessage {
        seq: 7,
        content: ProtocolMessageContent::Response(
            Response {
                request_seq: 4,
                result: Ok(
                    SuccessResponse::SetExpression(
                        SetExpressionResponseBody {
                            value: "text".to_string(),
                            type_: Some("text".to_string()),
                            presentation_hint: Some(
                                VariablePresentationHint {
                                    kind: Some(VariableKind::DataBreakpoint),
                                    attributes: vec![VariableAttribute::HasDataBreakpoint],
                                    visibility: Some(VariableVisibility::Final),
                                },
                            ),
                            variables_reference: Some(7),
                            named_variables: Some(7),
                            indexed_variables: Some(7),
                        },
                    ),
                ),
            },
        ),
    };
    let value = full.to_value();
    assert_eq!(value["command"], Value::String("setExpression".to_string()));
    assert_eq!(
        keys(&value["body"]),
        vec![
            "value",
            "type",
            "presentationHint",
            "variablesReference",
            "namedVariables",
            "indexedVariables",
        ]
    );
    assert_eq!(ProtocolMessage::from_value(&value), Ok(full.clone()));
    assert_eq!(ProtocolMessage::from_str(&value.to_string()), Ok(full));
    let least = ProtocolMessage {
        seq: 7,
        content: ProtocolMessageContent::Response(
            Response {
                request_seq: 4,
                result: Ok(
                    SuccessResponse::SetExpression(
                        SetExpressionResponseBody {
                            value: "text".to_string(),
                            type_: None,
                            presentation_hint: None,
                            variables_reference: None,
                            named_variables: None,
                            indexed_variables: None,
                        },
                    ),
                ),
            },
        ),
    };
    let value = least.to_value();
    assert_eq!(keys(&value["body"]), vec!["value"]);
    assert_eq!(ProtocolMessage::from_value(&value), Ok(least));
}

#[test]
fn round_trip_response_set_function_breakpoints() {
    let full = ProtocolMessage {
        seq: 7,
        content: ProtocolMessageContent::Response(
            Response {
                request_seq: 4,
                result: Ok(
                    SuccessResponse::SetFunctionBreakpoints(
                        SetFunctionBreakpointsResponseBody {
                            breakpoints: vec![
                                Breakpoint {
                                    id: Some(7),
                                    verified: true,
                                    message: Some("text".to_string()),
                                    source: Some(
                                        Source {
                                            name: Some("text".to_string()),
                                            path: Some("text".to_string()),
                                            source_reference: Some(7),
                                            presentation_hint: Some(SourcePresentationHint::Deemphasize),
                                            origin: Some("text".to_string()),
                                            sources: vec![
                                                Source {
                                                    name: Some("text".to_string()),
                                                    path: Some("text".to_string()),
                                                    source_reference: Some(7),
                                                    presentation_hint: Some(SourcePresentationHint::Deemphasize),
                                                    origin: Some("text".to_string()),
                                                    sources: Vec::new(),
                                                    adapter_data: Some(Value::String("data".to_string())),
                                                    checksums: vec![
                                                        Checksum {
                                                            algorithm: ChecksumAlgorithm::Timestamp,
                                                            checksum: "text".to_string(),
                                                        },
                                                    ],
                                                },
                                            ],
                                            adapter_data: Some(Value::String("data".to_string())),
                                            checksums: vec![
                                                Checksum {
                                                    algorithm: ChecksumAlgorithm::Timestamp,
                                                    checksum: "text".to_string(),
                                                },
                                            ],
                                        },
                                    ),
                                    line: Some(7),
                                    column: Some(7),
                                    end_line: Some(7),
                                    end_column: Some(7),
                                    instruction_reference: Some("text".to_string()),
                                    offset: Some(7),
                                },
                            ],
                        },
                    ),
                ),
            },
        ),
    };
    let value = full.to_value();
    assert_eq!(value["command"], Value::String("setFunctionBreakpoints".to_string()));
    assert_eq!(
        keys(&value["body"]),
        vec!["breakpoints"]
    );
    assert_eq!(ProtocolMessage::from_value(&value), Ok(full.clone()));
    assert_eq!(ProtocolMessage::from_str(&value.to_string()), Ok(full));
    let least = ProtocolMessage {
        seq: 7,
        content: ProtocolMessageContent::Response(
            Response {
                request_seq: 4,
                result: Ok(
                    SuccessResponse::SetFunctionBreakpoints(
                        SetFunctionBreakpointsResponseBody { breakpoints: Vec::new() },
                    ),
                ),
            },
        ),
    };
    let value = least.to_value();
    assert_eq!(keys(&value["body"]), vec!["breakpoints"]);
    assert_eq!(ProtocolMessage::from_value(&value), Ok(least));
}

#[test]
fn round_trip_response_set_instruction_breakpoints() {
    let full = ProtocolMessage {
        seq: 7,
        content: ProtocolMessageContent::Response(
            Response {
                request_seq: 4,
                result: Ok(
                    SuccessResponse::SetInstructionBreakpoints(
                        SetInstructionBreakpointsResponseBody {
                            breakpoints: vec![
                                Breakpoint {
                                    id: Some(7),
                                    verified: true,
                                    message: Some("text".to_string()),
                                    source: Some(
                                        Source {
                                            name: Some("text".to_string()),
                                            path: Some("text".to_string()),
                                            source_reference: Some(7),
                                            presentation_hint: Some(SourcePresentationHint::Deemphasize),
                                            origin: Some("text".to_string()),
                                            sources: vec![
                                                Source {
                                                    name: Some("text".to_string()),
                                                    path: Some("text".to_string()),
                                                    source_reference: Some(7),
                                                    presentation_hint: Some(SourcePresentationHint::Deemphasize),
                                                    origin: Some("text".to_string()),
                                                    sources: Vec::new(),
                                                    adapter_data: Some(Value::String("data".to_string())),
                                                    checksums: vec![
                                                        Checksum {
                                                            algorithm: ChecksumAlgorithm::Timestamp,
                                                            checksum: "text".to_string(),
                                                        },
                                                    ],
                                                },
                                            ],
                                            adapter_data: Some(Value::String("data".to_string())),
                                            checksums: vec![
                                                Checksum {
                                                    algorithm: ChecksumAlgorithm::Timestamp,
                                                    checksum: "text".to_string(),
                                                },
                                            ],
                                        },
                                    ),
                                    line: Some(7),
                                    column: Some(7),
                                    end_line: Some(7),
                                    end_column: Some(7),
                                    instruction_reference: Some("text".to_string()),
                                    offset: Some(7),
                                },
                            ],
                        },
                    ),
                ),
            },
        ),
    };
    let value = full.to_value();
    assert_eq!(value["command"], Value::String("setInstructionBreakpoints".to_string()));
    assert_eq!(
        keys(&value["body"]),
        vec!["breakpoints"]
    );
    assert_eq!(ProtocolMessage::from_value(&value), Ok(full.clone()));
    assert_eq!(ProtocolMessage::from_str(&value.to_string()), Ok(full));
    let least = ProtocolMessage {
        seq: 7,
        content: ProtocolMessageContent::Response(
            Response {
                request_seq: 4,
                result: Ok(
                    SuccessResponse::SetInstructionBreakpoints(
                        SetInstructionBreakpointsResponseBody { breakpoints: Vec::new() },
                    ),
                ),
            },
        ),
    };
    let value = least.to_value();
    assert_eq!(keys(&value["body"]), vec!["breakpoints"]);
    assert_eq!(ProtocolMessage::from_value(&value), Ok(least));
}

#[test]
fn round_trip_response_set_variable() {
    let full = ProtocolMessage {
        seq: 7,
        content: ProtocolMessageContent::Response(
            Response {
                request_seq: 4,
                result: Ok(
                    SuccessResponse::SetVariable(
                        SetVariableResponseBody {
                            value: "text".to_string(),
                            type_: Some("text".to_string()),
                            variables_reference: Some(7),
                            named_variables: Some(7),
                            indexed_variables: Some(7),
                        },
                    ),
                ),
            },
        ),
    };
    let value = full.to_value();
    assert_eq!(value["command"], Value::String("setVariable".to_string()));
    assert_eq!(
        keys(&value["body"]),
        vec!["value", "type", "variablesReference", "namedVariables", "indexedVariables"]
    );
    assert_eq!(ProtocolMessage::from_value(&value), Ok(full.clone()));
    assert_eq!(ProtocolMessage::from_str(&value.to_string()), Ok(full));
    let least = ProtocolMessage {
        seq: 7,
        content: ProtocolMessageContent::Response(
            Response {
                request_seq: 4,
                result: Ok(
                    SuccessResponse::SetVariable(
                        SetVariableResponseBody {
                            value: "text".to_string(),
                            type_: None,
                            variables_reference: None,
                            named_variables: None,
                            indexed_variables: None,
                        },
                    ),
                ),
            },
        ),
    };
    let value = least.to_value();
    assert_eq!(keys(&value["body"]), vec!["value"]);
    assert_eq!(ProtocolMessage::from_value(&value), Ok(least));
}

#[test]
fn round_trip_response_source() {
    let full = ProtocolMessage {
        seq: 7,
        content: ProtocolMessageContent::Response(
            Response {
                request_seq: 4,
                result: Ok(
                    SuccessResponse::Source(
                        SourceResponseBody {
                            content: "text".to_string(),
                            mime_type: Some("text".to_string()),
                        },
                    ),
                ),
            },
        ),
    };
    let value = full.to_value();
    assert_eq!(value["command"], Value::String("source".to_string()));
    assert_eq!(
        keys(&value["body"]),
        vec!["content", "mimeType"]
    );
    assert_eq!(ProtocolMessage::from_value(&value), Ok(full.clone()));
    assert_eq!(ProtocolMessage::from_str(&value.to_string()), Ok(full));
    let least = ProtocolMessage {
        seq: 7,
        content: ProtocolMessageContent::Response(
            Response {
                request_seq: 4,
                result: Ok(
                    SuccessResponse::Source(
                        SourceResponseBody { content: "text".to_string(), mime_type: None },
                    ),
                ),
            },
        ),
    };
    let value = least.to_value();
    assert_eq!(keys(&value["body"]), vec!["content"]);
    assert_eq!(ProtocolMessage::from_value(&value), Ok(least));
}

#[test]
fn round_trip_response_stack_trace() {
    let full = ProtocolMessage {
        seq: 7,
        content: ProtocolMessageContent::Response(
            Response {
                request_seq: 4,
                result: Ok(
                    SuccessResponse::StackTrace(
                        StackTraceResponseBody {
                            stack_frames: vec![
                                StackFrame {
                                    id: 7,
                                    name: "text".to_string(),
                                    source: Some(
                                        Source {
                                            name: Some("text".to_string()),
                                            path: Some("text".to_string()),
                                            source_reference: Some(7),
                                            presentation_hint: Some(SourcePresentationHint::Deemphasize),
                                            origin: Some("text".to_string()),
                                            sources: vec![
                                                Source {
                                                    name: Some("text".to_string()),
                                                    path: Some("text".to_string()),
                                                    source_reference: Some(7),
                                                    presentation_hint: Some(SourcePresentationHint::Deemphasize),
                                                    origin: Some("text".to_string()),
                                                    sources: Vec::new(),
                                                    adapter_data: Some(Value::String("data".to_string())),
                                                    checksums: vec![
                                                        Checksum {
                                                            algorithm: ChecksumAlgorithm::Timestamp,
                                                            checksum: "text".to_string(),
                                                        },
                                                    ],
                                                },
                                            ],
                                            adapter_data: Some(Value::String("data".to_string())),
                                            checksums: vec![
                                                Checksum {
                                                    algorithm: ChecksumAlgorithm::Timestamp,
                                                    checksum: "text".to_string(),
                                                },
                                            ],
                                        },
                                    ),
                                    line: 7,
                                    column: 7,
                                    end_line: Some(7),
                                    end_column: Some(7),
                                    can_restart: Some(true),
                                    instruction_pointer_reference: Some("text".to_string()),
                                    module_id: Some(ModuleId::String("mod".to_string())),
                                    presentation_hint: Some(StackFramePresentationHint::Subtle),
                                },
                            ],
                            total_frames: Some(7),
                        },
                    ),
                ),
            },
        ),
    };
    let value = full.to_value();
    assert_eq!(value["command"], Value::String("stackTrace".to_string()));
    assert_eq!(
        keys(&value["body"]),
        vec!["stackFrames", "totalFrames"]
    );
    assert_eq!(ProtocolMessage::from_value(&value), Ok(full.clone()));
    assert_eq!(ProtocolMessage::from_str(&value.to_string()), Ok(full));
    let least = ProtocolMessage {
        seq: 7,
        content: ProtocolMessageContent::Response(
            Response {
                request_seq: 4,
                result: Ok(
                    SuccessResponse::StackTrace(
                        StackTraceResponseBody { stack_frames: Vec::new(), total_frames: None },
                    ),
                ),
            },
        ),
    };
    let value = least.to_value();
    assert_eq!(keys(&value["body"]), vec!["stackFrames"]);
    assert_eq!(ProtocolMessage::from_value(&value), Ok(least));
}

#[test]
fn round_trip_response_step_back() {
    let message = ProtocolMessage {
        seq: 7,
        content: ProtocolMessageContent::Response(
            Response { request_seq: 4, result: Ok(SuccessResponse::StepBack) },
        ),
    };
    let value = message.to_value();
    assert_eq!(value["command"], Value::String("stepBack".to_string()));
    assert!(value.get("body").is_none());
    assert_eq!(ProtocolMessage::from_value(&value), Ok(message.clone()));
    assert_eq!(ProtocolMessage::from_str(&value.to_string()), Ok(message));
}

#[test]
fn round_trip_response_step_in() {
    let message = ProtocolMessage {
        seq: 7,
        content: ProtocolMessageContent::Response(
            Response { request_seq: 4, result: Ok(SuccessResponse::StepIn) },
        ),
    };
    let value = message.to_value();
    assert_eq!(value["command"], Value::String("stepIn".to_string()));
    assert!(value.get("body").is_none());
    assert_eq!(ProtocolMessage::from_value(&value), Ok(message.clone()));
    assert_eq!(ProtocolMessage::from_str(&value.to_string()), Ok(message));
}

#[test]
fn round_trip_response_step_in_targets() {
    let full = ProtocolMessage {
        seq: 7,
        content: ProtocolMessageContent::Response(
            Response {
                request_seq: 4,
                result: Ok(
                    SuccessResponse::StepInTargets(
                        StepInTargetsResponseBody {
                            targets: vec![StepInTarget { id: 7, label: "text".to_string() }],
                        },
                    ),
                ),
            },
        ),
    };
    let value = full.to_value();
    assert_eq!(value["command"], Value::String("stepInTargets".to_string()));
    assert_eq!(
        keys(&value["body"]),
        vec!["targets"]
    );
    assert_eq!(ProtocolMessage::from_value(&value), Ok(full.clone()));
    assert_eq!(ProtocolMessage::from_str(&value.to_string()), Ok(full));
    let least = ProtocolMessage {
        seq: 7,
        content: ProtocolMessageContent::Response(
            Response {
                request_seq: 4,
                result: Ok(
                    SuccessResponse::StepInTargets(
                        StepInTargetsResponseBody { targets: Vec::new() },
                    ),
                ),
            },
        ),
    };
    let value = least.to_value();
    assert_eq!(keys(&value["body"]), vec!["targets"]);
    assert_eq!(ProtocolMessage::from_value(&value), Ok(least));
}

#[test]
fn round_trip_response_step_out() {
    let message = ProtocolMessage {
        seq: 7,
        content: ProtocolMessageContent::Response(
            Response { request_seq: 4, result: Ok(SuccessResponse::StepOut) },
        ),
    };
    let value = message.to_value();
    assert_eq!(value["command"], Value::String("stepOut".to_string()));
    assert!(value.get("body").is_none());
    assert_eq!(ProtocolMessage::from_value(&value), Ok(message.clone()));
    assert_eq!(ProtocolMessage::from_str(&value.to_string()), Ok(message));
}

#[test]
fn round_trip_response_terminate() {
    let message = ProtocolMessage {
        seq: 7,
        content: ProtocolMessageContent::Response(
            Response { request_seq: 4, result: Ok(SuccessResponse::Terminate) },
        ),
    };
    let value = message.to_value();
    assert_eq!(value["command"], Value::String("terminate".to_string()));
    assert!(value.get("body").is_none());
    assert_eq!(ProtocolMessage::from_value(&value), Ok(message.clone()));
    assert_eq!(ProtocolMessage::from_str(&value.to_string()), Ok(message));
}

#[test]
fn round_trip_response_terminate_threads() {
    let message = ProtocolMessage {
        seq: 7,
        content: ProtocolMessageContent::Response(
            Response { request_seq: 4, result: Ok(SuccessResponse::TerminateThreads) },
        ),
    };
    let value = message.to_value();
    assert_eq!(value["command"], Value::String("terminateThreads".to_string()));
    assert!(value.get("body").is_none());
    assert_eq!(ProtocolMessage::from_value(&value), Ok(message.clone()));
    assert_eq!(ProtocolMessage::from_str(&value.to_string()), Ok(message));
}

#[test]
fn round_trip_response_threads() {
    let full = ProtocolMessage {
        seq: 7,
        content: ProtocolMessageContent::Response(
            Response {
                request_seq: 4,
                result: Ok(
                    SuccessResponse::Threads(
                        ThreadsResponseBody {
                            threads: vec![Thread { id: 7, name: "text".to_string() }],
                        },
                    ),
                ),
            },
        ),
    };
    let value = full.to_value();
    assert_eq!(value["command"], Value::String("threads".to_string()));
    assert_eq!(
        keys(&value["body"]),
        vec!["threads"]
    );
    assert_eq!(ProtocolMessage::from_value(&value), Ok(full.clone()));
    assert_eq!(ProtocolMessage::from_str(&value.to_string()), Ok(full));
    let least = ProtocolMessage {
        seq: 7,
        content: ProtocolMessageContent::Response(
            Response {
                request_seq: 4,
                result: Ok(SuccessResponse::Threads(ThreadsResponseBody { threads: Vec::new() })),
            },
        ),
    };
    let value = least.to_value();
    assert_eq!(keys(&value["body"]), vec!["threads"]);
    assert_eq!(ProtocolMessage::from_value(&value), Ok(least));
}

#[test]
fn round_trip_response_variables() {
    let full = ProtocolMessage {
        seq: 7,
        content: ProtocolMessageContent::Response(
            Response {
                request_seq: 4,
                result: Ok(
                    SuccessResponse::Variables(
                        VariablesResponseBody {
                            variables: vec![
                                Variable {
                                    name: "text".to_string(),
                                    value: "text".to_string(),
                                    type_: Some("text".to_string()),
                                    presentation_hint: Some(
                                        VariablePresentationHint {
                                            kind: Some(VariableKind::DataBreakpoint),
                                            attributes: vec![VariableAttribute::HasDataBreakpoint],
                                            visibility: Some(VariableVisibility::Final),
                                        },
                                    ),
                                    evaluate_name: Some("text".to_string()),
                                    variables_reference: 7,
                                    named_variables: Some(7),
                                    indexed_variables: Some(7),
                                    memory_reference: Some("text".to_string()),
                                },
                            ],
                        },
                    ),
                ),
            },
        ),
    };
    let value = full.to_value();
    assert_eq!(value["command"], Value::String("variables".to_string()));
    assert_eq!(
        keys(&value["body"]),
        vec!["variables"]
    );
    assert_eq!(ProtocolMessage::from_value(&value), Ok(full.clone()));
    assert_eq!(ProtocolMessage::from_str(&value.to_string()), Ok(full));
    let least = ProtocolMessage {
        seq: 7,
        content: ProtocolMessageContent::Response(
            Response {
                request_seq: 4,
                result: Ok(SuccessResponse::Variables(VariablesResponseBody { variables: Vec::new() })),
            },
        ),
    };
    let value = least.to_value();
    assert_eq!(keys(&value["body"]), vec!["variables"]);
    assert_eq!(ProtocolMessage::from_value(&value), Ok(least));
}
