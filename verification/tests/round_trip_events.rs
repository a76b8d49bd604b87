use debug_adapter_protocol::{ProtocolMessage, ProtocolMessageContent};
use debug_adapter_protocol::events::{
    BreakpointEventBody, BreakpointEventReason, CapabilitiesEventBody, ContinuedEventBody,
    Event, ExitedEventBody, InvalidatedEventBody, LoadedSourceEventBody,
    LoadedSourceEventReason, ModuleEventBody, ModuleEventReason, OutputCategory,
    OutputEventBody, OutputGroup, ProcessEventBody, ProcessStartMethod, ProgressEndEventBody,
    ProgressStartEventBody, ProgressUpdateEventBody, StoppedEventBody, StoppedEventReason,
    TerminatedEventBody, ThreadEventBody, ThreadEventReason,
};
use debug_adapter_protocol::types::{
    Breakpoint, Capabilities, Checksum, ChecksumAlgorithm, ColumnDescriptor,
    ColumnDescriptorType, ExceptionBreakpointsFilter, InstructionBreakpoint, InvalidatedAreas,
    Module, ModuleId, Source, SourcePresentationHint, Thread,
};
use debug_adapter_protocol::wire::Wire;
use serde_json::Value;

fn keys(value: &Value) -> Vec<&str> {
    value.as_object().unwrap().keys().map(|k| k.as_str()).collect()
}

#[test]
fn round_trip_event_breakpoint() {
    let full = ProtocolMessage {
        seq: 6,
        content: ProtocolMessageContent::Event(
            Event::Breakpoint(
                BreakpointEventBody {
                    reason: BreakpointEventReason::Removed,
                    breakpoint: Breakpoint {
                        id: Some(7),
                        verified: true,
                        message: Some("text".to_string()),
                        source: Some(
                            Source {
                                name: Some("text".to_string()),
                                path: Some("text".to_string()),
                                source_reference: Some(7),
                                presentation_hint: Some(SourcePresentationHint::Deemphasize),
                                origin: Some("text".to_string()),
                                sources: vec![
                                    Source {
                                        name: Some("text".to_string()),
                                        path: Some("text".to_string()),
                                        source_reference: Some(7),
                                        presentation_hint: Some(SourcePresentationHint::Deemphasize),
                                        origin: Some("text".to_string()),
                                        sources: Vec::new(),
                                        adapter_data: Some(Value::String("data".to_string())),
                                        checksums: vec![
                                            Checksum {
                                                algorithm: ChecksumAlgorithm::Timestamp,
                                                checksum: "text".to_string(),
                                            },
                                        ],
                                    },
                                ],
                                adapter_data: Some(Value::String("data".to_string())),
                                checksums: vec![
                                    Checksum {
                                        algorithm: ChecksumAlgorithm::Timestamp,
                                        checksum: "text".to_string(),
                                    },
                                ],
                            },
                        ),
                        line: Some(7),
                        column: Some(7),
                        end_line: Some(7),
                        end_column: Some(7),
                        instruction_reference: Some("text".to_string()),
                        offset: Some(7),
                    },
                },
            ),
        ),
    };
    let value = full.to_value();
    assert_eq!(value["event"], Value::String("breakpoint".to_string()));
    assert_eq!(
        keys(&value["body"]),
        vec!["reason", "breakpoint"]
    );
    assert_eq!(ProtocolMessage::from_value(&value), Ok(full.clone()));
    assert_eq!(ProtocolMessage::from_str(&value.to_string()), Ok(full));
    let least = ProtocolMessage {
        seq: 6,
        content: ProtocolMessageContent::Event(
            Event::Breakpoint(
                BreakpointEventBody {
                    reason: BreakpointEventReason::Changed,
                    breakpoint: Breakpoint {
                        id: None,
                        verified: true,
                        message: None,
                        source: None,
                        line: None,
                        column: None,
                        end_line: None,
                        end_column: None,
                        instruction_reference: None,
                        offset: None,
                    },
                },
            ),
        ),
    };
    let value = least.to_value();
    assert_eq!(keys(&value["body"]), vec!["reason", "breakpoint"]);
    assert_eq!(ProtocolMessage::from_value(&value), Ok(least));
}

#[test]
fn round_trip_event_capabilities() {
    let full = ProtocolMessage {
        seq: 6,
        content: ProtocolMessageContent::Event(
            Event::Capabilities(
                CapabilitiesEventBody {
                    capabilities: Capabilities {
                        supports_configuration_done_request: true,
                        supports_function_breakpoints: true,
                        supports_conditional_breakpoints: true,
                        supports_hit_conditional_breakpoints: true,
                        supports_evaluate_for_hovers: true,
                        exception_breakpoint_filters: vec![
                            ExceptionBreakpointsFilter {
                                filter: "text".to_string(),
                                label: "text".to_string(),
                                description: Some("text".to_string()),
                                default: true,
                                supports_condition: true,
                                condition_description: Some("text".to_string()),
                            },
                        ],
                        supports_step_back: true,
                        supports_set_variable: true,
                        supports_restart_frame: true,
                        supports_goto_targets_request: true,
                        supports_step_in_targets_request: true,
                        supports_completions_request: true,
                        completion_trigger_characters: Some(vec!["text".to_string()]),
                        supports_modules_request: true,
                        additional_module_columns: vec![
                            ColumnDescriptor {
                                attribute_name: "text".to_string(),
                                label: "text".to_string(),
                                format: Some("text".to_string()),
                                type_: ColumnDescriptorType::UnixTimestampUTC,
                                width: Some(7),
                            },
                        ],
                        supported_checksum_algorithms: vec![ChecksumAlgorithm::Timestamp],
                        supports_restart_request: true,
                        supports_exception_options: true,
                        supports_value_formatting_options: true,
                        supports_exception_info_request: true,
                        support_terminate_debuggee: true,
                        support_suspend_debuggee: true,
                        supports_delayed_stack_trace_loading: true,
                        supports_loaded_sources_request: true,
                        supports_log_points: true,
                        supports_terminate_threads_request: true,
                        supports_set_expression: true,
                        supports_terminate_request: true,
                        supports_data_breakpoints: true,
                        supports_read_memory_request: true,
                        supports_disassemble_request: true,
                        supports_cancel_request: true,
                        supports_breakpoint_locations_request: true,
                        supports_clipboard_context: true,
                        supports_stepping_granularity: true,
                        supports_instruction_breakpoints: true,
                        supports_exception_filter_options: true,
                    },
                },
            ),
        ),
    };
    let value = full.to_value();
    assert_eq!(value["event"], Value::String("capabilities".to_string()));
    assert_eq!(
        keys(&value["body"]),
        vec!["capabilities"]
    );
    assert_eq!(ProtocolMessage::from_value(&value), Ok(full.clone()));
    assert_eq!(ProtocolMessage::from_str(&value.to_string()), Ok(full));
    let least = ProtocolMessage {
        seq: 6,
        content: ProtocolMessageContent::Event(
            Event::Capabilities(
                CapabilitiesEventBody {
                    capabilities: Capabilities {
                        supports_configuration_done_request: false,
                        supports_function_breakpoints: false,
                        supports_conditional_breakpoints: false,
                        supports_hit_conditional_breakpoints: false,
                        supports_evaluate_for_hovers: false,
                        exception_breakpoint_filters: Vec::new(),
                        supports_step_back: false,
                        supports_set_variable: false,
                        supports_restart_frame: false,
                        supports_goto_targets_request: false,
                        supports_step_in_targets_request: false,
                        supports_completions_request: false,
                        completion_trigger_characters: None,
                        supports_modules_request: false,
                        additional_module_columns: Vec::new(),
                        supported_checksum_algorithms: Vec::new(),
                        supports_restart_request: false,
                        supports_exception_options: false,
                        supports_value_formatting_options: false,
                        supports_exception_info_request: false,
                        support_terminate_debuggee: false,
                        support_suspend_debuggee: false,
                        supports_delayed_stack_trace_loading: false,
                        supports_loaded_sources_request: false,
                        supports_log_points: false,
                        supports_terminate_threads_request: false,
                        supports_set_expression: false,
                        supports_terminate_request: false,
                        supports_data_breakpoints: false,
                        supports_read_memory_request: false,
                        supports_disassemble_request: false,
                        supports_cancel_request: false,
                        supports_breakpoint_locations_request: false,
                        supports_clipboard_context: false,
                        supports_stepping_granularity: false,
                        supports_instruction_breakpoints: false,
                        supports_exception_filter_options: false,
                    },
                },
            ),
        ),
    };
    let value = least.to_value();
    assert_eq!(keys(&value["body"]), vec!["capabilities"]);
    assert_eq!(ProtocolMessage::from_value(&value), Ok(least));
}

#[test]
fn round_trip_event_continued() {
    let full = ProtocolMessage {
        seq: 6,
        content: ProtocolMessageContent::Event(
            Event::Continued(ContinuedEventBody { thread_id: 7, all_threads_continued: true }),
        ),
    };
    let value = full.to_value();
    assert_eq!(value["event"], Value::String("continued".to_string()));
    assert_eq!(
        keys(&value["body"]),
        vec!["threadId", "allThreadsContinued"]
    );
    assert_eq!(ProtocolMessage::from_value(&value), Ok(full.clone()));
    assert_eq!(ProtocolMessage::from_str(&value.to_string()), Ok(full));
    let least = ProtocolMessage {
        seq: 6,
        content: ProtocolMessageContent::Event(
            Event::Continued(ContinuedEventBody { thread_id: 1, all_threads_continued: false }),
        ),
    };
    let value = least.to_value();
    assert_eq!(keys(&value["body"]), vec!["threadId"]);
    assert_eq!(ProtocolMessage::from_value(&value), Ok(least));
}

#[test]
fn round_trip_event_exited() {
    let full = ProtocolMessage {
        seq: 6,
        content: ProtocolMessageContent::Event(Event::Exited(ExitedEventBody { exit_code: 7 })),
    };
    let value = full.to_value();
    assert_eq!(value["event"], Value::String("exited".to_string()));
    assert_eq!(
        keys(&value["body"]),
        vec!["exitCode"]
    );
    assert_eq!(ProtocolMessage::from_value(&value), Ok(full.clone()));
    assert_eq!(ProtocolMessage::from_str(&value.to_string()), Ok(full));
    let least = ProtocolMessage {
        seq: 6,
        content: ProtocolMessageContent::Event(Event::Exited(ExitedEventBody { exit_code: 1 })),
    };
    let value = least.to_value();
    assert_eq!(keys(&value["body"]), vec!["exitCode"]);
    assert_eq!(ProtocolMessage::from_value(&value), Ok(least));
}

#[test]
fn round_trip_event_initialized() {
    let message = ProtocolMessage { seq: 6, content: ProtocolMessageContent::Event(Event::Initialized) };
    let value = message.to_value();
    assert_eq!(value["event"], Value::String("initialized".to_string()));
    assert!(value.get("body").is_none());
    assert_eq!(ProtocolMessage::from_value(&value), Ok(message.clone()));
    assert_eq!(ProtocolMessage::from_str(&value.to_string()), Ok(message));
}

#[test]
fn round_trip_event_invalidated() {
    let full = ProtocolMessage {
        seq: 6,
        content: ProtocolMessageContent::Event(
            Event::Invalidated(
                InvalidatedEventBody {
                    areas: vec![InvalidatedAreas::Variables],
                    thread_id: Some(7),
                    stack_frame_id: Some(7),
                },
            ),
        ),
    };
    let value = full.to_value();
    assert_eq!(value["event"], Value::String("invalidated".to_string()));
    assert_eq!(
        keys(&value["body"]),
        vec!["areas", "threadId", "stackFrameId"]
    );
    assert_eq!(ProtocolMessage::from_value(&value), Ok(full.clone()));
    assert_eq!(ProtocolMessage::from_str(&value.to_string()), Ok(full));
    let least = ProtocolMessage {
        seq: 6,
        content: ProtocolMessageContent::Event(
            Event::Invalidated(
                InvalidatedEventBody {
                    areas: Vec::new(),
                    thread_id: None,
                    stack_frame_id: None,
                },
            ),
        ),
    };
    let value = least.to_value();
    assert_eq!(keys(&value["body"]), Vec::<&str>::new());
    assert_eq!(ProtocolMessage::from_value(&value), Ok(least));
}

#[test]
fn round_trip_event_loaded_source() {
    let full = ProtocolMessage {
        seq: 6,
        content: ProtocolMessageContent::Event(
            Event::LoadedSource(
                LoadedSourceEventBody {
                    reason: LoadedSourceEventReason::Removed,
                    source: Source {
                        name: Some("text".to_string()),
                        path: Some("text".to_string()),
                        source_reference: Some(7),
                        presentation_hint: Some(SourcePresentationHint::Deemphasize),
                        origin: Some("text".to_string()),
                        sources: vec![
                            Source {
                                name: Some("text".to_string()),
                                path: Some("text".to_string()),
                                source_reference: Some(7),
                                presentation_hint: Some(SourcePresentationHint::Deemphasize),
                                origin: Some("text".to_string()),
                                sources: Vec::new(),
                                adapter_data: Some(Value::String("data".to_string())),
                                checksums: vec![
                                    Checksum {
                                        algorithm: ChecksumAlgorithm::Timestamp,
                                        checksum: "text".to_string(),
                                    },
                                ],
                            },
                        ],
                        adapter_data: Some(Value::String("data".to_string())),
                        checksums: vec![
                            Checksum {
                                algorithm: ChecksumAlgorithm::Timestamp,
                                checksum: "text".to_string(),
                            },
                        ],
                    },
                },
            ),
        ),
    };
    let value = full.to_value();
    assert_eq!(value["event"], Value::String("loadedSource".to_string()));
    assert_eq!(
        keys(&value["body"]),
        vec!["reason", "source"]
    );
    assert_eq!(ProtocolMessage::from_value(&value), Ok(full.clone()));
    assert_eq!(ProtocolMessage::from_str(&value.to_string()), Ok(full));
    let least = ProtocolMessage {
        seq: 6,
        content: ProtocolMessageContent::Event(
            Event::LoadedSource(
                LoadedSourceEventBody {
                    reason: LoadedSourceEventReason::New,
                    source: Source {
                        name: None,
                        path: None,
                        source_reference: None,
                        presentation_hint: None,
                        origin: None,
                        sources: Vec::new(),
                        adapter_data: None,
                        checksums: Vec::new(),
                    },
                },
            ),
        ),
    };
    let value = least.to_value();
    assert_eq!(keys(&value["body"]), vec!["reason", "source"]);
    assert_eq!(ProtocolMessage::from_value(&value), Ok(least));
}

#[test]
fn round_trip_event_module() {
    let full = ProtocolMessage {
        seq: 6,
        content: ProtocolMessageContent::Event(
            Event::Module(
                ModuleEventBody {
                    reason: ModuleEventReason::Removed,
                    module: Module {
                        id: ModuleId::String("mod".to_string()),
                        name: "text".to_string(),
                        path: Some("text".to_string()),
                        is_optimized: Some(true),
                        is_user_code: Some(true),
                        version: Some("text".to_string()),
                        symbol_status: Some("text".to_string()),
                        symbol_file_path: Some("text".to_string()),
                        date_time_stamp: Some("text".to_string()),
                        address_range: Some("text".to_string()),
                    },
                },
            ),
        ),
    };
    let value = full.to_value();
    assert_eq!(value["event"], Value::String("module".to_string()));
    assert_eq!(
        keys(&value["body"]),
        vec!["reason", "module"]
    );
    assert_eq!(ProtocolMessage::from_value(&value), Ok(full.clone()));
    assert_eq!(ProtocolMessage::from_str(&value.to_string()), Ok(full));
    let least = ProtocolMessage {
        seq: 6,
        content: ProtocolMessageContent::Event(
            Event::Module(
                ModuleEventBody {
                    reason: ModuleEventReason::New,
                    module: Module {
                        id: ModuleId::Integer(1),
                        name: "text".to_string(),
                        path: None,
                        is_optimized: None,
                        is_user_code: None,
                        version: None,
                        symbol_status: None,
                        symbol_file_path: None,
                        date_time_stamp: None,
                        address_range: None,
                    },
                },
            ),
        ),
    };
    let value = least.to_value();
    assert_eq!(keys(&value["body"]), vec!["reason", "module"]);
    assert_eq!(ProtocolMessage::from_value(&value), Ok(least));
}

#[test]
fn round_trip_event_output() {
    let full = ProtocolMessage {
        seq: 6,
        content: ProtocolMessageContent::Event(
            Event::Output(
                OutputEventBody {
                    category: OutputCategory::Telemetry,
                    output: "text".to_string(),
                    group: Some(OutputGroup::End),
                    variables_reference: Some(7),
                    source: Some(
                        Source {
                            name: Some("text".to_string()),
                            path: Some("text".to_string()),
                            source_reference: Some(7),
                            presentation_hint: Some(SourcePresentationHint::Deemphasize),
                            origin: Some("text".to_string()),
                            sources: vec![
                                Source {
                                    name: Some("text".to_string()),
                                    path: Some("text".to_string()),
                                    source_reference: Some(7),
                                    presentation_hint: Some(SourcePresentationHint::Deemphasize),
                                    origin: Some("text".to_string()),
                                    sources: Vec::new(),
                                    adapter_data: Some(Value::String("data".to_string())),
                                    checksums: vec![
                                        Checksum {
                                            algorithm: ChecksumAlgorithm::Timestamp,
                                            checksum: "text".to_string(),
                                        },
                                    ],
                                },
                            ],
                            adapter_data: Some(Value::String("data".to_string())),
                            checksums: vec![
                                Checksum {
                                    algorithm: ChecksumAlgorithm::Timestamp,
                                    checksum: "text".to_string(),
                                },
                            ],
                        },
                    ),
                    line: Some(7),
                    column: Some(7),
                    data: Some(Value::String("data".to_string())),
                },
            ),
        ),
    };
    let value = full.to_value();
    assert_eq!(value["event"], Value::String("output".to_string()));
    assert_eq!(
        keys(&value["body"]),
        vec![
            "category",
            "output",
            "group",
            "variablesReference",
            "source",
            "line",
            "column",
            "data",
        ]
    );
    assert_eq!(ProtocolMessage::from_value(&value), Ok(full.clone()));
    assert_eq!(ProtocolMessage::from_str(&value.to_string()), Ok(full));
    let least = ProtocolMessage {
        seq: 6,
        content: ProtocolMessageContent::Event(
            Event::Output(
                OutputEventBody {
                    category: OutputCategory::Console,
                    output: "text".to_string(),
                    group: None,
                    variables_reference: None,
                    source: None,
                    line: None,
                    column: None,
                    data: None,
                },
            ),
        ),
    };
    let value = least.to_value();
    assert_eq!(keys(&value["body"]), vec!["output"]);
    assert_eq!(ProtocolMessage::from_value(&value), Ok(least));
}

#[test]
fn round_trip_event_process() {
    let full = ProtocolMessage {
        seq: 6,
        content: ProtocolMessageContent::Event(
            Event::Process(
                ProcessEventBody {
                    name: "text".to_string(),
                    system_process_id: Some(7),
                    is_local_process: Some(true),
                    start_method: Some(ProcessStartMethod::AttachForSuspendedLaunch),
                    pointer_size: Some(7),
                },
            ),
        ),
    };
    let value = full.to_value();
    assert_eq!(value["event"], Value::String("process".to_string()));
    assert_eq!(
        keys(&value["body"]),
        vec!["name", "systemProcessId", "isLocalProcess", "startMethod", "pointerSize"]
    );
    assert_eq!(ProtocolMessage::from_value(&value), Ok(full.clone()));
    assert_eq!(ProtocolMessage::from_str(&value.to_string()), Ok(full));
    let least = ProtocolMessage {
        seq: 6,
        content: ProtocolMessageContent::Event(
            Event::Process(
                ProcessEventBody {
                    name: "text".to_string(),
                    system_process_id: None,
                    is_local_process: None,
                    start_method: None,
                    pointer_size: None,
                },
            ),
        ),
    };
    let value = least.to_value();
    assert_eq!(keys(&value["body"]), vec!["name"]);
    assert_eq!(ProtocolMessage::from_value(&value), Ok(least));
}

#[test]
fn round_trip_event_progress_end() {
    let full = ProtocolMessage {
        seq: 6,
        content: ProtocolMessageContent::Event(
            Event::ProgressEnd(
                ProgressEndEventBody {
                    progress_id: "text".to_string(),
                    message: Some("text".to_string()),
                },
            ),
        ),
    };
    let value = full.to_value();
    assert_eq!(value["event"], Value::String("progressEnd".to_string()));
    assert_eq!(
        keys(&value["body"]),
        vec!["progressId", "message"]
    );
    assert_eq!(ProtocolMessage::from_value(&value), Ok(full.clone()));
    assert_eq!(ProtocolMessage::from_str(&value.to_string()), Ok(full));
    let least = ProtocolMessage {
        seq: 6,
        content: ProtocolMessageContent::Event(
            Event::ProgressEnd(
                ProgressEndEventBody { progress_id: "text".to_string(), message: None },
            ),
        ),
    };
    let value = least.to_value();
    assert_eq!(keys(&value["body"]), vec!["progressId"]);
    assert_eq!(ProtocolMessage::from_value(&value), Ok(least));
}

#[test]
fn round_trip_event_progress_start() {
    let full = ProtocolMessage {
        seq: 6,
        content: ProtocolMessageContent::Event(
            Event::ProgressStart(
                ProgressStartEventBody {
                    progress_id: "text".to_string(),
                    title: "text".to_string(),
                    request_id: Some(7),
                    cancellable: true,
                    message: Some("text".to_string()),
                    percentage: Some(50),
                },
            ),
        ),
    };
    let value = full.to_value();
    assert_eq!(value["event"], Value::String("progressStart".to_string()));
    assert_eq!(
        keys(&value["body"]),
        vec!["progressId", "title", "requestId", "cancellable", "message", "percentage"]
    );
    assert_eq!(ProtocolMessage::from_value(&value), Ok(full.clone()));
    assert_eq!(ProtocolMessage::from_str(&value.to_string()), Ok(full));
    let least = ProtocolMessage {
        seq: 6,
        content: ProtocolMessageContent::Event(
            Event::ProgressStart(
                ProgressStartEventBody {
                    progress_id: "text".to_string(),
                    title: "text".to_string(),
                    request_id: None,
                    cancellable: false,
                    message: None,
                    percentage: None,
                },
            ),
        ),
    };
    let value = least.to_value();
    assert_eq!(keys(&value["body"]), vec!["progressId", "title"]);
    assert_eq!(ProtocolMessage::from_value(&value), Ok(least));
}

#[test]
fn round_trip_event_progress_update() {
    let full = ProtocolMessage {
        seq: 6,
        content: ProtocolMessageContent::Event(
            Event::ProgressUpdate(
                ProgressUpdateEventBody {
                    progress_id: "text".to_string(),
                    message: Some("text".to_string()),
                    percentage: Some(50),
                },
            ),
        ),
    };
    let value = full.to_value();
    assert_eq!(value["event"], Value::String("progressUpdate".to_string()));
    assert_eq!(
        keys(&value["body"]),
        vec!["progressId", "message", "percentage"]
    );
    assert_eq!(ProtocolMessage::from_value(&value), Ok(full.clone()));
    assert_eq!(ProtocolMessage::from_str(&value.to_string()), Ok(full));
    let least = ProtocolMessage {
        seq: 6,
        content: ProtocolMessageContent::Event(
            Event::ProgressUpdate(
                ProgressUpdateEventBody {
                    progress_id: "text".to_string(),
                    message: None,
                    percentage: None,
                },
            ),
        ),
    };
    let value = least.to_value();
    assert_eq!(keys(&value["body"]), vec!["progressId"]);
    assert_eq!(ProtocolMessage::from_value(&value), Ok(least));
}

#[test]
fn round_trip_event_stopped() {
    let full = ProtocolMessage {
        seq: 6,
        content: ProtocolMessageContent::Event(
            Event::Stopped(
                StoppedEventBody {
                    reason: StoppedEventReason::InstructionBreakpoint,
                    description: Some("text".to_string()),
                    thread_id: Some(7),
                    preserve_focus_hint: true,
                    text: Some("text".to_string()),
                    all_threads_stopped: true,
                    hit_breakpoint_ids: vec![7],
                },
            ),
        ),
    };
    let value = full.to_value();
    assert_eq!(value["event"], Value::String("stopped".to_string()));
    assert_eq!(
        keys(&value["body"]),
        vec![
            "reason",
            "description",
            "threadId",
            "preserveFocusHint",
            "text",
            "allThreadsStopped",
            "hitBreakpointIds",
        ]
    );
    assert_eq!(ProtocolMessage::from_value(&value), Ok(full.clone()));
    assert_eq!(ProtocolMessage::from_str(&value.to_string()), Ok(full));
    let least = ProtocolMessage {
        seq: 6,
        content: ProtocolMessageContent::Event(
            Event::Stopped(
                StoppedEventBody {
                    reason: StoppedEventReason::Step,
                    description: None,
                    thread_id: None,
                    preserve_focus_hint: false,
                    text: None,
                    all_threads_stopped: false,
                    hit_breakpoint_ids: Vec::new(),
                },
            ),
        ),
    };
    let value = least.to_value();
    assert_eq!(keys(&value["body"]), vec!["reason"]);
    assert_eq!(ProtocolMessage::from_value(&value), Ok(least));
}

#[test]
fn round_trip_event_terminated() {
    let full = ProtocolMessage {
        seq: 6,
        content: ProtocolMessageContent::Event(
            Event::Terminated(
                TerminatedEventBody { restart: Some(Value::String("data".to_string())) },
            ),
        ),
    };
    let value = full.to_value();
    assert_eq!(value["event"], Value::String("terminated".to_string()));
    assert_eq!(
        keys(&value["body"]),
        vec!["restart"]
    );
    assert_eq!(ProtocolMessage::from_value(&value), Ok(full.clone()));
    assert_eq!(ProtocolMessage::from_str(&value.to_string()), Ok(full));
    let least = ProtocolMessage {
        seq: 6,
        content: ProtocolMessageContent::Event(Event::Terminated(TerminatedEventBody { restart: None })),
    };
    let value = least.to_value();
    assert_eq!(keys(&value["body"]), Vec::<&str>::new());
    assert_eq!(ProtocolMessage::from_value(&value), Ok(least));
}

#[test]
fn round_trip_event_thread() {
    let full = ProtocolMessage {
        seq: 6,
        content: ProtocolMessageContent::Event(
            Event::Thread(ThreadEventBody { reason: ThreadEventReason::Exited, thread_id: 7 }),
        ),
    };
    let value = full.to_value();
    assert_eq!(value["event"], Value::String("thread".to_string()));
    assert_eq!(
        keys(&value["body"]),
        vec!["reason", "threadId"]
    );
    assert_eq!(ProtocolMessage::from_value(&value), Ok(full.clone()));
    assert_eq!(ProtocolMessage::from_str(&value.to_string()), Ok(full));
    let least = ProtocolMessage {
        seq: 6,
        content: ProtocolMessageContent::Event(
            Event::Thread(ThreadEventBody { reason: ThreadEventReason::Started, thread_id: 1 }),
        ),
    };
    let value = least.to_value();
    assert_eq!(keys(&value["body"]), vec!["reason", "threadId"]);
    assert_eq!(ProtocolMessage::from_value(&value), Ok(least));
}
