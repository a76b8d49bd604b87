use debug_adapter_protocol::dictionary::Dictionary;
use debug_adapter_protocol::error::{DecodeError, ReadError};
use debug_adapter_protocol::events::{
    Event, OutputCategory, OutputEventBody, ProgressUpdateEventBody, TerminatedEventBody,
};
use debug_adapter_protocol::requests::{
    AttachRequestArguments, ContinueRequestArguments, InitializeRequestArguments,
    LaunchRequestArguments, NextRequestArguments, PathFormat, Request,
    RunInTerminalRequestArguments, TerminateRequestArguments,
};
use debug_adapter_protocol::responses::{
    ContinueResponseBody, DataBreakpointInfoResponseBody, ErrorResponse, ErrorResponseBody,
    Response, SuccessResponse,
};
use debug_adapter_protocol::types::{
    Capabilities, Message, Module, ModuleId, Source, SteppingGranularity, Thread,
};
use debug_adapter_protocol::wire::{round_trip, Wire};
use debug_adapter_protocol::{ProtocolMessage, ProtocolMessageContent};
use serde_json::Value;

fn json(text: &str) -> Value {
    serde_json::from_str::<Value>(text).unwrap()
}

fn decode(text: &str) -> Result<ProtocolMessage, DecodeError> {
    ProtocolMessage::from_value(&json(text))
}

fn request(request: Request) -> ProtocolMessage {
    ProtocolMessage { seq: 1, content: ProtocolMessageContent::Request(request) }
}

fn missing(name: &str) -> DecodeError {
    DecodeError::MissingField(name.to_string())
}

// The failures, each with an input that gives it.

#[test]
fn unknown_command_is_refused_and_named() {
    assert_eq!(
        decode(r#"{"seq":1,"type":"request","command":"not-a-real-command","arguments":{}}"#),
        Err(DecodeError::UnknownCommand("not-a-real-command".to_string()))
    );
    assert_eq!(
        Request::from_value(&json(r#"{"command":"not-a-real-command"}"#)),
        Err(DecodeError::UnknownCommand("not-a-real-command".to_string()))
    );
}

#[test]
fn command_names_are_case_sensitive() {
    assert_eq!(
        decode(r#"{"seq":1,"type":"request","command":"Threads"}"#),
        Err(DecodeError::UnknownCommand("Threads".to_string()))
    );
    assert_eq!(
        decode(r#"{"seq":1,"type":"request","command":"threads"}"#),
        Ok(request(Request::Threads))
    );
}

#[test]
fn unknown_event_is_refused_and_named() {
    assert_eq!(
        decode(r#"{"seq":1,"type":"event","event":"rebooted","body":{}}"#),
        Err(DecodeError::UnknownEvent("rebooted".to_string()))
    );
}

#[test]
fn unknown_response_command_is_refused_and_named() {
    assert_eq!(
        decode(r#"{"seq":1,"type":"response","request_seq":1,"success":true,"command":"fly"}"#),
        Err(DecodeError::UnknownCommand("fly".to_string()))
    );
}

#[test]
fn envelope_without_sequence_number_is_malformed() {
    assert_eq!(
        decode(r#"{"type":"request","command":"threads"}"#),
        Err(DecodeError::MalformedEnvelope)
    );
}

#[test]
fn envelope_with_wrong_sequence_number_is_malformed() {
    for seq in ["-1", "1.5", "\"1\"", "null", "18446744073709551616", "[1]"] {
        let text = format!(r#"{{"seq":{},"type":"request","command":"threads"}}"#, seq);
        assert_eq!(decode(&text), Err(DecodeError::MalformedEnvelope), "seq {}", seq);
    }
}

#[test]
fn envelope_takes_the_largest_sequence_number() {
    let message = decode(r#"{"seq":18446744073709551615,"type":"request","command":"threads"}"#)
        .unwrap();
    assert_eq!(message.seq, u64::MAX);
    assert_eq!(ProtocolMessage::from_value(&message.to_value()), Ok(message));
}

#[test]
fn envelope_without_type_is_malformed() {
    assert_eq!(
        decode(r#"{"seq":1,"command":"threads"}"#),
        Err(DecodeError::MalformedEnvelope)
    );
}

#[test]
fn envelope_with_wrong_type_is_malformed() {
    for kind in ["\"Request\"", "\"notification\"", "1", "null", "\"\""] {
        let text = format!(r#"{{"seq":1,"type":{},"command":"threads"}}"#, kind);
        assert_eq!(decode(&text), Err(DecodeError::MalformedEnvelope), "type {}", kind);
    }
}

#[test]
fn envelope_that_is_no_object_is_malformed() {
    for text in ["[]", "1", "\"request\"", "null", "true"] {
        assert_eq!(decode(text), Err(DecodeError::MalformedEnvelope), "{}", text);
    }
}

#[test]
fn request_without_command_misses_it() {
    assert_eq!(decode(r#"{"seq":1,"type":"request"}"#), Err(missing("command")));
}

#[test]
fn request_with_command_that_is_no_text_is_of_wrong_kind() {
    assert_eq!(
        decode(r#"{"seq":1,"type":"request","command":7}"#),
        Err(DecodeError::InvalidType)
    );
}

#[test]
fn event_without_name_misses_it() {
    assert_eq!(decode(r#"{"seq":1,"type":"event"}"#), Err(missing("event")));
}

#[test]
fn required_field_that_is_absent_is_named() {
    assert_eq!(
        decode(r#"{"seq":1,"type":"request","command":"initialize","arguments":{}}"#),
        Err(missing("adapterID"))
    );
    assert_eq!(
        decode(r#"{"seq":1,"type":"request","command":"continue","arguments":{}}"#),
        Err(missing("threadId"))
    );
}

#[test]
fn absent_arguments_read_as_an_empty_object() {
    assert_eq!(
        decode(r#"{"seq":1,"type":"request","command":"continue"}"#),
        Err(missing("threadId"))
    );
    assert_eq!(
        decode(r#"{"seq":1,"type":"request","command":"terminate"}"#),
        Ok(request(Request::Terminate(TerminateRequestArguments { restart: false })))
    );
    assert_eq!(
        decode(r#"{"seq":1,"type":"request","command":"launch"}"#),
        Ok(request(Request::Launch(LaunchRequestArguments::new())))
    );
    assert_eq!(
        decode(r#"{"seq":1,"type":"event","event":"terminated"}"#),
        Ok(ProtocolMessage {
            seq: 1,
            content: ProtocolMessageContent::Event(Event::Terminated(TerminatedEventBody {
                restart: None
            })),
        })
    );
}

#[test]
fn arguments_of_a_request_without_payload_are_not_read() {
    assert_eq!(
        decode(r#"{"seq":1,"type":"request","command":"threads","arguments":"ignored"}"#),
        Ok(request(Request::Threads))
    );
}

#[test]
fn payload_that_is_no_object_is_of_wrong_kind() {
    assert_eq!(
        decode(r#"{"seq":1,"type":"request","command":"continue","arguments":[1]}"#),
        Err(DecodeError::InvalidType)
    );
}

#[test]
fn number_out_of_range_is_of_wrong_kind() {
    let text = |id: &str| {
        format!(
            r#"{{"seq":1,"type":"request","command":"continue","arguments":{{"threadId":{}}}}}"#,
            id
        )
    };
    assert_eq!(decode(&text("2147483648")), Err(DecodeError::InvalidType));
    assert_eq!(decode(&text("-2147483649")), Err(DecodeError::InvalidType));
    assert_eq!(decode(&text("1.0")), Err(DecodeError::InvalidType));
    assert_eq!(decode(&text("\"1\"")), Err(DecodeError::InvalidType));
    assert_eq!(decode(&text("null")), Err(DecodeError::InvalidType));
    assert_eq!(
        decode(&text("2147483647")),
        Ok(request(Request::Continue(ContinueRequestArguments { thread_id: i32::MAX })))
    );
    assert_eq!(
        decode(&text("-2147483648")),
        Ok(request(Request::Continue(ContinueRequestArguments { thread_id: i32::MIN })))
    );
}

#[test]
fn percentage_is_a_byte() {
    let text = |p: &str| format!(r#"{{"progressId":"p","percentage":{}}}"#, p);
    assert_eq!(
        ProgressUpdateEventBody::from_value(&json(&text("255"))),
        Ok(ProgressUpdateEventBody {
            progress_id: "p".to_string(),
            message: None,
            percentage: Some(255)
        })
    );
    assert_eq!(
        ProgressUpdateEventBody::from_value(&json(&text("256"))),
        Err(DecodeError::InvalidType)
    );
    assert_eq!(
        ProgressUpdateEventBody::from_value(&json(&text("-1"))),
        Err(DecodeError::InvalidType)
    );
}

#[test]
fn name_outside_an_enumeration_is_of_wrong_kind() {
    assert_eq!(
        NextRequestArguments::from_value(&json(r#"{"threadId":1,"granularity":"word"}"#)),
        Err(DecodeError::InvalidType)
    );
    assert_eq!(
        NextRequestArguments::from_value(&json(r#"{"threadId":1,"granularity":"line"}"#)),
        Ok(NextRequestArguments { thread_id: 1, granularity: SteppingGranularity::Line })
    );
    assert_eq!(SteppingGranularity::from_name("Line"), None);
    assert_eq!(SteppingGranularity::from_name("instruction"), Some(SteppingGranularity::Instruction));
    assert_eq!(SteppingGranularity::Statement.as_str(), "statement");
    assert_eq!(PathFormat::URI.as_str(), "uri");
}

#[test]
fn first_failure_in_the_order_of_the_fields_is_reported() {
    assert_eq!(
        Thread::from_value(&json(r#"{"name":7}"#)),
        Err(missing("id"))
    );
    assert_eq!(
        Thread::from_value(&json(r#"{"id":"x"}"#)),
        Err(DecodeError::InvalidType)
    );
    assert_eq!(Thread::from_value(&json(r#"{"id":1}"#)), Err(missing("name")));
}

// The two shapes of a response.

#[test]
fn response_without_success_misses_it() {
    assert_eq!(
        decode(r#"{"seq":1,"type":"response","request_seq":1,"command":"threads"}"#),
        Err(missing("success"))
    );
    assert_eq!(Response::from_value(&json("{}")), Err(missing("success")));
}

#[test]
fn response_with_success_that_is_no_flag_is_of_wrong_kind() {
    for flag in ["\"true\"", "1", "null", "{}"] {
        let text = format!(
            r#"{{"seq":1,"type":"response","request_seq":1,"success":{},"command":"next"}}"#,
            flag
        );
        assert_eq!(decode(&text), Err(DecodeError::InvalidType), "success {}", flag);
    }
}

#[test]
fn response_without_request_sequence_number_misses_it() {
    assert_eq!(
        Response::from_value(&json(r#"{"success":true,"command":"next"}"#)),
        Err(missing("request_seq"))
    );
}

#[test]
fn success_is_read_before_anything_else() {
    assert_eq!(
        Response::from_value(&json(r#"{"request_seq":"x","command":7}"#)),
        Err(missing("success"))
    );
}

#[test]
fn successful_response_does_not_read_the_fields_of_a_failure() {
    let plain = Response::from_value(&json(
        r#"{"request_seq":2,"success":true,"command":"next"}"#,
    ));
    let with_message = Response::from_value(&json(
        r#"{"request_seq":2,"success":true,"command":"next","message":{"no":"text"}}"#,
    ));
    assert_eq!(plain, Ok(Response { request_seq: 2, result: Ok(SuccessResponse::Next) }));
    assert_eq!(with_message, plain);
}

#[test]
fn failed_response_takes_any_command_name() {
    assert_eq!(
        Response::from_value(&json(
            r#"{"request_seq":2,"success":false,"command":"fly","message":"no","body":{}}"#
        )),
        Ok(Response {
            request_seq: 2,
            result: Err(ErrorResponse {
                command: "fly".to_string(),
                message: "no".to_string(),
                body: ErrorResponseBody { error: None },
            }),
        })
    );
}

#[test]
fn failed_response_needs_message_and_body() {
    assert_eq!(
        Response::from_value(&json(r#"{"request_seq":2,"success":false,"command":"next"}"#)),
        Err(missing("message"))
    );
    assert_eq!(
        Response::from_value(&json(
            r#"{"request_seq":2,"success":false,"command":"next","message":"no"}"#
        )),
        Err(missing("body"))
    );
}

#[test]
fn failed_response_round_trip() {
    let mut variables = Dictionary::new();
    variables.insert("name".to_string(), "value".to_string());
    let response = ProtocolMessage {
        seq: 9,
        content: ProtocolMessageContent::Response(Response {
            request_seq: 8,
            result: Err(ErrorResponse {
                command: "launch".to_string(),
                message: "cancelled".to_string(),
                body: ErrorResponseBody {
                    error: Some(Message {
                        id: 4,
                        format: "no {name}".to_string(),
                        variables,
                        send_telemetry: true,
                        show_user: true,
                        url: Some("https://example.org".to_string()),
                        url_label: Some("more".to_string()),
                    }),
                },
            }),
        }),
    };
    let value = response.to_value();
    assert_eq!(value["success"], Value::Bool(false));
    assert_eq!(value["body"]["error"]["variables"]["name"], Value::String("value".to_string()));
    assert_eq!(ProtocolMessage::from_value(&value), Ok(response.clone()));
    assert_eq!(ProtocolMessage::from_str(&value.to_string()), Ok(response));
}

#[test]
fn failed_response_without_detail_leaves_it_out() {
    let response = Response {
        request_seq: 8,
        result: Err(ErrorResponse {
            command: "launch".to_string(),
            message: "cancelled".to_string(),
            body: ErrorResponseBody { error: None },
        }),
    };
    let value = response.to_value();
    assert_eq!(
        value.to_string(),
        r#"{"request_seq":8,"success":false,"command":"launch","message":"cancelled","body":{}}"#
    );
    assert_eq!(Response::from_value(&value), Ok(response.clone()));
    let with_null = json(
        r#"{"request_seq":8,"success":false,"command":"launch","message":"cancelled","body":{"error":null}}"#,
    );
    assert_eq!(Response::from_value(&with_null), Ok(response));
}

#[test]
fn absent_variables_read_as_an_empty_table() {
    let message = decode(
        r#"{"seq":1,"type":"response","request_seq":2,"success":false,"command":"initialize",
            "message":"Something went wrong",
            "body":{"error":{"id":3,"format":"This thing went wrong"}}}"#,
    )
    .unwrap();
    match message.content {
        ProtocolMessageContent::Response(Response { result: Err(e), .. }) => {
            let error = e.body.error.unwrap();
            assert!(error.variables.is_empty());
            assert_eq!(error.variables.len(), 0);
            assert_eq!(error.id, 3);
            assert!(!error.send_telemetry);
        }
        other => panic!("not a failure: {:?}", other),
    }
}

// Defaults, and fields that are left out.

#[test]
fn explicit_default_is_read_and_not_written_back() {
    let text = r#"{"seq":1,"type":"request","command":"initialize","arguments":{"clientID":"vscode","adapterID":"mock","pathFormat":"path","linesStartAt1":true,"columnsStartAt1":true}}"#;
    let message = decode(text).unwrap();
    assert_eq!(message.seq, 1);
    let arguments = match &message.content {
        ProtocolMessageContent::Request(Request::Initialize(arguments)) => arguments.clone(),
        other => panic!("not an initialize request: {:?}", other),
    };
    assert_eq!(arguments.adapter_id, "mock");
    assert!(arguments.lines_start_at_1);
    assert_eq!(arguments.path_format, PathFormat::Path);
    assert_eq!(
        message.to_value().to_string(),
        r#"{"seq":1,"type":"request","command":"initialize","arguments":{"clientID":"vscode","adapterID":"mock","linesStartAt1":true,"columnsStartAt1":true}}"#
    );
}

#[test]
fn flag_that_is_on_by_default() {
    let arguments =
        InitializeRequestArguments::from_value(&json(r#"{"adapterID":"mock"}"#)).unwrap();
    assert!(arguments.lines_start_at_1);
    assert!(arguments.columns_start_at_1);
    assert_eq!(arguments.path_format, PathFormat::Path);
    assert!(!arguments.supports_variable_type);
    let off = InitializeRequestArguments { lines_start_at_1: false, ..arguments };
    assert_eq!(
        off.to_value().to_string(),
        r#"{"adapterID":"mock","linesStartAt1":false,"columnsStartAt1":true}"#
    );
    assert_eq!(InitializeRequestArguments::from_value(&off.to_value()), Ok(off));
    assert_eq!(
        ContinueResponseBody::from_value(&json("{}")),
        Ok(ContinueResponseBody { all_threads_continued: true })
    );
}

#[test]
fn value_at_its_defaults_is_written_without_them() {
    assert_eq!(Capabilities::default().to_value().to_string(), "{}");
    assert_eq!(Capabilities::from_value(&json("{}")), Ok(Capabilities::default()));
    let output = OutputEventBody {
        category: OutputCategory::Console,
        output: "done".to_string(),
        group: None,
        variables_reference: None,
        source: None,
        line: None,
        column: None,
        data: None,
    };
    assert_eq!(output.to_value().to_string(), r#"{"output":"done"}"#);
    assert_eq!(OutputEventBody::from_value(&output.to_value()), Ok(output.clone()));
    let loud = OutputEventBody { category: OutputCategory::Important, ..output };
    assert_eq!(loud.to_value().to_string(), r#"{"category":"important","output":"done"}"#);
}

#[test]
fn null_reads_as_an_absent_optional_value() {
    assert_eq!(
        Source::from_value(&json(r#"{"name":null,"adapterData":null}"#)),
        Source::from_value(&json("{}"))
    );
    assert_eq!(
        AttachRequestArguments::from_value(&json(r#"{"__restart":null}"#)),
        Ok(AttachRequestArguments { restart: None })
    );
}

#[test]
fn null_does_not_read_as_a_default() {
    assert_eq!(
        TerminateRequestArguments::from_value(&json(r#"{"restart":null}"#)),
        Err(DecodeError::InvalidType)
    );
}

#[test]
fn optional_field_that_is_always_written() {
    let absent = DataBreakpointInfoResponseBody {
        data_id: None,
        description: "none".to_string(),
        access_types: None,
        can_persist: false,
    };
    assert_eq!(absent.to_value().to_string(), r#"{"dataId":null,"description":"none"}"#);
    assert_eq!(DataBreakpointInfoResponseBody::from_value(&absent.to_value()), Ok(absent.clone()));
    assert_eq!(
        DataBreakpointInfoResponseBody::from_value(&json(r#"{"description":"none"}"#)),
        Ok(absent)
    );
}

#[test]
fn restart_data_that_is_null_comes_back_absent() {
    let sent = AttachRequestArguments { restart: Some(Value::Null) };
    assert_eq!(sent.to_value().to_string(), r#"{"__restart":null}"#);
    assert_eq!(
        AttachRequestArguments::from_value(&sent.to_value()),
        Ok(AttachRequestArguments { restart: None })
    );
}

// Fields that a record does not know.

#[test]
fn unknown_field_changes_nothing() {
    let plain = Thread::from_value(&json(r#"{"id":1,"name":"main"}"#));
    let more = Thread::from_value(&json(r#"{"id":1,"name":"main","priority":{"level":3}}"#));
    assert_eq!(plain, Ok(Thread { id: 1, name: "main".to_string() }));
    assert_eq!(more, plain);
    let message = decode(
        r#"{"seq":1,"type":"request","command":"continue","arguments":{"threadId":3,"x":1},"y":2}"#,
    );
    assert_eq!(
        message,
        Ok(request(Request::Continue(ContinueRequestArguments { thread_id: 3 })))
    );
    assert_eq!(
        message.unwrap().to_value().to_string(),
        r#"{"seq":1,"type":"request","command":"continue","arguments":{"threadId":3}}"#
    );
}

#[test]
fn launch_keeps_the_fields_it_does_not_know() {
    let text = r#"{"noDebug":true,"program":"a.out","args":["-v"],"env":null}"#;
    let arguments = LaunchRequestArguments::from_value(&json(text)).unwrap();
    assert!(arguments.no_debug);
    assert_eq!(arguments.restart, None);
    assert_eq!(arguments.additional_attributes.len(), 3);
    assert_eq!(arguments.additional_attributes["program"], Value::String("a.out".to_string()));
    assert_eq!(arguments.additional_attributes["env"], Value::Null);
    assert!(!arguments.additional_attributes.contains_key("noDebug"));
    assert_eq!(arguments.to_value().to_string(), text);
    assert_eq!(LaunchRequestArguments::from_value(&arguments.to_value()), Ok(arguments));
}

#[test]
fn launch_keeps_the_order_of_the_fields_it_does_not_know() {
    let text = r#"{"z":1,"noDebug":true,"a":2,"__restart":3,"m":4}"#;
    let arguments = LaunchRequestArguments::from_value(&json(text)).unwrap();
    assert_eq!(
        arguments.to_value().to_string(),
        r#"{"noDebug":true,"__restart":3,"z":1,"a":2,"m":4}"#
    );
}

#[test]
fn additional_attribute_under_a_known_name_replaces_the_known_field() {
    let mut arguments = LaunchRequestArguments::new();
    arguments.additional_attributes.insert("noDebug".to_string(), Value::Bool(true));
    let back = LaunchRequestArguments::from_value(&arguments.to_value()).unwrap();
    assert!(back.no_debug);
    assert!(back.additional_attributes.is_empty());
    assert_ne!(back, arguments);
}

// Values of several shapes.

#[test]
fn module_id_is_a_number_or_a_text() {
    let number = Module::from_value(&json(r#"{"id":12,"name":"m"}"#)).unwrap();
    let text = Module::from_value(&json(r#"{"id":"12","name":"m"}"#)).unwrap();
    assert_eq!(number.id, ModuleId::Integer(12));
    assert_eq!(text.id, ModuleId::String("12".to_string()));
    assert_eq!(number.to_value().to_string(), r#"{"id":12,"name":"m"}"#);
    assert_eq!(text.to_value().to_string(), r#"{"id":"12","name":"m"}"#);
    assert_eq!(
        Module::from_value(&json(r#"{"id":true,"name":"m"}"#)),
        Err(DecodeError::InvalidType)
    );
    assert_eq!(
        Module::from_value(&json(r#"{"id":4294967296,"name":"m"}"#)),
        Err(DecodeError::InvalidType)
    );
}

#[test]
fn sources_nest() {
    let text = r#"{"name":"a","sources":[{"name":"b","sources":[{"name":"c"}]},{"name":"d"}]}"#;
    let source = Source::from_value(&json(text)).unwrap();
    assert_eq!(source.sources.len(), 2);
    assert_eq!(source.sources[0].sources[0].name, Some("c".to_string()));
    assert_eq!(source.sources[0].sources[0].sources.len(), 0);
    assert_eq!(source.sources[1].name, Some("d".to_string()));
    assert_eq!(source.to_value().to_string(), text);
    assert_eq!(source.clone(), source);
}

#[test]
fn failure_in_a_nested_source_comes_up_unchanged() {
    assert_eq!(
        Source::from_value(&json(r#"{"sources":[{},{"sources":[{"checksums":[{}]}]}]}"#)),
        Err(missing("algorithm"))
    );
    assert_eq!(
        Source::from_value(&json(r#"{"sources":{"name":"a"}}"#)),
        Err(DecodeError::InvalidType)
    );
    assert_eq!(
        Source::from_value(&json(r#"{"sources":[{"sourceReference":"1"}]}"#)),
        Err(DecodeError::InvalidType)
    );
}

#[test]
fn environment_holds_texts_and_nulls() {
    let text = r#"{"cwd":"/","args":["a","b"],"env":{"HOME":"/root","DEBUG":null}}"#;
    let arguments = RunInTerminalRequestArguments::from_value(&json(text)).unwrap();
    assert_eq!(arguments.args, vec!["a".to_string(), "b".to_string()]);
    assert_eq!(arguments.env.len(), 2);
    assert_eq!(arguments.env.get("HOME"), Some(&Some("/root".to_string())));
    assert_eq!(arguments.env.get("DEBUG"), Some(&None));
    assert_eq!(arguments.env.get("PATH"), None);
    assert_eq!(arguments.to_value().to_string(), text);
    assert_eq!(
        RunInTerminalRequestArguments::from_value(&json(r#"{"cwd":"/","args":[],"env":{"A":1}}"#)),
        Err(DecodeError::InvalidType)
    );
    assert_eq!(
        RunInTerminalRequestArguments::from_value(&json(r#"{"cwd":"/","args":[1]}"#)),
        Err(DecodeError::InvalidType)
    );
}

#[test]
fn dictionary_holds_each_name_once() {
    let mut table: Dictionary<String> = Dictionary::new();
    assert!(table.is_empty());
    table.insert("a".to_string(), "1".to_string());
    table.insert("b".to_string(), "2".to_string());
    table.insert("a".to_string(), "3".to_string());
    assert_eq!(table.len(), 2);
    assert!(!table.is_empty());
    assert_eq!(table.get("a"), Some(&"3".to_string()));
    assert_eq!(table.get("b"), Some(&"2".to_string()));
    assert_eq!(table.get("c"), None);
    assert_eq!(table.position("b"), Some(1));
    assert_eq!(table.position("c"), None);
    assert_eq!(table.name_at(0), "a");
    assert_eq!(table.value_at(1), "2");
    assert_eq!(table.to_value().to_string(), r#"{"a":"3","b":"2"}"#);
    assert_eq!(Dictionary::<String>::from_value(&table.to_value()), Ok(table));
    assert_eq!(
        Dictionary::<String>::from_value(&json("[]")),
        Err(DecodeError::InvalidType)
    );
}

#[test]
fn dictionaries_are_equal_whatever_the_order_of_their_entries() {
    let mut one: Dictionary<String> = Dictionary::new();
    one.insert("a".to_string(), "1".to_string());
    one.insert("b".to_string(), "2".to_string());
    let mut other: Dictionary<String> = Dictionary::new();
    other.insert("b".to_string(), "2".to_string());
    other.insert("a".to_string(), "1".to_string());
    assert_eq!(one, other);
    assert_eq!(one.clone(), one);
    assert_eq!(one.clone().name_at(0), "a");
    let mut changed = other.clone();
    changed.insert("a".to_string(), "3".to_string());
    assert_ne!(one, changed);
    let mut longer = other.clone();
    longer.insert("c".to_string(), "1".to_string());
    assert_ne!(one, longer);
    assert_ne!(longer, one);
    let mut renamed: Dictionary<String> = Dictionary::new();
    renamed.insert("a".to_string(), "1".to_string());
    renamed.insert("c".to_string(), "2".to_string());
    assert_ne!(one, renamed);
    assert_eq!(Dictionary::<String>::new(), Dictionary::<String>::new());
}

#[test]
fn failure_of_a_value_of_a_dictionary_comes_up_unchanged() {
    assert_eq!(
        Dictionary::<Thread>::from_value(&json(r#"{"a":{"id":1,"name":"x"},"b":{"id":2}}"#)),
        Err(missing("name"))
    );
    assert_eq!(
        Dictionary::<Thread>::from_value(&json(r#"{"a":7,"b":{"id":2}}"#)),
        Err(DecodeError::InvalidType)
    );
    let table =
        Dictionary::<Thread>::from_value(&json(r#"{"a":{"id":1,"name":"x"}}"#)).unwrap();
    assert_eq!(table.get("a"), Some(&Thread { id: 1, name: "x".to_string() }));
}

// Text in and out.

#[test]
fn text_that_is_no_json_is_a_syntax_fault() {
    match ProtocolMessage::from_str("{\"seq\": 1,") {
        Err(ReadError::Syntax(account)) => assert!(account.contains("line 1")),
        other => panic!("not a syntax fault: {:?}", other),
    }
    assert!(matches!(ProtocolMessage::from_str(""), Err(ReadError::Syntax(_))));
}

#[test]
fn text_that_is_no_message_is_a_decoding_fault() {
    assert_eq!(
        ProtocolMessage::from_str(r#"{"seq":1,"type":"event","event":"melted"}"#),
        Err(ReadError::Decode(DecodeError::UnknownEvent("melted".to_string())))
    );
    assert_eq!(
        ProtocolMessage::from_str("[]"),
        Err(ReadError::Decode(DecodeError::MalformedEnvelope))
    );
}

#[test]
fn message_goes_over_the_wire_behind_its_length() {
    let message = request(Request::Threads);
    assert_eq!(
        message.to_string(),
        "Content-Length: 46\r\n\r\n{\"seq\":1,\"type\":\"request\",\"command\":\"threads\"}"
    );
    let message = ProtocolMessage {
        seq: 2,
        content: ProtocolMessageContent::Event(Event::Output(OutputEventBody {
            category: OutputCategory::Stdout,
            output: "gr\u{fc}\u{df}e".to_string(),
            group: None,
            variables_reference: None,
            source: None,
            line: None,
            column: None,
            data: None,
        })),
    };
    let text = message.to_string();
    let body = text.split("\r\n\r\n").nth(1).unwrap();
    assert_eq!(text, format!("Content-Length: {}\r\n\r\n{}", body.len(), body));
    assert_eq!(body.len(), body.chars().count() + 2);
    assert_eq!(ProtocolMessage::from_str(body), Ok(message));
}

// Building values.

#[test]
fn builder_starts_from_the_defaults() {
    let arguments = InitializeRequestArguments::builder().adapter_id("gdb".to_string()).build();
    assert_eq!(
        arguments,
        InitializeRequestArguments {
            client_id: None,
            client_name: None,
            adapter_id: "gdb".to_string(),
            locale: None,
            lines_start_at_1: true,
            columns_start_at_1: true,
            path_format: PathFormat::Path,
            supports_variable_type: false,
            supports_variable_paging: false,
            supports_run_in_terminal_request: false,
            supports_memory_references: false,
            supports_progress_reporting: false,
            supports_invalidated_event: false,
        }
    );
    assert_eq!(LaunchRequestArguments::builder().build(), LaunchRequestArguments::new());
}

#[test]
fn builder_keeps_the_last_value_of_a_field() {
    let arguments = NextRequestArguments::builder()
        .thread_id(1)
        .granularity(SteppingGranularity::Line)
        .thread_id(2)
        .build();
    assert_eq!(
        arguments,
        NextRequestArguments { thread_id: 2, granularity: SteppingGranularity::Line }
    );
}

#[test]
fn arguments_turn_into_requests_and_messages() {
    let arguments = ContinueRequestArguments { thread_id: 4 };
    assert_eq!(Request::from(arguments.clone()), Request::Continue(arguments.clone()));
    assert_eq!(
        ProtocolMessageContent::from(arguments.clone()),
        ProtocolMessageContent::Request(Request::Continue(arguments.clone()))
    );
    assert_eq!(
        ProtocolMessageContent::from(Request::Threads),
        ProtocolMessageContent::Request(Request::Threads)
    );
    assert_eq!(
        ProtocolMessage::new(7, arguments.clone()),
        ProtocolMessage {
            seq: 7,
            content: ProtocolMessageContent::Request(Request::Continue(arguments)),
        }
    );
}

// There and back.

#[test]
fn value_comes_back_from_the_wire() {
    let thread = Thread { id: 3, name: "worker".to_string() };
    assert_eq!(round_trip(&thread), Ok(thread));
    let id = ModuleId::String("core".to_string());
    assert_eq!(round_trip(&id), Ok(id));
    assert_eq!(round_trip(&vec![1, -2, 3]), Ok(vec![1, -2, 3]));
    assert_eq!(round_trip(&Some(true)), Ok(Some(true)));
    assert_eq!(round_trip(&None::<String>), Ok(None));
    assert_eq!(round_trip(&u64::MAX), Ok(u64::MAX));
    assert_eq!(round_trip(&255u8), Ok(255u8));
    assert_eq!(round_trip(&i32::MIN), Ok(i32::MIN));
    assert_eq!(round_trip(&"text".to_string()), Ok("text".to_string()));
    let data = json(r#"{"a":[1,2.5,null,{"b":"c"}]}"#);
    assert_eq!(round_trip(&data), Ok(data));
}

#[test]
fn value_that_the_wire_does_not_keep() {
    assert_eq!(round_trip(&Some(Value::Null)), Ok(None));
}

#[test]
fn plain_values_have_their_json_kind() {
    assert_eq!(7i32.to_value(), json("7"));
    assert_eq!((-7i32).to_value(), json("-7"));
    assert_eq!(true.to_value(), json("true"));
    assert_eq!("a".to_string().to_value(), json("\"a\""));
    assert_eq!(vec![1u8, 2u8].to_value(), json("[1,2]"));
    assert_eq!(None::<i32>.to_value(), Value::Null);
    assert_eq!(i32::from_value(&json("true")), Err(DecodeError::InvalidType));
    assert_eq!(bool::from_value(&json("1")), Err(DecodeError::InvalidType));
    assert_eq!(String::from_value(&json("1")), Err(DecodeError::InvalidType));
    assert_eq!(u64::from_value(&json("-1")), Err(DecodeError::InvalidType));
    assert_eq!(Vec::<i32>::from_value(&json("{}")), Err(DecodeError::InvalidType));
    assert_eq!(Vec::<i32>::from_value(&json("[1,\"2\",true]")), Err(DecodeError::InvalidType));
    assert_eq!(Option::<i32>::from_value(&json("null")), Ok(None));
    assert_eq!(Option::<i32>::from_value(&json("4")), Ok(Some(4)));
}
