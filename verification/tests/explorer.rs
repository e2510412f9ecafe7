use alfen_eve::encoding::FloatText;
use alfen_eve::explorer::{show_words, ExplorerApp};
use alfen_eve::explorer_config::{
    check_config, default_poll_interval_ms, default_timeout_ms, endpoint, poll_wait_ms,
    ConfigError, ExplorerConfig, TcpConfig,
};
use alfen_eve::registers::{DataType, Reading, RegisterConfig, RegisterType};
use alfen_eve::rows::{blank_rows, copy_rows, copy_text, RowState, WorkerEvent};
use alfen_eve::transfer::{
    is_illegal_address, is_transport_error, plan_write, read_failure, read_request,
    second_read_failure, second_read_request, write_failure, ReadRequest, WriteError, WriteRequest,
};
use alfen_eve::words::Endian;
use alfen_eve::worker::{start_failure, ConnectError, Worker, WorkerAction, WorkerInput};

fn row(name: &str, address: u16, data_type: DataType) -> RegisterConfig {
    RegisterConfig {
        name: name.to_string(),
        address,
        unit_id: None,
        unit: None,
        writable: false,
        scale: None,
        length: None,
        register_type: RegisterType::Holding,
        data_type,
        endian: Endian::Big,
    }
}

fn config() -> ExplorerConfig {
    let mut first = row("Voltage", 306, DataType::U16);
    first.unit = Some("V".to_string());
    let mut second = row("Limit", 1210, DataType::U32);
    second.unit_id = Some(200);
    second.writable = true;
    let mut third = row("State", 65535, DataType::U16);
    third.register_type = RegisterType::Input;
    third.writable = true;
    ExplorerConfig {
        tcp: TcpConfig {
            host: "10.0.0.7".to_string(),
            port: 502,
            unit_id: 1,
            poll_interval_ms: 50,
            timeout_ms: 2500,
        },
        registers: vec![first, second, third],
    }
}

fn no_floats() -> FloatText {
    FloatText { single: None, double: None }
}

fn command(index: usize, text: &str) -> WorkerInput {
    WorkerInput::Command { index, value_text: text.to_string(), floats: no_floats() }
}

fn failed(message: &str) -> WorkerInput {
    WorkerInput::ReadFailed { message: message.to_string() }
}

fn words(words: Vec<u16>, now: u64) -> WorkerInput {
    WorkerInput::Words { words, now }
}

fn write_result(name: &str, result: Result<(), &str>) -> Option<WorkerEvent> {
    Some(WorkerEvent::WriteResult {
        register_name: name.to_string(),
        result: result.map_err(|e| e.to_string()),
    })
}

fn snapshot(event: Option<WorkerEvent>) -> (Vec<RowState>, Option<String>) {
    match event {
        Some(WorkerEvent::Snapshot { rows, connection_error }) => (rows, connection_error),
        other => panic!("no snapshot: {other:?}"),
    }
}

fn connected() -> Worker {
    let mut worker = Worker::new(config());
    assert_eq!(worker.step(WorkerInput::PollDue), None);
    assert_eq!(worker.step(WorkerInput::Connected), None);
    assert_eq!(worker.step(words(vec![230], 1)), None);
    assert_eq!(worker.step(words(vec![0, 16], 2)), None);
    let (rows, error) = snapshot(worker.step(words(vec![3], 3)));
    assert_eq!(error, None);
    assert_eq!(rows[1].value, Reading::Text("16".to_string()));
    worker
}

#[test]
fn configured_defaults() {
    assert_eq!(default_poll_interval_ms(), 1000);
    assert_eq!(default_timeout_ms(), 2500);
}

#[test]
fn a_configuration_needs_registers() {
    assert_eq!(check_config(config()).unwrap().registers.len(), 3);
    let mut empty = config();
    empty.registers.clear();
    let error = check_config(empty).unwrap_err();
    assert_eq!(error, ConfigError::NoRegisters);
    assert_eq!(error.message(), "Config must contain at least one register");
}

#[test]
fn the_endpoint_has_host_and_port() {
    assert_eq!(endpoint("10.0.0.7", 502), "10.0.0.7:502");
}

#[test]
fn polling_waits_a_tenth_of_a_second_at_least() {
    let mut tcp = config().tcp;
    assert_eq!(poll_wait_ms(&tcp), 100);
    tcp.poll_interval_ms = 100;
    assert_eq!(poll_wait_ms(&tcp), 100);
    tcp.poll_interval_ms = 1000;
    assert_eq!(poll_wait_ms(&tcp), 1000);
}

#[test]
fn reads_ask_for_the_row() {
    let cfg = config();
    assert_eq!(
        read_request(&cfg.registers[1], 1),
        ReadRequest {
            unit_id: 200,
            register_type: RegisterType::Holding,
            address: 1210,
            quantity: 2
        }
    );
    assert_eq!(second_read_request(&cfg.registers[1], 1).address, 1211);
    assert_eq!(second_read_request(&cfg.registers[2], 1).address, 65535);
    assert_eq!(second_read_request(&cfg.registers[2], 1).register_type, RegisterType::Input);
}

#[test]
fn errors_are_told_apart_by_their_text() {
    assert!(is_illegal_address("Modbus function 3: Illegal data address"));
    assert!(!is_illegal_address("Illegal data value"));
    for text in [
        "Broken pipe (os error 32)",
        "connection RESET by peer",
        "Connection refused",
        "Connection aborted",
        "unexpected EOF",
        "operation timed out",
        "Transport endpoint is not connected",
    ] {
        assert!(is_transport_error(text), "{text}");
    }
    assert!(!is_transport_error("Illegal data address"));
    assert!(!is_transport_error(""));
}

#[test]
fn failures_name_the_row() {
    let cfg = config();
    let reg = &cfg.registers[1];
    assert_eq!(read_failure(reg, 1), "Read failed for 'Limit' at 1210 (slave 200)");
    assert_eq!(write_failure(reg, 1), "Write failed for 'Limit' at 1210 (slave 200)");
    assert_eq!(
        second_read_failure(&cfg.registers[0], 1, "Illegal data address"),
        "Read failed for 'Voltage' at 306 and fallback 307 (slave 1): Illegal data address"
    );
}

#[test]
fn writes_are_planned_or_refused() {
    let cfg = config();
    let plan = |index: usize, text: &str| plan_write(&cfg.registers, index, text, no_floats(), 1);
    let request = plan(1, " 65537 ").unwrap();
    assert_eq!(request, WriteRequest { unit_id: 200, address: 1210, words: vec![1, 1] });
    assert!(!request.single());
    assert_eq!(request.duplicate(), request);

    let cases = [
        (9, "Invalid register index 9"),
        (0, "Register 'Voltage' is not writable"),
        (2, "Register 'State' is writable only on holding registers"),
        (1, "Failed to encode 'Limit'"),
    ];
    for (index, message) in cases {
        assert_eq!(plan(index, "x").unwrap_err().message(), message);
    }
    assert_eq!(plan(9, "1"), Err(WriteError::InvalidIndex { index: 9 }));
}

#[test]
fn one_word_is_a_single_write() {
    let mut cfg = config();
    cfg.registers[0].writable = true;
    let request = plan_write(&cfg.registers, 0, "7", no_floats(), 1).unwrap();
    assert!(request.single());
    assert_eq!(request.unit_id, 1);
}

#[test]
fn a_new_worker_waits() {
    let worker = Worker::new(config());
    assert_eq!(worker.next_action(), WorkerAction::Wait { timeout_ms: 100 });
}

#[test]
fn a_poll_reads_every_row_and_reports_once() {
    let mut worker = Worker::new(config());
    assert_eq!(worker.step(WorkerInput::PollDue), None);
    assert_eq!(worker.next_action(), WorkerAction::Connect);
    assert_eq!(worker.step(WorkerInput::Connected), None);
    for (i, (address, answer)) in [(306, vec![230]), (1210, vec![0, 16])].into_iter().enumerate() {
        match worker.next_action() {
            WorkerAction::Read(request) => assert_eq!(request.address, address),
            other => panic!("{other:?}"),
        }
        assert_eq!(worker.step(words(answer, i as u64)), None);
    }
    let (rows, error) = snapshot(worker.step(words(vec![3], 9)));
    assert_eq!(error, None);
    assert_eq!(rows.len(), 3);
    assert_eq!(rows[0].value, Reading::Text("230".to_string()));
    assert_eq!(rows[1].raw, vec![0, 16]);
    assert_eq!(rows[2].last_updated, Some(9));
    assert_eq!(worker.next_action(), WorkerAction::Wait { timeout_ms: 100 });
}

#[test]
fn an_illegal_address_is_tried_once_more() {
    let mut worker = connected();
    worker.step(WorkerInput::PollDue);
    assert_eq!(worker.step(failed("Illegal data address")), None);
    match worker.next_action() {
        WorkerAction::Read(request) => assert_eq!(request.address, 307),
        other => panic!("{other:?}"),
    }
    assert_eq!(worker.step(failed("Illegal data address")), None);
    match worker.next_action() {
        WorkerAction::Read(request) => assert_eq!(request.address, 1210),
        other => panic!("{other:?}"),
    }
    worker.step(words(vec![0, 17], 5));
    let (rows, error) = snapshot(worker.step(words(vec![3], 6)));
    assert_eq!(error, None);
    assert_eq!(
        rows[0].error.as_deref(),
        Some("Read failed for 'Voltage' at 306 and fallback 307 (slave 1): Illegal data address")
    );
    assert_eq!(rows[0].value, Reading::Text("230".to_string()));
    assert_eq!(rows[0].last_updated, Some(1));
    assert_eq!(rows[1].value, Reading::Text("17".to_string()));
}

#[test]
fn a_transport_error_ends_the_connection() {
    let mut worker = connected();
    worker.step(WorkerInput::PollDue);
    worker.step(failed("Broken pipe (os error 32)"));
    worker.step(words(vec![0, 17], 5));
    let (rows, error) = snapshot(worker.step(words(vec![3], 6)));
    assert_eq!(error.as_deref(), Some("Transport read error; reconnecting"));
    assert_eq!(
        rows[0].error.as_deref(),
        Some("Read failed for 'Voltage' at 306 (slave 1)")
    );
    assert_eq!(worker.step(WorkerInput::PollDue), None);
    assert_eq!(worker.next_action(), WorkerAction::Connect);
}

#[test]
fn another_error_keeps_the_connection() {
    let mut worker = connected();
    worker.step(WorkerInput::PollDue);
    worker.step(failed("Server device failure"));
    worker.step(words(vec![0, 17], 5));
    let (_, error) = snapshot(worker.step(words(vec![3], 6)));
    assert_eq!(error, None);
    worker.step(WorkerInput::PollDue);
    assert!(matches!(worker.next_action(), WorkerAction::Read(_)));
}

#[test]
fn too_few_words_keep_the_value() {
    let mut worker = connected();
    worker.step(WorkerInput::PollDue);
    worker.step(words(vec![231], 5));
    worker.step(words(vec![9], 6));
    let (rows, _) = snapshot(worker.step(words(vec![3], 7)));
    assert_eq!(rows[1].value, Reading::Text("16".to_string()));
    assert_eq!(rows[1].raw, vec![9]);
    assert_eq!(rows[1].error.as_deref(), Some("Need 2 words for 32-bit value"));
    assert_eq!(rows[1].last_updated, Some(6));
}

#[test]
fn without_a_connection_a_poll_still_reports() {
    let mut worker = Worker::new(config());
    worker.step(WorkerInput::PollDue);
    let event = worker.step(WorkerInput::ConnectFailed { error: ConnectError::Timeout });
    let (rows, error) = snapshot(event);
    assert_eq!(rows, blank_rows(3));
    assert_eq!(error.as_deref(), Some("Connection timeout"));
}

#[test]
fn connect_errors_say_what_went_wrong() {
    assert_eq!(ConnectError::InvalidEndpoint.message(), "Invalid host/port in config");
    assert_eq!(ConnectError::Timeout.message(), "Connection timeout");
    assert_eq!(ConnectError::Failed.message(), "Modbus connect failed");
}

#[test]
fn a_command_is_written_and_answered() {
    let mut worker = connected();
    assert_eq!(worker.step(command(1, "20")), None);
    assert_eq!(
        worker.next_action(),
        WorkerAction::Write(WriteRequest { unit_id: 200, address: 1210, words: vec![0, 20] })
    );
    assert_eq!(worker.step(WorkerInput::WriteDone), write_result("Limit", Ok(())));
    assert_eq!(worker.next_action(), WorkerAction::Wait { timeout_ms: 100 });
}

#[test]
fn a_failed_write_is_answered() {
    let mut worker = connected();
    worker.step(command(1, "20"));
    assert_eq!(
        worker.step(WorkerInput::WriteFailed),
        write_result("Limit", Err("Write failed for 'Limit' at 1210 (slave 200)"))
    );
}

#[test]
fn a_refused_command_is_answered_at_once() {
    let mut worker = connected();
    assert_eq!(
        worker.step(command(0, "1")),
        write_result("Voltage", Err("Register 'Voltage' is not writable"))
    );
    assert_eq!(
        worker.step(command(7, "1")),
        write_result("#7", Err("Invalid register index 7"))
    );
}

#[test]
fn a_command_connects_first() {
    let mut worker = Worker::new(config());
    assert_eq!(worker.step(command(1, "20")), None);
    assert_eq!(worker.next_action(), WorkerAction::Connect);
    assert_eq!(
        worker.step(WorkerInput::ConnectFailed { error: ConnectError::Failed }),
        write_result("Limit", Err("Modbus connect failed"))
    );
    worker.step(command(1, "20"));
    assert_eq!(worker.step(WorkerInput::Connected), None);
    assert!(matches!(worker.next_action(), WorkerAction::Write(_)));
}

#[test]
fn a_closed_window_stops_the_worker() {
    let mut worker = connected();
    assert_eq!(worker.step(WorkerInput::Closed), None);
    assert_eq!(worker.next_action(), WorkerAction::Stop);
    assert_eq!(worker.step(WorkerInput::PollDue), None);
    assert_eq!(worker.next_action(), WorkerAction::Stop);
}

#[test]
fn an_input_out_of_turn_does_nothing() {
    let mut worker = connected();
    assert_eq!(worker.step(words(vec![1], 9)), None);
    assert_eq!(worker.step(WorkerInput::WriteDone), None);
    assert_eq!(worker.step(WorkerInput::Connected), None);
    assert_eq!(worker.next_action(), WorkerAction::Wait { timeout_ms: 100 });
}

#[test]
fn a_worker_that_cannot_start_says_so() {
    let mut app = ExplorerApp::new(config());
    app.apply(start_failure("no threads"));
    assert_eq!(
        app.status_line,
        "Connection/Read issue: Failed to start worker runtime: no threads"
    );
    assert!(app.status_error);
    assert_eq!(app.rows, blank_rows(3));
}

#[test]
fn a_new_window_is_blank() {
    let app = ExplorerApp::new(config());
    assert_eq!(app.rows, blank_rows(3));
    assert_eq!(app.write_inputs, vec!["", "", ""]);
    assert_eq!(app.status_line, "Connecting...");
    assert!(!app.status_error);
    assert_eq!(app.heading(), "Target: 10.0.0.7:502 | Slave: 1 | Poll: 50 ms");
}

#[test]
fn a_blank_row_shows_a_dash() {
    let row = RowState::default();
    assert_eq!(row.value, Reading::Text("-".to_string()));
    assert!(row.raw.is_empty());
    assert_eq!(row.error, None);
    assert_eq!(row.last_updated, None);
    assert_eq!(row.duplicate(), row);
}

#[test]
fn rows_and_texts_can_be_copied() {
    let mut rows = blank_rows(2);
    rows[1].raw = vec![1, 2];
    rows[1].error = Some("bad".to_string());
    assert_eq!(copy_rows(&rows), rows);
    assert_eq!(copy_text(&Some("a".to_string())), Some("a".to_string()));
    assert_eq!(copy_text(&None), None);
}

#[test]
fn snapshots_fill_the_window() {
    let mut app = ExplorerApp::new(config());
    let mut rows = blank_rows(3);
    rows[0].raw = vec![7];
    app.apply(WorkerEvent::Snapshot { rows: copy_rows(&rows), connection_error: None });
    assert_eq!(app.rows, rows);
    assert_eq!(app.status_line, "Connected and polling");
    assert!(!app.status_error);
    app.apply(WorkerEvent::Snapshot {
        rows: Vec::new(),
        connection_error: Some("Connection timeout".to_string()),
    });
    assert_eq!(app.rows, rows);
    assert_eq!(app.status_line, "Connection/Read issue: Connection timeout");
    assert!(app.status_error);
}

#[test]
fn write_results_are_told() {
    let mut app = ExplorerApp::new(config());
    app.apply(write_result("Limit", Ok(())).unwrap());
    assert_eq!(app.status_line, "Write OK: Limit");
    assert!(!app.status_error);
    app.apply(write_result("Limit", Err("Failed to encode 'Limit'")).unwrap());
    assert_eq!(app.status_line, "Write FAILED: Limit: Failed to encode 'Limit'");
    assert!(app.status_error);
}

#[test]
fn a_write_needs_a_text() {
    let mut app = ExplorerApp::new(config());
    app.write_inputs[1] = "  ".to_string();
    assert_eq!(app.request_write(1), None);
    assert_eq!(app.status_line, "Write skipped for Limit: empty value");
    assert!(app.status_error);
    app.write_inputs[1] = " 16 ".to_string();
    assert_eq!(app.request_write(1), Some("16".to_string()));
    assert_eq!(app.write_inputs[1], " 16 ");
}

#[test]
fn cells_show_a_row() {
    let mut app = ExplorerApp::new(config());
    let cells = app.cells(0);
    assert_eq!(cells.name, "Voltage");
    assert_eq!(cells.address, "306");
    assert_eq!(cells.data_type, "U16");
    assert_eq!(cells.register_type, "Holding");
    assert_eq!(cells.slave, "1");
    assert_eq!(cells.unit, "V");
    assert_eq!(cells.value, Reading::Text("-".to_string()));
    assert_eq!(cells.detail, "[]");
    assert!(!cells.detail_is_error);
    assert!(!cells.writable);

    app.rows[1].error = Some("bad".to_string());
    let cells = app.cells(1);
    assert_eq!(cells.slave, "200");
    assert_eq!(cells.unit, "-");
    assert_eq!(cells.detail, "bad");
    assert!(cells.detail_is_error);
    assert!(cells.writable);

    app.rows.truncate(2);
    assert_eq!(app.cells(2).value, Reading::Text("-".to_string()));
    assert_eq!(app.cells(2).register_type, "Input");
}

#[test]
fn labels_are_the_names_of_the_types() {
    for data_type in [
        DataType::U16,
        DataType::I16,
        DataType::U32,
        DataType::I32,
        DataType::U64,
        DataType::F32,
        DataType::F64,
        DataType::Bool,
        DataType::String,
    ] {
        assert_eq!(data_type.label(), format!("{data_type:?}"));
    }
    for register_type in [RegisterType::Holding, RegisterType::Input] {
        assert_eq!(register_type.label(), format!("{register_type:?}"));
    }
}

#[test]
fn words_are_listed() {
    for list in [vec![], vec![7u16], vec![16688, 0, 65535]] {
        assert_eq!(show_words(&list), format!("{list:?}"));
    }
}

#[test]
fn answers_come_in_the_order_of_the_commands() {
    let mut worker = connected();
    let mut names = Vec::new();
    let inputs = [
        command(1, "20"),
        command(0, "1"),
        WorkerInput::WriteDone,
        command(0, "1"),
        command(7, "1"),
        command(1, "21"),
        WorkerInput::WriteFailed,
    ];
    for input in inputs {
        if let Some(WorkerEvent::WriteResult { register_name, .. }) = worker.step(input) {
            names.push(register_name);
        }
    }
    assert_eq!(names, vec!["Limit", "Voltage", "#7", "Limit"]);
}

#[test]
fn after_a_lost_connection_a_command_connects_first() {
    let mut worker = connected();
    worker.step(WorkerInput::PollDue);
    assert!(worker.is_connected());
    assert_eq!(worker.step(words(vec![230], 4)), None);
    assert_eq!(worker.step(failed("connection reset by peer")), None);
    let (_, error) = snapshot(worker.step(failed("Server device failure")));
    assert_eq!(error.as_deref(), Some("Transport read error; reconnecting"));
    assert!(!worker.is_connected());
    assert_eq!(worker.step(command(1, "20")), None);
    assert_eq!(worker.next_action(), WorkerAction::Connect);
}

#[test]
fn a_first_error_counts_where_the_second_read_fails_too() {
    let mut worker = connected();
    worker.step(WorkerInput::PollDue);
    worker.step(failed("Illegal data address, timed out"));
    worker.step(failed("Illegal data address"));
    worker.step(words(vec![0, 17], 5));
    let (rows, error) = snapshot(worker.step(words(vec![3], 6)));
    assert_eq!(error.as_deref(), Some("Transport read error; reconnecting"));
    assert!(!worker.is_connected());
    assert!(rows[0].error.is_some());

    let mut worker = connected();
    worker.step(WorkerInput::PollDue);
    worker.step(failed("Illegal data address, timed out"));
    worker.step(words(vec![231], 4));
    worker.step(words(vec![0, 17], 5));
    let (_, error) = snapshot(worker.step(words(vec![3], 6)));
    assert_eq!(error, None);
    assert!(worker.is_connected());
}

#[test]
fn a_poll_with_failures_keeps_what_was_not_read() {
    let mut worker = connected();
    worker.step(WorkerInput::PollDue);
    worker.step(failed("Server device failure"));
    worker.step(words(vec![0, 18], 8));
    let (rows, error) = snapshot(worker.step(failed("Server device busy")));
    assert_eq!(error, None);
    assert!(worker.is_connected());
    for (i, raw, time) in [(0, 230u16, 1), (2, 3, 3)] {
        assert!(rows[i].error.is_some());
        assert_eq!(rows[i].raw, vec![raw]);
        assert_eq!(rows[i].value, Reading::Text(raw.to_string()));
        assert_eq!(rows[i].last_updated, Some(time));
    }
    assert_eq!(rows[1].value, Reading::Text("18".to_string()));
    assert_eq!(rows[1].error, None);
    assert_eq!(rows[1].last_updated, Some(8));
}
