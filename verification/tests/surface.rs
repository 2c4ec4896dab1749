use prometheus::Encoder;
use std::time::Duration;
use std::time::Instant;
use uservice::check::HealthCheck;
use uservice::error::ErrorKind;
use uservice::error::Handling;
use uservice::error::MyMainError;
use uservice::error::UServiceError;
use uservice::ffi::check_register_args;
use uservice::ffi::decode_register_code;
use uservice::ffi::last_error_text;
use uservice::ffi::message_buffer;
use uservice::ffi::register_code;
use uservice::ffi::status_code;
use uservice::ffi::LastErrorFault;
use uservice::ffi::RegisterFault;
use uservice::logbridge::after_set_logger;
use uservice::logbridge::log_param;
use uservice::logbridge::InstallStep;
use uservice::logbridge::LevelFilter;
use uservice::logbridge::LogBridge;
use uservice::logbridge::LoggerStep;
use uservice::metrics::custom_collectors;
use uservice::metrics::metrics_body;
use uservice::metrics::registration_settled;
use uservice::metrics::CollectorKind;
use uservice::metrics::Registration;
use uservice::plugin::LoadError;
use uservice::plugin::PluginSymbol;
use uservice::probe::HealthProbe;
use uservice::routes::default_basepath;
use uservice::routes::health_route;
use uservice::routes::is_service_request;
use uservice::routes::kill_reply;
use uservice::routes::leaf;
use uservice::routes::plugin_request;
use uservice::routes::probe_reply;
use uservice::routes::route_path;
use uservice::routes::status_for;
use uservice::routes::HealthRoute;
use uservice::sample::draw_sample_delay_ms;
use uservice::sample::is_sample_request;
use uservice::sample::sample_basepath;
use uservice::sample::sample_body;
use uservice::sample::sample_delay_ms;
use uservice::text::str_eq;
use uservice::text::utf8_text;
use uservice::text::utf8_text_or_empty;
use uservice::worker::ticker_for;
use uservice::worker::timer_probe;
use uservice::worker::SimplePicoLoop;
use uservice::worker::WorkerStep;

fn pause(length: Duration) {
    let start = Instant::now();
    while start.elapsed() < length {
        std::hint::spin_loop();
    }
}

#[test]
fn health_routes_are_found_under_the_base_path() {
    assert_eq!(default_basepath(), "health");
    assert_eq!(health_route("health", "GET", "/health/alive"), Some(HealthRoute::Alive));
    assert_eq!(health_route("health", "GET", "/health/ready"), Some(HealthRoute::Ready));
    assert_eq!(health_route("health", "GET", "/health/metrics"), Some(HealthRoute::Metrics));
    assert_eq!(health_route("health", "GET", "/health/kill"), Some(HealthRoute::Kill));
    assert_eq!(health_route("k8s", "GET", "/k8s/alive"), Some(HealthRoute::Alive));
    assert_eq!(route_path("health", HealthRoute::Kill), "/health/kill");
    assert_eq!(leaf(HealthRoute::Metrics), "metrics");
}

#[test]
fn other_requests_reach_no_health_route() {
    assert_eq!(health_route("health", "POST", "/health/alive"), None);
    assert_eq!(health_route("health", "get", "/health/alive"), None);
    assert_eq!(health_route("health", "GET", "/health/alive/"), None);
    assert_eq!(health_route("health", "GET", "/health"), None);
    assert_eq!(health_route("health", "GET", "/alive"), None);
    assert_eq!(health_route("health", "GET", "/k8s/alive"), None);
    assert_eq!(health_route("health", "GET", "health/alive"), None);
    assert_eq!(health_route("health", "GET", "/health/dead"), None);
    assert_eq!(health_route("health", "GET", ""), None);
}

#[test]
fn liveness_ok_answers_200_with_the_probe_true() {
    let mut probe = HealthProbe::new("probe-name", Duration::from_secs(60));
    let mut liveness = HealthCheck::new("liveness");
    liveness.add(&probe);
    probe.tick();
    pause(Duration::from_millis(5));
    probe.tick();
    let (status, body) = probe_reply(&liveness);
    assert_eq!(status, 200);
    assert_eq!(body.len(), 1);
    assert_eq!(body.get("probe-name"), Some(&true));
}

#[test]
fn liveness_fail_answers_408_with_the_probe_false() {
    let mut probe = HealthProbe::new("probe-name", Duration::from_millis(10));
    let mut liveness = HealthCheck::new("liveness");
    liveness.add(&probe);
    probe.tick();
    pause(Duration::from_millis(25));
    let (status, body) = probe_reply(&liveness);
    assert_eq!(status, 408);
    assert_eq!(body.len(), 1);
    assert_eq!(body.get("probe-name"), Some(&false));
}

#[test]
fn probe_status_is_200_or_408() {
    assert_eq!(status_for(true), 200);
    assert_eq!(status_for(false), 408);
    assert_eq!(kill_reply(), (200, "OK"));
}

#[test]
fn plugin_surface_is_one_path_per_host_and_version() {
    assert!(is_service_request("pear", "v1", "GET", "/pear/v1/pservice"));
    assert!(!is_service_request("pear", "v1", "POST", "/pear/v1/pservice"));
    assert!(!is_service_request("pear", "v1", "GET", "/pear/v2/pservice"));
    assert!(!is_service_request("pear", "v1", "GET", "/apple/v1/pservice"));
    assert!(!is_service_request("pear", "v1", "GET", "/pear/v1/pservice/"));
    assert!(!is_service_request("pear", "v1", "GET", "/pear/v1"));
}

#[test]
fn error_kinds_have_positive_codes_of_their_own() {
    let kinds = [
        ErrorKind::BadArgument,
        ErrorKind::LibraryOpen,
        ErrorKind::SymbolMissing,
        ErrorKind::AlreadyRunning,
        ErrorKind::PluginPanic,
        ErrorKind::LoggerSetup,
    ];
    let codes: Vec<u32> = kinds.iter().map(|k| k.code()).collect();
    assert_eq!(codes, vec![1, 2, 3, 4, 5, 6]);
    for kind in kinds {
        assert_eq!(ErrorKind::from_code(kind.code()), Some(kind));
    }
    assert_eq!(ErrorKind::from_code(0), None);
    assert_eq!(ErrorKind::from_code(7), None);
    assert_eq!(ErrorKind::from_code(u32::MAX), None);
}

#[test]
fn each_kind_is_handled_as_the_table_says() {
    assert_eq!(ErrorKind::BadArgument.handling(), Handling::ReturnCode);
    assert_eq!(ErrorKind::LibraryOpen.handling(), Handling::ReturnCode);
    assert_eq!(ErrorKind::SymbolMissing.handling(), Handling::ReturnCode);
    assert_eq!(ErrorKind::AlreadyRunning.handling(), Handling::ReturnCode);
    assert_eq!(ErrorKind::PluginPanic.handling(), Handling::ShutDownHost);
    assert_eq!(ErrorKind::LoggerSetup.handling(), Handling::WarnAndContinue);
}

#[test]
fn driver_errors_describe_themselves() {
    assert_eq!(MyMainError::FFICall.describe(), "FFICall error");
    assert_eq!(MyMainError::ParseNull.describe(), "ParseNull error");
    assert_eq!(MyMainError::Unknown.describe(), "Unknown error");
}

#[test]
fn a_panic_becomes_an_error_with_or_without_message() {
    match UServiceError::from_panic(Some("boom".to_string())) {
        UServiceError::Message(text) => assert_eq!(text, "boom"),
        UServiceError::Unknown => panic!("the message was lost"),
    }
    assert!(matches!(UServiceError::from_panic(None), UServiceError::Unknown));
}

#[test]
fn register_arguments_are_checked_name_first() {
    assert_eq!(
        check_register_args(false, Some("apple"), Some("sample01")),
        Ok(("apple", "sample01"))
    );
    assert_eq!(check_register_args(false, None, Some("sample01")), Err(RegisterFault::BadName));
    assert_eq!(check_register_args(false, Some("apple"), None), Err(RegisterFault::BadLibrary));
    assert_eq!(check_register_args(false, None, None), Err(RegisterFault::BadName));
    assert_eq!(
        check_register_args(true, Some("apple"), Some("sample01")),
        Err(RegisterFault::BadHandle)
    );
    assert_eq!(check_register_args(true, None, None), Err(RegisterFault::BadHandle));
}

#[test]
fn register_codes_are_zero_or_negative() {
    assert_eq!(register_code(&Ok(())), 0);
    assert_eq!(register_code(&Err(RegisterFault::BadName)), -1);
    assert_eq!(register_code(&Err(RegisterFault::BadLibrary)), -2);
    assert_eq!(register_code(&Err(RegisterFault::Load(LoadError::LibraryOpen))), -3);
    assert_eq!(
        register_code(&Err(RegisterFault::Load(LoadError::SymbolMissing(PluginSymbol::Process)))),
        -4
    );
    assert_eq!(register_code(&Err(RegisterFault::BadHandle)), -5);
}

#[test]
fn status_codes_are_zero_or_the_kind() {
    assert_eq!(status_code(&Ok(())), 0);
    assert_eq!(status_code(&Err(ErrorKind::BadArgument)), 1);
    assert_eq!(status_code(&Err(ErrorKind::AlreadyRunning)), 4);
    assert_eq!(status_code(&Err(ErrorKind::LoggerSetup)), 6);
}

#[test]
fn the_driver_reads_register_codes() {
    assert_eq!(decode_register_code(0), Ok(()));
    assert_eq!(decode_register_code(1), Err(MyMainError::FFICall));
    assert_eq!(decode_register_code(i32::MAX), Err(MyMainError::FFICall));
    assert_eq!(decode_register_code(-1), Err(MyMainError::ParseNull));
    assert_eq!(decode_register_code(-2), Err(MyMainError::ParseNull));
    assert_eq!(decode_register_code(-3), Err(MyMainError::Unknown));
    assert_eq!(decode_register_code(-4), Err(MyMainError::Unknown));
    assert_eq!(decode_register_code(-5), Err(MyMainError::Unknown));
    assert_eq!(decode_register_code(i32::MIN), Err(MyMainError::Unknown));
}

#[test]
fn the_last_error_is_read_without_its_closing_null() {
    let mut buffer = message_buffer(6);
    assert_eq!(buffer, vec![0u8; 6]);
    buffer[..5].copy_from_slice(b"hello");
    assert_eq!(last_error_text(buffer, 6), Ok("hello".to_string()));

    let spacious = b"hi\0\0\0".to_vec();
    assert_eq!(last_error_text(spacious, 3), Ok("hi".to_string()));

    let short = b"abc".to_vec();
    assert_eq!(last_error_text(short, 9), Ok("abc".to_string()));

    assert_eq!(last_error_text(vec![0], 1), Ok(String::new()));
    assert_eq!(last_error_text("h\u{e9}\0".as_bytes().to_vec(), 4), Ok("h\u{e9}".to_string()));
}

#[test]
fn the_last_error_may_be_missing_or_unreadable() {
    assert_eq!(last_error_text(vec![0; 4], -1), Err(LastErrorFault::BufferTooSmall));
    assert_eq!(last_error_text(vec![0; 4], 0), Err(LastErrorFault::NoMessage));
    assert_eq!(last_error_text(vec![0; 4], -2), Err(LastErrorFault::BadLength));
    assert_eq!(last_error_text(vec![0; 4], i32::MIN), Err(LastErrorFault::BadLength));
    assert_eq!(last_error_text(vec![0xff, 0xfe, 0], 3), Err(LastErrorFault::NotUtf8));
    assert_eq!(last_error_text(vec![0xc3, 0], 2), Err(LastErrorFault::NotUtf8));
    assert_eq!(message_buffer(0), Vec::<u8>::new());
    assert_eq!(message_buffer(-5), Vec::<u8>::new());
}

#[test]
fn text_is_compared_and_decoded() {
    assert!(str_eq("", ""));
    assert!(str_eq("h\u{e9}llo", "h\u{e9}llo"));
    assert!(!str_eq("hello", "hellp"));
    assert!(!str_eq("hello", "hell"));
    assert!(!str_eq("", "a"));
    assert_eq!(utf8_text(b"plain".to_vec()), Some("plain".to_string()));
    assert_eq!(utf8_text(vec![0xe2, 0x82, 0xac]), Some("\u{20ac}".to_string()));
    assert_eq!(utf8_text(vec![0xe2, 0x82]), None);
    assert_eq!(utf8_text(vec![0x80]), None);
    assert_eq!(utf8_text_or_empty(vec![0x80]), "");
    assert_eq!(utf8_text_or_empty(b"ok".to_vec()), "ok");
}

#[test]
fn the_bridge_is_installed_once() {
    let mut bridge = LogBridge::new();
    assert_eq!(bridge.param(), None);
    let first = log_param(LevelFilter::Info);
    assert_eq!(first.level, LevelFilter::Info);
    assert_eq!(bridge.init(first), InstallStep::Install(LevelFilter::Info));
    assert_eq!(bridge.param(), Some(first));
    let second = log_param(LevelFilter::Trace);
    assert_eq!(bridge.init(second), InstallStep::AlreadyInstalled);
    assert_eq!(bridge.param(), Some(first));
    assert_eq!(bridge.init(first), InstallStep::AlreadyInstalled);
    assert_eq!(bridge.param(), Some(first));
}

#[test]
fn a_logger_that_cannot_be_set_is_only_a_warning() {
    assert_eq!(
        after_set_logger(true, LevelFilter::Debug),
        LoggerStep::SetMaxLevel(LevelFilter::Debug)
    );
    assert_eq!(
        after_set_logger(false, LevelFilter::Debug),
        LoggerStep::Warn(ErrorKind::LoggerSetup)
    );
}

#[test]
fn the_host_registers_three_collectors() {
    let specs = custom_collectors();
    assert_eq!(specs.len(), 3);
    assert_eq!(specs[0].name, "incoming_requests");
    assert_eq!(specs[0].help, "Incoming Requests");
    assert!(specs[0].labels.is_empty());
    assert_eq!(specs[0].kind, CollectorKind::Counter);
    assert_eq!(specs[1].name, "response_code");
    assert_eq!(specs[1].help, "Response Codes");
    assert_eq!(specs[1].labels, vec!["env", "statuscode", "type"]);
    assert_eq!(specs[1].kind, CollectorKind::CounterVec);
    assert_eq!(specs[2].name, "response_time");
    assert_eq!(specs[2].help, "Response Times");
    assert_eq!(specs[2].labels, vec!["env"]);
    assert_eq!(specs[2].kind, CollectorKind::HistogramVec);
}

#[test]
fn registering_again_is_no_failure() {
    assert!(registration_settled(Registration::Registered));
    assert!(registration_settled(Registration::AlreadyRegistered));
    assert!(!registration_settled(Registration::Refused));
}

#[test]
fn metrics_body_joins_what_decodes() {
    assert_eq!(metrics_body(b"a 1\n".to_vec(), b"b 2\n".to_vec()), "a 1\nb 2\n");
    assert_eq!(metrics_body(vec![0xff], b"b 2\n".to_vec()), "b 2\n");
    assert_eq!(metrics_body(b"a 1\n".to_vec(), vec![0xff]), "a 1\n");
    assert_eq!(metrics_body(vec![], vec![]), "");
}

#[test]
fn metrics_round_trip_counts_the_requests() {
    let spec = &custom_collectors()[0];
    let counter = prometheus::IntCounter::new(spec.name.clone(), spec.help.clone()).unwrap();
    let registry = prometheus::Registry::new();
    registry.register(Box::new(counter.clone())).unwrap();
    let again = match registry.register(Box::new(counter.clone())) {
        Ok(_) => Registration::Registered,
        Err(prometheus::Error::AlreadyReg) => Registration::AlreadyRegistered,
        Err(_) => Registration::Refused,
    };
    assert_eq!(again, Registration::AlreadyRegistered);
    assert!(registration_settled(again));
    for _ in 0..7 {
        counter.inc();
    }
    let mut custom = Vec::new();
    prometheus::TextEncoder::new().encode(&registry.gather(), &mut custom).unwrap();
    let body = metrics_body(custom, Vec::new());
    assert!(body.lines().any(|line| line == "incoming_requests 7"));
}

#[test]
fn the_sample_route_waits_a_tenth_of_a_second_and_a_little() {
    assert_eq!(sample_delay_ms(0), 100);
    assert_eq!(sample_delay_ms(4), 100);
    assert_eq!(sample_delay_ms(5), 101);
    assert_eq!(sample_delay_ms(128), 125);
    assert_eq!(sample_delay_ms(255), 151);
    for _ in 0..50 {
        let delay = draw_sample_delay_ms();
        assert!(100 <= delay && delay <= 151);
    }
    assert_eq!(sample_body(), "Sample");
}

#[test]
fn a_worker_enrols_its_probe_and_ticks_until_told_to_stop() {
    let worker = SimplePicoLoop::new("apple", Duration::from_secs(10));
    assert_eq!(worker.status(), "apple");
    assert_eq!(worker.loop_sleep(), Duration::from_secs(10));
    let mut alive = HealthCheck::new("alive");
    let mut probe = worker.enrol(&mut alive);
    assert_eq!(alive.len(), 1);
    assert_eq!(probe.name(), "apple");
    assert_eq!(probe.margin(), Duration::from_secs(30));
    assert_eq!(probe.margin().as_nanos(), 30_000_000_000);

    let before = probe.last_tick();
    pause(Duration::from_millis(2));
    match worker.turn(&mut probe, true) {
        WorkerStep::Sleep(length) => assert_eq!(length, Duration::from_secs(10)),
        WorkerStep::Leave => panic!("a live worker sleeps"),
    }
    assert!(before < probe.last_tick());
    let (happy, detail) = alive.status();
    assert!(happy);
    assert_eq!(detail.get("apple"), Some(&true));

    let ticked = probe.last_tick();
    assert!(matches!(worker.turn(&mut probe, false), WorkerStep::Leave));
    assert_eq!(ticked, probe.last_tick());
    alive.remove(&probe);
    assert_eq!(alive.len(), 0);
}

#[test]
fn a_plugin_request_names_plugin_and_route() {
    assert_eq!(
        plugin_request("GET", "/apple/process"),
        Some(("apple".to_string(), "process".to_string()))
    );
    assert_eq!(plugin_request("GET", "/a/b"), Some(("a".to_string(), "b".to_string())));
    assert_eq!(plugin_request("POST", "/apple/process"), None);
    assert_eq!(plugin_request("GET", ""), None);
    assert_eq!(plugin_request("GET", "/"), None);
    assert_eq!(plugin_request("GET", "/apple"), None);
    assert_eq!(plugin_request("GET", "/apple/"), None);
    assert_eq!(plugin_request("GET", "//process"), None);
    assert_eq!(plugin_request("GET", "apple/process"), None);
    assert_eq!(plugin_request("GET", "/apple/process/"), None);
    assert_eq!(plugin_request("GET", "/apple/process/more"), None);
    assert_eq!(plugin_request("GET", "/\u{e4}pfel/process"), None);
}

#[test]
fn the_sample_route_is_one_path() {
    assert_eq!(sample_basepath(), "sample");
    assert!(is_sample_request("sample", "GET", "/sample/sample1"));
    assert!(!is_sample_request("sample", "POST", "/sample/sample1"));
    assert!(!is_sample_request("sample", "GET", "/sample/sample2"));
    assert!(!is_sample_request("sample", "GET", "/sample/sample1/"));
    assert!(!is_sample_request("sample", "GET", "/other/sample1"));
}

#[test]
fn the_timer_probe_is_good_for_a_minute_and_ticked_every_five_seconds() {
    let probe = timer_probe();
    assert_eq!(probe.name(), "Timer");
    assert_eq!(probe.margin(), Duration::from_secs(60));
    assert!(probe.valid());
    let worker = ticker_for(&probe);
    assert_eq!(worker.status(), "Timer");
    assert_eq!(worker.loop_sleep(), Duration::from_secs(5));
}
