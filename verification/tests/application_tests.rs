use rust_service_template::application::{
    report_exit, stop_notice, ErrorDetail, LogLevel, StopCause, StopNotice, TaskOutcome,
};

fn detail(message: &str, chain: &str) -> ErrorDetail {
    ErrorDetail { message: message.to_string(), cause_chain: chain.to_string() }
}

#[test]
fn finished_task_is_reported_at_info() {
    let report = report_exit("GRPC_SERVER", TaskOutcome::Finished);
    assert_eq!(report.level, LogLevel::Info);
    assert_eq!(report.message, "GRPC_SERVER has exited");
    assert!(report.error.is_none());
}

#[test]
fn failed_task_is_reported_as_error() {
    let report = report_exit("HTTP_SERVER", TaskOutcome::Failed(detail("bind", "Os { code: 98 }")));
    assert_eq!(report.level, LogLevel::Error);
    assert_eq!(report.message, "HTTP_SERVER failed");
    let e = report.error.expect("the error is kept");
    assert_eq!(e.message, "bind");
    assert_eq!(e.cause_chain, "Os { code: 98 }");
}

#[test]
fn aborted_task_is_reported_as_error() {
    let report = report_exit("worker", TaskOutcome::Aborted(detail("panicked", "JoinError")));
    assert_eq!(report.level, LogLevel::Error);
    assert_eq!(report.message, "worker' task failed to complete");
    assert_eq!(report.error.expect("the error is kept").message, "panicked");
}

#[test]
fn stop_signal_is_printed() {
    match stop_notice(StopCause::Signal) {
        StopNotice::Print(text) => assert_eq!(text, "Stop signal received!"),
        StopNotice::Log(_) => panic!("a signal is printed, not logged"),
    }
}

#[test]
fn grpc_server_exit_is_logged() {
    match stop_notice(StopCause::GrpcServer(TaskOutcome::Finished)) {
        StopNotice::Log(report) => {
            assert_eq!(report.level, LogLevel::Info);
            assert_eq!(report.message, "GRPC_SERVER has exited");
        }
        StopNotice::Print(_) => panic!("a server exit is logged"),
    }
}

#[test]
fn http_server_failure_is_logged() {
    match stop_notice(StopCause::HttpServer(TaskOutcome::Failed(detail("e", "E")))) {
        StopNotice::Log(report) => {
            assert_eq!(report.level, LogLevel::Error);
            assert_eq!(report.message, "HTTP_SERVER failed");
        }
        StopNotice::Print(_) => panic!("a server exit is logged"),
    }
}
