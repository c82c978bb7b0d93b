use retdec::analysis::Analysis;
use retdec::connection::HttpMethod;
use retdec::file::File;
use retdec::mock::APIArgumentsBuilder;
use retdec::mock::APIConnectionMock;
use retdec::response::APIResponseBuilder;
use retdec::settings::Settings;

const STATUS_URL: &str = "https://retdec.com/service/api/fileinfo/analyses/ID/status";
const OUTPUT_URL: &str = "https://retdec.com/service/api/fileinfo/analyses/ID/output";

fn create_analysis() -> Analysis<APIConnectionMock> {
    let settings = Settings::new()
        .with_api_key("test")
        .with_api_url("https://retdec.com/service/api");
    Analysis::new("ID", APIConnectionMock::new(settings))
}

fn status_sent(analysis: &Analysis<APIConnectionMock>) -> bool {
    analysis.connection().request_sent(HttpMethod::Get, STATUS_URL, &APIArgumentsBuilder::new().build())
}

fn make_analysis_succeed(analysis: &mut Analysis<APIConnectionMock>) {
    analysis.connection_mut().add_response(
        HttpMethod::Get,
        STATUS_URL,
        Ok(APIResponseBuilder::new()
            .with_status_code(200)
            .with_body(br#"{
                "finished": true,
                "succeeded": true,
                "failed": false
            }"#)
            .build()),
    );
    analysis.wait_until_finished()
        .expect("expected the analysis to finish successfully");
    assert!(status_sent(analysis));
    analysis.connection_mut().reset();
}

fn make_analysis_fail(analysis: &mut Analysis<APIConnectionMock>, error: &str) {
    let body = r#"{
        "finished": true,
        "succeeded": false,
        "failed": true,
        "error": ""#.to_owned() + error + "\"}";
    analysis.connection_mut().add_response(
        HttpMethod::Get,
        STATUS_URL,
        Ok(APIResponseBuilder::new()
            .with_status_code(200)
            .with_body(body.as_bytes())
            .build()),
    );
    analysis.wait_until_finished()
        .expect("expected the analysis to finish successfully");
    assert!(status_sent(analysis));
    analysis.connection_mut().reset();
}

fn add_status(analysis: &mut Analysis<APIConnectionMock>, body: &[u8]) {
    analysis.connection_mut().add_response(
        HttpMethod::Get,
        STATUS_URL,
        Ok(APIResponseBuilder::new().with_status_code(200).with_body(body).build()),
    );
}

#[test]
fn analysis_id_returns_id_of_analysis() {
    let analysis = create_analysis();

    assert_eq!(analysis.id(), "ID");
}

#[test]
fn analysis_finished_returns_false_when_analysis_has_not_finished() {
    let analysis = create_analysis();

    assert!(!analysis.finished());
}

#[test]
fn analysis_finished_returns_true_when_analysis_has_finished() {
    let mut analysis = create_analysis();
    make_analysis_succeed(&mut analysis);

    assert!(analysis.finished());
}

#[test]
fn analysis_has_finished_returns_true_and_does_not_update_status_when_analysis_has_finished() {
    let mut analysis = create_analysis();
    make_analysis_succeed(&mut analysis);

    let finished = analysis.has_finished()
        .expect("has_finished() should have succeeded");

    assert!(finished);
    assert!(analysis.connection().no_requests_sent());
}

#[test]
fn analysis_has_finished_checks_status_when_analysis_has_not_yet_finished() {
    let mut analysis = create_analysis();
    add_status(&mut analysis, br#"{
        "finished": true,
        "succeeded": true,
        "failed": false
    }"#);

    let finished = analysis.has_finished()
        .expect("has_finished() should have succeeded");

    assert!(finished);
    assert!(status_sent(&analysis));
}

#[test]
fn analysis_succeeded_returns_false_when_analysis_has_not_yet_finished() {
    let analysis = create_analysis();

    assert!(!analysis.succeeded());
}

#[test]
fn analysis_succeeded_returns_true_when_analysis_has_succeeded() {
    let mut analysis = create_analysis();
    make_analysis_succeed(&mut analysis);

    assert!(analysis.succeeded());
}

#[test]
fn analysis_has_succeeded_returns_true_and_does_not_update_status_when_analysis_has_succeeded() {
    let mut analysis = create_analysis();
    make_analysis_succeed(&mut analysis);

    let succeeded = analysis.has_succeeded()
        .expect("has_succeeded() should have succeeded");

    assert!(succeeded);
    assert!(analysis.connection().no_requests_sent());
}

#[test]
fn analysis_has_succeeded_checks_status_when_analysis_has_not_yet_succeeded() {
    let mut analysis = create_analysis();
    add_status(&mut analysis, br#"{
        "finished": true,
        "succeeded": true,
        "failed": false
    }"#);

    let succeeded = analysis.has_succeeded()
        .expect("has_succeeded() should have succeeded");

    assert!(succeeded);
    assert!(status_sent(&analysis));
}

#[test]
fn analysis_failed_returns_false_when_analysis_has_not_yet_finished() {
    let analysis = create_analysis();

    assert!(!analysis.failed());
}

#[test]
fn analysis_failed_returns_true_when_analysis_has_failed() {
    let mut analysis = create_analysis();
    make_analysis_fail(&mut analysis, "unknown error");

    assert!(analysis.failed());
}

#[test]
fn analysis_has_failed_returns_true_and_does_not_update_status_when_analysis_has_failed() {
    let mut analysis = create_analysis();
    make_analysis_fail(&mut analysis, "unknown error");

    let failed = analysis.has_failed()
        .expect("has_failed() should have succeeded");

    assert!(failed);
    assert!(analysis.connection().no_requests_sent());
}

#[test]
fn analysis_has_failed_checks_status_when_analysis_has_not_yet_failed() {
    let mut analysis = create_analysis();
    add_status(&mut analysis, br#"{
        "finished": true,
        "succeeded": false,
        "failed": true
    }"#);

    let failed = analysis.has_failed()
        .expect("has_failed() should have succeeded");

    assert!(failed);
    assert!(status_sent(&analysis));
}

#[test]
fn analysis_error_returns_none_when_analysis_has_not_finished() {
    let analysis = create_analysis();

    assert!(analysis.error().is_none());
}

#[test]
fn analysis_error_returns_error_message_when_analysis_has_failed() {
    let mut analysis = create_analysis();
    make_analysis_fail(&mut analysis, "unknown error");

    assert_eq!(analysis.error(), Some("unknown error"));
}

#[test]
fn analysis_get_error_returns_error_and_does_not_update_status_when_analysis_has_failed() {
    let mut analysis = create_analysis();
    make_analysis_fail(&mut analysis, "unknown error");

    let error = analysis.get_error()
        .expect("get_error() should have succeeded")
        .map(|e| e.to_string());

    assert_eq!(error, Some("unknown error".to_string()));
    assert!(analysis.connection().no_requests_sent());
}

#[test]
fn analysis_get_error_checks_status_when_analysis_has_not_yet_failed() {
    let mut analysis = create_analysis();
    add_status(&mut analysis, br#"{
        "finished": true,
        "succeeded": false,
        "failed": true,
        "error": "unknown error"
    }"#);

    let error = analysis.get_error()
        .expect("get_error() should have succeeded")
        .map(|e| e.to_string());

    assert_eq!(error, Some("unknown error".to_string()));
    assert!(status_sent(&analysis));
}

#[test]
fn analysis_wait_until_finished_does_nothing_when_analysis_has_finished() {
    let mut analysis = create_analysis();
    make_analysis_succeed(&mut analysis);

    analysis.wait_until_finished()
        .expect("wait_until_finished() should have succeeded");

    assert!(analysis.connection().no_requests_sent());
}

#[test]
fn analysis_wait_until_finished_updates_status_until_analysis_finishes() {
    let mut analysis = create_analysis();
    add_status(&mut analysis, br#"{
        "finished": true,
        "succeeded": true,
        "failed": false
    }"#);

    analysis.wait_until_finished()
        .expect("wait_until_finished() should have succeeded");

    assert!(status_sent(&analysis));
}

#[test]
fn analysis_get_output_checks_if_analysis_succeeded_and_returns_its_output() {
    let mut analysis = create_analysis();
    make_analysis_succeed(&mut analysis);
    analysis.connection_mut().add_response(
        HttpMethod::Get,
        OUTPUT_URL,
        Ok(APIResponseBuilder::new()
            .with_status_code(200)
            .with_body(b"Output from analysis")
            .build()),
    );

    let output = analysis.get_output()
        .expect("get_output() should have succeeded");

    assert_eq!(output, "Output from analysis");
    assert!(analysis.connection().request_sent(
        HttpMethod::Get,
        OUTPUT_URL,
        &APIArgumentsBuilder::new().build()
    ));
}

#[test]
fn analysis_get_output_as_file_checks_if_analysis_succeeded_and_returns_its_output() {
    let mut analysis = create_analysis();
    make_analysis_succeed(&mut analysis);
    analysis.connection_mut().add_response(
        HttpMethod::Get,
        OUTPUT_URL,
        Ok(APIResponseBuilder::new()
            .with_status_code(200)
            .with_file(File::from_content_with_name(b"Output from analysis", "output.txt"))
            .build()),
    );

    let output_file = analysis.get_output_as_file()
        .expect("get_output_as_file() should have succeeded");

    assert_eq!(output_file.content(), b"Output from analysis");
    assert!(analysis.connection().request_sent(
        HttpMethod::Get,
        OUTPUT_URL,
        &APIArgumentsBuilder::new().build()
    ));
}

#[test]
fn analysis_status_with_success_sets_succeeded_and_not_failed() {
    let mut analysis = create_analysis();
    add_status(&mut analysis, br#"{"finished": true, "succeeded": true, "failed": false}"#);

    assert!(analysis.has_finished().expect("status update should have succeeded"));

    assert!(analysis.succeeded());
    assert!(!analysis.failed());
}

#[test]
fn analysis_get_error_does_not_query_again_after_failure() {
    let mut analysis = create_analysis();
    add_status(
        &mut analysis,
        br#"{"finished": true, "succeeded": false, "failed": true, "error": "unknown error"}"#,
    );
    let first = analysis.get_error().expect("get_error() should have succeeded").map(|e| e.to_string());
    analysis.connection_mut().reset();

    let second = analysis.get_error().expect("get_error() should have succeeded").map(|e| e.to_string());

    assert_eq!(first, Some("unknown error".to_string()));
    assert_eq!(second, Some("unknown error".to_string()));
    assert!(analysis.connection().no_requests_sent());
}

#[test]
fn analysis_get_output_fails_without_output_request_when_analysis_failed() {
    let mut analysis = create_analysis();
    make_analysis_fail(&mut analysis, "unknown error");

    let err = analysis.get_output().err().expect("expected get_output() to fail");

    assert_eq!(err.description(), "analysis has not succeeded");
    assert!(analysis.connection().no_requests_sent());
}

#[test]
fn analysis_get_output_fails_without_output_request_when_analysis_is_pending() {
    let mut analysis = create_analysis();
    add_status(&mut analysis, br#"{"finished": false, "succeeded": false, "failed": false}"#);

    let err = analysis.get_output_as_file().err().expect("expected get_output_as_file() to fail");

    assert_eq!(err.description(), "analysis has not succeeded");
    assert!(status_sent(&analysis));
    assert!(!analysis.connection().request_sent(
        HttpMethod::Get,
        OUTPUT_URL,
        &APIArgumentsBuilder::new().build()
    ));
}

#[test]
fn analysis_status_update_fails_when_field_is_missing() {
    let mut analysis = create_analysis();
    add_status(&mut analysis, br#"{"finished": true, "failed": false}"#);

    let err = analysis.has_finished().err().expect("expected has_finished() to fail");

    assert_eq!(err.description(), format!("{} returned invalid JSON response", STATUS_URL));
    assert!(!analysis.finished());
}

#[test]
fn analysis_status_update_fails_when_body_is_not_json() {
    let mut analysis = create_analysis();
    add_status(&mut analysis, b"not json");

    let err = analysis.has_finished().err().expect("expected has_finished() to fail");

    assert_eq!(err.description(), "failed to parse API response body as JSON");
}
