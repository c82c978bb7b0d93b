use retdec::arguments::APIArguments;
use retdec::connection::APIConnection;
use retdec::connection::HttpMethod;
use retdec::connection::ResponseVerifyingAPIConnection;
use retdec::file::File;
use retdec::mock::APIConnectionMock;
use retdec::response::APIResponse;
use retdec::response::APIResponseBuilder;
use retdec::response::Header;
use retdec::response::Headers;
use retdec::settings::Settings;

#[test]
fn api_response_getters_return_correct_values() {
    let r = APIResponse {
        status_code: 200,
        status_message: "OK".into(),
        headers: Headers::default(),
        body: "Hello!".into(),
    };

    assert_eq!(r.status_code(), 200);
    assert_eq!(*r.status_message(), "OK".to_string());
    assert_eq!(r.body(), b"Hello!");
}

#[test]
fn api_response_succeeded_returns_true_when_response_succeeded() {
    let r = APIResponseBuilder::new().with_status_code(200).build();

    assert!(r.succeeded());
}

#[test]
fn api_response_succeeded_returns_false_when_response_failed() {
    let r = APIResponseBuilder::new().with_status_code(404).build();

    assert!(!r.succeeded());
}

#[test]
fn api_response_failed_returns_true_when_response_failed() {
    let r = APIResponseBuilder::new().with_status_code(404).build();

    assert!(r.failed());
}

#[test]
fn api_response_error_message_returns_error_message_when_present() {
    let r = APIResponseBuilder::new()
        .with_body(br#"{
            "message": "Unauthorized"
        }"#)
        .build();

    assert_eq!(r.error_message(), Some("Unauthorized".to_string()));
}

#[test]
fn api_response_error_message_returns_none_when_no_error_message_present() {
    let r = APIResponseBuilder::new().build();

    assert_eq!(r.error_message(), None);
}

#[test]
fn api_response_error_description_returns_error_description_when_present() {
    let r = APIResponseBuilder::new()
        .with_body(br#"{
            "description": "API key authorization failed"
        }"#)
        .build();

    assert_eq!(r.error_description(), Some("API key authorization failed".to_string()));
}

#[test]
fn api_response_error_description_returns_none_when_no_error_description_present() {
    let r = APIResponseBuilder::new().build();

    assert_eq!(r.error_description(), None);
}

#[test]
fn api_response_error_reason_returns_correct_reason_where_there_is_error_description() {
    let r = APIResponseBuilder::new()
        .with_body(br#"{
            "description": "API key authorization failed"
        }"#)
        .build();

    assert_eq!(r.error_reason(), "API key authorization failed");
}

#[test]
fn api_response_error_reason_returns_correct_reason_where_there_is_error_message() {
    let r = APIResponseBuilder::new()
        .with_body(br#"{
            "message": "Unauthorized"
        }"#)
        .build();

    assert_eq!(r.error_reason(), "Unauthorized");
}

#[test]
fn api_response_error_reason_returns_correct_reason_where_there_is_status_message() {
    let r = APIResponseBuilder::new().with_status_message("Not Found").build();

    assert_eq!(r.error_reason(), "Not Found");
}

#[test]
fn api_response_error_reason_includes_http_status_code_when_present() {
    let r = APIResponseBuilder::new()
        .with_status_code(404)
        .with_status_message("Not Found")
        .build();

    assert_eq!(r.error_reason(), "Not Found (HTTP 404)");
}

#[test]
fn api_response_error_reason_returns_unknown_reason_where_there_is_no_information() {
    let r = APIResponseBuilder::new().build();

    assert_eq!(r.error_reason(), "Unknown error");
}

#[test]
fn api_response_error_reason_prefers_description_to_message_and_renders_large_codes() {
    let r = APIResponseBuilder::new()
        .with_status_code(65535)
        .with_status_message("Odd")
        .with_body(br#"{"message": "short", "description": "long"}"#)
        .build();

    assert_eq!(r.error_reason(), "long (HTTP 65535)");
}

#[test]
fn api_response_error_reason_renders_one_digit_code() {
    let r = APIResponseBuilder::new().with_status_code(7).build();

    assert_eq!(r.error_reason(), "Unknown error (HTTP 7)");
}

#[test]
fn api_response_body_as_str_returns_correct_representation() {
    let r = APIResponseBuilder::new().with_body(b"Hello!").build();

    assert_eq!(r.body_as_str().unwrap(), "Hello!");
}

#[test]
fn api_response_body_as_string_returns_correct_representation() {
    let r = APIResponseBuilder::new().with_body(b"Hello!").build();

    assert_eq!(r.body_as_string().unwrap(), "Hello!".to_string());
}

#[test]
fn api_response_body_as_str_returns_error_when_body_is_not_utf8() {
    let r = APIResponseBuilder::new().with_body(b"\xc3\x28").build();

    let err = r.body_as_str().err().expect("expected body_as_str() to fail");
    assert_eq!(err.description(), "failed to decode API response body as UTF-8");
}

#[test]
fn api_response_body_as_json_returns_correct_representation() {
    let r = APIResponseBuilder::new().with_body(br#"{ "count": 1 }"#).build();

    assert_eq!(r.body_as_json().unwrap()["count"], 1);
}

#[test]
fn api_response_body_as_json_returns_error_when_body_is_not_json() {
    let r = APIResponseBuilder::new().with_body(b"{").build();

    let err = r.body_as_json().err().expect("expected body_as_json() to fail");
    assert_eq!(err.description(), "failed to parse API response body as JSON");
}

#[test]
fn api_response_json_value_as_string_returns_value_when_exists() {
    let r = APIResponseBuilder::new().with_body(br#"{ "key": "value" }"#).build();

    assert_eq!(r.json_value_as_string("key"), Some("value".to_string()));
}

#[test]
fn api_response_json_value_as_string_returns_none_when_no_such_value() {
    let r = APIResponseBuilder::new().build();

    assert_eq!(r.json_value_as_string("key"), None);
}

#[test]
fn api_response_json_value_as_string_returns_none_when_value_has_different_type() {
    let r = APIResponseBuilder::new().with_body(br#"{ "key": 1 }"#).build();

    assert_eq!(r.json_value_as_string("key"), None);
}

#[test]
fn api_response_json_value_as_bool_returns_value_when_exists() {
    let r = APIResponseBuilder::new().with_body(br#"{ "key": true }"#).build();

    assert_eq!(r.json_value_as_bool("key"), Some(true));
}

#[test]
fn api_response_json_value_as_bool_returns_none_when_no_such_value() {
    let r = APIResponseBuilder::new().build();

    assert_eq!(r.json_value_as_bool("key"), None);
}

#[test]
fn api_response_json_value_as_bool_returns_none_when_value_has_different_type() {
    let r = APIResponseBuilder::new().with_body(br#"{ "key": 1 }"#).build();

    assert_eq!(r.json_value_as_bool("key"), None);
}

#[test]
fn api_response_json_value_as_bool_returns_none_when_key_is_absent_from_object() {
    let r = APIResponseBuilder::new().with_body(br#"{ "other": true }"#).build();

    assert_eq!(r.json_value_as_bool("key"), None);
}

#[test]
fn api_response_body_as_file_returns_correct_file_when_response_is_file() {
    let r = APIResponseBuilder::new()
        .with_file(File::from_content_with_name(b"content", "file.txt"))
        .build();

    let file = r.body_as_file().expect("expected a file to be returned");
    assert_eq!(file.name(), "file.txt");
    assert_eq!(file.content(), b"content");
}

#[test]
fn api_response_body_as_file_returns_error_when_response_is_not_file() {
    let r = APIResponseBuilder::new().with_body(b"content").build();

    let err = r.body_as_file().err().expect("expected body_as_file() to fail");
    assert_eq!(err.description(), "response does not contain a file");
}

#[test]
fn api_response_body_as_file_uses_first_disposition_header_and_rejects_empty_name() {
    let mut headers = Headers::new();
    headers.add(Header { name: "Content-Disposition".to_string(), value: "attachment; filename=".to_string() });
    headers.add(Header { name: "Content-Disposition".to_string(), value: "attachment; filename=b.txt".to_string() });
    let r = APIResponse::new(200, "OK", headers, b"data");

    assert!(r.body_as_file().is_err());
    assert_eq!(r.headers.first_value_for("Content-Disposition"), Some("attachment; filename="));
}

#[test]
fn api_arguments_add_string_arg_adds_string_argument() {
    let mut args = APIArguments::new();

    args.add_string_arg("name", "value");

    assert_eq!(args.get_arg("name"), Some(&"value".to_string()));
}

#[test]
fn api_arguments_add_string_arg_replaces_earlier_value() {
    let mut args = APIArguments::new();

    args.add_string_arg("name", "old");
    args.add_string_arg("other", "x");
    args.add_string_arg("name", "new");

    assert_eq!(args.get_arg("name"), Some(&"new".to_string()));
    assert_eq!(args.args().len(), 2);
}

#[test]
fn api_arguments_add_opt_string_arg_adds_string_argument_when_some() {
    let mut args = APIArguments::new();

    args.add_opt_string_arg("name", Some("value".to_string()));

    assert_eq!(args.get_arg("name"), Some(&"value".to_string()));
}

#[test]
fn api_arguments_add_opt_string_arg_does_not_add_anything_when_none() {
    let mut args = APIArguments::new();

    args.add_opt_string_arg("name", None);

    assert!(!args.has_arg("name"));
}

#[test]
fn api_arguments_add_bool_arg_adds_correct_arg_for_true() {
    let mut args = APIArguments::new();

    args.add_bool_arg("name", true);

    assert_eq!(args.get_arg("name"), Some(&"1".to_string()));
}

#[test]
fn api_arguments_add_bool_arg_adds_correct_arg_for_false() {
    let mut args = APIArguments::new();

    args.add_bool_arg("name", false);

    assert_eq!(args.get_arg("name"), Some(&"0".to_string()));
}

#[test]
fn api_arguments_add_opt_bool_arg_adds_bool_argument_when_some() {
    let mut args = APIArguments::new();

    args.add_opt_bool_arg("name", Some(true));

    assert_eq!(args.get_arg("name"), Some(&"1".to_string()));
}

#[test]
fn api_arguments_add_opt_bool_arg_does_not_add_anything_when_none() {
    let mut args = APIArguments::new();

    args.add_opt_bool_arg("name", None);

    assert!(!args.has_arg("name"));
}

#[test]
fn api_arguments_args_returns_iterator_over_arguments() {
    let mut args = APIArguments::new();

    args.add_string_arg("name", "value");

    let args = args.args();
    assert_eq!(args.len(), 1);
    assert_eq!(args[0].0, "name".to_string());
    assert_eq!(args[0].1, "value".to_string());
}

#[test]
fn api_arguments_add_file_adds_file() {
    let mut args = APIArguments::new();

    args.add_file("input", File::from_content_with_name(b"content", "file.exe"));

    assert_eq!(args.get_file("input").unwrap().name(), "file.exe");
}

#[test]
fn api_arguments_files_returns_iterator_over_files() {
    let mut args = APIArguments::new();

    args.add_file("input", File::from_content_with_name(b"content", "file.exe"));

    let files = args.files();
    assert_eq!(files.len(), 1);
    assert_eq!(files[0].0, "input".to_string());
    assert_eq!(files[0].1.name(), "file.exe");
}

#[test]
fn api_arguments_equality_ignores_order_but_not_values() {
    let mut a = APIArguments::new();
    a.add_string_arg("x", "1");
    a.add_string_arg("y", "2");
    let mut b = APIArguments::new();
    b.add_string_arg("y", "2");
    b.add_string_arg("x", "1");
    let mut c = APIArguments::new();
    c.add_string_arg("x", "1");
    c.add_string_arg("y", "3");

    assert!(a == b);
    assert!(a != c);
}

#[test]
fn response_verifying_api_connection_returns_get_request_when_succeeded() {
    let mut conn = APIConnectionMock::new(Settings::new());
    conn.add_response(
        HttpMethod::Get,
        "https://retdec.com/service/api/test/echo",
        Ok(APIResponseBuilder::new().with_status_code(200).build()),
    );
    let mut wrapper = ResponseVerifyingAPIConnection::new(conn);

    let response = wrapper.send_get_request_without_args("https://retdec.com/service/api/test/echo");

    assert!(response.is_ok());
}

#[test]
fn response_verifying_api_connection_returns_post_request_when_succeeded() {
    let mut conn = APIConnectionMock::new(Settings::new());
    conn.add_response(
        HttpMethod::Post,
        "https://retdec.com/service/api/fileinfo/analyses",
        Ok(APIResponseBuilder::new().with_status_code(200).build()),
    );
    let mut wrapper = ResponseVerifyingAPIConnection::new(conn);

    let response = wrapper.send_post_request(
        "https://retdec.com/service/api/fileinfo/analyses",
        APIArguments::new(),
    );

    assert!(response.is_ok());
}

#[test]
fn response_verifying_api_connection_returns_error_when_get_request_fails() {
    let mut conn = APIConnectionMock::new(Settings::new());
    conn.add_response(
        HttpMethod::Get,
        "https://retdec.com/service/api/XYZ",
        Ok(APIResponseBuilder::new()
            .with_status_code(404)
            .with_status_message("Not Found")
            .build()),
    );
    let mut wrapper = ResponseVerifyingAPIConnection::new(conn);

    let response = wrapper.send_get_request_without_args("https://retdec.com/service/api/XYZ");

    let err = response.err().expect("expected send_get_request_without_args() to fail");
    assert_eq!(err.description(), "request failed: Not Found (HTTP 404)");
}

#[test]
fn response_verifying_api_connection_returns_error_when_post_request_fails() {
    let mut conn = APIConnectionMock::new(Settings::new());
    conn.add_response(
        HttpMethod::Post,
        "https://retdec.com/service/api/XYZ",
        Ok(APIResponseBuilder::new()
            .with_status_code(404)
            .with_status_message("Not Found")
            .build()),
    );
    let mut wrapper = ResponseVerifyingAPIConnection::new(conn);

    let response = wrapper.send_post_request("https://retdec.com/service/api/XYZ", APIArguments::new());

    let err = response.err().expect("expected send_get_request_without_args() to fail");
    assert_eq!(err.description(), "request failed: Not Found (HTTP 404)");
}

#[test]
fn response_verifying_api_connection_records_request_in_wrapped_connection() {
    let mut conn = APIConnectionMock::new(Settings::new());
    conn.add_response(
        HttpMethod::Get,
        "https://retdec.com/service/api/XYZ",
        Ok(APIResponseBuilder::new().with_status_code(500).build()),
    );
    let mut wrapper = ResponseVerifyingAPIConnection::new(conn);

    let err = wrapper
        .send_get_request_without_args("https://retdec.com/service/api/XYZ")
        .err()
        .expect("expected the request to fail");

    assert_eq!(err.description(), "request failed: Unknown error (HTTP 500)");
    assert!(!wrapper.inner().no_requests_sent());
    assert_eq!(wrapper.api_url(), "https://retdec.com/service/api");
}
