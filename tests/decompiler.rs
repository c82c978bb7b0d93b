use retdec::connection::HttpMethod;
use retdec::decompilation::DecompilationArguments;
use retdec::decompiler::Decompiler;
use retdec::file::File;
use retdec::mock::APIArgumentsBuilder;
use retdec::mock::APIConnectionFactoryMock;
use retdec::mock::APIConnectionMock;
use retdec::response::APIResponseBuilder;
use retdec::settings::Settings;

const DECOMPILATIONS_URL: &str = "https://retdec.com/service/api/decompiler/decompilations";

fn create_decompiler(body: &[u8]) -> Decompiler<APIConnectionFactoryMock> {
    let mut conn = APIConnectionMock::new(Settings::new());
    conn.add_response(
        HttpMethod::Post,
        DECOMPILATIONS_URL,
        Ok(APIResponseBuilder::new().with_status_code(200).with_body(body).build()),
    );
    Decompiler::new(APIConnectionFactoryMock::new(conn))
}

#[test]
fn decompiler_start_decompilation_starts_decompilation_with_correct_arguments() {
    let decompiler = create_decompiler(br#"{
        "id": "ID"
    }"#);
    let input_file = File::from_content_with_name(b"content", "file.exe");
    let args = DecompilationArguments::new().with_input_file(input_file.duplicate());

    let decompilation = decompiler.start_decompilation(&args)
        .expect("decompilation should have succeeded");

    assert_eq!(*decompilation.id(), "ID");
    assert!(decompilation.connection().request_sent(
        HttpMethod::Post,
        DECOMPILATIONS_URL,
        &APIArgumentsBuilder::new()
            .with_string_arg("mode", "bin")
            .with_file("input", input_file.duplicate())
            .build()
    ));
}

#[test]
fn decompiler_start_decompilation_returns_error_when_input_file_is_not_given() {
    let decompiler = create_decompiler(br#"{
        "id": "ID"
    }"#);
    let args = DecompilationArguments::new();

    let result = decompiler.start_decompilation(&args);

    let err = result.err().expect("expected start_decompilation() to fail");
    assert_eq!(err.description(), "no input file given");
}

#[test]
fn decompiler_start_decompilation_returns_error_when_returned_json_does_not_contain_id() {
    let decompiler = create_decompiler(b"{}");
    let input_file = File::from_content_with_name(b"content", "file.exe");
    let args = DecompilationArguments::new().with_input_file(input_file);

    let result = decompiler.start_decompilation(&args);

    let err = result.err().expect("expected start_decompilation() to fail");
    assert_eq!(
        err.description(),
        "https://retdec.com/service/api/decompiler/decompilations returned invalid JSON response"
    );
}
