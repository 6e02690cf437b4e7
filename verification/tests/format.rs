use gemini_client::Date;
use gemini_client::Error;
use gemini_client::GeminiClient;
use gemini_client::date_key;
use gemini_client::u64_string;

#[test]
fn date_key_is_unpadded() {
    let k = date_key(Date { year: 2024, month: 3, day: 7 });
    assert_eq!(k, "2024-3-7");
}

#[test]
fn date_key_keeps_wide_fields() {
    let k = date_key(Date { year: 2024, month: 12, day: 31 });
    assert_eq!(k, "2024-12-31");
}

#[test]
fn u64_string_zero() {
    assert_eq!(u64_string(0), "0");
}

#[test]
fn u64_string_round_number() {
    assert_eq!(u64_string(10), "10");
    assert_eq!(u64_string(2024), "2024");
    assert_eq!(u64_string(18446744073709551615), "18446744073709551615");
}

#[test]
fn message_dotenv_not_found() {
    assert_eq!(Error::DotEnvNotFound.message(), ".env not found");
}

#[test]
fn message_variable_not_found() {
    let e = Error::VariableNotFound(String::from("GEMINI_API_KEY"));
    assert_eq!(e.message(), "variable \"GEMINI_API_KEY\" not found");
}

#[test]
fn message_file_write_error() {
    let e = Error::FileWriteError(String::from("./data/daily_request_count.json"));
    assert_eq!(e.message(), "failed to write to ./data/daily_request_count.json");
}

#[test]
fn message_connection_error() {
    assert_eq!(Error::ConnectionError.message(), "failed to get response from Gemini");
}

#[test]
fn message_parse_error() {
    assert_eq!(Error::ParseError.message(), "failed to parse response");
}

#[test]
fn url_is_the_fixed_service_url() {
    assert_eq!(
        GeminiClient::url(),
        "https://generativelanguage.googleapis.com/v1beta/models/gemini-2.0-flash:generateContent"
    );
}
