use person_service::handlers::{
    echo, list_response, person_endpoint, person_redirect, Media, Response, Status,
};
use person_service::json::RenderError;

const CHRIS_JSON: &str = "{\n  \"id\": 1,\n  \"name\": \"chris\",\n  \"age\": 26\n}";
const KARLI_JSON: &str = "{\n  \"id\": 2,\n  \"name\": \"karli\",\n  \"age\": 24\n}";
const LIST_JSON: &str = "[\n  {\n    \"id\": 1,\n    \"name\": \"chris\",\n    \"age\": 26\n  },\n  {\n    \"id\": 2,\n    \"name\": \"karli\",\n    \"age\": 24\n  }\n]";
const NOT_FOUND: &str = "Did not find person with given id.";
const NOT_PARSED: &str = "Failed to parse person.Id argument.";

fn text(status: Status, body: &str) -> Response {
    Response::Content { status, media: Media::Text, body: body.to_string() }
}

#[test]
fn list_is_two_records_in_order() {
    assert_eq!(
        person_endpoint(),
        Ok(Response::Content {
            status: Status::Success,
            media: Media::Json,
            body: LIST_JSON.to_string(),
        })
    );
}

#[test]
fn list_body_reads_back_as_the_two_people() {
    let body = match person_endpoint() {
        Ok(Response::Content { body, .. }) => body,
        other => panic!("no body: {:?}", other),
    };
    let value: serde_json::Value = serde_json::from_str(&body).expect("the body is JSON");
    let records = value.as_array().expect("the body is an array");
    assert_eq!(records.len(), 2);
    assert_eq!(records[0]["id"], serde_json::Value::from(1));
    assert_eq!(records[0]["name"], serde_json::Value::from("chris"));
    assert_eq!(records[0]["age"], serde_json::Value::from(26));
    assert_eq!(records[1]["id"], serde_json::Value::from(2));
    assert_eq!(records[1]["name"], serde_json::Value::from("karli"));
    assert_eq!(records[1]["age"], serde_json::Value::from(24));
}

#[test]
fn list_response_wraps_the_text() {
    assert_eq!(
        list_response(Ok("[]".to_string())),
        Ok(Response::Content { status: Status::Success, media: Media::Json, body: "[]".to_string() })
    );
}

#[test]
fn list_response_hands_an_error_on() {
    assert_eq!(list_response(Err(RenderError)), Err(RenderError));
}

#[test]
fn trailing_slash_redirects_to_person() {
    assert_eq!(person_redirect(), Response::Redirect { location: "/person".to_string() });
}

#[test]
fn lookup_of_one_is_chris() {
    assert_eq!(echo("1".to_string()), text(Status::Success, CHRIS_JSON));
}

#[test]
fn lookup_of_two_is_karli() {
    assert_eq!(echo("2".to_string()), text(Status::Success, KARLI_JSON));
}

#[test]
fn lookup_of_three_is_not_found() {
    assert_eq!(echo("3".to_string()), text(Status::NotFound, NOT_FOUND));
}

#[test]
fn lookup_of_letters_is_a_server_error() {
    assert_eq!(echo("abc".to_string()), text(Status::InternalServerError, NOT_PARSED));
}

#[test]
fn lookup_reads_signs_and_leading_zeros() {
    assert_eq!(echo("+1".to_string()), text(Status::Success, CHRIS_JSON));
    assert_eq!(echo("0002".to_string()), text(Status::Success, KARLI_JSON));
    assert_eq!(echo("-1".to_string()), text(Status::NotFound, NOT_FOUND));
    assert_eq!(echo("0".to_string()), text(Status::NotFound, NOT_FOUND));
}

#[test]
fn lookup_of_an_id_out_of_range_is_a_server_error() {
    assert_eq!(echo("2147483648".to_string()), text(Status::InternalServerError, NOT_PARSED));
    assert_eq!(echo("2147483647".to_string()), text(Status::NotFound, NOT_FOUND));
    assert_eq!(echo("-2147483648".to_string()), text(Status::NotFound, NOT_FOUND));
}

#[test]
fn lookup_of_an_empty_or_padded_path_is_a_server_error() {
    for path in ["", " ", " 1", "1 ", "1/", "1.0", "one"] {
        assert_eq!(echo(path.to_string()), text(Status::InternalServerError, NOT_PARSED));
    }
}

#[test]
fn repeated_requests_get_identical_responses() {
    let list = person_endpoint();
    let redirect = person_redirect();
    let paths = ["1", "2", "3", "abc"];
    let lookups: Vec<Response> = paths.iter().map(|p| echo(p.to_string())).collect();
    for _ in 0..4 {
        for (path, first) in paths.iter().zip(lookups.iter()) {
            assert_eq!(&echo(path.to_string()), first);
        }
        assert_eq!(person_redirect(), redirect);
        assert_eq!(person_endpoint(), list);
    }
}

#[test]
fn status_codes_are_the_http_numbers() {
    assert_eq!(Status::Success.code(), 200);
    assert_eq!(Status::NotFound.code(), 404);
    assert_eq!(Status::InternalServerError.code(), 500);
}
