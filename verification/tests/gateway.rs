use desktop_bridge::gateway::{
    http_delete, http_get, http_patch, http_post, http_put, patch_with_extension,
    put_with_extension, request_without_file, Body, Content, FileRead, HttpError, HttpResponse,
    Part, Request, Verb,
};

fn read(path: &str, bytes: &[u8]) -> Option<FileRead> {
    Some(FileRead { path: path.to_string(), contents: Ok(bytes.to_vec()) })
}

fn unreadable(path: &str, reason: &str) -> Option<FileRead> {
    Some(FileRead { path: path.to_string(), contents: Err(reason.to_string()) })
}

fn image(field: &str, path: &str, mime: &str, bytes: &[u8]) -> Part {
    Part {
        name: field.to_string(),
        content: Content::Bytes(bytes.to_vec()),
        file_name: Some(path.to_string()),
        mime: mime.to_string(),
    }
}

fn text(field: &str, value: &str) -> Part {
    Part {
        name: field.to_string(),
        content: Content::Text(value.to_string()),
        file_name: None,
        mime: "text/html".to_string(),
    }
}

fn uploaded_type(path: &str) -> Result<String, HttpError> {
    let request = http_put("https://server", None, read(path, &[1]))?;
    match request.body {
        Body::Multipart(mut parts) => {
            assert_eq!(parts.len(), 1);
            Ok(parts.remove(0).mime)
        }
        other => panic!("no form: {:?}", other),
    }
}

fn no_extension() -> HttpError {
    HttpError::Encoding("the file name has no extension".to_string())
}

#[test]
fn the_type_of_an_upload_follows_the_extension_of_its_name() {
    assert_eq!(uploaded_type("photo.png"), Ok("image/png".to_string()));
    assert_eq!(uploaded_type("archive.tar.gz"), Ok("image/gz".to_string()));
    assert_eq!(uploaded_type("dir/photo.JPEG"), Ok("image/JPEG".to_string()));
    assert_eq!(uploaded_type("..png"), Ok("image/png".to_string()));
    assert_eq!(uploaded_type("photo."), Ok("image/".to_string()));
    assert_eq!(uploaded_type("shots.d/"), Ok("image/d".to_string()));
}

#[test]
fn a_name_without_extension_cannot_be_uploaded() {
    for path in ["", "photo", ".hidden", "dir/.hidden", "dir.d/photo", ".", "..", "dir/.."] {
        assert_eq!(uploaded_type(path), Err(no_extension()));
    }
    assert_eq!(
        http_patch("https://server", None, Some("k"), Some("v"), read(".hidden", &[1])),
        Err(no_extension())
    );
    assert_eq!(Part::file("image", read("photo.png", &[1]).unwrap(), None), Err(no_extension()));
}

#[test]
fn a_raw_body_is_sent_as_json() {
    assert_eq!(
        http_get("https://server/users", Some("{\"id\":1}")),
        Request {
            verb: Verb::Get,
            url: "https://server/users".to_string(),
            body: Body::Json("{\"id\":1}".to_string()),
        }
    );
    assert_eq!(
        http_post("https://server/users", Some("not json at all")),
        Request {
            verb: Verb::Post,
            url: "https://server/users".to_string(),
            body: Body::Json("not json at all".to_string()),
        }
    );
    assert_eq!(
        http_delete("https://server/users/1", Some("")),
        Request {
            verb: Verb::Delete,
            url: "https://server/users/1".to_string(),
            body: Body::Json(String::new()),
        }
    );
    assert_eq!(Body::Json("{}".to_string()).content_type(), Some("application/json"));
}

#[test]
fn a_call_without_body_sends_none() {
    for verb in [Verb::Get, Verb::Post, Verb::Put, Verb::Patch, Verb::Delete] {
        assert_eq!(
            request_without_file(verb, "https://server", None),
            Request { verb, url: "https://server".to_string(), body: Body::Empty }
        );
    }
    assert_eq!(http_put("https://server", None, None).unwrap().body, Body::Empty);
    assert_eq!(
        http_patch("https://server", None, Some("key"), Some("value"), None).unwrap().body,
        Body::Empty
    );
    assert_eq!(Body::Empty.content_type(), None);
    assert_eq!(Body::Multipart(Vec::new()).content_type(), None);
}

#[test]
fn put_without_file_sends_the_raw_body() {
    assert_eq!(
        http_put("https://server/avatar", Some("{}"), None),
        Ok(Request {
            verb: Verb::Put,
            url: "https://server/avatar".to_string(),
            body: Body::Json("{}".to_string()),
        })
    );
}

#[test]
fn put_uploads_the_file_as_image() {
    let request = http_put("https://server/avatar", None, read("avatar.png", &[1, 2, 3]));
    assert_eq!(
        request,
        Ok(Request {
            verb: Verb::Put,
            url: "https://server/avatar".to_string(),
            body: Body::Multipart(vec![image("image", "avatar.png", "image/png", &[1, 2, 3])]),
        })
    );
}

#[test]
fn a_given_extension_decides_the_type() {
    assert_eq!(
        put_with_extension("https://server", Some("{}"), read("avatar.png", &[1]), Some("webp")),
        Ok(Request {
            verb: Verb::Put,
            url: "https://server".to_string(),
            body: Body::Multipart(vec![image("image", "avatar.png", "image/webp", &[1])]),
        })
    );
    assert_eq!(
        put_with_extension("https://server", None, read("avatar.png", &[1]), None),
        Err(no_extension())
    );
    assert_eq!(
        put_with_extension("https://server", Some("{}"), None, Some("png")),
        Ok(Request {
            verb: Verb::Put,
            url: "https://server".to_string(),
            body: Body::Json("{}".to_string()),
        })
    );
    assert_eq!(
        patch_with_extension(
            "https://server",
            None,
            Some("caption"),
            Some("<b>hi</b>"),
            read("a", &[2]),
            Some("gif")
        ),
        Ok(Request {
            verb: Verb::Patch,
            url: "https://server".to_string(),
            body: Body::Multipart(vec![
                image("data", "a", "image/gif", &[2]),
                text("caption", "<b>hi</b>"),
            ]),
        })
    );
}

#[test]
fn a_file_goes_before_the_raw_body() {
    let with_body = http_put("https://server", Some("{\"ignored\":true}"), read("a.gif", &[7]));
    let without = http_put("https://server", None, read("a.gif", &[7]));
    assert_eq!(with_body, without);
    assert_eq!(
        with_body.unwrap().body,
        Body::Multipart(vec![image("image", "a.gif", "image/gif", &[7])])
    );
    let with_body = http_patch("https://server", Some("{}"), Some("k"), None, read("a.gif", &[7]));
    let without = http_patch("https://server", None, Some("k"), None, read("a.gif", &[7]));
    assert_eq!(with_body, without);
}

#[test]
fn patch_uploads_the_file_as_data_with_the_callers_field() {
    let request = http_patch(
        "https://server/room",
        None,
        Some("roomName"),
        Some("room-7"),
        read("dir/p.jpeg", &[9]),
    );
    assert_eq!(
        request,
        Ok(Request {
            verb: Verb::Patch,
            url: "https://server/room".to_string(),
            body: Body::Multipart(vec![
                image("data", "dir/p.jpeg", "image/jpeg", &[9]),
                text("roomName", "room-7"),
            ]),
        })
    );
    let request =
        http_patch("https://server/room", None, Some("imageKey"), Some("k1"), read("p.png", &[]));
    assert_eq!(
        request.unwrap().body,
        Body::Multipart(vec![image("data", "p.png", "image/png", &[]), text("imageKey", "k1")])
    );
}

#[test]
fn a_field_without_value_carries_no_text() {
    let request = http_patch("https://server/room", None, Some("note"), None, read("p.png", &[4]));
    assert_eq!(
        request.unwrap().body,
        Body::Multipart(vec![image("data", "p.png", "image/png", &[4]), text("note", "")])
    );
}

#[test]
fn patch_without_field_key_uploads_the_file_alone() {
    let request = http_patch("https://server/room", Some("{}"), None, None, read("p.png", &[]));
    assert_eq!(
        request,
        Ok(Request {
            verb: Verb::Patch,
            url: "https://server/room".to_string(),
            body: Body::Multipart(vec![image("data", "p.png", "image/png", &[])]),
        })
    );
    let request =
        http_patch("https://server/room", None, None, Some("lost"), read("p.png", &[]));
    assert_eq!(
        request.unwrap().body,
        Body::Multipart(vec![image("data", "p.png", "image/png", &[])])
    );
}

#[test]
fn a_missing_file_is_an_error_of_the_gateway() {
    let reason = "No such file or directory (os error 2)";
    let request = http_put("https://server/avatar", None, unreadable("missing.png", reason));
    assert_eq!(request, Err(HttpError::MissingFile(reason.to_string())));
    let response = HttpResponse::from_outcome(Err(request.unwrap_err()));
    assert_eq!(response, HttpResponse { body: String::new(), err: reason.to_string() });

    let request =
        http_patch("https://server", Some("{}"), Some("k"), Some("v"), unreadable("missing", ""));
    assert_eq!(request, Err(HttpError::MissingFile(String::new())));
    let response = HttpResponse::from_outcome(Err(request.unwrap_err()));
    assert_eq!(response, HttpResponse { body: String::new(), err: "missing file".to_string() });
}

#[test]
fn a_type_that_the_client_refuses_is_an_encoding_error() {
    let refused = "builder error: mime parse error: an invalid token was encountered, 20 at position 7";
    assert_eq!(
        http_put("https://server", None, read("avatar.p ng", &[1])),
        Err(HttpError::Encoding(refused.to_string()))
    );
    assert_eq!(
        Part::checked("f", Content::Text(String::new()), None, "image".to_string()),
        Err(HttpError::Encoding(
            "builder error: mime parse error: a slash (/) was missing between the type and subtype"
                .to_string()
        ))
    );
    assert_eq!(
        Part::checked("f", Content::Bytes(vec![1]), Some("n"), "image/svg+xml".to_string()),
        Ok(Part {
            name: "f".to_string(),
            content: Content::Bytes(vec![1]),
            file_name: Some("n".to_string()),
            mime: "image/svg+xml".to_string(),
        })
    );
}

#[test]
fn a_part_is_settled_by_the_answer_of_the_check() {
    assert_eq!(
        Part::settle("f", Content::Text("v".to_string()), None, "text/html".to_string(), Ok(())),
        Ok(text("f", "v"))
    );
    assert_eq!(
        Part::settle(
            "f",
            Content::Text("v".to_string()),
            Some("n"),
            "text/html".to_string(),
            Err("refused".to_string())
        ),
        Err(HttpError::Encoding("refused".to_string()))
    );
    assert_eq!(Part::text("imageKey", "room-7"), Ok(text("imageKey", "room-7")));
}

#[test]
fn an_answer_fills_the_body_and_a_failure_the_error() {
    assert_eq!(
        HttpResponse::from_outcome(Ok("{\"ok\":true}".to_string())),
        HttpResponse { body: "{\"ok\":true}".to_string(), err: String::new() }
    );
    assert_eq!(
        HttpResponse::from_outcome(Err(HttpError::Network("connection refused".to_string()))),
        HttpResponse { body: String::new(), err: "connection refused".to_string() }
    );
}

#[test]
fn an_empty_answer_is_told_in_the_error() {
    assert_eq!(
        HttpResponse::from_outcome(Ok(String::new())),
        HttpResponse { body: String::new(), err: "the answer is empty".to_string() }
    );
}

#[test]
fn exactly_one_field_of_a_response_is_filled() {
    let outcomes = vec![
        Ok(String::new()),
        Ok(" ".to_string()),
        Ok("body".to_string()),
        Err(HttpError::Network(String::new())),
        Err(HttpError::Network("down".to_string())),
        Err(HttpError::Encoding(String::new())),
        Err(HttpError::MissingFile(String::new())),
        Err(HttpError::MissingFile("gone".to_string())),
    ];
    for outcome in outcomes {
        let response = HttpResponse::from_outcome(outcome);
        assert_ne!(response.body.is_empty(), response.err.is_empty());
    }
}

#[test]
fn the_message_of_an_error_is_never_empty() {
    assert_eq!(HttpError::Network("dns".to_string()).message(), "dns");
    assert_eq!(HttpError::Encoding("bad type".to_string()).message(), "bad type");
    assert_eq!(HttpError::MissingFile("gone".to_string()).message(), "gone");
    assert_eq!(HttpError::Network(String::new()).message(), "network error");
    assert_eq!(HttpError::Encoding(String::new()).message(), "encoding error");
    assert_eq!(HttpError::MissingFile(String::new()).message(), "missing file");
}
