use reqwest::header::CONTENT_TYPE;
use reqwest_pretty_json::request::MAX_HEADER_NAMES;
use reqwest_pretty_json::PrettyJson;

fn async_builder_with_names(names: usize) -> reqwest::RequestBuilder {
    let mut builder = reqwest::Client::new().post("http://localhost/");
    for index in 0..names {
        builder = builder.header(format!("x-name-{}", index), "1");
    }
    builder
}

fn blocking_builder_with_names(names: usize) -> reqwest::blocking::RequestBuilder {
    let mut builder = reqwest::blocking::Client::new().post("http://localhost/");
    for index in 0..names {
        builder = builder.header(format!("x-name-{}", index), "1");
    }
    builder
}

#[test]
fn header_name_limit_is_a_fifth_of_the_slots() {
    assert_eq!(MAX_HEADER_NAMES, 6553);
    assert_eq!(MAX_HEADER_NAMES, 32768 / 5);
}

#[test]
fn async_try_attaches_like_pretty_json() {
    let data = vec![1, 2, 3];
    let client = reqwest::Client::new();
    let tried = match client.post("http://localhost/").try_pretty_json(&data) {
        Ok(sent) => sent.build().unwrap(),
        Err(_) => panic!("a fresh builder has room"),
    };
    let plain = client
        .post("http://localhost/")
        .pretty_json(&data)
        .build()
        .unwrap();
    assert_eq!(
        tried.body().unwrap().as_bytes().unwrap(),
        b"[\n  1,\n  2,\n  3\n]"
    );
    assert_eq!(
        tried.body().unwrap().as_bytes(),
        plain.body().unwrap().as_bytes()
    );
    assert_eq!(tried.headers(), plain.headers());
}

#[test]
fn blocking_try_attaches_like_pretty_json() {
    let data = vec![1, 2, 3];
    let client = reqwest::blocking::Client::new();
    let tried = match client.post("http://localhost/").try_pretty_json(&data) {
        Ok(sent) => sent.build().unwrap(),
        Err(_) => panic!("a fresh builder has room"),
    };
    let plain = client
        .post("http://localhost/")
        .pretty_json(&data)
        .build()
        .unwrap();
    assert_eq!(
        tried.body().unwrap().as_bytes().unwrap(),
        b"[\n  1,\n  2,\n  3\n]"
    );
    assert_eq!(
        tried.body().unwrap().as_bytes(),
        plain.body().unwrap().as_bytes()
    );
    assert_eq!(tried.headers(), plain.headers());
}

#[test]
fn async_try_accepts_the_last_name_that_fits() {
    let builder = async_builder_with_names(MAX_HEADER_NAMES);
    let request = match builder.try_pretty_json(&true) {
        Ok(sent) => sent.build().unwrap(),
        Err(_) => panic!("the limit itself leaves room"),
    };
    assert_eq!(request.headers().keys_len(), MAX_HEADER_NAMES + 1);
    assert_eq!(request.headers()[CONTENT_TYPE], "application/json");
    assert_eq!(request.body().unwrap().as_bytes().unwrap(), b"true");
}

#[test]
fn async_try_refuses_one_name_too_many() {
    let builder = async_builder_with_names(MAX_HEADER_NAMES + 1);
    let request = match builder.try_pretty_json(&true) {
        Ok(_) => panic!("one name over the limit leaves no room"),
        Err(kept) => kept.build().unwrap(),
    };
    assert_eq!(request.headers().keys_len(), MAX_HEADER_NAMES + 1);
    assert!(!request.headers().contains_key(CONTENT_TYPE));
    assert!(request.body().is_none());
}

#[test]
fn blocking_try_refuses_one_name_too_many() {
    let builder = blocking_builder_with_names(MAX_HEADER_NAMES + 1);
    let request = match builder.try_pretty_json(&true) {
        Ok(_) => panic!("one name over the limit leaves no room"),
        Err(kept) => kept.build().unwrap(),
    };
    assert_eq!(request.headers().keys_len(), MAX_HEADER_NAMES + 1);
    assert!(!request.headers().contains_key(CONTENT_TYPE));
    assert!(request.body().is_none());
}

#[test]
fn async_try_needs_no_room_when_the_header_is_present() {
    let builder =
        async_builder_with_names(MAX_HEADER_NAMES + 1).header(CONTENT_TYPE, "text/plain");
    let request = match builder.try_pretty_json(&true) {
        Ok(sent) => sent.build().unwrap(),
        Err(_) => panic!("nothing has to be added"),
    };
    assert_eq!(request.headers().keys_len(), MAX_HEADER_NAMES + 2);
    assert_eq!(request.headers()[CONTENT_TYPE], "text/plain");
    assert_eq!(request.body().unwrap().as_bytes().unwrap(), b"true");
}

#[test]
fn try_hands_back_a_builder_with_an_error() {
    match reqwest::Client::new()
        .post("not a url")
        .try_pretty_json(&1)
    {
        Ok(_) => panic!("the headers of a failed builder cannot be seen"),
        Err(kept) => assert!(kept.build().unwrap_err().is_builder()),
    }
    match reqwest::blocking::Client::new()
        .post("not a url")
        .try_pretty_json(&1)
    {
        Ok(_) => panic!("the headers of a failed builder cannot be seen"),
        Err(kept) => assert!(kept.build().unwrap_err().is_builder()),
    }
}

#[test]
fn blocking_try_hands_back_a_builder_with_a_streamed_body() {
    let builder = reqwest::blocking::Client::new()
        .post("http://localhost/")
        .body(reqwest::blocking::Body::new(std::io::empty()));
    let request = match builder.try_pretty_json(&1) {
        Ok(_) => panic!("a streamed body cannot be copied"),
        Err(kept) => kept.build().unwrap(),
    };
    assert!(request.body().unwrap().as_bytes().is_none());
    assert!(!request.headers().contains_key(CONTENT_TYPE));
}

#[test]
fn blocking_pretty_json_replaces_a_streamed_body() {
    let request = reqwest::blocking::Client::new()
        .post("http://localhost/")
        .body(reqwest::blocking::Body::new(std::io::empty()))
        .pretty_json(&1)
        .build()
        .unwrap();
    assert_eq!(request.body().unwrap().as_bytes().unwrap(), b"1");
    assert_eq!(request.headers()[CONTENT_TYPE], "application/json");
}
