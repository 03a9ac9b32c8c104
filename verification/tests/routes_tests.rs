use workpool::routes::Route;
use workpool::routes::build_response;
use workpool::routes::decimal_string;
use workpool::routes::route;

#[test]
fn the_root_line_selects_the_root_route() {
    let r = route(&String::from("GET / HTTP/1.1"));
    assert_eq!(r, Route::Root);
    assert_eq!(r.status_line(), "HTTP/1.1 200 OK");
    assert_eq!(r.file_name(), "hello.html");
    assert!(!r.is_sleep());
}

#[test]
fn the_sleep_line_selects_the_delayed_route() {
    let r = route(&String::from("GET /sleep HTTP/1.1"));
    assert_eq!(r, Route::Sleep);
    assert_eq!(r.status_line(), "HTTP/1.1 200 OK");
    assert_eq!(r.file_name(), "front-end/hello.html");
    assert!(r.is_sleep());
}

#[test]
fn decimal_strings_are_exact() {
    assert_eq!(decimal_string(0), "0");
    assert_eq!(decimal_string(7), "7");
    assert_eq!(decimal_string(10), "10");
    assert_eq!(decimal_string(105), "105");
    assert_eq!(decimal_string(98765), "98765");
}

#[test]
fn the_response_names_the_exact_body_length() {
    let ok = build_response(&String::from("HTTP/1.1 200 OK"), &String::from("hello"));
    assert_eq!(ok, "HTTP/1.1 200 OK\r\nContent-Length: 5\r\n\r\nhello");
    let empty = build_response(&String::from("HTTP/1.1 404 NOT FOUND"), &String::from(""));
    assert_eq!(empty, "HTTP/1.1 404 NOT FOUND\r\nContent-Length: 0\r\n\r\n");
}

#[test]
fn anything_else_falls_back_to_not_found() {
    for line in [
        "GET /missing HTTP/1.1",
        "POST / HTTP/1.1",
        "GET / HTTP/1.0",
        "",
        "GET /  HTTP/1.1",
    ] {
        let r = route(&String::from(line));
        assert_eq!(r, Route::NotFound);
        assert_eq!(r.status_line(), "HTTP/1.1 404 NOT FOUND");
        assert_eq!(r.file_name(), "404.html");
        assert!(!r.is_sleep());
    }
}
