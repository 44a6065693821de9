use taupy_window::assets::{
    join, relative_path, respond, Lookup, ServerBinding, STATUS_NOT_FOUND, STATUS_OK,
    STATUS_READ_FAILED,
};

#[test]
fn root_request_serves_the_index_of_assets() {
    let binding = ServerBinding::new("assets".to_string(), 8000);
    let file = binding.locate("");
    assert_eq!(file, "assets/index.html");
    let reply = respond(Lookup::Found(b"<html></html>".to_vec()));
    assert_eq!(reply.status, 200);
    assert_eq!(reply.body, b"<html></html>".to_vec());
}

#[test]
fn request_path_is_appended_to_the_root() {
    let binding = ServerBinding::new("/srv/app/dist".to_string(), 8000);
    assert_eq!(binding.locate("/"), "/srv/app/dist/index.html");
    assert_eq!(binding.locate("/app.js"), "/srv/app/dist/app.js");
    assert_eq!(binding.locate("/css/site.css"), "/srv/app/dist/css/site.css");
    assert_eq!(binding.locate("app.js"), "/srv/app/dist/app.js");
}

#[test]
fn every_leading_separator_is_dropped() {
    assert_eq!(relative_path(""), "index.html");
    assert_eq!(relative_path("/"), "index.html");
    assert_eq!(relative_path("///"), "index.html");
    assert_eq!(relative_path("/a"), "a");
    assert_eq!(relative_path("//a"), "a");
    assert_eq!(relative_path("/a/"), "a/");
    assert_eq!(relative_path("/a//b"), "a//b");
    assert_eq!(relative_path("a/b"), "a/b");
}

#[test]
fn mapping_is_literal() {
    let binding = ServerBinding::new("dist".to_string(), 8000);
    assert_eq!(binding.locate("/../secret.txt"), "dist/../secret.txt");
    assert_eq!(binding.locate("/page.html?x=1"), "dist/page.html?x=1");
    assert_eq!(binding.locate("/a%20b.txt"), "dist/a%20b.txt");
    assert_eq!(binding.locate("/\u{e9}t\u{e9}/\u{1f600}.png"), "dist/\u{e9}t\u{e9}/\u{1f600}.png");
    assert_eq!(binding.locate("\\x"), "dist/\\x");
}

#[test]
fn mapping_agrees_with_trimming_and_joining() {
    let urls = ["", "/", "//", "/a", "/a/b.c", "x", "/?", "/ /", "/\u{2f}/y", "/index.html"];
    for root in ["assets", "/abs/dist", "rel/dist", "C:\\app\\dist"] {
        let binding = ServerBinding::new(root.to_string(), 1);
        for url in urls {
            let trimmed = url.trim_start_matches('/');
            let file = if trimmed.is_empty() { "index.html" } else { trimmed };
            assert_eq!(binding.locate(url), format!("{}/{}", root, file));
        }
    }
}

#[test]
fn join_puts_one_separator_between() {
    assert_eq!(join("a", "b"), "a/b");
    assert_eq!(join("a/", "b"), "a//b");
    assert_eq!(join("a", ""), "a/");
    assert_eq!(join("a/b", "c/d"), "a/b/c/d");
    assert_eq!(join("/", "b"), "//b");
}

#[test]
fn join_with_an_empty_base_is_the_tail() {
    assert_eq!(join("", "b"), "b");
    assert_eq!(join("", "b/c"), "b/c");
    assert_eq!(join("", ""), "");
}

#[test]
fn empty_root_serves_below_the_working_directory() {
    let binding = ServerBinding::new(String::new(), 8000);
    assert_eq!(binding.locate(""), "index.html");
    assert_eq!(binding.locate("/"), "index.html");
    assert_eq!(binding.locate("/app.js"), "app.js");
    assert_eq!(binding.locate("//css/site.css"), "css/site.css");
}

#[test]
fn mapping_names_the_file_that_a_path_join_names() {
    let urls = ["", "/", "//", "/a", "/a/b.c", "x", "/?", "/a/../b", "/index.html", "/a/"];
    for root in ["", "assets", "assets/", "/abs/dist", "rel/dist", ".", ".."] {
        let binding = ServerBinding::new(root.to_string(), 1);
        for url in urls {
            let trimmed = url.trim_start_matches('/');
            let mut expected = std::path::PathBuf::from(root);
            expected.push(trimmed);
            if trimmed.is_empty() {
                expected.push("index.html");
            }
            assert_eq!(std::path::PathBuf::from(binding.locate(url)), expected, "{:?} {:?}", root, url);
        }
    }
}

#[test]
fn server_listens_on_every_interface() {
    assert_eq!(ServerBinding::new("d".to_string(), 8000).address(), "0.0.0.0:8000");
    assert_eq!(ServerBinding::new("d".to_string(), 0).address(), "0.0.0.0:0");
    assert_eq!(ServerBinding::new("d".to_string(), 80).address(), "0.0.0.0:80");
    assert_eq!(ServerBinding::new("d".to_string(), 65535).address(), "0.0.0.0:65535");
}

#[test]
fn binding_keeps_what_it_was_made_of() {
    let binding = ServerBinding::new("some/root".to_string(), 4321);
    assert_eq!(binding.root, "some/root");
    assert_eq!(binding.port, 4321);
}

#[test]
fn existing_file_is_answered_with_its_bytes() {
    let bytes: Vec<u8> = vec![0, 1, 2, 255, 254, 10, 13, 0];
    let reply = respond(Lookup::Found(bytes.clone()));
    assert_eq!(reply.status, 200);
    assert_eq!(reply.status, STATUS_OK);
    assert_eq!(reply.body, bytes);
}

#[test]
fn empty_file_is_answered_with_200_and_no_bytes() {
    let reply = respond(Lookup::Found(Vec::new()));
    assert_eq!(reply.status, 200);
    assert!(reply.body.is_empty());
}

#[test]
fn missing_file_is_answered_with_404_and_no_body() {
    let reply = respond(Lookup::Missing);
    assert_eq!(reply.status, 404);
    assert_eq!(reply.status, STATUS_NOT_FOUND);
    assert!(reply.body.is_empty());
}

#[test]
fn unreadable_file_is_answered_with_500_and_no_body() {
    let reply = respond(Lookup::Unreadable);
    assert_eq!(reply.status, 500);
    assert_eq!(reply.status, STATUS_READ_FAILED);
    assert!(reply.body.is_empty());
}
