use orbit::schema::{gemini_request_body, gemini_request_url, inject_schema, schema_prompt};
use orbit::service::{
    clone_build_finished, clone_finished, compile_request, compile_with_reply, github_request,
    scan_reads, scan_source, template_build_finished, BuildResult, CloneBuildResult, ServiceAction,
};

#[test]
fn refused_code_never_reaches_the_build() {
    match compile_request("use std::fs; fn f() {}", "k") {
        ServiceAction::Respond(r) => {
            assert_eq!(r.status, 403);
            assert_eq!(
                String::from_utf8(r.body).unwrap(),
                "Güvenlik İhlali! Yasaklı terim tespit edildi: std::fs"
            );
        }
        _ => panic!("expected a refusal"),
    }
}

#[test]
fn code_without_schema_goes_to_the_model() {
    match compile_request("fn f() {}", "k") {
        ServiceAction::AskModel(q) => {
            assert_eq!(q.url, gemini_request_url("k"));
            assert_eq!(q.body, gemini_request_body(&schema_prompt("fn f() {}")));
        }
        _ => panic!("expected a request to the model"),
    }
    match compile_with_reply("fn f() {}", Some("{\"isim\": \"x\"}")) {
        ServiceAction::BuildTemplate(src) => {
            assert_eq!(src, inject_schema("fn f() {}", Some("{\"isim\": \"x\"}")))
        }
        _ => panic!("expected a build"),
    }
    match compile_with_reply("fn f() {}", None) {
        ServiceAction::BuildTemplate(src) => assert_eq!(src, "fn f() {}"),
        _ => panic!("expected a build"),
    }
}

#[test]
fn code_with_schema_is_built_as_it_is() {
    let code = "static UI_SCHEMA: &str = \"{}\";";
    match compile_request(code, "k") {
        ServiceAction::BuildTemplate(src) => assert_eq!(src, code),
        _ => panic!("expected a build"),
    }
}

#[test]
fn template_build_replies() {
    let ok = template_build_finished(BuildResult::Succeeded(vec![0, 97]));
    assert_eq!((ok.status, ok.body), (200, vec![0, 97]));
    let bad = template_build_finished(BuildResult::Failed(b"error".to_vec()));
    assert_eq!((bad.status, bad.body), (400, b"error".to_vec()));
}

#[test]
fn repository_pipeline() {
    match github_request("  https://github.com/a/b \n") {
        ServiceAction::CloneRepository(u) => assert_eq!(u, "https://github.com/a/b"),
        _ => panic!("expected a clone"),
    }
    assert!(matches!(clone_finished(true), ServiceAction::ScanClone));
    match clone_finished(false) {
        ServiceAction::Respond(r) => {
            assert_eq!((r.status, r.body), (400, "GitHub reposu klonlanamadı.".as_bytes().to_vec()))
        }
        _ => panic!("expected a reply"),
    }
}

#[test]
fn scan_stops_at_first_refused_source() {
    let files = [
        ("README.md", "std::process is mentioned here"),
        ("lib.rs", "fn ok() {}"),
        ("main.rs", "macro_rules! m { () => {} }"),
        ("other.rs", "use std::net;"),
    ];
    let mut read = Vec::new();
    let mut refusal = None;
    for (name, content) in files.iter() {
        if scan_reads(name) {
            read.push(*name);
            if let Some(r) = scan_source(content) {
                refusal = Some(r);
                break;
            }
        }
    }
    assert_eq!(read, vec!["lib.rs", "main.rs"]);
    let r = refusal.unwrap();
    assert_eq!(r.status, 403);
    assert_eq!(
        String::from_utf8(r.body).unwrap(),
        "Güvenlik İhlali! Yasaklı terim tespit edildi: macro_rules!"
    );
    assert!(scan_source("fn ok() {}").is_none());
}

#[test]
fn clone_build_replies() {
    let names = vec!["deps".to_string(), "app.d".to_string(), "app.wasm".to_string()];
    assert!(matches!(clone_build_finished(CloneBuildResult::Succeeded(Some(names))), ServiceAction::SendArtifact(2)));
    for listing in [None, Some(vec!["a.d".to_string()])] {
        match clone_build_finished(CloneBuildResult::Succeeded(listing)) {
            ServiceAction::Respond(r) => {
                assert_eq!((r.status, r.body), (500, "WASM dosyası bulunamadı!".as_bytes().to_vec()))
            }
            _ => panic!("expected a reply"),
        }
    }
    match clone_build_finished(CloneBuildResult::Failed(b"boom".to_vec())) {
        ServiceAction::Respond(r) => assert_eq!((r.status, r.body), (400, b"boom".to_vec())),
        _ => panic!("expected a reply"),
    }
}
