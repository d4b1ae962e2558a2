use orbit::sandbox::{
    artifact_reply, build_failure_reply, clone_failure_reply, compile_gate, docker_build_args,
    first_with_extension, has_extension, is_artifact_file, is_source_file, missing_artifact_reply,
    threat_reply, utf8_bytes,
};
use std::path::Path;

#[test]
fn build_args_mount_the_project() {
    let args = docker_build_args("/srv/orbit-template");
    assert_eq!(
        args,
        vec![
            "run", "--rm", "-v", "/srv/orbit-template:/app", "-w", "/app", "rust:latest", "sh", "-c",
            "rustup target add wasm32-unknown-unknown && cargo build --target=wasm32-unknown-unknown --release",
        ]
    );
}

#[test]
fn gate_refuses_unsafe_code() {
    assert!(compile_gate("fn f() {}").is_none());
    let r = compile_gate("std::process::exit(0)").unwrap();
    assert_eq!(r.status, 403);
    assert_eq!(
        String::from_utf8(r.body).unwrap(),
        "Güvenlik İhlali! Yasaklı terim tespit edildi: std::process"
    );
}

#[test]
fn replies_carry_status_and_body() {
    let a = artifact_reply(vec![0, 97, 115, 109]);
    assert_eq!((a.status, a.body), (200, vec![0, 97, 115, 109]));
    let f = build_failure_reply(b"error[E0425]".to_vec());
    assert_eq!((f.status, f.body), (400, b"error[E0425]".to_vec()));
    let c = clone_failure_reply();
    assert_eq!((c.status, c.body), (400, "GitHub reposu klonlanamadı.".as_bytes().to_vec()));
    let t = threat_reply("yasak");
    assert_eq!((t.status, t.body), (403, b"yasak".to_vec()));
    let m = missing_artifact_reply();
    assert_eq!((m.status, m.body), (500, "WASM dosyası bulunamadı!".as_bytes().to_vec()));
    assert_eq!(utf8_bytes("ş"), "ş".as_bytes().to_vec());
}

#[test]
fn extension_matches_path() {
    let names = [
        "a.wasm", "a.rs", ".wasm", "wasm", "a.b.wasm", "a.wasm.bak", "..", ".", "a.", "x.RS",
        "lib.rs", ".rs.rs", "é.rs",
    ];
    for n in names.iter() {
        for ext in ["wasm", "rs", ""].iter() {
            let expected = Path::new(n).extension().and_then(|s| s.to_str()) == Some(*ext);
            assert_eq!(has_extension(n, ext), expected, "{:?} {:?}", n, ext);
        }
    }
    assert!(is_source_file("main.rs"));
    assert!(!is_source_file("main.rs.orig"));
    assert!(is_artifact_file("orbit_template.wasm"));
    assert!(!is_artifact_file("orbit_template.d"));
}

#[test]
fn first_artifact_is_chosen() {
    let names: Vec<String> = ["deps", "app.d", "app.wasm", "other.wasm"]
        .iter()
        .map(|s| s.to_string())
        .collect();
    assert_eq!(first_with_extension(&names, "wasm"), Some(2));
    assert_eq!(first_with_extension(&names, "so"), None);
}
