//! The build service: the sandboxed build command, the choice of the built
//! artifact, and the HTTP replies that the service gives at each step.
use vstd::prelude::*;
use vstd::utf8::{encode_utf8, valid_utf8};
use crate::security::{
    code_is_safe, is_code_safe, is_first_violation, string_views, violation_message,
};
use crate::text::{push_str, chars_of, chars_equal};

verus! {

broadcast use vstd::string::group_string_axioms;

/// HTTP status of a successful build.
pub const STATUS_OK: u16 = 200;

/// HTTP status of a request that could not be served as asked.
pub const STATUS_BAD_REQUEST: u16 = 400;

/// HTTP status of code that the screening refused.
pub const STATUS_FORBIDDEN: u16 = 403;

/// HTTP status of a build that left no artifact.
pub const STATUS_INTERNAL_ERROR: u16 = 500;

/// The program that runs the sandbox.
pub const SANDBOX_PROGRAM: &'static str = "docker";

/// The directory, under the service's working directory, of the plugin template.
pub const TEMPLATE_DIR: &'static str = "orbit-template";

/// The template's source file, relative to the template directory.
pub const TEMPLATE_SOURCE_FILE: &'static str = "src/lib.rs";

/// The artifact of a template build, relative to the template directory.
pub const TEMPLATE_ARTIFACT: &'static str = "target/wasm32-unknown-unknown/release/orbit_template.wasm";

/// The directory, under the service's working directory, into which repositories are cloned.
pub const CLONE_DIR: &'static str = "github-workspace";

/// The directory of a cloned project's artifacts, relative to its root.
pub const RELEASE_DIR: &'static str = "target/wasm32-unknown-unknown/release";

/// The extension of build artifacts.
pub const ARTIFACT_EXTENSION: &'static str = "wasm";

/// The extension of source files that are screened.
pub const SOURCE_EXTENSION: &'static str = "rs";

/// The shell command that the sandbox runs in the mounted project.
pub const BUILD_SCRIPT: &'static str = "rustup target add wasm32-unknown-unknown && cargo build --target=wasm32-unknown-unknown --release";

/// The reply to a repository that could not be cloned.
pub const CLONE_FAILED_MESSAGE: &'static str = "GitHub reposu klonlanamadı.";

/// The reply to a build that left no artifact.
pub const NO_ARTIFACT_MESSAGE: &'static str = "WASM dosyası bulunamadı!";

/// An HTTP reply: its status and its body.
#[derive(Clone, Debug, PartialEq, Eq)]
pub struct Reply {
    pub status: u16,
    pub body: Vec<u8>,
}

/// The arguments of the sandbox program that builds the project in `dir`.
pub open spec fn build_args_for(dir: Seq<char>) -> Seq<Seq<char>> {
    seq![
        "run"@,
        "--rm"@,
        "-v"@,
        dir + ":/app"@,
        "-w"@,
        "/app"@,
        "rust:latest"@,
        "sh"@,
        "-c"@,
        BUILD_SCRIPT@,
    ]
}

fn owned(s: &str) -> (r: String)
    ensures
        r@ == s@,
{
    s.to_owned()
}

/// The arguments of the sandbox program that builds the project in `dir`:
/// the directory is mounted at `/app`, and the WebAssembly target is added
/// and built in release mode there.
pub fn docker_build_args(dir: &str) -> (r: Vec<String>)
    ensures
        string_views(r@) == build_args_for(dir@),
{
    let mut r: Vec<String> = Vec::new();
    r.push(owned("run"));
    r.push(owned("--rm"));
    r.push(owned("-v"));
    let mut mount = String::new();
    push_str(&mut mount, dir);
    push_str(&mut mount, ":/app");
    r.push(mount);
    r.push(owned("-w"));
    r.push(owned("/app"));
    r.push(owned("rust:latest"));
    r.push(owned("sh"));
    r.push(owned("-c"));
    r.push(owned(BUILD_SCRIPT));
    assert(string_views(r@) =~= build_args_for(dir@));
    r
}

/// The UTF-8 bytes of `s`.
pub fn utf8_bytes(s: &str) -> (b: Vec<u8>)
    ensures
        b@ == encode_utf8(s@),
{
    s.as_bytes_vec()
}

/// A reply whose body is the UTF-8 text `msg`.
pub fn text_reply(status: u16, msg: &str) -> (r: Reply)
    ensures
        r.status == status,
        r.body@ == encode_utf8(msg@),
{
    Reply { status, body: utf8_bytes(msg) }
}

/// The reply to submitted code, when the screening refuses it: status 403
/// and the message that names the first refused term found; `None` when the
/// code may be built.
pub fn compile_gate(code: &str) -> (r: Option<Reply>)
    ensures
        r is None <==> code_is_safe(code@),
        r matches Some(rep) ==> rep.status == STATUS_FORBIDDEN && exists|k: int|
            #[trigger] is_first_violation(code@, k) && rep.body@ == encode_utf8(
                violation_message(k),
            ),
{
    match is_code_safe(code) {
        Ok(()) => None,
        Err(m) => Some(text_reply(STATUS_FORBIDDEN, m.as_str())),
    }
}

/// The reply that carries a built artifact: status 200 and its bytes.
pub fn artifact_reply(artifact: Vec<u8>) -> (r: Reply)
    ensures
        r.status == STATUS_OK,
        r.body@ == artifact@,
{
    Reply { status: STATUS_OK, body: artifact }
}

/// The reply to a failed build: status 400 and the build's error output,
/// which is UTF-8 text.
pub fn build_failure_reply(stderr: Vec<u8>) -> (r: Reply)
    requires
        valid_utf8(stderr@),
    ensures
        r.status == STATUS_BAD_REQUEST,
        r.body@ == stderr@,
{
    Reply { status: STATUS_BAD_REQUEST, body: stderr }
}

/// The reply to a repository that could not be cloned: status 400.
pub fn clone_failure_reply() -> (r: Reply)
    ensures
        r.status == STATUS_BAD_REQUEST,
        r.body@ == encode_utf8(CLONE_FAILED_MESSAGE@),
{
    text_reply(STATUS_BAD_REQUEST, CLONE_FAILED_MESSAGE)
}

/// The reply to a project whose sources the screening refused: status 403
/// and the refusal.
pub fn threat_reply(msg: &str) -> (r: Reply)
    ensures
        r.status == STATUS_FORBIDDEN,
        r.body@ == encode_utf8(msg@),
{
    text_reply(STATUS_FORBIDDEN, msg)
}

/// The reply to a build that left no artifact: status 500.
pub fn missing_artifact_reply() -> (r: Reply)
    ensures
        r.status == STATUS_INTERNAL_ERROR,
        r.body@ == encode_utf8(NO_ARTIFACT_MESSAGE@),
{
    text_reply(STATUS_INTERNAL_ERROR, NO_ARTIFACT_MESSAGE)
}

// ---------------------------------------------------------------------------
// File extensions
// ---------------------------------------------------------------------------

/// The index of the last `.` before `n`.
pub open spec fn last_dot_before(s: Seq<char>, n: int) -> Option<int>
    decreases n,
{
    if n <= 0 || n > s.len() {
        None
    } else if s[n - 1] == '.' {
        Some(n - 1)
    } else {
        last_dot_before(s, n - 1)
    }
}

/// The extension of a file name, as `Path::extension` gives it: the text
/// after the last `.`, unless there is no `.`, the only `.` that counts
/// starts the name, or the name is `..`.
pub open spec fn file_extension(name: Seq<char>) -> Option<Seq<char>> {
    if name == ".."@ {
        None
    } else {
        match last_dot_before(name, name.len() as int) {
            None => None,
            Some(k) => if k == 0 {
                None
            } else {
                Some(name.subrange(k + 1, name.len() as int))
            },
        }
    }
}

fn last_dot(v: &Vec<char>) -> (r: Option<usize>)
    ensures
        r matches Some(k) ==> k < v@.len() && last_dot_before(v@, v@.len() as int) == Some(
            k as int,
        ),
        r is None ==> last_dot_before(v@, v@.len() as int) is None,
{
    let mut n: usize = v.len();
    while n > 0
        invariant
            n <= v@.len(),
            last_dot_before(v@, v@.len() as int) == last_dot_before(v@, n as int),
        decreases n,
    {
        if v[n - 1] == '.' {
            return Some(n - 1);
        }
        n -= 1;
    }
    None
}

fn chars_equal_from(a: &Vec<char>, from: usize, b: &Vec<char>) -> (r: bool)
    requires
        from <= a@.len(),
    ensures
        r == (a@.subrange(from as int, a@.len() as int) == b@),
{
    let n = a.len();
    if n - from != b.len() {
        return false;
    }
    let mut i: usize = 0;
    while i < b.len()
        invariant
            i <= b@.len(),
            n == a@.len(),
            from <= n,
            n - from == b@.len(),
            forall|j: int| 0 <= j < i ==> a@[from + j] == b@[j],
        decreases b@.len() - i,
    {
        if a[from + i] != b[i] {
            assert(a@.subrange(from as int, n as int)[i as int] != b@[i as int]);
            return false;
        }
        i += 1;
    }
    assert(a@.subrange(from as int, n as int) =~= b@);
    true
}

/// Whether the file `name` has the extension `ext`.
pub fn has_extension(name: &str, ext: &str) -> (r: bool)
    ensures
        r == (file_extension(name@) == Some(ext@)),
{
    let v = chars_of(name);
    let dots = chars_of("..");
    proof {
        reveal_strlit("..");
    }
    if chars_equal(&v, &dots) {
        return false;
    }
    let e = chars_of(ext);
    let len = v.len();
    match last_dot(&v) {
        None => false,
        Some(k) => {
            if k == 0 {
                false
            } else {
                assert(k < len);
                chars_equal_from(&v, k + 1, &e)
            }
        },
    }
}

/// The first file, in the order given, that has the extension `ext`.
pub open spec fn is_first_with_extension(names: Seq<Seq<char>>, ext: Seq<char>, i: int) -> bool {
    &&& 0 <= i < names.len()
    &&& file_extension(names[i]) == Some(ext)
    &&& forall|j: int| 0 <= j < i ==> file_extension(#[trigger] names[j]) != Some(ext)
}

/// The index of the first file, in the order given, that has the extension
/// `ext`; `None` when none has.
pub fn first_with_extension(names: &Vec<String>, ext: &str) -> (r: Option<usize>)
    ensures
        r matches Some(i) ==> is_first_with_extension(string_views(names@), ext@, i as int),
        r is None ==> forall|j: int|
            0 <= j < names@.len() ==> file_extension(#[trigger] names@[j]@) != Some(ext@),
{
    let ghost views = string_views(names@);
    let mut i: usize = 0;
    while i < names.len()
        invariant
            i <= names@.len(),
            views == string_views(names@),
            forall|j: int| 0 <= j < i ==> file_extension(#[trigger] names@[j]@) != Some(ext@),
        decreases names@.len() - i,
    {
        if has_extension(names[i].as_str(), ext) {
            assert forall|j: int| 0 <= j < i implies file_extension(#[trigger] views[j]) != Some(
                ext@,
            ) by {
                assert(views[j] == names@[j]@);
            }
            return Some(i);
        }
        i += 1;
    }
    None
}

/// Whether a file is a source file that the screening reads.
pub fn is_source_file(name: &str) -> (r: bool)
    ensures
        r == (file_extension(name@) == Some(SOURCE_EXTENSION@)),
{
    has_extension(name, SOURCE_EXTENSION)
}

/// Whether a file is a build artifact.
pub fn is_artifact_file(name: &str) -> (r: bool)
    ensures
        r == (file_extension(name@) == Some(ARTIFACT_EXTENSION@)),
{
    has_extension(name, ARTIFACT_EXTENSION)
}

} // verus!
