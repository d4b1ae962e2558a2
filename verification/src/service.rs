//! The order of the build service's work. Each request runs as a sequence
//! of steps; after each piece of outside work (asking the model, cloning,
//! reading a source, building) the service hands the outcome to one of the
//! functions here, which says what to do next. Submitted code reaches the
//! sandbox only through `ServiceAction::BuildTemplate`, and a cloned project
//! only after `ServiceAction::ScanClone` has passed all its sources.
use vstd::prelude::*;
use vstd::utf8::{encode_utf8, valid_utf8};
use crate::sandbox::{
    artifact_reply, build_failure_reply, clone_failure_reply, compile_gate, file_extension,
    first_with_extension, is_first_with_extension, missing_artifact_reply, threat_reply, Reply,
    ARTIFACT_EXTENSION, CLONE_FAILED_MESSAGE, NO_ARTIFACT_MESSAGE, STATUS_BAD_REQUEST,
    STATUS_FORBIDDEN, STATUS_INTERNAL_ERROR, STATUS_OK,
};
use crate::schema::{
    injected_code, inject_schema, needs_schema, prompt_for, request_body_for, request_url_for,
    schema_request, GeminiRequest,
};
use crate::security::{code_is_safe, is_code_safe, is_first_violation, string_views, violation_message};
use crate::text::{trim, trim_str};

verus! {

/// What the build service does next.
pub enum ServiceAction {
    /// Answer the request with this reply; the request is done.
    Respond(Reply),
    /// Send this request to the model, then hand its reply to `compile_with_reply`.
    AskModel(GeminiRequest),
    /// Write this source into the template, build it in the sandbox, then
    /// hand the outcome to `template_build_finished`.
    BuildTemplate(String),
    /// Clone the repository at this address, then hand the outcome to `clone_finished`.
    CloneRepository(String),
    /// Walk the clone: read each source file (see `scan_reads`) and hand it
    /// to `scan_source`, stopping at the first refusal; when all pass, build.
    ScanClone,
    /// Send the listed file with this index as the built module.
    SendArtifact(usize),
}

/// What a sandbox build left.
pub enum BuildResult {
    /// The build succeeded; for the template, the module it built.
    Succeeded(Vec<u8>),
    /// The build failed with this error output.
    Failed(Vec<u8>),
}

/// The first step of a request to build `code`: code that the screening
/// refuses is answered with 403; code without a schema goes to the model;
/// code with one is built as it is.
pub fn compile_request(code: &str, key: &str) -> (a: ServiceAction)
    ensures
        !code_is_safe(code@) ==> (a matches ServiceAction::Respond(r) && r.status
            == STATUS_FORBIDDEN && exists|k: int|
            #[trigger] is_first_violation(code@, k) && r.body@ == encode_utf8(
                violation_message(k),
            )),
        code_is_safe(code@) && needs_schema(code@) ==> (a matches ServiceAction::AskModel(q)
            && q.url@ == request_url_for(key@) && q.body@ == request_body_for(prompt_for(code@))),
        code_is_safe(code@) && !needs_schema(code@) ==> (a matches ServiceAction::BuildTemplate(
            src,
        ) && src@ == code@),
{
    match compile_gate(code) {
        Some(reply) => ServiceAction::Respond(reply),
        None => match schema_request(code, key) {
            Some(q) => ServiceAction::AskModel(q),
            None => ServiceAction::BuildTemplate(code.to_owned()),
        },
    }
}

/// The step after the model was asked about `code`: build the code with the
/// schema that the reply holds (the code as it is when no usable reply came).
pub fn compile_with_reply(code: &str, reply: Option<&str>) -> (a: ServiceAction)
    ensures
        a matches ServiceAction::BuildTemplate(src) && src@ == injected_code(
            code@,
            match reply {
                Some(t) => Some(t@),
                None => None,
            },
        ),
{
    ServiceAction::BuildTemplate(inject_schema(code, reply))
}

/// The reply to a finished template build: the module with 200, or the
/// build's error output, which is UTF-8 text, with 400.
pub fn template_build_finished(result: BuildResult) -> (r: Reply)
    requires
        result matches BuildResult::Failed(e) ==> valid_utf8(e@),
    ensures
        match result {
            BuildResult::Succeeded(m) => r.status == STATUS_OK && r.body@ == m@,
            BuildResult::Failed(e) => r.status == STATUS_BAD_REQUEST && r.body@ == e@,
        },
{
    match result {
        BuildResult::Succeeded(m) => artifact_reply(m),
        BuildResult::Failed(e) => build_failure_reply(e),
    }
}

/// The first step of a request to build a repository: clone it, at the
/// address given without surrounding white space.
pub fn github_request(url: &str) -> (a: ServiceAction)
    ensures
        a matches ServiceAction::CloneRepository(u) && u@ == trim(url@),
{
    ServiceAction::CloneRepository(trim_str(url))
}

/// The step after the clone: screen its sources when it succeeded; answer
/// 400 otherwise.
pub fn clone_finished(succeeded: bool) -> (a: ServiceAction)
    ensures
        succeeded ==> a is ScanClone,
        !succeeded ==> (a matches ServiceAction::Respond(r) && r.status == STATUS_BAD_REQUEST
            && r.body@ == encode_utf8(CLONE_FAILED_MESSAGE@)),
{
    if succeeded {
        ServiceAction::ScanClone
    } else {
        ServiceAction::Respond(clone_failure_reply())
    }
}

/// Whether the scan reads the file `name`: it does for Rust sources only.
pub fn scan_reads(name: &str) -> (b: bool)
    ensures
        b == (file_extension(name@) == Some("rs"@)),
{
    crate::sandbox::is_source_file(name)
}

/// One step of the scan, on the next source that could be read: `None` to
/// go on; otherwise the 403 reply that names the first refused term in it,
/// and the scan stops there.
pub fn scan_source(content: &str) -> (r: Option<Reply>)
    ensures
        r is None <==> code_is_safe(content@),
        r matches Some(rep) ==> rep.status == STATUS_FORBIDDEN && exists|k: int|
            #[trigger] is_first_violation(content@, k) && rep.body@ == encode_utf8(
                violation_message(k),
            ),
{
    match is_code_safe(content) {
        Ok(()) => None,
        Err(m) => Some(threat_reply(m.as_str())),
    }
}

/// What the build of a clone left: its error output when it failed; when it
/// succeeded, the names of the files in its release directory (`None` when
/// that directory cannot be read).
pub enum CloneBuildResult {
    Failed(Vec<u8>),
    Succeeded(Option<Vec<String>>),
}

/// The step after the build of a clone: the error output with 400 when it
/// failed; otherwise the first listed module, or 500 when there is none.
pub fn clone_build_finished(result: CloneBuildResult) -> (a: ServiceAction)
    requires
        result matches CloneBuildResult::Failed(e) ==> valid_utf8(e@),
    ensures
        match result {
            CloneBuildResult::Failed(e) => a matches ServiceAction::Respond(r) && r.status
                == STATUS_BAD_REQUEST && r.body@ == e@,
            CloneBuildResult::Succeeded(None) => a matches ServiceAction::Respond(r) && r.status
                == STATUS_INTERNAL_ERROR && r.body@ == encode_utf8(NO_ARTIFACT_MESSAGE@),
            CloneBuildResult::Succeeded(Some(names)) => {
                ||| a matches ServiceAction::SendArtifact(i) && is_first_with_extension(
                    string_views(names@),
                    ARTIFACT_EXTENSION@,
                    i as int,
                )
                ||| a matches ServiceAction::Respond(r) && r.status == STATUS_INTERNAL_ERROR
                    && r.body@ == encode_utf8(NO_ARTIFACT_MESSAGE@) && forall|j: int|
                    0 <= j < names@.len() ==> file_extension(#[trigger] names@[j]@) != Some(
                        ARTIFACT_EXTENSION@,
                    )
            },
        },
{
    match result {
        CloneBuildResult::Failed(e) => ServiceAction::Respond(build_failure_reply(e)),
        CloneBuildResult::Succeeded(None) => ServiceAction::Respond(missing_artifact_reply()),
        CloneBuildResult::Succeeded(Some(names)) => match first_with_extension(
            &names,
            ARTIFACT_EXTENSION,
        ) {
            Some(i) => ServiceAction::SendArtifact(i),
            None => ServiceAction::Respond(missing_artifact_reply()),
        },
    }
}

} // verus!
