use std::io;
use zula_core::{Cause, PluginError, ZulaError};

#[test]
fn text_of_io_error() {
    let e = ZulaError::Io(io::Error::new(io::ErrorKind::Other, "disk on fire"));
    assert_eq!(e.to_string(), "io error: disk on fire\r\n");
}

#[test]
fn text_of_unknown_command() {
    let e = ZulaError::InvalidCmd("frobnicate".to_string());
    assert_eq!(e.to_string(), "unknown command: frobnicate\r\n");
}

#[test]
fn text_of_unknown_command_with_empty_name() {
    let e = ZulaError::InvalidCmd(String::new());
    assert_eq!(e.to_string(), "unknown command: \r\n");
}

#[test]
fn text_of_empty_command() {
    assert_eq!(ZulaError::CommandEmpty.to_string(), "command not given\r\n");
}

#[test]
fn text_of_invalid_directory() {
    assert_eq!(ZulaError::InvalidDir.to_string(), "directory does not exist\r\n");
}

#[test]
fn text_of_recursive_alias() {
    assert_eq!(ZulaError::RecursiveAlias.to_string(), "recursive alias called\r\n");
}

#[test]
fn text_of_missing_plugin() {
    assert_eq!(ZulaError::InvalidPlugin.to_string(), "plugin not found\r\n");
}

#[test]
fn text_of_loader_error() {
    let e = ZulaError::LibErr(libloading::Error::DlOpenUnknown);
    assert_eq!(
        e.to_string(),
        "lib error: dlopen failed, but system did not report the error\r\n"
    );
}

#[test]
fn text_of_plugin_failure() {
    let e = ZulaError::Opaque(PluginError::new("no such colour".to_string()));
    assert_eq!(e.to_string(), "external error: no such colour\r\n");
}

#[test]
fn render_with_reads_detail_only_for_wrapped_outside_errors() {
    let io = ZulaError::Io(io::Error::new(io::ErrorKind::Other, "ignored"));
    assert_eq!(io.render_with("given"), "io error: given\r\n");
    let lib = ZulaError::LibErr(libloading::Error::DlSymUnknown);
    assert_eq!(lib.render_with("given"), "lib error: given\r\n");
    assert_eq!(ZulaError::InvalidDir.render_with("given"), "directory does not exist\r\n");
    assert_eq!(
        ZulaError::InvalidCmd("ls".to_string()).render_with("given"),
        "unknown command: ls\r\n"
    );
    assert_eq!(
        ZulaError::Opaque(PluginError::new("m".to_string())).render_with("given"),
        "external error: m\r\n"
    );
}

#[test]
fn source_of_wrapping_errors() {
    let io = ZulaError::Io(io::Error::new(io::ErrorKind::Other, "inner"));
    assert!(matches!(io.source(), Some(Cause::Io(e)) if e.to_string() == "inner"));
    let lib = ZulaError::LibErr(libloading::Error::DlCloseUnknown);
    assert!(matches!(lib.source(), Some(Cause::Library(libloading::Error::DlCloseUnknown))));
    let opaque = ZulaError::Opaque(PluginError::new("why".to_string()));
    assert!(matches!(opaque.source(), Some(Cause::Plugin(e)) if e.message == "why"));
}

#[test]
fn plain_errors_have_no_source() {
    assert!(ZulaError::InvalidCmd("x".to_string()).source().is_none());
    assert!(ZulaError::CommandEmpty.source().is_none());
    assert!(ZulaError::InvalidDir.source().is_none());
    assert!(ZulaError::RecursiveAlias.source().is_none());
    assert!(ZulaError::InvalidPlugin.source().is_none());
}

#[test]
fn io_errors_convert_to_io() {
    let e = ZulaError::from(io::Error::new(io::ErrorKind::PermissionDenied, "no"));
    assert!(matches!(e, ZulaError::Io(ref inner) if inner.kind() == io::ErrorKind::PermissionDenied));
}

#[test]
fn loader_errors_convert_to_lib_err() {
    let e: ZulaError = libloading::Error::DlSymUnknown.into();
    assert!(matches!(e, ZulaError::LibErr(libloading::Error::DlSymUnknown)));
}

#[test]
fn plugin_failures_convert_to_opaque() {
    let e = ZulaError::from(PluginError::new("bad day".to_string()));
    assert!(matches!(e, ZulaError::Opaque(ref inner) if inner.message == "bad day"));
}

fn fails_with_io() -> Result<(), ZulaError> {
    Err(io::Error::new(io::ErrorKind::Other, "x"))?;
    Ok(())
}

#[test]
fn question_mark_converts_io_errors() {
    assert!(matches!(fails_with_io(), Err(ZulaError::Io(_))));
}

#[test]
fn plugin_error_keeps_its_message() {
    assert_eq!(PluginError::new("kept".to_string()).message, "kept");
}

#[test]
fn errors_are_debug() {
    assert_eq!(format!("{:?}", ZulaError::CommandEmpty), "CommandEmpty");
    assert_eq!(format!("{:?}", ZulaError::InvalidCmd("a".to_string())), "InvalidCmd(\"a\")");
}

#[test]
fn spawn_failure_of_a_missing_program_names_it() {
    let e = io::Error::new(io::ErrorKind::Other, "dropped");
    let failure = ZulaError::spawn_failure("frob", true, e);
    assert!(matches!(failure, ZulaError::InvalidCmd(ref name) if name == "frob"));
}

#[test]
fn spawn_failure_otherwise_keeps_the_io_error() {
    let e = io::Error::new(io::ErrorKind::NotFound, "kept");
    let failure = ZulaError::spawn_failure("frob", false, e);
    assert!(matches!(failure, ZulaError::Io(ref e) if e.to_string() == "kept"));
}

#[test]
fn a_module_that_closed_is_success() {
    assert!(ZulaError::close_result(Ok(())).is_ok());
}

#[test]
fn a_module_that_did_not_close_is_lib_err() {
    let done = ZulaError::close_result(Err(libloading::Error::DlCloseUnknown));
    assert!(matches!(done, Err(ZulaError::LibErr(libloading::Error::DlCloseUnknown))));
    assert_eq!(
        done.unwrap_err().to_string(),
        "lib error: dlclose failed, but system did not report the error\r\n"
    );
}
