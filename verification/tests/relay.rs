//! End-to-end checks of the command handlers on concrete inputs.

use typst_relay::compiler::{
    compile_typst_args, compile_typst_display, compile_typst_outcome, query_typst_args,
    query_typst_outcome, ProcessOutcome,
};
use typst_relay::config::{
    config_file_path, read_config_from, write_config_outcome, write_config_plan,
};
use typst_relay::files::{read_file_outcome, write_file_outcome};
use typst_relay::paths::get_parent_dir;
use typst_relay::RelayError;

const SEP: char = std::path::MAIN_SEPARATOR;

#[test]
fn parent_dir_of_nested_path() {
    let r = get_parent_dir("/a/b/c.txt").unwrap();
    assert_eq!(r, format!("/a/b{}", SEP));
}

#[test]
fn parent_dir_of_relative_path() {
    let r = get_parent_dir("a/b.txt").unwrap();
    assert_eq!(r, format!("a{}", SEP));
}

#[test]
fn parent_dir_already_ends_in_separator() {
    let r = get_parent_dir("/a/b/").unwrap();
    assert_eq!(r, format!("/a{}", SEP));
}

#[test]
fn parent_dir_of_bare_file_name_fails() {
    assert_eq!(get_parent_dir("file.txt"), Err(RelayError::PathError));
}

#[test]
fn parent_dir_of_root_fails() {
    assert_eq!(get_parent_dir("/"), Err(RelayError::PathError));
}

#[test]
fn parent_dir_of_empty_path_fails() {
    assert_eq!(get_parent_dir(""), Err(RelayError::PathError));
}

#[test]
fn parent_dir_result_is_prefix_of_input() {
    let p = "/some/dir/file.typ";
    let r = get_parent_dir(p).unwrap();
    assert!(p.starts_with("/some/dir"));
    assert!(r.starts_with("/some/dir"));
    assert!(r.ends_with(SEP));
}

#[test]
fn path_error_message_text() {
    assert_eq!(RelayError::PathError.message(), "Failed to get parent directory");
}

#[test]
fn io_error_message_is_carried_text() {
    let e = RelayError::IOError("No such file or directory (os error 2)".to_string());
    assert_eq!(e.message(), "No such file or directory (os error 2)");
}

#[test]
fn config_path_inserts_separator() {
    assert_eq!(config_file_path("cfg"), format!("cfg{}config.json", SEP));
}

#[test]
fn config_path_keeps_existing_separator() {
    assert_eq!(config_file_path("cfg/"), "cfg/config.json");
}

#[test]
fn config_path_under_empty_dir() {
    assert_eq!(config_file_path(""), "config.json");
}

#[test]
fn config_round_trip_returns_equal_value() {
    let v: serde_json::Value =
        serde_json::from_str("{\"a\":[1,2,{\"b\":null}],\"c\":\"x\",\"d\":true}").unwrap();
    let plan = write_config_plan("cfg", &v);
    assert_eq!(plan.path, format!("cfg{}config.json", SEP));
    let read_back = read_config_from(Ok(plan.text)).unwrap();
    assert_eq!(read_back, v);
}

#[test]
fn config_write_is_idempotent() {
    let v: serde_json::Value = serde_json::from_str("{\"theme\":\"dark\",\"size\":12}").unwrap();
    let first = write_config_plan("cfg", &v);
    let second = write_config_plan("cfg", &v);
    assert_eq!(first.path, second.path);
    assert_eq!(first.text, second.text);
    let r1 = read_config_from(Ok(first.text)).unwrap();
    let r2 = read_config_from(Ok(second.text)).unwrap();
    assert_eq!(r1, r2);
    assert_eq!(r1, v);
}

#[test]
fn config_round_trip_preserves_float_precision() {
    let v: serde_json::Value =
        serde_json::from_str("{\"x\":1.2345678901234567,\"y\":2.2250738585072014e-308,\"z\":1e23}")
            .unwrap();
    let plan = write_config_plan("cfg", &v);
    let read_back = read_config_from(Ok(plan.text)).unwrap();
    assert_eq!(read_back, v);
}

#[test]
fn config_read_missing_file_is_io_error() {
    let msg = "No such file or directory (os error 2)".to_string();
    let r = read_config_from(Err(msg.clone()));
    assert_eq!(r, Err(RelayError::IOError(msg)));
}

#[test]
fn config_read_invalid_json_is_parse_error() {
    let expected = serde_json::from_str::<serde_json::Value>("not json").unwrap_err().to_string();
    match read_config_from(Ok("not json".to_string())) {
        Err(RelayError::ParseError(m)) => assert_eq!(m, expected),
        other => panic!("expected ParseError, got {:?}", other),
    }
}

#[test]
fn config_write_outcome_success_passes_through() {
    assert_eq!(write_config_outcome(Ok(())), Ok(()));
}

#[test]
fn config_write_outcome_failure_is_io_error() {
    let r = write_config_outcome(Err("Permission denied (os error 13)".to_string()));
    assert_eq!(r, Err(RelayError::IOError("Permission denied (os error 13)".to_string())));
}

#[test]
fn read_file_passes_content_through() {
    let r = read_file_outcome(Ok("line one\nline two\n".to_string()));
    assert_eq!(r, Ok("line one\nline two\n".to_string()));
}

#[test]
fn read_file_failure_is_io_error() {
    let r = read_file_outcome(Err("Permission denied (os error 13)".to_string()));
    assert_eq!(r, Err(RelayError::IOError("Permission denied (os error 13)".to_string())));
}

#[test]
fn write_file_success_returns_fixed_confirmation() {
    assert_eq!(write_file_outcome(Ok(())), Ok("File written successfully".to_string()));
}

#[test]
fn write_file_failure_is_io_error() {
    let r = write_file_outcome(Err("Read-only file system (os error 30)".to_string()));
    assert_eq!(r, Err(RelayError::IOError("Read-only file system (os error 30)".to_string())));
}

#[test]
fn query_args_are_the_fixed_invocation() {
    let args = query_typst_args("doc.typ");
    assert_eq!(args, vec!["query", "doc.typ", "<problems-state>", "--one", "--field", "value"]);
}

#[test]
fn compile_args_interleave_input_pairs() {
    let extra = vec!["a=1".to_string(), "b=2".to_string()];
    let args = compile_typst_args("in.typ", "out.pdf", &extra);
    assert_eq!(
        args,
        vec!["compile", "in.typ", "out.pdf", "--input", "a=1", "--input", "b=2"]
    );
}

#[test]
fn compile_args_without_extras() {
    let args = compile_typst_args("in.typ", "out.pdf", &Vec::new());
    assert_eq!(args, vec!["compile", "in.typ", "out.pdf"]);
}

#[test]
fn compile_display_matches_literal_reconstruction() {
    let extra = vec!["a=1".to_string(), "b=2".to_string()];
    let disp = compile_typst_display("in.typ", "out.pdf", &extra);
    assert_eq!(disp, "typst compile \"in.typ\" \"out.pdf\" --input a=1 --input b=2");
}

#[test]
fn compile_display_without_extras() {
    let disp = compile_typst_display("in.typ", "out.pdf", &Vec::new());
    assert_eq!(disp, "typst compile \"in.typ\" \"out.pdf\"");
}

#[test]
fn query_failure_embeds_stderr_after_prefix() {
    let outcome = ProcessOutcome {
        success: false,
        stdout: Vec::new(),
        stderr: b"error: file not found".to_vec(),
    };
    match query_typst_outcome(outcome, "out/") {
        Err(RelayError::SubprocessError(m)) => {
            assert_eq!(m, "Typst query failed: error: file not found");
            assert!(m.starts_with("Typst query failed: "));
            assert!(m.contains("error: file not found"));
        }
        other => panic!("expected SubprocessError, got {:?}", other),
    }
}

#[test]
fn query_failure_decodes_stderr_lossily() {
    let outcome = ProcessOutcome {
        success: false,
        stdout: Vec::new(),
        stderr: vec![0xff, b'x'],
    };
    match query_typst_outcome(outcome, "out/") {
        Err(RelayError::SubprocessError(m)) => {
            assert_eq!(m, "Typst query failed: \u{fffd}x");
        }
        other => panic!("expected SubprocessError, got {:?}", other),
    }
}

#[test]
fn query_success_returns_stdout_and_problems_path() {
    let outcome = ProcessOutcome {
        success: true,
        stdout: b"{\"problems\":[]}".to_vec(),
        stderr: Vec::new(),
    };
    let q = query_typst_outcome(outcome, "out/").unwrap();
    assert_eq!(q.stdout, "{\"problems\":[]}");
    assert_eq!(q.problems_path, "out/problems.json");
}

#[test]
fn query_output_dir_is_concatenated_literally() {
    let outcome = ProcessOutcome { success: true, stdout: b"[]".to_vec(), stderr: Vec::new() };
    let q = query_typst_outcome(outcome, "out").unwrap();
    assert_eq!(q.problems_path, "outproblems.json");
}

#[test]
fn query_invalid_utf8_stdout_is_encoding_error() {
    let expected = String::from_utf8(vec![0xff]).unwrap_err().to_string();
    let outcome = ProcessOutcome { success: true, stdout: vec![0xff], stderr: Vec::new() };
    match query_typst_outcome(outcome, "out/") {
        Err(RelayError::EncodingError(m)) => assert_eq!(m, expected),
        other => panic!("expected EncodingError, got {:?}", other),
    }
}

#[test]
fn compile_failure_embeds_stderr_after_prefix() {
    let outcome = ProcessOutcome {
        success: false,
        stdout: Vec::new(),
        stderr: b"layout did not converge".to_vec(),
    };
    match compile_typst_outcome(outcome) {
        Err(RelayError::SubprocessError(m)) => {
            assert_eq!(m, "Typst compile failed: layout did not converge");
        }
        other => panic!("expected SubprocessError, got {:?}", other),
    }
}

#[test]
fn compile_success_returns_stdout() {
    let outcome = ProcessOutcome {
        success: true,
        stdout: b"compiled in 12ms\n".to_vec(),
        stderr: Vec::new(),
    };
    assert_eq!(compile_typst_outcome(outcome), Ok("compiled in 12ms\n".to_string()));
}

#[test]
fn compile_invalid_utf8_stdout_is_encoding_error() {
    let expected = String::from_utf8(vec![0xc0, 0x20]).unwrap_err().to_string();
    let outcome = ProcessOutcome { success: true, stdout: vec![0xc0, 0x20], stderr: Vec::new() };
    match compile_typst_outcome(outcome) {
        Err(RelayError::EncodingError(m)) => assert_eq!(m, expected),
        other => panic!("expected EncodingError, got {:?}", other),
    }
}
