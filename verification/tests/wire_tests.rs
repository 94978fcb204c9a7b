use beam_driver::paths::script_path;
use beam_driver::wire::{encode_request, join_tokens, request_line};

const US: char = '\u{1f}';

#[test]
fn encode_request_exact() {
    let modules = vec!["alpha.erl".to_string(), "beta.erl".to_string()];
    let line = encode_request("/build/out", "/build/lib", "artefacts", &modules);
    let expected = format!(
        "--lib{US}/build/lib{US}--out{US}/build/out/ebin{US}/build/out/artefacts/alpha.erl{US}/build/out/artefacts/beta.erl"
    );
    assert_eq!(line, expected);
}

#[test]
fn encode_request_no_modules() {
    let modules: Vec<String> = Vec::new();
    let line = encode_request("/o", "/l", "a", &modules);
    let expected = format!("--lib{US}/l{US}--out{US}/o/ebin");
    assert_eq!(line, expected);
}

#[test]
fn encode_then_split_recovers_tokens() {
    // Paths may contain spaces and other printable delimiters; only the
    // unit separator is reserved, so splitting on it recovers the list.
    let modules = vec!["alpha mod.erl".to_string(), "beta.erl".to_string()];
    let line = encode_request("/out dir", "/lib dir", "built artefacts", &modules);
    let tokens: Vec<&str> = line.split(US).collect();
    assert_eq!(
        tokens,
        vec![
            "--lib",
            "/lib dir",
            "--out",
            "/out dir/ebin",
            "/out dir/built artefacts/alpha mod.erl",
            "/out dir/built artefacts/beta.erl",
        ]
    );
}

#[test]
fn encoding_order_is_deterministic() {
    let modules = vec!["b.erl".to_string(), "a.erl".to_string()];
    let first = encode_request("/o", "/l", "a", &modules);
    let second = encode_request("/o", "/l", "a", &modules);
    assert_eq!(first, second);
    // The given module order is kept, not re-sorted.
    let tokens: Vec<&str> = first.split(US).collect();
    assert_eq!(tokens[4], "/o/a/b.erl");
    assert_eq!(tokens[5], "/o/a/a.erl");
}

#[test]
fn request_line_is_encoding_plus_newline() {
    let modules = vec!["m.erl".to_string()];
    let encoded = encode_request("/o", "/l", "a", &modules);
    let line = request_line("/o", "/l", "a", &modules);
    assert_eq!(line, format!("{encoded}\n"));
}

#[test]
fn join_tokens_single_and_many() {
    assert_eq!(join_tokens(&vec!["one".to_string()]), "one");
    assert_eq!(
        join_tokens(&vec!["one".to_string(), "two".to_string()]),
        format!("one{US}two")
    );
    let empty: Vec<String> = Vec::new();
    assert_eq!(join_tokens(&empty), "");
}

#[test]
fn script_path_is_fixed_under_artefact_dir() {
    let path = script_path("/build/out", "artefacts");
    assert_eq!(path, "/build/out/artefacts/gleam@@compile.erl");
}
