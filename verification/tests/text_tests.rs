//! Tests of whitespace trimming and code-fence stripping.

use autodev::text::{strip_code_fences, trim_text};

#[test]
fn test_trim_removes_surrounding_whitespace() {
    assert_eq!(trim_text("  \t hello world \n\r "), "hello world");
    assert_eq!(trim_text("no-edges"), "no-edges");
    assert_eq!(trim_text("   \n\t "), "");
    assert_eq!(trim_text(""), "");
}

#[test]
fn test_strip_rust_fence_yields_inner_text() {
    let wrapped = "```rust\nfn main() { println!(\"hi\"); }\n```";
    assert_eq!(strip_code_fences(wrapped), "\nfn main() { println!(\"hi\"); }\n");
}

#[test]
fn test_strip_plain_fence_yields_inner_text() {
    let wrapped = "```\nlet x = 1;\n```";
    assert_eq!(strip_code_fences(wrapped), "\nlet x = 1;\n");
}

#[test]
fn test_strip_is_idempotent() {
    let samples = [
        "```rust\nfn main() {}\n```",
        "```\ncode\n```",
        "plain text with ``` in the middle",
        "``````rust```",
        "```",
        "",
    ];
    for s in samples {
        let once = strip_code_fences(s);
        let twice = strip_code_fences(&once);
        assert_eq!(twice, once);
    }
}

#[test]
fn test_strip_leaves_unfenced_text_alone() {
    assert_eq!(strip_code_fences("fn main() {}"), "fn main() {}");
    assert_eq!(strip_code_fences(""), "");
}

#[test]
fn test_strip_removes_repeated_markers() {
    // leading ```rust markers go first, then leading ``` markers, then
    // trailing ``` markers, each repeatedly
    assert_eq!(strip_code_fences("```rust```rustcode```"), "code");
    assert_eq!(strip_code_fences("``````rust```"), "rust");
    assert_eq!(strip_code_fences("x``````"), "x");
}
