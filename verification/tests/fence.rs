use notebook_gen::fence::{opens_python_fence, retag_fences};

const PYTHON: &str = "```python";
const GENERIC: &str = "```code";

#[test]
fn retags_a_single_fence() {
    assert_eq!(retag_fences("```python"), "```code");
}

#[test]
fn retags_the_fence_of_a_document() {
    assert_eq!(
        retag_fences("# Title\n```python\nprint(1)\n```"),
        "# Title\n```code\nprint(1)\n```"
    );
}

#[test]
fn retags_every_fence() {
    let text = "```python\na\n```\ntext\n```python\nb\n```\n```python```python";
    assert_eq!(
        retag_fences(text),
        "```code\na\n```\ntext\n```code\nb\n```\n```code```code"
    );
}

#[test]
fn keeps_text_without_fences() {
    assert_eq!(retag_fences(""), "");
    assert_eq!(retag_fences("plain words"), "plain words");
    assert_eq!(retag_fences("```"), "```");
    assert_eq!(retag_fences("```pytho"), "```pytho");
    assert_eq!(retag_fences("``python"), "``python");
    assert_eq!(retag_fences("```Python"), "```Python");
    assert_eq!(retag_fences("```rust\nfn main() {}\n```"), "```rust\nfn main() {}\n```");
}

#[test]
fn keeps_generic_fences() {
    assert_eq!(retag_fences("```code"), "```code");
    assert_eq!(
        retag_fences("```code\nx\n```\n```python\ny\n```"),
        "```code\nx\n```\n```code\ny\n```"
    );
}

#[test]
fn keeps_what_surrounds_a_fence() {
    assert_eq!(retag_fences("````python"), "````code");
    assert_eq!(retag_fences("``````python"), "``````code");
    assert_eq!(retag_fences("```python3"), "```code3");
    assert_eq!(retag_fences("x```pythonpython"), "x```codepython");
}

#[test]
fn keeps_characters_beyond_ascii() {
    assert_eq!(
        retag_fences("été ✓\n```python\nprint('日本語')\n```\n🙂"),
        "été ✓\n```code\nprint('日本語')\n```\n🙂"
    );
}

#[test]
fn retagging_twice_is_retagging_once() {
    let texts = [
        "",
        "```python",
        "a```python```code```python",
        "````python`````python",
        "```pyth```python on",
        "# Title\n```python\nprint(1)\n```",
    ];
    for text in texts {
        let once = retag_fences(text);
        assert_eq!(retag_fences(&once), once);
        assert!(!once.contains(PYTHON));
    }
}

#[test]
fn agrees_with_plain_replacement() {
    let pieces = ["`", "``", "```", "python", "```python", "```code", "p", "\n", "é", "```pytho"];
    let mut state: u64 = 0x2545_f491_4f6c_dd1d;
    for _ in 0..500 {
        let mut text = String::new();
        state ^= state << 13;
        state ^= state >> 7;
        state ^= state << 17;
        let count = state % 9;
        for _ in 0..count {
            state ^= state << 13;
            state ^= state >> 7;
            state ^= state << 17;
            text.push_str(pieces[(state % pieces.len() as u64) as usize]);
        }
        assert_eq!(retag_fences(&text), text.replace(PYTHON, GENERIC), "on {text:?}");
    }
}

#[test]
fn every_opener_is_found_again_two_characters_earlier_per_fence() {
    let text = "ab```python c ```code d ```python";
    let out = retag_fences(text);
    assert_eq!(out, "ab```code c ```code d ```code");
    assert_eq!(&out[2..9], GENERIC);
    assert_eq!(&out[12..19], GENERIC);
    assert_eq!(&out[22..29], GENERIC);
    assert_eq!(out.chars().count(), text.chars().count() - 2 * 2);
}

#[test]
fn finds_python_fences_by_index() {
    let chars: Vec<char> = "x```python```pytho".chars().collect();
    assert!(opens_python_fence(&chars, 1));
    assert!(!opens_python_fence(&chars, 0));
    assert!(!opens_python_fence(&chars, 2));
    assert!(!opens_python_fence(&chars, 10));
    assert!(!opens_python_fence(&chars, 17));
    assert!(!opens_python_fence(&chars, 18));
    assert!(!opens_python_fence(&chars, usize::MAX));
    assert!(!opens_python_fence(&Vec::new(), 0));
}
