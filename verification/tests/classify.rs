use rcloc::classifier::{classify_line, ClassifierState, LineClass};
use rcloc::profile::LanguageProfile;

fn c_like() -> LanguageProfile {
    LanguageProfile {
        name: "C-like".to_string(),
        extensions: vec![b"c".to_vec()],
        line_comments: vec![b"//".to_vec()],
        block_starts: vec![b"/*".to_vec()],
        block_ends: vec![b"*/".to_vec()],
    }
}

fn classify_one(profile: &LanguageProfile, line: &str) -> LineClass {
    let mut state = ClassifierState::new();
    classify_line(profile, &line.as_bytes().to_vec(), &mut state)
}

#[test]
fn blank_line_classifies_blank() {
    let p = c_like();
    assert_eq!(classify_one(&p, ""), LineClass::Blank);
    assert_eq!(classify_one(&p, "   \t  "), LineClass::Blank);
}

#[test]
fn unicode_whitespace_is_blank() {
    let p = c_like();
    let mut state = ClassifierState::new();
    let c = classify_line(&p, &"\u{a0}".as_bytes().to_vec(), &mut state);
    assert_eq!(c, LineClass::Blank);
    assert!(!state.in_block);
    assert_eq!(classify_one(&p, " \u{a0}\u{2003}\u{3000}\t"), LineClass::Blank);
    assert_eq!(classify_one(&p, "\u{1680}\u{2028}\u{202f}\u{205f}\u{85}"), LineClass::Blank);
}

#[test]
fn unicode_whitespace_before_comment_is_not_code() {
    let p = c_like();
    assert_eq!(classify_one(&p, "\u{a0}// note"), LineClass::Comment);
    assert_eq!(classify_one(&p, "\u{3000}/* a */"), LineClass::Comment);
}

#[test]
fn non_whitespace_multibyte_text_is_code() {
    let p = c_like();
    assert_eq!(classify_one(&p, "\u{e9}"), LineClass::Code);
    assert_eq!(classify_one(&p, "\u{4e16}\u{754c}"), LineClass::Code);
}

#[test]
fn trailing_line_comment_is_code() {
    let p = c_like();
    assert_eq!(classify_one(&p, "int x = 5; // note"), LineClass::Code);
}

#[test]
fn pure_line_comment_is_comment() {
    let p = c_like();
    assert_eq!(classify_one(&p, "// just a note"), LineClass::Comment);
    assert_eq!(classify_one(&p, "   // indented note"), LineClass::Comment);
}

#[test]
fn multi_line_block_comment() {
    let p = c_like();
    let mut state = ClassifierState::new();
    let lines = ["/* start", "still comment", "end */ int y;"];
    let classes: Vec<LineClass> = lines
        .iter()
        .map(|l| classify_line(&p, &l.as_bytes().to_vec(), &mut state))
        .collect();
    assert_eq!(
        classes,
        vec![LineClass::Comment, LineClass::Comment, LineClass::Code]
    );
    assert!(!state.in_block);
}

#[test]
fn block_close_with_nothing_after_is_comment() {
    let p = c_like();
    let mut state = ClassifierState::new();
    classify_line(&p, &b"/* open".to_vec(), &mut state);
    let c = classify_line(&p, &b"end */".to_vec(), &mut state);
    assert_eq!(c, LineClass::Comment);
    assert!(!state.in_block);
    let c2 = classify_line(&p, &b"/* whole line */   ".to_vec(), &mut state);
    assert_eq!(c2, LineClass::Comment);
    assert!(!state.in_block);
}

#[test]
fn code_before_block_start_is_code() {
    let p = c_like();
    let mut state = ClassifierState::new();
    let c = classify_line(&p, &b"int z; /* tail".to_vec(), &mut state);
    assert_eq!(c, LineClass::Code);
    assert!(state.in_block);
    assert_eq!(state.end_token, b"*/".to_vec());
}

#[test]
fn unterminated_block_runs_to_end_of_file() {
    let p = c_like();
    let mut state = ClassifierState::new();
    assert_eq!(
        classify_line(&p, &b"/* never closed".to_vec(), &mut state),
        LineClass::Comment
    );
    assert_eq!(
        classify_line(&p, &b"still inside".to_vec(), &mut state),
        LineClass::Comment
    );
    assert!(state.in_block);
}

#[test]
fn blank_line_inside_block_comment_is_comment() {
    let p = c_like();
    let mut state = ClassifierState::new();
    classify_line(&p, &b"/* open".to_vec(), &mut state);
    assert_eq!(
        classify_line(&p, &b"   ".to_vec(), &mut state),
        LineClass::Comment
    );
}

#[test]
fn close_and_reopen_on_one_line() {
    let p = c_like();
    let mut state = ClassifierState::new();
    classify_line(&p, &b"/* a".to_vec(), &mut state);
    let c = classify_line(&p, &b"b */ code /* c".to_vec(), &mut state);
    assert_eq!(c, LineClass::Code);
    assert!(state.in_block);
}

#[test]
fn tie_break_prefers_block_comment() {
    // With "/" as a line-comment token, "/*" opens a block at the same
    // offset where a line comment could start; the block must win the tie.
    let p = LanguageProfile {
        name: "Tie".to_string(),
        extensions: vec![b"t".to_vec()],
        line_comments: vec![b"/".to_vec()],
        block_starts: vec![b"/*".to_vec()],
        block_ends: vec![b"*/".to_vec()],
    };
    let mut state = ClassifierState::new();
    let c = classify_line(&p, &b"/* note".to_vec(), &mut state);
    assert_eq!(c, LineClass::Comment);
    assert!(state.in_block, "block-comment start must win the tie");
    assert_eq!(state.end_token, b"*/".to_vec());
}

#[test]
fn second_block_pair_carries_its_own_end_token() {
    let p = LanguageProfile {
        name: "Scripting".to_string(),
        extensions: vec![b"s".to_vec()],
        line_comments: vec![b"#".to_vec()],
        block_starts: vec![b"\"\"\"".to_vec(), b"'''".to_vec()],
        block_ends: vec![b"\"\"\"".to_vec(), b"'''".to_vec()],
    };
    let mut state = ClassifierState::new();
    let c = classify_line(&p, &b"'''".to_vec(), &mut state);
    assert_eq!(c, LineClass::Comment);
    assert!(state.in_block);
    assert_eq!(state.end_token, b"'''".to_vec());
    // A double-quote end token must not close a single-quote block.
    assert_eq!(
        classify_line(&p, &b"\"\"\" x".to_vec(), &mut state),
        LineClass::Comment
    );
    assert!(state.in_block);
    assert_eq!(
        classify_line(&p, &b"done ''' y".to_vec(), &mut state),
        LineClass::Code
    );
    assert!(!state.in_block);
}

#[test]
fn plain_text_without_tokens_is_code() {
    let p = LanguageProfile {
        name: "Plain".to_string(),
        extensions: vec![b"txt".to_vec()],
        line_comments: vec![],
        block_starts: vec![],
        block_ends: vec![],
    };
    assert_eq!(classify_one(&p, "anything at all"), LineClass::Code);
    assert_eq!(classify_one(&p, " "), LineClass::Blank);
}
