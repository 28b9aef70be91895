use dicta_core::chunking::split_into_tts_chunks;

#[test]
fn empty_text_yields_no_chunks() {
    assert!(split_into_tts_chunks("").is_empty());
    assert!(split_into_tts_chunks("   \n\t ").is_empty());
}

#[test]
fn text_without_punctuation_travels_whole() {
    assert_eq!(split_into_tts_chunks("Hello world"), vec!["Hello world"]);
}

#[test]
fn surrounding_whitespace_is_trimmed() {
    assert_eq!(split_into_tts_chunks("  Hello world \n"), vec!["Hello world"]);
}

#[test]
fn short_sentences_group_into_one_chunk() {
    assert_eq!(
        split_into_tts_chunks("One. Two! Three?"),
        vec!["One. Two! Three?"]
    );
}

#[test]
fn long_sentences_split_into_chunks() {
    let a = format!("{}.", "a".repeat(299));
    let b = format!("{}.", "b".repeat(299));
    let text = format!("{} {}", a, b);
    // 300 + 1 + 300 bytes exceed the 400-byte budget: two chunks.
    assert_eq!(split_into_tts_chunks(&text), vec![a, b]);
}

#[test]
fn sentences_fill_up_to_the_budget() {
    let s = format!("{}.", "x".repeat(195));
    let text = format!("{} {} {}", s, s, s);
    // 196 + 1 + 196 = 393 fits; adding the third (393 + 1 + 196) does not.
    let chunks = split_into_tts_chunks(&text);
    assert_eq!(chunks.len(), 2);
    assert_eq!(chunks[0], format!("{} {}", s, s));
    assert_eq!(chunks[1], s);
}

#[test]
fn decimal_point_is_not_a_boundary() {
    assert_eq!(
        split_into_tts_chunks("Pi is 3.14 about. More text"),
        vec!["Pi is 3.14 about. More text"]
    );
}

#[test]
fn newline_after_punctuation_is_a_boundary() {
    assert_eq!(
        split_into_tts_chunks("First!\nSecond."),
        vec!["First! Second."]
    );
}
