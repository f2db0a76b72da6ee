use whispering::transcript::{
    apply_replacements, assemble, join_segments, notice_for, summary_of, Notice,
};

fn strings(words: &[&str]) -> Vec<String> {
    words.iter().map(|w| w.to_string()).collect()
}

fn pairs(pairs: &[(&str, &str)]) -> Vec<(String, String)> {
    pairs
        .iter()
        .map(|(from, to)| (from.to_string(), to.to_string()))
        .collect()
}

#[test]
fn segments_are_joined_each_followed_by_a_space() {
    assert_eq!(join_segments(&[]), "");
    assert_eq!(join_segments(&strings(&["one"])), "one ");
    assert_eq!(
        join_segments(&strings(&[" Hello", "", "world. "])),
        " Hello  world.  "
    );
}

#[test]
fn replacements_are_made_in_order_each_on_the_result_of_the_last() {
    assert_eq!(
        apply_replacements("a b c".to_string(), &pairs(&[("a", "b"), ("b", "c")])),
        "c c c"
    );
    assert_eq!(
        apply_replacements("a b c".to_string(), &pairs(&[("b", "c"), ("a", "b")])),
        "b c c"
    );
    assert_eq!(apply_replacements("a b c".to_string(), &[]), "a b c");
    assert_eq!(
        apply_replacements("incorrect wrong".to_string(), &pairs(&[("incorrect", "correct"), ("wrong", "right")])),
        "correct right"
    );
}

#[test]
fn a_transcript_is_joined_trimmed_and_replaced() {
    assert_eq!(
        assemble(
            &strings(&[" Hello", "wrold,", "this is a test. "]),
            &pairs(&[("wrold", "world"), ("test", "transcript")])
        ),
        "Hello world, this is a transcript."
    );
    assert_eq!(assemble(&[], &pairs(&[("a", "b")])), "");
    assert_eq!(assemble(&strings(&["  ", "\t\n"]), &[]), "");
}

#[test]
fn a_short_transcript_is_its_own_summary() {
    assert_eq!(summary_of("x"), "x");
    assert_eq!(summary_of("exactly twenty bytes"), "exactly twenty bytes");
    assert_eq!("exactly twenty bytes".len(), 20);
}

#[test]
fn a_long_transcript_is_cut_after_twenty_bytes() {
    assert_eq!(
        summary_of("this transcript is longer than that"),
        "this transcript is l.."
    );
    assert_eq!(summary_of("exactly twenty bytes!"), "exactly twenty bytes..");
    let accented = "ééééééééééé";
    assert_eq!(accented.len(), 22);
    assert!(accented.is_char_boundary(20));
    assert_eq!(summary_of(accented), "éééééééééé..");
}

#[test]
fn an_empty_transcript_means_no_voice() {
    assert_eq!(
        notice_for(""),
        Notice {
            summary: "No voice detected".to_string(),
            paste: false
        }
    );
    assert_eq!(
        notice_for("Hello there, how are you today?"),
        Notice {
            summary: "Hello there, how are..".to_string(),
            paste: true
        }
    );
    assert_eq!(
        notice_for("Hi"),
        Notice {
            summary: "Hi".to_string(),
            paste: true
        }
    );
}
