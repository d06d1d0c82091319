use district::batcher::{collapse_lines, compose_batch, join_batch, sort_lines, truncate_batch};

fn lines(v: &[&str]) -> Vec<String> {
    v.iter().map(|s| s.to_string()).collect()
}

#[test]
fn dedup_merges_repeated_lines() {
    assert_eq!(compose_batch(&lines(&["a", "a", "b"])), "a x2\nb");
}

#[test]
fn dedup_counts_in_decimal() {
    let mut buf = Vec::new();
    for _ in 0..12 {
        buf.push("spam".to_string());
    }
    buf.push("ham".to_string());
    assert_eq!(compose_batch(&buf), "ham\nspam x12");
}

#[test]
fn collapse_keeps_first_occurrence_order() {
    let r = collapse_lines(&lines(&["b", "a", "b", "c", "a", "b"]));
    assert_eq!(r, lines(&["b x3", "a x2", "c"]));
}

#[test]
fn sort_uses_only_first_fourteen_characters() {
    // equal fourteen-character prefixes keep their order
    let r = sort_lines(lines(&["prefix-abcdefgZ tail", "prefix-abcdefgZ head", "a"]));
    assert_eq!(r, lines(&["a", "prefix-abcdefgZ tail", "prefix-abcdefgZ head"]));
}

#[test]
fn sort_orders_prefix_before_longer_text() {
    let r = sort_lines(lines(&["ab", "a", "b", "aa"]));
    assert_eq!(r, lines(&["a", "aa", "ab", "b"]));
}

#[test]
fn truncation_keeps_last_fifteen_in_buffer_order() {
    let buf: Vec<String> = (1..=25).map(|i| format!("a{:02}", i)).collect();
    let expected: Vec<String> = (11..=25).map(|i| format!("a{:02}", i)).collect();
    assert_eq!(compose_batch(&buf), expected.join("\n"));
}

#[test]
fn truncation_applies_after_sorting() {
    let buf: Vec<String> = (1..=25).map(|i| format!("a{}", i)).collect();
    let mut sorted = buf.clone();
    sorted.sort();
    let kept = sorted[10..].to_vec();
    assert_eq!(compose_batch(&buf), kept.join("\n"));
}

#[test]
fn twenty_lines_are_not_cut() {
    let buf: Vec<String> = (1..=20).map(|i| format!("line {:02}", i)).collect();
    assert_eq!(truncate_batch(buf.clone()), buf);
    let buf21: Vec<String> = (1..=21).map(|i| format!("line {:02}", i)).collect();
    assert_eq!(truncate_batch(buf21.clone()), buf21[6..].to_vec());
}

#[test]
fn empty_buffer_makes_empty_text() {
    assert_eq!(compose_batch(&Vec::new()), "");
    assert_eq!(join_batch(&Vec::new()), "");
}

#[test]
fn join_puts_newline_between_lines() {
    assert_eq!(join_batch(&lines(&["x"])), "x");
    assert_eq!(join_batch(&lines(&["x", "", "y"])), "x\n\ny");
}
