use painter::wrap::wrap_layout;

fn chars(s: &str) -> Vec<char> {
    s.chars().collect()
}

#[test]
fn words_fill_a_line_greedily() {
    let pos = wrap_layout(&chars("ab cd"), 10);
    assert_eq!(pos.len(), 5);
    assert_eq!(pos[0], Some((0, 0)));
    assert_eq!(pos[1], Some((0, 1)));
    assert_eq!(pos[2], Some((0, 2)));
    assert_eq!(pos[3], Some((0, 3)));
    assert_eq!(pos[4], Some((0, 4)));
}

#[test]
fn word_that_does_not_fit_moves_whole() {
    let pos = wrap_layout(&chars("ab cd ef"), 6);
    assert_eq!(pos[3], Some((0, 3)));
    assert_eq!(pos[5], Some((0, 5)));
    // "ef" starts at column 6 which is past the margin: whole word wraps
    assert_eq!(pos[6], Some((1, 0)));
    assert_eq!(pos[7], Some((1, 1)));
}

#[test]
fn word_wider_than_the_line_breaks_at_margin() {
    let pos = wrap_layout(&chars("abcd"), 3);
    assert_eq!(pos[0], Some((0, 0)));
    assert_eq!(pos[1], Some((0, 1)));
    assert_eq!(pos[2], Some((0, 2)));
    assert_eq!(pos[3], Some((1, 0)));
}

#[test]
fn newline_starts_a_new_line_and_is_not_drawn() {
    let pos = wrap_layout(&chars("a\nb"), 5);
    assert_eq!(pos[0], Some((0, 0)));
    assert_eq!(pos[1], None);
    assert_eq!(pos[2], Some((1, 0)));
}

#[test]
fn blank_at_the_margin_is_dropped() {
    let pos = wrap_layout(&chars("ab "), 2);
    assert_eq!(pos[0], Some((0, 0)));
    assert_eq!(pos[1], Some((0, 1)));
    assert_eq!(pos[2], None);
}

#[test]
fn no_two_characters_share_a_cell() {
    let pos = wrap_layout(&chars("the quick brown fox jumps over the lazy dog"), 7);
    let mut seen: Vec<(i64, i64)> = Vec::new();
    for p in pos.iter().flatten() {
        assert!(!seen.contains(p), "cell {:?} used twice", p);
        seen.push(*p);
    }
}
