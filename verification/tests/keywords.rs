use scraper_bot::scraper::boe::keyword_matches;

#[test]
fn test_keyword_matches_exact() {
    let text = "resolucion de ingenieros industriales del estado";
    assert!(keyword_matches(text, "ingenieros industriales"));
    assert!(keyword_matches(text, "resolucion"));
}

#[test]
fn test_keyword_matches_word_level() {
    let text = "cuerpo de ingenieros industriales del estado";
    assert!(keyword_matches(text, "ingeniero industrial"));
}

#[test]
fn test_keyword_matches_partial_fail() {
    let text = "cuerpo de ingenieros del estado";
    assert!(!keyword_matches(text, "ingeniero industrial"));
}

#[test]
fn test_keyword_matches_with_stem() {
    let text = "cuerpo de ingenieros industriales del estado";
    assert!(keyword_matches(text, "ingenier"));
    assert!(keyword_matches(text, "industrial"));
}
