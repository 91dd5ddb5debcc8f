use scraper_bot::filters::FilterConfig;

#[test]
fn test_parse_simple() {
    let f = FilterConfig::parse("Baleares, Mallorca");
    assert_eq!(f.required, vec!["baleares", "mallorca"]);
    assert!(f.exclude.is_empty());
}

#[test]
fn test_parse_with_excludes() {
    let f = FilterConfig::parse("+Baleares, +Mallorca, -Cáceres, -expirado");
    assert_eq!(f.required, vec!["baleares", "mallorca"]);
    assert_eq!(f.exclude, vec!["cáceres", "expirado"]);
}

#[test]
fn test_parse_only_excludes() {
    let f = FilterConfig::parse("-Cáceres, -Badajoz");
    assert!(f.required.is_empty());
    assert_eq!(f.exclude, vec!["cáceres", "badajoz"]);
}

#[test]
fn test_matches_include() {
    let f = FilterConfig::parse("Baleares, coordinación");
    assert!(f.matches("Coordinación de seguridad en Baleares"));
    assert!(!f.matches("Coordinación de seguridad en Madrid"));
}

#[test]
fn test_matches_exclude() {
    let f = FilterConfig::parse("coordinación, -Cáceres");
    assert!(f.matches("Coordinación de seguridad en Madrid"));
    assert!(!f.matches("Coordinación de seguridad en Cáceres"));
}

#[test]
fn test_matches_combined() {
    let f = FilterConfig::parse("+Baleares, +coordinación, -expirado");
    assert!(f.matches("Coordinación de seguridad en Islas Baleares"));
    assert!(!f.matches("Coordinación de seguridad expirada en Baleares"));
    assert!(!f.matches("Coordinación de seguridad en Madrid"));
}
