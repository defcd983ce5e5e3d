use proxy::name::{InvalidName, Name};

#[test]
fn accepts_lowercase_names_with_inner_dashes() {
    let name = Name::new("prometheus-dev".to_string()).unwrap();
    assert_eq!(name.as_str(), "prometheus-dev");
}

#[test]
fn rejects_names_that_break_the_pattern() {
    assert_eq!(Name::new(String::new()), Err(InvalidName::Empty));
    assert_eq!(Name::new("Prometheus".to_string()), Err(InvalidName::InvalidCharacters));
    assert_eq!(Name::new("-dev".to_string()), Err(InvalidName::DashAtEdge));
    assert_eq!(Name::new("dev-".to_string()), Err(InvalidName::DashAtEdge));
}
