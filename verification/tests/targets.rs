use polyglot::target::{check_target, is_valid_target, resolve_target, VALID_TARGETS};

#[test]
fn upper_case_code_is_admitted() {
    assert_eq!(resolve_target("ES"), Ok("es".to_string()));
    assert_eq!(resolve_target("eN"), Ok("en".to_string()));
}

#[test]
fn every_listed_code_is_admitted_as_it_stands() {
    assert_eq!(VALID_TARGETS.len(), 13);
    for code in VALID_TARGETS {
        assert!(is_valid_target(code));
        assert_eq!(resolve_target(code), Ok(code.to_string()));
    }
}

#[test]
fn unknown_code_is_refused_with_the_list() {
    let message = "Invalid target language 'xx'. Valid: [\"es\", \"pt\", \"fr\", \"ja\", \"ru\", \"zh\", \"de\", \"ko\", \"hi\", \"id\", \"vi\", \"it\", \"en\"]";
    assert_eq!(resolve_target("XX"), Err(message.to_string()));
    assert_eq!(
        resolve_target("xx"),
        Err(format!("Invalid target language 'xx'. Valid: {VALID_TARGETS:?}"))
    );
}

#[test]
fn letters_beyond_ascii_are_lowered_too() {
    match resolve_target("ÄÖ") {
        Err(message) => assert!(message.starts_with("Invalid target language 'äö'.")),
        Ok(_) => panic!("no such language"),
    }
}

#[test]
fn checking_does_not_change_case() {
    assert!(check_target("ES".to_string()).is_err());
    assert_eq!(check_target("pt".to_string()), Ok("pt".to_string()));
    assert!(!is_valid_target(""));
}
