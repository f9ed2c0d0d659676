use keywey_core::binding::{BindingError, CompareOp};
use keywey_core::lang_elements::Case;

#[test]
fn parse_exists_in_every_casing() {
    for s in ["exists", "Exists", "EXISTS", "eXiStS"] {
        assert_eq!(Case::new(s.to_string()), Ok(Case::Exists));
        assert_eq!(Case::parse(s), Ok(Case::Exists));
    }
}

#[test]
fn parse_notdefined_in_every_casing() {
    for s in ["notdefined", "NotDefined", "NOTDEFINED", "notDEFINED"] {
        assert_eq!(Case::new(s.to_string()), Ok(Case::NotDefined));
        assert_eq!(Case::parse(s), Ok(Case::NotDefined));
    }
}

#[test]
fn from_lowercase_takes_exact_names_only() {
    assert_eq!(Case::from_lowercase("exists"), Some(Case::Exists));
    assert_eq!(Case::from_lowercase("notdefined"), Some(Case::NotDefined));
    assert_eq!(Case::from_lowercase("Exists"), None);
    assert_eq!(Case::from_lowercase("not defined"), None);
    assert_eq!(Case::from_lowercase(""), None);
}

#[test]
fn parse_rejects_other_values_with_original_input() {
    assert_eq!(
        Case::new("Foo".to_string()),
        Err(BindingError::Validation("unknown case value 'Foo'".to_string()))
    );
    assert_eq!(
        Case::parse("EXIST"),
        Err("unknown case value 'EXIST'".to_string())
    );
    assert_eq!(
        Case::new(String::new()),
        Err(BindingError::Validation("unknown case value ''".to_string()))
    );
    assert_eq!(
        Case::new(" exists".to_string()),
        Err(BindingError::Validation("unknown case value ' exists'".to_string()))
    );
}

#[test]
fn render_after_parse_is_lowercase() {
    assert_eq!(Case::new("EXISTS".to_string()).unwrap().to_string(), "exists");
    assert_eq!(Case::new("Exists".to_string()).unwrap().to_string(), "exists");
    assert_eq!(
        Case::new("NoTdEfInEd".to_string()).unwrap().to_string(),
        "notdefined"
    );
}

#[test]
fn repr_wraps_the_name() {
    assert_eq!(Case::Exists.repr(), "Case('exists')");
    assert_eq!(Case::NotDefined.repr(), "Case('notdefined')");
}

#[test]
fn equality_and_inequality() {
    assert_eq!(Case::Exists.richcmp(&Case::Exists, CompareOp::Eq), Ok(true));
    assert_eq!(Case::Exists.richcmp(&Case::NotDefined, CompareOp::Eq), Ok(false));
    assert_eq!(Case::Exists.richcmp(&Case::NotDefined, CompareOp::Ne), Ok(true));
    assert_eq!(Case::NotDefined.richcmp(&Case::NotDefined, CompareOp::Ne), Ok(false));
}

#[test]
fn ordering_comparisons_are_unsupported() {
    let msg = "operation not supported between instances of 'Case' and 'Case'".to_string();
    for op in [CompareOp::Lt, CompareOp::Le, CompareOp::Gt, CompareOp::Ge] {
        assert_eq!(
            Case::Exists.richcmp(&Case::NotDefined, op),
            Err(BindingError::UnsupportedOperation(msg.clone()))
        );
        assert_eq!(
            Case::Exists.richcmp(&Case::Exists, op),
            Err(BindingError::UnsupportedOperation(msg.clone()))
        );
    }
}
