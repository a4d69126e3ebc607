//! Names of dropped types.
use borzoi_assembly::model::SkippedProjectionItem;

fn ns(name: &str) -> Vec<String> {
    SkippedProjectionItem {
        name: name.to_string(),
        reason: String::new(),
    }
    .enclosing_namespace()
}

#[test]
fn enclosing_namespace_parses_the_fqn() {
    assert_eq!(ns("System.String"), vec!["System".to_string()]);
    assert_eq!(
        ns("System.Collections.Generic.List"),
        vec![
            "System".to_string(),
            "Collections".to_string(),
            "Generic".to_string()
        ]
    );
    assert_eq!(ns("System.IParsable`1"), vec!["System".to_string()]);
    assert_eq!(
        ns("System.Numerics.IAdditionOperators`3"),
        vec!["System".to_string(), "Numerics".to_string()]
    );
    assert_eq!(ns("System.Outer/Inner"), vec!["System".to_string()]);
    assert_eq!(ns("Foo"), Vec::<String>::new());
    assert_eq!(ns("Foo`1"), Vec::<String>::new());
}
