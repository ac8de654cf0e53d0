use msp430_rt::diagnostic::{Diagnostic, DiagnosticKind, Location};
use msp430_rt::hoist::extract_static_muts;
use msp430_rt::syntax::{StaticDecl, Stmt};

fn static_item(name: &str, mutable: bool, text: &'static str) -> Stmt<&'static str> {
    Stmt::Static(StaticDecl { ident: name.to_string(), mutable, source: text })
}

fn names(statics: &[StaticDecl<&'static str>]) -> Vec<String> {
    statics.iter().map(|d| d.ident.clone()).collect()
}

#[test]
fn leading_static_muts_are_hoisted_in_order() {
    let body = vec![
        static_item("A", true, "static mut A: u32 = 0;"),
        static_item("B", true, "static mut B: u32 = 1;"),
        Stmt::Other("let x = 5;"),
    ];
    let (statics, rest) = extract_static_muts(body).unwrap();
    assert_eq!(names(&statics), vec!["A".to_string(), "B".to_string()]);
    assert_eq!(statics[0].source, "static mut A: u32 = 0;");
    assert_eq!(statics[1].source, "static mut B: u32 = 1;");
    assert_eq!(rest, vec![Stmt::Other("let x = 5;")]);
}

#[test]
fn hoisting_stops_at_first_plain_static() {
    let body = vec![
        static_item("A", true, "static mut A: u32 = 0;"),
        static_item("B", false, "static B: u32 = 1;"),
        static_item("C", true, "static mut C: u32 = 2;"),
    ];
    let (statics, rest) = extract_static_muts(body).unwrap();
    assert_eq!(names(&statics), vec!["A".to_string()]);
    assert_eq!(
        rest,
        vec![
            static_item("B", false, "static B: u32 = 1;"),
            static_item("C", true, "static mut C: u32 = 2;"),
        ]
    );
}

#[test]
fn static_mut_after_other_statement_stays() {
    let body = vec![
        Stmt::Other("let y = 1;"),
        static_item("A", true, "static mut A: u8 = 0;"),
    ];
    let (statics, rest) = extract_static_muts(body).unwrap();
    assert!(statics.is_empty());
    assert_eq!(rest.len(), 2);
    assert_eq!(rest[0], Stmt::Other("let y = 1;"));
}

#[test]
fn empty_body_hoists_nothing() {
    let (statics, rest) = extract_static_muts(Vec::<Stmt<&'static str>>::new()).unwrap();
    assert!(statics.is_empty());
    assert!(rest.is_empty());
}

#[test]
fn body_of_only_static_muts() {
    let body = vec![
        static_item("X", true, "static mut X: i32 = 3;"),
        static_item("Y", true, "static mut Y: i32 = 4;"),
    ];
    let (statics, rest) = extract_static_muts(body).unwrap();
    assert_eq!(names(&statics), vec!["X".to_string(), "Y".to_string()]);
    assert!(rest.is_empty());
}

#[test]
fn duplicate_static_names_are_rejected() {
    let body = vec![
        static_item("A", true, "static mut A: u32 = 0;"),
        static_item("B", true, "static mut B: u32 = 1;"),
        static_item("A", true, "static mut A: u32 = 2;"),
        Stmt::Other("loop {}"),
    ];
    let err = extract_static_muts(body).unwrap_err();
    assert_eq!(
        err,
        Diagnostic {
            kind: DiagnosticKind::DuplicateStatic { name: "A".to_string() },
            at: Location::Statement(2),
        }
    );
    assert_eq!(err.message(), "the name `A` is defined multiple times");
}

#[test]
fn first_redeclaration_is_reported() {
    let body = vec![
        static_item("A", true, "static mut A: u8 = 0;"),
        static_item("B", true, "static mut B: u8 = 0;"),
        static_item("B", true, "static mut B: u8 = 1;"),
        static_item("A", true, "static mut A: u8 = 1;"),
    ];
    let err = extract_static_muts(body).unwrap_err();
    assert_eq!(err.kind, DiagnosticKind::DuplicateStatic { name: "B".to_string() });
    assert_eq!(err.at, Location::Statement(2));
}

#[test]
fn repeated_name_outside_leading_run_is_accepted() {
    let body = vec![
        static_item("A", true, "static mut A: u8 = 0;"),
        Stmt::Other("let z = 0;"),
        static_item("A", true, "static mut A: u8 = 1;"),
    ];
    let (statics, rest) = extract_static_muts(body).unwrap();
    assert_eq!(names(&statics), vec!["A".to_string()]);
    assert_eq!(rest.len(), 2);
}
