use databend_query::view_binder::{
    AlterViewStmt, Binder, CreateViewStmt, DropViewStmt, Identifier, NameResolutionContext, Plan,
};

fn binder() -> Binder {
    Binder {
        tenant: "tenant1".to_string(),
        current_catalog: "default".to_string(),
        current_database: "db1".to_string(),
        name_resolution_ctx: NameResolutionContext {
            unquoted_ident_case_sensitive: false,
            quoted_ident_case_sensitive: true,
        },
    }
}

fn ident(name: &str, quote: Option<char>) -> Identifier {
    Identifier { name: name.to_string(), quote }
}

#[test]
fn create_view_defaults_and_normalizes() {
    let stmt = CreateViewStmt {
        if_not_exists: true,
        catalog: None,
        database: None,
        view: ident("MyView", None),
        query: "SELECT 1".to_string(),
    };
    match binder().bind_create_view(&stmt).unwrap() {
        Plan::CreateView(p) => {
            assert!(p.if_not_exists);
            assert_eq!(p.tenant, "tenant1");
            assert_eq!(p.catalog, "default");
            assert_eq!(p.database, "db1");
            assert_eq!(p.viewname, "myview");
            assert_eq!(p.subquery, "SELECT 1");
        }
        _ => panic!("expected a create view plan"),
    }
}

#[test]
fn quoted_names_keep_their_case() {
    let stmt = AlterViewStmt {
        catalog: Some(ident("Cat", None)),
        database: Some(ident("DB", Some('"'))),
        view: ident("V", Some('`')),
        query: "SELECT a FROM t".to_string(),
    };
    match binder().bind_alter_view(&stmt).unwrap() {
        Plan::AlterView(p) => {
            assert_eq!(p.catalog, "cat");
            assert_eq!(p.database, "DB");
            assert_eq!(p.viewname, "V");
            assert_eq!(p.subquery, "SELECT a FROM t");
        }
        _ => panic!("expected an alter view plan"),
    }
}

#[test]
fn drop_view() {
    let stmt = DropViewStmt { if_exists: false, catalog: None, database: Some(ident("Sales", None)), view: ident("v", None) };
    let mut b = binder();
    b.name_resolution_ctx.unquoted_ident_case_sensitive = true;
    match b.bind_drop_view(&stmt).unwrap() {
        Plan::DropView(p) => {
            assert!(!p.if_exists);
            assert_eq!(p.database, "Sales");
            assert_eq!(p.catalog, "default");
            assert_eq!(p.viewname, "v");
        }
        _ => panic!("expected a drop view plan"),
    }
}
