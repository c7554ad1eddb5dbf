use mae::repo_macro::{
    column_variants, get_sql_parts, has_attribute, insert_parts, insert_statement, repo_fields,
    update_column_variants, BindSource, FieldInfo, Method,
};

fn field(name: &str, attrs: &[&str]) -> FieldInfo {
    FieldInfo {
        name: name.to_string(),
        attrs: attrs.iter().map(|a| a.to_string()).collect(),
    }
}

fn names(v: &[&str]) -> Vec<String> {
    v.iter().map(|s| s.to_string()).collect()
}

#[test]
fn has_attribute_finds_named_attribute() {
    let f = field("id", &["sqlx", "id"]);
    assert!(has_attribute(&f, "id"));
    assert!(has_attribute(&f, "sqlx"));
    assert!(!has_attribute(&f, "gen_date"));
    assert!(!has_attribute(&field("x", &[]), "id"));
}

#[test]
fn sql_parts_by_attribute() {
    let (b, r, n, ret) = get_sql_parts(&field("id", &["id"]), Method::Insert, 0);
    assert!(matches!(b, BindSource::Nothing));
    assert_eq!((r.as_str(), n.as_str(), ret.as_str()), ("", "", "id"));

    let (b, r, n, ret) = get_sql_parts(&field("created_at", &["gen_date"]), Method::Insert, 10);
    assert!(matches!(b, BindSource::Nothing));
    assert_eq!((r.as_str(), n.as_str(), ret.as_str()), ("now()", "created_at", "created_at"));

    let (b, r, n, ret) = get_sql_parts(&field("created_by", &["from_context"]), Method::Insert, 8);
    assert!(matches!(b, BindSource::ContextUserId));
    assert_eq!((r.as_str(), n.as_str(), ret.as_str()), ("$8", "created_by", "created_by"));

    let (b, r, n, ret) = get_sql_parts(&field("value", &[]), Method::Insert, 3);
    assert!(matches!(b, BindSource::DataField(ref f) if f == "value"));
    assert_eq!((r.as_str(), n.as_str(), ret.as_str()), ("$3", "value", "value"));

    // an id marker wins over the others
    let (_, r, n, _) = get_sql_parts(&field("x", &["gen_date", "id"]), Method::Insert, 4);
    assert_eq!((r.as_str(), n.as_str()), ("", ""));
}

#[test]
fn repo_insert_statement() {
    let fields = repo_fields(&names(&["value", "string_value"]));
    assert_eq!(fields.len(), 12);
    let parts = insert_parts(&fields);
    assert_eq!(
        insert_statement("repoexample", &parts),
        "INSERT INTO repoexample (sys_client, status, value, string_value, comment, tags, \
         sys_detail, created_by, updated_by, created_at, updated_at) VALUES ($1, $2, $3, $4, \
         $5, $6, $7, $8, $9, now(), now()) RETURNING id, sys_client, status, value, \
         string_value, comment, tags, sys_detail, created_by, updated_by, created_at, updated_at;"
    );
    let binds: Vec<String> = parts
        .binds
        .iter()
        .map(|b| match b {
            BindSource::Nothing => "-".to_string(),
            BindSource::ContextUserId => "ctx".to_string(),
            BindSource::DataField(f) => f.clone(),
        })
        .collect();
    assert_eq!(
        binds,
        names(&[
            "sys_client",
            "status",
            "value",
            "string_value",
            "comment",
            "tags",
            "sys_detail",
            "ctx",
            "ctx"
        ])
    );
}

#[test]
fn insert_of_no_fields() {
    let parts = insert_parts(&vec![]);
    assert!(parts.binds.is_empty());
    assert_eq!(insert_statement("t", &parts), "INSERT INTO t () VALUES () RETURNING ;");
}

#[test]
fn repo_fields_layout() {
    let fields = repo_fields(&names(&["value"]));
    let got: Vec<(&str, Vec<&str>)> = fields
        .iter()
        .map(|f| (f.name.as_str(), f.attrs.iter().map(|a| a.as_str()).collect()))
        .collect();
    assert_eq!(
        got,
        vec![
            ("id", vec!["id"]),
            ("sys_client", vec![]),
            ("status", vec![]),
            ("value", vec![]),
            ("comment", vec![]),
            ("tags", vec!["sqlx"]),
            ("sys_detail", vec!["sqlx"]),
            ("created_by", vec!["from_context"]),
            ("updated_by", vec!["from_context"]),
            ("created_at", vec!["gen_date"]),
            ("updated_at", vec!["gen_date"]),
        ]
    );
}

#[test]
fn column_lists() {
    assert_eq!(
        column_variants(&names(&["value"])),
        names(&[
            "All",
            "value",
            "sys_client",
            "status",
            "comment",
            "tags",
            "sys_detail",
            "id",
            "created_by",
            "updated_by",
            "created_at",
            "updated_at"
        ])
    );
    assert_eq!(
        update_column_variants(&names(&["value", "string_value"])),
        names(&["value", "string_value", "status", "comment", "tags", "sys_detail"])
    );
}
