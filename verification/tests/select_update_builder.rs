use mae::repo::select_update_builder::{
    select_statement, BuilderError, SelectBuilder, SelectRepo, UpdateBuilder, UpdateRepo,
    ValueType, Where, WhereBlock, WhereBuilder, WhereCondition,
};

struct RepoExample;

impl SelectBuilder<RepoExample> for SelectRepo {
    const REPO_NAME: &'static str = "repoexample";
    const SYS_CLIENT_FIELD: &'static str = "sys_client";
}

#[derive(Clone, Debug, PartialEq)]
enum RepoExampleUpdateFields {
    Value(i32),
}

impl UpdateBuilder<RepoExampleUpdateFields, RepoExample> for UpdateRepo<RepoExampleUpdateFields> {
    const SYS_CLIENT_FIELD: &'static str = "sys_client";

    fn execute(&self) -> String {
        String::new()
    }
}

fn select(sys_client: u64) -> SelectRepo {
    <SelectRepo as SelectBuilder<RepoExample>>::select_builder(sys_client).unwrap()
}

#[test]
fn where_operators() {
    assert_eq!(Where::Equals(1).to_string(), "=");
    assert_eq!(Where::NotEquals(1).to_string(), "!=");
    assert_eq!(Where::In(vec![1, 2]).to_string(), "IN");
    assert_eq!(Where::NotIn(vec![]).to_string(), "NOT IN");
    assert_eq!(Where::Like("a%".to_string()).to_string(), "LIKE");
    assert_eq!(Where::NotLike("a%".to_string()).to_string(), "NOT LIKE");
    assert_eq!(Where::Ilike("a%".to_string()).to_string(), "ILIKE");
    assert_eq!(Where::NotIlike("a%".to_string()).to_string(), "NOT ILIKE");
    assert_eq!(Where::StringIs("x".to_string()).to_string(), "=");
    assert_eq!(Where::StringIsNot("x".to_string()).to_string(), "!=");
    assert_eq!(Where::Gt(1).to_string(), ">");
    assert_eq!(Where::Gte(1).to_string(), ">=");
    assert_eq!(Where::Lt(1).to_string(), "<");
    assert_eq!(Where::Lte(1).to_string(), "<=");
    assert_eq!(Where::IsNull.to_string(), "IS NULL");
}

#[test]
fn where_values() {
    assert!(matches!(Where::Equals(4).get_value(), ValueType::I32(4)));
    assert!(matches!(Where::Lte(-9).get_value(), ValueType::I32(-9)));
    match Where::In(vec![1, 2, 3]).get_value() {
        ValueType::VecI32(v) => assert_eq!(v, vec![1, 2, 3]),
        _ => panic!("expected a list"),
    }
    match Where::NotIlike("ab%".to_string()).get_value() {
        ValueType::String(s) => assert_eq!(s, "ab%"),
        _ => panic!("expected a string"),
    }
    assert!(matches!(Where::IsNull.get_value(), ValueType::Null));
}

#[test]
fn condition_text_and_value() {
    let and = WhereCondition::And("status".to_string(), Where::StringIs("active".to_string()));
    let or = WhereCondition::Or("value".to_string(), Where::In(vec![7]));
    assert_eq!(and.to_string(), "AND status =");
    assert_eq!(or.to_string(), "OR value IN");
    match and.get_value() {
        ValueType::String(s) => assert_eq!(s, "active"),
        _ => panic!("expected a string"),
    }
    assert!(matches!(or.get_value(), ValueType::VecI32(v) if v == vec![7]));
}

#[test]
fn new_select_query_where_string() {
    let q = select(1);
    assert!(q.build_string.is_none());
    assert_eq!(q.get_where_string(), "sys_client = $1");
}

#[test]
fn select_query_out_of_range_client() {
    let r = <SelectRepo as SelectBuilder<RepoExample>>::select_builder(2_147_483_648);
    assert_eq!(r.unwrap_err(), BuilderError::SysClientOutOfRange);
    assert!(<SelectRepo as SelectBuilder<RepoExample>>::select_builder(2_147_483_647).is_ok());
    assert_eq!(BuilderError::SysClientOutOfRange.to_string(), "unable to convert sys_client to i32.");
}

#[test]
fn and_or_where_extend_the_clause() {
    let q = select(3)
        .and_where("value".to_string(), Where::Gt(10))
        .or_where("string_value".to_string(), Where::Like("he%".to_string()));
    assert_eq!(q.where_block.0.len(), 3);
    assert_eq!(
        q.get_where_string(),
        "sys_client = $1 AND value > $2 OR string_value LIKE $3"
    );
    // the copy keeps the clause of the query it was made from
    assert_eq!(q.build_string.as_deref(), Some("sys_client = $1 AND value > $2"));
}

#[test]
fn build_select_string() {
    let q = select(3).and_where("value".to_string(), Where::IsNull);
    assert_eq!(
        <SelectRepo as SelectBuilder<RepoExample>>::build_string(&q),
        "SELECT * FROM repoexample WHERE sys_client = $1 AND value IS NULL $2;"
    );
    assert_eq!(select_statement("t", "a = $1"), "SELECT * FROM t WHERE a = $1;");
}

#[test]
fn bind_values_skip_null_tests() {
    let q = select(5)
        .and_where("a".to_string(), Where::IsNull)
        .and_where("b".to_string(), Where::NotIn(vec![1, 2]))
        .or_where("c".to_string(), Where::StringIsNot("x".to_string()));
    let vals = q.get_where_block().bind_values();
    assert_eq!(vals.len(), 3);
    assert!(matches!(vals[0], ValueType::I32(5)));
    assert!(matches!(&vals[1], ValueType::VecI32(v) if *v == vec![1, 2]));
    assert!(matches!(&vals[2], ValueType::String(s) if s == "x"));
}

#[test]
fn where_string_of_block_starting_with_or() {
    let block = WhereBlock(vec![
        WhereCondition::Or("value".to_string(), Where::Equals(1)),
        WhereCondition::And("b".to_string(), Where::Lt(2)),
    ]);
    assert_eq!(block.where_string(), "alue = $1 AND b < $2");
    assert_eq!(WhereBlock(vec![]).where_string(), "");
}

#[test]
fn placeholders_count_past_nine() {
    let mut q = select(1);
    for i in 0..10 {
        q = q.and_where(format!("f{}", i), Where::Equals(i));
    }
    let s = q.get_where_string();
    assert!(s.starts_with("sys_client = $1 AND f0 = $2"));
    assert!(s.ends_with("AND f9 = $11"));
}

#[test]
fn update_builder_keeps_fields() {
    let fields = vec![RepoExampleUpdateFields::Value(3)];
    let u = <UpdateRepo<RepoExampleUpdateFields> as UpdateBuilder<
        RepoExampleUpdateFields,
        RepoExample,
    >>::update_builder(fields.clone(), 9)
    .unwrap();
    assert_eq!(u.update_block, fields);
    assert_eq!(u.get_where_string(), "sys_client = $1");
    let u2 = u.and_where("value".to_string(), Where::Equals(2));
    assert_eq!(u2.update_block, fields);
    assert_eq!(u2.get_where_string(), "sys_client = $1 AND value = $2");
    let e = <UpdateRepo<RepoExampleUpdateFields> as UpdateBuilder<
        RepoExampleUpdateFields,
        RepoExample,
    >>::update_builder(fields, u64::MAX);
    assert!(matches!(e, Err(BuilderError::SysClientOutOfRange)));
}

#[test]
fn with_sys_client_uses_the_given_column() {
    let q = SelectRepo::with_sys_client("client".to_string(), 12).unwrap();
    assert_eq!(q.get_where_string(), "client = $1");
    let u = UpdateRepo::with_sys_client(vec![1u8], "client".to_string(), 0).unwrap();
    assert_eq!(u.get_where_string(), "client = $1");
    assert_eq!(u.update_block, vec![1u8]);
}

#[test]
fn update_query_extends_any_block() {
    let u: UpdateRepo<u8> = UpdateRepo {
        update_block: vec![4],
        where_block: WhereBlock(vec![WhereCondition::Or("éa".to_string(), Where::Equals(1))]),
    };
    let u2 = u.and_where("b".to_string(), Where::Gte(2));
    assert_eq!(u2.where_block.0.len(), 2);
    assert_eq!(u2.update_block, vec![4]);
    assert!(matches!(&u2.where_block.0[1], WhereCondition::And(f, Where::Gte(2)) if f == "b"));
}

#[test]
fn names_come_from_the_repository() {
    assert_eq!(<SelectRepo as SelectBuilder<RepoExample>>::get_repo_name(), "repoexample");
    assert_eq!(<SelectRepo as SelectBuilder<RepoExample>>::get_sys_client_field(), "sys_client");
    let q = select(1).and_where("value".to_string(), Where::Gt(5));
    assert_eq!(
        <SelectRepo as SelectBuilder<RepoExample>>::build_string(&q),
        "SELECT * FROM repoexample WHERE sys_client = $1 AND value > $2;"
    );
}
