//! What the repository macros generate, computed on plain values: the fields
//! of a repository record, its column names, and the parts of the `INSERT`
//! statement that stores a record.
use crate::text::{all_digits, decimal, digits_value, lemma_decimal_digits, u64_to_decimal};
use vstd::prelude::*;
use vstd::string::*;

verus! {

/// A named field of a record, with the names of the attributes put on it.
#[derive(Clone, Debug)]
pub struct FieldInfo {
    pub name: String,
    pub attrs: Vec<String>,
}

/// The mathematical value of a [`FieldInfo`].
pub struct FieldModel {
    pub name: Seq<char>,
    pub attrs: Seq<Seq<char>>,
}

impl View for FieldInfo {
    type V = FieldModel;

    open spec fn view(&self) -> FieldModel {
        FieldModel { name: self.name@, attrs: self.attrs@.map_values(|a: String| a@) }
    }
}

/// The fields of a record list as mathematical values.
pub open spec fn fields_view(fields: Seq<FieldInfo>) -> Seq<FieldModel> {
    fields.map_values(|f: FieldInfo| f@)
}

/// The SQL statement a part is computed for.
#[derive(Clone, Copy, Debug, PartialEq, Eq, Structural)]
pub enum Method {
    Insert,
}

/// The value an `INSERT` binds for a field.
#[derive(Clone, Debug)]
pub enum BindSource {
    /// Nothing is bound.
    Nothing,
    /// The id of the signed-in user.
    ContextUserId,
    /// The field of the same name of the data being inserted.
    DataField(String),
}

/// The mathematical value of a [`BindSource`].
pub enum BindModel {
    Nothing,
    ContextUserId,
    DataField(Seq<char>),
}

impl View for BindSource {
    type V = BindModel;

    open spec fn view(&self) -> BindModel {
        match self {
            BindSource::Nothing => BindModel::Nothing,
            BindSource::ContextUserId => BindModel::ContextUserId,
            BindSource::DataField(n) => BindModel::DataField(n@),
        }
    }
}

/// The parts of a statement that one field contributes: what is bound, its
/// SQL value, its column, and the column it returns.
pub struct SqlPartModel {
    pub bind: BindModel,
    pub sql_repr: Seq<char>,
    pub field_name: Seq<char>,
    pub returning: Seq<char>,
}

/// The marker of a field that holds the record's id.
pub open spec fn id_attr() -> Seq<char> {
    "id"@
}

/// The marker of a field that the database dates.
pub open spec fn gen_date_attr() -> Seq<char> {
    "gen_date"@
}

/// The marker of a field filled from the request's context.
pub open spec fn from_context_attr() -> Seq<char> {
    "from_context"@
}

/// The placeholder `$i`.
pub open spec fn placeholder(i: nat) -> Seq<char> {
    seq!['$'] + decimal(i)
}

/// What field `f`, the `i`-th of its record, contributes to an `INSERT`: an id
/// is only returned; a dated field is set to `now()`; a context field binds
/// the user's id to `$i`; any other field binds its data to `$i`.
pub open spec fn sql_part(f: FieldModel, i: nat) -> SqlPartModel {
    if f.attrs.contains(id_attr()) {
        SqlPartModel {
            bind: BindModel::Nothing,
            sql_repr: Seq::empty(),
            field_name: Seq::empty(),
            returning: f.name,
        }
    } else if f.attrs.contains(gen_date_attr()) {
        SqlPartModel {
            bind: BindModel::Nothing,
            sql_repr: "now()"@,
            field_name: f.name,
            returning: f.name,
        }
    } else if f.attrs.contains(from_context_attr()) {
        SqlPartModel {
            bind: BindModel::ContextUserId,
            sql_repr: placeholder(i),
            field_name: f.name,
            returning: f.name,
        }
    } else {
        SqlPartModel {
            bind: BindModel::DataField(f.name),
            sql_repr: placeholder(i),
            field_name: f.name,
            returning: f.name,
        }
    }
}

/// The text parts a field contributes.
pub enum PartKind {
    Value,
    Column,
    Returning,
}

/// The text part of the given kind.
pub open spec fn part_text(p: SqlPartModel, which: PartKind) -> Seq<char> {
    match which {
        PartKind::Value => p.sql_repr,
        PartKind::Column => p.field_name,
        PartKind::Returning => p.returning,
    }
}

/// The non-empty parts of one kind over the first `k` fields, in order.
pub open spec fn kept_parts(fields: Seq<FieldModel>, k: nat, which: PartKind) -> Seq<Seq<char>>
    decreases k,
{
    if k == 0 || k > fields.len() {
        Seq::empty()
    } else {
        let rest = kept_parts(fields, (k - 1) as nat, which);
        let p = part_text(sql_part(fields[k - 1], (k - 1) as nat), which);
        if p.len() == 0 { rest } else { rest.push(p) }
    }
}

/// The values bound over the first `k` fields, in order.
pub open spec fn kept_binds(fields: Seq<FieldModel>, k: nat) -> Seq<BindModel>
    decreases k,
{
    if k == 0 || k > fields.len() {
        Seq::empty()
    } else {
        let rest = kept_binds(fields, (k - 1) as nat);
        let b = sql_part(fields[k - 1], (k - 1) as nat).bind;
        if b is Nothing { rest } else { rest.push(b) }
    }
}

/// The SQL values of an `INSERT` of `fields`.
pub open spec fn insert_values(fields: Seq<FieldModel>) -> Seq<Seq<char>> {
    kept_parts(fields, fields.len(), PartKind::Value)
}

/// The columns of an `INSERT` of `fields`.
pub open spec fn insert_columns(fields: Seq<FieldModel>) -> Seq<Seq<char>> {
    kept_parts(fields, fields.len(), PartKind::Column)
}

/// The columns an `INSERT` of `fields` returns.
pub open spec fn insert_returning(fields: Seq<FieldModel>) -> Seq<Seq<char>> {
    kept_parts(fields, fields.len(), PartKind::Returning)
}

/// The values an `INSERT` of `fields` binds, in order.
pub open spec fn insert_binds(fields: Seq<FieldModel>) -> Seq<BindModel> {
    kept_binds(fields, fields.len())
}

/// Texts joined by `", "`.
pub open spec fn join_comma(parts: Seq<Seq<char>>) -> Seq<char>
    decreases parts.len(),
{
    if parts.len() == 0 {
        Seq::empty()
    } else if parts.len() == 1 {
        parts[0]
    } else {
        join_comma(parts.drop_last()) + ", "@ + parts.last()
    }
}

/// The `INSERT` statement of a record into `repo_name`.
pub open spec fn insert_sql(
    repo_name: Seq<char>,
    columns: Seq<char>,
    values: Seq<char>,
    returning: Seq<char>,
) -> Seq<char> {
    "INSERT INTO "@ + repo_name + " ("@ + columns + ") VALUES ("@ + values + ") RETURNING "@
        + returning + ";"@
}

/// Whether `field` carries the attribute `attr_name`.
pub fn has_attribute(field: &FieldInfo, attr_name: &str) -> (r: bool)
    ensures
        r == field@.attrs.contains(attr_name@),
{
    let key = String::from_str(attr_name);
    let mut j: usize = 0;
    while j < field.attrs.len()
        invariant
            j <= field.attrs.len(),
            key@ == attr_name@,
            forall|k: int| 0 <= k < j ==> field.attrs@[k]@ != attr_name@,
        decreases field.attrs.len() - j,
    {
        if field.attrs[j] == key {
            assert(field@.attrs[j as int] == attr_name@);
            return true;
        }
        j = j + 1;
    }
    assert forall|k: int| 0 <= k < field@.attrs.len() implies field@.attrs[k] != attr_name@ by {
        assert(field@.attrs[k] == field.attrs@[k]@);
    }
    false
}

fn placeholder_string(i: usize) -> (s: String)
    ensures
        s@ == placeholder(i as nat),
{
    let mut s = String::from_str("$");
    proof { reveal_strlit("$"); }
    let n = u64_to_decimal(i as u64);
    s.append(n.as_str());
    s
}

/// The parts that `field`, the `i`-th of its record, contributes to a
/// statement (see [`sql_part`]).
pub fn get_sql_parts(field: &FieldInfo, method: Method, i: usize) -> (r: (
    BindSource,
    String,
    String,
    String,
))
    ensures
        ({
            let p = sql_part(field@, i as nat);
            &&& r.0@ == p.bind
            &&& r.1@ == p.sql_repr
            &&& r.2@ == p.field_name
            &&& r.3@ == p.returning
        }),
{
    let field_name = field.name.clone();
    match method {
        Method::Insert => {
            if has_attribute(field, "id") {
                return (BindSource::Nothing, String::new(), String::new(), field_name);
            }
            if has_attribute(field, "gen_date") {
                return (
                    BindSource::Nothing,
                    String::from_str("now()"),
                    field_name.clone(),
                    field_name,
                );
            }
            if has_attribute(field, "from_context") {
                return (
                    BindSource::ContextUserId,
                    placeholder_string(i),
                    field_name.clone(),
                    field_name,
                );
            }
            (
                BindSource::DataField(field_name.clone()),
                placeholder_string(i),
                field_name.clone(),
                field_name,
            )
        },
    }
}

/// The parts of an `INSERT` of a record: the values it binds, and the SQL
/// values, columns and returned columns, each list joined by `", "`.
pub struct InsertParts {
    pub binds: Vec<BindSource>,
    pub values: String,
    pub columns: String,
    pub returning: String,
}

fn append_joined(out: &mut String, part: &String)
    ensures
        final(out)@ == (if old(out)@.len() == 0 { part@ } else { old(out)@ + ", "@ + part@ }),
{
    if out.as_str().unicode_len() > 0 {
        out.append(", ");
    }
    out.append(part.as_str());
}

proof fn lemma_join_comma_push(parts: Seq<Seq<char>>, p: Seq<char>)
    requires
        p.len() > 0,
        forall|i: int| 0 <= i < parts.len() ==> (#[trigger] parts[i]).len() > 0,
    ensures
        join_comma(parts).len() == 0 <==> parts.len() == 0,
        join_comma(parts.push(p)) == (if parts.len() == 0 { p } else { join_comma(parts) + ", "@
            + p }),
    decreases parts.len(),
{
    assert(parts.push(p).drop_last() =~= parts);
    if parts.len() > 1 {
        lemma_join_comma_push(parts.drop_last(), parts.last());
        assert(parts.drop_last().push(parts.last()) =~= parts);
    }
}

proof fn lemma_kept_parts_nonempty(
    fields: Seq<FieldModel>,
    k: nat,
    which: PartKind,
)
    ensures
        forall|i: int|
            0 <= i < kept_parts(fields, k, which).len() ==> (#[trigger] kept_parts(
                fields,
                k,
                which,
            )[i]).len() > 0,
    decreases k,
{
    if k > 0 && k <= fields.len() {
        lemma_kept_parts_nonempty(fields, (k - 1) as nat, which);
        let rest = kept_parts(fields, (k - 1) as nat, which);
        let p = part_text(sql_part(fields[k - 1], (k - 1) as nat), which);
        assert forall|i: int|
            0 <= i < kept_parts(fields, k, which).len() implies (#[trigger] kept_parts(
                fields,
                k,
                which,
            )[i]).len() > 0 by {
            if p.len() != 0 && i == rest.len() {
                assert(kept_parts(fields, k, which)[i] == p);
            } else {
                assert(kept_parts(fields, k, which)[i] == rest[i]);
            }
        }
    }
}

/// The parts of an `INSERT` of `fields`, each field contributing what
/// [`get_sql_parts`] gives for it at its position.
pub fn insert_parts(fields: &Vec<FieldInfo>) -> (r: InsertParts)
    ensures
        r.binds@.map_values(|b: BindSource| b@) == insert_binds(fields_view(fields@)),
        r.values@ == join_comma(insert_values(fields_view(fields@))),
        r.columns@ == join_comma(insert_columns(fields_view(fields@))),
        r.returning@ == join_comma(insert_returning(fields_view(fields@))),
{
    let ghost fv = fields_view(fields@);
    let mut binds: Vec<BindSource> = Vec::new();
    let mut values = String::new();
    let mut columns = String::new();
    let mut returning = String::new();
    let mut i: usize = 0;
    while i < fields.len()
        invariant
            i <= fields.len(),
            fv == fields_view(fields@),
            fv.len() == fields.len(),
            binds@.map_values(|b: BindSource| b@) == kept_binds(fv, i as nat),
            values@ == join_comma(kept_parts(fv, i as nat, PartKind::Value)),
            columns@ == join_comma(kept_parts(fv, i as nat, PartKind::Column)),
            returning@ == join_comma(kept_parts(fv, i as nat, PartKind::Returning)),
        decreases fields.len() - i,
    {
        let (bind, sql_repr, field_name, returning_field) = get_sql_parts(
            &fields[i],
            Method::Insert,
            i,
        );
        let ghost p = sql_part(fv[i as int], i as nat);
        assert(fv[i as int] == fields@[i as int]@);
        proof {
            lemma_kept_parts_nonempty(fv, i as nat, PartKind::Value);
            lemma_kept_parts_nonempty(fv, i as nat, PartKind::Column);
            lemma_kept_parts_nonempty(fv, i as nat, PartKind::Returning);
            if p.sql_repr.len() > 0 {
                lemma_join_comma_push(kept_parts(fv, i as nat, PartKind::Value), p.sql_repr);
            } else {
                lemma_join_comma_push(kept_parts(fv, i as nat, PartKind::Value), seq!['x']);
            }
            if p.field_name.len() > 0 {
                lemma_join_comma_push(kept_parts(fv, i as nat, PartKind::Column), p.field_name);
            } else {
                lemma_join_comma_push(kept_parts(fv, i as nat, PartKind::Column), seq!['x']);
            }
            if p.returning.len() > 0 {
                lemma_join_comma_push(kept_parts(fv, i as nat, PartKind::Returning), p.returning);
            } else {
                lemma_join_comma_push(kept_parts(fv, i as nat, PartKind::Returning), seq!['x']);
            }
        }
        let ghost old_binds = binds@;
        match bind {
            BindSource::Nothing => {},
            _ => {
                binds.push(bind);
                assert(binds@.map_values(|b: BindSource| b@) =~= old_binds.map_values(
                    |b: BindSource| b@,
                ).push(p.bind));
            },
        }
        assert(kept_parts(fv, (i + 1) as nat, PartKind::Value) == (if p.sql_repr.len() == 0 {
            kept_parts(fv, i as nat, PartKind::Value)
        } else {
            kept_parts(fv, i as nat, PartKind::Value).push(p.sql_repr)
        }));
        assert(kept_parts(fv, (i + 1) as nat, PartKind::Column) == (if p.field_name.len() == 0 {
            kept_parts(fv, i as nat, PartKind::Column)
        } else {
            kept_parts(fv, i as nat, PartKind::Column).push(p.field_name)
        }));
        if sql_repr.as_str().unicode_len() > 0 {
            append_joined(&mut values, &sql_repr);
        }
        if field_name.as_str().unicode_len() > 0 {
            append_joined(&mut columns, &field_name);
        }
        if returning_field.as_str().unicode_len() > 0 {
            append_joined(&mut returning, &returning_field);
        }
        i = i + 1;
    }
    InsertParts { binds, values, columns, returning }
}

/// The `INSERT` statement of a record into `repo_name`, made of `parts`.
pub fn insert_statement(repo_name: &str, parts: &InsertParts) -> (s: String)
    ensures
        s@ == insert_sql(repo_name@, parts.columns@, parts.values@, parts.returning@),
{
    let mut s = String::from_str("INSERT INTO ");
    s.append(repo_name);
    s.append(" (");
    s.append(parts.columns.as_str());
    s.append(") VALUES (");
    s.append(parts.values.as_str());
    s.append(") RETURNING ");
    s.append(parts.returning.as_str());
    s.append(";");
    s
}


/// A field without attributes.
pub open spec fn plain_field(name: Seq<char>) -> FieldModel {
    FieldModel { name, attrs: Seq::empty() }
}

/// A field with one attribute.
pub open spec fn marked_field(name: Seq<char>, attr: Seq<char>) -> FieldModel {
    FieldModel { name, attrs: seq![attr] }
}

/// The fields of a repository record whose own fields are named `user_fields`:
/// the id, the client and the status first, then the record's own fields,
/// then the comment, the tags and details stored as JSON, the users who made
/// and last changed the record, and the dates of both.
pub open spec fn repo_fields_spec(user_fields: Seq<Seq<char>>) -> Seq<FieldModel> {
    seq![marked_field("id"@, id_attr()), plain_field("sys_client"@), plain_field("status"@)]
        + user_fields.map_values(|n: Seq<char>| plain_field(n)) + seq![
        plain_field("comment"@),
        marked_field("tags"@, "sqlx"@),
        marked_field("sys_detail"@, "sqlx"@),
        marked_field("created_by"@, from_context_attr()),
        marked_field("updated_by"@, from_context_attr()),
        marked_field("created_at"@, gen_date_attr()),
        marked_field("updated_at"@, gen_date_attr()),
    ]
}

/// The columns of a repository whose records have the fields `user_fields`,
/// as named in its column list: `All`, the record's own fields, then the
/// fields every record has.
pub open spec fn column_variants_spec(user_fields: Seq<Seq<char>>) -> Seq<Seq<char>> {
    seq!["All"@] + user_fields + seq![
        "sys_client"@,
        "status"@,
        "comment"@,
        "tags"@,
        "sys_detail"@,
        "id"@,
        "created_by"@,
        "updated_by"@,
        "created_at"@,
        "updated_at"@,
    ]
}

/// The columns an update may set: the record's own fields, the status, the
/// comment, the tags and the details.
pub open spec fn update_column_variants_spec(user_fields: Seq<Seq<char>>) -> Seq<Seq<char>> {
    user_fields + seq!["status"@, "comment"@, "tags"@, "sys_detail"@]
}

/// The names of a list of strings as character sequences.
pub open spec fn names_view(names: Seq<String>) -> Seq<Seq<char>> {
    names.map_values(|n: String| n@)
}

fn field(name: &str, attr: Option<&str>) -> (f: FieldInfo)
    ensures
        f@.name == name@,
        f@.attrs == (match attr {
            Some(a) => seq![a@],
            None => Seq::<Seq<char>>::empty(),
        }),
{
    let mut attrs: Vec<String> = Vec::new();
    match attr {
        Some(a) => {
            attrs.push(String::from_str(a));
        },
        None => {},
    }
    let f = FieldInfo { name: String::from_str(name), attrs };
    assert(f@.attrs =~= (match attr {
        Some(a) => seq![a@],
        None => Seq::<Seq<char>>::empty(),
    }));
    f
}

fn push_field(v: &mut Vec<FieldInfo>, f: FieldInfo)
    ensures
        fields_view(final(v)@) == fields_view(old(v)@).push(f@),
{
    v.push(f);
    assert(fields_view(final(v)@) =~= fields_view(old(v)@).push(f@));
}

/// The fields of a repository record whose own fields are named
/// `user_fields` (see [`repo_fields_spec`]).
pub fn repo_fields(user_fields: &Vec<String>) -> (r: Vec<FieldInfo>)
    ensures
        fields_view(r@) == repo_fields_spec(names_view(user_fields@)),
{
    let mut r: Vec<FieldInfo> = Vec::new();
    push_field(&mut r, field("id", Some("id")));
    push_field(&mut r, field("sys_client", None));
    push_field(&mut r, field("status", None));
    let ghost head = fields_view(r@);
    let mut i: usize = 0;
    while i < user_fields.len()
        invariant
            i <= user_fields.len(),
            head.len() == 3,
            fields_view(r@) == head + names_view(user_fields@).take(i as int).map_values(
                |n: Seq<char>| plain_field(n),
            ),
        decreases user_fields.len() - i,
    {
        let f = FieldInfo { name: user_fields[i].clone(), attrs: Vec::new() };
        assert(f@ == plain_field(names_view(user_fields@)[i as int])) by {
            assert(f@.attrs =~= Seq::<Seq<char>>::empty());
        }
        push_field(&mut r, f);
        assert(names_view(user_fields@).take(i + 1) =~= names_view(user_fields@).take(
            i as int,
        ).push(names_view(user_fields@)[i as int]));
        i = i + 1;
        assert(fields_view(r@) =~= head + names_view(user_fields@).take(i as int).map_values(
            |n: Seq<char>| plain_field(n),
        ));
    }
    assert(names_view(user_fields@).take(user_fields.len() as int) =~= names_view(
        user_fields@,
    ));
    push_field(&mut r, field("comment", None));
    push_field(&mut r, field("tags", Some("sqlx")));
    push_field(&mut r, field("sys_detail", Some("sqlx")));
    push_field(&mut r, field("created_by", Some("from_context")));
    push_field(&mut r, field("updated_by", Some("from_context")));
    push_field(&mut r, field("created_at", Some("gen_date")));
    push_field(&mut r, field("updated_at", Some("gen_date")));
    assert(fields_view(r@) =~= repo_fields_spec(names_view(user_fields@)));
    r
}

fn push_name(v: &mut Vec<String>, name: &str)
    ensures
        names_view(final(v)@) == names_view(old(v)@).push(name@),
{
    v.push(String::from_str(name));
    assert(names_view(final(v)@) =~= names_view(old(v)@).push(name@));
}

fn push_names(v: &mut Vec<String>, names: &Vec<String>)
    ensures
        names_view(final(v)@) == names_view(old(v)@) + names_view(names@),
{
    let ghost start = names_view(v@);
    let mut i: usize = 0;
    while i < names.len()
        invariant
            i <= names.len(),
            names_view(v@) == start + names_view(names@).take(i as int),
        decreases names.len() - i,
    {
        let ghost before = names_view(v@);
        v.push(names[i].clone());
        assert(names_view(v@) =~= before.push(names@[i as int]@));
        i = i + 1;
        assert(names_view(v@) =~= start + names_view(names@).take(i as int));
    }
    assert(names_view(names@).take(names.len() as int) =~= names_view(names@));
}

/// The column list of a repository whose records have the fields
/// `user_fields` (see [`column_variants_spec`]).
pub fn column_variants(user_fields: &Vec<String>) -> (r: Vec<String>)
    ensures
        names_view(r@) == column_variants_spec(names_view(user_fields@)),
{
    let mut r: Vec<String> = Vec::new();
    push_name(&mut r, "All");
    push_names(&mut r, user_fields);
    push_name(&mut r, "sys_client");
    push_name(&mut r, "status");
    push_name(&mut r, "comment");
    push_name(&mut r, "tags");
    push_name(&mut r, "sys_detail");
    push_name(&mut r, "id");
    push_name(&mut r, "created_by");
    push_name(&mut r, "updated_by");
    push_name(&mut r, "created_at");
    push_name(&mut r, "updated_at");
    assert(names_view(r@) =~= column_variants_spec(names_view(user_fields@)));
    r
}

/// The columns an update of a repository whose records have the fields
/// `user_fields` may set (see [`update_column_variants_spec`]).
pub fn update_column_variants(user_fields: &Vec<String>) -> (r: Vec<String>)
    ensures
        names_view(r@) == update_column_variants_spec(names_view(user_fields@)),
{
    let mut r: Vec<String> = Vec::new();
    push_names(&mut r, user_fields);
    push_name(&mut r, "status");
    push_name(&mut r, "comment");
    push_name(&mut r, "tags");
    push_name(&mut r, "sys_detail");
    assert(names_view(r@) =~= update_column_variants_spec(names_view(user_fields@)));
    r
}


proof fn lemma_insert_prefix(f: Seq<FieldModel>, m: nat, k: nat)
    requires
        1 <= k <= m + 1,
        m + 1 <= f.len(),
        f[0].attrs.contains(id_attr()),
        forall|j: int|
            1 <= j <= m ==> !(#[trigger] f[j]).attrs.contains(id_attr()) && !f[j].attrs.contains(
                gen_date_attr(),
            ),
    ensures
        kept_parts(f, k, PartKind::Value) == Seq::new(
            (k - 1) as nat,
            |j: int| placeholder((j + 1) as nat),
        ),
        kept_binds(f, k) == Seq::new(
            (k - 1) as nat,
            |j: int| sql_part(f[j + 1], (j + 1) as nat).bind,
        ),
    decreases k,
{
    if k == 1 {
        assert(kept_parts(f, 0, PartKind::Value) == Seq::<Seq<char>>::empty());
        assert(kept_binds(f, 0) == Seq::<BindModel>::empty());
        assert(sql_part(f[0], 0).sql_repr.len() == 0);
        assert(sql_part(f[0], 0).bind is Nothing);
        assert(kept_parts(f, 1, PartKind::Value) =~= Seq::new(
            0,
            |j: int| placeholder((j + 1) as nat),
        ));
        assert(kept_binds(f, 1) =~= Seq::new(
            0,
            |j: int| sql_part(f[j + 1], (j + 1) as nat).bind,
        ));
    } else {
        lemma_insert_prefix(f, m, (k - 1) as nat);
        let j = k - 1;
        assert(!f[j as int].attrs.contains(id_attr()));
        let p = sql_part(f[j as int], j as nat);
        assert(p.sql_repr == placeholder(j as nat));
        assert(placeholder(j as nat).len() > 0);
        assert(!(p.bind is Nothing));
        assert(kept_parts(f, k, PartKind::Value) =~= Seq::new(
            (k - 1) as nat,
            |i: int| placeholder((i + 1) as nat),
        ));
        assert(kept_binds(f, k) =~= Seq::new(
            (k - 1) as nat,
            |i: int| sql_part(f[i + 1], (i + 1) as nat).bind,
        ));
    }
}

proof fn lemma_insert_suffix(f: Seq<FieldModel>, m: nat, k: nat)
    requires
        m + 1 <= k <= f.len(),
        forall|j: int|
            m + 1 <= j < f.len() ==> !(#[trigger] f[j]).attrs.contains(id_attr())
                && f[j].attrs.contains(gen_date_attr()),
    ensures
        kept_parts(f, k, PartKind::Value) == kept_parts(f, m + 1, PartKind::Value) + Seq::new(
            (k - m - 1) as nat,
            |i: int| "now()"@,
        ),
        kept_binds(f, k) == kept_binds(f, m + 1),
    decreases k,
{
    reveal_strlit("now()");
    if k == m + 1 {
        assert(kept_parts(f, k, PartKind::Value) =~= kept_parts(f, m + 1, PartKind::Value)
            + Seq::new((k - m - 1) as nat, |i: int| "now()"@));
    } else {
        lemma_insert_suffix(f, m, (k - 1) as nat);
        let j = k - 1;
        assert(!f[j as int].attrs.contains(id_attr()));
        assert(kept_parts(f, k, PartKind::Value) =~= kept_parts(f, m + 1, PartKind::Value)
            + Seq::new((k - m - 1) as nat, |i: int| "now()"@));
    }
}

proof fn lemma_single_attr(name: Seq<char>, a: Seq<char>, b: Seq<char>)
    ensures
        marked_field(name, a).attrs.contains(b) <==> a == b,
        !plain_field(name).attrs.contains(b),
{
    if a == b {
        assert(marked_field(name, a).attrs[0] == b);
    }
}

/// The attributes of a field that binds a value under a placeholder.
proof fn lemma_bound_field_attrs(f: FieldModel)
    requires
        f.attrs == Seq::<Seq<char>>::empty() || f.attrs == seq!["sqlx"@] || f.attrs == seq![
            from_context_attr(),
        ],
    ensures
        !f.attrs.contains(id_attr()),
        !f.attrs.contains(gen_date_attr()),
{
    reveal_strlit("id");
    reveal_strlit("gen_date");
    reveal_strlit("from_context");
    reveal_strlit("sqlx");
    assert("sqlx"@.len() == 4);
    assert(id_attr().len() == 2);
    assert(gen_date_attr().len() == 8);
    assert(from_context_attr().len() == 12);
    if f.attrs.contains(id_attr()) {
        let i = choose|i: int| 0 <= i < f.attrs.len() && f.attrs[i] == id_attr();
        assert(f.attrs[i].len() == 2);
    }
    if f.attrs.contains(gen_date_attr()) {
        let i = choose|i: int| 0 <= i < f.attrs.len() && f.attrs[i] == gen_date_attr();
        assert(f.attrs[i].len() == 8);
    }
}

/// The attributes of a field that the database dates.
proof fn lemma_dated_field_attrs(f: FieldModel)
    requires
        f.attrs == seq![gen_date_attr()],
    ensures
        !f.attrs.contains(id_attr()),
        f.attrs.contains(gen_date_attr()),
{
    reveal_strlit("id");
    reveal_strlit("gen_date");
    assert(f.attrs[0] == gen_date_attr());
    if f.attrs.contains(id_attr()) {
        let i = choose|i: int| 0 <= i < f.attrs.len() && f.attrs[i] == id_attr();
        assert(f.attrs[i].len() == 2);
    }
}

/// In the `INSERT` that a repository record's fields make, the values are the
/// placeholders `$1`, `$2`, ... in order, then `now()` for the two dates, and
/// the value bound to placeholder `$j` is the one that the `j`-th field
/// binds: every placeholder gets exactly the value of its own field.
pub proof fn lemma_repo_insert_placeholders(user_fields: Seq<Seq<char>>)
    ensures
        ({
            let f = repo_fields_spec(user_fields);
            let n = user_fields.len() + 7;
            &&& insert_values(f) == Seq::new(n, |j: int| placeholder((j + 1) as nat)) + seq![
                "now()"@,
                "now()"@,
            ]
            &&& insert_binds(f).len() == n
            &&& forall|j: int|
                0 <= j < n ==> #[trigger] insert_binds(f)[j] == sql_part(
                    f[j + 1],
                    (j + 1) as nat,
                ).bind
        }),
{
    reveal_strlit("id");
    reveal_strlit("gen_date");
    reveal_strlit("from_context");
    reveal_strlit("sqlx");
    let f = repo_fields_spec(user_fields);
    let l = user_fields.len();
    let m: nat = l + 7;
    let mapped = user_fields.map_values(|n: Seq<char>| plain_field(n));
    let head = seq![marked_field("id"@, id_attr()), plain_field("sys_client"@), plain_field("status"@)];
    let tail = seq![
        plain_field("comment"@),
        marked_field("tags"@, "sqlx"@),
        marked_field("sys_detail"@, "sqlx"@),
        marked_field("created_by"@, from_context_attr()),
        marked_field("updated_by"@, from_context_attr()),
        marked_field("created_at"@, gen_date_attr()),
        marked_field("updated_at"@, gen_date_attr()),
    ];
    assert(f == head + mapped + tail);
    assert(f.len() == l + 10);
    assert(f[0] == head[0]);
    lemma_single_attr("id"@, id_attr(), id_attr());
    assert forall|j: int|
        1 <= j <= m implies !(#[trigger] f[j]).attrs.contains(id_attr()) && !f[j].attrs.contains(
        gen_date_attr(),
    ) by {
        if j < 3 {
            assert(f[j] == head[j]);
        } else if j < 3 + l {
            assert(f[j] == mapped[j - 3]);
        } else {
            assert(f[j] == tail[j - 3 - l]);
        }
        lemma_bound_field_attrs(f[j]);
    }
    assert forall|j: int|
        m + 1 <= j < f.len() implies !(#[trigger] f[j]).attrs.contains(id_attr())
        && f[j].attrs.contains(gen_date_attr()) by {
        assert(f[j] == tail[j - 3 - l]);
        lemma_dated_field_attrs(f[j]);
    }
    lemma_insert_prefix(f, m, m + 1);
    lemma_insert_suffix(f, m, f.len());
    reveal_strlit("now()");
    assert(insert_values(f) =~= Seq::new(m, |j: int| placeholder((j + 1) as nat)) + seq![
        "now()"@,
        "now()"@,
    ]);
}


/// The placeholder of position `i` is `$` followed by a decimal numeral that
/// denotes `i`; different positions get different placeholders.
pub proof fn lemma_placeholder_value(i: nat, j: nat)
    ensures
        placeholder(i).len() >= 2,
        placeholder(i)[0] == '$',
        all_digits(placeholder(i).skip(1)),
        digits_value(placeholder(i).skip(1)) == i,
        placeholder(i) == placeholder(j) ==> i == j,
{
    lemma_decimal_digits(i);
    lemma_decimal_digits(j);
    assert(placeholder(i).skip(1) =~= decimal(i));
    assert(placeholder(j).skip(1) =~= decimal(j));
}

/// What a field contributes, by its marker: an id is only returned; a dated
/// field is set to `now()` in its own column; a context field binds the
/// user's id, and any other field binds its own data, to the placeholder of
/// its position, in its own column.
pub proof fn lemma_sql_part_by_marker(f: FieldModel, i: nat)
    ensures
        f.attrs.contains(id_attr()) ==> sql_part(f, i) == (SqlPartModel {
            bind: BindModel::Nothing,
            sql_repr: Seq::empty(),
            field_name: Seq::empty(),
            returning: f.name,
        }),
        !f.attrs.contains(id_attr()) ==> sql_part(f, i).field_name == f.name
            && sql_part(f, i).returning == f.name,
        !f.attrs.contains(id_attr()) && f.attrs.contains(gen_date_attr()) ==> sql_part(
            f,
            i,
        ).sql_repr == "now()"@ && sql_part(f, i).bind is Nothing,
        !f.attrs.contains(id_attr()) && !f.attrs.contains(gen_date_attr()) ==> sql_part(
            f,
            i,
        ).sql_repr == placeholder(i),
        !f.attrs.contains(id_attr()) && !f.attrs.contains(gen_date_attr()) && f.attrs.contains(
            from_context_attr(),
        ) ==> sql_part(f, i).bind == BindModel::ContextUserId,
        !f.attrs.contains(id_attr()) && !f.attrs.contains(gen_date_attr()) && !f.attrs.contains(
            from_context_attr(),
        ) ==> sql_part(f, i).bind == BindModel::DataField(f.name),
{
}

/// The column list starts with `All`, then has every own field of the record
/// in order, then the ten columns every record has; nothing is
/// dropped or repeated from the own fields.
pub proof fn lemma_column_variants_layout(user_fields: Seq<Seq<char>>)
    ensures
        column_variants_spec(user_fields).len() == user_fields.len() + 11,
        column_variants_spec(user_fields)[0] == "All"@,
        forall|i: int|
            0 <= i < user_fields.len() ==> #[trigger] column_variants_spec(user_fields)[i + 1]
                == user_fields[i],
        column_variants_spec(user_fields).skip(user_fields.len() + 1int) == seq![
            "sys_client"@,
            "status"@,
            "comment"@,
            "tags"@,
            "sys_detail"@,
            "id"@,
            "created_by"@,
            "updated_by"@,
            "created_at"@,
            "updated_at"@,
        ],
{
    let c = column_variants_spec(user_fields);
    assert forall|i: int| 0 <= i < user_fields.len() implies #[trigger] c[i + 1]
        == user_fields[i] by {}
    assert(c.skip(user_fields.len() + 1int) =~= seq![
        "sys_client"@,
        "status"@,
        "comment"@,
        "tags"@,
        "sys_detail"@,
        "id"@,
        "created_by"@,
        "updated_by"@,
        "created_at"@,
        "updated_at"@,
    ]);
}

/// An update may set every own field of the record, in order, and then the
/// status, the comment, the tags and the details.
pub proof fn lemma_update_column_variants_layout(user_fields: Seq<Seq<char>>)
    ensures
        update_column_variants_spec(user_fields).len() == user_fields.len() + 4,
        forall|i: int|
            0 <= i < user_fields.len() ==> #[trigger] update_column_variants_spec(user_fields)[i]
                == user_fields[i],
        update_column_variants_spec(user_fields).skip(user_fields.len() as int) == seq![
            "status"@,
            "comment"@,
            "tags"@,
            "sys_detail"@,
        ],
{
    let c = update_column_variants_spec(user_fields);
    assert(c.skip(user_fields.len() as int) =~= seq![
        "status"@,
        "comment"@,
        "tags"@,
        "sys_detail"@,
    ]);
}

/// A record has its three leading fields, then every own field in order and
/// without markers, then its seven trailing fields.
pub proof fn lemma_repo_fields_layout(user_fields: Seq<Seq<char>>)
    ensures
        repo_fields_spec(user_fields).len() == user_fields.len() + 10,
        forall|i: int|
            0 <= i < user_fields.len() ==> #[trigger] repo_fields_spec(user_fields)[i + 3]
                == plain_field(user_fields[i]),
        repo_fields_spec(user_fields)[0] == marked_field("id"@, id_attr()),
{
    let f = repo_fields_spec(user_fields);
    assert forall|i: int| 0 <= i < user_fields.len() implies #[trigger] f[i + 3] == plain_field(
        user_fields[i],
    ) by {}
}

/// In a record's `INSERT`, the `j`-th value is the placeholder numbered
/// `j + 1` for every bound value, so no two bound values share a
/// placeholder.
pub proof fn lemma_repo_insert_numbers(user_fields: Seq<Seq<char>>)
    ensures
        ({
            let vals = insert_values(repo_fields_spec(user_fields));
            forall|j: int|
                #![trigger vals[j]]
                0 <= j < user_fields.len() + 7 ==> vals[j][0] == '$' && digits_value(
                    vals[j].skip(1),
                ) == j + 1
        }),
{
    lemma_repo_insert_placeholders(user_fields);
    let vals = insert_values(repo_fields_spec(user_fields));
    assert forall|j: int| #![trigger vals[j]] 0 <= j < user_fields.len() + 7 implies vals[j][0]
        == '$' && digits_value(vals[j].skip(1)) == j + 1 by {
        assert(vals[j] == placeholder((j + 1) as nat));
        lemma_placeholder_value((j + 1) as nat, 0);
    }
}

} // verus!
