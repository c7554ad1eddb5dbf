//! Building the `WHERE` clause of a repository query: the conditions, their
//! SQL text with numbered placeholders, and the values bound to them.
use crate::text::{all_digits, decimal, digits_value, lemma_decimal_digits, u64_to_decimal};
use vstd::prelude::*;
use vstd::string::*;

verus! {

/// A comparison applied to one column.
#[derive(Clone, Debug)]
pub enum Where {
    Equals(i32),
    NotEquals(i32),
    In(Vec<i32>),
    NotIn(Vec<i32>),
    Like(String),
    NotLike(String),
    Ilike(String),
    NotIlike(String),
    StringIs(String),
    StringIsNot(String),
    Gt(i32),
    Gte(i32),
    Lt(i32),
    Lte(i32),
    IsNull,
}

/// The mathematical value of a [`Where`].
pub enum WhereModel {
    Equals(i32),
    NotEquals(i32),
    In(Seq<i32>),
    NotIn(Seq<i32>),
    Like(Seq<char>),
    NotLike(Seq<char>),
    Ilike(Seq<char>),
    NotIlike(Seq<char>),
    StringIs(Seq<char>),
    StringIsNot(Seq<char>),
    Gt(i32),
    Gte(i32),
    Lt(i32),
    Lte(i32),
    IsNull,
}

impl View for Where {
    type V = WhereModel;

    open spec fn view(&self) -> WhereModel {
        match self {
            Where::Equals(v) => WhereModel::Equals(*v),
            Where::NotEquals(v) => WhereModel::NotEquals(*v),
            Where::In(v) => WhereModel::In(v@),
            Where::NotIn(v) => WhereModel::NotIn(v@),
            Where::Like(v) => WhereModel::Like(v@),
            Where::NotLike(v) => WhereModel::NotLike(v@),
            Where::Ilike(v) => WhereModel::Ilike(v@),
            Where::NotIlike(v) => WhereModel::NotIlike(v@),
            Where::StringIs(v) => WhereModel::StringIs(v@),
            Where::StringIsNot(v) => WhereModel::StringIsNot(v@),
            Where::Gt(v) => WhereModel::Gt(*v),
            Where::Gte(v) => WhereModel::Gte(*v),
            Where::Lt(v) => WhereModel::Lt(*v),
            Where::Lte(v) => WhereModel::Lte(*v),
            Where::IsNull => WhereModel::IsNull,
        }
    }
}

/// The value that a condition binds to its placeholder.
#[derive(Debug)]
pub enum ValueType {
    String(String),
    VecI32(Vec<i32>),
    I32(i32),
    Null,
}

/// The mathematical value of a [`ValueType`].
pub enum ValueModel {
    String(Seq<char>),
    VecI32(Seq<i32>),
    I32(i32),
    Null,
}

impl View for ValueType {
    type V = ValueModel;

    open spec fn view(&self) -> ValueModel {
        match self {
            ValueType::String(s) => ValueModel::String(s@),
            ValueType::VecI32(v) => ValueModel::VecI32(v@),
            ValueType::I32(v) => ValueModel::I32(*v),
            ValueType::Null => ValueModel::Null,
        }
    }
}

/// The value a comparison carries: integers, integer lists and strings as
/// they are, nothing for `IS NULL`.
pub open spec fn where_value(w: WhereModel) -> ValueModel {
    match w {
        WhereModel::Equals(v) => ValueModel::I32(v),
        WhereModel::NotEquals(v) => ValueModel::I32(v),
        WhereModel::In(v) => ValueModel::VecI32(v),
        WhereModel::NotIn(v) => ValueModel::VecI32(v),
        WhereModel::Gt(v) => ValueModel::I32(v),
        WhereModel::Gte(v) => ValueModel::I32(v),
        WhereModel::Lt(v) => ValueModel::I32(v),
        WhereModel::Lte(v) => ValueModel::I32(v),
        WhereModel::Like(v) => ValueModel::String(v),
        WhereModel::NotLike(v) => ValueModel::String(v),
        WhereModel::Ilike(v) => ValueModel::String(v),
        WhereModel::NotIlike(v) => ValueModel::String(v),
        WhereModel::StringIs(v) => ValueModel::String(v),
        WhereModel::StringIsNot(v) => ValueModel::String(v),
        WhereModel::IsNull => ValueModel::Null,
    }
}

/// The SQL operator of a comparison.
pub open spec fn where_operator(w: WhereModel) -> Seq<char> {
    match w {
        WhereModel::Equals(_) => "="@,
        WhereModel::NotEquals(_) => "!="@,
        WhereModel::In(_) => "IN"@,
        WhereModel::NotIn(_) => "NOT IN"@,
        WhereModel::Like(_) => "LIKE"@,
        WhereModel::NotLike(_) => "NOT LIKE"@,
        WhereModel::Ilike(_) => "ILIKE"@,
        WhereModel::NotIlike(_) => "NOT ILIKE"@,
        WhereModel::StringIs(_) => "="@,
        WhereModel::StringIsNot(_) => "!="@,
        WhereModel::Gt(_) => ">"@,
        WhereModel::Gte(_) => ">="@,
        WhereModel::Lt(_) => "<"@,
        WhereModel::Lte(_) => "<="@,
        WhereModel::IsNull => "IS NULL"@,
    }
}

fn copy_i32s(v: &Vec<i32>) -> (r: Vec<i32>)
    ensures
        r@ == v@,
{
    let mut r: Vec<i32> = Vec::new();
    let mut i: usize = 0;
    while i < v.len()
        invariant
            i <= v.len(),
            r@ == v@.take(i as int),
        decreases v.len() - i,
    {
        r.push(v[i]);
        i = i + 1;
        assert(r@ =~= v@.take(i as int));
    }
    assert(v@.take(v.len() as int) =~= v@);
    r
}

fn copy_where(w: &Where) -> (r: Where)
    ensures
        r@ == w@,
{
    match w {
        Where::Equals(v) => Where::Equals(*v),
        Where::NotEquals(v) => Where::NotEquals(*v),
        Where::In(v) => Where::In(copy_i32s(v)),
        Where::NotIn(v) => Where::NotIn(copy_i32s(v)),
        Where::Like(v) => Where::Like(v.clone()),
        Where::NotLike(v) => Where::NotLike(v.clone()),
        Where::Ilike(v) => Where::Ilike(v.clone()),
        Where::NotIlike(v) => Where::NotIlike(v.clone()),
        Where::StringIs(v) => Where::StringIs(v.clone()),
        Where::StringIsNot(v) => Where::StringIsNot(v.clone()),
        Where::Gt(v) => Where::Gt(*v),
        Where::Gte(v) => Where::Gte(*v),
        Where::Lt(v) => Where::Lt(*v),
        Where::Lte(v) => Where::Lte(*v),
        Where::IsNull => Where::IsNull,
    }
}

impl Where {
    /// The value this comparison binds.
    pub fn get_value(&self) -> (v: ValueType)
        ensures
            v@ == where_value(self@),
    {
        match self {
            Where::Equals(f) => ValueType::I32(*f),
            Where::NotEquals(f) => ValueType::I32(*f),
            Where::In(f) => ValueType::VecI32(copy_i32s(f)),
            Where::NotIn(f) => ValueType::VecI32(copy_i32s(f)),
            Where::Gt(f) => ValueType::I32(*f),
            Where::Gte(f) => ValueType::I32(*f),
            Where::Lt(f) => ValueType::I32(*f),
            Where::Lte(f) => ValueType::I32(*f),
            Where::Like(f) => ValueType::String(f.clone()),
            Where::NotLike(f) => ValueType::String(f.clone()),
            Where::Ilike(f) => ValueType::String(f.clone()),
            Where::NotIlike(f) => ValueType::String(f.clone()),
            Where::StringIs(f) => ValueType::String(f.clone()),
            Where::StringIsNot(f) => ValueType::String(f.clone()),
            Where::IsNull => ValueType::Null,
        }
    }

    /// The SQL operator of this comparison.
    pub fn to_string(&self) -> (s: String)
        ensures
            s@ == where_operator(self@),
    {
        match self {
            Where::Equals(_) => String::from_str("="),
            Where::NotEquals(_) => String::from_str("!="),
            Where::In(_) => String::from_str("IN"),
            Where::NotIn(_) => String::from_str("NOT IN"),
            Where::Like(_) => String::from_str("LIKE"),
            Where::NotLike(_) => String::from_str("NOT LIKE"),
            Where::Ilike(_) => String::from_str("ILIKE"),
            Where::NotIlike(_) => String::from_str("NOT ILIKE"),
            Where::StringIs(_) => String::from_str("="),
            Where::StringIsNot(_) => String::from_str("!="),
            Where::Gt(_) => String::from_str(">"),
            Where::Gte(_) => String::from_str(">="),
            Where::Lt(_) => String::from_str("<"),
            Where::Lte(_) => String::from_str("<="),
            Where::IsNull => String::from_str("IS NULL"),
        }
    }
}


/// A comparison on a named column, joined to the preceding ones by `AND` or
/// `OR`.
#[derive(Clone, Debug)]
pub enum WhereCondition {
    And(String, Where),
    Or(String, Where),
}

/// The mathematical value of a [`WhereCondition`].
pub enum CondModel {
    And(Seq<char>, WhereModel),
    Or(Seq<char>, WhereModel),
}

impl View for WhereCondition {
    type V = CondModel;

    open spec fn view(&self) -> CondModel {
        match self {
            WhereCondition::And(f, w) => CondModel::And(f@, w@),
            WhereCondition::Or(f, w) => CondModel::Or(f@, w@),
        }
    }
}

/// The comparison of a condition.
pub open spec fn cond_where(c: CondModel) -> WhereModel {
    match c {
        CondModel::And(_, w) => w,
        CondModel::Or(_, w) => w,
    }
}

/// The SQL text of a condition: the connective, the column and the operator.
pub open spec fn condition_text(c: CondModel) -> Seq<char> {
    match c {
        CondModel::And(f, w) => "AND "@ + f + " "@ + where_operator(w),
        CondModel::Or(f, w) => "OR "@ + f + " "@ + where_operator(w),
    }
}

fn copy_condition(c: &WhereCondition) -> (r: WhereCondition)
    ensures
        r@ == c@,
{
    match c {
        WhereCondition::And(f, w) => WhereCondition::And(f.clone(), copy_where(w)),
        WhereCondition::Or(f, w) => WhereCondition::Or(f.clone(), copy_where(w)),
    }
}

impl WhereCondition {
    /// The value this condition binds.
    pub fn get_value(&self) -> (v: ValueType)
        ensures
            v@ == where_value(cond_where(self@)),
    {
        match self {
            WhereCondition::Or(_, where_block) => where_block.get_value(),
            WhereCondition::And(_, where_block) => where_block.get_value(),
        }
    }

    /// The SQL text of this condition, such as `AND status = `.
    pub fn to_string(&self) -> (s: String)
        ensures
            s@ == condition_text(self@),
    {
        let (mut s, field, where_block) = match self {
            WhereCondition::Or(field, where_block) => (String::from_str("OR "), field, where_block),
            WhereCondition::And(field, where_block) => (String::from_str("AND "), field, where_block),
        };
        s.append(field.as_str());
        s.append(" ");
        let op = where_block.to_string();
        s.append(op.as_str());
        s
    }
}

/// The conditions of a query, in the order they were added.
#[derive(Clone, Debug)]
pub struct WhereBlock(pub Vec<WhereCondition>);

impl View for WhereBlock {
    type V = Seq<CondModel>;

    open spec fn view(&self) -> Seq<CondModel> {
        self.0@.map_values(|c: WhereCondition| c@)
    }
}

/// Whether the text of the first condition can have its first four bytes cut
/// off: it starts with `AND `, or with `OR ` followed by an empty column name
/// or one whose first character is a single byte.
pub open spec fn where_renderable(conds: Seq<CondModel>) -> bool {
    conds.len() > 0 ==> match conds[0] {
        CondModel::And(_, _) => true,
        CondModel::Or(f, _) => f.len() == 0 || (f[0] as u32) < 128,
    }
}

/// The `i`-th piece of a `WHERE` clause: the condition's text (the first one
/// without its four leading characters), a space and the placeholder
/// `$<i + 1>`.
pub open spec fn where_piece(conds: Seq<CondModel>, i: int) -> Seq<char> {
    let text = condition_text(conds[i]);
    let head = if i == 0 { text.skip(4) } else { text };
    head + " $"@ + decimal((i + 1) as nat)
}

/// The first `k` pieces of a `WHERE` clause, separated by single spaces.
pub open spec fn where_clause_upto(conds: Seq<CondModel>, k: nat) -> Seq<char>
    decreases k,
{
    if k == 0 {
        Seq::empty()
    } else if k == 1 {
        where_piece(conds, 0)
    } else {
        where_clause_upto(conds, (k - 1) as nat) + " "@ + where_piece(conds, k - 1)
    }
}

/// The `WHERE` clause of a list of conditions.
pub open spec fn where_string(conds: Seq<CondModel>) -> Seq<char> {
    where_clause_upto(conds, conds.len())
}

/// The values bound to a query's placeholders: those of its conditions in
/// order, leaving out the conditions that carry none.
pub open spec fn bound_values(conds: Seq<CondModel>) -> Seq<ValueModel>
    decreases conds.len(),
{
    if conds.len() == 0 {
        Seq::empty()
    } else {
        let rest = bound_values(conds.drop_last());
        match where_value(cond_where(conds.last())) {
            ValueModel::Null => rest,
            v => rest.push(v),
        }
    }
}

/// The SQL of a query that reads every column of `repo_name` under a `WHERE`
/// clause.
pub open spec fn select_sql(repo_name: Seq<char>, where_clause: Seq<char>) -> Seq<char> {
    "SELECT * FROM "@ + repo_name + " WHERE "@ + where_clause + ";"@
}

impl WhereBlock {
    /// A copy of these conditions.
    pub fn duplicate(&self) -> (r: WhereBlock)
        ensures
            r@ == self@,
    {
        let mut v: Vec<WhereCondition> = Vec::new();
        let mut i: usize = 0;
        while i < self.0.len()
            invariant
                i <= self.0.len(),
                v@.map_values(|c: WhereCondition| c@) == self@.take(i as int),
            decreases self.0.len() - i,
        {
            let c = copy_condition(&self.0[i]);
            let ghost old_v = v@;
            assert(self@[i as int] == self.0@[i as int]@);
            v.push(c);
            assert(v@.map_values(|c: WhereCondition| c@) =~= old_v.map_values(
                |c: WhereCondition| c@,
            ).push(c@));
            assert(self@.take(i + 1) =~= self@.take(i as int).push(self@[i as int]));
            i = i + 1;
        }
        assert(self@.take(self.0.len() as int) =~= self@);
        WhereBlock(v)
    }

    /// The `WHERE` clause of these conditions: each condition's text with a
    /// numbered placeholder, the first without its leading `AND `.
    pub fn where_string(&self) -> (s: String)
        requires
            where_renderable(self@),
        ensures
            s@ == where_string(self@),
    {
        let n = self.0.len();
        let mut out = String::new();
        let mut i: usize = 0;
        while i < n
            invariant
                i <= n,
                n == self.0.len(),
                n == self@.len(),
                out@ == where_clause_upto(self@, i as nat),
            decreases n - i,
        {
            let text = self.0[i].to_string();
            assert(self@[i as int] == self.0@[i as int]@);
            let mut piece = if i == 0 {
                proof {
                    reveal_strlit("AND ");
                    reveal_strlit("OR ");
                    reveal_strlit(" ");
                }
                let len = text.as_str().unicode_len();
                String::from_str(text.as_str().substring_char(4, len))
            } else {
                text
            };
            piece.append(" $");
            let number = u64_to_decimal(i as u64 + 1);
            piece.append(number.as_str());
            if i > 0 {
                out.append(" ");
            }
            out.append(piece.as_str());
            proof {
                assert(piece@ == where_piece(self@, i as int)) by {
                    if i == 0 {
                        assert(text@.skip(4) =~= text@.subrange(4, text@.len() as int));
                    }
                }
            }
            i = i + 1;
        }
        out
    }

    /// The values bound to the placeholders, in order, leaving out the
    /// conditions that carry none.
    pub fn bind_values(&self) -> (vals: Vec<ValueType>)
        ensures
            vals@.map_values(|v: ValueType| v@) == bound_values(self@),
    {
        let n = self.0.len();
        let mut vals: Vec<ValueType> = Vec::new();
        let mut i: usize = 0;
        while i < n
            invariant
                i <= n,
                n == self.0.len(),
                n == self@.len(),
                vals@.map_values(|v: ValueType| v@) == bound_values(self@.take(i as int)),
            decreases n - i,
        {
            let v = self.0[i].get_value();
            assert(self@.take(i + 1).drop_last() =~= self@.take(i as int));
            assert(self@.take(i + 1).last() == self.0@[i as int]@);
            match v {
                ValueType::Null => {},
                _ => {
                    vals.push(v);
                },
            }
            i = i + 1;
            assert(vals@.map_values(|v: ValueType| v@) =~= bound_values(self@.take(i as int)));
        }
        assert(self@.take(n as int) =~= self@);
        vals
    }
}


/// Why a query builder could not be made.
#[derive(Clone, Copy, Debug, PartialEq, Eq, Structural)]
pub enum BuilderError {
    /// The client id does not fit in the `i32` column that holds it.
    SysClientOutOfRange,
}

impl BuilderError {
    /// The message of this error.
    pub fn to_string(&self) -> (s: String)
        ensures
            s@ == "unable to convert sys_client to i32."@,
    {
        String::from_str("unable to convert sys_client to i32.")
    }
}

/// Calls `num::ToPrimitive::to_i32` on a `u64`: the same number when it is at
/// most `i32::MAX`, `None` otherwise.
#[verifier::external_body]
fn u64_to_i32(x: u64) -> (r: Option<i32>)
    ensures
        r == (if x <= i32::MAX { Some(x as i32) } else { None::<i32> }),
{
    num::ToPrimitive::to_i32(&x)
}

/// The conditions of a new query: the client's rows only.
fn sys_client_block(sys_client_field: String, sys_client: u64) -> (r: Result<
    WhereBlock,
    BuilderError,
>)
    ensures
        sys_client <= i32::MAX ==> (r matches Ok(b) && b@ == seq![
            CondModel::And(sys_client_field@, WhereModel::Equals(sys_client as i32)),
        ]),
        sys_client > i32::MAX ==> r == Err::<WhereBlock, BuilderError>(
            BuilderError::SysClientOutOfRange,
        ),
{
    match u64_to_i32(sys_client) {
        Some(id) => {
            let mut conds: Vec<WhereCondition> = Vec::new();
            conds.push(WhereCondition::And(sys_client_field, Where::Equals(id)));
            let b = WhereBlock(conds);
            assert(b@ =~= seq![CondModel::And(sys_client_field@, WhereModel::Equals(id))]);
            Ok(b)
        },
        None => Err(BuilderError::SysClientOutOfRange),
    }
}

/// The SQL of a query that reads every column of `repo_name` under the given
/// `WHERE` clause.
pub fn select_statement(repo_name: &str, where_clause: &str) -> (s: String)
    ensures
        s@ == select_sql(repo_name@, where_clause@),
{
    let mut s = String::from_str("SELECT * FROM ");
    s.append(repo_name);
    s.append(" WHERE ");
    s.append(where_clause);
    s.append(";");
    s
}

/// A query on the records of a repository that a client owns.
#[derive(Clone, Debug)]
pub struct UpdateRepo<UF> {
    pub update_block: Vec<UF>,
    pub where_block: WhereBlock,
}

/// A query that reads records of a repository that a client owns.
#[derive(Clone, Debug)]
pub struct SelectRepo {
    pub where_block: WhereBlock,
    pub build_string: Option<String>,
}

impl SelectRepo {
    /// A read query restricted to the rows of client `sys_client`, whose id is
    /// kept in the column `sys_client_field`; an error where the id does not
    /// fit in an `i32`.
    pub fn with_sys_client(sys_client_field: String, sys_client: u64) -> (r: Result<
        SelectRepo,
        BuilderError,
    >)
        ensures
            sys_client <= i32::MAX ==> (r matches Ok(q) && q.build_string is None && q.where_block@
                == seq![CondModel::And(sys_client_field@, WhereModel::Equals(sys_client as i32))]),
            sys_client > i32::MAX ==> (r matches Err(e) && e == BuilderError::SysClientOutOfRange),
    {
        let where_block = sys_client_block(sys_client_field, sys_client)?;
        Ok(SelectRepo { where_block, build_string: None })
    }
}

impl<UF> UpdateRepo<UF> {
    /// An update of `fields` restricted to the rows of client `sys_client`,
    /// whose id is kept in the column `sys_client_field`; an error where the
    /// id does not fit in an `i32`.
    pub fn with_sys_client(fields: Vec<UF>, sys_client_field: String, sys_client: u64) -> (r:
        Result<UpdateRepo<UF>, BuilderError>)
        ensures
            sys_client <= i32::MAX ==> (r matches Ok(q) && q.update_block@ == fields@
                && q.where_block@ == seq![
                CondModel::And(sys_client_field@, WhereModel::Equals(sys_client as i32)),
            ]),
            sys_client > i32::MAX ==> (r matches Err(e) && e == BuilderError::SysClientOutOfRange),
    {
        let where_block = sys_client_block(sys_client_field, sys_client)?;
        Ok(UpdateRepo { update_block: fields, where_block })
    }
}

/// A query that carries a list of conditions and can be extended by them.
pub trait WhereBuilder: Sized {
    /// The conditions of this query.
    spec fn where_conditions(&self) -> Seq<CondModel>;

    /// Whether `r` is this query with its conditions replaced by `conds`.
    spec fn copied_with(&self, conds: Seq<CondModel>, r: Self) -> bool;

    /// Whether this query can be copied with other conditions.
    spec fn copy_allowed(&self) -> bool;

    /// A copy of the conditions of this query.
    fn get_where_block(&self) -> (b: WhereBlock)
        ensures
            b@ == self.where_conditions(),
    ;

    /// This query with its conditions replaced by `where_block`.
    fn copy_with(&self, where_block: WhereBlock) -> (r: Self)
        requires
            self.copy_allowed(),
        ensures
            r.where_conditions() == where_block@,
            self.copied_with(where_block@, r),
    ;

    /// This query with one more condition, joined by `OR`.
    fn or_where(&self, field: String, where_block: Where) -> (r: Self)
        requires
            self.copy_allowed(),
        ensures
            r.where_conditions() == self.where_conditions().push(
                CondModel::Or(field@, where_block@),
            ),
            self.copied_with(r.where_conditions(), r),
    {
        let mut where_blocks = self.get_where_block().0;
        let ghost before = where_blocks@;
        let cond = WhereCondition::Or(field, where_block);
        where_blocks.push(cond);
        let b = WhereBlock(where_blocks);
        assert(b@ =~= self.where_conditions().push(cond@));
        self.copy_with(b)
    }

    /// This query with one more condition, joined by `AND`.
    fn and_where(&self, field: String, where_block: Where) -> (r: Self)
        requires
            self.copy_allowed(),
        ensures
            r.where_conditions() == self.where_conditions().push(
                CondModel::And(field@, where_block@),
            ),
            self.copied_with(r.where_conditions(), r),
    {
        let mut where_blocks = self.get_where_block().0;
        let cond = WhereCondition::And(field, where_block);
        where_blocks.push(cond);
        let b = WhereBlock(where_blocks);
        assert(b@ =~= self.where_conditions().push(cond@));
        self.copy_with(b)
    }

    /// The `WHERE` clause of this query.
    fn get_where_string(&self) -> (s: String)
        requires
            where_renderable(self.where_conditions()),
        ensures
            s@ == where_string(self.where_conditions()),
    {
        self.get_where_block().where_string()
    }
}

impl WhereBuilder for SelectRepo {
    open spec fn where_conditions(&self) -> Seq<CondModel> {
        self.where_block@
    }

    /// The copy holds the new conditions, and the `WHERE` clause of the
    /// conditions it had before.
    open spec fn copied_with(&self, conds: Seq<CondModel>, r: SelectRepo) -> bool {
        &&& r.where_block@ == conds
        &&& r.build_string matches Some(b) && b@ == where_string(self.where_block@)
    }

    /// The copy holds the `WHERE` clause of this query, which must be
    /// renderable.
    open spec fn copy_allowed(&self) -> bool {
        where_renderable(self.where_block@)
    }

    fn get_where_block(&self) -> (b: WhereBlock) {
        self.where_block.duplicate()
    }

    fn copy_with(&self, where_block: WhereBlock) -> (r: SelectRepo) {
        SelectRepo { where_block, build_string: Some(self.get_where_string()) }
    }
}

impl<UF: Clone> WhereBuilder for UpdateRepo<UF> {
    open spec fn where_conditions(&self) -> Seq<CondModel> {
        self.where_block@
    }

    /// The copy holds the new conditions and a clone of each updated field.
    open spec fn copied_with(&self, conds: Seq<CondModel>, r: UpdateRepo<UF>) -> bool {
        &&& r.where_block@ == conds
        &&& r.update_block@.len() == self.update_block@.len()
        &&& forall|i: int|
            0 <= i < self.update_block@.len() ==> cloned::<UF>(
                #[trigger] self.update_block@[i],
                r.update_block@[i],
            )
    }

    open spec fn copy_allowed(&self) -> bool {
        true
    }

    fn get_where_block(&self) -> (b: WhereBlock) {
        self.where_block.duplicate()
    }

    fn copy_with(&self, where_block: WhereBlock) -> (r: UpdateRepo<UF>) {
        UpdateRepo { update_block: self.update_block.clone(), where_block }
    }
}

/// The read query of repository `R`: the repository names its table and the
/// column that holds the client id.
pub trait SelectBuilder<R>: WhereBuilder {
    /// The name of the repository's table.
    const REPO_NAME: &'static str;

    /// The name of the column that holds the client id.
    const SYS_CLIENT_FIELD: &'static str;

    /// The table of the repository.
    fn get_repo_name() -> (s: String)
        ensures
            s@ == Self::REPO_NAME@,
    {
        String::from_str(Self::REPO_NAME)
    }

    /// The column that holds the client id.
    fn get_sys_client_field() -> (s: String)
        ensures
            s@ == Self::SYS_CLIENT_FIELD@,
    {
        String::from_str(Self::SYS_CLIENT_FIELD)
    }

    /// A read query restricted to the rows of client `sys_client` (see
    /// [`SelectRepo::with_sys_client`]).
    fn select_builder(sys_client: u64) -> (r: Result<SelectRepo, BuilderError>)
        ensures
            sys_client <= i32::MAX ==> (r matches Ok(q) && q.build_string is None
                && q.where_block@ == seq![
                CondModel::And(Self::SYS_CLIENT_FIELD@, WhereModel::Equals(sys_client as i32)),
            ]),
            sys_client > i32::MAX ==> (r matches Err(e) && e == BuilderError::SysClientOutOfRange),
    {
        SelectRepo::with_sys_client(Self::get_sys_client_field(), sys_client)
    }

    /// The SQL that reads this query's rows from the repository's table (see
    /// [`select_statement`]).
    fn build_string(&self) -> (s: String)
        requires
            where_renderable(self.where_conditions()),
        ensures
            s@ == select_sql(Self::REPO_NAME@, where_string(self.where_conditions())),
    {
        let where_clause = self.get_where_string();
        let repo_name = Self::get_repo_name();
        select_statement(repo_name.as_str(), where_clause.as_str())
    }
}

/// The update query of repository `R` on fields `UF`.
pub trait UpdateBuilder<UF, R> {
    /// The name of the column that holds the client id.
    const SYS_CLIENT_FIELD: &'static str;

    /// An update of `fields` restricted to the rows of client `sys_client`
    /// (see [`UpdateRepo::with_sys_client`]).
    fn update_builder(fields: Vec<UF>, sys_client: u64) -> (r: Result<UpdateRepo<UF>, BuilderError>)
        ensures
            sys_client <= i32::MAX ==> (r matches Ok(q) && q.update_block@ == fields@
                && q.where_block@ == seq![
                CondModel::And(Self::SYS_CLIENT_FIELD@, WhereModel::Equals(sys_client as i32)),
            ]),
            sys_client > i32::MAX ==> (r matches Err(e) && e == BuilderError::SysClientOutOfRange),
    {
        UpdateRepo::with_sys_client(fields, Self::get_sys_client_field(), sys_client)
    }

    /// Runs the update.
    fn execute(&self) -> String;

    /// The column that holds the client id.
    fn get_sys_client_field() -> (s: String)
        ensures
            s@ == Self::SYS_CLIENT_FIELD@,
    {
        String::from_str(Self::SYS_CLIENT_FIELD)
    }
}

/// The `WHERE` clause of a new query is `<column> = $1`: the leading `AND `
/// of its only condition is cut off, and the client id is the first
/// placeholder.
pub proof fn lemma_new_query_where_string(sys_client_field: Seq<char>, sys_client: i32)
    ensures
        where_string(seq![CondModel::And(sys_client_field, WhereModel::Equals(sys_client))])
            == sys_client_field + " = $1"@,
{
    reveal_strlit("AND ");
    reveal_strlit(" ");
    reveal_strlit("=");
    reveal_strlit(" $");
    reveal_strlit(" = $1");
    let conds = seq![CondModel::And(sys_client_field, WhereModel::Equals(sys_client))];
    let text = condition_text(conds[0]);
    assert(text.skip(4) =~= sys_client_field + " "@ + "="@);
    assert(decimal(1) =~= seq!['1']);
    assert(where_string(conds) =~= sys_client_field + " = $1"@);
}

proof fn lemma_where_clause_prefix(conds: Seq<CondModel>, c: CondModel, k: nat)
    requires
        k <= conds.len(),
    ensures
        where_clause_upto(conds.push(c), k) == where_clause_upto(conds, k),
    decreases k,
{
    if k > 0 {
        lemma_where_clause_prefix(conds, c, (k - 1) as nat);
        assert(conds.push(c)[k - 1] == conds[k - 1]);
        assert(where_piece(conds.push(c), k - 1) == where_piece(conds, k - 1));
        if k > 1 {
            assert(conds.push(c)[0] == conds[0]);
            assert(where_piece(conds.push(c), 0) == where_piece(conds, 0));
        }
    }
}

/// Adding a condition to a query that has one already appends a space, the
/// condition's text and the next placeholder to its `WHERE` clause; nothing
/// before changes.
pub proof fn lemma_where_string_push(conds: Seq<CondModel>, c: CondModel)
    requires
        conds.len() > 0,
    ensures
        where_string(conds.push(c)) == where_string(conds) + " "@ + condition_text(c) + " $"@
            + decimal((conds.len() + 1) as nat),
{
    lemma_where_clause_prefix(conds, c, conds.len());
    let n = conds.len();
    assert(conds.push(c)[n as int] == c);
}

/// Whether no condition is an `IS NULL` test.
pub open spec fn no_null_test(conds: Seq<CondModel>) -> bool {
    forall|i: int| 0 <= i < conds.len() ==> !(#[trigger] cond_where(conds[i]) is IsNull)
}

/// Every placeholder of a `WHERE` clause gets a value exactly when no
/// condition is an `IS NULL` test; then the `i`-th value bound is that of the
/// `i`-th condition.
pub proof fn lemma_bound_values_match_placeholders(conds: Seq<CondModel>)
    ensures
        bound_values(conds).len() == conds.len() <==> no_null_test(conds),
        no_null_test(conds) ==> bound_values(conds) == Seq::new(
            conds.len(),
            |i: int| where_value(cond_where(conds[i])),
        ),
    decreases conds.len(),
{
    if conds.len() > 0 {
        let init = conds.drop_last();
        lemma_bound_values_match_placeholders(init);
        lemma_bound_values_len(init);
        let last = cond_where(conds.last());
        if no_null_test(conds) {
            assert forall|i: int| 0 <= i < init.len() implies !(#[trigger] cond_where(
                init[i],
            ) is IsNull) by {
                assert(init[i] == conds[i]);
            }
            assert(!(cond_where(conds[conds.len() - 1]) is IsNull));
            assert(bound_values(conds) =~= Seq::new(
                conds.len(),
                |i: int| where_value(cond_where(conds[i])),
            ));
        } else {
            let k = choose|i: int| 0 <= i < conds.len() && (cond_where(conds[i]) is IsNull);
            if k == conds.len() - 1 {
                assert(bound_values(conds) == bound_values(init));
            } else {
                assert(init[k] == conds[k]);
                assert(!no_null_test(init));
            }
        }
    }
}

proof fn lemma_bound_values_len(conds: Seq<CondModel>)
    ensures
        bound_values(conds).len() <= conds.len(),
    decreases conds.len(),
{
    if conds.len() > 0 {
        lemma_bound_values_len(conds.drop_last());
    }
}


/// Every comparison binds exactly the operand it carries: its integer, its
/// list or its string, unchanged; an `IS NULL` test binds nothing.
pub proof fn lemma_where_value_is_operand(w: WhereModel)
    ensures
        w matches WhereModel::Equals(x) ==> where_value(w) == ValueModel::I32(x),
        w matches WhereModel::NotEquals(x) ==> where_value(w) == ValueModel::I32(x),
        w matches WhereModel::Gt(x) ==> where_value(w) == ValueModel::I32(x),
        w matches WhereModel::Gte(x) ==> where_value(w) == ValueModel::I32(x),
        w matches WhereModel::Lt(x) ==> where_value(w) == ValueModel::I32(x),
        w matches WhereModel::Lte(x) ==> where_value(w) == ValueModel::I32(x),
        w matches WhereModel::In(l) ==> where_value(w) == ValueModel::VecI32(l),
        w matches WhereModel::NotIn(l) ==> where_value(w) == ValueModel::VecI32(l),
        w matches WhereModel::Like(p) ==> where_value(w) == ValueModel::String(p),
        w matches WhereModel::NotLike(p) ==> where_value(w) == ValueModel::String(p),
        w matches WhereModel::Ilike(p) ==> where_value(w) == ValueModel::String(p),
        w matches WhereModel::NotIlike(p) ==> where_value(w) == ValueModel::String(p),
        w matches WhereModel::StringIs(p) ==> where_value(w) == ValueModel::String(p),
        w matches WhereModel::StringIsNot(p) ==> where_value(w) == ValueModel::String(p),
        (w is IsNull) <==> (where_value(w) is Null),
{
}

/// The operator of each comparison: a negated comparison's operator is `NOT `
/// before the plain one's, so the two never coincide; equality and its
/// negation are `=` and `!=` for integers and strings alike.
pub proof fn lemma_where_operator_text(w: WhereModel)
    ensures
        (w is Equals || w is StringIs) ==> where_operator(w) == "="@,
        (w is NotEquals || w is StringIsNot) ==> where_operator(w) == "!="@,
        (w is Gt) ==> where_operator(w) == ">"@,
        (w is Gte) ==> where_operator(w) == ">="@,
        (w is Lt) ==> where_operator(w) == "<"@,
        (w is Lte) ==> where_operator(w) == "<="@,
        (w is In) ==> where_operator(w) == "IN"@,
        (w is NotIn) ==> where_operator(w) == "NOT "@ + "IN"@,
        (w is Like) ==> where_operator(w) == "LIKE"@,
        (w is NotLike) ==> where_operator(w) == "NOT "@ + "LIKE"@,
        (w is Ilike) ==> where_operator(w) == "ILIKE"@,
        (w is NotIlike) ==> where_operator(w) == "NOT "@ + "ILIKE"@,
        (w is IsNull) ==> where_operator(w) == "IS NULL"@,
        (w is NotIn) ==> where_operator(w) != where_operator(WhereModel::In(Seq::empty())),
        (w is NotLike) ==> where_operator(w) != where_operator(WhereModel::Like(Seq::empty())),
        (w is NotIlike) ==> where_operator(w) != where_operator(WhereModel::Ilike(Seq::empty())),
        (w is NotEquals) ==> where_operator(w) != where_operator(WhereModel::Equals(0)),
{
    reveal_strlit("NOT IN");
    reveal_strlit("NOT LIKE");
    reveal_strlit("NOT ILIKE");
    reveal_strlit("NOT ");
    reveal_strlit("IN");
    reveal_strlit("LIKE");
    reveal_strlit("ILIKE");
    reveal_strlit("!=");
    reveal_strlit("=");
    assert("!="@.len() == 2);
    assert("="@.len() == 1);
    assert("NOT "@ + "IN"@ =~= "NOT IN"@);
    assert("NOT "@ + "LIKE"@ =~= "NOT LIKE"@);
    assert("NOT "@ + "ILIKE"@ =~= "NOT ILIKE"@);
}

/// The text of a condition is its connective, its column and the operator of
/// its own comparison, in that order, separated by single spaces: it starts
/// with `AND ` or `OR `, and ends with a space and its comparison's operator.
pub proof fn lemma_condition_text_parts(c: CondModel)
    ensures
        c matches CondModel::And(f, w) ==> condition_text(c) == "AND "@ + f + " "@
            + where_operator(w),
        c matches CondModel::Or(f, w) ==> condition_text(c) == "OR "@ + f + " "@
            + where_operator(w),
        ({
            let t = condition_text(c);
            let op = where_operator(cond_where(c));
            &&& t.len() > op.len()
            &&& t.skip(t.len() - op.len() - 1) == " "@ + op
        }),
{
    reveal_strlit(" ");
    let t = condition_text(c);
    let op = where_operator(cond_where(c));
    match c {
        CondModel::And(f, w) => {
            assert(t.skip(t.len() - op.len() - 1) =~= " "@ + op);
        },
        CondModel::Or(f, w) => {
            assert(t.skip(t.len() - op.len() - 1) =~= " "@ + op);
        },
    }
}

/// The `i`-th piece of a `WHERE` clause ends with ` $` and a decimal numeral
/// that denotes `i + 1`: the placeholders are numbered from one, each with
/// its full number.
pub proof fn lemma_where_piece_placeholder(conds: Seq<CondModel>, i: int)
    requires
        0 <= i < conds.len(),
    ensures
        ({
            let d = decimal((i + 1) as nat);
            let p = where_piece(conds, i);
            &&& all_digits(d)
            &&& digits_value(d) == i + 1
            &&& p.len() >= d.len() + 2
            &&& p.skip(p.len() - d.len() - 2) == " $"@ + d
        }),
{
    reveal_strlit(" $");
    let d = decimal((i + 1) as nat);
    let p = where_piece(conds, i);
    lemma_decimal_digits((i + 1) as nat);
    assert(p.skip(p.len() - d.len() - 2) =~= " $"@ + d);
}

} // verus!
