//! The CRUD query generator: from a struct's name, optional table name and
//! annotated fields, the query texts and parameter lists of the generated
//! `get`, `create`, `update` (with one setter per column) and `delete`.

use vstd::prelude::*;

use crate::text::{ascii_lower, decimal, decimal_string, join, joined, texts, to_ascii_lowercase};

verus! {

/// A named field of the annotated struct, with its annotations.
pub struct FieldSpec {
    pub name: String,
    pub ty: String,
    /// `#[get(pk)]`: the primary key.
    pub pk: bool,
    /// `#[create(ignore)]`: not inserted.
    pub create_ignore: bool,
    /// `#[update(ignore)]`: not updated.
    pub update_ignore: bool,
}

/// A field as plain values.
pub struct FieldView {
    pub name: Seq<char>,
    pub ty: Seq<char>,
    pub pk: bool,
    pub create_ignore: bool,
    pub update_ignore: bool,
}

impl View for FieldSpec {
    type V = FieldView;

    open spec fn view(&self) -> FieldView {
        FieldView {
            name: self.name@,
            ty: self.ty@,
            pk: self.pk,
            create_ignore: self.create_ignore,
            update_ignore: self.update_ignore,
        }
    }
}

/// The annotated struct: its name, its `#[table(name = ..)]`, whether its
/// fields are named (`struct S { .. }`, rather than a tuple or unit struct),
/// and its fields.
pub struct StructSpec {
    pub ident: String,
    pub table: Option<String>,
    pub named: bool,
    pub fields: Vec<FieldSpec>,
}

/// The fields' views.
pub open spec fn field_views(fs: Seq<FieldSpec>) -> Seq<FieldView> {
    fs.map_values(|f: FieldSpec| f@)
}

/// A generated method: its name, its query, and its parameters after the
/// connection pool, which are also the query's bind values in order.
pub struct QueryPlan {
    pub method: String,
    pub query: String,
    pub params: Vec<FieldSpec>,
}

/// Why a generator refused the struct: it is not a struct with named
/// fields, or its primary key is missing or repeated; `attribute` is the
/// attribute name the message cites.
pub enum DeriveError {
    InvalidSyntax,
    MissingPrimaryKey { attribute: String },
    DuplicatePrimaryKey { attribute: String },
}

/// The message a refusal is reported with.
pub open spec fn derive_error_message(e: DeriveError) -> Seq<char> {
    match e {
        DeriveError::InvalidSyntax => "invalid syntax"@,
        DeriveError::MissingPrimaryKey { attribute } =>
            "`#["@ + attribute@ + "(pk)]` must be specified for the primary key"@,
        DeriveError::DuplicatePrimaryKey { attribute } =>
            "`#["@ + attribute@ + "(pk)]` can be used only once"@,
    }
}

impl DeriveError {
    /// The message the refusal is reported with.
    pub fn message(&self) -> (s: String)
        ensures
            s@ == derive_error_message(*self),
    {
        let mut s = String::from_str("`#[");
        match self {
            DeriveError::InvalidSyntax => {
                return String::from_str("invalid syntax");
            },
            DeriveError::MissingPrimaryKey { attribute } => {
                s.append(attribute.as_str());
                s.append("(pk)]` must be specified for the primary key");
            },
            DeriveError::DuplicatePrimaryKey { attribute } => {
                s.append(attribute.as_str());
                s.append("(pk)]` can be used only once");
            },
        }
        s
    }
}

/// The fields marked as primary key.
pub open spec fn pk_fields(fs: Seq<FieldView>) -> Seq<FieldView>
    decreases fs.len(),
{
    if fs.len() == 0 {
        Seq::<FieldView>::empty()
    } else if fs.last().pk {
        pk_fields(fs.drop_last()).push(fs.last())
    } else {
        pk_fields(fs.drop_last())
    }
}

/// The fields an insert sets.
pub open spec fn create_fields(fs: Seq<FieldView>) -> Seq<FieldView>
    decreases fs.len(),
{
    if fs.len() == 0 {
        Seq::<FieldView>::empty()
    } else if !fs.last().create_ignore {
        create_fields(fs.drop_last()).push(fs.last())
    } else {
        create_fields(fs.drop_last())
    }
}

/// The fields an update sets: neither ignored nor the primary key.
pub open spec fn update_fields(fs: Seq<FieldView>) -> Seq<FieldView>
    decreases fs.len(),
{
    if fs.len() == 0 {
        Seq::<FieldView>::empty()
    } else if !fs.last().update_ignore && !fs.last().pk {
        update_fields(fs.drop_last()).push(fs.last())
    } else {
        update_fields(fs.drop_last())
    }
}

/// The names of fields.
pub open spec fn names(fs: Seq<FieldView>) -> Seq<Seq<char>> {
    fs.map_values(|f: FieldView| f.name)
}

/// The table: the given name, else the struct's name in ASCII lower case.
pub open spec fn table_of(ident: Seq<char>, table: Option<Seq<char>>) -> Seq<char> {
    match table {
        Some(t) => t,
        None => ident.map_values(|c: char| ascii_lower(c)),
    }
}

/// The table of a struct.
pub open spec fn struct_table(s: StructSpec) -> Seq<char> {
    table_of(s.ident@, match s.table { Some(t) => Some(t@), None => None })
}

/// `$n`.
pub open spec fn placeholder(n: nat) -> Seq<char> {
    "$"@ + decimal(n)
}

/// `$from`, `$from+1`, ... (`count` of them).
pub open spec fn placeholders(from: nat, count: nat) -> Seq<Seq<char>> {
    Seq::new(count, |i: int| placeholder((from + i) as nat))
}

/// `col = $n` for each column, numbered from `from`.
pub open spec fn assignments(cols: Seq<Seq<char>>, from: nat) -> Seq<Seq<char>> {
    Seq::new(cols.len(), |i: int| cols[i] + " = "@ + placeholder((from + i) as nat))
}

/// The query of `get`.
pub open spec fn select_query(table: Seq<char>, pk: Seq<char>) -> Seq<char> {
    "SELECT * FROM "@ + table + " WHERE "@ + pk + " = $1"@
}

/// The query of `create`.
pub open spec fn insert_query(table: Seq<char>, cols: Seq<Seq<char>>) -> Seq<char> {
    "INSERT INTO "@ + table + " ("@ + joined(cols, ", "@) + ") VALUES ("@
        + joined(placeholders(1, cols.len()), ", "@) + ")"@
}

/// The query of `update`: the columns from `$2` on, the key as `$1`.
pub open spec fn update_query(table: Seq<char>, pk: Seq<char>, cols: Seq<Seq<char>>) -> Seq<char> {
    "UPDATE "@ + table + " SET "@ + joined(assignments(cols, 2), ","@) + " WHERE "@ + pk + " = $1"@
}

/// The query of the setter of `col`: it assigns the key column from `$1`
/// where `col` equals `$2`.
pub open spec fn setter_query(table: Seq<char>, pk: Seq<char>, col: Seq<char>) -> Seq<char> {
    "UPDATE "@ + table + " SET "@ + pk + " = $1 WHERE "@ + col + " = $2"@
}

/// The query of `delete`.
pub open spec fn delete_query(table: Seq<char>, pk: Seq<char>) -> Seq<char> {
    "DELETE FROM "@ + table + " WHERE "@ + pk + " = $1"@
}

/// The outcome of looking for the one primary key, with the attribute name
/// the error messages cite.
pub open spec fn pk_outcome_ok(fs: Seq<FieldView>) -> bool {
    pk_fields(fs).len() == 1
}

fn copy_field(f: &FieldSpec) -> (r: FieldSpec)
    ensures
        r@ == f@,
{
    FieldSpec {
        name: f.name.clone(),
        ty: f.ty.clone(),
        pk: f.pk,
        create_ignore: f.create_ignore,
        update_ignore: f.update_ignore,
    }
}

/// The fields of `s` that satisfy the selection `which`: 0 primary keys,
/// 1 inserted fields, 2 updated fields.
fn select_fields(fs: &Vec<FieldSpec>, which: u8) -> (r: Vec<FieldSpec>)
    requires
        which <= 2,
    ensures
        which == 0 ==> field_views(r@) == pk_fields(field_views(fs@)),
        which == 1 ==> field_views(r@) == create_fields(field_views(fs@)),
        which == 2 ==> field_views(r@) == update_fields(field_views(fs@)),
{
    let mut r: Vec<FieldSpec> = Vec::new();
    let mut i: usize = 0;
    while i < fs.len()
        invariant
            which <= 2,
            i <= fs@.len(),
            which == 0 ==> field_views(r@) == pk_fields(field_views(fs@).take(i as int)),
            which == 1 ==> field_views(r@) == create_fields(field_views(fs@).take(i as int)),
            which == 2 ==> field_views(r@) == update_fields(field_views(fs@).take(i as int)),
        decreases fs@.len() - i,
    {
        let f = &fs[i];
        let keep = if which == 0 {
            f.pk
        } else if which == 1 {
            !f.create_ignore
        } else {
            !f.update_ignore && !f.pk
        };
        let ghost before = r@;
        if keep {
            r.push(copy_field(f));
        }
        proof {
            let all = field_views(fs@);
            assert(all.take(i + 1).drop_last() =~= all.take(i as int));
            assert(all.take(i + 1).last() == fs@[i as int]@);
            if keep {
                assert(field_views(r@) =~= field_views(before).push(fs@[i as int]@));
            } else {
                assert(field_views(r@) =~= field_views(before));
            }
        }
        i = i + 1;
    }
    assert(field_views(fs@).take(i as int) =~= field_views(fs@));
    r
}

/// The table of `s`.
fn table_name(s: &StructSpec) -> (t: String)
    ensures
        t@ == struct_table(*s),
{
    match &s.table {
        Some(t) => t.clone(),
        None => to_ascii_lowercase(s.ident.as_str()),
    }
}

/// The names of a list of fields.
fn field_names(fs: &Vec<FieldSpec>) -> (r: Vec<String>)
    ensures
        texts(r@) == names(field_views(fs@)),
{
    let mut r: Vec<String> = Vec::new();
    let mut i: usize = 0;
    while i < fs.len()
        invariant
            i <= fs@.len(),
            r@.len() == i,
            texts(r@) == names(field_views(fs@)).take(i as int),
        decreases fs@.len() - i,
    {
        let n = fs[i].name.clone();
        let ghost before = r@;
        r.push(n);
        proof {
            assert(r@ == before.push(n));
            assert(texts(r@)[i as int] == n@);
            assert(names(field_views(fs@))[i as int] == fs@[i as int].name@);
        }
        i = i + 1;
        assert(texts(r@) =~= names(field_views(fs@)).take(i as int));
    }
    assert(names(field_views(fs@)).take(i as int) =~= names(field_views(fs@)));
    r
}

/// `$n` as text.
fn placeholder_text(n: u128) -> (s: String)
    ensures
        s@ == placeholder(n as nat),
{
    let mut s = String::from_str("$");
    let d = decimal_string(n);
    s.append(d.as_str());
    s
}

/// Finds the one primary key, or the error citing `attribute`.
fn the_pk(fs: &Vec<FieldSpec>, attribute: &str) -> (r: Result<FieldSpec, DeriveError>)
    ensures
        pk_fields(field_views(fs@)).len() == 0 <==> r matches Err(DeriveError::MissingPrimaryKey { attribute: a }),
        pk_fields(field_views(fs@)).len() >= 2 <==> r matches Err(DeriveError::DuplicatePrimaryKey { attribute: a }),
        r matches Err(DeriveError::MissingPrimaryKey { attribute: a }) ==> a@ == attribute@,
        r matches Err(DeriveError::DuplicatePrimaryKey { attribute: a }) ==> a@ == attribute@,
        r matches Ok(f) ==> pk_fields(field_views(fs@)) == seq![f@],
{
    let pks = select_fields(fs, 0);
    proof {
        assert(field_views(pks@).len() == pks@.len());
    }
    if pks.len() == 0 {
        Err(DeriveError::MissingPrimaryKey { attribute: String::from_str(attribute) })
    } else if pks.len() == 1 {
        let f = copy_field(&pks[0]);
        assert(field_views(pks@) =~= seq![f@]);
        Ok(f)
    } else {
        Err(DeriveError::DuplicatePrimaryKey { attribute: String::from_str(attribute) })
    }
}

/// The generated `get`: it selects the row whose key equals its one
/// parameter, the primary key. Refused for a struct without named fields,
/// and unless exactly one field is the key;
/// the messages cite `get`.
pub fn get(s: &StructSpec) -> (r: Result<QueryPlan, DeriveError>)
    ensures
        !s.named ==> r matches Err(DeriveError::InvalidSyntax),
        s.named ==> (pk_fields(field_views(s.fields@)).len() == 0 <==> r matches Err(DeriveError::MissingPrimaryKey { attribute: a })),
        s.named ==> (pk_fields(field_views(s.fields@)).len() >= 2 <==> r matches Err(DeriveError::DuplicatePrimaryKey { attribute: a })),
        r matches Err(DeriveError::MissingPrimaryKey { attribute: a }) ==> a@ == "get"@,
        r matches Err(DeriveError::DuplicatePrimaryKey { attribute: a }) ==> a@ == "get"@,
        r matches Ok(p) ==> {
            &&& p.method@ == "get"@
            &&& field_views(p.params@) == pk_fields(field_views(s.fields@))
            &&& p.query@ == select_query(struct_table(*s), pk_fields(field_views(s.fields@))[0].name)
        },
{
    if !s.named {
        return Err(DeriveError::InvalidSyntax);
    }
    let pk = match the_pk(&s.fields, "get") {
        Ok(f) => f,
        Err(e) => return Err(e),
    };
    let table = table_name(s);
    let mut q = String::from_str("SELECT * FROM ");
    q.append(table.as_str());
    q.append(" WHERE ");
    q.append(pk.name.as_str());
    q.append(" = $1");
    let mut params: Vec<FieldSpec> = Vec::new();
    params.push(pk);
    assert(field_views(params@) =~= pk_fields(field_views(s.fields@)));
    Ok(QueryPlan { method: String::from_str("get"), query: q, params })
}

/// The generated `create`: it inserts the fields not marked
/// `#[create(ignore)]`, bound in field order from `$1`. Refused for a struct
/// without named fields.
pub fn create(s: &StructSpec) -> (r: Result<QueryPlan, DeriveError>)
    ensures
        !s.named ==> r matches Err(DeriveError::InvalidSyntax),
        s.named ==> (r matches Ok(p) && {
            &&& p.method@ == "create"@
            &&& field_views(p.params@) == create_fields(field_views(s.fields@))
            &&& p.query@ == insert_query(struct_table(*s), names(create_fields(field_views(s.fields@))))
        }),
{
    if !s.named {
        return Err(DeriveError::InvalidSyntax);
    }
    let cols = select_fields(&s.fields, 1);
    let col_names = field_names(&cols);
    let mut marks: Vec<String> = Vec::new();
    let mut i: usize = 0;
    while i < cols.len()
        invariant
            i <= cols@.len(),
            marks@.len() == i,
            texts(marks@) == placeholders(1, cols@.len()).take(i as int),
        decreases cols@.len() - i,
    {
        let m = placeholder_text(i as u128 + 1);
        let ghost before = marks@;
        marks.push(m);
        proof {
            assert(marks@ == before.push(m));
            assert(texts(marks@)[i as int] == m@);
            assert(placeholders(1, cols@.len())[i as int] == placeholder((1 + i) as nat));
        }
        i = i + 1;
        assert(texts(marks@) =~= placeholders(1, cols@.len()).take(i as int));
    }
    assert(placeholders(1, cols@.len()).take(i as int) =~= placeholders(1, cols@.len()));
    assert(field_views(cols@).len() == cols@.len());
    assert(names(field_views(cols@)).len() == cols@.len());
    let table = table_name(s);
    let mut q = String::from_str("INSERT INTO ");
    q.append(table.as_str());
    q.append(" (");
    let cl = join(&col_names, ", ");
    q.append(cl.as_str());
    q.append(") VALUES (");
    let ml = join(&marks, ", ");
    q.append(ml.as_str());
    q.append(")");
    Ok(QueryPlan { method: String::from_str("create"), query: q, params: cols })
}

/// The generated `delete`: it deletes the row whose key equals its one
/// parameter, the primary key. Refused for a struct without named fields,
/// and unless exactly one field is the key;
/// the messages cite `delete`.
pub fn delete(s: &StructSpec) -> (r: Result<QueryPlan, DeriveError>)
    ensures
        !s.named ==> r matches Err(DeriveError::InvalidSyntax),
        s.named ==> (pk_fields(field_views(s.fields@)).len() == 0 <==> r matches Err(DeriveError::MissingPrimaryKey { attribute: a })),
        s.named ==> (pk_fields(field_views(s.fields@)).len() >= 2 <==> r matches Err(DeriveError::DuplicatePrimaryKey { attribute: a })),
        r matches Err(DeriveError::MissingPrimaryKey { attribute: a }) ==> a@ == "delete"@,
        r matches Err(DeriveError::DuplicatePrimaryKey { attribute: a }) ==> a@ == "delete"@,
        r matches Ok(p) ==> {
            &&& p.method@ == "delete"@
            &&& field_views(p.params@) == pk_fields(field_views(s.fields@))
            &&& p.query@ == delete_query(struct_table(*s), pk_fields(field_views(s.fields@))[0].name)
        },
{
    if !s.named {
        return Err(DeriveError::InvalidSyntax);
    }
    let pk = match the_pk(&s.fields, "delete") {
        Ok(f) => f,
        Err(e) => return Err(e),
    };
    let table = table_name(s);
    let mut q = String::from_str("DELETE FROM ");
    q.append(table.as_str());
    q.append(" WHERE ");
    q.append(pk.name.as_str());
    q.append(" = $1");
    let mut params: Vec<FieldSpec> = Vec::new();
    params.push(pk);
    assert(field_views(params@) =~= pk_fields(field_views(s.fields@)));
    Ok(QueryPlan { method: String::from_str("delete"), query: q, params })
}


/// The setter of column `col`: named `set_<col>`, taking the key and the
/// column.
pub open spec fn is_setter(p: QueryPlan, table: Seq<char>, pk: FieldView, col: FieldView) -> bool {
    &&& p.method@ == "set_"@ + col.name
    &&& field_views(p.params@) == seq![pk, col]
    &&& p.query@ == setter_query(table, pk.name, col.name)
}

/// The generated `update` and setters: `update` takes the key and the updated
/// columns and sets those columns on the key's row; then one setter per
/// updated column, in field order. Refused for a struct without named
/// fields, and unless exactly one field is the key; the key's messages cite
/// `delete`.
pub fn update(s: &StructSpec) -> (r: Result<Vec<QueryPlan>, DeriveError>)
    ensures
        !s.named ==> r matches Err(DeriveError::InvalidSyntax),
        s.named ==> (pk_fields(field_views(s.fields@)).len() == 0 <==> r matches Err(DeriveError::MissingPrimaryKey { attribute: a })),
        s.named ==> (pk_fields(field_views(s.fields@)).len() >= 2 <==> r matches Err(DeriveError::DuplicatePrimaryKey { attribute: a })),
        r matches Err(DeriveError::MissingPrimaryKey { attribute: a }) ==> a@ == "delete"@,
        r matches Err(DeriveError::DuplicatePrimaryKey { attribute: a }) ==> a@ == "delete"@,
        r matches Ok(plans) ==> {
            let pk = pk_fields(field_views(s.fields@))[0];
            let cols = update_fields(field_views(s.fields@));
            &&& plans@.len() == cols.len() + 1
            &&& plans@[0].method@ == "update"@
            &&& field_views(plans@[0].params@) == seq![pk] + cols
            &&& plans@[0].query@ == update_query(struct_table(*s), pk.name, names(cols))
            &&& forall|k: int| 0 <= k < cols.len() ==> is_setter(#[trigger] plans@[k + 1], struct_table(*s), pk, cols[k])
        },
{
    if !s.named {
        return Err(DeriveError::InvalidSyntax);
    }
    let pk = match the_pk(&s.fields, "delete") {
        Ok(f) => f,
        Err(e) => return Err(e),
    };
    let cols = select_fields(&s.fields, 2);
    let col_names = field_names(&cols);
    let table = table_name(s);
    let ghost cv = field_views(cols@);
    assert(cv.len() == cols@.len());
    assert(names(cv).len() == cols@.len());

    let mut sets: Vec<String> = Vec::new();
    let mut i: usize = 0;
    while i < cols.len()
        invariant
            i <= cols@.len(),
            texts(col_names@) == names(cv),
            cv == field_views(cols@),
            sets@.len() == i,
            texts(sets@) == assignments(names(cv), 2).take(i as int),
        decreases cols@.len() - i,
    {
        let mut a = cols[i].name.clone();
        a.append(" = ");
        let m = placeholder_text(i as u128 + 2);
        a.append(m.as_str());
        let ghost before = sets@;
        sets.push(a);
        proof {
            assert(sets@ == before.push(a));
            assert(texts(sets@)[i as int] == a@);
            assert(assignments(names(cv), 2)[i as int] == names(cv)[i as int] + " = "@ + placeholder((2 + i) as nat));
            assert(names(cv)[i as int] == cols@[i as int].name@);
            assert(a@ =~= names(cv)[i as int] + " = "@ + placeholder((2 + i) as nat));
        }
        i = i + 1;
        assert(texts(sets@) =~= assignments(names(cv), 2).take(i as int));
    }
    assert(assignments(names(cv), 2).take(i as int) =~= assignments(names(cv), 2));

    let mut q = String::from_str("UPDATE ");
    q.append(table.as_str());
    q.append(" SET ");
    let sl = join(&sets, ",");
    q.append(sl.as_str());
    q.append(" WHERE ");
    q.append(pk.name.as_str());
    q.append(" = $1");

    let mut params: Vec<FieldSpec> = Vec::new();
    params.push(copy_field(&pk));
    let mut j: usize = 0;
    while j < cols.len()
        invariant
            j <= cols@.len(),
            cv == field_views(cols@),
            field_views(params@) == seq![pk@] + cv.take(j as int),
        decreases cols@.len() - j,
    {
        let ghost before = params@;
        let f = copy_field(&cols[j]);
        params.push(f);
        proof {
            assert(params@ == before.push(f));
            assert(field_views(params@) =~= field_views(before).push(f@));
            assert(f@ == cv[j as int]);
            assert(cv.take(j + 1) =~= cv.take(j as int).push(cv[j as int]));
        }
        j = j + 1;
        assert(field_views(params@) =~= seq![pk@] + cv.take(j as int));
    }
    assert(cv.take(j as int) =~= cv);

    let mut plans: Vec<QueryPlan> = Vec::new();
    plans.push(QueryPlan { method: String::from_str("update"), query: q, params });
    let mut k: usize = 0;
    while k < cols.len()
        invariant
            k <= cols@.len(),
            cv == field_views(cols@),
            table@ == struct_table(*s),
            plans@.len() == k + 1,
            plans@[0].method@ == "update"@,
            field_views(plans@[0].params@) == seq![pk@] + cv,
            plans@[0].query@ == update_query(struct_table(*s), pk@.name, names(cv)),
            forall|t: int| 0 <= t < k ==> is_setter(#[trigger] plans@[t + 1], struct_table(*s), pk@, cv[t]),
        decreases cols@.len() - k,
    {
        let col = &cols[k];
        let mut method = String::from_str("set_");
        method.append(col.name.as_str());
        let mut sq = String::from_str("UPDATE ");
        sq.append(table.as_str());
        sq.append(" SET ");
        sq.append(pk.name.as_str());
        sq.append(" = $1 WHERE ");
        sq.append(col.name.as_str());
        sq.append(" = $2");
        let mut ps: Vec<FieldSpec> = Vec::new();
        ps.push(copy_field(&pk));
        ps.push(copy_field(col));
        assert(field_views(ps@) =~= seq![pk@, cv[k as int]]);
        let plan = QueryPlan { method, query: sq, params: ps };
        assert(is_setter(plan, struct_table(*s), pk@, cv[k as int]));
        let ghost before = plans@;
        plans.push(plan);
        assert forall|t: int| 0 <= t < k + 1 implies is_setter(#[trigger] plans@[t + 1], struct_table(*s), pk@, cv[t]) by {
            if t < k {
                assert(plans@[t + 1] == before[t + 1]);
            }
        }
        k = k + 1;
    }
    Ok(plans)
}

} // verus!
