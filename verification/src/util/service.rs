//! What every model shares: the names of its tables, its column list, and the
//! CQL text of the queries run against it, with what is kept of their results.
use vstd::prelude::*;

use crate::util::id::{hyphenated, uuid_string};

verus! {

/// `EnumValues` gives the string value of an enum variant: the name of a
/// table or of a materialized view.
pub trait EnumValues {
    /// The name that `as_str` gives for this variant.
    spec fn spec_as_str(&self) -> Seq<char>;

    fn as_str(&self) -> (name: &'static str)
        ensures
            name@ == self.spec_as_str(),
    ;
}

/// `Model` gives the basic properties of a model: the tables it is stored in,
/// its columns, and one insert placeholder per column.
pub trait Model {
    /// The tables (and materialized views) that hold the model.
    type Tables: EnumValues;

    /// The model's column names, in the order in which they are written.
    spec fn spec_columns() -> Seq<Seq<char>>;

    /// A comma separated list of all the columns in the table, to stand in
    /// place of an asterisk in a query.
    fn asterisk() -> (columns: &'static str)
        ensures
            columns@ == column_list(Self::spec_columns()),
    ;

    /// A comma separated list of question marks, one for each column, for the
    /// values of an insert query.
    fn values() -> (marks: &'static str)
        ensures
            marks@ == placeholders(Self::spec_columns().len()),
    ;
}

/// The separator of the items of a list in a query.
pub open spec fn separator() -> Seq<char> {
    seq![',', ' ']
}

/// `items` joined by ", ".
pub open spec fn column_list(items: Seq<Seq<char>>) -> Seq<char>
    decreases items.len(),
{
    if items.len() == 0 {
        Seq::empty()
    } else if items.len() == 1 {
        items[0]
    } else {
        column_list(items.drop_last()) + separator() + items.last()
    }
}

/// `n` question marks joined by ", ".
pub open spec fn placeholders(n: nat) -> Seq<char> {
    column_list(Seq::new(n, |i: int| seq!['?']))
}

/// The number of commas in `text`.
pub open spec fn comma_count(text: Seq<char>) -> nat
    decreases text.len(),
{
    if text.len() == 0 {
        0
    } else {
        comma_count(text.drop_last()) + if text.last() == ',' {
            1nat
        } else {
            0nat
        }
    }
}

/// The number of items of a list joined by ", ": one more than the number of
/// commas, or none for the empty text.
pub open spec fn item_count(text: Seq<char>) -> nat {
    if text.len() == 0 {
        0
    } else {
        comma_count(text) + 1
    }
}

/// A name that can stand in a comma separated list: not empty, and without
/// a comma.
pub open spec fn is_list_item(name: Seq<char>) -> bool {
    name.len() > 0 && !name.contains(',')
}

proof fn lemma_comma_count_add(a: Seq<char>, b: Seq<char>)
    ensures
        comma_count(a + b) == comma_count(a) + comma_count(b),
    decreases b.len(),
{
    if b.len() == 0 {
        assert(a + b =~= a);
    } else {
        lemma_comma_count_add(a, b.drop_last());
        assert((a + b).drop_last() =~= a + b.drop_last());
    }
}

proof fn lemma_comma_count_none(name: Seq<char>)
    requires
        !name.contains(','),
    ensures
        comma_count(name) == 0,
    decreases name.len(),
{
    if name.len() > 0 {
        assert(name.drop_last().contains(',') ==> name.contains(','));
        lemma_comma_count_none(name.drop_last());
        assert(name[name.len() - 1] == name.last());
    }
}

/// A list joined from `n` items names exactly `n` items, and is empty
/// exactly when there are none.
proof fn lemma_column_list_count(items: Seq<Seq<char>>)
    requires
        forall|i: int| 0 <= i < items.len() ==> is_list_item(#[trigger] items[i]),
    ensures
        comma_count(column_list(items)) + 1 == items.len() || items.len() == 0,
        column_list(items).len() == 0 <==> items.len() == 0,
    decreases items.len(),
{
    if items.len() == 1 {
        assert(is_list_item(items[0]));
        lemma_comma_count_none(items[0]);
    } else if items.len() > 1 {
        let rest = items.drop_last();
        assert forall|i: int| 0 <= i < rest.len() implies is_list_item(#[trigger] rest[i]) by {
            assert(rest[i] == items[i]);
        }
        lemma_column_list_count(rest);
        assert(is_list_item(items[items.len() - 1]));
        lemma_comma_count_none(items.last());
        lemma_comma_count_add(column_list(rest) + separator(), items.last());
        lemma_comma_count_add(column_list(rest), separator());
        reveal_with_fuel(comma_count, 3);
        assert(separator().drop_last() =~= seq![',']);
        assert(seq![','].drop_last() =~= Seq::<char>::empty());
    }
}

/// The column list of a model whose column names are list items names one
/// item per column, and its insert placeholders hold one mark per column:
/// an insert query binds a value to every column and to no other.
pub proof fn lemma_one_mark_per_column(columns: Seq<Seq<char>>)
    requires
        forall|i: int| 0 <= i < columns.len() ==> is_list_item(#[trigger] columns[i]),
    ensures
        item_count(column_list(columns)) == columns.len(),
        item_count(placeholders(columns.len())) == columns.len(),
{
    lemma_column_list_count(columns);
    let marks = Seq::new(columns.len(), |i: int| seq!['?']);
    assert forall|i: int| 0 <= i < marks.len() implies is_list_item(#[trigger] marks[i]) by {
        assert(marks[i] =~= seq!['?']);
        assert(!seq!['?'].contains(',')) by {
            if seq!['?'].contains(',') {
                let k = choose|k: int| 0 <= k < seq!['?'].len() && seq!['?'][k] == ',';
                assert(k == 0);
            }
        }
    }
    lemma_column_list_count(marks);
}

/// `SELECT {columns} FROM {table} WHERE {key} = ?`
pub open spec fn select_by_key_text(columns: Seq<char>, table: Seq<char>, key: Seq<char>) -> Seq<
    char,
> {
    "SELECT "@ + columns + " FROM "@ + table + " WHERE "@ + key + " = ?"@
}

/// `SELECT {columns} FROM {table} WHERE {key} IN ?`
pub open spec fn select_by_keys_text(columns: Seq<char>, table: Seq<char>, key: Seq<char>) -> Seq<
    char,
> {
    "SELECT "@ + columns + " FROM "@ + table + " WHERE "@ + key + " IN ?"@
}

/// `INSERT INTO {table} ({columns}) VALUES ({marks})`
pub open spec fn insert_text(table: Seq<char>, columns: Seq<char>, marks: Seq<char>) -> Seq<char> {
    "INSERT INTO "@ + table + " ("@ + columns + ") VALUES ("@ + marks + ")"@
}

/// The query that fetches the rows of `T` in `table` whose `key` column
/// equals the one bound value.
pub fn select_by_key_query<T: Model>(table: &T::Tables, key: &str) -> (query: String)
    ensures
        query@ == select_by_key_text(
            column_list(T::spec_columns()),
            table.spec_as_str(),
            key@,
        ),
        query@ == "SELECT "@ + column_list(T::spec_columns()) + " FROM "@ + table.spec_as_str()
            + " WHERE "@ + key@ + " = ?"@,
{
    let mut query = String::from_str("SELECT ");
    query.append(T::asterisk());
    query.append(" FROM ");
    query.append(table.as_str());
    query.append(" WHERE ");
    query.append(key);
    query.append(" = ?");
    query
}

/// The query that fetches the rows of `T` in `table` whose `key` column
/// is one of the bound list of values.
pub fn select_by_keys_query<T: Model>(table: &T::Tables, key: &str) -> (query: String)
    ensures
        query@ == select_by_keys_text(
            column_list(T::spec_columns()),
            table.spec_as_str(),
            key@,
        ),
        query@ == "SELECT "@ + column_list(T::spec_columns()) + " FROM "@ + table.spec_as_str()
            + " WHERE "@ + key@ + " IN ?"@,
{
    let mut query = String::from_str("SELECT ");
    query.append(T::asterisk());
    query.append(" FROM ");
    query.append(table.as_str());
    query.append(" WHERE ");
    query.append(key);
    query.append(" IN ?");
    query
}

/// The query that inserts one row of `T` into `table`, binding one value per
/// column.
pub fn insert_query<T: Model>(table: &T::Tables) -> (query: String)
    ensures
        query@ == insert_text(
            table.spec_as_str(),
            column_list(T::spec_columns()),
            placeholders(T::spec_columns().len()),
        ),
        query@ == "INSERT INTO "@ + table.spec_as_str() + " ("@ + column_list(T::spec_columns())
            + ") VALUES ("@ + placeholders(T::spec_columns().len()) + ")"@,
{
    let mut query = String::from_str("INSERT INTO ");
    query.append(table.as_str());
    query.append(" (");
    query.append(T::asterisk());
    query.append(") VALUES (");
    query.append(T::values());
    query.append(")");
    query
}

/// The values of the rows that could be read as the model, in order; rows
/// that could not are left out.
pub open spec fn parsed_rows<T, E>(rows: Seq<Result<T, E>>) -> Seq<T>
    decreases rows.len(),
{
    if rows.len() == 0 {
        Seq::empty()
    } else {
        let kept = parsed_rows(rows.drop_last());
        match rows.last() {
            Ok(value) => kept.push(value),
            Err(_) => kept,
        }
    }
}

/// What a lookup of many rows answers with: the rows that could be read as
/// the model, in order, when the query returned rows; none when it did not.
pub fn collect_rows<T, E, F>(rows: Result<Vec<Result<T, E>>, F>) -> (kept: Vec<T>)
    ensures
        kept@ == match rows {
            Ok(rows) => parsed_rows(rows@),
            Err(_) => Seq::empty(),
        },
        rows is Err ==> kept@.len() == 0,
        rows is Ok ==> kept@.len() <= rows->Ok_0@.len(),
        rows is Ok && (forall|i: int| 0 <= i < rows->Ok_0@.len() ==> #[trigger] rows->Ok_0@[i] is Ok)
            ==> kept@.len() == rows->Ok_0@.len() && forall|i: int|
            0 <= i < kept@.len() ==> #[trigger] kept@[i] == rows->Ok_0@[i]->Ok_0,
{
    let mut kept: Vec<T> = Vec::new();
    match rows {
        Ok(rows) => {
            let ghost all = rows@;
            for row in it: rows.into_iter()
                invariant
                    it.seq() == all,
                    kept@ == parsed_rows(all.take(it.index() as int)),
            {
                proof {
                    assert(all.take(it.index() + 1).drop_last() =~= all.take(it.index() as int));
                }
                match row {
                    Ok(value) => kept.push(value),
                    Err(_) => {},
                }
            }
            proof {
                assert(all.take(all.len() as int) =~= all);
                lemma_parsed_rows_len(all);
                lemma_parsed_rows_all_ok(all);
            }
        },
        Err(_) => {},
    }
    kept
}

/// What a lookup of one row answers with: the row when exactly one row could
/// be read as the model, nothing otherwise.
pub fn single_row<T, E>(row: Result<T, E>) -> (found: Option<T>)
    ensures
        found == match row {
            Ok(value) => Some(value),
            Err(_) => None::<T>,
        },
{
    match row {
        Ok(value) => Some(value),
        Err(_) => None,
    }
}

/// The key column and the bound value of a lookup by id: the column `id`,
/// and the id in its hyphenated text form.
pub fn id_lookup(id: u128) -> (lookup: (&'static str, String))
    ensures
        lookup.0@ == "id"@,
        lookup.1@ == hyphenated(id),
{
    ("id", uuid_string(id))
}

/// Reading rows keeps each row that parsed, in the order the rows came, and
/// drops each row that did not: no rows give none, a parsed row adds its
/// value at the end, and an unparsed row adds nothing.
pub proof fn lemma_parsed_rows_laws<T, E>(rows: Seq<Result<T, E>>, value: T, error: E)
    ensures
        parsed_rows(Seq::<Result<T, E>>::empty()) == Seq::<T>::empty(),
        parsed_rows(rows.push(Ok(value))) == parsed_rows(rows).push(value),
        parsed_rows(rows.push(Err(error))) == parsed_rows(rows),
{
    assert(rows.push(Ok(value)).drop_last() =~= rows);
    assert(rows.push(Err(error)).drop_last() =~= rows);
}

/// Reading rows never gives more values than there were rows.
pub proof fn lemma_parsed_rows_len<T, E>(rows: Seq<Result<T, E>>)
    ensures
        parsed_rows(rows).len() <= rows.len(),
    decreases rows.len(),
{
    if rows.len() > 0 {
        lemma_parsed_rows_len(rows.drop_last());
    }
}

/// When every row parsed, reading them gives every value, each in the place
/// of its row.
pub proof fn lemma_parsed_rows_all_ok<T, E>(rows: Seq<Result<T, E>>)
    ensures
        (forall|i: int| 0 <= i < rows.len() ==> #[trigger] rows[i] is Ok) ==> {
            &&& parsed_rows(rows).len() == rows.len()
            &&& forall|i: int| 0 <= i < rows.len() ==> #[trigger] parsed_rows(rows)[i] == rows[i]->Ok_0
        },
    decreases rows.len(),
{
    if rows.len() > 0 && (forall|i: int| 0 <= i < rows.len() ==> #[trigger] rows[i] is Ok) {
        let rest = rows.drop_last();
        assert forall|i: int| 0 <= i < rest.len() implies #[trigger] rest[i] is Ok by {
            assert(rest[i] == rows[i]);
        }
        lemma_parsed_rows_all_ok(rest);
        assert(rows[rows.len() - 1] is Ok);
        assert forall|i: int| 0 <= i < rows.len() implies #[trigger] parsed_rows(rows)[i]
            == rows[i]->Ok_0 by {
            if i < rest.len() {
                assert(rest[i] == rows[i]);
            }
        }
    }
}

/// The three query shapes, whatever the columns, table, key and marks: a
/// lookup by one key always compares with `= ?`, a lookup by many keys
/// always with `IN ?`, and an insert lists the columns and then the marks.
pub proof fn lemma_query_shapes(columns: Seq<char>, table: Seq<char>, key: Seq<char>, marks: Seq<char>)
    ensures
        select_by_key_text(columns, table, key) == "SELECT "@ + columns + " FROM "@ + table
            + " WHERE "@ + key + " = ?"@,
        select_by_keys_text(columns, table, key) == "SELECT "@ + columns + " FROM "@ + table
            + " WHERE "@ + key + " IN ?"@,
        insert_text(table, columns, marks) == "INSERT INTO "@ + table + " ("@ + columns
            + ") VALUES ("@ + marks + ")"@,
{
}

/// A column list is its items joined by ", ": nothing for no items, the item
/// itself for one, and one more item adds ", " and that item at the end.
pub proof fn lemma_column_list_shape(items: Seq<Seq<char>>, item: Seq<char>)
    ensures
        column_list(Seq::<Seq<char>>::empty()) == Seq::<char>::empty(),
        column_list(seq![item]) == item,
        items.len() > 0 ==> column_list(items.push(item)) == column_list(items) + ", "@ + item,
{
    reveal_strlit(", ");
    assert(", "@ =~= separator());
    assert(items.push(item).drop_last() =~= items);
}

/// The insert marks are `?`, then `, ?` once for each further column.
pub proof fn lemma_placeholders_shape(n: nat)
    ensures
        placeholders(0) == Seq::<char>::empty(),
        placeholders(1) == "?"@,
        n > 0 ==> placeholders(n + 1) == placeholders(n) + ", ?"@,
{
    reveal_strlit("?");
    reveal_strlit(", ?");
    let one = Seq::new(1, |i: int| seq!['?']);
    assert(one[0] == seq!['?']);
    assert("?"@ =~= seq!['?']);
    if n > 0 {
        let more = Seq::new(n + 1, |i: int| seq!['?']);
        let fewer = Seq::new(n, |i: int| seq!['?']);
        assert(more.drop_last() =~= fewer);
        assert(more.last() == seq!['?']);
        assert(", ?"@ =~= separator() + seq!['?']);
        assert(column_list(more) == column_list(fewer) + separator() + seq!['?']);
        assert(placeholders(n) + ", ?"@ =~= column_list(fewer) + separator() + seq!['?']);
    }
}

} // verus!
