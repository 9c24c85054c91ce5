//! The machine's database: the kinds of log entries, the running totals,
//! the tables that hold them and the statements that fill them.
use vstd::prelude::*;
use crate::text::{join_texts, joined, texts};

verus! {

/// The kinds of log entries, stored as small integers.
#[non_exhaustive]
pub struct LogType;

impl LogType {
    pub const LOG_SNAPSHOT: u8 = 1;
    pub const LOG_STEPS_LEFT: u8 = 2;
    pub const LOG_STEPS_RIGHT: u8 = 3;
    pub const LOG_STEPS_DOWN: u8 = 4;
    pub const LOG_STEPS_UP: u8 = 5;
    pub const LOG_STEPS_FORWARD: u8 = 6;
    pub const LOG_STEPS_BACK: u8 = 7;
    pub const LOG_RELAY_LIGHT: u8 = 8;
    pub const LOG_RELAY_VACCUUM: u8 = 9;
    pub const LOG_APP_START: u8 = 10;
    pub const LOG_APP_EXIT: u8 = 11;
    pub const LOG_APP_RIPPING_START: u8 = 12;
    pub const LOG_APP_RIPPING_STOP: u8 = 13;
}


/// The running totals kept in the single row of the `totals` table.
#[derive(Debug, Clone, Copy, PartialEq, Eq, Structural)]
pub enum TotalType {
    StepsLeft,
    StepsRight,
    StepsDown,
    StepsUp,
    StepsForward,
    StepsBack,
    ImagesTaken,
    CdRipped,
    DvdRipped,
    BrayRipped,
    UhdRipped,
    HddvdRipped,
    TracksRipped,
}

/// The column of the `totals` table that holds a total.
pub open spec fn column_name(t: TotalType) -> Seq<char> {
    match t {
        TotalType::StepsLeft => "steps_left"@,
        TotalType::StepsRight => "steps_right"@,
        TotalType::StepsDown => "steps_down"@,
        TotalType::StepsUp => "steps_up"@,
        TotalType::StepsForward => "steps_forward"@,
        TotalType::StepsBack => "steps_back"@,
        TotalType::ImagesTaken => "images_taken"@,
        TotalType::CdRipped => "cd_ripped"@,
        TotalType::DvdRipped => "dvd_ripped"@,
        TotalType::BrayRipped => "bray_ripped"@,
        TotalType::UhdRipped => "uhd_ripped"@,
        TotalType::HddvdRipped => "hddvd_ripped"@,
        TotalType::TracksRipped => "tracks_ripped"@,
    }
}

impl TotalType {
    pub fn as_column_name(self) -> (name: &'static str)
        ensures
            name@ == column_name(self),
    {
        match self {
            TotalType::StepsLeft => "steps_left",
            TotalType::StepsRight => "steps_right",
            TotalType::StepsDown => "steps_down",
            TotalType::StepsUp => "steps_up",
            TotalType::StepsForward => "steps_forward",
            TotalType::StepsBack => "steps_back",
            TotalType::ImagesTaken => "images_taken",
            TotalType::CdRipped => "cd_ripped",
            TotalType::DvdRipped => "dvd_ripped",
            TotalType::BrayRipped => "bray_ripped",
            TotalType::UhdRipped => "uhd_ripped",
            TotalType::HddvdRipped => "hddvd_ripped",
            TotalType::TracksRipped => "tracks_ripped",
        }
    }
}

/// The statement that adds its one bound parameter to the total `t`.
pub open spec fn update_totals_sql(t: TotalType) -> Seq<char> {
    "UPDATE totals SET "@ + column_name(t) + " = "@ + column_name(t) + " + ?;"@
}

/// Builds the statement that adds a value, bound as its only parameter, to
/// the column of `total_type`.
pub fn update_totals_statement(total_type: TotalType) -> (sql: String)
    ensures
        sql@ == update_totals_sql(total_type),
        sql@ == "UPDATE totals SET "@ + column_name(total_type) + " = "@ + column_name(total_type)
            + " + ?;"@,
{
    let column = total_type.as_column_name();
    let mut sql = String::from_str("UPDATE totals SET ");
    sql.append(column);
    sql.append(" = ");
    sql.append(column);
    sql.append(" + ?;");
    sql
}

/// Updating a total adds the bound value to that total's own column and
/// to no other: the statement sets the column to itself plus the
/// parameter.
pub proof fn update_adds_to_its_own_column(t: TotalType)
    ensures
        update_totals_sql(t) == "UPDATE totals SET "@ + column_name(t) + " = "@ + column_name(t)
            + " + ?;"@,
        update_totals_sql(t).subrange(0, 18) == "UPDATE totals SET "@,
        update_totals_sql(t).subrange(18 + column_name(t).len() as int + 3, update_totals_sql(t).len() as int)
            == column_name(t) + " + ?;"@,
{
    reveal_strlit("UPDATE totals SET ");
    reveal_strlit(" = ");
    let sql = update_totals_sql(t);
    let c = column_name(t);
    assert(sql.subrange(0, 18) =~= "UPDATE totals SET "@);
    assert(sql.subrange(18 + c.len() as int + 3, sql.len() as int) =~= c + " + ?;"@);
}

/// Different totals are kept in different columns, so adding to one total
/// never changes another.
pub proof fn distinct_totals_have_distinct_columns(a: TotalType, b: TotalType)
    requires
        a != b,
    ensures
        column_name(a) != column_name(b),
{
    reveal_strlit("steps_left");
    reveal_strlit("steps_right");
    reveal_strlit("steps_down");
    reveal_strlit("steps_up");
    reveal_strlit("steps_forward");
    reveal_strlit("steps_back");
    reveal_strlit("images_taken");
    reveal_strlit("cd_ripped");
    reveal_strlit("dvd_ripped");
    reveal_strlit("bray_ripped");
    reveal_strlit("uhd_ripped");
    reveal_strlit("hddvd_ripped");
    reveal_strlit("tracks_ripped");
    assert(column_name(a)[0] != column_name(b)[0] || column_name(a)[6] != column_name(b)[6]);
}

/// Every total, in the order of the columns of the `totals` table.
pub open spec fn all_totals() -> Seq<TotalType> {
    seq![
        TotalType::StepsLeft,
        TotalType::StepsRight,
        TotalType::StepsDown,
        TotalType::StepsUp,
        TotalType::StepsForward,
        TotalType::StepsBack,
        TotalType::ImagesTaken,
        TotalType::CdRipped,
        TotalType::DvdRipped,
        TotalType::BrayRipped,
        TotalType::UhdRipped,
        TotalType::HddvdRipped,
        TotalType::TracksRipped,
    ]
}

/// The columns of the `totals` table.
pub open spec fn totals_columns() -> Seq<Seq<char>> {
    all_totals().map_values(|t: TotalType| column_name(t))
}

/// How a column of the `totals` table is declared.
pub open spec fn column_declaration(column: Seq<char>) -> Seq<char> {
    column + " INTEGER NOT NULL DEFAULT 0"@
}

/// The statement that creates the `totals` table when it is missing.
pub open spec fn create_totals_sql() -> Seq<char> {
    "CREATE TABLE IF NOT EXISTS totals ("@ + joined(
        totals_columns().map_values(|c: Seq<char>| column_declaration(c)),
        ", "@,
    ) + ");"@
}

/// The statement that inserts the single row of totals, all zero, when the
/// table holds none.
pub open spec fn insert_initial_totals_sql() -> Seq<char> {
    "INSERT INTO totals ("@ + joined(totals_columns(), ", "@) + ") SELECT "@ + joined(
        totals_columns().map_values(|c: Seq<char>| "0"@),
        ", "@,
    ) + " WHERE NOT EXISTS (SELECT 1 FROM totals);"@
}

/// The statement that creates the `logs` table when it is missing.
pub const CREATE_LOGS_TABLE_SQL: &'static str =
    "CREATE TABLE IF NOT EXISTS logs (log_type INTEGER NOT NULL, log_timestamp DATETIME NOT NULL DEFAULT CURRENT_TIMESTAMP);";

/// The statement that appends a log entry of the kind bound as its only
/// parameter, stamped with the current time.
pub const INSERT_LOG_SQL: &'static str =
    "INSERT INTO logs (log_type, log_timestamp) VALUES (?, CURRENT_TIMESTAMP);";

/// Every total, in the order of the columns of the `totals` table.
pub fn total_types() -> (totals: Vec<TotalType>)
    ensures
        totals@ == all_totals(),
{
    let mut totals = Vec::new();
    totals.push(TotalType::StepsLeft);
    totals.push(TotalType::StepsRight);
    totals.push(TotalType::StepsDown);
    totals.push(TotalType::StepsUp);
    totals.push(TotalType::StepsForward);
    totals.push(TotalType::StepsBack);
    totals.push(TotalType::ImagesTaken);
    totals.push(TotalType::CdRipped);
    totals.push(TotalType::DvdRipped);
    totals.push(TotalType::BrayRipped);
    totals.push(TotalType::UhdRipped);
    totals.push(TotalType::HddvdRipped);
    totals.push(TotalType::TracksRipped);
    assert(totals@ =~= all_totals());
    totals
}

/// The columns of the `totals` table, each declared with `declare`.
fn column_texts(declare: bool) -> (parts: Vec<String>)
    ensures
        declare ==> texts(parts@) == totals_columns().map_values(|c: Seq<char>| column_declaration(c)),
        !declare ==> texts(parts@) == totals_columns(),
{
    let totals = total_types();
    let mut parts: Vec<String> = Vec::new();
    for i in 0..totals.len()
        invariant
            totals@ == all_totals(),
            parts@.len() == i,
            forall|j: int|
                0 <= j < i ==> #[trigger] parts@[j]@ == if declare {
                    column_declaration(column_name(all_totals()[j]))
                } else {
                    column_name(all_totals()[j])
                },
    {
        let mut part = String::from_str(totals[i].as_column_name());
        if declare {
            part.append(" INTEGER NOT NULL DEFAULT 0");
        }
        parts.push(part);
    }
    if declare {
        assert(texts(parts@) =~= totals_columns().map_values(|c: Seq<char>| column_declaration(c)));
    } else {
        assert(texts(parts@) =~= totals_columns());
    }
    parts
}

/// Builds the statement that creates the `totals` table, one integer
/// column per total, each starting at zero.
pub fn create_totals_table_statement() -> (sql: String)
    ensures
        sql@ == create_totals_sql(),
{
    let declarations = column_texts(true);
    let body = join_texts(&declarations, ", ");
    let mut sql = String::from_str("CREATE TABLE IF NOT EXISTS totals (");
    sql.append(body.as_str());
    sql.append(");");
    sql
}

/// Builds the statement that inserts the single row of totals, all zero,
/// unless the table already holds one.
pub fn insert_initial_totals_statement() -> (sql: String)
    ensures
        sql@ == insert_initial_totals_sql(),
{
    let columns = column_texts(false);
    let mut zeros: Vec<String> = Vec::new();
    for i in 0..columns.len()
        invariant
            zeros@.len() == i,
            forall|j: int| 0 <= j < i ==> #[trigger] zeros@[j]@ == "0"@,
    {
        zeros.push(String::from_str("0"));
    }
    assert(texts(zeros@) =~= totals_columns().map_values(|c: Seq<char>| "0"@));
    let names = join_texts(&columns, ", ");
    let values = join_texts(&zeros, ", ");
    let mut sql = String::from_str("INSERT INTO totals (");
    sql.append(names.as_str());
    sql.append(") SELECT ");
    sql.append(values.as_str());
    sql.append(" WHERE NOT EXISTS (SELECT 1 FROM totals);");
    sql
}

/// The totals are exactly the columns of the `totals` table: every total
/// has its column there, and every column there belongs to exactly one
/// total.
pub proof fn totals_are_the_table_columns(t: TotalType, i: int)
    ensures
        totals_columns().len() == 13,
        totals_columns().contains(column_name(t)),
        0 <= i < 13 ==> column_name(all_totals()[i]) == totals_columns()[i],
        0 <= i < 13 ==> forall|u: TotalType|
            #[trigger] column_name(u) == totals_columns()[i] ==> u == all_totals()[i],
{
    let k: int = match t {
        TotalType::StepsLeft => 0,
        TotalType::StepsRight => 1,
        TotalType::StepsDown => 2,
        TotalType::StepsUp => 3,
        TotalType::StepsForward => 4,
        TotalType::StepsBack => 5,
        TotalType::ImagesTaken => 6,
        TotalType::CdRipped => 7,
        TotalType::DvdRipped => 8,
        TotalType::BrayRipped => 9,
        TotalType::UhdRipped => 10,
        TotalType::HddvdRipped => 11,
        TotalType::TracksRipped => 12,
    };
    assert(all_totals()[k] == t);
    assert(totals_columns()[k] == column_name(t));
    if 0 <= i < 13 {
        assert forall|u: TotalType| #[trigger] column_name(u) == totals_columns()[i] implies u
            == all_totals()[i] by {
            if u != all_totals()[i] {
                distinct_totals_have_distinct_columns(u, all_totals()[i]);
            }
        }
    }
}

} // verus!
