//! The schema fix-up that adds the columns missing from the initial schema:
//! `roles.guard_name` (at most 20 characters, nullable, default `web`) and
//! `settings.favicon` (at most 255 characters, nullable). Each column is probed first and
//! added only when absent,
//! so running the migration twice changes nothing.

use vstd::prelude::*;

verus! {

/// A nullable string column to add to a table.
pub struct ColumnAddition {
    pub table: &'static str,
    pub column: &'static str,
    /// The maximum length, when the column is length-limited.
    pub max_len: Option<u32>,
    /// The default value, when the column has one.
    pub default_value: Option<&'static str>,
}

/// What a column addition says, as plain values.
pub struct ColumnAdditionView {
    pub table: Seq<char>,
    pub column: Seq<char>,
    pub max_len: Option<u32>,
    pub default_value: Option<Seq<char>>,
}

impl View for ColumnAddition {
    type V = ColumnAdditionView;

    open spec fn view(&self) -> ColumnAdditionView {
        ColumnAdditionView {
            table: self.table@,
            column: self.column@,
            max_len: self.max_len,
            default_value: match self.default_value {
                Some(d) => Some(d@),
                None => None,
            },
        }
    }
}

/// The views of a list of column additions.
pub open spec fn addition_views(s: Seq<ColumnAddition>) -> Seq<ColumnAdditionView> {
    s.map_values(|a: ColumnAddition| a@)
}

/// The columns this migration adds, in order.
pub open spec fn additions_spec() -> Seq<ColumnAdditionView> {
    seq![
        ColumnAdditionView {
            table: "roles"@,
            column: "guard_name"@,
            max_len: Some(20u32),
            default_value: Some("web"@),
        },
        ColumnAdditionView {
            table: "settings"@,
            column: "favicon"@,
            max_len: Some(255u32),
            default_value: None,
        },
    ]
}

/// The query that counts the columns named `column` in `table` (SQLite table info).
pub open spec fn probe_query_spec(table: Seq<char>, column: Seq<char>) -> Seq<char> {
    "SELECT COUNT(*) FROM pragma_table_info('"@ + table + "') WHERE name='"@ + column + "'"@
}

/// The columns this migration adds, in order.
pub fn pending_additions() -> (r: Vec<ColumnAddition>)
    ensures
        addition_views(r@) == additions_spec(),
{
    let mut r: Vec<ColumnAddition> = Vec::new();
    r.push(
        ColumnAddition {
            table: "roles",
            column: "guard_name",
            max_len: Some(20),
            default_value: Some("web"),
        },
    );
    r.push(
        ColumnAddition {
            table: "settings",
            column: "favicon",
            max_len: Some(255),
            default_value: None,
        },
    );
    assert(addition_views(r@) =~= additions_spec());
    r
}

/// The query that tells whether `column` already exists in `table`.
pub fn probe_query(table: &str, column: &str) -> (q: String)
    ensures
        q@ == probe_query_spec(table@, column@),
{
    let mut q = String::from_str("SELECT COUNT(*) FROM pragma_table_info('");
    q.append(table);
    q.append("') WHERE name='");
    q.append(column);
    q.append("'");
    q
}

/// Whether the column must be added, given the count that the probe returned (`None` when the
/// probe gave no readable row, which counts as zero).
pub fn needs_column(count: Option<i64>) -> (add: bool)
    ensures
        add == (match count {
            Some(n) => n == 0,
            None => true,
        }),
{
    let n: i64 = match count {
        Some(n) => n,
        None => 0,
    };
    n == 0
}

} // verus!
