//! The relational schema applied to a freshly created Postgres instance.
//!
//! The schema is a fixed script of drops and creates. The tables are modelled
//! as a map from table to row count, and each statement as a partial
//! transition on it: a table that another table references cannot be dropped,
//! and a table cannot be created twice nor before the tables it references.
use vstd::prelude::*;

verus! {

/// A table of the schema.
#[derive(PartialEq, Eq, Structural, Clone, Copy, Debug)]
pub enum Table {
    Users,
    Products,
    Transactions,
}

/// One statement of the schema script.
#[derive(PartialEq, Eq, Structural, Clone, Copy, Debug)]
pub enum SchemaOp {
    DropIfExists(Table),
    Create(Table),
}

/// Whether table `a` has a foreign key into table `b`.
pub open spec fn references(a: Table, b: Table) -> bool {
    a == Table::Transactions && (b == Table::Users || b == Table::Products)
}

/// The state of the tables: each existing table with its number of rows.
pub type Tables = Map<Table, nat>;

/// What one statement does to the tables, or `None` where the database refuses it.
pub open spec fn apply_op(db: Tables, op: SchemaOp) -> Option<Tables> {
    match op {
        SchemaOp::DropIfExists(t) => {
            if exists|x: Table| #[trigger] db.contains_key(x) && x != t && references(x, t) {
                None
            } else {
                Some(db.remove(t))
            }
        },
        SchemaOp::Create(t) => {
            if db.contains_key(t) {
                None
            } else if exists|r: Table| #[trigger] references(t, r) && !db.contains_key(r) {
                None
            } else {
                Some(db.insert(t, 0))
            }
        },
    }
}

/// What a sequence of statements does, stopping at the first refused one.
pub open spec fn apply_ops(db: Tables, ops: Seq<SchemaOp>) -> Option<Tables>
    decreases ops.len(),
{
    if ops.len() == 0 {
        Some(db)
    } else {
        match apply_op(db, ops[0]) {
            Some(next) => apply_ops(next, ops.drop_first()),
            None => None,
        }
    }
}

/// The script: drop in dependency order, then create in the reverse order.
pub open spec fn spec_schema_script() -> Seq<SchemaOp> {
    seq![
        SchemaOp::DropIfExists(Table::Transactions),
        SchemaOp::DropIfExists(Table::Products),
        SchemaOp::DropIfExists(Table::Users),
        SchemaOp::Create(Table::Users),
        SchemaOp::Create(Table::Products),
        SchemaOp::Create(Table::Transactions),
    ]
}

/// The state the script is meant to reach: the three tables, all empty.
pub open spec fn target_tables() -> Tables {
    map![Table::Users => 0nat, Table::Products => 0nat, Table::Transactions => 0nat]
}

/// The SQL text of a statement.
pub open spec fn spec_sql(op: SchemaOp) -> Seq<char> {
    match op {
        SchemaOp::DropIfExists(Table::Transactions) => "DROP TABLE IF EXISTS TRANSACTIONS;"@,
        SchemaOp::DropIfExists(Table::Products) => "DROP TABLE IF EXISTS PRODUCTS;"@,
        SchemaOp::DropIfExists(Table::Users) => "DROP TABLE IF EXISTS USERS;"@,
        SchemaOp::Create(Table::Users) => "CREATE TABLE USERS (username VARCHAR(50) PRIMARY KEY, first_name VARCHAR(50), last_name VARCHAR(50));"@,
        SchemaOp::Create(Table::Products) => "CREATE TABLE PRODUCTS (product_id INT PRIMARY KEY, price float(2), name VARCHAR(255));"@,
        SchemaOp::Create(Table::Transactions) => "CREATE TABLE TRANSACTIONS (transaction_id INT PRIMARY KEY, username VARCHAR(50) REFERENCES USERS, product_id INT REFERENCES PRODUCTS, card_num BIGINT, address_line VARCHAR(100), city VARCHAR(35), state CHAR(2), zip INT);"@,
    }
}

impl SchemaOp {
    /// The SQL statement that performs this step.
    pub fn sql(&self) -> (r: String)
        ensures
            r@ == spec_sql(*self),
    {
        match *self {
            SchemaOp::DropIfExists(Table::Transactions) => String::from_str("DROP TABLE IF EXISTS TRANSACTIONS;"),
            SchemaOp::DropIfExists(Table::Products) => String::from_str("DROP TABLE IF EXISTS PRODUCTS;"),
            SchemaOp::DropIfExists(Table::Users) => String::from_str("DROP TABLE IF EXISTS USERS;"),
            SchemaOp::Create(Table::Users) => String::from_str("CREATE TABLE USERS (username VARCHAR(50) PRIMARY KEY, first_name VARCHAR(50), last_name VARCHAR(50));"),
            SchemaOp::Create(Table::Products) => String::from_str("CREATE TABLE PRODUCTS (product_id INT PRIMARY KEY, price float(2), name VARCHAR(255));"),
            SchemaOp::Create(Table::Transactions) => String::from_str("CREATE TABLE TRANSACTIONS (transaction_id INT PRIMARY KEY, username VARCHAR(50) REFERENCES USERS, product_id INT REFERENCES PRODUCTS, card_num BIGINT, address_line VARCHAR(100), city VARCHAR(35), state CHAR(2), zip INT);"),
        }
    }
}

/// The schema script, in the order it is executed.
pub fn schema_script() -> (r: Vec<SchemaOp>)
    ensures
        r@ == spec_schema_script(),
{
    let r = vec![
        SchemaOp::DropIfExists(Table::Transactions),
        SchemaOp::DropIfExists(Table::Products),
        SchemaOp::DropIfExists(Table::Users),
        SchemaOp::Create(Table::Users),
        SchemaOp::Create(Table::Products),
        SchemaOp::Create(Table::Transactions),
    ];
    assert(r@ =~= spec_schema_script());
    r
}

/// From any state of the tables the script is accepted statement by statement
/// and ends with the three tables, empty.
pub proof fn lemma_script_reaches_target(db: Tables)
    ensures
        apply_ops(db, spec_schema_script()) == Some(target_tables()),
{
    let s = spec_schema_script();
    reveal_with_fuel(apply_ops, 7);
    let d1 = db.remove(Table::Transactions);
    assert(!exists|x: Table| #[trigger] db.contains_key(x) && x != Table::Transactions && references(x, Table::Transactions));
    assert(apply_op(db, s[0]) == Some(d1));
    let d2 = d1.remove(Table::Products);
    assert(!exists|x: Table| #[trigger] d1.contains_key(x) && x != Table::Products && references(x, Table::Products));
    assert(apply_op(d1, s[1]) == Some(d2));
    let d3 = d2.remove(Table::Users);
    assert(!exists|x: Table| #[trigger] d2.contains_key(x) && x != Table::Users && references(x, Table::Users));
    assert(apply_op(d2, s[2]) == Some(d3));
    assert(!d3.contains_key(Table::Users) && !d3.contains_key(Table::Products) && !d3.contains_key(Table::Transactions));
    let d4 = d3.insert(Table::Users, 0);
    assert(!exists|r: Table| #[trigger] references(Table::Users, r) && !d3.contains_key(r));
    assert(apply_op(d3, s[3]) == Some(d4));
    let d5 = d4.insert(Table::Products, 0);
    assert(!exists|r: Table| #[trigger] references(Table::Products, r) && !d4.contains_key(r));
    assert(apply_op(d4, s[4]) == Some(d5));
    let d6 = d5.insert(Table::Transactions, 0);
    assert(!exists|r: Table| #[trigger] references(Table::Transactions, r) && !d5.contains_key(r));
    assert(apply_op(d5, s[5]) == Some(d6));
    assert(d6 =~= target_tables()) by {
        assert forall|t: Table| d6.contains_key(t) <==> target_tables().contains_key(t) by {
            match t {
                Table::Users => {},
                Table::Products => {},
                Table::Transactions => {},
            }
        }
    }
    assert(s.drop_first().drop_first().drop_first().drop_first().drop_first().drop_first().len() == 0);
}

/// Applying the schema twice in a row leaves the tables as applying it once:
/// the three tables, empty, whatever state the first run started from.
pub proof fn lemma_schema_idempotent(db: Tables)
    ensures
        apply_ops(db, spec_schema_script()) is Some,
        apply_ops(apply_ops(db, spec_schema_script())->0, spec_schema_script())
            == apply_ops(db, spec_schema_script()),
        apply_ops(db, spec_schema_script()) == Some(target_tables()),
{
    lemma_script_reaches_target(db);
    lemma_script_reaches_target(target_tables());
}

} // verus!
