use vstd::prelude::*;

use crate::reply::{reply1, Reply};

verus! {

/// One row of the points table as the data file lists it: a points value,
/// the gender, category and event it is scored for, and the mark that earns
/// it. The mark, a 64-bit float, is carried as its IEEE 754 bit pattern.
#[derive(Debug, Clone)]
pub struct PointsInsert {
    pub points: i32,
    pub gender: String,
    pub category: String,
    pub event: String,
    pub mark_bits: u64,
}

impl View for PointsInsert {
    type V = (i32, Seq<char>, Seq<char>, Seq<char>, u64);

    /// The points, gender, category, event and mark bits.
    open spec fn view(&self) -> (i32, Seq<char>, Seq<char>, Seq<char>, u64) {
        (self.points, self.gender@, self.category@, self.event@, self.mark_bits)
    }
}

/// The rows of the points table, one vector per column, in the order in
/// which one bulk insert binds them.
#[derive(Debug)]
pub struct PointsColumns {
    pub points: Vec<i32>,
    pub genders: Vec<String>,
    pub categories: Vec<String>,
    pub events: Vec<String>,
    pub mark_bits: Vec<u64>,
}

/// Whether `c` holds the rows `rows`, column by column, in the same order.
pub open spec fn columns_of(rows: Seq<PointsInsert>, c: PointsColumns) -> bool {
    &&& c.points@.len() == rows.len()
    &&& c.genders@.len() == rows.len()
    &&& c.categories@.len() == rows.len()
    &&& c.events@.len() == rows.len()
    &&& c.mark_bits@.len() == rows.len()
    &&& forall|i: int|
        0 <= i < rows.len() ==> {
            &&& #[trigger] c.points@[i] == rows[i].points
            &&& c.genders@[i]@ == rows[i].gender@
            &&& c.categories@[i]@ == rows[i].category@
            &&& c.events@[i]@ == rows[i].event@
            &&& c.mark_bits@[i] == rows[i].mark_bits
        }
}

/// Splits the rows read from the data file into columns for one bulk insert:
/// the i-th entry of each column is the matching field of the i-th row.
pub fn split_columns(models: &Vec<PointsInsert>) -> (c: PointsColumns)
    ensures
        columns_of(models@, c),
{
    let mut c = PointsColumns {
        points: Vec::new(),
        genders: Vec::new(),
        categories: Vec::new(),
        events: Vec::new(),
        mark_bits: Vec::new(),
    };
    let n = models.len();
    let mut i: usize = 0;
    while i < n
        invariant
            n == models@.len(),
            i <= n,
            columns_of(models@.take(i as int), c),
        decreases n - i,
    {
        let row = &models[i];
        c.points.push(row.points);
        c.genders.push(row.gender.clone());
        c.categories.push(row.category.clone());
        c.events.push(row.event.clone());
        c.mark_bits.push(row.mark_bits);
        i = i + 1;
        assert(models@.take(i as int).drop_last() =~= models@.take(i - 1));
    }
    assert(models@.take(n as int) =~= models@);
    c
}

/// The split keeps every row: for any number of rows, each column has one
/// entry per row, and the entries at position i rebuild row i exactly.
pub proof fn lemma_columns_keep_every_row(rows: Seq<PointsInsert>, c: PointsColumns)
    requires
        columns_of(rows, c),
    ensures
        c.points@.len() == rows.len(),
        c.genders@.len() == rows.len(),
        c.categories@.len() == rows.len(),
        c.events@.len() == rows.len(),
        c.mark_bits@.len() == rows.len(),
        forall|i: int|
            #![trigger rows[i]]
            0 <= i < rows.len() ==> (PointsInsert {
                points: c.points@[i],
                gender: c.genders@[i],
                category: c.categories@[i],
                event: c.events@[i],
                mark_bits: c.mark_bits@[i],
            })@ == rows[i]@,
{
    assert forall|i: int| #![trigger rows[i]] 0 <= i < rows.len() implies (PointsInsert {
        points: c.points@[i],
        gender: c.genders@[i],
        category: c.categories@[i],
        event: c.events@[i],
        mark_bits: c.mark_bits@[i],
    })@ == rows[i]@ by {
        assert(c.points@[i] == rows[i].points);
    }
}

/// The reply when the points table is loaded already: status 400 and
/// `{"Message": "Points Already Exists"}`.
pub fn points_exist_reply() -> (r: Reply)
    ensures
        r@ == (400u16, seq![("Message"@, "Points Already Exists"@)]),
{
    reply1(400, "Message", "Points Already Exists")
}

/// The reply when the data file could not be read, with error message `e`:
/// status 200 and `{"Message": "Error: <e>"}`.
pub fn read_error_reply(e: &str) -> (r: Reply)
    ensures
        r@ == (200u16, seq![("Message"@, "Error: "@ + e@)]),
{
    let message = String::from_str("Error: ").concat(e);
    reply1(200, "Message", message.as_str())
}

} // verus!
