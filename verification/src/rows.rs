use vstd::prelude::*;

verus! {

/// One column of a result schema: its name and, for a record column, the
/// schema of its nested columns.
#[derive(Debug)]
pub struct Field {
    pub name: Option<String>,
    pub fields: Option<Vec<Field>>,
}

/// One cell of a query result: its value, the nested cells of a record, and
/// the column name that labelling gives it.
#[derive(Debug)]
pub struct Row {
    pub v: Option<VType>,
    pub f: Option<VType>,
    pub name: Option<String>,
}

/// The value held in a cell: a scalar as text, or a list of nested cells.
#[derive(Debug)]
pub enum VType {
    Str(String),
    Arr(Vec<Row>),
}

/// Mathematical model of a [`Field`].
pub struct FieldView {
    pub name: Option<Seq<char>>,
    pub fields: Option<Seq<FieldView>>,
}

/// Mathematical model of a [`Row`].
pub struct RowView {
    pub v: Option<VTypeView>,
    pub f: Option<VTypeView>,
    pub name: Option<Seq<char>>,
}

/// Mathematical model of a [`VType`].
pub enum VTypeView {
    Str(Seq<char>),
    Arr(Seq<RowView>),
}

pub open spec fn text_view(s: Option<String>) -> Option<Seq<char>> {
    match s {
        Some(t) => Some(t@),
        None => None,
    }
}

pub open spec fn empty_row_view() -> RowView {
    RowView { v: None, f: None, name: None }
}

pub open spec fn empty_field_view() -> FieldView {
    FieldView { name: None, fields: None }
}

impl Field {
    pub open spec fn model(self) -> FieldView
        decreases self,
    {
        FieldView {
            name: text_view(self.name),
            fields: match self.fields {
                Some(fs) => Some(
                    Seq::new(
                        fs@.len(),
                        |i: int|
                            if 0 <= i < fs@.len() {
                                fs@[i].model()
                            } else {
                                empty_field_view()
                            },
                    ),
                ),
                None => None,
            },
        }
    }
}

impl View for Field {
    type V = FieldView;

    open spec fn view(&self) -> FieldView {
        self.model()
    }
}

impl Row {
    pub open spec fn model(self) -> RowView
        decreases self,
    {
        RowView { v: value_model(self.v), f: value_model(self.f), name: text_view(self.name) }
    }
}

pub open spec fn value_model(value: Option<VType>) -> Option<VTypeView>
    decreases value,
{
    match value {
        Some(VType::Str(s)) => Some(VTypeView::Str(s@)),
        Some(VType::Arr(rows)) => Some(
            VTypeView::Arr(
                Seq::new(
                    rows@.len(),
                    |i: int|
                        if 0 <= i < rows@.len() {
                            rows@[i].model()
                        } else {
                            empty_row_view()
                        },
                ),
            ),
        ),
        None => None,
    }
}

impl View for Row {
    type V = RowView;

    open spec fn view(&self) -> RowView {
        self.model()
    }
}

/// A column schema applied to a cell: the cell takes the column's name, and
/// each nested cell of a list value (in `v` or in `f`) takes, in order, the
/// nested column at the same position. Nested cells beyond the last nested
/// column keep what they held.
pub open spec fn labelled(row: RowView, field: FieldView) -> RowView
    decreases row,
{
    RowView {
        v: labelled_value(row.v, field.fields),
        f: labelled_value(row.f, field.fields),
        name: field.name,
    }
}

/// A list value labelled position by position with nested columns; any other
/// value, or a value without nested columns, stays as it is.
pub open spec fn labelled_value(value: Option<VTypeView>, fields: Option<Seq<FieldView>>) -> Option<
    VTypeView,
>
    decreases value,
{
    match value {
        Some(VTypeView::Arr(rows)) => match fields {
            Some(fs) => Some(
                VTypeView::Arr(
                    Seq::new(
                        rows.len(),
                        |i: int|
                            if 0 <= i < rows.len() && i < fs.len() {
                                labelled(rows[i], fs[i])
                            } else {
                                rows[i]
                            },
                    ),
                ),
            ),
            None => value,
        },
        _ => value,
    }
}

fn copy_text(t: &Option<String>) -> (r: Option<String>)
    ensures
        text_view(r) == text_view(*t),
{
    match t {
        Some(s) => Some(s.clone()),
        None => None,
    }
}

/// A connection to the query service (whatever client makes the calls), with
/// the project that queries run in.
pub struct BigQueryWrapper<C> {
    pub client: C,
    pub project_id: String,
}

impl<C> BigQueryWrapper<C> {
    /// Labels a cell, and every cell nested in it, with a column schema
    /// (see [`labelled`]).
    pub fn map_to_schema2(&self, row: &mut Row, field: &Field)
        ensures
            final(row)@ == labelled(old(row)@, field@),
        decreases *old(row),
    {
        let f = row.f.take();
        row.f = self.label_value(f, field);
        let v = row.v.take();
        row.v = self.label_value(v, field);
        row.name = copy_text(&field.name);
    }

    fn label_value(&self, value: Option<VType>, field: &Field) -> (r: Option<VType>)
        ensures
            value_model(r) == labelled_value(value_model(value), field@.fields),
        decreases value,
    {
        match value {
            Some(VType::Arr(mut rows)) => {
                match &field.fields {
                    Some(fs) => {
                        let ghost start = rows;
                        let n: usize = if rows.len() < fs.len() {
                            rows.len()
                        } else {
                            fs.len()
                        };
                        let mut i: usize = 0;
                        while i < n
                            invariant
                                value == Some(VType::Arr(start)),
                                field.fields == Some(*fs),
                                n <= rows@.len(),
                                n <= fs@.len(),
                                0 <= i <= n,
                                rows@.len() == start@.len(),
                                n == rows@.len() || n == fs@.len(),
                                forall|j: int|
                                    0 <= j < i ==> #[trigger] rows@[j].model() == labelled(
                                        start@[j].model(),
                                        fs@[j].model(),
                                    ),
                                forall|j: int| i <= j < rows@.len() ==> #[trigger] rows@[j] == start@[j],
                            decreases n - i,
                        {
                            assert(decreases_to!(value => value->0));
                            assert(decreases_to!(value->0 => value->0->Arr_0));
                            assert(decreases_to!(start => start@));
                            self.map_to_schema2(&mut rows[i], &fs[i]);
                            i += 1;
                        }
                        let r = Some(VType::Arr(rows));
                        proof {
                            let lhs = value_model(r);
                            let rhs = labelled_value(value_model(value), field@.fields);
                            let fsv = field@.fields->0;
                            assert(fsv.len() == fs@.len());
                            assert forall|j: int| 0 <= j < rows@.len() implies lhs->0->Arr_0[j]
                                == rhs->0->Arr_0[j] by {
                                assert(lhs->0->Arr_0[j] == rows@[j].model());
                                if j < fs@.len() {
                                    assert(fsv[j] == fs@[j].model());
                                }
                            }
                            assert(lhs->0->Arr_0 =~= rhs->0->Arr_0);
                        }
                        r
                    },
                    None => Some(VType::Arr(rows)),
                }
            },
            other => other,
        }
    }

    /// Labels each row of a query result with the result's schema.
    pub fn label_rows(&self, rows: Vec<Row>, schema: &Field) -> (r: Vec<Row>)
        ensures
            r@.len() == rows@.len(),
            forall|i: int| 0 <= i < rows@.len() ==> #[trigger] r@[i]@ == labelled(rows@[i]@, schema@),
    {
        let mut out = rows;
        let n = out.len();
        let mut i: usize = 0;
        while i < n
            invariant
                n == out@.len(),
                n == rows@.len(),
                i <= n,
                forall|j: int| 0 <= j < i ==> #[trigger] out@[j]@ == labelled(rows@[j]@, schema@),
                forall|j: int| i <= j < n ==> #[trigger] out@[j] == rows@[j],
            decreases n - i,
        {
            self.map_to_schema2(&mut out[i], schema);
            i += 1;
        }
        out
    }
}

/// An entry that a cell contributes when it is written out as an object.
#[derive(Debug, Clone, Copy, PartialEq, Eq, Structural)]
pub enum RowSlot {
    /// The cell's value, under the cell's name.
    Value,
    /// The cell's nested cells, under the cell's name.
    Record,
}

impl Row {
    /// The entries of the cell, in order: its value where it has a name and a
    /// value, then its nested cells where it has a name and `f` holds a list.
    pub open spec fn slots(self) -> Seq<RowSlot> {
        (if self.name is Some && self.v is Some {
            seq![RowSlot::Value]
        } else {
            Seq::empty()
        }) + (if self.name is Some && self.f matches Some(VType::Arr(_)) {
            seq![RowSlot::Record]
        } else {
            Seq::empty()
        })
    }

    /// The entries that the cell is written out with (see [`Row::slots`]).
    pub fn serialized_entries(&self) -> (r: Vec<RowSlot>)
        ensures
            r@ == self.slots(),
    {
        let mut r: Vec<RowSlot> = Vec::new();
        if self.name.is_some() && self.v.is_some() {
            r.push(RowSlot::Value);
        }
        let record = match &self.f {
            Some(VType::Arr(_)) => true,
            _ => false,
        };
        if self.name.is_some() && record {
            r.push(RowSlot::Record);
        }
        proof {
            assert(r@ =~= self.slots());
        }
        r
    }
}

/// A cell with every name in it, its own and those of all nested cells, removed.
pub open spec fn unlabelled(row: RowView) -> RowView
    decreases row,
{
    RowView { v: unlabelled_value(row.v), f: unlabelled_value(row.f), name: None }
}

/// A value with the names of all nested cells removed.
pub open spec fn unlabelled_value(value: Option<VTypeView>) -> Option<VTypeView>
    decreases value,
{
    match value {
        Some(VTypeView::Arr(rows)) => Some(
            VTypeView::Arr(
                Seq::new(
                    rows.len(),
                    |i: int|
                        if 0 <= i < rows.len() {
                            unlabelled(rows[i])
                        } else {
                            rows[i]
                        },
                ),
            ),
        ),
        _ => value,
    }
}

/// Labelling a cell a second time with the same schema changes nothing.
pub proof fn lemma_labelled_idempotent(row: RowView, field: FieldView)
    ensures
        labelled(labelled(row, field), field) == labelled(row, field),
    decreases row,
{
    lemma_labelled_value_idempotent(row.v, field.fields);
    lemma_labelled_value_idempotent(row.f, field.fields);
}

/// Labelling a value a second time with the same nested columns changes nothing.
pub proof fn lemma_labelled_value_idempotent(value: Option<VTypeView>, fields: Option<Seq<FieldView>>)
    ensures
        labelled_value(labelled_value(value, fields), fields) == labelled_value(value, fields),
    decreases value,
{
    match value {
        Some(VTypeView::Arr(rows)) => match fields {
            Some(fs) => {
                let once = labelled_value(value, fields)->0->Arr_0;
                let twice = labelled_value(labelled_value(value, fields), fields)->0->Arr_0;
                assert forall|i: int| 0 <= i < rows.len() implies twice[i] == once[i] by {
                    if i < fs.len() {
                        assert(decreases_to!(value => value->0));
                        assert(decreases_to!(value->0 => rows));
                        lemma_labelled_idempotent(rows[i], fs[i]);
                    }
                }
                assert(twice =~= once);
            },
            None => {},
        },
        _ => {},
    }
}

/// Labelling changes only names: with all names removed, a labelled cell is
/// the cell it was labelled from, so every value and every list length is kept.
pub proof fn lemma_labelled_keeps_shape(row: RowView, field: FieldView)
    ensures
        unlabelled(labelled(row, field)) == unlabelled(row),
    decreases row,
{
    lemma_labelled_value_keeps_shape(row.v, field.fields);
    lemma_labelled_value_keeps_shape(row.f, field.fields);
}

/// Labelling a value changes only the names of nested cells.
pub proof fn lemma_labelled_value_keeps_shape(value: Option<VTypeView>, fields: Option<Seq<FieldView>>)
    ensures
        unlabelled_value(labelled_value(value, fields)) == unlabelled_value(value),
    decreases value,
{
    match value {
        Some(VTypeView::Arr(rows)) => match fields {
            Some(fs) => {
                let lhs = unlabelled_value(labelled_value(value, fields))->0->Arr_0;
                let rhs = unlabelled_value(value)->0->Arr_0;
                assert forall|i: int| 0 <= i < rows.len() implies lhs[i] == rhs[i] by {
                    if i < fs.len() {
                        assert(decreases_to!(value => value->0));
                        assert(decreases_to!(value->0 => rows));
                        lemma_labelled_keeps_shape(rows[i], fs[i]);
                    }
                }
                assert(lhs =~= rhs);
            },
            None => {},
        },
        _ => {},
    }
}

/// Labelling pairs each nested cell with the nested column at its position:
/// for a list value with nested columns, the result is a list of the same
/// length whose i-th cell, for every i below both lengths, carries the name of
/// the i-th column (and is that cell labelled with that column); cells past the
/// last column are unchanged. Any other value, or one without nested columns,
/// is unchanged.
pub proof fn lemma_labelled_value_pairs(value: Option<VTypeView>, fields: Option<Seq<FieldView>>)
    ensures
        match (value, fields) {
            (Some(VTypeView::Arr(cells)), Some(cols)) => match labelled_value(value, fields) {
                Some(VTypeView::Arr(out)) => {
                    &&& out.len() == cells.len()
                    &&& forall|i: int|
                        0 <= i < cells.len() && i < cols.len() ==> (#[trigger] out[i]).name
                            == cols[i].name && out[i] == labelled(cells[i], cols[i])
                    &&& forall|i: int| cols.len() <= i < cells.len() ==> #[trigger] out[i] == cells[i]
                },
                _ => false,
            },
            _ => labelled_value(value, fields) == value,
        },
{
}

/// A labelled cell carries its column's name, and both its value and its nested
/// cells are labelled position by position with the column's nested columns
/// (see [`lemma_labelled_value_pairs`]).
pub proof fn lemma_labelled_row_names(row: RowView, field: FieldView)
    ensures
        labelled(row, field).name == field.name,
        labelled(row, field).v == labelled_value(row.v, field.fields),
        labelled(row, field).f == labelled_value(row.f, field.fields),
        row.f is Some && row.f->0 is Arr && field.fields is Some ==> {
            let cells = row.f->0->Arr_0;
            let cols = field.fields->0;
            let out = labelled(row, field).f->0->Arr_0;
            &&& labelled(row, field).f is Some && labelled(row, field).f->0 is Arr
            &&& forall|i: int|
                0 <= i < cells.len() && i < cols.len() ==> (#[trigger] out[i]).name == cols[i].name
        },
        row.v is Some && row.v->0 is Arr && field.fields is Some ==> {
            let cells = row.v->0->Arr_0;
            let cols = field.fields->0;
            let out = labelled(row, field).v->0->Arr_0;
            &&& labelled(row, field).v is Some && labelled(row, field).v->0 is Arr
            &&& forall|i: int|
                0 <= i < cells.len() && i < cols.len() ==> (#[trigger] out[i]).name == cols[i].name
        },
{
    lemma_labelled_value_pairs(row.v, field.fields);
    lemma_labelled_value_pairs(row.f, field.fields);
}

/// The entries a cell is written with: none without a name; with a name, a
/// `Value` entry first whenever it has any value (text or list), and a
/// `Record` entry last whenever `f` holds a list; nothing else.
pub proof fn lemma_serialized_entries_shape(row: Row)
    ensures
        row.name is None ==> row.slots().len() == 0,
        row.name is Some && row.v is Some ==> row.slots().len() >= 1 && row.slots()[0]
            == RowSlot::Value,
        row.name is Some && (row.f is Some && row.f->0 is Arr) ==> row.slots().len() >= 1
            && row.slots()[row.slots().len() - 1] == RowSlot::Record,
        row.v is None ==> !row.slots().contains(RowSlot::Value),
        !((row.f is Some && row.f->0 is Arr)) ==> !row.slots().contains(RowSlot::Record),
        row.slots().len() == (if row.name is Some && row.v is Some {
            1int
        } else {
            0int
        }) + (if row.name is Some && (row.f is Some && row.f->0 is Arr) {
            1int
        } else {
            0int
        }),
{
    let s = row.slots();
    if row.v is None {
        assert forall|i: int| 0 <= i < s.len() implies s[i] != RowSlot::Value by {}
    }
    if !((row.f is Some && row.f->0 is Arr)) {
        assert forall|i: int| 0 <= i < s.len() implies s[i] != RowSlot::Record by {}
    }
}

} // verus!
