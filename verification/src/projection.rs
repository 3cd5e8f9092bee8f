//! Projection of raw entries to fixed-shape records: one display value per
//! field, taken from a possibly multi-valued attribute.

use crate::entry::{first_or_default, has_value, AttributeMap, DirectoryEntry, EntryView};
use vstd::prelude::*;

verus! {

/// The record shown for one entry. Every field is always present: where the
/// entry has nothing to show for it, the field is the empty string.
#[derive(Clone, Debug, PartialEq, Eq)]
pub struct ProjectedRecord {
    pub name: String,
    pub description: String,
    pub department: String,
    pub title: String,
    pub company: String,
    pub mobile: String,
    pub employee_type: String,
}

/// A record as plain mathematical values.
pub struct RecordView {
    pub name: Seq<char>,
    pub description: Seq<char>,
    pub department: Seq<char>,
    pub title: Seq<char>,
    pub company: Seq<char>,
    pub mobile: Seq<char>,
    pub employee_type: Seq<char>,
}

impl View for ProjectedRecord {
    type V = RecordView;

    open spec fn view(&self) -> RecordView {
        RecordView {
            name: self.name@,
            description: self.description@,
            department: self.department@,
            title: self.title@,
            company: self.company@,
            mobile: self.mobile@,
            employee_type: self.employee_type@,
        }
    }
}

impl DeepView for ProjectedRecord {
    type V = RecordView;

    open spec fn deep_view(&self) -> RecordView {
        self@
    }
}

/// The names of a record's fields as the host shows them, in display order.
/// Each is also the name of the attribute that the field is taken from.
pub open spec fn column_names() -> Seq<Seq<char>> {
    seq![
        "name"@,
        "description"@,
        "department"@,
        "title"@,
        "company"@,
        "mobile"@,
        "employeeType"@,
    ]
}

/// The fields of a record in display order.
pub open spec fn cells(record: RecordView) -> Seq<Seq<char>> {
    seq![
        record.name,
        record.description,
        record.department,
        record.title,
        record.company,
        record.mobile,
        record.employee_type,
    ]
}

/// The record of one entry: each field is the display value of the attribute
/// of the same name.
pub open spec fn project_one(entry: EntryView) -> RecordView {
    RecordView {
        name: first_or_default(entry.attrs, "name"@),
        description: first_or_default(entry.attrs, "description"@),
        department: first_or_default(entry.attrs, "department"@),
        title: first_or_default(entry.attrs, "title"@),
        company: first_or_default(entry.attrs, "company"@),
        mobile: first_or_default(entry.attrs, "mobile"@),
        employee_type: first_or_default(entry.attrs, "employeeType"@),
    }
}

/// The records of a sequence of entries: one per entry, in the same order.
pub open spec fn project_all(entries: Seq<EntryView>) -> Seq<RecordView> {
    Seq::new(entries.len(), |i: int| project_one(entries[i]))
}

/// Projects one entry. Never fails.
pub fn project_entry(entry: &DirectoryEntry) -> (record: ProjectedRecord)
    ensures
        record@ == project_one(entry@),
{
    ProjectedRecord {
        name: entry.first_or_default("name"),
        description: entry.first_or_default("description"),
        department: entry.first_or_default("department"),
        title: entry.first_or_default("title"),
        company: entry.first_or_default("company"),
        mobile: entry.first_or_default("mobile"),
        employee_type: entry.first_or_default("employeeType"),
    }
}

/// Projects every entry of a search result. Never fails and never skips an
/// entry: the result has one record per entry, in the order of the entries.
pub fn project(entries: &Vec<DirectoryEntry>) -> (records: Vec<ProjectedRecord>)
    ensures
        records.len() == entries.len(),
        forall|i: int|
            #![trigger records@[i]]
            #![trigger entries@[i]]
            0 <= i < entries.len() ==> records@[i]@ == project_one(entries@[i]@),
        records.deep_view() == project_all(entries.deep_view()),
{
    let mut records: Vec<ProjectedRecord> = Vec::new();
    let mut i: usize = 0;
    while i < entries.len()
        invariant
            i <= entries.len(),
            records.len() == i,
            forall|j: int|
                #![trigger records@[j]]
                #![trigger entries@[j]]
                0 <= j < i ==> records@[j]@ == project_one(entries@[j]@),
        decreases entries.len() - i,
    {
        records.push(project_entry(&entries[i]));
        i = i + 1;
    }
    assert(records.deep_view() =~= project_all(entries.deep_view()));
    records
}

impl ProjectedRecord {
    /// The field names in display order.
    pub fn columns() -> (names: Vec<String>)
        ensures
            names.deep_view() == column_names(),
    {
        let mut names: Vec<String> = Vec::new();
        names.push("name".to_owned());
        names.push("description".to_owned());
        names.push("department".to_owned());
        names.push("title".to_owned());
        names.push("company".to_owned());
        names.push("mobile".to_owned());
        names.push("employeeType".to_owned());
        assert(names.deep_view() =~= column_names());
        names
    }

    /// The fields in display order: as many as there are columns.
    pub fn into_cells(self) -> (values: Vec<String>)
        ensures
            values.deep_view() == cells(self@),
    {
        let ghost record = self@;
        let mut values: Vec<String> = Vec::new();
        values.push(self.name);
        values.push(self.description);
        values.push(self.department);
        values.push(self.title);
        values.push(self.company);
        values.push(self.mobile);
        values.push(self.employee_type);
        assert(values.deep_view() =~= cells(record));
        values
    }
}

/// Of a present attribute only the first value is shown: what follows it has
/// no influence.
pub proof fn first_value_wins(
    attrs: AttributeMap,
    key: Seq<char>,
    first: Seq<char>,
    rest: Seq<Seq<char>>,
)
    ensures
        first_or_default(attrs.insert(key, seq![first] + rest), key) == first,
{
    let values = seq![first] + rest;
    assert(values.len() > 0);
    assert(values[0] == first);
}

/// An attribute that is absent, or present without a value, shows as the
/// empty string.
pub proof fn missing_value_is_empty(attrs: AttributeMap, key: Seq<char>)
    requires
        !has_value(attrs, key),
    ensures
        first_or_default(attrs, key) == Seq::<char>::empty(),
{
}

/// Field `k` of a projected record is the display value of the attribute
/// named by column `k`, for each of the seven columns.
pub proof fn field_follows_column(entry: EntryView, k: int)
    requires
        0 <= k < column_names().len(),
    ensures
        column_names().len() == 7,
        cells(project_one(entry)).len() == column_names().len(),
        cells(project_one(entry))[k] == first_or_default(entry.attrs, column_names()[k]),
{
}

/// Where an entry has an attribute with several values, the field of that
/// name holds the first of them: `name` with the values `Alice`, `Alicia`
/// projects to `Alice`. So for each of the seven fields.
pub proof fn present_attribute_projects_first_value(entry: EntryView)
    ensures
        has_value(entry.attrs, "name"@) ==> project_one(entry).name == entry.attrs["name"@][0],
        has_value(entry.attrs, "description"@) ==> project_one(entry).description
            == entry.attrs["description"@][0],
        has_value(entry.attrs, "department"@) ==> project_one(entry).department
            == entry.attrs["department"@][0],
        has_value(entry.attrs, "title"@) ==> project_one(entry).title == entry.attrs["title"@][0],
        has_value(entry.attrs, "company"@) ==> project_one(entry).company
            == entry.attrs["company"@][0],
        has_value(entry.attrs, "mobile"@) ==> project_one(entry).mobile
            == entry.attrs["mobile"@][0],
        has_value(entry.attrs, "employeeType"@) ==> project_one(entry).employee_type
            == entry.attrs["employeeType"@][0],
{
}

/// Where an entry lacks an attribute, the field of that name is the empty
/// string, never absent: an entry without `mobile` projects to a record whose
/// `mobile` is empty. So for each of the seven fields.
pub proof fn missing_attribute_projects_empty(entry: EntryView)
    ensures
        !entry.attrs.contains_key("name"@) ==> project_one(entry).name == Seq::<char>::empty(),
        !entry.attrs.contains_key("description"@) ==> project_one(entry).description
            == Seq::<char>::empty(),
        !entry.attrs.contains_key("department"@) ==> project_one(entry).department
            == Seq::<char>::empty(),
        !entry.attrs.contains_key("title"@) ==> project_one(entry).title == Seq::<char>::empty(),
        !entry.attrs.contains_key("company"@) ==> project_one(entry).company
            == Seq::<char>::empty(),
        !entry.attrs.contains_key("mobile"@) ==> project_one(entry).mobile == Seq::<char>::empty(),
        !entry.attrs.contains_key("employeeType"@) ==> project_one(entry).employee_type
            == Seq::<char>::empty(),
{
}

/// Projection keeps count and order: there is one record per entry, record
/// `i` belongs to entry `i`, and projecting a concatenation gives the
/// concatenation of the projections.
pub proof fn projection_preserves_count_and_order(
    entries: Seq<EntryView>,
    suffix: Seq<EntryView>,
)
    ensures
        project_all(entries).len() == entries.len(),
        forall|i: int|
            0 <= i < entries.len() ==> #[trigger] project_all(entries)[i] == project_one(
                entries[i],
            ),
        project_all(entries + suffix) == project_all(entries) + project_all(suffix),
{
    assert(project_all(entries + suffix) =~= project_all(entries) + project_all(suffix));
}

/// Projection is a function of the entries alone: two projections of the same
/// entries are the same records.
pub proof fn projection_is_deterministic(
    entries: Seq<EntryView>,
    first: Seq<RecordView>,
    second: Seq<RecordView>,
)
    requires
        first == project_all(entries),
        second == project_all(entries),
    ensures
        first == second,
{
}

} // verus!
