//! The description of a schema, field by field, and its renderings.

use arrow::datatypes::Schema;
use vstd::prelude::*;

use crate::batch::schema_field_name;
use crate::batch::schema_field_nullable;
use crate::batch::schema_field_type;
use crate::batch::schema_fields;
use crate::batch::schema_len;
use crate::batch::FieldModel;
use crate::text::text_of;
use crate::text::texts;

verus! {

/// One field of a schema, as it is shown.
#[derive(Clone, Debug)]
pub struct SchemaField {
    pub name: String,
    pub data_type: String,
    pub converted_type: Option<String>,
    pub nullable: bool,
}

/// One column of a Parquet file, as its descriptor has it: the parts of its
/// path, the text of its physical type, that of its logical type where it has
/// one, the name of its converted type, and its maximum definition level.
pub struct ColumnInfo {
    pub path: Vec<String>,
    pub physical_type: String,
    pub logical_type: Option<String>,
    pub converted_type: String,
    pub max_def_level: i16,
}

/// One column of a Parquet file, as it is shown.
pub struct SchemaOutput {
    pub column_name: String,
    pub data_type: String,
    pub converted_type: Option<String>,
    pub nullable: bool,
}

/// The texts joined, with `separator` between one and the next.
pub open spec fn joined(parts: Seq<Seq<char>>, separator: Seq<char>) -> Seq<char>
    decreases parts.len(),
{
    if parts.len() == 0 {
        Seq::empty()
    } else if parts.len() == 1 {
        parts[0]
    } else {
        joined(parts.drop_last(), separator) + separator + parts.last()
    }
}

/// The name of the converted type of a column that has none.
pub open spec fn no_converted_type() -> Seq<char> {
    "NONE"@
}

fn join_with_dots(parts: &Vec<String>) -> (s: String)
    ensures
        s@ == joined(texts(parts@), "."@),
{
    let mut s = String::new();
    let mut i: usize = 0;
    let ghost names = texts(parts@);
    assert(names.take(0) == Seq::<Seq<char>>::empty());
    while i < parts.len()
        invariant
            i <= parts.len(),
            names == texts(parts@),
            s@ == joined(names.take(i as int), "."@),
        decreases parts.len() - i,
    {
        if i > 0 {
            s = s.concat(".");
        }
        s = s.concat(parts[i].as_str());
        proof {
            let upto = names.take(i as int + 1);
            assert(upto.drop_last() == names.take(i as int));
            assert(upto.last() == parts[i as int]@);
            if i == 0 {
                assert(Seq::<char>::empty() + parts[i as int]@ == parts[i as int]@);
            }
        }
        i += 1;
    }
    assert(names.take(parts.len() as int) == names);
    s
}

/// Map the descriptor of a column into a `SchemaOutput`: its name is its path,
/// joined by dots; its data type is its logical type where it has one and its
/// physical type otherwise; it has a converted type unless that is `NONE`; and
/// it is nullable unless its maximum definition level is zero.
pub fn column_to_schema_output(column: &ColumnInfo) -> (out: SchemaOutput)
    ensures
        out.column_name@ == joined(texts(column.path@), "."@),
        out.data_type@ == match column.logical_type {
            Some(logical) => logical@,
            None => column.physical_type@,
        },
        text_of(out.converted_type) == if column.converted_type@ == no_converted_type() {
            None
        } else {
            Some(column.converted_type@)
        },
        out.nullable == (column.max_def_level > 0),
{
    let column_name = join_with_dots(&column.path);
    let data_type = match &column.logical_type {
        Some(logical) => logical.clone(),
        None => column.physical_type.clone(),
    };
    let converted_type = if column.converted_type == String::from_str("NONE") {
        None
    } else {
        Some(column.converted_type.clone())
    };
    let nullable = column.max_def_level > 0;
    SchemaOutput { column_name, data_type, converted_type, nullable }
}

impl SchemaOutput {
    /// The field that is shown for the column.
    pub fn to_schema_field(&self) -> (f: SchemaField)
        ensures
            f.name@ == self.column_name@,
            f.data_type@ == self.data_type@,
            text_of(f.converted_type) == text_of(self.converted_type),
            f.nullable == self.nullable,
    {
        SchemaField {
            name: self.column_name.clone(),
            data_type: self.data_type.clone(),
            converted_type: match &self.converted_type {
                Some(ct) => Some(ct.clone()),
                None => None,
            },
            nullable: self.nullable,
        }
    }

    /// The line that is shown for the column.
    pub fn to_string(&self) -> (line: String)
        ensures
            line@ == field_line(
                self.column_name@,
                self.data_type@,
                text_of(self.converted_type),
                self.nullable,
            ),
    {
        line_of(&self.column_name, &self.data_type, &self.converted_type, self.nullable)
    }
}

/// The line that is shown for a field: its name, a colon, its data type, its
/// converted type in brackets where it has one, and `, nullable` where it
/// admits nulls.
pub open spec fn field_line(
    name: Seq<char>,
    data_type: Seq<char>,
    converted_type: Option<Seq<char>>,
    nullable: bool,
) -> Seq<char> {
    name + ": "@ + data_type + match converted_type {
        Some(c) => " ("@ + c + ")"@,
        None => Seq::empty(),
    } + if nullable {
        ", nullable"@
    } else {
        Seq::empty()
    }
}

fn line_of(name: &String, data_type: &String, converted_type: &Option<String>, nullable: bool) -> (line:
    String)
    ensures
        line@ == field_line(name@, data_type@, text_of(*converted_type), nullable),
{
    let mut line = name.clone();
    line = line.concat(": ");
    line = line.concat(data_type.as_str());
    match converted_type {
        Some(c) => {
            let ghost before = line@;
            line = line.concat(" (");
            line = line.concat(c.as_str());
            line = line.concat(")");
            assert(line@ == before + (" ("@ + c@ + ")"@));
        },
        None => {
            assert(line@ + Seq::<char>::empty() == line@);
        },
    }
    if nullable {
        line = line.concat(", nullable");
    } else {
        assert(line@ + Seq::<char>::empty() == line@);
    }
    line
}

/// A value of a YAML mapping.
#[derive(Clone, Debug)]
pub enum YamlValue {
    Text(String),
    Null,
    Boolean(bool),
}

/// A value of a YAML mapping, as a plain value.
pub enum YamlModel {
    Text(Seq<char>),
    Null,
    Boolean(bool),
}

pub open spec fn yaml_model(v: YamlValue) -> YamlModel {
    match v {
        YamlValue::Text(s) => YamlModel::Text(s@),
        YamlValue::Null => YamlModel::Null,
        YamlValue::Boolean(b) => YamlModel::Boolean(b),
    }
}

/// The keys and values of a list of entries.
pub open spec fn entries_model(entries: Seq<(String, YamlValue)>) -> Seq<(Seq<char>, YamlModel)> {
    Seq::new(entries.len(), |i: int| (entries[i].0@, yaml_model(entries[i].1)))
}

/// The entries of the mapping that is shown for a field, in order: its name,
/// its data type, its converted type, and whether it is nullable. A field
/// without converted type has the entry as a null, and has no such entry at
/// all where the mapping is sparse.
pub open spec fn field_mapping(
    name: Seq<char>,
    data_type: Seq<char>,
    converted_type: Option<Seq<char>>,
    nullable: bool,
    sparse: bool,
) -> Seq<(Seq<char>, YamlModel)> {
    seq![("name"@, YamlModel::Text(name)), ("data_type"@, YamlModel::Text(data_type))]
        + match converted_type {
        Some(c) => seq![("converted_type"@, YamlModel::Text(c))],
        None => if sparse {
            Seq::empty()
        } else {
            seq![("converted_type"@, YamlModel::Null)]
        },
    } + seq![("nullable"@, YamlModel::Boolean(nullable))]
}

impl SchemaField {
    /// The line that is shown for the field.
    pub fn to_line(&self) -> (line: String)
        ensures
            line@ == field_line(
                self.name@,
                self.data_type@,
                text_of(self.converted_type),
                self.nullable,
            ),
    {
        line_of(&self.name, &self.data_type, &self.converted_type, self.nullable)
    }

    /// The entries of the YAML mapping that is shown for the field.
    pub fn to_yaml_mapping(&self, sparse: bool) -> (entries: Vec<(String, YamlValue)>)
        ensures
            entries_model(entries@) == field_mapping(
                self.name@,
                self.data_type@,
                text_of(self.converted_type),
                self.nullable,
                sparse,
            ),
    {
        let mut entries: Vec<(String, YamlValue)> = Vec::new();
        entries.push((String::from_str("name"), YamlValue::Text(self.name.clone())));
        entries.push((String::from_str("data_type"), YamlValue::Text(self.data_type.clone())));
        match &self.converted_type {
            Some(ct) => {
                entries.push((String::from_str("converted_type"), YamlValue::Text(ct.clone())));
            },
            None => {
                if !sparse {
                    entries.push((String::from_str("converted_type"), YamlValue::Null));
                }
            },
        }
        entries.push((String::from_str("nullable"), YamlValue::Boolean(self.nullable)));
        assert(entries_model(entries@) =~= field_mapping(
            self.name@,
            self.data_type@,
            text_of(self.converted_type),
            self.nullable,
            sparse,
        ));
        entries
    }
}

/// The field is shown as the schema has it, without converted type.
pub open spec fn shows(f: SchemaField, m: FieldModel) -> bool {
    &&& f.name@ == m.name
    &&& f.data_type@ == m.data_type
    &&& f.converted_type is None
    &&& f.nullable == m.nullable
}

/// The fields of a schema, as they are shown: one for each field of the
/// schema, in order, none of them with a converted type.
pub fn schema_to_fields(schema: &Schema) -> (fields: Vec<SchemaField>)
    ensures
        fields.len() == schema_fields(*schema).len(),
        forall|i: int|
            0 <= i < fields.len() ==> shows(#[trigger] fields[i], schema_fields(*schema)[i]),
{
    let mut fields: Vec<SchemaField> = Vec::new();
    let count: usize = schema_len(schema);
    let mut i: usize = 0;
    while i < count
        invariant
            i <= count,
            count == schema_fields(*schema).len(),
            fields.len() == i,
            forall|j: int| 0 <= j < i ==> shows(#[trigger] fields[j], schema_fields(*schema)[j]),
        decreases count - i,
    {
        fields.push(
            SchemaField {
                name: schema_field_name(schema, i),
                data_type: schema_field_type(schema, i),
                converted_type: None,
                nullable: schema_field_nullable(schema, i),
            },
        );
        i += 1;
    }
    fields
}

} // verus!
