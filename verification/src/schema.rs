//! The field schema of the device's attribute interface.
//!
//! Every configuration field corresponds to one attribute file whose base
//! name is the field's name. A fixed subset of the fields (the color fields)
//! is stored on disk as a bare hexadecimal literal; a read prepends `0x` to
//! such a value before surfacing it, while a write always sends the given
//! value verbatim.

use vstd::prelude::*;
use vstd::string::StringExecFns;

verus! {

/// One configuration field of the device. The set of fields is closed: it is
/// exactly the schema, for reads and for writes alike.
#[derive(Clone, Copy, PartialEq, Eq, Structural, Debug)]
pub enum Field {
    Brightness,
    ColorLeft,
    ColorCenter,
    ColorRight,
    ColorExtra,
    Mode,
    State,
}

/// The schema: every field, in the fixed order in which reads and write
/// planning walk them.
pub open spec fn spec_schema() -> Seq<Field> {
    seq![
        Field::Brightness,
        Field::ColorLeft,
        Field::ColorCenter,
        Field::ColorRight,
        Field::ColorExtra,
        Field::Mode,
        Field::State,
    ]
}

/// The position of a field in the schema.
pub open spec fn spec_field_index(f: Field) -> int {
    match f {
        Field::Brightness => 0,
        Field::ColorLeft => 1,
        Field::ColorCenter => 2,
        Field::ColorRight => 3,
        Field::ColorExtra => 4,
        Field::Mode => 5,
        Field::State => 6,
    }
}

/// Every field stands in the schema, at its index and nowhere else.
pub proof fn lemma_schema_index(f: Field)
    ensures
        0 <= spec_field_index(f) < spec_schema().len(),
        spec_schema()[spec_field_index(f)] == f,
        forall|i: int| 0 <= i < spec_schema().len() && spec_schema()[i] == f ==> i == spec_field_index(f),
{
}

/// The field name, which doubles as the attribute file's base name.
pub open spec fn spec_name(f: Field) -> Seq<char> {
    match f {
        Field::Brightness => "brightness"@,
        Field::ColorLeft => "color_left"@,
        Field::ColorCenter => "color_center"@,
        Field::ColorRight => "color_right"@,
        Field::ColorExtra => "color_extra"@,
        Field::Mode => "mode"@,
        Field::State => "state"@,
    }
}

/// Whether the field's on-disk text is a bare hexadecimal literal that a read
/// must surface with a `0x` prefix.
pub open spec fn spec_is_hex(f: Field) -> bool {
    match f {
        Field::ColorLeft | Field::ColorCenter | Field::ColorRight | Field::ColorExtra => true,
        Field::Brightness | Field::Mode | Field::State => false,
    }
}

/// What a read stores for a field whose file held `raw`: the raw text with
/// `0x` prepended for a hex-encoded field, the raw text verbatim otherwise.
pub open spec fn spec_encode(f: Field, raw: Seq<char>) -> Seq<char> {
    if spec_is_hex(f) {
        "0x"@ + raw
    } else {
        raw
    }
}

impl Field {
    /// The field's name as a string slice.
    pub fn name(&self) -> (r: &'static str)
        ensures
            r@ == spec_name(*self),
    {
        match self {
            Field::Brightness => "brightness",
            Field::ColorLeft => "color_left",
            Field::ColorCenter => "color_center",
            Field::ColorRight => "color_right",
            Field::ColorExtra => "color_extra",
            Field::Mode => "mode",
            Field::State => "state",
        }
    }
}

/// Whether the field is in the hex-encoded subset.
pub fn is_hex_field(f: Field) -> (r: bool)
    ensures
        r == spec_is_hex(f),
{
    match f {
        Field::ColorLeft | Field::ColorCenter | Field::ColorRight | Field::ColorExtra => true,
        Field::Brightness | Field::Mode | Field::State => false,
    }
}

/// The schema as a vector, in schema order.
pub fn schema() -> (r: Vec<Field>)
    ensures
        r@ == spec_schema(),
{
    let mut v: Vec<Field> = Vec::new();
    v.push(Field::Brightness);
    v.push(Field::ColorLeft);
    v.push(Field::ColorCenter);
    v.push(Field::ColorRight);
    v.push(Field::ColorExtra);
    v.push(Field::Mode);
    v.push(Field::State);
    proof {
        assert(v@ =~= spec_schema());
    }
    v
}

/// The schema field at a given position.
pub fn schema_field(i: usize) -> (r: Field)
    requires
        i < spec_schema().len(),
    ensures
        r == spec_schema()[i as int],
{
    if i == 0 {
        Field::Brightness
    } else if i == 1 {
        Field::ColorLeft
    } else if i == 2 {
        Field::ColorCenter
    } else if i == 3 {
        Field::ColorRight
    } else if i == 4 {
        Field::ColorExtra
    } else if i == 5 {
        Field::Mode
    } else {
        Field::State
    }
}

/// The value a read surfaces for a field whose attribute file held `raw`.
pub fn encode_read_value(f: Field, raw: &str) -> (r: String)
    ensures
        r@ == spec_encode(f, raw@),
{
    if is_hex_field(f) {
        let mut s = "0x".to_owned();
        s.append(raw);
        s
    } else {
        raw.to_owned()
    }
}

/// The attribute file path of a field: the configured root directory followed
/// by the field's name.
pub fn attribute_path(root: &str, f: Field) -> (r: String)
    ensures
        r@ == root@ + spec_name(f),
{
    let mut s = root.to_owned();
    s.append(f.name());
    s
}

} // verus!
