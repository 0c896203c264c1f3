use vstd::prelude::*;
use vstd::string::StringExecFns;
use crate::cursor::ByteCursor;
use crate::error::ProtocolError;
use crate::readable::Readable;
use crate::text::{decimal_text, hex_text, push_hex, push_signed, push_unsigned};
use crate::varint::VarInt;

verus! {

/// The wire type of a packet field.
///
/// `Float` and `Double` fields are carried as the 32 or 64 bits of their
/// IEEE 754 form; turning the bits into a number is left to the caller.
#[derive(Clone, Copy, Debug, PartialEq, Eq, Structural)]
pub enum FieldType {
    VarInt,
    Short,
    Int,
    Long,
    UnsignedShort,
    UnsignedInt,
    UnsignedLong,
    Float,
    Double,
    Text,
}

/// One field of a packet: its name and its wire type.
#[derive(Clone, Copy, Debug)]
pub struct FieldSpec {
    pub name: &'static str,
    pub kind: FieldType,
}

/// A decoded field.
#[derive(Clone, Debug, PartialEq, Eq)]
pub enum FieldValue {
    VarInt(i32),
    Short(i16),
    Int(i32),
    Long(i64),
    UnsignedShort(u16),
    UnsignedInt(u32),
    UnsignedLong(u64),
    Float(u32),
    Double(u64),
    Text(String),
}

/// A decoded field as contracts see it: a text is the sequence of its characters.
pub enum FieldValueView {
    VarInt(i32),
    Short(i16),
    Int(i32),
    Long(i64),
    UnsignedShort(u16),
    UnsignedInt(u32),
    UnsignedLong(u64),
    Float(u32),
    Double(u64),
    Text(Seq<char>),
}

impl View for FieldValue {
    type V = FieldValueView;

    open spec fn view(&self) -> FieldValueView {
        match self {
            FieldValue::VarInt(v) => FieldValueView::VarInt(*v),
            FieldValue::Short(v) => FieldValueView::Short(*v),
            FieldValue::Int(v) => FieldValueView::Int(*v),
            FieldValue::Long(v) => FieldValueView::Long(*v),
            FieldValue::UnsignedShort(v) => FieldValueView::UnsignedShort(*v),
            FieldValue::UnsignedInt(v) => FieldValueView::UnsignedInt(*v),
            FieldValue::UnsignedLong(v) => FieldValueView::UnsignedLong(*v),
            FieldValue::Float(bits) => FieldValueView::Float(*bits),
            FieldValue::Double(bits) => FieldValueView::Double(*bits),
            FieldValue::Text(s) => FieldValueView::Text(s@),
        }
    }
}

impl FieldValueView {
    /// The wire type that decodes to a value of this shape.
    pub open spec fn kind(self) -> FieldType {
        match self {
            FieldValueView::VarInt(_) => FieldType::VarInt,
            FieldValueView::Short(_) => FieldType::Short,
            FieldValueView::Int(_) => FieldType::Int,
            FieldValueView::Long(_) => FieldType::Long,
            FieldValueView::UnsignedShort(_) => FieldType::UnsignedShort,
            FieldValueView::UnsignedInt(_) => FieldType::UnsignedInt,
            FieldValueView::UnsignedLong(_) => FieldType::UnsignedLong,
            FieldValueView::Float(_) => FieldType::Float,
            FieldValueView::Double(_) => FieldType::Double,
            FieldValueView::Text(_) => FieldType::Text,
        }
    }
}

/// The views of a list of decoded fields, in order.
pub open spec fn views_of(values: Seq<FieldValue>) -> Seq<FieldValueView> {
    Seq::new(values.len(), |i: int| values[i]@)
}

/// What a field of wire type `kind` at the head of `bytes` decodes to, and how
/// many bytes it takes.
pub open spec fn field_parse(kind: FieldType, bytes: Seq<u8>) -> Result<
    (FieldValueView, nat),
    ProtocolError,
> {
    match kind {
        FieldType::VarInt => match VarInt::parse(bytes) {
            Ok((v, used)) => Ok((FieldValueView::VarInt(v), used)),
            Err(e) => Err(e),
        },
        FieldType::Short => match i16::parse(bytes) {
            Ok((v, used)) => Ok((FieldValueView::Short(v), used)),
            Err(e) => Err(e),
        },
        FieldType::Int => match i32::parse(bytes) {
            Ok((v, used)) => Ok((FieldValueView::Int(v), used)),
            Err(e) => Err(e),
        },
        FieldType::Long => match i64::parse(bytes) {
            Ok((v, used)) => Ok((FieldValueView::Long(v), used)),
            Err(e) => Err(e),
        },
        FieldType::UnsignedShort => match u16::parse(bytes) {
            Ok((v, used)) => Ok((FieldValueView::UnsignedShort(v), used)),
            Err(e) => Err(e),
        },
        FieldType::UnsignedInt => match u32::parse(bytes) {
            Ok((v, used)) => Ok((FieldValueView::UnsignedInt(v), used)),
            Err(e) => Err(e),
        },
        FieldType::UnsignedLong => match u64::parse(bytes) {
            Ok((v, used)) => Ok((FieldValueView::UnsignedLong(v), used)),
            Err(e) => Err(e),
        },
        FieldType::Float => match u32::parse(bytes) {
            Ok((bits, used)) => Ok((FieldValueView::Float(bits), used)),
            Err(e) => Err(e),
        },
        FieldType::Double => match u64::parse(bytes) {
            Ok((bits, used)) => Ok((FieldValueView::Double(bits), used)),
            Err(e) => Err(e),
        },
        FieldType::Text => match String::parse(bytes) {
            Ok((text, used)) => Ok((FieldValueView::Text(text), used)),
            Err(e) => Err(e),
        },
    }
}

/// What the fields `fields` of the packet named `packet`, read one after the
/// other from the head of `bytes`, decode to, and how many bytes they take
/// together. The first field that fails ends the reading; its failure is
/// handed on inside a `FieldDecodeError` that names the packet and the field.
pub open spec fn fields_parse(packet: &'static str, fields: Seq<FieldSpec>, bytes: Seq<u8>) -> Result<
    (Seq<FieldValueView>, nat),
    ProtocolError,
>
    decreases fields.len(),
{
    if fields.len() == 0 {
        Ok((Seq::empty(), 0))
    } else {
        match fields_parse(packet, fields.drop_last(), bytes) {
            Err(e) => Err(e),
            Ok((values, used)) => match field_parse(fields.last().kind, bytes.skip(used as int)) {
                Err(cause) => Err(
                    ProtocolError::FieldDecodeError {
                        packet,
                        field: fields.last().name,
                        cause: Box::new(cause),
                    },
                ),
                Ok((value, more)) => Ok((values.push(value), used + more)),
            },
        }
    }
}

/// Reads one field of wire type `kind`.
///
/// On success the cursor has moved past the field; on failure it stays where
/// it was and the error is that of the primitive reader.
pub fn read_field(kind: FieldType, buffer: &mut ByteCursor) -> (r: Result<FieldValue, ProtocolError>)
    requires
        old(buffer).wf(),
    ensures
        final(buffer).wf(),
        final(buffer).bytes() == old(buffer).bytes(),
        match field_parse(kind, old(buffer).remaining()) {
            Ok((value, used)) => r matches Ok(got) && got@ == value && final(buffer).offset()
                == old(buffer).offset() + used,
            Err(e) => r matches Err(got) && got == e && final(buffer).offset() == old(
                buffer,
            ).offset(),
        },
{
    match kind {
        FieldType::VarInt => match VarInt::read(buffer) {
            Ok(v) => Ok(FieldValue::VarInt(v.0)),
            Err(e) => Err(e),
        },
        FieldType::Short => match i16::read(buffer) {
            Ok(v) => Ok(FieldValue::Short(v)),
            Err(e) => Err(e),
        },
        FieldType::Int => match i32::read(buffer) {
            Ok(v) => Ok(FieldValue::Int(v)),
            Err(e) => Err(e),
        },
        FieldType::Long => match i64::read(buffer) {
            Ok(v) => Ok(FieldValue::Long(v)),
            Err(e) => Err(e),
        },
        FieldType::UnsignedShort => match u16::read(buffer) {
            Ok(v) => Ok(FieldValue::UnsignedShort(v)),
            Err(e) => Err(e),
        },
        FieldType::UnsignedInt => match u32::read(buffer) {
            Ok(v) => Ok(FieldValue::UnsignedInt(v)),
            Err(e) => Err(e),
        },
        FieldType::UnsignedLong => match u64::read(buffer) {
            Ok(v) => Ok(FieldValue::UnsignedLong(v)),
            Err(e) => Err(e),
        },
        FieldType::Float => match u32::read(buffer) {
            Ok(bits) => Ok(FieldValue::Float(bits)),
            Err(e) => Err(e),
        },
        FieldType::Double => match u64::read(buffer) {
            Ok(bits) => Ok(FieldValue::Double(bits)),
            Err(e) => Err(e),
        },
        FieldType::Text => match String::read(buffer) {
            Ok(text) => Ok(FieldValue::Text(text)),
            Err(e) => Err(e),
        },
    }
}

/// The ordered field list of one packet type, under the packet's name.
#[derive(Clone, Debug)]
pub struct PacketSchema {
    pub name: &'static str,
    pub fields: Vec<FieldSpec>,
}

/// How a decoded field is written in a rendering: numbers in decimal, a text
/// as it is, the bits of a float or double in hexadecimal.
pub open spec fn value_text(value: FieldValueView) -> Seq<char> {
    match value {
        FieldValueView::VarInt(v) => decimal_text(v as int),
        FieldValueView::Short(v) => decimal_text(v as int),
        FieldValueView::Int(v) => decimal_text(v as int),
        FieldValueView::Long(v) => decimal_text(v as int),
        FieldValueView::UnsignedShort(v) => decimal_text(v as int),
        FieldValueView::UnsignedInt(v) => decimal_text(v as int),
        FieldValueView::UnsignedLong(v) => decimal_text(v as int),
        FieldValueView::Float(bits) => hex_text(bits as nat),
        FieldValueView::Double(bits) => hex_text(bits as nat),
        FieldValueView::Text(text) => text,
    }
}

/// The lines of the first `n` fields of a rendering: a tab, the field's name,
/// a colon and a space, the value, a line feed.
pub open spec fn render_lines(fields: Seq<FieldSpec>, values: Seq<FieldValueView>, n: nat) -> Seq<
    char,
>
    decreases n,
{
    if n == 0 {
        Seq::empty()
    } else {
        render_lines(fields, values, (n - 1) as nat) + seq!['\t'] + fields[n - 1].name@ + seq![
            ':',
            ' ',
        ] + value_text(values[n - 1]) + seq!['\n']
    }
}

/// The rendering of a decoded packet: its name and an opening brace, one line
/// for each field that has a value, a closing brace.
pub open spec fn render_text(name: Seq<char>, fields: Seq<FieldSpec>, values: Seq<FieldValueView>) -> Seq<
    char,
> {
    let n = if values.len() < fields.len() {
        values.len()
    } else {
        fields.len()
    };
    name + seq![' ', '{', '\n'] + render_lines(fields, values, n) + seq!['}']
}

/// `values` has one value for each field of `fields`, each of the field's
/// wire type.
pub open spec fn conforms(fields: Seq<FieldSpec>, values: Seq<FieldValueView>) -> bool {
    &&& values.len() == fields.len()
    &&& forall|i: int| 0 <= i < fields.len() ==> (#[trigger] values[i]).kind() == fields[i].kind
}

/// A field that decodes has the wire type that was asked for and ends within
/// the bytes it was read from.
pub proof fn lemma_field_parse_shape(kind: FieldType, bytes: Seq<u8>)
    ensures
        field_parse(kind, bytes) matches Ok((value, used)) ==> value.kind() == kind && 1 <= used
            <= bytes.len(),
{
    crate::varint::lemma_varint_parse_bounds(bytes);
}

/// Fields that decode come out one for one, in the declared order, each of
/// its declared type, and end within the bytes they were read from.
pub proof fn lemma_fields_parse_shape(packet: &'static str, fields: Seq<FieldSpec>, bytes: Seq<u8>)
    ensures
        fields_parse(packet, fields, bytes) matches Ok((values, used)) ==> conforms(fields, values)
            && used <= bytes.len() && (fields.len() > 0 ==> used >= 1),
    decreases fields.len(),
{
    if fields.len() > 0 {
        lemma_fields_parse_shape(packet, fields.drop_last(), bytes);
        if let Ok((values, used)) = fields_parse(packet, fields.drop_last(), bytes) {
            lemma_field_parse_shape(fields.last().kind, bytes.skip(used as int));
        }
    }
}

/// A failure among the first `k` fields is the failure of the whole list.
proof fn lemma_failure_sticks(packet: &'static str, fields: Seq<FieldSpec>, bytes: Seq<u8>, k: nat)
    requires
        k <= fields.len(),
        fields_parse(packet, fields.take(k as int), bytes) is Err,
    ensures
        fields_parse(packet, fields, bytes) == fields_parse(packet, fields.take(k as int), bytes),
    decreases fields.len() - k,
{
    if k == fields.len() {
        assert(fields.take(k as int) =~= fields);
    } else {
        assert(fields.drop_last().take(k as int) =~= fields.take(k as int));
        lemma_failure_sticks(packet, fields.drop_last(), bytes, k);
    }
}

fn push_value(out: &mut String, value: &FieldValue)
    ensures
        final(out)@ == old(out)@ + value_text(value@),
{
    match value {
        FieldValue::VarInt(v) => push_signed(out, *v as i64),
        FieldValue::Short(v) => push_signed(out, *v as i64),
        FieldValue::Int(v) => push_signed(out, *v as i64),
        FieldValue::Long(v) => push_signed(out, *v),
        FieldValue::UnsignedShort(v) => push_unsigned(out, *v as u64),
        FieldValue::UnsignedInt(v) => push_unsigned(out, *v as u64),
        FieldValue::UnsignedLong(v) => push_unsigned(out, *v),
        FieldValue::Float(bits) => push_hex(out, *bits as u64),
        FieldValue::Double(bits) => push_hex(out, *bits),
        FieldValue::Text(text) => out.append(text.as_str()),
    }
}

impl PacketSchema {
    /// A schema without fields for the packet named `name`.
    pub fn new(name: &'static str) -> (schema: PacketSchema)
        ensures
            schema.name == name,
            schema.fields@ == Seq::<FieldSpec>::empty(),
    {
        PacketSchema { name, fields: Vec::new() }
    }

    /// The schema with one more field behind those it has.
    pub fn with_field(self, name: &'static str, kind: FieldType) -> (schema: PacketSchema)
        ensures
            schema.name == self.name,
            schema.fields@ == self.fields@.push(FieldSpec { name, kind }),
    {
        let mut schema = self;
        schema.fields.push(FieldSpec { name, kind });
        schema
    }

    /// Reads the fields of the schema, strictly in their declared order.
    ///
    /// On success the values come in the order of the fields and the cursor
    /// has moved past the last of them. The first field that fails ends the
    /// reading: the cursor stays where it was before the first field, and the
    /// error is a `FieldDecodeError` with the packet's and the field's name
    /// around the failure of the primitive reader.
    pub fn read(&self, buffer: &mut ByteCursor) -> (r: Result<Vec<FieldValue>, ProtocolError>)
        requires
            old(buffer).wf(),
        ensures
            final(buffer).wf(),
            final(buffer).bytes() == old(buffer).bytes(),
            match fields_parse(self.name, self.fields@, old(buffer).remaining()) {
                Ok((values, used)) => r matches Ok(got) && views_of(got@) == values
                    && final(buffer).offset() == old(buffer).offset() + used,
                Err(e) => r matches Err(got) && got == e && final(buffer).offset() == old(
                    buffer,
                ).offset(),
            },
    {
        let ghost input = buffer.remaining();
        let mut probe = *buffer;
        let mut values: Vec<FieldValue> = Vec::new();
        let mut i: usize = 0;
        assert(self.fields@.take(0) =~= Seq::<FieldSpec>::empty());
        assert(views_of(values@) =~= Seq::<FieldValueView>::empty());
        while i < self.fields.len()
            invariant
                *buffer == *old(buffer),
                input == buffer.remaining(),
                buffer.wf(),
                probe.wf(),
                probe.bytes() == buffer.bytes(),
                probe.offset() >= buffer.offset(),
                i <= self.fields@.len(),
                fields_parse(self.name, self.fields@.take(i as int), input) == Ok::<
                    (Seq<FieldValueView>, nat),
                    ProtocolError,
                >((views_of(values@), (probe.offset() - buffer.offset()) as nat)),
            decreases self.fields@.len() - i,
        {
            let field = self.fields[i];
            let ghost used = (probe.offset() - buffer.offset()) as nat;
            let ghost before = views_of(values@);
            proof {
                assert(probe.remaining() =~= input.skip(used as int));
                assert(self.fields@.take(i + 1).drop_last() =~= self.fields@.take(i as int));
                assert(self.fields@.take(i + 1).last() == field);
            }
            match read_field(field.kind, &mut probe) {
                Ok(value) => {
                    values.push(value);
                    assert(views_of(values@) =~= before.push(value@));
                },
                Err(cause) => {
                    proof {
                        lemma_failure_sticks(self.name, self.fields@, input, (i + 1) as nat);
                    }
                    return Err(
                        ProtocolError::FieldDecodeError {
                            packet: self.name,
                            field: field.name,
                            cause: Box::new(cause),
                        },
                    );
                },
            }
            i = i + 1;
        }
        assert(self.fields@.take(i as int) =~= self.fields@);
        *buffer = probe;
        Ok(values)
    }

    /// The rendering of `values` as fields of this schema, for tracing.
    pub fn render(&self, values: &Vec<FieldValue>) -> (text: String)
        ensures
            text@ == render_text(self.name@, self.fields@, views_of(values@)),
    {
        proof {
            reveal_strlit(" {\n");
            reveal_strlit("\t");
            reveal_strlit(": ");
            reveal_strlit("\n");
            reveal_strlit("}");
        }
        let count: usize = if values.len() < self.fields.len() {
            values.len()
        } else {
            self.fields.len()
        };
        let mut text = String::new();
        text.append(self.name);
        text.append(" {\n");
        let ghost head = text@;
        assert(head =~= self.name@ + seq![' ', '{', '\n']);
        let mut i: usize = 0;
        while i < count
            invariant
                i <= count,
                count <= values@.len(),
                count <= self.fields@.len(),
                head == self.name@ + seq![' ', '{', '\n'],
                text@ == head + render_lines(self.fields@, views_of(values@), i as nat),
            decreases count - i,
        {
            let ghost lines = render_lines(self.fields@, views_of(values@), i as nat);
            text.append("\t");
            text.append(self.fields[i].name);
            text.append(": ");
            push_value(&mut text, &values[i]);
            text.append("\n");
            i = i + 1;
            proof {
                reveal_strlit("\t");
                reveal_strlit(": ");
                reveal_strlit("\n");
                assert(views_of(values@)[i - 1] == values@[i - 1]@);
                assert(text@ =~= head + render_lines(self.fields@, views_of(values@), i as nat));
            }
        }
        text.append("}");
        assert(text@ =~= render_text(self.name@, self.fields@, views_of(values@)));
        text
    }
}

} // verus!
