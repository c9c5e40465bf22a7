//! The JSON text of the records exchanged on the wire: one object per
//! record, its fields in declaration order, without spaces.

use vstd::prelude::*;

use crate::encoding::{decimal, decimal_text, json_quoted, json_string};

verus! {

/// A field of text: its separator and name (`,"name":` or `{"name":`)
/// followed by the JSON literal of the text.
pub open spec fn text_field(head: Seq<char>, value: Seq<char>) -> Seq<char> {
    head + json_quoted(value)
}

/// A field holding a byte: its separator and name followed by the decimal
/// text of the byte.
pub open spec fn byte_field(head: Seq<char>, value: u8) -> Seq<char> {
    head + decimal_text(value)
}

/// Appends a field of text to the JSON text being built.
pub(crate) fn push_text_field(json: &mut String, head: &str, value: &str)
    ensures
        final(json)@ == old(json)@ + text_field(head@, value@),
{
    let literal = json_string(value);
    let ghost before = json@;
    json.append(head);
    json.append(literal.as_str());
    assert(json@ =~= before + text_field(head@, value@));
}

/// Appends a field holding a byte to the JSON text being built.
pub(crate) fn push_byte_field(json: &mut String, head: &str, value: u8)
    ensures
        final(json)@ == old(json)@ + byte_field(head@, value),
{
    let digits = decimal(value);
    let ghost before = json@;
    json.append(head);
    json.append(digits.as_str());
    assert(json@ =~= before + byte_field(head@, value));
}

} // verus!
