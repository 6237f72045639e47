//! The rows of a comma-separated table: how a field is written so that it can
//! be told apart from its neighbours, and how a row is read back.
//!
//! A field that holds a comma, a double quote, a line feed or a carriage
//! return is enclosed in double quotes, and each double quote inside it is
//! written twice. Every other field is written as it is.

use crate::text::chars_of;
use vstd::prelude::*;
use vstd::string::{StrSliceExecFns, StringExecFns};

verus! {

/// A character that a field cannot hold without quotes.
pub open spec fn is_special(c: char) -> bool {
    c == ',' || c == '"' || c == '\n' || c == '\r'
}

/// The field holds a character that calls for quotes.
pub open spec fn needs_quotes(field: Seq<char>) -> bool {
    exists|i: int| 0 <= i < field.len() && is_special(#[trigger] field[i])
}

/// `text` with every double quote written twice.
pub open spec fn doubled(text: Seq<char>) -> Seq<char>
    decreases text.len(),
{
    if text.len() == 0 {
        Seq::empty()
    } else if text[0] == '"' {
        seq!['"', '"'] + doubled(text.subrange(1, text.len() as int))
    } else {
        seq![text[0]] + doubled(text.subrange(1, text.len() as int))
    }
}

/// A field as it stands in a row: between double quotes and with its own
/// double quotes doubled if it needs quotes, unchanged if not.
pub open spec fn quoted(field: Seq<char>) -> Seq<char> {
    if needs_quotes(field) {
        seq!['"'] + doubled(field) + seq!['"']
    } else {
        field
    }
}

/// The fields that a reader finds in `rest`, when it has read `current` of the
/// field in progress and stands inside quotes or not.
///
/// Outside quotes a comma ends the field, and a double quote at the start of a
/// field opens quotes. Inside quotes two double quotes stand for one, and a
/// single one closes the quotes. Every other character belongs to the field.
pub open spec fn read_fields(rest: Seq<char>, current: Seq<char>, in_quotes: bool) -> Seq<
    Seq<char>,
>
    decreases rest.len(),
{
    if rest.len() == 0 {
        seq![current]
    } else {
        let after = rest.subrange(1, rest.len() as int);
        if in_quotes {
            if rest[0] != '"' {
                read_fields(after, current.push(rest[0]), true)
            } else if after.len() > 0 && after[0] == '"' {
                read_fields(after.subrange(1, after.len() as int), current.push('"'), true)
            } else {
                read_fields(after, current, false)
            }
        } else if rest[0] == ',' {
            seq![current] + read_fields(after, Seq::empty(), false)
        } else if rest[0] == '"' && current.len() == 0 {
            read_fields(after, current, true)
        } else {
            read_fields(after, current.push(rest[0]), false)
        }
    }
}

/// The fields of a row, read back: the texts between the commas that stand
/// outside quotes, each without its quotes. `row` is the row without the line
/// feed that ends it.
pub open spec fn fields(row: Seq<char>) -> Seq<Seq<char>> {
    read_fields(row, Seq::empty(), false)
}

/// Outside quotes, a reader takes text without commas and double quotes as it
/// stands.
proof fn read_plain(field: Seq<char>, tail: Seq<char>, current: Seq<char>)
    requires
        forall|i: int| 0 <= i < field.len() ==> field[i] != ',' && field[i] != '"',
    ensures
        read_fields(field + tail, current, false) == read_fields(tail, current + field, false),
    decreases field.len(),
{
    if field.len() == 0 {
        assert(field + tail =~= tail);
        assert(current + field =~= current);
    } else {
        let whole = field + tail;
        let shorter = field.subrange(1, field.len() as int);
        assert(whole[0] == field[0]);
        assert(whole.subrange(1, whole.len() as int) =~= shorter + tail);
        read_plain(shorter, tail, current.push(field[0]));
        assert(current.push(field[0]) + shorter =~= current + field);
    }
}

/// Inside quotes, a reader takes doubled text up to the closing quote as the
/// text that was doubled.
proof fn read_doubled(field: Seq<char>, tail: Seq<char>, current: Seq<char>)
    requires
        tail.len() == 0 || tail[0] != '"',
    ensures
        read_fields(doubled(field) + seq!['"'] + tail, current, true) == read_fields(
            tail,
            current + field,
            false,
        ),
    decreases field.len(),
{
    let whole = doubled(field) + seq!['"'] + tail;
    if field.len() == 0 {
        assert(whole =~= seq!['"'] + tail);
        assert(whole.subrange(1, whole.len() as int) =~= tail);
        assert(current + field =~= current);
    } else {
        let shorter = field.subrange(1, field.len() as int);
        let further = doubled(shorter) + seq!['"'] + tail;
        read_doubled(shorter, tail, current.push(field[0]));
        assert(current.push(field[0]) + shorter =~= current + field);
        let after = whole.subrange(1, whole.len() as int);
        if field[0] == '"' {
            assert(whole =~= seq!['"', '"'] + further);
            assert(whole[0] == '"');
            assert(after =~= seq!['"'] + further);
            assert(after[0] == '"');
            assert(after.subrange(1, after.len() as int) =~= further);
        } else {
            assert(whole =~= seq![field[0]] + further);
            assert(whole[0] == field[0]);
            assert(after =~= further);
        }
    }
}

/// A reader at the start of a field takes the quoted field, up to a comma or
/// the end of the row, as the field.
proof fn read_quoted(field: Seq<char>, tail: Seq<char>)
    requires
        tail.len() == 0 || tail[0] == ',',
    ensures
        read_fields(quoted(field) + tail, Seq::empty(), false) == read_fields(tail, field, false),
{
    let nothing = Seq::<char>::empty();
    assert(nothing + field =~= field);
    if needs_quotes(field) {
        let whole = quoted(field) + tail;
        let inner = doubled(field) + seq!['"'] + tail;
        assert(whole =~= seq!['"'] + inner);
        assert(whole[0] == '"');
        assert(whole.subrange(1, whole.len() as int) =~= inner);
        read_doubled(field, tail, nothing);
    } else {
        assert forall|i: int| 0 <= i < field.len() implies field[i] != ',' && field[i] != '"' by {
            assert(!is_special(field[i]));
        }
        read_plain(field, tail, nothing);
    }
}

/// A row of one quoted field reads back as that field.
pub proof fn fields_of_last(field: Seq<char>)
    ensures
        fields(quoted(field)) == seq![field],
{
    let nothing = Seq::<char>::empty();
    read_quoted(field, nothing);
    assert(quoted(field) + nothing =~= quoted(field));
}

/// A quoted field, a comma and the rest of a row read back as the field and
/// the fields of the rest.
pub proof fn fields_of_joined(field: Seq<char>, rest: Seq<char>)
    ensures
        fields(quoted(field) + seq![','] + rest) == seq![field] + fields(rest),
{
    let tail = seq![','] + rest;
    read_quoted(field, tail);
    assert(quoted(field) + seq![','] + rest =~= quoted(field) + tail);
    assert(tail[0] == ',');
    assert(tail.subrange(1, tail.len() as int) =~= rest);
}

/// Text without a double quote is its own doubling.
proof fn doubled_plain(text: Seq<char>)
    requires
        forall|i: int| 0 <= i < text.len() ==> text[i] != '"',
    ensures
        doubled(text) == text,
    decreases text.len(),
{
    if text.len() > 0 {
        let shorter = text.subrange(1, text.len() as int);
        doubled_plain(shorter);
        assert(seq![text[0]] + shorter =~= text);
    }
}

/// The doubling of two texts in a row is the two doublings in a row.
proof fn doubled_append(first: Seq<char>, second: Seq<char>)
    ensures
        doubled(first + second) == doubled(first) + doubled(second),
    decreases first.len(),
{
    if first.len() == 0 {
        assert(first + second =~= second);
        assert(doubled(first) + doubled(second) =~= doubled(second));
    } else {
        let whole = first + second;
        let shorter = first.subrange(1, first.len() as int);
        doubled_append(shorter, second);
        assert(whole[0] == first[0]);
        assert(whole.subrange(1, whole.len() as int) =~= shorter + second);
        if first[0] == '"' {
            assert(doubled(whole) =~= seq!['"', '"'] + (doubled(shorter) + doubled(second)));
            assert(doubled(whole) =~= doubled(first) + doubled(second));
        } else {
            assert(doubled(whole) =~= seq![first[0]] + (doubled(shorter) + doubled(second)));
            assert(doubled(whole) =~= doubled(first) + doubled(second));
        }
    }
}

/// Whether `field` holds a character that calls for quotes.
pub fn field_needs_quotes(field: &Vec<char>) -> (needed: bool)
    ensures
        needed == needs_quotes(field@),
{
    let mut at: usize = 0;
    while at < field.len()
        invariant
            at <= field.len(),
            forall|i: int| 0 <= i < at ==> !is_special(#[trigger] field@[i]),
        decreases field.len() - at,
    {
        let c = field[at];
        if c == ',' || c == '"' || c == '\n' || c == '\r' {
            assert(is_special(field@[at as int]));
            return true;
        }
        at += 1;
    }
    false
}

/// Writes a field as it stands in a row: in quotes, with its double quotes
/// doubled, if it holds a comma, a double quote, a line feed or a carriage
/// return, and unchanged if not.
pub fn quote_field(field: &str) -> (written: String)
    ensures
        written@ == quoted(field@),
{
    let chars = chars_of(field);
    if !field_needs_quotes(&chars) {
        return field.to_owned();
    }
    proof {
        reveal_strlit("\"");
        reveal_strlit("\"\"");
        assert("\""@ =~= seq!['"']);
        assert("\"\""@ =~= seq!['"', '"']);
    }
    let mut written = "\"".to_owned();
    let mut start: usize = 0;
    let mut at: usize = 0;
    while at < chars.len()
        invariant
            start <= at <= chars.len(),
            chars@ == field@,
            "\""@ == seq!['"'],
            "\"\""@ == seq!['"', '"'],
            written@ == seq!['"'] + doubled(chars@.subrange(0, start as int)),
            forall|i: int| start <= i < at ==> chars@[i] != '"',
        decreases chars.len() - at,
    {
        if chars[at] == '"' {
            let ghost done = chars@.subrange(0, start as int);
            let ghost plain = chars@.subrange(start as int, at as int);
            proof {
                doubled_plain(plain);
                doubled_append(done, plain);
                doubled_append(done + plain, seq!['"']);
                assert(doubled(seq!['"']) =~= seq!['"', '"']) by {
                    reveal_with_fuel(doubled, 2);
                    assert(seq!['"'].subrange(1, 1) =~= Seq::<char>::empty());
                }
                assert(done + plain + seq!['"'] =~= chars@.subrange(0, at + 1));
            }
            written.append(field.substring_char(start, at));
            written.append("\"\"");
            start = at + 1;
        }
        at += 1;
    }
    proof {
        let done = chars@.subrange(0, start as int);
        let plain = chars@.subrange(start as int, at as int);
        doubled_plain(plain);
        doubled_append(done, plain);
        assert(done + plain =~= chars@);
    }
    written.append(field.substring_char(start, at));
    written.append("\"");
    written
}

} // verus!
