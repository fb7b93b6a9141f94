//! JSON as text. Reading and writing JSON is left to `serde_json`; this module
//! holds the few calls into it, each behind a contract that is believed
//! rather than proved, and the verified framing of an array from its elements.

use crate::text::digit_char;
use vstd::prelude::*;

verus! {

/// One element of a JSON array, held as plain text.
pub struct Element {
    /// The element as compact JSON text.
    pub json: String,
    /// The string that the element holds, where it is a JSON string.
    pub text: Option<String>,
}

/// What an element is in contracts: its JSON text, and its string if it is one.
pub type ElementView = (Seq<char>, Option<Seq<char>>);

impl View for Element {
    type V = ElementView;

    open spec fn view(&self) -> ElementView {
        (
            self.json@,
            match self.text {
                Some(t) => Some(t@),
                None => None,
            },
        )
    }
}

/// The views of a run of elements, in order.
pub open spec fn elements_view(elements: Seq<Element>) -> Seq<ElementView> {
    Seq::new(elements.len(), |i: int| elements[i]@)
}

/// What `serde_json` makes of `text` read as a JSON array: its elements in
/// order, or the message of the parse error.
pub uninterp spec fn json_array(text: Seq<char>) -> Result<
    Seq<(Seq<char>, Option<Seq<char>>)>,
    Seq<char>,
>;

/// A hexadecimal digit, with small letters for ten to fifteen.
pub open spec fn hex_digit(d: nat) -> char
    recommends
        d < 16,
{
    if d < 10 {
        digit_char(d)
    } else if d == 10 {
        'a'
    } else if d == 11 {
        'b'
    } else if d == 12 {
        'c'
    } else if d == 13 {
        'd'
    } else if d == 14 {
        'e'
    } else {
        'f'
    }
}

/// How one character stands inside a JSON string literal. The quotation
/// mark, the backslash and every control character below U+0020 are written
/// as an escape: five of the control characters by their letter, the others
/// by their number in four hexadecimal digits. Any other character stands
/// for itself.
pub open spec fn escape(c: char) -> Seq<char> {
    if c == '"' {
        seq!['\\', '"']
    } else if c == '\\' {
        seq!['\\', '\\']
    } else if c == '\u{8}' {
        seq!['\\', 'b']
    } else if c == '\t' {
        seq!['\\', 't']
    } else if c == '\n' {
        seq!['\\', 'n']
    } else if c == '\u{c}' {
        seq!['\\', 'f']
    } else if c == '\r' {
        seq!['\\', 'r']
    } else if (c as nat) < 0x20 {
        seq!['\\', 'u', '0', '0', hex_digit((c as nat) / 16), hex_digit((c as nat) % 16)]
    } else {
        seq![c]
    }
}

/// The characters of `s`, each as it stands inside a JSON string literal.
pub open spec fn escaped(s: Seq<char>) -> Seq<char>
    decreases s.len(),
{
    if s.len() == 0 {
        Seq::empty()
    } else {
        escaped(s.drop_last()) + escape(s.last())
    }
}

/// The JSON string literal for `s`: its characters, escaped, between
/// quotation marks.
pub open spec fn json_quote(s: Seq<char>) -> Seq<char> {
    seq!['"'] + escaped(s) + seq!['"']
}

/// Calls `serde_json::from_str` for a `Vec<serde_json::Value>` and hands each
/// element out as text: `Value::to_string` for its compact JSON and
/// `Value::as_str` for the string it holds, if it is one. The contract only
/// names the outcome: the same text always gives the same elements or the same
/// error message. Nothing is proved of it.
#[verifier::external_body]
pub(crate) fn parse_array(text: &str) -> (r: Result<Vec<Element>, String>)
    ensures
        match r {
            Ok(elements) => json_array(text@) == Ok::<Seq<ElementView>, Seq<char>>(
                elements_view(elements@),
            ),
            Err(message) => json_array(text@) == Err::<Seq<ElementView>, Seq<char>>(message@),
        },
{
    let values: Vec<serde_json::Value> = serde_json::from_str(text).map_err(|e| e.to_string())?;
    Ok(
        values.iter().map(
            |v| Element { json: v.to_string(), text: v.as_str().map(str::to_owned) },
        ).collect(),
    )
}

/// Whether a text holds no line break: neither a line feed nor a carriage
/// return.
pub open spec fn no_line_break(text: Seq<char>) -> bool {
    forall|i: int| 0 <= i < text.len() ==> text[i] != '\n' && text[i] != '\r'
}

/// Calls `serde_json::Value::to_string` on a `Value::String` made of `s`. The
/// contract states what `serde_json` writes for a string: a quotation mark,
/// each character as its table of escapes has it, and a quotation mark.
#[verifier::external_body]
pub(crate) fn quote(s: &str) -> (r: String)
    ensures
        r@ == json_quote(s@),
{
    serde_json::Value::from(s).to_string()
}

/// The given texts with a comma between each two neighbours.
pub open spec fn comma_separated(items: Seq<Seq<char>>) -> Seq<char>
    decreases items.len(),
{
    if items.len() == 0 {
        Seq::empty()
    } else if items.len() == 1 {
        items[0]
    } else {
        comma_separated(items.drop_last()) + seq![','] + items.last()
    }
}

/// The text of the JSON array whose elements are the given JSON texts.
pub open spec fn array_text(items: Seq<Seq<char>>) -> Seq<char> {
    seq!['['] + comma_separated(items) + seq![']']
}

/// The views of a run of strings, in order.
pub open spec fn texts(items: Seq<String>) -> Seq<Seq<char>> {
    Seq::new(items.len(), |i: int| items[i]@)
}

/// Frames JSON texts as one JSON array, without any white space.
pub fn write_array(items: &Vec<String>) -> (r: String)
    ensures
        r@ == array_text(texts(items@)),
{
    proof {
        reveal_strlit("[");
        reveal_strlit("]");
        reveal_strlit(",");
    }
    let mut r = String::from_str("[");
    let mut i: usize = 0;
    while i < items.len()
        invariant
            i <= items.len(),
            ","@ == seq![','],
            r@ == seq!['['] + comma_separated(texts(items@).take(i as int)),
        decreases items.len() - i,
    {
        let ghost before = texts(items@).take(i as int);
        let ghost after = texts(items@).take(i + 1);
        assert(after.drop_last() =~= before);
        assert(after.last() == items@[i as int]@);
        if i > 0 {
            r.append(",");
        }
        r.append(items[i].as_str());
        assert(r@ =~= seq!['['] + comma_separated(after));
        i = i + 1;
    }
    assert(texts(items@).take(i as int) =~= texts(items@));
    r.append("]");
    assert(r@ =~= array_text(texts(items@)));
    r
}

/// A JSON string literal holds no line break, whatever the string holds: a
/// line feed and a carriage return are written as escapes.
pub proof fn lemma_json_quote_no_line_break(s: Seq<char>)
    ensures
        no_line_break(json_quote(s)),
{
    lemma_escaped_no_line_break(s);
}

/// Escaped characters hold no line break.
proof fn lemma_escaped_no_line_break(s: Seq<char>)
    ensures
        no_line_break(escaped(s)),
    decreases s.len(),
{
    if s.len() > 0 {
        lemma_escaped_no_line_break(s.drop_last());
        assert(no_line_break(escape(s.last())));
    }
}

/// Texts without a line break, joined by commas, hold no line break.
proof fn lemma_comma_separated_no_line_break(items: Seq<Seq<char>>)
    requires
        forall|k: int| 0 <= k < items.len() ==> no_line_break(#[trigger] items[k]),
    ensures
        no_line_break(comma_separated(items)),
    decreases items.len(),
{
    if items.len() > 1 {
        let front = items.drop_last();
        assert forall|k: int| 0 <= k < front.len() implies no_line_break(#[trigger] front[k]) by {
            assert(front[k] == items[k]);
        }
        lemma_comma_separated_no_line_break(front);
        assert(no_line_break(items.last()));
    } else if items.len() == 1 {
        assert(no_line_break(items[0]));
    }
}

/// A JSON array framed from texts without a line break holds no line break.
pub proof fn lemma_array_text_no_line_break(items: Seq<Seq<char>>)
    requires
        forall|k: int| 0 <= k < items.len() ==> no_line_break(#[trigger] items[k]),
    ensures
        no_line_break(array_text(items)),
{
    lemma_comma_separated_no_line_break(items);
}

} // verus!
