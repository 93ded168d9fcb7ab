//! JSON text: string literals with their escapes, arrays, and the
//! capability of a value to give its own JSON text.

use crate::text::{decimal, decimal_text, hex, hex_text};
use vstd::prelude::*;
use vstd::string::*;

verus! {

/// What stands for one character inside a JSON string literal: the quote
/// and the backslash get a backslash, the control characters their short
/// escape where JSON has one and a `\u00..` escape otherwise; every other
/// character stands for itself.
pub open spec fn escaped_char(c: char) -> Seq<char> {
    if c == '"' {
        "\\\""@
    } else if c == '\\' {
        "\\\\"@
    } else if c == '\u{8}' {
        "\\b"@
    } else if c == '\u{c}' {
        "\\f"@
    } else if c == '\n' {
        "\\n"@
    } else if c == '\r' {
        "\\r"@
    } else if c == '\t' {
        "\\t"@
    } else if (c as u32) < 0x20 {
        "\\u00"@ + hex_text(c as u32 as nat, 2)
    } else {
        seq![c]
    }
}

/// The characters of `s`, each replaced by what stands for it inside a JSON
/// string literal.
pub open spec fn escaped(s: Seq<char>) -> Seq<char>
    decreases s.len(),
{
    if s.len() == 0 {
        Seq::empty()
    } else {
        escaped(s.drop_last()) + escaped_char(s.last())
    }
}

/// The JSON string literal for `s`: its escaped characters between quotes.
pub open spec fn quoted(s: Seq<char>) -> Seq<char> {
    "\""@ + escaped(s) + "\""@
}

/// The given texts, in order, with a comma between neighbours.
pub open spec fn joined(items: Seq<Seq<char>>) -> Seq<char>
    decreases items.len(),
{
    if items.len() == 0 {
        Seq::empty()
    } else if items.len() == 1 {
        items[0]
    } else {
        joined(items.drop_last()) + ","@ + items.last()
    }
}

/// The JSON array whose elements are the given texts, in order.
pub open spec fn array_json(items: Seq<Seq<char>>) -> Seq<char> {
    "["@ + joined(items) + "]"@
}

/// A value that can give its own JSON text.
pub trait ToJson {
    /// The JSON text of the value.
    spec fn json(&self) -> Seq<char>;

    /// Renders the value as JSON text.
    fn to_json(&self) -> (r: String)
        ensures
            r@ == self.json(),
    ;
}

fn push_escaped(out: &mut String, c: char)
    ensures
        final(out)@ == old(out)@ + escaped_char(c),
{
    if c == '"' {
        out.append("\\\"");
    } else if c == '\\' {
        out.append("\\\\");
    } else if c == '\u{8}' {
        out.append("\\b");
    } else if c == '\u{c}' {
        out.append("\\f");
    } else if c == '\n' {
        out.append("\\n");
    } else if c == '\r' {
        out.append("\\r");
    } else if c == '\t' {
        out.append("\\t");
    } else if (c as u32) < 0x20 {
        let code = hex(c as u32 as u128, 2);
        out.append("\\u00");
        out.append(code.as_str());
        assert(final(out)@ =~= old(out)@ + escaped_char(c));
    } else {
        out.push(c);
        assert(final(out)@ =~= old(out)@ + escaped_char(c));
    }
}

/// Renders `s` as a JSON string literal.
pub fn quote(s: &str) -> (r: String)
    ensures
        r@ == quoted(s@),
{
    let mut out = String::from_str("\"");
    assert(s@.take(0) =~= Seq::<char>::empty());
    assert(out@ =~= "\""@ + escaped(s@.take(0)));
    for c in it: s.chars()
        invariant
            it.seq() == s@,
            out@ == "\""@ + escaped(s@.take(it.index() as int)),
    {
        push_escaped(&mut out, c);
        proof {
            let next = s@.take(it.index() + 1);
            assert(next.drop_last() =~= s@.take(it.index() as int));
            assert(next.last() == c);
            assert(out@ =~= "\""@ + escaped(next));
        }
    }
    assert(s@.take(s@.len() as int) =~= s@);
    out.append("\"");
    out
}

/// A value that is sent as a JSON string holding its own JSON text, rather
/// than as a nested JSON value.
pub struct JsonString<T>(pub T);

impl<T: ToJson> ToJson for JsonString<T> {
    open spec fn json(&self) -> Seq<char> {
        quoted(self.0.json())
    }

    fn to_json(&self) -> (r: String) {
        let inner = self.0.to_json();
        quote(inner.as_str())
    }
}

/// The JSON texts of the elements of `items`, in order.
pub open spec fn element_texts<T: ToJson>(items: Seq<T>) -> Seq<Seq<char>> {
    Seq::new(items.len(), |i: int| items[i].json())
}

impl<T: ToJson> ToJson for Vec<T> {
    open spec fn json(&self) -> Seq<char> {
        array_json(element_texts(self@))
    }

    fn to_json(&self) -> (r: String) {
        let n: usize = self.len();
        let mut out = String::from_str("[");
        let mut i: usize = 0;
        assert(out@ =~= "["@ + joined(element_texts(self@.take(0))));
        while i < n
            invariant
                i <= n,
                n == self@.len(),
                out@ == "["@ + joined(element_texts(self@.take(i as int))),
            decreases n - i,
        {
            let item = self[i].to_json();
            if i > 0 {
                out.append(",");
            }
            out.append(item.as_str());
            proof {
                let before = element_texts(self@.take(i as int));
                let after = element_texts(self@.take(i + 1));
                assert(after.drop_last() =~= before);
                assert(after.last() == item@);
                assert(out@ =~= "["@ + joined(after));
            }
            i += 1;
        }
        assert(self@.take(n as int) =~= self@);
        out.append("]");
        out
    }
}

impl ToJson for String {
    /// A string is sent as a JSON string literal.
    open spec fn json(&self) -> Seq<char> {
        quoted(self@)
    }

    fn to_json(&self) -> (r: String) {
        quote(self.as_str())
    }
}

impl ToJson for u64 {
    /// A number is sent as its decimal numeral.
    open spec fn json(&self) -> Seq<char> {
        decimal_text(*self as nat)
    }

    fn to_json(&self) -> (r: String) {
        decimal(*self)
    }
}

impl ToJson for bool {
    /// A truth value is sent as `true` or `false`.
    open spec fn json(&self) -> Seq<char> {
        if *self {
            "true"@
        } else {
            "false"@
        }
    }

    fn to_json(&self) -> (r: String) {
        if *self {
            String::from_str("true")
        } else {
            String::from_str("false")
        }
    }
}

/// One member of a JSON object: its name, and its value as JSON text.
pub struct Member {
    pub name: String,
    pub value: String,
}

impl Member {
    /// The member with the given name whose value is the JSON text of
    /// `value`.
    pub fn new<T: ToJson>(name: &str, value: &T) -> (m: Member)
        ensures
            m.name@ == name@,
            m.value@ == value.json(),
    {
        Member { name: String::from_str(name), value: value.to_json() }
    }

    /// The member as it stands in an object: the quoted name, a colon, the
    /// value.
    pub open spec fn text(&self) -> Seq<char> {
        quoted(self.name@) + ":"@ + self.value@
    }
}

/// The texts of the given members, in order.
pub open spec fn member_texts(members: Seq<Member>) -> Seq<Seq<char>> {
    Seq::new(members.len(), |i: int| members[i].text())
}

/// The JSON object with the given members, in order.
pub open spec fn object_json(members: Seq<Member>) -> Seq<char> {
    "{"@ + joined(member_texts(members)) + "}"@
}

/// Renders the JSON object with the given members, in the order given.
pub fn object(members: &Vec<Member>) -> (r: String)
    ensures
        r@ == object_json(members@),
{
    let n: usize = members.len();
    let mut out = String::from_str("{");
    let mut i: usize = 0;
    assert(out@ =~= "{"@ + joined(member_texts(members@.take(0))));
    while i < n
        invariant
            i <= n,
            n == members@.len(),
            out@ == "{"@ + joined(member_texts(members@.take(i as int))),
        decreases n - i,
    {
        let name = quote(members[i].name.as_str());
        let mut item = name;
        item.append(":");
        item.append(members[i].value.as_str());
        if i > 0 {
            out.append(",");
        }
        out.append(item.as_str());
        proof {
            let before = member_texts(members@.take(i as int));
            let after = member_texts(members@.take(i + 1));
            assert(after.drop_last() =~= before);
            assert(after.last() == item@);
            assert(out@ =~= "{"@ + joined(after));
        }
        i += 1;
    }
    assert(members@.take(n as int) =~= members@);
    out.append("}");
    out
}

} // verus!
