//! The JSON text forms used on the wire: quoted strings, comma-separated
//! lists, object members, objects and arrays.
use vstd::prelude::*;

verus! {

/// A lower-case hexadecimal digit.
pub open spec fn hex_digit(d: int) -> char {
    if d < 10 {
        (48 + d) as char
    } else {
        (87 + d) as char
    }
}

/// How one character stands inside a JSON string literal.
pub open spec fn escape_char(c: char) -> Seq<char> {
    let n = c as int;
    if c == '\x08' {
        seq!['\\', 'b']
    } else if c == '\x0C' {
        seq!['\\', 'f']
    } else if c == '\n' {
        seq!['\\', 'n']
    } else if c == '\r' {
        seq!['\\', 'r']
    } else if c == '\t' {
        seq!['\\', 't']
    } else if n < 32 || n == 127 {
        seq!['\\', 'u', '0', '0', hex_digit(n / 16), hex_digit(n % 16)]
    } else if c == '\\' {
        seq!['\\', '\\']
    } else if c == '"' {
        seq!['\\', '"']
    } else {
        seq![c]
    }
}

/// The characters of `s`, each escaped.
pub open spec fn escape(s: Seq<char>) -> Seq<char>
    decreases s.len(),
{
    if s.len() == 0 {
        Seq::empty()
    } else {
        escape(s.drop_last()) + escape_char(s.last())
    }
}

/// `s` as a JSON string literal.
pub open spec fn json_quote(s: Seq<char>) -> Seq<char> {
    seq!['"'] + escape(s) + seq!['"']
}

/// The items, in order, separated by commas.
pub open spec fn join(items: Seq<Seq<char>>) -> Seq<char>
    decreases items.len(),
{
    if items.len() == 0 {
        Seq::empty()
    } else if items.len() == 1 {
        items[0]
    } else {
        join(items.drop_last()) + seq![','] + items.last()
    }
}

/// What goes before the next item of a list: nothing before the first.
pub open spec fn separator(first: bool) -> Seq<char> {
    if first {
        Seq::empty()
    } else {
        seq![',']
    }
}

/// An object member: the key in quotes, a colon, the value.
pub open spec fn member(key: Seq<char>, value: Seq<char>) -> Seq<char> {
    seq!['"'] + key + seq!['"', ':'] + value
}

/// A JSON object of the given members, in order.
pub open spec fn json_object(members: Seq<Seq<char>>) -> Seq<char> {
    seq!['{'] + join(members) + seq!['}']
}

/// A JSON array of the given items, in order.
pub open spec fn json_array(items: Seq<Seq<char>>) -> Seq<char> {
    seq!['['] + join(items) + seq![']']
}

/// The JSON string literal of each string, in order.
pub open spec fn quote_all(items: Seq<Seq<char>>) -> Seq<Seq<char>> {
    items.map_values(|s: Seq<char>| json_quote(s))
}

/// One more item extends the list by a separator (none before the first)
/// and the item.
pub proof fn lemma_join_push(items: Seq<Seq<char>>, x: Seq<char>)
    ensures
        join(items.push(x)) == join(items) + separator(items.len() == 0) + x,
{
    if items.len() == 0 {
        assert(items.push(x) =~= seq![x]);
        assert(join(items) + separator(true) + x =~= x);
    } else {
        assert(items.push(x).drop_last() =~= items);
    }
}

/// Relies on nanoserde's `SerJson` for `str`: the JSON string literal it
/// writes, with `\b \f \n \r \t`, `\uXXXX` for other ASCII control
/// characters, and `\\`, `\"` escaped.
#[verifier::external_body]
pub(crate) fn json_string(s: &str) -> (r: String)
    ensures
        r@ == json_quote(s@),
{
    nanoserde::SerJson::serialize_json(s)
}

/// Relies on String::push: the character is appended at the end.
pub assume_specification[ std::string::String::push ](s: &mut String, ch: char)
    ensures
        final(s)@ == old(s)@.push(ch),
;

/// Appends the next item of a comma-separated list.
pub(crate) fn push_item(out: &mut String, first: bool, item: &str)
    ensures
        final(out)@ == old(out)@ + separator(first) + item@,
{
    if !first {
        out.push(',');
    }
    out.append(item);
    assert(final(out)@ =~= old(out)@ + separator(first) + item@);
}

/// Appends the next member of an object.
pub(crate) fn push_member(out: &mut String, first: bool, key: &str, value: &str)
    ensures
        final(out)@ == old(out)@ + separator(first) + member(key@, value@),
{
    push_item(out, first, "");
    out.push('"');
    out.append(key);
    out.push('"');
    out.push(':');
    out.append(value);
    proof {
        reveal_strlit("");
    }
    assert(final(out)@ =~= old(out)@ + separator(first) + member(key@, value@));
}

/// The JSON array of the given strings, each as a string literal.
pub fn string_array(items: &Vec<String>) -> (r: String)
    ensures
        r@ == json_array(quote_all(items@.map_values(|s: String| s@))),
{
    let ghost views = items@.map_values(|s: String| s@);
    let mut out = String::new();
    out.push('[');
    let mut i: usize = 0;
    while i < items.len()
        invariant
            i <= items.len(),
            views == items@.map_values(|s: String| s@),
            out@ == seq!['['] + join(quote_all(views.take(i as int))),
        decreases items.len() - i,
    {
        let q = json_string(items[i].as_str());
        proof {
            lemma_join_push(quote_all(views.take(i as int)), q@);
            assert(quote_all(views.take(i as int)).push(q@) =~= quote_all(views.take(i + 1)));
        }
        push_item(&mut out, i == 0, q.as_str());
        i = i + 1;
    }
    out.push(']');
    assert(views.take(i as int) =~= views);
    assert(out@ =~= json_array(quote_all(views)));
    out
}

} // verus!
