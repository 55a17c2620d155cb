//! The JSON files of a site export: each file is an array whose items the database
//! produced as compact JSON objects; every item is pretty-printed by `serde_json` and
//! indented by two spaces inside the array.

use vstd::prelude::*;

use crate::schema::modfile::{lines_of, lines_spec};
use crate::text::{chars_of, string_of};

verus! {

/// Names the pretty-printed form that `serde_json` gives a JSON text: `None` when the
/// text is not valid JSON.
pub uninterp spec fn spec_pretty_json(text: Seq<char>) -> Option<Seq<char>>;

/// Calls `serde_json::from_str::<serde_json::Value>` and, when it parses,
/// `serde_json::to_string_pretty` on the value. The result is named; a `Value` always
/// serialises, so only a parse failure gives `None`.
#[verifier::external_body]
fn pretty_json(text: &str) -> (r: Option<String>)
    ensures
        match r {
            Some(p) => spec_pretty_json(text@) == Some(p@),
            None => spec_pretty_json(text@) is None,
        },
{
    match serde_json::from_str::<serde_json::Value>(text) {
        Ok(v) => serde_json::to_string_pretty(&v).ok(),
        Err(_) => None,
    }
}

/// The lines of a text, each indented by two spaces and ended by a newline.
pub open spec fn indented_spec(ls: Seq<Seq<char>>) -> Seq<char>
    decreases ls.len(),
{
    if ls.len() == 0 {
        Seq::empty()
    } else {
        indented_spec(ls.drop_last()) + "  "@ + ls.last() + "\n"@
    }
}

/// A text without its last character (as `String::pop` leaves it).
pub open spec fn pop_spec(s: Seq<char>) -> Seq<char> {
    if s.len() > 0 {
        s.drop_last()
    } else {
        s
    }
}

/// The array text up to and including the given items (without the closing bracket):
/// `[` and a newline, then per item a `,` and newline separator after the first, the
/// item's indented lines, and the last character of that removed.
pub open spec fn array_body_spec(items: Seq<Seq<char>>) -> Seq<char>
    decreases items.len(),
{
    if items.len() == 0 {
        "[\n"@
    } else {
        let before = array_body_spec(items.drop_last());
        let sep = if items.len() > 1 { ",\n"@ } else { Seq::empty() };
        pop_spec(before + sep + indented_spec(lines_spec(items.last())))
    }
}

/// The whole array text of pretty-printed items.
pub open spec fn json_array_spec(items: Seq<Seq<char>>) -> Seq<char> {
    array_body_spec(items) + "\n]\n"@
}

/// The view of a list of strings.
pub open spec fn views(v: Seq<String>) -> Seq<Seq<char>> {
    v.map_values(|s: String| s@)
}

/// Appends characters to a buffer.
fn append(buf: &mut Vec<char>, v: &[char])
    ensures
        final(buf)@ == old(buf)@ + v@,
{
    let n = v.len();
    let mut i: usize = 0;
    while i < n
        invariant
            n == v@.len(),
            i <= n,
            buf@ == old(buf)@ + v@.take(i as int),
        decreases n - i,
    {
        buf.push(v[i]);
        assert(v@.take(i + 1) =~= v@.take(i as int).push(v@[i as int]));
        i = i + 1;
    }
    assert(v@.take(n as int) =~= v@);
}

/// Frames pretty-printed items as a JSON array file.
pub fn frame_json_array(pretty_items: &Vec<String>) -> (r: String)
    ensures
        r@ == json_array_spec(views(pretty_items@)),
{
    let ghost ps = views(pretty_items@);
    let mut buf: Vec<char> = chars_of("[\n");
    let comma = chars_of(",\n");
    let indent = chars_of("  ");
    let newline = chars_of("\n");
    let n = pretty_items.len();
    let mut i: usize = 0;
    assert(ps.take(0) =~= Seq::<Seq<char>>::empty());
    while i < n
        invariant
            n == pretty_items@.len(),
            i <= n,
            ps == views(pretty_items@),
            comma@ == ",\n"@,
            indent@ == "  "@,
            newline@ == "\n"@,
            buf@ == array_body_spec(ps.take(i as int)),
        decreases n - i,
    {
        let ghost before = buf@;
        assert(ps.take(i + 1).drop_last() =~= ps.take(i as int));
        assert(ps.take(i + 1).last() == pretty_items@[i as int]@);
        if i > 0 {
            append(&mut buf, &comma);
        }
        let ghost with_sep = buf@;
        let ls = lines_of(&chars_of(pretty_items[i].as_str()));
        let ghost lv = ls@.map_values(|l: Vec<char>| l@);
        let m = ls.len();
        let mut j: usize = 0;
        assert(lv.take(0) =~= Seq::<Seq<char>>::empty());
        while j < m
            invariant
                m == ls@.len(),
                j <= m,
                lv == ls@.map_values(|l: Vec<char>| l@),
                indent@ == "  "@,
                newline@ == "\n"@,
                buf@ == with_sep + indented_spec(lv.take(j as int)),
            decreases m - j,
        {
            assert(lv.take(j + 1).drop_last() =~= lv.take(j as int));
            assert(lv.take(j + 1).last() == ls@[j as int]@);
            append(&mut buf, &indent);
            append(&mut buf, &ls[j]);
            append(&mut buf, &newline);
            proof {
                assert(buf@ =~= with_sep + indented_spec(lv.take(j + 1)));
            }
            j = j + 1;
        }
        assert(lv.take(m as int) =~= lv);
        buf.pop();
        proof {
            assert(buf@ =~= pop_spec(with_sep + indented_spec(lv)));
            assert(with_sep == before + (if i + 1 > 1 { ",\n"@ } else { Seq::<char>::empty() }));
        }
        i = i + 1;
    }
    assert(ps.take(n as int) =~= ps);
    append(&mut buf, &chars_of("\n]\n"));
    string_of(&buf)
}

/// The array file of compact JSON items: `None` when an item is not valid JSON.
pub fn json_array_document(items: &Vec<String>) -> (r: Option<String>)
    ensures
        match r {
            None => exists|k: int| 0 <= k < items@.len() && (#[trigger] spec_pretty_json(items@[k]@)) is None,
            Some(t) => {
                &&& forall|k: int| 0 <= k < items@.len() ==> (#[trigger] spec_pretty_json(items@[k]@)) is Some
                &&& t@ == json_array_spec(items@.map_values(|s: String| spec_pretty_json(s@)->0))
            },
        },
{
    let mut pretty: Vec<String> = Vec::new();
    let n = items.len();
    let mut i: usize = 0;
    while i < n
        invariant
            n == items@.len(),
            i <= n,
            pretty@.len() == i,
            forall|k: int| 0 <= k < i ==> (#[trigger] spec_pretty_json(items@[k]@)) == Some(pretty@[k]@),
        decreases n - i,
    {
        match pretty_json(items[i].as_str()) {
            Some(p) => pretty.push(p),
            None => return None,
        }
        i = i + 1;
    }
    let r = frame_json_array(&pretty);
    assert(views(pretty@) =~= items@.map_values(|s: String| spec_pretty_json(s@)->0));
    Some(r)
}

} // verus!
