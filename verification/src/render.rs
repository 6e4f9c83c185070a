//! Helpers for rendering `Key=Value` lines of a systemd-style unit file.

use vstd::prelude::*;
use vstd::string::StringExecFns;

verus! {

/// One `Key=Value` line, newline-terminated.
pub open spec fn spec_line(key: Seq<char>, value: Seq<char>) -> Seq<char> {
    key + "="@ + value + "\n"@
}

/// One `Key=Value` line per item, in order.
pub open spec fn spec_lines(key: Seq<char>, items: Seq<Seq<char>>) -> Seq<char>
    decreases items.len(),
{
    if items.len() == 0 {
        Seq::empty()
    } else {
        spec_line(key, items[0]) + spec_lines(key, items.skip(1))
    }
}

/// A `Key=Value` line when the value is present, nothing otherwise.
pub open spec fn spec_opt_line(key: Seq<char>, item: Option<Seq<char>>) -> Seq<char> {
    match item {
        Some(value) => spec_line(key, value),
        None => Seq::empty(),
    }
}

/// Appending an item to the list appends its line to the rendering.
pub proof fn lemma_lines_push(key: Seq<char>, items: Seq<Seq<char>>, x: Seq<char>)
    ensures
        spec_lines(key, items.push(x)) == spec_lines(key, items) + spec_line(key, x),
    decreases items.len(),
{
    if items.len() == 0 {
        assert(items.push(x)[0] == x);
        assert(items.push(x).skip(1) =~= Seq::<Seq<char>>::empty());
        assert(spec_lines(key, Seq::<Seq<char>>::empty()) == Seq::<char>::empty());
        assert(spec_lines(key, items.push(x)) =~= spec_lines(key, items) + spec_line(key, x));
    } else {
        assert(items.push(x).skip(1) =~= items.skip(1).push(x));
        lemma_lines_push(key, items.skip(1), x);
        assert(items.push(x)[0] == items[0]);
        assert(spec_lines(key, items.push(x)) =~= spec_lines(key, items) + spec_line(key, x));
    }
}

/// Compares two string slices by contents.
pub(crate) fn str_eq(a: &str, b: &str) -> (r: bool)
    ensures
        r == (a@ == b@),
{
    let sa = String::from_str(a);
    let sb = String::from_str(b);
    sa == sb
}

/// Appends `key=value` and a newline to `out`.
pub fn append_line(out: &mut String, key: &str, value: &str)
    ensures
        final(out)@ == old(out)@ + spec_line(key@, value@),
{
    out.append(key);
    out.append("=");
    out.append(value);
    out.append("\n");
    proof {
        assert(out@ =~= old(out)@ + spec_line(key@, value@));
    }
}

/// Appends one `key=item` line for each item, in order.
pub fn append_lines(out: &mut String, key: &str, items: &Vec<String>)
    ensures
        final(out)@ == old(out)@ + spec_lines(key@, items.deep_view()),
{
    let ghost init: Seq<char> = out@;
    let mut i: usize = 0;
    while i < items.len()
        invariant
            i <= items.len(),
            out@ == init + spec_lines(key@, items.deep_view().take(i as int)),
        decreases items.len() - i,
    {
        append_line(out, key, items[i].as_str());
        proof {
            assert(items.deep_view().take(i + 1 as int) =~= items.deep_view().take(
                i as int,
            ).push(items.deep_view()[i as int]));
            lemma_lines_push(key@, items.deep_view().take(i as int), items.deep_view()[i as int]);
        }
        i = i + 1;
    }
    proof {
        assert(items.deep_view().take(items.len() as int) =~= items.deep_view());
    }
}

/// Appends a `key=value` line when `item` holds a value.
pub fn append_opt_line(out: &mut String, key: &str, item: &Option<String>)
    ensures
        final(out)@ == old(out)@ + spec_opt_line(key@, item.deep_view()),
{
    match item {
        Some(value) => append_line(out, key, value.as_str()),
        None => (),
    }
}

} // verus!
