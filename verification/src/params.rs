//! Query-parameter encoding: a parameter name, an '=' sign, and one value
//! or a comma-joined list of values, with no trailing separator.

use vstd::prelude::*;

use crate::digits::{push_dec_i32, spec_dec_int};

verus! {

/// Comma-joins a list of already-rendered values, with no separator after
/// the last element.
pub open spec fn spec_join(items: Seq<Seq<char>>) -> Seq<char>
    decreases items.len(),
{
    if items.len() == 0 {
        Seq::empty()
    } else if items.len() == 1 {
        items[0]
    } else {
        spec_join(items.drop_last()) + seq![','] + items.last()
    }
}

/// The rendering of a list of numbers: each in decimal, comma-joined.
pub open spec fn spec_dec_list(values: Seq<i32>) -> Seq<char> {
    spec_join(values.map_values(|v: i32| spec_dec_int(v as int)))
}

/// Extending a joined list by one element appends a comma (when the list
/// was non-empty) and the element.
pub proof fn lemma_join_take_succ(items: Seq<Seq<char>>, i: int)
    requires
        0 <= i < items.len(),
    ensures
        spec_join(items.take(i + 1)) == if i == 0 {
            items[0]
        } else {
            spec_join(items.take(i)) + seq![','] + items[i]
        },
{
    assert(items.take(i + 1).drop_last() =~= items.take(i));
    assert(items.take(i + 1).last() == items[i]);
    if i == 0 {
        assert(spec_join(items.take(1)) == items.take(1)[0]);
    }
}

/// A non-empty join ends with the last character of its last element.
pub proof fn lemma_join_last(items: Seq<Seq<char>>)
    requires
        items.len() > 0,
        items.last().len() > 0,
    ensures
        spec_join(items).len() > 0,
        spec_join(items).last() == items.last().last(),
{
}

/// The encoding of a non-empty list of numbers ends in a digit of its last
/// element: no trailing separator remains after the last value.
pub proof fn lemma_numbers_param_no_trailing_separator(param: Seq<char>, values: Seq<i32>)
    requires
        values.len() > 0,
    ensures
        (param + seq!['='] + spec_dec_list(values)).last() != ',',
{
    let rendered = values.map_values(|v: i32| spec_dec_int(v as int));
    let last = values.last() as int;
    crate::digits::lemma_dec_int_last_is_digit(last);
    assert(rendered.last() == spec_dec_int(last));
    lemma_join_last(rendered);
    assert((param + seq!['='] + spec_dec_list(values)).last() == spec_dec_list(values).last());
}

/// The index of the last occurrence of a separator, or -1 when there is
/// none.
pub open spec fn spec_last_sep(s: Seq<char>, sep: char) -> int
    decreases s.len(),
{
    if s.len() == 0 {
        -1
    } else if s.last() == sep {
        s.len() - 1
    } else {
        spec_last_sep(s.drop_last(), sep)
    }
}

/// Where the last separator stands: within bounds, on a separator, with no
/// separator after it; negative exactly when the string holds none.
pub proof fn lemma_last_sep(s: Seq<char>, sep: char)
    ensures
        -1 <= spec_last_sep(s, sep) < s.len(),
        spec_last_sep(s, sep) >= 0 ==> s[spec_last_sep(s, sep)] == sep,
        forall|j: int| spec_last_sep(s, sep) < j < s.len() ==> s[j] != sep,
    decreases s.len(),
{
    if s.len() > 0 && s.last() != sep {
        lemma_last_sep(s.drop_last(), sep);
        assert forall|j: int| spec_last_sep(s, sep) < j < s.len() implies s[j] != sep by {
            if j < s.len() - 1 {
                assert(s.drop_last()[j] == s[j]);
            }
        }
    }
}

/// Splits on every occurrence of a separator, rightmost first: the inverse
/// of [`spec_join`] for separator-free fields.
pub open spec fn spec_split(s: Seq<char>, sep: char) -> Seq<Seq<char>>
    decreases s.len(),
{
    let i = spec_last_sep(s, sep);
    if 0 <= i < s.len() {
        spec_split(s.take(i), sep) + seq![s.skip(i + 1)]
    } else {
        seq![s]
    }
}

/// Round trip of the joiner: splitting a join on the separator recovers
/// exactly the fields, when no field holds the separator itself.
pub proof fn lemma_split_join(items: Seq<Seq<char>>)
    requires
        items.len() > 0,
        forall|k: int| 0 <= k < items.len() ==> !(#[trigger] items[k]).contains(','),
    ensures
        spec_split(spec_join(items), ',') == items,
    decreases items.len(),
{
    let s = spec_join(items);
    lemma_last_sep(s, ',');
    let i = spec_last_sep(s, ',');
    if items.len() == 1 {
        assert(s == items[0]);
        if i >= 0 {
            assert(s.contains(',')) by {
                assert(s[i] == ',');
            }
            assert(false);
        }
        assert(spec_split(s, ',') =~= items);
    } else {
        let prefix = spec_join(items.drop_last());
        let last = items.last();
        assert(s == prefix + seq![','] + last);
        let p = prefix.len() as int;
        assert(s[p] == ',');
        assert forall|j: int| p < j < s.len() implies s[j] != ',' by {
            assert(s[j] == last[j - p - 1]);
            if last[j - p - 1] == ',' {
                assert(last.contains(',')) by {
                    assert(last[j - p - 1] == ',');
                }
            }
        }
        assert(i == p);
        assert(s.take(i) =~= prefix);
        assert(s.skip(i + 1) =~= last);
        lemma_split_join(items.drop_last());
        assert(spec_split(s, ',') == items.drop_last() + seq![last]);
        assert(items.drop_last() + seq![last] =~= items);
    }
}

/// A join holds no occurrence of a character that neither its fields nor
/// the separator hold.
pub proof fn lemma_join_excludes(items: Seq<Seq<char>>, c: char)
    requires
        c != ',',
        forall|k: int| 0 <= k < items.len() ==> !(#[trigger] items[k]).contains(c),
    ensures
        !spec_join(items).contains(c),
    decreases items.len(),
{
    if items.len() == 1 {
        if spec_join(items).contains(c) {
            let k = choose|k: int| 0 <= k < spec_join(items).len() && spec_join(items)[k] == c;
            assert(items[0].contains(c)) by {
                assert(items[0][k] == c);
            }
        }
    } else if items.len() > 1 {
        lemma_join_excludes(items.drop_last(), c);
        let prefix = spec_join(items.drop_last());
        let last = items.last();
        let p = prefix.len() as int;
        if spec_join(items).contains(c) {
            let k = choose|k: int| 0 <= k < spec_join(items).len() && spec_join(items)[k] == c;
            if k < p {
                assert(prefix.contains(c)) by {
                    assert(prefix[k] == c);
                }
            } else if k > p {
                assert(last.contains(c)) by {
                    assert(last[k - p - 1] == c);
                }
            }
            assert(false);
        }
    }
}

/// Splitting a name=value parameter on the '=' sign recovers the name and
/// the value, when neither holds an '=' itself.
pub proof fn lemma_param_split_on_equals(name: Seq<char>, value: Seq<char>)
    requires
        !name.contains('='),
        !value.contains('='),
    ensures
        spec_split(name + seq!['='] + value, '=') == seq![name, value],
{
    let s = name + seq!['='] + value;
    lemma_last_sep(s, '=');
    let i = spec_last_sep(s, '=');
    let p = name.len() as int;
    assert(s[p] == '=');
    assert forall|j: int| p < j < s.len() implies s[j] != '=' by {
        assert(s[j] == value[j - p - 1]);
        if value[j - p - 1] == '=' {
            assert(value.contains('=')) by {
                assert(value[j - p - 1] == '=');
            }
        }
    }
    assert(i == p);
    assert(s.take(i) =~= name);
    assert(s.skip(i + 1) =~= value);
    lemma_last_sep(name, '=');
    if spec_last_sep(name, '=') >= 0 {
        assert(name.contains('=')) by {
            assert(name[spec_last_sep(name, '=')] == '=');
        }
    }
    assert(spec_split(name, '=') == seq![name]);
    assert(spec_split(s, '=') == spec_split(name, '=') + seq![value]);
    assert(seq![name] + seq![value] =~= seq![name, value]);
}

/// Round trip of the number encoding: splitting the comma-joined value
/// part of a non-empty list on the separator yields exactly the decimal
/// forms of the values, in order, with no extra field.
pub proof fn lemma_numbers_encoding_round_trip(values: Seq<i32>)
    requires
        values.len() > 0,
    ensures
        spec_split(spec_dec_list(values), ',') == values.map_values(
            |v: i32| spec_dec_int(v as int),
        ),
{
    let rendered = values.map_values(|v: i32| spec_dec_int(v as int));
    assert forall|k: int| 0 <= k < rendered.len() implies !(#[trigger] rendered[k]).contains(
        ',',
    ) by {
        crate::digits::lemma_dec_int_excludes(values[k] as int, ',');
    }
    lemma_split_join(rendered);
}

/// The full round trip of the number encoding: splitting the encoded
/// parameter on '=' yields the name and the joined values, and splitting
/// those on ',' yields exactly the decimal forms of the values, in order,
/// with no trailing empty field.
pub proof fn lemma_number_param_round_trip(param: Seq<char>, values: Seq<i32>)
    requires
        values.len() > 0,
        !param.contains('='),
    ensures
        spec_split(param + seq!['='] + spec_dec_list(values), '=') == seq![
            param,
            spec_dec_list(values),
        ],
        spec_split(spec_dec_list(values), ',') == values.map_values(
            |v: i32| spec_dec_int(v as int),
        ),
{
    let rendered = values.map_values(|v: i32| spec_dec_int(v as int));
    assert forall|k: int| 0 <= k < rendered.len() implies !(#[trigger] rendered[k]).contains(
        '=',
    ) by {
        crate::digits::lemma_dec_int_excludes(values[k] as int, '=');
    }
    lemma_join_excludes(rendered, '=');
    lemma_param_split_on_equals(param, spec_dec_list(values));
    lemma_numbers_encoding_round_trip(values);
}

/// Make a parameter out of a number: the parameter name, '=', and the
/// number in decimal.
pub fn number_to_param(param: &str, value: i32) -> (r: String)
    ensures
        r@ == param@ + seq!['='] + spec_dec_int(value as int),
{
    let mut result = String::new();
    result.append(param);
    proof {
        reveal_strlit("=");
    }
    assert("="@ =~= seq!['=']);
    result.append("=");
    push_dec_i32(&mut result, value);
    result
}

/// Make a parameter out of a vector of numbers: the parameter name, '=',
/// and the values in decimal, comma-joined with no trailing separator.
pub fn numbers_to_param(param: &str, values: &Vec<i32>) -> (r: String)
    ensures
        r@ == param@ + seq!['='] + spec_dec_list(values@),
{
    let ghost rendered: Seq<Seq<char>> = values@.map_values(|v: i32| spec_dec_int(v as int));
    let mut result = String::new();
    result.append(param);
    proof {
        reveal_strlit("=");
    }
    assert("="@ =~= seq!['=']);
    result.append("=");
    let ghost prefix: Seq<char> = result@;
    let mut i: usize = 0;
    while i < values.len()
        invariant
            i <= values.len(),
            rendered == values@.map_values(|v: i32| spec_dec_int(v as int)),
            prefix == param@ + seq!['='],
            result@ == prefix + spec_join(rendered.take(i as int)),
        decreases values.len() - i,
    {
        if i > 0 {
            proof {
                reveal_strlit(",");
            }
            assert(","@ =~= seq![',']);
            result.append(",");
        }
        push_dec_i32(&mut result, values[i]);
        proof {
            lemma_join_take_succ(rendered, i as int);
            if i > 0 {
                assert(prefix + spec_join(rendered.take(i as int)) + seq![','] + rendered[i as int]
                    =~= prefix + spec_join(rendered.take(i + 1)));
            } else {
                assert(prefix + spec_join(rendered.take(0int)) + rendered[0]
                    =~= prefix + spec_join(rendered.take(1int)));
            }
        }
        i += 1;
    }
    proof {
        assert(rendered.take(values@.len() as int) =~= rendered);
    }
    result
}

/// Make a parameter out of a string: the parameter name, '=', and the
/// value, substituted with no further encoding.
pub fn string_to_param(param: &str, value: &str) -> (r: String)
    ensures
        r@ == param@ + seq!['='] + value@,
{
    let mut result = String::new();
    result.append(param);
    proof {
        reveal_strlit("=");
    }
    assert("="@ =~= seq!['=']);
    result.append("=");
    result.append(value);
    result
}

/// Make a parameter out of a vector of strings: the parameter name, '=',
/// and the values comma-joined with no trailing separator.
pub fn strings_to_param(param: &str, values: Vec<&str>) -> (r: String)
    ensures
        r@ == param@ + seq!['='] + spec_join(values@.map_values(|v: &str| v@)),
{
    let ghost rendered: Seq<Seq<char>> = values@.map_values(|v: &str| v@);
    let mut result = String::new();
    result.append(param);
    proof {
        reveal_strlit("=");
    }
    assert("="@ =~= seq!['=']);
    result.append("=");
    let ghost prefix: Seq<char> = result@;
    let mut i: usize = 0;
    while i < values.len()
        invariant
            i <= values.len(),
            rendered == values@.map_values(|v: &str| v@),
            prefix == param@ + seq!['='],
            result@ == prefix + spec_join(rendered.take(i as int)),
        decreases values.len() - i,
    {
        if i > 0 {
            proof {
                reveal_strlit(",");
            }
            assert(","@ =~= seq![',']);
            result.append(",");
        }
        result.append(values[i]);
        proof {
            lemma_join_take_succ(rendered, i as int);
            if i > 0 {
                assert(prefix + spec_join(rendered.take(i as int)) + seq![','] + rendered[i as int]
                    =~= prefix + spec_join(rendered.take(i + 1)));
            } else {
                assert(prefix + spec_join(rendered.take(0int)) + rendered[0]
                    =~= prefix + spec_join(rendered.take(1int)));
            }
        }
        i += 1;
    }
    proof {
        assert(rendered.take(values@.len() as int) =~= rendered);
    }
    result
}

/// Make a parameter out of a vector of owned strings: as
/// [`strings_to_param`], with the values held by value.
pub fn string_vec_to_param(param: &str, values: &Vec<String>) -> (r: String)
    ensures
        r@ == param@ + seq!['='] + spec_join(values@.map_values(|v: String| v@)),
{
    let ghost rendered: Seq<Seq<char>> = values@.map_values(|v: String| v@);
    let mut result = String::new();
    result.append(param);
    proof {
        reveal_strlit("=");
    }
    assert("="@ =~= seq!['=']);
    result.append("=");
    let ghost prefix: Seq<char> = result@;
    let mut i: usize = 0;
    while i < values.len()
        invariant
            i <= values.len(),
            rendered == values@.map_values(|v: String| v@),
            prefix == param@ + seq!['='],
            result@ == prefix + spec_join(rendered.take(i as int)),
        decreases values.len() - i,
    {
        if i > 0 {
            proof {
                reveal_strlit(",");
            }
            assert(","@ =~= seq![',']);
            result.append(",");
        }
        result.append(values[i].as_str());
        proof {
            lemma_join_take_succ(rendered, i as int);
            if i > 0 {
                assert(prefix + spec_join(rendered.take(i as int)) + seq![','] + rendered[i as int]
                    =~= prefix + spec_join(rendered.take(i + 1)));
            } else {
                assert(prefix + spec_join(rendered.take(0int)) + rendered[0]
                    =~= prefix + spec_join(rendered.take(1int)));
            }
        }
        i += 1;
    }
    proof {
        assert(rendered.take(values@.len() as int) =~= rendered);
    }
    result
}

} // verus!
