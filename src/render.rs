use vstd::prelude::*;

use crate::datum::{lemma_element_decreases, lemma_item_models, Datum, Model};

verus! {

/// The decimal digit for `d`, for `d < 10`.
pub open spec fn digit_char(d: nat) -> char {
    if d == 0 {
        '0'
    } else if d == 1 {
        '1'
    } else if d == 2 {
        '2'
    } else if d == 3 {
        '3'
    } else if d == 4 {
        '4'
    } else if d == 5 {
        '5'
    } else if d == 6 {
        '6'
    } else if d == 7 {
        '7'
    } else if d == 8 {
        '8'
    } else {
        '9'
    }
}

/// The decimal digits of `n`, most significant first, without leading zeros.
pub open spec fn decimal(n: nat) -> Seq<char>
    decreases n,
{
    if n < 10 {
        seq![digit_char(n)]
    } else {
        decimal(n / 10).push(digit_char(n % 10))
    }
}

/// The decimal text of an integer: a minus sign before the digits of a
/// negative one.
pub open spec fn signed_decimal(x: int) -> Seq<char> {
    if x < 0 {
        seq!['-'] + decimal((-x) as nat)
    } else {
        decimal(x as nat)
    }
}

/// The text that renders a value: `NULL` for a null, `true` or `false`,
/// integers in decimal, text as it is, and a list as its elements' texts
/// separated by `", "` between brackets.
///
/// Floats and doubles are not rendered here; see [`Model::float_free`].
pub open spec fn text_of(m: Model) -> Seq<char>
    decreases m, 1nat, 0nat,
{
    match m {
        Model::Null(_) => seq!['N', 'U', 'L', 'L'],
        Model::Boolean(b) => if b {
            seq!['t', 'r', 'u', 'e']
        } else {
            seq!['f', 'a', 'l', 's', 'e']
        },
        Model::Tinyint(x) => signed_decimal(x as int),
        Model::Smallint(x) => signed_decimal(x as int),
        Model::Integer(x) => signed_decimal(x as int),
        Model::Bigint(x) => signed_decimal(x as int),
        Model::UTinyint(x) => decimal(x as nat),
        Model::USmallint(x) => decimal(x as nat),
        Model::UInteger(x) => decimal(x as nat),
        Model::UBigint(x) => decimal(x as nat),
        Model::Float(_) | Model::Double(_) => Seq::empty(),
        Model::Varchar(s) => s,
        Model::List(items) => seq!['['] + items_text(m, items.len()) + seq![']'],
    }
}

/// The texts of the first `n` elements of the list model `m`, separated by
/// `", "`.
pub open spec fn items_text(m: Model, n: nat) -> Seq<char>
    decreases m, 0nat, n,
{
    if m is List && 0 < n <= m->List_0.len() {
        if n == 1 {
            text_of(m->List_0[0])
        } else {
            items_text(m, (n - 1) as nat) + seq![',', ' '] + text_of(m->List_0[n - 1])
        }
    } else {
        Seq::empty()
    }
}

/// A text value renders as exactly its text.
pub proof fn lemma_text_round_trip(s: Seq<char>)
    ensures
        Model::Varchar(s).float_free(),
        text_of(Model::Varchar(s)) == s,
{
}

/// Texts joined with `", "` between each two.
pub open spec fn joined(parts: Seq<Seq<char>>) -> Seq<char>
    decreases parts.len(),
{
    if parts.len() == 0 {
        Seq::empty()
    } else if parts.len() == 1 {
        parts[0]
    } else {
        joined(parts.drop_last()) + seq![',', ' '] + parts.last()
    }
}

/// The text of a list whose elements rendered as `parts`.
pub fn list_text(parts: &Vec<String>) -> (r: String)
    ensures
        r@ == seq!['['] + joined(parts@.map_values(|p: String| p@)) + seq![']'],
{
    let ghost texts = parts@.map_values(|p: String| p@);
    let mut out = String::new();
    proof {
        reveal_strlit("[");
    }
    out.append("[");
    let mut i: usize = 0;
    while i < parts.len()
        invariant
            texts == parts@.map_values(|p: String| p@),
            i <= parts@.len(),
            out@ == seq!['['] + joined(texts.subrange(0, i as int)),
        decreases parts@.len() - i,
    {
        let ghost before = out@;
        if i > 0 {
            proof {
                reveal_strlit(", ");
            }
            out.append(", ");
        }
        out.append(parts[i].as_str());
        proof {
            let next = texts.subrange(0, i + 1);
            assert(next.drop_last() =~= texts.subrange(0, i as int));
            assert(next.last() == parts@[i as int]@);
        }
        i += 1;
        assert(out@ =~= seq!['['] + joined(texts.subrange(0, i as int)));
    }
    proof {
        reveal_strlit("]");
        assert(texts.subrange(0, i as int) =~= texts);
    }
    out.append("]");
    assert(out@ =~= seq!['['] + joined(texts) + seq![']']);
    out
}

proof fn lemma_items_text_joined(m: Model, n: nat)
    requires
        m is List,
        n <= m->List_0.len(),
    ensures
        items_text(m, n) == joined(m->List_0.subrange(0, n as int).map_values(|e: Model| text_of(e))),
    decreases n,
{
    let texts = m->List_0.subrange(0, n as int).map_values(|e: Model| text_of(e));
    if n > 1 {
        lemma_items_text_joined(m, (n - 1) as nat);
        assert(texts.drop_last() =~= m->List_0.subrange(0, n - 1).map_values(|e: Model| text_of(e)));
    } else if n == 1 {
        assert(texts[0] == text_of(m->List_0[0]));
    } else {
        assert(texts.len() == 0);
    }
}

/// A list renders as its elements' texts framed as [`list_text`] frames
/// them: rendering the elements one by one and framing them gives the same
/// text as rendering the list.
pub proof fn lemma_list_text_of_elements(m: Model)
    requires
        m is List,
    ensures
        text_of(m) == seq!['['] + joined(m->List_0.map_values(|e: Model| text_of(e))) + seq![']'],
{
    lemma_items_text_joined(m, m->List_0.len());
    assert(m->List_0.subrange(0, m->List_0.len() as int) =~= m->List_0);
}

fn digit_str(d: u64) -> (r: &'static str)
    requires
        d < 10,
    ensures
        r@ == seq![digit_char(d as nat)],
{
    proof {
        reveal_strlit("0");
        reveal_strlit("1");
        reveal_strlit("2");
        reveal_strlit("3");
        reveal_strlit("4");
        reveal_strlit("5");
        reveal_strlit("6");
        reveal_strlit("7");
        reveal_strlit("8");
        reveal_strlit("9");
    }
    if d == 0 {
        "0"
    } else if d == 1 {
        "1"
    } else if d == 2 {
        "2"
    } else if d == 3 {
        "3"
    } else if d == 4 {
        "4"
    } else if d == 5 {
        "5"
    } else if d == 6 {
        "6"
    } else if d == 7 {
        "7"
    } else if d == 8 {
        "8"
    } else {
        "9"
    }
}

/// Appends the decimal digits of `n`.
fn append_decimal(out: &mut String, n: u64)
    ensures
        final(out)@ == old(out)@ + decimal(n as nat),
    decreases n,
{
    if n >= 10 {
        append_decimal(out, n / 10);
    }
    out.append(digit_str(n % 10));
    assert(final(out)@ =~= old(out)@ + decimal(n as nat));
}

/// Appends the decimal text of `x`.
fn append_signed(out: &mut String, x: i64)
    ensures
        final(out)@ == old(out)@ + signed_decimal(x as int),
{
    if x < 0 {
        proof {
            reveal_strlit("-");
        }
        out.append("-");
        let magnitude: u64 = (-(x as i128)) as u64;
        append_decimal(out, magnitude);
        assert(final(out)@ =~= old(out)@ + signed_decimal(x as int));
    } else {
        append_decimal(out, x as u64);
    }
}

/// Appends the text of a value that holds no float.
pub fn append_text(out: &mut String, d: &Datum)
    requires
        d@.float_free(),
    ensures
        final(out)@ == old(out)@ + text_of(d@),
    decreases d,
{
    proof {
        reveal_strlit("NULL");
        reveal_strlit("true");
        reveal_strlit("false");
        reveal_strlit("[");
        reveal_strlit("]");
    }
    match d {
        Datum::Null(_) => out.append("NULL"),
        Datum::Boolean(b) => if *b {
            out.append("true")
        } else {
            out.append("false")
        },
        Datum::Tinyint(x) => append_signed(out, *x as i64),
        Datum::Smallint(x) => append_signed(out, *x as i64),
        Datum::Integer(x) => append_signed(out, *x as i64),
        Datum::Bigint(x) => append_signed(out, *x),
        Datum::UTinyint(x) => append_decimal(out, *x as u64),
        Datum::USmallint(x) => append_decimal(out, *x as u64),
        Datum::UInteger(x) => append_decimal(out, *x as u64),
        Datum::UBigint(x) => append_decimal(out, *x),
        Datum::Float(_) | Datum::Double(_) => unreached(),
        Datum::Varchar(s) => out.append(s.as_str()),
        Datum::List(items) => {
            let ghost start = out@;
            let ghost m = d@;
            proof {
                lemma_item_models(*d, items@.len());
            }
            out.append("[");
            let mut i: usize = 0;
            while i < items.len()
                invariant
                    *d == Datum::List(*items),
                    m == d@,
                    m is List,
                    m.float_free(),
                    m->List_0.len() == items@.len(),
                    forall|j: int| 0 <= j < items@.len() ==> #[trigger] m->List_0[j] == items@[j]@,
                    i <= items@.len(),
                    out@ == start + seq!['['] + items_text(m, i as nat),
                decreases items@.len() - i,
            {
                if i > 0 {
                    proof {
                        reveal_strlit(", ");
                    }
                    out.append(", ");
                }
                proof {
                    lemma_element_decreases(*d, i as int);
                    assert(m->List_0[i as int].float_free());
                }
                append_text(out, &items[i]);
                proof {
                    let k = (i + 1) as nat;
                    assert(m->List_0[i as int] == items@[i as int]@);
                    if i == 0 {
                        assert(items_text(m, k) == text_of(m->List_0[0]));
                    } else {
                        assert(items_text(m, k) == items_text(m, i as nat) + seq![',', ' '] + text_of(
                            m->List_0[i as int],
                        ));
                    }
                }
                i += 1;
                assert(out@ =~= start + seq!['['] + items_text(m, i as nat));
            }
            out.append("]");
            assert(out@ =~= start + text_of(m));
        },
    }
}

} // verus!
