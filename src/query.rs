//! Query strings built from optional named parameters.
use vstd::prelude::*;

verus! {

/// A parameter as the contracts see it: a name and, maybe, a value.
pub type ParamView = (Seq<char>, Option<Seq<char>>);

/// The text `key=value` of one present parameter.
pub open spec fn entry(key: Seq<char>, value: Seq<char>) -> Seq<char> {
    key + seq!['='] + value
}

/// The entries of the parameters that hold a value, in the order given.
pub open spec fn entries(params: Seq<ParamView>) -> Seq<Seq<char>>
    decreases params.len(),
{
    if params.len() == 0 {
        seq![]
    } else {
        let rest = entries(params.drop_last());
        match params.last().1 {
            Some(v) => rest.push(entry(params.last().0, v)),
            None => rest,
        }
    }
}

/// The items separated by `&`.
pub open spec fn join_amp(items: Seq<Seq<char>>) -> Seq<char>
    decreases items.len(),
{
    if items.len() == 0 {
        seq![]
    } else if items.len() == 1 {
        items[0]
    } else {
        join_amp(items.drop_last()) + seq!['&'] + items.last()
    }
}

/// The query string of `params`: the entries of the present ones, joined by `&`.
pub open spec fn query_of(params: Seq<ParamView>) -> Seq<char> {
    join_amp(entries(params))
}

/// Builds `name1=value1&name2=value2...` from the parameters that hold a
/// value, in the order given; absent ones are left out, and nothing is escaped.
pub fn generate_query_string(params: &Vec<(&str, Option<String>)>) -> (r: String)
    ensures
        r@ == query_of(params.deep_view()),
{
    let ghost ps = params.deep_view();
    let mut out = String::new();
    let mut i: usize = 0;
    while i < params.len()
        invariant
            i <= params.len(),
            ps == params.deep_view(),
            out@ == query_of(ps.take(i as int)),
            out@.len() == 0 <==> entries(ps.take(i as int)).len() == 0,
        decreases params.len() - i,
    {
        let key: &str = params[i].0;
        proof {
            assert(ps.take(i + 1).drop_last() =~= ps.take(i as int));
            assert(ps.take(i + 1).last() == ps[i as int]);
        }
        match &params[i].1 {
            Some(value) => {
                let ghost before = entries(ps.take(i as int));
                let ghost item = entry(key@, value@);
                if !out.as_str().is_empty() {
                    out.append("&");
                    proof {
                        reveal_strlit("&");
                    }
                }
                out.append(key);
                out.append("=");
                out.append(value.as_str());
                proof {
                    reveal_strlit("=");
                    assert(before.push(item).drop_last() =~= before);
                    assert(entries(ps.take(i + 1)) == before.push(item));
                    if before.len() == 0 {
                        assert(out@ =~= item);
                    } else {
                        assert(out@ =~= join_amp(before) + seq!['&'] + item);
                    }
                }
            },
            None => {},
        }
        i += 1;
    }
    proof {
        assert(ps.take(params.len() as int) =~= ps);
    }
    out
}

/// Whether parameter `p` holds a value and gives the entry `e`.
pub open spec fn gives(p: ParamView, e: Seq<char>) -> bool {
    match p.1 {
        Some(v) => e == entry(p.0, v),
        None => false,
    }
}

/// An entry is in the query of `params` exactly when some parameter gives it.
pub proof fn lemma_entries_contains(params: Seq<ParamView>, e: Seq<char>)
    ensures
        entries(params).contains(e) <==> exists|i: int|
            0 <= i < params.len() && gives(#[trigger] params[i], e),
    decreases params.len(),
{
    if params.len() > 0 {
        let rest = params.drop_last();
        let n = params.len() - 1;
        lemma_entries_contains(rest, e);
        if entries(params).contains(e) {
            if entries(rest).contains(e) {
                let i = choose|i: int| 0 <= i < rest.len() && gives(#[trigger] rest[i], e);
                assert(params[i] == rest[i]);
            } else {
                assert(gives(params[n], e));
            }
        }
        if exists|i: int| 0 <= i < params.len() && gives(#[trigger] params[i], e) {
            let i = choose|i: int| 0 <= i < params.len() && gives(#[trigger] params[i], e);
            if i < n {
                assert(rest[i] == params[i]);
                let k = choose|k: int| 0 <= k < entries(rest).len() && entries(rest)[k] == e;
                match params.last().1 {
                    Some(v) => assert(entries(params)[k] == e),
                    None => {},
                }
            } else {
                assert(entries(params).last() == e);
            }
        }
    }
}

/// Two parameter lists that hold the same pairs, in whatever order, give
/// queries with the same entries: building twice from one mapping yields the
/// same logical query.
pub proof fn lemma_query_order_independent(a: Seq<ParamView>, b: Seq<ParamView>)
    requires
        forall|p: ParamView| a.contains(p) <==> b.contains(p),
    ensures
        forall|e: Seq<char>| entries(a).contains(e) <==> entries(b).contains(e),
{
    assert forall|e: Seq<char>| entries(a).contains(e) <==> entries(b).contains(e) by {
        lemma_entries_contains(a, e);
        lemma_entries_contains(b, e);
        if entries(a).contains(e) {
            let i = choose|i: int| 0 <= i < a.len() && gives(a[i], e);
            assert(b.contains(a[i]));
        }
        if entries(b).contains(e) {
            let i = choose|i: int| 0 <= i < b.len() && gives(b[i], e);
            assert(a.contains(b[i]));
        }
    }
}

/// Parameters that all lack a value give the empty query.
pub proof fn lemma_absent_values_empty_query(params: Seq<ParamView>)
    requires
        forall|i: int| 0 <= i < params.len() ==> params[i].1 is None,
    ensures
        query_of(params) == Seq::<char>::empty(),
    decreases params.len(),
{
    if params.len() > 0 {
        lemma_absent_values_empty_query(params.drop_last());
        assert(entries(params) == entries(params.drop_last()));
    }
}

/// The decimal digit `d` as a character.
pub open spec fn digit_char(d: nat) -> char {
    seq!['0', '1', '2', '3', '4', '5', '6', '7', '8', '9'][d as int]
}

/// The decimal form of `n`, without leading zeros.
pub open spec fn decimal(n: nat) -> Seq<char>
    decreases n,
{
    if n < 10 {
        seq![digit_char(n)]
    } else {
        decimal(n / 10).push(digit_char(n % 10))
    }
}

fn digit_str(d: u32) -> (r: &'static str)
    requires
        d < 10,
    ensures
        r@ == seq![digit_char(d as nat)],
{
    proof {
        reveal_strlit("0");
        reveal_strlit("1");
        reveal_strlit("2");
        reveal_strlit("3");
        reveal_strlit("4");
        reveal_strlit("5");
        reveal_strlit("6");
        reveal_strlit("7");
        reveal_strlit("8");
        reveal_strlit("9");
    }
    match d {
        0 => "0",
        1 => "1",
        2 => "2",
        3 => "3",
        4 => "4",
        5 => "5",
        6 => "6",
        7 => "7",
        8 => "8",
        _ => "9",
    }
}

/// The decimal form of `n`.
pub fn decimal_string(n: u32) -> (r: String)
    ensures
        r@ == decimal(n as nat),
    decreases n,
{
    if n < 10 {
        String::from_str(digit_str(n))
    } else {
        let mut s = decimal_string(n / 10);
        s.append(digit_str(n % 10));
        s
    }
}

} // verus!
