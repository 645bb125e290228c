//! Text building blocks of every request: joined lists, decimal numbers and
//! `key=value&...` query strings.
use vstd::prelude::*;

verus! {

/// `parts` joined with `sep` between consecutive items; empty for no items.
pub open spec fn join_with(parts: Seq<Seq<char>>, sep: Seq<char>) -> Seq<char>
    decreases parts.len(),
{
    if parts.len() == 0 {
        Seq::empty()
    } else if parts.len() == 1 {
        parts[0]
    } else {
        join_with(parts.drop_last(), sep) + sep + parts.last()
    }
}

/// The list encoding of a query value: the items joined by commas.
pub open spec fn comma_join(parts: Seq<Seq<char>>) -> Seq<char> {
    join_with(parts, seq![','])
}

/// The texts of a sequence of strings.
pub open spec fn texts(v: Seq<String>) -> Seq<Seq<char>> {
    v.map_values(|s: String| s@)
}

/// The decimal digit for `d < 10`.
pub open spec fn digit_char(d: nat) -> char {
    seq!['0', '1', '2', '3', '4', '5', '6', '7', '8', '9'][d as int]
}

/// The decimal text of `n`, with no leading zeros ("0" for zero).
pub open spec fn decimal(n: nat) -> Seq<char>
    decreases n,
{
    if n < 10 {
        seq![digit_char(n)]
    } else {
        decimal(n / 10) + seq![digit_char(n % 10)]
    }
}

/// The text of a boolean, as Rust prints it.
pub open spec fn bool_text(b: bool) -> Seq<char> {
    if b {
        seq!['t', 'r', 'u', 'e']
    } else {
        seq!['f', 'a', 'l', 's', 'e']
    }
}

/// One query parameter: a key and its already encoded value.
pub struct QueryParam {
    pub key: String,
    pub value: String,
}

impl View for QueryParam {
    type V = (Seq<char>, Seq<char>);

    open spec fn view(&self) -> (Seq<char>, Seq<char>) {
        (self.key@, self.value@)
    }
}

impl QueryParam {
    pub fn new(key: &str, value: String) -> (r: QueryParam)
        ensures
            r@ == (key@, value@),
    {
        QueryParam { key: String::from_str(key), value }
    }
}

/// The views of a sequence of query parameters.
pub open spec fn param_views(v: Seq<QueryParam>) -> Seq<(Seq<char>, Seq<char>)> {
    v.map_values(|p: QueryParam| p@)
}

/// `key=value` for one parameter.
pub open spec fn param_text(p: (Seq<char>, Seq<char>)) -> Seq<char> {
    p.0 + seq!['='] + p.1
}

/// The query string of `params`, in order: `k1=v1&k2=v2&...`.
pub open spec fn query_text(params: Seq<(Seq<char>, Seq<char>)>) -> Seq<char> {
    join_with(params.map_values(|p: (Seq<char>, Seq<char>)| param_text(p)), seq!['&'])
}

/// Joins the texts of `parts` with `sep` between consecutive items.
pub fn join_texts(parts: &Vec<String>, sep: &str) -> (r: String)
    ensures
        r@ == join_with(texts(parts@), sep@),
{
    let mut out = String::new();
    let mut i: usize = 0;
    while i < parts.len()
        invariant
            i <= parts.len(),
            out@ == join_with(texts(parts@.subrange(0, i as int)), sep@),
        decreases parts.len() - i,
    {
        let ghost before = texts(parts@.subrange(0, i as int));
        if i > 0 {
            out.append(sep);
        }
        out.append(parts[i].as_str());
        proof {
            let after = texts(parts@.subrange(0, i + 1));
            assert(after.drop_last() =~= before);
            assert(after.last() == parts@[i as int]@);
            if i == 0 {
                assert(before.len() == 0);
            }
        }
        i += 1;
    }
    proof {
        assert(parts@.subrange(0, parts.len() as int) =~= parts@);
    }
    out
}

/// The list encoding of a query value: the strings joined by commas.
pub fn join_values(parts: &Vec<String>) -> (r: String)
    ensures
        r@ == comma_join(texts(parts@)),
{
    proof {
        reveal_strlit(",");
        assert(","@ =~= seq![',']);
    }
    join_texts(parts, ",")
}

/// The decimal digit for `d < 10`, as text.
fn digit_text(d: u64) -> (r: &'static str)
    requires
        d < 10,
    ensures
        r@ == seq![digit_char(d as nat)],
{
    proof {
        reveal_strlit("0");
        reveal_strlit("1");
        reveal_strlit("2");
        reveal_strlit("3");
        reveal_strlit("4");
        reveal_strlit("5");
        reveal_strlit("6");
        reveal_strlit("7");
        reveal_strlit("8");
        reveal_strlit("9");
    }
    match d {
        0 => "0",
        1 => "1",
        2 => "2",
        3 => "3",
        4 => "4",
        5 => "5",
        6 => "6",
        7 => "7",
        8 => "8",
        _ => "9",
    }
}

/// The decimal text of `n`.
pub fn decimal_text(n: u64) -> (r: String)
    ensures
        r@ == decimal(n as nat),
    decreases n,
{
    if n < 10 {
        String::from_str(digit_text(n))
    } else {
        let mut s = decimal_text(n / 10);
        s.append(digit_text(n % 10));
        s
    }
}

/// The text of a boolean: `true` or `false`.
pub fn bool_to_text(b: bool) -> (r: String)
    ensures
        r@ == bool_text(b),
{
    proof {
        reveal_strlit("true");
        reveal_strlit("false");
    }
    if b {
        String::from_str("true")
    } else {
        String::from_str("false")
    }
}

/// Numbers encoded as one list value: their decimal texts joined by commas.
pub fn join_numbers(values: &Vec<u64>) -> (r: String)
    ensures
        r@ == comma_join(values@.map_values(|n: u64| decimal(n as nat))),
{
    let mut parts: Vec<String> = Vec::new();
    let mut i: usize = 0;
    while i < values.len()
        invariant
            i <= values.len(),
            texts(parts@) =~= values@.subrange(0, i as int).map_values(|n: u64| decimal(n as nat)),
        decreases values.len() - i,
    {
        let ghost before = parts@;
        parts.push(decimal_text(values[i]));
        proof {
            assert(parts@ =~= before.push(parts@.last()));
            assert(texts(parts@) =~= texts(before).push(decimal(values@[i as int] as nat)));
            assert(values@.subrange(0, i + 1) =~= values@.subrange(0, i as int).push(values@[i as int]));
        }
        i += 1;
    }
    proof {
        assert(values@.subrange(0, values.len() as int) =~= values@);
    }
    join_values(&parts)
}

/// The query string of `params`: each `key=value`, joined by `&`, in order.
pub fn query_string(params: &Vec<QueryParam>) -> (r: String)
    ensures
        r@ == query_text(param_views(params@)),
{
    let mut parts: Vec<String> = Vec::new();
    let mut i: usize = 0;
    while i < params.len()
        invariant
            i <= params.len(),
            texts(parts@) =~= param_views(params@.subrange(0, i as int)).map_values(
                |p: (Seq<char>, Seq<char>)| param_text(p),
            ),
        decreases params.len() - i,
    {
        let mut s = params[i].key.clone();
        s.append("=");
        s.append(params[i].value.as_str());
        proof {
            reveal_strlit("=");
            assert("="@ =~= seq!['=']);
        }
        let ghost before = parts@;
        parts.push(s);
        proof {
            assert(parts@ =~= before.push(parts@.last()));
            assert(texts(parts@) =~= texts(before).push(param_text(params@[i as int]@)));
            assert(params@.subrange(0, i + 1) =~= params@.subrange(0, i as int).push(params@[i as int]));
        }
        i += 1;
    }
    proof {
        assert(params@.subrange(0, params.len() as int) =~= params@);
        reveal_strlit("&");
        assert("&"@ =~= seq!['&']);
    }
    join_texts(&parts, "&")
}

/// Whether two texts are equal.
pub fn same_text(a: &str, b: &str) -> (r: bool)
    ensures
        r == (a@ == b@),
{
    let x = String::from_str(a);
    let y = String::from_str(b);
    x == y
}

/// An empty list encodes to the empty value, so its parameter still stands in
/// a query, as `key=`.
pub proof fn lemma_empty_list_keeps_key(key: Seq<char>)
    ensures
        comma_join(texts(Seq::<String>::empty())) == Seq::<char>::empty(),
        param_text((key, comma_join(texts(Seq::<String>::empty())))) == key + seq!['='],
{
    assert(texts(Seq::<String>::empty()) =~= Seq::<Seq<char>>::empty());
    assert(key + seq!['='] + Seq::<char>::empty() =~= key + seq!['=']);
}

/// Appending a parameter to a query appends `&key=value`; so every parameter,
/// one with an empty value too, stands in the query in its place.
pub proof fn lemma_query_appends(params: Seq<(Seq<char>, Seq<char>)>, p: (Seq<char>, Seq<char>))
    ensures
        params.len() == 0 ==> query_text(params.push(p)) == param_text(p),
        params.len() > 0 ==> query_text(params.push(p)) == query_text(params) + seq!['&'] + param_text(p),
{
    let f = |q: (Seq<char>, Seq<char>)| param_text(q);
    assert(params.push(p).map_values(f).drop_last() =~= params.map_values(f));
}

} // verus!
