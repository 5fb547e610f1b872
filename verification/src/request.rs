use vstd::prelude::*;

verus! {

// Every server operation is one HTTP request.  Instead of pasting strings
// together, a request is a typed value — method, path segments, query
// parameters — and the URL is assembled from it with every dynamic part
// percent-escaped, so no name, password or token can smuggle a delimiter
// into the URL.

/// Bytes that may stand in a URL as they are: ASCII letters, digits,
/// `-`, `.`, `_` and `~`.  Everything else is escaped.
pub open spec fn is_unreserved(b: u8) -> bool {
    ||| 48 <= b <= 57  // '0' ..= '9'
    ||| 65 <= b <= 90  // 'A' ..= 'Z'
    ||| 97 <= b <= 122  // 'a' ..= 'z'
    ||| b == 45  // '-'
    ||| b == 46  // '.'
    ||| b == 95  // '_'
    ||| b == 126  // '~'
}

/// The upper-case hex digit for a value below 16.
pub open spec fn hex_digit(n: u8) -> u8
    recommends
        n < 16,
{
    if n < 10 {
        (48 + n) as u8  // '0' + n
    } else {
        (55 + n) as u8  // 'A' + (n - 10)
    }
}

/// How one byte appears in an escaped URL part: itself if unreserved,
/// `%XX` otherwise.
pub open spec fn encoded_byte(b: u8) -> Seq<u8> {
    if is_unreserved(b) {
        seq![b]
    } else {
        seq![37u8, hex_digit(b / 16), hex_digit(b % 16)]  // '%' X X
    }
}

/// The percent-escaped form of a byte string.
pub open spec fn percent_encoded(s: Seq<u8>) -> Seq<u8>
    decreases s.len(),
{
    if s.len() == 0 {
        Seq::empty()
    } else {
        encoded_byte(s.first()) + percent_encoded(s.drop_first())
    }
}

pub proof fn lemma_percent_encoded_concat(a: Seq<u8>, b: Seq<u8>)
    ensures
        percent_encoded(a + b) == percent_encoded(a) + percent_encoded(b),
    decreases a.len(),
{
    if a.len() == 0 {
        assert(a + b =~= b);
        assert(percent_encoded(a) + percent_encoded(b) =~= percent_encoded(b));
    } else {
        lemma_percent_encoded_concat(a.drop_first(), b);
        assert((a + b).drop_first() =~= a.drop_first() + b);
        assert(percent_encoded(a + b) =~= percent_encoded(a) + percent_encoded(b));
    }
}

pub proof fn lemma_percent_encoded_snoc(s: Seq<u8>, i: int)
    requires
        0 <= i < s.len(),
    ensures
        percent_encoded(s.take(i + 1)) == percent_encoded(s.take(i)) + encoded_byte(s[i]),
{
    reveal_with_fuel(percent_encoded, 3);
    lemma_percent_encoded_concat(s.take(i), seq![s[i]]);
    assert(s.take(i + 1) =~= s.take(i) + seq![s[i]]);
    assert(seq![s[i]].drop_first() =~= Seq::<u8>::empty());
    assert(percent_encoded(seq![s[i]]) =~= encoded_byte(s[i]));
}

/// No escaped byte string can carry a URL delimiter: every byte of the
/// escaped form is unreserved or the `%` that starts an escape.  In
/// particular `/`, `?`, `=`, `&` and `#` never appear, whatever the input.
pub proof fn lemma_percent_encoded_no_delimiters(s: Seq<u8>)
    ensures
        forall|j: int|
            0 <= j < percent_encoded(s).len() ==> is_unreserved(#[trigger] percent_encoded(s)[j])
                || percent_encoded(s)[j] == 37,
    decreases s.len(),
{
    if s.len() > 0 {
        lemma_percent_encoded_no_delimiters(s.drop_first());
        assert forall|j: int| 0 <= j < percent_encoded(s).len() implies is_unreserved(
            #[trigger] percent_encoded(s)[j],
        ) || percent_encoded(s)[j] == 37 by {
            let e = encoded_byte(s.first());
            if j >= e.len() {
                assert(percent_encoded(s)[j] == percent_encoded(s.drop_first())[j - e.len()]);
            }
        }
    }
}

/// Escaping loses nothing: two byte strings with one escaped form are the
/// same string, so distinct names, passwords and tokens can never collide in
/// a URL.
pub proof fn lemma_percent_encoded_injective(a: Seq<u8>, b: Seq<u8>)
    requires
        percent_encoded(a) == percent_encoded(b),
    ensures
        a == b,
    decreases a.len(),
{
    if a.len() == 0 && b.len() == 0 {
        assert(a =~= b);
    } else if a.len() == 0 || b.len() == 0 {
        assert(percent_encoded(Seq::<u8>::empty()).len() == 0);
        assert(false);
    } else {
        let x = a.first();
        let y = b.first();
        let ea = encoded_byte(x);
        let eb = encoded_byte(y);
        let ta = percent_encoded(a.drop_first());
        let tb = percent_encoded(b.drop_first());
        assert(percent_encoded(a) == ea + ta);
        assert(percent_encoded(b) == eb + tb);
        assert((ea + ta)[0] == ea[0]);
        assert((eb + tb)[0] == eb[0]);
        if is_unreserved(x) && is_unreserved(y) {
            assert(x == y);
        } else if !is_unreserved(x) && !is_unreserved(y) {
            assert((ea + ta)[1] == ea[1]);
            assert((ea + ta)[2] == ea[2]);
            assert((eb + tb)[1] == eb[1]);
            assert((eb + tb)[2] == eb[2]);
            assert(hex_digit(x / 16) == hex_digit(y / 16));
            assert(hex_digit(x % 16) == hex_digit(y % 16));
            assert(x / 16 == y / 16);
            assert(x % 16 == y % 16);
            assert(x == y);
        } else {
            // One side starts with its own unreserved byte, which is never
            // the escape byte, the other with the escape byte itself.
            assert(false);
        }
        assert(ea =~= eb);
        assert(ta.len() == tb.len());
        assert forall|i: int| 0 <= i < ta.len() implies ta[i] == tb[i] by {
            assert((ea + ta)[ea.len() + i] == ta[i]);
            assert((eb + tb)[eb.len() + i] == tb[i]);
        }
        assert(ta =~= tb);
        lemma_percent_encoded_injective(a.drop_first(), b.drop_first());
        assert forall|i: int| 0 <= i < a.len() implies a[i] == b[i] by {
            if i > 0 {
                assert(a.drop_first()[i - 1] == b.drop_first()[i - 1]);
            }
        }
        assert(a =~= b);
    }
}

fn byte_is_unreserved(b: u8) -> (r: bool)
    ensures
        r == is_unreserved(b),
{
    (48 <= b && b <= 57) || (65 <= b && b <= 90) || (97 <= b && b <= 122) || b == 45 || b == 46
        || b == 95 || b == 126
}

fn hex_digit_of(n: u8) -> (r: u8)
    requires
        n < 16,
    ensures
        r == hex_digit(n),
{
    if n < 10 {
        48 + n
    } else {
        55 + n
    }
}

/// Escapes a byte string for use as a path segment or query key or value.
pub fn percent_encode(s: &Vec<u8>) -> (r: Vec<u8>)
    ensures
        r@ == percent_encoded(s@),
{
    let mut out: Vec<u8> = Vec::new();
    let mut i: usize = 0;
    while i < s.len()
        invariant
            i <= s@.len(),
            out@ == percent_encoded(s@.take(i as int)),
        decreases s@.len() - i,
    {
        let b = s[i];
        proof {
            lemma_percent_encoded_snoc(s@, i as int);
        }
        if byte_is_unreserved(b) {
            out.push(b);
        } else {
            out.push(37);
            out.push(hex_digit_of(b / 16));
            out.push(hex_digit_of(b % 16));
        }
        proof {
            assert(out@ =~= percent_encoded(s@.take(i as int)) + encoded_byte(s@[i as int]));
        }
        i = i + 1;
    }
    proof {
        assert(s@.take(s@.len() as int) =~= s@);
    }
    out
}

/// The HTTP method of a request.
#[derive(Clone, Copy, PartialEq, Eq, Structural, Debug)]
pub enum Method {
    Get,
    Post,
}

/// One request to the remote service: a method, the path under the host as
/// raw segments, and the query parameters as raw key-value pairs.  Escaping
/// happens only when the URL is assembled.
#[derive(Clone, PartialEq, Eq, Debug)]
pub struct Request {
    pub method: Method,
    pub path: Vec<Vec<u8>>,
    pub query: Vec<(Vec<u8>, Vec<u8>)>,
}

/// The raw byte strings of a segment list.
pub open spec fn segs_view(path: Seq<Vec<u8>>) -> Seq<Seq<u8>> {
    path.map_values(|v: Vec<u8>| v@)
}

/// The raw byte strings of a parameter list.
pub open spec fn query_view(q: Seq<(Vec<u8>, Vec<u8>)>) -> Seq<(Seq<u8>, Seq<u8>)> {
    q.map_values(|p: (Vec<u8>, Vec<u8>)| (p.0@, p.1@))
}

/// The path part of the URL: each segment escaped and preceded by `/`.
pub open spec fn path_encoding(segs: Seq<Seq<u8>>) -> Seq<u8>
    decreases segs.len(),
{
    if segs.len() == 0 {
        Seq::empty()
    } else {
        seq![47u8] + percent_encoded(segs.first()) + path_encoding(segs.drop_first())  // '/'
    }
}

/// One escaped `key=value` pair.
pub open spec fn pair_encoding(p: (Seq<u8>, Seq<u8>)) -> Seq<u8> {
    percent_encoded(p.0) + seq![61u8] + percent_encoded(p.1)  // '='
}

/// The escaped pairs joined by `&`.
pub open spec fn query_encoding(q: Seq<(Seq<u8>, Seq<u8>)>) -> Seq<u8>
    decreases q.len(),
{
    if q.len() == 0 {
        Seq::empty()
    } else if q.len() == 1 {
        pair_encoding(q.first())
    } else {
        pair_encoding(q.first()) + seq![38u8] + query_encoding(q.drop_first())  // '&'
    }
}

/// The whole URL: host, path, then `?` and the query when there is one.
pub open spec fn url_encoding(host: Seq<u8>, segs: Seq<Seq<u8>>, q: Seq<(Seq<u8>, Seq<u8>)>) -> Seq<
    u8,
> {
    host + path_encoding(segs) + if q.len() == 0 {
        Seq::<u8>::empty()
    } else {
        seq![63u8] + query_encoding(q)  // '?'
    }
}

pub proof fn lemma_path_encoding_snoc(segs: Seq<Seq<u8>>, x: Seq<u8>)
    ensures
        path_encoding(segs.push(x)) == path_encoding(segs) + seq![47u8] + percent_encoded(x),
    decreases segs.len(),
{
    reveal_with_fuel(path_encoding, 3);
    if segs.len() == 0 {
        assert(segs.push(x).drop_first() =~= Seq::<Seq<u8>>::empty());
        assert(path_encoding(segs.push(x)) =~= path_encoding(segs) + seq![47u8]
            + percent_encoded(x));
    } else {
        lemma_path_encoding_snoc(segs.drop_first(), x);
        assert(segs.push(x).drop_first() =~= segs.drop_first().push(x));
        assert(path_encoding(segs.push(x)) =~= path_encoding(segs) + seq![47u8]
            + percent_encoded(x));
    }
}

pub proof fn lemma_query_encoding_snoc(q: Seq<(Seq<u8>, Seq<u8>)>, p: (Seq<u8>, Seq<u8>))
    ensures
        q.len() == 0 ==> query_encoding(q.push(p)) == pair_encoding(p),
        q.len() > 0 ==> query_encoding(q.push(p)) == query_encoding(q) + seq![38u8]
            + pair_encoding(p),
    decreases q.len(),
{
    reveal_with_fuel(query_encoding, 3);
    if q.len() == 0 {
        assert(q.push(p).first() == p);
    } else if q.len() == 1 {
        assert(q.push(p).drop_first() =~= seq![p]);
        assert(query_encoding(q.push(p)) =~= query_encoding(q) + seq![38u8] + pair_encoding(p));
    } else {
        lemma_query_encoding_snoc(q.drop_first(), p);
        assert(q.push(p).drop_first() =~= q.drop_first().push(p));
        assert(query_encoding(q.push(p)) =~= query_encoding(q) + seq![38u8] + pair_encoding(p));
    }
}

/// Assembles the URL for a request against a host, escaping every segment,
/// key and value.
pub fn build_url(host: &Vec<u8>, req: &Request) -> (r: Vec<u8>)
    ensures
        r@ == url_encoding(host@, segs_view(req.path@), query_view(req.query@)),
{
    let ghost segs = segs_view(req.path@);
    let ghost qv = query_view(req.query@);
    let mut out: Vec<u8> = Vec::new();
    out.extend_from_slice(host.as_slice());
    proof {
        assert(out@ =~= host@);
    }
    let mut i: usize = 0;
    while i < req.path.len()
        invariant
            i <= req.path@.len(),
            segs == segs_view(req.path@),
            out@ == host@ + path_encoding(segs.take(i as int)),
        decreases req.path@.len() - i,
    {
        out.push(47);
        let mut e = percent_encode(&req.path[i]);
        out.append(&mut e);
        proof {
            assert(segs.take(i as int).push(segs[i as int]) =~= segs.take(i + 1));
            lemma_path_encoding_snoc(segs.take(i as int), segs[i as int]);
            assert(out@ =~= host@ + path_encoding(segs.take(i + 1)));
        }
        i = i + 1;
    }
    proof {
        assert(segs.take(segs.len() as int) =~= segs);
    }
    if req.query.len() > 0 {
        out.push(63);
        let mut j: usize = 0;
        while j < req.query.len()
            invariant
                j <= req.query@.len(),
                segs == segs_view(req.path@),
                qv == query_view(req.query@),
                out@ == host@ + path_encoding(segs) + seq![63u8] + query_encoding(
                    qv.take(j as int),
                ),
            decreases req.query@.len() - j,
        {
            if j > 0 {
                out.push(38);
            }
            let mut k = percent_encode(&req.query[j].0);
            out.append(&mut k);
            out.push(61);
            let mut v = percent_encode(&req.query[j].1);
            out.append(&mut v);
            proof {
                assert(qv.take(j as int).push(qv[j as int]) =~= qv.take(j + 1));
                lemma_query_encoding_snoc(qv.take(j as int), qv[j as int]);
                assert(out@ =~= host@ + path_encoding(segs) + seq![63u8] + query_encoding(
                    qv.take(j + 1),
                ));
            }
            j = j + 1;
        }
        proof {
            assert(qv.take(qv.len() as int) =~= qv);
            assert(out@ =~= url_encoding(host@, segs, qv));
        }
    } else {
        proof {
            assert(out@ =~= url_encoding(host@, segs, qv));
        }
    }
    out
}

} // verus!
