use vstd::prelude::*;
use vstd::string::*;
use crate::mozilla::MozData;
use crate::text::{lemma_push_to_set, vec_contains};

verus! {

/// `a` comes before `b` in the order of their characters' code points, a proper prefix
/// first: the order of `str`.
pub open spec fn text_before(a: Seq<char>, b: Seq<char>) -> bool
    decreases a.len(),
{
    if a.len() == 0 {
        b.len() > 0
    } else if b.len() == 0 {
        false
    } else if a[0] != b[0] {
        (a[0] as int) < (b[0] as int)
    } else {
        text_before(a.drop_first(), b.drop_first())
    }
}

/// Each name comes strictly before the next.
pub open spec fn strictly_sorted(s: Seq<Seq<char>>) -> bool {
    forall|i: int, j: int| 0 <= i < j < s.len() ==> text_before(#[trigger] s[i], #[trigger] s[j])
}

/// The names joined by `sep`.
pub open spec fn joined(s: Seq<Seq<char>>, sep: Seq<char>) -> Seq<char>
    decreases s.len(),
{
    if s.len() == 0 {
        seq![]
    } else if s.len() == 1 {
        s[0]
    } else {
        joined(s.drop_last(), sep) + sep + s.last()
    }
}

proof fn lemma_before_irreflexive(a: Seq<char>)
    ensures
        !text_before(a, a),
    decreases a.len(),
{
    if a.len() > 0 {
        lemma_before_irreflexive(a.drop_first());
    }
}

proof fn lemma_before_total(a: Seq<char>, b: Seq<char>)
    requires
        a != b,
    ensures
        text_before(a, b) || text_before(b, a),
    decreases a.len(),
{
    if a.len() > 0 && b.len() > 0 && a[0] == b[0] {
        if a.drop_first() == b.drop_first() {
            assert(a =~= seq![a[0]] + a.drop_first());
            assert(b =~= seq![b[0]] + b.drop_first());
        }
        lemma_before_total(a.drop_first(), b.drop_first());
    }
    if a.len() == 0 && b.len() == 0 {
        assert(a =~= b);
    }
}

proof fn lemma_before_transitive(a: Seq<char>, b: Seq<char>, c: Seq<char>)
    requires
        text_before(a, b),
        text_before(b, c),
    ensures
        text_before(a, c),
    decreases a.len(),
{
    if a.len() > 0 && a[0] == b[0] && b[0] == c[0] {
        lemma_before_transitive(a.drop_first(), b.drop_first(), c.drop_first());
    }
}

/// Whether `a` comes before `b`.
pub fn before(a: &str, b: &str) -> (r: bool)
    ensures
        r == text_before(a@, b@),
{
    let n = a.unicode_len();
    let m = b.unicode_len();
    let mut i: usize = 0;
    assert(a@.subrange(0, n as int) =~= a@);
    assert(b@.subrange(0, m as int) =~= b@);
    while i < n && i < m && a.get_char(i) == b.get_char(i)
        invariant
            n == a@.len(),
            m == b@.len(),
            i <= n,
            i <= m,
            text_before(a@, b@) == text_before(
                a@.subrange(i as int, n as int),
                b@.subrange(i as int, m as int),
            ),
        decreases n - i,
    {
        assert(a@.subrange(i as int, n as int).drop_first() =~= a@.subrange(i + 1, n as int));
        assert(b@.subrange(i as int, m as int).drop_first() =~= b@.subrange(i + 1, m as int));
        i = i + 1;
    }
    if i == n {
        i < m
    } else if i == m {
        false
    } else {
        let (x, y) = (a.get_char(i), b.get_char(i));
        assert(a@.subrange(i as int, n as int)[0] == x);
        assert(b@.subrange(i as int, m as int)[0] == y);
        x < y
    }
}

/// The names of `v`, each once, in increasing order.
pub fn sorted_names(v: &Vec<String>) -> (r: Vec<String>)
    ensures
        r.deep_view().to_set() == v.deep_view().to_set(),
        strictly_sorted(r.deep_view()),
        r.deep_view().no_duplicates(),
{
    let ghost vs = v.deep_view();
    let mut out: Vec<String> = Vec::new();
    let mut i: usize = 0;
    assert(out.deep_view().to_set() =~= vs.subrange(0, 0).to_set());
    while i < v.len()
        invariant
            i <= v.len(),
            vs == v.deep_view(),
            out.deep_view().to_set() == vs.subrange(0, i as int).to_set(),
            strictly_sorted(out.deep_view()),
        decreases v.len() - i,
    {
        let ghost before_set = out.deep_view().to_set();
        assert(vs.subrange(0, i + 1) =~= vs.subrange(0, i as int).push(vs[i as int]));
        proof {
            lemma_push_to_set(vs.subrange(0, i as int), vs[i as int]);
        }
        let x = &v[i];
        if !vec_contains(&out, x.as_str()) {
            let ghost os = out.deep_view();
            let mut p: usize = 0;
            while p < out.len() && before(out[p].as_str(), x.as_str())
                invariant
                    p <= out.len(),
                    os == out.deep_view(),
                    forall|k: int| 0 <= k < p ==> text_before(#[trigger] os[k], x@),
                decreases out.len() - p,
            {
                p = p + 1;
            }
            proof {
                assert forall|k: int| p <= k < os.len() implies text_before(x@, #[trigger] os[k]) by {
                    assert(os[p as int] != x@);
                    lemma_before_total(os[p as int], x@);
                    if k > p {
                        lemma_before_transitive(x@, os[p as int], os[k]);
                    }
                }
            }
            out.insert(p, x.clone());
            let ghost ns = out.deep_view();
            assert(ns =~= os.insert(p as int, x@));
            assert forall|a: int, b: int| 0 <= a < b < ns.len() implies text_before(
                #[trigger] ns[a],
                #[trigger] ns[b],
            ) by {
                if b < p {
                } else if b == p {
                } else if a < p {
                    lemma_before_transitive(ns[a], x@, ns[b]);
                } else if a == p {
                } else {
                    assert(ns[a] == os[a - 1] && ns[b] == os[b - 1]);
                }
            }
            assert forall|y: Seq<char>| ns.contains(y) <==> (os.contains(y) || y == x@) by {
                if ns.contains(y) {
                    let j = choose|j: int| 0 <= j < ns.len() && ns[j] == y;
                    if j < p {
                        assert(os[j] == y);
                    } else if j > p {
                        assert(os[j - 1] == y);
                    }
                }
                if os.contains(y) {
                    let j = choose|j: int| 0 <= j < os.len() && os[j] == y;
                    if j < p {
                        assert(ns[j] == y);
                    } else {
                        assert(ns[j + 1] == y);
                    }
                }
                if y == x@ {
                    assert(ns[p as int] == y);
                }
            }
            assert(ns.to_set() =~= before_set.insert(x@));
        } else {
            assert(out.deep_view().to_set() =~= before_set.insert(x@));
        }
        i = i + 1;
    }
    assert(vs.subrange(0, i as int) =~= vs);
    proof {
        let s = out.deep_view();
        assert forall|a: int, b: int| 0 <= a < s.len() && 0 <= b < s.len() && a != b implies s[a]
            != s[b] by {
            if a < b {
                lemma_before_irreflexive(s[a]);
            } else {
                lemma_before_irreflexive(s[b]);
            }
        }
    }
    out
}

/// The names joined by `, `.
pub fn join_names(v: &Vec<String>) -> (r: String)
    ensures
        r@ == joined(v.deep_view(), ", "@),
{
    let ghost vs = v.deep_view();
    let mut out = String::new();
    let mut i: usize = 0;
    while i < v.len()
        invariant
            i <= v.len(),
            vs == v.deep_view(),
            out@ == joined(vs.subrange(0, i as int), ", "@),
        decreases v.len() - i,
    {
        let ghost prev = vs.subrange(0, i as int);
        assert(vs.subrange(0, i + 1).drop_last() =~= prev);
        if i > 0 {
            out.append(", ");
        } else {
            assert(out@ =~= seq![]);
        }
        out.append(v[i].as_str());
        assert(out@ =~= joined(vs.subrange(0, i + 1), ", "@));
        i = i + 1;
    }
    assert(vs.subrange(0, i as int) =~= vs);
    out
}

impl MozData {
    /// The plain and the HTML text of the notice that `delta` holds new entries of this
    /// source: `<part> got new uploads: <names>`, with the names in increasing order and
    /// `<part>` in the HTML text a link to the listing.
    pub fn announcement(&self, delta: &Vec<String>) -> (r: (String, String))
        ensures
            exists|s: Seq<Seq<char>>|
                #![trigger joined(s, ", "@)]
                strictly_sorted(s) && s.to_set() == delta.deep_view().to_set() && r.0@
                    == self.url_part@ + " got new uploads: "@ + joined(s, ", "@) && r.1@
                    == "<a href=\""@ + self.base_url@ + "/"@ + self.url_part@ + "/\">"@
                    + self.url_part@ + "</a> got new uploads: "@ + joined(s, ", "@),
    {
        let names = sorted_names(delta);
        let list = join_names(&names);
        let mut plain = self.url_part.clone();
        plain.append(" got new uploads: ");
        plain.append(list.as_str());
        let mut html = String::from_str("<a href=\"");
        html.append(self.base_url.as_str());
        html.append("/");
        html.append(self.url_part.as_str());
        html.append("/\">");
        html.append(self.url_part.as_str());
        html.append("</a> got new uploads: ");
        html.append(list.as_str());
        assert(plain@ =~= self.url_part@ + " got new uploads: "@ + joined(names.deep_view(), ", "@));
        assert(html@ =~= "<a href=\""@ + self.base_url@ + "/"@ + self.url_part@ + "/\">"@
            + self.url_part@ + "</a> got new uploads: "@ + joined(names.deep_view(), ", "@));
        (plain, html)
    }
}

} // verus!
