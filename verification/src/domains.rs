//! The domain list: the runner accepts domains both as repeated flags and as
//! comma-joined values inside one flag, so the list is normalized once, by
//! joining all supplied values with commas and splitting the result again.
//! The joined form is also what every hook invocation receives as
//! `HOOK_ALL_DOMAINS`, and the split form drives the per-domain loop.

use vstd::prelude::*;

use crate::numerals::{dec_rep, usize_to_decimal};

verus! {

/// The parts joined with a single comma between consecutive parts.
pub open spec fn comma_join(parts: Seq<Seq<char>>) -> Seq<char>
    decreases parts.len(),
{
    if parts.len() == 0 {
        Seq::empty()
    } else if parts.len() == 1 {
        parts[0]
    } else {
        comma_join(parts.drop_last()) + seq![','] + parts.last()
    }
}

/// The maximal comma-free pieces of `s`, in order: every comma separates two
/// pieces, so the result always has one piece more than `s` has commas.
pub open spec fn comma_split(s: Seq<char>) -> Seq<Seq<char>>
    decreases s.len(),
{
    if s.len() == 0 {
        seq![Seq::<char>::empty()]
    } else if s.last() == ',' {
        comma_split(s.drop_last()).push(Seq::<char>::empty())
    } else {
        let p = comma_split(s.drop_last());
        p.update(p.len() - 1, p.last().push(s.last()))
    }
}

/// A split never yields an empty list of pieces.
pub proof fn lemma_comma_split_nonempty(s: Seq<char>)
    ensures
        comma_split(s).len() >= 1,
    decreases s.len(),
{
    if s.len() > 0 {
        lemma_comma_split_nonempty(s.drop_last());
    }
}

/// Appending one non-comma character to a string extends its last piece.
proof fn lemma_join_push_char(p: Seq<Seq<char>>, c: char)
    requires
        p.len() >= 1,
    ensures
        comma_join(p.update(p.len() - 1, p.last().push(c))) == comma_join(p).push(c),
    decreases p.len(),
{
    let u = p.update(p.len() - 1, p.last().push(c));
    if p.len() == 1 {
        assert(u[0] =~= comma_join(p).push(c));
    } else {
        assert(u.drop_last() =~= p.drop_last());
        assert(u.last() == p.last().push(c));
        assert(comma_join(u.drop_last()) + seq![','] + u.last() =~= (comma_join(p.drop_last())
            + seq![','] + p.last()).push(c));
    }
}

/// Joining the pieces of a split restores the original string: normalization
/// never alters the joined form.
pub proof fn lemma_join_of_split(s: Seq<char>)
    ensures
        comma_join(comma_split(s)) == s,
    decreases s.len(),
{
    if s.len() == 0 {
    } else if s.last() == ',' {
        lemma_join_of_split(s.drop_last());
        lemma_comma_split_nonempty(s.drop_last());
        let q = comma_split(s.drop_last()).push(Seq::<char>::empty());
        assert(q.drop_last() =~= comma_split(s.drop_last()));
        assert(comma_join(q.drop_last()) + seq![','] + q.last() =~= s);
    } else {
        lemma_join_of_split(s.drop_last());
        lemma_comma_split_nonempty(s.drop_last());
        lemma_join_push_char(comma_split(s.drop_last()), s.last());
        assert(comma_split(s.drop_last()).update(comma_split(s.drop_last()).len() - 1,
            comma_split(s.drop_last()).last().push(s.last())) == comma_split(s));
        assert(s.drop_last().push(s.last()) =~= s);
    }
}

/// A string without commas splits into exactly itself.
proof fn lemma_split_no_comma(s: Seq<char>)
    requires
        forall|i: int| 0 <= i < s.len() ==> s[i] != ',',
    ensures
        comma_split(s) == seq![s],
    decreases s.len(),
{
    if s.len() > 0 {
        assert(s.last() == s[s.len() - 1]);
        lemma_split_no_comma(s.drop_last());
        assert(comma_split(s) =~= seq![s.drop_last().push(s.last())]);
        assert(s.drop_last().push(s.last()) =~= s);
        assert(comma_split(s) =~= seq![s]);
    } else {
        assert(s =~= Seq::<char>::empty());
        assert(comma_split(s) =~= seq![s]);
    }
}

/// Appending comma-free text extends the last piece of a split.
proof fn lemma_split_append_no_comma(s: Seq<char>, t: Seq<char>)
    requires
        forall|i: int| 0 <= i < t.len() ==> t[i] != ',',
    ensures
        comma_split(s + t) == comma_split(s).update(
            comma_split(s).len() - 1,
            comma_split(s).last() + t,
        ),
    decreases t.len(),
{
    lemma_comma_split_nonempty(s);
    let p = comma_split(s);
    if t.len() == 0 {
        assert(s + t =~= s);
        assert(p.update(p.len() - 1, p.last() + t) =~= p);
    } else {
        lemma_split_append_no_comma(s, t.drop_last());
        let st = s + t;
        assert(st.last() == t.last());
        assert(st.last() != ',');
        assert(st.drop_last() =~= s + t.drop_last());
        let q = comma_split(s + t.drop_last());
        assert(comma_split(st) == q.update(q.len() - 1, q.last().push(st.last())));
        assert(q == p.update(p.len() - 1, p.last() + t.drop_last()));
        assert(q.len() == p.len());
        assert(q.last() == p.last() + t.drop_last());
        assert((p.last() + t.drop_last()).push(t.last()) =~= p.last() + t);
        assert(q.update(q.len() - 1, q.last().push(st.last())) =~= p.update(
            p.len() - 1,
            p.last() + t,
        ));
    }
}

/// Splitting a join restores the original list, as long as no listed domain
/// itself contains a comma: on such input, normalization is faithful.
pub proof fn lemma_split_of_join(l: Seq<Seq<char>>)
    requires
        l.len() >= 1,
        forall|i: int, j: int| 0 <= i < l.len() && 0 <= j < l[i].len() ==> l[i][j] != ',',
    ensures
        comma_split(comma_join(l)) == l,
    decreases l.len(),
{
    if l.len() == 1 {
        assert(forall|j: int| 0 <= j < l[0].len() ==> l[0][j] != ',');
        lemma_split_no_comma(l[0]);
        assert(seq![comma_join(l)] =~= l);
    } else {
        lemma_split_of_join(l.drop_last());
        let a = comma_join(l.drop_last());
        assert(comma_join(l) =~= (a + seq![',']) + l.last());
        assert forall|j: int| 0 <= j < l.last().len() implies l.last()[j] != ',' by {
            assert(l.last() == l[l.len() - 1]);
        }
        lemma_split_append_no_comma(a + seq![','], l.last());
        assert((a + seq![',']).last() == ',');
        assert((a + seq![',']).drop_last() =~= a);
        assert(comma_split(a + seq![',']) == comma_split(a).push(Seq::<char>::empty()));
        let q = l.drop_last().push(Seq::<char>::empty());
        assert(comma_split(a + seq![',']) == q);
        assert(q.update(q.len() - 1, q.last() + l.last()) =~= l);
    }
}

/// Joins the supplied domain values with commas, as the runner builds the
/// `HOOK_ALL_DOMAINS` value.
pub fn join_domains(domains: &Vec<String>) -> (r: String)
    ensures
        r@ == comma_join(domains.deep_view()),
{
    let ghost ds = domains.deep_view();
    let mut r = String::new();
    let mut i: usize = 0;
    while i < domains.len()
        invariant
            i <= domains.len(),
            ds == domains.deep_view(),
            r@ == comma_join(ds.take(i as int)),
        decreases domains.len() - i,
    {
        proof {
            reveal_strlit(",");
            assert(ds.take(i + 1).drop_last() =~= ds.take(i as int));
            assert(ds.take(i + 1).last() == ds[i as int]);
            assert(ds[i as int] == domains@[i as int]@);
        }
        if i > 0 {
            r.append(",");
        }
        r.append(domains[i].as_str());
        proof {
            if i == 0 {
                assert(r@ =~= comma_join(ds.take(1)));
            } else {
                assert(r@ =~= comma_join(ds.take(i as int)) + seq![','] + ds[i as int]);
            }
        }
        i = i + 1;
    }
    proof {
        assert(ds.take(domains.len() as int) =~= ds);
    }
    r
}

/// Splits a comma-joined value back into individual domains.
pub fn split_domains(s: &str) -> (r: Vec<String>)
    ensures
        r.deep_view() == comma_split(s@),
        r.len() >= 1,
{
    let len = s.unicode_len();
    let mut parts: Vec<String> = Vec::new();
    let mut cur = String::new();
    let mut i: usize = 0;
    proof {
        assert(parts.deep_view().push(cur@) =~= comma_split(s@.take(0)));
    }
    while i < len
        invariant
            i <= len,
            len == s@.len(),
            comma_split(s@.take(i as int)) == parts.deep_view().push(cur@),
        decreases len - i,
    {
        proof {
            assert(s@.take(i + 1).drop_last() =~= s@.take(i as int));
            assert(s@.take(i + 1).last() == s@[i as int]);
        }
        let c = s.get_char(i);
        if c == ',' {
            let ghost old_parts = parts.deep_view();
            let ghost old_cur = cur@;
            parts.push(cur);
            cur = String::new();
            proof {
                assert(parts.deep_view() =~= old_parts.push(old_cur));
                lemma_comma_split_nonempty(s@.take(i as int));
                assert(comma_split(s@.take(i + 1)) =~= parts.deep_view().push(cur@));
            }
        } else {
            let ghost old_cur = cur@;
            let piece = s.substring_char(i, i + 1);
            cur.append(piece);
            proof {
                assert(piece@ =~= seq![s@[i as int]]);
                assert(cur@ =~= old_cur.push(s@[i as int]));
                let p = comma_split(s@.take(i as int));
                lemma_comma_split_nonempty(s@.take(i as int));
                assert(p.last() == old_cur);
                assert(p.update(p.len() - 1, p.last().push(s@[i as int])) =~= parts.deep_view()
                    .push(cur@));
            }
        }
        i = i + 1;
    }
    proof {
        assert(s@.take(len as int) =~= s@);
    }
    let ghost old_parts = parts.deep_view();
    let ghost last_cur = cur@;
    parts.push(cur);
    proof {
        assert(parts.deep_view() =~= old_parts.push(last_cur));
    }
    parts
}

/// Normalizes the supplied domain values in one step, right after argument
/// parsing: everything is joined with commas, and the joined form is split
/// again, so repeated flags and comma-joined values inside one flag come out
/// the same. Returns the joined form (handed to every hook as
/// `HOOK_ALL_DOMAINS`) and the working list that drives the loop; joining
/// the working list gives back exactly the joined form.
pub fn normalize_domains(domains: &Vec<String>) -> (r: (String, Vec<String>))
    ensures
        r.0@ == comma_join(domains.deep_view()),
        r.1.deep_view() == comma_split(r.0@),
        r.1.len() >= 1,
        comma_join(r.1.deep_view()) == r.0@,
{
    let joined = join_domains(domains);
    let parts = split_domains(joined.as_str());
    proof {
        lemma_join_of_split(joined@);
    }
    (joined, parts)
}

/// The progress phrase naming the domains about to be processed: one domain
/// stands alone, two are named "A and B", more than two become
/// "A and N more domains" with N one less than the total.
pub open spec fn summary_phrase(ds: Seq<Seq<char>>) -> Seq<char>
    recommends
        ds.len() >= 1,
{
    if ds.len() == 1 {
        ds[0]
    } else if ds.len() == 2 {
        ds[0] + " and "@ + ds[1]
    } else {
        ds[0] + " and "@ + dec_rep((ds.len() - 1) as nat) + " more domains"@
    }
}

/// The full progress line printed once before any hook runs.
pub open spec fn summary_line(ds: Seq<Seq<char>>) -> Seq<char>
    recommends
        ds.len() >= 1,
{
    "Learning hook process for "@ + summary_phrase(ds)
}

/// Builds the progress line for the given domain list.
pub fn summary_line_of(domains: &Vec<String>) -> (r: String)
    requires
        domains.len() >= 1,
    ensures
        r@ == summary_line(domains.deep_view()),
{
    let ghost ds = domains.deep_view();
    let mut r = String::new();
    r.append("Learning hook process for ");
    r.append(domains[0].as_str());
    proof {
        assert(ds[0] == domains@[0]@);
    }
    if domains.len() == 2 {
        r.append(" and ");
        r.append(domains[1].as_str());
        proof {
            assert(ds[1] == domains@[1]@);
            assert(r@ =~= summary_line(ds));
        }
    } else if domains.len() > 2 {
        r.append(" and ");
        let n = usize_to_decimal(domains.len() - 1);
        r.append(n.as_str());
        r.append(" more domains");
        proof {
            assert(r@ =~= summary_line(ds));
        }
    } else {
        proof {
            assert(r@ =~= summary_line(ds));
        }
    }
    r
}

} // verus!
