use crate::date_time::{earlier, is_earlier, DateTime};
use crate::http_error::HttpStatus;
use vstd::prelude::*;

verus! {

/// One page of a listing, with the number of pages and records in the whole listing.
pub struct PaginationResult<T> {
    pub records: Vec<T>,
    pub total_pages: usize,
    pub total_records: usize,
}

/// The positions whose flag is set, in increasing order.
pub open spec fn positions(flags: Seq<bool>) -> Seq<usize>
    decreases flags.len(),
{
    if flags.len() == 0 {
        Seq::empty()
    } else {
        let s = positions(flags.drop_last());
        if flags.last() {
            s.push((flags.len() - 1) as usize)
        } else {
            s
        }
    }
}

/// In a listing, the row at `p` comes before the row at `q`: it was created later, or at
/// the same time and added later. `keys` holds the creation time of each row.
pub open spec fn comes_before(keys: Seq<DateTime>, p: usize, q: usize) -> bool {
    earlier(keys[q as int], keys[p as int]) || (keys[p as int] == keys[q as int] && p > q)
}

/// `ord` holds the positions of `kept` newest first: latest creation time first, and
/// among equal times the row added last first.
pub open spec fn newest_order(keys: Seq<DateTime>, kept: Seq<usize>, ord: Seq<usize>) -> bool {
    &&& ord.len() == kept.len()
    &&& forall|x: usize| ord.contains(x) <==> kept.contains(x)
    &&& forall|i: int, j: int| 0 <= i < j < ord.len() ==> comes_before(keys, #[trigger] ord[i], #[trigger] ord[j])
}

/// Page `page` (counted from 1) of `per_page` positions of `s`.
pub open spec fn page_of(s: Seq<usize>, page: int, per_page: int) -> Seq<usize> {
    let start = (page - 1) * per_page;
    if start >= s.len() {
        Seq::empty()
    } else if start + per_page < s.len() {
        s.subrange(start, start + per_page)
    } else {
        s.subrange(start, s.len() as int)
    }
}

proof fn lemma_comes_before_total(keys: Seq<DateTime>, p: usize, q: usize)
    requires
        p != q,
    ensures
        comes_before(keys, p, q) || comes_before(keys, q, p),
        !(comes_before(keys, p, q) && comes_before(keys, q, p)),
{
}

proof fn lemma_comes_before_transitive(keys: Seq<DateTime>, p: usize, q: usize, r: usize)
    requires
        comes_before(keys, p, q),
        comes_before(keys, q, r),
    ensures
        comes_before(keys, p, r),
{
}

/// Only one arrangement of a set of positions is newest first.
pub proof fn lemma_newest_order_unique(keys: Seq<DateTime>, kept: Seq<usize>, a: Seq<usize>, b: Seq<usize>)
    requires
        newest_order(keys, kept, a),
        newest_order(keys, kept, b),
    ensures
        a == b,
    decreases a.len(),
{
    if a.len() > 0 {
        assert(a.contains(a[0]));
        assert(b.contains(b[0]));
        if a[0] != b[0] {
            let ib = choose|i: int| 0 <= i < b.len() && b[i] == a[0];
            let ia = choose|i: int| 0 <= i < a.len() && a[i] == b[0];
            assert(comes_before(keys, b[0], b[ib]));
            assert(comes_before(keys, a[0], a[ia]));
            lemma_comes_before_total(keys, a[0], b[0]);
        }
        let a1 = a.drop_first();
        let b1 = b.drop_first();
        assert forall|x: usize| a1.contains(x) <==> b1.contains(x) by {
            if a1.contains(x) {
                let i = choose|i: int| 0 <= i < a1.len() && a1[i] == x;
                assert(comes_before(keys, a[0], a[i + 1]));
                assert(b.contains(x));
                let j = choose|j: int| 0 <= j < b.len() && b[j] == x;
                if j == 0 {
                    assert(false);
                }
                assert(b1[j - 1] == x);
            }
            if b1.contains(x) {
                let i = choose|i: int| 0 <= i < b1.len() && b1[i] == x;
                assert(comes_before(keys, b[0], b[i + 1]));
                assert(a.contains(x));
                let j = choose|j: int| 0 <= j < a.len() && a[j] == x;
                if j == 0 {
                    assert(false);
                }
                assert(a1[j - 1] == x);
            }
        }
        assert forall|i: int, j: int| 0 <= i < j < a1.len() implies comes_before(keys, #[trigger] a1[i], #[trigger] a1[j]) by {
            assert(comes_before(keys, a[i + 1], a[j + 1]));
        }
        assert forall|i: int, j: int| 0 <= i < j < b1.len() implies comes_before(keys, #[trigger] b1[i], #[trigger] b1[j]) by {
            assert(comes_before(keys, b[i + 1], b[j + 1]));
        }
        lemma_newest_order_unique(keys, a1, a1, b1);
        assert(a =~= seq![a[0]] + a1);
        assert(b =~= seq![b[0]] + b1);
    }
}

/// The positions of `kept` newest first.
pub fn order_newest(keys: &Vec<DateTime>, kept: &Vec<usize>) -> (r: Vec<usize>)
    requires
        forall|k: int| 0 <= k < kept@.len() ==> #[trigger] kept@[k] < keys@.len(),
        forall|i: int, j: int| 0 <= i < j < kept@.len() ==> #[trigger] kept@[i] != #[trigger] kept@[j],
    ensures
        newest_order(keys@, kept@, r@),
{
    let mut out: Vec<usize> = Vec::new();
    let mut j: usize = 0;
    while j < kept.len()
        invariant
            0 <= j <= kept@.len(),
            forall|k: int| 0 <= k < kept@.len() ==> #[trigger] kept@[k] < keys@.len(),
            forall|a: int, b: int| 0 <= a < b < kept@.len() ==> #[trigger] kept@[a] != #[trigger] kept@[b],
            newest_order(keys@, kept@.take(j as int), out@),
            forall|t: int| 0 <= t < out@.len() ==> #[trigger] out@[t] < keys@.len(),
        decreases kept@.len() - j,
    {
        let p = kept[j];
        assert(!out@.contains(p)) by {
            if out@.contains(p) {
                assert(kept@.take(j as int).contains(p));
                let a = choose|a: int| 0 <= a < j && kept@.take(j as int)[a] == p;
                assert(kept@[a] == kept@[j as int]);
            }
        }
        let mut k: usize = 0;
        let mut found = false;
        while k < out.len() && !found
            invariant
                0 <= k <= out@.len(),
                p < keys@.len(),
                forall|t: int| 0 <= t < out@.len() ==> #[trigger] out@[t] < keys@.len(),
                forall|t: int| 0 <= t < k ==> !comes_before(keys@, p, #[trigger] out@[t]),
                found ==> k < out@.len() && comes_before(keys@, p, out@[k as int]),
            decreases out@.len() - k + if found { 0int } else { 1int },
        {
            let q = out[k];
            let kp = &keys[p];
            let kq = &keys[q];
            if is_earlier(kq, kp) || (*kp == *kq && p > q) {
                found = true;
            } else {
                k = k + 1;
            }
        }
        proof {
            let o = out@;
            let n = o.insert(k as int, p);
            o.insert_ensures(k as int, p);
            assert forall|t: int| 0 <= t < k implies comes_before(keys@, #[trigger] o[t], p) by {
                assert(o.contains(o[t]));
                lemma_comes_before_total(keys@, o[t], p);
            }
            assert forall|a: int, b: int| 0 <= a < b < n.len() implies comes_before(keys@, #[trigger] n[a], #[trigger] n[b]) by {
                if b < k {
                } else if b == k {
                } else if a < k {
                    if b == k + 1 {
                        lemma_comes_before_transitive(keys@, o[a], p, o[k as int]);
                    } else {
                        assert(comes_before(keys@, o[k as int], o[b - 1]));
                        lemma_comes_before_transitive(keys@, p, o[k as int], o[b - 1]);
                        lemma_comes_before_transitive(keys@, o[a], p, o[b - 1]);
                    }
                } else if a == k {
                    if b - 1 > k {
                        assert(comes_before(keys@, o[k as int], o[b - 1]));
                        lemma_comes_before_transitive(keys@, p, o[k as int], o[b - 1]);
                    }
                } else {
                }
            }
            let kt = kept@.take(j + 1);
            assert(kt =~= kept@.take(j as int).push(p));
            assert forall|x: usize| n.contains(x) <==> kt.contains(x) by {
                if n.contains(x) {
                    let i = choose|i: int| 0 <= i < n.len() && n[i] == x;
                    if i < k {
                        assert(o.contains(x));
                    } else if i > k {
                        assert(o[i - 1] == x);
                        assert(o.contains(x));
                    }
                    if x != p {
                        assert(kept@.take(j as int).contains(x));
                        let a = choose|a: int| 0 <= a < j && kept@.take(j as int)[a] == x;
                        assert(kt[a] == x);
                    } else {
                        assert(kt[j as int] == x);
                    }
                }
                if kt.contains(x) {
                    let a = choose|a: int| 0 <= a <= j && kt[a] == x;
                    if a == j {
                        assert(n[k as int] == x);
                    } else {
                        assert(kept@.take(j as int)[a] == x);
                        assert(o.contains(x));
                        let i = choose|i: int| 0 <= i < o.len() && o[i] == x;
                        if i < k {
                            assert(n[i] == x);
                        } else {
                            assert(n[i + 1] == x);
                        }
                    }
                }
            }
        }
        out.insert(k, p);
        j = j + 1;
    }
    assert(kept@.take(j as int) =~= kept@);
    out
}

/// Pages needed for `total` records, `per_page` to a page.
pub open spec fn page_count(total: int, per_page: int) -> int {
    (total + per_page - 1) / per_page
}

/// The positions whose flag is set.
pub fn kept_positions(flags: &Vec<bool>) -> (r: Vec<usize>)
    ensures
        r@ == positions(flags@),
{
    let mut r: Vec<usize> = Vec::new();
    let mut j: usize = 0;
    while j < flags.len()
        invariant
            0 <= j <= flags@.len(),
            r@ == positions(flags@.take(j as int)),
        decreases flags@.len() - j,
    {
        assert(flags@.take(j + 1).drop_last() == flags@.take(j as int));
        if flags[j] {
            r.push(j);
        }
        j = j + 1;
    }
    assert(flags@.take(j as int) == flags@);
    r
}

/// Page `page` of `per_page` of `ord`, with the page count; fails with
/// `DBOperationFailed` where `page` or `per_page` is below 1.
pub fn paginate_positions(ord: &Vec<usize>, page: i64, per_page: i64) -> (r: Result<
    (Vec<usize>, usize),
    HttpStatus,
>)
    ensures
        r is Err <==> page < 1 || per_page < 1,
        r is Err ==> r == Err::<(Vec<usize>, usize), HttpStatus>(HttpStatus::DBOperationFailed),
        r matches Ok(p) ==> p.0@ == page_of(ord@, page as int, per_page as int) && p.1 == page_count(
            ord@.len() as int,
            per_page as int,
        ),
{
    if page < 1 || per_page < 1 {
        return Err(HttpStatus::DBOperationFailed);
    }
    let len = ord.len();
    let num: u128 = len as u128 + per_page as u128 - 1;
    let q: u128 = num / per_page as u128;
    assert(q <= len) by (nonlinear_arith)
        requires
            q as int == num as int / per_page as int,
            num as int == len as int + per_page as int - 1,
            per_page >= 1,
            len >= 0,
    {
        if len == 0 {
            assert(num < per_page);
        } else {
            assert(num < (len + 1) * per_page);
        }
    }
    let pages = q as usize;
    assert(pages == page_count(len as int, per_page as int)) by (nonlinear_arith)
        requires
            pages == (len as int + per_page as int - 1) / per_page as int,
    ;
    assert((page - 1) * per_page <= 0x4000_0000_0000_0000_0000_0000_0000_0000) by (nonlinear_arith)
        requires
            0 <= page - 1 < 0x8000_0000_0000_0000,
            0 < per_page < 0x8000_0000_0000_0000,
    ;
    assert((page - 1) * per_page >= 0) by (nonlinear_arith)
        requires
            0 <= page - 1,
            0 < per_page,
    ;
    let start: i128 = (page as i128 - 1) * per_page as i128;
    let mut out: Vec<usize> = Vec::new();
    if start >= len as i128 {
        return Ok((out, pages));
    }
    let end: usize = if start + (per_page as i128) < len as i128 {
        (start + per_page as i128) as usize
    } else {
        len
    };
    let mut k: usize = start as usize;
    while k < end
        invariant
            0 <= start <= k <= end <= len,
            len == ord@.len(),
            out@ == ord@.subrange(start as int, k as int),
        decreases end - k,
    {
        proof {
            assert(ord@.subrange(start as int, k + 1) =~= ord@.subrange(start as int, k as int).push(ord@[k as int]));
        }
        out.push(ord[k]);
        k = k + 1;
    }
    Ok((out, pages))
}

/// The positions whose flag is set are distinct.
pub proof fn lemma_positions_distinct(flags: Seq<bool>)
    requires
        flags.len() <= usize::MAX,
    ensures
        forall|i: int, j: int|
            0 <= i < j < positions(flags).len() ==> #[trigger] positions(flags)[i] < #[trigger] positions(flags)[j],
    decreases flags.len(),
{
    if flags.len() > 0 {
        let d = flags.drop_last();
        lemma_positions_distinct(d);
        lemma_positions_flagged(d);
        let s = positions(flags);
        assert forall|i: int, j: int| 0 <= i < j < s.len() implies #[trigger] s[i] < #[trigger] s[j] by {
            if j < positions(d).len() {
                assert(s[i] == positions(d)[i] && s[j] == positions(d)[j]);
            } else {
                assert(s[i] == positions(d)[i]);
                assert(positions(d)[i] < d.len());
            }
        }
    }
}

/// An arrangement of the flagged positions holds only flagged positions in range.
pub proof fn lemma_order_flagged(keys: Seq<DateTime>, flags: Seq<bool>, ord: Seq<usize>)
    requires
        flags.len() <= usize::MAX,
        newest_order(keys, positions(flags), ord),
    ensures
        forall|m: int| 0 <= m < ord.len() ==> #[trigger] ord[m] < flags.len() && flags[ord[m] as int],
{
    lemma_positions_flagged(flags);
    assert forall|m: int| 0 <= m < ord.len() implies #[trigger] ord[m] < flags.len() && flags[ord[m] as int] by {
        assert(ord.contains(ord[m]));
        let i = choose|i: int| 0 <= i < positions(flags).len() && positions(flags)[i] == ord[m];
    }
}

/// Each position on a page is the one at that place of the whole arrangement.
pub proof fn lemma_page_index(s: Seq<usize>, page: int, per_page: int)
    requires
        page >= 1,
        per_page >= 1,
    ensures
        forall|k: int|
            0 <= k < page_of(s, page, per_page).len() ==> 0 <= (page - 1) * per_page + k < s.len() && #[trigger] page_of(
                s,
                page,
                per_page,
            )[k] == s[(page - 1) * per_page + k],
{
    assert((page - 1) * per_page >= 0) by (nonlinear_arith)
        requires
            page >= 1,
            per_page >= 1,
    ;
}

/// `p` is page `page` of `per_page` of the rows whose flag is set, newest first by
/// creation time (`keys`), with the counts of the whole listing. The arrangement is
/// unique (`lemma_newest_order_unique`).
pub open spec fn listed_page<T>(
    p: PaginationResult<T>,
    rows: Seq<T>,
    keys: Seq<DateTime>,
    flags: Seq<bool>,
    page: int,
    per_page: int,
) -> bool {
    exists|ord: Seq<usize>| #[trigger] newest_order(keys, positions(flags), ord) && page_holds(p, rows, ord, page, per_page)
}

/// `p` holds the rows at page `page` of `ord`, and the counts of all of `ord`.
pub open spec fn page_holds<T>(p: PaginationResult<T>, rows: Seq<T>, ord: Seq<usize>, page: int, per_page: int) -> bool {
    let sel = page_of(ord, page, per_page);
    &&& p.total_records == ord.len()
    &&& p.total_pages == page_count(ord.len() as int, per_page)
    &&& p.records@.len() == sel.len()
    &&& forall|k: int| 0 <= k < sel.len() ==> p.records@[k] == rows[#[trigger] sel[k] as int]
}

pub proof fn lemma_positions_flagged(flags: Seq<bool>)
    requires
        flags.len() <= usize::MAX,
    ensures
        forall|k: int| 0 <= k < positions(flags).len() ==> #[trigger] flags[positions(flags)[k] as int],
        forall|k: int| 0 <= k < positions(flags).len() ==> #[trigger] positions(flags)[k] < flags.len(),
    decreases flags.len(),
{
    if flags.len() > 0 {
        let d = flags.drop_last();
        lemma_positions_flagged(d);
        let s = positions(flags);
        assert forall|k: int| 0 <= k < s.len() implies #[trigger] flags[s[k] as int] && s[k] < flags.len() by {
            if k < positions(d).len() {
                assert(s[k] == positions(d)[k]);
                assert(flags[positions(d)[k] as int] == d[positions(d)[k] as int]);
            } else {
                assert(s[k] == (flags.len() - 1) as usize);
            }
        }
    }
}

} // verus!
