//! The listing engine: decoding raw provider records into entries,
//! accumulating paginated pages, and the deterministic final ordering
//! (directories before files, each group ascending by path).

use vstd::prelude::*;
use vstd::multiset::Multiset;
use vstd::seq_lib::to_multiset_build;
use vstd::seq_lib::to_multiset_contains;
use vstd::seq_lib::to_multiset_insert;
use vstd::seq_lib::to_multiset_remove;
use crate::paths::join_path;
use crate::paths::normalize_path;
use crate::paths::spec_join_path;
use crate::paths::spec_normalize_path;
use crate::text::chars_le;
use crate::text::chars_lt;
use crate::text::lemma_chars_lt_trans;
use crate::text::lemma_chars_lt_trichotomy;
use crate::text::str_lt;

verus! {

/// One raw record of a listing page, as the provider reports it.
#[derive(Debug, Clone)]
pub struct FsRecord {
    /// Possibly percent-encoded display name.
    pub name: String,
    /// Reported byte count, when the provider sent one.
    pub size: Option<u64>,
    /// The provider's explicit directory flag.
    pub is_dir: bool,
    /// Signature usable to build a signed download address.
    pub sign: String,
    /// Provider-specific object type code; code 1 also marks a directory.
    pub type_code: Option<i64>,
    /// Direct download address, when the provider supplies one.
    pub raw_url: Option<String>,
}

/// One directory or file record of a listing, owned by the caller.
#[derive(Debug, Clone, PartialEq, Eq)]
pub struct Entry {
    /// Percent-decoded display name.
    pub name: String,
    /// Absolute slash-separated path.
    pub path: String,
    /// Byte count; absent exactly for directories.
    pub size: Option<u64>,
    /// Whether the entry is a directory.
    pub is_dir: bool,
}

/// The entry invariant: `size` is absent exactly when the entry is a
/// directory.
pub open spec fn entry_wf(e: Entry) -> bool {
    e.size is None <==> e.is_dir
}

/// What `urlencoding::decode` yields on `s`: the decoded characters, or
/// nothing when the percent-encoded bytes are not valid text.
pub uninterp spec fn percent_decoded(s: Seq<char>) -> Option<Seq<char>>;

/// Relies on urlencoding::decode, whose result depends on the input
/// characters alone; a failed decode is reported as absence.
#[verifier::external_body]
fn percent_decode(s: &str) -> (r: Option<String>)
    ensures
        match r {
            Some(d) => percent_decoded(s@) == Some(d@),
            None => percent_decoded(s@) is None,
        },
{
    match urlencoding::decode(s) {
        Ok(d) => Some(d.into_owned()),
        Err(_) => None,
    }
}

/// The display name an entry gets: the percent-decoded raw name, falling back
/// to the raw name when decoding fails.
pub open spec fn spec_display_name(raw: Seq<char>) -> Seq<char> {
    match percent_decoded(raw) {
        Some(d) => d,
        None => raw,
    }
}

/// Whether a raw record denotes a directory: either by its explicit flag or
/// by the provider's type code 1.
pub open spec fn spec_entry_is_dir(r: FsRecord) -> bool {
    r.is_dir || r.type_code == Some(1i64)
}

/// The size an entry gets: absent for directories, else the reported byte
/// count, or zero when the provider reported none.
pub open spec fn spec_entry_size(r: FsRecord) -> Option<u64> {
    if spec_entry_is_dir(r) {
        None
    } else {
        match r.size {
            Some(s) => Some(s),
            None => Some(0u64),
        }
    }
}

/// How a decoded entry relates to the raw record it came from, inside the
/// directory `dir`.
pub open spec fn decoded_matches(dir: Seq<char>, r: FsRecord, e: Entry) -> bool {
    &&& e.name@ == spec_display_name(r.name@)
    &&& e.path@ == spec_join_path(dir, r.name@)
    &&& e.is_dir == spec_entry_is_dir(r)
    &&& e.size == spec_entry_size(r)
}

/// Decodes one raw record into the entry it denotes inside `dir`: the name is
/// percent-decoded (the raw name on decode failure), the path joins `dir` and
/// the raw name, and directories carry no size.
pub fn decode_entry(dir: &str, record: FsRecord) -> (e: Entry)
    ensures
        decoded_matches(dir@, record, e),
        entry_wf(e),
{
    let is_dir = record.is_dir || match record.type_code {
        Some(t) => t == 1,
        None => false,
    };
    let size = if is_dir {
        None
    } else {
        match record.size {
            Some(s) => Some(s),
            None => Some(0),
        }
    };
    let path = join_path(dir, record.name.as_str());
    let name = match percent_decode(record.name.as_str()) {
        Some(d) => d,
        None => record.name,
    };
    Entry { name, path, size, is_dir }
}

/// The order the final listing obeys: directories sort before files, and
/// entries of the same kind sort by path.
pub open spec fn entry_le(a: Entry, b: Entry) -> bool {
    if a.is_dir != b.is_dir {
        a.is_dir
    } else {
        chars_le(a.path@, b.path@)
    }
}

/// The order is total.
pub proof fn lemma_entry_le_total(a: Entry, b: Entry)
    ensures
        entry_le(a, b) || entry_le(b, a),
{
    if a.is_dir == b.is_dir {
        lemma_chars_lt_trichotomy(a.path@, b.path@);
    }
}

/// The order is transitive.
pub proof fn lemma_entry_le_trans(a: Entry, b: Entry, c: Entry)
    requires
        entry_le(a, b),
        entry_le(b, c),
    ensures
        entry_le(a, c),
{
    if a.is_dir == b.is_dir && b.is_dir == c.is_dir {
        if chars_lt(a.path@, b.path@) && chars_lt(b.path@, c.path@) {
            lemma_chars_lt_trans(a.path@, b.path@, c.path@);
        }
    }
}

/// Whether `a` sorts no later than `b` in the final listing order.
pub fn entry_le_exec(a: &Entry, b: &Entry) -> (r: bool)
    ensures
        r == entry_le(*a, *b),
{
    if a.is_dir != b.is_dir {
        a.is_dir
    } else {
        proof {
            lemma_chars_lt_trichotomy(a.path@, b.path@);
        }
        let lt = str_lt(b.path.as_str(), a.path.as_str());
        if lt {
            false
        } else {
            proof {
                if a.path@ != b.path@ {
                    assert(chars_lt(a.path@, b.path@));
                }
            }
            true
        }
    }
}

/// Whether a sequence of entries is in the final listing order.
pub open spec fn entries_ordered(s: Seq<Entry>) -> bool {
    forall|i: int, j: int| 0 <= i < j < s.len() ==> entry_le(#[trigger] s[i], #[trigger] s[j])
}

/// Sorts entries into the final listing order: directories before files,
/// each kind ascending by path. The result holds exactly the given entries.
pub fn sort_entries(v: Vec<Entry>) -> (r: Vec<Entry>)
    ensures
        entries_ordered(r@),
        r@.to_multiset() == v@.to_multiset(),
        forall|i: int| 0 <= i < r@.len() ==> v@.contains(#[trigger] r@[i]),
{
    broadcast use vstd::multiset::group_multiset_axioms;
    broadcast use vstd::multiset::lemma_multiset_empty_len;
    broadcast use vstd::seq_lib::to_multiset_len;

    let ghost orig = v@;
    let mut rest = v;
    let mut out: Vec<Entry> = Vec::new();
    proof {
        assert(out@.to_multiset().len() == out@.len());
        assert(out@.to_multiset() =~= Multiset::<Entry>::empty());
        assert(out@.to_multiset().add(rest@.to_multiset()) =~= orig.to_multiset());
    }
    while rest.len() > 0
        invariant
            entries_ordered(out@),
            out@.to_multiset().add(rest@.to_multiset()) == orig.to_multiset(),
        decreases rest.len(),
    {
        let ghost rest0 = rest@;
        let x = rest.pop().unwrap();
        proof {
            assert(rest0 =~= rest@.push(x));
            to_multiset_build(rest@, x);
        }
        let mut j: usize = 0;
        while j < out.len() && entry_le_exec(&out[j], &x)
            invariant
                j <= out@.len(),
                forall|k: int| 0 <= k < j ==> entry_le(#[trigger] out@[k], x),
            decreases out@.len() - j,
        {
            j = j + 1;
        }
        proof {
            let o = out@;
            if j < o.len() {
                lemma_entry_le_total(o[j as int], x);
                assert(entry_le(x, o[j as int]));
                assert forall|k: int| j <= k < o.len() implies entry_le(x, #[trigger] o[k]) by {
                    if k > j {
                        lemma_entry_le_trans(x, o[j as int], o[k]);
                    }
                }
            }
            to_multiset_insert(o, j as int, x);
        }
        let ghost out0 = out@;
        out.insert(j, x);
        proof {
            assert(entries_ordered(out@)) by {
                assert forall|p: int, q: int|
                    0 <= p < q < out@.len() implies entry_le(#[trigger] out@[p], #[trigger] out@[q]) by {
                    let s = out@;
                    if q < j {
                        assert(s[p] == out0[p] && s[q] == out0[q]);
                    } else if p < j && q == j {
                        assert(s[p] == out0[p] && s[q] == x);
                    } else if p < j && q > j {
                        assert(s[p] == out0[p] && s[q] == out0[q - 1]);
                    } else if p == j {
                        assert(s[p] == x && s[q] == out0[q - 1]);
                    } else {
                        assert(s[p] == out0[p - 1] && s[q] == out0[q - 1]);
                    }
                }
            };
            assert(out@.to_multiset().add(rest@.to_multiset()) =~= orig.to_multiset());
        }
    }
    proof {
        assert(rest@.to_multiset().len() == rest@.len());
        assert(rest@.to_multiset() =~= Multiset::<Entry>::empty());
        assert(out@.to_multiset() =~= orig.to_multiset());
        assert forall|i: int| 0 <= i < out@.len() implies orig.contains(#[trigger] out@[i]) by {
            to_multiset_contains(out@, out@[i]);
            to_multiset_contains(orig, out@[i]);
        }
    }
    out
}

/// Whether no two entries of `s` share a path.
pub open spec fn paths_distinct(s: Seq<Entry>) -> bool {
    forall|i: int, j: int|
        0 <= i < j < s.len() ==> (#[trigger] s[i]).path@ != (#[trigger] s[j]).path@
}

/// Whether some entry of `v` carries the path `p`.
fn contains_path(v: &Vec<Entry>, p: &String) -> (r: bool)
    ensures
        r == exists|i: int| 0 <= i < v@.len() && (#[trigger] v@[i]).path@ == p@,
{
    let mut i: usize = 0;
    while i < v.len()
        invariant
            i <= v@.len(),
            forall|k: int| 0 <= k < i ==> (#[trigger] v@[k]).path@ != p@,
        decreases v@.len() - i,
    {
        if v[i].path == *p {
            assert(v@[i as int].path@ == p@);
            return true;
        }
        i = i + 1;
    }
    false
}

/// Keeps the first entry of each path, dropping every later repeat; a
/// sequence whose paths were already pairwise distinct comes back unchanged.
pub fn dedup_paths(v: Vec<Entry>) -> (r: Vec<Entry>)
    ensures
        paths_distinct(r@),
        forall|i: int| 0 <= i < r@.len() ==> v@.contains(#[trigger] r@[i]),
        forall|j: int|
            0 <= j < v@.len() ==> exists|i: int|
                0 <= i < r@.len() && (#[trigger] v@[j]).path@ == r@[i].path@,
        paths_distinct(v@) ==> r@ == v@,
{
    let ghost orig = v@;
    let mut rem = v;
    let mut out: Vec<Entry> = Vec::new();
    proof {
        assert(rem@ =~= orig.skip(0));
    }
    while rem.len() > 0
        invariant
            rem@.len() <= orig.len(),
            rem@ == orig.skip(orig.len() - rem@.len()),
            paths_distinct(out@),
            forall|i: int| 0 <= i < out@.len() ==> orig.contains(#[trigger] out@[i]),
            forall|j: int|
                0 <= j < orig.len() - rem@.len() ==> exists|i: int|
                    0 <= i < out@.len() && (#[trigger] orig[j]).path@ == out@[i].path@,
            paths_distinct(orig) ==> out@ == orig.take(orig.len() - rem@.len()),
        decreases rem@.len(),
    {
        let ghost k = orig.len() - rem@.len();
        let ghost rem0 = rem@;
        let ghost out0 = out@;
        let x = rem.remove(0);
        proof {
            rem0.remove_ensures(0);
            assert(x == orig[k as int]);
            assert(rem@ =~= orig.skip(k + 1));
        }
        let dup = contains_path(&out, &x.path);
        if !dup {
            out.push(x);
        }
        proof {
            assert forall|j: int|
                0 <= j < k + 1 implies exists|i: int|
                0 <= i < out@.len() && (#[trigger] orig[j]).path@ == out@[i].path@ by {
                if j < k {
                    let i0 = choose|i: int|
                        0 <= i < out0.len() && (#[trigger] orig[j]).path@ == out0[i].path@;
                    assert(out@[i0].path@ == orig[j].path@);
                } else {
                    if dup {
                        let i0 = choose|i: int|
                            0 <= i < out0.len() && out0[i].path@ == x.path@;
                        assert(out@[i0].path@ == orig[j].path@);
                    } else {
                        assert(out@[out@.len() - 1].path@ == orig[j].path@);
                    }
                }
            }
            if paths_distinct(orig) {
                assert(out0 == orig.take(k));
                assert(!dup) by {
                    if dup {
                        let i0 = choose|i: int|
                            0 <= i < out0.len() && out0[i].path@ == x.path@;
                        assert(orig[i0].path@ == orig[k as int].path@);
                    }
                };
                assert(out@ =~= orig.take(k + 1));
            }
        }
    }
    proof {
        assert(orig.len() - rem@.len() == orig.len());
        if paths_distinct(orig) {
            assert(out@ == orig.take(orig.len() as int));
            assert(orig.take(orig.len() as int) =~= orig);
        }
    }
    out
}

} // verus!

verus! {

/// Whether a page leaves the accumulated count `count` complete: the
/// provider-reported total is reached, or no total was reported.
pub open spec fn spec_page_done(count: int, total: Option<i64>) -> bool {
    match total {
        Some(t) => count >= t,
        None => true,
    }
}

/// One in-progress paginated listing: the normalized directory, the entries
/// accumulated so far, and the page the next request should ask for.
pub struct ListingSession {
    /// The directory being listed, in absolute form.
    pub dir: String,
    /// Entries accumulated over the pages pushed so far, in provider order.
    pub entries: Vec<Entry>,
    /// The page number the next request should carry.
    pub page: u64,
    /// Whether pagination has terminated.
    pub done: bool,
}

impl ListingSession {
    /// The session invariant: the directory is absolute and every
    /// accumulated entry is well formed.
    pub open spec fn wf(self) -> bool {
        &&& self.dir@.len() > 0 && self.dir@[0] == '/'
        &&& forall|i: int| 0 <= i < self.entries@.len() ==> entry_wf(#[trigger] self.entries@[i])
    }

    /// Opens a listing of `dir`: the path is made absolute, nothing is
    /// accumulated yet, and the first request asks for page 1.
    pub fn start(dir: &str) -> (s: Self)
        ensures
            s.dir@ == spec_normalize_path(dir@),
            s.entries@ == Seq::<Entry>::empty(),
            s.page == 1,
            !s.done,
            s.wf(),
    {
        let d = normalize_path(dir);
        let s = ListingSession { dir: d, entries: Vec::new(), page: 1, done: false };
        proof {
            assert(s.entries@ =~= Seq::<Entry>::empty());
        }
        s
    }

    /// Accumulates one decoded page: every raw record becomes one entry, in
    /// provider order, after the entries already accumulated. Pagination
    /// terminates when the accumulated count reaches the reported total, or
    /// after this page when no total was reported; otherwise the session
    /// advances to the next page number.
    pub fn push_page(&mut self, records: Vec<FsRecord>, total: Option<i64>) -> (done: bool)
        requires
            old(self).wf(),
            !old(self).done,
            old(self).page < u64::MAX,
        ensures
            final(self).wf(),
            final(self).dir == old(self).dir,
            final(self).entries@.len() == old(self).entries@.len() + records@.len(),
            final(self).entries@.subrange(0, old(self).entries@.len() as int) == old(
                self,
            ).entries@,
            forall|i: int|
                0 <= i < records@.len() ==> decoded_matches(
                    old(self).dir@,
                    records@[i],
                    final(self).entries@[old(self).entries@.len() + i],
                ),
            done == spec_page_done(
                old(self).entries@.len() + records@.len() as int,
                total,
            ),
            final(self).done == done,
            !done ==> final(self).page == old(self).page + 1,
            done ==> final(self).page == old(self).page,
    {
        let ghost dir_view = self.dir@;
        let ghost n0 = self.entries@.len() as int;
        let ghost recs = records@;
        let mut rem = records;
        proof {
            assert(rem@ =~= recs.skip(0));
            assert(self.entries@.subrange(0, n0) =~= self.entries@);
        }
        while rem.len() > 0
            invariant
                self.dir == old(self).dir,
                self.page == old(self).page,
                self.done == old(self).done,
                self.dir@ == dir_view,
                n0 == old(self).entries@.len(),
                rem@.len() <= recs.len(),
                self.entries@.len() == n0 + recs.len() - rem@.len(),
                rem@ == recs.skip(self.entries@.len() - n0),
                self.entries@.subrange(0, n0) == old(self).entries@,
                forall|i: int|
                    0 <= i < self.entries@.len() - n0 ==> decoded_matches(
                        dir_view,
                        recs[i],
                        self.entries@[n0 + i],
                    ),
                forall|i: int|
                    0 <= i < self.entries@.len() ==> entry_wf(#[trigger] self.entries@[i]),
            decreases rem@.len(),
        {
            let ghost p = self.entries@.len() - n0;
            let ghost rem0 = rem@;
            let rec = rem.remove(0);
            proof {
                rem0.remove_ensures(0);
                assert(rec == recs[p]);
                assert(rem@ =~= recs.skip(p + 1));
            }
            let e = decode_entry(self.dir.as_str(), rec);
            let ghost entries0 = self.entries@;
            self.entries.push(e);
            proof {
                assert(self.entries@.subrange(0, n0) =~= entries0.subrange(0, n0));
            }
        }
        proof {
            assert(rem@ =~= recs.skip(recs.len() as int));
            assert(self.entries@.len() == n0 + recs.len());
        }
        let count = self.entries.len();
        let done = match total {
            Some(t) => {
                if t <= 0 {
                    true
                } else {
                    count as u64 >= t as u64
                }
            },
            None => true,
        };
        if done {
            self.done = true;
        } else {
            self.page = self.page + 1;
        }
        done
    }

    /// Completes the listing: the first accumulated entry of each path, in
    /// the final listing order — every directory before every file, each
    /// group strictly ascending by path, and no path twice. When the
    /// provider repeated no path, this is exactly the accumulated entries,
    /// reordered.
    #[verifier::rlimit(60)]
    pub fn finish(self) -> (r: Vec<Entry>)
        requires
            self.wf(),
        ensures
            entries_ordered(r@),
            paths_distinct(r@),
            forall|i: int, j: int|
                0 <= i < j < r@.len() && (#[trigger] r@[j]).is_dir ==> (#[trigger] r@[i]).is_dir,
            forall|i: int, j: int|
                0 <= i < j < r@.len() && (#[trigger] r@[i]).is_dir == (#[trigger] r@[j]).is_dir
                    ==> chars_lt(r@[i].path@, r@[j].path@),
            forall|i: int| 0 <= i < r@.len() ==> self.entries@.contains(#[trigger] r@[i]),
            forall|j: int|
                0 <= j < self.entries@.len() ==> exists|i: int|
                    0 <= i < r@.len() && (#[trigger] self.entries@[j]).path@ == r@[i].path@,
            paths_distinct(self.entries@) ==> r@.to_multiset() == self.entries@.to_multiset(),
            forall|i: int| 0 <= i < r@.len() ==> entry_wf(#[trigger] r@[i]),
    {
        let ghost entries0 = self.entries@;
        let d = dedup_paths(self.entries);
        let ghost dv = d@;
        let r = sort_entries(d);
        proof {
            lemma_listing_order(dv, r@);
            assert forall|i: int|
                0 <= i < r@.len() implies entries0.contains(#[trigger] r@[i]) by {
                let j = choose|j: int| 0 <= j < dv.len() && dv[j] == r@[i];
                assert(entries0.contains(dv[j]));
            }
            assert forall|j: int|
                0 <= j < entries0.len() implies exists|i: int|
                0 <= i < r@.len() && (#[trigger] entries0[j]).path@ == r@[i].path@ by {
                let i0 = choose|i: int|
                    0 <= i < dv.len() && (#[trigger] entries0[j]).path@ == dv[i].path@;
                to_multiset_contains(dv, dv[i0]);
                to_multiset_contains(r@, dv[i0]);
                assert(r@.contains(dv[i0]));
                let i1 = choose|i: int| 0 <= i < r@.len() && r@[i] == dv[i0];
                assert(entries0[j].path@ == r@[i1].path@);
            }
            assert forall|i: int| 0 <= i < r@.len() implies entry_wf(#[trigger] r@[i]) by {
                let j = choose|j: int| 0 <= j < entries0.len() && entries0[j] == r@[i];
                assert(entry_wf(entries0[j]));
            }
        }
        r
    }
}

} // verus!

verus! {

proof fn lemma_repeated_element_counts_twice(s: Seq<Entry>, i: int, j: int)
    requires
        0 <= i < j < s.len(),
        s[i] == s[j],
    ensures
        s.to_multiset().count(s[i]) >= 2,
{
    broadcast use vstd::multiset::group_multiset_axioms;

    to_multiset_remove(s, i);
    let r = s.remove(i);
    s.remove_ensures(i);
    assert(r[j - 1] == s[j]);
    assert(r.contains(s[j]));
    to_multiset_contains(r, s[j]);
    assert(s.to_multiset().remove(s[i]).count(s[i]) > 0);
}

proof fn lemma_count_two_gives_two_indices(s: Seq<Entry>, x: Entry)
    requires
        s.to_multiset().count(x) >= 2,
    ensures
        exists|i: int, j: int| 0 <= i < j < s.len() && s[i] == x && s[j] == x,
{
    broadcast use vstd::multiset::group_multiset_axioms;

    to_multiset_contains(s, x);
    assert(s.contains(x));
    let i = choose|i: int| 0 <= i < s.len() && s[i] == x;
    to_multiset_remove(s, i);
    let r = s.remove(i);
    s.remove_ensures(i);
    assert(r.to_multiset().count(x) >= 1);
    to_multiset_contains(r, x);
    assert(r.contains(x));
    let k = choose|k: int| 0 <= k < r.len() && r[k] == x;
    if k < i {
        assert(s[k] == x);
        assert(0 <= k < i < s.len() && s[k] == x && s[i] == x);
    } else {
        assert(s[k + 1] == x);
        assert(0 <= i < k + 1 < s.len() && s[i] == x && s[k + 1] == x);
    }
}

/// Law: any reordering of a listing into the final order (what `sort_entries`
/// returns) puts every directory before every file, orders each group
/// strictly ascending by path, and, when the incoming entries carry pairwise
/// distinct paths, contains no duplicate path.
pub proof fn lemma_listing_order(input: Seq<Entry>, output: Seq<Entry>)
    requires
        entries_ordered(output),
        output.to_multiset() == input.to_multiset(),
        paths_distinct(input),
    ensures
        forall|i: int, j: int|
            0 <= i < j < output.len() && (#[trigger] output[j]).is_dir ==> (
            #[trigger] output[i]).is_dir,
        forall|i: int, j: int|
            0 <= i < j < output.len() && (#[trigger] output[i]).is_dir == (
            #[trigger] output[j]).is_dir ==> chars_lt(output[i].path@, output[j].path@),
        paths_distinct(output),
{
    broadcast use vstd::multiset::group_multiset_axioms;

    assert forall|i: int, j: int|
        0 <= i < j < output.len() implies (#[trigger] output[i]).path@ != (
    #[trigger] output[j]).path@ by {
        if output[i].path@ == output[j].path@ {
            if output[i] == output[j] {
                lemma_repeated_element_counts_twice(output, i, j);
                lemma_count_two_gives_two_indices(input, output[i]);
                let (a, b) = choose|a: int, b: int|
                    0 <= a < b < input.len() && input[a] == output[i] && input[b] == output[i];
                assert(input[a].path@ != input[b].path@);
            } else {
                to_multiset_contains(output, output[i]);
                to_multiset_contains(output, output[j]);
                to_multiset_contains(input, output[i]);
                to_multiset_contains(input, output[j]);
                let a = choose|a: int| 0 <= a < input.len() && input[a] == output[i];
                let b = choose|b: int| 0 <= b < input.len() && input[b] == output[j];
                assert(a != b);
                if a < b {
                    assert(input[a].path@ != input[b].path@);
                } else {
                    assert(input[b].path@ != input[a].path@);
                }
            }
        }
    }
    assert forall|i: int, j: int|
        0 <= i < j < output.len() && (#[trigger] output[j]).is_dir implies (
    #[trigger] output[i]).is_dir by {
        assert(entry_le(output[i], output[j]));
    }
    assert forall|i: int, j: int|
        0 <= i < j < output.len() && (#[trigger] output[i]).is_dir == (
    #[trigger] output[j]).is_dir implies chars_lt(output[i].path@, output[j].path@) by {
        assert(entry_le(output[i], output[j]));
        assert(output[i].path@ != output[j].path@);
    }
}

} // verus!
