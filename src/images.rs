//! The image inventory of a rendered page: which elements become entries,
//! and in which order they are listed.
//!
//! Geometry is held in whole CSS pixels, so the ordering key `size` is exact.
//!
//! Reading policy: an element whose source cannot be read, or that has no
//! source, is skipped; so is one whose geometry cannot be read. An
//! alternative text that cannot be read only leaves that entry without one.
//! No per-element failure aborts the listing.
use vstd::prelude::*;

verus! {

/// An image of the page, as listed to the caller.
#[derive(Debug)]
pub struct Image {
    /// The image's source.
    pub url: String,
    /// Its alternative text, when it has one and it could be read.
    pub alt: Option<String>,
    pub width: u32,
    pub height: u32,
    /// `width * height`: the ordering key of the listing.
    pub size: u64,
}

/// The outcome of reading one attribute of an element.
#[derive(Debug)]
pub enum AttrRead {
    /// The read itself failed.
    Failed,
    /// The element has no such attribute.
    Absent,
    Value(String),
}

/// What was read from one image element of the page.
#[derive(Debug)]
pub struct ElementReading {
    pub src: AttrRead,
    pub alt: AttrRead,
    /// The rendered width, or `None` when the geometry could not be read.
    pub width: Option<u32>,
    /// The rendered height, or `None` when the geometry could not be read.
    pub height: Option<u32>,
}

/// The entry an element contributes: none without a source or without a
/// readable geometry. An unreadable alternative text only drops that text.
pub open spec fn entry_of(r: ElementReading) -> Option<Image> {
    match (r.src, r.width, r.height) {
        (AttrRead::Value(url), Some(w), Some(h)) => Some(
            Image {
                url,
                alt: match r.alt {
                    AttrRead::Value(a) => Some(a),
                    _ => None,
                },
                width: w,
                height: h,
                size: (w * h) as u64,
            },
        ),
        _ => None,
    }
}

/// The entries of the elements, in the order the elements were found.
pub open spec fn entries(rs: Seq<ElementReading>) -> Seq<Image>
    decreases rs.len(),
{
    if rs.len() == 0 {
        Seq::empty()
    } else {
        match entry_of(rs.last()) {
            Some(img) => entries(rs.drop_last()).push(img),
            None => entries(rs.drop_last()),
        }
    }
}

/// Inserts `x` before the first entry that is strictly smaller, so that equal
/// sizes keep their order of arrival.
pub open spec fn insert_by_size(x: Image, s: Seq<Image>) -> Seq<Image>
    decreases s.len(),
{
    if s.len() == 0 {
        seq![x]
    } else if s[0].size < x.size {
        seq![x] + s
    } else {
        seq![s[0]] + insert_by_size(x, s.drop_first())
    }
}

/// The entries ordered by non-increasing size, ties in their original order.
pub open spec fn sorted_by_size(s: Seq<Image>) -> Seq<Image>
    decreases s.len(),
{
    if s.len() == 0 {
        Seq::empty()
    } else {
        insert_by_size(s.last(), sorted_by_size(s.drop_last()))
    }
}

/// No entry is larger than one before it.
pub open spec fn non_increasing(s: Seq<Image>) -> bool {
    forall|i: int, j: int| 0 <= i < j < s.len() ==> s[i].size >= s[j].size
}

/// An entry's size is the product of its dimensions.
pub open spec fn sized(img: Image) -> bool {
    img.size == img.width * img.height
}

/// The listing of a page whose image elements read as `rs`.
pub open spec fn listing(rs: Seq<ElementReading>) -> Seq<Image> {
    sorted_by_size(entries(rs))
}

proof fn lemma_insert_at_first_smaller(x: Image, s: Seq<Image>, j: int)
    requires
        0 <= j <= s.len(),
        forall|k: int| 0 <= k < j ==> s[k].size >= x.size,
        j < s.len() ==> s[j].size < x.size,
    ensures
        insert_by_size(x, s) == s.insert(j, x),
    decreases s.len(),
{
    if s.len() == 0 {
        assert(s.insert(j, x) =~= seq![x]);
    } else if j == 0 {
        assert(s.insert(0, x) =~= seq![x] + s);
    } else {
        let t = s.drop_first();
        assert forall|k: int| 0 <= k < j - 1 implies t[k].size >= x.size by {
            assert(t[k] == s[k + 1]);
        }
        lemma_insert_at_first_smaller(x, t, j - 1);
        assert(s.insert(j, x) =~= seq![s[0]] + t.insert(j - 1, x));
    }
}

proof fn lemma_insert_keeps_order(x: Image, s: Seq<Image>)
    requires
        non_increasing(s),
    ensures
        non_increasing(insert_by_size(x, s)),
        insert_by_size(x, s).to_multiset() == s.to_multiset().insert(x),
    decreases s.len(),
{
    broadcast use vstd::seq_lib::group_to_multiset_ensures;

    if s.len() == 0 {
        assert(seq![x] == Seq::<Image>::empty().push(x));
    } else if s[0].size < x.size {
        assert(seq![x] + s == seq![x].add(s));
        vstd::seq_lib::lemma_multiset_commutative(seq![x], s);
        assert(seq![x] == Seq::<Image>::empty().push(x));
    } else {
        let t = s.drop_first();
        lemma_insert_keeps_order(x, t);
        let r = insert_by_size(x, t);
        assert forall|k: int| 0 <= k < r.len() implies s[0].size >= #[trigger] r[k].size by {
            assert(r.to_multiset().count(r[k]) > 0);
            assert(r.to_multiset().contains(r[k]));
            if r[k] != x {
                assert(t.to_multiset().contains(r[k]));
                assert(t.contains(r[k]));
                let m = choose|m: int| 0 <= m < t.len() && t[m] == r[k];
                assert(t[m] == s[m + 1]);
            }
        }
        vstd::seq_lib::lemma_multiset_commutative(seq![s[0]], r);
        vstd::seq_lib::lemma_multiset_commutative(seq![s[0]], t);
        assert(s == seq![s[0]] + t);
        assert(seq![s[0]] == Seq::<Image>::empty().push(s[0]));
    }
}

/// The listing is ordered by non-increasing size and holds exactly the
/// entries of the page's elements, each once.
pub proof fn lemma_sorted_by_size(s: Seq<Image>)
    ensures
        non_increasing(sorted_by_size(s)),
        sorted_by_size(s).to_multiset() == s.to_multiset(),
    decreases s.len(),
{
    broadcast use vstd::seq_lib::group_to_multiset_ensures;

    if s.len() > 0 {
        lemma_sorted_by_size(s.drop_last());
        lemma_insert_keeps_order(s.last(), sorted_by_size(s.drop_last()));
        assert(s == s.drop_last().push(s.last()));
    }
}

/// Every entry comes from an element with a source, and that source is the
/// entry's `url`.
pub proof fn lemma_entries_have_sources(rs: Seq<ElementReading>)
    ensures
        forall|i: int|
            0 <= i < entries(rs).len() ==> exists|j: int|
                0 <= j < rs.len() && (#[trigger] rs[j]).src == AttrRead::Value(
                    (#[trigger] entries(rs)[i]).url,
                ),
    decreases rs.len(),
{
    if rs.len() > 0 {
        let front = rs.drop_last();
        lemma_entries_have_sources(front);
        assert forall|i: int| 0 <= i < entries(rs).len() implies exists|j: int|
            0 <= j < rs.len() && (#[trigger] rs[j]).src == AttrRead::Value(
                (#[trigger] entries(rs)[i]).url,
            ) by {
            if i < entries(front).len() {
                let j = choose|j: int|
                    0 <= j < front.len() && (#[trigger] front[j]).src == AttrRead::Value(
                        entries(front)[i].url,
                    );
                assert(rs[j] == front[j]);
            } else {
                assert(rs[rs.len() - 1] == rs.last());
            }
        }
    }
}

/// The listing is ordered by non-increasing size, and holds no entry
/// without a source: each entry's `url` is the source of one of the page's
/// image elements.
pub proof fn lemma_listing_sorted_with_sources(rs: Seq<ElementReading>)
    ensures
        non_increasing(listing(rs)),
        forall|i: int|
            0 <= i < listing(rs).len() ==> exists|j: int|
                0 <= j < rs.len() && (#[trigger] rs[j]).src == AttrRead::Value(
                    (#[trigger] listing(rs)[i]).url,
                ),
{
    broadcast use vstd::seq_lib::group_to_multiset_ensures;

    lemma_sorted_by_size(entries(rs));
    lemma_entries_have_sources(rs);
    assert forall|i: int| 0 <= i < listing(rs).len() implies exists|j: int|
        0 <= j < rs.len() && (#[trigger] rs[j]).src == AttrRead::Value(
            (#[trigger] listing(rs)[i]).url,
        ) by {
        let x = listing(rs)[i];
        assert(listing(rs).to_multiset().contains(x));
        assert(entries(rs).to_multiset().contains(x));
        assert(entries(rs).contains(x));
        let k = choose|k: int| 0 <= k < entries(rs).len() && entries(rs)[k] == x;
    }
}

proof fn lemma_entries_sized(rs: Seq<ElementReading>)
    ensures
        forall|i: int| 0 <= i < entries(rs).len() ==> sized(#[trigger] entries(rs)[i]),
    decreases rs.len(),
{
    if rs.len() > 0 {
        lemma_entries_sized(rs.drop_last());
        let front = entries(rs.drop_last());
        if let Some(img) = entry_of(rs.last()) {
            let (w, h) = (img.width, img.height);
            assert(w * h <= 0xffff_fffe_0000_0001) by (nonlinear_arith)
                requires
                    w <= 0xffff_ffff,
                    h <= 0xffff_ffff,
            ;
            assert(sized(img));
            assert(entries(rs) == front.push(img));
            assert forall|i: int| 0 <= i < entries(rs).len() implies sized(
                #[trigger] entries(rs)[i],
            ) by {
                if i < front.len() {
                    assert(entries(rs)[i] == front[i]);
                }
            }
        } else {
            assert(entries(rs) == front);
        }
    }
}

/// Every listed entry's size is the product of its width and height.
pub proof fn lemma_listing_sized(rs: Seq<ElementReading>)
    ensures
        forall|i: int| 0 <= i < listing(rs).len() ==> sized(#[trigger] listing(rs)[i]),
{
    broadcast use vstd::seq_lib::group_to_multiset_ensures;

    lemma_sorted_by_size(entries(rs));
    lemma_entries_sized(rs);
    assert forall|i: int| 0 <= i < listing(rs).len() implies sized(#[trigger] listing(rs)[i]) by {
        let x = listing(rs)[i];
        assert(listing(rs).to_multiset().contains(x));
        assert(entries(rs).to_multiset().contains(x));
        assert(entries(rs).contains(x));
        let k = choose|k: int| 0 <= k < entries(rs).len() && entries(rs)[k] == x;
    }
}

/// An element whose geometry cannot be read is left out, and the elements
/// around it are listed as if it had never been there.
pub proof fn lemma_unreadable_geometry_skipped(
    before: Seq<ElementReading>,
    bad: ElementReading,
    after: Seq<ElementReading>,
)
    requires
        bad.width is None || bad.height is None,
    ensures
        entries(before.push(bad) + after) == entries(before + after),
        listing(before.push(bad) + after) == listing(before + after),
    decreases after.len(),
{
    if after.len() == 0 {
        assert(before.push(bad) + after == before.push(bad));
        assert(before + after == before);
        assert(before.push(bad).drop_last() == before);
    } else {
        let a = after.drop_last();
        lemma_unreadable_geometry_skipped(before, bad, a);
        assert((before.push(bad) + after).drop_last() == before.push(bad) + a);
        assert((before + after).drop_last() == before + a);
        assert((before.push(bad) + after).last() == after.last());
        assert((before + after).last() == after.last());
    }
}

/// The entry that one element contributes.
fn entry(r: &ElementReading) -> (e: Option<Image>)
    ensures
        e == entry_of(*r),
{
    match (&r.src, r.width, r.height) {
        (AttrRead::Value(url), Some(w), Some(h)) => {
            let alt = match &r.alt {
                AttrRead::Value(a) => Some(a.clone()),
                _ => None,
            };
            let (w64, h64) = (w as u64, h as u64);
            assert(w64 * h64 <= 0xffff_fffe_0000_0001) by (nonlinear_arith)
                requires
                    w64 <= 0xffff_ffff,
                    h64 <= 0xffff_ffff,
            ;
            let size: u64 = w64 * h64;
            Some(Image { url: url.clone(), alt, width: w, height: h, size })
        },
        _ => None,
    }
}

/// Places `x` before the first entry of `v` that is strictly smaller.
fn insert_sorted(v: &mut Vec<Image>, x: Image)
    ensures
        final(v)@ == insert_by_size(x, old(v)@),
{
    let mut j: usize = 0;
    while j < v.len() && v[j].size >= x.size
        invariant
            0 <= j <= v.len(),
            forall|k: int| 0 <= k < j ==> v@[k].size >= x.size,
        decreases v.len() - j,
    {
        j = j + 1;
    }
    proof {
        lemma_insert_at_first_smaller(x, v@, j as int);
    }
    v.insert(j, x);
}

/// Lists the images of a page from what was read of its image elements:
/// elements without a source or without readable geometry are left out, the
/// rest are ordered by non-increasing size, ties in the order found.
pub fn collect_images(readings: &Vec<ElementReading>) -> (r: Vec<Image>)
    ensures
        r@ == listing(readings@),
        non_increasing(r@),
        forall|i: int| 0 <= i < r@.len() ==> sized(#[trigger] r@[i]),
{
    let mut out: Vec<Image> = Vec::new();
    let mut i: usize = 0;
    while i < readings.len()
        invariant
            0 <= i <= readings.len(),
            out@ == sorted_by_size(entries(readings@.take(i as int))),
        decreases readings.len() - i,
    {
        let e = entry(&readings[i]);
        proof {
            let t = readings@.take(i as int + 1);
            assert(t.drop_last() == readings@.take(i as int));
            assert(t.last() == readings@[i as int]);
        }
        match e {
            Some(img) => {
                proof {
                    let k = entries(readings@.take(i as int));
                    assert(k.push(img).drop_last() == k);
                }
                insert_sorted(&mut out, img);
            },
            None => {},
        }
        i = i + 1;
    }
    proof {
        assert(readings@.take(readings@.len() as int) == readings@);
        lemma_sorted_by_size(entries(readings@));
        lemma_listing_sized(readings@);
    }
    out
}

} // verus!
