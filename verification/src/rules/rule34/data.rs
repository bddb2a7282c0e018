//! The decoded result records of one query, with their compact projections
//! and the random-sampling helpers over them.

use crate::random::{fresh_rng, picks_from, rand_below, sample_pool, sample_strs};
use crate::text::{detail_chars, render_detail, split_spaces, split_spaces_spec};
use vstd::prelude::*;
use vstd::string::*;

verus! {

broadcast use vstd::seq_lib::group_to_multiset_ensures, vstd::multiset::group_multiset_axioms;

/// List of [`Post`] records, in the order the API returned them.
#[derive(Debug, Default, PartialEq)]
pub struct Posts(pub Vec<Post>);

/// One search result: an image resource with several URL variants and its
/// metadata, decoded from the response and immutable afterwards.
#[derive(Debug, Default, PartialEq)]
pub struct Post {
    /// picture in miniature
    pub preview_url: String,
    /// picture resized by default
    pub sample_url: String,
    /// raw picture
    pub file_url: String,
    /// hash of the picture
    pub hash: String,
    /// width of the raw picture
    pub width: i64,
    /// height of the raw picture
    pub height: i64,
    /// unique id
    pub id: i64,
    /// file name
    pub image: String,
    /// author
    pub owner: String,
    /// linked id, zero when absent
    pub parent_id: i64,
    /// whether a resized variant exists
    pub sample: bool,
    /// height of the resized variant
    pub sample_height: i64,
    /// width of the resized variant
    pub sample_width: i64,
    /// score given by visitors
    pub score: i64,
    /// tags as one space-delimited string
    pub tags: String,
    /// whether translation notes exist
    pub has_notes: bool,
}

impl Clone for Post {
    /// An exact copy.
    fn clone(&self) -> (r: Self)
        ensures
            r == *self,
    {
        Post {
            preview_url: self.preview_url.clone(),
            sample_url: self.sample_url.clone(),
            file_url: self.file_url.clone(),
            hash: self.hash.clone(),
            width: self.width,
            height: self.height,
            id: self.id,
            image: self.image.clone(),
            owner: self.owner.clone(),
            parent_id: self.parent_id,
            sample: self.sample,
            sample_height: self.sample_height,
            sample_width: self.sample_width,
            score: self.score,
            tags: self.tags.clone(),
            has_notes: self.has_notes,
        }
    }
}

impl Clone for Posts {
    /// A copy holding the same records in the same order.
    fn clone(&self) -> (r: Self)
        ensures
            r@ == self@,
    {
        Posts(clone_posts(&self.0))
    }
}

/// Copies a record list element by element.
#[verifier::loop_isolation(false)]
fn clone_posts(v: &Vec<Post>) -> (r: Vec<Post>)
    ensures
        r@ == v@,
{
    let mut out: Vec<Post> = Vec::new();
    let mut i: usize = 0;
    while i < v.len()
        invariant
            0 <= i <= v.len(),
            out@ == v@.take(i as int),
        decreases v.len() - i,
    {
        out.push(v[i].clone());
        proof {
            assert(out@ =~= v@.take(i + 1));
        }
        i = i + 1;
    }
    proof {
        assert(v@.take(v.len() as int) =~= v@);
    }
    out
}

/// The compact projection of one [`Post`]: its id, the three URL variants,
/// the dimensions and the tags split into single tokens.
#[derive(Debug)]
pub struct MiniPost<'a> {
    /// unique id
    pub id: u64,
    /// picture in miniature
    pub preview_url: &'a str,
    /// picture resized by default
    pub sample_url: &'a str,
    /// raw picture
    pub file_url: &'a str,
    /// width of the raw picture
    pub width: u64,
    /// height of the raw picture
    pub height: u64,
    /// height of the resized variant
    pub sample_height: u64,
    /// width of the resized variant
    pub sample_width: u64,
    /// the tag tokens, split on single spaces
    pub tags: Vec<&'a str>,
}

/// What one compact projection holds: its view, with every borrowed string
/// read off as its character sequence.
#[verifier::ext_equal]
pub struct MiniView {
    /// unique id
    pub id: u64,
    /// picture in miniature
    pub preview_url: Seq<char>,
    /// picture resized by default
    pub sample_url: Seq<char>,
    /// raw picture
    pub file_url: Seq<char>,
    /// width of the raw picture
    pub width: u64,
    /// height of the raw picture
    pub height: u64,
    /// height of the resized variant
    pub sample_height: u64,
    /// width of the resized variant
    pub sample_width: u64,
    /// the tag tokens
    pub tags: Seq<Seq<char>>,
}

impl<'a> View for MiniPost<'a> {
    type V = MiniView;

    open spec fn view(&self) -> MiniView {
        MiniView {
            id: self.id,
            preview_url: self.preview_url@,
            sample_url: self.sample_url@,
            file_url: self.file_url@,
            width: self.width,
            height: self.height,
            sample_height: self.sample_height,
            sample_width: self.sample_width,
            tags: self.tags.deep_view(),
        }
    }
}

/// The views of the projections, in order.
pub open spec fn mini_views(s: Seq<MiniPost>) -> Seq<MiniView> {
    s.map_values(|m: MiniPost| m@)
}

impl<'a> Clone for MiniPost<'a> {
    /// A copy with the same view.
    fn clone(&self) -> (r: Self)
        ensures
            r@ == self@,
    {
        let mut tags: Vec<&str> = Vec::new();
        let mut i: usize = 0;
        #[verifier::loop_isolation(false)]
        while i < self.tags.len()
            invariant
                0 <= i <= self.tags.len(),
                tags@ == self.tags@.take(i as int),
            decreases self.tags.len() - i,
        {
            tags.push(self.tags[i]);
            proof {
                assert(tags@ =~= self.tags@.take(i + 1));
            }
            i = i + 1;
        }
        proof {
            assert(self.tags@.take(self.tags.len() as int) =~= self.tags@);
            assert(tags.deep_view() =~= self.tags.deep_view());
        }
        let r = MiniPost {
            id: self.id,
            preview_url: self.preview_url,
            sample_url: self.sample_url,
            file_url: self.file_url,
            width: self.width,
            height: self.height,
            sample_height: self.sample_height,
            sample_width: self.sample_width,
            tags,
        };
        proof {
            assert(r@ =~= self@);
        }
        r
    }
}

/// The compact view one record projects to: the integer fields carried
/// over (truncated to unsigned), the URL texts, and the tags split on
/// single spaces.
pub open spec fn mini_view_of(p: Post) -> MiniView {
    MiniView {
        id: p.id as u64,
        preview_url: p.preview_url@,
        sample_url: p.sample_url@,
        file_url: p.file_url@,
        width: p.width as u64,
        height: p.height as u64,
        sample_height: p.sample_height as u64,
        sample_width: p.sample_width as u64,
        tags: split_spaces_spec(p.tags@),
    }
}

/// `m` is the compact projection of `p`: the integer fields carried over
/// (truncated to unsigned), the URL fields borrowed, and the tags split on
/// single spaces.
pub open spec fn mini_matches(m: MiniPost, p: Post) -> bool {
    &&& m.id == p.id as u64
    &&& m.preview_url@ == p.preview_url@
    &&& m.sample_url@ == p.sample_url@
    &&& m.file_url@ == p.file_url@
    &&& m.width == p.width as u64
    &&& m.height == p.height as u64
    &&& m.sample_height == p.sample_height as u64
    &&& m.sample_width == p.sample_width as u64
    &&& m.tags.deep_view() == split_spaces_spec(p.tags@)
}

impl<'a> MiniPost<'a> {
    /// The compact projection of one record.
    pub fn from_post(val: &'a Post) -> (r: Self)
        ensures
            mini_matches(r, *val),
    {
        MiniPost {
            id: #[verifier::truncate] (val.id as u64),
            preview_url: val.preview_url.as_str(),
            sample_url: val.sample_url.as_str(),
            file_url: val.file_url.as_str(),
            width: #[verifier::truncate] (val.width as u64),
            height: #[verifier::truncate] (val.height as u64),
            sample_height: #[verifier::truncate] (val.sample_height as u64),
            sample_width: #[verifier::truncate] (val.sample_width as u64),
            tags: split_spaces(val.tags.as_str()),
        }
    }
}

/// List of [`MiniPost`] projections, in the same order as their source.
#[derive(Debug, Default)]
pub struct MiniPosts<'a>(pub Vec<MiniPost<'a>>);

impl<'a> View for MiniPosts<'a> {
    type V = Seq<MiniPost<'a>>;

    open spec fn view(&self) -> Seq<MiniPost<'a>> {
        self.0@
    }
}

impl View for Posts {
    type V = Seq<Post>;

    open spec fn view(&self) -> Seq<Post> {
        self.0@
    }
}

impl<'a> MiniPosts<'a> {
    /// The compact projection of every record of `value`, in the same
    /// order.
    #[verifier::loop_isolation(false)]
    pub fn from_posts(value: &'a Posts) -> (r: Self)
        ensures
            r@.len() == value@.len(),
            forall|i: int| 0 <= i < r@.len() ==> mini_matches(#[trigger] r@[i], value@[i]),
    {
        let mut out: Vec<MiniPost> = Vec::new();
        let mut i: usize = 0;
        while i < value.0.len()
            invariant
                0 <= i <= value.0.len(),
                out@.len() == i,
                forall|k: int| 0 <= k < i ==> mini_matches(#[trigger] out@[k], value@[k]),
            decreases value.0.len() - i,
        {
            out.push(MiniPost::from_post(&value.0[i]));
            i = i + 1;
        }
        MiniPosts(out)
    }

    /// How many records the collection holds.
    pub fn len(&self) -> (r: usize)
        ensures
            r == self@.len(),
    {
        self.0.len()
    }

    /// Whether the collection holds no record.
    pub fn is_empty(&self) -> (r: bool)
        ensures
            r == (self@.len() == 0),
    {
        self.0.is_empty()
    }

    /// The `preview_url` of every record, in order.
    #[verifier::loop_isolation(false)]
    pub fn get_p_urls(&self) -> (r: Vec<&str>)
        ensures
            r@.len() == self@.len(),
            r.deep_view() == self.spec_p_urls(),
    {
        let mut urls: Vec<&str> = Vec::new();
        let mut i: usize = 0;
        while i < self.0.len()
            invariant
                0 <= i <= self.0.len(),
                urls@.len() == i,
                urls.deep_view() == self.spec_p_urls().take(i as int),
            decreases self.0.len() - i,
        {
            urls.push(self.0[i].preview_url);
            proof {
                assert(urls.deep_view() =~= self.spec_p_urls().take(i + 1));
            }
            i = i + 1;
        }
        proof {
            assert(self.spec_p_urls().take(self.0.len() as int) =~= self.spec_p_urls());
        }
        urls
    }

    /// The `sample_url` of every record, in order.
    #[verifier::loop_isolation(false)]
    pub fn get_s_urls(&self) -> (r: Vec<&str>)
        ensures
            r@.len() == self@.len(),
            r.deep_view() == self.spec_s_urls(),
    {
        let mut urls: Vec<&str> = Vec::new();
        let mut i: usize = 0;
        while i < self.0.len()
            invariant
                0 <= i <= self.0.len(),
                urls@.len() == i,
                urls.deep_view() == self.spec_s_urls().take(i as int),
            decreases self.0.len() - i,
        {
            urls.push(self.0[i].sample_url);
            proof {
                assert(urls.deep_view() =~= self.spec_s_urls().take(i + 1));
            }
            i = i + 1;
        }
        proof {
            assert(self.spec_s_urls().take(self.0.len() as int) =~= self.spec_s_urls());
        }
        urls
    }

    /// The `file_url` of every record, in order.
    #[verifier::loop_isolation(false)]
    pub fn get_f_urls(&self) -> (r: Vec<&str>)
        ensures
            r@.len() == self@.len(),
            r.deep_view() == self.spec_f_urls(),
    {
        let mut urls: Vec<&str> = Vec::new();
        let mut i: usize = 0;
        while i < self.0.len()
            invariant
                0 <= i <= self.0.len(),
                urls@.len() == i,
                urls.deep_view() == self.spec_f_urls().take(i as int),
            decreases self.0.len() - i,
        {
            urls.push(self.0[i].file_url);
            proof {
                assert(urls.deep_view() =~= self.spec_f_urls().take(i + 1));
            }
            i = i + 1;
        }
        proof {
            assert(self.spec_f_urls().take(self.0.len() as int) =~= self.spec_f_urls());
        }
        urls
    }

    /// The `preview_url` of every record, in order.
    pub open spec fn spec_p_urls(&self) -> Seq<Seq<char>> {
        self@.map_values(|m: MiniPost| m.preview_url@)
    }

    /// The `sample_url` of every record, in order.
    pub open spec fn spec_s_urls(&self) -> Seq<Seq<char>> {
        self@.map_values(|m: MiniPost| m.sample_url@)
    }

    /// The `file_url` of every record, in order.
    pub open spec fn spec_f_urls(&self) -> Seq<Seq<char>> {
        self@.map_values(|m: MiniPost| m.file_url@)
    }

    /// The first record's `preview_url`, if any record is there.
    pub fn get_p_url(&self) -> (r: Option<&str>)
        ensures
            match r {
                Some(u) => self@.len() > 0 && u@ == self@[0].preview_url@,
                None => self@.len() == 0,
            },
    {
        if self.0.len() > 0 {
            Some(self.0[0].preview_url)
        } else {
            None
        }
    }

    /// The first record's `sample_url`, if any record is there.
    pub fn get_s_url(&self) -> (r: Option<&str>)
        ensures
            match r {
                Some(u) => self@.len() > 0 && u@ == self@[0].sample_url@,
                None => self@.len() == 0,
            },
    {
        if self.0.len() > 0 {
            Some(self.0[0].sample_url)
        } else {
            None
        }
    }

    /// The first record's `file_url`, if any record is there.
    pub fn get_f_url(&self) -> (r: Option<&str>)
        ensures
            match r {
                Some(u) => self@.len() > 0 && u@ == self@[0].file_url@,
                None => self@.len() == 0,
            },
    {
        if self.0.len() > 0 {
            Some(self.0[0].file_url)
        } else {
            None
        }
    }

    /// The records themselves.
    pub fn data(&self) -> (r: &Vec<MiniPost<'a>>)
        ensures
            r@ == self@,
    {
        &self.0
    }

    /// `size` file URLs drawn at pairwise distinct random positions, in
    /// random order. `size` must not exceed the collection length.
    pub fn get_random_f_urls(&self, size: usize) -> (r: Vec<&str>)
        requires
            size <= self@.len(),
        ensures
            r@.len() == size,
            exists|idx: Seq<int>| picks_from(idx, r.deep_view(), self.spec_f_urls()),
    {
        sample_strs(self.get_f_urls(), size)
    }

    /// `size` preview URLs drawn at pairwise distinct random positions, in
    /// random order. `size` must not exceed the collection length.
    pub fn get_random_p_urls(&self, size: usize) -> (r: Vec<&str>)
        requires
            size <= self@.len(),
        ensures
            r@.len() == size,
            exists|idx: Seq<int>| picks_from(idx, r.deep_view(), self.spec_p_urls()),
    {
        sample_strs(self.get_p_urls(), size)
    }

    /// `size` sample URLs drawn at pairwise distinct random positions, in
    /// random order. `size` must not exceed the collection length.
    pub fn get_random_s_urls(&self, size: usize) -> (r: Vec<&str>)
        requires
            size <= self@.len(),
        ensures
            r@.len() == size,
            exists|idx: Seq<int>| picks_from(idx, r.deep_view(), self.spec_s_urls()),
    {
        sample_strs(self.get_s_urls(), size)
    }

    /// `size` whole records drawn without replacement, in random order.
    /// `size` must not exceed the collection length; drawing everything
    /// permutes the collection.
    pub fn get_random(&self, size: usize) -> (r: MiniPosts<'a>)
        requires
            size <= self@.len(),
        ensures
            r@.len() == size,
            mini_views(r@).to_multiset() <= mini_views(self@).to_multiset(),
            size == self@.len() ==> mini_views(r@).to_multiset() == mini_views(
                self@,
            ).to_multiset(),
    {
        let pool = clone_minis(&self.0);
        MiniPosts(sample_minis(pool, size))
    }

    /// A full random permutation: the same records, each exactly once, in
    /// random order.
    pub fn shuffle(&self) -> (r: MiniPosts<'a>)
        ensures
            r@.len() == self@.len(),
            mini_views(r@).to_multiset() == mini_views(self@).to_multiset(),
    {
        let pool = clone_minis(&self.0);
        MiniPosts(sample_minis(pool, self.0.len()))
    }

    /// One descriptive line per record, in order: its id, its quoted tag
    /// tokens and its raw picture URL.
    #[verifier::loop_isolation(false)]
    pub fn make_detail_list(&self) -> (r: Vec<String>)
        ensures
            r@.len() == self@.len(),
            forall|i: int|
                0 <= i < r@.len() ==> #[trigger] r@[i]@ == detail_chars(
                    self@[i].id,
                    self@[i].tags.deep_view(),
                    self@[i].file_url@,
                ),
    {
        let mut out: Vec<String> = Vec::new();
        let mut i: usize = 0;
        while i < self.0.len()
            invariant
                0 <= i <= self.0.len(),
                out@.len() == i,
                forall|k: int|
                    0 <= k < i ==> #[trigger] out@[k]@ == detail_chars(
                        self@[k].id,
                        self@[k].tags.deep_view(),
                        self@[k].file_url@,
                    ),
            decreases self.0.len() - i,
        {
            let m = &self.0[i];
            out.push(render_detail(m.id, &m.tags, m.file_url));
            i = i + 1;
        }
        out
    }
}

/// Copies a projection list element by element, keeping every view.
#[verifier::loop_isolation(false)]
fn clone_minis<'a>(v: &Vec<MiniPost<'a>>) -> (r: Vec<MiniPost<'a>>)
    ensures
        r@.len() == v@.len(),
        mini_views(r@) == mini_views(v@),
{
    let mut out: Vec<MiniPost> = Vec::new();
    let mut i: usize = 0;
    while i < v.len()
        invariant
            0 <= i <= v.len(),
            out@.len() == i,
            mini_views(out@) == mini_views(v@).take(i as int),
        decreases v.len() - i,
    {
        out.push(v[i].clone());
        proof {
            assert(mini_views(out@) =~= mini_views(v@).take(i + 1));
        }
        i = i + 1;
    }
    proof {
        assert(mini_views(v@).take(v.len() as int) =~= mini_views(v@));
    }
    out
}

/// Draws `k` projections without replacement from `pool`, stated over the
/// projections' views as [`crate::random::sample_pool`] states it over
/// values.
#[verifier::loop_isolation(false)]
fn sample_minis<'a>(pool: Vec<MiniPost<'a>>, k: usize) -> (r: Vec<MiniPost<'a>>)
    requires
        k <= pool@.len(),
    ensures
        r@.len() == k,
        mini_views(r@).to_multiset() <= mini_views(pool@).to_multiset(),
        k == pool@.len() ==> mini_views(r@).to_multiset() == mini_views(pool@).to_multiset(),
{
    let ghost whole = mini_views(pool@).to_multiset();
    let mut rng = fresh_rng();
    let mut pool = pool;
    let mut out: Vec<MiniPost> = Vec::new();
    proof {
        assert(mini_views(out@).to_multiset().len() == 0);
        assert forall|v: MiniView| mini_views(out@).to_multiset().count(v) == 0 by {}
        assert(mini_views(out@).to_multiset().add(mini_views(pool@).to_multiset()) =~= whole);
    }
    let mut i: usize = 0;
    while i < k
        invariant
            0 <= i <= k,
            out@.len() == i,
            out@.len() + pool@.len() == whole.len(),
            mini_views(out@).to_multiset().add(mini_views(pool@).to_multiset()) == whole,
        decreases k - i,
    {
        let j = rand_below(&mut rng, pool.len());
        let ghost prev_out = mini_views(out@);
        let ghost prev_pool = mini_views(pool@);
        let ghost xv = prev_pool[j as int];
        let x = pool.remove(j);
        out.push(x);
        proof {
            assert(mini_views(out@) =~= prev_out.push(xv));
            assert(mini_views(pool@) =~= prev_pool.remove(j as int));
            assert(mini_views(out@).to_multiset().add(mini_views(pool@).to_multiset())
                =~= whole);
        }
        i = i + 1;
    }
    proof {
        assert forall|v: MiniView| mini_views(out@).to_multiset().count(v) <= whole.count(v) by {}
        if k == pool@.len() + out@.len() {
            assert(mini_views(pool@).to_multiset().len() == 0);
            assert(mini_views(out@).to_multiset() =~= whole);
        }
    }
    out
}

impl Posts {
    /// The `preview_url` of every record, in order.
    pub open spec fn spec_p_urls(&self) -> Seq<Seq<char>> {
        self@.map_values(|p: Post| p.preview_url@)
    }

    /// The `sample_url` of every record, in order.
    pub open spec fn spec_s_urls(&self) -> Seq<Seq<char>> {
        self@.map_values(|p: Post| p.sample_url@)
    }

    /// The `file_url` of every record, in order.
    pub open spec fn spec_f_urls(&self) -> Seq<Seq<char>> {
        self@.map_values(|p: Post| p.file_url@)
    }

    /// The `preview_url` of every record, in order.
    #[verifier::loop_isolation(false)]
    pub fn get_p_urls(&self) -> (r: Vec<&str>)
        ensures
            r@.len() == self@.len(),
            r.deep_view() == self.spec_p_urls(),
    {
        let mut urls: Vec<&str> = Vec::new();
        let mut i: usize = 0;
        while i < self.0.len()
            invariant
                0 <= i <= self.0.len(),
                urls@.len() == i,
                urls.deep_view() == self.spec_p_urls().take(i as int),
            decreases self.0.len() - i,
        {
            urls.push(self.0[i].preview_url.as_str());
            proof {
                assert(urls.deep_view() =~= self.spec_p_urls().take(i + 1));
            }
            i = i + 1;
        }
        proof {
            assert(self.spec_p_urls().take(self.0.len() as int) =~= self.spec_p_urls());
        }
        urls
    }

    /// The `sample_url` of every record, in order.
    #[verifier::loop_isolation(false)]
    pub fn get_s_urls(&self) -> (r: Vec<&str>)
        ensures
            r@.len() == self@.len(),
            r.deep_view() == self.spec_s_urls(),
    {
        let mut urls: Vec<&str> = Vec::new();
        let mut i: usize = 0;
        while i < self.0.len()
            invariant
                0 <= i <= self.0.len(),
                urls@.len() == i,
                urls.deep_view() == self.spec_s_urls().take(i as int),
            decreases self.0.len() - i,
        {
            urls.push(self.0[i].sample_url.as_str());
            proof {
                assert(urls.deep_view() =~= self.spec_s_urls().take(i + 1));
            }
            i = i + 1;
        }
        proof {
            assert(self.spec_s_urls().take(self.0.len() as int) =~= self.spec_s_urls());
        }
        urls
    }

    /// The `file_url` of every record, in order.
    #[verifier::loop_isolation(false)]
    pub fn get_f_urls(&self) -> (r: Vec<&str>)
        ensures
            r@.len() == self@.len(),
            r.deep_view() == self.spec_f_urls(),
    {
        let mut urls: Vec<&str> = Vec::new();
        let mut i: usize = 0;
        while i < self.0.len()
            invariant
                0 <= i <= self.0.len(),
                urls@.len() == i,
                urls.deep_view() == self.spec_f_urls().take(i as int),
            decreases self.0.len() - i,
        {
            urls.push(self.0[i].file_url.as_str());
            proof {
                assert(urls.deep_view() =~= self.spec_f_urls().take(i + 1));
            }
            i = i + 1;
        }
        proof {
            assert(self.spec_f_urls().take(self.0.len() as int) =~= self.spec_f_urls());
        }
        urls
    }

    /// The compact projection of every record, in the same order and with
    /// the same length as the collection itself.
    pub fn get_urls_ext(&self) -> (r: MiniPosts<'_>)
        ensures
            r@.len() == self@.len(),
            forall|i: int| 0 <= i < r@.len() ==> mini_matches(#[trigger] r@[i], self@[i]),
    {
        MiniPosts::from_posts(self)
    }

    /// The compact projection of the first record, if any record is there.
    pub fn get_url_ext(&self) -> (r: Option<MiniPost<'_>>)
        ensures
            match r {
                Some(m) => self@.len() > 0 && mini_matches(m, self@[0]),
                None => self@.len() == 0,
            },
    {
        if self.0.len() > 0 {
            Some(MiniPost::from_post(&self.0[0]))
        } else {
            None
        }
    }

    /// The first record's `preview_url`, if any record is there.
    pub fn get_p_url(&self) -> (r: Option<&str>)
        ensures
            match r {
                Some(u) => self@.len() > 0 && u@ == self@[0].preview_url@,
                None => self@.len() == 0,
            },
    {
        if self.0.len() > 0 {
            Some(self.0[0].preview_url.as_str())
        } else {
            None
        }
    }

    /// The first record's `sample_url`, if any record is there.
    pub fn get_s_url(&self) -> (r: Option<&str>)
        ensures
            match r {
                Some(u) => self@.len() > 0 && u@ == self@[0].sample_url@,
                None => self@.len() == 0,
            },
    {
        if self.0.len() > 0 {
            Some(self.0[0].sample_url.as_str())
        } else {
            None
        }
    }

    /// The first record's `file_url`, if any record is there.
    pub fn get_f_url(&self) -> (r: Option<&str>)
        ensures
            match r {
                Some(u) => self@.len() > 0 && u@ == self@[0].file_url@,
                None => self@.len() == 0,
            },
    {
        if self.0.len() > 0 {
            Some(self.0[0].file_url.as_str())
        } else {
            None
        }
    }

    /// The records themselves, borrowed.
    pub fn data_ref(&self) -> (r: &Vec<Post>)
        ensures
            r@ == self@,
    {
        &self.0
    }

    /// The records themselves, moved out.
    pub fn data(self) -> (r: Vec<Post>)
        ensures
            r@ == self@,
    {
        self.0
    }

    /// `size` file URLs drawn at pairwise distinct random positions, in
    /// random order. `size` must not exceed the collection length.
    pub fn get_random_f_urls(&self, size: usize) -> (r: Vec<&str>)
        requires
            size <= self@.len(),
        ensures
            r@.len() == size,
            exists|idx: Seq<int>| picks_from(idx, r.deep_view(), self.spec_f_urls()),
    {
        sample_strs(self.get_f_urls(), size)
    }

    /// `size` preview URLs drawn at pairwise distinct random positions, in
    /// random order. `size` must not exceed the collection length.
    pub fn get_random_p_urls(&self, size: usize) -> (r: Vec<&str>)
        requires
            size <= self@.len(),
        ensures
            r@.len() == size,
            exists|idx: Seq<int>| picks_from(idx, r.deep_view(), self.spec_p_urls()),
    {
        sample_strs(self.get_p_urls(), size)
    }

    /// `size` sample URLs drawn at pairwise distinct random positions, in
    /// random order. `size` must not exceed the collection length.
    pub fn get_random_s_urls(&self, size: usize) -> (r: Vec<&str>)
        requires
            size <= self@.len(),
        ensures
            r@.len() == size,
            exists|idx: Seq<int>| picks_from(idx, r.deep_view(), self.spec_s_urls()),
    {
        sample_strs(self.get_s_urls(), size)
    }

    /// `size` compact projections drawn without replacement, in random
    /// order. `size` must not exceed the collection length; drawing
    /// everything projects and permutes the whole collection.
    pub fn get_random_urls_ext(&self, size: usize) -> (r: MiniPosts<'_>)
        requires
            size <= self@.len(),
        ensures
            r@.len() == size,
            mini_views(r@).to_multiset() <= self@.map_values(|p: Post| mini_view_of(p)).to_multiset(),
            size == self@.len() ==> mini_views(r@).to_multiset() == self@.map_values(
                |p: Post| mini_view_of(p),
            ).to_multiset(),
    {
        let minis = self.get_urls_ext();
        proof {
            assert forall|i: int| 0 <= i < minis@.len() implies mini_views(minis@)[i]
                == self@.map_values(|p: Post| mini_view_of(p))[i] by {
                assert(mini_matches(minis@[i], self@[i]));
                assert(minis@[i]@ =~= mini_view_of(self@[i]));
            }
            assert(mini_views(minis@) =~= self@.map_values(|p: Post| mini_view_of(p)));
        }
        MiniPosts(sample_minis(minis.0, size))
    }

    /// A full random permutation: the same records, each exactly once, in
    /// random order.
    pub fn shuffle(&self) -> (r: Posts)
        ensures
            r@.len() == self@.len(),
            r@.to_multiset() == self@.to_multiset(),
    {
        let pool = clone_posts(&self.0);
        let mut rng = fresh_rng();
        Posts(sample_pool(pool, self.0.len(), &mut rng))
    }

    /// Whether the collection holds no record.
    pub fn is_empty(&self) -> (r: bool)
        ensures
            r == (self@.len() == 0),
    {
        self.0.is_empty()
    }
}

} // verus!
