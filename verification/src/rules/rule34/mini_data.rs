//! A slimmer compact projection that keeps the tags as one string and
//! hands out its fields through accessors.

use crate::random::{fresh_rng, picks_from, sample_pool, sample_strs};
use crate::rules::rule34::data::{Post, Posts};
use crate::text::{
    detail_chars_single, render_detail_single, split_spaces, split_spaces_spec,
};
use vstd::prelude::*;
use vstd::string::*;

verus! {

broadcast use vstd::seq_lib::group_to_multiset_ensures, vstd::multiset::group_multiset_axioms;

/// The slim projection of one [`Post`]: its id, the raw picture URL, the
/// raw picture's dimensions and the unsplit tags string.
#[derive(Debug, Clone, Copy)]
pub struct MiniPost<'a> {
    id: u64,
    file_url: &'a str,
    width: u64,
    height: u64,
    tags: &'a str,
}

impl<'a> MiniPost<'a> {
    /// The record's id.
    pub closed spec fn spec_id(&self) -> u64 {
        self.id
    }

    /// The raw picture URL.
    pub closed spec fn spec_file_url(&self) -> Seq<char> {
        self.file_url@
    }

    /// The raw picture's width.
    pub closed spec fn spec_width(&self) -> u64 {
        self.width
    }

    /// The raw picture's height.
    pub closed spec fn spec_height(&self) -> u64 {
        self.height
    }

    /// The tags, still as one space-delimited string.
    pub closed spec fn spec_tags(&self) -> Seq<char> {
        self.tags@
    }

    /// The slim projection of one record: the integer fields carried over
    /// (truncated to unsigned) and the URL and tags borrowed.
    pub fn from_post(val: &'a Post) -> (r: Self)
        ensures
            r.spec_id() == val.id as u64,
            r.spec_file_url() == val.file_url@,
            r.spec_width() == val.width as u64,
            r.spec_height() == val.height as u64,
            r.spec_tags() == val.tags@,
    {
        MiniPost {
            id: #[verifier::truncate] (val.id as u64),
            file_url: val.file_url.as_str(),
            width: #[verifier::truncate] (val.width as u64),
            height: #[verifier::truncate] (val.height as u64),
            tags: val.tags.as_str(),
        }
    }

    /// The record's id.
    pub fn id(&self) -> (r: u64)
        ensures
            r == self.spec_id(),
    {
        self.id
    }

    /// The raw picture URL.
    pub fn file_url(&self) -> (r: &str)
        ensures
            r@ == self.spec_file_url(),
    {
        self.file_url
    }

    /// The raw picture's width.
    pub fn width(&self) -> (r: u64)
        ensures
            r == self.spec_width(),
    {
        self.width
    }

    /// The raw picture's height.
    pub fn height(&self) -> (r: u64)
        ensures
            r == self.spec_height(),
    {
        self.height
    }

    /// The tags, still as one space-delimited string.
    pub fn tags(&self) -> (r: &str)
        ensures
            r@ == self.spec_tags(),
    {
        self.tags
    }

    /// The tags split into their single-space-separated tokens.
    pub fn tags_vec(&self) -> (r: Vec<&str>)
        ensures
            r.deep_view() == split_spaces_spec(self.spec_tags()),
    {
        split_spaces(self.tags)
    }
}

/// List of [`MiniPost`] projections, in the same order as their source.
#[derive(Debug, Default)]
pub struct MiniPosts<'a>(Vec<MiniPost<'a>>);

impl<'a> View for MiniPosts<'a> {
    type V = Seq<MiniPost<'a>>;

    closed spec fn view(&self) -> Seq<MiniPost<'a>> {
        self.0@
    }
}

impl<'a> MiniPosts<'a> {
    /// Wraps an already built list of projections.
    pub fn from_vec(v: Vec<MiniPost<'a>>) -> (r: Self)
        ensures
            r@ == v@,
    {
        MiniPosts(v)
    }

    /// The slim projection of every record of `value`, in the same order.
    #[verifier::loop_isolation(false)]
    pub fn from_posts(value: &'a Posts) -> (r: Self)
        ensures
            r@.len() == value@.len(),
            forall|i: int|
                0 <= i < r@.len() ==> {
                    &&& (#[trigger] r@[i]).spec_id() == value@[i].id as u64
                    &&& r@[i].spec_file_url() == value@[i].file_url@
                    &&& r@[i].spec_width() == value@[i].width as u64
                    &&& r@[i].spec_height() == value@[i].height as u64
                    &&& r@[i].spec_tags() == value@[i].tags@
                },
    {
        let mut out: Vec<MiniPost> = Vec::new();
        let mut i: usize = 0;
        while i < value.data_ref().len()
            invariant
                0 <= i <= value@.len(),
                out@.len() == i,
                forall|k: int|
                    0 <= k < i ==> {
                        &&& (#[trigger] out@[k]).spec_id() == value@[k].id as u64
                        &&& out@[k].spec_file_url() == value@[k].file_url@
                        &&& out@[k].spec_width() == value@[k].width as u64
                        &&& out@[k].spec_height() == value@[k].height as u64
                        &&& out@[k].spec_tags() == value@[k].tags@
                    },
            decreases value@.len() - i,
        {
            out.push(MiniPost::from_post(&value.data_ref()[i]));
            i = i + 1;
        }
        MiniPosts(out)
    }

    /// How many records the collection holds.
    pub fn len(&self) -> (r: usize)
        ensures
            r == self@.len(),
    {
        self.0.len()
    }

    /// Whether the collection holds no record.
    pub fn is_empty(&self) -> (r: bool)
        ensures
            r == (self@.len() == 0),
    {
        self.0.is_empty()
    }

    /// The raw picture URL of every record, in order.
    pub open spec fn spec_urls(&self) -> Seq<Seq<char>> {
        self@.map_values(|m: MiniPost| m.spec_file_url())
    }

    /// The raw picture URL of every record, in order.
    #[verifier::loop_isolation(false)]
    pub fn get_urls(&self) -> (r: Vec<&str>)
        ensures
            r@.len() == self@.len(),
            r.deep_view() == self.spec_urls(),
    {
        let mut urls: Vec<&str> = Vec::new();
        let mut i: usize = 0;
        while i < self.0.len()
            invariant
                0 <= i <= self.0.len(),
                urls@.len() == i,
                urls.deep_view() == self.spec_urls().take(i as int),
            decreases self.0.len() - i,
        {
            urls.push(self.0[i].file_url());
            proof {
                assert(urls.deep_view() =~= self.spec_urls().take(i + 1));
            }
            i = i + 1;
        }
        proof {
            assert(self.spec_urls().take(self.0.len() as int) =~= self.spec_urls());
        }
        urls
    }

    /// The first record's raw picture URL, if any record is there.
    pub fn get_url(&self) -> (r: Option<&str>)
        ensures
            match r {
                Some(u) => self@.len() > 0 && u@ == self@[0].spec_file_url(),
                None => self@.len() == 0,
            },
    {
        if self.0.len() > 0 {
            Some(self.0[0].file_url())
        } else {
            None
        }
    }

    /// `size` raw picture URLs drawn at pairwise distinct random
    /// positions, in random order. `size` must not exceed the collection
    /// length.
    pub fn get_random_urls(&self, size: usize) -> (r: Vec<&str>)
        requires
            size <= self@.len(),
        ensures
            r@.len() == size,
            exists|idx: Seq<int>| picks_from(idx, r.deep_view(), self.spec_urls()),
    {
        sample_strs(self.get_urls(), size)
    }

    /// `size` whole records drawn without replacement, in random order.
    /// `size` must not exceed the collection length; drawing everything
    /// permutes the collection.
    pub fn get_random(&self, size: usize) -> (r: MiniPosts<'a>)
        requires
            size <= self@.len(),
        ensures
            r@.len() == size,
            r@.to_multiset() <= self@.to_multiset(),
            size == self@.len() ==> r@.to_multiset() == self@.to_multiset(),
    {
        let pool = copy_minis(&self.0);
        let mut rng = fresh_rng();
        MiniPosts(sample_pool(pool, size, &mut rng))
    }

    /// A full random permutation: the same records, each exactly once, in
    /// random order.
    pub fn shuffle(&self) -> (r: MiniPosts<'a>)
        ensures
            r@.len() == self@.len(),
            r@.to_multiset() == self@.to_multiset(),
    {
        let pool = copy_minis(&self.0);
        let mut rng = fresh_rng();
        MiniPosts(sample_pool(pool, self.0.len(), &mut rng))
    }

    /// One descriptive line per record, in order: its id, its quoted tags
    /// string and its raw picture URL.
    #[verifier::loop_isolation(false)]
    pub fn make_detail_list(&self) -> (r: Vec<String>)
        ensures
            r@.len() == self@.len(),
            forall|i: int|
                0 <= i < r@.len() ==> #[trigger] r@[i]@ == detail_chars_single(
                    self@[i].spec_id(),
                    self@[i].spec_tags(),
                    self@[i].spec_file_url(),
                ),
    {
        let mut out: Vec<String> = Vec::new();
        let mut i: usize = 0;
        while i < self.0.len()
            invariant
                0 <= i <= self.0.len(),
                out@.len() == i,
                forall|k: int|
                    0 <= k < i ==> #[trigger] out@[k]@ == detail_chars_single(
                        self@[k].spec_id(),
                        self@[k].spec_tags(),
                        self@[k].spec_file_url(),
                    ),
            decreases self.0.len() - i,
        {
            let m = &self.0[i];
            out.push(render_detail_single(m.id(), m.tags(), m.file_url()));
            i = i + 1;
        }
        out
    }

    /// The records themselves, borrowed.
    pub fn data(&self) -> (r: &Vec<MiniPost<'a>>)
        ensures
            r@ == self@,
    {
        &self.0
    }
}

/// Copies a projection list element by element.
#[verifier::loop_isolation(false)]
fn copy_minis<'a>(v: &Vec<MiniPost<'a>>) -> (r: Vec<MiniPost<'a>>)
    ensures
        r@ == v@,
{
    let mut out: Vec<MiniPost> = Vec::new();
    let mut i: usize = 0;
    while i < v.len()
        invariant
            0 <= i <= v.len(),
            out@ == v@.take(i as int),
        decreases v.len() - i,
    {
        out.push(v[i]);
        proof {
            assert(out@ =~= v@.take(i + 1));
        }
        i = i + 1;
    }
    proof {
        assert(v@.take(v.len() as int) =~= v@);
    }
    out
}

} // verus!
