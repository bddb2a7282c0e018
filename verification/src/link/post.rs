//! The decoded result records of one query.

use vstd::prelude::*;
use vstd::string::*;

verus! {

/// List of [`Post`] records, in the order the API returned them.
#[derive(Debug, Default, PartialEq)]
pub struct Posts(pub Vec<Post>);

/// One search result: an image resource with several URL variants and its
/// metadata, decoded from the response and immutable afterwards.
#[derive(Debug, Default, PartialEq)]
pub struct Post {
    /// picture in miniature
    pub preview_url: String,
    /// picture resized by default
    pub sample_url: String,
    /// raw picture
    pub file_url: String,
    /// hash of the picture
    pub hash: String,
    /// width of the raw picture
    pub width: i64,
    /// height of the raw picture
    pub height: i64,
    /// unique id
    pub id: i64,
    /// file name
    pub image: String,
    /// author
    pub owner: String,
    /// linked id, zero when absent
    pub parent_id: i64,
    /// whether a resized variant exists
    pub sample: bool,
    /// height of the resized variant
    pub sample_height: i64,
    /// width of the resized variant
    pub sample_width: i64,
    /// score given by visitors
    pub score: i64,
    /// tags as one space-delimited string
    pub tags: String,
    /// whether translation notes exist
    pub has_notes: bool,
}

impl View for Posts {
    type V = Seq<Post>;

    open spec fn view(&self) -> Seq<Post> {
        self.0@
    }
}

impl Posts {
    /// The `preview_url` of every post, in order.
    #[verifier::loop_isolation(false)]
    pub fn get_p_urls(&self) -> (r: Vec<&str>)
        ensures
            r@.len() == self@.len(),
            forall|i: int| 0 <= i < r@.len() ==> #[trigger] r@[i]@ == self@[i].preview_url@,
    {
        let mut urls: Vec<&str> = Vec::new();
        let mut i: usize = 0;
        while i < self.0.len()
            invariant
                0 <= i <= self.0.len(),
                urls@.len() == i,
                forall|k: int| 0 <= k < i ==> #[trigger] urls@[k]@ == self@[k].preview_url@,
            decreases self.0.len() - i,
        {
            urls.push(self.0[i].preview_url.as_str());
            i = i + 1;
        }
        urls
    }

    /// The `sample_url` of every post, in order.
    #[verifier::loop_isolation(false)]
    pub fn get_s_urls(&self) -> (r: Vec<&str>)
        ensures
            r@.len() == self@.len(),
            forall|i: int| 0 <= i < r@.len() ==> #[trigger] r@[i]@ == self@[i].sample_url@,
    {
        let mut urls: Vec<&str> = Vec::new();
        let mut i: usize = 0;
        while i < self.0.len()
            invariant
                0 <= i <= self.0.len(),
                urls@.len() == i,
                forall|k: int| 0 <= k < i ==> #[trigger] urls@[k]@ == self@[k].sample_url@,
            decreases self.0.len() - i,
        {
            urls.push(self.0[i].sample_url.as_str());
            i = i + 1;
        }
        urls
    }

    /// The `file_url` of every post, in order.
    #[verifier::loop_isolation(false)]
    pub fn get_f_urls(&self) -> (r: Vec<&str>)
        ensures
            r@.len() == self@.len(),
            forall|i: int| 0 <= i < r@.len() ==> #[trigger] r@[i]@ == self@[i].file_url@,
    {
        let mut urls: Vec<&str> = Vec::new();
        let mut i: usize = 0;
        while i < self.0.len()
            invariant
                0 <= i <= self.0.len(),
                urls@.len() == i,
                forall|k: int| 0 <= k < i ==> #[trigger] urls@[k]@ == self@[k].file_url@,
            decreases self.0.len() - i,
        {
            urls.push(self.0[i].file_url.as_str());
            i = i + 1;
        }
        urls
    }

    /// The first post's `preview_url`, if any post came back.
    pub fn get_p_url(&self) -> (r: Option<&str>)
        ensures
            match r {
                Some(u) => self@.len() > 0 && u@ == self@[0].preview_url@,
                None => self@.len() == 0,
            },
    {
        if self.0.len() > 0 {
            Some(self.0[0].preview_url.as_str())
        } else {
            None
        }
    }

    /// The first post's `sample_url`, if any post came back.
    pub fn get_s_url(&self) -> (r: Option<&str>)
        ensures
            match r {
                Some(u) => self@.len() > 0 && u@ == self@[0].sample_url@,
                None => self@.len() == 0,
            },
    {
        if self.0.len() > 0 {
            Some(self.0[0].sample_url.as_str())
        } else {
            None
        }
    }

    /// The first post's `file_url`, if any post came back.
    pub fn get_f_url(&self) -> (r: Option<&str>)
        ensures
            match r {
                Some(u) => self@.len() > 0 && u@ == self@[0].file_url@,
                None => self@.len() == 0,
            },
    {
        if self.0.len() > 0 {
            Some(self.0[0].file_url.as_str())
        } else {
            None
        }
    }
}

} // verus!
