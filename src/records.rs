use vstd::prelude::*;

verus! {

/// A chapter a user read recently. `read_at` is in seconds since the Unix epoch.
pub struct RecentChapter {
    pub manga_id: i64,
    pub chapter_id: i64,
    pub manga_title: String,
    pub cover_url: String,
    pub chapter_title: String,
    pub read_at: i64,
    pub last_page_read: i64,
}

impl RecentChapter {
    pub fn manga_id(&self) -> (r: i64)
        ensures
            r == self.manga_id,
    {
        self.manga_id
    }

    pub fn chapter_id(&self) -> (r: i64)
        ensures
            r == self.chapter_id,
    {
        self.chapter_id
    }

    pub fn manga_title(&self) -> (r: String)
        ensures
            r@ == self.manga_title@,
    {
        self.manga_title.clone()
    }

    pub fn chapter_title(&self) -> (r: String)
        ensures
            r@ == self.chapter_title@,
    {
        self.chapter_title.clone()
    }

    pub fn read_at(&self) -> (r: i64)
        ensures
            r == self.read_at,
    {
        self.read_at
    }

    pub fn last_page_read(&self) -> (r: i64)
        ensures
            r == self.last_page_read,
    {
        self.last_page_read
    }
}

/// A chapter recently uploaded to a series in a user's library. `uploaded` is
/// in seconds since the Unix epoch.
pub struct RecentUpdate {
    pub manga_id: i64,
    pub chapter_id: i64,
    pub manga_title: String,
    pub cover_url: String,
    pub chapter_title: String,
    pub uploaded: i64,
}

impl RecentUpdate {
    pub fn manga_id(&self) -> (r: i64)
        ensures
            r == self.manga_id,
    {
        self.manga_id
    }

    pub fn chapter_id(&self) -> (r: i64)
        ensures
            r == self.chapter_id,
    {
        self.chapter_id
    }

    pub fn manga_title(&self) -> (r: String)
        ensures
            r@ == self.manga_title@,
    {
        self.manga_title.clone()
    }

    pub fn chapter_title(&self) -> (r: String)
        ensures
            r@ == self.chapter_title@,
    {
        self.chapter_title.clone()
    }

    pub fn uploaded(&self) -> (r: i64)
        ensures
            r == self.uploaded,
    {
        self.uploaded
    }
}

} // verus!
