use vstd::prelude::*;

verus! {

/// A tracked series, as the reconciliation pass reads it.
/// Timestamps are seconds since the Unix epoch.
pub struct Manga {
    pub id: i64,
    pub source_id: i64,
    pub title: String,
    pub path: String,
    /// Upload time of the newest chapter known for this series, if any.
    pub last_uploaded_at: Option<i64>,
}

impl Clone for Manga {
    fn clone(&self) -> (r: Self)
        ensures
            r == *self,
    {
        Manga {
            id: self.id,
            source_id: self.source_id,
            title: self.title.clone(),
            path: self.path.clone(),
            last_uploaded_at: self.last_uploaded_at,
        }
    }
}

/// One chapter of a series. `path` identifies the chapter within its series.
pub struct Chapter {
    pub id: i64,
    pub manga_id: i64,
    pub path: String,
    pub title: String,
    /// Upload time, in seconds since the Unix epoch.
    pub uploaded: i64,
}

impl Clone for Chapter {
    fn clone(&self) -> (r: Self)
        ensures
            r == *self,
    {
        Chapter {
            id: self.id,
            manga_id: self.manga_id,
            path: self.path.clone(),
            title: self.title.clone(),
            uploaded: self.uploaded,
        }
    }
}

/// The chapter as it is stored under series `manga_id`.
pub open spec fn stamped(c: Chapter, manga_id: i64) -> Chapter {
    Chapter {
        id: c.id,
        manga_id: manga_id,
        path: c.path,
        title: c.title,
        uploaded: c.uploaded,
    }
}

/// Every chapter of `fetched`, stamped with the series id.
pub open spec fn stamped_all(fetched: Seq<Chapter>, manga_id: i64) -> Seq<Chapter> {
    fetched.map_values(|c: Chapter| stamped(c, manga_id))
}

/// Whether some chapter of `chapters` has the path `p`.
pub open spec fn has_path(chapters: Seq<Chapter>, p: Seq<char>) -> bool {
    exists|i: int| 0 <= i < chapters.len() && #[trigger] chapters[i].path@ == p
}

/// Holds of a stored chapter that the fresh listing `fetched` no longer holds.
pub open spec fn missing_from(fetched: Seq<Chapter>) -> spec_fn(Chapter) -> bool {
    |c: Chapter| !has_path(fetched, c.path@)
}

/// The id of a chapter.
pub open spec fn id_of() -> spec_fn(Chapter) -> i64 {
    |c: Chapter| c.id
}

/// Holds of a chapter uploaded after `baseline(last_uploaded_at)`.
pub open spec fn uploaded_after(last_uploaded_at: Option<i64>) -> spec_fn(Chapter) -> bool {
    |c: Chapter| c.uploaded > baseline(last_uploaded_at)
}

/// Ids of the stored chapters that a fresh listing no longer holds.
/// An empty listing removes nothing.
pub open spec fn stale_ids(persisted: Seq<Chapter>, fetched: Seq<Chapter>) -> Seq<i64> {
    if fetched.len() == 0 {
        Seq::empty()
    } else {
        persisted.filter(missing_from(fetched)).map_values(id_of())
    }
}

/// The upload time below which nothing counts as new: the series' last known
/// upload, or the epoch when there is none.
pub open spec fn baseline(last_uploaded_at: Option<i64>) -> i64 {
    match last_uploaded_at {
        Some(t) => t,
        None => 0,
    }
}

/// The chapters uploaded strictly after `baseline(last_uploaded_at)`, in their order.
pub open spec fn newer_than(chapters: Seq<Chapter>, last_uploaded_at: Option<i64>) -> Seq<Chapter> {
    chapters.filter(uploaded_after(last_uploaded_at))
}

/// The chapters a series holds once a pass has stored `fetched` and removed the
/// stale ones: the fresh listing, or what was stored when the listing is empty.
/// Ids of rows are assigned by storage and play no part here.
pub open spec fn rows_after(persisted: Seq<Chapter>, fetched: Seq<Chapter>, manga_id: i64) -> Seq<Chapter> {
    if fetched.len() == 0 {
        persisted
    } else {
        stamped_all(fetched, manga_id)
    }
}

/// Stamps each fetched chapter with the id of the series it belongs to,
/// ready to be stored.
pub fn stamp_chapters(fetched: &Vec<Chapter>, manga_id: i64) -> (r: Vec<Chapter>)
    ensures
        r@ == stamped_all(fetched@, manga_id),
{
    let mut r: Vec<Chapter> = Vec::new();
    let mut i: usize = 0;
    while i < fetched.len()
        invariant
            i <= fetched@.len(),
            r@ == stamped_all(fetched@.take(i as int), manga_id),
        decreases fetched@.len() - i,
    {
        let c = &fetched[i];
        r.push(Chapter {
            id: c.id,
            manga_id: manga_id,
            path: c.path.clone(),
            title: c.title.clone(),
            uploaded: c.uploaded,
        });
        assert(fetched@.take(i as int + 1) =~= fetched@.take(i as int).push(fetched@[i as int]));
        i = i + 1;
        assert(r@ =~= stamped_all(fetched@.take(i as int), manga_id));
    }
    assert(fetched@.take(i as int) =~= fetched@);
    r
}

/// Whether some chapter of `chapters` has the path `p`.
pub fn contains_path(chapters: &Vec<Chapter>, p: &String) -> (r: bool)
    ensures
        r == has_path(chapters@, p@),
{
    let mut i: usize = 0;
    while i < chapters.len()
        invariant
            i <= chapters@.len(),
            forall|k: int| 0 <= k < i ==> chapters@[k].path@ != p@,
        decreases chapters@.len() - i,
    {
        if chapters[i].path == *p {
            return true;
        }
        i = i + 1;
    }
    false
}

/// Ids of the stored chapters of a series whose path is missing from a
/// non-empty fresh listing; these are to be deleted.
pub fn stale_chapter_ids(persisted: &Vec<Chapter>, fetched: &Vec<Chapter>) -> (r: Vec<i64>)
    ensures
        r@ == stale_ids(persisted@, fetched@),
{
    let mut r: Vec<i64> = Vec::new();
    if fetched.len() == 0 {
        return r;
    }
    let mut i: usize = 0;
    while i < persisted.len()
        invariant
            i <= persisted@.len(),
            fetched@.len() > 0,
            r@ == persisted@.take(i as int).filter(missing_from(fetched@)).map_values(id_of()),
        decreases persisted@.len() - i,
    {
        let ghost pre = persisted@.take(i as int);
        assert(persisted@.take(i as int + 1).drop_last() =~= pre);
        let ghost next = persisted@.take(i as int + 1);
        proof {
            reveal(Seq::filter);
            assert(next.last() == persisted@[i as int]);
            assert(next.filter(missing_from(fetched@)) == if missing_from(fetched@)(persisted@[i as int]) {
                pre.filter(missing_from(fetched@)).push(persisted@[i as int])
            } else {
                pre.filter(missing_from(fetched@))
            });
        }
        if !contains_path(fetched, &persisted[i].path) {
            r.push(persisted[i].id);
        }
        assert(r@ =~= next.filter(missing_from(fetched@)).map_values(id_of()));
        i = i + 1;
    }
    assert(persisted@.take(i as int) =~= persisted@);
    r
}

/// The chapters of `chapters` uploaded after the series' last known upload,
/// in their order: what a pass reports as new.
pub fn new_since(chapters: &Vec<Chapter>, last_uploaded_at: Option<i64>) -> (r: Vec<Chapter>)
    ensures
        r@ == newer_than(chapters@, last_uploaded_at),
{
    let since: i64 = match last_uploaded_at {
        Some(t) => t,
        None => 0,
    };
    let mut r: Vec<Chapter> = Vec::new();
    let mut i: usize = 0;
    while i < chapters.len()
        invariant
            i <= chapters@.len(),
            since == baseline(last_uploaded_at),
            r@ == chapters@.take(i as int).filter(uploaded_after(last_uploaded_at)),
        decreases chapters@.len() - i,
    {
        let ghost pre = chapters@.take(i as int);
        let ghost next = chapters@.take(i as int + 1);
        let ghost keep = uploaded_after(last_uploaded_at);
        proof {
            reveal(Seq::filter);
            assert(next.drop_last() =~= pre);
            assert(next.last() == chapters@[i as int]);
        }
        if chapters[i].uploaded > since {
            let c = chapters[i].clone();
            assert(next.filter(keep) == pre.filter(keep).push(c));
            r.push(c);
        } else {
            assert(next.filter(keep) == pre.filter(keep));
        }
        assert(r@ =~= next.filter(uploaded_after(last_uploaded_at)));
        i = i + 1;
    }
    assert(chapters@.take(i as int) =~= chapters@);
    r
}

/// Whether every chapter of `chapters` was uploaded at or before
/// `baseline(last_uploaded_at)`.
pub open spec fn all_seen(chapters: Seq<Chapter>, last_uploaded_at: Option<i64>) -> bool {
    forall|i: int| 0 <= i < chapters.len() ==> #[trigger] chapters[i].uploaded <= baseline(last_uploaded_at)
}

/// When nothing was uploaded after the series' last known upload, nothing is new.
pub proof fn lemma_nothing_newer(chapters: Seq<Chapter>, last_uploaded_at: Option<i64>)
    requires
        all_seen(chapters, last_uploaded_at),
    ensures
        newer_than(chapters, last_uploaded_at).len() == 0,
{
    let out = newer_than(chapters, last_uploaded_at);
    if out.len() > 0 {
        chapters.lemma_filter_pred(uploaded_after(last_uploaded_at), 0);
        chapters.lemma_filter_contains_rev(uploaded_after(last_uploaded_at), out[0]);
    }
}

/// A pass over an empty listing stores nothing, deletes nothing and leaves the
/// series' rows as they were; so, when every stored chapter lies at or before
/// the series' last known upload, it reports no new chapter.
pub proof fn lemma_empty_listing(persisted: Seq<Chapter>, manga_id: i64, last_uploaded_at: Option<i64>)
    requires
        all_seen(persisted, last_uploaded_at),
    ensures
        stamped_all(Seq::empty(), manga_id).len() == 0,
        stale_ids(persisted, Seq::empty()).len() == 0,
        rows_after(persisted, Seq::empty(), manga_id) == persisted,
        newer_than(rows_after(persisted, Seq::empty(), manga_id), last_uploaded_at).len() == 0,
{
    lemma_nothing_newer(persisted, last_uploaded_at);
}

/// A stored chapter whose path a non-empty fresh listing no longer holds is
/// deleted, and no chapter reported as new has its path, whatever its upload time.
pub proof fn lemma_dropped_chapter(
    persisted: Seq<Chapter>,
    fetched: Seq<Chapter>,
    manga_id: i64,
    last_uploaded_at: Option<i64>,
    i: int,
)
    requires
        fetched.len() > 0,
        0 <= i < persisted.len(),
        !has_path(fetched, persisted[i].path@),
    ensures
        stale_ids(persisted, fetched).contains(persisted[i].id),
        forall|k: int|
            0 <= k < newer_than(rows_after(persisted, fetched, manga_id), last_uploaded_at).len()
                ==> (#[trigger] newer_than(rows_after(persisted, fetched, manga_id), last_uploaded_at)[k]).path@
                != persisted[i].path@,
{
    let kept = persisted.filter(missing_from(fetched));
    persisted.lemma_filter_contains(missing_from(fetched), i);
    let j = choose|j: int| 0 <= j < kept.len() && kept[j] == persisted[i];
    assert(kept.map_values(id_of())[j] == persisted[i].id);
    let rows = rows_after(persisted, fetched, manga_id);
    let out = newer_than(rows, last_uploaded_at);
    assert forall|k: int| 0 <= k < out.len() implies (#[trigger] out[k]).path@ != persisted[i].path@ by {
        assert(out.contains(out[k]));
        rows.lemma_filter_contains_rev(uploaded_after(last_uploaded_at), out[k]);
        let m = choose|m: int| 0 <= m < rows.len() && rows[m] == out[k];
        assert(rows[m].path == fetched[m].path);
        if out[k].path@ == persisted[i].path@ {
            assert(fetched[m].path@ == persisted[i].path@);
        }
    }
}

/// Rows stored by a pass are stable: a second pass over the same listing leaves
/// them as the first left them.
pub proof fn lemma_rows_stable(persisted: Seq<Chapter>, fetched: Seq<Chapter>, manga_id: i64)
    ensures
        rows_after(rows_after(persisted, fetched, manga_id), fetched, manga_id)
            == rows_after(persisted, fetched, manga_id),
{
}

/// Once the series' last known upload has caught up with the rows a pass left,
/// a second pass over the same listing reports no new chapter.
pub proof fn lemma_second_pass_quiet(
    persisted: Seq<Chapter>,
    fetched: Seq<Chapter>,
    manga_id: i64,
    last_uploaded_at: Option<i64>,
)
    requires
        all_seen(rows_after(persisted, fetched, manga_id), last_uploaded_at),
    ensures
        newer_than(
            rows_after(rows_after(persisted, fetched, manga_id), fetched, manga_id),
            last_uploaded_at,
        ).len() == 0,
{
    lemma_rows_stable(persisted, fetched, manga_id);
    lemma_nothing_newer(rows_after(persisted, fetched, manga_id), last_uploaded_at);
}

} // verus!
