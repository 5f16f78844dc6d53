use vstd::prelude::*;

use crate::reconcile::{Chapter, Manga};

verus! {

/// The announcement of one new chapter to live subscribers: the series, the
/// chapter, and the users who were notified of it, each once.
pub struct ChapterUpdate {
    pub manga: Manga,
    pub chapter: Chapter,
    pub users: Vec<i64>,
}

impl ChapterUpdate {
    /// The set of users the announcement names.
    pub open spec fn user_set(&self) -> Set<i64> {
        self.users@.to_set()
    }

    /// Users are listed without repetition.
    pub open spec fn wf(&self) -> bool {
        self.users@.no_duplicates()
    }
}

impl Clone for ChapterUpdate {
    fn clone(&self) -> (r: Self)
        ensures
            r.manga == self.manga,
            r.chapter == self.chapter,
            r.users@ == self.users@,
    {
        ChapterUpdate {
            manga: self.manga.clone(),
            chapter: self.chapter.clone(),
            users: self.users.clone(),
        }
    }
}

/// Whether `x` occurs in `v`.
fn contains_id(v: &Vec<i64>, x: i64) -> (r: bool)
    ensures
        r == v@.contains(x),
{
    let mut i: usize = 0;
    while i < v.len()
        invariant
            i <= v@.len(),
            forall|k: int| 0 <= k < i ==> v@[k] != x,
        decreases v@.len() - i,
    {
        if v[i] == x {
            return true;
        }
        i = i + 1;
    }
    false
}

impl ChapterUpdate {
    /// The announcement of `chapter` of `manga` to the users `owners`; an owner
    /// listed twice is named once.
    pub fn new(manga: &Manga, chapter: &Chapter, owners: &Vec<i64>) -> (r: ChapterUpdate)
        ensures
            r.wf(),
            r.manga == *manga,
            r.chapter == *chapter,
            r.user_set() == owners@.to_set(),
    {
        let mut users: Vec<i64> = Vec::new();
        let mut i: usize = 0;
        while i < owners.len()
            invariant
                i <= owners@.len(),
                users@.no_duplicates(),
                users@.to_set() == owners@.take(i as int).to_set(),
            decreases owners@.len() - i,
        {
            let ghost pre = owners@.take(i as int);
            assert(owners@.take(i as int + 1) =~= pre.push(owners@[i as int]));
            proof {
                pre.lemma_push_to_set_commute(owners@[i as int]);
            }
            let x = owners[i];
            if !contains_id(&users, x) {
                proof {
                    users@.lemma_push_to_set_commute(x);
                }
                users.push(x);
            } else {
                assert(users@.to_set().contains(x));
                assert(users@.to_set().insert(x) =~= users@.to_set());
            }
            i = i + 1;
        }
        assert(owners@.take(i as int) =~= owners@);
        ChapterUpdate { manga: manga.clone(), chapter: chapter.clone(), users }
    }
}

} // verus!
