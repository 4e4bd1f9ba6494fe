//! The Bangumi broadcast calendar, as the home page and the daily anime tab
//! read it.

use vstd::prelude::*;

verus! {

#[derive(Debug)]
pub struct Weekday {
    pub en: String,
}

impl Clone for Weekday {
    fn clone(&self) -> (r: Self)
        ensures
            r == *self,
    {
        Weekday { en: self.en.clone() }
    }
}

/// A rating; `score` holds the score printed with one decimal.
#[derive(Debug)]
pub struct BangumiRating {
    pub score: Option<String>,
}

impl Clone for BangumiRating {
    fn clone(&self) -> (r: Self)
        ensures
            r == *self,
    {
        BangumiRating { score: self.score.clone() }
    }
}

#[derive(Debug)]
pub struct BangumiImages {
    pub large: Option<String>,
    pub common: Option<String>,
    pub medium: Option<String>,
    pub small: Option<String>,
    pub grid: Option<String>,
}

impl Clone for BangumiImages {
    fn clone(&self) -> (r: Self)
        ensures
            r == *self,
    {
        BangumiImages {
            large: self.large.clone(),
            common: self.common.clone(),
            medium: self.medium.clone(),
            small: self.small.clone(),
            grid: self.grid.clone(),
        }
    }
}

/// One programme of the calendar.
#[derive(Debug)]
pub struct Items {
    pub id: i64,
    pub name: String,
    pub name_cn: String,
    pub rating: Option<BangumiRating>,
    pub air_date: Option<String>,
    pub images: Option<BangumiImages>,
}

impl Clone for Items {
    fn clone(&self) -> (r: Self)
        ensures
            r == *self,
    {
        Items {
            id: self.id,
            name: self.name.clone(),
            name_cn: self.name_cn.clone(),
            rating: match &self.rating {
                Some(x) => Some(x.clone()),
                None => None,
            },
            air_date: self.air_date.clone(),
            images: match &self.images {
                Some(x) => Some(x.clone()),
                None => None,
            },
        }
    }
}

/// One day of the calendar.
#[derive(Debug)]
pub struct BangumiCalendarData {
    pub weekday: Option<Weekday>,
    pub items: Option<Vec<Items>>,
}

/// The day is the weekday named `weekday_en`.
pub open spec fn day_is(day: BangumiCalendarData, weekday_en: Seq<char>) -> bool {
    match day.weekday {
        Some(w) => w.en@ == weekday_en,
        None => false,
    }
}

/// The index of the first day named `weekday_en` at or after `k`, or -1.
pub open spec fn find_day_from(cal: Seq<BangumiCalendarData>, weekday_en: Seq<char>, k: int) -> int
    decreases cal.len() - k,
{
    if k < 0 || k >= cal.len() {
        -1
    } else if day_is(cal[k], weekday_en) {
        k
    } else {
        find_day_from(cal, weekday_en, k + 1)
    }
}

pub proof fn lemma_find_day_from(cal: Seq<BangumiCalendarData>, weekday_en: Seq<char>, k: int)
    requires
        0 <= k,
    ensures
        find_day_from(cal, weekday_en, k) == -1 || (k <= find_day_from(cal, weekday_en, k)
            < cal.len() && day_is(cal[find_day_from(cal, weekday_en, k)], weekday_en)),
    decreases cal.len() - k,
{
    if k < cal.len() && !day_is(cal[k], weekday_en) {
        lemma_find_day_from(cal, weekday_en, k + 1);
    }
}

/// The programmes with an id other than 0, in order.
pub open spec fn listed_items(items: Seq<Items>) -> Seq<Items>
    decreases items.len(),
{
    if items.len() == 0 {
        items
    } else if items.last().id != 0 {
        listed_items(items.drop_last()).push(items.last())
    } else {
        listed_items(items.drop_last())
    }
}

/// The programmes of a day, or none.
pub open spec fn day_items(day: BangumiCalendarData) -> Seq<Items> {
    match day.items {
        Some(v) => v@,
        None => Seq::empty(),
    }
}

/// The index of the first day named `weekday_en`.
pub fn find_day(cal: &[BangumiCalendarData], weekday_en: &str) -> (r: Option<usize>)
    ensures
        match r {
            Some(i) => i == find_day_from(cal@, weekday_en@, 0) && i < cal@.len(),
            None => find_day_from(cal@, weekday_en@, 0) == -1,
        },
{
    let mut i: usize = 0;
    while i < cal.len()
        invariant
            i <= cal@.len(),
            find_day_from(cal@, weekday_en@, 0) == find_day_from(cal@, weekday_en@, i as int),
        decreases cal@.len() - i,
    {
        let hit = match &cal[i].weekday {
            Some(w) => crate::text::str_eq(w.en.as_str(), weekday_en),
            None => false,
        };
        if hit {
            return Some(i);
        }
        i += 1;
    }
    None
}

/// The programmes with an id other than 0.
pub fn keep_listed(items: &Vec<Items>) -> (r: Vec<Items>)
    ensures
        r@ == listed_items(items@),
{
    let mut r: Vec<Items> = Vec::new();
    let mut i: usize = 0;
    while i < items.len()
        invariant
            i <= items.len(),
            r@ == listed_items(items@.take(i as int)),
        decreases items.len() - i,
    {
        assert(items@.take(i + 1).drop_last() =~= items@.take(i as int));
        if items[i].id != 0 {
            r.push(items[i].clone());
        }
        i += 1;
    }
    assert(items@.take(items.len() as int) =~= items@);
    r
}

} // verus!
