//! What the overlay knows of the current game's achievements, and the
//! filtered list that the achievements screen shows.

use vstd::prelude::*;
use crate::ipc::{achievement_views, AchievementInfo, AchievementInfoView};
use crate::text::{contains_text, is_substring, lowercase, to_lowercase};

verus! {

/// How many achievements there are and how many of them are earned.
#[derive(Clone, Copy, Debug, PartialEq, Eq, Structural)]
pub struct AchievementProgress {
    pub total: u32,
    pub earned: u32,
}

/// Which achievements the list shows.
#[derive(Clone, Copy, Debug, PartialEq, Eq, Structural)]
pub enum AchievementFilter {
    All,
    Earned,
    Unearned,
}

/// Number of earned achievements in a list.
pub open spec fn count_earned(list: Seq<AchievementInfoView>) -> nat
    decreases list.len(),
{
    if list.len() == 0 {
        0
    } else {
        count_earned(list.drop_last()) + if list.last().earned {
            1nat
        } else {
            0nat
        }
    }
}

/// Position of the first achievement with the given id, or the length of
/// the list where there is none.
pub open spec fn first_with_id(list: Seq<AchievementInfoView>, id: u32) -> int
    decreases list.len(),
{
    if list.len() == 0 {
        0
    } else if list[0].id == id {
        0
    } else {
        1 + first_with_id(list.drop_first(), id)
    }
}

/// A count as a `u32` keeps its low 32 bits.
pub open spec fn low_u32(n: nat) -> u32 {
    (n % 0x1_0000_0000) as u32
}

/// One more, without going past the largest `u32`.
pub open spec fn bump(n: u32) -> u32 {
    if n == u32::MAX {
        n
    } else {
        (n + 1) as u32
    }
}

impl AchievementFilter {
    /// The label of the filter.
    pub open spec fn spec_display_name(self) -> Seq<char> {
        match self {
            AchievementFilter::All => "All"@,
            AchievementFilter::Earned => "Earned"@,
            AchievementFilter::Unearned => "Unearned"@,
        }
    }

    /// Whether the filter lets an achievement through.
    pub open spec fn admits(self, a: AchievementInfoView) -> bool {
        match self {
            AchievementFilter::All => true,
            AchievementFilter::Earned => a.earned,
            AchievementFilter::Unearned => !a.earned,
        }
    }

    /// The label of the filter.
    pub fn display_name(&self) -> (r: &'static str)
        ensures
            r@ == self.spec_display_name(),
    {
        match self {
            AchievementFilter::All => "All",
            AchievementFilter::Earned => "Earned",
            AchievementFilter::Unearned => "Unearned",
        }
    }

    /// The three filters in the order in which the screen cycles them.
    pub fn all_filters() -> (r: Vec<AchievementFilter>)
        ensures
            r@ == seq![AchievementFilter::All, AchievementFilter::Earned, AchievementFilter::Unearned],
    {
        let mut v: Vec<AchievementFilter> = Vec::new();
        v.push(AchievementFilter::All);
        v.push(AchievementFilter::Earned);
        v.push(AchievementFilter::Unearned);
        assert(v@ =~= seq![AchievementFilter::All, AchievementFilter::Earned, AchievementFilter::Unearned]);
        v
    }
}

/// Whether an achievement answers a search: an empty query finds all; any
/// other is looked for, without regard to case, in title and description.
pub open spec fn matches_search(a: AchievementInfoView, query: Seq<char>) -> bool {
    query.len() == 0 || is_substring(lowercase(a.title), lowercase(query)) || is_substring(
        lowercase(a.description),
        lowercase(query),
    )
}

/// Whether an achievement is on the filtered list.
pub open spec fn is_listed(a: AchievementInfoView, filter: AchievementFilter, query: Seq<char>) -> bool {
    filter.admits(a) && matches_search(a, query)
}

/// The positions of the listed achievements, ascending.
pub open spec fn matching_indices(
    list: Seq<AchievementInfoView>,
    filter: AchievementFilter,
    query: Seq<char>,
) -> Seq<usize>
    decreases list.len(),
{
    if list.len() == 0 {
        Seq::empty()
    } else if is_listed(list.last(), filter, query) {
        matching_indices(list.drop_last(), filter, query).push((list.len() - 1) as usize)
    } else {
        matching_indices(list.drop_last(), filter, query)
    }
}

/// The filtered list holds exactly the positions of the achievements that
/// pass both the filter and the search, each once, in the order of the
/// full list.
pub proof fn lemma_matching_indices_exact(
    list: Seq<AchievementInfoView>,
    filter: AchievementFilter,
    query: Seq<char>,
)
    requires
        list.len() <= usize::MAX,
    ensures
        matching_indices(list, filter, query).len() <= list.len(),
        forall|k: int|
            0 <= k < matching_indices(list, filter, query).len() ==> {
                let i = #[trigger] matching_indices(list, filter, query)[k];
                i < list.len() && is_listed(list[i as int], filter, query)
            },
        forall|j: int, k: int|
            0 <= j < k < matching_indices(list, filter, query).len() ==> matching_indices(
                list,
                filter,
                query,
            )[j] < matching_indices(list, filter, query)[k],
        forall|i: int|
            0 <= i < list.len() && is_listed(#[trigger] list[i], filter, query)
                ==> matching_indices(list, filter, query).contains(i as usize),
    decreases list.len(),
{
    if list.len() > 0 {
        let front = list.drop_last();
        let m = matching_indices(list, filter, query);
        let mf = matching_indices(front, filter, query);
        lemma_matching_indices_exact(front, filter, query);
        assert forall|i: int| 0 <= i < list.len() && is_listed(#[trigger] list[i], filter, query) implies m.contains(
            i as usize,
        ) by {
            if i < list.len() - 1 {
                assert(front[i] == list[i]);
                assert(mf.contains(i as usize));
                let k = choose|k: int| 0 <= k < mf.len() && mf[k] == i as usize;
                assert(m[k] == i as usize);
            } else {
                assert(m[m.len() - 1] == i as usize);
            }
        }
        assert forall|k: int| 0 <= k < m.len() implies {
            let i = #[trigger] m[k];
            i < list.len() && is_listed(list[i as int], filter, query)
        } by {
            if k < mf.len() {
                assert(m[k] == mf[k]);
                assert(front[mf[k] as int] == list[mf[k] as int]);
            }
        }
    }
}

/// A copy of an achievement.
fn copy_of(a: &AchievementInfo) -> (r: AchievementInfo)
    ensures
        r@ == a@,
{
    AchievementInfo {
        id: a.id,
        title: a.title.clone(),
        description: a.description.clone(),
        points: a.points,
        earned: a.earned,
        earned_hardcore: a.earned_hardcore,
        rarity_basis_points: a.rarity_basis_points,
        earned_at: a.earned_at,
        progress: a.progress,
    }
}

/// A copy of a list of achievements.
fn copies_of(list: &[AchievementInfo]) -> (r: Vec<AchievementInfo>)
    ensures
        achievement_views(r@) == achievement_views(list@),
{
    let mut copies: Vec<AchievementInfo> = Vec::new();
    let mut i: usize = 0;
    while i < list.len()
        invariant
            i <= list.len(),
            copies@.len() == i,
            forall|k: int| 0 <= k < i ==> (#[trigger] copies@[k])@ == list@[k]@,
        decreases list.len() - i,
    {
        copies.push(copy_of(&list[i]));
        i = i + 1;
    }
    assert(achievement_views(copies@) =~= achievement_views(list@));
    copies
}

/// The positions in `list` of the achievements that pass `filter` and
/// answer `query`.
fn select(list: &[AchievementInfo], filter: AchievementFilter, query: &str) -> (r: Vec<usize>)
    ensures
        r@ == matching_indices(achievement_views(list@), filter, query@),
{
    let ghost all = achievement_views(list@);
    let mut found: Vec<usize> = Vec::new();
    let query_is_empty = query.is_empty();
    let needle = to_lowercase(query);
    let mut i: usize = 0;
    while i < list.len()
        invariant
            i <= list.len(),
            all == achievement_views(list@),
            needle@ == lowercase(query@),
            query_is_empty == (query@.len() == 0),
            found@ == matching_indices(all.take(i as int), filter, query@),
        decreases list.len() - i,
    {
        let a = &list[i];
        let passes_filter = match filter {
            AchievementFilter::All => true,
            AchievementFilter::Earned => a.earned,
            AchievementFilter::Unearned => !a.earned,
        };
        let passes_search = if query_is_empty {
            true
        } else {
            let title = to_lowercase(a.title.as_str());
            if contains_text(title.as_str(), needle.as_str()) {
                true
            } else {
                let description = to_lowercase(a.description.as_str());
                contains_text(description.as_str(), needle.as_str())
            }
        };
        proof {
            let next = all.take(i as int + 1);
            assert(next.drop_last() == all.take(i as int));
            assert(next.last() == a@);
        }
        if passes_filter && passes_search {
            found.push(i);
        }
        i = i + 1;
    }
    proof {
        assert(all.take(list.len() as int) == all);
    }
    found
}

/// Filter, search and scroll position of the achievements screen, with the
/// list that they were last applied to and the positions that they select
/// from it.
#[derive(Debug)]
pub struct AchievementFilterState {
    pub filter: AchievementFilter,
    pub search_query: String,
    pub selected_filter: usize,
    pub scroll_offset: usize,
    pub filtered_indices: Vec<usize>,
    /// The achievements that the positions refer to.
    pub applied: Vec<AchievementInfo>,
}

impl AchievementFilterState {
    /// The list selects from `list` what its filter and search say.
    pub open spec fn selects_from(&self, list: Seq<AchievementInfoView>) -> bool {
        self.filtered_indices@ == matching_indices(list, self.filter, self.search_query@)
    }

    /// The achievements that the filter was last applied to.
    pub open spec fn applied_list(&self) -> Seq<AchievementInfoView> {
        achievement_views(self.applied@)
    }

    /// The listed positions are what filter and search select from the
    /// list last applied. Every operation of the type leaves it so.
    pub open spec fn in_step(&self) -> bool {
        self.selects_from(self.applied_list())
    }

    /// No filter, no search, nothing listed.
    pub fn new() -> (r: AchievementFilterState)
        ensures
            r.filter == AchievementFilter::All,
            r.search_query@.len() == 0,
            r.selected_filter == 0,
            r.scroll_offset == 0,
            r.filtered_indices@.len() == 0,
            r.applied@.len() == 0,
            r.in_step(),
    {
        let r = AchievementFilterState {
            filter: AchievementFilter::All,
            search_query: String::new(),
            selected_filter: 0,
            scroll_offset: 0,
            filtered_indices: Vec::new(),
            applied: Vec::new(),
        };
        assert(r.filtered_indices@ =~= matching_indices(r.applied_list(), r.filter, r.search_query@));
        r
    }

    /// Chooses a filter, scrolls back to the top and lists what the new
    /// filter and the search select from the list last applied.
    pub fn set_filter(&mut self, filter: AchievementFilter)
        ensures
            final(self).filter == filter,
            final(self).scroll_offset == 0,
            final(self).search_query == old(self).search_query,
            final(self).selected_filter == old(self).selected_filter,
            final(self).applied == old(self).applied,
            final(self).filtered_indices@ == matching_indices(
                old(self).applied_list(),
                filter,
                old(self).search_query@,
            ),
            final(self).in_step(),
    {
        self.filter = filter;
        self.scroll_offset = 0;
        self.filtered_indices = select(self.applied.as_slice(), filter, self.search_query.as_str());
    }

    /// Takes `achievements` as the list to select from and lists what
    /// filter and search select from it.
    pub fn apply_filter(&mut self, achievements: &[AchievementInfo])
        ensures
            final(self).selects_from(achievement_views(achievements@)),
            final(self).applied_list() == achievement_views(achievements@),
            final(self).in_step(),
            final(self).filter == old(self).filter,
            final(self).search_query == old(self).search_query,
            final(self).selected_filter == old(self).selected_filter,
            final(self).scroll_offset == old(self).scroll_offset,
    {
        self.filtered_indices = select(achievements, self.filter, self.search_query.as_str());
        self.applied = copies_of(achievements);
    }

    /// Sets the search text, scrolls back to the top and lists what the
    /// filter and the new search select from the list last applied.
    pub fn update_search(&mut self, query: String)
        ensures
            final(self).search_query == query,
            final(self).scroll_offset == 0,
            final(self).filter == old(self).filter,
            final(self).selected_filter == old(self).selected_filter,
            final(self).applied == old(self).applied,
            final(self).filtered_indices@ == matching_indices(old(self).applied_list(), old(self).filter, query@),
            final(self).in_step(),
    {
        self.search_query = query;
        self.scroll_offset = 0;
        self.filtered_indices = select(self.applied.as_slice(), self.filter, self.search_query.as_str());
    }

    /// Number of listed achievements.
    pub fn get_filtered_count(&self) -> (r: usize)
        ensures
            r == self.filtered_indices@.len(),
    {
        self.filtered_indices.len()
    }

    /// Position in the full list of the `index`-th listed achievement.
    pub fn get_achievement_at(&self, index: usize) -> (r: Option<usize>)
        ensures
            r == if index < self.filtered_indices@.len() {
                Some(self.filtered_indices@[index as int])
            } else {
                None
            },
    {
        if index < self.filtered_indices.len() {
            Some(self.filtered_indices[index])
        } else {
            None
        }
    }

    /// Back to no filter, no search, no list and nothing listed.
    pub fn clear(&mut self)
        ensures
            final(self).filter == AchievementFilter::All,
            final(self).search_query@.len() == 0,
            final(self).selected_filter == 0,
            final(self).scroll_offset == 0,
            final(self).filtered_indices@.len() == 0,
            final(self).applied@.len() == 0,
            final(self).in_step(),
    {
        self.filter = AchievementFilter::All;
        self.search_query = String::new();
        self.selected_filter = 0;
        self.scroll_offset = 0;
        self.filtered_indices = Vec::new();
        self.applied = Vec::new();
        assert(self.filtered_indices@ =~= matching_indices(self.applied_list(), self.filter, self.search_query@));
    }
}

/// Whatever filter, search and list operations came before, a state that
/// is in step lists a position exactly if the achievement there passes
/// both the filter and the search, and lists the positions in ascending
/// order.
pub proof fn lemma_in_step_exact(s: AchievementFilterState)
    requires
        s.in_step(),
    ensures
        forall|i: usize|
            s.filtered_indices@.contains(i) <==> (i < s.applied_list().len() && is_listed(
                #[trigger] s.applied_list()[i as int],
                s.filter,
                s.search_query@,
            )),
        forall|j: int, k: int|
            0 <= j < k < s.filtered_indices@.len() ==> s.filtered_indices@[j] < s.filtered_indices@[k],
{
    let list = s.applied_list();
    let m = matching_indices(list, s.filter, s.search_query@);
    assert(list.len() == s.applied.len());
    lemma_matching_indices_exact(list, s.filter, s.search_query@);
    assert forall|i: usize| m.contains(i) implies (i < list.len() && is_listed(
        #[trigger] list[i as int],
        s.filter,
        s.search_query@,
    )) by {
        let k = choose|k: int| 0 <= k < m.len() && m[k] == i;
        assert(m[k] == i);
    }
}

/// Title, hash and achievements of the game that runs, with the filtered
/// list of the achievements screen.
#[derive(Debug)]
pub struct AchievementTracker {
    pub game_id: Option<u32>,
    pub game_title: String,
    pub console: String,
    pub game_hash: String,
    pub achievements: Vec<AchievementInfo>,
    pub progress: AchievementProgress,
    pub filter: AchievementFilterState,
}

impl AchievementTracker {
    /// The filter works on the tracker's achievements, and the filtered
    /// list is what filter and search select from them.
    pub open spec fn wf(&self) -> bool {
        &&& self.filter.applied_list() == achievement_views(self.achievements@)
        &&& self.filter.selects_from(achievement_views(self.achievements@))
    }

    /// Nothing is known of any game.
    pub open spec fn is_cleared(&self) -> bool {
        &&& self.game_id is None
        &&& self.game_title@.len() == 0
        &&& self.console@.len() == 0
        &&& self.game_hash@.len() == 0
        &&& self.achievements@.len() == 0
        &&& self.progress == (AchievementProgress { total: 0, earned: 0 })
        &&& self.filter.filter == AchievementFilter::All
        &&& self.filter.search_query@.len() == 0
        &&& self.filter.selected_filter == 0
        &&& self.filter.scroll_offset == 0
        &&& self.filter.filtered_indices@.len() == 0
        &&& self.filter.applied@.len() == 0
    }

    /// A tracker that knows of no game.
    pub fn new() -> (r: AchievementTracker)
        ensures
            r.is_cleared(),
            r.wf(),
    {
        let r = AchievementTracker {
            game_id: None,
            game_title: String::new(),
            console: String::new(),
            game_hash: String::new(),
            achievements: Vec::new(),
            progress: AchievementProgress { total: 0, earned: 0 },
            filter: AchievementFilterState::new(),
        };
        assert(achievement_views(r.achievements@) =~= r.filter.applied_list());
        r
    }

    /// Records which game runs.
    pub fn set_game_info(&mut self, game_id: u32, title: String, console: String)
        ensures
            final(self).game_id == Some(game_id),
            final(self).game_title == title,
            final(self).console == console,
            final(self).game_hash == old(self).game_hash,
            final(self).achievements == old(self).achievements,
            final(self).progress == old(self).progress,
            final(self).filter == old(self).filter,
    {
        self.game_id = Some(game_id);
        self.game_title = title;
        self.console = console;
    }

    /// Replaces the achievements, counts them and rebuilds the filtered list.
    pub fn set_achievements(&mut self, achievements: Vec<AchievementInfo>)
        ensures
            final(self).achievements == achievements,
            final(self).progress.total == low_u32(achievements@.len()),
            final(self).progress.earned == low_u32(count_earned(achievement_views(achievements@))),
            final(self).wf(),
            final(self).game_id == old(self).game_id,
            final(self).game_title == old(self).game_title,
            final(self).console == old(self).console,
            final(self).game_hash == old(self).game_hash,
            final(self).filter.filter == old(self).filter.filter,
            final(self).filter.search_query == old(self).filter.search_query,
            final(self).filter.selected_filter == old(self).filter.selected_filter,
            final(self).filter.scroll_offset == old(self).filter.scroll_offset,
    {
        let ghost all = achievement_views(achievements@);
        let mut earned: usize = 0;
        let mut i: usize = 0;
        while i < achievements.len()
            invariant
                i <= achievements.len(),
                all == achievement_views(achievements@),
                earned == count_earned(all.take(i as int)),
                earned <= i,
            decreases achievements.len() - i,
        {
            proof {
                let next = all.take(i as int + 1);
                assert(next.drop_last() == all.take(i as int));
                assert(next.last() == achievements@[i as int]@);
            }
            if achievements[i].earned {
                earned = earned + 1;
            }
            i = i + 1;
        }
        proof {
            assert(all.take(achievements.len() as int) == all);
        }
        self.progress.total = truncate_count(achievements.len());
        self.progress.earned = truncate_count(earned);
        self.achievements = achievements;
        self.filter.apply_filter(self.achievements.as_slice());
    }

    /// Marks the first achievement with this id as earned and counts it,
    /// unless it was earned before; an unknown id changes nothing.
    pub fn unlock_achievement(&mut self, achievement_id: u32)
        ensures
            final(self).wf(),
            final(self).game_id == old(self).game_id,
            final(self).game_title == old(self).game_title,
            final(self).console == old(self).console,
            final(self).game_hash == old(self).game_hash,
            final(self).progress.total == old(self).progress.total,
            final(self).achievements@.len() == old(self).achievements@.len(),
            ({
                let before = achievement_views(old(self).achievements@);
                let after = achievement_views(final(self).achievements@);
                let at = first_with_id(before, achievement_id);
                if at < before.len() && !before[at].earned {
                    &&& after == before.update(at, AchievementInfoView { earned: true, ..before[at] })
                    &&& final(self).progress.earned == bump(old(self).progress.earned)
                } else {
                    &&& after == before
                    &&& final(self).progress.earned == old(self).progress.earned
                }
            }),
    {
        let ghost before = achievement_views(self.achievements@);
        let mut i: usize = 0;
        assert(before.skip(0) == before);
        while i < self.achievements.len() && self.achievements[i].id != achievement_id
            invariant
                i <= self.achievements.len(),
                *self == *old(self),
                before == achievement_views(self.achievements@),
                first_with_id(before, achievement_id) == i + first_with_id(before.skip(i as int), achievement_id),
            decreases self.achievements.len() - i,
        {
            proof {
                assert(before.skip(i as int).drop_first() == before.skip(i as int + 1));
                assert(before.skip(i as int)[0] == self.achievements@[i as int]@);
            }
            i = i + 1;
        }
        proof {
            if i < self.achievements.len() {
                assert(before.skip(i as int)[0] == self.achievements@[i as int]@);
            }
            assert(before.skip(0) == before);
        }
        if i < self.achievements.len() {
            if !self.achievements[i].earned {
                self.achievements[i].earned = true;
                self.progress.earned = if self.progress.earned == u32::MAX {
                    u32::MAX
                } else {
                    self.progress.earned + 1
                };
                assert(achievement_views(self.achievements@) =~= before.update(
                    i as int,
                    AchievementInfoView { earned: true, ..before[i as int] },
                ));
            }
        }
        self.filter.apply_filter(self.achievements.as_slice());
    }

    /// Takes the counts as they are reported.
    pub fn update_progress(&mut self, earned: u32, total: u32)
        ensures
            final(self).progress == (AchievementProgress { total, earned }),
            final(self).game_id == old(self).game_id,
            final(self).game_title == old(self).game_title,
            final(self).console == old(self).console,
            final(self).game_hash == old(self).game_hash,
            final(self).achievements == old(self).achievements,
            final(self).filter == old(self).filter,
    {
        self.progress.earned = earned;
        self.progress.total = total;
    }

    /// Takes a full list for a game: title, hash and achievements replace
    /// what was there, and the counts follow from the list.
    pub fn load_list(&mut self, game_title: String, game_hash: String, achievements: Vec<AchievementInfo>)
        ensures
            final(self).game_title == game_title,
            final(self).game_hash == game_hash,
            final(self).achievements == achievements,
            final(self).progress.total == low_u32(achievements@.len()),
            final(self).progress.earned == low_u32(count_earned(achievement_views(achievements@))),
            final(self).wf(),
            final(self).game_id == old(self).game_id,
            final(self).console == old(self).console,
            final(self).filter.filter == old(self).filter.filter,
            final(self).filter.search_query == old(self).filter.search_query,
            final(self).filter.selected_filter == old(self).filter.selected_filter,
            final(self).filter.scroll_offset == old(self).filter.scroll_offset,
    {
        self.game_title = game_title;
        self.game_hash = game_hash;
        self.set_achievements(achievements);
    }

    /// Chooses the filter of the achievements screen and rebuilds the list.
    pub fn set_filter(&mut self, filter: AchievementFilter)
        ensures
            final(self).wf(),
            final(self).filter.filter == filter,
            final(self).filter.scroll_offset == 0,
            final(self).filter.search_query == old(self).filter.search_query,
            final(self).filter.selected_filter == old(self).filter.selected_filter,
            final(self).game_id == old(self).game_id,
            final(self).game_title == old(self).game_title,
            final(self).console == old(self).console,
            final(self).game_hash == old(self).game_hash,
            final(self).achievements == old(self).achievements,
            final(self).progress == old(self).progress,
    {
        self.filter.set_filter(filter);
        self.filter.apply_filter(self.achievements.as_slice());
    }

    /// Sets the search text of the achievements screen and rebuilds the list.
    pub fn set_search(&mut self, query: String)
        ensures
            final(self).wf(),
            final(self).filter.search_query == query,
            final(self).filter.scroll_offset == 0,
            final(self).filter.filter == old(self).filter.filter,
            final(self).filter.selected_filter == old(self).filter.selected_filter,
            final(self).game_id == old(self).game_id,
            final(self).game_title == old(self).game_title,
            final(self).console == old(self).console,
            final(self).game_hash == old(self).game_hash,
            final(self).achievements == old(self).achievements,
            final(self).progress == old(self).progress,
    {
        self.filter.update_search(query);
        self.filter.apply_filter(self.achievements.as_slice());
    }

    /// Forgets the game: back to the state of a new tracker.
    pub fn clear(&mut self)
        ensures
            final(self).is_cleared(),
            final(self).wf(),
    {
        self.game_id = None;
        self.game_title = String::new();
        self.console = String::new();
        self.game_hash = String::new();
        self.achievements = Vec::new();
        self.progress.earned = 0;
        self.progress.total = 0;
        self.filter.clear();
        assert(achievement_views(self.achievements@) =~= self.filter.applied_list());
    }

    /// Whether a game id is known.
    pub fn has_game(&self) -> (r: bool)
        ensures
            r == (self.game_id is Some),
    {
        self.game_id.is_some()
    }

    /// Earned share of the achievements in hundredths of a percent, zero
    /// where there are none.
    pub fn get_progress_basis_points(&self) -> (r: u64)
        ensures
            r == if self.progress.total == 0 {
                0
            } else {
                self.progress.earned as int * 10000 / self.progress.total as int
            },
    {
        if self.progress.total == 0 {
            0
        } else {
            let earned: u64 = self.progress.earned as u64;
            let total: u64 = self.progress.total as u64;
            let scaled: u64 = earned * 10000;
            scaled / total
        }
    }
}

/// A count cut down to its low 32 bits.
fn truncate_count(n: usize) -> (r: u32)
    ensures
        r == low_u32(n as nat),
{
    let wide: u64 = n as u64;
    let low: u64 = wide % 0x1_0000_0000u64;
    low as u32
}

} // verus!
