//! What the achievement helper tells the overlay.

use vstd::prelude::*;
use crate::ipc::{achievement_views, AchievementInfo, AchievementInfoView, OverlayMessage, ToastStyle};
use crate::ra::types::Achievement;
use crate::text::{concat2, owned};

verus! {

/// How long the toast of an unlocked achievement stays, in milliseconds.
pub const UNLOCK_TOAST_MS: u32 = 5000;

/// An achievement of the service as the overlay shows it.
pub open spec fn shown(a: Achievement) -> AchievementInfoView {
    AchievementInfoView {
        id: a.id,
        title: a.title@,
        description: a.description@,
        points: a.points,
        earned: a.date_earned is Some || a.date_earned_hardcore is Some,
        earned_hardcore: a.date_earned_hardcore is Some,
        rarity_basis_points: None,
        earned_at: None,
        progress: None,
    }
}

/// A list sorted by id with one achievement more, put behind every
/// achievement whose id is not larger.
pub open spec fn insert_by_id(sorted: Seq<AchievementInfoView>, item: AchievementInfoView) -> Seq<
    AchievementInfoView,
>
    decreases sorted.len(),
{
    if sorted.len() == 0 {
        seq![item]
    } else if sorted.last().id <= item.id {
        sorted.push(item)
    } else {
        insert_by_id(sorted.drop_last(), item).push(sorted.last())
    }
}

/// The achievements of a game as the overlay lists them: by ascending id,
/// achievements of the same id in the order in which they came.
pub open spec fn listed(list: Seq<Achievement>) -> Seq<AchievementInfoView>
    decreases list.len(),
{
    if list.len() == 0 {
        Seq::empty()
    } else {
        insert_by_id(listed(list.drop_last()), shown(list.last()))
    }
}

/// `insert_by_id` puts the achievement at the place behind which every
/// achievement has a larger id, and before which the neighbour has not.
proof fn lemma_insert_at(sorted: Seq<AchievementInfoView>, item: AchievementInfoView, pos: int)
    requires
        0 <= pos <= sorted.len(),
        forall|k: int| pos <= k < sorted.len() ==> (#[trigger] sorted[k]).id > item.id,
        pos > 0 ==> sorted[pos - 1].id <= item.id,
    ensures
        insert_by_id(sorted, item) == sorted.insert(pos, item),
    decreases sorted.len(),
{
    if sorted.len() == 0 {
        assert(sorted.insert(pos, item) =~= seq![item]);
    } else if pos == sorted.len() {
        assert(sorted.insert(pos, item) =~= sorted.push(item));
    } else {
        let front = sorted.drop_last();
        assert(sorted[sorted.len() - 1].id > item.id);
        assert forall|k: int| pos <= k < front.len() implies (#[trigger] front[k]).id > item.id by {
            assert(front[k] == sorted[k]);
        }
        if pos > 0 {
            assert(front[pos - 1] == sorted[pos - 1]);
        }
        lemma_insert_at(front, item, pos);
        assert(front.insert(pos, item).push(sorted.last()) =~= sorted.insert(pos, item));
    }
}

/// An achievement of the service as the overlay shows it.
pub fn to_info(a: &Achievement) -> (r: AchievementInfo)
    ensures
        r@ == shown(*a),
{
    AchievementInfo {
        id: a.id,
        title: a.title.clone(),
        description: a.description.clone(),
        points: a.points,
        earned: a.is_earned(),
        earned_hardcore: a.is_earned_hardcore(),
        rarity_basis_points: None,
        earned_at: None,
        progress: None,
    }
}

/// The achievements of a game as the overlay lists them.
pub fn sorted_infos(list: &Vec<Achievement>) -> (r: Vec<AchievementInfo>)
    ensures
        achievement_views(r@) == listed(list@),
{
    let mut sorted: Vec<AchievementInfo> = Vec::new();
    let mut i: usize = 0;
    assert(achievement_views(sorted@) =~= listed(list@.take(0)));
    while i < list.len()
        invariant
            i <= list.len(),
            achievement_views(sorted@) == listed(list@.take(i as int)),
        decreases list.len() - i,
    {
        let item = to_info(&list[i]);
        proof {
            let next = list@.take(i as int + 1);
            assert(next.drop_last() == list@.take(i as int));
            assert(next.last() == list@[i as int]);
        }
        let ghost before = achievement_views(sorted@);
        let mut pos: usize = sorted.len();
        while pos > 0 && sorted[pos - 1].id > item.id
            invariant
                pos <= sorted.len(),
                before == achievement_views(sorted@),
                forall|k: int| pos <= k < before.len() ==> (#[trigger] before[k]).id > item.id,
            decreases pos,
        {
            assert(before[pos - 1].id == sorted@[pos - 1].id);
            pos = pos - 1;
        }
        proof {
            if pos > 0 {
                assert(before[pos - 1].id == sorted@[pos - 1].id);
            }
            lemma_insert_at(before, item@, pos as int);
        }
        sorted.insert(pos, item);
        assert(achievement_views(sorted@) =~= before.insert(pos as int, item@));
        i = i + 1;
    }
    proof {
        assert(list@.take(list.len() as int) == list@);
    }
    sorted
}

/// The message that gives the overlay the achievements of a game, under
/// the title that the user gave the game or else that of the service.
pub fn achievement_list_message(game_title: &str, game_hash: &str, achievements: &Vec<Achievement>) -> (r:
    OverlayMessage)
    ensures
        r matches OverlayMessage::RaAchievementList { game_title: t, game_hash: h, achievements: list } && t@
            == game_title@ && h@ == game_hash@ && achievement_views(list@) == listed(achievements@),
{
    OverlayMessage::RaAchievementList {
        game_title: owned(game_title),
        game_hash: owned(game_hash),
        achievements: sorted_infos(achievements),
    }
}

/// The message that tells the overlay which game of the service runs.
pub fn game_start_message(game_id: u32, title: &str, earned: u32, total: u32) -> (r: OverlayMessage)
    ensures
        r matches OverlayMessage::RaGameStart {
            game_title,
            game_id: id,
            game_icon,
            total_achievements,
            earned_achievements,
        } && game_title@ == title@ && id == Some(game_id) && game_icon is None && total_achievements == total
            && earned_achievements == earned,
{
    OverlayMessage::RaGameStart {
        game_title: owned(title),
        game_id: Some(game_id),
        game_icon: None,
        total_achievements: total,
        earned_achievements: earned,
    }
}

/// The message that shows the toast of an unlocked achievement.
pub fn unlocked_toast_message(title: &str) -> (r: OverlayMessage)
    ensures
        r matches OverlayMessage::ShowToast { message, icon, duration_ms, style } && message@
            == "\u{1F3C6} Achievement Unlocked: "@ + title@ && icon is None && duration_ms == UNLOCK_TOAST_MS
            && style == ToastStyle::Success,
{
    OverlayMessage::ShowToast {
        message: concat2("\u{1F3C6} Achievement Unlocked: ", title),
        icon: None,
        duration_ms: UNLOCK_TOAST_MS,
        style: ToastStyle::Success,
    }
}

} // verus!
