//! The storage media that saves can be kept on.

use vstd::prelude::*;
use crate::bios::types::StorageMedia;
use crate::search::{first_where, lemma_first_where_is};
use crate::text::{owned, same_text};

verus! {

/// The id of the internal disk, which is always the first medium.
pub const INTERNAL: &'static str = "internal";

/// The name of the partition that is never offered as a medium.
pub const HIDDEN_PARTITION: &'static str = "frzr_efi";

/// Bytes in a megabyte.
pub const MEGABYTE: u64 = 1048576;

/// A medium with its id as a sequence.
pub struct StorageMediaView {
    pub id: Seq<char>,
    pub free: u32,
}

impl View for StorageMedia {
    type V = StorageMediaView;

    open spec fn view(&self) -> StorageMediaView {
        StorageMediaView { id: self.id@, free: self.free }
    }
}

/// The views of a list of media.
pub open spec fn media_views(list: Seq<StorageMedia>) -> Seq<StorageMediaView> {
    Seq::new(list.len(), |i: int| list[i]@)
}

/// The storage media and the one that is selected.
#[derive(Clone, Debug)]
pub struct StorageMediaState {
    /// All media, those that cannot be used too.
    pub all_media: Vec<StorageMedia>,
    /// The media that can be used.
    pub media: Vec<StorageMedia>,
    /// The place of the selected medium in `media`.
    pub selected: usize,
    pub needs_memory_refresh: bool,
}

/// Free space in megabytes, cut down to 32 bits.
pub open spec fn megabytes(bytes: u64) -> u32 {
    ((bytes / MEGABYTE) % 0x1_0000_0000) as u32
}

/// The two lists hold media of the same ids in the same order.
pub open spec fn same_ids(a: Seq<StorageMediaView>, b: Seq<StorageMediaView>) -> bool {
    a.len() == b.len() && forall|i: int| 0 <= i < a.len() ==> (#[trigger] a[i]).id == b[i].id
}

/// The place of the first medium of this id; the length of the list where
/// there is none.
pub open spec fn media_pos(list: Seq<StorageMediaView>, id: Seq<char>) -> int {
    first_where(list, |m: StorageMediaView| m.id == id)
}

/// The media of the list that can be used, in their order. A medium of
/// which `usable` says nothing cannot.
pub open spec fn usable_media(list: Seq<StorageMediaView>, usable: Seq<bool>) -> Seq<StorageMediaView>
    decreases list.len(),
{
    if list.len() == 0 {
        Seq::empty()
    } else {
        let rest = usable_media(list.drop_last(), usable);
        if list.len() <= usable.len() && usable[list.len() - 1] {
            rest.push(list.last())
        } else {
            rest
        }
    }
}

/// What the system reports of a mounted disk: the last part of its mount
/// point and the bytes that are free on it.
#[derive(Clone, Debug)]
pub struct MountedDisk {
    pub name: String,
    pub available_bytes: u64,
}

/// The media that a list of external disks gives, behind the internal
/// disk.
pub open spec fn external_media(disks: Seq<MountedDisk>) -> Seq<StorageMediaView>
    decreases disks.len(),
{
    if disks.len() == 0 {
        Seq::empty()
    } else {
        let rest = external_media(disks.drop_last());
        if disks.last().name@ == HIDDEN_PARTITION@ {
            rest
        } else {
            rest.push(StorageMediaView { id: disks.last().name@, free: megabytes(disks.last().available_bytes) })
        }
    }
}

/// Free space in megabytes, cut down to 32 bits.
fn to_megabytes(bytes: u64) -> (r: u32)
    ensures
        r == megabytes(bytes),
{
    let whole: u64 = bytes / MEGABYTE;
    let low: u64 = whole % 0x1_0000_0000u64;
    low as u32
}

/// The list of storage media: the internal disk first, then the external
/// disks, mounted below the media directory, in the order in which the
/// system reports them. The hidden system partition is left out.
pub fn list_devices(internal_available_bytes: u64, externals: &Vec<MountedDisk>) -> (r: Vec<StorageMedia>)
    ensures
        media_views(r@) == seq![
            StorageMediaView { id: INTERNAL@, free: megabytes(internal_available_bytes) },
        ] + external_media(externals@),
{
    let mut out: Vec<StorageMedia> = Vec::new();
    out.push(StorageMedia { id: owned(INTERNAL), free: to_megabytes(internal_available_bytes) });
    let ghost head = seq![StorageMediaView { id: INTERNAL@, free: megabytes(internal_available_bytes) }];
    assert(media_views(out@) =~= head + external_media(externals@.take(0)));
    let mut i: usize = 0;
    while i < externals.len()
        invariant
            i <= externals.len(),
            head == seq![StorageMediaView { id: INTERNAL@, free: megabytes(internal_available_bytes) }],
            media_views(out@) == head + external_media(externals@.take(i as int)),
        decreases externals.len() - i,
    {
        proof {
            let next = externals@.take(i as int + 1);
            assert(next.drop_last() == externals@.take(i as int));
            assert(next.last() == externals@[i as int]);
        }
        let ghost prev = media_views(out@);
        if !same_text(externals[i].name.as_str(), HIDDEN_PARTITION) {
            let medium = StorageMedia {
                id: externals[i].name.clone(),
                free: to_megabytes(externals[i].available_bytes),
            };
            out.push(medium);
            assert(media_views(out@) =~= prev.push(medium@));
        }
        assert(media_views(out@) =~= head + external_media(externals@.take(i as int + 1)));
        i = i + 1;
    }
    proof {
        assert(externals@.take(externals.len() as int) == externals@);
    }
    out
}

/// The directory below which external media are mounted: `/media` if
/// anything is mounted there, else the user's directory below
/// `/run/media` if there is one, else `/run/media`.
pub fn external_media_base(media_is_empty: bool, user_dir_exists: bool, username: &str) -> (r: String)
    ensures
        r@ == if !media_is_empty {
            "/media"@
        } else if user_dir_exists {
            "/run/media/"@ + username@
        } else {
            "/run/media"@
        },
{
    if !media_is_empty {
        owned("/media")
    } else if user_dir_exists {
        crate::text::concat2("/run/media/", username)
    } else {
        owned("/run/media")
    }
}

/// A copy of a medium.
fn duplicate(m: &StorageMedia) -> (r: StorageMedia)
    ensures
        r@ == m@,
{
    StorageMedia { id: m.id.clone(), free: m.free }
}

/// The place of the first medium of this id, or the length of the list.
fn find_media(list: &Vec<StorageMedia>, id: &str) -> (r: usize)
    ensures
        r == media_pos(media_views(list@), id@),
        r <= list@.len(),
{
    let ghost p = |m: StorageMediaView| m.id == id@;
    let ghost all = media_views(list@);
    let mut i: usize = 0;
    while i < list.len() && !same_text(list[i].id.as_str(), id)
        invariant
            i <= list.len(),
            all == media_views(list@),
            forall|m: StorageMediaView| #[trigger] p(m) == (m.id == id@),
            forall|k: int| 0 <= k < i ==> !p(#[trigger] all[k]),
        decreases list.len() - i,
    {
        assert(all[i as int].id == list@[i as int].id@);
        i = i + 1;
    }
    proof {
        if i < list.len() {
            assert(all[i as int].id == list@[i as int].id@);
        }
        lemma_first_where_is(all, p, i as int);
    }
    i
}

/// Whether the two lists hold media of the same ids in the same order.
fn ids_match(a: &Vec<StorageMedia>, b: &Vec<StorageMedia>) -> (r: bool)
    ensures
        r == same_ids(media_views(a@), media_views(b@)),
{
    if a.len() != b.len() {
        return false;
    }
    let mut i: usize = 0;
    while i < a.len()
        invariant
            i <= a.len(),
            a.len() == b.len(),
            forall|k: int| 0 <= k < i ==> (#[trigger] media_views(a@)[k]).id == media_views(b@)[k].id,
        decreases a.len() - i,
    {
        if !same_text(a[i].id.as_str(), b[i].id.as_str()) {
            assert(media_views(a@)[i as int].id != media_views(b@)[i as int].id);
            return false;
        }
        i = i + 1;
    }
    true
}

impl StorageMediaState {
    /// No media.
    pub fn new() -> (r: StorageMediaState)
        ensures
            r.all_media@.len() == 0,
            r.media@.len() == 0,
            r.selected == 0,
            !r.needs_memory_refresh,
    {
        StorageMediaState { all_media: Vec::new(), media: Vec::new(), selected: 0, needs_memory_refresh: false }
    }

    /// The free space of the usable media after a refresh that found the
    /// same media as before: each takes the free space that the new list
    /// reports under its id.
    pub open spec fn refreshed_free(
        media: Seq<StorageMediaView>,
        found: Seq<StorageMediaView>,
    ) -> Seq<StorageMediaView> {
        Seq::new(
            media.len(),
            |i: int|
                {
                    let at = media_pos(found, media[i].id);
                    if at < found.len() {
                        StorageMediaView { id: media[i].id, free: found[at].free }
                    } else {
                        media[i]
                    }
                },
        )
    }

    /// The place of the medium that was selected, in the new list of
    /// usable media; the first place where it is gone.
    pub open spec fn kept_selection(&self, usable_now: Seq<StorageMediaView>) -> int {
        if self.selected < self.media@.len() {
            let at = media_pos(usable_now, self.media@[self.selected as int].id@);
            if at < usable_now.len() {
                at
            } else {
                0
            }
        } else {
            0
        }
    }

    /// Takes the media that the system reports now; `usable` says of each
    /// whether saves can be kept on it. Where the media are those of
    /// before, only the free space is brought up to date. Else the usable
    /// media are chosen anew, the selected medium stays selected if it is
    /// still there, and the saves are to be read again.
    pub fn update_media(&mut self, found: Vec<StorageMedia>, usable: &Vec<bool>)
        ensures
            media_views(final(self).all_media@) == media_views(found@),
            if same_ids(media_views(old(self).all_media@), media_views(found@)) {
                &&& media_views(final(self).media@) == Self::refreshed_free(
                    media_views(old(self).media@),
                    media_views(found@),
                )
                &&& final(self).selected == old(self).selected
                &&& final(self).needs_memory_refresh == old(self).needs_memory_refresh
            } else {
                &&& media_views(final(self).media@) == usable_media(media_views(found@), usable@)
                &&& final(self).selected == old(self).kept_selection(usable_media(media_views(found@), usable@))
                &&& final(self).needs_memory_refresh
            },
    {
        if ids_match(&self.all_media, &found) {
            let ghost before = media_views(self.media@);
            let ghost now = media_views(found@);
            let mut i: usize = 0;
            while i < self.media.len()
                invariant
                    i <= self.media.len(),
                    self.media@.len() == before.len(),
                    now == media_views(found@),
                    self.selected == old(self).selected,
                    self.needs_memory_refresh == old(self).needs_memory_refresh,
                    forall|k: int|
                        0 <= k < i ==> #[trigger] media_views(self.media@)[k] == Self::refreshed_free(before, now)[k],
                    forall|k: int| i <= k < before.len() ==> #[trigger] media_views(self.media@)[k] == before[k],
                decreases self.media.len() - i,
            {
                let at = find_media(&found, self.media[i].id.as_str());
                let ghost prev = media_views(self.media@);
                assert(prev[i as int] == before[i as int]);
                assert(prev[i as int] == self.media@[i as int]@);
                if at < found.len() {
                    let free: u32 = found[at].free;
                    assert(now[at as int] == found@[at as int]@);
                    self.media[i].free = free;
                }
                proof {
                    let cur = media_views(self.media@);
                    assert(cur[i as int] == self.media@[i as int]@);
                    assert(cur[i as int] == Self::refreshed_free(before, now)[i as int]);
                    assert forall|k: int| 0 <= k < cur.len() && k != i implies #[trigger] cur[k] == prev[k] by {
                        assert(cur[k] == self.media@[k]@);
                        assert(prev[k] == cur[k]);
                    }
                }
                i = i + 1;
            }
            assert(media_views(self.media@) =~= Self::refreshed_free(before, now));
            self.all_media = found;
        } else {
            let ghost now = media_views(found@);
            let mut chosen: Vec<StorageMedia> = Vec::new();
            let mut i: usize = 0;
            assert(media_views(chosen@) =~= usable_media(now.take(0), usable@));
            while i < found.len()
                invariant
                    i <= found.len(),
                    now == media_views(found@),
                    media_views(chosen@) == usable_media(now.take(i as int), usable@),
                decreases found.len() - i,
            {
                proof {
                    let next = now.take(i as int + 1);
                    assert(next.drop_last() == now.take(i as int));
                    assert(next.last() == found@[i as int]@);
                }
                if i < usable.len() && usable[i] {
                    chosen.push(duplicate(&found[i]));
                }
                assert(media_views(chosen@) =~= usable_media(now.take(i as int + 1), usable@));
                i = i + 1;
            }
            proof {
                assert(now.take(found.len() as int) == now);
            }
            let mut position: usize = 0;
            if self.selected < self.media.len() {
                let at = find_media(&chosen, self.media[self.selected].id.as_str());
                if at < chosen.len() {
                    position = at;
                }
            }
            self.all_media = found;
            self.media = chosen;
            self.selected = position;
            self.needs_memory_refresh = true;
        }
    }
}

} // verus!
