//! Which entries the overlay's main menu shows, and in what order.

use vstd::prelude::*;
use crate::text::same_text;

verus! {

/// An entry of the main menu.
#[derive(Clone, Copy, Debug, PartialEq, Eq, Hash, Structural)]
pub enum MenuItemId {
    Controllers,
    Settings,
    Achievements,
    Performance,
    Playtime,
    QuickSave,
    Resume,
    Quit,
}

/// How one entry is set up.
#[derive(Clone, Copy, Debug, PartialEq, Eq, Structural)]
pub struct MenuItemConfig {
    pub id: MenuItemId,
    pub visible: bool,
    pub order: usize,
}

/// The set-up of the whole menu.
#[derive(Clone, Debug)]
pub struct MenuConfig {
    pub items: Vec<MenuItemConfig>,
    pub version: u32,
}

/// Every entry, in the order of a fresh menu.
pub open spec fn all_menu_items() -> Seq<MenuItemId> {
    seq![
        MenuItemId::Controllers,
        MenuItemId::Settings,
        MenuItemId::Achievements,
        MenuItemId::Performance,
        MenuItemId::Playtime,
        MenuItemId::QuickSave,
        MenuItemId::Resume,
        MenuItemId::Quit,
    ]
}

/// `sorted` with `item` put behind every entry whose order is not larger.
pub open spec fn insert_by_order(sorted: Seq<MenuItemConfig>, item: MenuItemConfig) -> Seq<MenuItemConfig>
    decreases sorted.len(),
{
    if sorted.len() == 0 {
        seq![item]
    } else if sorted.last().order <= item.order {
        sorted.push(item)
    } else {
        insert_by_order(sorted.drop_last(), item).push(sorted.last())
    }
}

/// The entries by ascending order; entries of equal order stay as they
/// stood. With `only_visible`, hidden entries are left out.
pub open spec fn ordered(items: Seq<MenuItemConfig>, only_visible: bool) -> Seq<MenuItemConfig>
    decreases items.len(),
{
    if items.len() == 0 {
        Seq::empty()
    } else if !only_visible || items.last().visible {
        insert_by_order(ordered(items.drop_last(), only_visible), items.last())
    } else {
        ordered(items.drop_last(), only_visible)
    }
}

/// The ids of a run of entries.
pub open spec fn ids_of(items: Seq<MenuItemConfig>) -> Seq<MenuItemId> {
    Seq::new(items.len(), |i: int| items[i].id)
}

/// Position of the first entry with this id; the length where none has it.
pub open spec fn first_id_pos(items: Seq<MenuItemConfig>, id: MenuItemId) -> int
    decreases items.len(),
{
    if items.len() == 0 {
        0
    } else if items[0].id == id {
        0
    } else {
        1 + first_id_pos(items.drop_first(), id)
    }
}

/// Position of the first entry with this order; the length where none has it.
pub open spec fn first_order_pos(items: Seq<MenuItemConfig>, order: int) -> int
    decreases items.len(),
{
    if items.len() == 0 {
        0
    } else if items[0].order == order {
        0
    } else {
        1 + first_order_pos(items.drop_first(), order)
    }
}

/// Position of the first occurrence of `id` in a list of ids; the length
/// where it does not occur.
pub open spec fn first_pos(ids: Seq<MenuItemId>, id: MenuItemId) -> int
    decreases ids.len(),
{
    if ids.len() == 0 {
        0
    } else if ids[0] == id {
        0
    } else {
        1 + first_pos(ids.drop_first(), id)
    }
}

/// The entries with the visibility of the first entry named `id` set to
/// `visible`; unchanged where no entry has that id.
pub open spec fn with_visibility(items: Seq<MenuItemConfig>, id: MenuItemId, visible: bool) -> Seq<
    MenuItemConfig,
> {
    let at = first_id_pos(items, id);
    if at < items.len() {
        items.update(at, MenuItemConfig { visible, ..items[at] })
    } else {
        items
    }
}

/// The entries after the first entry named `id` changed places with the
/// first entry whose order is `delta` away from its own. Unchanged where no
/// entry has that id, or none has that order.
pub open spec fn with_swapped_order(items: Seq<MenuItemConfig>, id: MenuItemId, delta: int) -> Seq<
    MenuItemConfig,
> {
    let at = first_id_pos(items, id);
    if at < items.len() {
        let current = items[at].order;
        let wanted = current + delta;
        let other = first_order_pos(items, wanted);
        if other < items.len() {
            items.update(other, MenuItemConfig { order: current, ..items[other] }).update(
                at,
                MenuItemConfig { order: wanted as usize, ..items[at] },
            )
        } else {
            items
        }
    } else {
        items
    }
}

impl MenuItemId {
    /// The name under which the entry is kept in the configuration file.
    pub open spec fn spec_stored_name(self) -> Seq<char> {
        match self {
            MenuItemId::Controllers => "Controllers"@,
            MenuItemId::Settings => "Settings"@,
            MenuItemId::Achievements => "Achievements"@,
            MenuItemId::Performance => "Performance"@,
            MenuItemId::Playtime => "Playtime"@,
            MenuItemId::QuickSave => "QuickSave"@,
            MenuItemId::Resume => "Resume"@,
            MenuItemId::Quit => "Quit"@,
        }
    }

    /// The entry that is kept under a name in the configuration file.
    pub open spec fn spec_from_stored_name(text: Seq<char>) -> Option<MenuItemId> {
        if text == "Controllers"@ {
            Some(MenuItemId::Controllers)
        }         else if text == "Settings"@ {
            Some(MenuItemId::Settings)
        }         else if text == "Achievements"@ {
            Some(MenuItemId::Achievements)
        }         else if text == "Performance"@ {
            Some(MenuItemId::Performance)
        }         else if text == "Playtime"@ {
            Some(MenuItemId::Playtime)
        }         else if text == "QuickSave"@ {
            Some(MenuItemId::QuickSave)
        }         else if text == "Resume"@ {
            Some(MenuItemId::Resume)
        }         else if text == "Quit"@ {
            Some(MenuItemId::Quit)
        } else {
            None
        }
    }

    /// The name under which the entry is kept in the configuration file.
    pub fn stored_name(&self) -> (r: &'static str)
        ensures
            r@ == self.spec_stored_name(),
    {
        match self {
            MenuItemId::Controllers => "Controllers",
            MenuItemId::Settings => "Settings",
            MenuItemId::Achievements => "Achievements",
            MenuItemId::Performance => "Performance",
            MenuItemId::Playtime => "Playtime",
            MenuItemId::QuickSave => "QuickSave",
            MenuItemId::Resume => "Resume",
            MenuItemId::Quit => "Quit",
        }
    }

    /// The entry that is kept under a name in the configuration file.
    pub fn from_stored_name(text: &str) -> (r: Option<MenuItemId>)
        ensures
            r == Self::spec_from_stored_name(text@),
    {
        if same_text(text, "Controllers") {
            Some(MenuItemId::Controllers)
        }         else if same_text(text, "Settings") {
            Some(MenuItemId::Settings)
        }         else if same_text(text, "Achievements") {
            Some(MenuItemId::Achievements)
        }         else if same_text(text, "Performance") {
            Some(MenuItemId::Performance)
        }         else if same_text(text, "Playtime") {
            Some(MenuItemId::Playtime)
        }         else if same_text(text, "QuickSave") {
            Some(MenuItemId::QuickSave)
        }         else if same_text(text, "Resume") {
            Some(MenuItemId::Resume)
        }         else if same_text(text, "Quit") {
            Some(MenuItemId::Quit)
        } else {
            None
        }
    }

    /// Every entry is read back from the name under which it is kept.
    pub proof fn lemma_stored_name_round_trip(id: MenuItemId)
        ensures
            Self::spec_from_stored_name(id.spec_stored_name()) == Some(id),
    {
        reveal_strlit("Controllers");
        reveal_strlit("Settings");
        reveal_strlit("Achievements");
        reveal_strlit("Performance");
        reveal_strlit("Playtime");
        reveal_strlit("QuickSave");
        reveal_strlit("Resume");
        reveal_strlit("Quit");
        assert("Controllers"@.len() == 11);
        assert("Settings"@.len() == 8);
        assert("Achievements"@.len() == 12);
        assert("Performance"@.len() == 11);
        assert("Playtime"@.len() == 8);
        assert("QuickSave"@.len() == 9);
        assert("Resume"@.len() == 6);
        assert("Quit"@.len() == 4);
        assert("Controllers"@[0] == 'C');
        assert("Performance"@[0] == 'P');
        assert("Settings"@[0] == 'S');
        assert("Playtime"@[0] == 'P');
    }

    /// The label of the entry.
    pub open spec fn spec_display_name(self) -> Seq<char> {
        match self {
            MenuItemId::Controllers => "Controllers"@,
            MenuItemId::Settings => "Settings"@,
            MenuItemId::Achievements => "Achievements"@,
            MenuItemId::Performance => "Performance"@,
            MenuItemId::Playtime => "Playtime"@,
            MenuItemId::QuickSave => "Quick Save"@,
            MenuItemId::Resume => "Resume Game"@,
            MenuItemId::Quit => "Quit to BIOS"@,
        }
    }

    /// The label of the entry.
    pub fn display_name(&self) -> (r: &'static str)
        ensures
            r@ == self.spec_display_name(),
    {
        match self {
            MenuItemId::Controllers => "Controllers",
            MenuItemId::Settings => "Settings",
            MenuItemId::Achievements => "Achievements",
            MenuItemId::Performance => "Performance",
            MenuItemId::Playtime => "Playtime",
            MenuItemId::QuickSave => "Quick Save",
            MenuItemId::Resume => "Resume Game",
            MenuItemId::Quit => "Quit to BIOS",
        }
    }

    /// Every entry, in the order of a fresh menu.
    pub fn all() -> (r: Vec<MenuItemId>)
        ensures
            r@ == all_menu_items(),
    {
        let mut v: Vec<MenuItemId> = Vec::new();
        v.push(MenuItemId::Controllers);
        v.push(MenuItemId::Settings);
        v.push(MenuItemId::Achievements);
        v.push(MenuItemId::Performance);
        v.push(MenuItemId::Playtime);
        v.push(MenuItemId::QuickSave);
        v.push(MenuItemId::Resume);
        v.push(MenuItemId::Quit);
        assert(v@ =~= all_menu_items());
        v
    }
}

/// `insert_by_order` puts the entry at the place behind which every entry
/// has a larger order, and before which the neighbour has not.
proof fn lemma_insert_at(sorted: Seq<MenuItemConfig>, item: MenuItemConfig, pos: int)
    requires
        0 <= pos <= sorted.len(),
        forall|k: int| pos <= k < sorted.len() ==> (#[trigger] sorted[k]).order > item.order,
        pos > 0 ==> sorted[pos - 1].order <= item.order,
    ensures
        insert_by_order(sorted, item) == sorted.insert(pos, item),
    decreases sorted.len(),
{
    if sorted.len() == 0 {
        assert(sorted.insert(pos, item) =~= seq![item]);
    } else if pos == sorted.len() {
        assert(sorted.insert(pos, item) =~= sorted.push(item));
    } else {
        let front = sorted.drop_last();
        assert(sorted[sorted.len() - 1].order > item.order);
        assert forall|k: int| pos <= k < front.len() implies (#[trigger] front[k]).order > item.order by {
            assert(front[k] == sorted[k]);
        }
        if pos > 0 {
            assert(front[pos - 1] == sorted[pos - 1]);
        }
        lemma_insert_at(front, item, pos);
        assert(front.insert(pos, item).push(sorted.last()) =~= sorted.insert(pos, item));
    }
}

/// The ordered list is sorted by order and holds each chosen entry once.
pub proof fn lemma_ordered_sorted(items: Seq<MenuItemConfig>, only_visible: bool)
    ensures
        ordered(items, only_visible).len() <= items.len(),
        !only_visible ==> ordered(items, only_visible).len() == items.len(),
        forall|j: int, k: int|
            0 <= j < k < ordered(items, only_visible).len() ==> (#[trigger] ordered(
                items,
                only_visible,
            )[j]).order <= (#[trigger] ordered(items, only_visible)[k]).order,
        forall|k: int|
            0 <= k < ordered(items, only_visible).len() ==> items.contains(
                #[trigger] ordered(items, only_visible)[k],
            ) && (only_visible ==> ordered(items, only_visible)[k].visible),
    decreases items.len(),
{
    if items.len() > 0 {
        let front = items.drop_last();
        let rest = ordered(front, only_visible);
        lemma_ordered_sorted(front, only_visible);
        assert forall|k: int| 0 <= k < rest.len() implies items.contains(#[trigger] rest[k]) by {
            assert(front.contains(rest[k]));
            let w = choose|w: int| 0 <= w < front.len() && front[w] == rest[k];
            assert(items[w] == rest[k]);
        }
        if !only_visible || items.last().visible {
            lemma_insert_sorted(rest, items.last());
            let out = insert_by_order(rest, items.last());
            assert(items[items.len() - 1] == items.last());
            assert forall|k: int| 0 <= k < out.len() implies items.contains(#[trigger] out[k]) && (only_visible
                ==> out[k].visible) by {
                assert(out[k] == items.last() || rest.contains(out[k]));
                if rest.contains(out[k]) {
                    let w = choose|w: int| 0 <= w < rest.len() && rest[w] == out[k];
                    assert(items.contains(rest[w]));
                }
            }
        }
    }
}

/// Inserting into a list loses nothing: the list then holds the new entry
/// and every entry that it held before.
proof fn lemma_insert_keeps(sorted: Seq<MenuItemConfig>, item: MenuItemConfig)
    ensures
        insert_by_order(sorted, item).contains(item),
        forall|k: int| 0 <= k < sorted.len() ==> insert_by_order(sorted, item).contains(#[trigger] sorted[k]),
    decreases sorted.len(),
{
    let out = insert_by_order(sorted, item);
    if sorted.len() == 0 {
        assert(out[0] == item);
    } else if sorted.last().order <= item.order {
        assert(out[out.len() - 1] == item);
        assert forall|k: int| 0 <= k < sorted.len() implies out.contains(#[trigger] sorted[k]) by {
            assert(out[k] == sorted[k]);
        }
    } else {
        let front = sorted.drop_last();
        let inner = insert_by_order(front, item);
        lemma_insert_keeps(front, item);
        let w = choose|w: int| 0 <= w < inner.len() && inner[w] == item;
        assert(out[w] == item);
        assert forall|k: int| 0 <= k < sorted.len() implies out.contains(#[trigger] sorted[k]) by {
            if k < front.len() {
                assert(front[k] == sorted[k]);
                assert(inner.contains(front[k]));
                let v = choose|v: int| 0 <= v < inner.len() && inner[v] == front[k];
                assert(out[v] == sorted[k]);
            } else {
                assert(out[out.len() - 1] == sorted[k]);
            }
        }
    }
}

/// The ordered list leaves out no entry that is chosen: every entry of the
/// menu is in the list of all entries, and every visible entry in the
/// list of the visible ones.
pub proof fn lemma_ordered_complete(items: Seq<MenuItemConfig>, only_visible: bool)
    ensures
        forall|i: int|
            0 <= i < items.len() && (!only_visible || (#[trigger] items[i]).visible) ==> ordered(
                items,
                only_visible,
            ).contains(items[i]),
    decreases items.len(),
{
    if items.len() > 0 {
        let front = items.drop_last();
        let rest = ordered(front, only_visible);
        let out = ordered(items, only_visible);
        lemma_ordered_complete(front, only_visible);
        if !only_visible || items.last().visible {
            lemma_insert_keeps(rest, items.last());
        }
        assert forall|i: int| 0 <= i < items.len() && (!only_visible || (#[trigger] items[i]).visible) implies out.contains(
            items[i],
        ) by {
            if i < front.len() {
                assert(front[i] == items[i]);
                assert(rest.contains(front[i]));
                if !only_visible || items.last().visible {
                    let w = choose|w: int| 0 <= w < rest.len() && rest[w] == front[i];
                    assert(out.contains(rest[w]));
                }
            }
        }
    }
}

/// `first_pos` finds the first place at which `id` stands, if there is one.
pub proof fn lemma_first_pos_range(ids: Seq<MenuItemId>, id: MenuItemId)
    ensures
        0 <= first_pos(ids, id) <= ids.len(),
        first_pos(ids, id) < ids.len() ==> ids[first_pos(ids, id)] == id,
        forall|k: int| 0 <= k < first_pos(ids, id) ==> #[trigger] ids[k] != id,
    decreases ids.len(),
{
    if ids.len() > 0 && ids[0] != id {
        let rest = ids.drop_first();
        lemma_first_pos_range(rest, id);
        assert forall|k: int| 0 <= k < first_pos(ids, id) implies #[trigger] ids[k] != id by {
            if k > 0 {
                assert(rest[k - 1] == ids[k]);
            }
        }
    }
}

/// The menu never shows more entries than it has, and it has no more than
/// a vector can hold.
pub proof fn lemma_visible_rows_bounded(config: MenuConfig)
    ensures
        config.visible_ids().len() <= config.items@.len() <= usize::MAX,
{
    lemma_ordered_sorted(config.items@, true);
    assert(config.items.len() == config.items@.len());
}

/// Inserting into a sorted list leaves it sorted, one longer, and made of
/// the old entries and the new one.
proof fn lemma_insert_sorted(sorted: Seq<MenuItemConfig>, item: MenuItemConfig)
    requires
        forall|j: int, k: int|
            0 <= j < k < sorted.len() ==> (#[trigger] sorted[j]).order <= (#[trigger] sorted[k]).order,
    ensures
        insert_by_order(sorted, item).len() == sorted.len() + 1,
        forall|j: int, k: int|
            0 <= j < k < insert_by_order(sorted, item).len() ==> (#[trigger] insert_by_order(
                sorted,
                item,
            )[j]).order <= (#[trigger] insert_by_order(sorted, item)[k]).order,
        forall|k: int|
            0 <= k < insert_by_order(sorted, item).len() ==> (#[trigger] insert_by_order(sorted, item)[k])
                == item || sorted.contains(insert_by_order(sorted, item)[k]),
    decreases sorted.len(),
{
    if sorted.len() > 0 && sorted.last().order > item.order {
        let front = sorted.drop_last();
        lemma_insert_sorted(front, item);
        let inner = insert_by_order(front, item);
        let out = inner.push(sorted.last());
        assert forall|k: int| 0 <= k < out.len() implies (#[trigger] out[k]) == item || sorted.contains(
            out[k],
        ) by {
            if k < inner.len() {
                if inner[k] != item {
                    assert(front.contains(inner[k]));
                    let w = choose|w: int| 0 <= w < front.len() && front[w] == inner[k];
                    assert(sorted[w] == inner[k]);
                }
            } else {
                assert(sorted[sorted.len() - 1] == out[k]);
            }
        }
        assert forall|j: int, k: int| 0 <= j < k < out.len() implies (#[trigger] out[j]).order <= (
        #[trigger] out[k]).order by {
            if k == out.len() - 1 {
                if inner[j] != item {
                    assert(front.contains(inner[j]));
                    let w = choose|w: int| 0 <= w < front.len() && front[w] == inner[j];
                    assert(sorted[w].order <= sorted[sorted.len() - 1].order);
                }
            }
        }
    } else {
        let out = sorted.push(item);
        assert forall|k: int| 0 <= k < out.len() implies (#[trigger] out[k]) == item || sorted.contains(
            out[k],
        ) by {
            if k < sorted.len() {
                assert(sorted[k] == out[k]);
            }
        }
        assert forall|j: int, k: int| 0 <= j < k < out.len() implies (#[trigger] out[j]).order <= (
        #[trigger] out[k]).order by {
            if k == out.len() - 1 && sorted.len() > 0 {
                assert(sorted[j].order <= sorted[sorted.len() - 1].order);
            }
        }
    }
}

impl MenuConfig {
    /// The entries that the menu shows, top to bottom.
    pub open spec fn visible_ids(&self) -> Seq<MenuItemId> {
        ids_of(ordered(self.items@, true))
    }

    /// All entries, hidden ones too, top to bottom.
    pub open spec fn all_ids(&self) -> Seq<MenuItemId> {
        ids_of(ordered(self.items@, false))
    }

    /// The set-up of a fresh menu: every entry visible, in the order of
    /// [`all_menu_items`].
    pub open spec fn is_default(&self) -> bool {
        &&& self.version == 1
        &&& self.items@.len() == 8
        &&& forall|i: int|
            0 <= i < 8 ==> #[trigger] self.items@[i] == (MenuItemConfig {
                id: all_menu_items()[i],
                visible: true,
                order: i as usize,
            })
    }

    /// The set-up of a fresh menu.
    pub fn default_config() -> (r: MenuConfig)
        ensures
            r.is_default(),
    {
        let ids = MenuItemId::all();
        let mut items: Vec<MenuItemConfig> = Vec::new();
        let mut i: usize = 0;
        while i < ids.len()
            invariant
                i <= ids.len(),
                ids@ == all_menu_items(),
                items@.len() == i,
                forall|k: int|
                    0 <= k < i ==> #[trigger] items@[k] == (MenuItemConfig {
                        id: all_menu_items()[k],
                        visible: true,
                        order: k as usize,
                    }),
            decreases ids.len() - i,
        {
            items.push(MenuItemConfig { id: ids[i], visible: true, order: i });
            i = i + 1;
        }
        MenuConfig { items, version: 1 }
    }

    /// The entries by ascending order, hidden ones left out on demand.
    fn ordered_items(&self, only_visible: bool) -> (r: Vec<MenuItemConfig>)
        ensures
            r@ == ordered(self.items@, only_visible),
    {
        let mut sorted: Vec<MenuItemConfig> = Vec::new();
        let mut i: usize = 0;
        while i < self.items.len()
            invariant
                i <= self.items.len(),
                sorted@ == ordered(self.items@.take(i as int), only_visible),
            decreases self.items.len() - i,
        {
            let item = self.items[i];
            proof {
                let next = self.items@.take(i as int + 1);
                assert(next.drop_last() == self.items@.take(i as int));
                assert(next.last() == item);
            }
            if !only_visible || item.visible {
                let mut pos: usize = sorted.len();
                while pos > 0 && sorted[pos - 1].order > item.order
                    invariant
                        pos <= sorted.len(),
                        forall|k: int| pos <= k < sorted.len() ==> (#[trigger] sorted@[k]).order > item.order,
                    decreases pos,
                {
                    pos = pos - 1;
                }
                proof {
                    lemma_insert_at(sorted@, item, pos as int);
                }
                sorted.insert(pos, item);
            }
            i = i + 1;
        }
        proof {
            assert(self.items@.take(self.items.len() as int) == self.items@);
        }
        sorted
    }

    /// The ids of a list of entries.
    fn ids(items: &Vec<MenuItemConfig>) -> (r: Vec<MenuItemId>)
        ensures
            r@ == ids_of(items@),
    {
        let mut out: Vec<MenuItemId> = Vec::new();
        let mut i: usize = 0;
        while i < items.len()
            invariant
                i <= items.len(),
                out@.len() == i,
                forall|k: int| 0 <= k < i ==> out@[k] == items@[k].id,
            decreases items.len() - i,
        {
            out.push(items[i].id);
            i = i + 1;
        }
        assert(out@ =~= ids_of(items@));
        out
    }

    /// The entries that the menu shows, top to bottom.
    pub fn get_visible_items(&self) -> (r: Vec<MenuItemId>)
        ensures
            r@ == self.visible_ids(),
    {
        let sorted = self.ordered_items(true);
        Self::ids(&sorted)
    }

    /// All entries, hidden ones too, top to bottom.
    pub fn get_all_items(&self) -> (r: Vec<MenuItemId>)
        ensures
            r@ == self.all_ids(),
    {
        let sorted = self.ordered_items(false);
        Self::ids(&sorted)
    }

    /// Position of the first entry named `id`, or the number of entries.
    fn find_id(&self, id: MenuItemId) -> (r: usize)
        ensures
            r == first_id_pos(self.items@, id),
            r <= self.items@.len(),
            r < self.items@.len() ==> self.items@[r as int].id == id,
    {
        let mut i: usize = 0;
        assert(self.items@.skip(0) == self.items@);
        while i < self.items.len() && self.items[i].id != id
            invariant
                i <= self.items.len(),
                first_id_pos(self.items@, id) == i + first_id_pos(self.items@.skip(i as int), id),
            decreases self.items.len() - i,
        {
            proof {
                assert(self.items@.skip(i as int).drop_first() == self.items@.skip(i as int + 1));
                assert(self.items@.skip(i as int)[0] == self.items@[i as int]);
            }
            i = i + 1;
        }
        proof {
            if i < self.items.len() {
                assert(self.items@.skip(i as int)[0] == self.items@[i as int]);
            }
        }
        i
    }

    /// Position of the first entry with this order, or the number of entries.
    fn find_order(&self, order: usize) -> (r: usize)
        ensures
            r == first_order_pos(self.items@, order as int),
            r <= self.items@.len(),
            r < self.items@.len() ==> self.items@[r as int].order == order,
    {
        let mut i: usize = 0;
        assert(self.items@.skip(0) == self.items@);
        while i < self.items.len() && self.items[i].order != order
            invariant
                i <= self.items.len(),
                first_order_pos(self.items@, order as int) == i + first_order_pos(
                    self.items@.skip(i as int),
                    order as int,
                ),
            decreases self.items.len() - i,
        {
            proof {
                assert(self.items@.skip(i as int).drop_first() == self.items@.skip(i as int + 1));
                assert(self.items@.skip(i as int)[0] == self.items@[i as int]);
            }
            i = i + 1;
        }
        proof {
            if i < self.items.len() {
                assert(self.items@.skip(i as int)[0] == self.items@[i as int]);
            }
        }
        i
    }

    /// Shows the first entry named `id` if it was hidden, hides it if it
    /// was shown.
    pub fn toggle_visibility(&mut self, id: MenuItemId)
        ensures
            final(self).version == old(self).version,
            ({
                let at = first_id_pos(old(self).items@, id);
                final(self).items@ == with_visibility(
                    old(self).items@,
                    id,
                    at < old(self).items@.len() && !old(self).items@[at].visible,
                )
            }),
    {
        let at = self.find_id(id);
        if at < self.items.len() {
            let item = self.items[at];
            self.items.set(at, MenuItemConfig { id: item.id, visible: !item.visible, order: item.order });
        }
    }

    /// Shows or hides the first entry named `id`.
    pub fn set_visibility(&mut self, id: MenuItemId, visible: bool)
        ensures
            final(self).version == old(self).version,
            final(self).items@ == with_visibility(old(self).items@, id, visible),
    {
        let at = self.find_id(id);
        if at < self.items.len() {
            let item = self.items[at];
            self.items.set(at, MenuItemConfig { id: item.id, visible, order: item.order });
        }
    }

    /// Moves the first entry named `id` one place up: it changes order with
    /// the first entry whose order is one less. Nothing changes for an
    /// entry of order zero.
    pub fn move_up(&mut self, id: MenuItemId)
        ensures
            final(self).version == old(self).version,
            ({
                let at = first_id_pos(old(self).items@, id);
                final(self).items@ == if at < old(self).items@.len() && old(self).items@[at].order > 0 {
                    with_swapped_order(old(self).items@, id, -1)
                } else {
                    old(self).items@
                }
            }),
    {
        let at = self.find_id(id);
        if at < self.items.len() {
            let item = self.items[at];
            if item.order > 0 {
                let other = self.find_order(item.order - 1);
                if other < self.items.len() {
                    let neighbour = self.items[other];
                    self.items.set(
                        other,
                        MenuItemConfig { id: neighbour.id, visible: neighbour.visible, order: item.order },
                    );
                    self.items.set(at, MenuItemConfig { id: item.id, visible: item.visible, order: item.order - 1 });
                }
            }
        }
    }

    /// Moves the first entry named `id` one place down: it changes order
    /// with the first entry whose order is one more. Nothing changes for an
    /// entry whose order is the number of entries less one, or more.
    pub fn move_down(&mut self, id: MenuItemId)
        ensures
            final(self).version == old(self).version,
            ({
                let at = first_id_pos(old(self).items@, id);
                final(self).items@ == if at < old(self).items@.len() && old(self).items@[at].order + 1
                    < old(self).items@.len() {
                    with_swapped_order(old(self).items@, id, 1)
                } else {
                    old(self).items@
                }
            }),
    {
        let at = self.find_id(id);
        if at < self.items.len() {
            let item = self.items[at];
            let max_order: usize = self.items.len() - 1;
            if item.order < max_order {
                let other = self.find_order(item.order + 1);
                if other < self.items.len() {
                    let neighbour = self.items[other];
                    self.items.set(
                        other,
                        MenuItemConfig { id: neighbour.id, visible: neighbour.visible, order: item.order },
                    );
                    self.items.set(at, MenuItemConfig { id: item.id, visible: item.visible, order: item.order + 1 });
                }
            }
        }
    }

    /// Place of `id` among the entries that the menu shows.
    pub fn get_visible_index(&self, id: MenuItemId) -> (r: Option<usize>)
        ensures
            r == if first_pos(self.visible_ids(), id) < self.visible_ids().len() {
                Some(first_pos(self.visible_ids(), id) as usize)
            } else {
                None
            },
            r matches Some(i) ==> i == first_pos(self.visible_ids(), id) && i < self.visible_ids().len()
                && self.visible_ids()[i as int] == id,
    {
        let shown = self.get_visible_items();
        let mut i: usize = 0;
        assert(shown@.skip(0) == shown@);
        while i < shown.len() && shown[i] != id
            invariant
                i <= shown.len(),
                first_pos(shown@, id) == i + first_pos(shown@.skip(i as int), id),
            decreases shown.len() - i,
        {
            proof {
                assert(shown@.skip(i as int).drop_first() == shown@.skip(i as int + 1));
                assert(shown@.skip(i as int)[0] == shown@[i as int]);
            }
            i = i + 1;
        }
        proof {
            if i < shown.len() {
                assert(shown@.skip(i as int)[0] == shown@[i as int]);
            }
        }
        if i < shown.len() {
            Some(i)
        } else {
            None
        }
    }

    /// The entry at a place among those that the menu shows.
    pub fn get_item_by_visible_index(&self, index: usize) -> (r: Option<MenuItemId>)
        ensures
            r == if index < self.visible_ids().len() {
                Some(self.visible_ids()[index as int])
            } else {
                None
            },
    {
        let shown = self.get_visible_items();
        if index < shown.len() {
            Some(shown[index])
        } else {
            None
        }
    }
}

impl Default for MenuConfig {
    fn default() -> (r: MenuConfig)
        ensures
            r.is_default(),
    {
        MenuConfig::default_config()
    }
}

/// The menu set-up together with the place where it is kept.
#[derive(Debug)]
pub struct MenuConfigManager {
    config: MenuConfig,
    config_path: String,
}

impl MenuConfigManager {
    /// The set-up that the manager holds.
    pub closed spec fn spec_config(&self) -> MenuConfig {
        self.config
    }

    /// Where the set-up is kept.
    pub closed spec fn spec_path(&self) -> Seq<char> {
        self.config_path@
    }

    /// A manager for the file at `config_path`: it holds what was read
    /// from the file, or the set-up of a fresh menu where nothing was.
    /// The second result says whether that fresh set-up is to be written.
    pub fn from_loaded(config_path: String, loaded: Option<MenuConfig>) -> (r: (MenuConfigManager, bool))
        ensures
            r.0.spec_path() == config_path@,
            r.1 == (loaded is None),
            match loaded {
                Some(c) => r.0.spec_config() == c,
                None => r.0.spec_config().is_default(),
            },
    {
        match loaded {
            Some(config) => (MenuConfigManager { config, config_path }, false),
            None => (MenuConfigManager { config: MenuConfig::default_config(), config_path }, true),
        }
    }

    /// The set-up.
    pub fn config(&self) -> (r: &MenuConfig)
        ensures
            *r == self.spec_config(),
    {
        &self.config
    }

    /// The set-up, to be changed in place.
    pub fn config_mut(&mut self) -> (r: &mut MenuConfig)
        ensures
            *r == old(self).spec_config(),
            final(self).spec_config() == *final(r),
            final(self).spec_path() == old(self).spec_path(),
    {
        &mut self.config
    }

    /// Where the set-up is kept.
    pub fn config_path(&self) -> (r: &str)
        ensures
            r@ == self.spec_path(),
    {
        self.config_path.as_str()
    }
}

} // verus!
