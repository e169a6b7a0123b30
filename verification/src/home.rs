//! The provider-neutral projection of the Home screen: shelves of cards,
//! the recently played tracks first and then the provider's own sections in
//! the order the provider sent them, plus the spatial navigation over them.

use vstd::prelude::*;
use vstd::arithmetic::div_mod::lemma_fundamental_div_mod_converse;
use crate::models::{
    CollectionKind, HomeSection, HomeSectionView, Playlist, PlaylistView, Track, TrackView,
    sections_view, tracks_view,
};
use crate::text::{chars_eq, chars_of, copy_opt_string, copy_string, opt_view, push_char, push_str, string_from};

verus! {

/// A stable identity for a Home card: `provider:kind:id`.
#[derive(Debug, Clone, PartialEq, Eq, Hash)]
pub struct HomeKey(String);

/// The characters of the key built from its three parts.
pub open spec fn key_seq(provider: Seq<char>, kind: Seq<char>, id: Seq<char>) -> Seq<char> {
    provider + seq![':'] + kind + seq![':'] + id
}

impl View for HomeKey {
    type V = Seq<char>;

    closed spec fn view(&self) -> Seq<char> {
        self.0@
    }
}

impl HomeKey {
    /// The key `provider:kind:id`.
    pub fn new(provider: &str, kind: &str, id: &str) -> (r: HomeKey)
        ensures
            r@ == key_seq(provider@, kind@, id@),
    {
        let mut s = string_from(provider);
        push_char(&mut s, ':');
        push_str(&mut s, kind);
        push_char(&mut s, ':');
        push_str(&mut s, id);
        HomeKey(s)
    }

    /// Whether two keys are equal.
    pub fn same(&self, other: &HomeKey) -> (r: bool)
        ensures
            r == (self@ == other@),
    {
        let a = chars_of(self.0.as_str());
        let b = chars_of(other.0.as_str());
        chars_eq(&a, &b)
    }

    /// A copy of this key.
    pub fn duplicate(&self) -> (r: HomeKey)
        ensures
            r@ == self@,
    {
        HomeKey(copy_string(&self.0))
    }
}

/// What a Home card stands for.
#[derive(Debug, Clone, Copy, PartialEq, Eq, Structural)]
pub enum HomeCardKind {
    Track,
    Album,
    Playlist,
}

/// A direction of spatial navigation on the Home grid.
#[derive(Debug, Clone, Copy, PartialEq, Eq, Structural)]
pub enum HomeDirection {
    Left,
    Right,
    Up,
    Down,
}

/// What opening a card does: play a track, or open a collection.
#[derive(Debug, Clone)]
pub enum HomeCardPayload {
    Track(Track),
    Collection(Playlist),
}

/// The content of a [`HomeCardPayload`].
pub enum PayloadView {
    Track(TrackView),
    Collection(PlaylistView),
}

impl View for HomeCardPayload {
    type V = PayloadView;

    open spec fn view(&self) -> PayloadView {
        match self {
            HomeCardPayload::Track(t) => PayloadView::Track(t@),
            HomeCardPayload::Collection(p) => PayloadView::Collection(p@),
        }
    }
}

/// One card of the Home grid.
#[derive(Debug, Clone)]
pub struct HomeCard {
    pub key: HomeKey,
    pub kind: HomeCardKind,
    pub title: String,
    pub subtitle: String,
    pub duration: String,
    pub artwork_url: Option<String>,
    pub provider: String,
    pub payload: HomeCardPayload,
}

/// The content of a [`HomeCard`].
pub struct HomeCardView {
    pub key: Seq<char>,
    pub kind: HomeCardKind,
    pub title: Seq<char>,
    pub subtitle: Seq<char>,
    pub duration: Seq<char>,
    pub artwork_url: Option<Seq<char>>,
    pub provider: Seq<char>,
    pub payload: PayloadView,
}

impl View for HomeCard {
    type V = HomeCardView;

    open spec fn view(&self) -> HomeCardView {
        HomeCardView {
            key: self.key@,
            kind: self.kind,
            title: self.title@,
            subtitle: self.subtitle@,
            duration: self.duration@,
            artwork_url: opt_view(self.artwork_url),
            provider: self.provider@,
            payload: self.payload@,
        }
    }
}

impl HomeCard {
    /// A copy of this card with the same content.
    pub fn duplicate(&self) -> (r: HomeCard)
        ensures
            r@ == self@,
    {
        HomeCard {
            key: self.key.duplicate(),
            kind: self.kind,
            title: copy_string(&self.title),
            subtitle: copy_string(&self.subtitle),
            duration: copy_string(&self.duration),
            artwork_url: copy_opt_string(&self.artwork_url),
            provider: copy_string(&self.provider),
            payload: match &self.payload {
                HomeCardPayload::Track(t) => HomeCardPayload::Track(t.duplicate()),
                HomeCardPayload::Collection(p) => HomeCardPayload::Collection(p.duplicate()),
            },
        }
    }
}

/// A titled row of cards.
#[derive(Debug, Clone)]
pub struct HomeShelf {
    pub title: String,
    pub cards: Vec<HomeCard>,
}

/// The content of a [`HomeShelf`].
pub struct HomeShelfView {
    pub title: Seq<char>,
    pub cards: Seq<HomeCardView>,
}

impl View for HomeShelf {
    type V = HomeShelfView;

    open spec fn view(&self) -> HomeShelfView {
        HomeShelfView { title: self.title@, cards: self.cards@.map_values(|c: HomeCard| c@) }
    }
}

/// The whole Home screen.
#[derive(Debug, Clone, Default)]
pub struct HomeView {
    pub shelves: Vec<HomeShelf>,
}

impl View for HomeView {
    type V = Seq<HomeShelfView>;

    open spec fn view(&self) -> Seq<HomeShelfView> {
        self.shelves@.map_values(|s: HomeShelf| s@)
    }
}

/// The card standing for a recently played track.
pub open spec fn track_card(provider: Seq<char>, t: TrackView) -> HomeCardView {
    HomeCardView {
        key: key_seq("local"@, "track"@, t.video_id),
        kind: HomeCardKind::Track,
        title: t.title,
        subtitle: t.artist,
        duration: t.duration,
        artwork_url: t.thumbnail,
        provider: provider,
        payload: PayloadView::Track(t),
    }
}

/// The card kind of a collection.
pub open spec fn collection_kind(k: CollectionKind) -> HomeCardKind {
    match k {
        CollectionKind::Album => HomeCardKind::Album,
        CollectionKind::Playlist => HomeCardKind::Playlist,
    }
}

/// The card standing for a provider collection.
pub open spec fn collection_card(provider: Seq<char>, p: PlaylistView) -> HomeCardView {
    HomeCardView {
        key: key_seq(provider, "collection"@, p.browse_id),
        kind: collection_kind(p.kind),
        title: p.title,
        subtitle: p.subtitle,
        duration: Seq::empty(),
        artwork_url: p.thumbnail,
        provider: provider,
        payload: PayloadView::Collection(p),
    }
}

/// The shelf standing for a provider section.
pub open spec fn section_shelf(provider: Seq<char>, s: HomeSectionView) -> HomeShelfView {
    HomeShelfView {
        title: s.title,
        cards: s.items.map_values(|p: PlaylistView| collection_card(provider, p)),
    }
}

/// The shelf of recently played tracks.
pub open spec fn recent_shelf(provider: Seq<char>, recent: Seq<TrackView>) -> HomeShelfView {
    HomeShelfView {
        title: "Continue listening"@,
        cards: recent.map_values(|t: TrackView| track_card(provider, t)),
    }
}

/// The Home projection: the recent shelf first (only when there is
/// history), then one shelf per provider section, in provider order.
pub open spec fn spec_project(
    provider: Seq<char>,
    recent: Seq<TrackView>,
    sections: Seq<HomeSectionView>,
) -> Seq<HomeShelfView> {
    let rest = sections.map_values(|s: HomeSectionView| section_shelf(provider, s));
    if recent.len() > 0 {
        seq![recent_shelf(provider, recent)] + rest
    } else {
        rest
    }
}

/// Every card of every shelf, in reading order.
pub open spec fn flat_cards(shelves: Seq<HomeShelfView>) -> Seq<HomeCardView>
    decreases shelves.len(),
{
    if shelves.len() == 0 {
        Seq::empty()
    } else {
        flat_cards(shelves.drop_last()) + shelves.last().cards
    }
}

/// Number of cards before shelf `k`.
pub open spec fn prefix_count(shelves: Seq<HomeShelfView>, k: int) -> int {
    flat_cards(shelves.take(k)).len() as int
}

/// The shelf at or after `s` whose range contains `current`, if any.
pub open spec fn locate(shelves: Seq<HomeShelfView>, current: int, s: int) -> Option<int>
    decreases shelves.len() - s,
{
    if s < 0 || s >= shelves.len() {
        None
    } else if current < prefix_count(shelves, s + 1) {
        Some(s)
    } else {
        locate(shelves, current, s + 1)
    }
}

/// Where spatial navigation lands from flat index `current`.
///
/// Left/Right wrap within the current shelf. Up/Down move to the previous or
/// next shelf, keeping the column (`local % columns`) clamped to that shelf's
/// last card, and stay put at the first or last shelf. An index outside
/// every shelf goes to 0.
pub open spec fn spec_move_index(
    shelves: Seq<HomeShelfView>,
    current: int,
    direction: HomeDirection,
    columns: int,
) -> int {
    let columns = if columns < 1 { 1 } else { columns };
    match locate(shelves, current, 0) {
        None => 0,
        Some(s) => {
            let n = shelves[s].cards.len() as int;
            let base = prefix_count(shelves, s);
            let local = current - base;
            match direction {
                HomeDirection::Left => base + (local + n - 1) % n,
                HomeDirection::Right => base + (local + 1) % n,
                HomeDirection::Up => if s == 0 {
                    current
                } else {
                    clamp_column(shelves, s - 1, local % columns)
                },
                HomeDirection::Down => if s + 1 >= shelves.len() {
                    current
                } else {
                    clamp_column(shelves, s + 1, local % columns)
                },
            }
        },
    }
}

/// Whether flat index `current` is the first card of its shelf (an index
/// outside every shelf is not).
pub open spec fn spec_first_in_shelf(shelves: Seq<HomeShelfView>, current: int) -> bool {
    match locate(shelves, current, 0) {
        Some(s) => current == prefix_count(shelves, s),
        None => false,
    }
}

/// The flat index of `column` in shelf `target`, clamped to its last card.
pub open spec fn clamp_column(shelves: Seq<HomeShelfView>, target: int, column: int) -> int {
    let last = if shelves[target].cards.len() == 0 { 0 } else { shelves[target].cards.len() - 1 };
    prefix_count(shelves, target) + if column < last { column } else { last }
}

/// `flat_cards` over one more shelf appends that shelf's cards.
pub proof fn lemma_flat_take_succ(shelves: Seq<HomeShelfView>, i: int)
    requires
        0 <= i < shelves.len(),
    ensures
        flat_cards(shelves.take(i + 1)) == flat_cards(shelves.take(i)) + shelves[i].cards,
{
    assert(shelves.take(i + 1).drop_last() =~= shelves.take(i));
}

/// The cards of the first `j` shelves are a prefix of all the cards.
pub proof fn lemma_flat_prefix(shelves: Seq<HomeShelfView>, j: int)
    requires
        0 <= j <= shelves.len(),
    ensures
        flat_cards(shelves.take(j)).len() <= flat_cards(shelves).len(),
        flat_cards(shelves).subrange(0, flat_cards(shelves.take(j)).len() as int)
            == flat_cards(shelves.take(j)),
    decreases shelves.len(),
{
    if j == shelves.len() {
        assert(shelves.take(j) =~= shelves);
        assert(flat_cards(shelves).subrange(0, flat_cards(shelves).len() as int) =~= flat_cards(shelves));
    } else {
        let d = shelves.drop_last();
        assert(d.take(j) =~= shelves.take(j));
        lemma_flat_prefix(d, j);
        assert(flat_cards(shelves) == flat_cards(d) + shelves.last().cards);
        assert(flat_cards(shelves).subrange(0, flat_cards(shelves.take(j)).len() as int)
            =~= flat_cards(d).subrange(0, flat_cards(d.take(j)).len() as int));
    }
}

/// Card `r` of shelf `i` sits at flat index `prefix_count(i) + r`.
pub proof fn lemma_flat_index(shelves: Seq<HomeShelfView>, i: int, r: int)
    requires
        0 <= i < shelves.len(),
        0 <= r < shelves[i].cards.len(),
    ensures
        prefix_count(shelves, i) + r < flat_cards(shelves).len(),
        flat_cards(shelves)[prefix_count(shelves, i) + r] == shelves[i].cards[r],
        prefix_count(shelves, i + 1) == prefix_count(shelves, i) + shelves[i].cards.len(),
{
    lemma_flat_take_succ(shelves, i);
    lemma_flat_prefix(shelves, i + 1);
    let p = flat_cards(shelves.take(i + 1));
    assert(flat_cards(shelves).subrange(0, p.len() as int)[prefix_count(shelves, i) + r]
        == p[prefix_count(shelves, i) + r]);
}

/// Shelf-prefix counts grow with the number of shelves.
pub proof fn lemma_prefix_monotone(shelves: Seq<HomeShelfView>, a: int, b: int)
    requires
        0 <= a <= b <= shelves.len(),
    ensures
        prefix_count(shelves, a) <= prefix_count(shelves, b),
    decreases b - a,
{
    if a < b {
        lemma_flat_take_succ(shelves, b - 1);
        lemma_prefix_monotone(shelves, a, b - 1);
    }
}

/// Having passed shelves `0..s` without finding `current`, `locate` from
/// `s` is where the search from 0 ends.
proof fn lemma_locate_from(shelves: Seq<HomeShelfView>, current: int, s: int)
    requires
        0 <= s <= shelves.len(),
        forall|k: int| 0 <= k < s ==> #[trigger] locate(shelves, current, k) == locate(shelves, current, k + 1),
    ensures
        locate(shelves, current, 0) == locate(shelves, current, s),
    decreases s,
{
    if s > 0 {
        lemma_locate_from(shelves, current, s - 1);
    }
}

/// A flat index below the card count lies in some shelf at or after `s`.
proof fn lemma_locate_found(shelves: Seq<HomeShelfView>, current: int, s: int)
    requires
        0 <= s <= shelves.len(),
        prefix_count(shelves, s) <= current < flat_cards(shelves).len(),
    ensures
        locate(shelves, current, s) matches Some(t) && s <= t < shelves.len()
            && prefix_count(shelves, t) <= current < prefix_count(shelves, t + 1),
    decreases shelves.len() - s,
{
    if s == shelves.len() {
        assert(shelves.take(s) =~= shelves);
    } else {
        lemma_flat_take_succ(shelves, s);
        if current >= prefix_count(shelves, s + 1) {
            lemma_locate_found(shelves, current, s + 1);
        }
    }
}

/// A flat index inside shelf `s`'s range is located in shelf `s`.
proof fn lemma_locate_in(shelves: Seq<HomeShelfView>, s: int, i: int)
    requires
        0 <= s < shelves.len(),
        prefix_count(shelves, s) <= i < prefix_count(shelves, s + 1),
    ensures
        locate(shelves, i, 0) == Some(s),
{
    assert(shelves.take(0) =~= Seq::<HomeShelfView>::empty());
    lemma_flat_prefix(shelves, s + 1);
    lemma_locate_found(shelves, i, 0);
    let t = locate(shelves, i, 0)->0;
    if t < s {
        lemma_prefix_monotone(shelves, t + 1, s);
    } else if t > s {
        lemma_prefix_monotone(shelves, s + 1, t);
    }
}

proof fn lemma_step_back_mod(l: int, n: int)
    requires
        0 <= l < n,
    ensures
        (((l + n - 1) % n) + 1) % n == l,
        (((l + 1) % n) + n - 1) % n == l,
{
    if l == 0 {
        lemma_fundamental_div_mod_converse(n - 1, n, 0, n - 1);
        lemma_fundamental_div_mod_converse(n, n, 1, 0);
        if n == 1 {
            lemma_fundamental_div_mod_converse(1, n, 1, 0);
            lemma_fundamental_div_mod_converse(0, n, 0, 0);
        } else {
            lemma_fundamental_div_mod_converse(1, n, 0, 1);
        }
    } else {
        lemma_fundamental_div_mod_converse(l + n - 1, n, 1, l - 1);
        lemma_fundamental_div_mod_converse(l, n, 0, l);
        if l + 1 < n {
            lemma_fundamental_div_mod_converse(l + 1, n, 0, l + 1);
            lemma_fundamental_div_mod_converse(l + n, n, 1, l);
        } else {
            lemma_fundamental_div_mod_converse(l + 1, n, 1, 0);
            lemma_fundamental_div_mod_converse(n - 1, n, 0, n - 1);
        }
    }
}

/// On the Home grid Left and Right never leave the shelf of the selected
/// card: both land on a card of that shelf, wrapping from its last card to
/// its first and back. Up on the first shelf and Down on the last stay on
/// the selected card.
pub proof fn lemma_moves_stay_in_shelf(shelves: Seq<HomeShelfView>, current: int, columns: int)
    requires
        0 <= current < flat_cards(shelves).len(),
    ensures
        locate(shelves, current, 0) matches Some(s) && {
            let lo = prefix_count(shelves, s);
            let hi = prefix_count(shelves, s + 1);
            &&& lo <= spec_move_index(shelves, current, HomeDirection::Right, columns) < hi
            &&& lo <= spec_move_index(shelves, current, HomeDirection::Left, columns) < hi
            &&& current + 1 == hi ==> spec_move_index(shelves, current, HomeDirection::Right, columns) == lo
            &&& current == lo ==> spec_move_index(shelves, current, HomeDirection::Left, columns) == hi - 1
            &&& s == 0 ==> spec_move_index(shelves, current, HomeDirection::Up, columns) == current
            &&& s + 1 == shelves.len() ==> spec_move_index(shelves, current, HomeDirection::Down, columns) == current
        },
{
    assert(shelves.take(0) =~= Seq::<HomeShelfView>::empty());
    lemma_locate_found(shelves, current, 0);
    let s = locate(shelves, current, 0)->0;
    lemma_flat_take_succ(shelves, s);
    let n = shelves[s].cards.len() as int;
    let base = prefix_count(shelves, s);
    let l = current - base;
    assert(0 <= (l + 1) % n < n) by {
        vstd::arithmetic::div_mod::lemma_mod_pos_bound(l + 1, n);
    }
    assert(0 <= (l + n - 1) % n < n) by {
        vstd::arithmetic::div_mod::lemma_mod_pos_bound(l + n - 1, n);
    }
    if l + 1 == n {
        lemma_fundamental_div_mod_converse(l + 1, n, 1, 0);
    }
    if l == 0 {
        lemma_fundamental_div_mod_converse(n - 1, n, 0, n - 1);
    }
}

/// On the Home grid Left and Right undo each other: both wrap around inside
/// the shelf of the selected card, so one step back returns to that card.
pub proof fn lemma_left_right_undo(shelves: Seq<HomeShelfView>, current: int, columns: int)
    requires
        0 <= current < flat_cards(shelves).len(),
    ensures
        spec_move_index(shelves, spec_move_index(shelves, current, HomeDirection::Left, columns), HomeDirection::Right, columns)
            == current,
        spec_move_index(shelves, spec_move_index(shelves, current, HomeDirection::Right, columns), HomeDirection::Left, columns)
            == current,
{
    assert(shelves.take(0) =~= Seq::<HomeShelfView>::empty());
    lemma_locate_found(shelves, current, 0);
    let s = locate(shelves, current, 0)->0;
    lemma_flat_take_succ(shelves, s);
    let n = shelves[s].cards.len() as int;
    let base = prefix_count(shelves, s);
    let l = current - base;
    lemma_step_back_mod(l, n);
    let left = base + (l + n - 1) % n;
    let right = base + (l + 1) % n;
    lemma_locate_in(shelves, s, left);
    lemma_locate_in(shelves, s, right);
}

impl HomeView {
    /// Total number of cards.
    pub open spec fn spec_len(&self) -> int {
        flat_cards(self@).len() as int
    }

    /// Whether the card count fits in a `usize`.
    pub open spec fn fits(&self) -> bool {
        self.spec_len() <= usize::MAX
    }

    /// Projects the Home screen from the local history and the provider's
    /// sections (see [`spec_project`]).
    pub fn project(provider: &str, recent: &[Track], sections: &[HomeSection]) -> (r: HomeView)
        ensures
            r@ == spec_project(provider@, tracks_view(recent@), sections_view(sections@)),
    {
        let mut shelves: Vec<HomeShelf> = Vec::new();
        let ghost pv = provider@;
        if recent.len() > 0 {
            let mut cards: Vec<HomeCard> = Vec::new();
            let mut i: usize = 0;
            while i < recent.len()
                invariant
                    i <= recent.len(),
                    pv == provider@,
                    cards.len() == i,
                    forall|q: int| 0 <= q < i ==> #[trigger] cards@[q]@ == track_card(pv, recent@[q]@),
                decreases recent.len() - i,
            {
                let track = recent[i].duplicate();
                let card = HomeCard {
                    key: HomeKey::new("local", "track", track.video_id.as_str()),
                    kind: HomeCardKind::Track,
                    title: copy_string(&track.title),
                    subtitle: copy_string(&track.artist),
                    duration: copy_string(&track.duration),
                    artwork_url: copy_opt_string(&track.thumbnail),
                    provider: string_from(provider),
                    payload: HomeCardPayload::Track(track),
                };
                assert(card@ == track_card(pv, recent@[i as int]@));
                cards.push(card);
                i = i + 1;
            }
            assert(cards@.map_values(|c: HomeCard| c@)
                =~= tracks_view(recent@).map_values(|t: TrackView| track_card(pv, t)));
            let shelf = HomeShelf { title: string_from("Continue listening"), cards };
            proof {
                reveal_strlit("Continue listening");
            }
            assert(shelf@ == recent_shelf(pv, tracks_view(recent@)));
            shelves.push(shelf);
            assert(shelves@.map_values(|s: HomeShelf| s@) =~= seq![recent_shelf(pv, tracks_view(recent@))]);
        } else {
            assert(shelves@.map_values(|s: HomeShelf| s@) =~= Seq::<HomeShelfView>::empty());
        }
        let ghost off = shelves.len() as int;
        let ghost head = shelves@.map_values(|s: HomeShelf| s@);
        let mut k: usize = 0;
        while k < sections.len()
            invariant
                k <= sections.len(),
                pv == provider@,
                shelves.len() == off + k,
                head.len() == off,
                forall|q: int| 0 <= q < off ==> #[trigger] shelves@[q]@ == head[q],
                forall|q: int| 0 <= q < k ==> #[trigger] shelves@[off + q]@ == section_shelf(pv, sections@[q]@),
            decreases sections.len() - k,
        {
            let section = &sections[k];
            let mut cards: Vec<HomeCard> = Vec::new();
            let mut j: usize = 0;
            while j < section.items.len()
                invariant
                    j <= section.items.len(),
                    pv == provider@,
                    cards.len() == j,
                    forall|q: int| 0 <= q < j ==> #[trigger] cards@[q]@ == collection_card(pv, section.items@[q]@),
                decreases section.items.len() - j,
            {
                let item = section.items[j].duplicate();
                let kind = match item.kind {
                    CollectionKind::Album => HomeCardKind::Album,
                    CollectionKind::Playlist => HomeCardKind::Playlist,
                };
                let card = HomeCard {
                    key: HomeKey::new(provider, "collection", item.browse_id.as_str()),
                    kind,
                    title: copy_string(&item.title),
                    subtitle: copy_string(&item.subtitle),
                    duration: String::new(),
                    artwork_url: copy_opt_string(&item.thumbnail),
                    provider: string_from(provider),
                    payload: HomeCardPayload::Collection(item),
                };
                assert(card@ == collection_card(pv, section.items@[j as int]@));
                cards.push(card);
                j = j + 1;
            }
            let shelf = HomeShelf { title: copy_string(&section.title), cards };
            assert(shelf@.cards =~= section@.items.map_values(|p: PlaylistView| collection_card(pv, p)));
            assert(shelf@ == section_shelf(pv, sections@[k as int]@));
            shelves.push(shelf);
            k = k + 1;
        }
        let r = HomeView { shelves };
        let ghost rest = sections_view(sections@).map_values(|x: HomeSectionView| section_shelf(pv, x));
        assert(head + rest =~= spec_project(pv, tracks_view(recent@), sections_view(sections@)));
        assert forall|q: int| 0 <= q < r@.len() implies #[trigger] r@[q] == (head + rest)[q] by {
            if q < off {
                assert(r@[q] == shelves@[q]@);
            } else {
                assert(r@[q] == shelves@[off + (q - off)]@);
            }
        }
        assert(r@ =~= head + rest);
        r
    }

    /// Total number of cards across all shelves.
    pub fn len(&self) -> (r: usize)
        requires
            self.fits(),
        ensures
            r == self.spec_len(),
    {
        let mut total: usize = 0;
        let mut i: usize = 0;
        while i < self.shelves.len()
            invariant
                i <= self.shelves.len(),
                self.fits(),
                total == prefix_count(self@, i as int),
            decreases self.shelves.len() - i,
        {
            proof {
                lemma_flat_take_succ(self@, i as int);
                lemma_flat_prefix(self@, i + 1);
            }
            total = total + self.shelves[i].cards.len();
            i = i + 1;
        }
        assert(self@.take(self.shelves.len() as int) =~= self@);
        total
    }

    /// The card at flat index `index`, in reading order.
    pub fn flat_card(&self, index: usize) -> (r: Option<&HomeCard>)
        ensures
            match r {
                Some(c) => index < self.spec_len() && c@ == flat_cards(self@)[index as int],
                None => index >= self.spec_len(),
            },
    {
        let mut remaining: usize = index;
        let mut i: usize = 0;
        while i < self.shelves.len()
            invariant
                i <= self.shelves.len(),
                prefix_count(self@, i as int) <= index,
                remaining == index - prefix_count(self@, i as int),
            decreases self.shelves.len() - i,
        {
            let n = self.shelves[i].cards.len();
            proof {
                lemma_flat_take_succ(self@, i as int);
            }
            if remaining < n {
                proof {
                    lemma_flat_index(self@, i as int, remaining as int);
                }
                return Some(&self.shelves[i].cards[remaining]);
            }
            remaining = remaining - n;
            i = i + 1;
        }
        assert(self@.take(self.shelves.len() as int) =~= self@);
        None
    }

    /// The flat index of the first card with `key`, if any.
    pub fn flat_index_of(&self, key: &HomeKey) -> (r: Option<usize>)
        requires
            self.fits(),
        ensures
            match r {
                Some(i) => i < self.spec_len() && flat_cards(self@)[i as int].key == key@
                    && forall|j: int| 0 <= j < i ==> flat_cards(self@)[j].key != key@,
                None => forall|j: int| 0 <= j < self.spec_len() ==> flat_cards(self@)[j].key != key@,
            },
    {
        let mut base: usize = 0;
        let mut i: usize = 0;
        while i < self.shelves.len()
            invariant
                i <= self.shelves.len(),
                self.fits(),
                base == prefix_count(self@, i as int),
                forall|j: int| 0 <= j < base ==> flat_cards(self@)[j].key != key@,
            decreases self.shelves.len() - i,
        {
            let shelf = &self.shelves[i];
            proof {
                lemma_flat_take_succ(self@, i as int);
                lemma_flat_prefix(self@, i + 1);
            }
            let mut j: usize = 0;
            while j < shelf.cards.len()
                invariant
                    j <= shelf.cards.len(),
                    shelf == self.shelves[i as int],
                    i < self.shelves.len(),
                    self.fits(),
                    base == prefix_count(self@, i as int),
                    base + shelf.cards.len() == prefix_count(self@, i + 1),
                    prefix_count(self@, i + 1) <= self.spec_len(),
                    forall|q: int| 0 <= q < base + j ==> flat_cards(self@)[q].key != key@,
                decreases shelf.cards.len() - j,
            {
                proof {
                    lemma_flat_index(self@, i as int, j as int);
                }
                if shelf.cards[j].key.same(key) {
                    return Some(base + j);
                }
                j = j + 1;
            }
            base = base + shelf.cards.len();
            i = i + 1;
        }
        assert(self@.take(self.shelves.len() as int) =~= self@);
        None
    }

    /// Where navigation lands once `current` is known to lie in shelf `s`,
    /// whose first card has flat index `base`.
    fn land(&self, s: usize, base: usize, current: usize, direction: HomeDirection, columns: usize) -> (r: usize)
        requires
            self.fits(),
            s < self.shelves.len(),
            columns >= 1,
            base == prefix_count(self@, s as int),
            base <= current < prefix_count(self@, s + 1),
            locate(self@, current as int, 0) == Some(s as int),
        ensures
            r == spec_move_index(self@, current as int, direction, columns as int),
    {
        let n = self.shelves[s].cards.len();
        proof {
            lemma_flat_take_succ(self@, s as int);
            lemma_flat_prefix(self@, s + 1);
        }
        let local = current - base;
        match direction {
            HomeDirection::Left => {
                let l = if local == 0 { n - 1 } else { local - 1 };
                assert(l == (local + n - 1) % (n as int)) by (nonlinear_arith)
                    requires local < n, l == if local == 0 { n - 1 } else { local - 1 };
                base + l
            },
            HomeDirection::Right => {
                let l = if local + 1 == n { 0 } else { local + 1 };
                assert(l == (local + 1) % (n as int)) by (nonlinear_arith)
                    requires local < n, l == if local + 1 == n { 0 } else { local + 1 };
                base + l
            },
            HomeDirection::Up => {
                if s == 0 {
                    return current;
                }
                let t = s - 1;
                let tn = self.shelves[t].cards.len();
                proof {
                    lemma_flat_take_succ(self@, t as int);
                }
                let last = if tn == 0 { 0 } else { tn - 1 };
                let column = local % columns;
                let c = if column < last { column } else { last };
                base - tn + c
            },
            HomeDirection::Down => {
                if s + 1 >= self.shelves.len() {
                    return current;
                }
                let t = s + 1;
                let tn = self.shelves[t].cards.len();
                proof {
                    lemma_flat_take_succ(self@, t as int);
                    lemma_flat_prefix(self@, t + 1);
                }
                let last = if tn == 0 { 0 } else { tn - 1 };
                let column = local % columns;
                let c = if column < last { column } else { last };
                base + n + c
            },
        }
    }

    /// Where spatial navigation lands (see [`spec_move_index`]).
    pub fn move_index(&self, current: usize, direction: HomeDirection, columns: usize) -> (r: usize)
        requires
            self.fits(),
        ensures
            r == spec_move_index(self@, current as int, direction, columns as int),
    {
        let columns1 = if columns < 1 { 1 } else { columns };
        let mut base: usize = 0;
        let mut s: usize = 0;
        while s < self.shelves.len()
            invariant
                s <= self.shelves.len(),
                self.fits(),
                base == prefix_count(self@, s as int),
                base <= current,
                columns1 == if columns < 1 { 1 } else { columns },
                forall|k: int| 0 <= k < s ==> #[trigger] locate(self@, current as int, k) == locate(self@, current as int, k + 1),
            decreases self.shelves.len() - s,
        {
            let n = self.shelves[s].cards.len();
            proof {
                lemma_flat_take_succ(self@, s as int);
                lemma_flat_prefix(self@, s + 1);
            }
            if current < base + n {
                proof {
                    lemma_locate_from(self@, current as int, s as int);
                }
                return self.land(s, base, current, direction, columns1);
            }
            assert(locate(self@, current as int, s as int) == locate(self@, current as int, s + 1));
            base = base + n;
            s = s + 1;
        }
        proof {
            lemma_locate_from(self@, current as int, s as int);
        }
        0
    }

    /// The shelf holding flat index `current`, with the flat index of that
    /// shelf's first card; `None` when `current` is past the last card.
    pub fn shelf_of(&self, current: usize) -> (r: Option<(usize, usize)>)
        requires
            self.fits(),
        ensures
            match r {
                Some((s, base)) => locate(self@, current as int, 0) == Some(s as int)
                    && base == prefix_count(self@, s as int),
                None => locate(self@, current as int, 0) is None,
            },
    {
        let mut base: usize = 0;
        let mut s: usize = 0;
        while s < self.shelves.len()
            invariant
                s <= self.shelves.len(),
                self.fits(),
                base == prefix_count(self@, s as int),
                base <= current,
                forall|k: int| 0 <= k < s ==> #[trigger] locate(self@, current as int, k) == locate(self@, current as int, k + 1),
            decreases self.shelves.len() - s,
        {
            let n = self.shelves[s].cards.len();
            proof {
                lemma_flat_take_succ(self@, s as int);
                lemma_flat_prefix(self@, s + 1);
            }
            if current < base + n {
                proof {
                    lemma_locate_from(self@, current as int, s as int);
                }
                return Some((s, base));
            }
            assert(locate(self@, current as int, s as int) == locate(self@, current as int, s + 1));
            base = base + n;
            s = s + 1;
        }
        proof {
            lemma_locate_from(self@, current as int, s as int);
        }
        None
    }

    /// Whether `current` is the first card of its shelf (see
    /// [`spec_first_in_shelf`]): there, moving left leaves the grid.
    pub fn is_first_in_shelf(&self, current: usize) -> (r: bool)
        requires
            self.fits(),
        ensures
            r == spec_first_in_shelf(self@, current as int),
    {
        let mut base: usize = 0;
        let mut s: usize = 0;
        while s < self.shelves.len()
            invariant
                s <= self.shelves.len(),
                self.fits(),
                base == prefix_count(self@, s as int),
                base <= current,
                forall|k: int| 0 <= k < s ==> #[trigger] locate(self@, current as int, k) == locate(self@, current as int, k + 1),
            decreases self.shelves.len() - s,
        {
            let n = self.shelves[s].cards.len();
            proof {
                lemma_flat_take_succ(self@, s as int);
                lemma_flat_prefix(self@, s + 1);
            }
            if current < base + n {
                proof {
                    lemma_locate_from(self@, current as int, s as int);
                }
                return current == base;
            }
            assert(locate(self@, current as int, s as int) == locate(self@, current as int, s + 1));
            base = base + n;
            s = s + 1;
        }
        proof {
            lemma_locate_from(self@, current as int, s as int);
        }
        false
    }
}

} // verus!
