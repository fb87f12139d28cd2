//! Paging of the category list over the keys of the panel.

use vstd::prelude::*;
use crate::command::{Command, CommandView, command_views};

verus! {

/// Keys that show categories; they are numbered from zero.
pub const BUTTONS_PER_PAGE: usize = 13;

/// The key that pages back. Its face shows the status text.
pub const BACK_KEY: usize = 13;

/// The key that pages forward. Its face shows the counters.
pub const FORWARD_KEY: usize = 14;

/// All keys of the panel.
pub const KEY_COUNT: usize = 15;

/// The slot that shows the status text: the face of the back key.
pub const STATUS_SLOT: u8 = 13;

/// The slot that shows the counters: the face of the forward key.
pub const COUNTER_SLOT: u8 = 14;

/// A paging direction.
#[derive(Clone, Copy, Debug, PartialEq, Eq, Structural)]
pub enum Direction {
    Back,
    Forward,
}

/// What a key stands for at the moment.
#[derive(Debug, PartialEq, Eq)]
pub enum SlotContent {
    /// The key tags the position with this category.
    Category(String),
    /// The key is blank and does nothing.
    Empty,
    /// The key turns the page.
    Navigation(Direction),
}

/// A slot's content as a mathematical value.
pub enum SlotView {
    Category(Seq<char>),
    Empty,
    Navigation(Direction),
}

impl View for SlotContent {
    type V = SlotView;

    open spec fn view(&self) -> SlotView {
        match *self {
            SlotContent::Category(name) => SlotView::Category(name@),
            SlotContent::Empty => SlotView::Empty,
            SlotContent::Navigation(direction) => SlotView::Navigation(direction),
        }
    }
}

impl Clone for SlotContent {
    fn clone(&self) -> (copy: SlotContent)
        ensures
            copy@ == self@,
    {
        match self {
            SlotContent::Category(name) => SlotContent::Category(name.clone()),
            SlotContent::Empty => SlotContent::Empty,
            SlotContent::Navigation(direction) => SlotContent::Navigation(*direction),
        }
    }
}

/// Pages needed for `total` categories: `total / BUTTONS_PER_PAGE`, rounded
/// up.
pub open spec fn page_count_of(total: nat) -> nat {
    ((total + BUTTONS_PER_PAGE - 1) / (BUTTONS_PER_PAGE as int)) as nat
}

/// The page reached from `page` by one step in `direction`, among `pages`
/// pages: steps wrap around at both ends.
pub open spec fn turned(page: nat, pages: nat, direction: Direction) -> nat {
    match direction {
        Direction::Back => if page == 0 {
            (pages - 1) as nat
        } else {
            (page - 1) as nat
        },
        Direction::Forward => if page + 1 == pages {
            0
        } else {
            page + 1
        },
    }
}

/// The page reached from `page` by `steps` steps in `direction`.
pub open spec fn turned_times(page: nat, pages: nat, direction: Direction, steps: nat) -> nat
    decreases steps,
{
    if steps == 0 {
        page
    } else {
        turned(turned_times(page, pages, direction, (steps - 1) as nat), pages, direction)
    }
}

/// What key `key` stands for while `page` is shown.
///
/// The paged keys take the categories from `page * BUTTONS_PER_PAGE` on, in
/// order, and are empty past the end of the list; the two keys after them
/// turn the page; there are no further keys.
pub open spec fn slot_on_page(categories: Seq<Seq<char>>, page: nat, key: int) -> SlotView {
    if 0 <= key < BUTTONS_PER_PAGE {
        let index = page * BUTTONS_PER_PAGE + key;
        if index < categories.len() {
            SlotView::Category(categories[index])
        } else {
            SlotView::Empty
        }
    } else if key == BACK_KEY {
        SlotView::Navigation(Direction::Back)
    } else if key == FORWARD_KEY {
        SlotView::Navigation(Direction::Forward)
    } else {
        SlotView::Empty
    }
}

/// All slots of the panel while `page` is shown.
pub open spec fn slots_on_page(categories: Seq<Seq<char>>, page: nat) -> Seq<SlotView> {
    Seq::new(KEY_COUNT as nat, |key: int| slot_on_page(categories, page, key))
}

/// The request that makes key `key` look like `slot`: an image for a
/// category, black for anything else.
pub open spec fn draw_of(slot: SlotView, key: int) -> CommandView {
    match slot {
        SlotView::Category(name) => CommandView::ShowImage { slot: key as u8, category: name },
        _ => CommandView::Blank { slot: key as u8 },
    }
}

/// The full redraw of `page`: one request per paged key, in key order.
pub open spec fn page_draws(categories: Seq<Seq<char>>, page: nat) -> Seq<CommandView> {
    Seq::new(
        BUTTONS_PER_PAGE as nat,
        |key: int| draw_of(slot_on_page(categories, page, key), key),
    )
}

/// The names in a list of strings.
pub open spec fn names_of(list: Seq<String>) -> Seq<Seq<char>> {
    Seq::new(list.len(), |i: int| list[i]@)
}

/// The values of a list of slots.
pub open spec fn slot_views(slots: Seq<SlotContent>) -> Seq<SlotView> {
    Seq::new(slots.len(), |i: int| slots[i]@)
}

struct Shown {
    page: usize,
    slots: Vec<SlotContent>,
}

/// The ordered category list, the page on show and the slot assignment that
/// goes with it.
pub struct PageManager {
    categories: Vec<String>,
    shown: Shown,
}

/// Number of pages for a list of `total` categories.
fn count_pages(total: usize) -> (pages: usize)
    ensures
        pages == page_count_of(total as nat),
{
    if total % BUTTONS_PER_PAGE == 0 {
        total / BUTTONS_PER_PAGE
    } else {
        total / BUTTONS_PER_PAGE + 1
    }
}

/// Builds the slot assignment of `page` and the requests that draw it.
fn lay_out(categories: &Vec<String>, page: usize) -> (laid: (Vec<SlotContent>, Vec<Command>))
    requires
        page < page_count_of(categories@.len()),
    ensures
        slot_views(laid.0@) == slots_on_page(names_of(categories@), page as nat),
        command_views(laid.1@) == page_draws(names_of(categories@), page as nat),
{
    let total: usize = categories.len();
    let first: usize = page * BUTTONS_PER_PAGE;
    let populated: usize = if total - first > BUTTONS_PER_PAGE {
        BUTTONS_PER_PAGE
    } else {
        total - first
    };
    let ghost names = names_of(categories@);
    let mut slots: Vec<SlotContent> = Vec::new();
    let mut draws: Vec<Command> = Vec::new();
    let mut key: usize = 0;
    while key < populated
        invariant
            key <= populated <= BUTTONS_PER_PAGE,
            first == page * BUTTONS_PER_PAGE,
            first + populated <= total == categories@.len(),
            names == names_of(categories@),
            slots@.len() == key,
            draws@.len() == key,
            forall|k: int| 0 <= k < key ==> (#[trigger] slots@[k])@ == slot_on_page(names, page as nat, k),
            forall|k: int| 0 <= k < key ==> (#[trigger] draws@[k])@ == draw_of(
                slot_on_page(names, page as nat, k),
                k,
            ),
        decreases populated - key,
    {
        let name = categories[first + key].clone();
        slots.push(SlotContent::Category(name.clone()));
        draws.push(Command::ShowImage { slot: key as u8, category: name });
        key = key + 1;
    }
    while key < BUTTONS_PER_PAGE
        invariant
            populated <= key <= BUTTONS_PER_PAGE,
            first == page * BUTTONS_PER_PAGE,
            total == categories@.len(),
            populated == BUTTONS_PER_PAGE || first + populated == total,
            names == names_of(categories@),
            slots@.len() == key,
            draws@.len() == key,
            forall|k: int| 0 <= k < key ==> (#[trigger] slots@[k])@ == slot_on_page(names, page as nat, k),
            forall|k: int| 0 <= k < key ==> (#[trigger] draws@[k])@ == draw_of(
                slot_on_page(names, page as nat, k),
                k,
            ),
        decreases BUTTONS_PER_PAGE - key,
    {
        slots.push(SlotContent::Empty);
        draws.push(Command::Blank { slot: key as u8 });
        key = key + 1;
    }
    slots.push(SlotContent::Navigation(Direction::Back));
    slots.push(SlotContent::Navigation(Direction::Forward));
    assert(slot_views(slots@) =~= slots_on_page(names, page as nat));
    assert(command_views(draws@) =~= page_draws(names, page as nat));
    (slots, draws)
}

impl PageManager {
    /// The category names, in their fixed order.
    pub closed spec fn categories(self) -> Seq<Seq<char>> {
        names_of(self.categories@)
    }

    /// The index of the page on show.
    pub closed spec fn page(self) -> nat {
        self.shown.page as nat
    }

    /// The number of pages.
    pub open spec fn pages(self) -> nat {
        page_count_of(self.categories().len())
    }

    /// There is a category, the page on show exists, and the slot
    /// assignment is the one that belongs to that page.
    #[verifier::type_invariant]
    pub closed spec fn well_formed(self) -> bool {
        &&& self.categories@.len() > 0
        &&& self.shown.page < page_count_of(self.categories@.len())
        &&& slot_views(self.shown.slots@) == slots_on_page(
            names_of(self.categories@),
            self.shown.page as nat,
        )
    }

    /// What every page manager satisfies, in terms of its public model.
    pub proof fn lemma_well_formed(self)
        requires
            self.well_formed(),
        ensures
            self.categories().len() > 0,
            self.page() < self.pages(),
    {
    }

    /// Starts on page 0 of `categories`. There is no paging over an empty
    /// list.
    pub fn new(categories: Vec<String>) -> (manager: Option<PageManager>)
        ensures
            manager is Some <==> categories@.len() > 0,
            manager matches Some(m) ==> m.categories() == names_of(categories@),
            manager matches Some(m) ==> m.page() == 0,
            manager matches Some(m) ==> m.well_formed(),
    {
        if categories.len() == 0 {
            return None;
        }
        let (slots, _) = lay_out(&categories, 0);
        Some(PageManager { categories, shown: Shown { page: 0, slots } })
    }

    /// Number of categories.
    pub fn category_count(&self) -> (total: usize)
        ensures
            total == self.categories().len(),
            total > 0,
    {
        proof {
            use_type_invariant(self);
        }
        self.categories.len()
    }

    /// Number of pages.
    pub fn page_count(&self) -> (pages: usize)
        ensures
            pages == self.pages(),
            pages > 0,
    {
        proof {
            use_type_invariant(self);
        }
        count_pages(self.categories.len())
    }

    /// Index of the page on show.
    pub fn current_page(&self) -> (page: usize)
        ensures
            page == self.page(),
            page < self.pages(),
    {
        proof {
            use_type_invariant(self);
        }
        self.shown.page
    }

    /// What key `key` stands for at the moment.
    pub fn slot_at(&self, key: usize) -> (slot: SlotContent)
        ensures
            slot@ == slot_on_page(self.categories(), self.page(), key as int),
    {
        proof {
            use_type_invariant(self);
        }
        assert(slot_views(self.shown.slots@).len() == KEY_COUNT);
        if key < self.shown.slots.len() {
            assert(slot_views(self.shown.slots@)[key as int] == self.shown.slots@[key as int]@);
            self.shown.slots[key].clone()
        } else {
            SlotContent::Empty
        }
    }

    /// Puts page `index` on show: rebuilds the slot assignment from scratch
    /// and returns the requests that redraw every paged key.
    pub fn render_page(&mut self, index: usize) -> (draws: Vec<Command>)
        requires
            index < old(self).pages(),
        ensures
            rendered(*old(self), index as nat, *final(self)),
            command_views(draws@) == page_draws(old(self).categories(), index as nat),
    {
        proof {
            use_type_invariant(&*self);
        }
        let (slots, draws) = lay_out(&self.categories, index);
        self.shown = Shown { page: index, slots };
        draws
    }

    /// Turns one page in `direction`, wrapping around at either end, and
    /// returns the index of the page now on show.
    pub fn navigate(&mut self, direction: Direction) -> (index: usize)
        ensures
            final(self).categories() == old(self).categories(),
            final(self).page() == turned(old(self).page(), old(self).pages(), direction),
            final(self).well_formed(),
            index == final(self).page(),
            index < final(self).pages(),
    {
        proof {
            use_type_invariant(&*self);
        }
        let pages: usize = count_pages(self.categories.len());
        let page: usize = self.shown.page;
        let index: usize = match direction {
            Direction::Back => if page == 0 {
                pages - 1
            } else {
                page - 1
            },
            Direction::Forward => if page == pages - 1 {
                0
            } else {
                page + 1
            },
        };
        let (slots, _) = lay_out(&self.categories, index);
        self.shown = Shown { page: index, slots };
        index
    }
}

/// What `render_page(index)` leaves behind: the same categories, page
/// `index` on show, and the slot assignment that belongs to it.
pub open spec fn rendered(before: PageManager, index: nat, after: PageManager) -> bool {
    &&& after.categories() == before.categories()
    &&& after.page() == index
    &&& after.well_formed()
}

/// Rendering is idempotent: rendering a page that was just rendered draws
/// the same requests and leaves every key standing for what it stood for.
pub proof fn lemma_render_twice_is_render_once(
    before: PageManager,
    once: PageManager,
    twice: PageManager,
    index: nat,
)
    requires
        rendered(before, index, once),
        rendered(once, index, twice),
    ensures
        page_draws(once.categories(), index) == page_draws(before.categories(), index),
        forall|key: int|
            slot_on_page(twice.categories(), twice.page(), key) == slot_on_page(
                once.categories(),
                once.page(),
                key,
            ),
{
}

/// One step forward and one step back cancel, in either order.
pub proof fn lemma_back_undoes_forward(page: nat, pages: nat)
    requires
        page < pages,
    ensures
        turned(turned(page, pages, Direction::Forward), pages, Direction::Back) == page,
        turned(turned(page, pages, Direction::Back), pages, Direction::Forward) == page,
{
}

/// Where `steps` steps lead, for up to one full round: forward steps count
/// up and start over at the last page, backward steps count down and start
/// over at page 0.
pub proof fn lemma_turned_times(page: nat, pages: nat, direction: Direction, steps: nat)
    requires
        page < pages,
        steps <= pages,
    ensures
        turned_times(page, pages, direction, steps) < pages || steps == 0,
        direction == Direction::Forward && page + steps < pages ==> turned_times(
            page,
            pages,
            direction,
            steps,
        ) == page + steps,
        direction == Direction::Forward && page + steps >= pages ==> turned_times(
            page,
            pages,
            direction,
            steps,
        ) == page + steps - pages,
        direction == Direction::Back && page >= steps ==> turned_times(
            page,
            pages,
            direction,
            steps,
        ) == page - steps,
        direction == Direction::Back && page < steps ==> turned_times(
            page,
            pages,
            direction,
            steps,
        ) == page + pages - steps,
    decreases steps,
{
    if steps > 0 {
        lemma_turned_times(page, pages, direction, (steps - 1) as nat);
    }
}

/// Paging is cyclic of order `pages`: as many steps as there are pages, all
/// forward or all back, lead to the page they started from.
pub proof fn lemma_full_round_returns(page: nat, pages: nat, direction: Direction)
    requires
        page < pages,
    ensures
        turned_times(page, pages, direction, pages) == page,
{
    lemma_turned_times(page, pages, direction, pages);
}

/// A list that fits on one page has one page, and turning it in either
/// direction stays on page 0.
pub proof fn lemma_single_page_stays(total: nat, direction: Direction)
    requires
        0 < total <= BUTTONS_PER_PAGE,
    ensures
        page_count_of(total) == 1,
        turned(0, page_count_of(total), direction) == 0,
{
}

} // verus!
