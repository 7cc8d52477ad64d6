//! The list of games, the cursor that walks it, and the page it shows.

use vstd::prelude::*;
use crate::feed::first_gap;
use crate::feed::is_first_gap;
use crate::feed::is_whole;
use crate::feed::FeedError;
use crate::feed::Record;
use crate::photo::FetchJob;
use crate::photo::Photo;
use crate::photo::Slot;
use crate::picture::Picture;
use crate::window::lemma_window_holds_cursor;
use crate::window::page_end;
use crate::window::page_start;
use crate::window::window_of;
use crate::window::Window;
use crate::window::PAGE_SIZE;

verus! {

/// The pictures shown while a game's own have not arrived.
pub struct Fallbacks {
    pub large: Picture,
    pub small: Picture,
}

/// What is drawn for one game of the page.
#[derive(Debug)]
pub enum Snippet<'a> {
    /// A game out of focus: its small picture.
    Small(&'a Picture),
    /// The game in focus: its large picture, headline and subhead.
    Large(&'a Picture, &'a str, &'a str),
}

/// A snippet as contracts see it.
pub enum SnippetView {
    Small(Picture),
    Large(Picture, Seq<char>, Seq<char>),
}

impl<'a> View for Snippet<'a> {
    type V = SnippetView;

    open spec fn view(&self) -> SnippetView {
        match *self {
            Snippet::Small(picture) => SnippetView::Small(*picture),
            Snippet::Large(picture, headline, subhead) => SnippetView::Large(
                *picture,
                headline@,
                subhead@,
            ),
        }
    }
}

/// One game: two lines of text and two pictures, a large one for when the
/// game is in focus and a small one for when it is not.
pub struct Game {
    pub headline: String,
    pub subhead: String,
    large: Photo,
    small: Photo,
}

/// A game as contracts see it.
pub struct GameView {
    pub headline: Seq<char>,
    pub subhead: Seq<char>,
    pub large: Slot,
    pub small: Slot,
}

impl View for Game {
    type V = GameView;

    closed spec fn view(&self) -> GameView {
        GameView {
            headline: self.headline@,
            subhead: self.subhead@,
            large: self.large@,
            small: self.small@,
        }
    }
}

impl GameView {
    /// The game that `record` describes, before any picture has arrived.
    pub open spec fn of(record: Record) -> GameView {
        GameView {
            headline: record.headline@,
            subhead: record.subhead@,
            large: Slot::Pending,
            small: Slot::Pending,
        }
    }

    /// What is drawn for the game: everything if it is in focus, the small
    /// picture alone if it is not. A picture that has not arrived is stood in
    /// for by the fallback of its size.
    pub open spec fn snippet(self, focused: bool, fallbacks: Fallbacks) -> SnippetView {
        if focused {
            SnippetView::Large(self.large.shown(fallbacks.large), self.headline, self.subhead)
        } else {
            SnippetView::Small(self.small.shown(fallbacks.small))
        }
    }

    /// `self` is what `before` can have become by one look at the download of
    /// the picture on screen: the large one if the game is in focus, the
    /// small one if not. The texts and the other picture are as they were,
    /// and a picture that had arrived or failed is as it was.
    pub open spec fn follows(self, before: GameView, focused: bool) -> bool {
        &&& self.headline == before.headline
        &&& self.subhead == before.subhead
        &&& if focused {
            &&& self.small == before.small
            &&& !(before.large is Pending) ==> self.large == before.large
        } else {
            &&& self.large == before.large
            &&& !(before.small is Pending) ==> self.small == before.small
        }
    }
}

impl Game {
    /// The game that `record` describes, with the two downloads it needs:
    /// the one for the large picture first.
    pub fn new(record: &Record) -> (made: (Game, FetchJob, FetchJob))
        ensures
            made.0@ == GameView::of(*record),
            made.1@ == record.large@,
            made.2@ == record.small@,
    {
        let (large, large_job) = Photo::new(record.large.clone());
        let (small, small_job) = Photo::new(record.small.clone());
        let game = Game {
            headline: record.headline.clone(),
            subhead: record.subhead.clone(),
            large,
            small,
        };
        (game, large_job, small_job)
    }

    /// Looks once whether the picture on screen has arrived: the large one if
    /// the game is in focus, the small one if not.
    pub fn refresh(&mut self, focused: bool)
        ensures
            final(self)@.follows(old(self)@, focused),
    {
        if focused {
            self.large.refresh();
        } else {
            self.small.refresh();
        }
    }

    /// Draws the game from what its slots hold now, without a look at the
    /// downloads.
    pub fn snippet<'a>(&'a self, focused: bool, fallbacks: &'a Fallbacks) -> (drawn: Snippet<'a>)
        ensures
            drawn@ == self@.snippet(focused, *fallbacks),
    {
        if focused {
            let picture = match self.large.peek() {
                Some(picture) => picture,
                None => &fallbacks.large,
            };
            Snippet::Large(picture, self.headline.as_str(), self.subhead.as_str())
        } else {
            let picture = match self.small.peek() {
                Some(picture) => picture,
                None => &fallbacks.small,
            };
            Snippet::Small(picture)
        }
    }
}

/// The games in display order and the position of the one in focus.
pub struct Schedule {
    games: Vec<Game>,
    cursor: usize,
}

/// A schedule as contracts see it.
pub struct ScheduleView {
    pub games: Seq<GameView>,
    pub cursor: int,
}

impl ScheduleView {
    /// There is at least one game, the cursor points at one, and the games
    /// are no more than a list can hold.
    pub open spec fn wf(self) -> bool {
        0 <= self.cursor < self.games.len() <= usize::MAX
    }

    /// The schedule after a step to the left: one game back, unless already
    /// at the first.
    pub open spec fn left(self) -> ScheduleView {
        ScheduleView {
            cursor: if self.cursor > 0 { self.cursor - 1 } else { self.cursor },
            ..self
        }
    }

    /// The schedule after a step to the right: one game on, unless already
    /// at the last.
    pub open spec fn right(self) -> ScheduleView {
        ScheduleView {
            cursor: if self.cursor + 1 < self.games.len() { self.cursor + 1 } else { self.cursor },
            ..self
        }
    }

    /// The page on screen.
    pub open spec fn window(self) -> Window {
        Window::at(self.cursor, self.games.len() as int)
    }

    /// What is drawn for the page on screen, from left to right.
    pub open spec fn snippets(self, fallbacks: Fallbacks) -> Seq<SnippetView> {
        Seq::new(
            self.window().len() as nat,
            |k: int| self.games[self.window().start + k].snippet(k == self.window().focus, fallbacks),
        )
    }

    /// `self` is what `before` can have become by one look at the downloads
    /// of the pictures on screen. The cursor and the games off screen are as
    /// they were.
    pub open spec fn follows(self, before: ScheduleView) -> bool {
        &&& self.cursor == before.cursor
        &&& self.games.len() == before.games.len()
        &&& forall|i: int|
            0 <= i < self.games.len() ==> if before.window().start <= i < before.window().end {
                (#[trigger] self.games[i]).follows(before.games[i], i == before.cursor)
            } else {
                self.games[i] == before.games[i]
            }
    }

    /// There is a page before the one on screen.
    pub open spec fn has_less(self) -> bool {
        page_start(self.cursor) > 0
    }

    /// There is a page after the one on screen.
    pub open spec fn has_more(self) -> bool {
        page_end(self.cursor, self.games.len() as int) < self.games.len()
    }
}

/// `schedule` is the schedule of `records`: a game per entry, in order, all
/// pictures pending, the first game in focus.
pub open spec fn is_lineup(records: Seq<Record>, schedule: ScheduleView) -> bool {
    &&& schedule.cursor == 0
    &&& schedule.games.len() == records.len()
    &&& forall|i: int| 0 <= i < records.len() ==> #[trigger] schedule.games[i] == GameView::of(records[i])
}

/// `jobs` are the downloads for `records`: two per entry, the large picture
/// before the small one, in the order of the entries.
pub open spec fn are_orders(records: Seq<Record>, jobs: Seq<FetchJob>) -> bool {
    &&& jobs.len() == 2 * records.len()
    &&& forall|i: int|
        0 <= i < records.len() ==> {
            &&& jobs[2 * i]@ == (#[trigger] records[i]).large@
            &&& jobs[2 * i + 1]@ == records[i].small@
        }
}

impl View for Schedule {
    type V = ScheduleView;

    closed spec fn view(&self) -> ScheduleView {
        ScheduleView { games: self.games@.map_values(|game: Game| game@), cursor: self.cursor as int }
    }
}

impl Schedule {
    #[verifier::type_invariant]
    spec fn inv(self) -> bool {
        self.cursor < self.games.len()
    }

    /// Makes the schedule of a feed, with the downloads to set going for it.
    ///
    /// An empty feed and a feed with an entry that lacks a locator are turned
    /// down, and then no download is prepared.
    pub fn from_feed(records: Vec<Record>) -> (made: Result<(Schedule, Vec<FetchJob>), FeedError>)
        ensures
            match made {
                Ok((schedule, jobs)) => {
                    &&& records.len() > 0
                    &&& is_whole(records@)
                    &&& is_lineup(records@, schedule@)
                    &&& are_orders(records@, jobs@)
                },
                Err(FeedError::Empty) => records.len() == 0,
                Err(FeedError::MissingLocator(at)) => is_first_gap(records@, at as int),
            },
    {
        if records.len() == 0 {
            return Err(FeedError::Empty);
        }
        if let Some(at) = first_gap(&records) {
            return Err(FeedError::MissingLocator(at));
        }
        let mut games: Vec<Game> = Vec::new();
        let mut jobs: Vec<FetchJob> = Vec::new();
        let mut index: usize = 0;
        while index < records.len()
            invariant
                index <= records.len(),
                games.len() == index,
                jobs.len() == 2 * index,
                forall|i: int| 0 <= i < index ==> (#[trigger] games[i])@ == GameView::of(records[i]),
                forall|i: int|
                    0 <= i < index ==> {
                        &&& jobs[2 * i]@ == (#[trigger] records[i]).large@
                        &&& jobs[2 * i + 1]@ == records[i].small@
                    },
            decreases records.len() - index,
        {
            let (game, large_job, small_job) = Game::new(&records[index]);
            games.push(game);
            jobs.push(large_job);
            jobs.push(small_job);
            index += 1;
        }
        let schedule = Schedule { games, cursor: 0 };
        Ok((schedule, jobs))
    }

    /// Number of games; never zero.
    pub fn len(&self) -> (n: usize)
        ensures
            n == self@.games.len(),
            self@.wf(),
    {
        proof {
            use_type_invariant(self);
        }
        self.games.len()
    }

    /// The games, in display order.
    pub fn games(&self) -> (games: &Vec<Game>)
        ensures
            games@.map_values(|game: Game| game@) == self@.games,
    {
        &self.games
    }

    /// Position of the game in focus.
    pub fn cursor(&self) -> (at: usize)
        ensures
            at == self@.cursor,
            self@.wf(),
    {
        proof {
            use_type_invariant(self);
        }
        self.cursor
    }

    /// Moves the focus one game to the left, if there is one.
    pub fn left(&mut self)
        ensures
            final(self)@ == old(self)@.left(),
    {
        proof {
            use_type_invariant(&*self);
        }
        if self.cursor > 0 {
            self.cursor -= 1;
        }
    }

    /// Moves the focus one game to the right, if there is one.
    pub fn right(&mut self)
        ensures
            final(self)@ == old(self)@.right(),
    {
        proof {
            use_type_invariant(&*self);
        }
        if self.cursor < self.games.len() - 1 {
            self.cursor += 1;
        }
    }

    /// Whether a page follows the one on screen.
    pub fn has_more(&self) -> (more: bool)
        ensures
            more == self@.has_more(),
    {
        self.current_window().end < self.games.len()
    }

    /// Whether a page precedes the one on screen.
    pub fn has_less(&self) -> (less: bool)
        ensures
            less == self@.has_less(),
    {
        self.cursor > PAGE_SIZE - 1
    }

    /// The page on screen and the place of the focus within it.
    pub fn current_window(&self) -> (window: Window)
        ensures
            window == self@.window(),
            self@.wf(),
    {
        proof {
            use_type_invariant(self);
        }
        window_of(self.cursor, self.games.len())
    }

    /// Draws the page on screen from what the slots hold now, without a look
    /// at the downloads.
    pub fn project<'a>(&'a self, fallbacks: &'a Fallbacks) -> (drawn: Vec<Snippet<'a>>)
        ensures
            drawn@.map_values(|s: Snippet<'a>| s@) == self@.snippets(*fallbacks),
    {
        let window = self.current_window();
        proof {
            use_type_invariant(self);
            lemma_window_holds_cursor(self.cursor as int, self.games.len() as int);
        }
        let mut drawn: Vec<Snippet<'a>> = Vec::new();
        let mut index: usize = window.start;
        while index < window.end
            invariant
                window == self@.window(),
                window.start <= index <= window.end <= self.games.len(),
                drawn.len() == index - window.start,
                forall|k: int|
                    0 <= k < drawn.len() ==> (#[trigger] drawn[k])@ == self@.games[window.start
                        + k].snippet(k == window.focus, *fallbacks),
            decreases window.end - index,
        {
            let game = &self.games[index];
            drawn.push(game.snippet(index - window.start == window.focus, fallbacks));
            index += 1;
        }
        assert(drawn@.map_values(|s: Snippet<'a>| s@) =~= self@.snippets(*fallbacks));
        drawn
    }

    /// Looks once at the download of every picture on screen.
    pub fn refresh(&mut self)
        ensures
            final(self)@.follows(old(self)@),
    {
        let window = self.current_window();
        proof {
            use_type_invariant(&*self);
            lemma_window_holds_cursor(self.cursor as int, self.games.len() as int);
        }
        let mut index: usize = window.start;
        while index < window.end
            invariant
                window == old(self)@.window(),
                window.start <= index <= window.end <= self.games.len(),
                self.cursor == old(self).cursor,
                self.cursor < self.games.len(),
                self.games.len() == old(self).games.len(),
                forall|i: int|
                    0 <= i < self.games.len() ==> if window.start <= i < index {
                        (#[trigger] self.games[i])@.follows(old(self).games[i]@, i == self.cursor)
                    } else {
                        self.games[i] == old(self).games[i]
                    },
            decreases window.end - index,
        {
            let focused = index == self.cursor;
            self.games[index].refresh(focused);
            index += 1;
        }
    }

    /// The page on screen, with every picture that has arrived by now.
    pub fn page<'a>(&'a mut self, fallbacks: &'a Fallbacks) -> (drawn: Vec<Snippet<'a>>)
        ensures
            final(self)@.follows(old(self)@),
            drawn@.map_values(|s: Snippet<'a>| s@) == final(self)@.snippets(*fallbacks),
    {
        self.refresh();
        let this: &'a Schedule = self;
        this.project(fallbacks)
    }
}

/// A step to the left does nothing at the first game and a step to the right
/// nothing at the last. Every other step moves the cursor by exactly one.
/// Either way the games are untouched and the cursor still points at one.
pub proof fn lemma_steps_move_by_one(schedule: ScheduleView)
    requires
        schedule.wf(),
    ensures
        schedule.cursor == 0 ==> schedule.left() == schedule,
        schedule.cursor > 0 ==> schedule.left().cursor == schedule.cursor - 1,
        schedule.cursor == schedule.games.len() - 1 ==> schedule.right() == schedule,
        schedule.cursor < schedule.games.len() - 1 ==> schedule.right().cursor == schedule.cursor + 1,
        schedule.left().games == schedule.games,
        schedule.right().games == schedule.games,
        schedule.left().wf(),
        schedule.right().wf(),
{
}

/// The page on screen contains the game in focus, holds at most a page of
/// games and does not run past the end of the list.
pub proof fn lemma_page_holds_focus(schedule: ScheduleView)
    requires
        schedule.wf(),
    ensures
        0 <= schedule.window().start <= schedule.cursor < schedule.window().end <= schedule.games.len(),
        1 <= schedule.window().len() <= PAGE_SIZE,
        schedule.window().focused() == schedule.cursor,
{
    lemma_window_holds_cursor(schedule.cursor, schedule.games.len() as int);
}

/// The page is drawn with one snippet for each game on screen, and exactly
/// one of them is large: the one at the focus.
pub proof fn lemma_one_large_snippet(schedule: ScheduleView, fallbacks: Fallbacks)
    requires
        schedule.wf(),
    ensures
        schedule.snippets(fallbacks).len() == schedule.window().len(),
        0 <= schedule.window().focus < schedule.snippets(fallbacks).len(),
        forall|k: int|
            0 <= k < schedule.snippets(fallbacks).len() ==> (
            #[trigger] schedule.snippets(fallbacks)[k] is Large <==> k == schedule.window().focus),
{
    lemma_window_holds_cursor(schedule.cursor, schedule.games.len() as int);
}

/// There is a page before the one on screen exactly when the cursor is past
/// the first page, and a page after it exactly when the one on screen ends
/// before the list does.
pub proof fn lemma_more_and_less(schedule: ScheduleView)
    requires
        schedule.wf(),
    ensures
        schedule.has_less() <==> schedule.cursor >= PAGE_SIZE,
        schedule.has_more() <==> schedule.window().end < schedule.games.len(),
        schedule.has_more() <==> page_start(schedule.cursor) + PAGE_SIZE < schedule.games.len(),
{
    lemma_window_holds_cursor(schedule.cursor, schedule.games.len() as int);
}

} // verus!
