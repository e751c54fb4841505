//! The application state machine: the single owner of the feed session.
//! It tracks the identifier list of the active category, how much of it has
//! been resolved, the visible collection, the cursor and scroll position,
//! and the loading status. Every mutation of the session goes through the
//! commands defined here; the driver outside the library only performs the
//! network calls between them and hands their outcomes back as plain values.

use vstd::prelude::*;
use crate::story::{Story, StoryType};

verus! {

/// How many collection rows are visible at once.
pub const VISIBLE_ROWS: usize = 20;

/// How far page-forward and page-backward move the cursor.
pub const PAGE_SIZE: usize = 10;

/// How many identifiers one pagination step resolves.
pub const DEFAULT_BATCH_SIZE: usize = 30;

/// The fan-out limit: how many fetches of one batch may run at once.
pub const CHUNK_SIZE: usize = 10;

/// The loading status of the feed session.
#[derive(Debug)]
pub enum AppState {
    Loading,
    LoadingMore,
    Ready,
    Error(String),
}

/// The feed session: identifier list, resolved collection, cursor, scroll,
/// details toggle and status for the active category.
#[derive(Debug)]
pub struct App {
    pub stories: Vec<Story>,
    pub selected_index: usize,
    pub story_type: StoryType,
    pub state: AppState,
    pub error_message: Option<String>,
    pub scroll_offset: usize,
    pub show_details: bool,
    pub all_story_ids: Vec<i64>,
    pub loaded_count: usize,
    pub batch_size: usize,
}

/// The smaller of two integers.
pub open spec fn min_int(a: int, b: int) -> int {
    if a <= b {
        a
    } else {
        b
    }
}

/// The cursor after moving `step` forward in a collection of length `len`,
/// clamped to the last valid index.
pub open spec fn clamped_forward(sel: int, step: int, len: int) -> int {
    if sel + step <= len - 1 {
        sel + step
    } else {
        len - 1
    }
}

/// The cursor after moving `step` backward, clamped to zero.
pub open spec fn clamped_back(sel: int, step: int) -> int {
    if sel >= step {
        sel - step
    } else {
        0
    }
}

/// The scroll offset after the cursor moved to `sel`: scrolls down just far
/// enough when the cursor left the window at the bottom, up to the cursor
/// when it left at the top, and stays put otherwise.
pub open spec fn scroll_after(sel: int, scr: int) -> int {
    if sel >= scr + VISIBLE_ROWS {
        sel - VISIBLE_ROWS + 1
    } else if sel < scr {
        sel
    } else {
        scr
    }
}

/// The fixed cyclic successor of each category.
pub open spec fn next_type(t: StoryType) -> StoryType {
    match t {
        StoryType::Top => StoryType::New,
        StoryType::New => StoryType::Best,
        StoryType::Best => StoryType::Show,
        StoryType::Show => StoryType::Ask,
        StoryType::Ask => StoryType::Top,
    }
}

/// The display label of each category.
pub open spec fn type_label(t: StoryType) -> Seq<char> {
    match t {
        StoryType::Top => "Top"@,
        StoryType::New => "New"@,
        StoryType::Best => "Best"@,
        StoryType::Show => "Show"@,
        StoryType::Ask => "Ask"@,
    }
}

impl App {
    /// The session invariant: the resolved count never passes the end of
    /// the identifier list, the collection never outgrows the resolved
    /// count (failed fetches only shrink it), the cursor is a valid index
    /// whenever the collection is non-empty, and the cursor sits inside
    /// the visible window.
    pub open spec fn wf(self) -> bool {
        &&& self.loaded_count <= self.all_story_ids.len()
        &&& self.stories.len() <= self.loaded_count
        &&& (self.stories.len() == 0 ==> self.selected_index == 0 && self.scroll_offset == 0)
        &&& (self.stories.len() > 0 ==> self.selected_index < self.stories.len())
        &&& self.scroll_offset <= self.selected_index
        &&& self.selected_index < self.scroll_offset + VISIBLE_ROWS
    }

    /// Whether identifiers remain beyond the resolved count.
    pub open spec fn can_load_more_spec(self) -> bool {
        self.loaded_count < self.all_story_ids.len()
    }

    /// The identifier list, collection and pagination book-keeping agree.
    pub open spec fn same_feed(pre: App, post: App) -> bool {
        &&& post.stories@ == pre.stories@
        &&& post.all_story_ids@ == pre.all_story_ids@
        &&& post.loaded_count == pre.loaded_count
        &&& post.batch_size == pre.batch_size
    }

    /// Cursor, scroll and details toggle agree.
    pub open spec fn same_view(pre: App, post: App) -> bool {
        &&& post.selected_index == pre.selected_index
        &&& post.scroll_offset == pre.scroll_offset
        &&& post.show_details == pre.show_details
    }

    /// Status, error message and active category agree.
    pub open spec fn same_mode(pre: App, post: App) -> bool {
        &&& post.state == pre.state
        &&& post.error_message == pre.error_message
        &&& post.story_type == pre.story_type
    }

    /// A fresh session: top category, nothing fetched, loading.
    pub fn new() -> (r: App)
        ensures
            r.wf(),
            r.stories@ == Seq::<Story>::empty(),
            r.selected_index == 0,
            r.story_type == StoryType::Top,
            r.state is Loading,
            r.error_message is None,
            r.scroll_offset == 0,
            r.show_details == false,
            r.all_story_ids@ == Seq::<i64>::empty(),
            r.loaded_count == 0,
            r.batch_size == DEFAULT_BATCH_SIZE,
    {
        App {
            stories: Vec::new(),
            selected_index: 0,
            story_type: StoryType::Top,
            state: AppState::Loading,
            error_message: None,
            scroll_offset: 0,
            show_details: false,
            all_story_ids: Vec::new(),
            loaded_count: 0,
            batch_size: DEFAULT_BATCH_SIZE,
        }
    }

    /// Starts (or retries) loading the active category: the session enters
    /// `Loading` and any previous error is cleared; nothing else changes.
    pub fn begin_load(&mut self)
        requires
            old(self).wf(),
        ensures
            final(self).wf(),
            final(self).state is Loading,
            final(self).error_message is None,
            App::same_feed(*old(self), *final(self)),
            App::same_view(*old(self), *final(self)),
            final(self).story_type == old(self).story_type,
    {
        self.state = AppState::Loading;
        self.error_message = None;
    }

    /// Accepts the identifier list of the active category: the previous
    /// collection is discarded wholesale, the resolved count and cursor
    /// reset, and the first batch of identifiers is handed back for
    /// resolution.
    pub fn ids_loaded(&mut self, ids: Vec<i64>) -> (first: Vec<i64>)
        requires
            old(self).wf(),
        ensures
            final(self).wf(),
            final(self).all_story_ids@ == ids@,
            final(self).loaded_count == 0,
            final(self).stories@ == Seq::<Story>::empty(),
            final(self).selected_index == 0,
            final(self).scroll_offset == 0,
            final(self).state == old(self).state,
            final(self).error_message == old(self).error_message,
            final(self).story_type == old(self).story_type,
            final(self).show_details == old(self).show_details,
            final(self).batch_size == old(self).batch_size,
            first@ == ids@.subrange(0, min_int(old(self).batch_size as int, ids@.len() as int)),
    {
        self.all_story_ids = ids;
        self.loaded_count = 0;
        self.stories = Vec::new();
        self.selected_index = 0;
        self.scroll_offset = 0;
        let end = if self.batch_size <= self.all_story_ids.len() {
            self.batch_size
        } else {
            self.all_story_ids.len()
        };
        copy_id_range(&self.all_story_ids, 0, end)
    }

    /// Accepts the resolved first batch: the collection becomes exactly
    /// these stories, the resolved count advances to the end of the first
    /// batch of the identifier list (dropped failures do not rewind it),
    /// and the session is `Ready`.
    pub fn first_batch_loaded(&mut self, new_stories: Vec<Story>)
        requires
            old(self).wf(),
            old(self).stories.len() == 0,
            old(self).loaded_count == 0,
            new_stories.len() <= min_int(
                old(self).batch_size as int,
                old(self).all_story_ids@.len() as int,
            ),
        ensures
            final(self).wf(),
            final(self).stories@ == new_stories@,
            final(self).loaded_count == min_int(
                old(self).batch_size as int,
                old(self).all_story_ids@.len() as int,
            ),
            final(self).state is Ready,
            final(self).selected_index == 0,
            final(self).scroll_offset == 0,
            final(self).all_story_ids@ == old(self).all_story_ids@,
            final(self).batch_size == old(self).batch_size,
            final(self).story_type == old(self).story_type,
            final(self).show_details == old(self).show_details,
            final(self).error_message == old(self).error_message,
    {
        self.stories = new_stories;
        let end = if self.batch_size <= self.all_story_ids.len() {
            self.batch_size
        } else {
            self.all_story_ids.len()
        };
        self.loaded_count = end;
        self.selected_index = 0;
        self.scroll_offset = 0;
        self.state = AppState::Ready;
    }

    /// Records the failure of a batch-level step: the session enters
    /// `Error` with the message, and whatever partial feed state existed is
    /// left exactly as it was.
    pub fn load_failed(&mut self, message: String)
        requires
            old(self).wf(),
        ensures
            final(self).wf(),
            final(self).state == AppState::Error(message),
            final(self).error_message == Some(message),
            App::same_feed(*old(self), *final(self)),
            App::same_view(*old(self), *final(self)),
            final(self).story_type == old(self).story_type,
    {
        self.error_message = Some(message.clone());
        self.state = AppState::Error(message);
    }

    /// Asks to resolve the next batch. In `Error`, or once the whole
    /// identifier list is resolved, this is a no-op returning nothing. An
    /// empty next slice flips the session straight back to `Ready`.
    /// Otherwise the session enters `LoadingMore` and the next unresolved
    /// slice of identifiers, at most one batch long, is handed back.
    pub fn begin_load_more(&mut self) -> (to_fetch: Option<Vec<i64>>)
        requires
            old(self).wf(),
        ensures
            final(self).wf(),
            App::same_feed(*old(self), *final(self)),
            App::same_view(*old(self), *final(self)),
            final(self).error_message == old(self).error_message,
            final(self).story_type == old(self).story_type,
            old(self).state is Error ==> *final(self) == *old(self) && to_fetch is None,
            !(old(self).state is Error) && !old(self).can_load_more_spec() ==> *final(self)
                == *old(self) && to_fetch is None,
            !(old(self).state is Error) && old(self).can_load_more_spec() && old(self).batch_size == 0 ==> final(self).state is Ready && to_fetch is None,
            !(old(self).state is Error) && old(self).can_load_more_spec() && old(self).batch_size > 0 ==> {
                &&& final(self).state is LoadingMore
                &&& to_fetch is Some
                &&& to_fetch->0@ == old(self).all_story_ids@.subrange(
                    old(self).loaded_count as int,
                    min_int(
                        old(self).loaded_count + old(self).batch_size,
                        old(self).all_story_ids@.len() as int,
                    ),
                )
            },
    {
        if matches!(self.state, AppState::Error(_)) {
            return None;
        }
        if self.loaded_count >= self.all_story_ids.len() {
            return None;
        }
        self.state = AppState::LoadingMore;
        let slice_end = if self.all_story_ids.len() - self.loaded_count <= self.batch_size {
            self.all_story_ids.len()
        } else {
            self.loaded_count + self.batch_size
        };
        if slice_end == self.loaded_count {
            self.state = AppState::Ready;
            return None;
        }
        Some(copy_id_range(&self.all_story_ids, self.loaded_count, slice_end))
    }

    /// Accepts a resolved further batch: the stories are appended to the
    /// existing collection in order, the resolved count advances to the end
    /// of the slice — never backward — and the session is `Ready`.
    pub fn more_loaded(&mut self, new_stories: Vec<Story>)
        requires
            old(self).wf(),
            old(self).can_load_more_spec(),
            new_stories.len() <= min_int(
                old(self).loaded_count + old(self).batch_size,
                old(self).all_story_ids@.len() as int,
            ) - old(self).loaded_count,
        ensures
            final(self).wf(),
            final(self).stories@ == old(self).stories@ + new_stories@,
            final(self).loaded_count == min_int(
                old(self).loaded_count + old(self).batch_size,
                old(self).all_story_ids@.len() as int,
            ),
            final(self).loaded_count >= old(self).loaded_count,
            final(self).state is Ready,
            App::same_view(*old(self), *final(self)),
            final(self).all_story_ids@ == old(self).all_story_ids@,
            final(self).batch_size == old(self).batch_size,
            final(self).story_type == old(self).story_type,
            final(self).error_message == old(self).error_message,
    {
        let slice_end = if self.all_story_ids.len() - self.loaded_count <= self.batch_size {
            self.all_story_ids.len()
        } else {
            self.loaded_count + self.batch_size
        };
        let mut ns = new_stories;
        self.stories.append(&mut ns);
        self.loaded_count = slice_end;
        self.state = AppState::Ready;
    }

    /// Whether identifiers remain to load, as `can_load_more_spec` states.
    pub fn can_load_more(&self) -> (r: bool)
        ensures
            r == self.can_load_more_spec(),
    {
        self.loaded_count < self.all_story_ids.len()
    }

    /// Moves the cursor one down, clamped to the last story; a no-op on an
    /// empty collection or in `Error`.
    pub fn next_story(&mut self)
        requires
            old(self).wf(),
        ensures
            final(self).wf(),
            App::same_feed(*old(self), *final(self)),
            App::same_mode(*old(self), *final(self)),
            final(self).show_details == old(self).show_details,
            old(self).state is Error || old(self).stories.len() == 0 ==> *final(self) == *old(self),
            !(old(self).state is Error) && old(self).stories.len() > 0 ==> {
                &&& final(self).selected_index == clamped_forward(
                    old(self).selected_index as int,
                    1,
                    old(self).stories@.len() as int,
                )
                &&& final(self).scroll_offset == scroll_after(
                    final(self).selected_index as int,
                    old(self).scroll_offset as int,
                )
            },
    {
        if matches!(self.state, AppState::Error(_)) {
            return;
        }
        if self.stories.len() > 0 {
            let last = self.stories.len() - 1;
            if last - self.selected_index >= 1 {
                self.selected_index = self.selected_index + 1;
            } else {
                self.selected_index = last;
            }
            self.update_scroll();
        }
    }

    /// Moves the cursor one up, clamped to zero; a no-op on an empty
    /// collection or in `Error`.
    pub fn prev_story(&mut self)
        requires
            old(self).wf(),
        ensures
            final(self).wf(),
            App::same_feed(*old(self), *final(self)),
            App::same_mode(*old(self), *final(self)),
            final(self).show_details == old(self).show_details,
            old(self).state is Error || old(self).stories.len() == 0 ==> *final(self) == *old(self),
            !(old(self).state is Error) && old(self).stories.len() > 0 ==> {
                &&& final(self).selected_index == clamped_back(old(self).selected_index as int, 1)
                &&& final(self).scroll_offset == scroll_after(
                    final(self).selected_index as int,
                    old(self).scroll_offset as int,
                )
            },
    {
        if matches!(self.state, AppState::Error(_)) {
            return;
        }
        if self.stories.len() > 0 {
            if self.selected_index >= 1 {
                self.selected_index = self.selected_index - 1;
            } else {
                self.selected_index = 0;
            }
            self.update_scroll();
        }
    }

    /// Moves the cursor a page down, clamped to the last story; a no-op on
    /// an empty collection or in `Error`.
    pub fn page_down(&mut self)
        requires
            old(self).wf(),
        ensures
            final(self).wf(),
            App::same_feed(*old(self), *final(self)),
            App::same_mode(*old(self), *final(self)),
            final(self).show_details == old(self).show_details,
            old(self).state is Error || old(self).stories.len() == 0 ==> *final(self) == *old(self),
            !(old(self).state is Error) && old(self).stories.len() > 0 ==> {
                &&& final(self).selected_index == clamped_forward(
                    old(self).selected_index as int,
                    PAGE_SIZE as int,
                    old(self).stories@.len() as int,
                )
                &&& final(self).scroll_offset == scroll_after(
                    final(self).selected_index as int,
                    old(self).scroll_offset as int,
                )
            },
    {
        if matches!(self.state, AppState::Error(_)) {
            return;
        }
        if self.stories.len() > 0 {
            let last = self.stories.len() - 1;
            if last - self.selected_index >= PAGE_SIZE {
                self.selected_index = self.selected_index + PAGE_SIZE;
            } else {
                self.selected_index = last;
            }
            self.update_scroll();
        }
    }

    /// Moves the cursor a page up, clamped to zero; a no-op on an empty
    /// collection or in `Error`.
    pub fn page_up(&mut self)
        requires
            old(self).wf(),
        ensures
            final(self).wf(),
            App::same_feed(*old(self), *final(self)),
            App::same_mode(*old(self), *final(self)),
            final(self).show_details == old(self).show_details,
            old(self).state is Error || old(self).stories.len() == 0 ==> *final(self) == *old(self),
            !(old(self).state is Error) && old(self).stories.len() > 0 ==> {
                &&& final(self).selected_index == clamped_back(
                    old(self).selected_index as int,
                    PAGE_SIZE as int,
                )
                &&& final(self).scroll_offset == scroll_after(
                    final(self).selected_index as int,
                    old(self).scroll_offset as int,
                )
            },
    {
        if matches!(self.state, AppState::Error(_)) {
            return;
        }
        if self.stories.len() > 0 {
            if self.selected_index >= PAGE_SIZE {
                self.selected_index = self.selected_index - PAGE_SIZE;
            } else {
                self.selected_index = 0;
            }
            self.update_scroll();
        }
    }

    /// Jumps the cursor and scroll back to the top; a no-op in `Error`.
    pub fn jump_to_start(&mut self)
        requires
            old(self).wf(),
        ensures
            final(self).wf(),
            App::same_feed(*old(self), *final(self)),
            App::same_mode(*old(self), *final(self)),
            final(self).show_details == old(self).show_details,
            old(self).state is Error ==> *final(self) == *old(self),
            !(old(self).state is Error) ==> final(self).selected_index == 0 && final(self).scroll_offset == 0,
    {
        if matches!(self.state, AppState::Error(_)) {
            return;
        }
        self.selected_index = 0;
        self.scroll_offset = 0;
    }

    /// Jumps the cursor to the last story; a no-op on an empty collection
    /// or in `Error`.
    pub fn jump_to_end(&mut self)
        requires
            old(self).wf(),
        ensures
            final(self).wf(),
            App::same_feed(*old(self), *final(self)),
            App::same_mode(*old(self), *final(self)),
            final(self).show_details == old(self).show_details,
            old(self).state is Error || old(self).stories.len() == 0 ==> *final(self) == *old(self),
            !(old(self).state is Error) && old(self).stories.len() > 0 ==> {
                &&& final(self).selected_index == old(self).stories@.len() - 1
                &&& final(self).scroll_offset == scroll_after(
                    final(self).selected_index as int,
                    old(self).scroll_offset as int,
                )
            },
    {
        if matches!(self.state, AppState::Error(_)) {
            return;
        }
        if self.stories.len() > 0 {
            self.selected_index = self.stories.len() - 1;
            self.update_scroll();
        }
    }

    /// Scrolls just enough to bring the cursor back into the visible
    /// window, as `scroll_after` states; every other field is untouched.
    pub fn update_scroll(&mut self)
        ensures
            final(self).scroll_offset == scroll_after(
                old(self).selected_index as int,
                old(self).scroll_offset as int,
            ),
            final(self).selected_index == old(self).selected_index,
            App::same_feed(*old(self), *final(self)),
            App::same_mode(*old(self), *final(self)),
            final(self).show_details == old(self).show_details,
    {
        if self.selected_index < self.scroll_offset {
            self.scroll_offset = self.selected_index;
        } else if self.selected_index - self.scroll_offset >= VISIBLE_ROWS {
            self.scroll_offset = self.selected_index - VISIBLE_ROWS + 1;
        }
    }

    /// Advances the active category to its fixed cyclic successor; a no-op
    /// in `Error`.
    pub fn next_story_type(&mut self)
        requires
            old(self).wf(),
        ensures
            final(self).wf(),
            App::same_feed(*old(self), *final(self)),
            App::same_view(*old(self), *final(self)),
            final(self).state == old(self).state,
            final(self).error_message == old(self).error_message,
            old(self).state is Error ==> *final(self) == *old(self),
            !(old(self).state is Error) ==> final(self).story_type == next_type(
                old(self).story_type,
            ),
    {
        if matches!(self.state, AppState::Error(_)) {
            return;
        }
        self.story_type = match self.story_type {
            StoryType::Top => StoryType::New,
            StoryType::New => StoryType::Best,
            StoryType::Best => StoryType::Show,
            StoryType::Show => StoryType::Ask,
            StoryType::Ask => StoryType::Top,
        };
    }

    /// Flips the details view; a no-op in `Error`.
    pub fn toggle_details(&mut self)
        requires
            old(self).wf(),
        ensures
            final(self).wf(),
            App::same_feed(*old(self), *final(self)),
            App::same_mode(*old(self), *final(self)),
            final(self).selected_index == old(self).selected_index,
            final(self).scroll_offset == old(self).scroll_offset,
            old(self).state is Error ==> *final(self) == *old(self),
            !(old(self).state is Error) ==> final(self).show_details == !old(self).show_details,
    {
        if matches!(self.state, AppState::Error(_)) {
            return;
        }
        self.show_details = !self.show_details;
    }

    /// The story under the cursor, or nothing when the collection is empty.
    pub fn selected_story(&self) -> (r: Option<&Story>)
        requires
            self.wf(),
        ensures
            match r {
                Some(s) => self.stories@.len() > 0 && *s == self.stories@[self.selected_index as int],
                None => self.stories@.len() == 0,
            },
    {
        if self.stories.len() > 0 {
            Some(&self.stories[self.selected_index])
        } else {
            None
        }
    }

    /// The URL of the story under the cursor, if there is one and it has
    /// an external link.
    pub fn selected_story_url(&self) -> (r: Option<&String>)
        requires
            self.wf(),
        ensures
            match r {
                Some(u) => self.stories@.len() > 0 && self.stories@[self.selected_index as int].url
                    == Some(*u),
                None => self.stories@.len() == 0 || self.stories@[self.selected_index as int].url
                    is None,
            },
    {
        if self.stories.len() > 0 {
            match &self.stories[self.selected_index].url {
                Some(u) => Some(u),
                None => None,
            }
        } else {
            None
        }
    }

    /// Whether the story under the cursor has an external link.
    pub fn has_selected_story_url(&self) -> (r: bool)
        requires
            self.wf(),
        ensures
            r == (self.stories@.len() > 0 && self.stories@[self.selected_index as int].url
                is Some),
    {
        match self.selected_story_url() {
            Some(_) => true,
            None => false,
        }
    }

    /// The display label of the active category, as `type_label` states.
    pub fn story_type_name(&self) -> (r: &'static str)
        ensures
            r@ == type_label(self.story_type),
    {
        match self.story_type {
            StoryType::Top => "Top",
            StoryType::New => "New",
            StoryType::Best => "Best",
            StoryType::Show => "Show",
            StoryType::Ask => "Ask",
        }
    }
}

impl Default for App {
    /// The same fresh session that `App::new` builds.
    fn default() -> (r: App)
        ensures
            r.wf(),
            r.stories@ == Seq::<Story>::empty(),
            r.selected_index == 0,
            r.story_type == StoryType::Top,
            r.state is Loading,
            r.error_message is None,
            r.scroll_offset == 0,
            r.show_details == false,
            r.all_story_ids@ == Seq::<i64>::empty(),
            r.loaded_count == 0,
            r.batch_size == DEFAULT_BATCH_SIZE,
    {
        App::new()
    }
}

/// A copy of the identifier slice `[from, to)`.
fn copy_id_range(ids: &Vec<i64>, from: usize, to: usize) -> (r: Vec<i64>)
    requires
        from <= to <= ids@.len(),
    ensures
        r@ == ids@.subrange(from as int, to as int),
{
    let mut r: Vec<i64> = Vec::new();
    let mut i: usize = from;
    while i < to
        invariant
            from <= i <= to <= ids@.len(),
            r@ == ids@.subrange(from as int, i as int),
        decreases to - i,
    {
        r.push(ids[i]);
        proof {
            assert(r@ =~= ids@.subrange(from as int, i + 1));
        }
        i = i + 1;
    }
    r
}

/// A successful load-more step strictly advances the resolved count, and
/// never past the end of the identifier list.
pub proof fn lemma_load_more_advances(app: App)
    requires
        app.wf(),
        app.can_load_more_spec(),
        app.batch_size >= 1,
    ensures
        min_int(app.loaded_count + app.batch_size, app.all_story_ids@.len() as int)
            > app.loaded_count,
        min_int(app.loaded_count + app.batch_size, app.all_story_ids@.len() as int)
            <= app.all_story_ids@.len(),
{
}

/// More remains to load exactly until the resolved count reaches the end
/// of the identifier list: under the session invariant the two never pass
/// each other, so exhaustion happens precisely at equality.
pub proof fn lemma_exhaustion_at_end(app: App)
    requires
        app.wf(),
    ensures
        app.can_load_more_spec() <==> app.loaded_count != app.all_story_ids@.len(),
{
}

/// The cursor after pressing select-next `n` times from the top of a
/// collection of length `len`.
pub open spec fn sel_after_nexts(n: nat, len: int) -> int
    decreases n,
{
    if n == 0 {
        0
    } else {
        clamped_forward(sel_after_nexts((n - 1) as nat, len), 1, len)
    }
}

/// The cursor after pressing select-previous `n` times from `start`.
pub open spec fn sel_after_prevs(n: nat, start: int) -> int
    decreases n,
{
    if n == 0 {
        start
    } else {
        clamped_back(sel_after_prevs((n - 1) as nat, start), 1)
    }
}

/// Select-next pressed `n` times on a collection of length `len` leaves
/// the cursor at `min(n, len - 1)`: never past the last valid index.
pub proof fn lemma_cursor_clamp(n: nat, len: int)
    requires
        len >= 1,
    ensures
        sel_after_nexts(n, len) == min_int(n as int, len - 1),
        0 <= sel_after_nexts(n, len) < len,
    decreases n,
{
    if n > 0 {
        lemma_cursor_clamp((n - 1) as nat, len);
    }
}

/// Select-previous never drives the cursor below zero, and `n` presses
/// from `start` land exactly on `start - n`, clamped to zero.
pub proof fn lemma_cursor_floor(n: nat, start: int)
    requires
        start >= 0,
    ensures
        sel_after_prevs(n, start) == if start - n >= 0 {
            start - n
        } else {
            0
        },
        sel_after_prevs(n, start) >= 0,
    decreases n,
{
    if n > 0 {
        lemma_cursor_floor((n - 1) as nat, start);
    }
}

} // verus!
