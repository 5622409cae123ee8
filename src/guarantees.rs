use vstd::prelude::*;

use crate::models::{Page, Story, User};
use crate::session::{
    list_len, selection_in_bounds, story_created,
    counter_step, generation_step, insert_step, key_step, number_step, pages_loaded, send_started,
    session_wf, stage_prompt, stories_loaded, users_loaded, AppMode, Command, KeyInput, SessionView,
};
use crate::stream::GenerationError;

verus! {

/// The screen reached by a navigation key from `prev`, given whether the load
/// that the move needs (if any) succeeded.
pub open spec fn mode_after(prev: AppMode, key: KeyInput, load_ok: bool) -> AppMode {
    match key {
        KeyInput::Back => match prev {
            AppMode::UserSelection => AppMode::UserSelection,
            AppMode::StoryList => if load_ok { AppMode::UserSelection } else { AppMode::StoryList },
            AppMode::StoryView => if load_ok { AppMode::StoryList } else { AppMode::StoryView },
            AppMode::Chat => AppMode::StoryView,
        },
        KeyInput::Enter => match prev {
            AppMode::UserSelection => if load_ok { AppMode::StoryList } else { AppMode::UserSelection },
            AppMode::StoryList => if load_ok { AppMode::StoryView } else { AppMode::StoryList },
            _ => AppMode::Chat,
        },
        _ => prev,
    }
}

/// `post` is `pre` after the driver carried out `cmd` with a load that
/// succeeded exactly when `ok`, and reported it back.
pub open spec fn load_completes(pre: SessionView, cmd: Command, ok: bool, post: SessionView) -> bool {
    match cmd {
        Command::LoadUsers => exists|r: Result<Vec<User>, String>, c: Command|
            r is Ok == ok && #[trigger] users_loaded(pre, r, post, c),
        Command::LoadStories(u) => exists|r: Result<Vec<Story>, String>|
            r is Ok == ok && #[trigger] stories_loaded(pre, u, r, post),
        Command::LoadPages(s) => exists|r: Result<Vec<Page>, String>|
            r is Ok == ok && #[trigger] pages_loaded(pre, s, r, post),
        _ => post == pre,
    }
}

/// A navigation key on which the move is decided by the screen, the key and
/// the load alone: no send is in flight, no story title is being composed,
/// and `Enter` points at an item of the list.
pub open spec fn plain_navigation(v: SessionView, key: KeyInput) -> bool {
    &&& !v.loading
    &&& !v.composing
    &&& match key {
        KeyInput::Enter => match v.mode {
            AppMode::UserSelection => v.selected < v.users.len(),
            AppMode::StoryList => v.selected < v.stories.len(),
            _ => true,
        },
        _ => true,
    }
}

/// Navigation is a pure function: after a navigation key, and after the load
/// it asks for has succeeded or failed, the screen depends only on the
/// previous screen, the key and that outcome.
pub proof fn lemma_mode_is_function_of_mode_key_and_load(
    pre: SessionView,
    key: KeyInput,
    mid: SessionView,
    cmd: Command,
    ok: bool,
    post: SessionView,
)
    requires
        session_wf(pre),
        plain_navigation(pre, key),
        key_step(pre, key, mid, cmd),
        load_completes(mid, cmd, ok, post),
    ensures
        post.mode == mode_after(pre.mode, key, ok),
{
    match cmd {
        Command::LoadUsers => {
            let (r, c) = choose|r: Result<Vec<User>, String>, c: Command|
                r is Ok == ok && #[trigger] users_loaded(mid, r, post, c);
        },
        Command::LoadStories(u) => {
            let r = choose|r: Result<Vec<Story>, String>| r is Ok == ok && #[trigger] stories_loaded(mid, u, r, post);
        },
        Command::LoadPages(s) => {
            let r = choose|r: Result<Vec<Page>, String>| r is Ok == ok && #[trigger] pages_loaded(mid, s, r, post);
        },
        _ => {},
    }
}

/// While a send is in flight, no key can start another one or touch the
/// history: the send stays in flight, at the stage it had reached.
pub proof fn lemma_keys_leave_send_in_flight(pre: SessionView, key: KeyInput, post: SessionView, cmd: Command)
    requires
        session_wf(pre),
        pre.loading,
        key_step(pre, key, post, cmd),
    ensures
        post.loading,
        post.stage == pre.stage,
        post.pages == pre.pages,
        post.input == pre.input,
        cmd is Nothing,
{
}

/// `s` is a send in flight that started from `s0`: it still holds the text
/// typed in `s0`, and the history is the one of `s0`.
pub open spec fn in_flight_from(s0: SessionView, s: SessionView) -> bool {
    &&& s.loading
    &&& stage_prompt(s.stage) == s0.input
    &&& s.pages == s0.pages
}

/// Accepting a send puts it in flight with the typed text kept.
pub proof fn lemma_send_starts_in_flight(s0: SessionView, s1: SessionView, cmd: Command)
    requires
        session_wf(s0),
        send_started(s0, s1, cmd),
    ensures
        in_flight_from(s0, s1),
{
}

/// Each step of a send in flight either keeps it in flight from the same
/// start, or ends it. It ends in failure with the history of the start and
/// the typed text back in the buffer, or, only at the counter step, in
/// success with one page more.
pub proof fn lemma_send_steps_resolve(s0: SessionView, s: SessionView)
    requires
        session_wf(s),
        in_flight_from(s0, s),
    ensures
        forall|o: Result<String, GenerationError>, post: SessionView, c: Command|
            #[trigger] generation_step(s, o, post, c) ==> in_flight_from(s0, post) || (!post.loading
                && post.pages == s0.pages && post.input == s0.input),
        forall|r: Result<i64, String>, post: SessionView, c: Command|
            #[trigger] number_step(s, r, post, c) ==> in_flight_from(s0, post) || (!post.loading
                && post.pages == s0.pages && post.input == s0.input),
        forall|r: Result<(), String>, post: SessionView, c: Command|
            #[trigger] insert_step(s, r, post, c) ==> in_flight_from(s0, post) || (!post.loading
                && post.pages == s0.pages && post.input == s0.input),
        forall|r: Result<(), String>, post: SessionView|
            #[trigger] counter_step(s, r, post) ==> if r is Ok && s.stage is Counting {
                !post.loading && post.pages.len() == s0.pages.len() + 1
                    && post.pages.drop_last() == s0.pages
            } else {
                in_flight_from(s0, post) || (!post.loading && post.pages == s0.pages && post.input == s0.input)
            },
{
    assert forall|r: Result<(), String>, post: SessionView| #[trigger] counter_step(s, r, post) implies if r is Ok
        && s.stage is Counting {
        !post.loading && post.pages.len() == s0.pages.len() + 1 && post.pages.drop_last() == s0.pages
    } else {
        in_flight_from(s0, post) || (!post.loading && post.pages == s0.pages && post.input == s0.input)
    } by {
        if r is Ok && s.stage is Counting {
            assert(post.pages.drop_last() =~= s0.pages);
        }
    }
}

/// The pages are numbered 1, 2, ... in order.
pub open spec fn numbered_in_order(pages: Seq<Page>) -> bool {
    forall|i: int| 0 <= i < pages.len() ==> #[trigger] pages[i].page_num == i + 1
}

/// A send that succeeds adds exactly one page to the history: the typed text
/// and the response, under the number that the store assigned, which the
/// story's counter then holds. Where the store assigns one more than the
/// highest number so far, the pages stay numbered in order and the counter
/// equals their count.
pub proof fn lemma_successful_send(
    s0: SessionView,
    s1: SessionView,
    c1: Command,
    text: String,
    s2: SessionView,
    c2: Command,
    n: i64,
    s3: SessionView,
    c3: Command,
    s4: SessionView,
    c4: Command,
    s5: SessionView,
)
    requires
        session_wf(s0),
        send_started(s0, s1, c1),
        generation_step(s1, Ok(text), s2, c2),
        number_step(s2, Ok(n), s3, c3),
        insert_step(s3, Ok(()), s4, c4),
        counter_step(s4, Ok(()), s5),
    ensures
        s5.pages.len() == s0.pages.len() + 1,
        s5.pages.drop_last() == s0.pages,
        s5.pages.last().page_num == n,
        s5.pages.last().prompt@ == s0.input,
        s5.pages.last().completion == text,
        s5.pages.last().story_id == s0.current_story->Some_0.id,
        s5.current_story->Some_0.current_page == n,
        !s5.loading,
        s5.input.len() == 0,
        numbered_in_order(s0.pages) && n == s0.pages.len() + 1 ==> numbered_in_order(s5.pages)
            && s5.current_story->Some_0.current_page == s5.pages.len(),
{
    assert(s5.pages.drop_last() =~= s0.pages);
    if numbered_in_order(s0.pages) && n == s0.pages.len() + 1 {
        assert forall|i: int| 0 <= i < s5.pages.len() implies #[trigger] s5.pages[i].page_num == i + 1 by {
            if i < s0.pages.len() {
                assert(s5.pages[i] == s0.pages[i]);
            }
        }
    }
}

/// Two sessions that agree on what the contracts see and get the same key
/// end in the same screen, cursor, buffer, lists and in-flight state. Only a
/// story created by the key differs, in its fresh identifier and time.
pub proof fn lemma_key_step_is_deterministic(
    pre: SessionView,
    key: KeyInput,
    post1: SessionView,
    cmd1: Command,
    post2: SessionView,
    cmd2: Command,
)
    requires
        session_wf(pre),
        key_step(pre, key, post1, cmd1),
        key_step(pre, key, post2, cmd2),
    ensures
        post1.running == post2.running,
        post1.mode == post2.mode,
        post1.selected == post2.selected,
        post1.input == post2.input,
        post1.users == post2.users,
        post1.stories == post2.stories,
        post1.current_user == post2.current_user,
        post1.current_story == post2.current_story,
        post1.pages == post2.pages,
        post1.loading == post2.loading,
        post1.composing == post2.composing,
        stage_prompt(post1.stage) == stage_prompt(post2.stage),
{
}

/// The cursor moves by one within its list and stops at both ends: `Down`
/// past the last item and `Up` at the first change nothing, on any list,
/// the empty one included.
pub proof fn lemma_cursor_moves_within_list(pre: SessionView, key: KeyInput, post: SessionView, cmd: Command)
    requires
        session_wf(pre),
        !pre.loading,
        key == KeyInput::Up || key == KeyInput::Down,
        key_step(pre, key, post, cmd),
    ensures
        post.mode == pre.mode,
        selection_in_bounds(post),
        key == KeyInput::Down ==> post.selected == if pre.selected + 1 < list_len(pre) {
            pre.selected + 1
        } else {
            pre.selected
        },
        key == KeyInput::Up ==> post.selected == if pre.selected > 0 {
            pre.selected - 1
        } else {
            0
        },
{
}

/// After any key, and after any load or story creation completes, the cursor
/// lies in `[0, max(0, len - 1)]` for the list of the screen, and every entry
/// into a screen puts it at 0.
pub proof fn lemma_cursor_stays_in_bounds(pre: SessionView)
    requires
        session_wf(pre),
    ensures
        forall|key: KeyInput, post: SessionView, c: Command|
            #[trigger] key_step(pre, key, post, c) ==> selection_in_bounds(post) && (post.mode != pre.mode
                ==> post.selected == 0),
        forall|r: Result<Vec<User>, String>, post: SessionView, c: Command|
            #[trigger] users_loaded(pre, r, post, c) ==> selection_in_bounds(post) && (r is Ok && !pre.loading
                ==> post.selected == 0),
        forall|u: User, r: Result<Vec<Story>, String>, post: SessionView|
            #[trigger] stories_loaded(pre, u, r, post) ==> selection_in_bounds(post) && (r is Ok && !pre.loading
                ==> post.selected == 0),
        forall|st: Story, r: Result<Vec<Page>, String>, post: SessionView|
            #[trigger] pages_loaded(pre, st, r, post) ==> selection_in_bounds(post),
        forall|st: Story, r: Result<(), String>, post: SessionView|
            #[trigger] story_created(pre, st, r, post) ==> selection_in_bounds(post),
{
}

} // verus!
