use vstd::prelude::*;

use crate::context::{context_of, conversation_context, views_of, ChatMessage};
use crate::models::{Page, Story, User};
use crate::prompt::system_prompt_text;
use crate::stream::GenerationError;

verus! {

/// Appends a character to a string.
/// Relies on String::push, which appends `c` to the end of `s`.
#[verifier::external_body]
fn push_char(s: &mut String, c: char)
    ensures
        final(s)@ == old(s)@.push(c),
{
    s.push(c);
}

/// Removes the last character of a string, if there is one.
/// Relies on String::pop, which removes the last character and leaves an empty string empty.
#[verifier::external_body]
fn pop_char(s: &mut String)
    ensures
        final(s)@ == if old(s)@.len() > 0 {
            old(s)@.drop_last()
        } else {
            old(s)@
        },
{
    s.pop();
}

/// The screens of a session, from the outermost in.
#[derive(Clone, Copy, Debug, PartialEq, Eq, Structural)]
pub enum AppMode {
    UserSelection,
    StoryList,
    StoryView,
    Chat,
}

/// The inputs that the session reacts to.
#[derive(Clone, Copy, Debug, PartialEq, Eq, Structural)]
pub enum KeyInput {
    /// Ends the session from any screen.
    Quit,
    /// Goes back one level; in the outermost screen it ends the session.
    Back,
    Enter,
    Up,
    Down,
    Char(char),
    Backspace,
    /// Anything else, such as a resize or a tick: it changes nothing.
    Other,
}

/// What the driver of a session must do next, outside the session, and
/// report back with the matching method.
pub enum Command {
    Nothing,
    /// Store this user, seeded because no user existed yet.
    SaveUser(User),
    /// Load the users, then call `load_users`.
    LoadUsers,
    /// Load this user's stories, then call `load_stories`.
    LoadStories(User),
    /// Load this story's pages, then call `load_pages`.
    LoadPages(Story),
    /// Store this new story, then call `create_new_story`.
    CreateStory(Story),
    /// Ask the completion service with this context, then call `generation_finished`.
    Generate(Vec<ChatMessage>),
    /// Ask the store for the next page number of this story, then call `page_number_fetched`.
    FetchPageNum(String),
    /// Store this page, then call `page_inserted`.
    InsertPage(Page),
    /// Increment the page counter of this story, then call `counter_incremented`.
    IncrementCounter(String),
}

/// How far the send of a message has come. Every stage but `Idle` keeps the
/// text the user typed, to give it back if the send fails.
pub enum SendStage {
    Idle,
    Generating { prompt: String },
    Numbering { prompt: String, completion: String },
    Inserting { prompt: String, page: Page },
    Counting { prompt: String, page: Page },
}

pub open spec fn stage_prompt(st: SendStage) -> Seq<char> {
    match st {
        SendStage::Idle => Seq::empty(),
        SendStage::Generating { prompt } => prompt@,
        SendStage::Numbering { prompt, .. } => prompt@,
        SendStage::Inserting { prompt, .. } => prompt@,
        SendStage::Counting { prompt, .. } => prompt@,
    }
}

/// The state of a session, as the contracts see it. The status message is
/// left out: nothing is promised of it but that the latest one wins.
pub struct SessionView {
    pub running: bool,
    pub mode: AppMode,
    pub current_user: Option<User>,
    pub users: Seq<User>,
    pub stories: Seq<Story>,
    pub current_story: Option<Story>,
    pub pages: Seq<Page>,
    pub input: Seq<char>,
    pub selected: int,
    pub loading: bool,
    pub composing: bool,
    pub stage: SendStage,
}

/// The length of the list that the selection cursor moves over in `v`'s mode.
pub open spec fn list_len(v: SessionView) -> int {
    match v.mode {
        AppMode::UserSelection => v.users.len() as int,
        AppMode::StoryList => v.stories.len() as int,
        _ => v.pages.len() as int,
    }
}

/// The cursor lies in `[0, max(0, len - 1)]` for the list of the current mode.
pub open spec fn selection_in_bounds(v: SessionView) -> bool {
    0 <= v.selected && (v.selected == 0 || v.selected < list_len(v))
}

/// The invariant of a session.
pub open spec fn session_wf(v: SessionView) -> bool {
    &&& selection_in_bounds(v)
    &&& v.loading == !(v.stage is Idle)
    &&& v.loading ==> v.mode == AppMode::Chat
    &&& v.mode != AppMode::UserSelection ==> v.current_user is Some
    &&& (v.mode == AppMode::StoryView || v.mode == AppMode::Chat) ==> v.current_story is Some
    &&& v.composing ==> v.mode == AppMode::StoryList
}

/// Whether text typed now goes into the input buffer.
pub open spec fn takes_text(v: SessionView) -> bool {
    v.mode == AppMode::Chat || v.composing
}

/// The session's response to one key: the state after it and the command it
/// hands to the driver. While a send is in flight only `Quit` is taken.
pub open spec fn key_step(pre: SessionView, key: KeyInput, post: SessionView, cmd: Command) -> bool {
    if pre.loading {
        cmd is Nothing && if key == KeyInput::Quit {
            post == SessionView { running: false, ..pre }
        } else {
            post == pre
        }
    } else {
        match key {
            KeyInput::Quit => cmd is Nothing && post == SessionView { running: false, ..pre },
            KeyInput::Up => cmd is Nothing && post == SessionView {
                selected: if pre.selected > 0 { pre.selected - 1 } else { pre.selected },
                ..pre
            },
            KeyInput::Down => cmd is Nothing && post == SessionView {
                selected: if pre.selected + 1 < list_len(pre) { pre.selected + 1 } else { pre.selected },
                ..pre
            },
            KeyInput::Char(c) => cmd is Nothing && if takes_text(pre) {
                post == SessionView { input: pre.input.push(c), ..pre }
            } else if pre.mode == AppMode::StoryList && c == 'n' {
                post == SessionView { composing: true, input: Seq::empty(), ..pre }
            } else {
                post == pre
            },
            KeyInput::Backspace => cmd is Nothing && if takes_text(pre) && pre.input.len() > 0 {
                post == SessionView { input: pre.input.drop_last(), ..pre }
            } else {
                post == pre
            },
            KeyInput::Back => match pre.mode {
                AppMode::UserSelection => cmd is Nothing && post == SessionView { running: false, ..pre },
                AppMode::StoryList => if pre.composing {
                    cmd is Nothing && post == SessionView { composing: false, input: Seq::empty(), ..pre }
                } else {
                    cmd == Command::LoadUsers && post == pre
                },
                AppMode::StoryView => cmd == Command::LoadStories(pre.current_user.unwrap()) && post == pre,
                AppMode::Chat => cmd is Nothing && post == SessionView {
                    mode: AppMode::StoryView,
                    selected: 0,
                    ..pre
                },
            },
            KeyInput::Enter => match pre.mode {
                AppMode::UserSelection => post == pre && if pre.selected < pre.users.len() {
                    cmd == Command::LoadStories(pre.users[pre.selected])
                } else {
                    cmd is Nothing
                },
                AppMode::StoryList => if pre.composing {
                    if pre.input.len() > 0 {
                        post == SessionView { composing: false, input: Seq::empty(), ..pre }
                            && cmd is CreateStory && new_story_for(cmd->CreateStory_0, pre.current_user.unwrap(), pre.input)
                    } else {
                        cmd is Nothing && post == pre
                    }
                } else {
                    post == pre && if pre.selected < pre.stories.len() {
                        cmd == Command::LoadPages(pre.stories[pre.selected])
                    } else {
                        cmd is Nothing
                    }
                },
                AppMode::StoryView => cmd is Nothing && post == SessionView {
                    mode: AppMode::Chat,
                    selected: 0,
                    ..pre
                },
                AppMode::Chat => if pre.input.len() > 0 {
                    send_started(pre, post, cmd)
                } else {
                    cmd is Nothing && post == pre
                },
            },
            KeyInput::Other => cmd is Nothing && post == pre,
        }
    }
}

/// The status line while a send is still waiting for its reply.
pub open spec fn busy_text() -> Seq<char> {
    "Still waiting for the previous reply"@
}

/// The status line after `key`, where it was `before`: keys that start
/// something announce it, a send refused while another is in flight says so,
/// and every other key leaves the line as it was.
pub open spec fn status_after_key(pre: SessionView, key: KeyInput, before: Seq<char>) -> Seq<char> {
    if pre.loading {
        if key == KeyInput::Enter {
            busy_text()
        } else {
            before
        }
    } else {
        match key {
            KeyInput::Char(c) => if !takes_text(pre) && pre.mode == AppMode::StoryList && c == 'n' {
                "Enter story title:"@
            } else {
                before
            },
            KeyInput::Enter => match pre.mode {
                AppMode::StoryView => "Chat mode - type your message"@,
                AppMode::Chat => if pre.input.len() > 0 {
                    "AI is thinking..."@
                } else {
                    before
                },
                _ => before,
            },
            _ => before,
        }
    }
}

/// `s` is a fresh story of `user`, titled `title`, with no pages yet.
pub open spec fn new_story_for(s: Story, user: User, title: Seq<char>) -> bool {
    s.user_id == user.id && s.title@ == title && s.current_page == 0 && s.summary@.len() == 0
}

/// A send was accepted: the typed text moved out of the buffer into the
/// in-flight stage, and the context for it goes to the completion service.
pub open spec fn send_started(pre: SessionView, post: SessionView, cmd: Command) -> bool {
    &&& post == SessionView { input: Seq::empty(), loading: true, stage: post.stage, ..pre }
    &&& post.stage is Generating
    &&& stage_prompt(post.stage) == pre.input
    &&& cmd is Generate
    &&& views_of(cmd->Generate_0@) == context_of(system_prompt_text(), pre.pages, pre.input)
}

/// The demo account seeded when no user exists yet.
pub open spec fn is_demo_user(u: User) -> bool {
    &&& u.name is Some && u.name->Some_0@ == "Demo User"@
    &&& u.email is Some && u.email->Some_0@ == "demo@example.com"@
}

/// `post` is `pre` after entering `mode` with freshly loaded data: the cursor,
/// the buffer and any title being composed are reset.
pub open spec fn entered(pre: SessionView, post: SessionView, mode: AppMode) -> bool {
    &&& post.mode == mode
    &&& post.selected == 0
    &&& post.input.len() == 0
    &&& !post.composing
    &&& post.running == pre.running
    &&& post.loading == pre.loading
    &&& post.stage == pre.stage
}

/// The user list arrived (or failed to). With no user at all, a demo user is
/// seeded and handed out to be stored.
pub open spec fn users_loaded(pre: SessionView, result: Result<Vec<User>, String>, post: SessionView, cmd: Command) -> bool {
    if pre.loading || result is Err {
        post == pre && cmd is Nothing
    } else {
        let list = result->Ok_0@;
        &&& entered(pre, post, AppMode::UserSelection)
        &&& post.current_user is None
        &&& post.current_story is None
        &&& post.stories.len() == 0
        &&& post.pages.len() == 0
        &&& if list.len() > 0 {
            post.users == list && cmd is Nothing
        } else {
            cmd is SaveUser && post.users == seq![cmd->SaveUser_0] && is_demo_user(cmd->SaveUser_0)
        }
    }
}

/// The stories of `user` arrived (or failed to).
pub open spec fn stories_loaded(pre: SessionView, user: User, result: Result<Vec<Story>, String>, post: SessionView) -> bool {
    if pre.loading || result is Err {
        post == pre
    } else {
        post == SessionView {
            mode: AppMode::StoryList,
            current_user: Some(user),
            stories: result->Ok_0@,
            current_story: None,
            pages: Seq::empty(),
            input: Seq::empty(),
            selected: 0,
            composing: false,
            ..pre
        }
    }
}

/// The pages of `story` arrived (or failed to).
pub open spec fn pages_loaded(pre: SessionView, story: Story, result: Result<Vec<Page>, String>, post: SessionView) -> bool {
    if pre.loading || pre.current_user is None || result is Err {
        post == pre
    } else {
        post == SessionView {
            mode: AppMode::StoryView,
            current_story: Some(story),
            pages: result->Ok_0@,
            input: Seq::empty(),
            selected: 0,
            composing: false,
            ..pre
        }
    }
}

/// The new `story` was stored (or was not).
pub open spec fn story_created(pre: SessionView, story: Story, result: Result<(), String>, post: SessionView) -> bool {
    if pre.loading || pre.current_user is None || result is Err {
        post == pre
    } else {
        post == SessionView {
            mode: AppMode::Chat,
            current_story: Some(story),
            pages: Seq::empty(),
            input: Seq::empty(),
            selected: 0,
            composing: false,
            ..pre
        }
    }
}

/// A send failed: it is no longer in flight, the history is untouched and
/// the typed text is back in the buffer.
pub open spec fn send_failed(pre: SessionView, post: SessionView) -> bool {
    post == SessionView { input: stage_prompt(pre.stage), loading: false, stage: SendStage::Idle, ..pre }
}

/// The completion service answered (or failed).
pub open spec fn generation_step(pre: SessionView, outcome: Result<String, GenerationError>, post: SessionView, cmd: Command) -> bool {
    match pre.stage {
        SendStage::Generating { prompt } => match outcome {
            Ok(text) => post == SessionView { stage: SendStage::Numbering { prompt, completion: text }, ..pre }
                && cmd == Command::FetchPageNum(pre.current_story->Some_0.id),
            Err(_) => send_failed(pre, post) && cmd is Nothing,
        },
        _ => post == pre && cmd is Nothing,
    }
}

/// `p` is the new page numbered `n` of the story `story_id`.
pub open spec fn new_page_for(p: Page, story_id: String, n: i64, prompt: String, completion: String) -> bool {
    &&& p.story_id == story_id
    &&& p.page_num == n
    &&& p.prompt == prompt
    &&& p.completion == completion
    &&& p.summary@.len() == 0
    &&& p.image_path is None
    &&& p.audio_path is None
}

/// The store assigned the next page number (or failed to).
pub open spec fn number_step(pre: SessionView, result: Result<i64, String>, post: SessionView, cmd: Command) -> bool {
    match pre.stage {
        SendStage::Numbering { prompt, completion } => match result {
            Ok(n) => {
                &&& cmd is InsertPage
                &&& new_page_for(cmd->InsertPage_0, pre.current_story->Some_0.id, n, prompt, completion)
                &&& post == SessionView { stage: SendStage::Inserting { prompt, page: cmd->InsertPage_0 }, ..pre }
            },
            Err(_) => send_failed(pre, post) && cmd is Nothing,
        },
        _ => post == pre && cmd is Nothing,
    }
}

/// The store saved the page (or failed to). Only a saved page leads to the
/// counter increment.
pub open spec fn insert_step(pre: SessionView, result: Result<(), String>, post: SessionView, cmd: Command) -> bool {
    match pre.stage {
        SendStage::Inserting { prompt, page } => match result {
            Ok(_) => post == SessionView { stage: SendStage::Counting { prompt, page }, ..pre }
                && cmd == Command::IncrementCounter(page.story_id),
            Err(_) => send_failed(pre, post) && cmd is Nothing,
        },
        _ => post == pre && cmd is Nothing,
    }
}

/// The story's page counter was incremented (or was not). Only now does the
/// page join the history, and the story's counter become its number.
pub open spec fn counter_step(pre: SessionView, result: Result<(), String>, post: SessionView) -> bool {
    match pre.stage {
        SendStage::Counting { prompt, page } => match result {
            Ok(_) => post == SessionView {
                pages: pre.pages.push(page),
                current_story: Some(Story { current_page: page.page_num, ..pre.current_story->Some_0 }),
                loading: false,
                stage: SendStage::Idle,
                ..pre
            },
            Err(_) => send_failed(pre, post),
        },
        _ => post == pre,
    }
}

/// The status line that reports a failed step of a send.
pub open spec fn error_text(detail: Seq<char>) -> Seq<char> {
    "Error: "@ + detail
}

/// The status line that reports why a generation failed.
pub open spec fn generation_error_text(e: GenerationError) -> Seq<char> {
    match e {
        GenerationError::Upstream(msg) => error_text(msg@),
        GenerationError::Truncated => "Error: the reply was cut off"@,
    }
}

/// One orchestrated session: navigation state, loaded lists and the message
/// send in progress. The user and story lists are snapshots, valid until the
/// next reload: every screen that shows one reloads it on entry, and page
/// numbers always come from the store, never from the loaded pages.
pub struct App {
    pub running: bool,
    pub mode: AppMode,
    pub current_user: Option<User>,
    pub users: Vec<User>,
    pub stories: Vec<Story>,
    pub current_story: Option<Story>,
    pub current_pages: Vec<Page>,
    pub input_buffer: String,
    pub selected_index: usize,
    pub status_message: String,
    pub is_loading: bool,
    pub composing_title: bool,
    pub send: SendStage,
}

impl View for App {
    type V = SessionView;

    open spec fn view(&self) -> SessionView {
        SessionView {
            running: self.running,
            mode: self.mode,
            current_user: self.current_user,
            users: self.users@,
            stories: self.stories@,
            current_story: self.current_story,
            pages: self.current_pages@,
            input: self.input_buffer@,
            selected: self.selected_index as int,
            loading: self.is_loading,
            composing: self.composing_title,
            stage: self.send,
        }
    }
}

impl App {
    /// A session at the user selection screen, with nothing loaded yet.
    pub fn new() -> (r: App)
        ensures
            session_wf(r@),
            r@.running,
            r@.mode == AppMode::UserSelection,
            r@.current_user is None,
            r@.current_story is None,
            r@.users.len() == 0,
            r@.stories.len() == 0,
            r@.pages.len() == 0,
            r@.input.len() == 0,
            r@.selected == 0,
            !r@.loading,
            !r@.composing,
            r.status_message@ == "Welcome to Illustrated Primer"@,
    {
        App {
            running: true,
            mode: AppMode::UserSelection,
            current_user: None,
            users: Vec::new(),
            stories: Vec::new(),
            current_story: None,
            current_pages: Vec::new(),
            input_buffer: String::new(),
            selected_index: 0,
            status_message: String::from_str("Welcome to Illustrated Primer"),
            is_loading: false,
            composing_title: false,
            send: SendStage::Idle,
        }
    }

    fn list_len(&self) -> (r: usize)
        ensures
            r as int == list_len(self@),
    {
        match self.mode {
            AppMode::UserSelection => self.users.len(),
            AppMode::StoryList => self.stories.len(),
            _ => self.current_pages.len(),
        }
    }

    /// Reacts to one key. Navigation that needs fresh data does not change the
    /// screen yet: it hands back the load to perform.
    pub fn handle_key(&mut self, key: KeyInput) -> (cmd: Command)
        requires
            session_wf(old(self)@),
        ensures
            session_wf(final(self)@),
            key_step(old(self)@, key, final(self)@, cmd),
            final(self).status_message@ == status_after_key(old(self)@, key, old(self).status_message@),
    {
        if self.is_loading {
            if key == KeyInput::Quit {
                self.running = false;
            } else if key == KeyInput::Enter {
                self.status_message = String::from_str("Still waiting for the previous reply");
            }
            return Command::Nothing;
        }
        match key {
            KeyInput::Quit => {
                self.running = false;
                Command::Nothing
            },
            KeyInput::Up => {
                if self.selected_index > 0 {
                    self.selected_index = self.selected_index - 1;
                }
                Command::Nothing
            },
            KeyInput::Down => {
                let n = self.list_len();
                if n > 0 && self.selected_index < n - 1 {
                    self.selected_index = self.selected_index + 1;
                }
                Command::Nothing
            },
            KeyInput::Char(c) => {
                if self.mode == AppMode::Chat || self.composing_title {
                    push_char(&mut self.input_buffer, c);
                } else if self.mode == AppMode::StoryList && c == 'n' {
                    self.composing_title = true;
                    self.input_buffer = String::new();
                    self.status_message = String::from_str("Enter story title:");
                }
                Command::Nothing
            },
            KeyInput::Backspace => {
                if self.mode == AppMode::Chat || self.composing_title {
                    pop_char(&mut self.input_buffer);
                }
                Command::Nothing
            },
            KeyInput::Back => self.go_back(),
            KeyInput::Enter => self.handle_enter(),
            KeyInput::Other => Command::Nothing,
        }
    }

    fn go_back(&mut self) -> (cmd: Command)
        requires
            session_wf(old(self)@),
            !old(self)@.loading,
        ensures
            session_wf(final(self)@),
            key_step(old(self)@, KeyInput::Back, final(self)@, cmd),
            final(self).status_message == old(self).status_message,
    {
        match self.mode {
            AppMode::UserSelection => {
                self.running = false;
                Command::Nothing
            },
            AppMode::StoryList => {
                if self.composing_title {
                    self.composing_title = false;
                    self.input_buffer = String::new();
                    Command::Nothing
                } else {
                    Command::LoadUsers
                }
            },
            AppMode::StoryView => {
                match &self.current_user {
                    Some(u) => Command::LoadStories(u.clone()),
                    None => Command::Nothing,
                }
            },
            AppMode::Chat => {
                self.mode = AppMode::StoryView;
                self.selected_index = 0;
                Command::Nothing
            },
        }
    }

    fn handle_enter(&mut self) -> (cmd: Command)
        requires
            session_wf(old(self)@),
            !old(self)@.loading,
        ensures
            session_wf(final(self)@),
            key_step(old(self)@, KeyInput::Enter, final(self)@, cmd),
            final(self).status_message@ == status_after_key(old(self)@, KeyInput::Enter, old(self).status_message@),
    {
        match self.mode {
            AppMode::UserSelection => {
                if self.selected_index < self.users.len() {
                    Command::LoadStories(self.users[self.selected_index].clone())
                } else {
                    Command::Nothing
                }
            },
            AppMode::StoryList => {
                if self.composing_title {
                    if self.input_buffer.as_str().is_empty() {
                        Command::Nothing
                    } else {
                        let title = self.input_buffer.clone();
                        self.input_buffer = String::new();
                        self.composing_title = false;
                        match &self.current_user {
                            Some(u) => Command::CreateStory(Story::new(u.id.clone(), title)),
                            None => Command::Nothing,
                        }
                    }
                } else if self.selected_index < self.stories.len() {
                    Command::LoadPages(self.stories[self.selected_index].clone())
                } else {
                    Command::Nothing
                }
            },
            AppMode::StoryView => {
                self.mode = AppMode::Chat;
                self.selected_index = 0;
                self.status_message = String::from_str("Chat mode - type your message");
                Command::Nothing
            },
            AppMode::Chat => self.send_message(),
        }
    }

    /// Starts sending the typed message: marks the send in flight, moves the
    /// text out of the buffer and hands back the context for the completion
    /// service. An empty buffer, a send already in flight, or a screen other
    /// than the chat leave the session as it is.
    pub fn send_message(&mut self) -> (cmd: Command)
        requires
            session_wf(old(self)@),
        ensures
            session_wf(final(self)@),
            final(self)@.pages == old(self)@.pages,
            if old(self)@.mode == AppMode::Chat && !old(self)@.loading && old(self)@.input.len() > 0 {
                send_started(old(self)@, final(self)@, cmd)
            } else {
                cmd is Nothing && final(self)@ == old(self)@
            },
            final(self).status_message@ == if old(self)@.mode == AppMode::Chat && old(self)@.input.len() > 0 {
                if old(self)@.loading {
                    busy_text()
                } else {
                    "AI is thinking..."@
                }
            } else {
                old(self).status_message@
            },
    {
        if self.mode != AppMode::Chat || self.input_buffer.as_str().is_empty() {
            return Command::Nothing;
        }
        if self.is_loading {
            self.status_message = String::from_str("Still waiting for the previous reply");
            return Command::Nothing;
        }
        let prompt = self.input_buffer.clone();
        let context = conversation_context(&self.current_pages, prompt.as_str());
        self.input_buffer = String::new();
        self.is_loading = true;
        self.send = SendStage::Generating { prompt };
        self.status_message = String::from_str("AI is thinking...");
        Command::Generate(context)
    }
    /// Installs the loaded user list and enters the user selection screen. A
    /// failed load leaves the session where it was.
    pub fn load_users(&mut self, result: Result<Vec<User>, String>) -> (cmd: Command)
        requires
            session_wf(old(self)@),
        ensures
            session_wf(final(self)@),
            users_loaded(old(self)@, result, final(self)@, cmd),
            !old(self)@.loading && result is Err ==> final(self).status_message == result->Err_0,
    {
        if self.is_loading {
            return Command::Nothing;
        }
        match result {
            Ok(list) => {
                let ghost loaded = list@;
                let mut cmd = Command::Nothing;
                if list.len() > 0 {
                    self.users = list;
                } else {
                    let demo = User::new(
                        Some(String::from_str("Demo User")),
                        Some(String::from_str("demo@example.com")),
                    );
                    let mut seeded: Vec<User> = Vec::new();
                    seeded.push(demo.clone());
                    self.users = seeded;
                    cmd = Command::SaveUser(demo);
                }
                self.mode = AppMode::UserSelection;
                self.current_user = None;
                self.current_story = None;
                self.stories = Vec::new();
                self.current_pages = Vec::new();
                self.input_buffer = String::new();
                self.selected_index = 0;
                self.composing_title = false;
                proof {
                    assert(loaded.len() > 0 ==> self.users@ == loaded);
                    assert(cmd is SaveUser ==> self.users@ =~= seq![cmd->SaveUser_0]);
                }
                cmd
            },
            Err(e) => {
                self.status_message = e;
                Command::Nothing
            },
        }
    }

    /// Installs the stories of `user` and enters the story list. A failed
    /// load leaves the session where it was.
    pub fn load_stories(&mut self, user: User, result: Result<Vec<Story>, String>)
        requires
            session_wf(old(self)@),
        ensures
            session_wf(final(self)@),
            stories_loaded(old(self)@, user, result, final(self)@),
            !old(self)@.loading && result is Err ==> final(self).status_message == result->Err_0,
    {
        if self.is_loading {
            return;
        }
        match result {
            Ok(list) => {
                self.stories = list;
                self.current_user = Some(user);
                self.current_story = None;
                self.current_pages = Vec::new();
                self.input_buffer = String::new();
                self.selected_index = 0;
                self.composing_title = false;
                self.mode = AppMode::StoryList;
                self.status_message = String::from_str("Select a story");
            },
            Err(e) => {
                self.status_message = e;
            },
        }
    }

    /// Installs the pages of `story` and enters the story view. A failed load
    /// leaves the session where it was.
    pub fn load_pages(&mut self, story: Story, result: Result<Vec<Page>, String>)
        requires
            session_wf(old(self)@),
        ensures
            session_wf(final(self)@),
            pages_loaded(old(self)@, story, result, final(self)@),
            !old(self)@.loading && old(self)@.current_user is Some && result is Err
                ==> final(self).status_message == result->Err_0,
    {
        if self.is_loading || self.current_user.is_none() {
            return;
        }
        match result {
            Ok(list) => {
                self.current_pages = list;
                self.current_story = Some(story);
                self.input_buffer = String::new();
                self.selected_index = 0;
                self.composing_title = false;
                self.mode = AppMode::StoryView;
                self.status_message = String::from_str("Story pages loaded");
            },
            Err(e) => {
                self.status_message = e;
            },
        }
    }

    /// Opens the chat on the newly stored `story`. A failed store leaves the
    /// session where it was.
    pub fn create_new_story(&mut self, story: Story, result: Result<(), String>)
        requires
            session_wf(old(self)@),
        ensures
            session_wf(final(self)@),
            story_created(old(self)@, story, result, final(self)@),
            !old(self)@.loading && old(self)@.current_user is Some && result is Err
                ==> final(self).status_message == result->Err_0,
    {
        if self.is_loading || self.current_user.is_none() {
            return;
        }
        match result {
            Ok(_) => {
                self.current_story = Some(story);
                self.current_pages = Vec::new();
                self.input_buffer = String::new();
                self.selected_index = 0;
                self.composing_title = false;
                self.mode = AppMode::Chat;
                self.status_message = String::from_str("New story created. Start chatting!");
            },
            Err(e) => {
                self.status_message = e;
            },
        }
    }

    fn fail_send(&mut self, prompt: String, status: String)
        requires
            session_wf(old(self)@),
            old(self)@.loading,
            prompt@ == stage_prompt(old(self)@.stage),
        ensures
            session_wf(final(self)@),
            send_failed(old(self)@, final(self)@),
            final(self).status_message == status,
    {
        self.input_buffer = prompt;
        self.is_loading = false;
        self.send = SendStage::Idle;
        self.status_message = status;
    }

    /// Takes the outcome of the completion call. A response moves on to
    /// numbering the page; a failure or a truncated stream ends the send.
    pub fn generation_finished(&mut self, outcome: Result<String, GenerationError>) -> (cmd: Command)
        requires
            session_wf(old(self)@),
        ensures
            session_wf(final(self)@),
            generation_step(old(self)@, outcome, final(self)@, cmd),
            old(self)@.stage is Generating && outcome is Err ==> final(self).status_message@
                == generation_error_text(outcome->Err_0),
    {
        let prompt = match &self.send {
            SendStage::Generating { prompt } => prompt.clone(),
            _ => {
                return Command::Nothing;
            },
        };
        match outcome {
            Ok(text) => {
                let story_id = match &self.current_story {
                    Some(st) => st.id.clone(),
                    None => {
                        return Command::Nothing;
                    },
                };
                self.send = SendStage::Numbering { prompt, completion: text };
                Command::FetchPageNum(story_id)
            },
            Err(e) => {
                let status = match e {
                    GenerationError::Upstream(msg) => String::from_str("Error: ").concat(msg.as_str()),
                    GenerationError::Truncated => String::from_str("Error: the reply was cut off"),
                };
                self.fail_send(prompt, status);
                Command::Nothing
            },
        }
    }

    /// Takes the page number that the store assigned and hands out the page to store.
    pub fn page_number_fetched(&mut self, result: Result<i64, String>) -> (cmd: Command)
        requires
            session_wf(old(self)@),
        ensures
            session_wf(final(self)@),
            number_step(old(self)@, result, final(self)@, cmd),
            old(self)@.stage is Numbering && result is Err ==> final(self).status_message@
                == error_text(result->Err_0@),
    {
        let (prompt, completion) = match &self.send {
            SendStage::Numbering { prompt, completion } => (prompt.clone(), completion.clone()),
            _ => {
                return Command::Nothing;
            },
        };
        match result {
            Ok(n) => {
                let story_id = match &self.current_story {
                    Some(st) => st.id.clone(),
                    None => {
                        return Command::Nothing;
                    },
                };
                let page = Page::new(story_id, n, prompt.clone(), completion);
                self.send = SendStage::Inserting { prompt, page: page.clone() };
                Command::InsertPage(page)
            },
            Err(e) => {
                self.fail_send(prompt, String::from_str("Error: ").concat(e.as_str()));
                Command::Nothing
            },
        }
    }

    /// Takes the outcome of storing the page. Only a stored page leads on to
    /// the counter increment.
    pub fn page_inserted(&mut self, result: Result<(), String>) -> (cmd: Command)
        requires
            session_wf(old(self)@),
        ensures
            session_wf(final(self)@),
            insert_step(old(self)@, result, final(self)@, cmd),
            old(self)@.stage is Inserting && result is Err ==> final(self).status_message@
                == error_text(result->Err_0@),
    {
        let (prompt, page) = match &self.send {
            SendStage::Inserting { prompt, page } => (prompt.clone(), page.clone()),
            _ => {
                return Command::Nothing;
            },
        };
        match result {
            Ok(_) => {
                let story_id = page.story_id.clone();
                self.send = SendStage::Counting { prompt, page };
                Command::IncrementCounter(story_id)
            },
            Err(e) => {
                self.fail_send(prompt, String::from_str("Error: ").concat(e.as_str()));
                Command::Nothing
            },
        }
    }

    /// Takes the outcome of the counter increment, which completes the commit:
    /// the page joins the history and the send is over.
    pub fn counter_incremented(&mut self, result: Result<(), String>)
        requires
            session_wf(old(self)@),
        ensures
            session_wf(final(self)@),
            counter_step(old(self)@, result, final(self)@),
            old(self)@.stage is Counting && result is Err ==> final(self).status_message@ == error_text(
                result->Err_0@,
            ),
            old(self)@.stage is Counting && result is Ok ==> final(self).status_message@ == "Message sent!"@,
    {
        let (prompt, page) = match &self.send {
            SendStage::Counting { prompt, page } => (prompt.clone(), page.clone()),
            _ => {
                return;
            },
        };
        match result {
            Ok(_) => {
                let story = match &self.current_story {
                    Some(st) => st.clone(),
                    None => {
                        return;
                    },
                };
                let updated = Story { current_page: page.page_num, ..story };
                self.current_story = Some(updated);
                self.current_pages.push(page);
                self.is_loading = false;
                self.send = SendStage::Idle;
                self.status_message = String::from_str("Message sent!");
            },
            Err(e) => {
                self.fail_send(prompt, String::from_str("Error: ").concat(e.as_str()));
            },
        }
    }
}

} // verus!
