use story_primer::models::{Page, Story, User};
use story_primer::session::{App, AppMode, Command, KeyInput};

fn user(name: &str) -> User {
    User::new(Some(name.to_string()), Some(format!("{}@example.com", name)))
}

fn story(u: &User, title: &str) -> Story {
    Story::new(u.id.clone(), title.to_string())
}

fn app_with_users(n: usize) -> App {
    let mut app = App::new();
    let users: Vec<User> = (0..n).map(|i| user(&format!("u{}", i))).collect();
    let cmd = app.load_users(Ok(users));
    assert!(matches!(cmd, Command::Nothing));
    app
}

fn app_in_story_list(n_stories: usize) -> App {
    let mut app = app_with_users(1);
    let u = match app.handle_key(KeyInput::Enter) {
        Command::LoadStories(u) => u,
        _ => panic!("expected a story load"),
    };
    let stories: Vec<Story> = (0..n_stories).map(|i| story(&u, &format!("s{}", i))).collect();
    app.load_stories(u, Ok(stories));
    app
}

fn app_in_story_view() -> App {
    let mut app = app_in_story_list(1);
    let s = match app.handle_key(KeyInput::Enter) {
        Command::LoadPages(s) => s,
        _ => panic!("expected a page load"),
    };
    let pages = vec![Page::new(s.id.clone(), 1, "first prompt".to_string(), "first reply".to_string())];
    app.load_pages(s, Ok(pages));
    app
}

#[test]
fn cursor_resets_between_story_view_and_chat() {
    let mut app = app_in_story_list(1);
    let s = match app.handle_key(KeyInput::Enter) {
        Command::LoadPages(s) => s,
        _ => panic!("expected a page load"),
    };
    let pages = vec![
        Page::new(s.id.clone(), 1, "a".to_string(), "b".to_string()),
        Page::new(s.id.clone(), 2, "c".to_string(), "d".to_string()),
    ];
    app.load_pages(s, Ok(pages));
    app.handle_key(KeyInput::Down);
    assert_eq!(app.selected_index, 1);
    app.handle_key(KeyInput::Enter);
    assert_eq!(app.mode, AppMode::Chat);
    assert_eq!(app.selected_index, 0);
    app.handle_key(KeyInput::Down);
    assert_eq!(app.selected_index, 1);
    app.handle_key(KeyInput::Back);
    assert_eq!(app.mode, AppMode::StoryView);
    assert_eq!(app.selected_index, 0);
}

#[test]
fn status_lines_follow_keys() {
    let mut app = app_in_story_view();
    let before = app.status_message.clone();
    app.handle_key(KeyInput::Other);
    app.handle_key(KeyInput::Down);
    assert_eq!(app.status_message, before);
    app.handle_key(KeyInput::Enter);
    assert_eq!(app.status_message, "Chat mode - type your message");
    assert!(matches!(app.send_message(), Command::Nothing));
    assert_eq!(app.status_message, "Chat mode - type your message");
    app.handle_key(KeyInput::Char('x'));
    app.handle_key(KeyInput::Enter);
    assert_eq!(app.status_message, "AI is thinking...");
}

#[test]
fn new_session_starts_at_user_selection() {
    let app = App::new();
    assert!(app.running);
    assert_eq!(app.mode, AppMode::UserSelection);
    assert_eq!(app.selected_index, 0);
    assert!(!app.is_loading);
    assert!(app.users.is_empty());
    assert_eq!(app.status_message, "Welcome to Illustrated Primer");
}

#[test]
fn empty_user_list_seeds_demo_user() {
    let mut app = App::new();
    match app.load_users(Ok(Vec::new())) {
        Command::SaveUser(u) => {
            assert_eq!(u.name.as_deref(), Some("Demo User"));
            assert_eq!(u.email.as_deref(), Some("demo@example.com"));
            assert_eq!(u.id.len(), 36);
        }
        _ => panic!("expected the demo user to be saved"),
    }
    assert_eq!(app.users.len(), 1);
}

#[test]
fn failed_user_load_keeps_state_and_reports() {
    let mut app = app_with_users(2);
    let cmd = app.load_users(Err("database unreachable".to_string()));
    assert!(matches!(cmd, Command::Nothing));
    assert_eq!(app.users.len(), 2);
    assert_eq!(app.status_message, "database unreachable");
}

#[test]
fn enter_on_user_requests_story_load_without_moving() {
    let mut app = app_with_users(2);
    app.handle_key(KeyInput::Down);
    let cmd = app.handle_key(KeyInput::Enter);
    match cmd {
        Command::LoadStories(u) => assert_eq!(u.name.as_deref(), Some("u1")),
        _ => panic!("expected a story load"),
    }
    assert_eq!(app.mode, AppMode::UserSelection);
}

#[test]
fn successful_story_load_enters_story_list() {
    let app = app_in_story_list(3);
    assert_eq!(app.mode, AppMode::StoryList);
    assert_eq!(app.stories.len(), 3);
    assert_eq!(app.selected_index, 0);
    assert!(app.current_user.is_some());
}

#[test]
fn failed_story_load_aborts_transition() {
    let mut app = app_with_users(1);
    let u = match app.handle_key(KeyInput::Enter) {
        Command::LoadStories(u) => u,
        _ => panic!("expected a story load"),
    };
    app.load_stories(u, Err("query failed".to_string()));
    assert_eq!(app.mode, AppMode::UserSelection);
    assert!(app.current_user.is_none());
    assert_eq!(app.status_message, "query failed");
}

#[test]
fn failed_page_load_aborts_transition() {
    let mut app = app_in_story_list(1);
    let s = match app.handle_key(KeyInput::Enter) {
        Command::LoadPages(s) => s,
        _ => panic!("expected a page load"),
    };
    app.load_pages(s, Err("query failed".to_string()));
    assert_eq!(app.mode, AppMode::StoryList);
    assert!(app.current_story.is_none());
}

#[test]
fn story_view_enter_goes_to_chat_and_back_returns() {
    let mut app = app_in_story_view();
    assert_eq!(app.mode, AppMode::StoryView);
    assert_eq!(app.current_pages.len(), 1);
    app.handle_key(KeyInput::Enter);
    assert_eq!(app.mode, AppMode::Chat);
    app.handle_key(KeyInput::Back);
    assert_eq!(app.mode, AppMode::StoryView);
}

#[test]
fn back_from_story_view_reloads_stories() {
    let mut app = app_in_story_view();
    let u = match app.handle_key(KeyInput::Back) {
        Command::LoadStories(u) => u,
        _ => panic!("expected a story reload"),
    };
    assert_eq!(app.mode, AppMode::StoryView);
    app.load_stories(u, Ok(Vec::new()));
    assert_eq!(app.mode, AppMode::StoryList);
    assert!(app.current_story.is_none());
    assert!(app.current_pages.is_empty());
}

#[test]
fn back_from_story_list_reloads_users() {
    let mut app = app_in_story_list(1);
    assert!(matches!(app.handle_key(KeyInput::Back), Command::LoadUsers));
    assert_eq!(app.mode, AppMode::StoryList);
    app.load_users(Ok(vec![user("a")]));
    assert_eq!(app.mode, AppMode::UserSelection);
    assert!(app.current_user.is_none());
    assert!(app.stories.is_empty());
}

#[test]
fn back_at_user_selection_ends_session() {
    let mut app = app_with_users(1);
    app.handle_key(KeyInput::Back);
    assert!(!app.running);
    assert_eq!(app.mode, AppMode::UserSelection);
}

#[test]
fn quit_ends_session_from_any_screen() {
    let mut app = app_in_story_view();
    app.handle_key(KeyInput::Quit);
    assert!(!app.running);
}

#[test]
fn same_inputs_give_same_modes() {
    let script = [
        KeyInput::Down,
        KeyInput::Enter,
        KeyInput::Up,
        KeyInput::Enter,
        KeyInput::Enter,
        KeyInput::Enter,
        KeyInput::Back,
        KeyInput::Back,
        KeyInput::Back,
    ];
    let outcomes = [true, false, true, true, true];
    let mut modes_a = Vec::new();
    let mut modes_b = Vec::new();
    for modes in [&mut modes_a, &mut modes_b] {
        let mut app = app_with_users(2);
        let mut loads = outcomes.iter();
        for key in script {
            match app.handle_key(key) {
                Command::LoadStories(u) => {
                    if *loads.next().unwrap() {
                        let s = story(&u, "t");
                        app.load_stories(u, Ok(vec![s]));
                    } else {
                        app.load_stories(u, Err("x".to_string()));
                    }
                }
                Command::LoadPages(s) => {
                    if *loads.next().unwrap() {
                        app.load_pages(s, Ok(Vec::new()));
                    } else {
                        app.load_pages(s, Err("x".to_string()));
                    }
                }
                Command::LoadUsers => {
                    if *loads.next().unwrap() {
                        app.load_users(Ok(vec![user("a")]));
                    } else {
                        app.load_users(Err("x".to_string()));
                    }
                }
                _ => {}
            }
            modes.push(app.mode);
        }
    }
    assert_eq!(modes_a, modes_b);
    assert_eq!(
        modes_a,
        vec![
            AppMode::UserSelection,
            AppMode::StoryList,
            AppMode::StoryList,
            AppMode::StoryList,
            AppMode::StoryView,
            AppMode::Chat,
            AppMode::StoryView,
            AppMode::StoryList,
            AppMode::UserSelection,
        ]
    );
}

#[test]
fn cursor_is_clamped_at_upper_bound() {
    let mut app = app_with_users(3);
    for _ in 0..10 {
        app.handle_key(KeyInput::Down);
    }
    assert_eq!(app.selected_index, 2);
}

#[test]
fn cursor_is_clamped_at_zero() {
    let mut app = app_with_users(3);
    app.handle_key(KeyInput::Up);
    assert_eq!(app.selected_index, 0);
    app.handle_key(KeyInput::Down);
    app.handle_key(KeyInput::Up);
    app.handle_key(KeyInput::Up);
    assert_eq!(app.selected_index, 0);
}

#[test]
fn cursor_stays_at_zero_on_empty_list() {
    let mut app = app_in_story_list(0);
    app.handle_key(KeyInput::Down);
    app.handle_key(KeyInput::Down);
    assert_eq!(app.selected_index, 0);
    assert!(matches!(app.handle_key(KeyInput::Enter), Command::Nothing));
    assert_eq!(app.mode, AppMode::StoryList);
}

#[test]
fn cursor_resets_on_mode_entry() {
    let mut app = app_with_users(3);
    app.handle_key(KeyInput::Down);
    app.handle_key(KeyInput::Down);
    let u = match app.handle_key(KeyInput::Enter) {
        Command::LoadStories(u) => u,
        _ => panic!("expected a story load"),
    };
    let s = story(&u, "a");
    app.load_stories(u, Ok(vec![s]));
    assert_eq!(app.selected_index, 0);
}

#[test]
fn text_is_ignored_outside_chat() {
    let mut app = app_with_users(1);
    app.handle_key(KeyInput::Char('x'));
    app.handle_key(KeyInput::Char('n'));
    assert!(app.input_buffer.is_empty());
    assert!(!app.composing_title);
}

#[test]
fn chat_collects_and_erases_text() {
    let mut app = app_in_story_view();
    app.handle_key(KeyInput::Enter);
    app.handle_key(KeyInput::Char('h'));
    app.handle_key(KeyInput::Char('i'));
    app.handle_key(KeyInput::Char('!'));
    assert_eq!(app.input_buffer, "hi!");
    app.handle_key(KeyInput::Backspace);
    assert_eq!(app.input_buffer, "hi");
    app.handle_key(KeyInput::Back);
    assert_eq!(app.mode, AppMode::StoryView);
    assert_eq!(app.input_buffer, "hi");
    app.handle_key(KeyInput::Enter);
    assert_eq!(app.mode, AppMode::Chat);
    assert_eq!(app.input_buffer, "hi");
}

#[test]
fn backspace_on_empty_buffer_changes_nothing() {
    let mut app = app_in_story_view();
    app.handle_key(KeyInput::Enter);
    app.handle_key(KeyInput::Backspace);
    assert_eq!(app.input_buffer, "");
    assert_eq!(app.mode, AppMode::Chat);
}

#[test]
fn new_story_is_composed_and_created() {
    let mut app = app_in_story_list(1);
    app.handle_key(KeyInput::Char('n'));
    assert!(app.composing_title);
    for c in "Dragons".chars() {
        app.handle_key(KeyInput::Char(c));
    }
    let s = match app.handle_key(KeyInput::Enter) {
        Command::CreateStory(s) => s,
        _ => panic!("expected a story to create"),
    };
    assert_eq!(s.title, "Dragons");
    assert_eq!(s.current_page, 0);
    assert_eq!(s.user_id, app.current_user.as_ref().unwrap().id);
    assert_eq!(app.mode, AppMode::StoryList);
    app.create_new_story(s, Ok(()));
    assert_eq!(app.mode, AppMode::Chat);
    assert!(app.current_pages.is_empty());
    assert_eq!(app.current_story.as_ref().unwrap().title, "Dragons");
}

#[test]
fn failed_story_creation_stays_in_list() {
    let mut app = app_in_story_list(1);
    app.handle_key(KeyInput::Char('n'));
    app.handle_key(KeyInput::Char('a'));
    let s = match app.handle_key(KeyInput::Enter) {
        Command::CreateStory(s) => s,
        _ => panic!("expected a story to create"),
    };
    app.create_new_story(s, Err("constraint failed".to_string()));
    assert_eq!(app.mode, AppMode::StoryList);
    assert!(app.current_story.is_none());
}

#[test]
fn composing_title_can_be_cancelled() {
    let mut app = app_in_story_list(1);
    app.handle_key(KeyInput::Char('n'));
    app.handle_key(KeyInput::Char('a'));
    assert!(matches!(app.handle_key(KeyInput::Back), Command::Nothing));
    assert!(!app.composing_title);
    assert_eq!(app.input_buffer, "");
    assert_eq!(app.mode, AppMode::StoryList);
}

#[test]
fn other_input_changes_nothing() {
    let mut app = app_in_story_view();
    let before = app.mode;
    assert!(matches!(app.handle_key(KeyInput::Other), Command::Nothing));
    assert_eq!(app.mode, before);
    assert_eq!(app.current_pages.len(), 1);
}
