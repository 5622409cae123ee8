use vstd::prelude::*;

verus! {

/// A fresh random identifier, as its hyphenated lower-case text.
/// Relies on uuid::Uuid::new_v4 and its `Display`: the hyphenated form is 36 characters long.
#[verifier::external_body]
fn fresh_id() -> (r: String)
    ensures
        r@.len() == 36,
{
    uuid::Uuid::new_v4().to_string()
}

/// The current time in whole seconds since the Unix epoch, negative for a
/// clock set before it.
/// Relies on chrono's `From<SystemTime>` for `DateTime<Utc>`, which takes times
/// before the epoch as well, and on DateTime::timestamp. It fails only for a
/// clock more than about 262,000 years away from the present.
#[verifier::external_body]
fn now_seconds() -> (r: i64) {
    chrono::DateTime::<chrono::Utc>::from(std::time::SystemTime::now()).timestamp()
}

fn copy_opt_string(o: &Option<String>) -> (r: Option<String>)
    ensures
        r == *o,
{
    match o {
        Some(s) => Some(s.clone()),
        None => None,
    }
}

/// A person who owns stories.
pub struct User {
    pub id: String,
    pub name: Option<String>,
    pub email: Option<String>,
    pub email_verified: Option<i64>,
    pub image: Option<String>,
    pub created_at: i64,
    pub updated_at: i64,
}

impl Clone for User {
    fn clone(&self) -> (r: Self)
        ensures
            r == *self,
    {
        User {
            id: self.id.clone(),
            name: copy_opt_string(&self.name),
            email: copy_opt_string(&self.email),
            email_verified: self.email_verified,
            image: copy_opt_string(&self.image),
            created_at: self.created_at,
            updated_at: self.updated_at,
        }
    }
}

impl User {
    /// A new user with a fresh identifier, stamped with the current time.
    pub fn new(name: Option<String>, email: Option<String>) -> (r: User)
        ensures
            r.name == name,
            r.email == email,
            r.email_verified.is_none(),
            r.image.is_none(),
            r.id@.len() == 36,
            r.updated_at == r.created_at,
    {
        let now = now_seconds();
        User {
            id: fresh_id(),
            name,
            email,
            email_verified: None,
            image: None,
            created_at: now,
            updated_at: now,
        }
    }
}

/// An ordered collection of pages owned by a user. `current_page` counts the
/// pages committed to it.
pub struct Story {
    pub id: String,
    pub user_id: String,
    pub title: String,
    pub summary: String,
    pub current_page: i64,
    pub created_at: i64,
    pub updated_at: i64,
}

impl Clone for Story {
    fn clone(&self) -> (r: Self)
        ensures
            r == *self,
    {
        Story {
            id: self.id.clone(),
            user_id: self.user_id.clone(),
            title: self.title.clone(),
            summary: self.summary.clone(),
            current_page: self.current_page,
            created_at: self.created_at,
            updated_at: self.updated_at,
        }
    }
}

impl Story {
    /// A new story with no pages yet, so its page counter starts at zero.
    pub fn new(user_id: String, title: String) -> (r: Story)
        ensures
            r.user_id == user_id,
            r.title == title,
            r.summary@.len() == 0,
            r.current_page == 0,
            r.id@.len() == 36,
            r.updated_at == r.created_at,
    {
        let now = now_seconds();
        Story {
            id: fresh_id(),
            user_id,
            title,
            summary: String::new(),
            current_page: 0,
            created_at: now,
            updated_at: now,
        }
    }
}

/// One turn of a story: the user's prompt and the generated completion,
/// numbered within its story.
pub struct Page {
    pub id: String,
    pub story_id: String,
    pub page_num: i64,
    pub prompt: String,
    pub completion: String,
    pub summary: String,
    pub image_path: Option<String>,
    pub audio_path: Option<String>,
    pub created_at: i64,
    pub updated_at: i64,
}

impl Clone for Page {
    fn clone(&self) -> (r: Self)
        ensures
            r == *self,
    {
        Page {
            id: self.id.clone(),
            story_id: self.story_id.clone(),
            page_num: self.page_num,
            prompt: self.prompt.clone(),
            completion: self.completion.clone(),
            summary: self.summary.clone(),
            image_path: copy_opt_string(&self.image_path),
            audio_path: copy_opt_string(&self.audio_path),
            created_at: self.created_at,
            updated_at: self.updated_at,
        }
    }
}

impl Page {
    /// A new page with a fresh identifier, stamped with the current time.
    pub fn new(story_id: String, page_num: i64, prompt: String, completion: String) -> (r: Page)
        ensures
            r.story_id == story_id,
            r.page_num == page_num,
            r.prompt == prompt,
            r.completion == completion,
            r.summary@.len() == 0,
            r.image_path.is_none(),
            r.audio_path.is_none(),
            r.id@.len() == 36,
            r.updated_at == r.created_at,
    {
        let now = now_seconds();
        Page {
            id: fresh_id(),
            story_id,
            page_num,
            prompt,
            completion,
            summary: String::new(),
            image_path: None,
            audio_path: None,
            created_at: now,
            updated_at: now,
        }
    }
}

} // verus!
