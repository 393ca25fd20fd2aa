//! Item and user types returned by the API, with their mathematical views.

use vstd::prelude::*;

verus! {

/// A story.
#[derive(Debug, Clone, PartialEq)]
pub struct Story {
    /// The item's unique id.
    pub id: u32,
    /// The total comment count.
    pub descendants: u32,
    /// The username of the item's author.
    pub by: String,
    /// The ids of the item's comments, in ranked display order.
    pub kids: Option<Vec<u32>>,
    /// The story's score.
    pub score: u32,
    /// The title of the story.
    pub title: String,
    /// The URL of the story.
    pub url: Option<String>,
    /// The story text. HTML.
    pub text: Option<String>,
    /// Creation date of the item, in Unix Time.
    pub time: u64,
}

/// A comment.
#[derive(Debug, Clone, PartialEq)]
pub struct Comment {
    /// The item's unique id.
    pub id: u32,
    /// The username of the item's author.
    pub by: String,
    /// The ids of the item's comments, in ranked display order.
    pub kids: Option<Vec<u32>>,
    /// The comment's parent: either another comment or the relevant story.
    pub parent: u32,
    /// The comment text. HTML.
    pub text: String,
    /// Creation date of the item, in Unix Time.
    pub time: u64,
}

/// A job. Jobs carry no author field.
#[derive(Debug, Clone, PartialEq)]
pub struct Job {
    /// The item's unique id.
    pub id: u32,
    /// The job's score.
    pub score: u32,
    /// The job text. HTML.
    pub text: Option<String>,
    /// Creation date of the item, in Unix Time.
    pub time: u64,
    /// The title of the job.
    pub title: String,
    /// The URL of the job posting.
    pub url: Option<String>,
}

/// A poll.
#[derive(Debug, Clone, PartialEq)]
pub struct Poll {
    /// The item's unique id.
    pub id: u32,
    /// The username of the item's author.
    pub by: String,
    /// The total comment count.
    pub descendants: u32,
    /// The ids of the item's comments, in ranked display order.
    pub kids: Option<Vec<u32>>,
    /// A list of related pollopts, in display order.
    pub parts: Option<Vec<u32>>,
    /// The poll's score.
    pub score: u32,
    /// The title of the poll.
    pub title: String,
    /// The poll text. HTML.
    pub text: Option<String>,
    /// Creation date of the item, in Unix Time.
    pub time: u64,
}

/// A poll option belonging to a poll.
#[derive(Debug, Clone, PartialEq)]
pub struct Pollopt {
    /// The item's unique id.
    pub id: u32,
    /// The username of the item's author.
    pub by: String,
    /// The pollopt's associated poll.
    pub poll: u32,
    /// The votes for the pollopt.
    pub score: u32,
    /// The pollopt text. HTML.
    pub text: Option<String>,
    /// Creation date of the item, in Unix Time.
    pub time: u64,
}

/// An API item, for example a story or a comment, selected by the
/// payload's discriminant field.
#[derive(Debug, Clone, PartialEq)]
pub enum Item {
    /// A story.
    Story(Story),
    /// A comment.
    Comment(Comment),
    /// A job.
    Job(Job),
    /// A poll.
    Poll(Poll),
    /// A poll option belonging to a poll.
    Pollopt(Pollopt),
}

/// A user profile.
#[derive(Debug, Clone, PartialEq)]
pub struct User {
    /// The user's unique username.
    pub id: String,
    /// Creation date of the user, in Unix Time.
    pub created: u64,
    /// The user's karma.
    pub karma: i64,
    /// The user's optional self-description. HTML.
    pub about: Option<String>,
    /// The ids of the user's submitted items.
    pub submitted: Option<Vec<u32>>,
}

/// Recently changed items and user profiles.
#[derive(Debug, Clone, PartialEq)]
pub struct Updates {
    /// The ids of the recently changed items.
    pub items: Vec<u32>,
    /// The usernames of the recently changed profiles.
    pub profiles: Vec<String>,
}

/// The mathematical value of a `Story`.
pub struct StoryView {
    pub id: u32,
    pub descendants: u32,
    pub by: Seq<char>,
    pub kids: Option<Seq<u32>>,
    pub score: u32,
    pub title: Seq<char>,
    pub url: Option<Seq<char>>,
    pub text: Option<Seq<char>>,
    pub time: u64,
}

/// The mathematical value of a `Comment`.
pub struct CommentView {
    pub id: u32,
    pub by: Seq<char>,
    pub kids: Option<Seq<u32>>,
    pub parent: u32,
    pub text: Seq<char>,
    pub time: u64,
}

/// The mathematical value of a `Job`.
pub struct JobView {
    pub id: u32,
    pub score: u32,
    pub text: Option<Seq<char>>,
    pub time: u64,
    pub title: Seq<char>,
    pub url: Option<Seq<char>>,
}

/// The mathematical value of a `Poll`.
pub struct PollView {
    pub id: u32,
    pub by: Seq<char>,
    pub descendants: u32,
    pub kids: Option<Seq<u32>>,
    pub parts: Option<Seq<u32>>,
    pub score: u32,
    pub title: Seq<char>,
    pub text: Option<Seq<char>>,
    pub time: u64,
}

/// The mathematical value of a `Pollopt`.
pub struct PolloptView {
    pub id: u32,
    pub by: Seq<char>,
    pub poll: u32,
    pub score: u32,
    pub text: Option<Seq<char>>,
    pub time: u64,
}

/// The mathematical value of an `Item`.
pub enum ItemView {
    Story(StoryView),
    Comment(CommentView),
    Job(JobView),
    Poll(PollView),
    Pollopt(PolloptView),
}

/// The mathematical value of a `User`.
pub struct UserView {
    pub id: Seq<char>,
    pub created: u64,
    pub karma: i64,
    pub about: Option<Seq<char>>,
    pub submitted: Option<Seq<u32>>,
}

/// The mathematical value of an `Updates`.
pub struct UpdatesView {
    pub items: Seq<u32>,
    pub profiles: Seq<Seq<char>>,
}

/// The view of an optional owned string: its character sequence, if present.
pub open spec fn opt_str_view(o: Option<String>) -> Option<Seq<char>> {
    match o {
        Option::None => Option::None,
        Option::Some(s) => Option::Some(s@),
    }
}

/// The view of an optional id list: its id sequence, if present.
pub open spec fn opt_ids_view(o: Option<Vec<u32>>) -> Option<Seq<u32>> {
    match o {
        Option::None => Option::None,
        Option::Some(v) => Option::Some(v@),
    }
}

impl View for Story {
    type V = StoryView;

    open spec fn view(&self) -> StoryView {
        StoryView {
            id: self.id,
            descendants: self.descendants,
            by: self.by@,
            kids: opt_ids_view(self.kids),
            score: self.score,
            title: self.title@,
            url: opt_str_view(self.url),
            text: opt_str_view(self.text),
            time: self.time,
        }
    }
}

impl View for Comment {
    type V = CommentView;

    open spec fn view(&self) -> CommentView {
        CommentView {
            id: self.id,
            by: self.by@,
            kids: opt_ids_view(self.kids),
            parent: self.parent,
            text: self.text@,
            time: self.time,
        }
    }
}

impl View for Job {
    type V = JobView;

    open spec fn view(&self) -> JobView {
        JobView {
            id: self.id,
            score: self.score,
            text: opt_str_view(self.text),
            time: self.time,
            title: self.title@,
            url: opt_str_view(self.url),
        }
    }
}

impl View for Poll {
    type V = PollView;

    open spec fn view(&self) -> PollView {
        PollView {
            id: self.id,
            by: self.by@,
            descendants: self.descendants,
            kids: opt_ids_view(self.kids),
            parts: opt_ids_view(self.parts),
            score: self.score,
            title: self.title@,
            text: opt_str_view(self.text),
            time: self.time,
        }
    }
}

impl View for Pollopt {
    type V = PolloptView;

    open spec fn view(&self) -> PolloptView {
        PolloptView {
            id: self.id,
            by: self.by@,
            poll: self.poll,
            score: self.score,
            text: opt_str_view(self.text),
            time: self.time,
        }
    }
}

impl View for Item {
    type V = ItemView;

    open spec fn view(&self) -> ItemView {
        match self {
            Item::Story(s) => ItemView::Story(s@),
            Item::Comment(c) => ItemView::Comment(c@),
            Item::Job(j) => ItemView::Job(j@),
            Item::Poll(p) => ItemView::Poll(p@),
            Item::Pollopt(p) => ItemView::Pollopt(p@),
        }
    }
}

impl View for User {
    type V = UserView;

    open spec fn view(&self) -> UserView {
        UserView {
            id: self.id@,
            created: self.created,
            karma: self.karma,
            about: opt_str_view(self.about),
            submitted: opt_ids_view(self.submitted),
        }
    }
}

impl View for Updates {
    type V = UpdatesView;

    open spec fn view(&self) -> UpdatesView {
        UpdatesView {
            items: self.items@,
            profiles: Seq::new(self.profiles@.len(), |i: int| self.profiles@[i]@),
        }
    }
}

impl ItemView {
    /// The unique id of any item variant.
    pub open spec fn id(&self) -> u32 {
        match self {
            ItemView::Story(s) => s.id,
            ItemView::Comment(c) => c.id,
            ItemView::Job(j) => j.id,
            ItemView::Poll(p) => p.id,
            ItemView::Pollopt(p) => p.id,
        }
    }

    /// The author of an item variant; jobs carry none.
    pub open spec fn author(&self) -> Option<Seq<char>> {
        match self {
            ItemView::Story(s) => Option::Some(s.by),
            ItemView::Comment(c) => Option::Some(c.by),
            ItemView::Job(_) => Option::None,
            ItemView::Poll(p) => Option::Some(p.by),
            ItemView::Pollopt(p) => Option::Some(p.by),
        }
    }
}

impl Item {
    /// The author of an item, as an owned value; jobs carry none.
    pub open spec fn spec_author(&self) -> Option<String> {
        match self {
            Item::Story(s) => Option::Some(s.by),
            Item::Comment(c) => Option::Some(c.by),
            Item::Job(_) => Option::None,
            Item::Poll(p) => Option::Some(p.by),
            Item::Pollopt(p) => Option::Some(p.by),
        }
    }

    /// Return the item's unique id.
    pub fn id(&self) -> (r: u32)
        ensures
            r == self@.id(),
    {
        match self {
            Item::Story(s) => s.id,
            Item::Comment(c) => c.id,
            Item::Job(j) => j.id,
            Item::Poll(p) => p.id,
            Item::Pollopt(p) => p.id,
        }
    }

    /// Return the username of the item's author, if the variant carries one.
    /// Jobs have no author.
    pub fn author(&self) -> (r: Option<String>)
        ensures
            r == self.spec_author(),
            opt_str_view(r) == self@.author(),
    {
        match self {
            Item::Story(s) => Option::Some(s.by.clone()),
            Item::Comment(c) => Option::Some(c.by.clone()),
            Item::Job(_) => Option::None,
            Item::Poll(p) => Option::Some(p.by.clone()),
            Item::Pollopt(p) => Option::Some(p.by.clone()),
        }
    }
}

} // verus!
