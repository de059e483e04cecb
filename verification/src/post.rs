//! The post entity and the shapes a request can carry: a new post and a
//! partial update.

use vstd::prelude::*;

verus! {

/// A stored post: a server-assigned identifier, a title, a body, and a
/// published flag.
pub struct Post {
    pub id: i32,
    pub title: String,
    pub body: String,
    pub published: bool,
}

/// The mathematical value of a [`Post`].
pub struct PostView {
    pub id: int,
    pub title: Seq<char>,
    pub body: Seq<char>,
    pub published: bool,
}

impl View for Post {
    type V = PostView;

    open spec fn view(&self) -> PostView {
        PostView {
            id: self.id as int,
            title: self.title@,
            body: self.body@,
            published: self.published,
        }
    }
}

impl Clone for Post {
    fn clone(&self) -> (r: Self)
        ensures
            r@ == self@,
    {
        Post {
            id: self.id,
            title: self.title.clone(),
            body: self.body.clone(),
            published: self.published,
        }
    }
}

/// The payload of a create request: a title and a body. The store assigns
/// the identifier, and a new post starts unpublished.
pub struct NewPost {
    pub title: String,
    pub body: String,
}

/// The mathematical value of a [`NewPost`].
pub struct NewPostView {
    pub title: Seq<char>,
    pub body: Seq<char>,
}

impl View for NewPost {
    type V = NewPostView;

    open spec fn view(&self) -> NewPostView {
        NewPostView { title: self.title@, body: self.body@ }
    }
}

/// The payload of an update request: any subset of the mutable fields.
/// A field left at `None` keeps its stored value.
pub struct PostUpdate {
    pub title: Option<String>,
    pub body: Option<String>,
    pub published: Option<bool>,
}

/// The mathematical value of a [`PostUpdate`].
pub struct PostUpdateView {
    pub title: Option<Seq<char>>,
    pub body: Option<Seq<char>>,
    pub published: Option<bool>,
}

impl View for PostUpdate {
    type V = PostUpdateView;

    open spec fn view(&self) -> PostUpdateView {
        PostUpdateView {
            title: match self.title {
                Some(t) => Some(t@),
                None => None,
            },
            body: match self.body {
                Some(b) => Some(b@),
                None => None,
            },
            published: self.published,
        }
    }
}

/// The post that an update leaves behind: each provided field replaces the
/// stored one, each absent field is kept, and the identifier never changes.
pub open spec fn apply_update(p: PostView, u: PostUpdateView) -> PostView {
    PostView {
        id: p.id,
        title: match u.title {
            Some(t) => t,
            None => p.title,
        },
        body: match u.body {
            Some(b) => b,
            None => p.body,
        },
        published: match u.published {
            Some(f) => f,
            None => p.published,
        },
    }
}

} // verus!
