//! The post table and the effect of each statement the service issues
//! against it: list the published rows in id order, fetch one row by id,
//! insert a row under a fresh id, apply a partial update, and delete a row
//! while reporting whether anything was deleted.

use vstd::prelude::*;

use crate::post::{apply_update, NewPost, NewPostView, Post, PostUpdate, PostUpdateView, PostView};

verus! {

/// Identifiers strictly increase along the table.
pub open spec fn sorted_by_id(s: Seq<PostView>) -> bool {
    forall|i: int, j: int| 0 <= i < j < s.len() ==> s[i].id < s[j].id
}

/// Some row of the table carries this identifier.
pub open spec fn contains_id(s: Seq<PostView>, id: int) -> bool {
    exists|k: int| 0 <= k < s.len() && s[k].id == id
}

/// The index of the row that carries this identifier.
pub open spec fn idx_of(s: Seq<PostView>, id: int) -> int {
    choose|k: int| 0 <= k < s.len() && s[k].id == id
}

/// The row under this identifier, if any.
pub open spec fn lookup(s: Seq<PostView>, id: int) -> Option<PostView> {
    if contains_id(s, id) {
        Some(s[idx_of(s, id)])
    } else {
        None
    }
}

/// The published rows of the table, in table order.
pub open spec fn published_only(s: Seq<PostView>) -> Seq<PostView>
    decreases s.len(),
{
    if s.len() == 0 {
        Seq::empty()
    } else if s.last().published {
        published_only(s.drop_last()).push(s.last())
    } else {
        published_only(s.drop_last())
    }
}

/// In a table with strictly increasing identifiers, an identifier pins down
/// its row.
pub proof fn lemma_id_unique(s: Seq<PostView>, i: int, j: int)
    requires
        sorted_by_id(s),
        0 <= i < s.len(),
        0 <= j < s.len(),
        s[i].id == s[j].id,
    ensures
        i == j,
{
    if i < j {
        assert(s[i].id < s[j].id);
    }
    if j < i {
        assert(s[j].id < s[i].id);
    }
}

/// Every row that `published_only` keeps is published.
pub proof fn lemma_published_only_published(s: Seq<PostView>)
    ensures
        forall|k: int|
            0 <= k < published_only(s).len() ==> (#[trigger] published_only(s)[k]).published,
    decreases s.len(),
{
    if s.len() > 0 {
        lemma_published_only_published(s.drop_last());
        let t = published_only(s.drop_last());
        assert forall|k: int|
            0 <= k < published_only(s).len() implies (#[trigger] published_only(
            s,
        )[k]).published by {
            if s.last().published && k == published_only(s).len() - 1 {
                assert(published_only(s)[k] == s.last());
            } else {
                assert(published_only(s)[k] == t[k]);
            }
        }
    }
}

/// A bound on every identifier survives `published_only`.
pub proof fn lemma_published_only_id_bound(s: Seq<PostView>, b: int)
    requires
        forall|k: int| 0 <= k < s.len() ==> (#[trigger] s[k]).id < b,
    ensures
        forall|k: int|
            0 <= k < published_only(s).len() ==> (#[trigger] published_only(s)[k]).id < b,
    decreases s.len(),
{
    if s.len() > 0 {
        assert forall|k: int| 0 <= k < s.drop_last().len() implies (#[trigger] s.drop_last()[k]).id
            < b by {
            assert(s.drop_last()[k] == s[k]);
        }
        lemma_published_only_id_bound(s.drop_last(), b);
        let t = published_only(s.drop_last());
        assert forall|k: int|
            0 <= k < published_only(s).len() implies (#[trigger] published_only(s)[k]).id < b by {
            if s.last().published && k == published_only(s).len() - 1 {
                assert(published_only(s)[k] == s.last());
                assert(s.last() == s[s.len() - 1]);
            } else {
                assert(published_only(s)[k] == t[k]);
            }
        }
    }
}

/// `published_only` keeps the rows in order, so its result is still sorted
/// by identifier.
pub proof fn lemma_published_only_sorted(s: Seq<PostView>)
    requires
        sorted_by_id(s),
    ensures
        sorted_by_id(published_only(s)),
    decreases s.len(),
{
    if s.len() > 0 {
        let t = s.drop_last();
        lemma_published_only_sorted(t);
        if s.last().published {
            lemma_published_only_id_bound(t, s.last().id);
        }
    }
}

/// A row pushed under a fresh identifier is found under that identifier,
/// and every other lookup is unchanged.
pub proof fn lemma_lookup_push_fresh(s: Seq<PostView>, p: PostView)
    requires
        sorted_by_id(s),
        !contains_id(s, p.id),
    ensures
        lookup(s.push(p), p.id) == Some(p),
        forall|id: int| id != p.id ==> lookup(s.push(p), id) == lookup(s, id),
{
    let s2 = s.push(p);
    assert(s2[s.len() as int] == p);
    assert(contains_id(s2, p.id));
    let k = idx_of(s2, p.id);
    assert(0 <= k < s2.len() && s2[k].id == p.id);
    if k < s.len() {
        assert(s2[k] == s[k]);
        assert(contains_id(s, p.id));
    }
    assert forall|id: int| id != p.id implies lookup(s2, id) == lookup(s, id) by {
        if contains_id(s2, id) {
            let k2 = idx_of(s2, id);
            assert(0 <= k2 < s2.len() && s2[k2].id == id);
            assert(k2 != s.len());
            assert(s2[k2] == s[k2]);
            assert(contains_id(s, id));
            let k1 = idx_of(s, id);
            assert(0 <= k1 < s.len() && s[k1].id == id);
            lemma_id_unique(s, k1, k2);
        } else {
            if contains_id(s, id) {
                let k1 = idx_of(s, id);
                assert(s2[k1] == s[k1]);
                assert(contains_id(s2, id));
            }
        }
    }
}

/// Creating a post and then fetching it by the returned identifier yields a
/// post with the given title and body, unpublished. The hypotheses are what
/// [`PostStore::create`] ensures about the table before and after.
pub proof fn lemma_create_then_find(
    pre: Seq<PostView>,
    post: Seq<PostView>,
    new_post: NewPostView,
    created: PostView,
)
    requires
        sorted_by_id(pre),
        !contains_id(pre, created.id),
        created.title == new_post.title,
        created.body == new_post.body,
        !created.published,
        post == pre.push(created),
    ensures
        lookup(post, created.id) == Some(created),
        lookup(post, created.id) matches Some(p) && p.title == new_post.title && p.body
            == new_post.body && !p.published,
{
    lemma_lookup_push_fresh(pre, created);
}

/// Updating only the title leaves the body and the published flag of the
/// post untouched, and touches no other row. The hypotheses are what
/// [`PostStore::update`] ensures when the identifier is present and only
/// the title is provided.
pub proof fn lemma_update_title_only(
    pre: Seq<PostView>,
    post: Seq<PostView>,
    id: int,
    title: Seq<char>,
)
    requires
        sorted_by_id(pre),
        contains_id(pre, id),
        post == pre.update(
            idx_of(pre, id),
            apply_update(
                pre[idx_of(pre, id)],
                (PostUpdateView { title: Some(title), body: None, published: None }),
            ),
        ),
    ensures
        lookup(pre, id) matches Some(p) && lookup(post, id) matches Some(q) && q.title == title
            && q.body == p.body && q.published == p.published && q.id == p.id,
        forall|other: int| other != id ==> lookup(post, other) == lookup(pre, other),
{
    let i = idx_of(pre, id);
    assert(0 <= i < pre.len() && pre[i].id == id);
    let p = pre[i];
    let q = apply_update(p, PostUpdateView { title: Some(title), body: None, published: None });
    assert(post[i] == q);
    assert forall|k: int| 0 <= k < post.len() implies (#[trigger] post[k]).id == pre[k].id by {}
    assert(sorted_by_id(post));
    assert(contains_id(post, id));
    lemma_id_unique(post, i, idx_of(post, id));
    assert forall|other: int| other != id implies lookup(post, other) == lookup(pre, other) by {
        if contains_id(pre, other) {
            let k1 = idx_of(pre, other);
            assert(0 <= k1 < pre.len() && pre[k1].id == other);
            assert(post[k1].id == other);
            assert(contains_id(post, other));
            let k2 = idx_of(post, other);
            assert(0 <= k2 < post.len() && post[k2].id == other);
            lemma_id_unique(post, k1, k2);
            assert(k1 != i);
            assert(post[k1] == pre[k1]);
        } else {
            if contains_id(post, other) {
                let k2 = idx_of(post, other);
                assert(pre[k2].id == other);
                assert(contains_id(pre, other));
            }
        }
    }
}

/// The post table, as the service sees it: the rows in identifier order and
/// the identifier the next insert will be given.
pub struct PostStore {
    posts: Vec<Post>,
    next_id: i32,
}

impl View for PostStore {
    type V = Seq<PostView>;

    closed spec fn view(&self) -> Seq<PostView> {
        self.posts@.map_values(|p: Post| p@)
    }
}

impl PostStore {
    /// The identifier the next created post will receive.
    pub closed spec fn spec_next_id(&self) -> int {
        self.next_id as int
    }

    /// The table's invariant: identifiers start at 1, strictly increase
    /// along the table, and stay below the next identifier to assign.
    pub closed spec fn wf(&self) -> bool {
        &&& 1 <= self.next_id
        &&& sorted_by_id(self@)
        &&& forall|k: int|
            0 <= k < self@.len() ==> 1 <= (#[trigger] self@[k]).id < self.spec_next_id()
    }

    /// What the invariant yields about the visible table.
    pub proof fn wf_facts(&self)
        requires
            self.wf(),
        ensures
            sorted_by_id(self@),
            forall|k: int|
                0 <= k < self@.len() ==> 1 <= (#[trigger] self@[k]).id < self.spec_next_id(),
            1 <= self.spec_next_id(),
    {
    }

    /// An empty table; the first post will get identifier 1.
    pub fn new() -> (s: Self)
        ensures
            s.wf(),
            s@ == Seq::<PostView>::empty(),
            s.spec_next_id() == 1,
    {
        let s = PostStore { posts: Vec::new(), next_id: 1 };
        proof {
            assert(s@ =~= Seq::<PostView>::empty());
        }
        s
    }

    /// The index of the row carrying `id`, if any.
    fn find_index(&self, id: i32) -> (r: Option<usize>)
        ensures
            match r {
                Some(i) => i < self@.len() && self@[i as int].id == id,
                None => !contains_id(self@, id as int),
            },
    {
        let mut i: usize = 0;
        while i < self.posts.len()
            invariant
                i <= self.posts@.len(),
                self@.len() == self.posts@.len(),
                forall|k: int| 0 <= k < i ==> (#[trigger] self@[k]).id != id,
            decreases self.posts@.len() - i,
        {
            if self.posts[i].id == id {
                return Some(i);
            }
            i += 1;
        }
        None
    }

    /// All published posts, in identifier order.
    pub fn all(&self) -> (r: Vec<Post>)
        requires
            self.wf(),
        ensures
            r@.map_values(|p: Post| p@) == published_only(self@),
            forall|k: int| 0 <= k < r@.len() ==> (#[trigger] r@[k])@.published,
            sorted_by_id(r@.map_values(|p: Post| p@)),
    {
        let mut r: Vec<Post> = Vec::new();
        let mut i: usize = 0;
        proof {
            assert(r@.map_values(|p: Post| p@) =~= published_only(self@.take(0)));
        }
        while i < self.posts.len()
            invariant
                i <= self.posts@.len(),
                self@.len() == self.posts@.len(),
                r@.map_values(|p: Post| p@) == published_only(self@.take(i as int)),
            decreases self.posts@.len() - i,
        {
            proof {
                assert(self@.take(i + 1).drop_last() =~= self@.take(i as int));
                assert(self@.take(i + 1).last() == self@[i as int]);
            }
            if self.posts[i].published {
                r.push(self.posts[i].clone());
                proof {
                    assert(r@.map_values(|p: Post| p@) =~= published_only(
                        self@.take(i as int),
                    ).push(self@[i as int]));
                }
            }
            i += 1;
        }
        proof {
            assert(self@.take(self@.len() as int) =~= self@);
            lemma_published_only_published(self@);
            lemma_published_only_sorted(self@);
            assert forall|k: int| 0 <= k < r@.len() implies (#[trigger] r@[k])@.published by {
                assert(r@.map_values(|p: Post| p@)[k] == published_only(self@)[k]);
            }
        }
        r
    }

    /// The post under `id`, or nothing when no post carries it.
    pub fn find_by_id(&self, id: i32) -> (r: Option<Post>)
        requires
            self.wf(),
        ensures
            r is None <==> lookup(self@, id as int) is None,
            r matches Some(p) ==> lookup(self@, id as int) == Some(p@),
    {
        match self.find_index(id) {
            Some(i) => {
                let p = (&self.posts[i]).clone();
                proof {
                    assert(contains_id(self@, id as int));
                    lemma_id_unique(self@, i as int, idx_of(self@, id as int));
                }
                Some(p)
            },
            None => None,
        }
    }

    /// Insert a new post under the next identifier; it starts unpublished.
    /// The new row lands at the end of the table, and its identifier was
    /// carried by no existing row.
    pub fn create(&mut self, new_post: NewPost) -> (r: Post)
        requires
            old(self).wf(),
            old(self).spec_next_id() < i32::MAX as int,
        ensures
            final(self).wf(),
            r@.id == old(self).spec_next_id(),
            1 <= r@.id,
            r@.title == new_post@.title,
            r@.body == new_post@.body,
            !r@.published,
            !contains_id(old(self)@, r@.id),
            final(self)@ == old(self)@.push(r@),
            final(self).spec_next_id() == old(self).spec_next_id() + 1,
    {
        let id = self.next_id;
        let p = Post { id, title: new_post.title, body: new_post.body, published: false };
        let r = p.clone();
        self.posts.push(p);
        self.next_id = id + 1;
        proof {
            assert(self@ =~= old(self)@.push(r@));
        }
        r
    }

    /// Apply a partial update to the post under `id`: each provided field
    /// replaces the stored one, each absent field is kept. Returns the
    /// updated post, or nothing — with the table unchanged — when no post
    /// carries `id`.
    pub fn update(&mut self, id: i32, post_update: PostUpdate) -> (r: Option<Post>)
        requires
            old(self).wf(),
        ensures
            final(self).wf(),
            final(self).spec_next_id() == old(self).spec_next_id(),
            match lookup(old(self)@, id as int) {
                Some(p) => {
                    &&& r matches Some(q) && q@ == apply_update(p, post_update@)
                    &&& final(self)@ == old(self)@.update(
                        idx_of(old(self)@, id as int),
                        apply_update(p, post_update@),
                    )
                },
                None => r is None && final(self)@ == old(self)@,
            },
    {
        match self.find_index(id) {
            Some(i) => {
                proof {
                    assert(contains_id(self@, id as int));
                    lemma_id_unique(self@, i as int, idx_of(self@, id as int));
                }
                let title = match post_update.title {
                    Some(t) => t,
                    None => self.posts[i].title.clone(),
                };
                let body = match post_update.body {
                    Some(b) => b,
                    None => self.posts[i].body.clone(),
                };
                let published = match post_update.published {
                    Some(f) => f,
                    None => self.posts[i].published,
                };
                let updated = Post { id: self.posts[i].id, title, body, published };
                let r = updated.clone();
                self.posts[i] = updated;
                proof {
                    assert(self@ =~= old(self)@.update(i as int, r@));
                    assert forall|k: int| 0 <= k < self@.len() implies (#[trigger] self@[k]).id
                        == old(self)@[k].id by {
                    }
                }
                Some(r)
            },
            None => None,
        }
    }

    /// Delete the post under `id`. Returns whether a post carried `id`;
    /// deleting an absent identifier reports failure and leaves the table
    /// unchanged.
    pub fn delete(&mut self, id: i32) -> (r: bool)
        requires
            old(self).wf(),
        ensures
            final(self).wf(),
            final(self).spec_next_id() == old(self).spec_next_id(),
            r == contains_id(old(self)@, id as int),
            r ==> final(self)@ == old(self)@.remove(idx_of(old(self)@, id as int)),
            !r ==> final(self)@ == old(self)@,
    {
        match self.find_index(id) {
            Some(i) => {
                proof {
                    assert(contains_id(self@, id as int));
                    lemma_id_unique(self@, i as int, idx_of(self@, id as int));
                }
                let _removed = self.posts.remove(i);
                proof {
                    assert(self@ =~= old(self)@.remove(i as int));
                    assert forall|k: int| 0 <= k < self@.len() implies (#[trigger] self@[k])
                        == (if k < i as int {
                        old(self)@[k]
                    } else {
                        old(self)@[k + 1]
                    }) by {
                    }
                }
                true
            },
            None => false,
        }
    }
}

} // verus!
