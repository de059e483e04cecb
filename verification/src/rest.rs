//! The REST handlers' decisions: what each route answers, given the post
//! table. Reading the request and writing the response stay outside; the
//! handlers here take plain values and return plain values.

use vstd::prelude::*;

use crate::http::HttpStatus;
use crate::post::{apply_update, NewPost, Post, PostUpdate};
use crate::store::{contains_id, idx_of, lookup, published_only, PostStore};

verus! {

/// The decimal digit characters.
pub open spec fn digit_char(d: int) -> char {
    if d == 0 {
        '0'
    } else if d == 1 {
        '1'
    } else if d == 2 {
        '2'
    } else if d == 3 {
        '3'
    } else if d == 4 {
        '4'
    } else if d == 5 {
        '5'
    } else if d == 6 {
        '6'
    } else if d == 7 {
        '7'
    } else if d == 8 {
        '8'
    } else {
        '9'
    }
}

/// The decimal representation of a number, most significant digit first.
pub open spec fn dec_seq(n: nat) -> Seq<char>
    decreases n,
{
    if n < 10 {
        seq![digit_char(n as int)]
    } else {
        dec_seq(n / 10) + seq![digit_char((n % 10) as int)]
    }
}

/// One decimal digit as a string.
fn digit_str(d: u32) -> (s: &'static str)
    requires
        d < 10,
    ensures
        s@ == seq![digit_char(d as int)],
{
    proof {
        reveal_strlit("0");
        reveal_strlit("1");
        reveal_strlit("2");
        reveal_strlit("3");
        reveal_strlit("4");
        reveal_strlit("5");
        reveal_strlit("6");
        reveal_strlit("7");
        reveal_strlit("8");
        reveal_strlit("9");
    }
    let s = match d {
        0 => "0",
        1 => "1",
        2 => "2",
        3 => "3",
        4 => "4",
        5 => "5",
        6 => "6",
        7 => "7",
        8 => "8",
        _ => "9",
    };
    proof {
        assert(s@ =~= seq![digit_char(d as int)]);
    }
    s
}

/// A number written in decimal.
pub fn dec_string(n: u32) -> (s: String)
    ensures
        s@ == dec_seq(n as nat),
    decreases n,
{
    if n < 10 {
        String::from_str(digit_str(n))
    } else {
        let mut s = dec_string(n / 10);
        s.append(digit_str(n % 10));
        proof {
            assert(s@ =~= dec_seq((n / 10) as nat) + seq![digit_char((n % 10) as int)]);
        }
        s
    }
}

/// The location of the post under `id`, as the create route reports it.
pub fn post_uri(id: i32) -> (s: String)
    requires
        id >= 0,
    ensures
        s@ == "/api/posts/"@ + dec_seq(id as nat),
{
    let mut s = String::from_str("/api/posts/");
    let digits = dec_string(id as u32);
    s.append(digits.as_str());
    s
}

/// A created resource: where it now lives and what it holds.
pub struct Created {
    pub location: String,
    pub post: Post,
}

/// The health route answers no-content, always.
pub fn health() -> (r: HttpStatus)
    ensures
        r is NoContent,
{
    HttpStatus::NoContent
}

/// List the published posts, in identifier order.
pub fn list_posts(store: &PostStore) -> (r: Vec<Post>)
    requires
        store.wf(),
    ensures
        r@.map_values(|p: Post| p@) == published_only(store@),
        forall|k: int| 0 <= k < r@.len() ==> (#[trigger] r@[k])@.published,
{
    store.all()
}

/// Fetch one post by identifier; an absent identifier yields nothing, not
/// an error.
pub fn get_post(store: &PostStore, id: i32) -> (r: Option<Post>)
    requires
        store.wf(),
    ensures
        r is None <==> lookup(store@, id as int) is None,
        r matches Some(p) ==> lookup(store@, id as int) == Some(p@),
{
    store.find_by_id(id)
}

/// Create a post from the given title and body and report the new resource
/// together with its location.
pub fn create_post(store: &mut PostStore, new_post: NewPost) -> (r: Created)
    requires
        old(store).wf(),
        old(store).spec_next_id() < i32::MAX as int,
    ensures
        final(store).wf(),
        r.post@.id == old(store).spec_next_id(),
        r.post@.title == new_post@.title,
        r.post@.body == new_post@.body,
        !r.post@.published,
        !contains_id(old(store)@, r.post@.id),
        final(store)@ == old(store)@.push(r.post@),
        r.location@ == "/api/posts/"@ + dec_seq(r.post@.id as nat),
{
    let post = store.create(new_post);
    let location = post_uri(post.id);
    Created { location, post }
}

/// Apply a partial update to the post under `id`; an absent identifier
/// yields nothing and leaves the table unchanged.
pub fn update_post(store: &mut PostStore, id: i32, post_update: PostUpdate) -> (r: Option<Post>)
    requires
        old(store).wf(),
    ensures
        final(store).wf(),
        match lookup(old(store)@, id as int) {
            Some(p) => {
                &&& r matches Some(q) && q@ == apply_update(p, post_update@)
                &&& final(store)@ == old(store)@.update(
                    idx_of(old(store)@, id as int),
                    apply_update(p, post_update@),
                )
            },
            None => r is None && final(store)@ == old(store)@,
        },
{
    store.update(id, post_update)
}

/// Delete the post under `id`. Deleting carries no body, so success is
/// no-content; an absent identifier yields nothing — not-found, not an
/// error — and leaves the table unchanged.
pub fn delete_post(store: &mut PostStore, id: i32) -> (r: Option<HttpStatus>)
    requires
        old(store).wf(),
    ensures
        final(store).wf(),
        r is Some <==> contains_id(old(store)@, id as int),
        r matches Some(s) ==> s is NoContent,
        r is Some ==> final(store)@ == old(store)@.remove(idx_of(old(store)@, id as int)),
        r is None ==> final(store)@ == old(store)@,
{
    if store.delete(id) {
        Some(HttpStatus::NoContent)
    } else {
        None
    }
}

} // verus!
