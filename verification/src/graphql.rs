//! The GraphQL adaptation layer's decisions: turning the form-encoded GET
//! variant into a request, accepting a batch on the single-request route,
//! mapping a parse failure to an HTTP status, assembling the response
//! headers, and the resolvers themselves, which mirror the REST semantics
//! over the post table — an absent identifier is null, not a failure.

use vstd::prelude::*;

use crate::http::{Header, HttpStatus};
use crate::post::{apply_update, NewPost, Post, PostUpdate};
use crate::store::{contains_id, idx_of, lookup, published_only, PostStore};

verus! {

/// serde_json's JSON value, carried opaquely through a request.
#[verifier::external_type_specification]
#[verifier::external_body]
pub struct ExValue(serde_json::Value);

/// Relies on serde_json::from_str::<serde_json::Value>, which parses JSON
/// text, and on Value's Default, which is null: any text that is not valid
/// JSON yields the null value, as the form variant of the route wants.
#[verifier::external_body]
fn parse_variables(s: &str) -> serde_json::Value {
    serde_json::from_str(s).unwrap_or_default()
}

/// The form-encoded GET variant of a GraphQL request: the document, and the
/// operation name and variables as they stood in the query string.
pub struct Query {
    pub query: String,
    pub operation_name: Option<String>,
    pub variables: Option<String>,
}

/// A single GraphQL request: the document, the operation to run, and the
/// variables as a JSON value.
pub struct Request {
    pub query: String,
    pub operation_name: Option<String>,
    pub variables: Option<serde_json::Value>,
}

impl Request {
    /// The request a form query stands for: the document and operation name
    /// carry over, and the variables text, when present, is read as JSON.
    pub fn from(query: Query) -> (r: Request)
        ensures
            r.query@ == query.query@,
            r.operation_name is Some <==> query.operation_name is Some,
            r.operation_name matches Some(m) ==> query.operation_name matches Some(n) && m@ == n@,
            r.variables is Some <==> query.variables is Some,
    {
        let variables = match query.variables {
            Some(v) => Some(parse_variables(v.as_str())),
            None => None,
        };
        Request { query: query.query, operation_name: query.operation_name, variables }
    }
}

/// What the single-or-batched route received: one request, or a list.
pub enum BatchRequest {
    Single(Request),
    Batch(Vec<Request>),
}

/// Why a request body could not be turned into a request.
#[derive(Debug)]
pub enum ParseRequestError {
    /// Reading the body failed, with the reader's message.
    Io(String),
    /// The body was not a well-formed request, with the decoder's message.
    InvalidRequest(String),
    /// The body was larger than the route accepts.
    PayloadTooLarge,
    /// The body held a list of requests, which this route does not take.
    UnsupportedBatch,
}

impl BatchRequest {
    /// The single-request route takes a batch only when it is one request;
    /// a list — of any length — is refused as unsupported.
    pub fn into_single(self) -> (r: Result<Request, ParseRequestError>)
        ensures
            self matches BatchRequest::Single(req) ==> r matches Ok(q) && q == req,
            self matches BatchRequest::Batch(_) ==> r matches Err(e)
                && e is UnsupportedBatch,
    {
        match self {
            BatchRequest::Single(req) => Ok(req),
            BatchRequest::Batch(_) => Err(ParseRequestError::UnsupportedBatch),
        }
    }
}

/// The status a refused body answers with: an oversized payload has its own
/// status, every other parse failure is a bad request.
pub fn status_for_parse_error(error: &ParseRequestError) -> (s: HttpStatus)
    ensures
        error is PayloadTooLarge ==> s is PayloadTooLarge,
        !(error is PayloadTooLarge) ==> s is BadRequest,
{
    match error {
        ParseRequestError::PayloadTooLarge => HttpStatus::PayloadTooLarge,
        _ => HttpStatus::BadRequest,
    }
}

/// A GraphQL response about to be written: its serialized JSON body,
/// whether every response in it succeeded, and what the execution asked to
/// put in the headers.
pub struct Response {
    pub body: String,
    pub is_ok: bool,
    pub cache_control: Option<String>,
    pub http_headers: Vec<Header>,
}

impl Response {
    /// The headers this response is sent with.
    pub open spec fn spec_headers(self) -> Seq<(Seq<char>, Seq<char>)> {
        seq![("Content-Type"@, "application/json"@)] + if self.is_ok {
            (match self.cache_control {
                Some(c) => seq![("cache-control"@, c@)],
                None => Seq::empty(),
            }) + self.http_headers@.map_values(|h: Header| h@)
        } else {
            Seq::empty()
        }
    }

    /// Assemble the headers: the JSON content type always; and only when
    /// every response of the batch succeeded, the cache-control value, if
    /// there is one, then the headers the execution set.
    pub fn respond_headers(&self) -> (r: Vec<Header>)
        ensures
            r@.map_values(|h: Header| h@) == self.spec_headers(),
    {
        let mut r: Vec<Header> = Vec::new();
        r.push(
            Header {
                name: String::from_str("Content-Type"),
                value: String::from_str("application/json"),
            },
        );
        if self.is_ok {
            match &self.cache_control {
                Some(c) => {
                    r.push(Header { name: String::from_str("cache-control"), value: c.clone() });
                },
                None => {},
            }
            let ghost prefix: Seq<(Seq<char>, Seq<char>)> = r@.map_values(|h: Header| h@);
            let mut i: usize = 0;
            while i < self.http_headers.len()
                invariant
                    i <= self.http_headers@.len(),
                    r@.map_values(|h: Header| h@) == prefix + self.http_headers@.map_values(
                        |h: Header| h@,
                    ).take(i as int),
                decreases self.http_headers@.len() - i,
            {
                let h = (&self.http_headers[i]).clone();
                proof {
                    assert(h@ == self.http_headers@.map_values(|h: Header| h@)[i as int]);
                }
                let ghost r_old = r@;
                r.push(h);
                proof {
                    let views = self.http_headers@.map_values(|h: Header| h@);
                    let goal = prefix + views.take(i + 1);
                    assert(r@ == r_old.push(h));
                    assert(r_old.map_values(|h: Header| h@) == prefix + views.take(i as int));
                    assert(r_old.map_values(|h: Header| h@).len() == r_old.len());
                    assert(views.len() == self.http_headers@.len());
                    assert(r@.len() == goal.len());
                    assert forall|k: int| 0 <= k < r@.len() implies r@.map_values(
                        |h: Header| h@,
                    )[k] == #[trigger] goal[k] by {
                        assert(r@.map_values(|h: Header| h@)[k] == r@[k]@);
                        if k < r_old.len() {
                            assert(r@[k] == r_old[k]);
                            assert(r_old.map_values(|h: Header| h@)[k] == r_old[k]@);
                            assert(r_old.map_values(|h: Header| h@)[k] == (prefix + views.take(
                                i as int,
                            ))[k]);
                        } else {
                            assert(r@[k] == h);
                        }
                    }
                    assert(r@.map_values(|h: Header| h@) =~= goal);
                }
                i += 1;
            }
            proof {
                let views = self.http_headers@.map_values(|h: Header| h@);
                assert(views.take(views.len() as int) =~= views);
                assert(r@.map_values(|h: Header| h@) =~= self.spec_headers());
            }
        } else {
            proof {
                assert(r@.map_values(|h: Header| h@) =~= self.spec_headers());
            }
        }
        r
    }
}

/// The query side of the schema.
pub struct QueryRoot;

/// The mutation side of the schema.
pub struct MutationRoot;

impl QueryRoot {
    /// The hello query greets by name.
    pub fn hello(&self, name: String) -> (r: String)
        ensures
            r@ == "Hello "@ + name@ + "! o/"@,
    {
        let mut s = String::from_str("Hello ");
        s.append(name.as_str());
        s.append("! o/");
        s
    }

    /// All published posts, in identifier order — the same answer the REST
    /// list route gives.
    pub fn posts(&self, store: &PostStore) -> (r: Vec<Post>)
        requires
            store.wf(),
        ensures
            r@.map_values(|p: Post| p@) == published_only(store@),
            forall|k: int| 0 <= k < r@.len() ==> (#[trigger] r@[k])@.published,
    {
        store.all()
    }

    /// One post by identifier; an absent identifier is null, not a failure.
    pub fn post(&self, store: &PostStore, id: i32) -> (r: Option<Post>)
        requires
            store.wf(),
        ensures
            r is None <==> lookup(store@, id as int) is None,
            r matches Some(p) ==> lookup(store@, id as int) == Some(p@),
    {
        store.find_by_id(id)
    }
}

impl MutationRoot {
    /// Create a post from a title and a body; it starts unpublished, under
    /// a fresh identifier.
    pub fn create_post(&self, store: &mut PostStore, post: NewPost) -> (r: Post)
        requires
            old(store).wf(),
            old(store).spec_next_id() < i32::MAX as int,
        ensures
            final(store).wf(),
            final(store).spec_next_id() == old(store).spec_next_id() + 1,
            r@.id == old(store).spec_next_id(),
            r@.title == post@.title,
            r@.body == post@.body,
            !r@.published,
            !contains_id(old(store)@, r@.id),
            final(store)@ == old(store)@.push(r@),
    {
        store.create(post)
    }

    /// Apply a partial update; an absent identifier is null and changes
    /// nothing.
    pub fn update_post(&self, store: &mut PostStore, id: i32, post: PostUpdate) -> (r: Option<
        Post,
    >)
        requires
            old(store).wf(),
        ensures
            final(store).wf(),
            final(store).spec_next_id() == old(store).spec_next_id(),
            match lookup(old(store)@, id as int) {
                Some(p) => {
                    &&& r matches Some(q) && q@ == apply_update(p, post@)
                    &&& final(store)@ == old(store)@.update(
                        idx_of(old(store)@, id as int),
                        apply_update(p, post@),
                    )
                },
                None => r is None && final(store)@ == old(store)@,
            },
    {
        store.update(id, post)
    }

    /// Delete a post; the answer says whether the identifier was present,
    /// and an absent one changes nothing.
    pub fn delete_post(&self, store: &mut PostStore, id: i32) -> (r: bool)
        requires
            old(store).wf(),
        ensures
            final(store).wf(),
            final(store).spec_next_id() == old(store).spec_next_id(),
            r == contains_id(old(store)@, id as int),
            r ==> final(store)@ == old(store)@.remove(idx_of(old(store)@, id as int)),
            !r ==> final(store)@ == old(store)@,
    {
        store.delete(id)
    }
}

} // verus!
