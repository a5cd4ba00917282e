//! A client for the Threads GraphQL API that leaves the network to its
//! caller: it says what to send for each operation, and turns what came back
//! into profiles, threads and likers.

use vstd::prelude::*;
use crate::decode::{Decode, ShapeError};
use crate::json::{object_text, parsed, rendered, Json, JsonView};
use crate::model::views;
use crate::types::internal::{LikersResponse, ProfileResponse, Response, ThreadResponse, ThreadsResponse};
use crate::types::{threads_from, threads_of, thread_of, PostResponse, PostResponseView, Profile, ProfileDetail, ProfileDetailView, ProfileView, Thread, ThreadView};

pub mod decode;
pub mod json;
pub mod laws;
pub mod model;
pub mod types;

verus! {

/// Where every request goes.
pub const ENDPOINT: &'static str = "https://www.threads.net/api/graphql";

/// The header that names the application, and its value.
pub const APP_ID_HEADER: &'static str = "x-ig-app-id";

pub const APP_ID: &'static str = "238260118697367";

/// The user agent of the client that sends the requests.
pub const USER_AGENT: &'static str = "threads-api";

/// The two fields of a request's form.
pub const DOC_ID_FIELD: &'static str = "doc_id";

pub const VARIABLES_FIELD: &'static str = "variables";

/// The five queries that the service has registered.
#[derive(Clone, Copy, Debug, PartialEq, Eq)]
pub enum Operation {
    Profile,
    Posts,
    Replies,
    Post,
    Likes,
}

impl Operation {
    /// The id under which the service knows the query.
    pub open spec fn document(self) -> Seq<char> {
        match self {
            Operation::Profile => "23996318473300828"@,
            Operation::Posts => "6232751443445612"@,
            Operation::Replies => "6307072669391286"@,
            Operation::Post => "5587632691339264"@,
            Operation::Likes => "9360915773983802"@,
        }
    }

    /// The name of the query's one variable.
    pub open spec fn parameter(self) -> Seq<char> {
        match self {
            Operation::Profile | Operation::Posts | Operation::Replies => "userID"@,
            Operation::Post => "postID"@,
            Operation::Likes => "mediaID"@,
        }
    }

    pub fn doc_id(self) -> (id: &'static str)
        ensures
            id@ == self.document(),
    {
        match self {
            Operation::Profile => "23996318473300828",
            Operation::Posts => "6232751443445612",
            Operation::Replies => "6307072669391286",
            Operation::Post => "5587632691339264",
            Operation::Likes => "9360915773983802",
        }
    }

    pub fn variable(self) -> (name: &'static str)
        ensures
            name@ == self.parameter(),
    {
        match self {
            Operation::Profile | Operation::Posts | Operation::Replies => "userID",
            Operation::Post => "postID",
            Operation::Likes => "mediaID",
        }
    }
}

/// One request: a POST to `url` with the header [`APP_ID_HEADER`] set to
/// `app_id`, and a form of the two fields `doc_id` and `variables`.
#[derive(Clone, Debug, PartialEq, Eq)]
pub struct Request {
    pub url: &'static str,
    pub app_id: &'static str,
    pub doc_id: &'static str,
    pub variables: String,
}

pub struct RequestView {
    pub url: Seq<char>,
    pub app_id: Seq<char>,
    pub doc_id: Seq<char>,
    pub variables: Seq<char>,
}

impl View for Request {
    type V = RequestView;

    open spec fn view(&self) -> RequestView {
        RequestView {
            url: self.url@,
            app_id: self.app_id@,
            doc_id: self.doc_id@,
            variables: self.variables@,
        }
    }
}

/// The request of an operation on the user or post `id`: the variables are
/// the JSON text of the object whose one member is the id, as a string,
/// under the operation's parameter name.
pub open spec fn request_for(operation: Operation, id: Seq<char>) -> RequestView {
    RequestView {
        url: ENDPOINT@,
        app_id: APP_ID@,
        doc_id: operation.document(),
        variables: rendered(operation.parameter(), id),
    }
}

/// How sending a request ended.
#[derive(Clone, Debug, PartialEq, Eq)]
pub enum Exchange {
    /// No answer came; the text says why.
    Failed(String),
    /// The service answered with this status and body.
    Answered { status: u16, body: Vec<u8> },
}

pub enum ExchangeView {
    Failed(Seq<char>),
    Answered { status: u16, body: Seq<u8> },
}

impl View for Exchange {
    type V = ExchangeView;

    open spec fn view(&self) -> ExchangeView {
        match self {
            Exchange::Failed(reason) => ExchangeView::Failed(reason@),
            Exchange::Answered { status, body } => ExchangeView::Answered {
                status: *status,
                body: body@,
            },
        }
    }
}

/// Why a body could not be decoded.
#[derive(Clone, Debug, PartialEq, Eq)]
pub enum DecodeError {
    /// The body is no JSON text; the text says where and why.
    Syntax(String),
    /// The body is JSON of another shape than the operation's.
    Shape(ShapeError),
}

pub enum DecodeErrorView {
    Syntax(Seq<char>),
    Shape(ShapeError),
}

impl View for DecodeError {
    type V = DecodeErrorView;

    open spec fn view(&self) -> DecodeErrorView {
        match self {
            DecodeError::Syntax(complaint) => DecodeErrorView::Syntax(complaint@),
            DecodeError::Shape(error) => DecodeErrorView::Shape(*error),
        }
    }
}

/// Why an operation gave no value.
#[derive(Clone, Debug, PartialEq, Eq)]
pub enum Error {
    /// The request could not be carried out.
    Transport(String),
    /// The service answered with a status outside 200 to 299.
    HttpStatus(u16),
    /// The answer's body could not be decoded.
    Decode(DecodeError),
}

pub enum ErrorView {
    Transport(Seq<char>),
    HttpStatus(u16),
    Decode(DecodeErrorView),
}

impl View for Error {
    type V = ErrorView;

    open spec fn view(&self) -> ErrorView {
        match self {
            Error::Transport(reason) => ErrorView::Transport(reason@),
            Error::HttpStatus(status) => ErrorView::HttpStatus(*status),
            Error::Decode(error) => ErrorView::Decode(error@),
        }
    }
}

/// An operation's outcome, value and error taken by their models.
pub open spec fn outcome<T: View>(r: Result<T, Error>) -> Result<T::V, ErrorView> {
    match r {
        Ok(value) => Ok(value@),
        Err(error) => Err(error@),
    }
}

/// The outcome of an operation that gives a list.
pub open spec fn outcome_list<T: View>(r: Result<Vec<T>, Error>) -> Result<Seq<T::V>, ErrorView> {
    match r {
        Ok(items) => Ok(views(items@)),
        Err(error) => Err(error@),
    }
}

/// The statuses that count as success.
pub open spec fn is_success(status: u16) -> bool {
    200 <= status <= 299
}

/// What a JSON text that was read, or was not, gives at the shape `T`.
pub open spec fn decoded<T: Decode>(read: Result<JsonView, Seq<char>>) -> Result<T::V, ErrorView> {
    match read {
        Err(complaint) => Err(ErrorView::Decode(DecodeErrorView::Syntax(complaint))),
        Ok(json) => match T::shape(json) {
            Ok(value) => Ok(value),
            Err(error) => Err(ErrorView::Decode(DecodeErrorView::Shape(error))),
        },
    }
}

/// What an exchange gives at the shape `T`: the transport's failure; else
/// the status, where it is no success, whatever the body holds; else what
/// the body decodes to.
pub open spec fn answer<T: Decode>(exchange: ExchangeView) -> Result<T::V, ErrorView> {
    match exchange {
        ExchangeView::Failed(reason) => Err(ErrorView::Transport(reason)),
        ExchangeView::Answered { status, body } => if is_success(status) {
            decoded::<T>(parsed(body))
        } else {
            Err(ErrorView::HttpStatus(status))
        },
    }
}

/// What an exchange gives as the profile of a user.
pub open spec fn profile_answer(exchange: ExchangeView) -> Result<ProfileView, ErrorView> {
    match answer::<Response<ProfileResponse>>(exchange) {
        Ok(response) => Ok(response.data.user_data.user),
        Err(error) => Err(error),
    }
}

/// What an exchange gives as the threads of a user, posts or replies.
pub open spec fn threads_answer(exchange: ExchangeView) -> Result<Seq<ThreadView>, ErrorView> {
    match answer::<Response<ThreadsResponse>>(exchange) {
        Ok(response) => Ok(threads_of(response.data.media_data.threads)),
        Err(error) => Err(error),
    }
}

/// What an exchange gives as a post with its replies.
pub open spec fn post_answer(exchange: ExchangeView) -> Result<PostResponseView, ErrorView> {
    match answer::<Response<Response<ThreadResponse>>>(exchange) {
        Ok(response) => Ok(
            PostResponseView {
                post: thread_of(response.data.data.containing_thread),
                replies: threads_of(response.data.data.reply_threads),
            },
        ),
        Err(error) => Err(error),
    }
}

/// What an exchange gives as the users who liked a post.
pub open spec fn likes_answer(exchange: ExchangeView) -> Result<Seq<ProfileDetailView>, ErrorView> {
    match answer::<Response<LikersResponse>>(exchange) {
        Ok(response) => Ok(response.data.likers.users),
        Err(error) => Err(error),
    }
}

/// Tells whether a status counts as success.
pub fn succeeded(status: u16) -> (yes: bool)
    ensures
        yes == is_success(status),
{
    200 <= status && status <= 299
}

/// Decodes a JSON text that was read, or reports why there is no value.
pub fn interpret<T: Decode>(read: Result<Json, String>) -> (r: Result<T, Error>)
    ensures
        outcome(r) == decoded::<T>(
            match read {
                Ok(json) => Ok(json@),
                Err(complaint) => Err(complaint@),
            },
        ),
{
    match read {
        Ok(json) => match T::decode(&json) {
            Ok(value) => Ok(value),
            Err(error) => Err(Error::Decode(DecodeError::Shape(error))),
        },
        Err(error) => Err(Error::Decode(DecodeError::Syntax(error))),
    }
}

/// The client: it holds how the sender introduces itself.
#[derive(Clone, Debug)]
pub struct Threads {
    user_agent: &'static str,
}

impl Threads {
    /// Create a new instance of the API.
    pub fn new() -> (threads: Threads)
        ensures
            threads.agent() == USER_AGENT@,
    {
        Threads { user_agent: USER_AGENT }
    }

    pub closed spec fn agent(&self) -> Seq<char> {
        self.user_agent@
    }

    /// The user agent under which requests are to be sent.
    pub fn user_agent(&self) -> (agent: &'static str)
        ensures
            agent@ == self.agent(),
    {
        self.user_agent
    }

    /// The request of `operation` on the user or post `id`.
    pub fn request(&self, operation: Operation, id: &str) -> (request: Request)
        ensures
            request@ == request_for(operation, id@),
    {
        Request {
            url: ENDPOINT,
            app_id: APP_ID,
            doc_id: operation.doc_id(),
            variables: object_text(operation.variable(), id),
        }
    }

    /// Reads the answer to a request at the shape `T`.
    pub fn get<T: Decode>(&self, exchange: Exchange) -> (r: Result<T, Error>)
        ensures
            outcome(r) == answer::<T>(exchange@),
    {
        match exchange {
            Exchange::Failed(reason) => Err(Error::Transport(reason)),
            Exchange::Answered { status, body } => {
                if succeeded(status) {
                    interpret::<T>(Json::from_slice(body.as_slice()))
                } else {
                    Err(Error::HttpStatus(status))
                }
            },
        }
    }

    /// Get a user's profile, from the answer to [`Operation::Profile`].
    pub fn profile(&self, exchange: Exchange) -> (r: Result<Profile, Error>)
        ensures
            outcome(r) == profile_answer(exchange@),
    {
        let response = self.get::<Response<ProfileResponse>>(exchange)?;
        Ok(response.data.user_data.user)
    }

    /// Get a list of a user's posts, from the answer to [`Operation::Posts`].
    pub fn posts(&self, exchange: Exchange) -> (r: Result<Vec<Thread>, Error>)
        ensures
            outcome_list(r) == threads_answer(exchange@),
    {
        let response = self.get::<Response<ThreadsResponse>>(exchange)?;
        Ok(threads_from(response.data.media_data.threads))
    }

    /// Get a list of a user's replies, from the answer to
    /// [`Operation::Replies`].
    pub fn replies(&self, exchange: Exchange) -> (r: Result<Vec<Thread>, Error>)
        ensures
            outcome_list(r) == threads_answer(exchange@),
    {
        let response = self.get::<Response<ThreadsResponse>>(exchange)?;
        Ok(threads_from(response.data.media_data.threads))
    }

    /// Get a post's data, from the answer to [`Operation::Post`].
    pub fn post(&self, exchange: Exchange) -> (r: Result<PostResponse, Error>)
        ensures
            outcome(r) == post_answer(exchange@),
    {
        let response = self.get::<Response<Response<ThreadResponse>>>(exchange)?;
        let thread = response.data.data;
        Ok(
            PostResponse {
                post: Thread::from(thread.containing_thread),
                replies: threads_from(thread.reply_threads),
            },
        )
    }

    /// Get a list of users who liked a post, from the answer to
    /// [`Operation::Likes`].
    pub fn likes(&self, exchange: Exchange) -> (r: Result<Vec<ProfileDetail>, Error>)
        ensures
            outcome_list(r) == likes_answer(exchange@),
    {
        let response = self.get::<Response<LikersResponse>>(exchange)?;
        Ok(response.data.likers.users)
    }
}

impl Default for Threads {
    fn default() -> (threads: Threads)
        ensures
            threads.agent() == USER_AGENT@,
    {
        Threads::new()
    }
}

} // verus!
