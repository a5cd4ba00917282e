//! Decoding of JSON values into typed records: which member a record reads
//! under which name, what each member has to be, and what is reported where
//! a value does not fit.

use vstd::prelude::*;
use crate::json::{Json, JsonView, Kind, Number};
use crate::model::{option_view, views};

verus! {

/// The member names of the wire shapes.
#[derive(Clone, Copy, Debug, PartialEq, Eq)]
pub enum Key {
    Data,
    UserData,
    User,
    MediaData,
    Threads,
    ContainingThread,
    ReplyThreads,
    Likers,
    Users,
    Id,
    ThreadItems,
    Post,
    ImageVersions2,
    Candidates,
    OriginalWidth,
    OriginalHeight,
    Caption,
    Text,
    TakenAt,
    LikeCount,
    TextPostAppInfo,
    DirectReplyCount,
    LinkPreviewAttachment,
    Pk,
    ProfilePicUrl,
    Username,
    IsVerified,
    IsPrivate,
    Biography,
    FollowerCount,
    BioLinks,
    FullName,
    HdProfilePicVersions,
    Url,
    Width,
    Height,
    Title,
    ImageUrl,
    DisplayUrl,
    FaviconUrl,
}

impl Key {
    /// The name as it stands in the JSON text.
    pub open spec fn text(self) -> Seq<char> {
        match self {
            Key::Data => "data"@,
            Key::UserData => "userData"@,
            Key::User => "user"@,
            Key::MediaData => "mediaData"@,
            Key::Threads => "threads"@,
            Key::ContainingThread => "containing_thread"@,
            Key::ReplyThreads => "reply_threads"@,
            Key::Likers => "likers"@,
            Key::Users => "users"@,
            Key::Id => "id"@,
            Key::ThreadItems => "thread_items"@,
            Key::Post => "post"@,
            Key::ImageVersions2 => "image_versions2"@,
            Key::Candidates => "candidates"@,
            Key::OriginalWidth => "original_width"@,
            Key::OriginalHeight => "original_height"@,
            Key::Caption => "caption"@,
            Key::Text => "text"@,
            Key::TakenAt => "taken_at"@,
            Key::LikeCount => "like_count"@,
            Key::TextPostAppInfo => "text_post_app_info"@,
            Key::DirectReplyCount => "direct_reply_count"@,
            Key::LinkPreviewAttachment => "link_preview_attachment"@,
            Key::Pk => "pk"@,
            Key::ProfilePicUrl => "profile_pic_url"@,
            Key::Username => "username"@,
            Key::IsVerified => "is_verified"@,
            Key::IsPrivate => "is_private"@,
            Key::Biography => "biography"@,
            Key::FollowerCount => "follower_count"@,
            Key::BioLinks => "bio_links"@,
            Key::FullName => "full_name"@,
            Key::HdProfilePicVersions => "hd_profile_pic_versions"@,
            Key::Url => "url"@,
            Key::Width => "width"@,
            Key::Height => "height"@,
            Key::Title => "title"@,
            Key::ImageUrl => "image_url"@,
            Key::DisplayUrl => "display_url"@,
            Key::FaviconUrl => "favicon_url"@,
        }
    }

    pub fn name(self) -> (name: &'static str)
        ensures
            name@ == self.text(),
    {
        match self {
            Key::Data => "data",
            Key::UserData => "userData",
            Key::User => "user",
            Key::MediaData => "mediaData",
            Key::Threads => "threads",
            Key::ContainingThread => "containing_thread",
            Key::ReplyThreads => "reply_threads",
            Key::Likers => "likers",
            Key::Users => "users",
            Key::Id => "id",
            Key::ThreadItems => "thread_items",
            Key::Post => "post",
            Key::ImageVersions2 => "image_versions2",
            Key::Candidates => "candidates",
            Key::OriginalWidth => "original_width",
            Key::OriginalHeight => "original_height",
            Key::Caption => "caption",
            Key::Text => "text",
            Key::TakenAt => "taken_at",
            Key::LikeCount => "like_count",
            Key::TextPostAppInfo => "text_post_app_info",
            Key::DirectReplyCount => "direct_reply_count",
            Key::LinkPreviewAttachment => "link_preview_attachment",
            Key::Pk => "pk",
            Key::ProfilePicUrl => "profile_pic_url",
            Key::Username => "username",
            Key::IsVerified => "is_verified",
            Key::IsPrivate => "is_private",
            Key::Biography => "biography",
            Key::FollowerCount => "follower_count",
            Key::BioLinks => "bio_links",
            Key::FullName => "full_name",
            Key::HdProfilePicVersions => "hd_profile_pic_versions",
            Key::Url => "url",
            Key::Width => "width",
            Key::Height => "height",
            Key::Title => "title",
            Key::ImageUrl => "image_url",
            Key::DisplayUrl => "display_url",
            Key::FaviconUrl => "favicon_url",
        }
    }
}

/// Why a JSON value is not of the shape asked for.
#[derive(Clone, Copy, Debug, PartialEq, Eq)]
pub enum ShapeError {
    /// An object has no member of this name, and the member is required.
    Missing(Key),
    /// A value is of another kind than its place asks for.
    Mismatch { expected: Kind, found: Kind },
    /// A number is negative, fractional or too large for its place.
    OutOfRange,
}

/// An outcome of decoding, the value taken by its model.
pub open spec fn modelled<T: View>(r: Result<T, ShapeError>) -> Result<T::V, ShapeError> {
    match r {
        Ok(value) => Ok(value@),
        Err(error) => Err(error),
    }
}

/// An outcome of decoding a member that may be absent.
pub open spec fn modelled_option<T: View>(r: Result<Option<T>, ShapeError>) -> Result<
    Option<T::V>,
    ShapeError,
> {
    match r {
        Ok(value) => Ok(option_view(value)),
        Err(error) => Err(error),
    }
}

/// An outcome of decoding a list.
pub open spec fn modelled_list<T: View>(r: Result<Vec<T>, ShapeError>) -> Result<
    Seq<T::V>,
    ShapeError,
> {
    match r {
        Ok(items) => Ok(views(items@)),
        Err(error) => Err(error),
    }
}

/// A type that can be read from a JSON value.
pub trait Decode: View + Sized {
    /// What a JSON value decodes to: the model of the value read, or the
    /// reason why it does not fit.
    spec fn shape(json: JsonView) -> Result<Self::V, ShapeError>;

    fn decode(json: &Json) -> (r: Result<Self, ShapeError>)
        ensures
            modelled(r) == Self::shape(json@),
    ;
}

impl Decode for bool {
    open spec fn shape(json: JsonView) -> Result<bool, ShapeError> {
        match json {
            JsonView::Bool(flag) => Ok(flag),
            _ => Err(ShapeError::Mismatch { expected: Kind::Bool, found: json.kind() }),
        }
    }

    fn decode(json: &Json) -> (r: Result<bool, ShapeError>) {
        match json {
            Json::Bool(flag) => Ok(*flag),
            _ => Err(ShapeError::Mismatch { expected: Kind::Bool, found: json.kind() }),
        }
    }
}

impl Decode for u64 {
    open spec fn shape(json: JsonView) -> Result<u64, ShapeError> {
        match json {
            JsonView::Number(Number::Unsigned(n)) => Ok(n),
            JsonView::Number(_) => Err(ShapeError::OutOfRange),
            _ => Err(ShapeError::Mismatch { expected: Kind::Number, found: json.kind() }),
        }
    }

    fn decode(json: &Json) -> (r: Result<u64, ShapeError>) {
        match json {
            Json::Number(Number::Unsigned(n)) => Ok(*n),
            Json::Number(_) => Err(ShapeError::OutOfRange),
            _ => Err(ShapeError::Mismatch { expected: Kind::Number, found: json.kind() }),
        }
    }
}

impl Decode for u32 {
    open spec fn shape(json: JsonView) -> Result<u32, ShapeError> {
        match json {
            JsonView::Number(Number::Unsigned(n)) => if n <= u32::MAX {
                Ok(n as u32)
            } else {
                Err(ShapeError::OutOfRange)
            },
            JsonView::Number(_) => Err(ShapeError::OutOfRange),
            _ => Err(ShapeError::Mismatch { expected: Kind::Number, found: json.kind() }),
        }
    }

    fn decode(json: &Json) -> (r: Result<u32, ShapeError>) {
        match json {
            Json::Number(Number::Unsigned(n)) => if *n <= 0xffff_ffff {
                Ok(*n as u32)
            } else {
                Err(ShapeError::OutOfRange)
            },
            Json::Number(_) => Err(ShapeError::OutOfRange),
            _ => Err(ShapeError::Mismatch { expected: Kind::Number, found: json.kind() }),
        }
    }
}

impl Decode for String {
    open spec fn shape(json: JsonView) -> Result<Seq<char>, ShapeError> {
        match json {
            JsonView::String(text) => Ok(text),
            _ => Err(ShapeError::Mismatch { expected: Kind::String, found: json.kind() }),
        }
    }

    fn decode(json: &Json) -> (r: Result<String, ShapeError>) {
        match json {
            Json::String(text) => Ok(text.clone()),
            _ => Err(ShapeError::Mismatch { expected: Kind::String, found: json.kind() }),
        }
    }
}

/// What the required member `key` of `json` decodes to.
pub open spec fn field_shape<T: Decode>(json: JsonView, key: Key) -> Result<T::V, ShapeError> {
    match json {
        JsonView::Object(_) => match json.member(key.text()) {
            Some(value) => T::shape(value),
            None => Err(ShapeError::Missing(key)),
        },
        _ => Err(ShapeError::Mismatch { expected: Kind::Object, found: json.kind() }),
    }
}

/// What the member `key` of `json` decodes to where it may be absent: a
/// missing member and a `null` both stand for no value.
pub open spec fn optional_shape<T: Decode>(json: JsonView, key: Key) -> Result<
    Option<T::V>,
    ShapeError,
> {
    match json {
        JsonView::Object(_) => match json.member(key.text()) {
            None | Some(JsonView::Null) => Ok(None),
            Some(value) => match T::shape(value) {
                Ok(inner) => Ok(Some(inner)),
                Err(error) => Err(error),
            },
        },
        _ => Err(ShapeError::Mismatch { expected: Kind::Object, found: json.kind() }),
    }
}

/// What the items of a list decode to: every item in its place, or the
/// reason given by the first item that does not fit.
pub open spec fn each_shape<T: Decode>(items: Seq<JsonView>) -> Result<Seq<T::V>, ShapeError>
    decreases items.len(),
{
    if items.len() == 0 {
        Ok(Seq::empty())
    } else {
        let front = each_shape::<T>(items.drop_last());
        let last = T::shape(items.last());
        if front is Err {
            Err(front->Err_0)
        } else if last is Err {
            Err(last->Err_0)
        } else {
            Ok(front->Ok_0.push(last->Ok_0))
        }
    }
}

/// What a JSON array decodes to as a list of `T`.
pub open spec fn list_shape<T: Decode>(json: JsonView) -> Result<Seq<T::V>, ShapeError> {
    match json {
        JsonView::Array(items) => each_shape::<T>(items),
        _ => Err(ShapeError::Mismatch { expected: Kind::Array, found: json.kind() }),
    }
}

/// What the required member `key` of `json` decodes to as a list of `T`.
pub open spec fn list_field_shape<T: Decode>(json: JsonView, key: Key) -> Result<
    Seq<T::V>,
    ShapeError,
> {
    match json {
        JsonView::Object(_) => match json.member(key.text()) {
            Some(value) => list_shape::<T>(value),
            None => Err(ShapeError::Missing(key)),
        },
        _ => Err(ShapeError::Mismatch { expected: Kind::Object, found: json.kind() }),
    }
}

/// An item that does not fit decides the outcome for every longer list.
pub proof fn lemma_each_shape_prefix_error<T: Decode>(items: Seq<JsonView>, n: int)
    requires
        0 <= n <= items.len(),
        each_shape::<T>(items.take(n)) is Err,
    ensures
        each_shape::<T>(items) == each_shape::<T>(items.take(n)),
    decreases items.len() - n,
{
    if n == items.len() {
        assert(items.take(n) =~= items);
    } else {
        assert(items.take(n + 1).drop_last() =~= items.take(n));
        lemma_each_shape_prefix_error::<T>(items, n + 1);
    }
}

/// Reads the required member `key` of an object.
pub fn field<T: Decode>(json: &Json, key: Key) -> (r: Result<T, ShapeError>)
    ensures
        modelled(r) == field_shape::<T>(json@, key),
{
    match json {
        Json::Object(_) => match json.member(key.name()) {
            Some(value) => T::decode(value),
            None => Err(ShapeError::Missing(key)),
        },
        _ => Err(ShapeError::Mismatch { expected: Kind::Object, found: json.kind() }),
    }
}

/// Reads the member `key` of an object where it may be absent.
pub fn optional_field<T: Decode>(json: &Json, key: Key) -> (r: Result<Option<T>, ShapeError>)
    ensures
        modelled_option(r) == optional_shape::<T>(json@, key),
{
    match json {
        Json::Object(_) => match json.member(key.name()) {
            None | Some(Json::Null) => Ok(None),
            Some(value) => match T::decode(value) {
                Ok(inner) => Ok(Some(inner)),
                Err(error) => Err(error),
            },
        },
        _ => Err(ShapeError::Mismatch { expected: Kind::Object, found: json.kind() }),
    }
}

/// Reads a JSON array as a list of `T`, in the array's order.
pub fn list<T: Decode>(json: &Json) -> (r: Result<Vec<T>, ShapeError>)
    ensures
        modelled_list(r) == list_shape::<T>(json@),
{
    match json {
        Json::Array(items) => {
            let ghost all = json@->Array_0;
            let mut out: Vec<T> = Vec::new();
            let mut i: usize = 0;
            proof {
                assert(all.take(0) =~= Seq::<JsonView>::empty());
                assert(views(out@) =~= Seq::<T::V>::empty());
            }
            while i < items.len()
                invariant
                    i <= items.len(),
                    json@ == JsonView::Array(all),
                    all.len() == items.len(),
                    forall|j: int| 0 <= j < items.len() ==> all[j] == #[trigger] items[j]@,
                    each_shape::<T>(all.take(i as int)) == Ok::<Seq<T::V>, ShapeError>(views(out@)),
                decreases items.len() - i,
            {
                let ghost before = out@;
                proof {
                    assert(all.take(i + 1).drop_last() =~= all.take(i as int));
                    assert(all.take(i + 1).last() == items[i as int]@);
                }
                match T::decode(&items[i]) {
                    Ok(item) => {
                        out.push(item);
                        proof {
                            assert(views(out@) =~= views(before).push(item@));
                        }
                    },
                    Err(error) => {
                        proof {
                            lemma_each_shape_prefix_error::<T>(all, i + 1);
                        }
                        return Err(error);
                    },
                }
                i += 1;
            }
            proof {
                assert(all.take(i as int) =~= all);
            }
            Ok(out)
        },
        _ => Err(ShapeError::Mismatch { expected: Kind::Array, found: json.kind() }),
    }
}

/// Reads the required member `key` of an object as a list of `T`.
pub fn list_field<T: Decode>(json: &Json, key: Key) -> (r: Result<Vec<T>, ShapeError>)
    ensures
        modelled_list(r) == list_field_shape::<T>(json@, key),
{
    match json {
        Json::Object(_) => match json.member(key.name()) {
            Some(value) => list::<T>(value),
            None => Err(ShapeError::Missing(key)),
        },
        _ => Err(ShapeError::Mismatch { expected: Kind::Object, found: json.kind() }),
    }
}

} // verus!
