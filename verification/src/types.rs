//! The values that the operations return, each with its model, and how the
//! wire's threads and posts become threads and thread items.

use vstd::prelude::*;
use vstd::std_specs::convert::FromSpecImpl;
use crate::decode::{field, field_shape, list_field, list_field_shape, optional_field, optional_shape, Decode, Key, ShapeError};
use crate::json::{Json, JsonView};
use crate::model::{option_view, views};

pub mod internal;

verus! {

/// Contains the minimum required information to display a profile.
#[derive(Clone, Debug, PartialEq, Eq)]
pub struct ProfileDetail {
    pub profile_pic_url: String,
    pub username: String,
    pub is_verified: bool,
    pub id: String,
}

pub struct ProfileDetailView {
    pub profile_pic_url: Seq<char>,
    pub username: Seq<char>,
    pub is_verified: bool,
    pub id: Seq<char>,
}

impl View for ProfileDetail {
    type V = ProfileDetailView;

    open spec fn view(&self) -> ProfileDetailView {
        ProfileDetailView {
            profile_pic_url: self.profile_pic_url@,
            username: self.username@,
            is_verified: self.is_verified,
            id: self.id@,
        }
    }
}

impl Decode for ProfileDetail {
    open spec fn shape(json: JsonView) -> Result<ProfileDetailView, ShapeError> {
        let profile_pic_url = field_shape::<String>(json, Key::ProfilePicUrl);
        let username = field_shape::<String>(json, Key::Username);
        let is_verified = field_shape::<bool>(json, Key::IsVerified);
        let id = field_shape::<String>(json, Key::Pk);
        if profile_pic_url is Err {
            Err(profile_pic_url->Err_0)
        } else if username is Err {
            Err(username->Err_0)
        } else if is_verified is Err {
            Err(is_verified->Err_0)
        } else if id is Err {
            Err(id->Err_0)
        } else {
            Ok(
                ProfileDetailView {
                    profile_pic_url: profile_pic_url->Ok_0,
                    username: username->Ok_0,
                    is_verified: is_verified->Ok_0,
                    id: id->Ok_0,
                },
            )
        }
    }

    fn decode(json: &Json) -> (r: Result<ProfileDetail, ShapeError>) {
        let profile_pic_url = field::<String>(json, Key::ProfilePicUrl)?;
        let username = field::<String>(json, Key::Username)?;
        let is_verified = field::<bool>(json, Key::IsVerified)?;
        let id = field::<String>(json, Key::Pk)?;
        Ok(ProfileDetail { profile_pic_url, username, is_verified, id })
    }
}

/// A link to an external website.
#[derive(Clone, Debug, PartialEq, Eq)]
pub struct Link {
    pub url: String,
}

pub struct LinkView {
    pub url: Seq<char>,
}

impl View for Link {
    type V = LinkView;

    open spec fn view(&self) -> LinkView {
        LinkView { url: self.url@ }
    }
}

impl Decode for Link {
    open spec fn shape(json: JsonView) -> Result<LinkView, ShapeError> {
        let url = field_shape::<String>(json, Key::Url);
        if url is Err {
            Err(url->Err_0)
        } else {
            Ok(LinkView { url: url->Ok_0 })
        }
    }

    fn decode(json: &Json) -> (r: Result<Link, ShapeError>) {
        let url = field::<String>(json, Key::Url)?;
        Ok(Link { url })
    }
}

/// A media item.
#[derive(Clone, Debug, PartialEq, Eq)]
pub struct Media {
    pub url: String,
    pub width: u32,
    pub height: u32,
}

pub struct MediaView {
    pub url: Seq<char>,
    pub width: u32,
    pub height: u32,
}

impl View for Media {
    type V = MediaView;

    open spec fn view(&self) -> MediaView {
        MediaView { url: self.url@, width: self.width, height: self.height }
    }
}

impl Decode for Media {
    open spec fn shape(json: JsonView) -> Result<MediaView, ShapeError> {
        let url = field_shape::<String>(json, Key::Url);
        let width = field_shape::<u32>(json, Key::Width);
        let height = field_shape::<u32>(json, Key::Height);
        if url is Err {
            Err(url->Err_0)
        } else if width is Err {
            Err(width->Err_0)
        } else if height is Err {
            Err(height->Err_0)
        } else {
            Ok(MediaView { url: url->Ok_0, width: width->Ok_0, height: height->Ok_0 })
        }
    }

    fn decode(json: &Json) -> (r: Result<Media, ShapeError>) {
        let url = field::<String>(json, Key::Url)?;
        let width = field::<u32>(json, Key::Width)?;
        let height = field::<u32>(json, Key::Height)?;
        Ok(Media { url, width, height })
    }
}

/// Contains all the information available about a profile.
#[derive(Clone, Debug, PartialEq, Eq)]
pub struct Profile {
    pub id: String,
    pub is_private: bool,
    pub profile_pic_url: String,
    pub username: String,
    pub is_verified: bool,
    pub biography: String,
    pub follower_count: u32,
    pub bio_links: Vec<Link>,
    pub full_name: String,
    pub hd_profile_pic_versions: Vec<Media>,
}

pub struct ProfileView {
    pub id: Seq<char>,
    pub is_private: bool,
    pub profile_pic_url: Seq<char>,
    pub username: Seq<char>,
    pub is_verified: bool,
    pub biography: Seq<char>,
    pub follower_count: u32,
    pub bio_links: Seq<LinkView>,
    pub full_name: Seq<char>,
    pub hd_profile_pic_versions: Seq<MediaView>,
}

impl View for Profile {
    type V = ProfileView;

    open spec fn view(&self) -> ProfileView {
        ProfileView {
            id: self.id@,
            is_private: self.is_private,
            profile_pic_url: self.profile_pic_url@,
            username: self.username@,
            is_verified: self.is_verified,
            biography: self.biography@,
            follower_count: self.follower_count,
            bio_links: views(self.bio_links@),
            full_name: self.full_name@,
            hd_profile_pic_versions: views(self.hd_profile_pic_versions@),
        }
    }
}

impl Decode for Profile {
    open spec fn shape(json: JsonView) -> Result<ProfileView, ShapeError> {
        let id = field_shape::<String>(json, Key::Pk);
        let is_private = field_shape::<bool>(json, Key::IsPrivate);
        let profile_pic_url = field_shape::<String>(json, Key::ProfilePicUrl);
        let username = field_shape::<String>(json, Key::Username);
        let is_verified = field_shape::<bool>(json, Key::IsVerified);
        let biography = field_shape::<String>(json, Key::Biography);
        let follower_count = field_shape::<u32>(json, Key::FollowerCount);
        let bio_links = list_field_shape::<Link>(json, Key::BioLinks);
        let full_name = field_shape::<String>(json, Key::FullName);
        let hd_profile_pic_versions = list_field_shape::<Media>(json, Key::HdProfilePicVersions);
        if id is Err {
            Err(id->Err_0)
        } else if is_private is Err {
            Err(is_private->Err_0)
        } else if profile_pic_url is Err {
            Err(profile_pic_url->Err_0)
        } else if username is Err {
            Err(username->Err_0)
        } else if is_verified is Err {
            Err(is_verified->Err_0)
        } else if biography is Err {
            Err(biography->Err_0)
        } else if follower_count is Err {
            Err(follower_count->Err_0)
        } else if bio_links is Err {
            Err(bio_links->Err_0)
        } else if full_name is Err {
            Err(full_name->Err_0)
        } else if hd_profile_pic_versions is Err {
            Err(hd_profile_pic_versions->Err_0)
        } else {
            Ok(
                ProfileView {
                    id: id->Ok_0,
                    is_private: is_private->Ok_0,
                    profile_pic_url: profile_pic_url->Ok_0,
                    username: username->Ok_0,
                    is_verified: is_verified->Ok_0,
                    biography: biography->Ok_0,
                    follower_count: follower_count->Ok_0,
                    bio_links: bio_links->Ok_0,
                    full_name: full_name->Ok_0,
                    hd_profile_pic_versions: hd_profile_pic_versions->Ok_0,
                },
            )
        }
    }

    fn decode(json: &Json) -> (r: Result<Profile, ShapeError>) {
        let id = field::<String>(json, Key::Pk)?;
        let is_private = field::<bool>(json, Key::IsPrivate)?;
        let profile_pic_url = field::<String>(json, Key::ProfilePicUrl)?;
        let username = field::<String>(json, Key::Username)?;
        let is_verified = field::<bool>(json, Key::IsVerified)?;
        let biography = field::<String>(json, Key::Biography)?;
        let follower_count = field::<u32>(json, Key::FollowerCount)?;
        let bio_links = list_field::<Link>(json, Key::BioLinks)?;
        let full_name = field::<String>(json, Key::FullName)?;
        let hd_profile_pic_versions = list_field::<Media>(json, Key::HdProfilePicVersions)?;
        Ok(
            Profile {
                id,
                is_private,
                profile_pic_url,
                username,
                is_verified,
                biography,
                follower_count,
                bio_links,
                full_name,
                hd_profile_pic_versions,
            },
        )
    }
}

/// The preview of a link that a post carries.
#[derive(Clone, Debug, PartialEq, Eq)]
pub struct Card {
    pub url: String,
    pub title: String,
    pub image_url: String,
    pub display_url: String,
    pub favicon_url: Option<String>,
}

pub struct CardView {
    pub url: Seq<char>,
    pub title: Seq<char>,
    pub image_url: Seq<char>,
    pub display_url: Seq<char>,
    pub favicon_url: Option<Seq<char>>,
}

impl View for Card {
    type V = CardView;

    open spec fn view(&self) -> CardView {
        CardView {
            url: self.url@,
            title: self.title@,
            image_url: self.image_url@,
            display_url: self.display_url@,
            favicon_url: option_view(self.favicon_url),
        }
    }
}

impl Decode for Card {
    open spec fn shape(json: JsonView) -> Result<CardView, ShapeError> {
        let url = field_shape::<String>(json, Key::Url);
        let title = field_shape::<String>(json, Key::Title);
        let image_url = field_shape::<String>(json, Key::ImageUrl);
        let display_url = field_shape::<String>(json, Key::DisplayUrl);
        let favicon_url = optional_shape::<String>(json, Key::FaviconUrl);
        if url is Err {
            Err(url->Err_0)
        } else if title is Err {
            Err(title->Err_0)
        } else if image_url is Err {
            Err(image_url->Err_0)
        } else if display_url is Err {
            Err(display_url->Err_0)
        } else if favicon_url is Err {
            Err(favicon_url->Err_0)
        } else {
            Ok(
                CardView {
                    url: url->Ok_0,
                    title: title->Ok_0,
                    image_url: image_url->Ok_0,
                    display_url: display_url->Ok_0,
                    favicon_url: favicon_url->Ok_0,
                },
            )
        }
    }

    fn decode(json: &Json) -> (r: Result<Card, ShapeError>) {
        let url = field::<String>(json, Key::Url)?;
        let title = field::<String>(json, Key::Title)?;
        let image_url = field::<String>(json, Key::ImageUrl)?;
        let display_url = field::<String>(json, Key::DisplayUrl)?;
        let favicon_url = optional_field::<String>(json, Key::FaviconUrl)?;
        Ok(Card { url, title, image_url, display_url, favicon_url })
    }
}

/// A post in a thread.
#[derive(Clone, Debug, PartialEq, Eq)]
pub struct ThreadItem {
    pub likes: u32,
    pub text: String,
    pub published_at: u64,
    pub images: Vec<Media>,
    pub user: ProfileDetail,
    pub replies: Option<u32>,
    pub link_card: Option<Card>,
}

pub struct ThreadItemView {
    pub likes: u32,
    pub text: Seq<char>,
    pub published_at: u64,
    pub images: Seq<MediaView>,
    pub user: ProfileDetailView,
    pub replies: Option<u32>,
    pub link_card: Option<CardView>,
}

impl View for ThreadItem {
    type V = ThreadItemView;

    open spec fn view(&self) -> ThreadItemView {
        ThreadItemView {
            likes: self.likes,
            text: self.text@,
            published_at: self.published_at,
            images: views(self.images@),
            user: self.user@,
            replies: self.replies,
            link_card: option_view(self.link_card),
        }
    }
}

/// The thread item that a post of the wire stands for: each field taken
/// over as it is, under its public name.
pub open spec fn item_of(post: internal::PostView) -> ThreadItemView {
    ThreadItemView {
        likes: post.like_count,
        text: post.caption.text,
        published_at: post.taken_at,
        images: post.images.candidates,
        user: post.user,
        replies: post.text_post_app_info.direct_reply_count,
        link_card: post.text_post_app_info.link_preview_attachment,
    }
}

impl From<internal::Post> for ThreadItem {
    fn from(post: internal::Post) -> (item: ThreadItem)
        ensures
            item@ == item_of(post@),
            item.likes == post.like_count,
            item.text == post.caption.text,
            item.published_at == post.taken_at,
            item.images == post.images.candidates,
            item.user == post.user,
            item.replies == post.text_post_app_info.direct_reply_count,
            item.link_card == post.text_post_app_info.link_preview_attachment,
    {
        ThreadItem {
            user: post.user,
            likes: post.like_count,
            text: post.caption.text,
            published_at: post.taken_at,
            images: post.images.candidates,
            replies: post.text_post_app_info.direct_reply_count,
            link_card: post.text_post_app_info.link_preview_attachment,
        }
    }
}

impl FromSpecImpl<internal::Post> for ThreadItem {
    open spec fn obeys_from_spec() -> bool {
        true
    }

    open spec fn from_spec(post: internal::Post) -> ThreadItem {
        ThreadItem {
            user: post.user,
            likes: post.like_count,
            text: post.caption.text,
            published_at: post.taken_at,
            images: post.images.candidates,
            replies: post.text_post_app_info.direct_reply_count,
            link_card: post.text_post_app_info.link_preview_attachment,
        }
    }
}

/// A thread of posts.
#[derive(Clone, Debug, PartialEq, Eq)]
pub struct Thread {
    pub id: String,
    pub items: Vec<ThreadItem>,
}

pub struct ThreadView {
    pub id: Seq<char>,
    pub items: Seq<ThreadItemView>,
}

impl View for Thread {
    type V = ThreadView;

    open spec fn view(&self) -> ThreadView {
        ThreadView { id: self.id@, items: views(self.items@) }
    }
}

/// The thread that a thread of the wire stands for: the same id, and for
/// each wrapped post its thread item, in the same place.
pub open spec fn thread_of(thread: internal::ThreadView) -> ThreadView {
    ThreadView {
        id: thread.id,
        items: thread.thread_items.map_values(|item: internal::ThreadItemView| item_of(item.post)),
    }
}

/// The threads that a list of threads of the wire stands for.
pub open spec fn threads_of(threads: Seq<internal::ThreadView>) -> Seq<ThreadView> {
    threads.map_values(|thread: internal::ThreadView| thread_of(thread))
}

impl From<internal::Thread> for Thread {
    fn from(value: internal::Thread) -> (thread: Thread)
        ensures
            thread@ == thread_of(value@),
            thread.id@ == value.id@,
            thread.items.len() == value.thread_items.len(),
            forall|i: int|
                0 <= i < value.thread_items.len() ==> (#[trigger] thread.items[i])@ == item_of(
                    value.thread_items[i].post@,
                ),
    {
        let ghost wire = value@.thread_items;
        let mut items: Vec<ThreadItem> = Vec::new();
        for item in iter: value.thread_items
            invariant
                iter.seq().len() == wire.len(),
                forall|j: int| 0 <= j < wire.len() ==> (#[trigger] iter.seq()[j])@ == wire[j],
                items.len() == iter.index(),
                forall|j: int| 0 <= j < items.len() ==> (#[trigger] items[j])@ == item_of(wire[j].post),
        {
            items.push(ThreadItem::from(item.post));
        }
        let thread = Thread { id: value.id, items };
        proof {
            assert(thread@.items =~= thread_of(value@).items);
        }
        thread
    }
}

impl FromSpecImpl<internal::Thread> for Thread {
    /// The conversion builds a new list, which no specification value
    /// equals: `from` states what it returns over the models.
    open spec fn obeys_from_spec() -> bool {
        false
    }

    open spec fn from_spec(value: internal::Thread) -> Thread {
        arbitrary()
    }
}

/// Maps each thread of the wire to its thread, in the same order.
pub fn threads_from(wire: Vec<internal::Thread>) -> (threads: Vec<Thread>)
    ensures
        views(threads@) == threads_of(views(wire@)),
        threads.len() == wire.len(),
        forall|i: int| 0 <= i < wire.len() ==> (#[trigger] threads[i])@ == thread_of(wire[i]@),
{
    let ghost all = views(wire@);
    let mut threads: Vec<Thread> = Vec::new();
    for thread in iter: wire
        invariant
            iter.seq().len() == all.len(),
            forall|j: int| 0 <= j < all.len() ==> (#[trigger] iter.seq()[j])@ == all[j],
            threads.len() == iter.index(),
            forall|j: int| 0 <= j < threads.len() ==> (#[trigger] threads[j])@ == thread_of(all[j]),
    {
        threads.push(Thread::from(thread));
    }
    proof {
        assert(views(threads@) =~= threads_of(all));
    }
    threads
}

/// A post with the threads that reply to it.
#[derive(Clone, Debug, PartialEq, Eq)]
pub struct PostResponse {
    pub post: Thread,
    pub replies: Vec<Thread>,
}

pub struct PostResponseView {
    pub post: ThreadView,
    pub replies: Seq<ThreadView>,
}

impl View for PostResponse {
    type V = PostResponseView;

    open spec fn view(&self) -> PostResponseView {
        PostResponseView { post: self.post@, replies: views(self.replies@) }
    }
}

} // verus!
