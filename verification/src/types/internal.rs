//! The shapes of the wire: records whose members carry the names and the
//! nesting of the service's JSON.

use vstd::prelude::*;
use crate::decode::{field, field_shape, list_field, list_field_shape, optional_field, optional_shape, Decode, Key, ShapeError};
use crate::json::{Json, JsonView};
use crate::model::{option_view, views};
use crate::types::{Card, CardView, Media, MediaView, Profile, ProfileDetail, ProfileDetailView, ProfileView};

verus! {

/// The envelope round every answer: one member, `data`.
#[derive(Clone, Debug)]
pub struct Response<T> {
    pub data: T,
}

pub struct ResponseView<V> {
    pub data: V,
}

impl<T: View> View for Response<T> {
    type V = ResponseView<T::V>;

    open spec fn view(&self) -> ResponseView<T::V> {
        ResponseView { data: self.data@ }
    }
}

impl<T: Decode> Decode for Response<T> {
    open spec fn shape(json: JsonView) -> Result<ResponseView<T::V>, ShapeError> {
        let data = field_shape::<T>(json, Key::Data);
        if data is Err {
            Err(data->Err_0)
        } else {
            Ok(ResponseView { data: data->Ok_0 })
        }
    }

    fn decode(json: &Json) -> (r: Result<Response<T>, ShapeError>) {
        let data = field::<T>(json, Key::Data)?;
        Ok(Response { data })
    }
}

#[derive(Clone, Debug)]
pub struct UserFragment {
    pub user: Profile,
}

pub struct UserFragmentView {
    pub user: ProfileView,
}

impl View for UserFragment {
    type V = UserFragmentView;

    open spec fn view(&self) -> UserFragmentView {
        UserFragmentView { user: self.user@ }
    }
}

impl Decode for UserFragment {
    open spec fn shape(json: JsonView) -> Result<UserFragmentView, ShapeError> {
        let user = field_shape::<Profile>(json, Key::User);
        if user is Err {
            Err(user->Err_0)
        } else {
            Ok(UserFragmentView { user: user->Ok_0 })
        }
    }

    fn decode(json: &Json) -> (r: Result<UserFragment, ShapeError>) {
        let user = field::<Profile>(json, Key::User)?;
        Ok(UserFragment { user })
    }
}

#[derive(Clone, Debug)]
pub struct ProfileResponse {
    pub user_data: UserFragment,
}

pub struct ProfileResponseView {
    pub user_data: UserFragmentView,
}

impl View for ProfileResponse {
    type V = ProfileResponseView;

    open spec fn view(&self) -> ProfileResponseView {
        ProfileResponseView { user_data: self.user_data@ }
    }
}

impl Decode for ProfileResponse {
    open spec fn shape(json: JsonView) -> Result<ProfileResponseView, ShapeError> {
        let user_data = field_shape::<UserFragment>(json, Key::UserData);
        if user_data is Err {
            Err(user_data->Err_0)
        } else {
            Ok(ProfileResponseView { user_data: user_data->Ok_0 })
        }
    }

    fn decode(json: &Json) -> (r: Result<ProfileResponse, ShapeError>) {
        let user_data = field::<UserFragment>(json, Key::UserData)?;
        Ok(ProfileResponse { user_data })
    }
}

#[derive(Clone, Debug)]
pub struct Caption {
    pub text: String,
}

pub struct CaptionView {
    pub text: Seq<char>,
}

impl View for Caption {
    type V = CaptionView;

    open spec fn view(&self) -> CaptionView {
        CaptionView { text: self.text@ }
    }
}

impl Decode for Caption {
    open spec fn shape(json: JsonView) -> Result<CaptionView, ShapeError> {
        let text = field_shape::<String>(json, Key::Text);
        if text is Err {
            Err(text->Err_0)
        } else {
            Ok(CaptionView { text: text->Ok_0 })
        }
    }

    fn decode(json: &Json) -> (r: Result<Caption, ShapeError>) {
        let text = field::<String>(json, Key::Text)?;
        Ok(Caption { text })
    }
}

#[derive(Clone, Debug)]
pub struct ImageVersions {
    pub candidates: Vec<Media>,
}

pub struct ImageVersionsView {
    pub candidates: Seq<MediaView>,
}

impl View for ImageVersions {
    type V = ImageVersionsView;

    open spec fn view(&self) -> ImageVersionsView {
        ImageVersionsView { candidates: views(self.candidates@) }
    }
}

impl Decode for ImageVersions {
    open spec fn shape(json: JsonView) -> Result<ImageVersionsView, ShapeError> {
        let candidates = list_field_shape::<Media>(json, Key::Candidates);
        if candidates is Err {
            Err(candidates->Err_0)
        } else {
            Ok(ImageVersionsView { candidates: candidates->Ok_0 })
        }
    }

    fn decode(json: &Json) -> (r: Result<ImageVersions, ShapeError>) {
        let candidates = list_field::<Media>(json, Key::Candidates)?;
        Ok(ImageVersions { candidates })
    }
}

/// What a post says of its replies and of the link it previews; both may
/// be absent.
#[derive(Clone, Debug)]
pub struct PostMeta {
    pub direct_reply_count: Option<u32>,
    pub link_preview_attachment: Option<Card>,
}

pub struct PostMetaView {
    pub direct_reply_count: Option<u32>,
    pub link_preview_attachment: Option<CardView>,
}

impl View for PostMeta {
    type V = PostMetaView;

    open spec fn view(&self) -> PostMetaView {
        PostMetaView {
            direct_reply_count: self.direct_reply_count,
            link_preview_attachment: option_view(self.link_preview_attachment),
        }
    }
}

impl Decode for PostMeta {
    open spec fn shape(json: JsonView) -> Result<PostMetaView, ShapeError> {
        let direct_reply_count = optional_shape::<u32>(json, Key::DirectReplyCount);
        let link_preview_attachment = optional_shape::<Card>(json, Key::LinkPreviewAttachment);
        if direct_reply_count is Err {
            Err(direct_reply_count->Err_0)
        } else if link_preview_attachment is Err {
            Err(link_preview_attachment->Err_0)
        } else {
            Ok(
                PostMetaView {
                    direct_reply_count: direct_reply_count->Ok_0,
                    link_preview_attachment: link_preview_attachment->Ok_0,
                },
            )
        }
    }

    fn decode(json: &Json) -> (r: Result<PostMeta, ShapeError>) {
        let direct_reply_count = optional_field::<u32>(json, Key::DirectReplyCount)?;
        let link_preview_attachment = optional_field::<Card>(json, Key::LinkPreviewAttachment)?;
        Ok(PostMeta { direct_reply_count, link_preview_attachment })
    }
}

/// A post as the service sends it. The width and height of the upload are
/// read and checked with the rest, and go no further.
#[derive(Clone, Debug)]
pub struct Post {
    pub user: ProfileDetail,
    pub images: ImageVersions,
    pub original_width: u32,
    pub original_height: u32,
    pub caption: Caption,
    pub taken_at: u64,
    pub like_count: u32,
    pub text_post_app_info: PostMeta,
}

pub struct PostView {
    pub user: ProfileDetailView,
    pub images: ImageVersionsView,
    pub original_width: u32,
    pub original_height: u32,
    pub caption: CaptionView,
    pub taken_at: u64,
    pub like_count: u32,
    pub text_post_app_info: PostMetaView,
}

impl View for Post {
    type V = PostView;

    open spec fn view(&self) -> PostView {
        PostView {
            user: self.user@,
            images: self.images@,
            original_width: self.original_width,
            original_height: self.original_height,
            caption: self.caption@,
            taken_at: self.taken_at,
            like_count: self.like_count,
            text_post_app_info: self.text_post_app_info@,
        }
    }
}

impl Decode for Post {
    open spec fn shape(json: JsonView) -> Result<PostView, ShapeError> {
        let user = field_shape::<ProfileDetail>(json, Key::User);
        let images = field_shape::<ImageVersions>(json, Key::ImageVersions2);
        let original_width = field_shape::<u32>(json, Key::OriginalWidth);
        let original_height = field_shape::<u32>(json, Key::OriginalHeight);
        let caption = field_shape::<Caption>(json, Key::Caption);
        let taken_at = field_shape::<u64>(json, Key::TakenAt);
        let like_count = field_shape::<u32>(json, Key::LikeCount);
        let text_post_app_info = field_shape::<PostMeta>(json, Key::TextPostAppInfo);
        if user is Err {
            Err(user->Err_0)
        } else if images is Err {
            Err(images->Err_0)
        } else if original_width is Err {
            Err(original_width->Err_0)
        } else if original_height is Err {
            Err(original_height->Err_0)
        } else if caption is Err {
            Err(caption->Err_0)
        } else if taken_at is Err {
            Err(taken_at->Err_0)
        } else if like_count is Err {
            Err(like_count->Err_0)
        } else if text_post_app_info is Err {
            Err(text_post_app_info->Err_0)
        } else {
            Ok(
                PostView {
                    user: user->Ok_0,
                    images: images->Ok_0,
                    original_width: original_width->Ok_0,
                    original_height: original_height->Ok_0,
                    caption: caption->Ok_0,
                    taken_at: taken_at->Ok_0,
                    like_count: like_count->Ok_0,
                    text_post_app_info: text_post_app_info->Ok_0,
                },
            )
        }
    }

    fn decode(json: &Json) -> (r: Result<Post, ShapeError>) {
        let user = field::<ProfileDetail>(json, Key::User)?;
        let images = field::<ImageVersions>(json, Key::ImageVersions2)?;
        let original_width = field::<u32>(json, Key::OriginalWidth)?;
        let original_height = field::<u32>(json, Key::OriginalHeight)?;
        let caption = field::<Caption>(json, Key::Caption)?;
        let taken_at = field::<u64>(json, Key::TakenAt)?;
        let like_count = field::<u32>(json, Key::LikeCount)?;
        let text_post_app_info = field::<PostMeta>(json, Key::TextPostAppInfo)?;
        Ok(
            Post {
                user,
                images,
                original_width,
                original_height,
                caption,
                taken_at,
                like_count,
                text_post_app_info,
            },
        )
    }
}

#[derive(Clone, Debug)]
pub struct ThreadItem {
    pub post: Post,
}

pub struct ThreadItemView {
    pub post: PostView,
}

impl View for ThreadItem {
    type V = ThreadItemView;

    open spec fn view(&self) -> ThreadItemView {
        ThreadItemView { post: self.post@ }
    }
}

impl Decode for ThreadItem {
    open spec fn shape(json: JsonView) -> Result<ThreadItemView, ShapeError> {
        let post = field_shape::<Post>(json, Key::Post);
        if post is Err {
            Err(post->Err_0)
        } else {
            Ok(ThreadItemView { post: post->Ok_0 })
        }
    }

    fn decode(json: &Json) -> (r: Result<ThreadItem, ShapeError>) {
        let post = field::<Post>(json, Key::Post)?;
        Ok(ThreadItem { post })
    }
}

#[derive(Clone, Debug)]
pub struct Thread {
    pub id: String,
    pub thread_items: Vec<ThreadItem>,
}

pub struct ThreadView {
    pub id: Seq<char>,
    pub thread_items: Seq<ThreadItemView>,
}

impl View for Thread {
    type V = ThreadView;

    open spec fn view(&self) -> ThreadView {
        ThreadView { id: self.id@, thread_items: views(self.thread_items@) }
    }
}

impl Decode for Thread {
    open spec fn shape(json: JsonView) -> Result<ThreadView, ShapeError> {
        let id = field_shape::<String>(json, Key::Id);
        let thread_items = list_field_shape::<ThreadItem>(json, Key::ThreadItems);
        if id is Err {
            Err(id->Err_0)
        } else if thread_items is Err {
            Err(thread_items->Err_0)
        } else {
            Ok(ThreadView { id: id->Ok_0, thread_items: thread_items->Ok_0 })
        }
    }

    fn decode(json: &Json) -> (r: Result<Thread, ShapeError>) {
        let id = field::<String>(json, Key::Id)?;
        let thread_items = list_field::<ThreadItem>(json, Key::ThreadItems)?;
        Ok(Thread { id, thread_items })
    }
}

#[derive(Clone, Debug)]
pub struct ThreadsFragment {
    pub threads: Vec<Thread>,
}

pub struct ThreadsFragmentView {
    pub threads: Seq<ThreadView>,
}

impl View for ThreadsFragment {
    type V = ThreadsFragmentView;

    open spec fn view(&self) -> ThreadsFragmentView {
        ThreadsFragmentView { threads: views(self.threads@) }
    }
}

impl Decode for ThreadsFragment {
    open spec fn shape(json: JsonView) -> Result<ThreadsFragmentView, ShapeError> {
        let threads = list_field_shape::<Thread>(json, Key::Threads);
        if threads is Err {
            Err(threads->Err_0)
        } else {
            Ok(ThreadsFragmentView { threads: threads->Ok_0 })
        }
    }

    fn decode(json: &Json) -> (r: Result<ThreadsFragment, ShapeError>) {
        let threads = list_field::<Thread>(json, Key::Threads)?;
        Ok(ThreadsFragment { threads })
    }
}

#[derive(Clone, Debug)]
pub struct ThreadsResponse {
    pub media_data: ThreadsFragment,
}

pub struct ThreadsResponseView {
    pub media_data: ThreadsFragmentView,
}

impl View for ThreadsResponse {
    type V = ThreadsResponseView;

    open spec fn view(&self) -> ThreadsResponseView {
        ThreadsResponseView { media_data: self.media_data@ }
    }
}

impl Decode for ThreadsResponse {
    open spec fn shape(json: JsonView) -> Result<ThreadsResponseView, ShapeError> {
        let media_data = field_shape::<ThreadsFragment>(json, Key::MediaData);
        if media_data is Err {
            Err(media_data->Err_0)
        } else {
            Ok(ThreadsResponseView { media_data: media_data->Ok_0 })
        }
    }

    fn decode(json: &Json) -> (r: Result<ThreadsResponse, ShapeError>) {
        let media_data = field::<ThreadsFragment>(json, Key::MediaData)?;
        Ok(ThreadsResponse { media_data })
    }
}

#[derive(Clone, Debug)]
pub struct ThreadResponse {
    pub containing_thread: Thread,
    pub reply_threads: Vec<Thread>,
}

pub struct ThreadResponseView {
    pub containing_thread: ThreadView,
    pub reply_threads: Seq<ThreadView>,
}

impl View for ThreadResponse {
    type V = ThreadResponseView;

    open spec fn view(&self) -> ThreadResponseView {
        ThreadResponseView {
            containing_thread: self.containing_thread@,
            reply_threads: views(self.reply_threads@),
        }
    }
}

impl Decode for ThreadResponse {
    open spec fn shape(json: JsonView) -> Result<ThreadResponseView, ShapeError> {
        let containing_thread = field_shape::<Thread>(json, Key::ContainingThread);
        let reply_threads = list_field_shape::<Thread>(json, Key::ReplyThreads);
        if containing_thread is Err {
            Err(containing_thread->Err_0)
        } else if reply_threads is Err {
            Err(reply_threads->Err_0)
        } else {
            Ok(
                ThreadResponseView {
                    containing_thread: containing_thread->Ok_0,
                    reply_threads: reply_threads->Ok_0,
                },
            )
        }
    }

    fn decode(json: &Json) -> (r: Result<ThreadResponse, ShapeError>) {
        let containing_thread = field::<Thread>(json, Key::ContainingThread)?;
        let reply_threads = list_field::<Thread>(json, Key::ReplyThreads)?;
        Ok(ThreadResponse { containing_thread, reply_threads })
    }
}

#[derive(Clone, Debug)]
pub struct Likers {
    pub users: Vec<ProfileDetail>,
}

pub struct LikersView {
    pub users: Seq<ProfileDetailView>,
}

impl View for Likers {
    type V = LikersView;

    open spec fn view(&self) -> LikersView {
        LikersView { users: views(self.users@) }
    }
}

impl Decode for Likers {
    open spec fn shape(json: JsonView) -> Result<LikersView, ShapeError> {
        let users = list_field_shape::<ProfileDetail>(json, Key::Users);
        if users is Err {
            Err(users->Err_0)
        } else {
            Ok(LikersView { users: users->Ok_0 })
        }
    }

    fn decode(json: &Json) -> (r: Result<Likers, ShapeError>) {
        let users = list_field::<ProfileDetail>(json, Key::Users)?;
        Ok(Likers { users })
    }
}

#[derive(Clone, Debug)]
pub struct LikersResponse {
    pub likers: Likers,
}

pub struct LikersResponseView {
    pub likers: LikersView,
}

impl View for LikersResponse {
    type V = LikersResponseView;

    open spec fn view(&self) -> LikersResponseView {
        LikersResponseView { likers: self.likers@ }
    }
}

impl Decode for LikersResponse {
    open spec fn shape(json: JsonView) -> Result<LikersResponseView, ShapeError> {
        let likers = field_shape::<Likers>(json, Key::Likers);
        if likers is Err {
            Err(likers->Err_0)
        } else {
            Ok(LikersResponseView { likers: likers->Ok_0 })
        }
    }

    fn decode(json: &Json) -> (r: Result<LikersResponse, ShapeError>) {
        let likers = field::<Likers>(json, Key::Likers)?;
        Ok(LikersResponse { likers })
    }
}

} // verus!
