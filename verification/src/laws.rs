//! What holds of decoding and of the operations as a whole, stated over the
//! models and proved from the definitions.

use vstd::prelude::*;
use crate::decode::{each_shape, field_shape, list_field_shape, list_shape, optional_shape, Decode, Key, ShapeError};
use crate::json::{lookup, parsed, JsonView};
use crate::types::internal::{Caption, ImageVersions, LikersResponse, Post, PostMeta, PostMetaView, PostView, ProfileResponse, Response, ThreadResponse, ThreadsResponse, ThreadView as WireThreadView, UserFragment};
use crate::types::{item_of, thread_of, threads_of, Card, CardView, Link, LinkView, Media, MediaView, PostResponseView, Profile, ProfileDetail, ProfileDetailView, ProfileView, ThreadView};
use crate::{answer, is_success, likes_answer, post_answer, profile_answer, threads_answer, DecodeErrorView, ErrorView, ExchangeView, Operation};

verus! {

/// Looking a name up finds the first member of that name: no member before
/// it has the name, and where nothing is found no member has it.
pub proof fn law_lookup_finds_first(members: Seq<(Seq<char>, JsonView)>, key: Seq<char>) -> (at: int)
    ensures
        match lookup(members, key) {
            Some(value) => {
                &&& 0 <= at < members.len()
                &&& members[at] == (key, value)
                &&& forall|j: int| 0 <= j < at ==> (#[trigger] members[j]).0 != key
            },
            None => forall|j: int| 0 <= j < members.len() ==> (#[trigger] members[j]).0 != key,
        },
    decreases members.len(),
{
    if members.len() == 0 {
        0
    } else if members[0].0 == key {
        0
    } else {
        let rest = members.skip(1);
        let at = law_lookup_finds_first(rest, key);
        assert forall|j: int| 0 <= j < rest.len() implies rest[j] == members[j + 1] by {}
        if lookup(members, key) is Some {
            assert forall|j: int| 0 <= j < at + 1 implies (#[trigger] members[j]).0 != key by {
                if j > 0 {
                    assert(rest[j - 1] == members[j]);
                }
            }
        } else {
            assert forall|j: int| 0 <= j < members.len() implies (#[trigger] members[j]).0
                != key by {
                if j > 0 {
                    assert(rest[j - 1] == members[j]);
                }
            }
        }
        at + 1
    }
}

/// A list decodes item by item: where it decodes at all, the result is as
/// long as the list and holds at each place what the item there decodes to.
pub proof fn law_list_keeps_order<T: Decode>(items: Seq<JsonView>)
    requires
        each_shape::<T>(items) is Ok,
    ensures
        each_shape::<T>(items)->Ok_0.len() == items.len(),
        forall|i: int|
            0 <= i < items.len() ==> T::shape(#[trigger] items[i]) == Ok::<T::V, ShapeError>(
                each_shape::<T>(items)->Ok_0[i],
            ),
    decreases items.len(),
{
    if items.len() > 0 {
        law_list_keeps_order::<T>(items.drop_last());
        let front = each_shape::<T>(items.drop_last())->Ok_0;
        assert forall|i: int| 0 <= i < items.len() implies T::shape(#[trigger] items[i]) == Ok::<
            T::V,
            ShapeError,
        >(each_shape::<T>(items)->Ok_0[i]) by {
            if i < items.len() - 1 {
                assert(items.drop_last()[i] == items[i]);
                assert(each_shape::<T>(items)->Ok_0[i] == front[i]);
            }
        }
    }
}

/// A list is refused for its first item that does not fit: the reason is
/// that item's, and every item before it fits.
pub proof fn law_list_fails_at_first<T: Decode>(items: Seq<JsonView>) -> (at: int)
    requires
        each_shape::<T>(items) is Err,
    ensures
        0 <= at < items.len(),
        T::shape(items[at]) == Err::<T::V, ShapeError>(each_shape::<T>(items)->Err_0),
        forall|j: int| 0 <= j < at ==> T::shape(#[trigger] items[j]) is Ok,
    decreases items.len(),
{
    let front = items.drop_last();
    if each_shape::<T>(front) is Err {
        let at = law_list_fails_at_first::<T>(front);
        assert(front[at] == items[at]);
        assert forall|j: int| 0 <= j < at implies T::shape(#[trigger] items[j]) is Ok by {
            assert(front[j] == items[j]);
        }
        at
    } else {
        law_list_keeps_order::<T>(front);
        assert forall|j: int| 0 <= j < items.len() - 1 implies T::shape(#[trigger] items[j]) is Ok by {
            assert(front[j] == items[j]);
        }
        items.len() - 1
    }
}

/// A thread keeps its items in the order of the wire: as many as there, and
/// at each place the item of the post that stands there.
pub proof fn law_thread_keeps_order(thread: WireThreadView)
    ensures
        thread_of(thread).id == thread.id,
        thread_of(thread).items.len() == thread.thread_items.len(),
        forall|i: int|
            0 <= i < thread.thread_items.len() ==> #[trigger] thread_of(thread).items[i] == item_of(
                thread.thread_items[i].post,
            ),
{
}

/// A list of threads keeps the order of the wire.
pub proof fn law_threads_keep_order(threads: Seq<WireThreadView>)
    ensures
        threads_of(threads).len() == threads.len(),
        forall|i: int|
            0 <= i < threads.len() ==> #[trigger] threads_of(threads)[i] == thread_of(threads[i]),
{
}

/// A thread item takes each of its fields from the post, unchanged.
pub proof fn law_item_keeps_fields(post: PostView)
    ensures
        item_of(post).likes == post.like_count,
        item_of(post).text == post.caption.text,
        item_of(post).published_at == post.taken_at,
        item_of(post).images == post.images.candidates,
        item_of(post).user == post.user,
        item_of(post).replies == post.text_post_app_info.direct_reply_count,
        item_of(post).link_card == post.text_post_app_info.link_preview_attachment,
{
}

/// An object that lacks a required member is refused, with the member's
/// name as the reason, whatever the member's type.
pub proof fn law_missing_member_is_refused<T: Decode>(json: JsonView, key: Key)
    requires
        json is Object,
        json.member(key.text()) is None,
    ensures
        field_shape::<T>(json, key) == Err::<T::V, ShapeError>(ShapeError::Missing(key)),
        list_field_shape::<T>(json, key) == Err::<Seq<T::V>, ShapeError>(ShapeError::Missing(key)),
{
}

/// A member that may be absent is no reason for refusal where it is
/// absent, or `null`: it then stands for no value.
pub proof fn law_absent_member_is_none<T: Decode>(json: JsonView, key: Key)
    requires
        json is Object,
        json.member(key.text()) is None || json.member(key.text()) == Some(JsonView::Null),
    ensures
        optional_shape::<T>(json, key) == Ok::<Option<T::V>, ShapeError>(None),
{
}

/// A post's metadata without a link preview decodes as the reply count
/// alone decides, and then has no link preview; the item made of such a
/// post has no link card.
pub proof fn law_absent_preview_is_tolerated(json: JsonView, post: PostView)
    requires
        json is Object,
        json.member(Key::LinkPreviewAttachment.text()) is None,
    ensures
        PostMeta::shape(json) == match optional_shape::<u32>(json, Key::DirectReplyCount) {
            Ok(count) => Ok(
                PostMetaView { direct_reply_count: count, link_preview_attachment: None },
            ),
            Err(error) => Err(error),
        },
        post.text_post_app_info.link_preview_attachment is None ==> item_of(post).link_card is None,
{
}

/// A status outside 200 to 299 is the outcome of every operation, whatever
/// the body holds.
pub proof fn law_status_is_checked_first(status: u16, body: Seq<u8>)
    requires
        !is_success(status),
    ensures
        profile_answer(ExchangeView::Answered { status, body }) == Err::<ProfileView, ErrorView>(
            ErrorView::HttpStatus(status),
        ),
        threads_answer(ExchangeView::Answered { status, body }) == Err::<Seq<ThreadView>, ErrorView>(
            ErrorView::HttpStatus(status),
        ),
        post_answer(ExchangeView::Answered { status, body }) == Err::<PostResponseView, ErrorView>(
            ErrorView::HttpStatus(status),
        ),
        likes_answer(ExchangeView::Answered { status, body }) == Err::<Seq<ProfileDetailView>, ErrorView>(
            ErrorView::HttpStatus(status),
        ),
{
}

/// A body without `userData` gives no profile: the outcome is the decode
/// error that names the missing member.
pub proof fn law_profile_needs_user_data(status: u16, body: Seq<u8>, json: JsonView)
    requires
        is_success(status),
        parsed(body) == Ok::<JsonView, Seq<char>>(json),
        json.member(Key::Data.text()) is Some,
        json.member(Key::Data.text())->Some_0 is Object,
        json.member(Key::Data.text())->Some_0.member(Key::UserData.text()) is None,
    ensures
        profile_answer(ExchangeView::Answered { status, body }) == Err::<ProfileView, ErrorView>(
            ErrorView::Decode(DecodeErrorView::Shape(ShapeError::Missing(Key::UserData))),
        ),
{
}

/// A profile is never made up: where the operation gives one, the service
/// answered with success, the body is JSON, and the profile is what the
/// value under `data`, `userData`, `user` decodes to.
pub proof fn law_profile_is_read(exchange: ExchangeView)
    requires
        profile_answer(exchange) is Ok,
    ensures
        exchange is Answered,
        is_success(exchange->status),
        parsed(exchange->body) is Ok,
        ({
            let json = parsed(exchange->body)->Ok_0;
            let data = json.member(Key::Data.text());
            &&& data is Some
            &&& data->Some_0.member(Key::UserData.text()) is Some
            &&& data->Some_0.member(Key::UserData.text())->Some_0.member(Key::User.text()) is Some
            &&& Profile::shape(
                data->Some_0.member(Key::UserData.text())->Some_0.member(Key::User.text())->Some_0,
            ) == Ok::<ProfileView, ShapeError>(profile_answer(exchange)->Ok_0)
        }),
{
    let json = parsed(exchange->body)->Ok_0;
    assert(Response::<ProfileResponse>::shape(json) is Ok);
    let data = json.member(Key::Data.text())->Some_0;
    assert(ProfileResponse::shape(data) is Ok);
    let user_data = data.member(Key::UserData.text())->Some_0;
    assert(UserFragment::shape(user_data) is Ok);
}

/// The threads of a user come in the order of the body: where the operation
/// gives threads, they are as many as the wire's, and each is the thread of
/// the wire's at its place.
pub proof fn law_threads_answer_keeps_order(exchange: ExchangeView)
    requires
        threads_answer(exchange) is Ok,
    ensures
        answer::<Response<ThreadsResponse>>(exchange) is Ok,
        ({
            let wire = answer::<Response<ThreadsResponse>>(exchange)->Ok_0.data.media_data.threads;
            let threads = threads_answer(exchange)->Ok_0;
            &&& threads.len() == wire.len()
            &&& forall|i: int| 0 <= i < wire.len() ==> #[trigger] threads[i] == thread_of(wire[i])
        }),
{
}

/// A post comes with its replies in the order of the body.
pub proof fn law_post_answer_keeps_order(exchange: ExchangeView)
    requires
        post_answer(exchange) is Ok,
    ensures
        answer::<Response<Response<ThreadResponse>>>(exchange) is Ok,
        ({
            let wire = answer::<Response<Response<ThreadResponse>>>(exchange)->Ok_0.data.data;
            let post = post_answer(exchange)->Ok_0;
            &&& post.post == thread_of(wire.containing_thread)
            &&& post.replies.len() == wire.reply_threads.len()
            &&& forall|i: int|
                0 <= i < wire.reply_threads.len() ==> #[trigger] post.replies[i] == thread_of(
                    wire.reply_threads[i],
                )
        }),
{
}

/// The likers of a post are the users of the body, as they stand there.
pub proof fn law_likes_answer_is_read(exchange: ExchangeView)
    requires
        likes_answer(exchange) is Ok,
    ensures
        answer::<Response<LikersResponse>>(exchange) is Ok,
        likes_answer(exchange)->Ok_0 == answer::<Response<LikersResponse>>(
            exchange,
        )->Ok_0.data.likers.users,
{
}

/// A JSON array decodes as a list exactly where each of its items decodes.
pub proof fn law_list_decodes_iff_items_do<T: Decode>(json: JsonView)
    requires
        json is Array,
    ensures
        list_shape::<T>(json) is Ok <==> forall|i: int|
            0 <= i < json->Array_0.len() ==> T::shape(#[trigger] json->Array_0[i]) is Ok,
{
    let items = json->Array_0;
    if each_shape::<T>(items) is Ok {
        law_list_keeps_order::<T>(items);
    } else {
        let at = law_list_fails_at_first::<T>(items);
        assert(T::shape(items[at]) is Err);
    }
}

/// A profile's fields are the members of the wire under their wire names:
/// `id` is read from `pk`, every other field from the member of its own
/// name.
pub proof fn law_profile_is_read_by_wire_names(json: JsonView)
    requires
        Profile::shape(json) is Ok,
    ensures
        ({
            let profile = Profile::shape(json)->Ok_0;
            &&& field_shape::<String>(json, Key::Pk) == Ok::<Seq<char>, ShapeError>(profile.id)
            &&& field_shape::<bool>(json, Key::IsPrivate) == Ok::<bool, ShapeError>(
                profile.is_private,
            )
            &&& field_shape::<String>(json, Key::ProfilePicUrl) == Ok::<Seq<char>, ShapeError>(
                profile.profile_pic_url,
            )
            &&& field_shape::<String>(json, Key::Username) == Ok::<Seq<char>, ShapeError>(
                profile.username,
            )
            &&& field_shape::<bool>(json, Key::IsVerified) == Ok::<bool, ShapeError>(
                profile.is_verified,
            )
            &&& field_shape::<String>(json, Key::Biography) == Ok::<Seq<char>, ShapeError>(
                profile.biography,
            )
            &&& field_shape::<u32>(json, Key::FollowerCount) == Ok::<u32, ShapeError>(
                profile.follower_count,
            )
            &&& list_field_shape::<Link>(json, Key::BioLinks) == Ok::<Seq<LinkView>, ShapeError>(
                profile.bio_links,
            )
            &&& field_shape::<String>(json, Key::FullName) == Ok::<Seq<char>, ShapeError>(
                profile.full_name,
            )
            &&& list_field_shape::<Media>(json, Key::HdProfilePicVersions) == Ok::<
                Seq<MediaView>,
                ShapeError,
            >(profile.hd_profile_pic_versions)
        }),
{
}

/// A profile detail's `id` is read from `pk`, its other fields from the
/// members of their own names.
pub proof fn law_profile_detail_is_read_by_wire_names(json: JsonView)
    requires
        ProfileDetail::shape(json) is Ok,
    ensures
        ({
            let detail = ProfileDetail::shape(json)->Ok_0;
            &&& field_shape::<String>(json, Key::Pk) == Ok::<Seq<char>, ShapeError>(detail.id)
            &&& field_shape::<String>(json, Key::ProfilePicUrl) == Ok::<Seq<char>, ShapeError>(
                detail.profile_pic_url,
            )
            &&& field_shape::<String>(json, Key::Username) == Ok::<Seq<char>, ShapeError>(
                detail.username,
            )
            &&& field_shape::<bool>(json, Key::IsVerified) == Ok::<bool, ShapeError>(
                detail.is_verified,
            )
        }),
{
}

/// A thread item is the wire's post flattened and renamed: `likes` is the
/// post's `like_count`, `published_at` its `taken_at`, `text` the `text` of
/// its `caption`, `images` the `candidates` of its `image_versions2`,
/// `replies` and `link_card` the `direct_reply_count` and the
/// `link_preview_attachment` of its `text_post_app_info`.
pub proof fn law_item_is_read_from_post(json: JsonView)
    requires
        Post::shape(json) is Ok,
    ensures
        ({
            let item = item_of(Post::shape(json)->Ok_0);
            let caption = json.member(Key::Caption.text());
            let images = json.member(Key::ImageVersions2.text());
            let info = json.member(Key::TextPostAppInfo.text());
            &&& field_shape::<u32>(json, Key::LikeCount) == Ok::<u32, ShapeError>(item.likes)
            &&& field_shape::<u64>(json, Key::TakenAt) == Ok::<u64, ShapeError>(item.published_at)
            &&& field_shape::<ProfileDetail>(json, Key::User) == Ok::<
                ProfileDetailView,
                ShapeError,
            >(item.user)
            &&& caption is Some
            &&& field_shape::<String>(caption->Some_0, Key::Text) == Ok::<Seq<char>, ShapeError>(
                item.text,
            )
            &&& images is Some
            &&& list_field_shape::<Media>(images->Some_0, Key::Candidates) == Ok::<
                Seq<MediaView>,
                ShapeError,
            >(item.images)
            &&& info is Some
            &&& optional_shape::<u32>(info->Some_0, Key::DirectReplyCount) == Ok::<
                Option<u32>,
                ShapeError,
            >(item.replies)
            &&& optional_shape::<Card>(info->Some_0, Key::LinkPreviewAttachment) == Ok::<
                Option<CardView>,
                ShapeError,
            >(item.link_card)
        }),
{
    let caption = json.member(Key::Caption.text())->Some_0;
    assert(Caption::shape(caption) is Ok);
    let images = json.member(Key::ImageVersions2.text())->Some_0;
    assert(ImageVersions::shape(images) is Ok);
    let info = json.member(Key::TextPostAppInfo.text())->Some_0;
    assert(PostMeta::shape(info) is Ok);
}

/// No two operations share a document id.
pub proof fn law_documents_differ(one: Operation, other: Operation)
    requires
        one != other,
    ensures
        one.document() != other.document(),
{
    reveal_strlit("23996318473300828");
    reveal_strlit("6232751443445612");
    reveal_strlit("6307072669391286");
    reveal_strlit("5587632691339264");
    reveal_strlit("9360915773983802");
    let a = one.document();
    let b = other.document();
    if a.len() == b.len() {
        assert(a[0] != b[0] || a[1] != b[1]);
    }
}

} // verus!
