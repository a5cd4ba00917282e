use threads_api::types::internal::{Caption, ImageVersions, Post, PostMeta, Thread as WireThread, ThreadItem as WireItem};
use threads_api::types::{threads_from, Card, Media, ProfileDetail, Thread, ThreadItem};

fn author(name: &str) -> ProfileDetail {
    ProfileDetail {
        profile_pic_url: format!("https://cdn.example/{}.jpg", name),
        username: name.to_string(),
        is_verified: true,
        id: format!("id-{}", name),
    }
}

fn post(text: &str, likes: u32) -> Post {
    Post {
        user: author("ann"),
        images: ImageVersions { candidates: Vec::new() },
        original_width: 10,
        original_height: 20,
        caption: Caption { text: text.to_string() },
        taken_at: 1688540749,
        like_count: likes,
        text_post_app_info: PostMeta { direct_reply_count: None, link_preview_attachment: None },
    }
}

fn wire_thread(id: &str, texts: &[&str]) -> WireThread {
    WireThread {
        id: id.to_string(),
        thread_items: texts.iter().map(|t| WireItem { post: post(t, 1) }).collect(),
    }
}

#[test]
fn item_takes_each_field_from_the_post() {
    let card = Card {
        url: "u".to_string(),
        title: "t".to_string(),
        image_url: "i".to_string(),
        display_url: "d".to_string(),
        favicon_url: Some("f".to_string()),
    };
    let images = vec![
        Media { url: "one".to_string(), width: 1, height: 2 },
        Media { url: "two".to_string(), width: 3, height: 4 },
    ];
    let wire = Post {
        user: author("zuck"),
        images: ImageVersions { candidates: images.clone() },
        original_width: 612,
        original_height: 613,
        caption: Caption { text: "hello".to_string() },
        taken_at: 1688540749,
        like_count: 103423,
        text_post_app_info: PostMeta {
            direct_reply_count: Some(2839),
            link_preview_attachment: Some(card.clone()),
        },
    };
    let item = ThreadItem::from(wire);
    assert_eq!(
        item,
        ThreadItem {
            likes: 103423,
            text: "hello".to_string(),
            published_at: 1688540749,
            images,
            user: author("zuck"),
            replies: Some(2839),
            link_card: Some(card),
        }
    );
}

#[test]
fn item_without_optional_fields() {
    let item: ThreadItem = post("plain", 0).into();
    assert_eq!(item.replies, None);
    assert_eq!(item.link_card, None);
    assert_eq!(item.likes, 0);
    assert_eq!(item.text, "plain");
    assert!(item.images.is_empty());
}

#[test]
fn thread_keeps_id_and_order() {
    let thread = Thread::from(wire_thread("77", &["a", "b", "c", "d"]));
    assert_eq!(thread.id, "77");
    let texts: Vec<&str> = thread.items.iter().map(|i| i.text.as_str()).collect();
    assert_eq!(texts, vec!["a", "b", "c", "d"]);
    let same: Thread = wire_thread("77", &["a", "b", "c", "d"]).into();
    assert_eq!(same, thread);
}

#[test]
fn thread_may_have_no_items() {
    let thread = Thread::from(wire_thread("only-id", &[]));
    assert_eq!(thread.id, "only-id");
    assert!(thread.items.is_empty());
}

#[test]
fn threads_keep_their_order() {
    let threads = threads_from(vec![
        wire_thread("3", &["x"]),
        wire_thread("1", &[]),
        wire_thread("2", &["y", "z"]),
    ]);
    let ids: Vec<&str> = threads.iter().map(|t| t.id.as_str()).collect();
    assert_eq!(ids, vec!["3", "1", "2"]);
    assert_eq!(threads[2].items[1].text, "z");
    assert!(threads_from(Vec::new()).is_empty());
}
