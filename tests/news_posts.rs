use rust_grpc::entity::{News, Post};
use rust_grpc::error::ServiceError;
use rust_grpc::service::{CompositeService, MyNewsService, MyPostService};
use rust_grpc::store::Store;

fn news(title: &str, status: i32) -> News {
    News {
        id: 0,
        title: title.to_string(),
        body: "b".to_string(),
        post_image: "i".to_string(),
        status,
    }
}

fn post(user_id: u64, title: &str) -> Post {
    Post { id: 0, user_id, title: title.to_string(), body: "b".to_string() }
}

#[test]
fn news_seed() {
    let svc = MyNewsService::new();
    let all = svc.get_all_news();
    assert_eq!(all.len(), 5);
    assert_eq!(all[0].id, 1);
    assert_eq!(all[0].title, "Note 1");
    assert_eq!(all[0].body, "Content 1");
    assert_eq!(all[0].post_image, "Post image 1");
    assert_eq!(all[0].status, 0);
    assert_eq!(all[4].id, 5);
    assert_eq!(all[4].title, "Note 5");
    assert_eq!(all[4].status, 1);
}

#[test]
fn news_get_and_multiple() {
    let svc = MyNewsService::new();
    assert_eq!(svc.get_news(3).unwrap().title, "Note 3");
    assert_eq!(svc.get_news(6), Err(ServiceError::NotFound));
    let some = svc.get_multiple_news(&vec![4, 2, 42]);
    assert_eq!(some.len(), 2);
    assert_eq!(some[0].id, 2);
    assert_eq!(some[1].id, 4);
    let all = svc.get_multiple_news(&vec![]);
    assert_eq!(all.len(), 5);
    assert_eq!(all, svc.get_all_news());
    assert!(svc.get_multiple_news(&vec![42]).is_empty());
}

#[test]
fn news_add_uses_max_plus_one() {
    let mut svc = MyNewsService::new();
    assert!(svc.can_add());
    let n = svc.add_news(news("fresh", 1));
    assert_eq!(n.id, 6);
    assert_eq!(svc.get_news(6).unwrap().title, "fresh");
    svc.delete_news(3).unwrap();
    assert_eq!(svc.add_news(news("again", 0)).id, 7);
}

#[test]
fn news_edit_replaces_every_field() {
    let mut svc = MyNewsService::new();
    let mut n = news("edited", 7);
    n.id = 2;
    let r = svc.edit_news(n.clone()).unwrap();
    assert_eq!(r, n);
    assert_eq!(svc.get_news(2).unwrap(), n);
    assert_eq!(svc.get_all_news()[1].status, 7);
    n.id = 99;
    assert_eq!(svc.edit_news(n), Err(ServiceError::NotFound));
}

#[test]
fn news_delete() {
    let mut svc = MyNewsService::new();
    assert_eq!(svc.delete_news(1), Ok(()));
    assert_eq!(svc.get_all_news().len(), 4);
    assert_eq!(svc.get_news(1), Err(ServiceError::NotFound));
    assert_eq!(svc.delete_news(1), Err(ServiceError::NotFound));
    assert_eq!(svc.get_all_news().len(), 4);
}

#[test]
fn posts_crud() {
    let mut svc = MyPostService::new();
    assert!(svc.list_posts(None).is_empty());
    assert!(svc.can_create());
    assert_eq!(svc.create_post(post(1, "a")).id, 1);
    assert_eq!(svc.create_post(post(2, "b")).id, 2);
    assert_eq!(svc.create_post(post(1, "c")).id, 3);
    let mine = svc.list_posts(Some(1));
    assert_eq!(mine.len(), 2);
    assert_eq!(mine[0].title, "a");
    assert_eq!(mine[1].title, "c");
    assert!(svc.list_posts(Some(5)).is_empty());
    assert_eq!(svc.list_posts(None).len(), 3);
    let mut up = post(9, "z");
    up.id = 2;
    assert_eq!(svc.update_post(up.clone()), Ok(up.clone()));
    assert_eq!(svc.get_post(2), Ok(up));
    assert_eq!(svc.delete_post(2), Ok(()));
    assert_eq!(svc.get_post(2), Err(ServiceError::NotFound));
    assert_eq!(svc.delete_post(2), Err(ServiceError::NotFound));
    let mut gone = post(1, "q");
    gone.id = 2;
    assert_eq!(svc.update_post(gone), Err(ServiceError::NotFound));
}

#[test]
fn composite_starts_seeded() {
    let c = CompositeService::new();
    let all = c.news_service.get_all_news();
    assert_eq!(all.len(), 5);
    assert_eq!(all[0].title, "Note 1");
    assert_eq!(all[0].status, 0);
    assert_eq!(all[2].id, 3);
    assert_eq!(all[2].body, "Content 3");
    assert_eq!(all[4].post_image, "Post image 5");
    assert_eq!(all[4].status, 1);
    assert!(c.post_service.list_posts(None).is_empty());
    assert!(c.user_service.list_users(&vec![]).is_empty());
}

#[test]
fn store_create_on_empty_and_sequence_of_creates() {
    let mut st: Store<Post> = Store::new();
    assert_eq!(st.max_id(), 0);
    let mut ids: Vec<u64> = Vec::new();
    for k in 0..10u64 {
        ids.push(st.create(post(k, "p")).id);
    }
    assert_eq!(ids, (1..=10).collect::<Vec<u64>>());
    assert_eq!(st.max_id(), 10);
    assert_eq!(st.len(), 10);
}

#[test]
fn store_seeded_create_after_max() {
    let mut a = post(1, "a");
    a.id = 40;
    let mut b = post(1, "b");
    b.id = 7;
    let mut st = Store::from_vec(vec![a, b]);
    assert_eq!(st.create(post(1, "c")).id, 41);
    assert_eq!(st.at(2).title, "c");
    assert_eq!(st.list().len(), 3);
}

#[test]
fn store_at_largest_id_cannot_create() {
    let mut a = post(1, "a");
    a.id = u64::MAX;
    let st = Store::from_vec(vec![a]);
    assert!(!st.can_create());
}

#[test]
fn store_replace_keeps_id() {
    let mut st: Store<Post> = Store::new();
    st.create(post(1, "a"));
    let mut v = post(3, "new");
    v.id = 55;
    let r = st.replace(1, v).unwrap();
    assert_eq!(r.id, 1);
    assert_eq!(r.user_id, 3);
    assert_eq!(r.title, "new");
    assert_eq!(st.get(1), Ok(r));
    assert_eq!(st.replace(2, post(1, "x")), Err(ServiceError::NotFound));
}
