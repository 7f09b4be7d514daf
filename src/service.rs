use vstd::prelude::*;

use crate::entity::{Entity, News, Post, User};
use crate::error::ServiceError;
use crate::merge::{merge_user, merged_user};
use crate::store::{contains_id, index_of, max_id, next_id, unique_ids, Store};

verus! {

/// The news items, seeded with five entries.
pub struct MyNewsService {
    news: Store<News>,
}

/// The posts, empty at first.
pub struct MyPostService {
    posts: Store<Post>,
}

/// The users, empty at first.
pub struct MyUserService {
    users: Store<User>,
}

/// The three services that make up the server.
pub struct CompositeService {
    pub news_service: MyNewsService,
    pub post_service: MyPostService,
    pub user_service: MyUserService,
}

impl View for MyNewsService {
    type V = Seq<News>;

    closed spec fn view(&self) -> Seq<News> {
        self.news@
    }
}

impl View for MyPostService {
    type V = Seq<Post>;

    closed spec fn view(&self) -> Seq<Post> {
        self.posts@
    }
}

impl View for MyUserService {
    type V = Seq<User>;

    closed spec fn view(&self) -> Seq<User> {
        self.users@
    }
}

/// `n` holds the given values.
pub open spec fn news_is(n: News, id: u64, title: Seq<char>, body: Seq<char>, image: Seq<char>, status: i32) -> bool {
    &&& n.id == id
    &&& n.title@ == title
    &&& n.body@ == body
    &&& n.post_image@ == image
    &&& n.status == status
}

fn seed_news(id: u64, title: &str, body: &str, image: &str, status: i32) -> (r: News)
    ensures
        news_is(r, id, title@, body@, image@, status),
{
    News {
        id,
        title: String::from_str(title),
        body: String::from_str(body),
        post_image: String::from_str(image),
        status,
    }
}

impl MyNewsService {
    /// Ids are unique.
    pub open spec fn wf(&self) -> bool {
        unique_ids(self@)
    }

    /// The service with its five seed items, ids 1 to 5, the first with
    /// status 0 and the others with status 1.
    pub fn new() -> (r: MyNewsService)
        ensures
            r.wf(),
            r@.len() == 5,
            news_is(r@[0], 1, "Note 1"@, "Content 1"@, "Post image 1"@, 0),
            news_is(r@[1], 2, "Note 2"@, "Content 2"@, "Post image 2"@, 1),
            news_is(r@[2], 3, "Note 3"@, "Content 3"@, "Post image 3"@, 1),
            news_is(r@[3], 4, "Note 4"@, "Content 4"@, "Post image 4"@, 1),
            news_is(r@[4], 5, "Note 5"@, "Content 5"@, "Post image 5"@, 1),
    {
        let mut v: Vec<News> = Vec::new();
        v.push(seed_news(1, "Note 1", "Content 1", "Post image 1", 0));
        v.push(seed_news(2, "Note 2", "Content 2", "Post image 2", 1));
        v.push(seed_news(3, "Note 3", "Content 3", "Post image 3", 1));
        v.push(seed_news(4, "Note 4", "Content 4", "Post image 4", 1));
        v.push(seed_news(5, "Note 5", "Content 5", "Post image 5", 1));
        assert(unique_ids(v@));
        MyNewsService { news: Store::from_vec(v) }
    }

    /// Every news item, in order.
    pub fn get_all_news(&self) -> (r: Vec<News>)
        ensures
            r@ == self@,
    {
        self.news.list()
    }

    /// The news item with id `id`.
    pub fn get_news(&self, id: u64) -> (r: Result<News, ServiceError>)
        requires
            self.wf(),
        ensures
            contains_id(self@, id) ==> r == Ok::<News, ServiceError>(self@[index_of(self@, id)]),
            !contains_id(self@, id) ==> r == Err::<News, ServiceError>(ServiceError::NotFound),
    {
        self.news.get(id)
    }

    /// The news items whose id is in `ids`, in store order; every news item
    /// where `ids` is empty.
    pub fn get_multiple_news(&self, ids: &Vec<u64>) -> (r: Vec<News>)
        ensures
            ids@.len() == 0 ==> r@ == self@,
            ids@.len() > 0 ==> r@ == self@.filter(|n: News| ids@.contains(n.id)),
    {
        if ids.len() == 0 {
            self.news.list()
        } else {
            let r = self.news.select_ids(ids);
            assert((|t: News| ids@.contains(t.spec_id())) =~= (|n: News| ids@.contains(n.id)));
            r
        }
    }

    /// Removes the news item with id `id`.
    pub fn delete_news(&mut self, id: u64) -> (r: Result<(), ServiceError>)
        requires
            old(self).wf(),
        ensures
            final(self).wf(),
            contains_id(old(self)@, id) ==> r == Ok::<(), ServiceError>(())
                && final(self)@ == old(self)@.remove(index_of(old(self)@, id)),
            !contains_id(old(self)@, id) ==> r == Err::<(), ServiceError>(ServiceError::NotFound)
                && final(self)@ == old(self)@,
    {
        self.news.delete(id)
    }

    /// Replaces the news item with the id of `news` by `news`.
    pub fn edit_news(&mut self, news: News) -> (r: Result<News, ServiceError>)
        requires
            old(self).wf(),
        ensures
            final(self).wf(),
            contains_id(old(self)@, news.id) ==> r == Ok::<News, ServiceError>(news)
                && final(self)@ == old(self)@.update(index_of(old(self)@, news.id), news),
            !contains_id(old(self)@, news.id) ==> r == Err::<News, ServiceError>(ServiceError::NotFound)
                && final(self)@ == old(self)@,
    {
        let id = news.id;
        proof {
            news.lemma_with_id(id);
        }
        self.news.replace(id, news)
    }

    /// Whether `add_news` can assign an id.
    pub fn can_add(&self) -> (r: bool)
        ensures
            r == (max_id(self@) < u64::MAX),
    {
        self.news.can_create()
    }

    /// Stores `news` under the next id and returns it.
    pub fn add_news(&mut self, news: News) -> (r: News)
        requires
            old(self).wf(),
            max_id(old(self)@) < u64::MAX,
        ensures
            final(self).wf(),
            r == (News { id: next_id(old(self)@) as u64, ..news }),
            final(self)@ == old(self)@.push(r),
            max_id(final(self)@) == max_id(old(self)@) + 1,
    {
        self.news.create(news)
    }
}

impl MyPostService {
    /// Ids are unique.
    pub open spec fn wf(&self) -> bool {
        unique_ids(self@)
    }

    /// The service with no posts.
    pub fn new() -> (r: MyPostService)
        ensures
            r.wf(),
            r@ == Seq::<Post>::empty(),
    {
        MyPostService { posts: Store::new() }
    }

    /// The posts of user `user_id`, in order; every post where no user is given.
    pub fn list_posts(&self, user_id: Option<u64>) -> (r: Vec<Post>)
        ensures
            user_id is None ==> r@ == self@,
            user_id matches Some(u) ==> r@ == self@.filter(|p: Post| p.user_id == u),
    {
        match user_id {
            None => self.posts.list(),
            Some(u) => {
                let ghost pred = |p: Post| p.user_id == u;
                let mut r: Vec<Post> = Vec::new();
                let mut i: usize = 0;
                while i < self.posts.len()
                    invariant
                        i <= self@.len(),
                        pred == (|p: Post| p.user_id == u),
                        r@ == self@.subrange(0, i as int).filter(pred),
                    decreases self@.len() - i,
                {
                    let p = self.posts.at(i);
                    proof {
                        assert(self@.subrange(0, i + 1) =~= self@.subrange(0, i as int).push(*p));
                        self@.subrange(0, i as int).lemma_filter_push(*p, pred);
                    }
                    if p.user_id == u {
                        r.push(p.duplicate());
                    }
                    i = i + 1;
                }
                assert(self@.subrange(0, i as int) =~= self@);
                r
            },
        }
    }

    /// The post with id `id`.
    pub fn get_post(&self, id: u64) -> (r: Result<Post, ServiceError>)
        requires
            self.wf(),
        ensures
            contains_id(self@, id) ==> r == Ok::<Post, ServiceError>(self@[index_of(self@, id)]),
            !contains_id(self@, id) ==> r == Err::<Post, ServiceError>(ServiceError::NotFound),
    {
        self.posts.get(id)
    }

    /// Whether `create_post` can assign an id.
    pub fn can_create(&self) -> (r: bool)
        ensures
            r == (max_id(self@) < u64::MAX),
    {
        self.posts.can_create()
    }

    /// Stores `post` under the next id and returns it.
    pub fn create_post(&mut self, post: Post) -> (r: Post)
        requires
            old(self).wf(),
            max_id(old(self)@) < u64::MAX,
        ensures
            final(self).wf(),
            r == (Post { id: next_id(old(self)@) as u64, ..post }),
            final(self)@ == old(self)@.push(r),
            max_id(final(self)@) == max_id(old(self)@) + 1,
    {
        self.posts.create(post)
    }

    /// Replaces the post with the id of `post` by `post`.
    pub fn update_post(&mut self, post: Post) -> (r: Result<Post, ServiceError>)
        requires
            old(self).wf(),
        ensures
            final(self).wf(),
            contains_id(old(self)@, post.id) ==> r == Ok::<Post, ServiceError>(post)
                && final(self)@ == old(self)@.update(index_of(old(self)@, post.id), post),
            !contains_id(old(self)@, post.id) ==> r == Err::<Post, ServiceError>(ServiceError::NotFound)
                && final(self)@ == old(self)@,
    {
        let id = post.id;
        proof {
            post.lemma_with_id(id);
        }
        self.posts.replace(id, post)
    }

    /// Removes the post with id `id`.
    pub fn delete_post(&mut self, id: u64) -> (r: Result<(), ServiceError>)
        requires
            old(self).wf(),
        ensures
            final(self).wf(),
            contains_id(old(self)@, id) ==> r == Ok::<(), ServiceError>(())
                && final(self)@ == old(self)@.remove(index_of(old(self)@, id)),
            !contains_id(old(self)@, id) ==> r == Err::<(), ServiceError>(ServiceError::NotFound)
                && final(self)@ == old(self)@,
    {
        self.posts.delete(id)
    }
}

impl MyUserService {
    /// Ids are unique.
    pub open spec fn wf(&self) -> bool {
        unique_ids(self@)
    }

    /// The service with no users.
    pub fn new() -> (r: MyUserService)
        ensures
            r.wf(),
            r@ == Seq::<User>::empty(),
    {
        MyUserService { users: Store::new() }
    }

    /// The users whose id is in `ids`, in order; every user where `ids` is empty.
    pub fn list_users(&self, ids: &Vec<u64>) -> (r: Vec<User>)
        ensures
            ids@.len() == 0 ==> r@ == self@,
            ids@.len() > 0 ==> r@ == self@.filter(|u: User| ids@.contains(u.id)),
    {
        if ids.len() == 0 {
            self.users.list()
        } else {
            let r = self.users.select_ids(ids);
            assert((|t: User| ids@.contains(t.spec_id())) =~= (|u: User| ids@.contains(u.id)));
            r
        }
    }

    /// The user with id `id`.
    pub fn get_user(&self, id: u64) -> (r: Result<User, ServiceError>)
        requires
            self.wf(),
        ensures
            contains_id(self@, id) ==> r == Ok::<User, ServiceError>(self@[index_of(self@, id)]),
            !contains_id(self@, id) ==> r == Err::<User, ServiceError>(ServiceError::NotFound),
    {
        self.users.get(id)
    }

    /// Whether `create_user` can assign an id.
    pub fn can_create(&self) -> (r: bool)
        ensures
            r == (max_id(self@) < u64::MAX),
    {
        self.users.can_create()
    }

    /// Stores `user` under the next id and returns it.
    pub fn create_user(&mut self, user: User) -> (r: User)
        requires
            old(self).wf(),
            max_id(old(self)@) < u64::MAX,
        ensures
            final(self).wf(),
            r == (User { id: next_id(old(self)@) as u64, ..user }),
            final(self)@ == old(self)@.push(r),
            max_id(final(self)@) == max_id(old(self)@) + 1,
    {
        self.users.create(user)
    }

    /// Merges `user` onto the user with id `id` (see `merged_user`) and
    /// returns the result. Without a `user` the call is refused.
    pub fn patch_user(&mut self, id: u64, user: Option<User>) -> (r: Result<User, ServiceError>)
        requires
            old(self).wf(),
        ensures
            final(self).wf(),
            user is None ==> r == Err::<User, ServiceError>(ServiceError::InvalidArgument)
                && final(self)@ == old(self)@,
            user is Some && contains_id(old(self)@, id) ==> {
                let m = merged_user(old(self)@[index_of(old(self)@, id)], user->Some_0);
                r == Ok::<User, ServiceError>(m) && final(self)@ == old(self)@.update(
                    index_of(old(self)@, id),
                    m,
                )
            },
            user is Some && !contains_id(old(self)@, id) ==> r == Err::<User, ServiceError>(
                ServiceError::NotFound,
            ) && final(self)@ == old(self)@,
    {
        let p = match user {
            Some(p) => p,
            None => {
                return Err(ServiceError::InvalidArgument);
            },
        };
        match self.users.get(id) {
            Ok(cur) => {
                let m = merge_user(cur, p);
                proof {
                    m.lemma_with_id(id);
                }
                self.users.replace(id, m)
            },
            Err(e) => Err(e),
        }
    }

    /// Removes the user with id `id`.
    pub fn delete_user(&mut self, id: u64) -> (r: Result<(), ServiceError>)
        requires
            old(self).wf(),
        ensures
            final(self).wf(),
            contains_id(old(self)@, id) ==> r == Ok::<(), ServiceError>(())
                && final(self)@ == old(self)@.remove(index_of(old(self)@, id)),
            !contains_id(old(self)@, id) ==> r == Err::<(), ServiceError>(ServiceError::NotFound)
                && final(self)@ == old(self)@,
    {
        self.users.delete(id)
    }
}

impl CompositeService {
    pub open spec fn wf(&self) -> bool {
        &&& self.news_service.wf()
        &&& self.post_service.wf()
        &&& self.user_service.wf()
    }

    /// The seeded news service beside empty post and user services.
    pub fn new() -> (r: CompositeService)
        ensures
            r.wf(),
            r.news_service@.len() == 5,
            news_is(r.news_service@[0], 1, "Note 1"@, "Content 1"@, "Post image 1"@, 0),
            news_is(r.news_service@[1], 2, "Note 2"@, "Content 2"@, "Post image 2"@, 1),
            news_is(r.news_service@[2], 3, "Note 3"@, "Content 3"@, "Post image 3"@, 1),
            news_is(r.news_service@[3], 4, "Note 4"@, "Content 4"@, "Post image 4"@, 1),
            news_is(r.news_service@[4], 5, "Note 5"@, "Content 5"@, "Post image 5"@, 1),
            r.post_service@ == Seq::<Post>::empty(),
            r.user_service@ == Seq::<User>::empty(),
    {
        CompositeService {
            news_service: MyNewsService::new(),
            post_service: MyPostService::new(),
            user_service: MyUserService::new(),
        }
    }
}

} // verus!
