use vstd::prelude::*;

verus! {

/// A record that lives in a `Store`, identified by an integer id that the
/// store assigns.
pub trait Entity: Sized {
    /// The record's id.
    spec fn spec_id(&self) -> u64;

    /// The record with its id set to `id` and every other field kept.
    spec fn spec_with_id(self, id: u64) -> Self;

    proof fn lemma_with_id(self, id: u64)
        ensures
            self.spec_with_id(id).spec_id() == id,
            self.spec_id() == id ==> self.spec_with_id(id) == self,
    ;

    fn id(&self) -> (r: u64)
        ensures
            r == self.spec_id(),
    ;

    fn with_id(self, id: u64) -> (r: Self)
        ensures
            r == self.spec_with_id(id),
    ;

    fn duplicate(&self) -> (r: Self)
        ensures
            r == *self,
    ;
}

/// A news item.
#[derive(Clone, Debug, PartialEq, Eq)]
pub struct News {
    pub id: u64,
    pub title: String,
    pub body: String,
    pub post_image: String,
    pub status: i32,
}

/// A post, written by the user `user_id` (not checked against the users).
#[derive(Clone, Debug, PartialEq, Eq)]
pub struct Post {
    pub id: u64,
    pub user_id: u64,
    pub title: String,
    pub body: String,
}

/// A geographic position, as text.
#[derive(Clone, Debug, PartialEq, Eq)]
pub struct Geo {
    pub lat: String,
    pub lng: String,
}

/// A postal address, with an optional position.
#[derive(Clone, Debug, PartialEq, Eq)]
pub struct Address {
    pub street: String,
    pub suite: String,
    pub city: String,
    pub zipcode: String,
    pub geo: Option<Geo>,
}

/// The company a user works for.
#[derive(Clone, Debug, PartialEq, Eq)]
pub struct Company {
    pub name: String,
    pub catch_phrase: String,
    pub bs: String,
}

/// A user, with an optional address and company.
#[derive(Clone, Debug, PartialEq, Eq)]
pub struct User {
    pub id: u64,
    pub name: String,
    pub username: String,
    pub email: String,
    pub phone: String,
    pub website: String,
    pub address: Option<Address>,
    pub company: Option<Company>,
}

impl Geo {
    pub fn duplicate(&self) -> (r: Geo)
        ensures
            r == *self,
    {
        Geo { lat: self.lat.clone(), lng: self.lng.clone() }
    }
}

impl Address {
    pub fn duplicate(&self) -> (r: Address)
        ensures
            r == *self,
    {
        let geo = match &self.geo {
            Some(g) => Some(g.duplicate()),
            None => None,
        };
        Address {
            street: self.street.clone(),
            suite: self.suite.clone(),
            city: self.city.clone(),
            zipcode: self.zipcode.clone(),
            geo,
        }
    }
}

impl Company {
    pub fn duplicate(&self) -> (r: Company)
        ensures
            r == *self,
    {
        Company {
            name: self.name.clone(),
            catch_phrase: self.catch_phrase.clone(),
            bs: self.bs.clone(),
        }
    }
}

impl Entity for News {
    open spec fn spec_id(&self) -> u64 {
        self.id
    }

    open spec fn spec_with_id(self, id: u64) -> News {
        News { id, ..self }
    }

    proof fn lemma_with_id(self, id: u64) {
    }

    fn id(&self) -> (r: u64) {
        self.id
    }

    fn with_id(self, id: u64) -> (r: News) {
        News { id, ..self }
    }

    fn duplicate(&self) -> (r: News) {
        News {
            id: self.id,
            title: self.title.clone(),
            body: self.body.clone(),
            post_image: self.post_image.clone(),
            status: self.status,
        }
    }
}

impl Entity for Post {
    open spec fn spec_id(&self) -> u64 {
        self.id
    }

    open spec fn spec_with_id(self, id: u64) -> Post {
        Post { id, ..self }
    }

    proof fn lemma_with_id(self, id: u64) {
    }

    fn id(&self) -> (r: u64) {
        self.id
    }

    fn with_id(self, id: u64) -> (r: Post) {
        Post { id, ..self }
    }

    fn duplicate(&self) -> (r: Post) {
        Post {
            id: self.id,
            user_id: self.user_id,
            title: self.title.clone(),
            body: self.body.clone(),
        }
    }
}

impl Entity for User {
    open spec fn spec_id(&self) -> u64 {
        self.id
    }

    open spec fn spec_with_id(self, id: u64) -> User {
        User { id, ..self }
    }

    proof fn lemma_with_id(self, id: u64) {
    }

    fn id(&self) -> (r: u64) {
        self.id
    }

    fn with_id(self, id: u64) -> (r: User) {
        User { id, ..self }
    }

    fn duplicate(&self) -> (r: User) {
        let address = match &self.address {
            Some(a) => Some(a.duplicate()),
            None => None,
        };
        let company = match &self.company {
            Some(c) => Some(c.duplicate()),
            None => None,
        };
        User {
            id: self.id,
            name: self.name.clone(),
            username: self.username.clone(),
            email: self.email.clone(),
            phone: self.phone.clone(),
            website: self.website.clone(),
            address,
            company,
        }
    }
}

} // verus!
