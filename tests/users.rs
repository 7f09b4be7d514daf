use rust_grpc::entity::{Address, Company, Geo, User};
use rust_grpc::error::ServiceError;
use rust_grpc::merge::{merge_text, merge_user};
use rust_grpc::service::MyUserService;

fn s(x: &str) -> String {
    x.to_string()
}

fn user(name: &str) -> User {
    User {
        id: 0,
        name: s(name),
        username: s(""),
        email: s(""),
        phone: s(""),
        website: s(""),
        address: None,
        company: None,
    }
}

fn empty_patch() -> User {
    user("")
}

fn address(street: &str, city: &str, geo: Option<Geo>) -> Address {
    Address { street: s(street), suite: s(""), city: s(city), zipcode: s(""), geo }
}

fn geo(lat: &str, lng: &str) -> Geo {
    Geo { lat: s(lat), lng: s(lng) }
}

#[test]
fn create_then_list_keeps_order() {
    let mut svc = MyUserService::new();
    let a = svc.create_user(user("A"));
    assert_eq!(a.id, 1);
    let b = svc.create_user(user("B"));
    assert_eq!(b.id, 2);
    assert_eq!(b.name, "B");
    let all = svc.list_users(&vec![]);
    assert_eq!(all.len(), 2);
    assert_eq!(all[0].id, 1);
    assert_eq!(all[0].name, "A");
    assert_eq!(all[1].id, 2);
    assert_eq!(all[1].name, "B");
}

#[test]
fn create_ignores_the_given_id() {
    let mut svc = MyUserService::new();
    let mut u = user("A");
    u.id = 77;
    assert_eq!(svc.create_user(u).id, 1);
}

#[test]
fn list_users_filters_by_ids() {
    let mut svc = MyUserService::new();
    svc.create_user(user("A"));
    svc.create_user(user("B"));
    svc.create_user(user("C"));
    let some = svc.list_users(&vec![3, 1, 9]);
    assert_eq!(some.len(), 2);
    assert_eq!(some[0].name, "A");
    assert_eq!(some[1].name, "C");
    assert!(svc.list_users(&vec![9]).is_empty());
}

#[test]
fn patch_nested_geo_lat_only() {
    let mut svc = MyUserService::new();
    let mut u = user("A");
    u.address = Some(address("X", "", Some(geo("1", "2"))));
    svc.create_user(u);
    let mut p = empty_patch();
    p.address = Some(address("", "", Some(geo("10", ""))));
    let r = svc.patch_user(1, Some(p)).unwrap();
    let a = r.address.unwrap();
    assert_eq!(a.street, "X");
    assert_eq!(a.geo, Some(geo("10", "2")));
    assert_eq!(svc.get_user(1).unwrap().address.unwrap().geo, Some(geo("10", "2")));
}

#[test]
fn patch_empty_is_noop() {
    let mut svc = MyUserService::new();
    let mut u = user("A");
    u.email = s("a@x");
    u.address = Some(address("X", "Y", Some(geo("1", "2"))));
    u.company = Some(Company { name: s("C"), catch_phrase: s("cp"), bs: s("bs") });
    let before = svc.create_user(u);
    let after = svc.patch_user(1, Some(empty_patch())).unwrap();
    assert_eq!(before, after);
    assert_eq!(svc.get_user(1).unwrap(), before);
}

#[test]
fn patch_city_only_keeps_the_rest() {
    let mut svc = MyUserService::new();
    let mut u = user("A");
    u.address = Some(Address {
        street: s("S"),
        suite: s("Apt 1"),
        city: s("Old"),
        zipcode: s("123"),
        geo: Some(geo("1", "2")),
    });
    svc.create_user(u);
    let mut p = empty_patch();
    p.address = Some(address("", "New", None));
    let r = svc.patch_user(1, Some(p)).unwrap();
    assert_eq!(
        r.address,
        Some(Address {
            street: s("S"),
            suite: s("Apt 1"),
            city: s("New"),
            zipcode: s("123"),
            geo: Some(geo("1", "2")),
        })
    );
    assert_eq!(r.name, "A");
}

#[test]
fn patch_adopts_address_when_none() {
    let mut svc = MyUserService::new();
    svc.create_user(user("A"));
    let mut p = empty_patch();
    let given = address("", "Town", Some(geo("5", "")));
    p.address = Some(given.clone());
    let r = svc.patch_user(1, Some(p)).unwrap();
    assert_eq!(r.address, Some(given));
}

#[test]
fn patch_company_merges_fields() {
    let mut svc = MyUserService::new();
    let mut u = user("A");
    u.company = Some(Company { name: s("Old"), catch_phrase: s("cp"), bs: s("bs") });
    svc.create_user(u);
    let mut p = empty_patch();
    p.company = Some(Company { name: s(""), catch_phrase: s(""), bs: s("new bs") });
    p.phone = s("555");
    let r = svc.patch_user(1, Some(p)).unwrap();
    assert_eq!(r.company, Some(Company { name: s("Old"), catch_phrase: s("cp"), bs: s("new bs") }));
    assert_eq!(r.phone, "555");
    assert_eq!(r.name, "A");
}

#[test]
fn patch_missing_user_is_not_found() {
    let mut svc = MyUserService::new();
    svc.create_user(user("A"));
    assert_eq!(svc.patch_user(2, Some(user("Z"))), Err(ServiceError::NotFound));
    assert_eq!(svc.get_user(1).unwrap().name, "A");
}

#[test]
fn patch_without_user_is_invalid_argument() {
    let mut svc = MyUserService::new();
    svc.create_user(user("A"));
    assert_eq!(svc.patch_user(1, None), Err(ServiceError::InvalidArgument));
    assert_eq!(ServiceError::InvalidArgument.status(), "invalid argument");
    assert_eq!(ServiceError::NotFound.status(), "not found");
}

#[test]
fn delete_then_get_is_not_found() {
    let mut svc = MyUserService::new();
    svc.create_user(user("A"));
    svc.create_user(user("B"));
    assert_eq!(svc.delete_user(1), Ok(()));
    assert_eq!(svc.get_user(1), Err(ServiceError::NotFound));
    assert_eq!(svc.delete_user(1), Err(ServiceError::NotFound));
    assert_eq!(svc.list_users(&vec![]).len(), 1);
}

#[test]
fn deleting_the_largest_id_reissues_it() {
    let mut svc = MyUserService::new();
    svc.create_user(user("A"));
    svc.create_user(user("B"));
    svc.delete_user(2).unwrap();
    assert_eq!(svc.create_user(user("C")).id, 2);
}

#[test]
fn merge_helpers() {
    assert_eq!(merge_text(s("old"), s("")), "old");
    assert_eq!(merge_text(s("old"), s("new")), "new");
    let mut cur = user("A");
    cur.id = 4;
    let mut p = user("B");
    p.id = 9;
    let m = merge_user(cur, p);
    assert_eq!(m.id, 4);
    assert_eq!(m.name, "B");
}
