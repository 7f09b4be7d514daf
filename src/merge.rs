use vstd::prelude::*;

use crate::entity::{Address, Company, Geo, User};

verus! {

// A patch is a sparse record: an empty text field leaves the current value
// unchanged, a non-empty one overwrites it. An empty string can therefore not
// be set through a patch. An absent nested record leaves the current one
// unchanged; a present one is adopted as it is where there is none yet, and
// merged field by field otherwise.

pub open spec fn merged_text(cur: String, p: String) -> String {
    if p@.len() == 0 {
        cur
    } else {
        p
    }
}

pub open spec fn merged_geo(cur: Geo, p: Geo) -> Geo {
    Geo { lat: merged_text(cur.lat, p.lat), lng: merged_text(cur.lng, p.lng) }
}

pub open spec fn merged_opt_geo(cur: Option<Geo>, p: Option<Geo>) -> Option<Geo> {
    match p {
        None => cur,
        Some(pg) => match cur {
            None => Some(pg),
            Some(cg) => Some(merged_geo(cg, pg)),
        },
    }
}

pub open spec fn merged_address(cur: Address, p: Address) -> Address {
    Address {
        street: merged_text(cur.street, p.street),
        suite: merged_text(cur.suite, p.suite),
        city: merged_text(cur.city, p.city),
        zipcode: merged_text(cur.zipcode, p.zipcode),
        geo: merged_opt_geo(cur.geo, p.geo),
    }
}

pub open spec fn merged_opt_address(cur: Option<Address>, p: Option<Address>) -> Option<Address> {
    match p {
        None => cur,
        Some(pa) => match cur {
            None => Some(pa),
            Some(ca) => Some(merged_address(ca, pa)),
        },
    }
}

pub open spec fn merged_company(cur: Company, p: Company) -> Company {
    Company {
        name: merged_text(cur.name, p.name),
        catch_phrase: merged_text(cur.catch_phrase, p.catch_phrase),
        bs: merged_text(cur.bs, p.bs),
    }
}

pub open spec fn merged_opt_company(cur: Option<Company>, p: Option<Company>) -> Option<Company> {
    match p {
        None => cur,
        Some(pc) => match cur {
            None => Some(pc),
            Some(cc) => Some(merged_company(cc, pc)),
        },
    }
}

/// `cur` with `p` merged onto it; the id is that of `cur`.
pub open spec fn merged_user(cur: User, p: User) -> User {
    User {
        id: cur.id,
        name: merged_text(cur.name, p.name),
        username: merged_text(cur.username, p.username),
        email: merged_text(cur.email, p.email),
        phone: merged_text(cur.phone, p.phone),
        website: merged_text(cur.website, p.website),
        address: merged_opt_address(cur.address, p.address),
        company: merged_opt_company(cur.company, p.company),
    }
}

/// `p` where it is not empty, else `cur`.
pub fn merge_text(cur: String, p: String) -> (r: String)
    ensures
        r == merged_text(cur, p),
{
    if p.as_str().is_empty() {
        cur
    } else {
        p
    }
}

pub fn merge_geo(cur: Option<Geo>, p: Option<Geo>) -> (r: Option<Geo>)
    ensures
        r == merged_opt_geo(cur, p),
{
    match p {
        None => cur,
        Some(pg) => match cur {
            None => Some(pg),
            Some(cg) => Some(Geo { lat: merge_text(cg.lat, pg.lat), lng: merge_text(cg.lng, pg.lng) }),
        },
    }
}

pub fn merge_address(cur: Option<Address>, p: Option<Address>) -> (r: Option<Address>)
    ensures
        r == merged_opt_address(cur, p),
{
    match p {
        None => cur,
        Some(pa) => match cur {
            None => Some(pa),
            Some(ca) => Some(
                Address {
                    street: merge_text(ca.street, pa.street),
                    suite: merge_text(ca.suite, pa.suite),
                    city: merge_text(ca.city, pa.city),
                    zipcode: merge_text(ca.zipcode, pa.zipcode),
                    geo: merge_geo(ca.geo, pa.geo),
                },
            ),
        },
    }
}

pub fn merge_company(cur: Option<Company>, p: Option<Company>) -> (r: Option<Company>)
    ensures
        r == merged_opt_company(cur, p),
{
    match p {
        None => cur,
        Some(pc) => match cur {
            None => Some(pc),
            Some(cc) => Some(
                Company {
                    name: merge_text(cc.name, pc.name),
                    catch_phrase: merge_text(cc.catch_phrase, pc.catch_phrase),
                    bs: merge_text(cc.bs, pc.bs),
                },
            ),
        },
    }
}

/// Merges the patch `p` onto `cur`: see `merged_user`.
pub fn merge_user(cur: User, p: User) -> (r: User)
    ensures
        r == merged_user(cur, p),
{
    User {
        id: cur.id,
        name: merge_text(cur.name, p.name),
        username: merge_text(cur.username, p.username),
        email: merge_text(cur.email, p.email),
        phone: merge_text(cur.phone, p.phone),
        website: merge_text(cur.website, p.website),
        address: merge_address(cur.address, p.address),
        company: merge_company(cur.company, p.company),
    }
}

/// Every text field of the patch is empty and it carries no nested record.
pub open spec fn is_empty_patch(p: User) -> bool {
    &&& p.name@.len() == 0
    &&& p.username@.len() == 0
    &&& p.email@.len() == 0
    &&& p.phone@.len() == 0
    &&& p.website@.len() == 0
    &&& p.address is None
    &&& p.company is None
}

/// A patch that sets nothing leaves the user as it was.
pub proof fn lemma_empty_patch_is_noop(cur: User, p: User)
    requires
        is_empty_patch(p),
    ensures
        merged_user(cur, p) == cur,
{
}

/// A patch that sets only the city of an existing address changes the city
/// and nothing else: the other address fields and the position stay.
pub proof fn lemma_patch_city_only(cur: User, p: User)
    requires
        cur.address is Some,
        cur.address->Some_0.geo is Some,
        p.name@.len() == 0,
        p.username@.len() == 0,
        p.email@.len() == 0,
        p.phone@.len() == 0,
        p.website@.len() == 0,
        p.company is None,
        p.address is Some,
        p.address->Some_0.street@.len() == 0,
        p.address->Some_0.suite@.len() == 0,
        p.address->Some_0.zipcode@.len() == 0,
        p.address->Some_0.city@.len() > 0,
        p.address->Some_0.geo is None,
    ensures
        merged_user(cur, p) == (User {
            address: Some(Address { city: p.address->Some_0.city, ..cur.address->Some_0 }),
            ..cur
        }),
        merged_user(cur, p).address->Some_0.geo == cur.address->Some_0.geo,
{
}

/// A patch that brings an address to a user without one gives the user that
/// address as it is, position included.
pub proof fn lemma_patch_adopts_new_address(cur: User, p: User)
    requires
        cur.address is None,
        p.address is Some,
    ensures
        merged_user(cur, p).address == p.address,
{
}

} // verus!
