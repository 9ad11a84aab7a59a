//! Codec for the two metadata bags carried through the generic envelope: the
//! merchant's account coordinates and the correlation data of a transaction.
use vstd::prelude::*;
use vstd::string::StringExecFns;

use crate::forte::ConnectorMetadata;
use crate::transformers::PaymentMetadata;
use crate::types::{ConnectorError, MetadataBag};

verus! {

/// The value of the first member named `key`, if any.
pub open spec fn lookup(entries: Seq<(Seq<char>, Seq<char>)>, key: Seq<char>) -> Option<Seq<char>>
    decreases entries.len(),
{
    if entries.len() == 0 {
        None
    } else if entries[0].0 == key {
        Some(entries[0].1)
    } else {
        lookup(entries.drop_first(), key)
    }
}

/// The account coordinates `(org_id, location_id)` that a raw bag holds.
pub open spec fn account_of(raw: Option<MetadataBag>) -> Option<(Seq<char>, Seq<char>)> {
    match raw {
        None => None,
        Some(bag) => match (lookup(bag@, "org_id"@), lookup(bag@, "location_id"@)) {
            (Some(org), Some(loc)) => Some((org, loc)),
            _ => None,
        },
    }
}

/// The authorization code that a raw correlation bag holds.
pub open spec fn transaction_code_of(raw: Option<MetadataBag>) -> Option<Seq<char>> {
    match raw {
        None => None,
        Some(bag) => lookup(bag@, "authorization_code"@),
    }
}

/// The bag that records an authorization code for later operations.
pub open spec fn encoded_transaction(code: Seq<char>) -> Seq<(Seq<char>, Seq<char>)> {
    seq![("authorization_code"@, code)]
}

/// Looks up the member named `key` in `bag`.
pub fn find_member(bag: &MetadataBag, key: &String) -> (r: Option<String>)
    ensures
        match r {
            Some(v) => lookup(bag@, key@) == Some(v@),
            None => lookup(bag@, key@) is None,
        },
{
    let n = bag.entries.len();
    let mut i: usize = 0;
    assert(bag@.subrange(0, n as int) =~= bag@);
    while i < n
        invariant
            n == bag.entries@.len(),
            bag@.len() == n,
            i <= n,
            lookup(bag@, key@) == lookup(bag@.subrange(i as int, n as int), key@),
        decreases n - i,
    {
        let ghost rest = bag@.subrange(i as int, n as int);
        assert(rest[0] == bag@[i as int]);
        if bag.entries[i].0 == *key {
            return Some(bag.entries[i].1.clone());
        }
        assert(rest.drop_first() =~= bag@.subrange(i + 1, n as int));
        i = i + 1;
    }
    None
}

/// Reads the merchant's account coordinates. An absent bag, or one without a
/// string `org_id` and `location_id`, cannot be used to build any request.
pub fn decode_account(raw: &Option<MetadataBag>) -> (r: Result<ConnectorMetadata, ConnectorError>)
    ensures
        match account_of(*raw) {
            Some((org, loc)) => r matches Ok(m) && m.org_id@ == org && m.location_id@ == loc,
            None => r == Err::<ConnectorMetadata, ConnectorError>(ConnectorError::RequestEncodingFailed),
        },
{
    match raw {
        None => Err(ConnectorError::RequestEncodingFailed),
        Some(bag) => {
            let org = find_member(bag, &String::from_str("org_id"));
            let loc = find_member(bag, &String::from_str("location_id"));
            match (org, loc) {
                (Some(org_id), Some(location_id)) => Ok(ConnectorMetadata { org_id, location_id }),
                _ => Err(ConnectorError::RequestEncodingFailed),
            }
        },
    }
}

/// Reads the correlation data recorded by an earlier response. Without it no
/// capture, void or refund can be built.
pub fn decode_transaction(raw: &Option<MetadataBag>) -> (r: Result<PaymentMetadata, ConnectorError>)
    ensures
        match transaction_code_of(*raw) {
            Some(code) => r matches Ok(m) && m.authorization_code@ == code,
            None => r == Err::<PaymentMetadata, ConnectorError>(ConnectorError::RequestEncodingFailed),
        },
{
    match raw {
        None => Err(ConnectorError::RequestEncodingFailed),
        Some(bag) => match find_member(bag, &String::from_str("authorization_code")) {
            Some(authorization_code) => Ok(PaymentMetadata { authorization_code }),
            None => Err(ConnectorError::RequestEncodingFailed),
        },
    }
}

/// Records an authorization code as correlation data.
pub fn encode_transaction(m: PaymentMetadata) -> (r: MetadataBag)
    ensures
        r@ == encoded_transaction(m.authorization_code@),
{
    let mut entries: Vec<(String, String)> = Vec::new();
    entries.push((String::from_str("authorization_code"), m.authorization_code));
    let r = MetadataBag { entries };
    assert(r@ =~= encoded_transaction(m.authorization_code@));
    r
}

/// Decoding the correlation data that a response recorded gives back the
/// authorization code that was recorded.
pub proof fn lemma_transaction_round_trip(code: Seq<char>)
    ensures
        lookup(encoded_transaction(code), "authorization_code"@) == Some(code),
{
}

} // verus!
