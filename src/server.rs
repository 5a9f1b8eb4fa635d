use vstd::prelude::*;

use crate::common::push_text;
use crate::preview::{decimal, push_decimal};

verus! {

/// A request to run a query.
#[derive(Debug)]
pub struct QueryReq {
    /// The query to execute.
    pub query: String,
}

/// Filters of a listing of users.
#[derive(Debug)]
pub struct QueryParams {
    /// Where clause. Example: `name = 'Foo'`.
    pub condition: Option<String>,
    /// Limit the number of results. By default, some small number.
    pub limit: Option<u32>,
}

/// The number of rows a listing returns when no limit is given.
pub const DEFAULT_LIMIT: u32 = 5;

/// The where clause added for a condition, if any.
pub open spec fn where_part(condition: Option<String>) -> Seq<char> {
    match condition {
        Some(c) => " where "@ + c@,
        None => seq![],
    }
}

/// The limit a listing uses.
pub open spec fn limit_of(limit: Option<u32>) -> u32 {
    match limit {
        Some(n) => n,
        None => DEFAULT_LIMIT,
    }
}

impl QueryParams {
    /// The query with the where clause, if a condition is given, and the
    /// limit appended.
    pub fn adjust_query(self, query: &str) -> (r: String)
        ensures
            r@ == query@ + where_part(self.condition) + " limit "@ + decimal(
                limit_of(self.limit) as nat,
            ),
    {
        let mut r = String::new();
        push_text(&mut r, query);
        if let Some(cond) = &self.condition {
            push_text(&mut r, " where ");
            push_text(&mut r, cond.as_str());
        }
        let limit = match self.limit {
            Some(n) => n,
            None => DEFAULT_LIMIT,
        };
        push_text(&mut r, " limit ");
        push_decimal(&mut r, limit as u64);
        proof {
            let w = where_part(self.condition);
            assert(r@ =~= query@ + w + " limit "@ + decimal(limit as nat));
        }
        r
    }
}

/// Request content to add a user.
#[derive(Debug)]
pub struct UserPostReq {
    /// Email of the user.
    pub email: String,
    /// Name of the user.
    pub name: String,
}

/// A basic status of the service.
#[derive(Debug)]
pub struct HealthStatus {
    pub free_memory: u64,
    pub total_memory: u64,
    pub cpus: usize,
    pub application: String,
    pub version: String,
}

/// The key by which a user is deleted.
#[derive(Debug, PartialEq)]
pub enum DeleteKey<I> {
    Id(I),
    Email(String),
}

/// Picks the key of a deletion: the identifier when given, which takes
/// precedence over the email; else the email; neither is an error.
pub fn delete_key<I>(user_id: Option<I>, email: Option<String>) -> (r: Option<DeleteKey<I>>)
    ensures
        user_id is Some ==> r == Some(DeleteKey::Id(user_id->Some_0)),
        user_id is None && email is Some ==> r == Some(DeleteKey::<I>::Email(email->Some_0)),
        user_id is None && email is None ==> r is None,
{
    match user_id {
        Some(id) => Some(DeleteKey::Id(id)),
        None => match email {
            Some(e) => Some(DeleteKey::Email(e)),
            None => None,
        },
    }
}

} // verus!
