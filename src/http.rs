use crate::ids::{get_uuid_from_string, uuid_value};
use crate::models::clone_text;
use vstd::prelude::*;

verus! {

/// Query parameters of a listing.
pub struct QueryParams {
    pub search: Option<String>,
    pub limit: Option<i64>,
    pub page: Option<i64>,
    pub per_page: Option<i64>,
}

/// The identifier in a request path, as text.
pub struct IdPathParam {
    pub id: String,
}

impl IdPathParam {
    /// The identifier, where the text is a UUID.
    pub fn get_uuid(&mut self) -> (r: Option<u128>)
        ensures
            *final(self) == *old(self),
            r == uuid_value(old(self).id@),
    {
        get_uuid_from_string(self.id.as_str())
    }
}

impl QueryParams {
    /// The search text asked for; empty when none is given.
    pub open spec fn search_text(&self) -> Seq<char> {
        match self.search {
            Some(q) => q@,
            None => Seq::empty(),
        }
    }

    /// The page asked for; 1 when none is given.
    pub open spec fn page_number(&self) -> int {
        match self.page {
            Some(p) => p as int,
            None => 1,
        }
    }

    /// The page size asked for; 10 when none is given.
    pub open spec fn page_size(&self) -> int {
        match self.per_page {
            Some(n) => n as int,
            None => 10,
        }
    }

    /// The search text; empty when none is given.
    pub fn get_search_query(&mut self) -> (r: String)
        ensures
            *final(self) == *old(self),
            r@ == old(self).search_text(),
    {
        match clone_text(&self.search) {
            None => String::new(),
            Some(q) => q,
        }
    }

    /// The limit; 10 when none is given.
    pub fn get_limit(&mut self) -> (r: i64)
        ensures
            *final(self) == *old(self),
            r == match old(self).limit {
                Some(l) => l,
                None => 10,
            },
    {
        match self.limit {
            None => 10,
            Some(l) => l,
        }
    }

    /// The page, counted from 1; 1 when none is given.
    pub fn get_page(&mut self) -> (r: i64)
        ensures
            *final(self) == *old(self),
            r == old(self).page_number(),
    {
        match self.page {
            None => 1,
            Some(p) => p,
        }
    }

    /// The number of records on a page; 10 when none is given.
    pub fn get_per_page(&mut self) -> (r: i64)
        ensures
            *final(self) == *old(self),
            r == old(self).page_size(),
    {
        match self.per_page {
            None => 10,
            Some(n) => n,
        }
    }
}

/// A message body.
pub struct JsonSuccessMessageResponse {
    pub message: String,
}

impl JsonSuccessMessageResponse {
    pub fn new(message: &str) -> (r: JsonSuccessMessageResponse)
        ensures
            r.message@ == message@,
    {
        JsonSuccessMessageResponse { message: message.to_string() }
    }
}

} // verus!
