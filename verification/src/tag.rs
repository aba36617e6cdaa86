//! Tags: the tag list and a tag's details for a user.

use vstd::prelude::*;
use vstd::string::*;
use crate::error::{api_error_code, api_error_description, create_error, ApiError, ErrorResponse};

verus! {

/// A tag as stored; `id` is the key of its record.
#[derive(Debug)]
pub struct DbTag {
    pub id: String,
    pub name: String,
    pub section: String,
    pub text: String,
    pub default_status: i32,
}

/// A status the user `user` gave to the tag `tag` (record keys).
#[derive(Debug)]
pub struct DbOwnsTag {
    pub user: String,
    pub tag: String,
    pub status: i32,
}

/// How many users gave a tag a status.
#[derive(Debug)]
pub struct DbTagStatistics {
    pub count: i32,
    pub status: i32,
}

/// A tag as listed.
#[derive(Debug)]
pub struct Tag {
    pub id: String,
    pub name: String,
    pub section: String,
}

/// The tag list.
#[derive(Debug)]
pub struct GetTags {
    pub tags: Vec<Tag>,
}

/// A new status for a tag.
#[derive(Debug)]
pub struct PatchTagRequest {
    pub status: i32,
}

/// How many users hold a tag allowed, forbidden or neutral.
#[derive(Debug)]
pub struct Statistics {
    pub section: String,
    pub allowed: i32,
    pub forbidden: i32,
    pub neutral: i32,
}

/// A tag's details for a user.
#[derive(Debug)]
pub struct GetTag {
    pub stats: Vec<Statistics>,
    pub status: i32,
    pub name: String,
    pub description: String,
}

/// The tag endpoints.
pub struct Api;

/// Whether `tag` lists the stored `from`.
pub open spec fn lists_tag(tag: Tag, from: DbTag) -> bool {
    tag.id == from.id && tag.name == from.name && tag.section == from.section
}

impl Api {
    /// A stored tag as listed.
    pub fn create_tag_response(&self, from: &DbTag) -> (tag: Tag)
        ensures
            lists_tag(tag, *from),
    {
        Tag { id: from.id.clone(), name: from.name.clone(), section: from.section.clone() }
    }

    /// The tag list for stored tags, in order.
    pub fn create_tags_response(&self, tags: &Vec<DbTag>) -> (response: GetTags)
        ensures
            response.tags@.len() == tags@.len(),
            forall|i: int| 0 <= i < tags@.len() ==> lists_tag(#[trigger] response.tags@[i], tags@[i]),
    {
        let mut response_tags: Vec<Tag> = Vec::new();
        let mut i: usize = 0;
        while i < tags.len()
            invariant
                i <= tags@.len(),
                response_tags@.len() == i,
                forall|j: int| 0 <= j < i ==> lists_tag(#[trigger] response_tags@[j], tags@[j]),
            decreases tags@.len() - i,
        {
            response_tags.push(self.create_tag_response(&tags[i]));
            i = i + 1;
        }
        GetTags { tags: response_tags }
    }

    /// The tag list, or the general error answer when the tags could not be read.
    pub fn tags_response(&self, tags: &Option<Vec<DbTag>>) -> (res: Result<GetTags, ErrorResponse>)
        ensures
            match *tags {
                None => res matches Err(e) && e.code@ == api_error_code(ApiError::GeneralError)
                    && e.description@ == api_error_description(ApiError::GeneralError),
                Some(list) => res matches Ok(r) && r.tags@.len() == list@.len() && (forall|i: int|
                    0 <= i < list@.len() ==> lists_tag(#[trigger] r.tags@[i], list@[i])),
            },
    {
        match tags {
            None => Err(create_error(ApiError::GeneralError)),
            Some(list) => Ok(self.create_tags_response(list)),
        }
    }

    /// A tag's details for a user: the status the user gave it, or else its
    /// default; its text as description; no statistics yet.
    pub fn tag_details(&self, tag: DbTag, relation: &Option<DbOwnsTag>) -> (details: GetTag)
        ensures
            details.status == match *relation {
                Some(r) => r.status,
                None => tag.default_status,
            },
            details.name == tag.name,
            details.description == tag.text,
            details.stats@.len() == 0,
    {
        let status = match relation {
            None => tag.default_status,
            Some(r) => r.status,
        };
        GetTag { stats: Vec::new(), status, name: tag.name, description: tag.text }
    }
}

} // verus!
