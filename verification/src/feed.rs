//! The feed: the list and the details answered for stored feed entries.

use vstd::prelude::*;
use vstd::string::*;
use crate::error::{api_error_code, api_error_description, create_error, ApiError, ErrorResponse};

verus! {

/// A button of a feed entry: its kind and link.
#[derive(Debug)]
pub struct FeedButton {
    pub button_type: String,
    pub url: String,
}

/// A feed entry as stored; `id` is the key of its record.
#[derive(Debug)]
pub struct DbFeed {
    pub id: String,
    pub title: String,
    pub text: String,
    pub image: String,
    pub buttons: Vec<FeedButton>,
}

/// A feed entry as listed.
#[derive(Debug)]
pub struct FeedItem {
    pub id: String,
    pub title: String,
    pub text: String,
    pub image: String,
    pub buttons: Vec<FeedButton>,
}

/// A feed entry in full.
#[derive(Debug)]
pub struct FeedDetails {
    pub title: String,
    pub text: String,
    pub image: String,
    pub buttons: Vec<FeedButton>,
}

/// The feed.
#[derive(Debug)]
pub struct GetAllFeed {
    pub feed: Vec<FeedItem>,
}

/// How many entries a feed holds when the caller does not say.
pub fn get_default_feed_count() -> (count: i32)
    ensures
        count == 20,
{
    20
}

/// Whether two button lists are equal, button by button.
pub open spec fn same_feed_buttons(a: Seq<FeedButton>, b: Seq<FeedButton>) -> bool {
    &&& a.len() == b.len()
    &&& forall|i: int|
        0 <= i < b.len() ==> #[trigger] a[i].button_type == b[i].button_type && a[i].url == b[i].url
}

/// A copy of a button list.
pub fn copy_feed_buttons(buttons: &Vec<FeedButton>) -> (copy: Vec<FeedButton>)
    ensures
        same_feed_buttons(copy@, buttons@),
        copy@.len() == buttons@.len(),
        forall|i: int|
            0 <= i < buttons@.len() ==> #[trigger] copy@[i].button_type == buttons@[i].button_type
                && copy@[i].url == buttons@[i].url,
{
    let mut copy: Vec<FeedButton> = Vec::new();
    let mut i: usize = 0;
    while i < buttons.len()
        invariant
            i <= buttons@.len(),
            copy@.len() == i,
            forall|j: int|
                0 <= j < i ==> #[trigger] copy@[j].button_type == buttons@[j].button_type
                    && copy@[j].url == buttons@[j].url,
        decreases buttons@.len() - i,
    {
        let button = &buttons[i];
        copy.push(FeedButton { button_type: button.button_type.clone(), url: button.url.clone() });
        i = i + 1;
    }
    copy
}

/// Whether `item` lists `entry` field by field.
pub open spec fn lists_feed(item: FeedItem, entry: DbFeed) -> bool {
    &&& item.id == entry.id
    &&& item.title == entry.title
    &&& item.text == entry.text
    &&& item.image == entry.image
    &&& same_feed_buttons(item.buttons@, entry.buttons@)
}

/// The feed answered for stored entries, in order.
pub fn to_feed(entries: &Vec<DbFeed>) -> (feed: GetAllFeed)
    ensures
        feed.feed@.len() == entries@.len(),
        forall|i: int| 0 <= i < entries@.len() ==> lists_feed(#[trigger] feed.feed@[i], entries@[i]),
{
    let mut data: Vec<FeedItem> = Vec::new();
    let mut i: usize = 0;
    while i < entries.len()
        invariant
            i <= entries@.len(),
            data@.len() == i,
            forall|j: int| 0 <= j < i ==> lists_feed(#[trigger] data@[j], entries@[j]),
        decreases entries@.len() - i,
    {
        let entry = &entries[i];
        data.push(
            FeedItem {
                id: entry.id.clone(),
                title: entry.title.clone(),
                text: entry.text.clone(),
                image: entry.image.clone(),
                buttons: copy_feed_buttons(&entry.buttons),
            },
        );
        i = i + 1;
    }
    GetAllFeed { feed: data }
}

/// A listed feed entry carries every stored button, one for one and in order.
pub proof fn lemma_listed_feed_keeps_buttons(item: FeedItem, entry: DbFeed, i: int)
    requires
        lists_feed(item, entry),
        0 <= i < entry.buttons@.len(),
    ensures
        item.buttons@.len() == entry.buttons@.len(),
        item.buttons@[i].button_type == entry.buttons@[i].button_type,
        item.buttons@[i].url == entry.buttons@[i].url,
{
}

/// The details of a feed entry, or the general error answer when there is none.
pub fn feed_details(entry: &Option<DbFeed>) -> (res: Result<FeedDetails, ErrorResponse>)
    ensures
        match *entry {
            None => res matches Err(e) && e.code@ == api_error_code(ApiError::GeneralError)
                && e.description@ == api_error_description(ApiError::GeneralError),
            Some(f) => res matches Ok(d) && d.title == f.title && d.text == f.text && d.image
                == f.image && same_feed_buttons(d.buttons@, f.buttons@),
        },
{
    match entry {
        None => Err(create_error(ApiError::GeneralError)),
        Some(f) => Ok(
            FeedDetails {
                title: f.title.clone(),
                text: f.text.clone(),
                image: f.image.clone(),
                buttons: copy_feed_buttons(&f.buttons),
            },
        ),
    }
}

} // verus!
