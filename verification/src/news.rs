//! News: the list and the details answered for stored news.

use vstd::prelude::*;
use vstd::string::*;
use crate::error::{NarodenError, NarodenResult};
use crate::text::{first_chars, take_chars};

verus! {

/// A button of stored news: its kind and link.
#[derive(Debug)]
pub struct DbNewsButton {
    pub button_type: String,
    pub url: String,
}

/// News as stored; `id` is the key of its record.
#[derive(Debug)]
pub struct DbNews {
    pub id: String,
    pub title: String,
    pub text: String,
    pub image: String,
    pub buttons: Vec<DbNewsButton>,
}

/// A button as answered.
#[derive(Debug)]
pub struct NewsButton {
    pub button_type: String,
    pub url: String,
}

/// News as listed: the text is cut to a preview.
#[derive(Debug)]
pub struct NewsItem {
    pub id: String,
    pub title: String,
    pub text: String,
    pub image: String,
    pub buttons: Vec<NewsButton>,
}

/// News in full.
#[derive(Debug)]
pub struct NewsDetails {
    pub title: String,
    pub text: String,
    pub image: String,
    pub buttons: Vec<NewsButton>,
}

/// The news list.
#[derive(Debug)]
pub struct GetAllNews {
    pub news: Vec<NewsItem>,
}

/// How many characters of the text a news preview shows.
pub const PREVIEW_LENGTH: usize = 20;

/// How many news a list holds when the caller does not say.
pub fn get_default_news_count() -> (count: i32)
    ensures
        count == 20,
{
    20
}

/// Whether `buttons` answers `db_buttons`, one for one and in order.
pub open spec fn same_buttons(buttons: Seq<NewsButton>, db_buttons: Seq<DbNewsButton>) -> bool {
    &&& buttons.len() == db_buttons.len()
    &&& forall|i: int|
        0 <= i < db_buttons.len() ==> #[trigger] buttons[i].button_type == db_buttons[i].button_type
            && buttons[i].url == db_buttons[i].url
}

/// The buttons answered for stored ones.
pub fn to_news_buttons(buttons: &Vec<DbNewsButton>) -> (data: Vec<NewsButton>)
    ensures
        same_buttons(data@, buttons@),
        data@.len() == buttons@.len(),
        forall|i: int|
            0 <= i < buttons@.len() ==> #[trigger] data@[i].button_type == buttons@[i].button_type
                && data@[i].url == buttons@[i].url,
{
    let mut data: Vec<NewsButton> = Vec::new();
    let mut i: usize = 0;
    while i < buttons.len()
        invariant
            i <= buttons@.len(),
            data@.len() == i,
            forall|j: int|
                0 <= j < i ==> #[trigger] data@[j].button_type == buttons@[j].button_type
                    && data@[j].url == buttons@[j].url,
        decreases buttons@.len() - i,
    {
        let button = &buttons[i];
        data.push(NewsButton { button_type: button.button_type.clone(), url: button.url.clone() });
        i = i + 1;
    }
    data
}

/// Whether `item` lists `news`: same key, title, image and buttons, and a text
/// cut to its first 20 characters.
pub open spec fn lists_news(item: NewsItem, news: DbNews) -> bool {
    &&& item.id == news.id
    &&& item.title == news.title
    &&& item.text@ == first_chars(news.text@, 20)
    &&& item.image == news.image
    &&& same_buttons(item.buttons@, news.buttons@)
}

/// The news list answered for stored news, in order.
pub fn to_news_list(news: &Vec<DbNews>) -> (list: GetAllNews)
    ensures
        list.news@.len() == news@.len(),
        forall|i: int| 0 <= i < news@.len() ==> lists_news(#[trigger] list.news@[i], news@[i]),
{
    let mut data: Vec<NewsItem> = Vec::new();
    let mut i: usize = 0;
    while i < news.len()
        invariant
            i <= news@.len(),
            data@.len() == i,
            forall|j: int| 0 <= j < i ==> lists_news(#[trigger] data@[j], news@[j]),
        decreases news@.len() - i,
    {
        let db_news = &news[i];
        data.push(
            NewsItem {
                id: db_news.id.clone(),
                title: db_news.title.clone(),
                text: take_chars(db_news.text.as_str(), PREVIEW_LENGTH),
                image: db_news.image.clone(),
                buttons: to_news_buttons(&db_news.buttons),
            },
        );
        i = i + 1;
    }
    GetAllNews { news: data }
}

/// The details answered for stored news, or a general error when there is none.
pub fn news_details(news: &Option<DbNews>) -> (res: NarodenResult<NewsDetails>)
    ensures
        match *news {
            None => res matches Err(e) && e == NarodenError::GeneralError,
            Some(n) => res matches Ok(d) && d.title == n.title && d.text == n.text && d.image
                == n.image && same_buttons(d.buttons@, n.buttons@),
        },
{
    match news {
        None => Err(NarodenError::GeneralError),
        Some(news) => Ok(
            NewsDetails {
                title: news.title.clone(),
                text: news.text.clone(),
                image: news.image.clone(),
                buttons: to_news_buttons(&news.buttons),
            },
        ),
    }
}

/// Answered buttons are the stored ones one for one: as many of them, and the
/// i-th answered button has the type and link of the i-th stored one.
pub proof fn lemma_buttons_one_for_one(buttons: Seq<NewsButton>, db_buttons: Seq<DbNewsButton>, i: int)
    requires
        same_buttons(buttons, db_buttons),
    ensures
        buttons.len() == db_buttons.len(),
        0 <= i < db_buttons.len() ==> buttons[i].button_type == db_buttons[i].button_type
            && buttons[i].url == db_buttons[i].url,
{
}

/// A listed news item carries every stored button, in order.
pub proof fn lemma_listed_news_keeps_buttons(item: NewsItem, news: DbNews, i: int)
    requires
        lists_news(item, news),
        0 <= i < news.buttons@.len(),
    ensures
        item.buttons@.len() == news.buttons@.len(),
        item.buttons@[i].button_type == news.buttons@[i].button_type,
        item.buttons@[i].url == news.buttons@[i].url,
{
}

/// A preview never shows more than 20 characters, and shows all of a text that short.
pub proof fn lemma_preview_is_prefix(text: Seq<char>)
    ensures
        first_chars(text, 20).len() <= 20,
        first_chars(text, 20) == text.subrange(0, first_chars(text, 20).len() as int),
        text.len() <= 20 ==> first_chars(text, 20) == text,
{
    assert(text.subrange(0, text.len() as int) =~= text);
}

} // verus!
