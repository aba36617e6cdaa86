//! Request handling logic of the Naroden mobile API: phone-number normalisation,
//! error codes, authentication decisions, and the shaping of interest, news,
//! survey, contact and statistics responses.

pub mod contact;
pub mod context;
pub mod error;
pub mod feed;
pub mod interest;
pub mod jwt;
pub mod news;
pub mod notification;
pub mod partner;
pub mod server;
pub mod statistic;
pub mod survey;
pub mod tag;
pub mod text;
pub mod user;
