use naroden::error::NarodenError;
use naroden::feed::{feed_details, get_default_feed_count, to_feed, DbFeed, FeedButton};
use naroden::interest::{
    all_users_statistics, create_interests_response, interest_details_response, interests_response,
    status_to_section, DbHasInterest, DbInterest, DbInterestStatistics,
};
use naroden::news::{get_default_news_count, news_details, to_news_list, DbNews, DbNewsButton};
use naroden::notification::{plan_token_refresh, DbNotificationToken, DeviceType, NotificationTokenRequest, TokenRefresh};
use naroden::context::NarodenContext;
use naroden::partner::get_partners;
use naroden::server::{timeout_error_response, uses_plain_websocket};
use naroden::statistic::{build_statistics, DbStatistic};
use naroden::survey::{to_survey, to_survey_list, DbAnswer, DbQuestion, DbSurveyInfo};
use naroden::tag::{Api as TagApi, DbOwnsTag, DbTag};
use naroden::text::{i32_to_string, str_contains, take_chars};
use naroden::user::{registration_error, user_profile, DbUser};

fn s(v: &str) -> String {
    v.to_string()
}

fn interest(id: &str, default_status: i32) -> DbInterest {
    DbInterest { id: s(id), name: format!("name-{id}"), description: s("d"), default_status }
}

#[test]
fn sections_of_statuses() {
    assert_eq!(status_to_section(0), "Забранени");
    assert_eq!(status_to_section(1), "Позволени");
    assert_eq!(status_to_section(2), "Любими");
    assert_eq!(status_to_section(3), "Други");
    assert_eq!(status_to_section(-1), "Други");
}

#[test]
fn interests_use_user_status_else_default() {
    let interests = vec![interest("a", 1), interest("b", 0), interest("c", 7)];
    let relations = vec![
        DbHasInterest { out: s("a"), status: 0 },
        DbHasInterest { out: s("a"), status: 2 },
        DbHasInterest { out: s("x"), status: 1 },
    ];
    let r = create_interests_response(&interests, &relations);
    assert_eq!(r.interests.len(), 3);
    assert_eq!(r.interests[0].id, "a");
    assert_eq!(r.interests[0].name, "name-a");
    assert_eq!(r.interests[0].section, "Любими");
    assert_eq!(r.interests[1].section, "Забранени");
    assert_eq!(r.interests[2].section, "Други");
}

#[test]
fn interests_missing_is_general_error() {
    assert!(matches!(interests_response(&None, &vec![]), Err(NarodenError::GeneralError)));
    let ok = interests_response(&Some(vec![interest("a", 1)]), &vec![]).unwrap();
    assert_eq!(ok.interests[0].section, "Позволени");
}

#[test]
fn statistics_take_last_count_per_status() {
    let stats = vec![
        DbInterestStatistics { count: 4, status: 0 },
        DbInterestStatistics { count: 9, status: 1 },
        DbInterestStatistics { count: 5, status: 2 },
        DbInterestStatistics { count: 100, status: 3 },
        DbInterestStatistics { count: 6, status: 0 },
    ];
    let total = all_users_statistics(&stats);
    assert_eq!(total.section, "Всички потребители");
    assert_eq!((total.forbidden, total.allowed, total.favourite), (6, 9, 5));
    let empty = all_users_statistics(&vec![]);
    assert_eq!((empty.forbidden, empty.allowed, empty.favourite), (0, 0, 0));
}

#[test]
fn interest_details_status() {
    let d = interest_details_response(Some(interest("a", 1)), Some(2), &vec![DbInterestStatistics { count: 3, status: 1 }]).unwrap();
    assert_eq!(d.status, 2);
    assert_eq!(d.name, "name-a");
    assert_eq!(d.description, "d");
    assert_eq!(d.stats.len(), 1);
    assert_eq!(d.stats[0].allowed, 3);
    let d = interest_details_response(Some(interest("a", 1)), None, &vec![]).unwrap();
    assert_eq!(d.status, 1);
    assert!(matches!(interest_details_response(None, Some(1), &vec![]), Err(NarodenError::GeneralError)));
}

fn news(text: &str) -> DbNews {
    DbNews {
        id: s("n1"),
        title: s("T"),
        text: s(text),
        image: s("img"),
        buttons: vec![DbNewsButton { button_type: s("link"), url: s("https://naroden.org") }],
    }
}

#[test]
fn news_list_previews_twenty_characters() {
    let list = to_news_list(&vec![news("Това е дълъг текст на новина за проверка"), news("кратък")]);
    assert_eq!(list.news.len(), 2);
    assert_eq!(list.news[0].text, "Това е дълъг текст н");
    assert_eq!(list.news[0].text.chars().count(), 20);
    assert_eq!(list.news[1].text, "кратък");
    assert_eq!(list.news[0].id, "n1");
    assert_eq!(list.news[0].buttons.len(), 1);
    assert_eq!(list.news[0].buttons[0].button_type, "link");
    assert_eq!(list.news[0].buttons[0].url, "https://naroden.org");
}

#[test]
fn news_details_in_full() {
    let d = news_details(&Some(news("пълен текст"))).unwrap();
    assert_eq!(d.text, "пълен текст");
    assert_eq!(d.title, "T");
    assert_eq!(d.image, "img");
    assert!(matches!(news_details(&None), Err(NarodenError::GeneralError)));
    assert_eq!(get_default_news_count(), 20);
}

#[test]
fn feed_list_and_details() {
    let entry = DbFeed {
        id: s("f1"),
        title: s("t"),
        text: s("a long text that is not cut"),
        image: s("i"),
        buttons: vec![FeedButton { button_type: s("b"), url: s("u") }],
    };
    let feed = to_feed(&vec![entry]);
    assert_eq!(feed.feed[0].text, "a long text that is not cut");
    assert_eq!(feed.feed[0].buttons[0].url, "u");
    match feed_details(&None) {
        Err(e) => assert_eq!((e.code.as_str(), e.description.as_str()), ("1000", "General error")),
        Ok(_) => panic!("expected an error"),
    }
    assert_eq!(get_default_feed_count(), 20);
}

#[test]
fn partners_are_empty() {
    assert!(get_partners().partners.is_empty());
}

#[test]
fn statistics_running_totals() {
    let daily = vec![
        DbStatistic { description: s("01.01.2024"), value: 2 },
        DbStatistic { description: s("02.01.2024"), value: 3 },
        DbStatistic { description: s("03.01.2024"), value: 10 },
    ];
    let r = build_statistics(&daily).unwrap();
    let values: Vec<&str> = r.new_users.iter().map(|x| x.value.as_str()).collect();
    assert_eq!(values, vec!["2", "5", "15"]);
    assert_eq!(r.new_users[1].description, "02.01.2024");
    assert_eq!(r.stats.len(), 1);
    assert_eq!(r.stats[0].description, "Нови за днес");
    assert_eq!(r.stats[0].value, "10");
}

#[test]
fn statistics_with_overflow() {
    let daily = vec![
        DbStatistic { description: s("a"), value: i32::MAX },
        DbStatistic { description: s("b"), value: 1 },
    ];
    assert!(build_statistics(&daily).is_none());
}

#[test]
fn decimal_text_of_integers() {
    for x in [0, 7, 10, 12345, -1, -905, i32::MAX, i32::MIN] {
        assert_eq!(i32_to_string(x), x.to_string());
    }
}

#[test]
fn substring_search() {
    assert!(str_contains("ws://localhost:8000", "localhost"));
    assert!(!str_contains("db.naroden.org", "localhost"));
    assert!(str_contains("abc", ""));
    assert!(!str_contains("", "a"));
    assert!(str_contains("тест", "ес"));
    assert_eq!(take_chars("абвгд", 3), "абв");
}

#[test]
fn survey_list_and_answers() {
    let list = to_survey_list(&vec![DbSurveyInfo { id: s("s1"), name: s("Анкета 1"), questions: vec![s("q1")] }]);
    assert_eq!(list.surveys[0].id, "s1");
    assert_eq!(list.surveys[0].name, "Анкета 1");
    assert_eq!(list.surveys[0].section, "Анкета");
    let questions = vec![
        DbQuestion { id: s("q1"), text: s("?"), question_type: s("single"), options: Some(vec![s("a"), s("b")]), editable: true, survey_id: s("s1") },
        DbQuestion { id: s("q2"), text: s("!"), question_type: s("text"), options: None, editable: false, survey_id: s("s1") },
    ];
    let answers = vec![
        DbAnswer { id: s("a0"), answers: vec![s("x")], user_id: s("u"), question_id: s("q3") },
        DbAnswer { id: s("a1"), answers: vec![s("b")], user_id: s("u"), question_id: s("q1") },
        DbAnswer { id: s("a2"), answers: vec![s("a")], user_id: s("u"), question_id: s("q1") },
    ];
    let survey = to_survey(&questions, &answers);
    assert_eq!(survey.questions.len(), 2);
    assert_eq!(survey.questions[0].answers, Some(vec![s("b")]));
    assert_eq!(survey.questions[0].options, Some(vec![s("a"), s("b")]));
    assert_eq!(survey.questions[0].question_type, "single");
    assert!(survey.questions[0].editable);
    assert_eq!(survey.questions[1].answers, None);
    assert_eq!(survey.questions[1].options, None);
    assert!(!survey.questions[1].editable);
}

fn context(device: &str) -> NarodenContext {
    NarodenContext::new(s("u1"), s("USER"), s(device), s("1"))
}

fn stored_token(device: &str, id: Option<&str>) -> DbNotificationToken {
    DbNotificationToken { id: id.map(s), device_type: s("1"), token: s("tok"), device_id: s(device), user_id: s("u1") }
}

#[test]
fn notification_token_refresh() {
    let request = NotificationTokenRequest { token: s("tok") };
    match plan_token_refresh(&context("d1"), &request, &None) {
        Some(TokenRefresh::Store(t)) => {
            assert_eq!(t.id, None);
            assert_eq!((t.token.as_str(), t.device_id.as_str(), t.user_id.as_str(), t.device_type.as_str()), ("tok", "d1", "u1", "1"));
        }
        _ => panic!("expected a new token to be stored"),
    }
    assert!(matches!(plan_token_refresh(&context("d1"), &request, &Some(stored_token("d1", Some("k")))), Some(TokenRefresh::Keep)));
    match plan_token_refresh(&context("d2"), &request, &Some(stored_token("d1", Some("k")))) {
        Some(TokenRefresh::Replace { stale, fresh }) => {
            assert_eq!(stale, "k");
            assert_eq!(fresh.device_id, "d2");
        }
        _ => panic!("expected the token to move to the new device"),
    }
    assert!(plan_token_refresh(&context("d2"), &request, &Some(stored_token("d1", None))).is_none());
}

#[test]
fn refresh_settles_after_store() {
    let request = NotificationTokenRequest { token: s("tok") };
    if let Some(TokenRefresh::Store(mut t)) = plan_token_refresh(&context("d9"), &request, &None) {
        t.id = Some(s("new"));
        assert!(matches!(plan_token_refresh(&context("d9"), &request, &Some(t)), Some(TokenRefresh::Keep)));
    } else {
        panic!("expected a store");
    }
}

#[test]
fn device_type_ids() {
    assert_eq!(DeviceType::GOOGLE.device_type_id(), "1");
    assert_eq!(DeviceType::IOS.device_type_id(), "2");
    assert_eq!(DeviceType::HUAWEY.device_type_id(), "3");
}

#[test]
fn registration_errors_are_classified() {
    let errors = "{\"0\":\"Database index `unique_contact_value` already contains 'ivan@example.org'\"}";
    assert_eq!(registration_error(errors, "ivan@example.org", "359888"), Some(NarodenError::AlreadyUsedEmail));
    let errors = "Database index `unique_contact_value` already contains '359888123456'";
    assert_eq!(registration_error(errors, "ivan@example.org", "359888123456"), Some(NarodenError::AlreadyUsedPhone));
    assert_eq!(registration_error(errors, "", "359888123456"), Some(NarodenError::AlreadyUsedPhone));
    assert_eq!(registration_error(errors, "", ""), None);
    assert_eq!(registration_error("some other failure 359888123456", "", "359888123456"), None);
}

#[test]
fn profile_answer() {
    let user = DbUser { first_name: s("A"), last_name: s("B"), email: Some(s("e")), phone: None, phone_code: Some(s("359")) };
    let r = user_profile(Some(user)).unwrap();
    assert_eq!((r.first_name.as_str(), r.last_name.as_str()), ("A", "B"));
    assert_eq!(r.email, Some(s("e")));
    assert_eq!(r.phone, None);
    assert_eq!(r.phone_code, Some(s("359")));
    assert!(matches!(user_profile(None), Err(NarodenError::GeneralError)));
}

#[test]
fn tags() {
    let api = TagApi;
    let tags = vec![DbTag { id: s("t1"), name: s("N"), section: s("S"), text: s("X"), default_status: 1 }];
    let r = api.create_tags_response(&tags);
    assert_eq!((r.tags[0].id.as_str(), r.tags[0].name.as_str(), r.tags[0].section.as_str()), ("t1", "N", "S"));
    assert!(api.tags_response(&None).is_err());
    let tag = DbTag { id: s("t1"), name: s("N"), section: s("S"), text: s("X"), default_status: 1 };
    let d = api.tag_details(tag, &Some(DbOwnsTag { user: s("u"), tag: s("t1"), status: 2 }));
    assert_eq!(d.status, 2);
    assert_eq!(d.description, "X");
    assert!(d.stats.is_empty());
}

#[test]
fn server_decisions() {
    assert!(uses_plain_websocket("localhost:8000"));
    assert!(!uses_plain_websocket("db.naroden.org"));
    assert_eq!(timeout_error_response(true, "x"), (408, s("Request took too long")));
    assert_eq!(timeout_error_response(false, "boom"), (500, s("Unhandled internal error: boom")));
}
