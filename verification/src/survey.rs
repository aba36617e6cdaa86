//! Surveys: the survey list, and a survey's questions with the caller's answers.

use vstd::prelude::*;
use vstd::string::*;

verus! {

/// A survey as stored; `id` is the key of its record.
#[derive(Debug)]
pub struct DbSurveyInfo {
    pub id: String,
    pub name: String,
    pub questions: Vec<String>,
}

/// A survey as listed.
#[derive(Debug)]
pub struct SurveyInfo {
    pub id: String,
    pub name: String,
    pub section: String,
}

/// The survey list.
#[derive(Debug)]
pub struct AllSurveys {
    pub surveys: Vec<SurveyInfo>,
}

/// A question as stored; `id` and `survey_id` are record keys.
#[derive(Debug)]
pub struct DbQuestion {
    pub id: String,
    pub text: String,
    pub question_type: String,
    pub options: Option<Vec<String>>,
    pub editable: bool,
    pub survey_id: String,
}

/// A user's answer to a question, as stored; the ids are record keys.
#[derive(Debug)]
pub struct DbAnswer {
    pub id: String,
    pub answers: Vec<String>,
    pub user_id: String,
    pub question_id: String,
}

/// A question as answered, with the caller's answers when there are any.
#[derive(Debug)]
pub struct Question {
    pub id: String,
    pub text: String,
    pub question_type: String,
    pub options: Option<Vec<String>>,
    pub answers: Option<Vec<String>>,
    pub editable: bool,
}

/// A survey's questions.
#[derive(Debug)]
pub struct Survey {
    pub questions: Vec<Question>,
}

/// The answers a user gives to a question.
#[derive(Debug)]
pub struct PostSurveyAnswerRequest {
    pub answers: Vec<String>,
}

/// The view of an optional list of strings.
pub open spec fn strings_view(o: Option<Vec<String>>) -> Option<Seq<String>> {
    match o {
        None => None,
        Some(v) => Some(v@),
    }
}

/// A copy of a list of strings.
pub fn copy_strings(v: &Vec<String>) -> (copy: Vec<String>)
    ensures
        copy@ == v@,
{
    let mut copy: Vec<String> = Vec::new();
    let mut i: usize = 0;
    while i < v.len()
        invariant
            i <= v@.len(),
            copy@ == v@.subrange(0, i as int),
        decreases v@.len() - i,
    {
        copy.push(v[i].clone());
        i = i + 1;
        assert(copy@ =~= v@.subrange(0, i as int));
    }
    assert(v@.subrange(0, v@.len() as int) =~= v@);
    copy
}

/// A copy of an optional list of strings.
pub fn copy_optional_strings(o: &Option<Vec<String>>) -> (copy: Option<Vec<String>>)
    ensures
        strings_view(copy) == strings_view(*o),
{
    match o {
        None => None,
        Some(v) => Some(copy_strings(v)),
    }
}

/// Section that surveys are listed under.
pub open spec fn survey_section() -> Seq<char> {
    "Анкета"@
}

/// The survey list answered for stored surveys, in order, all under the survey section.
pub fn to_survey_list(surveys: &Vec<DbSurveyInfo>) -> (list: AllSurveys)
    ensures
        list.surveys@.len() == surveys@.len(),
        forall|i: int|
            0 <= i < surveys@.len() ==> {
                &&& #[trigger] list.surveys@[i].id == surveys@[i].id
                &&& list.surveys@[i].name == surveys@[i].name
                &&& list.surveys@[i].section@ == survey_section()
            },
{
    let mut data: Vec<SurveyInfo> = Vec::new();
    let mut i: usize = 0;
    while i < surveys.len()
        invariant
            i <= surveys@.len(),
            data@.len() == i,
            forall|j: int|
                0 <= j < i ==> {
                    &&& #[trigger] data@[j].id == surveys@[j].id
                    &&& data@[j].name == surveys@[j].name
                    &&& data@[j].section@ == survey_section()
                },
        decreases surveys@.len() - i,
    {
        let survey = &surveys[i];
        data.push(
            SurveyInfo {
                id: survey.id.clone(),
                name: survey.name.clone(),
                section: String::from_str("Анкета"),
            },
        );
        i = i + 1;
    }
    AllSurveys { surveys: data }
}

/// The answers of the first stored answer that belongs to the question `question_id`.
pub open spec fn answers_for(answers: Seq<DbAnswer>, question_id: Seq<char>) -> Option<Seq<String>>
    decreases answers.len(),
{
    if answers.len() == 0 {
        None
    } else if answers[0].question_id@ == question_id {
        Some(answers[0].answers@)
    } else {
        answers_for(answers.drop_first(), question_id)
    }
}

fn find_answers(answers: &Vec<DbAnswer>, question_id: &String) -> (found: Option<Vec<String>>)
    ensures
        strings_view(found) == answers_for(answers@, question_id@),
        found is None <==> forall|k: int| 0 <= k < answers@.len() ==> #[trigger] answers@[k].question_id@ != question_id@,
        forall|k: int|
            0 <= k < answers@.len() && #[trigger] answers@[k].question_id@ == question_id@ && (forall|
                j: int,
            | 0 <= j < k ==> answers@[j].question_id@ != question_id@) ==> (found matches Some(v)
                && v@ == answers@[k].answers@),
{
    proof {
        lemma_answers_are_first_stored_answer(answers@, question_id@);
    }
    let mut j: usize = 0;
    assert(answers@.subrange(0, answers@.len() as int) =~= answers@);
    while j < answers.len()
        invariant
            j <= answers@.len(),
            answers_for(answers@, question_id@) == answers_for(
                answers@.subrange(j as int, answers@.len() as int),
                question_id@,
            ),
        decreases answers@.len() - j,
    {
        assert(answers@.subrange(j as int, answers@.len() as int).drop_first() =~= answers@.subrange(
            j + 1,
            answers@.len() as int,
        ));
        if answers[j].question_id == *question_id {
            proof {
                lemma_answers_are_first_stored_answer(answers@, question_id@);
            }
            return Some(copy_strings(&answers[j].answers));
        }
        j = j + 1;
    }
    None
}

/// Whether `question` answers the stored `db_question`, with the caller's answers
/// taken from `answers`.
pub open spec fn answers_question(question: Question, db_question: DbQuestion, answers: Seq<DbAnswer>) -> bool {
    &&& question.id == db_question.id
    &&& question.text == db_question.text
    &&& question.question_type == db_question.question_type
    &&& strings_view(question.options) == strings_view(db_question.options)
    &&& strings_view(question.answers) == answers_for(answers, db_question.id@)
    &&& question.editable == db_question.editable
}

/// A survey's questions, in order, each with the caller's answers to it.
pub fn to_survey(questions: &Vec<DbQuestion>, answers: &Vec<DbAnswer>) -> (survey: Survey)
    ensures
        survey.questions@.len() == questions@.len(),
        forall|i: int|
            0 <= i < questions@.len() ==> answers_question(
                #[trigger] survey.questions@[i],
                questions@[i],
                answers@,
            ),
{
    let mut data: Vec<Question> = Vec::new();
    let mut i: usize = 0;
    while i < questions.len()
        invariant
            i <= questions@.len(),
            data@.len() == i,
            forall|j: int|
                0 <= j < i ==> answers_question(#[trigger] data@[j], questions@[j], answers@),
        decreases questions@.len() - i,
    {
        let question = &questions[i];
        data.push(
            Question {
                id: question.id.clone(),
                text: question.text.clone(),
                question_type: question.question_type.clone(),
                options: copy_optional_strings(&question.options),
                answers: find_answers(answers, &question.id),
                editable: question.editable,
            },
        );
        i = i + 1;
    }
    Survey { questions: data }
}

/// The answers shown for a question are exactly those of the caller's first stored
/// answer to it (all of them, in order), and there are none when no stored answer
/// belongs to the question.
pub proof fn lemma_answers_are_first_stored_answer(answers: Seq<DbAnswer>, question_id: Seq<char>)
    ensures
        answers_for(answers, question_id) is None <==> forall|k: int|
            0 <= k < answers.len() ==> #[trigger] answers[k].question_id@ != question_id,
        forall|k: int|
            0 <= k < answers.len() && #[trigger] answers[k].question_id@ == question_id && (forall|
                j: int,
            | 0 <= j < k ==> answers[j].question_id@ != question_id) ==> answers_for(
                answers,
                question_id,
            ) == Some(answers[k].answers@),
    decreases answers.len(),
{
    if answers.len() > 0 {
        let rest = answers.drop_first();
        lemma_answers_are_first_stored_answer(rest, question_id);
        assert forall|k: int| 0 <= k < rest.len() implies #[trigger] rest[k] == answers[k + 1] by {}
        if answers_for(answers, question_id) is None {
            assert(answers[0].question_id@ != question_id);
            assert forall|k: int| 0 <= k < answers.len() implies #[trigger] answers[k].question_id@
                != question_id by {
                if k > 0 {
                    assert(rest[k - 1] == answers[k]);
                }
            }
        }
        if forall|k: int| 0 <= k < answers.len() ==> #[trigger] answers[k].question_id@ != question_id {
            assert(answers[0].question_id@ != question_id);
            assert forall|k: int| 0 <= k < rest.len() implies #[trigger] rest[k].question_id@
                != question_id by {
                assert(rest[k] == answers[k + 1]);
            }
        }
        assert forall|k: int|
            0 <= k < answers.len() && #[trigger] answers[k].question_id@ == question_id && (forall|
                j: int,
            | 0 <= j < k ==> answers[j].question_id@ != question_id) implies answers_for(
            answers,
            question_id,
        ) == Some(answers[k].answers@) by {
            if k > 0 {
                assert(answers[0].question_id@ != question_id);
                assert(rest[k - 1] == answers[k]);
                assert forall|j: int| 0 <= j < k - 1 implies rest[j].question_id@ != question_id by {
                    assert(rest[j] == answers[j + 1]);
                }
            }
        }
    }
}

/// A question's answers are the caller's first stored answer to it: an answer to
/// another question, stored before it, changes nothing.
pub proof fn lemma_answers_follow_question(answers: Seq<DbAnswer>, other: DbAnswer, question_id: Seq<char>)
    requires
        other.question_id@ != question_id,
    ensures
        answers_for(seq![other] + answers, question_id) == answers_for(answers, question_id),
{
    assert((seq![other] + answers).drop_first() =~= answers);
}

} // verus!
