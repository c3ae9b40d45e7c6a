use vstd::prelude::*;
use vstd::string::StringExecFns;
use crate::error::AppError;

verus! {

/// One sense of a word as the search endpoint reports it.
#[derive(Debug)]
pub struct Meaning {
    pub part_of_speech: String,
    pub definition: String,
}

/// A dictionary row as the search endpoint reports it.
#[derive(Debug)]
pub struct DictionaryEntry {
    pub source_url: String,
    pub word: String,
    pub phonetic: String,
    pub meanings: Vec<Meaning>,
}

/// The text of the search query up to the searched word.
pub open spec fn search_query_head() -> Seq<char> {
    "SELECT  word,audio_save, source_url, phonetic, meanings \n                FROM `dictionary-project-471510.dictionary.dictionary` where word  = '"@
}

/// The text of the search query after the searched word.
pub open spec fn search_query_tail() -> Seq<char> {
    "' LIMIT 1000"@
}

/// The searched word: the query value, or the empty text where there is none.
pub open spec fn searched_word(value: Option<String>) -> Seq<char> {
    match value {
        Some(s) => s@,
        None => Seq::empty(),
    }
}

/// Builds the query that looks a word up in the dictionary table.
pub fn search_query(value: &Option<String>) -> (q: String)
    ensures
        q@ == search_query_head() + searched_word(*value) + search_query_tail(),
{
    let mut q = String::from_str(
        "SELECT  word,audio_save, source_url, phonetic, meanings \n                FROM `dictionary-project-471510.dictionary.dictionary` where word  = '",
    );
    match value {
        Some(word) => q.append(word.as_str()),
        None => {},
    }
    q.append("' LIMIT 1000");
    q
}

/// Decides the answer to a search from what the lookup fetched (`None` where
/// the connection or the query failed): a failure is an internal error, no
/// rows is "not found", and otherwise the rows are the answer.
pub fn search_reply<T>(fetched: Option<Vec<T>>) -> (r: Result<Vec<T>, AppError>)
    ensures
        match fetched {
            None => r == Err::<Vec<T>, AppError>(AppError::Internal),
            Some(rows) => if rows@.len() == 0 {
                r == Err::<Vec<T>, AppError>(AppError::NotFound)
            } else {
                r == Ok::<Vec<T>, AppError>(rows)
            },
        },
{
    match fetched {
        None => Err(AppError::Internal),
        Some(rows) => if rows.len() == 0 {
            Err(AppError::NotFound)
        } else {
            Ok(rows)
        },
    }
}

/// The query embeds the searched value whole and unchanged: for a value `s`
/// the query is the head, then every character of `s`, then the tail; without
/// a value, the head directly followed by the tail.
pub proof fn lemma_search_query_embeds_value(value: Option<String>)
    ensures
        value matches Some(s) ==> searched_word(value) == s@,
        value is None ==> searched_word(value) == Seq::<char>::empty(),
        value matches Some(s) ==> search_query_head() + searched_word(value) + search_query_tail()
            == search_query_head() + s@ + search_query_tail(),
        (search_query_head() + searched_word(value) + search_query_tail()).len()
            == search_query_head().len() + search_query_tail().len() + match value {
            Some(s) => s@.len(),
            None => 0,
        },
{
}

} // verus!
